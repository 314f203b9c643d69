//! Character-level helpers on `String`s.
use vstd::prelude::*;

verus! {

/// `s` with `fill` put in front until it is at least `width` characters long.
pub open spec fn pad_left(s: Seq<char>, fill: char, width: nat) -> Seq<char> {
    if s.len() < width {
        Seq::new((width - s.len()) as nat, |_i: int| fill) + s
    } else {
        s
    }
}

/// ASCII upper-case letters mapped to lower case, every other character kept.
pub open spec fn lower_char(c: char) -> char {
    if 'A' <= c && c <= 'Z' {
        ((c as int) + 32) as char
    } else {
        c
    }
}

/// `lower_char` applied to every character.
pub open spec fn lower_ascii(s: Seq<char>) -> Seq<char> {
    s.map_values(|c: char| lower_char(c))
}

/// Appends one character (`String::push`).
#[verifier::external_body]
pub(crate) fn push_char(s: &mut String, c: char)
    ensures
        final(s)@ == old(s)@.push(c),
{
    s.push(c);
}

/// A copy of `s` padded on the left with `fill` to `width` characters.
pub fn pad_left_exec(s: &str, fill: char, width: usize) -> (res: String)
    ensures
        res@ == pad_left(s@, fill, width as nat),
{
    let len = s.unicode_len();
    let mut res = String::new();
    if len < width {
        let n = width - len;
        let mut i: usize = 0;
        while i < n
            invariant
                i <= n,
                res@ == Seq::new(i as nat, |_k: int| fill),
            decreases n - i,
        {
            push_char(&mut res, fill);
            i = i + 1;
            assert(res@ =~= Seq::new(i as nat, |_k: int| fill));
        }
    }
    res.append(s);
    res
}

/// A copy of `s` with ASCII upper-case letters turned to lower case.
pub fn lower_ascii_exec(s: &str) -> (res: String)
    ensures
        res@ == lower_ascii(s@),
{
    let len = s.unicode_len();
    let mut res = String::new();
    let mut i: usize = 0;
    while i < len
        invariant
            i <= len,
            len == s@.len(),
            res@ == lower_ascii(s@.take(i as int)),
        decreases len - i,
    {
        let c = s.get_char(i);
        let l = if 'A' <= c && c <= 'Z' {
            ((c as u8) + 32) as char
        } else {
            c
        };
        push_char(&mut res, l);
        assert(s@.take((i + 1) as int) =~= s@.take(i as int).push(c));
        i = i + 1;
        assert(res@ =~= lower_ascii(s@.take(i as int)));
    }
    assert(s@.take(len as int) =~= s@);
    res
}

/// `prefix` followed by `rest`.
pub fn prefixed(prefix: &str, rest: &str) -> (res: String)
    ensures
        res@ == prefix@ + rest@,
{
    let mut res = String::from_str(prefix);
    res.append(rest);
    res
}

/// The borrowed text of `o`.
pub fn as_deref(o: &Option<String>) -> (res: Option<&str>)
    ensures
        res.deep_view() == o.deep_view(),
{
    match o {
        Some(s) => Some(s.as_str()),
        None => None,
    }
}

/// An owned copy of `o`.
pub fn to_owned_opt(o: Option<&str>) -> (res: Option<String>)
    ensures
        res.deep_view() == o.deep_view(),
{
    match o {
        Some(s) => Some(String::from_str(s)),
        None => None,
    }
}

/// A copy of `o`.
pub fn clone_opt(o: &Option<String>) -> (res: Option<String>)
    ensures
        res == *o,
{
    match o {
        Some(s) => Some(s.clone()),
        None => None,
    }
}

} // verus!
