//! Record identifiers: the time since 2000 in base 36, padded to eight
//! places, followed by two base-36 digits drawn at random.
use vstd::prelude::*;
use crate::text::{pad_left, lower_ascii, lower_char, pad_left_exec, lower_ascii_exec};
use rand::Rng;
use crate::clock::now_millis;

verus! {

/// 2000-01-01T00:00:00Z in milliseconds since the Unix epoch.
pub const TIME2000: i64 = 946684800000;

/// The digit of value `d` (`0 <= d < 36`), letters in upper case.
pub open spec fn digit36(d: int) -> char {
    if d < 10 {
        (48 + d) as char
    } else {
        (65 + d - 10) as char
    }
}

/// `n` written in base 36 with upper-case letter digits, no leading zeros
/// ("0" for zero).
pub open spec fn radix36(n: nat) -> Seq<char>
    decreases n,
{
    if n < 36 {
        seq![digit36(n as int)]
    } else {
        radix36(n / 36).push(digit36((n % 36) as int))
    }
}

/// The unsigned 64-bit number whose bits are the low 64 bits of `n` in
/// two's complement: `n` modulo 2^64.
pub open spec fn twos_complement(n: int) -> nat {
    (n % 0x1_0000_0000_0000_0000) as nat
}

/// The identifier for `offset` milliseconds after 2000 and the random part `r`.
pub open spec fn id_text(offset: int, r: int) -> Seq<char> {
    lower_ascii(
        pad_left(radix36(twos_complement(offset)), ' ', 8) + pad_left(
            radix36(twos_complement(r)),
            '0',
            2,
        ),
    )
}

/// `radix_fmt::radix_36` rendered with the alternate flag (`{:#}`): the
/// crate writes the digits of the two's complement value in base 36, with
/// upper-case letters, no padding and no sign.
#[verifier::external_body]
pub(crate) fn radix36_upper(n: i64) -> (res: String)
    ensures
        res@ == radix36(twos_complement(n as int)),
{
    format!("{:#}", radix_fmt::radix_36(n))
}

#[verifier::external_type_specification]
#[verifier::external_body]
pub struct ExThreadRng(rand::rngs::ThreadRng);

/// `rand::thread_rng()`: a handle on the thread-local random generator.
#[verifier::external_body]
fn thread_rng() -> (res: rand::rngs::ThreadRng) {
    rand::thread_rng()
}

/// `Rng::gen_range(0..n)`: a random integer in `[0, n)`. rand panics on an
/// empty range, so `n` must be positive. Which value comes out is chance.
#[verifier::external_body]
fn gen_range(rng: &mut rand::rngs::ThreadRng, n: i64) -> (res: i64)
    requires
        n > 0,
    ensures
        0 <= res < n,
{
    rng.gen_range(0..n)
}

/// A random integer in `[0, n)`, drawn from the thread-local generator.
pub(crate) fn random_below(n: i64) -> (res: i64)
    requires
        n > 0,
    ensures
        0 <= res < n,
{
    let mut rng = thread_rng();
    gen_range(&mut rng, n)
}

/// The identifier for the time `time` (milliseconds since the Unix epoch)
/// and the random part `r`. The offset from 2000 is taken modulo 2^64, as
/// 64-bit arithmetic that wraps computes it.
pub fn format_id(time: i64, r: i64) -> (id: String)
    ensures
        id@ == id_text(time - TIME2000, r as int),
{
    let offset = time.wrapping_sub(TIME2000);
    assert(twos_complement(offset as int) == twos_complement(time - TIME2000)) by {
        let d = time - TIME2000;
        if d < i64::MIN {
            assert(offset as int == d + 0x1_0000_0000_0000_0000);
        }
    }
    let head = radix36_upper(offset);
    let tail = radix36_upper(r);
    let mut joined = pad_left_exec(head.as_str(), ' ', 8);
    let padded_tail = pad_left_exec(tail.as_str(), '0', 2);
    joined.append(padded_tail.as_str());
    lower_ascii_exec(joined.as_str())
}

/// A fresh identifier for the time `time`: its random part is drawn from
/// `[0, 1296)`, the values of two base-36 digits.
pub fn gen_id(time: &i64) -> (id: String)
    ensures
        exists|r: int| 0 <= r < 1296 && id@ == #[trigger] id_text(*time - TIME2000, r),
{
    let r = random_below(1296);
    format_id(*time, r)
}

/// `id` is an identifier made by `gen_id` for the time `time`.
pub open spec fn is_id_for(id: Seq<char>, time: int) -> bool {
    exists|r: int| 0 <= r < 1296 && id == #[trigger] id_text(time - TIME2000, r)
}

/// The current time, as the clock reads it, and a fresh identifier for it.
/// Which time the clock gives is not stated (it depends on when the call
/// is made); it is never before the Unix epoch.
pub fn stamp() -> (res: (i64, String))
    ensures
        res.0 >= 0,
        is_id_for(res.1@, res.0 as int),
{
    let now = now_millis();
    let id = gen_id(&now);
    (now, id)
}

/// The value of a character read as a lower-case base-36 digit; a space
/// counts as zero.
pub open spec fn digit_value(c: char) -> int {
    if '0' <= c && c <= '9' {
        c as int - 48
    } else if 'a' <= c && c <= 'z' {
        c as int - 97 + 10
    } else {
        0
    }
}

/// The number written by `s` in base 36 (lower-case digits, spaces read as
/// zeros).
pub open spec fn value36(s: Seq<char>) -> int
    decreases s.len(),
{
    if s.len() == 0 {
        0
    } else {
        value36(s.drop_last()) * 36 + digit_value(s.last())
    }
}

/// The number of milliseconds in 36^8 milliseconds: the identifiers of the
/// times from 2000 up to this offset (into 2089) have ten characters.
pub open spec fn id_horizon() -> int {
    2821109907456
}

proof fn lemma_digit_roundtrip(d: int)
    requires
        0 <= d < 36,
    ensures
        digit_value(lower_char(digit36(d))) == d,
{
}

proof fn lemma_lower_push(s: Seq<char>, c: char)
    ensures
        lower_ascii(s.push(c)) == lower_ascii(s).push(lower_char(c)),
{
    assert(lower_ascii(s.push(c)) =~= lower_ascii(s).push(lower_char(c)));
}

proof fn lemma_value_of_digits(n: nat)
    ensures
        value36(lower_ascii(radix36(n))) == n,
    decreases n,
{
    if n < 36 {
        lemma_digit_roundtrip(n as int);
        assert(lower_ascii(radix36(n)) =~= seq![lower_char(digit36(n as int))]);
        let l = lower_ascii(radix36(n));
        assert(l.drop_last() =~= Seq::<char>::empty());
        assert(value36(l.drop_last()) == 0);
        assert(value36(l) == value36(l.drop_last()) * 36 + digit_value(l.last()));
    } else {
        let q = n / 36;
        let d = (n % 36) as int;
        lemma_value_of_digits(q);
        lemma_lower_push(radix36(q), digit36(d));
        lemma_digit_roundtrip(d);
        let l = lower_ascii(radix36(n));
        assert(l.drop_last() =~= lower_ascii(radix36(q)));
        assert(l.last() == lower_char(digit36(d)));
        assert(l.len() > 0);
        assert(value36(l) == value36(l.drop_last()) * 36 + digit_value(l.last()));
        assert(n == q * 36 + d);
    }
}

proof fn lemma_digits_len(n: nat, k: nat)
    requires
        k >= 1,
        n < pow36(k),
    ensures
        radix36(n).len() <= k,
    decreases n,
{
    if n >= 36 {
        assert(k >= 2) by {
            if k < 2 {
                assert(pow36(1) == 36) by {
                    reveal_with_fuel(pow36, 2);
                }
            }
        }
        assert(n / 36 < pow36((k - 1) as nat)) by {
            assert(pow36(k) == 36 * pow36((k - 1) as nat));
        }
        lemma_digits_len(n / 36, (k - 1) as nat);
    }
}

/// 36 to the power `k`.
pub open spec fn pow36(k: nat) -> int
    decreases k,
{
    if k == 0 {
        1
    } else {
        36 * pow36((k - 1) as nat)
    }
}

proof fn lemma_leading_zeros(z: Seq<char>, s: Seq<char>)
    requires
        forall|i: int| 0 <= i < z.len() ==> digit_value(#[trigger] z[i]) == 0,
    ensures
        value36(z + s) == value36(s),
    decreases s.len(),
{
    if s.len() == 0 {
        lemma_zeros(z);
        assert(z + s =~= z);
    } else {
        lemma_leading_zeros(z, s.drop_last());
        assert((z + s).drop_last() =~= z + s.drop_last());
        assert((z + s).last() == s.last());
    }
}

proof fn lemma_zeros(z: Seq<char>)
    requires
        forall|i: int| 0 <= i < z.len() ==> digit_value(#[trigger] z[i]) == 0,
    ensures
        value36(z) == 0,
    decreases z.len(),
{
    if z.len() > 0 {
        assert(forall|i: int| 0 <= i < z.drop_last().len() ==> z.drop_last()[i] == z[i]);
        lemma_zeros(z.drop_last());
    }
}

proof fn lemma_lower_pad(s: Seq<char>, fill: char, w: nat)
    requires
        lower_char(fill) == fill,
    ensures
        lower_ascii(pad_left(s, fill, w)) == pad_left(lower_ascii(s), fill, w),
        pad_left(s, fill, w).len() == if s.len() < w { w as int } else { s.len() as int },
{
    if s.len() < w {
        assert(lower_ascii(pad_left(s, fill, w)) =~= pad_left(lower_ascii(s), fill, w));
    }
}

proof fn lemma_padded_value(n: nat, fill: char, w: nat)
    requires
        fill == ' ' || fill == '0',
        w >= 1,
        n < pow36(w),
    ensures
        lower_ascii(pad_left(radix36(n), fill, w)).len() == w,
        value36(lower_ascii(pad_left(radix36(n), fill, w))) == n,
{
    lemma_digits_len(n, w);
    lemma_lower_pad(radix36(n), fill, w);
    lemma_value_of_digits(n);
    let l = lower_ascii(radix36(n));
    if l.len() < w {
        let z = Seq::new((w - l.len()) as nat, |_i: int| fill);
        lemma_leading_zeros(z, l);
    }
}

/// An identifier made for an offset below `id_horizon()` from 2000 and a
/// draw below 1296 has ten characters: its first eight, read in base 36,
/// give the offset and its last two the draw.
pub proof fn lemma_id_decodes(offset: int, r: int)
    requires
        0 <= offset < id_horizon(),
        0 <= r < 1296,
    ensures
        id_text(offset, r).len() == 10,
        value36(id_text(offset, r).take(8)) == offset,
        value36(id_text(offset, r).skip(8)) == r,
{
    assert(pow36(8) == id_horizon()) by {
        reveal_with_fuel(pow36, 9);
    }
    assert(pow36(2) == 1296) by {
        reveal_with_fuel(pow36, 3);
    }
    let a = pad_left(radix36(offset as nat), ' ', 8);
    let b = pad_left(radix36(r as nat), '0', 2);
    lemma_padded_value(offset as nat, ' ', 8);
    lemma_padded_value(r as nat, '0', 2);
    let id = id_text(offset, r);
    assert(lower_ascii(a + b) =~= lower_ascii(a) + lower_ascii(b));
    assert(id.take(8) =~= lower_ascii(a));
    assert(id.skip(8) =~= lower_ascii(b));
}

/// Identifiers made for offsets below `id_horizon()` and draws below 1296
/// are equal only when both the offsets and the draws are.
pub proof fn lemma_id_injective(o1: int, r1: int, o2: int, r2: int)
    requires
        0 <= o1 < id_horizon(),
        0 <= o2 < id_horizon(),
        0 <= r1 < 1296,
        0 <= r2 < 1296,
        id_text(o1, r1) == id_text(o2, r2),
    ensures
        o1 == o2,
        r1 == r2,
{
    lemma_id_decodes(o1, r1);
    lemma_id_decodes(o2, r2);
}

/// An identifier made for a time from 2000 up to `id_horizon()`
/// milliseconds later has ten characters, and its first eight give back
/// the time since 2000.
pub proof fn lemma_id_for_records_time(id: Seq<char>, time: int)
    requires
        is_id_for(id, time),
        TIME2000 <= time < TIME2000 + id_horizon(),
    ensures
        id.len() == 10,
        value36(id.take(8)) == time - TIME2000,
        0 <= value36(id.skip(8)) < 1296,
{
    let r = choose|r: int| 0 <= r < 1296 && id == #[trigger] id_text(time - TIME2000, r);
    lemma_id_decodes(time - TIME2000, r);
}

/// `c` is a base-36 digit: a decimal digit or an upper-case letter.
pub open spec fn is_digit36(c: char) -> bool {
    ('0' <= c && c <= '9') || ('A' <= c && c <= 'Z')
}

/// A number below 36^k is written with one to `k` base-36 digits.
pub proof fn lemma_radix36_shape(n: nat, k: nat)
    requires
        k >= 1,
        n < pow36(k),
    ensures
        1 <= radix36(n).len() <= k,
        forall|i: int| 0 <= i < radix36(n).len() ==> is_digit36(#[trigger] radix36(n)[i]),
    decreases n,
{
    lemma_digits_len(n, k);
    if n >= 36 {
        assert(k >= 2) by {
            if k < 2 {
                assert(pow36(1) == 36) by {
                    reveal_with_fuel(pow36, 2);
                }
            }
        }
        assert(pow36(k) == 36 * pow36((k - 1) as nat));
        lemma_radix36_shape(n / 36, (k - 1) as nat);
        let d = radix36(n);
        let p = radix36(n / 36);
        assert(d == p.push(digit36((n % 36) as int)));
        assert forall|i: int| 0 <= i < d.len() implies is_digit36(#[trigger] d[i]) by {
            if i < p.len() {
                assert(d[i] == p[i]);
            }
        }
    }
}

/// `a` and `b` agree before position `i`, and there `a` has the smaller
/// character.
pub open spec fn differs_first_at(a: Seq<char>, b: Seq<char>, i: int) -> bool {
    &&& 0 <= i < a.len()
    &&& i < b.len()
    &&& a.take(i) == b.take(i)
    &&& (a[i] as int) < (b[i] as int)
}

/// `a` comes before `b` in the order of Rust's `str` (lexicographic by
/// character, which UTF-8 keeps byte for byte): they first differ where `a`
/// has the smaller character, or `a` is a proper prefix of `b`.
pub open spec fn text_less(a: Seq<char>, b: Seq<char>) -> bool {
    (exists|i: int| differs_first_at(a, b, i)) || (a.len() < b.len() && b.take(a.len() as int) == a)
}

proof fn lemma_differs_extends(a: Seq<char>, b: Seq<char>, c: Seq<char>, d: Seq<char>, i: int)
    requires
        differs_first_at(a, b, i),
    ensures
        differs_first_at(a + c, b + d, i),
{
    assert((a + c).take(i) =~= a.take(i));
    assert((b + d).take(i) =~= b.take(i));
    assert((a + c)[i] == a[i]);
    assert((b + d)[i] == b[i]);
}

proof fn lemma_lower_digit(d: int)
    requires
        0 <= d < 36,
    ensures
        lower_char(digit36(d)) as int == if d < 10 { 48 + d } else { 87 + d },
{
}

proof fn lemma_digits_nonempty(n: nat)
    ensures
        radix36(n).len() >= 1,
    decreases n,
{
    if n >= 36 {
        lemma_digits_nonempty(n / 36);
    }
}

proof fn lemma_digits_len_mono(n1: nat, n2: nat)
    requires
        n1 <= n2,
    ensures
        radix36(n1).len() <= radix36(n2).len(),
    decreases n2,
{
    lemma_digits_nonempty(n1);
    lemma_digits_nonempty(n2);
    if n1 >= 36 {
        lemma_digits_len_mono(n1 / 36, n2 / 36);
    }
}

/// The lower-cased digits of `n1 < n2`, when they are as many, first
/// differ where `n1`'s digit is the smaller.
proof fn lemma_digits_order(n1: nat, n2: nat) -> (i: int)
    requires
        n1 < n2,
        radix36(n1).len() == radix36(n2).len(),
    ensures
        differs_first_at(lower_ascii(radix36(n1)), lower_ascii(radix36(n2)), i),
    decreases n2,
{
    let l1 = lower_ascii(radix36(n1));
    let l2 = lower_ascii(radix36(n2));
    if n2 < 36 {
        lemma_lower_digit(n1 as int);
        lemma_lower_digit(n2 as int);
        assert(l1.take(0) =~= l2.take(0));
        0
    } else {
        lemma_digits_nonempty(n2 / 36);
        lemma_digits_nonempty(n1 / 36);
        assert(n1 >= 36);
        let q1 = n1 / 36;
        let q2 = n2 / 36;
        let d1 = (n1 % 36) as int;
        let d2 = (n2 % 36) as int;
        lemma_lower_push(radix36(q1), digit36(d1));
        lemma_lower_push(radix36(q2), digit36(d2));
        let p1 = lower_ascii(radix36(q1));
        let p2 = lower_ascii(radix36(q2));
        assert(l1 == p1.push(lower_char(digit36(d1))));
        assert(l2 == p2.push(lower_char(digit36(d2))));
        if q1 < q2 {
            let j = lemma_digits_order(q1, q2);
            assert(l1 =~= p1 + seq![lower_char(digit36(d1))]);
            assert(l2 =~= p2 + seq![lower_char(digit36(d2))]);
            lemma_differs_extends(p1, p2, seq![lower_char(digit36(d1))], seq![lower_char(digit36(d2))], j);
            j
        } else {
            assert(q1 == q2);
            assert(d1 < d2);
            lemma_lower_digit(d1);
            lemma_lower_digit(d2);
            let k = p1.len() as int;
            assert(l1.take(k) =~= p1);
            assert(l2.take(k) =~= p2);
            k
        }
    }
}

/// The eight-place, space-padded, lower-cased time parts of offsets
/// `o1 < o2` below 36^8 first differ, within the eight places, where
/// `o1`'s is the smaller.
proof fn lemma_time_part_order(o1: nat, o2: nat) -> (i: int)
    requires
        o1 < o2 < id_horizon(),
    ensures
        i < 8,
        differs_first_at(
            lower_ascii(pad_left(radix36(o1), ' ', 8)),
            lower_ascii(pad_left(radix36(o2), ' ', 8)),
            i,
        ),
{
    assert(pow36(8) == id_horizon()) by {
        reveal_with_fuel(pow36, 9);
    }
    lemma_digits_len(o1, 8);
    lemma_digits_len(o2, 8);
    lemma_digits_len_mono(o1, o2);
    lemma_digits_nonempty(o1);
    lemma_lower_pad(radix36(o1), ' ', 8);
    lemma_lower_pad(radix36(o2), ' ', 8);
    let l1 = lower_ascii(radix36(o1));
    let l2 = lower_ascii(radix36(o2));
    let a = pad_left(l1, ' ', 8);
    let b = pad_left(l2, ' ', 8);
    let la = l1.len() as int;
    let lb = l2.len() as int;
    if la == lb {
        let j = lemma_digits_order(o1, o2);
        let k = 8 - la;
        let sp = Seq::new(k as nat, |_i: int| ' ');
        if la < 8 {
            assert(a == sp + l1);
            assert(b == sp + l2);
        } else {
            assert(a == l1);
            assert(b == l2);
            assert(sp =~= Seq::<char>::empty());
        }
        assert(a =~= sp + l1);
        assert(b =~= sp + l2);
        assert(a.take(k + j) =~= sp + l1.take(j));
        assert(b.take(k + j) =~= sp + l2.take(j));
        assert(a[k + j] == l1[j]);
        assert(b[k + j] == l2[j]);
        k + j
    } else {
        let k = 8 - lb;
        lemma_radix36_shape(o2, 8);
        assert(is_digit36(radix36(o2)[0]));
        assert(l2[0] == lower_char(radix36(o2)[0]));
        assert(a == Seq::new((8 - la) as nat, |_i: int| ' ') + l1);
        assert(b == Seq::new(k as nat, |_i: int| ' ') + l2);
        assert(a.take(k) =~= Seq::new(k as nat, |_i: int| ' '));
        assert(b.take(k) =~= Seq::new(k as nat, |_i: int| ' '));
        assert(a[k] == ' ');
        assert(b[k] == l2[0]);
        k
    }
}

/// Identifiers sort by the time they were made: for times from 2000 up to
/// `id_horizon()` milliseconds later, one made earlier comes before one
/// made later as text, whatever the random draws, so identifiers made in
/// different milliseconds never collide.
pub proof fn lemma_ids_sort_by_time(id1: Seq<char>, t1: int, id2: Seq<char>, t2: int)
    requires
        is_id_for(id1, t1),
        is_id_for(id2, t2),
        TIME2000 <= t1 < t2 < TIME2000 + id_horizon(),
    ensures
        text_less(id1, id2),
        id1 != id2,
{
    let r1 = choose|r: int| 0 <= r < 1296 && id1 == #[trigger] id_text(t1 - TIME2000, r);
    let r2 = choose|r: int| 0 <= r < 1296 && id2 == #[trigger] id_text(t2 - TIME2000, r);
    let o1 = (t1 - TIME2000) as nat;
    let o2 = (t2 - TIME2000) as nat;
    assert(twos_complement(o1 as int) == o1);
    assert(twos_complement(o2 as int) == o2);
    assert(twos_complement(r1) == r1);
    assert(twos_complement(r2) == r2);
    let a1 = pad_left(radix36(o1), ' ', 8);
    let b1 = pad_left(radix36(r1 as nat), '0', 2);
    let a2 = pad_left(radix36(o2), ' ', 8);
    let b2 = pad_left(radix36(r2 as nat), '0', 2);
    assert(id1 == lower_ascii(a1 + b1));
    assert(id2 == lower_ascii(a2 + b2));
    assert(lower_ascii(a1 + b1) =~= lower_ascii(a1) + lower_ascii(b1));
    assert(lower_ascii(a2 + b2) =~= lower_ascii(a2) + lower_ascii(b2));
    let i = lemma_time_part_order(o1, o2);
    lemma_differs_extends(lower_ascii(a1), lower_ascii(a2), lower_ascii(b1), lower_ascii(b2), i);
    assert(differs_first_at(id1, id2, i));
    assert(id1[i] != id2[i]);
}

} // verus!
