//! Password digests: SHA-256 of the password, written in URL-safe base64
//! without padding.
use vstd::prelude::*;
use base64::Engine;
use sha2::Digest;

verus! {

/// The SHA-256 digest of the UTF-8 encoding of `text`.
pub uninterp spec fn sha256_text(text: Seq<char>) -> Seq<u8>;

/// `sha2::Sha256::digest` of the UTF-8 bytes of `text`: the digest is the
/// one named `sha256_text` and, as for every SHA-256 output, 32 bytes long.
#[verifier::external_body]
fn sha256_digest(text: &str) -> (res: Vec<u8>)
    ensures
        res@ == sha256_text(text@),
        res@.len() == 32,
{
    sha2::Sha256::digest(text).to_vec()
}

/// The character of value `v` (`0 <= v < 64`) in the URL-safe base64
/// alphabet `A-Z a-z 0-9 - _`.
pub open spec fn b64_char(v: int) -> char {
    if v < 26 {
        (65 + v) as char
    } else if v < 52 {
        (97 + v - 26) as char
    } else if v < 62 {
        (48 + v - 52) as char
    } else if v == 62 {
        '-'
    } else {
        '_'
    }
}

/// URL-safe base64 without padding: each group of three bytes becomes four
/// characters of six bits each; a final group of one byte becomes two
/// characters and one of two bytes three, the missing low bits being zero.
pub open spec fn b64_url_nopad(b: Seq<u8>) -> Seq<char>
    decreases b.len(),
{
    if b.len() == 0 {
        Seq::empty()
    } else {
        let b0 = b[0] as int;
        let b1 = if b.len() > 1 { b[1] as int } else { 0 };
        let b2 = if b.len() > 2 { b[2] as int } else { 0 };
        if b.len() == 1 {
            seq![b64_char(b0 / 4), b64_char((b0 % 4) * 16)]
        } else if b.len() == 2 {
            seq![b64_char(b0 / 4), b64_char((b0 % 4) * 16 + b1 / 16), b64_char((b1 % 16) * 4)]
        } else {
            seq![
                b64_char(b0 / 4),
                b64_char((b0 % 4) * 16 + b1 / 16),
                b64_char((b1 % 16) * 4 + b2 / 64),
                b64_char(b2 % 64),
            ] + b64_url_nopad(b.skip(3))
        }
    }
}

/// `base64::engine::general_purpose::URL_SAFE_NO_PAD.encode`, the engine
/// built from the URL-safe alphabet and the no-padding configuration: the
/// encoding `b64_url_nopad` of `bytes`. The crate panics when the output
/// length overflows `usize`, which the bound on the input rules out.
#[verifier::external_body]
fn base64_url_nopad(bytes: &[u8]) -> (res: String)
    requires
        bytes@.len() * 4 <= usize::MAX,
    ensures
        res@ == b64_url_nopad(bytes@),
{
    base64::engine::general_purpose::URL_SAFE_NO_PAD.encode(bytes)
}

/// What is stored for the password `password`.
pub open spec fn password_hash(password: Seq<char>) -> Seq<char> {
    b64_url_nopad(sha256_text(password))
}

/// The stored form of `password`.
pub fn hash_password(password: &str) -> (res: String)
    ensures
        res@ == password_hash(password@),
{
    let digest = sha256_digest(password);
    base64_url_nopad(digest.as_slice())
}

/// Whether the stored password `stored` is that of `password`.
pub open spec fn password_matches_spec(stored: Option<Seq<char>>, password: Seq<char>) -> bool {
    stored == Some(password_hash(password))
}

/// Whether `stored`, a user's stored password, is the stored form of
/// `password`.
pub fn password_matches(stored: &Option<String>, password: &str) -> (res: bool)
    ensures
        res == password_matches_spec(stored.deep_view(), password@),
{
    let hashed = hash_password(password);
    match stored {
        Some(s) => *s == hashed,
        None => false,
    }
}

proof fn lemma_b64_char_value(v: int)
    requires
        0 <= v < 64,
    ensures
        b64_char(v) as int == if v < 26 {
            65 + v
        } else if v < 52 {
            71 + v
        } else if v < 62 {
            v - 4
        } else if v == 62 {
            45
        } else {
            95
        },
{
}

proof fn lemma_b64_char_injective(v: int, w: int)
    requires
        0 <= v < 64,
        0 <= w < 64,
        b64_char(v) == b64_char(w),
    ensures
        v == w,
{
    lemma_b64_char_value(v);
    lemma_b64_char_value(w);
}

proof fn lemma_b64_len(b: Seq<u8>)
    ensures
        b64_url_nopad(b).len() == 4 * (b.len() / 3) + if b.len() % 3 == 0 { 0 } else { b.len() % 3 + 1 },
    decreases b.len(),
{
    if b.len() >= 3 {
        lemma_b64_len(b.skip(3));
    }
}

proof fn lemma_split16(x: int, y: int, u: int, v: int)
    by (nonlinear_arith)
    requires
        0 <= y < 16,
        0 <= v < 16,
        x * 16 + y == u * 16 + v,
    ensures
        x == u,
        y == v,
{
}

proof fn lemma_split4(x: int, y: int, u: int, v: int)
    by (nonlinear_arith)
    requires
        0 <= y < 4,
        0 <= v < 4,
        x * 4 + y == u * 4 + v,
    ensures
        x == u,
        y == v,
{
}

/// Two bytes whose six high bits and two low bits agree are equal.
proof fn lemma_byte_parts(a: int, c: int)
    requires
        0 <= a < 256,
        0 <= c < 256,
        a / 4 == c / 4,
        a % 4 == c % 4,
    ensures
        a == c,
{
}

/// Byte strings of the same length with the same base64 text agree on
/// their first group of (up to) three bytes.
proof fn lemma_b64_group(x: Seq<u8>, y: Seq<u8>)
    requires
        1 <= x.len(),
        x.len() == y.len(),
        b64_url_nopad(x) == b64_url_nopad(y),
    ensures
        x.take(if x.len() >= 3 { 3 } else { x.len() as int }) =~= y.take(
            if y.len() >= 3 { 3 } else { y.len() as int },
        ),
{
    let ox = b64_url_nopad(x);
    let oy = b64_url_nopad(y);
    let x0 = x[0] as int;
    let y0 = y[0] as int;
    let x1 = if x.len() > 1 { x[1] as int } else { 0 };
    let y1 = if y.len() > 1 { y[1] as int } else { 0 };
    let x2 = if x.len() > 2 { x[2] as int } else { 0 };
    let y2 = if y.len() > 2 { y[2] as int } else { 0 };
    if x.len() == 1 {
        assert(ox == seq![b64_char(x0 / 4), b64_char((x0 % 4) * 16)]);
        assert(oy == seq![b64_char(y0 / 4), b64_char((y0 % 4) * 16)]);
        lemma_b64_char_injective(x0 / 4, y0 / 4);
        lemma_b64_char_injective((x0 % 4) * 16, (y0 % 4) * 16);
        lemma_byte_parts(x0, y0);
    } else if x.len() == 2 {
        assert(ox == seq![b64_char(x0 / 4), b64_char((x0 % 4) * 16 + x1 / 16), b64_char((x1 % 16) * 4)]);
        assert(oy == seq![b64_char(y0 / 4), b64_char((y0 % 4) * 16 + y1 / 16), b64_char((y1 % 16) * 4)]);
        lemma_b64_char_injective(x0 / 4, y0 / 4);
        lemma_b64_char_injective((x0 % 4) * 16 + x1 / 16, (y0 % 4) * 16 + y1 / 16);
        lemma_split16(x0 % 4, x1 / 16, y0 % 4, y1 / 16);
        lemma_byte_parts(x0, y0);
        lemma_b64_char_injective((x1 % 16) * 4, (y1 % 16) * 4);
        assert(x1 == (x1 / 16) * 16 + x1 % 16);
        assert(y1 == (y1 / 16) * 16 + y1 % 16);
    } else {
        let gx = seq![
            b64_char(x0 / 4),
            b64_char((x0 % 4) * 16 + x1 / 16),
            b64_char((x1 % 16) * 4 + x2 / 64),
            b64_char(x2 % 64),
        ];
        let gy = seq![
            b64_char(y0 / 4),
            b64_char((y0 % 4) * 16 + y1 / 16),
            b64_char((y1 % 16) * 4 + y2 / 64),
            b64_char(y2 % 64),
        ];
        assert(ox == gx + b64_url_nopad(x.skip(3)));
        assert(oy == gy + b64_url_nopad(y.skip(3)));
        assert(ox[0] == gx[0] && ox[1] == gx[1] && ox[2] == gx[2] && ox[3] == gx[3]);
        assert(oy[0] == gy[0] && oy[1] == gy[1] && oy[2] == gy[2] && oy[3] == gy[3]);
        lemma_b64_char_injective(x0 / 4, y0 / 4);
        lemma_b64_char_injective((x0 % 4) * 16 + x1 / 16, (y0 % 4) * 16 + y1 / 16);
        lemma_split16(x0 % 4, x1 / 16, y0 % 4, y1 / 16);
        lemma_byte_parts(x0, y0);
        lemma_b64_char_injective((x1 % 16) * 4 + x2 / 64, (y1 % 16) * 4 + y2 / 64);
        lemma_split4(x1 % 16, x2 / 64, y1 % 16, y2 / 64);
        lemma_b64_char_injective(x2 % 64, y2 % 64);
        assert(x1 == (x1 / 16) * 16 + x1 % 16);
        assert(y1 == (y1 / 16) * 16 + y1 % 16);
        assert(x2 == (x2 / 64) * 64 + x2 % 64);
        assert(y2 == (y2 / 64) * 64 + y2 % 64);
    }
}

/// The base64 text determines the bytes: different byte strings never
/// encode to the same text.
pub proof fn lemma_b64_injective(x: Seq<u8>, y: Seq<u8>)
    requires
        b64_url_nopad(x) == b64_url_nopad(y),
    ensures
        x == y,
    decreases x.len(),
{
    lemma_b64_len(x);
    lemma_b64_len(y);
    let ox = b64_url_nopad(x);
    if x.len() == 0 || y.len() == 0 {
        assert(x =~= y);
    } else if x.len() >= 3 && y.len() >= 3 {
        lemma_b64_group(x, y);
        lemma_b64_len(x.skip(3));
        lemma_b64_len(y.skip(3));
        assert(b64_url_nopad(x.skip(3)) =~= ox.skip(4));
        assert(b64_url_nopad(y.skip(3)) =~= ox.skip(4));
        lemma_b64_injective(x.skip(3), y.skip(3));
        assert(x =~= x.take(3) + x.skip(3));
        assert(y =~= y.take(3) + y.skip(3));
    } else {
        assert(x.len() == y.len());
        lemma_b64_group(x, y);
        assert(x =~= x.take(x.len() as int));
        assert(y =~= y.take(y.len() as int));
    }
}

/// A password's stored form is the base64 text of the SHA-256 digest of
/// the whole password: an attempt whose digest differs from the stored
/// password's never matches it, however much of the text the two share.
pub proof fn lemma_different_digests_never_match(password: Seq<char>, attempt: Seq<char>)
    requires
        sha256_text(attempt) != sha256_text(password),
    ensures
        !password_matches_spec(Some(password_hash(password)), attempt),
        password_hash(attempt) != password_hash(password),
{
    if password_hash(attempt) == password_hash(password) {
        lemma_b64_injective(sha256_text(attempt), sha256_text(password));
    }
}

} // verus!
