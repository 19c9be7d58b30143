//! Fingerprints: SHA-256 digests rendered as lowercase hexadecimal.

use sha2::Digest;
use vstd::prelude::*;

verus! {

/// The SHA-256 digest of a byte sequence, as `sha2` computes it.
pub uninterp spec fn sha256_of(data: Seq<u8>) -> Seq<u8>;

/// One lowercase hexadecimal digit for a nibble.
pub open spec fn hex_digit(n: int) -> char {
    if n < 10 {
        (48 + n) as char
    } else {
        (87 + n) as char
    }
}

/// Lowercase hexadecimal rendering, two digits per byte, high nibble first.
pub open spec fn hex_lower(bytes: Seq<u8>) -> Seq<char> {
    Seq::new(
        2 * bytes.len(),
        |i: int|
            if i % 2 == 0 {
                hex_digit(bytes[i / 2] as int / 16)
            } else {
                hex_digit(bytes[i / 2] as int % 16)
            },
    )
}

/// A character in `[0-9a-f]`.
pub open spec fn is_lower_hex(c: char) -> bool {
    ('0' <= c && c <= '9') || ('a' <= c && c <= 'f')
}

/// Exactly 64 lowercase hexadecimal characters: the shape of a SHA-256 fingerprint.
pub open spec fn is_sha256_hex(s: Seq<char>) -> bool {
    s.len() == 64 && forall|i: int| 0 <= i < s.len() ==> is_lower_hex(#[trigger] s[i])
}

/// The fingerprint of a byte sequence.
pub open spec fn fingerprint_of(data: Seq<u8>) -> Seq<char> {
    hex_lower(sha256_of(data))
}

/// Calls `sha2::Sha256::digest`. The contract names the digest and states its
/// documented length of 32 bytes; nothing else about SHA-256 is claimed.
#[verifier::external_body]
fn sha256(data: &[u8]) -> (r: Vec<u8>)
    ensures
        r@ == sha256_of(data@),
        r@.len() == 32,
{
    sha2::Sha256::digest(data).to_vec()
}

/// Calls `hex::encode`, which the crate documents as encoding every byte as
/// two lowercase hexadecimal characters, high nibble first.
#[verifier::external_body]
fn hex_encode(data: &[u8]) -> (r: String)
    ensures
        r@ == hex_lower(data@),
{
    hex::encode(data)
}

/// Thirty-two bytes render as exactly 64 lowercase hexadecimal digits.
pub proof fn lemma_hex_of_digest_is_sha256_hex(bytes: Seq<u8>)
    requires
        bytes.len() == 32,
    ensures
        is_sha256_hex(hex_lower(bytes)),
{
    let h = hex_lower(bytes);
    assert forall|i: int| 0 <= i < h.len() implies is_lower_hex(#[trigger] h[i]) by {
        let b = bytes[i / 2] as int;
        let n = if i % 2 == 0 { b / 16 } else { b % 16 };
        assert(0 <= n < 16);
    }
}

/// The fingerprint of a canonical text, hashed as its UTF-8 bytes.
pub open spec fn text_fingerprint(text: Seq<char>) -> Seq<char> {
    fingerprint_of(vstd::utf8::encode_utf8(text))
}

/// Fingerprints a canonical JSON text: `hex(sha256(utf8(text)))`.
pub fn fingerprint_text(text: &str) -> (r: String)
    ensures
        r@ == text_fingerprint(text@),
        is_sha256_hex(r@),
{
    fingerprint(text.as_bytes())
}

/// Fingerprints a canonical byte encoding: `hex(sha256(data))`.
pub fn fingerprint(data: &[u8]) -> (r: String)
    ensures
        r@ == fingerprint_of(data@),
        is_sha256_hex(r@),
{
    let digest = sha256(data);
    proof {
        lemma_hex_of_digest_is_sha256_hex(digest@);
    }
    hex_encode(digest.as_slice())
}

/// How `serde_json` writes one character inside a string literal: a double
/// quote or a backslash behind a backslash; backspace, tab, line feed, form
/// feed and carriage return as a backslash and `b`, `t`, `n`, `f` or `r`;
/// every other character below U+0020 as a backslash, `u00` and two
/// lowercase hexadecimal digits; anything else as it is.
pub closed spec fn json_escaped_char(c: char) -> Seq<char> {
    if c == '"' {
        seq!['\\', '"']
    } else if c == '\\' {
        seq!['\\', '\\']
    } else if c == '\u{8}' {
        seq!['\\', 'b']
    } else if c == '\t' {
        seq!['\\', 't']
    } else if c == '\n' {
        seq!['\\', 'n']
    } else if c == '\u{c}' {
        seq!['\\', 'f']
    } else if c == '\r' {
        seq!['\\', 'r']
    } else if (c as u32) < 0x20 {
        seq!['\\', 'u', '0', '0', hex_digit((c as u32) as int / 16), hex_digit((c as u32) as int % 16)]
    } else {
        seq![c]
    }
}

/// The escaped characters of a text, in order.
pub closed spec fn json_escaped(s: Seq<char>) -> Seq<char>
    decreases s.len(),
{
    if s.len() == 0 {
        Seq::empty()
    } else {
        json_escaped(s.drop_last()) + json_escaped_char(s.last())
    }
}

proof fn lemma_escaped_char_nonempty(c: char)
    ensures
        json_escaped_char(c).len() >= 1,
{
}

proof fn lemma_json_escaped_len(s: Seq<char>)
    ensures
        json_escaped(s).len() >= s.len(),
    decreases s.len(),
{
    if s.len() > 0 {
        lemma_json_escaped_len(s.drop_last());
        lemma_escaped_char_nonempty(s.last());
    }
}

proof fn lemma_json_escaped_front(s: Seq<char>)
    requires
        s.len() > 0,
    ensures
        json_escaped(s) == json_escaped_char(s[0]) + json_escaped(s.drop_first()),
    decreases s.len(),
{
    if s.len() == 1 {
        assert(s.drop_last() =~= Seq::<char>::empty());
        assert(s.drop_first() =~= Seq::<char>::empty());
        assert(json_escaped(s) =~= json_escaped_char(s[0]) + json_escaped(s.drop_first()));
    } else {
        let d = s.drop_last();
        lemma_json_escaped_front(d);
        assert(d.drop_first() =~= s.drop_first().drop_last());
        assert(s.drop_first().last() == s.last());
        assert(json_escaped(s) =~= json_escaped_char(s[0]) + json_escaped(s.drop_first()));
    }
}

proof fn lemma_hex_digit_injective(m: int, n: int)
    requires
        0 <= m < 16,
        0 <= n < 16,
        hex_digit(m) == hex_digit(n),
    ensures
        m == n,
{
    assert(hex_digit(m) as int == if m < 10 { 48 + m } else { 87 + m });
    assert(hex_digit(n) as int == if n < 10 { 48 + n } else { 87 + n });
}

proof fn lemma_escaped_char_prefix_free(a: char, b: char, x: Seq<char>, y: Seq<char>)
    requires
        json_escaped_char(a) + x == json_escaped_char(b) + y,
    ensures
        a == b,
        x == y,
{
    let ea = json_escaped_char(a);
    let eb = json_escaped_char(b);
    let t = ea + x;
    assert(t[0] == ea[0]);
    assert(t[0] == eb[0]);
    if ea.len() >= 2 && eb.len() >= 2 {
        assert(t[1] == ea[1]);
        assert(t[1] == eb[1]);
        if ea[1] == 'u' {
            assert(ea.len() == 6 && eb.len() == 6);
            assert(t[4] == ea[4] && t[4] == eb[4]);
            assert(t[5] == ea[5] && t[5] == eb[5]);
            lemma_hex_digit_injective((a as u32) as int / 16, (b as u32) as int / 16);
            lemma_hex_digit_injective((a as u32) as int % 16, (b as u32) as int % 16);
            assert((a as u32) == (b as u32));
        }
    }
    assert(a == b);
    assert(x =~= t.subrange(ea.len() as int, t.len() as int));
    assert(y =~= t.subrange(eb.len() as int, t.len() as int));
}

proof fn lemma_json_escaped_injective(a: Seq<char>, b: Seq<char>)
    requires
        json_escaped(a) == json_escaped(b),
    ensures
        a == b,
    decreases a.len(),
{
    lemma_json_escaped_len(a);
    lemma_json_escaped_len(b);
    if a.len() == 0 {
        assert(json_escaped(a).len() == 0);
        assert(b.len() == 0);
        assert(a =~= b);
    } else if b.len() == 0 {
        assert(json_escaped(b).len() == 0);
    } else {
        lemma_json_escaped_front(a);
        lemma_json_escaped_front(b);
        lemma_escaped_char_prefix_free(a[0], b[0], json_escaped(a.drop_first()), json_escaped(b.drop_first()));
        lemma_json_escaped_injective(a.drop_first(), b.drop_first());
        assert(a =~= seq![a[0]] + a.drop_first());
        assert(b =~= seq![b[0]] + b.drop_first());
    }
}

/// Two distinct texts are written as distinct JSON string literals.
pub proof fn lemma_json_quoted_injective(a: Seq<char>, b: Seq<char>)
    ensures
        json_quoted(a) == json_quoted(b) ==> a == b,
{
    if json_quoted(a) == json_quoted(b) {
        let qa = json_quoted(a);
        assert(json_escaped(a) =~= qa.subrange(1, qa.len() - 1));
        assert(json_escaped(b) =~= qa.subrange(1, qa.len() - 1));
        lemma_json_escaped_injective(a, b);
    }
}

/// The JSON string literal that `serde_json` writes for a text value: the
/// escaped text between double quotes.
pub closed spec fn json_quoted(s: Seq<char>) -> Seq<char> {
    seq!['"'] + json_escaped(s) + seq!['"']
}

/// Calls `serde_json::to_string` on a string slice: the quoted text with
/// `serde_json`'s escapes. Serializing a `str` has no failure path in
/// `serde_json` (errors come only from map keys or from a `Serialize` impl
/// that fails), so the empty fallback is never taken.
#[verifier::external_body]
pub(crate) fn json_string(s: &str) -> (r: String)
    ensures
        r@ == json_quoted(s@),
{
    match serde_json::to_string(s) {
        Ok(text) => text,
        Err(_) => String::new(),
    }
}

/// The JSON string literal `serde_json` writes for the UUID with this
/// 128-bit value: its hyphenated lowercase form, quoted.
pub closed spec fn uuid_json_text(value: u128) -> Seq<char> {
    seq!['"'] + uuid_text(value) + seq!['"']
}

/// Calls `serde_json::to_string` on `uuid::Uuid::from_u128(value)`, which
/// `uuid` serializes to a human-readable format as its hyphenated lowercase
/// string. A UUID always serializes; the empty fallback is never taken.
#[verifier::external_body]
pub(crate) fn uuid_json(value: u128) -> (r: String)
    ensures
        r@ == uuid_json_text(value),
{
    match serde_json::to_string(&uuid::Uuid::from_u128(value)) {
        Ok(text) => text,
        Err(_) => String::new(),
    }
}

/// The sixteen bytes of a 128-bit value, most significant first: the bytes
/// of `uuid::Uuid::from_u128`.
pub closed spec fn u128_be_bytes(value: u128) -> Seq<u8> {
    Seq::new(16, |i: int| (value >> ((120 - 8 * i) as u128)) as u8)
}

/// The hyphenated lowercase text of the UUID with this 128-bit value: the
/// 32 hexadecimal digits of its bytes in groups of 8, 4, 4, 4 and 12,
/// separated by `-`.
pub closed spec fn uuid_text(value: u128) -> Seq<char> {
    let h = hex_lower(u128_be_bytes(value));
    h.subrange(0, 8) + seq!['-'] + h.subrange(8, 12) + seq!['-'] + h.subrange(12, 16) + seq!['-']
        + h.subrange(16, 20) + seq!['-'] + h.subrange(20, 32)
}

/// A JSON string literal starts with a double quote and holds at least the
/// two quotes.
pub proof fn lemma_json_quoted_shape(t: Seq<char>)
    ensures
        json_quoted(t).len() >= 2,
        json_quoted(t)[0] == '"',
{
}

proof fn lemma_hex_lower_injective(x: Seq<u8>, y: Seq<u8>)
    requires
        x.len() == y.len(),
        hex_lower(x) == hex_lower(y),
    ensures
        x == y,
{
    assert forall|i: int| 0 <= i < x.len() implies x[i] == y[i] by {
        let hx = hex_lower(x);
        let hy = hex_lower(y);
        assert(hx[2 * i] == hy[2 * i]);
        assert(hx[2 * i + 1] == hy[2 * i + 1]);
        assert((2 * i) / 2 == i && (2 * i) % 2 == 0);
        assert((2 * i + 1) / 2 == i && (2 * i + 1) % 2 == 1);
        lemma_hex_digit_injective(x[i] as int / 16, y[i] as int / 16);
        lemma_hex_digit_injective(x[i] as int % 16, y[i] as int % 16);
    }
    assert(x =~= y);
}

proof fn lemma_u128_be_bytes_injective(a: u128, b: u128)
    requires
        u128_be_bytes(a) == u128_be_bytes(b),
    ensures
        a == b,
{
    let x = u128_be_bytes(a);
    let y = u128_be_bytes(b);
    assert(x[0] == (a >> 120u128) as u8 && y[0] == (b >> 120u128) as u8 && x[0] == y[0]);
    assert(x[1] == (a >> 112u128) as u8 && y[1] == (b >> 112u128) as u8 && x[1] == y[1]);
    assert(x[2] == (a >> 104u128) as u8 && y[2] == (b >> 104u128) as u8 && x[2] == y[2]);
    assert(x[3] == (a >> 96u128) as u8 && y[3] == (b >> 96u128) as u8 && x[3] == y[3]);
    assert(x[4] == (a >> 88u128) as u8 && y[4] == (b >> 88u128) as u8 && x[4] == y[4]);
    assert(x[5] == (a >> 80u128) as u8 && y[5] == (b >> 80u128) as u8 && x[5] == y[5]);
    assert(x[6] == (a >> 72u128) as u8 && y[6] == (b >> 72u128) as u8 && x[6] == y[6]);
    assert(x[7] == (a >> 64u128) as u8 && y[7] == (b >> 64u128) as u8 && x[7] == y[7]);
    assert(x[8] == (a >> 56u128) as u8 && y[8] == (b >> 56u128) as u8 && x[8] == y[8]);
    assert(x[9] == (a >> 48u128) as u8 && y[9] == (b >> 48u128) as u8 && x[9] == y[9]);
    assert(x[10] == (a >> 40u128) as u8 && y[10] == (b >> 40u128) as u8 && x[10] == y[10]);
    assert(x[11] == (a >> 32u128) as u8 && y[11] == (b >> 32u128) as u8 && x[11] == y[11]);
    assert(x[12] == (a >> 24u128) as u8 && y[12] == (b >> 24u128) as u8 && x[12] == y[12]);
    assert(x[13] == (a >> 16u128) as u8 && y[13] == (b >> 16u128) as u8 && x[13] == y[13]);
    assert(x[14] == (a >> 8u128) as u8 && y[14] == (b >> 8u128) as u8 && x[14] == y[14]);
    assert(x[15] == (a >> 0u128) as u8 && y[15] == (b >> 0u128) as u8 && x[15] == y[15]);
    assert(a == b) by (bit_vector)
        requires
            (a >> 120u128) as u8 == (b >> 120u128) as u8,
            (a >> 112u128) as u8 == (b >> 112u128) as u8,
            (a >> 104u128) as u8 == (b >> 104u128) as u8,
            (a >> 96u128) as u8 == (b >> 96u128) as u8,
            (a >> 88u128) as u8 == (b >> 88u128) as u8,
            (a >> 80u128) as u8 == (b >> 80u128) as u8,
            (a >> 72u128) as u8 == (b >> 72u128) as u8,
            (a >> 64u128) as u8 == (b >> 64u128) as u8,
            (a >> 56u128) as u8 == (b >> 56u128) as u8,
            (a >> 48u128) as u8 == (b >> 48u128) as u8,
            (a >> 40u128) as u8 == (b >> 40u128) as u8,
            (a >> 32u128) as u8 == (b >> 32u128) as u8,
            (a >> 24u128) as u8 == (b >> 24u128) as u8,
            (a >> 16u128) as u8 == (b >> 16u128) as u8,
            (a >> 8u128) as u8 == (b >> 8u128) as u8,
            (a >> 0u128) as u8 == (b >> 0u128) as u8,
    ;
}

/// Distinct 128-bit values have distinct UUID texts and distinct JSON
/// literals.
pub proof fn lemma_uuid_json_text_injective(a: u128, b: u128)
    ensures
        uuid_json_text(a) == uuid_json_text(b) ==> a == b,
        uuid_text(a) == uuid_text(b) ==> a == b,
{
    let ha = hex_lower(u128_be_bytes(a));
    let hb = hex_lower(u128_be_bytes(b));
    let ta = uuid_text(a);
    let tb = uuid_text(b);
    assert(ta.len() == 36 && tb.len() == 36);
    assert(ha =~= ta.subrange(0, 8) + ta.subrange(9, 13) + ta.subrange(14, 18) + ta.subrange(19, 23)
        + ta.subrange(24, 36));
    assert(hb =~= tb.subrange(0, 8) + tb.subrange(9, 13) + tb.subrange(14, 18) + tb.subrange(19, 23)
        + tb.subrange(24, 36));
    if uuid_json_text(a) == uuid_json_text(b) {
        assert(ta =~= uuid_json_text(a).subrange(1, 37));
        assert(tb =~= uuid_json_text(b).subrange(1, 37));
    }
    if ta == tb {
        lemma_hex_lower_injective(u128_be_bytes(a), u128_be_bytes(b));
        lemma_u128_be_bytes_injective(a, b);
    }
}

/// Calls `to_string` on `uuid::Uuid::from_u128(value)`: its hyphenated
/// lowercase text.
#[verifier::external_body]
pub(crate) fn uuid_string(value: u128) -> (r: String)
    ensures
        r@ == uuid_text(value),
{
    uuid::Uuid::from_u128(value).to_string()
}

/// Whether a value is a lowercase SHA-256 hexadecimal fingerprint.
pub fn valid_sha256(value: &str) -> (r: bool)
    ensures
        r == is_sha256_hex(value@),
{
    let n = value.unicode_len();
    if n != 64 {
        return false;
    }
    let mut i: usize = 0;
    while i < n
        invariant
            n == value@.len(),
            i <= n,
            forall|j: int| 0 <= j < i ==> is_lower_hex(#[trigger] value@[j]),
        decreases n - i,
    {
        let c = value.get_char(i);
        if !(('0' <= c && c <= '9') || ('a' <= c && c <= 'f')) {
            return false;
        }
        i = i + 1;
    }
    true
}

} // verus!
