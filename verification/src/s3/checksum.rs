//! The checksum that is sent with an object.

use base64::prelude::{Engine, BASE64_STANDARD};
use bytes::Bytes;
use md5::{Digest, Md5};
use vstd::prelude::*;

verus! {

#[verifier::external_type_specification]
#[verifier::external_body]
pub struct ExBytes(bytes::Bytes);

/// The bytes that a buffer holds.
pub uninterp spec fn buffer_contents(buffer: bytes::Bytes) -> Seq<u8>;

/// The MD5 digest of data, as `md5::Md5::digest` computes it.
pub uninterp spec fn md5_digest(data: Seq<u8>) -> Seq<u8>;

/// The character that stands for six bits in the standard base64 alphabet.
pub open spec fn base64_char(bits: int) -> char {
    if bits < 26 {
        ('A' as int + bits) as char
    } else if bits < 52 {
        ('a' as int + bits - 26) as char
    } else if bits < 62 {
        ('0' as int + bits - 52) as char
    } else if bits == 62 {
        '+'
    } else {
        '/'
    }
}

/// The byte at a position, and zero beyond the end.
pub open spec fn byte_at(data: Seq<u8>, i: int) -> int {
    if i < data.len() {
        data[i] as int
    } else {
        0
    }
}

/// Character `i` of the padded base64 text of `data`.
///
/// Four characters stand for three bytes, six bits each from the highest down. Characters that
/// stand for no bit of the data are `=`.
pub open spec fn base64_char_at(data: Seq<u8>, i: int) -> char {
    let start = i / 4 * 3;
    let group = byte_at(data, start) * 0x10000 + byte_at(data, start + 1) * 0x100 + byte_at(
        data,
        start + 2,
    );
    if i % 4 == 0 {
        base64_char(group / 0x40000)
    } else if i % 4 == 1 {
        base64_char(group / 0x1000 % 0x40)
    } else if i % 4 == 2 {
        if start + 1 < data.len() {
            base64_char(group / 0x40 % 0x40)
        } else {
            '='
        }
    } else {
        if start + 2 < data.len() {
            base64_char(group % 0x40)
        } else {
            '='
        }
    }
}

/// The length of the padded base64 text of `len` bytes.
pub open spec fn base64_len(len: nat) -> nat {
    ((len + 2) / 3 * 4) as nat
}

/// The padded base64 text of `data`, in the standard alphabet.
pub open spec fn base64_text(data: Seq<u8>) -> Seq<char> {
    Seq::new(base64_len(data.len()), |i: int| base64_char_at(data, i))
}

/// The `Clone` impl of `bytes::Bytes`.
///
/// Trusted: a clone holds the same bytes.
pub assume_specification[ <bytes::Bytes as Clone>::clone ](buffer: &bytes::Bytes) -> (copy:
    bytes::Bytes)
    ensures
        buffer_contents(copy) == buffer_contents(*buffer),
;

/// Reads a `bytes::Bytes` through its `Deref` impl.
///
/// Trusted: the slice is what the buffer holds.
#[verifier::external_body]
fn buffer_slice(buffer: &Bytes) -> (slice: &[u8])
    ensures
        slice@ == buffer_contents(*buffer),
{
    &**buffer
}

/// Calls `md5::Md5::digest`.
///
/// Trusted: the digest depends on the data alone. That it is the digest of RFC 1321 is not
/// stated.
#[verifier::external_body]
fn digest(data: &[u8]) -> (digest: [u8; 16])
    ensures
        digest@ == md5_digest(data@),
{
    Md5::digest(data).into()
}

/// Calls `encode` of the `BASE64_STANDARD` engine of `base64`.
///
/// Trusted: the text is the padded base64 text of the data. The call panics where the length of
/// the text exceeds `usize`.
#[verifier::external_body]
fn encode(data: &[u8]) -> (text: String)
    requires
        base64_len(data@.len()) <= usize::MAX,
    ensures
        text@ == base64_text(data@),
{
    BASE64_STANDARD.encode(data)
}

/// The text in which a digest is sent.
pub fn digest_text(digest: &[u8; 16]) -> (text: String)
    ensures
        text@ == base64_text(digest@),
        text@.len() == 24,
{
    encode(digest.as_slice())
}

/// The digest of a body.
pub fn md5_of(body: &Bytes) -> (digest: [u8; 16])
    ensures
        digest@ == md5_digest(buffer_contents(*body)),
{
    digest(buffer_slice(body))
}

proof fn lemma_base64_char_tells_bits(a: int, b: int)
    requires
        0 <= a < 64,
        0 <= b < 64,
        base64_char(a) == base64_char(b),
    ensures
        a == b,
{
    assert(base64_char(a) as int == base64_char(b) as int);
}

/// The four times six bits of three bytes.
proof fn lemma_bits_of_group(p: int, q: int, r: int)
    requires
        0 <= p < 256,
        0 <= q < 256,
        0 <= r < 256,
    ensures
        ({
            let x = p * 0x10000 + q * 0x100 + r;
            &&& x / 0x40000 == p / 4
            &&& x / 0x1000 % 0x40 == p % 4 * 16 + q / 16
            &&& x / 0x40 % 0x40 == q % 16 * 4 + r / 64
            &&& x % 0x40 == r % 64
        }),
{
    let x = p * 0x10000 + q * 0x100 + r;
    assert(x / 0x40000 == p / 4);
    assert(x / 0x1000 == p * 16 + q / 16);
    assert((p * 16 + q / 16) % 0x40 == p % 4 * 16 + q / 16);
    assert(x / 0x40 == p * 0x400 + q * 4 + r / 64);
    assert((p * 0x400 + q * 4 + r / 64) % 0x40 == q % 16 * 4 + r / 64);
    assert(x % 0x40 == r % 64);
}

proof fn lemma_base64_tells_group(a: Seq<u8>, b: Seq<u8>, g: int)
    requires
        0 <= g,
        3 * g < a.len(),
        a.len() == b.len(),
        base64_char_at(a, 4 * g) == base64_char_at(b, 4 * g),
        base64_char_at(a, 4 * g + 1) == base64_char_at(b, 4 * g + 1),
        base64_char_at(a, 4 * g + 2) == base64_char_at(b, 4 * g + 2),
        base64_char_at(a, 4 * g + 3) == base64_char_at(b, 4 * g + 3),
    ensures
        a[3 * g] == b[3 * g],
        3 * g + 1 < a.len() ==> a[3 * g + 1] == b[3 * g + 1],
        3 * g + 2 < a.len() ==> a[3 * g + 2] == b[3 * g + 2],
{
    let start = 3 * g;
    let (p, q, r) = (byte_at(a, start), byte_at(a, start + 1), byte_at(a, start + 2));
    let (u, v, w) = (byte_at(b, start), byte_at(b, start + 1), byte_at(b, start + 2));
    let x = p * 0x10000 + q * 0x100 + r;
    let y = u * 0x10000 + v * 0x100 + w;
    lemma_bits_of_group(p, q, r);
    lemma_bits_of_group(u, v, w);
    assert((4 * g) / 4 * 3 == start && (4 * g + 1) / 4 * 3 == start);
    assert(base64_char_at(a, 4 * g) == base64_char(x / 0x40000));
    assert(base64_char_at(b, 4 * g) == base64_char(y / 0x40000));
    lemma_base64_char_tells_bits(x / 0x40000, y / 0x40000);
    assert(base64_char_at(a, 4 * g + 1) == base64_char(x / 0x1000 % 0x40));
    assert(base64_char_at(b, 4 * g + 1) == base64_char(y / 0x1000 % 0x40));
    lemma_base64_char_tells_bits(x / 0x1000 % 0x40, y / 0x1000 % 0x40);
    if start + 1 < a.len() {
        assert((4 * g + 2) / 4 * 3 == start);
        assert(base64_char_at(a, 4 * g + 2) == base64_char(x / 0x40 % 0x40));
        assert(base64_char_at(b, 4 * g + 2) == base64_char(y / 0x40 % 0x40));
        lemma_base64_char_tells_bits(x / 0x40 % 0x40, y / 0x40 % 0x40);
    }
    if start + 2 < a.len() {
        assert((4 * g + 3) / 4 * 3 == start);
        assert(base64_char_at(a, 4 * g + 3) == base64_char(x % 0x40));
        assert(base64_char_at(b, 4 * g + 3) == base64_char(y % 0x40));
        lemma_base64_char_tells_bits(x % 0x40, y % 0x40);
    }
}

proof fn lemma_base64_chars_agree(a: Seq<u8>, b: Seq<u8>, i: int)
    requires
        base64_text(a) == base64_text(b),
        0 <= i < base64_len(a.len()),
        a.len() == b.len(),
    ensures
        base64_char_at(a, i) == base64_char_at(b, i),
{
    assert(base64_text(a)[i] == base64_char_at(a, i));
    assert(base64_text(b)[i] == base64_char_at(b, i));
}

/// Data of the same length with the same base64 text is the same data.
pub proof fn law_base64_tells_data_apart(a: Seq<u8>, b: Seq<u8>)
    requires
        a.len() == b.len(),
        base64_text(a) == base64_text(b),
    ensures
        a == b,
{
    assert forall|j: int| 0 <= j < a.len() implies a[j] == b[j] by {
        let g = j / 3;
        assert(4 * g + 3 < base64_len(a.len()));
        lemma_base64_chars_agree(a, b, 4 * g);
        lemma_base64_chars_agree(a, b, 4 * g + 1);
        lemma_base64_chars_agree(a, b, 4 * g + 2);
        lemma_base64_chars_agree(a, b, 4 * g + 3);
        lemma_base64_tells_group(a, b, g);
        assert(j == 3 * g || j == 3 * g + 1 || j == 3 * g + 2);
    }
    assert(a =~= b);
}

} // verus!
