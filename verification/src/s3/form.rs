//! Pairs in the `application/x-www-form-urlencoded` format.

use url::form_urlencoded::Serializer;
use vstd::prelude::*;
use vstd::utf8::encode_utf8;

verus! {

/// Names and values.
pub type Pairs = Seq<(Seq<char>, Seq<char>)>;

/// Whether a byte stands for itself in the text of a form.
pub open spec fn form_unchanged(byte: u8) -> bool {
    ||| byte == 0x2a  // *
    ||| byte == 0x2d  // -
    ||| byte == 0x2e  // .
    ||| 0x30 <= byte <= 0x39  // 0 to 9
    ||| 0x41 <= byte <= 0x5a  // A to Z
    ||| byte == 0x5f  // _
    ||| 0x61 <= byte <= 0x7a  // a to z
}

/// The hexadecimal digit of a value, in upper case.
pub open spec fn hex_digit(value: int) -> char {
    if value < 10 {
        ('0' as int + value) as char
    } else {
        ('A' as int + value - 10) as char
    }
}

/// A byte in the text of a form.
pub open spec fn form_byte(byte: u8) -> Seq<char> {
    if form_unchanged(byte) {
        seq![byte as char]
    } else if byte == 0x20 {
        seq!['+']
    } else {
        seq!['%', hex_digit(byte as int / 16), hex_digit(byte as int % 16)]
    }
}

/// Bytes in the text of a form.
pub open spec fn form_bytes(bytes: Seq<u8>) -> Seq<char>
    decreases bytes.len(),
{
    if bytes.len() == 0 {
        Seq::empty()
    } else {
        form_bytes(bytes.drop_last()) + form_byte(bytes.last())
    }
}

/// The text of a form with one more pair.
pub open spec fn with_pair(text: Seq<char>, name: Seq<char>, value: Seq<char>) -> Seq<char> {
    let separator = if text.len() == 0 {
        Seq::empty()
    } else {
        seq!['&']
    };
    text + separator + form_bytes(encode_utf8(name)) + seq!['='] + form_bytes(encode_utf8(value))
}

/// Pairs in the `application/x-www-form-urlencoded` format.
pub open spec fn form_text(pairs: Pairs) -> Seq<char>
    decreases pairs.len(),
{
    if pairs.len() == 0 {
        Seq::empty()
    } else {
        with_pair(form_text(pairs.drop_last()), pairs.last().0, pairs.last().1)
    }
}

/// Calls `append_pair` of a `url::form_urlencoded::Serializer` that starts from `text`, and
/// `finish`.
///
/// Trusted: the pair is appended in the format of a form, behind a separator where there is text
/// already.
#[verifier::external_body]
pub(crate) fn append_pair(text: String, name: &str, value: &str) -> (extended: String)
    ensures
        extended@ == with_pair(text@, name@, value@),
{
    Serializer::new(text).append_pair(name, value).finish()
}

/// The text of a form grows pair by pair, in the order of the pairs: each pair is a name, an equals
/// sign and a value, behind an ampersand where another pair precedes it.
pub proof fn law_form_grows_by_pairs(pairs: Pairs, name: Seq<char>, value: Seq<char>)
    ensures
        form_text(Seq::empty()) == Seq::<char>::empty(),
        ({
            let pair = form_bytes(encode_utf8(name)) + seq!['='] + form_bytes(encode_utf8(value));
            form_text(pairs.push((name, value))) == (if pairs.len() == 0 {
                pair
            } else {
                form_text(pairs) + seq!['&'] + pair
            })
        }),
{
    assert(pairs.push((name, value)).drop_last() =~= pairs);
    assert(form_text(pairs.push((name, value))) == with_pair(form_text(pairs), name, value));
    assert(form_text(pairs).len() == 0 <==> pairs.len() == 0);
    let pair = form_bytes(encode_utf8(name)) + seq!['='] + form_bytes(encode_utf8(value));
    if pairs.len() == 0 {
        assert(form_text(pairs.push((name, value))) =~= pair);
    } else {
        assert(form_text(pairs.push((name, value))) =~= form_text(pairs) + seq!['&'] + pair);
    }
}

} // verus!
