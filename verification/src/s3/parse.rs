//! Reading pairs back from the `application/x-www-form-urlencoded` format.

use crate::s3::form::{form_byte, form_bytes, form_text, form_unchanged, hex_digit, Pairs};
use crate::s3::request::{PutObject, S3Request};
use crate::s3::tags::S3Tags;
use vstd::prelude::*;
use vstd::utf8::{
    decode_utf8, encode_utf8, encode_utf8_decode_utf8, is_ascii_chars, is_ascii_chars_encode_utf8,
};

verus! {

/// The value of a hexadecimal digit.
pub open spec fn hex_value(digit: char) -> Option<int> {
    let code = digit as int;
    if 0x30 <= code <= 0x39 {
        Some(code - 0x30)
    } else if 0x41 <= code <= 0x46 {
        Some(code - 0x41 + 10)
    } else if 0x61 <= code <= 0x66 {
        Some(code - 0x61 + 10)
    } else {
        None
    }
}

/// Whether text starts with a byte in hexadecimal digits behind a percent sign.
pub open spec fn starts_escaped(text: Seq<char>) -> bool {
    &&& text.len() >= 3
    &&& text[0] == '%'
    &&& hex_value(text[1]) is Some
    &&& hex_value(text[2]) is Some
}

/// The bytes that a name or a value of a form stands for.
pub open spec fn unescaped(text: Seq<char>) -> Seq<u8>
    decreases text.len(),
{
    if text.len() == 0 {
        Seq::empty()
    } else if text[0] == '+' {
        seq![0x20u8] + unescaped(text.skip(1))
    } else if starts_escaped(text) {
        seq![(hex_value(text[1])->0 * 16 + hex_value(text[2])->0) as u8] + unescaped(text.skip(3))
    } else {
        encode_utf8(seq![text[0]]) + unescaped(text.skip(1))
    }
}

/// The position of the first `=`, or the length where there is none.
pub open spec fn first_equals(text: Seq<char>) -> nat
    decreases text.len(),
{
    if text.len() == 0 || text[0] == '=' {
        0
    } else {
        1 + first_equals(text.skip(1))
    }
}

/// The position behind the last `&`, or zero where there is none.
pub open spec fn last_start(text: Seq<char>) -> nat
    decreases text.len(),
{
    if text.len() == 0 {
        0
    } else if text.last() == '&' {
        text.len()
    } else {
        last_start(text.drop_last())
    }
}

/// The position behind the last `&` lies within the text.
pub proof fn lemma_last_start_is_within(text: Seq<char>)
    ensures
        last_start(text) <= text.len(),
    decreases text.len(),
{
    if text.len() > 0 && text.last() != '&' {
        lemma_last_start_is_within(text.drop_last());
    }
}

/// The pair that a part of a form stands for: what is before and behind its first `=`.
pub open spec fn parsed_pair(part: Seq<char>) -> (Seq<char>, Seq<char>) {
    let end = first_equals(part) as int;
    let name = part.take(end);
    let value = if end < part.len() {
        part.skip(end + 1)
    } else {
        Seq::empty()
    };
    (decode_utf8(unescaped(name)), decode_utf8(unescaped(value)))
}

/// The pairs that the text of a form stands for. The parts of the text between its `&` that are
/// not empty are its pairs.
pub open spec fn parsed(text: Seq<char>) -> Pairs
    decreases text.len(),
{
    if text.len() == 0 {
        Seq::empty()
    } else {
        let start = last_start(text) as int;
        proof {
            lemma_last_start_is_within(text);
        }
        let earlier = if start > 0 {
            parsed(text.take(start - 1))
        } else {
            Seq::empty()
        };
        if start < text.len() {
            earlier.push(parsed_pair(text.skip(start)))
        } else {
            earlier
        }
    }
}

proof fn lemma_form_byte_reads_back(byte: u8, rest: Seq<char>)
    ensures
        unescaped(form_byte(byte) + rest) == seq![byte] + unescaped(rest),
{
    let text = form_byte(byte) + rest;
    if form_unchanged(byte) {
        assert(text[0] == byte as char);
        assert(text.skip(1) =~= rest);
        let single = seq![byte as char];
        assert(is_ascii_chars(single));
        is_ascii_chars_encode_utf8(single);
        assert(encode_utf8(single) =~= seq![byte]);
        assert(seq![text[0]] =~= single);
    } else if byte == 0x20 {
        assert(text[0] == '+');
        assert(text.skip(1) =~= rest);
    } else {
        let high = byte as int / 16;
        let low = byte as int % 16;
        assert(text[0] == '%');
        assert(text[1] == hex_digit(high));
        assert(text[2] == hex_digit(low));
        assert(hex_value(text[1]) == Some(high));
        assert(hex_value(text[2]) == Some(low));
        assert(text.skip(3) =~= rest);
    }
}

proof fn lemma_form_bytes_from_the_front(bytes: Seq<u8>)
    requires
        bytes.len() > 0,
    ensures
        form_bytes(bytes) == form_byte(bytes[0]) + form_bytes(bytes.skip(1)),
    decreases bytes.len(),
{
    if bytes.len() == 1 {
        assert(bytes.drop_last() =~= Seq::empty());
        assert(bytes.skip(1) =~= Seq::empty());
        assert(form_bytes(bytes) =~= form_byte(bytes[0]) + form_bytes(bytes.skip(1)));
    } else {
        let rest = bytes.drop_last();
        lemma_form_bytes_from_the_front(rest);
        assert(bytes.skip(1).drop_last() =~= rest.skip(1));
        assert(bytes.skip(1).last() == bytes.last());
        assert(form_bytes(bytes) =~= form_byte(bytes[0]) + form_bytes(bytes.skip(1)));
    }
}

/// Encoded bytes are read back.
pub proof fn law_encoded_bytes_read_back(bytes: Seq<u8>)
    ensures
        unescaped(form_bytes(bytes)) == bytes,
    decreases bytes.len(),
{
    if bytes.len() == 0 {
        assert(bytes =~= Seq::empty());
    } else {
        lemma_form_bytes_from_the_front(bytes);
        lemma_form_byte_reads_back(bytes[0], form_bytes(bytes.skip(1)));
        law_encoded_bytes_read_back(bytes.skip(1));
        assert(bytes =~= seq![bytes[0]] + bytes.skip(1));
    }
}

/// Encoded text holds neither of the characters that set pairs apart.
pub proof fn law_encoded_text_holds_no_delimiter(bytes: Seq<u8>)
    ensures
        !form_bytes(bytes).contains('&'),
        !form_bytes(bytes).contains('='),
    decreases bytes.len(),
{
    if bytes.len() > 0 {
        let rest = form_bytes(bytes.drop_last());
        law_encoded_text_holds_no_delimiter(bytes.drop_last());
        let last = form_byte(bytes.last());
        assert forall|i: int| 0 <= i < last.len() implies (#[trigger] last[i]) != '&' && last[i]
            != '=' by {
        }
        assert forall|i: int| 0 <= i < form_bytes(bytes).len() implies (#[trigger] form_bytes(
            bytes,
        )[i]) != '&' && form_bytes(bytes)[i] != '=' by {
            if i < rest.len() {
                assert(rest.contains(rest[i]));
            } else {
                assert(form_bytes(bytes)[i] == last[i - rest.len()]);
            }
        }
    }
}

proof fn lemma_first_equals(name: Seq<char>, value: Seq<char>)
    requires
        !name.contains('='),
    ensures
        first_equals(name + seq!['='] + value) == name.len(),
    decreases name.len(),
{
    let text = name + seq!['='] + value;
    if name.len() > 0 {
        assert(name.contains(name[0]));
        assert(text[0] == name[0]);
        assert forall|i: int| 0 <= i < name.skip(1).len() implies name.skip(1)[i] != '=' by {
            assert(name.contains(name[i + 1]));
        }
        assert(text.skip(1) =~= name.skip(1) + seq!['='] + value);
        lemma_first_equals(name.skip(1), value);
    } else {
        assert(text[0] == '=');
    }
}

proof fn lemma_last_start(before: Seq<char>, part: Seq<char>)
    requires
        before.len() == 0 || before.last() == '&',
        !part.contains('&'),
    ensures
        last_start(before + part) == before.len(),
    decreases part.len(),
{
    let text = before + part;
    if part.len() == 0 {
        assert(text =~= before);
    } else {
        assert(part.contains(part.last()));
        assert(text.last() == part.last());
        let shorter = part.drop_last();
        assert forall|i: int| 0 <= i < shorter.len() implies shorter[i] != '&' by {
            assert(part.contains(part[i]));
        }
        assert(text.drop_last() =~= before + part.drop_last());
        lemma_last_start(before, part.drop_last());
    }
}

/// The text of a form gives its pairs back, in their order. So different pairs have different
/// texts.
pub proof fn law_form_reads_back(pairs: Pairs)
    ensures
        parsed(form_text(pairs)) == pairs,
    decreases pairs.len(),
{
    if pairs.len() == 0 {
        assert(pairs =~= Seq::empty());
    } else {
        let rest = pairs.drop_last();
        let (name, value) = pairs.last();
        law_form_reads_back(rest);
        let earlier = form_text(rest);
        let a = form_bytes(encode_utf8(name));
        let b = form_bytes(encode_utf8(value));
        let part = a + seq!['='] + b;
        let before = if earlier.len() == 0 {
            Seq::empty()
        } else {
            earlier + seq!['&']
        };
        let text = form_text(pairs);
        assert(text =~= before + part);
        law_encoded_text_holds_no_delimiter(encode_utf8(name));
        law_encoded_text_holds_no_delimiter(encode_utf8(value));
        assert forall|i: int| 0 <= i < part.len() implies part[i] != '&' by {
            if i < a.len() {
                assert(a.contains(a[i]));
            } else if i > a.len() {
                assert(b.contains(b[i - a.len() - 1]));
            }
        }
        lemma_last_start(before, part);
        assert(text.skip(before.len() as int) =~= part);
        lemma_first_equals(a, b);
        assert(part.take(a.len() as int) =~= a);
        assert(part.skip(a.len() as int + 1) =~= b);
        law_encoded_bytes_read_back(encode_utf8(name));
        law_encoded_bytes_read_back(encode_utf8(value));
        encode_utf8_decode_utf8(name);
        encode_utf8_decode_utf8(value);
        assert(parsed_pair(part) == (name, value));
        if earlier.len() > 0 {
            assert(text.take(before.len() - 1) =~= earlier);
        } else {
            lemma_form_text_is_empty_only_without_pairs(rest);
        }
        assert(parsed(text) =~= rest.push((name, value)));
        assert(pairs =~= rest.push((name, value)));
    }
}

proof fn lemma_form_text_is_empty_only_without_pairs(pairs: Pairs)
    ensures
        form_text(pairs).len() == 0 <==> pairs.len() == 0,
{
}

/// The tags of a request are sent exactly where it has some, and what is sent gives them back in
/// their order.
pub proof fn law_sent_tags_read_back(request: S3Request, put: PutObject, digest: Seq<u8>)
    requires
        put.stores(request, digest),
    ensures
        put.tagging is None <==> request.options.tags is None,
        request.options.tags matches Some(tags) ==> parsed(put.tagging->0@) == tags.pairs(),
{
    if let Some(tags) = request.options.tags {
        law_form_reads_back(tags.pairs());
    }
}

/// The text of tags gives them back in their order.
pub proof fn law_tagging_reads_back(tags: S3Tags, text: String)
    requires
        call_ensures(S3Tags::tagging, (&tags,), text),
    ensures
        parsed(text@) == tags.pairs(),
{
    law_form_reads_back(tags.pairs());
}

} // verus!
