//! Reading canonical text back.
//!
//! The reader takes the canonical text of an entry apart again. It accepts
//! what the writer of `canonical` writes and gives back what was written,
//! which also shows that two different values never share a text.

use crate::infra::canonical::{
    escaped, fetch_request_json, fetched_entry_json, hex_char, json_string, json_text,
    operation_json, operations_items, operations_json, optional_json_string, resize_request_json,
    resized_entry_json,
};
use crate::infra::image_manipulation::Operation;
use crate::text::{
    chars_of, decimal, digit_char, digit_value, lemma_decimal_is_digits, starts_with, string_of,
};
use vstd::prelude::*;

verus! {

/// The value of a hexadecimal digit in lower case, if the character is one.
pub open spec fn hex_value(c: char) -> Option<int> {
    if c == 'a' {
        Some(10)
    } else if c == 'b' {
        Some(11)
    } else if c == 'c' {
        Some(12)
    } else if c == 'd' {
        Some(13)
    } else if c == 'e' {
        Some(14)
    } else if c == 'f' {
        Some(15)
    } else {
        digit_value(c)
    }
}

/// Whether a control character is written with the long escape: it is
/// where it has no short one.
pub open spec fn has_long_escape(code: int) -> bool {
    0 <= code < 0x20 && code != 8 && code != 9 && code != 10 && code != 12 && code != 13
}

/// The character that stands at the head of the inside of a JSON string,
/// and the number of characters it is written with. `None` where the head is
/// the closing quote, a bare control character, or no escape of the writer.
pub open spec fn unescaped_head(s: Seq<char>) -> Option<(char, int)> {
    if s.len() == 0 {
        None
    } else if s[0] == '\\' {
        if s.len() < 2 {
            None
        } else if s[1] == '"' {
            Some(('"', 2))
        } else if s[1] == '\\' {
            Some(('\\', 2))
        } else if s[1] == 'b' {
            Some(('\u{8}', 2))
        } else if s[1] == 'f' {
            Some(('\u{c}', 2))
        } else if s[1] == 'n' {
            Some(('\n', 2))
        } else if s[1] == 'r' {
            Some(('\r', 2))
        } else if s[1] == 't' {
            Some(('\t', 2))
        } else if s[1] == 'u' && s.len() >= 6 && s[2] == '0' && s[3] == '0' {
            match (hex_value(s[4]), hex_value(s[5])) {
                (Some(high), Some(low)) => if has_long_escape(16 * high + low) {
                    Some(((16 * high + low) as char, 6))
                } else {
                    None
                },
                _ => None,
            }
        } else {
            None
        }
    } else if s[0] == '"' || (s[0] as u32) < 0x20 {
        None
    } else {
        Some((s[0], 1))
    }
}

/// The text that the inside of a JSON string stands for, up to the closing
/// quote, and what follows that quote.
pub open spec fn parse_json_text(s: Seq<char>) -> Option<(Seq<char>, Seq<char>)>
    decreases s.len(),
{
    if s.len() == 0 {
        None
    } else if s[0] == '"' {
        Some((Seq::<char>::empty(), s.skip(1)))
    } else {
        match unescaped_head(s) {
            None => None,
            Some((c, n)) => if n < 1 || n > s.len() {
                None
            } else {
                match parse_json_text(s.skip(n)) {
                    None => None,
                    Some((text, rest)) => Some((seq![c] + text, rest)),
                }
            },
        }
    }
}

/// The text that a JSON string at the head of `s` stands for, and what
/// follows the string.
pub open spec fn parse_json_string(s: Seq<char>) -> Option<(Seq<char>, Seq<char>)> {
    if s.len() > 0 && s[0] == '"' {
        parse_json_text(s.skip(1))
    } else {
        None
    }
}

/// What follows `literal` at the head of `s`, where `s` begins with it.
pub open spec fn strip_literal(s: Seq<char>, literal: Seq<char>) -> Option<Seq<char>> {
    if literal.is_prefix_of(s) {
        Some(s.skip(literal.len() as int))
    } else {
        None
    }
}

/// The number of decimal digits at the head of `s`.
pub open spec fn leading_digits(s: Seq<char>) -> int
    decreases s.len(),
{
    if s.len() > 0 && digit_value(s[0]) is Some {
        1 + leading_digits(s.skip(1))
    } else {
        0
    }
}

/// The value of a run of decimal digits.
pub open spec fn numeral_value(digits: Seq<char>) -> int
    decreases digits.len(),
{
    if digits.len() == 0 {
        0
    } else {
        numeral_value(digits.drop_last()) * 10 + match digit_value(digits.last()) {
            Some(d) => d,
            None => 0,
        }
    }
}

/// The number at the head of `s` and what follows it: a run of digits
/// without a needless leading zero, of a value within 32 bits.
pub open spec fn parse_number(s: Seq<char>) -> Option<(u32, Seq<char>)> {
    let n = leading_digits(s);
    if n == 0 || (n > 1 && s[0] == '0') || numeral_value(s.take(n)) > u32::MAX {
        None
    } else {
        Some((numeral_value(s.take(n)) as u32, s.skip(n)))
    }
}

/// The resize at the head of `s`, behind its opening literal, and what
/// follows it.
pub open spec fn parse_resize_body(s: Seq<char>) -> Option<(Operation, Seq<char>)> {
    match parse_number(s) {
        None => None,
        Some((width, after_width)) => match strip_literal(after_width, ",\"height\":"@) {
            None => None,
            Some(at_height) => match parse_number(at_height) {
                None => None,
                Some((height, after_height)) => match strip_literal(after_height, "}}"@) {
                    None => None,
                    Some(rest) => Some((Operation::Resize { width, height }, rest)),
                },
            },
        },
    }
}

/// The operation at the head of `s` and what follows it.
#[verifier::opaque]
pub open spec fn parse_operation(s: Seq<char>) -> Option<(Operation, Seq<char>)> {
    match strip_literal(s, "{\"Resize\":{\"width\":"@) {
        Some(body) => parse_resize_body(body),
        None => match strip_literal(s, "\"FlipHorizontally\""@) {
            Some(rest) => Some((Operation::FlipHorizontally, rest)),
            None => match strip_literal(s, "\"FlipVertically\""@) {
                Some(rest) => Some((Operation::FlipVertically, rest)),
                None => None,
            },
        },
    }
}

/// The operations at the head of `s`, up to the bracket that closes their
/// array, and what follows that bracket. There is at least one operation.
pub open spec fn parse_items(s: Seq<char>) -> Option<(Seq<Operation>, Seq<char>)>
    decreases s.len(),
{
    match parse_operation(s) {
        None => None,
        Some((operation, rest)) => if rest.len() >= s.len() || rest.len() == 0 {
            None
        } else if rest[0] == ']' {
            Some((seq![operation], rest.skip(1)))
        } else if rest[0] == ',' {
            match parse_items(rest.skip(1)) {
                None => None,
                Some((operations, end)) => Some((seq![operation] + operations, end)),
            }
        } else {
            None
        },
    }
}

/// The array of operations at the head of `s` and what follows it.
pub open spec fn parse_operations(s: Seq<char>) -> Option<(Seq<Operation>, Seq<char>)> {
    if s.len() < 2 || s[0] != '[' {
        None
    } else if s[1] == ']' {
        Some((Seq::<Operation>::empty(), s.skip(2)))
    } else {
        parse_items(s.skip(1))
    }
}

/// The request for a transformed image at the head of `s`, as its address
/// and its operations, and what follows it.
pub open spec fn parse_resize_request(s: Seq<char>) -> Option<
    ((Seq<char>, Seq<Operation>), Seq<char>),
> {
    match strip_literal(s, "{\"requested_image_url\":"@) {
        None => None,
        Some(at_url) => match parse_json_string(at_url) {
            None => None,
            Some((url, after_url)) => match strip_literal(after_url, ",\"operations\":"@) {
                None => None,
                Some(at_operations) => match parse_operations(at_operations) {
                    None => None,
                    Some((operations, after_operations)) => match strip_literal(
                        after_operations,
                        seq!['}'],
                    ) {
                        None => None,
                        Some(rest) => Some(((url, operations), rest)),
                    },
                },
            },
        },
    }
}

/// The request for the bytes of a source image at the head of `s`, as its
/// address, and what follows it.
pub open spec fn parse_fetch_request(s: Seq<char>) -> Option<(Seq<char>, Seq<char>)> {
    match strip_literal(s, "{\"requested_image_url\":"@) {
        None => None,
        Some(at_url) => match parse_json_string(at_url) {
            None => None,
            Some((url, after_url)) => match strip_literal(after_url, seq!['}']) {
                None => None,
                Some(rest) => Some((url, rest)),
            },
        },
    }
}

/// The entry for a transformed image that `s` is the text of: its address,
/// its operations and its content type.
pub open spec fn parse_resized_entry(s: Seq<char>) -> Option<
    (Seq<char>, Seq<Operation>, Seq<char>),
> {
    match strip_literal(s, "{\"request\":"@) {
        None => None,
        Some(at_request) => match parse_resize_request(at_request) {
            None => None,
            Some((request, after_request)) => match strip_literal(
                after_request,
                ",\"content_type\":"@,
            ) {
                None => None,
                Some(at_type) => match parse_json_string(at_type) {
                    None => None,
                    Some((content_type, after_type)) => if after_type == seq!['}'] {
                        Some((request.0, request.1, content_type))
                    } else {
                        None
                    },
                },
            },
        },
    }
}

/// The optional text at the head of `s`, a JSON string or `null`, and what
/// follows it.
pub open spec fn parse_optional_string(s: Seq<char>) -> Option<(Option<Seq<char>>, Seq<char>)> {
    match strip_literal(s, "null"@) {
        Some(rest) => Some((None, rest)),
        None => match parse_json_string(s) {
            None => None,
            Some((text, rest)) => Some((Some(text), rest)),
        },
    }
}

/// The entry for the bytes of a source image that `s` is the text of: its
/// address and its content type, if it has one.
pub open spec fn parse_fetched_entry(s: Seq<char>) -> Option<(Seq<char>, Option<Seq<char>>)> {
    match strip_literal(s, "{\"request\":"@) {
        None => None,
        Some(at_request) => match parse_fetch_request(at_request) {
            None => None,
            Some((url, after_request)) => match strip_literal(
                after_request,
                ",\"content_type\":"@,
            ) {
                None => None,
                Some(at_type) => match parse_optional_string(at_type) {
                    None => None,
                    Some((content_type, after_type)) => if after_type == seq!['}'] {
                        Some((url, content_type))
                    } else {
                        None
                    },
                },
            },
        },
    }
}

/// A literal at the head of a text is taken off whole.
pub proof fn lemma_strip_literal(literal: Seq<char>, rest: Seq<char>)
    ensures
        strip_literal(literal + rest, literal) == Some(rest),
{
    assert((literal + rest).subrange(0, literal.len() as int) =~= literal);
    assert((literal + rest).skip(literal.len() as int) =~= rest);
}

/// The writer's escape of a character, at the head of a text, is read back
/// as that character; and it never begins with a quote.
pub proof fn lemma_unescaped_head(c: char, tail: Seq<char>)
    ensures
        unescaped_head(escaped(c) + tail) == Some((c, escaped(c).len() as int)),
        escaped(c).len() >= 1,
        (escaped(c) + tail)[0] != '"',
        (escaped(c) + tail).skip(escaped(c).len() as int) == tail,
{
    let s = escaped(c) + tail;
    assert(s.skip(escaped(c).len() as int) =~= tail);
    let code = (c as u32) as int;
    if c == '"' || c == '\\' || c == '\u{8}' || c == '\u{c}' || c == '\n' || c == '\r' || c
        == '\t' {
        assert(s[0] == '\\');
        assert(s[1] == escaped(c)[1]);
    } else if code < 0x20 {
        assert(s[0] == '\\');
        assert(s[1] == 'u');
        assert(s[2] == '0');
        assert(s[3] == '0');
        assert(s[4] == hex_char(code / 16));
        assert(s[5] == hex_char(code % 16));
        assert(hex_value(hex_char(code / 16)) == Some(code / 16));
        assert(hex_value(hex_char(code % 16)) == Some(code % 16));
        assert(16 * (code / 16) + code % 16 == code);
        assert(has_long_escape(code));
        assert((code as char) == c);
    } else {
        assert(s[0] == c);
    }
}

/// The escaped form of a text is written piece by piece.
pub proof fn lemma_json_text_concat(a: Seq<char>, b: Seq<char>)
    ensures
        json_text(a + b) == json_text(a) + json_text(b),
    decreases b.len(),
{
    if b.len() == 0 {
        assert(a + b =~= a);
        assert(json_text(a) + json_text(b) =~= json_text(a));
    } else {
        assert((a + b).drop_last() =~= a + b.drop_last());
        assert((a + b).last() == b.last());
        lemma_json_text_concat(a, b.drop_last());
        assert(json_text(a + b) =~= json_text(a) + json_text(b));
    }
}

/// The inside of a JSON string that the writer wrote is read back as the
/// text that was written.
pub proof fn lemma_parse_json_text(text: Seq<char>, rest: Seq<char>)
    ensures
        parse_json_text(json_text(text) + seq!['"'] + rest) == Some((text, rest)),
    decreases text.len(),
{
    let s = json_text(text) + seq!['"'] + rest;
    if text.len() == 0 {
        assert(s =~= seq!['"'] + rest);
        assert(s.skip(1) =~= rest);
    } else {
        let head = text[0];
        let tail = text.drop_first();
        assert(text =~= seq![head] + tail);
        lemma_json_text_concat(seq![head], tail);
        assert(seq![head].drop_last() =~= Seq::<char>::empty());
        assert(json_text(Seq::<char>::empty()) =~= Seq::<char>::empty());
        assert(json_text(seq![head]) =~= json_text(seq![head].drop_last()) + escaped(
            seq![head].last(),
        ));
        assert(json_text(seq![head]) =~= escaped(head));
        let follow = json_text(tail) + seq!['"'] + rest;
        assert(s =~= escaped(head) + follow);
        lemma_unescaped_head(head, follow);
        lemma_parse_json_text(tail, rest);
        assert(seq![head] + tail =~= text);
    }
}

/// A JSON string that the writer wrote is read back as the text that was
/// written.
pub proof fn lemma_parse_json_string(text: Seq<char>, rest: Seq<char>)
    ensures
        parse_json_string(json_string(text) + rest) == Some((text, rest)),
{
    let s = json_string(text) + rest;
    assert(s[0] == '"');
    assert(s.skip(1) =~= json_text(text) + seq!['"'] + rest);
    lemma_parse_json_text(text, rest);
}

/// A decimal numeral is made of digits, has at least one, and begins with
/// a zero only where it is the numeral of zero.
pub proof fn lemma_decimal_digits(v: nat)
    ensures
        decimal(v).len() >= 1,
        forall|i: int| 0 <= i < decimal(v).len() ==> digit_value(#[trigger] decimal(v)[i]) is Some,
        v >= 1 ==> decimal(v)[0] != '0',
        v < 10 ==> decimal(v).len() == 1,
        numeral_value(decimal(v)) == v,
    decreases v,
{
    lemma_decimal_is_digits(v);
    if v >= 10 {
        lemma_decimal_digits(v / 10);
        let shorter = decimal(v / 10);
        let last = digit_char((v % 10) as int);
        assert(decimal(v) == shorter.push(last));
        assert(decimal(v).drop_last() =~= shorter);
        assert(decimal(v).last() == last);
        assert(digit_value(last) == Some((v % 10) as int));
        assert(decimal(v)[0] == shorter[0]);
        assert(numeral_value(decimal(v)) == numeral_value(shorter) * 10 + (v % 10));
    } else {
        assert(decimal(v) == seq![digit_char(v as int)]);
        assert(decimal(v).drop_last() =~= Seq::<char>::empty());
        assert(digit_value(digit_char(v as int)) == Some(v as int));
        assert(numeral_value(Seq::<char>::empty()) == 0);
        assert(numeral_value(decimal(v)) == numeral_value(decimal(v).drop_last()) * 10 + v);
    }
}

/// A run of digits, followed by something that is no digit, is counted in
/// full.
pub proof fn lemma_leading_digits(digits: Seq<char>, rest: Seq<char>)
    requires
        forall|i: int| 0 <= i < digits.len() ==> digit_value(#[trigger] digits[i]) is Some,
        rest.len() == 0 || digit_value(rest[0]) is None,
    ensures
        leading_digits(digits + rest) == digits.len(),
    decreases digits.len(),
{
    let s = digits + rest;
    if digits.len() == 0 {
        assert(s =~= rest);
    } else {
        assert(s[0] == digits[0]);
        assert(s.skip(1) =~= digits.drop_first() + rest);
        assert forall|i: int| 0 <= i < digits.drop_first().len() implies digit_value(
            #[trigger] digits.drop_first()[i],
        ) is Some by {
            assert(digits.drop_first()[i] == digits[i + 1]);
        }
        lemma_leading_digits(digits.drop_first(), rest);
    }
}

/// A number that the writer wrote, followed by something that is no digit,
/// is read back as the number that was written.
pub proof fn lemma_parse_number(v: u32, rest: Seq<char>)
    requires
        rest.len() == 0 || digit_value(rest[0]) is None,
    ensures
        parse_number(decimal(v as nat) + rest) == Some((v, rest)),
{
    let digits = decimal(v as nat);
    let s = digits + rest;
    lemma_decimal_digits(v as nat);
    lemma_leading_digits(digits, rest);
    assert(s.take(digits.len() as int) =~= digits);
    assert(s.skip(digits.len() as int) =~= rest);
    assert(s[0] == digits[0]);
}

/// An operation that the writer wrote is read back as the operation that
/// was written.
pub proof fn lemma_parse_operation(operation: Operation, rest: Seq<char>)
    ensures
        parse_operation(operation_json(operation) + rest) == Some((operation, rest)),
        operation_json(operation).len() >= 1,
        operation_json(operation)[0] != ']',
{
    reveal(parse_operation);
    reveal_strlit("{\"Resize\":{\"width\":");
    reveal_strlit(",\"height\":");
    reveal_strlit("}}");
    reveal_strlit("\"FlipHorizontally\"");
    reveal_strlit("\"FlipVertically\"");
    let s = operation_json(operation) + rest;
    let open = "{\"Resize\":{\"width\":"@;
    let middle = ",\"height\":"@;
    let close = "}}"@;
    let horizontal = "\"FlipHorizontally\""@;
    let vertical = "\"FlipVertically\""@;
    match operation {
        Operation::Resize { width, height } => {
            let after_open = decimal(width as nat) + (middle + (decimal(height as nat) + (close
                + rest)));
            assert(s =~= open + after_open);
            lemma_strip_literal(open, after_open);
            let after_width = middle + (decimal(height as nat) + (close + rest));
            assert(after_width[0] == ',');
            lemma_parse_number(width, after_width);
            let at_height = decimal(height as nat) + (close + rest);
            lemma_strip_literal(middle, at_height);
            let after_height = close + rest;
            assert(after_height[0] == '}');
            lemma_parse_number(height, after_height);
            lemma_strip_literal(close, rest);
            assert(operation_json(operation)[0] == open[0]);
        },
        Operation::FlipHorizontally => {
            assert(s[0] == '"');
            assert(open[0] == '{');
            assert(!open.is_prefix_of(s)) by {
                if open.is_prefix_of(s) {
                    assert(s.subrange(0, open.len() as int)[0] == open[0]);
                }
            }
            lemma_strip_literal(horizontal, rest);
        },
        Operation::FlipVertically => {
            assert(s[0] == '"');
            assert(open[0] == '{');
            assert(!open.is_prefix_of(s)) by {
                if open.is_prefix_of(s) {
                    assert(s.subrange(0, open.len() as int)[0] == open[0]);
                }
            }
            assert(s[5] == 'V');
            assert(horizontal[5] == 'H');
            assert(!horizontal.is_prefix_of(s)) by {
                if horizontal.is_prefix_of(s) {
                    assert(s.subrange(0, horizontal.len() as int)[5] == horizontal[5]);
                }
            }
            lemma_strip_literal(vertical, rest);
        },
    }
}

/// The operations of a list are written one after the other.
pub proof fn lemma_operations_items_first(operations: Seq<Operation>)
    requires
        operations.len() >= 2,
    ensures
        operations_items(operations) == operation_json(operations[0]) + seq![','] + operations_items(
            operations.drop_first(),
        ),
    decreases operations.len(),
{
    let shorter = operations.drop_last();
    let tail = operations.drop_first();
    assert(operations_items(operations) == operations_items(shorter) + seq![','] + operation_json(
        operations.last(),
    ));
    if operations.len() == 2 {
        assert(shorter.len() == 1);
        assert(shorter[0] == operations[0]);
        assert(tail.len() == 1);
        assert(tail[0] == operations.last());
        assert(operations_items(shorter) == operation_json(shorter[0]));
        assert(operations_items(tail) == operation_json(tail[0]));
    } else {
        lemma_operations_items_first(shorter);
        assert(shorter.drop_first() =~= tail.drop_last());
        assert(shorter[0] == operations[0]);
        assert(tail.last() == operations.last());
        assert(operations_items(tail) == operations_items(tail.drop_last()) + seq![','] + operation_json(
            tail.last(),
        ));
        assert(operations_items(operations) =~= operation_json(operations[0]) + seq![',']
            + operations_items(tail));
    }
}

/// The operations of a list that the writer wrote, with the bracket that
/// closes them, are read back as the list that was written.
pub proof fn lemma_parse_items(operations: Seq<Operation>, rest: Seq<char>)
    requires
        operations.len() >= 1,
    ensures
        parse_items(operations_items(operations) + seq![']'] + rest) == Some((operations, rest)),
    decreases operations.len(),
{
    let s = operations_items(operations) + seq![']'] + rest;
    let first = operations[0];
    if operations.len() == 1 {
        let follow = seq![']'] + rest;
        assert(s =~= operation_json(first) + follow);
        lemma_parse_operation(first, follow);
        assert(follow.skip(1) =~= rest);
        assert(operations =~= seq![first]);
    } else {
        let tail = operations.drop_first();
        lemma_operations_items_first(operations);
        let follow = seq![','] + (operations_items(tail) + seq![']'] + rest);
        assert(s =~= operation_json(first) + follow);
        lemma_parse_operation(first, follow);
        assert(follow.skip(1) =~= operations_items(tail) + seq![']'] + rest);
        lemma_parse_items(tail, rest);
        assert(seq![first] + tail =~= operations);
    }
}

/// An array of operations that the writer wrote is read back as the list
/// that was written.
pub proof fn lemma_parse_operations(operations: Seq<Operation>, rest: Seq<char>)
    ensures
        parse_operations(operations_json(operations) + rest) == Some((operations, rest)),
{
    let s = operations_json(operations) + rest;
    assert(s[0] == '[');
    if operations.len() == 0 {
        assert(s =~= seq!['[', ']'] + rest);
        assert(s.skip(2) =~= rest);
        assert(operations =~= Seq::<Operation>::empty());
    } else {
        lemma_parse_operation(operations[0], Seq::<char>::empty());
        if operations.len() >= 2 {
            lemma_operations_items_first(operations);
        }
        assert(operations_items(operations)[0] == operation_json(operations[0])[0]);
        assert(s[1] == operations_items(operations)[0]);
        assert(s.skip(1) =~= operations_items(operations) + seq![']'] + rest);
        lemma_parse_items(operations, rest);
    }
}

/// A request for a transformed image that the writer wrote is read back as
/// the request that was written.
pub proof fn lemma_parse_resize_request(url: Seq<char>, operations: Seq<Operation>, rest: Seq<char>)
    ensures
        parse_resize_request(resize_request_json(url, operations) + rest) == Some(
            ((url, operations), rest),
        ),
{
    let open = "{\"requested_image_url\":"@;
    let middle = ",\"operations\":"@;
    let s = resize_request_json(url, operations) + rest;
    let at_url = json_string(url) + (middle + (operations_json(operations) + (seq!['}'] + rest)));
    assert(s =~= open + at_url);
    lemma_strip_literal(open, at_url);
    let after_url = middle + (operations_json(operations) + (seq!['}'] + rest));
    lemma_parse_json_string(url, after_url);
    let at_operations = operations_json(operations) + (seq!['}'] + rest);
    lemma_strip_literal(middle, at_operations);
    lemma_parse_operations(operations, seq!['}'] + rest);
    lemma_strip_literal(seq!['}'], rest);
}

/// A request for the bytes of a source image that the writer wrote is read
/// back as the request that was written.
pub proof fn lemma_parse_fetch_request(url: Seq<char>, rest: Seq<char>)
    ensures
        parse_fetch_request(fetch_request_json(url) + rest) == Some((url, rest)),
{
    let open = "{\"requested_image_url\":"@;
    let s = fetch_request_json(url) + rest;
    let at_url = json_string(url) + (seq!['}'] + rest);
    assert(s =~= open + at_url);
    lemma_strip_literal(open, at_url);
    lemma_parse_json_string(url, seq!['}'] + rest);
    lemma_strip_literal(seq!['}'], rest);
}

/// The text of an entry for a transformed image is read back as the entry.
pub proof fn lemma_parse_resized_entry(
    url: Seq<char>,
    operations: Seq<Operation>,
    content_type: Seq<char>,
)
    ensures
        parse_resized_entry(resized_entry_json(url, operations, content_type)) == Some(
            (url, operations, content_type),
        ),
{
    let open = "{\"request\":"@;
    let middle = ",\"content_type\":"@;
    let s = resized_entry_json(url, operations, content_type);
    let after_request = middle + (json_string(content_type) + seq!['}']);
    let at_request = resize_request_json(url, operations) + after_request;
    assert(s =~= open + at_request);
    lemma_strip_literal(open, at_request);
    lemma_parse_resize_request(url, operations, after_request);
    lemma_strip_literal(middle, json_string(content_type) + seq!['}']);
    lemma_parse_json_string(content_type, seq!['}']);
}

/// The text of an entry for the bytes of a source image is read back as
/// the entry.
pub proof fn lemma_parse_fetched_entry(url: Seq<char>, content_type: Option<Seq<char>>)
    ensures
        parse_fetched_entry(fetched_entry_json(url, content_type)) == Some((url, content_type)),
{
    reveal_strlit("null");
    let open = "{\"request\":"@;
    let middle = ",\"content_type\":"@;
    let s = fetched_entry_json(url, content_type);
    let at_type = optional_json_string(content_type) + seq!['}'];
    let after_request = middle + at_type;
    let at_request = fetch_request_json(url) + after_request;
    assert(s =~= open + at_request);
    lemma_strip_literal(open, at_request);
    lemma_parse_fetch_request(url, after_request);
    lemma_strip_literal(middle, at_type);
    match content_type {
        Some(text) => {
            assert(at_type[0] == '"');
            assert("null"@[0] == 'n');
            assert(!"null"@.is_prefix_of(at_type)) by {
                if "null"@.is_prefix_of(at_type) {
                    assert(at_type.subrange(0, "null"@.len() as int)[0] == "null"@[0]);
                }
            }
            lemma_parse_json_string(text, seq!['}']);
        },
        None => {
            lemma_strip_literal("null"@, seq!['}']);
        },
    }
}

/// Two requests for a transformed image with the same canonical text are
/// the same request: a different address or a different list of operations
/// gives a different text.
pub proof fn lemma_resize_request_json_injective(
    url_a: Seq<char>,
    operations_a: Seq<Operation>,
    url_b: Seq<char>,
    operations_b: Seq<Operation>,
)
    requires
        resize_request_json(url_a, operations_a) == resize_request_json(url_b, operations_b),
    ensures
        url_a == url_b,
        operations_a == operations_b,
{
    lemma_parse_resize_request(url_a, operations_a, Seq::<char>::empty());
    lemma_parse_resize_request(url_b, operations_b, Seq::<char>::empty());
}

/// Two requests for the bytes of a source image with the same canonical
/// text name the same address.
pub proof fn lemma_fetch_request_json_injective(url_a: Seq<char>, url_b: Seq<char>)
    requires
        fetch_request_json(url_a) == fetch_request_json(url_b),
    ensures
        url_a == url_b,
{
    lemma_parse_fetch_request(url_a, Seq::<char>::empty());
    lemma_parse_fetch_request(url_b, Seq::<char>::empty());
}

fn read_literal(s: &[char], at: usize, literal: &str) -> (r: Option<usize>)
    requires
        at <= s.len(),
    ensures
        match r {
            Some(end) => at <= end <= s.len() && strip_literal(s@.skip(at as int), literal@)
                == Some(s@.skip(end as int)),
            None => strip_literal(s@.skip(at as int), literal@) is None,
        },
{
    let wanted = chars_of(literal);
    let window = vstd::slice::slice_subrange(s, at, s.len());
    assert(window@ =~= s@.skip(at as int));
    if starts_with(window, wanted.as_slice()) {
        assert(s@.skip(at as int).skip(wanted@.len() as int) =~= s@.skip(at + wanted@.len()));
        Some(at + wanted.len())
    } else {
        None
    }
}

fn read_char(s: &[char], at: usize, wanted: char) -> (r: Option<usize>)
    requires
        at <= s.len(),
    ensures
        match r {
            Some(end) => at < end <= s.len() && end == at + 1 && strip_literal(
                s@.skip(at as int),
                seq![wanted],
            ) == Some(s@.skip(end as int)),
            None => strip_literal(s@.skip(at as int), seq![wanted]) is None,
        },
{
    let ghost window = s@.skip(at as int);
    if at < s.len() && s[at] == wanted {
        assert(window.subrange(0, 1) =~= seq![wanted]);
        assert(window.skip(1) =~= s@.skip(at + 1));
        Some(at + 1)
    } else {
        assert(!seq![wanted].is_prefix_of(window)) by {
            if seq![wanted].is_prefix_of(window) {
                assert(window.subrange(0, 1)[0] == wanted);
            }
        }
        None
    }
}

fn hex_digit_value(c: char) -> (r: Option<u8>)
    ensures
        match r {
            Some(v) => hex_value(c) == Some(v as int) && v < 16,
            None => hex_value(c) is None,
        },
{
    if c == '0' {
        Some(0)
    } else if c == '1' {
        Some(1)
    } else if c == '2' {
        Some(2)
    } else if c == '3' {
        Some(3)
    } else if c == '4' {
        Some(4)
    } else if c == '5' {
        Some(5)
    } else if c == '6' {
        Some(6)
    } else if c == '7' {
        Some(7)
    } else if c == '8' {
        Some(8)
    } else if c == '9' {
        Some(9)
    } else if c == 'a' {
        Some(10)
    } else if c == 'b' {
        Some(11)
    } else if c == 'c' {
        Some(12)
    } else if c == 'd' {
        Some(13)
    } else if c == 'e' {
        Some(14)
    } else if c == 'f' {
        Some(15)
    } else {
        None
    }
}

fn read_unit(s: &[char], at: usize) -> (r: Option<(char, usize)>)
    requires
        at < s.len(),
    ensures
        match r {
            Some((c, end)) => at < end <= s.len() && unescaped_head(s@.skip(at as int)) == Some(
                (c, end - at),
            ),
            None => unescaped_head(s@.skip(at as int)) is None,
        },
{
    let ghost window = s@.skip(at as int);
    assert(window.len() == s.len() - at);
    assert(window[0] == s@[at as int]);
    let head = s[at];
    if head == '\\' {
        if s.len() - at < 2 {
            return None;
        }
        assert(window[1] == s@[at + 1]);
        let kind = s[at + 1];
        if kind == '"' {
            Some(('"', at + 2))
        } else if kind == '\\' {
            Some(('\\', at + 2))
        } else if kind == 'b' {
            Some(('\u{8}', at + 2))
        } else if kind == 'f' {
            Some(('\u{c}', at + 2))
        } else if kind == 'n' {
            Some(('\n', at + 2))
        } else if kind == 'r' {
            Some(('\r', at + 2))
        } else if kind == 't' {
            Some(('\t', at + 2))
        } else if kind == 'u' && s.len() - at >= 6 {
            assert(window[2] == s@[at + 2]);
            assert(window[3] == s@[at + 3]);
            assert(window[4] == s@[at + 4]);
            assert(window[5] == s@[at + 5]);
            if s[at + 2] != '0' || s[at + 3] != '0' {
                return None;
            }
            let high = match hex_digit_value(s[at + 4]) {
                Some(v) => v,
                None => {
                    return None;
                },
            };
            let low = match hex_digit_value(s[at + 5]) {
                Some(v) => v,
                None => {
                    return None;
                },
            };
            let code: u8 = 16 * high + low;
            if code < 0x20 && code != 8 && code != 9 && code != 10 && code != 12 && code != 13 {
                Some((code as char, at + 6))
            } else {
                None
            }
        } else {
            None
        }
    } else if head == '"' || (head as u32) < 0x20 {
        None
    } else {
        Some((head, at + 1))
    }
}

fn read_json_string(s: &[char], at: usize) -> (r: Option<(Vec<char>, usize)>)
    requires
        at <= s.len(),
    ensures
        match r {
            Some((text, end)) => at <= end <= s.len() && parse_json_string(s@.skip(at as int))
                == Some((text@, s@.skip(end as int))),
            None => parse_json_string(s@.skip(at as int)) is None,
        },
{
    let ghost window = s@.skip(at as int);
    if at >= s.len() || s[at] != '"' {
        return None;
    }
    assert(window[0] == s@[at as int]);
    assert(window.skip(1) =~= s@.skip(at + 1));
    let ghost inside = s@.skip(at + 1);
    let mut text: Vec<char> = Vec::new();
    let mut i: usize = at + 1;
    loop
        invariant
            at < i <= s.len(),
            inside == s@.skip(at + 1),
            parse_json_string(s@.skip(at as int)) == parse_json_text(inside),
            parse_json_text(inside) == match parse_json_text(s@.skip(i as int)) {
                None => None::<(Seq<char>, Seq<char>)>,
                Some((more, rest)) => Some((text@ + more, rest)),
            },
        decreases s.len() - i,
    {
        let ghost here = s@.skip(i as int);
        if i >= s.len() {
            return None;
        }
        assert(here[0] == s@[i as int]);
        if s[i] == '"' {
            assert(here.skip(1) =~= s@.skip(i + 1));
            assert(text@ + Seq::<char>::empty() =~= text@);
            return Some((text, i + 1));
        }
        match read_unit(s, i) {
            None => {
                return None;
            },
            Some((c, end)) => {
                assert(here.skip(end - i) =~= s@.skip(end as int));
                let ghost before = text@;
                text.push(c);
                assert forall|more: Seq<char>| before + (seq![c] + more) == text@ + more by {
                    assert(before + (seq![c] + more) =~= text@ + more);
                }
                i = end;
            },
        }
    }
}

/// The value of a run of digits grows with every digit read.
proof fn lemma_numeral_value_push(digits: Seq<char>, c: char)
    requires
        digit_value(c) is Some,
    ensures
        numeral_value(digits.push(c)) == numeral_value(digits) * 10 + digit_value(c)->0,
        numeral_value(digits) >= 0 ==> numeral_value(digits.push(c)) >= numeral_value(digits),
{
    assert(digits.push(c).drop_last() =~= digits);
    assert(digits.push(c).last() == c);
}

fn read_number(s: &[char], at: usize) -> (r: Option<(u32, usize)>)
    requires
        at <= s.len(),
    ensures
        match r {
            Some((value, end)) => at <= end <= s.len() && parse_number(s@.skip(at as int))
                == Some((value, s@.skip(end as int))),
            None => parse_number(s@.skip(at as int)) is None,
        },
{
    let ghost window = s@.skip(at as int);
    let cap: u64 = 0x100_0000_0000;
    let mut value: u64 = 0;
    let mut i: usize = at;
    assert(window.take(0) =~= Seq::<char>::empty());
    assert(window.skip(0) =~= window);
    loop
        invariant_except_break
            at <= i <= s.len(),
            window == s@.skip(at as int),
            cap == 0x100_0000_0000,
            leading_digits(window) == (i - at) + leading_digits(s@.skip(i as int)),
            0 <= numeral_value(window.take(i - at)),
            value == if numeral_value(window.take(i - at)) < cap {
                numeral_value(window.take(i - at))
            } else {
                cap as int
            },
        ensures
            at <= i <= s.len(),
            leading_digits(window) == i - at,
            0 <= numeral_value(window.take(i - at)),
            value == if numeral_value(window.take(i - at)) < cap {
                numeral_value(window.take(i - at))
            } else {
                cap as int
            },
        decreases s.len() - i,
    {
        let ghost here = s@.skip(i as int);
        if i >= s.len() {
            break;
        }
        assert(here[0] == s@[i as int]);
        assert(here.skip(1) =~= s@.skip(i + 1));
        let digit = match char_digit(s[i]) {
            Some(d) => d,
            None => {
                break;
            },
        };
        proof {
            assert(window.take(i - at + 1) =~= window.take(i - at).push(s@[i as int]));
            lemma_numeral_value_push(window.take(i - at), s@[i as int]);
        }
        let next: u64 = value * 10 + digit;
        value = if next < cap {
            next
        } else {
            cap
        };
        i += 1;
    }
    let count = i - at;
    if count == 0 {
        return None;
    }
    assert(window[0] == s@[at as int]);
    if count > 1 && s[at] == '0' {
        return None;
    }
    if value > 0xffff_ffff {
        return None;
    }
    assert(window.skip(i - at) =~= s@.skip(i as int));
    Some((value as u32, i))
}

fn char_digit(c: char) -> (d: Option<u64>)
    ensures
        match d {
            Some(v) => digit_value(c) == Some(v as int) && v <= 9,
            None => digit_value(c) is None,
        },
{
    if c == '0' {
        Some(0)
    } else if c == '1' {
        Some(1)
    } else if c == '2' {
        Some(2)
    } else if c == '3' {
        Some(3)
    } else if c == '4' {
        Some(4)
    } else if c == '5' {
        Some(5)
    } else if c == '6' {
        Some(6)
    } else if c == '7' {
        Some(7)
    } else if c == '8' {
        Some(8)
    } else if c == '9' {
        Some(9)
    } else {
        None
    }
}

fn read_operation(s: &[char], at: usize) -> (r: Option<(Operation, usize)>)
    requires
        at <= s.len(),
    ensures
        match r {
            Some((operation, end)) => at <= end <= s.len() && parse_operation(s@.skip(at as int))
                == Some((operation, s@.skip(end as int))),
            None => parse_operation(s@.skip(at as int)) is None,
        },
{
    reveal(parse_operation);
    match read_literal(s, at, "{\"Resize\":{\"width\":") {
        Some(body) => {
            let (width, after_width) = match read_number(s, body) {
                Some(found) => found,
                None => {
                    return None;
                },
            };
            let at_height = match read_literal(s, after_width, ",\"height\":") {
                Some(end) => end,
                None => {
                    return None;
                },
            };
            let (height, after_height) = match read_number(s, at_height) {
                Some(found) => found,
                None => {
                    return None;
                },
            };
            match read_literal(s, after_height, "}}") {
                Some(end) => Some((Operation::Resize { width, height }, end)),
                None => None,
            }
        },
        None => match read_literal(s, at, "\"FlipHorizontally\"") {
            Some(end) => Some((Operation::FlipHorizontally, end)),
            None => match read_literal(s, at, "\"FlipVertically\"") {
                Some(end) => Some((Operation::FlipVertically, end)),
                None => None,
            },
        },
    }
}

fn read_operations(s: &[char], at: usize) -> (r: Option<(Vec<Operation>, usize)>)
    requires
        at <= s.len(),
    ensures
        match r {
            Some((operations, end)) => at <= end <= s.len() && parse_operations(
                s@.skip(at as int),
            ) == Some((operations@, s@.skip(end as int))),
            None => parse_operations(s@.skip(at as int)) is None,
        },
{
    let ghost window = s@.skip(at as int);
    if s.len() - at < 2 || s[at] != '[' {
        assert(at < s.len() ==> window[0] == s@[at as int]);
        return None;
    }
    assert(window[0] == s@[at as int]);
    assert(window[1] == s@[at + 1]);
    let mut operations: Vec<Operation> = Vec::new();
    if s[at + 1] == ']' {
        assert(window.skip(2) =~= s@.skip(at + 2));
        return Some((operations, at + 2));
    }
    assert(window.skip(1) =~= s@.skip(at + 1));
    let ghost items = s@.skip(at + 1);
    let mut i: usize = at + 1;
    loop
        invariant
            at < i <= s.len(),
            items == s@.skip(at + 1),
            parse_operations(s@.skip(at as int)) == parse_items(items),
            parse_items(items) == match parse_items(s@.skip(i as int)) {
                None => None::<(Seq<Operation>, Seq<char>)>,
                Some((more, rest)) => Some((operations@ + more, rest)),
            },
        decreases s.len() - i,
    {
        let ghost here = s@.skip(i as int);
        let (operation, end) = match read_operation(s, i) {
            Some(found) => found,
            None => {
                return None;
            },
        };
        if end <= i || end >= s.len() {
            return None;
        }
        let ghost rest = s@.skip(end as int);
        assert(rest[0] == s@[end as int]);
        assert(rest.skip(1) =~= s@.skip(end + 1));
        let ghost before = operations@;
        if s[end] == ']' {
            operations.push(operation);
            assert(before + seq![operation] =~= operations@);
            return Some((operations, end + 1));
        }
        if s[end] != ',' {
            return None;
        }
        operations.push(operation);
        assert forall|more: Seq<Operation>| before + (seq![operation] + more) == operations@
            + more by {
            assert(before + (seq![operation] + more) =~= operations@ + more);
        }
        i = end + 1;
    }
}

fn read_resize_request(s: &[char], at: usize) -> (r: Option<(Vec<char>, Vec<Operation>, usize)>)
    requires
        at <= s.len(),
    ensures
        match r {
            Some((url, operations, end)) => at <= end <= s.len() && parse_resize_request(
                s@.skip(at as int),
            ) == Some(((url@, operations@), s@.skip(end as int))),
            None => parse_resize_request(s@.skip(at as int)) is None,
        },
{
    let at_url = match read_literal(s, at, "{\"requested_image_url\":") {
        Some(end) => end,
        None => {
            return None;
        },
    };
    let (url, after_url) = match read_json_string(s, at_url) {
        Some(found) => found,
        None => {
            return None;
        },
    };
    let at_operations = match read_literal(s, after_url, ",\"operations\":") {
        Some(end) => end,
        None => {
            return None;
        },
    };
    let (operations, after_operations) = match read_operations(s, at_operations) {
        Some(found) => found,
        None => {
            return None;
        },
    };
    match read_char(s, after_operations, '}') {
        Some(end) => Some((url, operations, end)),
        None => None,
    }
}

fn read_fetch_request(s: &[char], at: usize) -> (r: Option<(Vec<char>, usize)>)
    requires
        at <= s.len(),
    ensures
        match r {
            Some((url, end)) => at <= end <= s.len() && parse_fetch_request(s@.skip(at as int))
                == Some((url@, s@.skip(end as int))),
            None => parse_fetch_request(s@.skip(at as int)) is None,
        },
{
    let at_url = match read_literal(s, at, "{\"requested_image_url\":") {
        Some(end) => end,
        None => {
            return None;
        },
    };
    let (url, after_url) = match read_json_string(s, at_url) {
        Some(found) => found,
        None => {
            return None;
        },
    };
    match read_char(s, after_url, '}') {
        Some(end) => Some((url, end)),
        None => None,
    }
}

fn ends_with_brace(s: &[char], at: usize) -> (b: bool)
    requires
        at <= s.len(),
    ensures
        b == (s@.skip(at as int) == seq!['}']),
{
    let ghost window = s@.skip(at as int);
    assert(window.len() == s.len() - at);
    assert(seq!['}'].len() == 1);
    assert(seq!['}'][0] == '}');
    if s.len() - at == 1 && s[at] == '}' {
        assert(window =~= seq!['}']);
        true
    } else {
        assert(at < s.len() ==> window[0] == s@[at as int]);
        false
    }
}

/// An entry for a transformed image as it is read: its address, its
/// operations and its content type.
pub struct ResizedEntryParts {
    pub url: String,
    pub operations: Vec<Operation>,
    pub content_type: String,
}

/// An entry for the bytes of a source image as it is read: its address and
/// its content type, if it has one.
pub struct FetchedEntryParts {
    pub url: String,
    pub content_type: Option<String>,
}

/// Reads the text of an entry for a transformed image.
pub fn read_resized_entry(text: &str) -> (r: Option<ResizedEntryParts>)
    ensures
        match r {
            Some(parts) => parse_resized_entry(text@) == Some(
                (parts.url@, parts.operations@, parts.content_type@),
            ),
            None => parse_resized_entry(text@) is None,
        },
{
    let chars = chars_of(text);
    let s = chars.as_slice();
    assert(s@.skip(0) =~= text@);
    let at_request = match read_literal(s, 0, "{\"request\":") {
        Some(end) => end,
        None => {
            return None;
        },
    };
    let (url, operations, after_request) = match read_resize_request(s, at_request) {
        Some(found) => found,
        None => {
            return None;
        },
    };
    let at_type = match read_literal(s, after_request, ",\"content_type\":") {
        Some(end) => end,
        None => {
            return None;
        },
    };
    let (content_type, after_type) = match read_json_string(s, at_type) {
        Some(found) => found,
        None => {
            return None;
        },
    };
    if !ends_with_brace(s, after_type) {
        return None;
    }
    Some(
        ResizedEntryParts {
            url: string_of(url.as_slice()),
            operations,
            content_type: string_of(content_type.as_slice()),
        },
    )
}

/// Reads the text of an entry for the bytes of a source image.
pub fn read_fetched_entry(text: &str) -> (r: Option<FetchedEntryParts>)
    ensures
        match r {
            Some(parts) => parse_fetched_entry(text@) == Some(
                (
                    parts.url@,
                    match parts.content_type {
                        Some(t) => Some(t@),
                        None => None,
                    },
                ),
            ),
            None => parse_fetched_entry(text@) is None,
        },
{
    let chars = chars_of(text);
    let s = chars.as_slice();
    assert(s@.skip(0) =~= text@);
    let at_request = match read_literal(s, 0, "{\"request\":") {
        Some(end) => end,
        None => {
            return None;
        },
    };
    let (url, after_request) = match read_fetch_request(s, at_request) {
        Some(found) => found,
        None => {
            return None;
        },
    };
    let at_type = match read_literal(s, after_request, ",\"content_type\":") {
        Some(end) => end,
        None => {
            return None;
        },
    };
    let (content_type, after_type) = match read_literal(s, at_type, "null") {
        Some(end) => (None, end),
        None => match read_json_string(s, at_type) {
            Some((found, end)) => (Some(string_of(found.as_slice())), end),
            None => {
                return None;
            },
        },
    };
    if !ends_with_brace(s, after_type) {
        return None;
    }
    Some(FetchedEntryParts { url: string_of(url.as_slice()), content_type })
}

} // verus!
