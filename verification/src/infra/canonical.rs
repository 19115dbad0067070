//! The canonical text of cache requests and cache entries.
//!
//! A request is written as compact JSON with its fields in a fixed order.
//! Equal requests have the same text and different requests have different
//! texts, so a digest of the text can serve as a cache key. The same text is
//! what an entry is stored under next to the cached bytes.

use crate::infra::image_manipulation::Operation;
use crate::text::{decimal, push_decimal, push_str};
use vstd::prelude::*;

verus! {

/// The character that stands for a hexadecimal digit, in lower case.
pub open spec fn hex_char(d: int) -> char {
    if d == 0 {
        '0'
    } else if d == 1 {
        '1'
    } else if d == 2 {
        '2'
    } else if d == 3 {
        '3'
    } else if d == 4 {
        '4'
    } else if d == 5 {
        '5'
    } else if d == 6 {
        '6'
    } else if d == 7 {
        '7'
    } else if d == 8 {
        '8'
    } else if d == 9 {
        '9'
    } else if d == 10 {
        'a'
    } else if d == 11 {
        'b'
    } else if d == 12 {
        'c'
    } else if d == 13 {
        'd'
    } else if d == 14 {
        'e'
    } else {
        'f'
    }
}

/// How one character is written inside a JSON string: the quote, the
/// backslash and the control characters are escaped, every other character
/// stands for itself.
pub open spec fn escaped(c: char) -> Seq<char> {
    if c == '"' {
        seq!['\\', '"']
    } else if c == '\\' {
        seq!['\\', '\\']
    } else if c == '\u{8}' {
        seq!['\\', 'b']
    } else if c == '\u{c}' {
        seq!['\\', 'f']
    } else if c == '\n' {
        seq!['\\', 'n']
    } else if c == '\r' {
        seq!['\\', 'r']
    } else if c == '\t' {
        seq!['\\', 't']
    } else if (c as u32) < 0x20 {
        seq!['\\', 'u', '0', '0', hex_char((c as u32) as int / 16), hex_char((c as u32) as int % 16)]
    } else {
        seq![c]
    }
}

/// The characters of a text as they are written inside a JSON string.
pub open spec fn json_text(s: Seq<char>) -> Seq<char>
    decreases s.len(),
{
    if s.len() == 0 {
        Seq::<char>::empty()
    } else {
        json_text(s.drop_last()) + escaped(s.last())
    }
}

/// A text as a JSON string, between quotes.
pub open spec fn json_string(s: Seq<char>) -> Seq<char> {
    seq!['"'] + json_text(s) + seq!['"']
}

/// One operation as JSON.
pub open spec fn operation_json(operation: Operation) -> Seq<char> {
    match operation {
        Operation::Resize { width, height } => "{\"Resize\":{\"width\":"@ + decimal(width as nat)
            + ",\"height\":"@ + decimal(height as nat) + "}}"@,
        Operation::FlipHorizontally => "\"FlipHorizontally\""@,
        Operation::FlipVertically => "\"FlipVertically\""@,
    }
}

/// The operations of a list as JSON, with commas between them.
pub open spec fn operations_items(operations: Seq<Operation>) -> Seq<char>
    decreases operations.len(),
{
    if operations.len() == 0 {
        Seq::<char>::empty()
    } else if operations.len() == 1 {
        operation_json(operations[0])
    } else {
        operations_items(operations.drop_last()) + seq![','] + operation_json(operations.last())
    }
}

/// A list of operations as a JSON array.
pub open spec fn operations_json(operations: Seq<Operation>) -> Seq<char> {
    seq!['['] + operations_items(operations) + seq![']']
}

/// The canonical text of a request for a transformed image.
pub open spec fn resize_request_json(url: Seq<char>, operations: Seq<Operation>) -> Seq<char> {
    "{\"requested_image_url\":"@ + json_string(url) + ",\"operations\":"@ + operations_json(
        operations,
    ) + seq!['}']
}

/// The canonical text of a request for the bytes of a source image.
pub open spec fn fetch_request_json(url: Seq<char>) -> Seq<char> {
    "{\"requested_image_url\":"@ + json_string(url) + seq!['}']
}

/// The canonical text of the entry for a transformed image.
pub open spec fn resized_entry_json(
    url: Seq<char>,
    operations: Seq<Operation>,
    content_type: Seq<char>,
) -> Seq<char> {
    "{\"request\":"@ + resize_request_json(url, operations) + ",\"content_type\":"@ + json_string(
        content_type,
    ) + seq!['}']
}

/// An optional text as JSON: the string, or `null`.
pub open spec fn optional_json_string(text: Option<Seq<char>>) -> Seq<char> {
    match text {
        Some(t) => json_string(t),
        None => "null"@,
    }
}

/// The canonical text of the entry for the bytes of a source image.
pub open spec fn fetched_entry_json(url: Seq<char>, content_type: Option<Seq<char>>) -> Seq<char> {
    "{\"request\":"@ + fetch_request_json(url) + ",\"content_type\":"@ + optional_json_string(
        content_type,
    ) + seq!['}']
}

fn hex_digit_char(d: u32) -> (c: char)
    requires
        d < 16,
    ensures
        c == hex_char(d as int),
{
    if d == 0 {
        '0'
    } else if d == 1 {
        '1'
    } else if d == 2 {
        '2'
    } else if d == 3 {
        '3'
    } else if d == 4 {
        '4'
    } else if d == 5 {
        '5'
    } else if d == 6 {
        '6'
    } else if d == 7 {
        '7'
    } else if d == 8 {
        '8'
    } else if d == 9 {
        '9'
    } else if d == 10 {
        'a'
    } else if d == 11 {
        'b'
    } else if d == 12 {
        'c'
    } else if d == 13 {
        'd'
    } else if d == 14 {
        'e'
    } else {
        'f'
    }
}

fn push_escaped(out: &mut Vec<char>, c: char)
    ensures
        final(out)@ == old(out)@ + escaped(c),
{
    let code: u32 = c as u32;
    if c == '"' {
        out.push('\\');
        out.push('"');
    } else if c == '\\' {
        out.push('\\');
        out.push('\\');
    } else if c == '\u{8}' {
        out.push('\\');
        out.push('b');
    } else if c == '\u{c}' {
        out.push('\\');
        out.push('f');
    } else if c == '\n' {
        out.push('\\');
        out.push('n');
    } else if c == '\r' {
        out.push('\\');
        out.push('r');
    } else if c == '\t' {
        out.push('\\');
        out.push('t');
    } else if code < 0x20 {
        out.push('\\');
        out.push('u');
        out.push('0');
        out.push('0');
        out.push(hex_digit_char(code / 16));
        out.push(hex_digit_char(code % 16));
    } else {
        out.push(c);
    }
    assert(out@ =~= old(out)@ + escaped(c));
}

/// Appends `text` as a JSON string.
pub fn push_json_string(out: &mut Vec<char>, text: &str)
    ensures
        final(out)@ == old(out)@ + json_string(text@),
{
    let ghost before = out@;
    out.push('"');
    for c in it: text.chars()
        invariant
            it.seq() == text@,
            out@ == before + seq!['"'] + json_text(text@.take(it.index() as int)),
    {
        let ghost done = text@.take(it.index() as int);
        let ghost next = text@.take(it.index() + 1);
        assert(next.drop_last() =~= done);
        assert(next.last() == c);
        push_escaped(out, c);
        assert(out@ =~= before + seq!['"'] + json_text(next));
    }
    assert(text@.take(text@.len() as int) =~= text@);
    out.push('"');
    assert(out@ =~= before + json_string(text@));
}

fn push_operation(out: &mut Vec<char>, operation: &Operation)
    ensures
        final(out)@ == old(out)@ + operation_json(*operation),
{
    match *operation {
        Operation::Resize { width, height } => {
            push_str(out, "{\"Resize\":{\"width\":");
            push_decimal(out, width as u64);
            push_str(out, ",\"height\":");
            push_decimal(out, height as u64);
            push_str(out, "}}");
        },
        Operation::FlipHorizontally => {
            push_str(out, "\"FlipHorizontally\"");
        },
        Operation::FlipVertically => {
            push_str(out, "\"FlipVertically\"");
        },
    }
    assert(out@ =~= old(out)@ + operation_json(*operation));
}

/// Appends a list of operations as a JSON array.
pub fn push_operations(out: &mut Vec<char>, operations: &Vec<Operation>)
    ensures
        final(out)@ == old(out)@ + operations_json(operations@),
{
    let ghost before = out@;
    out.push('[');
    let mut i: usize = 0;
    assert(operations@.take(0) =~= Seq::<Operation>::empty());
    while i < operations.len()
        invariant
            i <= operations.len(),
            out@ == before + seq!['['] + operations_items(operations@.take(i as int)),
        decreases operations.len() - i,
    {
        let ghost done = operations@.take(i as int);
        let ghost next = operations@.take(i + 1);
        assert(next.drop_last() =~= done);
        assert(next.last() == operations@[i as int]);
        if i > 0 {
            out.push(',');
        }
        push_operation(out, &operations[i]);
        assert(out@ =~= before + seq!['['] + operations_items(next));
        i += 1;
    }
    assert(operations@.take(i as int) =~= operations@);
    out.push(']');
    assert(out@ =~= before + operations_json(operations@));
}

/// Appends the canonical text of a request for a transformed image.
pub fn push_resize_request(out: &mut Vec<char>, url: &str, operations: &Vec<Operation>)
    ensures
        final(out)@ == old(out)@ + resize_request_json(url@, operations@),
{
    push_str(out, "{\"requested_image_url\":");
    push_json_string(out, url);
    push_str(out, ",\"operations\":");
    push_operations(out, operations);
    out.push('}');
    assert(out@ =~= old(out)@ + resize_request_json(url@, operations@));
}

/// Appends the canonical text of a request for the bytes of a source image.
pub fn push_fetch_request(out: &mut Vec<char>, url: &str)
    ensures
        final(out)@ == old(out)@ + fetch_request_json(url@),
{
    push_str(out, "{\"requested_image_url\":");
    push_json_string(out, url);
    out.push('}');
    assert(out@ =~= old(out)@ + fetch_request_json(url@));
}

} // verus!
