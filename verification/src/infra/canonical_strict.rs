//! The reader of canonical text is strict: what it reads is canonical.
//!
//! `canonical_reading` shows that the reader gives back what the writer
//! wrote. Here the converse is shown: a text that this reader takes for an
//! entry is, character for character, the text that the writer writes for
//! that entry. This reader therefore reads a text exactly when it is
//! canonical; other spellings of an entry are the business of
//! `sidecar_reading`.

use crate::infra::canonical::{
    escaped, fetch_request_json, fetched_entry_json, hex_char, json_string, json_text,
    operation_json, operations_items, operations_json, resize_request_json, resized_entry_json,
};
use crate::infra::canonical_reading::{
    has_long_escape, hex_value, leading_digits, lemma_json_text_concat,
    lemma_operations_items_first, lemma_parse_fetched_entry, lemma_parse_resized_entry,
    numeral_value, parse_fetch_request, parse_fetched_entry, parse_items, parse_json_string,
    parse_json_text, parse_number, parse_operation, parse_operations, parse_optional_string,
    parse_resize_request, parse_resized_entry, strip_literal, unescaped_head,
};
use crate::infra::image_manipulation::Operation;
use crate::text::{decimal, digit_char, digit_value};
use vstd::prelude::*;

verus! {

/// A text from which a literal was taken off begins with that literal.
pub proof fn lemma_strip_literal_strict(s: Seq<char>, literal: Seq<char>)
    requires
        strip_literal(s, literal) is Some,
    ensures
        s == literal + strip_literal(s, literal)->0,
        strip_literal(s, literal)->0.len() == s.len() - literal.len(),
{
    assert(s =~= literal + s.skip(literal.len() as int));
}

/// A character that is read at the head of a text is written as the
/// characters it was read from.
pub proof fn lemma_unescaped_head_strict(s: Seq<char>)
    requires
        unescaped_head(s) is Some,
    ensures
        ({
            let (c, n) = unescaped_head(s)->0;
            &&& 1 <= n <= s.len()
            &&& s.take(n) == escaped(c)
        }),
{
    let (c, n) = unescaped_head(s)->0;
    if s[0] == '\\' {
        if s[1] == 'u' {
            let high = hex_value(s[4])->0;
            let low = hex_value(s[5])->0;
            let code = 16 * high + low;
            assert(0 <= high < 16 && 0 <= low < 16);
            assert(has_long_escape(code));
            assert(hex_char(high) == s[4]);
            assert(hex_char(low) == s[5]);
            assert(c == code as char);
            assert((c as u32) as int == code);
            assert(code / 16 == high && code % 16 == low);
            assert(s.take(6) =~= seq!['\\', 'u', '0', '0', hex_char(high), hex_char(low)]);
        } else {
            assert(s.take(2) =~= seq!['\\', s[1]]);
        }
    } else {
        assert(s.take(1) =~= seq![s[0]]);
    }
}

/// The inside of a JSON string that is read is the escaped form of the text
/// read, followed by the closing quote.
pub proof fn lemma_parse_json_text_strict(s: Seq<char>)
    requires
        parse_json_text(s) is Some,
    ensures
        ({
            let (text, rest) = parse_json_text(s)->0;
            s == json_text(text) + seq!['"'] + rest
        }),
    decreases s.len(),
{
    let (text, rest) = parse_json_text(s)->0;
    if s[0] == '"' {
        assert(json_text(text) =~= Seq::<char>::empty());
        assert(s =~= seq!['"'] + s.skip(1));
    } else {
        let (c, n) = unescaped_head(s)->0;
        lemma_unescaped_head_strict(s);
        let (tail, end) = parse_json_text(s.skip(n))->0;
        lemma_parse_json_text_strict(s.skip(n));
        assert(text == seq![c] + tail);
        lemma_json_text_concat(seq![c], tail);
        assert(seq![c].drop_last() =~= Seq::<char>::empty());
        assert(json_text(Seq::<char>::empty()) =~= Seq::<char>::empty());
        assert(json_text(seq![c]) =~= json_text(seq![c].drop_last()) + escaped(seq![c].last()));
        assert(json_text(seq![c]) =~= escaped(c));
        assert(s =~= s.take(n) + s.skip(n));
        assert(s =~= json_text(text) + seq!['"'] + rest);
    }
}

/// A JSON string that is read is the writer's spelling of the text read.
pub proof fn lemma_parse_json_string_strict(s: Seq<char>)
    requires
        parse_json_string(s) is Some,
    ensures
        ({
            let (text, rest) = parse_json_string(s)->0;
            s == json_string(text) + rest
        }),
{
    let (text, rest) = parse_json_string(s)->0;
    lemma_parse_json_text_strict(s.skip(1));
    assert(s =~= seq!['"'] + s.skip(1));
    assert(s =~= json_string(text) + rest);
}

/// The digits that are counted at the head of a text are digits.
pub proof fn lemma_leading_digits_strict(s: Seq<char>)
    ensures
        0 <= leading_digits(s) <= s.len(),
        forall|i: int| 0 <= i < leading_digits(s) ==> digit_value(#[trigger] s[i]) is Some,
    decreases s.len(),
{
    if s.len() > 0 && digit_value(s[0]) is Some {
        lemma_leading_digits_strict(s.skip(1));
        assert forall|i: int| 0 <= i < leading_digits(s) implies digit_value(
            #[trigger] s[i],
        ) is Some by {
            if i > 0 {
                assert(s[i] == s.skip(1)[i - 1]);
            }
        }
    }
}

/// A run of digits without a needless leading zero is the numeral of its
/// value.
pub proof fn lemma_numeral_strict(digits: Seq<char>)
    requires
        digits.len() >= 1,
        forall|i: int| 0 <= i < digits.len() ==> digit_value(#[trigger] digits[i]) is Some,
        digits.len() == 1 || digits[0] != '0',
    ensures
        numeral_value(digits) >= 0,
        digits[0] != '0' ==> numeral_value(digits) >= 1,
        decimal(numeral_value(digits) as nat) == digits,
    decreases digits.len(),
{
    let last = digits.last();
    let init = digits.drop_last();
    let d = digit_value(last)->0;
    assert(digit_char(d) == last);
    assert(0 <= d <= 9);
    if digits.len() == 1 {
        assert(init =~= Seq::<char>::empty());
        assert(numeral_value(init) == 0);
        assert(numeral_value(digits) == d);
        assert(digits =~= seq![last]);
    } else {
        assert(init[0] == digits[0]);
        assert forall|i: int| 0 <= i < init.len() implies digit_value(#[trigger] init[i]) is Some by {
            assert(init[i] == digits[i]);
        }
        lemma_numeral_strict(init);
        let value = numeral_value(digits);
        assert(value == numeral_value(init) * 10 + d);
        assert(value >= 10);
        assert(value / 10 == numeral_value(init));
        assert(value % 10 == d);
        assert(decimal(value as nat) == decimal((value / 10) as nat).push(
            digit_char((value as nat % 10) as int),
        ));
        assert(digits =~= init.push(last));
    }
}

/// A number that is read is written as the digits it was read from.
pub proof fn lemma_parse_number_strict(s: Seq<char>)
    requires
        parse_number(s) is Some,
    ensures
        ({
            let (value, rest) = parse_number(s)->0;
            &&& s == decimal(value as nat) + rest
            &&& rest.len() < s.len()
        }),
{
    let n = leading_digits(s);
    lemma_leading_digits_strict(s);
    let digits = s.take(n);
    assert forall|i: int| 0 <= i < digits.len() implies digit_value(#[trigger] digits[i]) is Some by {
        assert(digits[i] == s[i]);
    }
    assert(digits[0] == s[0]);
    lemma_numeral_strict(digits);
    assert(s =~= digits + s.skip(n));
}

/// An operation that is read is the writer's spelling of it.
pub proof fn lemma_parse_operation_strict(s: Seq<char>)
    requires
        parse_operation(s) is Some,
    ensures
        ({
            let (operation, rest) = parse_operation(s)->0;
            &&& s == operation_json(operation) + rest
            &&& rest.len() < s.len()
        }),
{
    reveal(parse_operation);
    reveal_strlit("{\"Resize\":{\"width\":");
    reveal_strlit(",\"height\":");
    reveal_strlit("}}");
    reveal_strlit("\"FlipHorizontally\"");
    reveal_strlit("\"FlipVertically\"");
    let open = "{\"Resize\":{\"width\":"@;
    match strip_literal(s, open) {
        Some(body) => {
            lemma_strip_literal_strict(s, open);
            let (width, after_width) = parse_number(body)->0;
            lemma_parse_number_strict(body);
            let at_height = strip_literal(after_width, ",\"height\":"@)->0;
            lemma_strip_literal_strict(after_width, ",\"height\":"@);
            let (height, after_height) = parse_number(at_height)->0;
            lemma_parse_number_strict(at_height);
            let rest = strip_literal(after_height, "}}"@)->0;
            lemma_strip_literal_strict(after_height, "}}"@);
            assert(s =~= operation_json(Operation::Resize { width, height }) + rest);
        },
        None => match strip_literal(s, "\"FlipHorizontally\""@) {
            Some(rest) => {
                lemma_strip_literal_strict(s, "\"FlipHorizontally\""@);
            },
            None => {
                lemma_strip_literal_strict(s, "\"FlipVertically\""@);
            },
        },
    }
}

/// The operations that are read up to the closing bracket are written as
/// they were read, with commas between them.
pub proof fn lemma_parse_items_strict(s: Seq<char>)
    requires
        parse_items(s) is Some,
    ensures
        ({
            let (operations, rest) = parse_items(s)->0;
            &&& operations.len() >= 1
            &&& s == operations_items(operations) + seq![']'] + rest
        }),
    decreases s.len(),
{
    let (operations, rest) = parse_items(s)->0;
    let (first, after) = parse_operation(s)->0;
    lemma_parse_operation_strict(s);
    if after[0] == ']' {
        assert(operations =~= seq![first]);
        assert(operations_items(operations) == operation_json(first));
        assert(after =~= seq![']'] + after.skip(1));
        assert(s =~= operations_items(operations) + seq![']'] + rest);
    } else {
        let (tail, end) = parse_items(after.skip(1))->0;
        lemma_parse_items_strict(after.skip(1));
        assert(operations == seq![first] + tail);
        assert(operations.drop_first() =~= tail);
        assert(operations[0] == first);
        lemma_operations_items_first(operations);
        assert(after =~= seq![','] + after.skip(1));
        assert(s =~= operations_items(operations) + seq![']'] + rest);
    }
}

/// An array of operations that is read is the writer's spelling of it.
pub proof fn lemma_parse_operations_strict(s: Seq<char>)
    requires
        parse_operations(s) is Some,
    ensures
        ({
            let (operations, rest) = parse_operations(s)->0;
            s == operations_json(operations) + rest
        }),
{
    let (operations, rest) = parse_operations(s)->0;
    if s[1] == ']' {
        assert(operations_items(operations) =~= Seq::<char>::empty());
        assert(s =~= seq!['[', ']'] + s.skip(2));
        assert(s =~= operations_json(operations) + rest);
    } else {
        lemma_parse_items_strict(s.skip(1));
        assert(s =~= seq!['['] + s.skip(1));
        assert(s =~= operations_json(operations) + rest);
    }
}

/// A request for a transformed image that is read is the canonical text of
/// that request.
pub proof fn lemma_parse_resize_request_strict(s: Seq<char>)
    requires
        parse_resize_request(s) is Some,
    ensures
        ({
            let ((url, operations), rest) = parse_resize_request(s)->0;
            s == resize_request_json(url, operations) + rest
        }),
{
    let open = "{\"requested_image_url\":"@;
    let middle = ",\"operations\":"@;
    let ((url, operations), rest) = parse_resize_request(s)->0;
    let at_url = strip_literal(s, open)->0;
    lemma_strip_literal_strict(s, open);
    let (_, after_url) = parse_json_string(at_url)->0;
    lemma_parse_json_string_strict(at_url);
    let at_operations = strip_literal(after_url, middle)->0;
    lemma_strip_literal_strict(after_url, middle);
    let (_, after_operations) = parse_operations(at_operations)->0;
    lemma_parse_operations_strict(at_operations);
    lemma_strip_literal_strict(after_operations, seq!['}']);
    assert(s =~= resize_request_json(url, operations) + rest);
}

/// A request for the bytes of a source image that is read is the canonical
/// text of that request.
pub proof fn lemma_parse_fetch_request_strict(s: Seq<char>)
    requires
        parse_fetch_request(s) is Some,
    ensures
        ({
            let (url, rest) = parse_fetch_request(s)->0;
            s == fetch_request_json(url) + rest
        }),
{
    let open = "{\"requested_image_url\":"@;
    let (url, rest) = parse_fetch_request(s)->0;
    let at_url = strip_literal(s, open)->0;
    lemma_strip_literal_strict(s, open);
    let (_, after_url) = parse_json_string(at_url)->0;
    lemma_parse_json_string_strict(at_url);
    lemma_strip_literal_strict(after_url, seq!['}']);
    assert(s =~= fetch_request_json(url) + rest);
}

/// A text is read as an entry for a transformed image exactly when it is
/// the canonical text of that entry.
pub proof fn lemma_resized_entry_read_iff_canonical(
    s: Seq<char>,
    url: Seq<char>,
    operations: Seq<Operation>,
    content_type: Seq<char>,
)
    ensures
        parse_resized_entry(s) == Some((url, operations, content_type)) <==> s
            == resized_entry_json(url, operations, content_type),
{
    lemma_parse_resized_entry(url, operations, content_type);
    if parse_resized_entry(s) == Some((url, operations, content_type)) {
        let open = "{\"request\":"@;
        let middle = ",\"content_type\":"@;
        let at_request = strip_literal(s, open)->0;
        lemma_strip_literal_strict(s, open);
        let (_, after_request) = parse_resize_request(at_request)->0;
        lemma_parse_resize_request_strict(at_request);
        let at_type = strip_literal(after_request, middle)->0;
        lemma_strip_literal_strict(after_request, middle);
        lemma_parse_json_string_strict(at_type);
        assert(s =~= resized_entry_json(url, operations, content_type));
    }
}

/// A text is read as an entry for the bytes of a source image exactly when
/// it is the canonical text of that entry.
pub proof fn lemma_fetched_entry_read_iff_canonical(
    s: Seq<char>,
    url: Seq<char>,
    content_type: Option<Seq<char>>,
)
    ensures
        parse_fetched_entry(s) == Some((url, content_type)) <==> s == fetched_entry_json(
            url,
            content_type,
        ),
{
    lemma_parse_fetched_entry(url, content_type);
    if parse_fetched_entry(s) == Some((url, content_type)) {
        let open = "{\"request\":"@;
        let middle = ",\"content_type\":"@;
        let at_request = strip_literal(s, open)->0;
        lemma_strip_literal_strict(s, open);
        let (_, after_request) = parse_fetch_request(at_request)->0;
        lemma_parse_fetch_request_strict(at_request);
        let at_type = strip_literal(after_request, middle)->0;
        lemma_strip_literal_strict(after_request, middle);
        match strip_literal(at_type, "null"@) {
            Some(rest) => {
                lemma_strip_literal_strict(at_type, "null"@);
            },
            None => {
                lemma_parse_json_string_strict(at_type);
            },
        }
        assert(parse_optional_string(at_type) is Some);
        assert(s =~= fetched_entry_json(url, content_type));
    }
}

} // verus!
