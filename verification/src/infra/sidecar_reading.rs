//! Reading the text that is stored next to cached bytes.
//!
//! The text that this crate writes is read by the reader of
//! `canonical_reading`, which gives back what was written. A text that is
//! not canonical may still be JSON for an entry, with its fields in another
//! order, with other spacing or escapes, or with further fields: such a text
//! is looked into with the `serde_json` crate, field by field.

use crate::infra::canonical_reading::{
    parse_fetched_entry, parse_resized_entry, read_fetched_entry, read_resized_entry,
    FetchedEntryParts, ResizedEntryParts,
};
use crate::infra::image_manipulation::Operation;
use crate::text::{decimal, push_decimal, push_str, same_text, string_of};
use vstd::prelude::*;

verus! {

/// What stands at a place in a JSON text, as far as entries are read from
/// it: whether it is `null`, whether it is an object, and what it is as a
/// string, as a whole number from zero up, or as the length of an array.
pub struct JsonFound {
    pub is_null: bool,
    pub is_object: bool,
    pub text: Option<String>,
    pub number: Option<u64>,
    pub length: Option<u64>,
}

/// What a `JsonFound` holds.
pub struct JsonFoundView {
    pub is_null: bool,
    pub is_object: bool,
    pub text: Option<Seq<char>>,
    pub number: Option<u64>,
    pub length: Option<u64>,
}

impl View for JsonFound {
    type V = JsonFoundView;

    open spec fn view(&self) -> JsonFoundView {
        JsonFoundView {
            is_null: self.is_null,
            is_object: self.is_object,
            text: match self.text {
                Some(t) => Some(t@),
                None => None,
            },
            number: self.number,
            length: self.length,
        }
    }
}

/// What stands in a text where a JSON pointer leads, as the `serde_json`
/// crate reads the text; `None` where the text is no JSON or the pointer
/// leads nowhere.
pub uninterp spec fn json_at(text: Seq<char>, pointer: Seq<char>) -> Option<JsonFoundView>;

/// `serde_json::from_str` to a `Value` and `Value::pointer` on it; of the
/// value found `is_null`, `is_object`, `as_str`, `as_u64`, and the length of
/// `as_array`.
///
/// Trusted: what is found is a function of the text and the pointer.
#[verifier::external_body]
fn value_at(text: &str, pointer: &str) -> (found: Option<JsonFound>)
    ensures
        match found {
            Some(value) => json_at(text@, pointer@) == Some(value@),
            None => json_at(text@, pointer@) is None,
        },
{
    let value = serde_json::from_str::<serde_json::Value>(text).ok()?;
    let found = value.pointer(pointer)?;
    Some(
        JsonFound {
            is_null: found.is_null(),
            is_object: found.is_object(),
            text: found.as_str().map(|s| s.to_owned()),
            number: found.as_u64(),
            length: found.as_array().map(|items| items.len() as u64),
        },
    )
}

/// The string that a JSON pointer leads to in a text, if it leads to one.
pub open spec fn json_text_at(text: Seq<char>, pointer: Seq<char>) -> Option<Seq<char>> {
    match json_at(text, pointer) {
        Some(found) => found.text,
        None => None,
    }
}

/// The whole number from zero up that a JSON pointer leads to in a text, if
/// it leads to one that fits in 64 bits.
pub open spec fn json_number_at(text: Seq<char>, pointer: Seq<char>) -> Option<u64> {
    match json_at(text, pointer) {
        Some(found) => found.number,
        None => None,
    }
}

/// The length of the array that a JSON pointer leads to in a text, if it
/// leads to one.
pub open spec fn json_length_at(text: Seq<char>, pointer: Seq<char>) -> Option<u64> {
    match json_at(text, pointer) {
        Some(found) => found.length,
        None => None,
    }
}

fn text_at(text: &str, pointer: &str) -> (found: Option<String>)
    ensures
        match found {
            Some(s) => json_text_at(text@, pointer@) == Some(s@),
            None => json_text_at(text@, pointer@) is None,
        },
{
    match value_at(text, pointer) {
        Some(found) => found.text,
        None => None,
    }
}

fn number_at(text: &str, pointer: &str) -> (found: Option<u64>)
    ensures
        found == json_number_at(text@, pointer@),
{
    match value_at(text, pointer) {
        Some(found) => found.number,
        None => None,
    }
}

fn length_at(text: &str, pointer: &str) -> (found: Option<u64>)
    ensures
        found == json_length_at(text@, pointer@),
{
    match value_at(text, pointer) {
        Some(found) => found.length,
        None => None,
    }
}

/// The pointer to the operation at `index` of a request.
pub open spec fn operation_pointer(index: nat) -> Seq<char> {
    "/request/operations/"@ + decimal(index)
}

/// The operation at `index` of the request in a JSON text: a string that
/// names a flip, or an object whose `Resize` holds a `width` and a `height`
/// that fit in 32 bits.
pub open spec fn json_operation(text: Seq<char>, index: nat) -> Option<Operation> {
    let at = operation_pointer(index);
    match json_at(text, at) {
        None => None,
        Some(found) => if found.text == Some("FlipHorizontally"@) {
            Some(Operation::FlipHorizontally)
        } else if found.text == Some("FlipVertically"@) {
            Some(Operation::FlipVertically)
        } else if found.is_object {
            match (
                json_number_at(text, at + "/Resize/width"@),
                json_number_at(text, at + "/Resize/height"@),
            ) {
                (Some(width), Some(height)) => if width <= u32::MAX && height <= u32::MAX {
                    Some(Operation::Resize { width: width as u32, height: height as u32 })
                } else {
                    None
                },
                _ => None,
            }
        } else {
            None
        },
    }
}

/// The first `count` operations of the request in a JSON text, where each
/// of them is one.
pub open spec fn json_operations(text: Seq<char>, count: nat) -> Option<Seq<Operation>>
    decreases count,
{
    if count == 0 {
        Some(Seq::<Operation>::empty())
    } else {
        match (json_operations(text, (count - 1) as nat), json_operation(text, (count - 1) as nat)) {
            (Some(before), Some(last)) => Some(before.push(last)),
            _ => None,
        }
    }
}

/// The request for a transformed image in a JSON text: the address under
/// `request.requested_image_url` and the operations under
/// `request.operations`.
pub open spec fn json_resize_request(text: Seq<char>) -> Option<(Seq<char>, Seq<Operation>)> {
    match (
        json_text_at(text, "/request/requested_image_url"@),
        json_length_at(text, "/request/operations"@),
    ) {
        (Some(url), Some(count)) => match json_operations(text, count as nat) {
            Some(operations) => Some((url, operations)),
            None => None,
        },
        _ => None,
    }
}

/// The entry for a transformed image in a JSON text: its request, and the
/// string under `content_type`.
pub open spec fn json_resized_entry(text: Seq<char>) -> Option<
    (Seq<char>, Seq<Operation>, Seq<char>),
> {
    match (json_resize_request(text), json_text_at(text, "/content_type"@)) {
        (Some(request), Some(content_type)) => Some((request.0, request.1, content_type)),
        _ => None,
    }
}

/// The content type, if any, in the JSON text of an entry for the bytes of a
/// source image: none where `content_type` is absent or `null`, the string
/// where it is one. `None` where it is anything else.
pub open spec fn json_optional_content_type(text: Seq<char>) -> Option<Option<Seq<char>>> {
    match json_at(text, "/content_type"@) {
        None => Some(None),
        Some(found) => if found.is_null {
            Some(None)
        } else {
            match found.text {
                Some(content_type) => Some(Some(content_type)),
                None => None,
            }
        },
    }
}

/// The entry for the bytes of a source image in a JSON text: the address
/// under `request.requested_image_url`, and the content type, if any.
pub open spec fn json_fetched_entry(text: Seq<char>) -> Option<(Seq<char>, Option<Seq<char>>)> {
    match (
        json_text_at(text, "/request/requested_image_url"@),
        json_optional_content_type(text),
    ) {
        (Some(url), Some(content_type)) => Some((url, content_type)),
        _ => None,
    }
}

/// The entry for a transformed image that a text is read as: the entry
/// that it is the canonical text of, or else the entry that it is JSON for.
pub open spec fn resized_entry_in(text: Seq<char>) -> Option<
    (Seq<char>, Seq<Operation>, Seq<char>),
> {
    match parse_resized_entry(text) {
        Some(entry) => Some(entry),
        None => json_resized_entry(text),
    }
}

/// The entry for the bytes of a source image that a text is read as: the
/// entry that it is the canonical text of, or else the entry that it is JSON
/// for.
pub open spec fn fetched_entry_in(text: Seq<char>) -> Option<(Seq<char>, Option<Seq<char>>)> {
    match parse_fetched_entry(text) {
        Some(entry) => Some(entry),
        None => json_fetched_entry(text),
    }
}

fn pointer_to(index: u64, field: &str) -> (pointer: String)
    ensures
        pointer@ == operation_pointer(index as nat) + field@,
{
    let mut out: Vec<char> = Vec::new();
    push_str(&mut out, "/request/operations/");
    push_decimal(&mut out, index);
    push_str(&mut out, field);
    string_of(out.as_slice())
}

fn read_json_operation(text: &str, index: u64) -> (r: Option<Operation>)
    ensures
        r == json_operation(text@, index as nat),
{
    let at = pointer_to(index, "");
    proof {
        reveal_strlit("");
        assert(at@ =~= operation_pointer(index as nat));
    }
    let found = match value_at(text, at.as_str()) {
        Some(found) => found,
        None => {
            return None;
        },
    };
    let flip = match &found.text {
        Some(name) => if same_text(name.as_str(), "FlipHorizontally") {
            Some(Operation::FlipHorizontally)
        } else if same_text(name.as_str(), "FlipVertically") {
            Some(Operation::FlipVertically)
        } else {
            None
        },
        None => None,
    };
    if flip.is_some() {
        return flip;
    }
    if !found.is_object {
        return None;
    }
    let width_at = pointer_to(index, "/Resize/width");
    let height_at = pointer_to(index, "/Resize/height");
    match (number_at(text, width_at.as_str()), number_at(text, height_at.as_str())) {
        (Some(width), Some(height)) => {
            if width <= 0xffff_ffff && height <= 0xffff_ffff {
                Some(Operation::Resize { width: width as u32, height: height as u32 })
            } else {
                None
            }
        },
        _ => None,
    }
}

fn read_json_operations(text: &str, count: u64) -> (r: Option<Vec<Operation>>)
    ensures
        match r {
            Some(operations) => json_operations(text@, count as nat) == Some(operations@),
            None => json_operations(text@, count as nat) is None,
        },
{
    let mut operations: Vec<Operation> = Vec::new();
    let mut all: bool = true;
    let mut i: u64 = 0;
    while i < count
        invariant
            i <= count,
            all ==> json_operations(text@, i as nat) == Some(operations@),
            !all ==> json_operations(text@, i as nat) is None,
        decreases count - i,
    {
        match read_json_operation(text, i) {
            Some(operation) => {
                if all {
                    operations.push(operation);
                }
            },
            None => {
                all = false;
            },
        }
        i += 1;
    }
    if all {
        Some(operations)
    } else {
        None
    }
}

fn read_json_resized_entry(text: &str) -> (r: Option<ResizedEntryParts>)
    ensures
        match r {
            Some(parts) => json_resized_entry(text@) == Some(
                (parts.url@, parts.operations@, parts.content_type@),
            ),
            None => json_resized_entry(text@) is None,
        },
{
    let url = match text_at(text, "/request/requested_image_url") {
        Some(url) => url,
        None => {
            return None;
        },
    };
    let count = match length_at(text, "/request/operations") {
        Some(count) => count,
        None => {
            return None;
        },
    };
    let operations = match read_json_operations(text, count) {
        Some(operations) => operations,
        None => {
            return None;
        },
    };
    match text_at(text, "/content_type") {
        Some(content_type) => Some(ResizedEntryParts { url, operations, content_type }),
        None => None,
    }
}

fn read_json_fetched_entry(text: &str) -> (r: Option<FetchedEntryParts>)
    ensures
        match r {
            Some(parts) => json_fetched_entry(text@) == Some(
                (
                    parts.url@,
                    match parts.content_type {
                        Some(t) => Some(t@),
                        None => None,
                    },
                ),
            ),
            None => json_fetched_entry(text@) is None,
        },
{
    let url = match text_at(text, "/request/requested_image_url") {
        Some(url) => url,
        None => {
            return None;
        },
    };
    let content_type = match value_at(text, "/content_type") {
        None => None,
        Some(found) => if found.is_null {
            None
        } else {
            match found.text {
                Some(content_type) => Some(content_type),
                None => {
                    return None;
                },
            }
        },
    };
    Some(FetchedEntryParts { url, content_type })
}

/// Reads the entry for a transformed image out of the text that is stored
/// with it.
pub fn read_resized_sidecar(text: &str) -> (r: Option<ResizedEntryParts>)
    ensures
        match r {
            Some(parts) => resized_entry_in(text@) == Some(
                (parts.url@, parts.operations@, parts.content_type@),
            ),
            None => resized_entry_in(text@) is None,
        },
{
    match read_resized_entry(text) {
        Some(parts) => Some(parts),
        None => read_json_resized_entry(text),
    }
}

/// Reads the entry for the bytes of a source image out of the text that is
/// stored with it.
pub fn read_fetched_sidecar(text: &str) -> (r: Option<FetchedEntryParts>)
    ensures
        match r {
            Some(parts) => fetched_entry_in(text@) == Some(
                (
                    parts.url@,
                    match parts.content_type {
                        Some(t) => Some(t@),
                        None => None,
                    },
                ),
            ),
            None => fetched_entry_in(text@) is None,
        },
{
    match read_fetched_entry(text) {
        Some(parts) => Some(parts),
        None => read_json_fetched_entry(text),
    }
}

} // verus!
