//! What a request carries in its path.

use crate::text::{
    chars_of, find_char_from, first_index, first_index_from, lemma_first_index_from,
    lemma_signed_decimal_reads_back, number_error_text, parse_i32, push_signed_decimal, read_i32,
    signed_decimal, string_of, NumberError,
};
use vstd::prelude::*;

verus! {

/// The signature segment of a request path.
pub struct Signature(pub String);

/// The size segment of a request path: a signed width and a signed height
/// with an `x` between them. A negative value asks for a flip on its axis.
#[derive(Clone, Copy, Debug, PartialEq, Eq, Structural)]
pub struct ImageResizePathParam {
    pub target_width: i32,
    pub target_height: i32,
}

/// Why a size segment cannot be read.
#[derive(Clone, Copy, Debug, PartialEq, Eq, Structural)]
pub enum ResizeParamError {
    /// The segment does not hold exactly one `x`.
    Shape,
    /// The width, or else the height, is no 32-bit number.
    Number(NumberError),
}

/// The sentence that describes an unreadable size segment.
pub open spec fn resize_param_error_text(e: ResizeParamError) -> Seq<char> {
    match e {
        ResizeParamError::Shape => "A string with two numbers and an x in between"@,
        ResizeParamError::Number(n) => number_error_text(n),
    }
}

impl ResizeParamError {
    /// A sentence that describes the error.
    pub fn message(&self) -> (s: String)
        ensures
            s@ == resize_param_error_text(*self),
    {
        match self {
            ResizeParamError::Shape => "A string with two numbers and an x in between".to_owned(),
            ResizeParamError::Number(n) => n.message(),
        }
    }
}

/// The size that a segment stands for. The segment holds exactly one `x`;
/// what stands before it is the width, what stands behind it the height. A
/// width that cannot be read is reported before the height is looked at.
pub open spec fn parse_resize_param(s: Seq<char>) -> Result<ImageResizePathParam, ResizeParamError> {
    match first_index(s, 'x') {
        None => Err(ResizeParamError::Shape),
        Some(i) => if first_index_from(s, 'x', i + 1) is Some {
            Err(ResizeParamError::Shape)
        } else {
            match parse_i32(s.take(i)) {
                Err(e) => Err(ResizeParamError::Number(e)),
                Ok(width) => match parse_i32(s.skip(i + 1)) {
                    Err(e) => Err(ResizeParamError::Number(e)),
                    Ok(height) => Ok(
                        ImageResizePathParam {
                            target_width: width as i32,
                            target_height: height as i32,
                        },
                    ),
                },
            }
        },
    }
}

/// The segment that a size is written as.
pub open spec fn resize_param_text(param: ImageResizePathParam) -> Seq<char> {
    signed_decimal(param.target_width as int) + seq!['x'] + signed_decimal(
        param.target_height as int,
    )
}

/// A size that is written as a segment is read back from it.
pub proof fn lemma_size_segment_reads_back(param: ImageResizePathParam)
    ensures
        parse_resize_param(resize_param_text(param)) == Ok::<
            ImageResizePathParam,
            ResizeParamError,
        >(param),
{
    let width = signed_decimal(param.target_width as int);
    let height = signed_decimal(param.target_height as int);
    let s = resize_param_text(param);
    let split = width.len() as int;
    lemma_signed_decimal_reads_back(param.target_width as int);
    lemma_signed_decimal_reads_back(param.target_height as int);
    assert(s[split] == 'x');
    assert forall|k: int| 0 <= k < split implies s[k] != 'x' by {
        assert(s[k] == width[k]);
    }
    assert forall|k: int| split < k < s.len() implies s[k] != 'x' by {
        assert(s[k] == height[k - split - 1]);
    }
    lemma_first_index_from(s, 'x', 0);
    lemma_first_index_from(s, 'x', split + 1);
    assert(first_index(s, 'x') == Some(split));
    assert(s.take(split) =~= width);
    assert(s.skip(split + 1) =~= height);
}

impl ImageResizePathParam {
    /// Reads a size segment.
    pub fn from_str(s: &str) -> (r: Result<ImageResizePathParam, ResizeParamError>)
        ensures
            r == parse_resize_param(s@),
    {
        let chars = chars_of(s);
        let split = match find_char_from(chars.as_slice(), 'x', 0) {
            None => {
                return Err(ResizeParamError::Shape);
            },
            Some(i) => i,
        };
        if find_char_from(chars.as_slice(), 'x', split + 1).is_some() {
            return Err(ResizeParamError::Shape);
        }
        let head = vstd::slice::slice_subrange(chars.as_slice(), 0, split);
        let tail = vstd::slice::slice_subrange(chars.as_slice(), split + 1, chars.len());
        assert(head@ =~= s@.take(split as int));
        assert(tail@ =~= s@.skip(split + 1));
        let width = match read_i32(head) {
            Err(e) => {
                return Err(ResizeParamError::Number(e));
            },
            Ok(v) => v,
        };
        let height = match read_i32(tail) {
            Err(e) => {
                return Err(ResizeParamError::Number(e));
            },
            Ok(v) => v,
        };
        Ok(ImageResizePathParam { target_width: width, target_height: height })
    }

    /// Writes the size as a path segment.
    pub fn to_segment(&self) -> (s: String)
        ensures
            s@ == resize_param_text(*self),
    {
        let mut out: Vec<char> = Vec::new();
        push_signed_decimal(&mut out, self.target_width);
        out.push('x');
        push_signed_decimal(&mut out, self.target_height);
        assert(out@ =~= resize_param_text(*self));
        string_of(out.as_slice())
    }
}

} // verus!
