//! Checks of what a request asks for, and of what an origin sends, against
//! the configured limits. Every limit that is broken is reported, not only
//! the first.

use crate::infra::config::ValidationSettings;
use crate::infra::image_manipulation::{Operation, Operations};
use crate::infra::images::DecodedImage;
use crate::text::{decimal, push_decimal, push_str, string_of};
use vstd::prelude::*;

verus! {

/// The problems found by a check, one sentence each, in the order found.
pub struct ValidationErrors(pub Vec<String>);

impl View for ValidationErrors {
    type V = Seq<Seq<char>>;

    open spec fn view(&self) -> Seq<Seq<char>> {
        texts(self.0@)
    }
}

/// The characters of each of a list of strings.
pub open spec fn texts(strings: Seq<String>) -> Seq<Seq<char>> {
    strings.map_values(|s: String| s@)
}

/// The sentence for a pixel dimension over its limit.
pub open spec fn pixel_problem(subject: Seq<char>, value: u32, limit: u32) -> Seq<char> {
    subject + " ["@ + decimal(value as nat) + "] too large, must be ["@ + decimal(limit as nat)
        + "] or lower"@
}

/// The sentence for a size in bytes over its limit, with the size and the
/// limit as they are shown.
pub open spec fn byte_problem(subject: Seq<char>, shown: Seq<char>, limit: Seq<char>) -> Seq<char> {
    subject + " ["@ + shown + "] is too large, must be ["@ + limit + "] or lower"@
}

/// The problems with one operation: a resize over the limit on its width,
/// then one over the limit on its height. A flip has none.
pub open spec fn operation_problems(settings: ValidationSettings, operation: Operation) -> Seq<
    Seq<char>,
> {
    match operation {
        Operation::Resize { width, height } => {
            let wide = if width > settings.max_resize_target_width {
                seq![pixel_problem("Resize target width"@, width, settings.max_resize_target_width)]
            } else {
                Seq::<Seq<char>>::empty()
            };
            let high = if height > settings.max_resize_target_height {
                seq![
                    pixel_problem("Resize target height"@, height, settings.max_resize_target_height),
                ]
            } else {
                Seq::<Seq<char>>::empty()
            };
            wide + high
        },
        Operation::FlipHorizontally => Seq::<Seq<char>>::empty(),
        Operation::FlipVertically => Seq::<Seq<char>>::empty(),
    }
}

/// The problems with a list of operations, operation by operation.
pub open spec fn operations_problems(settings: ValidationSettings, operations: Seq<Operation>) -> Seq<
    Seq<char>,
>
    decreases operations.len(),
{
    if operations.len() == 0 {
        Seq::<Seq<char>>::empty()
    } else {
        operations_problems(settings, operations.drop_last()) + operation_problems(
            settings,
            operations.last(),
        )
    }
}

/// The problems with the dimensions of a source image: its width over the
/// limit, then its height over the limit.
pub open spec fn source_image_problems(settings: ValidationSettings, width: u32, height: u32) -> Seq<
    Seq<char>,
> {
    let wide = if width > settings.max_source_image_width {
        seq![pixel_problem("Source image width"@, width, settings.max_source_image_width)]
    } else {
        Seq::<Seq<char>>::empty()
    };
    let high = if height > settings.max_source_image_height {
        seq![pixel_problem("Source image height"@, height, settings.max_source_image_height)]
    } else {
        Seq::<Seq<char>>::empty()
    };
    wide + high
}

/// A sentence about a pixel dimension begins with its subject.
pub proof fn lemma_pixel_problem_begins_with_subject(subject: Seq<char>, value: u32, limit: u32)
    ensures
        subject.is_prefix_of(pixel_problem(subject, value, limit)),
{
    let sentence = pixel_problem(subject, value, limit);
    assert(sentence.subrange(0, subject.len() as int) =~= subject);
}

/// A resize over the limit on its width gives a sentence that begins with
/// `Resize target width`, one over the limit on its height a sentence that
/// begins with `Resize target height`. A resize over both limits gives both
/// sentences, the one on the width first; a resize within the limits gives
/// none.
pub proof fn lemma_resize_problems(settings: ValidationSettings, width: u32, height: u32)
    ensures
        ({
            let problems = operation_problems(settings, Operation::Resize { width, height });
            let wide = width > settings.max_resize_target_width;
            let high = height > settings.max_resize_target_height;
            &&& problems.len() == (if wide {
                1int
            } else {
                0int
            }) + (if high {
                1int
            } else {
                0int
            })
            &&& wide ==> "Resize target width"@.is_prefix_of(problems[0])
            &&& high ==> "Resize target height"@.is_prefix_of(problems[problems.len() - 1])
        }),
{
    lemma_pixel_problem_begins_with_subject(
        "Resize target width"@,
        width,
        settings.max_resize_target_width,
    );
    lemma_pixel_problem_begins_with_subject(
        "Resize target height"@,
        height,
        settings.max_resize_target_height,
    );
}

/// Flips are never a problem, whatever the limits.
pub proof fn lemma_flips_are_no_problem(settings: ValidationSettings, operation: Operation)
    requires
        operation is FlipHorizontally || operation is FlipVertically,
    ensures
        operation_problems(settings, operation).len() == 0,
{
}

/// A check of requests and images against the limits.
pub trait Validator {
    /// Checks the operations that a request asks for.
    fn validate_operations(&self, settings: &ValidationSettings, operations: &Operations) -> Result<
        (),
        ValidationErrors,
    >;

    /// Checks the dimensions of a decoded source image.
    fn validate_source_image(&self, settings: &ValidationSettings, image: &DecodedImage) -> Result<
        (),
        ValidationErrors,
    >;

    /// Checks the size in bytes that an origin announces before it sends.
    fn validate_image_download_size(
        &self,
        settings: &ValidationSettings,
        image_download_size: u64,
    ) -> Result<(), ValidationErrors>;

    /// Checks the size in bytes of what an origin has sent.
    fn validate_image_size(&self, settings: &ValidationSettings, image_size: u64) -> Result<
        (),
        ValidationErrors,
    >;
}

/// The validator of this crate.
pub struct SingletonValidator;

/// `ByteSize`'s `Display` of the `bytesize` crate: a size in bytes as people
/// read it. The rounding goes through the platform's logarithm, so nothing is
/// stated of the text.
#[verifier::external_body]
fn byte_size_text(bytes: u64) -> String {
    bytesize::ByteSize(bytes).to_string()
}

fn pixel_problem_message(subject: &str, value: u32, limit: u32) -> (message: String)
    ensures
        message@ == pixel_problem(subject@, value, limit),
{
    let mut out: Vec<char> = Vec::new();
    push_str(&mut out, subject);
    push_str(&mut out, " [");
    push_decimal(&mut out, value as u64);
    push_str(&mut out, "] too large, must be [");
    push_decimal(&mut out, limit as u64);
    push_str(&mut out, "] or lower");
    string_of(out.as_slice())
}

/// Writes the sentence for a size in bytes over its limit.
pub fn byte_problem_message(subject: &str, shown: &str, limit: &str) -> (message: String)
    ensures
        message@ == byte_problem(subject@, shown@, limit@),
{
    let mut out: Vec<char> = Vec::new();
    push_str(&mut out, subject);
    push_str(&mut out, " [");
    push_str(&mut out, shown);
    push_str(&mut out, "] is too large, must be [");
    push_str(&mut out, limit);
    push_str(&mut out, "] or lower");
    string_of(out.as_slice())
}

fn push_problem(problems: &mut Vec<String>, message: String)
    ensures
        texts(final(problems)@) == texts(old(problems)@).push(message@),
{
    problems.push(message);
    assert(texts(problems@) =~= texts(old(problems)@).push(message@));
}

fn finish(problems: Vec<String>) -> (r: Result<(), ValidationErrors>)
    ensures
        r is Ok <==> problems@.len() == 0,
        r matches Err(errors) ==> errors@ == texts(problems@),
{
    if problems.len() == 0 {
        Ok(())
    } else {
        Err(ValidationErrors(problems))
    }
}

impl Validator for SingletonValidator {
    /// Passes exactly when no operation is over a limit; else reports the
    /// problems of `operations_problems`.
    fn validate_operations(&self, settings: &ValidationSettings, operations: &Operations) -> (r:
        Result<(), ValidationErrors>)
        ensures
            r is Ok <==> operations_problems(*settings, operations@).len() == 0,
            r matches Err(errors) ==> errors@ == operations_problems(*settings, operations@),
    {
        let mut problems: Vec<String> = Vec::new();
        let mut i: usize = 0;
        assert(operations@.take(0) =~= Seq::<Operation>::empty());
        assert(texts(problems@) =~= Seq::<Seq<char>>::empty());
        while i < operations.0.len()
            invariant
                i <= operations.0.len(),
                texts(problems@) == operations_problems(*settings, operations@.take(i as int)),
            decreases operations.0.len() - i,
        {
            let ghost done = operations@.take(i as int);
            let ghost next = operations@.take(i + 1);
            assert(next.drop_last() =~= done);
            assert(next.last() == operations@[i as int]);
            match operations.0[i] {
                Operation::Resize { width, height } => {
                    if width > settings.max_resize_target_width {
                        push_problem(
                            &mut problems,
                            pixel_problem_message(
                                "Resize target width",
                                width,
                                settings.max_resize_target_width,
                            ),
                        );
                    }
                    if height > settings.max_resize_target_height {
                        push_problem(
                            &mut problems,
                            pixel_problem_message(
                                "Resize target height",
                                height,
                                settings.max_resize_target_height,
                            ),
                        );
                    }
                },
                Operation::FlipHorizontally => {},
                Operation::FlipVertically => {},
            }
            assert(texts(problems@) =~= operations_problems(*settings, done) + operation_problems(
                *settings,
                operations@[i as int],
            ));
            i += 1;
        }
        assert(operations@.take(i as int) =~= operations@);
        assert(texts(problems@).len() == problems@.len());
        finish(problems)
    }

    /// Passes exactly when the image is within both limits; else reports the
    /// problems of `source_image_problems`.
    fn validate_source_image(&self, settings: &ValidationSettings, image: &DecodedImage) -> (r:
        Result<(), ValidationErrors>)
        ensures
            r is Ok <==> image.width() <= settings.max_source_image_width && image.height()
                <= settings.max_source_image_height,
            r matches Err(errors) ==> errors@ == source_image_problems(
                *settings,
                image.width(),
                image.height(),
            ),
    {
        let mut problems: Vec<String> = Vec::new();
        assert(texts(problems@) =~= Seq::<Seq<char>>::empty());
        if image.width() > settings.max_source_image_width {
            push_problem(
                &mut problems,
                pixel_problem_message(
                    "Source image width",
                    image.width(),
                    settings.max_source_image_width,
                ),
            );
        }
        if image.height() > settings.max_source_image_height {
            push_problem(
                &mut problems,
                pixel_problem_message(
                    "Source image height",
                    image.height(),
                    settings.max_source_image_height,
                ),
            );
        }
        assert(texts(problems@) =~= source_image_problems(
            *settings,
            image.width(),
            image.height(),
        ));
        assert(texts(problems@).len() == problems@.len());
        finish(problems)
    }

    /// Passes exactly when the announced size is within the limit; else
    /// reports one problem, which names the size and the limit as the
    /// `bytesize` crate shows them.
    fn validate_image_download_size(
        &self,
        settings: &ValidationSettings,
        image_download_size: u64,
    ) -> (r: Result<(), ValidationErrors>)
        ensures
            r is Ok <==> image_download_size <= settings.max_source_image_download_size,
            r matches Err(errors) ==> exists|shown: Seq<char>, limit: Seq<char>|
                errors@ == seq![byte_problem("Image download size"@, shown, limit)],
    {
        if image_download_size > settings.max_source_image_download_size {
            let shown = byte_size_text(image_download_size);
            let limit = byte_size_text(settings.max_source_image_download_size);
            let message = byte_problem_message(
                "Image download size",
                shown.as_str(),
                limit.as_str(),
            );
            let mut problems: Vec<String> = Vec::new();
            problems.push(message);
            assert(texts(problems@) =~= seq![
                byte_problem("Image download size"@, shown@, limit@),
            ]);
            Err(ValidationErrors(problems))
        } else {
            Ok(())
        }
    }

    /// Passes exactly when the size is within the limit; else reports one
    /// problem, which names the size and the limit as the `bytesize` crate
    /// shows them.
    fn validate_image_size(&self, settings: &ValidationSettings, image_size: u64) -> (r: Result<
        (),
        ValidationErrors,
    >)
        ensures
            r is Ok <==> image_size <= settings.max_source_image_size,
            r matches Err(errors) ==> exists|shown: Seq<char>, limit: Seq<char>|
                errors@ == seq![byte_problem("Image size"@, shown, limit)],
    {
        if image_size > settings.max_source_image_size {
            let shown = byte_size_text(image_size);
            let limit = byte_size_text(settings.max_source_image_size);
            let message = byte_problem_message("Image size", shown.as_str(), limit.as_str());
            let mut problems: Vec<String> = Vec::new();
            problems.push(message);
            assert(texts(problems@) =~= seq![byte_problem("Image size"@, shown@, limit@)]);
            Err(ValidationErrors(problems))
        } else {
            Ok(())
        }
    }
}

} // verus!
