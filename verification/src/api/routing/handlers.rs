//! What the routes decide: whether a request is authorized, what a request
//! for metadata is answered with, and how a failure is reported.

use crate::api::requests::{ImageResizePathParam, Signature};
use crate::api::responses::{operation_views, shown_operations, MetadataResponse, Standard};
use crate::infra::config::{AuthenticationSettings, Config};
use crate::infra::errors::AppError;
use crate::infra::image_caching::ImageResize;
use crate::infra::image_manipulation::{operations_for, Operations};
use crate::infra::validations::{operations_problems, texts, SingletonValidator, Validator};
use crate::signature::{
    ensure_signature_is_valid_for_path_and_query, signature_accepted, signature_of, signed_part,
    SignatureError,
};
use crate::text::{
    chars_of, contains_chars, find_char_from, first_index, lemma_first_index_from, occurs_in,
    push_str, string_of,
};
use vstd::prelude::*;

verus! {

/// The cache directive that goes out with every answer to a signed
/// request: the address holds the signature and the exact parameters, so an
/// answer stays good for a year.
pub const CACHE_CONTROL_HEADER_VALUE: &'static str = "max-age=31536000";

/// The path and query that a signature speaks for: what arrived, without a
/// question mark that stands alone at its end. Some gateways add one to a
/// request that had no query.
pub open spec fn canonical_path_and_query(path_and_query: Seq<char>) -> Seq<char> {
    if first_index(path_and_query, '?') == Some(path_and_query.len() - 1) {
        path_and_query.drop_last()
    } else {
        path_and_query
    }
}

/// A question mark that is added to a path without a query changes nothing
/// in what the signature speaks for: the path with the mark and the path
/// without it have the same canonical form, the path itself.
pub proof fn lemma_added_question_mark_is_ignored(path: Seq<char>)
    requires
        first_index(path, '?') is None,
    ensures
        canonical_path_and_query(path) == path,
        canonical_path_and_query(path + seq!['?']) == path,
{
    let arrived = path + seq!['?'];
    lemma_first_index_from(path, '?', 0);
    lemma_first_index_from(arrived, '?', 0);
    assert(arrived[path.len() as int] == '?');
    assert forall|k: int| 0 <= k < path.len() implies arrived[k] != '?' by {
        assert(arrived[k] == path[k]);
    }
    assert(first_index(arrived, '?') == Some(path.len() as int));
    assert(arrived.drop_last() =~= path);
}

/// What a signature speaks for does not depend on an added question mark:
/// a signature is accepted for a path with the mark exactly when it is
/// accepted for the path without it.
pub proof fn lemma_question_mark_lets_nothing_in(
    secret: Seq<char>,
    path: Seq<char>,
    signature: Seq<char>,
)
    requires
        first_index(path, '?') is None,
    ensures
        signature_accepted(secret, canonical_path_and_query(path + seq!['?']), signature)
            == signature_accepted(secret, canonical_path_and_query(path), signature),
{
    lemma_added_question_mark_is_ignored(path);
}

/// Takes a lone question mark off the end of a path and query.
pub fn canonicalize_path_and_query(path_and_query: &str) -> (canonical: String)
    ensures
        canonical@ == canonical_path_and_query(path_and_query@),
{
    let chars = chars_of(path_and_query);
    match find_char_from(chars.as_slice(), '?', 0) {
        Some(i) => {
            if i + 1 == chars.len() {
                let kept = vstd::slice::slice_subrange(chars.as_slice(), 0, i);
                assert(kept@ =~= path_and_query@.drop_last());
                string_of(kept)
            } else {
                string_of(chars.as_slice())
            }
        },
        None => string_of(chars.as_slice()),
    }
}

/// The signature that a request must come with: that of the part of its
/// canonical path and query that is left when the segment of the signature
/// it came with is taken off.
pub open spec fn owed_signature(
    secret: Seq<char>,
    path_and_query: Seq<char>,
    signature: Seq<char>,
) -> Seq<char> {
    signature_of(secret, signed_part(canonical_path_and_query(path_and_query), signature))
}

/// Checks the signature of a request against its canonical path and query.
///
/// The request passes exactly when the signature is accepted for the
/// canonical path and query, and a signature that is accepted is the one
/// that is owed. Any other request is turned down as `BadSignature` with
/// the signature it came with, which is answered with status 401.
pub fn ensure_signature_is_valid(
    auth_settings: &AuthenticationSettings,
    path_and_query: &str,
    signature: Signature,
) -> (r: Result<(), AppError>)
    ensures
        r is Ok <==> signature_accepted(
            auth_settings.shared_secret@,
            canonical_path_and_query(path_and_query@),
            signature.0@,
        ),
        r is Ok ==> signature.0@ == owed_signature(
            auth_settings.shared_secret@,
            path_and_query@,
            signature.0@,
        ),
        signature.0@ != owed_signature(auth_settings.shared_secret@, path_and_query@, signature.0@)
            ==> r == Err::<(), AppError>(AppError::BadSignature(signature.0)),
        r matches Err(e) ==> e == AppError::BadSignature(signature.0) && error_status(e) == 401,
{
    let canonical = canonicalize_path_and_query(path_and_query);
    match ensure_signature_is_valid_for_path_and_query(
        auth_settings.shared_secret.as_str(),
        canonical.as_str(),
        signature.0.as_str(),
    ) {
        Ok(()) => Ok(()),
        Err(SignatureError::CouldNotUseKey) => Err(
            AppError::CatchAll(
                "Could not use the configured key. Maybe it's too long or too short".to_owned(),
            ),
        ),
        Err(SignatureError::BadSignature) => Err(AppError::BadSignature(signature.0)),
    }
}

/// A failure as it is answered: the status and the messages.
#[derive(Debug, PartialEq, Eq)]
pub struct ErrorResponse {
    pub status: u16,
    pub body: Standard,
}

/// The status that a failure is answered with.
pub open spec fn error_status(error: AppError) -> u16 {
    match error {
        AppError::CatchAll(_) => 500,
        AppError::BadSignature(_) => 401,
        AppError::UnableToDetermineFormat => 400,
        AppError::ValidationFailed(_) => 400,
    }
}

/// The messages that a failure is answered with.
pub open spec fn error_messages(error: AppError) -> Seq<Seq<char>> {
    match error {
        AppError::CatchAll(description) => seq![description@],
        AppError::BadSignature(signature) => seq![
            "The signature you provided ["@ + signature@ + "] was not correct"@,
        ],
        AppError::UnableToDetermineFormat => seq![
            "An image format could not be determined. Make sure the extension or the content-type header is sensible."@,
        ],
        AppError::ValidationFailed(problems) => texts(problems@),
    }
}

impl AppError {
    /// Turns the failure into its answer.
    pub fn into_response(self) -> (response: ErrorResponse)
        ensures
            response.status == error_status(self),
            texts(response.body.messages@) == error_messages(self),
    {
        match self {
            AppError::CatchAll(description) => {
                let body = Standard::message(description);
                assert(texts(body.messages@) =~= seq![description@]);
                ErrorResponse { status: 500, body }
            },
            AppError::BadSignature(signature) => {
                let mut out: Vec<char> = Vec::new();
                push_str(&mut out, "The signature you provided [");
                push_str(&mut out, signature.as_str());
                push_str(&mut out, "] was not correct");
                let text = string_of(out.as_slice());
                let body = Standard::message(text);
                assert(texts(body.messages@) =~= seq![text@]);
                ErrorResponse { status: 401, body }
            },
            AppError::UnableToDetermineFormat => {
                let text =
                    "An image format could not be determined. Make sure the extension or the content-type header is sensible.".to_owned();
                let body = Standard::message(text);
                assert(texts(body.messages@) =~= seq![text@]);
                ErrorResponse { status: 400, body }
            },
            AppError::ValidationFailed(problems) => ErrorResponse {
                status: 400,
                body: Standard { messages: problems },
            },
        }
    }
}

/// Answers a request for metadata: what a request for `image_url` with the
/// size `resized_image` would do. The source is neither fetched nor decoded.
///
/// A request whose signature is not accepted fails with `BadSignature`. One
/// that asks for more than the limits allow fails with the problems found.
/// Every other request is described: its source, and the operations that
/// the size stands for.
pub fn metadata(
    config: &Config,
    path_and_query: &str,
    signature: Signature,
    resized_image: ImageResizePathParam,
    image_url: &str,
) -> (r: Result<MetadataResponse, AppError>)
    ensures
        signature.0@ != owed_signature(
            config.authentication_settings.shared_secret@,
            path_and_query@,
            signature.0@,
        ) ==> r == Err::<MetadataResponse, AppError>(AppError::BadSignature(signature.0)),
        match r {
            Ok(response) => {
                &&& signature_accepted(
                    config.authentication_settings.shared_secret@,
                    canonical_path_and_query(path_and_query@),
                    signature.0@,
                )
                &&& operations_problems(
                    config.validation_settings,
                    requested_operations(resized_image),
                ).len() == 0
                &&& response.source.url@ == image_url@
                &&& operation_views(response.operations@) == shown_operations(
                    requested_operations(resized_image),
                )
            },
            Err(AppError::BadSignature(given)) => {
                &&& !signature_accepted(
                    config.authentication_settings.shared_secret@,
                    canonical_path_and_query(path_and_query@),
                    signature.0@,
                )
                &&& given == signature.0
            },
            Err(AppError::ValidationFailed(problems)) => {
                &&& signature_accepted(
                    config.authentication_settings.shared_secret@,
                    canonical_path_and_query(path_and_query@),
                    signature.0@,
                )
                &&& texts(problems@) == operations_problems(
                    config.validation_settings,
                    requested_operations(resized_image),
                )
                &&& problems@.len() > 0
            },
            Err(_) => false,
        },
{
    match ensure_signature_is_valid(&config.authentication_settings, path_and_query, signature) {
        Ok(()) => {},
        Err(e) => {
            return Err(e);
        },
    }
    let operations = Operations::build(&Some(resize_of(resized_image)));
    match SingletonValidator.validate_operations(&config.validation_settings, &operations) {
        Ok(()) => {},
        Err(errors) => {
            assert(texts(errors.0@).len() == errors.0@.len());
            return Err(AppError::ValidationFailed(errors.0));
        },
    }
    Ok(MetadataResponse::build(image_url, &operations))
}

/// The operations that a size segment asks for.
pub open spec fn requested_operations(param: ImageResizePathParam) -> Seq<
    crate::infra::image_manipulation::Operation,
> {
    operations_for(
        ImageResize { target_width: param.target_width, target_height: param.target_height },
    )
}

/// The target size that a size segment stands for.
pub fn resize_of(param: ImageResizePathParam) -> (resize: ImageResize)
    ensures
        resize == (ImageResize {
            target_width: param.target_width,
            target_height: param.target_height,
        }),
{
    ImageResize { target_width: param.target_width, target_height: param.target_height }
}

/// Tells whether a caller that found no route is answered in HTML: it is
/// where its `Accept` header names `text/html`.
pub fn wants_html(accept: Option<&str>) -> (html: bool)
    ensures
        html == match accept {
            Some(value) => occurs_in("text/html"@, value@),
            None => false,
        },
{
    match accept {
        Some(value) => {
            let text = chars_of(value);
            let needle = chars_of("text/html");
            contains_chars(text.as_slice(), needle.as_slice())
        },
        None => false,
    }
}

/// The answer to a request whose handling broke down, with what is known
/// of the reason.
pub fn handle_panic(details: Option<String>) -> (response: ErrorResponse)
    ensures
        response.status == 500,
        texts(response.body.messages@) == seq![
            match details {
                Some(text) => text@,
                None => "Unknown panic message"@,
            },
        ],
{
    let text = match details {
        Some(text) => text,
        None => "Unknown panic message".to_owned(),
    };
    let body = Standard::message(text);
    assert(texts(body.messages@) =~= seq![text@]);
    ErrorResponse { status: 500, body }
}

} // verus!
