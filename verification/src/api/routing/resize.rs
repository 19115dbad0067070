//! The handling of a request for a transformed image, as a machine that
//! decides and a host that acts.
//!
//! The machine never waits. `start` and `step` say what is to be done next:
//! a look-up in a cache tier, a fetch from the origin, a write to a cache
//! tier, the rendering, or the answer. The host does it and reports what
//! came of it as the next event. The tiers are asked in a fixed order: the
//! transformed images first, then the source images, then the origin.

use crate::api::requests::{ImageResizePathParam, Signature};
use crate::api::routing::handlers::{
    canonical_path_and_query, ensure_signature_is_valid, owed_signature, requested_operations,
    resize_of,
};
use crate::infra::config::{byte_size_of_text, parse_byte_size, Config, ValidationSettings};
use crate::infra::errors::AppError;
use crate::infra::image_caching::{
    copy_bytes, ImageFetchRequest, ImageFetchedCacheRequest, ImageResizeRequest,
    ImageResizedCacheRequest, Retrieved,
};
use crate::infra::image_manipulation::{
    dimensions_after_all, Operations, OperationsRunner, SingletonOperationsRunner,
};
use crate::infra::images::{
    declared_format, decode_pixels, decoded_size, encode_pixels, format_from_mime_type,
    format_from_path, format_mime_type, mime_type_of, sniff_format, DecodedImage, DetectedFormat,
    SourceFormat,
};
use crate::infra::validations::{
    byte_problem, operations_problems, source_image_problems, texts, SingletonValidator, Validator,
};
use crate::signature::signature_accepted;
use vstd::prelude::*;

verus! {

/// The status that an image goes out with.
pub const IMAGE_RESPONSE_STATUS: u16 = 200;

/// The answer to a request that went well: the image and its content type.
/// It goes out with `IMAGE_RESPONSE_STATUS` and the cache directive of
/// `CACHE_CONTROL_HEADER_VALUE`.
#[derive(Debug, PartialEq, Eq)]
pub struct ImageResponse {
    pub content_type: String,
    pub bytes: Vec<u8>,
}

/// What an origin says before it sends the image: the size it announces
/// and the content type it declares, each as the text of its header.
pub struct OriginHead {
    pub content_length: Option<String>,
    pub content_type: Option<String>,
}

/// A source image that is to be rendered for a request.
pub struct RenderJob {
    pub request: ImageResizeRequest,
    pub bytes: Vec<u8>,
    pub content_type: Option<String>,
}

/// A rendered image and the entry it is cached under.
pub struct Rendered {
    pub bytes: Vec<u8>,
    pub entry: ImageResizedCacheRequest,
}

/// Where the handling of a request stands.
pub enum State {
    /// The tier of transformed images has been asked.
    CheckTransformCache { request: ImageResizeRequest },
    /// The tier of source images has been asked.
    CheckFetchCache { request: ImageResizeRequest },
    /// The origin has been asked; its headers are awaited.
    FetchOrigin { request: ImageResizeRequest },
    /// The body of the origin's answer is awaited.
    ReadBody { request: ImageResizeRequest, content_type: Option<String> },
    /// The source image is being written to its tier.
    StoreSource { request: ImageResizeRequest, bytes: Vec<u8>, content_type: Option<String> },
    /// The image is being rendered.
    Rendering,
    /// The rendered image is being written to its tier.
    StoreResult { response: ImageResponse },
    /// The answer has been given.
    Done,
}

/// What the host is to do next.
pub enum Action {
    /// Ask the tier of transformed images.
    LookupProcessed(ImageResizeRequest),
    /// Ask the tier of source images.
    LookupUnprocessed(ImageFetchRequest),
    /// Ask the origin at this address.
    FetchOrigin(String),
    /// Read the body of the origin's answer.
    ReadOriginBody,
    /// Write a source image to its tier.
    StoreUnprocessed { bytes: Vec<u8>, entry: ImageFetchedCacheRequest },
    /// Render the image with `render`.
    Render(RenderJob),
    /// Write a transformed image to its tier.
    StoreProcessed { bytes: Vec<u8>, entry: ImageResizedCacheRequest },
    /// Answer the caller.
    Respond(Result<ImageResponse, AppError>),
}

/// What came of the last action.
pub enum Event {
    /// The tier of transformed images has answered.
    ProcessedLookup(Result<Option<Retrieved<ImageResizedCacheRequest>>, AppError>),
    /// The tier of source images has answered.
    UnprocessedLookup(Result<Option<Retrieved<ImageFetchedCacheRequest>>, AppError>),
    /// The origin has sent its headers, or could not be reached.
    OriginHeaders(Result<OriginHead, String>),
    /// The origin has sent its body, or broke off.
    OriginBody(Result<Vec<u8>, String>),
    /// A write to a tier has ended.
    Stored(Result<(), AppError>),
    /// The rendering has ended.
    Rendered(Result<Rendered, AppError>),
}

/// The characters of an optional string.
pub open spec fn optional_text(text: Option<String>) -> Option<Seq<char>> {
    match text {
        Some(t) => Some(t@),
        None => None,
    }
}

/// The size that a `Content-Length` header announces, where it is one that
/// the `bytesize` crate reads.
pub open spec fn announced_size(content_length: Option<String>) -> Option<u64> {
    match content_length {
        Some(text) => match byte_size_of_text(text@) {
            Ok(size) => Some(size),
            Err(_) => None,
        },
        None => None,
    }
}

/// Whether `action` is the answer that one byte limit is broken, under the
/// given subject.
pub open spec fn refuses_size(action: Action, subject: Seq<char>) -> bool {
    action matches Action::Respond(Err(AppError::ValidationFailed(problems))) && exists|
        shown: Seq<char>,
        limit: Seq<char>,
    | texts(problems@) == seq![byte_problem(subject, shown, limit)]
}

/// Whether `next` and `action` are what the machine goes on with from
/// `state` when `event` comes in.
pub open spec fn transition(
    state: State,
    event: Event,
    settings: ValidationSettings,
    next: State,
    action: Action,
) -> bool {
    match (state, event) {
        (State::CheckTransformCache { request }, Event::ProcessedLookup(Ok(Some(hit)))) => {
            &&& next is Done
            &&& action == Action::Respond(
                Ok(ImageResponse { content_type: hit.requested.content_type, bytes: hit.bytes }),
            )
        },
        (State::CheckTransformCache { request }, Event::ProcessedLookup(Ok(None))) => {
            &&& next matches State::CheckFetchCache { request: kept } && kept@ == request@
            &&& action matches Action::LookupUnprocessed(asked) && asked@ == request@.url
        },
        (State::CheckTransformCache { request }, Event::ProcessedLookup(Err(e))) => {
            &&& next is Done
            &&& action == Action::Respond(Err(e))
        },
        (State::CheckFetchCache { request }, Event::UnprocessedLookup(Ok(Some(hit)))) => {
            &&& next is Rendering
            &&& action == Action::Render(
                RenderJob { request, bytes: hit.bytes, content_type: hit.requested.content_type },
            )
        },
        (State::CheckFetchCache { request }, Event::UnprocessedLookup(Ok(None))) => {
            &&& next matches State::FetchOrigin { request: kept } && kept@ == request@
            &&& action matches Action::FetchOrigin(url) && url@ == request@.url
        },
        (State::CheckFetchCache { request }, Event::UnprocessedLookup(Err(e))) => {
            &&& next is Done
            &&& action == Action::Respond(Err(e))
        },
        (State::FetchOrigin { request }, Event::OriginHeaders(Ok(head))) => {
            if announced_size(head.content_length) matches Some(size) && size
                > settings.max_source_image_download_size {
                &&& next is Done
                &&& refuses_size(action, "Image download size"@)
            } else {
                &&& next == State::ReadBody { request, content_type: head.content_type }
                &&& action is ReadOriginBody
            }
        },
        (State::FetchOrigin { request }, Event::OriginHeaders(Err(reason))) => {
            &&& next is Done
            &&& action == Action::Respond(Err(AppError::CatchAll(reason)))
        },
        (State::ReadBody { request, content_type }, Event::OriginBody(Ok(bytes))) => {
            if bytes@.len() > settings.max_source_image_size {
                &&& next is Done
                &&& refuses_size(action, "Image size"@)
            } else {
                &&& next == State::StoreSource { request, bytes, content_type }
                &&& action matches Action::StoreUnprocessed { bytes: written, entry }
                &&& written@ == bytes@
                &&& entry@.url == request@.url
                &&& entry@.content_type == optional_text(content_type)
            }
        },
        (State::ReadBody { request, content_type }, Event::OriginBody(Err(reason))) => {
            &&& next is Done
            &&& action == Action::Respond(Err(AppError::CatchAll(reason)))
        },
        (State::StoreSource { request, bytes, content_type }, Event::Stored(Ok(_))) => {
            &&& next is Rendering
            &&& action == Action::Render(RenderJob { request, bytes, content_type })
        },
        (State::StoreSource { request, bytes, content_type }, Event::Stored(Err(e))) => {
            &&& next is Done
            &&& action == Action::Respond(Err(e))
        },
        (State::Rendering, Event::Rendered(Ok(rendered))) => {
            &&& next matches State::StoreResult { response }
            &&& response.content_type@ == rendered.entry.content_type@
            &&& response.bytes@ == rendered.bytes@
            &&& action == Action::StoreProcessed { bytes: rendered.bytes, entry: rendered.entry }
        },
        (State::Rendering, Event::Rendered(Err(e))) => {
            &&& next is Done
            &&& action == Action::Respond(Err(e))
        },
        (State::StoreResult { response }, Event::Stored(Ok(_))) => {
            &&& next is Done
            &&& action == Action::Respond(Ok(response))
        },
        (State::StoreResult { response }, Event::Stored(Err(e))) => {
            &&& next is Done
            &&& action == Action::Respond(Err(e))
        },
        _ => {
            &&& next is Done
            &&& action matches Action::Respond(Err(AppError::CatchAll(_)))
        },
    }
}

/// The number of events that a request can still take in from a state.
pub open spec fn remaining_steps(state: State) -> nat {
    match state {
        State::CheckTransformCache { .. } => 7,
        State::CheckFetchCache { .. } => 6,
        State::FetchOrigin { .. } => 5,
        State::ReadBody { .. } => 4,
        State::StoreSource { .. } => 3,
        State::Rendering => 2,
        State::StoreResult { .. } => 1,
        State::Done => 0,
    }
}

/// The machine always moves on, and keeps the order of the tiers.
///
/// Every event brings a request nearer to its answer, so that a request is
/// answered after seven events at most; the machine is done exactly when it
/// answers. The tier of source images is asked only after the tier of
/// transformed images has missed, the origin only after the tier of source
/// images has missed, and nothing is written or rendered before the tier of
/// transformed images has missed.
pub proof fn lemma_machine_moves_on(
    state: State,
    event: Event,
    settings: ValidationSettings,
    next: State,
    action: Action,
)
    requires
        transition(state, event, settings, next, action),
    ensures
        next is Done <==> action is Respond,
        !(state is Done) ==> remaining_steps(next) < remaining_steps(state),
        !(action is LookupProcessed),
        action is LookupUnprocessed ==> state is CheckTransformCache && event matches Event::ProcessedLookup(
            Ok(None),
        ),
        action is FetchOrigin ==> state is CheckFetchCache && event matches Event::UnprocessedLookup(
            Ok(None),
        ),
        action is ReadOriginBody ==> state is FetchOrigin,
        action is StoreUnprocessed ==> state is ReadBody,
        action is Render ==> state is StoreSource || (state is CheckFetchCache
            && event matches Event::UnprocessedLookup(Ok(Some(_)))),
        action is StoreProcessed ==> state is Rendering,
{
}

fn copy_text(text: &String) -> (copy: String)
    ensures
        copy@ == text@,
{
    text.clone()
}

fn copy_optional_text(text: &Option<String>) -> (copy: Option<String>)
    ensures
        optional_text(copy) == optional_text(*text),
{
    match text {
        Some(t) => Some(copy_text(t)),
        None => None,
    }
}

fn copy_request(request: &ImageResizeRequest) -> (copy: ImageResizeRequest)
    ensures
        copy@ == request@,
{
    let mut operations: Vec<crate::infra::image_manipulation::Operation> = Vec::new();
    let mut i: usize = 0;
    while i < request.operations.0.len()
        invariant
            i <= request.operations.0.len(),
            operations@ == request.operations@.take(i as int),
        decreases request.operations.0.len() - i,
    {
        operations.push(request.operations.0[i]);
        i += 1;
    }
    assert(request.operations@.take(request.operations@.len() as int) =~= request.operations@);
    ImageResizeRequest {
        requested_image_url: copy_text(&request.requested_image_url),
        operations: Operations(operations),
    }
}

fn out_of_turn() -> (end: (State, Action))
    ensures
        end.0 is Done,
        end.1 matches Action::Respond(Err(AppError::CatchAll(_))),
{
    (
        State::Done,
        Action::Respond(
            Err(AppError::CatchAll("An event arrived that was not asked for".to_owned())),
        ),
    )
}

fn fail(error: AppError) -> (end: (State, Action))
    ensures
        end.0 is Done,
        end.1 == Action::Respond(Err(error)),
{
    (State::Done, Action::Respond(Err(error)))
}

/// Begins the handling of a request for a transformed image.
///
/// A request whose signature is not accepted is answered at once with
/// `BadSignature`, one that asks for more than the limits allow with the
/// problems found. For every other request the tier of transformed images
/// is asked first, with the address and the operations of the request.
pub fn start(
    config: &Config,
    path_and_query: &str,
    signature: Signature,
    resized_image: ImageResizePathParam,
    image_url: String,
) -> (first: (State, Action))
    ensures
        signature.0@ != owed_signature(
            config.authentication_settings.shared_secret@,
            path_and_query@,
            signature.0@,
        ) ==> first.0 is Done && first.1 == Action::Respond(
            Err(AppError::BadSignature(signature.0)),
        ),
        ({
            let accepted = signature_accepted(
                config.authentication_settings.shared_secret@,
                canonical_path_and_query(path_and_query@),
                signature.0@,
            );
            let problems = operations_problems(
                config.validation_settings,
                requested_operations(resized_image),
            );
            if !accepted {
                &&& first.0 is Done
                &&& first.1 == Action::Respond(Err(AppError::BadSignature(signature.0)))
            } else if problems.len() > 0 {
                &&& first.0 is Done
                &&& first.1 matches Action::Respond(Err(AppError::ValidationFailed(found)))
                &&& texts(found@) == problems
            } else {
                &&& first.0 matches State::CheckTransformCache { request }
                &&& request.requested_image_url == image_url
                &&& request.operations@ == requested_operations(resized_image)
                &&& first.1 matches Action::LookupProcessed(asked)
                &&& asked@ == request@
            }
        }),
{
    match ensure_signature_is_valid(&config.authentication_settings, path_and_query, signature) {
        Ok(()) => {},
        Err(e) => {
            return fail(e);
        },
    }
    let operations = Operations::build(&Some(resize_of(resized_image)));
    match SingletonValidator.validate_operations(&config.validation_settings, &operations) {
        Ok(()) => {},
        Err(errors) => {
            return fail(AppError::ValidationFailed(errors.0));
        },
    }
    let request = ImageResizeRequest { requested_image_url: image_url, operations };
    let asked = copy_request(&request);
    (State::CheckTransformCache { request }, Action::LookupProcessed(asked))
}

/// Takes in what came of the last action and says what is to be done next.
pub fn step(state: State, event: Event, settings: &ValidationSettings) -> (next: (State, Action))
    ensures
        transition(state, event, *settings, next.0, next.1),
{
    match state {
        State::CheckTransformCache { request } => match event {
            Event::ProcessedLookup(Ok(Some(hit))) => (
                State::Done,
                Action::Respond(
                    Ok(
                        ImageResponse {
                            content_type: hit.requested.content_type,
                            bytes: hit.bytes,
                        },
                    ),
                ),
            ),
            Event::ProcessedLookup(Ok(None)) => {
                let asked = ImageFetchRequest {
                    requested_image_url: copy_text(&request.requested_image_url),
                };
                (State::CheckFetchCache { request }, Action::LookupUnprocessed(asked))
            },
            Event::ProcessedLookup(Err(e)) => fail(e),
            _ => out_of_turn(),
        },
        State::CheckFetchCache { request } => match event {
            Event::UnprocessedLookup(Ok(Some(hit))) => (
                State::Rendering,
                Action::Render(
                    RenderJob {
                        request,
                        bytes: hit.bytes,
                        content_type: hit.requested.content_type,
                    },
                ),
            ),
            Event::UnprocessedLookup(Ok(None)) => {
                let url = copy_text(&request.requested_image_url);
                (State::FetchOrigin { request }, Action::FetchOrigin(url))
            },
            Event::UnprocessedLookup(Err(e)) => fail(e),
            _ => out_of_turn(),
        },
        State::FetchOrigin { request } => match event {
            Event::OriginHeaders(Ok(head)) => {
                let announced = match &head.content_length {
                    Some(text) => match parse_byte_size(text.as_str()) {
                        Ok(size) => Some(size),
                        Err(_) => None,
                    },
                    None => None,
                };
                if let Some(size) = announced {
                    match SingletonValidator.validate_image_download_size(settings, size) {
                        Ok(()) => {},
                        Err(errors) => {
                            return fail(AppError::ValidationFailed(errors.0));
                        },
                    }
                }
                (
                    State::ReadBody { request, content_type: head.content_type },
                    Action::ReadOriginBody,
                )
            },
            Event::OriginHeaders(Err(reason)) => fail(AppError::CatchAll(reason)),
            _ => out_of_turn(),
        },
        State::ReadBody { request, content_type } => match event {
            Event::OriginBody(Ok(bytes)) => {
                match SingletonValidator.validate_image_size(settings, bytes.len() as u64) {
                    Ok(()) => {},
                    Err(errors) => {
                        return fail(AppError::ValidationFailed(errors.0));
                    },
                }
                let entry = ImageFetchedCacheRequest {
                    request: ImageFetchRequest {
                        requested_image_url: copy_text(&request.requested_image_url),
                    },
                    content_type: copy_optional_text(&content_type),
                };
                let written = copy_bytes(bytes.as_slice());
                (
                    State::StoreSource { request, bytes, content_type },
                    Action::StoreUnprocessed { bytes: written, entry },
                )
            },
            Event::OriginBody(Err(reason)) => fail(AppError::CatchAll(reason)),
            _ => out_of_turn(),
        },
        State::StoreSource { request, bytes, content_type } => match event {
            Event::Stored(Ok(())) => (
                State::Rendering,
                Action::Render(RenderJob { request, bytes, content_type }),
            ),
            Event::Stored(Err(e)) => fail(e),
            _ => out_of_turn(),
        },
        State::Rendering => match event {
            Event::Rendered(Ok(rendered)) => {
                let response = ImageResponse {
                    content_type: copy_text(&rendered.entry.content_type),
                    bytes: copy_bytes(rendered.bytes.as_slice()),
                };
                (
                    State::StoreResult { response },
                    Action::StoreProcessed { bytes: rendered.bytes, entry: rendered.entry },
                )
            },
            Event::Rendered(Err(e)) => fail(e),
            _ => out_of_turn(),
        },
        State::StoreResult { response } => match event {
            Event::Stored(Ok(())) => (State::Done, Action::Respond(Ok(response))),
            Event::Stored(Err(e)) => fail(e),
            _ => out_of_turn(),
        },
        State::Done => out_of_turn(),
    }
}

/// What the hints on the format of an image come to.
pub enum FormatChoice {
    /// The image is taken to have this format.
    Format(SourceFormat),
    /// The first hint names a format that images are not decoded from.
    Unsupported,
    /// No hint names a format.
    Undetermined,
    /// No other hint names a format, and the bytes could not be looked at.
    Unreadable(String),
}

/// What one hint comes to.
pub open spec fn hinted(hint: DetectedFormat) -> FormatChoice {
    match hint {
        DetectedFormat::Supported(format) => FormatChoice::Format(format),
        DetectedFormat::Unsupported => FormatChoice::Unsupported,
    }
}

/// The format that an image is taken to have: the one that the origin
/// declared, else the one that the address names, else the one that the
/// bytes give away. A failure to look at the bytes counts only where they
/// are needed.
pub open spec fn chosen_format(
    declared: Option<DetectedFormat>,
    by_extension: Option<DetectedFormat>,
    sniffed: Result<Option<DetectedFormat>, String>,
) -> FormatChoice {
    match declared {
        Some(hint) => hinted(hint),
        None => match by_extension {
            Some(hint) => hinted(hint),
            None => match sniffed {
                Ok(Some(hint)) => hinted(hint),
                Ok(None) => FormatChoice::Undetermined,
                Err(reason) => FormatChoice::Unreadable(reason),
            },
        },
    }
}

/// The failure that a choice without a format is reported as.
pub open spec fn format_failure(choice: FormatChoice, error: AppError) -> bool {
    match choice {
        FormatChoice::Format(_) => false,
        FormatChoice::Unsupported => error matches AppError::CatchAll(description)
            && description@ == "The format of the image is not supported"@,
        FormatChoice::Undetermined => error is UnableToDetermineFormat,
        FormatChoice::Unreadable(reason) => error == AppError::CatchAll(reason),
    }
}

/// Settles the format of an image from the hints on it.
pub fn choose_format(
    declared: Option<DetectedFormat>,
    by_extension: Option<DetectedFormat>,
    sniffed: Result<Option<DetectedFormat>, String>,
) -> (r: Result<SourceFormat, AppError>)
    ensures
        match r {
            Ok(format) => chosen_format(declared, by_extension, sniffed) == FormatChoice::Format(
                format,
            ),
            Err(error) => format_failure(chosen_format(declared, by_extension, sniffed), error),
        },
{
    let hint = match declared {
        Some(hint) => hint,
        None => match by_extension {
            Some(hint) => hint,
            None => match sniffed {
                Ok(Some(hint)) => hint,
                Ok(None) => {
                    return Err(AppError::UnableToDetermineFormat);
                },
                Err(reason) => {
                    return Err(AppError::CatchAll(reason));
                },
            },
        },
    };
    match hint {
        DetectedFormat::Supported(format) => Ok(format),
        DetectedFormat::Unsupported => Err(
            AppError::CatchAll("The format of the image is not supported".to_owned()),
        ),
    }
}

/// The failure that an image without room for its operations is reported
/// as.
pub open spec fn too_large_to_transform() -> Seq<char> {
    "The image is too large to be transformed on this machine"@
}

/// Ends a rendering with what the encoder gave: the encoded bytes are
/// cached under the request with the content type of the format; a failure
/// of the encoder is a failure of the rendering, with the encoder's words.
pub fn finish_render(
    encoded: Result<Vec<u8>, String>,
    request: ImageResizeRequest,
    content_type: String,
) -> (r: Result<Rendered, AppError>)
    ensures
        r == match encoded {
            Ok(bytes) => Ok::<Rendered, AppError>(
                Rendered { bytes, entry: ImageResizedCacheRequest { request, content_type } },
            ),
            Err(reason) => Err::<Rendered, AppError>(AppError::CatchAll(reason)),
        },
{
    match encoded {
        Ok(bytes) => Ok(
            Rendered { bytes, entry: ImageResizedCacheRequest { request, content_type } },
        ),
        Err(reason) => Err(AppError::CatchAll(reason)),
    }
}

/// Whether `r` is a way for the rendering of a decoded source of `width` by
/// `height` to end.
///
/// A source over the limits is refused with the problems of
/// `source_image_problems`, and nothing else is. A source within the limits
/// whose operations have no room fails as `too_large_to_transform`. Any
/// other source is rendered, under the request it was rendered for and with
/// the MIME type of its format, unless the encoder fails.
pub open spec fn rendered_from(
    width: u32,
    height: u32,
    request: ImageResizeRequest,
    format: SourceFormat,
    settings: ValidationSettings,
    r: Result<Rendered, AppError>,
) -> bool {
    let problems = source_image_problems(settings, width, height);
    if problems.len() > 0 {
        r matches Err(AppError::ValidationFailed(found)) && texts(found@) == problems
    } else if dimensions_after_all(width, height, request.operations@) is None {
        r matches Err(AppError::CatchAll(description)) && description@ == too_large_to_transform()
    } else {
        match r {
            Ok(rendered) => rendered.entry.request == request && rendered.entry.content_type@
                == mime_type_of(format),
            Err(AppError::CatchAll(_)) => true,
            Err(_) => false,
        }
    }
}

/// Renders a decoded source: holds it to the limits on source images,
/// applies the operations of the request and encodes the result in the
/// format of the source. It ends as `rendered_from` says.
pub fn render_decoded(
    source: DecodedImage,
    request: ImageResizeRequest,
    format: SourceFormat,
    settings: &ValidationSettings,
) -> (r: Result<Rendered, AppError>)
    ensures
        rendered_from(source.width(), source.height(), request, format, *settings, r),
{
    match SingletonValidator.validate_source_image(settings, &source) {
        Ok(()) => {},
        Err(errors) => {
            assert(texts(errors.0@).len() == errors.0@.len());
            return Err(AppError::ValidationFailed(errors.0));
        },
    }
    assert(source_image_problems(*settings, source.width(), source.height()).len() == 0);
    let image = match SingletonOperationsRunner.run(source, &request.operations) {
        Some(image) => image,
        None => {
            return Err(
                AppError::CatchAll(
                    "The image is too large to be transformed on this machine".to_owned(),
                ),
            );
        },
    };
    let encoded = encode_pixels(&image, format);
    finish_render(encoded, request, format_mime_type(format))
}

/// Whether `r` is a way for the rendering of `bytes`, taken to be of
/// `format`, to end.
///
/// Bytes that are not decoded fail the rendering. Bytes that decode to an
/// image of some width and height end as `rendered_from` says for them,
/// unless the decoder fails for want of memory.
pub open spec fn rendered_as(
    bytes: Seq<u8>,
    request: ImageResizeRequest,
    format: SourceFormat,
    settings: ValidationSettings,
    r: Result<Rendered, AppError>,
) -> bool {
    match decoded_size(bytes, format) {
        None => r matches Err(AppError::CatchAll(_)),
        Some((width, height)) => r matches Err(AppError::CatchAll(_)) || rendered_from(
            width,
            height,
            request,
            format,
            settings,
            r,
        ),
    }
}

/// Renders a source image for a request: settles its format, decodes it,
/// holds it to the limits on source images, applies the operations and
/// encodes the result in the format of the source.
///
/// Where the origin declared a content type that names a format images are
/// decoded from, that format is taken, and the rendering ends as
/// `rendered_as` says for it: bytes that do not decode fail it, a source
/// over the limits is refused with exactly its problems, and an image that
/// is rendered is cached under the request with the MIME type of the format.
/// A declared format that images are not decoded from fails the rendering.
/// Where the origin declared none that is known, the address and the bytes
/// decide on the format; the format stays undetermined only then.
pub fn render(job: RenderJob, settings: &ValidationSettings) -> (r: Result<Rendered, AppError>)
    ensures
        r matches Ok(rendered) ==> rendered.entry.request == job.request,
        match job.content_type {
            Some(declared) => match declared_format(declared@) {
                Some(DetectedFormat::Supported(format)) => rendered_as(
                    job.bytes@,
                    job.request,
                    format,
                    *settings,
                    r,
                ),
                Some(DetectedFormat::Unsupported) => format_failure(
                    FormatChoice::Unsupported,
                    r->Err_0,
                ) && r is Err,
                None => r is Err && r->Err_0 is UnableToDetermineFormat || exists|
                    format: SourceFormat,
                | #[trigger] rendered_as(job.bytes@, job.request, format, *settings, r),
            },
            None => r is Err && r->Err_0 is UnableToDetermineFormat || exists|
                format: SourceFormat,
            | #[trigger] rendered_as(job.bytes@, job.request, format, *settings, r),
        },
{
    let declared = match &job.content_type {
        Some(content_type) => format_from_mime_type(content_type.as_str()),
        None => None,
    };
    let by_extension = format_from_path(job.request.requested_image_url.as_str());
    let sniffed = sniff_format(job.bytes.as_slice());
    let format = match choose_format(declared, by_extension, sniffed) {
        Ok(format) => format,
        Err(e) => {
            assert(e is CatchAll ==> rendered_as(
                job.bytes@,
                job.request,
                SourceFormat::Png,
                *settings,
                Err::<Rendered, AppError>(e),
            ));
            return Err(e);
        },
    };
    let r = match decode_pixels(job.bytes.as_slice(), format) {
        Ok(source) => render_decoded(source, job.request, format, settings),
        Err(reason) => Err(AppError::CatchAll(reason)),
    };
    assert(rendered_as(job.bytes@, job.request, format, *settings, r));
    r
}

} // verus!
