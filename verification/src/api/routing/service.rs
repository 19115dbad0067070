//! A host for the machine of `resize` whose cache tiers live in memory.
//!
//! `serve` takes a request through the machine from its start to its answer.
//! What the origin would say is handed in, and is looked at only where the
//! machine asks for the origin.

use crate::api::requests::{ImageResizePathParam, Signature};
use crate::api::routing::handlers::{
    canonical_path_and_query, owed_signature, requested_operations,
};
use crate::api::routing::resize::{
    optional_text, render, start, step, Action, Event, ImageResponse, OriginHead,
};
use crate::infra::canonical::{
    fetch_request_json, fetched_entry_json, resize_request_json, resized_entry_json,
};
use crate::infra::canonical_reading::lemma_parse_fetched_entry;
use crate::infra::config::Config;
use crate::infra::errors::AppError;
use crate::infra::image_caching::{
    sha256_hex, sidecar_of, ImageCacher, ImageFetchRequest, ImageFetchedCacheRequest,
    ImageResizeRequest, ImageResizedCacheRequest, METADATA_JSON_KEY,
};
use crate::infra::image_manipulation::Operation;
use crate::infra::sidecar_reading::{fetched_entry_in, resized_entry_in};
use crate::infra::memory_cache::{
    lemma_position_of, object_for, position_of, written, MemoryImageCacher, StoredView,
};
use crate::infra::validations::{operations_problems, texts};
use crate::signature::signature_accepted;
use vstd::prelude::*;

verus! {

/// What the origin says to a fetch: its headers, or why it could not be
/// reached, and its body, or why it broke off.
pub struct OriginReply {
    pub head: Result<OriginHead, String>,
    pub body: Result<Vec<u8>, String>,
}

/// How a request was served: the answer, and whether the origin was asked.
pub struct Served {
    pub response: Result<ImageResponse, AppError>,
    pub asked_origin: bool,
}

/// The key of a transformed image in its tier.
pub open spec fn processed_key(url: Seq<char>, operations: Seq<Operation>) -> Seq<char> {
    sha256_hex(resize_request_json(url, operations))
}

/// The key of a source image in its tier.
pub open spec fn unprocessed_key(url: Seq<char>) -> Seq<char> {
    sha256_hex(fetch_request_json(url))
}

/// Whether the tier of transformed images has a usable entry under `key`.
pub open spec fn processed_hit(tier: Seq<StoredView>, key: Seq<char>) -> bool {
    position_of(tier, key) matches Some(at) && sidecar_of(tier[at].metadata) matches Some(text)
        && resized_entry_in(text) is Some
}

/// Whether the tier of source images has a usable entry under `key`.
pub open spec fn unprocessed_hit(tier: Seq<StoredView>, key: Seq<char>) -> bool {
    position_of(tier, key) matches Some(at) && sidecar_of(tier[at].metadata) matches Some(text)
        && fetched_entry_in(text) is Some
}

/// The object that is stored for a transformed image.
pub open spec fn processed_object(
    url: Seq<char>,
    operations: Seq<Operation>,
    content_type: Seq<char>,
    bytes: Seq<u8>,
) -> StoredView {
    StoredView {
        key: processed_key(url, operations),
        metadata: seq![(METADATA_JSON_KEY@, resized_entry_json(url, operations, content_type))],
        bytes,
    }
}

/// The object that is stored for a source image.
pub open spec fn unprocessed_object(
    url: Seq<char>,
    content_type: Option<Seq<char>>,
    bytes: Seq<u8>,
) -> StoredView {
    StoredView {
        key: unprocessed_key(url),
        metadata: seq![(METADATA_JSON_KEY@, fetched_entry_json(url, content_type))],
        bytes,
    }
}

/// What serving a request for `url` with `operations` does to the tiers,
/// and what it answers, once the request has been let in.
///
/// A hit in the tier of transformed images is answered from it, with the
/// bytes that are stored and the content type that is stored with them, and
/// nothing else is touched. On a miss the tier of source images is asked:
/// the origin is asked exactly where that tier misses too, and only then is
/// anything written to it, under the key of the address. An answer that went
/// well leaves the image that was sent in the tier of transformed images,
/// under the key of the request; and where the source came from the origin,
/// it leaves the bytes that the origin sent in their tier, with the content
/// type that the origin declared.
pub open spec fn served_request(
    url: Seq<char>,
    operations: Seq<Operation>,
    origin: OriginReply,
    processed_before: Seq<StoredView>,
    unprocessed_before: Seq<StoredView>,
    processed_after: Seq<StoredView>,
    unprocessed_after: Seq<StoredView>,
    served: Served,
) -> bool {
    if processed_hit(processed_before, processed_key(url, operations)) {
        let hit = processed_before[position_of(processed_before, processed_key(url, operations))->0];
        let (_, _, content_type) = resized_entry_in(sidecar_of(hit.metadata)->0)->0;
        &&& served.response matches Ok(response)
        &&& response.bytes@ == hit.bytes
        &&& response.content_type@ == content_type
        &&& !served.asked_origin
        &&& processed_after == processed_before
        &&& unprocessed_after == unprocessed_before
    } else {
        &&& served.asked_origin == !unprocessed_hit(unprocessed_before, unprocessed_key(url))
        &&& !served.asked_origin ==> unprocessed_after == unprocessed_before
        &&& match served.response {
            Ok(response) => {
                &&& processed_after == written(
                    processed_before,
                    processed_object(url, operations, response.content_type@, response.bytes@),
                )
                &&& served.asked_origin ==> source_written(
                    url,
                    origin,
                    unprocessed_before,
                    unprocessed_after,
                )
            },
            Err(_) => {
                &&& processed_after == processed_before
                &&& served.asked_origin ==> unprocessed_after == unprocessed_before
                    || source_written(url, origin, unprocessed_before, unprocessed_after)
            },
        }
    }
}

/// Whether the tier of source images has taken in what the origin sent
/// for `url`: the bytes of its body, with the content type that its headers
/// declared.
pub open spec fn source_written(
    url: Seq<char>,
    origin: OriginReply,
    unprocessed_before: Seq<StoredView>,
    unprocessed_after: Seq<StoredView>,
) -> bool {
    &&& origin.head matches Ok(head)
    &&& origin.body matches Ok(bytes)
    &&& unprocessed_after == written(
        unprocessed_before,
        unprocessed_object(url, optional_text(head.content_type), bytes@),
    )
}

fn broken() -> (served: Served)
    ensures
        served.response is Err,
{
    Served {
        response: Err(AppError::CatchAll("The handling of the request lost its way".to_owned())),
        asked_origin: false,
    }
}

/// Serves a request for a transformed image from tiers in memory.
///
/// A request that is not let in, for its signature or for what it asks,
/// is answered as `start` says and leaves the tiers as they are. Every other
/// request is served as `served_request` says.
pub fn serve(
    config: &Config,
    path_and_query: &str,
    signature: Signature,
    resized_image: ImageResizePathParam,
    image_url: String,
    processed: &mut MemoryImageCacher,
    unprocessed: &mut MemoryImageCacher,
    origin: OriginReply,
) -> (served: Served)
    ensures
        signature.0@ != owed_signature(
            config.authentication_settings.shared_secret@,
            path_and_query@,
            signature.0@,
        ) ==> served.response == Err::<ImageResponse, AppError>(
            AppError::BadSignature(signature.0),
        ),
        ({
            let accepted = signature_accepted(
                config.authentication_settings.shared_secret@,
                canonical_path_and_query(path_and_query@),
                signature.0@,
            );
            let problems = operations_problems(
                config.validation_settings,
                requested_operations(resized_image),
            );
            if !accepted {
                &&& served.response == Err::<ImageResponse, AppError>(
                    AppError::BadSignature(signature.0),
                )
                &&& !served.asked_origin
                &&& final(processed)@ == old(processed)@
                &&& final(unprocessed)@ == old(unprocessed)@
            } else if problems.len() > 0 {
                &&& served.response matches Err(AppError::ValidationFailed(found))
                &&& texts(found@) == problems
                &&& !served.asked_origin
                &&& final(processed)@ == old(processed)@
                &&& final(unprocessed)@ == old(unprocessed)@
            } else {
                served_request(
                    image_url@,
                    requested_operations(resized_image),
                    origin,
                    old(processed)@,
                    old(unprocessed)@,
                    final(processed)@,
                    final(unprocessed)@,
                    served,
                )
            }
        }),
{
    let settings = &config.validation_settings;
    let ghost url = image_url@;
    let ghost operations = requested_operations(resized_image);
    let (state, action) = start(config, path_and_query, signature, resized_image, image_url);
    let request = match action {
        Action::LookupProcessed(request) => request,
        Action::Respond(response) => {
            return Served { response, asked_origin: false };
        },
        _ => {
            return broken();
        },
    };
    assert(request@.url == url && request@.operations == operations);
    let found = <MemoryImageCacher as ImageCacher<
        ImageResizeRequest,
        ImageResizedCacheRequest,
    >>::get(processed, &request);
    let (state, action) = step(state, Event::ProcessedLookup(found), settings);
    let fetch_request = match action {
        Action::LookupUnprocessed(fetch_request) => fetch_request,
        Action::Respond(response) => {
            return Served { response, asked_origin: false };
        },
        _ => {
            return broken();
        },
    };
    assert(!processed_hit(processed@, processed_key(url, operations)));
    let found = <MemoryImageCacher as ImageCacher<
        ImageFetchRequest,
        ImageFetchedCacheRequest,
    >>::get(unprocessed, &fetch_request);
    let (state, action) = step(state, Event::UnprocessedLookup(found), settings);
    let (state, action, asked_origin) = match action {
        Action::FetchOrigin(_) => {
            let (state, action) = step(state, Event::OriginHeaders(origin.head), settings);
            match action {
                Action::ReadOriginBody => {},
                Action::Respond(response) => {
                    return Served { response, asked_origin: true };
                },
                _ => {
                    return broken();
                },
            }
            let (state, action) = step(state, Event::OriginBody(origin.body), settings);
            let (bytes, entry) = match action {
                Action::StoreUnprocessed { bytes, entry } => (bytes, entry),
                Action::Respond(response) => {
                    return Served { response, asked_origin: true };
                },
                _ => {
                    return broken();
                },
            };
            let stored = <MemoryImageCacher as ImageCacher<
                ImageFetchRequest,
                ImageFetchedCacheRequest,
            >>::set(unprocessed, bytes.as_slice(), &entry);
            proof {
                let object = unprocessed_object(url, entry@.content_type, bytes@);
                assert(object_for(&entry, bytes@) == object);
                lemma_position_of(old(unprocessed)@, object.key);
            }
            let (state, action) = step(state, Event::Stored(stored), settings);
            (state, action, true)
        },
        other => (state, other, false),
    };
    let job = match action {
        Action::Render(job) => job,
        Action::Respond(response) => {
            return Served { response, asked_origin };
        },
        _ => {
            return broken();
        },
    };
    let rendered = render(job, settings);
    let (state, action) = step(state, Event::Rendered(rendered), settings);
    let (bytes, entry) = match action {
        Action::StoreProcessed { bytes, entry } => (bytes, entry),
        Action::Respond(response) => {
            return Served { response, asked_origin };
        },
        _ => {
            return broken();
        },
    };
    let stored = <MemoryImageCacher as ImageCacher<
        ImageResizeRequest,
        ImageResizedCacheRequest,
    >>::set(processed, bytes.as_slice(), &entry);
    assert(object_for(&entry, bytes@) == processed_object(
        url,
        operations,
        entry.content_type@,
        bytes@,
    ));
    let (_, action) = step(state, Event::Stored(stored), settings);
    match action {
        Action::Respond(response) => Served { response, asked_origin },
        _ => broken(),
    }
}

/// Two requests for the same address with different operations, served one
/// after the other from empty tiers, both with success: the tier of source
/// images then holds exactly one object, under the key of the address, with
/// the bytes and the content type that the origin sent to the first request;
/// the tier of transformed images holds exactly two, one under the key of
/// each request, each with the image that was sent and the text of its
/// entry; and the second request did not ask the origin.
///
/// The two requests must have different keys, which they have unless their
/// canonical texts, different as they are, share a digest.
pub proof fn lemma_two_requests_share_the_source(
    url: Seq<char>,
    first_operations: Seq<Operation>,
    second_operations: Seq<Operation>,
    first_origin: OriginReply,
    second_origin: OriginReply,
    processed_between: Seq<StoredView>,
    unprocessed_between: Seq<StoredView>,
    processed_after: Seq<StoredView>,
    unprocessed_after: Seq<StoredView>,
    first: Served,
    second: Served,
)
    requires
        processed_key(url, first_operations) != processed_key(url, second_operations),
        served_request(
            url,
            first_operations,
            first_origin,
            Seq::<StoredView>::empty(),
            Seq::<StoredView>::empty(),
            processed_between,
            unprocessed_between,
            first,
        ),
        served_request(
            url,
            second_operations,
            second_origin,
            processed_between,
            unprocessed_between,
            processed_after,
            unprocessed_after,
            second,
        ),
        first.response is Ok,
        second.response is Ok,
    ensures
        unprocessed_between.len() == 1,
        unprocessed_after == unprocessed_between,
        first_origin.head is Ok,
        first_origin.body is Ok,
        unprocessed_after[0] == unprocessed_object(
            url,
            optional_text(first_origin.head->Ok_0.content_type),
            first_origin.body->Ok_0@,
        ),
        processed_between.len() == 1,
        processed_after.len() == 2,
        processed_after[0] == processed_between[0],
        processed_after[0] == processed_object(
            url,
            first_operations,
            first.response->Ok_0.content_type@,
            first.response->Ok_0.bytes@,
        ),
        processed_after[1] == processed_object(
            url,
            second_operations,
            second.response->Ok_0.content_type@,
            second.response->Ok_0.bytes@,
        ),
        first.asked_origin,
        !second.asked_origin,
{
    let empty = Seq::<StoredView>::empty();
    let first_key = processed_key(url, first_operations);
    let second_key = processed_key(url, second_operations);
    let source_key = unprocessed_key(url);
    assert(position_of(empty, first_key) is None);
    assert(position_of(empty, source_key) is None);
    assert(first.asked_origin);
    let first_response = first.response->Ok_0;
    let first_object = processed_object(
        url,
        first_operations,
        first_response.content_type@,
        first_response.bytes@,
    );
    assert(processed_between == empty.push(first_object));
    assert(processed_between.len() == 1);
    assert(processed_between[0] == first_object);
    assert(source_written(url, first_origin, empty, unprocessed_between));
    let content_type = optional_text(first_origin.head->Ok_0.content_type);
    let bytes = first_origin.body->Ok_0@;
    let source_object = unprocessed_object(url, content_type, bytes);
    assert(unprocessed_between == empty.push(source_object));
    assert(unprocessed_between.len() == 1);
    assert(unprocessed_between[0] == source_object);
    assert(processed_between.drop_last() =~= empty);
    assert(position_of(empty, second_key) is None);
    assert(processed_between.last().key == first_key);
    assert(position_of(processed_between, second_key) is None);
    assert(!processed_hit(processed_between, second_key));
    assert(unprocessed_between.drop_last() =~= empty);
    assert(position_of(unprocessed_between, source_key) == Some(0int));
    assert(sidecar_of(source_object.metadata) == Some(fetched_entry_json(url, content_type))) by {
        assert(source_object.metadata[0].0 == METADATA_JSON_KEY@);
    }
    lemma_parse_fetched_entry(url, content_type);
    assert(unprocessed_hit(unprocessed_between, source_key));
    assert(!second.asked_origin);
    assert(unprocessed_after == unprocessed_between);
    let second_response = second.response->Ok_0;
    let second_object = processed_object(
        url,
        second_operations,
        second_response.content_type@,
        second_response.bytes@,
    );
    assert(processed_after == processed_between.push(second_object));
}

} // verus!
