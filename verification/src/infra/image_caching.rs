//! The two cache tiers: what identifies an entry, what is stored next to
//! the bytes, and how a look-up in the blob store is read.
//!
//! An entry is found under the SHA-256 digest of the canonical text of its
//! request. Next to the bytes the store keeps the canonical text of the
//! entry, so that a hit can be told from a foreign or damaged object.

use crate::api::requests::ImageResizePathParam;
use crate::infra::canonical::{
    fetch_request_json, fetched_entry_json, push_fetch_request, push_json_string,
    push_resize_request, resize_request_json, resized_entry_json,
};
use crate::infra::canonical_reading::{
    hex_value, lemma_fetch_request_json_injective, lemma_parse_fetched_entry,
    lemma_parse_resized_entry, lemma_resize_request_json_injective,
};
use crate::infra::sidecar_reading::{
    fetched_entry_in, read_fetched_sidecar, read_resized_sidecar, resized_entry_in,
};
use crate::infra::errors::AppError;
use crate::infra::image_manipulation::{Operation, Operations};
use crate::text::{push_str, same_text, string_of};
use vstd::prelude::*;

verus! {

/// A request for a transformed image: the source and the operations.
#[derive(Clone, Debug, PartialEq, Eq)]
pub struct ImageResizeRequest {
    pub requested_image_url: String,
    pub operations: Operations,
}

/// A signed target size; a negative value asks for a flip on that axis.
#[derive(Clone, Copy, Debug, PartialEq, Eq, Structural)]
pub struct ImageResize {
    pub target_width: i32,
    pub target_height: i32,
}

impl From<ImageResizePathParam> for ImageResize {
    fn from(param: ImageResizePathParam) -> (resize: ImageResize) {
        ImageResize { target_width: param.target_width, target_height: param.target_height }
    }
}

impl vstd::std_specs::convert::FromSpecImpl<ImageResizePathParam> for ImageResize {
    open spec fn obeys_from_spec() -> bool {
        true
    }

    open spec fn from_spec(param: ImageResizePathParam) -> ImageResize {
        ImageResize { target_width: param.target_width, target_height: param.target_height }
    }
}

/// The entry for a transformed image: its request and the content type of
/// the bytes.
#[derive(Debug, PartialEq, Eq)]
pub struct ImageResizedCacheRequest {
    pub request: ImageResizeRequest,
    pub content_type: String,
}

/// A request for the bytes of a source image.
#[derive(Clone, Debug, PartialEq, Eq)]
pub struct ImageFetchRequest {
    pub requested_image_url: String,
}

/// The entry for the bytes of a source image: its request and the content
/// type that the origin declared, if any.
#[derive(Debug, PartialEq, Eq)]
pub struct ImageFetchedCacheRequest {
    pub request: ImageFetchRequest,
    pub content_type: Option<String>,
}

/// What a hit gives: the cached bytes and the entry stored with them.
pub struct Retrieved<CacheRequest> {
    pub bytes: Vec<u8>,
    pub requested: CacheRequest,
}

/// What a request for a transformed image says.
pub struct ResizeRequestView {
    pub url: Seq<char>,
    pub operations: Seq<Operation>,
}

/// What the entry for a transformed image says.
pub struct ResizedEntryView {
    pub request: ResizeRequestView,
    pub content_type: Seq<char>,
}

/// What the entry for the bytes of a source image says.
pub struct FetchedEntryView {
    pub url: Seq<char>,
    pub content_type: Option<Seq<char>>,
}

impl View for ImageResizeRequest {
    type V = ResizeRequestView;

    open spec fn view(&self) -> ResizeRequestView {
        ResizeRequestView { url: self.requested_image_url@, operations: self.operations@ }
    }
}

impl View for ImageResizedCacheRequest {
    type V = ResizedEntryView;

    open spec fn view(&self) -> ResizedEntryView {
        ResizedEntryView { request: self.request@, content_type: self.content_type@ }
    }
}

impl View for ImageFetchRequest {
    type V = Seq<char>;

    open spec fn view(&self) -> Seq<char> {
        self.requested_image_url@
    }
}

impl View for ImageFetchedCacheRequest {
    type V = FetchedEntryView;

    open spec fn view(&self) -> FetchedEntryView {
        FetchedEntryView {
            url: self.request@,
            content_type: match self.content_type {
                Some(t) => Some(t@),
                None => None,
            },
        }
    }
}

/// The name under which an entry is stored: 64 hexadecimal digits.
#[derive(Debug)]
pub struct CacheKey(pub String);

impl View for CacheKey {
    type V = Seq<char>;

    open spec fn view(&self) -> Seq<char> {
        self.0@
    }
}

/// What is stored next to the bytes of an entry: names and their values.
/// What this crate writes holds no name twice (`distinct_names`); in what
/// comes from elsewhere the first value under a name is the one that counts.
pub struct Metadata(pub Vec<(String, String)>);

/// Whether no name occurs twice among the pairs.
pub open spec fn distinct_names(pairs: Seq<(Seq<char>, Seq<char>)>) -> bool {
    forall|i: int, j: int| 0 <= i < j < pairs.len() ==> pairs[i].0 != pairs[j].0
}

impl View for Metadata {
    type V = Seq<(Seq<char>, Seq<char>)>;

    open spec fn view(&self) -> Seq<(Seq<char>, Seq<char>)> {
        self.0@.map_values(|pair: (String, String)| (pair.0@, pair.1@))
    }
}

/// The name under which the canonical text of an entry is stored.
pub const METADATA_JSON_KEY: &'static str = "_metadata_json";

/// The SHA-256 digest of the UTF-8 bytes of a text, in hexadecimal, as the
/// `sha256` crate writes it.
pub uninterp spec fn sha256_hex(text: Seq<char>) -> Seq<char>;

/// `sha256::digest` on a string.
///
/// Trusted: the digest is a function of the text, and is written as two
/// hexadecimal digits in lower case for each of the 32 bytes of a SHA-256
/// output.
#[verifier::external_body]
fn sha256_digest(text: &str) -> (digest: String)
    ensures
        digest@ == sha256_hex(text@),
        digest@.len() == 64,
        forall|i: int| 0 <= i < digest@.len() ==> hex_value(#[trigger] digest@[i]) is Some,
{
    sha256::digest(text)
}

/// Something that a cache can be asked for.
pub trait CacheGettable {
    /// What is stored for it.
    type Cached;

    /// The canonical text of the request.
    spec fn canonical(&self) -> Seq<char>;

    /// The key of the request: the digest of its canonical text, in 64
    /// hexadecimal digits in lower case.
    fn cache_key(&self) -> (r: Result<CacheKey, AppError>)
        ensures
            r matches Ok(key) && key@ == sha256_hex(self.canonical()) && key@.len() == 64,
            r matches Ok(key) && forall|i: int|
                0 <= i < 64 ==> hex_value(#[trigger] key@[i]) is Some,
    ;
}

/// Something that can be stored in a cache.
pub trait CacheSettable: CacheGettable + Sized {
    /// What it is asked for with.
    type Retrieve;

    /// The canonical text of the entry.
    spec fn sidecar(&self) -> Seq<char>;

    /// Whether `text` reads as an entry of this kind.
    spec fn readable(text: Seq<char>) -> bool;

    /// Whether `text` reads as `entry`.
    spec fn stands_for(text: Seq<char>, entry: &Self) -> bool;

    /// What is stored next to the bytes: the canonical text of the entry,
    /// under `METADATA_JSON_KEY`.
    fn metadata(&self) -> (r: Result<Metadata, AppError>)
        ensures
            r matches Ok(metadata) && metadata@ == seq![(METADATA_JSON_KEY@, self.sidecar())],
            r matches Ok(metadata) && distinct_names(metadata@),
    ;

    /// Reads an entry out of the text stored next to the bytes. `None` where
    /// the text is neither the canonical text of an entry of this kind nor
    /// JSON for one.
    fn from_sidecar(text: &str) -> (r: Option<Self>)
        ensures
            r is Some <==> Self::readable(text@),
            r matches Some(entry) ==> Self::stands_for(text@, &entry),
    ;

    /// What is stored for an entry reads back as that entry; and a text
    /// that reads as an entry is readable.
    proof fn lemma_written_reads_back(text: Seq<char>, entry: &Self)
        ensures
            Self::stands_for(entry.sidecar(), entry),
            Self::stands_for(text, entry) ==> Self::readable(text),
    ;
}

fn single_entry(json: String) -> (metadata: Metadata)
    ensures
        metadata@ == seq![(METADATA_JSON_KEY@, json@)],
{
    let mut entries: Vec<(String, String)> = Vec::new();
    entries.push((METADATA_JSON_KEY.to_owned(), json));
    let metadata = Metadata(entries);
    assert(metadata@ =~= seq![(METADATA_JSON_KEY@, json@)]);
    metadata
}

impl CacheGettable for ImageResizeRequest {
    type Cached = ImageResizedCacheRequest;

    open spec fn canonical(&self) -> Seq<char> {
        resize_request_json(self.requested_image_url@, self.operations@)
    }

    fn cache_key(&self) -> (r: Result<CacheKey, AppError>) {
        let mut out: Vec<char> = Vec::new();
        push_resize_request(&mut out, self.requested_image_url.as_str(), &self.operations.0);
        let as_json = string_of(out.as_slice());
        Ok(CacheKey(sha256_digest(as_json.as_str())))
    }
}

impl CacheGettable for ImageResizedCacheRequest {
    type Cached = ImageResizedCacheRequest;

    open spec fn canonical(&self) -> Seq<char> {
        self.request.canonical()
    }

    fn cache_key(&self) -> (r: Result<CacheKey, AppError>) {
        self.request.cache_key()
    }
}

impl CacheSettable for ImageResizedCacheRequest {
    type Retrieve = ImageResizeRequest;

    open spec fn sidecar(&self) -> Seq<char> {
        resized_entry_json(
            self.request.requested_image_url@,
            self.request.operations@,
            self.content_type@,
        )
    }

    open spec fn readable(text: Seq<char>) -> bool {
        resized_entry_in(text) is Some
    }

    open spec fn stands_for(text: Seq<char>, entry: &Self) -> bool {
        resized_entry_in(text) == Some(
            (entry.request.requested_image_url@, entry.request.operations@, entry.content_type@),
        )
    }

    fn metadata(&self) -> (r: Result<Metadata, AppError>) {
        let mut out: Vec<char> = Vec::new();
        push_str(&mut out, "{\"request\":");
        push_resize_request(
            &mut out,
            self.request.requested_image_url.as_str(),
            &self.request.operations.0,
        );
        push_str(&mut out, ",\"content_type\":");
        push_json_string(&mut out, self.content_type.as_str());
        out.push('}');
        assert(out@ =~= self.sidecar());
        Ok(single_entry(string_of(out.as_slice())))
    }

    fn from_sidecar(text: &str) -> (r: Option<Self>) {
        match read_resized_sidecar(text) {
            Some(parts) => Some(
                ImageResizedCacheRequest {
                    request: ImageResizeRequest {
                        requested_image_url: parts.url,
                        operations: Operations(parts.operations),
                    },
                    content_type: parts.content_type,
                },
            ),
            None => None,
        }
    }

    proof fn lemma_written_reads_back(text: Seq<char>, entry: &Self) {
        lemma_parse_resized_entry(
            entry.request.requested_image_url@,
            entry.request.operations@,
            entry.content_type@,
        );
    }
}

impl CacheGettable for ImageFetchRequest {
    type Cached = ImageFetchedCacheRequest;

    open spec fn canonical(&self) -> Seq<char> {
        fetch_request_json(self.requested_image_url@)
    }

    fn cache_key(&self) -> (r: Result<CacheKey, AppError>) {
        let mut out: Vec<char> = Vec::new();
        push_fetch_request(&mut out, self.requested_image_url.as_str());
        let as_json = string_of(out.as_slice());
        Ok(CacheKey(sha256_digest(as_json.as_str())))
    }
}

impl CacheGettable for ImageFetchedCacheRequest {
    type Cached = ImageFetchedCacheRequest;

    open spec fn canonical(&self) -> Seq<char> {
        self.request.canonical()
    }

    fn cache_key(&self) -> (r: Result<CacheKey, AppError>) {
        self.request.cache_key()
    }
}

impl CacheSettable for ImageFetchedCacheRequest {
    type Retrieve = ImageFetchRequest;

    open spec fn sidecar(&self) -> Seq<char> {
        fetched_entry_json(
            self.request.requested_image_url@,
            match self.content_type {
                Some(t) => Some(t@),
                None => None,
            },
        )
    }

    open spec fn readable(text: Seq<char>) -> bool {
        fetched_entry_in(text) is Some
    }

    open spec fn stands_for(text: Seq<char>, entry: &Self) -> bool {
        fetched_entry_in(text) == Some(
            (
                entry.request.requested_image_url@,
                match entry.content_type {
                    Some(t) => Some(t@),
                    None => None,
                },
            ),
        )
    }

    fn metadata(&self) -> (r: Result<Metadata, AppError>) {
        let mut out: Vec<char> = Vec::new();
        push_str(&mut out, "{\"request\":");
        push_fetch_request(&mut out, self.request.requested_image_url.as_str());
        push_str(&mut out, ",\"content_type\":");
        match &self.content_type {
            Some(t) => {
                push_json_string(&mut out, t.as_str());
            },
            None => {
                push_str(&mut out, "null");
            },
        }
        out.push('}');
        assert(out@ =~= self.sidecar());
        Ok(single_entry(string_of(out.as_slice())))
    }

    fn from_sidecar(text: &str) -> (r: Option<Self>) {
        match read_fetched_sidecar(text) {
            Some(parts) => Some(
                ImageFetchedCacheRequest {
                    request: ImageFetchRequest { requested_image_url: parts.url },
                    content_type: parts.content_type,
                },
            ),
            None => None,
        }
    }

    proof fn lemma_written_reads_back(text: Seq<char>, entry: &Self) {
        lemma_parse_fetched_entry(
            entry.request.requested_image_url@,
            match entry.content_type {
                Some(t) => Some(t@),
                None => None,
            },
        );
    }
}

/// Two requests for a transformed image have the same canonical text
/// exactly when they name the same address and the same operations. Their
/// keys, the digests of their texts, are then the same; requests that differ
/// in either have different texts, and the same key only where two
/// different texts share a digest.
pub proof fn lemma_resize_requests_told_apart(a: ImageResizeRequest, b: ImageResizeRequest)
    ensures
        a.canonical() == b.canonical() <==> a@ == b@,
        a@ == b@ ==> sha256_hex(a.canonical()) == sha256_hex(b.canonical()),
{
    if a.canonical() == b.canonical() {
        lemma_resize_request_json_injective(
            a.requested_image_url@,
            a.operations@,
            b.requested_image_url@,
            b.operations@,
        );
    }
}

/// Two requests for the bytes of a source image have the same canonical
/// text exactly when they name the same address.
pub proof fn lemma_fetch_requests_told_apart(a: ImageFetchRequest, b: ImageFetchRequest)
    ensures
        a.canonical() == b.canonical() <==> a@ == b@,
        a@ == b@ ==> sha256_hex(a.canonical()) == sha256_hex(b.canonical()),
{
    if a.canonical() == b.canonical() {
        lemma_fetch_request_json_injective(a.requested_image_url@, b.requested_image_url@);
    }
}

/// Copies a run of bytes.
pub fn copy_bytes(bytes: &[u8]) -> (copy: Vec<u8>)
    ensures
        copy@ == bytes@,
{
    let mut copy: Vec<u8> = Vec::new();
    let mut i: usize = 0;
    while i < bytes.len()
        invariant
            i <= bytes.len(),
            copy@ == bytes@.take(i as int),
        decreases bytes.len() - i,
    {
        copy.push(bytes[i]);
        i += 1;
    }
    assert(bytes@.take(bytes@.len() as int) =~= bytes@);
    copy
}

/// The value that is stored under `METADATA_JSON_KEY`: that of the first
/// pair with this name.
pub open spec fn sidecar_of(entries: Seq<(Seq<char>, Seq<char>)>) -> Option<Seq<char>>
    decreases entries.len(),
{
    if entries.len() == 0 {
        None
    } else if entries[0].0 == METADATA_JSON_KEY@ {
        Some(entries[0].1)
    } else {
        sidecar_of(entries.drop_first())
    }
}

impl Metadata {
    /// Finds the text that is stored under `METADATA_JSON_KEY`.
    pub fn sidecar_text(&self) -> (r: Option<&String>)
        ensures
            match r {
                Some(text) => sidecar_of(self@) == Some(text@),
                None => sidecar_of(self@) is None,
            },
    {
        let mut i: usize = 0;
        assert(self@.skip(0) =~= self@);
        while i < self.0.len()
            invariant
                i <= self.0.len(),
                sidecar_of(self@) == sidecar_of(self@.skip(i as int)),
            decreases self.0.len() - i,
        {
            let ghost here = self@.skip(i as int);
            assert(here[0] == self@[i as int]);
            assert(here.drop_first() =~= self@.skip(i + 1));
            if same_text(self.0[i].0.as_str(), METADATA_JSON_KEY) {
                return Some(&self.0[i].1);
            }
            i += 1;
        }
        None
    }
}

/// What the blob store says when it is asked for a key.
pub enum StoreLookup {
    /// There is no object under the key.
    NotFound,
    /// The store failed, with this description.
    Failed(String),
    /// There is an object; this is what is stored next to its bytes, if
    /// anything.
    Found { metadata: Option<Metadata> },
}

/// What follows from the answer of the blob store.
pub enum LookupStep<Entry> {
    /// Nothing usable is cached.
    Miss,
    /// The look-up failed.
    Fail(AppError),
    /// This entry is cached; its bytes are to be read.
    ReadBody(Entry),
}

/// What is stored next to the bytes of a found object, as text.
pub open spec fn found_sidecar(metadata: Option<Metadata>) -> Option<Seq<char>> {
    match metadata {
        Some(m) => sidecar_of(m@),
        None => None,
    }
}

/// Reads the answer of the blob store to a look-up.
///
/// An object that is not there is a miss, and so is one that has no
/// readable entry stored with it: bytes are trusted only together with the
/// entry that describes them. A failure of the store is a failure of the
/// look-up.
pub fn on_lookup<Entry: CacheSettable>(lookup: StoreLookup) -> (step: LookupStep<Entry>)
    ensures
        match lookup {
            StoreLookup::NotFound => step is Miss,
            StoreLookup::Failed(reason) => step == LookupStep::<Entry>::Fail(
                AppError::CatchAll(reason),
            ),
            StoreLookup::Found { metadata } => match found_sidecar(metadata) {
                Some(text) => if Entry::readable(text) {
                    step matches LookupStep::ReadBody(entry) && Entry::stands_for(text, &entry)
                } else {
                    step is Miss
                },
                None => step is Miss,
            },
        },
{
    match lookup {
        StoreLookup::NotFound => LookupStep::Miss,
        StoreLookup::Failed(reason) => LookupStep::Fail(AppError::CatchAll(reason)),
        StoreLookup::Found { metadata } => {
            let stored = match &metadata {
                Some(m) => m.sidecar_text(),
                None => None,
            };
            match stored {
                Some(text) => match Entry::from_sidecar(text.as_str()) {
                    Some(entry) => LookupStep::ReadBody(entry),
                    None => LookupStep::Miss,
                },
                None => LookupStep::Miss,
            }
        },
    }
}

/// Completes a hit with the bytes that were read, or fails where they could
/// not be read.
pub fn on_body<Entry>(entry: Entry, body: Result<Vec<u8>, String>) -> (r: Result<
    Option<Retrieved<Entry>>,
    AppError,
>)
    ensures
        r == match body {
            Ok(bytes) => Ok::<Option<Retrieved<Entry>>, AppError>(
                Some(Retrieved { bytes, requested: entry }),
            ),
            Err(reason) => Err::<Option<Retrieved<Entry>>, AppError>(AppError::CatchAll(reason)),
        },
{
    match body {
        Ok(bytes) => Ok(Some(Retrieved { bytes, requested: entry })),
        Err(reason) => Err(AppError::CatchAll(reason)),
    }
}

/// What is written to the blob store for an entry, besides its bytes.
pub struct StoreWrite {
    pub key: CacheKey,
    pub metadata: Metadata,
}

/// Says under which key an entry is written, and what is stored next to
/// its bytes: the key of its request, and its canonical text.
pub fn plan_write<Entry: CacheSettable>(entry: &Entry) -> (r: Result<StoreWrite, AppError>)
    ensures
        r matches Ok(write) && write.key@ == sha256_hex(entry.canonical()) && write.metadata@
            == seq![(METADATA_JSON_KEY@, entry.sidecar())],
{
    let metadata = match entry.metadata() {
        Ok(metadata) => metadata,
        Err(e) => {
            return Err(e);
        },
    };
    let key = match entry.cache_key() {
        Ok(key) => key,
        Err(e) => {
            return Err(e);
        },
    };
    Ok(StoreWrite { key, metadata })
}

/// A cache tier: entries can be looked up by their request and stored with
/// their bytes.
pub trait ImageCacher<GetRequest, SetRequest> where
    GetRequest: CacheGettable<Cached = SetRequest>,
    SetRequest: CacheSettable<Retrieve = GetRequest>,
 {
    /// Looks up the entry of a request. `Ok(None)` is a miss.
    fn get(&self, req: &GetRequest) -> Result<Option<Retrieved<SetRequest>>, AppError>;

    /// Stores bytes under the key of an entry. The last write wins.
    fn set(&mut self, bytes: &[u8], req: &SetRequest) -> Result<(), AppError>;
}

} // verus!
