//! A cache tier that lives in memory.
//!
//! It follows the same protocol as a tier in a blob store: an entry is
//! written under the key of its request together with its canonical text,
//! and a look-up trusts bytes only where that text reads as an entry.

use crate::infra::errors::AppError;
use crate::infra::image_caching::{
    copy_bytes, on_body, on_lookup, plan_write, sha256_hex, sidecar_of, CacheGettable,
    CacheSettable, ImageCacher, LookupStep, Metadata, Retrieved, StoreLookup, METADATA_JSON_KEY,
};
use crate::text::same_text;
use vstd::prelude::*;

verus! {

/// One object of a tier: the key it is stored under, what is stored next to
/// the bytes, and the bytes.
pub struct StoredObject {
    pub key: String,
    pub metadata: Metadata,
    pub bytes: Vec<u8>,
}

/// What an object of a tier holds.
pub struct StoredView {
    pub key: Seq<char>,
    pub metadata: Seq<(Seq<char>, Seq<char>)>,
    pub bytes: Seq<u8>,
}

impl View for StoredObject {
    type V = StoredView;

    open spec fn view(&self) -> StoredView {
        StoredView { key: self.key@, metadata: self.metadata@, bytes: self.bytes@ }
    }
}

/// A cache tier in memory: a list of objects.
pub struct MemoryImageCacher {
    pub objects: Vec<StoredObject>,
}

impl View for MemoryImageCacher {
    type V = Seq<StoredView>;

    open spec fn view(&self) -> Seq<StoredView> {
        self.objects@.map_values(|object: StoredObject| object@)
    }
}

/// The place of the object that is stored under `key`, if there is one.
pub open spec fn position_of(tier: Seq<StoredView>, key: Seq<char>) -> Option<int>
    decreases tier.len(),
{
    if tier.len() == 0 {
        None
    } else if tier.last().key == key {
        Some(tier.len() - 1)
    } else {
        position_of(tier.drop_last(), key)
    }
}

/// Whether no two objects of a tier are stored under the same key.
pub open spec fn distinct_keys(tier: Seq<StoredView>) -> bool {
    forall|i: int, j: int| 0 <= i < j < tier.len() ==> tier[i].key != tier[j].key
}

/// The tier after `object` has been written to it: the object takes the
/// place of the one that was stored under its key, or is added.
pub open spec fn written(tier: Seq<StoredView>, object: StoredView) -> Seq<StoredView> {
    match position_of(tier, object.key) {
        Some(at) => tier.update(at, object),
        None => tier.push(object),
    }
}

/// What `position_of` finds is stored under the key, and where it finds
/// nothing, nothing is stored under the key.
pub proof fn lemma_position_of(tier: Seq<StoredView>, key: Seq<char>)
    ensures
        match position_of(tier, key) {
            Some(at) => 0 <= at < tier.len() && tier[at].key == key,
            None => forall|i: int| 0 <= i < tier.len() ==> tier[i].key != key,
        },
    decreases tier.len(),
{
    if tier.len() > 0 && tier.last().key != key {
        lemma_position_of(tier.drop_last(), key);
        assert forall|i: int| 0 <= i < tier.len() && position_of(tier, key) is None implies tier[i].key
            != key by {
            if i < tier.len() - 1 {
                assert(tier.drop_last()[i] == tier[i]);
            }
        }
    }
}

/// A write keeps the keys of a tier distinct, and leaves the object under
/// its key.
pub proof fn lemma_written(tier: Seq<StoredView>, object: StoredView)
    requires
        distinct_keys(tier),
    ensures
        distinct_keys(written(tier, object)),
        position_of(written(tier, object), object.key) matches Some(at) && written(tier, object)[at]
            == object,
        written(tier, object).len() == if position_of(tier, object.key) is Some {
            tier.len()
        } else {
            tier.len() + 1
        },
{
    lemma_position_of(tier, object.key);
    let after = written(tier, object);
    lemma_position_of(after, object.key);
    match position_of(tier, object.key) {
        Some(at) => {
            assert(after[at].key == object.key);
        },
        None => {
            assert(after[tier.len() as int].key == object.key);
        },
    }
}

impl MemoryImageCacher {
    /// A tier that holds nothing.
    pub fn new() -> (tier: MemoryImageCacher)
        ensures
            tier@.len() == 0,
    {
        MemoryImageCacher { objects: Vec::new() }
    }

    /// The number of objects in the tier.
    pub fn len(&self) -> (n: usize)
        ensures
            n == self@.len(),
    {
        self.objects.len()
    }

    fn find(&self, key: &str) -> (r: Option<usize>)
        ensures
            match r {
                Some(at) => at < self.objects.len() && position_of(self@, key@) == Some(at as int),
                None => position_of(self@, key@) is None,
            },
    {
        let mut i: usize = self.objects.len();
        assert(self@.take(i as int) =~= self@);
        while i > 0
            invariant
                i <= self.objects.len(),
                position_of(self@, key@) == position_of(self@.take(i as int), key@),
            decreases i,
        {
            let ghost here = self@.take(i as int);
            assert(here.last() == self@[i - 1]);
            assert(here.drop_last() =~= self@.take(i - 1));
            if same_text(self.objects[i - 1].key.as_str(), key) {
                return Some(i - 1);
            }
            i -= 1;
        }
        None
    }
}

fn copy_metadata(metadata: &Metadata) -> (copy: Metadata)
    ensures
        copy@ == metadata@,
{
    let mut pairs: Vec<(String, String)> = Vec::new();
    let mut i: usize = 0;
    while i < metadata.0.len()
        invariant
            i <= metadata.0.len(),
            Metadata(pairs)@ =~= metadata@.take(i as int),
        decreases metadata.0.len() - i,
    {
        let name = metadata.0[i].0.clone();
        let value = metadata.0[i].1.clone();
        let ghost before = Metadata(pairs)@;
        pairs.push((name, value));
        assert(Metadata(pairs)@ =~= before.push((name@, value@)));
        assert(metadata@[i as int] == (name@, value@));
        assert(metadata@.take(i + 1) =~= metadata@.take(i as int).push(metadata@[i as int]));
        i += 1;
    }
    assert(metadata@.take(metadata@.len() as int) =~= metadata@);
    Metadata(pairs)
}

/// What a look-up of `request` in a tier gives.
///
/// Nothing, where no object is stored under the key of the request or the
/// object has no readable entry with it; else the bytes of the object and
/// the entry that its text reads as.
pub open spec fn looked_up<GetRequest, SetRequest>(
    tier: Seq<StoredView>,
    request: &GetRequest,
    r: Result<Option<Retrieved<SetRequest>>, AppError>,
) -> bool where
    GetRequest: CacheGettable<Cached = SetRequest>,
    SetRequest: CacheSettable<Retrieve = GetRequest>,
 {
    match position_of(tier, sha256_hex(request.canonical())) {
        None => r matches Ok(None),
        Some(at) => match sidecar_of(tier[at].metadata) {
            None => r matches Ok(None),
            Some(text) => if SetRequest::readable(text) {
                &&& r matches Ok(Some(hit))
                &&& hit.bytes@ == tier[at].bytes
                &&& SetRequest::stands_for(text, &hit.requested)
            } else {
                r matches Ok(None)
            },
        },
    }
}

/// The object that is written for an entry and its bytes.
pub open spec fn object_for<SetRequest: CacheSettable>(entry: &SetRequest, bytes: Seq<u8>) -> StoredView {
    StoredView {
        key: sha256_hex(entry.canonical()),
        metadata: seq![(METADATA_JSON_KEY@, entry.sidecar())],
        bytes,
    }
}

impl<GetRequest, SetRequest> ImageCacher<GetRequest, SetRequest> for MemoryImageCacher where
    GetRequest: CacheGettable<Cached = SetRequest>,
    SetRequest: CacheSettable<Retrieve = GetRequest>,
 {
    /// Looks up the entry of a request, as `looked_up` says.
    fn get(&self, req: &GetRequest) -> (r: Result<Option<Retrieved<SetRequest>>, AppError>)
        ensures
            looked_up(self@, req, r),
    {
        let key = match req.cache_key() {
            Ok(key) => key,
            Err(e) => {
                return Err(e);
            },
        };
        let lookup = match self.find(key.0.as_str()) {
            Some(at) => StoreLookup::Found {
                metadata: Some(copy_metadata(&self.objects[at].metadata)),
            },
            None => StoreLookup::NotFound,
        };
        match on_lookup::<SetRequest>(lookup) {
            LookupStep::Miss => Ok(None),
            LookupStep::Fail(e) => Err(e),
            LookupStep::ReadBody(entry) => {
                let at = match self.find(key.0.as_str()) {
                    Some(at) => at,
                    None => {
                        return Ok(None);
                    },
                };
                on_body(entry, Ok(copy_bytes(self.objects[at].bytes.as_slice())))
            },
        }
    }

    /// Writes the bytes under the key of the entry: the tier afterwards is
    /// `written` with the object for them.
    fn set(&mut self, bytes: &[u8], req: &SetRequest) -> (r: Result<(), AppError>)
        ensures
            r is Ok,
            final(self)@ == written(old(self)@, object_for(req, bytes@)),
    {
        let write = match plan_write(req) {
            Ok(write) => write,
            Err(e) => {
                return Err(e);
            },
        };
        let found = self.find(write.key.0.as_str());
        let object = StoredObject {
            key: write.key.0,
            metadata: write.metadata,
            bytes: copy_bytes(bytes),
        };
        assert(object@ == object_for(req, bytes@));
        match found {
            Some(at) => {
                self.objects.set(at, object);
                assert(self@ =~= old(self)@.update(at as int, object@));
            },
            None => {
                self.objects.push(object);
                assert(self@ =~= old(self)@.push(object@));
            },
        }
        Ok(())
    }
}

} // verus!
