//! The store wrapper that answers requests for Zarr metadata from N5
//! attributes.
//!
//! A request for a key whose final path segment is `zarr.json` is answered
//! from the `attributes.json` beside it; every other request goes to the
//! wrapped store unchanged. The wrapped store itself is not called from
//! here: this module decides which key to ask for and what to make of the
//! answer.
use vstd::prelude::*;
use vstd::string::{StrSliceExecFns, StringExecFns};

use crate::error::{Error, MetadataError, StorageError, UnsupportedOperation};
use zarrs::metadata::v3::NodeMetadataV3;

use crate::metadata::{answers_document, is_node_document, is_node_translation, is_refusal};
use crate::metadata::{is_translatable, N5Metadata, ZarrNodeMetadata};
use crate::trusted::is_json_of;
use crate::text::same_text;

verus! {

/// File name of Zarr v3 metadata.
pub const ZARR_METADATA_NAME: &'static str = "zarr.json";

/// File name of N5 attributes.
pub const N5_ATTRIBUTES_NAME: &'static str = "attributes.json";

/// A store that presents the N5 hierarchy of the wrapped store as a Zarr
/// v3 hierarchy.
pub struct N5Store<R> {
    inner: R,
}

/// Number of characters up to and including the last `/` of the key; zero
/// if there is none.
pub open spec fn parent_len(key: Seq<char>) -> int
    decreases key.len(),
{
    if key.len() == 0 {
        0
    } else if key.last() == '/' {
        key.len() as int
    } else {
        parent_len(key.drop_last())
    }
}

/// The key up to and including its last `/`.
pub open spec fn parent_prefix(key: Seq<char>) -> Seq<char> {
    key.subrange(0, parent_len(key))
}

/// The key behind its last `/`.
pub open spec fn final_segment(key: Seq<char>) -> Seq<char> {
    key.subrange(parent_len(key), key.len() as int)
}

/// The key that is fetched in place of `key`: for a key whose final
/// segment is the Zarr metadata file name, the key with that segment
/// replaced by the N5 attributes file name; for any other key, none.
pub open spec fn intercepted(key: Seq<char>) -> Option<Seq<char>> {
    if final_segment(key) == ZARR_METADATA_NAME@ {
        Some(parent_prefix(key) + N5_ATTRIBUTES_NAME@)
    } else {
        None
    }
}

/// The key that the wrapped store is asked for when `key` is requested.
pub open spec fn backend_key(key: Seq<char>) -> Seq<char> {
    match intercepted(key) {
        Some(rewritten) => rewritten,
        None => key,
    }
}

/// Whether an N5 document has Zarr v3 metadata: every group does, and the
/// arrays that are translatable.
pub open spec fn has_translation(n5: N5Metadata) -> bool {
    n5 matches N5Metadata::Array(array) ==> is_translatable(array)
}

/// Whether the bytes are the Zarr v3 document of an N5 document: what the
/// JSON library wrote for the metadata document of its translation.
pub open spec fn is_zarr_document_of(n5: N5Metadata, bytes: Seq<u8>) -> bool {
    exists|zarr: ZarrNodeMetadata, node: NodeMetadataV3|
        {
            &&& #[trigger] is_node_translation(n5, zarr)
            &&& is_node_document(zarr, Ok::<NodeMetadataV3, Error>(node))
            &&& #[trigger] is_json_of(bytes, node)
        }
}

/// Whether `result` answers a request for the metadata under `key`, given
/// what was found under the attributes key that stands in for it:
///
/// - nothing was found: nothing is returned;
/// - what was found is not an N5 document: the key and the parser's
///   message are reported as invalid metadata;
/// - the document is a group that holds a key of an array: the key is
///   reported as invalid metadata, for an incomplete array;
/// - the document is an array without Zarr v3 metadata: the key and the
///   reason are reported as invalid metadata;
/// - otherwise: the bytes of the Zarr v3 document of the N5 document are
///   returned, unless the JSON library fails to write it, which is
///   reported as invalid metadata with the key.
pub open spec fn is_answer(
    key: Seq<char>,
    fetched: Option<Result<N5Metadata, String>>,
    result: Result<Option<Vec<u8>>, StorageError>,
) -> bool {
    match fetched {
        None => result matches Ok(None),
        Some(Err(message)) => {
            &&& result matches Err(
                StorageError::InvalidMetadata {
                    key: reported,
                    cause: Error::InvalidMetadata(MetadataError::Malformed(text)),
                },
            )
            &&& reported@ == key
            &&& text@ == message@
        },
        Some(Ok(n5)) => if !n5.is_well_formed() {
            &&& result matches Err(
                StorageError::InvalidMetadata {
                    key: reported,
                    cause: Error::InvalidMetadata(MetadataError::IncompleteArray),
                },
            )
            &&& reported@ == key
        } else if has_translation(n5) {
            ||| result matches Ok(Some(bytes)) && is_zarr_document_of(n5, bytes@)
            ||| {
                &&& result matches Err(
                    StorageError::InvalidMetadata {
                        key: reported,
                        cause: Error::InvalidMetadata(MetadataError::Json(_)),
                    },
                )
                &&& reported@ == key
            }
        } else {
            &&& result matches Err(StorageError::InvalidMetadata { key: reported, cause })
            &&& reported@ == key
            &&& n5 matches N5Metadata::Array(array)
            &&& is_refusal(array, cause)
        },
    }
}

/// The parent prefix lies within the key and is empty or ends in `/`, and
/// the final segment holds no `/`.
pub proof fn law_key_is_split_at_its_last_separator(key: Seq<char>)
    ensures
        0 <= parent_len(key) <= key.len(),
        parent_len(key) > 0 ==> key[parent_len(key) - 1] == '/',
        forall|i: int| parent_len(key) <= i < key.len() ==> key[i] != '/',
    decreases key.len(),
{
    if key.len() > 0 && key.last() != '/' {
        let front = key.drop_last();
        law_key_is_split_at_its_last_separator(front);
        assert forall|i: int| parent_len(key) <= i < key.len() implies key[i] != '/' by {
            if i < front.len() {
                assert(key[i] == front[i]);
            }
        }
    }
}

/// A key made of a prefix that is empty or ends in `/`, and of `name`
/// without any `/`, has that prefix as its parent prefix.
proof fn lemma_parent_of_joined(prefix: Seq<char>, name: Seq<char>)
    requires
        prefix.len() == 0 || prefix.last() == '/',
        forall|i: int| 0 <= i < name.len() ==> name[i] != '/',
    ensures
        parent_len(prefix + name) == prefix.len(),
    decreases name.len(),
{
    let key = prefix + name;
    if name.len() == 0 {
        assert(key =~= prefix);
    } else {
        assert(key.last() == name.last());
        assert(key.drop_last() =~= prefix + name.drop_last());
        lemma_parent_of_joined(prefix, name.drop_last());
    }
}

/// A request for the Zarr metadata file in any directory, or at the root,
/// is answered from the N5 attributes file in the same place.
pub proof fn law_metadata_key_is_rewritten(prefix: Seq<char>)
    requires
        prefix.len() == 0 || prefix.last() == '/',
    ensures
        intercepted(prefix + ZARR_METADATA_NAME@) == Some(prefix + N5_ATTRIBUTES_NAME@),
        backend_key(prefix + ZARR_METADATA_NAME@) == prefix + N5_ATTRIBUTES_NAME@,
{
    reveal_strlit("zarr.json");
    let name = ZARR_METADATA_NAME@;
    let key = prefix + name;
    lemma_parent_of_joined(prefix, name);
    assert(parent_prefix(key) =~= prefix);
    assert(final_segment(key) =~= name);
}

/// A key whose final segment is not the Zarr metadata file name is passed
/// on as it is.
pub proof fn law_other_keys_pass_through(key: Seq<char>)
    requires
        final_segment(key) != ZARR_METADATA_NAME@,
    ensures
        intercepted(key) is None,
        backend_key(key) == key,
{
}

/// Finds the end of the parent prefix of a key.
fn find_parent_len(key: &str) -> (len: usize)
    ensures
        len == parent_len(key@),
        len <= key@.len(),
{
    let n = key.unicode_len();
    let mut end: usize = 0;
    let mut i: usize = 0;
    assert(key@.take(0).len() == 0);
    for c in chars: key.chars()
        invariant
            i == chars.index(),
            chars.seq() == key@,
            end == parent_len(key@.take(i as int)),
            end <= i,
            i <= n,
            n == key@.len(),
    {
        proof {
            let next = key@.take(i + 1);
            assert(next.drop_last() =~= key@.take(i as int));
            assert(next.last() == key@[i as int]);
        }
        i += 1;
        if c == '/' {
            end = i;
        }
    }
    assert(key@.take(key@.len() as int) =~= key@);
    end
}

impl<R> N5Store<R> {
    /// The wrapped store.
    pub closed spec fn wrapped(&self) -> R {
        self.inner
    }

    /// Wraps `inner`.
    pub fn new(inner: R) -> (store: Self)
        ensures
            store.wrapped() == inner,
    {
        Self { inner }
    }

    /// The wrapped store.
    pub fn inner(&self) -> (inner: &R)
        ensures
            *inner == self.wrapped(),
    {
        &self.inner
    }

    /// The key that the wrapped store is asked for when `key` is
    /// requested, be it for the value or for its size: the attributes key
    /// in place of a metadata key, any other key unchanged.
    pub fn backend_key(&self, key: &str) -> (asked: String)
        ensures
            asked@ == backend_key(key@),
    {
        match self.intercept_zarr_json(key) {
            Some(rewritten) => rewritten,
            None => String::from_str(key),
        }
    }

    /// Convert N5 metadata to Zarr metadata.
    ///
    /// `key` is the metadata key that was requested and `fetched` is what
    /// the wrapped store holds under the attributes key that stands in
    /// for it: nothing, an N5 document, or the message of the parser that
    /// refused it. The result is the answer to the request, as
    /// [`is_answer`] says.
    pub fn convert_metadata(&self, key: &str, fetched: Option<Result<N5Metadata, String>>) -> (result:
        Result<Option<Vec<u8>>, StorageError>)
        ensures
            is_answer(key@, fetched, result),
    {
        let n5 = match fetched {
            None => {
                return Ok(None);
            },
            Some(Err(message)) => {
                return Err(
                    StorageError::InvalidMetadata {
                        key: String::from_str(key),
                        cause: Error::InvalidMetadata(MetadataError::Malformed(message)),
                    },
                );
            },
            Some(Ok(n5)) => n5,
        };
        let n5 = match n5.checked() {
            Ok(n5) => n5,
            Err(e) => {
                return Err(StorageError::InvalidMetadata { key: String::from_str(key), cause: e });
            },
        };
        let zarr = match n5.translate() {
            Ok(zarr) => zarr,
            Err(e) => {
                return Err(StorageError::InvalidMetadata { key: String::from_str(key), cause: e });
            },
        };
        assert(is_node_translation(n5, zarr));
        let written = zarr.to_json_bytes();
        proof {
            if written is Ok {
                let document = choose|document: Result<NodeMetadataV3, Error>|
                    is_node_document(zarr, document) && #[trigger] answers_document(
                        document,
                        written,
                    );
                let node = document->Ok_0;
                assert(is_node_document(zarr, Ok::<NodeMetadataV3, Error>(node)));
                assert(is_json_of(written->Ok_0@, node));
            }
        }
        match written {
            Ok(bytes) => Ok(Some(bytes)),
            Err(e) => Err(StorageError::InvalidMetadata { key: String::from_str(key), cause: e }),
        }
    }

    /// Partial reads are not supported, whatever the wrapped store offers:
    /// metadata can only be translated as a whole.
    pub fn supports_get_partial(&self) -> (supported: bool)
        ensures
            !supported,
    {
        false
    }

    /// Reading a byte range of a value: always refused.
    pub fn get_partial(&self, _key: &str) -> (result: Result<Option<Vec<u8>>, StorageError>)
        ensures
            result matches Err(StorageError::Unsupported(UnsupportedOperation::GetPartial)),
    {
        Err(StorageError::Unsupported(UnsupportedOperation::GetPartial))
    }

    /// Reading several byte ranges of a value: always refused.
    pub fn get_partial_many(&self, _key: &str) -> (result: Result<Vec<Vec<u8>>, StorageError>)
        ensures
            result matches Err(StorageError::Unsupported(UnsupportedOperation::GetPartialMany)),
    {
        Err(StorageError::Unsupported(UnsupportedOperation::GetPartialMany))
    }

    /// Map requests for zarr.json to attributes.json.
    ///
    /// Returns None if the request was _not_ for a zarr.json object.
    /// Otherwise, returns the key of the equivalent attributes.json object.
    pub fn intercept_zarr_json(&self, key: &str) -> (rewritten: Option<String>)
        ensures
            match rewritten {
                Some(k) => intercepted(key@) == Some(k@),
                None => intercepted(key@) is None,
            },
    {
        let n = key.unicode_len();
        let split = find_parent_len(key);
        let suffix = key.substring_char(split, n);
        if same_text(suffix, ZARR_METADATA_NAME) {
            let mut k = String::from_str(key.substring_char(0, split));
            k.append(N5_ATTRIBUTES_NAME);
            Some(k)
        } else {
            None
        }
    }
}

} // verus!
