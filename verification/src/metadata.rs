//! The metadata of a gRPC request, held in tonic's `MetadataMap`.

use crate::headers::{
    bytes_of, first_value, header_name, lemma_name_spells_itself, lookup_name, HeadersFull,
    MAX_NAMES,
};
use crate::text::opt_bytes;
use http::{HeaderName, HeaderValue};
use tonic::metadata::{AsciiMetadataKey, AsciiMetadataValue, MetadataMap};
use vstd::prelude::*;
use vstd::string::StringSliceAdditionalSpecFns;

verus! {

#[verifier::external_type_specification]
#[verifier::external_body]
pub struct ExMetadataMap(tonic::metadata::MetadataMap);

/// The values of each header name, in the order in which they were added.
pub type Entries = Map<Seq<u8>, Seq<Seq<u8>>>;

/// What a metadata map holds: the values of each name, in the order in which
/// they were added.
pub uninterp spec fn metadata_entries(m: tonic::metadata::MetadataMap) -> Map<
    Seq<u8>,
    Seq<Seq<u8>>,
>;

/// `MetadataMap::new` makes a map without entries.
pub assume_specification[ tonic::metadata::MetadataMap::new ]() -> (r:
    tonic::metadata::MetadataMap)
    ensures
        metadata_entries(r) == Entries::empty(),
;

/// Cloning a metadata map keeps its entries.
pub assume_specification[ <tonic::metadata::MetadataMap as Clone>::clone ](
    m: &tonic::metadata::MetadataMap,
) -> (r: tonic::metadata::MetadataMap)
    ensures
        metadata_entries(r) == metadata_entries(*m),
;

/// Whether a key ends in `-bin`, which marks binary metadata.
pub open spec fn ends_with_bin(key: Seq<u8>) -> bool {
    let n = key.len();
    n >= 4 && key[n - 4] == 0x2d && key[n - 3] == 0x62 && key[n - 2] == 0x69 && key[n - 1] == 0x6e
}

/// The key of text metadata that `src` spells, if it spells one.
pub open spec fn ascii_key(src: Seq<u8>) -> Option<Seq<u8>> {
    match header_name(src) {
        Some(name) => if ends_with_bin(name) {
            None
        } else {
            Some(name)
        },
        None => None,
    }
}

/// Whether bytes can be the value of text metadata: control characters are
/// left out, all but the tab.
pub open spec fn is_value(bytes: Seq<u8>) -> bool {
    forall|i: int|
        0 <= i < bytes.len() ==> (#[trigger] bytes[i] >= 32 && bytes[i] != 127) || bytes[i] == 9
}

/// The first value of text metadata under a key.
pub open spec fn metadata_value_of(entries: Entries, key: Seq<u8>) -> Option<Seq<u8>> {
    if ends_with_bin(key) {
        None
    } else {
        first_value(entries, lookup_name(key))
    }
}

/// `MetadataMap::get` by a string finds the first value of the key. A key that
/// ends in `-bin` is not one of text metadata and is not found.
#[verifier::external_body]
pub(crate) fn metadata_get<'a>(metadata: &'a MetadataMap, key: &str) -> (r: Option<&'a [u8]>)
    ensures
        bytes_of(r) == metadata_value_of(metadata_entries(*metadata), key.spec_bytes()),
{
    match metadata.get(key) {
        Some(value) => Some(value.as_encoded_bytes()),
        None => None,
    }
}

/// `AsciiMetadataKey::from_bytes` takes the names of headers, in any case, that
/// do not end in `-bin`, and gives them in lower case.
#[verifier::external_body]
pub(crate) fn metadata_key(src: &[u8]) -> (r: Option<Vec<u8>>)
    ensures
        opt_bytes(r) == ascii_key(src@),
{
    match AsciiMetadataKey::from_bytes(src) {
        Ok(key) => Some(key.as_str().as_bytes().to_vec()),
        Err(_) => None,
    }
}

/// Parsing a string as an `AsciiMetadataValue` takes every string without
/// control characters, tabs left aside, and keeps its bytes.
#[verifier::external_body]
pub(crate) fn metadata_value(text: &str) -> (r: Option<Vec<u8>>)
    ensures
        r is Some == is_value(text.spec_bytes()),
        r matches Some(v) ==> v@ == text.spec_bytes(),
{
    match text.parse::<AsciiMetadataValue>() {
        Ok(value) => Some(value.as_encoded_bytes().to_vec()),
        Err(_) => None,
    }
}

/// `HeaderMap::try_insert` on the headers that a `MetadataMap` is made of, which
/// its `insert` goes through too. It replaces all values of the key by the one
/// given, and tells whether it did. Where the map is full, it does nothing; a
/// map with few names is not.
#[verifier::external_body]
pub(crate) fn metadata_insert(metadata: &mut MetadataMap, key: &[u8], value: &[u8]) -> (r: bool)
    requires
        ascii_key(key@) is Some,
        is_value(value@),
    ensures
        metadata_entries(*final(metadata)) == (if r {
            metadata_entries(*old(metadata)).insert(ascii_key(key@)->0, seq![value@])
        } else {
            metadata_entries(*old(metadata))
        }),
        metadata_entries(*old(metadata)).dom().len() <= MAX_NAMES ==> r,
{
    let key = HeaderName::from_bytes(key).unwrap();
    metadata.as_mut().try_insert(key, HeaderValue::from_bytes(value).unwrap()).is_ok()
}

/// The entries once a value was put under a key, or as they are where the one
/// is no key or the other no value.
pub open spec fn with_value(entries: Entries, key: Seq<u8>, value: Seq<u8>) -> Entries {
    match ascii_key(key) {
        Some(name) => if is_value(value) {
            entries.insert(name, seq![value])
        } else {
            entries
        },
        None => entries,
    }
}

/// Whether a value is sure to be put under a key: where the one is no key or the
/// other no value, nothing is done, and otherwise the map has room for sure.
pub open spec fn has_room_for(entries: Entries, key: Seq<u8>, value: Seq<u8>) -> bool {
    ascii_key(key) is Some && is_value(value) ==> entries.dom().len() <= MAX_NAMES
}

/// Puts a value under a key, where the one is a key and the other a value. Fails
/// where the map is full.
pub(crate) fn set_metadata(metadata: &mut MetadataMap, key: &str, value: &str) -> (r: Result<
    (),
    HeadersFull,
>)
    ensures
        metadata_entries(*final(metadata)) == (if r is Ok {
            with_value(metadata_entries(*old(metadata)), key.spec_bytes(), value.spec_bytes())
        } else {
            metadata_entries(*old(metadata))
        }),
        has_room_for(metadata_entries(*old(metadata)), key.spec_bytes(), value.spec_bytes())
            ==> r is Ok,
{
    let ghost spelled = key.spec_bytes();
    if let Some(key) = metadata_key(key.as_bytes()) {
        if let Some(value) = metadata_value(value) {
            proof {
                lemma_name_spells_itself(spelled);
            }
            if !metadata_insert(metadata, key.as_slice(), value.as_slice()) {
                return Err(HeadersFull);
            }
        }
    }
    Ok(())
}

} // verus!
