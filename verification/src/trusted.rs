//! The boundary to `zarrs`: the types of it that pass through this crate and
//! the calls into it.
//!
//! Nothing in this file is proved. Each contract restates what the called
//! code does and is taken on trust by the verifier.
use vstd::prelude::*;

use serde_json::Error as SerdeJsonError;
use serde_json::{Map as JsonMap, Number, Value};
use std::borrow::Cow;
use std::num::NonZeroU64;
use std::sync::Arc;
use zarrs::array::codec::{BytesCodec, Bz2Codec, Bz2CompressionLevel, GzipCodec};
use zarrs::array::codec::GzipCompressionLevelError;
use zarrs::array::chunk_grid::{RegularBoundedChunkGrid, RegularBoundedChunkGridConfiguration};
use zarrs::array::{data_type, CodecChain, FillValue};
use zarrs::metadata::v3::{ArrayMetadataV3, FillValueMetadataV3, GroupMetadataV3};
use zarrs::metadata::v3::{MetadataV3, NodeMetadataV3};
use zarrs::plugin::ExtensionAliasesV3;
use zarrs_codec::{ArrayBytes, ArrayToBytesCodecTraits, BytesToBytesCodecTraits};
use zarrs_codec::{CodecError, CodecOptions};

use crate::codec::{transform_of, CompressionTransform, N5BytesToBytesCodec};
use crate::data_type::N5DataType;
use crate::shape::{all_nonzero, chunk_bytes};

verus! {

/// `zarrs_codec::CodecError`, the error of a codec.
#[verifier::external_type_specification]
#[verifier::external_body]
pub struct ExCodecError(CodecError);

/// `zarrs_codec::CodecOptions`, options of one run of a codec.
#[verifier::external_type_specification]
#[verifier::external_body]
pub struct ExCodecOptions(CodecOptions);

/// `zarrs_codec::ArrayBytes`, the bytes of the elements of an array.
#[verifier::external_type_specification]
#[verifier::external_body]
pub struct ExArrayBytes<'a>(ArrayBytes<'a>);

/// `zarrs::array::CodecChain`, a sequence of codecs.
#[verifier::external_type_specification]
#[verifier::external_body]
pub struct ExCodecChain(CodecChain);

/// `zarrs::array::FillValue`, the fill value of an array.
#[verifier::external_type_specification]
#[verifier::external_body]
pub struct ExFillValue(FillValue);

/// `zarrs::array::codec::Bz2Codec`, the bzip2 codec.
#[verifier::external_type_specification]
#[verifier::external_body]
pub struct ExBz2Codec(Bz2Codec);

/// `zarrs::array::codec::GzipCodec`, the gzip codec.
#[verifier::external_type_specification]
#[verifier::external_body]
pub struct ExGzipCodec(GzipCodec);

/// `zarrs::array::codec::GzipCompressionLevelError`, a refused gzip level.
#[verifier::external_type_specification]
#[verifier::external_body]
pub struct ExGzipCompressionLevelError(GzipCompressionLevelError);

/// `Clone::clone` of `CodecChain`: a chain of the same codecs.
pub assume_specification[ <CodecChain as Clone>::clone ](chain: &CodecChain) -> (copy: CodecChain)
    ensures
        copy == *chain,
;

/// `Clone::clone` of `serde_json::Map`: an object with the same entries.
pub assume_specification[ <JsonMap<String, Value> as Clone>::clone ](
    object: &JsonMap<String, Value>,
) -> (copy: JsonMap<String, Value>)
    ensures
        copy == *object,
;

/// What `GzipCodec::new` makes of a level: the gzip codec with that level,
/// or the refusal of the level.
pub uninterp spec fn gzip_codec_made(level: u32) -> Result<GzipCodec, GzipCompressionLevelError>;

/// `GzipCodec::new`: accepts the levels 0 to 9 and no other. The outcome
/// depends on the level alone.
pub assume_specification[ GzipCodec::new ](compression_level: u32) -> (result: Result<
    GzipCodec,
    GzipCompressionLevelError,
>)
    ensures
        result == gzip_codec_made(compression_level),
        result is Ok <==> compression_level < 10,
;

/// What `Bz2CompressionLevel::new` and `Bz2Codec::new` make of a block
/// size: the bzip2 codec with that block size, or the block size handed
/// back.
pub uninterp spec fn bz2_codec_made(block_size: u32) -> Result<Bz2Codec, u32>;

/// `Bz2CompressionLevel::new` followed by `Bz2Codec::new`: a bzip2 codec
/// with the given block size. The level type accepts 0 to 9 and hands any
/// other value back; the codec panics on 0, which is therefore excluded.
/// The outcome depends on the block size alone.
#[verifier::external_body]
pub(crate) fn bz2_codec(block_size: u32) -> (result: Result<Bz2Codec, u32>)
    requires
        block_size != 0,
    ensures
        result == bz2_codec_made(block_size),
        result is Ok <==> block_size < 10,
        result matches Err(rejected) ==> rejected == block_size,
{
    Bz2CompressionLevel::new(block_size).map(Bz2Codec::new)
}

/// The chain that `CodecChain::new` makes of the big-endian `bytes` codec
/// and of the codec of the given transform, if there is one.
pub uninterp spec fn chain_for(transform: Option<CompressionTransform>) -> CodecChain;

/// `CodecChain::new` on `BytesCodec::big`: a chain with no array-to-array
/// codec, the `bytes` codec for big-endian data as its array-to-bytes
/// codec and, if there is one, the given compressor as its only
/// bytes-to-bytes codec. The compressor is the codec that was made for its
/// transform, so the chain depends on the transform alone.
#[verifier::external_body]
pub(crate) fn codec_chain(compressor: Option<N5BytesToBytesCodec>) -> (chain: CodecChain)
    requires
        compressor matches Some(codec) ==> codec.is_made(),
    ensures
        chain == chain_for(transform_of(compressor)),
{
    let bytes_to_bytes: Option<Arc<dyn BytesToBytesCodecTraits>> = match compressor {
        Some(N5BytesToBytesCodec::Bzip2 { codec, .. }) => Some(Arc::new(codec)),
        Some(N5BytesToBytesCodec::Gzip { codec, .. }) => Some(Arc::new(codec)),
        None => None,
    };
    CodecChain::new(vec![], Arc::new(BytesCodec::big()), bytes_to_bytes.into_iter().collect())
}

/// Whether a chain, run on the payload of a chunk of the given shape and
/// element type, can give these elements.
pub uninterp spec fn chain_gives(
    chain: CodecChain,
    payload: Seq<u8>,
    shape: Seq<u64>,
    data_type: N5DataType,
    elements: ArrayBytes<'static>,
) -> bool;

/// `ArrayToBytesCodecTraits::decode` of a `CodecChain`: decodes the payload
/// of one chunk into the bytes of its elements, or fails. The chain
/// computes in 64 bits the size of the decoded chunk and, for a compressed
/// one, a bound on the size of the encoded chunk that exceeds it by less
/// than a quarter and 1024 bytes; it converts the former to `usize`.
/// Hence the bound asked of the caller. The elements are in the byte order
/// of the machine, so they are tied to the call by a relation and not
/// named.
#[verifier::external_body]
pub(crate) fn chain_decode(
    chain: &CodecChain,
    payload: Vec<u8>,
    shape: &[u64],
    data_type: N5DataType,
    fill_value: &FillValue,
    options: &CodecOptions,
) -> (result: Result<ArrayBytes<'static>, CodecError>)
    requires
        all_nonzero(shape@),
        2 * chunk_bytes(shape@, data_type) <= usize::MAX,
    ensures
        result matches Ok(elements) ==> chain_gives(*chain, payload@, shape@, data_type, elements),
{
    let shape: Vec<NonZeroU64> = shape.iter().map(|n| NonZeroU64::new(*n).unwrap()).collect();
    let data_type = match data_type {
        N5DataType::UInt8 => data_type::uint8(),
        N5DataType::Int8 => data_type::int8(),
        N5DataType::UInt16 => data_type::uint16(),
        N5DataType::Int16 => data_type::int16(),
        N5DataType::UInt32 => data_type::uint32(),
        N5DataType::Int32 => data_type::int32(),
        N5DataType::UInt64 => data_type::uint64(),
        N5DataType::Int64 => data_type::int64(),
        N5DataType::Float32 => data_type::float32(),
        N5DataType::Float64 => data_type::float64(),
    };
    chain.decode(Cow::Owned(payload), &shape, &data_type, fill_value, options)
}

/// `serde_json::Map`, a JSON object.
#[verifier::external_type_specification]
#[verifier::external_body]
#[verifier::reject_recursive_types(K)]
#[verifier::reject_recursive_types(V)]
pub struct ExJsonMap<K, V>(JsonMap<K, V>);

/// `serde_json::Value`, a JSON value.
#[verifier::external_type_specification]
#[verifier::external_body]
pub struct ExJsonValue(Value);

/// `serde_json::Error`, the error of the JSON library.
#[verifier::external_type_specification]
#[verifier::external_body]
pub struct ExJsonError(SerdeJsonError);

/// `zarrs::metadata::v3::MetadataV3`, a name with a configuration.
#[verifier::external_type_specification]
#[verifier::external_body]
pub struct ExMetadataV3(MetadataV3);

/// `zarrs::metadata::v3::ArrayMetadataV3`, the metadata document of an array.
#[verifier::external_type_specification]
#[verifier::external_body]
pub struct ExArrayMetadataV3(ArrayMetadataV3);

/// `zarrs::metadata::v3::GroupMetadataV3`, the metadata document of a group.
#[verifier::external_type_specification]
#[verifier::external_body]
pub struct ExGroupMetadataV3(GroupMetadataV3);

/// `zarrs::metadata::v3::NodeMetadataV3`, the metadata document of a node.
#[verifier::external_type_specification]
#[verifier::external_body]
pub struct ExNodeMetadataV3(NodeMetadataV3);

/// `zarrs::metadata::v3::FillValueMetadataV3`, the fill value in a metadata document.
#[verifier::external_type_specification]
#[verifier::external_body]
pub struct ExFillValueMetadataV3(FillValueMetadataV3);

/// What `serde_json::from_str` makes of a text that is read as a JSON
/// object: the object, or the error of the parser.
pub uninterp spec fn json_object_of(text: Seq<char>) -> Result<
    JsonMap<String, Value>,
    SerdeJsonError,
>;

/// `serde_json::from_str` into a `serde_json::Map`: parses the text of a
/// JSON object. The outcome depends on the text alone.
#[verifier::external_body]
pub(crate) fn json_object(text: &str) -> (result: Result<JsonMap<String, Value>, SerdeJsonError>)
    ensures
        result == json_object_of(text@),
{
    serde_json::from_str(text)
}

/// What `MetadataV3::new` returns for a name.
pub uninterp spec fn metadata_named(name: Seq<char>) -> MetadataV3;

/// `MetadataV3::new`: metadata that consists of a name. The result
/// depends on the name alone.
#[verifier::external_body]
pub(crate) fn named_metadata(name: &str) -> (metadata: MetadataV3)
    ensures
        metadata == metadata_named(name@),
{
    MetadataV3::new(name)
}

/// What `MetadataV3::new_with_configuration` returns for a name and a
/// configuration.
pub uninterp spec fn metadata_configured(
    name: Seq<char>,
    configuration: JsonMap<String, Value>,
) -> MetadataV3;

/// `MetadataV3::new_with_configuration`: metadata that consists of a name
/// and a configuration. The result depends on the two alone.
#[verifier::external_body]
pub(crate) fn configured_metadata(name: &str, configuration: JsonMap<String, Value>) -> (metadata:
    MetadataV3)
    ensures
        metadata == metadata_configured(name@, configuration),
{
    MetadataV3::new_with_configuration(name, configuration)
}

/// `ExtensionAliasesV3::aliases_v3` of `RegularBoundedChunkGrid`: the name
/// under which the regular bounded chunk grid goes at this moment. The
/// name is read from a table that `zarrs` keeps for the process and that
/// its users may change, so nothing is claimed of it.
#[verifier::external_body]
pub(crate) fn regular_bounded_grid_name() -> String {
    RegularBoundedChunkGrid::aliases_v3().default_name.clone().to_string()
}

/// What `MetadataV3::new_with_serializable_configuration` makes of a name
/// and the configuration of a regular bounded chunk grid with the given
/// chunk shape: the metadata, or the error of the JSON library.
pub uninterp spec fn grid_metadata(name: Seq<char>, chunk_shape: Seq<u64>) -> Result<
    MetadataV3,
    SerdeJsonError,
>;

/// `MetadataV3::new_with_serializable_configuration` on a
/// `RegularBoundedChunkGridConfiguration`: metadata of a regular bounded
/// chunk grid with the given chunk shape, whose extents the configuration
/// holds as non-zero integers. The outcome depends on the name and the
/// chunk shape alone.
#[verifier::external_body]
pub(crate) fn regular_bounded_grid_metadata(name: String, chunk_shape: &[u64]) -> (result: Result<
    MetadataV3,
    SerdeJsonError,
>)
    requires
        all_nonzero(chunk_shape@),
    ensures
        result == grid_metadata(name@, chunk_shape@),
{
    let chunk_shape = chunk_shape.iter().map(|n| NonZeroU64::new(*n).unwrap()).collect();
    MetadataV3::new_with_serializable_configuration(
        name,
        &RegularBoundedChunkGridConfiguration { chunk_shape },
    )
}

/// The fill value metadata that `serde_json::Number::from` gives for a
/// number.
pub uninterp spec fn fill_value_number(value: u64) -> FillValueMetadataV3;

/// `serde_json::Number::from`: the fill value metadata that is the given
/// number. The result depends on the number alone.
#[verifier::external_body]
pub(crate) fn number_fill_value(value: u64) -> (fill_value: FillValueMetadataV3)
    ensures
        fill_value == fill_value_number(value),
{
    FillValueMetadataV3::Number(Number::from(value))
}

/// What `ArrayMetadataV3::new` returns for the given fields.
pub uninterp spec fn array_metadata(
    shape: Seq<u64>,
    chunk_grid: MetadataV3,
    data_type: MetadataV3,
    fill_value: FillValueMetadataV3,
    codecs: Seq<MetadataV3>,
) -> ArrayMetadataV3;

/// `ArrayMetadataV3::new`: array metadata with the given fields. The
/// result depends on them alone.
pub assume_specification[ ArrayMetadataV3::new ](
    shape: Vec<u64>,
    chunk_grid: MetadataV3,
    data_type: MetadataV3,
    fill_value: FillValueMetadataV3,
    codecs: Vec<MetadataV3>,
) -> (metadata: ArrayMetadataV3)
    ensures
        metadata == array_metadata(shape@, chunk_grid, data_type, fill_value, codecs@),
;

/// What `ArrayMetadataV3::with_chunk_key_encoding` returns.
pub uninterp spec fn array_metadata_with_chunk_key_encoding(
    metadata: ArrayMetadataV3,
    chunk_key_encoding: MetadataV3,
) -> ArrayMetadataV3;

/// `ArrayMetadataV3::with_chunk_key_encoding`: the same metadata with
/// another chunk key encoding. The result depends on the two alone.
pub assume_specification[ ArrayMetadataV3::with_chunk_key_encoding ](
    metadata: ArrayMetadataV3,
    chunk_key_encoding: MetadataV3,
) -> (changed: ArrayMetadataV3)
    ensures
        changed == array_metadata_with_chunk_key_encoding(metadata, chunk_key_encoding),
;

/// What `ArrayMetadataV3::with_attributes` returns.
pub uninterp spec fn array_metadata_with_attributes(
    metadata: ArrayMetadataV3,
    attributes: JsonMap<String, Value>,
) -> ArrayMetadataV3;

/// `ArrayMetadataV3::with_attributes`: the same metadata with other
/// attributes. The result depends on the two alone.
pub assume_specification[ ArrayMetadataV3::with_attributes ](
    metadata: ArrayMetadataV3,
    attributes: JsonMap<String, Value>,
) -> (changed: ArrayMetadataV3)
    ensures
        changed == array_metadata_with_attributes(metadata, attributes),
;

/// The group metadata that `GroupMetadataV3::new` and
/// `GroupMetadataV3::with_attributes` make of attributes.
pub uninterp spec fn group_metadata_of(attributes: JsonMap<String, Value>) -> GroupMetadataV3;

/// `GroupMetadataV3::with_attributes` on `GroupMetadataV3::new`: group
/// metadata with the given attributes and nothing else. The result
/// depends on the attributes alone.
#[verifier::external_body]
pub(crate) fn group_metadata(attributes: JsonMap<String, Value>) -> (metadata: GroupMetadataV3)
    ensures
        metadata == group_metadata_of(attributes),
{
    GroupMetadataV3::new().with_attributes(attributes)
}

/// The keys of a JSON object.
pub uninterp spec fn json_keys(object: JsonMap<String, Value>) -> Set<Seq<char>>;

/// `serde_json::Map::contains_key`: whether the object has an entry under
/// the key.
#[verifier::external_body]
pub(crate) fn has_key(object: &JsonMap<String, Value>, key: &str) -> (found: bool)
    ensures
        found == json_keys(*object).contains(key@),
{
    object.contains_key(key)
}

/// Array metadata as node metadata.
pub uninterp spec fn array_node_of(metadata: ArrayMetadataV3) -> NodeMetadataV3;

/// `NodeMetadataV3::Array`: array metadata as node metadata.
#[verifier::external_body]
pub(crate) fn array_node(metadata: ArrayMetadataV3) -> (node: NodeMetadataV3)
    ensures
        node == array_node_of(metadata),
{
    NodeMetadataV3::Array(metadata)
}

/// Group metadata as node metadata.
pub uninterp spec fn group_node_of(metadata: GroupMetadataV3) -> NodeMetadataV3;

/// `NodeMetadataV3::Group`: group metadata as node metadata.
#[verifier::external_body]
pub(crate) fn group_node(metadata: GroupMetadataV3) -> (node: NodeMetadataV3)
    ensures
        node == group_node_of(metadata),
{
    NodeMetadataV3::Group(metadata)
}

/// Whether the bytes are a JSON document that `serde_json::to_vec` can
/// write for the node metadata.
pub uninterp spec fn is_json_of(bytes: Seq<u8>, node: NodeMetadataV3) -> bool;

/// `serde_json::to_vec` on `NodeMetadataV3`: the metadata as the bytes of
/// a JSON document. Node metadata can hold a hash map, which is written in
/// an order of its own, so the bytes are tied to the node by a relation
/// and not named.
#[verifier::external_body]
pub(crate) fn node_bytes(node: &NodeMetadataV3) -> (result: Result<Vec<u8>, SerdeJsonError>)
    ensures
        result matches Ok(bytes) ==> is_json_of(bytes@, *node),
{
    serde_json::to_vec(node)
}

} // verus!
