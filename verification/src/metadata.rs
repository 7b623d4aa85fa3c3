//! N5 attribute documents and their translation to Zarr v3 metadata.
use vstd::prelude::*;
use vstd::string::StringExecFns;

use serde_json::Error as SerdeJsonError;
use serde_json::{Map as JsonMap, Value};
use zarrs::metadata::v3::{ArrayMetadataV3, GroupMetadataV3, MetadataV3, NodeMetadataV3};

use crate::chunk_key_encoding::CHUNK_KEY_ENCODING_NAME;
use crate::codec::{resolve, N5Codec, N5CodecConfiguration, CODEC_NAME};
use crate::data_type::{data_type_named, N5DataType};
use crate::error::{Error, MetadataError};
use crate::text::{decimal, push_decimal, push_signed_decimal, signed_decimal};
use crate::shape::{all_nonzero, reversed};
use crate::trusted::{array_metadata, array_metadata_with_attributes};
use crate::trusted::{array_metadata_with_chunk_key_encoding, array_node, array_node_of};
use crate::trusted::{configured_metadata, fill_value_number, grid_metadata, group_metadata};
use crate::trusted::{group_metadata_of, group_node, group_node_of, has_key, is_json_of};
use crate::trusted::{json_keys, json_object, json_object_of};
use crate::trusted::{metadata_configured, metadata_named, named_metadata, node_bytes};
use crate::trusted::{number_fill_value, regular_bounded_grid_metadata, regular_bounded_grid_name};

verus! {

/// Representation of N5 metadata, either an array or a group.
#[derive(Debug, Clone)]
pub enum N5Metadata {
    /// The attributes of an array.
    Array(N5ArrayMetadata),
    /// The attributes of a group.
    Group(N5GroupMetadata),
}

/// Representation of N5 group metadata.
#[derive(Debug, Clone)]
pub struct N5GroupMetadata {
    /// N5 version; present if this is a hierarchy root.
    pub n5_version: Option<String>,
    /// Unstructured attributes.
    pub attributes: JsonMap<String, Value>,
}

/// Representation of N5 array metadata.
#[derive(Debug, Clone)]
pub struct N5ArrayMetadata {
    /// N5 version; present if this is a hierarchy root.
    pub n5_version: Option<String>,
    /// Array shape. Note that N5 uses F order, so the dimensions are reversed compared to Zarr.
    pub dimensions: Vec<u64>,
    /// Chunk shape. Note that N5 uses F order, so the dimensions are reversed compared to Zarr.
    pub block_size: Vec<u64>,
    /// Data type as a string.
    pub data_type: String,
    /// Chunk compression configuration.
    pub compression: N5Compression,
    /// Unstructured attributes.
    pub attributes: JsonMap<String, Value>,
}

/// Zarr v3 metadata of a group, as plain values.
#[derive(Debug)]
pub struct ZarrGroupMetadata {
    /// The attributes of the group.
    pub attributes: JsonMap<String, Value>,
}

/// Zarr v3 metadata of an array that is stored as N5, as plain values.
#[derive(Debug)]
pub struct ZarrArrayMetadata {
    /// Array shape, in row-major order.
    pub shape: Vec<u64>,
    /// Chunk shape of the regular bounded chunk grid, in row-major order.
    pub chunk_shape: Vec<u64>,
    /// Element type.
    pub data_type: N5DataType,
    /// Fill value: a number.
    pub fill_value: u64,
    /// Configurations of the codecs, each of them an N5 codec.
    pub codecs: Vec<N5CodecConfiguration>,
    /// The attributes of the array.
    pub attributes: JsonMap<String, Value>,
}

/// Zarr v3 metadata of a node, as plain values.
#[derive(Debug)]
pub enum ZarrNodeMetadata {
    /// Metadata of an array.
    Array(ZarrArrayMetadata),
    /// Metadata of a group.
    Group(ZarrGroupMetadata),
}

/// N5 chunk compression configuration.
#[non_exhaustive]
#[allow(inconsistent_fields)]
#[derive(Debug, Clone, Copy, PartialEq, Eq, Structural)]
pub enum N5Compression {
    /// Uncompressed.
    Raw,
    /// bzip2.
    Bzip2 {
        /// Default 9. Must be in the range 1..=9.
        block_size: u8,
    },
    /// gzip.
    Gzip {
        /// Default -1, meaning the default of the implementation, 6.
        /// Otherwise in the range 0..=9.
        level: i8,
    },
    /// LZ4.
    Lz4 {
        /// Default 65536.
        level: u64,
    },
    /// XZ.
    Xz {
        /// Default 6.
        preset: u32,
    },
}

impl Default for N5Compression {
    fn default() -> (scheme: Self)
        ensures
            scheme == N5Compression::Raw,
    {
        N5Compression::Raw
    }
}

/// The gzip level that stands for "default of the implementation".
pub const GZIP_IMPLEMENTATION_DEFAULT: i8 = -1;

/// The level gzip uses where the scheme asks for the default.
pub const GZIP_DEFAULT_LEVEL: u32 = 6;

/// Block size of a bzip2 scheme that names none.
pub fn default_bzip2_block_size() -> (block_size: u8)
    ensures
        block_size == 9,
{
    9
}

/// Level of a gzip scheme that names none.
pub fn default_gzip_level() -> (level: i8)
    ensures
        level == GZIP_IMPLEMENTATION_DEFAULT,
{
    GZIP_IMPLEMENTATION_DEFAULT
}

/// Level of an LZ4 scheme that names none.
pub fn lz4_default_level() -> (level: u64)
    ensures
        level == 65536,
{
    65536
}

/// Preset of an XZ scheme that names none.
pub fn default_xz_preset() -> (preset: u32)
    ensures
        preset == 6,
{
    6
}

impl From<N5ArrayMetadata> for N5Metadata {
    fn from(value: N5ArrayMetadata) -> (metadata: Self) {
        Self::Array(value)
    }
}

impl vstd::std_specs::convert::FromSpecImpl<N5ArrayMetadata> for N5Metadata {
    open spec fn obeys_from_spec() -> bool {
        true
    }

    open spec fn from_spec(value: N5ArrayMetadata) -> Self {
        Self::Array(value)
    }
}

impl From<N5GroupMetadata> for N5Metadata {
    fn from(value: N5GroupMetadata) -> (metadata: Self) {
        Self::Group(value)
    }
}

impl vstd::std_specs::convert::FromSpecImpl<N5GroupMetadata> for N5Metadata {
    open spec fn obeys_from_spec() -> bool {
        true
    }

    open spec fn from_spec(value: N5GroupMetadata) -> Self {
        Self::Group(value)
    }
}

/// The fill value of every translated array. N5 fills with zero whatever
/// the element type.
pub const FILL_VALUE: u64 = 0;

/// Whether attributes hold one of the keys that make a document an array:
/// `dimensions`, `blockSize`, `dataType` or `compression`.
pub open spec fn carries_array_key(attributes: JsonMap<String, Value>) -> bool {
    ||| json_keys(attributes).contains("dimensions"@)
    ||| json_keys(attributes).contains("blockSize"@)
    ||| json_keys(attributes).contains("dataType"@)
    ||| json_keys(attributes).contains("compression"@)
}

impl N5GroupMetadata {
    /// Whether the attributes hold one of the keys of an array. A group
    /// holds none of them: a document that holds some is an array that
    /// lacks a field or has one of the wrong shape.
    pub fn carries_array_key(&self) -> (found: bool)
        ensures
            found == carries_array_key(self.attributes),
    {
        has_key(&self.attributes, "dimensions") || has_key(&self.attributes, "blockSize")
            || has_key(&self.attributes, "dataType") || has_key(&self.attributes, "compression")
    }
}

impl N5Metadata {
    /// Whether the document is an array, or a group that holds none of the
    /// keys of an array.
    pub open spec fn is_well_formed(self) -> bool {
        self matches N5Metadata::Group(group) ==> !carries_array_key(group.attributes)
    }

    /// Hands the document back if it is well formed, and refuses a group
    /// that holds a key of an array as an incomplete array.
    pub fn checked(self) -> (result: Result<Self, Error>)
        ensures
            match result {
                Ok(document) => self.is_well_formed() && document == self,
                Err(error) => {
                    &&& !self.is_well_formed()
                    &&& error matches Error::InvalidMetadata(MetadataError::IncompleteArray)
                },
            },
    {
        let incomplete = match &self {
            N5Metadata::Array(_) => false,
            N5Metadata::Group(group) => group.carries_array_key(),
        };
        if incomplete {
            Err(Error::InvalidMetadata(MetadataError::IncompleteArray))
        } else {
            Ok(self)
        }
    }

    /// The text of the N5 version, if the document has one.
    pub open spec fn spec_version(self) -> Option<Seq<char>> {
        let version = match self {
            N5Metadata::Array(m) => m.n5_version,
            N5Metadata::Group(m) => m.n5_version,
        };
        match version {
            Some(v) => Some(v@),
            None => None,
        }
    }

    /// Get the N5 version if present.
    pub fn version(&self) -> (version: Option<&str>)
        ensures
            match version {
                Some(v) => self.spec_version() == Some(v@),
                None => self.spec_version() is None,
            },
    {
        match self {
            N5Metadata::Array(m) => match &m.n5_version {
                Some(v) => Some(v.as_str()),
                None => None,
            },
            N5Metadata::Group(m) => match &m.n5_version {
                Some(v) => Some(v.as_str()),
                None => None,
            },
        }
    }

    /// The unstructured attributes.
    pub open spec fn spec_attributes(self) -> JsonMap<String, Value> {
        match self {
            N5Metadata::Array(m) => m.attributes,
            N5Metadata::Group(m) => m.attributes,
        }
    }

    /// Extract the unstructured attributes map.
    pub fn into_attributes(self) -> (attributes: JsonMap<String, Value>)
        ensures
            attributes == self.spec_attributes(),
    {
        match self {
            N5Metadata::Array(m) => m.attributes,
            N5Metadata::Group(m) => m.attributes,
        }
    }

    /// Translates the attributes to Zarr v3 metadata.
    ///
    /// A group keeps its attributes and always translates. An array
    /// translates as [`N5ArrayMetadata::translate`] says.
    pub fn translate(self) -> (result: Result<ZarrNodeMetadata, Error>)
        ensures
            match (self, result) {
                (N5Metadata::Group(group), Ok(ZarrNodeMetadata::Group(zarr))) => zarr.attributes
                    == group.attributes,
                (N5Metadata::Array(array), Ok(ZarrNodeMetadata::Array(zarr))) => {
                    &&& is_translatable(array)
                    &&& is_translation(array, zarr)
                    &&& is_n5_array(zarr)
                },
                (N5Metadata::Array(array), Err(error)) => {
                    &&& !is_translatable(array)
                    &&& is_refusal(array, error)
                },
                _ => false,
            },
    {
        match self {
            N5Metadata::Array(m) => match m.translate() {
                Ok(zarr) => Ok(ZarrNodeMetadata::Array(zarr)),
                Err(e) => Err(e),
            },
            N5Metadata::Group(m) => Ok(ZarrNodeMetadata::Group(m.translate())),
        }
    }
}

/// Whether `zarr` is the Zarr v3 metadata of the N5 document `n5`: a group
/// with the same attributes for a group, and the array that
/// [`is_translation`] describes for an array.
pub open spec fn is_node_translation(n5: N5Metadata, zarr: ZarrNodeMetadata) -> bool {
    match (n5, zarr) {
        (N5Metadata::Group(group), ZarrNodeMetadata::Group(translated)) => translated.attributes
            == group.attributes,
        (N5Metadata::Array(array), ZarrNodeMetadata::Array(translated)) => is_translation(
            array,
            translated,
        ),
        _ => false,
    }
}

/// Whether `zarr` is the Zarr v3 metadata of the N5 array `n5`: shape and
/// chunk shape are `dimensions` and `blockSize` read backwards, the element
/// type is the one `dataType` names, the fill value is zero, the only
/// codec is the N5 codec with the compression of the array, and the
/// attributes are the same.
pub open spec fn is_translation(n5: N5ArrayMetadata, zarr: ZarrArrayMetadata) -> bool {
    &&& zarr.shape@ == n5.dimensions@.reverse()
    &&& zarr.chunk_shape@ == n5.block_size@.reverse()
    &&& data_type_named(n5.data_type@) == Some(zarr.data_type)
    &&& zarr.fill_value == FILL_VALUE
    &&& zarr.codecs@ == seq![N5CodecConfiguration { compression: n5.compression }]
    &&& zarr.attributes == n5.attributes
}

/// Whether an N5 array has Zarr v3 metadata: no entry of `blockSize` is
/// zero, `dataType` names a type, and the compression resolves to a
/// transform.
pub open spec fn is_translatable(n5: N5ArrayMetadata) -> bool {
    &&& all_nonzero(n5.block_size@)
    &&& data_type_named(n5.data_type@) is Some
    &&& resolve(n5.compression) is Ok
}

/// Whether `error` is the reason for which an N5 array has no Zarr v3
/// metadata. The block size is judged first, then the data type, then the
/// compression.
pub open spec fn is_refusal(n5: N5ArrayMetadata, error: Error) -> bool {
    if !all_nonzero(n5.block_size@) {
        error matches Error::InvalidMetadata(MetadataError::ZeroBlockSize)
    } else if data_type_named(n5.data_type@) is None {
        &&& error matches Error::InvalidMetadata(MetadataError::UnsupportedDataType(name))
        &&& name@ == n5.data_type@
    } else {
        &&& resolve(n5.compression) matches Err(expected)
        &&& error matches Error::UnsupportedCompression(e)
        &&& e == expected
    }
}

/// The shape and the chunk shape of a translated array have as many
/// extents as `dimensions` and `blockSize`, and the last extent of the one
/// is the first of the other. An array whose `dimensions` and `blockSize`
/// agree in length keeps that agreement.
pub proof fn law_translation_reverses_axes(n5: N5ArrayMetadata, zarr: ZarrArrayMetadata)
    requires
        is_translation(n5, zarr),
    ensures
        zarr.shape@.len() == n5.dimensions@.len(),
        zarr.chunk_shape@.len() == n5.block_size@.len(),
        forall|i: int|
            0 <= i < n5.dimensions@.len() ==> zarr.shape@[i] == n5.dimensions@[n5.dimensions@.len()
                - 1 - i],
        forall|i: int|
            0 <= i < n5.block_size@.len() ==> zarr.chunk_shape@[i] == n5.block_size@[
                n5.block_size@.len() - 1 - i],
        n5.dimensions@.len() == n5.block_size@.len() ==> zarr.shape@.len()
            == zarr.chunk_shape@.len(),
{
}

/// Whether an array has a chunk shape without zero extents and exactly one
/// codec, as every translated array does.
pub open spec fn is_n5_array(zarr: ZarrArrayMetadata) -> bool {
    &&& all_nonzero(zarr.chunk_shape@)
    &&& zarr.codecs@.len() == 1
}

/// Reverses block_size into the chunk shape of a regular bounded chunk
/// grid. Fails if an entry is zero, and only then.
pub fn convert_chunk_grid(block_size: &[u64]) -> (result: Result<Vec<u64>, Error>)
    ensures
        match result {
            Ok(chunk_shape) => all_nonzero(block_size@) && chunk_shape@ == block_size@.reverse()
                && all_nonzero(chunk_shape@),
            Err(error) => {
                &&& !all_nonzero(block_size@)
                &&& error matches Error::InvalidMetadata(MetadataError::ZeroBlockSize)
            },
        },
{
    let mut i: usize = 0;
    while i < block_size.len()
        invariant
            i <= block_size@.len(),
            forall|j: int| 0 <= j < i ==> block_size@[j] != 0,
        decreases block_size@.len() - i,
    {
        if block_size[i] == 0 {
            return Err(Error::InvalidMetadata(MetadataError::ZeroBlockSize));
        }
        i += 1;
    }
    Ok(reversed(block_size))
}

/// Maps the name of an N5 data type to the type. Fails for any name that
/// is not the name of a type.
pub fn convert_data_type(data_type: &str) -> (result: Result<N5DataType, Error>)
    ensures
        match result {
            Ok(found) => data_type_named(data_type@) == Some(found),
            Err(error) => {
                &&& data_type_named(data_type@) is None
                &&& error matches Error::InvalidMetadata(MetadataError::UnsupportedDataType(name))
                &&& name@ == data_type@
            },
        },
{
    match N5DataType::from_name(data_type) {
        Some(found) => Ok(found),
        None => Err(
            Error::InvalidMetadata(MetadataError::UnsupportedDataType(String::from_str(data_type))),
        ),
    }
}

/// The fill value of a translated array.
pub fn convert_fill_value() -> (fill_value: u64)
    ensures
        fill_value == FILL_VALUE,
{
    FILL_VALUE
}

/// The name of the chunk key encoding of a translated array.
pub fn convert_chunk_key_encoding() -> (name: &'static str)
    ensures
        name@ == CHUNK_KEY_ENCODING_NAME@,
{
    CHUNK_KEY_ENCODING_NAME
}

impl N5GroupMetadata {
    /// The Zarr v3 metadata of the group: its attributes, unchanged.
    pub fn translate(self) -> (zarr: ZarrGroupMetadata)
        ensures
            zarr.attributes == self.attributes,
    {
        ZarrGroupMetadata { attributes: self.attributes }
    }
}

impl N5ArrayMetadata {
    /// The Zarr v3 metadata of the array.
    ///
    /// Succeeds exactly for the arrays that are translatable, with the
    /// metadata that [`is_translation`] describes; fails otherwise with the
    /// error that [`is_refusal`] describes.
    pub fn translate(self) -> (result: Result<ZarrArrayMetadata, Error>)
        ensures
            match result {
                Ok(zarr) => is_translatable(self) && is_translation(self, zarr) && is_n5_array(
                    zarr,
                ),
                Err(error) => !is_translatable(self) && is_refusal(self, error),
            },
    {
        let shape = reversed(self.dimensions.as_slice());
        let chunk_shape = match convert_chunk_grid(self.block_size.as_slice()) {
            Ok(chunk_shape) => chunk_shape,
            Err(e) => {
                return Err(e);
            },
        };
        let data_type = match convert_data_type(self.data_type.as_str()) {
            Ok(data_type) => data_type,
            Err(e) => {
                return Err(e);
            },
        };
        let fill_value = convert_fill_value();
        let n5_codec = match N5Codec::new(self.compression) {
            Ok(codec) => codec,
            Err(e) => {
                return Err(e);
            },
        };
        let mut codecs: Vec<N5CodecConfiguration> = Vec::new();
        codecs.push(n5_codec.configuration());
        assert(codecs@ =~= seq![N5CodecConfiguration { compression: self.compression }]);
        Ok(
            ZarrArrayMetadata {
                shape,
                chunk_shape,
                data_type,
                fill_value,
                codecs,
                attributes: self.attributes,
            },
        )
    }
}

/// The JSON text of a compression scheme: an object with the tag of the
/// scheme under `type` and, but for `raw`, its parameter.
pub open spec fn compression_text(compression: N5Compression) -> Seq<char> {
    match compression {
        N5Compression::Raw => "{\"type\":\"raw\"}"@,
        N5Compression::Bzip2 { block_size } => "{\"type\":\"bzip2\",\"block_size\":"@ + decimal(
            block_size as nat,
        ) + "}"@,
        N5Compression::Gzip { level } => "{\"type\":\"gzip\",\"level\":"@ + signed_decimal(
            level as int,
        ) + "}"@,
        N5Compression::Lz4 { level } => "{\"type\":\"lz4\",\"level\":"@ + decimal(level as nat)
            + "}"@,
        N5Compression::Xz { preset } => "{\"type\":\"xz\",\"preset\":"@ + decimal(preset as nat)
            + "}"@,
    }
}

/// The JSON text of the configuration of an N5 codec: an object with the
/// compression scheme under `compression`.
pub open spec fn codec_configuration_text(configuration: N5CodecConfiguration) -> Seq<char> {
    "{\"compression\":"@ + compression_text(configuration.compression) + "}"@
}

impl N5CodecConfiguration {
    /// The configuration as the text of a JSON object.
    pub fn to_json(&self) -> (text: String)
        ensures
            text@ == codec_configuration_text(*self),
    {
        let mut text = String::from_str("{\"compression\":");
        match self.compression {
            N5Compression::Raw => {
                text.append("{\"type\":\"raw\"}");
            },
            N5Compression::Bzip2 { block_size } => {
                text.append("{\"type\":\"bzip2\",\"block_size\":");
                push_decimal(&mut text, block_size as u64);
                text.append("}");
            },
            N5Compression::Gzip { level } => {
                text.append("{\"type\":\"gzip\",\"level\":");
                push_signed_decimal(&mut text, level as i64);
                text.append("}");
            },
            N5Compression::Lz4 { level } => {
                text.append("{\"type\":\"lz4\",\"level\":");
                push_decimal(&mut text, level);
                text.append("}");
            },
            N5Compression::Xz { preset } => {
                text.append("{\"type\":\"xz\",\"preset\":");
                push_decimal(&mut text, preset as u64);
                text.append("}");
            },
        }
        text.append("}");
        assert(text@ =~= codec_configuration_text(*self));
        text
    }
}

/// Whether `result` is what the JSON library made of a document, with its
/// error, if it gave one, reported as invalid metadata.
pub open spec fn is_json_outcome<T>(result: Result<T, Error>, made: Result<T, SerdeJsonError>) -> bool {
    match (result, made) {
        (Ok(found), Ok(document)) => found == document,
        (Err(Error::InvalidMetadata(MetadataError::Json(found))), Err(e)) => found == e,
        _ => false,
    }
}

/// The entry of an N5 codec in the codec list of an array: metadata that
/// goes by the name of the codec and is configured with the object that
/// the text of the configuration parses to.
pub open spec fn codec_entry(configuration: N5CodecConfiguration) -> Result<
    MetadataV3,
    SerdeJsonError,
> {
    match json_object_of(codec_configuration_text(configuration)) {
        Ok(object) => Ok(metadata_configured(CODEC_NAME@, object)),
        Err(e) => Err(e),
    }
}

/// The codec list of an array: the entry of each codec, in order, or the
/// error of the first codec that has none.
pub open spec fn codec_entries(codecs: Seq<N5CodecConfiguration>) -> Result<
    Seq<MetadataV3>,
    SerdeJsonError,
>
    decreases codecs.len(),
{
    if codecs.len() == 0 {
        Ok(Seq::empty())
    } else {
        match codec_entries(codecs.drop_last()) {
            Err(e) => Err(e),
            Ok(entries) => match codec_entry(codecs.last()) {
                Ok(entry) => Ok(entries.push(entry)),
                Err(e) => Err(e),
            },
        }
    }
}

/// The metadata document of an array whose regular bounded chunk grid
/// goes by `grid_name`:
///
/// - the shape is that of the array,
/// - the chunk grid goes by `grid_name` and is configured with the chunk
///   shape,
/// - the data type goes by its name and the fill value is the number,
/// - the codecs are the entries of the N5 codecs,
/// - the chunk key encoding goes by the name of the N5 encoding,
/// - the attributes are those of the array,
///
/// or the error of the JSON library: that of the chunk grid, else that of
/// the first codec that has one.
pub open spec fn array_document(zarr: ZarrArrayMetadata, grid_name: Seq<char>) -> Result<
    ArrayMetadataV3,
    SerdeJsonError,
> {
    match grid_metadata(grid_name, zarr.chunk_shape@) {
        Err(e) => Err(e),
        Ok(chunk_grid) => match codec_entries(zarr.codecs@) {
            Err(e) => Err(e),
            Ok(codecs) => Ok(
                array_metadata_with_attributes(
                    array_metadata_with_chunk_key_encoding(
                        array_metadata(
                            zarr.shape@,
                            chunk_grid,
                            metadata_named(zarr.data_type.spec_name()),
                            fill_value_number(zarr.fill_value),
                            codecs,
                        ),
                        metadata_named(CHUNK_KEY_ENCODING_NAME@),
                    ),
                    zarr.attributes,
                ),
            ),
        },
    }
}

/// Whether `document` is the metadata document of a group: group metadata
/// with the attributes of the group and nothing else.
pub open spec fn is_group_document(zarr: ZarrGroupMetadata, document: GroupMetadataV3) -> bool {
    document == group_metadata_of(zarr.attributes)
}

/// Whether `result` is the metadata document of an array, as
/// [`array_document`] describes it, whatever the regular bounded chunk
/// grid goes by.
pub open spec fn is_array_document(
    zarr: ZarrArrayMetadata,
    result: Result<ArrayMetadataV3, Error>,
) -> bool {
    exists|grid_name: Seq<char>| is_json_outcome(result, #[trigger] array_document(zarr, grid_name))
}

/// The metadata document of a node, given that of the array or group it
/// is.
pub open spec fn node_of_array(document: Result<ArrayMetadataV3, Error>) -> Result<
    NodeMetadataV3,
    Error,
> {
    match document {
        Ok(array) => Ok(array_node_of(array)),
        Err(e) => Err(e),
    }
}

/// Whether `result` is the metadata document of a node: the document of
/// the array or of the group, as node metadata, or the error for which the
/// array has none.
pub open spec fn is_node_document(zarr: ZarrNodeMetadata, result: Result<NodeMetadataV3, Error>) -> bool {
    match zarr {
        ZarrNodeMetadata::Group(group) => result == Ok::<NodeMetadataV3, Error>(
            group_node_of(group_metadata_of(group.attributes)),
        ),
        ZarrNodeMetadata::Array(array) => exists|document: Result<ArrayMetadataV3, Error>|
            is_array_document(array, document) && result == #[trigger] node_of_array(document),
    }
}

/// Whether `result` is what became of writing the document of a node: the
/// error for which the node has no document, or else whatever the JSON
/// library made of the document, its error reported as invalid metadata.
pub open spec fn is_written_document(zarr: ZarrNodeMetadata, result: Result<Vec<u8>, Error>) -> bool {
    exists|document: Result<NodeMetadataV3, Error>|
        is_node_document(zarr, document) && #[trigger] answers_document(document, result)
}

/// Whether `result` is what became of writing `document`: its error if it
/// is none; else bytes that the JSON library wrote for it, or the error of
/// the JSON library as invalid metadata.
pub open spec fn answers_document(
    document: Result<NodeMetadataV3, Error>,
    result: Result<Vec<u8>, Error>,
) -> bool {
    match document {
        Err(e) => result == Err::<Vec<u8>, Error>(e),
        Ok(node) => match result {
            Ok(bytes) => is_json_of(bytes@, node),
            Err(Error::InvalidMetadata(MetadataError::Json(_))) => true,
            Err(_) => false,
        },
    }
}

/// What is returned for the answer of the JSON library to a document it
/// was asked to write: the bytes it wrote, or its error as invalid
/// metadata.
pub open spec fn bytes_written(written: Result<Vec<u8>, SerdeJsonError>) -> Result<Vec<u8>, Error> {
    match written {
        Ok(bytes) => Ok(bytes),
        Err(e) => Err(Error::InvalidMetadata(MetadataError::Json(e))),
    }
}

/// Once a codec has no entry, the codec list has none either, for the same
/// reason.
proof fn lemma_first_refusal(codecs: Seq<N5CodecConfiguration>, k: int)
    requires
        0 <= k <= codecs.len(),
        codec_entries(codecs.take(k)) is Err,
    ensures
        codec_entries(codecs) == codec_entries(codecs.take(k)),
    decreases codecs.len() - k,
{
    if k < codecs.len() {
        let next = codecs.take(k + 1);
        assert(next.drop_last() =~= codecs.take(k));
        lemma_first_refusal(codecs, k + 1);
    } else {
        assert(codecs.take(k) =~= codecs);
    }
}

/// The metadata entry of an N5 codec with the given configuration, as
/// [`codec_entry`] describes it.
fn codec_metadata(configuration: &N5CodecConfiguration) -> (result: Result<MetadataV3, Error>)
    ensures
        is_json_outcome(result, codec_entry(*configuration)),
{
    let text = configuration.to_json();
    match json_object(text.as_str()) {
        Ok(object) => Ok(configured_metadata(CODEC_NAME, object)),
        Err(e) => Err(Error::InvalidMetadata(MetadataError::Json(e))),
    }
}

impl ZarrGroupMetadata {
    /// The group metadata document with these attributes.
    pub fn into_document(self) -> (document: GroupMetadataV3)
        ensures
            is_group_document(self, document),
    {
        group_metadata(self.attributes)
    }
}

impl ZarrArrayMetadata {
    /// The array metadata document with these fields: the chunk grid is a
    /// regular bounded grid with the chunk shape, the data type goes by its
    /// name, each codec is an N5 codec with its configuration, and the
    /// chunk key encoding is that of N5.
    ///
    /// The name of the chunk grid is the one that `zarrs` has for the
    /// regular bounded chunk grid at this moment; the document is that of
    /// [`ZarrArrayMetadata::into_document_with_grid`] for it. Fails only if
    /// the JSON library refuses a configuration.
    pub fn into_document(self) -> (result: Result<ArrayMetadataV3, Error>)
        requires
            all_nonzero(self.chunk_shape@),
        ensures
            is_array_document(self, result),
            result matches Err(error) ==> error matches Error::InvalidMetadata(
                MetadataError::Json(_),
            ),
    {
        let grid_name = regular_bounded_grid_name();
        let ghost name = grid_name@;
        let result = self.into_document_with_grid(grid_name);
        assert(is_json_outcome(result, array_document(self, name)));
        result
    }

    /// The array metadata document with these fields, for a regular
    /// bounded chunk grid that goes by `grid_name`: the document that
    /// [`array_document`] describes, or the error of the JSON library as
    /// invalid metadata.
    pub fn into_document_with_grid(self, grid_name: String) -> (result: Result<
        ArrayMetadataV3,
        Error,
    >)
        requires
            all_nonzero(self.chunk_shape@),
        ensures
            is_json_outcome(result, array_document(self, grid_name@)),
    {
        let ghost name = grid_name@;
        let chunk_grid = match regular_bounded_grid_metadata(
            grid_name,
            self.chunk_shape.as_slice(),
        ) {
            Ok(chunk_grid) => chunk_grid,
            Err(e) => {
                return Err(Error::InvalidMetadata(MetadataError::Json(e)));
            },
        };
        let data_type = named_metadata(self.data_type.name());
        let fill_value = number_fill_value(self.fill_value);
        let mut codecs: Vec<MetadataV3> = Vec::with_capacity(self.codecs.len());
        let mut i: usize = 0;
        assert(self.codecs@.take(0) =~= Seq::<N5CodecConfiguration>::empty());
        while i < self.codecs.len()
            invariant
                i <= self.codecs@.len(),
                name == grid_name@,
                grid_metadata(name, self.chunk_shape@) == Ok::<_, SerdeJsonError>(chunk_grid),
                codec_entries(self.codecs@.take(i as int)) == Ok::<_, SerdeJsonError>(codecs@),
            decreases self.codecs@.len() - i,
        {
            let ghost next = self.codecs@.take(i + 1);
            proof {
                assert(next.drop_last() =~= self.codecs@.take(i as int));
                assert(next.last() == self.codecs@[i as int]);
            }
            match codec_metadata(&self.codecs[i]) {
                Ok(codec) => {
                    codecs.push(codec);
                    assert(codec_entries(next) == Ok::<_, SerdeJsonError>(codecs@));
                },
                Err(e) => {
                    proof {
                        let refusal = codec_entry(next.last())->Err_0;
                        assert(codec_entries(next) == Err::<Seq<MetadataV3>, _>(refusal));
                        lemma_first_refusal(self.codecs@, i + 1);
                        assert(array_document(self, name) == Err::<ArrayMetadataV3, _>(refusal));
                    }
                    return Err(e);
                },
            }
            i += 1;
        }
        assert(self.codecs@.take(self.codecs@.len() as int) =~= self.codecs@);
        let document = ArrayMetadataV3::new(self.shape, chunk_grid, data_type, fill_value, codecs)
            .with_chunk_key_encoding(named_metadata(convert_chunk_key_encoding()))
            .with_attributes(self.attributes);
        Ok(document)
    }
}

/// What is returned for the answer of the JSON library to a document it
/// was asked to write: the bytes it wrote, or its error as invalid
/// metadata.
pub fn document_bytes(written: Result<Vec<u8>, SerdeJsonError>) -> (result: Result<Vec<u8>, Error>)
    ensures
        result == bytes_written(written),
{
    match written {
        Ok(bytes) => Ok(bytes),
        Err(e) => Err(Error::InvalidMetadata(MetadataError::Json(e))),
    }
}

impl ZarrNodeMetadata {
    /// Whether the node is a group, or an array with a chunk shape without
    /// zero extents.
    pub open spec fn has_document(self) -> bool {
        self matches ZarrNodeMetadata::Array(array) ==> all_nonzero(array.chunk_shape@)
    }

    /// The metadata document of the node.
    ///
    /// The document of a group or of an array, as [`is_node_document`]
    /// says. Fails only if the JSON library refuses a configuration, which
    /// it cannot for a group.
    pub fn into_document(self) -> (result: Result<NodeMetadataV3, Error>)
        requires
            self.has_document(),
        ensures
            is_node_document(self, result),
            result matches Err(error) ==> {
                &&& self is Array
                &&& error matches Error::InvalidMetadata(MetadataError::Json(_))
            },
    {
        match self {
            ZarrNodeMetadata::Array(array) => {
                let document = array.into_document();
                let ghost made = document;
                let result = match document {
                    Ok(document) => Ok(array_node(document)),
                    Err(e) => Err(e),
                };
                assert(is_array_document(array, made) && result == node_of_array(made));
                result
            },
            ZarrNodeMetadata::Group(group) => {
                let document = group.into_document();
                Ok(group_node(document))
            },
        }
    }

    /// The metadata document of the node as the bytes of a JSON document.
    ///
    /// A node without a document fails with the error of the document;
    /// the document of any other node is handed to the JSON library, and
    /// the result is what [`document_bytes`] makes of its answer: the bytes
    /// that the library wrote for that document, or its error. Fails only
    /// if the JSON library refuses a configuration or the document.
    pub fn to_json_bytes(self) -> (result: Result<Vec<u8>, Error>)
        requires
            self.has_document(),
        ensures
            is_written_document(self, result),
            result matches Err(error) ==> error matches Error::InvalidMetadata(
                MetadataError::Json(_),
            ),
    {
        let made = self.into_document();
        let ghost document = made;
        let result = match made {
            Ok(node) => {
                document_bytes(node_bytes(&node))
            },
            Err(e) => Err(e),
        };
        assert(is_node_document(self, document) && answers_document(document, result));
        result
    }
}

} // verus!
