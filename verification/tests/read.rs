//! Reads whole N5 arrays through `zarrs`, with the store, the codec and the
//! chunk key encoding of this library plugged into it.

use std::borrow::Cow;
use std::num::NonZeroU64;
use std::sync::Arc;

use serde_json::Value;
use zarrs::array::codec::{Bz2Codec, Bz2CompressionLevel, GzipCodec};
use zarrs::array::{ChunkKeyEncoding, ChunkKeyEncodingTraits, DataType, FillValue};
use zarrs::metadata::v3::MetadataV3;
use zarrs::metadata::Configuration;
use zarrs::plugin::{ExtensionName, PluginCreateError, ZarrVersion};
use zarrs::storage::byte_range::ByteRangeIterator;
use zarrs::storage::store::MemoryStore;
use zarrs::storage::{
    Bytes, MaybeBytes, MaybeBytesIterator, ReadableStorageTraits, StorageError, StoreKey,
    WritableStorageTraits,
};
use zarrs_codec::{
    ArrayBytes, ArrayBytesRaw, ArrayCodecTraits, ArrayToBytesCodecTraits, BytesRepresentation,
    BytesToBytesCodecTraits, Codec, CodecError, CodecMetadataOptions, CodecOptions,
    CodecRuntimePluginV3, CodecTraits, PartialDecoderCapability, PartialEncoderCapability,
    RecommendedConcurrency,
};
use zarrs_n5::chunk_key_encoding::N5ChunkKeyEncoding;
use zarrs_n5::codec::{N5Codec, N5CodecConfiguration};
use zarrs_n5::data_type::N5DataType;
use zarrs_n5::metadata::{N5ArrayMetadata, N5Compression, N5GroupMetadata, N5Metadata};
use zarrs_n5::storage::N5Store;

/// Shape, in row-major order, and values of the array every data set holds.
fn read_raw() -> (Vec<u64>, Vec<f32>) {
    let shape = vec![4u64, 6];
    let data = (0..24).map(|i| i as f32 * 0.25 - 1.0).collect();
    (shape, data)
}

// ---- the N5 side: what lies in the wrapped store ----

fn compress(compression: &str, payload: Vec<u8>) -> Vec<u8> {
    let options = CodecOptions::default();
    match compression {
        "raw" => payload,
        "gzip" => GzipCodec::new(6)
            .unwrap()
            .encode(Cow::Owned(payload), &options)
            .unwrap()
            .into_owned(),
        "bzip2" => Bz2Codec::new(Bz2CompressionLevel::new(9u32).unwrap())
            .encode(Cow::Owned(payload), &options)
            .unwrap()
            .into_owned(),
        other => panic!("no compressor for {other}"),
    }
}

/// Writes the array as an N5 data set with blocks of the given shape
/// (row-major order) and returns the store that holds it.
fn inner_store(name: &str, chunk_shape: [u64; 2], compression: &str) -> MemoryStore {
    let (shape, data) = read_raw();
    let store = MemoryStore::new();
    let set = |key: String, value: Vec<u8>| {
        store.set(&StoreKey::new(key).unwrap(), Bytes::from(value)).unwrap();
    };
    // N5 lists dimensions fastest-varying first.
    set(
        format!("{name}.n5/attributes.json"),
        format!(
            r#"{{"dimensions": [{}, {}], "blockSize": [{}, {}], "dataType": "float32",
                "compression": {{"type": "{compression}"}}, "n5": "4.0.0", "unit": "nm"}}"#,
            shape[1], shape[0], chunk_shape[1], chunk_shape[0]
        )
        .into_bytes(),
    );
    for ci in 0..shape[0] / chunk_shape[0] {
        for cj in 0..shape[1] / chunk_shape[1] {
            let mut block = Vec::new();
            block.extend_from_slice(&0u16.to_be_bytes());
            block.extend_from_slice(&2u16.to_be_bytes());
            block.extend_from_slice(&(chunk_shape[1] as u32).to_be_bytes());
            block.extend_from_slice(&(chunk_shape[0] as u32).to_be_bytes());
            let mut payload = Vec::new();
            for i in 0..chunk_shape[0] {
                for j in 0..chunk_shape[1] {
                    let row = ci * chunk_shape[0] + i;
                    let col = cj * chunk_shape[1] + j;
                    let value = data[(row * shape[1] + col) as usize];
                    payload.extend_from_slice(&value.to_be_bytes());
                }
            }
            block.extend(compress(compression, payload));
            // On disk the block of grid cell (ci, cj) lies at `cj/ci`.
            set(format!("{name}.n5/{cj}/{ci}"), block);
        }
    }
    store
}

// ---- reading the attributes document ----

fn sizes(value: &Value) -> Option<Vec<u64>> {
    value.as_array()?.iter().map(Value::as_u64).collect()
}

fn compression(value: &Value) -> Option<N5Compression> {
    let number = |key: &str| value.get(key).and_then(Value::as_i64);
    Some(match value.get("type")?.as_str()? {
        "raw" => N5Compression::Raw,
        "bzip2" => N5Compression::Bzip2 { block_size: number("block_size").unwrap_or(9) as u8 },
        "gzip" => N5Compression::Gzip { level: number("level").unwrap_or(-1) as i8 },
        "lz4" => N5Compression::Lz4 { level: number("level").unwrap_or(65536) as u64 },
        "xz" => N5Compression::Xz { preset: number("preset").unwrap_or(6) as u32 },
        _ => return None,
    })
}

fn parse(bytes: &[u8]) -> Result<N5Metadata, String> {
    let document: Value = serde_json::from_slice(bytes).map_err(|e| e.to_string())?;
    let Value::Object(mut attributes) = document else {
        return Err("not an object".to_string());
    };
    let n5_version = attributes.remove("n5").and_then(|v| v.as_str().map(str::to_string));
    let array = (|| {
        Some((
            sizes(attributes.get("dimensions")?)?,
            sizes(attributes.get("blockSize")?)?,
            attributes.get("dataType")?.as_str()?.to_string(),
            compression(attributes.get("compression")?)?,
        ))
    })();
    Ok(match array {
        Some((dimensions, block_size, data_type, compression)) => {
            for key in ["dimensions", "blockSize", "dataType", "compression"] {
                attributes.remove(key);
            }
            N5Metadata::Array(N5ArrayMetadata {
                n5_version,
                dimensions,
                block_size,
                data_type,
                compression,
                attributes,
            })
        }
        None => N5Metadata::Group(N5GroupMetadata { n5_version, attributes }),
    })
}

// ---- the store, as zarrs sees it ----

struct Store {
    store: N5Store<MemoryStore>,
}

fn storage_error(error: zarrs_n5::error::StorageError) -> StorageError {
    let message = error.message();
    match error.key() {
        Some(key) => StorageError::InvalidMetadata(StoreKey::new(key).unwrap(), message),
        None => StorageError::Unsupported(message),
    }
}

impl ReadableStorageTraits for Store {
    fn get(&self, key: &StoreKey) -> Result<MaybeBytes, StorageError> {
        match self.store.intercept_zarr_json(key.as_str()) {
            Some(rewritten) => {
                let fetched = self.store.inner().get(&StoreKey::new(rewritten).unwrap())?;
                self.store
                    .convert_metadata(key.as_str(), fetched.map(|bytes| parse(&bytes)))
                    .map(|converted| converted.map(Bytes::from))
                    .map_err(storage_error)
            }
            None => self.store.inner().get(key),
        }
    }

    fn get_partial_many<'a>(
        &'a self,
        key: &StoreKey,
        _byte_ranges: ByteRangeIterator<'a>,
    ) -> Result<MaybeBytesIterator<'a>, StorageError> {
        Err(storage_error(self.store.get_partial_many(key.as_str()).unwrap_err()))
    }

    fn size_key(&self, key: &StoreKey) -> Result<Option<u64>, StorageError> {
        let asked = StoreKey::new(self.store.backend_key(key.as_str())).unwrap();
        self.store.inner().size_key(&asked)
    }

    fn supports_get_partial(&self) -> bool {
        self.store.supports_get_partial()
    }
}

// ---- the codec, as zarrs sees it ----

#[derive(Debug)]
struct Plugin {
    codec: N5Codec,
}

fn plain_shape(shape: &[NonZeroU64]) -> Vec<u64> {
    shape.iter().map(|n| n.get()).collect()
}

fn n5_data_type(data_type: &DataType) -> Result<N5DataType, CodecError> {
    data_type
        .name_v3()
        .and_then(|name| N5DataType::from_name(&name))
        .ok_or_else(|| CodecError::UnsupportedDataType(data_type.clone(), "zarrs.n5".into()))
}

fn codec_error(error: zarrs_n5::error::Error) -> CodecError {
    match error {
        zarrs_n5::error::Error::Codec(e) => e,
        other => CodecError::Other(other.message()),
    }
}

impl ExtensionName for Plugin {
    fn name(&self, _version: ZarrVersion) -> Option<Cow<'static, str>> {
        Some("zarrs.n5".into())
    }
}

impl CodecTraits for Plugin {
    fn as_any(&self) -> &dyn std::any::Any {
        self
    }

    fn configuration(
        &self,
        _version: ZarrVersion,
        _options: &CodecMetadataOptions,
    ) -> Option<Configuration> {
        let text = self.codec.configuration().to_json();
        let object: serde_json::Map<String, Value> = serde_json::from_str(&text).unwrap();
        Some(object.into())
    }

    fn partial_decoder_capability(&self) -> PartialDecoderCapability {
        let capability = self.codec.partial_decoder_capability();
        PartialDecoderCapability {
            partial_read: capability.partial_read,
            partial_decode: capability.partial_decode,
        }
    }

    fn partial_encoder_capability(&self) -> PartialEncoderCapability {
        PartialEncoderCapability {
            partial_encode: self.codec.partial_encoder_capability().partial_encode,
        }
    }
}

impl ArrayCodecTraits for Plugin {
    fn recommended_concurrency(
        &self,
        _shape: &[NonZeroU64],
        _data_type: &DataType,
    ) -> Result<RecommendedConcurrency, CodecError> {
        let concurrency = self.codec.recommended_concurrency();
        Ok(RecommendedConcurrency::new(concurrency.min..=concurrency.max))
    }
}

impl ArrayToBytesCodecTraits for Plugin {
    fn into_dyn(self: Arc<Self>) -> Arc<dyn ArrayToBytesCodecTraits> {
        self
    }

    fn encoded_representation(
        &self,
        shape: &[NonZeroU64],
        data_type: &DataType,
        _fill_value: &FillValue,
    ) -> Result<BytesRepresentation, CodecError> {
        let shape = plain_shape(shape);
        match self.codec.checked_encoded_representation(&shape, data_type.fixed_size()) {
            Some(zarrs_n5::codec::BytesRepresentation::BoundedSize(size)) => {
                Ok(BytesRepresentation::BoundedSize(size))
            }
            Some(zarrs_n5::codec::BytesRepresentation::UnboundedSize) => {
                Ok(BytesRepresentation::UnboundedSize)
            }
            None => Err(CodecError::Other(format!("chunk of shape {shape:?} is too large"))),
        }
    }

    fn encode<'a>(
        &self,
        bytes: ArrayBytes<'a>,
        shape: &[NonZeroU64],
        data_type: &DataType,
        fill_value: &FillValue,
        options: &CodecOptions,
    ) -> Result<ArrayBytesRaw<'a>, CodecError> {
        self.codec
            .encode(bytes, &plain_shape(shape), n5_data_type(data_type)?, fill_value, options)
            .map(Into::into)
            .map_err(codec_error)
    }

    fn decode<'a>(
        &self,
        bytes: ArrayBytesRaw<'a>,
        shape: &[NonZeroU64],
        data_type: &DataType,
        fill_value: &FillValue,
        options: &CodecOptions,
    ) -> Result<ArrayBytes<'a>, CodecError> {
        let shape = plain_shape(shape);
        match self.codec.decode_if_fits(
            &bytes,
            &shape,
            n5_data_type(data_type)?,
            fill_value,
            options,
        ) {
            Some(decoded) => decoded.map_err(codec_error),
            None => Err(CodecError::Other(format!("chunk of shape {shape:?} is too large"))),
        }
    }
}

fn create_codec(metadata: &MetadataV3) -> Result<Codec, PluginCreateError> {
    let scheme = metadata
        .configuration()
        .and_then(|configuration| configuration.get("compression"))
        .and_then(compression)
        .ok_or_else(|| PluginCreateError::Other("no compression scheme".to_string()))?;
    let codec = N5Codec::new_with_configuration(&N5CodecConfiguration { compression: scheme })
        .map_err(|e| PluginCreateError::Other(e.message()))?;
    Ok(Codec::ArrayToBytes(Arc::new(Plugin { codec })))
}

// ---- the chunk key encoding, as zarrs sees it ----

#[derive(Debug)]
struct KeyEncoding;

impl ExtensionName for KeyEncoding {
    fn name(&self, _version: ZarrVersion) -> Option<Cow<'static, str>> {
        Some("zarrs.n5".into())
    }
}

impl ChunkKeyEncodingTraits for KeyEncoding {
    fn create(metadata: &MetadataV3) -> Result<ChunkKeyEncoding, PluginCreateError> {
        N5ChunkKeyEncoding::create(metadata.name(), metadata.configuration_is_none_or_empty())
            .map(|_| ChunkKeyEncoding::new(KeyEncoding))
            .map_err(|e| PluginCreateError::Other(e.message()))
    }

    fn configuration(&self) -> Configuration {
        Configuration::default()
    }

    fn encode(&self, chunk_grid_indices: &[u64]) -> StoreKey {
        StoreKey::new(N5ChunkKeyEncoding.encode(chunk_grid_indices))
            .expect("chunk key should be valid")
    }
}

fn register_plugins() {
    let is_n5 = |name: &str| name == "zarrs.n5" || name == "n5";
    zarrs_codec::register_codec_v3(CodecRuntimePluginV3::new(is_n5, create_codec));
    zarrs::array::chunk_key_encoding::api::register_chunk_key_encoding(
        zarrs::array::chunk_key_encoding::api::ChunkKeyEncodingRuntimePlugin::new(
            is_n5,
            KeyEncoding::create,
        ),
    );
}

// ---- the tests ----

fn read_n5(name: &str, chunk_shape: [u64; 2], compression: &str) -> (Vec<u64>, Vec<f32>) {
    register_plugins();
    let array_name = format!("/{name}.n5");
    let store = Arc::new(Store { store: N5Store::new(inner_store(name, chunk_shape, compression)) });
    let array = zarrs::array::Array::open(store.clone(), &array_name).expect("open array");
    let shape = array.shape().to_vec();
    let data: Vec<f32> =
        array.retrieve_array_subset(&array.subset_all()).expect("retrieve all data");
    (shape, data)
}

fn check_read(name: &str, chunk_shape: [u64; 2], compression: &str) {
    let (raw_shape, raw_data) = read_raw();
    let (n5_shape, n5_data) = read_n5(name, chunk_shape, compression);
    assert_eq!(raw_shape, n5_shape);
    assert_eq!(raw_data, n5_data);
}

#[test]
fn test_single_chunk() {
    check_read("single_chunk", [4, 6], "raw");
}

#[test]
fn test_even_chunk() {
    check_read("even_chunk", [2, 3], "raw");
}

#[test]
fn test_bz2() {
    check_read("bz2", [2, 3], "bzip2");
}

#[test]
fn test_gzip() {
    check_read("gzip", [2, 3], "gzip");
}
