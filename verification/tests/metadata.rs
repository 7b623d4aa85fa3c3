use serde_json::Map as JsonMap;
use serde_json::Value;
use zarrs::array::data_type;
use zarrs::metadata::v3::NodeMetadataV3;
use zarrs_n5::codec::{CompressionTransform, N5BytesToBytesCodec, N5Codec, N5CodecConfiguration};
use zarrs_n5::data_type::N5DataType;
use zarrs_n5::error::{CompressionError, Error, MetadataError, PluginCreateError};
use zarrs_n5::metadata::{
    document_bytes, convert_chunk_grid, convert_chunk_key_encoding, convert_data_type, convert_fill_value,
    default_bzip2_block_size, default_gzip_level, default_xz_preset, lz4_default_level,
    N5ArrayMetadata, N5Compression, N5GroupMetadata, N5Metadata, ZarrNodeMetadata,
};

fn attributes() -> JsonMap<String, Value> {
    serde_json::from_str(r#"{"resolution": [4.0, 4.0, 40.0], "units": "nm", "nested": {"a": null}}"#)
        .unwrap()
}

fn array(data_type: &str, block_size: &[u64], compression: N5Compression) -> N5ArrayMetadata {
    N5ArrayMetadata {
        n5_version: Some("2.5.1".to_string()),
        dimensions: vec![10, 20, 30],
        block_size: block_size.to_vec(),
        data_type: data_type.to_string(),
        compression,
        attributes: attributes(),
    }
}

#[test]
fn array_translation_reverses_dimensions() {
    let n5 = array("float32", &[10, 10, 10], N5Compression::Raw);
    let zarr = n5.translate().unwrap();
    assert_eq!(zarr.shape, vec![30, 20, 10]);
    assert_eq!(zarr.chunk_shape, vec![10, 10, 10]);
    assert_eq!(zarr.data_type, N5DataType::Float32);
    assert_eq!(zarr.fill_value, 0);
    assert_eq!(zarr.codecs, vec![N5CodecConfiguration { compression: N5Compression::Raw }]);
    assert_eq!(zarr.attributes, attributes());
}

#[test]
fn chunk_shape_is_block_size_reversed() {
    let n5 = array("uint16", &[5, 6, 7], N5Compression::Gzip { level: 3 });
    let zarr = n5.translate().unwrap();
    assert_eq!(zarr.chunk_shape, vec![7, 6, 5]);
    assert_eq!(
        zarr.codecs,
        vec![N5CodecConfiguration { compression: N5Compression::Gzip { level: 3 } }]
    );
}

#[test]
fn array_document_has_the_zarr_fields() {
    let n5 = N5Metadata::Array(array("float32", &[10, 10, 10], N5Compression::Raw));
    let bytes = n5.translate().unwrap().to_json_bytes().unwrap();
    let document: Value = serde_json::from_slice(&bytes).unwrap();
    assert_eq!(document["zarr_format"], Value::from(3));
    assert_eq!(document["node_type"], Value::from("array"));
    assert_eq!(document["shape"], serde_json::from_str::<Value>("[30, 20, 10]").unwrap());
    assert_eq!(
        document["chunk_grid"],
        serde_json::from_str::<Value>(
            r#"{"name": "zarrs.regular_bounded", "configuration": {"chunk_shape": [10, 10, 10]}}"#
        )
        .unwrap()
    );
    assert_eq!(document["data_type"], Value::from("float32"));
    assert_eq!(document["fill_value"], Value::from(0));
    assert_eq!(
        document["codecs"],
        serde_json::from_str::<Value>(
            r#"[{"name": "zarrs.n5", "configuration": {"compression": {"type": "raw"}}}]"#
        )
        .unwrap()
    );
    assert_eq!(document["chunk_key_encoding"], Value::from("zarrs.n5"));
    assert_eq!(document["attributes"], Value::Object(attributes()));
    // The version of N5 is not carried over.
    assert!(document.get("n5").is_none());
    // The document is one that zarrs reads back.
    let node: NodeMetadataV3 = serde_json::from_slice(&bytes).unwrap();
    assert!(matches!(node, NodeMetadataV3::Array(_)));
}

#[test]
fn codec_configuration_carries_the_parameter() {
    let text = |compression| N5CodecConfiguration { compression }.to_json();
    assert_eq!(text(N5Compression::Raw), r#"{"compression":{"type":"raw"}}"#);
    assert_eq!(
        text(N5Compression::Bzip2 { block_size: 9 }),
        r#"{"compression":{"type":"bzip2","block_size":9}}"#
    );
    assert_eq!(
        text(N5Compression::Gzip { level: -1 }),
        r#"{"compression":{"type":"gzip","level":-1}}"#
    );
    assert_eq!(
        text(N5Compression::Gzip { level: -128 }),
        r#"{"compression":{"type":"gzip","level":-128}}"#
    );
    assert_eq!(
        text(N5Compression::Lz4 { level: 65536 }),
        r#"{"compression":{"type":"lz4","level":65536}}"#
    );
    assert_eq!(
        text(N5Compression::Xz { preset: 6 }),
        r#"{"compression":{"type":"xz","preset":6}}"#
    );
}

#[test]
fn compressed_array_document_names_the_scheme() {
    let n5 = N5Metadata::Array(array("int64", &[1, 2, 3], N5Compression::Bzip2 { block_size: 4 }));
    let bytes = n5.translate().unwrap().to_json_bytes().unwrap();
    let document: Value = serde_json::from_slice(&bytes).unwrap();
    assert_eq!(
        document["codecs"][0]["configuration"]["compression"],
        serde_json::from_str::<Value>(r#"{"type": "bzip2", "block_size": 4}"#).unwrap()
    );
    assert_eq!(document["data_type"], Value::from("int64"));
}

#[test]
fn group_translation_keeps_the_attributes() {
    let n5 = N5Metadata::Group(N5GroupMetadata {
        n5_version: Some("4.0.0".to_string()),
        attributes: attributes(),
    });
    let zarr = n5.translate().unwrap();
    match &zarr {
        ZarrNodeMetadata::Group(group) => assert_eq!(group.attributes, attributes()),
        other => panic!("expected a group, got {other:?}"),
    }
    let bytes = zarr.to_json_bytes().unwrap();
    let document: Value = serde_json::from_slice(&bytes).unwrap();
    assert_eq!(document["node_type"], Value::from("group"));
    assert_eq!(document["attributes"], Value::Object(attributes()));
    assert!(document.get("n5").is_none());
}

#[test]
fn zero_block_size_is_invalid_metadata() {
    for block_size in [[0u64, 10, 10], [10, 0, 10], [10, 10, 0]] {
        let n5 = array("float32", &block_size, N5Compression::Raw);
        assert!(matches!(
            n5.translate(),
            Err(Error::InvalidMetadata(MetadataError::ZeroBlockSize))
        ));
    }
    // The block size is judged before the data type.
    let n5 = array("complex128", &[0, 1, 1], N5Compression::Raw);
    assert!(matches!(n5.translate(), Err(Error::InvalidMetadata(MetadataError::ZeroBlockSize))));
}

#[test]
fn unknown_data_type_is_invalid_metadata() {
    let n5 = array("complex128", &[10, 10, 10], N5Compression::Raw);
    assert!(matches!(
        n5.translate(),
        Err(Error::InvalidMetadata(MetadataError::UnsupportedDataType(name))) if name == "complex128"
    ));
    // The data type is judged before the compression.
    let n5 = array("string", &[10, 10, 10], N5Compression::Xz { preset: 6 });
    assert!(matches!(
        n5.translate(),
        Err(Error::InvalidMetadata(MetadataError::UnsupportedDataType(name))) if name == "string"
    ));
}

#[test]
fn unavailable_compression_fails_translation() {
    let n5 = array("float32", &[10, 10, 10], N5Compression::Lz4 { level: 65536 });
    assert!(matches!(
        n5.translate(),
        Err(Error::UnsupportedCompression(CompressionError::UnsupportedScheme(
            N5Compression::Lz4 { level: 65536 }
        )))
    ));
}

#[test]
fn every_data_type_of_n5_is_mapped() {
    let table = [
        ("uint8", N5DataType::UInt8, 1),
        ("int8", N5DataType::Int8, 1),
        ("uint16", N5DataType::UInt16, 2),
        ("int16", N5DataType::Int16, 2),
        ("uint32", N5DataType::UInt32, 4),
        ("int32", N5DataType::Int32, 4),
        ("uint64", N5DataType::UInt64, 8),
        ("int64", N5DataType::Int64, 8),
        ("float32", N5DataType::Float32, 4),
        ("float64", N5DataType::Float64, 8),
    ];
    for (name, data_type, size) in table {
        assert_eq!(convert_data_type(name).unwrap(), data_type);
        assert_eq!(data_type.name(), name);
        assert_eq!(data_type.size(), size);
        assert_eq!(N5DataType::from_name(name), Some(data_type));
    }
    for name in ["", "Float32", "float", "uint128", "float32 ", "bool"] {
        assert_eq!(N5DataType::from_name(name), None);
        assert!(convert_data_type(name).is_err());
    }
}

#[test]
fn data_type_names_are_those_of_zarrs() {
    let table = [
        (N5DataType::UInt8, data_type::uint8()),
        (N5DataType::Int8, data_type::int8()),
        (N5DataType::UInt16, data_type::uint16()),
        (N5DataType::Int16, data_type::int16()),
        (N5DataType::UInt32, data_type::uint32()),
        (N5DataType::Int32, data_type::int32()),
        (N5DataType::UInt64, data_type::uint64()),
        (N5DataType::Int64, data_type::int64()),
        (N5DataType::Float32, data_type::float32()),
        (N5DataType::Float64, data_type::float64()),
    ];
    for (ours, theirs) in table {
        assert_eq!(theirs.name_v3().unwrap(), ours.name());
        assert_eq!(theirs.fixed_size(), Some(ours.size()));
        assert!(theirs.configuration_v3().is_empty());
    }
}

#[test]
fn chunk_grid_is_block_size_reversed() {
    assert_eq!(convert_chunk_grid(&[1, 2, 3]).unwrap(), vec![3, 2, 1]);
    assert_eq!(convert_chunk_grid(&[]).unwrap(), Vec::<u64>::new());
    assert!(matches!(
        convert_chunk_grid(&[1, 0]),
        Err(Error::InvalidMetadata(MetadataError::ZeroBlockSize))
    ));
}

#[test]
fn fixed_parts_of_the_translation() {
    assert_eq!(convert_fill_value(), 0);
    assert_eq!(convert_chunk_key_encoding(), "zarrs.n5");
}

#[test]
fn compression_defaults() {
    assert_eq!(default_bzip2_block_size(), 9);
    assert_eq!(default_gzip_level(), -1);
    assert_eq!(lz4_default_level(), 65536);
    assert_eq!(default_xz_preset(), 6);
    assert_eq!(N5Compression::default(), N5Compression::Raw);
}

#[test]
fn raw_has_no_transform() {
    assert_eq!(N5Compression::Raw.transform(), Ok(None));
    assert!(matches!(N5Compression::Raw.to_bytes_to_bytes_codec(), Ok(None)));
}

#[test]
fn gzip_default_level_is_six() {
    assert_eq!(
        N5Compression::Gzip { level: -1 }.transform(),
        Ok(Some(CompressionTransform::Gzip { level: 6 }))
    );
    assert!(matches!(
        N5Compression::Gzip { level: -1 }.to_bytes_to_bytes_codec(),
        Ok(Some(N5BytesToBytesCodec::Gzip { level: 6, .. }))
    ));
}

#[test]
fn gzip_levels_map_to_themselves() {
    for level in 0..=9i8 {
        assert_eq!(
            N5Compression::Gzip { level }.transform(),
            Ok(Some(CompressionTransform::Gzip { level: level as u32 }))
        );
        assert!(N5Compression::Gzip { level }.to_bytes_to_bytes_codec().is_ok());
    }
}

#[test]
fn gzip_level_out_of_range_is_an_error() {
    for level in [-2i8, -128, 10, 127] {
        assert_eq!(
            N5Compression::Gzip { level }.transform(),
            Err(CompressionError::InvalidGzipLevel(level))
        );
        assert!(matches!(
            N5Compression::Gzip { level }.to_bytes_to_bytes_codec(),
            Err(Error::UnsupportedCompression(CompressionError::InvalidGzipLevel(found)))
                if found == level
        ));
        assert!(N5Codec::new(N5Compression::Gzip { level }).is_err());
    }
}

#[test]
fn bzip2_block_size_must_be_1_to_9() {
    for block_size in 1..=9u8 {
        assert_eq!(
            N5Compression::Bzip2 { block_size }.transform(),
            Ok(Some(CompressionTransform::Bzip2 { block_size: block_size as u32 }))
        );
        assert!(matches!(
            N5Compression::Bzip2 { block_size }.to_bytes_to_bytes_codec(),
            Ok(Some(N5BytesToBytesCodec::Bzip2 { block_size: found, .. }))
                if found == block_size as u32
        ));
    }
    for block_size in [0u8, 10, 255] {
        assert_eq!(
            N5Compression::Bzip2 { block_size }.transform(),
            Err(CompressionError::InvalidBzip2BlockSize(block_size))
        );
        assert!(matches!(
            N5Compression::Bzip2 { block_size }.to_bytes_to_bytes_codec(),
            Err(Error::UnsupportedCompression(CompressionError::InvalidBzip2BlockSize(found)))
                if found == block_size
        ));
    }
}

#[test]
fn lz4_and_xz_have_no_codec() {
    for scheme in [N5Compression::Lz4 { level: 65536 }, N5Compression::Xz { preset: 6 }] {
        assert_eq!(scheme.transform(), Err(CompressionError::UnsupportedScheme(scheme)));
        assert!(matches!(
            scheme.to_bytes_to_bytes_codec(),
            Err(Error::UnsupportedCompression(CompressionError::UnsupportedScheme(found)))
                if found == scheme
        ));
        assert!(matches!(
            N5Codec::new_with_configuration(&N5CodecConfiguration { compression: scheme }),
            Err(PluginCreateError::Other(Error::UnsupportedCompression(
                CompressionError::UnsupportedScheme(found)
            ))) if found == scheme
        ));
    }
}

#[test]
fn version_and_attributes_are_read_from_either_kind() {
    let n5 = N5Metadata::Array(array("float32", &[1, 1, 1], N5Compression::Raw));
    assert_eq!(n5.version(), Some("2.5.1"));
    assert_eq!(n5.into_attributes(), attributes());
    let n5 = N5Metadata::Group(N5GroupMetadata { n5_version: None, attributes: attributes() });
    assert_eq!(n5.version(), None);
    assert_eq!(n5.into_attributes(), attributes());
}

#[test]
fn array_document_carries_every_field() {
    let n5 = array("uint16", &[5, 6, 7], N5Compression::Gzip { level: 3 });
    let document = n5.translate().unwrap().into_document_with_grid("a.grid".to_string()).unwrap();
    assert_eq!(document.shape, vec![30, 20, 10]);
    assert_eq!(document.chunk_grid.name(), "a.grid");
    assert_eq!(
        serde_json::to_value(&document.chunk_grid).unwrap()["configuration"],
        serde_json::from_str::<Value>(r#"{"chunk_shape": [7, 6, 5]}"#).unwrap()
    );
    assert_eq!(document.data_type.name(), "uint16");
    assert!(document.data_type.configuration_is_none_or_empty());
    assert_eq!(serde_json::to_value(&document.fill_value).unwrap(), Value::from(0));
    assert_eq!(document.codecs.len(), 1);
    assert_eq!(document.codecs[0].name(), "zarrs.n5");
    assert_eq!(
        serde_json::to_value(&document.codecs[0]).unwrap()["configuration"],
        serde_json::from_str::<Value>(r#"{"compression": {"type": "gzip", "level": 3}}"#).unwrap()
    );
    assert_eq!(document.chunk_key_encoding.name(), "zarrs.n5");
    assert!(document.chunk_key_encoding.configuration_is_none_or_empty());
    assert_eq!(document.attributes, attributes());
}

#[test]
fn array_document_uses_the_grid_name_of_zarrs() {
    let n5 = array("float32", &[10, 10, 10], N5Compression::Raw);
    let document = n5.translate().unwrap().into_document().unwrap();
    assert_eq!(document.chunk_grid.name(), "zarrs.regular_bounded");
    assert_eq!(document.shape, vec![30, 20, 10]);
    assert_eq!(document.attributes, attributes());
}

#[test]
fn group_document_carries_the_attributes() {
    let group = N5GroupMetadata { n5_version: None, attributes: attributes() };
    let document = group.translate().into_document();
    assert_eq!(document.attributes, attributes());
    let node = ZarrNodeMetadata::Group(
        N5GroupMetadata { n5_version: None, attributes: attributes() }.translate(),
    )
    .into_document()
    .unwrap();
    match node {
        NodeMetadataV3::Group(found) => assert_eq!(found, document),
        other => panic!("expected a group, got {other:?}"),
    }
}

#[test]
fn node_document_of_an_array_is_its_array_document() {
    let document =
        array("int8", &[1, 2, 3], N5Compression::Raw).translate().unwrap().into_document().unwrap();
    let node = N5Metadata::Array(array("int8", &[1, 2, 3], N5Compression::Raw))
        .translate()
        .unwrap()
        .into_document()
        .unwrap();
    match node {
        NodeMetadataV3::Array(found) => assert_eq!(found, document),
        other => panic!("expected an array, got {other:?}"),
    }
}

#[test]
fn written_bytes_are_handed_on_and_errors_reported() {
    assert_eq!(document_bytes(Ok(vec![1, 2, 3])).unwrap(), vec![1, 2, 3]);
    let refused = serde_json::from_str::<Value>("{").unwrap_err();
    let text = refused.to_string();
    match document_bytes(Err(refused)) {
        Err(Error::InvalidMetadata(MetadataError::Json(found))) => {
            assert_eq!(found.to_string(), text)
        }
        other => panic!("expected invalid metadata, got {other:?}"),
    }
}

#[test]
fn well_formed_documents_are_handed_back() {
    let group = N5Metadata::Group(N5GroupMetadata { n5_version: None, attributes: attributes() });
    assert!(matches!(group.checked(), Ok(N5Metadata::Group(found)) if found.attributes == attributes()));
    let n5 = N5Metadata::Array(array("float32", &[1, 1, 1], N5Compression::Raw));
    assert!(matches!(n5.checked(), Ok(N5Metadata::Array(_))));
    let group = N5GroupMetadata { n5_version: None, attributes: attributes() };
    assert!(!group.carries_array_key());
}

#[test]
fn a_group_holds_no_key_of_an_array() {
    for key in ["dimensions", "blockSize", "dataType", "compression"] {
        let mut held = attributes();
        held.insert(key.to_string(), Value::Null);
        let group = N5GroupMetadata { n5_version: None, attributes: held };
        assert!(group.carries_array_key(), "{key}");
        assert!(matches!(
            N5Metadata::Group(group).checked(),
            Err(Error::InvalidMetadata(MetadataError::IncompleteArray))
        ));
    }
    // Keys are told apart by case, and the version is no key of an array.
    let mut held = attributes();
    held.insert("blocksize".to_string(), Value::Null);
    held.insert("block_size".to_string(), Value::Null);
    held.insert("n5".to_string(), Value::Null);
    assert!(!N5GroupMetadata { n5_version: None, attributes: held }.carries_array_key());
}

#[test]
fn chain_of_a_codec_follows_the_scheme() {
    use_chain(N5Compression::Raw, &[1, 2, 3, 4], &[1, 2, 3, 4]);
    let zipped = zarrs::array::codec::GzipCodec::new(6).unwrap();
    let payload = zarrs_codec::BytesToBytesCodecTraits::encode(
        &zipped,
        std::borrow::Cow::Owned(vec![1, 2, 3, 4]),
        &zarrs_codec::CodecOptions::default(),
    )
    .unwrap();
    use_chain(N5Compression::Gzip { level: -1 }, &payload, &[1, 2, 3, 4]);
}

fn use_chain(compression: N5Compression, payload: &[u8], expected: &[u8]) {
    let codec = N5Codec::new(compression).unwrap();
    let mut block = vec![0, 0, 0, 1, 0, 0, 0, 4];
    block.extend_from_slice(payload);
    let decoded = codec
        .decode(
            &block,
            &[4],
            N5DataType::UInt8,
            &zarrs::array::FillValue::from(0u8),
            &zarrs_codec::CodecOptions::default(),
        )
        .unwrap();
    assert_eq!(decoded.into_fixed().unwrap().as_ref(), expected);
}

#[test]
fn copies_of_documents_and_codecs_are_alike() {
    let n5 = N5Metadata::Array(array("float32", &[1, 2, 3], N5Compression::Gzip { level: 2 }));
    let copy = n5.clone();
    assert_eq!(copy.version(), n5.version());
    assert_eq!(
        copy.translate().unwrap().to_json_bytes().unwrap(),
        n5.translate().unwrap().to_json_bytes().unwrap()
    );
    let group = N5GroupMetadata { n5_version: None, attributes: attributes() };
    assert_eq!(group.clone().attributes, group.attributes);
    let codec = N5Codec::new(N5Compression::Gzip { level: 2 }).unwrap();
    assert_eq!(codec.clone().configuration(), codec.configuration());
}
