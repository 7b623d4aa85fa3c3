//! Error kinds of the translation layer.
use vstd::prelude::*;
use vstd::string::StringExecFns;

use serde_json::Error as SerdeJsonError;

use crate::chunk::N5ChunkMode;
use crate::metadata::N5Compression;
use crate::text::{decimal, push_decimal, push_signed_decimal, push_size_list, signed_decimal};
use crate::text::size_list;

verus! {

/// Why the leading bytes of a block are not an N5 block header.
#[derive(Debug, Clone, Copy, PartialEq, Eq, Structural)]
pub enum FormatError {
    /// The buffer ends before the field that is being read.
    Truncated {
        /// Number of bytes the header needs up to and including that field.
        needed: usize,
        /// Number of bytes in the buffer.
        available: usize,
    },
    /// The mode discriminator is none of 0, 1 and 2.
    InvalidMode(u16),
}

/// Why a compression scheme does not resolve to a byte transform.
#[derive(Debug, Clone, Copy, PartialEq, Eq, Structural)]
pub enum CompressionError {
    /// The scheme is known but no transform is available for it.
    UnsupportedScheme(N5Compression),
    /// The bzip2 block size is outside `1..=9`.
    InvalidBzip2BlockSize(u8),
    /// The gzip level is neither `-1` nor in `0..=9`.
    InvalidGzipLevel(i8),
}

/// An operation that this read-only layer does not offer.
#[derive(Debug, Clone, Copy, PartialEq, Eq, Structural)]
pub enum UnsupportedOperation {
    /// Encoding a chunk.
    Encode,
    /// Reading one byte range of a value.
    GetPartial,
    /// Reading several byte ranges of a value.
    GetPartialMany,
}

/// Why an N5 attributes document has no Zarr v3 counterpart.
#[derive(Debug)]
pub enum MetadataError {
    /// The document is not JSON or not an N5 attributes document; the text
    /// is what the parser said.
    Malformed(String),
    /// The document holds some of the keys of an array but is not one: a
    /// field is missing or has the wrong shape.
    IncompleteArray,
    /// An entry of `blockSize` is zero.
    ZeroBlockSize,
    /// `dataType` names no type of N5; the text is the name found.
    UnsupportedDataType(String),
    /// The Zarr v3 document could not be put together or written out.
    Json(SerdeJsonError),
}

/// Errors raised while reading N5 data.
#[derive(Debug)]
pub enum Error {
    /// The block header is truncated or carries an unknown mode.
    Format(FormatError),
    /// The shape in the block header is not the shape of the chunk.
    ShapeMismatch {
        /// Shape found in the header, in N5 (column-major) order.
        header_shape: Vec<u32>,
        /// Shape of the chunk, in row-major order.
        expected_shape: Vec<u64>,
    },
    /// The block is in a mode other than the default one.
    UnsupportedMode(N5ChunkMode),
    /// The compression scheme is not available or its parameter is invalid.
    UnsupportedCompression(CompressionError),
    /// The N5 attributes cannot be presented as Zarr v3 metadata.
    InvalidMetadata(MetadataError),
    /// The operation is not offered.
    Unsupported(UnsupportedOperation),
    /// The codec chain rejected the payload.
    Codec(zarrs_codec::CodecError),
}

/// Errors of the store wrapper.
#[derive(Debug)]
pub enum StorageError {
    /// The attributes under the key that stands in for `key` could not be
    /// presented as Zarr v3 metadata.
    InvalidMetadata {
        /// The key that was requested.
        key: String,
        /// What went wrong.
        cause: Error,
    },
    /// The operation is not offered.
    Unsupported(UnsupportedOperation),
}

/// Why a codec or a chunk key encoding could not be created from metadata.
#[derive(Debug)]
pub enum PluginCreateError {
    /// The metadata names another extension.
    NameInvalid {
        /// The name found in the metadata.
        name: String,
    },
    /// The metadata carries a configuration that the extension does not
    /// take.
    ConfigurationInvalid,
    /// The configuration was understood and refused.
    Other(Error),
}

/// How a mode is called in messages.
pub open spec fn mode_name(mode: N5ChunkMode) -> Seq<char> {
    match mode {
        N5ChunkMode::Default => "default"@,
        N5ChunkMode::VarLen { .. } => "varlen"@,
        N5ChunkMode::Object => "object"@,
    }
}

/// The tag of a compression scheme.
pub open spec fn scheme_name(scheme: N5Compression) -> Seq<char> {
    match scheme {
        N5Compression::Raw => "raw"@,
        N5Compression::Bzip2 { .. } => "bzip2"@,
        N5Compression::Gzip { .. } => "gzip"@,
        N5Compression::Lz4 { .. } => "lz4"@,
        N5Compression::Xz { .. } => "xz"@,
    }
}

/// The widened extents of a header shape.
pub open spec fn widened(shape: Seq<u32>) -> Seq<u64> {
    Seq::new(shape.len(), |i: int| shape[i] as u64)
}

impl FormatError {
    /// The message of the error.
    pub open spec fn spec_message(self) -> Seq<char> {
        match self {
            FormatError::Truncated { needed, available } => "truncated N5 chunk header: needs "@
                + decimal(needed as nat) + " bytes, found "@ + decimal(available as nat),
            FormatError::InvalidMode(mode) => "invalid N5 chunk mode "@ + decimal(mode as nat),
        }
    }

    /// The message of the error.
    pub fn message(&self) -> (text: String)
        ensures
            text@ == self.spec_message(),
    {
        match *self {
            FormatError::Truncated { needed, available } => {
                let mut text = String::from_str("truncated N5 chunk header: needs ");
                push_decimal(&mut text, needed as u64);
                text.append(" bytes, found ");
                push_decimal(&mut text, available as u64);
                text
            },
            FormatError::InvalidMode(mode) => {
                let mut text = String::from_str("invalid N5 chunk mode ");
                push_decimal(&mut text, mode as u64);
                text
            },
        }
    }
}

impl CompressionError {
    /// The message of the error.
    pub open spec fn spec_message(self) -> Seq<char> {
        match self {
            CompressionError::UnsupportedScheme(scheme) => "unsupported N5 compression: "@
                + scheme_name(scheme),
            CompressionError::InvalidBzip2BlockSize(block_size) => "invalid bz2 block size "@
                + decimal(block_size as nat),
            CompressionError::InvalidGzipLevel(level) => "invalid gzip compression level "@
                + signed_decimal(level as int),
        }
    }

    /// The message of the error; it names the scheme or the parameter that
    /// was refused.
    pub fn message(&self) -> (text: String)
        ensures
            text@ == self.spec_message(),
    {
        match *self {
            CompressionError::UnsupportedScheme(scheme) => {
                let mut text = String::from_str("unsupported N5 compression: ");
                text.append(
                    match scheme {
                        N5Compression::Raw => "raw",
                        N5Compression::Bzip2 { .. } => "bzip2",
                        N5Compression::Gzip { .. } => "gzip",
                        N5Compression::Lz4 { .. } => "lz4",
                        N5Compression::Xz { .. } => "xz",
                    },
                );
                text
            },
            CompressionError::InvalidBzip2BlockSize(block_size) => {
                let mut text = String::from_str("invalid bz2 block size ");
                push_decimal(&mut text, block_size as u64);
                text
            },
            CompressionError::InvalidGzipLevel(level) => {
                let mut text = String::from_str("invalid gzip compression level ");
                push_signed_decimal(&mut text, level as i64);
                text
            },
        }
    }
}

impl UnsupportedOperation {
    /// The message of the error.
    pub open spec fn spec_message(self) -> Seq<char> {
        match self {
            UnsupportedOperation::Encode => "encoding not supported"@,
            UnsupportedOperation::GetPartial => "get_partial not supported"@,
            UnsupportedOperation::GetPartialMany => "get_partial_many not supported"@,
        }
    }

    /// The message of the error.
    pub fn message(&self) -> (text: String)
        ensures
            text@ == self.spec_message(),
    {
        match self {
            UnsupportedOperation::Encode => String::from_str("encoding not supported"),
            UnsupportedOperation::GetPartial => String::from_str("get_partial not supported"),
            UnsupportedOperation::GetPartialMany => String::from_str(
                "get_partial_many not supported",
            ),
        }
    }
}

/// Widens the extents of a header shape.
fn widen(shape: &Vec<u32>) -> (wide: Vec<u64>)
    ensures
        wide@ == widened(shape@),
{
    let mut wide: Vec<u64> = Vec::with_capacity(shape.len());
    let mut i: usize = 0;
    while i < shape.len()
        invariant
            i <= shape@.len(),
            wide@.len() == i,
            forall|j: int| 0 <= j < i ==> wide@[j] == shape@[j] as u64,
        decreases shape@.len() - i,
    {
        wide.push(shape[i] as u64);
        i += 1;
    }
    assert(wide@ =~= widened(shape@));
    wide
}

impl MetadataError {
    /// The message of the error, where it does not quote the JSON library.
    pub open spec fn spec_message(self) -> Option<Seq<char>> {
        match self {
            MetadataError::Malformed(message) => Some(
                "could not parse N5 metadata: "@ + message@,
            ),
            MetadataError::IncompleteArray => Some(
                "could not parse N5 metadata: incomplete array"@,
            ),
            MetadataError::ZeroBlockSize => Some("zero block size"@),
            MetadataError::UnsupportedDataType(name) => Some("unsupported data type: "@ + name@),
            MetadataError::Json(_) => None,
        }
    }

    /// The message of the error; it names the field that was refused.
    pub fn message(&self) -> (text: String)
        ensures
            self.spec_message() matches Some(expected) ==> text@ == expected,
    {
        match self {
            MetadataError::Malformed(message) => {
                let mut text = String::from_str("could not parse N5 metadata: ");
                text.append(message.as_str());
                text
            },
            MetadataError::IncompleteArray => String::from_str(
                "could not parse N5 metadata: incomplete array",
            ),
            MetadataError::ZeroBlockSize => String::from_str("zero block size"),
            MetadataError::UnsupportedDataType(name) => {
                let mut text = String::from_str("unsupported data type: ");
                text.append(name.as_str());
                text
            },
            MetadataError::Json(e) => {
                let mut text = String::from_str("could not serialize Zarr metadata: ");
                text.append(e.to_string().as_str());
                text
            },
        }
    }
}

impl Error {
    /// The message of the error, where it does not quote another library.
    pub open spec fn spec_message(self) -> Option<Seq<char>> {
        match self {
            Error::Format(e) => Some("N5 chunk header could not be parsed: "@ + e.spec_message()),
            Error::ShapeMismatch { header_shape, expected_shape } => Some(
                "N5 chunk header has shape "@ + size_list(widened(header_shape@)) + ", expected "@
                    + size_list(expected_shape@),
            ),
            Error::UnsupportedMode(mode) => Some("unsupported N5 chunk mode: "@ + mode_name(mode)),
            Error::UnsupportedCompression(e) => Some(e.spec_message()),
            Error::InvalidMetadata(e) => e.spec_message(),
            Error::Unsupported(operation) => Some(operation.spec_message()),
            Error::Codec(_) => None,
        }
    }

    /// The message of the error.
    pub fn message(&self) -> (text: String)
        ensures
            self.spec_message() matches Some(expected) ==> text@ == expected,
    {
        match self {
            Error::Format(e) => {
                let mut text = String::from_str("N5 chunk header could not be parsed: ");
                text.append(e.message().as_str());
                text
            },
            Error::ShapeMismatch { header_shape, expected_shape } => {
                let mut text = String::from_str("N5 chunk header has shape ");
                push_size_list(&mut text, widen(header_shape).as_slice());
                text.append(", expected ");
                push_size_list(&mut text, expected_shape.as_slice());
                text
            },
            Error::UnsupportedMode(mode) => {
                let mut text = String::from_str("unsupported N5 chunk mode: ");
                text.append(
                    match mode {
                        N5ChunkMode::Default => "default",
                        N5ChunkMode::VarLen { .. } => "varlen",
                        N5ChunkMode::Object => "object",
                    },
                );
                text
            },
            Error::UnsupportedCompression(e) => e.message(),
            Error::InvalidMetadata(e) => e.message(),
            Error::Unsupported(operation) => operation.message(),
            Error::Codec(e) => e.to_string(),
        }
    }
}

impl StorageError {
    /// The key the error is about, if it is about one.
    pub fn key(&self) -> (key: Option<&str>)
        ensures
            match (self, key) {
                (StorageError::InvalidMetadata { key: reported, .. }, Some(k)) => k@ == reported@,
                (StorageError::Unsupported(_), None) => true,
                _ => false,
            },
    {
        match self {
            StorageError::InvalidMetadata { key, .. } => Some(key.as_str()),
            StorageError::Unsupported(_) => None,
        }
    }

    /// The message of the error, where it does not quote another library.
    pub open spec fn spec_message(self) -> Option<Seq<char>> {
        match self {
            StorageError::InvalidMetadata { cause, .. } => cause.spec_message(),
            StorageError::Unsupported(operation) => Some(operation.spec_message()),
        }
    }

    /// The message of the error: that of its cause.
    pub fn message(&self) -> (text: String)
        ensures
            self.spec_message() matches Some(expected) ==> text@ == expected,
    {
        match self {
            StorageError::InvalidMetadata { cause, .. } => cause.message(),
            StorageError::Unsupported(operation) => operation.message(),
        }
    }
}

impl PluginCreateError {
    /// The message of the error, where it does not quote another library.
    pub open spec fn spec_message(self) -> Option<Seq<char>> {
        match self {
            PluginCreateError::NameInvalid { name } => Some("invalid plugin name: "@ + name@),
            PluginCreateError::ConfigurationInvalid => Some(
                "N5 chunk key encoding does not support configuration"@,
            ),
            PluginCreateError::Other(e) => e.spec_message(),
        }
    }

    /// The message of the error.
    pub fn message(&self) -> (text: String)
        ensures
            self.spec_message() matches Some(expected) ==> text@ == expected,
    {
        match self {
            PluginCreateError::NameInvalid { name } => {
                let mut text = String::from_str("invalid plugin name: ");
                text.append(name.as_str());
                text
            },
            PluginCreateError::ConfigurationInvalid => String::from_str(
                "N5 chunk key encoding does not support configuration",
            ),
            PluginCreateError::Other(e) => e.message(),
        }
    }
}

} // verus!
