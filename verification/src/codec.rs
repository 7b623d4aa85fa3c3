//! The array-to-bytes codec of N5 blocks.
//!
//! Decoding strips the block header, checks the declared shape against the
//! shape of the chunk, and runs the payload through a chain made of the
//! compression of the array, if any, and a big-endian `bytes` codec. The
//! codec is read-only.
use vstd::prelude::*;

use zarrs::array::codec::{Bz2Codec, GzipCodec, GzipCompressionLevelError};
use zarrs::array::{CodecChain, FillValue};
use zarrs_codec::{ArrayBytes, CodecOptions};

use crate::chunk::{declared_mode, header_len, parse_header, shape_end};
use crate::chunk::{N5ChunkHeader, N5ChunkMode};
use crate::data_type::N5DataType;
use crate::error::{CompressionError, Error, PluginCreateError, UnsupportedOperation};
use crate::metadata::{N5Compression, GZIP_DEFAULT_LEVEL, GZIP_IMPLEMENTATION_DEFAULT};
use crate::shape::{all_fit, all_nonzero, chunk_fits, copy_of, count_elements, element_count};
use crate::shape::{fits, no_extent_is_zero};
use crate::trusted::{bz2_codec, bz2_codec_made, chain_decode, chain_for, chain_gives};
use crate::trusted::{codec_chain, gzip_codec_made};

verus! {

/// Name under which the codec is registered.
pub const CODEC_NAME: &'static str = "zarrs.n5";

/// Short alias of [`CODEC_NAME`].
pub const CODEC_ALIAS: &'static str = "n5";

/// The byte transform a compression scheme resolves to.
#[derive(Debug, Clone, Copy, PartialEq, Eq, Structural)]
pub enum CompressionTransform {
    /// bzip2 with a block size in `1..=9`.
    Bzip2 {
        /// The block size.
        block_size: u32,
    },
    /// gzip with a level in `0..=9`.
    Gzip {
        /// The level.
        level: u32,
    },
}

/// A compression codec, ready to be put in a codec chain.
#[derive(Debug)]
#[allow(inconsistent_fields)]
pub enum N5BytesToBytesCodec {
    /// A bzip2 codec.
    Bzip2 {
        /// The block size the codec was made with.
        block_size: u32,
        /// The codec.
        codec: Bz2Codec,
    },
    /// A gzip codec.
    Gzip {
        /// The level the codec was made with.
        level: u32,
        /// The codec.
        codec: GzipCodec,
    },
}

impl View for N5BytesToBytesCodec {
    type V = CompressionTransform;

    open spec fn view(&self) -> CompressionTransform {
        match self {
            N5BytesToBytesCodec::Bzip2 { block_size, .. } => CompressionTransform::Bzip2 {
                block_size: *block_size,
            },
            N5BytesToBytesCodec::Gzip { level, .. } => CompressionTransform::Gzip { level: *level },
        }
    }
}

impl N5BytesToBytesCodec {
    /// Whether the codec is the one that was made for the block size or
    /// level that stands beside it.
    pub open spec fn is_made(self) -> bool {
        match self {
            N5BytesToBytesCodec::Bzip2 { block_size, codec } => {
                &&& 1 <= block_size <= 9
                &&& bz2_codec_made(block_size) == Ok::<Bz2Codec, u32>(codec)
            },
            N5BytesToBytesCodec::Gzip { level, codec } => gzip_codec_made(level) == Ok::<
                GzipCodec,
                GzipCompressionLevelError,
            >(codec),
        }
    }
}

/// The transform of a compressor, if there is one.
pub open spec fn transform_of(compressor: Option<N5BytesToBytesCodec>) -> Option<
    CompressionTransform,
> {
    match compressor {
        Some(codec) => Some(codec@),
        None => None,
    }
}

/// The transform of a compression scheme: none for `Raw`; bzip2 with the
/// given block size if that is in `1..=9`; gzip with level 6 for level `-1`
/// and with the given level if that is in `0..=9`. Every other parameter is
/// an error, and so are the schemes for which no transform is available.
pub open spec fn resolve(scheme: N5Compression) -> Result<
    Option<CompressionTransform>,
    CompressionError,
> {
    match scheme {
        N5Compression::Raw => Ok(None),
        N5Compression::Bzip2 { block_size } => if 1 <= block_size <= 9 {
            Ok(Some(CompressionTransform::Bzip2 { block_size: block_size as u32 }))
        } else {
            Err(CompressionError::InvalidBzip2BlockSize(block_size))
        },
        N5Compression::Gzip { level } => if level == GZIP_IMPLEMENTATION_DEFAULT {
            Ok(Some(CompressionTransform::Gzip { level: GZIP_DEFAULT_LEVEL }))
        } else if 0 <= level <= 9 {
            Ok(Some(CompressionTransform::Gzip { level: level as u32 }))
        } else {
            Err(CompressionError::InvalidGzipLevel(level))
        },
        N5Compression::Lz4 { .. } => Err(CompressionError::UnsupportedScheme(scheme)),
        N5Compression::Xz { .. } => Err(CompressionError::UnsupportedScheme(scheme)),
    }
}

/// A gzip scheme has a transform exactly for the levels from -1 to 9; its
/// level is 6 for -1 and the level of the scheme otherwise.
pub proof fn law_gzip_levels(level: i8)
    ensures
        resolve(N5Compression::Gzip { level }) is Ok <==> -1 <= level <= 9,
        level == -1 ==> resolve(N5Compression::Gzip { level }) == Ok::<_, CompressionError>(
            Some(CompressionTransform::Gzip { level: 6 }),
        ),
        0 <= level <= 9 ==> resolve(N5Compression::Gzip { level }) == Ok::<_, CompressionError>(
            Some(CompressionTransform::Gzip { level: level as u32 }),
        ),
        !(-1 <= level <= 9) ==> resolve(N5Compression::Gzip { level }) == Err::<
            Option<CompressionTransform>,
            _,
        >(CompressionError::InvalidGzipLevel(level)),
{
}

/// A bzip2 scheme has a transform exactly for the block sizes from 1 to 9,
/// and the transform has the block size of the scheme.
pub proof fn law_bzip2_block_sizes(block_size: u8)
    ensures
        resolve(N5Compression::Bzip2 { block_size }) is Ok <==> 1 <= block_size <= 9,
        1 <= block_size <= 9 ==> resolve(N5Compression::Bzip2 { block_size }) == Ok::<
            _,
            CompressionError,
        >(Some(CompressionTransform::Bzip2 { block_size: block_size as u32 })),
        !(1 <= block_size <= 9) ==> resolve(N5Compression::Bzip2 { block_size }) == Err::<
            Option<CompressionTransform>,
            _,
        >(CompressionError::InvalidBzip2BlockSize(block_size)),
{
}

/// Only the raw scheme has no transform and no error; LZ4 and XZ have no
/// transform whatever their parameter.
pub proof fn law_schemes_without_transform(scheme: N5Compression)
    ensures
        resolve(scheme) == Ok::<Option<CompressionTransform>, CompressionError>(None) <==> scheme
            is Raw,
        scheme is Lz4 || scheme is Xz ==> resolve(scheme) == Err::<
            Option<CompressionTransform>,
            _,
        >(CompressionError::UnsupportedScheme(scheme)),
{
}

/// Whether `result` is the compressor of a scheme: none for a scheme
/// without transform, the codec that was made for the transform of any
/// other scheme that resolves, and the error of a scheme that does not.
pub open spec fn is_compressor_of(
    scheme: N5Compression,
    result: Result<Option<N5BytesToBytesCodec>, Error>,
) -> bool {
    match (result, resolve(scheme)) {
        (Ok(None), Ok(None)) => true,
        (Ok(Some(codec)), Ok(Some(transform))) => codec@ == transform && codec.is_made(),
        (Err(Error::UnsupportedCompression(e)), Err(expected)) => e == expected,
        _ => false,
    }
}

impl N5Compression {
    /// The transform this scheme resolves to, as plain values.
    pub fn transform(&self) -> (result: Result<Option<CompressionTransform>, CompressionError>)
        ensures
            result == resolve(*self),
    {
        match *self {
            N5Compression::Raw => Ok(None),
            N5Compression::Bzip2 { block_size } => {
                if 1 <= block_size && block_size <= 9 {
                    Ok(Some(CompressionTransform::Bzip2 { block_size: block_size as u32 }))
                } else {
                    Err(CompressionError::InvalidBzip2BlockSize(block_size))
                }
            },
            N5Compression::Gzip { level } => {
                if level == GZIP_IMPLEMENTATION_DEFAULT {
                    Ok(Some(CompressionTransform::Gzip { level: GZIP_DEFAULT_LEVEL }))
                } else if 0 <= level && level <= 9 {
                    Ok(Some(CompressionTransform::Gzip { level: level as u32 }))
                } else {
                    Err(CompressionError::InvalidGzipLevel(level))
                }
            },
            N5Compression::Lz4 { .. } => Err(CompressionError::UnsupportedScheme(*self)),
            N5Compression::Xz { .. } => Err(CompressionError::UnsupportedScheme(*self)),
        }
    }

    /// Convert to a bytes-to-bytes codec if possible.
    ///
    /// Returns no codec for `Raw`, the codec of the resolved transform for
    /// valid bzip2 and gzip schemes, and an error otherwise, as [`resolve`]
    /// says.
    pub fn to_bytes_to_bytes_codec(&self) -> (result: Result<Option<N5BytesToBytesCodec>, Error>)
        ensures
            is_compressor_of(*self, result),
    {
        match self.transform() {
            Err(e) => Err(Error::UnsupportedCompression(e)),
            Ok(None) => Ok(None),
            Ok(Some(CompressionTransform::Bzip2 { block_size })) => {
                match bz2_codec(block_size) {
                    Ok(codec) => Ok(Some(N5BytesToBytesCodec::Bzip2 { block_size, codec })),
                    Err(_) => {
                        assert(false);
                        Err(Error::UnsupportedCompression(
                            CompressionError::UnsupportedScheme(*self),
                        ))
                    },
                }
            },
            Ok(Some(CompressionTransform::Gzip { level })) => {
                match GzipCodec::new(level) {
                    Ok(codec) => Ok(Some(N5BytesToBytesCodec::Gzip { level, codec })),
                    Err(_) => {
                        assert(false);
                        Err(Error::UnsupportedCompression(
                            CompressionError::UnsupportedScheme(*self),
                        ))
                    },
                }
            },
        }
    }
}

/// Whether a header shape, which is in N5 (column-major) order, is the
/// row-major shape `expected` read backwards.
pub open spec fn is_reversed_shape(header_shape: Seq<u32>, expected: Seq<u64>) -> bool {
    &&& header_shape.len() == expected.len()
    &&& forall|i: int|
        0 <= i < header_shape.len() ==> header_shape[i] as int == expected[expected.len() - 1
            - i] as int
}

/// The payload of a block that holds a chunk of shape `expected`: the bytes
/// behind the header, provided that the header parses, is in default mode
/// and declares the shape of the chunk.
pub open spec fn payload_of(bytes: Seq<u8>, expected: Seq<u64>) -> Option<Seq<u8>> {
    match parse_header(bytes) {
        Ok((mode, header_shape)) => if mode is Default && is_reversed_shape(
            header_shape,
            expected,
        ) {
            Some(bytes.subrange(header_len(mode, header_shape.len()) as int, bytes.len() as int))
        } else {
            None
        },
        Err(_) => None,
    }
}

/// Whether `error` is the reason for which a block has no payload for a
/// chunk of shape `expected`. The header is judged first, then the mode,
/// then the shape.
pub open spec fn is_rejection(bytes: Seq<u8>, expected: Seq<u64>, error: Error) -> bool {
    match parse_header(bytes) {
        Err(e) => error matches Error::Format(found) && found == e,
        Ok((mode, header_shape)) => if !(mode is Default) {
            error matches Error::UnsupportedMode(found) && found == mode
        } else {
            &&& !is_reversed_shape(header_shape, expected)
            &&& error matches Error::ShapeMismatch { header_shape: found, expected_shape }
            &&& found@ == header_shape
            &&& expected_shape@ == expected
        },
    }
}

/// Whether `result` is what decoding a block with the given chain comes
/// to: the rejection of a block without a payload for the chunk; else
/// elements that the chain gives for the payload, or the error of the
/// chain.
pub open spec fn is_decoded(
    chain: CodecChain,
    bytes: Seq<u8>,
    shape: Seq<u64>,
    data_type: N5DataType,
    result: Result<ArrayBytes<'static>, Error>,
) -> bool {
    match payload_of(bytes, shape) {
        Some(payload) => match result {
            Ok(elements) => chain_gives(chain, payload, shape, data_type, elements),
            Err(Error::Codec(_)) => true,
            Err(_) => false,
        },
        None => result matches Err(error) && !(error is Codec) && is_rejection(bytes, shape, error),
    }
}

/// A block whose header is complete and declares another mode than the
/// default one has no payload for any chunk, whatever follows the header,
/// and the only reason given for it is the unsupported mode. This holds in
/// particular of every variable-length block.
pub proof fn law_other_modes_are_unsupported(bytes: Seq<u8>, expected: Seq<u64>, error: Error)
    requires
        parse_header(bytes) matches Ok((mode, _)) && !(mode is Default),
        is_rejection(bytes, expected, error),
    ensures
        payload_of(bytes, expected) is None,
        parse_header(bytes) matches Ok((mode, _)) && error matches Error::UnsupportedMode(found)
            && found == mode,
{
}

/// Decoding a block whose header is complete and declares another mode
/// than the default one fails, whatever the chain, the shape and element
/// type of the chunk and the payload, and the error is the unsupported
/// mode. No elements are returned.
pub proof fn law_other_modes_are_never_decoded(
    chain: CodecChain,
    bytes: Seq<u8>,
    shape: Seq<u64>,
    data_type: N5DataType,
    result: Result<ArrayBytes<'static>, Error>,
)
    requires
        parse_header(bytes) matches Ok((mode, _)) && !(mode is Default),
        is_decoded(chain, bytes, shape, data_type, result),
    ensures
        parse_header(bytes) matches Ok((mode, _)) && result matches Err(
            Error::UnsupportedMode(found),
        ) && found == mode,
{
}

/// A buffer that starts with the mode discriminator 1 and is long enough
/// for the dimension sizes and the element count it announces is a
/// variable-length block.
pub proof fn law_discriminator_one_is_var_length(bytes: Seq<u8>)
    requires
        bytes.len() >= 4,
        declared_mode(bytes) == 1,
        bytes.len() >= shape_end(bytes) + 4,
    ensures
        parse_header(bytes) matches Ok((mode, _)) && mode is VarLen,
{
}

/// Whether the size of an encoded chunk can be told: no extent is zero,
/// and where elements have a fixed size, the number of elements and the
/// number of their bytes fit in 64 bits.
pub open spec fn encoded_size_fits(shape: Seq<u64>, fixed_size: Option<usize>) -> bool {
    &&& all_nonzero(shape)
    &&& fixed_size matches Some(element_size) ==> element_count(shape) <= u64::MAX
        && element_count(shape) * element_size <= u64::MAX
}

/// The size of an encoded chunk: at most the number of elements times the
/// size of one, where elements have a fixed size; unbounded otherwise.
pub open spec fn encoded_size(shape: Seq<u64>, fixed_size: Option<usize>) -> BytesRepresentation {
    match fixed_size {
        Some(element_size) => BytesRepresentation::BoundedSize(
            (element_count(shape) * element_size) as u64,
        ),
        None => BytesRepresentation::UnboundedSize,
    }
}

/// What [`N5Codec::partial_decoder_capability`] reports.
#[derive(Debug, Clone, Copy, PartialEq, Eq, Structural)]
pub struct PartialDecoderCapability {
    /// Whether a part of a chunk can be read without reading all of it.
    pub partial_read: bool,
    /// Whether a part of a chunk can be decoded without decoding all of it.
    pub partial_decode: bool,
}

/// What [`N5Codec::partial_encoder_capability`] reports.
#[derive(Debug, Clone, Copy, PartialEq, Eq, Structural)]
pub struct PartialEncoderCapability {
    /// Whether a part of a chunk can be encoded without encoding all of it.
    pub partial_encode: bool,
}

/// Number of tasks a codec would like to run at a time.
#[derive(Debug, Clone, Copy, PartialEq, Eq, Structural)]
pub struct RecommendedConcurrency {
    /// The least number of tasks.
    pub min: usize,
    /// The greatest number of tasks.
    pub max: usize,
}

/// What is known of the size of an encoded chunk.
#[derive(Debug, Clone, Copy, PartialEq, Eq, Structural)]
pub enum BytesRepresentation {
    /// At most this many bytes.
    BoundedSize(u64),
    /// No bound is known.
    UnboundedSize,
}

/// Configuration of an [`N5Codec`].
#[derive(Debug, Clone, Copy, PartialEq, Eq, Structural)]
pub struct N5CodecConfiguration {
    /// The compression of the array.
    pub compression: N5Compression,
}

/// The array-to-bytes codec of N5 blocks.
#[derive(Debug, Clone)]
pub struct N5Codec {
    /// The compression as the array declares it.
    n5_compression: N5Compression,
    /// Always contains a big-endian bytes codec.
    /// May contain a single bytes-to-bytes codec representing the N5 compression.
    codecs: CodecChain,
}

/// Whether the header shape is the chunk shape read backwards.
fn shape_matches(header_shape: &Vec<u32>, expected: &[u64]) -> (matches: bool)
    ensures
        matches == is_reversed_shape(header_shape@, expected@),
{
    let n = header_shape.len();
    if n != expected.len() {
        return false;
    }
    let mut i: usize = 0;
    while i < n
        invariant
            i <= n,
            n == header_shape@.len(),
            n == expected@.len(),
            forall|j: int|
                0 <= j < i ==> header_shape@[j] as int == expected@[expected@.len() - 1 - j] as int,
        decreases n - i,
    {
        if header_shape[i] as u64 != expected[n - 1 - i] {
            return false;
        }
        i += 1;
    }
    true
}

/// Strips the header off a block that holds a chunk of shape `expected`.
///
/// Returns the payload, as [`payload_of`] defines it, or the reason for
/// which there is none: a [`Error::Format`] error for a header that does
/// not parse, [`Error::UnsupportedMode`] for a block in another mode than
/// the default one, [`Error::ShapeMismatch`] for a header that declares
/// another shape.
pub fn chunk_payload(bytes: &[u8], expected: &[u64]) -> (result: Result<Vec<u8>, Error>)
    ensures
        match result {
            Ok(payload) => payload_of(bytes@, expected@) == Some(payload@),
            Err(error) => payload_of(bytes@, expected@) is None && is_rejection(
                bytes@,
                expected@,
                error,
            ),
        },
{
    let header = match N5ChunkHeader::from_bytes(bytes) {
        Ok(header) => header,
        Err(e) => {
            return Err(e);
        },
    };
    match header.mode() {
        N5ChunkMode::Default => {},
        mode => {
            return Err(Error::UnsupportedMode(mode));
        },
    }
    if !shape_matches(header.shape(), expected) {
        return Err(
            Error::ShapeMismatch {
                header_shape: header.shape().clone(),
                expected_shape: copy_of(expected),
            },
        );
    }
    let start = header.data_offset();
    let mut payload: Vec<u8> = Vec::with_capacity(bytes.len() - start);
    let mut i: usize = start;
    while i < bytes.len()
        invariant
            start <= i <= bytes@.len(),
            payload@ == bytes@.subrange(start as int, i as int),
        decreases bytes@.len() - i,
    {
        payload.push(bytes[i]);
        assert(payload@ =~= bytes@.subrange(start as int, i + 1));
        i += 1;
    }
    Ok(payload)
}

/// The compression codec of a scheme, if it has one.
fn n5compression_to_b2b(n5c: &N5Compression) -> (result: Result<Option<N5BytesToBytesCodec>, Error>)
    ensures
        is_compressor_of(*n5c, result),
{
    n5c.to_bytes_to_bytes_codec()
}

/// The codec chain of a scheme: a big-endian bytes codec, behind the
/// compression codec if there is one.
fn n5compression_to_chain(n5c: &N5Compression) -> (result: Result<CodecChain, Error>)
    ensures
        match (result, resolve(*n5c)) {
            (Ok(chain), Ok(transform)) => chain == chain_for(transform),
            (Err(Error::UnsupportedCompression(e)), Err(expected)) => e == expected,
            _ => false,
        },
{
    match n5compression_to_b2b(n5c) {
        Ok(compressor) => Ok(codec_chain(compressor)),
        Err(e) => Err(e),
    }
}

impl N5Codec {
    /// The compression scheme the codec was made for.
    pub closed spec fn compression(&self) -> N5Compression {
        self.n5_compression
    }

    /// The codec chain: the big-endian `bytes` codec, behind the
    /// compressor if there is one.
    pub closed spec fn chain(&self) -> CodecChain {
        self.codecs
    }

    /// Creates the codec for an array with the given compression.
    ///
    /// Fails exactly when the scheme does not resolve to a transform, with
    /// the error of [`resolve`]. The codec keeps the scheme, and its chain
    /// is the one for the transform of the scheme: the big-endian `bytes`
    /// codec alone for `Raw`, and behind the bzip2 or gzip codec otherwise.
    pub fn new(compression: N5Compression) -> (result: Result<Self, Error>)
        ensures
            match (result, resolve(compression)) {
                (Ok(codec), Ok(transform)) => codec.compression() == compression && codec.chain()
                    == chain_for(transform),
                (Err(Error::UnsupportedCompression(e)), Err(expected)) => e == expected,
                _ => false,
            },
    {
        match n5compression_to_chain(&compression) {
            Ok(codecs) => Ok(Self { codecs, n5_compression: compression }),
            Err(e) => Err(e),
        }
    }

    /// Creates the codec from its configuration.
    ///
    /// Fails exactly when the scheme of the configuration does not resolve
    /// to a transform.
    pub fn new_with_configuration(configuration: &N5CodecConfiguration) -> (result: Result<
        Self,
        PluginCreateError,
    >)
        ensures
            match (result, resolve(configuration.compression)) {
                (Ok(codec), Ok(transform)) => codec.compression() == configuration.compression
                    && codec.chain() == chain_for(transform),
                (
                    Err(PluginCreateError::Other(Error::UnsupportedCompression(e))),
                    Err(expected),
                ) => e == expected,
                _ => false,
            },
    {
        match Self::new(configuration.compression) {
            Ok(codec) => Ok(codec),
            Err(e) => Err(PluginCreateError::Other(e)),
        }
    }

    /// The configuration the codec can be created from again.
    pub fn configuration(&self) -> (configuration: N5CodecConfiguration)
        ensures
            configuration.compression == self.compression(),
    {
        N5CodecConfiguration { compression: self.n5_compression }
    }

    /// The header has to be parsed from the start of the block, so neither
    /// partial reads nor partial decoding are supported.
    pub fn partial_decoder_capability(&self) -> (capability: PartialDecoderCapability)
        ensures
            !capability.partial_read,
            !capability.partial_decode,
    {
        PartialDecoderCapability { partial_read: false, partial_decode: false }
    }

    /// Partial encoding is not supported.
    pub fn partial_encoder_capability(&self) -> (capability: PartialEncoderCapability)
        ensures
            !capability.partial_encode,
    {
        PartialEncoderCapability { partial_encode: false }
    }

    /// One task at a time per chunk, whatever the chunk.
    pub fn recommended_concurrency(&self) -> (concurrency: RecommendedConcurrency)
        ensures
            concurrency.min == 1,
            concurrency.max == 1,
    {
        RecommendedConcurrency { min: 1, max: 1 }
    }

    /// The size of an encoded chunk of the given shape, as
    /// [`N5Codec::encoded_representation`] gives it, where that size can be
    /// told in 64 bits; nothing where it cannot, or where the shape has an
    /// extent of zero.
    pub fn checked_encoded_representation(&self, shape: &[u64], fixed_size: Option<usize>) -> (size:
        Option<BytesRepresentation>)
        ensures
            match size {
                Some(size) => encoded_size_fits(shape@, fixed_size) && size == encoded_size(
                    shape@,
                    fixed_size,
                ),
                None => !encoded_size_fits(shape@, fixed_size),
            },
    {
        let told = match fixed_size {
            Some(element_size) => all_fit(shape, element_size, u64::MAX),
            None => no_extent_is_zero(shape),
        };
        if told {
            Some(self.encoded_representation(shape, fixed_size))
        } else {
            None
        }
    }

    /// The size of an encoded chunk of the given shape: bounded by the
    /// number of elements times the size of one, where elements have a
    /// fixed size, and unbounded otherwise.
    pub fn encoded_representation(&self, shape: &[u64], fixed_size: Option<usize>) -> (size:
        BytesRepresentation)
        requires
            encoded_size_fits(shape@, fixed_size),
        ensures
            size == encoded_size(shape@, fixed_size),
    {
        match fixed_size {
            Some(element_size) => {
                let numel = count_elements(shape);
                BytesRepresentation::BoundedSize(numel * (element_size as u64))
            },
            None => BytesRepresentation::UnboundedSize,
        }
    }

    /// Encoding is not supported: fails for every input.
    pub fn encode(
        &self,
        _bytes: ArrayBytes<'_>,
        _shape: &[u64],
        _data_type: N5DataType,
        _fill_value: &FillValue,
        _options: &CodecOptions,
    ) -> (result: Result<Vec<u8>, Error>)
        ensures
            result matches Err(Error::Unsupported(UnsupportedOperation::Encode)),
    {
        Err(Error::Unsupported(UnsupportedOperation::Encode))
    }

    /// Decodes the block `bytes` into the elements of a chunk of the given
    /// shape.
    ///
    /// A block without a payload for that chunk is rejected as
    /// [`chunk_payload`] says, before the codec chain sees anything. The
    /// payload of any other block, and nothing else of the block, goes
    /// through the chain of the codec: the result is what the chain gives
    /// for it, its error reported as [`Error::Codec`].
    ///
    /// The chain computes the size of the chunk, so a block that has a
    /// payload must be for a chunk that fits, as [`chunk_fits`] tells.
    pub fn decode(
        &self,
        bytes: &[u8],
        shape: &[u64],
        data_type: N5DataType,
        fill_value: &FillValue,
        options: &CodecOptions,
    ) -> (result: Result<ArrayBytes<'static>, Error>)
        requires
            payload_of(bytes@, shape@) is Some ==> fits(shape@, data_type),
        ensures
            is_decoded(self.chain(), bytes@, shape@, data_type, result),
    {
        let payload = match chunk_payload(bytes, shape) {
            Ok(payload) => payload,
            Err(e) => {
                return Err(e);
            },
        };
        match chain_decode(&self.codecs, payload, shape, data_type, fill_value, options) {
            Ok(elements) => Ok(elements),
            Err(e) => Err(Error::Codec(e)),
        }
    }

    /// Decodes the block `bytes` as [`N5Codec::decode`] does, for a chunk of
    /// any shape: a block without a payload for the chunk is rejected, and
    /// a block with one is decoded if the chunk fits. Where it does not
    /// fit, nothing is decoded and nothing is returned.
    pub fn decode_if_fits(
        &self,
        bytes: &[u8],
        shape: &[u64],
        data_type: N5DataType,
        fill_value: &FillValue,
        options: &CodecOptions,
    ) -> (result: Option<Result<ArrayBytes<'static>, Error>>)
        ensures
            match result {
                Some(decoded) => is_decoded(self.chain(), bytes@, shape@, data_type, decoded) && (
                payload_of(bytes@, shape@) is Some ==> fits(shape@, data_type)),
                None => payload_of(bytes@, shape@) is Some && !fits(shape@, data_type),
            },
    {
        if chunk_fits(shape, data_type) {
            return Some(self.decode(bytes, shape, data_type, fill_value, options));
        }
        match chunk_payload(bytes, shape) {
            Ok(_) => None,
            Err(e) => Some(Err(e)),
        }
    }
}

} // verus!
