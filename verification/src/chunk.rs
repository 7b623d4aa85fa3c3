//! The header in front of every N5 block.
//!
//! Layout, all fields big-endian:
//! `[u16 mode][u16 ndim][ndim x u32 dim]([u32 element count] iff mode == 1)`,
//! followed by the payload.
use vstd::prelude::*;

use crate::error::{Error, FormatError};

verus! {

/// How the payload of a block is laid out.
#[derive(Debug, Clone, Copy, PartialEq, Eq, Structural)]
pub enum N5ChunkMode {
    /// Dense block of fixed-size elements.
    Default,
    /// Block of variable-length elements.
    VarLen {
        /// Number of elements the header declares.
        num_el: u32,
    },
    /// Block of serialised objects.
    Object,
}

/// Parsed header of an N5 block.
#[derive(Debug)]
pub struct N5ChunkHeader {
    mode: N5ChunkMode,
    /// Block shape in N5 (column-major) order.
    shape: Vec<u32>,
}

/// Number of bytes taken by the mode and dimension-count fields.
pub const HEADER_PREFIX_LEN: usize = 4;

/// Big-endian 16-bit integer at `at`.
pub open spec fn be_u16(bytes: Seq<u8>, at: int) -> int {
    bytes[at] as int * 0x100 + bytes[at + 1] as int
}

/// Big-endian 32-bit integer at `at`.
pub open spec fn be_u32(bytes: Seq<u8>, at: int) -> int {
    bytes[at] as int * 0x100_0000 + bytes[at + 1] as int * 0x1_0000 + bytes[at + 2] as int * 0x100
        + bytes[at + 3] as int
}

/// The mode discriminator of a buffer of at least two bytes.
pub open spec fn declared_mode(bytes: Seq<u8>) -> int {
    be_u16(bytes, 0)
}

/// The dimension count of a buffer of at least four bytes.
pub open spec fn declared_ndim(bytes: Seq<u8>) -> int {
    be_u16(bytes, 2)
}

/// The dimension sizes that follow the dimension count.
pub open spec fn declared_shape(bytes: Seq<u8>) -> Seq<u32> {
    Seq::new(declared_ndim(bytes) as nat, |i: int| be_u32(bytes, 4 + 4 * i) as u32)
}

/// Offset of the first byte after the dimension sizes.
pub open spec fn shape_end(bytes: Seq<u8>) -> int {
    4 + 4 * declared_ndim(bytes)
}

/// What a buffer parses to: the mode and shape of its header, or the reason
/// it has none.
///
/// Fields are read front to back, so a buffer that is too short for a field
/// is reported as truncated even if a later check would fail as well; the
/// mode discriminator is judged once the shape has been read.
pub open spec fn parse_header(bytes: Seq<u8>) -> Result<(N5ChunkMode, Seq<u32>), FormatError> {
    let len = bytes.len() as usize;
    if bytes.len() < 2 {
        Err(FormatError::Truncated { needed: 2, available: len })
    } else if bytes.len() < 4 {
        Err(FormatError::Truncated { needed: 4, available: len })
    } else if bytes.len() < shape_end(bytes) {
        Err(FormatError::Truncated { needed: shape_end(bytes) as usize, available: len })
    } else if declared_mode(bytes) == 0 {
        Ok((N5ChunkMode::Default, declared_shape(bytes)))
    } else if declared_mode(bytes) == 1 {
        if bytes.len() < shape_end(bytes) + 4 {
            Err(FormatError::Truncated { needed: (shape_end(bytes) + 4) as usize, available: len })
        } else {
            Ok(
                (
                    N5ChunkMode::VarLen { num_el: be_u32(bytes, shape_end(bytes)) as u32 },
                    declared_shape(bytes),
                ),
            )
        }
    } else if declared_mode(bytes) == 2 {
        Ok((N5ChunkMode::Object, declared_shape(bytes)))
    } else {
        Err(FormatError::InvalidMode(declared_mode(bytes) as u16))
    }
}

/// Payload offset of a header with the given mode and number of dimensions.
pub open spec fn header_len(mode: N5ChunkMode, ndim: nat) -> nat {
    if mode is VarLen {
        8 + 4 * ndim
    } else {
        4 + 4 * ndim
    }
}

/// The header of a buffer that parses takes 4 bytes and 4 more for each
/// dimension, and another 4 in variable-length mode; all of them lie in the
/// buffer, and the payload begins behind them.
pub proof fn law_data_offset(bytes: Seq<u8>)
    requires
        parse_header(bytes) is Ok,
    ensures
        ({
            let (mode, shape) = parse_header(bytes)->Ok_0;
            &&& shape.len() == declared_ndim(bytes)
            &&& mode is Default ==> header_len(mode, shape.len()) == 4 + 4 * shape.len()
            &&& mode is Object ==> header_len(mode, shape.len()) == 4 + 4 * shape.len()
            &&& mode is VarLen ==> header_len(mode, shape.len()) == 8 + 4 * shape.len()
            &&& header_len(mode, shape.len()) <= bytes.len()
        }),
{
}

/// Reads the big-endian 16-bit integer at `at`.
fn read_be_u16(bytes: &[u8], at: usize) -> (value: u16)
    requires
        at + 2 <= bytes@.len(),
    ensures
        value == be_u16(bytes@, at as int),
{
    let hi: u16 = bytes[at] as u16;
    let lo: u16 = bytes[at + 1] as u16;
    hi * 0x100 + lo
}

/// Reads the big-endian 32-bit integer at `at`.
fn read_be_u32(bytes: &[u8], at: usize) -> (value: u32)
    requires
        at + 4 <= bytes@.len(),
    ensures
        value == be_u32(bytes@, at as int),
{
    let b0: u32 = bytes[at] as u32;
    let b1: u32 = bytes[at + 1] as u32;
    let b2: u32 = bytes[at + 2] as u32;
    let b3: u32 = bytes[at + 3] as u32;
    b0 * 0x100_0000 + b1 * 0x1_0000 + b2 * 0x100 + b3
}

impl Clone for N5ChunkHeader {
    fn clone(&self) -> (copy: Self)
        ensures
            copy@ == self@,
    {
        proof {
            use_type_invariant(self);
        }
        N5ChunkHeader { mode: self.mode, shape: self.shape.clone() }
    }
}

impl N5ChunkHeader {
    /// The dimension count is a 16-bit field.
    #[verifier::type_invariant]
    spec fn well_formed(self) -> bool {
        self.shape@.len() <= 0xFFFF
    }

    /// The mode and shape as mathematical values.
    pub closed spec fn view(&self) -> (N5ChunkMode, Seq<u32>) {
        (self.mode, self.shape@)
    }

    /// Offset of the payload, as a mathematical value.
    pub open spec fn spec_data_offset(&self) -> nat {
        header_len(self@.0, self@.1.len())
    }

    /// Parses the header at the start of `bytes`.
    ///
    /// Succeeds exactly when [`parse_header`] does, with the same mode and
    /// shape; otherwise reports the same [`FormatError`]. On success the
    /// whole header lies inside the buffer.
    pub fn from_bytes(bytes: &[u8]) -> (result: Result<Self, Error>)
        ensures
            match (result, parse_header(bytes@)) {
                (Ok(header), Ok(parsed)) => header@ == parsed && header.spec_data_offset()
                    <= bytes@.len(),
                (Err(Error::Format(e)), Err(expected)) => e == expected,
                _ => false,
            },
    {
        let len = bytes.len();
        if len < 2 {
            return Err(Error::Format(FormatError::Truncated { needed: 2, available: len }));
        }
        let mode_num = read_be_u16(bytes, 0);
        if len < 4 {
            return Err(Error::Format(FormatError::Truncated { needed: 4, available: len }));
        }
        let ndim = read_be_u16(bytes, 2);
        let shape_end: usize = 4 + 4 * (ndim as usize);
        if len < shape_end {
            return Err(Error::Format(FormatError::Truncated { needed: shape_end, available: len }));
        }
        let mut shape: Vec<u32> = Vec::with_capacity(ndim as usize);
        let mut i: usize = 0;
        while i < ndim as usize
            invariant
                i <= ndim as usize,
                ndim as int == declared_ndim(bytes@),
                4 + 4 * (ndim as int) <= bytes@.len(),
                shape@.len() == i,
                forall|j: int| 0 <= j < i ==> shape@[j] == be_u32(bytes@, 4 + 4 * j) as u32,
            decreases ndim as usize - i,
        {
            shape.push(read_be_u32(bytes, 4 + 4 * i));
            i += 1;
        }
        assert(shape@ =~= declared_shape(bytes@));
        let mode = if mode_num == 0 {
            N5ChunkMode::Default
        } else if mode_num == 1 {
            if len < shape_end + 4 {
                return Err(
                    Error::Format(FormatError::Truncated { needed: shape_end + 4, available: len }),
                );
            }
            N5ChunkMode::VarLen { num_el: read_be_u32(bytes, shape_end) }
        } else if mode_num == 2 {
            N5ChunkMode::Object
        } else {
            return Err(Error::Format(FormatError::InvalidMode(mode_num)));
        };
        Ok(N5ChunkHeader { mode, shape })
    }

    /// The mode the header declares.
    pub fn mode(&self) -> (mode: N5ChunkMode)
        ensures
            mode == self@.0,
    {
        self.mode
    }

    /// The block shape the header declares, in N5 (column-major) order.
    pub fn shape(&self) -> (shape: &Vec<u32>)
        ensures
            shape@ == self@.1,
    {
        &self.shape
    }

    /// Offset at which the payload begins: 4 bytes of mode and dimension
    /// count, 4 bytes per dimension, and 4 more for the element count of a
    /// variable-length block.
    pub fn data_offset(&self) -> (offset: usize)
        ensures
            offset == self.spec_data_offset(),
            self@.0 is VarLen ==> offset == 8 + 4 * self@.1.len(),
            !(self@.0 is VarLen) ==> offset == 4 + 4 * self@.1.len(),
    {
        proof {
            use_type_invariant(self);
        }
        let extra: usize = match self.mode {
            N5ChunkMode::VarLen { .. } => 4,
            _ => 0,
        };
        4 + 4 * self.shape.len() + extra
    }
}

} // verus!
