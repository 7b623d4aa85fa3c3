//! The element types of N5 arrays.
use vstd::prelude::*;

use crate::text::same_text;

verus! {

/// Element type of an N5 array. N5 and Zarr v3 call these types by the
/// same names.
#[derive(Debug, Clone, Copy, PartialEq, Eq, Structural)]
pub enum N5DataType {
    /// `uint8`
    UInt8,
    /// `int8`
    Int8,
    /// `uint16`
    UInt16,
    /// `int16`
    Int16,
    /// `uint32`
    UInt32,
    /// `int32`
    Int32,
    /// `uint64`
    UInt64,
    /// `int64`
    Int64,
    /// `float32`
    Float32,
    /// `float64`
    Float64,
}

/// The type a name stands for, if any.
pub open spec fn data_type_named(name: Seq<char>) -> Option<N5DataType> {
    if name == "uint8"@ {
        Some(N5DataType::UInt8)
    } else if name == "int8"@ {
        Some(N5DataType::Int8)
    } else if name == "uint16"@ {
        Some(N5DataType::UInt16)
    } else if name == "int16"@ {
        Some(N5DataType::Int16)
    } else if name == "uint32"@ {
        Some(N5DataType::UInt32)
    } else if name == "int32"@ {
        Some(N5DataType::Int32)
    } else if name == "uint64"@ {
        Some(N5DataType::UInt64)
    } else if name == "int64"@ {
        Some(N5DataType::Int64)
    } else if name == "float32"@ {
        Some(N5DataType::Float32)
    } else if name == "float64"@ {
        Some(N5DataType::Float64)
    } else {
        None
    }
}

impl N5DataType {
    /// Size of one element in bytes.
    pub open spec fn spec_size(self) -> nat {
        match self {
            N5DataType::UInt8 | N5DataType::Int8 => 1,
            N5DataType::UInt16 | N5DataType::Int16 => 2,
            N5DataType::UInt32 | N5DataType::Int32 | N5DataType::Float32 => 4,
            N5DataType::UInt64 | N5DataType::Int64 | N5DataType::Float64 => 8,
        }
    }

    /// Name of the type.
    pub open spec fn spec_name(self) -> Seq<char> {
        match self {
            N5DataType::UInt8 => "uint8"@,
            N5DataType::Int8 => "int8"@,
            N5DataType::UInt16 => "uint16"@,
            N5DataType::Int16 => "int16"@,
            N5DataType::UInt32 => "uint32"@,
            N5DataType::Int32 => "int32"@,
            N5DataType::UInt64 => "uint64"@,
            N5DataType::Int64 => "int64"@,
            N5DataType::Float32 => "float32"@,
            N5DataType::Float64 => "float64"@,
        }
    }

    /// Size of one element in bytes.
    pub fn size(self) -> (size: usize)
        ensures
            size == self.spec_size(),
            1 <= size <= 8,
    {
        match self {
            N5DataType::UInt8 | N5DataType::Int8 => 1,
            N5DataType::UInt16 | N5DataType::Int16 => 2,
            N5DataType::UInt32 | N5DataType::Int32 | N5DataType::Float32 => 4,
            N5DataType::UInt64 | N5DataType::Int64 | N5DataType::Float64 => 8,
        }
    }

    /// Name of the type.
    pub fn name(self) -> (name: &'static str)
        ensures
            name@ == self.spec_name(),
    {
        match self {
            N5DataType::UInt8 => "uint8",
            N5DataType::Int8 => "int8",
            N5DataType::UInt16 => "uint16",
            N5DataType::Int16 => "int16",
            N5DataType::UInt32 => "uint32",
            N5DataType::Int32 => "int32",
            N5DataType::UInt64 => "uint64",
            N5DataType::Int64 => "int64",
            N5DataType::Float32 => "float32",
            N5DataType::Float64 => "float64",
        }
    }

    /// The type called `name`, if there is one.
    pub fn from_name(name: &str) -> (data_type: Option<Self>)
        ensures
            data_type == data_type_named(name@),
    {
        if same_text(name, "uint8") {
            Some(N5DataType::UInt8)
        } else if same_text(name, "int8") {
            Some(N5DataType::Int8)
        } else if same_text(name, "uint16") {
            Some(N5DataType::UInt16)
        } else if same_text(name, "int16") {
            Some(N5DataType::Int16)
        } else if same_text(name, "uint32") {
            Some(N5DataType::UInt32)
        } else if same_text(name, "int32") {
            Some(N5DataType::Int32)
        } else if same_text(name, "uint64") {
            Some(N5DataType::UInt64)
        } else if same_text(name, "int64") {
            Some(N5DataType::Int64)
        } else if same_text(name, "float32") {
            Some(N5DataType::Float32)
        } else if same_text(name, "float64") {
            Some(N5DataType::Float64)
        } else {
            None
        }
    }
}

/// Every type is found again under its own name, and a name stands for
/// at most one type.
pub proof fn lemma_name_round_trip(data_type: N5DataType)
    ensures
        data_type_named(data_type.spec_name()) == Some(data_type),
{
    reveal_strlit("uint8");
    reveal_strlit("int8");
    reveal_strlit("uint16");
    reveal_strlit("int16");
    reveal_strlit("uint32");
    reveal_strlit("int32");
    reveal_strlit("uint64");
    reveal_strlit("int64");
    reveal_strlit("float32");
    reveal_strlit("float64");
    let name = data_type.spec_name();
    match data_type {
        N5DataType::UInt8 => {},
        N5DataType::Int8 => {
            assert(name[0] != "uint8"@[0]);
        },
        N5DataType::UInt16 => {
            assert(name.len() != "uint8"@.len());
            assert(name.len() != "int8"@.len());
        },
        N5DataType::Int16 => {
            assert(name[0] != "uint8"@[0]);
            assert(name.len() != "int8"@.len());
            assert(name[0] != "uint16"@[0]);
        },
        N5DataType::UInt32 => {
            assert(name.len() != "uint8"@.len());
            assert(name.len() != "int8"@.len());
            assert(name[4] != "uint16"@[4]);
            assert(name.len() != "int16"@.len());
        },
        N5DataType::Int32 => {
            assert(name[0] != "uint8"@[0]);
            assert(name.len() != "int8"@.len());
            assert(name.len() != "uint16"@.len());
            assert(name[3] != "int16"@[3]);
            assert(name.len() != "uint32"@.len());
        },
        N5DataType::UInt64 => {
            assert(name.len() != "uint8"@.len());
            assert(name.len() != "int8"@.len());
            assert(name[4] != "uint16"@[4]);
            assert(name.len() != "int16"@.len());
            assert(name[4] != "uint32"@[4]);
            assert(name.len() != "int32"@.len());
        },
        N5DataType::Int64 => {
            assert(name[0] != "uint8"@[0]);
            assert(name.len() != "int8"@.len());
            assert(name.len() != "uint16"@.len());
            assert(name[3] != "int16"@[3]);
            assert(name.len() != "uint32"@.len());
            assert(name[3] != "int32"@[3]);
            assert(name.len() != "uint64"@.len());
        },
        N5DataType::Float32 => {
            assert(name.len() != "uint8"@.len());
            assert(name.len() != "int8"@.len());
            assert(name.len() != "uint16"@.len());
            assert(name.len() != "int16"@.len());
            assert(name.len() != "uint32"@.len());
            assert(name.len() != "int32"@.len());
            assert(name.len() != "uint64"@.len());
            assert(name.len() != "int64"@.len());
        },
        N5DataType::Float64 => {
            assert(name.len() != "uint8"@.len());
            assert(name.len() != "int8"@.len());
            assert(name.len() != "uint16"@.len());
            assert(name.len() != "int16"@.len());
            assert(name.len() != "uint32"@.len());
            assert(name.len() != "int32"@.len());
            assert(name.len() != "uint64"@.len());
            assert(name.len() != "int64"@.len());
            assert(name[5] != "float32"@[5]);
        },
    }
}

} // verus!
