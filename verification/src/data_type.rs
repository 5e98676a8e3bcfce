//! The data-type descriptor: an element kind code, a bit width and a lane
//! count, matching the fixed binary layout shared by all producers and
//! consumers of the exchange format.

use vstd::prelude::*;

verus! {

/// The kind of a tensor element, as the wire format enumerates it.
#[derive(Clone, Copy, Debug, PartialEq, Eq, Structural)]
pub enum DataTypeCode {
    Int,
    UInt,
    Float,
    OpaqueHandle,
    Bfloat,
    Complex,
    Bool,
}

impl DataTypeCode {
    /// The numeric code the wire format assigns to this kind.
    pub open spec fn spec_code(&self) -> u8 {
        match self {
            DataTypeCode::Int => 0,
            DataTypeCode::UInt => 1,
            DataTypeCode::Float => 2,
            DataTypeCode::OpaqueHandle => 3,
            DataTypeCode::Bfloat => 4,
            DataTypeCode::Complex => 5,
            DataTypeCode::Bool => 6,
        }
    }

    /// The numeric code the wire format assigns to this kind.
    pub fn code(&self) -> (r: u8)
        ensures
            r == self.spec_code(),
    {
        match self {
            DataTypeCode::Int => 0,
            DataTypeCode::UInt => 1,
            DataTypeCode::Float => 2,
            DataTypeCode::OpaqueHandle => 3,
            DataTypeCode::Bfloat => 4,
            DataTypeCode::Complex => 5,
            DataTypeCode::Bool => 6,
        }
    }

    /// Decode a wire code; every kind decodes back to itself, and codes the
    /// format does not define are rejected.
    pub fn from_code(code: u8) -> (r: Option<DataTypeCode>)
        ensures
            r matches Some(c) ==> c.spec_code() == code,
            r is None <==> code > 6,
    {
        match code {
            0 => Some(DataTypeCode::Int),
            1 => Some(DataTypeCode::UInt),
            2 => Some(DataTypeCode::Float),
            3 => Some(DataTypeCode::OpaqueHandle),
            4 => Some(DataTypeCode::Bfloat),
            5 => Some(DataTypeCode::Complex),
            6 => Some(DataTypeCode::Bool),
            _ => None,
        }
    }
}

impl Default for DataTypeCode {
    /// The conventional default element kind is floating point.
    fn default() -> (r: Self)
        ensures
            r == DataTypeCode::Float,
    {
        DataTypeCode::Float
    }
}

/// A tensor element type: kind code, bit width and vector lane count.
#[derive(Clone, Copy, Debug, PartialEq, Eq, Structural)]
pub struct DataType {
    pub code: DataTypeCode,
    pub bits: u8,
    pub lanes: u16,
}

impl DataType {
    /// Single-lane 32-bit floating point.
    pub fn float32() -> (r: Self)
        ensures
            r == (DataType { code: DataTypeCode::Float, bits: 32, lanes: 1 }),
    {
        Self { code: DataTypeCode::Float, bits: 32, lanes: 1 }
    }

    /// Single-lane unsigned 8-bit integer.
    pub fn uint8() -> (r: Self)
        ensures
            r == (DataType { code: DataTypeCode::UInt, bits: 8, lanes: 1 }),
    {
        Self { code: DataTypeCode::UInt, bits: 8, lanes: 1 }
    }

    /// Single-lane signed 32-bit integer.
    pub fn int32() -> (r: Self)
        ensures
            r == (DataType { code: DataTypeCode::Int, bits: 32, lanes: 1 }),
    {
        Self { code: DataTypeCode::Int, bits: 32, lanes: 1 }
    }

    /// Single-lane signed 64-bit integer.
    pub fn int64() -> (r: Self)
        ensures
            r == (DataType { code: DataTypeCode::Int, bits: 64, lanes: 1 }),
    {
        Self { code: DataTypeCode::Int, bits: 64, lanes: 1 }
    }

    /// The number of bytes one element (all lanes together) occupies.
    pub fn size(&self) -> (r: usize)
        ensures
            r == ((self.bits as int * self.lanes as int + 7) / 8),
    {
        proof {
            assert(self.bits as int * self.lanes as int <= 255 * 65535) by (nonlinear_arith)
                requires
                    self.bits as int <= 255,
                    self.lanes as int <= 65535,
            ;
        }
        (self.bits as usize * self.lanes as usize + 7) / 8
    }
}

impl From<(DataTypeCode, u8, u16)> for DataType {
    fn from(value: (DataTypeCode, u8, u16)) -> (r: Self) {
        Self { code: value.0, bits: value.1, lanes: value.2 }
    }
}

impl vstd::std_specs::convert::FromSpecImpl<(DataTypeCode, u8, u16)> for DataType {
    open spec fn obeys_from_spec() -> bool {
        true
    }

    open spec fn from_spec(value: (DataTypeCode, u8, u16)) -> Self {
        DataType { code: value.0, bits: value.1, lanes: value.2 }
    }
}

impl Default for DataType {
    /// The conventional default element type is single-lane 32-bit float.
    fn default() -> (r: Self)
        ensures
            r == (DataType { code: DataTypeCode::Float, bits: 32, lanes: 1 }),
    {
        Self { code: DataTypeCode::Float, bits: 32, lanes: 1 }
    }
}

} // verus!
