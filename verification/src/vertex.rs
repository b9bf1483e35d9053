//! Vertex formats: the type of each attribute that a vertex buffer holds.

use vstd::prelude::*;

verus! {

/// The type of one vertex attribute: its scalar type and its shape (scalar, vector, matrix).
#[derive(Clone, Copy, Debug, PartialEq, Eq, Structural, Hash)]
pub enum AttributeType {
    I8,
    I8I8,
    I8I8I8,
    I8I8I8I8,
    U8,
    U8U8,
    U8U8U8,
    U8U8U8U8,
    I16,
    I16I16,
    I16I16I16,
    I16I16I16I16,
    U16,
    U16U16,
    U16U16U16,
    U16U16U16U16,
    I32,
    I32I32,
    I32I32I32,
    I32I32I32I32,
    U32,
    U32U32,
    U32U32U32,
    U32U32U32U32,
    F32,
    F32F32,
    F32F32F32,
    F32F32F32F32,
    F32x2x2,
    F32x2x3,
    F32x2x4,
    F32x3x2,
    F32x3x3,
    F32x3x4,
    F32x4x2,
    F32x4x3,
    F32x4x4,
    F64,
    F64F64,
    F64F64F64,
    F64F64F64F64,
    F64x2x2,
    F64x2x3,
    F64x2x4,
    F64x3x2,
    F64x3x3,
    F64x3x4,
    F64x4x2,
    F64x4x3,
    F64x4x4,
}

/// The number of scalar components of a value of type `ty`: the length of a vector, or
/// rows times columns of a matrix.
pub open spec fn num_components(ty: AttributeType) -> nat {
    match ty {
        AttributeType::I8 | AttributeType::U8 | AttributeType::I16 | AttributeType::U16
        | AttributeType::I32 | AttributeType::U32 | AttributeType::F32 | AttributeType::F64 => 1,
        AttributeType::I8I8 | AttributeType::U8U8 | AttributeType::I16I16 | AttributeType::U16U16
        | AttributeType::I32I32 | AttributeType::U32U32 | AttributeType::F32F32
        | AttributeType::F64F64 => 2,
        AttributeType::I8I8I8 | AttributeType::U8U8U8 | AttributeType::I16I16I16
        | AttributeType::U16U16U16 | AttributeType::I32I32I32 | AttributeType::U32U32U32
        | AttributeType::F32F32F32 | AttributeType::F64F64F64 => 3,
        AttributeType::I8I8I8I8 | AttributeType::U8U8U8U8 | AttributeType::I16I16I16I16
        | AttributeType::U16U16U16U16 | AttributeType::I32I32I32I32
        | AttributeType::U32U32U32U32 | AttributeType::F32F32F32F32
        | AttributeType::F64F64F64F64 | AttributeType::F32x2x2 | AttributeType::F64x2x2 => 4,
        AttributeType::F32x2x3 | AttributeType::F32x3x2 | AttributeType::F64x2x3
        | AttributeType::F64x3x2 => 6,
        AttributeType::F32x2x4 | AttributeType::F32x4x2 | AttributeType::F64x2x4
        | AttributeType::F64x4x2 => 8,
        AttributeType::F32x3x3 | AttributeType::F64x3x3 => 9,
        AttributeType::F32x3x4 | AttributeType::F32x4x3 | AttributeType::F64x3x4
        | AttributeType::F64x4x3 => 12,
        AttributeType::F32x4x4 | AttributeType::F64x4x4 => 16,
    }
}

impl AttributeType {
    /// Returns the number of scalar components of a value of this type.
    pub fn get_num_components(&self) -> (n: usize)
        ensures
            n == num_components(*self),
    {
        match *self {
            AttributeType::I8 | AttributeType::U8 | AttributeType::I16 | AttributeType::U16
            | AttributeType::I32 | AttributeType::U32 | AttributeType::F32
            | AttributeType::F64 => 1,
            AttributeType::I8I8 | AttributeType::U8U8 | AttributeType::I16I16
            | AttributeType::U16U16 | AttributeType::I32I32 | AttributeType::U32U32
            | AttributeType::F32F32 | AttributeType::F64F64 => 2,
            AttributeType::I8I8I8 | AttributeType::U8U8U8 | AttributeType::I16I16I16
            | AttributeType::U16U16U16 | AttributeType::I32I32I32 | AttributeType::U32U32U32
            | AttributeType::F32F32F32 | AttributeType::F64F64F64 => 3,
            AttributeType::I8I8I8I8 | AttributeType::U8U8U8U8 | AttributeType::I16I16I16I16
            | AttributeType::U16U16U16U16 | AttributeType::I32I32I32I32
            | AttributeType::U32U32U32U32 | AttributeType::F32F32F32F32
            | AttributeType::F64F64F64F64 => 4,
            AttributeType::F32x2x2 | AttributeType::F64x2x2 => 2 * 2,
            AttributeType::F32x2x3 | AttributeType::F64x2x3 => 2 * 3,
            AttributeType::F32x2x4 | AttributeType::F64x2x4 => 2 * 4,
            AttributeType::F32x3x2 | AttributeType::F64x3x2 => 3 * 2,
            AttributeType::F32x3x3 | AttributeType::F64x3x3 => 3 * 3,
            AttributeType::F32x3x4 | AttributeType::F64x3x4 => 3 * 4,
            AttributeType::F32x4x2 | AttributeType::F64x4x2 => 4 * 2,
            AttributeType::F32x4x3 | AttributeType::F64x4x3 => 4 * 3,
            AttributeType::F32x4x4 | AttributeType::F64x4x4 => 4 * 4,
        }
    }
}

/// One attribute of a vertex: its name, its offset in bytes within the vertex, and its type.
pub type VertexBinding = (String, usize, AttributeType);

/// Describes the layout of each vertex of a vertex buffer.
pub type VertexFormat = Vec<VertexBinding>;

/// Returns a copy of a vertex format.
pub fn clone_format(format: &VertexFormat) -> (copy: VertexFormat)
    ensures
        copy@ == format@,
{
    let mut copy: VertexFormat = Vec::new();
    let mut i: usize = 0;
    while i < format.len()
        invariant
            i <= format@.len(),
            copy@ == format@.subrange(0, i as int),
        decreases format@.len() - i,
    {
        let binding = &format[i];
        copy.push((binding.0.clone(), binding.1, binding.2));
        i = i + 1;
        assert(copy@ =~= format@.subrange(0, i as int));
    }
    assert(format@.subrange(0, format@.len() as int) =~= format@);
    copy
}

} // verus!
