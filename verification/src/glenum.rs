//! The OpenGL enumerants that the vertex attribute system uses, with their values from the
//! OpenGL registry.

use vstd::prelude::*;

verus! {

pub const BYTE: u32 = 0x1400;
pub const UNSIGNED_BYTE: u32 = 0x1401;
pub const SHORT: u32 = 0x1402;
pub const UNSIGNED_SHORT: u32 = 0x1403;
pub const INT: u32 = 0x1404;
pub const UNSIGNED_INT: u32 = 0x1405;
pub const FLOAT: u32 = 0x1406;
pub const DOUBLE: u32 = 0x140A;

pub const FLOAT_MAT2: u32 = 0x8B5A;
pub const FLOAT_MAT3: u32 = 0x8B5B;
pub const FLOAT_MAT4: u32 = 0x8B5C;
pub const FLOAT_MAT2x3: u32 = 0x8B65;
pub const FLOAT_MAT2x4: u32 = 0x8B66;
pub const FLOAT_MAT3x2: u32 = 0x8B67;
pub const FLOAT_MAT3x4: u32 = 0x8B68;
pub const FLOAT_MAT4x2: u32 = 0x8B69;
pub const FLOAT_MAT4x3: u32 = 0x8B6A;

pub const DOUBLE_MAT2: u32 = 0x8F46;
pub const DOUBLE_MAT3: u32 = 0x8F47;
pub const DOUBLE_MAT4: u32 = 0x8F48;
pub const DOUBLE_MAT2x3: u32 = 0x8F49;
pub const DOUBLE_MAT2x4: u32 = 0x8F4A;
pub const DOUBLE_MAT3x2: u32 = 0x8F4B;
pub const DOUBLE_MAT3x4: u32 = 0x8F4C;
pub const DOUBLE_MAT4x2: u32 = 0x8F4D;
pub const DOUBLE_MAT4x3: u32 = 0x8F4E;
pub const DOUBLE_VEC2: u32 = 0x8FFC;
pub const DOUBLE_VEC3: u32 = 0x8FFD;
pub const DOUBLE_VEC4: u32 = 0x8FFE;

/// Binding point of vertex data (`ARRAY_BUFFER_ARB` has the same value).
pub const ARRAY_BUFFER: u32 = 0x8892;
/// Binding point of index data (`ELEMENT_ARRAY_BUFFER_ARB` has the same value).
pub const ELEMENT_ARRAY_BUFFER: u32 = 0x8893;

} // verus!
