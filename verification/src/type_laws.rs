//! How attribute types are described to OpenGL.

use vstd::prelude::*;
use crate::context::{AttribPointerKind, GlCommand};
use crate::glenum;
use crate::program::{lookup_attribute, Program};
use crate::vertex::{num_components, AttributeType, VertexBinding};
use crate::vertex_array_object::{binding_commands, gl_type_of};

verus! {

/// The OpenGL scalar type and the number of components of each scalar or vector attribute
/// type; `None` for a matrix type.
pub open spec fn vector_shape(ty: AttributeType) -> Option<(u32, int)> {
    match ty {
        AttributeType::I8 => Some((glenum::BYTE, 1)),
        AttributeType::U8 => Some((glenum::UNSIGNED_BYTE, 1)),
        AttributeType::I16 => Some((glenum::SHORT, 1)),
        AttributeType::U16 => Some((glenum::UNSIGNED_SHORT, 1)),
        AttributeType::I32 => Some((glenum::INT, 1)),
        AttributeType::U32 => Some((glenum::UNSIGNED_INT, 1)),
        AttributeType::F32 => Some((glenum::FLOAT, 1)),
        AttributeType::F64 => Some((glenum::DOUBLE, 1)),
        AttributeType::I8I8 => Some((glenum::BYTE, 2)),
        AttributeType::U8U8 => Some((glenum::UNSIGNED_BYTE, 2)),
        AttributeType::I16I16 => Some((glenum::SHORT, 2)),
        AttributeType::U16U16 => Some((glenum::UNSIGNED_SHORT, 2)),
        AttributeType::I32I32 => Some((glenum::INT, 2)),
        AttributeType::U32U32 => Some((glenum::UNSIGNED_INT, 2)),
        AttributeType::F32F32 => Some((glenum::FLOAT, 2)),
        AttributeType::F64F64 => Some((glenum::DOUBLE, 2)),
        AttributeType::I8I8I8 => Some((glenum::BYTE, 3)),
        AttributeType::U8U8U8 => Some((glenum::UNSIGNED_BYTE, 3)),
        AttributeType::I16I16I16 => Some((glenum::SHORT, 3)),
        AttributeType::U16U16U16 => Some((glenum::UNSIGNED_SHORT, 3)),
        AttributeType::I32I32I32 => Some((glenum::INT, 3)),
        AttributeType::U32U32U32 => Some((glenum::UNSIGNED_INT, 3)),
        AttributeType::F32F32F32 => Some((glenum::FLOAT, 3)),
        AttributeType::F64F64F64 => Some((glenum::DOUBLE, 3)),
        AttributeType::I8I8I8I8 => Some((glenum::BYTE, 4)),
        AttributeType::U8U8U8U8 => Some((glenum::UNSIGNED_BYTE, 4)),
        AttributeType::I16I16I16I16 => Some((glenum::SHORT, 4)),
        AttributeType::U16U16U16U16 => Some((glenum::UNSIGNED_SHORT, 4)),
        AttributeType::I32I32I32I32 => Some((glenum::INT, 4)),
        AttributeType::U32U32U32U32 => Some((glenum::UNSIGNED_INT, 4)),
        AttributeType::F32F32F32F32 => Some((glenum::FLOAT, 4)),
        AttributeType::F64F64F64F64 => Some((glenum::DOUBLE, 4)),
        _ => None,
    }
}

/// A scalar or vector attribute type is described by its scalar OpenGL type and its number of
/// components (a vec2 by 2, a vec3 by 3, ...), which is also the number of components the
/// program checks; a matrix type is described as one value.
pub proof fn lemma_gl_type_of_vectors(ty: AttributeType)
    ensures
        match vector_shape(ty) {
            Some((scalar, count)) => {
                &&& gl_type_of(ty).0 == scalar
                &&& gl_type_of(ty).1 == count
                &&& num_components(ty) == count
            },
            None => gl_type_of(ty).1 == 1,
        },
{
}

/// The values of the attribute type are integers: its scalars are signed or unsigned bytes,
/// shorts or ints.
pub open spec fn reads_integers(ty: AttributeType) -> bool {
    match ty {
        AttributeType::I8 | AttributeType::I8I8 | AttributeType::I8I8I8 | AttributeType::I8I8I8I8
        | AttributeType::U8 | AttributeType::U8U8 | AttributeType::U8U8U8 | AttributeType::U8U8U8U8
        | AttributeType::I16 | AttributeType::I16I16 | AttributeType::I16I16I16
        | AttributeType::I16I16I16I16 | AttributeType::U16 | AttributeType::U16U16
        | AttributeType::U16U16U16 | AttributeType::U16U16U16U16 | AttributeType::I32
        | AttributeType::I32I32 | AttributeType::I32I32I32 | AttributeType::I32I32I32I32
        | AttributeType::U32 | AttributeType::U32U32 | AttributeType::U32U32U32
        | AttributeType::U32U32U32U32 => true,
        _ => false,
    }
}

/// The values of the attribute type are doubles: doubles, double vectors or double matrices.
pub open spec fn reads_doubles(ty: AttributeType) -> bool {
    match ty {
        AttributeType::F64 | AttributeType::F64F64 | AttributeType::F64F64F64
        | AttributeType::F64F64F64F64 | AttributeType::F64x2x2 | AttributeType::F64x2x3
        | AttributeType::F64x2x4 | AttributeType::F64x3x2 | AttributeType::F64x3x3
        | AttributeType::F64x3x4 | AttributeType::F64x4x2 | AttributeType::F64x4x3
        | AttributeType::F64x4x4 => true,
        _ => false,
    }
}

/// A binding described to a program attribute at some location is described first by a
/// pointer command, through the integer entry point where the program attribute holds
/// integers, through the double one where it holds doubles, and through the float one
/// otherwise; the pointer gives the attribute's location and the binding's component count
/// and type.
pub proof fn lemma_pointer_kind_follows_program_type(
    program: Program,
    binding: VertexBinding,
    buffer_offset: usize,
    stride: usize,
    divisor: Option<u32>,
)
    requires
        lookup_attribute(program.attributes@, binding.0@) is Some,
        lookup_attribute(program.attributes@, binding.0@).unwrap().location != -1,
    ensures
        ({
            let a = lookup_attribute(program.attributes@, binding.0@).unwrap();
            let commands = binding_commands(program, binding, buffer_offset, stride, divisor);
            &&& commands.len() > 0
            &&& commands[0] matches GlCommand::VertexAttribPointer {
                kind,
                index,
                size,
                data_type,
                ..
            } && kind == (if reads_integers(a.ty) {
                AttribPointerKind::Integer
            } else if reads_doubles(a.ty) {
                AttribPointerKind::Double
            } else {
                AttribPointerKind::Float
            }) && index == a.location as u32 && size == gl_type_of(binding.2).1 && data_type
                == gl_type_of(binding.2).0
            &&& commands[0] matches GlCommand::VertexAttribPointer { stride: s, offset, .. } && s
                == stride as i32 && offset == (buffer_offset + binding.1) as usize
            &&& commands.len() == if divisor is Some { 3int } else { 2int }
            &&& divisor matches Some(d) ==> commands[1] == GlCommand::VertexAttribDivisor(
                a.location as u32,
                d,
            )
            &&& commands.last() == GlCommand::EnableVertexAttribArray(a.location as u32)
        }),
{
}

/// A binding whose name no program attribute has, or whose attribute the shader compiler
/// dropped, is not described at all.
pub proof fn lemma_unused_binding_is_silent(
    program: Program,
    binding: VertexBinding,
    buffer_offset: usize,
    stride: usize,
    divisor: Option<u32>,
)
    requires
        lookup_attribute(program.attributes@, binding.0@) is None || lookup_attribute(
            program.attributes@,
            binding.0@,
        ).unwrap().location == -1,
    ensures
        binding_commands(program, binding, buffer_offset, stride, divisor).len() == 0,
{
}

} // verus!
