//! What the vertex attribute system reads of a linked program: its handle and the vertex
//! attributes that its shaders take.

use vstd::prelude::*;
use crate::vertex::AttributeType;

verus! {

/// The name of a program object: an OpenGL 2+ program id, or an `ARB_shader_objects` handle.
#[derive(Clone, Copy, Debug, PartialEq, Eq, Structural, Hash)]
pub enum Handle {
    Id(u32),
    Handle(u32),
}

/// A vertex attribute that a program takes.
#[derive(Clone, Copy, Debug, PartialEq, Eq, Structural)]
pub struct Attribute {
    /// The attribute's location, `-1` when the shader compiler dropped it.
    pub location: i32,
    /// The attribute's type.
    pub ty: AttributeType,
    /// The number of array elements, `1` when the attribute is not an array.
    pub size: usize,
}

/// A linked program, as the vertex attribute system sees it.
pub struct Program {
    pub id: Handle,
    /// The program's vertex attributes, by name.
    pub attributes: Vec<(String, Attribute)>,
}

/// The attribute that a program names `name`: the first one of that name, if any.
pub open spec fn lookup_attribute(attributes: Seq<(String, Attribute)>, name: Seq<char>) -> Option<
    Attribute,
>
    decreases attributes.len(),
{
    if attributes.len() == 0 {
        None
    } else if attributes[0].0@ == name {
        Some(attributes[0].1)
    } else {
        lookup_attribute(attributes.drop_first(), name)
    }
}

impl Program {
    /// Returns the handle of the program.
    pub fn get_id(&self) -> (id: Handle)
        ensures
            id == self.id,
    {
        self.id
    }

    /// Returns the attribute of the given name, if the program has one.
    pub fn get_attribute(&self, name: &String) -> (attribute: Option<Attribute>)
        ensures
            attribute == lookup_attribute(self.attributes@, name@),
    {
        let mut i: usize = 0;
        assert(self.attributes@.subrange(0, self.attributes@.len() as int) =~= self.attributes@);
        while i < self.attributes.len()
            invariant
                i <= self.attributes@.len(),
                lookup_attribute(self.attributes@, name@) == lookup_attribute(
                    self.attributes@.subrange(i as int, self.attributes@.len() as int),
                    name@,
                ),
            decreases self.attributes@.len() - i,
        {
            let ghost rest = self.attributes@.subrange(i as int, self.attributes@.len() as int);
            if self.attributes[i].0 == *name {
                return Some(self.attributes[i].1);
            }
            assert(rest.drop_first() =~= self.attributes@.subrange(
                i + 1,
                self.attributes@.len() as int,
            ));
            i = i + 1;
        }
        None
    }
}

} // verus!
