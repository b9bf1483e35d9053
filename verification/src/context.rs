//! What the vertex attribute system knows of an OpenGL context: its version, the extensions
//! it offers, the bindings it currently holds, the VAO cache, and the log of the commands
//! that the system decided to issue.

use vstd::prelude::*;
use crate::vertex_array_object::{VaoEntry, VertexAttributesSystem};

verus! {

/// The flavour of OpenGL that a context implements.
#[derive(Clone, Copy, Debug, PartialEq, Eq, Structural)]
pub enum Api {
    Gl,
    GlEs,
}

/// The version of a context: its API, major and minor version numbers.
#[derive(Clone, Copy, Debug, PartialEq, Eq, Structural)]
pub struct Version(pub Api, pub u8, pub u8);

/// The version is of the API `api` and at least `major.minor`; versions of different APIs
/// are not comparable.
pub open spec fn version_at_least(version: Version, api: Api, major: u8, minor: u8) -> bool {
    &&& version.0 == api
    &&& (version.1 > major || (version.1 == major && version.2 >= minor))
}

impl Version {
    /// Tells whether this version is of the API `api` and at least `major.minor`.
    pub fn at_least(&self, api: Api, major: u8, minor: u8) -> (r: bool)
        ensures
            r == version_at_least(*self, api, major, minor),
    {
        self.0 == api && (self.1 > major || (self.1 == major && self.2 >= minor))
    }
}

/// The extensions of a context that the vertex attribute system looks at.
#[derive(Clone, Copy, Debug, PartialEq, Eq, Structural)]
pub struct ExtensionsList {
    pub gl_arb_vertex_array_object: bool,
    pub gl_oes_vertex_array_object: bool,
    pub gl_apple_vertex_array_object: bool,
    pub gl_arb_vertex_buffer_object: bool,
}

/// The bindings of a context that the vertex attribute system reads and updates.
#[derive(Clone, Copy, Debug, PartialEq, Eq, Structural)]
pub struct GlState {
    /// The vertex array object currently bound, `0` for none.
    pub vertex_array: u32,
    /// The buffer currently bound to `ARRAY_BUFFER`, `0` for none.
    pub array_buffer_binding: u32,
}

/// The family of entry points through which vertex array objects are handled.
#[derive(Clone, Copy, Debug, PartialEq, Eq, Structural)]
pub enum VaoFns {
    /// `glGenVertexArrays`, `glBindVertexArray`, `glDeleteVertexArrays`.
    Core,
    /// The `GL_OES_vertex_array_object` entry points.
    Oes,
    /// The `GL_APPLE_vertex_array_object` entry points.
    Apple,
}

/// The family of entry points through which buffers are bound.
#[derive(Clone, Copy, Debug, PartialEq, Eq, Structural)]
pub enum BufferFns {
    /// `glBindBuffer`.
    Core,
    /// `glBindBufferARB`.
    Arb,
}

/// The entry point that describes where a vertex attribute is read from.
#[derive(Clone, Copy, Debug, PartialEq, Eq, Structural)]
pub enum AttribPointerKind {
    /// `glVertexAttribIPointer`: the shader reads integers.
    Integer,
    /// `glVertexAttribLPointer`: the shader reads doubles.
    Double,
    /// `glVertexAttribPointer`, not normalized: the shader reads floats.
    Float,
}

/// One OpenGL command that the vertex attribute system decided to issue.
#[derive(Clone, Copy, Debug, PartialEq, Eq, Structural)]
pub enum GlCommand {
    /// Binds the vertex array object of the given name (`0` unbinds).
    BindVertexArray(VaoFns, u32),
    /// Deletes the vertex array object of the given name.
    DeleteVertexArray(VaoFns, u32),
    /// Binds the buffer (third field) to the target (second field).
    BindBuffer(BufferFns, u32, u32),
    /// Describes a vertex attribute: its location, component count, component type,
    /// stride, and the byte offset of its first element in the array buffer.
    VertexAttribPointer {
        kind: AttribPointerKind,
        index: u32,
        size: i32,
        data_type: u32,
        stride: i32,
        offset: usize,
    },
    /// Sets the instancing divisor of the attribute at the given location.
    VertexAttribDivisor(u32, u32),
    /// Enables the attribute at the given location.
    EnableVertexAttribArray(u32),
}

/// A context, as far as the vertex attribute system is concerned.
pub struct CommandContext {
    pub version: Version,
    pub extensions: ExtensionsList,
    pub state: GlState,
    pub vertex_array_objects: VertexAttributesSystem,
    /// The commands decided so far, oldest first, for the caller to execute.
    pub commands: Vec<GlCommand>,
}

/// The mathematical value of a context.
pub struct ContextView {
    pub version: Version,
    pub extensions: ExtensionsList,
    pub state: GlState,
    pub vaos: Seq<VaoEntry>,
    pub commands: Seq<GlCommand>,
}

impl View for CommandContext {
    type V = ContextView;

    open spec fn view(&self) -> ContextView {
        ContextView {
            version: self.version,
            extensions: self.extensions,
            state: self.state,
            vaos: self.vertex_array_objects@,
            commands: self.commands@,
        }
    }
}

/// The entry points for vertex array objects that a context offers, if any.
pub open spec fn vao_fns(version: Version, extensions: ExtensionsList) -> Option<VaoFns> {
    if version_at_least(version, Api::Gl, 3, 0) || version_at_least(version, Api::GlEs, 3, 0)
        || extensions.gl_arb_vertex_array_object {
        Some(VaoFns::Core)
    } else if extensions.gl_oes_vertex_array_object {
        Some(VaoFns::Oes)
    } else if extensions.gl_apple_vertex_array_object {
        Some(VaoFns::Apple)
    } else {
        None
    }
}

/// The entry point for binding buffers that a context offers, if any.
pub open spec fn buffer_fns(version: Version, extensions: ExtensionsList) -> Option<BufferFns> {
    if version_at_least(version, Api::Gl, 1, 5) || version_at_least(version, Api::GlEs, 2, 0) {
        Some(BufferFns::Core)
    } else if extensions.gl_arb_vertex_buffer_object {
        Some(BufferFns::Arb)
    } else {
        None
    }
}

impl ContextView {
    pub open spec fn vao_fns(self) -> Option<VaoFns> {
        vao_fns(self.version, self.extensions)
    }

    pub open spec fn buffer_fns(self) -> Option<BufferFns> {
        buffer_fns(self.version, self.extensions)
    }

    pub open spec fn with_state(self, state: GlState) -> ContextView {
        ContextView { state, ..self }
    }

    pub open spec fn with_vaos(self, vaos: Seq<VaoEntry>) -> ContextView {
        ContextView { vaos, ..self }
    }

    pub open spec fn issue(self, command: GlCommand) -> ContextView {
        ContextView { commands: self.commands.push(command), ..self }
    }
}

impl CommandContext {
    /// Builds the model of a fresh context: nothing bound, an empty VAO cache and no command.
    pub fn new(version: Version, extensions: ExtensionsList) -> (ctxt: CommandContext)
        ensures
            ctxt.version == version,
            ctxt.extensions == extensions,
            ctxt.state == (GlState { vertex_array: 0, array_buffer_binding: 0 }),
            ctxt@.vaos == Seq::<VaoEntry>::empty(),
            ctxt@.commands == Seq::<GlCommand>::empty(),
            ctxt.vertex_array_objects.wf(),
    {
        CommandContext {
            version,
            extensions,
            state: GlState { vertex_array: 0, array_buffer_binding: 0 },
            vertex_array_objects: VertexAttributesSystem::new(),
            commands: Vec::new(),
        }
    }

    /// Returns the entry points for vertex array objects that the context offers, if any.
    pub fn get_vao_fns(&self) -> (fns: Option<VaoFns>)
        ensures
            fns == vao_fns(self.version, self.extensions),
    {
        if self.version.at_least(Api::Gl, 3, 0) || self.version.at_least(Api::GlEs, 3, 0)
            || self.extensions.gl_arb_vertex_array_object {
            Some(VaoFns::Core)
        } else if self.extensions.gl_oes_vertex_array_object {
            Some(VaoFns::Oes)
        } else if self.extensions.gl_apple_vertex_array_object {
            Some(VaoFns::Apple)
        } else {
            None
        }
    }

    /// Returns the entry point for binding buffers that the context offers, if any.
    pub fn get_buffer_fns(&self) -> (fns: Option<BufferFns>)
        ensures
            fns == buffer_fns(self.version, self.extensions),
    {
        if self.version.at_least(Api::Gl, 1, 5) || self.version.at_least(Api::GlEs, 2, 0) {
            Some(BufferFns::Core)
        } else if self.extensions.gl_arb_vertex_buffer_object {
            Some(BufferFns::Arb)
        } else {
            None
        }
    }
}

} // verus!
