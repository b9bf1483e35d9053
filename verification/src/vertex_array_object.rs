//! The cache of vertex array objects, and the binding of vertex sources for a draw call.

use vstd::prelude::*;
use crate::context::{
    AttribPointerKind, BufferFns, CommandContext, ContextView, GlCommand, GlState, VaoFns,
};
use crate::glenum;
use crate::laws::{lemma_mark_keeps_wf, lemma_purge, lemma_push_keeps_wf};
use crate::program::{Handle, Program};
use crate::program::{lookup_attribute, Attribute};
use crate::vertex::{clone_format, num_components, AttributeType, VertexBinding, VertexFormat};

verus! {

/// Stores informations about how to bind a vertex buffer, an index buffer and a program.
#[derive(Clone, Copy, Debug, PartialEq, Eq, Structural)]
pub struct VertexArrayObject {
    pub id: u32,
    pub element_array_buffer: u32,
    /// Set when the element array buffer binding of this VAO was changed behind the cache's
    /// back, so that it has to be bound again the next time the VAO is used.
    pub element_array_buffer_hijacked: bool,
}

/// One entry of the VAO cache: the vertex buffers, with their formats, offsets, strides and
/// divisors; the program the VAO was built for; and the VAO, which holds the index buffer.
/// These three make the entry's key, whose vertex buffers count as a multiset: the order in
/// which they were added does not matter.
pub struct CachedVao {
    pub buffers: Vec<VertexBuffer>,
    pub program: Handle,
    pub vao: VertexArrayObject,
}

/// The value of one attribute of a vertex format: name, offset, type.
pub type BindingView = (Seq<char>, usize, AttributeType);

/// The value of a vertex buffer to bind: name, format, offset, stride, divisor.
pub type BufferView = (u32, Seq<BindingView>, usize, usize, Option<u32>);

/// The value of a vertex format.
pub open spec fn format_view(format: Seq<VertexBinding>) -> Seq<BindingView> {
    format.map_values(|b: VertexBinding| (b.0@, b.1, b.2))
}

/// The value of a vertex buffer to bind.
pub open spec fn buffer_view(b: VertexBuffer) -> BufferView {
    (b.0, format_view(b.1@), b.2, b.3, b.4)
}

/// The values of vertex buffers to bind, in order.
pub open spec fn buffers_view(buffers: Seq<VertexBuffer>) -> Seq<BufferView> {
    buffers.map_values(|b: VertexBuffer| buffer_view(b))
}

/// The mathematical value of a cache entry.
pub struct VaoEntry {
    pub buffers: Seq<BufferView>,
    pub program: Handle,
    pub vao: VertexArrayObject,
}

impl View for CachedVao {
    type V = VaoEntry;

    open spec fn view(&self) -> VaoEntry {
        VaoEntry { buffers: buffers_view(self.buffers@), program: self.program, vao: self.vao }
    }
}

/// The name `id` is not that of a cached VAO, nor `0`.
pub open spec fn fresh_name(vaos: Seq<VaoEntry>, id: u32) -> bool {
    &&& id != 0
    &&& forall|i: int| 0 <= i < vaos.len() ==> #[trigger] vaos[i].vao.id != id
}

/// Stores and handles vertex attributes: the cache of the VAOs built so far, one for each
/// combination of vertex buffers, index buffer and program.
pub struct VertexAttributesSystem {
    vaos: Vec<CachedVao>,
}

impl View for VertexAttributesSystem {
    type V = Seq<VaoEntry>;

    closed spec fn view(&self) -> Seq<VaoEntry> {
        self.vaos@.map_values(|e: CachedVao| e@)
    }
}

/// Two entries of the cache are for the same vertex buffers (in any order), index buffer and
/// program.
pub open spec fn same_key(a: VaoEntry, b: VaoEntry) -> bool {
    &&& a.buffers.to_multiset() == b.buffers.to_multiset()
    &&& a.vao.element_array_buffer == b.vao.element_array_buffer
    &&& a.program == b.program
}

/// The cache holds one entry at most for each key, and its VAOs have distinct, non-zero names.
pub open spec fn cache_wf(vaos: Seq<VaoEntry>) -> bool {
    &&& forall|i: int, j: int| 0 <= i < j < vaos.len() ==> !same_key(vaos[i], vaos[j])
    &&& forall|i: int, j: int|
        0 <= i < j < vaos.len() ==> #[trigger] vaos[i].vao.id != #[trigger] vaos[j].vao.id
    &&& forall|i: int| 0 <= i < vaos.len() ==> #[trigger] vaos[i].vao.id != 0
}

impl VertexAttributesSystem {
    /// The cache is always well formed.
    #[verifier::type_invariant]
    spec fn cache_is_wf(self) -> bool {
        cache_wf(self@)
    }

    pub open spec fn wf(&self) -> bool {
        cache_wf(self@)
    }

    /// Returns the entries of the cache, in order.
    pub fn entries(&self) -> (entries: &Vec<CachedVao>)
        ensures
            entries@.map_values(|e: CachedVao| e@) == self@,
            self.wf(),
    {
        proof {
            use_type_invariant(self);
        }
        &self.vaos
    }

    /// Replaces the entries of the cache by `vaos`.
    fn set_entries(&mut self, vaos: Vec<CachedVao>)
        requires
            cache_wf(vaos@.map_values(|e: CachedVao| e@)),
        ensures
            final(self)@ == vaos@.map_values(|e: CachedVao| e@),
    {
        self.vaos = vaos;
    }

    /// Takes the entries out of the cache, leaving it empty.
    fn take_entries(&mut self) -> (vaos: Vec<CachedVao>)
        ensures
            vaos@.map_values(|e: CachedVao| e@) == old(self)@,
            final(self)@ == Seq::<VaoEntry>::empty(),
            cache_wf(old(self)@),
    {
        proof {
            use_type_invariant(&*self);
        }
        let mut vaos: Vec<CachedVao> = Vec::new();
        std::mem::swap(&mut vaos, &mut self.vaos);
        assert(self@ =~= Seq::<VaoEntry>::empty());
        vaos
    }

    /// Builds a new `VertexAttributesSystem`.
    pub fn new() -> (system: VertexAttributesSystem)
        ensures
            system@ == Seq::<VaoEntry>::empty(),
            system.wf(),
    {
        let system = VertexAttributesSystem { vaos: Vec::new() };
        assert(system@ =~= Seq::<VaoEntry>::empty());
        system
    }
}

/// The context after `bind_vao(id)`.
pub open spec fn bind_vao_spec(c: ContextView, id: u32) -> ContextView {
    if c.state.vertex_array != id {
        c.issue(GlCommand::BindVertexArray(c.vao_fns().unwrap(), id)).with_state(
            GlState { vertex_array: id, ..c.state },
        )
    } else {
        c
    }
}

/// The context after the index buffer `ib` was bound to `ELEMENT_ARRAY_BUFFER`.
pub open spec fn bind_element_array_buffer_spec(c: ContextView, ib: u32) -> ContextView {
    c.issue(GlCommand::BindBuffer(c.buffer_fns().unwrap(), glenum::ELEMENT_ARRAY_BUFFER, ib))
}

/// The context after `vao` was destroyed.
pub open spec fn destroy_spec(c: ContextView, vao: VertexArrayObject) -> ContextView {
    let unbound = if c.state.vertex_array == vao.id {
        let b = bind_vao_spec(c, 0);
        b.with_state(GlState { vertex_array: 0, ..b.state })
    } else {
        c
    };
    unbound.issue(GlCommand::DeleteVertexArray(c.vao_fns().unwrap(), vao.id))
}

/// The context after the entries `entries` were handed, in order, to a purge that removes
/// those that `doomed` holds of: these are destroyed, the others are appended to the cache.
pub open spec fn purge_steps(
    c: ContextView,
    entries: Seq<VaoEntry>,
    doomed: spec_fn(VaoEntry) -> bool,
) -> ContextView
    decreases entries.len(),
{
    if entries.len() == 0 {
        c
    } else {
        let before = purge_steps(c, entries.drop_last(), doomed);
        let e = entries.last();
        if doomed(e) {
            destroy_spec(before, e.vao)
        } else {
            before.with_vaos(before.vaos.push(e))
        }
    }
}

/// The context after the cache entries that `doomed` holds of were removed and destroyed.
pub open spec fn purge_spec(c: ContextView, doomed: spec_fn(VaoEntry) -> bool) -> ContextView {
    purge_steps(c.with_vaos(Seq::empty()), c.vaos, doomed)
}

/// A purge does not panic: it destroys a VAO only where the context has VAO entry points.
pub open spec fn can_purge(c: ContextView, doomed: spec_fn(VaoEntry) -> bool) -> bool {
    (exists|i: int| 0 <= i < c.vaos.len() && doomed(#[trigger] c.vaos[i])) ==> c.vao_fns() is Some
}

/// The entry's key holds the buffer `id`, as a vertex buffer or as the index buffer.
pub open spec fn uses_buffer(e: VaoEntry, id: u32) -> bool {
    ||| e.vao.element_array_buffer == id
    ||| exists|k: int| 0 <= k < e.buffers.len() && (#[trigger] e.buffers[k]).0 == id
}

/// The first cache entry whose VAO has the name `id`, if any.
pub open spec fn first_with_id(vaos: Seq<VaoEntry>, id: u32) -> int {
    choose|i: int|
        0 <= i < vaos.len() && vaos[i].vao.id == id && forall|j: int|
            0 <= j < i ==> #[trigger] vaos[j].vao.id != id
}

/// The entry with its VAO's hijack note set to `hijacked`.
pub open spec fn with_hijack_note(e: VaoEntry, hijacked: bool) -> VaoEntry {
    VaoEntry { vao: VertexArrayObject { element_array_buffer_hijacked: hijacked, ..e.vao }, ..e }
}

/// The context after the hijack of the element array buffer of the current VAO was noted.
pub open spec fn hijack_spec(c: ContextView) -> ContextView {
    if exists|i: int| 0 <= i < c.vaos.len() && #[trigger] c.vaos[i].vao.id == c.state.vertex_array {
        let i = first_with_id(c.vaos, c.state.vertex_array);
        let e = c.vaos[i];
        c.with_vaos(
            c.vaos.update(
                i,
                with_hijack_note(e, true),
            ),
        )
    } else {
        c
    }
}

/// Binds the vertex array object as the current one. Unbinds if `0` is passed. The context
/// must offer VAO entry points.
fn bind_vao(ctxt: &mut CommandContext, vao_id: u32)
    requires
        old(ctxt)@.vao_fns() is Some,
    ensures
        final(ctxt)@ == bind_vao_spec(old(ctxt)@, vao_id),
        final(ctxt).vertex_array_objects == old(ctxt).vertex_array_objects,
{
    if ctxt.state.vertex_array != vao_id {
        if let Some(fns) = ctxt.get_vao_fns() {
            ctxt.commands.push(GlCommand::BindVertexArray(fns, vao_id));
        }
        ctxt.state.vertex_array = vao_id;
    }
}

/// Binds the index buffer `ib` to `ELEMENT_ARRAY_BUFFER`.
fn bind_element_array_buffer(ctxt: &mut CommandContext, ib: u32)
    requires
        old(ctxt)@.buffer_fns() is Some,
    ensures
        final(ctxt)@ == bind_element_array_buffer_spec(old(ctxt)@, ib),
        final(ctxt).vertex_array_objects == old(ctxt).vertex_array_objects,
{
    if let Some(fns) = ctxt.get_buffer_fns() {
        ctxt.commands.push(GlCommand::BindBuffer(fns, glenum::ELEMENT_ARRAY_BUFFER, ib));
    }
}

impl VertexArrayObject {
    /// Returns the name of the VAO.
    pub fn get_id(&self) -> (id: u32)
        ensures
            id == self.id,
    {
        self.id
    }

    /// Destroys the VAO: unbinds it if it is the current one, then deletes it.
    pub fn destroy(self, ctxt: &mut CommandContext)
        requires
            old(ctxt)@.vao_fns() is Some,
        ensures
            final(ctxt)@ == destroy_spec(old(ctxt)@, self),
            final(ctxt).vertex_array_objects == old(ctxt).vertex_array_objects,
    {
        if ctxt.state.vertex_array == self.id {
            bind_vao(ctxt, 0);
            ctxt.state.vertex_array = 0;
        }
        if let Some(fns) = ctxt.get_vao_fns() {
            ctxt.commands.push(GlCommand::DeleteVertexArray(fns, self.id));
        }
    }
}

impl VertexAttributesSystem {
    /// Purges the VAOs whose entry meets `condition`: removes them from the cache, in the
    /// cache's order, and destroys them; the other entries stay, in their order.
    fn purge_if(ctxt: &mut CommandContext, condition: PurgeCondition)
        requires
            can_purge(old(ctxt)@, condition.doomed()),
        ensures
            final(ctxt)@ == purge_spec(old(ctxt)@, condition.doomed()),
            final(ctxt).vertex_array_objects.wf(),
    {
        let ghost doomed = condition.doomed();
        let ghost start = old(ctxt)@.with_vaos(Seq::empty());
        let ghost orig = old(ctxt)@.vaos;
        let mut vaos = ctxt.vertex_array_objects.take_entries();
        let ghost orig_vec = vaos@;
        assert(ctxt@ =~= start);
        let mut kept: Vec<CachedVao> = Vec::new();
        assert(kept@.map_values(|e: CachedVao| e@) =~= Seq::<VaoEntry>::empty());
        assert(ctxt@.with_vaos(Seq::<VaoEntry>::empty()) == start);
        let n = vaos.len();
        let mut i: usize = 0;
        while i < n
            invariant
                0 <= i <= n,
                n == orig.len(),
                orig == old(ctxt)@.vaos,
                doomed == condition.doomed(),
                orig_vec.map_values(|e: CachedVao| e@) == orig,
                vaos@ == orig_vec.subrange(i as int, n as int),
                ctxt.version == old(ctxt).version,
                ctxt.extensions == old(ctxt).extensions,
                ctxt@.vaos == Seq::<VaoEntry>::empty(),
                ctxt@.with_vaos(kept@.map_values(|e: CachedVao| e@)) == purge_steps(
                    start,
                    orig.take(i as int),
                    doomed,
                ),
                can_purge(old(ctxt)@, doomed),
            decreases n - i,
        {
            let e = vaos.remove(0);
            assert(e@ == orig[i as int]);
            assert(orig.take(i + 1).drop_last() =~= orig.take(i as int));
            let ghost before = kept@.map_values(|e: CachedVao| e@);
            if condition.holds_for(&e) {
                assert(doomed(orig[i as int]));
                e.vao.destroy(ctxt);
                assert(kept@.map_values(|e: CachedVao| e@) =~= before);
            } else {
                kept.push(e);
                assert(kept@.map_values(|e: CachedVao| e@) =~= before.push(orig[i as int]));
            }
            assert(vaos@ =~= orig_vec.subrange(i + 1, n as int));
            i = i + 1;
        }
        assert(orig.take(n as int) =~= orig);
        proof {
            lemma_purge(old(ctxt)@, doomed);
        }
        ctxt.vertex_array_objects.set_entries(kept);
        assert(ctxt@ =~= purge_spec(old(ctxt)@, doomed));
    }

    /// This function *must* be called whenever you destroy a buffer so that the system can
    /// purge its VAOs cache.
    pub fn purge_buffer(ctxt: &mut CommandContext, id: u32)
        requires
            can_purge(old(ctxt)@, |e: VaoEntry| uses_buffer(e, id)),
        ensures
            final(ctxt)@ == purge_spec(old(ctxt)@, |e: VaoEntry| uses_buffer(e, id)),
            final(ctxt).vertex_array_objects.wf(),
    {
        let condition = PurgeCondition::Buffer(id);
        assert(condition.doomed() == |e: VaoEntry| uses_buffer(e, id));
        VertexAttributesSystem::purge_if(ctxt, condition)
    }

    /// This function *must* be called whenever you destroy a program so that the system can
    /// purge its VAOs cache.
    pub fn purge_program(ctxt: &mut CommandContext, program: Handle)
        requires
            can_purge(old(ctxt)@, |e: VaoEntry| e.program == program),
        ensures
            final(ctxt)@ == purge_spec(old(ctxt)@, |e: VaoEntry| e.program == program),
            final(ctxt).vertex_array_objects.wf(),
    {
        let condition = PurgeCondition::Program(program);
        assert(condition.doomed() == |e: VaoEntry| e.program == program);
        VertexAttributesSystem::purge_if(ctxt, condition)
    }

    /// Purges the VAOs cache.
    pub fn purge_all(ctxt: &mut CommandContext)
        requires
            can_purge(old(ctxt)@, |e: VaoEntry| true),
        ensures
            final(ctxt)@ == purge_spec(old(ctxt)@, |e: VaoEntry| true),
            final(ctxt).vertex_array_objects.wf(),
    {
        let condition = PurgeCondition::All;
        assert(condition.doomed() == |e: VaoEntry| true);
        VertexAttributesSystem::purge_if(ctxt, condition)
    }

    /// Purges the VAOs cache. Contrary to `purge_all`, this function expects the system to be
    /// destroyed soon.
    pub fn cleanup(ctxt: &mut CommandContext)
        requires
            can_purge(old(ctxt)@, |e: VaoEntry| true),
        ensures
            final(ctxt)@ == purge_spec(old(ctxt)@, |e: VaoEntry| true),
            final(ctxt).vertex_array_objects.wf(),
    {
        let condition = PurgeCondition::All;
        assert(condition.doomed() == |e: VaoEntry| true);
        VertexAttributesSystem::purge_if(ctxt, condition)
    }

    /// Tells the VAOs system that the currently binded element array buffer will change.
    pub fn hijack_current_element_array_buffer(ctxt: &mut CommandContext)
        ensures
            final(ctxt)@ == hijack_spec(old(ctxt)@),
            final(ctxt).vertex_array_objects.wf(),
    {
        proof {
            use_type_invariant(&ctxt.vertex_array_objects);
        }
        let current = ctxt.state.vertex_array;
        let mut i: usize = 0;
        while i < ctxt.vertex_array_objects.vaos.len()
            invariant
                ctxt@ == old(ctxt)@,
                current == ctxt.state.vertex_array,
                i <= ctxt@.vaos.len(),
                forall|j: int| 0 <= j < i ==> #[trigger] ctxt@.vaos[j].vao.id != current,
            decreases ctxt@.vaos.len() - i,
        {
            if ctxt.vertex_array_objects.vaos[i].vao.id == current {
                let ghost c = ctxt@;
                assert(c.vaos[i as int].vao.id == current);
                let ghost k = first_with_id(c.vaos, current);
                assert(0 <= k < c.vaos.len() && c.vaos[k].vao.id == current && forall|j: int|
                    0 <= j < k ==> #[trigger] c.vaos[j].vao.id != current);
                assert(k == i) by {
                    if k < i {
                    } else if i < k {
                        assert(c.vaos[i as int].vao.id != current);
                    }
                }
                let mut vao = ctxt.vertex_array_objects.vaos[i].vao;
                vao.element_array_buffer_hijacked = true;
                ctxt.vertex_array_objects.set_vao(i, vao);
                assert(ctxt@.vaos =~= hijack_spec(c).vaos);
                proof {
                    use_type_invariant(&ctxt.vertex_array_objects);
                }
                return;
            }
            i = i + 1;
        }
        assert(ctxt@ == hijack_spec(old(ctxt)@));
        proof {
            use_type_invariant(&ctxt.vertex_array_objects);
        }
    }
}

/// Which entries a purge removes.
pub enum PurgeCondition {
    /// Those whose key holds the buffer.
    Buffer(u32),
    /// Those built for the program.
    Program(Handle),
    /// All of them.
    All,
}

impl PurgeCondition {
    /// The entries that the purge removes.
    pub open spec fn doomed(self) -> spec_fn(VaoEntry) -> bool {
        match self {
            PurgeCondition::Buffer(id) => |e: VaoEntry| uses_buffer(e, id),
            PurgeCondition::Program(program) => |e: VaoEntry| e.program == program,
            PurgeCondition::All => |e: VaoEntry| true,
        }
    }

    /// Tells whether the purge removes some entry of the context's cache: only then does it
    /// need VAO entry points.
    pub fn dooms_any(&self, ctxt: &CommandContext) -> (r: bool)
        ensures
            r == exists|i: int|
                0 <= i < ctxt@.vaos.len() && (self.doomed())(#[trigger] ctxt@.vaos[i]),
    {
        let entries = ctxt.vertex_array_objects.entries();
        let mut i: usize = 0;
        while i < entries.len()
            invariant
                entries@.map_values(|e: CachedVao| e@) == ctxt@.vaos,
                i <= entries@.len(),
                forall|j: int| 0 <= j < i ==> !(self.doomed())(#[trigger] ctxt@.vaos[j]),
            decreases entries@.len() - i,
        {
            if self.holds_for(&entries[i]) {
                assert((self.doomed())(ctxt@.vaos[i as int]));
                return true;
            }
            i = i + 1;
        }
        false
    }

    /// Tells whether the purge removes the entry `e`.
    fn holds_for(&self, e: &CachedVao) -> (r: bool)
        ensures
            r == (self.doomed())(e@),
    {
        match self {
            PurgeCondition::Buffer(id) => entry_uses_buffer(e, *id),
            PurgeCondition::Program(program) => e.program == *program,
            PurgeCondition::All => true,
        }
    }
}

/// Tells whether the key of the entry holds the buffer `id`.
fn entry_uses_buffer(e: &CachedVao, id: u32) -> (r: bool)
    ensures
        r == uses_buffer(e@, id),
{
    if e.vao.element_array_buffer == id {
        return true;
    }
    let mut k: usize = 0;
    while k < e.buffers.len()
        invariant
            k <= e.buffers@.len(),
            forall|j: int| 0 <= j < k ==> (#[trigger] e@.buffers[j]).0 != id,
        decreases e.buffers@.len() - k,
    {
        if e.buffers[k].0 == id {
            assert(e@.buffers[k as int].0 == id);
            return true;
        }
        k = k + 1;
    }
    false
}

/// The OpenGL type of the components of a value of type `ty`: the scalar type of a scalar or
/// a vector, the matrix type of a matrix.
pub open spec fn gl_data_type(ty: AttributeType) -> u32 {
    match ty {
        AttributeType::I8 | AttributeType::I8I8 | AttributeType::I8I8I8
        | AttributeType::I8I8I8I8 => glenum::BYTE,
        AttributeType::U8 | AttributeType::U8U8 | AttributeType::U8U8U8
        | AttributeType::U8U8U8U8 => glenum::UNSIGNED_BYTE,
        AttributeType::I16 | AttributeType::I16I16 | AttributeType::I16I16I16
        | AttributeType::I16I16I16I16 => glenum::SHORT,
        AttributeType::U16 | AttributeType::U16U16 | AttributeType::U16U16U16
        | AttributeType::U16U16U16U16 => glenum::UNSIGNED_SHORT,
        AttributeType::I32 | AttributeType::I32I32 | AttributeType::I32I32I32
        | AttributeType::I32I32I32I32 => glenum::INT,
        AttributeType::U32 | AttributeType::U32U32 | AttributeType::U32U32U32
        | AttributeType::U32U32U32U32 => glenum::UNSIGNED_INT,
        AttributeType::F32 | AttributeType::F32F32 | AttributeType::F32F32F32
        | AttributeType::F32F32F32F32 => glenum::FLOAT,
        AttributeType::F64 | AttributeType::F64F64 | AttributeType::F64F64F64
        | AttributeType::F64F64F64F64 => glenum::DOUBLE,
        AttributeType::F32x2x2 => glenum::FLOAT_MAT2,
        AttributeType::F32x2x3 => glenum::FLOAT_MAT2x3,
        AttributeType::F32x2x4 => glenum::FLOAT_MAT2x4,
        AttributeType::F32x3x2 => glenum::FLOAT_MAT3x2,
        AttributeType::F32x3x3 => glenum::FLOAT_MAT3,
        AttributeType::F32x3x4 => glenum::FLOAT_MAT3x4,
        AttributeType::F32x4x2 => glenum::FLOAT_MAT4x2,
        AttributeType::F32x4x3 => glenum::FLOAT_MAT4x3,
        AttributeType::F32x4x4 => glenum::FLOAT_MAT4,
        AttributeType::F64x2x2 => glenum::DOUBLE_MAT2,
        AttributeType::F64x2x3 => glenum::DOUBLE_MAT2x3,
        AttributeType::F64x2x4 => glenum::DOUBLE_MAT2x4,
        AttributeType::F64x3x2 => glenum::DOUBLE_MAT3x2,
        AttributeType::F64x3x3 => glenum::DOUBLE_MAT3,
        AttributeType::F64x3x4 => glenum::DOUBLE_MAT3x4,
        AttributeType::F64x4x2 => glenum::DOUBLE_MAT4x2,
        AttributeType::F64x4x3 => glenum::DOUBLE_MAT4x3,
        AttributeType::F64x4x4 => glenum::DOUBLE_MAT4,
    }
}

/// The type is a matrix type.
pub open spec fn is_matrix(ty: AttributeType) -> bool {
    match ty {
        AttributeType::F32x2x2 | AttributeType::F32x2x3 | AttributeType::F32x2x4
        | AttributeType::F32x3x2 | AttributeType::F32x3x3 | AttributeType::F32x3x4
        | AttributeType::F32x4x2 | AttributeType::F32x4x3 | AttributeType::F32x4x4
        | AttributeType::F64x2x2 | AttributeType::F64x2x3 | AttributeType::F64x2x4
        | AttributeType::F64x3x2 | AttributeType::F64x3x3 | AttributeType::F64x3x4
        | AttributeType::F64x4x2 | AttributeType::F64x4x3 | AttributeType::F64x4x4 => true,
        _ => false,
    }
}

/// The OpenGL type of a value of type `ty`, and the number of such values it is made of: the
/// number of components of a scalar or vector, `1` for a matrix.
pub open spec fn gl_type_of(ty: AttributeType) -> (u32, i32) {
    (gl_data_type(ty), if is_matrix(ty) { 1 } else { num_components(ty) as i32 })
}

/// Returns the OpenGL type of a value of type `ty` and the number of such values it is made of.
pub fn vertex_binding_type_to_gl(ty: AttributeType) -> (r: (u32, i32))
    ensures
        r == gl_type_of(ty),
{
    match ty {
        AttributeType::I8 => (glenum::BYTE, 1),
        AttributeType::I8I8 => (glenum::BYTE, 2),
        AttributeType::I8I8I8 => (glenum::BYTE, 3),
        AttributeType::I8I8I8I8 => (glenum::BYTE, 4),
        AttributeType::U8 => (glenum::UNSIGNED_BYTE, 1),
        AttributeType::U8U8 => (glenum::UNSIGNED_BYTE, 2),
        AttributeType::U8U8U8 => (glenum::UNSIGNED_BYTE, 3),
        AttributeType::U8U8U8U8 => (glenum::UNSIGNED_BYTE, 4),
        AttributeType::I16 => (glenum::SHORT, 1),
        AttributeType::I16I16 => (glenum::SHORT, 2),
        AttributeType::I16I16I16 => (glenum::SHORT, 3),
        AttributeType::I16I16I16I16 => (glenum::SHORT, 4),
        AttributeType::U16 => (glenum::UNSIGNED_SHORT, 1),
        AttributeType::U16U16 => (glenum::UNSIGNED_SHORT, 2),
        AttributeType::U16U16U16 => (glenum::UNSIGNED_SHORT, 3),
        AttributeType::U16U16U16U16 => (glenum::UNSIGNED_SHORT, 4),
        AttributeType::I32 => (glenum::INT, 1),
        AttributeType::I32I32 => (glenum::INT, 2),
        AttributeType::I32I32I32 => (glenum::INT, 3),
        AttributeType::I32I32I32I32 => (glenum::INT, 4),
        AttributeType::U32 => (glenum::UNSIGNED_INT, 1),
        AttributeType::U32U32 => (glenum::UNSIGNED_INT, 2),
        AttributeType::U32U32U32 => (glenum::UNSIGNED_INT, 3),
        AttributeType::U32U32U32U32 => (glenum::UNSIGNED_INT, 4),
        AttributeType::F32 => (glenum::FLOAT, 1),
        AttributeType::F32F32 => (glenum::FLOAT, 2),
        AttributeType::F32F32F32 => (glenum::FLOAT, 3),
        AttributeType::F32F32F32F32 => (glenum::FLOAT, 4),
        AttributeType::F64 => (glenum::DOUBLE, 1),
        AttributeType::F64F64 => (glenum::DOUBLE, 2),
        AttributeType::F64F64F64 => (glenum::DOUBLE, 3),
        AttributeType::F64F64F64F64 => (glenum::DOUBLE, 4),
        AttributeType::F32x2x2 => (glenum::FLOAT_MAT2, 1),
        AttributeType::F32x2x3 => (glenum::FLOAT_MAT2x3, 1),
        AttributeType::F32x2x4 => (glenum::FLOAT_MAT2x4, 1),
        AttributeType::F32x3x2 => (glenum::FLOAT_MAT3x2, 1),
        AttributeType::F32x3x3 => (glenum::FLOAT_MAT3, 1),
        AttributeType::F32x3x4 => (glenum::FLOAT_MAT3x4, 1),
        AttributeType::F32x4x2 => (glenum::FLOAT_MAT4x2, 1),
        AttributeType::F32x4x3 => (glenum::FLOAT_MAT4x3, 1),
        AttributeType::F32x4x4 => (glenum::FLOAT_MAT4, 1),
        AttributeType::F64x2x2 => (glenum::DOUBLE_MAT2, 1),
        AttributeType::F64x2x3 => (glenum::DOUBLE_MAT2x3, 1),
        AttributeType::F64x2x4 => (glenum::DOUBLE_MAT2x4, 1),
        AttributeType::F64x3x2 => (glenum::DOUBLE_MAT3x2, 1),
        AttributeType::F64x3x3 => (glenum::DOUBLE_MAT3, 1),
        AttributeType::F64x3x4 => (glenum::DOUBLE_MAT3x4, 1),
        AttributeType::F64x4x2 => (glenum::DOUBLE_MAT4x2, 1),
        AttributeType::F64x4x3 => (glenum::DOUBLE_MAT4x3, 1),
        AttributeType::F64x4x4 => (glenum::DOUBLE_MAT4, 1),
    }
}

/// The entry point through which an attribute is described to a program whose attribute has
/// the OpenGL type `attribute_ty`.
pub open spec fn pointer_kind(attribute_ty: u32) -> AttribPointerKind {
    if attribute_ty == glenum::BYTE || attribute_ty == glenum::UNSIGNED_BYTE || attribute_ty
        == glenum::SHORT || attribute_ty == glenum::UNSIGNED_SHORT || attribute_ty == glenum::INT
        || attribute_ty == glenum::UNSIGNED_INT {
        AttribPointerKind::Integer
    } else if attribute_ty == glenum::DOUBLE || attribute_ty == glenum::DOUBLE_VEC2
        || attribute_ty == glenum::DOUBLE_VEC3 || attribute_ty == glenum::DOUBLE_VEC4
        || attribute_ty == glenum::DOUBLE_MAT2 || attribute_ty == glenum::DOUBLE_MAT3
        || attribute_ty == glenum::DOUBLE_MAT4 || attribute_ty == glenum::DOUBLE_MAT2x3
        || attribute_ty == glenum::DOUBLE_MAT2x4 || attribute_ty == glenum::DOUBLE_MAT3x2
        || attribute_ty == glenum::DOUBLE_MAT3x4 || attribute_ty == glenum::DOUBLE_MAT4x2
        || attribute_ty == glenum::DOUBLE_MAT4x3 {
        AttribPointerKind::Double
    } else {
        AttribPointerKind::Float
    }
}

/// Returns the entry point through which an attribute of OpenGL type `attribute_ty` is
/// described.
fn attrib_pointer_kind(attribute_ty: u32) -> (kind: AttribPointerKind)
    ensures
        kind == pointer_kind(attribute_ty),
{
    if attribute_ty == glenum::BYTE || attribute_ty == glenum::UNSIGNED_BYTE || attribute_ty
        == glenum::SHORT || attribute_ty == glenum::UNSIGNED_SHORT || attribute_ty == glenum::INT
        || attribute_ty == glenum::UNSIGNED_INT {
        AttribPointerKind::Integer
    } else if attribute_ty == glenum::DOUBLE || attribute_ty == glenum::DOUBLE_VEC2
        || attribute_ty == glenum::DOUBLE_VEC3 || attribute_ty == glenum::DOUBLE_VEC4
        || attribute_ty == glenum::DOUBLE_MAT2 || attribute_ty == glenum::DOUBLE_MAT3
        || attribute_ty == glenum::DOUBLE_MAT4 || attribute_ty == glenum::DOUBLE_MAT2x3
        || attribute_ty == glenum::DOUBLE_MAT2x4 || attribute_ty == glenum::DOUBLE_MAT3x2
        || attribute_ty == glenum::DOUBLE_MAT3x4 || attribute_ty == glenum::DOUBLE_MAT4x2
        || attribute_ty == glenum::DOUBLE_MAT4x3 {
        AttribPointerKind::Double
    } else {
        AttribPointerKind::Float
    }
}

/// The program has an attribute of the binding's name at a location: the binding is
/// described to it.
pub open spec fn binding_used(program: Program, binding: VertexBinding) -> bool {
    match lookup_attribute(program.attributes@, binding.0@) {
        Some(a) => a.location != -1,
        None => false,
    }
}

/// The commands that describe the vertex attribute `binding` of a buffer whose data starts at
/// `buffer_offset` and whose vertices are `stride` bytes apart.
pub open spec fn binding_commands(
    program: Program,
    binding: VertexBinding,
    buffer_offset: usize,
    stride: usize,
    divisor: Option<u32>,
) -> Seq<GlCommand> {
    match lookup_attribute(program.attributes@, binding.0@) {
        Some(a) => if a.location == -1 {
            Seq::empty()
        } else {
            let index = a.location as u32;
            let pointer = GlCommand::VertexAttribPointer {
                kind: pointer_kind(gl_type_of(a.ty).0),
                index,
                size: gl_type_of(binding.2).1,
                data_type: gl_type_of(binding.2).0,
                stride: stride as i32,
                offset: (buffer_offset + binding.1) as usize,
            };
            let described = match divisor {
                Some(d) => seq![pointer, GlCommand::VertexAttribDivisor(index, d)],
                None => seq![pointer],
            };
            described.push(GlCommand::EnableVertexAttribArray(index))
        },
        None => Seq::empty(),
    }
}

/// The commands that describe the vertex attributes `bindings`, in order.
pub open spec fn bindings_commands(
    program: Program,
    bindings: Seq<VertexBinding>,
    buffer_offset: usize,
    stride: usize,
    divisor: Option<u32>,
) -> Seq<GlCommand>
    decreases bindings.len(),
{
    if bindings.len() == 0 {
        Seq::empty()
    } else {
        bindings_commands(program, bindings.drop_last(), buffer_offset, stride, divisor)
            + binding_commands(program, bindings.last(), buffer_offset, stride, divisor)
    }
}

/// The byte offset of each attribute that is described fits in a `usize`.
pub open spec fn offsets_fit(
    program: Program,
    bindings: Seq<VertexBinding>,
    buffer_offset: usize,
) -> bool {
    forall|j: int|
        0 <= j < bindings.len() && binding_used(program, #[trigger] bindings[j]) ==> buffer_offset
            + bindings[j].1 <= usize::MAX
}

/// The context after the attributes of a vertex buffer were bound to the current VAO.
pub open spec fn bind_attribute_spec(
    c: ContextView,
    program: Program,
    vertex_buffer: u32,
    bindings: Seq<VertexBinding>,
    buffer_offset: usize,
    stride: usize,
    divisor: Option<u32>,
) -> ContextView {
    let bound = if c.state.array_buffer_binding != vertex_buffer {
        c.issue(GlCommand::BindBuffer(c.buffer_fns().unwrap(), glenum::ARRAY_BUFFER, vertex_buffer)).with_state(
            GlState { array_buffer_binding: vertex_buffer, ..c.state },
        )
    } else {
        c
    };
    ContextView {
        commands: bound.commands + bindings_commands(program, bindings, buffer_offset, stride, divisor),
        ..bound
    }
}

/// Binds an individual attribute to the current VAO.
fn bind_attribute(
    ctxt: &mut CommandContext,
    program: &Program,
    vertex_buffer: u32,
    bindings: &VertexFormat,
    buffer_offset: usize,
    stride: usize,
    divisor: Option<u32>,
)
    requires
        old(ctxt).state.array_buffer_binding != vertex_buffer ==> old(ctxt)@.buffer_fns() is Some,
        offsets_fit(*program, bindings@, buffer_offset),
    ensures
        final(ctxt)@ == bind_attribute_spec(
            old(ctxt)@,
            *program,
            vertex_buffer,
            bindings@,
            buffer_offset,
            stride,
            divisor,
        ),
        final(ctxt).vertex_array_objects == old(ctxt).vertex_array_objects,
{
    // glVertexAttribPointer uses the current array buffer
    if ctxt.state.array_buffer_binding != vertex_buffer {
        if let Some(fns) = ctxt.get_buffer_fns() {
            ctxt.commands.push(GlCommand::BindBuffer(fns, glenum::ARRAY_BUFFER, vertex_buffer));
        }
        ctxt.state.array_buffer_binding = vertex_buffer;
    }
    let ghost bound = ctxt@;
    assert(bindings@.take(0) =~= Seq::<VertexBinding>::empty());
    let mut j: usize = 0;
    while j < bindings.len()
        invariant
            j <= bindings@.len(),
            offsets_fit(*program, bindings@, buffer_offset),
            ctxt.vertex_array_objects == old(ctxt).vertex_array_objects,
            ctxt@ == (ContextView {
                commands: bound.commands + bindings_commands(
                    *program,
                    bindings@.take(j as int),
                    buffer_offset,
                    stride,
                    divisor,
                ),
                ..bound
            }),
        decreases bindings@.len() - j,
    {
        let binding = &bindings[j];
        let ghost before = ctxt@.commands;
        assert(bindings@.take(j + 1).drop_last() =~= bindings@.take(j as int));
        let (data_type, elements_count) = vertex_binding_type_to_gl(binding.2);
        if let Some(attribute) = program.get_attribute(&binding.0) {
            let (attribute_ty, _) = vertex_binding_type_to_gl(attribute.ty);
            if attribute.location != -1 {
                assert(binding_used(*program, bindings@[j as int]));
                let index = #[verifier::truncate] (attribute.location as u32);
                let kind = attrib_pointer_kind(attribute_ty);
                ctxt.commands.push(
                    GlCommand::VertexAttribPointer {
                        kind,
                        index,
                        size: elements_count,
                        data_type,
                        stride: #[verifier::truncate] (stride as i32),
                        offset: buffer_offset + binding.1,
                    },
                );
                if let Some(divisor) = divisor {
                    ctxt.commands.push(GlCommand::VertexAttribDivisor(index, divisor));
                }
                ctxt.commands.push(GlCommand::EnableVertexAttribArray(index));
            }
        }
        assert(ctxt@.commands =~= before + binding_commands(
            *program,
            bindings@[j as int],
            buffer_offset,
            stride,
            divisor,
        ));
        assert(bindings@.take(j + 1).last() == bindings@[j as int]);
        assert(bound.commands + bindings_commands(
            *program,
            bindings@.take(j + 1),
            buffer_offset,
            stride,
            divisor,
        ) =~= before + binding_commands(
            *program,
            bindings@[j as int],
            buffer_offset,
            stride,
            divisor,
        ));
        j = j + 1;
    }
    assert(bindings@.take(bindings@.len() as int) =~= bindings@);
}

/// A vertex buffer to bind: its name, the format of its vertices, the byte offset of its first
/// vertex, the distance in bytes between two vertices, and its instancing divisor.
pub type VertexBuffer = (u32, VertexFormat, usize, usize, Option<u32>);

/// What the binder reads of a slice of a buffer: the buffer's name, the byte offset of the
/// slice in it, and the size of one element.
#[derive(Clone, Copy, Debug, PartialEq, Eq, Structural)]
pub struct BufferViewAnySlice {
    pub id: u32,
    pub offset_bytes: usize,
    pub elements_size: usize,
}

/// The context after the attributes of the vertex buffers `buffers` were bound, in order.
pub open spec fn attributes_spec(
    c: ContextView,
    program: Program,
    buffers: Seq<VertexBuffer>,
) -> ContextView
    decreases buffers.len(),
{
    if buffers.len() == 0 {
        c
    } else {
        let b = buffers.last();
        bind_attribute_spec(
            attributes_spec(c, program, buffers.drop_last()),
            program,
            b.0,
            b.1@,
            b.2,
            b.3,
            b.4,
        )
    }
}

/// Binding the attributes of `buffers`, in order, does not panic: a buffer is bound to
/// `ARRAY_BUFFER` only where the context has an entry point for it (without one, each buffer
/// must be the one bound already), and no offset overflows.
pub open spec fn can_bind_attributes(
    c: ContextView,
    program: Program,
    buffers: Seq<VertexBuffer>,
) -> bool {
    &&& c.buffer_fns() is None ==> forall|k: int|
        0 <= k < buffers.len() ==> (#[trigger] buffers[k]).0 == c.state.array_buffer_binding
    &&& forall|k: int|
        0 <= k < buffers.len() ==> offsets_fit(program, (#[trigger] buffers[k]).1@, buffers[k].2)
}

/// Binds the attributes of each vertex buffer, in order, to the current VAO.
fn bind_attributes(ctxt: &mut CommandContext, program: &Program, vertex_buffers: &Vec<VertexBuffer>)
    requires
        can_bind_attributes(old(ctxt)@, *program, vertex_buffers@),
    ensures
        final(ctxt)@ == attributes_spec(old(ctxt)@, *program, vertex_buffers@),
        final(ctxt).vertex_array_objects == old(ctxt).vertex_array_objects,
        final(ctxt).state.vertex_array == old(ctxt).state.vertex_array,
        final(ctxt).version == old(ctxt).version,
        final(ctxt).extensions == old(ctxt).extensions,
{
    let ghost start = ctxt@;
    assert(vertex_buffers@.take(0) =~= Seq::<VertexBuffer>::empty());
    let mut k: usize = 0;
    while k < vertex_buffers.len()
        invariant
            k <= vertex_buffers@.len(),
            can_bind_attributes(start, *program, vertex_buffers@),
            ctxt.version == start.version,
            ctxt.extensions == start.extensions,
            ctxt.vertex_array_objects == old(ctxt).vertex_array_objects,
            ctxt.state.vertex_array == start.state.vertex_array,
            start.buffer_fns() is None ==> ctxt.state.array_buffer_binding
                == start.state.array_buffer_binding,
            ctxt@ == attributes_spec(start, *program, vertex_buffers@.take(k as int)),
        decreases vertex_buffers@.len() - k,
    {
        let buffer = &vertex_buffers[k];
        assert(vertex_buffers@.take(k + 1).drop_last() =~= vertex_buffers@.take(k as int));
        assert(vertex_buffers@.take(k + 1).last() == vertex_buffers@[k as int]);
        assert(offsets_fit(*program, vertex_buffers@[k as int].1@, vertex_buffers@[k as int].2));
        bind_attribute(ctxt, program, buffer.0, &buffer.1, buffer.2, buffer.3, buffer.4);
        k = k + 1;
    }
    assert(vertex_buffers@.take(vertex_buffers@.len() as int) =~= vertex_buffers@);
}

/// A binding of the vertex format asks for an attribute of the program of another number of
/// components, or for an array attribute.
pub open spec fn binding_mismatch(program: Program, binding: VertexBinding) -> bool {
    match lookup_attribute(program.attributes@, binding.0@) {
        Some(a) => num_components(binding.2) != num_components(a.ty) || a.size != 1,
        None => false,
    }
}

/// No vertex buffer has an attribute of the name `name`.
pub open spec fn attribute_missing(buffers: Seq<VertexBuffer>, name: Seq<char>) -> bool {
    forall|i: int, j: int|
        0 <= i < buffers.len() && 0 <= j < buffers[i].1@.len() ==> (#[trigger] buffers[i].1@[j]).0@
            != name
}

/// The vertex buffers match the program: no binding mismatches the program's attribute of its
/// name, and each attribute of the program is in some vertex buffer.
pub open spec fn attributes_compatible(program: Program, buffers: Seq<VertexBuffer>) -> bool {
    &&& forall|i: int, j: int|
        0 <= i < buffers.len() && 0 <= j < buffers[i].1@.len() ==> !binding_mismatch(
            program,
            #[trigger] buffers[i].1@[j],
        )
    &&& forall|k: int|
        0 <= k < program.attributes@.len() ==> !attribute_missing(
            buffers,
            (#[trigger] program.attributes@[k]).0@,
        )
}

/// No binding that comes before the binding `binding` of the vertex buffer `buffer` (the
/// buffers in order, and in each buffer its bindings in order) mismatches the program.
pub open spec fn no_mismatch_before(
    program: Program,
    buffers: Seq<VertexBuffer>,
    buffer: int,
    binding: int,
) -> bool {
    forall|a: int, b: int|
        0 <= a < buffers.len() && 0 <= b < buffers[a].1@.len() && (a < buffer || (a == buffer && b
            < binding)) ==> !binding_mismatch(program, #[trigger] buffers[a].1@[b])
}

/// The offsets of the used bindings fit in every vertex buffer before the vertex buffer
/// `buffer`, and in that buffer for every binding before the binding `binding`.
pub open spec fn offsets_fit_before(
    program: Program,
    buffers: Seq<VertexBuffer>,
    buffer: int,
    binding: int,
) -> bool {
    &&& forall|a: int|
        0 <= a < buffer ==> offsets_fit(program, (#[trigger] buffers[a]).1@, buffers[a].2)
    &&& forall|b: int|
        0 <= b < binding && binding_used(program, #[trigger] buffers[buffer].1@[b])
            ==> buffers[buffer].2 + buffers[buffer].1@[b].1 <= usize::MAX
}

/// The context after a new VAO of name `id` was set up for the vertex buffers and index buffer.
pub open spec fn new_vao_spec(
    c: ContextView,
    program: Program,
    ib: u32,
    buffers: Seq<VertexBuffer>,
    id: u32,
) -> ContextView {
    attributes_spec(bind_element_array_buffer_spec(bind_vao_spec(c, id), ib), program, buffers)
}

/// The context after the VAO `vao` was made the current one.
pub open spec fn vao_bind_spec(c: ContextView, vao: VertexArrayObject) -> ContextView {
    let bound = bind_vao_spec(c, vao.id);
    if vao.element_array_buffer_hijacked {
        bind_element_array_buffer_spec(bound, vao.element_array_buffer)
    } else {
        bound
    }
}

impl VertexArrayObject {
    /// Builds a new `VertexArrayObject`, whose name `gen` hands out.
    ///
    /// The vertex buffer, index buffer and program must not outlive the
    /// VAO, and the VB & program attributes must not change.
    fn new<F: FnOnce(VaoFns) -> u32>(
        ctxt: &mut CommandContext,
        vertex_buffers: &Vec<VertexBuffer>,
        ib_id: u32,
        program: &Program,
        gen: F,
    ) -> (vao: VertexArrayObject)
        requires
            old(ctxt)@.vao_fns() is Some,
            old(ctxt)@.buffer_fns() is Some,
            gen.requires((old(ctxt)@.vao_fns().unwrap(),)),
            attributes_compatible(*program, vertex_buffers@),
            can_bind_attributes(old(ctxt)@, *program, vertex_buffers@),
        ensures
            gen.ensures((old(ctxt)@.vao_fns().unwrap(),), vao.id),
            vao == (VertexArrayObject {
                id: vao.id,
                element_array_buffer: ib_id,
                element_array_buffer_hijacked: false,
            }),
            final(ctxt)@ == new_vao_spec(old(ctxt)@, *program, ib_id, vertex_buffers@, vao.id),
            final(ctxt).vertex_array_objects == old(ctxt).vertex_array_objects,
            final(ctxt).state.vertex_array == vao.id,
            final(ctxt).version == old(ctxt).version,
            final(ctxt).extensions == old(ctxt).extensions,
    {
        // building the VAO
        let fns = match ctxt.get_vao_fns() {
            Some(fns) => fns,
            None => VaoFns::Core,
        };
        let id = gen(fns);

        // we don't use DSA as we're going to make multiple calls for this VAO
        // and we're likely going to use the VAO right after it's been created
        bind_vao(ctxt, id);

        // binding index buffer
        // the ELEMENT_ARRAY_BUFFER is part of the state of the VAO
        bind_element_array_buffer(ctxt, ib_id);

        bind_attributes(ctxt, program, vertex_buffers);

        VertexArrayObject { id, element_array_buffer: ib_id, element_array_buffer_hijacked: false }
    }

    /// Sets this VAO as the current VAO.
    fn bind(&mut self, ctxt: &mut CommandContext)
        requires
            old(ctxt)@.vao_fns() is Some,
            old(self).element_array_buffer_hijacked ==> old(ctxt)@.buffer_fns() is Some,
        ensures
            final(ctxt)@ == vao_bind_spec(old(ctxt)@, *old(self)),
            *final(self) == (VertexArrayObject {
                element_array_buffer_hijacked: false,
                ..*old(self)
            }),
            final(ctxt).vertex_array_objects == old(ctxt).vertex_array_objects,
    {
        bind_vao(ctxt, self.id);
        if self.element_array_buffer_hijacked {
            bind_element_array_buffer(ctxt, self.element_array_buffer);
            self.element_array_buffer_hijacked = false;
        }
    }
}

/// The entry is the one for the vertex buffers `key`, the index buffer `ib` and the program.
pub open spec fn is_entry(e: VaoEntry, key: Seq<BufferView>, ib: u32, program: Handle) -> bool {
    &&& e.buffers.to_multiset() == key.to_multiset()
    &&& e.vao.element_array_buffer == ib
    &&& e.program == program
}

/// The cache has an entry for the vertex buffers `key`, the index buffer `ib` and the program.
pub open spec fn has_entry(vaos: Seq<VaoEntry>, key: Seq<BufferView>, ib: u32, program: Handle) -> bool {
    exists|i: int| 0 <= i < vaos.len() && is_entry(#[trigger] vaos[i], key, ib, program)
}

/// The index of the first entry of the cache for the vertex buffers `key`, the index buffer
/// `ib` and the program.
pub open spec fn entry_for(vaos: Seq<VaoEntry>, key: Seq<BufferView>, ib: u32, program: Handle) -> int {
    choose|i: int|
        0 <= i < vaos.len() && is_entry(vaos[i], key, ib, program) && forall|j: int|
            0 <= j < i ==> !is_entry(#[trigger] vaos[j], key, ib, program)
}

/// Binding these vertex sources builds a new VAO: the context has VAOs and the cache has none
/// for them.
pub open spec fn needs_new_vao(
    c: ContextView,
    program: Program,
    ib: u32,
    buffers: Seq<VertexBuffer>,
) -> bool {
    c.vao_fns() is Some && !has_entry(c.vaos, buffers_view(buffers), ib, program.id)
}

/// The context after the vertex buffers `buffers`, the index buffer `ib` and the program were
/// bound; `new_id` is the name of the VAO that is built where one is needed.
pub open spec fn bind_spec(
    c: ContextView,
    program: Program,
    ib: u32,
    buffers: Seq<VertexBuffer>,
    new_id: u32,
) -> ContextView {
    if c.vao_fns() is Some {
        let key = buffers_view(buffers);
        if has_entry(c.vaos, key, ib, program.id) {
            let i = entry_for(c.vaos, key, ib, program.id);
            let e = c.vaos[i];
            let bound = vao_bind_spec(c, e.vao);
            bound.with_vaos(
                c.vaos.update(
                    i,
                    with_hijack_note(e, false),
                ),
            )
        } else {
            let vao = VertexArrayObject {
                id: new_id,
                element_array_buffer: ib,
                element_array_buffer_hijacked: false,
            };
            let bound = vao_bind_spec(new_vao_spec(c, program, ib, buffers, new_id), vao);
            bound.with_vaos(bound.vaos.push(VaoEntry { buffers: key, program: program.id, vao }))
        }
    } else {
        attributes_spec(bind_element_array_buffer_spec(c, ib), program, buffers)
    }
}

/// Binding the vertex sources does not panic.
pub open spec fn can_bind(
    c: ContextView,
    program: Program,
    ib: u32,
    buffers: Seq<VertexBuffer>,
) -> bool {
    if c.vao_fns() is Some {
        let key = buffers_view(buffers);
        if has_entry(c.vaos, key, ib, program.id) {
            c.vaos[entry_for(c.vaos, key, ib, program.id)].vao.element_array_buffer_hijacked
                ==> c.buffer_fns() is Some
        } else {
            &&& attributes_compatible(program, buffers)
            &&& c.buffer_fns() is Some
            &&& can_bind_attributes(c, program, buffers)
        }
    } else {
        &&& c.state.vertex_array == 0
        &&& c.buffer_fns() is Some
        &&& can_bind_attributes(c, program, buffers)
    }
}

/// Tells whether two vertex formats are equal.
fn same_format(a: &VertexFormat, b: &VertexFormat) -> (r: bool)
    ensures
        r == (format_view(a@) == format_view(b@)),
{
    if a.len() != b.len() {
        assert(format_view(a@).len() != format_view(b@).len());
        return false;
    }
    let mut i: usize = 0;
    while i < a.len()
        invariant
            a@.len() == b@.len(),
            i <= a@.len(),
            forall|j: int| 0 <= j < i ==> format_view(a@)[j] == format_view(b@)[j],
        decreases a@.len() - i,
    {
        if !(a[i].0 == b[i].0 && a[i].1 == b[i].1 && a[i].2 == b[i].2) {
            assert(format_view(a@)[i as int] != format_view(b@)[i as int]);
            return false;
        }
        i = i + 1;
    }
    assert(format_view(a@) =~= format_view(b@));
    true
}

/// Tells whether two vertex buffers to bind are equal.
fn same_buffer(x: &VertexBuffer, y: &VertexBuffer) -> (r: bool)
    ensures
        r == (buffer_view(*x) == buffer_view(*y)),
{
    let same_divisor = match (x.4, y.4) {
        (Some(d), Some(e)) => d == e,
        (None, None) => true,
        _ => false,
    };
    x.0 == y.0 && x.2 == y.2 && x.3 == y.3 && same_divisor && same_format(&x.1, &y.1)
}

/// Returns how many of the vertex buffers `buffers` are equal to `x`.
fn count_of(buffers: &Vec<VertexBuffer>, x: &VertexBuffer) -> (n: usize)
    ensures
        n == buffers_view(buffers@).to_multiset().count(buffer_view(*x)),
{
    broadcast use vstd::seq_lib::group_to_multiset_ensures;

    let mut n: usize = 0;
    let mut j: usize = 0;
    assert(buffers_view(buffers@.take(0)) =~= Seq::<BufferView>::empty());
    while j < buffers.len()
        invariant
            j <= buffers@.len(),
            n <= j,
            n == buffers_view(buffers@.take(j as int)).to_multiset().count(buffer_view(*x)),
        decreases buffers@.len() - j,
    {
        proof {
            broadcast use vstd::multiset::group_multiset_axioms;

            let prefix = buffers_view(buffers@.take(j as int));
            assert(buffers_view(buffers@.take(j + 1)) =~= prefix.push(
                buffer_view(buffers@[j as int]),
            ));
            vstd::seq_lib::to_multiset_build(prefix, buffer_view(buffers@[j as int]));
        }
        if same_buffer(&buffers[j], x) {
            n = n + 1;
        }
        j = j + 1;
    }
    assert(buffers@.take(buffers@.len() as int) =~= buffers@);
    n
}

/// Tells whether two lists of vertex buffers hold the same buffers, in any order.
fn same_buffers(a: &Vec<VertexBuffer>, b: &Vec<VertexBuffer>) -> (r: bool)
    ensures
        r == (buffers_view(a@).to_multiset() == buffers_view(b@).to_multiset()),
{
    broadcast use vstd::seq_lib::group_to_multiset_ensures;

    let ghost ma = buffers_view(a@).to_multiset();
    let ghost mb = buffers_view(b@).to_multiset();
    let mut i: usize = 0;
    while i < a.len()
        invariant
            i <= a@.len(),
            ma == buffers_view(a@).to_multiset(),
            mb == buffers_view(b@).to_multiset(),
            forall|k: int| 0 <= k < i ==> ma.count(buffer_view(#[trigger] a@[k])) == mb.count(
                buffer_view(a@[k]),
            ),
        decreases a@.len() - i,
    {
        if count_of(a, &a[i]) != count_of(b, &a[i]) {
            return false;
        }
        i = i + 1;
    }
    let mut j: usize = 0;
    while j < b.len()
        invariant
            j <= b@.len(),
            ma == buffers_view(a@).to_multiset(),
            mb == buffers_view(b@).to_multiset(),
            forall|k: int| 0 <= k < a@.len() ==> ma.count(buffer_view(#[trigger] a@[k])) == mb.count(
                buffer_view(a@[k]),
            ),
            forall|k: int| 0 <= k < j ==> ma.count(buffer_view(#[trigger] b@[k])) == mb.count(
                buffer_view(b@[k]),
            ),
        decreases b@.len() - j,
    {
        if count_of(a, &b[j]) != count_of(b, &b[j]) {
            return false;
        }
        j = j + 1;
    }
    assert(ma =~= mb) by {
        assert forall|v: BufferView| ma.count(v) == mb.count(v) by {
            if ma.count(v) > 0 {
                assert(buffers_view(a@).contains(v));
                let k = choose|k: int| 0 <= k < buffers_view(a@).len() && buffers_view(a@)[k] == v;
                assert(buffer_view(a@[k]) == v);
            } else if mb.count(v) > 0 {
                assert(buffers_view(b@).contains(v));
                let k = choose|k: int| 0 <= k < buffers_view(b@).len() && buffers_view(b@)[k] == v;
                assert(buffer_view(b@[k]) == v);
            }
        }
    }
    true
}

impl VertexAttributesSystem {
    /// Returns the index of the first entry for the vertex buffers (in any order), the index
    /// buffer `ib` and the program `program`.
    fn find(&self, buffers: &Vec<VertexBuffer>, ib: u32, program: Handle) -> (r: Option<usize>)
        ensures
            match r {
                Some(i) => {
                    &&& has_entry(self@, buffers_view(buffers@), ib, program)
                    &&& i == entry_for(self@, buffers_view(buffers@), ib, program)
                    &&& i < self@.len()
                    &&& is_entry(self@[i as int], buffers_view(buffers@), ib, program)
                },
                None => !has_entry(self@, buffers_view(buffers@), ib, program),
            },
    {
        let ghost key = buffers_view(buffers@);
        let mut i: usize = 0;
        while i < self.vaos.len()
            invariant
                key == buffers_view(buffers@),
                i <= self@.len(),
                forall|j: int| 0 <= j < i ==> !is_entry(#[trigger] self@[j], key, ib, program),
            decreases self@.len() - i,
        {
            let e = &self.vaos[i];
            if same_buffers(&e.buffers, buffers) && e.vao.element_array_buffer == ib
                && e.program == program {
                assert(is_entry(self@[i as int], key, ib, program));
                let ghost k = entry_for(self@, key, ib, program);
                assert(0 <= k < self@.len() && is_entry(self@[k], key, ib, program) && forall|j: int|
                    0 <= j < k ==> !is_entry(#[trigger] self@[j], key, ib, program));
                assert(k == i) by {
                    if i < k {
                        assert(!is_entry(self@[i as int], key, ib, program));
                    }
                }
                return Some(i);
            }
            i = i + 1;
        }
        None
    }

    /// Replaces the VAO of the entry at index `i` by one of the same name and index buffer.
    fn set_vao(&mut self, i: usize, vao: VertexArrayObject)
        requires
            i < old(self)@.len(),
            vao.id == old(self)@[i as int].vao.id,
            vao.element_array_buffer == old(self)@[i as int].vao.element_array_buffer,
        ensures
            final(self)@ == old(self)@.update(i as int, VaoEntry { vao, ..old(self)@[i as int] }),
    {
        let ghost before = self@;
        let mut vaos = self.take_entries();
        let mut e = vaos.remove(i);
        e.vao = vao;
        vaos.insert(i, e);
        assert(vaos@.map_values(|e: CachedVao| e@) =~= before.update(
            i as int,
            VaoEntry { vao, ..before[i as int] },
        ));
        proof {
            lemma_mark_keeps_wf(before, i as int, VaoEntry { vao, ..before[i as int] });
        }
        self.set_entries(vaos);
    }

    /// Appends the entry `e`, whose key is not in the cache and whose VAO has a fresh name.
    fn insert_new(&mut self, e: CachedVao)
        requires
            !has_entry(old(self)@, e@.buffers, e@.vao.element_array_buffer, e@.program),
            fresh_name(old(self)@, e@.vao.id),
        ensures
            final(self)@ == old(self)@.push(e@),
    {
        let ghost before = self@;
        let mut vaos = self.take_entries();
        vaos.push(e);
        assert(vaos@.map_values(|e: CachedVao| e@) =~= before.push(e@));
        proof {
            lemma_push_keeps_wf(before, e@);
        }
        self.set_entries(vaos);
    }

    /// Starts the process of binding vertex attributes.
    pub fn start<'a>(program: &'a Program, indices: u32) -> (binder: Binder<'a>)
        ensures
            binder.program == program,
            binder.element_array_buffer == indices,
            binder.vertex_buffers@ == Seq::<VertexBuffer>::empty(),
    {
        Binder { program, element_array_buffer: indices, vertex_buffers: Vec::new() }
    }
}

/// Object allowing one to bind vertex attributes to the current context.
pub struct Binder<'a> {
    pub program: &'a Program,
    pub element_array_buffer: u32,
    pub vertex_buffers: Vec<VertexBuffer>,
}

impl<'a> Binder<'a> {
    /// Adds a buffer to bind as a source of vertices.
    ///
    /// # Parameters
    ///
    /// - `buffer`: The buffer to bind.
    /// - `bindings`: The format of its vertices.
    /// - `divisor`: If `Some`, use this value for `glVertexAttribDivisor` (instancing-related).
    pub fn add(
        self,
        buffer: &BufferViewAnySlice,
        bindings: &VertexFormat,
        divisor: Option<u32>,
    ) -> (binder: Binder<'a>)
        ensures
            binder.program == self.program,
            binder.element_array_buffer == self.element_array_buffer,
            binder.vertex_buffers@.len() == self.vertex_buffers@.len() + 1,
            binder.vertex_buffers@.drop_last() == self.vertex_buffers@,
            binder.vertex_buffers@.last().0 == buffer.id,
            binder.vertex_buffers@.last().1@ == bindings@,
            binder.vertex_buffers@.last().2 == buffer.offset_bytes,
            binder.vertex_buffers@.last().3 == buffer.elements_size,
            binder.vertex_buffers@.last().4 == divisor,
    {
        let mut binder = self;
        let offset = buffer.offset_bytes;
        let (id, format, stride) = (buffer.id, clone_format(bindings), buffer.elements_size);
        binder.vertex_buffers.push((id, format, offset, stride, divisor));
        assert(binder.vertex_buffers@.drop_last() =~= self.vertex_buffers@);
        binder
    }
}

impl<'a> Binder<'a> {
    /// Finish binding the vertex attributes. Where a new VAO is needed, `gen` is handed the
    /// entry points the context offers for VAOs and returns the name of a new one.
    pub fn bind<F: FnOnce(VaoFns) -> u32>(self, ctxt: &mut CommandContext, gen: F)
        requires
            can_bind(old(ctxt)@, *self.program, self.element_array_buffer, self.vertex_buffers@),
            needs_new_vao(old(ctxt)@, *self.program, self.element_array_buffer, self.vertex_buffers@)
                ==> gen.requires((old(ctxt)@.vao_fns().unwrap(),)),
            needs_new_vao(old(ctxt)@, *self.program, self.element_array_buffer, self.vertex_buffers@)
                ==> forall|name: u32|
                gen.ensures((old(ctxt)@.vao_fns().unwrap(),), name) ==> fresh_name(
                    old(ctxt)@.vaos,
                    name,
                ),
        ensures
            final(ctxt)@ == bind_spec(
                old(ctxt)@,
                *self.program,
                self.element_array_buffer,
                self.vertex_buffers@,
                final(ctxt).state.vertex_array,
            ),
            needs_new_vao(old(ctxt)@, *self.program, self.element_array_buffer, self.vertex_buffers@)
                ==> gen.ensures((old(ctxt)@.vao_fns().unwrap(),), final(ctxt).state.vertex_array),
            final(ctxt).vertex_array_objects.wf(),
    {
        let ghost c = ctxt@;
        let ghost buffers = self.vertex_buffers@;
        if ctxt.get_vao_fns().is_some() {
            // VAOs are supported
            let program_id = self.program.get_id();

            // trying to find an existing VAO in the cache
            if let Some(i) = ctxt.vertex_array_objects.find(
                &self.vertex_buffers,
                self.element_array_buffer,
                program_id,
            ) {
                let mut value = ctxt.vertex_array_objects.vaos[i].vao;
                value.bind(ctxt);
                ctxt.vertex_array_objects.set_vao(i, value);
                proof {
                    use_type_invariant(&ctxt.vertex_array_objects);
                }
                return;
            }
            // if not found, building a new one

            let mut new_vao = VertexArrayObject::new(
                ctxt,
                &self.vertex_buffers,
                self.element_array_buffer,
                self.program,
                gen,
            );
            new_vao.bind(ctxt);
            ctxt.vertex_array_objects.insert_new(
                CachedVao { buffers: self.vertex_buffers, program: program_id, vao: new_vao },
            );
            proof {
                let vao = new_vao;
                let bound = vao_bind_spec(
                    new_vao_spec(c, *self.program, self.element_array_buffer, buffers, vao.id),
                    vao,
                );
                assert(ctxt@.vaos =~= bound.vaos.push(
                    VaoEntry { buffers: buffers_view(buffers), program: program_id, vao },
                ));
            }
        } else {
            // VAOs are not supported

            // just in case
            if ctxt.state.vertex_array != 0 {
                bind_vao(ctxt, 0);
                ctxt.state.vertex_array = 0;
            }
            bind_element_array_buffer(ctxt, self.element_array_buffer);
            bind_attributes(ctxt, self.program, &self.vertex_buffers);
        }
        proof {
            use_type_invariant(&ctxt.vertex_array_objects);
        }
    }
}

/// Why binding vertex sources cannot go on.
#[derive(Clone, Copy, Debug, PartialEq, Eq, Structural)]
pub enum BindError {
    /// The program attribute named by the binding `binding` of the vertex buffer `buffer`
    /// does not match the vertex format.
    AttributeMismatch { buffer: usize, binding: usize },
    /// The program attribute at this index is missing in the vertex bindings.
    MissingAttribute(usize),
    /// A buffer must be bound, and the context offers no entry point for it.
    NoBufferObjects,
    /// A VAO is bound and the context offers no entry point to unbind it.
    VertexArrayBound,
    /// The byte offset of the binding `binding` of the vertex buffer `buffer` overflows.
    OffsetOverflow { buffer: usize, binding: usize },
}

/// Tells whether some binding of some vertex buffer carries the name `name`.
fn has_binding_named(vertex_buffers: &Vec<VertexBuffer>, name: &String) -> (found: bool)
    ensures
        found == !attribute_missing(vertex_buffers@, name@),
{
    let mut i: usize = 0;
    while i < vertex_buffers.len()
        invariant
            i <= vertex_buffers@.len(),
            forall|a: int, b: int|
                0 <= a < i && 0 <= b < vertex_buffers@[a].1@.len() ==> (
                #[trigger] vertex_buffers@[a].1@[b]).0@ != name@,
        decreases vertex_buffers@.len() - i,
    {
        let bindings = &vertex_buffers[i].1;
        let mut j: usize = 0;
        while j < bindings.len()
            invariant
                i < vertex_buffers@.len(),
                bindings@ == vertex_buffers@[i as int].1@,
                j <= bindings@.len(),
                forall|a: int, b: int|
                    0 <= a < i && 0 <= b < vertex_buffers@[a].1@.len() ==> (
                    #[trigger] vertex_buffers@[a].1@[b]).0@ != name@,
                forall|b: int| 0 <= b < j ==> (#[trigger] bindings@[b]).0@ != name@,
            decreases bindings@.len() - j,
        {
            if bindings[j].0 == *name {
                assert(vertex_buffers@[i as int].1@[j as int].0@ == name@);
                return true;
            }
            j = j + 1;
        }
        i = i + 1;
    }
    false
}

impl VertexArrayObject {
    /// Checks that the vertex buffers match the program: each binding that names an attribute
    /// of the program has its number of components and is not an array, and each attribute
    /// of the program is in some vertex buffer.
    pub fn check_attributes(
        vertex_buffers: &Vec<VertexBuffer>,
        program: &Program,
    ) -> (r: Result<(), BindError>)
        ensures
            r is Ok <==> attributes_compatible(*program, vertex_buffers@),
            r matches Err(BindError::AttributeMismatch { buffer, binding }) ==> {
                &&& buffer < vertex_buffers@.len()
                &&& binding < vertex_buffers@[buffer as int].1@.len()
                &&& binding_mismatch(*program, vertex_buffers@[buffer as int].1@[binding as int])
                &&& no_mismatch_before(*program, vertex_buffers@, buffer as int, binding as int)
            },
            r matches Err(BindError::MissingAttribute(k)) ==> {
                &&& k < program.attributes@.len()
                &&& attribute_missing(vertex_buffers@, program.attributes@[k as int].0@)
                &&& no_mismatch_before(*program, vertex_buffers@, vertex_buffers@.len() as int, 0)
                &&& forall|m: int|
                    0 <= m < k ==> !attribute_missing(
                        vertex_buffers@,
                        (#[trigger] program.attributes@[m]).0@,
                    )
            },
            r matches Err(e) ==> (e is AttributeMismatch || e is MissingAttribute),
    {
        // checking the attributes types
        let mut i: usize = 0;
        while i < vertex_buffers.len()
            invariant
                i <= vertex_buffers@.len(),
                forall|a: int, b: int|
                    0 <= a < i && 0 <= b < vertex_buffers@[a].1@.len() ==> !binding_mismatch(
                        *program,
                        #[trigger] vertex_buffers@[a].1@[b],
                    ),
            decreases vertex_buffers@.len() - i,
        {
            let bindings = &vertex_buffers[i].1;
            let mut j: usize = 0;
            while j < bindings.len()
                invariant
                    i < vertex_buffers@.len(),
                    bindings@ == vertex_buffers@[i as int].1@,
                    j <= bindings@.len(),
                    forall|a: int, b: int|
                        0 <= a < i && 0 <= b < vertex_buffers@[a].1@.len() ==> !binding_mismatch(
                            *program,
                            #[trigger] vertex_buffers@[a].1@[b],
                        ),
                    forall|b: int| 0 <= b < j ==> !binding_mismatch(*program, #[trigger] bindings@[b]),
                decreases bindings@.len() - j,
            {
                let binding = &bindings[j];
                if let Some(attribute) = program.get_attribute(&binding.0) {
                    if binding.2.get_num_components() != attribute.ty.get_num_components()
                        || attribute.size != 1 {
                        assert(no_mismatch_before(*program, vertex_buffers@, i as int, j as int));
                        return Err(BindError::AttributeMismatch { buffer: i, binding: j });
                    }
                }
                j = j + 1;
            }
            i = i + 1;
        }

        // checking for missing attributes
        let mut k: usize = 0;
        while k < program.attributes.len()
            invariant
                k <= program.attributes@.len(),
                forall|a: int, b: int|
                    0 <= a < vertex_buffers@.len() && 0 <= b < vertex_buffers@[a].1@.len()
                        ==> !binding_mismatch(*program, #[trigger] vertex_buffers@[a].1@[b]),
                forall|m: int|
                    0 <= m < k ==> !attribute_missing(
                        vertex_buffers@,
                        (#[trigger] program.attributes@[m]).0@,
                    ),
            decreases program.attributes@.len() - k,
        {
            if !has_binding_named(vertex_buffers, &program.attributes[k].0) {
                return Err(BindError::MissingAttribute(k));
            }
            k = k + 1;
        }
        Ok(())
    }
}

/// Checks that the attributes of the vertex buffers can be bound, in order: see
/// `can_bind_attributes`.
fn check_bindable(
    ctxt: &CommandContext,
    program: &Program,
    vertex_buffers: &Vec<VertexBuffer>,
) -> (r: Result<(), BindError>)
    ensures
        r is Ok <==> can_bind_attributes(ctxt@, *program, vertex_buffers@),
        r matches Err(BindError::OffsetOverflow { buffer, binding }) ==> {
            &&& buffer < vertex_buffers@.len()
            &&& binding < vertex_buffers@[buffer as int].1@.len()
            &&& binding_used(*program, vertex_buffers@[buffer as int].1@[binding as int])
            &&& vertex_buffers@[buffer as int].2 + vertex_buffers@[buffer as int].1@[binding as int].1
                > usize::MAX
            &&& offsets_fit_before(*program, vertex_buffers@, buffer as int, binding as int)
            &&& ctxt@.buffer_fns() is None ==> forall|a: int|
                0 <= a <= buffer ==> (#[trigger] vertex_buffers@[a]).0
                    == ctxt.state.array_buffer_binding
        },
        r == Err::<(), BindError>(BindError::NoBufferObjects) ==> ctxt@.buffer_fns() is None,
        r matches Err(e) ==> (e is OffsetOverflow || e is NoBufferObjects),
{
    let has_buffer_fns = ctxt.get_buffer_fns().is_some();
    let mut k: usize = 0;
    while k < vertex_buffers.len()
        invariant
            k <= vertex_buffers@.len(),
            has_buffer_fns == ctxt@.buffer_fns() is Some,
            !has_buffer_fns ==> forall|a: int|
                0 <= a < k ==> (#[trigger] vertex_buffers@[a]).0 == ctxt.state.array_buffer_binding,
            forall|a: int|
                0 <= a < k ==> offsets_fit(
                    *program,
                    (#[trigger] vertex_buffers@[a]).1@,
                    vertex_buffers@[a].2,
                ),
        decreases vertex_buffers@.len() - k,
    {
        let buffer = &vertex_buffers[k];
        if !has_buffer_fns && buffer.0 != ctxt.state.array_buffer_binding {
            return Err(BindError::NoBufferObjects);
        }
        let bindings = &buffer.1;
        let mut j: usize = 0;
        while j < bindings.len()
            invariant
                k < vertex_buffers@.len(),
                buffer == vertex_buffers@[k as int],
                bindings@ == buffer.1@,
                j <= bindings@.len(),
                has_buffer_fns == ctxt@.buffer_fns() is Some,
                !has_buffer_fns ==> forall|a: int|
                    0 <= a <= k ==> (#[trigger] vertex_buffers@[a]).0
                        == ctxt.state.array_buffer_binding,
                forall|a: int|
                    0 <= a < k ==> offsets_fit(
                        *program,
                        (#[trigger] vertex_buffers@[a]).1@,
                        vertex_buffers@[a].2,
                    ),
                forall|b: int|
                    0 <= b < j && binding_used(*program, #[trigger] bindings@[b]) ==> buffer.2
                        + bindings@[b].1 <= usize::MAX,
            decreases bindings@.len() - j,
        {
            let binding = &bindings[j];
            if let Some(attribute) = program.get_attribute(&binding.0) {
                if attribute.location != -1 && buffer.2 > usize::MAX - binding.1 {
                    assert(binding_used(*program, bindings@[j as int]));
                    assert(offsets_fit_before(*program, vertex_buffers@, k as int, j as int));
                    return Err(BindError::OffsetOverflow { buffer: k, binding: j });
                }
            }
            j = j + 1;
        }
        k = k + 1;
    }
    Ok(())
}

impl<'a> Binder<'a> {
    /// Checks that `bind` can go on in the context: where it cannot, the error says why.
    pub fn check(&self, ctxt: &CommandContext) -> (r: Result<(), BindError>)
        ensures
            r is Ok <==> can_bind(ctxt@, *self.program, self.element_array_buffer, self.vertex_buffers@),
            r matches Err(BindError::AttributeMismatch { buffer, binding }) ==> {
                &&& needs_new_vao(ctxt@, *self.program, self.element_array_buffer, self.vertex_buffers@)
                &&& buffer < self.vertex_buffers@.len()
                &&& binding < self.vertex_buffers@[buffer as int].1@.len()
                &&& binding_mismatch(*self.program, self.vertex_buffers@[buffer as int].1@[binding as int])
                &&& no_mismatch_before(*self.program, self.vertex_buffers@, buffer as int, binding as int)
            },
            r matches Err(BindError::MissingAttribute(k)) ==> {
                &&& needs_new_vao(ctxt@, *self.program, self.element_array_buffer, self.vertex_buffers@)
                &&& k < self.program.attributes@.len()
                &&& attribute_missing(self.vertex_buffers@, self.program.attributes@[k as int].0@)
                &&& no_mismatch_before(
                    *self.program,
                    self.vertex_buffers@,
                    self.vertex_buffers@.len() as int,
                    0,
                )
                &&& forall|m: int|
                    0 <= m < k ==> !attribute_missing(
                        self.vertex_buffers@,
                        (#[trigger] self.program.attributes@[m]).0@,
                    )
            },
            r matches Err(BindError::OffsetOverflow { buffer, binding }) ==> {
                &&& ctxt@.buffer_fns() is Some
                &&& ctxt@.vao_fns() is Some ==> needs_new_vao(
                    ctxt@,
                    *self.program,
                    self.element_array_buffer,
                    self.vertex_buffers@,
                ) && attributes_compatible(*self.program, self.vertex_buffers@)
                &&& ctxt@.vao_fns() is None ==> ctxt.state.vertex_array == 0
                &&& buffer < self.vertex_buffers@.len()
                &&& binding < self.vertex_buffers@[buffer as int].1@.len()
                &&& binding_used(*self.program, self.vertex_buffers@[buffer as int].1@[binding as int])
                &&& self.vertex_buffers@[buffer as int].2
                    + self.vertex_buffers@[buffer as int].1@[binding as int].1 > usize::MAX
                &&& offsets_fit_before(
                    *self.program,
                    self.vertex_buffers@,
                    buffer as int,
                    binding as int,
                )
            },
            r == Err::<(), BindError>(BindError::NoBufferObjects) ==> {
                &&& ctxt@.buffer_fns() is None
                &&& ctxt@.vao_fns() is Some ==> (if needs_new_vao(
                    ctxt@,
                    *self.program,
                    self.element_array_buffer,
                    self.vertex_buffers@,
                ) {
                    attributes_compatible(*self.program, self.vertex_buffers@)
                } else {
                    ctxt@.vaos[entry_for(
                        ctxt@.vaos,
                        buffers_view(self.vertex_buffers@),
                        self.element_array_buffer,
                        self.program.id,
                    )].vao.element_array_buffer_hijacked
                })
                &&& ctxt@.vao_fns() is None ==> ctxt.state.vertex_array == 0
            },
            r == Err::<(), BindError>(BindError::VertexArrayBound) ==> {
                &&& ctxt@.vao_fns() is None
                &&& ctxt.state.vertex_array != 0
            },
    {
        if ctxt.get_vao_fns().is_some() {
            match ctxt.vertex_array_objects.find(
                &self.vertex_buffers,
                self.element_array_buffer,
                self.program.get_id(),
            ) {
                Some(i) => {
                    if ctxt.vertex_array_objects.vaos[i].vao.element_array_buffer_hijacked
                        && ctxt.get_buffer_fns().is_none() {
                        return Err(BindError::NoBufferObjects);
                    }
                    Ok(())
                },
                None => {
                    VertexArrayObject::check_attributes(&self.vertex_buffers, self.program)?;
                    if ctxt.get_buffer_fns().is_none() {
                        return Err(BindError::NoBufferObjects);
                    }
                    check_bindable(ctxt, self.program, &self.vertex_buffers)
                },
            }
        } else {
            if ctxt.state.vertex_array != 0 {
                return Err(BindError::VertexArrayBound);
            }
            if ctxt.get_buffer_fns().is_none() {
                return Err(BindError::NoBufferObjects);
            }
            check_bindable(ctxt, self.program, &self.vertex_buffers)
        }
    }
}

} // verus!
