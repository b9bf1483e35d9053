//! What holds of the vertex attribute system across its operations.

use vstd::prelude::*;
use crate::context::{ContextView, GlCommand, GlState};
use crate::glenum;
use crate::program::{Handle, Program};
use crate::vertex_array_object::{
    attribute_missing, attributes_compatible, binding_mismatch, uses_buffer, attributes_spec, bind_element_array_buffer_spec, bind_spec, bind_vao_spec, buffers_view,
    cache_wf, can_bind, destroy_spec, fresh_name, entry_for, first_with_id, has_entry, hijack_spec, is_entry,
    needs_new_vao, new_vao_spec, purge_spec, purge_steps, same_key, vao_bind_spec,
    with_hijack_note, BufferView, VaoEntry, VertexArrayObject, VertexBuffer,
};

verus! {

/// Some entry that `doomed` holds of has the VAO named `id`.
pub open spec fn dooms_name(entries: Seq<VaoEntry>, doomed: spec_fn(VaoEntry) -> bool, id: u32) -> bool {
    exists|i: int| 0 <= i < entries.len() && doomed(#[trigger] entries[i]) && entries[i].vao.id == id
}

/// The entries that a purge keeps.
pub open spec fn kept(doomed: spec_fn(VaoEntry) -> bool) -> spec_fn(VaoEntry) -> bool {
    |e: VaoEntry| !doomed(e)
}

/// Binding the attributes of vertex buffers changes neither the cache, nor the bound VAO, nor
/// what the context offers, and only appends commands.
pub proof fn lemma_attributes_frame(c: ContextView, program: Program, buffers: Seq<VertexBuffer>)
    ensures
        attributes_spec(c, program, buffers).vaos == c.vaos,
        attributes_spec(c, program, buffers).version == c.version,
        attributes_spec(c, program, buffers).extensions == c.extensions,
        attributes_spec(c, program, buffers).state.vertex_array == c.state.vertex_array,
        attributes_spec(c, program, buffers).commands.take(c.commands.len() as int) == c.commands,
        c.commands.len() <= attributes_spec(c, program, buffers).commands.len(),
    decreases buffers.len(),
{
    if buffers.len() > 0 {
        lemma_attributes_frame(c, program, buffers.drop_last());
        let before = attributes_spec(c, program, buffers.drop_last());
        let after = attributes_spec(c, program, buffers);
        assert(after.commands.take(before.commands.len() as int) =~= before.commands);
        assert(after.commands.take(c.commands.len() as int) =~= c.commands) by {
            assert(before.commands.take(c.commands.len() as int) == c.commands);
        }
    }
}

/// Purging entries in turn appends the kept ones to the cache, changes what the context
/// offers in no way, and leaves bound the VAO bound before, or none where it destroyed that
/// one.
pub proof fn lemma_purge_steps(
    c: ContextView,
    entries: Seq<VaoEntry>,
    doomed: spec_fn(VaoEntry) -> bool,
)
    ensures
        purge_steps(c, entries, doomed).vaos == c.vaos + entries.filter(kept(doomed)),
        purge_steps(c, entries, doomed).version == c.version,
        purge_steps(c, entries, doomed).extensions == c.extensions,
        purge_steps(c, entries, doomed).state.array_buffer_binding == c.state.array_buffer_binding,
        purge_steps(c, entries, doomed).state.vertex_array == if dooms_name(
            entries,
            doomed,
            c.state.vertex_array,
        ) {
            0
        } else {
            c.state.vertex_array
        },
        purge_steps(c, entries, doomed).commands.take(c.commands.len() as int) == c.commands,
        c.commands.len() <= purge_steps(c, entries, doomed).commands.len(),
    decreases entries.len(),
{
    reveal_with_fuel(Seq::filter, 1);
    if entries.len() == 0 {
        assert(c.vaos + entries.filter(kept(doomed)) =~= c.vaos);
        assert(c.commands.take(c.commands.len() as int) =~= c.commands);
    } else {
        let rest = entries.drop_last();
        lemma_purge_steps(c, rest, doomed);
        let before = purge_steps(c, rest, doomed);
        let after = purge_steps(c, entries, doomed);
        let e = entries.last();
        if doomed(e) {
            assert(entries.filter(kept(doomed)) == rest.filter(kept(doomed)));
        } else {
            assert(entries.filter(kept(doomed)) == rest.filter(kept(doomed)).push(e));
            assert(c.vaos + entries.filter(kept(doomed)) =~= (c.vaos + rest.filter(kept(doomed))).push(e));
        }
        assert(after.commands.take(before.commands.len() as int) =~= before.commands);
        assert(after.commands.take(c.commands.len() as int) =~= c.commands) by {
            assert(before.commands.take(c.commands.len() as int) == c.commands);
        }
        let va = c.state.vertex_array;
        if dooms_name(rest, doomed, va) {
            let i = choose|i: int|
                0 <= i < rest.len() && doomed(#[trigger] rest[i]) && rest[i].vao.id == va;
            assert(entries[i] == rest[i]);
            assert(dooms_name(entries, doomed, va));
        } else if doomed(e) && e.vao.id == va {
            assert(entries[entries.len() - 1] == e);
            assert(dooms_name(entries, doomed, va));
        } else {
            assert(!dooms_name(entries, doomed, va)) by {
                if dooms_name(entries, doomed, va) {
                    let i = choose|i: int|
                        0 <= i < entries.len() && doomed(#[trigger] entries[i])
                            && entries[i].vao.id == va;
                    if i < rest.len() {
                        assert(rest[i] == entries[i]);
                    }
                }
            }
        }
    }
}

/// A subsequence of a well-formed cache that a filter keeps is well formed.
pub proof fn lemma_filter_wf(vaos: Seq<VaoEntry>, pred: spec_fn(VaoEntry) -> bool)
    requires
        cache_wf(vaos),
    ensures
        cache_wf(vaos.filter(pred)),
    decreases vaos.len(),
{
    reveal_with_fuel(Seq::filter, 1);
    if vaos.len() > 0 {
        let rest = vaos.drop_last();
        assert(cache_wf(rest)) by {
            assert forall|i: int, j: int| 0 <= i < j < rest.len() implies #[trigger] rest[i].vao.id
                != #[trigger] rest[j].vao.id by {
                assert(rest[i] == vaos[i] && rest[j] == vaos[j]);
            }
            assert forall|i: int| 0 <= i < rest.len() implies #[trigger] rest[i].vao.id != 0 by {
                assert(rest[i] == vaos[i]);
            }
        }
        lemma_filter_wf(rest, pred);
        let f = vaos.filter(pred);
        let g = rest.filter(pred);
        assert forall|i: int| 0 <= i < f.len() implies #[trigger] f[i].vao.id != 0 by {
            assert(f.contains(f[i]));
            vaos.lemma_filter_contains_rev(pred, f[i]);
        }
        if pred(vaos.last()) {
            let n = vaos.len() - 1;
            assert forall|i: int, j: int| 0 <= i < j < f.len() implies !same_key(f[i], f[j]) by {
                if j == f.len() - 1 {
                    assert(f[i] == g[i]);
                    assert(g.contains(g[i]));
                    rest.lemma_filter_contains_rev(pred, g[i]);
                    let k = choose|k: int| 0 <= k < rest.len() && rest[k] == g[i];
                    assert(vaos[k] == rest[k]);
                    assert(!same_key(vaos[k], vaos[n]));
                    assert(vaos[k].vao.id != vaos[n].vao.id);
                } else {
                    assert(f[i] == g[i] && f[j] == g[j]);
                    assert(!same_key(g[i], g[j]));
                    assert(g[i].vao.id != g[j].vao.id);
                }
            }
            assert forall|i: int, j: int| 0 <= i < j < f.len() implies #[trigger] f[i].vao.id
                != #[trigger] f[j].vao.id by {
                if j == f.len() - 1 {
                    assert(f[i] == g[i]);
                    assert(g.contains(g[i]));
                    rest.lemma_filter_contains_rev(pred, g[i]);
                    let k = choose|k: int| 0 <= k < rest.len() && rest[k] == g[i];
                    assert(vaos[k] == rest[k]);
                    assert(!same_key(vaos[k], vaos[n]));
                    assert(vaos[k].vao.id != vaos[n].vao.id);
                } else {
                    assert(f[i] == g[i] && f[j] == g[j]);
                    assert(!same_key(g[i], g[j]));
                    assert(g[i].vao.id != g[j].vao.id);
                }
            }
        }
    }
}

/// Purging (by buffer, by program, or all) keeps exactly the entries that it does not doom,
/// in their order; keeps the cache well formed; only appends commands; and leaves no VAO that
/// it destroyed bound.
pub proof fn lemma_purge(c: ContextView, doomed: spec_fn(VaoEntry) -> bool)
    ensures
        purge_spec(c, doomed).vaos == c.vaos.filter(kept(doomed)),
        forall|i: int|
            0 <= i < purge_spec(c, doomed).vaos.len() ==> !doomed(
                #[trigger] purge_spec(c, doomed).vaos[i],
            ),
        cache_wf(c.vaos) ==> cache_wf(purge_spec(c, doomed).vaos),
        purge_spec(c, doomed).state.vertex_array == if dooms_name(
            c.vaos,
            doomed,
            c.state.vertex_array,
        ) {
            0
        } else {
            c.state.vertex_array
        },
        purge_spec(c, doomed).commands.take(c.commands.len() as int) == c.commands,
        purge_spec(c, doomed).version == c.version,
        purge_spec(c, doomed).extensions == c.extensions,
{
    let start = c.with_vaos(Seq::empty());
    lemma_purge_steps(start, c.vaos, doomed);
    let f = purge_spec(c, doomed);
    assert(start.vaos + c.vaos.filter(kept(doomed)) =~= c.vaos.filter(kept(doomed)));
    assert forall|i: int| 0 <= i < f.vaos.len() implies !doomed(#[trigger] f.vaos[i]) by {
        c.vaos.lemma_filter_pred(kept(doomed), i);
    }
    if cache_wf(c.vaos) {
        lemma_filter_wf(c.vaos, kept(doomed));
    }
}

/// Purging all the cache empties it.
pub proof fn lemma_purge_all_empties(c: ContextView)
    ensures
        purge_spec(c, |e: VaoEntry| true).vaos.len() == 0,
{
    let doomed = |e: VaoEntry| true;
    lemma_purge(c, doomed);
    let f = purge_spec(c, doomed);
    if f.vaos.len() > 0 {
        assert(!doomed(f.vaos[0]));
    }
}

/// The first entry for a key is the one that no earlier entry shares the key with.
pub proof fn lemma_entry_for_is_first(
    vaos: Seq<VaoEntry>,
    key: Seq<BufferView>,
    ib: u32,
    program: Handle,
    i: int,
)
    requires
        0 <= i < vaos.len(),
        is_entry(vaos[i], key, ib, program),
        forall|j: int| 0 <= j < i ==> !is_entry(#[trigger] vaos[j], key, ib, program),
    ensures
        has_entry(vaos, key, ib, program),
        entry_for(vaos, key, ib, program) == i,
{
    let k = entry_for(vaos, key, ib, program);
    assert(0 <= k < vaos.len() && is_entry(vaos[k], key, ib, program) && forall|j: int|
        0 <= j < k ==> !is_entry(#[trigger] vaos[j], key, ib, program));
    if k < i {
    } else if i < k {
        assert(!is_entry(vaos[i], key, ib, program));
    }
}

/// In a well-formed cache the entry for a key is the only one for it.
pub proof fn lemma_entry_for_unique(
    vaos: Seq<VaoEntry>,
    key: Seq<BufferView>,
    ib: u32,
    program: Handle,
    j: int,
)
    requires
        cache_wf(vaos),
        0 <= j < vaos.len(),
        is_entry(vaos[j], key, ib, program),
    ensures
        entry_for(vaos, key, ib, program) == j,
{
    assert forall|m: int| 0 <= m < j implies !is_entry(#[trigger] vaos[m], key, ib, program) by {
        assert(!same_key(vaos[m], vaos[j]));
    }
    lemma_entry_for_is_first(vaos, key, ib, program, j);
}

/// Where the cache has an entry for a key, the first one is in it and is for the key.
proof fn lemma_entry_for_in(vaos: Seq<VaoEntry>, key: Seq<BufferView>, ib: u32, program: Handle)
    requires
        cache_wf(vaos),
        has_entry(vaos, key, ib, program),
    ensures
        0 <= entry_for(vaos, key, ib, program) < vaos.len(),
        is_entry(vaos[entry_for(vaos, key, ib, program)], key, ib, program),
{
    let w = choose|w: int| 0 <= w < vaos.len() && is_entry(#[trigger] vaos[w], key, ib, program);
    lemma_entry_for_unique(vaos, key, ib, program, w);
}

/// Binding vertex sources where the context has VAOs leaves in the cache an entry for them
/// (the vertex buffers with their formats, offsets, strides and divisors, the index buffer and
/// the program), whose VAO is the one bound and is not hijacked; a new entry, under the fresh
/// name `id`, is appended only where the cache had none; the cache stays well formed; commands
/// are only appended.
pub proof fn lemma_bind_caches(
    c: ContextView,
    program: Program,
    ib: u32,
    buffers: Seq<VertexBuffer>,
    id: u32,
)
    requires
        c.vao_fns() is Some,
        cache_wf(c.vaos),
        needs_new_vao(c, program, ib, buffers) ==> fresh_name(c.vaos, id),
    ensures
        ({
            let f = bind_spec(c, program, ib, buffers, id);
            let key = buffers_view(buffers);
            let i = entry_for(f.vaos, key, ib, program.id);
            &&& has_entry(f.vaos, key, ib, program.id)
            &&& 0 <= i < f.vaos.len()
            &&& f.vaos[i].vao.id == f.state.vertex_array
            &&& f.vaos[i].vao.element_array_buffer == ib
            &&& !f.vaos[i].vao.element_array_buffer_hijacked
            &&& cache_wf(f.vaos)
            &&& f.version == c.version
            &&& f.extensions == c.extensions
            &&& f.commands.take(c.commands.len() as int) == c.commands
            &&& needs_new_vao(c, program, ib, buffers) ==> {
                &&& f.state.vertex_array == id
                &&& f.vaos == c.vaos.push(
                    VaoEntry {
                        buffers: key,
                        program: program.id,
                        vao: VertexArrayObject {
                            id,
                            element_array_buffer: ib,
                            element_array_buffer_hijacked: false,
                        },
                    },
                )
            }
            &&& !needs_new_vao(c, program, ib, buffers) ==> {
                &&& f.vaos.len() == c.vaos.len()
                &&& forall|j: int|
                    0 <= j < c.vaos.len() ==> {
                        &&& same_key(#[trigger] f.vaos[j], c.vaos[j])
                        &&& f.vaos[j].vao.id == c.vaos[j].vao.id
                    }
            }
        }),
{
    let f = bind_spec(c, program, ib, buffers, id);
    let key = buffers_view(buffers);
    if has_entry(c.vaos, key, ib, program.id) {
        let i = entry_for(c.vaos, key, ib, program.id);
        lemma_entry_for_in(c.vaos, key, ib, program.id);
        assert forall|j: int| 0 <= j < i implies !is_entry(#[trigger] c.vaos[j], key, ib, program.id) by {
            assert(!same_key(c.vaos[j], c.vaos[i]));
        }
        let e = c.vaos[i];
        let bound = vao_bind_spec(c, e.vao);
        assert(bound.commands.take(c.commands.len() as int) =~= c.commands);
        assert(forall|j: int| 0 <= j < i ==> f.vaos[j] == c.vaos[j]);
        lemma_entry_for_is_first(f.vaos, key, ib, program.id, i);
        lemma_mark_keeps_wf(c.vaos, i, with_hijack_note(e, false));
    } else {
        let vao = VertexArrayObject { id, element_array_buffer: ib, element_array_buffer_hijacked: false };
        let opened = bind_element_array_buffer_spec_frame(c, ib, id);
        lemma_attributes_frame(opened, program, buffers);
        let built = new_vao_spec(c, program, ib, buffers, id);
        assert(built.state.vertex_array == id);
        let bound = vao_bind_spec(built, vao);
        assert(bound == built);
        let n = c.vaos.len() as int;
        assert(f.vaos == c.vaos.push(VaoEntry { buffers: key, program: program.id, vao }));
        assert(forall|j: int| 0 <= j < n ==> f.vaos[j] == c.vaos[j]);
        assert forall|j: int| 0 <= j < n implies !is_entry(#[trigger] f.vaos[j], key, ib, program.id) by {
            if is_entry(c.vaos[j], key, ib, program.id) {
                assert(has_entry(c.vaos, key, ib, program.id));
            }
        }
        lemma_entry_for_is_first(f.vaos, key, ib, program.id, n);
        assert forall|a: int, b: int| 0 <= a < b < f.vaos.len() implies !same_key(f.vaos[a], f.vaos[b]) by {
            if b == n {
                assert(!is_entry(f.vaos[a], key, ib, program.id));
            }
        }
        assert forall|a: int, b: int| 0 <= a < b < f.vaos.len() implies #[trigger] f.vaos[a].vao.id
            != #[trigger] f.vaos[b].vao.id by {
            if b == n {
                assert(c.vaos[a].vao.id != id);
            }
        }
        assert forall|a: int| 0 <= a < f.vaos.len() implies #[trigger] f.vaos[a].vao.id != 0 by {
            if a < n {
                assert(f.vaos[a] == c.vaos[a]);
            }
        }
        assert(built.commands.take(c.commands.len() as int) =~= c.commands) by {
            assert(opened.commands.take(c.commands.len() as int) =~= c.commands);
            assert(built.commands.take(opened.commands.len() as int) == opened.commands);
        }
    }
}

/// What opening a new VAO before its attributes are bound does to the context: the VAO is
/// bound, the index buffer is bound, nothing else changes but appended commands.
proof fn bind_element_array_buffer_spec_frame(c: ContextView, ib: u32, id: u32) -> (opened: ContextView)
    ensures
        opened == bind_element_array_buffer_spec(bind_vao_spec(c, id), ib),
        opened.vaos == c.vaos,
        opened.version == c.version,
        opened.extensions == c.extensions,
        opened.state.vertex_array == id,
        opened.commands.take(c.commands.len() as int) == c.commands,
        c.commands.len() <= opened.commands.len(),
{
    let opened = bind_element_array_buffer_spec(bind_vao_spec(c, id), ib);
    assert(opened.commands.take(c.commands.len() as int) =~= c.commands);
    opened
}

/// The order in which vertex buffers were added does not matter: where the context has VAOs
/// and the cache holds an entry for some vertex buffers, index buffer and program, binding the
/// same vertex buffers in any other order, with the same index buffer and program, reuses
/// that entry and leaves the context exactly as the first order does.
pub proof fn lemma_bind_ignores_order(
    c: ContextView,
    program: Program,
    ib: u32,
    buffers: Seq<VertexBuffer>,
    reordered: Seq<VertexBuffer>,
    id: u32,
    other_id: u32,
)
    requires
        c.vao_fns() is Some,
        cache_wf(c.vaos),
        buffers_view(reordered).to_multiset() == buffers_view(buffers).to_multiset(),
        has_entry(c.vaos, buffers_view(buffers), ib, program.id),
    ensures
        has_entry(c.vaos, buffers_view(reordered), ib, program.id),
        !needs_new_vao(c, program, ib, reordered),
        can_bind(c, program, ib, reordered) == can_bind(c, program, ib, buffers),
        bind_spec(c, program, ib, reordered, other_id) == bind_spec(c, program, ib, buffers, id),
{
    let key = buffers_view(buffers);
    let other = buffers_view(reordered);
    lemma_entry_for_in(c.vaos, key, ib, program.id);
    let i = entry_for(c.vaos, key, ib, program.id);
    assert(is_entry(c.vaos[i], other, ib, program.id));
    lemma_entry_for_unique(c.vaos, other, ib, program.id, i);
}

/// Binding the same vertex sources a second time (the same buffers, formats, offsets, strides
/// and divisors, added in any order, with the same index buffer and program), where the
/// context has VAOs, issues no command and changes nothing: the first binding cached their
/// VAO and left it bound.
pub proof fn lemma_bind_twice_is_silent(
    c: ContextView,
    program: Program,
    ib: u32,
    buffers: Seq<VertexBuffer>,
    again: Seq<VertexBuffer>,
    first_id: u32,
    second_id: u32,
)
    requires
        c.vao_fns() is Some,
        cache_wf(c.vaos),
        needs_new_vao(c, program, ib, buffers) ==> fresh_name(c.vaos, first_id),
        buffers_view(again).to_multiset() == buffers_view(buffers).to_multiset(),
    ensures
        ({
            let once = bind_spec(c, program, ib, buffers, first_id);
            &&& can_bind(once, program, ib, again)
            &&& !needs_new_vao(once, program, ib, again)
            &&& bind_spec(once, program, ib, again, second_id) == once
        }),
{
    lemma_bind_caches(c, program, ib, buffers, first_id);
    let once = bind_spec(c, program, ib, buffers, first_id);
    let key = buffers_view(buffers);
    let i = entry_for(once.vaos, key, ib, program.id);
    let e = once.vaos[i];
    assert(vao_bind_spec(once, e.vao) == once);
    assert(once.vaos.update(i, with_hijack_note(e, false)) =~= once.vaos);
    lemma_bind_ignores_order(once, program, ib, buffers, again, second_id, second_id);
}

/// Noting a hijack of the element array buffer of the bound VAO makes the next binding of its
/// vertex sources bind its index buffer again, and clear the note.
#[verifier::spinoff_prover]
#[verifier::rlimit(60)]
pub proof fn lemma_hijack_then_bind(
    c: ContextView,
    program: Program,
    ib: u32,
    buffers: Seq<VertexBuffer>,
    id: u32,
)
    requires
        c.vao_fns() is Some,
        cache_wf(c.vaos),
        has_entry(c.vaos, buffers_view(buffers), ib, program.id),
        c.vaos[entry_for(c.vaos, buffers_view(buffers), ib, program.id)].vao.id
            == c.state.vertex_array,
    ensures
        ({
            let i = entry_for(c.vaos, buffers_view(buffers), ib, program.id);
            let e = c.vaos[i];
            let hijacked = hijack_spec(c);
            let after = bind_spec(hijacked, program, ib, buffers, id);
            &&& hijacked.vaos[i].vao.element_array_buffer_hijacked
            &&& after.commands == hijacked.commands.push(
                GlCommand::BindBuffer(c.buffer_fns().unwrap(), glenum::ELEMENT_ARRAY_BUFFER, ib),
            )
            &&& after.state == c.state
            &&& after.vaos == c.vaos.update(i, with_hijack_note(e, false))
        }),
{
    let key = buffers_view(buffers);
    let i = entry_for(c.vaos, key, ib, program.id);
    lemma_entry_for_in(c.vaos, key, ib, program.id);
    let cur = c.state.vertex_array;
    let k = first_with_id(c.vaos, cur);
    assert(0 <= k < c.vaos.len() && c.vaos[k].vao.id == cur && forall|j: int|
        0 <= j < k ==> #[trigger] c.vaos[j].vao.id != cur) by {
        assert forall|j: int| 0 <= j < i implies #[trigger] c.vaos[j].vao.id != cur by {
            assert(c.vaos[j].vao.id != c.vaos[i].vao.id);
        }
        assert(c.vaos[i].vao.id == cur);
    }
    assert(k == i) by {
        if k < i {
            assert(c.vaos[k].vao.id != c.vaos[i].vao.id);
        } else if i < k {
            assert(c.vaos[i].vao.id != cur);
        }
    }
    let hijacked = hijack_spec(c);
    let e = c.vaos[i];
    let marked = with_hijack_note(e, true);
    assert(hijacked == c.with_vaos(c.vaos.update(i, marked)));
    lemma_mark_keeps_wf(c.vaos, i, marked);
    lemma_entry_for_unique(hijacked.vaos, key, ib, program.id, i);
    let after = bind_spec(hijacked, program, ib, buffers, id);
    assert(after.vaos =~= c.vaos.update(i, with_hijack_note(e, false)));
}

/// Replacing the VAO of an entry by one of the same name and index buffer keeps the cache
/// well formed.
pub proof fn lemma_mark_keeps_wf(vaos: Seq<VaoEntry>, i: int, e: VaoEntry)
    requires
        cache_wf(vaos),
        0 <= i < vaos.len(),
        same_key(e, vaos[i]),
        e.vao.id == vaos[i].vao.id,
    ensures
        cache_wf(vaos.update(i, e)),
{
    let u = vaos.update(i, e);
    assert forall|a: int, b: int| 0 <= a < b < u.len() implies !same_key(u[a], u[b]) by {
        assert(!same_key(vaos[a], vaos[b]));
        assert(same_key(u[a], vaos[a]) && same_key(u[b], vaos[b]));
    }
    assert forall|a: int, b: int| 0 <= a < b < u.len() implies #[trigger] u[a].vao.id
        != #[trigger] u[b].vao.id by {
        assert(vaos[a].vao.id != vaos[b].vao.id);
    }
    assert forall|a: int| 0 <= a < u.len() implies #[trigger] u[a].vao.id != 0 by {
        assert(vaos[a].vao.id != 0);
    }
}

/// Appending an entry whose key is not in the cache and whose VAO has a fresh name keeps the
/// cache well formed.
pub proof fn lemma_push_keeps_wf(vaos: Seq<VaoEntry>, e: VaoEntry)
    requires
        cache_wf(vaos),
        !has_entry(vaos, e.buffers, e.vao.element_array_buffer, e.program),
        fresh_name(vaos, e.vao.id),
    ensures
        cache_wf(vaos.push(e)),
{
    let u = vaos.push(e);
    let n = vaos.len() as int;
    assert forall|a: int, b: int| 0 <= a < b < u.len() implies !same_key(u[a], u[b]) by {
        if b == n {
            assert(u[a] == vaos[a]);
            assert(!is_entry(vaos[a], e.buffers, e.vao.element_array_buffer, e.program));
        } else {
            assert(u[a] == vaos[a] && u[b] == vaos[b]);
        }
    }
    assert forall|a: int, b: int| 0 <= a < b < u.len() implies #[trigger] u[a].vao.id
        != #[trigger] u[b].vao.id by {
        if b == n {
            assert(u[a] == vaos[a]);
        } else {
            assert(u[a] == vaos[a] && u[b] == vaos[b]);
        }
    }
    assert forall|a: int| 0 <= a < u.len() implies #[trigger] u[a].vao.id != 0 by {
        if a < n {
            assert(u[a] == vaos[a]);
        }
    }
}

/// Binding vertex sources where the context has no VAOs leaves the cache as it was and no VAO
/// bound.
pub proof fn lemma_bind_without_vaos(
    c: ContextView,
    program: Program,
    ib: u32,
    buffers: Seq<VertexBuffer>,
    id: u32,
)
    requires
        c.vao_fns() is None,
        can_bind(c, program, ib, buffers),
    ensures
        bind_spec(c, program, ib, buffers, id).vaos == c.vaos,
        bind_spec(c, program, ib, buffers, id).state.vertex_array == 0,
{
    let opened = bind_element_array_buffer_spec(c, ib);
    lemma_attributes_frame(opened, program, buffers);
}

/// Binding a VAO twice is binding it once.
pub proof fn lemma_bind_vao_idempotent(c: ContextView, id: u32)
    ensures
        bind_vao_spec(bind_vao_spec(c, id), id) == bind_vao_spec(c, id),
        bind_vao_spec(c, id).state.vertex_array == id,
{
}

/// Noting a hijack changes only the note of the bound VAO (of the first entry holding it):
/// the cache stays well formed, and no command is issued.
pub proof fn lemma_hijack_keeps_wf(c: ContextView)
    requires
        cache_wf(c.vaos),
    ensures
        cache_wf(hijack_spec(c).vaos),
        hijack_spec(c).vaos.len() == c.vaos.len(),
        forall|j: int| 0 <= j < c.vaos.len() ==> same_key(#[trigger] hijack_spec(c).vaos[j], c.vaos[j]),
        hijack_spec(c).commands == c.commands,
        hijack_spec(c).state == c.state,
{
    if exists|i: int| 0 <= i < c.vaos.len() && #[trigger] c.vaos[i].vao.id == c.state.vertex_array {
        let w = choose|i: int| 0 <= i < c.vaos.len() && #[trigger] c.vaos[i].vao.id == c.state.vertex_array;
        let i = first_with_id(c.vaos, c.state.vertex_array);
        lemma_first_exists(c.vaos, c.state.vertex_array, w);
        let e = c.vaos[i];
        let marked = with_hijack_note(e, true);
        lemma_mark_keeps_wf(c.vaos, i, marked);
    }
}

/// Where some entry holds the VAO `id`, a first one does.
proof fn lemma_first_exists(vaos: Seq<VaoEntry>, id: u32, w: int)
    requires
        0 <= w < vaos.len(),
        vaos[w].vao.id == id,
    ensures
        ({
            let k = first_with_id(vaos, id);
            &&& 0 <= k < vaos.len()
            &&& vaos[k].vao.id == id
            &&& forall|j: int| 0 <= j < k ==> #[trigger] vaos[j].vao.id != id
        }),
    decreases w,
{
    if exists|j: int| 0 <= j < w && #[trigger] vaos[j].vao.id == id {
        let j = choose|j: int| 0 <= j < w && #[trigger] vaos[j].vao.id == id;
        lemma_first_exists(vaos, id, j);
    } else {
        assert(0 <= w < vaos.len() && vaos[w].vao.id == id && forall|j: int|
            0 <= j < w ==> #[trigger] vaos[j].vao.id != id);
    }
}

/// The names of the VAOs that the commands delete, in order.
pub open spec fn deleted_vaos(commands: Seq<GlCommand>) -> Seq<u32>
    decreases commands.len(),
{
    if commands.len() == 0 {
        Seq::empty()
    } else {
        let before = deleted_vaos(commands.drop_last());
        match commands.last() {
            GlCommand::DeleteVertexArray(_, id) => before.push(id),
            _ => before,
        }
    }
}

/// The names of the VAOs of the entries.
pub open spec fn vao_ids(entries: Seq<VaoEntry>) -> Seq<u32> {
    entries.map_values(|e: VaoEntry| e.vao.id)
}

/// Purging entries in turn deletes the VAO of each doomed one, in order, and no other.
proof fn lemma_purge_steps_deletes(
    c: ContextView,
    entries: Seq<VaoEntry>,
    doomed: spec_fn(VaoEntry) -> bool,
)
    ensures
        deleted_vaos(purge_steps(c, entries, doomed).commands) == deleted_vaos(c.commands)
            + vao_ids(entries.filter(doomed)),
    decreases entries.len(),
{
    reveal_with_fuel(Seq::filter, 1);
    if entries.len() == 0 {
        assert(deleted_vaos(c.commands) + vao_ids(entries.filter(doomed)) =~= deleted_vaos(c.commands));
    } else {
        let rest = entries.drop_last();
        lemma_purge_steps_deletes(c, rest, doomed);
        let before = purge_steps(c, rest, doomed);
        let e = entries.last();
        if doomed(e) {
            let after = purge_steps(c, entries, doomed);
            assert(entries.filter(doomed) == rest.filter(doomed).push(e));
            assert(vao_ids(entries.filter(doomed)) =~= vao_ids(rest.filter(doomed)).push(e.vao.id));
            let unbound = if before.state.vertex_array == e.vao.id {
                let b = bind_vao_spec(before, 0);
                b.with_state(GlState { vertex_array: 0, ..b.state })
            } else {
                before
            };
            assert(deleted_vaos(unbound.commands) == deleted_vaos(before.commands)) by {
                if before.state.vertex_array == e.vao.id && before.state.vertex_array != 0 {
                    assert(unbound.commands.drop_last() == before.commands);
                }
            }
            assert(after.commands.drop_last() == unbound.commands);
            assert(deleted_vaos(after.commands) =~= deleted_vaos(c.commands) + vao_ids(entries.filter(doomed)));
        } else {
            assert(entries.filter(doomed) == rest.filter(doomed));
        }
    }
}

/// A purge deletes exactly the VAOs of the entries it dooms, in the cache's order: no VAO
/// leaves the cache without being destroyed, and none that stays is.
pub proof fn lemma_purge_deletes(c: ContextView, doomed: spec_fn(VaoEntry) -> bool)
    ensures
        deleted_vaos(purge_spec(c, doomed).commands) == deleted_vaos(c.commands) + vao_ids(
            c.vaos.filter(doomed),
        ),
{
    lemma_purge_steps_deletes(c.with_vaos(Seq::empty()), c.vaos, doomed);
}

/// The names of the VAOs that `after` deleted beyond those that `before` had deleted.
pub open spec fn purged_ids(before: ContextView, after: ContextView) -> Seq<u32> {
    deleted_vaos(after.commands).skip(deleted_vaos(before.commands).len() as int)
}

/// No name occurs twice.
pub open spec fn no_repeats(names: Seq<u32>) -> bool {
    forall|a: int, b: int| 0 <= a < b < names.len() ==> names[a] != names[b]
}

/// Filtering a pushed sequence.
proof fn lemma_filter_push(s: Seq<VaoEntry>, x: VaoEntry, p: spec_fn(VaoEntry) -> bool)
    ensures
        s.push(x).filter(p) == if p(x) {
            s.filter(p).push(x)
        } else {
            s.filter(p)
        },
{
    reveal_with_fuel(Seq::filter, 1);
    assert(s.push(x).drop_last() =~= s);
}

/// Two filters commute.
proof fn lemma_filter_commute(s: Seq<VaoEntry>, p: spec_fn(VaoEntry) -> bool, q: spec_fn(VaoEntry) -> bool)
    ensures
        s.filter(p).filter(q) == s.filter(q).filter(p),
    decreases s.len(),
{
    reveal_with_fuel(Seq::filter, 1);
    if s.len() > 0 {
        let r = s.drop_last();
        let x = s.last();
        lemma_filter_commute(r, p, q);
        lemma_filter_push(r.filter(p), x, q);
        lemma_filter_push(r.filter(q), x, p);
    }
}

/// A filtered cache holds a VAO of name `id` that `doomed` holds of exactly where the cache
/// holds one that both the filter and `doomed` hold of.
proof fn lemma_dooms_name_filter(
    s: Seq<VaoEntry>,
    p: spec_fn(VaoEntry) -> bool,
    doomed: spec_fn(VaoEntry) -> bool,
    id: u32,
)
    ensures
        dooms_name(s.filter(p), doomed, id) <==> exists|i: int|
            0 <= i < s.len() && p(#[trigger] s[i]) && doomed(s[i]) && s[i].vao.id == id,
{
    let f = s.filter(p);
    if dooms_name(f, doomed, id) {
        let k = choose|k: int| 0 <= k < f.len() && doomed(#[trigger] f[k]) && f[k].vao.id == id;
        s.lemma_filter_pred(p, k);
        assert(f.contains(f[k]));
        s.lemma_filter_contains_rev(p, f[k]);
        let i = choose|i: int| 0 <= i < s.len() && s[i] == f[k];
        assert(p(s[i]) && doomed(s[i]) && s[i].vao.id == id);
    }
    if exists|i: int| 0 <= i < s.len() && p(#[trigger] s[i]) && doomed(s[i]) && s[i].vao.id == id {
        let i = choose|i: int| 0 <= i < s.len() && p(#[trigger] s[i]) && doomed(s[i]) && s[i].vao.id == id;
        s.lemma_filter_contains(p, i);
        let k = choose|k: int| 0 <= k < f.len() && f[k] == s[i];
        assert(doomed(f[k]) && f[k].vao.id == id);
    }
}

/// One purge of a well-formed cache: it keeps the entries it does not doom, deletes the VAO of
/// each entry it dooms and of no other, each once, and leaves bound the VAO bound before, or
/// none where it deleted that one.
pub proof fn lemma_one_purge(c: ContextView, doomed: spec_fn(VaoEntry) -> bool)
    requires
        cache_wf(c.vaos),
    ensures
        ({
            let f = purge_spec(c, doomed);
            &&& f.vaos == c.vaos.filter(kept(doomed))
            &&& cache_wf(f.vaos)
            &&& deleted_vaos(f.commands) == deleted_vaos(c.commands) + purged_ids(c, f)
            &&& forall|id: u32| #[trigger] purged_ids(c, f).contains(id) <==> dooms_name(c.vaos, doomed, id)
            &&& no_repeats(purged_ids(c, f))
            &&& f.state.vertex_array == if dooms_name(c.vaos, doomed, c.state.vertex_array) {
                0
            } else {
                c.state.vertex_array
            }
            &&& f.state.array_buffer_binding == c.state.array_buffer_binding
            &&& f.version == c.version
            &&& f.extensions == c.extensions
        }),
{
    let f = purge_spec(c, doomed);
    lemma_purge(c, doomed);
    lemma_purge_deletes(c, doomed);
    lemma_purge_steps(c.with_vaos(Seq::empty()), c.vaos, doomed);
    let pre = deleted_vaos(c.commands);
    let gone = c.vaos.filter(doomed);
    let ids = vao_ids(gone);
    assert(purged_ids(c, f) =~= ids);
    lemma_filter_wf(c.vaos, doomed);
    assert forall|id: u32| #[trigger] purged_ids(c, f).contains(id) <==> dooms_name(c.vaos, doomed, id) by {
        if ids.contains(id) {
            let k = choose|k: int| 0 <= k < ids.len() && ids[k] == id;
            assert(gone[k].vao.id == id);
            c.vaos.lemma_filter_pred(doomed, k);
            assert(gone.contains(gone[k]));
            c.vaos.lemma_filter_contains_rev(doomed, gone[k]);
            let i = choose|i: int| 0 <= i < c.vaos.len() && c.vaos[i] == gone[k];
            assert(doomed(c.vaos[i]) && c.vaos[i].vao.id == id);
        }
        if dooms_name(c.vaos, doomed, id) {
            let i = choose|i: int|
                0 <= i < c.vaos.len() && doomed(#[trigger] c.vaos[i]) && c.vaos[i].vao.id == id;
            c.vaos.lemma_filter_contains(doomed, i);
            let k = choose|k: int| 0 <= k < gone.len() && gone[k] == c.vaos[i];
            assert(ids[k] == id);
        }
    }
    assert forall|a: int, b: int| 0 <= a < b < ids.len() implies ids[a] != ids[b] by {
        assert(gone[a].vao.id != gone[b].vao.id);
    }
}

/// Two purges in a row, of a well-formed cache: they keep the entries that neither dooms,
/// delete the VAO of each entry that either dooms and of no other, each once, and leave bound
/// the VAO bound before, or none where they deleted that one.
pub proof fn lemma_two_purges(
    c: ContextView,
    first: spec_fn(VaoEntry) -> bool,
    second: spec_fn(VaoEntry) -> bool,
)
    requires
        cache_wf(c.vaos),
    ensures
        ({
            let f = purge_spec(purge_spec(c, first), second);
            let va = c.state.vertex_array;
            &&& f.vaos == c.vaos.filter(kept(first)).filter(kept(second))
            &&& cache_wf(f.vaos)
            &&& forall|id: u32| #[trigger] purged_ids(c, f).contains(id) <==> (dooms_name(
                c.vaos,
                first,
                id,
            ) || dooms_name(c.vaos, second, id))
            &&& no_repeats(purged_ids(c, f))
            &&& f.state.vertex_array == if dooms_name(c.vaos, first, va) || dooms_name(
                c.vaos,
                second,
                va,
            ) {
                0
            } else {
                va
            }
            &&& f.state.array_buffer_binding == c.state.array_buffer_binding
        }),
{
    let m = purge_spec(c, first);
    let f = purge_spec(m, second);
    lemma_one_purge(c, first);
    lemma_one_purge(m, second);
    let p1 = purged_ids(c, m);
    let p2 = purged_ids(m, f);
    assert(purged_ids(c, f) =~= p1 + p2);
    assert forall|id: u32| #[trigger] purged_ids(c, f).contains(id) <==> (dooms_name(c.vaos, first, id)
        || dooms_name(c.vaos, second, id)) by {
        lemma_dooms_name_filter(c.vaos, kept(first), second, id);
        if (p1 + p2).contains(id) {
            let k = choose|k: int| 0 <= k < (p1 + p2).len() && (p1 + p2)[k] == id;
            if k < p1.len() {
                assert(p1.contains(id));
            } else {
                assert(p2[k - p1.len()] == id);
                assert(p2.contains(id));
                let i = choose|i: int|
                    0 <= i < c.vaos.len() && kept(first)(#[trigger] c.vaos[i]) && second(c.vaos[i])
                        && c.vaos[i].vao.id == id;
                assert(dooms_name(c.vaos, second, id));
            }
        }
        if dooms_name(c.vaos, first, id) {
            assert(p1.contains(id));
            let k = choose|k: int| 0 <= k < p1.len() && p1[k] == id;
            assert((p1 + p2)[k] == id);
        } else if dooms_name(c.vaos, second, id) {
            let i = choose|i: int|
                0 <= i < c.vaos.len() && second(#[trigger] c.vaos[i]) && c.vaos[i].vao.id == id;
            if first(c.vaos[i]) {
                assert(dooms_name(c.vaos, first, id));
            }
            assert(kept(first)(c.vaos[i]));
            assert(p2.contains(id));
            let k = choose|k: int| 0 <= k < p2.len() && p2[k] == id;
            assert((p1 + p2)[p1.len() + k] == id);
        }
    }
    assert forall|a: int, b: int| 0 <= a < b < (p1 + p2).len() implies (p1 + p2)[a] != (p1 + p2)[b] by {
        if b < p1.len() {
        } else if a >= p1.len() {
            assert((p1 + p2)[a] == p2[a - p1.len()] && (p1 + p2)[b] == p2[b - p1.len()]);
        } else {
            let id = p1[a];
            assert((p1 + p2)[b] == p2[b - p1.len()]);
            if p2[b - p1.len()] == id {
                assert(p1.contains(id));
                assert(p2.contains(id));
                let i = choose|i: int|
                    0 <= i < c.vaos.len() && first(#[trigger] c.vaos[i]) && c.vaos[i].vao.id == id;
                lemma_dooms_name_filter(c.vaos, kept(first), second, id);
                let j = choose|j: int|
                    0 <= j < c.vaos.len() && kept(first)(#[trigger] c.vaos[j]) && second(c.vaos[j])
                        && c.vaos[j].vao.id == id;
                if i < j {
                    assert(c.vaos[i].vao.id != c.vaos[j].vao.id);
                } else if j < i {
                    assert(c.vaos[j].vao.id != c.vaos[i].vao.id);
                }
            }
        }
    }
    let va = c.state.vertex_array;
    if dooms_name(c.vaos, first, va) {
        assert(m.state.vertex_array == 0);
        if dooms_name(m.vaos, second, 0) {
            let k = choose|k: int| 0 <= k < m.vaos.len() && second(#[trigger] m.vaos[k]) && m.vaos[k].vao.id == 0;
            assert(m.vaos[k].vao.id != 0);
        }
    } else {
        lemma_dooms_name_filter(c.vaos, kept(first), second, va);
        if dooms_name(c.vaos, second, va) {
            let i = choose|i: int|
                0 <= i < c.vaos.len() && second(#[trigger] c.vaos[i]) && c.vaos[i].vao.id == va;
            if first(c.vaos[i]) {
                assert(dooms_name(c.vaos, first, va));
            }
            assert(kept(first)(c.vaos[i]));
        }
    }
}

/// Purges by two conditions (by buffer and by program, say) commute: in either order they
/// leave the same cache and the same bindings, and delete the same VAOs, each once.
pub proof fn lemma_purges_commute(
    c: ContextView,
    first: spec_fn(VaoEntry) -> bool,
    second: spec_fn(VaoEntry) -> bool,
)
    requires
        cache_wf(c.vaos),
    ensures
        ({
            let one = purge_spec(purge_spec(c, first), second);
            let other = purge_spec(purge_spec(c, second), first);
            &&& one.vaos == other.vaos
            &&& one.state == other.state
            &&& forall|id: u32|
                #[trigger] purged_ids(c, one).contains(id) <==> purged_ids(c, other).contains(id)
            &&& no_repeats(purged_ids(c, one))
            &&& no_repeats(purged_ids(c, other))
        }),
{
    lemma_two_purges(c, first, second);
    lemma_two_purges(c, second, first);
    lemma_filter_commute(c.vaos, kept(first), kept(second));
}

/// A purge followed by a purge of everything does what the purge of everything alone does:
/// it empties the cache, leaves the same bindings, and deletes the same VAOs, each once.
pub proof fn lemma_purge_then_purge_all(
    c: ContextView,
    doomed: spec_fn(VaoEntry) -> bool,
    all: spec_fn(VaoEntry) -> bool,
)
    requires
        cache_wf(c.vaos),
        forall|e: VaoEntry| #[trigger] all(e),
    ensures
        ({
            let both = purge_spec(purge_spec(c, doomed), all);
            let alone = purge_spec(c, all);
            &&& both.vaos.len() == 0
            &&& alone.vaos.len() == 0
            &&& both.state == alone.state
            &&& forall|id: u32|
                #[trigger] purged_ids(c, both).contains(id) <==> purged_ids(c, alone).contains(id)
            &&& no_repeats(purged_ids(c, both))
            &&& no_repeats(purged_ids(c, alone))
        }),
{
    let both = purge_spec(purge_spec(c, doomed), all);
    let alone = purge_spec(c, all);
    lemma_two_purges(c, doomed, all);
    lemma_one_purge(c, all);
    lemma_one_purge(c, doomed);
    lemma_one_purge(purge_spec(c, doomed), all);
    assert(both.vaos.len() == 0) by {
        let m = purge_spec(c, doomed);
        if both.vaos.len() > 0 {
            m.vaos.lemma_filter_pred(kept(all), 0);
        }
    }
    assert(alone.vaos.len() == 0) by {
        if alone.vaos.len() > 0 {
            c.vaos.lemma_filter_pred(kept(all), 0);
        }
    }
    assert forall|id: u32| dooms_name(c.vaos, doomed, id) implies dooms_name(c.vaos, all, id) by {
        let i = choose|i: int| 0 <= i < c.vaos.len() && doomed(#[trigger] c.vaos[i]) && c.vaos[i].vao.id == id;
        assert(all(c.vaos[i]));
    }
}

/// A purge that dooms no entry changes nothing and issues no command.
pub proof fn lemma_purge_nothing(c: ContextView, none: spec_fn(VaoEntry) -> bool)
    requires
        forall|e: VaoEntry| !#[trigger] none(e),
    ensures
        purge_spec(c, none) == c,
{
    lemma_purge_steps_keeping(c.with_vaos(Seq::empty()), c.vaos, none);
    assert(Seq::<VaoEntry>::empty() + c.vaos =~= c.vaos);
}

/// A purge whose condition holds of every entry is the purge of the whole cache: it leaves the
/// context exactly as purging all does.
pub proof fn lemma_purge_everything(c: ContextView, all: spec_fn(VaoEntry) -> bool)
    requires
        forall|e: VaoEntry| #[trigger] all(e),
    ensures
        purge_spec(c, all) == purge_spec(c, |e: VaoEntry| true),
{
    assert(all =~= (|e: VaoEntry| true));
}

/// Purging entries that are all kept appends them to the cache and does nothing else.
proof fn lemma_purge_steps_keeping(c: ContextView, entries: Seq<VaoEntry>, none: spec_fn(VaoEntry) -> bool)
    requires
        forall|e: VaoEntry| !#[trigger] none(e),
    ensures
        purge_steps(c, entries, none) == c.with_vaos(c.vaos + entries),
    decreases entries.len(),
{
    if entries.len() == 0 {
        assert(c.vaos + entries =~= c.vaos);
    } else {
        lemma_purge_steps_keeping(c, entries.drop_last(), none);
        assert(!none(entries.last()));
        assert((c.vaos + entries.drop_last()).push(entries.last()) =~= c.vaos + entries);
    }
}

/// Binding a VAO a second time, right after binding it, issues nothing and changes nothing.
pub proof fn lemma_vao_bind_twice(c: ContextView, vao: VertexArrayObject)
    ensures
        vao_bind_spec(
            vao_bind_spec(c, vao),
            VertexArrayObject { element_array_buffer_hijacked: false, ..vao },
        ) == vao_bind_spec(c, vao),
{
}

/// Destroying a VAO right after creating it deletes its name through the entry points of the
/// context (those whose generator handed out the name), leaves no VAO bound and the cache as it
/// was.
pub proof fn lemma_destroy_after_new(
    c: ContextView,
    program: Program,
    ib: u32,
    buffers: Seq<VertexBuffer>,
    id: u32,
)
    requires
        c.vao_fns() is Some,
    ensures
        ({
            let created = new_vao_spec(c, program, ib, buffers, id);
            let vao = VertexArrayObject { id, element_array_buffer: ib, element_array_buffer_hijacked: false };
            let destroyed = destroy_spec(created, vao);
            &&& destroyed.state.vertex_array == 0
            &&& destroyed.commands.last() == GlCommand::DeleteVertexArray(c.vao_fns().unwrap(), id)
            &&& deleted_vaos(destroyed.commands) == deleted_vaos(created.commands).push(id)
            &&& destroyed.vaos == c.vaos
        }),
{
    let opened = bind_element_array_buffer_spec_frame(c, ib, id);
    lemma_attributes_frame(opened, program, buffers);
    let created = new_vao_spec(c, program, ib, buffers, id);
    let vao = VertexArrayObject { id, element_array_buffer: ib, element_array_buffer_hijacked: false };
    let destroyed = destroy_spec(created, vao);
    assert(created.state.vertex_array == id);
    let b = bind_vao_spec(created, 0);
    let unbound = b.with_state(GlState { vertex_array: 0, ..b.state });
    assert(deleted_vaos(unbound.commands) == deleted_vaos(created.commands)) by {
        if id != 0 {
            assert(unbound.commands.drop_last() == created.commands);
        }
    }
    assert(destroyed.commands.drop_last() == unbound.commands);
}

/// Purging by a buffer drops exactly the entries whose index buffer is that buffer or one of
/// whose vertex buffers is; every other entry stays, in its order.
pub proof fn lemma_purge_buffer_keeps(c: ContextView, id: u32)
    ensures
        purge_spec(c, |e: VaoEntry| uses_buffer(e, id)).vaos == c.vaos.filter(
            |e: VaoEntry|
                e.vao.element_array_buffer != id && forall|k: int|
                    0 <= k < e.buffers.len() ==> (#[trigger] e.buffers[k]).0 != id,
        ),
        ({
            let after = purge_spec(c, |e: VaoEntry| uses_buffer(e, id)).vaos;
            forall|e: VaoEntry|
                #[trigger] after.contains(e) <==> {
                    &&& c.vaos.contains(e)
                    &&& e.vao.element_array_buffer != id
                    &&& forall|k: int|
                        0 <= k < e.buffers.len() ==> (#[trigger] e.buffers[k]).0 != id
                }
        }),
{
    let doomed = |e: VaoEntry| uses_buffer(e, id);
    let stays = |e: VaoEntry|
        e.vao.element_array_buffer != id && forall|k: int|
            0 <= k < e.buffers.len() ==> (#[trigger] e.buffers[k]).0 != id;
    lemma_purge(c, doomed);
    assert(kept(doomed) =~= stays);
    let after = purge_spec(c, doomed);
    assert(after.vaos == c.vaos.filter(stays));
    assert forall|e: VaoEntry| #[trigger] after.vaos.contains(e) <==> (c.vaos.contains(e) && stays(e))
        by {
        if c.vaos.contains(e) && stays(e) {
            let i = choose|i: int| 0 <= i < c.vaos.len() && c.vaos[i] == e;
            c.vaos.lemma_filter_contains(stays, i);
        }
        if after.vaos.contains(e) {
            c.vaos.lemma_filter_contains_rev(stays, e);
            let j = choose|j: int| 0 <= j < after.vaos.len() && after.vaos[j] == e;
            c.vaos.lemma_filter_pred(stays, j);
        }
    }
}

/// Purging by a program drops exactly the entries built for that program; every other entry
/// stays, in its order.
pub proof fn lemma_purge_program_keeps(c: ContextView, program: Handle)
    ensures
        purge_spec(c, |e: VaoEntry| e.program == program).vaos == c.vaos.filter(
            |e: VaoEntry| e.program != program,
        ),
{
    let doomed = |e: VaoEntry| e.program == program;
    lemma_purge(c, doomed);
    assert(kept(doomed) =~= (|e: VaoEntry| e.program != program));
}

/// Binding the vertex sources of a cached VAO that carries the hijack note, while another VAO
/// is bound, binds that VAO and then its index buffer again, in exactly these two commands, and
/// clears the note.
pub proof fn lemma_bind_hijacked_elsewhere(
    c: ContextView,
    program: Program,
    ib: u32,
    buffers: Seq<VertexBuffer>,
    id: u32,
)
    requires
        c.vao_fns() is Some,
        c.buffer_fns() is Some,
        cache_wf(c.vaos),
        has_entry(c.vaos, buffers_view(buffers), ib, program.id),
        c.vaos[entry_for(c.vaos, buffers_view(buffers), ib, program.id)].vao.element_array_buffer_hijacked,
        c.vaos[entry_for(c.vaos, buffers_view(buffers), ib, program.id)].vao.id != c.state.vertex_array,
    ensures
        ({
            let i = entry_for(c.vaos, buffers_view(buffers), ib, program.id);
            let name = c.vaos[i].vao.id;
            let after = bind_spec(c, program, ib, buffers, id);
            &&& after.commands == c.commands.push(
                GlCommand::BindVertexArray(c.vao_fns().unwrap(), name),
            ).push(GlCommand::BindBuffer(c.buffer_fns().unwrap(), glenum::ELEMENT_ARRAY_BUFFER, ib))
            &&& after.state.vertex_array == name
            &&& after.vaos.len() == c.vaos.len()
            &&& !after.vaos[i].vao.element_array_buffer_hijacked
            &&& after.vaos[i].vao.id == name
        }),
{
    lemma_entry_for_in(c.vaos, buffers_view(buffers), ib, program.id);
}

/// A program attribute whose name is that of some binding, at any position of any vertex
/// buffer's format, is not missing.
pub proof fn lemma_named_attribute_is_present(
    buffers: Seq<VertexBuffer>,
    name: Seq<char>,
    i: int,
    j: int,
)
    requires
        0 <= i < buffers.len(),
        0 <= j < buffers[i].1@.len(),
        buffers[i].1@[j].0@ == name,
    ensures
        !attribute_missing(buffers, name),
{
    assert(buffers[i].1@[j].0@ == name);
}

/// A program attribute that no binding of any vertex buffer names is missing: the vertex
/// buffers are not compatible with the program, and checking them fails.
pub proof fn lemma_unnamed_attribute_is_missing(program: Program, buffers: Seq<VertexBuffer>, k: int)
    requires
        0 <= k < program.attributes@.len(),
        forall|i: int, j: int|
            0 <= i < buffers.len() && 0 <= j < buffers[i].1@.len() ==> (
            #[trigger] buffers[i].1@[j]).0@ != program.attributes@[k].0@,
    ensures
        attribute_missing(buffers, program.attributes@[k].0@),
        !attributes_compatible(program, buffers),
{
    assert(attribute_missing(buffers, program.attributes@[k].0@));
}

/// Vertex buffers whose bindings all match the program, and that hold for each program
/// attribute a binding of its name (at any position in any buffer), are compatible with the
/// program: checking them succeeds.
pub proof fn lemma_covered_attributes_are_compatible(program: Program, buffers: Seq<VertexBuffer>)
    requires
        forall|i: int, j: int|
            0 <= i < buffers.len() && 0 <= j < buffers[i].1@.len() ==> !binding_mismatch(
                program,
                #[trigger] buffers[i].1@[j],
            ),
        forall|k: int|
            0 <= k < program.attributes@.len() ==> exists|i: int, j: int|
                0 <= i < buffers.len() && 0 <= j < buffers[i].1@.len() && (
                #[trigger] buffers[i].1@[j]).0@ == (#[trigger] program.attributes@[k]).0@,
    ensures
        attributes_compatible(program, buffers),
{
    assert forall|k: int| 0 <= k < program.attributes@.len() implies !attribute_missing(
        buffers,
        (#[trigger] program.attributes@[k]).0@,
    ) by {
        let (i, j) = choose|i: int, j: int|
            0 <= i < buffers.len() && 0 <= j < buffers[i].1@.len() && (
            #[trigger] buffers[i].1@[j]).0@ == program.attributes@[k].0@;
        lemma_named_attribute_is_present(buffers, program.attributes@[k].0@, i, j);
    }
}

} // verus!
