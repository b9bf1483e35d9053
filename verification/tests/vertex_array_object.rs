use glium_vao::context::{
    Api, AttribPointerKind, BufferFns, CommandContext, ExtensionsList, GlCommand, GlState,
    VaoFns, Version,
};
use glium_vao::glenum;
use glium_vao::program::{Attribute, Handle, Program};
use glium_vao::vertex::{clone_format, AttributeType, VertexFormat};
use glium_vao::vertex_array_object::{
    vertex_binding_type_to_gl, BindError, BufferViewAnySlice, PurgeCondition, VertexArrayObject,
    VertexAttributesSystem,
};

fn no_extensions() -> ExtensionsList {
    ExtensionsList {
        gl_arb_vertex_array_object: false,
        gl_oes_vertex_array_object: false,
        gl_apple_vertex_array_object: false,
        gl_arb_vertex_buffer_object: false,
    }
}

fn gl33() -> CommandContext {
    CommandContext::new(Version(Api::Gl, 3, 3), no_extensions())
}

fn gl21() -> CommandContext {
    CommandContext::new(Version(Api::Gl, 2, 1), no_extensions())
}

fn position_program(id: u32) -> Program {
    Program {
        id: Handle::Id(id),
        attributes: vec![(
            "position".to_string(),
            Attribute { location: 0, ty: AttributeType::F32F32F32, size: 1 },
        )],
    }
}

fn position_format() -> VertexFormat {
    vec![("position".to_string(), 0, AttributeType::F32F32F32)]
}

fn slice(id: u32, offset_bytes: usize, elements_size: usize) -> BufferViewAnySlice {
    BufferViewAnySlice { id, offset_bytes, elements_size }
}

fn position_pointer(offset: usize, stride: i32) -> GlCommand {
    GlCommand::VertexAttribPointer {
        kind: AttribPointerKind::Float,
        index: 0,
        size: 3,
        data_type: glenum::FLOAT,
        stride,
        offset,
    }
}

#[test]
fn binding_types_map_to_gl_types() {
    assert_eq!(vertex_binding_type_to_gl(AttributeType::I8), (glenum::BYTE, 1));
    assert_eq!(vertex_binding_type_to_gl(AttributeType::U8U8U8U8), (glenum::UNSIGNED_BYTE, 4));
    assert_eq!(vertex_binding_type_to_gl(AttributeType::I16I16), (glenum::SHORT, 2));
    assert_eq!(vertex_binding_type_to_gl(AttributeType::U16U16U16), (glenum::UNSIGNED_SHORT, 3));
    assert_eq!(vertex_binding_type_to_gl(AttributeType::I32), (glenum::INT, 1));
    assert_eq!(vertex_binding_type_to_gl(AttributeType::U32U32), (glenum::UNSIGNED_INT, 2));
    assert_eq!(vertex_binding_type_to_gl(AttributeType::F32F32F32), (glenum::FLOAT, 3));
    assert_eq!(vertex_binding_type_to_gl(AttributeType::F64F64F64F64), (glenum::DOUBLE, 4));
    assert_eq!(vertex_binding_type_to_gl(AttributeType::F32x2x2), (glenum::FLOAT_MAT2, 1));
    assert_eq!(vertex_binding_type_to_gl(AttributeType::F32x2x3), (glenum::FLOAT_MAT2x3, 1));
    assert_eq!(vertex_binding_type_to_gl(AttributeType::F32x4x4), (glenum::FLOAT_MAT4, 1));
    assert_eq!(vertex_binding_type_to_gl(AttributeType::F64x3x3), (glenum::DOUBLE_MAT3, 1));
    assert_eq!(vertex_binding_type_to_gl(AttributeType::F64x4x3), (glenum::DOUBLE_MAT4x3, 1));
    assert_eq!(glenum::FLOAT_MAT3, 0x8B5B);
    assert_eq!(glenum::ELEMENT_ARRAY_BUFFER, 0x8893);
}

#[test]
fn components_are_counted() {
    assert_eq!(AttributeType::F32.get_num_components(), 1);
    assert_eq!(AttributeType::I8I8I8.get_num_components(), 3);
    assert_eq!(AttributeType::F32x2x3.get_num_components(), 6);
    assert_eq!(AttributeType::F64x4x4.get_num_components(), 16);
    assert_eq!(AttributeType::F32x3x4.get_num_components(), 12);
}

#[test]
fn versions_compare_within_one_api() {
    assert!(Version(Api::Gl, 3, 0).at_least(Api::Gl, 3, 0));
    assert!(Version(Api::Gl, 4, 0).at_least(Api::Gl, 3, 2));
    assert!(!Version(Api::Gl, 2, 1).at_least(Api::Gl, 3, 0));
    assert!(!Version(Api::GlEs, 3, 0).at_least(Api::Gl, 3, 0));
    assert!(Version(Api::GlEs, 3, 1).at_least(Api::GlEs, 3, 0));
}

#[test]
fn entry_points_follow_version_and_extensions() {
    assert_eq!(gl33().get_vao_fns(), Some(VaoFns::Core));
    assert_eq!(gl21().get_vao_fns(), None);
    let mut ext = no_extensions();
    ext.gl_oes_vertex_array_object = true;
    let es2 = CommandContext::new(Version(Api::GlEs, 2, 0), ext);
    assert_eq!(es2.get_vao_fns(), Some(VaoFns::Oes));
    assert_eq!(es2.get_buffer_fns(), Some(BufferFns::Core));
    let mut ext = no_extensions();
    ext.gl_apple_vertex_array_object = true;
    ext.gl_arb_vertex_buffer_object = true;
    let old = CommandContext::new(Version(Api::Gl, 1, 4), ext);
    assert_eq!(old.get_vao_fns(), Some(VaoFns::Apple));
    assert_eq!(old.get_buffer_fns(), Some(BufferFns::Arb));
    let mut ext = no_extensions();
    ext.gl_arb_vertex_array_object = true;
    ext.gl_oes_vertex_array_object = true;
    assert_eq!(CommandContext::new(Version(Api::Gl, 2, 1), ext).get_vao_fns(), Some(VaoFns::Core));
    assert_eq!(CommandContext::new(Version(Api::Gl, 1, 4), no_extensions()).get_buffer_fns(), None);
}

#[test]
fn program_finds_attributes_by_name() {
    let program = Program {
        id: Handle::Id(3),
        attributes: vec![
            ("a".to_string(), Attribute { location: 1, ty: AttributeType::F32, size: 1 }),
            ("b".to_string(), Attribute { location: 2, ty: AttributeType::I32, size: 1 }),
        ],
    };
    assert_eq!(program.get_attribute(&"b".to_string()).map(|a| a.location), Some(2));
    assert_eq!(program.get_attribute(&"c".to_string()), None);
    assert_eq!(program.get_id(), Handle::Id(3));
}

#[test]
fn formats_are_copied() {
    let format = position_format();
    let copy = clone_format(&format);
    assert_eq!(copy, format);
}

#[test]
fn first_bind_builds_and_caches_a_vao() {
    let mut ctxt = gl33();
    let program = position_program(1);
    let format = position_format();
    let mut asked = None;
    VertexAttributesSystem::start(&program, 9)
        .add(&slice(5, 16, 12), &format, None)
        .bind(&mut ctxt, |fns| {
            asked = Some(fns);
            7
        });
    assert_eq!(asked, Some(VaoFns::Core));
    assert_eq!(
        ctxt.commands,
        vec![
            GlCommand::BindVertexArray(VaoFns::Core, 7),
            GlCommand::BindBuffer(BufferFns::Core, glenum::ELEMENT_ARRAY_BUFFER, 9),
            GlCommand::BindBuffer(BufferFns::Core, glenum::ARRAY_BUFFER, 5),
            position_pointer(16, 12),
            GlCommand::EnableVertexAttribArray(0),
        ]
    );
    assert_eq!(ctxt.state, GlState { vertex_array: 7, array_buffer_binding: 5 });
    assert_eq!(ctxt.vertex_array_objects.entries().len(), 1);
    let entry = &ctxt.vertex_array_objects.entries()[0];
    assert_eq!(entry.buffers, vec![(5, position_format(), 16, 12, None)]);
    assert_eq!(entry.program, Handle::Id(1));
    assert_eq!(
        entry.vao,
        VertexArrayObject { id: 7, element_array_buffer: 9, element_array_buffer_hijacked: false }
    );
}

#[test]
fn second_bind_of_the_same_sources_is_silent() {
    let mut ctxt = gl33();
    let program = position_program(1);
    let format = position_format();
    VertexAttributesSystem::start(&program, 9).add(&slice(5, 0, 12), &format, None).bind(&mut ctxt, |_| 7);
    let issued = ctxt.commands.len();
    VertexAttributesSystem::start(&program, 9)
        .add(&slice(5, 0, 12), &format, None)
        .bind(&mut ctxt, |_| panic!("no new VAO is needed"));
    assert_eq!(ctxt.commands.len(), issued);
    assert_eq!(ctxt.vertex_array_objects.entries().len(), 1);
}

#[test]
fn order_of_added_buffers_does_not_matter() {
    let mut ctxt = gl33();
    let program = Program {
        id: Handle::Id(1),
        attributes: vec![
            ("position".to_string(), Attribute { location: 0, ty: AttributeType::F32F32F32, size: 1 }),
            ("color".to_string(), Attribute { location: 1, ty: AttributeType::U8U8U8U8, size: 1 }),
        ],
    };
    let positions = position_format();
    let colors: VertexFormat = vec![("color".to_string(), 0, AttributeType::U8U8U8U8)];
    VertexAttributesSystem::start(&program, 9)
        .add(&slice(5, 0, 12), &positions, None)
        .add(&slice(4, 0, 4), &colors, None)
        .bind(&mut ctxt, |_| 7);
    assert_eq!(ctxt.vertex_array_objects.entries().len(), 1);
    assert_eq!(ctxt.state.vertex_array, 7);
    let issued = ctxt.commands.len();
    VertexAttributesSystem::start(&program, 9)
        .add(&slice(4, 0, 4), &colors, None)
        .add(&slice(5, 0, 12), &positions, None)
        .bind(&mut ctxt, |_| panic!("no new VAO is needed"));
    assert_eq!(ctxt.commands.len(), issued);
    assert_eq!(ctxt.state.vertex_array, 7);
    assert_eq!(ctxt.vertex_array_objects.entries().len(), 1);
}

#[test]
fn reordered_buffers_reuse_the_vao_after_another_was_bound() {
    let mut ctxt = gl33();
    let program = Program {
        id: Handle::Id(1),
        attributes: vec![
            ("position".to_string(), Attribute { location: 0, ty: AttributeType::F32F32F32, size: 1 }),
            ("color".to_string(), Attribute { location: 1, ty: AttributeType::U8U8U8U8, size: 1 }),
        ],
    };
    let positions = position_format();
    let colors: VertexFormat = vec![("color".to_string(), 0, AttributeType::U8U8U8U8)];
    VertexAttributesSystem::start(&program, 9)
        .add(&slice(5, 0, 12), &positions, None)
        .add(&slice(4, 0, 4), &colors, None)
        .bind(&mut ctxt, |_| 7);
    VertexAttributesSystem::start(&program, 9)
        .add(&slice(6, 0, 12), &positions, None)
        .add(&slice(4, 0, 4), &colors, None)
        .bind(&mut ctxt, |_| 8);
    assert_eq!(ctxt.state.vertex_array, 8);
    let issued = ctxt.commands.len();
    VertexAttributesSystem::start(&program, 9)
        .add(&slice(4, 0, 4), &colors, None)
        .add(&slice(5, 0, 12), &positions, None)
        .bind(&mut ctxt, |_| panic!("no new VAO is needed"));
    assert_eq!(ctxt.commands[issued..].to_vec(), vec![GlCommand::BindVertexArray(VaoFns::Core, 7)]);
    assert_eq!(ctxt.state.vertex_array, 7);
    assert_eq!(ctxt.vertex_array_objects.entries().len(), 2);
}

#[test]
fn a_buffer_added_twice_is_not_the_buffer_added_once() {
    let mut ctxt = gl33();
    let program = position_program(1);
    let format = position_format();
    VertexAttributesSystem::start(&program, 9)
        .add(&slice(5, 0, 12), &format, None)
        .bind(&mut ctxt, |_| 7);
    VertexAttributesSystem::start(&program, 9)
        .add(&slice(5, 0, 12), &format, None)
        .add(&slice(5, 0, 12), &format, None)
        .bind(&mut ctxt, |_| 8);
    assert_eq!(ctxt.state.vertex_array, 8);
    assert_eq!(ctxt.vertex_array_objects.entries().len(), 2);
}

#[test]
fn vertex_and_index_buffers_keep_their_roles() {
    let mut ctxt = gl33();
    let program = position_program(1);
    let format = position_format();
    VertexAttributesSystem::start(&program, 5).add(&slice(9, 0, 12), &format, None).bind(&mut ctxt, |_| 7);
    let issued = ctxt.commands.len();
    VertexAttributesSystem::start(&program, 9).add(&slice(5, 0, 12), &format, None).bind(&mut ctxt, |_| 8);
    assert_eq!(
        ctxt.commands[issued..].to_vec(),
        vec![
            GlCommand::BindVertexArray(VaoFns::Core, 8),
            GlCommand::BindBuffer(BufferFns::Core, glenum::ELEMENT_ARRAY_BUFFER, 9),
            GlCommand::BindBuffer(BufferFns::Core, glenum::ARRAY_BUFFER, 5),
            position_pointer(0, 12),
            GlCommand::EnableVertexAttribArray(0),
        ]
    );
    assert_eq!(ctxt.vertex_array_objects.entries().len(), 2);
    assert_eq!(ctxt.vertex_array_objects.entries()[1].vao.element_array_buffer, 9);
}

#[test]
fn another_divisor_gets_its_own_vao() {
    let mut ctxt = gl33();
    let program = position_program(1);
    let format = position_format();
    VertexAttributesSystem::start(&program, 9).add(&slice(5, 0, 12), &format, Some(1)).bind(&mut ctxt, |_| 7);
    let issued = ctxt.commands.len();
    VertexAttributesSystem::start(&program, 9).add(&slice(5, 0, 12), &format, Some(2)).bind(&mut ctxt, |_| 8);
    assert_eq!(
        ctxt.commands[issued..].to_vec(),
        vec![
            GlCommand::BindVertexArray(VaoFns::Core, 8),
            GlCommand::BindBuffer(BufferFns::Core, glenum::ELEMENT_ARRAY_BUFFER, 9),
            position_pointer(0, 12),
            GlCommand::VertexAttribDivisor(0, 2),
            GlCommand::EnableVertexAttribArray(0),
        ]
    );
    assert_eq!(ctxt.vertex_array_objects.entries().len(), 2);
}

#[test]
fn another_stride_or_format_gets_its_own_vao() {
    let mut ctxt = gl33();
    let program = position_program(1);
    let format = position_format();
    let shifted: VertexFormat = vec![("position".to_string(), 4, AttributeType::F32F32F32)];
    VertexAttributesSystem::start(&program, 9).add(&slice(5, 0, 12), &format, None).bind(&mut ctxt, |_| 7);
    VertexAttributesSystem::start(&program, 9).add(&slice(5, 0, 16), &format, None).bind(&mut ctxt, |_| 8);
    VertexAttributesSystem::start(&program, 9).add(&slice(5, 0, 16), &shifted, None).bind(&mut ctxt, |_| 10);
    assert_eq!(ctxt.vertex_array_objects.entries().len(), 3);
    assert_eq!(ctxt.state.vertex_array, 10);
}

#[test]
fn purge_of_the_index_buffer_destroys_its_vaos() {
    let mut ctxt = gl33();
    let program = position_program(1);
    let format = position_format();
    VertexAttributesSystem::start(&program, 9).add(&slice(5, 0, 12), &format, None).bind(&mut ctxt, |_| 7);
    let issued = ctxt.commands.len();
    VertexAttributesSystem::purge_buffer(&mut ctxt, 9);
    assert_eq!(
        ctxt.commands[issued..].to_vec(),
        vec![GlCommand::BindVertexArray(VaoFns::Core, 0), GlCommand::DeleteVertexArray(VaoFns::Core, 7)]
    );
    assert!(ctxt.vertex_array_objects.entries().is_empty());
}

#[test]
fn purges_commute_and_delete_each_vao_once() {
    let program = position_program(1);
    let other = position_program(2);
    let format = position_format();
    let build = || {
        let mut ctxt = gl33();
        VertexAttributesSystem::start(&program, 9).add(&slice(5, 0, 12), &format, None).bind(&mut ctxt, |_| 7);
        VertexAttributesSystem::start(&other, 9).add(&slice(5, 0, 12), &format, None).bind(&mut ctxt, |_| 8);
        VertexAttributesSystem::start(&other, 9).add(&slice(6, 0, 12), &format, None).bind(&mut ctxt, |_| 10);
        ctxt.commands.clear();
        ctxt
    };
    let deleted = |ctxt: &CommandContext| {
        let mut ids: Vec<u32> = ctxt
            .commands
            .iter()
            .filter_map(|c| match c {
                GlCommand::DeleteVertexArray(_, id) => Some(*id),
                _ => None,
            })
            .collect();
        ids.sort();
        ids
    };
    let mut one = build();
    VertexAttributesSystem::purge_buffer(&mut one, 6);
    VertexAttributesSystem::purge_program(&mut one, Handle::Id(1));
    let mut other_order = build();
    VertexAttributesSystem::purge_program(&mut other_order, Handle::Id(1));
    VertexAttributesSystem::purge_buffer(&mut other_order, 6);
    assert_eq!(deleted(&one), vec![7, 10]);
    assert_eq!(deleted(&other_order), vec![7, 10]);
    assert_eq!(one.state, other_order.state);
    assert_eq!(one.vertex_array_objects.entries().len(), 1);
    assert_eq!(other_order.vertex_array_objects.entries()[0].vao.id, 8);
    VertexAttributesSystem::purge_all(&mut one);
    let mut all = build();
    VertexAttributesSystem::purge_all(&mut all);
    assert_eq!(deleted(&one), vec![7, 8, 10]);
    assert_eq!(deleted(&all), vec![7, 8, 10]);
    assert_eq!(one.state, all.state);
}

#[test]
fn purge_conditions_tell_what_they_remove() {
    let mut ctxt = gl33();
    let program = position_program(1);
    let format = position_format();
    VertexAttributesSystem::start(&program, 9).add(&slice(5, 0, 12), &format, None).bind(&mut ctxt, |_| 7);
    assert!(PurgeCondition::Buffer(5).dooms_any(&ctxt));
    assert!(PurgeCondition::Buffer(9).dooms_any(&ctxt));
    assert!(!PurgeCondition::Buffer(6).dooms_any(&ctxt));
    assert!(PurgeCondition::Program(Handle::Id(1)).dooms_any(&ctxt));
    assert!(!PurgeCondition::Program(Handle::Id(2)).dooms_any(&ctxt));
    assert!(PurgeCondition::All.dooms_any(&ctxt));
}

#[test]
fn other_program_gets_its_own_vao() {
    let mut ctxt = gl33();
    let first = position_program(1);
    let second = position_program(2);
    let format = position_format();
    VertexAttributesSystem::start(&first, 9).add(&slice(5, 0, 12), &format, None).bind(&mut ctxt, |_| 7);
    VertexAttributesSystem::start(&second, 9).add(&slice(5, 0, 12), &format, None).bind(&mut ctxt, |_| 8);
    assert_eq!(ctxt.vertex_array_objects.entries().len(), 2);
    assert_eq!(ctxt.state.vertex_array, 8);
}

#[test]
fn hijacked_vao_rebinds_its_index_buffer() {
    let mut ctxt = gl33();
    let program = position_program(1);
    let format = position_format();
    VertexAttributesSystem::start(&program, 9).add(&slice(5, 0, 12), &format, None).bind(&mut ctxt, |_| 7);
    VertexAttributesSystem::hijack_current_element_array_buffer(&mut ctxt);
    assert!(ctxt.vertex_array_objects.entries()[0].vao.element_array_buffer_hijacked);
    let issued = ctxt.commands.len();
    VertexAttributesSystem::start(&program, 9).add(&slice(5, 0, 12), &format, None).bind(&mut ctxt, |_| 8);
    assert_eq!(
        ctxt.commands[issued..].to_vec(),
        vec![GlCommand::BindBuffer(BufferFns::Core, glenum::ELEMENT_ARRAY_BUFFER, 9)]
    );
    assert!(!ctxt.vertex_array_objects.entries()[0].vao.element_array_buffer_hijacked);
}

#[test]
fn hijack_without_bound_vao_changes_nothing() {
    let mut ctxt = gl33();
    let program = position_program(1);
    let format = position_format();
    VertexAttributesSystem::start(&program, 9).add(&slice(5, 0, 12), &format, None).bind(&mut ctxt, |_| 7);
    ctxt.state.vertex_array = 0;
    VertexAttributesSystem::hijack_current_element_array_buffer(&mut ctxt);
    assert!(!ctxt.vertex_array_objects.entries()[0].vao.element_array_buffer_hijacked);
}

#[test]
fn purge_buffer_destroys_the_vaos_that_use_it() {
    let mut ctxt = gl33();
    let program = position_program(1);
    let format = position_format();
    VertexAttributesSystem::start(&program, 9).add(&slice(5, 0, 12), &format, None).bind(&mut ctxt, |_| 7);
    VertexAttributesSystem::start(&program, 9).add(&slice(6, 0, 12), &format, None).bind(&mut ctxt, |_| 8);
    let issued = ctxt.commands.len();
    VertexAttributesSystem::purge_buffer(&mut ctxt, 6);
    assert_eq!(
        ctxt.commands[issued..].to_vec(),
        vec![
            GlCommand::BindVertexArray(VaoFns::Core, 0),
            GlCommand::DeleteVertexArray(VaoFns::Core, 8),
        ]
    );
    assert_eq!(ctxt.state.vertex_array, 0);
    assert_eq!(ctxt.vertex_array_objects.entries().len(), 1);
    assert_eq!(ctxt.vertex_array_objects.entries()[0].vao.id, 7);
    let issued = ctxt.commands.len();
    VertexAttributesSystem::purge_buffer(&mut ctxt, 9);
    assert_eq!(ctxt.commands[issued..].to_vec(), vec![GlCommand::DeleteVertexArray(VaoFns::Core, 7)]);
    assert_eq!(ctxt.vertex_array_objects.entries().len(), 0);
}

#[test]
fn purge_program_keeps_the_other_programs_vaos() {
    let mut ctxt = gl33();
    let first = position_program(1);
    let second = position_program(2);
    let format = position_format();
    VertexAttributesSystem::start(&first, 9).add(&slice(5, 0, 12), &format, None).bind(&mut ctxt, |_| 7);
    VertexAttributesSystem::start(&second, 9).add(&slice(5, 0, 12), &format, None).bind(&mut ctxt, |_| 8);
    let issued = ctxt.commands.len();
    VertexAttributesSystem::purge_program(&mut ctxt, Handle::Id(1));
    assert_eq!(ctxt.commands[issued..].to_vec(), vec![GlCommand::DeleteVertexArray(VaoFns::Core, 7)]);
    assert_eq!(ctxt.state.vertex_array, 8);
    assert_eq!(ctxt.vertex_array_objects.entries().len(), 1);
    assert_eq!(ctxt.vertex_array_objects.entries()[0].program, Handle::Id(2));
}

#[test]
fn purge_all_and_cleanup_empty_the_cache() {
    for cleanup in [false, true] {
        let mut ctxt = gl33();
        let program = position_program(1);
        let format = position_format();
        VertexAttributesSystem::start(&program, 9).add(&slice(5, 0, 12), &format, None).bind(&mut ctxt, |_| 7);
        VertexAttributesSystem::start(&program, 9).add(&slice(6, 0, 12), &format, None).bind(&mut ctxt, |_| 8);
        let issued = ctxt.commands.len();
        if cleanup {
            VertexAttributesSystem::cleanup(&mut ctxt);
        } else {
            VertexAttributesSystem::purge_all(&mut ctxt);
        }
        assert_eq!(
            ctxt.commands[issued..].to_vec(),
            vec![
                GlCommand::DeleteVertexArray(VaoFns::Core, 7),
                GlCommand::BindVertexArray(VaoFns::Core, 0),
                GlCommand::DeleteVertexArray(VaoFns::Core, 8),
            ]
        );
        assert!(ctxt.vertex_array_objects.entries().is_empty());
        assert_eq!(ctxt.state.vertex_array, 0);
    }
}

#[test]
fn purge_of_an_empty_cache_issues_nothing() {
    let mut ctxt = gl21();
    VertexAttributesSystem::purge_all(&mut ctxt);
    VertexAttributesSystem::purge_buffer(&mut ctxt, 3);
    assert!(ctxt.commands.is_empty());
}

#[test]
fn without_vaos_buffers_are_bound_directly() {
    let mut ctxt = gl21();
    let program = position_program(1);
    let format = position_format();
    VertexAttributesSystem::start(&program, 9)
        .add(&slice(5, 8, 12), &format, Some(2))
        .bind(&mut ctxt, |_| panic!("VAOs are not supported"));
    assert_eq!(
        ctxt.commands,
        vec![
            GlCommand::BindBuffer(BufferFns::Core, glenum::ELEMENT_ARRAY_BUFFER, 9),
            GlCommand::BindBuffer(BufferFns::Core, glenum::ARRAY_BUFFER, 5),
            position_pointer(8, 12),
            GlCommand::VertexAttribDivisor(0, 2),
            GlCommand::EnableVertexAttribArray(0),
        ]
    );
    assert!(ctxt.vertex_array_objects.entries().is_empty());
    assert_eq!(ctxt.state.vertex_array, 0);
}

#[test]
fn arb_buffer_objects_are_used_on_old_contexts() {
    let mut ext = no_extensions();
    ext.gl_arb_vertex_buffer_object = true;
    let mut ctxt = CommandContext::new(Version(Api::Gl, 1, 4), ext);
    ctxt.state.array_buffer_binding = 5;
    let program = position_program(1);
    let format = position_format();
    VertexAttributesSystem::start(&program, 9).add(&slice(5, 0, 12), &format, None).bind(&mut ctxt, |_| 0);
    assert_eq!(
        ctxt.commands,
        vec![
            GlCommand::BindBuffer(BufferFns::Arb, glenum::ELEMENT_ARRAY_BUFFER, 9),
            position_pointer(0, 12),
            GlCommand::EnableVertexAttribArray(0),
        ]
    );
}

#[test]
fn attribute_pointer_follows_the_program_type() {
    let mut ctxt = gl21();
    let program = Program {
        id: Handle::Id(1),
        attributes: vec![
            ("id".to_string(), Attribute { location: 2, ty: AttributeType::I32, size: 1 }),
            ("weight".to_string(), Attribute { location: 3, ty: AttributeType::F64, size: 1 }),
            ("unused".to_string(), Attribute { location: -1, ty: AttributeType::F32, size: 1 }),
        ],
    };
    let format: VertexFormat = vec![
        ("id".to_string(), 0, AttributeType::I32),
        ("weight".to_string(), 4, AttributeType::F64),
        ("unused".to_string(), 12, AttributeType::F32),
        ("extra".to_string(), 16, AttributeType::F32),
    ];
    VertexAttributesSystem::start(&program, 9).add(&slice(5, 100, 20), &format, None).bind(&mut ctxt, |_| 0);
    assert_eq!(
        ctxt.commands,
        vec![
            GlCommand::BindBuffer(BufferFns::Core, glenum::ELEMENT_ARRAY_BUFFER, 9),
            GlCommand::BindBuffer(BufferFns::Core, glenum::ARRAY_BUFFER, 5),
            GlCommand::VertexAttribPointer {
                kind: AttribPointerKind::Integer,
                index: 2,
                size: 1,
                data_type: glenum::INT,
                stride: 20,
                offset: 100,
            },
            GlCommand::EnableVertexAttribArray(2),
            GlCommand::VertexAttribPointer {
                kind: AttribPointerKind::Double,
                index: 3,
                size: 1,
                data_type: glenum::DOUBLE,
                stride: 20,
                offset: 104,
            },
            GlCommand::EnableVertexAttribArray(3),
        ]
    );
}

#[test]
fn check_accepts_matching_sources() {
    let ctxt = gl33();
    let program = position_program(1);
    let format = position_format();
    let binder = VertexAttributesSystem::start(&program, 9).add(&slice(5, 0, 12), &format, None);
    assert_eq!(binder.check(&ctxt), Ok(()));
}

#[test]
fn check_reports_a_type_mismatch() {
    let ctxt = gl33();
    let program = position_program(1);
    let format: VertexFormat = vec![("position".to_string(), 0, AttributeType::F32F32)];
    let binder = VertexAttributesSystem::start(&program, 9).add(&slice(5, 0, 8), &format, None);
    assert_eq!(binder.check(&ctxt), Err(BindError::AttributeMismatch { buffer: 0, binding: 0 }));
    let array_program = Program {
        id: Handle::Id(1),
        attributes: vec![(
            "position".to_string(),
            Attribute { location: 0, ty: AttributeType::F32F32F32, size: 2 },
        )],
    };
    let format = position_format();
    let binder = VertexAttributesSystem::start(&array_program, 9).add(&slice(5, 0, 12), &format, None);
    assert_eq!(binder.check(&ctxt), Err(BindError::AttributeMismatch { buffer: 0, binding: 0 }));
}

#[test]
fn check_reports_a_missing_attribute() {
    let ctxt = gl33();
    let program = Program {
        id: Handle::Id(1),
        attributes: vec![
            ("position".to_string(), Attribute { location: 0, ty: AttributeType::F32F32F32, size: 1 }),
            ("normal".to_string(), Attribute { location: 1, ty: AttributeType::F32F32F32, size: 1 }),
        ],
    };
    let format = position_format();
    let binder = VertexAttributesSystem::start(&program, 9).add(&slice(5, 0, 12), &format, None);
    assert_eq!(binder.check(&ctxt), Err(BindError::MissingAttribute(1)));
    assert_eq!(
        VertexArrayObject::check_attributes(&vec![(5, format, 0, 12, None)], &program),
        Err(BindError::MissingAttribute(1))
    );
}

#[test]
fn check_reports_the_first_mismatch_before_missing_attributes() {
    let ctxt = gl33();
    let program = Program {
        id: Handle::Id(1),
        attributes: vec![
            ("position".to_string(), Attribute { location: 0, ty: AttributeType::F32F32F32, size: 1 }),
            ("color".to_string(), Attribute { location: 1, ty: AttributeType::U8U8U8U8, size: 1 }),
            ("normal".to_string(), Attribute { location: 2, ty: AttributeType::F32F32F32, size: 1 }),
        ],
    };
    let positions = position_format();
    let bad_colors: VertexFormat = vec![
        ("unused".to_string(), 0, AttributeType::F32),
        ("color".to_string(), 4, AttributeType::U8U8),
        ("position".to_string(), 8, AttributeType::F32),
    ];
    let binder = VertexAttributesSystem::start(&program, 9)
        .add(&slice(5, 0, 12), &positions, None)
        .add(&slice(4, 0, 12), &bad_colors, None);
    assert_eq!(binder.check(&ctxt), Err(BindError::AttributeMismatch { buffer: 1, binding: 1 }));
    let buffers = vec![(5, clone_format(&positions), 0, 12, None), (4, bad_colors, 0, 12, None)];
    assert_eq!(
        VertexArrayObject::check_attributes(&buffers, &program),
        Err(BindError::AttributeMismatch { buffer: 1, binding: 1 })
    );
    let only_positions = vec![(5, positions, 0, 12, None)];
    assert_eq!(
        VertexArrayObject::check_attributes(&only_positions, &program),
        Err(BindError::MissingAttribute(1))
    );
}

#[test]
fn check_reports_missing_entry_points() {
    let program = position_program(1);
    let format = position_format();
    let old = CommandContext::new(Version(Api::Gl, 1, 4), no_extensions());
    let binder = VertexAttributesSystem::start(&program, 9).add(&slice(5, 0, 12), &format, None);
    assert_eq!(binder.check(&old), Err(BindError::NoBufferObjects));
    let mut bound = gl21();
    bound.state.vertex_array = 4;
    assert_eq!(binder.check(&bound), Err(BindError::VertexArrayBound));
}

#[test]
fn check_reports_an_offset_overflow() {
    let ctxt = gl21();
    let program = position_program(1);
    let format: VertexFormat = vec![("position".to_string(), 8, AttributeType::F32F32F32)];
    let binder = VertexAttributesSystem::start(&program, 9).add(&slice(5, usize::MAX - 4, 12), &format, None);
    assert_eq!(binder.check(&ctxt), Err(BindError::OffsetOverflow { buffer: 0, binding: 0 }));
}

#[test]
fn destroy_unbinds_the_current_vao() {
    let mut ctxt = gl33();
    ctxt.state.vertex_array = 7;
    VertexArrayObject { id: 7, element_array_buffer: 9, element_array_buffer_hijacked: false }
        .destroy(&mut ctxt);
    assert_eq!(
        ctxt.commands,
        vec![GlCommand::BindVertexArray(VaoFns::Core, 0), GlCommand::DeleteVertexArray(VaoFns::Core, 7)]
    );
    assert_eq!(ctxt.state.vertex_array, 0);
    assert_eq!(VertexArrayObject { id: 3, element_array_buffer: 0, element_array_buffer_hijacked: false }.get_id(), 3);
}
