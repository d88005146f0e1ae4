use imgui_luminance::draw::{plan_draw_list, plan_frame, DrawCall, DrawCommand};
use imgui_luminance::input::{input_update, Action, InputEvent, InputUpdate, KEY_TABLE_LEN};
use imgui_luminance::semantics::Semantics;
use imgui_luminance::texture::{TextureBinding, TextureTable, FONT_TEXTURE_ID};
use imgui_luminance::vertex::{convert_vertices, DrawVert, Vertex};

fn cmd(count: usize, texture_id: usize, visible: bool) -> DrawCommand {
    DrawCommand { count, texture_id, visible }
}

fn call(start: usize, end: usize, texture: TextureBinding) -> Option<DrawCall> {
    Some(DrawCall { start, end, texture })
}

#[test]
fn vertex_conversion_keeps_order_and_values() {
    let a = DrawVert {
        pos: [1.5f32.to_bits(), (-2.25f32).to_bits()],
        uv: [0.125f32.to_bits(), 1.0f32.to_bits()],
        col: [1, 2, 3, 255],
    };
    let b = DrawVert {
        pos: [1e30f32.to_bits(), 0.0f32.to_bits()],
        uv: [(-0.0f32).to_bits(), 3.75f32.to_bits()],
        col: [255, 0, 128, 7],
    };
    let out = convert_vertices(&vec![a, b]);
    assert_eq!(out.len(), 2);
    assert_eq!(f32::from_bits(out[0].position[0]), 1.5);
    assert_eq!(f32::from_bits(out[0].position[1]), -2.25);
    assert_eq!(f32::from_bits(out[0].tex_coord[0]), 0.125);
    assert_eq!(f32::from_bits(out[0].tex_coord[1]), 1.0);
    assert_eq!(out[0].color, [1, 2, 3, 255]);
    assert_eq!(f32::from_bits(out[1].position[0]), 1e30);
    assert_eq!(out[1].tex_coord, b.uv);
    assert_eq!(out[1].color, [255, 0, 128, 7]);
}

#[test]
fn vertex_conversion_of_empty_buffer() {
    assert!(convert_vertices(&vec![]).is_empty());
}

#[test]
fn vertex_from_draw_vert() {
    let v = DrawVert { pos: [1, 2], uv: [3, 4], col: [5, 6, 7, 8] };
    let w = Vertex::from(v);
    assert_eq!(w, Vertex { position: [1, 2], color: [5, 6, 7, 8], tex_coord: [3, 4] });
}

#[test]
fn unregistered_texture_falls_back_to_font() {
    let table = TextureTable::new();
    assert_eq!(table.resolve(0), TextureBinding::Font);
    assert_eq!(table.resolve(42), TextureBinding::Font);
    assert_eq!(table.resolve(FONT_TEXTURE_ID), TextureBinding::Font);
    assert_eq!(table.lookup_texture(42), Err(42));
    assert_eq!(table.lookup_texture(FONT_TEXTURE_ID), Ok(TextureBinding::Font));
}

#[test]
fn registered_textures_resolve_to_their_slot() {
    let mut table = TextureTable::new();
    assert_eq!(table.register(7), Some(0));
    assert_eq!(table.register(9), Some(1));
    assert_eq!(table.resolve(0), TextureBinding::Registered(7));
    assert_eq!(table.resolve(1), TextureBinding::Registered(9));
    assert_eq!(table.lookup_texture(1), Ok(TextureBinding::Registered(9)));
    assert_eq!(table.resolve(2), TextureBinding::Font);
}

#[test]
fn two_font_commands_make_two_calls() {
    let table = TextureTable::new();
    let cmds = vec![cmd(3, FONT_TEXTURE_ID, true), cmd(6, FONT_TEXTURE_ID, true)];
    let plan = plan_draw_list(&table, &cmds);
    assert_eq!(
        plan,
        vec![call(0, 3, TextureBinding::Font), call(3, 9, TextureBinding::Font)]
    );
}

#[test]
fn index_ranges_tile_the_buffer() {
    let table = TextureTable::new();
    let counts = [4usize, 0, 7, 1, 12];
    let cmds: Vec<DrawCommand> = counts.iter().map(|c| cmd(*c, 5, true)).collect();
    let plan = plan_draw_list(&table, &cmds);
    let mut expected_start = 0;
    for (p, c) in plan.iter().zip(counts.iter()) {
        let p = p.unwrap();
        assert_eq!(p.start, expected_start);
        assert_eq!(p.end, p.start + c);
        expected_start = p.end;
    }
    assert_eq!(expected_start, 24);
}

#[test]
fn culled_command_is_skipped_but_advances_indices() {
    let mut table = TextureTable::new();
    let id = table.register(3).unwrap();
    let cmds = vec![cmd(3, id, true), cmd(6, id, false), cmd(9, 77, true)];
    let plan = plan_draw_list(&table, &cmds);
    assert_eq!(
        plan,
        vec![call(0, 3, TextureBinding::Registered(3)), None, call(9, 18, TextureBinding::Font)]
    );
}

#[test]
fn empty_draw_list_has_no_calls() {
    let table = TextureTable::new();
    assert!(plan_draw_list(&table, &vec![]).is_empty());
}

#[test]
fn frame_plan_restarts_indices_per_list() {
    let table = TextureTable::new();
    let lists = vec![vec![cmd(3, 0, true), cmd(3, 0, true)], vec![], vec![cmd(6, 0, true)]];
    let plan = plan_frame(&table, &lists);
    assert_eq!(plan.len(), 3);
    assert_eq!(plan[0], vec![call(0, 3, TextureBinding::Font), call(3, 6, TextureBinding::Font)]);
    assert!(plan[1].is_empty());
    assert_eq!(plan[2], vec![call(0, 6, TextureBinding::Font)]);
}

#[test]
fn backspace_is_not_queued() {
    assert_eq!(input_update(&InputEvent::Char('\u{7f}')), InputUpdate::Ignore);
    assert_eq!(input_update(&InputEvent::Char('a')), InputUpdate::PushChar('a'));
    assert_eq!(input_update(&InputEvent::Char('\u{8}')), InputUpdate::PushChar('\u{8}'));
}

#[test]
fn typed_characters_keep_event_order() {
    let events = vec![
        InputEvent::Char('h'),
        InputEvent::Char('\u{7f}'),
        InputEvent::Other,
        InputEvent::Char('é'),
        InputEvent::Char('!'),
    ];
    let queued: Vec<char> = events
        .iter()
        .filter_map(|e| match input_update(e) {
            InputUpdate::PushChar(c) => Some(c),
            _ => None,
        })
        .collect();
    assert_eq!(queued, vec!['h', 'é', '!']);
}

#[test]
fn key_events_set_the_key_table() {
    let press = InputEvent::Key { code: 65, action: Action::Press };
    let release = InputEvent::Key { code: 65, action: Action::Release };
    let repeat = InputEvent::Key { code: 511, action: Action::Repeat };
    assert_eq!(input_update(&press), InputUpdate::SetKey { index: 65, down: true });
    assert_eq!(input_update(&release), InputUpdate::SetKey { index: 65, down: false });
    assert_eq!(input_update(&repeat), InputUpdate::SetKey { index: 511, down: false });
}

#[test]
fn key_codes_outside_the_table_are_ignored() {
    let unknown = InputEvent::Key { code: -1, action: Action::Press };
    let large = InputEvent::Key { code: KEY_TABLE_LEN as i32, action: Action::Press };
    assert_eq!(input_update(&unknown), InputUpdate::Ignore);
    assert_eq!(input_update(&large), InputUpdate::Ignore);
}

#[test]
fn primary_mouse_buttons_are_forwarded() {
    for b in 0..3u32 {
        let e = InputEvent::MouseButton { button: b, action: Action::Press };
        assert_eq!(
            input_update(&e),
            InputUpdate::SetMouseButton { index: b as usize, down: true }
        );
    }
    let released = InputEvent::MouseButton { button: 2, action: Action::Release };
    assert_eq!(
        input_update(&released),
        InputUpdate::SetMouseButton { index: 2, down: false }
    );
    let fourth = InputEvent::MouseButton { button: 3, action: Action::Press };
    assert_eq!(input_update(&fourth), InputUpdate::Ignore);
    assert_eq!(input_update(&InputEvent::Other), InputUpdate::Ignore);
}

#[test]
fn semantics_names_and_slots() {
    assert_eq!(Semantics::Position.name(), "pos");
    assert_eq!(Semantics::TexCoord.name(), "uv");
    assert_eq!(Semantics::Color.name(), "col");
    assert_eq!(Semantics::Position.index(), 0);
    assert_eq!(Semantics::TexCoord.index(), 1);
    assert_eq!(Semantics::Color.index(), 2);
}
