use cube_viewer::color::{hex_color, parse_hex_color, set_channel_text, Rgb8, RGB};
use cube_viewer::controller::{
    direction_for_key, direction_to_vector, drag_rotation_steps, Axis, ControlEvent, Controller,
    Direction, Reaction, RotationStep,
};
use cube_viewer::geometry::{
    cube_attribute_layouts, cube_corners, cube_draw, cube_indices, quad_attribute_layouts,
    quad_corners, quad_draw, quad_indices,
};
use cube_viewer::orientation::{Orientation, PITCH_LIMIT};
use cube_viewer::render::{MatrixSource, Phase, Renderer};
use cube_viewer::scroll::CrossSectionOffset;
use cube_viewer::shader::{compile_result, created, link_result};

#[test]
fn wheel_offset_accumulates() {
    let mut o = CrossSectionOffset::new();
    o.apply_wheel(100);
    o.apply_wheel(-50);
    o.apply_wheel(100);
    // 150 hundredths: an offset of 1.5 depth units.
    assert_eq!(o.hundredths, 150);
    let mut p = CrossSectionOffset::new();
    p.apply_wheels(&vec![100, -50, 100]);
    assert_eq!(p, o);
}

#[test]
fn wheel_offset_saturates() {
    let mut o = CrossSectionOffset { hundredths: i64::MAX - 10 };
    o.apply_wheel(100);
    assert_eq!(o.hundredths, i64::MAX);
    o.apply_wheel(-5);
    assert_eq!(o.hundredths, i64::MAX - 5);
    let mut n = CrossSectionOffset { hundredths: i64::MIN + 1 };
    n.apply_wheel(-2);
    assert_eq!(n.hundredths, i64::MIN);
}

#[test]
fn one_frame_draws_36_and_6_indices() {
    let mut r = Renderer::new();
    let first = r.next_frame();
    assert!(first.set_up);
    assert_eq!(first.cube.draw.index_count, 36);
    assert_eq!(first.cross_section.draw.index_count, 6);
    assert_eq!(r.phase, Phase::Ready);
    let second = r.next_frame();
    assert!(!second.set_up);
    assert_eq!(second.cube.draw.index_count, 36);
    assert_eq!(second.cross_section.draw.index_count, 6);
}

#[test]
fn passes_bind_the_right_matrices() {
    let mut r = Renderer::new();
    let plan = r.next_frame();
    let c = plan.cube;
    assert_eq!(
        (c.model, c.view, c.projection, c.clear_depth),
        (MatrixSource::Model, MatrixSource::CameraView, MatrixSource::CameraProjection, true)
    );
    let s = plan.cross_section;
    assert_eq!(
        (s.model, s.view, s.projection, s.clear_depth),
        (MatrixSource::Model, MatrixSource::Model, MatrixSource::UnitOrthographic, false)
    );
    assert_eq!(r.next_frame().cross_section, s);
}

#[test]
fn set_up_happens_once_over_many_frames() {
    let mut r = Renderer::new();
    let mut setups = 0;
    for _ in 0..10 {
        if r.next_frame().set_up {
            setups += 1;
        }
    }
    assert_eq!(setups, 1);
}

#[test]
fn draws_cover_the_index_buffers() {
    assert_eq!(cube_draw().index_count as usize, cube_indices().len());
    assert_eq!(quad_draw().index_count as usize, quad_indices().len());
    assert!(cube_indices().iter().all(|&i| i < 8));
    assert!(quad_indices().iter().all(|&i| i < 4));
    assert_eq!(&cube_indices()[..6], &[0, 1, 2, 2, 3, 0]);
    assert_eq!(&cube_indices()[30..], &[0, 1, 5, 5, 4, 0]);
}

#[test]
fn cube_corners_are_distinct() {
    let c = cube_corners();
    assert_eq!(c.len(), 8);
    for i in 0..8 {
        for j in (i + 1)..8 {
            assert_ne!((c[i].x, c[i].y, c[i].z), (c[j].x, c[j].y, c[j].z));
            assert_ne!((c[i].r, c[i].g, c[i].b), (c[j].r, c[j].g, c[j].b));
        }
    }
    assert_eq!((c[2].x, c[2].y, c[2].z, c[2].r, c[2].g, c[2].b), (1, 1, 1, 1, 1, 1));
    let q = quad_corners();
    assert_eq!(q.len(), 4);
    assert_eq!((q[1].x, q[1].y, q[1].r, q[1].g, q[1].b), (1, -1, 0, 1, 1));
}

#[test]
fn attribute_layouts_match_interleaving() {
    let (p, c) = cube_attribute_layouts();
    assert_eq!((p.components, p.stride, p.offset), (3, 24, 0));
    assert_eq!((c.components, c.stride, c.offset), (3, 24, 12));
    let (p, c) = quad_attribute_layouts();
    assert_eq!((p.components, p.stride, p.offset), (2, 20, 0));
    assert_eq!((c.components, c.stride, c.offset), (3, 20, 8));
}

#[test]
fn pitch_is_clamped() {
    let mut o = Orientation::new();
    assert_eq!((o.yaw, o.pitch), (-90_000, 0));
    o.rotate(0, 80_000);
    assert_eq!(o.pitch, 80_000);
    o.rotate(0, 20_000);
    assert_eq!(o.pitch, PITCH_LIMIT);
    o.rotate(0, -500_000);
    assert_eq!(o.pitch, -PITCH_LIMIT);
    o.rotate(0, i64::MAX);
    assert_eq!(o.pitch, PITCH_LIMIT);
    o.rotate(0, i64::MIN);
    assert_eq!(o.pitch, -PITCH_LIMIT);
}

#[test]
fn pitch_stays_limited_over_many_rotations() {
    let mut o = Orientation::new();
    let deltas = [37_000i64, 91_000, -3_000, -250_000, 12_345, 400_000, -89_001];
    for (k, &d) in deltas.iter().enumerate() {
        o.rotate(d * (k as i64 + 1), d);
        assert!(o.pitch >= -89_000 && o.pitch <= 89_000);
    }
}

#[test]
fn yaw_adds_up_without_wrapping() {
    let mut o = Orientation::new();
    o.rotate(360_000, 0);
    assert_eq!(o.yaw, 270_000);
    o.rotate(-1_000_000, 0);
    assert_eq!(o.yaw, -730_000);
    o.rotate(i64::MIN, 0);
    assert_eq!(o.yaw, i64::MIN);
    o.rotate(5, 0);
    assert_eq!(o.yaw, i64::MIN + 5);
    o.rotate(i64::MAX, 0);
    assert_eq!(o.yaw, 4);
    o.rotate(i64::MAX, 0);
    assert_eq!(o.yaw, i64::MAX);
}

#[test]
fn keys_map_to_unit_directions() {
    assert_eq!(direction_for_key("w"), Some(Direction::Forward));
    assert_eq!(direction_for_key("s"), Some(Direction::Backward));
    assert_eq!(direction_for_key("a"), Some(Direction::Left));
    assert_eq!(direction_for_key("d"), Some(Direction::Right));
    assert_eq!(direction_for_key("W"), None);
    assert_eq!(direction_for_key("ww"), None);
    assert_eq!(direction_for_key(""), None);
    assert_eq!(direction_for_key("ArrowUp"), None);
    assert_eq!(direction_to_vector(Direction::Forward), (0, 0, 1));
    assert_eq!(direction_to_vector(Direction::Backward), (0, 0, -1));
    assert_eq!(direction_to_vector(Direction::Left), (-1, 0, 0));
    assert_eq!(direction_to_vector(Direction::Right), (1, 0, 0));
}

#[test]
fn controller_reacts_to_events() {
    let mut c = Controller::new();
    let r = c.update(ControlEvent::KeyDown(Some(Direction::Left)));
    assert_eq!(r, Reaction { move_camera: Some(Direction::Left), rerender: true });
    let r = c.update(ControlEvent::KeyDown(None));
    assert_eq!(r, Reaction { move_camera: None, rerender: false });
    assert_eq!(c, Controller::new());

    c.update(ControlEvent::MouseMove(10, 20));
    assert_eq!((c.rotation_x, c.rotation_y), (10, 20));
    c.update(ControlEvent::MouseMove(7, 25));
    assert_eq!((c.rotation_x, c.rotation_y), (-3, 5));
    assert_eq!((c.last_mouse_x, c.last_mouse_y), (7, 25));
    assert!(!c.is_mouse_down);

    c.update(ControlEvent::MouseDown);
    assert!(c.is_mouse_down);
    c.update(ControlEvent::MouseMove(i32::MIN, i32::MAX));
    assert_eq!(c.rotation_x, i32::MIN as i64 - 7);
    assert_eq!(c.rotation_y, i32::MAX as i64 - 25);
    let r = c.update(ControlEvent::MouseUp);
    assert!(r.rerender);
    assert!(!c.is_mouse_down);
}

#[test]
fn drag_turns_about_y_then_x() {
    let steps = drag_rotation_steps(4, -9);
    assert_eq!(
        steps,
        vec![
            RotationStep { axis: Axis::Y, drag: 4 },
            RotationStep { axis: Axis::X, drag: -9 },
        ]
    );
}

#[test]
fn setup_outcomes() {
    assert_eq!(created(Some(3u32)), Ok(3));
    assert_eq!(created::<u32>(None), Err("Unable to create shader object".to_string()));
    assert_eq!(compile_result(1u8, Some(true), None), Ok(1));
    assert_eq!(
        compile_result(1u8, Some(false), Some("syntax error".to_string())),
        Err("syntax error".to_string())
    );
    assert_eq!(compile_result(1u8, None, None), Err("Unknown error creating shader".to_string()));
    assert_eq!(
        link_result(2u8, Some(false), None),
        Err("Unknown error creating program object".to_string())
    );
    assert_eq!(link_result(2u8, Some(true), Some("warning".to_string())), Ok(2));
}

#[test]
fn hex_colors_read_and_write() {
    assert_eq!(parse_hex_color(b"#ffffff"), Some(Rgb8 { r: 255, g: 255, b: 255 }));
    assert_eq!(parse_hex_color(b"#1A2b3C"), Some(Rgb8 { r: 0x1a, g: 0x2b, b: 0x3c }));
    assert_eq!(parse_hex_color(b"#12345"), None);
    assert_eq!(parse_hex_color(b"#12345g"), None);
    assert_eq!(hex_color(Rgb8 { r: 0, g: 0x7f, b: 0xab }), b"#007fab".to_vec());
    for v in [0u8, 1, 9, 10, 15, 16, 127, 200, 255] {
        let c = Rgb8 { r: v, g: 255 - v, b: v / 3 };
        assert_eq!(parse_hex_color(&hex_color(c)), Some(c));
    }
}

#[test]
fn channel_text_is_replaced_in_place() {
    let mut t = b"#ffffff".to_vec();
    set_channel_text(&mut t, RGB::Green, 0x0c);
    assert_eq!(t, b"#ff0cff".to_vec());
    set_channel_text(&mut t, RGB::Blue, 0xa0);
    assert_eq!(t, b"#ff0ca0".to_vec());
    set_channel_text(&mut t, RGB::Red, 0);
    assert_eq!(parse_hex_color(&t), Some(Rgb8 { r: 0, g: 0x0c, b: 0xa0 }));
}
