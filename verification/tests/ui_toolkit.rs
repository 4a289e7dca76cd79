use retained_ui::geom::{clamp_coord_exec, clamp_size_exec, Vec2, COORD_LIMIT};
use retained_ui::image::Image;
use retained_ui::texture::Texture;
use retained_ui::ui::object::{Color, Object, Padding, Reaction, ShaderType};
use retained_ui::ui::Manager;
use retained_ui::errors::Error;

fn icon() -> Image {
    Image::from_raw(2, 2, 4, vec![0u8; 16]).unwrap()
}

fn manager(w: i64, h: i64) -> Manager {
    Manager::create(w, h, icon(), icon(), icon())
}

fn tex(id: u32) -> Texture {
    Texture::from_raw(id)
}

#[test]
fn clamping_respects_the_budget() {
    assert_eq!(clamp_coord_exec(COORD_LIMIT + 5), COORD_LIMIT);
    assert_eq!(clamp_coord_exec(-COORD_LIMIT - 5), -COORD_LIMIT);
    assert_eq!(clamp_coord_exec(42), 42);
    assert_eq!(clamp_size_exec(-3), 0);
    assert_eq!(clamp_size_exec(7), 7);
}

#[test]
fn image_parts_must_fit_together() {
    let img = Image::from_raw(2, 3, 4, vec![1u8; 24]).unwrap();
    assert_eq!(img.get_width(), 2);
    assert_eq!(img.get_height(), 3);
    assert_eq!(img.get_channel_count(), 4);
    assert_eq!(img.get_data().len(), 24);
    assert!(Image::from_raw(2, 3, 4, vec![1u8; 23]).is_err());
}

#[test]
fn global_position_is_base_plus_local() {
    // P1: after any mutator, global_pos == base_pos + local_pos.
    let mut node = Object::create(0, "node", Vec2::new(800, 600));
    node.set_base_pos(Some(100), Some(50));
    node.set_local_pos(Some(7), Some(-3));
    assert_eq!(node.global_pos, Vec2::new(107, 47));
    node.set_base_pos(Some(-20), None);
    assert_eq!(node.global_pos, Vec2::new(-13, 47));
    assert_eq!(node.global_pos.x, node.base_pos.x + node.local_pos.x);
    assert_eq!(node.global_pos.y, node.base_pos.y + node.local_pos.y);
}

#[test]
fn children_follow_the_parent() {
    // P2: after a position-affecting mutator, every child's base_pos is
    // the parent's global position, recursively.
    let vp = Vec2::new(800, 600);
    let mut parent = Object::create(0, "parent", vp);
    let mut child = Object::create(1, "child", vp);
    let grandchild = Object::create(2, "grandchild", vp);
    child.add_child(grandchild);
    parent.set_base_pos(Some(10), Some(20));
    parent.add_child(child);
    parent.set_local_pos(Some(5), Some(6));
    assert_eq!(parent.global_pos, Vec2::new(15, 26));
    assert_eq!(parent.children[0].base_pos, Vec2::new(15, 26));
    let child_global = parent.children[0].global_pos;
    assert_eq!(parent.children[0].children[0].base_pos, child_global);
}

#[test]
fn negative_sizes_clamp_to_zero() {
    let mut node = Object::create(0, "node", Vec2::new(800, 600));
    node.set_size(Some(-5), Some(10));
    assert_eq!(node.width, 0);
    assert_eq!(node.height, 10);
}

#[test]
fn hit_testing_is_idempotent() {
    // P3: the same cursor twice resolves the same hovered child and
    // fires no duplicate enter/leave the second time.
    let vp = Vec2::new(800, 600);
    let mut parent = Object::create(0, "parent", vp);
    parent.set_size(Some(200), Some(200));
    let mut a = Object::create(1, "a", vp);
    a.set_size(Some(100), Some(100));
    a.set_mouse_on_event(Reaction::Custom(7));
    a.set_mouse_off_event(Reaction::Custom(8));
    parent.add_child(a);
    let first = parent.on_cursor_pos_event(50, 50);
    assert_eq!(parent.on_cursor_child, Some(0));
    assert_eq!(first, vec![7]);
    let second = parent.on_cursor_pos_event(50, 50);
    assert_eq!(parent.on_cursor_child, Some(0));
    assert!(second.is_empty());
}

#[test]
fn promotion_keeps_hover_on_the_same_node() {
    // P4: promoting a sibling keeps a stored hover index pointing at
    // the same logical node.
    let vp = Vec2::new(800, 600);
    let mut parent = Object::create(0, "parent", vp);
    for id in 0..3usize {
        let mut c = Object::create(id, "child", vp);
        c.set_size(Some(10), Some(10));
        c.set_local_pos(Some(id as i64 * 10), None);
        parent.add_child(c);
    }
    parent.on_cursor_pos_event(15, 5);
    assert_eq!(parent.on_cursor_child, Some(1));
    parent.bring_to_front(0);
    assert_eq!(parent.on_cursor_child, Some(0));
    assert_eq!(parent.children[0].id, 1);
    parent.bring_to_front(0);
    assert_eq!(parent.children[2].id, 1);
    assert_eq!(parent.on_cursor_child, Some(2));
}

#[test]
fn window_drag_scenario() {
    // P6 (with the press inside the title band, which by the
    // border-thickness rule starts at the frame border): window at
    // (0,0), frame 300 x 200; press at (20,20) starts a move with the
    // cursor gap recorded; moving by (45,35) moves the frame by the
    // same amount; release ends the move and keeps the position.
    let mut m = manager(800, 600);
    m.add_window("w", tex(1), tex(2), tex(3));
    m.windows[0].set_background_size(Some(300), Some(200));
    m.on_cursor_pos_event(20, 20);
    assert_eq!(m.on_cursor_window, Some(0));
    m.on_mouse_down_event(true);
    assert!(m.windows[0].moving);
    m.on_cursor_pos_event(65, 55);
    assert_eq!(m.windows[0].pos, Vec2::new(45, 35));
    m.on_mouse_down_event(false);
    assert!(!m.windows[0].moving);
    assert_eq!(m.windows[0].pos, Vec2::new(45, 35));
}

#[test]
fn press_on_the_border_corner_starts_a_diagonal_resize() {
    // A press within border thickness of two adjacent edges sets both
    // resize flags (corner resize), not a move.
    let mut m = manager(800, 600);
    m.add_window("w", tex(1), tex(2), tex(3));
    m.windows[0].set_background_size(Some(300), Some(200));
    m.on_cursor_pos_event(5, 5);
    m.on_mouse_down_event(true);
    assert!(m.windows[0].sizing_top);
    assert!(m.windows[0].sizing_left);
    assert!(!m.windows[0].moving);
}

#[test]
fn resize_floor_pins_the_right_edge() {
    // P5: dragging the left edge past the right edge clamps the width
    // to the chrome floor and pins the right edge in place.
    let mut m = manager(800, 600);
    m.add_window("w", tex(1), tex(2), tex(3));
    // frame is 216 x 190 for a 800 x 600 viewport
    assert_eq!(m.windows[0].background_width, 216);
    m.on_cursor_pos_event(5, 50);
    m.on_mouse_down_event(true);
    assert!(m.windows[0].sizing_left);
    m.on_cursor_pos_event(1000, 50);
    assert_eq!(m.windows[0].background_width, 112); // 2 * 8 + 4 * 24
    assert_eq!(m.windows[0].pos.x + m.windows[0].background_width, 216);
    m.on_mouse_down_event(false);
    assert!(!m.windows[0].sizing_left);
}

#[test]
fn overlapping_windows_resolve_hover_to_the_front() {
    // P7: in the overlap of a back window A and a front window B, the
    // cursor resolves to B.
    let mut m = manager(800, 600);
    m.add_window("a", tex(1), tex(2), tex(3));
    m.add_window("b", tex(4), tex(5), tex(6));
    assert_eq!(m.windows[0].pos, Vec2::new(0, 0));
    assert_eq!(m.windows[1].pos, Vec2::new(100, 75));
    // (150, 100) lies inside both frames (each 216 x 190)
    m.on_cursor_pos_event(150, 100);
    assert_eq!(m.on_cursor_window, Some(1));
    assert_eq!(m.windows[1].name, "b");
}

#[test]
fn close_button_closes_and_the_sweep_removes() {
    // P8: press and release on the hovered close button set the
    // window's closed flag; the next render pass removes the window
    // and clears the hover index that pointed at it.
    let mut m = manager(800, 600);
    m.add_window("w", tex(1), tex(2), tex(3));
    // close button occupies [160, 208) x [0, 24) of the 216-wide frame
    m.on_cursor_pos_event(170, 10);
    assert_eq!(m.on_cursor_window, Some(0));
    assert_eq!(m.windows[0].on_cursor_element, Some(2));
    m.on_mouse_down_event(true);
    assert!(m.windows[0].elements[2].pressed);
    m.on_mouse_down_event(false);
    assert!(m.windows[0].closed);
    let quads = m.render();
    assert!(m.windows.is_empty());
    assert_eq!(m.on_cursor_window, None);
    assert_eq!(m.prev_on_cursor_window, None);
    assert!(quads.is_empty());
}

#[test]
fn render_sweeps_closed_children() {
    let vp = Vec2::new(800, 600);
    let mut parent = Object::create(0, "parent", vp);
    parent.set_size(Some(100), Some(100));
    let mut a = Object::create(1, "a", vp);
    a.closed = true;
    parent.add_child(a);
    parent.add_child(Object::create(2, "b", vp));
    let quads = parent.render();
    assert_eq!(parent.children.len(), 1);
    assert_eq!(parent.children[0].id, 2);
    // five quads for the parent and five for the surviving child
    assert_eq!(quads.len(), 10);
}

#[test]
fn content_quad_is_inset_by_border_and_padding() {
    let vp = Vec2::new(800, 600);
    let mut node = Object::create(0, "node", vp);
    node.set_size(Some(100), Some(80));
    node.set_border_size(Some(2), Some(3), Some(4), Some(5));
    node.set_padding(Some(1), Some(1), Some(1), Some(1));
    node.set_background_color(Color::from_u8(9, 8, 7, 6));
    let quads = node.quads();
    assert_eq!(quads.len(), 5);
    let content = quads[4];
    assert_eq!(content.v0, Vec2::new(6, 3)); // left + pad, top + pad
    assert_eq!(content.v3, Vec2::new(96, 75)); // w - (right + pad), h - (bottom + pad)
    assert_eq!(content.color, Color::from_u8(9, 8, 7, 6));
    let top = quads[0];
    assert_eq!(top.v0, Vec2::new(0, 0));
    assert_eq!(top.v1, Vec2::new(100, 0));
    assert_eq!(top.v2, Vec2::new(5, 2));
    assert_eq!(top.v3, Vec2::new(97, 2));
}

#[test]
fn flat_shading_drops_the_texture() {
    let vp = Vec2::new(800, 600);
    let mut node = Object::create(0, "node", vp);
    node.enable_texture(Texture::from_raw(9));
    node.set_shader_type(ShaderType::Mix);
    assert!(node.texture.is_some());
    node.set_texture(&icon());
    assert_eq!(node.width, 2);
    assert_eq!(node.height, 2);
    node.set_shader_type(ShaderType::Color);
    assert!(node.texture.is_none());
}

#[test]
fn viewport_resize_reaches_every_node() {
    let mut m = manager(800, 600);
    m.add_window("w", tex(1), tex(2), tex(3));
    m.on_frame_buffer_size_event(1024, 768);
    assert_eq!(m.frame_buffer_size, Vec2::new(1024, 768));
    assert_eq!(m.windows[0].viewport, Vec2::new(1024, 768));
    assert_eq!(m.windows[0].elements[0].viewport, Vec2::new(1024, 768));
    assert_eq!(m.windows[0].elements[2].children[0].viewport, Vec2::new(1024, 768));
}

#[test]
fn button_reactions_repaint_the_background() {
    let mut m = manager(800, 600);
    m.add_window("w", tex(1), tex(2), tex(3));
    m.on_cursor_pos_event(170, 10); // hover the close button
    assert_eq!(
        m.windows[0].elements[2].background_color,
        Color::from_u8(160, 32, 32, 255)
    );
    m.on_cursor_pos_event(400, 100); // leave it (content area)
    assert_eq!(
        m.windows[0].elements[2].background_color,
        Color::from_u8(160, 64, 64, 255)
    );
}

#[test]
fn padding_builders_fill_edges() {
    let p = Padding::from_2v(3, 9);
    assert_eq!(p.top, 3);
    assert_eq!(p.bottom, 3);
    assert_eq!(p.right, 9);
    assert_eq!(p.left, 9);
    let mut q = Padding::from_1v(1);
    q.set_3v(Some(4), None, Some(2));
    assert_eq!(q.top, 4);
    assert_eq!(q.bottom, 4);
    assert_eq!(q.right, 1);
    assert_eq!(q.left, 2);
}

#[test]
fn resource_handles_keep_their_names() {
    assert_eq!(retained_ui::program::Program::from_raw(3).get(), 3);
    assert_eq!(retained_ui::shader::Shader::from_raw(4).get(), 4);
    assert_eq!(retained_ui::buffer::Buffer::from_raw(5).get(), 5);
    assert_eq!(retained_ui::vertex_array::VertexArray::from_raw(6).get(), 6);
    assert_eq!(Texture::from_raw(7).get(), 7);
}

#[test]
fn errors_carry_their_summaries() {
    let e = Error::CompileShaderError(String::from("bad token"));
    assert_eq!(e.summary(), "Failed to compile shader");
    assert_eq!(e.description().unwrap(), "bad token");
    assert!(Error::CreateWindowError.description().is_none());
}
