use vstd::prelude::*;
use crate::geom::{Vec2, clamp_coord, clamp_coord_exec, clamp_size, clamp_size_exec, COORD_LIMIT};
use crate::texture::Texture;
use crate::image::Image;

verus! {

/// How a content quad is shaded: flat colour, texture only, or the
/// background colour used as a tint over the texture.
#[derive(Clone, Copy, PartialEq, Eq, Structural, Debug)]
pub enum ShaderType {
    Color,
    Texture,
    Mix,
}

/// An RGBA colour with 8-bit channels.
#[derive(Clone, Copy, PartialEq, Eq, Structural, Debug)]
pub struct Color {
    pub r: u8,
    pub g: u8,
    pub b: u8,
    pub a: u8,
}

impl Color {
    /// Transparent black.
    pub fn new() -> (r: Color)
        ensures
            r == (Color { r: 0, g: 0, b: 0, a: 0 }),
    {
        Color { r: 0, g: 0, b: 0, a: 0 }
    }

    /// Build a colour from its four channels.
    pub fn from_u8(r: u8, g: u8, b: u8, a: u8) -> (c: Color)
        ensures
            c == (Color { r, g, b, a }),
    {
        Color { r, g, b, a }
    }
}

/// Per-edge padding, in pixels.
#[derive(Clone, Copy, PartialEq, Eq, Structural, Debug)]
pub struct Padding {
    pub top: i64,
    pub right: i64,
    pub bottom: i64,
    pub left: i64,
}

impl Padding {
    /// Zero padding on every edge.
    pub fn new() -> (r: Padding)
        ensures
            r == (Padding { top: 0, right: 0, bottom: 0, left: 0 }),
    {
        Padding { top: 0, right: 0, bottom: 0, left: 0 }
    }

    /// One value per edge.
    pub fn from_4v(top: i64, right: i64, bottom: i64, left: i64) -> (r: Padding)
        ensures
            r == (Padding { top, right, bottom, left }),
    {
        Padding { top, right, bottom, left }
    }

    /// Vertical, right, left.
    pub fn from_3v(top_bottom: i64, right: i64, left: i64) -> (r: Padding)
        ensures
            r == (Padding { top: top_bottom, right, bottom: top_bottom, left }),
    {
        Padding { top: top_bottom, right, bottom: top_bottom, left }
    }

    /// Vertical and horizontal.
    pub fn from_2v(top_bottom: i64, right_left: i64) -> (r: Padding)
        ensures
            r == (Padding { top: top_bottom, right: right_left, bottom: top_bottom, left: right_left }),
    {
        Padding { top: top_bottom, right: right_left, bottom: top_bottom, left: right_left }
    }

    /// The same value on every edge.
    pub fn from_1v(v: i64) -> (r: Padding)
        ensures
            r == (Padding { top: v, right: v, bottom: v, left: v }),
    {
        Padding { top: v, right: v, bottom: v, left: v }
    }

    /// Overwrite the given edges.
    pub fn set_4v(&mut self, top: Option<i64>, right: Option<i64>, bottom: Option<i64>, left: Option<i64>)
        ensures
            final(self).top == if top is Some { top->0 } else { old(self).top },
            final(self).right == if right is Some { right->0 } else { old(self).right },
            final(self).bottom == if bottom is Some { bottom->0 } else { old(self).bottom },
            final(self).left == if left is Some { left->0 } else { old(self).left },
    {
        if let Some(v) = top { self.top = v; }
        if let Some(v) = right { self.right = v; }
        if let Some(v) = bottom { self.bottom = v; }
        if let Some(v) = left { self.left = v; }
    }

    /// Overwrite the vertical pair and the given horizontal edges.
    pub fn set_3v(&mut self, top_bottom: Option<i64>, right: Option<i64>, left: Option<i64>)
        ensures
            final(self).top == if top_bottom is Some { top_bottom->0 } else { old(self).top },
            final(self).bottom == if top_bottom is Some { top_bottom->0 } else { old(self).bottom },
            final(self).right == if right is Some { right->0 } else { old(self).right },
            final(self).left == if left is Some { left->0 } else { old(self).left },
    {
        if let Some(v) = top_bottom {
            self.top = v;
            self.bottom = v;
        }
        if let Some(v) = right { self.right = v; }
        if let Some(v) = left { self.left = v; }
    }

    /// Overwrite the vertical and horizontal pairs.
    pub fn set_2v(&mut self, top_bottom: Option<i64>, right_left: Option<i64>)
        ensures
            final(self).top == if top_bottom is Some { top_bottom->0 } else { old(self).top },
            final(self).bottom == if top_bottom is Some { top_bottom->0 } else { old(self).bottom },
            final(self).right == if right_left is Some { right_left->0 } else { old(self).right },
            final(self).left == if right_left is Some { right_left->0 } else { old(self).left },
    {
        if let Some(v) = top_bottom {
            self.top = v;
            self.bottom = v;
        }
        if let Some(v) = right_left {
            self.right = v;
            self.left = v;
        }
    }

    /// Overwrite every edge with one value.
    pub fn set_1v(&mut self, v: i64)
        ensures
            *final(self) == (Padding { top: v, right: v, bottom: v, left: v }),
    {
        self.top = v;
        self.right = v;
        self.bottom = v;
        self.left = v;
    }
}

/// Per-edge border: a thickness and a colour for each edge.
#[derive(Clone, Copy, PartialEq, Eq, Debug)]
pub struct Border {
    pub top: (i64, Color),
    pub right: (i64, Color),
    pub bottom: (i64, Color),
    pub left: (i64, Color),
}

impl Border {
    /// Zero-thickness transparent border.
    pub fn new() -> (r: Border)
        ensures
            r.top == (0i64, Color { r: 0, g: 0, b: 0, a: 0 }),
            r.right == (0i64, Color { r: 0, g: 0, b: 0, a: 0 }),
            r.bottom == (0i64, Color { r: 0, g: 0, b: 0, a: 0 }),
            r.left == (0i64, Color { r: 0, g: 0, b: 0, a: 0 }),
    {
        let zero = Color::new();
        Border { top: (0, zero), right: (0, zero), bottom: (0, zero), left: (0, zero) }
    }

    /// One (thickness, colour) pair per edge.
    pub fn from_4v(top: (i64, Color), right: (i64, Color), bottom: (i64, Color), left: (i64, Color)) -> (r: Border)
        ensures
            r == (Border { top, right, bottom, left }),
    {
        Border { top, right, bottom, left }
    }

    /// Vertical pair, right, left.
    pub fn from_3v(top_bottom: (i64, Color), right: (i64, Color), left: (i64, Color)) -> (r: Border)
        ensures
            r == (Border { top: top_bottom, right, bottom: top_bottom, left }),
    {
        Border { top: top_bottom, right, bottom: top_bottom, left }
    }

    /// Vertical and horizontal pairs.
    pub fn from_2v(top_bottom: (i64, Color), right_left: (i64, Color)) -> (r: Border)
        ensures
            r == (Border { top: top_bottom, right: right_left, bottom: top_bottom, left: right_left }),
    {
        Border { top: top_bottom, right: right_left, bottom: top_bottom, left: right_left }
    }

    /// The same pair on every edge.
    pub fn from_1v(v: (i64, Color)) -> (r: Border)
        ensures
            r == (Border { top: v, right: v, bottom: v, left: v }),
    {
        Border { top: v, right: v, bottom: v, left: v }
    }

    /// Overwrite the given edges.
    pub fn set_4v(&mut self, top: Option<(i64, Color)>, right: Option<(i64, Color)>, bottom: Option<(i64, Color)>, left: Option<(i64, Color)>)
        ensures
            final(self).top == if top is Some { top->0 } else { old(self).top },
            final(self).right == if right is Some { right->0 } else { old(self).right },
            final(self).bottom == if bottom is Some { bottom->0 } else { old(self).bottom },
            final(self).left == if left is Some { left->0 } else { old(self).left },
    {
        if let Some(v) = top { self.top = v; }
        if let Some(v) = right { self.right = v; }
        if let Some(v) = bottom { self.bottom = v; }
        if let Some(v) = left { self.left = v; }
    }

    /// Overwrite the vertical pair and the given horizontal edges.
    pub fn set_3v(&mut self, top_bottom: Option<(i64, Color)>, right: Option<(i64, Color)>, left: Option<(i64, Color)>)
        ensures
            final(self).top == if top_bottom is Some { top_bottom->0 } else { old(self).top },
            final(self).bottom == if top_bottom is Some { top_bottom->0 } else { old(self).bottom },
            final(self).right == if right is Some { right->0 } else { old(self).right },
            final(self).left == if left is Some { left->0 } else { old(self).left },
    {
        if let Some(v) = top_bottom {
            self.top = v;
            self.bottom = v;
        }
        if let Some(v) = right { self.right = v; }
        if let Some(v) = left { self.left = v; }
    }

    /// Overwrite the vertical and horizontal pairs.
    pub fn set_2v(&mut self, top_bottom: Option<(i64, Color)>, right_left: Option<(i64, Color)>)
        ensures
            final(self).top == if top_bottom is Some { top_bottom->0 } else { old(self).top },
            final(self).bottom == if top_bottom is Some { top_bottom->0 } else { old(self).bottom },
            final(self).right == if right_left is Some { right_left->0 } else { old(self).right },
            final(self).left == if right_left is Some { right_left->0 } else { old(self).left },
    {
        if let Some(v) = top_bottom {
            self.top = v;
            self.bottom = v;
        }
        if let Some(v) = right_left {
            self.right = v;
            self.left = v;
        }
    }

    /// Overwrite every edge with one pair.
    pub fn set_1v(&mut self, v: (i64, Color))
        ensures
            *final(self) == (Border { top: v, right: v, bottom: v, left: v }),
    {
        self.top = v;
        self.right = v;
        self.bottom = v;
        self.left = v;
    }

    /// Overwrite the thicknesses of the given edges.
    pub fn set_size_4v(&mut self, top: Option<i64>, right: Option<i64>, bottom: Option<i64>, left: Option<i64>)
        ensures
            final(self).top == (if top is Some { top->0 } else { old(self).top.0 }, old(self).top.1),
            final(self).right == (if right is Some { right->0 } else { old(self).right.0 }, old(self).right.1),
            final(self).bottom == (if bottom is Some { bottom->0 } else { old(self).bottom.0 }, old(self).bottom.1),
            final(self).left == (if left is Some { left->0 } else { old(self).left.0 }, old(self).left.1),
    {
        if let Some(v) = top { self.top.0 = v; }
        if let Some(v) = right { self.right.0 = v; }
        if let Some(v) = bottom { self.bottom.0 = v; }
        if let Some(v) = left { self.left.0 = v; }
    }

    /// Overwrite the vertical thicknesses and the given horizontal ones.
    pub fn set_size_3v(&mut self, top_bottom: Option<i64>, right: Option<i64>, left: Option<i64>)
        ensures
            final(self).top == (if top_bottom is Some { top_bottom->0 } else { old(self).top.0 }, old(self).top.1),
            final(self).bottom == (if top_bottom is Some { top_bottom->0 } else { old(self).bottom.0 }, old(self).bottom.1),
            final(self).right == (if right is Some { right->0 } else { old(self).right.0 }, old(self).right.1),
            final(self).left == (if left is Some { left->0 } else { old(self).left.0 }, old(self).left.1),
    {
        if let Some(v) = top_bottom {
            self.top.0 = v;
            self.bottom.0 = v;
        }
        if let Some(v) = right { self.right.0 = v; }
        if let Some(v) = left { self.left.0 = v; }
    }

    /// Overwrite the vertical and horizontal thickness pairs.
    pub fn set_size_2v(&mut self, top_bottom: Option<i64>, right_left: Option<i64>)
        ensures
            final(self).top == (if top_bottom is Some { top_bottom->0 } else { old(self).top.0 }, old(self).top.1),
            final(self).bottom == (if top_bottom is Some { top_bottom->0 } else { old(self).bottom.0 }, old(self).bottom.1),
            final(self).right == (if right_left is Some { right_left->0 } else { old(self).right.0 }, old(self).right.1),
            final(self).left == (if right_left is Some { right_left->0 } else { old(self).left.0 }, old(self).left.1),
    {
        if let Some(v) = top_bottom {
            self.top.0 = v;
            self.bottom.0 = v;
        }
        if let Some(v) = right_left {
            self.right.0 = v;
            self.left.0 = v;
        }
    }

    /// Overwrite every thickness with one value.
    pub fn set_size_1v(&mut self, v: i64)
        ensures
            final(self).top == (v, old(self).top.1),
            final(self).right == (v, old(self).right.1),
            final(self).bottom == (v, old(self).bottom.1),
            final(self).left == (v, old(self).left.1),
    {
        self.top.0 = v;
        self.right.0 = v;
        self.bottom.0 = v;
        self.left.0 = v;
    }

    /// Overwrite the colours of the given edges.
    pub fn set_color_4v(&mut self, top: Option<Color>, right: Option<Color>, bottom: Option<Color>, left: Option<Color>)
        ensures
            final(self).top == (old(self).top.0, if top is Some { top->0 } else { old(self).top.1 }),
            final(self).right == (old(self).right.0, if right is Some { right->0 } else { old(self).right.1 }),
            final(self).bottom == (old(self).bottom.0, if bottom is Some { bottom->0 } else { old(self).bottom.1 }),
            final(self).left == (old(self).left.0, if left is Some { left->0 } else { old(self).left.1 }),
    {
        if let Some(v) = top { self.top.1 = v; }
        if let Some(v) = right { self.right.1 = v; }
        if let Some(v) = bottom { self.bottom.1 = v; }
        if let Some(v) = left { self.left.1 = v; }
    }

    /// Overwrite the vertical colours and the given horizontal ones.
    pub fn set_color_3v(&mut self, top_bottom: Option<Color>, right: Option<Color>, left: Option<Color>)
        ensures
            final(self).top == (old(self).top.0, if top_bottom is Some { top_bottom->0 } else { old(self).top.1 }),
            final(self).bottom == (old(self).bottom.0, if top_bottom is Some { top_bottom->0 } else { old(self).bottom.1 }),
            final(self).right == (old(self).right.0, if right is Some { right->0 } else { old(self).right.1 }),
            final(self).left == (old(self).left.0, if left is Some { left->0 } else { old(self).left.1 }),
    {
        if let Some(v) = top_bottom {
            self.top.1 = v;
            self.bottom.1 = v;
        }
        if let Some(v) = right { self.right.1 = v; }
        if let Some(v) = left { self.left.1 = v; }
    }

    /// Overwrite the vertical and horizontal colour pairs.
    pub fn set_color_2v(&mut self, top_bottom: Option<Color>, right_left: Option<Color>)
        ensures
            final(self).top == (old(self).top.0, if top_bottom is Some { top_bottom->0 } else { old(self).top.1 }),
            final(self).bottom == (old(self).bottom.0, if top_bottom is Some { top_bottom->0 } else { old(self).bottom.1 }),
            final(self).right == (old(self).right.0, if right_left is Some { right_left->0 } else { old(self).right.1 }),
            final(self).left == (old(self).left.0, if right_left is Some { right_left->0 } else { old(self).left.1 }),
    {
        if let Some(v) = top_bottom {
            self.top.1 = v;
            self.bottom.1 = v;
        }
        if let Some(v) = right_left {
            self.right.1 = v;
            self.left.1 = v;
        }
    }

    /// Overwrite every edge colour with one value.
    pub fn set_color_1v(&mut self, v: Color)
        ensures
            final(self).top == (old(self).top.0, v),
            final(self).right == (old(self).right.0, v),
            final(self).bottom == (old(self).bottom.0, v),
            final(self).left == (old(self).left.0, v),
    {
        self.top.1 = v;
        self.right.1 = v;
        self.bottom.1 = v;
        self.left.1 = v;
    }
}

/// What a node does when the cursor enters or leaves it, or when a
/// button goes down or up on it. A colour-swapping reaction is enough
/// for buttons; a custom reaction hands an identifier back to the
/// embedding application, which runs its own handler for it.
#[derive(Clone, Copy, PartialEq, Eq, Structural, Debug)]
pub enum Reaction {
    Inert,
    SetBackground(Color),
    Custom(u64),
}

/// One flat-coloured quad of a node, in pixel coordinates relative to
/// the node's origin. The renderer adapter translates by `global_pos`
/// and maps pixels to normalized device coordinates.
#[derive(Clone, Copy, PartialEq, Eq, Debug)]
pub struct DrawQuad {
    pub global_pos: Vec2,
    pub v0: Vec2,
    pub v1: Vec2,
    pub v2: Vec2,
    pub v3: Vec2,
    pub color: Color,
    pub kind: ShaderType,
    pub texture: Option<u32>,
}

/// The colour a reaction paints over `c`, if any.
pub open spec fn reacted_color(r: Reaction, c: Color) -> Color {
    match r {
        Reaction::SetBackground(n) => n,
        _ => c,
    }
}

/// The handler identifiers a reaction hands back to the application.
pub open spec fn reaction_out(r: Reaction) -> Seq<u64> {
    match r {
        Reaction::Custom(h) => seq![h],
        _ => Seq::empty(),
    }
}

/// A rectangular widget: box-model geometry, style, interaction
/// reactions and owned children, drawn back-to-front (the last child is
/// the topmost).
pub struct Object {
    // children
    pub children: Vec<Object>,
    pub total_children: usize,
    pub on_cursor_child: Option<usize>,
    pub prev_on_cursor_child: Option<usize>,

    // property
    pub id: usize,
    pub name: String,
    pub viewport: Vec2,
    pub width: i64,
    pub height: i64,
    pub local_pos: Vec2,
    pub base_pos: Vec2,
    pub global_pos: Vec2,
    pub background_color: Color,
    pub padding: Padding,
    pub border: Border,
    pub shader_type: ShaderType,
    pub texture: Option<Texture>,

    // event
    pub cursor_pos: Vec2,
    pub prev_cursor_pos: Vec2,
    pub hiding: bool,
    pub moving: bool,
    pub pressed: bool,
    pub closed: bool,
    pub mouse_on_event: Reaction,
    pub mouse_off_event: Reaction,
    pub mouse_down_event: Reaction,
    pub mouse_up_event: Reaction,
}

impl Object {
    /// Well-formedness of a subtree: every stored coordinate is inside
    /// the budget, `global_pos == base_pos + local_pos` holds at every
    /// node, every child's base position is the parent's global position
    /// (clamped into the budget), and every stored hover index points at
    /// an existing child.
    pub open spec fn wf(self) -> bool
        decreases self,
    {
        &&& self.local_pos.in_budget()
        &&& self.base_pos.in_budget()
        &&& self.cursor_pos.in_budget()
        &&& self.prev_cursor_pos.in_budget()
        &&& self.global_pos.x == self.base_pos.x + self.local_pos.x
        &&& self.global_pos.y == self.base_pos.y + self.local_pos.y
        &&& 0 <= self.width <= COORD_LIMIT
        &&& 0 <= self.height <= COORD_LIMIT
        &&& 0 <= self.viewport.x <= COORD_LIMIT
        &&& 0 <= self.viewport.y <= COORD_LIMIT
        &&& 0 <= self.border.top.0 <= COORD_LIMIT
        &&& 0 <= self.border.right.0 <= COORD_LIMIT
        &&& 0 <= self.border.bottom.0 <= COORD_LIMIT
        &&& 0 <= self.border.left.0 <= COORD_LIMIT
        &&& 0 <= self.padding.top <= COORD_LIMIT
        &&& 0 <= self.padding.right <= COORD_LIMIT
        &&& 0 <= self.padding.bottom <= COORD_LIMIT
        &&& 0 <= self.padding.left <= COORD_LIMIT
        &&& (self.on_cursor_child matches Some(k) ==> k < self.children@.len())
        &&& (self.prev_on_cursor_child matches Some(k) ==> k < self.children@.len())
        &&& forall|i: int| 0 <= i < self.children@.len() ==> (#[trigger] self.children@[i]).wf()
        &&& forall|i: int| 0 <= i < self.children@.len()
            ==> (#[trigger] self.children@[i]).base_pos.x == clamp_coord(self.global_pos.x as int)
                && self.children@[i].base_pos.y == clamp_coord(self.global_pos.y as int)
    }

    /// How `set_base_pos(x, y)` relates a subtree before the call to the
    /// subtree after it: the given axes of `base_pos` are written
    /// (clamped into the budget), `global_pos` is refreshed on those
    /// axes, the refreshed global position becomes every child's base
    /// position on those axes, and everything else is unchanged.
    pub open spec fn is_set_base_pos(pre: Object, post: Object, x: Option<i64>, y: Option<i64>) -> bool
        decreases pre,
    {
        &&& post.base_pos.x == if x is Some { clamp_coord(x->0 as int) } else { pre.base_pos.x }
        &&& post.base_pos.y == if y is Some { clamp_coord(y->0 as int) } else { pre.base_pos.y }
        &&& post.global_pos.x == if x is Some { post.base_pos.x + pre.local_pos.x } else { pre.global_pos.x as int }
        &&& post.global_pos.y == if y is Some { post.base_pos.y + pre.local_pos.y } else { pre.global_pos.y as int }
        &&& post.children@.len() == pre.children@.len()
        &&& forall|i: int| 0 <= i < pre.children@.len() ==> Self::is_set_base_pos(
            #[trigger] pre.children@[i],
            post.children@[i],
            if x is Some { Some(clamp_coord(post.global_pos.x as int)) } else { None::<i64> },
            if y is Some { Some(clamp_coord(post.global_pos.y as int)) } else { None::<i64> },
        )
        &&& post == (Object {
            children: post.children,
            base_pos: post.base_pos,
            global_pos: post.global_pos,
            ..pre
        })
    }

    /// How `set_local_pos(x, y)` relates a subtree before the call to
    /// the subtree after it: as [`Self::is_set_base_pos`], with
    /// `local_pos` written instead of `base_pos`.
    pub open spec fn is_set_local_pos(pre: Object, post: Object, x: Option<i64>, y: Option<i64>) -> bool {
        &&& post.local_pos.x == if x is Some { clamp_coord(x->0 as int) } else { pre.local_pos.x }
        &&& post.local_pos.y == if y is Some { clamp_coord(y->0 as int) } else { pre.local_pos.y }
        &&& post.global_pos.x == if x is Some { pre.base_pos.x + post.local_pos.x } else { pre.global_pos.x as int }
        &&& post.global_pos.y == if y is Some { pre.base_pos.y + post.local_pos.y } else { pre.global_pos.y as int }
        &&& post.children@.len() == pre.children@.len()
        &&& forall|i: int| 0 <= i < pre.children@.len() ==> Self::is_set_base_pos(
            #[trigger] pre.children@[i],
            post.children@[i],
            if x is Some { Some(clamp_coord(post.global_pos.x as int)) } else { None::<i64> },
            if y is Some { Some(clamp_coord(post.global_pos.y as int)) } else { None::<i64> },
        )
        &&& post == (Object {
            children: post.children,
            local_pos: post.local_pos,
            global_pos: post.global_pos,
            ..pre
        })
    }

    /// Build a node: zero size at the origin, a white background, no
    /// border, no padding, flat-colour shading, no texture, no children,
    /// every transient flag cleared and every reaction inert.
    pub fn create(id: usize, name: &str, viewport: Vec2) -> (r: Object)
        ensures
            r.wf(),
            r.id == id,
            r.name@ == name@,
            r.viewport.x == clamp_size(viewport.x as int),
            r.viewport.y == clamp_size(viewport.y as int),
            r.width == 0 && r.height == 0,
            r.local_pos == (Vec2 { x: 0, y: 0 }),
            r.base_pos == (Vec2 { x: 0, y: 0 }),
            r.global_pos == (Vec2 { x: 0, y: 0 }),
            r.background_color == (Color { r: 255, g: 255, b: 255, a: 255 }),
            r.padding == (Padding { top: 0, right: 0, bottom: 0, left: 0 }),
            r.border.top == (0i64, Color { r: 0, g: 0, b: 0, a: 0 }),
            r.border.right == (0i64, Color { r: 0, g: 0, b: 0, a: 0 }),
            r.border.bottom == (0i64, Color { r: 0, g: 0, b: 0, a: 0 }),
            r.border.left == (0i64, Color { r: 0, g: 0, b: 0, a: 0 }),
            r.shader_type == ShaderType::Color,
            r.texture is None,
            r.children@.len() == 0,
            r.total_children == 0,
            r.on_cursor_child is None && r.prev_on_cursor_child is None,
            r.cursor_pos == (Vec2 { x: 0, y: 0 }),
            r.prev_cursor_pos == (Vec2 { x: 0, y: 0 }),
            !r.hiding && !r.moving && !r.pressed && !r.closed,
            r.mouse_on_event == Reaction::Inert,
            r.mouse_off_event == Reaction::Inert,
            r.mouse_down_event == Reaction::Inert,
            r.mouse_up_event == Reaction::Inert,
    {
        Object {
            children: Vec::new(),
            total_children: 0,
            on_cursor_child: None,
            prev_on_cursor_child: None,
            id,
            name: name.to_owned(),
            viewport: Vec2 { x: clamp_size_exec(viewport.x), y: clamp_size_exec(viewport.y) },
            width: 0,
            height: 0,
            local_pos: Vec2 { x: 0, y: 0 },
            base_pos: Vec2 { x: 0, y: 0 },
            global_pos: Vec2 { x: 0, y: 0 },
            background_color: Color { r: 255, g: 255, b: 255, a: 255 },
            padding: Padding::new(),
            border: Border::new(),
            shader_type: ShaderType::Color,
            texture: None,
            cursor_pos: Vec2 { x: 0, y: 0 },
            prev_cursor_pos: Vec2 { x: 0, y: 0 },
            hiding: false,
            moving: false,
            pressed: false,
            closed: false,
            mouse_on_event: Reaction::Inert,
            mouse_off_event: Reaction::Inert,
            mouse_down_event: Reaction::Inert,
            mouse_up_event: Reaction::Inert,
        }
    }

    /// Move the subtree: write the given axes of `base_pos`, refresh
    /// `global_pos` on those axes, and push the new global position down
    /// as every child's base position.
    pub fn set_base_pos(&mut self, x: Option<i64>, y: Option<i64>)
        requires
            old(self).wf(),
        ensures
            Self::is_set_base_pos(*old(self), *final(self), x, y),
            final(self).wf(),
        decreases *old(self), 1int,
    {
        if let Some(xv) = x {
            self.base_pos.x = clamp_coord_exec(xv);
            self.global_pos.x = self.base_pos.x + self.local_pos.x;
        }
        if let Some(yv) = y {
            self.base_pos.y = clamp_coord_exec(yv);
            self.global_pos.y = self.base_pos.y + self.local_pos.y;
        }
        let child_x: Option<i64> = if x.is_some() { Some(clamp_coord_exec(self.global_pos.x)) } else { None };
        let child_y: Option<i64> = if y.is_some() { Some(clamp_coord_exec(self.global_pos.y)) } else { None };
        self.push_pos_to_children(child_x, child_y);
        proof {
            Self::lemma_set_base_pos_wf(*old(self), *self, x, y);
        }
    }

    /// Place the subtree inside its parent: write the given axes of
    /// `local_pos`, refresh `global_pos` on those axes, and push the new
    /// global position down as every child's base position.
    pub fn set_local_pos(&mut self, x: Option<i64>, y: Option<i64>)
        requires
            old(self).wf(),
        ensures
            Self::is_set_local_pos(*old(self), *final(self), x, y),
            final(self).wf(),
    {
        if let Some(xv) = x {
            self.local_pos.x = clamp_coord_exec(xv);
            self.global_pos.x = self.base_pos.x + self.local_pos.x;
        }
        if let Some(yv) = y {
            self.local_pos.y = clamp_coord_exec(yv);
            self.global_pos.y = self.base_pos.y + self.local_pos.y;
        }
        let child_x: Option<i64> = if x.is_some() { Some(clamp_coord_exec(self.global_pos.x)) } else { None };
        let child_y: Option<i64> = if y.is_some() { Some(clamp_coord_exec(self.global_pos.y)) } else { None };
        self.push_pos_to_children(child_x, child_y);
        proof {
            assert forall|i: int| 0 <= i < self.children@.len() implies (#[trigger] self.children@[i]).wf()
                && self.children@[i].base_pos.x == clamp_coord(self.global_pos.x as int)
                && self.children@[i].base_pos.y == clamp_coord(self.global_pos.y as int) by {
                Self::lemma_set_base_pos_wf(old(self).children@[i], self.children@[i], child_x, child_y);
                if x is None {
                    assert(self.children@[i].base_pos.x == old(self).children@[i].base_pos.x);
                }
                if y is None {
                    assert(self.children@[i].base_pos.y == old(self).children@[i].base_pos.y);
                }
            }
        }
    }

    /// Write the given axes of every direct child's base position,
    /// which recurses down each child's subtree.
    fn push_pos_to_children(&mut self, x: Option<i64>, y: Option<i64>)
        requires
            forall|i: int| 0 <= i < old(self).children@.len() ==> (#[trigger] old(self).children@[i]).wf(),
        ensures
            final(self).children@.len() == old(self).children@.len(),
            forall|i: int| 0 <= i < old(self).children@.len() ==> Self::is_set_base_pos(
                #[trigger] old(self).children@[i],
                final(self).children@[i],
                x,
                y,
            ),
            forall|i: int| 0 <= i < old(self).children@.len() ==> (#[trigger] final(self).children@[i]).wf(),
            *final(self) == (Object { children: final(self).children, ..*old(self) }),
        decreases old(self).children, 0int,
    {
        let n = self.children.len();
        let mut i: usize = 0;
        while i < n
            invariant
                i <= n,
                n == self.children.len(),
                n == old(self).children@.len(),
                forall|j: int| 0 <= j < old(self).children@.len() ==> (#[trigger] old(self).children@[j]).wf(),
                forall|j: int| 0 <= j < i ==> Self::is_set_base_pos(
                    old(self).children@[j],
                    #[trigger] self.children@[j],
                    x,
                    y,
                ),
                forall|j: int| 0 <= j < i ==> (#[trigger] self.children@[j]).wf(),
                forall|j: int| i <= j < n ==> #[trigger] self.children@[j] == old(self).children@[j],
                *self == (Object { children: self.children, ..*old(self) }),
            decreases n - i,
        {
            let mut c = self.children.remove(i);
            proof {
                assert(c == old(self).children@[i as int]);
                assert(decreases_to!(*old(self) => old(self).children));
                assert(decreases_to!(old(self).children => old(self).children@));
                assert(decreases_to!(old(self).children@ => old(self).children@[i as int]));
            }
            c.set_base_pos(x, y);
            self.children.insert(i, c);
            i = i + 1;
        }
    }

    /// `set_base_pos` preserves well-formedness.
    pub proof fn lemma_set_base_pos_wf(pre: Object, post: Object, x: Option<i64>, y: Option<i64>)
        requires
            pre.wf(),
            Self::is_set_base_pos(pre, post, x, y),
        ensures
            post.wf(),
        decreases pre,
    {
        assert forall|i: int| 0 <= i < post.children@.len() implies
            ((#[trigger] post.children@[i]).wf()
                && post.children@[i].base_pos.x == clamp_coord(post.global_pos.x as int)
                && post.children@[i].base_pos.y == clamp_coord(post.global_pos.y as int)) by {
            let cx = if x is Some { Some(clamp_coord(post.global_pos.x as int)) } else { None::<i64> };
            let cy = if y is Some { Some(clamp_coord(post.global_pos.y as int)) } else { None::<i64> };
            assert(Self::is_set_base_pos(pre.children@[i], post.children@[i], cx, cy));
            Self::lemma_set_base_pos_wf(pre.children@[i], post.children@[i], cx, cy);
        }
    }

    /// Take ownership of a fully-built child: its base position becomes
    /// this node's global position and it is appended to the child list,
    /// so it is drawn last (topmost) among the current children.
    pub fn add_child(&mut self, child: Object)
        requires
            old(self).wf(),
            child.wf(),
            old(self).total_children < usize::MAX,
        ensures
            final(self).children@.len() == old(self).children@.len() + 1,
            forall|i: int| 0 <= i < old(self).children@.len()
                ==> final(self).children@[i] == #[trigger] old(self).children@[i],
            Self::is_set_base_pos(
                child,
                final(self).children@[old(self).children@.len() as int],
                Some(clamp_coord(old(self).global_pos.x as int)),
                Some(clamp_coord(old(self).global_pos.y as int)),
            ),
            final(self).total_children == old(self).total_children + 1,
            *final(self) == (Object {
                children: final(self).children,
                total_children: final(self).total_children,
                ..*old(self)
            }),
            final(self).wf(),
    {
        let mut child = child;
        let bx = clamp_coord_exec(self.global_pos.x);
        let by = clamp_coord_exec(self.global_pos.y);
        child.set_base_pos(Some(bx), Some(by));
        self.children.push(child);
        self.total_children = self.total_children + 1;
    }
}

impl Object {
    /// Resize the node: negative lengths clamp to zero, oversized ones
    /// to the budget. Size changes do not cascade to children; anchored
    /// children are repositioned explicitly by their owner.
    pub fn set_size(&mut self, width: Option<i64>, height: Option<i64>)
        ensures
            *final(self) == (Object {
                width: if width is Some { clamp_size(width->0 as int) } else { old(self).width },
                height: if height is Some { clamp_size(height->0 as int) } else { old(self).height },
                ..*old(self)
            }),
            old(self).wf() ==> final(self).wf(),
    {
        if let Some(w) = width {
            self.width = clamp_size_exec(w);
        }
        if let Some(h) = height {
            self.height = clamp_size_exec(h);
        }
        proof {
            self.lemma_same_shape_wf(*old(self));
        }
    }

    /// Repaint the content quad.
    pub fn set_background_color(&mut self, background_color: Color)
        ensures
            *final(self) == (Object { background_color, ..*old(self) }),
            old(self).wf() ==> final(self).wf(),
    {
        self.background_color = background_color;
        proof {
            self.lemma_same_shape_wf(*old(self));
        }
    }

    /// Set the given edges' border thickness; negative values clamp to
    /// zero, oversized ones to the budget.
    pub fn set_border_size(&mut self, top: Option<i64>, right: Option<i64>, bottom: Option<i64>, left: Option<i64>)
        ensures
            *final(self) == (Object {
                border: (Border {
                    top: (if top is Some { clamp_size(top->0 as int) } else { old(self).border.top.0 }, old(self).border.top.1),
                    right: (if right is Some { clamp_size(right->0 as int) } else { old(self).border.right.0 }, old(self).border.right.1),
                    bottom: (if bottom is Some { clamp_size(bottom->0 as int) } else { old(self).border.bottom.0 }, old(self).border.bottom.1),
                    left: (if left is Some { clamp_size(left->0 as int) } else { old(self).border.left.0 }, old(self).border.left.1),
                }),
                ..*old(self)
            }),
            old(self).wf() ==> final(self).wf(),
    {
        if let Some(v) = top {
            self.border.top.0 = clamp_size_exec(v);
        }
        if let Some(v) = right {
            self.border.right.0 = clamp_size_exec(v);
        }
        if let Some(v) = bottom {
            self.border.bottom.0 = clamp_size_exec(v);
        }
        if let Some(v) = left {
            self.border.left.0 = clamp_size_exec(v);
        }
        proof {
            self.lemma_same_shape_wf(*old(self));
        }
    }

    /// Recolour the given border edges.
    pub fn set_border_color(&mut self, top: Option<Color>, right: Option<Color>, bottom: Option<Color>, left: Option<Color>)
        ensures
            *final(self) == (Object {
                border: (Border {
                    top: (old(self).border.top.0, if top is Some { top->0 } else { old(self).border.top.1 }),
                    right: (old(self).border.right.0, if right is Some { right->0 } else { old(self).border.right.1 }),
                    bottom: (old(self).border.bottom.0, if bottom is Some { bottom->0 } else { old(self).border.bottom.1 }),
                    left: (old(self).border.left.0, if left is Some { left->0 } else { old(self).border.left.1 }),
                }),
                ..*old(self)
            }),
            old(self).wf() ==> final(self).wf(),
    {
        if let Some(v) = top {
            self.border.top.1 = v;
        }
        if let Some(v) = right {
            self.border.right.1 = v;
        }
        if let Some(v) = bottom {
            self.border.bottom.1 = v;
        }
        if let Some(v) = left {
            self.border.left.1 = v;
        }
        proof {
            self.lemma_same_shape_wf(*old(self));
        }
    }

    /// Set the given edges' padding; negative values clamp to zero,
    /// oversized ones to the budget.
    pub fn set_padding(&mut self, top: Option<i64>, right: Option<i64>, bottom: Option<i64>, left: Option<i64>)
        ensures
            *final(self) == (Object {
                padding: (Padding {
                    top: if top is Some { clamp_size(top->0 as int) } else { old(self).padding.top },
                    right: if right is Some { clamp_size(right->0 as int) } else { old(self).padding.right },
                    bottom: if bottom is Some { clamp_size(bottom->0 as int) } else { old(self).padding.bottom },
                    left: if left is Some { clamp_size(left->0 as int) } else { old(self).padding.left },
                }),
                ..*old(self)
            }),
            old(self).wf() ==> final(self).wf(),
    {
        if let Some(v) = top {
            self.padding.top = clamp_size_exec(v);
        }
        if let Some(v) = right {
            self.padding.right = clamp_size_exec(v);
        }
        if let Some(v) = bottom {
            self.padding.bottom = clamp_size_exec(v);
        }
        if let Some(v) = left {
            self.padding.left = clamp_size_exec(v);
        }
        proof {
            self.lemma_same_shape_wf(*old(self));
        }
    }

    /// Switch the content shading. Flat-colour shading drops any
    /// attached texture; the other variants keep whatever texture is
    /// attached (the renderer adapter attaches one via
    /// [`Self::enable_texture`]).
    pub fn set_shader_type(&mut self, shader_type: ShaderType)
        ensures
            *final(self) == (Object {
                shader_type,
                texture: if shader_type is Color { None } else { old(self).texture },
                ..*old(self)
            }),
            old(self).wf() ==> final(self).wf(),
    {
        if matches!(shader_type, ShaderType::Color) {
            self.disable_texture();
        } else {
        }
        self.shader_type = shader_type;
        proof {
            self.lemma_same_shape_wf(*old(self));
        }
    }

    /// Attach a texture name from the renderer adapter, unless one is
    /// already attached.
    pub fn enable_texture(&mut self, texture: Texture)
        ensures
            *final(self) == (Object {
                texture: if old(self).texture is None { Some(texture) } else { old(self).texture },
                ..*old(self)
            }),
            old(self).wf() ==> final(self).wf(),
    {
        if self.texture.is_none() {
            self.texture = Some(texture);
        }
        proof {
            self.lemma_same_shape_wf(*old(self));
        }
    }

    /// Detach the texture, if any; the adapter releases it.
    pub fn disable_texture(&mut self)
        ensures
            *final(self) == (Object { texture: None, ..*old(self) }),
            old(self).wf() ==> final(self).wf(),
    {
        self.texture = None;
        proof {
            self.lemma_same_shape_wf(*old(self));
        }
    }

    /// Resize the node to the image it shows, if a texture is attached;
    /// uploading the image into the texture is the adapter's work.
    pub fn set_texture(&mut self, image: &Image)
        ensures
            *final(self) == (Object {
                width: if old(self).texture is Some { clamp_size(image@.width as int) } else { old(self).width },
                height: if old(self).texture is Some { clamp_size(image@.height as int) } else { old(self).height },
                ..*old(self)
            }),
            old(self).wf() ==> final(self).wf(),
    {
        if self.texture.is_some() {
            let w: i64 = image.get_width() as i64;
            let h: i64 = image.get_height() as i64;
            self.set_size(Some(w), Some(h));
        }
    }

    /// A mutation that leaves children, positions, sizes and the box
    /// model untouched preserves well-formedness.
    proof fn lemma_same_shape_wf(&self, pre: Object)
        requires
            self.children == pre.children,
            self.local_pos == pre.local_pos,
            self.base_pos == pre.base_pos,
            self.global_pos == pre.global_pos,
            self.cursor_pos == pre.cursor_pos,
            self.prev_cursor_pos == pre.prev_cursor_pos,
            self.on_cursor_child == pre.on_cursor_child,
            self.prev_on_cursor_child == pre.prev_on_cursor_child,
            self.viewport == pre.viewport,
        ensures
            (pre.wf()
                && 0 <= self.width <= COORD_LIMIT
                && 0 <= self.height <= COORD_LIMIT
                && 0 <= self.border.top.0 <= COORD_LIMIT
                && 0 <= self.border.right.0 <= COORD_LIMIT
                && 0 <= self.border.bottom.0 <= COORD_LIMIT
                && 0 <= self.border.left.0 <= COORD_LIMIT
                && 0 <= self.padding.top <= COORD_LIMIT
                && 0 <= self.padding.right <= COORD_LIMIT
                && 0 <= self.padding.bottom <= COORD_LIMIT
                && 0 <= self.padding.left <= COORD_LIMIT) ==> self.wf(),
    {
        if pre.wf() {
            assert forall|i: int| 0 <= i < self.children@.len()
                implies (#[trigger] self.children@[i]).wf() by {
                assert(self.children@[i] == pre.children@[i]);
            }
        }
    }

    /// Choose what happens when the cursor enters this node.
    pub fn set_mouse_on_event(&mut self, r: Reaction)
        ensures
            *final(self) == (Object { mouse_on_event: r, ..*old(self) }),
            old(self).wf() ==> final(self).wf(),
    {
        self.mouse_on_event = r;
        proof {
            self.lemma_same_shape_wf(*old(self));
        }
    }

    /// Choose what happens when the cursor leaves this node.
    pub fn set_mouse_off_event(&mut self, r: Reaction)
        ensures
            *final(self) == (Object { mouse_off_event: r, ..*old(self) }),
            old(self).wf() ==> final(self).wf(),
    {
        self.mouse_off_event = r;
        proof {
            self.lemma_same_shape_wf(*old(self));
        }
    }

    /// Choose what happens when a button goes down on this node.
    pub fn set_mouse_down_event(&mut self, r: Reaction)
        ensures
            *final(self) == (Object { mouse_down_event: r, ..*old(self) }),
            old(self).wf() ==> final(self).wf(),
    {
        self.mouse_down_event = r;
        proof {
            self.lemma_same_shape_wf(*old(self));
        }
    }

    /// Choose what happens when a button is released on this node.
    pub fn set_mouse_up_event(&mut self, r: Reaction)
        ensures
            *final(self) == (Object { mouse_up_event: r, ..*old(self) }),
            old(self).wf() ==> final(self).wf(),
    {
        self.mouse_up_event = r;
        proof {
            self.lemma_same_shape_wf(*old(self));
        }
    }

    /// The point-in-rectangle test hit-testing uses: inside
    /// `[global_pos, global_pos + size)` on both axes.
    pub open spec fn contains_point(self, x: i64, y: i64) -> bool {
        &&& self.global_pos.x <= x < self.global_pos.x + self.width
        &&& self.global_pos.y <= y < self.global_pos.y + self.height
    }

    /// The top border quad: the full top strip, mitred against the left
    /// and right borders.
    pub open spec fn border_top_quad(self) -> DrawQuad {
        DrawQuad {
            global_pos: self.global_pos,
            v0: (Vec2 { x: 0, y: 0 }),
            v1: (Vec2 { x: self.width, y: 0 }),
            v2: (Vec2 { x: self.border.left.0, y: self.border.top.0 }),
            v3: (Vec2 { x: (self.width - self.border.right.0) as i64, y: self.border.top.0 }),
            color: self.border.top.1,
            kind: ShaderType::Color,
            texture: None,
        }
    }

    /// The right border quad.
    pub open spec fn border_right_quad(self) -> DrawQuad {
        DrawQuad {
            global_pos: self.global_pos,
            v0: (Vec2 { x: (self.width - self.border.right.0) as i64, y: self.border.top.0 }),
            v1: (Vec2 { x: self.width, y: 0 }),
            v2: (Vec2 {
                x: (self.width - self.border.right.0) as i64,
                y: (self.height - self.border.bottom.0) as i64,
            }),
            v3: (Vec2 { x: self.width, y: self.height }),
            color: self.border.right.1,
            kind: ShaderType::Color,
            texture: None,
        }
    }

    /// The bottom border quad.
    pub open spec fn border_bottom_quad(self) -> DrawQuad {
        DrawQuad {
            global_pos: self.global_pos,
            v0: (Vec2 { x: self.border.left.0, y: (self.height - self.border.bottom.0) as i64 }),
            v1: (Vec2 {
                x: (self.width - self.border.right.0) as i64,
                y: (self.height - self.border.bottom.0) as i64,
            }),
            v2: (Vec2 { x: 0, y: self.height }),
            v3: (Vec2 { x: self.width, y: self.height }),
            color: self.border.bottom.1,
            kind: ShaderType::Color,
            texture: None,
        }
    }

    /// The left border quad.
    pub open spec fn border_left_quad(self) -> DrawQuad {
        DrawQuad {
            global_pos: self.global_pos,
            v0: (Vec2 { x: 0, y: 0 }),
            v1: (Vec2 { x: self.border.left.0, y: self.border.top.0 }),
            v2: (Vec2 { x: 0, y: self.height }),
            v3: (Vec2 { x: self.border.left.0, y: (self.height - self.border.bottom.0) as i64 }),
            color: self.border.left.1,
            kind: ShaderType::Color,
            texture: None,
        }
    }

    /// The content quad, inset from the node rectangle by border
    /// thickness plus padding on each edge.
    pub open spec fn content_quad(self) -> DrawQuad {
        DrawQuad {
            global_pos: self.global_pos,
            v0: (Vec2 {
                x: (self.border.left.0 + self.padding.left) as i64,
                y: (self.border.top.0 + self.padding.top) as i64,
            }),
            v1: (Vec2 {
                x: (self.width - (self.border.right.0 + self.padding.right)) as i64,
                y: (self.border.top.0 + self.padding.top) as i64,
            }),
            v2: (Vec2 {
                x: (self.border.left.0 + self.padding.left) as i64,
                y: (self.height - (self.border.bottom.0 + self.padding.bottom)) as i64,
            }),
            v3: (Vec2 {
                x: (self.width - (self.border.right.0 + self.padding.right)) as i64,
                y: (self.height - (self.border.bottom.0 + self.padding.bottom)) as i64,
            }),
            color: self.background_color,
            kind: self.shader_type,
            texture: match self.texture {
                Some(t) => Some(t@),
                None => None,
            },
        }
    }

    /// The five quads of this node alone: the four border edges, then
    /// the content quad.
    #[verifier::opaque]
    pub open spec fn own_quads(self) -> Seq<DrawQuad> {
        seq![
            self.border_top_quad(),
            self.border_right_quad(),
            self.border_bottom_quad(),
            self.border_left_quad(),
            self.content_quad(),
        ]
    }

    /// Compute this node's five quads.
    pub fn quads(&self) -> (v: Vec<DrawQuad>)
        requires
            self.wf(),
        ensures
            v@ == self.own_quads(),
    {
        let gp = self.global_pos;
        let w = self.width;
        let h = self.height;
        let bt = self.border.top.0;
        let br = self.border.right.0;
        let bb = self.border.bottom.0;
        let bl = self.border.left.0;
        let tex: Option<u32> = match &self.texture {
            Some(t) => Some(t.get()),
            None => None,
        };
        let mut v: Vec<DrawQuad> = Vec::new();
        v.push(DrawQuad {
            global_pos: gp,
            v0: Vec2 { x: 0, y: 0 },
            v1: Vec2 { x: w, y: 0 },
            v2: Vec2 { x: bl, y: bt },
            v3: Vec2 { x: w - br, y: bt },
            color: self.border.top.1,
            kind: ShaderType::Color,
            texture: None,
        });
        v.push(DrawQuad {
            global_pos: gp,
            v0: Vec2 { x: w - br, y: bt },
            v1: Vec2 { x: w, y: 0 },
            v2: Vec2 { x: w - br, y: h - bb },
            v3: Vec2 { x: w, y: h },
            color: self.border.right.1,
            kind: ShaderType::Color,
            texture: None,
        });
        v.push(DrawQuad {
            global_pos: gp,
            v0: Vec2 { x: bl, y: h - bb },
            v1: Vec2 { x: w - br, y: h - bb },
            v2: Vec2 { x: 0, y: h },
            v3: Vec2 { x: w, y: h },
            color: self.border.bottom.1,
            kind: ShaderType::Color,
            texture: None,
        });
        v.push(DrawQuad {
            global_pos: gp,
            v0: Vec2 { x: 0, y: 0 },
            v1: Vec2 { x: bl, y: bt },
            v2: Vec2 { x: 0, y: h },
            v3: Vec2 { x: bl, y: h - bb },
            color: self.border.left.1,
            kind: ShaderType::Color,
            texture: None,
        });
        v.push(DrawQuad {
            global_pos: gp,
            v0: Vec2 { x: bl + self.padding.left, y: bt + self.padding.top },
            v1: Vec2 { x: w - (br + self.padding.right), y: bt + self.padding.top },
            v2: Vec2 { x: bl + self.padding.left, y: h - (bb + self.padding.bottom) },
            v3: Vec2 { x: w - (br + self.padding.right), y: h - (bb + self.padding.bottom) },
            color: self.background_color,
            kind: self.shader_type,
            texture: tex,
        });
        proof {
            reveal(Object::own_quads);
            assert(v@ =~= self.own_quads());
        }
        v
    }
}

impl Object {
    /// The topmost child whose rectangle contains the point: children
    /// are scanned from the back of the list (painted last, so on top)
    /// to the front, and the first match wins.
    pub open spec fn hit_index(s: Seq<Object>, x: i64, y: i64) -> Option<usize>
        decreases s.len(),
    {
        if s.len() == 0 {
            None
        } else if s.last().contains_point(x, y) {
            Some((s.len() - 1) as usize)
        } else {
            Self::hit_index(s.drop_last(), x, y)
        }
    }

    /// Where a stored child index ends up after the child at `k` is
    /// promoted to the back of the list: the promoted child's index
    /// becomes the last, indices above `k` shift down one, the rest
    /// stay.
    pub open spec fn promote_map(idx: Option<usize>, k: usize, n: nat) -> Option<usize> {
        match idx {
            None => None,
            Some(p) => if k < p {
                Some((p - 1) as usize)
            } else if p == k {
                Some((n - 1) as usize)
            } else {
                Some(p)
            },
        }
    }

    /// How `mouse_on` relates a node before the call to the node after
    /// it: the enter reaction repaints the background, nothing else
    /// changes.
    pub open spec fn is_mouse_on(pre: Object, post: Object) -> bool {
        post == (Object {
            background_color: reacted_color(pre.mouse_on_event, pre.background_color),
            ..pre
        })
    }

    /// How `mouse_off` relates a subtree before the call to the subtree
    /// after it: the node is no longer pressed, the leave runs down the
    /// previous hover chain, the hovered-child index is forgotten, and
    /// the leave reaction repaints the background.
    pub open spec fn is_mouse_off(pre: Object, post: Object) -> bool
        decreases pre,
    {
        &&& if pre.prev_on_cursor_child is Some && pre.prev_on_cursor_child->0 < pre.children@.len() {
            let p = pre.prev_on_cursor_child->0 as int;
            &&& post.children@.len() == pre.children@.len()
            &&& Self::is_mouse_off(pre.children@[p], post.children@[p])
            &&& forall|j: int| 0 <= j < pre.children@.len() && j != p
                ==> post.children@[j] == #[trigger] pre.children@[j]
            &&& post.on_cursor_child is None
        } else {
            &&& post.children == pre.children
            &&& post.on_cursor_child == pre.on_cursor_child
        }
        &&& post == (Object {
            children: post.children,
            on_cursor_child: post.on_cursor_child,
            pressed: false,
            background_color: reacted_color(pre.mouse_off_event, pre.background_color),
            ..pre
        })
    }

    /// The handler identifiers `mouse_off` hands back: the previous
    /// hover chain's first, this node's last.
    pub open spec fn off_out(pre: Object) -> Seq<u64>
        decreases pre,
    {
        (if pre.prev_on_cursor_child is Some && pre.prev_on_cursor_child->0 < pre.children@.len() {
            Self::off_out(pre.children@[pre.prev_on_cursor_child->0 as int])
        } else {
            Seq::empty()
        }) + reaction_out(pre.mouse_off_event)
    }

    /// How `mouse_down` relates a subtree before the call to the
    /// subtree after it: the node becomes pressed, the press runs down
    /// the hover chain, the hovered child is promoted to the back of
    /// the list (topmost) with the stored indices remapped, and the
    /// press reaction repaints the background.
    pub open spec fn is_mouse_down(pre: Object, post: Object) -> bool
        decreases pre,
    {
        &&& if pre.on_cursor_child is Some && pre.on_cursor_child->0 < pre.children@.len() {
            let k = pre.on_cursor_child->0;
            let n = pre.children@.len();
            &&& post.children@.len() == n
            &&& Self::is_mouse_down(pre.children@[k as int], post.children@[n - 1])
            &&& forall|j: int| 0 <= j < n - 1
                ==> #[trigger] post.children@[j] == pre.children@.remove(k as int)[j]
            &&& post.on_cursor_child == Some((n - 1) as usize)
            &&& post.prev_on_cursor_child == Self::promote_map(pre.prev_on_cursor_child, k, n)
        } else {
            &&& post.children == pre.children
            &&& post.on_cursor_child == pre.on_cursor_child
            &&& post.prev_on_cursor_child == pre.prev_on_cursor_child
        }
        &&& post == (Object {
            children: post.children,
            on_cursor_child: post.on_cursor_child,
            prev_on_cursor_child: post.prev_on_cursor_child,
            pressed: true,
            background_color: reacted_color(pre.mouse_down_event, pre.background_color),
            ..pre
        })
    }

    /// The handler identifiers `mouse_down` hands back: the hover
    /// chain's first, this node's last.
    pub open spec fn down_out(pre: Object) -> Seq<u64>
        decreases pre,
    {
        (if pre.on_cursor_child is Some && pre.on_cursor_child->0 < pre.children@.len() {
            Self::down_out(pre.children@[pre.on_cursor_child->0 as int])
        } else {
            Seq::empty()
        }) + reaction_out(pre.mouse_down_event)
    }

    /// How `mouse_up` relates a subtree before the call to the subtree
    /// after it: the node is no longer pressed, the release runs down
    /// the hover chain, and the release reaction repaints the
    /// background.
    pub open spec fn is_mouse_up(pre: Object, post: Object) -> bool
        decreases pre,
    {
        &&& if pre.on_cursor_child is Some && pre.on_cursor_child->0 < pre.children@.len() {
            let k = pre.on_cursor_child->0 as int;
            &&& post.children@.len() == pre.children@.len()
            &&& Self::is_mouse_up(pre.children@[k], post.children@[k])
            &&& forall|j: int| 0 <= j < pre.children@.len() && j != k
                ==> post.children@[j] == #[trigger] pre.children@[j]
        } else {
            post.children == pre.children
        }
        &&& post == (Object {
            children: post.children,
            pressed: false,
            background_color: reacted_color(pre.mouse_up_event, pre.background_color),
            ..pre
        })
    }

    /// The handler identifiers `mouse_up` hands back: the hover chain's
    /// first, this node's last.
    pub open spec fn up_out(pre: Object) -> Seq<u64>
        decreases pre,
    {
        (if pre.on_cursor_child is Some && pre.on_cursor_child->0 < pre.children@.len() {
            Self::up_out(pre.children@[pre.on_cursor_child->0 as int])
        } else {
            Seq::empty()
        }) + reaction_out(pre.mouse_up_event)
    }

    /// How `on_cursor_pos_event` relates a subtree before the call to
    /// the subtree after it. The cursor is recorded (clamped into the
    /// budget), the topmost child under it becomes the hovered child
    /// and handles the event recursively, and when the hovered child
    /// changed, the new one gets the enter (folded in through `fired_on`
    /// one level down) and the old one the leave. `fired_on` says
    /// whether this node's own parent follows up with `mouse_on` on
    /// this node, whose background repaint is folded into this
    /// relation.
    pub open spec fn is_on_cursor_pos_event(pre: Object, post: Object, x: i64, y: i64, fired_on: bool) -> bool
        decreases pre,
    {
        let cx = clamp_coord(x as int);
        let cy = clamp_coord(y as int);
        let hit = Self::hit_index(pre.children@, cx, cy);
        let changed = hit != pre.prev_on_cursor_child;
        &&& post.children@.len() == pre.children@.len()
        &&& (hit is Some && hit->0 < pre.children@.len() ==> Self::is_on_cursor_pos_event(
            pre.children@[hit->0 as int],
            post.children@[hit->0 as int],
            x,
            y,
            changed,
        ))
        &&& (changed && pre.prev_on_cursor_child is Some
                && pre.prev_on_cursor_child->0 < pre.children@.len()
            ==> Self::is_mouse_off(
                pre.children@[pre.prev_on_cursor_child->0 as int],
                post.children@[pre.prev_on_cursor_child->0 as int],
            ))
        &&& forall|j: int| 0 <= j < pre.children@.len()
            && Some(j as usize) != hit
            && !(changed && pre.prev_on_cursor_child == Some(j as usize))
            ==> post.children@[j] == #[trigger] pre.children@[j]
        &&& post == (Object {
            children: post.children,
            on_cursor_child: hit,
            prev_on_cursor_child: hit,
            cursor_pos: (Vec2 { x: cx, y: cy }),
            prev_cursor_pos: (Vec2 { x: cx, y: cy }),
            background_color: if fired_on {
                reacted_color(pre.mouse_on_event, pre.background_color)
            } else {
                pre.background_color
            },
            ..pre
        })
    }

    /// The handler identifiers `on_cursor_pos_event` hands back: the
    /// hovered child's own routing first, then on a hover change the
    /// new child's enter and the old child's leave.
    pub open spec fn cursor_out(pre: Object, x: i64, y: i64) -> Seq<u64>
        decreases pre,
    {
        let cx = clamp_coord(x as int);
        let cy = clamp_coord(y as int);
        let hit = Self::hit_index(pre.children@, cx, cy);
        let changed = hit != pre.prev_on_cursor_child;
        (if hit is Some && hit->0 < pre.children@.len() {
            Self::cursor_out(pre.children@[hit->0 as int], x, y)
        } else {
            Seq::empty()
        }) + (if changed {
            (if hit is Some && hit->0 < pre.children@.len() {
                reaction_out(pre.children@[hit->0 as int].mouse_on_event)
            } else {
                Seq::empty()
            }) + (if pre.prev_on_cursor_child is Some
                    && pre.prev_on_cursor_child->0 < pre.children@.len() {
                Self::off_out(pre.children@[pre.prev_on_cursor_child->0 as int])
            } else {
                Seq::empty()
            })
        } else {
            Seq::empty()
        })
    }

    /// Hit-testing reads only each child's global position and size:
    /// two lists that agree on those agree on the hit.
    pub proof fn lemma_hit_index_geometry(a: Seq<Object>, b: Seq<Object>, x: i64, y: i64)
        requires
            a.len() == b.len(),
            forall|i: int| 0 <= i < a.len()
                ==> (#[trigger] b[i]).global_pos == a[i].global_pos
                    && b[i].width == a[i].width
                    && b[i].height == a[i].height,
        ensures
            Self::hit_index(a, x, y) == Self::hit_index(b, x, y),
        decreases a.len(),
    {
        if a.len() > 0 {
            assert(a.last().contains_point(x, y) == b.last().contains_point(x, y));
            assert forall|i: int| 0 <= i < a.drop_last().len()
                implies (#[trigger] b.drop_last()[i]).global_pos == a.drop_last()[i].global_pos
                    && b.drop_last()[i].width == a.drop_last()[i].width
                    && b.drop_last()[i].height == a.drop_last()[i].height by {
                assert(a.drop_last()[i] == a[i]);
                assert(b.drop_last()[i] == b[i]);
            }
            Self::lemma_hit_index_geometry(a.drop_last(), b.drop_last(), x, y);
        }
    }

    /// Scan the children from the back of the list to the front and
    /// return the first whose rectangle contains the point.
    pub(crate) fn find_hit(children: &Vec<Object>, x: i64, y: i64) -> (r: Option<usize>)
        requires
            forall|j: int| 0 <= j < children@.len() ==> (#[trigger] children@[j]).wf(),
        ensures
            r == Self::hit_index(children@, x, y),
            r matches Some(k) ==> k < children@.len(),
    {
        let mut i: usize = children.len();
        proof {
            assert(children@.subrange(0, i as int) =~= children@);
        }
        while i > 0
            invariant
                i <= children@.len(),
                forall|j: int| 0 <= j < children@.len() ==> (#[trigger] children@[j]).wf(),
                Self::hit_index(children@, x, y)
                    == Self::hit_index(children@.subrange(0, i as int), x, y),
            decreases i,
        {
            i = i - 1;
            let c = &children[i];
            proof {
                assert(children@.subrange(0, i + 1).last() == children@[i as int]);
                assert(children@.subrange(0, i + 1).drop_last() =~= children@.subrange(0, i as int));
            }
            if c.global_pos.x <= x && x < c.global_pos.x + c.width
                && c.global_pos.y <= y && y < c.global_pos.y + c.height {
                proof {
                    assert(children@.subrange(0, i + 1) =~= children@.subrange(0, i + 1));
                }
                return Some(i);
            }
        }
        proof {
            assert(children@.subrange(0, 0int) =~= Seq::<Object>::empty());
        }
        None
    }

    /// The cursor entered this node: run the enter reaction.
    pub fn mouse_on(&mut self) -> (out: Vec<u64>)
        ensures
            Self::is_mouse_on(*old(self), *final(self)),
            out@ == reaction_out(old(self).mouse_on_event),
            final(self).global_pos == old(self).global_pos
                && final(self).local_pos == old(self).local_pos
                && final(self).base_pos == old(self).base_pos
                && final(self).width == old(self).width
                && final(self).height == old(self).height,
            old(self).wf() ==> final(self).wf(),
    {
        let mut out: Vec<u64> = Vec::new();
        match self.mouse_on_event {
            Reaction::Inert => {}
            Reaction::SetBackground(c) => {
                self.background_color = c;
            }
            Reaction::Custom(h) => {
                out.push(h);
            }
        }
        proof {
            self.lemma_same_shape_wf(*old(self));
        }
        out
    }

    /// The cursor left this node: release any press, run the leave down
    /// the previous hover chain, forget the hovered child, and run the
    /// leave reaction.
    pub fn mouse_off(&mut self) -> (out: Vec<u64>)
        requires
            old(self).wf(),
        ensures
            Self::is_mouse_off(*old(self), *final(self)),
            out@ == Self::off_out(*old(self)),
            final(self).global_pos == old(self).global_pos
                && final(self).local_pos == old(self).local_pos
                && final(self).base_pos == old(self).base_pos
                && final(self).width == old(self).width
                && final(self).height == old(self).height,
            final(self).wf(),
        decreases *old(self),
    {
        self.pressed = false;
        let mut out: Vec<u64> = Vec::new();
        if let Some(p) = self.prev_on_cursor_child {
            let mut c = self.children.remove(p);
            proof {
                assert(c == old(self).children@[p as int]);
                assert(decreases_to!(*old(self) => old(self).children));
                assert(decreases_to!(old(self).children => old(self).children@));
                assert(decreases_to!(old(self).children@ => old(self).children@[p as int]));
            }
            let mut sub = c.mouse_off();
            self.children.insert(p, c);
            out.append(&mut sub);
            self.on_cursor_child = None;
        }
        match self.mouse_off_event {
            Reaction::Inert => {}
            Reaction::SetBackground(c) => {
                self.background_color = c;
            }
            Reaction::Custom(h) => {
                out.push(h);
            }
        }
        proof {
            assert(self.children@ =~= self.children@);
            assert forall|i: int| 0 <= i < self.children@.len() implies
                ((#[trigger] self.children@[i]).wf()
                    && self.children@[i].base_pos.x == clamp_coord(self.global_pos.x as int)
                    && self.children@[i].base_pos.y == clamp_coord(self.global_pos.y as int)) by {
                if !(old(self).prev_on_cursor_child == Some(i as usize)) {
                    assert(self.children@[i] == old(self).children@[i]);
                }
            }
            assert(out@ =~= Self::off_out(*old(self)));
        }
        out
    }

    /// A button went down on this node: press it, run the press down
    /// the hover chain, promote the hovered child to the back of the
    /// list (topmost), and run the press reaction.
    pub fn mouse_down(&mut self) -> (out: Vec<u64>)
        requires
            old(self).wf(),
        ensures
            Self::is_mouse_down(*old(self), *final(self)),
            out@ == Self::down_out(*old(self)),
            final(self).wf(),
        decreases *old(self),
    {
        self.pressed = true;
        let mut out: Vec<u64> = Vec::new();
        if let Some(k) = self.on_cursor_child {
            let mut c = self.children.remove(k);
            proof {
                assert(c == old(self).children@[k as int]);
                assert(decreases_to!(*old(self) => old(self).children));
                assert(decreases_to!(old(self).children => old(self).children@));
                assert(decreases_to!(old(self).children@ => old(self).children@[k as int]));
            }
            let mut sub = c.mouse_down();
            out.append(&mut sub);
            self.children.push(c);
            let n = self.children.len();
            self.on_cursor_child = Some(n - 1);
            self.prev_on_cursor_child = match self.prev_on_cursor_child {
                None => None,
                Some(p) => if k < p {
                    Some(p - 1)
                } else if p == k {
                    Some(n - 1)
                } else {
                    Some(p)
                },
            };
            proof {
                assert forall|j: int| 0 <= j < self.children@.len() - 1
                    implies #[trigger] self.children@[j] == old(self).children@.remove(k as int)[j] by {
                    if j < k {
                        assert(self.children@[j] == old(self).children@[j]);
                    } else {
                        assert(self.children@[j] == old(self).children@[j + 1]);
                    }
                }
            }
        }
        match self.mouse_down_event {
            Reaction::Inert => {}
            Reaction::SetBackground(c) => {
                self.background_color = c;
            }
            Reaction::Custom(h) => {
                out.push(h);
            }
        }
        proof {
            assert forall|i: int| 0 <= i < self.children@.len() implies
                ((#[trigger] self.children@[i]).wf()
                    && self.children@[i].base_pos.x == clamp_coord(self.global_pos.x as int)
                    && self.children@[i].base_pos.y == clamp_coord(self.global_pos.y as int)) by {
                if old(self).on_cursor_child is Some {
                    let k = old(self).on_cursor_child->0;
                    let n = old(self).children@.len();
                    if i < n - 1 {
                        assert(self.children@[i] == old(self).children@.remove(k as int)[i]);
                        if i < k {
                            assert(old(self).children@.remove(k as int)[i] == old(self).children@[i]);
                        } else {
                            assert(old(self).children@.remove(k as int)[i] == old(self).children@[i + 1]);
                        }
                    }
                } else {
                    assert(self.children@[i] == old(self).children@[i]);
                }
            }
            assert(out@ =~= Self::down_out(*old(self)));
        }
        out
    }

    /// A button was released on this node: unpress it, run the release
    /// down the hover chain, and run the release reaction.
    pub fn mouse_up(&mut self) -> (out: Vec<u64>)
        requires
            old(self).wf(),
        ensures
            Self::is_mouse_up(*old(self), *final(self)),
            out@ == Self::up_out(*old(self)),
            final(self).wf(),
        decreases *old(self),
    {
        self.pressed = false;
        let mut out: Vec<u64> = Vec::new();
        if let Some(k) = self.on_cursor_child {
            let mut c = self.children.remove(k);
            proof {
                assert(c == old(self).children@[k as int]);
                assert(decreases_to!(*old(self) => old(self).children));
                assert(decreases_to!(old(self).children => old(self).children@));
                assert(decreases_to!(old(self).children@ => old(self).children@[k as int]));
            }
            let mut sub = c.mouse_up();
            self.children.insert(k, c);
            out.append(&mut sub);
        }
        match self.mouse_up_event {
            Reaction::Inert => {}
            Reaction::SetBackground(c) => {
                self.background_color = c;
            }
            Reaction::Custom(h) => {
                out.push(h);
            }
        }
        proof {
            assert forall|i: int| 0 <= i < self.children@.len() implies
                ((#[trigger] self.children@[i]).wf()
                    && self.children@[i].base_pos.x == clamp_coord(self.global_pos.x as int)
                    && self.children@[i].base_pos.y == clamp_coord(self.global_pos.y as int)) by {
                if !(old(self).on_cursor_child == Some(i as usize)) {
                    assert(self.children@[i] == old(self).children@[i]);
                }
            }
            assert(out@ =~= Self::up_out(*old(self)));
        }
        out
    }

    /// Promote the child at `index` to the back of the list, so it is
    /// painted last (topmost), and remap the stored hover indices so
    /// they keep pointing at the same children.
    pub fn bring_to_front(&mut self, index: usize)
        requires
            old(self).wf(),
            index < old(self).children@.len(),
        ensures
            final(self).children@
                == old(self).children@.remove(index as int).push(old(self).children@[index as int]),
            final(self).on_cursor_child
                == Self::promote_map(old(self).on_cursor_child, index, old(self).children@.len()),
            final(self).prev_on_cursor_child
                == Self::promote_map(old(self).prev_on_cursor_child, index, old(self).children@.len()),
            *final(self) == (Object {
                children: final(self).children,
                on_cursor_child: final(self).on_cursor_child,
                prev_on_cursor_child: final(self).prev_on_cursor_child,
                ..*old(self)
            }),
            final(self).wf(),
    {
        let c = self.children.remove(index);
        self.children.push(c);
        let n = self.children.len();
        self.on_cursor_child = match self.on_cursor_child {
            None => None,
            Some(p) => if index < p {
                Some(p - 1)
            } else if p == index {
                Some(n - 1)
            } else {
                Some(p)
            },
        };
        self.prev_on_cursor_child = match self.prev_on_cursor_child {
            None => None,
            Some(p) => if index < p {
                Some(p - 1)
            } else if p == index {
                Some(n - 1)
            } else {
                Some(p)
            },
        };
        proof {
            assert forall|i: int| 0 <= i < self.children@.len() implies
                ((#[trigger] self.children@[i]).wf()
                    && self.children@[i].base_pos.x == clamp_coord(self.global_pos.x as int)
                    && self.children@[i].base_pos.y == clamp_coord(self.global_pos.y as int)) by {
                if i < self.children@.len() - 1 {
                    assert(self.children@[i] == old(self).children@.remove(index as int)[i]);
                    if i < index {
                        assert(old(self).children@.remove(index as int)[i] == old(self).children@[i]);
                    } else {
                        assert(old(self).children@.remove(index as int)[i] == old(self).children@[i + 1]);
                    }
                } else {
                    assert(self.children@[i] == old(self).children@[index as int]);
                }
            }
        }
    }

    /// Following the routing of a cursor event with the enter reaction
    /// folds into the same relation, with the enter marked fired.
    proof fn lemma_cursor_then_on(pre: Object, mid: Object, post: Object, x: i64, y: i64)
        requires
            Self::is_on_cursor_pos_event(pre, mid, x, y, false),
            Self::is_mouse_on(mid, post),
        ensures
            Self::is_on_cursor_pos_event(pre, post, x, y, true),
    {
        assert(post.children == mid.children);
        assert forall|j: int| 0 <= j < pre.children@.len() implies
            post.children@[j] == #[trigger] mid.children@[j] by {
        }
    }

    /// Record the cursor, resolve the topmost child under it as the new
    /// hovered child and let it handle the event recursively, and when
    /// the hover moved, run the enter on the new child and the leave on
    /// the old one.
    #[verifier::rlimit(100)]
    pub fn on_cursor_pos_event(&mut self, x: i64, y: i64) -> (out: Vec<u64>)
        requires
            old(self).wf(),
        ensures
            Self::is_on_cursor_pos_event(*old(self), *final(self), x, y, false),
            out@ == Self::cursor_out(*old(self), x, y),
            final(self).global_pos == old(self).global_pos
                && final(self).local_pos == old(self).local_pos
                && final(self).base_pos == old(self).base_pos
                && final(self).width == old(self).width
                && final(self).height == old(self).height,
            final(self).wf(),
        decreases *old(self),
    {
        let ghost pre = *old(self);
        let cx = clamp_coord_exec(x);
        let cy = clamp_coord_exec(y);
        self.cursor_pos = Vec2 { x: cx, y: cy };
        let hit = Self::find_hit(&self.children, cx, cy);
        self.on_cursor_child = hit;
        let ghost changed = hit != pre.prev_on_cursor_child;
        let mut out: Vec<u64> = Vec::new();
        if let Some(k) = hit {
            let mut c = self.children.remove(k);
            proof {
                assert(c == pre.children@[k as int]);
                assert(decreases_to!(*old(self) => old(self).children));
                assert(decreases_to!(old(self).children => old(self).children@));
                assert(decreases_to!(old(self).children@ => old(self).children@[k as int]));
            }
            let mut sub = c.on_cursor_pos_event(x, y);
            self.children.insert(k, c);
            out.append(&mut sub);
        }
        let ghost mid = *self;
        let fire = !crate::geom::same_index(&self.on_cursor_child, &self.prev_on_cursor_child);
        proof {
            assert(fire == changed);
        }
        if fire {
            if let Some(k) = self.on_cursor_child {
                let mut c = self.children.remove(k);
                let ghost c_mid = c;
                let mut sub = c.mouse_on();
                proof {
                    Self::lemma_cursor_then_on(pre.children@[k as int], c_mid, c, x, y);
                }
                self.children.insert(k, c);
                out.append(&mut sub);
            }
            if let Some(p) = self.prev_on_cursor_child {
                let mut c = self.children.remove(p);
                proof {
                    assert(c == pre.children@[p as int]);
                    assert(decreases_to!(*old(self) => old(self).children));
                    assert(decreases_to!(old(self).children => old(self).children@));
                    assert(decreases_to!(old(self).children@ => old(self).children@[p as int]));
                }
                let mut sub = c.mouse_off();
                self.children.insert(p, c);
                out.append(&mut sub);
            }
        }
        self.prev_on_cursor_child = self.on_cursor_child;
        self.prev_cursor_pos = self.cursor_pos;
        proof {
            if hit is Some {
                let k = hit->0 as int;
                if changed {
                    assert(Self::is_on_cursor_pos_event(pre.children@[k], self.children@[k], x, y, changed));
                } else {
                    assert(self.children@[k] == mid.children@[k]);
                    assert(Self::is_on_cursor_pos_event(pre.children@[k], self.children@[k], x, y, changed));
                }
            }
            assert(Self::is_on_cursor_pos_event(pre, *self, x, y, false));
            assert forall|i: int| 0 <= i < self.children@.len() implies
                ((#[trigger] self.children@[i]).wf()
                    && self.children@[i].base_pos.x == clamp_coord(self.global_pos.x as int)
                    && self.children@[i].base_pos.y == clamp_coord(self.global_pos.y as int)) by {
                if !(hit == Some(i as usize))
                    && !(changed && pre.prev_on_cursor_child == Some(i as usize)) {
                    assert(self.children@[i] == pre.children@[i]);
                }
            }
            assert(out@ =~= Self::cursor_out(pre, x, y));
        }
        out
    }
}

impl Object {
    /// How `reshape(viewport)` relates a subtree before the call to the
    /// subtree after it: the viewport size (clamped into the budget) is
    /// written at every node of the subtree and nothing else changes.
    pub open spec fn is_reshaped(pre: Object, post: Object, viewport: Vec2) -> bool
        decreases pre,
    {
        &&& post.viewport.x == clamp_size(viewport.x as int)
        &&& post.viewport.y == clamp_size(viewport.y as int)
        &&& post.children@.len() == pre.children@.len()
        &&& forall|i: int| 0 <= i < pre.children@.len() ==> Self::is_reshaped(
            #[trigger] pre.children@[i],
            post.children@[i],
            (Vec2 { x: clamp_size(viewport.x as int), y: clamp_size(viewport.y as int) }),
        )
        &&& post == (Object { children: post.children, viewport: post.viewport, ..pre })
    }

    /// A viewport change reaches every node: write the new viewport
    /// size here and in the whole subtree, so the renderer adapter maps
    /// each node's pixels with the new pixel-to-NDC ratio.
    pub fn reshape(&mut self, viewport: Vec2)
        requires
            old(self).wf(),
        ensures
            Self::is_reshaped(*old(self), *final(self), viewport),
            final(self).wf(),
        decreases *old(self),
    {
        let vx = clamp_size_exec(viewport.x);
        let vy = clamp_size_exec(viewport.y);
        self.viewport = Vec2 { x: vx, y: vy };
        let n = self.children.len();
        let mut i: usize = 0;
        while i < n
            invariant
                i <= n,
                n == self.children.len(),
                n == old(self).children@.len(),
                old(self).wf(),
                self.viewport == (Vec2 {
                    x: clamp_size(viewport.x as int),
                    y: clamp_size(viewport.y as int),
                }),
                forall|j: int| 0 <= j < i ==> Self::is_reshaped(
                    old(self).children@[j],
                    #[trigger] self.children@[j],
                    self.viewport,
                ),
                forall|j: int| 0 <= j < i ==> (#[trigger] self.children@[j]).wf(),
                forall|j: int| i <= j < n ==> #[trigger] self.children@[j] == old(self).children@[j],
                *self == (Object { children: self.children, viewport: self.viewport, ..*old(self) }),
            decreases n - i,
        {
            let mut c = self.children.remove(i);
            proof {
                assert(c == old(self).children@[i as int]);
                assert(decreases_to!(*old(self) => old(self).children));
                assert(decreases_to!(old(self).children => old(self).children@));
                assert(decreases_to!(old(self).children@ => old(self).children@[i as int]));
            }
            c.reshape(self.viewport);
            self.children.insert(i, c);
            i = i + 1;
        }
        proof {
            assert forall|j: int| 0 <= j < n implies Self::is_reshaped(
                old(self).children@[j],
                #[trigger] self.children@[j],
                (Vec2 { x: clamp_size(viewport.x as int), y: clamp_size(viewport.y as int) }),
            ) by {
            }
            assert forall|j: int| 0 <= j < self.children@.len() implies
                ((#[trigger] self.children@[j]).wf()
                    && self.children@[j].base_pos.x == clamp_coord(self.global_pos.x as int)
                    && self.children@[j].base_pos.y == clamp_coord(self.global_pos.y as int)) by {
                assert(self.children@[j].base_pos == old(self).children@[j].base_pos);
            }
        }
    }

    /// The number of children among the first `upto` that are not
    /// marked closed, and so survive the sweep.
    pub open spec fn kept_count(s: Seq<Object>, upto: int) -> int
        decreases upto,
    {
        if upto <= 0 {
            0
        } else {
            Self::kept_count(s, upto - 1) + if s[upto - 1].closed { 0int } else { 1int }
        }
    }

    /// Where a stored child index ends up after the sweep: cleared when
    /// it pointed at a closed (removed) child, shifted down past the
    /// removed ones otherwise, so it keeps pointing at the same child.
    pub open spec fn sweep_map(s: Seq<Object>, idx: Option<usize>) -> Option<usize> {
        match idx {
            None => None,
            Some(k) => if k < s.len() && !s[k as int].closed {
                Some(Self::kept_count(s, k as int) as usize)
            } else {
                None
            },
        }
    }

    /// `kept_count` counts at most one survivor per child.
    pub proof fn lemma_kept_count_nonneg(s: Seq<Object>, i: int)
        requires
            0 <= i,
        ensures
            0 <= Self::kept_count(s, i) <= i,
        decreases i,
    {
        if i > 0 {
            Self::lemma_kept_count_nonneg(s, i - 1);
        }
    }

    /// `kept_count` grows by at most one per child and never shrinks.
    pub proof fn lemma_kept_count_mono(s: Seq<Object>, i: int, j: int)
        requires
            0 <= i <= j,
        ensures
            Self::kept_count(s, i) <= Self::kept_count(s, j) <= Self::kept_count(s, i) + (j - i),
        decreases j - i,
    {
        if i < j {
            Self::lemma_kept_count_mono(s, i, j - 1);
        }
    }

    /// How `render` relates a subtree before the call to the subtree
    /// after it: children marked closed are removed, stored hover
    /// indices are remapped (or cleared when they pointed at a removed
    /// child), and the surviving children are rendered recursively —
    /// unless this node is hiding, in which case they are kept as they
    /// are and nothing is drawn.
    pub open spec fn is_rendered(pre: Object, post: Object) -> bool
        decreases pre,
    {
        let s = pre.children@;
        &&& post.children@.len() == Self::kept_count(s, s.len() as int)
        &&& forall|j: int| 0 <= j < s.len() && !s[j].closed && pre.hiding
            ==> post.children@[Self::kept_count(s, j)] == #[trigger] s[j]
        &&& forall|j: int| 0 <= j < s.len() && !s[j].closed && !pre.hiding
            ==> Self::is_rendered(#[trigger] s[j], post.children@[Self::kept_count(s, j)])
        &&& post.on_cursor_child == Self::sweep_map(s, pre.on_cursor_child)
        &&& post.prev_on_cursor_child == Self::sweep_map(s, pre.prev_on_cursor_child)
        &&& post == (Object {
            children: post.children,
            on_cursor_child: post.on_cursor_child,
            prev_on_cursor_child: post.prev_on_cursor_child,
            ..pre
        })
    }

    /// Every quad of a subtree, painted back-to-front: nothing when the
    /// node is hiding, else its own five quads and then each child's,
    /// in list order.
    pub open spec fn quads_of(n: Object) -> Seq<DrawQuad>
        decreases n,
    {
        if n.hiding {
            Seq::empty()
        } else {
            n.own_quads() + Self::child_quads(n.children@)
        }
    }

    /// The quads of a child list, in list order.
    pub open spec fn child_quads(s: Seq<Object>) -> Seq<DrawQuad>
        decreases s,
    {
        if s.len() == 0 {
            Seq::empty()
        } else {
            Self::child_quads(s.drop_last()) + Self::quads_of(s[s.len() - 1])
        }
    }

    /// Two nodes that agree on position, box model and material have
    /// the same five quads.
    pub proof fn lemma_own_quads_same(a: Object, b: Object)
        requires
            a.global_pos == b.global_pos,
            a.width == b.width,
            a.height == b.height,
            a.border == b.border,
            a.padding == b.padding,
            a.background_color == b.background_color,
            a.shader_type == b.shader_type,
            a.texture == b.texture,
        ensures
            a.own_quads() == b.own_quads(),
    {
        reveal(Object::own_quads);
    }

    /// Where a stored child index ends up after the sweep.
    fn sweep_remap(children: &Vec<Object>, idx: Option<usize>) -> (r: Option<usize>)
        ensures
            r == Self::sweep_map(children@, idx),
    {
        match idx {
            None => None,
            Some(k) => {
                if k < children.len() && !children[k].closed {
                    let mut cnt: usize = 0;
                    let mut i: usize = 0;
                    while i < k
                        invariant
                            i <= k,
                            k < children@.len(),
                            cnt == Self::kept_count(children@, i as int),
                            cnt <= i,
                        decreases k - i,
                    {
                        if !children[i].closed {
                            cnt = cnt + 1;
                        }
                        i = i + 1;
                    }
                    Some(cnt)
                } else {
                    None
                }
            }
        }
    }

    /// A render pass over the subtree: first sweep the children marked
    /// closed out of the list (remapping the stored hover indices), then
    /// — unless this node is hiding — emit this node's five quads and
    /// render the surviving children after it, back-to-front.
    #[verifier::rlimit(100)]
    #[verifier::spinoff_prover]
    pub fn render(&mut self) -> (out: Vec<DrawQuad>)
        requires
            old(self).wf(),
        ensures
            Self::is_rendered(*old(self), *final(self)),
            out@ == Self::quads_of(*final(self)),
            final(self).wf(),
        decreases *old(self),
    {
        let ghost pre = *old(self);
        let new_on = Self::sweep_remap(&self.children, self.on_cursor_child);
        let new_prev = Self::sweep_remap(&self.children, self.prev_on_cursor_child);
        let hiding = self.hiding;
        let mut out: Vec<DrawQuad> = Vec::new();
        if !hiding {
            let mut own = self.quads();
            out.append(&mut own);
        }
        let ghost own0 = out@;
        let mut list: Vec<Object> = Vec::new();
        core::mem::swap(&mut list, &mut self.children);
        proof {
            assert(list == pre.children);
        }
        let n = list.len();
        let mut kept: Vec<Object> = Vec::new();
        let mut i: usize = 0;
        while i < n
            invariant
                pre == *old(self),
                old(self).wf(),
                hiding == pre.hiding,
                n == pre.children@.len(),
                own0 == (if pre.hiding { Seq::<DrawQuad>::empty() } else { pre.own_quads() }),
                i <= n,
                list@ =~= pre.children@.subrange(i as int, n as int),
                kept@.len() == Self::kept_count(pre.children@, i as int),
                forall|j: int| 0 <= j < i && !pre.children@[j].closed && pre.hiding
                    ==> kept@[Self::kept_count(pre.children@, j)] == #[trigger] pre.children@[j],
                forall|j: int| 0 <= j < i && !pre.children@[j].closed && !pre.hiding
                    ==> Self::is_rendered(
                        #[trigger] pre.children@[j],
                        kept@[Self::kept_count(pre.children@, j)],
                    ),
                forall|j: int| 0 <= j < kept@.len() ==> (#[trigger] kept@[j]).wf(),
                forall|j: int| 0 <= j < kept@.len()
                    ==> (#[trigger] kept@[j]).base_pos.x == clamp_coord(pre.global_pos.x as int)
                        && kept@[j].base_pos.y == clamp_coord(pre.global_pos.y as int),
                out@ == (if pre.hiding { Seq::<DrawQuad>::empty() } else {
                    own0 + Self::child_quads(kept@)
                }),
            decreases n - i,
        {
            let c = list.remove(0);
            proof {
                assert(c == pre.children@[i as int]);
                assert(list@ =~= pre.children@.subrange(i + 1, n as int));
                assert(Self::kept_count(pre.children@, i + 1) == Self::kept_count(pre.children@, i as int)
                    + if pre.children@[i as int].closed { 0int } else { 1int });
            }
            if !c.closed {
                let mut c = c;
                if !hiding {
                    proof {
                        assert(decreases_to!(*old(self) => old(self).children));
                        assert(decreases_to!(old(self).children => old(self).children@));
                        assert(decreases_to!(old(self).children@ => old(self).children@[i as int]));
                    }
                    let mut sub = c.render();
                    out.append(&mut sub);
                }
                let ghost kept_before = kept@;
                proof {
                    assert forall|j: int| 0 <= j < i && !pre.children@[j].closed implies
                        0 <= Self::kept_count(pre.children@, j)
                            < Self::kept_count(pre.children@, i as int) by {
                        Self::lemma_kept_count_nonneg(pre.children@, j);
                        Self::lemma_kept_count_mono(pre.children@, j + 1, i as int);
                    }
                }
                kept.push(c);
                proof {
                    assert(kept@.drop_last() =~= kept_before);
                    if !pre.hiding {
                        assert(Self::child_quads(kept@)
                            == Self::child_quads(kept@.drop_last()) + Self::quads_of(kept@[kept@.len() - 1]));
                    }
                }
            }
            i = i + 1;
        }
        self.children = kept;
        self.on_cursor_child = new_on;
        self.prev_on_cursor_child = new_prev;
        proof {
            if self.on_cursor_child is Some {
                let k = pre.on_cursor_child->0 as int;
                Self::lemma_kept_count_nonneg(pre.children@, k);
                Self::lemma_kept_count_mono(pre.children@, k + 1, n as int);
            }
            if self.prev_on_cursor_child is Some {
                let k = pre.prev_on_cursor_child->0 as int;
                Self::lemma_kept_count_nonneg(pre.children@, k);
                Self::lemma_kept_count_mono(pre.children@, k + 1, n as int);
            }
            assert(Self::is_rendered(pre, *self));
            Self::lemma_own_quads_same(pre, *self);
            assert(out@ =~= Self::quads_of(*self));
        }
        out
    }
}

impl Object {
    /// The position invariant, stated over a whole subtree:
    /// `global_pos == base_pos + local_pos` at every node.
    pub open spec fn positions_consistent(self) -> bool
        decreases self,
    {
        &&& self.global_pos.x == self.base_pos.x + self.local_pos.x
        &&& self.global_pos.y == self.base_pos.y + self.local_pos.y
        &&& forall|i: int| 0 <= i < self.children@.len()
            ==> (#[trigger] self.children@[i]).positions_consistent()
    }

    /// Every well-formed subtree satisfies the position invariant:
    /// since each mutator returns a well-formed tree, the global
    /// position equals base plus local at every node after any mutator
    /// returns.
    pub proof fn lemma_global_is_base_plus_local(n: Object)
        requires
            n.wf(),
        ensures
            n.positions_consistent(),
        decreases n,
    {
        assert forall|i: int| 0 <= i < n.children@.len()
            implies (#[trigger] n.children@[i]).positions_consistent() by {
            Self::lemma_global_is_base_plus_local(n.children@[i]);
        }
    }

    /// In a well-formed tree whose global position is inside the
    /// coordinate budget, every direct child's base position equals the
    /// parent's current global position exactly (outside the budget it
    /// is the clamped global position).
    pub proof fn lemma_children_based_at_parent(n: Object)
        requires
            n.wf(),
            -COORD_LIMIT <= n.global_pos.x <= COORD_LIMIT,
            -COORD_LIMIT <= n.global_pos.y <= COORD_LIMIT,
        ensures
            forall|i: int| 0 <= i < n.children@.len()
                ==> (#[trigger] n.children@[i]).base_pos == n.global_pos,
    {
        assert forall|i: int| 0 <= i < n.children@.len()
            implies (#[trigger] n.children@[i]).base_pos == n.global_pos by {
            assert(n.children@[i].base_pos.x == clamp_coord(n.global_pos.x as int));
            assert(n.children@[i].base_pos.y == clamp_coord(n.global_pos.y as int));
        }
    }

    /// After promoting the child at `index` to the back of the list, a
    /// previously-stored hover index is still valid and still resolves
    /// to the same child.
    pub proof fn lemma_promote_preserves_hover(pre: Object, post: Object, index: usize)
        requires
            pre.wf(),
            index < pre.children@.len(),
            pre.children@.len() <= usize::MAX,
            post.children@
                == pre.children@.remove(index as int).push(pre.children@[index as int]),
            post.on_cursor_child
                == Self::promote_map(pre.on_cursor_child, index, pre.children@.len()),
            post.prev_on_cursor_child
                == Self::promote_map(pre.prev_on_cursor_child, index, pre.children@.len()),
        ensures
            pre.on_cursor_child is Some ==> (post.on_cursor_child is Some
                && post.on_cursor_child->0 < post.children@.len()
                && post.children@[post.on_cursor_child->0 as int]
                    == pre.children@[pre.on_cursor_child->0 as int]),
            pre.prev_on_cursor_child is Some ==> (post.prev_on_cursor_child is Some
                && post.prev_on_cursor_child->0 < post.children@.len()
                && post.children@[post.prev_on_cursor_child->0 as int]
                    == pre.children@[pre.prev_on_cursor_child->0 as int]),
    {
        let n = pre.children@.len() as int;
        let base = pre.children@.remove(index as int);
        let pushed = base.push(pre.children@[index as int]);
        assert(post.children@ == pushed);
        assert(pushed.len() == n);
        assert forall|j: int| 0 <= j < n implies #[trigger] post.children@[j] == pushed[j] by {
        }
        if pre.on_cursor_child is Some {
            let p = pre.on_cursor_child->0;
            assert(p < n);
            if p == index {
                assert(post.on_cursor_child == Some((n - 1) as usize));
                assert(pushed[n - 1] == pre.children@[index as int]);
                assert(post.children@[n - 1] == pre.children@[p as int]);
            } else if index < p {
                assert(post.on_cursor_child == Some((p - 1) as usize));
                assert(pushed[p - 1] == base[p - 1]);
                assert(base[p - 1] == pre.children@[p as int]);
                assert(post.children@[p - 1] == pre.children@[p as int]);
            } else {
                assert(post.on_cursor_child == Some(p));
                assert(pushed[p as int] == base[p as int]);
                assert(base[p as int] == pre.children@[p as int]);
                assert(post.children@[p as int] == pre.children@[p as int]);
            }
        }
        if pre.prev_on_cursor_child is Some {
            let p = pre.prev_on_cursor_child->0;
            assert(p < n);
            if p == index {
                assert(post.prev_on_cursor_child == Some((n - 1) as usize));
                assert(pushed[n - 1] == pre.children@[index as int]);
                assert(post.children@[n - 1] == pre.children@[p as int]);
            } else if index < p {
                assert(post.prev_on_cursor_child == Some((p - 1) as usize));
                assert(pushed[p - 1] == base[p - 1]);
                assert(base[p - 1] == pre.children@[p as int]);
                assert(post.children@[p - 1] == pre.children@[p as int]);
            } else {
                assert(post.prev_on_cursor_child == Some(p));
                assert(pushed[p as int] == base[p as int]);
                assert(base[p as int] == pre.children@[p as int]);
                assert(post.children@[p as int] == pre.children@[p as int]);
            }
        }
    }

}

} // verus!
