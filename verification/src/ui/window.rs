use vstd::prelude::*;
use crate::geom::{Vec2, clamp_coord, clamp_coord_exec, clamp_size, clamp_size_exec, COORD_LIMIT};
use crate::image::Image;
use crate::texture::Texture;
use crate::ui::object::{Object, Color, DrawQuad, Reaction, ShaderType, reaction_out};

verus! {

/// The fixed chrome measurements every window is built with: the frame
/// border thickness, the content box's own border, the title band as a
/// multiple of the frame border, and the width of one system button.
pub const FRAME_BORDER: i64 = 8;
pub const CONTENT_BORDER: i64 = 1;
pub const FRAME_RATIO: i64 = 4;
pub const BUTTON_WIDTH: i64 = 24;

/// The scalar outcome of one drag/resize step: where the window frame
/// sits and how large it is.
#[derive(Clone, Copy, PartialEq, Eq, Structural, Debug)]
pub struct WindowGeo {
    pub pos: Vec2,
    pub background_width: i64,
    pub background_height: i64,
}

/// A draggable, resizable top-level window: a background frame, a
/// content box and three system buttons (close, maximize, minimize),
/// each a [`Object`], plus the drag/resize bookkeeping.
pub struct Window {
    // property
    pub id: usize,
    pub name: String,
    pub content_width: i64,
    pub content_height: i64,
    pub content_border_size: i64,
    pub border_size: i64,
    pub border_ratio: i64,
    pub background_width: i64,
    pub background_height: i64,
    pub pos: Vec2,

    // elements: background, content, close, maximize, minimize
    pub button_width: i64,
    pub elements: Vec<Object>,
    pub on_cursor_element: Option<usize>,
    pub prev_on_cursor_element: Option<usize>,

    // event
    pub viewport: Vec2,
    pub moving: bool,
    pub sizing_top: bool,
    pub sizing_right: bool,
    pub sizing_bottom: bool,
    pub sizing_left: bool,
    pub closed: bool,
    pub cursor_pos: Vec2,
    pub prev_cursor_pos: Vec2,
    pub frame_cursor_gap: Vec2,
}

impl Window {
    /// The minimum frame height resizing allows: the title band plus
    /// the bottom border, so the chrome can never be hidden.
    pub open spec fn min_height() -> int {
        FRAME_BORDER * (FRAME_RATIO + 1)
    }

    /// The minimum frame width resizing allows: the side borders plus
    /// the button cluster.
    pub open spec fn min_width() -> int {
        FRAME_BORDER * 2 + BUTTON_WIDTH * 4
    }

    /// Well-formedness: the five elements exist and are well-formed,
    /// the chrome constants are the fixed ones, every stored coordinate
    /// is inside its budget and every stored element index points at an
    /// element.
    pub open spec fn wf(self) -> bool {
        &&& self.elements@.len() == 5
        &&& forall|i: int| 0 <= i < 5 ==> (#[trigger] self.elements@[i]).wf()
        &&& self.border_size == FRAME_BORDER
        &&& self.content_border_size == CONTENT_BORDER
        &&& self.border_ratio == FRAME_RATIO
        &&& self.button_width == BUTTON_WIDTH
        &&& self.pos.in_budget()
        &&& 0 <= self.background_width <= COORD_LIMIT
        &&& 0 <= self.background_height <= COORD_LIMIT
        &&& 0 <= self.content_width <= COORD_LIMIT
        &&& 0 <= self.content_height <= COORD_LIMIT
        &&& 0 <= self.viewport.x <= COORD_LIMIT
        &&& 0 <= self.viewport.y <= COORD_LIMIT
        &&& self.cursor_pos.in_budget()
        &&& self.prev_cursor_pos.in_budget()
        &&& -4 * COORD_LIMIT <= self.frame_cursor_gap.x <= 4 * COORD_LIMIT
        &&& -4 * COORD_LIMIT <= self.frame_cursor_gap.y <= 4 * COORD_LIMIT
        &&& (self.on_cursor_element matches Some(k) ==> k < 5)
        &&& (self.prev_on_cursor_element matches Some(k) ==> k < 5)
    }

    /// The frame while moving: it follows the cursor at the recorded
    /// gap, each axis independently.
    pub open spec fn geo_move(pre: Window, g: WindowGeo, cx: i64, cy: i64) -> WindowGeo {
        if pre.moving {
            WindowGeo {
                pos: (Vec2 {
                    x: clamp_coord(cx - pre.frame_cursor_gap.x),
                    y: clamp_coord(cy - pre.frame_cursor_gap.y),
                }),
                ..g
            }
        } else {
            g
        }
    }

    /// The frame while the top edge is dragged: the bottom edge stays,
    /// the height follows the cursor down to the chrome floor.
    pub open spec fn geo_top(pre: Window, g: WindowGeo, cx: i64, cy: i64) -> WindowGeo {
        if pre.sizing_top {
            let avail = pre.background_height - (cy - g.pos.y - pre.frame_cursor_gap.y);
            if Self::min_height() < avail {
                WindowGeo {
                    background_height: clamp_size(avail),
                    pos: (Vec2 { x: g.pos.x, y: clamp_coord(cy - pre.frame_cursor_gap.y) }),
                    ..g
                }
            } else {
                WindowGeo {
                    background_height: clamp_size(Self::min_height()),
                    pos: (Vec2 {
                        x: g.pos.x,
                        y: clamp_coord(g.pos.y + pre.background_height - Self::min_height()),
                    }),
                    ..g
                }
            }
        } else {
            g
        }
    }

    /// The frame while the right edge is dragged.
    pub open spec fn geo_right(pre: Window, g: WindowGeo, cx: i64, cy: i64) -> WindowGeo {
        if pre.sizing_right {
            let avail = cx - g.pos.x + pre.frame_cursor_gap.x;
            if Self::min_width() < avail {
                WindowGeo { background_width: clamp_size(avail), ..g }
            } else {
                WindowGeo { background_width: clamp_size(Self::min_width()), ..g }
            }
        } else {
            g
        }
    }

    /// The frame while the bottom edge is dragged.
    pub open spec fn geo_bottom(pre: Window, g: WindowGeo, cx: i64, cy: i64) -> WindowGeo {
        if pre.sizing_bottom {
            let avail = cy - g.pos.y + pre.frame_cursor_gap.y;
            if Self::min_height() < avail {
                WindowGeo { background_height: clamp_size(avail), ..g }
            } else {
                WindowGeo { background_height: clamp_size(Self::min_height()), ..g }
            }
        } else {
            g
        }
    }

    /// The frame while the left edge is dragged: the right edge stays,
    /// the width follows the cursor down to the chrome floor.
    pub open spec fn geo_left(pre: Window, g: WindowGeo, cx: i64, cy: i64) -> WindowGeo {
        if pre.sizing_left {
            let avail = pre.background_width - (cx - g.pos.x - pre.frame_cursor_gap.x);
            if Self::min_width() < avail {
                WindowGeo {
                    background_width: clamp_size(avail),
                    pos: (Vec2 { x: clamp_coord(cx - pre.frame_cursor_gap.x), y: g.pos.y }),
                    ..g
                }
            } else {
                WindowGeo {
                    background_width: clamp_size(Self::min_width()),
                    pos: (Vec2 {
                        x: clamp_coord(g.pos.x + pre.background_width - Self::min_width()),
                        y: g.pos.y,
                    }),
                    ..g
                }
            }
        } else {
            g
        }
    }

    /// The scalar drag/resize step one cursor event performs: while
    /// moving, the frame follows the cursor at the recorded gap; while
    /// resizing, each flagged edge follows the cursor down to the
    /// chrome floor, and the top or left edge advances the origin so
    /// the opposite edge stays put.
    pub open spec fn drag_geo(pre: Window, cx: i64, cy: i64) -> WindowGeo {
        let g0 = WindowGeo {
            pos: pre.pos,
            background_width: pre.background_width,
            background_height: pre.background_height,
        };
        Self::geo_left(
            pre,
            Self::geo_bottom(
                pre,
                Self::geo_right(pre, Self::geo_top(pre, Self::geo_move(pre, g0, cx, cy), cx, cy), cx, cy),
                cx,
                cy,
            ),
            cx,
            cy,
        )
    }

    /// Build a window at the given position: a frame sized to a quarter
    /// of the viewport, a content box inside the title band, and the
    /// close, maximize and minimize buttons anchored to the right edge,
    /// each showing its icon through the given texture.
    pub fn create(
        id: usize,
        name: &str,
        frame_buffer_size_x: i64,
        frame_buffer_size_y: i64,
        pos_x: i64,
        pos_y: i64,
        close_image: &Image,
        maximize_image: &Image,
        minimize_image: &Image,
        close_texture: Texture,
        maximize_texture: Texture,
        minimize_texture: Texture,
    ) -> (r: Window)
        requires
            0 <= frame_buffer_size_x <= COORD_LIMIT,
            0 <= frame_buffer_size_y <= COORD_LIMIT,
        ensures
            r.wf(),
            r.id == id,
            r.name@ == name@,
            r.content_width == frame_buffer_size_x / 4,
            r.content_height == frame_buffer_size_y / 4,
            r.background_width == r.content_width + FRAME_BORDER * 2,
            r.background_height == r.content_height + FRAME_BORDER * (FRAME_RATIO + 1),
            r.pos == (Vec2 { x: clamp_coord(pos_x as int), y: clamp_coord(pos_y as int) }),
            r.viewport == (Vec2 {
                x: clamp_size(frame_buffer_size_x as int),
                y: clamp_size(frame_buffer_size_y as int),
            }),
            !r.moving && !r.sizing_top && !r.sizing_right && !r.sizing_bottom && !r.sizing_left,
            !r.closed,
            r.on_cursor_element is None && r.prev_on_cursor_element is None,
            r.elements@.len() == 5,
            r.elements@[0].width == r.background_width && r.elements@[0].height == r.background_height,
            r.elements@[1].width == r.content_width + CONTENT_BORDER * 2
                && r.elements@[1].height == r.content_height + CONTENT_BORDER * 2,
            r.elements@[2].width == BUTTON_WIDTH * 2 && r.elements@[2].height == BUTTON_WIDTH,
            r.elements@[3].width == BUTTON_WIDTH && r.elements@[3].height == BUTTON_WIDTH,
            r.elements@[4].width == BUTTON_WIDTH && r.elements@[4].height == BUTTON_WIDTH,
            forall|k: int| 0 <= k < 5 ==> (#[trigger] r.elements@[k]).base_pos == r.pos,
            r.elements@[2].local_pos.x == r.background_width - FRAME_BORDER - BUTTON_WIDTH * 2,
            r.elements@[3].local_pos.x == r.background_width - FRAME_BORDER - BUTTON_WIDTH * 3,
            r.elements@[4].local_pos.x == r.background_width - FRAME_BORDER - BUTTON_WIDTH * 4,
    {
        let viewport = Vec2 { x: clamp_size_exec(frame_buffer_size_x), y: clamp_size_exec(frame_buffer_size_y) };
        let content_width: i64 = frame_buffer_size_x / 4;
        let content_height: i64 = frame_buffer_size_y / 4;
        let background_width: i64 = content_width + FRAME_BORDER * 2;
        let background_height: i64 = content_height + FRAME_BORDER * (FRAME_RATIO + 1);
        let px = clamp_coord_exec(pos_x);
        let py = clamp_coord_exec(pos_y);

        let frame_color = Color::from_u8(192, 192, 192, 224);
        let mut background = Object::create(0, "background", viewport);
        background.set_size(Some(background_width), Some(background_height));
        background.set_border_size(Some(FRAME_BORDER), Some(FRAME_BORDER), Some(FRAME_BORDER), Some(FRAME_BORDER));
        background.set_border_color(Some(frame_color), Some(frame_color), Some(frame_color), Some(frame_color));
        background.set_base_pos(Some(px), Some(py));
        background.set_local_pos(None, None);
        background.set_background_color(frame_color);

        let mut content = Object::create(1, "content box", viewport);
        content.set_size(Some(content_width + CONTENT_BORDER * 2), Some(content_height + CONTENT_BORDER * 2));
        content.set_border_size(Some(CONTENT_BORDER), Some(CONTENT_BORDER), Some(CONTENT_BORDER), Some(CONTENT_BORDER));
        content.set_border_color(
            Some(Color::from_u8(0, 0, 0, 255)),
            Some(Color::from_u8(255, 255, 255, 255)),
            Some(Color::from_u8(255, 255, 255, 255)),
            Some(Color::from_u8(0, 0, 0, 255)),
        );
        content.set_base_pos(Some(px), Some(py));
        content.set_local_pos(
            Some(FRAME_BORDER - CONTENT_BORDER),
            Some(FRAME_BORDER * FRAME_RATIO - CONTENT_BORDER),
        );
        content.set_background_color(Color::from_u8(64, 64, 64, 255));

        let mut close = Object::create(2, "close button", viewport);
        close.set_size(Some(BUTTON_WIDTH * 2), Some(BUTTON_WIDTH));
        close.set_base_pos(Some(px), Some(py));
        close.set_local_pos(Some(background_width - FRAME_BORDER - BUTTON_WIDTH * 2), None);
        close.set_background_color(Color::from_u8(160, 64, 64, 255));
        close.set_mouse_off_event(Reaction::SetBackground(Color::from_u8(160, 64, 64, 255)));
        close.set_mouse_on_event(Reaction::SetBackground(Color::from_u8(160, 32, 32, 255)));
        close.set_mouse_down_event(Reaction::SetBackground(Color::from_u8(128, 32, 32, 255)));
        close.set_mouse_up_event(Reaction::SetBackground(Color::from_u8(160, 32, 32, 255)));
        let mut close_icon = Object::create(0, "close image", viewport);
        close_icon.set_background_color(Color::from_u8(255, 255, 255, 255));
        close_icon.set_shader_type(ShaderType::Mix);
        close_icon.enable_texture(close_texture);
        close_icon.set_texture(close_image);
        close_icon.set_local_pos(Some(16), Some(4));
        close.add_child(close_icon);

        let mut maximize = Object::create(3, "maximize button", viewport);
        maximize.set_size(Some(BUTTON_WIDTH), Some(BUTTON_WIDTH));
        maximize.set_base_pos(Some(px), Some(py));
        maximize.set_local_pos(Some(background_width - FRAME_BORDER - BUTTON_WIDTH * 3), None);
        maximize.set_background_color(Color::from_u8(255, 255, 255, 0));
        maximize.set_mouse_off_event(Reaction::SetBackground(Color::from_u8(0, 0, 0, 0)));
        maximize.set_mouse_on_event(Reaction::SetBackground(Color::from_u8(255, 255, 255, 32)));
        maximize.set_mouse_down_event(Reaction::SetBackground(Color::from_u8(0, 0, 0, 32)));
        maximize.set_mouse_up_event(Reaction::SetBackground(Color::from_u8(255, 255, 255, 32)));
        let mut maximize_icon = Object::create(0, "maximize image", viewport);
        maximize_icon.set_background_color(Color::from_u8(0, 0, 0, 255));
        maximize_icon.set_shader_type(ShaderType::Mix);
        maximize_icon.enable_texture(maximize_texture);
        maximize_icon.set_texture(maximize_image);
        maximize_icon.set_local_pos(Some(4), Some(4));
        maximize.add_child(maximize_icon);

        let mut minimize = Object::create(4, "minimize button", viewport);
        minimize.set_size(Some(BUTTON_WIDTH), Some(BUTTON_WIDTH));
        minimize.set_base_pos(Some(px), Some(py));
        minimize.set_local_pos(Some(background_width - FRAME_BORDER - BUTTON_WIDTH * 4), None);
        minimize.set_background_color(Color::from_u8(255, 255, 255, 0));
        minimize.set_mouse_off_event(Reaction::SetBackground(Color::from_u8(0, 0, 0, 0)));
        minimize.set_mouse_on_event(Reaction::SetBackground(Color::from_u8(255, 255, 255, 32)));
        minimize.set_mouse_down_event(Reaction::SetBackground(Color::from_u8(0, 0, 0, 32)));
        minimize.set_mouse_up_event(Reaction::SetBackground(Color::from_u8(255, 255, 255, 32)));
        let mut minimize_icon = Object::create(0, "minimize image", viewport);
        minimize_icon.set_background_color(Color::from_u8(0, 0, 0, 255));
        minimize_icon.set_shader_type(ShaderType::Mix);
        minimize_icon.enable_texture(minimize_texture);
        minimize_icon.set_texture(minimize_image);
        minimize_icon.set_local_pos(Some(4), Some(4));
        minimize.add_child(minimize_icon);

        let mut elements: Vec<Object> = Vec::new();
        elements.push(background);
        elements.push(content);
        elements.push(close);
        elements.push(maximize);
        elements.push(minimize);

        Window {
            id,
            name: name.to_owned(),
            content_width,
            content_height,
            content_border_size: CONTENT_BORDER,
            border_size: FRAME_BORDER,
            border_ratio: FRAME_RATIO,
            background_width,
            background_height,
            pos: Vec2 { x: px, y: py },
            button_width: BUTTON_WIDTH,
            elements,
            on_cursor_element: None,
            prev_on_cursor_element: None,
            viewport,
            moving: false,
            sizing_top: false,
            sizing_right: false,
            sizing_bottom: false,
            sizing_left: false,
            closed: false,
            cursor_pos: Vec2 { x: 0, y: 0 },
            prev_cursor_pos: Vec2 { x: 0, y: 0 },
            frame_cursor_gap: Vec2 { x: 0, y: 0 },
        }
    }

    /// Move the frame: the given axes of `pos` are written (clamped)
    /// and become every element's base position on those axes.
    pub fn set_pos(&mut self, x: Option<i64>, y: Option<i64>)
        requires
            old(self).wf(),
        ensures
            final(self).pos.x == if x is Some { clamp_coord(x->0 as int) } else { old(self).pos.x },
            final(self).pos.y == if y is Some { clamp_coord(y->0 as int) } else { old(self).pos.y },
            final(self).elements@.len() == 5,
            forall|k: int| 0 <= k < 5 ==> Object::is_set_base_pos(
                #[trigger] old(self).elements@[k],
                final(self).elements@[k],
                x,
                y,
            ),
            *final(self) == (Window {
                pos: final(self).pos,
                elements: final(self).elements,
                ..*old(self)
            }),
            final(self).wf(),
    {
        if let Some(xv) = x {
            self.pos.x = clamp_coord_exec(xv);
        }
        if let Some(yv) = y {
            self.pos.y = clamp_coord_exec(yv);
        }
        let n = self.elements.len();
        let mut k: usize = 0;
        while k < n
            invariant
                old(self).wf(),
                k <= n,
                n == 5,
                n == self.elements.len(),
                self.pos.x == if x is Some { clamp_coord(x->0 as int) } else { old(self).pos.x },
                self.pos.y == if y is Some { clamp_coord(y->0 as int) } else { old(self).pos.y },
                forall|j: int| 0 <= j < k ==> Object::is_set_base_pos(
                    old(self).elements@[j],
                    #[trigger] self.elements@[j],
                    x,
                    y,
                ),
                forall|j: int| 0 <= j < k ==> (#[trigger] self.elements@[j]).wf(),
                forall|j: int| k <= j < n ==> #[trigger] self.elements@[j] == old(self).elements@[j],
                *self == (Window { pos: self.pos, elements: self.elements, ..*old(self) }),
            decreases n - k,
        {
            let mut e = self.elements.remove(k);
            e.set_base_pos(x, y);
            self.elements.insert(k, e);
            k = k + 1;
        }
    }

    /// Resize by the content box: the frame follows, keeping the chrome
    /// around it.
    pub fn set_content_size(&mut self, content_width: Option<i64>, content_height: Option<i64>)
        requires
            old(self).wf(),
        ensures
            final(self).content_width == if content_width is Some {
                clamp_size(content_width->0 as int)
            } else {
                old(self).content_width
            },
            final(self).content_height == if content_height is Some {
                clamp_size(content_height->0 as int)
            } else {
                old(self).content_height
            },
            final(self).background_width == if content_width is Some {
                clamp_size(final(self).content_width + FRAME_BORDER * 2)
            } else {
                old(self).background_width
            },
            final(self).background_height == if content_height is Some {
                clamp_size(final(self).content_height + FRAME_BORDER * (FRAME_RATIO + 1))
            } else {
                old(self).background_height
            },
            final(self).elements@.len() == 5,
            final(self).elements@[0] == (Object {
                width: if content_width is Some { final(self).background_width } else { old(self).elements@[0].width },
                height: if content_height is Some { final(self).background_height } else { old(self).elements@[0].height },
                ..old(self).elements@[0]
            }),
            final(self).elements@[1] == (Object {
                width: if content_width is Some {
                    clamp_size(final(self).content_width + CONTENT_BORDER * 2)
                } else {
                    old(self).elements@[1].width
                },
                height: if content_height is Some {
                    clamp_size(final(self).content_height + CONTENT_BORDER * 2)
                } else {
                    old(self).elements@[1].height
                },
                ..old(self).elements@[1]
            }),
            forall|k: int| 2 <= k < 5
                ==> final(self).elements@[k] == #[trigger] old(self).elements@[k],
            *final(self) == (Window {
                content_width: final(self).content_width,
                content_height: final(self).content_height,
                background_width: final(self).background_width,
                background_height: final(self).background_height,
                elements: final(self).elements,
                ..*old(self)
            }),
            final(self).wf(),
    {
        if let Some(cw) = content_width {
            let cwv = clamp_size_exec(cw);
            self.content_width = cwv;
            self.background_width = clamp_size_exec(cwv + FRAME_BORDER * 2);
            let mut e = self.elements.remove(1);
            e.set_size(Some(cwv + CONTENT_BORDER * 2), None);
            self.elements.insert(1, e);
            let mut e0 = self.elements.remove(0);
            e0.set_size(Some(self.background_width), None);
            self.elements.insert(0, e0);
        }
        if let Some(ch) = content_height {
            let chv = clamp_size_exec(ch);
            self.content_height = chv;
            self.background_height = clamp_size_exec(chv + FRAME_BORDER * (FRAME_RATIO + 1));
            let mut e = self.elements.remove(1);
            e.set_size(None, Some(chv + CONTENT_BORDER * 2));
            self.elements.insert(1, e);
            let mut e0 = self.elements.remove(0);
            e0.set_size(None, Some(self.background_height));
            self.elements.insert(0, e0);
        }
        proof {
            assert forall|i: int| 0 <= i < 5 implies (#[trigger] self.elements@[i]).wf() by {
                if i >= 2 {
                    assert(self.elements@[i] == old(self).elements@[i]);
                }
            }
        }
    }

    /// Resize by the frame: the content box follows, losing the chrome
    /// around it (a frame smaller than its chrome leaves an empty
    /// content box).
    pub fn set_background_size(&mut self, background_width: Option<i64>, background_height: Option<i64>)
        requires
            old(self).wf(),
        ensures
            final(self).background_width == if background_width is Some {
                clamp_size(background_width->0 as int)
            } else {
                old(self).background_width
            },
            final(self).background_height == if background_height is Some {
                clamp_size(background_height->0 as int)
            } else {
                old(self).background_height
            },
            final(self).content_width == if background_width is Some {
                clamp_size(final(self).background_width - FRAME_BORDER * 2)
            } else {
                old(self).content_width
            },
            final(self).content_height == if background_height is Some {
                clamp_size(final(self).background_height - FRAME_BORDER * (FRAME_RATIO + 1))
            } else {
                old(self).content_height
            },
            final(self).elements@.len() == 5,
            final(self).elements@[0] == (Object {
                width: if background_width is Some { final(self).background_width } else { old(self).elements@[0].width },
                height: if background_height is Some { final(self).background_height } else { old(self).elements@[0].height },
                ..old(self).elements@[0]
            }),
            final(self).elements@[1] == (Object {
                width: if background_width is Some {
                    clamp_size(final(self).content_width + CONTENT_BORDER * 2)
                } else {
                    old(self).elements@[1].width
                },
                height: if background_height is Some {
                    clamp_size(final(self).content_height + CONTENT_BORDER * 2)
                } else {
                    old(self).elements@[1].height
                },
                ..old(self).elements@[1]
            }),
            forall|k: int| 2 <= k < 5
                ==> final(self).elements@[k] == #[trigger] old(self).elements@[k],
            *final(self) == (Window {
                content_width: final(self).content_width,
                content_height: final(self).content_height,
                background_width: final(self).background_width,
                background_height: final(self).background_height,
                elements: final(self).elements,
                ..*old(self)
            }),
            final(self).wf(),
    {
        if let Some(bw) = background_width {
            let bwv = clamp_size_exec(bw);
            self.background_width = bwv;
            let cwv = clamp_size_exec(bwv - FRAME_BORDER * 2);
            self.content_width = cwv;
            let mut e0 = self.elements.remove(0);
            e0.set_size(Some(bwv), None);
            self.elements.insert(0, e0);
            let mut e = self.elements.remove(1);
            e.set_size(Some(cwv + CONTENT_BORDER * 2), None);
            self.elements.insert(1, e);
        }
        if let Some(bh) = background_height {
            let bhv = clamp_size_exec(bh);
            self.background_height = bhv;
            let chv = clamp_size_exec(bhv - FRAME_BORDER * (FRAME_RATIO + 1));
            self.content_height = chv;
            let mut e0 = self.elements.remove(0);
            e0.set_size(None, Some(bhv));
            self.elements.insert(0, e0);
            let mut e = self.elements.remove(1);
            e.set_size(None, Some(chv + CONTENT_BORDER * 2));
            self.elements.insert(1, e);
        }
        proof {
            assert forall|i: int| 0 <= i < 5 implies (#[trigger] self.elements@[i]).wf() by {
                if i >= 2 {
                    assert(self.elements@[i] == old(self).elements@[i]);
                }
            }
        }
    }

    /// A viewport change reaches every element and its subtree.
    pub fn reshape(&mut self, viewport: Vec2)
        requires
            old(self).wf(),
        ensures
            final(self).viewport == (Vec2 {
                x: clamp_size(viewport.x as int),
                y: clamp_size(viewport.y as int),
            }),
            final(self).elements@.len() == 5,
            forall|k: int| 0 <= k < 5 ==> Object::is_reshaped(
                #[trigger] old(self).elements@[k],
                final(self).elements@[k],
                viewport,
            ),
            *final(self) == (Window {
                viewport: final(self).viewport,
                elements: final(self).elements,
                ..*old(self)
            }),
            final(self).wf(),
    {
        self.viewport = Vec2 { x: clamp_size_exec(viewport.x), y: clamp_size_exec(viewport.y) };
        let n = self.elements.len();
        let mut k: usize = 0;
        while k < n
            invariant
                old(self).wf(),
                k <= n,
                n == 5,
                n == self.elements.len(),
                self.viewport == (Vec2 {
                    x: clamp_size(viewport.x as int),
                    y: clamp_size(viewport.y as int),
                }),
                forall|j: int| 0 <= j < k ==> Object::is_reshaped(
                    old(self).elements@[j],
                    #[trigger] self.elements@[j],
                    viewport,
                ),
                forall|j: int| 0 <= j < k ==> (#[trigger] self.elements@[j]).wf(),
                forall|j: int| k <= j < n ==> #[trigger] self.elements@[j] == old(self).elements@[j],
                *self == (Window { viewport: self.viewport, elements: self.elements, ..*old(self) }),
            decreases n - k,
        {
            let mut e = self.elements.remove(k);
            e.reshape(viewport);
            self.elements.insert(k, e);
            k = k + 1;
        }
    }

    /// A render pass over the window: each element sweeps its closed
    /// children and emits its quads, back-to-front in element order.
    pub fn render(&mut self) -> (out: Vec<DrawQuad>)
        requires
            old(self).wf(),
        ensures
            final(self).elements@.len() == 5,
            forall|k: int| 0 <= k < 5 ==> Object::is_rendered(
                #[trigger] old(self).elements@[k],
                final(self).elements@[k],
            ),
            out@ == Object::child_quads(final(self).elements@),
            *final(self) == (Window { elements: final(self).elements, ..*old(self) }),
            final(self).wf(),
    {
        let n = self.elements.len();
        let mut out: Vec<DrawQuad> = Vec::new();
        let mut k: usize = 0;
        while k < n
            invariant
                old(self).wf(),
                k <= n,
                n == 5,
                n == self.elements.len(),
                forall|j: int| 0 <= j < k ==> Object::is_rendered(
                    old(self).elements@[j],
                    #[trigger] self.elements@[j],
                ),
                forall|j: int| 0 <= j < k ==> (#[trigger] self.elements@[j]).wf(),
                forall|j: int| k <= j < n ==> #[trigger] self.elements@[j] == old(self).elements@[j],
                out@ == Object::child_quads(self.elements@.subrange(0, k as int)),
                *self == (Window { elements: self.elements, ..*old(self) }),
            decreases n - k,
        {
            let ghost before = self.elements@;
            let mut e = self.elements.remove(k);
            let mut sub = e.render();
            self.elements.insert(k, e);
            out.append(&mut sub);
            k = k + 1;
            proof {
                assert(self.elements@.subrange(0, k as int).drop_last()
                    =~= before.subrange(0, k - 1));
                assert(self.elements@.subrange(0, k - 1) =~= before.subrange(0, k - 1));
            }
        }
        proof {
            assert(self.elements@.subrange(0, 5) =~= self.elements@);
        }
        out
    }
}

/// The scalar outcome of a press on the window frame: which drag or
/// resize the window enters and the recorded cursor-to-origin gap.
#[derive(Clone, Copy, PartialEq, Eq, Structural, Debug)]
pub struct PressState {
    pub moving: bool,
    pub sizing_top: bool,
    pub sizing_right: bool,
    pub sizing_bottom: bool,
    pub sizing_left: bool,
    pub frame_cursor_gap: Vec2,
}

impl Window {
    /// The drag/resize state a press at the stored cursor enters, when
    /// the press lands on the background frame: the title band (below
    /// the top border, above the content) starts a move; a strip of
    /// border thickness along each edge starts that edge's resize, with
    /// two adjacent strips meeting in a corner.
    pub open spec fn press_geo(pre: Window) -> PressState {
        let cx = pre.cursor_pos.x as int;
        let cy = pre.cursor_pos.y as int;
        let px = pre.pos.x as int;
        let py = pre.pos.y as int;
        let bw = pre.background_width as int;
        let bh = pre.background_height as int;
        let b = FRAME_BORDER as int;
        let p0 = PressState {
            moving: pre.moving,
            sizing_top: pre.sizing_top,
            sizing_right: pre.sizing_right,
            sizing_bottom: pre.sizing_bottom,
            sizing_left: pre.sizing_left,
            frame_cursor_gap: pre.frame_cursor_gap,
        };
        let p1 = if px + b <= cx < px + bw - b && py + b <= cy < py + b * FRAME_RATIO {
            PressState {
                moving: true,
                frame_cursor_gap: (Vec2 { x: (cx - px) as i64, y: (cy - py) as i64 }),
                ..p0
            }
        } else {
            p0
        };
        let p2 = if py <= cy < py + b {
            PressState {
                sizing_top: true,
                frame_cursor_gap: (Vec2 { x: p1.frame_cursor_gap.x, y: (cy - py) as i64 }),
                ..p1
            }
        } else {
            p1
        };
        let p3 = if px + bw - b <= cx < px + bw {
            PressState {
                sizing_right: true,
                frame_cursor_gap: (Vec2 { x: (px + bw - cx) as i64, y: p2.frame_cursor_gap.y }),
                ..p2
            }
        } else {
            p2
        };
        let p4 = if py + bh - b <= cy < py + bh {
            PressState {
                sizing_bottom: true,
                frame_cursor_gap: (Vec2 { x: p3.frame_cursor_gap.x, y: (py + bh - cy) as i64 }),
                ..p3
            }
        } else {
            p3
        };
        if px <= cx < px + b {
            PressState {
                sizing_left: true,
                frame_cursor_gap: (Vec2 { x: (cx - px) as i64, y: p4.frame_cursor_gap.y }),
                ..p4
            }
        } else {
            p4
        }
    }

    /// The cursor entered the window: forward the enter to the hovered
    /// element, if any.
    pub fn mouse_on(&mut self) -> (out: Vec<u64>)
        requires
            old(self).wf(),
        ensures
            final(self).elements@.len() == 5,
            (old(self).on_cursor_element matches Some(j) ==> {
                &&& Object::is_mouse_on(old(self).elements@[j as int], final(self).elements@[j as int])
                &&& forall|k: int| 0 <= k < 5 && k != j
                    ==> final(self).elements@[k] == #[trigger] old(self).elements@[k]
                &&& out@ == reaction_out(old(self).elements@[j as int].mouse_on_event)
            }),
            (old(self).on_cursor_element is None ==> final(self).elements == old(self).elements
                && out@ == Seq::<u64>::empty()),
            *final(self) == (Window { elements: final(self).elements, ..*old(self) }),
            final(self).wf(),
    {
        let mut out: Vec<u64> = Vec::new();
        if let Some(j) = self.on_cursor_element {
            let mut e = self.elements.remove(j);
            let mut sub = e.mouse_on();
            self.elements.insert(j, e);
            out.append(&mut sub);
        }
        proof {
            assert forall|i: int| 0 <= i < 5 implies (#[trigger] self.elements@[i]).wf() by {
                if !(old(self).on_cursor_element == Some(i as usize)) {
                    assert(self.elements@[i] == old(self).elements@[i]);
                }
            }
        }
        out
    }

    /// The cursor left the window: forward the leave to the hovered
    /// element and forget it.
    pub fn mouse_off(&mut self) -> (out: Vec<u64>)
        requires
            old(self).wf(),
        ensures
            final(self).elements@.len() == 5,
            (old(self).on_cursor_element matches Some(j) ==> {
                &&& Object::is_mouse_off(old(self).elements@[j as int], final(self).elements@[j as int])
                &&& forall|k: int| 0 <= k < 5 && k != j
                    ==> final(self).elements@[k] == #[trigger] old(self).elements@[k]
                &&& out@ == Object::off_out(old(self).elements@[j as int])
                &&& final(self).on_cursor_element is None
            }),
            (old(self).on_cursor_element is None ==> final(self).elements == old(self).elements
                && out@ == Seq::<u64>::empty()
                && final(self).on_cursor_element == old(self).on_cursor_element),
            *final(self) == (Window {
                elements: final(self).elements,
                on_cursor_element: final(self).on_cursor_element,
                ..*old(self)
            }),
            final(self).wf(),
    {
        let mut out: Vec<u64> = Vec::new();
        if let Some(j) = self.on_cursor_element {
            let mut e = self.elements.remove(j);
            let mut sub = e.mouse_off();
            self.elements.insert(j, e);
            out.append(&mut sub);
            self.on_cursor_element = None;
        }
        proof {
            assert forall|i: int| 0 <= i < 5 implies (#[trigger] self.elements@[i]).wf() by {
                if !(old(self).on_cursor_element == Some(i as usize)) {
                    assert(self.elements@[i] == old(self).elements@[i]);
                }
            }
        }
        out
    }

    /// A button went down on the window: a press on the background
    /// frame enters the move or resize recorded by [`Self::press_geo`],
    /// and the press is forwarded to the hovered element.
    #[verifier::rlimit(100)]
    #[verifier::spinoff_prover]
    pub fn mouse_down(&mut self) -> (out: Vec<u64>)
        requires
            old(self).wf(),
        ensures
            ({
                let p = if old(self).on_cursor_element == Some(0usize) {
                    Self::press_geo(*old(self))
                } else {
                    PressState {
                        moving: old(self).moving,
                        sizing_top: old(self).sizing_top,
                        sizing_right: old(self).sizing_right,
                        sizing_bottom: old(self).sizing_bottom,
                        sizing_left: old(self).sizing_left,
                        frame_cursor_gap: old(self).frame_cursor_gap,
                    }
                };
                &&& final(self).moving == p.moving
                &&& final(self).sizing_top == p.sizing_top
                &&& final(self).sizing_right == p.sizing_right
                &&& final(self).sizing_bottom == p.sizing_bottom
                &&& final(self).sizing_left == p.sizing_left
                &&& final(self).frame_cursor_gap == p.frame_cursor_gap
            }),
            final(self).elements@.len() == 5,
            (old(self).on_cursor_element matches Some(j) ==> {
                &&& Object::is_mouse_down(old(self).elements@[j as int], final(self).elements@[j as int])
                &&& forall|k: int| 0 <= k < 5 && k != j
                    ==> final(self).elements@[k] == #[trigger] old(self).elements@[k]
                &&& out@ == Object::down_out(old(self).elements@[j as int])
            }),
            (old(self).on_cursor_element is None ==> final(self).elements == old(self).elements
                && out@ == Seq::<u64>::empty()),
            *final(self) == (Window {
                elements: final(self).elements,
                moving: final(self).moving,
                sizing_top: final(self).sizing_top,
                sizing_right: final(self).sizing_right,
                sizing_bottom: final(self).sizing_bottom,
                sizing_left: final(self).sizing_left,
                frame_cursor_gap: final(self).frame_cursor_gap,
                ..*old(self)
            }),
            final(self).wf(),
    {
        let on_background = match self.on_cursor_element {
            Some(j) => j == 0,
            None => false,
        };
        if on_background {
            let cx = self.cursor_pos.x;
            let cy = self.cursor_pos.y;
            let px = self.pos.x;
            let py = self.pos.y;
            let bw = self.background_width;
            let bh = self.background_height;
            if px + FRAME_BORDER <= cx && cx < px + bw - FRAME_BORDER
                && py + FRAME_BORDER <= cy && cy < py + FRAME_BORDER * FRAME_RATIO {
                self.moving = true;
                self.frame_cursor_gap = Vec2 { x: cx - px, y: cy - py };
            }
            if py <= cy && cy < py + FRAME_BORDER {
                self.sizing_top = true;
                self.frame_cursor_gap.y = cy - py;
            }
            if px + bw - FRAME_BORDER <= cx && cx < px + bw {
                self.sizing_right = true;
                self.frame_cursor_gap.x = px + bw - cx;
            }
            if py + bh - FRAME_BORDER <= cy && cy < py + bh {
                self.sizing_bottom = true;
                self.frame_cursor_gap.y = py + bh - cy;
            }
            if px <= cx && cx < px + FRAME_BORDER {
                self.sizing_left = true;
                self.frame_cursor_gap.x = cx - px;
            }
        }
        let mut out: Vec<u64> = Vec::new();
        if let Some(j) = self.on_cursor_element {
            let mut e = self.elements.remove(j);
            let mut sub = e.mouse_down();
            self.elements.insert(j, e);
            out.append(&mut sub);
        }
        proof {
            assert forall|i: int| 0 <= i < 5 implies (#[trigger] self.elements@[i]).wf() by {
                if !(old(self).on_cursor_element == Some(i as usize)) {
                    assert(self.elements@[i] == old(self).elements@[i]);
                }
            }
        }
        out
    }

    /// A button was released on the window: a release on a pressed
    /// close button marks the window closed (the compositor removes it
    /// on its next render pass), and the release is forwarded to the
    /// hovered element.
    pub fn mouse_up(&mut self) -> (out: Vec<u64>)
        requires
            old(self).wf(),
        ensures
            final(self).closed == (old(self).closed
                || (old(self).on_cursor_element == Some(2usize)
                    && old(self).elements@[2].pressed)),
            final(self).elements@.len() == 5,
            (old(self).on_cursor_element matches Some(j) ==> {
                &&& Object::is_mouse_up(old(self).elements@[j as int], final(self).elements@[j as int])
                &&& forall|k: int| 0 <= k < 5 && k != j
                    ==> final(self).elements@[k] == #[trigger] old(self).elements@[k]
                &&& out@ == Object::up_out(old(self).elements@[j as int])
            }),
            (old(self).on_cursor_element is None ==> final(self).elements == old(self).elements
                && out@ == Seq::<u64>::empty()),
            *final(self) == (Window {
                elements: final(self).elements,
                closed: final(self).closed,
                ..*old(self)
            }),
            final(self).wf(),
    {
        let on_close = match self.on_cursor_element {
            Some(j) => j == 2,
            None => false,
        };
        if on_close && self.elements[2].pressed {
            self.closed = true;
        }
        let mut out: Vec<u64> = Vec::new();
        if let Some(j) = self.on_cursor_element {
            let mut e = self.elements.remove(j);
            let mut sub = e.mouse_up();
            self.elements.insert(j, e);
            out.append(&mut sub);
        }
        proof {
            assert forall|i: int| 0 <= i < 5 implies (#[trigger] self.elements@[i]).wf() by {
                if !(old(self).on_cursor_element == Some(i as usize)) {
                    assert(self.elements@[i] == old(self).elements@[i]);
                }
            }
        }
        out
    }

    /// The moving phase of one drag step.
    #[verifier::spinoff_prover]
    fn move_phase(&mut self, cx: i64, cy: i64)
        requires
            old(self).wf(),
            -COORD_LIMIT <= cx <= COORD_LIMIT,
            -COORD_LIMIT <= cy <= COORD_LIMIT,
        ensures
            ({
                let g = Self::geo_move(*old(self), (WindowGeo {
                    pos: old(self).pos,
                    background_width: old(self).background_width,
                    background_height: old(self).background_height,
                }), cx, cy);
                &&& final(self).pos == g.pos
                &&& final(self).background_width == g.background_width
                &&& final(self).background_height == g.background_height
            }),
            final(self).elements@.len() == 5,
            *final(self) == (Window {
                pos: final(self).pos,
                elements: final(self).elements,
                ..*old(self)
            }),
            final(self).wf(),
    {
        if self.moving {
            self.set_pos(Some(cx - self.frame_cursor_gap.x), Some(cy - self.frame_cursor_gap.y));
        }
    }

    /// The top-edge phase of one drag step; `temp_height` is the frame
    /// height from before the step.
    #[verifier::spinoff_prover]
    fn top_phase(&mut self, cx: i64, cy: i64, temp_height: i64)
        requires
            old(self).wf(),
            -COORD_LIMIT <= cx <= COORD_LIMIT,
            -COORD_LIMIT <= cy <= COORD_LIMIT,
            0 <= temp_height <= COORD_LIMIT,
        ensures
            ({
                let g = Self::geo_top((Window { background_height: temp_height, ..*old(self) }), (WindowGeo {
                    pos: old(self).pos,
                    background_width: old(self).background_width,
                    background_height: old(self).background_height,
                }), cx, cy);
                &&& final(self).pos == g.pos
                &&& final(self).background_width == g.background_width
                &&& final(self).background_height == g.background_height
            }),
            final(self).content_height == if old(self).sizing_top {
                clamp_size(final(self).background_height - FRAME_BORDER * (FRAME_RATIO + 1))
            } else {
                old(self).content_height
            },
            final(self).elements@.len() == 5,
            *final(self) == (Window {
                pos: final(self).pos,
                background_height: final(self).background_height,
                content_height: final(self).content_height,
                elements: final(self).elements,
                ..*old(self)
            }),
            final(self).wf(),
    {
        if self.sizing_top {
            let floor_h = FRAME_BORDER * (FRAME_RATIO + 1);
            let avail = temp_height - (cy - self.pos.y - self.frame_cursor_gap.y);
            if floor_h < avail {
                self.set_background_size(None, Some(avail));
                self.set_pos(None, Some(cy - self.frame_cursor_gap.y));
            } else {
                self.set_background_size(None, Some(floor_h));
                self.set_pos(None, Some(self.pos.y + temp_height - floor_h));
            }
        }
    }

    /// The right-edge phase of one drag step.
    #[verifier::spinoff_prover]
    fn right_phase(&mut self, cx: i64, cy: i64)
        requires
            old(self).wf(),
            -COORD_LIMIT <= cx <= COORD_LIMIT,
            -COORD_LIMIT <= cy <= COORD_LIMIT,
        ensures
            ({
                let g = Self::geo_right(*old(self), (WindowGeo {
                    pos: old(self).pos,
                    background_width: old(self).background_width,
                    background_height: old(self).background_height,
                }), cx, cy);
                &&& final(self).pos == g.pos
                &&& final(self).background_width == g.background_width
                &&& final(self).background_height == g.background_height
            }),
            final(self).content_width == if old(self).sizing_right {
                clamp_size(final(self).background_width - FRAME_BORDER * 2)
            } else {
                old(self).content_width
            },
            final(self).elements@.len() == 5,
            *final(self) == (Window {
                background_width: final(self).background_width,
                content_width: final(self).content_width,
                elements: final(self).elements,
                ..*old(self)
            }),
            final(self).wf(),
    {
        if self.sizing_right {
            let floor_w = FRAME_BORDER * 2 + BUTTON_WIDTH * 4;
            let avail = cx - self.pos.x + self.frame_cursor_gap.x;
            if floor_w < avail {
                self.set_background_size(Some(avail), None);
            } else {
                self.set_background_size(Some(floor_w), None);
            }
        }
    }

    /// The bottom-edge phase of one drag step.
    #[verifier::spinoff_prover]
    fn bottom_phase(&mut self, cx: i64, cy: i64)
        requires
            old(self).wf(),
            -COORD_LIMIT <= cx <= COORD_LIMIT,
            -COORD_LIMIT <= cy <= COORD_LIMIT,
        ensures
            ({
                let g = Self::geo_bottom(*old(self), (WindowGeo {
                    pos: old(self).pos,
                    background_width: old(self).background_width,
                    background_height: old(self).background_height,
                }), cx, cy);
                &&& final(self).pos == g.pos
                &&& final(self).background_width == g.background_width
                &&& final(self).background_height == g.background_height
            }),
            final(self).content_height == if old(self).sizing_bottom {
                clamp_size(final(self).background_height - FRAME_BORDER * (FRAME_RATIO + 1))
            } else {
                old(self).content_height
            },
            final(self).elements@.len() == 5,
            *final(self) == (Window {
                background_height: final(self).background_height,
                content_height: final(self).content_height,
                elements: final(self).elements,
                ..*old(self)
            }),
            final(self).wf(),
    {
        if self.sizing_bottom {
            let floor_h = FRAME_BORDER * (FRAME_RATIO + 1);
            let avail = cy - self.pos.y + self.frame_cursor_gap.y;
            if floor_h < avail {
                self.set_background_size(None, Some(avail));
            } else {
                self.set_background_size(None, Some(floor_h));
            }
        }
    }

    /// The left-edge phase of one drag step; `temp_width` is the frame
    /// width from before the step.
    #[verifier::spinoff_prover]
    fn left_phase(&mut self, cx: i64, cy: i64, temp_width: i64)
        requires
            old(self).wf(),
            -COORD_LIMIT <= cx <= COORD_LIMIT,
            -COORD_LIMIT <= cy <= COORD_LIMIT,
            0 <= temp_width <= COORD_LIMIT,
        ensures
            ({
                let g = Self::geo_left((Window { background_width: temp_width, ..*old(self) }), (WindowGeo {
                    pos: old(self).pos,
                    background_width: old(self).background_width,
                    background_height: old(self).background_height,
                }), cx, cy);
                &&& final(self).pos == g.pos
                &&& final(self).background_width == g.background_width
                &&& final(self).background_height == g.background_height
            }),
            final(self).content_width == if old(self).sizing_left {
                clamp_size(final(self).background_width - FRAME_BORDER * 2)
            } else {
                old(self).content_width
            },
            final(self).elements@.len() == 5,
            *final(self) == (Window {
                pos: final(self).pos,
                background_width: final(self).background_width,
                content_width: final(self).content_width,
                elements: final(self).elements,
                ..*old(self)
            }),
            final(self).wf(),
    {
        if self.sizing_left {
            let floor_w = FRAME_BORDER * 2 + BUTTON_WIDTH * 4;
            let avail = temp_width - (cx - self.pos.x - self.frame_cursor_gap.x);
            if floor_w < avail {
                self.set_background_size(Some(avail), None);
                self.set_pos(Some(cx - self.frame_cursor_gap.x), None);
            } else {
                self.set_background_size(Some(floor_w), None);
                self.set_pos(Some(self.pos.x + temp_width - floor_w), None);
            }
        }
    }

    /// Re-anchor the three system buttons to the right edge of the
    /// frame.
    #[verifier::spinoff_prover]
    fn anchor_buttons(&mut self)
        requires
            old(self).wf(),
        ensures
            final(self).elements@.len() == 5,
            final(self).elements@[2].local_pos.x
                == clamp_coord(old(self).background_width - FRAME_BORDER - BUTTON_WIDTH * 2),
            final(self).elements@[3].local_pos.x
                == clamp_coord(old(self).background_width - FRAME_BORDER - BUTTON_WIDTH * 3),
            final(self).elements@[4].local_pos.x
                == clamp_coord(old(self).background_width - FRAME_BORDER - BUTTON_WIDTH * 4),
            *final(self) == (Window { elements: final(self).elements, ..*old(self) }),
            final(self).wf(),
    {
        let bg = self.background_width;
        let mut e2 = self.elements.remove(2);
        e2.set_local_pos(Some(bg - FRAME_BORDER - BUTTON_WIDTH * 2), None);
        self.elements.insert(2, e2);
        let mut e3 = self.elements.remove(3);
        e3.set_local_pos(Some(bg - FRAME_BORDER - BUTTON_WIDTH * 3), None);
        self.elements.insert(3, e3);
        let mut e4 = self.elements.remove(4);
        e4.set_local_pos(Some(bg - FRAME_BORDER - BUTTON_WIDTH * 4), None);
        self.elements.insert(4, e4);
        proof {
            assert forall|i: int| 0 <= i < 5 implies (#[trigger] self.elements@[i]).wf() by {
                if i < 2 {
                    assert(self.elements@[i] == old(self).elements@[i]);
                }
            }
        }
    }

    /// One scalar step of the drag/resize state machine
    /// ([`Self::drag_geo`]), with the system buttons re-anchored to the
    /// right edge while resizing.
    #[verifier::rlimit(100)]
    #[verifier::spinoff_prover]
    fn drag_resize_step(&mut self, cx: i64, cy: i64)
        requires
            old(self).wf(),
            -COORD_LIMIT <= cx <= COORD_LIMIT,
            -COORD_LIMIT <= cy <= COORD_LIMIT,
        ensures
            ({
                let geo = Self::drag_geo(*old(self), cx, cy);
                &&& final(self).pos == geo.pos
                &&& final(self).background_width == geo.background_width
                &&& final(self).background_height == geo.background_height
            }),
            final(self).content_width == if old(self).sizing_right || old(self).sizing_left {
                clamp_size(final(self).background_width - FRAME_BORDER * 2)
            } else {
                old(self).content_width
            },
            final(self).content_height == if old(self).sizing_top || old(self).sizing_bottom {
                clamp_size(final(self).background_height - FRAME_BORDER * (FRAME_RATIO + 1))
            } else {
                old(self).content_height
            },
            final(self).elements@.len() == 5,
            forall|k: int| 0 <= k < 5 ==> (#[trigger] final(self).elements@[k]).wf(),
            (old(self).sizing_top || old(self).sizing_right || old(self).sizing_bottom
                || old(self).sizing_left) ==> {
                &&& final(self).elements@[2].local_pos.x
                    == clamp_coord(final(self).background_width - FRAME_BORDER - BUTTON_WIDTH * 2)
                &&& final(self).elements@[3].local_pos.x
                    == clamp_coord(final(self).background_width - FRAME_BORDER - BUTTON_WIDTH * 3)
                &&& final(self).elements@[4].local_pos.x
                    == clamp_coord(final(self).background_width - FRAME_BORDER - BUTTON_WIDTH * 4)
            },
            *final(self) == (Window {
                content_width: final(self).content_width,
                content_height: final(self).content_height,
                background_width: final(self).background_width,
                background_height: final(self).background_height,
                pos: final(self).pos,
                elements: final(self).elements,
                ..*old(self)
            }),
            final(self).wf(),
    {
        let ghost pre = *old(self);
        let temp_width = self.background_width;
        let temp_height = self.background_height;
        self.move_phase(cx, cy);
        self.top_phase(cx, cy, temp_height);
        self.right_phase(cx, cy);
        self.bottom_phase(cx, cy);
        self.left_phase(cx, cy, temp_width);
        if self.sizing_top || self.sizing_right || self.sizing_bottom || self.sizing_left {
            self.anchor_buttons();
        }
    }

    /// When the hovered element changed, run the enter on the new one
    /// and the leave on the old one.
    #[verifier::spinoff_prover]
    fn fire_enter_leave(&mut self) -> (out: Vec<u64>)
        requires
            old(self).wf(),
        ensures
            final(self).elements@.len() == 5,
            forall|k: int| 0 <= k < 5 ==> (#[trigger] final(self).elements@[k]).wf(),
            forall|k: int| 0 <= k < 5
                ==> (#[trigger] final(self).elements@[k]).global_pos == old(self).elements@[k].global_pos
                    && final(self).elements@[k].local_pos == old(self).elements@[k].local_pos
                    && final(self).elements@[k].base_pos == old(self).elements@[k].base_pos
                    && final(self).elements@[k].width == old(self).elements@[k].width
                    && final(self).elements@[k].height == old(self).elements@[k].height,
            *final(self) == (Window { elements: final(self).elements, ..*old(self) }),
            final(self).wf(),
    {
        let mut out: Vec<u64> = Vec::new();
        let fire = !crate::geom::same_index(&self.on_cursor_element, &self.prev_on_cursor_element);
        if fire {
            if let Some(k) = self.on_cursor_element {
                let mut e = self.elements.remove(k);
                let mut sub = e.mouse_on();
                self.elements.insert(k, e);
                out.append(&mut sub);
            }
            if let Some(p) = self.prev_on_cursor_element {
                let mut e = self.elements.remove(p);
                let mut sub = e.mouse_off();
                self.elements.insert(p, e);
                out.append(&mut sub);
            }
        }
        proof {
            assert forall|i: int| 0 <= i < 5 implies
                ((#[trigger] self.elements@[i]).wf()
                    && self.elements@[i].global_pos == old(self).elements@[i].global_pos
                    && self.elements@[i].local_pos == old(self).elements@[i].local_pos
                    && self.elements@[i].base_pos == old(self).elements@[i].base_pos
                    && self.elements@[i].width == old(self).elements@[i].width
                    && self.elements@[i].height == old(self).elements@[i].height) by {
            }
        }
        out
    }

    /// Resolve the topmost element under the cursor as the new hovered
    /// element, let it handle the event, and on a hover change run the
    /// enter on the new element and the leave on the old one.
    #[verifier::rlimit(100)]
    #[verifier::spinoff_prover]
    fn route_pointer(&mut self, x: i64, y: i64, cx: i64, cy: i64) -> (out: Vec<u64>)
        requires
            old(self).wf(),
            cx == clamp_coord(x as int),
            cy == clamp_coord(y as int),
        ensures
            final(self).elements@.len() == 5,
            forall|k: int| 0 <= k < 5 ==> (#[trigger] final(self).elements@[k]).wf(),
            forall|k: int| 0 <= k < 5
                ==> (#[trigger] final(self).elements@[k]).global_pos == old(self).elements@[k].global_pos
                    && final(self).elements@[k].local_pos == old(self).elements@[k].local_pos
                    && final(self).elements@[k].base_pos == old(self).elements@[k].base_pos
                    && final(self).elements@[k].width == old(self).elements@[k].width
                    && final(self).elements@[k].height == old(self).elements@[k].height,
            final(self).on_cursor_element == Object::hit_index(final(self).elements@, cx, cy),
            final(self).prev_on_cursor_element == final(self).on_cursor_element,
            *final(self) == (Window {
                elements: final(self).elements,
                on_cursor_element: final(self).on_cursor_element,
                prev_on_cursor_element: final(self).prev_on_cursor_element,
                ..*old(self)
            }),
            final(self).wf(),
    {
        let ghost scan_elems = self.elements@;
        let hit = Object::find_hit(&self.elements, cx, cy);
        self.on_cursor_element = hit;
        let mut out: Vec<u64> = Vec::new();
        if let Some(k) = hit {
            let mut e = self.elements.remove(k);
            let mut sub = e.on_cursor_pos_event(x, y);
            self.elements.insert(k, e);
            out.append(&mut sub);
        }
        let mut fired = self.fire_enter_leave();
        out.append(&mut fired);
        self.prev_on_cursor_element = self.on_cursor_element;
        proof {
            assert forall|i: int| 0 <= i < 5 implies
                ((#[trigger] self.elements@[i]).global_pos == scan_elems[i].global_pos
                    && self.elements@[i].local_pos == scan_elems[i].local_pos
                    && self.elements@[i].base_pos == scan_elems[i].base_pos
                    && self.elements@[i].width == scan_elems[i].width
                    && self.elements@[i].height == scan_elems[i].height
                    && self.elements@[i].wf()) by {
            }
            Object::lemma_hit_index_geometry(scan_elems, self.elements@, cx, cy);
        }
        out
    }

    /// Record the cursor and run one step of the drag/resize state
    /// machine ([`Self::drag_geo`]): while resizing, the system buttons
    /// are re-anchored to the right edge; then the topmost element
    /// under the cursor becomes the hovered element, handles the event
    /// (`Object::on_cursor_pos_event`), and on a hover change the new
    /// element gets the enter and the old one the leave
    /// (`Object::mouse_on` / `Object::mouse_off`). The handler
    /// identifiers those reactions produce ride back in the result.
    #[verifier::rlimit(100)]
    #[verifier::spinoff_prover]
    #[verifier::loop_isolation(false)]
    pub fn on_cursor_pos_event(&mut self, x: i64, y: i64) -> (out: Vec<u64>)
        requires
            old(self).wf(),
        ensures
            ({
                let geo = Self::drag_geo(*old(self), clamp_coord(x as int), clamp_coord(y as int));
                &&& final(self).pos == geo.pos
                &&& final(self).background_width == geo.background_width
                &&& final(self).background_height == geo.background_height
            }),
            final(self).content_width == if old(self).sizing_right || old(self).sizing_left {
                clamp_size(final(self).background_width - FRAME_BORDER * 2)
            } else {
                old(self).content_width
            },
            final(self).content_height == if old(self).sizing_top || old(self).sizing_bottom {
                clamp_size(final(self).background_height - FRAME_BORDER * (FRAME_RATIO + 1))
            } else {
                old(self).content_height
            },
            final(self).cursor_pos == (Vec2 {
                x: clamp_coord(x as int),
                y: clamp_coord(y as int),
            }),
            final(self).prev_cursor_pos == final(self).cursor_pos,
            final(self).elements@.len() == 5,
            (old(self).sizing_top || old(self).sizing_right || old(self).sizing_bottom
                || old(self).sizing_left) ==> {
                &&& final(self).elements@[2].local_pos.x
                    == clamp_coord(final(self).background_width - FRAME_BORDER - BUTTON_WIDTH * 2)
                &&& final(self).elements@[3].local_pos.x
                    == clamp_coord(final(self).background_width - FRAME_BORDER - BUTTON_WIDTH * 3)
                &&& final(self).elements@[4].local_pos.x
                    == clamp_coord(final(self).background_width - FRAME_BORDER - BUTTON_WIDTH * 4)
            },
            final(self).on_cursor_element == Object::hit_index(
                final(self).elements@,
                clamp_coord(x as int),
                clamp_coord(y as int),
            ),
            final(self).prev_on_cursor_element == final(self).on_cursor_element,
            *final(self) == (Window {
                content_width: final(self).content_width,
                content_height: final(self).content_height,
                background_width: final(self).background_width,
                background_height: final(self).background_height,
                pos: final(self).pos,
                elements: final(self).elements,
                on_cursor_element: final(self).on_cursor_element,
                prev_on_cursor_element: final(self).prev_on_cursor_element,
                cursor_pos: final(self).cursor_pos,
                prev_cursor_pos: final(self).prev_cursor_pos,
                ..*old(self)
            }),
            final(self).wf(),
    {
        let cx = clamp_coord_exec(x);
        let cy = clamp_coord_exec(y);
        self.cursor_pos = Vec2 { x: cx, y: cy };
        self.drag_resize_step(cx, cy);
        let out = self.route_pointer(x, y, cx, cy);
        self.prev_cursor_pos = self.cursor_pos;
        out
    }
}

impl Window {
    /// Resizing never drives the frame below the chrome floor: a
    /// dragged horizontal edge leaves at least the borders plus the
    /// button cluster, a dragged vertical edge at least the title band
    /// plus the bottom border. Dragging the left edge past the right
    /// edge clamps the width to the floor and pins the right edge in
    /// place (stated inside the coordinate budget, where clamping is
    /// the identity).
    pub proof fn lemma_resize_floor(pre: Window, cx: i64, cy: i64)
        requires
            pre.wf(),
            -COORD_LIMIT <= cx <= COORD_LIMIT,
            -COORD_LIMIT <= cy <= COORD_LIMIT,
        ensures
            (pre.sizing_right || pre.sizing_left)
                ==> Self::drag_geo(pre, cx, cy).background_width >= Self::min_width(),
            (pre.sizing_top || pre.sizing_bottom)
                ==> Self::drag_geo(pre, cx, cy).background_height >= Self::min_height(),
            ({
                let geo = Self::drag_geo(pre, cx, cy);
                (pre.sizing_left && !pre.moving && !pre.sizing_top && !pre.sizing_right
                    && !pre.sizing_bottom
                    && pre.background_width - (cx - pre.pos.x - pre.frame_cursor_gap.x)
                        <= Self::min_width()
                    && -COORD_LIMIT <= pre.pos.x + pre.background_width - Self::min_width()
                        <= COORD_LIMIT)
                ==> geo.background_width == Self::min_width()
                    && geo.pos.x + geo.background_width
                        == pre.pos.x + pre.background_width
            }),
    {
    }
}

} // verus!
