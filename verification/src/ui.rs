pub mod object;
pub mod window;

use vstd::prelude::*;
use crate::geom::{Vec2, clamp_coord, clamp_coord_exec, clamp_size, clamp_size_exec, COORD_LIMIT};
use crate::image::Image;
use crate::texture::Texture;
use crate::ui::object::{Object, DrawQuad};
use crate::ui::window::Window;

verus! {

/// The compositor: it owns the ordered list of top-level windows (list
/// order is paint order, so the last window is the topmost), routes
/// raw cursor and button input to the topmost window under the cursor,
/// promotes pressed windows, propagates viewport resizes, and sweeps
/// closed windows at the start of each render pass.
pub struct Manager {
    // window
    pub windows: Vec<Window>,
    pub total_windows: usize,
    pub on_cursor_window: Option<usize>,
    pub prev_on_cursor_window: Option<usize>,

    // event
    pub frame_buffer_size: Vec2,
    pub cursor_pos: Vec2,
    pub prev_cursor_pos: Vec2,

    // resource
    pub close_image: Image,
    pub maximize_image: Image,
    pub minimize_image: Image,
}

impl Manager {
    /// Well-formedness: every window is well-formed, every stored
    /// window index points at a window and every stored coordinate is
    /// inside its budget.
    pub open spec fn wf(self) -> bool {
        &&& forall|i: int| 0 <= i < self.windows@.len() ==> (#[trigger] self.windows@[i]).wf()
        &&& (self.on_cursor_window matches Some(k) ==> k < self.windows@.len())
        &&& (self.prev_on_cursor_window matches Some(k) ==> k < self.windows@.len())
        &&& 0 <= self.frame_buffer_size.x <= COORD_LIMIT
        &&& 0 <= self.frame_buffer_size.y <= COORD_LIMIT
        &&& self.cursor_pos.in_budget()
        &&& self.prev_cursor_pos.in_budget()
    }

    /// The topmost window whose frame contains the point: windows are
    /// scanned from the back of the list (painted last, so on top) to
    /// the front, and the first match wins.
    pub open spec fn hit_window(s: Seq<Window>, x: i64, y: i64) -> Option<usize>
        decreases s.len(),
    {
        if s.len() == 0 {
            None
        } else if s.last().pos.x <= x < s.last().pos.x + s.last().background_width
            && s.last().pos.y <= y < s.last().pos.y + s.last().background_height {
            Some((s.len() - 1) as usize)
        } else {
            Self::hit_window(s.drop_last(), x, y)
        }
    }

    /// The number of windows among the first `upto` not marked closed.
    pub open spec fn kept_windows(s: Seq<Window>, upto: int) -> int
        decreases upto,
    {
        if upto <= 0 {
            0
        } else {
            Self::kept_windows(s, upto - 1) + if s[upto - 1].closed { 0int } else { 1int }
        }
    }

    /// Where a stored window index ends up after the sweep: cleared
    /// when it pointed at a closed window, shifted down otherwise.
    pub open spec fn sweep_window_map(s: Seq<Window>, idx: Option<usize>) -> Option<usize> {
        match idx {
            None => None,
            Some(k) => if k < s.len() && !s[k as int].closed {
                Some(Self::kept_windows(s, k as int) as usize)
            } else {
                None
            },
        }
    }

    /// `kept_windows` counts at most one survivor per window.
    pub proof fn lemma_kept_windows_nonneg(s: Seq<Window>, i: int)
        requires
            0 <= i,
        ensures
            0 <= Self::kept_windows(s, i) <= i,
        decreases i,
    {
        if i > 0 {
            Self::lemma_kept_windows_nonneg(s, i - 1);
        }
    }

    /// `kept_windows` grows by at most one per window, never shrinks.
    pub proof fn lemma_kept_windows_mono(s: Seq<Window>, i: int, j: int)
        requires
            0 <= i <= j,
        ensures
            Self::kept_windows(s, i) <= Self::kept_windows(s, j) <= Self::kept_windows(s, i) + (j - i),
        decreases j - i,
    {
        if i < j {
            Self::lemma_kept_windows_mono(s, i, j - 1);
        }
    }

    /// A render pass over one window: each of its elements sweeps and
    /// draws.
    pub open spec fn is_window_rendered(pre: Window, post: Window) -> bool {
        &&& post.elements@.len() == 5
        &&& pre.elements@.len() == 5 ==> forall|k: int| 0 <= k < 5 ==> Object::is_rendered(
            #[trigger] pre.elements@[k],
            post.elements@[k],
        )
        &&& post == (Window { elements: post.elements, ..pre })
    }

    /// The quads of a window: its elements', back-to-front.
    pub open spec fn window_quads(w: Window) -> Seq<DrawQuad> {
        Object::child_quads(w.elements@)
    }

    /// The quads of a window list, in paint order.
    pub open spec fn windows_quads(s: Seq<Window>) -> Seq<DrawQuad>
        decreases s.len(),
    {
        if s.len() == 0 {
            Seq::empty()
        } else {
            Self::windows_quads(s.drop_last()) + Self::window_quads(s[s.len() - 1])
        }
    }

    /// Build a compositor for the given viewport; the three button
    /// icons were decoded by the embedding application.
    pub fn create(
        frame_buffer_size_x: i64,
        frame_buffer_size_y: i64,
        close_image: Image,
        maximize_image: Image,
        minimize_image: Image,
    ) -> (r: Manager)
        ensures
            r.wf(),
            r.windows@.len() == 0,
            r.total_windows == 0,
            r.on_cursor_window is None && r.prev_on_cursor_window is None,
            r.frame_buffer_size == (Vec2 {
                x: clamp_size(frame_buffer_size_x as int),
                y: clamp_size(frame_buffer_size_y as int),
            }),
            r.cursor_pos == (Vec2 { x: 0, y: 0 }),
            r.prev_cursor_pos == (Vec2 { x: 0, y: 0 }),
            r.close_image == close_image,
            r.maximize_image == maximize_image,
            r.minimize_image == minimize_image,
    {
        Manager {
            windows: Vec::new(),
            total_windows: 0,
            on_cursor_window: None,
            prev_on_cursor_window: None,
            frame_buffer_size: Vec2 {
                x: clamp_size_exec(frame_buffer_size_x),
                y: clamp_size_exec(frame_buffer_size_y),
            },
            cursor_pos: Vec2 { x: 0, y: 0 },
            prev_cursor_pos: Vec2 { x: 0, y: 0 },
            close_image,
            maximize_image,
            minimize_image,
        }
    }

    /// Open one more window, cascaded an eighth of the viewport away
    /// from the previous one, on top of the stack; the three textures
    /// come from the renderer adapter and will show the button icons.
    pub fn add_window(
        &mut self,
        name: &str,
        close_texture: Texture,
        maximize_texture: Texture,
        minimize_texture: Texture,
    ) -> (index: usize)
        requires
            old(self).wf(),
            old(self).total_windows < 0x10_0000,
        ensures
            final(self).windows@.len() == old(self).windows@.len() + 1,
            forall|i: int| 0 <= i < old(self).windows@.len()
                ==> final(self).windows@[i] == #[trigger] old(self).windows@[i],
            index == old(self).windows@.len(),
            ({
                let w = final(self).windows@[old(self).windows@.len() as int];
                &&& w.wf()
                &&& w.id == old(self).total_windows
                &&& w.name@ == name@
                &&& !w.closed && !w.moving
                &&& w.pos == (Vec2 {
                    x: clamp_coord(old(self).total_windows * (old(self).frame_buffer_size.x / 8)),
                    y: clamp_coord(old(self).total_windows * (old(self).frame_buffer_size.y / 8)),
                })
            }),
            final(self).total_windows == old(self).total_windows + 1,
            *final(self) == (Manager {
                windows: final(self).windows,
                total_windows: final(self).total_windows,
                ..*old(self)
            }),
            final(self).wf(),
    {
        let t: i64 = self.total_windows as i64;
        let sx: i64 = self.frame_buffer_size.x / 8;
        let sy: i64 = self.frame_buffer_size.y / 8;
        proof {
            assert(t * sx <= 0x10_0000 * (COORD_LIMIT / 8) && 0 <= t * sx) by (nonlinear_arith)
                requires 0 <= t <= 0x10_0000 && 0 <= sx <= COORD_LIMIT / 8;
            assert(t * sy <= 0x10_0000 * (COORD_LIMIT / 8) && 0 <= t * sy) by (nonlinear_arith)
                requires 0 <= t <= 0x10_0000 && 0 <= sy <= COORD_LIMIT / 8;
        }
        let window = Window::create(
            self.total_windows,
            name,
            self.frame_buffer_size.x,
            self.frame_buffer_size.y,
            t * sx,
            t * sy,
            &self.close_image,
            &self.maximize_image,
            &self.minimize_image,
            close_texture,
            maximize_texture,
            minimize_texture,
        );
        let index = self.windows.len();
        self.windows.push(window);
        self.total_windows = self.total_windows + 1;
        index
    }

    /// Promote the window at `index` to the back of the list, so it is
    /// painted last (topmost), and remap the stored hover indices so
    /// they keep pointing at the same windows.
    pub fn bring_to_front(&mut self, index: usize)
        requires
            old(self).wf(),
            index < old(self).windows@.len(),
        ensures
            final(self).windows@
                == old(self).windows@.remove(index as int).push(old(self).windows@[index as int]),
            final(self).on_cursor_window
                == Object::promote_map(old(self).on_cursor_window, index, old(self).windows@.len()),
            final(self).prev_on_cursor_window
                == Object::promote_map(old(self).prev_on_cursor_window, index, old(self).windows@.len()),
            *final(self) == (Manager {
                windows: final(self).windows,
                on_cursor_window: final(self).on_cursor_window,
                prev_on_cursor_window: final(self).prev_on_cursor_window,
                ..*old(self)
            }),
            final(self).wf(),
    {
        let w = self.windows.remove(index);
        self.windows.push(w);
        let n = self.windows.len();
        self.on_cursor_window = match self.on_cursor_window {
            None => None,
            Some(p) => if index < p {
                Some(p - 1)
            } else if p == index {
                Some(n - 1)
            } else {
                Some(p)
            },
        };
        self.prev_on_cursor_window = match self.prev_on_cursor_window {
            None => None,
            Some(p) => if index < p {
                Some(p - 1)
            } else if p == index {
                Some(n - 1)
            } else {
                Some(p)
            },
        };
        proof {
            assert forall|i: int| 0 <= i < self.windows@.len()
                implies (#[trigger] self.windows@[i]).wf() by {
                if i < self.windows@.len() - 1 {
                    assert(self.windows@[i] == old(self).windows@.remove(index as int)[i]);
                    if i < index {
                        assert(old(self).windows@.remove(index as int)[i] == old(self).windows@[i]);
                    } else {
                        assert(old(self).windows@.remove(index as int)[i] == old(self).windows@[i + 1]);
                    }
                } else {
                    assert(self.windows@[i] == old(self).windows@[index as int]);
                }
            }
        }
    }

    /// A render pass: first sweep every window marked closed out of the
    /// list (remapping the stored hover indices), then let the
    /// surviving windows draw back-to-front.
    #[verifier::rlimit(100)]
    #[verifier::spinoff_prover]
    pub fn render(&mut self) -> (out: Vec<DrawQuad>)
        requires
            old(self).wf(),
        ensures
            final(self).windows@.len()
                == Self::kept_windows(old(self).windows@, old(self).windows@.len() as int),
            forall|j: int| 0 <= j < old(self).windows@.len() && !old(self).windows@[j].closed
                ==> Self::is_window_rendered(
                    #[trigger] old(self).windows@[j],
                    final(self).windows@[Self::kept_windows(old(self).windows@, j)],
                ),
            final(self).on_cursor_window
                == Self::sweep_window_map(old(self).windows@, old(self).on_cursor_window),
            final(self).prev_on_cursor_window
                == Self::sweep_window_map(old(self).windows@, old(self).prev_on_cursor_window),
            out@ == Self::windows_quads(final(self).windows@),
            *final(self) == (Manager {
                windows: final(self).windows,
                on_cursor_window: final(self).on_cursor_window,
                prev_on_cursor_window: final(self).prev_on_cursor_window,
                ..*old(self)
            }),
            final(self).wf(),
    {
        let ghost pre = *old(self);
        let new_on = Self::sweep_remap_windows(&self.windows, self.on_cursor_window);
        let new_prev = Self::sweep_remap_windows(&self.windows, self.prev_on_cursor_window);
        let mut list: Vec<Window> = Vec::new();
        core::mem::swap(&mut list, &mut self.windows);
        let n = list.len();
        let mut kept: Vec<Window> = Vec::new();
        let mut out: Vec<DrawQuad> = Vec::new();
        let mut i: usize = 0;
        while i < n
            invariant
                pre == *old(self),
                old(self).wf(),
                i <= n,
                n == pre.windows@.len(),
                list@ =~= pre.windows@.subrange(i as int, n as int),
                kept@.len() == Self::kept_windows(pre.windows@, i as int),
                forall|j: int| 0 <= j < i && !pre.windows@[j].closed
                    ==> Self::is_window_rendered(
                        #[trigger] pre.windows@[j],
                        kept@[Self::kept_windows(pre.windows@, j)],
                    ),
                forall|j: int| 0 <= j < kept@.len() ==> (#[trigger] kept@[j]).wf(),
                out@ == Self::windows_quads(kept@),
                *self == (Manager { windows: self.windows, ..pre }),
            decreases n - i,
        {
            let w = list.remove(0);
            proof {
                assert(w == pre.windows@[i as int]);
                assert(list@ =~= pre.windows@.subrange(i + 1, n as int));
                assert(Self::kept_windows(pre.windows@, i + 1) == Self::kept_windows(pre.windows@, i as int)
                    + if pre.windows@[i as int].closed { 0int } else { 1int });
            }
            if !w.closed {
                let mut w = w;
                let mut sub = w.render();
                out.append(&mut sub);
                let ghost kept_before = kept@;
                proof {
                    assert forall|j: int| 0 <= j < i && !pre.windows@[j].closed implies
                        0 <= Self::kept_windows(pre.windows@, j)
                            < Self::kept_windows(pre.windows@, i as int) by {
                        Self::lemma_kept_windows_nonneg(pre.windows@, j);
                        Self::lemma_kept_windows_mono(pre.windows@, j + 1, i as int);
                    }
                }
                kept.push(w);
                proof {
                    assert(kept@.drop_last() =~= kept_before);
                    assert(Self::windows_quads(kept@)
                        == Self::windows_quads(kept@.drop_last()) + Self::window_quads(kept@[kept@.len() - 1]));
                }
            }
            i = i + 1;
        }
        self.windows = kept;
        self.on_cursor_window = new_on;
        self.prev_on_cursor_window = new_prev;
        proof {
            if self.on_cursor_window is Some {
                let k = pre.on_cursor_window->0 as int;
                Self::lemma_kept_windows_nonneg(pre.windows@, k);
                Self::lemma_kept_windows_mono(pre.windows@, k + 1, n as int);
            }
            if self.prev_on_cursor_window is Some {
                let k = pre.prev_on_cursor_window->0 as int;
                Self::lemma_kept_windows_nonneg(pre.windows@, k);
                Self::lemma_kept_windows_mono(pre.windows@, k + 1, n as int);
            }
        }
        out
    }

    /// Where a stored window index ends up after the sweep.
    fn sweep_remap_windows(windows: &Vec<Window>, idx: Option<usize>) -> (r: Option<usize>)
        ensures
            r == Self::sweep_window_map(windows@, idx),
    {
        match idx {
            None => None,
            Some(k) => {
                if k < windows.len() && !windows[k].closed {
                    let mut cnt: usize = 0;
                    let mut i: usize = 0;
                    while i < k
                        invariant
                            i <= k,
                            k < windows@.len(),
                            cnt == Self::kept_windows(windows@, i as int),
                            cnt <= i,
                        decreases k - i,
                    {
                        if !windows[i].closed {
                            cnt = cnt + 1;
                        }
                        i = i + 1;
                    }
                    Some(cnt)
                } else {
                    None
                }
            }
        }
    }

    /// Scan the windows from the back of the list to the front and
    /// return the first whose frame contains the point.
    fn find_hit_window(windows: &Vec<Window>, x: i64, y: i64) -> (r: Option<usize>)
        requires
            forall|j: int| 0 <= j < windows@.len() ==> (#[trigger] windows@[j]).wf(),
        ensures
            r == Self::hit_window(windows@, x, y),
            r matches Some(k) ==> k < windows@.len(),
    {
        let mut i: usize = windows.len();
        proof {
            assert(windows@.subrange(0, i as int) =~= windows@);
        }
        while i > 0
            invariant
                i <= windows@.len(),
                forall|j: int| 0 <= j < windows@.len() ==> (#[trigger] windows@[j]).wf(),
                Self::hit_window(windows@, x, y)
                    == Self::hit_window(windows@.subrange(0, i as int), x, y),
            decreases i,
        {
            i = i - 1;
            let w = &windows[i];
            proof {
                assert(windows@.subrange(0, i + 1).last() == windows@[i as int]);
                assert(windows@.subrange(0, i + 1).drop_last() =~= windows@.subrange(0, i as int));
            }
            if w.pos.x <= x && x < w.pos.x + w.background_width
                && w.pos.y <= y && y < w.pos.y + w.background_height {
                return Some(i);
            }
        }
        proof {
            assert(windows@.subrange(0, 0int) =~= Seq::<Window>::empty());
        }
        None
    }

    /// Route a cursor move. While the topmost window is being dragged
    /// or resized it keeps the cursor exclusively; otherwise the
    /// topmost window under the cursor becomes the hovered window and
    /// handles the event (`Window::on_cursor_pos_event`), and on a
    /// hover change the new window gets the enter and the old one the
    /// leave — occluded windows receive no input.
    #[verifier::rlimit(100)]
    #[verifier::spinoff_prover]
    pub fn on_cursor_pos_event(&mut self, x: i64, y: i64) -> (out: Vec<u64>)
        requires
            old(self).wf(),
        ensures
            final(self).cursor_pos == (Vec2 { x: clamp_coord(x as int), y: clamp_coord(y as int) }),
            final(self).prev_cursor_pos == final(self).cursor_pos,
            final(self).windows@.len() == old(self).windows@.len(),
            final(self).wf(),
            ({
                let n = old(self).windows@.len();
                let focused = n > 0 && (old(self).windows@[n - 1].moving
                    || old(self).windows@[n - 1].sizing_top
                    || old(self).windows@[n - 1].sizing_right
                    || old(self).windows@[n - 1].sizing_bottom
                    || old(self).windows@[n - 1].sizing_left);
                let cx = clamp_coord(x as int);
                let cy = clamp_coord(y as int);
                if focused {
                    &&& forall|j: int| 0 <= j < n - 1
                        ==> final(self).windows@[j] == #[trigger] old(self).windows@[j]
                    &&& ({
                        let geo = Window::drag_geo(old(self).windows@[n - 1], cx, cy);
                        &&& final(self).windows@[n - 1].pos == geo.pos
                        &&& final(self).windows@[n - 1].background_width == geo.background_width
                        &&& final(self).windows@[n - 1].background_height == geo.background_height
                    })
                    &&& final(self).on_cursor_window == old(self).on_cursor_window
                    &&& final(self).prev_on_cursor_window == old(self).prev_on_cursor_window
                } else {
                    &&& final(self).on_cursor_window == Self::hit_window(old(self).windows@, cx, cy)
                    &&& final(self).prev_on_cursor_window == final(self).on_cursor_window
                    &&& forall|j: int| 0 <= j < n
                        && Some(j as usize) != Self::hit_window(old(self).windows@, cx, cy)
                        && !(Self::hit_window(old(self).windows@, cx, cy) != old(self).prev_on_cursor_window
                            && old(self).prev_on_cursor_window == Some(j as usize))
                        ==> final(self).windows@[j] == #[trigger] old(self).windows@[j]
                }
            }),
    {
        let cx = clamp_coord_exec(x);
        let cy = clamp_coord_exec(y);
        self.cursor_pos = Vec2 { x: cx, y: cy };
        let n = self.windows.len();
        let mut focused = false;
        if n > 0 {
            let last = &self.windows[n - 1];
            focused = last.moving || last.sizing_top || last.sizing_right
                || last.sizing_bottom || last.sizing_left;
        }
        if focused {
            let mut w = self.windows.remove(n - 1);
            let out = w.on_cursor_pos_event(x, y);
            self.windows.push(w);
            self.prev_cursor_pos = self.cursor_pos;
            proof {
                assert forall|i: int| 0 <= i < self.windows@.len()
                    implies (#[trigger] self.windows@[i]).wf() by {
                    if i < n - 1 {
                        assert(self.windows@[i] == old(self).windows@[i]);
                    }
                }
                assert(self.windows@ =~= self.windows@);
            }
            return out;
        }
        self.on_cursor_window = Self::find_hit_window(&self.windows, cx, cy);
        let mut out: Vec<u64> = Vec::new();
        if let Some(k) = self.on_cursor_window {
            let mut w = self.windows.remove(k);
            let mut sub = w.on_cursor_pos_event(x, y);
            self.windows.insert(k, w);
            out.append(&mut sub);
        }
        let fire = !crate::geom::same_index(&self.on_cursor_window, &self.prev_on_cursor_window);
        if fire {
            if let Some(k) = self.on_cursor_window {
                let mut w = self.windows.remove(k);
                let mut sub = w.mouse_on();
                self.windows.insert(k, w);
                out.append(&mut sub);
            }
            if let Some(p) = self.prev_on_cursor_window {
                let mut w = self.windows.remove(p);
                let mut sub = w.mouse_off();
                self.windows.insert(p, w);
                out.append(&mut sub);
            }
        }
        self.prev_on_cursor_window = self.on_cursor_window;
        self.prev_cursor_pos = self.cursor_pos;
        proof {
            assert forall|i: int| 0 <= i < self.windows@.len()
                implies (#[trigger] self.windows@[i]).wf() by {
            }
        }
        out
    }

    /// Route a button event. A press goes to the hovered window, which
    /// is then promoted to the back of the list (topmost); a release
    /// goes to the hovered window, and unconditionally ends any drag or
    /// resize of the topmost window (idempotent when already idle).
    #[verifier::rlimit(100)]
    #[verifier::spinoff_prover]
    pub fn on_mouse_down_event(&mut self, mouse_down: bool) -> (out: Vec<u64>)
        requires
            old(self).wf(),
        ensures
            final(self).windows@.len() == old(self).windows@.len(),
            final(self).wf(),
            ({
                let n = old(self).windows@.len();
                if mouse_down {
                    old(self).on_cursor_window matches Some(k) ==> {
                        &&& final(self).windows@.subrange(0, n - 1)
                            == old(self).windows@.remove(k as int)
                        &&& final(self).on_cursor_window == Some((n - 1) as usize)
                        &&& final(self).prev_on_cursor_window == Some((n - 1) as usize)
                        &&& final(self).windows@[n - 1].moving == (
                            if old(self).windows@[k as int].on_cursor_element == Some(0usize) {
                                Window::press_geo(old(self).windows@[k as int]).moving
                            } else {
                                old(self).windows@[k as int].moving
                            })
                        &&& !final(self).windows@[n - 1].closed == !old(self).windows@[k as int].closed
                    }
                } else {
                    &&& (old(self).on_cursor_window matches Some(k) ==> {
                        &&& final(self).windows@[k as int].closed == (old(self).windows@[k as int].closed
                            || (old(self).windows@[k as int].on_cursor_element == Some(2usize)
                                && old(self).windows@[k as int].elements@[2].pressed))
                        &&& forall|j: int| 0 <= j < n && j != k && j != n - 1
                            ==> final(self).windows@[j] == #[trigger] old(self).windows@[j]
                    })
                    &&& (n > 0 ==> {
                        &&& !final(self).windows@[n - 1].moving
                        &&& !final(self).windows@[n - 1].sizing_top
                        &&& !final(self).windows@[n - 1].sizing_right
                        &&& !final(self).windows@[n - 1].sizing_bottom
                        &&& !final(self).windows@[n - 1].sizing_left
                    })
                }
            }),
    {
        let mut out: Vec<u64> = Vec::new();
        if let Some(index) = self.on_cursor_window {
            if mouse_down {
                let mut w = self.windows.remove(index);
                let mut sub = w.mouse_down();
                self.windows.insert(index, w);
                out.append(&mut sub);
                self.bring_to_front(index);
                let len = self.windows.len();
                self.on_cursor_window = Some(len - 1);
                self.prev_on_cursor_window = self.on_cursor_window;
            } else {
                let mut w = self.windows.remove(index);
                let mut sub = w.mouse_up();
                self.windows.insert(index, w);
                out.append(&mut sub);
            }
        }
        if !mouse_down {
            let n = self.windows.len();
            if n > 0 {
                let mut w = self.windows.remove(n - 1);
                w.moving = false;
                w.sizing_top = false;
                w.sizing_right = false;
                w.sizing_bottom = false;
                w.sizing_left = false;
                self.windows.push(w);
                proof {
                    assert(self.windows@ =~= self.windows@.subrange(0, n as int));
                }
            }
        }
        proof {
            assert forall|i: int| 0 <= i < self.windows@.len()
                implies (#[trigger] self.windows@[i]).wf() by {
            }
        }
        out
    }

    /// The viewport changed: record it and push it down into every
    /// window and transitively every node, so the whole tree lays out
    /// against the new pixel-to-NDC ratio.
    pub fn on_frame_buffer_size_event(&mut self, frame_buffer_size_x: i64, frame_buffer_size_y: i64)
        requires
            old(self).wf(),
        ensures
            final(self).frame_buffer_size == (Vec2 {
                x: clamp_size(frame_buffer_size_x as int),
                y: clamp_size(frame_buffer_size_y as int),
            }),
            final(self).windows@.len() == old(self).windows@.len(),
            forall|j: int| 0 <= j < old(self).windows@.len() ==> {
                let pre = #[trigger] old(self).windows@[j];
                let post = final(self).windows@[j];
                &&& post.viewport == final(self).frame_buffer_size
                &&& post.elements@.len() == 5
                &&& (pre.elements@.len() == 5 ==> forall|k: int| 0 <= k < 5 ==> Object::is_reshaped(
                    #[trigger] pre.elements@[k],
                    post.elements@[k],
                    final(self).frame_buffer_size,
                ))
                &&& post == (Window { viewport: post.viewport, elements: post.elements, ..pre })
            },
            *final(self) == (Manager {
                windows: final(self).windows,
                frame_buffer_size: final(self).frame_buffer_size,
                ..*old(self)
            }),
            final(self).wf(),
    {
        let fb = Vec2 { x: clamp_size_exec(frame_buffer_size_x), y: clamp_size_exec(frame_buffer_size_y) };
        self.frame_buffer_size = fb;
        let n = self.windows.len();
        let mut i: usize = 0;
        while i < n
            invariant
                old(self).wf(),
                i <= n,
                n == self.windows.len(),
                n == old(self).windows@.len(),
                fb == (Vec2 {
                    x: clamp_size(frame_buffer_size_x as int),
                    y: clamp_size(frame_buffer_size_y as int),
                }),
                self.frame_buffer_size == fb,
                forall|j: int| 0 <= j < i ==> {
                    let pre = old(self).windows@[j];
                    let post = #[trigger] self.windows@[j];
                    &&& post.viewport == fb
                    &&& post.elements@.len() == 5
                    &&& (forall|k: int| 0 <= k < 5 ==> Object::is_reshaped(
                        #[trigger] pre.elements@[k],
                        post.elements@[k],
                        fb,
                    ))
                    &&& post == (Window { viewport: post.viewport, elements: post.elements, ..pre })
                },
                forall|j: int| 0 <= j < i ==> (#[trigger] self.windows@[j]).wf(),
                forall|j: int| i <= j < n ==> #[trigger] self.windows@[j] == old(self).windows@[j],
                *self == (Manager {
                    windows: self.windows,
                    frame_buffer_size: self.frame_buffer_size,
                    ..*old(self)
                }),
            decreases n - i,
        {
            let mut w = self.windows.remove(i);
            let ghost mid = w;
            w.reshape(fb);
            self.windows.insert(i, w);
            proof {
                assert(mid == old(self).windows@[i as int]);
                assert(self.windows@[i as int].viewport == (Vec2 {
                    x: clamp_size(fb.x as int),
                    y: clamp_size(fb.y as int),
                }));
                assert(self.windows@[i as int].viewport == fb);
                assert(self.windows@[i as int] == (Window {
                    viewport: self.windows@[i as int].viewport,
                    elements: self.windows@[i as int].elements,
                    ..old(self).windows@[i as int]
                }));
            }
            i = i + 1;
        }
    }
}

} // verus!
