//! The input interpreter: one pure step per window event.
//!
//! Each event maps the current view (transform plus interaction state) to
//! the next view and an outcome saying what the shell must do: request a
//! redraw, exit, reconfigure the surface, or render a frame. Branches that
//! change the transform request a redraw; branches that only update the
//! interaction state do not. An event whose exact transform update would
//! leave the executable fraction range is ignored (the view is unchanged).

use vstd::prelude::*;

use crate::rat::{rv_int, Rat};
use crate::transform::{
    tv_compose, tv_drag, tv_drag_fits, tv_nudge, tv_nudge_fits, tv_translation, tv_zoom,
    tv_zoom_fits, Transform,
};

verus! {

/// A pointer position in window coordinates (whole pixels).
#[derive(Clone, Copy, Debug, PartialEq, Eq, Structural)]
pub struct Point {
    pub x: i64,
    pub y: i64,
}

/// Pointer tracking state: the last seen pointer position (the zoom pivot)
/// and whether the primary button is held.
#[derive(Clone, Copy, Debug, PartialEq, Eq)]
pub struct InteractionState {
    pub prior_position: Option<Point>,
    pub mouse_down: bool,
}

/// The keys the viewer reacts to; arrow keys and their vim homologues.
#[derive(Clone, Copy, Debug, PartialEq, Eq)]
pub enum Key {
    Escape,
    Up,
    Down,
    Left,
    Right,
    K,
    J,
    H,
    L,
    Other,
}

/// One window event, reduced to plain values by the shell.
#[derive(Clone, Copy, Debug, PartialEq, Eq)]
pub enum InputEvent {
    /// Primary-button press or release (`left` says which button).
    Button { left: bool, pressed: bool },
    /// Wheel/scroll: `factor` is the zoom factor derived from the delta.
    Wheel { factor: Rat },
    CursorLeft,
    CursorMoved { x: i64, y: i64 },
    Key { key: Key, pressed: bool },
    CloseRequested,
    Resized { width: u32, height: u32 },
    RedrawRequested,
}

/// What the shell must do after a step.
#[derive(Clone, Copy, Debug, PartialEq, Eq)]
pub struct Outcome {
    pub request_redraw: bool,
    pub exit: bool,
    pub reconfigure: Option<(u32, u32)>,
    pub render: bool,
}

pub open spec fn quiet() -> Outcome {
    Outcome { request_redraw: false, exit: false, reconfigure: None, render: false }
}

pub open spec fn redraw_only() -> Outcome {
    Outcome { request_redraw: true, exit: false, reconfigure: None, render: false }
}

pub open spec fn exit_only() -> Outcome {
    Outcome { request_redraw: false, exit: true, reconfigure: None, render: false }
}

/// The fixed pan step of a key nudge, in document units.
pub open spec fn key_delta(k: Key) -> Option<(i64, i64)> {
    match k {
        Key::Up => Some((0i64, -10i64)),
        Key::K => Some((0i64, -10i64)),
        Key::Down => Some((0i64, 10i64)),
        Key::J => Some((0i64, 10i64)),
        Key::Left => Some((-10i64, 0i64)),
        Key::H => Some((-10i64, 0i64)),
        Key::Right => Some((10i64, 0i64)),
        Key::L => Some((10i64, 0i64)),
        Key::Escape => None,
        Key::Other => None,
    }
}

fn key_delta_exec(k: Key) -> (r: Option<(i64, i64)>)
    ensures
        r == key_delta(k),
{
    match k {
        Key::Up => Some((0i64, -10i64)),
        Key::K => Some((0i64, -10i64)),
        Key::Down => Some((0i64, 10i64)),
        Key::J => Some((0i64, 10i64)),
        Key::Left => Some((-10i64, 0i64)),
        Key::H => Some((-10i64, 0i64)),
        Key::Right => Some((10i64, 0i64)),
        Key::L => Some((10i64, 0i64)),
        Key::Escape => None,
        Key::Other => None,
    }
}

/// The view owned by an active session.
#[derive(Clone, Copy, Debug, PartialEq, Eq)]
pub struct ViewState {
    pub transform: Transform,
    pub inter: InteractionState,
}

pub open spec fn vs_wf(v: ViewState) -> bool {
    v.transform.wf()
}

/// The transition relation of the input interpreter: `post` and `out` are
/// what one step on `ev` makes of `pre`.
pub open spec fn view_step(pre: ViewState, ev: InputEvent, post: ViewState, out: Outcome) -> bool {
    match ev {
        InputEvent::Button { left, pressed } => post.transform == pre.transform
            && post.inter.prior_position == pre.inter.prior_position && post.inter.mouse_down == (
        if left {
            pressed
        } else {
            pre.inter.mouse_down
        }) && out == quiet(),
        InputEvent::Wheel { factor } => match pre.inter.prior_position {
            None => post == pre && out == quiet(),
            Some(p) => if factor.wf() && factor.num >= 1 && tv_zoom_fits(
                pre.transform@,
                p.x as int,
                p.y as int,
                factor@,
            ) {
                post.transform@ == tv_zoom(pre.transform@, p.x as int, p.y as int, factor@)
                    && post.inter == pre.inter && out == redraw_only()
            } else {
                post == pre && out == quiet()
            },
        },
        InputEvent::CursorLeft => post.transform == pre.transform && post.inter.mouse_down
            == pre.inter.mouse_down && post.inter.prior_position is None && out == quiet(),
        InputEvent::CursorMoved { x, y } => post.inter.mouse_down == pre.inter.mouse_down
            && post.inter.prior_position == Some(Point { x, y }) && (match pre
            .inter
            .prior_position {
            Some(p0) => if pre.inter.mouse_down && i64::MIN <= x - p0.x <= i64::MAX && i64::MIN <= y
                - p0.y <= i64::MAX && tv_drag_fits(pre.transform@, x - p0.x, y - p0.y) {
                post.transform@ == tv_drag(pre.transform@, x - p0.x, y - p0.y) && out
                    == redraw_only()
            } else {
                post.transform == pre.transform && out == quiet()
            },
            None => post.transform == pre.transform && out == quiet(),
        }),
        InputEvent::Key { key, pressed } => if !pressed {
            post == pre && out == quiet()
        } else if key is Escape {
            post == pre && out == exit_only()
        } else {
            match key_delta(key) {
                Some(d) => if tv_nudge_fits(pre.transform@, d.0 as int, d.1 as int) {
                    post.transform@ == tv_nudge(pre.transform@, d.0 as int, d.1 as int)
                        && post.inter == pre.inter && out == redraw_only()
                } else {
                    post == pre && out == quiet()
                },
                None => post == pre && out == quiet(),
            }
        },
        InputEvent::CloseRequested => post == pre && out == exit_only(),
        InputEvent::Resized { width, height } => post == pre && out == (Outcome {
            request_redraw: true,
            exit: false,
            reconfigure: Some((width, height)),
            render: false,
        }),
        InputEvent::RedrawRequested => post == pre && out == (Outcome {
            request_redraw: false,
            exit: false,
            reconfigure: None,
            render: true,
        }),
    }
}

impl ViewState {
    /// Interpret one window event against the current view.
    pub fn handle(&mut self, ev: &InputEvent) -> (out: Outcome)
        requires
            vs_wf(*old(self)),
        ensures
            vs_wf(*final(self)),
            view_step(*old(self), *ev, *final(self), out),
    {
        let none_out = Outcome { request_redraw: false, exit: false, reconfigure: None, render: false };
        let redraw_out = Outcome { request_redraw: true, exit: false, reconfigure: None, render: false };
        match *ev {
            InputEvent::Button { left, pressed } => {
                if left {
                    self.inter.mouse_down = pressed;
                }
                none_out
            },
            InputEvent::Wheel { factor } => {
                match self.inter.prior_position {
                    Some(p) => {
                        if factor.den >= 1 && factor.num >= 1 {
                            match self.transform.zoomed(p.x, p.y, factor) {
                                Some(t) => {
                                    self.transform = t;
                                    redraw_out
                                },
                                None => none_out,
                            }
                        } else {
                            none_out
                        }
                    },
                    None => none_out,
                }
            },
            InputEvent::CursorLeft => {
                self.inter.prior_position = None;
                none_out
            },
            InputEvent::CursorMoved { x, y } => {
                let mut moved = false;
                if self.inter.mouse_down {
                    if let Some(p0) = self.inter.prior_position {
                        let dx: i128 = x as i128 - p0.x as i128;
                        let dy: i128 = y as i128 - p0.y as i128;
                        if dx >= i64::MIN as i128 && dx <= i64::MAX as i128 && dy >= i64::MIN
                            as i128 && dy <= i64::MAX as i128 {
                            match self.transform.dragged(dx as i64, dy as i64) {
                                Some(t) => {
                                    self.transform = t;
                                    moved = true;
                                },
                                None => {},
                            }
                        }
                    }
                }
                self.inter.prior_position = Some(Point { x, y });
                if moved {
                    redraw_out
                } else {
                    none_out
                }
            },
            InputEvent::Key { key, pressed } => {
                if !pressed {
                    none_out
                } else {
                    match key {
                        Key::Escape => Outcome {
                            request_redraw: false,
                            exit: true,
                            reconfigure: None,
                            render: false,
                        },
                        _ => {
                            match key_delta_exec(key) {
                                Some(d) => {
                                    match self.transform.nudged(d.0, d.1) {
                                        Some(t) => {
                                            self.transform = t;
                                            redraw_out
                                        },
                                        None => none_out,
                                    }
                                },
                                None => none_out,
                            }
                        },
                    }
                }
            },
            InputEvent::CloseRequested => Outcome {
                request_redraw: false,
                exit: true,
                reconfigure: None,
                render: false,
            },
            InputEvent::Resized { width, height } => Outcome {
                request_redraw: true,
                exit: false,
                reconfigure: Some((width, height)),
                render: false,
            },
            InputEvent::RedrawRequested => Outcome {
                request_redraw: false,
                exit: false,
                reconfigure: None,
                render: true,
            },
        }
    }
}

/// Law: a drag while the button is down composes the translation by the
/// pointer delta on the left of the current transform.
pub proof fn lemma_drag_composes_left(
    pre: ViewState,
    p0: Point,
    x: i64,
    y: i64,
    post: ViewState,
    out: Outcome,
)
    requires
        view_step(pre, InputEvent::CursorMoved { x, y }, post, out),
        pre.inter.mouse_down,
        pre.inter.prior_position == Some(p0),
        i64::MIN <= x - p0.x <= i64::MAX,
        i64::MIN <= y - p0.y <= i64::MAX,
        tv_drag_fits(pre.transform@, x - p0.x, y - p0.y),
    ensures
        post.transform@ == tv_compose(
            tv_translation(rv_int(x - p0.x), rv_int(y - p0.y)),
            pre.transform@,
        ),
        out.request_redraw,
{
}

/// Law: a wheel event with no prior pointer position is a no-op: the
/// transform and the interaction state are unchanged and nothing happens.
pub proof fn lemma_wheel_without_pivot_noop(pre: ViewState, f: Rat, post: ViewState, out: Outcome)
    requires
        pre.inter.prior_position is None,
        view_step(pre, InputEvent::Wheel { factor: f }, post, out),
    ensures
        post == pre,
        out == quiet(),
{
}

/// Law: a pointer-leave clears the pivot, so a wheel event that follows it
/// (with no intervening move) is a no-op.
pub proof fn lemma_leave_then_wheel_noop(
    pre: ViewState,
    mid: ViewState,
    out1: Outcome,
    f: Rat,
    post: ViewState,
    out2: Outcome,
)
    requires
        view_step(pre, InputEvent::CursorLeft, mid, out1),
        view_step(mid, InputEvent::Wheel { factor: f }, post, out2),
    ensures
        post == mid,
        mid.transform == pre.transform,
        out2 == quiet(),
{
}

} // verus!
