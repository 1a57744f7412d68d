//! The window/surface lifecycle state machine.
//!
//! A session is either suspended (holding at most a retained window
//! identity) or active (window, surface, GPU device and the current view).
//! The shell performs the outside work — creating windows and surfaces,
//! decoding the document, rendering — and this machine decides it: what to
//! do on resume, what to tear down on suspend, and which events to drop.
//! The document is decoded once per process; the view transform survives a
//! suspend/resume cycle, and is computed from the window size (fit to
//! window) only on the very first resume.

use vstd::prelude::*;

use crate::input::{quiet, view_step, vs_wf, InputEvent, InteractionState, Outcome, ViewState};
use crate::transform::{tv_fit, Transform, MAX_DIM};

verus! {

pub type WindowId = u64;

pub type SurfaceId = u64;

/// The document's intrinsic size in document units.
#[derive(Clone, Copy, Debug, PartialEq, Eq, Structural)]
pub struct DocSize {
    pub width: u64,
    pub height: u64,
}

pub open spec fn doc_wf(d: DocSize) -> bool {
    1 <= d.width <= MAX_DIM && 1 <= d.height <= MAX_DIM
}

/// What the shell must do about a window on resume.
#[derive(Clone, Copy, Debug, PartialEq, Eq)]
pub enum WindowPlan {
    Reuse(WindowId),
    CreateNew,
}

#[derive(Clone, Copy, Debug, PartialEq, Eq)]
pub enum Phase {
    Suspended { window: Option<WindowId> },
    Active { window: WindowId, surface: SurfaceId, device: usize, view: ViewState },
}

/// One viewer session: the lifecycle phase, the renderer cache (one flag
/// per GPU device), the decoded document's size, and the view retained
/// across a suspend.
pub struct Session {
    pub phase: Phase,
    pub renderers: Vec<bool>,
    pub doc: Option<DocSize>,
    pub saved_view: Option<Transform>,
}

pub open spec fn session_wf(s: Session) -> bool {
    (match s.phase {
        Phase::Active { view, .. } => vs_wf(view),
        Phase::Suspended { .. } => true,
    }) && (match s.saved_view {
        Some(t) => t.wf(),
        None => true,
    })
}

/// The window plan a resume signal asks for: reuse the retained window,
/// create a new one, or (already active) nothing.
pub open spec fn resume_plan(s: Session) -> Option<WindowPlan> {
    match s.phase {
        Phase::Suspended { window: Some(w) } => Some(WindowPlan::Reuse(w)),
        Phase::Suspended { window: None } => Some(WindowPlan::CreateNew),
        Phase::Active { .. } => None,
    }
}

/// What a suspend signal makes of a session: an active session retains its
/// window identity and view and drops surface and device; a suspended one
/// is untouched.
pub open spec fn suspend_step(pre: Session, post: Session) -> bool {
    match pre.phase {
        Phase::Active { window, view, .. } => post.phase == (Phase::Suspended {
            window: Some(window),
        }) && post.saved_view == Some(view.transform) && post.doc == pre.doc && post.renderers@
            == pre.renderers@,
        Phase::Suspended { .. } => post.phase == pre.phase && post.saved_view == pre.saved_view
            && post.doc == pre.doc && post.renderers@ == pre.renderers@,
    }
}

/// What completing a resume makes of a suspended session: the given window,
/// a fresh surface and device, a reset interaction state, and the retained
/// view if one exists, else the fit-to-window transform.
pub open spec fn resume_step(
    pre: Session,
    window: WindowId,
    win_w: u32,
    win_h: u32,
    doc: DocSize,
    surface: SurfaceId,
    device: usize,
    device_count: usize,
    post: Session,
    created: bool,
) -> bool {
    (match post.phase {
        Phase::Active { window: w2, surface: s2, device: d2, view } => w2 == window && s2
            == surface && d2 == device && view.inter == (InteractionState {
            prior_position: None,
            mouse_down: false,
        }) && (match pre.saved_view {
            Some(t) => view.transform == t,
            None => view.transform@ == tv_fit(
                win_w as int,
                win_h as int,
                doc.width as int,
                doc.height as int,
            ),
        }),
        Phase::Suspended { .. } => false,
    }) && post.doc == Some(doc) && post.saved_view == pre.saved_view && post.renderers@.len()
        == device_count && post.renderers@[device as int] == true && (forall|i: int|
        0 <= i < device_count && i != device ==> #[trigger] post.renderers@[i] == (i < pre.renderers@.len()
            && pre.renderers@[i])) && created == !(device < pre.renderers@.len()
        && pre.renderers@[device as int])
}

impl Session {
    /// A fresh session: suspended, no retained window, nothing decoded.
    pub fn new() -> (s: Session)
        ensures
            session_wf(s),
            s.phase == (Phase::Suspended { window: None }),
            s.renderers@.len() == 0,
            s.doc is None,
            s.saved_view is None,
    {
        Session {
            phase: Phase::Suspended { window: None },
            renderers: Vec::new(),
            doc: None,
            saved_view: None,
        }
    }

    /// What to do about a window on a resume signal.
    pub fn resume_window_plan(&self) -> (r: Option<WindowPlan>)
        ensures
            r == resume_plan(*self),
    {
        match self.phase {
            Phase::Suspended { window: Some(w) } => Some(WindowPlan::Reuse(w)),
            Phase::Suspended { window: None } => Some(WindowPlan::CreateNew),
            Phase::Active { .. } => None,
        }
    }

    /// Whether the document still has to be decoded (first resume only).
    pub fn needs_document(&self) -> (r: bool)
        ensures
            r == (self.doc is None),
    {
        self.doc.is_none()
    }

    /// Complete a resume: install the window and the fresh surface, ensure
    /// a renderer exists for the surface's device (the result says whether
    /// the shell must create one), and set the view — the retained one, or
    /// fit-to-window on the very first resume.
    pub fn complete_resume(
        &mut self,
        window: WindowId,
        win_w: u32,
        win_h: u32,
        doc: DocSize,
        surface: SurfaceId,
        device: usize,
        device_count: usize,
    ) -> (created: bool)
        requires
            session_wf(*old(self)),
            old(self).phase matches Phase::Suspended { .. },
            1 <= win_w as u64 <= MAX_DIM,
            1 <= win_h as u64 <= MAX_DIM,
            doc_wf(doc),
            old(self).doc matches Some(d) ==> d == doc,
            device < device_count,
        ensures
            session_wf(*final(self)),
            resume_step(
                *old(self),
                window,
                win_w,
                win_h,
                doc,
                surface,
                device,
                device_count,
                *final(self),
                created,
            ),
    {
        let transform = match self.saved_view {
            Some(t) => t,
            None => Transform::fit(win_w as u64, win_h as u64, doc.width, doc.height),
        };
        self.doc = Some(doc);
        let ghost orig = self.renderers@;
        let mut cache: Vec<bool> = Vec::new();
        let mut i: usize = 0;
        while i < device_count
            invariant
                i <= device_count,
                cache@.len() == i,
                forall|j: int| 0 <= j < i ==> #[trigger] cache@[j] == (j < orig.len() && orig[j]),
                self.renderers@ == orig,
            decreases device_count - i,
        {
            let flag = if i < self.renderers.len() {
                self.renderers[i]
            } else {
                false
            };
            proof {
                assert(flag == (i < orig.len() && orig[i as int]));
            }
            cache.push(flag);
            proof {
                assert(cache@[i as int] == flag);
                assert(forall|j: int| 0 <= j < i ==> #[trigger] cache@[j] == (j < orig.len() && orig[j]));
            }
            i = i + 1;
        }
        let created = !cache[device];
        if created {
            cache.set(device, true);
        }
        self.renderers = cache;
        self.phase = Phase::Active {
            window,
            surface,
            device,
            view: ViewState {
                transform,
                inter: InteractionState { prior_position: None, mouse_down: false },
            },
        };
        created
    }

    /// Handle a suspend signal: retain the window and the view, drop the
    /// surface binding.
    pub fn suspend(&mut self)
        requires
            session_wf(*old(self)),
        ensures
            session_wf(*final(self)),
            suspend_step(*old(self), *final(self)),
    {
        match self.phase {
            Phase::Active { window, view, .. } => {
                self.saved_view = Some(view.transform);
                self.phase = Phase::Suspended { window: Some(window) };
            },
            Phase::Suspended { .. } => {},
        }
    }

    /// Dispatch a window event: only an active session processes events,
    /// and only those for its own window; anything else is silently
    /// dropped (an ordering artifact of the host platform, not an error).
    pub fn handle_window_event(&mut self, window: WindowId, ev: &InputEvent) -> (out: Outcome)
        requires
            session_wf(*old(self)),
        ensures
            session_wf(*final(self)),
            match old(self).phase {
                Phase::Active { window: w, surface, device, view } => if w == window {
                    (match final(self).phase {
                        Phase::Active { window: w2, surface: s2, device: d2, view: v2 } => w2 == w
                            && s2 == surface && d2 == device && view_step(view, *ev, v2, out),
                        Phase::Suspended { .. } => false,
                    }) && final(self).doc == old(self).doc
                        && final(self).saved_view == old(self).saved_view
                        && final(self).renderers@ == old(self).renderers@
                } else {
                    final(self).phase == old(self).phase && final(self).doc == old(self).doc
                        && final(self).saved_view == old(self).saved_view
                        && final(self).renderers@ == old(self).renderers@ && out == quiet()
                },
                Phase::Suspended { .. } => final(self).phase == old(self).phase
                    && final(self).doc == old(self).doc
                    && final(self).saved_view == old(self).saved_view
                    && final(self).renderers@ == old(self).renderers@ && out == quiet(),
            },
    {
        match &mut self.phase {
            Phase::Active { window: w, view, .. } => {
                if *w == window {
                    view.handle(ev)
                } else {
                    Outcome { request_redraw: false, exit: false, reconfigure: None, render: false }
                }
            },
            Phase::Suspended { .. } => {
                Outcome { request_redraw: false, exit: false, reconfigure: None, render: false }
            },
        }
    }
}

/// Law: resuming after a suspend reuses the retained window identity (no
/// new window is created) and installs the freshly supplied surface.
pub proof fn lemma_resume_after_suspend_reuses_window(
    pre: Session,
    mid: Session,
    win_w: u32,
    win_h: u32,
    doc: DocSize,
    surface: SurfaceId,
    device: usize,
    device_count: usize,
    post: Session,
    created: bool,
    w: WindowId,
    s_old: SurfaceId,
    d_old: usize,
    v_old: ViewState,
)
    requires
        pre.phase == (Phase::Active { window: w, surface: s_old, device: d_old, view: v_old }),
        suspend_step(pre, mid),
        resume_step(mid, w, win_w, win_h, doc, surface, device, device_count, post, created),
    ensures
        resume_plan(mid) == Some(WindowPlan::Reuse(w)),
        post.phase matches Phase::Active { window: w2, surface: s2, .. } ==> w2 == w && s2
            == surface,
{
}

} // verus!
