//! The overlap/auto-hide coordinator: per-dock-instance state tracking
//! whether the dock is currently overlapped by the foreground window.
//!
//! The embedder calls [`SeelenWeg::handle_overlaped_status`] once per
//! relevant foreground-window change, handing over the live geometry; the
//! returned value, when present, is the payload of the "set-auto-hide"
//! notification for this dock's own window.

use vstd::prelude::*;
use crate::strutil::str_eq;
use crate::window::Window;

verus! {

/// A screen-space rectangle: left/top edge inclusive, right/bottom edge
/// exclusive, in pixels.
#[derive(Clone, Copy, PartialEq, Eq, Structural, Debug)]
pub struct Rect {
    pub left: i32,
    pub top: i32,
    pub right: i32,
    pub bottom: i32,
}

/// Two rectangles overlap iff their interiors share a point.
pub open spec fn rects_overlap(a: Rect, b: Rect) -> bool {
    a.left < b.right && b.left < a.right && a.top < b.bottom && b.top < a.bottom
}

/// Rectangle intersection test.
pub fn are_overlaped(a: &Rect, b: &Rect) -> (r: bool)
    ensures
        r == rects_overlap(*a, *b),
{
    a.left < b.right && b.left < a.right && a.top < b.bottom && b.top < a.bottom
}

/// Titles of transient system windows whose focus must not toggle
/// auto-hide (they flicker in and out of the foreground).
pub open spec fn overlap_title_excluded(t: Seq<char>) -> bool {
    t == ""@ || t == "Task Switching"@
}

/// Executables whose foreground windows must not toggle auto-hide.
pub open spec fn overlap_exe_excluded(e: Seq<char>) -> bool {
    e == "SearchHost.exe"@ || e == "StartMenuExperienceHost.exe"@
}

/// Everything the coordinator reads of the foreground window, filled from
/// live queries by the embedder.  `exe` degrades to the empty string when
/// the owning process cannot be queried.
pub struct ForegroundInfo {
    /// The foreground window.
    pub window: Window,
    /// Whether it is currently visible.
    pub visible: bool,
    /// Its title text.
    pub title: String,
    /// File name of its owning executable, or empty.
    pub exe: String,
    /// Its on-screen rectangle, margins excluded.
    pub rect: Rect,
}

/// Whether a foreground change takes part in overlap handling at all: the
/// dock must be ready, the window visible, and neither its title nor its
/// executable on the fixed exclusion lists.
pub open spec fn overlap_guard(ready: bool, fg: ForegroundInfo) -> bool {
    ready && fg.visible && !overlap_title_excluded(fg.title@) && !overlap_exe_excluded(fg.exe@)
}

/// The hitbox rectangle the comparison uses: the cached one while
/// overlapped, otherwise the live one handed in by the embedder.
pub open spec fn hitbox_rect_used(cached: Option<Rect>, live: Rect) -> Rect {
    match cached {
        Option::Some(r) => r,
        Option::None => live,
    }
}

/// One dock instance's visibility state.  The underlying content and
/// hitbox windows are owned by the embedder; this value tracks only the
/// decisions taken about them.
pub struct SeelenWeg {
    /// Set once the UI side has signalled that its setup is complete;
    /// until then overlap handling is a no-op.
    pub ready: bool,
    /// Whether the dock windows are currently hidden.
    pub hidden: bool,
    /// Whether the dock is currently overlapped by the foreground window.
    pub overlaped: bool,
    /// Hitbox rectangle cached on the transition into the overlapped
    /// state, to avoid re-querying geometry every poll while hidden;
    /// cleared on the transition out.
    pub last_hitbox_rect: Option<Rect>,
}

/// The overlap outcome one check computes for a dock state.
pub open spec fn overlap_outcome(s: SeelenWeg, fg: ForegroundInfo, live: Rect) -> bool {
    rects_overlap(hitbox_rect_used(s.last_hitbox_rect, live), fg.rect)
}

/// The full transition of one foreground check: the state after the call
/// and the "set-auto-hide" payload it emits, if any.
pub open spec fn overlap_step(s: SeelenWeg, fg: ForegroundInfo, live: Rect) -> (SeelenWeg, Option<
    bool,
>) {
    if !overlap_guard(s.ready, fg) {
        (s, Option::<bool>::None)
    } else {
        let outcome = overlap_outcome(s, fg, live);
        if s.overlaped == outcome {
            (s, Option::<bool>::None)
        } else {
            (
                SeelenWeg {
                    overlaped: outcome,
                    last_hitbox_rect: if outcome {
                        Option::Some(live)
                    } else {
                        Option::<Rect>::None
                    },
                    ..s
                },
                Option::Some(outcome),
            )
        }
    }
}

impl SeelenWeg {
    /// The cache is populated exactly while the dock counts as
    /// overlapped.
    pub open spec fn wf(&self) -> bool {
        self.overlaped <==> self.last_hitbox_rect is Some
    }

    /// A fresh dock instance: not ready, shown, not overlapped, nothing
    /// cached.
    pub fn new() -> (w: SeelenWeg)
        ensures
            !w.ready,
            !w.hidden,
            !w.overlaped,
            w.last_hitbox_rect is None,
            w.wf(),
    {
        SeelenWeg { ready: false, hidden: false, overlaped: false, last_hitbox_rect: None }
    }

    /// Whether the UI side has finished its setup.
    pub fn is_ready(&self) -> (r: bool)
        ensures
            r == self.ready,
    {
        self.ready
    }

    /// Records the one-shot "setup complete" signal.
    pub fn set_ready(&mut self, ready: bool)
        ensures
            *final(self) == (SeelenWeg { ready, ..*old(self) }),
    {
        self.ready = ready;
    }

    /// Marks the dock windows hidden; the embedder hides both underlying
    /// windows alongside.
    pub fn hide_dock(&mut self)
        ensures
            *final(self) == (SeelenWeg { hidden: true, ..*old(self) }),
    {
        self.hidden = true;
    }

    /// Marks the dock windows shown; the embedder shows both underlying
    /// windows alongside.
    pub fn show(&mut self)
        ensures
            *final(self) == (SeelenWeg { hidden: false, ..*old(self) }),
    {
        self.hidden = false;
    }

    /// Whether the foreground rectangle overlaps the dock's hitbox, using
    /// the cached hitbox rectangle when one is held and the live one
    /// otherwise.
    pub fn is_overlapping(&self, fg_rect: &Rect, live_hitbox: &Rect) -> (r: bool)
        ensures
            r == rects_overlap(hitbox_rect_used(self.last_hitbox_rect, *live_hitbox), *fg_rect),
    {
        let hitbox_rect = match &self.last_hitbox_rect {
            Option::Some(r) => *r,
            Option::None => *live_hitbox,
        };
        are_overlaped(&hitbox_rect, fg_rect)
    }

    /// Applies a freshly computed overlap outcome.  A no-op when it equals
    /// the current state (no redundant UI events); otherwise updates the
    /// state, caches the live hitbox rectangle on the transition into
    /// overlapped and drops it on the transition out, and returns the new
    /// value to emit as the "set-auto-hide" notification.
    pub fn set_overlaped_status(&mut self, is_overlaped: bool, live_hitbox: &Rect) -> (emitted:
        Option<bool>)
        ensures
            old(self).overlaped == is_overlaped ==> *final(self) == *old(self) && emitted is None,
            old(self).overlaped != is_overlaped ==> emitted == Option::Some(is_overlaped)
                && *final(self) == (SeelenWeg {
                overlaped: is_overlaped,
                last_hitbox_rect: if is_overlaped {
                    Option::Some(*live_hitbox)
                } else {
                    Option::<Rect>::None
                },
                ..*old(self)
            }),
            old(self).wf() ==> final(self).wf(),
    {
        if self.overlaped == is_overlaped {
            return Option::None;
        }
        self.overlaped = is_overlaped;
        self.last_hitbox_rect = if self.overlaped {
            Option::Some(*live_hitbox)
        } else {
            Option::None
        };
        Option::Some(is_overlaped)
    }

    /// Handles a foreground-window change: when the guard passes, computes
    /// the overlap outcome against the hitbox and applies it.  Returns the
    /// "set-auto-hide" payload to emit, if any.
    pub fn handle_overlaped_status(&mut self, fg: &ForegroundInfo, live_hitbox: &Rect) -> (emitted:
        Option<bool>)
        ensures
            *final(self) == overlap_step(*old(self), *fg, *live_hitbox).0,
            emitted == overlap_step(*old(self), *fg, *live_hitbox).1,
            old(self).wf() ==> final(self).wf(),
    {
        let guard = self.ready && fg.visible && !(str_eq(fg.title.as_str(), "") || str_eq(
            fg.title.as_str(),
            "Task Switching",
        )) && !(str_eq(fg.exe.as_str(), "SearchHost.exe") || str_eq(
            fg.exe.as_str(),
            "StartMenuExperienceHost.exe",
        ));
        if !guard {
            return Option::None;
        }
        let outcome = self.is_overlapping(&fg.rect, live_hitbox);
        self.set_overlaped_status(outcome, live_hitbox)
    }
}

/// Hysteresis: two foreground checks in a row that compute the same
/// overlap outcome emit at most one "set-auto-hide" notification.  If the
/// first call emitted, the state then agrees with the outcome, so the
/// second call keeps silent.
pub proof fn lemma_overlap_hysteresis(
    s0: SeelenWeg,
    fg1: ForegroundInfo,
    live1: Rect,
    fg2: ForegroundInfo,
    live2: Rect,
)
    requires
        overlap_outcome(s0, fg1, live1) == overlap_outcome(
            overlap_step(s0, fg1, live1).0,
            fg2,
            live2,
        ),
    ensures
        !(overlap_step(s0, fg1, live1).1 is Some && overlap_step(
            overlap_step(s0, fg1, live1).0,
            fg2,
            live2,
        ).1 is Some),
{
}

} // verus!
