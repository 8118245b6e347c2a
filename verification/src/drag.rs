use vstd::prelude::*;
use crate::mode::CapsuleMode;

verus! {

/// Size the idle pill grows to while files are dragged over it, to offer
/// the shelf as a drop target.
pub const DROP_TARGET_W: u32 = 560;

pub const DROP_TARGET_H: u32 = 104;

/// A drag counts as gone when no drag-over event came for longer than this
/// many milliseconds.
pub const DRAG_GONE_MS: u64 = 140;

/// What the capsule does about a drag event.
#[derive(Clone, Copy, Debug, PartialEq, Eq, Structural)]
pub enum DragAction {
    Nothing,
    /// A drag arrived: hide the orbit, start the monitor, and, on the idle
    /// pill, grow to the drop target's size.
    Enter { grow: bool },
    /// The drag left: hide the drop target, show the orbit again, and, on
    /// the idle pill, shrink back to its own size.
    Leave { shrink: bool },
    /// The monitor has nothing left to watch.
    StopMonitor,
}

/// The drag watcher: whether a drag hovers the pill and when the last
/// drag-over event came (milliseconds of a monotonic clock).
#[derive(Clone, Copy, Debug, PartialEq, Eq, Structural)]
pub struct DragWatch {
    pub active: bool,
    pub last_over: Option<u64>,
}

pub open spec fn drag_over_spec(w: DragWatch, now: u64, mode: CapsuleMode) -> (DragWatch, DragAction) {
    (
        DragWatch { active: true, last_over: Some(now) },
        if w.active {
            DragAction::Nothing
        } else {
            DragAction::Enter { grow: mode == CapsuleMode::Default }
        },
    )
}

pub open spec fn monitor_tick_spec(w: DragWatch, now: u64, mode: CapsuleMode) -> (DragWatch, DragAction) {
    if !w.active {
        (w, DragAction::StopMonitor)
    } else {
        match w.last_over {
            Some(t) => if now > t && now - t > DRAG_GONE_MS {
                (
                    DragWatch { active: false, last_over: None },
                    DragAction::Leave { shrink: mode == CapsuleMode::Default },
                )
            } else {
                (w, DragAction::Nothing)
            },
            None => (w, DragAction::Nothing),
        }
    }
}

impl DragWatch {
    pub fn new() -> (r: Self)
        ensures
            !r.active,
            r.last_over is None,
    {
        DragWatch { active: false, last_over: None }
    }

    /// Files are dragged over the pill at `now`.
    pub fn drag_over(&mut self, now: u64, mode: CapsuleMode) -> (r: DragAction)
        ensures
            (*final(self), r) == drag_over_spec(*old(self), now, mode),
    {
        let was_active = self.active;
        self.active = true;
        self.last_over = Some(now);
        if was_active {
            DragAction::Nothing
        } else {
            DragAction::Enter { grow: mode == CapsuleMode::Default }
        }
    }

    /// The monitor's periodic look at `now`: a drag that sent no event for
    /// `DRAG_GONE_MS` has left.
    pub fn monitor_tick(&mut self, now: u64, mode: CapsuleMode) -> (r: DragAction)
        ensures
            (*final(self), r) == monitor_tick_spec(*old(self), now, mode),
    {
        if !self.active {
            return DragAction::StopMonitor;
        }
        match self.last_over {
            Some(t) => {
                if now > t && now - t > DRAG_GONE_MS {
                    self.active = false;
                    self.last_over = None;
                    DragAction::Leave { shrink: mode == CapsuleMode::Default }
                } else {
                    DragAction::Nothing
                }
            },
            None => DragAction::Nothing,
        }
    }

    /// Files were dropped on the shelf: the drag is over. Returns whether
    /// the idle pill shrinks back to its own size.
    pub fn dropped(&mut self, mode: CapsuleMode) -> (shrink: bool)
        ensures
            !final(self).active,
            final(self).last_over is None,
            shrink == (mode == CapsuleMode::Default),
    {
        self.active = false;
        self.last_over = None;
        mode == CapsuleMode::Default
    }
}

/// A drag that keeps sending events is never dropped by the monitor, and
/// one that went quiet for longer than `DRAG_GONE_MS` is: the pill grows
/// once per drag and shrinks back once it left.
pub proof fn lemma_drag_leaves_only_when_quiet(w: DragWatch, over: u64, now: u64, mode: CapsuleMode)
    ensures
        ({
            let (w1, a1) = drag_over_spec(w, over, mode);
            let (w2, a2) = monitor_tick_spec(w1, now, mode);
            &&& (now <= over + DRAG_GONE_MS ==> a2 == DragAction::Nothing && w2.active)
            &&& (now > over + DRAG_GONE_MS ==> a2 == DragAction::Leave {
                shrink: mode == CapsuleMode::Default,
            } && !w2.active)
            &&& (w.active ==> a1 == DragAction::Nothing)
            &&& (!w.active ==> a1 == DragAction::Enter { grow: mode == CapsuleMode::Default })
            &&& w1.active && w1.last_over == Some(over)
        }),
        monitor_tick_spec(DragWatch { active: false, ..w }, now, mode).1 == DragAction::StopMonitor,
{
}

} // verus!
