//! Frame pacing and the decision of when to render.

use vstd::prelude::*;

verus! {

/// Frames per second aimed for; the display could do more.
pub const FPS: u64 = 30;

/// The time budget of one frame, in microseconds.
pub const FRAME_BUDGET_US: u64 = 1_000_000 / FPS;

/// The least time left to other tasks between two frames, in microseconds.
pub const MIN_FRAME_GAP_US: u64 = 5_000;

/// How long rendering goes on after the last event, in microseconds; it
/// covers the longest animation.
pub const INACTIVITY_TIMEOUT_US: u64 = 1_000_000;

/// How often an open diagnostics view is refreshed, in microseconds.
pub const DIAGNOSTICS_REFRESH_US: u64 = 1_000_000;

/// The sleep after a frame whose work took `elapsed` microseconds: the rest
/// of the frame budget, but never less than the minimum gap.
pub open spec fn spec_sleep_time(elapsed: u64) -> u64 {
    let rest: int = if elapsed < FRAME_BUDGET_US { FRAME_BUDGET_US - elapsed } else { 0 };
    if rest > MIN_FRAME_GAP_US { rest as u64 } else { MIN_FRAME_GAP_US }
}

/// How long to sleep after a frame whose work took `elapsed_us`.
pub fn sleep_time(elapsed_us: u64) -> (s: u64)
    ensures
        s == spec_sleep_time(elapsed_us),
{
    let rest = FRAME_BUDGET_US.saturating_sub(elapsed_us);
    if rest > MIN_FRAME_GAP_US {
        rest
    } else {
        MIN_FRAME_GAP_US
    }
}

/// Within the frame budget the sleep is never below the minimum gap, and it
/// never exceeds the rest of the budget when at least the gap is left: the
/// frame then ends exactly on the budget.
pub proof fn lemma_sleep_bounds(elapsed: u64)
    requires
        elapsed < FRAME_BUDGET_US,
    ensures
        spec_sleep_time(elapsed) >= MIN_FRAME_GAP_US,
        elapsed + MIN_FRAME_GAP_US <= FRAME_BUDGET_US ==> spec_sleep_time(elapsed) == FRAME_BUDGET_US - elapsed,
        elapsed + MIN_FRAME_GAP_US > FRAME_BUDGET_US ==> spec_sleep_time(elapsed) == MIN_FRAME_GAP_US,
{
}

/// The phase of the competition.
#[derive(Debug, Clone, Copy, PartialEq, Eq, Structural)]
pub enum CompetitionMode {
    Disabled,
    Autonomous,
    Driver,
}

/// How to draw a frame.
#[derive(Debug, Clone, Copy, PartialEq, Eq, Structural)]
pub enum RenderKind {
    /// Draw nothing.
    Skip,
    /// Draw the target tree without interpolation.
    Static,
    /// Draw the interpolation between source and target trees.
    Animated,
}

/// The render loop's pacing state.
#[derive(Debug, Clone, Copy, PartialEq, Eq, Structural)]
pub struct FramePacer {
    /// The next frame is drawn.
    pub should_render: bool,
    /// When the last event was seen, in microseconds.
    pub last_activity_us: u64,
    /// The competition mode seen at the previous frame.
    pub previous_mode: CompetitionMode,
}

/// Microseconds from `since` to `now`, zero if the clock went backwards.
pub open spec fn spec_elapsed(now: u64, since: u64) -> u64 {
    if now >= since { (now - since) as u64 } else { 0 }
}

impl FramePacer {
    /// A pacer that draws the first frame.
    pub fn new(now_us: u64, mode: CompetitionMode) -> (p: FramePacer)
        ensures
            p == (FramePacer { should_render: true, last_activity_us: now_us, previous_mode: mode }),
    {
        FramePacer { should_render: true, last_activity_us: now_us, previous_mode: mode }
    }

    /// How to draw this frame: nothing while rendering is suspended, without
    /// animation during autonomous, animated otherwise.
    pub fn render_kind(&self, mode: CompetitionMode) -> (k: RenderKind)
        ensures
            k == if !self.should_render {
                RenderKind::Skip
            } else if mode == CompetitionMode::Autonomous {
                RenderKind::Static
            } else {
                RenderKind::Animated
            },
    {
        if !self.should_render {
            RenderKind::Skip
        } else if mode == CompetitionMode::Autonomous {
            RenderKind::Static
        } else {
            RenderKind::Animated
        }
    }

    /// Decides after a frame whether the next one is drawn: during
    /// autonomous only when an event asks for it, otherwise while the last
    /// event is recent.
    pub fn after_frame(&mut self, mode: CompetitionMode, now_us: u64)
        ensures
            final(self).should_render == (mode != CompetitionMode::Autonomous
                && spec_elapsed(now_us, old(self).last_activity_us) < INACTIVITY_TIMEOUT_US),
            final(self).last_activity_us == old(self).last_activity_us,
            final(self).previous_mode == old(self).previous_mode,
    {
        let elapsed = now_us.saturating_sub(self.last_activity_us);
        self.should_render = mode != CompetitionMode::Autonomous && elapsed < INACTIVITY_TIMEOUT_US;
    }

    /// Records the mode of this frame; returns whether autonomous has just
    /// begun, which forces the confirmed screen.
    pub fn enter_mode(&mut self, mode: CompetitionMode) -> (started: bool)
        ensures
            started == (mode != old(self).previous_mode && mode == CompetitionMode::Autonomous),
            final(self).previous_mode == mode,
            final(self).should_render == old(self).should_render,
            final(self).last_activity_us == old(self).last_activity_us,
    {
        let started = mode != self.previous_mode && mode == CompetitionMode::Autonomous;
        self.previous_mode = mode;
        started
    }

    /// Records an event at `now_us`. Rendering resumes at once if the event
    /// changed what is shown, and outside autonomous for any event.
    pub fn on_event(&mut self, mode: CompetitionMode, now_us: u64, view_changed: bool)
        ensures
            final(self).should_render == (old(self).should_render || view_changed
                || mode != CompetitionMode::Autonomous),
            final(self).last_activity_us == now_us,
            final(self).previous_mode == old(self).previous_mode,
    {
        if view_changed || mode != CompetitionMode::Autonomous {
            self.should_render = true;
        }
        self.last_activity_us = now_us;
    }

    /// Records operator input on the controller: during driver control it
    /// hands the robot over and stops rendering until the next event.
    pub fn on_operator_input(&mut self, mode: CompetitionMode)
        ensures
            final(self).should_render == (old(self).should_render && mode != CompetitionMode::Driver),
            final(self).last_activity_us == old(self).last_activity_us,
            final(self).previous_mode == old(self).previous_mode,
    {
        if mode == CompetitionMode::Driver {
            self.should_render = false;
        }
    }
}

/// Whether an open diagnostics view is due for a refresh at `now_us`.
pub fn diagnostics_refresh_due(last_refresh_us: u64, now_us: u64) -> (due: bool)
    ensures
        due == (spec_elapsed(now_us, last_refresh_us) >= DIAGNOSTICS_REFRESH_US),
{
    now_us.saturating_sub(last_refresh_us) >= DIAGNOSTICS_REFRESH_US
}

} // verus!
