//! How the editor's window is drawn, and the transitions between its ways of
//! drawing.

use vstd::prelude::*;

verus! {

/// A way of drawing the window's parts.
#[derive(Clone, Copy, PartialEq, Eq, Structural, Debug)]
pub enum EditorWindowLayoutContentSDrawMode {
    /// Indicates normal usage.
    Normal,
    /// Show only your type, not your content. This should be fast even when resolution changes repeatedly.
    TypePreview {
        /// If this is set, draw as semi-transparent.
        moving: bool,
    },
}

/// The window's way of drawing: fixed, or going from one way to another. Times are
/// nanoseconds on the program's clock.
#[derive(Clone, Copy, PartialEq, Eq, Structural, Debug)]
pub enum EditorWindowHandlerDrawMode {
    Static(EditorWindowLayoutContentSDrawMode),
    /// From the first mode to the second, started at the third value, lasting the fourth.
    Transition(EditorWindowLayoutContentSDrawMode, EditorWindowLayoutContentSDrawMode, u64, u64),
}

/// The window's settings.
#[derive(Clone, Copy, PartialEq, Eq, Structural, Debug)]
pub struct EditorWindowSettings {
    /// How long a change of drawing mode takes, in nanoseconds.
    pub switch_modes_duration: u64,
}

impl EditorWindowSettings {
    /// Mode changes take a quarter of a second.
    pub fn default() -> (r: EditorWindowSettings)
        ensures
            r.switch_modes_duration == 250_000_000,
    {
        EditorWindowSettings { switch_modes_duration: 250_000_000 }
    }
}

/// Since when a mouse button is held down (nanoseconds on the program's clock).
#[derive(Clone, Copy, PartialEq, Eq, Structural, Debug)]
pub struct MouseButtonDownInfo {
    pub held_down_since: u64,
}

/// Actions that parts of the window ask for the next time it is drawn.
#[derive(Clone, Copy, PartialEq, Eq, Structural, Debug)]
pub enum CustomDrawActions {
    /// (false) sets the resolution of all video previews to 0x0 and adds (true) for the next frame. (true) restores the resolution.
    VideoPreviewResize(bool),
    /// Some(index) indicates that something is to be edited, while None indicates the opposite.
    SetEditingTo(Option<u32>),
}

/// When a transition that goes back to where the one running (from `v_start`,
/// lasting `v_duration`) came from, and that lasts `duration`, starts at `now`: as
/// far back as the running one had come, so that it goes back from where it is.
pub open spec fn reversed_start(now: u64, v_start: u64, v_duration: u64, duration: u64) -> int {
    let elapsed: int = if now >= v_start { now - v_start } else { 0 };
    let remaining: int = if v_duration == 0 {
        if elapsed > 0 { 0 } else { duration as int }
    } else if elapsed >= v_duration {
        0
    } else {
        duration * (v_duration - elapsed) / v_duration as int
    };
    if now - remaining >= 0 { now - remaining } else { 0 }
}

/// The mode after a transition to `new_mode`, lasting `duration`, started at `now`
/// from the mode `m`: a running transition is cut off, its target becoming where
/// the new one starts; where reversing is allowed and the new mode is where the
/// running transition came from, the new one starts as far along as that had come.
pub open spec fn transition_started(
    m: EditorWindowHandlerDrawMode,
    new_mode: EditorWindowLayoutContentSDrawMode,
    duration: u64,
    allow_reverse: bool,
    now: u64,
) -> EditorWindowHandlerDrawMode {
    match m {
        EditorWindowHandlerDrawMode::Static(mode) => EditorWindowHandlerDrawMode::Transition(mode, new_mode, now, duration),
        EditorWindowHandlerDrawMode::Transition(v_old, v_new, v_start, v_duration) => {
            let reverse = allow_reverse && v_old == new_mode;
            EditorWindowHandlerDrawMode::Transition(
                v_new,
                new_mode,
                if reverse { reversed_start(now, v_start, v_duration, duration) as u64 } else { now },
                duration,
            )
        },
    }
}

impl EditorWindowHandlerDrawMode {
    /// Changes self to be a Transition, with the previous self being used as the "old" mode. If self already is a transition, uses that transition's "new" mode as its "old" mode (cutting the other transition off in favor of the new one).
    pub fn start_transition(&mut self, new_mode: EditorWindowLayoutContentSDrawMode, duration: u64, now: u64)
        ensures
            *final(self) == transition_started(*old(self), new_mode, duration, false, now),
    {
        self.start_transition_be(new_mode, duration, false, now)
    }

    /// Like `start_transition`, but a transition back to where the running one came
    /// from continues from where that one is.
    pub fn start_transition_allow_reverse(&mut self, new_mode: EditorWindowLayoutContentSDrawMode, duration: u64, now: u64)
        ensures
            *final(self) == transition_started(*old(self), new_mode, duration, true, now),
    {
        self.start_transition_be(new_mode, duration, true, now)
    }

    /// At `now`, a transition that has run for longer than it lasts has reached its
    /// target and becomes that mode; anything else stays. Says whether the mode is
    /// fixed afterwards.
    pub fn settle(&mut self, now: u64) -> (fixed: bool)
        ensures
            match *old(self) {
                EditorWindowHandlerDrawMode::Static(_) => *final(self) == *old(self),
                EditorWindowHandlerDrawMode::Transition(_, new_mode, start, duration) => if (if now >= start {
                    now - start
                } else {
                    0
                }) > duration {
                    *final(self) == EditorWindowHandlerDrawMode::Static(new_mode)
                } else {
                    *final(self) == *old(self)
                },
            },
            fixed == (*final(self) is Static),
    {
        match *self {
            EditorWindowHandlerDrawMode::Static(_) => true,
            EditorWindowHandlerDrawMode::Transition(_, new_mode, start, duration) => {
                let elapsed: u64 = if now >= start { now - start } else { 0 };
                if elapsed > duration {
                    *self = EditorWindowHandlerDrawMode::Static(new_mode);
                    true
                } else {
                    false
                }
            },
        }
    }

    /// Starts a transition to `new_mode` (see `transition_started`).
    pub fn start_transition_be(
        &mut self,
        new_mode: EditorWindowLayoutContentSDrawMode,
        duration: u64,
        allow_reverse: bool,
        now: u64,
    )
        ensures
            *final(self) == transition_started(*old(self), new_mode, duration, allow_reverse, now),
    {
        match *self {
            EditorWindowHandlerDrawMode::Static(mode) => {
                *self = EditorWindowHandlerDrawMode::Transition(mode, new_mode, now, duration);
            },
            EditorWindowHandlerDrawMode::Transition(v_old, v_new, v_start, v_duration) => {
                let reverse = allow_reverse && v_old == new_mode;
                let start = if reverse {
                    let elapsed: u64 = if now >= v_start { now - v_start } else { 0 };
                    let remaining: u64 = if v_duration == 0 {
                        if elapsed > 0 { 0 } else { duration }
                    } else if elapsed >= v_duration {
                        0
                    } else {
                        let left: u64 = v_duration - elapsed;
                        assert((duration as int) * (left as int) <= (u64::MAX as int) * (u64::MAX as int)) by (nonlinear_arith)
                            requires
                                duration <= u64::MAX,
                                left <= u64::MAX,
                        {}
                        let num: u128 = (duration as u128) * (left as u128);
                        let q: u128 = num / (v_duration as u128);
                        assert(q <= duration) by (nonlinear_arith)
                            requires
                                q == num / (v_duration as u128),
                                num == duration * left,
                                left <= v_duration,
                                v_duration > 0,
                        {
                            assert(duration * left <= duration * v_duration);
                        }
                        q as u64
                    };
                    if now >= remaining { now - remaining } else { 0 }
                } else {
                    now
                };
                *self = EditorWindowHandlerDrawMode::Transition(v_new, new_mode, start, duration);
            },
        }
    }
}

} // verus!
