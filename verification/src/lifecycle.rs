//! The lifecycle state machine: sequences font loading, visual-object
//! clearing, cell initialization and steady state, re-entering the clearing
//! phase on every resize.  The host advances it once per frame.

use vstd::prelude::*;

verus! {

/// The primary lifecycle axis.  Transitions run strictly forward; only a
/// resize forces the machine back to the clearing phase.
#[derive(Clone, Copy, PartialEq, Eq, Structural, Debug)]
pub enum TermState {
    NoTermsInited,
    TermNeedsFont,
    TermNeedsClearing,
    TermNeedsIniting,
    AllTermsInited,
}

/// The orthogonal sizing axis: the window resolution must be fitted to the
/// grid once before steady-state cursor placement runs.
#[derive(Clone, Copy, PartialEq, Eq, Structural, Debug)]
pub enum TermSizing {
    NoTermsInited,
    TermNeedsFirstResize,
    TermGood,
}

/// What happened this frame, as the host reports it to the machine.
#[derive(Clone, Copy, PartialEq, Eq, Structural, Debug)]
pub enum LifecycleEvent {
    /// A terminal was found that the host has not initialized yet.
    Started,
    /// The font load requests were issued.
    FontsLoaded,
    /// The old visual objects were destroyed and the map emptied.
    Cleared,
    /// One fresh visual object per coordinate was registered.
    Inited,
    /// The window resolution was fitted to the grid once.
    FirstResizeDone,
    /// The window was resized: the grid changed shape, so every prior
    /// visual-object position is invalid and a full rebuild must follow.
    Resized,
}

/// What the host must do this frame, given the primary state.
#[derive(Clone, Copy, PartialEq, Eq, Structural, Debug)]
pub enum FramePhase {
    /// Nothing to do until a terminal is started.
    Idle,
    /// Issue the font load requests.
    LoadFonts,
    /// Destroy every mapped visual object.
    ClearCells,
    /// Spawn one visual object per coordinate and register the handles.
    InitCells,
    /// Drain the pending-update queue and place the cursor overlay.
    Steady,
}

/// How far along the primary axis a state is.
pub open spec fn spec_state_rank(s: TermState) -> int {
    match s {
        TermState::NoTermsInited => 0,
        TermState::TermNeedsFont => 1,
        TermState::TermNeedsClearing => 2,
        TermState::TermNeedsIniting => 3,
        TermState::AllTermsInited => 4,
    }
}

/// How far along the sizing axis a state is.
pub open spec fn spec_sizing_rank(s: TermSizing) -> int {
    match s {
        TermSizing::NoTermsInited => 0,
        TermSizing::TermNeedsFirstResize => 1,
        TermSizing::TermGood => 2,
    }
}

/// The lifecycle state machine: the primary axis paired with the sizing
/// axis.  Steady-state incremental updates and cursor placement run only in
/// `AllTermsInited` x `TermGood`.
#[derive(Clone, Copy, PartialEq, Eq, Structural, Debug)]
pub struct Lifecycle {
    pub state: TermState,
    pub sizing: TermSizing,
}

/// The transition function.  Each completion event advances its phase and
/// is ignored in any other phase (the host only reports an event from the
/// phase that asked for the work); a resize forces the primary axis back to
/// the clearing phase from anywhere, which cascades through initing to
/// steady state as the following frames complete.
pub open spec fn spec_advance(lc: Lifecycle, event: LifecycleEvent) -> Lifecycle {
    match event {
        LifecycleEvent::Started => if lc.state == TermState::NoTermsInited {
            Lifecycle {
                state: TermState::TermNeedsFont,
                sizing: if lc.sizing == TermSizing::NoTermsInited {
                    TermSizing::TermNeedsFirstResize
                } else {
                    lc.sizing
                },
            }
        } else {
            lc
        },
        LifecycleEvent::FontsLoaded => if lc.state == TermState::TermNeedsFont {
            Lifecycle { state: TermState::TermNeedsClearing, ..lc }
        } else {
            lc
        },
        LifecycleEvent::Cleared => if lc.state == TermState::TermNeedsClearing {
            Lifecycle { state: TermState::TermNeedsIniting, ..lc }
        } else {
            lc
        },
        LifecycleEvent::Inited => if lc.state == TermState::TermNeedsIniting {
            Lifecycle { state: TermState::AllTermsInited, ..lc }
        } else {
            lc
        },
        LifecycleEvent::FirstResizeDone => if lc.state == TermState::AllTermsInited && lc.sizing
            == TermSizing::TermNeedsFirstResize {
            Lifecycle { sizing: TermSizing::TermGood, ..lc }
        } else {
            lc
        },
        LifecycleEvent::Resized => Lifecycle { state: TermState::TermNeedsClearing, ..lc },
    }
}

impl Lifecycle {
    /// A machine that has seen nothing yet.
    pub fn new() -> (lc: Lifecycle)
        ensures
            lc.state == TermState::NoTermsInited,
            lc.sizing == TermSizing::NoTermsInited,
    {
        Lifecycle { state: TermState::NoTermsInited, sizing: TermSizing::NoTermsInited }
    }

    /// Whether per-frame incremental updates and cursor placement may run:
    /// the one terminal is fully initialized and sized.
    pub open spec fn spec_steady(self) -> bool {
        self.state == TermState::AllTermsInited && self.sizing == TermSizing::TermGood
    }

    /// Whether the machine is in steady state.
    pub fn is_steady(&self) -> (steady: bool)
        ensures
            steady == self.spec_steady(),
    {
        match (self.state, self.sizing) {
            (TermState::AllTermsInited, TermSizing::TermGood) => true,
            _ => false,
        }
    }

    /// Advances the machine by one event.
    pub fn advance(&mut self, event: LifecycleEvent)
        ensures
            *final(self) == spec_advance(*old(self), event),
    {
        match event {
            LifecycleEvent::Started => {
                if self.state == TermState::NoTermsInited {
                    self.state = TermState::TermNeedsFont;
                    if self.sizing == TermSizing::NoTermsInited {
                        self.sizing = TermSizing::TermNeedsFirstResize;
                    }
                }
            },
            LifecycleEvent::FontsLoaded => {
                if self.state == TermState::TermNeedsFont {
                    self.state = TermState::TermNeedsClearing;
                }
            },
            LifecycleEvent::Cleared => {
                if self.state == TermState::TermNeedsClearing {
                    self.state = TermState::TermNeedsIniting;
                }
            },
            LifecycleEvent::Inited => {
                if self.state == TermState::TermNeedsIniting {
                    self.state = TermState::AllTermsInited;
                }
            },
            LifecycleEvent::FirstResizeDone => {
                if self.state == TermState::AllTermsInited && self.sizing
                    == TermSizing::TermNeedsFirstResize {
                    self.sizing = TermSizing::TermGood;
                }
            },
            LifecycleEvent::Resized => {
                self.state = TermState::TermNeedsClearing;
            },
        }
    }

    /// What the host must do this frame.
    pub fn frame_phase(&self) -> (phase: FramePhase)
        ensures
            phase == (match self.state {
                TermState::NoTermsInited => FramePhase::Idle,
                TermState::TermNeedsFont => FramePhase::LoadFonts,
                TermState::TermNeedsClearing => FramePhase::ClearCells,
                TermState::TermNeedsIniting => FramePhase::InitCells,
                TermState::AllTermsInited => FramePhase::Steady,
            }),
    {
        match self.state {
            TermState::NoTermsInited => FramePhase::Idle,
            TermState::TermNeedsFont => FramePhase::LoadFonts,
            TermState::TermNeedsClearing => FramePhase::ClearCells,
            TermState::TermNeedsIniting => FramePhase::InitCells,
            TermState::AllTermsInited => FramePhase::Steady,
        }
    }
}

impl Default for Lifecycle {
    fn default() -> (lc: Self)
        ensures
            lc.state == TermState::NoTermsInited,
            lc.sizing == TermSizing::NoTermsInited,
    {
        Lifecycle::new()
    }
}

/// The primary axis only moves forward, except that a resize jumps it back
/// to the clearing phase — the rebuild that follows is what makes a resize
/// sound, since incremental patching across one is not.
pub proof fn lemma_lifecycle_forward(lc: Lifecycle, event: LifecycleEvent)
    ensures
        event != LifecycleEvent::Resized ==> spec_state_rank(spec_advance(lc, event).state)
            >= spec_state_rank(lc.state),
        event == LifecycleEvent::Resized ==> spec_advance(lc, event).state
            == TermState::TermNeedsClearing,
{
}

/// The sizing axis never moves backward, whatever happens — resizes
/// included.
pub proof fn lemma_sizing_monotone(lc: Lifecycle, event: LifecycleEvent)
    ensures
        spec_sizing_rank(spec_advance(lc, event).sizing) >= spec_sizing_rank(lc.sizing),
{
}

} // verus!
