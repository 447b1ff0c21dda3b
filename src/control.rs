use vstd::prelude::*;
use crate::target::{Resolution, Target};

verus! {

/// What a key press did to the loop.
#[derive(PartialEq, Eq, Structural, Debug, Clone, Copy)]
pub enum KeyAction {
    Quit,
    Paused,
    Resumed,
    StepRequested,
    Unknown(char),
}

/// What to do when the target was not found by the metrics source.
#[derive(PartialEq, Eq, Structural, Debug, Clone, Copy)]
pub enum AbsentAction {
    /// Watch mode: look the name up again; no sample this cycle.
    Resolve,
    /// Fixed id: report that the process is gone and stop.
    Stop,
}

/// Pause, step and stop state of the sampling loop.
#[derive(PartialEq, Eq, Structural, Debug, Clone, Copy)]
pub struct Controller {
    pub paused: bool,
    pub step_requested: bool,
    pub stopped: bool,
}

pub const QUIT_KEY: char = 'q';

pub const PAUSE_KEY: char = ' ';

pub const STEP_KEY: char = 's';

impl Controller {
    pub open spec fn initial() -> Controller {
        Controller { paused: false, step_requested: false, stopped: false }
    }

    /// State after a key press.
    pub open spec fn after_key(self, c: char) -> Controller {
        if c == QUIT_KEY {
            Controller { stopped: true, ..self }
        } else if c == PAUSE_KEY {
            Controller { paused: !self.paused, ..self }
        } else if c == STEP_KEY {
            Controller { step_requested: true, ..self }
        } else {
            self
        }
    }

    pub open spec fn key_action(self, c: char) -> KeyAction {
        if c == QUIT_KEY {
            KeyAction::Quit
        } else if c == PAUSE_KEY {
            if self.paused {
                KeyAction::Resumed
            } else {
                KeyAction::Paused
            }
        } else if c == STEP_KEY {
            KeyAction::StepRequested
        } else {
            KeyAction::Unknown(c)
        }
    }

    /// A sample is due once an interval has passed since the last one,
    /// unless the loop has stopped, or is paused with no step requested.
    pub open spec fn due(self, elapsed_ms: u64, interval_ms: u64) -> bool {
        !self.stopped && elapsed_ms >= interval_ms && (!self.paused || self.step_requested)
    }

    /// State once a due sample is taken: a requested step is used up.
    pub open spec fn after_sample(self) -> Controller {
        Controller { step_requested: false, ..self }
    }

    /// State after the target was not found.
    pub open spec fn after_absent(self, watching: bool) -> Controller {
        if watching {
            self
        } else {
            Controller { stopped: true, ..self }
        }
    }

    /// The loop starts running: not paused, no step requested.
    pub fn new() -> (r: Controller)
        ensures
            r == Controller::initial(),
    {
        Controller { paused: false, step_requested: false, stopped: false }
    }

    /// Interprets a key: quit, toggle pause, request a step, or report it as
    /// unknown with the state unchanged.
    pub fn on_key(&mut self, c: char) -> (r: KeyAction)
        ensures
            *final(self) == old(self).after_key(c),
            r == old(self).key_action(c),
    {
        if c == QUIT_KEY {
            self.stopped = true;
            KeyAction::Quit
        } else if c == PAUSE_KEY {
            self.paused = !self.paused;
            if self.paused {
                KeyAction::Paused
            } else {
                KeyAction::Resumed
            }
        } else if c == STEP_KEY {
            self.step_requested = true;
            KeyAction::StepRequested
        } else {
            KeyAction::Unknown(c)
        }
    }

    /// Whether a sample is due `elapsed_ms` after the last one.
    pub fn sample_due(&self, elapsed_ms: u64, interval_ms: u64) -> (r: bool)
        ensures
            r == self.due(elapsed_ms, interval_ms),
    {
        !self.stopped && elapsed_ms >= interval_ms && (!self.paused || self.step_requested)
    }

    /// Marks a due sample as taken.
    pub fn begin_sample(&mut self)
        ensures
            *final(self) == old(self).after_sample(),
    {
        self.step_requested = false;
    }

    /// Decides what follows when the metrics source has no process for the
    /// target: a watched name is looked up again, a fixed id ends the loop.
    pub fn on_absent(&mut self, target: &Target) -> (r: AbsentAction)
        ensures
            *final(self) == old(self).after_absent(target.is_watch()),
            r == if target.is_watch() {
                AbsentAction::Resolve
            } else {
                AbsentAction::Stop
            },
    {
        if target.watches() {
            AbsentAction::Resolve
        } else {
            self.stopped = true;
            AbsentAction::Stop
        }
    }

    pub fn is_stopped(&self) -> (r: bool)
        ensures
            r == self.stopped,
    {
        self.stopped
    }
}

/// While paused with no step requested, no sample is ever due, however much
/// time passes.
pub proof fn lemma_paused_never_due(c: Controller, elapsed_ms: u64, interval_ms: u64)
    requires
        c.paused,
        !c.step_requested,
    ensures
        !c.due(elapsed_ms, interval_ms),
{
}

/// One step key while paused makes exactly one sample due once the interval
/// has passed; after that sample nothing is due until the next step or an
/// unpause.
pub proof fn lemma_single_step(c: Controller, elapsed_ms: u64, later_ms: u64, interval_ms: u64)
    requires
        c.paused,
        !c.stopped,
        elapsed_ms >= interval_ms,
    ensures
        c.after_key(STEP_KEY).due(elapsed_ms, interval_ms),
        c.after_key(STEP_KEY).after_sample().paused,
        !c.after_key(STEP_KEY).after_sample().due(later_ms, interval_ms),
{
}

/// Watch mode: while no process carries the name the target stays unbound
/// and the loop keeps running; once exactly one does, the target is bound
/// to its id and that id is sampled.
pub proof fn lemma_watch_waits_then_binds(t: Target, c: Controller, pid: u32)
    requires
        t.is_watch(),
    ensures
        t.resolved(Seq::empty()).spec_current().is_none(),
        t.resolution(Seq::empty()) == Resolution::Waiting,
        t.resolved(Seq::empty()).is_watch(),
        c.after_absent(t.is_watch()) == c,
        t.resolved(seq![pid]).spec_current() == Some(pid),
        t.resolution(seq![pid]) == Resolution::Bound(pid),
{
}

/// A fixed id that the metrics source no longer finds ends the loop: no
/// sample is due afterwards.
pub proof fn lemma_explicit_absent_stops(
    t: Target,
    c: Controller,
    elapsed_ms: u64,
    interval_ms: u64,
)
    requires
        !t.is_watch(),
    ensures
        c.after_absent(t.is_watch()).stopped,
        !c.after_absent(t.is_watch()).due(elapsed_ms, interval_ms),
        !c.after_absent(t.is_watch()).after_sample().due(elapsed_ms, interval_ms),
{
}

} // verus!
