pub mod control;
pub mod format;
pub mod log_buffer;
pub mod target;

use vstd::prelude::*;
use core::time::Duration;
use sysinfo::System;
use crate::format::{format_sample, sample_line, Sample};
use crate::control::{AbsentAction, Controller, KeyAction, PAUSE_KEY};
use crate::target::Resolution;
use crate::log_buffer::{lemma_window_push, lemma_window_shape, window, LogBuffer};
use crate::target::Target;

verus! {

#[verifier::external_type_specification]
#[verifier::external_body]
pub struct ExSystem(sysinfo::System);

/// What the metrics source reports of one process: CPU use written with two
/// decimal places, and resident memory in bytes.
pub struct ProcessStats {
    pub cpu: String,
    pub memory_bytes: u64,
}

/// Relies on sysinfo::System::new_all: a process table filled once.
#[verifier::external_body]
fn new_system() -> (r: System) {
    System::new_all()
}

/// Relies on sysinfo::System::refresh_all: reloads the process table.
#[verifier::external_body]
fn refresh_system(sys: &mut System) {
    sys.refresh_all()
}

/// Relies on sysinfo::System::process, with Process::cpu_usage and
/// Process::memory: the stats of the process with id `pid`, if the last
/// refresh saw it, the CPU use rendered with two decimal places. What comes
/// back depends on the machine.
#[verifier::external_body]
fn process_stats(sys: &System, pid: u32) -> (r: Option<ProcessStats>) {
    sys.process(sysinfo::Pid::from_u32(pid)).map(
        |p| ProcessStats { cpu: format!("{:.2}", p.cpu_usage()), memory_bytes: p.memory() },
    )
}

/// Relies on sysinfo::System::processes_by_exact_name: the ids of the
/// processes whose name equals `name`. What comes back depends on the machine.
#[verifier::external_body]
fn pids_by_exact_name(sys: &System, name: &String) -> (r: Vec<u32>) {
    sys.processes_by_exact_name(name.as_ref()).map(|p| p.pid().as_u32()).collect()
}

pub const NOT_FOUND: &'static str = "process not found";

/// What one sampling attempt that did not fail came to.
#[derive(PartialEq, Eq, Debug)]
pub enum Outcome {
    /// The target was present: the rendered line, also kept in the log.
    Line(String),
    /// Watch mode and no process to sample: the watched name was looked up
    /// again with this result, and no sample was taken.
    Waiting(Resolution),
}

/// Samples one target through the metrics source, keeps the rendered lines
/// in a bounded log, and owns the pause, step and stop state of the loop.
pub struct Profiler {
    target: Target,
    interval: Duration,
    human: bool,
    control: Controller,
    log: LogBuffer,
    sys: System,
}

impl Profiler {
    pub open spec fn wf(&self) -> bool {
        self.spec_log().wf()
    }

    pub closed spec fn spec_target(&self) -> Target {
        self.target
    }

    pub closed spec fn spec_human(&self) -> bool {
        self.human
    }

    pub closed spec fn spec_interval(&self) -> Duration {
        self.interval
    }

    pub closed spec fn spec_control(&self) -> Controller {
        self.control
    }

    pub open spec fn spec_paused(&self) -> bool {
        self.spec_control().paused
    }

    pub closed spec fn spec_log(&self) -> LogBuffer {
        self.log
    }

    /// A profiler of `target` with an empty log of `capacity` lines, raw
    /// memory output, and a running loop.
    pub fn with_target(target: Target, interval: Duration, capacity: usize) -> (r: Profiler)
        ensures
            r.wf(),
            r.spec_target() == target,
            r.spec_interval() == interval,
            !r.spec_human(),
            r.spec_control() == Controller::initial(),
            r.spec_log()@ == Seq::<String>::empty(),
            r.spec_log().spec_capacity() == capacity,
    {
        let mut sys = new_system();
        refresh_system(&mut sys);
        Profiler {
            target,
            interval,
            human: false,
            control: Controller::new(),
            log: LogBuffer::new(capacity),
            sys,
        }
    }

    /// A profiler of the fixed process `pid` (see `with_target`).
    pub fn new(pid: u32, interval: Duration, capacity: usize) -> (r: Profiler)
        ensures
            r.wf(),
            r.spec_target() == Target::Pid(pid),
            r.spec_interval() == interval,
            !r.spec_human(),
            r.spec_control() == Controller::initial(),
            r.spec_log()@ == Seq::<String>::empty(),
            r.spec_log().spec_capacity() == capacity,
    {
        Profiler::with_target(Target::Pid(pid), interval, capacity)
    }

    pub fn target(&self) -> (r: &Target)
        ensures
            *r == self.spec_target(),
    {
        &self.target
    }

    pub fn interval(&self) -> (r: Duration)
        ensures
            r == self.spec_interval(),
    {
        self.interval
    }

    pub fn log(&self) -> (r: &LogBuffer)
        ensures
            *r == self.spec_log(),
    {
        &self.log
    }

    pub fn control(&self) -> (r: Controller)
        ensures
            r == self.spec_control(),
    {
        self.control
    }

    /// Chooses between raw byte counts and binary units for memory;
    /// everything else is kept.
    pub fn set_human(&mut self, human: bool)
        ensures
            final(self).spec_human() == human,
            final(self).spec_target() == old(self).spec_target(),
            final(self).spec_interval() == old(self).spec_interval(),
            final(self).spec_control() == old(self).spec_control(),
            final(self).spec_log() == old(self).spec_log(),
    {
        self.human = human;
    }

    /// Toggles between running and paused; the log, target and output mode
    /// are kept.
    pub fn pause(&mut self)
        ensures
            final(self).spec_paused() == !old(self).spec_paused(),
            final(self).spec_control() == old(self).spec_control().after_key(PAUSE_KEY),
            final(self).spec_target() == old(self).spec_target(),
            final(self).spec_human() == old(self).spec_human(),
            final(self).spec_interval() == old(self).spec_interval(),
            final(self).spec_log() == old(self).spec_log(),
    {
        self.control.on_key(PAUSE_KEY);
    }

    /// Interprets a key press (see `Controller::on_key`).
    pub fn on_key(&mut self, c: char) -> (r: KeyAction)
        ensures
            r == old(self).spec_control().key_action(c),
            final(self).spec_control() == old(self).spec_control().after_key(c),
            final(self).spec_target() == old(self).spec_target(),
            final(self).spec_human() == old(self).spec_human(),
            final(self).spec_interval() == old(self).spec_interval(),
            final(self).spec_log() == old(self).spec_log(),
    {
        self.control.on_key(c)
    }

    /// Whether a sample is due `elapsed_ms` after the last one.
    pub fn sample_due(&self, elapsed_ms: u64, interval_ms: u64) -> (r: bool)
        ensures
            r == self.spec_control().due(elapsed_ms, interval_ms),
    {
        self.control.sample_due(elapsed_ms, interval_ms)
    }

    /// Renders what the metrics source reported of the target, taken at
    /// `timestamp_ms`, keeps the line in the log and returns it.
    pub fn record(&mut self, stats: ProcessStats, timestamp_ms: u64) -> (r: String)
        requires
            old(self).wf(),
        ensures
            final(self).wf(),
            final(self).spec_target() == old(self).spec_target(),
            final(self).spec_human() == old(self).spec_human(),
            final(self).spec_interval() == old(self).spec_interval(),
            final(self).spec_control() == old(self).spec_control(),
            final(self).spec_log().spec_capacity() == old(self).spec_log().spec_capacity(),
            r@ == sample_line(
                timestamp_ms as nat,
                stats.cpu@,
                stats.memory_bytes as nat,
                old(self).spec_human(),
            ),
            final(self).spec_log()@ == window(
                old(self).spec_log()@.push(r),
                old(self).spec_log().spec_capacity(),
            ),
    {
        let sample = Sample { timestamp_ms, cpu: stats.cpu, memory_bytes: stats.memory_bytes };
        let line = format_sample(&sample, self.human);
        self.log.push(line.clone());
        line
    }

    /// Handles a sampling attempt that found no process to sample. A
    /// watched name is resolved again from `ids`, the processes that carry
    /// it, and the loop goes on; a fixed id that is gone stops the loop with
    /// "process not found". The log is kept either way.
    pub fn absent(&mut self, ids: &Vec<u32>) -> (r: Result<Outcome, &'static str>)
        ensures
            final(self).spec_log() == old(self).spec_log(),
            final(self).spec_human() == old(self).spec_human(),
            final(self).spec_interval() == old(self).spec_interval(),
            final(self).spec_target() == old(self).spec_target().resolved(ids@),
            final(self).spec_control() == old(self).spec_control().after_absent(
                old(self).spec_target().is_watch(),
            ),
            old(self).spec_target().is_watch() ==> r == Ok::<Outcome, &'static str>(
                Outcome::Waiting(old(self).spec_target().resolution(ids@)),
            ),
            !old(self).spec_target().is_watch() ==> r == Err::<Outcome, &'static str>(NOT_FOUND),
    {
        match self.control.on_absent(&self.target) {
            AbsentAction::Resolve => Ok(Outcome::Waiting(self.target.resolve(ids))),
            AbsentAction::Stop => Err(NOT_FOUND),
        }
    }

    /// Takes one due sample at `timestamp_ms`: uses up a requested step,
    /// reloads the process table and reads the target. A present target is
    /// recorded. Otherwise a watched name is looked up again and the loop
    /// waits, and a fixed id ends the loop with "process not found".
    pub fn step(&mut self, timestamp_ms: u64) -> (r: Result<Outcome, &'static str>)
        requires
            old(self).wf(),
        ensures
            final(self).wf(),
            final(self).spec_human() == old(self).spec_human(),
            final(self).spec_interval() == old(self).spec_interval(),
            final(self).spec_log().spec_capacity() == old(self).spec_log().spec_capacity(),
            r.is_ok() ==> final(self).spec_control() == old(self).spec_control().after_sample(),
            old(self).spec_target().is_watch() ==> r.is_ok(),
            r.is_err() ==> {
                &&& !old(self).spec_target().is_watch()
                &&& r == Err::<Outcome, &'static str>(NOT_FOUND)
                &&& final(self).spec_control() == old(
                    self,
                ).spec_control().after_sample().after_absent(false)
                &&& final(self).spec_target() == old(self).spec_target()
                &&& final(self).spec_log() == old(self).spec_log()
            },
            old(self).spec_target().spec_current().is_none() ==> (r matches Ok(
                Outcome::Waiting(_),
            )),
            r matches Ok(Outcome::Waiting(res)) ==> {
                &&& old(self).spec_target().is_watch()
                &&& final(self).spec_log() == old(self).spec_log()
                &&& exists|ids: Seq<u32>|
                    #[trigger] old(self).spec_target().resolved(ids) == final(self).spec_target()
                        && res == old(self).spec_target().resolution(ids)
            },
            r matches Ok(Outcome::Line(line)) ==> {
                &&& final(self).spec_target() == old(self).spec_target()
                &&& exists|cpu: Seq<char>, m: nat|
                    line@ == #[trigger] sample_line(timestamp_ms as nat, cpu, m, old(self).spec_human())
                &&& final(self).spec_log()@ == window(
                    old(self).spec_log()@.push(line),
                    old(self).spec_log().spec_capacity(),
                )
            },
    {
        self.control.begin_sample();
        refresh_system(&mut self.sys);
        let stats = match self.target.current() {
            Some(id) => process_stats(&self.sys, id),
            None => None,
        };
        match stats {
            Some(s) => {
                let line = self.record(s, timestamp_ms);
                Ok(Outcome::Line(line))
            },
            None => {
                let ids = match self.target.watched_name() {
                    Some(name) => pids_by_exact_name(&self.sys, name),
                    None => Vec::new(),
                };
                self.absent(&ids)
            },
        }
    }
}

/// The logs of a profiler across its sampling attempts, as `step` and
/// `record` state them: `logs[0]` is empty; attempt `i` either produced
/// `lines[i]` and pushed it, or found no process and kept the log. However
/// many attempts failed in between, the log holds the last `cap` lines that
/// were produced, in order, and never more than `cap`.
pub proof fn lemma_sampling_log(
    logs: Seq<Seq<String>>,
    lines: Seq<String>,
    found: Seq<bool>,
    cap: nat,
)
    requires
        logs.len() == lines.len() + 1,
        found.len() == lines.len(),
        logs[0] == Seq::<String>::empty(),
        forall|i: int|
            0 <= i < lines.len() ==> #[trigger] logs[i + 1] == if found[i] {
                window(logs[i].push(lines[i]), cap)
            } else {
                logs[i]
            },
    ensures
        logs.last() == window(produced(lines, found), cap),
        logs.last().len() <= cap,
    decreases lines.len(),
{
    let n = lines.len();
    if n == 0 {
        assert(produced(lines, found) =~= Seq::<String>::empty());
    } else {
        let lg = logs.drop_last();
        let ln = lines.drop_last();
        let fd = found.drop_last();
        assert forall|i: int| 0 <= i < ln.len() implies #[trigger] lg[i + 1] == if fd[i] {
            window(lg[i].push(ln[i]), cap)
        } else {
            lg[i]
        } by {
            assert(logs[i + 1] == lg[i + 1]);
        }
        lemma_sampling_log(lg, ln, fd, cap);
        assert(logs[n as int] == logs.last());
        assert(lg.last() == logs[n - 1]);
        if found[n - 1] {
            lemma_window_push(produced(ln, fd), lines[n - 1], cap);
        }
    }
    lemma_window_shape(produced(lines, found), cap);
}

/// The lines of the attempts that found the process, in order.
pub open spec fn produced(lines: Seq<String>, found: Seq<bool>) -> Seq<String>
    recommends
        lines.len() == found.len(),
    decreases lines.len(),
{
    if lines.len() == 0 {
        Seq::empty()
    } else {
        let rest = produced(lines.drop_last(), found.drop_last());
        if found.last() {
            rest.push(lines.last())
        } else {
            rest
        }
    }
}

} // verus!
