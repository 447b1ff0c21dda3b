use vstd::prelude::*;

verus! {

/// Which process is sampled: a fixed id, or the one process whose name
/// equals a watched name, with the id it was last bound to.
pub enum Target {
    Pid(u32),
    Watch { name: String, bound: Option<u32> },
}

/// Why a target could not be built from the command line.
#[derive(PartialEq, Eq, Structural, Debug, Clone, Copy)]
pub enum ConfigError {
    BothPidAndWatch,
    NeitherPidNorWatch,
}

/// What one resolution of a watched name came to.
#[derive(PartialEq, Eq, Structural, Debug, Clone, Copy)]
pub enum Resolution {
    /// No process has the name yet; try again later.
    Waiting,
    /// Exactly one process has it; the target is now bound to its id.
    Bound(u32),
    /// Several processes have it; the target stays unbound.
    Ambiguous(usize),
}

impl Target {
    /// Builds the target from the two mutually exclusive options.
    pub fn new(pid: Option<u32>, watch: Option<String>) -> (r: Result<Target, ConfigError>)
        ensures
            pid.is_some() && watch.is_some() <==> r == Err::<Target, ConfigError>(
                ConfigError::BothPidAndWatch,
            ),
            pid.is_none() && watch.is_none() <==> r == Err::<Target, ConfigError>(
                ConfigError::NeitherPidNorWatch,
            ),
            pid.is_some() && watch.is_none() ==> (r matches Ok(Target::Pid(p)) && p == pid.unwrap()),
            pid.is_none() && watch.is_some() ==> (r matches Ok(Target::Watch { name, bound })
                && name@ == watch.unwrap()@ && bound.is_none()),
    {
        match (pid, watch) {
            (Some(_), Some(_)) => Err(ConfigError::BothPidAndWatch),
            (None, None) => Err(ConfigError::NeitherPidNorWatch),
            (Some(p), None) => Ok(Target::Pid(p)),
            (None, Some(name)) => Ok(Target::Watch { name, bound: None }),
        }
    }

    pub open spec fn spec_current(&self) -> Option<u32> {
        match self {
            Target::Pid(p) => Some(*p),
            Target::Watch { bound, .. } => *bound,
        }
    }

    /// The watched name; empty for a fixed id.
    pub open spec fn name_view(&self) -> Seq<char> {
        match self {
            Target::Pid(_) => Seq::empty(),
            Target::Watch { name, .. } => name@,
        }
    }

    pub open spec fn is_watch(&self) -> bool {
        self is Watch
    }

    /// The target after resolving against the ids of the processes that carry
    /// the watched name.
    pub open spec fn resolved(self, matches: Seq<u32>) -> Target {
        match self {
            Target::Pid(p) => Target::Pid(p),
            Target::Watch { name, .. } => Target::Watch {
                name,
                bound: if matches.len() == 1 {
                    Some(matches[0])
                } else {
                    None
                },
            },
        }
    }

    pub open spec fn resolution(self, matches: Seq<u32>) -> Resolution {
        if !self.is_watch() || matches.len() == 0 {
            Resolution::Waiting
        } else if matches.len() == 1 {
            Resolution::Bound(matches[0])
        } else {
            Resolution::Ambiguous(matches.len() as usize)
        }
    }

    /// The id to sample: the fixed one, or the one a watched name was bound to.
    pub fn current(&self) -> (r: Option<u32>)
        ensures
            r == self.spec_current(),
    {
        match self {
            Target::Pid(p) => Some(*p),
            Target::Watch { bound, .. } => *bound,
        }
    }

    pub fn watches(&self) -> (r: bool)
        ensures
            r == self.is_watch(),
    {
        match self {
            Target::Pid(_) => false,
            Target::Watch { .. } => true,
        }
    }

    /// The watched name, if any.
    pub fn watched_name(&self) -> (r: Option<&String>)
        ensures
            self.is_watch() <==> r.is_some(),
            self.is_watch() ==> r.unwrap()@ == self.name_view(),
    {
        match self {
            Target::Pid(_) => None,
            Target::Watch { name, .. } => Some(name),
        }
    }

    /// Resolves a watched name from the ids of the processes that carry it:
    /// none leaves the target unbound, one binds it, several are refused and
    /// leave it unbound. A fixed id is never changed.
    pub fn resolve(&mut self, matches: &Vec<u32>) -> (r: Resolution)
        ensures
            *final(self) == old(self).resolved(matches@),
            r == old(self).resolution(matches@),
            !old(self).is_watch() ==> *final(self) == *old(self) && r == Resolution::Waiting,
            old(self).is_watch() ==> final(self).is_watch(),
            final(self).name_view() == old(self).name_view(),
            old(self).is_watch() && matches@.len() == 0 ==> (r == Resolution::Waiting
                && final(self).spec_current().is_none()),
            old(self).is_watch() && matches@.len() == 1 ==> (r == Resolution::Bound(matches@[0])
                && final(self).spec_current() == Some(matches@[0])),
            old(self).is_watch() && matches@.len() > 1 ==> (r == Resolution::Ambiguous(
                matches@.len() as usize,
            ) && final(self).spec_current().is_none()),
    {
        match self {
            Target::Pid(_) => Resolution::Waiting,
            Target::Watch { bound, .. } => {
                if matches.len() == 0 {
                    *bound = None;
                    Resolution::Waiting
                } else if matches.len() == 1 {
                    *bound = Some(matches[0]);
                    Resolution::Bound(matches[0])
                } else {
                    *bound = None;
                    Resolution::Ambiguous(matches.len())
                }
            },
        }
    }
}

} // verus!
