//! Creating the missing ancestors of a destination directory, using only
//! "stat" and "mkdir" on the destination.
//!
//! The directory to create is described by its depth `n` below the
//! destination base: level `k` is the ancestor made of the first `k`
//! components, so level 0 is the base and level `n` the directory itself.
//! The materializer first probes upward (`n`, `n - 1`, ...) until a level
//! exists, then creates the missing levels downward, one by one. A level
//! that another writer created in the meantime counts as created. Each
//! result it is fed brings it strictly closer to its end, so a run takes at
//! most `2 n + 1` operations.
use vstd::prelude::*;

verus! {

/// Why a directory could not be materialized.
#[derive(Clone, Copy, Debug, PartialEq, Eq, Structural)]
pub enum MaterializeError {
    /// Not even the destination base answers a stat: the whole backend is
    /// unreachable.
    RemoteUnreachable,
    /// Creating the given level failed for another reason than its already
    /// existing (permission denied, for instance).
    CreateFailed { level: usize },
}

/// The stage of a materialization.
#[derive(Clone, Copy, Debug, PartialEq, Eq, Structural)]
pub enum MaterializePhase {
    /// Looking for the lowest existing ancestor; `level` is stat'ed next.
    Probing { level: usize },
    /// Creating the missing levels; `level` is created next.
    Creating { level: usize },
    /// Every level exists.
    Done,
    /// The run stopped on an error.
    Failed(MaterializeError),
}

/// What happened to a `mkdir`.
#[derive(Clone, Copy, Debug, PartialEq, Eq, Structural)]
pub enum MkdirOutcome {
    Created,
    /// The directory exists already: another writer won the race.
    AlreadyExists,
    Failed,
}

/// A result handed back to the materializer.
#[derive(Clone, Copy, Debug, PartialEq, Eq, Structural)]
pub enum DirEvent {
    /// Whether the stat of the requested level succeeded.
    Stat(bool),
    Mkdir(MkdirOutcome),
}

/// What the materializer asks for next.
#[derive(Clone, Copy, Debug, PartialEq, Eq)]
pub enum DirAction {
    Stat { level: usize },
    Mkdir { level: usize },
    Finished(Result<(), MaterializeError>),
}

/// The stage that follows `phase` once `event` comes in. An event that does
/// not answer the pending request leaves the stage as it is.
pub open spec fn next_phase(depth: usize, phase: MaterializePhase, event: DirEvent) -> MaterializePhase {
    match (phase, event) {
        (MaterializePhase::Probing { level }, DirEvent::Stat(ok)) => {
            if ok {
                if level >= depth {
                    MaterializePhase::Done
                } else {
                    MaterializePhase::Creating { level: (level + 1) as usize }
                }
            } else if level == 0 {
                MaterializePhase::Failed(MaterializeError::RemoteUnreachable)
            } else {
                MaterializePhase::Probing { level: (level - 1) as usize }
            }
        },
        (MaterializePhase::Creating { level }, DirEvent::Mkdir(outcome)) => {
            match outcome {
                MkdirOutcome::Failed => MaterializePhase::Failed(
                    MaterializeError::CreateFailed { level },
                ),
                _ => if level >= depth {
                    MaterializePhase::Done
                } else {
                    MaterializePhase::Creating { level: (level + 1) as usize }
                },
            }
        },
        _ => phase,
    }
}

/// The request that goes with a stage.
pub open spec fn action_of(phase: MaterializePhase) -> DirAction {
    match phase {
        MaterializePhase::Probing { level } => DirAction::Stat { level },
        MaterializePhase::Creating { level } => DirAction::Mkdir { level },
        MaterializePhase::Done => DirAction::Finished(Ok(())),
        MaterializePhase::Failed(e) => DirAction::Finished(Err(e)),
    }
}

/// Whether an event answers the request of a stage.
pub open spec fn answers(phase: MaterializePhase, event: DirEvent) -> bool {
    match (phase, event) {
        (MaterializePhase::Probing { .. }, DirEvent::Stat(_)) => true,
        (MaterializePhase::Creating { .. }, DirEvent::Mkdir(_)) => true,
        _ => false,
    }
}

/// An upper bound on the operations a stage still needs.
pub open spec fn remaining(depth: usize, phase: MaterializePhase) -> nat {
    match phase {
        MaterializePhase::Probing { level } => (depth + level + 1) as nat,
        MaterializePhase::Creating { level } => (depth + 1 - level) as nat,
        _ => 0,
    }
}

/// A stage whose level lies within the directory's depth.
pub open spec fn phase_within(depth: usize, phase: MaterializePhase) -> bool {
    match phase {
        MaterializePhase::Probing { level } => level <= depth,
        MaterializePhase::Creating { level } => 1 <= level <= depth,
        _ => true,
    }
}

/// The driver of one materialization.
pub struct Materializer {
    depth: usize,
    phase: MaterializePhase,
}

impl Materializer {
    #[verifier::type_invariant]
    spec fn inv(&self) -> bool {
        phase_within(self.depth, self.phase)
    }

    /// The depth of the directory below the destination base.
    pub closed spec fn target_depth(&self) -> usize {
        self.depth
    }

    /// The current stage.
    pub closed spec fn stage(&self) -> MaterializePhase {
        self.phase
    }

    /// Starts with a stat of the directory itself.
    pub fn new(depth: usize) -> (r: Materializer)
        ensures
            r.target_depth() == depth,
            r.stage() == (MaterializePhase::Probing { level: depth }),
            remaining(depth, r.stage()) == 2 * depth + 1,
    {
        Materializer { depth, phase: MaterializePhase::Probing { level: depth } }
    }

    /// The next request: a stat or mkdir of a level, or the final result.
    pub fn action(&self) -> (r: DirAction)
        ensures
            r == action_of(self.stage()),
    {
        match self.phase {
            MaterializePhase::Probing { level } => DirAction::Stat { level },
            MaterializePhase::Creating { level } => DirAction::Mkdir { level },
            MaterializePhase::Done => DirAction::Finished(Ok(())),
            MaterializePhase::Failed(e) => DirAction::Finished(Err(e)),
        }
    }

    /// Feeds the result of the pending request. A result that answers it
    /// brings the run strictly closer to its end.
    pub fn step(&mut self, event: DirEvent)
        ensures
            final(self).target_depth() == old(self).target_depth(),
            final(self).stage() == next_phase(old(self).target_depth(), old(self).stage(), event),
            answers(old(self).stage(), event) ==> remaining(
                final(self).target_depth(),
                final(self).stage(),
            ) < remaining(old(self).target_depth(), old(self).stage()),
    {
        proof {
            use_type_invariant(&*self);
        }
        let depth = self.depth;
        match (self.phase, event) {
            (MaterializePhase::Probing { level }, DirEvent::Stat(ok)) => {
                if ok {
                    if level >= depth {
                        self.phase = MaterializePhase::Done;
                    } else {
                        self.phase = MaterializePhase::Creating { level: level + 1 };
                    }
                } else if level == 0 {
                    self.phase = MaterializePhase::Failed(MaterializeError::RemoteUnreachable);
                } else {
                    self.phase = MaterializePhase::Probing { level: level - 1 };
                }
            },
            (MaterializePhase::Creating { level }, DirEvent::Mkdir(outcome)) => {
                match outcome {
                    MkdirOutcome::Failed => {
                        self.phase = MaterializePhase::Failed(
                            MaterializeError::CreateFailed { level },
                        );
                    },
                    _ => {
                        if level >= depth {
                            self.phase = MaterializePhase::Done;
                        } else {
                            self.phase = MaterializePhase::Creating { level: level + 1 };
                        }
                    },
                }
            },
            _ => {},
        }
    }
}

/// The answer that a destination whose existing levels are `fs` gives to a
/// request. A `mkdir` of an existing level reports that it exists already.
pub open spec fn answer_of(fs: Set<int>, action: DirAction) -> DirEvent {
    match action {
        DirAction::Stat { level } => DirEvent::Stat(fs.contains(level as int)),
        DirAction::Mkdir { level } => DirEvent::Mkdir(
            if fs.contains(level as int) {
                MkdirOutcome::AlreadyExists
            } else {
                MkdirOutcome::Created
            },
        ),
        DirAction::Finished(_) => DirEvent::Stat(false),
    }
}

/// The levels that exist after a request has been served.
pub open spec fn effect_of(fs: Set<int>, action: DirAction) -> Set<int> {
    match action {
        DirAction::Mkdir { level } => fs.insert(level as int),
        _ => fs,
    }
}

/// Whether serving a request creates a directory.
pub open spec fn creates(fs: Set<int>, action: DirAction) -> bool {
    match action {
        DirAction::Mkdir { level } => !fs.contains(level as int),
        _ => false,
    }
}

/// A run of at most `fuel` requests against a destination whose existing
/// levels are `fs`: the stage it ends in, the levels that exist afterwards,
/// and the number of directories it created.
pub open spec fn run_against(depth: usize, phase: MaterializePhase, fs: Set<int>, fuel: nat) -> (
    MaterializePhase,
    Set<int>,
    nat,
)
    decreases fuel,
{
    if fuel == 0 {
        (phase, fs, 0)
    } else {
        match phase {
            MaterializePhase::Done => (phase, fs, 0),
            MaterializePhase::Failed(_) => (phase, fs, 0),
            _ => {
                let a = action_of(phase);
                let rest = run_against(
                    depth,
                    next_phase(depth, phase, answer_of(fs, a)),
                    effect_of(fs, a),
                    (fuel - 1) as nat,
                );
                (rest.0, rest.1, rest.2 + if creates(fs, a) { 1nat } else { 0nat })
            },
        }
    }
}

/// The levels up to `depth` that exist are exactly those up to `top`.
pub open spec fn exists_up_to(fs: Set<int>, depth: usize, top: int) -> bool {
    forall|j: int| 0 <= j <= depth ==> (#[trigger] fs.contains(j) <==> j <= top)
}

proof fn lemma_create_rest(depth: usize, level: usize, fs: Set<int>, fuel: nat)
    requires
        1 <= level <= depth,
        exists_up_to(fs, depth, level - 1),
        fuel >= depth + 1 - level,
    ensures
        ({
            let r = run_against(depth, MaterializePhase::Creating { level }, fs, fuel);
            &&& r.0 == MaterializePhase::Done
            &&& r.1.contains(depth as int)
            &&& r.2 == depth + 1 - level
        }),
    decreases depth - level,
{
    let a = action_of(MaterializePhase::Creating { level });
    assert(!fs.contains(level as int));
    let fs2 = fs.insert(level as int);
    if level >= depth {
        assert(run_against(depth, MaterializePhase::Done, fs2, (fuel - 1) as nat) == (
            MaterializePhase::Done,
            fs2,
            0nat,
        ));
    } else {
        assert(exists_up_to(fs2, depth, level as int));
        lemma_create_rest(depth, (level + 1) as usize, fs2, (fuel - 1) as nat);
    }
}

proof fn lemma_probe_rest(depth: usize, level: usize, fs: Set<int>, top: int, fuel: nat)
    requires
        0 <= top <= level <= depth,
        exists_up_to(fs, depth, top),
        fuel >= (level - top) + 1 + (depth - top),
    ensures
        ({
            let r = run_against(depth, MaterializePhase::Probing { level }, fs, fuel);
            &&& r.0 == MaterializePhase::Done
            &&& r.1.contains(depth as int)
            &&& r.2 == depth - top
        }),
    decreases level - top,
{
    if level as int == top {
        assert(fs.contains(level as int));
        if level >= depth {
            assert(run_against(depth, MaterializePhase::Done, fs, (fuel - 1) as nat) == (
                MaterializePhase::Done,
                fs,
                0nat,
            ));
        } else {
            lemma_create_rest(depth, (level + 1) as usize, fs, (fuel - 1) as nat);
        }
    } else {
        assert(!fs.contains(level as int));
        lemma_probe_rest(depth, (level - 1) as usize, fs, top, (fuel - 1) as nat);
    }
}

/// Materializing the same directory twice in a row, against a destination
/// whose base exists: the first run ends with the directory present, having
/// created each missing level once; the second finds the directory at once,
/// creates nothing, changes nothing and succeeds.
pub proof fn lemma_materialize_twice(depth: usize, fs: Set<int>, top: int)
    requires
        0 <= top <= depth,
        exists_up_to(fs, depth, top),
    ensures
        ({
            let start = MaterializePhase::Probing { level: depth };
            let first = run_against(depth, start, fs, (2 * depth + 1) as nat);
            let second = run_against(depth, start, first.1, (2 * depth + 1) as nat);
            &&& first.0 == MaterializePhase::Done
            &&& first.1.contains(depth as int)
            &&& first.2 == depth - top
            &&& second.0 == MaterializePhase::Done
            &&& second.1 == first.1
            &&& second.2 == 0
        }),
{
    let start = MaterializePhase::Probing { level: depth };
    lemma_probe_rest(depth, depth, fs, top, (2 * depth + 1) as nat);
    let first = run_against(depth, start, fs, (2 * depth + 1) as nat);
    assert(run_against(depth, MaterializePhase::Done, first.1, (2 * depth) as nat) == (
        MaterializePhase::Done,
        first.1,
        0nat,
    ));
}

} // verus!
