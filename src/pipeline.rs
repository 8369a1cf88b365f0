//! The per-package build pipeline as a state machine. The driver performs
//! each action that `step` returns and reports how it went as the next event;
//! the decisions (gates, fan-out, classification, cleanup) are taken here.
use vstd::prelude::*;

verus! {

/// Where a package attempt stands.
#[derive(Clone, Copy, Debug, PartialEq, Eq, Structural)]
pub enum Stage {
    CheckingGate,
    CheckingBlacklist,
    UpdatingToolchain,
    LoadingLimits,
    Preparing,
    BuildingDefault,
    CopyingDefaultDocs,
    BuildingTargets,
    UploadingDocs,
    ArchivingSources,
    Counting,
    Persisting,
    CleaningUp,
    Finished,
}

/// The three mutually exclusive outcome counters.
#[derive(Clone, Copy, Debug, PartialEq, Eq, Structural)]
pub enum BuildCounter {
    Successful,
    FailedLibrary,
    NonLibrary,
}

/// What the driver reports after performing an action.
#[derive(Clone, Debug)]
pub enum PipelineEvent {
    /// The answer to a yes/no question: whether to build at all, or whether
    /// the package is blacklisted.
    Checked(bool),
    /// The limit on additional targets for this package.
    LimitsLoaded(usize),
    /// The build directory is fresh and the sources are fetched; these are the
    /// package's declared targets.
    Prepared { default_target: String, other_targets: Vec<String> },
    /// The default target was built.
    DefaultBuilt { successful: bool, is_library: bool, library_docs_exist: bool },
    /// An additional target was built (and its docs staged when they exist).
    TargetBuilt { successful: bool, docs_exist: bool },
    Done,
    /// An infrastructure failure.
    Failed,
}

/// What the driver must do next.
#[derive(Clone, Debug)]
pub enum PipelineAction {
    CheckShouldBuild,
    CheckBlacklist,
    UpdateToolchain,
    LoadLimits,
    /// Purge the build directory, fetch the sources, open the staging directory.
    Prepare,
    BuildDefault(String),
    CopyDefaultDocs,
    BuildTarget(String),
    UploadDocs,
    ArchiveSources,
    Count(BuildCounter),
    /// Write the package, coverage and build records.
    Persist,
    /// Purge the build directory and the fetched sources, close the staging directory.
    CleanUp,
    /// The attempt is over: `Some(success of the default build)`, `Some(false)`
    /// when skipped, `None` on an infrastructure failure.
    Finish(Option<bool>),
}

/// The model of a pipeline.
pub struct PipelineState {
    pub stage: Stage,
    pub max_targets: usize,
    pub default_target: String,
    pub fan_out: Seq<String>,
    pub next_target: usize,
    pub successful_targets: Seq<String>,
    pub default_successful: bool,
    pub is_library: bool,
    pub has_docs: bool,
    pub failed: bool,
    pub result: Option<bool>,
}

pub struct PackagePipeline {
    pub stage: Stage,
    pub max_targets: usize,
    pub default_target: String,
    pub fan_out: Vec<String>,
    pub next_target: usize,
    pub successful_targets: Vec<String>,
    pub default_successful: bool,
    pub is_library: bool,
    pub has_docs: bool,
    pub failed: bool,
    pub result: Option<bool>,
}

impl View for PackagePipeline {
    type V = PipelineState;

    open spec fn view(&self) -> PipelineState {
        PipelineState {
            stage: self.stage,
            max_targets: self.max_targets,
            default_target: self.default_target,
            fan_out: self.fan_out@,
            next_target: self.next_target,
            successful_targets: self.successful_targets@,
            default_successful: self.default_successful,
            is_library: self.is_library,
            has_docs: self.has_docs,
            failed: self.failed,
            result: self.result,
        }
    }
}

pub open spec fn classify(successful: bool, is_library: bool) -> BuildCounter {
    if successful {
        BuildCounter::Successful
    } else if is_library {
        BuildCounter::FailedLibrary
    } else {
        BuildCounter::NonLibrary
    }
}

/// Which outcome counter a package attempt increments: a failed build of a
/// package without a library is not a failure of documentation.
pub fn classify_build(successful: bool, is_library: bool) -> (r: BuildCounter)
    ensures
        r == classify(successful, is_library),
{
    if successful {
        BuildCounter::Successful
    } else if is_library {
        BuildCounter::FailedLibrary
    } else {
        BuildCounter::NonLibrary
    }
}

pub open spec fn min_usize(a: usize, b: int) -> int {
    if a < b {
        a as int
    } else {
        b
    }
}

/// The additional targets that are attempted: the first `limit` declared ones.
pub fn limit_targets(targets: &Vec<String>, limit: usize) -> (r: Vec<String>)
    ensures
        r@ == targets@.take(min_usize(limit, targets@.len() as int)),
{
    let mut r: Vec<String> = Vec::new();
    let mut i: usize = 0;
    while i < targets.len() && i < limit
        invariant
            i <= targets@.len(),
            i <= limit,
            r@ == targets@.take(i as int),
        decreases targets@.len() - i,
    {
        r.push(targets[i].clone());
        assert(r@ =~= targets@.take(i + 1));
        i = i + 1;
    }
    r
}

/// Stages during which the build directory, the fetched sources or the
/// staging directory may exist and must be cleaned up.
pub open spec fn holds_resources(stage: Stage) -> bool {
    match stage {
        Stage::CheckingGate | Stage::UpdatingToolchain | Stage::CheckingBlacklist
        | Stage::LoadingLimits | Stage::Finished => false,
        _ => true,
    }
}

pub open spec fn finish(s: PipelineState, result: Option<bool>) -> (PipelineState, PipelineAction) {
    (PipelineState { stage: Stage::Finished, result, ..s }, PipelineAction::Finish(result))
}

pub open spec fn to_stage(s: PipelineState, stage: Stage, a: PipelineAction) -> (
    PipelineState,
    PipelineAction,
) {
    (PipelineState { stage, ..s }, a)
}

/// An infrastructure failure: clean up first when resources are held.
pub open spec fn fail(s: PipelineState) -> (PipelineState, PipelineAction) {
    if holds_resources(s.stage) && s.stage != Stage::CleaningUp {
        (PipelineState { stage: Stage::CleaningUp, failed: true, ..s }, PipelineAction::CleanUp)
    } else {
        finish(s, None)
    }
}

/// The step after the additional target at `s.next_target - 1`, or after the
/// default docs when none was attempted yet.
pub open spec fn next_target_or_upload(s: PipelineState) -> (PipelineState, PipelineAction) {
    if s.next_target < s.fan_out.len() {
        to_stage(s, Stage::BuildingTargets, PipelineAction::BuildTarget(s.fan_out[s.next_target as int]))
    } else {
        to_stage(s, Stage::UploadingDocs, PipelineAction::UploadDocs)
    }
}

/// The transition table of the pipeline.
pub open spec fn transition(s: PipelineState, e: PipelineEvent) -> (PipelineState, PipelineAction) {
    match s.stage {
        Stage::Finished => (s, PipelineAction::Finish(s.result)),
        Stage::CheckingGate => match e {
            PipelineEvent::Checked(true) => to_stage(s, Stage::CheckingBlacklist, PipelineAction::CheckBlacklist),
            PipelineEvent::Checked(false) => finish(s, Some(false)),
            _ => fail(s),
        },
        Stage::CheckingBlacklist => match e {
            PipelineEvent::Checked(false) => to_stage(s, Stage::UpdatingToolchain, PipelineAction::UpdateToolchain),
            PipelineEvent::Checked(true) => finish(s, Some(false)),
            _ => fail(s),
        },
        Stage::UpdatingToolchain => match e {
            PipelineEvent::Done => to_stage(s, Stage::LoadingLimits, PipelineAction::LoadLimits),
            _ => fail(s),
        },
        Stage::LoadingLimits => match e {
            PipelineEvent::LimitsLoaded(k) => (
                PipelineState { stage: Stage::Preparing, max_targets: k, ..s },
                PipelineAction::Prepare,
            ),
            _ => fail(s),
        },
        Stage::Preparing => match e {
            PipelineEvent::Prepared { default_target, other_targets } => (
                PipelineState {
                    stage: Stage::BuildingDefault,
                    default_target,
                    fan_out: other_targets@.take(min_usize(s.max_targets, other_targets@.len() as int)),
                    next_target: 0,
                    ..s
                },
                PipelineAction::BuildDefault(default_target),
            ),
            _ => fail(s),
        },
        Stage::BuildingDefault => match e {
            PipelineEvent::DefaultBuilt { successful, is_library, library_docs_exist } => {
                let has_docs = successful && is_library && library_docs_exist;
                let t = PipelineState { default_successful: successful, is_library, has_docs, ..s };
                if has_docs {
                    to_stage(t, Stage::CopyingDefaultDocs, PipelineAction::CopyDefaultDocs)
                } else {
                    to_stage(t, Stage::ArchivingSources, PipelineAction::ArchiveSources)
                }
            },
            _ => fail(s),
        },
        Stage::CopyingDefaultDocs => match e {
            PipelineEvent::Done => next_target_or_upload(
                PipelineState { successful_targets: seq![s.default_target], next_target: 0, ..s },
            ),
            _ => fail(s),
        },
        Stage::BuildingTargets => match e {
            PipelineEvent::TargetBuilt { successful, docs_exist } => if s.next_target < s.fan_out.len() {
                let done = s.fan_out[s.next_target as int];
                let t = PipelineState {
                    successful_targets: if successful && docs_exist {
                        s.successful_targets.push(done)
                    } else {
                        s.successful_targets
                    },
                    next_target: (s.next_target + 1) as usize,
                    ..s
                };
                next_target_or_upload(t)
            } else {
                fail(s)
            },
            _ => fail(s),
        },
        Stage::UploadingDocs => match e {
            PipelineEvent::Done => to_stage(s, Stage::ArchivingSources, PipelineAction::ArchiveSources),
            _ => fail(s),
        },
        Stage::ArchivingSources => match e {
            PipelineEvent::Done => to_stage(
                s,
                Stage::Counting,
                PipelineAction::Count(classify(s.default_successful, s.is_library)),
            ),
            _ => fail(s),
        },
        Stage::Counting => match e {
            PipelineEvent::Done => to_stage(s, Stage::Persisting, PipelineAction::Persist),
            _ => fail(s),
        },
        Stage::Persisting => match e {
            PipelineEvent::Done => to_stage(s, Stage::CleaningUp, PipelineAction::CleanUp),
            _ => fail(s),
        },
        Stage::CleaningUp => match e {
            PipelineEvent::Done => finish(
                s,
                if s.failed {
                    None
                } else {
                    Some(s.default_successful)
                },
            ),
            _ => finish(s, None),
        },
    }
}

pub fn stage_holds_resources(stage: Stage) -> (r: bool)
    ensures
        r == holds_resources(stage),
{
    match stage {
        Stage::CheckingGate | Stage::UpdatingToolchain | Stage::CheckingBlacklist
        | Stage::LoadingLimits | Stage::Finished => false,
        _ => true,
    }
}

impl PackagePipeline {
    /// A pipeline at its start, with the first action to perform.
    pub fn new() -> (r: (PackagePipeline, PipelineAction))
        ensures
            r.0.stage == Stage::CheckingGate,
            r.0@.fan_out.len() == 0,
            r.0@.successful_targets.len() == 0,
            r.0.next_target == 0,
            !r.0.failed,
            r.0.result is None,
            r.1 == PipelineAction::CheckShouldBuild,
    {
        (
            PackagePipeline {
                stage: Stage::CheckingGate,
                max_targets: 0,
                default_target: String::new(),
                fan_out: Vec::new(),
                next_target: 0,
                successful_targets: Vec::new(),
                default_successful: false,
                is_library: false,
                has_docs: false,
                failed: false,
                result: None,
            },
            PipelineAction::CheckShouldBuild,
        )
    }

    fn move_to(&mut self, stage: Stage, a: PipelineAction) -> (r: PipelineAction)
        ensures
            (final(self)@, r) == to_stage(old(self)@, stage, a),
    {
        self.stage = stage;
        a
    }

    fn finish_with(&mut self, result: Option<bool>) -> (r: PipelineAction)
        ensures
            (final(self)@, r) == finish(old(self)@, result),
    {
        self.stage = Stage::Finished;
        self.result = result;
        PipelineAction::Finish(result)
    }

    fn fail_now(&mut self) -> (r: PipelineAction)
        ensures
            (final(self)@, r) == fail(old(self)@),
    {
        if stage_holds_resources(self.stage) && self.stage != Stage::CleaningUp {
            self.stage = Stage::CleaningUp;
            self.failed = true;
            PipelineAction::CleanUp
        } else {
            self.finish_with(None)
        }
    }

    fn target_or_upload(&mut self) -> (r: PipelineAction)
        ensures
            (final(self)@, r) == next_target_or_upload(old(self)@),
    {
        if self.next_target < self.fan_out.len() {
            let t = self.fan_out[self.next_target].clone();
            self.move_to(Stage::BuildingTargets, PipelineAction::BuildTarget(t))
        } else {
            self.move_to(Stage::UploadingDocs, PipelineAction::UploadDocs)
        }
    }

    /// Takes the outcome of the last action and returns the next one.
    pub fn step(&mut self, e: PipelineEvent) -> (r: PipelineAction)
        ensures
            (final(self)@, r) == transition(old(self)@, e),
    {
        match self.stage {
            Stage::Finished => PipelineAction::Finish(self.result),
            Stage::CheckingGate => match e {
                PipelineEvent::Checked(true) => self.move_to(
                    Stage::CheckingBlacklist,
                    PipelineAction::CheckBlacklist,
                ),
                PipelineEvent::Checked(false) => self.finish_with(Some(false)),
                _ => self.fail_now(),
            },
            Stage::CheckingBlacklist => match e {
                PipelineEvent::Checked(false) => self.move_to(
                    Stage::UpdatingToolchain,
                    PipelineAction::UpdateToolchain,
                ),
                PipelineEvent::Checked(true) => self.finish_with(Some(false)),
                _ => self.fail_now(),
            },
            Stage::UpdatingToolchain => match e {
                PipelineEvent::Done => self.move_to(Stage::LoadingLimits, PipelineAction::LoadLimits),
                _ => self.fail_now(),
            },
            Stage::LoadingLimits => match e {
                PipelineEvent::LimitsLoaded(k) => {
                    self.max_targets = k;
                    self.move_to(Stage::Preparing, PipelineAction::Prepare)
                },
                _ => self.fail_now(),
            },
            Stage::Preparing => match e {
                PipelineEvent::Prepared { default_target, other_targets } => {
                    self.fan_out = limit_targets(&other_targets, self.max_targets);
                    self.next_target = 0;
                    self.default_target = default_target.clone();
                    self.move_to(Stage::BuildingDefault, PipelineAction::BuildDefault(default_target))
                },
                _ => self.fail_now(),
            },
            Stage::BuildingDefault => match e {
                PipelineEvent::DefaultBuilt { successful, is_library, library_docs_exist } => {
                    let has_docs = successful && is_library && library_docs_exist;
                    self.default_successful = successful;
                    self.is_library = is_library;
                    self.has_docs = has_docs;
                    if has_docs {
                        self.move_to(Stage::CopyingDefaultDocs, PipelineAction::CopyDefaultDocs)
                    } else {
                        self.move_to(Stage::ArchivingSources, PipelineAction::ArchiveSources)
                    }
                },
                _ => self.fail_now(),
            },
            Stage::CopyingDefaultDocs => match e {
                PipelineEvent::Done => {
                    let mut done: Vec<String> = Vec::new();
                    done.push(self.default_target.clone());
                    self.successful_targets = done;
                    self.next_target = 0;
                    assert(self.successful_targets@ =~= seq![old(self).default_target]);
                    self.target_or_upload()
                },
                _ => self.fail_now(),
            },
            Stage::BuildingTargets => match e {
                PipelineEvent::TargetBuilt { successful, docs_exist } => {
                    if self.next_target < self.fan_out.len() {
                        if successful && docs_exist {
                            let t = self.fan_out[self.next_target].clone();
                            self.successful_targets.push(t);
                        }
                        self.next_target = self.next_target + 1;
                        self.target_or_upload()
                    } else {
                        self.fail_now()
                    }
                },
                _ => self.fail_now(),
            },
            Stage::UploadingDocs => match e {
                PipelineEvent::Done => self.move_to(
                    Stage::ArchivingSources,
                    PipelineAction::ArchiveSources,
                ),
                _ => self.fail_now(),
            },
            Stage::ArchivingSources => match e {
                PipelineEvent::Done => {
                    let c = classify_build(self.default_successful, self.is_library);
                    self.move_to(Stage::Counting, PipelineAction::Count(c))
                },
                _ => self.fail_now(),
            },
            Stage::Counting => match e {
                PipelineEvent::Done => self.move_to(Stage::Persisting, PipelineAction::Persist),
                _ => self.fail_now(),
            },
            Stage::Persisting => match e {
                PipelineEvent::Done => self.move_to(Stage::CleaningUp, PipelineAction::CleanUp),
                _ => self.fail_now(),
            },
            Stage::CleaningUp => match e {
                PipelineEvent::Done => {
                    let r = if self.failed {
                        None
                    } else {
                        Some(self.default_successful)
                    };
                    self.finish_with(r)
                },
                _ => self.finish_with(None),
            },
        }
    }
}

/// The stages in the order a run visits them.
pub open spec fn rank(stage: Stage) -> int {
    match stage {
        Stage::CheckingGate => 0,
        Stage::CheckingBlacklist => 1,
        Stage::UpdatingToolchain => 2,
        Stage::LoadingLimits => 3,
        Stage::Preparing => 4,
        Stage::BuildingDefault => 5,
        Stage::CopyingDefaultDocs => 6,
        Stage::BuildingTargets => 7,
        Stage::UploadingDocs => 8,
        Stage::ArchivingSources => 9,
        Stage::Counting => 10,
        Stage::Persisting => 11,
        Stage::CleaningUp => 12,
        Stage::Finished => 13,
    }
}

pub open spec fn before_limits(stage: Stage) -> bool {
    rank(stage) <= 3
}

/// The fan-out never exceeds the limit, and the next target is within it.
pub open spec fn fan_out_wf(s: PipelineState) -> bool {
    &&& s.next_target <= s.fan_out.len()
    &&& if before_limits(s.stage) {
        s.fan_out.len() == 0
    } else {
        s.fan_out.len() <= s.max_targets
    }
}

/// Bounded fan-out: the attempted additional targets are the first `limit`
/// declared ones (all of them when fewer are declared), attempted one after
/// the other in declared order, so at most `limit` of them are ever built.
pub proof fn lemma_fan_out_bounded(s: PipelineState, e: PipelineEvent)
    requires
        fan_out_wf(s),
    ensures
        ({
            let (n, a) = transition(s, e);
            &&& fan_out_wf(n)
            &&& s.stage != Stage::Preparing ==> n.fan_out == s.fan_out
            &&& (s.stage == Stage::Preparing && e is Prepared) ==> n.fan_out == e->other_targets@.take(
                min_usize(s.max_targets, e->other_targets@.len() as int),
            )
            &&& a is BuildTarget ==> {
                &&& n.stage == Stage::BuildingTargets
                &&& n.next_target < n.fan_out.len() <= n.max_targets
                &&& a->BuildTarget_0 == n.fan_out[n.next_target as int]
                &&& s.stage == Stage::BuildingTargets ==> n.next_target == s.next_target + 1
                &&& s.stage != Stage::BuildingTargets ==> n.next_target == 0
            }
        }),
{
}

/// A package whose default build fails skips the documentation steps but
/// still has its sources archived next, and is recorded as not successful.
pub proof fn lemma_failed_build_still_archived(
    s: PipelineState,
    is_library: bool,
    library_docs_exist: bool,
)
    requires
        s.stage == Stage::BuildingDefault,
    ensures
        ({
            let (n, a) = transition(
                s,
                PipelineEvent::DefaultBuilt { successful: false, is_library, library_docs_exist },
            );
            &&& n.stage == Stage::ArchivingSources
            &&& a == PipelineAction::ArchiveSources
            &&& !n.default_successful
            &&& !n.has_docs
        }),
{
}

/// Exactly one outcome counter per attempt: a count is only issued right
/// after the sources were archived, and names the counter of the default
/// build's outcome.
pub proof fn lemma_single_count(s: PipelineState, e: PipelineEvent)
    ensures
        ({
            let (n, a) = transition(s, e);
            a is Count ==> {
                &&& s.stage == Stage::ArchivingSources
                &&& n.stage == Stage::Counting
                &&& a == PipelineAction::Count(classify(s.default_successful, s.is_library))
            }
        }),
        s.stage == Stage::ArchivingSources ==> transition(s, PipelineEvent::Done).1 is Count,
{
}

/// Cleanup on every exit path, exactly once: a run never goes back to an
/// earlier stage; the clean-up action is issued exactly when the cleaning
/// stage is entered; and once resources are held the run can only finish
/// from the cleaning stage.
pub proof fn lemma_cleanup_once(s: PipelineState, e: PipelineEvent)
    ensures
        ({
            let (n, a) = transition(s, e);
            &&& n.stage == s.stage || rank(n.stage) > rank(s.stage)
            &&& n.stage == s.stage ==> (s.stage == Stage::BuildingTargets || s.stage == Stage::Finished)
            &&& a is CleanUp <==> (n.stage == Stage::CleaningUp && s.stage != Stage::CleaningUp)
            &&& holds_resources(s.stage) ==> (holds_resources(n.stage) || n.stage == Stage::Finished)
            &&& (holds_resources(s.stage) && n.stage == Stage::Finished) ==> s.stage
                == Stage::CleaningUp
            &&& n.stage == Stage::Finished ==> a == PipelineAction::Finish(n.result)
        }),
{
}

} // verus!
