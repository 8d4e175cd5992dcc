//! The stages of a run and the rule by which a run moves through them.
//!
//! A run logs in, has a cart picked, lists the cart's courses, has courses
//! and a time picked, submits at that time, and captures the results.  The
//! work of a stage either succeeds, which moves the run on by one stage, or
//! fails, which ends the run: nothing is retried as a whole.

use vstd::prelude::*;

verus! {

/// The stages of a run, in order.
#[derive(Debug, Clone, Copy, PartialEq, Eq, Structural)]
pub enum Stage {
    Init,
    LoggedIn,
    CartSelected,
    CoursesListed,
    CoursesSelected,
    Scheduled,
    Submitted,
    ResultsCaptured,
}

impl Stage {
    /// The place of the stage in the order of stages, from 0.
    pub open spec fn spec_rank(self) -> int {
        match self {
            Stage::Init => 0,
            Stage::LoggedIn => 1,
            Stage::CartSelected => 2,
            Stage::CoursesListed => 3,
            Stage::CoursesSelected => 4,
            Stage::Scheduled => 5,
            Stage::Submitted => 6,
            Stage::ResultsCaptured => 7,
        }
    }

    /// The stage that follows; the last stage has none.
    pub open spec fn spec_next(self) -> Option<Stage> {
        match self {
            Stage::Init => Some(Stage::LoggedIn),
            Stage::LoggedIn => Some(Stage::CartSelected),
            Stage::CartSelected => Some(Stage::CoursesListed),
            Stage::CoursesListed => Some(Stage::CoursesSelected),
            Stage::CoursesSelected => Some(Stage::Scheduled),
            Stage::Scheduled => Some(Stage::Submitted),
            Stage::Submitted => Some(Stage::ResultsCaptured),
            Stage::ResultsCaptured => None,
        }
    }

    /// The place of the stage in the order of stages, from 0.
    pub fn rank(self) -> (r: u8)
        ensures
            r == self.spec_rank(),
    {
        match self {
            Stage::Init => 0,
            Stage::LoggedIn => 1,
            Stage::CartSelected => 2,
            Stage::CoursesListed => 3,
            Stage::CoursesSelected => 4,
            Stage::Scheduled => 5,
            Stage::Submitted => 6,
            Stage::ResultsCaptured => 7,
        }
    }

    /// The stage that follows; the last stage has none.
    pub fn next(self) -> (r: Option<Stage>)
        ensures
            r == self.spec_next(),
            r is None <==> self == Stage::ResultsCaptured,
            r matches Some(following) ==> following.spec_rank() == self.spec_rank() + 1,
    {
        match self {
            Stage::Init => Some(Stage::LoggedIn),
            Stage::LoggedIn => Some(Stage::CartSelected),
            Stage::CartSelected => Some(Stage::CoursesListed),
            Stage::CoursesListed => Some(Stage::CoursesSelected),
            Stage::CoursesSelected => Some(Stage::Scheduled),
            Stage::Scheduled => Some(Stage::Submitted),
            Stage::Submitted => Some(Stage::ResultsCaptured),
            Stage::ResultsCaptured => None,
        }
    }
}

/// Where a run stands.
#[derive(Debug, Clone, PartialEq, Eq)]
pub enum RunState {
    /// The run reached this stage.
    At(Stage),
    /// The work that follows this stage failed.
    Failed { stage: Stage, cause: String },
}

/// Where a run stands, as a value.
pub enum RunModel {
    At(Stage),
    Failed { stage: Stage, cause: Seq<char> },
}

impl View for RunState {
    type V = RunModel;

    open spec fn view(&self) -> RunModel {
        match self {
            RunState::At(stage) => RunModel::At(*stage),
            RunState::Failed { stage, cause } => RunModel::Failed { stage: *stage, cause: cause@ },
        }
    }
}

/// What the caller does after the work of a stage.
#[derive(Debug, Clone, Copy, PartialEq, Eq, Structural)]
pub enum Directive {
    /// Do the work that follows the stage reached.
    Proceed,
    /// Capture what the page looks like, then report the failure and end.
    CaptureDiagnostics,
    /// End the run: nothing is left to do.
    Halt,
}

impl RunModel {
    /// The run has ended: the results were captured, or it failed.
    pub open spec fn is_terminal(self) -> bool {
        match self {
            RunModel::At(stage) => stage == Stage::ResultsCaptured,
            RunModel::Failed { .. } => true,
        }
    }

    /// The state and the directive that follow the work of a stage: `None`
    /// where it succeeded, its cause where it failed.
    pub open spec fn after(self, failure: Option<Seq<char>>) -> (RunModel, Directive) {
        match self {
            RunModel::Failed { .. } => (self, Directive::Halt),
            RunModel::At(stage) => match stage.spec_next() {
                None => (self, Directive::Halt),
                Some(following) => match failure {
                    Some(cause) => (RunModel::Failed { stage, cause }, Directive::CaptureDiagnostics),
                    None => (
                        RunModel::At(following),
                        if following == Stage::ResultsCaptured {
                            Directive::Halt
                        } else {
                            Directive::Proceed
                        },
                    ),
                },
            },
        }
    }

    /// The state once the work of `n` stages succeeded in a row.
    pub open spec fn after_successes(self, n: nat) -> RunModel
        decreases n,
    {
        if n == 0 {
            self
        } else {
            self.after_successes((n - 1) as nat).after(None).0
        }
    }

    /// The status with which the process ends.
    pub open spec fn exit_code(self) -> int {
        if self == RunModel::At(Stage::ResultsCaptured) {
            0
        } else {
            1
        }
    }
}

impl RunState {
    /// The state in which every run begins.
    pub fn start() -> (state: RunState)
        ensures
            state@ == RunModel::At(Stage::Init),
    {
        RunState::At(Stage::Init)
    }

    /// Tells whether the run has ended.
    pub fn is_terminal(&self) -> (r: bool)
        ensures
            r == self@.is_terminal(),
    {
        match self {
            RunState::At(Stage::ResultsCaptured) => true,
            RunState::At(_) => false,
            RunState::Failed { .. } => true,
        }
    }

    /// Takes in how the work that follows the stage reached went, and gives the
    /// state that follows and what to do next.
    pub fn advance(self, outcome: Result<(), String>) -> (r: (RunState, Directive))
        ensures
            (r.0@, r.1) == self@.after(
                match outcome {
                    Ok(_) => None,
                    Err(cause) => Some(cause@),
                },
            ),
    {
        match self {
            RunState::Failed { stage, cause } => (RunState::Failed { stage, cause }, Directive::Halt),
            RunState::At(stage) => match stage.next() {
                None => (RunState::At(stage), Directive::Halt),
                Some(following) => match outcome {
                    Err(cause) => (RunState::Failed { stage, cause }, Directive::CaptureDiagnostics),
                    Ok(_) => {
                        let directive = match following {
                            Stage::ResultsCaptured => Directive::Halt,
                            _ => Directive::Proceed,
                        };
                        (RunState::At(following), directive)
                    },
                },
            },
        }
    }

    /// The status with which the process ends: zero once the results were
    /// captured, one in every other state.
    pub fn exit_code(&self) -> (code: i32)
        ensures
            code == self@.exit_code(),
            code == 0 <==> self@ == RunModel::At(Stage::ResultsCaptured),
    {
        match self {
            RunState::At(Stage::ResultsCaptured) => 0,
            _ => 1,
        }
    }
}

/// A run that has ended stays as it is, whatever is reported to it.
pub proof fn lemma_terminal_is_absorbing(state: RunModel, failure: Option<Seq<char>>)
    requires
        state.is_terminal(),
    ensures
        state.after(failure) == (state, Directive::Halt),
{
}

/// From every state in which the run is under way, failing work leads to the
/// failed state, which names the stage reached and the cause, and asks for the
/// page to be captured.
pub proof fn lemma_failure_is_reachable_everywhere(state: RunModel, cause: Seq<char>)
    requires
        !state.is_terminal(),
    ensures
        state.after(Some(cause)).0.is_terminal(),
        state.after(Some(cause)).0 == (RunModel::Failed { stage: state->At_0, cause }),
        state.after(Some(cause)).1 == Directive::CaptureDiagnostics,
{
}

/// Work that succeeds moves the run on by exactly one stage.
pub proof fn lemma_success_moves_one_stage(state: RunModel)
    requires
        !state.is_terminal(),
    ensures
        state.after(None).0 is At,
        state.after(None).0->At_0.spec_rank() == state->At_0.spec_rank() + 1,
        state.after(None).1 == Directive::Halt <==> state.after(None).0.is_terminal(),
{
}

/// A run in which all work succeeds captures the results after seven stages of
/// work, and not before.
pub proof fn lemma_seven_successes_capture_results(n: nat)
    requires
        n <= 7,
    ensures
        RunModel::At(Stage::Init).after_successes(n) is At,
        RunModel::At(Stage::Init).after_successes(n)->At_0.spec_rank() == n,
        RunModel::At(Stage::Init).after_successes(n).is_terminal() <==> n == 7,
        RunModel::At(Stage::Init).after_successes(n).exit_code() == 0 <==> n == 7,
    decreases n,
{
    if n > 0 {
        lemma_seven_successes_capture_results((n - 1) as nat);
    }
}

} // verus!
