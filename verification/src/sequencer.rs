//! The submission sequence: wait for the instant, load the page anew, tick the
//! checkboxes of the chosen courses, and click the control that submits.
//!
//! Loading the page anew makes every element handle stale, so a course's
//! checkbox is found again by its position in the fresh list of checkboxes.
//! The caller performs each command and reports what came of it; which command
//! follows is decided here.

use vstd::prelude::*;
use vstd::string::StringExecFns;
use crate::elements::Course;
use crate::schedule::{ClockReading, RegistrationTime, POLL_INTERVAL_MILLIS};

verus! {

/// The checkbox indices of some courses, in the order of the courses.
pub open spec fn indices_of(courses: Seq<Course>) -> Seq<usize> {
    Seq::new(courses.len(), |i: int| courses[i].checkbox_index)
}

/// Some chosen course has its checkbox at `position`.
pub open spec fn picked(selected: Seq<usize>, position: int) -> bool {
    exists|k: int| 0 <= k < selected.len() && #[trigger] selected[k] == position
}

/// The positions below `count` that hold the checkbox of a chosen course, in
/// rising order.
pub open spec fn plan_of(selected: Seq<usize>, count: nat) -> Seq<usize>
    decreases count,
{
    if count == 0 {
        Seq::<usize>::empty()
    } else {
        let before = plan_of(selected, (count - 1) as nat);
        if picked(selected, count - 1) {
            before.push((count - 1) as usize)
        } else {
            before
        }
    }
}

/// The plan holds exactly the picked positions below `count`, each once and in
/// rising order.
pub proof fn lemma_plan_is_exact(selected: Seq<usize>, count: nat)
    requires
        count <= usize::MAX,
    ensures
        plan_of(selected, count).len() <= count,
        forall|a: int|
            0 <= a < plan_of(selected, count).len() ==> (#[trigger] plan_of(selected, count)[a])
                < count && picked(selected, plan_of(selected, count)[a] as int),
        forall|a: int, b: int|
            0 <= a < b < plan_of(selected, count).len() ==> (#[trigger] plan_of(
                selected,
                count,
            )[a]) < (#[trigger] plan_of(selected, count)[b]),
        forall|p: int|
            0 <= p < count && picked(selected, p) ==> #[trigger] plan_of(selected, count).contains(
                p as usize,
            ),
    decreases count,
{
    if count > 0 {
        let before = plan_of(selected, (count - 1) as nat);
        let plan = plan_of(selected, count);
        lemma_plan_is_exact(selected, (count - 1) as nat);
        if picked(selected, count - 1) {
            assert(plan == before.push((count - 1) as usize));
            assert(plan[plan.len() - 1] == (count - 1) as usize);
            assert forall|p: int| 0 <= p < count && picked(selected, p) implies #[trigger] plan.contains(
                p as usize,
            ) by {
                if p < count - 1 {
                    assert(before.contains(p as usize));
                    let a = choose|a: int| 0 <= a < before.len() && before[a] == p as usize;
                    assert(plan[a] == p as usize);
                } else {
                    assert(plan[plan.len() - 1] == p as usize);
                }
            }
        } else {
            assert(plan == before);
        }
    }
}

/// Tells whether some chosen course has its checkbox at `position`.
pub fn should_click(selected: &[usize], position: usize) -> (r: bool)
    ensures
        r == picked(selected@, position as int),
{
    let n: usize = selected.len();
    let mut k: usize = 0;
    while k < n
        invariant
            n == selected.len(),
            k <= n,
            forall|j: int| 0 <= j < k ==> #[trigger] selected[j] != position,
        decreases n - k,
    {
        if selected[k] == position {
            return true;
        }
        k += 1;
    }
    false
}

/// The positions to click among `count` checkboxes, in the order in which they
/// are clicked.
pub fn click_plan(selected: &[usize], count: usize) -> (plan: Vec<usize>)
    ensures
        plan@ == plan_of(selected@, count as nat),
{
    let mut plan: Vec<usize> = Vec::new();
    let mut position: usize = 0;
    while position < count
        invariant
            position <= count,
            plan@ == plan_of(selected@, position as nat),
        decreases count - position,
    {
        if should_click(selected, position) {
            plan.push(position);
        }
        position += 1;
    }
    plan
}

/// The checkbox indices of the chosen courses.
pub fn selected_indices(courses: &[Course]) -> (selected: Vec<usize>)
    ensures
        selected@ == indices_of(courses@),
{
    let mut selected: Vec<usize> = Vec::new();
    let n: usize = courses.len();
    let mut i: usize = 0;
    while i < n
        invariant
            n == courses.len(),
            i <= n,
            selected.len() == i,
            forall|k: int| 0 <= k < i ==> #[trigger] selected[k] == courses[k].checkbox_index,
        decreases n - i,
    {
        selected.push(courses[i].checkbox_index);
        i += 1;
    }
    assert(selected@ =~= indices_of(courses@));
    selected
}

/// The steps of a submission that can fail.
#[derive(Debug, Clone, Copy, PartialEq, Eq, Structural)]
pub enum SubmitStep {
    AwaitInstant,
    Reload,
    LocateCheckboxes,
    ClickCheckbox,
    LocateControl,
    ClickControl,
}

/// Why a submission was given up.  What was clicked before stays clicked:
/// nothing is rolled back.
#[derive(Debug, Clone, PartialEq, Eq)]
pub enum SubmissionError {
    StepFailed { step: SubmitStep, cause: String },
}

/// A failure as a value.
pub struct Failure {
    pub step: SubmitStep,
    pub cause: Seq<char>,
}

impl View for SubmissionError {
    type V = Failure;

    open spec fn view(&self) -> Failure {
        match self {
            SubmissionError::StepFailed { step, cause } => Failure { step: *step, cause: cause@ },
        }
    }
}

/// Where a submission stands.
#[derive(Debug, Clone, Copy, PartialEq, Eq, Structural)]
pub enum Phase {
    AwaitingInstant,
    Reloading,
    LocatingCheckboxes,
    Clicking,
    LocatingControl,
    ClickingControl,
    /// The control was clicked.
    Submitted,
    /// A step failed, or the operator interrupted the wait.
    Aborted,
}

/// What the caller does next.
#[derive(Debug, Clone, Copy, PartialEq, Eq, Structural)]
pub enum Command {
    /// Sleep for so many milliseconds, then report the clock.
    ReadClock { after_millis: u64 },
    /// Load the page anew and report when that is done.
    Reload,
    /// Locate all checkboxes and report how many there are.
    LocateCheckboxes,
    /// Click the checkbox at this position of the list just located.
    ClickCheckbox { position: usize },
    /// Locate the control that submits.
    LocateControl,
    /// Click the control that submits.
    ClickControl,
    /// The sequence is over.
    Stop,
}

/// What came of the last command.
#[derive(Debug, Clone, PartialEq, Eq)]
pub enum Event {
    /// The clock was read.
    Clock(ClockReading),
    /// The checkboxes were located.
    Checkboxes { count: usize },
    /// Any other command was carried out.
    Done,
    /// The command failed.
    Failed { cause: String },
    /// The operator asked to stop.
    Interrupted,
}

/// The state of a submission.
#[derive(Debug, Clone, PartialEq, Eq)]
pub struct Sequencer {
    pub target: RegistrationTime,
    /// The checkbox indices of the chosen courses.
    pub selected: Vec<usize>,
    pub phase: Phase,
    /// The positions to click, known once the checkboxes were located.
    pub plan: Vec<usize>,
    /// How many positions of the plan were clicked.
    pub clicked: usize,
    pub failure: Option<SubmissionError>,
}

/// The state of a submission as a value.
pub struct SequencerModel {
    pub target: RegistrationTime,
    pub selected: Seq<usize>,
    pub phase: Phase,
    pub plan: Seq<usize>,
    pub clicked: int,
    pub failure: Option<Failure>,
}

impl View for Sequencer {
    type V = SequencerModel;

    open spec fn view(&self) -> SequencerModel {
        SequencerModel {
            target: self.target,
            selected: self.selected@,
            phase: self.phase,
            plan: self.plan@,
            clicked: self.clicked as int,
            failure: match self.failure {
                Some(e) => Some(e@),
                None => None,
            },
        }
    }
}

/// The step that is under way in a phase.
pub open spec fn step_of(phase: Phase) -> SubmitStep {
    match phase {
        Phase::AwaitingInstant => SubmitStep::AwaitInstant,
        Phase::Reloading => SubmitStep::Reload,
        Phase::LocatingCheckboxes => SubmitStep::LocateCheckboxes,
        Phase::Clicking => SubmitStep::ClickCheckbox,
        Phase::LocatingControl => SubmitStep::LocateControl,
        _ => SubmitStep::ClickControl,
    }
}

/// The sequence is over.
pub open spec fn is_over(phase: Phase) -> bool {
    phase == Phase::Submitted || phase == Phase::Aborted
}

impl SequencerModel {
    /// The state in which a submission begins.
    pub open spec fn initial(target: RegistrationTime, selected: Seq<usize>) -> SequencerModel {
        SequencerModel {
            target,
            selected,
            phase: Phase::AwaitingInstant,
            plan: Seq::<usize>::empty(),
            clicked: 0,
            failure: None,
        }
    }

    /// This state, given up for `cause` at the step under way.
    pub open spec fn aborted(self, cause: Seq<char>) -> SequencerModel {
        SequencerModel {
            phase: Phase::Aborted,
            failure: Some(Failure { step: step_of(self.phase), cause }),
            ..self
        }
    }

    /// This state in another phase.
    pub open spec fn moved_to(self, phase: Phase) -> SequencerModel {
        SequencerModel { phase, ..self }
    }

    /// The state and the command that follow `event`.
    ///
    /// A sequence that is over stays as it is.  A failed command, an
    /// interrupt, and an event that does not answer the command under way each
    /// end the sequence at the step under way.  Otherwise the steps follow one
    /// another: the clock is read until the target is due, the page is loaded
    /// anew, the checkboxes are located and the plan is made for their number,
    /// the positions of the plan are clicked one by one, and the control is
    /// located and clicked.
    pub open spec fn after(self, event: Event) -> (SequencerModel, Command) {
        if is_over(self.phase) {
            (self, Command::Stop)
        } else {
            match (self.phase, event) {
                (_, Event::Failed { cause }) => (self.aborted(cause@), Command::Stop),
                (_, Event::Interrupted) => (self.aborted("interrupted"@), Command::Stop),
                (Phase::AwaitingInstant, Event::Clock(clock)) => if self.target.spec_is_due(clock) {
                    (self.moved_to(Phase::Reloading), Command::Reload)
                } else {
                    (self, Command::ReadClock { after_millis: POLL_INTERVAL_MILLIS })
                },
                (Phase::Reloading, Event::Done) => (
                    self.moved_to(Phase::LocatingCheckboxes),
                    Command::LocateCheckboxes,
                ),
                (Phase::LocatingCheckboxes, Event::Checkboxes { count }) => {
                    let plan = plan_of(self.selected, count as nat);
                    if plan.len() > 0 {
                        (
                            SequencerModel { phase: Phase::Clicking, plan, clicked: 0, ..self },
                            Command::ClickCheckbox { position: plan[0] },
                        )
                    } else {
                        (
                            SequencerModel { phase: Phase::LocatingControl, plan, clicked: 0, ..self },
                            Command::LocateControl,
                        )
                    }
                },
                (Phase::Clicking, Event::Done) => if self.clicked + 1 < self.plan.len() {
                    (
                        SequencerModel { clicked: self.clicked + 1, ..self },
                        Command::ClickCheckbox { position: self.plan[self.clicked + 1] },
                    )
                } else {
                    (
                        SequencerModel {
                            phase: Phase::LocatingControl,
                            clicked: self.plan.len() as int,
                            ..self
                        },
                        Command::LocateControl,
                    )
                },
                (Phase::LocatingControl, Event::Done) => (
                    self.moved_to(Phase::ClickingControl),
                    Command::ClickControl,
                ),
                (Phase::ClickingControl, Event::Done) => (
                    self.moved_to(Phase::Submitted),
                    Command::Stop,
                ),
                _ => (self.aborted("unexpected event"@), Command::Stop),
            }
        }
    }
}

/// How a submission that is over ended.
#[derive(Debug, Clone, Copy, PartialEq, Eq, Structural)]
pub struct SubmissionOutcome {
    /// Number of checkboxes that were clicked before the control.
    pub clicked: usize,
}

impl Sequencer {
    /// Begins a submission of `courses` at `target`.  The first command reads
    /// the clock without delay.
    pub fn new(target: RegistrationTime, courses: &[Course]) -> (r: (Sequencer, Command))
        ensures
            r.0@ == SequencerModel::initial(target, indices_of(courses@)),
            r.1 == (Command::ReadClock { after_millis: 0 }),
    {
        let sequencer = Sequencer {
            target,
            selected: selected_indices(courses),
            phase: Phase::AwaitingInstant,
            plan: Vec::new(),
            clicked: 0,
            failure: None,
        };
        (sequencer, Command::ReadClock { after_millis: 0 })
    }

    /// Tells whether the sequence is over.
    pub fn is_over(&self) -> (r: bool)
        ensures
            r == is_over(self.phase),
    {
        match self.phase {
            Phase::Submitted => true,
            Phase::Aborted => true,
            _ => false,
        }
    }

    /// The step that is under way.
    pub fn current_step(&self) -> (step: SubmitStep)
        ensures
            step == step_of(self.phase),
    {
        match self.phase {
            Phase::AwaitingInstant => SubmitStep::AwaitInstant,
            Phase::Reloading => SubmitStep::Reload,
            Phase::LocatingCheckboxes => SubmitStep::LocateCheckboxes,
            Phase::Clicking => SubmitStep::ClickCheckbox,
            Phase::LocatingControl => SubmitStep::LocateControl,
            _ => SubmitStep::ClickControl,
        }
    }

    fn abort(&mut self, cause: String)
        ensures
            final(self)@ == old(self)@.aborted(cause@),
    {
        let step = self.current_step();
        self.phase = Phase::Aborted;
        self.failure = Some(SubmissionError::StepFailed { step, cause });
    }

    /// Takes in what came of the last command and says what to do next.
    pub fn step(&mut self, event: Event) -> (command: Command)
        ensures
            (final(self)@, command) == old(self)@.after(event),
    {
        if self.is_over() {
            return Command::Stop;
        }
        match event {
            Event::Failed { cause } => {
                self.abort(cause);
                Command::Stop
            },
            Event::Interrupted => {
                self.abort(String::from_str("interrupted"));
                Command::Stop
            },
            Event::Clock(clock) => {
                match self.phase {
                    Phase::AwaitingInstant => {
                        if self.target.is_due(&clock) {
                            self.phase = Phase::Reloading;
                            Command::Reload
                        } else {
                            Command::ReadClock { after_millis: POLL_INTERVAL_MILLIS }
                        }
                    },
                    _ => {
                        self.abort(String::from_str("unexpected event"));
                        Command::Stop
                    },
                }
            },
            Event::Checkboxes { count } => {
                match self.phase {
                    Phase::LocatingCheckboxes => {
                        self.plan = click_plan(self.selected.as_slice(), count);
                        self.clicked = 0;
                        if self.plan.len() > 0 {
                            self.phase = Phase::Clicking;
                            Command::ClickCheckbox { position: self.plan[0] }
                        } else {
                            self.phase = Phase::LocatingControl;
                            Command::LocateControl
                        }
                    },
                    _ => {
                        self.abort(String::from_str("unexpected event"));
                        Command::Stop
                    },
                }
            },
            Event::Done => {
                match self.phase {
                    Phase::Reloading => {
                        self.phase = Phase::LocatingCheckboxes;
                        Command::LocateCheckboxes
                    },
                    Phase::Clicking => {
                        if self.plan.len() > 0 && self.clicked < self.plan.len() - 1 {
                            self.clicked = self.clicked + 1;
                            Command::ClickCheckbox { position: self.plan[self.clicked] }
                        } else {
                            self.clicked = self.plan.len();
                            self.phase = Phase::LocatingControl;
                            Command::LocateControl
                        }
                    },
                    Phase::LocatingControl => {
                        self.phase = Phase::ClickingControl;
                        Command::ClickControl
                    },
                    Phase::ClickingControl => {
                        self.phase = Phase::Submitted;
                        Command::Stop
                    },
                    _ => {
                        self.abort(String::from_str("unexpected event"));
                        Command::Stop
                    },
                }
            },
        }
    }

    /// How the sequence ended: nothing while it is under way, the number of
    /// checkboxes clicked once the control was clicked, the failure once the
    /// sequence was given up.
    pub fn outcome(&self) -> (r: Option<Result<SubmissionOutcome, SubmissionError>>)
        ensures
            !is_over(self.phase) ==> r is None,
            self.phase == Phase::Submitted ==> r == Some(
                Ok::<SubmissionOutcome, SubmissionError>(SubmissionOutcome { clicked: self.clicked }),
            ),
            self.phase == Phase::Aborted ==> match self.failure {
                Some(failure) => r matches Some(Err(e)) && e@ == failure@,
                None => r is None,
            },
    {
        match self.phase {
            Phase::Submitted => Some(Ok(SubmissionOutcome { clicked: self.clicked })),
            Phase::Aborted => match &self.failure {
                Some(SubmissionError::StepFailed { step, cause }) => Some(
                    Err(SubmissionError::StepFailed { step: *step, cause: cause.clone() }),
                ),
                None => None,
            },
            _ => None,
        }
    }
}

/// The state and the last command once `n` clicks were reported done, for a
/// sequence that stands at its first click.
pub open spec fn after_clicks(start: SequencerModel, n: nat) -> (SequencerModel, Command)
    decreases n,
{
    if n == 0 {
        (start, Command::ClickCheckbox { position: start.plan[0] })
    } else {
        after_clicks(start, (n - 1) as nat).0.after(Event::Done)
    }
}

/// A sequence that is over stays as it is, whatever is reported to it.
pub proof fn lemma_over_is_final(state: SequencerModel, event: Event)
    requires
        is_over(state.phase),
    ensures
        state.after(event) == (state, Command::Stop),
{
}

/// A failed command ends the sequence at the step under way, with the cause
/// that was reported.
pub proof fn lemma_failure_names_the_step(state: SequencerModel, cause: String)
    requires
        !is_over(state.phase),
    ensures
        state.after(Event::Failed { cause }).0.phase == Phase::Aborted,
        state.after(Event::Failed { cause }).0.failure == Some(
            Failure { step: step_of(state.phase), cause: cause@ },
        ),
        state.after(Event::Failed { cause }).1 == Command::Stop,
{
}

/// The wait ends when the clock shows the target's hour and minute, and not
/// before: a reading at which the target is due is answered by loading the
/// page anew, any other by reading the clock again.
pub proof fn lemma_wait_ends_when_due(state: SequencerModel, clock: ClockReading)
    requires
        state.phase == Phase::AwaitingInstant,
    ensures
        state.target.spec_is_due(clock) ==> state.after(Event::Clock(clock)) == (
            state.moved_to(Phase::Reloading),
            Command::Reload,
        ),
        !state.target.spec_is_due(clock) ==> state.after(Event::Clock(clock)) == (
            state,
            Command::ReadClock { after_millis: POLL_INTERVAL_MILLIS },
        ),
{
}

/// The clicks follow the plan: at the first click of a plan, once `n` clicks
/// were reported done the sequence asks for position `n` of the plan, and
/// once all were done it goes on to locate the control.
pub proof fn lemma_clicks_follow_the_plan(start: SequencerModel, n: nat)
    requires
        start.phase == Phase::Clicking,
        start.clicked == 0,
        0 < start.plan.len(),
        n <= start.plan.len(),
    ensures
        n < start.plan.len() ==> after_clicks(start, n) == (
            SequencerModel { clicked: n as int, ..start },
            Command::ClickCheckbox { position: start.plan[n as int] },
        ),
        n == start.plan.len() ==> after_clicks(start, n) == (
            SequencerModel { phase: Phase::LocatingControl, clicked: n as int, ..start },
            Command::LocateControl,
        ),
    decreases n,
{
    if n > 0 {
        lemma_clicks_follow_the_plan(start, (n - 1) as nat);
    }
}

/// After the page was loaded anew, a checkbox is clicked exactly if a chosen
/// course has its checkbox at that position: the plan made for `count`
/// checkboxes holds each such position below `count` once, in rising order,
/// and no other.
pub proof fn lemma_plan_clicks_the_chosen(state: SequencerModel, count: usize)
    requires
        state.phase == Phase::LocatingCheckboxes,
    ensures
        ({
            let next = state.after(Event::Checkboxes { count }).0;
            &&& next.plan == plan_of(state.selected, count as nat)
            &&& forall|p: int|
                0 <= p < count ==> (#[trigger] next.plan.contains(p as usize) <==> picked(
                    state.selected,
                    p,
                ))
            &&& forall|a: int| 0 <= a < next.plan.len() ==> #[trigger] next.plan[a] < count
            &&& forall|a: int, b: int|
                0 <= a < b < next.plan.len() ==> #[trigger] next.plan[a] < #[trigger] next.plan[b]
        }),
{
    let plan = plan_of(state.selected, count as nat);
    lemma_plan_is_exact(state.selected, count as nat);
    assert forall|p: int| 0 <= p < count && #[trigger] plan.contains(p as usize) implies picked(
        state.selected,
        p,
    ) by {
        let a = choose|a: int| 0 <= a < plan.len() && plan[a] == p as usize;
        assert(picked(state.selected, plan[a] as int));
    }
}

} // verus!
