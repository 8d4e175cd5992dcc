use course_sniper::elements::{Course, CourseStatus, EmoryPageElements, FieldProbe, RawCourseRow};
use course_sniper::schedule::{ClockReading, RegistrationTime};
use course_sniper::sequencer::{
    click_plan, selected_indices, should_click, Command, Event, Phase, Sequencer,
    SubmissionError, SubmissionOutcome, SubmitStep,
};
use course_sniper::supervisor::{Directive, RunState, Stage};

fn course(checkbox_index: usize) -> Course {
    Course {
        checkbox_index,
        availability: CourseStatus::Closed,
        description: "d".to_string(),
        schedule: "s".to_string(),
        room: "r".to_string(),
        instructor: "i".to_string(),
        credits: "c".to_string(),
    }
}

fn row(status: &str) -> RawCourseRow {
    let text = |t: &str| FieldProbe::Present(Some(t.to_string()));
    RawCourseRow {
        availability: text(status),
        checkbox: true,
        description: text("CS 170"),
        schedule: text("MWF"),
        instructor: text("A. Turing"),
        room: text("E208"),
        credits: text("3.00"),
    }
}

fn target() -> RegistrationTime {
    RegistrationTime::new(9, 30, true).unwrap()
}

fn due() -> Event {
    Event::Clock(ClockReading::new(9, 30, 0, 500_000_000).unwrap())
}

/// Drives a sequence in which every command succeeds and returns the commands.
fn drive(courses: &[Course], count: usize) -> (Sequencer, Vec<Command>) {
    let (mut sequencer, first) = Sequencer::new(target(), courses);
    let mut commands = vec![first];
    while !sequencer.is_over() {
        let event = match commands[commands.len() - 1] {
            Command::ReadClock { .. } => due(),
            Command::LocateCheckboxes => Event::Checkboxes { count },
            _ => Event::Done,
        };
        commands.push(sequencer.step(event));
        assert!(commands.len() < 1000);
    }
    (sequencer, commands)
}

#[test]
fn plan_holds_the_chosen_positions_in_rising_order() {
    assert_eq!(click_plan(&[2, 0], 3), vec![0, 2]);
    assert_eq!(click_plan(&[2, 0, 2, 0], 3), vec![0, 2]);
    assert_eq!(click_plan(&[5, 1], 3), vec![1]);
    assert_eq!(click_plan(&[], 3), Vec::<usize>::new());
    assert_eq!(click_plan(&[0, 1], 0), Vec::<usize>::new());
    assert_eq!(click_plan(&[3, 2, 1, 0], 4), vec![0, 1, 2, 3]);
}

#[test]
fn checkbox_is_clicked_if_a_chosen_course_sits_there() {
    assert!(should_click(&[4, 1], 1));
    assert!(should_click(&[4, 1], 4));
    assert!(!should_click(&[4, 1], 0));
    assert!(!should_click(&[], 0));
    assert_eq!(selected_indices(&[course(3), course(0)]), vec![3, 0]);
}

#[test]
fn wait_goes_on_until_the_minute_comes() {
    let (mut sequencer, first) = Sequencer::new(target(), &[course(0)]);
    assert_eq!(first, Command::ReadClock { after_millis: 0 });
    let early = ClockReading::new(9, 29, 59, 999_000_000).unwrap();
    for _ in 0..5 {
        assert_eq!(
            sequencer.step(Event::Clock(early)),
            Command::ReadClock { after_millis: 10 }
        );
        assert_eq!(sequencer.phase, Phase::AwaitingInstant);
    }
    assert_eq!(sequencer.step(due()), Command::Reload);
    assert_eq!(sequencer.phase, Phase::Reloading);
    assert_eq!(sequencer.outcome(), None);
}

#[test]
fn chosen_row_is_clicked_by_position_after_reload() {
    let e = EmoryPageElements::default();
    let courses =
        e.get_cart_courses(&[row("Open Seats: 5"), row("Closed"), row("Wait List (2)")]).unwrap();
    let statuses: Vec<CourseStatus> = courses.iter().map(|c| c.availability).collect();
    assert_eq!(
        statuses,
        vec![
            CourseStatus::Open { available: 1, capacity: 10 },
            CourseStatus::Closed,
            CourseStatus::Waitlist
        ]
    );
    let indices: Vec<usize> = courses.iter().map(|c| c.checkbox_index).collect();
    assert_eq!(indices, vec![0, 1, 2]);
    let chosen = vec![courses[0].clone()];
    let (sequencer, commands) = drive(&chosen, 3);
    assert_eq!(
        commands,
        vec![
            Command::ReadClock { after_millis: 0 },
            Command::Reload,
            Command::LocateCheckboxes,
            Command::ClickCheckbox { position: 0 },
            Command::LocateControl,
            Command::ClickControl,
            Command::Stop,
        ]
    );
    assert_eq!(sequencer.phase, Phase::Submitted);
    assert_eq!(sequencer.outcome(), Some(Ok(SubmissionOutcome { clicked: 1 })));
}

#[test]
fn several_chosen_rows_are_clicked_in_page_order() {
    let (sequencer, commands) = drive(&[course(4), course(1), course(9)], 6);
    let clicks: Vec<Command> =
        commands.iter().copied().filter(|c| matches!(c, Command::ClickCheckbox { .. })).collect();
    assert_eq!(
        clicks,
        vec![Command::ClickCheckbox { position: 1 }, Command::ClickCheckbox { position: 4 }]
    );
    assert_eq!(sequencer.outcome(), Some(Ok(SubmissionOutcome { clicked: 2 })));
}

#[test]
fn nothing_chosen_goes_straight_to_the_control() {
    let (sequencer, commands) = drive(&[], 3);
    assert_eq!(
        commands,
        vec![
            Command::ReadClock { after_millis: 0 },
            Command::Reload,
            Command::LocateCheckboxes,
            Command::LocateControl,
            Command::ClickControl,
            Command::Stop,
        ]
    );
    assert_eq!(sequencer.outcome(), Some(Ok(SubmissionOutcome { clicked: 0 })));
}

#[test]
fn failed_step_ends_the_sequence_and_is_named() {
    let steps = [
        SubmitStep::AwaitInstant,
        SubmitStep::Reload,
        SubmitStep::LocateCheckboxes,
        SubmitStep::ClickCheckbox,
        SubmitStep::LocateControl,
        SubmitStep::ClickControl,
    ];
    for (fail_after, step) in steps.iter().enumerate() {
        let (mut sequencer, _) = Sequencer::new(target(), &[course(0)]);
        let events = [due(), Event::Done, Event::Checkboxes { count: 2 }, Event::Done, Event::Done];
        for event in events.iter().take(fail_after) {
            sequencer.step(event.clone());
        }
        assert_eq!(sequencer.current_step(), *step);
        let command = sequencer.step(Event::Failed { cause: "no such element".to_string() });
        assert_eq!(command, Command::Stop);
        assert_eq!(sequencer.phase, Phase::Aborted);
        assert_eq!(
            sequencer.outcome(),
            Some(Err(SubmissionError::StepFailed {
                step: *step,
                cause: "no such element".to_string()
            }))
        );
        assert_eq!(sequencer.step(Event::Done), Command::Stop);
        assert_eq!(sequencer.phase, Phase::Aborted);
    }
}

#[test]
fn operator_can_interrupt_the_wait() {
    let (mut sequencer, _) = Sequencer::new(target(), &[course(0)]);
    sequencer.step(Event::Clock(ClockReading::new(1, 0, 0, 0).unwrap()));
    assert_eq!(sequencer.step(Event::Interrupted), Command::Stop);
    assert_eq!(
        sequencer.outcome(),
        Some(Err(SubmissionError::StepFailed {
            step: SubmitStep::AwaitInstant,
            cause: "interrupted".to_string()
        }))
    );
}

#[test]
fn event_that_answers_no_command_ends_the_sequence() {
    let (mut sequencer, _) = Sequencer::new(target(), &[course(0)]);
    assert_eq!(sequencer.step(Event::Done), Command::Stop);
    assert_eq!(
        sequencer.outcome(),
        Some(Err(SubmissionError::StepFailed {
            step: SubmitStep::AwaitInstant,
            cause: "unexpected event".to_string()
        }))
    );
    let (mut sequencer, _) = Sequencer::new(target(), &[course(0)]);
    sequencer.step(due());
    assert_eq!(sequencer.step(Event::Checkboxes { count: 1 }), Command::Stop);
    assert_eq!(sequencer.phase, Phase::Aborted);
    let (mut sequencer, _) = Sequencer::new(target(), &[course(0)]);
    sequencer.step(due());
    assert_eq!(sequencer.step(due()), Command::Stop);
    assert_eq!(sequencer.phase, Phase::Aborted);
}

#[test]
fn finished_sequence_stays_finished() {
    let (mut sequencer, _) = drive(&[course(0)], 1);
    let before = sequencer.clone();
    for event in [due(), Event::Done, Event::Interrupted, Event::Checkboxes { count: 4 }] {
        assert_eq!(sequencer.step(event), Command::Stop);
        assert_eq!(sequencer, before);
    }
    assert_eq!(sequencer.step(Event::Failed { cause: "late".to_string() }), Command::Stop);
    assert_eq!(sequencer, before);
}

#[test]
fn run_passes_through_every_stage() {
    let mut state = RunState::start();
    let stages = [
        Stage::LoggedIn,
        Stage::CartSelected,
        Stage::CoursesListed,
        Stage::CoursesSelected,
        Stage::Scheduled,
        Stage::Submitted,
        Stage::ResultsCaptured,
    ];
    assert_eq!(state, RunState::At(Stage::Init));
    for (done, stage) in stages.iter().enumerate() {
        assert!(!state.is_terminal());
        assert_eq!(state.exit_code(), 1);
        let (next, directive) = state.advance(Ok(()));
        assert_eq!(next, RunState::At(*stage));
        assert_eq!(stage.rank() as usize, done + 1);
        let last = done + 1 == stages.len();
        assert_eq!(directive, if last { Directive::Halt } else { Directive::Proceed });
        state = next;
    }
    assert!(state.is_terminal());
    assert_eq!(state.exit_code(), 0);
}

#[test]
fn failure_is_reached_from_every_stage_under_way() {
    let stages = [
        Stage::Init,
        Stage::LoggedIn,
        Stage::CartSelected,
        Stage::CoursesListed,
        Stage::CoursesSelected,
        Stage::Scheduled,
        Stage::Submitted,
    ];
    for stage in stages {
        let (state, directive) = RunState::At(stage).advance(Err("timed out".to_string()));
        assert_eq!(state, RunState::Failed { stage, cause: "timed out".to_string() });
        assert_eq!(directive, Directive::CaptureDiagnostics);
        assert!(state.is_terminal());
        assert_eq!(state.exit_code(), 1);
    }
}

#[test]
fn ended_run_stays_as_it_is() {
    let done = RunState::At(Stage::ResultsCaptured);
    assert_eq!(done.clone().advance(Ok(())), (done.clone(), Directive::Halt));
    assert_eq!(done.clone().advance(Err("late".to_string())), (done, Directive::Halt));
    let failed = RunState::Failed { stage: Stage::LoggedIn, cause: "no cart".to_string() };
    assert_eq!(failed.clone().advance(Ok(())), (failed.clone(), Directive::Halt));
    assert_eq!(failed.clone().advance(Err("again".to_string())), (failed, Directive::Halt));
}

#[test]
fn stages_follow_one_another() {
    assert_eq!(Stage::Init.next(), Some(Stage::LoggedIn));
    assert_eq!(Stage::Submitted.next(), Some(Stage::ResultsCaptured));
    assert_eq!(Stage::ResultsCaptured.next(), None);
    assert_eq!(Stage::Init.rank(), 0);
    assert_eq!(Stage::ResultsCaptured.rank(), 7);
}
