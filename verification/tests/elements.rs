use course_sniper::args::SniperArgs;
use course_sniper::elements::{
    classify_status, Course, CourseStatus, EmoryPageElements, ExtractError, FieldProbe,
    RawCourseRow, RawResultRow, RowField,
};
use course_sniper::text::{chars_of, contains};

fn present(text: &str) -> FieldProbe {
    FieldProbe::Present(Some(text.to_string()))
}

fn row(status: &str, name: &str) -> RawCourseRow {
    RawCourseRow {
        availability: present(status),
        checkbox: true,
        description: present(name),
        schedule: present("MWF 10:00AM - 10:50AM"),
        instructor: present("A. Turing"),
        room: present("Math & Science Center E208"),
        credits: present("3.00"),
    }
}

fn result_row(status: &str, name: &str) -> RawResultRow {
    RawResultRow {
        status: present(status),
        description: present(name),
        schedule: present("TuTh 1:00PM - 2:15PM"),
        instructor: present("G. Hopper"),
        room: present("White Hall 208"),
        credits: present("4.00"),
    }
}

#[test]
fn contains_finds_runs_of_characters() {
    assert!(contains("Open Seats: 5", "Open"));
    assert!(contains("Open Seats: 5", "Seats: 5"));
    assert!(contains("Open Seats: 5", "n S"));
    assert!(!contains("Open Seats: 5", "open"));
    assert!(!contains("Open", "Open Seats"));
    assert!(!contains("OpOpe", "Open"));
    assert!(contains("OpOpen", "Open"));
}

#[test]
fn contains_handles_empty_strings() {
    assert!(contains("abc", ""));
    assert!(contains("", ""));
    assert!(!contains("", "a"));
}

#[test]
fn contains_compares_characters_not_bytes() {
    assert!(contains("caf\u{e9} Open", "\u{e9} O"));
    assert!(!contains("caf\u{e9}", "\u{e8}"));
    assert_eq!(chars_of("h\u{e9}llo"), vec!['h', '\u{e9}', 'l', 'l', 'o']);
}

#[test]
fn status_patterns_are_tried_in_order() {
    assert_eq!(classify_status("Wait List (2)"), CourseStatus::Waitlist);
    assert_eq!(classify_status("Closed"), CourseStatus::Closed);
    assert_eq!(
        classify_status("Open Seats: 5"),
        CourseStatus::Open { available: 1, capacity: 10 }
    );
    assert_eq!(classify_status("Closed - Wait List Open"), CourseStatus::Waitlist);
    assert_eq!(classify_status("Open, formerly Closed"), CourseStatus::Closed);
}

#[test]
fn unknown_status_text_counts_as_closed() {
    assert_eq!(classify_status(""), CourseStatus::Closed);
    assert_eq!(classify_status("Pending"), CourseStatus::Closed);
    assert_eq!(classify_status("open"), CourseStatus::Closed);
    assert_eq!(classify_status("WaitList"), CourseStatus::Closed);
}

#[test]
fn status_classification_is_repeatable() {
    for text in ["Wait List", "Closed", "Open", "None", ""] {
        assert_eq!(classify_status(text), classify_status(text));
    }
}

#[test]
fn catalogue_holds_the_page_selectors() {
    let e = EmoryPageElements::default();
    assert_eq!(
        e.page_url,
        "https://saprod.emory.edu/psc/saprod_48/EMPLOYEE/SA/c/SSR_STUDENT_FL.SSR_SHOP_CART_FL.GBL"
    );
    assert_eq!(e.username_input, "input#userid");
    assert_eq!(e.passwd_input, "input#pwd");
    assert_eq!(e.validate_button, "a#DERIVED_SSR_FL_SSR_VALIDATE_FL");
    assert_eq!(e.enroll_button, "a#DERIVED_SSR_FL_SSR_ENROLL_FL");
    assert_eq!(e.semester_cart, r#"a[id^="SSR_CART_TRM_FL_TERM_DESCR30$"]"#);
    assert_eq!(e.course_row, r#"tr[id^="SSR_REGFORM_VW$0_row_"]"#);
    assert_eq!(e.checkboxes, r#"input[type="checkbox"][id^="DERIVED_REGFRM1_SSR_SELECT$"]"#);
    assert_eq!(e.availability, r#"span[id^="DERIVED_SSR_FL_SSR_AVAIL_FL$"]"#);
    assert_eq!(e.description, r#"span[id^="DERIVED_SSR_FL_SSR_DESCR80$"]"#);
    assert_eq!(e.schedule, r#"span[id^="DERIVED_REGFRM1_SSR_MTG_SCHED_LONG$"]"#);
    assert_eq!(e.room, r#"span[id^="DERIVED_REGFRM1_SSR_MTG_LOC_LONG$"]"#);
    assert_eq!(e.instructor, r#"span[id^="DERIVED_REGFRM1_SSR_INSTR_LONG$"]"#);
    assert_eq!(e.credits, r#"span[id^="DERIVED_SSR_FL_SSR_UNITS_LBL$"]"#);
    assert_eq!(e.seats, r#"span[id^="DERIVED_SSR_FL_SSR_DESCR50$"]"#);
    assert_eq!(e.results_rows, r#"tr[id^="SSR_SS_ERD_ER$0_row_"]"#);
}

#[test]
fn catalogue_finds_the_selector_of_each_row_part() {
    let e = EmoryPageElements::default();
    assert_eq!(e.selector_for(RowField::Availability), e.availability);
    assert_eq!(e.selector_for(RowField::Checkbox), e.checkboxes);
    assert_eq!(e.selector_for(RowField::Description), e.description);
    assert_eq!(e.selector_for(RowField::Schedule), e.schedule);
    assert_eq!(e.selector_for(RowField::Instructor), e.instructor);
    assert_eq!(e.selector_for(RowField::Room), e.room);
    assert_eq!(e.selector_for(RowField::Credits), e.credits);
}

#[test]
fn carts_keep_page_order_and_text() {
    let e = EmoryPageElements::default();
    let labels = vec![Some("Fall 2024".to_string()), Some("Spring 2025".to_string())];
    let carts = e.get_shopping_carts(&labels);
    assert_eq!(carts.len(), 2);
    assert_eq!(carts[0].index, 0);
    assert_eq!(carts[0].text, "Fall 2024");
    assert_eq!(carts[1].index, 1);
    assert_eq!(carts[1].text, "Spring 2025");
    assert_eq!(carts[1].label(), "Spring 2025");
}

#[test]
fn cart_without_text_gets_the_placeholder() {
    let e = EmoryPageElements::default();
    let carts = e.get_shopping_carts(&[None, Some(String::new()), Some("Fall".to_string())]);
    assert_eq!(carts[0].text, "None");
    assert_eq!(carts[1].text, "None");
    assert_eq!(carts[2].text, "Fall");
    assert!(e.get_shopping_carts(&[]).is_empty());
}

#[test]
fn three_rows_give_three_courses_in_order() {
    let e = EmoryPageElements::default();
    let rows = vec![
        row("Open Seats: 5", "CS 170"),
        row("Closed", "CS 171"),
        row("Wait List (2)", "CS 253"),
    ];
    let courses = e.get_cart_courses(&rows).unwrap();
    let statuses: Vec<CourseStatus> = courses.iter().map(|c| c.availability).collect();
    assert_eq!(
        statuses,
        vec![
            CourseStatus::Open { available: 1, capacity: 10 },
            CourseStatus::Closed,
            CourseStatus::Waitlist
        ]
    );
    let indices: Vec<usize> = courses.iter().map(|c| c.checkbox_index).collect();
    assert_eq!(indices, vec![0, 1, 2]);
    assert_eq!(
        courses[1],
        Course {
            checkbox_index: 1,
            availability: CourseStatus::Closed,
            description: "CS 171".to_string(),
            schedule: "MWF 10:00AM - 10:50AM".to_string(),
            room: "Math & Science Center E208".to_string(),
            instructor: "A. Turing".to_string(),
            credits: "3.00".to_string(),
        }
    );
}

#[test]
fn checkbox_indices_count_up_from_zero() {
    let e = EmoryPageElements::default();
    for n in [0usize, 1, 2, 17, 300] {
        let rows: Vec<RawCourseRow> = (0..n).map(|_| row("Open", "course")).collect();
        let courses = e.get_cart_courses(&rows).unwrap();
        assert_eq!(courses.len(), n);
        for (i, course) in courses.iter().enumerate() {
            assert_eq!(course.checkbox_index, i);
        }
    }
}

#[test]
fn reading_the_same_rows_twice_gives_the_same_records() {
    let e = EmoryPageElements::default();
    let rows = vec![row("Open", "CS 170"), row("Pending", "CS 171")];
    let first = e.get_cart_courses(&rows);
    let second = e.get_cart_courses(&rows.clone());
    assert_eq!(first, second);
    let mut broken = rows.clone();
    broken[1].room = FieldProbe::Absent;
    assert_eq!(e.get_cart_courses(&broken), e.get_cart_courses(&broken));
}

#[test]
fn part_without_text_gets_the_placeholder() {
    let e = EmoryPageElements::default();
    let mut r = row("Open", "CS 170");
    r.description = FieldProbe::Present(None);
    r.room = FieldProbe::Present(Some(String::new()));
    r.availability = FieldProbe::Present(None);
    let courses = e.get_cart_courses(&[r]).unwrap();
    assert_eq!(courses[0].description, "None");
    assert_eq!(courses[0].room, "None");
    assert_eq!(courses[0].schedule, "MWF 10:00AM - 10:50AM");
    assert_eq!(courses[0].availability, CourseStatus::Closed);
}

#[test]
fn missing_part_fails_the_listing() {
    let e = EmoryPageElements::default();
    let mut rows = vec![row("Open", "a"), row("Open", "b"), row("Open", "c")];
    rows[1].instructor = FieldProbe::Absent;
    rows[2].availability = FieldProbe::Absent;
    assert_eq!(
        e.get_cart_courses(&rows),
        Err(ExtractError::StructureMismatch { row: 1, missing_field: RowField::Instructor })
    );
}

#[test]
fn first_missing_part_follows_lookup_order() {
    let complete = row("Open", "a");
    assert_eq!(complete.first_missing(), None);
    let mut r = complete.clone();
    r.credits = FieldProbe::Absent;
    assert_eq!(r.first_missing(), Some(RowField::Credits));
    r.room = FieldProbe::Absent;
    assert_eq!(r.first_missing(), Some(RowField::Room));
    r.instructor = FieldProbe::Absent;
    assert_eq!(r.first_missing(), Some(RowField::Instructor));
    r.schedule = FieldProbe::Absent;
    assert_eq!(r.first_missing(), Some(RowField::Schedule));
    r.description = FieldProbe::Absent;
    assert_eq!(r.first_missing(), Some(RowField::Description));
    r.checkbox = false;
    assert_eq!(r.first_missing(), Some(RowField::Checkbox));
    r.availability = FieldProbe::Absent;
    assert_eq!(r.first_missing(), Some(RowField::Availability));
}

#[test]
fn results_are_read_like_courses() {
    let e = EmoryPageElements::default();
    let rows = vec![result_row("Open", "CS 170"), result_row("Wait List", "CS 171")];
    let results = e.get_registration_results(&rows).unwrap();
    assert_eq!(results.len(), 2);
    assert_eq!(results[0].description, "CS 170");
    assert_eq!(results[0].status, CourseStatus::Open { available: 1, capacity: 10 });
    assert_eq!(results[1].status, CourseStatus::Waitlist);
    assert_eq!(results[1].schedule, "TuTh 1:00PM - 2:15PM");
    assert_eq!(results[1].instructor, "G. Hopper");
    assert_eq!(results[1].room, "White Hall 208");
    assert_eq!(results[1].credits, "4.00");
}

#[test]
fn results_fail_on_a_missing_part() {
    let e = EmoryPageElements::default();
    let mut rows = vec![result_row("Open", "a"), result_row("Open", "b")];
    rows[0].description = FieldProbe::Absent;
    rows[1].status = FieldProbe::Absent;
    assert_eq!(
        e.get_registration_results(&rows),
        Err(ExtractError::StructureMismatch { row: 0, missing_field: RowField::Description })
    );
    rows[0].description = FieldProbe::Present(None);
    assert_eq!(
        e.get_registration_results(&rows),
        Err(ExtractError::StructureMismatch { row: 1, missing_field: RowField::Availability })
    );
}

#[test]
fn sniper_count_must_lie_between_one_and_nineteen() {
    assert_eq!(SniperArgs::new(true, 0), None);
    assert_eq!(SniperArgs::new(true, 1), Some(SniperArgs { detached: true, snipers: 1 }));
    assert_eq!(SniperArgs::new(false, 19), Some(SniperArgs { detached: false, snipers: 19 }));
    assert_eq!(SniperArgs::new(false, 20), None);
    assert!(!SniperArgs { detached: false, snipers: 0 }.is_valid());
    assert!(SniperArgs { detached: false, snipers: 7 }.is_valid());
}

#[test]
fn default_options_show_the_browser_and_run_one_sniper() {
    let args = SniperArgs::default();
    assert_eq!(args, SniperArgs { detached: false, snipers: 1 });
    assert!(args.is_valid());
}
