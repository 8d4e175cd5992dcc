//! The selector catalogue of the registration page and the records that are
//! read off it: shopping carts, course rows and registration results.
//!
//! Nothing here touches the page.  The caller locates the elements that the
//! catalogue names, reads their text, and hands over what it found; element
//! handles are stood for by positions in the list that a query returned, which
//! is how an element is found again after the page was loaded anew.

use vstd::prelude::*;
use vstd::string::StringExecFns;
use crate::text::{contains, has_substring};

verus! {

/// Text that stands in for a field whose element carries no text.
pub const PLACEHOLDER: &'static str = "None";

/// Seat count reported for an open course; the page's real count is not read.
pub const PLACEHOLDER_AVAILABLE: u32 = 1;

/// Capacity reported for an open course; the page's real count is not read.
pub const PLACEHOLDER_CAPACITY: u32 = 10;

/// Selector patterns of the page's regions.  Built once and never changed.
#[derive(Debug, Clone)]
pub struct EmoryPageElements {
    pub page_url: &'static str,
    pub username_input: &'static str,
    pub passwd_input: &'static str,
    pub validate_button: &'static str,
    pub enroll_button: &'static str,
    pub semester_cart: &'static str,
    pub course_row: &'static str,
    pub checkboxes: &'static str,
    pub availability: &'static str,
    pub description: &'static str,
    pub schedule: &'static str,
    pub room: &'static str,
    pub instructor: &'static str,
    pub credits: &'static str,
    pub seats: &'static str,
    /// Rows of the listing that the page shows after a submission.
    pub results_rows: &'static str,
}

impl Default for EmoryPageElements {
    fn default() -> (e: EmoryPageElements)
        ensures
            e.page_url@
                == "https://saprod.emory.edu/psc/saprod_48/EMPLOYEE/SA/c/SSR_STUDENT_FL.SSR_SHOP_CART_FL.GBL"@,
            e.username_input@ == "input#userid"@,
            e.passwd_input@ == "input#pwd"@,
            e.validate_button@ == "a#DERIVED_SSR_FL_SSR_VALIDATE_FL"@,
            e.enroll_button@ == "a#DERIVED_SSR_FL_SSR_ENROLL_FL"@,
            e.semester_cart@ == "a[id^=\"SSR_CART_TRM_FL_TERM_DESCR30$\"]"@,
            e.course_row@ == "tr[id^=\"SSR_REGFORM_VW$0_row_\"]"@,
            e.checkboxes@ == "input[type=\"checkbox\"][id^=\"DERIVED_REGFRM1_SSR_SELECT$\"]"@,
            e.availability@ == "span[id^=\"DERIVED_SSR_FL_SSR_AVAIL_FL$\"]"@,
            e.description@ == "span[id^=\"DERIVED_SSR_FL_SSR_DESCR80$\"]"@,
            e.schedule@ == "span[id^=\"DERIVED_REGFRM1_SSR_MTG_SCHED_LONG$\"]"@,
            e.room@ == "span[id^=\"DERIVED_REGFRM1_SSR_MTG_LOC_LONG$\"]"@,
            e.instructor@ == "span[id^=\"DERIVED_REGFRM1_SSR_INSTR_LONG$\"]"@,
            e.credits@ == "span[id^=\"DERIVED_SSR_FL_SSR_UNITS_LBL$\"]"@,
            e.seats@ == "span[id^=\"DERIVED_SSR_FL_SSR_DESCR50$\"]"@,
            e.results_rows@ == "tr[id^=\"SSR_SS_ERD_ER$0_row_\"]"@,
    {
        EmoryPageElements {
            page_url: "https://saprod.emory.edu/psc/saprod_48/EMPLOYEE/SA/c/SSR_STUDENT_FL.SSR_SHOP_CART_FL.GBL",
            username_input: "input#userid",
            passwd_input: "input#pwd",
            validate_button: "a#DERIVED_SSR_FL_SSR_VALIDATE_FL",
            enroll_button: "a#DERIVED_SSR_FL_SSR_ENROLL_FL",
            semester_cart: "a[id^=\"SSR_CART_TRM_FL_TERM_DESCR30$\"]",
            course_row: "tr[id^=\"SSR_REGFORM_VW$0_row_\"]",
            checkboxes: "input[type=\"checkbox\"][id^=\"DERIVED_REGFRM1_SSR_SELECT$\"]",
            availability: "span[id^=\"DERIVED_SSR_FL_SSR_AVAIL_FL$\"]",
            description: "span[id^=\"DERIVED_SSR_FL_SSR_DESCR80$\"]",
            schedule: "span[id^=\"DERIVED_REGFRM1_SSR_MTG_SCHED_LONG$\"]",
            room: "span[id^=\"DERIVED_REGFRM1_SSR_MTG_LOC_LONG$\"]",
            instructor: "span[id^=\"DERIVED_REGFRM1_SSR_INSTR_LONG$\"]",
            credits: "span[id^=\"DERIVED_SSR_FL_SSR_UNITS_LBL$\"]",
            seats: "span[id^=\"DERIVED_SSR_FL_SSR_DESCR50$\"]",
            results_rows: "tr[id^=\"SSR_SS_ERD_ER$0_row_\"]",
        }
    }
}

/// The parts of a listing row, in the order in which they are looked up.
#[derive(Debug, Clone, Copy, PartialEq, Eq, Structural)]
pub enum RowField {
    Availability,
    Checkbox,
    Description,
    Schedule,
    Instructor,
    Room,
    Credits,
}

impl EmoryPageElements {
    /// The selector that finds `field` inside a row.
    pub open spec fn spec_selector_for(&self, field: RowField) -> &'static str {
        match field {
            RowField::Availability => self.availability,
            RowField::Checkbox => self.checkboxes,
            RowField::Description => self.description,
            RowField::Schedule => self.schedule,
            RowField::Instructor => self.instructor,
            RowField::Room => self.room,
            RowField::Credits => self.credits,
        }
    }

    /// The selector that finds `field` inside a row.
    pub fn selector_for(&self, field: RowField) -> (selector: &'static str)
        ensures
            selector == self.spec_selector_for(field),
    {
        match field {
            RowField::Availability => self.availability,
            RowField::Checkbox => self.checkboxes,
            RowField::Description => self.description,
            RowField::Schedule => self.schedule,
            RowField::Instructor => self.instructor,
            RowField::Room => self.room,
            RowField::Credits => self.credits,
        }
    }
}

/// Availability of a course, as its status text tells it.
#[derive(Debug, Clone, Copy, PartialEq, Eq, Structural)]
pub enum CourseStatus {
    Waitlist,
    /// The counts are placeholders: the page's numbers are not read.
    Open { available: u32, capacity: u32 },
    Closed,
}

/// The status that a status text stands for.  The three patterns are tried in
/// this order, and a text that holds none of them counts as closed, so that an
/// unknown text never makes a course look available.
pub open spec fn status_of(text: Seq<char>) -> CourseStatus {
    if has_substring(text, "Wait List"@) {
        CourseStatus::Waitlist
    } else if has_substring(text, "Closed"@) {
        CourseStatus::Closed
    } else if has_substring(text, "Open"@) {
        CourseStatus::Open { available: 1, capacity: 10 }
    } else {
        CourseStatus::Closed
    }
}

/// Classifies a status text.
pub fn classify_status(text: &str) -> (status: CourseStatus)
    ensures
        status == status_of(text@),
        has_substring(text@, "Wait List"@) ==> status == CourseStatus::Waitlist,
        !has_substring(text@, "Wait List"@) && has_substring(text@, "Closed"@) ==> status
            == CourseStatus::Closed,
        !has_substring(text@, "Wait List"@) && !has_substring(text@, "Closed"@) && has_substring(
            text@,
            "Open"@,
        ) ==> status == (CourseStatus::Open { available: 1, capacity: 10 }),
        !has_substring(text@, "Wait List"@) && !has_substring(text@, "Closed"@) && !has_substring(
            text@,
            "Open"@,
        ) ==> status == CourseStatus::Closed,
{
    if contains(text, "Wait List") {
        CourseStatus::Waitlist
    } else if contains(text, "Closed") {
        CourseStatus::Closed
    } else if contains(text, "Open") {
        CourseStatus::Open { available: PLACEHOLDER_AVAILABLE, capacity: PLACEHOLDER_CAPACITY }
    } else {
        CourseStatus::Closed
    }
}

/// What looking up one part of a row came to.
#[derive(Debug, Clone, PartialEq, Eq)]
pub enum FieldProbe {
    /// The element was not found, or its text could not be read.
    Absent,
    /// The element was found; it may carry no text.
    Present(Option<String>),
}

impl View for FieldProbe {
    type V = Option<Option<Seq<char>>>;

    open spec fn view(&self) -> Option<Option<Seq<char>>> {
        match self {
            FieldProbe::Absent => None,
            FieldProbe::Present(None) => Some(None),
            FieldProbe::Present(Some(text)) => Some(Some(text@)),
        }
    }
}

/// The text that a record shows for a part: the part's own text, or the
/// placeholder where the part has no text or an empty one.
pub open spec fn shown_text(probe: Option<Option<Seq<char>>>) -> Seq<char> {
    match probe {
        Some(Some(text)) => if text.len() == 0 {
            "None"@
        } else {
            text
        },
        _ => "None"@,
    }
}

/// A located cart link as a probe: the link is there, with or without text.
pub open spec fn link_text(label: Option<String>) -> Option<Option<Seq<char>>> {
    match label {
        Some(text) => Some(Some(text@)),
        None => Some(None),
    }
}

/// The text that a status is read from: the part's own text, or nothing.
pub open spec fn status_text(probe: Option<Option<Seq<char>>>) -> Seq<char> {
    match probe {
        Some(Some(text)) => text,
        _ => Seq::<char>::empty(),
    }
}

impl FieldProbe {
    /// Tells whether the element was found.
    pub fn is_present(&self) -> (r: bool)
        ensures
            r == (self@ is Some),
    {
        match self {
            FieldProbe::Absent => false,
            FieldProbe::Present(_) => true,
        }
    }

    /// The text that a record shows for this part.
    pub fn shown(&self) -> (text: String)
        ensures
            text@ == shown_text(self@),
    {
        match self {
            FieldProbe::Present(Some(text)) => {
                if text.as_str().is_empty() {
                    String::from_str(PLACEHOLDER)
                } else {
                    text.clone()
                }
            },
            _ => String::from_str(PLACEHOLDER),
        }
    }

    /// The status that this part's text stands for.
    pub fn status(&self) -> (status: CourseStatus)
        ensures
            status == status_of(status_text(self@)),
    {
        match self {
            FieldProbe::Present(Some(text)) => classify_status(text.as_str()),
            _ => {
                proof {
                    reveal_strlit("");
                    assert(""@ =~= Seq::<char>::empty());
                }
                classify_status("")
            },
        }
    }
}

/// A cart that the operator can pick.
#[derive(Debug, Clone, PartialEq, Eq)]
pub struct ShoppingCart {
    /// Position of the cart's link among the cart links of the page.
    pub index: usize,
    /// The text that the link shows.
    pub text: String,
}

impl ShoppingCart {
    /// The text under which the cart is offered to the operator.
    pub fn label(&self) -> (label: String)
        ensures
            label@ == self.text@,
    {
        self.text.clone()
    }
}

/// What was read off one row of the cart's course listing.
#[derive(Debug, Clone, PartialEq, Eq)]
pub struct RawCourseRow {
    pub availability: FieldProbe,
    /// Whether the row's selection checkbox was found.
    pub checkbox: bool,
    pub description: FieldProbe,
    pub schedule: FieldProbe,
    pub instructor: FieldProbe,
    pub room: FieldProbe,
    pub credits: FieldProbe,
}

/// A course row as a value: for each part whether it was found and what text
/// it carries.
pub struct RowContent {
    pub availability: Option<Option<Seq<char>>>,
    pub checkbox: bool,
    pub description: Option<Option<Seq<char>>>,
    pub schedule: Option<Option<Seq<char>>>,
    pub instructor: Option<Option<Seq<char>>>,
    pub room: Option<Option<Seq<char>>>,
    pub credits: Option<Option<Seq<char>>>,
}

impl RowContent {
    /// The first part, in lookup order, that was not found.
    pub open spec fn first_missing(self) -> Option<RowField> {
        if self.availability is None {
            Some(RowField::Availability)
        } else if !self.checkbox {
            Some(RowField::Checkbox)
        } else if self.description is None {
            Some(RowField::Description)
        } else if self.schedule is None {
            Some(RowField::Schedule)
        } else if self.instructor is None {
            Some(RowField::Instructor)
        } else if self.room is None {
            Some(RowField::Room)
        } else if self.credits is None {
            Some(RowField::Credits)
        } else {
            None
        }
    }

    /// Every part of the row was found.
    pub open spec fn complete(self) -> bool {
        self.first_missing() is None
    }
}

impl View for RawCourseRow {
    type V = RowContent;

    open spec fn view(&self) -> RowContent {
        RowContent {
            availability: self.availability@,
            checkbox: self.checkbox,
            description: self.description@,
            schedule: self.schedule@,
            instructor: self.instructor@,
            room: self.room@,
            credits: self.credits@,
        }
    }
}

/// A course of the cart.
#[derive(Debug, Clone, PartialEq, Eq)]
pub struct Course {
    /// Position of the course's checkbox among the checkboxes of the page.  It
    /// holds for the page as it was read, and is what the checkbox is found by
    /// after the page was loaded anew.
    pub checkbox_index: usize,
    pub availability: CourseStatus,
    pub description: String,
    pub schedule: String,
    pub room: String,
    pub instructor: String,
    pub credits: String,
}

/// A course as a value.
pub struct CourseRecord {
    pub checkbox_index: usize,
    pub availability: CourseStatus,
    pub description: Seq<char>,
    pub schedule: Seq<char>,
    pub room: Seq<char>,
    pub instructor: Seq<char>,
    pub credits: Seq<char>,
}

impl View for Course {
    type V = CourseRecord;

    open spec fn view(&self) -> CourseRecord {
        CourseRecord {
            checkbox_index: self.checkbox_index,
            availability: self.availability,
            description: self.description@,
            schedule: self.schedule@,
            room: self.room@,
            instructor: self.instructor@,
            credits: self.credits@,
        }
    }
}

/// The course that the row at position `index` describes.
pub open spec fn course_of(row: RowContent, index: usize) -> CourseRecord {
    CourseRecord {
        checkbox_index: index,
        availability: status_of(status_text(row.availability)),
        description: shown_text(row.description),
        schedule: shown_text(row.schedule),
        room: shown_text(row.room),
        instructor: shown_text(row.instructor),
        credits: shown_text(row.credits),
    }
}

/// Why a listing could not be read.
#[derive(Debug, Clone, Copy, PartialEq, Eq, Structural)]
pub enum ExtractError {
    /// A row lacks a part that every row has: the page is not laid out as
    /// expected.
    StructureMismatch { row: usize, missing_field: RowField },
}

/// The rows as values.
pub open spec fn row_contents(rows: Seq<RawCourseRow>) -> Seq<RowContent> {
    Seq::new(rows.len(), |i: int| rows[i]@)
}

/// The courses as values.
pub open spec fn course_records(courses: Seq<Course>) -> Seq<CourseRecord> {
    Seq::new(courses.len(), |i: int| courses[i]@)
}

/// `out` is what reading `rows` comes to: one course per row, in row order,
/// where every row is complete; else the first incomplete row and its first
/// missing part.
pub open spec fn is_course_extraction(
    rows: Seq<RowContent>,
    out: Result<Seq<CourseRecord>, ExtractError>,
) -> bool {
    match out {
        Ok(courses) => {
            &&& courses.len() == rows.len()
            &&& forall|i: int|
                0 <= i < rows.len() ==> (#[trigger] rows[i]).complete() && courses[i] == course_of(
                    rows[i],
                    i as usize,
                )
        },
        Err(ExtractError::StructureMismatch { row, missing_field }) => {
            &&& row < rows.len()
            &&& forall|j: int| 0 <= j < row ==> (#[trigger] rows[j]).complete()
            &&& rows[row as int].first_missing() == Some(missing_field)
        },
    }
}

impl RawCourseRow {
    /// The first part, in lookup order, that was not found.
    pub fn first_missing(&self) -> (r: Option<RowField>)
        ensures
            r == self@.first_missing(),
    {
        if !self.availability.is_present() {
            Some(RowField::Availability)
        } else if !self.checkbox {
            Some(RowField::Checkbox)
        } else if !self.description.is_present() {
            Some(RowField::Description)
        } else if !self.schedule.is_present() {
            Some(RowField::Schedule)
        } else if !self.instructor.is_present() {
            Some(RowField::Instructor)
        } else if !self.room.is_present() {
            Some(RowField::Room)
        } else if !self.credits.is_present() {
            Some(RowField::Credits)
        } else {
            None
        }
    }

    /// The course that this row describes, for a row at position `index`.
    pub fn to_course(&self, index: usize) -> (course: Course)
        ensures
            course@ == course_of(self@, index),
    {
        Course {
            checkbox_index: index,
            availability: self.availability.status(),
            description: self.description.shown(),
            schedule: self.schedule.shown(),
            room: self.room.shown(),
            instructor: self.instructor.shown(),
            credits: self.credits.shown(),
        }
    }
}

impl EmoryPageElements {
    /// Turns the texts of the located cart links into carts, in page order.  A
    /// link without text, or with an empty one, is shown under the placeholder.
    pub fn get_shopping_carts(&self, labels: &[Option<String>]) -> (carts: Vec<ShoppingCart>)
        ensures
            carts.len() == labels.len(),
            forall|i: int|
                0 <= i < labels.len() ==> (#[trigger] carts[i]).index == i && carts[i].text@
                    == shown_text(link_text(labels[i])),
    {
        let mut carts: Vec<ShoppingCart> = Vec::new();
        let n: usize = labels.len();
        let mut i: usize = 0;
        while i < n
            invariant
                n == labels.len(),
                i <= n,
                carts.len() == i,
                forall|k: int|
                    0 <= k < i ==> (#[trigger] carts[k]).index == k && carts[k].text@
                        == shown_text(link_text(labels[k])),
            decreases n - i,
        {
            let text = match &labels[i] {
                Some(text) => {
                    if text.as_str().is_empty() {
                        String::from_str(PLACEHOLDER)
                    } else {
                        text.clone()
                    }
                },
                None => String::from_str(PLACEHOLDER),
            };
            carts.push(ShoppingCart { index: i, text });
            i += 1;
        }
        carts
    }

    /// Turns the rows of the course listing into courses, in row order.  The
    /// course of row `i` gets checkbox index `i`.  A part without text is no
    /// failure; a part that was not found fails the whole listing.
    pub fn get_cart_courses(&self, rows: &[RawCourseRow]) -> (r: Result<Vec<Course>, ExtractError>)
        ensures
            is_course_extraction(
                row_contents(rows@),
                match r {
                    Ok(courses) => Ok(course_records(courses@)),
                    Err(e) => Err(e),
                },
            ),
            r is Ok <==> forall|i: int| 0 <= i < rows.len() ==> (#[trigger] rows[i])@.complete(),
            r matches Ok(courses) ==> forall|i: int|
                0 <= i < courses.len() ==> (#[trigger] courses[i]).checkbox_index == i,
    {
        let mut courses: Vec<Course> = Vec::new();
        let n: usize = rows.len();
        let mut i: usize = 0;
        while i < n
            invariant
                n == rows.len(),
                i <= n,
                courses.len() == i,
                forall|k: int|
                    0 <= k < i ==> (#[trigger] rows[k])@.complete() && courses[k]@ == course_of(
                        rows[k]@,
                        k as usize,
                    ),
                forall|k: int| 0 <= k < i ==> (#[trigger] courses[k]).checkbox_index == k,
            decreases n - i,
        {
            match rows[i].first_missing() {
                Some(missing_field) => {
                    assert(!rows[i as int]@.complete());
                    return Err(ExtractError::StructureMismatch { row: i, missing_field });
                },
                None => {
                    courses.push(rows[i].to_course(i));
                },
            }
            i += 1;
        }
        Ok(courses)
    }
}

/// Reading the same rows twice gives the same outcome: the same records in
/// the same order, or the same failure.
pub proof fn lemma_course_extraction_is_deterministic(
    rows: Seq<RowContent>,
    first: Result<Seq<CourseRecord>, ExtractError>,
    second: Result<Seq<CourseRecord>, ExtractError>,
)
    requires
        is_course_extraction(rows, first),
        is_course_extraction(rows, second),
    ensures
        first == second,
{
    match (first, second) {
        (Ok(a), Ok(b)) => {
            assert forall|i: int| 0 <= i < a.len() implies a[i] == b[i] by {
                assert(rows[i].complete());
            }
            assert(a =~= b);
        },
        (Ok(_), Err(ExtractError::StructureMismatch { row, missing_field })) => {
            assert(rows[row as int].complete());
        },
        (Err(ExtractError::StructureMismatch { row, missing_field }), Ok(_)) => {
            assert(rows[row as int].complete());
        },
        (
            Err(ExtractError::StructureMismatch { row: r1, missing_field: f1 }),
            Err(ExtractError::StructureMismatch { row: r2, missing_field: f2 }),
        ) => {
            if r1 < r2 {
                assert(rows[r1 as int].complete());
            } else if r2 < r1 {
                assert(rows[r2 as int].complete());
            }
        },
    }
}

/// The checkbox indices of the courses read from `n` rows are `0, 1, .., n-1`
/// in row order: the course at position `i` has index `i`, so the indices rise
/// strictly and no two courses share one.
pub proof fn lemma_checkbox_indices_enumerate_rows(
    rows: Seq<RowContent>,
    courses: Seq<CourseRecord>,
)
    requires
        rows.len() <= usize::MAX,
        is_course_extraction(rows, Ok(courses)),
    ensures
        courses.len() == rows.len(),
        forall|i: int| 0 <= i < courses.len() ==> (#[trigger] courses[i]).checkbox_index == i,
        forall|i: int, j: int|
            0 <= i < j < courses.len() ==> (#[trigger] courses[i]).checkbox_index < (
            #[trigger] courses[j]).checkbox_index,
        forall|i: int, j: int|
            0 <= i < courses.len() && 0 <= j < courses.len() && (
            #[trigger] courses[i]).checkbox_index == (#[trigger] courses[j]).checkbox_index ==> i
                == j,
{
    assert forall|i: int| 0 <= i < courses.len() implies (#[trigger] courses[i]).checkbox_index
        == i by {
        assert(rows[i].complete());
    }
}

/// What was read off one row of the listing that follows a submission.
#[derive(Debug, Clone, PartialEq, Eq)]
pub struct RawResultRow {
    pub status: FieldProbe,
    pub description: FieldProbe,
    pub schedule: FieldProbe,
    pub instructor: FieldProbe,
    pub room: FieldProbe,
    pub credits: FieldProbe,
}

/// A result row as a value.
pub struct ResultContent {
    pub status: Option<Option<Seq<char>>>,
    pub description: Option<Option<Seq<char>>>,
    pub schedule: Option<Option<Seq<char>>>,
    pub instructor: Option<Option<Seq<char>>>,
    pub room: Option<Option<Seq<char>>>,
    pub credits: Option<Option<Seq<char>>>,
}

impl ResultContent {
    /// The first part, in lookup order, that was not found.  The status is
    /// reported as the availability part.
    pub open spec fn first_missing(self) -> Option<RowField> {
        if self.status is None {
            Some(RowField::Availability)
        } else if self.description is None {
            Some(RowField::Description)
        } else if self.schedule is None {
            Some(RowField::Schedule)
        } else if self.instructor is None {
            Some(RowField::Instructor)
        } else if self.room is None {
            Some(RowField::Room)
        } else if self.credits is None {
            Some(RowField::Credits)
        } else {
            None
        }
    }

    /// Every part of the row was found.
    pub open spec fn complete(self) -> bool {
        self.first_missing() is None
    }
}

impl View for RawResultRow {
    type V = ResultContent;

    open spec fn view(&self) -> ResultContent {
        ResultContent {
            status: self.status@,
            description: self.description@,
            schedule: self.schedule@,
            instructor: self.instructor@,
            room: self.room@,
            credits: self.credits@,
        }
    }
}

/// The outcome of the registration for one course.  Read once, never changed.
#[derive(Debug, Clone, PartialEq, Eq)]
pub struct RegistrationResult {
    pub description: String,
    pub status: CourseStatus,
    pub schedule: String,
    pub room: String,
    pub instructor: String,
    pub credits: String,
}

/// A registration result as a value.
pub struct ResultRecord {
    pub description: Seq<char>,
    pub status: CourseStatus,
    pub schedule: Seq<char>,
    pub room: Seq<char>,
    pub instructor: Seq<char>,
    pub credits: Seq<char>,
}

impl View for RegistrationResult {
    type V = ResultRecord;

    open spec fn view(&self) -> ResultRecord {
        ResultRecord {
            description: self.description@,
            status: self.status,
            schedule: self.schedule@,
            room: self.room@,
            instructor: self.instructor@,
            credits: self.credits@,
        }
    }
}

/// The result that a row describes.
pub open spec fn result_of(row: ResultContent) -> ResultRecord {
    ResultRecord {
        description: shown_text(row.description),
        status: status_of(status_text(row.status)),
        schedule: shown_text(row.schedule),
        room: shown_text(row.room),
        instructor: shown_text(row.instructor),
        credits: shown_text(row.credits),
    }
}

impl RawResultRow {
    /// The first part, in lookup order, that was not found.
    pub fn first_missing(&self) -> (r: Option<RowField>)
        ensures
            r == self@.first_missing(),
    {
        if !self.status.is_present() {
            Some(RowField::Availability)
        } else if !self.description.is_present() {
            Some(RowField::Description)
        } else if !self.schedule.is_present() {
            Some(RowField::Schedule)
        } else if !self.instructor.is_present() {
            Some(RowField::Instructor)
        } else if !self.room.is_present() {
            Some(RowField::Room)
        } else if !self.credits.is_present() {
            Some(RowField::Credits)
        } else {
            None
        }
    }

    /// The result that this row describes.
    pub fn to_result(&self) -> (result: RegistrationResult)
        ensures
            result@ == result_of(self@),
    {
        RegistrationResult {
            description: self.description.shown(),
            status: self.status.status(),
            schedule: self.schedule.shown(),
            room: self.room.shown(),
            instructor: self.instructor.shown(),
            credits: self.credits.shown(),
        }
    }
}

impl EmoryPageElements {
    /// Turns the rows of the results listing into results, in row order.  A
    /// part without text is no failure; a part that was not found fails the
    /// whole listing, with the first such row and its first missing part.
    pub fn get_registration_results(&self, rows: &[RawResultRow]) -> (r: Result<
        Vec<RegistrationResult>,
        ExtractError,
    >)
        ensures
            r is Ok <==> forall|i: int| 0 <= i < rows.len() ==> (#[trigger] rows[i])@.complete(),
            r matches Ok(results) ==> results.len() == rows.len() && forall|i: int|
                0 <= i < rows.len() ==> (#[trigger] results[i])@ == result_of(rows[i]@),
            r matches Err(ExtractError::StructureMismatch { row, missing_field }) ==> {
                &&& row < rows.len()
                &&& forall|j: int| 0 <= j < row ==> (#[trigger] rows[j])@.complete()
                &&& rows[row as int]@.first_missing() == Some(missing_field)
            },
    {
        let mut results: Vec<RegistrationResult> = Vec::new();
        let n: usize = rows.len();
        let mut i: usize = 0;
        while i < n
            invariant
                n == rows.len(),
                i <= n,
                results.len() == i,
                forall|k: int| 0 <= k < i ==> (#[trigger] rows[k])@.complete(),
                forall|k: int| 0 <= k < i ==> (#[trigger] results[k])@ == result_of(rows[k]@),
            decreases n - i,
        {
            match rows[i].first_missing() {
                Some(missing_field) => {
                    assert(!rows[i as int]@.complete());
                    return Err(ExtractError::StructureMismatch { row: i, missing_field });
                },
                None => {
                    results.push(rows[i].to_result());
                },
            }
            i += 1;
        }
        Ok(results)
    }
}

} // verus!
