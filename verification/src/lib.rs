//! Decision core of a course-registration sniper.
//!
//! The crate holds the parts of the tool that decide rather than act: the
//! selector catalogue of the registration page, the retry policy of the
//! element locator, the extraction of carts and course rows from what
//! was read off the page, the registration-time arithmetic, and the stage
//! machine of a run.  Driving the browser, prompting the operator and sleeping
//! are left to the caller, which hands over plain values and performs the
//! actions that come back.

pub mod args;
pub mod text;
pub mod elements;
pub mod schedule;
pub mod locator;
pub mod sequencer;
pub mod supervisor;
