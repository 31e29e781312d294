//! The shared application state.
//!
//! One value of `AppState` holds everything the handlers read and write: the
//! health-check greeting, the visit counter, and the two collections. The
//! server around this crate keeps the single `AppState` behind one exclusive
//! lock and calls each handler inside one continuously held critical
//! section, so every handler call is one atomic step on the state.

use vstd::prelude::*;

use crate::models::Course;
use crate::models::CourseV;
use crate::models::Tutor;
use crate::models::TutorV;

verus! {

/// The shared mutable state behind the handlers.
pub struct AppState {
    pub health_check_response: String,
    pub visit_count: u32,
    pub tutors: Vec<Tutor>,
    pub courses: Vec<Course>,
}

/// The mathematical face of the application state.
#[verifier::ext_equal]
pub struct StateV {
    pub greeting: Seq<char>,
    pub visit_count: u32,
    pub tutors: Seq<TutorV>,
    pub courses: Seq<CourseV>,
}

impl View for AppState {
    type V = StateV;

    open spec fn view(&self) -> StateV {
        StateV {
            greeting: self.health_check_response@,
            visit_count: self.visit_count,
            tutors: self.tutors@.map_values(|t: Tutor| t@),
            courses: self.courses@.map_values(|c: Course| c@),
        }
    }
}

impl AppState {
    /// A fresh state: the given greeting, a zero visit counter, and empty
    /// collections.
    pub fn new(health_check_response: String) -> (s: AppState)
        ensures
            s@.greeting == health_check_response@,
            s@.visit_count == 0,
            s@.tutors == Seq::<TutorV>::empty(),
            s@.courses == Seq::<CourseV>::empty(),
    {
        let s = AppState {
            health_check_response,
            visit_count: 0,
            tutors: Vec::new(),
            courses: Vec::new(),
        };
        proof {
            assert(s@.tutors =~= Seq::<TutorV>::empty());
            assert(s@.courses =~= Seq::<CourseV>::empty());
        }
        s
    }
}

} // verus!
