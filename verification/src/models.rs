//! The in-memory data model: tutors and the courses they post.

use vstd::prelude::*;

use crate::ids::Id;
use crate::time::Timestamp;
use crate::time::now_micros;

verus! {

/// A course instructor.
pub struct Tutor {
    pub tutor_id: Id,
    pub name: String,
    pub email: String,
}

/// The mathematical face of a `Tutor`.
#[verifier::ext_equal]
pub struct TutorV {
    pub tutor_id: u128,
    pub name: Seq<char>,
    pub email: Seq<char>,
}

impl View for Tutor {
    type V = TutorV;

    open spec fn view(&self) -> TutorV {
        TutorV { tutor_id: self.tutor_id.value, name: self.name@, email: self.email@ }
    }
}

impl Tutor {
    /// A tutor with the given name and email and a freshly drawn identity.
    pub fn new(name: String, email: String) -> (t: Tutor)
        ensures
            t@.name == name@,
            t@.email == email@,
            t@.tutor_id != 0,
    {
        Tutor { tutor_id: Id::fresh(), name, email }
    }
}

/// An offering owned by exactly one tutor.
pub struct Course {
    pub tutor_id: Id,
    pub course_id: Id,
    pub course_name: String,
    pub posted_time: Option<Timestamp>,
}

/// The mathematical face of a `Course`.
#[verifier::ext_equal]
pub struct CourseV {
    pub tutor_id: u128,
    pub course_id: u128,
    pub course_name: Seq<char>,
    pub posted_time: Option<i64>,
}

/// The instant a course records, as a plain count of microseconds.
pub open spec fn time_view(t: Option<Timestamp>) -> Option<i64> {
    match t {
        Some(ts) => Some(ts.micros),
        None => None,
    }
}

impl View for Course {
    type V = CourseV;

    open spec fn view(&self) -> CourseV {
        CourseV {
            tutor_id: self.tutor_id.value,
            course_id: self.course_id.value,
            course_name: self.course_name@,
            posted_time: time_view(self.posted_time),
        }
    }
}

impl Course {
    /// A course with the given owner, name and posting time, and a freshly
    /// drawn course identity.
    pub fn new(tutor_id: Id, course_name: String, posted_time: Option<Timestamp>) -> (c: Course)
        ensures
            c@.tutor_id == tutor_id.value,
            c@.course_name == course_name@,
            c@.posted_time == time_view(posted_time),
            c@.course_id != 0,
    {
        Course { tutor_id, course_id: Id::fresh(), course_name, posted_time }
    }

    /// A course stamped with the current wall-clock instant.
    pub fn with_current_time(tutor_id: Id, course_name: String) -> (c: Course)
        ensures
            c@.tutor_id == tutor_id.value,
            c@.course_name == course_name@,
            c@.posted_time is Some,
            c@.course_id != 0,
    {
        let stamp = Timestamp { micros: now_micros() };
        Course { tutor_id, course_id: Id::fresh(), course_name, posted_time: Some(stamp) }
    }

    /// A course from the fields of a typed request body: a supplied posting
    /// time is kept, and a missing one is replaced by the current instant.
    pub fn from_parts(tutor_id: Id, course_name: String, posted_time: Option<Timestamp>) -> (c:
        Course)
        ensures
            c@.tutor_id == tutor_id.value,
            c@.course_name == course_name@,
            posted_time matches Some(t) ==> c@.posted_time == Some(t.micros),
            posted_time is None ==> c@.posted_time is Some,
            c@.course_id != 0,
    {
        match posted_time {
            Some(t) => Course::new(tutor_id, course_name, Some(t)),
            None => Course::with_current_time(tutor_id, course_name),
        }
    }

    /// Re-stamps the course with the current wall-clock instant; everything
    /// else is kept.
    pub fn update_posted_time(&mut self)
        ensures
            final(self)@.tutor_id == old(self)@.tutor_id,
            final(self)@.course_id == old(self)@.course_id,
            final(self)@.course_name == old(self)@.course_name,
            final(self)@.posted_time is Some,
    {
        self.posted_time = Some(Timestamp { micros: now_micros() });
    }

    /// Whether this course is owned by the given tutor.
    pub fn is_posted_by_tutor(&self, tutor_id: Id) -> (r: bool)
        ensures
            r == (self@.tutor_id == tutor_id.value),
    {
        self.tutor_id.value == tutor_id.value
    }
}

} // verus!
