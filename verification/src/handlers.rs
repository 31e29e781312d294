//! The request handlers: the pure hearts of the HTTP endpoints.
//!
//! Each handler takes the request's data as plain values and the application
//! state, and returns the status code and body of the response. The server
//! around this crate calls each handler inside one continuously held
//! exclusive section on the state, so a handler call is one atomic step:
//! in particular the course-creation handler counts and appends under the
//! same section, which closes the race between concurrent creations.

use vstd::prelude::*;

use crate::ids::Id;
use crate::ids::uuid_display;
use crate::ids::uuid_parse;
use crate::json::course_json;
use crate::json::courses_json;
use crate::json::courses_json_items;
use crate::json::json_string;
use crate::json::json_string_of;
use crate::json::course_to_json;
use crate::json::lemma_courses_json_items_snoc;
use crate::models::Course;
use crate::models::CourseV;
use crate::models::Tutor;
use crate::queries::courses_of_tutor;
use crate::queries::first_course_with_id;
use crate::queries::first_tutor_match;
use crate::queries::lemma_courses_of_tutor_snoc;
use crate::queries::tutor_course_count;
use crate::state::AppState;
use crate::state::StateV;
use crate::text::dec_str;
use crate::text::dec_string;

verus! {

/// A response: its status code and its body.
pub struct HttpReply {
    pub status: u16,
    pub body: String,
}

/// The mathematical face of a response.
#[verifier::ext_equal]
pub struct ReplyV {
    pub status: u16,
    pub body: Seq<char>,
}

impl View for HttpReply {
    type V = ReplyV;

    open spec fn view(&self) -> ReplyV {
        ReplyV { status: self.status, body: self.body@ }
    }
}

/// The request body of tutor creation and tutor lookup: the `name` and
/// `email` fields, each absent when the request did not carry it.
pub struct TutorInput {
    pub name: Option<String>,
    pub email: Option<String>,
}

/// The request body of course creation: the `tutor_id` and `course_name`
/// fields, each absent when the request did not carry it.
pub struct CourseInput {
    pub tutor_id: Option<String>,
    pub course_name: Option<String>,
}

/// The health-check body: the greeting, the count of earlier checks, and
/// the word `times`.
pub open spec fn health_body(greeting: Seq<char>, count: u32) -> Seq<char> {
    greeting + " "@ + dec_str(count as nat) + " times"@
}

/// The health-check response on a given state.
pub open spec fn health_reply(s: StateV) -> ReplyV {
    ReplyV { status: 200, body: health_body(s.greeting, s.visit_count) }
}

/// What a health check does to the state: one more visit, nothing else.
pub open spec fn health_step(s: StateV) -> StateV {
    StateV {
        greeting: s.greeting,
        visit_count: (s.visit_count + 1) as u32,
        tutors: s.tutors,
        courses: s.courses,
    }
}

/// Handles `GET /health`: reports the greeting and the number of completed
/// earlier checks (the pre-increment counter value), then counts this
/// visit.
pub fn health_check_handler(state: &mut AppState) -> (r: HttpReply)
    requires
        old(state)@.visit_count < u32::MAX,
    ensures
        final(state)@ == health_step(old(state)@),
        r@ == health_reply(old(state)@),
{
    let count_text = dec_string(state.visit_count as u64);
    let mut body = state.health_check_response.clone();
    body.append(" ");
    body.append(count_text.as_str());
    body.append(" times");
    state.visit_count = state.visit_count + 1;
    let r = HttpReply { status: 200, body };
    proof {
        assert(state@ =~= health_step(old(state)@));
        assert(r@ =~= health_reply(old(state)@));
    }
    r
}

/// Handles `POST /tutors/`: checks that a name and an email were provided,
/// appends a tutor with a fresh identity, and answers with that identity as
/// a JSON string. Repeated calls with the same name and email create
/// distinct tutors with distinct identities; no uniqueness is enforced.
pub fn create_new_tutor(state: &mut AppState, input: TutorInput) -> (r: HttpReply)
    ensures
        final(state)@.greeting == old(state)@.greeting,
        final(state)@.visit_count == old(state)@.visit_count,
        final(state)@.courses == old(state)@.courses,
        input.name is None ==> final(state)@.tutors == old(state)@.tutors && r@.status == 400
            && r@.body == "No tutor name provided"@,
        input.name is Some && input.email is None ==> final(state)@.tutors == old(state)@.tutors
            && r@.status == 400 && r@.body == "No tutor email provided"@,
        input.name matches Some(n) ==> input.email matches Some(e) ==> {
            &&& r@.status == 200
            &&& final(state)@.tutors == old(state)@.tutors.push(final(state)@.tutors.last())
            &&& final(state)@.tutors.last().name == n@
            &&& final(state)@.tutors.last().email == e@
            &&& r@.body == json_string(uuid_display(final(state)@.tutors.last().tutor_id))
        },
{
    let name = match input.name {
        Some(n) => n,
        None => {
            return HttpReply { status: 400, body: String::from_str("No tutor name provided") };
        },
    };
    let email = match input.email {
        Some(e) => e,
        None => {
            return HttpReply { status: 400, body: String::from_str("No tutor email provided") };
        },
    };
    let t = Tutor::new(name, email);
    let id_text = t.tutor_id.to_text();
    let body = json_string_of(id_text.as_str());
    state.tutors.push(t);
    proof {
        assert(state@.tutors =~= old(state)@.tutors.push(state@.tutors.last()));
        assert(state@.courses =~= old(state)@.courses);
    }
    HttpReply { status: 200, body }
}

/// The tutor-lookup response on a given state: the identity of the first
/// tutor whose name and email both match, in insertion order, or a
/// not-found report naming the queried pair.
pub open spec fn tutor_id_reply(s: StateV, name: Seq<char>, email: Seq<char>) -> ReplyV {
    match first_tutor_match(s.tutors, name, email) {
        Some(id) => ReplyV { status: 200, body: json_string(uuid_display(id)) },
        None => ReplyV {
            status: 404,
            body: "Tutor with name `"@ + name + "` and email `"@ + email + "` does not exist"@,
        },
    }
}

/// Handles `POST /tutors/id`: checks that a name and an email were
/// provided, and looks the pair up among the tutors. When duplicates exist
/// the first match in insertion order wins.
pub fn get_tutor_id(state: &AppState, input: TutorInput) -> (r: HttpReply)
    ensures
        input.name is None ==> r@.status == 400 && r@.body == "No name provided"@,
        input.name is Some && input.email is None ==> r@.status == 400 && r@.body
            == "No email provided"@,
        input.name matches Some(n) ==> input.email matches Some(e) ==> r@ == tutor_id_reply(
            state@,
            n@,
            e@,
        ),
{
    if input.name.is_none() {
        return HttpReply { status: 400, body: String::from_str("No name provided") };
    }
    if input.email.is_none() {
        return HttpReply { status: 400, body: String::from_str("No email provided") };
    }
    let name = input.name.as_ref().unwrap();
    let email = input.email.as_ref().unwrap();
    let n = state.tutors.len();
    let mut i: usize = 0;
    proof {
        assert(state@.tutors.skip(0) =~= state@.tutors);
    }
    while i < n
        invariant
            n == state.tutors.len(),
            i <= n,
            input.name == Some(*name),
            input.email == Some(*email),
            first_tutor_match(state@.tutors, name@, email@) == first_tutor_match(
                state@.tutors.skip(i as int),
                name@,
                email@,
            ),
        decreases n - i,
    {
        let t = &state.tutors[i];
        proof {
            assert(state@.tutors.skip(i as int)[0] == state@.tutors[i as int]);
        }
        if t.name.eq(name) && t.email.eq(email) {
            let body = json_string_of(t.tutor_id.to_text().as_str());
            let r = HttpReply { status: 200, body };
            proof {
                assert(r@ =~= tutor_id_reply(state@, name@, email@));
            }
            return r;
        }
        proof {
            assert(state@.tutors.skip(i as int).drop_first() =~= state@.tutors.skip(i + 1 as int));
        }
        i = i + 1;
    }
    proof {
        assert(state@.tutors.skip(n as int) =~= Seq::<crate::models::TutorV>::empty());
    }
    let mut body = String::from_str("Tutor with name `");
    body.append(name.as_str());
    body.append("` and email `");
    body.append(email.as_str());
    body.append("` does not exist");
    let r = HttpReply { status: 404, body };
    proof {
        assert(r@ =~= tutor_id_reply(state@, name@, email@));
    }
    r
}

/// How many of the given courses the tutor owns.
fn count_for_tutor(courses: &Vec<Course>, tutor_id: Id) -> (n: usize)
    ensures
        n == tutor_course_count(courses@.map_values(|c: Course| c@), tutor_id.value),
{
    let len = courses.len();
    let mut n: usize = 0;
    let mut i: usize = 0;
    proof {
        assert(courses@.subrange(0, 0).map_values(|c: Course| c@) =~= Seq::<CourseV>::empty());
        assert(courses_of_tutor(Seq::<CourseV>::empty(), tutor_id.value) == Seq::<
            CourseV,
        >::empty());
    }
    while i < len
        invariant
            len == courses.len(),
            i <= len,
            n <= i,
            n == tutor_course_count(
                courses@.subrange(0, i as int).map_values(|c: Course| c@),
                tutor_id.value,
            ),
        decreases len - i,
    {
        let ghost prefix = courses@.subrange(0, i as int).map_values(|c: Course| c@);
        proof {
            assert(courses@.subrange(0, i + 1 as int).map_values(|c: Course| c@) =~= prefix.push(
                courses@[i as int]@,
            ));
            lemma_courses_of_tutor_snoc(prefix, courses@[i as int]@, tutor_id.value);
        }
        if courses[i].is_posted_by_tutor(tutor_id) {
            n = n + 1;
        }
        i = i + 1;
    }
    proof {
        assert(courses@.subrange(0, len as int).map_values(|c: Course| c@) =~= courses@.map_values(
            |c: Course| c@,
        ));
    }
    n
}

/// The confirmation body of a successful course creation: the owning
/// tutor's identity and the tutor's new total.
pub open spec fn course_added_body(tutor_id: u128, total: nat) -> Seq<char> {
    "Added course for tutor "@ + uuid_display(tutor_id) + ", total courses: "@ + dec_str(total)
}

/// Handles `POST /courses/`: checks that a well-formed tutor identity and a
/// course name were provided, appends a course stamped with the current
/// instant, and reports the tutor's new course total. The count and the
/// append happen inside the same exclusive section on the state, so the
/// reported total is exact even under concurrent requests.
pub fn new_course_handler(state: &mut AppState, input: CourseInput) -> (r: HttpReply)
    ensures
        final(state)@.greeting == old(state)@.greeting,
        final(state)@.visit_count == old(state)@.visit_count,
        final(state)@.tutors == old(state)@.tutors,
        input.tutor_id is None ==> final(state)@.courses == old(state)@.courses && r@.status == 400
            && r@.body == "No tutor_id provided"@,
        input.tutor_id matches Some(ts) ==> uuid_parse(ts@) is None ==> final(state)@.courses
            == old(state)@.courses && r@.status == 400 && r@.body == "Invalid tutor_id format"@,
        input.tutor_id matches Some(ts) ==> uuid_parse(ts@) is Some ==> input.course_name is None
            ==> final(state)@.courses == old(state)@.courses && r@.status == 400 && r@.body
            == "No course_name provided"@,
        input.tutor_id matches Some(ts) ==> uuid_parse(ts@) matches Some(tid)
            ==> input.course_name matches Some(cn) ==> {
            &&& r@.status == 200
            &&& final(state)@.courses == old(state)@.courses.push(final(state)@.courses.last())
            &&& final(state)@.courses.last().tutor_id == tid
            &&& final(state)@.courses.last().course_name == cn@
            &&& final(state)@.courses.last().posted_time is Some
            &&& tutor_course_count(final(state)@.courses, tid) == tutor_course_count(
                old(state)@.courses,
                tid,
            ) + 1
            &&& r@.body == course_added_body(
                tid,
                tutor_course_count(final(state)@.courses, tid),
            )
        },
{
    if input.tutor_id.is_none() {
        return HttpReply { status: 400, body: String::from_str("No tutor_id provided") };
    }
    let tutor_id = match Id::parse(input.tutor_id.as_ref().unwrap().as_str()) {
        Some(id) => id,
        None => {
            return HttpReply { status: 400, body: String::from_str("Invalid tutor_id format") };
        },
    };
    let course_name = match input.course_name {
        Some(cn) => cn,
        None => {
            return HttpReply { status: 400, body: String::from_str("No course_name provided") };
        },
    };
    let course = Course::with_current_time(tutor_id, course_name);
    state.courses.push(course);
    proof {
        assert(state@.courses =~= old(state)@.courses.push(state@.courses.last()));
        assert(state@.tutors =~= old(state)@.tutors);
        lemma_courses_of_tutor_snoc(
            old(state)@.courses,
            state@.courses.last(),
            tutor_id.value,
        );
    }
    let total = count_for_tutor(&state.courses, tutor_id);
    let mut body = String::from_str("Added course for tutor ");
    body.append(tutor_id.to_text().as_str());
    body.append(", total courses: ");
    body.append(dec_string(total as u64).as_str());
    HttpReply { status: 200, body }
}

/// The course-listing response on a given state: the tutor's courses as a
/// JSON array, in insertion order, empty when there are none.
pub open spec fn tutor_courses_reply(s: StateV, tutor_id: u128) -> ReplyV {
    ReplyV { status: 200, body: courses_json(courses_of_tutor(s.courses, tutor_id)) }
}

/// Handles `GET /tutors/{tutor_id}/courses`: lists the tutor's courses, in
/// insertion order. An unknown tutor gets the empty array, not an error.
pub fn get_tutor_courses_handler(state: &AppState, tutor_id: Id) -> (r: HttpReply)
    ensures
        r@ == tutor_courses_reply(state@, tutor_id.value),
{
    let len = state.courses.len();
    let mut items = String::new();
    let mut matched: usize = 0;
    let mut i: usize = 0;
    proof {
        assert(state@.courses.subrange(0, 0) =~= Seq::<CourseV>::empty());
        assert(courses_of_tutor(Seq::<CourseV>::empty(), tutor_id.value) == Seq::<
            CourseV,
        >::empty());
    }
    while i < len
        invariant
            len == state.courses.len(),
            i <= len,
            matched <= i,
            matched == courses_of_tutor(
                state@.courses.subrange(0, i as int),
                tutor_id.value,
            ).len(),
            items@ == courses_json_items(
                courses_of_tutor(state@.courses.subrange(0, i as int), tutor_id.value),
            ),
        decreases len - i,
    {
        let ghost prefix = state@.courses.subrange(0, i as int);
        let ghost listed = courses_of_tutor(prefix, tutor_id.value);
        let c = &state.courses[i];
        proof {
            assert(state@.courses.subrange(0, i + 1 as int) =~= prefix.push(c@));
            lemma_courses_of_tutor_snoc(prefix, c@, tutor_id.value);
            if c@.tutor_id == tutor_id.value {
                lemma_courses_json_items_snoc(listed, c@);
            }
        }
        if c.is_posted_by_tutor(tutor_id) {
            if matched > 0 {
                items.append(",");
            }
            items.append(course_to_json(c).as_str());
            matched = matched + 1;
        }
        i = i + 1;
    }
    proof {
        assert(state@.courses.subrange(0, len as int) =~= state@.courses);
    }
    let mut body = String::from_str("[");
    body.append(items.as_str());
    body.append("]");
    let r = HttpReply { status: 200, body };
    proof {
        assert(r@ =~= tutor_courses_reply(state@, tutor_id.value));
    }
    r
}

/// The course-detail response on a given state: the JSON object of the
/// course with the given identity, or a not-found report naming it.
pub open spec fn course_details_reply(s: StateV, course_id: u128) -> ReplyV {
    match first_course_with_id(s.courses, course_id) {
        Some(c) => ReplyV { status: 200, body: course_json(c) },
        None => ReplyV {
            status: 404,
            body: "Course with ID "@ + uuid_display(course_id) + " not found"@,
        },
    }
}

/// Handles `GET /courses/{course_id}`: returns the course with that
/// identity (the first in insertion order, and by invariant the only one),
/// or a not-found report that names the requested identity.
pub fn get_course_details(state: &AppState, course_id: Id) -> (r: HttpReply)
    ensures
        r@ == course_details_reply(state@, course_id.value),
{
    let len = state.courses.len();
    let mut i: usize = 0;
    proof {
        assert(state@.courses.skip(0) =~= state@.courses);
    }
    while i < len
        invariant
            len == state.courses.len(),
            i <= len,
            first_course_with_id(state@.courses, course_id.value) == first_course_with_id(
                state@.courses.skip(i as int),
                course_id.value,
            ),
        decreases len - i,
    {
        let c = &state.courses[i];
        proof {
            assert(state@.courses.skip(i as int)[0] == state@.courses[i as int]);
        }
        if c.course_id.value == course_id.value {
            let r = HttpReply { status: 200, body: course_to_json(c) };
            proof {
                assert(r@ =~= course_details_reply(state@, course_id.value));
            }
            return r;
        }
        proof {
            assert(state@.courses.skip(i as int).drop_first() =~= state@.courses.skip(
                i + 1 as int,
            ));
        }
        i = i + 1;
    }
    proof {
        assert(state@.courses.skip(len as int) =~= Seq::<CourseV>::empty());
    }
    let mut body = String::from_str("Course with ID ");
    body.append(course_id.to_text().as_str());
    body.append(" not found");
    let r = HttpReply { status: 404, body };
    proof {
        assert(r@ =~= course_details_reply(state@, course_id.value));
    }
    r
}

} // verus!
