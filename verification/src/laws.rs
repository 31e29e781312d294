//! The laws of the service, stated and proved once and for all: what the
//! handlers' contracts add up to across several calls.

use vstd::prelude::*;

use crate::handlers::course_details_reply;
use crate::handlers::health_body;
use crate::handlers::health_reply;
use crate::handlers::health_step;
use crate::models::CourseV;
use crate::models::TutorV;
use crate::queries::courses_of_tutor;
use crate::queries::first_tutor_match;
use crate::queries::lemma_courses_of_tutor_snoc;
use crate::queries::tutor_course_count;
use crate::state::StateV;

verus! {

/// Reads are idempotent: the course-detail reply is a function of the
/// state and the requested identity alone, and a lookup borrows the state
/// immutably, so repeated lookups with no intervening write return
/// identical output.
pub proof fn lemma_course_details_idempotent(s1: StateV, s2: StateV, course_id: u128)
    requires
        s1 == s2,
    ensures
        course_details_reply(s1, course_id) == course_details_reply(s2, course_id),
{
}

/// The state after a run of health checks.
pub open spec fn health_steps(s: StateV, n: nat) -> StateV
    decreases n,
{
    if n == 0 {
        s
    } else {
        health_step(health_steps(s, (n - 1) as nat))
    }
}

/// A run of health checks adds exactly its length to the visit counter and
/// touches nothing else.
pub proof fn lemma_health_steps_exact(s: StateV, n: nat)
    requires
        s.visit_count + n <= u32::MAX,
    ensures
        health_steps(s, n).visit_count == s.visit_count + n,
        health_steps(s, n).greeting == s.greeting,
        health_steps(s, n).tutors == s.tutors,
        health_steps(s, n).courses == s.courses,
    decreases n,
{
    if n > 0 {
        lemma_health_steps_exact(s, (n - 1) as nat);
    }
}

/// Counter monotonicity: sequential health checks report strictly
/// increasing counter values with no gaps or repeats — the check after j
/// earlier checks reports `s.visit_count + j`.
pub proof fn lemma_health_counter_monotone(s: StateV, j: nat, k: nat)
    requires
        j < k,
        s.visit_count + k <= u32::MAX,
    ensures
        health_reply(health_steps(s, j)).body == health_body(
            s.greeting,
            (s.visit_count + j) as u32,
        ),
        health_steps(s, j).visit_count < health_steps(s, k).visit_count,
        health_steps(s, k).visit_count == health_steps(s, j).visit_count + (k - j),
{
    lemma_health_steps_exact(s, j);
    lemma_health_steps_exact(s, k);
}

/// Round trip: after a tutor with a fresh identity is appended, looking up
/// its name and email returns exactly that identity — provided no earlier
/// tutor already carries the same name and email, since the lookup returns
/// the first match in insertion order.
pub proof fn lemma_create_then_lookup(tutors: Seq<TutorV>, t: TutorV)
    requires
        forall|i: int|
            0 <= i < tutors.len() ==> !(tutors[i].name == t.name && tutors[i].email == t.email),
    ensures
        first_tutor_match(tutors.push(t), t.name, t.email) == Some(t.tutor_id),
    decreases tutors.len(),
{
    if tutors.len() == 0 {
        assert(tutors.push(t)[0] == t);
    } else {
        assert(tutors.push(t)[0] == tutors[0]);
        assert(tutors.push(t).drop_first() =~= tutors.drop_first().push(t));
        assert(forall|i: int|
            0 <= i < tutors.drop_first().len() ==> tutors.drop_first()[i] == tutors[i + 1]);
        lemma_create_then_lookup(tutors.drop_first(), t);
    }
}

/// Filtering correctness, exclusion: a course created for one tutor never
/// appears in another tutor's listing.
pub proof fn lemma_listing_excludes_others(cs: Seq<CourseV>, tutor_id: u128, c: CourseV)
    requires
        c.tutor_id != tutor_id,
    ensures
        courses_of_tutor(cs.push(c), tutor_id) == courses_of_tutor(cs, tutor_id),
{
    lemma_courses_of_tutor_snoc(cs, c, tutor_id);
}

/// Filtering correctness, order: a tutor's own new course appears at the
/// end of that tutor's listing, so the listing keeps creation order.
pub proof fn lemma_listing_appends_own(cs: Seq<CourseV>, c: CourseV)
    ensures
        courses_of_tutor(cs.push(c), c.tutor_id) == courses_of_tutor(cs, c.tutor_id).push(c),
{
    lemma_courses_of_tutor_snoc(cs, c, c.tutor_id);
}

/// One course creation raises its owner's total by exactly one.
pub proof fn lemma_course_total_increments(cs: Seq<CourseV>, c: CourseV)
    ensures
        tutor_course_count(cs.push(c), c.tutor_id) == tutor_course_count(cs, c.tutor_id) + 1,
{
    lemma_courses_of_tutor_snoc(cs, c, c.tutor_id);
}

/// Serialized course creations for one tutor report exact, strictly
/// incrementing totals: after the first k+1 of the appended courses, the
/// tutor's total is the base count plus k+1. Each creation counts and
/// appends inside one exclusive section, so these are the totals the
/// handler reports, with no duplicates and no gaps.
pub proof fn lemma_course_totals_ascending(
    cs: Seq<CourseV>,
    added: Seq<CourseV>,
    tutor_id: u128,
    k: int,
)
    requires
        0 <= k < added.len(),
        forall|i: int| 0 <= i < added.len() ==> added[i].tutor_id == tutor_id,
    ensures
        tutor_course_count(cs + added.take(k + 1), tutor_id) == tutor_course_count(cs, tutor_id)
            + k + 1,
    decreases k,
{
    if k == 0 {
        assert(cs + added.take(1) =~= cs.push(added[0]));
        lemma_courses_of_tutor_snoc(cs, added[0], tutor_id);
    } else {
        lemma_course_totals_ascending(cs, added, tutor_id, k - 1);
        assert(cs + added.take(k + 1) =~= (cs + added.take(k)).push(added[k]));
        lemma_courses_of_tutor_snoc(cs + added.take(k), added[k], tutor_id);
    }
}

} // verus!
