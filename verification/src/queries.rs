//! The lookup and filter queries of the service, as spec functions over the
//! collections' mathematical faces, with the lemmas the handlers and the
//! stated laws rest on.

use vstd::prelude::*;

use crate::models::CourseV;
use crate::models::TutorV;

verus! {

/// The identity of the first tutor whose name and email both match exactly,
/// in collection (insertion) order.
pub open spec fn first_tutor_match(ts: Seq<TutorV>, name: Seq<char>, email: Seq<char>) -> Option<
    u128,
>
    decreases ts.len(),
{
    if ts.len() == 0 {
        None
    } else if ts[0].name == name && ts[0].email == email {
        Some(ts[0].tutor_id)
    } else {
        first_tutor_match(ts.drop_first(), name, email)
    }
}

/// The courses owned by the given tutor, in collection order.
pub open spec fn courses_of_tutor(cs: Seq<CourseV>, tutor_id: u128) -> Seq<CourseV>
    decreases cs.len(),
{
    if cs.len() == 0 {
        Seq::<CourseV>::empty()
    } else {
        let rest = courses_of_tutor(cs.drop_first(), tutor_id);
        if cs[0].tutor_id == tutor_id {
            seq![cs[0]] + rest
        } else {
            rest
        }
    }
}

/// How many courses the given tutor owns.
pub open spec fn tutor_course_count(cs: Seq<CourseV>, tutor_id: u128) -> nat {
    courses_of_tutor(cs, tutor_id).len()
}

/// The first course with the given identity, in collection order.
pub open spec fn first_course_with_id(cs: Seq<CourseV>, course_id: u128) -> Option<CourseV>
    decreases cs.len(),
{
    if cs.len() == 0 {
        None
    } else if cs[0].course_id == course_id {
        Some(cs[0])
    } else {
        first_course_with_id(cs.drop_first(), course_id)
    }
}

/// Appending a course keeps the filtered listing of every tutor as it was,
/// with the new course at its end exactly for its owner.
pub proof fn lemma_courses_of_tutor_snoc(cs: Seq<CourseV>, c: CourseV, tutor_id: u128)
    ensures
        c.tutor_id == tutor_id ==> courses_of_tutor(cs.push(c), tutor_id) == courses_of_tutor(
            cs,
            tutor_id,
        ).push(c),
        c.tutor_id != tutor_id ==> courses_of_tutor(cs.push(c), tutor_id) == courses_of_tutor(
            cs,
            tutor_id,
        ),
    decreases cs.len(),
{
    if cs.len() == 0 {
        assert(cs.push(c)[0] == c);
        assert(cs.push(c).drop_first() =~= Seq::<CourseV>::empty());
        assert(courses_of_tutor(Seq::<CourseV>::empty(), tutor_id) == Seq::<CourseV>::empty());
        assert(cs =~= Seq::<CourseV>::empty());
        if c.tutor_id == tutor_id {
            assert(courses_of_tutor(cs.push(c), tutor_id) == seq![c] + Seq::<CourseV>::empty());
        }
        if c.tutor_id == tutor_id {
            assert(courses_of_tutor(cs.push(c), tutor_id) =~= courses_of_tutor(
                cs,
                tutor_id,
            ).push(c));
        } else {
            assert(courses_of_tutor(cs.push(c), tutor_id) =~= courses_of_tutor(cs, tutor_id));
        }
    } else {
        assert(cs.push(c)[0] == cs[0]);
        assert(cs.push(c).drop_first() =~= cs.drop_first().push(c));
        lemma_courses_of_tutor_snoc(cs.drop_first(), c, tutor_id);
        assert(courses_of_tutor(cs.push(c), tutor_id) == if cs[0].tutor_id == tutor_id {
            seq![cs[0]] + courses_of_tutor(cs.drop_first().push(c), tutor_id)
        } else {
            courses_of_tutor(cs.drop_first().push(c), tutor_id)
        });
        assert(courses_of_tutor(cs, tutor_id) == if cs[0].tutor_id == tutor_id {
            seq![cs[0]] + courses_of_tutor(cs.drop_first(), tutor_id)
        } else {
            courses_of_tutor(cs.drop_first(), tutor_id)
        });
        if c.tutor_id == tutor_id {
            assert(courses_of_tutor(cs.push(c), tutor_id) =~= courses_of_tutor(
                cs,
                tutor_id,
            ).push(c));
        } else {
            assert(courses_of_tutor(cs.push(c), tutor_id) =~= courses_of_tutor(cs, tutor_id));
        }
    }
}

/// Every course in a tutor's listing is owned by that tutor.
pub proof fn lemma_courses_of_tutor_only(cs: Seq<CourseV>, tutor_id: u128)
    ensures
        forall|i: int|
            0 <= i < courses_of_tutor(cs, tutor_id).len() ==> courses_of_tutor(
                cs,
                tutor_id,
            )[i].tutor_id == tutor_id,
    decreases cs.len(),
{
    if cs.len() > 0 {
        lemma_courses_of_tutor_only(cs.drop_first(), tutor_id);
    }
}

} // verus!
