//! Verified JSON rendering of courses.
//!
//! The spec functions here define, character by character, the JSON that the
//! listing and detail endpoints return; the executable builders are proved
//! to produce exactly that text. String contents are escaped as JSON asks:
//! quote, backslash and every control character.

use vstd::prelude::*;

use crate::ids::uuid_display;
use crate::models::Course;
use crate::models::CourseV;
use crate::text::string_of_chars;
use crate::time::format_timestamp;
use crate::time::timestamp_display;

verus! {

/// The lowercase hexadecimal digit for a value below sixteen.
pub open spec fn hex_digit(d: nat) -> char {
    if d == 0 {
        '0'
    } else if d == 1 {
        '1'
    } else if d == 2 {
        '2'
    } else if d == 3 {
        '3'
    } else if d == 4 {
        '4'
    } else if d == 5 {
        '5'
    } else if d == 6 {
        '6'
    } else if d == 7 {
        '7'
    } else if d == 8 {
        '8'
    } else if d == 9 {
        '9'
    } else if d == 10 {
        'a'
    } else if d == 11 {
        'b'
    } else if d == 12 {
        'c'
    } else if d == 13 {
        'd'
    } else if d == 14 {
        'e'
    } else {
        'f'
    }
}

/// How one character appears inside a JSON string literal: itself, a short
/// escape, or a `\u00XX` escape for the remaining control characters.
pub open spec fn escape_char(c: char) -> Seq<char> {
    if c == '"' {
        seq!['\\', '"']
    } else if c == '\\' {
        seq!['\\', '\\']
    } else if c == '\u{8}' {
        seq!['\\', 'b']
    } else if c == '\t' {
        seq!['\\', 't']
    } else if c == '\n' {
        seq!['\\', 'n']
    } else if c == '\u{c}' {
        seq!['\\', 'f']
    } else if c == '\r' {
        seq!['\\', 'r']
    } else if (c as u32) < 0x20 {
        seq!['\\', 'u', '0', '0', hex_digit(((c as u32) / 16) as nat), hex_digit(
            ((c as u32) % 16) as nat,
        )]
    } else {
        seq![c]
    }
}

/// The body of a JSON string literal: every character escaped in place.
pub open spec fn json_escaped(s: Seq<char>) -> Seq<char>
    decreases s.len(),
{
    if s.len() == 0 {
        Seq::<char>::empty()
    } else {
        escape_char(s[0]) + json_escaped(s.drop_first())
    }
}

/// A JSON string literal: the escaped contents between quotes.
pub open spec fn json_string(s: Seq<char>) -> Seq<char> {
    seq!['"'] + json_escaped(s) + seq!['"']
}

/// The JSON value for a posting time: the quoted rendering of the instant,
/// or `null` when the course has none (or the instant falls outside what the
/// calendar can represent).
pub open spec fn posted_time_json(t: Option<i64>) -> Seq<char> {
    match t {
        Some(m) => match timestamp_display(m) {
            Some(cs) => seq!['"'] + cs + seq!['"'],
            None => "null"@,
        },
        None => "null"@,
    }
}

/// The JSON object for one course.
pub open spec fn course_json(c: CourseV) -> Seq<char> {
    "{\"tutor_id\":"@ + json_string(uuid_display(c.tutor_id)) + ",\"course_id\":"@ + json_string(
        uuid_display(c.course_id),
    ) + ",\"course_name\":"@ + json_string(c.course_name) + ",\"posted_time\":"@
        + posted_time_json(c.posted_time) + "}"@
}

/// The comma-separated course objects inside a JSON array.
pub open spec fn courses_json_items(cs: Seq<CourseV>) -> Seq<char>
    decreases cs.len(),
{
    if cs.len() == 0 {
        Seq::<char>::empty()
    } else if cs.len() == 1 {
        course_json(cs[0])
    } else {
        course_json(cs[0]) + ","@ + courses_json_items(cs.drop_first())
    }
}

/// The JSON array holding the given courses, in order.
pub open spec fn courses_json(cs: Seq<CourseV>) -> Seq<char> {
    "["@ + courses_json_items(cs) + "]"@
}

/// Extending the escaped text by one character appends that character's
/// escape.
pub(crate) proof fn lemma_json_escaped_snoc(s: Seq<char>, c: char)
    ensures
        json_escaped(s.push(c)) == json_escaped(s) + escape_char(c),
    decreases s.len(),
{
    if s.len() == 0 {
        assert(s.push(c)[0] == c);
        assert(s.push(c).drop_first() =~= Seq::<char>::empty());
        assert(json_escaped(s.push(c)) == escape_char(c) + json_escaped(
            Seq::<char>::empty(),
        ));
        assert(json_escaped(Seq::<char>::empty()) =~= Seq::<char>::empty());
        assert(escape_char(c) + Seq::<char>::empty() =~= escape_char(c));
        assert(json_escaped(s) =~= Seq::<char>::empty());
        assert(Seq::<char>::empty() + escape_char(c) =~= escape_char(c));
    } else {
        assert(s.push(c)[0] == s[0]);
        assert(s.push(c).drop_first() =~= s.drop_first().push(c));
        lemma_json_escaped_snoc(s.drop_first(), c);
        assert(json_escaped(s.push(c)) =~= json_escaped(s) + escape_char(c));
    }
}

/// Extending the array items by one course appends a comma (after a
/// non-empty prefix) and that course's object.
pub(crate) proof fn lemma_courses_json_items_snoc(cs: Seq<CourseV>, c: CourseV)
    ensures
        cs.len() == 0 ==> courses_json_items(cs.push(c)) == course_json(c),
        cs.len() > 0 ==> courses_json_items(cs.push(c)) == courses_json_items(cs) + ","@
            + course_json(c),
    decreases cs.len(),
{
    if cs.len() == 0 {
        assert(cs.push(c)[0] == c);
    } else {
        assert(cs.push(c)[0] == cs[0]);
        assert(cs.push(c).drop_first() =~= cs.drop_first().push(c));
        lemma_courses_json_items_snoc(cs.drop_first(), c);
        if cs.len() == 1 {
            assert(courses_json_items(cs.push(c)) =~= courses_json_items(cs) + ","@ + course_json(
                c,
            ));
        } else {
            assert(courses_json_items(cs.push(c)) =~= courses_json_items(cs) + ","@ + course_json(
                c,
            ));
        }
    }
}

fn hex_digit_char(d: u32) -> (c: char)
    requires
        d < 16,
    ensures
        c == hex_digit(d as nat),
{
    if d == 0 {
        '0'
    } else if d == 1 {
        '1'
    } else if d == 2 {
        '2'
    } else if d == 3 {
        '3'
    } else if d == 4 {
        '4'
    } else if d == 5 {
        '5'
    } else if d == 6 {
        '6'
    } else if d == 7 {
        '7'
    } else if d == 8 {
        '8'
    } else if d == 9 {
        '9'
    } else if d == 10 {
        'a'
    } else if d == 11 {
        'b'
    } else if d == 12 {
        'c'
    } else if d == 13 {
        'd'
    } else if d == 14 {
        'e'
    } else {
        'f'
    }
}

fn push_escaped(out: &mut Vec<char>, c: char)
    ensures
        final(out)@ == old(out)@ + escape_char(c),
{
    if c == '"' {
        out.push('\\');
        out.push('"');
    } else if c == '\\' {
        out.push('\\');
        out.push('\\');
    } else if c == '\u{8}' {
        out.push('\\');
        out.push('b');
    } else if c == '\t' {
        out.push('\\');
        out.push('t');
    } else if c == '\n' {
        out.push('\\');
        out.push('n');
    } else if c == '\u{c}' {
        out.push('\\');
        out.push('f');
    } else if c == '\r' {
        out.push('\\');
        out.push('r');
    } else if (c as u32) < 0x20 {
        out.push('\\');
        out.push('u');
        out.push('0');
        out.push('0');
        out.push(hex_digit_char((c as u32) / 16));
        out.push(hex_digit_char((c as u32) % 16));
    } else {
        out.push(c);
    }
    assert(final(out)@ =~= old(out)@ + escape_char(c));
}

/// A JSON string literal holding the given text, escaped.
pub fn json_string_of(s: &str) -> (r: String)
    ensures
        r@ == json_string(s@),
{
    let n = s.unicode_len();
    let mut out: Vec<char> = Vec::new();
    out.push('"');
    let mut i: usize = 0;
    while i < n
        invariant
            n == s@.len(),
            i <= n,
            out@ == seq!['"'] + json_escaped(s@.subrange(0, i as int)),
        decreases n - i,
    {
        let c = s.get_char(i);
        proof {
            assert(s@.subrange(0, i + 1 as int) =~= s@.subrange(0, i as int).push(s@[i as int]));
            lemma_json_escaped_snoc(s@.subrange(0, i as int), s@[i as int]);
        }
        push_escaped(&mut out, c);
        i = i + 1;
    }
    out.push('"');
    proof {
        assert(s@.subrange(0, n as int) =~= s@);
        assert(out@ =~= json_string(s@));
    }
    string_of_chars(&out)
}

/// The JSON value for a course's posting time.
fn posted_time_json_of(t: &Option<crate::time::Timestamp>) -> (r: String)
    ensures
        r@ == posted_time_json(crate::models::time_view(*t)),
{
    match t {
        Some(ts) => {
            match format_timestamp(ts.micros) {
                Some(text) => {
                    let mut out = String::from_str("\"");
                    out.append(text.as_str());
                    out.append("\"");
                    proof {
                        reveal_strlit("\"");
                        assert(out@ =~= posted_time_json(Some(ts.micros)));
                    }
                    out
                },
                None => String::from_str("null"),
            }
        },
        None => String::from_str("null"),
    }
}

/// The JSON object for one course.
pub fn course_to_json(c: &Course) -> (r: String)
    ensures
        r@ == course_json(c@),
{
    let mut out = String::from_str("{\"tutor_id\":");
    let tutor_text = c.tutor_id.to_text();
    out.append(json_string_of(tutor_text.as_str()).as_str());
    out.append(",\"course_id\":");
    let course_text = c.course_id.to_text();
    out.append(json_string_of(course_text.as_str()).as_str());
    out.append(",\"course_name\":");
    out.append(json_string_of(c.course_name.as_str()).as_str());
    out.append(",\"posted_time\":");
    out.append(posted_time_json_of(&c.posted_time).as_str());
    out.append("}");
    out
}

} // verus!
