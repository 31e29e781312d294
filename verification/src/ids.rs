//! Opaque identities for tutors and courses.
//!
//! The service never looks inside an identity: it generates fresh ones,
//! compares them, parses them from request text, and prints them into
//! response bodies. The 128-bit value is the in-memory face of a UUID.

use vstd::prelude::*;

verus! {

/// An opaque 128-bit identity.
#[derive(Clone, Copy, PartialEq, Eq, Structural, Debug)]
pub struct Id {
    pub value: u128,
}

/// What `uuid::Uuid::parse_str` makes of a piece of text: the 128-bit value
/// the text denotes, or nothing when the text is not a well-formed UUID.
/// The result depends on the characters alone.
pub uninterp spec fn uuid_parse(s: Seq<char>) -> Option<u128>;

/// The canonical textual form of a 128-bit identity: the lowercase
/// hyphenated rendering that `uuid::Uuid`'s `Display` produces, a function
/// of the value alone.
pub uninterp spec fn uuid_display(v: u128) -> Seq<char>;

impl Id {
    /// Relies on `uuid::Uuid::new_v4`: a randomly drawn identity. Nothing is
    /// promised of the drawn value beyond what the stamped version and
    /// variant bits force: the result is never the all-zero (nil) value.
    #[verifier::external_body]
    pub(crate) fn fresh() -> (r: Id)
        ensures
            r.value != 0,
    {
        Id { value: uuid::Uuid::new_v4().as_u128() }
    }

    /// Relies on `uuid::Uuid::parse_str`: returns the value a well-formed
    /// UUID text denotes, and nothing on malformed text.
    #[verifier::external_body]
    pub(crate) fn parse(s: &str) -> (r: Option<Id>)
        ensures
            r matches Some(id) ==> uuid_parse(s@) == Some(id.value),
            r is None ==> uuid_parse(s@) is None,
    {
        match uuid::Uuid::parse_str(s) {
            Ok(u) => Some(Id { value: u.as_u128() }),
            Err(_) => None,
        }
    }

    /// Relies on `uuid::Uuid`'s `Display` through `to_string`: the lowercase
    /// hyphenated rendering of the value, a function of the value alone.
    #[verifier::external_body]
    pub(crate) fn to_text(&self) -> (r: String)
        ensures
            r@ == uuid_display(self.value),
    {
        uuid::Uuid::from_u128(self.value).to_string()
    }
}

} // verus!
