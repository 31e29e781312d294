//! The data model of the database-backed variant of the service.
//!
//! Rows carry an aggregate course count, an enrollment count and limit, and
//! a decimal rating. The decimal is held here as a plain mantissa-and-scale
//! pair; the database driver converts at the edge.

use vstd::prelude::*;

use crate::ids::Id;

verus! {

/// A decimal number: `mantissa / 10^scale`.
#[derive(Clone, Copy, PartialEq, Eq, Structural, Debug)]
pub struct Decimal {
    pub mantissa: i64,
    pub scale: u32,
}

impl Decimal {
    /// Whether this decimal is exactly zero.
    pub open spec fn is_zero(self) -> bool {
        self.mantissa == 0
    }

    /// The decimal zero.
    pub fn zero() -> (d: Decimal)
        ensures
            d.is_zero(),
    {
        Decimal { mantissa: 0, scale: 0 }
    }
}

/// A tutor row: identity, name, email, aggregate course count, rating.
pub struct Tutor {
    pub id: Id,
    pub name: String,
    pub email: String,
    pub courses: i64,
    pub rating: Decimal,
}

impl Tutor {
    /// A fresh tutor row: a newly drawn identity (never the nil identity),
    /// the given name and email, no courses yet, and a zero rating.
    pub fn new(name: String, email: String) -> (t: Tutor)
        ensures
            t.id.value != 0,
            t.name@ == name@,
            t.email@ == email@,
            t.courses == 0,
            t.rating.is_zero(),
    {
        Tutor { id: Id::fresh(), name, email, courses: 0, rating: Decimal::zero() }
    }
}

/// A course row: identity, owning tutor, name, optional rating text, and
/// the enrollment count and limit.
pub struct Course {
    pub id: Id,
    pub tutor_id: Id,
    pub name: String,
    pub rating: Option<String>,
    pub enrolled: i64,
    pub enrolled_limit: i64,
}

} // verus!
