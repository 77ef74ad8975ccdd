//! The vertical translation domains the vendor supports.

use vstd::prelude::*;

use crate::canon::str_eq;

verus! {

/// A vertical (subject-matter) translation profile.  The wire code of the
/// chosen domain is both a form field and part of the signature input.
#[derive(Debug, Clone, Copy, PartialEq, Eq, Structural)]
pub enum Domain {
    /// Electronics and technology; Chinese to English.
    Electronics,
    /// Finance; Chinese to English and English to Chinese.
    Finance,
    /// Water and mechanical engineering; Chinese to English.
    Mechanics,
    /// Biology and medicine; Chinese to English and English to Chinese.
    Medicine,
    /// Web fiction; Chinese to English.
    Novel,
}

impl Domain {
    /// The code for this domain as it appears on the wire.
    pub open spec fn spec_code(self) -> Seq<char> {
        match self {
            Domain::Electronics => "electronics"@,
            Domain::Finance => "finance"@,
            Domain::Mechanics => "mechanics"@,
            Domain::Medicine => "medicine"@,
            Domain::Novel => "novel"@,
        }
    }

    /// Render the domain code that is sent in the `domain` field.
    pub fn code(&self) -> (r: &'static str)
        ensures
            r@ == self.spec_code(),
    {
        match self {
            Domain::Electronics => "electronics",
            Domain::Finance => "finance",
            Domain::Mechanics => "mechanics",
            Domain::Medicine => "medicine",
            Domain::Novel => "novel",
        }
    }

    /// Parse a domain code; `None` for anything that is not the code of a
    /// supported domain.
    pub fn from_code(s: &str) -> (r: Option<Domain>)
        ensures
            match r {
                Some(d) => s@ == d.spec_code(),
                None => forall|d: Domain| s@ != #[trigger] d.spec_code(),
            },
    {
        if str_eq(s, "electronics") {
            Some(Domain::Electronics)
        } else if str_eq(s, "finance") {
            Some(Domain::Finance)
        } else if str_eq(s, "mechanics") {
            Some(Domain::Mechanics)
        } else if str_eq(s, "medicine") {
            Some(Domain::Medicine)
        } else if str_eq(s, "novel") {
            Some(Domain::Novel)
        } else {
            proof {
                assert forall|d: Domain| s@ != #[trigger] d.spec_code() by {
                    match d {
                        Domain::Electronics => {},
                        Domain::Finance => {},
                        Domain::Mechanics => {},
                        Domain::Medicine => {},
                        Domain::Novel => {},
                    }
                }
            }
            None
        }
    }
}

} // verus!
