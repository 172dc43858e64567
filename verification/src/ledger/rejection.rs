//! The refusal of a field.

use vstd::prelude::*;

verus! {

/// A field that was refused: which one, what was expected there and what stood
/// there.
#[derive(Debug, PartialEq, Eq)]
pub struct Rejection {
    pub field: String,
    pub expected: String,
    pub actual: String,
}

/// The three texts of a refusal.
pub struct RejectionView {
    pub field: Seq<char>,
    pub expected: Seq<char>,
    pub actual: Seq<char>,
}

impl View for Rejection {
    type V = RejectionView;

    open spec fn view(&self) -> RejectionView {
        RejectionView { field: self.field@, expected: self.expected@, actual: self.actual@ }
    }
}

impl Clone for Rejection {
    fn clone(&self) -> (copy: Self)
        ensures
            copy == *self,
    {
        Self {
            field: self.field.clone(),
            expected: self.expected.clone(),
            actual: self.actual.clone(),
        }
    }
}

impl Rejection {
    /// A refusal with these three texts.
    pub fn of(field: &str, expected: &str, actual: &str) -> (rejection: Self)
        ensures
            rejection@ == (RejectionView {
                field: field@,
                expected: expected@,
                actual: actual@,
            }),
    {
        Self {
            field: field.to_owned(),
            expected: expected.to_owned(),
            actual: actual.to_owned(),
        }
    }
}

/// The refusal that comes first.
pub open spec fn first(
    one: Option<RejectionView>,
    other: Option<RejectionView>,
) -> Option<RejectionView> {
    if one is Some {
        one
    } else {
        other
    }
}

/// A refusal is read by its three texts, and the first of two refusals is the one that
/// stands where both could.
pub proof fn law_the_first_refusal_stands(
    rejection: Rejection,
    one: Option<RejectionView>,
    other: Option<RejectionView>,
)
    ensures
        rejection@.field == rejection.field@,
        rejection@.expected == rejection.expected@,
        rejection@.actual == rejection.actual@,
        one is Some ==> first(one, other) == one,
        one is None ==> first(one, other) == other,
{
}

} // verus!
