use vstd::prelude::*;

verus! {

/// The validation errors of a review.
#[derive(Clone, Copy, Debug, PartialEq, Eq, Structural)]
pub enum ErrorCode {
    TitleTooLong,
    ReviewTooLong,
    TitleRequired,
}

impl ErrorCode {
    /// The message shown to the user for this error.
    pub fn message(&self) -> (r: &'static str)
        ensures
            *self == ErrorCode::TitleTooLong ==> r@
                == "The provided title should be 50 characters long maximum."@,
            *self == ErrorCode::ReviewTooLong ==> r@
                == "The provided review should be 280 characters long maximum."@,
            *self == ErrorCode::TitleRequired ==> r@ == "Topic Required."@,
    {
        match self {
            ErrorCode::TitleTooLong => "The provided title should be 50 characters long maximum.",
            ErrorCode::ReviewTooLong => "The provided review should be 280 characters long maximum.",
            ErrorCode::TitleRequired => "Topic Required.",
        }
    }
}

} // verus!
