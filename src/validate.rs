use vstd::prelude::*;
use vstd::string::StrSliceExecFns;

use crate::error::ErrorCode;
use crate::layout::{MAX_ESSAY_CHARS, MAX_TITLE_CHARS};

verus! {

/// The first rule that `title` and `essay` break, checked in the order
/// empty title, title too long, essay too long; `None` when both are valid.
/// Lengths are counted in characters, not bytes.
pub open spec fn review_violation(title: Seq<char>, essay: Seq<char>) -> Option<ErrorCode> {
    if title.len() == 0 {
        Some(ErrorCode::TitleRequired)
    } else if title.len() > MAX_TITLE_CHARS {
        Some(ErrorCode::TitleTooLong)
    } else if essay.len() > MAX_ESSAY_CHARS {
        Some(ErrorCode::ReviewTooLong)
    } else {
        None
    }
}

/// Both fields are within their bounds.
pub open spec fn valid_review_fields(title: Seq<char>, essay: Seq<char>) -> bool {
    review_violation(title, essay) is None
}

/// Checks a review's title and essay, reporting the first rule broken.
pub fn validate_review(title: &str, essay: &str) -> (r: Result<(), ErrorCode>)
    ensures
        r is Ok <==> valid_review_fields(title@, essay@),
        r is Err ==> review_violation(title@, essay@) == Some(r->Err_0),
{
    let title_chars = title.unicode_len();
    if title_chars < 1 {
        return Err(ErrorCode::TitleRequired);
    }
    if title_chars > MAX_TITLE_CHARS {
        return Err(ErrorCode::TitleTooLong);
    }
    if essay.unicode_len() > MAX_ESSAY_CHARS {
        return Err(ErrorCode::ReviewTooLong);
    }
    Ok(())
}

} // verus!
