use vstd::prelude::*;

use crate::account::{AccountError, Slot};
use crate::clock::clock_unix_timestamp;
use crate::error::ErrorCode;
use crate::key::Key;
use crate::layout::{
    review_space_spec, DISCRIMINATOR_LENGTH, MAX_CHAR_BYTES, MAX_ESSAY_CHARS, MAX_TITLE_CHARS,
    PUBLIC_KEY_LENGTH, REVIEW_RESERVED, STRING_LENGTH_PREFIX, TIMESTAMP_LENGTH,
};
use crate::validate::{review_violation, valid_review_fields, validate_review};

verus! {

/// A review of a film, as stored on chain.
#[derive(Debug)]
pub struct Review {
    pub author: Key,
    pub timestamp: i64,
    pub title: String,
    pub essay: String,
    pub rating: i32,
}

impl Review {
    /// Bytes of a review account, with the default reserved region.
    pub const LEN: usize = DISCRIMINATOR_LENGTH + PUBLIC_KEY_LENGTH + TIMESTAMP_LENGTH
        + STRING_LENGTH_PREFIX + MAX_TITLE_CHARS * MAX_CHAR_BYTES + STRING_LENGTH_PREFIX
        + MAX_ESSAY_CHARS * MAX_CHAR_BYTES + REVIEW_RESERVED;

    /// Bytes of a review account, with the default reserved region.
    pub fn space() -> (r: usize)
        ensures
            r == review_space_spec(REVIEW_RESERVED as nat),
    {
        Self::LEN
    }

    /// Whether `signer` may act on this review as its author.
    pub fn is_author(&self, signer: &Key) -> (r: bool)
        ensures
            r == (self.author@ == signer@),
    {
        self.author.same(signer)
    }
}

/// The accounts of a review's creation: the slot to write, and the signer
/// who pays for it and becomes its author.
pub struct PostReview {
    pub review: Slot<Review>,
    pub author: Key,
}

/// The accounts of a review's deletion: the review's slot, the signer, and
/// the signer's lamports, which receive the slot's deposit.
pub struct DeleteReview {
    pub review: Slot<Review>,
    pub author: Key,
    pub author_lamports: u64,
}

/// The review that `post` stores: its author is the signer.
pub open spec fn posted_review(
    author: Key,
    timestamp: i64,
    title: Seq<char>,
    essay: Seq<char>,
    rating: i32,
    r: Review,
) -> bool {
    &&& r.author@ == author@
    &&& r.timestamp == timestamp
    &&& r.title@ == title
    &&& r.essay@ == essay
    &&& r.rating == rating
}

/// What creating a review into `slot` yields before any clock is read: the
/// slot must be empty, then the fields must be valid.
pub open spec fn post_refusal(slot: Slot<Review>, title: Seq<char>, essay: Seq<char>) -> Option<
    AccountError,
> {
    if slot.data is Some {
        Some(AccountError::AlreadyInitialized)
    } else {
        match review_violation(title, essay) {
            Some(e) => Some(AccountError::Invalid(e)),
            None => None,
        }
    }
}

/// `after` is `before` with its review closed: the slot emptied and its
/// deposit refunded to the author.
pub open spec fn closed(before: DeleteReview, after: DeleteReview) -> bool {
    &&& after.review.data is None
    &&& after.review.lamports == 0
    &&& after.author == before.author
    &&& after.author_lamports == before.author_lamports + before.review.lamports
}

/// Creates a review stamped with `timestamp`: refused, with nothing changed,
/// when the slot already holds a record or a field breaks a rule; otherwise
/// the slot holds the new review, written by the signer.
pub fn write_review(
    ctx: &mut PostReview,
    timestamp: i64,
    title: String,
    essay: String,
    rating: i32,
) -> (r: Result<(), AccountError>)
    ensures
        final(ctx).author == old(ctx).author,
        final(ctx).review.lamports == old(ctx).review.lamports,
        r is Err <==> post_refusal(old(ctx).review, title@, essay@) is Some,
        r is Err ==> post_refusal(old(ctx).review, title@, essay@) == Some(r->Err_0)
            && final(ctx).review.data == old(ctx).review.data,
        r is Ok ==> final(ctx).review.data is Some && posted_review(
            old(ctx).author,
            timestamp,
            title@,
            essay@,
            rating,
            final(ctx).review.data->Some_0,
        ),
{
    if ctx.review.is_initialized() {
        return Err(AccountError::AlreadyInitialized);
    }
    match validate_review(title.as_str(), essay.as_str()) {
        Err(e) => Err(AccountError::Invalid(e)),
        Ok(()) => {
            ctx.review.data = Some(Review { author: ctx.author, timestamp, title, essay, rating });
            Ok(())
        },
    }
}

/// Creates a review stamped with the runtime's clock. Refused as
/// `write_review` is; where the fields are accepted and the clock cannot be
/// read, refused with `ClockUnavailable` and nothing changed; otherwise the
/// slot holds the new review with the time read.
pub fn post_review(
    ctx: &mut PostReview,
    title: String,
    essay: String,
    rating: i32,
    author_keys: Vec<Key>,
) -> (r: Result<(), AccountError>)
    ensures
        final(ctx).author == old(ctx).author,
        final(ctx).review.lamports == old(ctx).review.lamports,
        post_refusal(old(ctx).review, title@, essay@) is Some ==> r == Err::<(), AccountError>(
            post_refusal(old(ctx).review, title@, essay@)->Some_0,
        ),
        r is Err ==> final(ctx).review.data == old(ctx).review.data,
        r is Err ==> post_refusal(old(ctx).review, title@, essay@) is Some || r
            == Err::<(), AccountError>(AccountError::ClockUnavailable),
        r is Ok ==> final(ctx).review.data is Some && posted_review(
            old(ctx).author,
            final(ctx).review.data->Some_0.timestamp,
            title@,
            essay@,
            rating,
            final(ctx).review.data->Some_0,
        ),
{
    if ctx.review.is_initialized() {
        return Err(AccountError::AlreadyInitialized);
    }
    if let Err(e) = validate_review(title.as_str(), essay.as_str()) {
        return Err(AccountError::Invalid(e));
    }
    match clock_unix_timestamp() {
        Err(_) => Err(AccountError::ClockUnavailable),
        Ok(timestamp) => write_review(ctx, timestamp, title, essay, rating),
    }
}

/// Closes a review: refused, with nothing changed, when the slot holds no
/// record, when the signer is not its author, or when the refund would
/// overflow the signer's lamports; otherwise the slot is emptied and its
/// whole deposit moves to the author.
pub fn delete_review(ctx: &mut DeleteReview) -> (r: Result<(), AccountError>)
    ensures
        final(ctx).author == old(ctx).author,
        old(ctx).review.data is None ==> r == Err::<(), AccountError>(
            AccountError::NotInitialized,
        ),
        old(ctx).review.data is Some && old(ctx).review.data->Some_0.author@ != old(ctx).author@
            ==> r == Err::<(), AccountError>(AccountError::Unauthorized),
        old(ctx).review.data is Some && old(ctx).review.data->Some_0.author@ == old(ctx).author@
            ==> if old(ctx).author_lamports + old(ctx).review.lamports > u64::MAX {
            r == Err::<(), AccountError>(AccountError::LamportsOverflow)
        } else {
            r is Ok
        },
        r is Err ==> final(ctx).review == old(ctx).review && final(ctx).author_lamports == old(
            ctx,
        ).author_lamports,
        r is Ok ==> closed(*old(ctx), *final(ctx)),
{
    match &ctx.review.data {
        None => {
            return Err(AccountError::NotInitialized);
        },
        Some(review) => {
            if !review.is_author(&ctx.author) {
                return Err(AccountError::Unauthorized);
            }
        },
    }
    let refund = ctx.review.lamports;
    if refund > u64::MAX - ctx.author_lamports {
        return Err(AccountError::LamportsOverflow);
    }
    ctx.author_lamports = ctx.author_lamports + refund;
    ctx.review.lamports = 0;
    ctx.review.data = None;
    Ok(())
}

/// An empty title is refused with `TitleRequired`, whatever the essay.
pub proof fn empty_title_is_required(slot: Slot<Review>, title: Seq<char>, essay: Seq<char>)
    requires
        slot.data is None,
        title.len() == 0,
    ensures
        post_refusal(slot, title, essay) == Some(AccountError::Invalid(ErrorCode::TitleRequired)),
{
}

/// A title of 1 to 50 characters with an essay of at most 280 is accepted
/// into an empty slot, and the record then holds exactly those fields.
pub proof fn valid_fields_are_accepted(
    slot: Slot<Review>,
    author: Key,
    timestamp: i64,
    title: Seq<char>,
    essay: Seq<char>,
    rating: i32,
    stored: Review,
)
    requires
        slot.data is None,
        1 <= title.len() <= MAX_TITLE_CHARS,
        essay.len() <= MAX_ESSAY_CHARS,
        posted_review(author, timestamp, title, essay, rating, stored),
    ensures
        post_refusal(slot, title, essay) is None,
        valid_review_fields(title, essay),
        stored.title@ == title,
        stored.essay@ == essay,
{
}

/// A title over 50 characters is refused with `TitleTooLong`, whatever the
/// essay.
pub proof fn long_title_is_refused(slot: Slot<Review>, title: Seq<char>, essay: Seq<char>)
    requires
        slot.data is None,
        title.len() > MAX_TITLE_CHARS,
    ensures
        post_refusal(slot, title, essay) == Some(AccountError::Invalid(ErrorCode::TitleTooLong)),
{
}

/// An essay over 280 characters under a valid title is refused with
/// `ReviewTooLong`.
pub proof fn long_essay_is_refused(slot: Slot<Review>, title: Seq<char>, essay: Seq<char>)
    requires
        slot.data is None,
        1 <= title.len() <= MAX_TITLE_CHARS,
        essay.len() > MAX_ESSAY_CHARS,
    ensures
        post_refusal(slot, title, essay) == Some(AccountError::Invalid(ErrorCode::ReviewTooLong)),
{
}

/// Once a review is written into a slot, a second creation into that slot
/// is refused as already initialized, not as a validation error, whatever
/// its fields.
pub proof fn second_post_is_refused(
    first: PostReview,
    second: PostReview,
    timestamp: i64,
    title: Seq<char>,
    essay: Seq<char>,
    rating: i32,
    next_title: Seq<char>,
    next_essay: Seq<char>,
)
    requires
        post_refusal(first.review, title, essay) is None,
        second.review.data is Some,
        posted_review(first.author, timestamp, title, essay, rating, second.review.data->Some_0),
    ensures
        post_refusal(second.review, next_title, next_essay) == Some(
            AccountError::AlreadyInitialized,
        ),
{
}

/// Closing a review by its author refunds the whole deposit to the author
/// and leaves the slot empty, so that a new review with valid fields is
/// accepted into it.
pub proof fn closed_slot_is_reusable(
    before: DeleteReview,
    after: DeleteReview,
    title: Seq<char>,
    essay: Seq<char>,
)
    requires
        closed(before, after),
        valid_review_fields(title, essay),
    ensures
        after.author_lamports == before.author_lamports + before.review.lamports,
        after.review.lamports == 0,
        post_refusal(after.review, title, essay) is None,
{
}

} // verus!
