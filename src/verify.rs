use vstd::prelude::*;

use crate::account::{AccountError, Slot};
use crate::clock::clock_unix_timestamp;
use crate::key::Key;
use crate::layout::{
    verify_space_spec, DISCRIMINATOR_LENGTH, PUBLIC_KEY_LENGTH, TIMESTAMP_LENGTH,
};

verus! {

/// An attestation that a review was checked, as stored on chain.
#[derive(Clone, Copy, Debug)]
pub struct Verify {
    pub author: Key,
    pub timestamp: i64,
    pub review_key: Key,
}

impl Verify {
    /// Bytes of a verification account.
    pub const LEN: usize = DISCRIMINATOR_LENGTH + PUBLIC_KEY_LENGTH + TIMESTAMP_LENGTH
        + PUBLIC_KEY_LENGTH;

    /// Bytes of a verification account.
    pub fn space() -> (r: usize)
        ensures
            r == verify_space_spec(),
    {
        Self::LEN
    }
}

/// The accounts of a verification's creation: the slot to write, and the
/// signer who pays for it and becomes its author.
pub struct VerifyReview {
    pub verify: Slot<Verify>,
    pub author: Key,
}

/// Creates a verification of the review at `review_key`, stamped with
/// `timestamp`: refused, with nothing changed, when the slot already holds a
/// record; otherwise the slot holds the new verification, by the signer.
/// The review key is stored as given, unchecked.
pub fn write_verification(ctx: &mut VerifyReview, timestamp: i64, review_key: Key) -> (r: Result<
    (),
    AccountError,
>)
    ensures
        final(ctx).author == old(ctx).author,
        final(ctx).verify.lamports == old(ctx).verify.lamports,
        old(ctx).verify.data is Some <==> r == Err::<(), AccountError>(
            AccountError::AlreadyInitialized,
        ),
        old(ctx).verify.data is None ==> r is Ok,
        r is Err ==> final(ctx).verify.data == old(ctx).verify.data,
        r is Ok ==> final(ctx).verify.data == Some(
            Verify { author: old(ctx).author, timestamp, review_key },
        ),
{
    if ctx.verify.is_initialized() {
        return Err(AccountError::AlreadyInitialized);
    }
    ctx.verify.data = Some(Verify { author: ctx.author, timestamp, review_key });
    Ok(())
}

/// Creates a verification stamped with the runtime's clock. Refused as
/// `write_verification` is; where the slot is empty and the clock cannot be
/// read, refused with `ClockUnavailable` and nothing changed; otherwise the
/// slot holds the new verification with the time read. `author_address` and
/// `verifier_keys` are accepted and not used.
pub fn verify_review(
    ctx: &mut VerifyReview,
    review_key: Key,
    author_address: Key,
    verifier_keys: Vec<String>,
) -> (r: Result<(), AccountError>)
    ensures
        final(ctx).author == old(ctx).author,
        final(ctx).verify.lamports == old(ctx).verify.lamports,
        old(ctx).verify.data is Some ==> r == Err::<(), AccountError>(
            AccountError::AlreadyInitialized,
        ),
        old(ctx).verify.data is None && r is Err ==> r == Err::<(), AccountError>(
            AccountError::ClockUnavailable,
        ),
        r is Err ==> final(ctx).verify.data == old(ctx).verify.data,
        r is Ok ==> final(ctx).verify.data is Some && final(ctx).verify.data->Some_0 == (Verify {
            author: old(ctx).author,
            timestamp: final(ctx).verify.data->Some_0.timestamp,
            review_key,
        }),
{
    if ctx.verify.is_initialized() {
        return Err(AccountError::AlreadyInitialized);
    }
    match clock_unix_timestamp() {
        Err(_) => Err(AccountError::ClockUnavailable),
        Ok(timestamp) => write_verification(ctx, timestamp, review_key),
    }
}

} // verus!
