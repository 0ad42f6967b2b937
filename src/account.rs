use vstd::prelude::*;

verus! {

/// A storage slot owned by the program: the record it holds, if any, and the
/// lamports deposited to pay for its storage.
pub struct Slot<T> {
    pub data: Option<T>,
    pub lamports: u64,
}

impl<T> Slot<T> {
    /// A slot holding no record, funded with `lamports`.
    pub fn empty(lamports: u64) -> (r: Slot<T>)
        ensures
            r.data is None,
            r.lamports == lamports,
    {
        Slot { data: None, lamports }
    }

    /// Whether a record is stored in the slot.
    pub fn is_initialized(&self) -> (r: bool)
        ensures
            r == self.data is Some,
    {
        self.data.is_some()
    }
}

/// Why an operation on an account was refused.
#[derive(Clone, Copy, Debug, PartialEq, Eq, Structural)]
pub enum AccountError {
    /// The review's fields break a rule.
    Invalid(crate::error::ErrorCode),
    /// The target slot already holds a record.
    AlreadyInitialized,
    /// The slot holds no record to act on.
    NotInitialized,
    /// The signer is not the record's author.
    Unauthorized,
    /// The refund would overflow the receiving account's lamports.
    LamportsOverflow,
    /// The runtime's clock could not be read.
    ClockUnavailable,
}

} // verus!
