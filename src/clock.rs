use vstd::prelude::*;
use anchor_lang::solana_program::clock::Clock;
use anchor_lang::solana_program::program_error::ProgramError;
use anchor_lang::solana_program::sysvar::Sysvar;

verus! {

/// Errors that the host runtime reports.
#[verifier::external_type_specification]
#[verifier::external_body]
pub struct ExProgramError(ProgramError);

/// Relies on `Clock::get` of solana-program (the `Sysvar` impl for `Clock`):
/// reads the runtime's clock sysvar and fails where the runtime offers none.
/// The time read is whatever the runtime holds, so nothing is promised of it.
#[verifier::external_body]
pub(crate) fn clock_unix_timestamp() -> (r: Result<i64, ProgramError>) {
    Clock::get().map(|clock| clock.unix_timestamp)
}

} // verus!
