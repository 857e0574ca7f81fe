//! The runtime's side of an invocation, as far as the handler touches it.
//!
//! Nothing in this module is proved. It declares the runtime's types, which
//! the verifier carries through without looking inside, and states what the
//! handler relies on for each function of `solana_program` that it calls.

use vstd::prelude::*;
use solana_program::account_info::AccountInfo;
use solana_program::instruction::Instruction;
use solana_program::program_error::ProgramError;
use solana_program::pubkey::Pubkey;

verus! {

/// `solana_program::pubkey::Pubkey`, the address of an account.
#[verifier::external_type_specification]
#[verifier::external_body]
pub struct ExPubkey(solana_program::pubkey::Pubkey);

/// `solana_program::account_info::AccountInfo`, the runtime's handle on one
/// account. Its balance and data sit behind shared cells that the runtime
/// writes to, so no contract here speaks of them.
#[verifier::external_type_specification]
#[verifier::external_body]
pub struct ExAccountInfo<'a>(solana_program::account_info::AccountInfo<'a>);

/// `solana_program::instruction::Instruction`, a request to run a program.
#[verifier::external_type_specification]
#[verifier::external_body]
pub struct ExInstruction(solana_program::instruction::Instruction);

/// `solana_program::program_error::ProgramError`, the runtime's error.
#[verifier::external_type_specification]
#[verifier::external_body]
pub struct ExProgramError(solana_program::program_error::ProgramError);

/// The address that an account handle was made for: its field `key`, which
/// stays as it is for as long as the handle lives.
pub uninterp spec fn account_key(account: AccountInfo) -> Pubkey;

/// The instruction that `solana_program::system_instruction::transfer` builds
/// for a sender, a recipient and an amount. It addresses the system program,
/// lists the sender as a writable signer and the recipient as writable, and
/// carries the amount in its data.
pub uninterp spec fn system_transfer(from: Pubkey, to: Pubkey, lamports: u64) -> Instruction;

/// `AccountInfo::unsigned_key` hands out the handle's field `key`.
pub assume_specification<'a, 'b>[ AccountInfo::<'a>::unsigned_key ](
    account: &'b AccountInfo<'a>,
) -> (key: &'b Pubkey)
    ensures
        *key == account_key(*account),
;

/// Cloning an `AccountInfo` gives a second handle on the same account: the
/// same fields, the same shared cells.
pub assume_specification<'a>[ <AccountInfo<'a> as Clone>::clone ](
    account: &AccountInfo<'a>,
) -> (copy: AccountInfo<'a>)
    ensures
        copy == *account,
;

/// `system_instruction::transfer` depends on its three arguments alone; what
/// it returns goes by the name [`system_transfer`].
pub assume_specification[ solana_program::system_instruction::transfer ](
    from_pubkey: &Pubkey,
    to_pubkey: &Pubkey,
    lamports: u64,
) -> (instruction: Instruction)
    ensures
        instruction == system_transfer(*from_pubkey, *to_pubkey, lamports),
;

/// `program::invoke` hands an instruction and account handles to the runtime.
/// What comes back is the runtime's decision, so nothing is claimed of it. The
/// call does not panic: where a cell of a handle is borrowed it returns an
/// error.
pub assume_specification[ solana_program::program::invoke ](
    instruction: &Instruction,
    account_infos: &[AccountInfo],
) -> (answer: Result<(), ProgramError>)
;

/// The handle at `position`, taken as `next_account_info` takes the next one
/// from an iterator that has already yielded `position` of them: that
/// function returns the iterator's next item, or `NotEnoughAccountKeys`, its
/// only error, when the iterator is at its end.
#[verifier::external_body]
pub(crate) fn account_at<'a, 'b>(
    accounts: &'a [AccountInfo<'b>],
    position: usize,
) -> (account: Option<&'a AccountInfo<'b>>)
    ensures
        position < accounts@.len() ==> account == Some(&accounts@[position as int]),
        position >= accounts@.len() ==> account is None,
{
    solana_program::account_info::next_account_info(&mut accounts.iter().skip(position)).ok()
}

} // verus!
