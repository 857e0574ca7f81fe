//! The instruction handler: one transfer of a fixed amount from the first
//! account to the second, carried out by the system program.

use vstd::prelude::*;
use solana_program::account_info::AccountInfo;
use solana_program::instruction::Instruction;
use solana_program::program::invoke;
use solana_program::program_error::ProgramError;
use solana_program::pubkey::Pubkey;
use solana_program::system_instruction::transfer;
use crate::host::{account_at, account_key, system_transfer};

verus! {

/// The amount that every invocation moves, in lamports.
pub const TRANSFER_LAMPORTS: u64 = 150000;

/// The number of accounts that an invocation needs: the source, the
/// destination and the system program, in this order.
pub const REQUIRED_ACCOUNTS: usize = 3;

/// Why an invocation failed.
#[derive(Debug, PartialEq, Eq)]
pub enum TransferError {
    /// Fewer than three accounts were supplied. The runtime was not called.
    MissingAccount,
    /// The runtime refused the transfer; this is its error, as it came.
    Host(ProgramError),
}

/// What the handler gives the runtime to carry out.
pub struct TransferRequest<'a> {
    /// The system program's transfer instruction.
    pub instruction: Instruction,
    /// Handles on the source, the destination and the system program.
    pub accounts: [AccountInfo<'a>; 3],
}

impl<'a> TransferRequest<'a> {
    /// Whether this is the request that an invocation on `accounts` makes: a
    /// transfer of [`TRANSFER_LAMPORTS`] from the address of the first account
    /// to the address of the second, with the first three accounts attached in
    /// their order. No request is made for fewer than three accounts.
    pub open spec fn is_for(self, accounts: Seq<AccountInfo>) -> bool {
        &&& accounts.len() >= REQUIRED_ACCOUNTS
        &&& self.instruction == system_transfer(
            account_key(accounts[0]),
            account_key(accounts[1]),
            TRANSFER_LAMPORTS,
        )
        &&& self.accounts@ == seq![accounts[0], accounts[1], accounts[2]]
    }
}

/// What an invocation returns once the runtime has answered: success as it
/// is, and the runtime's error unchanged inside [`TransferError::Host`].
pub open spec fn outcome(answer: Result<(), ProgramError>) -> Result<(), TransferError> {
    match answer {
        Ok(_) => Ok(()),
        Err(error) => Err(TransferError::Host(error)),
    }
}

/// Picks the three accounts by position and builds the request for the
/// runtime. Accounts after the third are left aside.
pub fn prepare_transfer<'a>(accounts: &[AccountInfo<'a>]) -> (r: Result<
    TransferRequest<'a>,
    TransferError,
>)
    ensures
        accounts@.len() < REQUIRED_ACCOUNTS ==> r == Err::<TransferRequest<'a>, TransferError>(
            TransferError::MissingAccount,
        ),
        accounts@.len() >= REQUIRED_ACCOUNTS ==> r is Ok && r.unwrap().is_for(accounts@),
{
    let source = match account_at(accounts, 0) {
        Some(account) => account,
        None => {
            return Err(TransferError::MissingAccount);
        },
    };
    let destination = match account_at(accounts, 1) {
        Some(account) => account,
        None => {
            return Err(TransferError::MissingAccount);
        },
    };
    let system_program = match account_at(accounts, 2) {
        Some(account) => account,
        None => {
            return Err(TransferError::MissingAccount);
        },
    };
    let instruction = transfer(
        source.unsigned_key(),
        destination.unsigned_key(),
        TRANSFER_LAMPORTS,
    );
    let request = TransferRequest {
        instruction,
        accounts: [source.clone(), destination.clone(), system_program.clone()],
    };
    Ok(request)
}

/// Turns the runtime's answer into the invocation's result.
pub fn conclude(answer: Result<(), ProgramError>) -> (r: Result<(), TransferError>)
    ensures
        r == outcome(answer),
{
    match answer {
        Ok(()) => Ok(()),
        Err(error) => Err(TransferError::Host(error)),
    }
}

/// Handles one invocation: asks the runtime to move [`TRANSFER_LAMPORTS`]
/// from the first account to the second and returns what the runtime
/// answered. The program's identity and the instruction data are not read.
///
/// With fewer than three accounts the runtime is not called. Otherwise it is
/// called once, with the request of [`prepare_transfer`], and the result is
/// [`outcome`] of its answer; which answer that is rests with the runtime.
pub fn process_instruction(
    _program_id: &Pubkey,
    accounts: &[AccountInfo],
    _instruction_data: &[u8],
) -> (r: Result<(), TransferError>)
    ensures
        accounts@.len() < REQUIRED_ACCOUNTS ==> r == Err::<(), TransferError>(
            TransferError::MissingAccount,
        ),
        accounts@.len() >= REQUIRED_ACCOUNTS ==> r is Ok || r matches Err(
            TransferError::Host(_),
        ),
{
    let request = match prepare_transfer(accounts) {
        Ok(request) => request,
        Err(error) => {
            return Err(error);
        },
    };
    let answer = invoke(&request.instruction, &request.accounts);
    conclude(answer)
}

/// The request depends on the account list alone. Nothing is kept from one
/// invocation to the next, so a second invocation on the same accounts asks
/// for the same transfer again.
pub proof fn request_is_determined(
    accounts: Seq<AccountInfo>,
    first: TransferRequest,
    second: TransferRequest,
)
    requires
        first.is_for(accounts),
        second.is_for(accounts),
    ensures
        first == second,
{
    assert(first.accounts =~= second.accounts);
}

} // verus!
