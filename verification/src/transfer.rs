//! The two ways of moving funds between accounts: on the signature of the
//! source, or on seeds that derive the address of the source.
//!
//! A transfer is checked as the ledger checks it, applied to the accounts at
//! hand, and handed back as the instruction that tells the ledger to do the
//! same.

use vstd::prelude::*;
use crate::account::{AccountInfo, Signer};
use crate::error::ProgramError;
use crate::pubkey::{create_program_address, derived_address, id, program_id, Pubkey};

verus! {

/// An account that an instruction names, and what the instruction may do
/// with it.
#[derive(Clone, Copy, Debug, PartialEq, Eq)]
pub struct AccountMeta {
    /// The address of the account.
    pub pubkey: Pubkey,
    /// Whether the instruction needs the authority of the account.
    pub is_signer: bool,
    /// Whether the instruction may change the account.
    pub is_writable: bool,
}

/// An instruction to a program of the ledger.
#[derive(Debug, PartialEq, Eq)]
pub struct Instruction {
    /// The program that executes the instruction.
    pub program_id: Pubkey,
    /// The accounts that the instruction names, in the program's order.
    pub accounts: Vec<AccountMeta>,
    /// What the program is to do, in the program's own encoding.
    pub data: Vec<u8>,
}

/// The encoding of "transfer `lamports`" that the ledger's system program
/// reads.
pub uninterp spec fn transfer_data(lamports: u64) -> Seq<u8>;

impl Instruction {
    /// Whether this instruction tells the system program to move `lamports`
    /// from `from`, on its authority, to `to`.
    pub open spec fn is_transfer(self, from: Pubkey, to: Pubkey, lamports: u64) -> bool {
        &&& self.program_id.is_zero()
        &&& self.accounts@ == seq![
            AccountMeta { pubkey: from, is_signer: true, is_writable: true },
            AccountMeta { pubkey: to, is_signer: false, is_writable: true },
        ]
        &&& self.data@ == transfer_data(lamports)
    }
}

/// Calls `solana_program::system_instruction::transfer`.
///
/// Trusted, not proved: the instruction goes to the system program, whose
/// address is all zero; it names `from` as writable and signing, then `to` as
/// writable; its data are a function of `lamports` alone, here called
/// `transfer_data`.
#[verifier::external_body]
pub(crate) fn system_transfer(from: &Pubkey, to: &Pubkey, lamports: u64) -> (r: Instruction)
    ensures
        r.program_id.is_zero(),
        r.accounts@ == seq![
            AccountMeta { pubkey: *from, is_signer: true, is_writable: true },
            AccountMeta { pubkey: *to, is_signer: false, is_writable: true },
        ],
        r.data@ == transfer_data(lamports),
{
    let source = solana_program::pubkey::Pubkey::new_from_array(from.bytes);
    let target = solana_program::pubkey::Pubkey::new_from_array(to.bytes);
    let made = solana_program::system_instruction::transfer(&source, &target, lamports);
    Instruction {
        program_id: Pubkey { bytes: made.program_id.to_bytes() },
        accounts: made.accounts.iter().map(|meta| AccountMeta {
            pubkey: Pubkey { bytes: meta.pubkey.to_bytes() },
            is_signer: meta.is_signer,
            is_writable: meta.is_writable,
        }).collect(),
        data: made.data,
    }
}

/// What the ledger answers to a transfer of `amount` from `source` to
/// `destination`, once it has accepted the authority over `source`.
pub open spec fn transfer_outcome(source: AccountInfo, destination: AccountInfo, amount: u64) -> Result<
    (),
    ProgramError,
> {
    if source.lamports < amount {
        Err(ProgramError::InsufficientFunds)
    } else if destination.lamports + amount > u64::MAX {
        Err(ProgramError::ArithmeticOverflow)
    } else {
        Ok(())
    }
}

/// What the ledger answers to a transfer out of `source` that is authorized
/// by seeds: `authority` is the address that the seeds derive.
pub open spec fn authorized_outcome(
    source: AccountInfo,
    destination: AccountInfo,
    authority: Option<Pubkey>,
    amount: u64,
) -> Result<(), ProgramError> {
    match authority {
        None => Err(ProgramError::InvalidSeeds),
        Some(address) => if address != source.key {
            Err(ProgramError::MissingRequiredSignature)
        } else {
            transfer_outcome(source, destination, amount)
        },
    }
}

/// The answer alone: whether an instruction was made, or why not.
pub open spec fn answer<E>(made: Result<Instruction, E>) -> Result<(), E> {
    match made {
        Ok(_) => Ok(()),
        Err(refusal) => Err(refusal),
    }
}

fn move_lamports(source: &mut AccountInfo, destination: &mut AccountInfo, amount: u64) -> (r: Result<
    Instruction,
    ProgramError,
>)
    ensures
        answer(r) == transfer_outcome(*old(source), *old(destination), amount),
        r matches Ok(instruction) ==> {
            &&& instruction.is_transfer(old(source).key, old(destination).key, amount)
            &&& *final(source) == old(source).debited(amount)
            &&& *final(destination) == old(destination).credited(amount)
        },
        r is Err ==> *final(source) == *old(source) && *final(destination) == *old(destination),
{
    if source.lamports < amount {
        return Err(ProgramError::InsufficientFunds);
    }
    match destination.lamports.checked_add(amount) {
        None => Err(ProgramError::ArithmeticOverflow),
        Some(raised) => {
            source.lamports = source.lamports - amount;
            destination.lamports = raised;
            Ok(system_transfer(&source.key, &destination.key, amount))
        },
    }
}

/// Moves `amount` from `source` to `destination` on the signature of
/// `source`, and gives the instruction for it. All or nothing: a refused
/// transfer changes neither account.
pub fn sol_transfer_user(source: &mut Signer, destination: &mut AccountInfo, amount: u64) -> (r: Result<
    Instruction,
    ProgramError,
>)
    ensures
        answer(r) == transfer_outcome(old(source).info, *old(destination), amount),
        r matches Ok(instruction) ==> {
            &&& instruction.is_transfer(old(source).info.key, old(destination).key, amount)
            &&& final(source).info == old(source).info.debited(amount)
            &&& *final(destination) == old(destination).credited(amount)
        },
        r is Err ==> *final(source) == *old(source) && *final(destination) == *old(destination),
{
    move_lamports(&mut source.info, destination, amount)
}

/// Moves `amount` from `source` to `destination` where `authority`, the
/// address that the caller's seeds derive, is the address of `source`, and
/// gives the instruction for it. All or nothing: a refused transfer changes
/// neither account.
pub fn transfer_with_authority(
    source: &mut AccountInfo,
    destination: &mut AccountInfo,
    authority: Option<Pubkey>,
    amount: u64,
) -> (r: Result<Instruction, ProgramError>)
    ensures
        answer(r) == authorized_outcome(*old(source), *old(destination), authority, amount),
        r matches Ok(instruction) ==> {
            &&& instruction.is_transfer(old(source).key, old(destination).key, amount)
            &&& *final(source) == old(source).debited(amount)
            &&& *final(destination) == old(destination).credited(amount)
        },
        r is Err ==> *final(source) == *old(source) && *final(destination) == *old(destination),
{
    match authority {
        None => Err(ProgramError::InvalidSeeds),
        Some(address) => {
            if address != source.key {
                Err(ProgramError::MissingRequiredSignature)
            } else {
                move_lamports(source, destination, amount)
            }
        },
    }
}

/// Moves `amount` from `source` to `destination` with no signature of
/// `source`, and gives the instruction for it: the transfer is accepted
/// where `signers`, the seeds handed over, derive the address of `source`
/// for this program. All or nothing.
pub fn sol_transfer_with_signer(
    source: &mut AccountInfo,
    destination: &mut AccountInfo,
    signers: &Vec<Vec<u8>>,
    amount: u64,
) -> (r: Result<Instruction, ProgramError>)
    ensures
        answer(r) == authorized_outcome(
            *old(source),
            *old(destination),
            derived_address(signers.deep_view(), program_id()),
            amount,
        ),
        r matches Ok(instruction) ==> {
            &&& instruction.is_transfer(old(source).key, old(destination).key, amount)
            &&& *final(source) == old(source).debited(amount)
            &&& *final(destination) == old(destination).credited(amount)
        },
        r is Err ==> *final(source) == *old(source) && *final(destination) == *old(destination),
{
    let program = id();
    let authority = create_program_address(signers, &program);
    transfer_with_authority(source, destination, authority, amount)
}

} // verus!
