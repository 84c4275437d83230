//! The six requests that the faucet serves.
//!
//! Each request names the accounts it touches, checks who calls and what the
//! rules allow, and only then changes anything: a request that is rejected
//! leaves every account and record as it found them.

use vstd::prelude::*;
use crate::account::{has_balance, AccountInfo, Signer};
use crate::error::{Error, ErrorCode, ProgramError};
use crate::pubkey::{derived_address, program_id, vault_seeds, vault_signer_seeds, Pubkey};
use crate::state::{GlobalState, UserPool, TX_FEE};
use crate::transfer::{
    answer,
    authorized_outcome,
    sol_transfer_user,
    sol_transfer_with_signer,
    transfer_outcome,
    Instruction,
};

verus! {

/// The accounts of `initialize`.
#[derive(Clone, Copy, Debug, PartialEq, Eq)]
pub struct Initialize {
    /// The caller, who becomes the administrator.
    pub admin: Signer,
    /// The place of the configuration record: `None` until it is created.
    pub global_state: Option<GlobalState>,
    /// The custody account.
    pub vault_wallet: AccountInfo,
}

/// The accounts of `update_limit`.
#[derive(Clone, Copy, Debug, PartialEq, Eq)]
pub struct UpdateLimit {
    /// The caller.
    pub admin: Signer,
    /// The configuration record.
    pub global_state: GlobalState,
}

/// The accounts of `deposit_vault`.
#[derive(Clone, Copy, Debug, PartialEq, Eq)]
pub struct DepositVault {
    /// The caller, who pays.
    pub admin: Signer,
    /// The configuration record.
    pub global_state: GlobalState,
    /// The custody account.
    pub vault_wallet: AccountInfo,
}

/// The accounts of `withdraw_vault`.
#[derive(Clone, Copy, Debug, PartialEq, Eq)]
pub struct WithdrawVault {
    /// The caller, who is paid.
    pub admin: Signer,
    /// The configuration record.
    pub global_state: GlobalState,
    /// The custody account.
    pub vault_wallet: AccountInfo,
}

/// The accounts of `init_user_pool`.
#[derive(Clone, Copy, Debug, PartialEq, Eq)]
pub struct InitUserPool {
    /// The caller, whose quota record is created.
    pub payer: Signer,
    /// The place of the caller's quota record: `None` until it is created.
    pub user_pool: Option<UserPool>,
}

/// The accounts of `request_faucet`.
#[derive(Clone, Copy, Debug, PartialEq, Eq)]
pub struct RequestFaucet {
    /// The caller, who is paid.
    pub payer: Signer,
    /// The configuration record.
    pub global_state: GlobalState,
    /// The custody account.
    pub vault_wallet: AccountInfo,
    /// The quota record that the request is charged to.
    pub user_pool: UserPool,
}

/// A refusal of the ledger, as the answer to a request.
pub open spec fn from_ledger(outcome: Result<(), ProgramError>) -> Result<(), Error> {
    match outcome {
        Ok(()) => Ok(()),
        Err(refusal) => Err(Error::Ledger(refusal)),
    }
}

/// Whether a request that took a custody account from `before` to `after`
/// has kept it alive: a balance that went down is still at or above the
/// reserve.
pub open spec fn custody_kept(before: AccountInfo, after: AccountInfo) -> bool {
    &&& after.key == before.key
    &&& after.minimum_balance == before.minimum_balance
    &&& after.lamports >= before.lamports || after.spendable() >= 0
}

impl Initialize {
    /// The answer to `initialize` on these accounts.
    pub open spec fn outcome(self) -> Result<(), Error> {
        if self.global_state is Some {
            Err(Error::Ledger(ProgramError::AccountAlreadyInitialized))
        } else {
            Ok(())
        }
    }

    /// These accounts after a successful `initialize`.
    pub open spec fn applied(self, max_amount: u64, vault_wallet_bump: u8) -> Initialize {
        Initialize {
            global_state: Some(
                GlobalState {
                    admin: self.admin.info.key,
                    max_amount_per_day: max_amount,
                    vault_wallet_bump,
                },
            ),
            ..self
        }
    }
}

impl UpdateLimit {
    /// The answer to `update_limit` on these accounts.
    pub open spec fn outcome(self) -> Result<(), Error> {
        if self.admin.info.key != self.global_state.admin {
            Err(Error::Faucet(ErrorCode::InvalidAdmin))
        } else {
            Ok(())
        }
    }

    /// These accounts after a successful `update_limit`.
    pub open spec fn applied(self, max_amount: u64) -> UpdateLimit {
        UpdateLimit {
            global_state: GlobalState { max_amount_per_day: max_amount, ..self.global_state },
            ..self
        }
    }
}

impl DepositVault {
    /// The answer to `deposit_vault` of `amount` on these accounts.
    pub open spec fn outcome(self, amount: u64) -> Result<(), Error> {
        if self.admin.info.key != self.global_state.admin {
            Err(Error::Faucet(ErrorCode::InvalidAdmin))
        } else if self.admin.info.spendable() < amount + TX_FEE {
            Err(Error::Faucet(ErrorCode::InsufficientBalance))
        } else {
            from_ledger(transfer_outcome(self.admin.info, self.vault_wallet, amount))
        }
    }

    /// These accounts after a successful `deposit_vault` of `amount`.
    pub open spec fn applied(self, amount: u64) -> DepositVault {
        DepositVault {
            admin: Signer { info: self.admin.info.debited(amount) },
            vault_wallet: self.vault_wallet.credited(amount),
            ..self
        }
    }
}

impl WithdrawVault {
    /// The answer to `withdraw_vault` of `amount` on these accounts, where
    /// `authority` is the address that the custody seeds derive.
    pub open spec fn outcome(self, amount: u64, authority: Option<Pubkey>) -> Result<(), Error> {
        if self.admin.info.key != self.global_state.admin {
            Err(Error::Faucet(ErrorCode::InvalidAdmin))
        } else if self.vault_wallet.spendable() < amount {
            Err(Error::Faucet(ErrorCode::InsufficientBalance))
        } else {
            from_ledger(authorized_outcome(self.vault_wallet, self.admin.info, authority, amount))
        }
    }

    /// These accounts after a successful `withdraw_vault` of `amount`.
    pub open spec fn applied(self, amount: u64) -> WithdrawVault {
        WithdrawVault {
            admin: Signer { info: self.admin.info.credited(amount) },
            vault_wallet: self.vault_wallet.debited(amount),
            ..self
        }
    }
}

impl InitUserPool {
    /// The answer to `init_user_pool` on these accounts.
    pub open spec fn outcome(self) -> Result<(), Error> {
        if self.user_pool is Some {
            Err(Error::Ledger(ProgramError::AccountAlreadyInitialized))
        } else {
            Ok(())
        }
    }

    /// These accounts after a successful `init_user_pool` at `now`.
    pub open spec fn applied(self, now: i64) -> InitUserPool {
        InitUserPool {
            user_pool: Some(
                UserPool { owner: self.payer.info.key, received_amount: 0, request_time: now },
            ),
            ..self
        }
    }
}

impl RequestFaucet {
    /// The answer to `request_faucet` of `amount` at `now` on these accounts,
    /// where `authority` is the address that the custody seeds derive.
    ///
    /// The checks come in this order: the caller owns the quota record, the
    /// quota allows the amount, the custody account can spare it, the ledger
    /// accepts the transfer.
    pub open spec fn outcome(self, amount: u64, now: i64, authority: Option<Pubkey>) -> Result<
        (),
        Error,
    > {
        if self.payer.info.key != self.user_pool.owner {
            Err(Error::Faucet(ErrorCode::InvalidUserPDA))
        } else {
            match self.user_pool.charged(amount, now, self.global_state.max_amount_per_day) {
                Err(code) => Err(Error::Faucet(code)),
                Ok(_) => if self.vault_wallet.spendable() < amount {
                    Err(Error::Faucet(ErrorCode::InsufficientBalance))
                } else {
                    from_ledger(
                        authorized_outcome(self.vault_wallet, self.payer.info, authority, amount),
                    )
                },
            }
        }
    }

    /// These accounts after a successful `request_faucet` of `amount` at `now`.
    pub open spec fn applied(self, amount: u64, now: i64) -> RequestFaucet
        recommends
            self.user_pool.charged(amount, now, self.global_state.max_amount_per_day) is Ok,
    {
        RequestFaucet {
            payer: Signer { info: self.payer.info.credited(amount) },
            vault_wallet: self.vault_wallet.debited(amount),
            user_pool: self.user_pool.charged(
                amount,
                now,
                self.global_state.max_amount_per_day,
            )->Ok_0,
            ..self
        }
    }
}

/// Creates the configuration record: the caller becomes the administrator,
/// `max_amount` the daily ceiling, `vault_wallet_bump` the last seed of the
/// custody address. Succeeds once: where the record exists it is kept, and
/// the answer is `AccountAlreadyInitialized`.
pub fn initialize(ctx: &mut Initialize, max_amount: u64, vault_wallet_bump: u8) -> (r: Result<
    (),
    Error,
>)
    ensures
        r == old(ctx).outcome(),
        r is Ok ==> *final(ctx) == old(ctx).applied(max_amount, vault_wallet_bump),
        r is Err ==> *final(ctx) == *old(ctx),
        custody_kept(old(ctx).vault_wallet, final(ctx).vault_wallet),
{
    if ctx.global_state.is_some() {
        return Err(Error::Ledger(ProgramError::AccountAlreadyInitialized));
    }
    ctx.global_state = Some(
        GlobalState { admin: ctx.admin.key(), max_amount_per_day: max_amount, vault_wallet_bump },
    );
    Ok(())
}

/// Replaces the daily ceiling by `max_amount`. Only the administrator may;
/// for any other caller the answer is `InvalidAdmin`. Nothing else of the
/// record changes, and no quota record is touched.
pub fn update_limit(ctx: &mut UpdateLimit, max_amount: u64) -> (r: Result<(), Error>)
    ensures
        r == old(ctx).outcome(),
        r is Ok ==> *final(ctx) == old(ctx).applied(max_amount),
        r is Err ==> *final(ctx) == *old(ctx),
        r is Ok ==> final(ctx).global_state.max_amount_per_day == max_amount,
        final(ctx).global_state.admin == old(ctx).global_state.admin,
{
    if ctx.admin.key() != ctx.global_state.admin {
        return Err(Error::Faucet(ErrorCode::InvalidAdmin));
    }
    ctx.global_state.max_amount_per_day = max_amount;
    Ok(())
}

/// Moves `amount` from the administrator into the custody account, on the
/// administrator's signature, and gives the instruction for the ledger. The
/// administrator must be able to spare `amount` and `TX_FEE` beside its
/// reserve.
pub fn deposit_vault(ctx: &mut DepositVault, amount: u64) -> (r: Result<Instruction, Error>)
    ensures
        answer(r) == old(ctx).outcome(amount),
        r matches Ok(instruction) ==> {
            &&& *final(ctx) == old(ctx).applied(amount)
            &&& instruction.is_transfer(old(ctx).admin.info.key, old(ctx).vault_wallet.key, amount)
        },
        r is Err ==> *final(ctx) == *old(ctx),
        custody_kept(old(ctx).vault_wallet, final(ctx).vault_wallet),
{
    if ctx.admin.key() != ctx.global_state.admin {
        return Err(Error::Faucet(ErrorCode::InvalidAdmin));
    }
    let covered = match amount.checked_add(TX_FEE) {
        Some(needed) => has_balance(&ctx.admin.info, needed),
        None => false,
    };
    if !covered {
        return Err(Error::Faucet(ErrorCode::InsufficientBalance));
    }
    match sol_transfer_user(&mut ctx.admin, &mut ctx.vault_wallet, amount) {
        Ok(instruction) => Ok(instruction),
        Err(refusal) => Err(Error::Ledger(refusal)),
    }
}

/// Moves `amount` from the custody account to the administrator, on the
/// authority of the custody seeds, and gives the instruction for the ledger.
/// The custody account must be able to spare `amount` beside its reserve.
pub fn withdraw_vault(ctx: &mut WithdrawVault, amount: u64) -> (r: Result<Instruction, Error>)
    ensures
        answer(r) == old(ctx).outcome(
            amount,
            derived_address(vault_seeds(old(ctx).global_state.vault_wallet_bump), program_id()),
        ),
        r matches Ok(instruction) ==> {
            &&& *final(ctx) == old(ctx).applied(amount)
            &&& instruction.is_transfer(old(ctx).vault_wallet.key, old(ctx).admin.info.key, amount)
        },
        r is Err ==> *final(ctx) == *old(ctx),
        custody_kept(old(ctx).vault_wallet, final(ctx).vault_wallet),
{
    if ctx.admin.key() != ctx.global_state.admin {
        return Err(Error::Faucet(ErrorCode::InvalidAdmin));
    }
    if !has_balance(&ctx.vault_wallet, amount) {
        return Err(Error::Faucet(ErrorCode::InsufficientBalance));
    }
    let seeds = vault_signer_seeds(ctx.global_state.vault_wallet_bump);
    match sol_transfer_with_signer(&mut ctx.vault_wallet, &mut ctx.admin.info, &seeds, amount) {
        Ok(instruction) => Ok(instruction),
        Err(refusal) => Err(Error::Ledger(refusal)),
    }
}

/// Creates the caller's quota record: nothing drawn yet, the window
/// beginning at `now`. Succeeds once for each caller: where the record
/// exists it is kept, and the answer is `AccountAlreadyInitialized`.
pub fn init_user_pool(ctx: &mut InitUserPool, now: i64) -> (r: Result<(), Error>)
    ensures
        r == old(ctx).outcome(),
        r is Ok ==> *final(ctx) == old(ctx).applied(now),
        r is Err ==> *final(ctx) == *old(ctx),
{
    if ctx.user_pool.is_some() {
        return Err(Error::Ledger(ProgramError::AccountAlreadyInitialized));
    }
    ctx.user_pool = Some(UserPool { owner: ctx.payer.key(), received_amount: 0, request_time: now });
    Ok(())
}

/// Pays `amount` from the custody account to the caller at `now`, within
/// the caller's daily quota, and gives the instruction for the ledger. The
/// quota record is stored only once the funds have moved.
pub fn request_faucet(ctx: &mut RequestFaucet, amount: u64, now: i64) -> (r: Result<
    Instruction,
    Error,
>)
    ensures
        answer(r) == old(ctx).outcome(
            amount,
            now,
            derived_address(vault_seeds(old(ctx).global_state.vault_wallet_bump), program_id()),
        ),
        r matches Ok(instruction) ==> {
            &&& *final(ctx) == old(ctx).applied(amount, now)
            &&& instruction.is_transfer(old(ctx).vault_wallet.key, old(ctx).payer.info.key, amount)
        },
        r is Err ==> *final(ctx) == *old(ctx),
        r is Ok && !old(ctx).user_pool.window_expired(now) ==> {
            &&& final(ctx).user_pool.received_amount == old(ctx).user_pool.received_amount + amount
            &&& final(ctx).user_pool.request_time == old(ctx).user_pool.request_time
        },
        r is Ok && old(ctx).user_pool.window_expired(now) ==> {
            &&& final(ctx).user_pool.received_amount == amount
            &&& final(ctx).user_pool.request_time == now
        },
        r is Ok ==> final(ctx).user_pool.received_amount <= old(
            ctx,
        ).global_state.max_amount_per_day,
        custody_kept(old(ctx).vault_wallet, final(ctx).vault_wallet),
{
    if ctx.payer.key() != ctx.user_pool.owner {
        return Err(Error::Faucet(ErrorCode::InvalidUserPDA));
    }
    let charged = match ctx.user_pool.charge(amount, now, ctx.global_state.max_amount_per_day) {
        Ok(record) => record,
        Err(code) => {
            return Err(Error::Faucet(code));
        },
    };
    if !has_balance(&ctx.vault_wallet, amount) {
        return Err(Error::Faucet(ErrorCode::InsufficientBalance));
    }
    let seeds = vault_signer_seeds(ctx.global_state.vault_wallet_bump);
    match sol_transfer_with_signer(&mut ctx.vault_wallet, &mut ctx.payer.info, &seeds, amount) {
        Ok(instruction) => {
            ctx.user_pool = charged;
            Ok(instruction)
        },
        Err(refusal) => Err(Error::Ledger(refusal)),
    }
}

} // verus!
