//! What holds of every request, proved from the answers and effects that
//! the requests' contracts are stated in.

use vstd::prelude::*;
use crate::error::{Error, ErrorCode, ProgramError};
use crate::instructions::{
    custody_kept,
    DepositVault,
    InitUserPool,
    Initialize,
    RequestFaucet,
    UpdateLimit,
    WithdrawVault,
};
use crate::pubkey::Pubkey;
use crate::state::{UserPool, TX_FEE};

verus! {

/// The configuration record is created once: after a successful
/// `initialize`, another is refused, whoever calls and whatever it asks for.
pub proof fn law_initialize_once(
    ctx: Initialize,
    max_amount: u64,
    vault_wallet_bump: u8,
    later: Initialize,
)
    requires
        ctx.outcome() is Ok,
        later.global_state == ctx.applied(max_amount, vault_wallet_bump).global_state,
    ensures
        ctx.applied(max_amount, vault_wallet_bump).global_state matches Some(record) && record.admin
            == ctx.admin.info.key && record.max_amount_per_day == max_amount
            && record.vault_wallet_bump == vault_wallet_bump,
        later.outcome() == Err::<(), Error>(
            Error::Ledger(ProgramError::AccountAlreadyInitialized),
        ),
{
}

/// A quota record is created once, empty, with its window beginning at the
/// time of creation: after a successful `init_user_pool`, another is refused.
pub proof fn law_init_user_pool_once(ctx: InitUserPool, now: i64, later: InitUserPool)
    requires
        ctx.outcome() is Ok,
        later.user_pool == ctx.applied(now).user_pool,
    ensures
        ctx.applied(now).user_pool matches Some(record) && record.owner == ctx.payer.info.key
            && record.received_amount == 0 && record.request_time == now,
        later.outcome() == Err::<(), Error>(
            Error::Ledger(ProgramError::AccountAlreadyInitialized),
        ),
{
}

/// An update of the ceiling by the administrator succeeds, stores the new
/// ceiling, and leaves the administrator and every other field as they were.
pub proof fn law_update_sets_ceiling_only(ctx: UpdateLimit, max_amount: u64)
    requires
        ctx.admin.info.key == ctx.global_state.admin,
    ensures
        ctx.outcome() is Ok,
        ctx.applied(max_amount).global_state.max_amount_per_day == max_amount,
        ctx.applied(max_amount).global_state.admin == ctx.global_state.admin,
        ctx.applied(max_amount).global_state.vault_wallet_bump
            == ctx.global_state.vault_wallet_bump,
        ctx.applied(max_amount).admin == ctx.admin,
{
}

/// Nobody but the administrator updates the ceiling.
pub proof fn law_update_needs_admin(ctx: UpdateLimit)
    requires
        ctx.admin.info.key != ctx.global_state.admin,
    ensures
        ctx.outcome() == Err::<(), Error>(Error::Faucet(ErrorCode::InvalidAdmin)),
{
}

/// While the window is open, the quota adds the amount to what was drawn,
/// and refuses exactly where the sum would pass the ceiling. The window
/// keeps its beginning.
pub proof fn law_open_window_accumulates(
    pool: UserPool,
    amount: u64,
    now: i64,
    max_amount_per_day: u64,
)
    requires
        !pool.window_expired(now),
    ensures
        pool.received_amount + amount <= max_amount_per_day ==> pool.charged(
            amount,
            now,
            max_amount_per_day,
        ) == Ok::<UserPool, ErrorCode>(
            UserPool { received_amount: (pool.received_amount + amount) as u64, ..pool },
        ),
        pool.received_amount + amount > max_amount_per_day ==> pool.charged(
            amount,
            now,
            max_amount_per_day,
        ) == Err::<UserPool, ErrorCode>(ErrorCode::RequestTooManyFunds),
{
}

/// Once a day has gone by, an amount within the ceiling begins a new window:
/// the record holds that amount alone and the time of the request, whatever
/// was drawn before.
pub proof fn law_expired_window_resets(
    pool: UserPool,
    amount: u64,
    now: i64,
    max_amount_per_day: u64,
)
    requires
        pool.window_expired(now),
        amount <= max_amount_per_day,
    ensures
        pool.charged(amount, now, max_amount_per_day) == Ok::<UserPool, ErrorCode>(
            UserPool { received_amount: amount, request_time: now, ..pool },
        ),
{
}

/// What the quota lets through never holds more than the ceiling.
pub proof fn law_quota_within_ceiling(
    pool: UserPool,
    amount: u64,
    now: i64,
    max_amount_per_day: u64,
)
    ensures
        pool.charged(amount, now, max_amount_per_day) matches Ok(record) ==> {
            &&& record.received_amount <= max_amount_per_day
            &&& record.owner == pool.owner
        },
{
}

/// A request for funds in an open window: where it succeeds, the record
/// holds the sum of what was drawn and the amount, and the sum is within the
/// ceiling; where the sum would pass the ceiling, the owner's request fails
/// with `RequestTooManyFunds`.
pub proof fn law_request_in_open_window(
    ctx: RequestFaucet,
    amount: u64,
    now: i64,
    authority: Option<Pubkey>,
)
    requires
        !ctx.user_pool.window_expired(now),
    ensures
        ctx.outcome(amount, now, authority) is Ok ==> {
            &&& ctx.applied(amount, now).user_pool.received_amount
                == ctx.user_pool.received_amount + amount
            &&& ctx.applied(amount, now).user_pool.received_amount
                <= ctx.global_state.max_amount_per_day
            &&& ctx.applied(amount, now).user_pool.request_time == ctx.user_pool.request_time
            &&& ctx.applied(amount, now).user_pool.owner == ctx.user_pool.owner
        },
        ctx.payer.info.key == ctx.user_pool.owner && ctx.user_pool.received_amount + amount
            > ctx.global_state.max_amount_per_day ==> ctx.outcome(amount, now, authority) == Err::<
            (),
            Error,
        >(Error::Faucet(ErrorCode::RequestTooManyFunds)),
{
}

/// A request for funds in an open window succeeds where the caller owns the
/// record, the sum stays within the ceiling, the custody account can spare
/// the amount, the seeds derive the custody address, and the caller's
/// balance has room for the amount.
pub proof fn law_request_in_open_window_succeeds(
    ctx: RequestFaucet,
    amount: u64,
    now: i64,
    authority: Option<Pubkey>,
)
    requires
        !ctx.user_pool.window_expired(now),
        ctx.payer.info.key == ctx.user_pool.owner,
        ctx.user_pool.received_amount + amount <= ctx.global_state.max_amount_per_day,
        ctx.vault_wallet.spendable() >= amount,
        authority == Some(ctx.vault_wallet.key),
        ctx.payer.info.lamports + amount <= u64::MAX,
    ensures
        ctx.outcome(amount, now, authority) is Ok,
{
}

/// A request for funds after the window has expired, of an amount within
/// the ceiling: where it succeeds, the record holds that amount alone and
/// the time of the request, whatever it held before; and it succeeds where
/// the caller owns the record, the custody account can spare the amount,
/// the seeds derive the custody address, and the caller's balance has room.
pub proof fn law_request_in_expired_window(
    ctx: RequestFaucet,
    amount: u64,
    now: i64,
    authority: Option<Pubkey>,
)
    requires
        ctx.user_pool.window_expired(now),
        amount <= ctx.global_state.max_amount_per_day,
    ensures
        ctx.outcome(amount, now, authority) is Ok ==> {
            &&& ctx.applied(amount, now).user_pool.received_amount == amount
            &&& ctx.applied(amount, now).user_pool.request_time == now
            &&& ctx.applied(amount, now).user_pool.owner == ctx.user_pool.owner
        },
        ctx.payer.info.key == ctx.user_pool.owner && ctx.vault_wallet.spendable() >= amount
            && authority == Some(ctx.vault_wallet.key) && ctx.payer.info.lamports + amount
            <= u64::MAX ==> ctx.outcome(amount, now, authority) is Ok,
{
}

/// A request for funds that the custody account cannot spare fails with
/// `InsufficientBalance` where the quota would have let it through.
pub proof fn law_request_needs_custody_balance(
    ctx: RequestFaucet,
    amount: u64,
    now: i64,
    authority: Option<Pubkey>,
)
    requires
        ctx.payer.info.key == ctx.user_pool.owner,
        ctx.user_pool.charged(amount, now, ctx.global_state.max_amount_per_day) is Ok,
        ctx.vault_wallet.spendable() < amount,
    ensures
        ctx.outcome(amount, now, authority) == Err::<(), Error>(
            Error::Faucet(ErrorCode::InsufficientBalance),
        ),
{
}

/// A successful payment of a request leaves the custody account with the
/// amount less, and at or above its reserve.
pub proof fn law_request_keeps_custody(
    ctx: RequestFaucet,
    amount: u64,
    now: i64,
    authority: Option<Pubkey>,
)
    requires
        ctx.outcome(amount, now, authority) is Ok,
    ensures
        ctx.applied(amount, now).vault_wallet.lamports == ctx.vault_wallet.lamports - amount,
        ctx.applied(amount, now).vault_wallet.lamports >= ctx.vault_wallet.minimum_balance,
        ctx.applied(amount, now).payer.info.lamports == ctx.payer.info.lamports + amount,
        custody_kept(ctx.vault_wallet, ctx.applied(amount, now).vault_wallet),
{
}

/// A successful withdrawal leaves the custody account with the amount less,
/// and at or above its reserve.
pub proof fn law_withdraw_keeps_custody(ctx: WithdrawVault, amount: u64, authority: Option<Pubkey>)
    requires
        ctx.outcome(amount, authority) is Ok,
    ensures
        ctx.applied(amount).vault_wallet.lamports == ctx.vault_wallet.lamports - amount,
        ctx.applied(amount).vault_wallet.lamports >= ctx.vault_wallet.minimum_balance,
        ctx.applied(amount).admin.info.lamports == ctx.admin.info.lamports + amount,
        custody_kept(ctx.vault_wallet, ctx.applied(amount).vault_wallet),
{
}

/// Nobody but the administrator withdraws.
pub proof fn law_withdraw_needs_admin(ctx: WithdrawVault, amount: u64, authority: Option<Pubkey>)
    requires
        ctx.admin.info.key != ctx.global_state.admin,
    ensures
        ctx.outcome(amount, authority) == Err::<(), Error>(Error::Faucet(ErrorCode::InvalidAdmin)),
{
}

/// A successful deposit raises the custody account by the amount, and
/// leaves the administrator the fee beside its reserve.
pub proof fn law_deposit_raises_custody(ctx: DepositVault, amount: u64)
    requires
        ctx.outcome(amount) is Ok,
    ensures
        ctx.applied(amount).vault_wallet.lamports == ctx.vault_wallet.lamports + amount,
        ctx.applied(amount).admin.info.lamports == ctx.admin.info.lamports - amount,
        ctx.applied(amount).admin.info.spendable() >= TX_FEE,
        custody_kept(ctx.vault_wallet, ctx.applied(amount).vault_wallet),
{
}

} // verus!
