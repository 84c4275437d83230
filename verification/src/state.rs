//! The records that the faucet keeps, and the rolling daily quota.

use vstd::prelude::*;
use crate::error::ErrorCode;
use crate::pubkey::Pubkey;

verus! {

/// What a deposit leaves with the depositor for the ledger's fee.
pub const TX_FEE: u64 = 10000;

/// The length of a quota window, in seconds.
pub const DAY_TIME: i64 = 86400;

/// The configuration record; there is one.
#[derive(Clone, Copy, Debug, PartialEq, Eq)]
pub struct GlobalState {
    /// Who may change the configuration and move the vault's funds.
    pub admin: Pubkey,
    /// The most that one user may draw within one window.
    pub max_amount_per_day: u64,
    /// The last seed of the custody address.
    pub vault_wallet_bump: u8,
}

impl GlobalState {
    /// The bytes that the stored record takes: a prefix of eight, then the fields.
    pub const LEN: usize = 8 + 32 + 8 + 1;
}

impl Default for GlobalState {
    fn default() -> (r: GlobalState)
        ensures
            r.admin.is_zero(),
            r.max_amount_per_day == 0,
            r.vault_wallet_bump == 0,
    {
        GlobalState { admin: Pubkey::default(), max_amount_per_day: 0, vault_wallet_bump: 0 }
    }
}

/// The quota record of one user.
#[derive(Clone, Copy, Debug, PartialEq, Eq)]
pub struct UserPool {
    /// The user whose record this is.
    pub owner: Pubkey,
    /// What the user has drawn within the current window.
    pub received_amount: u64,
    /// When the current window began.
    pub request_time: i64,
}

impl Default for UserPool {
    fn default() -> (r: UserPool)
        ensures
            r.owner.is_zero(),
            r.received_amount == 0,
            r.request_time == 0,
    {
        UserPool { owner: Pubkey::default(), received_amount: 0, request_time: 0 }
    }
}

impl UserPool {
    /// The bytes that the stored record takes: a prefix of eight, then the fields.
    pub const LEN: usize = 8 + 32 + 8 + 8;

    /// Whether at `now` a day or more has gone by since the window began.
    pub open spec fn window_expired(self, now: i64) -> bool {
        now - self.request_time >= DAY_TIME
    }

    /// The record after a request of `amount` at `now` under the ceiling
    /// `max_amount_per_day`, or the refusal.
    ///
    /// An expired window begins anew at `now` with `amount` alone; an open one
    /// has `amount` added to what it holds. Either way the result may not pass
    /// the ceiling.
    pub open spec fn charged(self, amount: u64, now: i64, max_amount_per_day: u64) -> Result<
        UserPool,
        ErrorCode,
    > {
        if self.window_expired(now) {
            if amount <= max_amount_per_day {
                Ok(UserPool { received_amount: amount, request_time: now, ..self })
            } else {
                Err(ErrorCode::RequestTooManyFunds)
            }
        } else {
            if self.received_amount + amount <= max_amount_per_day {
                Ok(UserPool { received_amount: (self.received_amount + amount) as u64, ..self })
            } else {
                Err(ErrorCode::RequestTooManyFunds)
            }
        }
    }

    /// Whether at `now` a day or more has gone by since the window began.
    pub fn is_window_expired(&self, now: i64) -> (r: bool)
        ensures
            r == self.window_expired(now),
    {
        match now.checked_sub(self.request_time) {
            Some(elapsed) => elapsed >= DAY_TIME,
            None => now > self.request_time,
        }
    }

    /// Applies the quota to a request of `amount` at `now`: the record as it
    /// is to be stored once the funds have moved, or `RequestTooManyFunds`.
    pub fn charge(&self, amount: u64, now: i64, max_amount_per_day: u64) -> (r: Result<
        UserPool,
        ErrorCode,
    >)
        ensures
            r == self.charged(amount, now, max_amount_per_day),
    {
        if self.is_window_expired(now) {
            if amount <= max_amount_per_day {
                Ok(UserPool { owner: self.owner, received_amount: amount, request_time: now })
            } else {
                Err(ErrorCode::RequestTooManyFunds)
            }
        } else {
            match self.received_amount.checked_add(amount) {
                Some(total) => {
                    if total <= max_amount_per_day {
                        Ok(
                            UserPool {
                                owner: self.owner,
                                received_amount: total,
                                request_time: self.request_time,
                            },
                        )
                    } else {
                        Err(ErrorCode::RequestTooManyFunds)
                    }
                },
                None => Err(ErrorCode::RequestTooManyFunds),
            }
        }
    }
}

} // verus!
