//! A custodial faucet: an administrator funds a shared vault, and users draw
//! from it under a rolling daily quota.
//!
//! The requests are in `instructions`, the records and the quota in `state`,
//! the accounts in `account`, the movement of funds in `transfer`, identities
//! and the derivation of the custody address in `pubkey`. What holds of every
//! request is proved in `laws`.

pub mod account;
pub mod error;
pub mod instructions;
pub mod laws;
pub mod pubkey;
pub mod state;
pub mod transfer;

pub use crate::account::{has_balance, AccountInfo, Signer};
pub use crate::error::{Error, ErrorCode, ProgramError, ERROR_CODE_OFFSET};
pub use crate::instructions::{
    deposit_vault, init_user_pool, initialize, request_faucet, update_limit, withdraw_vault,
    DepositVault, InitUserPool, Initialize, RequestFaucet, UpdateLimit, WithdrawVault,
};
pub use crate::pubkey::{
    id, vault_signer_seeds, Pubkey, GLOBAL_STATE_SEED, ID, MAX_SEEDS, MAX_SEED_LEN,
    USER_POOL_SEED, VAULT_WALLET_SEED,
};
pub use crate::state::{GlobalState, UserPool, DAY_TIME, TX_FEE};
pub use crate::transfer::{
    sol_transfer_user, sol_transfer_with_signer, transfer_with_authority, AccountMeta,
    Instruction,
};
