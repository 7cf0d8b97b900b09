//! The operations of the vault, each a transition of the [`crate::Ledger`].
//!
//! Every operation takes the ledger, a context and its arguments. The context
//! holds what the surroundings of the ledger contribute to the operation: the
//! clock reading, the identity of the caller, and the verdicts of the
//! services that the ledger relies on. Funds that leave the treasury are
//! described in the value that the operation returns; the caller pays them
//! out.
pub mod compressed_deposit;
pub mod compressed_withdraw;
pub mod deposit;
pub mod initialize_vault_config;
pub mod update_vault_config;
pub mod withdraw;

pub use compressed_deposit::{compressed_deposit, CompressedDeposit};
pub use compressed_withdraw::{
    compressed_withdraw, CompressedWithdraw, CompressedWithdrawal, NullifyOutcome,
};
pub use deposit::{deposit, Deposit};
pub use initialize_vault_config::{initialize_vault_config, InitializeVaultConfig};
pub use update_vault_config::{update_vault_config, UpdateVaultConfig};
pub use withdraw::{withdraw, RewardTransfer, Withdraw, Withdrawal};
