//! A custodial deposit and withdrawal ledger with exactly-once redemption.
//!
//! Depositors lock funds behind a 32-byte deposit key that is bound to an
//! encrypted note. A relayer later redeems the deposit on the depositor's
//! behalf and collects a fee. Every operation is a transition of an explicit
//! [`Ledger`] value: it either commits all of its effects or leaves the ledger
//! exactly as it was.
pub mod engine;
pub mod error;
pub mod instructions;
pub mod laws;
pub mod leaf;
pub mod ledger;
pub mod router;
pub mod state;
pub mod store;
pub mod treasury;

pub use engine::{accrued_reward, holding_duration, relayer_fee};
pub use error::ErrorCode;
pub use instructions::{
    compressed_deposit, compressed_withdraw, deposit, initialize_vault_config,
    update_vault_config, withdraw, CompressedDeposit, CompressedWithdraw, CompressedWithdrawal,
    Deposit, InitializeVaultConfig, NullifyOutcome, RewardTransfer, UpdateVaultConfig, Withdraw,
    Withdrawal,
};
pub use leaf::{decode_leaf, encode_leaf, CompressedLeaf, CompressedLeafView};
pub use ledger::{Ledger, LedgerView};
pub use router::{process, Instruction, InstructionView, Receipt, ReceiptView};
pub use state::{
    DepositMetadata, EncryptedNote, EncryptedNoteView, Pubkey, VaultConfig, MAX_NOTE_LEN,
    SIGNATURE_LEN,
};
pub use store::{DepositEntry, DepositEntryView, DepositStore};
pub use treasury::Treasury;
