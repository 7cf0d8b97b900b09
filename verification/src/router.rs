//! One entry point for all operations, and what holds of every sequence of
//! them.
use crate::error::ErrorCode;
use crate::instructions::compressed_deposit::{
    compressed_deposit, compressed_deposit_error, compressed_deposit_leaf,
    compressed_deposit_post, CompressedDeposit,
};
use crate::instructions::compressed_withdraw::{
    compressed_withdraw, compressed_withdraw_outcome, compressed_withdraw_post,
    CompressedWithdraw, CompressedWithdrawal,
};
use crate::instructions::deposit::{deposit, deposit_outcome, deposit_post, Deposit};
use crate::instructions::initialize_vault_config::{
    initialize_vault_config, initialize_vault_config_outcome, initialize_vault_config_post,
    InitializeVaultConfig,
};
use crate::instructions::update_vault_config::{
    update_vault_config, update_vault_config_outcome, update_vault_config_post,
    UpdateVaultConfig,
};
use crate::instructions::withdraw::{
    withdraw, withdraw_outcome, withdraw_post, Withdraw, Withdrawal,
};
use crate::leaf::leaf_bytes;
use crate::ledger::{Ledger, LedgerView};
use crate::state::Pubkey;
use vstd::prelude::*;

verus! {

/// An operation together with its context and arguments.
#[derive(Clone, Debug, PartialEq, Eq)]
pub enum Instruction {
    InitializeVaultConfig {
        ctx: InitializeVaultConfig,
        authority: Pubkey,
        reward_mint: Pubkey,
        reward_token_vault: Pubkey,
        reward_rate_per_second: u64,
    },
    UpdateVaultConfig {
        ctx: UpdateVaultConfig,
        reward_mint: Option<Pubkey>,
        reward_token_vault: Option<Pubkey>,
        reward_rate_per_second: Option<u64>,
    },
    Deposit {
        ctx: Deposit,
        deposit_id: [u8; 32],
        note_nonce: [u8; 32],
        encrypted_note_data: Vec<u8>,
        signature: Vec<u8>,
        amount: u64,
    },
    Withdraw {
        ctx: Withdraw,
        deposit_id: [u8; 32],
        note_nonce: [u8; 32],
        destination_wallet: Pubkey,
        relayer: Pubkey,
    },
    CompressedDeposit {
        ctx: CompressedDeposit,
        encrypted_note_data: Vec<u8>,
        signature: Vec<u8>,
        amount: u64,
    },
    CompressedWithdraw {
        ctx: CompressedWithdraw,
        nullifier: [u8; 32],
        leaf_index: u64,
        leaf_data: Vec<u8>,
        destination_wallet: Pubkey,
        relayer: Pubkey,
        withdrawal_amount: u64,
    },
}

/// What an [`Instruction`] holds, as a mathematical value.
pub enum InstructionView {
    InitializeVaultConfig {
        ctx: InitializeVaultConfig,
        authority: Pubkey,
        reward_mint: Pubkey,
        reward_token_vault: Pubkey,
        reward_rate_per_second: u64,
    },
    UpdateVaultConfig {
        ctx: UpdateVaultConfig,
        reward_mint: Option<Pubkey>,
        reward_token_vault: Option<Pubkey>,
        reward_rate_per_second: Option<u64>,
    },
    Deposit {
        ctx: Deposit,
        deposit_id: [u8; 32],
        note_nonce: [u8; 32],
        encrypted_note_data: Seq<u8>,
        signature: Seq<u8>,
        amount: u64,
    },
    Withdraw {
        ctx: Withdraw,
        deposit_id: [u8; 32],
        note_nonce: [u8; 32],
        destination_wallet: Pubkey,
        relayer: Pubkey,
    },
    CompressedDeposit {
        ctx: CompressedDeposit,
        encrypted_note_data: Seq<u8>,
        signature: Seq<u8>,
        amount: u64,
    },
    CompressedWithdraw {
        ctx: CompressedWithdraw,
        nullifier: [u8; 32],
        leaf_index: u64,
        leaf_data: Seq<u8>,
        destination_wallet: Pubkey,
        relayer: Pubkey,
        withdrawal_amount: u64,
    },
}

impl View for Instruction {
    type V = InstructionView;

    open spec fn view(&self) -> InstructionView {
        match *self {
            Instruction::InitializeVaultConfig {
                ctx,
                authority,
                reward_mint,
                reward_token_vault,
                reward_rate_per_second,
            } => InstructionView::InitializeVaultConfig {
                ctx,
                authority,
                reward_mint,
                reward_token_vault,
                reward_rate_per_second,
            },
            Instruction::UpdateVaultConfig {
                ctx,
                reward_mint,
                reward_token_vault,
                reward_rate_per_second,
            } => InstructionView::UpdateVaultConfig {
                ctx,
                reward_mint,
                reward_token_vault,
                reward_rate_per_second,
            },
            Instruction::Deposit {
                ctx,
                deposit_id,
                note_nonce,
                encrypted_note_data,
                signature,
                amount,
            } => InstructionView::Deposit {
                ctx,
                deposit_id,
                note_nonce,
                encrypted_note_data: encrypted_note_data@,
                signature: signature@,
                amount,
            },
            Instruction::Withdraw { ctx, deposit_id, note_nonce, destination_wallet, relayer } =>
                InstructionView::Withdraw {
                ctx,
                deposit_id,
                note_nonce,
                destination_wallet,
                relayer,
            },
            Instruction::CompressedDeposit { ctx, encrypted_note_data, signature, amount } =>
                InstructionView::CompressedDeposit {
                ctx,
                encrypted_note_data: encrypted_note_data@,
                signature: signature@,
                amount,
            },
            Instruction::CompressedWithdraw {
                ctx,
                nullifier,
                leaf_index,
                leaf_data,
                destination_wallet,
                relayer,
                withdrawal_amount,
            } => InstructionView::CompressedWithdraw {
                ctx,
                nullifier,
                leaf_index,
                leaf_data: leaf_data@,
                destination_wallet,
                relayer,
                withdrawal_amount,
            },
        }
    }
}

/// What a successful instruction hands back to its caller.
#[derive(Clone, Debug, PartialEq, Eq)]
pub enum Receipt {
    /// Nothing is owed to anybody: the configuration was created or changed,
    /// or a deposit was recorded.
    Done,
    /// The payments that a withdrawal owes.
    Withdrawal(Withdrawal),
    /// The leaf that is to be appended to the commitment tree.
    Leaf(Vec<u8>),
    /// The payment that a compressed withdrawal owes.
    CompressedWithdrawal(CompressedWithdrawal),
}

/// What a [`Receipt`] holds, as a mathematical value.
pub enum ReceiptView {
    Done,
    Withdrawal(Withdrawal),
    Leaf(Seq<u8>),
    CompressedWithdrawal(CompressedWithdrawal),
}

impl View for Receipt {
    type V = ReceiptView;

    open spec fn view(&self) -> ReceiptView {
        match *self {
            Receipt::Done => ReceiptView::Done,
            Receipt::Withdrawal(paid) => ReceiptView::Withdrawal(paid),
            Receipt::Leaf(bytes) => ReceiptView::Leaf(bytes@),
            Receipt::CompressedWithdrawal(paid) => ReceiptView::CompressedWithdrawal(paid),
        }
    }
}

/// `Done` where `outcome` is a success, and its error where it is not.
pub open spec fn done(outcome: Result<(), ErrorCode>) -> Result<ReceiptView, ErrorCode> {
    match outcome {
        Ok(_) => Ok(ReceiptView::Done),
        Err(error) => Err(error),
    }
}

/// What `instruction` returns on the ledger `pre`: what the operation it
/// names returns.
pub open spec fn answer(pre: LedgerView, instruction: InstructionView) -> Result<
    ReceiptView,
    ErrorCode,
> {
    match instruction {
        InstructionView::InitializeVaultConfig { .. } => done(initialize_vault_config_outcome(pre)),
        InstructionView::UpdateVaultConfig { ctx, .. } => done(
            update_vault_config_outcome(pre, ctx),
        ),
        InstructionView::Deposit { ctx, deposit_id, encrypted_note_data, signature, amount, .. } =>
            done(
            deposit_outcome(
                pre,
                ctx,
                deposit_id,
                encrypted_note_data.len(),
                signature.len(),
                amount,
            ),
        ),
        InstructionView::Withdraw { ctx, deposit_id, note_nonce, destination_wallet, relayer } =>
            match withdraw_outcome(pre, ctx, deposit_id, note_nonce, destination_wallet, relayer) {
            Ok(paid) => Ok(ReceiptView::Withdrawal(paid)),
            Err(error) => Err(error),
        },
        InstructionView::CompressedDeposit { ctx, encrypted_note_data, signature, amount } =>
            match compressed_deposit_error(
            pre,
            ctx,
            encrypted_note_data.len(),
            signature.len(),
            amount,
        ) {
            Some(error) => Err(error),
            None => Ok(
                ReceiptView::Leaf(
                    leaf_bytes(
                        compressed_deposit_leaf(ctx, encrypted_note_data, signature, amount),
                    ),
                ),
            ),
        },
        InstructionView::CompressedWithdraw {
            ctx,
            nullifier,
            leaf_index,
            leaf_data,
            destination_wallet,
            withdrawal_amount,
            ..
        } => match compressed_withdraw_outcome(
            pre,
            ctx,
            nullifier,
            leaf_index,
            leaf_data,
            destination_wallet,
            withdrawal_amount,
        ) {
            Ok(paid) => Ok(ReceiptView::CompressedWithdrawal(paid)),
            Err(error) => Err(error),
        },
    }
}

/// The ledger that `instruction` leaves behind on the ledger `pre`: the one
/// that the operation it names leaves behind.
pub open spec fn step(pre: LedgerView, instruction: InstructionView) -> LedgerView {
    match instruction {
        InstructionView::InitializeVaultConfig {
            ctx,
            authority,
            reward_mint,
            reward_token_vault,
            reward_rate_per_second,
        } => initialize_vault_config_post(
            pre,
            ctx,
            authority,
            reward_mint,
            reward_token_vault,
            reward_rate_per_second,
        ),
        InstructionView::UpdateVaultConfig {
            ctx,
            reward_mint,
            reward_token_vault,
            reward_rate_per_second,
        } => update_vault_config_post(
            pre,
            ctx,
            reward_mint,
            reward_token_vault,
            reward_rate_per_second,
        ),
        InstructionView::Deposit {
            ctx,
            deposit_id,
            note_nonce,
            encrypted_note_data,
            signature,
            amount,
        } => deposit_post(
            pre,
            ctx,
            deposit_id,
            note_nonce,
            encrypted_note_data,
            signature.len(),
            amount,
        ),
        InstructionView::Withdraw { ctx, deposit_id, note_nonce, .. } => withdraw_post(
            pre,
            ctx,
            deposit_id,
            note_nonce,
        ),
        InstructionView::CompressedDeposit { ctx, encrypted_note_data, signature, amount } =>
            compressed_deposit_post(
            pre,
            ctx,
            encrypted_note_data.len(),
            signature.len(),
            amount,
        ),
        InstructionView::CompressedWithdraw { ctx, leaf_data, withdrawal_amount, .. } =>
            compressed_withdraw_post(pre, ctx, leaf_data, withdrawal_amount),
    }
}

/// What `instruction` brings into the treasury of the ledger `pre`: the
/// amount of a deposit that is accepted, and nothing otherwise.
pub open spec fn taken_in(pre: LedgerView, instruction: InstructionView) -> nat {
    if answer(pre, instruction) is Err {
        0
    } else {
        match instruction {
            InstructionView::Deposit { amount, .. } => amount as nat,
            InstructionView::CompressedDeposit { amount, .. } => amount as nat,
            _ => 0,
        }
    }
}

/// What `instruction` pays out of the treasury of the ledger `pre`: the
/// payments that its receipt names, and nothing where it is refused.
pub open spec fn paid_out(pre: LedgerView, instruction: InstructionView) -> nat {
    match answer(pre, instruction) {
        Ok(ReceiptView::Withdrawal(paid)) => (paid.net_amount + paid.relayer_fee) as nat,
        Ok(ReceiptView::CompressedWithdrawal(paid)) => paid.amount as nat,
        _ => 0,
    }
}

/// The ledger after the instructions of `instructions`, one after the other.
pub open spec fn run(pre: LedgerView, instructions: Seq<InstructionView>) -> LedgerView
    decreases instructions.len(),
{
    if instructions.len() == 0 {
        pre
    } else {
        step(run(pre, instructions.drop_last()), instructions.last())
    }
}

/// All that the instructions of `instructions`, one after the other, bring
/// into the treasury.
pub open spec fn total_taken_in(pre: LedgerView, instructions: Seq<InstructionView>) -> nat
    decreases instructions.len(),
{
    if instructions.len() == 0 {
        0
    } else {
        total_taken_in(pre, instructions.drop_last()) + taken_in(
            run(pre, instructions.drop_last()),
            instructions.last(),
        )
    }
}

/// All that the instructions of `instructions`, one after the other, pay out
/// of the treasury.
pub open spec fn total_paid_out(pre: LedgerView, instructions: Seq<InstructionView>) -> nat
    decreases instructions.len(),
{
    if instructions.len() == 0 {
        0
    } else {
        total_paid_out(pre, instructions.drop_last()) + paid_out(
            run(pre, instructions.drop_last()),
            instructions.last(),
        )
    }
}

/// Carries out `instruction` on the ledger: hands it to the operation that
/// it names and returns what that operation returns.
pub fn process(ledger: &mut Ledger, instruction: Instruction) -> (outcome: Result<
    Receipt,
    ErrorCode,
>)
    ensures
        outcome matches Ok(receipt) ==> answer(old(ledger)@, instruction@) == Ok::<
            ReceiptView,
            ErrorCode,
        >(receipt@),
        outcome matches Err(error) ==> answer(old(ledger)@, instruction@) == Err::<
            ReceiptView,
            ErrorCode,
        >(error),
        final(ledger)@ == step(old(ledger)@, instruction@),
{
    match instruction {
        Instruction::InitializeVaultConfig {
            ctx,
            authority,
            reward_mint,
            reward_token_vault,
            reward_rate_per_second,
        } => match initialize_vault_config(
            ledger,
            &ctx,
            authority,
            reward_mint,
            reward_token_vault,
            reward_rate_per_second,
        ) {
            Ok(()) => Ok(Receipt::Done),
            Err(error) => Err(error),
        },
        Instruction::UpdateVaultConfig {
            ctx,
            reward_mint,
            reward_token_vault,
            reward_rate_per_second,
        } => match update_vault_config(
            ledger,
            &ctx,
            reward_mint,
            reward_token_vault,
            reward_rate_per_second,
        ) {
            Ok(()) => Ok(Receipt::Done),
            Err(error) => Err(error),
        },
        Instruction::Deposit {
            ctx,
            deposit_id,
            note_nonce,
            encrypted_note_data,
            signature,
            amount,
        } => match deposit(
            ledger,
            &ctx,
            deposit_id,
            note_nonce,
            encrypted_note_data,
            signature.as_slice(),
            amount,
        ) {
            Ok(()) => Ok(Receipt::Done),
            Err(error) => Err(error),
        },
        Instruction::Withdraw { ctx, deposit_id, note_nonce, destination_wallet, relayer } =>
            match withdraw(ledger, &ctx, deposit_id, note_nonce, destination_wallet, relayer) {
            Ok(paid) => Ok(Receipt::Withdrawal(paid)),
            Err(error) => Err(error),
        },
        Instruction::CompressedDeposit { ctx, encrypted_note_data, signature, amount } =>
            match compressed_deposit(
            ledger,
            &ctx,
            encrypted_note_data,
            signature.as_slice(),
            amount,
        ) {
            Ok(leaf) => Ok(Receipt::Leaf(leaf)),
            Err(error) => Err(error),
        },
        Instruction::CompressedWithdraw {
            ctx,
            nullifier,
            leaf_index,
            leaf_data,
            destination_wallet,
            relayer,
            withdrawal_amount,
        } => match compressed_withdraw(
            ledger,
            &ctx,
            nullifier,
            leaf_index,
            leaf_data.as_slice(),
            destination_wallet,
            relayer,
            withdrawal_amount,
        ) {
            Ok(paid) => Ok(Receipt::CompressedWithdrawal(paid)),
            Err(error) => Err(error),
        },
    }
}

} // verus!
