use crate::error::ErrorCode;
use crate::leaf::{decode_leaf, parse_leaf};
use crate::ledger::{Ledger, LedgerView};
use crate::state::Pubkey;
use crate::treasury::Treasury;
use vstd::prelude::*;

verus! {

/// What the commitment tree answered when it was asked to nullify a leaf.
#[derive(Clone, Copy, Debug, PartialEq, Eq, Structural)]
pub enum NullifyOutcome {
    /// The proof held and the leaf had not been spent: it is spent now.
    Nullified,
    /// The inclusion proof did not hold.
    ProofRejected,
    /// The leaf had been spent before.
    AlreadyNullified,
}

/// What the surroundings contribute to a compressed withdrawal.
#[derive(Clone, Copy, Debug, PartialEq, Eq)]
pub struct CompressedWithdraw {
    /// The tree's answer to nullifying the leaf at the given index with the
    /// caller's nullifier and inclusion proof. The ledger keeps no nullifiers
    /// of its own: whether a leaf is spent is for the tree alone to say.
    pub nullify_outcome: NullifyOutcome,
}

/// The payment that a compressed withdrawal owes.
#[derive(Clone, Copy, Debug, PartialEq, Eq)]
pub struct CompressedWithdrawal {
    pub nullifier: [u8; 32],
    pub leaf_index: u64,
    /// Who is paid.
    pub destination_wallet: Pubkey,
    /// How much: the amount that the leaf commits to.
    pub amount: u64,
}

/// The error that refuses a compressed withdrawal, if any.
///
/// The amount is taken from the committed leaf, never from the caller: a
/// caller who names another amount is refused.
pub open spec fn compressed_withdraw_error(
    pre: LedgerView,
    ctx: CompressedWithdraw,
    leaf_data: Seq<u8>,
    withdrawal_amount: u64,
) -> Option<ErrorCode> {
    match parse_leaf(leaf_data) {
        None => Some(ErrorCode::InvalidCommitment),
        Some(leaf) => if leaf.amount != withdrawal_amount {
            Some(ErrorCode::InvalidAmount)
        } else if ctx.nullify_outcome == NullifyOutcome::ProofRejected {
            Some(ErrorCode::ProofRejected)
        } else if ctx.nullify_outcome == NullifyOutcome::AlreadyNullified {
            Some(ErrorCode::InvalidNullifierHash)
        } else if pre.vault.balance < withdrawal_amount {
            Some(ErrorCode::ArithmeticOverflow)
        } else {
            None
        },
    }
}

/// What a compressed withdrawal returns: the payment it owes, or the error
/// that refuses it.
pub open spec fn compressed_withdraw_outcome(
    pre: LedgerView,
    ctx: CompressedWithdraw,
    nullifier: [u8; 32],
    leaf_index: u64,
    leaf_data: Seq<u8>,
    destination_wallet: Pubkey,
    withdrawal_amount: u64,
) -> Result<CompressedWithdrawal, ErrorCode> {
    match compressed_withdraw_error(pre, ctx, leaf_data, withdrawal_amount) {
        Some(error) => Err(error),
        None => Ok(
            CompressedWithdrawal {
                nullifier,
                leaf_index,
                destination_wallet,
                amount: withdrawal_amount,
            },
        ),
    }
}

/// The ledger after a compressed withdrawal: the treasury has paid the amount
/// out, or, where the withdrawal is refused, nothing has changed.
pub open spec fn compressed_withdraw_post(
    pre: LedgerView,
    ctx: CompressedWithdraw,
    leaf_data: Seq<u8>,
    withdrawal_amount: u64,
) -> LedgerView {
    if compressed_withdraw_error(pre, ctx, leaf_data, withdrawal_amount) is Some {
        pre
    } else {
        LedgerView {
            vault: Treasury { balance: (pre.vault.balance - withdrawal_amount) as u64 },
            ..pre
        }
    }
}

/// Redeems the leaf `leaf_data` of the commitment tree.
///
/// The whole committed amount goes to `destination_wallet`; this path pays no
/// relayer fee and no reward. The withdrawal is refused, and the ledger left
/// as it was,
/// - with `InvalidCommitment` when `leaf_data` spells no leaf,
/// - with `InvalidAmount` when `withdrawal_amount` is not the leaf's amount,
/// - with `ProofRejected` or `InvalidNullifierHash` when the tree did not
///   nullify the leaf,
/// - with `ArithmeticOverflow` when the treasury holds less than the amount.
pub fn compressed_withdraw(
    ledger: &mut Ledger,
    ctx: &CompressedWithdraw,
    nullifier: [u8; 32],
    leaf_index: u64,
    leaf_data: &[u8],
    destination_wallet: Pubkey,
    _relayer: Pubkey,
    withdrawal_amount: u64,
) -> (outcome: Result<CompressedWithdrawal, ErrorCode>)
    ensures
        outcome == compressed_withdraw_outcome(
            old(ledger)@,
            *ctx,
            nullifier,
            leaf_index,
            leaf_data@,
            destination_wallet,
            withdrawal_amount,
        ),
        final(ledger)@ == compressed_withdraw_post(
            old(ledger)@,
            *ctx,
            leaf_data@,
            withdrawal_amount,
        ),
{
    let leaf = match decode_leaf(leaf_data) {
        Some(leaf) => leaf,
        None => {
            return Err(ErrorCode::InvalidCommitment);
        },
    };
    if leaf.amount != withdrawal_amount {
        return Err(ErrorCode::InvalidAmount);
    }
    match ctx.nullify_outcome {
        NullifyOutcome::Nullified => {},
        NullifyOutcome::ProofRejected => {
            return Err(ErrorCode::ProofRejected);
        },
        NullifyOutcome::AlreadyNullified => {
            return Err(ErrorCode::InvalidNullifierHash);
        },
    }
    match ledger.vault.debit(leaf.amount) {
        Ok(()) => {},
        Err(error) => {
            return Err(error);
        },
    }
    Ok(CompressedWithdrawal { nullifier, leaf_index, destination_wallet, amount: leaf.amount })
}

} // verus!
