use crate::engine::{
    accrued_reward, fee_computable, fee_on, holding_duration, lemma_fee_bounds, relayer_fee,
    seconds_held,
};
use crate::error::ErrorCode;
use crate::ledger::{Ledger, LedgerView};
use crate::state::{key_eq, Pubkey, VaultConfig};
use crate::treasury::Treasury;
use vstd::prelude::*;

verus! {

/// What the surroundings contribute to a withdrawal.
#[derive(Clone, Copy, Debug, PartialEq, Eq)]
pub struct Withdraw {
    /// The clock reading, in seconds.
    pub unix_timestamp: i64,
}

/// A payment of reward units that a withdrawal owes to its destination.
#[derive(Clone, Copy, Debug, PartialEq, Eq)]
pub struct RewardTransfer {
    /// The asset in which the reward is paid.
    pub mint: Pubkey,
    /// Where the reward liquidity is held.
    pub source: Pubkey,
    /// Reward units accrued while the deposit was held.
    pub amount: u64,
}

/// The payments that a withdrawal owes. `net_amount` and `relayer_fee`
/// together are the deposited amount, and both have left the treasury.
#[derive(Clone, Copy, Debug, PartialEq, Eq)]
pub struct Withdrawal {
    /// Who receives the deposit, less the fee, and the reward.
    pub destination_wallet: Pubkey,
    pub net_amount: u64,
    /// Who receives the fee.
    pub relayer: Pubkey,
    pub relayer_fee: u64,
    /// The reward, where the vault has a configuration.
    pub reward: Option<RewardTransfer>,
}

/// The reward that a configured vault owes for `duration` seconds.
pub open spec fn reward_transfer(config: VaultConfig, duration: int) -> RewardTransfer {
    RewardTransfer {
        mint: config.reward_mint,
        source: config.reward_token_vault,
        amount: (duration * config.reward_rate_per_second) as u64,
    }
}

/// The error that refuses a withdrawal, if any. The checks are made in the
/// order in which they are written.
pub open spec fn withdraw_error(
    pre: LedgerView,
    ctx: Withdraw,
    deposit_id: [u8; 32],
    note_nonce: [u8; 32],
) -> Option<ErrorCode> {
    if !pre.deposits.contains_key(deposit_id) {
        Some(ErrorCode::InvalidDepositKey)
    } else {
        let record = pre.deposits[deposit_id].metadata;
        if record.used {
            Some(ErrorCode::DepositAlreadyUsed)
        } else if record.note_nonce != note_nonce {
            Some(ErrorCode::InvalidDepositKey)
        } else if ctx.unix_timestamp < record.timestamp {
            Some(ErrorCode::ArithmeticOverflow)
        } else if pre.vault_config matches Some(config) && seconds_held(
            record.timestamp,
            ctx.unix_timestamp,
        ) * config.reward_rate_per_second > u64::MAX {
            Some(ErrorCode::ArithmeticOverflow)
        } else if !fee_computable(record.amount) {
            Some(ErrorCode::ArithmeticOverflow)
        } else if pre.vault.balance < record.amount {
            Some(ErrorCode::ArithmeticOverflow)
        } else {
            None
        }
    }
}

/// What a withdrawal returns: the payments it owes, or the error that
/// refuses it.
pub open spec fn withdraw_outcome(
    pre: LedgerView,
    ctx: Withdraw,
    deposit_id: [u8; 32],
    note_nonce: [u8; 32],
    destination_wallet: Pubkey,
    relayer: Pubkey,
) -> Result<Withdrawal, ErrorCode> {
    match withdraw_error(pre, ctx, deposit_id, note_nonce) {
        Some(error) => Err(error),
        None => {
            let record = pre.deposits[deposit_id].metadata;
            Ok(
                Withdrawal {
                    destination_wallet,
                    net_amount: (record.amount - fee_on(record.amount)) as u64,
                    relayer,
                    relayer_fee: fee_on(record.amount) as u64,
                    reward: match pre.vault_config {
                        Some(config) => Some(
                            reward_transfer(
                                config,
                                seconds_held(record.timestamp, ctx.unix_timestamp),
                            ),
                        ),
                        None => None,
                    },
                },
            )
        },
    }
}

/// The ledger after a withdrawal: the deposited amount has left the treasury
/// and the deposit is marked as redeemed, or, where the withdrawal is
/// refused, nothing has changed.
pub open spec fn withdraw_post(
    pre: LedgerView,
    ctx: Withdraw,
    deposit_id: [u8; 32],
    note_nonce: [u8; 32],
) -> LedgerView {
    if withdraw_error(pre, ctx, deposit_id, note_nonce) is Some {
        pre
    } else {
        LedgerView {
            vault: Treasury {
                balance: (pre.vault.balance - pre.deposits[deposit_id].metadata.amount) as u64,
            },
            deposits: pre.deposits.insert(deposit_id, pre.deposits[deposit_id].redeemed()),
            ..pre
        }
    }
}

/// Redeems the deposit under `deposit_id`: pays it out of the treasury, less
/// the relayer's fee to `destination_wallet` and the fee to `relayer`, and
/// marks it as redeemed. Where the vault has a configuration, the reward
/// accrued since the deposit is owed to `destination_wallet` as well.
///
/// The withdrawal is refused, and the ledger left as it was,
/// - with `InvalidDepositKey` when no deposit stands under `deposit_id`, or
///   `note_nonce` is not the nonce recorded with it,
/// - with `DepositAlreadyUsed` when the deposit was redeemed before,
/// - with `ArithmeticOverflow` when the clock reads earlier than the
///   deposit's timestamp, when the reward or five times the amount does not
///   fit in 64 bits, or when the treasury holds less than the amount.
pub fn withdraw(
    ledger: &mut Ledger,
    ctx: &Withdraw,
    deposit_id: [u8; 32],
    note_nonce: [u8; 32],
    destination_wallet: Pubkey,
    relayer: Pubkey,
) -> (outcome: Result<Withdrawal, ErrorCode>)
    ensures
        outcome == withdraw_outcome(
            old(ledger)@,
            *ctx,
            deposit_id,
            note_nonce,
            destination_wallet,
            relayer,
        ),
        final(ledger)@ == withdraw_post(old(ledger)@, *ctx, deposit_id, note_nonce),
{
    let record = match ledger.deposits.get(&deposit_id) {
        Some(entry) => entry.metadata,
        None => {
            return Err(ErrorCode::InvalidDepositKey);
        },
    };
    if record.used {
        return Err(ErrorCode::DepositAlreadyUsed);
    }
    if !key_eq(&record.note_nonce, &note_nonce) {
        return Err(ErrorCode::InvalidDepositKey);
    }
    let duration = match holding_duration(record.timestamp, ctx.unix_timestamp) {
        Ok(duration) => duration,
        Err(error) => {
            return Err(error);
        },
    };
    let reward = match ledger.vault_config {
        Some(config) => match accrued_reward(duration, config.reward_rate_per_second) {
            Ok(amount) => Some(
                RewardTransfer {
                    mint: config.reward_mint,
                    source: config.reward_token_vault,
                    amount,
                },
            ),
            Err(error) => {
                return Err(error);
            },
        },
        None => None,
    };
    let relayer_fee = match relayer_fee(record.amount) {
        Ok(fee) => fee,
        Err(error) => {
            return Err(error);
        },
    };
    proof {
        lemma_fee_bounds(record.amount);
    }
    let net_amount = match record.amount.checked_sub(relayer_fee) {
        Some(net_amount) => net_amount,
        None => {
            return Err(ErrorCode::ArithmeticOverflow);
        },
    };
    let mut vault = ledger.vault;
    match vault.debit(net_amount) {
        Ok(()) => {},
        Err(error) => {
            return Err(error);
        },
    }
    match vault.debit(relayer_fee) {
        Ok(()) => {},
        Err(error) => {
            return Err(error);
        },
    }
    match ledger.deposits.mark_used(&deposit_id) {
        Ok(()) => {},
        Err(error) => {
            return Err(error);
        },
    }
    ledger.vault = vault;
    Ok(Withdrawal { destination_wallet, net_amount, relayer, relayer_fee, reward })
}

} // verus!
