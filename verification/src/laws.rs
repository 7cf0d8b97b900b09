//! What holds of the ledger whatever is asked of it.
//!
//! Each law is stated over the functions that say what an operation returns
//! and what it leaves behind, which are the functions that the operations'
//! own contracts are stated over.
use crate::engine::SMALLEST_FEE_BEARING_AMOUNT;
use crate::error::ErrorCode;
use crate::instructions::compressed_deposit::{
    compressed_deposit_error, compressed_deposit_leaf, compressed_deposit_post, CompressedDeposit,
};
use crate::instructions::compressed_withdraw::{
    compressed_withdraw_error, compressed_withdraw_post, CompressedWithdraw, NullifyOutcome,
};
use crate::instructions::deposit::{deposit_outcome, deposit_post, Deposit};
use crate::instructions::initialize_vault_config::{
    initialize_vault_config_outcome, initialize_vault_config_post, InitializeVaultConfig,
};
use crate::instructions::update_vault_config::{
    update_vault_config_outcome, update_vault_config_post, UpdateVaultConfig,
};
use crate::instructions::withdraw::{withdraw_outcome, withdraw_post, Withdraw, Withdrawal};
use crate::leaf::{leaf_bytes, lemma_parse_leaf_bytes};
use crate::ledger::LedgerView;
use crate::router::{
    answer, paid_out, run, step, taken_in, total_paid_out, total_taken_in, InstructionView,
};
use crate::state::{Pubkey, MAX_NOTE_LEN, SIGNATURE_LEN};
use vstd::prelude::*;

verus! {

/// A deposit is redeemed at most once: after a withdrawal of the deposit
/// under `deposit_id` has succeeded, another withdrawal of it is refused with
/// `DepositAlreadyUsed` and changes nothing, whatever its other arguments.
pub proof fn law_second_withdrawal_is_refused(
    pre: LedgerView,
    deposit_id: [u8; 32],
    first: Withdraw,
    first_nonce: [u8; 32],
    first_destination: Pubkey,
    first_relayer: Pubkey,
    second: Withdraw,
    second_nonce: [u8; 32],
    second_destination: Pubkey,
    second_relayer: Pubkey,
)
    requires
        withdraw_outcome(pre, first, deposit_id, first_nonce, first_destination, first_relayer)
            is Ok,
    ensures
        withdraw_post(pre, first, deposit_id, first_nonce).redeemed(deposit_id),
        withdraw_outcome(
            withdraw_post(pre, first, deposit_id, first_nonce),
            second,
            deposit_id,
            second_nonce,
            second_destination,
            second_relayer,
        ) == Err::<Withdrawal, ErrorCode>(ErrorCode::DepositAlreadyUsed),
        withdraw_post(
            withdraw_post(pre, first, deposit_id, first_nonce),
            second,
            deposit_id,
            second_nonce,
        ) == withdraw_post(pre, first, deposit_id, first_nonce),
{
}

/// A redeemed deposit stays redeemed: in every ledger that a ledger with a
/// redeemed deposit leads to, a withdrawal of that deposit is refused with
/// `DepositAlreadyUsed`.
pub proof fn law_redeemed_deposit_is_never_paid_again(
    pre: LedgerView,
    later: LedgerView,
    deposit_id: [u8; 32],
    ctx: Withdraw,
    note_nonce: [u8; 32],
    destination_wallet: Pubkey,
    relayer: Pubkey,
)
    requires
        pre.redeemed(deposit_id),
        pre.leads_to(later),
    ensures
        withdraw_outcome(later, ctx, deposit_id, note_nonce, destination_wallet, relayer) == Err::<
            Withdrawal,
            ErrorCode,
        >(ErrorCode::DepositAlreadyUsed),
{
}

/// A withdrawal pays out what was deposited, no more and no less: the net
/// amount and the relayer's fee together are the deposited amount, and the
/// treasury's balance falls by exactly that.
pub proof fn law_withdrawal_conserves_value(
    pre: LedgerView,
    ctx: Withdraw,
    deposit_id: [u8; 32],
    note_nonce: [u8; 32],
    destination_wallet: Pubkey,
    relayer: Pubkey,
)
    requires
        withdraw_outcome(pre, ctx, deposit_id, note_nonce, destination_wallet, relayer) is Ok,
    ensures
        ({
            let paid = withdraw_outcome(
                pre,
                ctx,
                deposit_id,
                note_nonce,
                destination_wallet,
                relayer,
            )->Ok_0;
            let post = withdraw_post(pre, ctx, deposit_id, note_nonce);
            &&& paid.net_amount + paid.relayer_fee == pre.deposits[deposit_id].metadata.amount
            &&& paid.relayer_fee <= pre.deposits[deposit_id].metadata.amount
            &&& post.vault.balance + paid.net_amount + paid.relayer_fee == pre.vault.balance
        }),
{
}

/// The fee is half a percent of the deposited amount, rounded down; so a
/// deposit of less than 200 units is paid out whole.
pub proof fn law_relayer_fee_is_floored(
    pre: LedgerView,
    ctx: Withdraw,
    deposit_id: [u8; 32],
    note_nonce: [u8; 32],
    destination_wallet: Pubkey,
    relayer: Pubkey,
)
    requires
        withdraw_outcome(pre, ctx, deposit_id, note_nonce, destination_wallet, relayer) is Ok,
    ensures
        ({
            let paid = withdraw_outcome(
                pre,
                ctx,
                deposit_id,
                note_nonce,
                destination_wallet,
                relayer,
            )->Ok_0;
            let amount = pre.deposits[deposit_id].metadata.amount;
            &&& paid.relayer_fee == (amount * 5) / 1000
            &&& amount < SMALLEST_FEE_BEARING_AMOUNT ==> paid.relayer_fee == 0 && paid.net_amount
                == amount
            &&& amount >= SMALLEST_FEE_BEARING_AMOUNT ==> paid.relayer_fee > 0
        }),
{
}

/// The reward of a withdrawal is the time held times the configured rate,
/// exactly.
pub proof fn law_reward_is_exact(
    pre: LedgerView,
    ctx: Withdraw,
    deposit_id: [u8; 32],
    note_nonce: [u8; 32],
    destination_wallet: Pubkey,
    relayer: Pubkey,
)
    requires
        withdraw_outcome(pre, ctx, deposit_id, note_nonce, destination_wallet, relayer) is Ok,
        pre.vault_config is Some,
    ensures
        ({
            let paid = withdraw_outcome(
                pre,
                ctx,
                deposit_id,
                note_nonce,
                destination_wallet,
                relayer,
            )->Ok_0;
            let record = pre.deposits[deposit_id].metadata;
            let config = pre.vault_config->0;
            &&& ctx.unix_timestamp >= record.timestamp
            &&& paid.reward is Some
            &&& paid.reward->0.amount == (ctx.unix_timestamp - record.timestamp)
                * config.reward_rate_per_second
            &&& paid.reward->0.mint == config.reward_mint
            &&& paid.reward->0.source == config.reward_token_vault
        }),
{
}

/// A withdrawal dated before its deposit is refused with
/// `ArithmeticOverflow`: the time held is never taken to be zero instead.
pub proof fn law_withdrawal_before_deposit_is_refused(
    pre: LedgerView,
    ctx: Withdraw,
    deposit_id: [u8; 32],
    note_nonce: [u8; 32],
    destination_wallet: Pubkey,
    relayer: Pubkey,
)
    requires
        pre.deposits.contains_key(deposit_id),
        !pre.deposits[deposit_id].metadata.used,
        pre.deposits[deposit_id].metadata.note_nonce == note_nonce,
        ctx.unix_timestamp < pre.deposits[deposit_id].metadata.timestamp,
    ensures
        withdraw_outcome(pre, ctx, deposit_id, note_nonce, destination_wallet, relayer) == Err::<
            Withdrawal,
            ErrorCode,
        >(ErrorCode::ArithmeticOverflow),
        withdraw_post(pre, ctx, deposit_id, note_nonce) == pre,
{
}

/// A deposit key is taken once: after a deposit under `deposit_id` has
/// succeeded, another deposit under it is refused and changes nothing, so the
/// first deposit's record and note stay as they are. The refusal is
/// `DuplicateDeposit` unless the second deposit is unacceptable in itself: a
/// zero amount, an oversized note, a bad signature, or an amount that the
/// treasury cannot hold.
pub proof fn law_duplicate_deposit_is_refused(
    pre: LedgerView,
    deposit_id: [u8; 32],
    first: Deposit,
    first_nonce: [u8; 32],
    first_note: Seq<u8>,
    first_signature_len: nat,
    first_amount: u64,
    second: Deposit,
    second_nonce: [u8; 32],
    second_note: Seq<u8>,
    second_signature_len: nat,
    second_amount: u64,
)
    requires
        deposit_outcome(pre, first, deposit_id, first_note.len(), first_signature_len, first_amount)
            is Ok,
    ensures
        ({
            let between = deposit_post(
                pre,
                first,
                deposit_id,
                first_nonce,
                first_note,
                first_signature_len,
                first_amount,
            );
            let outcome = deposit_outcome(
                between,
                second,
                deposit_id,
                second_note.len(),
                second_signature_len,
                second_amount,
            );
            let post = deposit_post(
                between,
                second,
                deposit_id,
                second_nonce,
                second_note,
                second_signature_len,
                second_amount,
            );
            &&& outcome is Err
            &&& post == between
            &&& post.deposits[deposit_id] == between.deposits[deposit_id]
            &&& (second_amount > 0 && second_note.len() <= MAX_NOTE_LEN
                && second_signature_len == SIGNATURE_LEN && second.authenticated
                && between.vault.balance + second_amount <= u64::MAX) ==> outcome == Err::<
                (),
                ErrorCode,
            >(ErrorCode::DuplicateDeposit)
        }),
{
}

/// What was deposited can be redeemed: right after a deposit has succeeded,
/// a withdrawal of it with the nonce it was made with succeeds, provided that
/// the clock has not run backwards and that the reward and five times the
/// amount fit in 64 bits. It pays the deposited amount and leaves the
/// treasury holding what it held before the deposit.
pub proof fn law_deposit_can_be_redeemed(
    pre: LedgerView,
    deposit_id: [u8; 32],
    note_nonce: [u8; 32],
    on_deposit: Deposit,
    encrypted_note_data: Seq<u8>,
    signature_len: nat,
    amount: u64,
    on_withdraw: Withdraw,
    destination_wallet: Pubkey,
    relayer: Pubkey,
)
    requires
        deposit_outcome(
            pre,
            on_deposit,
            deposit_id,
            encrypted_note_data.len(),
            signature_len,
            amount,
        ) is Ok,
        on_withdraw.unix_timestamp >= on_deposit.unix_timestamp,
        amount * 5 <= u64::MAX,
        pre.vault_config matches Some(config) ==> (on_withdraw.unix_timestamp
            - on_deposit.unix_timestamp) * config.reward_rate_per_second <= u64::MAX,
    ensures
        ({
            let between = deposit_post(
                pre,
                on_deposit,
                deposit_id,
                note_nonce,
                encrypted_note_data,
                signature_len,
                amount,
            );
            let outcome = withdraw_outcome(
                between,
                on_withdraw,
                deposit_id,
                note_nonce,
                destination_wallet,
                relayer,
            );
            let post = withdraw_post(between, on_withdraw, deposit_id, note_nonce);
            &&& outcome is Ok
            &&& outcome->Ok_0.net_amount + outcome->Ok_0.relayer_fee == amount
            &&& outcome->Ok_0.destination_wallet == destination_wallet
            &&& outcome->Ok_0.relayer == relayer
            &&& post.vault == pre.vault
            &&& post.redeemed(deposit_id)
        }),
{
}

/// Only the authority changes the configuration: a change asked for by
/// anybody else is refused with `Unauthorized` and leaves every field, and
/// the rest of the ledger, as it was.
pub proof fn law_unauthorized_update_changes_nothing(
    pre: LedgerView,
    ctx: UpdateVaultConfig,
    reward_mint: Option<Pubkey>,
    reward_token_vault: Option<Pubkey>,
    reward_rate_per_second: Option<u64>,
)
    requires
        !(pre.vault_config matches Some(config) && config.authority == ctx.authority),
    ensures
        update_vault_config_outcome(pre, ctx) == Err::<(), ErrorCode>(ErrorCode::Unauthorized),
        update_vault_config_post(pre, ctx, reward_mint, reward_token_vault, reward_rate_per_second)
            == pre,
{
}

/// The configuration is created once: after a creation has succeeded,
/// another is refused with `AlreadyInitialized` and changes nothing.
pub proof fn law_configuration_is_created_once(
    pre: LedgerView,
    first: InitializeVaultConfig,
    first_authority: Pubkey,
    first_mint: Pubkey,
    first_custody: Pubkey,
    first_rate: u64,
    second: InitializeVaultConfig,
    second_authority: Pubkey,
    second_mint: Pubkey,
    second_custody: Pubkey,
    second_rate: u64,
)
    requires
        initialize_vault_config_outcome(pre) is Ok,
    ensures
        ({
            let between = initialize_vault_config_post(
                pre,
                first,
                first_authority,
                first_mint,
                first_custody,
                first_rate,
            );
            &&& initialize_vault_config_outcome(between) == Err::<(), ErrorCode>(
                ErrorCode::AlreadyInitialized,
            )
            &&& initialize_vault_config_post(
                between,
                second,
                second_authority,
                second_mint,
                second_custody,
                second_rate,
            ) == between
        }),
{
}

/// What a compressed deposit takes in is what the withdrawal of its leaf pays
/// out: the leaf of a successful deposit spells the deposited amount, a
/// withdrawal of it that names another amount is refused, and one that names
/// this amount, once the tree has nullified the leaf, pays exactly this
/// amount out of the treasury.
pub proof fn law_compressed_leaf_commits_amount(
    pre: LedgerView,
    deposit_ctx: CompressedDeposit,
    encrypted_note_data: Seq<u8>,
    signature: Seq<u8>,
    amount: u64,
    withdraw_ctx: CompressedWithdraw,
    nullifier: [u8; 32],
    leaf_index: u64,
    destination_wallet: Pubkey,
    withdrawal_amount: u64,
)
    requires
        compressed_deposit_error(
            pre,
            deposit_ctx,
            encrypted_note_data.len(),
            signature.len(),
            amount,
        ) is None,
    ensures
        ({
            let leaf_data = leaf_bytes(
                compressed_deposit_leaf(deposit_ctx, encrypted_note_data, signature, amount),
            );
            let between = compressed_deposit_post(
                pre,
                deposit_ctx,
                encrypted_note_data.len(),
                signature.len(),
                amount,
            );
            let error = compressed_withdraw_error(
                between,
                withdraw_ctx,
                leaf_data,
                withdrawal_amount,
            );
            let post = compressed_withdraw_post(between, withdraw_ctx, leaf_data, withdrawal_amount);
            &&& between.vault.balance == pre.vault.balance + amount
            &&& withdrawal_amount != amount ==> error == Some(ErrorCode::InvalidAmount)
            &&& withdrawal_amount == amount && withdraw_ctx.nullify_outcome
                == NullifyOutcome::Nullified ==> error is None && post.vault.balance
                == pre.vault.balance
            &&& withdraw_ctx.nullify_outcome != NullifyOutcome::Nullified ==> error is Some && post
                == between
        }),
{
    lemma_parse_leaf_bytes(
        compressed_deposit_leaf(deposit_ctx, encrypted_note_data, signature, amount),
    );
}

/// `leads_to` is a preorder: every ledger leads to itself, and where one
/// leads to a second and the second to a third, the first leads to the third.
pub proof fn law_leads_to_is_a_preorder(first: LedgerView, second: LedgerView, third: LedgerView)
    ensures
        first.leads_to(first),
        first.leads_to(second) && second.leads_to(third) ==> first.leads_to(third),
{
    if first.leads_to(second) && second.leads_to(third) {
        assert forall|key: [u8; 32]| #[trigger] first.deposits.contains_key(key) implies {
            &&& third.deposits.contains_key(key)
            &&& third.deposits[key].note == first.deposits[key].note
            &&& third.deposits[key].metadata.deposit_id == first.deposits[key].metadata.deposit_id
            &&& third.deposits[key].metadata.amount == first.deposits[key].metadata.amount
            &&& third.deposits[key].metadata.timestamp == first.deposits[key].metadata.timestamp
            &&& third.deposits[key].metadata.note_nonce
                == first.deposits[key].metadata.note_nonce
            &&& third.deposits[key].metadata.bump == first.deposits[key].metadata.bump
            &&& first.deposits[key].metadata.used ==> third.deposits[key].metadata.used
        } by {
            assert(second.deposits.contains_key(key));
        }
    }
}

/// No instruction rewrites history. Whatever it asks for, the ledger it
/// leaves behind is one that the ledger it found leads to: no deposit is
/// removed, no amount, timestamp, nonce or note is changed, no redeemed
/// deposit becomes redeemable again, and the authority of the configuration
/// stays. It also keeps the records valid, and where it is refused, it
/// changes nothing.
pub proof fn law_step_preserves_history(pre: LedgerView, instruction: InstructionView)
    ensures
        pre.leads_to(step(pre, instruction)),
        pre.records_valid() ==> step(pre, instruction).records_valid(),
        answer(pre, instruction) is Err ==> step(pre, instruction) == pre,
{
}

/// No instruction creates or destroys value: the treasury's balance changes
/// by what the instruction takes in and what it pays out, and by nothing
/// else.
pub proof fn law_step_keeps_custody_exact(pre: LedgerView, instruction: InstructionView)
    ensures
        step(pre, instruction).vault.balance + paid_out(pre, instruction) == pre.vault.balance
            + taken_in(pre, instruction),
{
}

/// Custody is exact over every history: after any sequence of instructions,
/// the treasury holds what it held at first, and all that was taken in, less
/// all that was paid out.
pub proof fn law_run_keeps_custody_exact(pre: LedgerView, instructions: Seq<InstructionView>)
    ensures
        run(pre, instructions).vault.balance + total_paid_out(pre, instructions)
            == pre.vault.balance + total_taken_in(pre, instructions),
    decreases instructions.len(),
{
    if instructions.len() > 0 {
        law_run_keeps_custody_exact(pre, instructions.drop_last());
        law_step_keeps_custody_exact(run(pre, instructions.drop_last()), instructions.last());
    }
}

/// No sequence of instructions rewrites history: what holds of one
/// instruction holds of any number of them, in any order.
pub proof fn law_run_preserves_history(pre: LedgerView, instructions: Seq<InstructionView>)
    ensures
        pre.leads_to(run(pre, instructions)),
        pre.records_valid() ==> run(pre, instructions).records_valid(),
    decreases instructions.len(),
{
    if instructions.len() == 0 {
        law_leads_to_is_a_preorder(pre, pre, pre);
    } else {
        let before = run(pre, instructions.drop_last());
        law_run_preserves_history(pre, instructions.drop_last());
        law_step_preserves_history(before, instructions.last());
        law_leads_to_is_a_preorder(pre, before, step(before, instructions.last()));
    }
}

/// Every ledger that comes from the empty one holds valid records only.
pub proof fn law_reachable_ledgers_are_valid(instructions: Seq<InstructionView>)
    ensures
        run(LedgerView::empty(), instructions).records_valid(),
{
    law_run_preserves_history(LedgerView::empty(), instructions);
}

/// Redemption is final under every history: once a deposit is redeemed, then
/// after any sequence of instructions whatever, a withdrawal of it is
/// refused with `DepositAlreadyUsed` and changes nothing.
pub proof fn law_no_run_redeems_twice(
    pre: LedgerView,
    instructions: Seq<InstructionView>,
    deposit_id: [u8; 32],
    ctx: Withdraw,
    note_nonce: [u8; 32],
    destination_wallet: Pubkey,
    relayer: Pubkey,
)
    requires
        pre.redeemed(deposit_id),
    ensures
        withdraw_outcome(
            run(pre, instructions),
            ctx,
            deposit_id,
            note_nonce,
            destination_wallet,
            relayer,
        ) == Err::<Withdrawal, ErrorCode>(ErrorCode::DepositAlreadyUsed),
        withdraw_post(run(pre, instructions), ctx, deposit_id, note_nonce) == run(
            pre,
            instructions,
        ),
{
    law_run_preserves_history(pre, instructions);
}

/// A recorded deposit keeps its record under every history: after any
/// sequence of instructions, a second deposit under its key is refused, and
/// its amount, timestamp, nonce and note are what they were.
pub proof fn law_no_run_replaces_a_deposit(
    pre: LedgerView,
    instructions: Seq<InstructionView>,
    deposit_id: [u8; 32],
    ctx: Deposit,
    note_len: nat,
    signature_len: nat,
    amount: u64,
)
    requires
        pre.deposits.contains_key(deposit_id),
    ensures
        deposit_outcome(run(pre, instructions), ctx, deposit_id, note_len, signature_len, amount)
            is Err,
        run(pre, instructions).deposits.contains_key(deposit_id),
        run(pre, instructions).deposits[deposit_id].metadata.amount
            == pre.deposits[deposit_id].metadata.amount,
        run(pre, instructions).deposits[deposit_id].metadata.timestamp
            == pre.deposits[deposit_id].metadata.timestamp,
        run(pre, instructions).deposits[deposit_id].metadata.note_nonce
            == pre.deposits[deposit_id].metadata.note_nonce,
        run(pre, instructions).deposits[deposit_id].note == pre.deposits[deposit_id].note,
{
    law_run_preserves_history(pre, instructions);
}

} // verus!
