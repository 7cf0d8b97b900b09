use crate::error::ErrorCode;
use crate::ledger::{Ledger, LedgerView};
use crate::state::{
    DepositMetadata, EncryptedNote, EncryptedNoteView, MAX_NOTE_LEN, SIGNATURE_LEN,
};
use crate::store::DepositEntryView;
use crate::treasury::Treasury;
use vstd::prelude::*;

verus! {

/// What the surroundings contribute to a deposit.
#[derive(Clone, Copy, Debug, PartialEq, Eq)]
pub struct Deposit {
    /// The clock reading, in seconds.
    pub unix_timestamp: i64,
    /// Whether the signature was found to be the depositor's. The ledger
    /// checks the signature's length and nothing else about it: whether it is
    /// authentic is decided outside and handed in here.
    pub authenticated: bool,
    /// Derivation seed of the record's storage location.
    pub deposit_bump: u8,
    /// Derivation seed of the note's storage location.
    pub note_bump: u8,
}

/// The error that refuses a deposit, if any. The checks are made in the
/// order in which they are written.
pub open spec fn deposit_error(
    pre: LedgerView,
    ctx: Deposit,
    deposit_id: [u8; 32],
    note_len: nat,
    signature_len: nat,
    amount: u64,
) -> Option<ErrorCode> {
    if amount == 0 {
        Some(ErrorCode::InvalidAmount)
    } else if note_len > MAX_NOTE_LEN {
        Some(ErrorCode::NoteTooLarge)
    } else if signature_len != SIGNATURE_LEN || !ctx.authenticated {
        Some(ErrorCode::InvalidSignature)
    } else if pre.vault.balance + amount > u64::MAX {
        Some(ErrorCode::ArithmeticOverflow)
    } else if pre.deposits.contains_key(deposit_id) {
        Some(ErrorCode::DuplicateDeposit)
    } else {
        None
    }
}

/// The entry that a deposit records: not yet redeemed, dated by the clock.
pub open spec fn deposit_entry(
    ctx: Deposit,
    deposit_id: [u8; 32],
    note_nonce: [u8; 32],
    encrypted_note_data: Seq<u8>,
    amount: u64,
) -> DepositEntryView {
    DepositEntryView {
        metadata: DepositMetadata {
            deposit_id,
            amount,
            timestamp: ctx.unix_timestamp,
            used: false,
            note_nonce,
            bump: ctx.deposit_bump,
        },
        note: EncryptedNoteView { encrypted_data: encrypted_note_data, bump: ctx.note_bump },
    }
}

/// What a deposit returns.
pub open spec fn deposit_outcome(
    pre: LedgerView,
    ctx: Deposit,
    deposit_id: [u8; 32],
    note_len: nat,
    signature_len: nat,
    amount: u64,
) -> Result<(), ErrorCode> {
    match deposit_error(pre, ctx, deposit_id, note_len, signature_len, amount) {
        Some(error) => Err(error),
        None => Ok(()),
    }
}

/// The ledger after a deposit: the treasury has taken the amount in and the
/// entry stands under its key, or, where the deposit is refused, nothing has
/// changed.
pub open spec fn deposit_post(
    pre: LedgerView,
    ctx: Deposit,
    deposit_id: [u8; 32],
    note_nonce: [u8; 32],
    encrypted_note_data: Seq<u8>,
    signature_len: nat,
    amount: u64,
) -> LedgerView {
    if deposit_error(pre, ctx, deposit_id, encrypted_note_data.len(), signature_len, amount)
        is Some {
        pre
    } else {
        LedgerView {
            vault: Treasury { balance: (pre.vault.balance + amount) as u64 },
            deposits: pre.deposits.insert(
                deposit_id,
                deposit_entry(ctx, deposit_id, note_nonce, encrypted_note_data, amount),
            ),
            ..pre
        }
    }
}

/// Takes `amount` into the treasury and records the deposit, with its
/// encrypted note, under `deposit_id`.
///
/// The deposit is refused, and the ledger left as it was,
/// - with `InvalidAmount` when `amount` is zero,
/// - with `NoteTooLarge` when the ciphertext is longer than 1024 bytes,
/// - with `InvalidSignature` when the signature is not 64 bytes long or was
///   not authenticated,
/// - with `ArithmeticOverflow` when the treasury cannot hold the amount,
/// - with `DuplicateDeposit` when a deposit stands under `deposit_id` already.
pub fn deposit(
    ledger: &mut Ledger,
    ctx: &Deposit,
    deposit_id: [u8; 32],
    note_nonce: [u8; 32],
    encrypted_note_data: Vec<u8>,
    signature: &[u8],
    amount: u64,
) -> (outcome: Result<(), ErrorCode>)
    ensures
        outcome == deposit_outcome(
            old(ledger)@,
            *ctx,
            deposit_id,
            encrypted_note_data@.len(),
            signature@.len(),
            amount,
        ),
        final(ledger)@ == deposit_post(
            old(ledger)@,
            *ctx,
            deposit_id,
            note_nonce,
            encrypted_note_data@,
            signature@.len(),
            amount,
        ),
{
    if amount == 0 {
        return Err(ErrorCode::InvalidAmount);
    }
    if encrypted_note_data.len() > MAX_NOTE_LEN {
        return Err(ErrorCode::NoteTooLarge);
    }
    if signature.len() != SIGNATURE_LEN || !ctx.authenticated {
        return Err(ErrorCode::InvalidSignature);
    }
    let mut vault = ledger.vault;
    match vault.credit(amount) {
        Ok(()) => {},
        Err(error) => {
            return Err(error);
        },
    }
    let metadata = DepositMetadata {
        deposit_id,
        amount,
        timestamp: ctx.unix_timestamp,
        used: false,
        note_nonce,
        bump: ctx.deposit_bump,
    };
    let note = EncryptedNote { encrypted_data: encrypted_note_data, bump: ctx.note_bump };
    match ledger.deposits.create(metadata, note) {
        Ok(()) => {},
        Err(error) => {
            return Err(error);
        },
    }
    ledger.vault = vault;
    Ok(())
}

} // verus!
