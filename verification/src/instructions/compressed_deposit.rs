use crate::error::ErrorCode;
use crate::leaf::{encode_leaf, leaf_bytes, CompressedLeafView};
use crate::ledger::{Ledger, LedgerView};
use crate::state::{Pubkey, MAX_NOTE_LEN, SIGNATURE_LEN};
use crate::treasury::Treasury;
use vstd::prelude::*;

verus! {

/// What the surroundings contribute to a compressed deposit.
#[derive(Clone, Copy, Debug, PartialEq, Eq)]
pub struct CompressedDeposit {
    /// Who deposits.
    pub depositor: Pubkey,
    /// The clock reading, in seconds.
    pub unix_timestamp: i64,
    /// Whether the signature was found to be the depositor's. The ledger
    /// checks the signature's length and nothing else about it: whether it is
    /// authentic is decided outside and handed in here.
    pub authenticated: bool,
}

/// The error that refuses a compressed deposit, if any.
pub open spec fn compressed_deposit_error(
    pre: LedgerView,
    ctx: CompressedDeposit,
    note_len: nat,
    signature_len: nat,
    amount: u64,
) -> Option<ErrorCode> {
    if note_len > MAX_NOTE_LEN {
        Some(ErrorCode::NoteTooLarge)
    } else if signature_len != SIGNATURE_LEN || !ctx.authenticated {
        Some(ErrorCode::InvalidSignature)
    } else if pre.vault.balance + amount > u64::MAX {
        Some(ErrorCode::ArithmeticOverflow)
    } else {
        None
    }
}

/// The leaf that a compressed deposit commits to.
pub open spec fn compressed_deposit_leaf(
    ctx: CompressedDeposit,
    encrypted_note_data: Seq<u8>,
    signature: Seq<u8>,
    amount: u64,
) -> CompressedLeafView {
    CompressedLeafView {
        ciphertext: encrypted_note_data,
        signature,
        amount,
        timestamp: ctx.unix_timestamp,
        depositor: ctx.depositor.bytes@,
    }
}

/// The ledger after a compressed deposit: the treasury has taken the amount
/// in, or, where the deposit is refused, nothing has changed.
pub open spec fn compressed_deposit_post(
    pre: LedgerView,
    ctx: CompressedDeposit,
    note_len: nat,
    signature_len: nat,
    amount: u64,
) -> LedgerView {
    if compressed_deposit_error(pre, ctx, note_len, signature_len, amount) is Some {
        pre
    } else {
        LedgerView { vault: Treasury { balance: (pre.vault.balance + amount) as u64 }, ..pre }
    }
}

/// Takes `amount` into the treasury and returns the bytes of the leaf that
/// the caller is to append to the commitment tree.
///
/// The deposit is refused, and the ledger left as it was,
/// - with `NoteTooLarge` when the ciphertext is longer than 1024 bytes,
/// - with `InvalidSignature` when the signature is not 64 bytes long or was
///   not authenticated,
/// - with `ArithmeticOverflow` when the treasury cannot hold the amount.
pub fn compressed_deposit(
    ledger: &mut Ledger,
    ctx: &CompressedDeposit,
    encrypted_note_data: Vec<u8>,
    signature: &[u8],
    amount: u64,
) -> (outcome: Result<Vec<u8>, ErrorCode>)
    ensures
        compressed_deposit_error(
            old(ledger)@,
            *ctx,
            encrypted_note_data@.len(),
            signature@.len(),
            amount,
        ) matches Some(error) ==> outcome == Err::<Vec<u8>, ErrorCode>(error),
        compressed_deposit_error(
            old(ledger)@,
            *ctx,
            encrypted_note_data@.len(),
            signature@.len(),
            amount,
        ) is None ==> outcome is Ok && outcome->Ok_0@ == leaf_bytes(
            compressed_deposit_leaf(*ctx, encrypted_note_data@, signature@, amount),
        ),
        final(ledger)@ == compressed_deposit_post(
            old(ledger)@,
            *ctx,
            encrypted_note_data@.len(),
            signature@.len(),
            amount,
        ),
{
    if encrypted_note_data.len() > MAX_NOTE_LEN {
        return Err(ErrorCode::NoteTooLarge);
    }
    if signature.len() != SIGNATURE_LEN || !ctx.authenticated {
        return Err(ErrorCode::InvalidSignature);
    }
    match ledger.vault.credit(amount) {
        Ok(()) => {},
        Err(error) => {
            return Err(error);
        },
    }
    Ok(
        encode_leaf(
            encrypted_note_data.as_slice(),
            signature,
            amount,
            ctx.unix_timestamp,
            &ctx.depositor,
        ),
    )
}

} // verus!
