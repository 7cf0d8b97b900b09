use vstd::prelude::*;

verus! {

/// Every way in which an operation on the ledger can be refused.
///
/// A refused operation has no effect: the ledger is left as it was.
#[derive(Clone, Copy, Debug, PartialEq, Eq, Structural)]
pub enum ErrorCode {
    /// The authentication material has the wrong length or was not accepted.
    InvalidSignature,
    /// The deposit has been redeemed before.
    DepositAlreadyUsed,
    /// The bytes presented as a committed leaf are not a leaf of this ledger.
    InvalidCommitment,
    /// The nullifier has been spent before.
    InvalidNullifierHash,
    /// The caller is not the authority of the vault configuration.
    Unauthorized,
    /// The amount is zero, or is not the amount that was committed.
    InvalidAmount,
    /// A sum, product or difference left the range of its type, or a debit
    /// exceeded the balance it was drawn from.
    ArithmeticOverflow,
    /// The ciphertext is longer than an encrypted note may be.
    NoteTooLarge,
    /// No deposit is recorded under the key, or the note nonce is not the one
    /// recorded with it.
    InvalidDepositKey,
    /// A deposit is already recorded under the key.
    DuplicateDeposit,
    /// The commitment tree did not accept the inclusion proof.
    ProofRejected,
    /// The vault configuration exists already.
    AlreadyInitialized,
}

impl ErrorCode {
    /// The text that describes each error.
    pub open spec fn message_text(self) -> Seq<char> {
        match self {
            ErrorCode::InvalidSignature => "Invalid signature for commitment"@,
            ErrorCode::DepositAlreadyUsed => "Deposit has already been used"@,
            ErrorCode::InvalidCommitment => "Invalid commitment"@,
            ErrorCode::InvalidNullifierHash => "Invalid nullifier hash"@,
            ErrorCode::Unauthorized => "Unauthorized access"@,
            ErrorCode::InvalidAmount => "Invalid amount"@,
            ErrorCode::ArithmeticOverflow => "Arithmetic overflow"@,
            ErrorCode::NoteTooLarge => "Encrypted note data too large"@,
            ErrorCode::InvalidDepositKey => "Invalid deposit key"@,
            ErrorCode::DuplicateDeposit => "Deposit key already exists"@,
            ErrorCode::ProofRejected => "Merkle proof rejected"@,
            ErrorCode::AlreadyInitialized => "Vault config already initialized"@,
        }
    }

    /// A human-readable description of the error.
    pub fn message(&self) -> (text: &'static str)
        ensures
            text@ == self.message_text(),
    {
        match self {
            ErrorCode::InvalidSignature => "Invalid signature for commitment",
            ErrorCode::DepositAlreadyUsed => "Deposit has already been used",
            ErrorCode::InvalidCommitment => "Invalid commitment",
            ErrorCode::InvalidNullifierHash => "Invalid nullifier hash",
            ErrorCode::Unauthorized => "Unauthorized access",
            ErrorCode::InvalidAmount => "Invalid amount",
            ErrorCode::ArithmeticOverflow => "Arithmetic overflow",
            ErrorCode::NoteTooLarge => "Encrypted note data too large",
            ErrorCode::InvalidDepositKey => "Invalid deposit key",
            ErrorCode::DuplicateDeposit => "Deposit key already exists",
            ErrorCode::ProofRejected => "Merkle proof rejected",
            ErrorCode::AlreadyInitialized => "Vault config already initialized",
        }
    }
}

} // verus!
