use privacy_vault::ErrorCode;

#[test]
fn each_error_has_its_message() {
    assert_eq!(ErrorCode::InvalidSignature.message(), "Invalid signature for commitment");
    assert_eq!(ErrorCode::DepositAlreadyUsed.message(), "Deposit has already been used");
    assert_eq!(ErrorCode::InvalidCommitment.message(), "Invalid commitment");
    assert_eq!(ErrorCode::InvalidNullifierHash.message(), "Invalid nullifier hash");
    assert_eq!(ErrorCode::Unauthorized.message(), "Unauthorized access");
    assert_eq!(ErrorCode::InvalidAmount.message(), "Invalid amount");
    assert_eq!(ErrorCode::ArithmeticOverflow.message(), "Arithmetic overflow");
    assert_eq!(ErrorCode::NoteTooLarge.message(), "Encrypted note data too large");
    assert_eq!(ErrorCode::InvalidDepositKey.message(), "Invalid deposit key");
    assert_eq!(ErrorCode::DuplicateDeposit.message(), "Deposit key already exists");
    assert_eq!(ErrorCode::ProofRejected.message(), "Merkle proof rejected");
    assert_eq!(ErrorCode::AlreadyInitialized.message(), "Vault config already initialized");
}

#[test]
fn errors_compare_by_variant() {
    assert_eq!(ErrorCode::InvalidAmount, ErrorCode::InvalidAmount);
    assert_ne!(ErrorCode::InvalidAmount, ErrorCode::NoteTooLarge);
    assert_ne!(ErrorCode::InvalidDepositKey, ErrorCode::InvalidNullifierHash);
}
