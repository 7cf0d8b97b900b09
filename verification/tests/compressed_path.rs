use privacy_vault::instructions::{compressed_deposit, compressed_withdraw};
use privacy_vault::{
    decode_leaf, CompressedDeposit, CompressedWithdraw, CompressedWithdrawal, ErrorCode, Ledger,
    NullifyOutcome, Pubkey, Treasury,
};

fn who(byte: u8) -> Pubkey {
    Pubkey::new_from_array([byte; 32])
}

fn depositing(unix_timestamp: i64) -> CompressedDeposit {
    CompressedDeposit { depositor: who(0xdd), unix_timestamp, authenticated: true }
}

fn answered(nullify_outcome: NullifyOutcome) -> CompressedWithdraw {
    CompressedWithdraw { nullify_outcome }
}

#[test]
fn compressed_deposit_returns_the_leaf() {
    let mut ledger = Ledger::new();
    let leaf = compressed_deposit(&mut ledger, &depositing(1234), vec![0xc0, 0xc1], &[0x51u8; 64], 1000).unwrap();
    let mut expected: Vec<u8> = vec![0xc0, 0xc1];
    expected.extend_from_slice(&[0x51; 64]);
    expected.extend_from_slice(&1000u64.to_le_bytes());
    expected.extend_from_slice(&1234i64.to_le_bytes());
    expected.extend_from_slice(&[0xdd; 32]);
    assert_eq!(leaf, expected);
    assert_eq!(ledger.vault.balance, 1000);
    assert!(!ledger.deposits.contains(&[0; 32]));
    assert_eq!(ledger.vault_config, None);
}

#[test]
fn compressed_deposit_with_an_oversized_note_is_refused() {
    let mut ledger = Ledger::new();
    assert_eq!(
        compressed_deposit(&mut ledger, &depositing(0), vec![0; 1025], &[0u8; 64], 10),
        Err(ErrorCode::NoteTooLarge)
    );
    assert_eq!(ledger, Ledger::new());
    let leaf = compressed_deposit(&mut ledger, &depositing(0), vec![0; 1024], &[0u8; 64], 10).unwrap();
    assert_eq!(leaf.len(), 1024 + 112);
}

#[test]
fn compressed_deposit_with_a_bad_signature_is_refused() {
    let mut ledger = Ledger::new();
    assert_eq!(
        compressed_deposit(&mut ledger, &depositing(0), vec![1], &[0u8; 32], 10),
        Err(ErrorCode::InvalidSignature)
    );
    let rejected = CompressedDeposit { depositor: who(1), unix_timestamp: 0, authenticated: false };
    assert_eq!(
        compressed_deposit(&mut ledger, &rejected, vec![1], &[0u8; 64], 10),
        Err(ErrorCode::InvalidSignature)
    );
    assert_eq!(
        compressed_deposit(&mut ledger, &rejected, vec![0; 1025], &[0u8; 64], 10),
        Err(ErrorCode::NoteTooLarge)
    );
    assert_eq!(ledger, Ledger::new());
}

#[test]
fn compressed_deposit_that_the_treasury_cannot_hold_is_refused() {
    let mut ledger = Ledger::new();
    ledger.vault = Treasury { balance: u64::MAX };
    assert_eq!(
        compressed_deposit(&mut ledger, &depositing(0), vec![1], &[0u8; 64], 1),
        Err(ErrorCode::ArithmeticOverflow)
    );
    assert_eq!(ledger.vault.balance, u64::MAX);
    assert!(compressed_deposit(&mut ledger, &depositing(0), vec![1], &[0u8; 64], 0).is_ok());
    assert_eq!(ledger.vault.balance, u64::MAX);
}

#[test]
fn compressed_withdrawal_pays_what_the_leaf_commits_to() {
    let mut ledger = Ledger::new();
    ledger.vault = Treasury { balance: 40 };
    let leaf = compressed_deposit(&mut ledger, &depositing(5), vec![1, 2, 3], &[0u8; 64], 1000).unwrap();
    assert_eq!(decode_leaf(&leaf).unwrap().amount, 1000);
    let paid = compressed_withdraw(
        &mut ledger,
        &answered(NullifyOutcome::Nullified),
        [0x11; 32],
        3,
        &leaf,
        who(4),
        who(5),
        1000,
    );
    assert_eq!(
        paid,
        Ok(CompressedWithdrawal { nullifier: [0x11; 32], leaf_index: 3, destination_wallet: who(4), amount: 1000 })
    );
    assert_eq!(ledger.vault.balance, 40);
}

#[test]
fn compressed_withdrawal_of_another_amount_is_refused() {
    let mut ledger = Ledger::new();
    let leaf = compressed_deposit(&mut ledger, &depositing(5), vec![1, 2, 3], &[0u8; 64], 1000).unwrap();
    compressed_deposit(&mut ledger, &depositing(6), vec![4], &[0u8; 64], 5000).unwrap();
    let before = ledger.clone();
    for claimed in [0u64, 999, 1001, 6000] {
        assert_eq!(
            compressed_withdraw(&mut ledger, &answered(NullifyOutcome::Nullified), [0; 32], 0, &leaf, who(4), who(5), claimed),
            Err(ErrorCode::InvalidAmount)
        );
        assert_eq!(ledger, before);
    }
}

#[test]
fn compressed_withdrawal_of_no_leaf_is_refused() {
    let mut ledger = Ledger::new();
    ledger.vault = Treasury { balance: 100 };
    assert_eq!(
        compressed_withdraw(&mut ledger, &answered(NullifyOutcome::Nullified), [0; 32], 0, &[0u8; 111], who(4), who(5), 0),
        Err(ErrorCode::InvalidCommitment)
    );
    assert_eq!(
        compressed_withdraw(&mut ledger, &answered(NullifyOutcome::Nullified), [0; 32], 0, &vec![0u8; 1137], who(4), who(5), 0),
        Err(ErrorCode::InvalidCommitment)
    );
    assert_eq!(ledger.vault.balance, 100);
}

#[test]
fn compressed_withdrawal_follows_the_tree() {
    let mut ledger = Ledger::new();
    let leaf = compressed_deposit(&mut ledger, &depositing(5), vec![1], &[0u8; 64], 1000).unwrap();
    let before = ledger.clone();
    assert_eq!(
        compressed_withdraw(&mut ledger, &answered(NullifyOutcome::ProofRejected), [0; 32], 0, &leaf, who(4), who(5), 1000),
        Err(ErrorCode::ProofRejected)
    );
    assert_eq!(ledger, before);
    assert_eq!(
        compressed_withdraw(&mut ledger, &answered(NullifyOutcome::AlreadyNullified), [0; 32], 0, &leaf, who(4), who(5), 1000),
        Err(ErrorCode::InvalidNullifierHash)
    );
    assert_eq!(ledger, before);
    assert!(
        compressed_withdraw(&mut ledger, &answered(NullifyOutcome::Nullified), [0; 32], 0, &leaf, who(4), who(5), 1000)
            .is_ok()
    );
    assert_eq!(ledger.vault.balance, 0);
}

#[test]
fn compressed_withdrawal_that_the_treasury_cannot_pay_is_refused() {
    let mut ledger = Ledger::new();
    let leaf = compressed_deposit(&mut ledger, &depositing(5), vec![1], &[0u8; 64], 1000).unwrap();
    ledger.vault = Treasury { balance: 999 };
    assert_eq!(
        compressed_withdraw(&mut ledger, &answered(NullifyOutcome::Nullified), [0; 32], 0, &leaf, who(4), who(5), 1000),
        Err(ErrorCode::ArithmeticOverflow)
    );
    assert_eq!(ledger.vault.balance, 999);
}

#[test]
fn compressed_withdrawal_leaves_recorded_deposits_alone() {
    let mut ledger = Ledger::new();
    privacy_vault::instructions::deposit(
        &mut ledger,
        &privacy_vault::Deposit { unix_timestamp: 1, authenticated: true, deposit_bump: 0, note_bump: 0 },
        [1; 32],
        [2; 32],
        vec![9],
        &[0u8; 64],
        300,
    )
    .unwrap();
    let leaf = compressed_deposit(&mut ledger, &depositing(5), vec![1], &[0u8; 64], 700).unwrap();
    let deposits = ledger.deposits.clone();
    compressed_withdraw(&mut ledger, &answered(NullifyOutcome::Nullified), [0; 32], 0, &leaf, who(4), who(5), 700)
        .unwrap();
    assert_eq!(ledger.deposits, deposits);
    assert_eq!(ledger.vault.balance, 300);
}
