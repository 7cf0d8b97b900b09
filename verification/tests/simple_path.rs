use privacy_vault::instructions::{deposit, initialize_vault_config, withdraw};
use privacy_vault::{
    Deposit, DepositMetadata, EncryptedNote, ErrorCode, InitializeVaultConfig, Ledger, Pubkey,
    RewardTransfer, Treasury, VaultConfig, Withdraw, Withdrawal,
};

const KEY: [u8; 32] = [7; 32];
const NONCE: [u8; 32] = [9; 32];

fn principal(byte: u8) -> Pubkey {
    Pubkey::new_from_array([byte; 32])
}

fn at(unix_timestamp: i64) -> Deposit {
    Deposit { unix_timestamp, authenticated: true, deposit_bump: 251, note_bump: 250 }
}

fn configured(rate: u64) -> Ledger {
    let mut ledger = Ledger::new();
    let outcome = initialize_vault_config(
        &mut ledger,
        &InitializeVaultConfig { bump: 255 },
        principal(1),
        principal(2),
        principal(3),
        rate,
    );
    assert_eq!(outcome, Ok(()));
    ledger
}

#[test]
fn new_ledger_is_empty() {
    let ledger = Ledger::new();
    assert_eq!(ledger.vault_config, None);
    assert_eq!(ledger.vault, Treasury { balance: 0 });
    assert!(!ledger.deposits.contains(&KEY));
}

#[test]
fn deposit_then_withdraw_then_withdraw_again() {
    let mut ledger = configured(2);
    assert_eq!(deposit(&mut ledger, &at(0), KEY, NONCE, vec![1, 2, 3], &[0u8; 64], 1000), Ok(()));
    assert_eq!(ledger.vault.balance, 1000);

    let paid = withdraw(&mut ledger, &Withdraw { unix_timestamp: 100 }, KEY, NONCE, principal(4), principal(5));
    assert_eq!(
        paid,
        Ok(Withdrawal {
            destination_wallet: principal(4),
            net_amount: 995,
            relayer: principal(5),
            relayer_fee: 5,
            reward: Some(RewardTransfer { mint: principal(2), source: principal(3), amount: 200 }),
        })
    );
    assert_eq!(ledger.vault.balance, 0);
    assert!(ledger.deposits.get(&KEY).unwrap().metadata.used);

    let again = withdraw(&mut ledger, &Withdraw { unix_timestamp: 100 }, KEY, NONCE, principal(4), principal(5));
    assert_eq!(again, Err(ErrorCode::DepositAlreadyUsed));
    assert_eq!(ledger.vault.balance, 0);
}

#[test]
fn deposit_records_what_it_was_given() {
    let mut ledger = Ledger::new();
    assert_eq!(deposit(&mut ledger, &at(1_700_000_000), KEY, NONCE, vec![0xab; 40], &[3u8; 64], 77), Ok(()));
    let entry = ledger.deposits.get(&KEY).unwrap();
    assert_eq!(
        entry.metadata,
        DepositMetadata {
            deposit_id: KEY,
            amount: 77,
            timestamp: 1_700_000_000,
            used: false,
            note_nonce: NONCE,
            bump: 251,
        }
    );
    assert_eq!(entry.note, EncryptedNote { encrypted_data: vec![0xab; 40], bump: 250 });
    assert_eq!(ledger.vault.balance, 77);
    assert_eq!(ledger.vault_config, None);
}

#[test]
fn deposit_of_nothing_is_refused() {
    let mut ledger = Ledger::new();
    let before = ledger.clone();
    assert_eq!(deposit(&mut ledger, &at(0), KEY, NONCE, vec![1], &[0u8; 64], 0), Err(ErrorCode::InvalidAmount));
    assert_eq!(ledger, before);
}

#[test]
fn deposit_with_an_oversized_note_is_refused() {
    let mut ledger = Ledger::new();
    assert_eq!(
        deposit(&mut ledger, &at(0), KEY, NONCE, vec![0; 1025], &[0u8; 64], 10),
        Err(ErrorCode::NoteTooLarge)
    );
    assert_eq!(ledger, Ledger::new());
    assert_eq!(deposit(&mut ledger, &at(0), KEY, NONCE, vec![0; 1024], &[0u8; 64], 10), Ok(()));
    assert_eq!(ledger.deposits.get(&KEY).unwrap().note.encrypted_data.len(), 1024);
}

#[test]
fn deposit_with_a_signature_of_the_wrong_length_is_refused() {
    let mut ledger = Ledger::new();
    assert_eq!(deposit(&mut ledger, &at(0), KEY, NONCE, vec![1], &[0u8; 63], 10), Err(ErrorCode::InvalidSignature));
    assert_eq!(deposit(&mut ledger, &at(0), KEY, NONCE, vec![1], &[0u8; 65], 10), Err(ErrorCode::InvalidSignature));
    assert_eq!(deposit(&mut ledger, &at(0), KEY, NONCE, vec![1], &[], 10), Err(ErrorCode::InvalidSignature));
    assert_eq!(ledger, Ledger::new());
}

#[test]
fn deposit_with_a_rejected_signature_is_refused() {
    let mut ledger = Ledger::new();
    let ctx = Deposit { unix_timestamp: 0, authenticated: false, deposit_bump: 1, note_bump: 2 };
    assert_eq!(deposit(&mut ledger, &ctx, KEY, NONCE, vec![1], &[0u8; 64], 10), Err(ErrorCode::InvalidSignature));
    assert_eq!(ledger, Ledger::new());
}

#[test]
fn deposit_that_the_treasury_cannot_hold_is_refused() {
    let mut ledger = Ledger::new();
    ledger.vault = Treasury { balance: u64::MAX - 5 };
    let before = ledger.clone();
    assert_eq!(deposit(&mut ledger, &at(0), KEY, NONCE, vec![1], &[0u8; 64], 6), Err(ErrorCode::ArithmeticOverflow));
    assert_eq!(ledger, before);
    assert_eq!(deposit(&mut ledger, &at(0), KEY, NONCE, vec![1], &[0u8; 64], 5), Ok(()));
    assert_eq!(ledger.vault.balance, u64::MAX);
}

#[test]
fn deposit_checks_are_made_in_order() {
    let mut ledger = Ledger::new();
    let unauthenticated = Deposit { unix_timestamp: 0, authenticated: false, deposit_bump: 1, note_bump: 2 };
    assert_eq!(
        deposit(&mut ledger, &unauthenticated, KEY, NONCE, vec![0; 2000], &[0u8; 1], 0),
        Err(ErrorCode::InvalidAmount)
    );
    assert_eq!(
        deposit(&mut ledger, &unauthenticated, KEY, NONCE, vec![0; 2000], &[0u8; 1], 1),
        Err(ErrorCode::NoteTooLarge)
    );
    deposit(&mut ledger, &at(0), KEY, NONCE, vec![1], &[0u8; 64], 10).unwrap();
    assert_eq!(
        deposit(&mut ledger, &at(0), KEY, NONCE, vec![1], &[0u8; 1], 10),
        Err(ErrorCode::InvalidSignature)
    );
    ledger.vault = Treasury { balance: u64::MAX };
    assert_eq!(
        deposit(&mut ledger, &at(0), KEY, NONCE, vec![1], &[0u8; 64], 10),
        Err(ErrorCode::ArithmeticOverflow)
    );
}

#[test]
fn second_deposit_under_a_key_is_refused() {
    let mut ledger = Ledger::new();
    assert_eq!(deposit(&mut ledger, &at(5), KEY, NONCE, vec![1, 2], &[0u8; 64], 300), Ok(()));
    let before = ledger.clone();
    assert_eq!(
        deposit(&mut ledger, &at(6), KEY, [1; 32], vec![3, 4, 5], &[1u8; 64], 400),
        Err(ErrorCode::DuplicateDeposit)
    );
    assert_eq!(ledger, before);
    let entry = ledger.deposits.get(&KEY).unwrap();
    assert_eq!(entry.metadata.amount, 300);
    assert_eq!(entry.metadata.timestamp, 5);
    assert_eq!(entry.metadata.note_nonce, NONCE);
    assert_eq!(entry.note.encrypted_data, vec![1, 2]);
    assert_eq!(ledger.vault.balance, 300);
}

#[test]
fn deposits_under_different_keys_stand_side_by_side() {
    let mut ledger = Ledger::new();
    deposit(&mut ledger, &at(1), [1; 32], NONCE, vec![1], &[0u8; 64], 100).unwrap();
    deposit(&mut ledger, &at(2), [2; 32], NONCE, vec![2], &[0u8; 64], 250).unwrap();
    assert_eq!(ledger.vault.balance, 350);
    assert_eq!(ledger.deposits.get(&[1; 32]).unwrap().metadata.amount, 100);
    assert_eq!(ledger.deposits.get(&[2; 32]).unwrap().metadata.amount, 250);

    let paid = withdraw(&mut ledger, &Withdraw { unix_timestamp: 2 }, [2; 32], NONCE, principal(4), principal(5)).unwrap();
    assert_eq!(paid.net_amount, 249);
    assert_eq!(paid.relayer_fee, 1);
    assert_eq!(paid.reward, None);
    assert_eq!(ledger.vault.balance, 100);
    assert!(!ledger.deposits.get(&[1; 32]).unwrap().metadata.used);
    assert!(ledger.deposits.get(&[2; 32]).unwrap().metadata.used);
}

#[test]
fn withdrawal_of_an_unknown_key_is_refused() {
    let mut ledger = configured(2);
    deposit(&mut ledger, &at(0), KEY, NONCE, vec![1], &[0u8; 64], 1000).unwrap();
    let before = ledger.clone();
    assert_eq!(
        withdraw(&mut ledger, &Withdraw { unix_timestamp: 1 }, [8; 32], NONCE, principal(4), principal(5)),
        Err(ErrorCode::InvalidDepositKey)
    );
    assert_eq!(ledger, before);
}

#[test]
fn withdrawal_with_the_wrong_nonce_is_refused() {
    let mut ledger = configured(2);
    deposit(&mut ledger, &at(0), KEY, NONCE, vec![1], &[0u8; 64], 1000).unwrap();
    let before = ledger.clone();
    assert_eq!(
        withdraw(&mut ledger, &Withdraw { unix_timestamp: 1 }, KEY, [0; 32], principal(4), principal(5)),
        Err(ErrorCode::InvalidDepositKey)
    );
    assert_eq!(ledger, before);
    assert!(withdraw(&mut ledger, &Withdraw { unix_timestamp: 1 }, KEY, NONCE, principal(4), principal(5)).is_ok());
    assert_eq!(
        withdraw(&mut ledger, &Withdraw { unix_timestamp: 1 }, KEY, [0; 32], principal(4), principal(5)),
        Err(ErrorCode::DepositAlreadyUsed)
    );
}

#[test]
fn withdrawal_before_the_deposit_is_refused() {
    let mut ledger = configured(2);
    deposit(&mut ledger, &at(100), KEY, NONCE, vec![1], &[0u8; 64], 1000).unwrap();
    let before = ledger.clone();
    assert_eq!(
        withdraw(&mut ledger, &Withdraw { unix_timestamp: 99 }, KEY, NONCE, principal(4), principal(5)),
        Err(ErrorCode::ArithmeticOverflow)
    );
    assert_eq!(ledger, before);
    let paid = withdraw(&mut ledger, &Withdraw { unix_timestamp: 100 }, KEY, NONCE, principal(4), principal(5)).unwrap();
    assert_eq!(paid.reward.unwrap().amount, 0);
    assert_eq!(paid.net_amount + paid.relayer_fee, 1000);
}

#[test]
fn withdrawal_whose_reward_overflows_is_refused() {
    let mut ledger = configured(u64::MAX);
    deposit(&mut ledger, &at(0), KEY, NONCE, vec![1], &[0u8; 64], 1000).unwrap();
    let before = ledger.clone();
    assert_eq!(
        withdraw(&mut ledger, &Withdraw { unix_timestamp: 2 }, KEY, NONCE, principal(4), principal(5)),
        Err(ErrorCode::ArithmeticOverflow)
    );
    assert_eq!(ledger, before);
    let paid = withdraw(&mut ledger, &Withdraw { unix_timestamp: 1 }, KEY, NONCE, principal(4), principal(5)).unwrap();
    assert_eq!(paid.reward.unwrap().amount, u64::MAX);
}

#[test]
fn withdrawal_whose_fee_overflows_is_refused() {
    let mut ledger = Ledger::new();
    let amount = u64::MAX / 5 + 1;
    deposit(&mut ledger, &at(0), KEY, NONCE, vec![1], &[0u8; 64], amount).unwrap();
    let before = ledger.clone();
    assert_eq!(
        withdraw(&mut ledger, &Withdraw { unix_timestamp: 2 }, KEY, NONCE, principal(4), principal(5)),
        Err(ErrorCode::ArithmeticOverflow)
    );
    assert_eq!(ledger, before);
}

#[test]
fn withdrawal_that_the_treasury_cannot_pay_is_refused() {
    let mut ledger = Ledger::new();
    deposit(&mut ledger, &at(0), KEY, NONCE, vec![1], &[0u8; 64], 1000).unwrap();
    ledger.vault = Treasury { balance: 999 };
    let before = ledger.clone();
    assert_eq!(
        withdraw(&mut ledger, &Withdraw { unix_timestamp: 2 }, KEY, NONCE, principal(4), principal(5)),
        Err(ErrorCode::ArithmeticOverflow)
    );
    assert_eq!(ledger, before);
    assert!(!ledger.deposits.get(&KEY).unwrap().metadata.used);
}

#[test]
fn withdrawal_pays_out_exactly_what_was_deposited() {
    for amount in [1u64, 199, 200, 201, 999, 1000, 1001, 123_456_789, u64::MAX / 5] {
        let mut ledger = Ledger::new();
        ledger.vault = Treasury { balance: 17 };
        deposit(&mut ledger, &at(0), KEY, NONCE, vec![1], &[0u8; 64], amount).unwrap();
        let held = ledger.vault.balance;
        let paid = withdraw(&mut ledger, &Withdraw { unix_timestamp: 2 }, KEY, NONCE, principal(4), principal(5)).unwrap();
        assert_eq!(paid.net_amount + paid.relayer_fee, amount);
        assert_eq!(paid.relayer_fee, amount * 5 / 1000);
        assert_eq!(held - ledger.vault.balance, paid.net_amount + paid.relayer_fee);
        assert_eq!(ledger.vault.balance, 17);
    }
}

#[test]
fn small_deposits_are_paid_out_whole() {
    for amount in [1u64, 2, 100, 199] {
        let mut ledger = Ledger::new();
        deposit(&mut ledger, &at(0), KEY, NONCE, vec![1], &[0u8; 64], amount).unwrap();
        let paid = withdraw(&mut ledger, &Withdraw { unix_timestamp: 2 }, KEY, NONCE, principal(4), principal(5)).unwrap();
        assert_eq!(paid.relayer_fee, 0);
        assert_eq!(paid.net_amount, amount);
    }
}

#[test]
fn reward_is_time_held_times_rate() {
    let mut ledger = configured(3);
    deposit(&mut ledger, &at(-10), KEY, NONCE, vec![1], &[0u8; 64], 500).unwrap();
    let paid = withdraw(&mut ledger, &Withdraw { unix_timestamp: 20 }, KEY, NONCE, principal(4), principal(5)).unwrap();
    assert_eq!(paid.reward, Some(RewardTransfer { mint: principal(2), source: principal(3), amount: 90 }));
    assert_eq!(paid.destination_wallet, principal(4));
    assert_eq!(paid.relayer, principal(5));
}

#[test]
fn without_a_configuration_no_reward_is_owed() {
    let mut ledger = Ledger::new();
    deposit(&mut ledger, &at(0), KEY, NONCE, vec![1], &[0u8; 64], 1000).unwrap();
    let paid = withdraw(&mut ledger, &Withdraw { unix_timestamp: 100 }, KEY, NONCE, principal(4), principal(5)).unwrap();
    assert_eq!(paid.reward, None);
    assert_eq!(paid.net_amount, 995);
    assert_eq!(paid.relayer_fee, 5);
}

#[test]
fn configuration_is_untouched_by_deposits_and_withdrawals() {
    let mut ledger = configured(2);
    let config = ledger.vault_config;
    deposit(&mut ledger, &at(0), KEY, NONCE, vec![1], &[0u8; 64], 1000).unwrap();
    assert_eq!(ledger.vault_config, config);
    withdraw(&mut ledger, &Withdraw { unix_timestamp: 100 }, KEY, NONCE, principal(4), principal(5)).unwrap();
    assert_eq!(ledger.vault_config, config);
    assert_eq!(
        config,
        Some(VaultConfig {
            authority: principal(1),
            reward_mint: principal(2),
            reward_token_vault: principal(3),
            reward_rate_per_second: 2,
            bump: 255,
        })
    );
}
