use hemmorphi::addressing::{qr_address, user_address, user_stats_address, verify_user_address};
use hemmorphi::errors::CustomError;
use hemmorphi::instructions::{
    initialize_user, initialize_user_qr, initialize_user_stats, remove_user, remove_user_qr,
    remove_user_stats,
};
use hemmorphi::pubkey::{native_mint, Pubkey};
use hemmorphi::qr_account::{QrAccount, TokenStats};
use hemmorphi::transfer::{
    qr_transfer_lamports, qr_transfer_lamports_checked, qr_transfer_spl, transfer_via_code,
    validate_transfer,
};
use hemmorphi::user::User;
use hemmorphi::user_stats::UserStats;

fn key(b: u8) -> Pubkey {
    Pubkey::new_from_array([b; 32])
}

fn new_user(b: u8) -> User {
    initialize_user(key(b), "alice".to_string(), 254).unwrap()
}

fn code_with(user: &mut User, hash: &str, amount: u64, tokens: Vec<Pubkey>) -> QrAccount {
    let caller = user.authority;
    initialize_user_qr(user, &caller, hash.to_string(), amount, tokens, 7).unwrap()
}

#[test]
fn name_longer_than_twenty_bytes_is_refused() {
    let r = initialize_user(key(1), "a".repeat(21), 1);
    assert_eq!(r.unwrap_err(), CustomError::NameTooLong);
    let r = initialize_user(key(1), "é".repeat(11), 1);
    assert_eq!(r.unwrap_err(), CustomError::NameTooLong);
}

#[test]
fn name_of_twenty_bytes_is_stored_whole() {
    let name = "b".repeat(20);
    let u = initialize_user(key(2), name.clone(), 9).unwrap();
    assert_eq!(u.name.len(), name.len());
    assert_eq!(u.name, name);
    assert!(u.hashes.is_empty());
    assert_eq!(u.authority, key(2));
    assert_eq!(u.bump, 9);
    let empty = initialize_user(key(2), String::new(), 9).unwrap();
    assert_eq!(empty.name.len(), 0);
}

#[test]
fn sixth_code_is_refused_as_list_full() {
    let mut u = new_user(3);
    for k in 0..5 {
        let r = initialize_user_qr(&mut u, &key(3), format!("h{}", k), 0, vec![key(10)], 1);
        assert!(r.is_ok());
        assert_eq!(u.hashes.len(), k + 1);
    }
    let r = initialize_user_qr(&mut u, &key(3), "h5".to_string(), 0, vec![key(10)], 1);
    assert_eq!(r.unwrap_err(), CustomError::QrListFull);
    assert_eq!(u.hashes.len(), 5);
}

#[test]
fn same_hash_twice_is_refused_but_other_user_may_use_it() {
    let mut a = new_user(4);
    let mut b = new_user(5);
    code_with(&mut a, "shop", 10, vec![key(10)]);
    let r = initialize_user_qr(&mut a, &key(4), "shop".to_string(), 10, vec![key(10)], 1);
    assert_eq!(r.unwrap_err(), CustomError::QrAlreadyExists);
    assert_eq!(a.hashes, vec!["shop".to_string()]);
    let qr = initialize_user_qr(&mut b, &key(5), "shop".to_string(), 10, vec![key(10)], 1);
    assert!(qr.is_ok());
    let program = key(99);
    let ua = user_address(&program, &key(4)).unwrap().0;
    let ub = user_address(&program, &key(5)).unwrap().0;
    assert_ne!(ua, ub);
    let qa = qr_address(&program, &ua, &"shop".to_string()).unwrap().0;
    let qb = qr_address(&program, &ub, &"shop".to_string()).unwrap().0;
    assert_ne!(qa, qb);
}

#[test]
fn repeated_tokens_are_refused_at_any_position() {
    let lists = vec![
        vec![key(1), key(1)],
        vec![key(1), key(2), key(1)],
        vec![key(1), key(2), key(3), key(4), key(4)],
    ];
    for tokens in lists {
        let mut u = new_user(6);
        let r = initialize_user_qr(&mut u, &key(6), "x".to_string(), 0, tokens, 1);
        assert_eq!(r.unwrap_err(), CustomError::QrRepeatedTokens);
        assert!(u.hashes.is_empty());
    }
}

#[test]
fn too_many_tokens_are_refused() {
    let mut u = new_user(7);
    let tokens = vec![key(1), key(2), key(3), key(4), key(5), key(6)];
    let r = initialize_user_qr(&mut u, &key(7), "x".to_string(), 0, tokens, 1);
    assert_eq!(r.unwrap_err(), CustomError::QrTooManyTokens);
}

#[test]
fn code_creation_by_another_caller_is_refused() {
    let mut u = new_user(8);
    let r = initialize_user_qr(&mut u, &key(9), "x".to_string(), 0, vec![key(1)], 1);
    assert_eq!(r.unwrap_err(), CustomError::AddressMismatch);
    assert!(u.hashes.is_empty());
}

#[test]
fn new_code_has_zero_totals_per_token() {
    let mut u = new_user(11);
    let qr = code_with(&mut u, "tip", 0, vec![key(1), key(2), key(3)]);
    assert_eq!(qr.tokens_stats, vec![TokenStats::zero(); 3]);
    assert_eq!(qr.authority, key(11));
    assert_eq!(qr.hash, "tip");
    assert_eq!(qr.bump, 7);
    assert_eq!(qr.last_transfer_timestamp, 0);
}

#[test]
fn zero_transfer_is_refused_even_on_open_code() {
    let mut u = new_user(12);
    let mut qr = code_with(&mut u, "open", 0, vec![key(1)]);
    let mut stats = initialize_user_stats(&u, &u.authority, 3).unwrap();
    let r = qr_transfer_spl(&mut qr, &mut stats, key(1), 0, &key(12));
    assert_eq!(r.unwrap_err(), CustomError::TransferAmountZero);
    let r = qr_transfer_lamports(&mut qr, &mut stats, 0, &key(12), 1000);
    assert_eq!(r.unwrap_err(), CustomError::TransferAmountZero);
    assert_eq!(stats.total_transfers, 0);
}

#[test]
fn pinned_amount_code_checks_amount_and_asset() {
    let a = key(20);
    let b = key(21);
    let mut u = new_user(13);
    let mut qr = code_with(&mut u, "invoice", 100, vec![a]);
    let mut stats = initialize_user_stats(&u, &u.authority, 3).unwrap();
    qr_transfer_spl(&mut qr, &mut stats, a, 100, &key(13)).unwrap();
    assert_eq!(qr.tokens_stats[0], TokenStats { transfer_count: 1, total_amount: 100, total_value: 100 });
    assert_eq!(stats.total_transfers, 1);
    let r = qr_transfer_spl(&mut qr, &mut stats, a, 50, &key(13));
    assert_eq!(r.unwrap_err(), CustomError::WrongTransferAmount);
    let r = qr_transfer_spl(&mut qr, &mut stats, b, 100, &key(13));
    assert_eq!(r.unwrap_err(), CustomError::TokenNotExistsInQrAccount);
    assert_eq!(qr.tokens_stats[0].transfer_count, 1);
    assert_eq!(stats.total_transfers, 1);
}

#[test]
fn open_code_accepts_any_positive_amount() {
    let a = key(22);
    let mut u = new_user(14);
    let mut qr = code_with(&mut u, "tips", 0, vec![a]);
    let mut stats = initialize_user_stats(&u, &u.authority, 3).unwrap();
    for amount in [1u64, 7, 1_000_000, u64::MAX / 4] {
        assert!(qr_transfer_spl(&mut qr, &mut stats, a, amount, &key(14)).is_ok());
    }
    assert_eq!(qr.tokens_stats[0].transfer_count, 4);
    assert_eq!(stats.total_transfers, 4);
}

#[test]
fn create_then_remove_restores_list() {
    let mut u = new_user(15);
    code_with(&mut u, "one", 0, vec![key(1)]);
    code_with(&mut u, "two", 0, vec![key(1)]);
    let before = u.hashes.clone();
    code_with(&mut u, "three", 0, vec![key(1)]);
    remove_user_qr(&mut u, &key(15), &"three".to_string()).unwrap();
    assert_eq!(u.hashes, before);
    assert!(!u.hashes.contains(&"three".to_string()));
}

#[test]
fn removing_keeps_order_of_the_rest() {
    let mut u = new_user(16);
    for h in ["a", "b", "c"] {
        code_with(&mut u, h, 0, vec![key(1)]);
    }
    remove_user_qr(&mut u, &key(16), &"b".to_string()).unwrap();
    assert_eq!(u.hashes, vec!["a".to_string(), "c".to_string()]);
}

#[test]
fn removing_unknown_code_is_not_found() {
    let mut u = new_user(17);
    code_with(&mut u, "a", 0, vec![key(1)]);
    let r = remove_user_qr(&mut u, &key(17), &"zzz".to_string());
    assert_eq!(r.unwrap_err(), CustomError::QrNotFound);
    let r = remove_user_qr(&mut u, &key(18), &"a".to_string());
    assert_eq!(r.unwrap_err(), CustomError::AddressMismatch);
    assert_eq!(u.hashes.len(), 1);
}

#[test]
fn two_transfers_accumulate() {
    let a = key(23);
    let mut u = new_user(19);
    let mut qr = code_with(&mut u, "jar", 0, vec![key(1), a]);
    let mut stats = initialize_user_stats(&u, &u.authority, 3).unwrap();
    qr_transfer_spl(&mut qr, &mut stats, a, 10, &key(19)).unwrap();
    qr_transfer_spl(&mut qr, &mut stats, a, 15, &key(19)).unwrap();
    assert_eq!(qr.tokens_stats[1].total_amount, 25);
    assert_eq!(qr.tokens_stats[1].total_value, 25);
    assert_eq!(qr.tokens_stats[1].transfer_count, 2);
    assert_eq!(qr.tokens_stats[0], TokenStats::zero());
    assert_eq!(stats.total_transfers, 2);
}

#[test]
fn wrong_destination_is_refused() {
    let a = key(24);
    let mut u = new_user(25);
    let mut qr = code_with(&mut u, "d", 0, vec![a]);
    let mut stats = initialize_user_stats(&u, &u.authority, 3).unwrap();
    let r = qr_transfer_spl(&mut qr, &mut stats, a, 5, &key(26));
    assert_eq!(r.unwrap_err(), CustomError::WrongTransferDestination);
}

#[test]
fn statistics_of_another_user_are_refused() {
    let a = key(24);
    let mut u = new_user(27);
    let other = new_user(28);
    let mut qr = code_with(&mut u, "d", 0, vec![a]);
    let mut stats = initialize_user_stats(&other, &other.authority, 3).unwrap();
    let r = qr_transfer_spl(&mut qr, &mut stats, a, 5, &key(27));
    assert_eq!(r.unwrap_err(), CustomError::AddressMismatch);
}

#[test]
fn native_transfer_checks_balance() {
    let sol = native_mint().unwrap();
    let mut u = new_user(29);
    let mut qr = code_with(&mut u, "sol", 0, vec![sol]);
    let mut stats = initialize_user_stats(&u, &u.authority, 3).unwrap();
    let r = qr_transfer_lamports(&mut qr, &mut stats, 500, &key(29), 499);
    assert_eq!(r.unwrap_err(), CustomError::WrongTransferAmount);
    qr_transfer_lamports(&mut qr, &mut stats, 500, &key(29), 500).unwrap();
    assert_eq!(qr.tokens_stats[0].total_amount, 500);
    let mut plain = code_with(&mut u, "spl", 0, vec![key(1)]);
    let r = qr_transfer_lamports(&mut plain, &mut stats, 5, &key(29), 500);
    assert_eq!(r.unwrap_err(), CustomError::TokenNotExistsInQrAccount);
}

#[test]
fn native_mint_is_the_wrapped_sol_mint() {
    let sol = native_mint().unwrap();
    assert_eq!(sol.to_bytes(), anchor_spl::token::spl_token::native_mint::ID.to_bytes());
    assert_eq!(sol.to_bytes()[0], 6);
    assert_eq!(sol.to_bytes()[31], 1);
}

#[test]
fn validate_does_not_change_anything() {
    let a = key(30);
    let mut u = new_user(31);
    let qr = code_with(&mut u, "v", 3, vec![a]);
    let stats = initialize_user_stats(&u, &u.authority, 3).unwrap();
    assert!(validate_transfer(&qr, &stats, &a, 3, &key(31), Some(3)).is_ok());
    assert_eq!(
        validate_transfer(&qr, &stats, &a, 3, &key(31), Some(2)).unwrap_err(),
        CustomError::WrongTransferAmount
    );
}

#[test]
fn transfer_via_code_counts_native_and_token_alike() {
    let a = key(32);
    let mut u = new_user(33);
    let mut qr = code_with(&mut u, "t", 0, vec![a]);
    let mut stats = initialize_user_stats(&u, &u.authority, 3).unwrap();
    transfer_via_code(&mut qr, &mut stats, a, 8, &key(33), Some(8)).unwrap();
    transfer_via_code(&mut qr, &mut stats, a, 2, &key(33), None).unwrap();
    assert_eq!(qr.tokens_stats[0].total_amount, 10);
}

#[test]
fn removal_needs_the_authority() {
    let u = new_user(34);
    let stats = initialize_user_stats(&u, &u.authority, 3).unwrap();
    assert!(remove_user(&u, &key(34)).is_ok());
    assert_eq!(remove_user(&u, &key(35)).unwrap_err(), CustomError::AddressMismatch);
    assert!(remove_user_stats(&stats, &key(34)).is_ok());
    assert_eq!(remove_user_stats(&stats, &key(35)).unwrap_err(), CustomError::AddressMismatch);
}

#[test]
fn user_stats_counters_start_at_zero_and_grow() {
    let u = new_user(36);
    let mut stats = initialize_user_stats(&u, &u.authority, 4).unwrap();
    assert_eq!(stats.qr_codes_created, 0);
    assert_eq!(stats.total_value_transfered, 0);
    assert_eq!(stats.last_active_timestamp, 0);
    assert_eq!(stats.authority, key(36));
    stats.update_codes_stats();
    stats.update_transfer_stats();
    assert_eq!(stats.qr_codes_created, 1);
    assert_eq!(stats.total_transfers, 1);
}

#[test]
fn addresses_match_program_derivation() {
    let program = key(40);
    let owner = key(41);
    let (user, bump) = user_address(&program, &owner).unwrap();
    let anchor_program = anchor_lang::prelude::Pubkey::new_from_array(program.to_bytes());
    let anchor_owner = anchor_lang::prelude::Pubkey::new_from_array(owner.to_bytes());
    let (expected, expected_bump) =
        anchor_lang::prelude::Pubkey::find_program_address(&[b"user", anchor_owner.as_ref()], &anchor_program);
    assert_eq!(user.to_bytes(), expected.to_bytes());
    assert_eq!(bump, expected_bump);
    let (stats, _) = user_stats_address(&program, &user).unwrap();
    let (expected_stats, _) =
        anchor_lang::prelude::Pubkey::find_program_address(&[b"user_stats", expected.as_ref()], &anchor_program);
    assert_eq!(stats.to_bytes(), expected_stats.to_bytes());
    let (qr, _) = qr_address(&program, &user, &"code".to_string()).unwrap();
    let (expected_qr, _) = anchor_lang::prelude::Pubkey::find_program_address(
        &[b"qr", expected.as_ref(), b"code"],
        &anchor_program,
    );
    assert_eq!(qr.to_bytes(), expected_qr.to_bytes());
    assert_eq!(verify_user_address(&program, &owner, &user), Ok(bump));
    assert_eq!(verify_user_address(&program, &owner, &owner), Err(CustomError::AddressMismatch));
}

#[test]
fn overlong_hash_has_no_address() {
    let program = key(42);
    let user = key(43);
    assert!(qr_address(&program, &user, &"h".repeat(33)).is_none());
    assert!(qr_address(&program, &user, &"h".repeat(32)).is_some());
}

#[test]
fn totals_that_would_overflow_are_detected() {
    let a = key(44);
    let mut u = new_user(45);
    let mut qr = code_with(&mut u, "big", 0, vec![a]);
    assert!(qr.can_record(&a, u64::MAX));
    qr.tokens_stats[0].total_amount = u64::MAX - 1;
    assert!(qr.can_record(&a, 1));
    assert!(!qr.can_record(&a, 2));
    assert!(qr.can_record(&key(46), 2));
    assert!(qr.check_if_token_exists(a));
    assert!(!qr.check_if_token_exists(key(46)));
    assert!(qr.check_if_correct_amount(12345));
}

#[test]
fn user_lookup_of_hashes() {
    let mut u = new_user(47);
    code_with(&mut u, "p", 0, vec![key(1)]);
    code_with(&mut u, "q", 0, vec![key(1)]);
    assert_eq!(u.position_of_hash(&"q".to_string()), Some(1));
    assert!(u.contains_hash(&"p".to_string()));
    assert!(!u.contains_hash(&"r".to_string()));
    assert_eq!(User::NAME_MAX_LEN, 20);
    assert_eq!(User::HASHES_MAX_COUNT, 5);
    assert_eq!(QrAccount::TOKENS_MAX_COUNT, 5);
    let _ = UserStats::new(key(1), 0);
}

#[test]
fn overlong_hash_is_refused_before_anything_else() {
    let mut u = new_user(50);
    let r = initialize_user_qr(&mut u, &key(50), "h".repeat(33), 0, vec![key(1)], 1);
    assert_eq!(r.unwrap_err(), CustomError::AddressMismatch);
    assert!(u.hashes.is_empty());
    let r = initialize_user_qr(&mut u, &key(50), "h".repeat(32), 0, vec![key(1)], 1);
    assert!(r.is_ok());
    assert!(u.is_well_formed());
}

#[test]
fn statistics_are_created_only_by_the_user() {
    let u = new_user(51);
    assert_eq!(initialize_user_stats(&u, &key(52), 1).unwrap_err(), CustomError::AddressMismatch);
    assert_eq!(initialize_user_stats(&u, &key(51), 1).unwrap().authority, key(51));
}

#[test]
fn saturated_totals_of_another_asset_do_not_block_a_transfer() {
    let a = key(53);
    let b = key(54);
    let mut u = new_user(55);
    let mut qr = code_with(&mut u, "two", 0, vec![a, b]);
    let mut stats = initialize_user_stats(&u, &u.authority, 3).unwrap();
    qr.tokens_stats[0].total_amount = u64::MAX;
    assert!(!qr.can_record(&a, 1));
    assert!(qr.can_record(&b, 1));
    qr_transfer_spl(&mut qr, &mut stats, b, 9, &key(55)).unwrap();
    assert_eq!(qr.tokens_stats[1].total_amount, 9);
    assert_eq!(qr.tokens_stats[0].total_amount, u64::MAX);
}

#[test]
fn checked_native_transfer_refuses_overflowing_totals() {
    let sol = native_mint().unwrap();
    let mut u = new_user(56);
    let mut qr = code_with(&mut u, "sol", 0, vec![sol]);
    let mut stats = initialize_user_stats(&u, &u.authority, 3).unwrap();
    assert_eq!(qr_transfer_lamports_checked(&mut qr, &mut stats, 10, &key(56), 10), Some(Ok(())));
    qr.tokens_stats[0].total_value = u64::MAX;
    assert_eq!(qr_transfer_lamports_checked(&mut qr, &mut stats, 10, &key(56), 10), None);
    assert_eq!(qr.tokens_stats[0].transfer_count, 1);
    assert_eq!(stats.total_transfers, 1);
}

#[test]
fn records_with_long_hashes_are_malformed() {
    let mut u = new_user(57);
    assert!(u.is_well_formed());
    u.hashes.push("x".repeat(33));
    assert!(!u.is_well_formed());
    let mut v = new_user(58);
    let mut qr = code_with(&mut v, "ok", 0, vec![key(1)]);
    assert!(qr.is_well_formed());
    qr.hash = "y".repeat(40);
    assert!(!qr.is_well_formed());
}
