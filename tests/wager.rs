use coin_flip::{
    is_favorable, prefix_value, Contract, ExternalCallError, FlipError, Resolution, ResolveError,
    SignatureResponse, Transfer, FLIP_COST, FLIP_KEEP,
};

fn response(big_r: &str, s: &str) -> SignatureResponse {
    SignatureResponse { big_r: big_r.to_string(), s: s.to_string() }
}

fn expected_win(r_bytes: &[u8], s_bytes: &[u8]) -> bool {
    let joined = [r_bytes, s_bytes].concat();
    let digest = near_sdk::env::sha256(&joined);
    let mut prefix = [0u8; 16];
    prefix.copy_from_slice(&digest[0..16]);
    u128::from_le_bytes(prefix) % 2 == 0
}

fn hex_byte(b: u8) -> String {
    format!("{:02x}", b)
}

/// A scalar, paired with `aa` as `R`, that gives the wanted outcome.
fn scalar_with_outcome(win: bool) -> String {
    for b in 0u8..=255 {
        if expected_win(&[0xaa], &[b]) == win {
            return hex_byte(b);
        }
    }
    panic!("no scalar found");
}

#[test]
fn new_and_default_start_at_zero() {
    assert_eq!(Contract::new().stats(), (0, 0, 0));
    assert_eq!(Contract::default().stats(), (0, 0, 0));
}

#[test]
fn keep_is_less_than_stake() {
    assert_eq!(FLIP_COST, 100_000_000_000_000_000_000_000);
    assert_eq!(FLIP_KEEP, 95_000_000_000_000_000_000_000);
    assert!(FLIP_KEEP < FLIP_COST);
}

#[test]
fn flip_with_exact_stake_counts_and_pools() {
    let mut c = Contract::from_stats(4, 10, 7);
    let req = c.flip(FLIP_COST, "alice.near".to_string(), &[0xab, 0x01, 0xff]).unwrap();
    assert_eq!(c.stats(), (5, 10 + FLIP_KEEP, 7));
    assert_eq!(req.account_id, "alice.near");
    assert_eq!(req.seed_hex, "ab01ff");
    assert_eq!(req.scheme, "Ecdsa");
}

#[test]
fn flip_seed_of_thirty_two_bytes() {
    let mut c = Contract::new();
    let seed: Vec<u8> = (0u8..32).collect();
    let req = c.flip(FLIP_COST, "bob.near".to_string(), &seed).unwrap();
    assert_eq!(req.seed_hex, "000102030405060708090a0b0c0d0e0f101112131415161718191a1b1c1d1e1f");
}

#[test]
fn flip_with_wrong_stake_changes_nothing() {
    let mut c = Contract::from_stats(3, 20, 30);
    for deposit in [0, 1, FLIP_KEEP, FLIP_COST - 1, FLIP_COST + 1, u128::MAX] {
        assert_eq!(c.flip(deposit, "alice.near".to_string(), &[1]), Err(FlipError::InvalidStakeAmount));
        assert_eq!(c.stats(), (3, 20, 30));
    }
}

#[test]
fn flip_pool_overflow_aborts() {
    let pool = u128::MAX - FLIP_KEEP + 1;
    let mut c = Contract::from_stats(1, pool, 2);
    assert_eq!(c.flip(FLIP_COST, "alice.near".to_string(), &[1]), Err(FlipError::PoolOverflow));
    assert_eq!(c.stats(), (1, pool, 2));
}

#[test]
fn flip_pool_reaching_maximum_is_accepted() {
    let mut c = Contract::from_stats(1, u128::MAX - FLIP_KEEP, 2);
    assert!(c.flip(FLIP_COST, "alice.near".to_string(), &[1]).is_ok());
    assert_eq!(c.stats(), (2, u128::MAX, 2));
}

#[test]
fn flip_count_overflow_aborts() {
    let mut c = Contract::from_stats(u128::MAX, 0, 0);
    assert_eq!(c.flip(FLIP_COST, "alice.near".to_string(), &[1]), Err(FlipError::FlipsOverflow));
    assert_eq!(c.stats(), (u128::MAX, 0, 0));
}

#[test]
fn prefix_value_is_little_endian() {
    let mut d = [0u8; 32];
    for (i, b) in d.iter_mut().enumerate() {
        *b = (i as u8) * 7 + 1;
    }
    let mut first = [0u8; 16];
    first.copy_from_slice(&d[0..16]);
    assert_eq!(prefix_value(&d), u128::from_le_bytes(first));
    let mut one = [0u8; 16];
    one[1] = 1;
    assert_eq!(prefix_value(&one), 256);
    assert_eq!(prefix_value(&[0xff; 16]), u128::MAX);
}

#[test]
fn favorable_follows_parity_of_first_byte_only() {
    let mut d = [0u8; 32];
    assert!(is_favorable(&d));
    d[0] = 3;
    assert!(!is_favorable(&d));
    d[0] = 2;
    d[15] = 0x81;
    d[16] = 1;
    assert!(is_favorable(&d));
}

#[test]
fn settle_win_pays_whole_pool() {
    let mut c = Contract::from_stats(2, 500, 40);
    let r = c.settle(&[0u8; 32], "carol.near".to_string()).unwrap();
    assert_eq!(
        r,
        Resolution {
            won: true,
            transfer: Some(Transfer { account_id: "carol.near".to_string(), amount: 500 }),
        }
    );
    assert_eq!(c.stats(), (2, 0, 540));
}

#[test]
fn settle_loss_keeps_pool() {
    let mut d = [0u8; 32];
    d[0] = 1;
    let mut c = Contract::from_stats(2, 500, 40);
    let r = c.settle(&d, "carol.near".to_string()).unwrap();
    assert_eq!(r, Resolution { won: false, transfer: None });
    assert_eq!(c.stats(), (2, 500, 40));
}

#[test]
fn settle_paid_overflow_aborts() {
    let mut c = Contract::from_stats(2, 10, u128::MAX - 5);
    assert_eq!(c.settle(&[0u8; 32], "carol.near".to_string()), Err(ResolveError::PaidOverflow));
    assert_eq!(c.stats(), (2, 10, u128::MAX - 5));
}

#[test]
fn stake_then_signature_aa_bb() {
    let mut c = Contract::new();
    c.flip(FLIP_COST, "alice.near".to_string(), &[7; 32]).unwrap();
    let won = expected_win(&[0xaa], &[0xbb]);
    let r = c.mpc_callback(Ok(response("aa", "bb")), "alice.near".to_string()).unwrap();
    assert_eq!(r.won, won);
    if won {
        assert_eq!(r.transfer, Some(Transfer { account_id: "alice.near".to_string(), amount: FLIP_KEEP }));
        assert_eq!(c.stats(), (1, 0, FLIP_KEEP));
    } else {
        assert_eq!(r.transfer, None);
        assert_eq!(c.stats(), (1, FLIP_KEEP, 0));
    }
}

#[test]
fn outcome_matches_digest_of_joined_bytes() {
    for b in 0u8..64 {
        let mut c = Contract::from_stats(0, 9, 0);
        let r = c.mpc_callback(Ok(response("0102", &hex_byte(b))), "x.near".to_string()).unwrap();
        assert_eq!(r.won, expected_win(&[1, 2], &[b]));
    }
}

#[test]
fn outcome_depends_on_bytes_not_on_case_or_state() {
    let lower = Contract::from_stats(0, 0, 0).mpc_callback(Ok(response("abcdef", "c0ffee")), "a".to_string());
    let upper = Contract::from_stats(5, 77, 3).mpc_callback(Ok(response("ABCDEF", "C0FFEE")), "a".to_string());
    let again = Contract::from_stats(9, 1, 1).mpc_callback(Ok(response("abcdef", "c0ffee")), "a".to_string());
    let won = expected_win(&[0xab, 0xcd, 0xef], &[0xc0, 0xff, 0xee]);
    assert_eq!(lower.unwrap().won, won);
    assert_eq!(upper.unwrap().won, won);
    assert_eq!(again.unwrap().won, won);
}

#[test]
fn two_losses_then_a_win() {
    let lose = scalar_with_outcome(false);
    let win = scalar_with_outcome(true);
    let mut c = Contract::new();
    c.flip(FLIP_COST, "dave.near".to_string(), &[1]).unwrap();
    assert!(!c.mpc_callback(Ok(response("aa", &lose)), "dave.near".to_string()).unwrap().won);
    c.flip(FLIP_COST, "dave.near".to_string(), &[2]).unwrap();
    assert!(!c.mpc_callback(Ok(response("aa", &lose)), "dave.near".to_string()).unwrap().won);
    assert_eq!(c.stats(), (2, 2 * FLIP_KEEP, 0));
    c.flip(FLIP_COST, "erin.near".to_string(), &[3]).unwrap();
    let r = c.mpc_callback(Ok(response("aa", &win)), "erin.near".to_string()).unwrap();
    assert_eq!(
        r,
        Resolution {
            won: true,
            transfer: Some(Transfer { account_id: "erin.near".to_string(), amount: 3 * FLIP_KEEP }),
        }
    );
    assert_eq!(c.stats(), (3, 0, 3 * FLIP_KEEP));
}

#[test]
fn failed_call_changes_nothing_and_loses() {
    let mut c = Contract::new();
    c.flip(FLIP_COST, "alice.near".to_string(), &[1]).unwrap();
    let before = c.stats();
    for e in [ExternalCallError::Failed, ExternalCallError::TooLong(70000), ExternalCallError::Failed] {
        let r = c.mpc_callback(Err(e), "alice.near".to_string());
        assert_eq!(r, Ok(Resolution { won: false, transfer: None }));
        assert_eq!(c.stats(), before);
    }
    assert_eq!(before, (1, FLIP_KEEP, 0));
}

#[test]
fn malformed_signature_aborts() {
    let mut c = Contract::from_stats(1, FLIP_KEEP, 0);
    for (r, s) in [("zz", "bb"), ("aa", "b"), ("abc", "bb"), ("aa", "0g"), ("aa", "é0")] {
        let out = c.mpc_callback(Ok(response(r, s)), "alice.near".to_string());
        assert_eq!(out, Err(ResolveError::MalformedSignatureEncoding));
        assert_eq!(c.stats(), (1, FLIP_KEEP, 0));
    }
}

#[test]
fn empty_components_hash_the_empty_string() {
    let mut c = Contract::from_stats(1, 5, 0);
    let r = c.mpc_callback(Ok(response("", "")), "a".to_string()).unwrap();
    assert_eq!(r.won, expected_win(&[], &[]));
}
