use dice_resolution::engine::Bet;
use dice_resolution::engine::Resolution;
use dice_resolution::engine::SettlementEngine;
use dice_resolution::errors::DiceError;
use dice_resolution::fairness::outcome_of_signature;
use dice_resolution::payout::payout_amount;
use dice_resolution::record::parse_verification_record;
use dice_resolution::record::SignatureEntry;
use dice_resolution::sigcheck::verify_ed25519_signature;

fn key(b: u8) -> Vec<u8> {
    vec![b; 32]
}

fn sig_of_seed(seed: u64) -> Vec<u8> {
    let mut s = Vec::with_capacity(64);
    for i in 0..64u64 {
        s.push((seed.wrapping_mul(31).wrapping_add(i)) as u8);
    }
    s
}

fn find_sig_with_outcome(wanted: u8) -> Vec<u8> {
    for seed in 0..200_000u64 {
        let s = sig_of_seed(seed);
        if outcome_of_signature(&s) == wanted {
            return s;
        }
    }
    panic!("no signature with the wanted outcome was found");
}

fn entry(verifiable: bool, public_key: Option<Vec<u8>>, signature: Option<Vec<u8>>) -> SignatureEntry {
    SignatureEntry { is_verifiable: verifiable, public_key, signature }
}

fn good_entries(house_key: &[u8], signature: &[u8]) -> Vec<SignatureEntry> {
    vec![entry(true, Some(house_key.to_vec()), Some(signature.to_vec()))]
}

fn record_bytes(public_key: &[u8], signature: &[u8]) -> Vec<u8> {
    let mut data = vec![1u8, 0u8];
    let fields: [u16; 7] = [48, 0xFFFF, 16, 0xFFFF, 112, 0, 0xFFFF];
    for v in fields {
        data.extend_from_slice(&v.to_le_bytes());
    }
    data.extend_from_slice(public_key);
    data.extend_from_slice(signature);
    data
}

fn engine_with_bet(house_key: Vec<u8>, edge: u16, escrow: u64, bet: Bet) -> SettlementEngine {
    let mut engine = SettlementEngine::new(house_key, edge, escrow);
    engine.open_bet(bet);
    engine
}

fn bet(sequence_id: u64, amount: u64, target_roll: u8) -> Bet {
    Bet {
        owner: key(9),
        escrow_key: key(8),
        sequence_id,
        amount,
        target_roll,
        storage_bump: 254,
    }
}

fn expected_outcome(sig: &[u8]) -> u8 {
    let h = solana_program::blake3::hash(sig).to_bytes();
    let mut half = [0u8; 16];
    half.copy_from_slice(&h[0..16]);
    let lower = u128::from_le_bytes(half);
    half.copy_from_slice(&h[16..32]);
    let upper = u128::from_le_bytes(half);
    ((lower % 100).wrapping_add(upper) % 100) as u8 + 1
}

#[test]
fn outcome_always_in_range() {
    for seed in 0..2_000u64 {
        let s = sig_of_seed(seed);
        let outcome = outcome_of_signature(&s);
        assert!((1..=100).contains(&outcome));
    }
}

#[test]
fn outcome_is_deterministic() {
    for seed in 0..200u64 {
        let s = sig_of_seed(seed);
        let t = sig_of_seed(seed);
        assert_eq!(outcome_of_signature(&s), outcome_of_signature(&t));
    }
}

#[test]
fn outcome_matches_digest_derivation() {
    for seed in 0..200u64 {
        let s = sig_of_seed(seed);
        assert_eq!(outcome_of_signature(&s), expected_outcome(&s));
    }
}

#[test]
fn payout_follows_formula() {
    assert_eq!(payout_amount(1_000_000, 150), Ok(985_000));
    assert_eq!(payout_amount(1_000, 150), Ok(985));
    assert_eq!(payout_amount(999, 10_000), Ok(0));
    assert_eq!(payout_amount(7, 1), Ok(6));
    assert_eq!(payout_amount(u64::MAX, 150), Ok(u64::MAX / 10_000 * 9_850 + u64::MAX % 10_000 * 9_850 / 10_000));
}

#[test]
fn payout_with_zero_edge_returns_amount() {
    for amount in [0u64, 1, 57, 1_000_000, u64::MAX] {
        assert_eq!(payout_amount(amount, 0), Ok(amount));
    }
}

#[test]
fn payout_rejects_edge_above_whole() {
    assert_eq!(payout_amount(1_000_000, 10_001), Err(DiceError::ArithmeticOverflow));
    assert_eq!(payout_amount(0, u16::MAX), Err(DiceError::ArithmeticOverflow));
}

#[test]
fn verify_accepts_the_house_record() {
    let house = key(3);
    let s = sig_of_seed(1);
    assert_eq!(verify_ed25519_signature(&good_entries(&house, &s), &house, &s), Ok(()));
}

#[test]
fn two_entries_fail_with_count_error() {
    let house = key(3);
    let s = sig_of_seed(1);
    let entries = vec![
        entry(true, Some(house.clone()), Some(s.clone())),
        entry(true, Some(house.clone()), Some(s.clone())),
    ];
    assert_eq!(
        verify_ed25519_signature(&entries, &house, &s),
        Err(DiceError::SignatureCountInvalid)
    );

    let mut engine = engine_with_bet(house, 150, 10_000_000, bet(1, 1_000_000, 50));
    let r = engine.resolve_bet(1, &s, &entries);
    assert_eq!(r, Err(DiceError::SignatureCountInvalid));
    assert_eq!(engine.escrow_balance, 10_000_000);
    assert_eq!(engine.bets.len(), 1);
}

#[test]
fn zero_entries_fail_with_count_error() {
    let house = key(3);
    let s = sig_of_seed(1);
    let entries: Vec<SignatureEntry> = Vec::new();
    assert_eq!(
        verify_ed25519_signature(&entries, &house, &s),
        Err(DiceError::SignatureCountInvalid)
    );
}

#[test]
fn unverifiable_entry_fails() {
    let house = key(3);
    let s = sig_of_seed(1);
    let entries = vec![entry(false, Some(house.clone()), Some(s.clone()))];
    assert_eq!(
        verify_ed25519_signature(&entries, &house, &s),
        Err(DiceError::SignatureNotVerifiable)
    );
}

#[test]
fn foreign_signer_fails_with_mismatch() {
    let house = key(3);
    let other = key(4);
    let s = sig_of_seed(1);
    let entries = vec![entry(true, Some(other), Some(s.clone()))];
    assert_eq!(
        verify_ed25519_signature(&entries, &house, &s),
        Err(DiceError::SignerMismatch)
    );

    let mut engine = engine_with_bet(house, 150, 10_000_000, bet(1, 1_000_000, 50));
    let r = engine.resolve_bet(1, &s, &entries);
    assert_eq!(r, Err(DiceError::SignerMismatch));
    assert_eq!(engine.escrow_balance, 10_000_000);
    assert_eq!(engine.bets.len(), 1);
}

#[test]
fn wrong_signature_bytes_fail_with_mismatch() {
    let house = key(3);
    let s = sig_of_seed(1);
    let bound = sig_of_seed(2);
    let entries = vec![entry(true, Some(house.clone()), Some(bound))];
    assert_eq!(
        verify_ed25519_signature(&entries, &house, &s),
        Err(DiceError::SignatureMismatch)
    );
}

#[test]
fn missing_key_fails_with_mismatch() {
    let house = key(3);
    let s = sig_of_seed(1);
    let entries = vec![entry(true, None, Some(s.clone()))];
    assert_eq!(
        verify_ed25519_signature(&entries, &house, &s),
        Err(DiceError::SignerMismatch)
    );
}

#[test]
fn winning_bet_is_paid_and_destroyed() {
    let house = key(3);
    let s = find_sig_with_outcome(42);
    let mut engine = engine_with_bet(house.clone(), 150, 10_000_000, bet(1, 1_000_000, 50));
    let r = engine.resolve_bet(1, &s, &good_entries(&house, &s));
    assert_eq!(r, Ok(Resolution { outcome: 42, won: true, payout: 985_000 }));
    assert_eq!(engine.escrow_balance, 10_000_000 - 985_000);
    assert_eq!(engine.bets.len(), 0);
}

#[test]
fn losing_bet_moves_nothing_but_is_destroyed() {
    let house = key(3);
    let s = find_sig_with_outcome(77);
    let mut engine = engine_with_bet(house.clone(), 150, 10_000_000, bet(1, 1_000_000, 50));
    let r = engine.resolve_bet(1, &s, &good_entries(&house, &s));
    assert_eq!(r, Ok(Resolution { outcome: 77, won: false, payout: 0 }));
    assert_eq!(engine.escrow_balance, 10_000_000);
    assert_eq!(engine.bets.len(), 0);
}

#[test]
fn target_roll_of_one_always_loses() {
    let house = key(3);
    for seed in [0u64, 1, 2, 3, 500, 12_345] {
        let s = sig_of_seed(seed);
        let mut engine = engine_with_bet(house.clone(), 150, 10_000_000, bet(1, 1_000_000, 1));
        let r = engine.resolve_bet(1, &s, &good_entries(&house, &s)).unwrap();
        assert!(!r.won);
        assert_eq!(r.payout, 0);
        assert_eq!(engine.escrow_balance, 10_000_000);
        assert_eq!(engine.bets.len(), 0);
    }
}

#[test]
fn target_roll_of_hundred_wins_below_hundred() {
    let house = key(3);
    let s = find_sig_with_outcome(99);
    let mut engine = engine_with_bet(house.clone(), 0, 10_000_000, bet(1, 1_000, 100));
    let r = engine.resolve_bet(1, &s, &good_entries(&house, &s)).unwrap();
    assert!(r.won);
    assert_eq!(r.payout, 1_000);

    let s = find_sig_with_outcome(100);
    let mut engine = engine_with_bet(house.clone(), 0, 10_000_000, bet(1, 1_000, 100));
    let r = engine.resolve_bet(1, &s, &good_entries(&house, &s)).unwrap();
    assert!(!r.won);
    assert_eq!(r.payout, 0);
}

#[test]
fn resettling_a_settled_bet_finds_no_record() {
    let house = key(3);
    let s = find_sig_with_outcome(77);
    let mut engine = engine_with_bet(house.clone(), 150, 10_000_000, bet(1, 1_000_000, 50));
    let entries = good_entries(&house, &s);
    assert!(engine.resolve_bet(1, &s, &entries).is_ok());
    let again = engine.resolve_bet(1, &s, &entries);
    assert_eq!(again, Err(DiceError::BetNotFound));
    assert_eq!(engine.escrow_balance, 10_000_000);
}

#[test]
fn unknown_sequence_id_finds_no_record() {
    let house = key(3);
    let s = sig_of_seed(1);
    let mut engine = engine_with_bet(house.clone(), 150, 10_000_000, bet(1, 1_000_000, 50));
    let r = engine.resolve_bet(2, &s, &good_entries(&house, &s));
    assert_eq!(r, Err(DiceError::BetNotFound));
    assert_eq!(engine.bets.len(), 1);
}

#[test]
fn poor_escrow_aborts_before_any_change() {
    let house = key(3);
    let s = find_sig_with_outcome(42);
    let mut engine = engine_with_bet(house.clone(), 150, 100, bet(1, 1_000_000, 50));
    let r = engine.resolve_bet(1, &s, &good_entries(&house, &s));
    assert_eq!(r, Err(DiceError::InsufficientEscrow));
    assert_eq!(engine.escrow_balance, 100);
    assert_eq!(engine.bets.len(), 1);
}

#[test]
fn unpriceable_edge_aborts_a_win() {
    let house = key(3);
    let s = find_sig_with_outcome(42);
    let mut engine = engine_with_bet(house.clone(), 10_001, 10_000_000, bet(1, 1_000_000, 50));
    let r = engine.resolve_bet(1, &s, &good_entries(&house, &s));
    assert_eq!(r, Err(DiceError::ArithmeticOverflow));
    assert_eq!(engine.escrow_balance, 10_000_000);
    assert_eq!(engine.bets.len(), 1);
}

#[test]
fn record_parses_to_one_verifiable_entry() {
    let house = key(3);
    let s = sig_of_seed(1);
    let data = record_bytes(&house, &s);
    let entries = parse_verification_record(&data).unwrap();
    assert_eq!(entries.len(), 1);
    assert!(entries[0].is_verifiable);
    assert_eq!(entries[0].public_key.as_deref(), Some(&house[..]));
    assert_eq!(entries[0].signature.as_deref(), Some(&s[..]));
}

#[test]
fn foreign_instruction_indices_are_not_verifiable() {
    let house = key(3);
    let s = sig_of_seed(1);
    let mut data = vec![1u8, 0u8];
    let fields: [u16; 7] = [48, 0, 16, 0, 112, 0, 0];
    for v in fields {
        data.extend_from_slice(&v.to_le_bytes());
    }
    data.extend_from_slice(&house);
    data.extend_from_slice(&s);
    let entries = parse_verification_record(&data).unwrap();
    assert_eq!(entries.len(), 1);
    assert!(!entries[0].is_verifiable);
    assert_eq!(entries[0].public_key, None);
    assert_eq!(entries[0].signature, None);
}

#[test]
fn truncated_record_is_unavailable() {
    assert_eq!(
        parse_verification_record(&vec![]),
        Err(DiceError::VerificationRecordUnavailable)
    );
    assert_eq!(
        parse_verification_record(&vec![5u8, 0u8]),
        Err(DiceError::VerificationRecordUnavailable)
    );
    assert_eq!(
        parse_verification_record(&vec![1u8, 0u8, 7u8]),
        Err(DiceError::VerificationRecordUnavailable)
    );
}

#[test]
fn resolution_from_raw_record_settles() {
    let house = key(3);
    let s = find_sig_with_outcome(42);
    let data = record_bytes(&house, &s);
    let mut engine = engine_with_bet(house.clone(), 150, 10_000_000, bet(7, 1_000_000, 50));
    let r = engine.resolve_with_record(7, &s, &data);
    assert_eq!(r, Ok(Resolution { outcome: 42, won: true, payout: 985_000 }));
    assert_eq!(engine.escrow_balance, 10_000_000 - 985_000);
    assert_eq!(engine.bets.len(), 0);
}

#[test]
fn resolution_from_malformed_record_is_unavailable() {
    let house = key(3);
    let s = sig_of_seed(1);
    let mut engine = engine_with_bet(house.clone(), 150, 10_000_000, bet(7, 1_000_000, 50));
    let r = engine.resolve_with_record(7, &s, &vec![9u8]);
    assert_eq!(r, Err(DiceError::VerificationRecordUnavailable));
    assert_eq!(engine.escrow_balance, 10_000_000);
    assert_eq!(engine.bets.len(), 1);
}

#[test]
fn several_bets_settle_independently() {
    let house = key(3);
    let s = find_sig_with_outcome(42);
    let mut engine = SettlementEngine::new(house.clone(), 150, 10_000_000);
    engine.open_bet(bet(1, 1_000_000, 50));
    engine.open_bet(bet(2, 500, 42));
    let entries = good_entries(&house, &s);
    let first = engine.resolve_bet(2, &s, &entries).unwrap();
    assert!(!first.won);
    assert_eq!(engine.bets.len(), 1);
    let second = engine.resolve_bet(1, &s, &entries).unwrap();
    assert!(second.won);
    assert_eq!(second.payout, 985_000);
    assert_eq!(engine.bets.len(), 0);
    assert_eq!(engine.escrow_balance, 10_000_000 - 985_000);
}
