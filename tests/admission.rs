use kitties::offchain::{search_solution, PREFIX_UNIT};
use kitties::{
    meets_difficulty, validate_solution, AdvisoryLock, Entropy, Error, Event, Pallet, Proof,
    ValidTransaction, AUTO_BREED_LONGEVITY, AUTO_BREED_TAG_PREFIX,
};

fn entropy(seed: u8) -> Entropy {
    Entropy { random_seed: [seed; 32], extrinsic_index: Some(0) }
}

/// Kitty 0 is female and kitty 1 male, both owned by account 100.
fn pallet_with_pair(difficulty: u32) -> Pallet {
    let mut pallet = Pallet::new(difficulty).unwrap();
    assert!(pallet.create(100, &entropy(0)).is_ok());
    assert!(pallet.create(100, &entropy(2)).is_ok());
    pallet
}

fn search(pallet: &Pallet, now: u64, seed: u8) -> Option<Proof> {
    let mut lock = AdvisoryLock::new();
    pallet.run_offchain_worker(&mut lock, now, [seed; 32])
}

#[test]
fn meets_difficulty_at_threshold() {
    assert!(meets_difficulty(&[0; 16], 1));
    assert!(!meets_difficulty(&[0xFF; 16], 1));
    let mut below = [0xFF; 16];
    below[0] = 0xFE;
    assert!(meets_difficulty(&below, 1));
    // u128::MAX / 2 is 0x7FFF..FF: that value is refused, one less accepted.
    let mut at = [0xFF; 16];
    at[15] = 0x7F;
    assert!(!meets_difficulty(&at, 2));
    let mut under = at;
    under[0] = 0xFE;
    assert!(meets_difficulty(&under, 2));
    assert!(!meets_difficulty(&under, 3));
}

#[test]
fn acceptance_rate_follows_difficulty() {
    let mut accepted = 0u32;
    for i in 0..10000u32 {
        if validate_solution(i, i.wrapping_mul(31), 0, (i as u128) * 7919, 4) {
            accepted += 1;
        }
    }
    assert!(accepted > 2300 && accepted < 2700, "accepted {}", accepted);
}

#[test]
fn hard_difficulty_rejects_almost_everything() {
    let mut accepted = 0u32;
    for i in 0..200u32 {
        if validate_solution(0, 1, i, i as u128, u32::MAX) {
            accepted += 1;
        }
    }
    assert_eq!(accepted, 0);
}

#[test]
fn replayed_proof_is_bad() {
    let mut pallet = pallet_with_pair(1);
    let proof = search(&pallet, 1, 7).expect("difficulty 1 always yields a proof");
    assert!(pallet.auto_breed(&proof, &entropy(4)).is_ok());
    assert_eq!(pallet.auto_breed_nonce(), 1);
    assert_eq!(pallet.auto_breed(&proof, &entropy(4)), Err(Error::BadProof));
    assert_eq!(pallet.auto_breed_nonce(), 1);
    assert_eq!(pallet.next_token_id(), 3);
}

#[test]
fn validate_unsigned_advances_nonce_once() {
    let mut pallet = pallet_with_pair(1);
    let proof = search(&pallet, 1, 8).unwrap();
    let validity = ValidTransaction { tag_prefix: "kitties", longevity: 64, propagate: true };
    assert_eq!(pallet.validate_unsigned(&proof), Ok(validity));
    assert_eq!(AUTO_BREED_TAG_PREFIX, "kitties");
    assert_eq!(AUTO_BREED_LONGEVITY, 64);
    assert_eq!(pallet.auto_breed_nonce(), 1);
    assert_eq!(pallet.validate_unsigned(&proof), Err(Error::BadProof));
    assert_eq!(pallet.auto_breed_nonce(), 1);
}

#[test]
fn first_candidate_admitted_at_difficulty_one() {
    let mut pallet = pallet_with_pair(1);
    let proof = search(&pallet, 3, 11).unwrap();
    assert_eq!(proof.solution % PREFIX_UNIT, 0);
    assert_eq!(proof.nonce, 0);
    assert!(pallet.check_proof(&proof));
    match pallet.auto_breed(&proof, &entropy(4)) {
        Ok(Event::KittyBred(owner, id, _)) => {
            assert_eq!(owner, pallet.tokens(proof.kitty_id_1).unwrap().owner);
            assert_eq!(id, 2);
        },
        other => panic!("unexpected {:?}", other),
    }
}

#[test]
fn searched_proof_meets_higher_difficulty() {
    let pallet = pallet_with_pair(16);
    let proof = search(&pallet, 3, 21).expect("a pair and a solution within the budget");
    assert!(pallet.check_proof(&proof));
    assert!(proof.solution % PREFIX_UNIT < 500);
    assert_ne!(
        pallet.tokens(proof.kitty_id_1).unwrap().data.gender(),
        pallet.tokens(proof.kitty_id_2).unwrap().data.gender()
    );
    let base = proof.solution - proof.solution % PREFIX_UNIT;
    for j in 0..proof.solution % PREFIX_UNIT {
        assert!(!validate_solution(proof.kitty_id_1, proof.kitty_id_2, proof.nonce, base + j, 16));
    }
}

#[test]
fn single_kitty_yields_no_proof() {
    let mut pallet = Pallet::new(1).unwrap();
    assert!(pallet.create(100, &entropy(0)).is_ok());
    for seed in 0..5u8 {
        assert_eq!(search(&pallet, 1, seed), None);
    }
    assert_eq!(pallet.auto_breed_nonce(), 0);
    assert_eq!(pallet.next_token_id(), 1);
}

#[test]
fn empty_population_yields_no_proof() {
    let pallet = Pallet::new(1).unwrap();
    assert_eq!(search(&pallet, 1, 0), None);
}

#[test]
fn held_lock_skips_search() {
    let pallet = pallet_with_pair(1);
    let mut lock = AdvisoryLock::new();
    assert!(lock.try_lock(5, 3));
    assert_eq!(pallet.run_offchain_worker(&mut lock, 6, [1; 32]), None);
    assert!(pallet.run_offchain_worker(&mut lock, 8, [1; 32]).is_some());
}

#[test]
fn lock_excludes_until_deadline() {
    let mut lock = AdvisoryLock::new();
    assert!(lock.try_lock(5, 1));
    assert!(!lock.try_lock(5, 1));
    assert!(lock.try_lock(6, 1));
    assert!(lock.try_lock(7, 2));
    assert!(!lock.try_lock(8, 2));
    assert!(lock.try_lock(9, 2));
    assert!(lock.try_lock(u64::MAX - 1, 5));
    assert!(!lock.try_lock(u64::MAX - 1, 5));
}

#[test]
fn auto_breed_errors_leave_state() {
    let mut pallet = pallet_with_pair(1);
    let bad_id = Proof { kitty_id_1: 0, kitty_id_2: 5, nonce: 0, solution: 0 };
    assert_eq!(pallet.auto_breed(&bad_id, &entropy(4)), Err(Error::InvalidKittyId));
    let same = Proof { kitty_id_1: 1, kitty_id_2: 1, nonce: 0, solution: 0 };
    assert_eq!(pallet.auto_breed(&same, &entropy(4)), Err(Error::SameGender));
    let stale = Proof { kitty_id_1: 0, kitty_id_2: 1, nonce: 3, solution: 0 };
    assert_eq!(pallet.auto_breed(&stale, &entropy(4)), Err(Error::BadProof));
    assert_eq!(pallet.validate_unsigned(&stale), Err(Error::BadProof));
    assert_eq!(pallet.auto_breed_nonce(), 0);
    assert_eq!(pallet.next_token_id(), 2);
}

#[test]
fn replay_guard_refuses_unbreedable_pair() {
    let mut pallet = pallet_with_pair(1);
    // At difficulty 1 these digests pass; the kitties do not.
    let missing = Proof { kitty_id_1: 0, kitty_id_2: 5, nonce: 0, solution: 0 };
    assert_eq!(pallet.validate_unsigned(&missing), Err(Error::InvalidKittyId));
    let same = Proof { kitty_id_1: 1, kitty_id_2: 1, nonce: 0, solution: 0 };
    assert_eq!(pallet.validate_unsigned(&same), Err(Error::SameGender));
    assert_eq!(pallet.auto_breed_nonce(), 0);
    let good = Proof { kitty_id_1: 0, kitty_id_2: 1, nonce: 0, solution: 0 };
    assert!(pallet.validate_unsigned(&good).is_ok());
    assert_eq!(pallet.auto_breed_nonce(), 1);
}

#[test]
fn sample_pair_reduces_draws_and_checks_gender() {
    let pallet = pallet_with_pair(1);
    assert_eq!(pallet.sample_pair(0, 1), Some((0, 1)));
    assert_eq!(pallet.sample_pair(3, 4), Some((1, 0)));
    assert_eq!(pallet.sample_pair(3, 5), None);
    assert_eq!(pallet.sample_pair(4, 2), None);
    assert_eq!(pallet.sample_pair(u32::MAX, 0), Some((1, 0)));
}

#[test]
fn search_solution_returns_first_valid_trial() {
    assert_eq!(search_solution(0, 1, 0, 7, 500, 1), Some(7 * PREFIX_UNIT));
    assert_eq!(search_solution(0, 1, 0, 7, 0, 1), None);
    assert_eq!(search_solution(0, 1, 0, 7, 5, u32::MAX), None);
    let found = search_solution(0, 1, 2, 9, 500, 16).expect("a trial below 500 meets difficulty 16");
    assert_eq!(found / PREFIX_UNIT, 9);
    assert!(validate_solution(0, 1, 2, found, 16));
    for j in 0..found % PREFIX_UNIT {
        assert!(!validate_solution(0, 1, 2, 9 * PREFIX_UNIT + j, 16));
    }
    let short = found % PREFIX_UNIT;
    assert_eq!(search_solution(0, 1, 2, 9, short, 16), None);
}
