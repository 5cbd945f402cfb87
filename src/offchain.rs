//! The background search, run once per time step: under the advisory lock it
//! samples pairs of kitties until two differ in gender, then tries solutions
//! for that pair until one meets the difficulty. Both phases share one budget
//! of `MAX_ITERATIONS`, so a run may end without a proof; it is then simply
//! tried again at a later step.
use crate::difficulty::{solution_valid, validate_solution};
use crate::lock::AdvisoryLock;
use crate::pallet::{Pallet, PalletView, Proof};
use rand_chacha::rand_core::{RngCore, SeedableRng};
use rand_chacha::ChaCha20Rng;
use vstd::prelude::*;

verus! {

/// Pair draws and solution trials allowed to one run of the search, together.
pub const MAX_ITERATIONS: u128 = 500;

/// Steps for which a run holds the advisory lock.
pub const LOCK_DEADLINE_STEPS: u64 = 1;

/// A solution is a random 32-bit prefix times `PREFIX_UNIT` (the prefix
/// shifted 32 bits left) plus the index of the trial.
pub const PREFIX_UNIT: u128 = 0x1_0000_0000;

/// Declares rand_chacha's `ChaCha20Rng`, which the search carries opaquely.
#[verifier::external_type_specification]
#[verifier::external_body]
pub struct ExChaCha20Rng(ChaCha20Rng);

/// Relies on `SeedableRng::from_seed` of rand_chacha's `ChaCha20Rng`: a
/// generator seeded with the 32 bytes. Nothing is stated of its output.
#[verifier::external_body]
fn rng_from_seed(seed: [u8; 32]) -> ChaCha20Rng {
    ChaCha20Rng::from_seed(seed)
}

/// Relies on `RngCore::next_u32` of rand_chacha's `ChaCha20Rng`: the next
/// 32-bit value of the stream, of which nothing is stated.
#[verifier::external_body]
fn next_u32(rng: &mut ChaCha20Rng) -> u32 {
    rng.next_u32()
}

/// The solution tried at index `j` after the prefix part `base`.
pub open spec fn candidate(base: u128, j: u128) -> u128 {
    (base + j) as u128
}

/// The first solution under a 32-bit prefix: the prefix shifted 32 bits left.
pub open spec fn prefix_base(prefix: u32) -> u128 {
    (prefix as u128 * PREFIX_UNIT) as u128
}

/// The prefix part of a solution: the solution without its trial index.
pub open spec fn solution_base(solution: u128) -> u128 {
    (solution - solution % PREFIX_UNIT) as u128
}

/// Some two kitties of `s` differ in gender.
pub open spec fn has_breedable_pair(s: PalletView) -> bool {
    exists|kitty_id_1: u32, kitty_id_2: u32| #[trigger] s.breedable_pair(kitty_id_1, kitty_id_2)
}

/// `proof` is what the search can hand out in state `s`: its kitties differ in
/// gender, it passes the replay guard, its trial index is within the budget,
/// and no smaller index under the same prefix met the difficulty.
pub open spec fn found_by_search(s: PalletView, proof: Proof) -> bool {
    &&& s.breedable_pair(proof.kitty_id_1, proof.kitty_id_2)
    &&& s.proof_accepted(proof)
    &&& proof.solution % PREFIX_UNIT < MAX_ITERATIONS
    &&& forall|j: u128|
        j < proof.solution % PREFIX_UNIT ==> !solution_valid(
            proof.kitty_id_1,
            proof.kitty_id_2,
            proof.nonce,
            #[trigger] candidate(solution_base(proof.solution), j),
            s.difficulty,
        )
}

proof fn lemma_candidate_split(prefix: u128, i: u128)
    requires
        prefix < PREFIX_UNIT,
        i < MAX_ITERATIONS,
    ensures
        prefix * PREFIX_UNIT + i <= u128::MAX,
        (prefix * PREFIX_UNIT + i) % PREFIX_UNIT as int == i,
        (prefix * PREFIX_UNIT + i) / PREFIX_UNIT as int == prefix,
        solution_base((prefix * PREFIX_UNIT + i) as u128) == prefix * PREFIX_UNIT,
{
    assert(prefix * PREFIX_UNIT + i <= u128::MAX) by (nonlinear_arith)
        requires
            prefix < PREFIX_UNIT,
            i < MAX_ITERATIONS,
    ;
    vstd::arithmetic::div_mod::lemma_fundamental_div_mod_converse(
        (prefix * PREFIX_UNIT + i) as int,
        PREFIX_UNIT as int,
        prefix as int,
        i as int,
    );
}

/// Tries the solutions `prefix` shifted 32 bits left plus `i`, for `i` from 0
/// below `budget`, and returns the first one that meets `difficulty` for
/// the pair and nonce; `None` when none of them does.
pub fn search_solution(
    kitty_id_1: u32,
    kitty_id_2: u32,
    nonce: u32,
    prefix: u32,
    budget: u128,
    difficulty: u32,
) -> (r: Option<u128>)
    requires
        difficulty >= 1,
        budget <= MAX_ITERATIONS,
    ensures
        r is None <==> forall|i: u128|
            i < budget ==> !solution_valid(
                kitty_id_1,
                kitty_id_2,
                nonce,
                #[trigger] candidate(prefix_base(prefix), i),
                difficulty,
            ),
        r matches Some(solution) ==> {
            &&& solution / PREFIX_UNIT == prefix
            &&& solution % PREFIX_UNIT < budget
            &&& solution == candidate(prefix_base(prefix), solution % PREFIX_UNIT)
            &&& solution_base(solution) == prefix_base(prefix)
            &&& solution_valid(kitty_id_1, kitty_id_2, nonce, solution, difficulty)
            &&& forall|j: u128|
                j < solution % PREFIX_UNIT ==> !solution_valid(
                    kitty_id_1,
                    kitty_id_2,
                    nonce,
                    #[trigger] candidate(solution_base(solution), j),
                    difficulty,
                )
        },
{
    let base = prefix as u128 * PREFIX_UNIT;
    let mut i: u128 = 0;
    while i < budget
        invariant
            budget <= MAX_ITERATIONS,
            i <= budget,
            difficulty >= 1,
            base == prefix_base(prefix),
            forall|j: u128|
                j < i ==> !solution_valid(
                    kitty_id_1,
                    kitty_id_2,
                    nonce,
                    #[trigger] candidate(base, j),
                    difficulty,
                ),
        decreases budget - i,
    {
        proof {
            lemma_candidate_split(prefix as u128, i);
        }
        let solution = base + i;
        assert(candidate(base, i) == solution);
        if validate_solution(kitty_id_1, kitty_id_2, nonce, solution, difficulty) {
            return Some(solution);
        }
        i = i + 1;
    }
    None
}

impl Pallet {
    /// One pair draw of the search: the two draws, reduced modulo the number
    /// of kitties, name the pair; it is returned if the two differ in gender.
    pub fn sample_pair(&self, draw_1: u32, draw_2: u32) -> (r: Option<(u32, u32)>)
        requires
            self@.wf(),
            self@.tokens.len() > 0,
        ensures
            ({
                let n = self@.tokens.len() as u32;
                let kitty_id_1 = (draw_1 % n) as u32;
                let kitty_id_2 = (draw_2 % n) as u32;
                r == if self@.breedable_pair(kitty_id_1, kitty_id_2) {
                    Some((kitty_id_1, kitty_id_2))
                } else {
                    None::<(u32, u32)>
                }
            }),
    {
        let kitty_count = self.next_token_id();
        let kitty_id_1 = draw_1 % kitty_count;
        let kitty_id_2 = draw_2 % kitty_count;
        let kitty_1 = match self.tokens(kitty_id_1) {
            Some(t) => t,
            None => return None,
        };
        let kitty_2 = match self.tokens(kitty_id_2) {
            Some(t) => t,
            None => return None,
        };
        if kitty_1.data.gender() != kitty_2.data.gender() {
            Some((kitty_id_1, kitty_id_2))
        } else {
            None
        }
    }

    /// One run of the background search at step `now`, with a generator
    /// seeded from `random_seed`. It does nothing while `lock` is held; it
    /// otherwise takes the lock for one step, draws pairs with `sample_pair`
    /// until one differs in gender, then draws a prefix and hands out what
    /// `search_solution` finds in the budget that the pair draws left. It
    /// never hands out a proof in a state where no two kitties differ in
    /// gender.
    pub fn run_offchain_worker(&self, lock: &mut AdvisoryLock, now: u64, random_seed: [u8; 32]) -> (r:
        Option<Proof>)
        requires
            self@.wf(),
        ensures
            old(lock).is_held_at(now) ==> r is None && final(lock)@ == old(lock)@,
            !old(lock).is_held_at(now) ==> final(lock)@ == Some(
                now.saturating_add(LOCK_DEADLINE_STEPS),
            ),
            r matches Some(proof) ==> found_by_search(self@, proof),
            !has_breedable_pair(self@) ==> r is None,
    {
        if !lock.try_lock(now, LOCK_DEADLINE_STEPS) {
            return None;
        }
        let mut rng = rng_from_seed(random_seed);
        let kitty_count = self.next_token_id();
        if kitty_count == 0 {
            return None;
        }
        let mut remaining: u128 = MAX_ITERATIONS;
        let mut kitty_id_1: u32 = 0;
        let mut kitty_id_2: u32 = 0;
        loop
            invariant
                1 <= remaining <= MAX_ITERATIONS,
                kitty_count == self@.tokens.len(),
                kitty_count > 0,
                self@.wf(),
                !old(lock).is_held_at(now),
                lock@ == Some(now.saturating_add(LOCK_DEADLINE_STEPS)),
            ensures
                1 <= remaining <= MAX_ITERATIONS,
                self@.breedable_pair(kitty_id_1, kitty_id_2),
            decreases remaining,
        {
            let draw_1 = next_u32(&mut rng);
            let draw_2 = next_u32(&mut rng);
            if let Some(pair) = self.sample_pair(draw_1, draw_2) {
                kitty_id_1 = pair.0;
                kitty_id_2 = pair.1;
                break ;
            }
            remaining = remaining - 1;
            if remaining == 0 {
                return None;
            }
        }
        let nonce = self.auto_breed_nonce();
        let prefix = next_u32(&mut rng);
        match search_solution(kitty_id_1, kitty_id_2, nonce, prefix, remaining, self.difficulty()) {
            Some(solution) => {
                let proof = Proof { kitty_id_1, kitty_id_2, nonce, solution };
                assert(self@.breedable_pair(proof.kitty_id_1, proof.kitty_id_2));
                Some(proof)
            },
            None => None,
        }
    }
}

} // verus!
