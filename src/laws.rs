//! Properties that relate several operations: the replay guard over time, and
//! what the search hands to admission.
use crate::difficulty::{difficulty_one_accepts_all_but_max, proof_digest, solution_valid};
use crate::kitty::Kitty;
use crate::offchain::{
    candidate, found_by_search, has_breedable_pair, prefix_base, solution_base, PREFIX_UNIT,
};
use crate::pallet::{breed_outcome, Entropy, Error, Event, PalletView, Proof};
use vstd::bytes::spec_u128_from_le_bytes;
use vstd::prelude::*;

verus! {

/// Breeding two kitties of one gender is refused with `SameGender` and leaves
/// the state as it was: no kitty is added and the nonce stays.
pub proof fn same_gender_breeds_nothing(
    s: PalletView,
    owner: u64,
    kitty1: Kitty,
    kitty2: Kitty,
    entropy: Entropy,
    r: Result<Event, Error>,
    post: PalletView,
)
    requires
        kitty1.spec_gender() == kitty2.spec_gender(),
        breed_outcome(s, owner, kitty1, kitty2, entropy, r, post),
    ensures
        r == Err::<Event, Error>(Error::SameGender),
        post.tokens == s.tokens,
        post.nonce == s.nonce,
{
}

/// A proof that the replay guard let through is refused in every state whose
/// nonce has moved past the one it was accepted at.
pub proof fn replayed_proof_rejected(earlier: PalletView, later: PalletView, proof: Proof)
    requires
        earlier.proof_accepted(proof),
        later.nonce > earlier.nonce,
    ensures
        !later.proof_accepted(proof),
{
}

/// Letting a proof through moves the nonce past the proof's own, unless the
/// nonce already stands at `u32::MAX`, where it saturates; the same proof is
/// then refused by the state that follows.
pub proof fn acceptance_moves_nonce_past(s: PalletView, proof: Proof)
    requires
        s.proof_accepted(proof),
        s.nonce < u32::MAX,
    ensures
        s.nonce_advanced().nonce > proof.nonce,
        !s.nonce_advanced().proof_accepted(proof),
{
}

/// With a single kitty there is no pair of different genders, so the search
/// hands out nothing.
pub proof fn single_kitty_has_no_pair(s: PalletView)
    requires
        s.tokens.len() == 1,
    ensures
        !has_breedable_pair(s),
{
    assert forall|kitty_id_1: u32, kitty_id_2: u32| !#[trigger] s.breedable_pair(kitty_id_1, kitty_id_2) by {
        if kitty_id_1 < 1 && kitty_id_2 < 1 {
            assert(kitty_id_1 == kitty_id_2);
        }
    }
}

/// A proof handed out by the search is admitted in the state it was found
/// in: both kitties exist, their genders differ, and the replay guard lets it
/// through, so admission succeeds unless every kitty id is taken.
pub proof fn searched_proof_is_admitted(s: PalletView, proof: Proof)
    requires
        found_by_search(s, proof),
    ensures
        s.admission_error(proof) is None,
{
}

/// At difficulty 1 the search hands out its very first candidate, unless
/// that candidate's digest is `u128::MAX`, the one value that difficulty 1
/// refuses.
pub proof fn difficulty_one_takes_first_candidate(s: PalletView, proof: Proof)
    requires
        found_by_search(s, proof),
        s.difficulty == 1,
    ensures
        proof.solution % PREFIX_UNIT == 0 || spec_u128_from_le_bytes(
            proof_digest(
                proof.kitty_id_1,
                proof.kitty_id_2,
                proof.nonce,
                candidate(solution_base(proof.solution), 0),
            ),
        ) == u128::MAX,
{
    if proof.solution % PREFIX_UNIT != 0 {
        let first = candidate(solution_base(proof.solution), 0);
        assert(!solution_valid(proof.kitty_id_1, proof.kitty_id_2, proof.nonce, first, 1));
        difficulty_one_accepts_all_but_max(
            proof_digest(proof.kitty_id_1, proof.kitty_id_2, proof.nonce, first),
        );
    }
}

/// At difficulty 1 the first trial under any prefix meets the difficulty,
/// unless its digest is `u128::MAX`; `search_solution` with a budget of at
/// least one therefore returns that first trial.
pub proof fn difficulty_one_first_trial_valid(kitty_id_1: u32, kitty_id_2: u32, nonce: u32, prefix: u32)
    requires
        spec_u128_from_le_bytes(
            proof_digest(kitty_id_1, kitty_id_2, nonce, candidate(prefix_base(prefix), 0)),
        ) != u128::MAX,
    ensures
        solution_valid(kitty_id_1, kitty_id_2, nonce, candidate(prefix_base(prefix), 0), 1),
{
    difficulty_one_accepts_all_but_max(
        proof_digest(kitty_id_1, kitty_id_2, nonce, candidate(prefix_base(prefix), 0)),
    );
}

} // verus!
