//! The kitties state: the registry of kitties, the auto-breed nonce that guards
//! against replayed proofs, and the configured difficulty; with creation,
//! breeding, and the admission of proofs found by the background search.
use crate::difficulty::{solution_valid, validate_solution};
use crate::hashing::{blake2_128, blake2_128_of, encode_entropy, entropy_payload};
use crate::kitty::{crossover, crossover_of, Kitty};
use vstd::prelude::*;

verus! {

/// The owner and genome of a registered kitty.
#[derive(Clone, Copy, Debug, PartialEq, Eq)]
pub struct TokenInfo {
    pub owner: u64,
    pub data: Kitty,
}

/// A claim that `(kitty_id_1, kitty_id_2, nonce, solution)` hashes below the
/// difficulty threshold.
#[derive(Clone, Copy, Debug, PartialEq, Eq, Structural)]
pub struct Proof {
    pub kitty_id_1: u32,
    pub kitty_id_2: u32,
    pub nonce: u32,
    pub solution: u128,
}

/// The randomness that a genome or a selector is drawn from: the chain's
/// random seed and the index of the extrinsic being applied.
#[derive(Clone, Copy, Debug, PartialEq, Eq)]
pub struct Entropy {
    pub random_seed: [u8; 32],
    pub extrinsic_index: Option<u32>,
}

/// Why a call was refused. A refused call changes nothing.
#[derive(Clone, Copy, Debug, PartialEq, Eq, Structural)]
pub enum Error {
    /// A kitty id names no kitty, or one that the caller does not own.
    InvalidKittyId,
    /// The two parents have the same gender.
    SameGender,
    /// The proof's nonce is not the current one, or its digest is too large.
    BadProof,
    /// Every kitty id is taken.
    NoAvailableKittyId,
    /// A difficulty of zero was configured.
    InvalidDifficulty,
}

/// What a successful call did.
#[derive(Clone, Copy, Debug, PartialEq, Eq)]
pub enum Event {
    /// A kitty was created: owner, id, genome.
    KittyCreated(u64, u32, Kitty),
    /// A kitten was bred: owner, id, genome.
    KittyBred(u64, u32, Kitty),
}

/// Tag prefix under which the transaction pool keeps auto-breed transactions.
pub const AUTO_BREED_TAG_PREFIX: &'static str = "kitties";

/// Blocks for which an admitted auto-breed transaction stays valid in the pool.
pub const AUTO_BREED_LONGEVITY: u64 = 64;

/// How the transaction pool is to hold an unsigned transaction that passed
/// the replay guard.
#[derive(Clone, Copy, Debug, PartialEq, Eq)]
pub struct ValidTransaction {
    pub tag_prefix: &'static str,
    pub longevity: u64,
    pub propagate: bool,
}

/// The pool's validity for an admitted auto-breed transaction: tagged
/// `AUTO_BREED_TAG_PREFIX`, valid for `AUTO_BREED_LONGEVITY` blocks, and
/// passed on to peers.
pub open spec fn auto_breed_validity() -> ValidTransaction {
    ValidTransaction {
        tag_prefix: AUTO_BREED_TAG_PREFIX,
        longevity: AUTO_BREED_LONGEVITY,
        propagate: true,
    }
}

/// The kitties state.
pub struct Pallet {
    tokens: Vec<TokenInfo>,
    auto_breed_nonce: u32,
    difficulty: u32,
}

/// The abstract state: the kitties by id, the current auto-breed nonce, and
/// the difficulty.
pub struct PalletView {
    pub tokens: Seq<TokenInfo>,
    pub nonce: u32,
    pub difficulty: u32,
}

impl PalletView {
    /// Ids fit in `u32` and the difficulty is positive.
    pub open spec fn wf(self) -> bool {
        &&& self.tokens.len() <= u32::MAX
        &&& self.difficulty >= 1
    }

    /// The kitty with id `kitty_id`, if there is one.
    pub open spec fn token(self, kitty_id: u32) -> Option<TokenInfo> {
        if kitty_id < self.tokens.len() {
            Some(self.tokens[kitty_id as int])
        } else {
            None
        }
    }

    /// The genome of kitty `kitty_id` if `owner` owns it.
    pub open spec fn owned_kitty(self, owner: u64, kitty_id: u32) -> Option<Kitty> {
        match self.token(kitty_id) {
            Some(info) => if info.owner == owner {
                Some(info.data)
            } else {
                None
            },
            None => None,
        }
    }

    /// No id is left for another kitty.
    pub open spec fn is_full(self) -> bool {
        self.tokens.len() >= u32::MAX
    }

    /// The state after a kitty is registered under the next id.
    pub open spec fn minted(self, owner: u64, kitty: Kitty) -> PalletView {
        PalletView {
            tokens: self.tokens.push(TokenInfo { owner, data: kitty }),
            nonce: self.nonce,
            difficulty: self.difficulty,
        }
    }

    /// The replay guard lets a proof through: it names the current nonce and
    /// meets the difficulty.
    pub open spec fn proof_accepted(self, proof: Proof) -> bool {
        &&& proof.nonce == self.nonce
        &&& solution_valid(
            proof.kitty_id_1,
            proof.kitty_id_2,
            proof.nonce,
            proof.solution,
            self.difficulty,
        )
    }

    /// Both kitties of a proof exist and have different genders.
    pub open spec fn breedable_pair(self, kitty_id_1: u32, kitty_id_2: u32) -> bool {
        &&& kitty_id_1 < self.tokens.len()
        &&& kitty_id_2 < self.tokens.len()
        &&& self.tokens[kitty_id_1 as int].data.spec_gender() != self.tokens[kitty_id_2 as int].data.spec_gender()
    }

    /// Why admission refuses `proof` in this state, checked in this order: a
    /// kitty it names is missing, its two kitties have one gender, or the
    /// replay guard refuses it (wrong nonce, or digest too large). `None`
    /// when none of these holds.
    pub open spec fn admission_error(self, proof: Proof) -> Option<Error> {
        if self.token(proof.kitty_id_1) is None || self.token(proof.kitty_id_2) is None {
            Some(Error::InvalidKittyId)
        } else if self.tokens[proof.kitty_id_1 as int].data.spec_gender()
            == self.tokens[proof.kitty_id_2 as int].data.spec_gender() {
            Some(Error::SameGender)
        } else if !self.proof_accepted(proof) {
            Some(Error::BadProof)
        } else {
            None
        }
    }

    /// The state after an accepted proof: the nonce moves on by one, saturating.
    pub open spec fn nonce_advanced(self) -> PalletView {
        PalletView { tokens: self.tokens, nonce: self.nonce.saturating_add(1), difficulty: self.difficulty }
    }
}

/// The selector or fresh genome drawn for `account` from `entropy`.
pub open spec fn random_value_of(account: u64, entropy: Entropy) -> Seq<u8> {
    blake2_128_of(entropy_payload(entropy.random_seed@, account, entropy.extrinsic_index))
}

/// The outcome of breeding `kitty1` and `kitty2` for `owner` in state `s`.
pub open spec fn breed_outcome(
    s: PalletView,
    owner: u64,
    kitty1: Kitty,
    kitty2: Kitty,
    entropy: Entropy,
    r: Result<Event, Error>,
    post: PalletView,
) -> bool {
    if kitty1.spec_gender() == kitty2.spec_gender() {
        r == Err::<Event, Error>(Error::SameGender) && post == s
    } else if s.is_full() {
        r == Err::<Event, Error>(Error::NoAvailableKittyId) && post == s
    } else {
        &&& r matches Ok(Event::KittyBred(o, id, child))
        &&& o == owner
        &&& id == s.tokens.len()
        &&& child.dna() == crossover_of(kitty1.dna(), kitty2.dna(), random_value_of(owner, entropy))
        &&& post == s.minted(owner, child)
    }
}

impl View for Pallet {
    type V = PalletView;

    closed spec fn view(&self) -> PalletView {
        PalletView {
            tokens: self.tokens@,
            nonce: self.auto_breed_nonce,
            difficulty: self.difficulty,
        }
    }
}

impl Pallet {
    /// A state with no kitties and nonce 0; a difficulty of zero is refused.
    pub fn new(default_difficulty: u32) -> (r: Result<Pallet, Error>)
        ensures
            default_difficulty == 0 <==> r is Err,
            r matches Err(e) ==> e == Error::InvalidDifficulty,
            r matches Ok(p) ==> {
                &&& p@.wf()
                &&& p@.tokens.len() == 0
                &&& p@.nonce == 0
                &&& p@.difficulty == default_difficulty
            },
    {
        if default_difficulty == 0 {
            return Err(Error::InvalidDifficulty);
        }
        Ok(Pallet { tokens: Vec::new(), auto_breed_nonce: 0, difficulty: default_difficulty })
    }

    /// The current auto-breed nonce.
    pub fn auto_breed_nonce(&self) -> (r: u32)
        ensures
            r == self@.nonce,
    {
        self.auto_breed_nonce
    }

    /// The configured difficulty.
    pub fn difficulty(&self) -> (r: u32)
        ensures
            r == self@.difficulty,
    {
        self.difficulty
    }

    /// The number of kitties, which is also the id the next one gets.
    pub fn next_token_id(&self) -> (r: u32)
        requires
            self@.wf(),
        ensures
            r == self@.tokens.len(),
    {
        self.tokens.len() as u32
    }

    /// The owner and genome of kitty `kitty_id`, if it exists.
    pub fn tokens(&self, kitty_id: u32) -> (r: Option<TokenInfo>)
        ensures
            r == self@.token(kitty_id),
    {
        if (kitty_id as usize) < self.tokens.len() {
            Some(self.tokens[kitty_id as usize])
        } else {
            None
        }
    }

    /// The genome of kitty `kitty_id` if `owner` owns it.
    pub fn kitties(&self, owner: u64, kitty_id: u32) -> (r: Option<Kitty>)
        ensures
            r == self@.owned_kitty(owner, kitty_id),
    {
        match self.tokens(kitty_id) {
            Some(info) => if info.owner == owner {
                Some(info.data)
            } else {
                None
            },
            None => None,
        }
    }

    /// Sixteen bytes drawn for `account`: the Blake2 digest of the seed, the
    /// account and the extrinsic index.
    pub fn random_value(account: u64, entropy: &Entropy) -> (r: [u8; 16])
        ensures
            r@ == random_value_of(account, *entropy),
    {
        let payload = encode_entropy(&entropy.random_seed, account, entropy.extrinsic_index);
        blake2_128(&payload)
    }

    /// Registers `kitty` for `owner` under the next id.
    fn mint(&mut self, owner: u64, kitty: Kitty) -> (r: Result<u32, Error>)
        requires
            old(self)@.wf(),
        ensures
            final(self)@.wf(),
            old(self)@.is_full() ==> r == Err::<u32, Error>(Error::NoAvailableKittyId) && final(self)@
                == old(self)@,
            !old(self)@.is_full() ==> r == Ok::<u32, Error>(old(self)@.tokens.len() as u32)
                && final(self)@ == old(self)@.minted(owner, kitty),
    {
        if self.tokens.len() >= u32::MAX as usize {
            return Err(Error::NoAvailableKittyId);
        }
        let kitty_id = self.tokens.len() as u32;
        self.tokens.push(TokenInfo { owner, data: kitty });
        Ok(kitty_id)
    }

    /// Creates a kitty for `sender` with a genome drawn from `entropy`.
    pub fn create(&mut self, sender: u64, entropy: &Entropy) -> (r: Result<Event, Error>)
        requires
            old(self)@.wf(),
        ensures
            final(self)@.wf(),
            old(self)@.is_full() ==> r == Err::<Event, Error>(Error::NoAvailableKittyId)
                && final(self)@ == old(self)@,
            !old(self)@.is_full() ==> {
                &&& r matches Ok(Event::KittyCreated(owner, id, kitty))
                &&& owner == sender
                &&& id == old(self)@.tokens.len()
                &&& kitty.dna() == random_value_of(sender, *entropy)
                &&& final(self)@ == old(self)@.minted(sender, kitty)
            },
    {
        let dna = Self::random_value(sender, entropy);
        let kitty = Kitty(dna);
        match self.mint(sender, kitty) {
            Ok(kitty_id) => Ok(Event::KittyCreated(sender, kitty_id, kitty)),
            Err(e) => Err(e),
        }
    }

    /// Breeds `kitty1` with `kitty2` for `owner`: parents of one gender are
    /// refused; otherwise the crossover of the two under a selector drawn
    /// from `entropy` is registered for `owner`.
    pub fn do_breed(&mut self, owner: u64, kitty1: Kitty, kitty2: Kitty, entropy: &Entropy) -> (r:
        Result<Event, Error>)
        requires
            old(self)@.wf(),
        ensures
            final(self)@.wf(),
            breed_outcome(old(self)@, owner, kitty1, kitty2, *entropy, r, final(self)@),
    {
        if kitty1.gender() == kitty2.gender() {
            return Err(Error::SameGender);
        }
        let selector = Self::random_value(owner, entropy);
        let new_kitty = crossover(&kitty1, &kitty2, &selector);
        match self.mint(owner, new_kitty) {
            Ok(kitty_id) => Ok(Event::KittyBred(owner, kitty_id, new_kitty)),
            Err(e) => Err(e),
        }
    }

    /// Breeds two kitties that `sender` owns.
    pub fn breed(&mut self, sender: u64, kitty_id_1: u32, kitty_id_2: u32, entropy: &Entropy) -> (r:
        Result<Event, Error>)
        requires
            old(self)@.wf(),
        ensures
            final(self)@.wf(),
            old(self)@.owned_kitty(sender, kitty_id_1) is None ==> r == Err::<Event, Error>(
                Error::InvalidKittyId,
            ) && final(self)@ == old(self)@,
            old(self)@.owned_kitty(sender, kitty_id_1) is Some && old(self)@.owned_kitty(
                sender,
                kitty_id_2,
            ) is None ==> r == Err::<Event, Error>(Error::InvalidKittyId) && final(self)@ == old(
                self,
            )@,
            old(self)@.owned_kitty(sender, kitty_id_1) matches Some(kitty1) ==> old(
                self,
            )@.owned_kitty(sender, kitty_id_2) matches Some(kitty2) ==> breed_outcome(
                old(self)@,
                sender,
                kitty1,
                kitty2,
                *entropy,
                r,
                final(self)@,
            ),
    {
        let kitty1 = match self.kitties(sender, kitty_id_1) {
            Some(k) => k,
            None => return Err(Error::InvalidKittyId),
        };
        let kitty2 = match self.kitties(sender, kitty_id_2) {
            Some(k) => k,
            None => return Err(Error::InvalidKittyId),
        };
        self.do_breed(sender, kitty1, kitty2, entropy)
    }

    /// Whether `proof` passes the replay guard now: it names the current
    /// nonce and meets the difficulty. Nothing changes.
    pub fn check_proof(&self, proof: &Proof) -> (r: bool)
        requires
            self@.wf(),
        ensures
            r == self@.proof_accepted(*proof),
    {
        proof.nonce == self.auto_breed_nonce && validate_solution(
            proof.kitty_id_1,
            proof.kitty_id_2,
            proof.nonce,
            proof.solution,
            self.difficulty,
        )
    }

    /// The replay guard on the admission path: a proof whose two kitties
    /// exist and differ in gender, that names the current nonce and meets the
    /// difficulty, is let through with the pool's validity for auto-breed
    /// transactions, and the nonce moves on by one (saturating). Any other
    /// proof is refused with the first error of `admission_error`, and
    /// nothing changes.
    pub fn validate_unsigned(&mut self, proof: &Proof) -> (r: Result<ValidTransaction, Error>)
        requires
            old(self)@.wf(),
        ensures
            final(self)@.wf(),
            ({
                match old(self)@.admission_error(*proof) {
                    Some(e) => r == Err::<ValidTransaction, Error>(e) && final(self)@ == old(
                        self,
                    )@,
                    None => r == Ok::<ValidTransaction, Error>(auto_breed_validity())
                        && final(self)@ == old(self)@.nonce_advanced(),
                }
            }),
    {
        let kitty1 = match self.tokens(proof.kitty_id_1) {
            Some(t) => t,
            None => return Err(Error::InvalidKittyId),
        };
        let kitty2 = match self.tokens(proof.kitty_id_2) {
            Some(t) => t,
            None => return Err(Error::InvalidKittyId),
        };
        if kitty1.data.gender() == kitty2.data.gender() {
            return Err(Error::SameGender);
        }
        if !self.check_proof(proof) {
            return Err(Error::BadProof);
        }
        self.auto_breed_nonce = self.auto_breed_nonce.saturating_add(1);
        Ok(
            ValidTransaction {
                tag_prefix: AUTO_BREED_TAG_PREFIX,
                longevity: AUTO_BREED_LONGEVITY,
                propagate: true,
            },
        )
    }

    /// Admits a proof found by the background search and breeds its pair for
    /// the first kitty's owner. It is refused with the first error of
    /// `admission_error`, or else with `NoAvailableKittyId` when no id is
    /// left; a refusal changes nothing. On success the nonce moves on by one
    /// and the crossover of the two kitties is registered.
    pub fn auto_breed(&mut self, proof: &Proof, entropy: &Entropy) -> (r: Result<Event, Error>)
        requires
            old(self)@.wf(),
        ensures
            final(self)@.wf(),
            ({
                let s = old(self)@;
                let t1 = s.tokens[proof.kitty_id_1 as int];
                let t2 = s.tokens[proof.kitty_id_2 as int];
                match s.admission_error(*proof) {
                    Some(e) => r == Err::<Event, Error>(e) && final(self)@ == s,
                    None => if s.is_full() {
                        r == Err::<Event, Error>(Error::NoAvailableKittyId) && final(self)@ == s
                    } else {
                        &&& r matches Ok(Event::KittyBred(o, id, child))
                        &&& o == t1.owner
                        &&& id == s.tokens.len()
                        &&& child.dna() == crossover_of(
                            t1.data.dna(),
                            t2.data.dna(),
                            random_value_of(t1.owner, *entropy),
                        )
                        &&& final(self)@ == s.nonce_advanced().minted(t1.owner, child)
                    },
                }
            }),
    {
        let kitty1 = match self.tokens(proof.kitty_id_1) {
            Some(t) => t,
            None => return Err(Error::InvalidKittyId),
        };
        let kitty2 = match self.tokens(proof.kitty_id_2) {
            Some(t) => t,
            None => return Err(Error::InvalidKittyId),
        };
        if kitty1.data.gender() == kitty2.data.gender() {
            return Err(Error::SameGender);
        }
        if !self.check_proof(proof) {
            return Err(Error::BadProof);
        }
        if self.tokens.len() >= u32::MAX as usize {
            return Err(Error::NoAvailableKittyId);
        }
        let accepted = self.validate_unsigned(proof);
        assert(accepted is Ok);
        self.do_breed(kitty1.owner, kitty1.data, kitty2.data, entropy)
    }
}

} // verus!
