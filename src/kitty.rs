//! The genome of a kitty, its gender, and the crossover of two genomes.
use vstd::prelude::*;

verus! {

/// Number of bytes in a genome.
pub const DNA_LEN: usize = 16;

/// A kitty's genome: sixteen bytes, fixed once the kitty exists.
#[derive(Clone, Copy, Debug, PartialEq, Eq)]
pub struct Kitty(pub [u8; 16]);

/// The gender of a kitty, derived from the parity of its first genome byte.
#[derive(Clone, Copy, Debug, PartialEq, Eq, Structural)]
pub enum KittyGender {
    Male,
    Female,
}

/// Gender of a genome: an even first byte is male, an odd one female.
pub open spec fn gender_of(dna: Seq<u8>) -> KittyGender {
    if dna[0] % 2 == 0 {
        KittyGender::Male
    } else {
        KittyGender::Female
    }
}

/// One byte of offspring: each bit comes from `dna1` where the selector bit is
/// clear and from `dna2` where it is set.
pub open spec fn combined_byte(dna1: u8, dna2: u8, selector: u8) -> u8 {
    (!selector & dna1) | (selector & dna2)
}

/// The genome bred from two parents under a selector, byte by byte.
pub open spec fn crossover_of(dna1: Seq<u8>, dna2: Seq<u8>, selector: Seq<u8>) -> Seq<u8> {
    Seq::new(dna1.len(), |i: int| combined_byte(dna1[i], dna2[i], selector[i]))
}

/// Bit `j` of a byte, as 0 or 1.
pub open spec fn bit_of(b: u8, j: u8) -> u8 {
    (b >> j) & 1
}

impl Kitty {
    pub open spec fn dna(&self) -> Seq<u8> {
        self.0@
    }

    pub open spec fn spec_gender(&self) -> KittyGender {
        gender_of(self.dna())
    }

    /// The kitty's gender.
    pub fn gender(&self) -> (r: KittyGender)
        ensures
            r == self.spec_gender(),
    {
        if self.0[0] % 2 == 0 {
            KittyGender::Male
        } else {
            KittyGender::Female
        }
    }
}

/// Mixes one byte of two parents under one selector byte.
pub fn combine_dna(dna1: u8, dna2: u8, selector: u8) -> (r: u8)
    ensures
        r == combined_byte(dna1, dna2, selector),
{
    (!selector & dna1) | (selector & dna2)
}

/// The offspring of two genomes under a selector.
pub fn crossover(kitty1: &Kitty, kitty2: &Kitty, selector: &[u8; 16]) -> (r: Kitty)
    ensures
        r.dna() == crossover_of(kitty1.dna(), kitty2.dna(), selector@),
{
    let mut new_dna: [u8; 16] = [0u8; 16];
    let mut i: usize = 0;
    while i < DNA_LEN
        invariant
            i <= DNA_LEN,
            new_dna@.len() == DNA_LEN,
            forall|k: int|
                0 <= k < i ==> new_dna@[k] == combined_byte(
                    kitty1.dna()[k],
                    kitty2.dna()[k],
                    selector@[k],
                ),
        decreases DNA_LEN - i,
    {
        new_dna[i] = combine_dna(kitty1.0[i], kitty2.0[i], selector[i]);
        i = i + 1;
    }
    let r = Kitty(new_dna);
    assert(r.dna() =~= crossover_of(kitty1.dna(), kitty2.dna(), selector@));
    r
}

proof fn lemma_combined_bit(dna1: u8, dna2: u8, selector: u8, j: u8)
    by (bit_vector)
    requires
        j < 8,
    ensures
        bit_of(combined_byte(dna1, dna2, selector), j) == if bit_of(selector, j) == 0 {
            bit_of(dna1, j)
        } else {
            bit_of(dna2, j)
        },
{
}

/// Every bit of the offspring is the parent's bit that the selector picks:
/// the first parent's where the selector bit is 0, the second's where it is 1.
pub proof fn crossover_takes_selected_bits(
    dna1: Seq<u8>,
    dna2: Seq<u8>,
    selector: Seq<u8>,
    i: int,
    j: u8,
)
    requires
        dna1.len() == DNA_LEN,
        dna2.len() == DNA_LEN,
        selector.len() == DNA_LEN,
        0 <= i < DNA_LEN,
        j < 8,
    ensures
        bit_of(crossover_of(dna1, dna2, selector)[i], j) == if bit_of(selector[i], j) == 0 {
            bit_of(dna1[i], j)
        } else {
            bit_of(dna2[i], j)
        },
{
    lemma_combined_bit(dna1[i], dna2[i], selector[i], j);
}

} // verus!
