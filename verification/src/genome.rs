//! Genetic crossover: a child genome takes each bit from one of two parents,
//! as a selector mask decides.

use vstd::prelude::*;

verus! {

/// One byte of a child: the bits of `a` where `selector` is set, the bits of
/// `b` where it is clear.
pub open spec fn mix_byte(selector: u8, a: u8, b: u8) -> u8 {
    (selector & a) | (!selector & b)
}

/// The child genome of parents `a` and `b` under `selector`, byte by byte.
pub open spec fn crossover(a: Seq<u8>, b: Seq<u8>, selector: Seq<u8>) -> Seq<u8> {
    Seq::new(16, |i: int| mix_byte(selector[i], a[i], b[i]))
}

/// Combines two parent genomes under a selector mask.
pub fn derive_child_genome(parent_a: &[u8; 16], parent_b: &[u8; 16], selector: &[u8; 16]) -> (child:
    [u8; 16])
    ensures
        child@ == crossover(parent_a@, parent_b@, selector@),
        forall|i: int|
            0 <= i < 16 ==> child[i] == (selector[i] & parent_a[i]) | (!selector[i] & parent_b[i]),
{
    let mut child = [0u8; 16];
    let mut i: usize = 0;
    while i < 16
        invariant
            i <= 16,
            forall|j: int|
                0 <= j < i ==> child[j] == mix_byte(selector[j], parent_a[j], parent_b[j]),
        decreases 16 - i,
    {
        child[i] = (selector[i] & parent_a[i]) | (!selector[i] & parent_b[i]);
        i += 1;
    }
    assert(child@ =~= crossover(parent_a@, parent_b@, selector@));
    child
}

/// Every bit of a child comes from the parent that the selector names: from
/// the first parent where the selector bit is one, from the second where it
/// is zero.
pub proof fn lemma_mix_byte_selects_bits(selector: u8, a: u8, b: u8, bit: u8)
    requires
        bit < 8,
    ensures
        (selector >> bit) & 1 == 1 ==> (mix_byte(selector, a, b) >> bit) & 1 == (a >> bit) & 1,
        (selector >> bit) & 1 == 0 ==> (mix_byte(selector, a, b) >> bit) & 1 == (b >> bit) & 1,
{
    assert(bit < 8 ==> ((selector >> bit) & 1 == 1 ==> ((((selector & a) | (!selector & b)) >> bit)
        & 1) == (a >> bit) & 1)) by (bit_vector);
    assert(bit < 8 ==> ((selector >> bit) & 1 == 0 ==> ((((selector & a) | (!selector & b)) >> bit)
        & 1) == (b >> bit) & 1)) by (bit_vector);
}

} // verus!
