//! Elements of the Starknet prime field, held as plain integers.
use vstd::arithmetic::power2::{lemma2_to64, lemma_pow2_adds, pow2};
use vstd::prelude::*;

verus! {

/// The order of the Starknet field: 2^251 + 17 * 2^192 + 1.
pub open spec fn prime() -> nat {
    0x0800000000000011000000000000000000000000000000000000000000000001nat
}

/// One more than the largest number that fits the lower half of an element.
pub open spec fn half() -> nat {
    0x1_0000_0000_0000_0000_0000_0000_0000_0000nat
}

/// An element of the Starknet field, as the two halves of its canonical
/// representative. The representative is always below [`prime`].
#[derive(Clone, Copy, Debug, PartialEq, Eq)]
pub struct Felt {
    pub(crate) hi: u128,
    pub(crate) lo: u128,
}

impl Felt {
    /// The canonical representative.
    pub closed spec fn value(self) -> nat {
        self.hi as nat * half() + self.lo as nat
    }

    /// The element whose representative is `value`.
    pub closed spec fn of(value: nat) -> Felt {
        Felt {
            hi: (value / half()) as u128,
            lo: (value % half()) as u128,
        }
    }

    /// Addition in the field.
    pub open spec fn plus(self, other: Felt) -> Felt {
        Felt::of((self.value() + other.value()) % prime())
    }

    #[verifier::type_invariant]
    pub open spec fn canonical(self) -> bool {
        self.value() < prime()
    }

    /// `of` and `value` undo each other.
    pub broadcast proof fn lemma_of_value(self)
        ensures
            #[trigger] Felt::of(self.value()) == self,
    {
    }

    pub broadcast proof fn lemma_value_of(value: nat)
        requires
            value < prime(),
        ensures
            #[trigger] Felt::of(value).value() == value,
    {
    }

    /// The element with representative `hi * 2^128 + lo`, if that is below the
    /// field's order.
    pub fn from_parts(hi: u128, lo: u128) -> (felt: Option<Felt>)
        ensures
            felt is Some <==> hi * half() + lo < prime(),
            felt matches Some(f) ==> f.value() == hi * half()
                + lo,
    {
        if hi < 0x0800_0000_0000_0011_0000_0000_0000_0000 || (hi
            == 0x0800_0000_0000_0011_0000_0000_0000_0000 && lo == 0) {
            Some(Felt { hi, lo })
        } else {
            None
        }
    }

    /// The upper and the lower half of the representative.
    pub fn parts(&self) -> (halves: (u128, u128))
        ensures
            self.value() == halves.0 * half() + halves.1,
    {
        (self.hi, self.lo)
    }

    /// The element that represents a number of 128 bits.
    pub fn from_u128(value: u128) -> (felt: Felt)
        ensures
            felt == Felt::of(value as nat),
            felt.value() == value,
    {
        Felt { hi: 0, lo: value }
    }

    /// The element that represents a small number.
    pub fn from_u64(value: u64) -> (felt: Felt)
        ensures
            felt == Felt::of(value as nat),
            felt.value() == value,
    {
        Felt { hi: 0, lo: value as u128 }
    }
}

/// The order of the field, and the size of half an element, as powers of two.
pub proof fn law_sizes()
    ensures
        prime() == pow2(251) + 17 * pow2(192) + 1,
        half() == pow2(128),
{
    lemma2_to64();
    lemma_pow2_adds(64, 64);
    assert(pow2(128) == 0x1_0000_0000_0000_0000nat * 0x1_0000_0000_0000_0000nat);
    lemma_pow2_adds(128, 64);
    assert(pow2(192) == half() * 0x1_0000_0000_0000_0000nat);
    lemma_pow2_adds(32, 27);
    assert(pow2(59) == 0x1_0000_0000nat * 0x800_0000nat);
    lemma_pow2_adds(192, 59);
    assert(pow2(251) == pow2(192) * 0x800_0000_0000_0000nat);
}

/// A sum of two elements is the sum of their numbers, less the field's order where
/// that is reached.
pub proof fn law_sum(left: Felt, right: Felt)
    requires
        left.value() < prime(),
        right.value() < prime(),
    ensures
        left.plus(right).value() < prime(),
        left.value() + right.value() < prime() ==> left.plus(right).value() == left.value()
            + right.value(),
        left.value() + right.value() >= prime() ==> left.plus(right).value() == left.value()
            + right.value() - prime(),
{
    broadcast use Felt::lemma_value_of;

}

} // verus!
