//! Fixed-width values of the chain: 256-bit integers, addresses and hashes.

use vstd::prelude::*;

verus! {

/// 2^64, the weight of the second limb of a [`U256`].
pub open spec fn pow2_64() -> nat {
    0x1_0000_0000_0000_0000
}

/// A natural number clamped to the range of `u64`.
pub open spec fn saturate_u64(n: nat) -> u64 {
    if n <= u64::MAX {
        n as u64
    } else {
        u64::MAX
    }
}

/// An unsigned 256-bit integer held as four 64-bit limbs, least significant
/// limb first.
#[derive(Clone, Copy, Debug, PartialEq, Eq)]
pub struct U256 {
    pub limbs: [u64; 4],
}

impl View for U256 {
    type V = nat;

    open spec fn view(&self) -> nat {
        self.as_nat()
    }
}

impl DeepView for U256 {
    type V = nat;

    open spec fn deep_view(&self) -> nat {
        self.as_nat()
    }
}

impl U256 {
    /// The integer this value stands for.
    pub open spec fn as_nat(self) -> nat {
        (self.limbs[0] as nat) + (self.limbs[1] as nat) * pow2_64() + (self.limbs[2] as nat)
            * pow2_64() * pow2_64() + (self.limbs[3] as nat) * pow2_64() * pow2_64() * pow2_64()
    }


    pub fn from_limbs(limbs: [u64; 4]) -> (r: U256)
        ensures
            r.limbs == limbs,
    {
        U256 { limbs }
    }

    pub fn from_u64(value: u64) -> (r: U256)
        ensures
            r.as_nat() == value,
            r.limbs@ == seq![value, 0u64, 0u64, 0u64],
    {
        let r = U256 { limbs: [value, 0, 0, 0] };
        assert(r.limbs@ =~= seq![value, 0u64, 0u64, 0u64]);
        r
    }

    pub fn zero() -> (r: U256)
        ensures
            r.as_nat() == 0,
            r == U256::from_u64_spec(0),
    {
        let r = U256 { limbs: [0, 0, 0, 0] };
        assert(r.limbs =~= U256::from_u64_spec(0).limbs);
        r
    }

    /// The value that `from_u64` builds, for use in contracts.
    pub open spec fn from_u64_spec(value: u64) -> U256 {
        U256 { limbs: [value, 0, 0, 0] }
    }

    /// Whether two values stand for the same integer.
    pub fn same_as(&self, other: &U256) -> (r: bool)
        ensures
            r == (self@ == other@),
            r == (*self == *other),
    {
        proof {
            if self@ == other@ {
                lemma_u256_view_injective(*self, *other);
            }
        }
        self.limbs[0] == other.limbs[0] && self.limbs[1] == other.limbs[1] && self.limbs[2]
            == other.limbs[2] && self.limbs[3] == other.limbs[3]
    }

    pub fn is_zero(&self) -> (r: bool)
        ensures
            r == (self.as_nat() == 0),
    {
        self.limbs[0] == 0 && self.limbs[1] == 0 && self.limbs[2] == 0 && self.limbs[3] == 0
    }

    /// Narrows to `u64` where the value fits.
    pub fn to_u64(&self) -> (r: Option<u64>)
        ensures
            match r {
                Some(v) => v == self@,
                None => self@ > u64::MAX,
            },
    {
        if self.limbs[1] == 0 && self.limbs[2] == 0 && self.limbs[3] == 0 {
            Some(self.limbs[0])
        } else {
            None
        }
    }

    /// Narrows to `u64`, clamping instead of wrapping when the value does
    /// not fit.
    pub fn saturating_to_u64(&self) -> (r: u64)
        ensures
            r == saturate_u64(self@),
    {
        if self.limbs[1] == 0 && self.limbs[2] == 0 && self.limbs[3] == 0 {
            self.limbs[0]
        } else {
            u64::MAX
        }
    }
}

/// Two 256-bit values that stand for the same integer are the same value.
pub proof fn lemma_u256_view_injective(a: U256, b: U256)
    requires
        a@ == b@,
    ensures
        a == b,
{
    assert(a.limbs[0] == b.limbs[0] && a.limbs[1] == b.limbs[1] && a.limbs[2] == b.limbs[2]
        && a.limbs[3] == b.limbs[3]);
    assert(a.limbs =~= b.limbs);
}

/// Two addresses with the same bytes are the same address.
pub proof fn lemma_address_view_injective(a: Address, b: Address)
    requires
        a@ == b@,
    ensures
        a == b,
{
    assert(a.bytes =~= b.bytes);
}

/// Two words with the same bytes are the same word.
pub proof fn lemma_b256_view_injective(a: B256, b: B256)
    requires
        a@ == b@,
    ensures
        a == b,
{
    assert(a.bytes =~= b.bytes);
}

/// A 20-byte account address.
#[derive(Clone, Copy, Debug, PartialEq, Eq)]
pub struct Address {
    pub bytes: [u8; 20],
}

/// A 32-byte word: a hash, a storage key of an access list, a private key.
#[derive(Clone, Copy, Debug, PartialEq, Eq)]
pub struct B256 {
    pub bytes: [u8; 32],
}

impl View for Address {
    type V = Seq<u8>;

    open spec fn view(&self) -> Seq<u8> {
        self.bytes@
    }
}

impl DeepView for Address {
    type V = Seq<u8>;

    open spec fn deep_view(&self) -> Seq<u8> {
        self.bytes@
    }
}

impl View for B256 {
    type V = Seq<u8>;

    open spec fn view(&self) -> Seq<u8> {
        self.bytes@
    }
}

impl DeepView for B256 {
    type V = Seq<u8>;

    open spec fn deep_view(&self) -> Seq<u8> {
        self.bytes@
    }
}

impl Address {
    pub fn new(bytes: [u8; 20]) -> (r: Address)
        ensures
            r.bytes == bytes,
    {
        Address { bytes }
    }

    /// Byte-wise comparison.
    pub fn same_as(&self, other: &Address) -> (r: bool)
        ensures
            r == (self@ == other@),
            r == (*self == *other),
    {
        proof {
            if self@ == other@ {
                lemma_address_view_injective(*self, *other);
            }
        }
        let mut i: usize = 0;
        while i < 20
            invariant
                i <= 20,
                forall|j: int| 0 <= j < i ==> self.bytes[j] == other.bytes[j],
            decreases 20 - i,
        {
            if self.bytes[i] != other.bytes[i] {
                return false;
            }
            i = i + 1;
        }
        assert(self@ =~= other@);
        true
    }
}

impl B256 {
    pub fn new(bytes: [u8; 32]) -> (r: B256)
        ensures
            r.bytes == bytes,
    {
        B256 { bytes }
    }

    /// Byte-wise comparison.
    pub fn same_as(&self, other: &B256) -> (r: bool)
        ensures
            r == (self@ == other@),
            r == (*self == *other),
    {
        proof {
            if self@ == other@ {
                lemma_b256_view_injective(*self, *other);
            }
        }
        let mut i: usize = 0;
        while i < 32
            invariant
                i <= 32,
                forall|j: int| 0 <= j < i ==> self.bytes[j] == other.bytes[j],
            decreases 32 - i,
        {
            if self.bytes[i] != other.bytes[i] {
                return false;
            }
            i = i + 1;
        }
        assert(self@ =~= other@);
        true
    }
}

} // verus!
