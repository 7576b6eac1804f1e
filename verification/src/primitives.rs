use vstd::prelude::*;

verus! {

/// Two to the power 64: the weight of the second limb of a [`U256`].
pub open spec fn pow2_64() -> nat {
    0x1_0000_0000_0000_0000nat
}

/// Two to the power 128: the weight of the third limb of a [`U256`].
pub open spec fn pow2_128() -> nat {
    0x1_0000_0000_0000_0000_0000_0000_0000_0000nat
}

/// Two to the power 192: the weight of the fourth limb of a [`U256`].
pub open spec fn pow2_192() -> nat {
    0x1_0000_0000_0000_0000_0000_0000_0000_0000_0000_0000_0000_0000nat
}

/// Two to the power 256: one more than the largest [`U256`].
pub open spec fn pow2_256() -> nat {
    0x1_0000_0000_0000_0000_0000_0000_0000_0000_0000_0000_0000_0000_0000_0000_0000_0000nat
}

/// The number that four little-endian 64-bit limbs stand for.
pub open spec fn limbs_value(limbs: [u64; 4]) -> nat {
    (limbs[0] as nat) + (limbs[1] as nat) * pow2_64() + (limbs[2] as nat) * pow2_128() + (
    limbs[3] as nat) * pow2_192()
}

/// An unsigned 256-bit integer, held as four 64-bit limbs, least significant first.
#[derive(Clone, Copy, Debug)]
pub struct U256 {
    pub limbs: [u64; 4],
}

impl View for U256 {
    type V = nat;

    open spec fn view(&self) -> nat {
        limbs_value(self.limbs)
    }
}

/// Every `U256` is below two to the 256, and two of them with the same value are the same.
pub proof fn lemma_u256_value(a: U256, b: U256)
    ensures
        a@ < pow2_256(),
        a@ == b@ <==> a == b,
{
    if a@ == b@ {
        assert(a.limbs[0] == b.limbs[0]);
        assert(a.limbs[1] == b.limbs[1]);
        assert(a.limbs[2] == b.limbs[2]);
        assert(a.limbs[3] == b.limbs[3]);
        assert(a.limbs =~= b.limbs);
    }
}

impl U256 {
    pub fn from_limbs(limbs: [u64; 4]) -> (r: U256)
        ensures
            r.limbs == limbs,
            r@ == limbs_value(limbs),
    {
        U256 { limbs }
    }

    pub fn zero() -> (r: U256)
        ensures
            r@ == 0,
    {
        U256 { limbs: [0, 0, 0, 0] }
    }

    pub fn one() -> (r: U256)
        ensures
            r@ == 1,
    {
        U256 { limbs: [1, 0, 0, 0] }
    }

    /// The `U256` that stands for a 64-bit number.
    pub open spec fn spec_from_u64(x: u64) -> U256 {
        U256 { limbs: [x, 0, 0, 0] }
    }

    pub fn from_u64(x: u64) -> (r: U256)
        ensures
            r == Self::spec_from_u64(x),
            r@ == x,
    {
        U256 { limbs: [x, 0, 0, 0] }
    }

    /// The `U256` that stands for a 128-bit number.
    pub open spec fn spec_from_u128(x: u128) -> U256 {
        U256 { limbs: [(x & 0xffff_ffff_ffff_ffff) as u64, (x >> 64) as u64, 0, 0] }
    }

    /// `spec_from_u128` keeps the number.
    pub proof fn lemma_from_u128(x: u128)
        ensures
            Self::spec_from_u128(x)@ == x,
    {
        assert(x == (x & 0xffff_ffff_ffff_ffff) + (x >> 64) * 0x1_0000_0000_0000_0000 && (x
            & 0xffff_ffff_ffff_ffff) <= 0xffff_ffff_ffff_ffff && (x >> 64)
            <= 0xffff_ffff_ffff_ffff) by (bit_vector);
    }

    pub fn from_u128(x: u128) -> (r: U256)
        ensures
            r == Self::spec_from_u128(x),
            r@ == x,
    {
        proof {
            Self::lemma_from_u128(x);
        }
        let low: u64 = (x & 0xffff_ffff_ffff_ffff) as u64;
        let high: u64 = (x >> 64) as u64;
        U256 { limbs: [low, high, 0, 0] }
    }

    /// The value as a `u128`, where it fits.
    pub fn to_u128(&self) -> (r: Option<u128>)
        ensures
            self@ <= u128::MAX ==> r == Some(self@ as u128),
            self@ > u128::MAX ==> r is None,
    {
        if self.limbs[2] != 0 || self.limbs[3] != 0 {
            None
        } else {
            let low: u64 = self.limbs[0];
            let high: u64 = self.limbs[1];
            let x: u128 = ((high as u128) << 64) | (low as u128);
            assert(x == low + high * 0x1_0000_0000_0000_0000) by (bit_vector)
                requires
                    x == ((high as u128) << 64) | (low as u128),
            ;
            Some(x)
        }
    }

    pub fn is_zero(&self) -> (r: bool)
        ensures
            r == (self@ == 0),
    {
        self.limbs[0] == 0 && self.limbs[1] == 0 && self.limbs[2] == 0 && self.limbs[3] == 0
    }

    /// Whether `self` is strictly below `other`.
    pub fn lt(&self, other: &U256) -> (r: bool)
        ensures
            r == (self@ < other@),
    {
        if self.limbs[3] != other.limbs[3] {
            self.limbs[3] < other.limbs[3]
        } else if self.limbs[2] != other.limbs[2] {
            self.limbs[2] < other.limbs[2]
        } else if self.limbs[1] != other.limbs[1] {
            self.limbs[1] < other.limbs[1]
        } else {
            self.limbs[0] < other.limbs[0]
        }
    }

    /// Whether `self` is at most `other`.
    pub fn le(&self, other: &U256) -> (r: bool)
        ensures
            r == (self@ <= other@),
    {
        !other.lt(self)
    }

    /// Whether `self` is strictly above `other`.
    pub fn gt(&self, other: &U256) -> (r: bool)
        ensures
            r == (self@ > other@),
    {
        other.lt(self)
    }

    /// Whether `self` is at least `other`.
    pub fn ge(&self, other: &U256) -> (r: bool)
        ensures
            r == (self@ >= other@),
    {
        !self.lt(other)
    }
}

impl PartialEq for U256 {
    fn eq(&self, other: &U256) -> (r: bool) {
        proof {
            lemma_u256_value(*self, *other);
        }
        self.limbs[0] == other.limbs[0] && self.limbs[1] == other.limbs[1] && self.limbs[2]
            == other.limbs[2] && self.limbs[3] == other.limbs[3]
    }
}

impl Eq for U256 {

}

impl vstd::std_specs::cmp::PartialEqSpecImpl for U256 {
    open spec fn obeys_eq_spec() -> bool {
        true
    }

    open spec fn eq_spec(&self, other: &U256) -> bool {
        self@ == other@
    }
}

/// A 20-byte account or token identifier.
#[derive(Clone, Copy, Debug)]
pub struct Address {
    pub bytes: [u8; 20],
}

impl View for Address {
    type V = Seq<u8>;

    open spec fn view(&self) -> Seq<u8> {
        self.bytes@
    }
}

impl Address {
    pub fn from_bytes(bytes: [u8; 20]) -> (r: Address)
        ensures
            r@ == bytes@,
    {
        Address { bytes }
    }
}

impl PartialEq for Address {
    fn eq(&self, other: &Address) -> (r: bool) {
        let mut i: usize = 0;
        while i < 20
            invariant
                i <= 20,
                forall|j: int| 0 <= j < i ==> self.bytes[j] == other.bytes[j],
            decreases 20 - i,
        {
            if self.bytes[i] != other.bytes[i] {
                return false;
            }
            i = i + 1;
        }
        assert(self@ =~= other@);
        true
    }
}

impl Eq for Address {

}

impl vstd::std_specs::cmp::PartialEqSpecImpl for Address {
    open spec fn obeys_eq_spec() -> bool {
        true
    }

    open spec fn eq_spec(&self, other: &Address) -> bool {
        self@ == other@
    }
}

/// `a + b`, or nothing where the sum does not fit in 256 bits.
///
/// Calls `Uint::checked_add` of alloy's `U256`, which returns the sum unless the addition
/// carried out of the highest limb.
#[verifier::external_body]
pub(crate) fn checked_add(a: U256, b: U256) -> (r: Option<U256>)
    ensures
        a@ + b@ < pow2_256() ==> r is Some && r->Some_0@ == a@ + b@,
        a@ + b@ >= pow2_256() ==> r is None,
{
    let x = alloy::primitives::U256::from_limbs(a.limbs);
    let y = alloy::primitives::U256::from_limbs(b.limbs);
    match x.checked_add(y) {
        Some(z) => Some(U256 { limbs: z.into_limbs() }),
        None => None,
    }
}

/// `a - b`, or nothing where `b` is the larger.
///
/// Calls `Uint::checked_sub` of alloy's `U256`, which returns the difference unless the
/// subtraction borrowed out of the highest limb.
#[verifier::external_body]
pub(crate) fn checked_sub(a: U256, b: U256) -> (r: Option<U256>)
    ensures
        a@ >= b@ ==> r is Some && r->Some_0@ == a@ - b@,
        a@ < b@ ==> r is None,
{
    let x = alloy::primitives::U256::from_limbs(a.limbs);
    let y = alloy::primitives::U256::from_limbs(b.limbs);
    match x.checked_sub(y) {
        Some(z) => Some(U256 { limbs: z.into_limbs() }),
        None => None,
    }
}

/// `a * b`, or nothing where the product does not fit in 256 bits.
///
/// Calls `Uint::checked_mul` of alloy's `U256`, which returns the product unless it
/// overflowed.
#[verifier::external_body]
pub(crate) fn checked_mul(a: U256, b: U256) -> (r: Option<U256>)
    ensures
        a@ * b@ < pow2_256() ==> r is Some && r->Some_0@ == a@ * b@,
        a@ * b@ >= pow2_256() ==> r is None,
{
    let x = alloy::primitives::U256::from_limbs(a.limbs);
    let y = alloy::primitives::U256::from_limbs(b.limbs);
    match x.checked_mul(y) {
        Some(z) => Some(U256 { limbs: z.into_limbs() }),
        None => None,
    }
}

/// `a / b` rounded down, or nothing where `b` is zero.
///
/// Calls `Uint::checked_div` of alloy's `U256`, which returns `None` for a zero divisor
/// and the floor of the quotient otherwise.
#[verifier::external_body]
pub(crate) fn checked_div(a: U256, b: U256) -> (r: Option<U256>)
    ensures
        b@ != 0 ==> r is Some && r->Some_0@ == a@ / b@,
        b@ == 0 ==> r is None,
{
    let x = alloy::primitives::U256::from_limbs(a.limbs);
    let y = alloy::primitives::U256::from_limbs(b.limbs);
    match x.checked_div(y) {
        Some(z) => Some(U256 { limbs: z.into_limbs() }),
        None => None,
    }
}

} // verus!
