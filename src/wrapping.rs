use vstd::prelude::*;
use vstd::std_specs::ops::AddSpec;

verus! {

/// The number of values of a `u32`; sums wrap around modulo this.
pub open spec fn modulus() -> int {
    0x1_0000_0000
}

/// An unsigned 32-bit value whose addition wraps around instead of
/// overflowing. Two values are equal exactly when their integers are.
#[derive(Copy, Clone, PartialEq, Eq, Structural, Debug)]
pub struct WrappingU32 {
    value: u32,
}

impl View for WrappingU32 {
    type V = u32;

    closed spec fn view(&self) -> u32 {
        self.value
    }
}

impl WrappingU32 {
    /// Wraps `value` unchanged.
    pub fn new(value: u32) -> (r: Self)
        ensures
            r@ == value,
    {
        Self { value }
    }
}

impl vstd::std_specs::ops::AddSpecImpl for WrappingU32 {
    open spec fn obeys_add_spec() -> bool {
        true
    }

    open spec fn add_req(self, rhs: Self) -> bool {
        true
    }

    closed spec fn add_spec(self, rhs: Self) -> Self {
        WrappingU32 { value: ((self.value + rhs.value) % modulus()) as u32 }
    }
}

impl core::ops::Add for WrappingU32 {
    type Output = Self;

    /// The sum of the two values modulo `2^32`.
    fn add(self, other: Self) -> (r: Self)
        ensures
            r@ == (self@ + other@) % modulus(),
    {
        Self::new(self.value.wrapping_add(other.value))
    }
}

/// Adding two values gives the value of their integers' sum modulo `2^32`:
/// for every `x` and `y`, the sum of values holding `x` and `y` is the value
/// holding `(x + y) mod 2^32`; in particular `u32::MAX` plus one is zero.
pub proof fn lemma_add_wraps(x: u32, y: u32)
    ensures
        forall|a: WrappingU32, b: WrappingU32, c: WrappingU32|
            #![trigger a.add_spec(b), c@]
            a@ == x && b@ == y && c@ == (x + y) % modulus() ==> a.add_spec(b) == c,
        forall|a: WrappingU32, b: WrappingU32|
            a@ == u32::MAX && b@ == 1 ==> (#[trigger] a.add_spec(b))@ == 0,
{
}

/// Equality of wrapping values is the equality of their integers, and so is
/// reflexive, symmetric and transitive.
pub proof fn lemma_eq_equivalence(a: WrappingU32, b: WrappingU32, c: WrappingU32)
    ensures
        (a == b) <==> (a@ == b@),
        a == a,
        a == b ==> b == a,
        a == b && b == c ==> a == c,
{
}

/// A copy is independent of its source: a copy taken of `w` keeps `w`'s
/// integer after another value has taken `w`'s place.
pub proof fn lemma_copy_independent(w: WrappingU32, replacement: WrappingU32)
    ensures
        ({
            let before = w@;
            let copy = w;
            let w = replacement;
            copy@ == before && w@ == replacement@
        }),
{
}

} // verus!
