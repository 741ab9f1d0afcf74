use vstd::prelude::*;

verus! {

/// 2^128, the weight of the upper half of a `U256`.
pub open spec fn half() -> nat {
    0x1_0000_0000_0000_0000_0000_0000_0000_0000nat
}

/// 2^256, one more than the largest `U256`.
pub open spec fn modulus() -> nat {
    half() * half()
}

/// An unsigned 256-bit integer, held as two 128-bit halves.
#[derive(Clone, Copy, Debug, PartialEq, Eq, Structural)]
pub struct U256 {
    pub high: u128,
    pub low: u128,
}

impl U256 {
    /// The number this value stands for.
    pub open spec fn value(self) -> nat {
        self.high as nat * half() + self.low as nat
    }

    pub fn zero() -> (r: U256)
        ensures
            r.value() == 0,
    {
        U256 { high: 0, low: 0 }
    }

    /// The largest value, 2^256 - 1.
    pub fn max() -> (r: U256)
        ensures
            r.value() == modulus() - 1,
    {
        U256 { high: u128::MAX, low: u128::MAX }
    }

    pub fn from_u128(x: u128) -> (r: U256)
        ensures
            r.value() == x as nat,
    {
        U256 { high: 0, low: x }
    }

    pub fn from_u64(x: u64) -> (r: U256)
        ensures
            r.value() == x as nat,
    {
        U256 { high: 0, low: x as u128 }
    }

    pub fn is_zero(&self) -> (r: bool)
        ensures
            r == (self.value() == 0),
    {
        self.high == 0 && self.low == 0
    }

    pub fn lt(&self, other: &U256) -> (r: bool)
        ensures
            r == (self.value() < other.value()),
    {
        self.high < other.high || (self.high == other.high && self.low < other.low)
    }

    pub fn le(&self, other: &U256) -> (r: bool)
        ensures
            r == (self.value() <= other.value()),
    {
        !other.lt(self)
    }

    pub fn gt(&self, other: &U256) -> (r: bool)
        ensures
            r == (self.value() > other.value()),
    {
        other.lt(self)
    }

    pub fn ge(&self, other: &U256) -> (r: bool)
        ensures
            r == (self.value() >= other.value()),
    {
        !self.lt(other)
    }

    /// The sum, or `None` where it does not fit in 256 bits.
    pub fn checked_add(&self, other: &U256) -> (r: Option<U256>)
        ensures
            r.is_some() <==> self.value() + other.value() < modulus(),
            r.is_some() ==> r.unwrap().value() == self.value() + other.value(),
    {
        let (low, carry): (u128, u128) = if self.low <= u128::MAX - other.low {
            (self.low + other.low, 0)
        } else {
            (self.low - (u128::MAX - other.low) - 1, 1)
        };
        if self.high > u128::MAX - other.high || (carry == 1 && self.high + other.high == u128::MAX) {
            None
        } else {
            Some(U256 { high: self.high + other.high + carry, low })
        }
    }

    /// The difference, or `None` where `other` is the larger.
    pub fn checked_sub(&self, other: &U256) -> (r: Option<U256>)
        ensures
            r.is_some() <==> other.value() <= self.value(),
            r.is_some() ==> r.unwrap().value() == self.value() - other.value(),
    {
        if self.lt(other) {
            None
        } else if self.low >= other.low {
            Some(U256 { high: self.high - other.high, low: self.low - other.low })
        } else {
            Some(U256 { high: self.high - other.high - 1, low: u128::MAX - (other.low - self.low) + 1 })
        }
    }
}

} // verus!

verus! {

/// The `U256` that stands for `n`, for `n` below 2^256.
pub open spec fn u256_of(n: nat) -> U256 {
    U256 { high: (n / half()) as u128, low: (n % half()) as u128 }
}

/// Every `U256` is below 2^256.
pub proof fn lemma_value_bounded(x: U256)
    ensures
        x.value() < modulus(),
{
    let h = x.high as nat;
    let l = x.low as nat;
    assert(h * half() + l < half() * half()) by (nonlinear_arith)
        requires
            h < half(),
            l < half(),
    ;
}

/// A `U256` is the one that stands for its value.
pub proof fn lemma_of_value(x: U256)
    ensures
        u256_of(x.value()) == x,
{
    vstd::arithmetic::div_mod::lemma_fundamental_div_mod_converse(
        x.value() as int,
        half() as int,
        x.high as int,
        x.low as int,
    );
}

} // verus!
