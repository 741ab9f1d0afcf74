use vstd::prelude::*;

verus! {

/// A 20-byte account identifier, held as its first four bytes (`high`)
/// and its last sixteen (`low`), both big-endian.
#[derive(Clone, Copy, Debug, PartialEq, Eq, Structural, Hash)]
pub struct Address {
    pub high: u32,
    pub low: u128,
}

/// The byte string `b` read as a big-endian number.
pub open spec fn be_value(b: Seq<u8>) -> nat
    decreases b.len(),
{
    if b.len() == 0 {
        0
    } else {
        be_value(b.drop_last()) * 256 + b.last() as nat
    }
}

impl Address {
    /// The null identifier.
    pub open spec fn zero_spec() -> Address {
        Address { high: 0, low: 0 }
    }

    pub open spec fn is_null(self) -> bool {
        self == Address::zero_spec()
    }

    pub fn zero() -> (r: Address)
        ensures
            r == Address::zero_spec(),
    {
        Address { high: 0, low: 0 }
    }

    pub fn is_zero(&self) -> (r: bool)
        ensures
            r == self.is_null(),
    {
        self.high == 0 && self.low == 0
    }

    pub fn same(&self, other: &Address) -> (r: bool)
        ensures
            r == (*self == *other),
    {
        self.high == other.high && self.low == other.low
    }

    /// The identifier whose twenty bytes are `bytes`.
    pub fn from_bytes(bytes: [u8; 20]) -> (r: Address)
        ensures
            r.high as nat == be_value(bytes@.subrange(0, 4)),
            r.low as nat == be_value(bytes@.subrange(4, 20)),
    {
        let mut high: u32 = 0;
        let mut i: usize = 0;
        while i < 4
            invariant
                i <= 4,
                high as nat == be_value(bytes@.subrange(0, i as int)),
                (high as nat) < pow256(i as nat),
            decreases 4 - i,
        {
            proof {
                assert(bytes@.subrange(0, i as int + 1).drop_last() =~= bytes@.subrange(0, i as int));
                lemma_shift_bound(high as nat, bytes[i as int] as nat, i as nat);
            }
            high = high * 256 + bytes[i] as u32;
            i = i + 1;
        }
        let mut low: u128 = 0;
        let mut j: usize = 4;
        while j < 20
            invariant
                4 <= j <= 20,
                low as nat == be_value(bytes@.subrange(4, j as int)),
                (low as nat) < pow256((j - 4) as nat),
            decreases 20 - j,
        {
            proof {
                assert(bytes@.subrange(4, j as int + 1).drop_last() =~= bytes@.subrange(4, j as int));
                lemma_shift_bound(low as nat, bytes[j as int] as nat, (j - 4) as nat);
            }
            low = low * 256 + bytes[j] as u128;
            j = j + 1;
        }
        Address { high, low }
    }
}

/// 256^n.
pub open spec fn pow256(n: nat) -> nat
    decreases n,
{
    if n == 0 {
        1
    } else {
        256 * pow256((n - 1) as nat)
    }
}

proof fn lemma_shift_bound(x: nat, b: nat, n: nat)
    requires
        x < pow256(n),
        b < 256,
    ensures
        x * 256 + b < pow256(n + 1),
        pow256(4) == 0x1_0000_0000,
        pow256(16) == 0x1_0000_0000_0000_0000_0000_0000_0000_0000,
        n < 16 ==> pow256(n) <= pow256(15),
        n < 4 ==> pow256(n) <= pow256(3),
        pow256(3) == 0x100_0000,
        pow256(15) == 0x100_0000_0000_0000_0000_0000_0000_0000,
{
    assert(pow256(n + 1) == 256 * pow256(n));
    assert(x * 256 + b < pow256(n + 1)) by (nonlinear_arith)
        requires
            x < pow256(n),
            b < 256,
            pow256(n + 1) == 256 * pow256(n),
    ;
    reveal_with_fuel(pow256, 17);
    if n < 16 {
        lemma_pow_mono(n, 15);
    }
    if n < 4 {
        lemma_pow_mono(n, 3);
    }
}

proof fn lemma_pow_mono(a: nat, b: nat)
    requires
        a <= b,
    ensures
        pow256(a) <= pow256(b),
    decreases b,
{
    if a < b {
        lemma_pow_mono(a, (b - 1) as nat);
        assert(pow256(b) == 256 * pow256((b - 1) as nat));
    }
}

} // verus!
