//! Encodings of the ledger's values as 32-byte words.
use vstd::prelude::*;

verus! {

/// A role identifier as a 32-byte word: big-endian, in the last four bytes.
pub fn bytes32_from_u32(role: u32) -> (r: [u8; 32])
    ensures
        forall|i: int| 0 <= i < 28 ==> r@[i] == 0,
        r@[28] == role / 0x100_0000,
        r@[29] == (role / 0x1_0000) % 256,
        r@[30] == (role / 0x100) % 256,
        r@[31] == role % 256,
{
    let mut bytes = [0u8; 32];
    bytes[31] = (role % 256) as u8;
    bytes[30] = ((role / 0x100) % 256) as u8;
    bytes[29] = ((role / 0x1_0000) % 256) as u8;
    bytes[28] = (role / 0x100_0000) as u8;
    bytes
}

} // verus!
