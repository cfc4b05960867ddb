//! Decoding of samples from their bytes in a buffer.

use vstd::prelude::*;

verus! {

/// A sample type that can be read out of a buffer. Samples lie in memory
/// least significant byte first; signed types are in two's complement.
pub trait Sample: Sized {
    /// The number of bytes that one sample occupies.
    spec fn width() -> nat;

    /// The sample that `bytes` hold, for `bytes` of length `width()`.
    spec fn decode_spec(bytes: Seq<u8>) -> Self;

    /// The number of bytes that one sample occupies.
    fn size() -> (n: usize)
        ensures
            n == Self::width(),
            0 < n <= 8,
    ;

    /// Reads one sample from exactly `size()` bytes.
    fn decode(bytes: &[u8]) -> (v: Self)
        requires
            bytes@.len() == Self::width(),
        ensures
            v == Self::decode_spec(bytes@),
    ;
}

/// The unsigned number that the bytes from index `k` on spell, least
/// significant byte first.
pub open spec fn le_from(bytes: Seq<u8>, k: nat) -> nat
    decreases bytes.len() - k,
{
    if k >= bytes.len() {
        0
    } else {
        bytes[k as int] as nat + 256 * le_from(bytes, k + 1)
    }
}

/// The unsigned number that `bytes` spell, least significant byte first.
pub open spec fn le_value(bytes: Seq<u8>) -> nat {
    le_from(bytes, 0)
}

/// The number that an unsigned reading `v` stands for in two's complement,
/// where `half` is the weight of the sign bit.
pub open spec fn twos_complement(v: nat, half: nat) -> int {
    if v >= half {
        v - 2 * half
    } else {
        v as int
    }
}

fn read1(bytes: &[u8]) -> (v: u8)
    requires
        bytes@.len() == 1,
    ensures
        v == le_value(bytes@),
{
    proof {
        reveal_with_fuel(le_from, 2);
    }
    bytes[0]
}

fn read2(bytes: &[u8]) -> (v: u16)
    requires
        bytes@.len() == 2,
    ensures
        v == le_value(bytes@),
{
    proof {
        reveal_with_fuel(le_from, 3);
    }
    let b0: u16 = bytes[0] as u16;
    let b1: u16 = bytes[1] as u16;
    b0 + 256 * b1
}

fn read4(bytes: &[u8]) -> (v: u32)
    requires
        bytes@.len() == 4,
    ensures
        v == le_value(bytes@),
{
    proof {
        reveal_with_fuel(le_from, 5);
    }
    let b0: u32 = bytes[0] as u32;
    let b1: u32 = bytes[1] as u32;
    let b2: u32 = bytes[2] as u32;
    let b3: u32 = bytes[3] as u32;
    b0 + 256 * (b1 + 256 * (b2 + 256 * b3))
}

fn read8(bytes: &[u8]) -> (v: u64)
    requires
        bytes@.len() == 8,
    ensures
        v == le_value(bytes@),
{
    proof {
        reveal_with_fuel(le_from, 9);
    }
    let b0: u64 = bytes[0] as u64;
    let b1: u64 = bytes[1] as u64;
    let b2: u64 = bytes[2] as u64;
    let b3: u64 = bytes[3] as u64;
    let b4: u64 = bytes[4] as u64;
    let b5: u64 = bytes[5] as u64;
    let b6: u64 = bytes[6] as u64;
    let b7: u64 = bytes[7] as u64;
    let hi: u64 = b4 + 256 * (b5 + 256 * (b6 + 256 * b7));
    b0 + 256 * (b1 + 256 * (b2 + 256 * (b3 + 256 * hi)))
}

impl Sample for u8 {
    open spec fn width() -> nat {
        1
    }

    open spec fn decode_spec(bytes: Seq<u8>) -> u8 {
        le_value(bytes) as u8
    }

    fn size() -> (n: usize) {
        1
    }

    fn decode(bytes: &[u8]) -> (v: u8) {
        read1(bytes)
    }
}

impl Sample for i8 {
    open spec fn width() -> nat {
        1
    }

    open spec fn decode_spec(bytes: Seq<u8>) -> i8 {
        twos_complement(le_value(bytes), 0x80) as i8
    }

    fn size() -> (n: usize) {
        1
    }

    fn decode(bytes: &[u8]) -> (v: i8) {
        let u: u8 = read1(bytes);
        if u >= 0x80 {
            ((u - 0x80) as i8) + i8::MIN
        } else {
            u as i8
        }
    }
}

impl Sample for u16 {
    open spec fn width() -> nat {
        2
    }

    open spec fn decode_spec(bytes: Seq<u8>) -> u16 {
        le_value(bytes) as u16
    }

    fn size() -> (n: usize) {
        2
    }

    fn decode(bytes: &[u8]) -> (v: u16) {
        read2(bytes)
    }
}

impl Sample for i16 {
    open spec fn width() -> nat {
        2
    }

    open spec fn decode_spec(bytes: Seq<u8>) -> i16 {
        twos_complement(le_value(bytes), 0x8000) as i16
    }

    fn size() -> (n: usize) {
        2
    }

    fn decode(bytes: &[u8]) -> (v: i16) {
        let u: u16 = read2(bytes);
        if u >= 0x8000 {
            ((u - 0x8000) as i16) + i16::MIN
        } else {
            u as i16
        }
    }
}

impl Sample for u32 {
    open spec fn width() -> nat {
        4
    }

    open spec fn decode_spec(bytes: Seq<u8>) -> u32 {
        le_value(bytes) as u32
    }

    fn size() -> (n: usize) {
        4
    }

    fn decode(bytes: &[u8]) -> (v: u32) {
        read4(bytes)
    }
}

impl Sample for i32 {
    open spec fn width() -> nat {
        4
    }

    open spec fn decode_spec(bytes: Seq<u8>) -> i32 {
        twos_complement(le_value(bytes), 0x8000_0000) as i32
    }

    fn size() -> (n: usize) {
        4
    }

    fn decode(bytes: &[u8]) -> (v: i32) {
        let u: u32 = read4(bytes);
        if u >= 0x8000_0000 {
            ((u - 0x8000_0000) as i32) + i32::MIN
        } else {
            u as i32
        }
    }
}

impl Sample for u64 {
    open spec fn width() -> nat {
        8
    }

    open spec fn decode_spec(bytes: Seq<u8>) -> u64 {
        le_value(bytes) as u64
    }

    fn size() -> (n: usize) {
        8
    }

    fn decode(bytes: &[u8]) -> (v: u64) {
        read8(bytes)
    }
}

impl Sample for i64 {
    open spec fn width() -> nat {
        8
    }

    open spec fn decode_spec(bytes: Seq<u8>) -> i64 {
        twos_complement(le_value(bytes), 0x8000_0000_0000_0000) as i64
    }

    fn size() -> (n: usize) {
        8
    }

    fn decode(bytes: &[u8]) -> (v: i64) {
        let u: u64 = read8(bytes);
        if u >= 0x8000_0000_0000_0000 {
            ((u - 0x8000_0000_0000_0000) as i64) + i64::MIN
        } else {
            u as i64
        }
    }
}

} // verus!
