//! Big-endian integers and byte-buffer helpers shared by the encoders.
use vstd::prelude::*;

verus! {

/// The `n`-byte big-endian representation of `v` (taken modulo `256^n`).
pub open spec fn be_bytes(v: nat, n: nat) -> Seq<u8>
    decreases n,
{
    if n == 0 {
        seq![]
    } else {
        be_bytes(v / 256, (n - 1) as nat).push((v % 256) as u8)
    }
}

/// The two's-complement reading of `v` as an unsigned number below `modulus`.
pub open spec fn twos(v: int, modulus: nat) -> nat {
    if v >= 0 {
        v as nat
    } else {
        (v + modulus) as nat
    }
}

pub open spec fn i16_bytes(v: i16) -> Seq<u8> {
    be_bytes(twos(v as int, 0x1_0000), 2)
}

pub open spec fn i32_bytes(v: i32) -> Seq<u8> {
    be_bytes(twos(v as int, 0x1_0000_0000), 4)
}

pub open spec fn i64_bytes(v: i64) -> Seq<u8> {
    be_bytes(twos(v as int, 0x1_0000_0000_0000_0000), 8)
}

pub proof fn lemma_be_bytes_len(v: nat, n: nat)
    ensures
        be_bytes(v, n).len() == n,
    decreases n,
{
    if n > 0 {
        lemma_be_bytes_len(v / 256, (n - 1) as nat);
    }
}

/// Appends the `n`-byte big-endian representation of `v`.
pub fn push_be(out: &mut Vec<u8>, v: u128, n: usize)
    ensures
        final(out)@ == old(out)@ + be_bytes(v as nat, n as nat),
    decreases n,
{
    if n > 0 {
        push_be(out, v / 256, n - 1);
        out.push((v % 256) as u8);
        assert(final(out)@ =~= old(out)@ + be_bytes(v as nat, n as nat));
    } else {
        assert(final(out)@ =~= old(out)@ + be_bytes(v as nat, n as nat));
    }
}

pub fn push_i16(out: &mut Vec<u8>, v: i16)
    ensures
        final(out)@ == old(out)@ + i16_bytes(v),
{
    let u: u128 = if v >= 0 { v as u128 } else { (v as i32 + 0x1_0000) as u128 };
    push_be(out, u, 2);
}

pub fn push_i32(out: &mut Vec<u8>, v: i32)
    ensures
        final(out)@ == old(out)@ + i32_bytes(v),
{
    let u: u128 = if v >= 0 { v as u128 } else { (v as i64 + 0x1_0000_0000) as u128 };
    push_be(out, u, 4);
}

pub fn push_i64(out: &mut Vec<u8>, v: i64)
    ensures
        final(out)@ == old(out)@ + i64_bytes(v),
{
    let u: u128 = if v >= 0 { v as u128 } else { (v as i128 + 0x1_0000_0000_0000_0000) as u128 };
    push_be(out, u, 8);
}

/// Appends the bytes of `b`.
pub fn push_slice(out: &mut Vec<u8>, b: &[u8])
    ensures
        final(out)@ == old(out)@ + b@,
{
    let ghost start = out@;
    let mut i: usize = 0;
    while i < b.len()
        invariant
            i <= b@.len(),
            out@ == start + b@.take(i as int),
        decreases b@.len() - i,
    {
        out.push(b[i]);
        i = i + 1;
        assert(out@ =~= start + b@.take(i as int));
    }
    assert(b@.take(i as int) =~= b@);
}

/// The signed reading of the bits of an unsigned 16-bit value.
pub open spec fn signed16(v: u16) -> i16 {
    if v < 0x8000 { v as i16 } else { (v as int - 0x1_0000) as i16 }
}

/// The signed reading of the bits of an unsigned 32-bit value.
pub open spec fn signed32(v: u32) -> i32 {
    if v < 0x8000_0000 { v as i32 } else { (v as int - 0x1_0000_0000) as i32 }
}

/// The signed reading of the bits of an unsigned 64-bit value.
pub open spec fn signed64(v: u64) -> i64 {
    if v < 0x8000_0000_0000_0000 {
        v as i64
    } else {
        (v as int - 0x1_0000_0000_0000_0000) as i64
    }
}

/// The unsigned reading of the bits of a signed 16-bit value.
pub open spec fn unsigned16(v: i16) -> u16 {
    if v >= 0 { v as u16 } else { (v as int + 0x1_0000) as u16 }
}

/// The unsigned reading of the bits of a signed 32-bit value.
pub open spec fn unsigned32(v: i32) -> u32 {
    if v >= 0 { v as u32 } else { (v as int + 0x1_0000_0000) as u32 }
}

/// The unsigned reading of the bits of a signed 64-bit value.
pub open spec fn unsigned64(v: i64) -> u64 {
    if v >= 0 { v as u64 } else { (v as int + 0x1_0000_0000_0000_0000) as u64 }
}

pub fn to_signed16(v: u16) -> (r: i16)
    ensures
        r == signed16(v),
{
    if v < 0x8000 { v as i16 } else { (v as i32 - 0x1_0000) as i16 }
}

pub fn to_signed32(v: u32) -> (r: i32)
    ensures
        r == signed32(v),
{
    if v < 0x8000_0000 { v as i32 } else { (v as i64 - 0x1_0000_0000) as i32 }
}

pub fn to_signed64(v: u64) -> (r: i64)
    ensures
        r == signed64(v),
{
    if v < 0x8000_0000_0000_0000 {
        v as i64
    } else {
        (v as i128 - 0x1_0000_0000_0000_0000) as i64
    }
}

pub fn to_unsigned16(v: i16) -> (r: u16)
    ensures
        r == unsigned16(v),
{
    if v >= 0 { v as u16 } else { (v as i32 + 0x1_0000) as u16 }
}

pub fn to_unsigned32(v: i32) -> (r: u32)
    ensures
        r == unsigned32(v),
{
    if v >= 0 { v as u32 } else { (v as i64 + 0x1_0000_0000) as u32 }
}

pub fn to_unsigned64(v: i64) -> (r: u64)
    ensures
        r == unsigned64(v),
{
    if v >= 0 { v as u64 } else { (v as i128 + 0x1_0000_0000_0000_0000) as u64 }
}

} // verus!
