//! Integers as the machine lays them out in memory.
//!
//! The kernel reads and writes the fields of an ancillary record in the byte
//! order of the machine. This module says which bytes that is, over
//! `vstd::endian::endianness()`, and moves integers in and out of byte
//! buffers.

use vstd::endian::endianness;
use vstd::prelude::*;

verus! {

/// True on a machine that stores the least significant byte first.
pub open spec fn little_endian() -> bool {
    endianness() is Little
}

/// `s` as it lies in memory, where `s` lists the bytes least significant first.
pub open spec fn in_memory_order(s: Seq<u8>) -> Seq<u8> {
    if little_endian() {
        s
    } else {
        s.reverse()
    }
}

/// The four bytes of `x`, least significant first.
pub open spec fn u32_le_bytes(x: u32) -> Seq<u8> {
    seq![
        (x % 0x100) as u8,
        (x / 0x100 % 0x100) as u8,
        (x / 0x1_0000 % 0x100) as u8,
        (x / 0x100_0000 % 0x100) as u8,
    ]
}

/// The number whose bytes, least significant first, are the first four of `b`.
pub open spec fn u32_of_le_bytes(b: Seq<u8>) -> u32 {
    (b[0] + b[1] * 0x100 + b[2] * 0x1_0000 + b[3] * 0x100_0000) as u32
}

/// The eight bytes of `x`, least significant first.
pub open spec fn u64_le_bytes(x: u64) -> Seq<u8> {
    seq![
        (x % 0x100) as u8,
        (x / 0x100 % 0x100) as u8,
        (x / 0x1_0000 % 0x100) as u8,
        (x / 0x100_0000 % 0x100) as u8,
        (x / 0x1_0000_0000 % 0x100) as u8,
        (x / 0x100_0000_0000 % 0x100) as u8,
        (x / 0x1_0000_0000_0000 % 0x100) as u8,
        (x / 0x100_0000_0000_0000 % 0x100) as u8,
    ]
}

/// The number whose bytes, least significant first, are the first eight of `b`.
pub open spec fn u64_of_le_bytes(b: Seq<u8>) -> u64 {
    (b[0] + b[1] * 0x100 + b[2] * 0x1_0000 + b[3] * 0x100_0000 + b[4] * 0x1_0000_0000 + b[5]
        * 0x100_0000_0000 + b[6] * 0x1_0000_0000_0000 + b[7] * 0x100_0000_0000_0000) as u64
}

/// The two's complement pattern of `x`, read as an unsigned number.
pub open spec fn i32_pattern(x: i32) -> u32 {
    if x < 0 {
        (x + 0x1_0000_0000) as u32
    } else {
        x as u32
    }
}

/// The signed number whose two's complement pattern is `u`.
pub open spec fn i32_of_pattern(u: u32) -> i32 {
    if u >= 0x8000_0000 {
        (u - 0x1_0000_0000) as i32
    } else {
        u as i32
    }
}

/// The four bytes that hold `x` in memory.
pub open spec fn i32_ne_bytes(x: i32) -> Seq<u8> {
    in_memory_order(u32_le_bytes(i32_pattern(x)))
}

/// The number that the first four bytes of `b` hold in memory.
pub open spec fn i32_of_ne_bytes(b: Seq<u8>) -> i32 {
    i32_of_pattern(u32_of_le_bytes(in_memory_order(b.take(4))))
}

/// The eight bytes that hold `x` in memory.
pub open spec fn u64_ne_bytes(x: u64) -> Seq<u8> {
    in_memory_order(u64_le_bytes(x))
}

/// The number that the first eight bytes of `b` hold in memory.
pub open spec fn u64_of_ne_bytes(b: Seq<u8>) -> u64 {
    u64_of_le_bytes(in_memory_order(b.take(8)))
}

/// `s` with the bytes from `at` on replaced by `t`.
pub open spec fn overwrite(s: Seq<u8>, at: int, t: Seq<u8>) -> Seq<u8> {
    s.take(at) + t + s.skip(at + t.len())
}

/// Reading back four bytes that hold `x` gives `x`.
pub proof fn lemma_i32_round_trip(x: i32)
    ensures
        i32_ne_bytes(x).len() == 4,
        i32_of_ne_bytes(i32_ne_bytes(x)) == x,
{
}

proof fn lemma_u64_le_round_trip(x: u64)
    ensures
        u64_of_le_bytes(u64_le_bytes(x)) == x,
{
    let q1 = x / 0x100;
    let q2 = q1 / 0x100;
    let q3 = q2 / 0x100;
    let q4 = q3 / 0x100;
    let q5 = q4 / 0x100;
    let q6 = q5 / 0x100;
    let q7 = q6 / 0x100;
    assert(q7 < 0x100);
    assert(x == x % 0x100 + 0x100 * (q1 % 0x100 + 0x100 * (q2 % 0x100 + 0x100 * (q3 % 0x100 + 0x100
        * (q4 % 0x100 + 0x100 * (q5 % 0x100 + 0x100 * (q6 % 0x100 + 0x100 * q7)))))));
}

/// Reading back eight bytes that hold `x` gives `x`.
pub proof fn lemma_u64_round_trip(x: u64)
    ensures
        u64_ne_bytes(x).len() == 8,
        u64_of_ne_bytes(u64_ne_bytes(x)) == x,
{
    lemma_u64_le_round_trip(x);
}

/// `i32::to_ne_bytes`: the contract says that the array holds the two's
/// complement pattern of `x` in the byte order of the machine.
#[verifier::external_body]
fn i32_to_ne_bytes(x: i32) -> (b: [u8; 4])
    ensures
        b@ == i32_ne_bytes(x),
{
    x.to_ne_bytes()
}

/// `i32::from_ne_bytes`: the contract says that the result is the number
/// whose two's complement pattern the array holds in the byte order of the
/// machine.
#[verifier::external_body]
fn i32_from_ne_bytes(b: [u8; 4]) -> (x: i32)
    ensures
        x == i32_of_ne_bytes(b@),
{
    i32::from_ne_bytes(b)
}

/// `u64::to_ne_bytes`: the contract says that the array holds `x` in the
/// byte order of the machine.
#[verifier::external_body]
fn u64_to_ne_bytes(x: u64) -> (b: [u8; 8])
    ensures
        b@ == u64_ne_bytes(x),
{
    x.to_ne_bytes()
}

/// `u64::from_ne_bytes`: the contract says that the result is the number
/// that the array holds in the byte order of the machine.
#[verifier::external_body]
fn u64_from_ne_bytes(b: [u8; 8]) -> (x: u64)
    ensures
        x == u64_of_ne_bytes(b@),
{
    u64::from_ne_bytes(b)
}

/// Reads the `i32` stored at `at`.
pub fn read_i32(buf: &[u8], at: usize) -> (x: i32)
    requires
        at + 4 <= buf.len(),
    ensures
        x == i32_of_ne_bytes(buf@.skip(at as int)),
{
    let b: [u8; 4] = [buf[at], buf[at + 1], buf[at + 2], buf[at + 3]];
    i32_from_ne_bytes(b)
}

/// Reads the `u64` stored at `at`.
pub fn read_u64(buf: &[u8], at: usize) -> (x: u64)
    requires
        at + 8 <= buf.len(),
    ensures
        x == u64_of_ne_bytes(buf@.skip(at as int)),
{
    let b: [u8; 8] = [
        buf[at],
        buf[at + 1],
        buf[at + 2],
        buf[at + 3],
        buf[at + 4],
        buf[at + 5],
        buf[at + 6],
        buf[at + 7],
    ];
    u64_from_ne_bytes(b)
}

/// Copies `src` over the bytes of `buf` that start at `at`.
pub fn write_bytes(buf: &mut Vec<u8>, at: usize, src: &[u8])
    requires
        at + src.len() <= old(buf).len(),
    ensures
        final(buf)@ == overwrite(old(buf)@, at as int, src@),
        final(buf).len() == old(buf).len(),
{
    let n: usize = src.len();
    let mut i: usize = 0;
    while i < n
        invariant
            0 <= i <= n,
            n == src@.len(),
            at + n <= buf.len(),
            buf@.len() == old(buf)@.len(),
            buf@ == overwrite(old(buf)@, at as int, src@.take(i as int)),
        decreases n - i,
    {
        buf[at + i] = src[i];
        i = i + 1;
    }
}

/// Stores `x` at `at`.
pub fn write_i32(buf: &mut Vec<u8>, at: usize, x: i32)
    requires
        at + 4 <= old(buf).len(),
    ensures
        final(buf)@ == overwrite(old(buf)@, at as int, i32_ne_bytes(x)),
        final(buf).len() == old(buf).len(),
{
    let b: [u8; 4] = i32_to_ne_bytes(x);
    proof {
        lemma_i32_round_trip(x);
    }
    write_bytes(buf, at, b.as_slice());
}

/// Stores `x` at `at`.
pub fn write_u64(buf: &mut Vec<u8>, at: usize, x: u64)
    requires
        at + 8 <= old(buf).len(),
    ensures
        final(buf)@ == overwrite(old(buf)@, at as int, u64_ne_bytes(x)),
        final(buf).len() == old(buf).len(),
{
    let b: [u8; 8] = u64_to_ne_bytes(x);
    proof {
        lemma_u64_round_trip(x);
    }
    write_bytes(buf, at, b.as_slice());
}

} // verus!
