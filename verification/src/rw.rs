//! Little-endian field readers and writers over in-memory byte buffers.
//!
//! Every record of the container is decoded and encoded field by field
//! through these helpers, so byte order and layout never depend on the
//! host machine.

use vstd::bytes::*;
use vstd::prelude::*;
use vstd::slice::*;

verus! {

pub fn read_u8(bytes: &[u8], pos: usize) -> (v: u8)
    requires
        pos < bytes@.len(),
    ensures
        v == bytes@[pos as int],
{
    *slice_index_get(bytes, pos)
}

pub fn read_u16_le(bytes: &[u8], pos: usize) -> (v: u16)
    requires
        pos + 2 <= bytes@.len(),
    ensures
        v == spec_u16_from_le_bytes(bytes@.subrange(pos as int, pos as int + 2)),
{
    let n: usize = bytes.len();
    proof { assert(pos + 2 <= n); }
    let s = slice_subrange(bytes, pos, pos + 2);
    u16_from_le_bytes(s)
}

pub fn read_u32_le(bytes: &[u8], pos: usize) -> (v: u32)
    requires
        pos + 4 <= bytes@.len(),
    ensures
        v == spec_u32_from_le_bytes(bytes@.subrange(pos as int, pos as int + 4)),
{
    let n: usize = bytes.len();
    proof { assert(pos + 4 <= n); }
    let s = slice_subrange(bytes, pos, pos + 4);
    u32_from_le_bytes(s)
}

pub fn read_u64_le(bytes: &[u8], pos: usize) -> (v: u64)
    requires
        pos + 8 <= bytes@.len(),
    ensures
        v == spec_u64_from_le_bytes(bytes@.subrange(pos as int, pos as int + 8)),
{
    let n: usize = bytes.len();
    proof { assert(pos + 8 <= n); }
    let s = slice_subrange(bytes, pos, pos + 8);
    u64_from_le_bytes(s)
}

pub fn write_u8(out: &mut Vec<u8>, v: u8)
    ensures
        final(out)@ == old(out)@.push(v),
{
    out.push(v);
}

pub fn write_u16_le(out: &mut Vec<u8>, v: u16)
    ensures
        final(out)@ == old(out)@ + spec_u16_to_le_bytes(v),
{
    let mut b = u16_to_le_bytes(v);
    out.append(&mut b);
}

pub fn write_u32_le(out: &mut Vec<u8>, v: u32)
    ensures
        final(out)@ == old(out)@ + spec_u32_to_le_bytes(v),
{
    let mut b = u32_to_le_bytes(v);
    out.append(&mut b);
}

pub fn write_u64_le(out: &mut Vec<u8>, v: u64)
    ensures
        final(out)@ == old(out)@ + spec_u64_to_le_bytes(v),
{
    let mut b = u64_to_le_bytes(v);
    out.append(&mut b);
}

} // verus!
