use vstd::prelude::*;

use crate::decode::{decode_i16, decode_i32, decode_u32, decode_u64, decode_utf16_units, field_bytes, le_signed, le_unsigned, utf16_units};
use crate::error::ReadFault;
use crate::memory::{add_offset, bytes_at, offset_addr, MemoryAccessor};

verus! {

/// A name for what `String::from_utf16_lossy` makes of a sequence of code units.
pub uninterp spec fn utf16_lossy(units: Seq<u16>) -> Seq<char>;

/// Relies on `String::from_utf16_lossy`: decodes UTF-16, replacing invalid
/// sequences; no code units give the empty string.
#[verifier::external_body]
fn string_from_utf16(units: &Vec<u16>) -> (r: String)
    ensures
        r@ == utf16_lossy(units@),
        units@.len() == 0 ==> r@.len() == 0,
{
    String::from_utf16_lossy(units.as_slice())
}

pub open spec fn i16_at(m: Map<int, u8>, a: i32) -> Result<i16, ReadFault> {
    match bytes_at(m, a, 2) {
        Ok(b) => Ok(le_signed(b) as i16),
        Err(f) => Err(f),
    }
}

pub open spec fn i32_at(m: Map<int, u8>, a: i32) -> Result<i32, ReadFault> {
    match bytes_at(m, a, 4) {
        Ok(b) => Ok(le_signed(b) as i32),
        Err(f) => Err(f),
    }
}

pub open spec fn u32_at(m: Map<int, u8>, a: i32) -> Result<u32, ReadFault> {
    match bytes_at(m, a, 4) {
        Ok(b) => Ok(le_unsigned(b) as u32),
        Err(f) => Err(f),
    }
}

pub open spec fn u64_at(m: Map<int, u8>, a: i32) -> Result<u64, ReadFault> {
    match bytes_at(m, a, 8) {
        Ok(b) => Ok(le_unsigned(b) as u64),
        Err(f) => Err(f),
    }
}

/// The code units of the managed string object at `obj`: a length of four
/// bytes at `obj + 4`, then two bytes per unit from `obj + 8`. A length
/// whose byte count the host cannot address fails like an unmapped read.
pub open spec fn units_at(m: Map<int, u8>, obj: i32) -> Result<Seq<u16>, ReadFault> {
    match u32_at(m, offset_addr(obj, 4)) {
        Err(f) => Err(f),
        Ok(n) => if 2 * n > usize::MAX {
            Err(ReadFault { address: offset_addr(obj, 8) })
        } else {
            match bytes_at(m, offset_addr(obj, 8), (2 * n) as nat) {
                Ok(b) => Ok(utf16_units(b)),
                Err(f) => Err(f),
            }
        },
    }
}

/// The text of the managed string that the pointer at `a` refers to.
pub open spec fn text_at(m: Map<int, u8>, a: i32) -> Result<Seq<char>, ReadFault> {
    match i32_at(m, a) {
        Err(f) => Err(f),
        Ok(obj) => match units_at(m, obj) {
            Ok(u) => Ok(utf16_lossy(u)),
            Err(f) => Err(f),
        },
    }
}

/// The reads that reading the string whose pointer is at `a` makes: the
/// pointer, then the length, then the code units, each only when the step
/// before it succeeded and the length fits the host.
pub open spec fn text_reads(m: Map<int, u8>, a: i32) -> nat {
    match i32_at(m, a) {
        Err(_) => 1,
        Ok(obj) => match u32_at(m, offset_addr(obj, 4)) {
            Err(_) => 2,
            Ok(n) => if 2 * n > usize::MAX {
                2
            } else {
                3
            },
        },
    }
}

/// The text of an executable string result.
pub open spec fn text_of(r: Result<String, ReadFault>) -> Result<Seq<char>, ReadFault> {
    match r {
        Ok(s) => Ok(s@),
        Err(f) => Err(f),
    }
}

pub fn read_i16<M: MemoryAccessor>(acc: &mut M, a: i32) -> (r: Result<i16, ReadFault>)
    ensures
        r == i16_at(old(acc).memory(), a),
        final(acc).memory() == old(acc).memory(),
        final(acc).read_count() == old(acc).read_count() + 1,
{
    let b = acc.read_bytes(a, 2)?;
    assert(field_bytes(b@, 0, 2) =~= b@);
    Ok(decode_i16(&b, 0))
}

pub fn read_i32<M: MemoryAccessor>(acc: &mut M, a: i32) -> (r: Result<i32, ReadFault>)
    ensures
        r == i32_at(old(acc).memory(), a),
        final(acc).memory() == old(acc).memory(),
        final(acc).read_count() == old(acc).read_count() + 1,
{
    let b = acc.read_bytes(a, 4)?;
    assert(field_bytes(b@, 0, 4) =~= b@);
    Ok(decode_i32(&b, 0))
}

pub fn read_u32<M: MemoryAccessor>(acc: &mut M, a: i32) -> (r: Result<u32, ReadFault>)
    ensures
        r == u32_at(old(acc).memory(), a),
        final(acc).memory() == old(acc).memory(),
        final(acc).read_count() == old(acc).read_count() + 1,
{
    let b = acc.read_bytes(a, 4)?;
    assert(field_bytes(b@, 0, 4) =~= b@);
    Ok(decode_u32(&b, 0))
}

pub fn read_u64<M: MemoryAccessor>(acc: &mut M, a: i32) -> (r: Result<u64, ReadFault>)
    ensures
        r == u64_at(old(acc).memory(), a),
        final(acc).memory() == old(acc).memory(),
        final(acc).read_count() == old(acc).read_count() + 1,
{
    let b = acc.read_bytes(a, 8)?;
    assert(field_bytes(b@, 0, 8) =~= b@);
    Ok(decode_u64(&b, 0))
}

/// Reads the managed string that the pointer at `a` refers to: three reads.
pub fn read_string<M: MemoryAccessor>(acc: &mut M, a: i32) -> (r: Result<String, ReadFault>)
    ensures
        text_of(r) == text_at(old(acc).memory(), a),
        final(acc).memory() == old(acc).memory(),
        final(acc).read_count() == old(acc).read_count() + text_reads(old(acc).memory(), a),
{
    let obj = read_i32(acc, a)?;
    let n = read_u32(acc, add_offset(obj, 4))?;
    let len = match (n as usize).checked_mul(2) {
        Some(len) => len,
        None => {
            return Err(ReadFault { address: add_offset(obj, 8) });
        },
    };
    let b = acc.read_bytes(add_offset(obj, 8), len)?;
    let units = decode_utf16_units(&b);
    Ok(string_from_utf16(&units))
}

} // verus!
