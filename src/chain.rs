use vstd::prelude::*;

use crate::error::{Error, ReadFault};
use crate::memory::{add_offset, offset_addr, MemoryAccessor};
use crate::read::{
    text_reads, i16_at, i32_at, read_i16, read_i32, read_string, read_u32, read_u64, text_at, u32_at,
    u64_at,
};
use crate::state::{anchor_cost, anchor_value, lift, settle, AnchorKind, State};

verus! {

/// The address reached from `a` by following `hops`: each hop adds its
/// offset and reads the pointer stored there.
pub open spec fn walk(m: Map<int, u8>, a: i32, hops: Seq<i32>) -> Result<i32, ReadFault>
    decreases hops.len(),
{
    if hops.len() == 0 {
        Ok(a)
    } else {
        match i32_at(m, offset_addr(a, hops[0])) {
            Ok(p) => walk(m, p, hops.drop_first()),
            Err(f) => Err(f),
        }
    }
}

/// The reads that following `hops` from `a` makes: one per hop, up to and
/// including the first that fails.
pub open spec fn walk_reads(m: Map<int, u8>, a: i32, hops: Seq<i32>) -> nat
    decreases hops.len(),
{
    if hops.len() == 0 {
        0
    } else {
        match i32_at(m, offset_addr(a, hops[0])) {
            Ok(p) => 1 + walk_reads(m, p, hops.drop_first()),
            Err(_) => 1,
        }
    }
}

/// The reads that resolving `hops` from anchor `k` makes: deriving the
/// anchor when it is not cached, then the walk when the anchor is known.
pub open spec fn chain_reads(m: Map<int, u8>, st: State, k: AnchorKind, hops: Seq<i32>) -> nat {
    anchor_cost(st, k) + match anchor_value(m, st, k) {
        Ok(a) => walk_reads(m, a, hops),
        Err(_) => 0,
    }
}

/// The reads of a chain followed by one read of its field.
pub open spec fn field_reads(m: Map<int, u8>, st: State, k: AnchorKind, hops: Seq<i32>) -> nat {
    chain_reads(m, st, k, hops) + if chain(m, st, k, hops) is Ok {
        1nat
    } else {
        0nat
    }
}

/// The reads of a chain followed by the reads of the string at `off`.
pub open spec fn chain_text_reads(m: Map<int, u8>, st: State, k: AnchorKind, hops: Seq<i32>, off: i32) -> nat {
    chain_reads(m, st, k, hops) + match chain(m, st, k, hops) {
        Ok(p) => text_reads(m, offset_addr(p, off)),
        Err(_) => 0,
    }
}

/// The address reached from anchor `k` by following `hops`.
pub open spec fn chain(m: Map<int, u8>, st: State, k: AnchorKind, hops: Seq<i32>) -> Result<i32, ReadFault> {
    match anchor_value(m, st, k) {
        Ok(a) => walk(m, a, hops),
        Err(f) => Err(f),
    }
}

pub open spec fn chain_i16(m: Map<int, u8>, st: State, k: AnchorKind, hops: Seq<i32>, off: i32) -> Result<i16, ReadFault> {
    match chain(m, st, k, hops) {
        Ok(p) => i16_at(m, offset_addr(p, off)),
        Err(f) => Err(f),
    }
}

pub open spec fn chain_i32(m: Map<int, u8>, st: State, k: AnchorKind, hops: Seq<i32>, off: i32) -> Result<i32, ReadFault> {
    match chain(m, st, k, hops) {
        Ok(p) => i32_at(m, offset_addr(p, off)),
        Err(f) => Err(f),
    }
}

pub open spec fn chain_u32(m: Map<int, u8>, st: State, k: AnchorKind, hops: Seq<i32>, off: i32) -> Result<u32, ReadFault> {
    match chain(m, st, k, hops) {
        Ok(p) => u32_at(m, offset_addr(p, off)),
        Err(f) => Err(f),
    }
}

pub open spec fn chain_u64(m: Map<int, u8>, st: State, k: AnchorKind, hops: Seq<i32>, off: i32) -> Result<u64, ReadFault> {
    match chain(m, st, k, hops) {
        Ok(p) => u64_at(m, offset_addr(p, off)),
        Err(f) => Err(f),
    }
}

pub open spec fn chain_text(m: Map<int, u8>, st: State, k: AnchorKind, hops: Seq<i32>, off: i32) -> Result<Seq<char>, ReadFault> {
    match chain(m, st, k, hops) {
        Ok(p) => text_at(m, offset_addr(p, off)),
        Err(f) => Err(f),
    }
}

pub open spec fn text_result(r: Result<String, Error>) -> Result<Seq<char>, Error> {
    match r {
        Ok(s) => Ok(s@),
        Err(e) => Err(e),
    }
}

/// A walk that succeeds reads once per hop.
pub proof fn lemma_walk_reads_ok(m: Map<int, u8>, a: i32, hops: Seq<i32>)
    requires
        walk(m, a, hops) is Ok,
    ensures
        walk_reads(m, a, hops) == hops.len(),
    decreases hops.len(),
{
    if hops.len() > 0 {
        let p = i32_at(m, offset_addr(a, hops[0]))->Ok_0;
        lemma_walk_reads_ok(m, p, hops.drop_first());
    }
}

/// Follows `hops` from `a`; stops at the first read that fails.
pub fn follow<M: MemoryAccessor>(acc: &mut M, a: i32, hops: &[i32]) -> (r: Result<i32, ReadFault>)
    ensures
        r == walk(old(acc).memory(), a, hops@),
        final(acc).memory() == old(acc).memory(),
        final(acc).read_count() == old(acc).read_count() + walk_reads(old(acc).memory(), a, hops@),
        r is Ok ==> walk_reads(old(acc).memory(), a, hops@) == hops@.len(),
{
    let ghost m = acc.memory();
    proof {
        if walk(m, a, hops@) is Ok {
            lemma_walk_reads_ok(m, a, hops@);
        }
    }
    let mut cur = a;
    let mut i: usize = 0;
    assert(hops@.skip(0) =~= hops@);
    while i < hops.len()
        invariant
            0 <= i <= hops@.len(),
            acc.memory() == m,
            m == old(acc).memory(),
            walk(m, a, hops@) == walk(m, cur, hops@.skip(i as int)),
            walk_reads(m, a, hops@) == i + walk_reads(m, cur, hops@.skip(i as int)),
            acc.read_count() == old(acc).read_count() + i,
        decreases hops@.len() - i,
    {
        proof {
            assert(hops@.skip(i as int).drop_first() =~= hops@.skip(i + 1));
            assert(hops@.skip(i as int)[0] == hops@[i as int]);
        }
        cur = read_i32(acc, add_offset(cur, hops[i]))?;
        i = i + 1;
    }
    assert(hops@.skip(i as int) =~= Seq::<i32>::empty());
    Ok(cur)
}

/// Resolves the address that `hops` lead to from anchor `k`; on a failed
/// read the anchor is invalidated.
pub fn resolve<M: MemoryAccessor>(acc: &mut M, state: &mut State, k: AnchorKind, hops: &[i32]) -> (r: Result<i32, Error>)
    ensures
        r == lift(chain(old(acc).memory(), *old(state), k, hops@)),
        *final(state) == settle(old(acc).memory(), *old(state), k, r is Ok),
        final(acc).memory() == old(acc).memory(),
        final(acc).read_count() == old(acc).read_count() + chain_reads(old(acc).memory(), *old(state), k, hops@),
        r is Ok ==> chain_reads(old(acc).memory(), *old(state), k, hops@) == anchor_cost(*old(state), k) + hops@.len(),
{
    let a = match state.get_or_resolve(acc, k) {
        Ok(a) => a,
        Err(e) => {
            assert(old(state).with_cached(k, None) == *old(state));
            return Err(e);
        },
    };
    match follow(acc, a, hops) {
        Ok(p) => Ok(p),
        Err(f) => {
            state.invalidate(k);
            Err(Error::MemoryRead(f))
        },
    }
}

/// Reads a signed 16-bit field at `off` past the end of a chain.
pub fn chain_read_i16<M: MemoryAccessor>(acc: &mut M, state: &mut State, k: AnchorKind, hops: &[i32], off: i32) -> (r: Result<i16, Error>)
    ensures
        r == lift(chain_i16(old(acc).memory(), *old(state), k, hops@, off)),
        *final(state) == settle(old(acc).memory(), *old(state), k, r is Ok),
        final(acc).memory() == old(acc).memory(),
        final(acc).read_count() == old(acc).read_count() + field_reads(old(acc).memory(), *old(state), k, hops@),
        r is Ok ==> field_reads(old(acc).memory(), *old(state), k, hops@) == anchor_cost(*old(state), k) + hops@.len() + 1,
{
    let p = resolve(acc, state, k, hops)?;
    match read_i16(acc, add_offset(p, off)) {
        Ok(v) => Ok(v),
        Err(f) => {
            state.invalidate(k);
            Err(Error::MemoryRead(f))
        },
    }
}

/// Reads a signed 32-bit field at `off` past the end of a chain.
pub fn chain_read_i32<M: MemoryAccessor>(acc: &mut M, state: &mut State, k: AnchorKind, hops: &[i32], off: i32) -> (r: Result<i32, Error>)
    ensures
        r == lift(chain_i32(old(acc).memory(), *old(state), k, hops@, off)),
        *final(state) == settle(old(acc).memory(), *old(state), k, r is Ok),
        final(acc).memory() == old(acc).memory(),
        final(acc).read_count() == old(acc).read_count() + field_reads(old(acc).memory(), *old(state), k, hops@),
        r is Ok ==> field_reads(old(acc).memory(), *old(state), k, hops@) == anchor_cost(*old(state), k) + hops@.len() + 1,
{
    let p = resolve(acc, state, k, hops)?;
    match read_i32(acc, add_offset(p, off)) {
        Ok(v) => Ok(v),
        Err(f) => {
            state.invalidate(k);
            Err(Error::MemoryRead(f))
        },
    }
}

/// Reads an unsigned 32-bit field at `off` past the end of a chain.
pub fn chain_read_u32<M: MemoryAccessor>(acc: &mut M, state: &mut State, k: AnchorKind, hops: &[i32], off: i32) -> (r: Result<u32, Error>)
    ensures
        r == lift(chain_u32(old(acc).memory(), *old(state), k, hops@, off)),
        *final(state) == settle(old(acc).memory(), *old(state), k, r is Ok),
        final(acc).memory() == old(acc).memory(),
        final(acc).read_count() == old(acc).read_count() + field_reads(old(acc).memory(), *old(state), k, hops@),
        r is Ok ==> field_reads(old(acc).memory(), *old(state), k, hops@) == anchor_cost(*old(state), k) + hops@.len() + 1,
{
    let p = resolve(acc, state, k, hops)?;
    match read_u32(acc, add_offset(p, off)) {
        Ok(v) => Ok(v),
        Err(f) => {
            state.invalidate(k);
            Err(Error::MemoryRead(f))
        },
    }
}

/// Reads an unsigned 64-bit field at `off` past the end of a chain.
pub fn chain_read_u64<M: MemoryAccessor>(acc: &mut M, state: &mut State, k: AnchorKind, hops: &[i32], off: i32) -> (r: Result<u64, Error>)
    ensures
        r == lift(chain_u64(old(acc).memory(), *old(state), k, hops@, off)),
        *final(state) == settle(old(acc).memory(), *old(state), k, r is Ok),
        final(acc).memory() == old(acc).memory(),
        final(acc).read_count() == old(acc).read_count() + field_reads(old(acc).memory(), *old(state), k, hops@),
        r is Ok ==> field_reads(old(acc).memory(), *old(state), k, hops@) == anchor_cost(*old(state), k) + hops@.len() + 1,
{
    let p = resolve(acc, state, k, hops)?;
    match read_u64(acc, add_offset(p, off)) {
        Ok(v) => Ok(v),
        Err(f) => {
            state.invalidate(k);
            Err(Error::MemoryRead(f))
        },
    }
}

/// Reads the string that the pointer at `off` past the end of a chain
/// refers to.
pub fn chain_read_string<M: MemoryAccessor>(acc: &mut M, state: &mut State, k: AnchorKind, hops: &[i32], off: i32) -> (r: Result<String, Error>)
    ensures
        text_result(r) == lift(chain_text(old(acc).memory(), *old(state), k, hops@, off)),
        *final(state) == settle(old(acc).memory(), *old(state), k, r is Ok),
        final(acc).memory() == old(acc).memory(),
        final(acc).read_count() == old(acc).read_count() + chain_text_reads(old(acc).memory(), *old(state), k, hops@, off),
{
    let p = resolve(acc, state, k, hops)?;
    match read_string(acc, add_offset(p, off)) {
        Ok(v) => Ok(v),
        Err(f) => {
            state.invalidate(k);
            Err(Error::MemoryRead(f))
        },
    }
}


/// Once a read through anchor `k` fails, the anchor is no longer cached,
/// and the next use of it, on whatever memory `next`, derives it afresh
/// from its root.
pub proof fn lemma_failed_read_rederives(m: Map<int, u8>, st: State, k: AnchorKind, hops: Seq<i32>, off: i32, next: Map<int, u8>)
    requires
        chain_i32(m, st, k, hops, off) is Err,
    ensures
        settle(m, st, k, false).cached(k) is None,
        anchor_value(next, settle(m, st, k, false), k) == crate::state::root_value(next, st.root(k)),
        forall|j: AnchorKind| j != k ==> #[trigger] settle(m, st, k, false).cached(j) == st.cached(j),
{
}

} // verus!
