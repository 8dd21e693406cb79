use vstd::prelude::*;

use crate::chain::{chain_read_u32, chain_u32, field_reads};
use crate::common::{game_state_of, GameState};
use crate::error::{Error, ReadFault, Unavailable};
use crate::memory::MemoryAccessor;
use crate::offsets::STATUS_PTR;
use crate::state::{anchor_cost, anchor_value, lift, settle, AnchorKind, State};

verus! {

/// Hops from the status anchor to the game state value.
pub open spec fn status_path() -> Seq<i32> {
    seq![STATUS_PTR]
}

fn status_hops() -> (r: Vec<i32>)
    ensures
        r@ == status_path(),
{
    let r = vec![STATUS_PTR];
    assert(r@ =~= status_path());
    r
}

/// The raw game state value.
pub open spec fn status_value(m: Map<int, u8>, st: State) -> Result<u32, Error> {
    lift(chain_u32(m, st, AnchorKind::Status, status_path(), 0))
}

/// The reads that reading the game state value makes.
pub open spec fn status_reads(m: Map<int, u8>, st: State) -> nat {
    field_reads(m, st, AnchorKind::Status, status_path())
}

/// The state after reading the game state value.
pub open spec fn gate_state(m: Map<int, u8>, st: State) -> State {
    settle(m, st, AnchorKind::Status, status_value(m, st) is Ok)
}

/// Whether the game is in state `want`.
pub open spec fn gate(m: Map<int, u8>, st: State, want: GameState) -> Result<bool, Error> {
    match status_value(m, st) {
        Ok(v) => Ok(game_state_of(v) == want),
        Err(e) => Err(e),
    }
}

/// What a check for `want` lets through: nothing on a failed read,
/// `NotAvailable(why)` on another state.
pub open spec fn gate_outcome(m: Map<int, u8>, st: State, want: GameState, why: Unavailable) -> Result<(), Error> {
    match gate(m, st, want) {
        Ok(true) => Ok(()),
        Ok(false) => Err(Error::NotAvailable(why)),
        Err(e) => Err(e),
    }
}

/// Reads the coarse mode the game is in.
pub fn game_state<M: MemoryAccessor>(acc: &mut M, state: &mut State) -> (r: Result<GameState, Error>)
    ensures
        r == match status_value(old(acc).memory(), *old(state)) {
            Ok(v) => Ok(game_state_of(v)),
            Err(e) => Err(e),
        },
        *final(state) == gate_state(old(acc).memory(), *old(state)),
        final(acc).memory() == old(acc).memory(),
        final(acc).read_count() == old(acc).read_count() + status_reads(old(acc).memory(), *old(state)),
        r is Ok ==> status_reads(old(acc).memory(), *old(state)) == anchor_cost(*old(state), AnchorKind::Status) + 2,
{
    let hops = status_hops();
    let v = chain_read_u32(acc, state, AnchorKind::Status, hops.as_slice(), 0)?;
    Ok(GameState::from_raw(v))
}

/// Whether the game is in state `want`.
pub fn check_game_state<M: MemoryAccessor>(acc: &mut M, state: &mut State, want: GameState) -> (r: Result<bool, Error>)
    ensures
        r == gate(old(acc).memory(), *old(state), want),
        *final(state) == gate_state(old(acc).memory(), *old(state)),
        final(acc).memory() == old(acc).memory(),
        final(acc).read_count() == old(acc).read_count() + status_reads(old(acc).memory(), *old(state)),
        r is Ok ==> status_reads(old(acc).memory(), *old(state)) == anchor_cost(*old(state), AnchorKind::Status) + 2,
{
    let s = game_state(acc, state)?;
    Ok(s == want)
}

/// Fails unless the game is in state `want`.
pub fn require_state<M: MemoryAccessor>(acc: &mut M, state: &mut State, want: GameState, why: Unavailable) -> (r: Result<(), Error>)
    ensures
        r == gate_outcome(old(acc).memory(), *old(state), want, why),
        *final(state) == gate_state(old(acc).memory(), *old(state)),
        final(acc).memory() == old(acc).memory(),
        final(acc).read_count() == old(acc).read_count() + status_reads(old(acc).memory(), *old(state)),
        r is Err && r->Err_0 is NotAvailable ==> final(acc).read_count() == old(acc).read_count() + anchor_cost(*old(state), AnchorKind::Status) + 2,
        r is Ok ==> status_reads(old(acc).memory(), *old(state)) == anchor_cost(*old(state), AnchorKind::Status) + 2,
{
    if check_game_state(acc, state, want)? {
        Ok(())
    } else {
        Err(Error::NotAvailable(why))
    }
}


/// The result and the state after a read that needs game state `want`:
/// the game state check first, then `read` from the state that check leaves, through
/// anchor `k`.
pub open spec fn gated<T>(
    m: Map<int, u8>,
    st: State,
    want: GameState,
    why: Unavailable,
    k: AnchorKind,
    read: spec_fn(State) -> Result<T, ReadFault>,
) -> (Result<T, Error>, State) {
    let st1 = gate_state(m, st);
    match gate_outcome(m, st, want, why) {
        Err(e) => (Err(e), st1),
        Ok(_) => (lift(read(st1)), settle(m, st1, k, read(st1) is Ok)),
    }
}


/// The reads of a read that needs game state `want`: those of the game
/// state check, then, only when it lets the read through, `reads` of the
/// state the check leaves.
pub open spec fn gated_reads(m: Map<int, u8>, st: State, want: GameState, why: Unavailable, reads: spec_fn(State) -> nat) -> nat {
    status_reads(m, st) + if gate_outcome(m, st, want, why) is Ok {
        reads(gate_state(m, st))
    } else {
        0
    }
}

/// A mode-dependent read in the wrong game state fails with `NotAvailable`, never
/// with `MemoryRead`, and reads nothing past the check: the state is the
/// one that reading the game state leaves, whatever `read` would do, and the
/// reads are the two of the check, after deriving the status anchor when it
/// is not cached.
pub proof fn lemma_gate_denies<T>(
    m: Map<int, u8>,
    st: State,
    want: GameState,
    why: Unavailable,
    k: AnchorKind,
    read: spec_fn(State) -> Result<T, ReadFault>,
    reads: spec_fn(State) -> nat,
)
    requires
        status_value(m, st) is Ok,
        game_state_of(status_value(m, st)->Ok_0) != want,
    ensures
        gated(m, st, want, why, k, read).0 == Err::<T, Error>(Error::NotAvailable(why)),
        gated(m, st, want, why, k, read).1 == gate_state(m, st),
        gated_reads(m, st, want, why, reads) == anchor_cost(st, AnchorKind::Status) + 2,
{
    crate::chain::lemma_walk_reads_ok(m, anchor_value(m, st, AnchorKind::Status)->Ok_0, status_path());
}

} // verus!
