use vstd::prelude::*;

use crate::beatmap::{beatmap_hops, beatmap_path};
use crate::chain::{chain, chain_reads, field_reads, chain_i32, chain_read_i32, resolve};
use crate::common::{game_mode_of, GameMode, GameState};
use crate::error::{Error, ReadFault, Unavailable};
use crate::gameplay::{menu_hops, menu_path, ruleset_hops, ruleset_path};
use crate::gate::{gate_outcome, gate_state, require_state, status_reads};
use crate::memory::{add_offset, offset_addr, MemoryAccessor};
use crate::offsets::{
    BEATMAP_MODE, KEY_ARRAY, KEY_ARRAY_SIZE, KEY_COUNT, KEY_ITEMS, KEY_LIST, KEY_OVERLAY,
    KEY_PRESSED, MENU_PLAYMODE, RULESET_ADDR, RULESET_PTR,
};
use crate::read::{i32_at, read_i32};
use crate::state::{anchor_cost, lift, settle, AnchorKind, State};

verus! {

/// One key of the overlay.
#[derive(Debug, Clone, Copy, PartialEq, Eq, Structural)]
pub struct Key {
    pub pressed: bool,
    pub count: i32,
}

/// The four keys that the standard ruleset shows on its overlay.
#[derive(Debug, Clone, Copy, PartialEq, Eq, Structural)]
pub struct KeyOverlay {
    pub key_1: Key,
    pub key_2: Key,
    pub mouse_1: Key,
    pub mouse_2: Key,
}

/// Hops from the rulesets anchor to the key array.
pub open spec fn key_array_path() -> Seq<i32> {
    seq![RULESET_PTR, RULESET_ADDR, KEY_OVERLAY, KEY_LIST, KEY_ARRAY]
}

fn key_array_hops() -> (r: Vec<i32>)
    ensures
        r@ == key_array_path(),
{
    let r = vec![RULESET_PTR, RULESET_ADDR, KEY_OVERLAY, KEY_LIST, KEY_ARRAY];
    assert(r@ =~= key_array_path());
    r
}

/// The result and the state after checking that the standard ruleset is
/// being played: the game state, then the ruleset chosen in the menus, then
/// the ruleset of the beatmap. Each check that fails ends the sequence.
pub open spec fn std_gate(m: Map<int, u8>, st: State) -> (Result<(), Error>, State) {
    let st1 = gate_state(m, st);
    match gate_outcome(m, st, GameState::Playing, Unavailable::NotPlaying) {
        Err(e) => (Err(e), st1),
        Ok(_) => {
            let pm = chain_i32(m, st1, AnchorKind::Base, menu_path(), MENU_PLAYMODE);
            let st2 = settle(m, st1, AnchorKind::Base, pm is Ok);
            match pm {
                Err(f) => (Err(Error::MemoryRead(f)), st2),
                Ok(p) => if p != 0 {
                    (Err(Error::NotAvailable(Unavailable::WrongRuleset)), st2)
                } else {
                    let bm = chain_i32(m, st2, AnchorKind::Base, beatmap_path(), BEATMAP_MODE);
                    let st3 = settle(m, st2, AnchorKind::Base, bm is Ok);
                    match bm {
                        Err(f) => (Err(Error::MemoryRead(f)), st3),
                        Ok(v) => if game_mode_of(v) != GameMode::Osu {
                            (Err(Error::NotAvailable(Unavailable::WrongRuleset)), st3)
                        } else {
                            (Ok(()), st3)
                        },
                    }
                },
            }
        },
    }
}

/// The reads that the standard ruleset checks make, each check only when
/// the ones before it passed.
pub open spec fn std_gate_reads(m: Map<int, u8>, st: State) -> nat {
    let st1 = gate_state(m, st);
    status_reads(m, st) + if gate_outcome(m, st, GameState::Playing, Unavailable::NotPlaying) is Err {
        0
    } else {
        field_reads(m, st1, AnchorKind::Base, menu_path()) + match chain_i32(m, st1, AnchorKind::Base, menu_path(), MENU_PLAYMODE) {
            Err(_) => 0,
            Ok(p) => if p != 0 {
                0
            } else {
                field_reads(m, settle(m, st1, AnchorKind::Base, true), AnchorKind::Base, beatmap_path())
            },
        }
    }
}

#[verifier::rlimit(30)]
fn require_std<M: MemoryAccessor>(acc: &mut M, state: &mut State) -> (r: Result<(), Error>)
    ensures
        (r, *final(state)) == std_gate(old(acc).memory(), *old(state)),
        final(acc).memory() == old(acc).memory(),
        final(acc).read_count() == old(acc).read_count() + std_gate_reads(old(acc).memory(), *old(state)),
        r == Err::<(), Error>(Error::NotAvailable(Unavailable::NotPlaying)) ==> final(acc).read_count() == old(acc).read_count() + anchor_cost(*old(state), AnchorKind::Status) + 2,
        r is Ok ==> final(acc).read_count() == old(acc).read_count() + anchor_cost(*old(state), AnchorKind::Status) + anchor_cost(*old(state), AnchorKind::Base) + 7,
{
    require_state(acc, state, GameState::Playing, Unavailable::NotPlaying)?;
    let hops = menu_hops();
    let playmode = chain_read_i32(acc, state, AnchorKind::Base, hops.as_slice(), MENU_PLAYMODE)?;
    if playmode != 0 {
        return Err(Error::NotAvailable(Unavailable::WrongRuleset));
    }
    let hops = beatmap_hops();
    let mode = chain_read_i32(acc, state, AnchorKind::Base, hops.as_slice(), BEATMAP_MODE)?;
    if GameMode::from_raw(mode) != GameMode::Osu {
        return Err(Error::NotAvailable(Unavailable::WrongRuleset));
    }
    Ok(())
}

/// The result and the state after reading, behind the standard ruleset
/// checks, what `read` yields through the rulesets anchor.
pub open spec fn std_outcome<T>(m: Map<int, u8>, st: State, read: spec_fn(State) -> Result<T, ReadFault>) -> (Result<T, Error>, State) {
    let (g, st1) = std_gate(m, st);
    match g {
        Err(e) => (Err(e), st1),
        Ok(_) => (lift(read(st1)), settle(m, st1, AnchorKind::Rulesets, read(st1) is Ok)),
    }
}

/// The reads of `reads` behind the standard ruleset checks.
pub open spec fn std_reads(m: Map<int, u8>, st: State, reads: spec_fn(State) -> nat) -> nat {
    std_gate_reads(m, st) + if std_gate(m, st).0 is Ok {
        reads(std_gate(m, st).1)
    } else {
        0
    }
}

/// The address of the active ruleset, while the standard ruleset is played.
pub fn ruleset_addr<M: MemoryAccessor>(acc: &mut M, state: &mut State) -> (r: Result<i32, Error>)
    ensures
        (r, *final(state)) == std_outcome(old(acc).memory(), *old(state), |s: State| chain(old(acc).memory(), s, AnchorKind::Rulesets, ruleset_path())),
        final(acc).memory() == old(acc).memory(),
        final(acc).read_count() == old(acc).read_count() + std_reads(old(acc).memory(), *old(state), |s: State| chain_reads(old(acc).memory(), s, AnchorKind::Rulesets, ruleset_path())),
{
    require_std(acc, state)?;
    let hops = ruleset_hops();
    resolve(acc, state, AnchorKind::Rulesets, hops.as_slice())
}

/// The address of the key overlay, while the standard ruleset is played.
pub fn key_ptr<M: MemoryAccessor>(acc: &mut M, state: &mut State) -> (r: Result<i32, Error>)
    ensures
        (r, *final(state)) == std_outcome(old(acc).memory(), *old(state), |s: State| chain_i32(old(acc).memory(), s, AnchorKind::Rulesets, ruleset_path(), KEY_OVERLAY)),
        final(acc).memory() == old(acc).memory(),
        final(acc).read_count() == old(acc).read_count() + std_reads(old(acc).memory(), *old(state), |s: State| field_reads(old(acc).memory(), s, AnchorKind::Rulesets, ruleset_path())),
{
    require_std(acc, state)?;
    let hops = ruleset_hops();
    chain_read_i32(acc, state, AnchorKind::Rulesets, hops.as_slice(), KEY_OVERLAY)
}

/// Key `i` of the key array at `ka`: its entry points to the key object.
pub open spec fn key_at(m: Map<int, u8>, ka: i32, i: i32) -> Result<Key, ReadFault> {
    match i32_at(m, offset_addr(ka, (KEY_ITEMS + 4 * i) as i32)) {
        Err(f) => Err(f),
        Ok(item) => match i32_at(m, offset_addr(item, KEY_PRESSED)) {
            Err(f) => Err(f),
            Ok(p) => match i32_at(m, offset_addr(item, KEY_COUNT)) {
                Err(f) => Err(f),
                Ok(c) => Ok(Key { pressed: p != 0, count: c }),
            },
        },
    }
}

/// The overlay held by the key array at `ka`; an array of fewer than four
/// keys is a malformed structure and fails at its size field.
pub open spec fn keys_at(m: Map<int, u8>, ka: i32) -> Result<KeyOverlay, ReadFault> {
    match i32_at(m, offset_addr(ka, KEY_ARRAY_SIZE)) {
        Err(f) => Err(f),
        Ok(n) => if n < 4 {
            Err(ReadFault { address: offset_addr(ka, KEY_ARRAY_SIZE) })
        } else {
            match key_at(m, ka, 0) {
                Err(f) => Err(f),
                Ok(k1) => match key_at(m, ka, 1) {
                    Err(f) => Err(f),
                    Ok(k2) => match key_at(m, ka, 2) {
                        Err(f) => Err(f),
                        Ok(m1) => match key_at(m, ka, 3) {
                            Err(f) => Err(f),
                            Ok(m2) => Ok(KeyOverlay { key_1: k1, key_2: k2, mouse_1: m1, mouse_2: m2 }),
                        },
                    },
                },
            }
        },
    }
}

/// The reads that reading key `i` makes: its entry, then its two fields.
pub open spec fn key_reads(m: Map<int, u8>, ka: i32, i: i32) -> nat {
    match i32_at(m, offset_addr(ka, (KEY_ITEMS + 4 * i) as i32)) {
        Err(_) => 1,
        Ok(item) => if i32_at(m, offset_addr(item, KEY_PRESSED)) is Err {
            2
        } else {
            3
        },
    }
}

/// The reads that reading the key array at `ka` makes: its size, then, for
/// an array of at least four keys, the keys in order up to the first failure.
pub open spec fn keys_reads(m: Map<int, u8>, ka: i32) -> nat {
    match i32_at(m, offset_addr(ka, KEY_ARRAY_SIZE)) {
        Err(_) => 1,
        Ok(n) => if n < 4 {
            1
        } else if key_at(m, ka, 0) is Err {
            1 + key_reads(m, ka, 0)
        } else if key_at(m, ka, 1) is Err {
            4 + key_reads(m, ka, 1)
        } else if key_at(m, ka, 2) is Err {
            7 + key_reads(m, ka, 2)
        } else {
            10 + key_reads(m, ka, 3)
        },
    }
}

fn read_key<M: MemoryAccessor>(acc: &mut M, ka: i32, i: i32) -> (r: Result<Key, ReadFault>)
    requires
        0 <= i < 4,
    ensures
        r == key_at(old(acc).memory(), ka, i),
        final(acc).memory() == old(acc).memory(),
        final(acc).read_count() == old(acc).read_count() + key_reads(old(acc).memory(), ka, i),
        r is Ok ==> key_reads(old(acc).memory(), ka, i) == 3,
{
    let item = read_i32(acc, add_offset(ka, KEY_ITEMS + 4 * i))?;
    let pressed = read_i32(acc, add_offset(item, KEY_PRESSED))?;
    let count = read_i32(acc, add_offset(item, KEY_COUNT))?;
    Ok(Key { pressed: pressed != 0, count })
}

fn read_keys<M: MemoryAccessor>(acc: &mut M, ka: i32) -> (r: Result<KeyOverlay, ReadFault>)
    ensures
        r == keys_at(old(acc).memory(), ka),
        final(acc).memory() == old(acc).memory(),
        final(acc).read_count() == old(acc).read_count() + keys_reads(old(acc).memory(), ka),
        r is Ok ==> keys_reads(old(acc).memory(), ka) == 13,
{
    let n = read_i32(acc, add_offset(ka, KEY_ARRAY_SIZE))?;
    if n < 4 {
        return Err(ReadFault { address: add_offset(ka, KEY_ARRAY_SIZE) });
    }
    let key_1 = read_key(acc, ka, 0)?;
    let key_2 = read_key(acc, ka, 1)?;
    let mouse_1 = read_key(acc, ka, 2)?;
    let mouse_2 = read_key(acc, ka, 3)?;
    Ok(KeyOverlay { key_1, key_2, mouse_1, mouse_2 })
}

/// The key overlay of the standard ruleset, while it is played.
#[verifier::rlimit(30)]
pub fn key_overlay_std<M: MemoryAccessor>(acc: &mut M, state: &mut State) -> (r: Result<KeyOverlay, Error>)
    ensures
        (r, *final(state)) == std_outcome(old(acc).memory(), *old(state), |s: State|
            match chain(old(acc).memory(), s, AnchorKind::Rulesets, key_array_path()) {
                Ok(ka) => keys_at(old(acc).memory(), ka),
                Err(f) => Err(f),
            }),
        final(acc).memory() == old(acc).memory(),
        final(acc).read_count() == old(acc).read_count() + std_reads(old(acc).memory(), *old(state), |s: State|
            chain_reads(old(acc).memory(), s, AnchorKind::Rulesets, key_array_path()) + match chain(old(acc).memory(), s, AnchorKind::Rulesets, key_array_path()) {
                Ok(ka) => keys_reads(old(acc).memory(), ka),
                Err(_) => 0,
            }),
        r == Err::<KeyOverlay, Error>(Error::NotAvailable(Unavailable::NotPlaying)) ==> final(acc).read_count() == old(acc).read_count() + anchor_cost(*old(state), AnchorKind::Status) + 2,
        r is Ok ==> final(acc).read_count() == old(acc).read_count() + anchor_cost(*old(state), AnchorKind::Status)
            + anchor_cost(*old(state), AnchorKind::Base) + anchor_cost(*old(state), AnchorKind::Rulesets) + 25,
{
    require_std(acc, state)?;
    let hops = key_array_hops();
    let ka = resolve(acc, state, AnchorKind::Rulesets, hops.as_slice())?;
    match read_keys(acc, ka) {
        Ok(k) => Ok(k),
        Err(f) => {
            state.invalidate(AnchorKind::Rulesets);
            Err(Error::MemoryRead(f))
        },
    }
}

} // verus!
