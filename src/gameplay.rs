use vstd::prelude::*;

use crate::chain::{
    chain, chain_reads, chain_text_reads, field_reads, chain_i16, chain_i32, chain_read_i16, chain_read_i32, chain_read_string, chain_text,
    chain_u64, resolve, text_result,
};
use crate::common::{GameState, Hit};
use crate::error::{Error, ReadFault, Unavailable};
use crate::gate::{gate_outcome, gate_state, gated, gated_reads, require_state, status_reads};
use crate::memory::{add_offset, offset_addr, MemoryAccessor};
use crate::offsets::{
    COMBO, GAMEPLAY_BASE, HITS_100, HITS_300, HITS_50, HITS_GEKI, HITS_KATU, HITS_MISS, HP, HP_BASE,
    MAX_COMBO, MENU_PTR, MENU_RETRIES, MODS, MODS_XOR, MODS_XOR2, PLAYTIME_PTR, RULESET_ADDR,
    RULESET_PTR, SCORE, SCORE_BASE, USERNAME,
};
use crate::read::{text_reads, i16_at, i32_at, read_i16, read_i32, read_string, read_u64, text_at, u64_at};
use crate::state::{anchor_cost, lift, settle, AnchorKind, State};

verus! {

/// A point-in-time snapshot of the play in progress.
#[derive(Debug, Clone, PartialEq, Eq)]
pub struct GameplayInfo {
    pub score: i32,
    pub mods: u32,
    pub combo: i16,
    pub max_combo: i16,
    /// The health value as the bits of an IEEE-754 double.
    pub hp: u64,
    pub username: String,
    pub ig_time: i32,
    pub retries: i32,
    pub hits: Hit,
}

/// The content of a `GameplayInfo`.
pub struct GameplaySnapshot {
    pub score: i32,
    pub mods: u32,
    pub combo: i16,
    pub max_combo: i16,
    pub hp: u64,
    pub username: Seq<char>,
    pub ig_time: i32,
    pub retries: i32,
    pub hits: Hit,
}

impl GameplayInfo {
    pub open spec fn snapshot(&self) -> GameplaySnapshot {
        GameplaySnapshot {
            score: self.score,
            mods: self.mods,
            combo: self.combo,
            max_combo: self.max_combo,
            hp: self.hp,
            username: self.username@,
            ig_time: self.ig_time,
            retries: self.retries,
            hits: self.hits,
        }
    }
}

/// The mods: the low 32 bits of the exclusive or of the two stored halves.
pub open spec fn mods_of(a: u64, b: u64) -> u32 {
    ((a ^ b) & 0xffff_ffff) as u32
}

/// Combines the two stored halves of the mods.
pub fn combine_mods(a: u64, b: u64) -> (r: u32)
    ensures
        r == mods_of(a, b),
{
    assert((a ^ b) & 0xffff_ffff <= 0xffff_ffff) by (bit_vector);
    ((a ^ b) & 0xffff_ffff) as u32
}

/// The mods are the exclusive or of the two halves, truncated to 32 bits.
pub proof fn lemma_mods_xor(a: u64, b: u64)
    ensures
        mods_of(a, b) as u64 == (a ^ b) % 0x1_0000_0000,
        mods_of(a, b) == mods_of(b, a),
        mods_of(a, a) == 0,
{
    assert((a ^ b) & 0xffff_ffff == (a ^ b) % 0x1_0000_0000) by (bit_vector);
    assert(a ^ b == b ^ a) by (bit_vector);
    assert(a ^ a == 0) by (bit_vector);
    assert(0u64 & 0xffff_ffff == 0) by (bit_vector);
}

pub open spec fn ruleset_path() -> Seq<i32> {
    seq![RULESET_PTR, RULESET_ADDR]
}

pub open spec fn gameplay_base_path() -> Seq<i32> {
    seq![RULESET_PTR, RULESET_ADDR, GAMEPLAY_BASE]
}

pub open spec fn score_base_path() -> Seq<i32> {
    seq![RULESET_PTR, RULESET_ADDR, GAMEPLAY_BASE, SCORE_BASE]
}

pub open spec fn hp_base_path() -> Seq<i32> {
    seq![RULESET_PTR, RULESET_ADDR, GAMEPLAY_BASE, HP_BASE]
}

pub open spec fn mods_base_path() -> Seq<i32> {
    seq![RULESET_PTR, RULESET_ADDR, GAMEPLAY_BASE, SCORE_BASE, MODS]
}

pub open spec fn playtime_path() -> Seq<i32> {
    seq![PLAYTIME_PTR]
}

pub open spec fn menu_path() -> Seq<i32> {
    seq![MENU_PTR]
}

pub fn ruleset_hops() -> (r: Vec<i32>)
    ensures
        r@ == ruleset_path(),
{
    let r = vec![RULESET_PTR, RULESET_ADDR];
    assert(r@ =~= ruleset_path());
    r
}

fn gameplay_base_hops() -> (r: Vec<i32>)
    ensures
        r@ == gameplay_base_path(),
{
    let r = vec![RULESET_PTR, RULESET_ADDR, GAMEPLAY_BASE];
    assert(r@ =~= gameplay_base_path());
    r
}

fn score_base_hops() -> (r: Vec<i32>)
    ensures
        r@ == score_base_path(),
{
    let r = vec![RULESET_PTR, RULESET_ADDR, GAMEPLAY_BASE, SCORE_BASE];
    assert(r@ =~= score_base_path());
    r
}

fn hp_base_hops() -> (r: Vec<i32>)
    ensures
        r@ == hp_base_path(),
{
    let r = vec![RULESET_PTR, RULESET_ADDR, GAMEPLAY_BASE, HP_BASE];
    assert(r@ =~= hp_base_path());
    r
}

fn mods_base_hops() -> (r: Vec<i32>)
    ensures
        r@ == mods_base_path(),
{
    let r = vec![RULESET_PTR, RULESET_ADDR, GAMEPLAY_BASE, SCORE_BASE, MODS];
    assert(r@ =~= mods_base_path());
    r
}

pub fn playtime_hops() -> (r: Vec<i32>)
    ensures
        r@ == playtime_path(),
{
    let r = vec![PLAYTIME_PTR];
    assert(r@ =~= playtime_path());
    r
}

pub fn menu_hops() -> (r: Vec<i32>)
    ensures
        r@ == menu_path(),
{
    let r = vec![MENU_PTR];
    assert(r@ =~= menu_path());
    r
}

/// The hit counts stored in a score block at `sb`, read one by one.
pub open spec fn hits_at(m: Map<int, u8>, sb: i32) -> Result<Hit, ReadFault> {
    match i16_at(m, offset_addr(sb, HITS_300)) {
        Err(f) => Err(f),
        Ok(h300) => match i16_at(m, offset_addr(sb, HITS_100)) {
            Err(f) => Err(f),
            Ok(h100) => match i16_at(m, offset_addr(sb, HITS_50)) {
                Err(f) => Err(f),
                Ok(h50) => match i16_at(m, offset_addr(sb, HITS_MISS)) {
                    Err(f) => Err(f),
                    Ok(miss) => match i16_at(m, offset_addr(sb, HITS_GEKI)) {
                        Err(f) => Err(f),
                        Ok(geki) => match i16_at(m, offset_addr(sb, HITS_KATU)) {
                            Err(f) => Err(f),
                            Ok(katu) => Ok(Hit { _300: h300, _100: h100, _50: h50, _miss: miss, _geki: geki, _katu: katu }),
                        },
                    },
                },
            },
        },
    }
}

/// The reads that reading the hit counts at `sb` one by one makes: one per
/// count, up to and including the first that fails.
pub open spec fn hits_reads(m: Map<int, u8>, sb: i32) -> nat {
    if i16_at(m, offset_addr(sb, HITS_300)) is Err {
        1
    } else if i16_at(m, offset_addr(sb, HITS_100)) is Err {
        2
    } else if i16_at(m, offset_addr(sb, HITS_50)) is Err {
        3
    } else if i16_at(m, offset_addr(sb, HITS_MISS)) is Err {
        4
    } else if i16_at(m, offset_addr(sb, HITS_GEKI)) is Err {
        5
    } else {
        6
    }
}

/// Reads the hit counts of a score block one field at a time: six reads.
pub fn read_hits_at<M: MemoryAccessor>(acc: &mut M, sb: i32) -> (r: Result<Hit, ReadFault>)
    ensures
        r == hits_at(old(acc).memory(), sb),
        final(acc).memory() == old(acc).memory(),
        final(acc).read_count() == old(acc).read_count() + hits_reads(old(acc).memory(), sb),
        r is Ok ==> hits_reads(old(acc).memory(), sb) == 6,
{
    let h300 = read_i16(acc, add_offset(sb, HITS_300))?;
    let h100 = read_i16(acc, add_offset(sb, HITS_100))?;
    let h50 = read_i16(acc, add_offset(sb, HITS_50))?;
    let miss = read_i16(acc, add_offset(sb, HITS_MISS))?;
    let geki = read_i16(acc, add_offset(sb, HITS_GEKI))?;
    let katu = read_i16(acc, add_offset(sb, HITS_KATU))?;
    Ok(Hit { _300: h300, _100: h100, _50: h50, _miss: miss, _geki: geki, _katu: katu })
}

/// The mods stored in the mods block at `mb`.
pub open spec fn mods_at(m: Map<int, u8>, mb: i32) -> Result<u32, ReadFault> {
    match u64_at(m, offset_addr(mb, MODS_XOR)) {
        Err(f) => Err(f),
        Ok(a) => match u64_at(m, offset_addr(mb, MODS_XOR2)) {
            Err(f) => Err(f),
            Ok(b) => Ok(mods_of(a, b)),
        },
    }
}

/// The reads that reading the mods at `mb` makes.
pub open spec fn mods_reads(m: Map<int, u8>, mb: i32) -> nat {
    if u64_at(m, offset_addr(mb, MODS_XOR)) is Err {
        1
    } else {
        2
    }
}

fn read_mods_at<M: MemoryAccessor>(acc: &mut M, mb: i32) -> (r: Result<u32, ReadFault>)
    ensures
        r == mods_at(old(acc).memory(), mb),
        final(acc).memory() == old(acc).memory(),
        final(acc).read_count() == old(acc).read_count() + mods_reads(old(acc).memory(), mb),
{
    let a = read_u64(acc, add_offset(mb, MODS_XOR))?;
    let b = read_u64(acc, add_offset(mb, MODS_XOR2))?;
    Ok(combine_mods(a, b))
}

pub open spec fn chain_mods(m: Map<int, u8>, st: State) -> Result<u32, ReadFault> {
    match chain(m, st, AnchorKind::Rulesets, mods_base_path()) {
        Ok(mb) => mods_at(m, mb),
        Err(f) => Err(f),
    }
}

pub open spec fn chain_mods_reads(m: Map<int, u8>, st: State) -> nat {
    chain_reads(m, st, AnchorKind::Rulesets, mods_base_path()) + match chain(m, st, AnchorKind::Rulesets, mods_base_path()) {
        Ok(mb) => mods_reads(m, mb),
        Err(_) => 0,
    }
}

pub open spec fn chain_hits_reads(m: Map<int, u8>, st: State) -> nat {
    chain_reads(m, st, AnchorKind::Rulesets, score_base_path()) + match chain(m, st, AnchorKind::Rulesets, score_base_path()) {
        Ok(sb) => hits_reads(m, sb),
        Err(_) => 0,
    }
}

pub open spec fn chain_hits(m: Map<int, u8>, st: State) -> Result<Hit, ReadFault> {
    match chain(m, st, AnchorKind::Rulesets, score_base_path()) {
        Ok(sb) => hits_at(m, sb),
        Err(f) => Err(f),
    }
}

/// Outcome of reading a signed 32-bit gameplay field `off` past the end of `path`.
pub open spec fn playing_i32(m: Map<int, u8>, st: State, path: Seq<i32>, off: i32) -> (Result<i32, Error>, State) {
    gated(m, st, GameState::Playing, Unavailable::NotPlaying, AnchorKind::Rulesets, |s: State| chain_i32(m, s, AnchorKind::Rulesets, path, off))
}

pub open spec fn playing_i16(m: Map<int, u8>, st: State, path: Seq<i32>, off: i32) -> (Result<i16, Error>, State) {
    gated(m, st, GameState::Playing, Unavailable::NotPlaying, AnchorKind::Rulesets, |s: State| chain_i16(m, s, AnchorKind::Rulesets, path, off))
}

pub open spec fn playing_u64(m: Map<int, u8>, st: State, path: Seq<i32>, off: i32) -> (Result<u64, Error>, State) {
    gated(m, st, GameState::Playing, Unavailable::NotPlaying, AnchorKind::Rulesets, |s: State| chain_u64(m, s, AnchorKind::Rulesets, path, off))
}

pub open spec fn playing_text(m: Map<int, u8>, st: State, path: Seq<i32>, off: i32) -> (Result<Seq<char>, Error>, State) {
    gated(m, st, GameState::Playing, Unavailable::NotPlaying, AnchorKind::Rulesets, |s: State| chain_text(m, s, AnchorKind::Rulesets, path, off))
}

/// The reads of a gameplay field at the end of `path`.
pub open spec fn playing_reads(m: Map<int, u8>, st: State, path: Seq<i32>) -> nat {
    gated_reads(m, st, GameState::Playing, Unavailable::NotPlaying, |s: State| field_reads(m, s, AnchorKind::Rulesets, path))
}

/// The reads of a gameplay string whose pointer is `off` past the end of `path`.
pub open spec fn playing_text_reads(m: Map<int, u8>, st: State, path: Seq<i32>, off: i32) -> nat {
    gated_reads(m, st, GameState::Playing, Unavailable::NotPlaying, |s: State| chain_text_reads(m, s, AnchorKind::Rulesets, path, off))
}

fn playing_read_i32<M: MemoryAccessor>(acc: &mut M, state: &mut State, hops: Vec<i32>, off: i32) -> (r: Result<i32, Error>)
    ensures
        (r, *final(state)) == playing_i32(old(acc).memory(), *old(state), hops@, off),
        final(acc).read_count() == old(acc).read_count() + playing_reads(old(acc).memory(), *old(state), hops@),
        r is Err && r->Err_0 is NotAvailable ==> final(acc).read_count() == old(acc).read_count() + anchor_cost(*old(state), AnchorKind::Status) + 2,
        final(acc).memory() == old(acc).memory(),
{
    require_state(acc, state, GameState::Playing, Unavailable::NotPlaying)?;
    chain_read_i32(acc, state, AnchorKind::Rulesets, hops.as_slice(), off)
}

fn playing_read_i16<M: MemoryAccessor>(acc: &mut M, state: &mut State, hops: Vec<i32>, off: i32) -> (r: Result<i16, Error>)
    ensures
        (r, *final(state)) == playing_i16(old(acc).memory(), *old(state), hops@, off),
        final(acc).read_count() == old(acc).read_count() + playing_reads(old(acc).memory(), *old(state), hops@),
        r is Err && r->Err_0 is NotAvailable ==> final(acc).read_count() == old(acc).read_count() + anchor_cost(*old(state), AnchorKind::Status) + 2,
        final(acc).memory() == old(acc).memory(),
{
    require_state(acc, state, GameState::Playing, Unavailable::NotPlaying)?;
    chain_read_i16(acc, state, AnchorKind::Rulesets, hops.as_slice(), off)
}

/// The address of the ruleset slot; needs the playing state.
pub fn rulesets_addr<M: MemoryAccessor>(acc: &mut M, state: &mut State) -> (r: Result<i32, Error>)
    ensures
        (r, *final(state)) == playing_i32(old(acc).memory(), *old(state), seq![], RULESET_PTR),
        final(acc).read_count() == old(acc).read_count() + playing_reads(old(acc).memory(), *old(state), seq![]),
        r is Err && r->Err_0 is NotAvailable ==> final(acc).read_count() == old(acc).read_count() + anchor_cost(*old(state), AnchorKind::Status) + 2,
        final(acc).memory() == old(acc).memory(),
{
    let hops: Vec<i32> = Vec::new();
    playing_read_i32(acc, state, hops, RULESET_PTR)
}

/// The address of the active ruleset; needs the playing state.
pub fn ruleset_addr<M: MemoryAccessor>(acc: &mut M, state: &mut State) -> (r: Result<i32, Error>)
    ensures
        (r, *final(state)) == playing_i32(old(acc).memory(), *old(state), seq![RULESET_PTR], RULESET_ADDR),
        final(acc).read_count() == old(acc).read_count() + playing_reads(old(acc).memory(), *old(state), seq![RULESET_PTR]),
        r is Err && r->Err_0 is NotAvailable ==> final(acc).read_count() == old(acc).read_count() + anchor_cost(*old(state), AnchorKind::Status) + 2,
        final(acc).memory() == old(acc).memory(),
{
    let hops = vec![RULESET_PTR];
    assert(hops@ =~= seq![RULESET_PTR]);
    playing_read_i32(acc, state, hops, RULESET_ADDR)
}

/// The address of the gameplay block; needs the playing state.
pub fn gameplay_base<M: MemoryAccessor>(acc: &mut M, state: &mut State) -> (r: Result<i32, Error>)
    ensures
        (r, *final(state)) == playing_i32(old(acc).memory(), *old(state), ruleset_path(), GAMEPLAY_BASE),
        final(acc).read_count() == old(acc).read_count() + playing_reads(old(acc).memory(), *old(state), ruleset_path()),
        r is Err && r->Err_0 is NotAvailable ==> final(acc).read_count() == old(acc).read_count() + anchor_cost(*old(state), AnchorKind::Status) + 2,
        final(acc).memory() == old(acc).memory(),
{
    playing_read_i32(acc, state, ruleset_hops(), GAMEPLAY_BASE)
}

/// The address of the score block; needs the playing state.
pub fn score_base<M: MemoryAccessor>(acc: &mut M, state: &mut State) -> (r: Result<i32, Error>)
    ensures
        (r, *final(state)) == playing_i32(old(acc).memory(), *old(state), gameplay_base_path(), SCORE_BASE),
        final(acc).read_count() == old(acc).read_count() + playing_reads(old(acc).memory(), *old(state), gameplay_base_path()),
        r is Err && r->Err_0 is NotAvailable ==> final(acc).read_count() == old(acc).read_count() + anchor_cost(*old(state), AnchorKind::Status) + 2,
        final(acc).memory() == old(acc).memory(),
{
    playing_read_i32(acc, state, gameplay_base_hops(), SCORE_BASE)
}

/// The address of the health block; needs the playing state.
pub fn hp_base<M: MemoryAccessor>(acc: &mut M, state: &mut State) -> (r: Result<i32, Error>)
    ensures
        (r, *final(state)) == playing_i32(old(acc).memory(), *old(state), gameplay_base_path(), HP_BASE),
        final(acc).read_count() == old(acc).read_count() + playing_reads(old(acc).memory(), *old(state), gameplay_base_path()),
        r is Err && r->Err_0 is NotAvailable ==> final(acc).read_count() == old(acc).read_count() + anchor_cost(*old(state), AnchorKind::Status) + 2,
        final(acc).memory() == old(acc).memory(),
{
    playing_read_i32(acc, state, gameplay_base_hops(), HP_BASE)
}

/// The address of the mods block; needs the playing state.
pub fn mods_xor_base<M: MemoryAccessor>(acc: &mut M, state: &mut State) -> (r: Result<i32, Error>)
    ensures
        (r, *final(state)) == playing_i32(old(acc).memory(), *old(state), score_base_path(), MODS),
        final(acc).read_count() == old(acc).read_count() + playing_reads(old(acc).memory(), *old(state), score_base_path()),
        r is Err && r->Err_0 is NotAvailable ==> final(acc).read_count() == old(acc).read_count() + anchor_cost(*old(state), AnchorKind::Status) + 2,
        final(acc).memory() == old(acc).memory(),
{
    playing_read_i32(acc, state, score_base_hops(), MODS)
}

/// The current score; needs the playing state.
pub fn score<M: MemoryAccessor>(acc: &mut M, state: &mut State) -> (r: Result<i32, Error>)
    ensures
        (r, *final(state)) == playing_i32(old(acc).memory(), *old(state), score_base_path(), SCORE),
        final(acc).read_count() == old(acc).read_count() + playing_reads(old(acc).memory(), *old(state), score_base_path()),
        r is Err && r->Err_0 is NotAvailable ==> final(acc).read_count() == old(acc).read_count() + anchor_cost(*old(state), AnchorKind::Status) + 2,
        final(acc).memory() == old(acc).memory(),
{
    playing_read_i32(acc, state, score_base_hops(), SCORE)
}

/// The first stored half of the mods; needs the playing state.
pub fn mods_xor1<M: MemoryAccessor>(acc: &mut M, state: &mut State) -> (r: Result<u64, Error>)
    ensures
        (r, *final(state)) == playing_u64(old(acc).memory(), *old(state), mods_base_path(), MODS_XOR),
        final(acc).read_count() == old(acc).read_count() + playing_reads(old(acc).memory(), *old(state), mods_base_path()),
        r is Err && r->Err_0 is NotAvailable ==> final(acc).read_count() == old(acc).read_count() + anchor_cost(*old(state), AnchorKind::Status) + 2,
        final(acc).memory() == old(acc).memory(),
{
    require_state(acc, state, GameState::Playing, Unavailable::NotPlaying)?;
    let hops = mods_base_hops();
    crate::chain::chain_read_u64(acc, state, AnchorKind::Rulesets, hops.as_slice(), MODS_XOR)
}

/// The second stored half of the mods; needs the playing state.
pub fn mods_xor2<M: MemoryAccessor>(acc: &mut M, state: &mut State) -> (r: Result<u64, Error>)
    ensures
        (r, *final(state)) == playing_u64(old(acc).memory(), *old(state), mods_base_path(), MODS_XOR2),
        final(acc).read_count() == old(acc).read_count() + playing_reads(old(acc).memory(), *old(state), mods_base_path()),
        r is Err && r->Err_0 is NotAvailable ==> final(acc).read_count() == old(acc).read_count() + anchor_cost(*old(state), AnchorKind::Status) + 2,
        final(acc).memory() == old(acc).memory(),
{
    require_state(acc, state, GameState::Playing, Unavailable::NotPlaying)?;
    let hops = mods_base_hops();
    crate::chain::chain_read_u64(acc, state, AnchorKind::Rulesets, hops.as_slice(), MODS_XOR2)
}

/// The active mods; needs the playing state.
pub fn mods<M: MemoryAccessor>(acc: &mut M, state: &mut State) -> (r: Result<u32, Error>)
    ensures
        (r, *final(state)) == gated(old(acc).memory(), *old(state), GameState::Playing, Unavailable::NotPlaying, AnchorKind::Rulesets, |s: State| chain_mods(old(acc).memory(), s)),
        final(acc).read_count() == old(acc).read_count() + gated_reads(old(acc).memory(), *old(state), GameState::Playing, Unavailable::NotPlaying, |s: State| chain_mods_reads(old(acc).memory(), s)),
        r is Err && r->Err_0 is NotAvailable ==> final(acc).read_count() == old(acc).read_count() + anchor_cost(*old(state), AnchorKind::Status) + 2,
        final(acc).memory() == old(acc).memory(),
{
    require_state(acc, state, GameState::Playing, Unavailable::NotPlaying)?;
    let hops = mods_base_hops();
    let mb = resolve(acc, state, AnchorKind::Rulesets, hops.as_slice())?;
    match read_mods_at(acc, mb) {
        Ok(v) => Ok(v),
        Err(f) => {
            state.invalidate(AnchorKind::Rulesets);
            Err(Error::MemoryRead(f))
        },
    }
}

/// The current combo; needs the playing state.
pub fn combo<M: MemoryAccessor>(acc: &mut M, state: &mut State) -> (r: Result<i16, Error>)
    ensures
        (r, *final(state)) == playing_i16(old(acc).memory(), *old(state), score_base_path(), COMBO),
        final(acc).read_count() == old(acc).read_count() + playing_reads(old(acc).memory(), *old(state), score_base_path()),
        r is Err && r->Err_0 is NotAvailable ==> final(acc).read_count() == old(acc).read_count() + anchor_cost(*old(state), AnchorKind::Status) + 2,
        final(acc).memory() == old(acc).memory(),
{
    playing_read_i16(acc, state, score_base_hops(), COMBO)
}

/// The highest combo of the play so far; needs the playing state.
pub fn max_combo<M: MemoryAccessor>(acc: &mut M, state: &mut State) -> (r: Result<i16, Error>)
    ensures
        (r, *final(state)) == playing_i16(old(acc).memory(), *old(state), score_base_path(), MAX_COMBO),
        final(acc).read_count() == old(acc).read_count() + playing_reads(old(acc).memory(), *old(state), score_base_path()),
        r is Err && r->Err_0 is NotAvailable ==> final(acc).read_count() == old(acc).read_count() + anchor_cost(*old(state), AnchorKind::Status) + 2,
        final(acc).memory() == old(acc).memory(),
{
    playing_read_i16(acc, state, score_base_hops(), MAX_COMBO)
}

/// The health value as the bits of an IEEE-754 double; needs the playing state.
pub fn hp<M: MemoryAccessor>(acc: &mut M, state: &mut State) -> (r: Result<u64, Error>)
    ensures
        (r, *final(state)) == playing_u64(old(acc).memory(), *old(state), hp_base_path(), HP),
        final(acc).read_count() == old(acc).read_count() + playing_reads(old(acc).memory(), *old(state), hp_base_path()),
        r is Err && r->Err_0 is NotAvailable ==> final(acc).read_count() == old(acc).read_count() + anchor_cost(*old(state), AnchorKind::Status) + 2,
        final(acc).memory() == old(acc).memory(),
{
    require_state(acc, state, GameState::Playing, Unavailable::NotPlaying)?;
    let hops = hp_base_hops();
    crate::chain::chain_read_u64(acc, state, AnchorKind::Rulesets, hops.as_slice(), HP)
}

/// The name of the player; needs the playing state.
pub fn username<M: MemoryAccessor>(acc: &mut M, state: &mut State) -> (r: Result<String, Error>)
    ensures
        (text_result(r), *final(state)) == playing_text(old(acc).memory(), *old(state), score_base_path(), USERNAME),
        final(acc).memory() == old(acc).memory(),
        final(acc).read_count() == old(acc).read_count() + playing_text_reads(old(acc).memory(), *old(state), score_base_path(), USERNAME),
        r is Err && r->Err_0 is NotAvailable ==> final(acc).read_count() == old(acc).read_count() + anchor_cost(*old(state), AnchorKind::Status) + 2,
{
    require_state(acc, state, GameState::Playing, Unavailable::NotPlaying)?;
    let hops = score_base_hops();
    chain_read_string(acc, state, AnchorKind::Rulesets, hops.as_slice(), USERNAME)
}

pub fn hits_300<M: MemoryAccessor>(acc: &mut M, state: &mut State) -> (r: Result<i16, Error>)
    ensures
        (r, *final(state)) == playing_i16(old(acc).memory(), *old(state), score_base_path(), HITS_300),
        final(acc).read_count() == old(acc).read_count() + playing_reads(old(acc).memory(), *old(state), score_base_path()),
        r is Err && r->Err_0 is NotAvailable ==> final(acc).read_count() == old(acc).read_count() + anchor_cost(*old(state), AnchorKind::Status) + 2,
        final(acc).memory() == old(acc).memory(),
{
    playing_read_i16(acc, state, score_base_hops(), HITS_300)
}

pub fn hits_100<M: MemoryAccessor>(acc: &mut M, state: &mut State) -> (r: Result<i16, Error>)
    ensures
        (r, *final(state)) == playing_i16(old(acc).memory(), *old(state), score_base_path(), HITS_100),
        final(acc).read_count() == old(acc).read_count() + playing_reads(old(acc).memory(), *old(state), score_base_path()),
        r is Err && r->Err_0 is NotAvailable ==> final(acc).read_count() == old(acc).read_count() + anchor_cost(*old(state), AnchorKind::Status) + 2,
        final(acc).memory() == old(acc).memory(),
{
    playing_read_i16(acc, state, score_base_hops(), HITS_100)
}

pub fn hits_50<M: MemoryAccessor>(acc: &mut M, state: &mut State) -> (r: Result<i16, Error>)
    ensures
        (r, *final(state)) == playing_i16(old(acc).memory(), *old(state), score_base_path(), HITS_50),
        final(acc).read_count() == old(acc).read_count() + playing_reads(old(acc).memory(), *old(state), score_base_path()),
        r is Err && r->Err_0 is NotAvailable ==> final(acc).read_count() == old(acc).read_count() + anchor_cost(*old(state), AnchorKind::Status) + 2,
        final(acc).memory() == old(acc).memory(),
{
    playing_read_i16(acc, state, score_base_hops(), HITS_50)
}

pub fn hits_miss<M: MemoryAccessor>(acc: &mut M, state: &mut State) -> (r: Result<i16, Error>)
    ensures
        (r, *final(state)) == playing_i16(old(acc).memory(), *old(state), score_base_path(), HITS_MISS),
        final(acc).read_count() == old(acc).read_count() + playing_reads(old(acc).memory(), *old(state), score_base_path()),
        r is Err && r->Err_0 is NotAvailable ==> final(acc).read_count() == old(acc).read_count() + anchor_cost(*old(state), AnchorKind::Status) + 2,
        final(acc).memory() == old(acc).memory(),
{
    playing_read_i16(acc, state, score_base_hops(), HITS_MISS)
}

pub fn hits_geki<M: MemoryAccessor>(acc: &mut M, state: &mut State) -> (r: Result<i16, Error>)
    ensures
        (r, *final(state)) == playing_i16(old(acc).memory(), *old(state), score_base_path(), HITS_GEKI),
        final(acc).read_count() == old(acc).read_count() + playing_reads(old(acc).memory(), *old(state), score_base_path()),
        r is Err && r->Err_0 is NotAvailable ==> final(acc).read_count() == old(acc).read_count() + anchor_cost(*old(state), AnchorKind::Status) + 2,
        final(acc).memory() == old(acc).memory(),
{
    playing_read_i16(acc, state, score_base_hops(), HITS_GEKI)
}

pub fn hits_katu<M: MemoryAccessor>(acc: &mut M, state: &mut State) -> (r: Result<i16, Error>)
    ensures
        (r, *final(state)) == playing_i16(old(acc).memory(), *old(state), score_base_path(), HITS_KATU),
        final(acc).read_count() == old(acc).read_count() + playing_reads(old(acc).memory(), *old(state), score_base_path()),
        r is Err && r->Err_0 is NotAvailable ==> final(acc).read_count() == old(acc).read_count() + anchor_cost(*old(state), AnchorKind::Status) + 2,
        final(acc).memory() == old(acc).memory(),
{
    playing_read_i16(acc, state, score_base_hops(), HITS_KATU)
}

/// The in-game time; readable in any state.
pub fn game_time<M: MemoryAccessor>(acc: &mut M, state: &mut State) -> (r: Result<i32, Error>)
    ensures
        r == lift(chain_i32(old(acc).memory(), *old(state), AnchorKind::Playtime, playtime_path(), 0)),
        *final(state) == settle(old(acc).memory(), *old(state), AnchorKind::Playtime, r is Ok),
        final(acc).memory() == old(acc).memory(),
        final(acc).read_count() == old(acc).read_count() + field_reads(old(acc).memory(), *old(state), AnchorKind::Playtime, playtime_path()),
        r is Ok ==> final(acc).read_count() == old(acc).read_count() + anchor_cost(*old(state), AnchorKind::Playtime) + 2,
{
    let hops = playtime_hops();
    chain_read_i32(acc, state, AnchorKind::Playtime, hops.as_slice(), 0)
}

/// How many times the current map was retried; readable in any state.
pub fn retries<M: MemoryAccessor>(acc: &mut M, state: &mut State) -> (r: Result<i32, Error>)
    ensures
        r == lift(chain_i32(old(acc).memory(), *old(state), AnchorKind::Base, menu_path(), MENU_RETRIES)),
        *final(state) == settle(old(acc).memory(), *old(state), AnchorKind::Base, r is Ok),
        final(acc).memory() == old(acc).memory(),
        final(acc).read_count() == old(acc).read_count() + field_reads(old(acc).memory(), *old(state), AnchorKind::Base, menu_path()),
        r is Ok ==> final(acc).read_count() == old(acc).read_count() + anchor_cost(*old(state), AnchorKind::Base) + 2,
{
    let hops = menu_hops();
    chain_read_i32(acc, state, AnchorKind::Base, hops.as_slice(), MENU_RETRIES)
}

/// The hit counts of the play; needs the playing state.
pub fn hits<M: MemoryAccessor>(acc: &mut M, state: &mut State) -> (r: Result<Hit, Error>)
    ensures
        (r, *final(state)) == gated(old(acc).memory(), *old(state), GameState::Playing, Unavailable::NotPlaying, AnchorKind::Rulesets, |s: State| chain_hits(old(acc).memory(), s)),
        final(acc).read_count() == old(acc).read_count() + gated_reads(old(acc).memory(), *old(state), GameState::Playing, Unavailable::NotPlaying, |s: State| chain_hits_reads(old(acc).memory(), s)),
        r is Err && r->Err_0 is NotAvailable ==> final(acc).read_count() == old(acc).read_count() + anchor_cost(*old(state), AnchorKind::Status) + 2,
        final(acc).memory() == old(acc).memory(),
{
    require_state(acc, state, GameState::Playing, Unavailable::NotPlaying)?;
    let hops = score_base_hops();
    let sb = resolve(acc, state, AnchorKind::Rulesets, hops.as_slice())?;
    match read_hits_at(acc, sb) {
        Ok(h) => Ok(h),
        Err(f) => {
            state.invalidate(AnchorKind::Rulesets);
            Err(Error::MemoryRead(f))
        },
    }
}

/// The fields stored behind the gameplay block at `gb`; the in-game time
/// and the retries, which lie elsewhere, are left at zero.
pub open spec fn gameplay_core_at(m: Map<int, u8>, gb: i32) -> Result<GameplaySnapshot, ReadFault> {
    match i32_at(m, offset_addr(gb, SCORE_BASE)) {
        Err(f) => Err(f),
        Ok(sb) => match i32_at(m, offset_addr(gb, HP_BASE)) {
            Err(f) => Err(f),
            Ok(hb) => match i32_at(m, offset_addr(sb, MODS)) {
                Err(f) => Err(f),
                Ok(mb) => match i32_at(m, offset_addr(sb, SCORE)) {
                    Err(f) => Err(f),
                    Ok(score) => match mods_at(m, mb) {
                        Err(f) => Err(f),
                        Ok(mods) => match i16_at(m, offset_addr(sb, COMBO)) {
                            Err(f) => Err(f),
                            Ok(combo) => match i16_at(m, offset_addr(sb, MAX_COMBO)) {
                                Err(f) => Err(f),
                                Ok(max_combo) => match u64_at(m, offset_addr(hb, HP)) {
                                    Err(f) => Err(f),
                                    Ok(hp) => match text_at(m, offset_addr(sb, USERNAME)) {
                                        Err(f) => Err(f),
                                        Ok(username) => match hits_at(m, sb) {
                                            Err(f) => Err(f),
                                            Ok(hits) => Ok(GameplaySnapshot {
                                                score,
                                                mods,
                                                combo,
                                                max_combo,
                                                hp,
                                                username,
                                                ig_time: 0,
                                                retries: 0,
                                                hits,
                                            }),
                                        },
                                    },
                                },
                            },
                        },
                    },
                },
            },
        },
    }
}

/// The reads that reading the fields behind the gameplay block at `gb`
/// makes, in the order of `gameplay_core_at`, up to the first failure.
pub open spec fn gameplay_core_reads(m: Map<int, u8>, gb: i32) -> nat {
    match i32_at(m, offset_addr(gb, SCORE_BASE)) {
        Err(_) => 1,
        Ok(sb) => match i32_at(m, offset_addr(gb, HP_BASE)) {
            Err(_) => 2,
            Ok(hb) => match i32_at(m, offset_addr(sb, MODS)) {
                Err(_) => 3,
                Ok(mb) => if i32_at(m, offset_addr(sb, SCORE)) is Err {
                    4
                } else if mods_at(m, mb) is Err {
                    4 + mods_reads(m, mb)
                } else if i16_at(m, offset_addr(sb, COMBO)) is Err {
                    7
                } else if i16_at(m, offset_addr(sb, MAX_COMBO)) is Err {
                    8
                } else if u64_at(m, offset_addr(hb, HP)) is Err {
                    9
                } else if text_at(m, offset_addr(sb, USERNAME)) is Err {
                    9 + text_reads(m, offset_addr(sb, USERNAME))
                } else {
                    12 + hits_reads(m, sb)
                },
            },
        },
    }
}

#[verifier::rlimit(30)]
fn read_gameplay_core<M: MemoryAccessor>(acc: &mut M, gb: i32) -> (r: Result<GameplayInfo, ReadFault>)
    ensures
        match r {
            Ok(i) => gameplay_core_at(old(acc).memory(), gb) == Ok::<GameplaySnapshot, ReadFault>(i.snapshot()),
            Err(f) => gameplay_core_at(old(acc).memory(), gb) == Err::<GameplaySnapshot, ReadFault>(f),
        },
        final(acc).memory() == old(acc).memory(),
        final(acc).read_count() == old(acc).read_count() + gameplay_core_reads(old(acc).memory(), gb),
        r is Ok ==> gameplay_core_reads(old(acc).memory(), gb) == 18,
{
    let sb = read_i32(acc, add_offset(gb, SCORE_BASE))?;
    let hb = read_i32(acc, add_offset(gb, HP_BASE))?;
    let mb = read_i32(acc, add_offset(sb, MODS))?;
    let score = read_i32(acc, add_offset(sb, SCORE))?;
    let mods = read_mods_at(acc, mb)?;
    let combo = read_i16(acc, add_offset(sb, COMBO))?;
    let max_combo = read_i16(acc, add_offset(sb, MAX_COMBO))?;
    let hp = read_u64(acc, add_offset(hb, HP))?;
    let username = read_string(acc, add_offset(sb, USERNAME))?;
    let hits = read_hits_at(acc, sb)?;
    Ok(GameplayInfo { score, mods, combo, max_combo, hp, username, ig_time: 0, retries: 0, hits })
}

/// The result and the state after a gameplay snapshot: the game state check, then every
/// field behind the gameplay block, then the in-game time, then the retries.
pub open spec fn gameplay_info_outcome(m: Map<int, u8>, st: State) -> (Result<GameplaySnapshot, Error>, State) {
    let st1 = gate_state(m, st);
    match gate_outcome(m, st, GameState::Playing, Unavailable::NotPlaying) {
        Err(e) => (Err(e), st1),
        Ok(_) => {
            let core = match chain(m, st1, AnchorKind::Rulesets, gameplay_base_path()) {
                Ok(gb) => gameplay_core_at(m, gb),
                Err(f) => Err(f),
            };
            let st2 = settle(m, st1, AnchorKind::Rulesets, core is Ok);
            match core {
                Err(f) => (Err(Error::MemoryRead(f)), st2),
                Ok(c) => {
                    let t = chain_i32(m, st2, AnchorKind::Playtime, playtime_path(), 0);
                    let st3 = settle(m, st2, AnchorKind::Playtime, t is Ok);
                    match t {
                        Err(f) => (Err(Error::MemoryRead(f)), st3),
                        Ok(ig_time) => {
                            let rt = chain_i32(m, st3, AnchorKind::Base, menu_path(), MENU_RETRIES);
                            let st4 = settle(m, st3, AnchorKind::Base, rt is Ok);
                            match rt {
                                Err(f) => (Err(Error::MemoryRead(f)), st4),
                                Ok(retries) => (Ok(GameplaySnapshot { ig_time, retries, ..c }), st4),
                            }
                        },
                    }
                },
            }
        },
    }
}

/// The reads that a gameplay snapshot makes, in the order of
/// `gameplay_info_outcome`, up to the first failure.
pub open spec fn gameplay_info_outcome_reads(m: Map<int, u8>, st: State) -> nat {
    let st1 = gate_state(m, st);
    status_reads(m, st) + if gate_outcome(m, st, GameState::Playing, Unavailable::NotPlaying) is Err {
        0
    } else {
        chain_reads(m, st1, AnchorKind::Rulesets, gameplay_base_path()) + match chain(m, st1, AnchorKind::Rulesets, gameplay_base_path()) {
            Err(_) => 0,
            Ok(gb) => gameplay_core_reads(m, gb) + if gameplay_core_at(m, gb) is Err {
                0
            } else {
                let st2 = settle(m, st1, AnchorKind::Rulesets, true);
                field_reads(m, st2, AnchorKind::Playtime, playtime_path()) + if chain_i32(m, st2, AnchorKind::Playtime, playtime_path(), 0) is Err {
                    0
                } else {
                    let st3 = settle(m, st2, AnchorKind::Playtime, true);
                    field_reads(m, st3, AnchorKind::Base, menu_path())
                }
            },
        }
    }
}

/// The reads that a gameplay snapshot makes besides deriving anchors: two
/// for the state check, three to reach the gameplay block, eighteen for the fields
/// behind it, two for the in-game time and two for the retries.
pub open spec fn gameplay_info_reads() -> nat {
    27
}

/// A snapshot of every gameplay field; needs the playing state.
///
/// The gameplay block is resolved once and every field behind it is read
/// from there, so the number of reads does not grow with the fields.
#[verifier::rlimit(50)]
pub fn info<M: MemoryAccessor>(acc: &mut M, state: &mut State) -> (r: Result<GameplayInfo, Error>)
    ensures
        match r {
            Ok(i) => gameplay_info_outcome(old(acc).memory(), *old(state)).0 == Ok::<GameplaySnapshot, Error>(i.snapshot()),
            Err(e) => gameplay_info_outcome(old(acc).memory(), *old(state)).0 == Err::<GameplaySnapshot, Error>(e),
        },
        *final(state) == gameplay_info_outcome(old(acc).memory(), *old(state)).1,
        final(acc).memory() == old(acc).memory(),
        final(acc).read_count() == old(acc).read_count() + gameplay_info_outcome_reads(old(acc).memory(), *old(state)),
        r is Err && r->Err_0 is NotAvailable ==> final(acc).read_count() == old(acc).read_count() + anchor_cost(*old(state), AnchorKind::Status) + 2,
        r is Ok ==> final(acc).read_count() == old(acc).read_count() + gameplay_info_reads()
            + anchor_cost(*old(state), AnchorKind::Status) + anchor_cost(*old(state), AnchorKind::Rulesets)
            + anchor_cost(*old(state), AnchorKind::Playtime) + anchor_cost(*old(state), AnchorKind::Base),
{
    require_state(acc, state, GameState::Playing, Unavailable::NotPlaying)?;
    let hops = gameplay_base_hops();
    let gb = resolve(acc, state, AnchorKind::Rulesets, hops.as_slice())?;
    let core = match read_gameplay_core(acc, gb) {
        Ok(c) => c,
        Err(f) => {
            state.invalidate(AnchorKind::Rulesets);
            return Err(Error::MemoryRead(f));
        },
    };
    let ig_time = game_time(acc, state)?;
    let retries = retries(acc, state)?;
    Ok(GameplayInfo { ig_time, retries, ..core })
}

} // verus!
