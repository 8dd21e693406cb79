use vstd::prelude::*;

use crate::chain::{chain, chain_reads, chain_text_reads, field_reads, chain_i16, chain_i32, chain_read_i16, chain_read_i32, chain_read_string, chain_text, resolve, text_result};
use crate::common::{game_mode_of, GameMode, GameState, Hit};
use crate::decode::{decode_i16, field_bytes, le_signed};
use crate::error::{Error, ReadFault, Unavailable};
use crate::gameplay::{hits_at};
use crate::gate::{gated, gated_reads, require_state};
use crate::memory::{add_offset, byte_addr, bytes_at, lemma_byte_addr_offset, mapped, offset_addr, MemoryAccessor};
use crate::offsets::{
    HITS_100, HITS_300, HITS_50, HITS_GEKI, HITS_KATU, HITS_MISS, MAX_COMBO, MODE,
    RESULT_SCREEN_BASE, RULESET_ADDR, RULESET_PTR, SCORE, USERNAME,
};
use crate::read::{text_reads, i16_at, i32_at, read_i32, read_string, text_at};
use crate::state::{anchor_cost, AnchorKind, State};

verus! {

/// A point-in-time snapshot of the result screen.
#[derive(Debug, Clone, PartialEq, Eq)]
pub struct ResultScreenInfo {
    pub username: String,
    pub mode: GameMode,
    pub max_combo: i16,
    pub score: i32,
    pub hits: Hit,
}

/// The content of a `ResultScreenInfo`.
pub struct ResultScreenSnapshot {
    pub username: Seq<char>,
    pub mode: GameMode,
    pub max_combo: i16,
    pub score: i32,
    pub hits: Hit,
}

impl ResultScreenInfo {
    pub open spec fn snapshot(&self) -> ResultScreenSnapshot {
        ResultScreenSnapshot {
            username: self.username@,
            mode: self.mode,
            max_combo: self.max_combo,
            score: self.score,
            hits: self.hits,
        }
    }
}

/// Length of the block of hit counts: six 16-bit counts.
pub const HITS_BLOCK_LEN: usize = 12;

pub open spec fn result_base_path() -> Seq<i32> {
    seq![RULESET_PTR, RULESET_ADDR, RESULT_SCREEN_BASE]
}

fn result_base_hops() -> (r: Vec<i32>)
    ensures
        r@ == result_base_path(),
{
    let r = vec![RULESET_PTR, RULESET_ADDR, RESULT_SCREEN_BASE];
    assert(r@ =~= result_base_path());
    r
}

/// The hit counts of the result screen block at `base`, taken from one read
/// of the contiguous block: 100, 300, 50, geki, katu, miss.
pub open spec fn bulk_hits_at(m: Map<int, u8>, base: i32) -> Result<Hit, ReadFault> {
    match bytes_at(m, offset_addr(base, HITS_100), HITS_BLOCK_LEN as nat) {
        Err(f) => Err(f),
        Ok(b) => Ok(Hit {
            _100: le_signed(field_bytes(b, 0, 2)) as i16,
            _300: le_signed(field_bytes(b, 2, 2)) as i16,
            _50: le_signed(field_bytes(b, 4, 2)) as i16,
            _geki: le_signed(field_bytes(b, 6, 2)) as i16,
            _katu: le_signed(field_bytes(b, 8, 2)) as i16,
            _miss: le_signed(field_bytes(b, 10, 2)) as i16,
        }),
    }
}

/// Reads the hit counts of the block at `base` in one read.
pub fn read_bulk_hits_at<M: MemoryAccessor>(acc: &mut M, base: i32) -> (r: Result<Hit, ReadFault>)
    ensures
        r == bulk_hits_at(old(acc).memory(), base),
        final(acc).memory() == old(acc).memory(),
        final(acc).read_count() == old(acc).read_count() + 1,
{
    let b = acc.read_bytes(add_offset(base, HITS_100), HITS_BLOCK_LEN)?;
    Ok(Hit {
        _100: decode_i16(&b, 0),
        _300: decode_i16(&b, 2),
        _50: decode_i16(&b, 4),
        _geki: decode_i16(&b, 6),
        _katu: decode_i16(&b, 8),
        _miss: decode_i16(&b, 10),
    })
}

proof fn lemma_field_of_block(m: Map<int, u8>, base: i32, off: i32, k: int)
    requires
        0 <= k < 6,
        off == HITS_100 + 2 * k,
        mapped(m, offset_addr(base, HITS_100), 12),
    ensures
        bytes_at(m, offset_addr(base, off), 2) == Ok::<Seq<u8>, ReadFault>(
            field_bytes(bytes_at(m, offset_addr(base, HITS_100), 12)->Ok_0, 2 * k, 2),
        ),
{
    let a = offset_addr(base, HITS_100);
    assert forall|i: int| 0 <= i < 2 implies byte_addr(offset_addr(base, off), i) == byte_addr(a, 2 * k + i) by {
        lemma_byte_addr_offset(base, off, i);
        lemma_byte_addr_offset(base, HITS_100, 2 * k + i);
    };
    assert forall|i: int| 0 <= i < 2 implies #[trigger] m.dom().contains(byte_addr(offset_addr(base, off), i)) by {
        assert(m.dom().contains(byte_addr(a, 2 * k + i)));
    };
    let whole = bytes_at(m, a, 12)->Ok_0;
    assert(bytes_at(m, offset_addr(base, off), 2)->Ok_0 =~= field_bytes(whole, 2 * k, 2));
}

/// Reading the six hit counts as one block gives what six separate reads
/// give: both succeed on the same memory, with the same counts.
pub proof fn lemma_bulk_hits_match(m: Map<int, u8>, base: i32)
    ensures
        bulk_hits_at(m, base) is Ok <==> hits_at(m, base) is Ok,
        bulk_hits_at(m, base) is Ok ==> bulk_hits_at(m, base) == hits_at(m, base),
{
    let a = offset_addr(base, HITS_100);
    if mapped(m, a, 12) {
        lemma_field_of_block(m, base, HITS_100, 0);
        lemma_field_of_block(m, base, HITS_300, 1);
        lemma_field_of_block(m, base, HITS_50, 2);
        lemma_field_of_block(m, base, HITS_GEKI, 3);
        lemma_field_of_block(m, base, HITS_KATU, 4);
        lemma_field_of_block(m, base, HITS_MISS, 5);
    } else {
        let i = choose|i: int| 0 <= i < 12 && !#[trigger] m.dom().contains(byte_addr(a, i));
        let k = i / 2;
        let off = (HITS_100 + 2 * k) as i32;
        lemma_byte_addr_offset(base, off, i - 2 * k);
        lemma_byte_addr_offset(base, HITS_100, i);
        assert(byte_addr(offset_addr(base, off), i - 2 * k) == byte_addr(a, i));
        assert(!mapped(m, offset_addr(base, off), 2));
        assert(hits_at(m, base) is Err);
    }
}

pub open spec fn screen_i32(m: Map<int, u8>, st: State, path: Seq<i32>, off: i32) -> (Result<i32, Error>, State) {
    gated(m, st, GameState::ResultScreen, Unavailable::NotInResultScreen, AnchorKind::Rulesets, |s: State| chain_i32(m, s, AnchorKind::Rulesets, path, off))
}

pub open spec fn screen_i16(m: Map<int, u8>, st: State, path: Seq<i32>, off: i32) -> (Result<i16, Error>, State) {
    gated(m, st, GameState::ResultScreen, Unavailable::NotInResultScreen, AnchorKind::Rulesets, |s: State| chain_i16(m, s, AnchorKind::Rulesets, path, off))
}

/// The reads of a result screen field at the end of `path`.
pub open spec fn screen_reads(m: Map<int, u8>, st: State, path: Seq<i32>) -> nat {
    gated_reads(m, st, GameState::ResultScreen, Unavailable::NotInResultScreen, |s: State| field_reads(m, s, AnchorKind::Rulesets, path))
}

fn screen_read_i32<M: MemoryAccessor>(acc: &mut M, state: &mut State, hops: Vec<i32>, off: i32) -> (r: Result<i32, Error>)
    ensures
        (r, *final(state)) == screen_i32(old(acc).memory(), *old(state), hops@, off),
        final(acc).read_count() == old(acc).read_count() + screen_reads(old(acc).memory(), *old(state), hops@),
        r is Err && r->Err_0 is NotAvailable ==> final(acc).read_count() == old(acc).read_count() + anchor_cost(*old(state), AnchorKind::Status) + 2,
        final(acc).memory() == old(acc).memory(),
{
    require_state(acc, state, GameState::ResultScreen, Unavailable::NotInResultScreen)?;
    chain_read_i32(acc, state, AnchorKind::Rulesets, hops.as_slice(), off)
}

fn screen_read_i16<M: MemoryAccessor>(acc: &mut M, state: &mut State, off: i32) -> (r: Result<i16, Error>)
    ensures
        (r, *final(state)) == screen_i16(old(acc).memory(), *old(state), result_base_path(), off),
        final(acc).read_count() == old(acc).read_count() + screen_reads(old(acc).memory(), *old(state), result_base_path()),
        r is Err && r->Err_0 is NotAvailable ==> final(acc).read_count() == old(acc).read_count() + anchor_cost(*old(state), AnchorKind::Status) + 2,
        final(acc).memory() == old(acc).memory(),
{
    require_state(acc, state, GameState::ResultScreen, Unavailable::NotInResultScreen)?;
    let hops = result_base_hops();
    chain_read_i16(acc, state, AnchorKind::Rulesets, hops.as_slice(), off)
}

/// The address of the ruleset slot; needs the result screen.
pub fn result_screen_ptr<M: MemoryAccessor>(acc: &mut M, state: &mut State) -> (r: Result<i32, Error>)
    ensures
        (r, *final(state)) == screen_i32(old(acc).memory(), *old(state), seq![], RULESET_PTR),
        final(acc).read_count() == old(acc).read_count() + screen_reads(old(acc).memory(), *old(state), seq![]),
        r is Err && r->Err_0 is NotAvailable ==> final(acc).read_count() == old(acc).read_count() + anchor_cost(*old(state), AnchorKind::Status) + 2,
        final(acc).memory() == old(acc).memory(),
{
    screen_read_i32(acc, state, Vec::new(), RULESET_PTR)
}

/// The address of the active ruleset; needs the result screen.
pub fn result_screen_addr<M: MemoryAccessor>(acc: &mut M, state: &mut State) -> (r: Result<i32, Error>)
    ensures
        (r, *final(state)) == screen_i32(old(acc).memory(), *old(state), seq![RULESET_PTR], RULESET_ADDR),
        final(acc).read_count() == old(acc).read_count() + screen_reads(old(acc).memory(), *old(state), seq![RULESET_PTR]),
        r is Err && r->Err_0 is NotAvailable ==> final(acc).read_count() == old(acc).read_count() + anchor_cost(*old(state), AnchorKind::Status) + 2,
        final(acc).memory() == old(acc).memory(),
{
    let hops = vec![RULESET_PTR];
    assert(hops@ =~= seq![RULESET_PTR]);
    screen_read_i32(acc, state, hops, RULESET_ADDR)
}

/// The address of the result screen block; needs the result screen.
pub fn result_screen_base<M: MemoryAccessor>(acc: &mut M, state: &mut State) -> (r: Result<i32, Error>)
    ensures
        (r, *final(state)) == screen_i32(old(acc).memory(), *old(state), seq![RULESET_PTR, RULESET_ADDR], RESULT_SCREEN_BASE),
        final(acc).read_count() == old(acc).read_count() + screen_reads(old(acc).memory(), *old(state), seq![RULESET_PTR, RULESET_ADDR]),
        r is Err && r->Err_0 is NotAvailable ==> final(acc).read_count() == old(acc).read_count() + anchor_cost(*old(state), AnchorKind::Status) + 2,
        final(acc).memory() == old(acc).memory(),
{
    let hops = vec![RULESET_PTR, RULESET_ADDR];
    assert(hops@ =~= seq![RULESET_PTR, RULESET_ADDR]);
    screen_read_i32(acc, state, hops, RESULT_SCREEN_BASE)
}

/// The name of the player; needs the result screen.
pub fn username<M: MemoryAccessor>(acc: &mut M, state: &mut State) -> (r: Result<String, Error>)
    ensures
        (text_result(r), *final(state)) == gated(old(acc).memory(), *old(state), GameState::ResultScreen, Unavailable::NotInResultScreen, AnchorKind::Rulesets, |s: State| chain_text(old(acc).memory(), s, AnchorKind::Rulesets, result_base_path(), USERNAME)),
        final(acc).read_count() == old(acc).read_count() + gated_reads(old(acc).memory(), *old(state), GameState::ResultScreen, Unavailable::NotInResultScreen, |s: State| chain_text_reads(old(acc).memory(), s, AnchorKind::Rulesets, result_base_path(), USERNAME)),
        r is Err && r->Err_0 is NotAvailable ==> final(acc).read_count() == old(acc).read_count() + anchor_cost(*old(state), AnchorKind::Status) + 2,
        final(acc).memory() == old(acc).memory(),
{
    require_state(acc, state, GameState::ResultScreen, Unavailable::NotInResultScreen)?;
    let hops = result_base_hops();
    chain_read_string(acc, state, AnchorKind::Rulesets, hops.as_slice(), USERNAME)
}

/// The score; needs the result screen.
pub fn score<M: MemoryAccessor>(acc: &mut M, state: &mut State) -> (r: Result<i32, Error>)
    ensures
        (r, *final(state)) == screen_i32(old(acc).memory(), *old(state), result_base_path(), SCORE),
        final(acc).read_count() == old(acc).read_count() + screen_reads(old(acc).memory(), *old(state), result_base_path()),
        r is Err && r->Err_0 is NotAvailable ==> final(acc).read_count() == old(acc).read_count() + anchor_cost(*old(state), AnchorKind::Status) + 2,
        final(acc).memory() == old(acc).memory(),
{
    screen_read_i32(acc, state, result_base_hops(), SCORE)
}

/// The highest combo; needs the result screen.
pub fn max_combo<M: MemoryAccessor>(acc: &mut M, state: &mut State) -> (r: Result<i16, Error>)
    ensures
        (r, *final(state)) == screen_i16(old(acc).memory(), *old(state), result_base_path(), MAX_COMBO),
        final(acc).read_count() == old(acc).read_count() + screen_reads(old(acc).memory(), *old(state), result_base_path()),
        r is Err && r->Err_0 is NotAvailable ==> final(acc).read_count() == old(acc).read_count() + anchor_cost(*old(state), AnchorKind::Status) + 2,
        final(acc).memory() == old(acc).memory(),
{
    screen_read_i16(acc, state, MAX_COMBO)
}

/// The ruleset of the play; needs the result screen.
pub fn mode<M: MemoryAccessor>(acc: &mut M, state: &mut State) -> (r: Result<GameMode, Error>)
    ensures
        ({
            let (v, s) = screen_i32(old(acc).memory(), *old(state), result_base_path(), MODE);
            &&& final(acc).read_count() == old(acc).read_count() + screen_reads(old(acc).memory(), *old(state), result_base_path())
            &&& r is Err && r->Err_0 is NotAvailable ==> final(acc).read_count() == old(acc).read_count() + anchor_cost(*old(state), AnchorKind::Status) + 2
            &&& *final(state) == s
            &&& r == match v {
                Ok(x) => Ok(game_mode_of(x)),
                Err(e) => Err(e),
            }
        }),
        final(acc).memory() == old(acc).memory(),
{
    let v = screen_read_i32(acc, state, result_base_hops(), MODE)?;
    Ok(GameMode::from_raw(v))
}

pub fn hits_300<M: MemoryAccessor>(acc: &mut M, state: &mut State) -> (r: Result<i16, Error>)
    ensures
        (r, *final(state)) == screen_i16(old(acc).memory(), *old(state), result_base_path(), HITS_300),
        final(acc).read_count() == old(acc).read_count() + screen_reads(old(acc).memory(), *old(state), result_base_path()),
        r is Err && r->Err_0 is NotAvailable ==> final(acc).read_count() == old(acc).read_count() + anchor_cost(*old(state), AnchorKind::Status) + 2,
        final(acc).memory() == old(acc).memory(),
{
    screen_read_i16(acc, state, HITS_300)
}

pub fn hits_100<M: MemoryAccessor>(acc: &mut M, state: &mut State) -> (r: Result<i16, Error>)
    ensures
        (r, *final(state)) == screen_i16(old(acc).memory(), *old(state), result_base_path(), HITS_100),
        final(acc).read_count() == old(acc).read_count() + screen_reads(old(acc).memory(), *old(state), result_base_path()),
        r is Err && r->Err_0 is NotAvailable ==> final(acc).read_count() == old(acc).read_count() + anchor_cost(*old(state), AnchorKind::Status) + 2,
        final(acc).memory() == old(acc).memory(),
{
    screen_read_i16(acc, state, HITS_100)
}

pub fn hits_50<M: MemoryAccessor>(acc: &mut M, state: &mut State) -> (r: Result<i16, Error>)
    ensures
        (r, *final(state)) == screen_i16(old(acc).memory(), *old(state), result_base_path(), HITS_50),
        final(acc).read_count() == old(acc).read_count() + screen_reads(old(acc).memory(), *old(state), result_base_path()),
        r is Err && r->Err_0 is NotAvailable ==> final(acc).read_count() == old(acc).read_count() + anchor_cost(*old(state), AnchorKind::Status) + 2,
        final(acc).memory() == old(acc).memory(),
{
    screen_read_i16(acc, state, HITS_50)
}

pub fn hits_miss<M: MemoryAccessor>(acc: &mut M, state: &mut State) -> (r: Result<i16, Error>)
    ensures
        (r, *final(state)) == screen_i16(old(acc).memory(), *old(state), result_base_path(), HITS_MISS),
        final(acc).read_count() == old(acc).read_count() + screen_reads(old(acc).memory(), *old(state), result_base_path()),
        r is Err && r->Err_0 is NotAvailable ==> final(acc).read_count() == old(acc).read_count() + anchor_cost(*old(state), AnchorKind::Status) + 2,
        final(acc).memory() == old(acc).memory(),
{
    screen_read_i16(acc, state, HITS_MISS)
}

pub fn hits_geki<M: MemoryAccessor>(acc: &mut M, state: &mut State) -> (r: Result<i16, Error>)
    ensures
        (r, *final(state)) == screen_i16(old(acc).memory(), *old(state), result_base_path(), HITS_GEKI),
        final(acc).read_count() == old(acc).read_count() + screen_reads(old(acc).memory(), *old(state), result_base_path()),
        r is Err && r->Err_0 is NotAvailable ==> final(acc).read_count() == old(acc).read_count() + anchor_cost(*old(state), AnchorKind::Status) + 2,
        final(acc).memory() == old(acc).memory(),
{
    screen_read_i16(acc, state, HITS_GEKI)
}

pub fn hits_katu<M: MemoryAccessor>(acc: &mut M, state: &mut State) -> (r: Result<i16, Error>)
    ensures
        (r, *final(state)) == screen_i16(old(acc).memory(), *old(state), result_base_path(), HITS_KATU),
        final(acc).read_count() == old(acc).read_count() + screen_reads(old(acc).memory(), *old(state), result_base_path()),
        r is Err && r->Err_0 is NotAvailable ==> final(acc).read_count() == old(acc).read_count() + anchor_cost(*old(state), AnchorKind::Status) + 2,
        final(acc).memory() == old(acc).memory(),
{
    screen_read_i16(acc, state, HITS_KATU)
}

pub open spec fn chain_bulk_hits(m: Map<int, u8>, st: State) -> Result<Hit, ReadFault> {
    match chain(m, st, AnchorKind::Rulesets, result_base_path()) {
        Ok(b) => bulk_hits_at(m, b),
        Err(f) => Err(f),
    }
}

/// The hit counts of the result screen, read as one block; needs the
/// result screen.
pub fn hits<M: MemoryAccessor>(acc: &mut M, state: &mut State) -> (r: Result<Hit, Error>)
    ensures
        (r, *final(state)) == gated(old(acc).memory(), *old(state), GameState::ResultScreen, Unavailable::NotInResultScreen, AnchorKind::Rulesets, |s: State| chain_bulk_hits(old(acc).memory(), s)),
        final(acc).read_count() == old(acc).read_count() + screen_reads(old(acc).memory(), *old(state), result_base_path()),
        r is Err && r->Err_0 is NotAvailable ==> final(acc).read_count() == old(acc).read_count() + anchor_cost(*old(state), AnchorKind::Status) + 2,
        final(acc).memory() == old(acc).memory(),
{
    require_state(acc, state, GameState::ResultScreen, Unavailable::NotInResultScreen)?;
    let hops = result_base_hops();
    let b = resolve(acc, state, AnchorKind::Rulesets, hops.as_slice())?;
    match read_bulk_hits_at(acc, b) {
        Ok(h) => Ok(h),
        Err(f) => {
            state.invalidate(AnchorKind::Rulesets);
            Err(Error::MemoryRead(f))
        },
    }
}

/// The fields of the result screen block at `b`.
pub open spec fn result_core_at(m: Map<int, u8>, b: i32) -> Result<ResultScreenSnapshot, ReadFault> {
    match bulk_hits_at(m, b) {
        Err(f) => Err(f),
        Ok(hits) => match i32_at(m, offset_addr(b, MODE)) {
            Err(f) => Err(f),
            Ok(mode) => match text_at(m, offset_addr(b, USERNAME)) {
                Err(f) => Err(f),
                Ok(username) => match i16_at(m, offset_addr(b, MAX_COMBO)) {
                    Err(f) => Err(f),
                    Ok(max_combo) => match i32_at(m, offset_addr(b, SCORE)) {
                        Err(f) => Err(f),
                        Ok(score) => Ok(ResultScreenSnapshot {
                            username,
                            mode: game_mode_of(mode),
                            max_combo,
                            score,
                            hits,
                        }),
                    },
                },
            },
        },
    }
}

/// The reads that reading the result screen block at `b` makes, in the
/// order of `result_core_at`, up to the first failure.
pub open spec fn result_core_reads(m: Map<int, u8>, b: i32) -> nat {
    if bulk_hits_at(m, b) is Err {
        1
    } else if i32_at(m, offset_addr(b, MODE)) is Err {
        2
    } else if text_at(m, offset_addr(b, USERNAME)) is Err {
        2 + text_reads(m, offset_addr(b, USERNAME))
    } else if i16_at(m, offset_addr(b, MAX_COMBO)) is Err {
        6
    } else {
        7
    }
}

/// The reads that a result screen snapshot makes.
pub open spec fn result_info_outcome_reads(m: Map<int, u8>, st: State) -> nat {
    gated_reads(m, st, GameState::ResultScreen, Unavailable::NotInResultScreen, |s: State|
        chain_reads(m, s, AnchorKind::Rulesets, result_base_path()) + match chain(m, s, AnchorKind::Rulesets, result_base_path()) {
            Ok(b) => result_core_reads(m, b),
            Err(_) => 0,
        })
}

/// The result and the state after a result screen snapshot.
pub open spec fn result_info_outcome(m: Map<int, u8>, st: State) -> (Result<ResultScreenSnapshot, Error>, State) {
    gated(m, st, GameState::ResultScreen, Unavailable::NotInResultScreen, AnchorKind::Rulesets, |s: State|
        match chain(m, s, AnchorKind::Rulesets, result_base_path()) {
            Ok(b) => result_core_at(m, b),
            Err(f) => Err(f),
        })
}

/// The reads that a result screen snapshot makes besides deriving anchors:
/// two for the state check, three to reach the block, one for the hit counts, one
/// for the mode, three for the name, one each for combo and score.
pub open spec fn result_info_reads() -> nat {
    12
}

/// A snapshot of every result screen field; needs the result screen.
#[verifier::rlimit(30)]
pub fn info<M: MemoryAccessor>(acc: &mut M, state: &mut State) -> (r: Result<ResultScreenInfo, Error>)
    ensures
        match r {
            Ok(i) => result_info_outcome(old(acc).memory(), *old(state)).0 == Ok::<ResultScreenSnapshot, Error>(i.snapshot()),
            Err(e) => result_info_outcome(old(acc).memory(), *old(state)).0 == Err::<ResultScreenSnapshot, Error>(e),
        },
        *final(state) == result_info_outcome(old(acc).memory(), *old(state)).1,
        final(acc).memory() == old(acc).memory(),
        final(acc).read_count() == old(acc).read_count() + result_info_outcome_reads(old(acc).memory(), *old(state)),
        r is Err && r->Err_0 is NotAvailable ==> final(acc).read_count() == old(acc).read_count() + anchor_cost(*old(state), AnchorKind::Status) + 2,
        r is Ok ==> final(acc).read_count() == old(acc).read_count() + result_info_reads()
            + anchor_cost(*old(state), AnchorKind::Status) + anchor_cost(*old(state), AnchorKind::Rulesets),
{
    require_state(acc, state, GameState::ResultScreen, Unavailable::NotInResultScreen)?;
    let hops = result_base_hops();
    let b = resolve(acc, state, AnchorKind::Rulesets, hops.as_slice())?;
    match read_result_core(acc, b) {
        Ok(i) => Ok(i),
        Err(f) => {
            state.invalidate(AnchorKind::Rulesets);
            Err(Error::MemoryRead(f))
        },
    }
}

fn read_result_core<M: MemoryAccessor>(acc: &mut M, b: i32) -> (r: Result<ResultScreenInfo, ReadFault>)
    ensures
        match r {
            Ok(i) => result_core_at(old(acc).memory(), b) == Ok::<ResultScreenSnapshot, ReadFault>(i.snapshot()),
            Err(f) => result_core_at(old(acc).memory(), b) == Err::<ResultScreenSnapshot, ReadFault>(f),
        },
        final(acc).memory() == old(acc).memory(),
        final(acc).read_count() == old(acc).read_count() + result_core_reads(old(acc).memory(), b),
        r is Ok ==> result_core_reads(old(acc).memory(), b) == 7,
{
    let hits = read_bulk_hits_at(acc, b)?;
    let mode = read_i32(acc, add_offset(b, MODE))?;
    let username = read_string(acc, add_offset(b, USERNAME))?;
    let max_combo = crate::read::read_i16(acc, add_offset(b, MAX_COMBO))?;
    let score = read_i32(acc, add_offset(b, SCORE))?;
    Ok(ResultScreenInfo { username, mode: GameMode::from_raw(mode), max_combo, score, hits })
}

} // verus!
