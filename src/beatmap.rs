use vstd::prelude::*;

use crate::chain::{chain, chain_reads, chain_text_reads, field_reads, chain_i32, chain_read_i32, chain_read_string, chain_read_u32, chain_text, chain_u32, resolve, text_result};
use crate::common::{game_mode_of, GameMode};
use crate::error::{Error, ReadFault};
use crate::memory::{add_offset, offset_addr, MemoryAccessor};
use crate::offsets::{
    BEATMAP_ADDR, BEATMAP_AR, BEATMAP_AUDIO, BEATMAP_AUTHOR, BEATMAP_COVER, BEATMAP_CREATOR,
    BEATMAP_CS, BEATMAP_DIFFICULTY, BEATMAP_DRAIN_TIME, BEATMAP_FILENAME, BEATMAP_FOLDER,
    BEATMAP_HP, BEATMAP_ID, BEATMAP_MD5, BEATMAP_MODE, BEATMAP_OBJECT_COUNT, BEATMAP_OD,
    BEATMAP_PTR, BEATMAP_RANKED_STATUS, BEATMAP_SET_ID, BEATMAP_SLIDER_COUNT, BEATMAP_TAGS,
    BEATMAP_TITLE_ORIGINAL, BEATMAP_TITLE_ROMANIZED, BEATMAP_TOTAL_LENGTH,
};
use crate::read::{text_reads, i32_at, read_i32, read_string, read_u32, text_at, u32_at};
use crate::state::{anchor_cost, lift, settle, AnchorKind, State};

verus! {

/// The ranked status of a beatmap.
#[derive(Debug, Clone, Copy, PartialEq, Eq, Structural)]
pub enum BeatmapStatus {
    Unknown,
    Unsubmitted,
    Unranked,
    Unused,
    Ranked,
    Approved,
    Qualified,
    Loved,
}

pub open spec fn beatmap_status_of(v: i32) -> BeatmapStatus {
    match v {
        1 => BeatmapStatus::Unsubmitted,
        2 => BeatmapStatus::Unranked,
        3 => BeatmapStatus::Unused,
        4 => BeatmapStatus::Ranked,
        5 => BeatmapStatus::Approved,
        6 => BeatmapStatus::Qualified,
        7 => BeatmapStatus::Loved,
        _ => BeatmapStatus::Unknown,
    }
}

impl BeatmapStatus {
    pub fn from_raw(v: i32) -> (r: BeatmapStatus)
        ensures
            r == beatmap_status_of(v),
    {
        match v {
            1 => BeatmapStatus::Unsubmitted,
            2 => BeatmapStatus::Unranked,
            3 => BeatmapStatus::Unused,
            4 => BeatmapStatus::Ranked,
            5 => BeatmapStatus::Approved,
            6 => BeatmapStatus::Qualified,
            7 => BeatmapStatus::Loved,
            _ => BeatmapStatus::Unknown,
        }
    }
}

/// Hops from the base anchor to the current beatmap.
pub open spec fn beatmap_path() -> Seq<i32> {
    seq![BEATMAP_PTR, BEATMAP_ADDR]
}

pub fn beatmap_hops() -> (r: Vec<i32>)
    ensures
        r@ == beatmap_path(),
{
    let r = vec![BEATMAP_PTR, BEATMAP_ADDR];
    assert(r@ =~= beatmap_path());
    r
}

/// A signed 32-bit field of the current beatmap.
pub open spec fn beatmap_i32(m: Map<int, u8>, st: State, off: i32) -> Result<i32, Error> {
    lift(chain_i32(m, st, AnchorKind::Base, beatmap_path(), off))
}

/// An unsigned 32-bit field of the current beatmap.
pub open spec fn beatmap_u32(m: Map<int, u8>, st: State, off: i32) -> Result<u32, Error> {
    lift(chain_u32(m, st, AnchorKind::Base, beatmap_path(), off))
}

/// A text field of the current beatmap.
pub open spec fn beatmap_text(m: Map<int, u8>, st: State, off: i32) -> Result<Seq<char>, Error> {
    lift(chain_text(m, st, AnchorKind::Base, beatmap_path(), off))
}

fn read_beatmap_i32<M: MemoryAccessor>(acc: &mut M, state: &mut State, off: i32) -> (r: Result<i32, Error>)
    ensures
        r == beatmap_i32(old(acc).memory(), *old(state), off),
        *final(state) == settle(old(acc).memory(), *old(state), AnchorKind::Base, r is Ok),
        final(acc).memory() == old(acc).memory(),
        final(acc).read_count() == old(acc).read_count() + field_reads(old(acc).memory(), *old(state), AnchorKind::Base, beatmap_path()),
{
    let hops = beatmap_hops();
    chain_read_i32(acc, state, AnchorKind::Base, hops.as_slice(), off)
}

fn read_beatmap_u32<M: MemoryAccessor>(acc: &mut M, state: &mut State, off: i32) -> (r: Result<u32, Error>)
    ensures
        r == beatmap_u32(old(acc).memory(), *old(state), off),
        *final(state) == settle(old(acc).memory(), *old(state), AnchorKind::Base, r is Ok),
        final(acc).memory() == old(acc).memory(),
        final(acc).read_count() == old(acc).read_count() + field_reads(old(acc).memory(), *old(state), AnchorKind::Base, beatmap_path()),
{
    let hops = beatmap_hops();
    chain_read_u32(acc, state, AnchorKind::Base, hops.as_slice(), off)
}

/// Reads the text field at `off` of the current beatmap.
pub fn read_from_beatmap_ptr_string<M: MemoryAccessor>(acc: &mut M, state: &mut State, off: i32) -> (r: Result<String, Error>)
    ensures
        text_result(r) == beatmap_text(old(acc).memory(), *old(state), off),
        *final(state) == settle(old(acc).memory(), *old(state), AnchorKind::Base, r is Ok),
        final(acc).memory() == old(acc).memory(),
        final(acc).read_count() == old(acc).read_count() + chain_text_reads(old(acc).memory(), *old(state), AnchorKind::Base, beatmap_path(), off),
{
    let hops = beatmap_hops();
    chain_read_string(acc, state, AnchorKind::Base, hops.as_slice(), off)
}

/// The address of the current beatmap.
pub fn get_beatmap_addr<M: MemoryAccessor>(acc: &mut M, state: &mut State) -> (r: Result<i32, Error>)
    ensures
        r == lift(chain(old(acc).memory(), *old(state), AnchorKind::Base, beatmap_path())),
        *final(state) == settle(old(acc).memory(), *old(state), AnchorKind::Base, r is Ok),
        final(acc).memory() == old(acc).memory(),
        final(acc).read_count() == old(acc).read_count() + chain_reads(old(acc).memory(), *old(state), AnchorKind::Base, beatmap_path()),
{
    let hops = beatmap_hops();
    resolve(acc, state, AnchorKind::Base, hops.as_slice())
}

/// The MD5 digest of the beatmap file, as text.
pub fn get_beatmap_md5<M: MemoryAccessor>(acc: &mut M, state: &mut State) -> (r: Result<String, Error>)
    ensures
        text_result(r) == beatmap_text(old(acc).memory(), *old(state), BEATMAP_MD5),
        *final(state) == settle(old(acc).memory(), *old(state), AnchorKind::Base, r is Ok),
        final(acc).memory() == old(acc).memory(),
        final(acc).read_count() == old(acc).read_count() + chain_text_reads(old(acc).memory(), *old(state), AnchorKind::Base, beatmap_path(), BEATMAP_MD5),
{
    read_from_beatmap_ptr_string(acc, state, BEATMAP_MD5)
}

/// The tags.
pub fn get_beatmap_tags<M: MemoryAccessor>(acc: &mut M, state: &mut State) -> (r: Result<String, Error>)
    ensures
        text_result(r) == beatmap_text(old(acc).memory(), *old(state), BEATMAP_TAGS),
        *final(state) == settle(old(acc).memory(), *old(state), AnchorKind::Base, r is Ok),
        final(acc).memory() == old(acc).memory(),
        final(acc).read_count() == old(acc).read_count() + chain_text_reads(old(acc).memory(), *old(state), AnchorKind::Base, beatmap_path(), BEATMAP_TAGS),
{
    read_from_beatmap_ptr_string(acc, state, BEATMAP_TAGS)
}

/// The artist.
pub fn get_author<M: MemoryAccessor>(acc: &mut M, state: &mut State) -> (r: Result<String, Error>)
    ensures
        text_result(r) == beatmap_text(old(acc).memory(), *old(state), BEATMAP_AUTHOR),
        *final(state) == settle(old(acc).memory(), *old(state), AnchorKind::Base, r is Ok),
        final(acc).memory() == old(acc).memory(),
        final(acc).read_count() == old(acc).read_count() + chain_text_reads(old(acc).memory(), *old(state), AnchorKind::Base, beatmap_path(), BEATMAP_AUTHOR),
{
    read_from_beatmap_ptr_string(acc, state, BEATMAP_AUTHOR)
}

/// The mapper.
pub fn get_creator<M: MemoryAccessor>(acc: &mut M, state: &mut State) -> (r: Result<String, Error>)
    ensures
        text_result(r) == beatmap_text(old(acc).memory(), *old(state), BEATMAP_CREATOR),
        *final(state) == settle(old(acc).memory(), *old(state), AnchorKind::Base, r is Ok),
        final(acc).memory() == old(acc).memory(),
        final(acc).read_count() == old(acc).read_count() + chain_text_reads(old(acc).memory(), *old(state), AnchorKind::Base, beatmap_path(), BEATMAP_CREATOR),
{
    read_from_beatmap_ptr_string(acc, state, BEATMAP_CREATOR)
}

/// The title in Latin letters.
pub fn get_title_romanized<M: MemoryAccessor>(acc: &mut M, state: &mut State) -> (r: Result<String, Error>)
    ensures
        text_result(r) == beatmap_text(old(acc).memory(), *old(state), BEATMAP_TITLE_ROMANIZED),
        *final(state) == settle(old(acc).memory(), *old(state), AnchorKind::Base, r is Ok),
        final(acc).memory() == old(acc).memory(),
        final(acc).read_count() == old(acc).read_count() + chain_text_reads(old(acc).memory(), *old(state), AnchorKind::Base, beatmap_path(), BEATMAP_TITLE_ROMANIZED),
{
    read_from_beatmap_ptr_string(acc, state, BEATMAP_TITLE_ROMANIZED)
}

/// The title as written by the artist.
pub fn get_title_original<M: MemoryAccessor>(acc: &mut M, state: &mut State) -> (r: Result<String, Error>)
    ensures
        text_result(r) == beatmap_text(old(acc).memory(), *old(state), BEATMAP_TITLE_ORIGINAL),
        *final(state) == settle(old(acc).memory(), *old(state), AnchorKind::Base, r is Ok),
        final(acc).memory() == old(acc).memory(),
        final(acc).read_count() == old(acc).read_count() + chain_text_reads(old(acc).memory(), *old(state), AnchorKind::Base, beatmap_path(), BEATMAP_TITLE_ORIGINAL),
{
    read_from_beatmap_ptr_string(acc, state, BEATMAP_TITLE_ORIGINAL)
}

/// The name of the difficulty.
pub fn get_difficulty<M: MemoryAccessor>(acc: &mut M, state: &mut State) -> (r: Result<String, Error>)
    ensures
        text_result(r) == beatmap_text(old(acc).memory(), *old(state), BEATMAP_DIFFICULTY),
        *final(state) == settle(old(acc).memory(), *old(state), AnchorKind::Base, r is Ok),
        final(acc).memory() == old(acc).memory(),
        final(acc).read_count() == old(acc).read_count() + chain_text_reads(old(acc).memory(), *old(state), AnchorKind::Base, beatmap_path(), BEATMAP_DIFFICULTY),
{
    read_from_beatmap_ptr_string(acc, state, BEATMAP_DIFFICULTY)
}

/// The folder of the beatmap set.
pub fn get_folder<M: MemoryAccessor>(acc: &mut M, state: &mut State) -> (r: Result<String, Error>)
    ensures
        text_result(r) == beatmap_text(old(acc).memory(), *old(state), BEATMAP_FOLDER),
        *final(state) == settle(old(acc).memory(), *old(state), AnchorKind::Base, r is Ok),
        final(acc).memory() == old(acc).memory(),
        final(acc).read_count() == old(acc).read_count() + chain_text_reads(old(acc).memory(), *old(state), AnchorKind::Base, beatmap_path(), BEATMAP_FOLDER),
{
    read_from_beatmap_ptr_string(acc, state, BEATMAP_FOLDER)
}

/// The name of the beatmap file.
pub fn get_filename<M: MemoryAccessor>(acc: &mut M, state: &mut State) -> (r: Result<String, Error>)
    ensures
        text_result(r) == beatmap_text(old(acc).memory(), *old(state), BEATMAP_FILENAME),
        *final(state) == settle(old(acc).memory(), *old(state), AnchorKind::Base, r is Ok),
        final(acc).memory() == old(acc).memory(),
        final(acc).read_count() == old(acc).read_count() + chain_text_reads(old(acc).memory(), *old(state), AnchorKind::Base, beatmap_path(), BEATMAP_FILENAME),
{
    read_from_beatmap_ptr_string(acc, state, BEATMAP_FILENAME)
}

/// The name of the audio file.
pub fn get_audio<M: MemoryAccessor>(acc: &mut M, state: &mut State) -> (r: Result<String, Error>)
    ensures
        text_result(r) == beatmap_text(old(acc).memory(), *old(state), BEATMAP_AUDIO),
        *final(state) == settle(old(acc).memory(), *old(state), AnchorKind::Base, r is Ok),
        final(acc).memory() == old(acc).memory(),
        final(acc).read_count() == old(acc).read_count() + chain_text_reads(old(acc).memory(), *old(state), AnchorKind::Base, beatmap_path(), BEATMAP_AUDIO),
{
    read_from_beatmap_ptr_string(acc, state, BEATMAP_AUDIO)
}

/// The name of the background image.
pub fn get_cover<M: MemoryAccessor>(acc: &mut M, state: &mut State) -> (r: Result<String, Error>)
    ensures
        text_result(r) == beatmap_text(old(acc).memory(), *old(state), BEATMAP_COVER),
        *final(state) == settle(old(acc).memory(), *old(state), AnchorKind::Base, r is Ok),
        final(acc).memory() == old(acc).memory(),
        final(acc).read_count() == old(acc).read_count() + chain_text_reads(old(acc).memory(), *old(state), AnchorKind::Base, beatmap_path(), BEATMAP_COVER),
{
    read_from_beatmap_ptr_string(acc, state, BEATMAP_COVER)
}

/// The beatmap id.
pub fn get_beatmap_id<M: MemoryAccessor>(acc: &mut M, state: &mut State) -> (r: Result<i32, Error>)
    ensures
        r == beatmap_i32(old(acc).memory(), *old(state), BEATMAP_ID),
        *final(state) == settle(old(acc).memory(), *old(state), AnchorKind::Base, r is Ok),
        final(acc).memory() == old(acc).memory(),
        final(acc).read_count() == old(acc).read_count() + field_reads(old(acc).memory(), *old(state), AnchorKind::Base, beatmap_path()),
{
    read_beatmap_i32(acc, state, BEATMAP_ID)
}

/// The beatmap set id.
pub fn get_beatmap_set_id<M: MemoryAccessor>(acc: &mut M, state: &mut State) -> (r: Result<i32, Error>)
    ensures
        r == beatmap_i32(old(acc).memory(), *old(state), BEATMAP_SET_ID),
        *final(state) == settle(old(acc).memory(), *old(state), AnchorKind::Base, r is Ok),
        final(acc).memory() == old(acc).memory(),
        final(acc).read_count() == old(acc).read_count() + field_reads(old(acc).memory(), *old(state), AnchorKind::Base, beatmap_path()),
{
    read_beatmap_i32(acc, state, BEATMAP_SET_ID)
}

/// The total length in milliseconds.
pub fn get_beatmap_length<M: MemoryAccessor>(acc: &mut M, state: &mut State) -> (r: Result<i32, Error>)
    ensures
        r == beatmap_i32(old(acc).memory(), *old(state), BEATMAP_TOTAL_LENGTH),
        *final(state) == settle(old(acc).memory(), *old(state), AnchorKind::Base, r is Ok),
        final(acc).memory() == old(acc).memory(),
        final(acc).read_count() == old(acc).read_count() + field_reads(old(acc).memory(), *old(state), AnchorKind::Base, beatmap_path()),
{
    read_beatmap_i32(acc, state, BEATMAP_TOTAL_LENGTH)
}

/// The drain time in milliseconds.
pub fn get_beatmap_drain_time<M: MemoryAccessor>(acc: &mut M, state: &mut State) -> (r: Result<i32, Error>)
    ensures
        r == beatmap_i32(old(acc).memory(), *old(state), BEATMAP_DRAIN_TIME),
        *final(state) == settle(old(acc).memory(), *old(state), AnchorKind::Base, r is Ok),
        final(acc).memory() == old(acc).memory(),
        final(acc).read_count() == old(acc).read_count() + field_reads(old(acc).memory(), *old(state), AnchorKind::Base, beatmap_path()),
{
    read_beatmap_i32(acc, state, BEATMAP_DRAIN_TIME)
}

/// The number of sliders.
pub fn get_beatmap_slider_count<M: MemoryAccessor>(acc: &mut M, state: &mut State) -> (r: Result<i32, Error>)
    ensures
        r == beatmap_i32(old(acc).memory(), *old(state), BEATMAP_SLIDER_COUNT),
        *final(state) == settle(old(acc).memory(), *old(state), AnchorKind::Base, r is Ok),
        final(acc).memory() == old(acc).memory(),
        final(acc).read_count() == old(acc).read_count() + field_reads(old(acc).memory(), *old(state), AnchorKind::Base, beatmap_path()),
{
    read_beatmap_i32(acc, state, BEATMAP_SLIDER_COUNT)
}

/// The overall difficulty, as the bits of an IEEE-754 single.
pub fn get_beatmap_od<M: MemoryAccessor>(acc: &mut M, state: &mut State) -> (r: Result<u32, Error>)
    ensures
        r == beatmap_u32(old(acc).memory(), *old(state), BEATMAP_OD),
        *final(state) == settle(old(acc).memory(), *old(state), AnchorKind::Base, r is Ok),
        final(acc).memory() == old(acc).memory(),
        final(acc).read_count() == old(acc).read_count() + field_reads(old(acc).memory(), *old(state), AnchorKind::Base, beatmap_path()),
{
    read_beatmap_u32(acc, state, BEATMAP_OD)
}

/// The approach rate, as the bits of an IEEE-754 single.
pub fn get_beatmap_ar<M: MemoryAccessor>(acc: &mut M, state: &mut State) -> (r: Result<u32, Error>)
    ensures
        r == beatmap_u32(old(acc).memory(), *old(state), BEATMAP_AR),
        *final(state) == settle(old(acc).memory(), *old(state), AnchorKind::Base, r is Ok),
        final(acc).memory() == old(acc).memory(),
        final(acc).read_count() == old(acc).read_count() + field_reads(old(acc).memory(), *old(state), AnchorKind::Base, beatmap_path()),
{
    read_beatmap_u32(acc, state, BEATMAP_AR)
}

/// The circle size, as the bits of an IEEE-754 single.
pub fn get_beatmap_cs<M: MemoryAccessor>(acc: &mut M, state: &mut State) -> (r: Result<u32, Error>)
    ensures
        r == beatmap_u32(old(acc).memory(), *old(state), BEATMAP_CS),
        *final(state) == settle(old(acc).memory(), *old(state), AnchorKind::Base, r is Ok),
        final(acc).memory() == old(acc).memory(),
        final(acc).read_count() == old(acc).read_count() + field_reads(old(acc).memory(), *old(state), AnchorKind::Base, beatmap_path()),
{
    read_beatmap_u32(acc, state, BEATMAP_CS)
}

/// The drain rate, as the bits of an IEEE-754 single.
pub fn get_beatmap_hp<M: MemoryAccessor>(acc: &mut M, state: &mut State) -> (r: Result<u32, Error>)
    ensures
        r == beatmap_u32(old(acc).memory(), *old(state), BEATMAP_HP),
        *final(state) == settle(old(acc).memory(), *old(state), AnchorKind::Base, r is Ok),
        final(acc).memory() == old(acc).memory(),
        final(acc).read_count() == old(acc).read_count() + field_reads(old(acc).memory(), *old(state), AnchorKind::Base, beatmap_path()),
{
    read_beatmap_u32(acc, state, BEATMAP_HP)
}

/// The number of hit objects.
pub fn get_beatmap_object_count<M: MemoryAccessor>(acc: &mut M, state: &mut State) -> (r: Result<u32, Error>)
    ensures
        r == beatmap_u32(old(acc).memory(), *old(state), BEATMAP_OBJECT_COUNT),
        *final(state) == settle(old(acc).memory(), *old(state), AnchorKind::Base, r is Ok),
        final(acc).memory() == old(acc).memory(),
        final(acc).read_count() == old(acc).read_count() + field_reads(old(acc).memory(), *old(state), AnchorKind::Base, beatmap_path()),
{
    read_beatmap_u32(acc, state, BEATMAP_OBJECT_COUNT)
}

/// The ruleset the beatmap is made for.
pub fn get_beatmap_mode<M: MemoryAccessor>(acc: &mut M, state: &mut State) -> (r: Result<GameMode, Error>)
    ensures
        r == match beatmap_i32(old(acc).memory(), *old(state), BEATMAP_MODE) {
            Ok(v) => Ok(game_mode_of(v)),
            Err(e) => Err(e),
        },
        *final(state) == settle(old(acc).memory(), *old(state), AnchorKind::Base, r is Ok),
        final(acc).memory() == old(acc).memory(),
        final(acc).read_count() == old(acc).read_count() + field_reads(old(acc).memory(), *old(state), AnchorKind::Base, beatmap_path()),
{
    let v = read_beatmap_i32(acc, state, BEATMAP_MODE)?;
    Ok(GameMode::from_raw(v))
}

/// The ranked status.
pub fn get_beatmap_status<M: MemoryAccessor>(acc: &mut M, state: &mut State) -> (r: Result<BeatmapStatus, Error>)
    ensures
        r == match beatmap_i32(old(acc).memory(), *old(state), BEATMAP_RANKED_STATUS) {
            Ok(v) => Ok(beatmap_status_of(v)),
            Err(e) => Err(e),
        },
        *final(state) == settle(old(acc).memory(), *old(state), AnchorKind::Base, r is Ok),
        final(acc).memory() == old(acc).memory(),
        final(acc).read_count() == old(acc).read_count() + field_reads(old(acc).memory(), *old(state), AnchorKind::Base, beatmap_path()),
{
    let v = read_beatmap_i32(acc, state, BEATMAP_RANKED_STATUS)?;
    Ok(BeatmapStatus::from_raw(v))
}

/// Identity of the current beatmap.
#[derive(Debug, Clone, PartialEq, Eq)]
pub struct BeatmapTechnicalInfo {
    pub md5: String,
    pub id: i32,
    pub set_id: i32,
    pub mode: GameMode,
    pub ranked_status: BeatmapStatus,
}

/// The content of a `BeatmapTechnicalInfo`.
pub struct TechnicalSnapshot {
    pub md5: Seq<char>,
    pub id: i32,
    pub set_id: i32,
    pub mode: GameMode,
    pub ranked_status: BeatmapStatus,
}

impl BeatmapTechnicalInfo {
    pub open spec fn snapshot(&self) -> TechnicalSnapshot {
        TechnicalSnapshot {
            md5: self.md5@,
            id: self.id,
            set_id: self.set_id,
            mode: self.mode,
            ranked_status: self.ranked_status,
        }
    }
}

/// Difficulty settings and counts of the current beatmap; the four
/// settings are the bits of IEEE-754 singles.
#[derive(Debug, Clone, Copy, PartialEq, Eq, Structural)]
pub struct BeatmapStats {
    pub ar: u32,
    pub od: u32,
    pub cs: u32,
    pub hp: u32,
    pub total_length: i32,
    pub object_count: u32,
    pub slider_count: i32,
}

/// Descriptive text of the current beatmap.
#[derive(Debug, Clone, PartialEq, Eq)]
pub struct BeatmapMetadata {
    pub author: String,
    pub creator: String,
    pub title_romanized: String,
    pub title_original: String,
    pub difficulty: String,
    pub tags: String,
}

/// The content of a `BeatmapMetadata`.
pub struct MetadataSnapshot {
    pub author: Seq<char>,
    pub creator: Seq<char>,
    pub title_romanized: Seq<char>,
    pub title_original: Seq<char>,
    pub difficulty: Seq<char>,
    pub tags: Seq<char>,
}

impl BeatmapMetadata {
    pub open spec fn snapshot(&self) -> MetadataSnapshot {
        MetadataSnapshot {
            author: self.author@,
            creator: self.creator@,
            title_romanized: self.title_romanized@,
            title_original: self.title_original@,
            difficulty: self.difficulty@,
            tags: self.tags@,
        }
    }
}

/// File names of the current beatmap.
#[derive(Debug, Clone, PartialEq, Eq)]
pub struct BeatmapLocation {
    pub folder: String,
    pub filename: String,
    pub audio: String,
    pub cover: String,
}

/// The content of a `BeatmapLocation`.
pub struct LocationSnapshot {
    pub folder: Seq<char>,
    pub filename: Seq<char>,
    pub audio: Seq<char>,
    pub cover: Seq<char>,
}

impl BeatmapLocation {
    pub open spec fn snapshot(&self) -> LocationSnapshot {
        LocationSnapshot {
            folder: self.folder@,
            filename: self.filename@,
            audio: self.audio@,
            cover: self.cover@,
        }
    }
}

/// A point-in-time snapshot of the current beatmap.
#[derive(Debug, Clone, PartialEq, Eq)]
pub struct BeatmapInfo {
    pub technical: BeatmapTechnicalInfo,
    pub metadata: BeatmapMetadata,
    pub stats: BeatmapStats,
    pub location: BeatmapLocation,
}

/// The content of a `BeatmapInfo`.
pub struct BeatmapSnapshot {
    pub technical: TechnicalSnapshot,
    pub metadata: MetadataSnapshot,
    pub stats: BeatmapStats,
    pub location: LocationSnapshot,
}

impl BeatmapInfo {
    pub open spec fn snapshot(&self) -> BeatmapSnapshot {
        BeatmapSnapshot {
            technical: self.technical.snapshot(),
            metadata: self.metadata.snapshot(),
            stats: self.stats,
            location: self.location.snapshot(),
        }
    }
}

/// The reads that reading the technical fields of the beatmap at `b` makes, up to
/// the first failure.
pub open spec fn technical_reads(m: Map<int, u8>, b: i32) -> nat {
    if text_at(m, offset_addr(b, BEATMAP_MD5)) is Err {
        text_reads(m, offset_addr(b, BEATMAP_MD5))
    } else if i32_at(m, offset_addr(b, BEATMAP_ID)) is Err {
        4
    } else if i32_at(m, offset_addr(b, BEATMAP_SET_ID)) is Err {
        5
    } else if i32_at(m, offset_addr(b, BEATMAP_MODE)) is Err {
        6
    } else {
        7
    }
}

/// The technical fields of the beatmap at `b`, in order.
pub open spec fn technical_at(m: Map<int, u8>, b: i32) -> Result<TechnicalSnapshot, ReadFault> {
    match text_at(m, offset_addr(b, BEATMAP_MD5)) {
        Err(f) => Err(f),
        Ok(md5) =>
            match i32_at(m, offset_addr(b, BEATMAP_ID)) {
                Err(f) => Err(f),
                Ok(id) =>
                    match i32_at(m, offset_addr(b, BEATMAP_SET_ID)) {
                        Err(f) => Err(f),
                        Ok(set_id) =>
                            match i32_at(m, offset_addr(b, BEATMAP_MODE)) {
                                Err(f) => Err(f),
                                Ok(mode) =>
                                    match i32_at(m, offset_addr(b, BEATMAP_RANKED_STATUS)) {
                                        Err(f) => Err(f),
                                        Ok(ranked_status) =>
                                            Ok(TechnicalSnapshot { md5, id, set_id, mode: game_mode_of(mode), ranked_status: beatmap_status_of(ranked_status) }),
                                    },
                            },
                    },
            },
    }
}

fn read_technical<M: MemoryAccessor>(acc: &mut M, b: i32) -> (r: Result<BeatmapTechnicalInfo, ReadFault>)
    ensures
        match r {
            Ok(i) => technical_at(old(acc).memory(), b) == Ok::<TechnicalSnapshot, ReadFault>(i.snapshot()),
            Err(f) => technical_at(old(acc).memory(), b) == Err::<TechnicalSnapshot, ReadFault>(f),
        },
        final(acc).memory() == old(acc).memory(),
        final(acc).read_count() == old(acc).read_count() + technical_reads(old(acc).memory(), b),
        r is Ok ==> technical_reads(old(acc).memory(), b) == 7,
{
    let md5 = read_string(acc, add_offset(b, BEATMAP_MD5))?;
    let id = read_i32(acc, add_offset(b, BEATMAP_ID))?;
    let set_id = read_i32(acc, add_offset(b, BEATMAP_SET_ID))?;
    let mode = read_i32(acc, add_offset(b, BEATMAP_MODE))?;
    let ranked_status = read_i32(acc, add_offset(b, BEATMAP_RANKED_STATUS))?;
    Ok(BeatmapTechnicalInfo { md5, id, set_id, mode: GameMode::from_raw(mode), ranked_status: BeatmapStatus::from_raw(ranked_status) })
}

/// The reads that reading the metadata fields of the beatmap at `b` makes, up to
/// the first failure.
pub open spec fn metadata_reads(m: Map<int, u8>, b: i32) -> nat {
    if text_at(m, offset_addr(b, BEATMAP_AUTHOR)) is Err {
        text_reads(m, offset_addr(b, BEATMAP_AUTHOR))
    } else if text_at(m, offset_addr(b, BEATMAP_CREATOR)) is Err {
        3 + text_reads(m, offset_addr(b, BEATMAP_CREATOR))
    } else if text_at(m, offset_addr(b, BEATMAP_TITLE_ROMANIZED)) is Err {
        6 + text_reads(m, offset_addr(b, BEATMAP_TITLE_ROMANIZED))
    } else if text_at(m, offset_addr(b, BEATMAP_TITLE_ORIGINAL)) is Err {
        9 + text_reads(m, offset_addr(b, BEATMAP_TITLE_ORIGINAL))
    } else if text_at(m, offset_addr(b, BEATMAP_DIFFICULTY)) is Err {
        12 + text_reads(m, offset_addr(b, BEATMAP_DIFFICULTY))
    } else {
        15 + text_reads(m, offset_addr(b, BEATMAP_TAGS))
    }
}

/// The metadata fields of the beatmap at `b`, in order.
pub open spec fn metadata_at(m: Map<int, u8>, b: i32) -> Result<MetadataSnapshot, ReadFault> {
    match text_at(m, offset_addr(b, BEATMAP_AUTHOR)) {
        Err(f) => Err(f),
        Ok(author) =>
            match text_at(m, offset_addr(b, BEATMAP_CREATOR)) {
                Err(f) => Err(f),
                Ok(creator) =>
                    match text_at(m, offset_addr(b, BEATMAP_TITLE_ROMANIZED)) {
                        Err(f) => Err(f),
                        Ok(title_romanized) =>
                            match text_at(m, offset_addr(b, BEATMAP_TITLE_ORIGINAL)) {
                                Err(f) => Err(f),
                                Ok(title_original) =>
                                    match text_at(m, offset_addr(b, BEATMAP_DIFFICULTY)) {
                                        Err(f) => Err(f),
                                        Ok(difficulty) =>
                                            match text_at(m, offset_addr(b, BEATMAP_TAGS)) {
                                                Err(f) => Err(f),
                                                Ok(tags) =>
                                                    Ok(MetadataSnapshot { author, creator, title_romanized, title_original, difficulty, tags }),
                                            },
                                    },
                            },
                    },
            },
    }
}

fn read_metadata<M: MemoryAccessor>(acc: &mut M, b: i32) -> (r: Result<BeatmapMetadata, ReadFault>)
    ensures
        match r {
            Ok(i) => metadata_at(old(acc).memory(), b) == Ok::<MetadataSnapshot, ReadFault>(i.snapshot()),
            Err(f) => metadata_at(old(acc).memory(), b) == Err::<MetadataSnapshot, ReadFault>(f),
        },
        final(acc).memory() == old(acc).memory(),
        final(acc).read_count() == old(acc).read_count() + metadata_reads(old(acc).memory(), b),
        r is Ok ==> metadata_reads(old(acc).memory(), b) == 18,
{
    let author = read_string(acc, add_offset(b, BEATMAP_AUTHOR))?;
    let creator = read_string(acc, add_offset(b, BEATMAP_CREATOR))?;
    let title_romanized = read_string(acc, add_offset(b, BEATMAP_TITLE_ROMANIZED))?;
    let title_original = read_string(acc, add_offset(b, BEATMAP_TITLE_ORIGINAL))?;
    let difficulty = read_string(acc, add_offset(b, BEATMAP_DIFFICULTY))?;
    let tags = read_string(acc, add_offset(b, BEATMAP_TAGS))?;
    Ok(BeatmapMetadata { author, creator, title_romanized, title_original, difficulty, tags })
}

/// The reads that reading the location fields of the beatmap at `b` makes, up to
/// the first failure.
pub open spec fn location_reads(m: Map<int, u8>, b: i32) -> nat {
    if text_at(m, offset_addr(b, BEATMAP_FOLDER)) is Err {
        text_reads(m, offset_addr(b, BEATMAP_FOLDER))
    } else if text_at(m, offset_addr(b, BEATMAP_FILENAME)) is Err {
        3 + text_reads(m, offset_addr(b, BEATMAP_FILENAME))
    } else if text_at(m, offset_addr(b, BEATMAP_AUDIO)) is Err {
        6 + text_reads(m, offset_addr(b, BEATMAP_AUDIO))
    } else {
        9 + text_reads(m, offset_addr(b, BEATMAP_COVER))
    }
}

/// The location fields of the beatmap at `b`, in order.
pub open spec fn location_at(m: Map<int, u8>, b: i32) -> Result<LocationSnapshot, ReadFault> {
    match text_at(m, offset_addr(b, BEATMAP_FOLDER)) {
        Err(f) => Err(f),
        Ok(folder) =>
            match text_at(m, offset_addr(b, BEATMAP_FILENAME)) {
                Err(f) => Err(f),
                Ok(filename) =>
                    match text_at(m, offset_addr(b, BEATMAP_AUDIO)) {
                        Err(f) => Err(f),
                        Ok(audio) =>
                            match text_at(m, offset_addr(b, BEATMAP_COVER)) {
                                Err(f) => Err(f),
                                Ok(cover) =>
                                    Ok(LocationSnapshot { folder, filename, audio, cover }),
                            },
                    },
            },
    }
}

fn read_location<M: MemoryAccessor>(acc: &mut M, b: i32) -> (r: Result<BeatmapLocation, ReadFault>)
    ensures
        match r {
            Ok(i) => location_at(old(acc).memory(), b) == Ok::<LocationSnapshot, ReadFault>(i.snapshot()),
            Err(f) => location_at(old(acc).memory(), b) == Err::<LocationSnapshot, ReadFault>(f),
        },
        final(acc).memory() == old(acc).memory(),
        final(acc).read_count() == old(acc).read_count() + location_reads(old(acc).memory(), b),
        r is Ok ==> location_reads(old(acc).memory(), b) == 12,
{
    let folder = read_string(acc, add_offset(b, BEATMAP_FOLDER))?;
    let filename = read_string(acc, add_offset(b, BEATMAP_FILENAME))?;
    let audio = read_string(acc, add_offset(b, BEATMAP_AUDIO))?;
    let cover = read_string(acc, add_offset(b, BEATMAP_COVER))?;
    Ok(BeatmapLocation { folder, filename, audio, cover })
}

/// The reads that reading the stats fields of the beatmap at `b` makes, up to
/// the first failure.
pub open spec fn stats_reads(m: Map<int, u8>, b: i32) -> nat {
    if u32_at(m, offset_addr(b, BEATMAP_AR)) is Err {
        1
    } else if u32_at(m, offset_addr(b, BEATMAP_OD)) is Err {
        2
    } else if u32_at(m, offset_addr(b, BEATMAP_CS)) is Err {
        3
    } else if u32_at(m, offset_addr(b, BEATMAP_HP)) is Err {
        4
    } else if i32_at(m, offset_addr(b, BEATMAP_TOTAL_LENGTH)) is Err {
        5
    } else if u32_at(m, offset_addr(b, BEATMAP_OBJECT_COUNT)) is Err {
        6
    } else {
        7
    }
}

/// The stats of the beatmap at `b`.
pub open spec fn beatmap_stats_at(m: Map<int, u8>, b: i32) -> Result<BeatmapStats, ReadFault> {
    match u32_at(m, offset_addr(b, BEATMAP_AR)) {
        Err(f) => Err(f),
        Ok(ar) =>
            match u32_at(m, offset_addr(b, BEATMAP_OD)) {
                Err(f) => Err(f),
                Ok(od) =>
                    match u32_at(m, offset_addr(b, BEATMAP_CS)) {
                        Err(f) => Err(f),
                        Ok(cs) =>
                            match u32_at(m, offset_addr(b, BEATMAP_HP)) {
                                Err(f) => Err(f),
                                Ok(hp) =>
                                    match i32_at(m, offset_addr(b, BEATMAP_TOTAL_LENGTH)) {
                                        Err(f) => Err(f),
                                        Ok(total_length) =>
                                            match u32_at(m, offset_addr(b, BEATMAP_OBJECT_COUNT)) {
                                                Err(f) => Err(f),
                                                Ok(object_count) =>
                                                    match i32_at(m, offset_addr(b, BEATMAP_SLIDER_COUNT)) {
                                                        Err(f) => Err(f),
                                                        Ok(slider_count) =>
                                                            Ok(BeatmapStats { ar, od, cs, hp, total_length, object_count, slider_count }),
                                                    },
                                            },
                                    },
                            },
                    },
            },
    }
}

fn read_beatmap_stats<M: MemoryAccessor>(acc: &mut M, b: i32) -> (r: Result<BeatmapStats, ReadFault>)
    ensures
        r == beatmap_stats_at(old(acc).memory(), b),
        final(acc).memory() == old(acc).memory(),
        final(acc).read_count() == old(acc).read_count() + stats_reads(old(acc).memory(), b),
        r is Ok ==> stats_reads(old(acc).memory(), b) == 7,
{
    let ar = read_u32(acc, add_offset(b, BEATMAP_AR))?;
    let od = read_u32(acc, add_offset(b, BEATMAP_OD))?;
    let cs = read_u32(acc, add_offset(b, BEATMAP_CS))?;
    let hp = read_u32(acc, add_offset(b, BEATMAP_HP))?;
    let total_length = read_i32(acc, add_offset(b, BEATMAP_TOTAL_LENGTH))?;
    let object_count = read_u32(acc, add_offset(b, BEATMAP_OBJECT_COUNT))?;
    let slider_count = read_i32(acc, add_offset(b, BEATMAP_SLIDER_COUNT))?;
    Ok(BeatmapStats { ar, od, cs, hp, total_length, object_count, slider_count })
}


/// The fields of the beatmap at `b`, group by group.
pub open spec fn beatmap_core_at(m: Map<int, u8>, b: i32) -> Result<BeatmapSnapshot, ReadFault> {
    match technical_at(m, b) {
        Err(f) => Err(f),
        Ok(technical) => match metadata_at(m, b) {
            Err(f) => Err(f),
            Ok(metadata) => match beatmap_stats_at(m, b) {
                Err(f) => Err(f),
                Ok(stats) => match location_at(m, b) {
                    Err(f) => Err(f),
                    Ok(location) => Ok(BeatmapSnapshot { technical, metadata, stats, location }),
                },
            },
        },
    }
}

/// The reads that reading the beatmap at `b` makes, group by group, up to
/// the first failure.
pub open spec fn beatmap_core_reads(m: Map<int, u8>, b: i32) -> nat {
    if technical_at(m, b) is Err {
        technical_reads(m, b)
    } else if metadata_at(m, b) is Err {
        7 + metadata_reads(m, b)
    } else if beatmap_stats_at(m, b) is Err {
        25 + stats_reads(m, b)
    } else {
        32 + location_reads(m, b)
    }
}

fn read_beatmap_core<M: MemoryAccessor>(acc: &mut M, b: i32) -> (r: Result<BeatmapInfo, ReadFault>)
    ensures
        match r {
            Ok(i) => beatmap_core_at(old(acc).memory(), b) == Ok::<BeatmapSnapshot, ReadFault>(i.snapshot()),
            Err(f) => beatmap_core_at(old(acc).memory(), b) == Err::<BeatmapSnapshot, ReadFault>(f),
        },
        final(acc).memory() == old(acc).memory(),
        final(acc).read_count() == old(acc).read_count() + beatmap_core_reads(old(acc).memory(), b),
        r is Ok ==> beatmap_core_reads(old(acc).memory(), b) == 44,
{
    let technical = read_technical(acc, b)?;
    let metadata = read_metadata(acc, b)?;
    let stats = read_beatmap_stats(acc, b)?;
    let location = read_location(acc, b)?;
    Ok(BeatmapInfo { technical, metadata, stats, location })
}

/// The result of a beatmap snapshot.
pub open spec fn beatmap_info_result(m: Map<int, u8>, st: State) -> Result<BeatmapSnapshot, Error> {
    lift(
        match chain(m, st, AnchorKind::Base, beatmap_path()) {
            Ok(b) => beatmap_core_at(m, b),
            Err(f) => Err(f),
        },
    )
}

/// The reads that resolving the beatmap and then reading it with `reads`
/// makes.
pub open spec fn beatmap_block_reads(m: Map<int, u8>, st: State, reads: spec_fn(i32) -> nat) -> nat {
    chain_reads(m, st, AnchorKind::Base, beatmap_path()) + match chain(m, st, AnchorKind::Base, beatmap_path()) {
        Ok(b) => reads(b),
        Err(_) => 0,
    }
}

/// The reads that a beatmap snapshot makes besides deriving the anchor: two
/// to reach the beatmap, three for each of the eleven texts and one for each
/// of the eleven numbers.
pub open spec fn beatmap_info_reads() -> nat {
    46
}

/// A snapshot of every field of the current beatmap.
///
/// The beatmap address is resolved once and every field is read from it.
#[verifier::rlimit(30)]
pub fn get_beatmap_info<M: MemoryAccessor>(acc: &mut M, state: &mut State) -> (r: Result<BeatmapInfo, Error>)
    ensures
        match r {
            Ok(i) => beatmap_info_result(old(acc).memory(), *old(state)) == Ok::<BeatmapSnapshot, Error>(i.snapshot()),
            Err(e) => beatmap_info_result(old(acc).memory(), *old(state)) == Err::<BeatmapSnapshot, Error>(e),
        },
        *final(state) == settle(old(acc).memory(), *old(state), AnchorKind::Base, r is Ok),
        final(acc).memory() == old(acc).memory(),
        final(acc).read_count() == old(acc).read_count() + beatmap_block_reads(old(acc).memory(), *old(state), |b: i32| beatmap_core_reads(old(acc).memory(), b)),
        r is Ok ==> final(acc).read_count() == old(acc).read_count() + beatmap_info_reads()
            + anchor_cost(*old(state), AnchorKind::Base),
{
    let hops = beatmap_hops();
    let b = resolve(acc, state, AnchorKind::Base, hops.as_slice())?;
    match read_beatmap_core(acc, b) {
        Ok(i) => Ok(i),
        Err(f) => {
            state.invalidate(AnchorKind::Base);
            Err(Error::MemoryRead(f))
        },
    }
}

/// The difficulty settings and counts of the current beatmap.
pub fn get_beatmap_stats<M: MemoryAccessor>(acc: &mut M, state: &mut State) -> (r: Result<BeatmapStats, Error>)
    ensures
        r == lift(
            match chain(old(acc).memory(), *old(state), AnchorKind::Base, beatmap_path()) {
                Ok(b) => beatmap_stats_at(old(acc).memory(), b),
                Err(f) => Err(f),
            },
        ),
        *final(state) == settle(old(acc).memory(), *old(state), AnchorKind::Base, r is Ok),
        final(acc).memory() == old(acc).memory(),
        final(acc).read_count() == old(acc).read_count() + beatmap_block_reads(old(acc).memory(), *old(state), |b: i32| stats_reads(old(acc).memory(), b)),
        r is Ok ==> final(acc).read_count() == old(acc).read_count() + anchor_cost(*old(state), AnchorKind::Base) + 9,
{
    let hops = beatmap_hops();
    let b = resolve(acc, state, AnchorKind::Base, hops.as_slice())?;
    match read_beatmap_stats(acc, b) {
        Ok(st) => Ok(st),
        Err(f) => {
            state.invalidate(AnchorKind::Base);
            Err(Error::MemoryRead(f))
        },
    }
}

} // verus!
