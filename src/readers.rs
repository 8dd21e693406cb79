use vstd::prelude::*;

use crate::beatmap::{
    beatmap_block_reads, beatmap_core_reads, stats_reads, beatmap_i32, beatmap_info_result, beatmap_path, beatmap_stats_at, beatmap_status_of, beatmap_text,
    beatmap_u32, BeatmapInfo, BeatmapSnapshot, BeatmapStats, BeatmapStatus,
};
use crate::chain::{chain, chain_i32, chain_text_reads, field_reads, text_result};
use crate::common::{game_mode_of, GameMode, GameState, Hit, OsuClientKind};
use crate::error::{Error, Unavailable};
use crate::gameplay::{
    chain_hits, chain_hits_reads, chain_mods, chain_mods_reads, gameplay_info_outcome, gameplay_info_outcome_reads, playing_reads, playing_text_reads, hp_base_path, menu_path, playing_i16, playing_i32,
    playing_text, playing_u64, playtime_path, score_base_path, GameplayInfo, GameplaySnapshot,
};
use crate::gate::{gated, gated_reads};
use crate::memory::MemoryAccessor;
use crate::offsets::{
    BEATMAP_AR, BEATMAP_AUDIO, BEATMAP_AUTHOR, BEATMAP_COVER, BEATMAP_CREATOR, BEATMAP_CS,
    BEATMAP_DIFFICULTY, BEATMAP_DRAIN_TIME, BEATMAP_FILENAME, BEATMAP_FOLDER, BEATMAP_HP, BEATMAP_ID,
    BEATMAP_MD5, BEATMAP_MODE, BEATMAP_OBJECT_COUNT, BEATMAP_OD, BEATMAP_RANKED_STATUS, BEATMAP_SET_ID,
    BEATMAP_SLIDER_COUNT, BEATMAP_TAGS, BEATMAP_TITLE_ORIGINAL, BEATMAP_TITLE_ROMANIZED,
    BEATMAP_TOTAL_LENGTH, COMBO, HITS_100, HITS_300, HITS_50, HITS_GEKI, HITS_KATU, HITS_MISS, HP,
    MAX_COMBO, MENU_RETRIES, SCORE, USERNAME,
};
use crate::state::{anchor_cost, lift, settle, AnchorKind, State};

verus! {

/// Reads the play in progress from a foreign process, for one client variant.
pub struct GameplayReader<'a, M: MemoryAccessor> {
    pub process: &'a mut M,
    pub state: &'a mut State,
    pub osu_type: OsuClientKind,
}

impl<'a, M: MemoryAccessor> GameplayReader<'a, M> {
    /// A reader over `p` that keeps its anchors in `state`.
    pub fn new(p: &'a mut M, state: &'a mut State, osu_type: OsuClientKind) -> (r: Self)
        ensures
            r.process.memory() == old(p).memory(),
            r.process.read_count() == old(p).read_count(),
            *r.state == *old(state),
            r.osu_type == osu_type,
    {
        GameplayReader { process: p, state, osu_type }
    }

    /// The current score. Only the stable client is supported.
    pub fn score(&mut self) -> (r: Result<i32, Error>)
        ensures
            final(self).osu_type == old(self).osu_type,
            final(self).process.memory() == old(self).process.memory(),
            old(self).osu_type != OsuClientKind::Stable ==> r == Err::<i32, Error>(Error::Unsupported) && *final(self).state == *old(self).state
                && final(self).process.read_count() == old(self).process.read_count(),
            old(self).osu_type == OsuClientKind::Stable ==> ({
                &&& (r, *final(self).state) == playing_i32(old(self).process.memory(), *old(self).state, score_base_path(), SCORE)
                &&& final(self).process.read_count() == old(self).process.read_count() + playing_reads(old(self).process.memory(), *old(self).state, score_base_path())
                &&& r is Err && r->Err_0 is NotAvailable ==> final(self).process.read_count() == old(self).process.read_count() + anchor_cost(*old(self).state, AnchorKind::Status) + 2
            }),
    {
        match self.osu_type {
            OsuClientKind::Stable => crate::gameplay::score(self.process, self.state),
            _ => Err(Error::Unsupported),
        }
    }

    /// The active mods. Only the stable client is supported.
    pub fn mods(&mut self) -> (r: Result<u32, Error>)
        ensures
            final(self).osu_type == old(self).osu_type,
            final(self).process.memory() == old(self).process.memory(),
            old(self).osu_type != OsuClientKind::Stable ==> r == Err::<u32, Error>(Error::Unsupported) && *final(self).state == *old(self).state
                && final(self).process.read_count() == old(self).process.read_count(),
            old(self).osu_type == OsuClientKind::Stable ==> ({
                &&& (r, *final(self).state) == gated(old(self).process.memory(), *old(self).state, GameState::Playing, Unavailable::NotPlaying, AnchorKind::Rulesets, |s: State| chain_mods(old(self).process.memory(), s))
                &&& final(self).process.read_count() == old(self).process.read_count() + gated_reads(old(self).process.memory(), *old(self).state, GameState::Playing, Unavailable::NotPlaying, |s: State| chain_mods_reads(old(self).process.memory(), s))
                &&& r is Err && r->Err_0 is NotAvailable ==> final(self).process.read_count() == old(self).process.read_count() + anchor_cost(*old(self).state, AnchorKind::Status) + 2
            }),
    {
        match self.osu_type {
            OsuClientKind::Stable => crate::gameplay::mods(self.process, self.state),
            _ => Err(Error::Unsupported),
        }
    }

    /// The current combo. Only the stable client is supported.
    pub fn combo(&mut self) -> (r: Result<i16, Error>)
        ensures
            final(self).osu_type == old(self).osu_type,
            final(self).process.memory() == old(self).process.memory(),
            old(self).osu_type != OsuClientKind::Stable ==> r == Err::<i16, Error>(Error::Unsupported) && *final(self).state == *old(self).state
                && final(self).process.read_count() == old(self).process.read_count(),
            old(self).osu_type == OsuClientKind::Stable ==> ({
                &&& (r, *final(self).state) == playing_i16(old(self).process.memory(), *old(self).state, score_base_path(), COMBO)
                &&& final(self).process.read_count() == old(self).process.read_count() + playing_reads(old(self).process.memory(), *old(self).state, score_base_path())
                &&& r is Err && r->Err_0 is NotAvailable ==> final(self).process.read_count() == old(self).process.read_count() + anchor_cost(*old(self).state, AnchorKind::Status) + 2
            }),
    {
        match self.osu_type {
            OsuClientKind::Stable => crate::gameplay::combo(self.process, self.state),
            _ => Err(Error::Unsupported),
        }
    }

    /// The highest combo so far. Only the stable client is supported.
    pub fn max_combo(&mut self) -> (r: Result<i16, Error>)
        ensures
            final(self).osu_type == old(self).osu_type,
            final(self).process.memory() == old(self).process.memory(),
            old(self).osu_type != OsuClientKind::Stable ==> r == Err::<i16, Error>(Error::Unsupported) && *final(self).state == *old(self).state
                && final(self).process.read_count() == old(self).process.read_count(),
            old(self).osu_type == OsuClientKind::Stable ==> ({
                &&& (r, *final(self).state) == playing_i16(old(self).process.memory(), *old(self).state, score_base_path(), MAX_COMBO)
                &&& final(self).process.read_count() == old(self).process.read_count() + playing_reads(old(self).process.memory(), *old(self).state, score_base_path())
                &&& r is Err && r->Err_0 is NotAvailable ==> final(self).process.read_count() == old(self).process.read_count() + anchor_cost(*old(self).state, AnchorKind::Status) + 2
            }),
    {
        match self.osu_type {
            OsuClientKind::Stable => crate::gameplay::max_combo(self.process, self.state),
            _ => Err(Error::Unsupported),
        }
    }

    /// The health value, as the bits of an IEEE-754 double. Only the stable client is supported.
    pub fn hp(&mut self) -> (r: Result<u64, Error>)
        ensures
            final(self).osu_type == old(self).osu_type,
            final(self).process.memory() == old(self).process.memory(),
            old(self).osu_type != OsuClientKind::Stable ==> r == Err::<u64, Error>(Error::Unsupported) && *final(self).state == *old(self).state
                && final(self).process.read_count() == old(self).process.read_count(),
            old(self).osu_type == OsuClientKind::Stable ==> ({
                &&& (r, *final(self).state) == playing_u64(old(self).process.memory(), *old(self).state, hp_base_path(), HP)
                &&& final(self).process.read_count() == old(self).process.read_count() + playing_reads(old(self).process.memory(), *old(self).state, hp_base_path())
                &&& r is Err && r->Err_0 is NotAvailable ==> final(self).process.read_count() == old(self).process.read_count() + anchor_cost(*old(self).state, AnchorKind::Status) + 2
            }),
    {
        match self.osu_type {
            OsuClientKind::Stable => crate::gameplay::hp(self.process, self.state),
            _ => Err(Error::Unsupported),
        }
    }

    /// The name of the player. Only the stable client is supported.
    pub fn username(&mut self) -> (r: Result<String, Error>)
        ensures
            final(self).osu_type == old(self).osu_type,
            final(self).process.memory() == old(self).process.memory(),
            old(self).osu_type != OsuClientKind::Stable ==> r == Err::<String, Error>(Error::Unsupported) && *final(self).state == *old(self).state
                && final(self).process.read_count() == old(self).process.read_count(),
            old(self).osu_type == OsuClientKind::Stable ==> ({
                &&& (text_result(r), *final(self).state) == playing_text(old(self).process.memory(), *old(self).state, score_base_path(), USERNAME)
                &&& final(self).process.read_count() == old(self).process.read_count() + playing_text_reads(old(self).process.memory(), *old(self).state, score_base_path(), USERNAME)
                &&& r is Err && r->Err_0 is NotAvailable ==> final(self).process.read_count() == old(self).process.read_count() + anchor_cost(*old(self).state, AnchorKind::Status) + 2
            }),
    {
        match self.osu_type {
            OsuClientKind::Stable => crate::gameplay::username(self.process, self.state),
            _ => Err(Error::Unsupported),
        }
    }

    /// The in-game time. Only the stable client is supported.
    pub fn game_time(&mut self) -> (r: Result<i32, Error>)
        ensures
            final(self).osu_type == old(self).osu_type,
            final(self).process.memory() == old(self).process.memory(),
            old(self).osu_type != OsuClientKind::Stable ==> r == Err::<i32, Error>(Error::Unsupported) && *final(self).state == *old(self).state
                && final(self).process.read_count() == old(self).process.read_count(),
            old(self).osu_type == OsuClientKind::Stable ==> ({
                &&& r == lift(chain_i32(old(self).process.memory(), *old(self).state, AnchorKind::Playtime, playtime_path(), 0))
                &&& *final(self).state == settle(old(self).process.memory(), *old(self).state, AnchorKind::Playtime, r is Ok)
                &&& final(self).process.read_count() == old(self).process.read_count() + field_reads(old(self).process.memory(), *old(self).state, AnchorKind::Playtime, playtime_path())
            }),
    {
        match self.osu_type {
            OsuClientKind::Stable => crate::gameplay::game_time(self.process, self.state),
            _ => Err(Error::Unsupported),
        }
    }

    /// How many times the map was retried. Only the stable client is supported.
    pub fn retries(&mut self) -> (r: Result<i32, Error>)
        ensures
            final(self).osu_type == old(self).osu_type,
            final(self).process.memory() == old(self).process.memory(),
            old(self).osu_type != OsuClientKind::Stable ==> r == Err::<i32, Error>(Error::Unsupported) && *final(self).state == *old(self).state
                && final(self).process.read_count() == old(self).process.read_count(),
            old(self).osu_type == OsuClientKind::Stable ==> ({
                &&& r == lift(chain_i32(old(self).process.memory(), *old(self).state, AnchorKind::Base, menu_path(), MENU_RETRIES))
                &&& *final(self).state == settle(old(self).process.memory(), *old(self).state, AnchorKind::Base, r is Ok)
                &&& final(self).process.read_count() == old(self).process.read_count() + field_reads(old(self).process.memory(), *old(self).state, AnchorKind::Base, menu_path())
            }),
    {
        match self.osu_type {
            OsuClientKind::Stable => crate::gameplay::retries(self.process, self.state),
            _ => Err(Error::Unsupported),
        }
    }

    /// The 300 hit count. Only the stable client is supported.
    pub fn hits_300(&mut self) -> (r: Result<i16, Error>)
        ensures
            final(self).osu_type == old(self).osu_type,
            final(self).process.memory() == old(self).process.memory(),
            old(self).osu_type != OsuClientKind::Stable ==> r == Err::<i16, Error>(Error::Unsupported) && *final(self).state == *old(self).state
                && final(self).process.read_count() == old(self).process.read_count(),
            old(self).osu_type == OsuClientKind::Stable ==> ({
                &&& (r, *final(self).state) == playing_i16(old(self).process.memory(), *old(self).state, score_base_path(), HITS_300)
                &&& final(self).process.read_count() == old(self).process.read_count() + playing_reads(old(self).process.memory(), *old(self).state, score_base_path())
                &&& r is Err && r->Err_0 is NotAvailable ==> final(self).process.read_count() == old(self).process.read_count() + anchor_cost(*old(self).state, AnchorKind::Status) + 2
            }),
    {
        match self.osu_type {
            OsuClientKind::Stable => crate::gameplay::hits_300(self.process, self.state),
            _ => Err(Error::Unsupported),
        }
    }

    /// The 100 hit count. Only the stable client is supported.
    pub fn hits_100(&mut self) -> (r: Result<i16, Error>)
        ensures
            final(self).osu_type == old(self).osu_type,
            final(self).process.memory() == old(self).process.memory(),
            old(self).osu_type != OsuClientKind::Stable ==> r == Err::<i16, Error>(Error::Unsupported) && *final(self).state == *old(self).state
                && final(self).process.read_count() == old(self).process.read_count(),
            old(self).osu_type == OsuClientKind::Stable ==> ({
                &&& (r, *final(self).state) == playing_i16(old(self).process.memory(), *old(self).state, score_base_path(), HITS_100)
                &&& final(self).process.read_count() == old(self).process.read_count() + playing_reads(old(self).process.memory(), *old(self).state, score_base_path())
                &&& r is Err && r->Err_0 is NotAvailable ==> final(self).process.read_count() == old(self).process.read_count() + anchor_cost(*old(self).state, AnchorKind::Status) + 2
            }),
    {
        match self.osu_type {
            OsuClientKind::Stable => crate::gameplay::hits_100(self.process, self.state),
            _ => Err(Error::Unsupported),
        }
    }

    /// The 50 hit count. Only the stable client is supported.
    pub fn hits_50(&mut self) -> (r: Result<i16, Error>)
        ensures
            final(self).osu_type == old(self).osu_type,
            final(self).process.memory() == old(self).process.memory(),
            old(self).osu_type != OsuClientKind::Stable ==> r == Err::<i16, Error>(Error::Unsupported) && *final(self).state == *old(self).state
                && final(self).process.read_count() == old(self).process.read_count(),
            old(self).osu_type == OsuClientKind::Stable ==> ({
                &&& (r, *final(self).state) == playing_i16(old(self).process.memory(), *old(self).state, score_base_path(), HITS_50)
                &&& final(self).process.read_count() == old(self).process.read_count() + playing_reads(old(self).process.memory(), *old(self).state, score_base_path())
                &&& r is Err && r->Err_0 is NotAvailable ==> final(self).process.read_count() == old(self).process.read_count() + anchor_cost(*old(self).state, AnchorKind::Status) + 2
            }),
    {
        match self.osu_type {
            OsuClientKind::Stable => crate::gameplay::hits_50(self.process, self.state),
            _ => Err(Error::Unsupported),
        }
    }

    /// The miss hit count. Only the stable client is supported.
    pub fn hits_miss(&mut self) -> (r: Result<i16, Error>)
        ensures
            final(self).osu_type == old(self).osu_type,
            final(self).process.memory() == old(self).process.memory(),
            old(self).osu_type != OsuClientKind::Stable ==> r == Err::<i16, Error>(Error::Unsupported) && *final(self).state == *old(self).state
                && final(self).process.read_count() == old(self).process.read_count(),
            old(self).osu_type == OsuClientKind::Stable ==> ({
                &&& (r, *final(self).state) == playing_i16(old(self).process.memory(), *old(self).state, score_base_path(), HITS_MISS)
                &&& final(self).process.read_count() == old(self).process.read_count() + playing_reads(old(self).process.memory(), *old(self).state, score_base_path())
                &&& r is Err && r->Err_0 is NotAvailable ==> final(self).process.read_count() == old(self).process.read_count() + anchor_cost(*old(self).state, AnchorKind::Status) + 2
            }),
    {
        match self.osu_type {
            OsuClientKind::Stable => crate::gameplay::hits_miss(self.process, self.state),
            _ => Err(Error::Unsupported),
        }
    }

    /// The geki hit count. Only the stable client is supported.
    pub fn hits_geki(&mut self) -> (r: Result<i16, Error>)
        ensures
            final(self).osu_type == old(self).osu_type,
            final(self).process.memory() == old(self).process.memory(),
            old(self).osu_type != OsuClientKind::Stable ==> r == Err::<i16, Error>(Error::Unsupported) && *final(self).state == *old(self).state
                && final(self).process.read_count() == old(self).process.read_count(),
            old(self).osu_type == OsuClientKind::Stable ==> ({
                &&& (r, *final(self).state) == playing_i16(old(self).process.memory(), *old(self).state, score_base_path(), HITS_GEKI)
                &&& final(self).process.read_count() == old(self).process.read_count() + playing_reads(old(self).process.memory(), *old(self).state, score_base_path())
                &&& r is Err && r->Err_0 is NotAvailable ==> final(self).process.read_count() == old(self).process.read_count() + anchor_cost(*old(self).state, AnchorKind::Status) + 2
            }),
    {
        match self.osu_type {
            OsuClientKind::Stable => crate::gameplay::hits_geki(self.process, self.state),
            _ => Err(Error::Unsupported),
        }
    }

    /// The katu hit count. Only the stable client is supported.
    pub fn hits_katu(&mut self) -> (r: Result<i16, Error>)
        ensures
            final(self).osu_type == old(self).osu_type,
            final(self).process.memory() == old(self).process.memory(),
            old(self).osu_type != OsuClientKind::Stable ==> r == Err::<i16, Error>(Error::Unsupported) && *final(self).state == *old(self).state
                && final(self).process.read_count() == old(self).process.read_count(),
            old(self).osu_type == OsuClientKind::Stable ==> ({
                &&& (r, *final(self).state) == playing_i16(old(self).process.memory(), *old(self).state, score_base_path(), HITS_KATU)
                &&& final(self).process.read_count() == old(self).process.read_count() + playing_reads(old(self).process.memory(), *old(self).state, score_base_path())
                &&& r is Err && r->Err_0 is NotAvailable ==> final(self).process.read_count() == old(self).process.read_count() + anchor_cost(*old(self).state, AnchorKind::Status) + 2
            }),
    {
        match self.osu_type {
            OsuClientKind::Stable => crate::gameplay::hits_katu(self.process, self.state),
            _ => Err(Error::Unsupported),
        }
    }

    /// All hit counts. Only the stable client is supported.
    pub fn hits(&mut self) -> (r: Result<Hit, Error>)
        ensures
            final(self).osu_type == old(self).osu_type,
            final(self).process.memory() == old(self).process.memory(),
            old(self).osu_type != OsuClientKind::Stable ==> r == Err::<Hit, Error>(Error::Unsupported) && *final(self).state == *old(self).state
                && final(self).process.read_count() == old(self).process.read_count(),
            old(self).osu_type == OsuClientKind::Stable ==> ({
                &&& (r, *final(self).state) == gated(old(self).process.memory(), *old(self).state, GameState::Playing, Unavailable::NotPlaying, AnchorKind::Rulesets, |s: State| chain_hits(old(self).process.memory(), s))
                &&& final(self).process.read_count() == old(self).process.read_count() + gated_reads(old(self).process.memory(), *old(self).state, GameState::Playing, Unavailable::NotPlaying, |s: State| chain_hits_reads(old(self).process.memory(), s))
                &&& r is Err && r->Err_0 is NotAvailable ==> final(self).process.read_count() == old(self).process.read_count() + anchor_cost(*old(self).state, AnchorKind::Status) + 2
            }),
    {
        match self.osu_type {
            OsuClientKind::Stable => crate::gameplay::hits(self.process, self.state),
            _ => Err(Error::Unsupported),
        }
    }

    /// A snapshot of every gameplay field. Only the stable client is supported.
    pub fn gameplay_info(&mut self) -> (r: Result<GameplayInfo, Error>)
        ensures
            final(self).osu_type == old(self).osu_type,
            final(self).process.memory() == old(self).process.memory(),
            old(self).osu_type != OsuClientKind::Stable ==> r == Err::<GameplayInfo, Error>(Error::Unsupported) && *final(self).state == *old(self).state
                && final(self).process.read_count() == old(self).process.read_count(),
            old(self).osu_type == OsuClientKind::Stable ==> ({
                &&& match r {
                Ok(i) => gameplay_info_outcome(old(self).process.memory(), *old(self).state).0 == Ok::<GameplaySnapshot, Error>(i.snapshot()),
                Err(e) => gameplay_info_outcome(old(self).process.memory(), *old(self).state).0 == Err::<GameplaySnapshot, Error>(e),
            }
                &&& *final(self).state == gameplay_info_outcome(old(self).process.memory(), *old(self).state).1
                &&& final(self).process.read_count() == old(self).process.read_count() + gameplay_info_outcome_reads(old(self).process.memory(), *old(self).state)
                &&& r is Err && r->Err_0 is NotAvailable ==> final(self).process.read_count() == old(self).process.read_count() + anchor_cost(*old(self).state, AnchorKind::Status) + 2
            }),
    {
        match self.osu_type {
            OsuClientKind::Stable => crate::gameplay::info(self.process, self.state),
            _ => Err(Error::Unsupported),
        }
    }

}

/// Reads the current beatmap from a foreign process, for one client variant.
pub struct BeatmapReader<'a, M: MemoryAccessor> {
    pub process: &'a mut M,
    pub state: &'a mut State,
    pub osu_type: OsuClientKind,
}

impl<'a, M: MemoryAccessor> BeatmapReader<'a, M> {
    /// A reader over `p` that keeps its anchors in `state`; never fails.
    pub fn new(p: &'a mut M, state: &'a mut State, osu_type: OsuClientKind) -> (r: Result<Self, Error>)
        ensures
            r is Ok,
            r->Ok_0.process.memory() == old(p).memory(),
            r->Ok_0.process.read_count() == old(p).read_count(),
            *r->Ok_0.state == *old(state),
            r->Ok_0.osu_type == osu_type,
    {
        Ok(BeatmapReader { process: p, state, osu_type })
    }

    /// A snapshot of every field of the current beatmap. Only the stable client is supported.
    pub fn info(&mut self) -> (r: Result<BeatmapInfo, Error>)
        ensures
            final(self).osu_type == old(self).osu_type,
            final(self).process.memory() == old(self).process.memory(),
            old(self).osu_type != OsuClientKind::Stable ==> r == Err::<BeatmapInfo, Error>(Error::Unsupported) && *final(self).state == *old(self).state
                && final(self).process.read_count() == old(self).process.read_count(),
            old(self).osu_type == OsuClientKind::Stable ==> ({
                &&& match r {
                Ok(i) => beatmap_info_result(old(self).process.memory(), *old(self).state) == Ok::<BeatmapSnapshot, Error>(i.snapshot()),
                Err(e) => beatmap_info_result(old(self).process.memory(), *old(self).state) == Err::<BeatmapSnapshot, Error>(e),
            }
                &&& *final(self).state == settle(old(self).process.memory(), *old(self).state, AnchorKind::Base, r is Ok)
                &&& final(self).process.read_count() == old(self).process.read_count() + beatmap_block_reads(old(self).process.memory(), *old(self).state, |b: i32| beatmap_core_reads(old(self).process.memory(), b))
            }),
    {
        match self.osu_type {
            OsuClientKind::Stable => crate::beatmap::get_beatmap_info(self.process, self.state),
            _ => Err(Error::Unsupported),
        }
    }

    /// The name of the background image. Only the stable client is supported.
    pub fn cover(&mut self) -> (r: Result<String, Error>)
        ensures
            final(self).osu_type == old(self).osu_type,
            final(self).process.memory() == old(self).process.memory(),
            old(self).osu_type != OsuClientKind::Stable ==> r == Err::<String, Error>(Error::Unsupported) && *final(self).state == *old(self).state
                && final(self).process.read_count() == old(self).process.read_count(),
            old(self).osu_type == OsuClientKind::Stable ==> ({
                &&& text_result(r) == beatmap_text(old(self).process.memory(), *old(self).state, BEATMAP_COVER)
                &&& *final(self).state == settle(old(self).process.memory(), *old(self).state, AnchorKind::Base, r is Ok)
                &&& final(self).process.read_count() == old(self).process.read_count() + chain_text_reads(old(self).process.memory(), *old(self).state, AnchorKind::Base, beatmap_path(), BEATMAP_COVER)
            }),
    {
        match self.osu_type {
            OsuClientKind::Stable => crate::beatmap::get_cover(self.process, self.state),
            _ => Err(Error::Unsupported),
        }
    }

    /// The folder of the beatmap set. Only the stable client is supported.
    pub fn folder(&mut self) -> (r: Result<String, Error>)
        ensures
            final(self).osu_type == old(self).osu_type,
            final(self).process.memory() == old(self).process.memory(),
            old(self).osu_type != OsuClientKind::Stable ==> r == Err::<String, Error>(Error::Unsupported) && *final(self).state == *old(self).state
                && final(self).process.read_count() == old(self).process.read_count(),
            old(self).osu_type == OsuClientKind::Stable ==> ({
                &&& text_result(r) == beatmap_text(old(self).process.memory(), *old(self).state, BEATMAP_FOLDER)
                &&& *final(self).state == settle(old(self).process.memory(), *old(self).state, AnchorKind::Base, r is Ok)
                &&& final(self).process.read_count() == old(self).process.read_count() + chain_text_reads(old(self).process.memory(), *old(self).state, AnchorKind::Base, beatmap_path(), BEATMAP_FOLDER)
            }),
    {
        match self.osu_type {
            OsuClientKind::Stable => crate::beatmap::get_folder(self.process, self.state),
            _ => Err(Error::Unsupported),
        }
    }

    /// The name of the beatmap file. Only the stable client is supported.
    pub fn filename(&mut self) -> (r: Result<String, Error>)
        ensures
            final(self).osu_type == old(self).osu_type,
            final(self).process.memory() == old(self).process.memory(),
            old(self).osu_type != OsuClientKind::Stable ==> r == Err::<String, Error>(Error::Unsupported) && *final(self).state == *old(self).state
                && final(self).process.read_count() == old(self).process.read_count(),
            old(self).osu_type == OsuClientKind::Stable ==> ({
                &&& text_result(r) == beatmap_text(old(self).process.memory(), *old(self).state, BEATMAP_FILENAME)
                &&& *final(self).state == settle(old(self).process.memory(), *old(self).state, AnchorKind::Base, r is Ok)
                &&& final(self).process.read_count() == old(self).process.read_count() + chain_text_reads(old(self).process.memory(), *old(self).state, AnchorKind::Base, beatmap_path(), BEATMAP_FILENAME)
            }),
    {
        match self.osu_type {
            OsuClientKind::Stable => crate::beatmap::get_filename(self.process, self.state),
            _ => Err(Error::Unsupported),
        }
    }

    /// The name of the audio file. Only the stable client is supported.
    pub fn audio(&mut self) -> (r: Result<String, Error>)
        ensures
            final(self).osu_type == old(self).osu_type,
            final(self).process.memory() == old(self).process.memory(),
            old(self).osu_type != OsuClientKind::Stable ==> r == Err::<String, Error>(Error::Unsupported) && *final(self).state == *old(self).state
                && final(self).process.read_count() == old(self).process.read_count(),
            old(self).osu_type == OsuClientKind::Stable ==> ({
                &&& text_result(r) == beatmap_text(old(self).process.memory(), *old(self).state, BEATMAP_AUDIO)
                &&& *final(self).state == settle(old(self).process.memory(), *old(self).state, AnchorKind::Base, r is Ok)
                &&& final(self).process.read_count() == old(self).process.read_count() + chain_text_reads(old(self).process.memory(), *old(self).state, AnchorKind::Base, beatmap_path(), BEATMAP_AUDIO)
            }),
    {
        match self.osu_type {
            OsuClientKind::Stable => crate::beatmap::get_audio(self.process, self.state),
            _ => Err(Error::Unsupported),
        }
    }

    /// The MD5 digest of the beatmap file, as text. Only the stable client is supported.
    pub fn md5(&mut self) -> (r: Result<String, Error>)
        ensures
            final(self).osu_type == old(self).osu_type,
            final(self).process.memory() == old(self).process.memory(),
            old(self).osu_type != OsuClientKind::Stable ==> r == Err::<String, Error>(Error::Unsupported) && *final(self).state == *old(self).state
                && final(self).process.read_count() == old(self).process.read_count(),
            old(self).osu_type == OsuClientKind::Stable ==> ({
                &&& text_result(r) == beatmap_text(old(self).process.memory(), *old(self).state, BEATMAP_MD5)
                &&& *final(self).state == settle(old(self).process.memory(), *old(self).state, AnchorKind::Base, r is Ok)
                &&& final(self).process.read_count() == old(self).process.read_count() + chain_text_reads(old(self).process.memory(), *old(self).state, AnchorKind::Base, beatmap_path(), BEATMAP_MD5)
            }),
    {
        match self.osu_type {
            OsuClientKind::Stable => crate::beatmap::get_beatmap_md5(self.process, self.state),
            _ => Err(Error::Unsupported),
        }
    }

    /// The beatmap id. Only the stable client is supported.
    pub fn id(&mut self) -> (r: Result<i32, Error>)
        ensures
            final(self).osu_type == old(self).osu_type,
            final(self).process.memory() == old(self).process.memory(),
            old(self).osu_type != OsuClientKind::Stable ==> r == Err::<i32, Error>(Error::Unsupported) && *final(self).state == *old(self).state
                && final(self).process.read_count() == old(self).process.read_count(),
            old(self).osu_type == OsuClientKind::Stable ==> ({
                &&& r == beatmap_i32(old(self).process.memory(), *old(self).state, BEATMAP_ID)
                &&& *final(self).state == settle(old(self).process.memory(), *old(self).state, AnchorKind::Base, r is Ok)
                &&& final(self).process.read_count() == old(self).process.read_count() + field_reads(old(self).process.memory(), *old(self).state, AnchorKind::Base, beatmap_path())
            }),
    {
        match self.osu_type {
            OsuClientKind::Stable => crate::beatmap::get_beatmap_id(self.process, self.state),
            _ => Err(Error::Unsupported),
        }
    }

    /// The beatmap set id. Only the stable client is supported.
    pub fn set_id(&mut self) -> (r: Result<i32, Error>)
        ensures
            final(self).osu_type == old(self).osu_type,
            final(self).process.memory() == old(self).process.memory(),
            old(self).osu_type != OsuClientKind::Stable ==> r == Err::<i32, Error>(Error::Unsupported) && *final(self).state == *old(self).state
                && final(self).process.read_count() == old(self).process.read_count(),
            old(self).osu_type == OsuClientKind::Stable ==> ({
                &&& r == beatmap_i32(old(self).process.memory(), *old(self).state, BEATMAP_SET_ID)
                &&& *final(self).state == settle(old(self).process.memory(), *old(self).state, AnchorKind::Base, r is Ok)
                &&& final(self).process.read_count() == old(self).process.read_count() + field_reads(old(self).process.memory(), *old(self).state, AnchorKind::Base, beatmap_path())
            }),
    {
        match self.osu_type {
            OsuClientKind::Stable => crate::beatmap::get_beatmap_set_id(self.process, self.state),
            _ => Err(Error::Unsupported),
        }
    }

    /// The ruleset the beatmap is made for. Only the stable client is supported.
    pub fn mode(&mut self) -> (r: Result<GameMode, Error>)
        ensures
            final(self).osu_type == old(self).osu_type,
            final(self).process.memory() == old(self).process.memory(),
            old(self).osu_type != OsuClientKind::Stable ==> r == Err::<GameMode, Error>(Error::Unsupported) && *final(self).state == *old(self).state
                && final(self).process.read_count() == old(self).process.read_count(),
            old(self).osu_type == OsuClientKind::Stable ==> ({
                &&& r == match beatmap_i32(old(self).process.memory(), *old(self).state, BEATMAP_MODE) {
                Ok(v) => Ok(game_mode_of(v)),
                Err(e) => Err(e),
            }
                &&& *final(self).state == settle(old(self).process.memory(), *old(self).state, AnchorKind::Base, r is Ok)
                &&& final(self).process.read_count() == old(self).process.read_count() + field_reads(old(self).process.memory(), *old(self).state, AnchorKind::Base, beatmap_path())
            }),
    {
        match self.osu_type {
            OsuClientKind::Stable => crate::beatmap::get_beatmap_mode(self.process, self.state),
            _ => Err(Error::Unsupported),
        }
    }

    /// The tags. Only the stable client is supported.
    pub fn tags(&mut self) -> (r: Result<String, Error>)
        ensures
            final(self).osu_type == old(self).osu_type,
            final(self).process.memory() == old(self).process.memory(),
            old(self).osu_type != OsuClientKind::Stable ==> r == Err::<String, Error>(Error::Unsupported) && *final(self).state == *old(self).state
                && final(self).process.read_count() == old(self).process.read_count(),
            old(self).osu_type == OsuClientKind::Stable ==> ({
                &&& text_result(r) == beatmap_text(old(self).process.memory(), *old(self).state, BEATMAP_TAGS)
                &&& *final(self).state == settle(old(self).process.memory(), *old(self).state, AnchorKind::Base, r is Ok)
                &&& final(self).process.read_count() == old(self).process.read_count() + chain_text_reads(old(self).process.memory(), *old(self).state, AnchorKind::Base, beatmap_path(), BEATMAP_TAGS)
            }),
    {
        match self.osu_type {
            OsuClientKind::Stable => crate::beatmap::get_beatmap_tags(self.process, self.state),
            _ => Err(Error::Unsupported),
        }
    }

    /// The total length in milliseconds. Only the stable client is supported.
    pub fn length(&mut self) -> (r: Result<i32, Error>)
        ensures
            final(self).osu_type == old(self).osu_type,
            final(self).process.memory() == old(self).process.memory(),
            old(self).osu_type != OsuClientKind::Stable ==> r == Err::<i32, Error>(Error::Unsupported) && *final(self).state == *old(self).state
                && final(self).process.read_count() == old(self).process.read_count(),
            old(self).osu_type == OsuClientKind::Stable ==> ({
                &&& r == beatmap_i32(old(self).process.memory(), *old(self).state, BEATMAP_TOTAL_LENGTH)
                &&& *final(self).state == settle(old(self).process.memory(), *old(self).state, AnchorKind::Base, r is Ok)
                &&& final(self).process.read_count() == old(self).process.read_count() + field_reads(old(self).process.memory(), *old(self).state, AnchorKind::Base, beatmap_path())
            }),
    {
        match self.osu_type {
            OsuClientKind::Stable => crate::beatmap::get_beatmap_length(self.process, self.state),
            _ => Err(Error::Unsupported),
        }
    }

    /// The drain time in milliseconds. Only the stable client is supported.
    pub fn drain_time(&mut self) -> (r: Result<i32, Error>)
        ensures
            final(self).osu_type == old(self).osu_type,
            final(self).process.memory() == old(self).process.memory(),
            old(self).osu_type != OsuClientKind::Stable ==> r == Err::<i32, Error>(Error::Unsupported) && *final(self).state == *old(self).state
                && final(self).process.read_count() == old(self).process.read_count(),
            old(self).osu_type == OsuClientKind::Stable ==> ({
                &&& r == beatmap_i32(old(self).process.memory(), *old(self).state, BEATMAP_DRAIN_TIME)
                &&& *final(self).state == settle(old(self).process.memory(), *old(self).state, AnchorKind::Base, r is Ok)
                &&& final(self).process.read_count() == old(self).process.read_count() + field_reads(old(self).process.memory(), *old(self).state, AnchorKind::Base, beatmap_path())
            }),
    {
        match self.osu_type {
            OsuClientKind::Stable => crate::beatmap::get_beatmap_drain_time(self.process, self.state),
            _ => Err(Error::Unsupported),
        }
    }

    /// The ranked status. Only the stable client is supported.
    pub fn status(&mut self) -> (r: Result<BeatmapStatus, Error>)
        ensures
            final(self).osu_type == old(self).osu_type,
            final(self).process.memory() == old(self).process.memory(),
            old(self).osu_type != OsuClientKind::Stable ==> r == Err::<BeatmapStatus, Error>(Error::Unsupported) && *final(self).state == *old(self).state
                && final(self).process.read_count() == old(self).process.read_count(),
            old(self).osu_type == OsuClientKind::Stable ==> ({
                &&& r == match beatmap_i32(old(self).process.memory(), *old(self).state, BEATMAP_RANKED_STATUS) {
                Ok(v) => Ok(beatmap_status_of(v)),
                Err(e) => Err(e),
            }
                &&& *final(self).state == settle(old(self).process.memory(), *old(self).state, AnchorKind::Base, r is Ok)
                &&& final(self).process.read_count() == old(self).process.read_count() + field_reads(old(self).process.memory(), *old(self).state, AnchorKind::Base, beatmap_path())
            }),
    {
        match self.osu_type {
            OsuClientKind::Stable => crate::beatmap::get_beatmap_status(self.process, self.state),
            _ => Err(Error::Unsupported),
        }
    }

    /// The artist. Only the stable client is supported.
    pub fn author(&mut self) -> (r: Result<String, Error>)
        ensures
            final(self).osu_type == old(self).osu_type,
            final(self).process.memory() == old(self).process.memory(),
            old(self).osu_type != OsuClientKind::Stable ==> r == Err::<String, Error>(Error::Unsupported) && *final(self).state == *old(self).state
                && final(self).process.read_count() == old(self).process.read_count(),
            old(self).osu_type == OsuClientKind::Stable ==> ({
                &&& text_result(r) == beatmap_text(old(self).process.memory(), *old(self).state, BEATMAP_AUTHOR)
                &&& *final(self).state == settle(old(self).process.memory(), *old(self).state, AnchorKind::Base, r is Ok)
                &&& final(self).process.read_count() == old(self).process.read_count() + chain_text_reads(old(self).process.memory(), *old(self).state, AnchorKind::Base, beatmap_path(), BEATMAP_AUTHOR)
            }),
    {
        match self.osu_type {
            OsuClientKind::Stable => crate::beatmap::get_author(self.process, self.state),
            _ => Err(Error::Unsupported),
        }
    }

    /// The mapper. Only the stable client is supported.
    pub fn creator(&mut self) -> (r: Result<String, Error>)
        ensures
            final(self).osu_type == old(self).osu_type,
            final(self).process.memory() == old(self).process.memory(),
            old(self).osu_type != OsuClientKind::Stable ==> r == Err::<String, Error>(Error::Unsupported) && *final(self).state == *old(self).state
                && final(self).process.read_count() == old(self).process.read_count(),
            old(self).osu_type == OsuClientKind::Stable ==> ({
                &&& text_result(r) == beatmap_text(old(self).process.memory(), *old(self).state, BEATMAP_CREATOR)
                &&& *final(self).state == settle(old(self).process.memory(), *old(self).state, AnchorKind::Base, r is Ok)
                &&& final(self).process.read_count() == old(self).process.read_count() + chain_text_reads(old(self).process.memory(), *old(self).state, AnchorKind::Base, beatmap_path(), BEATMAP_CREATOR)
            }),
    {
        match self.osu_type {
            OsuClientKind::Stable => crate::beatmap::get_creator(self.process, self.state),
            _ => Err(Error::Unsupported),
        }
    }

    /// The title in Latin letters. Only the stable client is supported.
    pub fn title_romanized(&mut self) -> (r: Result<String, Error>)
        ensures
            final(self).osu_type == old(self).osu_type,
            final(self).process.memory() == old(self).process.memory(),
            old(self).osu_type != OsuClientKind::Stable ==> r == Err::<String, Error>(Error::Unsupported) && *final(self).state == *old(self).state
                && final(self).process.read_count() == old(self).process.read_count(),
            old(self).osu_type == OsuClientKind::Stable ==> ({
                &&& text_result(r) == beatmap_text(old(self).process.memory(), *old(self).state, BEATMAP_TITLE_ROMANIZED)
                &&& *final(self).state == settle(old(self).process.memory(), *old(self).state, AnchorKind::Base, r is Ok)
                &&& final(self).process.read_count() == old(self).process.read_count() + chain_text_reads(old(self).process.memory(), *old(self).state, AnchorKind::Base, beatmap_path(), BEATMAP_TITLE_ROMANIZED)
            }),
    {
        match self.osu_type {
            OsuClientKind::Stable => crate::beatmap::get_title_romanized(self.process, self.state),
            _ => Err(Error::Unsupported),
        }
    }

    /// The title as written by the artist. Only the stable client is supported.
    pub fn title(&mut self) -> (r: Result<String, Error>)
        ensures
            final(self).osu_type == old(self).osu_type,
            final(self).process.memory() == old(self).process.memory(),
            old(self).osu_type != OsuClientKind::Stable ==> r == Err::<String, Error>(Error::Unsupported) && *final(self).state == *old(self).state
                && final(self).process.read_count() == old(self).process.read_count(),
            old(self).osu_type == OsuClientKind::Stable ==> ({
                &&& text_result(r) == beatmap_text(old(self).process.memory(), *old(self).state, BEATMAP_TITLE_ORIGINAL)
                &&& *final(self).state == settle(old(self).process.memory(), *old(self).state, AnchorKind::Base, r is Ok)
                &&& final(self).process.read_count() == old(self).process.read_count() + chain_text_reads(old(self).process.memory(), *old(self).state, AnchorKind::Base, beatmap_path(), BEATMAP_TITLE_ORIGINAL)
            }),
    {
        match self.osu_type {
            OsuClientKind::Stable => crate::beatmap::get_title_original(self.process, self.state),
            _ => Err(Error::Unsupported),
        }
    }

    /// The name of the difficulty. Only the stable client is supported.
    pub fn difficulty(&mut self) -> (r: Result<String, Error>)
        ensures
            final(self).osu_type == old(self).osu_type,
            final(self).process.memory() == old(self).process.memory(),
            old(self).osu_type != OsuClientKind::Stable ==> r == Err::<String, Error>(Error::Unsupported) && *final(self).state == *old(self).state
                && final(self).process.read_count() == old(self).process.read_count(),
            old(self).osu_type == OsuClientKind::Stable ==> ({
                &&& text_result(r) == beatmap_text(old(self).process.memory(), *old(self).state, BEATMAP_DIFFICULTY)
                &&& *final(self).state == settle(old(self).process.memory(), *old(self).state, AnchorKind::Base, r is Ok)
                &&& final(self).process.read_count() == old(self).process.read_count() + chain_text_reads(old(self).process.memory(), *old(self).state, AnchorKind::Base, beatmap_path(), BEATMAP_DIFFICULTY)
            }),
    {
        match self.osu_type {
            OsuClientKind::Stable => crate::beatmap::get_difficulty(self.process, self.state),
            _ => Err(Error::Unsupported),
        }
    }

    /// The overall difficulty, as the bits of an IEEE-754 single. Only the stable client is supported.
    pub fn od(&mut self) -> (r: Result<u32, Error>)
        ensures
            final(self).osu_type == old(self).osu_type,
            final(self).process.memory() == old(self).process.memory(),
            old(self).osu_type != OsuClientKind::Stable ==> r == Err::<u32, Error>(Error::Unsupported) && *final(self).state == *old(self).state
                && final(self).process.read_count() == old(self).process.read_count(),
            old(self).osu_type == OsuClientKind::Stable ==> ({
                &&& r == beatmap_u32(old(self).process.memory(), *old(self).state, BEATMAP_OD)
                &&& *final(self).state == settle(old(self).process.memory(), *old(self).state, AnchorKind::Base, r is Ok)
                &&& final(self).process.read_count() == old(self).process.read_count() + field_reads(old(self).process.memory(), *old(self).state, AnchorKind::Base, beatmap_path())
            }),
    {
        match self.osu_type {
            OsuClientKind::Stable => crate::beatmap::get_beatmap_od(self.process, self.state),
            _ => Err(Error::Unsupported),
        }
    }

    /// The approach rate, as the bits of an IEEE-754 single. Only the stable client is supported.
    pub fn ar(&mut self) -> (r: Result<u32, Error>)
        ensures
            final(self).osu_type == old(self).osu_type,
            final(self).process.memory() == old(self).process.memory(),
            old(self).osu_type != OsuClientKind::Stable ==> r == Err::<u32, Error>(Error::Unsupported) && *final(self).state == *old(self).state
                && final(self).process.read_count() == old(self).process.read_count(),
            old(self).osu_type == OsuClientKind::Stable ==> ({
                &&& r == beatmap_u32(old(self).process.memory(), *old(self).state, BEATMAP_AR)
                &&& *final(self).state == settle(old(self).process.memory(), *old(self).state, AnchorKind::Base, r is Ok)
                &&& final(self).process.read_count() == old(self).process.read_count() + field_reads(old(self).process.memory(), *old(self).state, AnchorKind::Base, beatmap_path())
            }),
    {
        match self.osu_type {
            OsuClientKind::Stable => crate::beatmap::get_beatmap_ar(self.process, self.state),
            _ => Err(Error::Unsupported),
        }
    }

    /// The circle size, as the bits of an IEEE-754 single. Only the stable client is supported.
    pub fn cs(&mut self) -> (r: Result<u32, Error>)
        ensures
            final(self).osu_type == old(self).osu_type,
            final(self).process.memory() == old(self).process.memory(),
            old(self).osu_type != OsuClientKind::Stable ==> r == Err::<u32, Error>(Error::Unsupported) && *final(self).state == *old(self).state
                && final(self).process.read_count() == old(self).process.read_count(),
            old(self).osu_type == OsuClientKind::Stable ==> ({
                &&& r == beatmap_u32(old(self).process.memory(), *old(self).state, BEATMAP_CS)
                &&& *final(self).state == settle(old(self).process.memory(), *old(self).state, AnchorKind::Base, r is Ok)
                &&& final(self).process.read_count() == old(self).process.read_count() + field_reads(old(self).process.memory(), *old(self).state, AnchorKind::Base, beatmap_path())
            }),
    {
        match self.osu_type {
            OsuClientKind::Stable => crate::beatmap::get_beatmap_cs(self.process, self.state),
            _ => Err(Error::Unsupported),
        }
    }

    /// The drain rate, as the bits of an IEEE-754 single. Only the stable client is supported.
    pub fn hp(&mut self) -> (r: Result<u32, Error>)
        ensures
            final(self).osu_type == old(self).osu_type,
            final(self).process.memory() == old(self).process.memory(),
            old(self).osu_type != OsuClientKind::Stable ==> r == Err::<u32, Error>(Error::Unsupported) && *final(self).state == *old(self).state
                && final(self).process.read_count() == old(self).process.read_count(),
            old(self).osu_type == OsuClientKind::Stable ==> ({
                &&& r == beatmap_u32(old(self).process.memory(), *old(self).state, BEATMAP_HP)
                &&& *final(self).state == settle(old(self).process.memory(), *old(self).state, AnchorKind::Base, r is Ok)
                &&& final(self).process.read_count() == old(self).process.read_count() + field_reads(old(self).process.memory(), *old(self).state, AnchorKind::Base, beatmap_path())
            }),
    {
        match self.osu_type {
            OsuClientKind::Stable => crate::beatmap::get_beatmap_hp(self.process, self.state),
            _ => Err(Error::Unsupported),
        }
    }

    /// The number of hit objects. Only the stable client is supported.
    pub fn object_count(&mut self) -> (r: Result<u32, Error>)
        ensures
            final(self).osu_type == old(self).osu_type,
            final(self).process.memory() == old(self).process.memory(),
            old(self).osu_type != OsuClientKind::Stable ==> r == Err::<u32, Error>(Error::Unsupported) && *final(self).state == *old(self).state
                && final(self).process.read_count() == old(self).process.read_count(),
            old(self).osu_type == OsuClientKind::Stable ==> ({
                &&& r == beatmap_u32(old(self).process.memory(), *old(self).state, BEATMAP_OBJECT_COUNT)
                &&& *final(self).state == settle(old(self).process.memory(), *old(self).state, AnchorKind::Base, r is Ok)
                &&& final(self).process.read_count() == old(self).process.read_count() + field_reads(old(self).process.memory(), *old(self).state, AnchorKind::Base, beatmap_path())
            }),
    {
        match self.osu_type {
            OsuClientKind::Stable => crate::beatmap::get_beatmap_object_count(self.process, self.state),
            _ => Err(Error::Unsupported),
        }
    }

    /// The number of sliders. Only the stable client is supported.
    pub fn slider_count(&mut self) -> (r: Result<i32, Error>)
        ensures
            final(self).osu_type == old(self).osu_type,
            final(self).process.memory() == old(self).process.memory(),
            old(self).osu_type != OsuClientKind::Stable ==> r == Err::<i32, Error>(Error::Unsupported) && *final(self).state == *old(self).state
                && final(self).process.read_count() == old(self).process.read_count(),
            old(self).osu_type == OsuClientKind::Stable ==> ({
                &&& r == beatmap_i32(old(self).process.memory(), *old(self).state, BEATMAP_SLIDER_COUNT)
                &&& *final(self).state == settle(old(self).process.memory(), *old(self).state, AnchorKind::Base, r is Ok)
                &&& final(self).process.read_count() == old(self).process.read_count() + field_reads(old(self).process.memory(), *old(self).state, AnchorKind::Base, beatmap_path())
            }),
    {
        match self.osu_type {
            OsuClientKind::Stable => crate::beatmap::get_beatmap_slider_count(self.process, self.state),
            _ => Err(Error::Unsupported),
        }
    }

    /// The difficulty settings and counts of the current beatmap. Only the stable client is supported.
    pub fn stats(&mut self) -> (r: Result<BeatmapStats, Error>)
        ensures
            final(self).osu_type == old(self).osu_type,
            final(self).process.memory() == old(self).process.memory(),
            old(self).osu_type != OsuClientKind::Stable ==> r == Err::<BeatmapStats, Error>(Error::Unsupported) && *final(self).state == *old(self).state
                && final(self).process.read_count() == old(self).process.read_count(),
            old(self).osu_type == OsuClientKind::Stable ==> ({
                &&& r == lift(
                match chain(old(self).process.memory(), *old(self).state, AnchorKind::Base, beatmap_path()) {
                    Ok(b) => beatmap_stats_at(old(self).process.memory(), b),
                    Err(f) => Err(f),
                },
            )
                &&& *final(self).state == settle(old(self).process.memory(), *old(self).state, AnchorKind::Base, r is Ok)
                &&& final(self).process.read_count() == old(self).process.read_count() + beatmap_block_reads(old(self).process.memory(), *old(self).state, |b: i32| stats_reads(old(self).process.memory(), b))
            }),
    {
        match self.osu_type {
            OsuClientKind::Stable => crate::beatmap::get_beatmap_stats(self.process, self.state),
            _ => Err(Error::Unsupported),
        }
    }

}

} // verus!
