use osu_memory::chain::{chain_read_i32, follow};
use osu_memory::common::{GameMode, GameState, Hit};
use osu_memory::decode::{decode_i16, decode_i32, decode_u16, decode_u32, decode_u64, decode_utf16_units};
use osu_memory::error::{Error, ReadFault, Unavailable};
use osu_memory::gameplay;
use osu_memory::gate::{check_game_state, game_state};
use osu_memory::memory::{MemoryAccessor, MemoryImage};
use osu_memory::offsets::{CommonOffset, HITS_100, HITS_300, SCORE};
use osu_memory::read::{read_i16, read_i32, read_string, read_u64};
use osu_memory::resultscreen;
use osu_memory::state::{AnchorKind, AnchorRoot, AnchorRoots, State};

const STATUS_ROOT: i32 = 0x1000;
const RULESETS_ROOT: i32 = 0x1004;
const PLAYTIME_ROOT: i32 = 0x1008;
const BASE_ROOT: i32 = 0x100c;

const STATUS: i32 = 0x2000;
const RULESETS: i32 = 0x4000;
const RULESET: i32 = 0x6000;
const GAMEPLAY: i32 = 0x7000;
const RESULT_BLOCK: i32 = 0x7800;
const SCORE_BLOCK: i32 = 0x8000;
const MODS_BLOCK: i32 = 0x8400;
const HP_BLOCK: i32 = 0x8800;
const PLAYTIME: i32 = 0xa000;
const BASE: i32 = 0xb000;
const MENU: i32 = 0xb100;

struct Builder {
    img: MemoryImage,
}

impl Builder {
    fn new() -> Builder {
        Builder { img: MemoryImage::new() }
    }
    fn bytes(&mut self, a: i32, b: Vec<u8>) {
        self.img.add_region(a, b);
    }
    fn i32(&mut self, a: i32, v: i32) {
        self.bytes(a, v.to_le_bytes().to_vec());
    }
    fn i16(&mut self, a: i32, v: i16) {
        self.bytes(a, v.to_le_bytes().to_vec());
    }
    fn u64(&mut self, a: i32, v: u64) {
        self.bytes(a, v.to_le_bytes().to_vec());
    }
    fn string(&mut self, slot: i32, obj: i32, s: &str) {
        self.i32(slot, obj);
        let units: Vec<u16> = s.encode_utf16().collect();
        self.bytes(obj + 4, (units.len() as u32).to_le_bytes().to_vec());
        let mut b = Vec::new();
        for u in units {
            b.extend_from_slice(&u.to_le_bytes());
        }
        self.bytes(obj + 8, b);
    }
}

fn roots() -> AnchorRoots {
    AnchorRoots {
        base: AnchorRoot::Indirect(BASE_ROOT),
        status: AnchorRoot::Indirect(STATUS_ROOT),
        rulesets: AnchorRoot::Indirect(RULESETS_ROOT),
        playtime: AnchorRoot::Indirect(PLAYTIME_ROOT),
    }
}

/// A game in state `state_value`, with a play whose score is `score`.
fn game(state_value: u32, score: i32) -> Builder {
    game_with(RULESETS, state_value, score)
}

/// The same game, with the rulesets anchor at `rulesets`.
fn game_with(rulesets: i32, state_value: u32, score: i32) -> Builder {
    let mut b = Builder::new();
    b.i32(STATUS_ROOT, STATUS);
    b.i32(RULESETS_ROOT, rulesets);
    b.i32(PLAYTIME_ROOT, PLAYTIME);
    b.i32(BASE_ROOT, BASE);
    b.i32(STATUS - 0x4, 0x3000);
    b.bytes(0x3000, state_value.to_le_bytes().to_vec());
    b.i32(rulesets - 0xb, 0x5000);
    b.i32(0x5000 + 0x4, RULESET);
    b.i32(RULESET + 0x68, GAMEPLAY);
    b.i32(RULESET + 0x38, RESULT_BLOCK);
    b.i32(GAMEPLAY + 0x38, SCORE_BLOCK);
    b.i32(GAMEPLAY + 0x40, HP_BLOCK);
    b.i32(SCORE_BLOCK + 0x1c, MODS_BLOCK);
    b.i32(SCORE_BLOCK + SCORE, score);
    b.u64(MODS_BLOCK + 0xc, 0xff);
    b.u64(MODS_BLOCK + 0x8, 0x0f);
    b.i16(SCORE_BLOCK + 0x94, 321);
    b.i16(SCORE_BLOCK + 0x68, 654);
    b.u64(HP_BLOCK + 0x1c, 0.75f64.to_bits());
    b.string(SCORE_BLOCK + 0x28, 0x8c00, "peppy");
    for (block, base) in [(SCORE_BLOCK, 10i16), (RESULT_BLOCK, 20i16)] {
        b.i16(block + 0x88, base + 1);
        b.i16(block + 0x8a, base + 2);
        b.i16(block + 0x8c, base + 3);
        b.i16(block + 0x8e, base + 4);
        b.i16(block + 0x90, base + 5);
        b.i16(block + 0x92, base + 6);
    }
    b.string(RESULT_BLOCK + 0x28, 0x7c00, "Cookiezi");
    b.i32(RESULT_BLOCK + 0x78, 987654);
    b.i16(RESULT_BLOCK + 0x68, 1024);
    b.i32(RESULT_BLOCK + 0x64, 3);
    b.i32(PLAYTIME + 0x5, 0xa100);
    b.i32(0xa100, 45000);
    b.i32(BASE - 0x33, MENU);
    b.i32(MENU, 0);
    b.i32(MENU + 0x8, 7);
    b
}

struct Counting {
    inner: MemoryImage,
    reads: usize,
}

impl MemoryAccessor for Counting {
    fn read_bytes(&mut self, address: i32, len: usize) -> Result<Vec<u8>, ReadFault> {
        self.reads += 1;
        self.inner.read_bytes(address, len)
    }
}

#[test]
fn decodes_little_endian_numbers() {
    let b = vec![0x34u8, 0x12, 0xff, 0xff, 0x78, 0x56, 0x34, 0x12];
    assert_eq!(decode_u16(&b, 0), 0x1234);
    assert_eq!(decode_i16(&b, 2), -1);
    assert_eq!(decode_u32(&b, 0), 0xffff_1234);
    assert_eq!(decode_i32(&b, 0), 0xffff_1234u32 as i32);
    assert_eq!(decode_i32(&b, 4), 0x1234_5678);
    assert_eq!(decode_u64(&b, 0), 0x1234_5678_ffff_1234);
    assert_eq!(decode_i16(&vec![0x00, 0x80], 0), i16::MIN);
    assert_eq!(decode_i32(&vec![0xff, 0xff, 0xff, 0x7f], 0), i32::MAX);
}

#[test]
fn splits_utf16_units() {
    assert_eq!(decode_utf16_units(&vec![0x41, 0x00, 0x42, 0x30, 0x07]), vec![0x41u16, 0x3042]);
    assert_eq!(decode_utf16_units(&vec![]), Vec::<u16>::new());
}

#[test]
fn image_reads_known_bytes_and_fails_on_holes() {
    let mut b = Builder::new();
    b.bytes(0x100, vec![1, 2, 3]);
    b.bytes(0x103, vec![4]);
    b.bytes(0x100, vec![9, 9, 9, 9]);
    assert_eq!(b.img.read_bytes(0x100, 4), Ok(vec![1, 2, 3, 4]));
    assert_eq!(b.img.read_bytes(0x101, 4), Err(ReadFault { address: 0x101 }));
    assert_eq!(b.img.read_bytes(0x50, 0), Ok(vec![]));
}

#[test]
fn typed_reads_are_sign_correct() {
    let mut b = Builder::new();
    b.i32(0x10, -123456);
    b.i16(0x20, -2);
    b.u64(0x30, u64::MAX - 1);
    b.string(0x40, 0x200, "héllo ☃");
    assert_eq!(read_i32(&mut b.img, 0x10), Ok(-123456));
    assert_eq!(read_i16(&mut b.img, 0x20), Ok(-2));
    assert_eq!(read_u64(&mut b.img, 0x30), Ok(u64::MAX - 1));
    assert_eq!(read_string(&mut b.img, 0x40), Ok("héllo ☃".to_string()));
    assert_eq!(read_i32(&mut b.img, 0x12), Err(ReadFault { address: 0x12 }));
}

#[test]
fn invalid_utf16_is_replaced() {
    let mut b = Builder::new();
    b.i32(0x40, 0x200);
    b.bytes(0x204, 2u32.to_le_bytes().to_vec());
    b.bytes(0x208, vec![0x00, 0xd8, 0x41, 0x00]);
    assert_eq!(read_string(&mut b.img, 0x40), Ok("\u{fffd}A".to_string()));
}

#[test]
fn follow_walks_every_hop() {
    let mut b = Builder::new();
    b.i32(0x100 + 4, 0x200);
    b.i32(0x200 - 8, 0x300);
    assert_eq!(follow(&mut b.img, 0x100, &[4, -8]), Ok(0x300));
    assert_eq!(follow(&mut b.img, 0x100, &[]), Ok(0x100));
    assert_eq!(follow(&mut b.img, 0x100, &[4, -8, 0]), Err(ReadFault { address: 0x300 }));
}

#[test]
fn game_state_values_map_to_states() {
    assert_eq!(GameState::from_raw(0), GameState::MainMenu);
    assert_eq!(GameState::from_raw(2), GameState::Playing);
    assert_eq!(GameState::from_raw(7), GameState::ResultScreen);
    assert_eq!(GameState::from_raw(22), GameState::Tourney);
    assert_eq!(GameState::from_raw(6), GameState::Unknown);
    assert_eq!(GameMode::from_raw(3), GameMode::Mania);
    assert_eq!(GameMode::from_raw(-1), GameMode::Unknown);
}

#[test]
fn gate_reads_the_game_state() {
    let mut b = game(7, 0);
    let mut st = State::new(roots());
    assert_eq!(game_state(&mut b.img, &mut st), Ok(GameState::ResultScreen));
    assert_eq!(check_game_state(&mut b.img, &mut st, GameState::Playing), Ok(false));
    assert_eq!(check_game_state(&mut b.img, &mut st, GameState::ResultScreen), Ok(true));
    assert_eq!(st.cached_anchor(AnchorKind::Status), Some(STATUS));
}

#[test]
fn gate_denies_with_not_available_even_when_chain_is_unmapped() {
    // Only the status chain is mapped: the gameplay chains would fail to read.
    let mut b = Builder::new();
    b.i32(STATUS_ROOT, STATUS);
    b.i32(STATUS - 0x4, 0x3000);
    b.bytes(0x3000, 0u32.to_le_bytes().to_vec());
    let mut st = State::new(roots());
    let playing = Err(Error::NotAvailable(Unavailable::NotPlaying));
    assert_eq!(gameplay::score(&mut b.img, &mut st), playing);
    assert_eq!(gameplay::mods(&mut b.img, &mut st), Err(Error::NotAvailable(Unavailable::NotPlaying)));
    assert_eq!(gameplay::hits(&mut b.img, &mut st), Err(Error::NotAvailable(Unavailable::NotPlaying)));
    assert_eq!(gameplay::info(&mut b.img, &mut st), Err(Error::NotAvailable(Unavailable::NotPlaying)));
    assert_eq!(resultscreen::info(&mut b.img, &mut st), Err(Error::NotAvailable(Unavailable::NotInResultScreen)));
    assert_eq!(st.cached_anchor(AnchorKind::Rulesets), None);
}

#[test]
fn gate_denies_result_screen_while_playing() {
    let mut b = game(2, 1);
    let mut st = State::new(roots());
    assert_eq!(resultscreen::score(&mut b.img, &mut st), Err(Error::NotAvailable(Unavailable::NotInResultScreen)));
    assert_eq!(resultscreen::hits(&mut b.img, &mut st), Err(Error::NotAvailable(Unavailable::NotInResultScreen)));
}

#[test]
fn unreadable_status_is_a_memory_read() {
    let mut b = Builder::new();
    b.i32(STATUS_ROOT, STATUS);
    let mut st = State::new(roots());
    assert_eq!(gameplay::score(&mut b.img, &mut st), Err(Error::MemoryRead(ReadFault { address: STATUS - 0x4 })));
    assert_eq!(st.cached_anchor(AnchorKind::Status), None);
}

#[test]
fn mods_are_xor_truncated() {
    assert_eq!(gameplay::combine_mods(0, 0), 0);
    assert_eq!(gameplay::combine_mods(0xff, 0x0f), 0xf0);
    assert_eq!(gameplay::combine_mods(0xffff_0000_0000_0001, 0x0000_0001_0000_0003), 2);
    assert_eq!(gameplay::combine_mods(0x1234_5678_9abc_def0, 0x1234_5678_9abc_def0), 0);
}

#[test]
fn end_to_end_score() {
    let mut b = game(2, 123456);
    let mut st = State::new(roots());
    assert_eq!(gameplay::score_base(&mut b.img, &mut st), Ok(SCORE_BLOCK));
    assert_eq!(gameplay::score(&mut b.img, &mut st), Ok(123456));
    let info = gameplay::info(&mut b.img, &mut st).unwrap();
    assert_eq!(info.score, 123456);
}

#[test]
fn gameplay_fields_decode_their_bytes() {
    let mut b = game(2, -5);
    let mut st = State::new(roots());
    assert_eq!(gameplay::rulesets_addr(&mut b.img, &mut st), Ok(0x5000));
    assert_eq!(gameplay::ruleset_addr(&mut b.img, &mut st), Ok(RULESET));
    assert_eq!(gameplay::gameplay_base(&mut b.img, &mut st), Ok(GAMEPLAY));
    assert_eq!(gameplay::hp_base(&mut b.img, &mut st), Ok(HP_BLOCK));
    assert_eq!(gameplay::mods_xor_base(&mut b.img, &mut st), Ok(MODS_BLOCK));
    assert_eq!(gameplay::score(&mut b.img, &mut st), Ok(-5));
    assert_eq!(gameplay::mods_xor1(&mut b.img, &mut st), Ok(0xff));
    // The halves overlap: the upper four bytes of the second are the lower four of the first.
    assert_eq!(gameplay::mods_xor2(&mut b.img, &mut st), Ok(0xff_0000_000f));
    assert_eq!(gameplay::mods(&mut b.img, &mut st), Ok(0xf0));
    assert_eq!(gameplay::combo(&mut b.img, &mut st), Ok(321));
    assert_eq!(gameplay::max_combo(&mut b.img, &mut st), Ok(654));
    assert_eq!(gameplay::hp(&mut b.img, &mut st), Ok(0.75f64.to_bits()));
    assert_eq!(gameplay::username(&mut b.img, &mut st), Ok("peppy".to_string()));
    assert_eq!(gameplay::game_time(&mut b.img, &mut st), Ok(45000));
    assert_eq!(gameplay::retries(&mut b.img, &mut st), Ok(7));
    assert_eq!(gameplay::hits_300(&mut b.img, &mut st), Ok(12));
    assert_eq!(gameplay::hits_100(&mut b.img, &mut st), Ok(11));
    assert_eq!(gameplay::hits_50(&mut b.img, &mut st), Ok(13));
    assert_eq!(gameplay::hits_geki(&mut b.img, &mut st), Ok(14));
    assert_eq!(gameplay::hits_katu(&mut b.img, &mut st), Ok(15));
    assert_eq!(gameplay::hits_miss(&mut b.img, &mut st), Ok(16));
    let hits = Hit { _300: 12, _100: 11, _50: 13, _miss: 16, _geki: 14, _katu: 15 };
    assert_eq!(gameplay::hits(&mut b.img, &mut st), Ok(hits));
    let info = gameplay::info(&mut b.img, &mut st).unwrap();
    assert_eq!(info.score, -5);
    assert_eq!(info.mods, 0xf0);
    assert_eq!(info.combo, 321);
    assert_eq!(info.max_combo, 654);
    assert_eq!(f64::from_bits(info.hp), 0.75);
    assert_eq!(info.username, "peppy");
    assert_eq!(info.ig_time, 45000);
    assert_eq!(info.retries, 7);
    assert_eq!(info.hits, hits);
}

#[test]
fn snapshot_resolves_shared_base_once() {
    let b = game(2, 1);
    let mut acc = Counting { inner: b.img, reads: 0 };
    let mut st = State::new(roots());
    gameplay::info(&mut acc, &mut st).unwrap();
    // 27 reads, plus one for each of the four anchors derived on first use.
    assert_eq!(acc.reads, 31);
    acc.reads = 0;
    gameplay::info(&mut acc, &mut st).unwrap();
    assert_eq!(acc.reads, 27);
    // The same fields read one by one walk the shared prefix each time.
    acc.reads = 0;
    gameplay::score(&mut acc, &mut st).unwrap();
    gameplay::mods(&mut acc, &mut st).unwrap();
    gameplay::combo(&mut acc, &mut st).unwrap();
    gameplay::max_combo(&mut acc, &mut st).unwrap();
    gameplay::hp(&mut acc, &mut st).unwrap();
    gameplay::username(&mut acc, &mut st).unwrap();
    gameplay::game_time(&mut acc, &mut st).unwrap();
    gameplay::retries(&mut acc, &mut st).unwrap();
    gameplay::hits(&mut acc, &mut st).unwrap();
    assert!(acc.reads > 27);
}

#[test]
fn result_snapshot_read_count() {
    let b = game(7, 1);
    let mut acc = Counting { inner: b.img, reads: 0 };
    let mut st = State::new(roots());
    resultscreen::info(&mut acc, &mut st).unwrap();
    assert_eq!(acc.reads, 14);
    acc.reads = 0;
    resultscreen::info(&mut acc, &mut st).unwrap();
    assert_eq!(acc.reads, 12);
}

#[test]
fn anchor_is_rederived_after_a_failed_read() {
    let mut st = State::new(roots());
    let mut first = game(2, 111);
    assert_eq!(gameplay::score(&mut first.img, &mut st), Ok(111));
    assert_eq!(st.cached_anchor(AnchorKind::Rulesets), Some(RULESETS));

    // The process restarted: the rulesets anchor moved and its old place is unmapped.
    let moved = RULESETS + 0x10000;
    let mut second = game_with(moved, 2, 222);
    assert_eq!(gameplay::score(&mut second.img, &mut st), Err(Error::MemoryRead(ReadFault { address: RULESETS - 0xb })));
    assert_eq!(st.cached_anchor(AnchorKind::Rulesets), None);
    assert_eq!(st.cached_anchor(AnchorKind::Status), Some(STATUS));
    assert_eq!(gameplay::score(&mut second.img, &mut st), Ok(222));
    assert_eq!(st.cached_anchor(AnchorKind::Rulesets), Some(moved));
}

#[test]
fn invalidate_clears_only_that_anchor() {
    let mut b = game(2, 1);
    let mut st = State::new(roots());
    assert_eq!(st.get_or_resolve(&mut b.img, AnchorKind::Base), Ok(BASE));
    assert_eq!(st.get_or_resolve(&mut b.img, AnchorKind::Status), Ok(STATUS));
    st.invalidate(AnchorKind::Base);
    assert_eq!(st.cached_anchor(AnchorKind::Base), None);
    assert_eq!(st.cached_anchor(AnchorKind::Status), Some(STATUS));
}

#[test]
fn fixed_roots_are_used_as_they_are() {
    let mut b = Builder::new();
    b.i32(0x500 + 8, 77);
    let mut st = State::new(AnchorRoots {
        base: AnchorRoot::Fixed(0x500),
        status: AnchorRoot::Fixed(0),
        rulesets: AnchorRoot::Fixed(0),
        playtime: AnchorRoot::Fixed(0),
    });
    assert_eq!(chain_read_i32(&mut b.img, &mut st, AnchorKind::Base, &[], 8), Ok(77));
    assert_eq!(chain_read_i32(&mut b.img, &mut st, AnchorKind::Base, &[], 12), Err(Error::MemoryRead(ReadFault { address: 0x50c })));
    assert_eq!(st.cached_anchor(AnchorKind::Base), None);
}

#[test]
fn bulk_and_single_hit_reads_agree() {
    let mut b = game(7, 1);
    let mut st = State::new(roots());
    let bulk = resultscreen::hits(&mut b.img, &mut st).unwrap();
    assert_eq!(bulk, Hit { _300: 22, _100: 21, _50: 23, _miss: 26, _geki: 24, _katu: 25 });
    assert_eq!(resultscreen::hits_300(&mut b.img, &mut st), Ok(bulk._300));
    assert_eq!(resultscreen::hits_100(&mut b.img, &mut st), Ok(bulk._100));
    assert_eq!(resultscreen::hits_50(&mut b.img, &mut st), Ok(bulk._50));
    assert_eq!(resultscreen::hits_geki(&mut b.img, &mut st), Ok(bulk._geki));
    assert_eq!(resultscreen::hits_katu(&mut b.img, &mut st), Ok(bulk._katu));
    assert_eq!(resultscreen::hits_miss(&mut b.img, &mut st), Ok(bulk._miss));
    assert_eq!(resultscreen::read_bulk_hits_at(&mut b.img, RESULT_BLOCK), gameplay::read_hits_at(&mut b.img, RESULT_BLOCK));
    assert_eq!(resultscreen::read_bulk_hits_at(&mut b.img, SCORE_BLOCK), gameplay::read_hits_at(&mut b.img, SCORE_BLOCK));
    assert_eq!(HITS_300 - HITS_100, 2);
}

#[test]
fn result_screen_fields() {
    let mut b = game(7, 1);
    let mut st = State::new(roots());
    assert_eq!(resultscreen::result_screen_ptr(&mut b.img, &mut st), Ok(0x5000));
    assert_eq!(resultscreen::result_screen_addr(&mut b.img, &mut st), Ok(RULESET));
    assert_eq!(resultscreen::result_screen_base(&mut b.img, &mut st), Ok(RESULT_BLOCK));
    assert_eq!(resultscreen::username(&mut b.img, &mut st), Ok("Cookiezi".to_string()));
    assert_eq!(resultscreen::score(&mut b.img, &mut st), Ok(987654));
    assert_eq!(resultscreen::max_combo(&mut b.img, &mut st), Ok(1024));
    assert_eq!(resultscreen::mode(&mut b.img, &mut st), Ok(GameMode::Mania));
    let info = resultscreen::info(&mut b.img, &mut st).unwrap();
    assert_eq!(info.username, "Cookiezi");
    assert_eq!(info.score, 987654);
    assert_eq!(info.max_combo, 1024);
    assert_eq!(info.mode, GameMode::Mania);
    assert_eq!(info.hits._miss, 26);
}

#[test]
fn unmapped_hit_block_is_a_memory_read_and_invalidates() {
    let mut b = Builder::new();
    b.i32(STATUS_ROOT, STATUS);
    b.i32(RULESETS_ROOT, RULESETS);
    b.i32(STATUS - 0x4, 0x3000);
    b.bytes(0x3000, 7u32.to_le_bytes().to_vec());
    b.i32(RULESETS - 0xb, 0x5000);
    b.i32(0x5000 + 0x4, RULESET);
    b.i32(RULESET + 0x38, RESULT_BLOCK);
    let mut st = State::new(roots());
    assert_eq!(resultscreen::hits(&mut b.img, &mut st), Err(Error::MemoryRead(ReadFault { address: RESULT_BLOCK + 0x88 })));
    assert_eq!(st.cached_anchor(AnchorKind::Rulesets), None);
}

#[test]
fn common_offsets_of_the_stable_client() {
    let c = CommonOffset::stable();
    assert_eq!(c.status, 0x4);
    assert_eq!(c.ig_time, 0x5);
    assert_eq!(c.settings_addr, 0xb8);
}

#[test]
fn error_messages() {
    assert_eq!(Error::Unsupported.message(), "unsupported client variant");
    assert_eq!(Error::NotAvailable(Unavailable::NotPlaying).message(), "not available: not playing");
    assert_eq!(Error::MemoryRead(ReadFault { address: 1 }).message(), "memory read failed");
}

#[test]
fn denied_state_check_reads_only_the_state() {
    let mut acc = Counting { inner: game(0, 1).img, reads: 0 };
    let mut st = State::new(roots());
    assert_eq!(gameplay::rulesets_addr(&mut acc, &mut st), Err(Error::NotAvailable(Unavailable::NotPlaying)));
    // The status anchor is derived from its root, then two reads.
    assert_eq!(acc.reads, 3);
    acc.reads = 0;
    assert_eq!(resultscreen::result_screen_ptr(&mut acc, &mut st), Err(Error::NotAvailable(Unavailable::NotInResultScreen)));
    assert_eq!(resultscreen::hits(&mut acc, &mut st), Err(Error::NotAvailable(Unavailable::NotInResultScreen)));
    assert_eq!(acc.reads, 4);
}

#[test]
fn failed_hop_stops_the_reads() {
    let mut acc = Counting { inner: game(2, 1).img, reads: 0 };
    let mut st = State::new(roots());
    assert_eq!(gameplay::retries(&mut acc, &mut st), Ok(7));
    assert_eq!(acc.reads, 3);
    let mut empty = Counting { inner: MemoryImage::new(), reads: 0 };
    assert!(gameplay::retries(&mut empty, &mut st).is_err());
    // The cached base anchor is used, the first hop fails, nothing follows.
    assert_eq!(empty.reads, 1);
    assert_eq!(st.cached_anchor(AnchorKind::Base), None);
}
