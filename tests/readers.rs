use osu_memory::beatmap::{self, BeatmapStatus};
use osu_memory::common::{GameMode, OsuClientKind};
use osu_memory::error::{Error, ReadFault, Unavailable};
use osu_memory::memory::MemoryAccessor;
use osu_memory::memory::MemoryImage;
use osu_memory::overlay::{self, Key, KeyOverlay};
use osu_memory::readers::{BeatmapReader, GameplayReader};
use osu_memory::state::{AnchorKind, AnchorRoot, AnchorRoots, State};

const STATUS: i32 = 0x2000;
const RULESETS: i32 = 0x4000;
const RULESET: i32 = 0x6000;
const KEYS: i32 = 0x9000;
const KEY_ARRAY: i32 = 0x9200;
const BASE: i32 = 0xb000;
const MENU: i32 = 0xb100;
const BEATMAP: i32 = 0xd000;

struct Builder {
    img: MemoryImage,
}

impl Builder {
    fn bytes(&mut self, a: i32, b: Vec<u8>) {
        self.img.add_region(a, b);
    }
    fn i32(&mut self, a: i32, v: i32) {
        self.bytes(a, v.to_le_bytes().to_vec());
    }
    fn string(&mut self, slot: i32, obj: i32, s: &str) {
        self.i32(slot, obj);
        let units: Vec<u16> = s.encode_utf16().collect();
        self.bytes(obj + 4, (units.len() as u32).to_le_bytes().to_vec());
        let mut b = Vec::new();
        for u in units {
            b.extend_from_slice(&u.to_le_bytes());
        }
        self.bytes(obj + 8, b);
    }
}

fn roots() -> AnchorRoots {
    AnchorRoots {
        base: AnchorRoot::Fixed(BASE),
        status: AnchorRoot::Fixed(STATUS),
        rulesets: AnchorRoot::Fixed(RULESETS),
        playtime: AnchorRoot::Fixed(0xa000),
    }
}

/// A game in state `state_value` with the menus on ruleset `playmode`, a
/// beatmap for ruleset `map_mode`, and a key array of `keys` entries.
fn game(state_value: u32, playmode: i32, map_mode: i32, keys: i32) -> Builder {
    let mut b = Builder { img: MemoryImage::new() };
    b.i32(STATUS - 0x4, 0x3000);
    b.bytes(0x3000, state_value.to_le_bytes().to_vec());
    b.i32(RULESETS - 0xb, 0x5000);
    b.i32(0x5000 + 0x4, RULESET);
    b.i32(RULESET + 0xb0, KEYS);
    b.i32(KEYS + 0x10, 0x9100);
    b.i32(0x9100 + 0x4, KEY_ARRAY);
    b.i32(KEY_ARRAY + 0x4, keys);
    for i in 0..4 {
        let item = 0x9400 + 0x40 * i;
        b.i32(KEY_ARRAY + 0x8 + 4 * i, item);
        b.i32(item + 0x1c, if i % 2 == 0 { 1 } else { 0 });
        b.i32(item + 0x14, 100 + i);
    }
    b.i32(BASE - 0x33, MENU);
    b.i32(MENU, playmode);
    b.i32(MENU + 0x8, 3);
    b.i32(BASE - 0xc, 0xc000);
    b.i32(0xc000, BEATMAP);
    b.i32(BEATMAP + 0x11c, map_mode);
    let texts = [
        (0x6c, "d41d8cd98f00b204e9800998ecf8427e"),
        (0x18, "xi"),
        (0x7c, "Blue Dragon"),
        (0x24, "FREEDOM DiVE"),
        (0x28, "FREEDOM DiVE\u{2193}"),
        (0xac, "FOUR DIMENSIONS"),
        (0x20, "bms"),
        (0x78, "39804 xi - FREEDOM DiVE"),
        (0x90, "map.osu"),
        (0x64, "audio.mp3"),
        (0x68, "bg.jpg"),
    ];
    for (k, (off, s)) in texts.iter().enumerate() {
        b.string(BEATMAP + off, 0xe000 + 0x100 * k as i32, s);
    }
    b.i32(BEATMAP + 0xc8, 129891);
    b.i32(BEATMAP + 0xcc, 39804);
    b.i32(BEATMAP + 0x12c, 4);
    b.bytes(BEATMAP + 0x2c, 9.0f32.to_bits().to_le_bytes().to_vec());
    b.bytes(BEATMAP + 0x30, 4.0f32.to_bits().to_le_bytes().to_vec());
    b.bytes(BEATMAP + 0x34, 6.5f32.to_bits().to_le_bytes().to_vec());
    b.bytes(BEATMAP + 0x38, 8.0f32.to_bits().to_le_bytes().to_vec());
    b.i32(BEATMAP + 0x134, 258000);
    b.i32(BEATMAP + 0x13c, 250000);
    b.i32(BEATMAP + 0xf8, 1983);
    b.i32(BEATMAP + 0xf0, 541);
    b
}

#[test]
fn key_overlay_reads_four_keys() {
    let mut b = game(2, 0, 0, 4);
    let mut st = State::new(roots());
    assert_eq!(overlay::ruleset_addr(&mut b.img, &mut st), Ok(RULESET));
    assert_eq!(overlay::key_ptr(&mut b.img, &mut st), Ok(KEYS));
    let k = overlay::key_overlay_std(&mut b.img, &mut st).unwrap();
    assert_eq!(
        k,
        KeyOverlay {
            key_1: Key { pressed: true, count: 100 },
            key_2: Key { pressed: false, count: 101 },
            mouse_1: Key { pressed: true, count: 102 },
            mouse_2: Key { pressed: false, count: 103 },
        }
    );
}

#[test]
fn key_overlay_needs_the_standard_ruleset() {
    let mut st = State::new(roots());
    let mut menu = game(0, 0, 0, 4);
    assert_eq!(overlay::key_overlay_std(&mut menu.img, &mut st), Err(Error::NotAvailable(Unavailable::NotPlaying)));
    let mut taiko = game(2, 1, 0, 4);
    assert_eq!(overlay::key_overlay_std(&mut taiko.img, &mut st), Err(Error::NotAvailable(Unavailable::WrongRuleset)));
    let mut mania_map = game(2, 0, 3, 4);
    assert_eq!(overlay::key_overlay_std(&mut mania_map.img, &mut st), Err(Error::NotAvailable(Unavailable::WrongRuleset)));
}

#[test]
fn short_key_array_is_a_memory_read() {
    let mut b = game(2, 0, 0, 3);
    let mut st = State::new(roots());
    assert_eq!(overlay::key_overlay_std(&mut b.img, &mut st), Err(Error::MemoryRead(ReadFault { address: KEY_ARRAY + 0x4 })));
    assert_eq!(st.cached_anchor(AnchorKind::Rulesets), None);
}

#[test]
fn beatmap_fields() {
    let mut b = game(0, 0, 0, 4);
    let mut st = State::new(roots());
    let img = &mut b.img;
    assert_eq!(beatmap::get_beatmap_addr(img, &mut st), Ok(BEATMAP));
    assert_eq!(beatmap::get_beatmap_md5(img, &mut st), Ok("d41d8cd98f00b204e9800998ecf8427e".to_string()));
    assert_eq!(beatmap::get_beatmap_id(img, &mut st), Ok(129891));
    assert_eq!(beatmap::get_beatmap_set_id(img, &mut st), Ok(39804));
    assert_eq!(beatmap::get_beatmap_mode(img, &mut st), Ok(GameMode::Osu));
    assert_eq!(beatmap::get_beatmap_status(img, &mut st), Ok(BeatmapStatus::Ranked));
    assert_eq!(beatmap::get_beatmap_tags(img, &mut st), Ok("bms".to_string()));
    assert_eq!(beatmap::get_beatmap_length(img, &mut st), Ok(258000));
    assert_eq!(beatmap::get_beatmap_drain_time(img, &mut st), Ok(250000));
    assert_eq!(beatmap::get_author(img, &mut st), Ok("xi".to_string()));
    assert_eq!(beatmap::get_creator(img, &mut st), Ok("Blue Dragon".to_string()));
    assert_eq!(beatmap::get_title_romanized(img, &mut st), Ok("FREEDOM DiVE".to_string()));
    assert_eq!(beatmap::get_title_original(img, &mut st), Ok("FREEDOM DiVE\u{2193}".to_string()));
    assert_eq!(beatmap::get_difficulty(img, &mut st), Ok("FOUR DIMENSIONS".to_string()));
    assert_eq!(beatmap::get_beatmap_ar(img, &mut st), Ok(9.0f32.to_bits()));
    assert_eq!(beatmap::get_beatmap_cs(img, &mut st), Ok(4.0f32.to_bits()));
    assert_eq!(beatmap::get_beatmap_hp(img, &mut st), Ok(6.5f32.to_bits()));
    assert_eq!(beatmap::get_beatmap_od(img, &mut st), Ok(8.0f32.to_bits()));
    assert_eq!(beatmap::get_beatmap_object_count(img, &mut st), Ok(1983));
    assert_eq!(beatmap::get_beatmap_slider_count(img, &mut st), Ok(541));
    assert_eq!(beatmap::get_folder(img, &mut st), Ok("39804 xi - FREEDOM DiVE".to_string()));
    assert_eq!(beatmap::get_filename(img, &mut st), Ok("map.osu".to_string()));
    assert_eq!(beatmap::get_audio(img, &mut st), Ok("audio.mp3".to_string()));
    assert_eq!(beatmap::get_cover(img, &mut st), Ok("bg.jpg".to_string()));
}

#[test]
fn beatmap_snapshot() {
    let mut b = game(0, 0, 2, 4);
    let mut st = State::new(roots());
    let info = beatmap::get_beatmap_info(&mut b.img, &mut st).unwrap();
    assert_eq!(info.technical.id, 129891);
    assert_eq!(info.technical.mode, GameMode::Catch);
    assert_eq!(info.technical.ranked_status, BeatmapStatus::Ranked);
    assert_eq!(info.metadata.title_original, "FREEDOM DiVE\u{2193}");
    assert_eq!(info.metadata.tags, "bms");
    assert_eq!(f32::from_bits(info.stats.hp), 6.5);
    assert_eq!(info.stats.total_length, 258000);
    assert_eq!(info.location.cover, "bg.jpg");
    let stats = beatmap::get_beatmap_stats(&mut b.img, &mut st).unwrap();
    assert_eq!(stats, info.stats);
    assert_eq!(BeatmapStatus::from_raw(7), BeatmapStatus::Loved);
    assert_eq!(BeatmapStatus::from_raw(42), BeatmapStatus::Unknown);
}

#[test]
fn missing_beatmap_is_a_memory_read() {
    let mut b = Builder { img: MemoryImage::new() };
    b.i32(BASE - 0xc, 0xc000);
    let mut st = State::new(roots());
    assert_eq!(beatmap::get_beatmap_info(&mut b.img, &mut st), Err(Error::MemoryRead(ReadFault { address: 0xc000 })));
    assert_eq!(beatmap::get_beatmap_id(&mut b.img, &mut st), Err(Error::MemoryRead(ReadFault { address: 0xc000 })));
}

#[test]
fn readers_serve_the_stable_client() {
    let mut b = game(2, 0, 0, 4);
    let mut st = State::new(roots());
    {
        let mut r = BeatmapReader::new(&mut b.img, &mut st, OsuClientKind::Stable).unwrap();
        assert_eq!(r.id(), Ok(129891));
        assert_eq!(r.title(), Ok("FREEDOM DiVE\u{2193}".to_string()));
        assert_eq!(r.status(), Ok(BeatmapStatus::Ranked));
        assert_eq!(r.stats().unwrap().slider_count, 541);
        assert_eq!(r.info().unwrap().location.audio, "audio.mp3");
    }
    {
        let mut r = GameplayReader::new(&mut b.img, &mut st, OsuClientKind::Stable);
        assert_eq!(r.retries(), Ok(3));
        assert_eq!(r.score(), Err(Error::MemoryRead(ReadFault { address: RULESET + 0x68 })));
    }
}

#[test]
fn readers_refuse_other_clients() {
    let mut b = game(2, 0, 0, 4);
    let mut st = State::new(roots());
    {
        let mut r = BeatmapReader::new(&mut b.img, &mut st, OsuClientKind::Lazer).unwrap();
        assert_eq!(r.id(), Err(Error::Unsupported));
        assert_eq!(r.info(), Err(Error::Unsupported));
    }
    {
        let mut r = GameplayReader::new(&mut b.img, &mut st, OsuClientKind::Lazer);
        assert_eq!(r.score(), Err(Error::Unsupported));
        assert_eq!(r.gameplay_info(), Err(Error::Unsupported));
    }
    assert_eq!(st.cached_anchor(AnchorKind::Base), None);
}

struct Counting {
    inner: MemoryImage,
    reads: usize,
}

impl MemoryAccessor for Counting {
    fn read_bytes(&mut self, address: i32, len: usize) -> Result<Vec<u8>, ReadFault> {
        self.reads += 1;
        self.inner.read_bytes(address, len)
    }
}

#[test]
fn key_overlay_read_counts() {
    let mut acc = Counting { inner: game(2, 0, 0, 4).img, reads: 0 };
    let mut st = State::new(roots());
    overlay::key_overlay_std(&mut acc, &mut st).unwrap();
    // Two for the game state, two for the menu ruleset, three for the beatmap
    // ruleset, five to the key array, one for its size, three per key.
    assert_eq!(acc.reads, 25);
    let mut menu = Counting { inner: game(0, 0, 0, 4).img, reads: 0 };
    assert_eq!(overlay::key_overlay_std(&mut menu, &mut st), Err(Error::NotAvailable(Unavailable::NotPlaying)));
    assert_eq!(menu.reads, 2);
    let mut short = Counting { inner: game(2, 0, 0, 3).img, reads: 0 };
    assert!(overlay::key_overlay_std(&mut short, &mut st).is_err());
    assert_eq!(short.reads, 13);
}

#[test]
fn beatmap_stats_walk_once() {
    let mut acc = Counting { inner: game(0, 0, 0, 4).img, reads: 0 };
    let mut st = State::new(roots());
    beatmap::get_beatmap_stats(&mut acc, &mut st).unwrap();
    assert_eq!(acc.reads, 9);
}

#[test]
fn unsupported_client_reads_nothing() {
    let mut acc = Counting { inner: game(2, 0, 0, 4).img, reads: 0 };
    let mut st = State::new(roots());
    {
        let mut r = GameplayReader::new(&mut acc, &mut st, OsuClientKind::Lazer);
        assert_eq!(r.hits(), Err(Error::Unsupported));
    }
    {
        let mut r = BeatmapReader::new(&mut acc, &mut st, OsuClientKind::Lazer).unwrap();
        assert_eq!(r.stats(), Err(Error::Unsupported));
    }
    assert_eq!(acc.reads, 0);
}
