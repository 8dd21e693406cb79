use vstd::prelude::*;

verus! {

// Offsets of the stable client. A hop adds its offset to an address and
// reads the pointer stored there; a field offset locates the final read.

/// The pointer to the game state value, relative to the status anchor.
pub const STATUS_PTR: i32 = -0x4;
/// The pointer to the in-game time, relative to the playtime anchor.
pub const PLAYTIME_PTR: i32 = 0x5;
/// The pointer to the menu block, relative to the base anchor.
pub const MENU_PTR: i32 = -0x33;
/// Menu block: the ruleset selected in the menus.
pub const MENU_PLAYMODE: i32 = 0x0;
/// Menu block: retries of the current map.
pub const MENU_RETRIES: i32 = 0x8;

/// The pointer to the ruleset slot, relative to the rulesets anchor.
pub const RULESET_PTR: i32 = -0xb;
/// Ruleset slot: the active ruleset.
pub const RULESET_ADDR: i32 = 0x4;

/// Active ruleset: the gameplay block.
pub const GAMEPLAY_BASE: i32 = 0x68;
/// Gameplay block: the score block.
pub const SCORE_BASE: i32 = 0x38;
/// Gameplay block: the health block.
pub const HP_BASE: i32 = 0x40;
/// Health block: the health value, an IEEE-754 double.
pub const HP: i32 = 0x1c;

/// Score block fields. The result screen block shares this layout.
pub const USERNAME: i32 = 0x28;
pub const MODS: i32 = 0x1c;
pub const MODE: i32 = 0x64;
pub const MAX_COMBO: i32 = 0x68;
pub const SCORE: i32 = 0x78;
pub const HITS_100: i32 = 0x88;
pub const HITS_300: i32 = 0x8a;
pub const HITS_50: i32 = 0x8c;
pub const HITS_GEKI: i32 = 0x8e;
pub const HITS_KATU: i32 = 0x90;
pub const HITS_MISS: i32 = 0x92;
pub const COMBO: i32 = 0x94;

/// Mods block: the two halves whose exclusive or gives the mods.
pub const MODS_XOR: i32 = 0xc;
pub const MODS_XOR2: i32 = 0x8;

/// Active ruleset: the result screen block.
pub const RESULT_SCREEN_BASE: i32 = 0x38;

/// Active ruleset: the key overlay.
pub const KEY_OVERLAY: i32 = 0xb0;
/// Key overlay: the list of keys.
pub const KEY_LIST: i32 = 0x10;
/// Key list: the array of keys.
pub const KEY_ARRAY: i32 = 0x4;
/// Key array: the number of keys.
pub const KEY_ARRAY_SIZE: i32 = 0x4;
/// Key array: the first key; the others follow, four bytes apart.
pub const KEY_ITEMS: i32 = 0x8;
/// Key: whether it is held down (non-zero).
pub const KEY_PRESSED: i32 = 0x1c;
/// Key: how many times it was pressed.
pub const KEY_COUNT: i32 = 0x14;

/// The pointer to the beatmap slot, relative to the base anchor.
pub const BEATMAP_PTR: i32 = -0xc;
/// Beatmap slot: the current beatmap.
pub const BEATMAP_ADDR: i32 = 0x0;

/// Beatmap fields.
pub const BEATMAP_AUTHOR: i32 = 0x18;
pub const BEATMAP_TAGS: i32 = 0x20;
pub const BEATMAP_TITLE_ROMANIZED: i32 = 0x24;
pub const BEATMAP_TITLE_ORIGINAL: i32 = 0x28;
pub const BEATMAP_AR: i32 = 0x2c;
pub const BEATMAP_CS: i32 = 0x30;
pub const BEATMAP_HP: i32 = 0x34;
pub const BEATMAP_OD: i32 = 0x38;
pub const BEATMAP_AUDIO: i32 = 0x64;
pub const BEATMAP_COVER: i32 = 0x68;
pub const BEATMAP_MD5: i32 = 0x6c;
pub const BEATMAP_FOLDER: i32 = 0x78;
pub const BEATMAP_CREATOR: i32 = 0x7c;
pub const BEATMAP_FILENAME: i32 = 0x90;
pub const BEATMAP_DIFFICULTY: i32 = 0xac;
pub const BEATMAP_ID: i32 = 0xc8;
pub const BEATMAP_SET_ID: i32 = 0xcc;
pub const BEATMAP_SLIDER_COUNT: i32 = 0xf0;
pub const BEATMAP_OBJECT_COUNT: i32 = 0xf8;
pub const BEATMAP_MODE: i32 = 0x11c;
pub const BEATMAP_RANKED_STATUS: i32 = 0x12c;
pub const BEATMAP_TOTAL_LENGTH: i32 = 0x134;
pub const BEATMAP_DRAIN_TIME: i32 = 0x13c;

/// Offsets shared by several readers of the stable client.
#[derive(Debug, Clone, Copy, PartialEq, Eq, Structural)]
pub struct CommonOffset {
    pub settings_ptr: i32,
    pub settings_addr: i32,
    pub path: i32,
    pub status: i32,
    pub mods_ptr: i32,
    pub ig_time: i32,
}

impl CommonOffset {
    /// The table of the stable client; `status` and `ig_time` are the
    /// distances that the status and in-game time chains use.
    pub fn stable() -> (r: CommonOffset)
        ensures
            r.status == -STATUS_PTR,
            r.ig_time == PLAYTIME_PTR,
            r == (CommonOffset {
                settings_ptr: 0x8,
                settings_addr: 0xb8,
                path: 0x4,
                status: 0x4,
                mods_ptr: 0x9,
                ig_time: 0x5,
            }),
    {
        CommonOffset { settings_ptr: 0x8, settings_addr: 0xb8, path: 0x4, status: 0x4, mods_ptr: 0x9, ig_time: 0x5 }
    }
}

} // verus!
