use vstd::prelude::*;

verus! {

/// The client variant that a reader targets.
#[derive(Debug, Clone, Copy, PartialEq, Eq, Structural)]
pub enum OsuClientKind {
    Stable,
    Lazer,
}

/// The coarse mode the game is in.
#[derive(Debug, Clone, Copy, PartialEq, Eq, Structural)]
pub enum GameState {
    MainMenu,
    EditingMap,
    Playing,
    GameShutdownAnimation,
    SongSelectEdit,
    SongSelect,
    ResultScreen,
    GameStartupAnimation,
    MultiplayerRooms,
    MultiplayerRoom,
    MultiplayerSongSelect,
    MultiplayerResultScreen,
    OsuDirect,
    RankingTagCoop,
    RankingTeam,
    ProcessingBeatmaps,
    Tourney,
    Unknown,
}

/// The game state that the status value `v` stands for.
pub open spec fn game_state_of(v: u32) -> GameState {
    match v {
        0 => GameState::MainMenu,
        1 => GameState::EditingMap,
        2 => GameState::Playing,
        3 => GameState::GameShutdownAnimation,
        4 => GameState::SongSelectEdit,
        5 => GameState::SongSelect,
        7 => GameState::ResultScreen,
        10 => GameState::GameStartupAnimation,
        11 => GameState::MultiplayerRooms,
        12 => GameState::MultiplayerRoom,
        13 => GameState::MultiplayerSongSelect,
        14 => GameState::MultiplayerResultScreen,
        15 => GameState::OsuDirect,
        17 => GameState::RankingTagCoop,
        18 => GameState::RankingTeam,
        19 => GameState::ProcessingBeatmaps,
        22 => GameState::Tourney,
        _ => GameState::Unknown,
    }
}

impl GameState {
    pub fn from_raw(v: u32) -> (r: GameState)
        ensures
            r == game_state_of(v),
    {
        match v {
            0 => GameState::MainMenu,
            1 => GameState::EditingMap,
            2 => GameState::Playing,
            3 => GameState::GameShutdownAnimation,
            4 => GameState::SongSelectEdit,
            5 => GameState::SongSelect,
            7 => GameState::ResultScreen,
            10 => GameState::GameStartupAnimation,
            11 => GameState::MultiplayerRooms,
            12 => GameState::MultiplayerRoom,
            13 => GameState::MultiplayerSongSelect,
            14 => GameState::MultiplayerResultScreen,
            15 => GameState::OsuDirect,
            17 => GameState::RankingTagCoop,
            18 => GameState::RankingTeam,
            19 => GameState::ProcessingBeatmaps,
            22 => GameState::Tourney,
            _ => GameState::Unknown,
        }
    }
}

/// The ruleset a beatmap or a play belongs to.
#[derive(Debug, Clone, Copy, PartialEq, Eq, Structural)]
pub enum GameMode {
    Osu,
    Taiko,
    Catch,
    Mania,
    Unknown,
}

pub open spec fn game_mode_of(v: i32) -> GameMode {
    match v {
        0 => GameMode::Osu,
        1 => GameMode::Taiko,
        2 => GameMode::Catch,
        3 => GameMode::Mania,
        _ => GameMode::Unknown,
    }
}

impl GameMode {
    pub fn from_raw(v: i32) -> (r: GameMode)
        ensures
            r == game_mode_of(v),
    {
        match v {
            0 => GameMode::Osu,
            1 => GameMode::Taiko,
            2 => GameMode::Catch,
            3 => GameMode::Mania,
            _ => GameMode::Unknown,
        }
    }
}

/// The hit counts of a play.
#[derive(Debug, Clone, Copy, PartialEq, Eq, Structural)]
pub struct Hit {
    pub _300: i16,
    pub _100: i16,
    pub _50: i16,
    pub _miss: i16,
    pub _geki: i16,
    pub _katu: i16,
}

} // verus!
