//! Reads live gameplay, beatmap, key overlay and result screen state out of
//! the memory of a running osu! process.
//!
//! Every value is reached through a chain of pointers that starts at an
//! anchor address cached in a caller-owned [`state::State`]; an anchor whose
//! chain fails to read is invalidated and derived afresh on its next use.
//! The memory itself is reached through a [`memory::MemoryAccessor`].

pub mod beatmap;
pub mod chain;
pub mod common;
pub mod decode;
pub mod error;
pub mod gameplay;
pub mod gate;
pub mod memory;
pub mod offsets;
pub mod overlay;
pub mod read;
pub mod readers;
pub mod resultscreen;
pub mod state;
