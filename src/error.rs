use vstd::prelude::*;

verus! {

/// The place where a read of the foreign process failed.
#[derive(Debug, Clone, Copy, PartialEq, Eq, Structural)]
pub struct ReadFault {
    /// First address of the read that could not be served.
    pub address: i32,
}

/// Why a field is not meaningful at the moment.
#[derive(Debug, Clone, Copy, PartialEq, Eq, Structural)]
pub enum Unavailable {
    /// The game is not in the playing state.
    NotPlaying,
    /// The game is not on the result screen.
    NotInResultScreen,
    /// The active ruleset is not the one the field belongs to.
    WrongRuleset,
}

/// The three kinds of failure a read can end in.
#[derive(Debug, Clone, Copy, PartialEq, Eq, Structural)]
pub enum Error {
    /// No chain exists for this field and client variant.
    Unsupported,
    /// The game is not in the mode that the field requires; poll again later.
    NotAvailable(Unavailable),
    /// A read of the foreign process failed.
    MemoryRead(ReadFault),
}

/// A short human-readable description of `e`.
pub open spec fn message_of(e: Error) -> Seq<char> {
    match e {
        Error::Unsupported => "unsupported client variant"@,
        Error::NotAvailable(Unavailable::NotPlaying) => "not available: not playing"@,
        Error::NotAvailable(Unavailable::NotInResultScreen) => "not available: not in result screen"@,
        Error::NotAvailable(Unavailable::WrongRuleset) => "not available: wrong ruleset"@,
        Error::MemoryRead(_) => "memory read failed"@,
    }
}

impl Error {
    /// A short human-readable description.
    pub fn message(&self) -> (r: String)
        ensures
            r@ == message_of(*self),
    {
        match self {
            Error::Unsupported => String::from_str("unsupported client variant"),
            Error::NotAvailable(Unavailable::NotPlaying) => String::from_str("not available: not playing"),
            Error::NotAvailable(Unavailable::NotInResultScreen) => String::from_str("not available: not in result screen"),
            Error::NotAvailable(Unavailable::WrongRuleset) => String::from_str("not available: wrong ruleset"),
            Error::MemoryRead(_) => String::from_str("memory read failed"),
        }
    }
}

} // verus!
