use vstd::prelude::*;

use crate::error::{Error, ReadFault};
use crate::memory::MemoryAccessor;
use crate::read::{i32_at, read_i32};

verus! {

/// The base addresses that chains start from.
#[derive(Debug, Clone, Copy, PartialEq, Eq, Structural)]
pub enum AnchorKind {
    /// The module base, root of the beatmap and retry chains.
    Base,
    /// Root of the game state chain.
    Status,
    /// Pointer to the active session structure, root of the gameplay,
    /// overlay and result screen chains.
    Rulesets,
    /// Root of the in-game time chain.
    Playtime,
}

/// The stable starting point from which an anchor is derived.
#[derive(Debug, Clone, Copy, PartialEq, Eq, Structural)]
pub enum AnchorRoot {
    /// The anchor is this address itself.
    Fixed(i32),
    /// The anchor is the pointer stored at this address.
    Indirect(i32),
}

/// Where each anchor is derived from; fixed for the life of the process.
#[derive(Debug, Clone, Copy, PartialEq, Eq, Structural)]
pub struct AnchorRoots {
    pub base: AnchorRoot,
    pub status: AnchorRoot,
    pub rulesets: AnchorRoot,
    pub playtime: AnchorRoot,
}

/// The anchors known at the moment; `None` where not resolved yet or
/// invalidated.
#[derive(Debug, Clone, Copy, PartialEq, Eq, Structural)]
pub struct CachedAnchors {
    pub base: Option<i32>,
    pub status: Option<i32>,
    pub rulesets: Option<i32>,
    pub playtime: Option<i32>,
}

/// The caller-owned cache of anchor addresses, passed by exclusive
/// reference into every read.
#[derive(Debug, Clone, Copy, PartialEq, Eq, Structural)]
pub struct State {
    pub roots: AnchorRoots,
    pub anchors: CachedAnchors,
}

/// What deriving an anchor from its root yields.
pub open spec fn root_value(m: Map<int, u8>, r: AnchorRoot) -> Result<i32, ReadFault> {
    match r {
        AnchorRoot::Fixed(a) => Ok(a),
        AnchorRoot::Indirect(a) => i32_at(m, a),
    }
}

/// The anchor `k` as a read through it sees it: the cached address, or
/// else a fresh derivation from its root.
pub open spec fn anchor_value(m: Map<int, u8>, st: State, k: AnchorKind) -> Result<i32, ReadFault> {
    match st.cached(k) {
        Some(a) => Ok(a),
        None => root_value(m, st.root(k)),
    }
}

/// The state after a use of anchor `k` that succeeded (`ok`) or ended in a
/// failed read: the anchor stays cached only in the first case.
pub open spec fn settle(m: Map<int, u8>, st: State, k: AnchorKind, ok: bool) -> State {
    if ok {
        st.with_cached(k, Some(anchor_value(m, st, k)->Ok_0))
    } else {
        st.with_cached(k, None)
    }
}

/// Reads that deriving anchor `k` costs.
pub open spec fn anchor_cost(st: State, k: AnchorKind) -> nat {
    match (st.cached(k), st.root(k)) {
        (None, AnchorRoot::Indirect(_)) => 1,
        _ => 0,
    }
}

pub open spec fn lift<T>(r: Result<T, ReadFault>) -> Result<T, Error> {
    match r {
        Ok(v) => Ok(v),
        Err(f) => Err(Error::MemoryRead(f)),
    }
}

impl State {
    pub open spec fn cached(&self, k: AnchorKind) -> Option<i32> {
        match k {
            AnchorKind::Base => self.anchors.base,
            AnchorKind::Status => self.anchors.status,
            AnchorKind::Rulesets => self.anchors.rulesets,
            AnchorKind::Playtime => self.anchors.playtime,
        }
    }

    pub open spec fn root(&self, k: AnchorKind) -> AnchorRoot {
        match k {
            AnchorKind::Base => self.roots.base,
            AnchorKind::Status => self.roots.status,
            AnchorKind::Rulesets => self.roots.rulesets,
            AnchorKind::Playtime => self.roots.playtime,
        }
    }

    pub open spec fn with_cached(self, k: AnchorKind, v: Option<i32>) -> State {
        match k {
            AnchorKind::Base => State { anchors: CachedAnchors { base: v, ..self.anchors }, ..self },
            AnchorKind::Status => State { anchors: CachedAnchors { status: v, ..self.anchors }, ..self },
            AnchorKind::Rulesets => State { anchors: CachedAnchors { rulesets: v, ..self.anchors }, ..self },
            AnchorKind::Playtime => State { anchors: CachedAnchors { playtime: v, ..self.anchors }, ..self },
        }
    }

    /// A state that has resolved no anchor yet.
    pub fn new(roots: AnchorRoots) -> (r: State)
        ensures
            r.roots == roots,
            forall|k: AnchorKind| (#[trigger] r.cached(k)) is None,
    {
        State { roots, anchors: CachedAnchors { base: None, status: None, rulesets: None, playtime: None } }
    }

    /// The cached address of anchor `k`.
    pub fn cached_anchor(&self, k: AnchorKind) -> (r: Option<i32>)
        ensures
            r == self.cached(k),
    {
        match k {
            AnchorKind::Base => self.anchors.base,
            AnchorKind::Status => self.anchors.status,
            AnchorKind::Rulesets => self.anchors.rulesets,
            AnchorKind::Playtime => self.anchors.playtime,
        }
    }

    fn set_cached(&mut self, k: AnchorKind, v: Option<i32>)
        ensures
            *final(self) == old(self).with_cached(k, v),
    {
        match k {
            AnchorKind::Base => self.anchors.base = v,
            AnchorKind::Status => self.anchors.status = v,
            AnchorKind::Rulesets => self.anchors.rulesets = v,
            AnchorKind::Playtime => self.anchors.playtime = v,
        }
    }

    /// Clears anchor `k`: the next use derives it afresh from its root.
    pub fn invalidate(&mut self, k: AnchorKind)
        ensures
            *final(self) == old(self).with_cached(k, None),
    {
        self.set_cached(k, None);
    }

    /// The address of anchor `k`, derived from its root and cached when
    /// not known yet.
    pub fn get_or_resolve<M: MemoryAccessor>(&mut self, acc: &mut M, k: AnchorKind) -> (r: Result<i32, Error>)
        ensures
            r == lift(anchor_value(old(acc).memory(), *old(self), k)),
            *final(self) == match r {
                Ok(a) => old(self).with_cached(k, Some(a)),
                Err(_) => *old(self),
            },
            final(acc).memory() == old(acc).memory(),
            final(acc).read_count() == old(acc).read_count() + anchor_cost(*old(self), k),
    {
        match self.cached_anchor(k) {
            Some(a) => {
                proof {
                    assert(old(self).with_cached(k, Some(a)) == *old(self));
                }
                Ok(a)
            },
            None => {
                let root = match k {
                    AnchorKind::Base => self.roots.base,
                    AnchorKind::Status => self.roots.status,
                    AnchorKind::Rulesets => self.roots.rulesets,
                    AnchorKind::Playtime => self.roots.playtime,
                };
                let a = match root {
                    AnchorRoot::Fixed(a) => a,
                    AnchorRoot::Indirect(p) => match read_i32(acc, p) {
                        Ok(a) => a,
                        Err(f) => {
                            return Err(Error::MemoryRead(f));
                        },
                    },
                };
                self.set_cached(k, Some(a));
                Ok(a)
            },
        }
    }
}

} // verus!
