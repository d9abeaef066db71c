//! The keyed store of compiled script assets.
//!
//! A handle is a stable identifier for one script source, handed out once per
//! path. Each entry carries its load lifecycle state and the latest good
//! executable, which stays servable while a replacement is pending or has
//! failed — a broken script file never takes down already-running contexts.

use vstd::prelude::*;

use crate::backend::str_eq;
use crate::error::CompileError;
use crate::StandardScript;

verus! {

/// Load lifecycle of one script asset.
#[derive(Debug, Clone, Copy, PartialEq, Eq, Structural)]
pub enum LoadState {
    /// No source has been loaded; also the terminal state after an unload.
    Unloaded,
    /// A compile is pending; any prior executable stays servable.
    Compiling,
    /// The latest compile succeeded.
    Ready,
    /// The latest compile failed; any prior executable stays servable.
    Failed,
}

/// A stable identifier for one script source. A lookup key only: it never
/// owns the executable.
#[derive(Debug, Clone, Copy, PartialEq, Eq, Structural)]
pub struct AssetHandle {
    id: usize,
}

impl AssetHandle {
    /// The entry this handle names.
    pub closed spec fn id(self) -> int {
        self.id as int
    }
}

/// Mathematical model of one cache entry.
pub struct AssetEntryView {
    pub path: Seq<char>,
    pub state: LoadState,
    pub exe: Option<StandardScript>,
}

struct AssetEntry {
    path: String,
    state: LoadState,
    exe: Option<StandardScript>,
}

impl AssetEntry {
    spec fn view(&self) -> AssetEntryView {
        AssetEntryView { path: self.path@, state: self.state, exe: self.exe }
    }
}

/// The keyed store mapping asset handles to their load state and latest
/// compiled executable.
pub struct AssetCache {
    entries: Vec<AssetEntry>,
}

impl View for AssetCache {
    type V = Seq<AssetEntryView>;

    closed spec fn view(&self) -> Seq<AssetEntryView> {
        self.entries@.map_values(|e: AssetEntry| e.view())
    }
}

/// True when some entry carries this path.
pub open spec fn has_path(cv: Seq<AssetEntryView>, path: Seq<char>) -> bool {
    exists|i: int| 0 <= i < cv.len() && cv[i].path == path
}

impl AssetCache {
    /// Paths are unique: one handle per path.
    pub open spec fn wf(&self) -> bool {
        forall|i: int, j: int| 0 <= i < j < self@.len() ==> self@[i].path != self@[j].path
    }

    /// A handle names an entry of this cache.
    pub open spec fn valid_handle(&self, h: AssetHandle) -> bool {
        0 <= h.id() < self@.len()
    }

    /// Creates an empty cache.
    pub fn new() -> (r: AssetCache)
        ensures
            r@ == Seq::<AssetEntryView>::empty(),
            r.wf(),
    {
        let r = AssetCache { entries: Vec::new() };
        proof {
            assert(r@ =~= Seq::<AssetEntryView>::empty());
        }
        r
    }

    /// Requests the asset at `path`, creating an unloaded entry on first
    /// request. Idempotent per path: the same path yields the same handle
    /// across calls.
    pub fn load(&mut self, path: &str) -> (h: AssetHandle)
        requires
            old(self).wf(),
        ensures
            final(self).wf(),
            final(self).valid_handle(h),
            final(self)@[h.id()].path == path@,
            has_path(old(self)@, path@) ==> final(self)@ == old(self)@,
            !has_path(old(self)@, path@) ==> final(self)@ == old(self)@.push(
                AssetEntryView { path: path@, state: LoadState::Unloaded, exe: None },
            ) && h.id() == old(self)@.len(),
    {
        let n = self.entries.len();
        let mut i: usize = 0;
        while i < n
            invariant
                n == self.entries.len(),
                i <= n,
                self@ == old(self)@,
                old(self).wf(),
                forall|k: int| 0 <= k < i ==> self@[k].path != path@,
            decreases n - i,
        {
            if str_eq(self.entries[i].path.as_str(), path) {
                assert(self@[i as int].path == path@);
                assert(has_path(old(self)@, path@));
                return AssetHandle { id: i };
            }
            i += 1;
        }
        assert(!has_path(self@, path@));
        self.entries.push(
            AssetEntry { path: path.to_owned(), state: LoadState::Unloaded, exe: None },
        );
        proof {
            assert(self@ =~= old(self)@.push(
                AssetEntryView { path: path@, state: LoadState::Unloaded, exe: None },
            ));
        }
        AssetHandle { id: n }
    }

    /// The latest compiled executable for `h`: nothing if the asset was never
    /// successfully compiled, or the handle is unknown. A stale executable is
    /// still served while recompilation is pending or has failed.
    pub fn get(&self, h: AssetHandle) -> (r: Option<&StandardScript>)
        ensures
            match r {
                Some(exe) => self.valid_handle(h) && self@[h.id()].exe == Some(*exe),
                None => !self.valid_handle(h) || self@[h.id()].exe is None,
            },
    {
        if h.id < self.entries.len() {
            self.entries[h.id].exe.as_ref()
        } else {
            None
        }
    }

    /// The load lifecycle state of `h`, or nothing for an unknown handle.
    pub fn state(&self, h: AssetHandle) -> (r: Option<LoadState>)
        ensures
            match r {
                Some(s) => self.valid_handle(h) && self@[h.id()].state == s,
                None => !self.valid_handle(h),
            },
    {
        if h.id < self.entries.len() {
            Some(self.entries[h.id].state)
        } else {
            None
        }
    }

    /// Marks the cached executable stale because its source changed: a ready
    /// or failed entry moves back to compiling. The stale executable remains
    /// servable until a replacement compile succeeds.
    pub fn invalidate(&mut self, h: AssetHandle)
        requires
            old(self).wf(),
        ensures
            final(self).wf(),
            !old(self).valid_handle(h) ==> final(self)@ == old(self)@,
            old(self).valid_handle(h) ==> final(self)@ == old(self)@.update(
                h.id(),
                AssetEntryView {
                    state: stale_state(old(self)@[h.id()].state),
                    ..old(self)@[h.id()]
                },
            ),
    {
        if h.id >= self.entries.len() {
            return ;
        }
        let e = self.entries.remove(h.id);
        let next = match e.state {
            LoadState::Ready => LoadState::Compiling,
            LoadState::Failed => LoadState::Compiling,
            LoadState::Unloaded => LoadState::Unloaded,
            LoadState::Compiling => LoadState::Compiling,
        };
        self.entries.insert(h.id, AssetEntry { path: e.path, state: next, exe: e.exe });
        proof {
            assert(self@ =~= old(self)@.update(
                h.id(),
                (AssetEntryView {
                    state: stale_state(old(self)@[h.id()].state),
                    ..old(self)@[h.id()]
                }),
            ));
        }
    }

    /// Publishes the outcome of a compile for `h`, atomically from a caller's
    /// point of view: success replaces the executable and the entry becomes
    /// ready; failure keeps the prior executable servable and the entry
    /// becomes failed.
    pub fn publish(&mut self, h: AssetHandle, outcome: Result<StandardScript, &CompileError>)
        requires
            old(self).wf(),
        ensures
            final(self).wf(),
            !old(self).valid_handle(h) ==> final(self)@ == old(self)@,
            old(self).valid_handle(h) ==> match outcome {
                Ok(exe) => final(self)@ == old(self)@.update(
                    h.id(),
                    AssetEntryView {
                        state: LoadState::Ready,
                        exe: Some(exe),
                        ..old(self)@[h.id()]
                    },
                ),
                Err(_) => final(self)@ == old(self)@.update(
                    h.id(),
                    AssetEntryView { state: LoadState::Failed, ..old(self)@[h.id()] },
                ),
            },
    {
        if h.id >= self.entries.len() {
            return ;
        }
        let e = self.entries.remove(h.id);
        match outcome {
            Ok(exe) => {
                self.entries.insert(
                    h.id,
                    AssetEntry { path: e.path, state: LoadState::Ready, exe: Some(exe) },
                );
                proof {
                    assert(self@ =~= old(self)@.update(
                        h.id(),
                        (AssetEntryView {
                            state: LoadState::Ready,
                            exe: Some(exe),
                            ..old(self)@[h.id()]
                        }),
                    ));
                }
            },
            Err(_) => {
                self.entries.insert(
                    h.id,
                    AssetEntry { path: e.path, state: LoadState::Failed, exe: e.exe },
                );
                proof {
                    assert(self@ =~= old(self)@.update(
                        h.id(),
                        (AssetEntryView { state: LoadState::Failed, ..old(self)@[h.id()] }),
                    ));
                }
            },
        }
    }

    /// Unloads `h`: the entry's executable is dropped and the entry reaches
    /// its terminal state.
    pub fn unload(&mut self, h: AssetHandle)
        requires
            old(self).wf(),
        ensures
            final(self).wf(),
            !old(self).valid_handle(h) ==> final(self)@ == old(self)@,
            old(self).valid_handle(h) ==> final(self)@ == old(self)@.update(
                h.id(),
                AssetEntryView { state: LoadState::Unloaded, exe: None, ..old(self)@[h.id()] },
            ),
    {
        if h.id >= self.entries.len() {
            return ;
        }
        let e = self.entries.remove(h.id);
        self.entries.insert(h.id, AssetEntry { path: e.path, state: LoadState::Unloaded, exe: None });
        proof {
            assert(self@ =~= old(self)@.update(
                h.id(),
                (AssetEntryView { state: LoadState::Unloaded, exe: None, ..old(self)@[h.id()] }),
            ));
        }
    }
}

/// Where an asset-changed notification moves each lifecycle state: a served
/// or failed compile goes back to compiling; anything else stays put.
pub open spec fn stale_state(s: LoadState) -> LoadState {
    match s {
        LoadState::Ready => LoadState::Compiling,
        LoadState::Failed => LoadState::Compiling,
        LoadState::Unloaded => LoadState::Unloaded,
        LoadState::Compiling => LoadState::Compiling,
    }
}

} // verus!
