//! Reaction to asset-changed notifications.
//!
//! A change notification marks the affected executable stale without revoking
//! it, and a recompile publishes its outcome atomically from any caller's
//! point of view: an in-flight tick sees either the old executable or the new
//! one, never a torn one. A failed recompile leaves the previous executable in
//! service.

use vstd::prelude::*;

use crate::backend::{compile_source, compiled_of};
use crate::cache::{stale_state, AssetCache, AssetHandle, LoadState};
use crate::error::CompileError;
use crate::{Script, StandardScript};

verus! {

/// Observes asset-changed notifications and refreshes affected executables
/// without disrupting a context mid-tick.
pub struct HotReloadMonitor;

impl HotReloadMonitor {
    /// Notes that the source behind `h` changed: the entry goes back to
    /// compiling while its executable stays servable. Unknown handles are
    /// ignored.
    pub fn on_asset_changed(&self, cache: &mut AssetCache, h: AssetHandle)
        requires
            old(cache).wf(),
        ensures
            final(cache).wf(),
            final(cache)@.len() == old(cache)@.len(),
            forall|k: int|
                0 <= k < final(cache)@.len() && k != h.id()
                    ==> final(cache)@[k] == old(cache)@[k],
            old(cache).valid_handle(h) ==> {
                &&& final(cache)@[h.id()].state == stale_state(old(cache)@[h.id()].state)
                &&& final(cache)@[h.id()].exe == old(cache)@[h.id()].exe
                &&& final(cache)@[h.id()].path == old(cache)@[h.id()].path
            },
    {
        cache.invalidate(h);
    }

    /// Recompiles the source behind `h` and publishes the outcome: success
    /// exactly when the source compiles under the given engine. On success the
    /// entry serves the new executable, which wraps the compiled form; on
    /// failure it keeps serving the previous one, and only its lifecycle state
    /// records the failure. Unknown handles leave the cache untouched.
    pub fn recompile(
        &self,
        cache: &mut AssetCache,
        engine: &rhai::Engine,
        h: AssetHandle,
        source: &str,
    ) -> (r: Result<(), CompileError>)
        requires
            old(cache).wf(),
        ensures
            final(cache).wf(),
            (r is Ok <==> compiled_of(*engine, source@) is Some),
            final(cache)@.len() == old(cache)@.len(),
            forall|k: int|
                0 <= k < final(cache)@.len() && k != h.id()
                    ==> final(cache)@[k] == old(cache)@[k],
            old(cache).valid_handle(h) ==> {
                &&& final(cache)@[h.id()].path == old(cache)@[h.id()].path
                &&& (r is Ok ==> {
                    &&& final(cache)@[h.id()].state == LoadState::Ready
                    &&& final(cache)@[h.id()].exe matches Some(e) && Some(e.ast) == compiled_of(
                        *engine,
                        source@,
                    )
                })
                &&& (r is Err ==> final(cache)@[h.id()].state == LoadState::Failed
                    && final(cache)@[h.id()].exe == old(cache)@[h.id()].exe)
            },
    {
        cache.invalidate(h);
        match compile_source(engine, source) {
            Ok(ast) => {
                cache.publish(h, Ok(StandardScript::from_ast(ast)));
                Ok(())
            },
            Err(e) => {
                cache.publish(h, Err(&e));
                Err(e)
            },
        }
    }
}

} // verus!
