//! One entity's execution context: a private runtime instance paired with a
//! private variable scope.
//!
//! Runtimes are never shared across contexts, and a context's scope is owned
//! exclusively by it, so variables in one entity's script can never leak into
//! another's. The scope is never reset between ticks: stale variables persist
//! unless overwritten, which scripts may rely on to accumulate state — for
//! values of marshaled shape; a script value outside the marshaled set is left
//! out of the persistent scope at the tick's read-back.

use vstd::prelude::*;

use crate::backend::{engine_new, engine_new_raw};
use crate::scope::{lookup, spec_bind, unique_names, StandardScope};
use crate::value::{ScriptValue, ValueView};

verus! {

/// One runtime instance plus one variable scope, owned by one host entity.
#[derive(Debug)]
pub struct ExecutionContext {
    engine: rhai::Engine,
    scope: StandardScope,
}

impl View for ExecutionContext {
    type V = Seq<(Seq<char>, ValueView)>;

    closed spec fn view(&self) -> Seq<(Seq<char>, ValueView)> {
        self.scope@
    }
}

impl ExecutionContext {
    /// Every scope variable's name is unique.
    pub open spec fn wf(&self) -> bool {
        unique_names(self@)
    }

    /// The runtime instance this context runs with.
    pub closed spec fn engine_view(&self) -> rhai::Engine {
        self.engine
    }

    /// Creates a context with a fresh, fully equipped runtime instance of its
    /// own and an empty scope.
    pub fn new() -> (r: ExecutionContext)
        ensures
            r@ == Seq::<(Seq<char>, ValueView)>::empty(),
            r.wf(),
    {
        ExecutionContext { engine: engine_new(), scope: StandardScope::new() }
    }

    /// Creates a context with a fresh, minimal raw runtime instance and an
    /// empty scope.
    pub fn new_raw() -> (r: ExecutionContext)
        ensures
            r@ == Seq::<(Seq<char>, ValueView)>::empty(),
            r.wf(),
    {
        ExecutionContext { engine: engine_new_raw(), scope: StandardScope::new() }
    }

    /// Creates a context holding exactly the provided runtime instance and an
    /// empty scope.
    pub fn with_engine(engine: rhai::Engine) -> (r: ExecutionContext)
        ensures
            r@ == Seq::<(Seq<char>, ValueView)>::empty(),
            r.wf(),
            r.engine_view() == engine,
    {
        ExecutionContext { engine, scope: StandardScope::new() }
    }

    /// The context's own runtime instance.
    pub fn engine(&self) -> (r: &rhai::Engine)
        ensures
            *r == self.engine_view(),
    {
        &self.engine
    }

    /// Inserts or overwrites the scope variable `name`.
    pub fn bind(&mut self, name: &str, value: ScriptValue)
        requires
            old(self).wf(),
        ensures
            final(self).wf(),
            final(self)@ == spec_bind(old(self)@, name@, value@),
            final(self).engine_view() == old(self).engine_view(),
    {
        self.scope.bind(name, value);
    }

    /// Reads the scope variable `name`, or nothing if it is unset.
    pub fn read(&self, name: &str) -> (r: Option<ScriptValue>)
        ensures
            match r {
                Some(v) => lookup(self@, name@) == Some(v@),
                None => lookup(self@, name@) is None,
            },
    {
        self.scope.read(name)
    }

    /// Reads the scope variable `name` as an integer: nothing if it is unset
    /// or carries another tag.
    pub fn read_int(&self, name: &str) -> (r: Option<i64>)
        ensures
            match r {
                Some(v) => lookup(self@, name@) == Some(ValueView::Int(v as int)),
                None => !(lookup(self@, name@) matches Some(ValueView::Int(_))),
            },
    {
        self.scope.read_int(name)
    }

    /// Reads the scope variable `name` as a boolean: nothing if it is unset
    /// or carries another tag.
    pub fn read_bool(&self, name: &str) -> (r: Option<bool>)
        ensures
            match r {
                Some(v) => lookup(self@, name@) == Some(ValueView::Bool(v)),
                None => !(lookup(self@, name@) matches Some(ValueView::Bool(_))),
            },
    {
        self.scope.read_bool(name)
    }

    /// Reads the scope variable `name` as a string: nothing if it is unset or
    /// carries another tag.
    pub fn read_str(&self, name: &str) -> (r: Option<String>)
        ensures
            match r {
                Some(v) => lookup(self@, name@) == Some(ValueView::Str(v@)),
                None => !(lookup(self@, name@) matches Some(ValueView::Str(_))),
            },
    {
        self.scope.read_str(name)
    }

    /// The number of variables currently in the scope.
    pub fn scope_len(&self) -> (r: usize)
        ensures
            r == self@.len(),
    {
        self.scope.len()
    }

    /// The name and value of the scope variable at position `i`.
    pub fn entry_at(&self, i: usize) -> (r: (&String, &ScriptValue))
        requires
            i < self@.len(),
        ensures
            (r.0@, r.1@) == self@[i as int],
    {
        self.scope.entry_at(i)
    }

    /// Replaces the whole scope, keeping the runtime instance: the read-back
    /// step after an execution installs the scope the script left behind.
    pub fn replace_scope(&mut self, scope: StandardScope)
        ensures
            final(self)@ == scope@,
            final(self).engine_view() == old(self).engine_view(),
    {
        self.scope = scope;
    }
}

} // verus!
