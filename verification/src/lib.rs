//! A verified core for embedding the rhai scripting runtime in a host's
//! per-frame update loop.
//!
//! Script source compiles to an immutable executable, an asset cache keys
//! executables by stable handles with a serve-stale hot-reload policy, and a
//! per-tick bridge copies native state into a per-entity scope, runs the
//! executable, and copies the result back out — rolling native state back
//! whenever execution or the copy-out shape check fails.

use core::marker::PhantomData;

use vstd::prelude::*;

pub mod backend;
pub mod binding;
pub mod bridge;
pub mod cache;
pub mod context;
pub mod error;
pub mod reload;
pub mod scope;
pub mod value;

use crate::backend::{compile_source, compiled_of, engine_new_raw};
use crate::error::CompileError;

verus! {

/// Assembles standard script support: the standard script asset and its
/// loader, recognizing the backend's usual file extension.
pub struct StandardScriptPlugin;

impl StandardScriptPlugin {
    /// The loader this plugin provides for the host to register.
    pub fn loader(&self) -> (r: ScriptLoader<StandardScript>)
        ensures
            r@ == seq!["rhai"@],
    {
        ScriptLoader::<StandardScript>::make_default()
    }
}

/// A custom script asset: anything that can be built from a compiled form.
pub trait Script: Sized {
    /// The compiled form this asset wraps.
    spec fn ast_view(&self) -> rhai::AST;

    /// Creates a script asset wrapping the given compiled form, unchanged.
    fn from_ast(ast: rhai::AST) -> (r: Self)
        ensures
            r.ast_view() == ast,
    ;
}

/// Compiles script source into assets of type `T`.
///
/// The recognized file extensions steer which asset files the host hands to
/// this loader; reading those files is the host's business, not this type's.
pub struct ScriptLoader<T> {
    /// Valid file extensions for scripts.
    extensions: Vec<&'static str>,
    /// The runtime instance used to compile scripts.
    engine: rhai::Engine,
    _t: PhantomData<T>,
}

impl<T> View for ScriptLoader<T> {
    type V = Seq<Seq<char>>;

    closed spec fn view(&self) -> Seq<Seq<char>> {
        self.extensions@.map_values(|e: &'static str| e@)
    }
}

impl<T> ScriptLoader<T> where T: Script {
    /// The runtime instance this loader compiles with.
    pub closed spec fn engine_view(&self) -> rhai::Engine {
        self.engine
    }

    /// Creates a loader with a minimal raw engine and no recognized
    /// extensions.
    pub fn new() -> (r: ScriptLoader<T>)
        ensures
            r@ == Seq::<Seq<char>>::empty(),
    {
        let r = ScriptLoader { extensions: Vec::new(), engine: engine_new_raw(), _t: PhantomData };
        proof {
            assert(r@ =~= Seq::<Seq<char>>::empty());
        }
        r
    }

    /// Creates the default loader: a minimal raw engine and the backend's
    /// usual file extension.
    pub fn make_default() -> (r: ScriptLoader<T>)
        ensures
            r@ == seq!["rhai"@],
    {
        let mut extensions: Vec<&'static str> = Vec::new();
        extensions.push("rhai");
        let r = ScriptLoader { extensions, engine: engine_new_raw(), _t: PhantomData };
        proof {
            assert(r@ =~= seq!["rhai"@]);
        }
        r
    }

    /// Uses the provided engine for compilation, keeping the extensions.
    pub fn with_engine(self, engine: rhai::Engine) -> (r: ScriptLoader<T>)
        ensures
            r@ == self@,
            r.engine_view() == engine,
    {
        ScriptLoader { engine, ..self }
    }

    /// Adds a single recognized extension.
    pub fn add_extension(self, extension: &'static str) -> (r: ScriptLoader<T>)
        ensures
            r@ == self@.push(extension@),
            r.engine_view() == self.engine_view(),
    {
        let ghost start = self@;
        let mut s = self;
        s.extensions.push(extension);
        proof {
            assert(s@ =~= start.push(extension@));
        }
        s
    }

    /// Adds multiple recognized extensions, in order.
    pub fn add_extensions(self, extensions: &Vec<&'static str>) -> (r: ScriptLoader<T>)
        ensures
            r@ == self@ + extensions@.map_values(|e: &'static str| e@),
            r.engine_view() == self.engine_view(),
    {
        let ghost start = self@;
        let mut s = self;
        let n = extensions.len();
        let mut i: usize = 0;
        while i < n
            invariant
                n == extensions.len(),
                i <= n,
                s@ == start + extensions@.map_values(|e: &'static str| e@).take(i as int),
                s.engine_view() == self.engine_view(),
            decreases n - i,
        {
            let ghost pre = s@;
            s.extensions.push(extensions[i]);
            proof {
                let ghost mapped = extensions@.map_values(|e: &'static str| e@);
                assert(s@ =~= pre.push(mapped[i as int]));
                assert(mapped.take(i as int + 1) =~= mapped.take(i as int).push(mapped[i as int]));
                assert(s@ =~= start + mapped.take(i as int + 1));
            }
            i += 1;
        }
        proof {
            assert(extensions@.map_values(|e: &'static str| e@).take(n as int) =~= extensions@.map_values(
                |e: &'static str| e@,
            ));
        }
        s
    }

    /// The recognized extensions.
    pub fn extensions(&self) -> (r: &Vec<&'static str>)
        ensures
            r@.map_values(|e: &'static str| e@) == self@,
    {
        &self.extensions
    }

    /// Compiles one script source into an asset, or reports the backend's
    /// compile error: success exactly when the source compiles under this
    /// loader's engine, the asset wrapping the compiled form. Pure apart from
    /// allocation: no side effect on the loader.
    pub fn compile(&self, source: &str) -> (r: Result<T, CompileError>)
        ensures
            (r is Ok <==> compiled_of(self.engine_view(), source@) is Some),
            r matches Ok(script) ==> Some(script.ast_view()) == compiled_of(
                self.engine_view(),
                source@,
            ),
    {
        match compile_source(&self.engine, source) {
            Ok(ast) => Ok(T::from_ast(ast)),
            Err(e) => Err(e),
        }
    }
}

impl<T> Default for ScriptLoader<T> where T: Script {
    /// The default loader: a minimal raw engine and the backend's usual file
    /// extension.
    fn default() -> (r: ScriptLoader<T>)
        ensures
            r@ == seq!["rhai"@],
    {
        ScriptLoader::<T>::make_default()
    }
}

/// The standard script asset: the immutable compiled form of one source file.
/// Replaced, never mutated, on recompilation.
#[derive(Debug)]
pub struct StandardScript {
    /// The compiled form of the script.
    pub ast: rhai::AST,
}

impl StandardScript {
    /// Wraps the given compiled form, unchanged: construction never
    /// recompiles and never alters the compiled form.
    pub fn new(ast: rhai::AST) -> (r: StandardScript)
        ensures
            r.ast == ast,
    {
        StandardScript { ast }
    }

    /// Compiles one script source with the given runtime instance, or reports
    /// the backend's compile error: success exactly when the source compiles
    /// under that instance's configuration, the asset wrapping the compiled
    /// form.
    pub fn compile(engine: &rhai::Engine, source: &str) -> (r: Result<
        StandardScript,
        CompileError,
    >)
        ensures
            (r is Ok <==> compiled_of(*engine, source@) is Some),
            r matches Ok(script) ==> Some(script.ast) == compiled_of(*engine, source@),
    {
        match compile_source(engine, source) {
            Ok(ast) => Ok(StandardScript::new(ast)),
            Err(e) => Err(e),
        }
    }
}

impl Script for StandardScript {
    open spec fn ast_view(&self) -> rhai::AST {
        self.ast
    }

    fn from_ast(ast: rhai::AST) -> (r: Self) {
        StandardScript::new(ast)
    }
}

/// A standalone runtime instance, for hosts that keep one per entity.
#[derive(Debug)]
pub struct StandardEngine(pub rhai::Engine);

impl StandardEngine {
    /// Creates a `StandardEngine` holding exactly the provided runtime
    /// instance.
    pub fn with_engine(engine: rhai::Engine) -> (r: StandardEngine)
        ensures
            r.0 == engine,
    {
        StandardEngine(engine)
    }

    /// The runtime instance itself.
    pub fn engine(&self) -> (r: &rhai::Engine)
        ensures
            *r == self.0,
    {
        &self.0
    }
}

} // verus!
