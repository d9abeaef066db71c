//! Trusted boundary to the rhai scripting backend and to std functions that
//! vstd leaves unspecified.
//!
//! Everything here is believed, not proved: each item's contract states only
//! what the called function's own source or documentation shows. The backend's
//! engine, compiled form and transient scope are opaque; what a transient
//! scope holds is modeled by the uninterpreted `scope_entries`.

use vstd::prelude::*;

use crate::error::CompileError;
use crate::value::{ScriptValue, ValueView};

verus! {

/// Relies on `str`'s `PartialEq`: two string slices are equal exactly when
/// they hold the same characters.
#[verifier::external_body]
pub(crate) fn str_eq(a: &str, b: &str) -> (r: bool)
    ensures
        r == (a@ == b@),
{
    a == b
}

/// Declares `rhai::Engine`, the backend's runtime instance, as an opaque type.
#[verifier::external_type_specification]
#[verifier::external_body]
pub struct ExEngine(rhai::Engine);

/// Declares `rhai::AST`, the backend's compiled form, as an opaque type.
#[verifier::external_type_specification]
#[verifier::external_body]
pub struct ExAst(rhai::AST);

/// Declares `rhai::Scope`, the backend's variable scope, as an opaque type;
/// what one holds is modeled by `scope_entries`.
#[verifier::external_type_specification]
#[verifier::external_body]
pub struct ExScope<'a>(rhai::Scope<'a>);

/// What a backend scope holds, in insertion order: each entry's name and its
/// value, or nothing where the value lies outside the marshaled set.
pub uninterp spec fn scope_entries(s: rhai::Scope<'static>) -> Seq<(Seq<char>, Option<ValueView>)>;

/// The model of a marshaled-out entry list.
pub open spec fn out_pairs_view(v: Seq<(String, Option<ScriptValue>)>) -> Seq<
    (Seq<char>, Option<ValueView>),
> {
    v.map_values(
        |p: (String, Option<ScriptValue>)|
            (
                p.0@,
                match p.1 {
                    Some(sv) => Some(sv@),
                    None => None,
                },
            ),
    )
}

/// Relies on `rhai::Engine::new`: a fresh runtime instance with the standard
/// packages loaded.
#[verifier::external_body]
pub(crate) fn engine_new() -> rhai::Engine {
    rhai::Engine::new()
}

/// Relies on `rhai::Engine::new_raw`: a fresh, minimal runtime instance with
/// no packages and no language extensions.
#[verifier::external_body]
pub(crate) fn engine_new_raw() -> rhai::Engine {
    rhai::Engine::new_raw()
}

/// What the backend compiler yields for a given runtime instance and source
/// text: the compiled form, or nothing where the source does not compile under
/// that instance's configuration. Compilation reads nothing but its arguments,
/// so its outcome is a function of them.
pub uninterp spec fn compiled_of(engine: rhai::Engine, source: Seq<char>) -> Option<rhai::AST>;

/// Relies on `rhai::Engine::compile`: parses source text into a compiled
/// form, or reports a parse error carrying a message and, where known, a
/// source position. The outcome is deterministic in the engine's
/// configuration and the source, which `compiled_of` names.
#[verifier::external_body]
pub(crate) fn compile_source(engine: &rhai::Engine, source: &str) -> (r: Result<
    rhai::AST,
    CompileError,
>)
    ensures
        match r {
            Ok(ast) => compiled_of(*engine, source@) == Some(ast),
            Err(_) => compiled_of(*engine, source@) is None,
        },
{
    match engine.compile(source) {
        Ok(ast) => Ok(ast),
        Err(e) => {
            let line = e.position().line().map(|l| l as u64);
            let column = e.position().position().map(|c| c as u64);
            Err(CompileError { message: e.to_string(), line, column })
        },
    }
}

/// Relies on `rhai::Scope::new`: the new scope holds no entries.
#[verifier::external_body]
pub(crate) fn scope_new() -> (r: rhai::Scope<'static>)
    ensures
        scope_entries(r) == Seq::<(Seq<char>, Option<ValueView>)>::empty(),
{
    rhai::Scope::new()
}

/// Relies on `rhai::Scope::push`: appends one integer entry at the end.
#[verifier::external_body]
pub(crate) fn scope_push_int(s: &mut rhai::Scope<'static>, name: &str, v: i64)
    ensures
        scope_entries(*final(s)) == scope_entries(*old(s)).push(
            (name@, Some(ValueView::Int(v as int))),
        ),
{
    s.push(name, v);
}

/// Relies on `rhai::Scope::push`: appends one boolean entry at the end.
#[verifier::external_body]
pub(crate) fn scope_push_bool(s: &mut rhai::Scope<'static>, name: &str, v: bool)
    ensures
        scope_entries(*final(s)) == scope_entries(*old(s)).push((name@, Some(ValueView::Bool(v)))),
{
    s.push(name, v);
}

/// Relies on `rhai::Scope::push`: appends one string entry at the end.
#[verifier::external_body]
pub(crate) fn scope_push_str(s: &mut rhai::Scope<'static>, name: &str, v: &str)
    ensures
        scope_entries(*final(s)) == scope_entries(*old(s)).push((name@, Some(ValueView::Str(v@)))),
{
    s.push(name, v.to_owned());
}

/// Relies on `rhai::Scope::push`: appends one unit entry at the end.
#[verifier::external_body]
pub(crate) fn scope_push_unit(s: &mut rhai::Scope<'static>, name: &str)
    ensures
        scope_entries(*final(s)) == scope_entries(*old(s)).push((name@, Some(ValueView::Unit))),
{
    s.push(name, ());
}

/// Relies on `rhai::Engine::run_ast_with_scope`: runs the compiled statements
/// against the scope, which the script may change in any way; a runtime fault
/// comes back as the backend's error text.
#[verifier::external_body]
pub(crate) fn run_ast_with_scope(
    engine: &rhai::Engine,
    ast: &rhai::AST,
    s: &mut rhai::Scope<'static>,
) -> Result<(), String> {
    engine.run_ast_with_scope(s, ast).map_err(|e| e.to_string())
}

/// Relies on `rhai::Scope::iter`: yields every entry in insertion order;
/// a value outside the marshaled set comes back as `None`.
#[verifier::external_body]
pub(crate) fn scope_entries_out(s: &rhai::Scope<'static>) -> (r: Vec<(String, Option<ScriptValue>)>)
    ensures
        out_pairs_view(r@) == scope_entries(*s),
{
    s.iter().map(|(n, _, v): (&str, bool, rhai::Dynamic)| {
        let sv = if let Ok(i) = v.as_int() { Some(ScriptValue::Int(i)) }
        else if let Ok(b) = v.as_bool() { Some(ScriptValue::Bool(b)) }
        else if v.is_unit() { Some(ScriptValue::Unit) }
        else if v.is_string() { v.into_string().ok().map(ScriptValue::Str) }
        else { None };
        (n.to_owned(), sv)
    }).collect()
}

} // verus!
