//! The registry of native types exposed to scripts, and the native state the
//! per-tick bridge marshals.
//!
//! A host registers, once per native type, which properties scripts may see
//! and which free functions are advertised as callable. Registration is
//! explicit and refuses duplicates: binding names are stable for the life of
//! the registry.

use vstd::prelude::*;

use crate::backend::str_eq;
use crate::scope::{lookup, spec_bind, unique_names, StandardScope};
use crate::value::{ScriptValue, ValueView};

verus! {

/// Mathematical model of one type's binding declaration.
pub struct TypeBindingView {
    pub ty_name: Seq<char>,
    pub properties: Seq<Seq<char>>,
    pub functions: Seq<Seq<char>>,
}

/// Declares which properties of one native type are exposed to scripts, and
/// which free functions are advertised as callable.
#[derive(Debug, Clone)]
pub struct TypeBinding {
    ty_name: String,
    properties: Vec<String>,
    functions: Vec<String>,
}

/// True when no name occurs twice.
pub open spec fn distinct_names(names: Seq<Seq<char>>) -> bool {
    forall|i: int, j: int| 0 <= i < j < names.len() ==> names[i] != names[j]
}

impl View for TypeBinding {
    type V = TypeBindingView;

    closed spec fn view(&self) -> TypeBindingView {
        TypeBindingView {
            ty_name: self.ty_name@,
            properties: self.properties@.map_values(|p: String| p@),
            functions: self.functions@.map_values(|p: String| p@),
        }
    }
}

/// Appends `name` to `names` unless it is already there; reports whether it
/// was appended.
fn push_if_absent(names: &mut Vec<String>, name: &str) -> (added: bool)
    ensures
        added == !old(names)@.map_values(|p: String| p@).contains(name@),
        added ==> final(names)@.map_values(|p: String| p@) == old(names)@.map_values(
            |p: String| p@,
        ).push(name@),
        !added ==> final(names)@ == old(names)@,
{
    let ghost nv = names@.map_values(|p: String| p@);
    let n = names.len();
    let mut i: usize = 0;
    while i < n
        invariant
            n == names.len(),
            i <= n,
            names@ == old(names)@,
            nv == names@.map_values(|p: String| p@),
            forall|k: int| 0 <= k < i ==> nv[k] != name@,
        decreases n - i,
    {
        if str_eq(names[i].as_str(), name) {
            assert(nv[i as int] == name@);
            assert(nv.contains(name@));
            return false;
        }
        i += 1;
    }
    assert(forall|k: int| 0 <= k < nv.len() ==> nv[k] != name@);
    assert(!nv.contains(name@));
    names.push(name.to_owned());
    proof {
        assert(names@.map_values(|p: String| p@) =~= nv.push(name@));
    }
    true
}

impl TypeBinding {
    /// Property and function names each occur at most once.
    pub open spec fn wf(&self) -> bool {
        distinct_names(self@.properties) && distinct_names(self@.functions)
    }

    /// Creates a binding declaration for the native type called `ty_name`,
    /// exposing nothing yet.
    pub fn new(ty_name: &str) -> (r: TypeBinding)
        ensures
            r@.ty_name == ty_name@,
            r@.properties == Seq::<Seq<char>>::empty(),
            r@.functions == Seq::<Seq<char>>::empty(),
            r.wf(),
    {
        let r = TypeBinding {
            ty_name: ty_name.to_owned(),
            properties: Vec::new(),
            functions: Vec::new(),
        };
        proof {
            assert(r@.properties =~= Seq::<Seq<char>>::empty());
            assert(r@.functions =~= Seq::<Seq<char>>::empty());
        }
        r
    }

    /// Exposes one property of the type; refuses a name already exposed.
    pub fn add_property(&mut self, name: &str) -> (added: bool)
        requires
            old(self).wf(),
        ensures
            final(self).wf(),
            added == !old(self)@.properties.contains(name@),
            added ==> final(self)@ == (TypeBindingView {
                properties: old(self)@.properties.push(name@),
                ..old(self)@
            }),
            !added ==> final(self)@ == old(self)@,
    {
        push_if_absent(&mut self.properties, name)
    }

    /// Advertises one free function as callable; refuses a name already
    /// advertised.
    pub fn add_function(&mut self, name: &str) -> (added: bool)
        requires
            old(self).wf(),
        ensures
            final(self).wf(),
            added == !old(self)@.functions.contains(name@),
            added ==> final(self)@ == (TypeBindingView {
                functions: old(self)@.functions.push(name@),
                ..old(self)@
            }),
            !added ==> final(self)@ == old(self)@,
    {
        push_if_absent(&mut self.functions, name)
    }

    /// The number of exposed properties.
    pub fn property_count(&self) -> (r: usize)
        ensures
            r == self@.properties.len(),
    {
        self.properties.len()
    }

    /// The name of the exposed property at `i`.
    pub fn property_at(&self, i: usize) -> (r: &String)
        requires
            i < self@.properties.len(),
        ensures
            r@ == self@.properties[i as int],
    {
        &self.properties[i]
    }
}

/// Finds the binding declared for type `t`, if any.
pub open spec fn find_binding(rv: Seq<TypeBindingView>, t: Seq<char>) -> Option<TypeBindingView>
    decreases rv.len(),
{
    if rv.len() == 0 {
        None
    } else if rv.first().ty_name == t {
        Some(rv.first())
    } else {
        find_binding(rv.drop_first(), t)
    }
}

/// The process-wide registry of type bindings, built once at engine
/// construction and consumed by every execution context.
#[derive(Debug, Clone)]
pub struct BindingRegistry {
    bindings: Vec<TypeBinding>,
}

impl View for BindingRegistry {
    type V = Seq<TypeBindingView>;

    closed spec fn view(&self) -> Seq<TypeBindingView> {
        self.bindings@.map_values(|b: TypeBinding| b@)
    }
}

impl BindingRegistry {
    /// Type names are unique and every binding is well formed.
    pub open spec fn wf(&self) -> bool {
        &&& forall|i: int, j: int|
            0 <= i < j < self@.len() ==> self@[i].ty_name != self@[j].ty_name
        &&& forall|i: int|
            0 <= i < self@.len() ==> distinct_names(#[trigger] self@[i].properties)
    }

    /// Creates an empty registry.
    pub fn new() -> (r: BindingRegistry)
        ensures
            r@ == Seq::<TypeBindingView>::empty(),
            r.wf(),
    {
        let r = BindingRegistry { bindings: Vec::new() };
        proof {
            assert(r@ =~= Seq::<TypeBindingView>::empty());
        }
        r
    }

    /// Registers one type's binding; refuses a type already registered, so a
    /// declaration can never be replaced.
    pub fn register(&mut self, binding: TypeBinding) -> (registered: bool)
        requires
            old(self).wf(),
            binding.wf(),
        ensures
            final(self).wf(),
            registered == (find_binding(old(self)@, binding@.ty_name) is None),
            registered ==> final(self)@ == old(self)@.push(binding@),
            !registered ==> final(self)@ == old(self)@,
    {
        let n = self.bindings.len();
        let mut i: usize = 0;
        while i < n
            invariant
                n == self.bindings.len(),
                i <= n,
                self@ == old(self)@,
                old(self).wf(),
                binding.wf(),
                forall|k: int| 0 <= k < i ==> self@[k].ty_name != binding@.ty_name,
            decreases n - i,
        {
            if str_eq(self.bindings[i].ty_name.as_str(), binding.ty_name.as_str()) {
                proof {
                    lemma_find_binding_present(self@, binding@.ty_name, i as int);
                }
                return false;
            }
            i += 1;
        }
        proof {
            lemma_find_binding_none(self@, binding@.ty_name);
        }
        self.bindings.push(binding);
        proof {
            assert(self@ =~= old(self)@.push(binding@));
        }
        true
    }

    /// Returns the binding declared for `ty_name`, if any.
    pub fn binding(&self, ty_name: &str) -> (r: Option<&TypeBinding>)
        ensures
            match r {
                Some(b) => find_binding(self@, ty_name@) == Some(b@),
                None => find_binding(self@, ty_name@) is None,
            },
    {
        let n = self.bindings.len();
        let mut i: usize = 0;
        while i < n
            invariant
                n == self.bindings.len(),
                i <= n,
                forall|k: int| 0 <= k < i ==> self@[k].ty_name != ty_name@,
            decreases n - i,
        {
            if str_eq(self.bindings[i].ty_name.as_str(), ty_name) {
                proof {
                    lemma_find_binding_present(self@, ty_name@, i as int);
                }
                return Some(&self.bindings[i]);
            }
            i += 1;
        }
        proof {
            lemma_find_binding_none(self@, ty_name@);
        }
        None
    }
}

/// When every earlier type name differs and position `i` matches, the search
/// finds position `i`.
proof fn lemma_find_binding_present(rv: Seq<TypeBindingView>, t: Seq<char>, i: int)
    requires
        0 <= i < rv.len(),
        rv[i].ty_name == t,
        forall|k: int| 0 <= k < i ==> rv[k].ty_name != t,
    ensures
        find_binding(rv, t) == Some(rv[i]),
    decreases i,
{
    if i == 0 {
    } else {
        lemma_find_binding_present(rv.drop_first(), t, i - 1);
    }
}

/// When no entry carries type name `t`, the search fails.
proof fn lemma_find_binding_none(rv: Seq<TypeBindingView>, t: Seq<char>)
    requires
        forall|k: int| 0 <= k < rv.len() ==> rv[k].ty_name != t,
    ensures
        find_binding(rv, t) is None,
    decreases rv.len(),
{
    if rv.len() > 0 {
        lemma_find_binding_none(rv.drop_first(), t);
    }
}

/// A found binding is one of the registry's entries.
pub proof fn lemma_find_binding_element(rv: Seq<TypeBindingView>, t: Seq<char>)
    requires
        find_binding(rv, t) is Some,
    ensures
        exists|i: int|
            0 <= i < rv.len() && rv[i] == find_binding(rv, t)->Some_0,
    decreases rv.len(),
{
    if rv.len() > 0 && rv.first().ty_name != t {
        lemma_find_binding_element(rv.drop_first(), t);
        let i = choose|i: int|
            0 <= i < rv.drop_first().len() && rv.drop_first()[i] == find_binding(
                rv.drop_first(),
                t,
            )->Some_0;
        assert(rv[i + 1] == find_binding(rv, t)->Some_0);
    }
}

/// Mathematical model of one piece of native state.
pub struct NativeStateView {
    pub ty_name: Seq<char>,
    pub fields: Seq<(Seq<char>, ValueView)>,
}

/// A host-owned structure whose exposed fields cross into a script's scope
/// each tick and, on success, back out.
#[derive(Debug, Clone)]
pub struct NativeState {
    ty_name: String,
    fields: StandardScope,
}

impl View for NativeState {
    type V = NativeStateView;

    closed spec fn view(&self) -> NativeStateView {
        NativeStateView { ty_name: self.ty_name@, fields: self.fields@ }
    }
}

impl NativeState {
    /// Field names are unique.
    pub open spec fn wf(&self) -> bool {
        unique_names(self@.fields)
    }

    /// Creates a native value of type `ty_name` with no fields yet.
    pub fn new(ty_name: &str) -> (r: NativeState)
        ensures
            r@.ty_name == ty_name@,
            r@.fields == Seq::<(Seq<char>, ValueView)>::empty(),
            r.wf(),
    {
        NativeState { ty_name: ty_name.to_owned(), fields: StandardScope::new() }
    }

    /// The name of this value's native type.
    pub fn ty_name(&self) -> (r: &String)
        ensures
            r@ == self@.ty_name,
    {
        &self.ty_name
    }

    /// Sets or overwrites one field.
    pub fn set_field(&mut self, name: &str, value: ScriptValue)
        requires
            old(self).wf(),
        ensures
            final(self).wf(),
            final(self)@.ty_name == old(self)@.ty_name,
            final(self)@.fields == spec_bind(old(self)@.fields, name@, value@),
    {
        self.fields.bind(name, value);
    }

    /// Reads one field, or nothing if the field is unset.
    pub fn field(&self, name: &str) -> (r: Option<ScriptValue>)
        ensures
            match r {
                Some(v) => lookup(self@.fields, name@) == Some(v@),
                None => lookup(self@.fields, name@) is None,
            },
    {
        self.fields.read(name)
    }
}

} // verus!
