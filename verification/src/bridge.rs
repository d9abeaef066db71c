//! The per-tick state-synchronization protocol, for one (context, handle,
//! native state) triple: bind, resolve, execute, copy out.
//!
//! Bind copies the native value's exposed properties into the scope; resolve
//! looks the executable up, skipping the tick while none is available; execute
//! runs it; copy-out shape-checks each exposed property the script left behind
//! and only then overwrites native state. Any fault rolls native state back to
//! its pre-tick value: a script can never partially mutate host state.

use vstd::prelude::*;

use crate::backend::{
    out_pairs_view, run_ast_with_scope, scope_entries, scope_entries_out, scope_new,
    scope_push_bool, scope_push_int, scope_push_str, scope_push_unit,
};
use crate::binding::{
    distinct_names, find_binding, lemma_find_binding_element, BindingRegistry, NativeState,
    NativeStateView, TypeBindingView,
};
use crate::cache::{AssetCache, AssetEntryView, AssetHandle};
use crate::context::ExecutionContext;
use crate::error::ExecutionError;
use crate::scope::{
    absorb, has_name, lemma_spec_bind_all_distinct, lookup, pairs_view, spec_bind_all,
    unique_names, StandardScope,
};
use crate::value::{same_tag_view, ScriptValue, ValueView};

verus! {

/// The outcome of one tick for one (context, handle, native state) triple.
#[derive(Debug, Clone, PartialEq)]
pub enum TickReport {
    /// No executable is available yet, so execution was skipped. A normal
    /// state, not an error.
    NotReady,
    /// The executable ran and its result was copied back into native state.
    Completed,
    /// The tick faulted; native state was rolled back to its pre-tick value.
    Faulted(ExecutionError),
}

/// True of a report that carries any fault.
pub open spec fn is_fault(r: TickReport) -> bool {
    r matches TickReport::Faulted(_)
}

/// True of a report that carries a copy-in/copy-out shape fault.
pub open spec fn is_mismatch(r: TickReport) -> bool {
    match r {
        TickReport::Faulted(e) => e matches ExecutionError::BindingMismatch { .. },
        _ => false,
    }
}

/// True of a report that carries a script runtime fault.
pub open spec fn is_runtime_fault(r: TickReport) -> bool {
    match r {
        TickReport::Faulted(e) => e matches ExecutionError::Runtime { .. },
        _ => false,
    }
}

/// The properties the registry exposes for type `t`: none for an unregistered
/// type.
pub open spec fn props_of(rv: Seq<TypeBindingView>, t: Seq<char>) -> Seq<Seq<char>> {
    match find_binding(rv, t) {
        Some(b) => b.properties,
        None => Seq::empty(),
    }
}

/// Every exposed property is present on the native value.
pub open spec fn all_props_present(
    props: Seq<Seq<char>>,
    fields: Seq<(Seq<char>, ValueView)>,
) -> bool {
    forall|k: int| 0 <= k < props.len() ==> lookup(fields, props[k]) is Some
}

/// The native value can be bound: its type is registered and every exposed
/// property is present.
pub open spec fn bindable(rv: Seq<TypeBindingView>, sv: NativeStateView) -> bool {
    &&& find_binding(rv, sv.ty_name) is Some
    &&& all_props_present(props_of(rv, sv.ty_name), sv.fields)
}

/// The value behind a lookup known to succeed.
pub open spec fn found_value(o: Option<ValueView>) -> ValueView {
    match o {
        Some(v) => v,
        None => ValueView::Unit,
    }
}

/// The exposed view of a native value: each exposed property with its current
/// value, in declaration order.
pub open spec fn exposed_pairs(
    props: Seq<Seq<char>>,
    fields: Seq<(Seq<char>, ValueView)>,
) -> Seq<(Seq<char>, ValueView)> {
    Seq::new(props.len(), |k: int| (props[k], found_value(lookup(fields, props[k]))))
}

/// The copy-out shape check: every exposed property is set in the scope the
/// script left behind, with the same tag the native field had before the tick.
pub open spec fn copy_out_ok(
    props: Seq<Seq<char>>,
    sv: Seq<(Seq<char>, ValueView)>,
    fields: Seq<(Seq<char>, ValueView)>,
) -> bool {
    forall|k: int|
        0 <= k < props.len() ==> match (
            lookup(sv, #[trigger] props[k]),
            lookup(fields, props[k]),
        ) {
            (Some(a), Some(b)) => same_tag_view(a, b),
            _ => false,
        }
}

/// The copy-out result: each exposed property holds what the scope holds, and
/// every other field is untouched.
pub open spec fn copied_out(
    props: Seq<Seq<char>>,
    sv: Seq<(Seq<char>, ValueView)>,
    old_fields: Seq<(Seq<char>, ValueView)>,
    new_fields: Seq<(Seq<char>, ValueView)>,
) -> bool {
    &&& forall|k: int|
        0 <= k < props.len() ==> lookup(new_fields, #[trigger] props[k]) == lookup(sv, props[k])
    &&& forall|n: Seq<char>|
        !props.contains(n) ==> #[trigger] lookup(new_fields, n) == lookup(old_fields, n)
}

/// An executable is available for the handle.
pub open spec fn resolvable(cv: Seq<AssetEntryView>, h: AssetHandle) -> bool {
    0 <= h.id() < cv.len() && cv[h.id()].exe is Some
}

/// Runs one tick of the bind → resolve → execute → copy-out protocol for one
/// (context, handle, native state) triple.
///
/// Strictly sequential within this context's tick; different contexts are
/// independent, and this function touches no context but the one it is given.
/// After a successful run the scope the script left behind persists into the
/// context, except that an entry whose value lies outside the marshaled set is
/// left out at read-back: scripts accumulate state across ticks in marshaled
/// values only.
pub fn tick(
    ctx: &mut ExecutionContext,
    cache: &AssetCache,
    handle: AssetHandle,
    state: &mut NativeState,
    registry: &BindingRegistry,
) -> (r: TickReport)
    requires
        old(ctx).wf(),
        old(state).wf(),
        registry.wf(),
    ensures
        final(ctx).wf(),
        final(ctx).engine_view() == old(ctx).engine_view(),
        final(state).wf(),
        final(state)@.ty_name == old(state)@.ty_name,
        is_fault(r) ==> final(state)@ == old(state)@,
        !bindable(registry@, old(state)@) ==> is_mismatch(r) && final(ctx)@ == old(ctx)@,
        bindable(registry@, old(state)@) ==> ({
            let props = props_of(registry@, old(state)@.ty_name);
            let bound = spec_bind_all(old(ctx)@, exposed_pairs(props, old(state)@.fields));
            &&& (r == TickReport::NotReady <==> !resolvable(cache@, handle))
            &&& (r == TickReport::NotReady ==> final(ctx)@ == bound && final(state)@ == old(
                state,
            )@)
            &&& (is_runtime_fault(r) ==> final(ctx)@ == bound)
            &&& (is_mismatch(r) ==> !copy_out_ok(props, final(ctx)@, old(state)@.fields))
            &&& (r == TickReport::Completed ==> copy_out_ok(props, final(ctx)@, old(state)@.fields)
                && copied_out(props, final(ctx)@, old(state)@.fields, final(state)@.fields))
        }),
{
    let ghost rv = registry@;
    let ghost t = old(state)@.ty_name;

    // Look the type's binding declaration up.
    let binding = match registry.binding(state.ty_name().as_str()) {
        Some(b) => b,
        None => {
            return TickReport::Faulted(
                ExecutionError::BindingMismatch {
                    message: "native type has no binding declaration".to_owned(),
                },
            );
        },
    };
    let ghost props = binding@.properties;
    proof {
        assert(props_of(rv, t) == props);
        lemma_find_binding_element(rv, t);
        let i = choose|i: int| 0 <= i < rv.len() && rv[i] == find_binding(rv, t)->Some_0;
        assert(distinct_names(props)) by {
            assert(rv[i].properties == props);
        }
    }

    // Bind, first phase: collect every exposed property's current value, so a
    // missing property faults before anything is touched.
    let m = binding.property_count();
    let mut pairs: Vec<(String, ScriptValue)> = Vec::new();
    let mut k: usize = 0;
    while k < m
        invariant
            k <= m,
            m == props.len(),
            props == binding@.properties,
            rv == registry@,
            t == old(state)@.ty_name,
            props == props_of(rv, t),
            distinct_names(props),
            state@ == old(state)@,
            old(state).wf(),
            ctx@ == old(ctx)@,
            ctx.engine_view() == old(ctx).engine_view(),
            old(ctx).wf(),
            pairs_view(pairs@) == exposed_pairs(props, state@.fields).take(k as int),
            forall|j: int| 0 <= j < k ==> lookup(state@.fields, #[trigger] props[j]) is Some,
        decreases m - k,
    {
        let p = binding.property_at(k);
        match state.field(p.as_str()) {
            Some(v) => {
                let ghost pre = pairs_view(pairs@);
                pairs.push((p.clone(), v));
                proof {
                    assert(pairs_view(pairs@) =~= pre.push((props[k as int], v@)));
                    assert(exposed_pairs(props, state@.fields).take(k as int + 1)
                        =~= exposed_pairs(props, state@.fields).take(k as int).push(
                        (props[k as int], found_value(lookup(state@.fields, props[k as int]))),
                    ));
                }
            },
            None => {
                assert(!all_props_present(props, state@.fields));
                return TickReport::Faulted(
                    ExecutionError::BindingMismatch {
                        message: "native value lacks an exposed property".to_owned(),
                    },
                );
            },
        }
        k += 1;
    }
    proof {
        assert(exposed_pairs(props, state@.fields).take(m as int) =~= exposed_pairs(
            props,
            state@.fields,
        ));
        assert(bindable(rv, state@));
    }
    let ghost bound = spec_bind_all(old(ctx)@, exposed_pairs(props, old(state)@.fields));

    // Bind, second phase: copy the collected values into the scope.
    let n = pairs.len();
    let mut k: usize = 0;
    while k < n
        invariant
            k <= n,
            n == pairs.len(),
            ctx.wf(),
            ctx.engine_view() == old(ctx).engine_view(),
            ctx@ == spec_bind_all(old(ctx)@, pairs_view(pairs@).take(k as int)),
        decreases n - k,
    {
        let ghost pre = pairs_view(pairs@).take(k as int);
        ctx.bind(pairs[k].0.as_str(), pairs[k].1.duplicate());
        proof {
            assert(pairs_view(pairs@).take(k as int + 1).drop_last() =~= pre);
        }
        k += 1;
    }
    proof {
        assert(pairs_view(pairs@).take(n as int) =~= pairs_view(pairs@));
        assert(ctx@ == bound);
    }

    // Resolve: no executable means the tick is skipped, not failed.
    let exe = match cache.get(handle) {
        Some(e) => e,
        None => {
            return TickReport::NotReady;
        },
    };

    // Execute against a transient backend scope holding a copy of every scope
    // variable: the script never aliases host memory.
    let mut rs = scope_new();
    proof {
        assert(marshaled(ctx@.take(0)) =~= Seq::<(Seq<char>, Option<ValueView>)>::empty());
    }
    let total = ctx.scope_len();
    let mut k: usize = 0;
    while k < total
        invariant
            k <= total,
            total == ctx@.len(),
            ctx.wf(),
            ctx.engine_view() == old(ctx).engine_view(),
            ctx@ == bound,
            scope_entries(rs) == marshaled(ctx@.take(k as int)),
        decreases total - k,
    {
        let ghost pre = scope_entries(rs);
        let (nm, v) = ctx.entry_at(k);
        match v {
            ScriptValue::Int(x) => scope_push_int(&mut rs, nm.as_str(), *x),
            ScriptValue::Bool(b) => scope_push_bool(&mut rs, nm.as_str(), *b),
            ScriptValue::Str(sv) => scope_push_str(&mut rs, nm.as_str(), sv.as_str()),
            ScriptValue::Unit => scope_push_unit(&mut rs, nm.as_str()),
        }
        proof {
            assert(scope_entries(rs) =~= marshaled(ctx@.take(k as int + 1)));
        }
        k += 1;
    }
    match run_ast_with_scope(ctx.engine(), &exe.ast, &mut rs) {
        Ok(()) => {},
        Err(message) => {
            return TickReport::Faulted(ExecutionError::Runtime { message });
        },
    }

    // Read the scope the script left behind back into the context; it persists
    // into the next tick.
    let out = scope_entries_out(&rs);
    let new_scope = absorb_entries(&out);
    ctx.replace_scope(new_scope);

    // Copy out, first phase: shape-check every exposed property against its
    // pre-tick tag, so a mismatch faults before native state is touched.
    let mut outvals: Vec<(String, ScriptValue)> = Vec::new();
    let mut k: usize = 0;
    while k < m
        invariant
            k <= m,
            m == props.len(),
            props == binding@.properties,
            rv == registry@,
            t == old(state)@.ty_name,
            props == props_of(rv, t),
            distinct_names(props),
            bindable(rv, old(state)@),
            resolvable(cache@, handle),
            state@ == old(state)@,
            old(state).wf(),
            ctx.wf(),
            ctx.engine_view() == old(ctx).engine_view(),
            pairs_view(pairs@) == exposed_pairs(props, state@.fields),
            pairs@.len() == m,
            outvals@.len() == k,
            forall|j: int|
                0 <= j < k ==> (#[trigger] pairs_view(outvals@)[j]).0 == props[j]
                    && lookup(ctx@, props[j]) == Some(pairs_view(outvals@)[j].1)
                    && same_tag_view(pairs_view(outvals@)[j].1, found_value(lookup(state@.fields, props[j]))),
        decreases m - k,
    {
        let p = binding.property_at(k);
        let sv = match ctx.read(p.as_str()) {
            Some(v) => v,
            None => {
                assert(!copy_out_ok(props, ctx@, state@.fields));
                return TickReport::Faulted(
                    ExecutionError::BindingMismatch {
                        message: "script unset an exposed property".to_owned(),
                    },
                );
            },
        };
        if !sv.same_tag(&pairs[k].1) {
            proof {
                assert(pairs_view(pairs@)[k as int] == exposed_pairs(props, state@.fields)[k as int]);
                assert(lookup(state@.fields, props[k as int]) is Some);
                assert(!copy_out_ok(props, ctx@, state@.fields));
            }
            return TickReport::Faulted(
                ExecutionError::BindingMismatch {
                    message: "script changed an exposed property's shape".to_owned(),
                },
            );
        }
        proof {
            assert(pairs_view(pairs@)[k as int] == exposed_pairs(props, state@.fields)[k as int]);
            assert(lookup(state@.fields, props[k as int]) is Some);
        }
        let ghost preov = pairs_view(outvals@);
        let ghost svv = sv@;
        outvals.push((p.clone(), sv));
        proof {
            assert(pairs_view(outvals@) =~= preov.push((props[k as int], svv)));
        }
        k += 1;
    }
    proof {
        assert forall|j: int|
            0 <= j < props.len() implies match (
            lookup(ctx@, #[trigger] props[j]),
            lookup(state@.fields, props[j]),
        ) {
            (Some(a), Some(b)) => same_tag_view(a, b),
            _ => false,
        } by {
            let x = pairs_view(outvals@)[j];
            assert(lookup(ctx@, props[j]) == Some(x.1));
            assert(same_tag_view(x.1, found_value(lookup(state@.fields, props[j]))));
            assert(lookup(state@.fields, props[j]) is Some);
        }
        assert(copy_out_ok(props, ctx@, state@.fields));
    }

    // Copy out, second phase: overwrite the exposed properties.
    let ghost pre_fields = state@.fields;
    let ghost ctx_final = ctx@;
    let mut k: usize = 0;
    while k < m
        invariant
            k <= m,
            m == outvals@.len(),
            m == props.len(),
            distinct_names(props),
            state.wf(),
            state@.ty_name == old(state)@.ty_name,
            pre_fields == old(state)@.fields,
            unique_names(pre_fields),
            forall|j: int|
                0 <= j < m ==> (#[trigger] pairs_view(outvals@)[j]).0 == props[j]
                    && lookup(ctx_final, props[j]) == Some(pairs_view(outvals@)[j].1),
            state@.fields == spec_bind_all(pre_fields, pairs_view(outvals@).take(k as int)),
        decreases m - k,
    {
        let ghost pre = pairs_view(outvals@).take(k as int);
        state.set_field(outvals[k].0.as_str(), outvals[k].1.duplicate());
        proof {
            assert(pairs_view(outvals@).take(k as int + 1).drop_last() =~= pre);
        }
        k += 1;
    }
    proof {
        assert(pairs_view(outvals@).take(m as int) =~= pairs_view(outvals@));
        let ov = pairs_view(outvals@);
        assert(unique_names(ov)) by {
            assert(forall|i: int| 0 <= i < ov.len() ==> (#[trigger] ov[i]).0 == props[i]);
        }
        lemma_spec_bind_all_distinct(pre_fields, ov);
        assert forall|j: int|
            0 <= j < props.len() implies lookup(state@.fields, #[trigger] props[j]) == lookup(
            ctx_final,
            props[j],
        ) by {
            assert(ov[j].0 == props[j]);
            assert(lookup(spec_bind_all(pre_fields, ov), ov[j].0) == Some(ov[j].1));
        }
        assert forall|nm: Seq<char>| !props.contains(nm) implies #[trigger] lookup(
            state@.fields,
            nm,
        ) == lookup(pre_fields, nm) by {
            assert(!has_name(ov, nm)) by {
                assert(forall|j: int| 0 <= j < ov.len() ==> (#[trigger] ov[j]).0 == props[j]);
            }
        }
    }
    TickReport::Completed
}

/// The model of copying verified scope entries into a backend scope: every
/// entry is marshaled.
pub open spec fn marshaled(s: Seq<(Seq<char>, ValueView)>) -> Seq<(Seq<char>, Option<ValueView>)> {
    s.map_values(|p: (Seq<char>, ValueView)| (p.0, Some(p.1)))
}

/// Rebuilds a verified scope from a backend scope's read-back, binding the
/// entries in order and leaving out any value outside the marshaled set.
fn absorb_entries(out: &Vec<(String, Option<ScriptValue>)>) -> (r: StandardScope)
    ensures
        r.wf(),
        r@ == absorb(out_pairs_view(out@)),
{
    let mut r = StandardScope::new();
    proof {
        assert(out_pairs_view(out@).take(0) =~= Seq::<(Seq<char>, Option<ValueView>)>::empty());
    }
    let n = out.len();
    let mut k: usize = 0;
    while k < n
        invariant
            k <= n,
            n == out@.len(),
            r.wf(),
            r@ == absorb(out_pairs_view(out@).take(k as int)),
        decreases n - k,
    {
        let ghost pre = out_pairs_view(out@).take(k as int);
        match &out[k].1 {
            Some(v) => {
                r.bind(out[k].0.as_str(), v.duplicate());
            },
            None => {},
        }
        proof {
            assert(out_pairs_view(out@).take(k as int + 1).drop_last() =~= pre);
        }
        k += 1;
    }
    proof {
        assert(out_pairs_view(out@).take(n as int) =~= out_pairs_view(out@));
    }
    r
}

} // verus!
