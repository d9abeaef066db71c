//! The per-context variable scope: an insertion-ordered mapping from variable
//! names to tagged values.
//!
//! A scope is never reset between ticks, so entries persist until explicitly
//! overwritten — within the marshaled value set: the per-tick read-back keeps
//! only values of marshaled shape, so a script value outside that set does not
//! survive into the next tick. Names are unique; binding an existing name
//! overwrites its value in place, binding a fresh name appends it.

use vstd::prelude::*;

use crate::backend::str_eq;
use crate::value::{ScriptValue, ValueView};

verus! {

/// Looks a name up in a scope model, newest entry first.
pub open spec fn lookup(s: Seq<(Seq<char>, ValueView)>, name: Seq<char>) -> Option<ValueView>
    decreases s.len(),
{
    if s.len() == 0 {
        None
    } else if s.last().0 == name {
        Some(s.last().1)
    } else {
        lookup(s.drop_last(), name)
    }
}

/// The model of binding: overwrite the first entry under `name` in place, or
/// append a fresh entry at the end.
pub open spec fn spec_bind(
    s: Seq<(Seq<char>, ValueView)>,
    name: Seq<char>,
    v: ValueView,
) -> Seq<(Seq<char>, ValueView)>
    decreases s.len(),
{
    if s.len() == 0 {
        seq![(name, v)]
    } else if s.first().0 == name {
        seq![(name, v)] + s.drop_first()
    } else {
        seq![s.first()] + spec_bind(s.drop_first(), name, v)
    }
}

/// Well-formedness of a scope model: every name occurs at most once.
pub open spec fn unique_names(s: Seq<(Seq<char>, ValueView)>) -> bool {
    forall|i: int, j: int| 0 <= i < j < s.len() ==> s[i].0 != s[j].0
}

/// A variable scope owned by one execution context.
#[derive(Debug, Clone)]
pub struct StandardScope {
    entries: Vec<(String, ScriptValue)>,
}

impl View for StandardScope {
    type V = Seq<(Seq<char>, ValueView)>;

    closed spec fn view(&self) -> Seq<(Seq<char>, ValueView)> {
        self.entries@.map_values(|p: (String, ScriptValue)| (p.0@, p.1@))
    }
}

impl StandardScope {
    /// Every name in the scope is unique.
    pub open spec fn wf(&self) -> bool {
        unique_names(self@)
    }

    /// Creates an empty scope.
    pub fn new() -> (r: StandardScope)
        ensures
            r@ == Seq::<(Seq<char>, ValueView)>::empty(),
            r.wf(),
    {
        let r = StandardScope { entries: Vec::new() };
        proof {
            assert(r@ =~= Seq::<(Seq<char>, ValueView)>::empty());
        }
        r
    }

    /// Number of variables currently in the scope.
    pub fn len(&self) -> (r: usize)
        ensures
            r == self@.len(),
    {
        self.entries.len()
    }

    /// Inserts or overwrites the scope entry under `name`.
    pub fn bind(&mut self, name: &str, value: ScriptValue)
        requires
            old(self).wf(),
        ensures
            final(self)@ == spec_bind(old(self)@, name@, value@),
            final(self).wf(),
    {
        let ghost s0 = self@;
        let n = self.entries.len();
        let mut i: usize = 0;
        while i < n
            invariant
                n == self.entries.len(),
                i <= n,
                self@ == s0,
                s0 == old(self)@,
                unique_names(s0),
                forall|k: int| 0 <= k < i ==> s0[k].0 != name@,
            decreases n - i,
        {
            if str_eq(self.entries[i].0.as_str(), name) {
                let nm = self.entries[i].0.clone();
                self.entries.set(i, (nm, value));
                proof {
                    assert(self@ =~= s0.update(i as int, (name@, value@)));
                    lemma_spec_bind_update(s0, name@, value@, i as int);
                    lemma_unique_names_update(s0, name@, value@, i as int);
                }
                return ;
            }
            i += 1;
        }
        self.entries.push((name.to_owned(), value));
        proof {
            assert(self@ =~= s0.push((name@, value@)));
            lemma_spec_bind_push(s0, name@, value@);
            assert(unique_names(self@));
        }
    }

    /// Reads the current value under `name`, or nothing if the name is unset.
    pub fn read(&self, name: &str) -> (r: Option<ScriptValue>)
        ensures
            match r {
                Some(v) => lookup(self@, name@) == Some(v@),
                None => lookup(self@, name@) is None,
            },
    {
        let mut i: usize = self.entries.len();
        proof {
            assert(self@.take(i as int) =~= self@);
        }
        while i > 0
            invariant
                i <= self.entries.len(),
                lookup(self@, name@) == lookup(self@.take(i as int), name@),
            decreases i,
        {
            i -= 1;
            if str_eq(self.entries[i].0.as_str(), name) {
                proof {
                    assert(self@.take(i as int + 1).last() == (self@[i as int].0, self@[i as int].1));
                }
                return Some(self.entries[i].1.duplicate());
            }
            proof {
                assert(self@.take(i as int + 1).drop_last() =~= self@.take(i as int));
            }
        }
        proof {
            assert(self@.take(0) =~= Seq::<(Seq<char>, ValueView)>::empty());
        }
        None
    }

    /// Reads the value under `name` as an integer: nothing if the name is
    /// unset or its value carries another tag.
    pub fn read_int(&self, name: &str) -> (r: Option<i64>)
        ensures
            match r {
                Some(v) => lookup(self@, name@) == Some(ValueView::Int(v as int)),
                None => !(lookup(self@, name@) matches Some(ValueView::Int(_))),
            },
    {
        match self.read(name) {
            Some(ScriptValue::Int(v)) => Some(v),
            _ => None,
        }
    }

    /// Reads the value under `name` as a boolean: nothing if the name is
    /// unset or its value carries another tag.
    pub fn read_bool(&self, name: &str) -> (r: Option<bool>)
        ensures
            match r {
                Some(v) => lookup(self@, name@) == Some(ValueView::Bool(v)),
                None => !(lookup(self@, name@) matches Some(ValueView::Bool(_))),
            },
    {
        match self.read(name) {
            Some(ScriptValue::Bool(v)) => Some(v),
            _ => None,
        }
    }

    /// Reads the value under `name` as a string: nothing if the name is unset
    /// or its value carries another tag.
    pub fn read_str(&self, name: &str) -> (r: Option<String>)
        ensures
            match r {
                Some(v) => lookup(self@, name@) == Some(ValueView::Str(v@)),
                None => !(lookup(self@, name@) matches Some(ValueView::Str(_))),
            },
    {
        match self.read(name) {
            Some(ScriptValue::Str(v)) => Some(v),
            _ => None,
        }
    }

    /// The name and value of the entry at position `i`.
    pub fn entry_at(&self, i: usize) -> (r: (&String, &ScriptValue))
        requires
            i < self@.len(),
        ensures
            (r.0@, r.1@) == self@[i as int],
    {
        (&self.entries[i].0, &self.entries[i].1)
    }

    /// Creates a scope holding the given entries, bound in order.
    pub fn with_scope(entries: Vec<(String, ScriptValue)>) -> (r: StandardScope)
        ensures
            r.wf(),
            r@ == spec_bind_all(Seq::<(Seq<char>, ValueView)>::empty(), pairs_view(entries@)),
    {
        let mut r = StandardScope::new();
        let n = entries.len();
        let mut i: usize = 0;
        while i < n
            invariant
                n == entries.len(),
                i <= n,
                r.wf(),
                r@ == spec_bind_all(
                    Seq::<(Seq<char>, ValueView)>::empty(),
                    pairs_view(entries@).take(i as int),
                ),
            decreases n - i,
        {
            let ghost pre = pairs_view(entries@).take(i as int);
            r.bind(entries[i].0.as_str(), entries[i].1.duplicate());
            proof {
                assert(pairs_view(entries@).take(i as int + 1).drop_last() =~= pre);
            }
            i += 1;
        }
        proof {
            assert(pairs_view(entries@).take(n as int) =~= pairs_view(entries@));
        }
        r
    }
}

/// The model of a list of name/value pairs.
pub open spec fn pairs_view(v: Seq<(String, ScriptValue)>) -> Seq<(Seq<char>, ValueView)> {
    v.map_values(|p: (String, ScriptValue)| (p.0@, p.1@))
}

/// Binding a list of entries into a scope model, first to last.
pub open spec fn spec_bind_all(
    s: Seq<(Seq<char>, ValueView)>,
    entries: Seq<(Seq<char>, ValueView)>,
) -> Seq<(Seq<char>, ValueView)>
    decreases entries.len(),
{
    if entries.len() == 0 {
        s
    } else {
        spec_bind(spec_bind_all(s, entries.drop_last()), entries.last().0, entries.last().1)
    }
}

/// When `name` stands at position `i` of a well-formed scope, binding it
/// overwrites exactly that position.
pub proof fn lemma_spec_bind_update(
    s: Seq<(Seq<char>, ValueView)>,
    name: Seq<char>,
    v: ValueView,
    i: int,
)
    requires
        unique_names(s),
        0 <= i < s.len(),
        s[i].0 == name,
    ensures
        spec_bind(s, name, v) == s.update(i, (name, v)),
    decreases s.len(),
{
    if i == 0 {
        assert(spec_bind(s, name, v) =~= s.update(0, (name, v)));
    } else {
        assert(s.first().0 != name);
        assert(unique_names(s.drop_first()));
        assert(s.drop_first()[i - 1].0 == name);
        lemma_spec_bind_update(s.drop_first(), name, v, i - 1);
        assert(spec_bind(s, name, v) =~= s.update(i, (name, v)));
    }
}

/// When `name` is absent from a scope, binding it appends a fresh entry.
pub proof fn lemma_spec_bind_push(s: Seq<(Seq<char>, ValueView)>, name: Seq<char>, v: ValueView)
    requires
        forall|k: int| 0 <= k < s.len() ==> s[k].0 != name,
    ensures
        spec_bind(s, name, v) == s.push((name, v)),
    decreases s.len(),
{
    if s.len() == 0 {
        assert(spec_bind(s, name, v) =~= s.push((name, v)));
    } else {
        lemma_spec_bind_push(s.drop_first(), name, v);
        assert(spec_bind(s, name, v) =~= s.push((name, v)));
    }
}

/// Looking a name up after an in-place update at that name finds the new value.
proof fn lemma_lookup_update(
    s: Seq<(Seq<char>, ValueView)>,
    name: Seq<char>,
    v: ValueView,
    i: int,
)
    requires
        unique_names(s),
        0 <= i < s.len(),
        s[i].0 == name,
    ensures
        lookup(s.update(i, (name, v)), name) == Some(v),
    decreases s.len(),
{
    let t = s.update(i, (name, v));
    if i == s.len() - 1 {
        assert(t.last() == (name, v));
    } else {
        assert(t.last() == s.last());
        assert(s.last().0 != name);
        assert(t.drop_last() =~= s.drop_last().update(i, (name, v)));
        assert(unique_names(s.drop_last()));
        lemma_lookup_update(s.drop_last(), name, v, i);
    }
}

/// An update whose position and new entry both carry another name leaves a
/// lookup unchanged.
proof fn lemma_lookup_update_other(
    s: Seq<(Seq<char>, ValueView)>,
    pair: (Seq<char>, ValueView),
    i: int,
    other: Seq<char>,
)
    requires
        0 <= i < s.len(),
        s[i].0 != other,
        pair.0 != other,
    ensures
        lookup(s.update(i, pair), other) == lookup(s, other),
    decreases s.len(),
{
    let t = s.update(i, pair);
    if i == s.len() - 1 {
        assert(t.drop_last() =~= s.drop_last());
    } else {
        assert(t.last() == s.last());
        assert(t.drop_last() =~= s.drop_last().update(i, pair));
        lemma_lookup_update_other(s.drop_last(), pair, i, other);
    }
}

/// Binding keeps a well-formed scope well formed.
pub proof fn lemma_spec_bind_wf(s: Seq<(Seq<char>, ValueView)>, name: Seq<char>, v: ValueView)
    requires
        unique_names(s),
    ensures
        unique_names(spec_bind(s, name, v)),
{
    if exists|i: int| 0 <= i < s.len() && s[i].0 == name {
        let i = choose|i: int| 0 <= i < s.len() && s[i].0 == name;
        lemma_spec_bind_update(s, name, v, i);
        lemma_unique_names_update(s, name, v, i);
    } else {
        assert(forall|k: int| 0 <= k < s.len() ==> s[k].0 != name);
        lemma_spec_bind_push(s, name, v);
        assert(unique_names(s.push((name, v))));
    }
}

/// Law: in a well-formed scope, binding a name and reading that name back
/// yields exactly the value that was bound.
pub proof fn lemma_bind_round_trip(s: Seq<(Seq<char>, ValueView)>, name: Seq<char>, v: ValueView)
    requires
        unique_names(s),
    ensures
        lookup(spec_bind(s, name, v), name) == Some(v),
{
    if exists|i: int| 0 <= i < s.len() && s[i].0 == name {
        let i = choose|i: int| 0 <= i < s.len() && s[i].0 == name;
        lemma_spec_bind_update(s, name, v, i);
        lemma_lookup_update(s, name, v, i);
    } else {
        assert(forall|k: int| 0 <= k < s.len() ==> s[k].0 != name);
        lemma_spec_bind_push(s, name, v);
        let t = s.push((name, v));
        assert(t.last() == (name, v));
    }
}

/// Law: binding one name leaves every other name's lookup untouched.
pub proof fn lemma_bind_preserves_others(
    s: Seq<(Seq<char>, ValueView)>,
    name: Seq<char>,
    v: ValueView,
    other: Seq<char>,
)
    requires
        unique_names(s),
        other != name,
    ensures
        lookup(spec_bind(s, name, v), other) == lookup(s, other),
{
    if exists|i: int| 0 <= i < s.len() && s[i].0 == name {
        let i = choose|i: int| 0 <= i < s.len() && s[i].0 == name;
        lemma_spec_bind_update(s, name, v, i);
        lemma_lookup_update_other(s, (name, v), i, other);
    } else {
        assert(forall|k: int| 0 <= k < s.len() ==> s[k].0 != name);
        lemma_spec_bind_push(s, name, v);
        let t = s.push((name, v));
        assert(t.last().0 != other);
        assert(t.drop_last() =~= s);
    }
}

/// True when some pair carries this name.
pub open spec fn has_name(pairs: Seq<(Seq<char>, ValueView)>, n: Seq<char>) -> bool {
    exists|j: int| 0 <= j < pairs.len() && pairs[j].0 == n
}

/// Law: binding a list of entries with pairwise distinct names makes each of
/// those names read back as its bound value, leaves every other name's lookup
/// untouched, and keeps the scope well formed.
pub proof fn lemma_spec_bind_all_distinct(
    s: Seq<(Seq<char>, ValueView)>,
    pairs: Seq<(Seq<char>, ValueView)>,
)
    requires
        unique_names(s),
        unique_names(pairs),
    ensures
        unique_names(spec_bind_all(s, pairs)),
        forall|j: int|
            0 <= j < pairs.len() ==> #[trigger] lookup(spec_bind_all(s, pairs), pairs[j].0)
                == Some(pairs[j].1),
        forall|n: Seq<char>|
            !has_name(pairs, n) ==> #[trigger] lookup(spec_bind_all(s, pairs), n) == lookup(s, n),
    decreases pairs.len(),
{
    if pairs.len() > 0 {
        let pre = pairs.drop_last();
        let nm = pairs.last().0;
        let v = pairs.last().1;
        assert(unique_names(pre));
        lemma_spec_bind_all_distinct(s, pre);
        let mid = spec_bind_all(s, pre);
        let fin = spec_bind_all(s, pairs);
        assert(fin == spec_bind(mid, nm, v));
        lemma_spec_bind_wf(mid, nm, v);
        lemma_bind_round_trip(mid, nm, v);
        assert forall|j: int| 0 <= j < pairs.len() implies #[trigger] lookup(fin, pairs[j].0)
            == Some(pairs[j].1) by {
            if j < pairs.len() - 1 {
                assert(pairs[j].0 != nm);
                lemma_bind_preserves_others(mid, nm, v, pairs[j].0);
                assert(pre[j] == pairs[j]);
                assert(lookup(mid, pre[j].0) == Some(pre[j].1));
            }
        }
        assert forall|n: Seq<char>| !has_name(pairs, n) implies #[trigger] lookup(fin, n)
            == lookup(s, n) by {
            assert(forall|k: int| 0 <= k < pre.len() ==> pre[k] == pairs[k]);
            assert(!has_name(pre, n));
            assert(n != nm);
            lemma_bind_preserves_others(mid, nm, v, n);
        }
    }
}

/// The integer a lookup carries, where it carries one.
pub open spec fn int_of(o: Option<ValueView>) -> int {
    match o {
        Some(ValueView::Int(i)) => i,
        _ => 0,
    }
}

/// One tick of a counter script: the variable `name` is rebound to its
/// current integer value plus one.
pub open spec fn incremented(s: Seq<(Seq<char>, ValueView)>, name: Seq<char>) -> Seq<
    (Seq<char>, ValueView),
> {
    spec_bind(s, name, ValueView::Int(int_of(lookup(s, name)) + 1))
}

/// `n` ticks of a counter script, with no other mutation in between.
pub open spec fn iterate_increments(
    s: Seq<(Seq<char>, ValueView)>,
    name: Seq<char>,
    n: nat,
) -> Seq<(Seq<char>, ValueView)>
    decreases n,
{
    if n == 0 {
        s
    } else {
        incremented(iterate_increments(s, name, (n - 1) as nat), name)
    }
}

/// Law: a script that increments the bound variable by one each tick, run `n`
/// ticks with no other mutation, yields the original value plus `n`.
pub proof fn lemma_increments_accumulate(
    s: Seq<(Seq<char>, ValueView)>,
    name: Seq<char>,
    i0: int,
    n: nat,
)
    requires
        unique_names(s),
        lookup(s, name) == Some(ValueView::Int(i0)),
    ensures
        unique_names(iterate_increments(s, name, n)),
        lookup(iterate_increments(s, name, n), name) == Some(ValueView::Int(i0 + n)),
    decreases n,
{
    if n > 0 {
        lemma_increments_accumulate(s, name, i0, (n - 1) as nat);
        let prev = iterate_increments(s, name, (n - 1) as nat);
        lemma_spec_bind_wf(prev, name, ValueView::Int(int_of(lookup(prev, name)) + 1));
        lemma_bind_round_trip(prev, name, ValueView::Int(int_of(lookup(prev, name)) + 1));
    }
}

/// Absorbing a run's scope read-back: entries are bound in order; an entry
/// whose value lies outside the marshaled set is left out.
pub open spec fn absorb(entries: Seq<(Seq<char>, Option<ValueView>)>) -> Seq<
    (Seq<char>, ValueView),
>
    decreases entries.len(),
{
    if entries.len() == 0 {
        Seq::empty()
    } else {
        let prev = absorb(entries.drop_last());
        match entries.last().1 {
            Some(v) => spec_bind(prev, entries.last().0, v),
            None => prev,
        }
    }
}

/// Updating a well-formed scope in place keeps its names unique.
pub proof fn lemma_unique_names_update(
    s: Seq<(Seq<char>, ValueView)>,
    name: Seq<char>,
    v: ValueView,
    i: int,
)
    requires
        unique_names(s),
        0 <= i < s.len(),
        s[i].0 == name,
    ensures
        unique_names(s.update(i, (name, v))),
{
}

} // verus!
