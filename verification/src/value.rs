//! Tagged dynamic values marshaled between native state and a script scope.
//!
//! A scope holds values of a small closed set of shapes: integers, booleans,
//! strings and the unit value. Anything a script produces outside this set is
//! rejected at the marshaling boundary rather than coerced.

use vstd::prelude::*;

verus! {

/// Mathematical model of a marshaled value.
pub enum ValueView {
    Int(int),
    Bool(bool),
    Str(Seq<char>),
    Unit,
}

/// A value that can cross the boundary between native state and a script scope.
#[derive(Debug, Clone, PartialEq)]
pub enum ScriptValue {
    Int(i64),
    Bool(bool),
    Str(String),
    Unit,
}

impl View for ScriptValue {
    type V = ValueView;

    open spec fn view(&self) -> ValueView {
        match self {
            ScriptValue::Int(i) => ValueView::Int(*i as int),
            ScriptValue::Bool(b) => ValueView::Bool(*b),
            ScriptValue::Str(s) => ValueView::Str(s@),
            ScriptValue::Unit => ValueView::Unit,
        }
    }
}

/// True when two value models carry the same tag, whatever they hold.
pub open spec fn same_tag_view(a: ValueView, b: ValueView) -> bool {
    match (a, b) {
        (ValueView::Int(_), ValueView::Int(_)) => true,
        (ValueView::Bool(_), ValueView::Bool(_)) => true,
        (ValueView::Str(_), ValueView::Str(_)) => true,
        (ValueView::Unit, ValueView::Unit) => true,
        _ => false,
    }
}

impl ScriptValue {
    /// Produces a value equal to this one, leaving the original in place.
    pub fn duplicate(&self) -> (r: ScriptValue)
        ensures
            r@ == self@,
    {
        match self {
            ScriptValue::Int(i) => ScriptValue::Int(*i),
            ScriptValue::Bool(b) => ScriptValue::Bool(*b),
            ScriptValue::Str(s) => ScriptValue::Str(s.clone()),
            ScriptValue::Unit => ScriptValue::Unit,
        }
    }

    /// Reports whether this value and `other` carry the same tag.
    pub fn same_tag(&self, other: &ScriptValue) -> (r: bool)
        ensures
            r == same_tag_view(self@, other@),
    {
        match (self, other) {
            (ScriptValue::Int(_), ScriptValue::Int(_)) => true,
            (ScriptValue::Bool(_), ScriptValue::Bool(_)) => true,
            (ScriptValue::Str(_), ScriptValue::Str(_)) => true,
            (ScriptValue::Unit, ScriptValue::Unit) => true,
            _ => false,
        }
    }
}

} // verus!
