use vstd::prelude::*;

use crate::text::{bool_of, int_of, parse_bool, parse_int};

verus! {

/// The type of one positional command parameter. A user or channel is given
/// by its id.
#[derive(Debug, Clone, Copy, PartialEq, Eq, Structural)]
pub enum ParamType {
    String,
    Int,
    Bool,
    User,
    Channel,
}

/// A coerced command argument.
#[derive(Debug, Clone, PartialEq, Eq)]
pub enum Value {
    String(String),
    Int(i64),
    Bool(bool),
}

pub enum ValueView {
    String(Seq<char>),
    Int(i64),
    Bool(bool),
}

impl View for Value {
    type V = ValueView;

    open spec fn view(&self) -> ValueView {
        match self {
            Value::String(s) => ValueView::String(s@),
            Value::Int(i) => ValueView::Int(*i),
            Value::Bool(b) => ValueView::Bool(*b),
        }
    }
}

pub open spec fn values_view(v: Seq<Value>) -> Seq<ValueView> {
    v.map_values(|x: Value| x@)
}

/// The argument that word `w` gives for a parameter of type `t`: strings and
/// user or channel ids are taken verbatim, integers in base 10, booleans as `true` or `false` in any
/// case.
pub open spec fn coerce_one(t: ParamType, w: Seq<char>) -> Option<ValueView> {
    match t {
        ParamType::String | ParamType::User | ParamType::Channel => Some(ValueView::String(w)),
        ParamType::Int => match int_of(w) {
            Some(i) => Some(ValueView::Int(i)),
            None => None,
        },
        ParamType::Bool => match bool_of(w) {
            Some(b) => Some(ValueView::Bool(b)),
            None => None,
        },
    }
}

/// There is one word per parameter and each one coerces.
pub open spec fn coerce_ok(types: Seq<ParamType>, ws: Seq<Seq<char>>) -> bool {
    &&& types.len() == ws.len()
    &&& forall|i: int| 0 <= i < types.len() ==> (#[trigger] coerce_one(types[i], ws[i])) is Some
}

/// The arguments that words `ws` give for the parameter schema `types`, if
/// the arity matches and every word coerces.
pub open spec fn coerce_all(types: Seq<ParamType>, ws: Seq<Seq<char>>) -> Option<Seq<ValueView>> {
    if coerce_ok(types, ws) {
        Some(Seq::new(types.len(), |i: int| coerce_one(types[i], ws[i])->0))
    } else {
        None
    }
}

/// Coerces one word to a parameter type.
pub fn coerce(t: ParamType, w: &str) -> (r: Option<Value>)
    ensures
        match r {
            Some(v) => coerce_one(t, w@) == Some(v@),
            None => coerce_one(t, w@) is None,
        },
{
    match t {
        ParamType::String | ParamType::User | ParamType::Channel => Some(
            Value::String(String::from_str(w)),
        ),
        ParamType::Int => match parse_int(w) {
            Some(i) => Some(Value::Int(i)),
            None => None,
        },
        ParamType::Bool => match parse_bool(w) {
            Some(b) => Some(Value::Bool(b)),
            None => None,
        },
    }
}

/// Coerces the words `ws` against the parameter schema `types`, position by
/// position; nothing comes back if the counts differ or a word does not
/// coerce.
pub fn coerce_args(types: &Vec<ParamType>, ws: &Vec<String>) -> (r: Option<Vec<Value>>)
    ensures
        match r {
            Some(v) => coerce_all(types@, ws@.map_values(|w: String| w@)) == Some(values_view(v@)),
            None => coerce_all(types@, ws@.map_values(|w: String| w@)) is None,
        },
{
    let ghost wv = ws@.map_values(|w: String| w@);
    if types.len() != ws.len() {
        return None;
    }
    let mut out: Vec<Value> = Vec::new();
    let mut i: usize = 0;
    while i < types.len()
        invariant
            types@.len() == wv.len(),
            wv == ws@.map_values(|w: String| w@),
            i <= types@.len(),
            out@.len() == i,
            forall|j: int| 0 <= j < i ==> (#[trigger] coerce_one(types@[j], wv[j])) is Some,
            forall|j: int|
                0 <= j < i ==> coerce_one(types@[j], wv[j]) == Some(#[trigger] out@[j]@),
        decreases types@.len() - i,
    {
        assert(wv[i as int] == ws@[i as int]@);
        match coerce(types[i], ws[i].as_str()) {
            Some(v) => {
                out.push(v);
            },
            None => {
                assert(coerce_one(types@[i as int], wv[i as int]) is None);
                assert(!coerce_ok(types@, wv));
                return None;
            },
        }
        i = i + 1;
    }
    assert(coerce_ok(types@, wv));
    assert(values_view(out@) =~= Seq::new(types@.len() as nat, |j: int| coerce_one(types@[j], wv[j])->0));
    Some(out)
}

} // verus!
