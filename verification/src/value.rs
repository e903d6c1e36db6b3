//! The value model of the machine: a tagged union of null, booleans, numbers,
//! strings, ordered arrays and ordered objects, with structural equality at
//! the specification level through the deep view [`Val`].
//!
//! The machine itself never computes with values beyond cloning them, testing
//! them for truthiness and appending to arrays held in scope slots; intrinsic
//! functions do the rest.

use vstd::prelude::*;

verus! {

/// One field of an object value: a key and the value bound to it. Objects
/// keep their fields in insertion order.
#[derive(Debug, PartialEq, Eq)]
pub struct ObjectField {
    pub key: String,
    pub value: Value,
}

/// A runtime value.
#[derive(Debug, PartialEq, Eq)]
pub enum Value {
    Null,
    Bool(bool),
    Number(i64),
    Str(String),
    Array(Vec<Value>),
    Object(Vec<ObjectField>),
}

/// The mathematical model of a [`Value`]: the same tree with every container
/// replaced by a `Seq` and every machine integer widened to `int`.
#[verifier::ext_equal]
pub enum Val {
    Null,
    Bool(bool),
    Int(int),
    Str(Seq<char>),
    Arr(Seq<Val>),
    Obj(Seq<(Seq<char>, Val)>),
}

/// The deep view of a value.
pub open spec fn val_of(v: Value) -> Val
    decreases v,
{
    match v {
        Value::Null => Val::Null,
        Value::Bool(b) => Val::Bool(b),
        Value::Number(n) => Val::Int(n as int),
        Value::Str(s) => Val::Str(s@),
        Value::Array(items) => Val::Arr(vals_of(items@)),
        Value::Object(fields) => Val::Obj(fields_of(fields@)),
    }
}

/// The deep views of a sequence of values, elementwise.
pub open spec fn vals_of(s: Seq<Value>) -> Seq<Val>
    decreases s,
{
    if s.len() == 0 {
        Seq::empty()
    } else {
        vals_of(s.drop_last()).push(val_of(s.last()))
    }
}

/// The deep views of a sequence of object fields, elementwise.
pub open spec fn fields_of(s: Seq<ObjectField>) -> Seq<(Seq<char>, Val)>
    decreases s,
{
    if s.len() == 0 {
        Seq::empty()
    } else {
        fields_of(s.drop_last()).push((s.last().key@, val_of(s.last().value)))
    }
}

/// `vals_of` maps each element to its view.
pub proof fn lemma_vals_of(s: Seq<Value>)
    ensures
        vals_of(s).len() == s.len(),
        forall|i: int| 0 <= i < s.len() ==> vals_of(s)[i] == val_of(s[i]),
    decreases s.len(),
{
    if s.len() > 0 {
        lemma_vals_of(s.drop_last());
    }
}

/// `fields_of` maps each field to its key view and value view.
pub proof fn lemma_fields_of(s: Seq<ObjectField>)
    ensures
        fields_of(s).len() == s.len(),
        forall|i: int| 0 <= i < s.len() ==> fields_of(s)[i] == (s[i].key@, val_of(s[i].value)),
    decreases s.len(),
{
    if s.len() > 0 {
        lemma_fields_of(s.drop_last());
    }
}

impl View for Value {
    type V = Val;

    open spec fn view(&self) -> Val {
        val_of(*self)
    }
}

impl View for ObjectField {
    type V = (Seq<char>, Val);

    open spec fn view(&self) -> (Seq<char>, Val) {
        (self.key@, val_of(self.value))
    }
}

/// A structural copy of a value, preserving its model.
pub fn clone_value(v: &Value) -> (res: Value)
    ensures
        res@ == v@,
    decreases *v,
{
    match v {
        Value::Null => Value::Null,
        Value::Bool(b) => Value::Bool(*b),
        Value::Number(n) => Value::Number(*n),
        Value::Str(s) => Value::Str(s.clone()),
        Value::Array(items) => {
            let mut out: Vec<Value> = Vec::new();
            let mut i: usize = 0;
            while i < items.len()
                invariant
                    *v == Value::Array(*items),
                    i <= items.len(),
                    out@.len() == i,
                    forall|j: int| 0 <= j < i ==> val_of(out@[j]) == val_of(items@[j]),
                decreases items.len() - i,
            {
                proof {
                    assert(decreases_to!(*v => v->Array_0));
                    assert(decreases_to!(*items => items@));
                    assert(decreases_to!(items@ => items@[i as int]));
                }
                out.push(clone_value(&items[i]));
                i = i + 1;
            }
            proof {
                lemma_vals_of(out@);
                lemma_vals_of(items@);
                assert(vals_of(out@) =~= vals_of(items@));
            }
            Value::Array(out)
        }
        Value::Object(fields) => {
            let mut out: Vec<ObjectField> = Vec::new();
            let mut i: usize = 0;
            while i < fields.len()
                invariant
                    *v == Value::Object(*fields),
                    i <= fields.len(),
                    out@.len() == i,
                    forall|j: int| 0 <= j < i ==> out@[j]@ == fields@[j]@,
                decreases fields.len() - i,
            {
                let field = &fields[i];
                proof {
                    assert(decreases_to!(*v => v->Object_0));
                    assert(decreases_to!(*fields => fields@));
                    assert(decreases_to!(fields@ => fields@[i as int]));
                }
                out.push(ObjectField { key: field.key.clone(), value: clone_value(&field.value) });
                i = i + 1;
            }
            proof {
                lemma_fields_of(out@);
                lemma_fields_of(fields@);
                assert(fields_of(out@) =~= fields_of(fields@));
            }
            Value::Object(out)
        }
    }
}

impl Clone for ObjectField {
    /// Cloning a field preserves its model.
    fn clone(&self) -> (res: Self)
        ensures
            res@ == self@,
    {
        ObjectField { key: self.key.clone(), value: clone_value(&self.value) }
    }
}

impl Clone for Value {
    /// Cloning a value preserves its model.
    fn clone(&self) -> (res: Self)
        ensures
            res@ == self@,
    {
        clone_value(self)
    }
}

/// Truthiness at the model level: everything is truthy except `Null` and
/// `Bool(false)`.
pub open spec fn spec_truthy(v: Val) -> bool {
    match v {
        Val::Null => false,
        Val::Bool(b) => b,
        _ => true,
    }
}

/// The truthiness predicate consumed by conditional jumps.
pub fn truthy(v: Value) -> (r: bool)
    ensures
        r == spec_truthy(v@),
{
    match v {
        Value::Null => false,
        Value::Bool(b) => b,
        _ => true,
    }
}

} // verus!
