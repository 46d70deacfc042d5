//! A structured (object / array / scalar) tree of plain values, the library's
//! representation of a rendered cluster object, together with its mathematical
//! model.

use vstd::prelude::*;

verus! {

/// The mathematical model of a [`Value`]: the same tree over `Seq`, `int` and
/// `Seq<char>`.  Contracts and lemmas speak of this type.
#[verifier::ext_equal]
pub enum ValueModel {
    Null,
    Bool(bool),
    Int(int),
    Str(Seq<char>),
    Arr(Seq<ValueModel>),
    Obj(Seq<(Seq<char>, ValueModel)>),
}

/// A structured tree of plain values.  Objects keep their entries in insertion
/// order; a well-formed object (see [`model_wf`]) has no repeated key.
#[derive(Debug, PartialEq, Eq)]
pub enum Value {
    Null,
    Bool(bool),
    Int(i64),
    Str(String),
    Array(Vec<Value>),
    Object(Vec<(String, Value)>),
}

/// The models of the elements of an array.
pub open spec fn seq_model(items: Seq<Value>) -> Seq<ValueModel>
    decreases items,
{
    Seq::new(
        items.len(),
        |i: int|
            if 0 <= i < items.len() {
                items[i]@
            } else {
                ValueModel::Null
            },
    )
}

/// The models of the entries of an object.
pub open spec fn entries_model(entries: Seq<(String, Value)>) -> Seq<(Seq<char>, ValueModel)>
    decreases entries,
{
    Seq::new(
        entries.len(),
        |i: int|
            if 0 <= i < entries.len() {
                (entries[i].0@, entries[i].1@)
            } else {
                (Seq::<char>::empty(), ValueModel::Null)
            },
    )
}

impl View for Value {
    type V = ValueModel;

    open spec fn view(&self) -> ValueModel
        decreases self,
    {
        match self {
            Value::Null => ValueModel::Null,
            Value::Bool(b) => ValueModel::Bool(*b),
            Value::Int(i) => ValueModel::Int(*i as int),
            Value::Str(s) => ValueModel::Str(s@),
            Value::Array(items) => ValueModel::Arr(seq_model(items@)),
            Value::Object(entries) => ValueModel::Obj(entries_model(entries@)),
        }
    }
}

/// A value and its model are always of the same kind.
pub proof fn lemma_view_kind(v: &Value)
    ensures
        (v is Null <==> v@ is Null),
        (v is Bool <==> v@ is Bool),
        (v is Int <==> v@ is Int),
        (v is Str <==> v@ is Str),
        (v is Array <==> v@ is Arr),
        (v is Object <==> v@ is Obj),
{
}

/// The view of an array value is the array of the element views.
pub proof fn lemma_view_array(v: &Value)
    requires
        v is Array,
    ensures
        v@ == ValueModel::Arr(seq_model(v->Array_0@)),
{
}

/// The view of an object value is the list of the entry views.
pub proof fn lemma_view_object(v: &Value)
    requires
        v is Object,
    ensures
        v@ == ValueModel::Obj(entries_model(v->Object_0@)),
{
}

/// A model is well formed when no object in it repeats a key.
pub open spec fn model_wf(m: ValueModel) -> bool
    decreases m,
{
    match m {
        ValueModel::Null => true,
        ValueModel::Bool(_) => true,
        ValueModel::Int(_) => true,
        ValueModel::Str(_) => true,
        ValueModel::Arr(items) => forall|i: int|
            0 <= i < items.len() ==> model_wf(#[trigger] items[i]),
        ValueModel::Obj(entries) => {
            &&& forall|i: int|
                0 <= i < entries.len() ==> model_wf((#[trigger] entries[i]).1)
            &&& forall|i: int, j: int|
                0 <= i < j < entries.len() ==> (#[trigger] entries[i].0) != (#[trigger] entries[j].0)
        },
    }
}

} // verus!
