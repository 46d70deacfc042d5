//! Structural drift detector: a generic comparison of two structured value
//! trees that represent the same child object kind.
//!
//! Objects are compared over the union of their keys (a key present in exactly
//! one side is a difference, shared keys are compared recursively), arrays are
//! compared element-wise by index (unequal lengths are a difference), scalars
//! by direct inequality, and values of different kinds always differ.

use vstd::prelude::*;

use crate::value::{
    entries_model, lemma_view_array, lemma_view_kind, lemma_view_object, model_wf, seq_model,
    Value, ValueModel,
};

verus! {

broadcast use vstd::std_specs::vec::group_vec_axioms;

/// Whether some entry of an object carries `key`.
pub open spec fn m_has_key(entries: Seq<(Seq<char>, ValueModel)>, key: Seq<char>) -> bool {
    exists|i: int| 0 <= i < entries.len() && (#[trigger] entries[i]).0 == key
}

/// The value at the first occurrence of `key` (`Null` when the key is absent).
pub open spec fn m_lookup(entries: Seq<(Seq<char>, ValueModel)>, key: Seq<char>) -> ValueModel
    decreases entries.len(),
{
    if entries.len() == 0 {
        ValueModel::Null
    } else if entries[0].0 == key {
        entries[0].1
    } else {
        m_lookup(entries.drop_first(), key)
    }
}

/// Whether entry `i` is the first occurrence of its key.
pub open spec fn m_first_occurrence(entries: Seq<(Seq<char>, ValueModel)>, i: int) -> bool {
    forall|j: int| 0 <= j < i ==> (#[trigger] entries[j]).0 != entries[i].0
}

/// Structural difference of two object entry lists: a key present on exactly
/// one side, or a shared key (compared at its first occurrence on each side)
/// whose values differ.
pub open spec fn obj_diff(
    x: Seq<(Seq<char>, ValueModel)>,
    y: Seq<(Seq<char>, ValueModel)>,
) -> bool
    decreases x,
{
    ||| exists|i: int| 0 <= i < x.len() && !m_has_key(y, (#[trigger] x[i]).0)
    ||| exists|i: int| 0 <= i < y.len() && !m_has_key(x, (#[trigger] y[i]).0)
    ||| exists|i: int|
        0 <= i < x.len() && m_first_occurrence(x, i) && m_has_key(y, (#[trigger] x[i]).0)
            && model_diff(x[i].1, m_lookup(y, x[i].0))
}

/// Structural difference of two value trees, exactly as the drift detector
/// sees it.
pub open spec fn model_diff(a: ValueModel, b: ValueModel) -> bool
    decreases a,
{
    match (a, b) {
        (ValueModel::Null, ValueModel::Null) => false,
        (ValueModel::Bool(x), ValueModel::Bool(y)) => x != y,
        (ValueModel::Int(x), ValueModel::Int(y)) => x != y,
        (ValueModel::Str(x), ValueModel::Str(y)) => x != y,
        (ValueModel::Arr(x), ValueModel::Arr(y)) => x.len() != y.len() || exists|i: int|
            0 <= i < x.len() && i < y.len() && model_diff(#[trigger] x[i], y[i]),
        (ValueModel::Obj(x), ValueModel::Obj(y)) => obj_diff(x, y),
        _ => true,
    }
}

/// A first-occurrence entry of `x` that shows a difference against `y`: its
/// key is absent from `y`, or the values at the shared key differ.
pub open spec fn pass1_bad(
    x: Seq<(Seq<char>, ValueModel)>,
    y: Seq<(Seq<char>, ValueModel)>,
    t: int,
) -> bool {
    m_first_occurrence(x, t) && (!m_has_key(y, x[t].0) || model_diff(x[t].1, m_lookup(y, x[t].0)))
}

/// A first-occurrence entry of `y` whose key is absent from `x`.
pub open spec fn pass2_bad(
    x: Seq<(Seq<char>, ValueModel)>,
    y: Seq<(Seq<char>, ValueModel)>,
    t: int,
) -> bool {
    m_first_occurrence(y, t) && !m_has_key(x, y[t].0)
}

/// Object difference restated over first occurrences only, the shape the
/// comparator's loops establish.
pub proof fn lemma_obj_diff_cases(x: Seq<(Seq<char>, ValueModel)>, y: Seq<(Seq<char>, ValueModel)>)
    ensures
        obj_diff(x, y) <==> ((exists|t: int| 0 <= t < x.len() && #[trigger] pass1_bad(x, y, t))
            || (exists|t: int| 0 <= t < y.len() && #[trigger] pass2_bad(x, y, t))),
{
    if obj_diff(x, y) {
        if exists|i: int| 0 <= i < x.len() && !m_has_key(y, (#[trigger] x[i]).0) {
            let i = choose|i: int| 0 <= i < x.len() && !m_has_key(y, (#[trigger] x[i]).0);
            lemma_first_exists(x, i);
            let k = choose|k: int|
                0 <= k <= i && (#[trigger] x[k]).0 == x[i].0 && m_first_occurrence(x, k);
            assert(pass1_bad(x, y, k));
        } else if exists|i: int| 0 <= i < y.len() && !m_has_key(x, (#[trigger] y[i]).0) {
            let i = choose|i: int| 0 <= i < y.len() && !m_has_key(x, (#[trigger] y[i]).0);
            lemma_first_exists(y, i);
            let k = choose|k: int|
                0 <= k <= i && (#[trigger] y[k]).0 == y[i].0 && m_first_occurrence(y, k);
            assert(pass2_bad(x, y, k));
        } else {
            let i = choose|i: int|
                0 <= i < x.len() && m_first_occurrence(x, i) && m_has_key(y, (#[trigger] x[i]).0)
                    && model_diff(x[i].1, m_lookup(y, x[i].0));
            assert(pass1_bad(x, y, i));
        }
    }
    if exists|t: int| 0 <= t < x.len() && #[trigger] pass1_bad(x, y, t) {
        let t = choose|t: int| 0 <= t < x.len() && #[trigger] pass1_bad(x, y, t);
        assert(obj_diff(x, y));
    }
    if exists|t: int| 0 <= t < y.len() && #[trigger] pass2_bad(x, y, t) {
        let t = choose|t: int| 0 <= t < y.len() && #[trigger] pass2_bad(x, y, t);
        assert(obj_diff(x, y));
    }
}

/// Looking a key up at its first occurrence returns that entry's value.
pub proof fn lemma_lookup_first(entries: Seq<(Seq<char>, ValueModel)>, i: int)
    requires
        0 <= i < entries.len(),
        m_first_occurrence(entries, i),
    ensures
        m_lookup(entries, entries[i].0) == entries[i].1,
    decreases entries.len(),
{
    if i > 0 {
        assert(entries[0].0 != entries[i].0);
        let rest = entries.drop_first();
        assert(rest[i - 1] == entries[i]);
        assert(m_first_occurrence(rest, i - 1)) by {
            assert forall|j: int| 0 <= j < i - 1 implies (#[trigger] rest[j]).0 != rest[i - 1].0
            by {
                assert(rest[j] == entries[j + 1]);
            }
        }
        lemma_lookup_first(rest, i - 1);
    }
}

/// Every key that occurs at all occurs a first time.
pub proof fn lemma_first_exists(entries: Seq<(Seq<char>, ValueModel)>, i: int)
    requires
        0 <= i < entries.len(),
    ensures
        exists|k: int|
            0 <= k <= i && (#[trigger] entries[k]).0 == entries[i].0 && m_first_occurrence(
                entries,
                k,
            ),
    decreases i,
{
    if m_first_occurrence(entries, i) {
        assert(0 <= i <= i && entries[i].0 == entries[i].0 && m_first_occurrence(entries, i));
    } else {
        let j = choose|j: int| 0 <= j < i && (#[trigger] entries[j]).0 == entries[i].0;
        lemma_first_exists(entries, j);
    }
}

/// Whether two trees have the same layout: arrays of the same length,
/// objects with the same keys in the same order.  The renderers produce
/// objects in one fixed order, and an observation normalized against the
/// rendered tree shares its layout by construction.
pub open spec fn same_layout(a: ValueModel, b: ValueModel) -> bool
    decreases a,
{
    match (a, b) {
        (ValueModel::Arr(x), ValueModel::Arr(y)) => x.len() == y.len() && (forall|i: int|
            0 <= i < x.len() ==> same_layout(#[trigger] x[i], y[i])),
        (ValueModel::Obj(x), ValueModel::Obj(y)) => x.len() == y.len() && (forall|i: int|
            0 <= i < x.len() ==> (#[trigger] x[i]).0 == y[i].0 && same_layout(x[i].1, y[i].1)),
        _ => true,
    }
}

/// The comparator misses nothing: between well-formed trees of the same
/// layout, an empty diff means the trees are equal.  Read the other way,
/// a live object that differs from the rendered desired one in any single
/// field shows a non-empty diff.
pub proof fn lemma_empty_diff_means_equal(a: ValueModel, b: ValueModel)
    requires
        model_wf(a),
        model_wf(b),
        same_layout(a, b),
        !model_diff(a, b),
    ensures
        a == b,
    decreases a,
{
    match (a, b) {
        (ValueModel::Arr(x), ValueModel::Arr(y)) => {
            assert forall|i: int| 0 <= i < x.len() implies #[trigger] x[i] == y[i] by {
                assert(model_wf(x[i]));
                assert(model_wf(y[i]));
                assert(same_layout(x[i], y[i]));
                assert(!model_diff(x[i], y[i]));
                lemma_empty_diff_means_equal(x[i], y[i]);
            }
            assert(x =~= y);
        },
        (ValueModel::Obj(x), ValueModel::Obj(y)) => {
            assert(!obj_diff(x, y));
            assert forall|i: int| 0 <= i < x.len() implies #[trigger] x[i] == y[i] by {
                assert(model_wf(x[i].1));
                assert(model_wf(y[i].1));
                assert(same_layout(x[i].1, y[i].1));
                assert(m_first_occurrence(x, i));
                assert(m_first_occurrence(y, i));
                assert(y[i].0 == x[i].0);
                assert(m_has_key(y, x[i].0));
                lemma_lookup_first(y, i);
                assert(m_lookup(y, x[i].0) == y[i].1);
                assert(!(0 <= i < x.len() && m_first_occurrence(x, i) && m_has_key(y, x[i].0)
                    && model_diff(x[i].1, m_lookup(y, x[i].0))));
                assert(!model_diff(x[i].1, y[i].1));
                lemma_empty_diff_means_equal(x[i].1, y[i].1);
            }
            assert(x =~= y);
        },
        _ => {},
    }
}

/// A tree never drifts from itself.
pub proof fn lemma_model_diff_self(v: ValueModel)
    ensures
        !model_diff(v, v),
    decreases v,
{
    match v {
        ValueModel::Arr(items) => {
            assert forall|i: int| 0 <= i < items.len() implies !model_diff(
                #[trigger] items[i],
                items[i],
            ) by {
                lemma_model_diff_self(items[i]);
            }
        },
        ValueModel::Obj(entries) => {
            assert forall|i: int|
                0 <= i < entries.len() && m_first_occurrence(entries, i) implies !model_diff(
                (#[trigger] entries[i]).1,
                m_lookup(entries, entries[i].0),
            ) by {
                lemma_lookup_first(entries, i);
                lemma_model_diff_self(entries[i].1);
            }
            assert(!obj_diff(entries, entries));
        },
        _ => {},
    }
}

/// The per-key / per-index differences between two trees.  `Same` means the
/// trees agree; every other variant records where they do not.
#[derive(Debug)]
pub enum DiffResult {
    /// No difference at this node.
    Same,
    /// Scalars differ, or the two sides are of different kinds.
    Changed,
    /// A key is present in the observed tree only.
    OnlyObserved,
    /// A key is present in the desired tree only.
    OnlyDesired,
    /// Differing entries of two objects, by key.
    Object(Vec<(String, DiffResult)>),
    /// Differing entries of two arrays, by index.
    Array(Vec<(usize, DiffResult)>),
}

impl DiffResult {
    /// Whether any difference was recorded.
    pub fn non_empty(&self) -> (r: bool)
        ensures
            r == !(self is Same),
    {
        match self {
            DiffResult::Same => false,
            _ => true,
        }
    }
}

/// The value at the first occurrence of `key` among `entries`, if any.
#[verifier::loop_isolation(false)]
fn obj_get<'a>(entries: &'a Vec<(String, Value)>, key: &String) -> (r: Option<&'a Value>)
    ensures
        match r {
            Some(v) => m_has_key(entries_model(entries@), key@) && v@ == m_lookup(
                entries_model(entries@),
                key@,
            ),
            None => !m_has_key(entries_model(entries@), key@),
        },
{
    let ghost em = entries_model(entries@);
    let n = entries.len();
    let mut i: usize = 0;
    while i < n
        invariant
            n == entries@.len(),
            em == entries_model(entries@),
            i <= n,
            forall|j: int| 0 <= j < i ==> (#[trigger] em[j]).0 != key@,
        decreases n - i,
    {
        if entries[i].0 == *key {
            proof {
                assert(entries@[i as int].0@ == key@);
                assert(em[i as int].0 == key@);
                lemma_lookup_first(em, i as int);
            }
            return Some(&entries[i].1);
        }
        proof {
            assert(em[i as int].0 == entries@[i as int].0@);
        }
        i += 1;
    }
    None
}

/// Whether `key` occurs among the first `end` entries.
#[verifier::loop_isolation(false)]
fn key_in_prefix(entries: &Vec<(String, Value)>, end: usize, key: &String) -> (r: bool)
    requires
        end <= entries@.len(),
    ensures
        r == exists|j: int|
            0 <= j < end && (#[trigger] entries_model(entries@)[j]).0 == key@,
{
    let ghost em = entries_model(entries@);
    let mut i: usize = 0;
    while i < end
        invariant
            end <= entries@.len(),
            em == entries_model(entries@),
            i <= end,
            forall|j: int| 0 <= j < i ==> (#[trigger] em[j]).0 != key@,
        decreases end - i,
    {
        if entries[i].0 == *key {
            proof {
                assert(em[i as int].0 == key@);
            }
            return true;
        }
        proof {
            assert(em[i as int].0 == entries@[i as int].0@);
        }
        i += 1;
    }
    false
}

/// Compare an observed tree against a freshly rendered desired tree.
///
/// The result is `Same` exactly when the two trees show no structural
/// difference in the sense of [`model_diff`]: objects compared over the union
/// of their keys, arrays element-wise by index, scalars by inequality.
#[verifier::loop_isolation(false)]
pub fn compare_values(observed: &Value, desired: &Value) -> (r: DiffResult)
    ensures
        (r is Same) <==> !model_diff(observed@, desired@),
    decreases observed@,
{
    proof {
        lemma_view_kind(observed);
        lemma_view_kind(desired);
    }
    match (observed, desired) {
        (Value::Null, Value::Null) => DiffResult::Same,
        (Value::Bool(x), Value::Bool(y)) => {
            if *x == *y {
                DiffResult::Same
            } else {
                DiffResult::Changed
            }
        },
        (Value::Int(x), Value::Int(y)) => {
            if *x == *y {
                DiffResult::Same
            } else {
                DiffResult::Changed
            }
        },
        (Value::Str(x), Value::Str(y)) => {
            if *x == *y {
                DiffResult::Same
            } else {
                DiffResult::Changed
            }
        },
        (Value::Array(a), Value::Array(b)) => {
            proof {
                lemma_view_array(observed);
                lemma_view_array(desired);
            }
            let ghost am = seq_model(a@);
            let ghost bm = seq_model(b@);
            let alen = a.len();
            let blen = b.len();
            let n = if alen < blen {
                alen
            } else {
                blen
            };
            let mut diffs: Vec<(usize, DiffResult)> = Vec::new();
            let mut i: usize = 0;
            while i < n
                invariant
                    n <= a@.len(),
                    n <= b@.len(),
                    am == seq_model(a@),
                    bm == seq_model(b@),
                    i <= n,
                    (diffs@.len() == 0) <==> (forall|t: int|
                        0 <= t < i ==> !model_diff(#[trigger] am[t], bm[t])),
                decreases n - i,
            {
                proof {
                    assert(decreases_to!(observed@ => observed@->Arr_0));
                    assert(decreases_to!(observed@->Arr_0 => observed@->Arr_0[i as int]));
                    assert(observed@->Arr_0[i as int] == a@[i as int]@);
                }
                let d = compare_values(&a[i], &b[i]);
                proof {
                    assert(am[i as int] == a@[i as int]@);
                    assert(bm[i as int] == b@[i as int]@);
                }
                if d.non_empty() {
                    diffs.push((i, d));
                }
                i += 1;
            }
            if alen != blen {
                diffs.push((n, if alen > blen {
                    DiffResult::OnlyObserved
                } else {
                    DiffResult::OnlyDesired
                }));
            }
            if diffs.len() == 0 {
                assert(!model_diff(observed@, desired@));
                DiffResult::Same
            } else {
                assert(model_diff(observed@, desired@));
                DiffResult::Array(diffs)
            }
        },
        (Value::Object(a), Value::Object(b)) => {
            proof {
                lemma_view_object(observed);
                lemma_view_object(desired);
                lemma_obj_diff_cases(entries_model(a@), entries_model(b@));
            }
            let ghost x = entries_model(a@);
            let ghost y = entries_model(b@);
            let mut diffs: Vec<(String, DiffResult)> = Vec::new();
            let mut i: usize = 0;
            while i < a.len()
                invariant
                    x == entries_model(a@),
                    y == entries_model(b@),
                    i <= a@.len(),
                    (diffs@.len() == 0) <==> (forall|t: int|
                        0 <= t < i ==> !#[trigger] pass1_bad(x, y, t)),
                decreases a@.len() - i,
            {
                let key = &a[i].0;
                if !key_in_prefix(a, i, key) {
                    assert(m_first_occurrence(x, i as int));
                    match obj_get(b, key) {
                        Some(bv) => {
                            proof {
                                assert(decreases_to!(observed@ => observed@->Obj_0));
                                assert(decreases_to!(observed@->Obj_0 => observed@->Obj_0[i as int]));
                                assert(decreases_to!(observed@->Obj_0[i as int] => observed@->Obj_0[i as int].1));
                                assert(observed@->Obj_0[i as int].1 == a@[i as int].1@);
                            }
                            let d = compare_values(&a[i].1, bv);
                            if d.non_empty() {
                                assert(pass1_bad(x, y, i as int));
                                diffs.push((key.clone(), d));
                            } else {
                                assert(!pass1_bad(x, y, i as int));
                            }
                        },
                        None => {
                            assert(pass1_bad(x, y, i as int));
                            diffs.push((key.clone(), DiffResult::OnlyObserved));
                        },
                    }
                } else {
                    assert(!m_first_occurrence(x, i as int));
                }
                i += 1;
            }
            let mut j: usize = 0;
            while j < b.len()
                invariant
                    x == entries_model(a@),
                    y == entries_model(b@),
                    j <= b@.len(),
                    (diffs@.len() == 0) <==> ((forall|t: int|
                        0 <= t < x.len() ==> !#[trigger] pass1_bad(x, y, t)) && (forall|t: int|
                        0 <= t < j ==> !#[trigger] pass2_bad(x, y, t))),
                decreases b@.len() - j,
            {
                let key = &b[j].0;
                if !key_in_prefix(b, j, key) {
                    assert(m_first_occurrence(y, j as int));
                    if obj_get(a, key).is_none() {
                        assert(pass2_bad(x, y, j as int));
                        diffs.push((key.clone(), DiffResult::OnlyDesired));
                    } else {
                        assert(!pass2_bad(x, y, j as int));
                    }
                } else {
                    assert(!m_first_occurrence(y, j as int));
                }
                j += 1;
            }
            if diffs.len() == 0 {
                assert(!obj_diff(x, y));
                DiffResult::Same
            } else {
                assert(obj_diff(x, y));
                DiffResult::Object(diffs)
            }
        },
        _ => {
            assert(model_diff(observed@, desired@));
            DiffResult::Changed
        },
    }
}

} // verus!
