//! Storage claim rendering: the claim created once per node, and the
//! size-only patch applied on every later pass.  The storage class is set at
//! creation and never patched.

use vstd::prelude::*;

use crate::crd::{prefixed, StarknetNode, Storage};
use crate::k8s_helper::{metadata_model, render_metadata};
use crate::value::{entries_model, seq_model, Value, ValueModel};

verus! {

/// Whether `key` occurs anywhere in the tree, as an object key.
pub open spec fn mentions_key(m: ValueModel, key: Seq<char>) -> bool
    decreases m,
{
    match m {
        ValueModel::Arr(items) => exists|i: int|
            0 <= i < items.len() && mentions_key(#[trigger] items[i], key),
        ValueModel::Obj(entries) => (exists|i: int|
            0 <= i < entries.len() && (#[trigger] entries[i]).0 == key) || (exists|i: int|
            0 <= i < entries.len() && mentions_key((#[trigger] entries[i]).1, key)),
        _ => false,
    }
}

/// The `spec` entries of the storage claim: access mode, the storage class
/// when one is configured, and the requested size.
pub open spec fn claim_spec_entries(storage: Storage) -> Seq<(Seq<char>, ValueModel)> {
    let access = ("accessModes"@, ValueModel::Arr(seq![ValueModel::Str("ReadWriteOnce"@)]));
    let resources = (
        "resources"@,
        ValueModel::Obj(
            seq![
                (
                    "requests"@,
                    ValueModel::Obj(seq![("storage"@, ValueModel::Str(storage.size@))]),
                ),
            ],
        ),
    );
    match storage.class {
        Some(c) => seq![access, ("storageClassName"@, ValueModel::Str(c@)), resources],
        None => seq![access, resources],
    }
}

/// The storage claim rendered for a node: named `<node>-storage`, owned by
/// the node, requesting the configured size and class.
pub open spec fn claim_model(node: StarknetNode) -> ValueModel {
    ValueModel::Obj(
        seq![
            ("metadata"@, metadata_model(node, prefixed(node.name@, "storage"@))),
            ("spec"@, ValueModel::Obj(claim_spec_entries(node.spec.storage))),
        ],
    )
}

/// Renders the `spec` object of a storage claim for `storage`.
pub fn render_claim_spec(storage: &Storage) -> (r: Value)
    ensures
        r@ == ValueModel::Obj(claim_spec_entries(*storage)),
{
    let mut modes: Vec<Value> = Vec::new();
    modes.push(Value::Str("ReadWriteOnce".to_owned()));
    let modes_value = Value::Array(modes);
    proof {
        assert(seq_model(modes_value->Array_0@) =~= seq![ValueModel::Str("ReadWriteOnce"@)]);
    }
    let mut req: Vec<(String, Value)> = Vec::new();
    req.push(("storage".to_owned(), Value::Str(storage.size.clone())));
    let req_value = Value::Object(req);
    proof {
        assert(entries_model(req_value->Object_0@) =~= seq![
            ("storage"@, ValueModel::Str(storage.size@)),
        ]);
    }
    let mut res: Vec<(String, Value)> = Vec::new();
    res.push(("requests".to_owned(), req_value));
    let res_value = Value::Object(res);
    proof {
        assert(entries_model(res_value->Object_0@) =~= seq![
            ("requests"@, ValueModel::Obj(seq![("storage"@, ValueModel::Str(storage.size@))])),
        ]);
    }
    let mut se: Vec<(String, Value)> = Vec::new();
    se.push(("accessModes".to_owned(), modes_value));
    match &storage.class {
        Some(c) => {
            se.push(("storageClassName".to_owned(), Value::Str(c.clone())));
        },
        None => {},
    }
    se.push(("resources".to_owned(), res_value));
    let r = Value::Object(se);
    proof {
        assert(entries_model(r->Object_0@) =~= claim_spec_entries(*storage));
    }
    r
}

/// Renders the storage claim for a node.
pub fn create_pvc(node: &StarknetNode) -> (r: Value)
    ensures
        r@ == claim_model(*node),
{
    let meta = render_metadata(node, node.get_prefixed_name("storage"));
    let spec_value = render_claim_spec(&node.spec.storage);
    let mut top: Vec<(String, Value)> = Vec::new();
    top.push(("metadata".to_owned(), meta));
    top.push(("spec".to_owned(), spec_value));
    let r = Value::Object(top);
    proof {
        assert(entries_model(r->Object_0@) =~= claim_model(*node)->Obj_0);
    }
    r
}

/// The merge patch applied to the claim on every pass: it requests the
/// current size and nothing else.
pub open spec fn size_patch_model(size: Seq<char>) -> ValueModel {
    ValueModel::Obj(
        seq![
            (
                "spec"@,
                ValueModel::Obj(
                    seq![
                        (
                            "resources"@,
                            ValueModel::Obj(
                                seq![
                                    (
                                        "requests"@,
                                        ValueModel::Obj(
                                            seq![("storage"@, ValueModel::Str(size))],
                                        ),
                                    ),
                                ],
                            ),
                        ),
                    ],
                ),
            ),
        ],
    )
}

/// Renders the size-only patch for the storage claim.
pub fn render_size_patch(node: &StarknetNode) -> (r: Value)
    ensures
        r@ == size_patch_model(node.spec.storage.size@),
{
    let mut req: Vec<(String, Value)> = Vec::new();
    req.push(("storage".to_owned(), Value::Str(node.spec.storage.size.clone())));
    let req_value = Value::Object(req);
    proof {
        assert(entries_model(req_value->Object_0@) =~= seq![
            ("storage"@, ValueModel::Str(node.spec.storage.size@)),
        ]);
    }
    let mut res: Vec<(String, Value)> = Vec::new();
    res.push(("requests".to_owned(), req_value));
    let res_value = Value::Object(res);
    proof {
        assert(entries_model(res_value->Object_0@) =~= seq![
            ("requests"@, ValueModel::Obj(seq![("storage"@, ValueModel::Str(node.spec.storage.size@))])),
        ]);
    }
    let mut sp: Vec<(String, Value)> = Vec::new();
    sp.push(("resources".to_owned(), res_value));
    let sp_value = Value::Object(sp);
    proof {
        assert(entries_model(sp_value->Object_0@) =~= size_patch_model(node.spec.storage.size@)->Obj_0[0].1->Obj_0);
    }
    let mut top: Vec<(String, Value)> = Vec::new();
    top.push(("spec".to_owned(), sp_value));
    let r = Value::Object(top);
    proof {
        assert(entries_model(r->Object_0@) =~= size_patch_model(node.spec.storage.size@)->Obj_0);
    }
    r
}

/// The size patch never touches the storage class: whatever the spec's class
/// value is or becomes, the patch carries no `storageClassName` key anywhere.
pub proof fn lemma_size_patch_never_mentions_class(size: Seq<char>)
    ensures
        !mentions_key(size_patch_model(size), "storageClassName"@),
{
    reveal_strlit("storageClassName");
    reveal_strlit("spec");
    reveal_strlit("resources");
    reveal_strlit("requests");
    reveal_strlit("storage");
    let top = size_patch_model(size);
    let l1 = top->Obj_0[0].1;
    let l2 = l1->Obj_0[0].1;
    let l3 = l2->Obj_0[0].1;
    assert("spec"@.len() == 4);
    assert("storageClassName"@.len() == 16);
    assert(!mentions_key(ValueModel::Str(size), "storageClassName"@));
    assert(!mentions_key(l3, "storageClassName"@));
    assert(!mentions_key(l2, "storageClassName"@));
    assert(!mentions_key(l1, "storageClassName"@));
    assert(!mentions_key(top, "storageClassName"@));
}

} // verus!
