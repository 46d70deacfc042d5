//! Shared rendering helpers: object metadata with owner references, and
//! resource-quantity maps.  Every child object the controller renders goes
//! through these.

use vstd::prelude::*;

use crate::crd::{SecretKeyRef, StarknetNode};
use crate::value::{entries_model, model_wf, seq_model, Value, ValueModel};

verus! {

/// The owner reference a child object carries, tying its garbage-collection
/// lifecycle to the parent node resource.
pub open spec fn owner_ref_model(node: StarknetNode) -> ValueModel {
    ValueModel::Obj(
        seq![
            ("apiVersion"@, ValueModel::Str("runelabs.xyz/v1alpha1"@)),
            ("kind"@, ValueModel::Str("StarknetNode"@)),
            ("name"@, ValueModel::Str(node.name@)),
            ("uid"@, ValueModel::Str(node.uid@)),
        ],
    )
}

/// Metadata of a child object: its name, the parent's namespace, and the
/// owner reference.
pub open spec fn metadata_model(node: StarknetNode, child_name: Seq<char>) -> ValueModel {
    ValueModel::Obj(
        seq![
            ("name"@, ValueModel::Str(child_name)),
            ("namespace"@, ValueModel::Str(node.namespace@)),
            ("ownerReferences"@, ValueModel::Arr(seq![owner_ref_model(node)])),
        ],
    )
}

/// Renders the metadata of a child object named `child_name`.
pub fn render_metadata(node: &StarknetNode, child_name: String) -> (r: Value)
    ensures
        r@ == metadata_model(*node, child_name@),
{
    let mut ov: Vec<(String, Value)> = Vec::new();
    ov.push(("apiVersion".to_owned(), Value::Str("runelabs.xyz/v1alpha1".to_owned())));
    ov.push(("kind".to_owned(), Value::Str("StarknetNode".to_owned())));
    ov.push(("name".to_owned(), Value::Str(node.name.clone())));
    ov.push(("uid".to_owned(), Value::Str(node.uid.clone())));
    let owner = Value::Object(ov);
    proof {
        let em = entries_model(owner->Object_0@);
        assert(owner->Object_0@.len() == 4);
        assert(em.len() == 4);
        assert(em[0].0 == "apiVersion"@);
        assert(em[0].1 == ValueModel::Str("runelabs.xyz/v1alpha1"@));
        assert(em[2].1 == ValueModel::Str(node.name@));
        assert(owner@ == ValueModel::Obj(em));
        assert(em =~= owner_ref_model(*node)->Obj_0);
        assert(owner@ =~~= owner_ref_model(*node));
    }
    let ghost cn = child_name@;
    let mut refs: Vec<Value> = Vec::new();
    refs.push(owner);
    let ghost rv = refs@;
    let refs_value = Value::Array(refs);
    proof {
        assert(seq_model(rv).len() == 1);
        assert(seq_model(rv)[0] == owner_ref_model(*node));
        assert(seq_model(rv) =~= seq![owner_ref_model(*node)]);
        assert(refs_value@ == ValueModel::Arr(seq![owner_ref_model(*node)]));
    }
    let mut mv: Vec<(String, Value)> = Vec::new();
    mv.push(("name".to_owned(), Value::Str(child_name)));
    mv.push(("namespace".to_owned(), Value::Str(node.namespace.clone())));
    mv.push(("ownerReferences".to_owned(), refs_value));
    let r = Value::Object(mv);
    proof {
        let em = entries_model(r->Object_0@);
        assert(em.len() == 3);
        assert(em[0].0 == "name"@);
        assert(em[0].1 == ValueModel::Str(cn));
        assert(em[1].1 == ValueModel::Str(node.namespace@));
        assert(em[2].1 == ValueModel::Arr(seq![owner_ref_model(*node)]));
        assert(em =~= metadata_model(*node, cn)->Obj_0);
        assert(r@ =~~= metadata_model(*node, cn));
    }
    r
}

/// A map of named quantities, each value a string.
pub open spec fn quantity_map_model(entries: Seq<(String, String)>) -> ValueModel {
    ValueModel::Obj(Seq::new(entries.len(), |i: int| (entries[i].0@, ValueModel::Str(entries[i].1@))))
}

/// Renders a map of named quantities.
#[verifier::loop_isolation(false)]
pub fn render_quantity_map(entries: &Vec<(String, String)>) -> (r: Value)
    ensures
        r@ == quantity_map_model(entries@),
{
    let mut out: Vec<(String, Value)> = Vec::new();
    let mut i: usize = 0;
    while i < entries.len()
        invariant
            i <= entries@.len(),
            out@.len() == i,
            forall|j: int|
                0 <= j < i ==> #[trigger] out@[j] == (entries@[j].0, Value::Str(entries@[j].1)),
        decreases entries@.len() - i,
    {
        out.push((entries[i].0.clone(), Value::Str(entries[i].1.clone())));
        i += 1;
    }
    let r = Value::Object(out);
    proof {
        let em = entries_model(r->Object_0@);
        let qm = quantity_map_model(entries@)->Obj_0;
        assert(em.len() == qm.len());
        assert forall|j: int| 0 <= j < em.len() implies em[j] == qm[j] by {
            assert(out@[j] == (entries@[j].0, Value::Str(entries@[j].1)));
        }
        assert(em =~= qm);
        assert(r@ =~~= quantity_map_model(entries@));
    }
    r
}

/// A plain environment entry: a name and a literal value.
pub open spec fn env_var_model(name: Seq<char>, value: Seq<char>) -> ValueModel {
    ValueModel::Obj(
        seq![("name"@, ValueModel::Str(name)), ("value"@, ValueModel::Str(value))],
    )
}

/// Renders a plain environment entry.
pub fn render_env_var(name: &str, value: &str) -> (r: Value)
    ensures
        r@ == env_var_model(name@, value@),
{
    let mut ev: Vec<(String, Value)> = Vec::new();
    ev.push(("name".to_owned(), Value::Str(name.to_owned())));
    ev.push(("value".to_owned(), Value::Str(value.to_owned())));
    let r = Value::Object(ev);
    proof {
        assert(entries_model(r->Object_0@) =~= env_var_model(name@, value@)->Obj_0);
    }
    r
}

/// An environment entry whose value is read from a secret's key.
pub open spec fn env_var_secret_model(
    name: Seq<char>,
    secret_name: Seq<char>,
    secret_key: Seq<char>,
) -> ValueModel {
    ValueModel::Obj(
        seq![
            ("name"@, ValueModel::Str(name)),
            (
                "valueFrom"@,
                ValueModel::Obj(
                    seq![
                        (
                            "secretKeyRef"@,
                            ValueModel::Obj(
                                seq![
                                    ("key"@, ValueModel::Str(secret_key)),
                                    ("name"@, ValueModel::Str(secret_name)),
                                ],
                            ),
                        ),
                    ],
                ),
            ),
        ],
    )
}

/// Renders an environment entry sourced from a secret's key.
pub fn render_env_var_secret(name: &str, secret: &SecretKeyRef) -> (r: Value)
    ensures
        r@ == env_var_secret_model(name@, secret.name@, secret.key@),
{
    let mut sk: Vec<(String, Value)> = Vec::new();
    sk.push(("key".to_owned(), Value::Str(secret.key.clone())));
    sk.push(("name".to_owned(), Value::Str(secret.name.clone())));
    let sk_value = Value::Object(sk);
    proof {
        assert(entries_model(sk_value->Object_0@) =~= seq![
            ("key"@, ValueModel::Str(secret.key@)),
            ("name"@, ValueModel::Str(secret.name@)),
        ]);
    }
    let mut vf: Vec<(String, Value)> = Vec::new();
    vf.push(("secretKeyRef".to_owned(), sk_value));
    let vf_value = Value::Object(vf);
    proof {
        assert(entries_model(vf_value->Object_0@) =~= env_var_secret_model(
            name@,
            secret.name@,
            secret.key@,
        )->Obj_0[1].1->Obj_0);
    }
    let mut ev: Vec<(String, Value)> = Vec::new();
    ev.push(("name".to_owned(), Value::Str(name.to_owned())));
    ev.push(("valueFrom".to_owned(), vf_value));
    let r = Value::Object(ev);
    proof {
        assert(entries_model(r->Object_0@) =~= env_var_secret_model(
            name@,
            secret.name@,
            secret.key@,
        )->Obj_0);
    }
    r
}

/// A named container port.
pub open spec fn port_model(name: Seq<char>, port: int) -> ValueModel {
    ValueModel::Obj(
        seq![("containerPort"@, ValueModel::Int(port)), ("name"@, ValueModel::Str(name))],
    )
}

/// Renders a named container port.
pub fn render_port(name: &str, port: i64) -> (r: Value)
    ensures
        r@ == port_model(name@, port as int),
{
    let mut pv: Vec<(String, Value)> = Vec::new();
    pv.push(("containerPort".to_owned(), Value::Int(port)));
    pv.push(("name".to_owned(), Value::Str(name.to_owned())));
    let r = Value::Object(pv);
    proof {
        assert(entries_model(r->Object_0@) =~= port_model(name@, port as int)->Obj_0);
    }
    r
}

/// A volume mount: the volume's name and the path it is mounted at.
pub open spec fn mount_model(name: Seq<char>, path: Seq<char>) -> ValueModel {
    ValueModel::Obj(
        seq![("mountPath"@, ValueModel::Str(path)), ("name"@, ValueModel::Str(name))],
    )
}

/// Renders a volume mount.
pub fn render_mount(name: &str, path: &str) -> (r: Value)
    ensures
        r@ == mount_model(name@, path@),
{
    let mut mv: Vec<(String, Value)> = Vec::new();
    mv.push(("mountPath".to_owned(), Value::Str(path.to_owned())));
    mv.push(("name".to_owned(), Value::Str(name.to_owned())));
    let r = Value::Object(mv);
    proof {
        assert(entries_model(r->Object_0@) =~= mount_model(name@, path@)->Obj_0);
    }
    r
}

/// A volume backed by a storage claim.
pub open spec fn claim_volume_model(name: Seq<char>, claim: Seq<char>) -> ValueModel {
    ValueModel::Obj(
        seq![
            ("name"@, ValueModel::Str(name)),
            (
                "persistentVolumeClaim"@,
                ValueModel::Obj(seq![("claimName"@, ValueModel::Str(claim))]),
            ),
        ],
    )
}

/// Renders a volume backed by the claim named `claim`.
pub fn render_claim_volume(name: &str, claim: String) -> (r: Value)
    ensures
        r@ == claim_volume_model(name@, claim@),
{
    let ghost cl = claim@;
    let mut cv: Vec<(String, Value)> = Vec::new();
    cv.push(("claimName".to_owned(), Value::Str(claim)));
    let cv_value = Value::Object(cv);
    proof {
        assert(entries_model(cv_value->Object_0@) =~= seq![("claimName"@, ValueModel::Str(cl))]);
    }
    let mut vv: Vec<(String, Value)> = Vec::new();
    vv.push(("name".to_owned(), Value::Str(name.to_owned())));
    vv.push(("persistentVolumeClaim".to_owned(), cv_value));
    let r = Value::Object(vv);
    proof {
        assert(entries_model(r->Object_0@) =~= claim_volume_model(name@, cl)->Obj_0);
    }
    r
}

/// Whether a quantity list names each resource once.
pub open spec fn quantity_keys_unique(entries: Seq<(String, String)>) -> bool {
    forall|i: int, j: int|
        0 <= i < j < entries.len() ==> (#[trigger] entries[i]).0@ != (#[trigger] entries[j]).0@
}

/// An owner reference repeats no key.
pub proof fn lemma_owner_ref_model_wf(node: StarknetNode)
    ensures
        model_wf(owner_ref_model(node)),
{
    reveal_with_fuel(model_wf, 5);
    reveal_strlit("apiVersion");
    reveal_strlit("kind");
    reveal_strlit("name");
    reveal_strlit("uid");
    let m = owner_ref_model(node);
    assert(m->Obj_0.len() == 4);
    assert(m->Obj_0[0].0 == "apiVersion"@);
    assert(m->Obj_0[1].0 == "kind"@);
    assert(m->Obj_0[2].0 == "name"@);
    assert(m->Obj_0[3].0 == "uid"@);
    assert("apiVersion"@ != "kind"@);
    assert("apiVersion"@ != "name"@);
    assert("apiVersion"@ != "uid"@);
    assert("kind"@[0] == 'k');
    assert("name"@[0] == 'n');
    assert("kind"@ != "name"@);
    assert("kind"@ != "uid"@);
    assert("name"@ != "uid"@);
    assert(model_wf(m->Obj_0[0].1));
    assert(model_wf(m->Obj_0[1].1));
    assert(model_wf(m->Obj_0[2].1));
    assert(model_wf(m->Obj_0[3].1));
}

/// Child metadata repeats no key.
pub proof fn lemma_metadata_model_wf(node: StarknetNode, child_name: Seq<char>)
    ensures
        model_wf(metadata_model(node, child_name)),
{
    reveal_with_fuel(model_wf, 5);
    reveal_strlit("name");
    reveal_strlit("namespace");
    reveal_strlit("ownerReferences");
    lemma_owner_ref_model_wf(node);
    let m = metadata_model(node, child_name);
    assert(m->Obj_0.len() == 3);
    assert(m->Obj_0[0].0 == "name"@);
    assert(m->Obj_0[1].0 == "namespace"@);
    assert(m->Obj_0[2].0 == "ownerReferences"@);
    assert("name"@ != "namespace"@);
    assert("name"@ != "ownerReferences"@);
    assert("namespace"@ != "ownerReferences"@);
    assert(model_wf(m->Obj_0[0].1));
    assert(model_wf(m->Obj_0[1].1));
    let refs = m->Obj_0[2].1->Arr_0;
    assert(refs.len() == 1);
    assert(model_wf(refs[0]));
    assert(model_wf(m->Obj_0[2].1));
}

/// A quantity map with unique resource names is well formed.
pub proof fn lemma_quantity_map_model_wf(entries: Seq<(String, String)>)
    requires
        quantity_keys_unique(entries),
    ensures
        model_wf(quantity_map_model(entries)),
{
    reveal_with_fuel(model_wf, 5);
}

/// A plain environment entry repeats no key.
pub proof fn lemma_env_var_model_wf(name: Seq<char>, value: Seq<char>)
    ensures
        model_wf(env_var_model(name, value)),
{
    reveal_with_fuel(model_wf, 5);
    reveal_strlit("name");
    reveal_strlit("value");
    assert("name"@.len() == 4);
    assert("value"@.len() == 5);
    assert("name"@ != "value"@);
    let m = env_var_model(name, value);
    assert(m->Obj_0.len() == 2);
    assert(m->Obj_0[0].0 == "name"@);
    assert(model_wf(m->Obj_0[0].1));
    assert(model_wf(m->Obj_0[1].1));
}

/// A secret-sourced environment entry repeats no key.
pub proof fn lemma_env_var_secret_model_wf(
    name: Seq<char>,
    secret_name: Seq<char>,
    secret_key: Seq<char>,
)
    ensures
        model_wf(env_var_secret_model(name, secret_name, secret_key)),
{
    reveal_with_fuel(model_wf, 5);
    reveal_strlit("name");
    reveal_strlit("valueFrom");
    reveal_strlit("secretKeyRef");
    reveal_strlit("key");
    let m = env_var_secret_model(name, secret_name, secret_key);
    assert(m->Obj_0.len() == 2);
    assert(m->Obj_0[0].0 == "name"@);
    assert(m->Obj_0[1].0 == "valueFrom"@);
    assert("name"@ != "valueFrom"@);
    assert(model_wf(m->Obj_0[0].1));
    let vf = m->Obj_0[1].1;
    assert(vf->Obj_0.len() == 1);
    let sk = vf->Obj_0[0].1;
    assert(sk->Obj_0.len() == 2);
    assert(sk->Obj_0[0].0 == "key"@);
    assert(sk->Obj_0[1].0 == "name"@);
    assert("key"@ != "name"@);
    assert(model_wf(sk->Obj_0[0].1));
    assert(model_wf(sk->Obj_0[1].1));
    assert(model_wf(sk));
    assert(model_wf(vf));
}

/// A container port repeats no key.
pub proof fn lemma_port_model_wf(name: Seq<char>, port: int)
    ensures
        model_wf(port_model(name, port)),
{
    reveal_with_fuel(model_wf, 5);
    reveal_strlit("containerPort");
    reveal_strlit("name");
    let m = port_model(name, port);
    assert(m->Obj_0.len() == 2);
    assert(m->Obj_0[0].0 == "containerPort"@);
    assert(m->Obj_0[1].0 == "name"@);
    assert("containerPort"@ != "name"@);
    assert(model_wf(m->Obj_0[0].1));
    assert(model_wf(m->Obj_0[1].1));
}

/// A volume mount repeats no key.
pub proof fn lemma_mount_model_wf(name: Seq<char>, path: Seq<char>)
    ensures
        model_wf(mount_model(name, path)),
{
    reveal_with_fuel(model_wf, 5);
    reveal_strlit("mountPath");
    reveal_strlit("name");
    let m = mount_model(name, path);
    assert(m->Obj_0.len() == 2);
    assert(m->Obj_0[0].0 == "mountPath"@);
    assert(m->Obj_0[1].0 == "name"@);
    assert("mountPath"@ != "name"@);
    assert(model_wf(m->Obj_0[0].1));
    assert(model_wf(m->Obj_0[1].1));
}

/// A claim-backed volume repeats no key.
pub proof fn lemma_claim_volume_model_wf(name: Seq<char>, claim: Seq<char>)
    ensures
        model_wf(claim_volume_model(name, claim)),
{
    reveal_with_fuel(model_wf, 5);
    reveal_strlit("name");
    reveal_strlit("persistentVolumeClaim");
    reveal_strlit("claimName");
    let m = claim_volume_model(name, claim);
    assert(m->Obj_0.len() == 2);
    assert(m->Obj_0[0].0 == "name"@);
    assert(m->Obj_0[1].0 == "persistentVolumeClaim"@);
    assert("name"@ != "persistentVolumeClaim"@);
    assert(model_wf(m->Obj_0[0].1));
    let inner = m->Obj_0[1].1;
    assert(inner->Obj_0.len() == 1);
    assert(model_wf(inner->Obj_0[0].1));
    assert(model_wf(inner));
}

} // verus!
