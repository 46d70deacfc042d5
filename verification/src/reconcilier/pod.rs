//! Main workload pod rendering: one container with fixed ports, environment
//! and security context, mounting the node's storage claim.

use vstd::prelude::*;

use crate::crd::{prefixed, StarknetNode};
use crate::k8s_helper::{
    claim_volume_model, env_var_model, env_var_secret_model, lemma_claim_volume_model_wf,
    lemma_env_var_model_wf, lemma_env_var_secret_model_wf, lemma_metadata_model_wf,
    lemma_mount_model_wf, lemma_port_model_wf, lemma_quantity_map_model_wf, metadata_model,
    mount_model, port_model, quantity_keys_unique, quantity_map_model, render_claim_volume,
    render_env_var, render_env_var_secret, render_metadata, render_mount, render_port,
    render_quantity_map,
};
use crate::value::{entries_model, model_wf, seq_model, Value, ValueModel};

verus! {

/// Requests and limits of the node's container.
pub open spec fn resources_model(node: StarknetNode) -> ValueModel {
    ValueModel::Obj(
        seq![
            ("limits"@, quantity_map_model(node.spec.resources.limits@)),
            ("requests"@, quantity_map_model(node.spec.resources.requests@)),
        ],
    )
}

/// The environment of the node's container: log verbosity, data directory,
/// monitoring bind address, and the L1 RPC URL read from the referenced
/// secret.
pub open spec fn pod_env_model(node: StarknetNode) -> Seq<ValueModel> {
    seq![
        env_var_model("RUST_LOG"@, "info"@),
        env_var_model("PATHFINDER_DATA_DIR"@, "/usr/share/pathfinder/data"@),
        env_var_model("PATHFINDER_MONITOR_ADDRESS"@, "0.0.0.0:9000"@),
        env_var_secret_model(
            "PATHFINDER_ETHEREUM_API_URL"@,
            node.spec.l1_rpc_secret.name@,
            node.spec.l1_rpc_secret.key@,
        ),
    ]
}

/// The node's single container.
pub open spec fn container_model(node: StarknetNode) -> ValueModel {
    ValueModel::Obj(
        seq![
            ("name"@, ValueModel::Str("pathfinder"@)),
            ("image"@, ValueModel::Str("eqlabs/pathfinder:latest"@)),
            ("imagePullPolicy"@, ValueModel::Str("IfNotPresent"@)),
            ("env"@, ValueModel::Arr(pod_env_model(node))),
            (
                "ports"@,
                ValueModel::Arr(
                    seq![port_model("rpc"@, 9545), port_model("monitoring"@, 9000)],
                ),
            ),
            ("resources"@, resources_model(node)),
            (
                "volumeMounts"@,
                ValueModel::Arr(
                    seq![mount_model("pathfinder-data"@, "/usr/share/pathfinder/data"@)],
                ),
            ),
        ],
    )
}

/// The fixed filesystem security context (uid / gid 1000).
pub open spec fn security_context_model() -> ValueModel {
    ValueModel::Obj(
        seq![
            ("fsGroup"@, ValueModel::Int(1000)),
            ("runAsGroup"@, ValueModel::Int(1000)),
            ("runAsUser"@, ValueModel::Int(1000)),
        ],
    )
}

/// The pod spec: the container, the security context, and the data volume
/// backed by the node's storage claim.
pub open spec fn pod_spec_model(node: StarknetNode) -> ValueModel {
    ValueModel::Obj(
        seq![
            ("containers"@, ValueModel::Arr(seq![container_model(node)])),
            ("securityContext"@, security_context_model()),
            (
                "volumes"@,
                ValueModel::Arr(
                    seq![
                        claim_volume_model(
                            "pathfinder-data"@,
                            prefixed(node.name@, "storage"@),
                        ),
                    ],
                ),
            ),
        ],
    )
}

/// The pod rendered for a node: named `<node>-node`, owned by the node.
pub open spec fn pod_model(node: StarknetNode) -> ValueModel {
    ValueModel::Obj(
        seq![
            ("metadata"@, metadata_model(node, prefixed(node.name@, "node"@))),
            ("spec"@, pod_spec_model(node)),
        ],
    )
}

/// Whether the node's resource lists name each resource once, as a cluster
/// resource map does.
pub open spec fn node_resources_unique(node: StarknetNode) -> bool {
    quantity_keys_unique(node.spec.resources.requests@) && quantity_keys_unique(
        node.spec.resources.limits@,
    )
}

/// The rendered pod is well formed: no object in it repeats a key.
#[verifier::rlimit(100)]
pub proof fn lemma_pod_model_wf(node: StarknetNode)
    requires
        node_resources_unique(node),
    ensures
        model_wf(pod_model(node)),
{
    reveal_with_fuel(model_wf, 10);
    reveal_strlit("name");
    reveal_strlit("image");
    reveal_strlit("imagePullPolicy");
    reveal_strlit("env");
    reveal_strlit("ports");
    reveal_strlit("resources");
    reveal_strlit("volumeMounts");
    reveal_strlit("containers");
    reveal_strlit("securityContext");
    reveal_strlit("volumes");
    reveal_strlit("fsGroup");
    reveal_strlit("runAsGroup");
    reveal_strlit("runAsUser");
    reveal_strlit("metadata");
    reveal_strlit("spec");
    reveal_strlit("limits");
    reveal_strlit("requests");
    // environment
    let env = pod_env_model(node);
    assert(env.len() == 4);
    lemma_env_var_model_wf("RUST_LOG"@, "info"@);
    lemma_env_var_model_wf("PATHFINDER_DATA_DIR"@, "/usr/share/pathfinder/data"@);
    lemma_env_var_model_wf("PATHFINDER_MONITOR_ADDRESS"@, "0.0.0.0:9000"@);
    lemma_env_var_secret_model_wf(
        "PATHFINDER_ETHEREUM_API_URL"@,
        node.spec.l1_rpc_secret.name@,
        node.spec.l1_rpc_secret.key@,
    );
    assert(model_wf(env[0]));
    assert(model_wf(env[1]));
    assert(model_wf(env[2]));
    assert(model_wf(env[3]));
    // ports and mounts
    lemma_port_model_wf("rpc"@, 9545);
    lemma_port_model_wf("monitoring"@, 9000);
    lemma_mount_model_wf("pathfinder-data"@, "/usr/share/pathfinder/data"@);
    // resources
    lemma_quantity_map_model_wf(node.spec.resources.limits@);
    lemma_quantity_map_model_wf(node.spec.resources.requests@);
    let res = resources_model(node);
    assert(res->Obj_0.len() == 2);
    assert(res->Obj_0[0].0 == "limits"@);
    assert(res->Obj_0[1].0 == "requests"@);
    assert(model_wf(res->Obj_0[0].1));
    assert(model_wf(res->Obj_0[1].1));
    assert(model_wf(res));
    // the container
    let c = container_model(node);
    assert(c->Obj_0.len() == 7);
    assert(c->Obj_0[0].0 == "name"@);
    assert(c->Obj_0[1].0 == "image"@);
    assert(c->Obj_0[2].0 == "imagePullPolicy"@);
    assert(c->Obj_0[3].0 == "env"@);
    assert(c->Obj_0[4].0 == "ports"@);
    assert(c->Obj_0[5].0 == "resources"@);
    assert(c->Obj_0[6].0 == "volumeMounts"@);
    assert("image"@[0] == 'i');
    assert("ports"@[0] == 'p');
    assert("image"@ != "ports"@);
    assert(model_wf(c->Obj_0[0].1));
    assert(model_wf(c->Obj_0[1].1));
    assert(model_wf(c->Obj_0[2].1));
    assert(c->Obj_0[3].1->Arr_0 == env);
    assert(model_wf(c->Obj_0[3].1));
    assert(c->Obj_0[4].1->Arr_0.len() == 2);
    assert(model_wf(c->Obj_0[4].1->Arr_0[0]));
    assert(model_wf(c->Obj_0[4].1->Arr_0[1]));
    assert(model_wf(c->Obj_0[4].1));
    assert(model_wf(c->Obj_0[5].1));
    assert(c->Obj_0[6].1->Arr_0.len() == 1);
    assert(model_wf(c->Obj_0[6].1->Arr_0[0]));
    assert(model_wf(c->Obj_0[6].1));
    assert(model_wf(c));
    // the security context
    let sc = security_context_model();
    assert(sc->Obj_0.len() == 3);
    assert(sc->Obj_0[0].0 == "fsGroup"@);
    assert(sc->Obj_0[1].0 == "runAsGroup"@);
    assert(sc->Obj_0[2].0 == "runAsUser"@);
    assert(model_wf(sc->Obj_0[0].1));
    assert(model_wf(sc->Obj_0[1].1));
    assert(model_wf(sc->Obj_0[2].1));
    assert(model_wf(sc));
    // the volume
    lemma_claim_volume_model_wf("pathfinder-data"@, prefixed(node.name@, "storage"@));
    // the pod spec
    let ps = pod_spec_model(node);
    assert(ps->Obj_0.len() == 3);
    assert(ps->Obj_0[0].0 == "containers"@);
    assert(ps->Obj_0[1].0 == "securityContext"@);
    assert(ps->Obj_0[2].0 == "volumes"@);
    assert(ps->Obj_0[0].1->Arr_0.len() == 1);
    assert(model_wf(ps->Obj_0[0].1->Arr_0[0]));
    assert(model_wf(ps->Obj_0[0].1));
    assert(model_wf(ps->Obj_0[1].1));
    assert(ps->Obj_0[2].1->Arr_0.len() == 1);
    assert(model_wf(ps->Obj_0[2].1->Arr_0[0]));
    assert(model_wf(ps->Obj_0[2].1));
    assert(model_wf(ps));
    // the pod
    lemma_metadata_model_wf(node, prefixed(node.name@, "node"@));
    let pm = pod_model(node);
    assert(pm->Obj_0.len() == 2);
    assert(pm->Obj_0[0].0 == "metadata"@);
    assert(pm->Obj_0[1].0 == "spec"@);
    assert(model_wf(pm->Obj_0[0].1));
    assert(model_wf(pm->Obj_0[1].1));
    assert(model_wf(pm));
}

impl StarknetNode {
    /// The name of the node's main pod.
    pub fn get_pod_name(&self) -> (r: String)
        ensures
            r@ == prefixed(self.name@, "node"@),
    {
        self.get_prefixed_name("node")
    }
}

/// Renders the desired definition of the node's main pod.
pub fn create_pod_def(node: &StarknetNode) -> (r: Value)
    ensures
        r@ == pod_model(*node),
{
    // environment
    let mut env: Vec<Value> = Vec::new();
    env.push(render_env_var("RUST_LOG", "info"));
    env.push(render_env_var("PATHFINDER_DATA_DIR", "/usr/share/pathfinder/data"));
    env.push(render_env_var("PATHFINDER_MONITOR_ADDRESS", "0.0.0.0:9000"));
    env.push(render_env_var_secret("PATHFINDER_ETHEREUM_API_URL", &node.spec.l1_rpc_secret));
    let ghost envg = env@;
    let env_value = Value::Array(env);
    proof {
        assert(seq_model(envg) =~= pod_env_model(*node));
        assert(env_value@ == ValueModel::Arr(pod_env_model(*node)));
    }
    // ports
    let mut ports: Vec<Value> = Vec::new();
    ports.push(render_port("rpc", 9545));
    ports.push(render_port("monitoring", 9000));
    let ghost portsg = ports@;
    let ports_value = Value::Array(ports);
    proof {
        assert(seq_model(portsg) =~= seq![
            port_model("rpc"@, 9545),
            port_model("monitoring"@, 9000),
        ]);
    }
    // resources
    let mut res: Vec<(String, Value)> = Vec::new();
    res.push(("limits".to_owned(), render_quantity_map(&node.spec.resources.limits)));
    res.push(("requests".to_owned(), render_quantity_map(&node.spec.resources.requests)));
    let res_value = Value::Object(res);
    proof {
        assert(entries_model(res_value->Object_0@) =~= resources_model(*node)->Obj_0);
    }
    // volume mounts
    let mut mounts: Vec<Value> = Vec::new();
    mounts.push(render_mount("pathfinder-data", "/usr/share/pathfinder/data"));
    let ghost mountsg = mounts@;
    let mounts_value = Value::Array(mounts);
    proof {
        assert(seq_model(mountsg) =~= seq![
            mount_model("pathfinder-data"@, "/usr/share/pathfinder/data"@),
        ]);
    }
    // container
    let mut cont: Vec<(String, Value)> = Vec::new();
    cont.push(("name".to_owned(), Value::Str("pathfinder".to_owned())));
    cont.push(("image".to_owned(), Value::Str("eqlabs/pathfinder:latest".to_owned())));
    cont.push(("imagePullPolicy".to_owned(), Value::Str("IfNotPresent".to_owned())));
    cont.push(("env".to_owned(), env_value));
    cont.push(("ports".to_owned(), ports_value));
    cont.push(("resources".to_owned(), res_value));
    cont.push(("volumeMounts".to_owned(), mounts_value));
    let cont_value = Value::Object(cont);
    proof {
        assert(entries_model(cont_value->Object_0@) =~= container_model(*node)->Obj_0);
    }
    // containers list
    let mut conts: Vec<Value> = Vec::new();
    conts.push(cont_value);
    let ghost contsg = conts@;
    let conts_value = Value::Array(conts);
    proof {
        assert(seq_model(contsg) =~= seq![container_model(*node)]);
    }
    // security context
    let mut sec: Vec<(String, Value)> = Vec::new();
    sec.push(("fsGroup".to_owned(), Value::Int(1000)));
    sec.push(("runAsGroup".to_owned(), Value::Int(1000)));
    sec.push(("runAsUser".to_owned(), Value::Int(1000)));
    let sec_value = Value::Object(sec);
    proof {
        assert(entries_model(sec_value->Object_0@) =~= security_context_model()->Obj_0);
    }
    // volumes
    let mut vols: Vec<Value> = Vec::new();
    vols.push(render_claim_volume("pathfinder-data", node.get_prefixed_name("storage")));
    let ghost volsg = vols@;
    let vols_value = Value::Array(vols);
    proof {
        assert(seq_model(volsg) =~= seq![
            claim_volume_model("pathfinder-data"@, prefixed(node.name@, "storage"@)),
        ]);
    }
    // pod spec
    let mut ps: Vec<(String, Value)> = Vec::new();
    ps.push(("containers".to_owned(), conts_value));
    ps.push(("securityContext".to_owned(), sec_value));
    ps.push(("volumes".to_owned(), vols_value));
    let ps_value = Value::Object(ps);
    proof {
        assert(entries_model(ps_value->Object_0@) =~= pod_spec_model(*node)->Obj_0);
    }
    // pod
    let mut top: Vec<(String, Value)> = Vec::new();
    top.push(("metadata".to_owned(), render_metadata(node, node.get_pod_name())));
    top.push(("spec".to_owned(), ps_value));
    let r = Value::Object(top);
    proof {
        assert(entries_model(r->Object_0@) =~= pod_model(*node)->Obj_0);
    }
    r
}

} // verus!
