use pathfinder_operator::crd::{
    ResourceRequirements, SecretKeyRef, StarknetNode, StarknetNodeSpec, StarknetNodeStatus,
    StarknetNodeStatusEnum, StarknetSnapshot, Storage,
};
use pathfinder_operator::reconcilier::pod::create_pod_def;
use pathfinder_operator::reconcilier::pvc::{create_pvc, render_size_patch};
use pathfinder_operator::reconcilier::snapshot::{create_job, get_job_name, render_job_ttl_patch};
use pathfinder_operator::reconcilier::status::{
    render_init_status_patch, render_mark_restored_patch, render_phase_label, render_status_patch,
};
use pathfinder_operator::value::Value;

fn mk_node(name: &str, snapshot: Option<StarknetSnapshot>, status: Option<StarknetNodeStatus>) -> StarknetNode {
    StarknetNode {
        name: name.to_string(),
        namespace: "default".to_string(),
        uid: "uid-1234".to_string(),
        spec: StarknetNodeSpec {
            network: "mainnet".to_string(),
            snapshot,
            l1_rpc_secret: SecretKeyRef { name: "l1-secret".to_string(), key: "url".to_string() },
            resources: ResourceRequirements {
                requests: vec![("cpu".to_string(), "2".to_string())],
                limits: vec![("memory".to_string(), "8Gi".to_string())],
            },
            storage: Storage { size: "100Gi".to_string(), class: None },
        },
        status,
    }
}

fn get<'a>(v: &'a Value, key: &str) -> &'a Value {
    match v {
        Value::Object(entries) => {
            for (k, val) in entries {
                if k == key {
                    return val;
                }
            }
            panic!("missing key {}", key);
        },
        _ => panic!("not an object"),
    }
}

fn has_key(v: &Value, key: &str) -> bool {
    match v {
        Value::Object(entries) => entries.iter().any(|(k, _)| k == key),
        _ => false,
    }
}

fn mentions_key_anywhere(v: &Value, key: &str) -> bool {
    match v {
        Value::Object(entries) => entries.iter().any(|(k, val)| k == key || mentions_key_anywhere(val, key)),
        Value::Array(items) => items.iter().any(|val| mentions_key_anywhere(val, key)),
        _ => false,
    }
}

fn str_of(v: &Value) -> &str {
    match v {
        Value::Str(s) => s.as_str(),
        _ => panic!("not a string"),
    }
}

#[test]
fn claim_is_named_and_sized_from_the_spec() {
    let node = mk_node("alpha", None, None);
    let claim = create_pvc(&node);
    assert_eq!(str_of(get(get(&claim, "metadata"), "name")), "alpha-storage");
    assert_eq!(str_of(get(get(&claim, "metadata"), "namespace")), "default");
    let requests = get(get(get(get(&claim, "spec"), "resources"), "requests"), "storage");
    assert_eq!(str_of(requests), "100Gi");
    // no class configured: the claim carries no storageClassName
    assert!(!has_key(get(&claim, "spec"), "storageClassName"));
}

#[test]
fn claim_carries_the_configured_class_at_creation() {
    let mut node = mk_node("alpha", None, None);
    node.spec.storage.class = Some("fast".to_string());
    let claim = create_pvc(&node);
    assert_eq!(str_of(get(get(&claim, "spec"), "storageClassName")), "fast");
}

#[test]
fn claim_owner_reference_ties_it_to_the_node() {
    let node = mk_node("alpha", None, None);
    let claim = create_pvc(&node);
    let refs = get(get(&claim, "metadata"), "ownerReferences");
    match refs {
        Value::Array(items) => {
            assert_eq!(items.len(), 1);
            assert_eq!(str_of(get(&items[0], "name")), "alpha");
            assert_eq!(str_of(get(&items[0], "uid")), "uid-1234");
            assert_eq!(str_of(get(&items[0], "kind")), "StarknetNode");
        },
        _ => panic!("ownerReferences is not a list"),
    }
}

#[test]
fn size_patch_mentions_only_the_size() {
    let mut node = mk_node("alpha", None, None);
    node.spec.storage.class = Some("changed-later".to_string());
    let patch = render_size_patch(&node);
    let storage = get(get(get(get(&patch, "spec"), "resources"), "requests"), "storage");
    assert_eq!(str_of(storage), "100Gi");
    assert!(!mentions_key_anywhere(&patch, "storageClassName"));
    assert!(!mentions_key_anywhere(&patch, "accessModes"));
}

#[test]
fn size_patch_is_independent_of_the_class() {
    let a = mk_node("alpha", None, None);
    let mut b = mk_node("alpha", None, None);
    b.spec.storage.class = Some("fast".to_string());
    assert_eq!(render_size_patch(&a), render_size_patch(&b));
}

#[test]
fn pod_is_named_and_mounts_the_claim() {
    let node = mk_node("alpha", None, None);
    assert_eq!(node.get_pod_name(), "alpha-node");
    let pod = create_pod_def(&node);
    assert_eq!(str_of(get(get(&pod, "metadata"), "name")), "alpha-node");
    let spec = get(&pod, "spec");
    let volumes = match get(spec, "volumes") {
        Value::Array(items) => items,
        _ => panic!("volumes is not a list"),
    };
    assert_eq!(volumes.len(), 1);
    assert_eq!(
        str_of(get(get(&volumes[0], "persistentVolumeClaim"), "claimName")),
        "alpha-storage",
    );
}

#[test]
fn pod_container_has_the_fixed_ports_and_secret_env() {
    let node = mk_node("alpha", None, None);
    let pod = create_pod_def(&node);
    let containers = match get(get(&pod, "spec"), "containers") {
        Value::Array(items) => items,
        _ => panic!("containers is not a list"),
    };
    assert_eq!(containers.len(), 1);
    let c = &containers[0];
    assert_eq!(str_of(get(c, "image")), "eqlabs/pathfinder:latest");
    let ports = match get(c, "ports") {
        Value::Array(items) => items,
        _ => panic!("ports is not a list"),
    };
    assert_eq!(ports.len(), 2);
    assert_eq!(str_of(get(&ports[0], "name")), "rpc");
    assert_eq!(get(&ports[0], "containerPort"), &Value::Int(9545));
    assert_eq!(str_of(get(&ports[1], "name")), "monitoring");
    assert_eq!(get(&ports[1], "containerPort"), &Value::Int(9000));
    let env = match get(c, "env") {
        Value::Array(items) => items,
        _ => panic!("env is not a list"),
    };
    assert_eq!(env.len(), 4);
    assert_eq!(str_of(get(&env[3], "name")), "PATHFINDER_ETHEREUM_API_URL");
    let key_ref = get(get(&env[3], "valueFrom"), "secretKeyRef");
    assert_eq!(str_of(get(key_ref, "name")), "l1-secret");
    assert_eq!(str_of(get(key_ref, "key")), "url");
}

#[test]
fn pod_runs_with_the_fixed_security_context() {
    let node = mk_node("alpha", None, None);
    let pod = create_pod_def(&node);
    let sc = get(get(&pod, "spec"), "securityContext");
    assert_eq!(get(sc, "runAsUser"), &Value::Int(1000));
    assert_eq!(get(sc, "runAsGroup"), &Value::Int(1000));
    assert_eq!(get(sc, "fsGroup"), &Value::Int(1000));
}

#[test]
fn job_is_named_and_parameterized_from_the_snapshot() {
    let snapshot = StarknetSnapshot {
        file_name: "snap.tar".to_string(),
        checksum: "abc".to_string(),
        rsync_config: None,
        storage: Storage { size: "10Gi".to_string(), class: None },
    };
    let node = mk_node("beta", Some(snapshot), None);
    assert_eq!(get_job_name(&node), "beta-restore-snapshot-job");
    let job = create_job(&node);
    assert_eq!(str_of(get(get(&job, "metadata"), "name")), "beta-restore-snapshot-job");
    let tspec = get(get(get(&job, "spec"), "template"), "spec");
    assert_eq!(str_of(get(tspec, "restartPolicy")), "Never");
    let containers = match get(tspec, "containers") {
        Value::Array(items) => items,
        _ => panic!("containers is not a list"),
    };
    let env = match get(&containers[0], "env") {
        Value::Array(items) => items,
        _ => panic!("env is not a list"),
    };
    assert_eq!(env.len(), 3);
    assert_eq!(str_of(get(&env[0], "name")), "PATHFINDER_NETWORK");
    assert_eq!(str_of(get(&env[0], "value")), "mainnet");
    assert_eq!(str_of(get(&env[1], "value")), "snap.tar");
    assert_eq!(str_of(get(&env[2], "value")), "abc");
    let volumes = match get(tspec, "volumes") {
        Value::Array(items) => items,
        _ => panic!("volumes is not a list"),
    };
    assert_eq!(volumes.len(), 2);
    assert_eq!(str_of(get(&volumes[0], "name")), "snapshot-scratch");
    let template = get(get(&volumes[0], "ephemeral"), "volumeClaimTemplate");
    let scratch_size = get(get(get(get(template, "spec"), "resources"), "requests"), "storage");
    assert_eq!(str_of(scratch_size), "10Gi");
    assert_eq!(str_of(get(&volumes[1], "name")), "data");
    assert_eq!(
        str_of(get(get(&volumes[1], "persistentVolumeClaim"), "claimName")),
        "beta-storage",
    );
}

#[test]
fn job_env_includes_the_transfer_endpoint_when_configured() {
    let snapshot = StarknetSnapshot {
        file_name: "snap.tar".to_string(),
        checksum: "abc".to_string(),
        rsync_config: Some("rsync://snapshots".to_string()),
        storage: Storage { size: "10Gi".to_string(), class: None },
    };
    let node = mk_node("beta", Some(snapshot), None);
    let job = create_job(&node);
    let tspec = get(get(get(&job, "spec"), "template"), "spec");
    let containers = match get(tspec, "containers") {
        Value::Array(items) => items,
        _ => panic!("containers is not a list"),
    };
    let env = match get(&containers[0], "env") {
        Value::Array(items) => items,
        _ => panic!("env is not a list"),
    };
    assert_eq!(env.len(), 4);
    assert_eq!(str_of(get(&env[3], "name")), "PATHFINDER_DOWNLOAD_URL");
    assert_eq!(str_of(get(&env[3], "value")), "rsync://snapshots");
}

#[test]
fn ttl_patch_asks_the_cluster_to_collect_the_job() {
    let patch = render_job_ttl_patch();
    assert_eq!(str_of(get(&patch, "apiVersion")), "batch/v1");
    assert_eq!(str_of(get(&patch, "kind")), "Job");
    assert_eq!(get(get(&patch, "spec"), "ttlSecondsAfterFinished"), &Value::Int(1));
}

#[test]
fn status_patch_declares_the_decided_latch_value() {
    let patch = render_status_patch(StarknetNodeStatusEnum::Pending, true);
    let st = get(&patch, "status");
    assert_eq!(get(st, "snapshot_restored"), &Value::Bool(true));
    assert_eq!(str_of(get(st, "status")), "Pending");
    // the latch pass's phase patch declares true as well
    let latch = render_status_patch(StarknetNodeStatusEnum::SnapshotDownloaded, true);
    assert_eq!(get(get(&latch, "status"), "snapshot_restored"), &Value::Bool(true));
}

#[test]
fn init_status_patch_starts_pending_and_unrestored() {
    let patch = render_init_status_patch();
    let st = get(&patch, "status");
    assert_eq!(get(st, "snapshot_restored"), &Value::Bool(false));
    assert_eq!(str_of(get(st, "status")), "Pending");
}

#[test]
fn mark_restored_patch_sets_only_the_latch() {
    let patch = render_mark_restored_patch();
    let st = get(&patch, "status");
    assert_eq!(get(st, "snapshot_restored"), &Value::Bool(true));
    assert!(!has_key(st, "status"));
}

#[test]
fn phase_labels_match_the_wire_format() {
    assert_eq!(render_phase_label(StarknetNodeStatusEnum::Pending), "Pending");
    assert_eq!(
        render_phase_label(StarknetNodeStatusEnum::DownloadingSnapshot),
        "DownloadingSnapshot",
    );
    assert_eq!(
        render_phase_label(StarknetNodeStatusEnum::SnapshotDownloaded),
        "SnapshotDownloaded",
    );
    assert_eq!(render_phase_label(StarknetNodeStatusEnum::CatchingUp), "CatchingUp");
    assert_eq!(render_phase_label(StarknetNodeStatusEnum::Ready), "Ready");
    assert_eq!(render_phase_label(StarknetNodeStatusEnum::Failed), "Failed");
}
