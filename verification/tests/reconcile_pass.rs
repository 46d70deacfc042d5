use pathfinder_operator::crd::{
    ResourceRequirements, SecretKeyRef, StarknetNode, StarknetNodeSpec, StarknetNodeStatus,
    StarknetNodeStatusEnum, StarknetSnapshot, Storage,
};
use pathfinder_operator::reconcilier::implementation::{
    reconcile_plan, Action, EventKind, Observed, ObservedPod,
};
use pathfinder_operator::reconcilier::pod::create_pod_def;
use pathfinder_operator::reconcilier::snapshot::{JobCondition, ObservedJob};
use pathfinder_operator::reconcilier::status::decide_phase;
use pathfinder_operator::value::Value;

fn mk_node(name: &str, snapshot: Option<StarknetSnapshot>, status: Option<StarknetNodeStatus>) -> StarknetNode {
    StarknetNode {
        name: name.to_string(),
        namespace: "default".to_string(),
        uid: "uid-1234".to_string(),
        spec: StarknetNodeSpec {
            network: "mainnet".to_string(),
            snapshot,
            l1_rpc_secret: SecretKeyRef { name: "l1-secret".to_string(), key: "url".to_string() },
            resources: ResourceRequirements {
                requests: vec![("cpu".to_string(), "2".to_string())],
                limits: vec![("memory".to_string(), "8Gi".to_string())],
            },
            storage: Storage { size: "100Gi".to_string(), class: None },
        },
        status,
    }
}

fn mk_status(phase: StarknetNodeStatusEnum, restored: bool) -> Option<StarknetNodeStatus> {
    Some(StarknetNodeStatus { status: phase, snapshot_restored: restored, head: None })
}

fn mk_snapshot() -> StarknetSnapshot {
    StarknetSnapshot {
        file_name: "snap.tar".to_string(),
        checksum: "abc".to_string(),
        rsync_config: None,
        storage: Storage { size: "10Gi".to_string(), class: None },
    }
}

fn empty_cluster() -> Observed {
    Observed { claim_exists: false, job: None, pod: None }
}

fn complete_job() -> ObservedJob {
    ObservedJob {
        conditions: vec![
            JobCondition { type_: "Complete".to_string(), status: "True".to_string() },
        ],
    }
}

fn running_job() -> ObservedJob {
    ObservedJob { conditions: vec![] }
}

fn matching_pod(node: &StarknetNode) -> ObservedPod {
    ObservedPod { terminating: false, rendered: create_pod_def(node) }
}

fn set_container_image(pod: &mut Value, image: &str) {
    let spec = match pod {
        Value::Object(entries) => &mut entries.iter_mut().find(|(k, _)| k == "spec").unwrap().1,
        _ => panic!("pod is not an object"),
    };
    let containers = match spec {
        Value::Object(entries) => {
            &mut entries.iter_mut().find(|(k, _)| k == "containers").unwrap().1
        },
        _ => panic!("spec is not an object"),
    };
    let first = match containers {
        Value::Array(items) => &mut items[0],
        _ => panic!("containers is not a list"),
    };
    match first {
        Value::Object(entries) => {
            entries.iter_mut().find(|(k, _)| k == "image").unwrap().1 = Value::Str(
                image.to_string(),
            );
        },
        _ => panic!("container is not an object"),
    }
}

#[test]
fn scenario_a_first_pass_creates_claim_and_pod() {
    let node = mk_node("alpha", None, None);
    let plan = reconcile_plan(&node, &empty_cluster());
    assert_eq!(
        plan.actions,
        vec![
            Action::InitStatus,
            Action::CreateStorageClaim,
            Action::Emit(EventKind::StorageCreated),
            Action::PatchStorageSize,
            Action::CreatePod,
            Action::Emit(EventKind::PodCreated),
        ],
    );
    assert_eq!(plan.requeue_secs, 10);
}

#[test]
fn scenario_a_second_pass_only_patches_the_size() {
    let node = mk_node("alpha", None, mk_status(StarknetNodeStatusEnum::Pending, false));
    let observed = Observed {
        claim_exists: true,
        job: None,
        pod: Some(matching_pod(&node)),
    };
    let plan = reconcile_plan(&node, &observed);
    assert_eq!(plan.actions, vec![Action::PatchStorageSize]);
}

#[test]
fn scenario_b_first_pass_starts_the_restore_and_holds_the_pod() {
    let node = mk_node("beta", Some(mk_snapshot()), None);
    let plan = reconcile_plan(&node, &empty_cluster());
    assert_eq!(
        plan.actions,
        vec![
            Action::InitStatus,
            Action::CreateStorageClaim,
            Action::Emit(EventKind::StorageCreated),
            Action::PatchStorageSize,
            Action::CreateRestoreJob,
            Action::SetStatus(StarknetNodeStatusEnum::DownloadingSnapshot, false),
            Action::Emit(EventKind::SnapshotRestoreStarted),
        ],
    );
}

#[test]
fn scenario_b_completed_job_latches_the_restore() {
    let node = mk_node(
        "beta",
        Some(mk_snapshot()),
        mk_status(StarknetNodeStatusEnum::DownloadingSnapshot, false),
    );
    let observed = Observed { claim_exists: true, job: Some(complete_job()), pod: None };
    let plan = reconcile_plan(&node, &observed);
    assert_eq!(
        plan.actions,
        vec![
            Action::PatchStorageSize,
            Action::MarkSnapshotRestored,
            Action::SetStatus(StarknetNodeStatusEnum::SnapshotDownloaded, true),
            Action::Emit(EventKind::SnapshotFinished),
        ],
    );
}

#[test]
fn scenario_b_following_pass_cleans_the_job_and_creates_the_pod() {
    let node = mk_node(
        "beta",
        Some(mk_snapshot()),
        mk_status(StarknetNodeStatusEnum::SnapshotDownloaded, true),
    );
    let observed = Observed { claim_exists: true, job: Some(complete_job()), pod: None };
    let plan = reconcile_plan(&node, &observed);
    assert_eq!(
        plan.actions,
        vec![
            Action::PatchStorageSize,
            Action::PatchJobTtl,
            Action::SetStatus(StarknetNodeStatusEnum::Pending, true),
            Action::CreatePod,
            Action::Emit(EventKind::PodCreated),
        ],
    );
}

#[test]
fn snapshot_gating_blocks_the_pod_while_downloading() {
    let node = mk_node(
        "beta",
        Some(mk_snapshot()),
        mk_status(StarknetNodeStatusEnum::DownloadingSnapshot, false),
    );
    let observed = Observed { claim_exists: true, job: Some(running_job()), pod: None };
    let plan = reconcile_plan(&node, &observed);
    assert!(!plan.actions.contains(&Action::CreatePod));
    assert!(!plan.actions.contains(&Action::DeletePod));
    assert_eq!(plan.actions, vec![Action::PatchStorageSize]);
}

#[test]
fn latching_survives_removing_the_snapshot_block() {
    let node = mk_node("beta", None, mk_status(StarknetNodeStatusEnum::Pending, true));
    let observed = Observed { claim_exists: true, job: None, pod: Some(matching_pod(&node)) };
    let plan = reconcile_plan(&node, &observed);
    assert!(!plan.actions.contains(&Action::CreateRestoreJob));
    assert_eq!(plan.actions, vec![Action::PatchStorageSize]);
}

#[test]
fn latching_survives_a_changed_snapshot_block() {
    let mut changed = mk_snapshot();
    changed.file_name = "other.tar".to_string();
    let node = mk_node("beta", Some(changed), mk_status(StarknetNodeStatusEnum::Pending, true));
    let observed = Observed { claim_exists: true, job: None, pod: Some(matching_pod(&node)) };
    let plan = reconcile_plan(&node, &observed);
    assert!(!plan.actions.contains(&Action::CreateRestoreJob));
    assert_eq!(plan.actions, vec![Action::PatchStorageSize]);
}

#[test]
fn drifted_pod_is_deleted_and_recreated_next_pass() {
    let node = mk_node("alpha", None, mk_status(StarknetNodeStatusEnum::Pending, false));
    let mut drifted = create_pod_def(&node);
    set_container_image(&mut drifted, "eqlabs/pathfinder:outdated");
    let observed = Observed {
        claim_exists: true,
        job: None,
        pod: Some(ObservedPod { terminating: false, rendered: drifted }),
    };
    let plan = reconcile_plan(&node, &observed);
    assert_eq!(plan.actions, vec![Action::PatchStorageSize, Action::DeletePod]);
    // next pass: the pod is gone, so it is recreated from the new definition
    let next = Observed { claim_exists: true, job: None, pod: None };
    let plan = reconcile_plan(&node, &next);
    assert_eq!(
        plan.actions,
        vec![Action::PatchStorageSize, Action::CreatePod, Action::Emit(EventKind::PodCreated)],
    );
}

#[test]
fn terminating_pod_is_left_to_finish_disappearing() {
    let node = mk_node("alpha", None, mk_status(StarknetNodeStatusEnum::Pending, false));
    let observed = Observed {
        claim_exists: true,
        job: None,
        pod: Some(ObservedPod { terminating: true, rendered: create_pod_def(&node) }),
    };
    let plan = reconcile_plan(&node, &observed);
    assert_eq!(plan.actions, vec![Action::PatchStorageSize]);
    assert_eq!(plan.requeue_secs, 10);
}

#[test]
fn job_completion_rule_requires_complete_true() {
    let node = mk_node("beta", Some(mk_snapshot()), None);
    assert!(node.is_job_finished(&complete_job()));
    assert!(!node.is_job_finished(&running_job()));
    let failed = ObservedJob {
        conditions: vec![
            JobCondition { type_: "Failed".to_string(), status: "True".to_string() },
        ],
    };
    assert!(!node.is_job_finished(&failed));
    let complete_false = ObservedJob {
        conditions: vec![
            JobCondition { type_: "Complete".to_string(), status: "False".to_string() },
        ],
    };
    assert!(!node.is_job_finished(&complete_false));
    let mixed = ObservedJob {
        conditions: vec![
            JobCondition { type_: "Failed".to_string(), status: "True".to_string() },
            JobCondition { type_: "Complete".to_string(), status: "True".to_string() },
        ],
    };
    assert!(node.is_job_finished(&mixed));
}

#[test]
fn restore_predicate_checks_config_and_latch() {
    let with = mk_node("n", Some(mk_snapshot()), None);
    assert!(with.should_snapshot());
    let without = mk_node("n", None, None);
    assert!(!without.should_snapshot());
    let latched = mk_node("n", Some(mk_snapshot()), mk_status(StarknetNodeStatusEnum::Pending, true));
    assert!(!latched.should_snapshot());
}

#[test]
fn phase_decision_follows_the_transition_table() {
    assert_eq!(decide_phase(true, false, false), StarknetNodeStatusEnum::DownloadingSnapshot);
    assert_eq!(decide_phase(true, false, true), StarknetNodeStatusEnum::SnapshotDownloaded);
    assert_eq!(decide_phase(true, true, false), StarknetNodeStatusEnum::Pending);
    assert_eq!(decide_phase(false, false, false), StarknetNodeStatusEnum::Pending);
    assert_eq!(decide_phase(false, true, true), StarknetNodeStatusEnum::Pending);
}
