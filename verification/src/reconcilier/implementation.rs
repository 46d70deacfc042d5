//! The per-pass reconciliation planner.
//!
//! One pass is a pure decision: from the node resource and a plain
//! observation of the cluster (does the claim exist, what does the restore
//! job report, what does the live pod look like) it produces the ordered
//! list of actions the caller must execute, and the requeue delay.  The
//! caller performs the cluster I/O; every write it performs is one of the
//! rendered, field-scoped patches or creations this module and its siblings
//! pin down.

use vstd::prelude::*;

use crate::crd::{StarknetNode, StarknetNodeStatus, StarknetNodeStatusEnum};
use crate::drift::{
    compare_values, lemma_empty_diff_means_equal, lemma_model_diff_self, model_diff, same_layout,
};
use crate::reconcilier::pod::{
    create_pod_def, lemma_pod_model_wf, node_resources_unique, pod_model,
};
use crate::reconcilier::snapshot::{job_finished, ObservedJob};
use crate::reconcilier::status::spec_decide_phase;
use crate::value::{model_wf, Value};

verus! {

/// What the controller observes of the live pod: whether a deletion is in
/// progress, and its definition normalized to the fields the controller
/// renders (server-populated fields stripped by whoever observed it).
pub struct ObservedPod {
    pub terminating: bool,
    pub rendered: Value,
}

/// A plain observation of the cluster state relevant to one node resource.
pub struct Observed {
    /// Whether the storage claim `<node>-storage` exists.
    pub claim_exists: bool,
    /// The restore job `<node>-restore-snapshot-job`, if it exists.
    pub job: Option<ObservedJob>,
    /// The pod `<node>-node`, if it exists.
    pub pod: Option<ObservedPod>,
}

/// An event record to attach to the parent resource.
#[derive(Clone, Copy, PartialEq, Eq, Structural, Debug)]
pub enum EventKind {
    StorageCreated,
    SnapshotRestoreStarted,
    SnapshotFinished,
    PodCreated,
}

/// One step of a reconciliation pass.  Creations and patches carry no
/// payload here: the caller obtains the exact object from the corresponding
/// verified renderer (`create_pvc`, `render_size_patch`, `create_job`,
/// `create_pod_def`, the status patch renderers).
#[derive(Clone, Copy, PartialEq, Eq, Structural, Debug)]
pub enum Action {
    /// Initialize an absent status (phase `Pending`, snapshot not restored).
    InitStatus,
    /// Create the storage claim rendered by `create_pvc`.
    CreateStorageClaim,
    /// Apply the size-only claim patch rendered by `render_size_patch`.
    PatchStorageSize,
    /// Create the restore job rendered by `create_job`.
    CreateRestoreJob,
    /// Latch `snapshot_restored` to true (`render_mark_restored_patch`).
    MarkSnapshotRestored,
    /// Set the phase via `render_status_patch`, which declares both the
    /// phase and the given `snapshot_restored` value for this write.
    SetStatus(StarknetNodeStatusEnum, bool),
    /// Mark the finished restore job for cluster garbage collection
    /// (`render_job_ttl_patch`).
    PatchJobTtl,
    /// Create the pod rendered by `create_pod_def`.
    CreatePod,
    /// Delete the drifted pod; the pass then requeues and recreates it.
    DeletePod,
    /// Record an event on the parent resource.
    Emit(EventKind),
}

/// What a pass returns to the runtime: the actions, then a bounded requeue.
pub struct Plan {
    pub actions: Vec<Action>,
    pub requeue_secs: u64,
}

/// Whether the observed restore job reports completion.
pub open spec fn obs_job_finished(obs: Observed) -> bool {
    match obs.job {
        Some(j) => job_finished(j.conditions@),
        None => false,
    }
}

/// A phase write, emitted only when the phase actually changes.  The write
/// declares `restored`, the flag the pass has decided.
pub open spec fn phase_actions(
    node: StarknetNode,
    target: StarknetNodeStatusEnum,
    restored: bool,
) -> Seq<Action> {
    if node.spec_phase() != target {
        seq![Action::SetStatus(target, restored)]
    } else {
        Seq::empty()
    }
}

/// The snapshot path of a pass: ensure the restore job exists and drive it
/// to completion; never touch the pod.
pub open spec fn snapshot_actions(node: StarknetNode, obs: Observed) -> Seq<Action> {
    match obs.job {
        None => seq![Action::CreateRestoreJob] + phase_actions(
            node,
            StarknetNodeStatusEnum::DownloadingSnapshot,
            false,
        ) + seq![Action::Emit(EventKind::SnapshotRestoreStarted)],
        Some(j) => if job_finished(j.conditions@) {
            // The pass has latched the restore: the phase write that follows
            // the latch patch declares the flag true, so the latch survives.
            seq![Action::MarkSnapshotRestored] + phase_actions(
                node,
                StarknetNodeStatusEnum::SnapshotDownloaded,
                true,
            ) + seq![Action::Emit(EventKind::SnapshotFinished)]
        } else {
            phase_actions(node, StarknetNodeStatusEnum::DownloadingSnapshot, false)
        },
    }
}

/// The leftover-job cleanup: a finished restore cycle leaves its job to the
/// cluster's garbage collector via a short TTL patch.
pub open spec fn cleanup_actions(obs: Observed) -> Seq<Action> {
    match obs.job {
        Some(_) => seq![Action::PatchJobTtl],
        None => Seq::empty(),
    }
}

/// The pod path of a pass: create the pod if absent; if present and
/// terminating, just requeue; if present and drifted from the freshly
/// rendered definition, delete it and requeue.
pub open spec fn pod_actions(node: StarknetNode, obs: Observed) -> Seq<Action> {
    match obs.pod {
        None => seq![Action::CreatePod, Action::Emit(EventKind::PodCreated)],
        Some(p) => if p.terminating {
            Seq::empty()
        } else if model_diff(p.rendered@, pod_model(node)) {
            seq![Action::DeletePod]
        } else {
            Seq::empty()
        },
    }
}

/// The full decision of one reconciliation pass.
pub open spec fn plan_actions(node: StarknetNode, obs: Observed) -> Seq<Action> {
    let init: Seq<Action> = if node.status is None {
        seq![Action::InitStatus]
    } else {
        Seq::empty()
    };
    let claim: Seq<Action> = if !obs.claim_exists {
        seq![Action::CreateStorageClaim, Action::Emit(EventKind::StorageCreated)]
    } else {
        Seq::empty()
    };
    let base = init + claim + seq![Action::PatchStorageSize];
    if node.spec_should_snapshot() {
        base + snapshot_actions(node, obs)
    } else {
        base + cleanup_actions(obs) + phase_actions(
            node,
            StarknetNodeStatusEnum::Pending,
            node.spec_restored(),
        ) + pod_actions(node, obs)
    }
}

/// One reconciliation pass, as a pure decision.
///
/// The returned actions are exactly `plan_actions`; the pass always ends in
/// a fixed 10-second requeue, which is how the controller polls for job and
/// pod convergence it cannot learn from watches alone.
#[verifier::rlimit(100)]
pub fn reconcile_plan(node: &StarknetNode, observed: &Observed) -> (r: Plan)
    ensures
        r.actions@ == plan_actions(*node, *observed),
        r.requeue_secs == 10,
{
    let phase = match &node.status {
        Some(s) => s.status,
        None => StarknetNodeStatusEnum::Pending,
    };
    let restored = match &node.status {
        Some(s) => s.snapshot_restored,
        None => false,
    };
    let mut actions: Vec<Action> = Vec::new();
    if node.status.is_none() {
        actions.push(Action::InitStatus);
    }
    if !observed.claim_exists {
        actions.push(Action::CreateStorageClaim);
        actions.push(Action::Emit(EventKind::StorageCreated));
    }
    actions.push(Action::PatchStorageSize);
    if node.should_snapshot() {
        match &observed.job {
            None => {
                actions.push(Action::CreateRestoreJob);
                if phase != StarknetNodeStatusEnum::DownloadingSnapshot {
                    actions.push(
                        Action::SetStatus(StarknetNodeStatusEnum::DownloadingSnapshot, false),
                    );
                }
                actions.push(Action::Emit(EventKind::SnapshotRestoreStarted));
            },
            Some(job) => {
                if node.is_job_finished(job) {
                    actions.push(Action::MarkSnapshotRestored);
                    if phase != StarknetNodeStatusEnum::SnapshotDownloaded {
                        actions.push(
                            Action::SetStatus(StarknetNodeStatusEnum::SnapshotDownloaded, true),
                        );
                    }
                    actions.push(Action::Emit(EventKind::SnapshotFinished));
                } else {
                    if phase != StarknetNodeStatusEnum::DownloadingSnapshot {
                        actions.push(
                            Action::SetStatus(StarknetNodeStatusEnum::DownloadingSnapshot, false),
                        );
                    }
                }
            },
        }
    } else {
        if observed.job.is_some() {
            actions.push(Action::PatchJobTtl);
        }
        if phase != StarknetNodeStatusEnum::Pending {
            actions.push(Action::SetStatus(StarknetNodeStatusEnum::Pending, restored));
        }
        match &observed.pod {
            None => {
                actions.push(Action::CreatePod);
                actions.push(Action::Emit(EventKind::PodCreated));
            },
            Some(p) => {
                if !p.terminating {
                    let desired = create_pod_def(node);
                    let diff = compare_values(&p.rendered, &desired);
                    if diff.non_empty() {
                        actions.push(Action::DeletePod);
                    }
                }
            },
        }
    }
    proof {
        assert(actions@ =~= plan_actions(*node, *observed));
    }
    Plan { actions, requeue_secs: 10 }
}

/// The cluster state a node has converged to: status initialized with phase
/// `Pending`, the claim present, no restore pending or in flight, and a live
/// pod that matches its freshly rendered definition.
pub open spec fn converged(node: StarknetNode, obs: Observed) -> bool {
    &&& node.status is Some
    &&& node.spec_phase() == StarknetNodeStatusEnum::Pending
    &&& !node.spec_should_snapshot()
    &&& obs.claim_exists
    &&& obs.job is None
    &&& obs.pod matches Some(p) && !p.terminating && p.rendered@ == pod_model(node)
}

/// Idempotence: a pass over a converged node issues no write beyond the
/// no-op size patch.
pub proof fn lemma_second_pass_is_noop(node: StarknetNode, obs: Observed)
    requires
        converged(node, obs),
    ensures
        plan_actions(node, obs) == seq![Action::PatchStorageSize],
{
    lemma_model_diff_self(pod_model(node));
    assert(plan_actions(node, obs) =~= seq![Action::PatchStorageSize]);
}

/// Convergence, first pass: from an empty cluster, a node with no snapshot
/// configured gets its status initialized and exactly one storage claim and
/// one pod created — and no restore job.
pub proof fn lemma_first_pass_from_empty(node: StarknetNode, obs: Observed)
    requires
        node.status is None,
        node.spec.snapshot is None,
        !obs.claim_exists,
        obs.job is None,
        obs.pod is None,
    ensures
        plan_actions(node, obs) == seq![
            Action::InitStatus,
            Action::CreateStorageClaim,
            Action::Emit(EventKind::StorageCreated),
            Action::PatchStorageSize,
            Action::CreatePod,
            Action::Emit(EventKind::PodCreated),
        ],
{
    assert(plan_actions(node, obs) =~= seq![
        Action::InitStatus,
        Action::CreateStorageClaim,
        Action::Emit(EventKind::StorageCreated),
        Action::PatchStorageSize,
        Action::CreatePod,
        Action::Emit(EventKind::PodCreated),
    ]);
}

/// Convergence: a node with no snapshot configured never gets a restore job,
/// whatever the pass observes.
pub proof fn lemma_no_snapshot_never_restore_job(node: StarknetNode, obs: Observed)
    requires
        node.spec.snapshot is None,
    ensures
        !plan_actions(node, obs).contains(Action::CreateRestoreJob),
{
    let p = plan_actions(node, obs);
    assert forall|i: int| 0 <= i < p.len() implies p[i] != Action::CreateRestoreJob by {}
}

/// Snapshot gating: while a configured snapshot is not yet restored, no pass
/// creates or deletes the pod, whether or not the restore job has finished.
pub proof fn lemma_snapshot_gates_pod(node: StarknetNode, obs: Observed)
    requires
        node.spec_should_snapshot(),
    ensures
        !plan_actions(node, obs).contains(Action::CreatePod),
        !plan_actions(node, obs).contains(Action::DeletePod),
{
    let p = plan_actions(node, obs);
    assert forall|i: int| 0 <= i < p.len() implies p[i] != Action::CreatePod && p[i]
        != Action::DeletePod by {}
}

/// Latching: once the status records the snapshot as restored, no pass
/// creates a restore job again — removing or changing the spec's snapshot
/// block makes no difference — and no pass re-initializes the status.
pub proof fn lemma_latched_never_restores(node: StarknetNode, obs: Observed)
    requires
        node.spec_restored(),
    ensures
        !plan_actions(node, obs).contains(Action::CreateRestoreJob),
        !plan_actions(node, obs).contains(Action::InitStatus),
{
    let p = plan_actions(node, obs);
    assert forall|i: int| 0 <= i < p.len() implies p[i] != Action::CreateRestoreJob && p[i]
        != Action::InitStatus by {}
}

/// The state machine drives the plan: any phase write in a pass targets
/// exactly the phase the pure transition decision picks, only when it is a
/// real change; it declares the restored flag the pass decided (true
/// exactly when the flag already holds or this pass latches it); and a pass
/// never writes the phase twice, so there are no two-step jumps.
#[verifier::rlimit(100)]
pub proof fn lemma_phase_write_follows_the_table(node: StarknetNode, obs: Observed)
    ensures
        forall|i: int|
            0 <= i < plan_actions(node, obs).len() && (#[trigger] plan_actions(node, obs)[i])
                is SetStatus ==> plan_actions(node, obs)[i]->SetStatus_0 == spec_decide_phase(
                node.spec.snapshot is Some,
                node.spec_restored(),
                obs_job_finished(obs),
            ) && plan_actions(node, obs)[i]->SetStatus_0 != node.spec_phase(),
        forall|i: int|
            0 <= i < plan_actions(node, obs).len() && (#[trigger] plan_actions(node, obs)[i])
                is SetStatus ==> plan_actions(node, obs)[i]->SetStatus_1 == (node.spec_restored()
                || (node.spec_should_snapshot() && obs_job_finished(obs))),
        forall|i: int, j: int|
            0 <= i < j < plan_actions(node, obs).len() ==> !((#[trigger] plan_actions(node, obs)[i])
                is SetStatus && (#[trigger] plan_actions(node, obs)[j]) is SetStatus),
{
}

/// A pass never duplicates a child: it creates the claim or the pod only
/// when the observation shows none.
pub proof fn lemma_creates_only_when_absent(node: StarknetNode, obs: Observed)
    ensures
        obs.pod is Some ==> !plan_actions(node, obs).contains(Action::CreatePod),
        obs.claim_exists ==> !plan_actions(node, obs).contains(Action::CreateStorageClaim),
{
    let p = plan_actions(node, obs);
    if obs.pod is Some {
        assert forall|i: int| 0 <= i < p.len() implies p[i] != Action::CreatePod by {}
    }
    if obs.claim_exists {
        assert forall|i: int| 0 <= i < p.len() implies p[i] != Action::CreateStorageClaim by {}
    }
}

/// Whether a status (possibly still absent) records the snapshot as
/// restored.
pub open spec fn status_restored(status: Option<StarknetNodeStatus>) -> bool {
    match status {
        Some(s) => s.snapshot_restored,
        None => false,
    }
}

/// The phase a status records (`Pending` while absent).
pub open spec fn status_phase(status: Option<StarknetNodeStatus>) -> StarknetNodeStatusEnum {
    match status {
        Some(s) => s.status,
        None => StarknetNodeStatusEnum::Pending,
    }
}

/// The head a status records.
pub open spec fn status_head(status: Option<StarknetNodeStatus>) -> Option<String> {
    match status {
        Some(s) => s.head,
        None => None,
    }
}

/// What executing one action does to the node's status, exactly per the
/// rendered patches: `InitStatus` fills an absent status only
/// (`render_init_status_patch`), `SetStatus(p, r)` writes the phase and the
/// declared flag (`render_status_patch(p, r)` pins both fields), and
/// `MarkSnapshotRestored` latches the flag (`render_mark_restored_patch`
/// touches nothing else).
pub open spec fn apply_status_action(
    status: Option<StarknetNodeStatus>,
    a: Action,
) -> Option<StarknetNodeStatus> {
    match a {
        Action::InitStatus => if status is None {
            Some(
                StarknetNodeStatus {
                    status: StarknetNodeStatusEnum::Pending,
                    snapshot_restored: false,
                    head: None,
                },
            )
        } else {
            status
        },
        Action::SetStatus(p, r) => Some(
            StarknetNodeStatus { status: p, snapshot_restored: r, head: status_head(status) },
        ),
        Action::MarkSnapshotRestored => Some(
            StarknetNodeStatus {
                status: status_phase(status),
                snapshot_restored: true,
                head: status_head(status),
            },
        ),
        _ => status,
    }
}

/// The status after executing a sequence of actions.
pub open spec fn apply_status_actions(
    status: Option<StarknetNodeStatus>,
    actions: Seq<Action>,
) -> Option<StarknetNodeStatus>
    decreases actions.len(),
{
    if actions.len() == 0 {
        status
    } else {
        apply_status_actions(apply_status_action(status, actions[0]), actions.drop_first())
    }
}

/// Splitting an action sequence splits its status application.
pub proof fn lemma_apply_status_concat(
    status: Option<StarknetNodeStatus>,
    a: Seq<Action>,
    b: Seq<Action>,
)
    ensures
        apply_status_actions(status, a + b) == apply_status_actions(
            apply_status_actions(status, a),
            b,
        ),
    decreases a.len(),
{
    if a.len() == 0 {
        assert(a + b =~= b);
    } else {
        assert((a + b)[0] == a[0]);
        assert((a + b).drop_first() =~= a.drop_first() + b);
        lemma_apply_status_concat(apply_status_action(status, a[0]), a.drop_first(), b);
    }
}

/// Whether every phase write in a sequence declares the restored flag as
/// true.  Every plan over a node whose status already records the restore
/// satisfies this (see `lemma_plan_keeps_latch`).
pub open spec fn phase_writes_declare_restored(actions: Seq<Action>) -> bool {
    forall|i: int|
        0 <= i < actions.len() ==> ((#[trigger] actions[i]) matches Action::SetStatus(_, r) ==> r)
}

/// Latching, over the write semantics: once `snapshot_restored` is true, no
/// sequence of writes whose phase patches declare the flag — as every
/// planned phase patch over a latched node does — ever resets it.
pub proof fn lemma_restored_is_monotone(status: Option<StarknetNodeStatus>, actions: Seq<Action>)
    requires
        status_restored(status),
        phase_writes_declare_restored(actions),
    ensures
        status_restored(apply_status_actions(status, actions)),
    decreases actions.len(),
{
    if actions.len() > 0 {
        assert(actions[0] matches Action::SetStatus(_, r) ==> r);
        assert(phase_writes_declare_restored(actions.drop_first())) by {
            assert forall|i: int|
                0 <= i < actions.drop_first().len() implies ((#[trigger] actions.drop_first()[i])
                matches Action::SetStatus(_, r) ==> r) by {
                assert(actions.drop_first()[i] == actions[i + 1]);
            }
        }
        lemma_restored_is_monotone(apply_status_action(status, actions[0]), actions.drop_first());
    }
}

/// Latching, end to end: a pass over a node whose status records the
/// restore leaves the flag set, whatever it observes and whatever the spec's
/// snapshot block now says.
pub proof fn lemma_plan_keeps_latch(node: StarknetNode, obs: Observed)
    requires
        node.spec_restored(),
    ensures
        status_restored(apply_status_actions(node.status, plan_actions(node, obs))),
{
    let p = plan_actions(node, obs);
    assert(phase_writes_declare_restored(p)) by {
        assert forall|i: int|
            0 <= i < p.len() implies ((#[trigger] p[i]) matches Action::SetStatus(_, r) ==> r) by {}
    }
    lemma_restored_is_monotone(node.status, p);
}

/// Writes that touch neither the phase nor the latch leave both alone;
/// initializing an absent status is counted here because it writes the same
/// `Pending` / not-restored values an absent status already denotes.
pub proof fn lemma_apply_non_phase_writes(status: Option<StarknetNodeStatus>, actions: Seq<Action>)
    requires
        forall|i: int|
            0 <= i < actions.len() ==> !((#[trigger] actions[i]) is SetStatus) && !(actions[i]
                is MarkSnapshotRestored),
    ensures
        status_restored(apply_status_actions(status, actions)) == status_restored(status),
        status_phase(apply_status_actions(status, actions)) == status_phase(status),
    decreases actions.len(),
{
    if actions.len() > 0 {
        assert(!(actions[0] is SetStatus) && !(actions[0] is MarkSnapshotRestored));
        assert forall|i: int|
            0 <= i < actions.drop_first().len() implies !((#[trigger] actions.drop_first()[i])
            is SetStatus) && !(actions.drop_first()[i] is MarkSnapshotRestored) by {
            assert(actions.drop_first()[i] == actions[i + 1]);
        }
        lemma_apply_non_phase_writes(apply_status_action(status, actions[0]), actions.drop_first());
    }
}

/// The latch pass latches: when a configured snapshot's restore job reports
/// completion, the pass's writes end with `snapshot_restored` true and the
/// phase at `SnapshotDownloaded` — the transition that latches the flag
/// permanently.
#[verifier::rlimit(100)]
pub proof fn lemma_latch_pass_latches(node: StarknetNode, obs: Observed)
    requires
        node.spec_should_snapshot(),
        obs_job_finished(obs),
    ensures
        status_restored(apply_status_actions(node.status, plan_actions(node, obs))),
        status_phase(apply_status_actions(node.status, plan_actions(node, obs)))
            == StarknetNodeStatusEnum::SnapshotDownloaded,
{
    reveal_with_fuel(apply_status_actions, 3);
    let init: Seq<Action> = if node.status is None {
        seq![Action::InitStatus]
    } else {
        Seq::empty()
    };
    let claim: Seq<Action> = if !obs.claim_exists {
        seq![Action::CreateStorageClaim, Action::Emit(EventKind::StorageCreated)]
    } else {
        Seq::empty()
    };
    let base = init + claim + seq![Action::PatchStorageSize];
    let ph = phase_actions(node, StarknetNodeStatusEnum::SnapshotDownloaded, true);
    let tail = seq![Action::MarkSnapshotRestored] + ph + seq![
        Action::Emit(EventKind::SnapshotFinished),
    ];
    assert(plan_actions(node, obs) == base + tail);
    lemma_apply_status_concat(node.status, base, tail);
    let s1 = apply_status_actions(node.status, base);
    assert forall|i: int|
        0 <= i < base.len() implies !((#[trigger] base[i]) is SetStatus) && !(base[i]
        is MarkSnapshotRestored) by {}
    lemma_apply_non_phase_writes(node.status, base);
    assert(status_restored(s1) == node.spec_restored());
    assert(status_phase(s1) == node.spec_phase());
    // the tail: latch, then a phase write that declares the flag true
    assert(tail =~= seq![Action::MarkSnapshotRestored] + (ph + seq![
        Action::Emit(EventKind::SnapshotFinished),
    ]));
    lemma_apply_status_concat(s1, seq![Action::MarkSnapshotRestored], ph + seq![
        Action::Emit(EventKind::SnapshotFinished),
    ]);
    let s2 = apply_status_actions(s1, seq![Action::MarkSnapshotRestored]);
    assert(seq![Action::MarkSnapshotRestored].drop_first().len() == 0);
    assert(s2 == apply_status_action(s1, Action::MarkSnapshotRestored));
    assert(status_restored(s2));
    assert(status_phase(s2) == node.spec_phase());
    lemma_apply_status_concat(s2, ph, seq![Action::Emit(EventKind::SnapshotFinished)]);
    let s3 = apply_status_actions(s2, ph);
    if node.spec_phase() == StarknetNodeStatusEnum::SnapshotDownloaded {
        assert(ph.len() == 0);
        assert(s3 == s2);
    } else {
        assert(ph.len() == 1);
        assert(ph[0] == Action::SetStatus(StarknetNodeStatusEnum::SnapshotDownloaded, true));
        assert(ph.drop_first().len() == 0);
        assert(s3 == apply_status_action(s2, ph[0]));
    }
    assert(status_restored(s3));
    assert(status_phase(s3) == StarknetNodeStatusEnum::SnapshotDownloaded);
    let s4 = apply_status_actions(s3, seq![Action::Emit(EventKind::SnapshotFinished)]);
    assert(seq![Action::Emit(EventKind::SnapshotFinished)].drop_first().len() == 0);
    assert(s4 == apply_status_action(s3, Action::Emit(EventKind::SnapshotFinished)));
}

/// Drift triggers recreation: a live pod that is not terminating and differs
/// structurally from its freshly rendered definition is deleted — exactly
/// one delete, as the last step of the pass — and nothing is created in its
/// place within the same pass; the next pass, observing no pod, creates the
/// freshly rendered definition (`pod_actions`).
pub proof fn lemma_drift_deletes_pod(node: StarknetNode, obs: Observed)
    requires
        !node.spec_should_snapshot(),
        obs.pod matches Some(p) && !p.terminating && model_diff(p.rendered@, pod_model(node)),
    ensures
        plan_actions(node, obs).contains(Action::DeletePod),
        forall|i: int|
            0 <= i < plan_actions(node, obs).len() && (#[trigger] plan_actions(node, obs)[i])
                == Action::DeletePod ==> i == plan_actions(node, obs).len() - 1,
        !plan_actions(node, obs).contains(Action::CreatePod),
{
    let p = plan_actions(node, obs);
    assert(p[p.len() - 1] == Action::DeletePod);
    assert forall|i: int| 0 <= i < p.len() implies p[i] != Action::CreatePod by {}
    assert forall|i: int|
        0 <= i < p.len() - 1 implies (#[trigger] p[i]) != Action::DeletePod by {}
}

/// Completeness of drift detection, end to end: a live pod whose normalized
/// observation is well formed, shares the rendered pod's layout, and differs
/// from it in any field at all — one value, one entry, one length — is
/// deleted by the pass.
pub proof fn lemma_any_difference_recreates_pod(node: StarknetNode, obs: Observed)
    requires
        node_resources_unique(node),
        !node.spec_should_snapshot(),
        obs.pod matches Some(p) && !p.terminating && model_wf(p.rendered@) && same_layout(
            p.rendered@,
            pod_model(node),
        ) && p.rendered@ != pod_model(node),
    ensures
        plan_actions(node, obs).contains(Action::DeletePod),
{
    let p = obs.pod->0;
    lemma_pod_model_wf(node);
    if !model_diff(p.rendered@, pod_model(node)) {
        lemma_empty_diff_means_equal(p.rendered@, pod_model(node));
    }
    lemma_drift_deletes_pod(node, obs);
}

/// Structurally identical objects never trigger a delete: a live pod whose
/// normalized definition equals the rendered one is left alone.
pub proof fn lemma_identical_pod_kept(node: StarknetNode, obs: Observed)
    requires
        obs.pod matches Some(p) && p.rendered@ == pod_model(node),
    ensures
        !plan_actions(node, obs).contains(Action::DeletePod),
{
    lemma_model_diff_self(pod_model(node));
    let p = plan_actions(node, obs);
    assert forall|i: int| 0 <= i < p.len() implies p[i] != Action::DeletePod by {}
}

/// Immutability: once the claim exists it is never re-created, and the one
/// write it receives is the size-only patch (which, by
/// `lemma_size_patch_never_mentions_class`, carries no storage class).
pub proof fn lemma_existing_claim_only_size_patch(node: StarknetNode, obs: Observed)
    requires
        obs.claim_exists,
    ensures
        !plan_actions(node, obs).contains(Action::CreateStorageClaim),
        plan_actions(node, obs).contains(Action::PatchStorageSize),
{
    let p = plan_actions(node, obs);
    assert forall|i: int| 0 <= i < p.len() implies p[i] != Action::CreateStorageClaim by {}
    let init: Seq<Action> = if node.status is None {
        seq![Action::InitStatus]
    } else {
        Seq::empty()
    };
    assert(p[init.len() as int] == Action::PatchStorageSize);
}

} // verus!
