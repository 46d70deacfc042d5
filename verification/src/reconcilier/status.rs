//! Status handling: the pure lifecycle transition decision, and the
//! field-scoped status patches the controller writes.  A phase patch
//! declares both the phase and the `snapshot_restored` value the pass
//! decided, so no write sequence the planner emits ever clears the latch.

use vstd::prelude::*;

use crate::crd::StarknetNodeStatusEnum;
use crate::value::{entries_model, Value, ValueModel};

verus! {

/// The wire label of a lifecycle phase.
pub open spec fn phase_label(p: StarknetNodeStatusEnum) -> Seq<char> {
    match p {
        StarknetNodeStatusEnum::Pending => "Pending"@,
        StarknetNodeStatusEnum::DownloadingSnapshot => "DownloadingSnapshot"@,
        StarknetNodeStatusEnum::SnapshotDownloaded => "SnapshotDownloaded"@,
        StarknetNodeStatusEnum::CatchingUp => "CatchingUp"@,
        StarknetNodeStatusEnum::Ready => "Ready"@,
        StarknetNodeStatusEnum::Failed => "Failed"@,
    }
}

/// Renders the wire label of a lifecycle phase.
pub fn render_phase_label(p: StarknetNodeStatusEnum) -> (r: String)
    ensures
        r@ == phase_label(p),
{
    match p {
        StarknetNodeStatusEnum::Pending => "Pending".to_owned(),
        StarknetNodeStatusEnum::DownloadingSnapshot => "DownloadingSnapshot".to_owned(),
        StarknetNodeStatusEnum::SnapshotDownloaded => "SnapshotDownloaded".to_owned(),
        StarknetNodeStatusEnum::CatchingUp => "CatchingUp".to_owned(),
        StarknetNodeStatusEnum::Ready => "Ready".to_owned(),
        StarknetNodeStatusEnum::Failed => "Failed".to_owned(),
    }
}

/// The next phase, decided purely from what the pass observes: downloading
/// while a configured snapshot is not yet restored, `SnapshotDownloaded` the
/// moment the restore job reports completion, and `Pending` as the pre-pod
/// baseline otherwise.
pub open spec fn spec_decide_phase(
    snapshot_configured: bool,
    restored: bool,
    job_reports_complete: bool,
) -> StarknetNodeStatusEnum {
    if snapshot_configured && !restored {
        if job_reports_complete {
            StarknetNodeStatusEnum::SnapshotDownloaded
        } else {
            StarknetNodeStatusEnum::DownloadingSnapshot
        }
    } else {
        StarknetNodeStatusEnum::Pending
    }
}

/// The pure lifecycle transition decision, kept separate from the I/O that
/// applies it.
pub fn decide_phase(snapshot_configured: bool, restored: bool, job_reports_complete: bool) -> (r:
    StarknetNodeStatusEnum)
    ensures
        r == spec_decide_phase(snapshot_configured, restored, job_reports_complete),
{
    if snapshot_configured && !restored {
        if job_reports_complete {
            StarknetNodeStatusEnum::SnapshotDownloaded
        } else {
            StarknetNodeStatusEnum::DownloadingSnapshot
        }
    } else {
        StarknetNodeStatusEnum::Pending
    }
}

/// The status object written by a phase patch: it declares the phase and
/// the `snapshot_restored` value the pass has decided — the value already on
/// the node, or true in the pass that latches the restore.
pub open spec fn status_patch_model(phase: StarknetNodeStatusEnum, restored: bool) -> ValueModel {
    ValueModel::Obj(
        seq![
            ("apiVersion"@, ValueModel::Str("runelabs.xyz/v1alpha1"@)),
            ("kind"@, ValueModel::Str("StarknetNode"@)),
            (
                "status"@,
                ValueModel::Obj(
                    seq![
                        ("snapshot_restored"@, ValueModel::Bool(restored)),
                        ("status"@, ValueModel::Str(phase_label(phase))),
                    ],
                ),
            ),
        ],
    )
}

/// Renders the field-scoped patch that sets the node's phase and declares
/// the given `snapshot_restored` value.  The planner passes the flag it has
/// decided for the pass, so a phase patch written after the latch patch
/// declares true and never resets the latch.
pub fn render_status_patch(phase: StarknetNodeStatusEnum, restored: bool) -> (r: Value)
    ensures
        r@ == status_patch_model(phase, restored),
{
    let mut st: Vec<(String, Value)> = Vec::new();
    st.push(("snapshot_restored".to_owned(), Value::Bool(restored)));
    st.push(("status".to_owned(), Value::Str(render_phase_label(phase))));
    let st_value = Value::Object(st);
    proof {
        assert(entries_model(st_value->Object_0@) =~= status_patch_model(
            phase,
            restored,
        )->Obj_0[2].1->Obj_0);
    }
    let mut top: Vec<(String, Value)> = Vec::new();
    top.push(("apiVersion".to_owned(), Value::Str("runelabs.xyz/v1alpha1".to_owned())));
    top.push(("kind".to_owned(), Value::Str("StarknetNode".to_owned())));
    top.push(("status".to_owned(), st_value));
    let r = Value::Object(top);
    proof {
        assert(entries_model(r->Object_0@) =~= status_patch_model(phase, restored)->Obj_0);
    }
    r
}

/// The status object written when no status exists yet: phase `Pending`,
/// snapshot not restored.
pub open spec fn init_status_patch_model() -> ValueModel {
    ValueModel::Obj(
        seq![
            ("apiVersion"@, ValueModel::Str("runelabs.xyz/v1alpha1"@)),
            ("kind"@, ValueModel::Str("StarknetNode"@)),
            (
                "status"@,
                ValueModel::Obj(
                    seq![
                        ("snapshot_restored"@, ValueModel::Bool(false)),
                        ("status"@, ValueModel::Str("Pending"@)),
                    ],
                ),
            ),
        ],
    )
}

/// Renders the patch that initializes an absent status.
pub fn render_init_status_patch() -> (r: Value)
    ensures
        r@ == init_status_patch_model(),
{
    let mut st: Vec<(String, Value)> = Vec::new();
    st.push(("snapshot_restored".to_owned(), Value::Bool(false)));
    st.push(("status".to_owned(), Value::Str("Pending".to_owned())));
    let st_value = Value::Object(st);
    proof {
        assert(entries_model(st_value->Object_0@) =~= init_status_patch_model()->Obj_0[2].1->Obj_0);
    }
    let mut top: Vec<(String, Value)> = Vec::new();
    top.push(("apiVersion".to_owned(), Value::Str("runelabs.xyz/v1alpha1".to_owned())));
    top.push(("kind".to_owned(), Value::Str("StarknetNode".to_owned())));
    top.push(("status".to_owned(), st_value));
    let r = Value::Object(top);
    proof {
        assert(entries_model(r->Object_0@) =~= init_status_patch_model()->Obj_0);
    }
    r
}

/// The merge patch that latches `snapshot_restored` to true.  No patch the
/// controller renders ever sets it back to false.
pub open spec fn mark_restored_patch_model() -> ValueModel {
    ValueModel::Obj(
        seq![
            (
                "status"@,
                ValueModel::Obj(seq![("snapshot_restored"@, ValueModel::Bool(true))]),
            ),
        ],
    )
}

/// Renders the patch that records the snapshot restore as finished.
pub fn render_mark_restored_patch() -> (r: Value)
    ensures
        r@ == mark_restored_patch_model(),
{
    let mut st: Vec<(String, Value)> = Vec::new();
    st.push(("snapshot_restored".to_owned(), Value::Bool(true)));
    let st_value = Value::Object(st);
    proof {
        assert(entries_model(st_value->Object_0@) =~= mark_restored_patch_model()->Obj_0[0].1->Obj_0);
    }
    let mut top: Vec<(String, Value)> = Vec::new();
    top.push(("status".to_owned(), st_value));
    let r = Value::Object(top);
    proof {
        assert(entries_model(r->Object_0@) =~= mark_restored_patch_model()->Obj_0);
    }
    r
}

} // verus!
