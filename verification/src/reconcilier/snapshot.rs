//! Snapshot-restore orchestration: the restore predicate, the completion
//! rule over job conditions, the restore job rendering, and the short-TTL
//! cleanup patch.

use vstd::prelude::*;

use crate::crd::{prefixed, StarknetNode, StarknetSnapshot};
use crate::k8s_helper::{
    env_var_model, metadata_model, mount_model, render_env_var, render_metadata, render_mount,
};
use crate::reconcilier::pvc::{claim_spec_entries, render_claim_spec};
use crate::value::{entries_model, seq_model, Value, ValueModel};

verus! {

/// One entry of a job's reported condition list.
pub struct JobCondition {
    /// The condition type, e.g. `Complete` or `Failed`.
    pub type_: String,
    /// The condition status: `True`, `False` or `Unknown`.
    pub status: String,
}

/// What the controller observes of the restore job: its condition list.
pub struct ObservedJob {
    pub conditions: Vec<JobCondition>,
}

/// A job is finished exactly when its condition set contains a `Complete`
/// condition whose status is `True`.
pub open spec fn job_finished(conditions: Seq<JobCondition>) -> bool {
    exists|i: int|
        0 <= i < conditions.len() && (#[trigger] conditions[i]).type_@ == "Complete"@
            && conditions[i].status@ == "True"@
}

/// The name of the node's restore job.
pub fn get_job_name(obj: &StarknetNode) -> (r: String)
    ensures
        r@ == prefixed(obj.name@, "restore-snapshot-job"@),
{
    obj.get_prefixed_name("restore-snapshot-job")
}

impl StarknetNode {
    /// The snapshot configuration, if one is set.
    pub fn snapshot_info(&self) -> (r: &Option<StarknetSnapshot>)
        ensures
            r == &self.spec.snapshot,
    {
        &self.spec.snapshot
    }

    /// Restore is needed exactly when a snapshot is configured and the status
    /// does not record it as restored yet.  Re-evaluated every pass.
    pub open spec fn spec_should_snapshot(&self) -> bool {
        self.spec.snapshot is Some && !self.spec_restored()
    }

    /// Whether this pass must drive the restore job rather than the pod.
    pub fn should_snapshot(&self) -> (r: bool)
        ensures
            r == self.spec_should_snapshot(),
    {
        let has_snapshot_config = self.spec.snapshot.is_some();
        let has_already_snapshotted = match &self.status {
            Some(s) => s.snapshot_restored,
            None => false,
        };
        has_snapshot_config && !has_already_snapshotted
    }

    /// Whether the observed restore job reports completion.
    #[verifier::loop_isolation(false)]
    pub fn is_job_finished(&self, job: &ObservedJob) -> (r: bool)
        ensures
            r == job_finished(job.conditions@),
    {
        let complete = "Complete".to_owned();
        let status_true = "True".to_owned();
        let mut i: usize = 0;
        let n = job.conditions.len();
        while i < n
            invariant
                n == job.conditions@.len(),
                i <= n,
                forall|j: int|
                    0 <= j < i ==> !((#[trigger] job.conditions@[j]).type_@ == "Complete"@
                        && job.conditions@[j].status@ == "True"@),
            decreases n - i,
        {
            let cond = &job.conditions[i];
            let type_matches = cond.type_ == complete;
            let status_matches = cond.status == status_true;
            if type_matches && status_matches {
                proof {
                    assert(job.conditions@[i as int].type_@ == "Complete"@);
                    assert(job.conditions@[i as int].status@ == "True"@);
                }
                return true;
            }
            proof {
                assert(!(job.conditions@[i as int].type_@ == "Complete"@
                    && job.conditions@[i as int].status@ == "True"@));
            }
            i += 1;
        }
        false
    }
}

/// The environment of the restore container: network, file name, checksum,
/// and the optional transfer endpoint.
pub open spec fn job_env_model(node: StarknetNode) -> Seq<ValueModel> {
    match node.spec.snapshot {
        Some(sn) => seq![
            env_var_model("PATHFINDER_NETWORK"@, node.spec.network@),
            env_var_model("PATHFINDER_FILE_NAME"@, sn.file_name@),
            env_var_model("PATHFINDER_CHECKSUM"@, sn.checksum@),
        ] + (match sn.rsync_config {
            Some(u) => seq![env_var_model("PATHFINDER_DOWNLOAD_URL"@, u@)],
            None => Seq::empty(),
        }),
        None => Seq::empty(),
    }
}

/// The restore job's single container.
pub open spec fn job_container_model(node: StarknetNode) -> ValueModel {
    ValueModel::Obj(
        seq![
            ("name"@, ValueModel::Str("snapshot-downloader"@)),
            (
                "image"@,
                ValueModel::Str("ghcr.io/runelabsxyz/pathfinder-snapshotter:latest"@),
            ),
            ("env"@, ValueModel::Arr(job_env_model(node))),
            (
                "volumeMounts"@,
                ValueModel::Arr(
                    seq![
                        mount_model("snapshot-scratch"@, "/scratch"@),
                        mount_model("data"@, "/data"@),
                    ],
                ),
            ),
        ],
    )
}

/// The ephemeral scratch volume, sized per the snapshot's storage spec.
pub open spec fn scratch_volume_model(sn: StarknetSnapshot) -> ValueModel {
    ValueModel::Obj(
        seq![
            ("name"@, ValueModel::Str("snapshot-scratch"@)),
            (
                "ephemeral"@,
                ValueModel::Obj(
                    seq![
                        (
                            "volumeClaimTemplate"@,
                            ValueModel::Obj(
                                seq![
                                    (
                                        "metadata"@,
                                        ValueModel::Obj(
                                            seq![
                                                (
                                                    "labels"@,
                                                    ValueModel::Obj(
                                                        seq![
                                                            (
                                                                "type"@,
                                                                ValueModel::Str(
                                                                    "pathfinder-snapshot-scratch"@,
                                                                ),
                                                            ),
                                                        ],
                                                    ),
                                                ),
                                            ],
                                        ),
                                    ),
                                    ("spec"@, ValueModel::Obj(claim_spec_entries(sn.storage))),
                                ],
                            ),
                        ),
                    ],
                ),
            ),
        ],
    )
}

/// The data volume: the node's storage claim mounted read-write.
pub open spec fn data_volume_model(node: StarknetNode) -> ValueModel {
    ValueModel::Obj(
        seq![
            ("name"@, ValueModel::Str("data"@)),
            (
                "persistentVolumeClaim"@,
                ValueModel::Obj(
                    seq![("claimName"@, ValueModel::Str(prefixed(node.name@, "storage"@)))],
                ),
            ),
        ],
    )
}

/// The restore job rendered for a node: one container, restart disabled,
/// scratch and data volumes.
pub open spec fn job_model(node: StarknetNode) -> ValueModel {
    ValueModel::Obj(
        seq![
            (
                "metadata"@,
                metadata_model(node, prefixed(node.name@, "restore-snapshot-job"@)),
            ),
            (
                "spec"@,
                ValueModel::Obj(
                    seq![
                        (
                            "template"@,
                            ValueModel::Obj(
                                seq![
                                    (
                                        "spec"@,
                                        ValueModel::Obj(
                                            seq![
                                                (
                                                    "containers"@,
                                                    ValueModel::Arr(seq![job_container_model(node)]),
                                                ),
                                                ("restartPolicy"@, ValueModel::Str("Never"@)),
                                                (
                                                    "volumes"@,
                                                    ValueModel::Arr(
                                                        seq![
                                                            scratch_volume_model(
                                                                node.spec.snapshot->0,
                                                            ),
                                                            data_volume_model(node),
                                                        ],
                                                    ),
                                                ),
                                            ],
                                        ),
                                    ),
                                ],
                            ),
                        ),
                    ],
                ),
            ),
        ],
    )
}

/// Renders the restore job for a node with a configured snapshot.
pub fn create_job(node: &StarknetNode) -> (r: Value)
    requires
        node.spec.snapshot is Some,
    ensures
        r@ == job_model(*node),
{
    let sn = match &node.spec.snapshot {
        Some(sn) => sn,
        None => {
            proof {
                assert(false);
            }
            return Value::Null;
        },
    };
    // environment
    let mut env: Vec<Value> = Vec::new();
    env.push(render_env_var("PATHFINDER_NETWORK", node.spec.network.as_str()));
    env.push(render_env_var("PATHFINDER_FILE_NAME", sn.file_name.as_str()));
    env.push(render_env_var("PATHFINDER_CHECKSUM", sn.checksum.as_str()));
    match &sn.rsync_config {
        Some(u) => {
            env.push(render_env_var("PATHFINDER_DOWNLOAD_URL", u.as_str()));
        },
        None => {},
    }
    let ghost envg = env@;
    let env_value = Value::Array(env);
    proof {
        assert(seq_model(envg) =~= job_env_model(*node));
    }
    // mounts
    let mut mounts: Vec<Value> = Vec::new();
    mounts.push(render_mount("snapshot-scratch", "/scratch"));
    mounts.push(render_mount("data", "/data"));
    let ghost mountsg = mounts@;
    let mounts_value = Value::Array(mounts);
    proof {
        assert(seq_model(mountsg) =~= seq![
            mount_model("snapshot-scratch"@, "/scratch"@),
            mount_model("data"@, "/data"@),
        ]);
    }
    // container
    let mut cont: Vec<(String, Value)> = Vec::new();
    cont.push(("name".to_owned(), Value::Str("snapshot-downloader".to_owned())));
    cont.push((
        "image".to_owned(),
        Value::Str("ghcr.io/runelabsxyz/pathfinder-snapshotter:latest".to_owned()),
    ));
    cont.push(("env".to_owned(), env_value));
    cont.push(("volumeMounts".to_owned(), mounts_value));
    let cont_value = Value::Object(cont);
    proof {
        assert(entries_model(cont_value->Object_0@) =~= job_container_model(*node)->Obj_0);
    }
    let mut conts: Vec<Value> = Vec::new();
    conts.push(cont_value);
    let ghost contsg = conts@;
    let conts_value = Value::Array(conts);
    proof {
        assert(seq_model(contsg) =~= seq![job_container_model(*node)]);
    }
    // scratch volume
    let mut labels: Vec<(String, Value)> = Vec::new();
    labels.push(("type".to_owned(), Value::Str("pathfinder-snapshot-scratch".to_owned())));
    let labels_value = Value::Object(labels);
    proof {
        assert(entries_model(labels_value->Object_0@) =~= seq![
            ("type"@, ValueModel::Str("pathfinder-snapshot-scratch"@)),
        ]);
    }
    let mut tmeta: Vec<(String, Value)> = Vec::new();
    tmeta.push(("labels".to_owned(), labels_value));
    let tmeta_value = Value::Object(tmeta);
    proof {
        assert(entries_model(tmeta_value->Object_0@) =~= seq![
            (
                "labels"@,
                ValueModel::Obj(
                    seq![("type"@, ValueModel::Str("pathfinder-snapshot-scratch"@))],
                ),
            ),
        ]);
    }
    let tspec_value = render_claim_spec(&sn.storage);
    let mut tmpl: Vec<(String, Value)> = Vec::new();
    tmpl.push(("metadata".to_owned(), tmeta_value));
    tmpl.push(("spec".to_owned(), tspec_value));
    let tmpl_value = Value::Object(tmpl);
    proof {
        assert(entries_model(tmpl_value->Object_0@) =~= scratch_volume_model(
            *sn,
        )->Obj_0[1].1->Obj_0[0].1->Obj_0);
    }
    let mut eph: Vec<(String, Value)> = Vec::new();
    eph.push(("volumeClaimTemplate".to_owned(), tmpl_value));
    let eph_value = Value::Object(eph);
    proof {
        assert(entries_model(eph_value->Object_0@) =~= scratch_volume_model(
            *sn,
        )->Obj_0[1].1->Obj_0);
    }
    let mut sv: Vec<(String, Value)> = Vec::new();
    sv.push(("name".to_owned(), Value::Str("snapshot-scratch".to_owned())));
    sv.push(("ephemeral".to_owned(), eph_value));
    let scratch_value = Value::Object(sv);
    proof {
        assert(entries_model(scratch_value->Object_0@) =~= scratch_volume_model(*sn)->Obj_0);
    }
    // data volume
    let mut dc: Vec<(String, Value)> = Vec::new();
    dc.push(("claimName".to_owned(), Value::Str(node.get_prefixed_name("storage"))));
    let dc_value = Value::Object(dc);
    proof {
        assert(entries_model(dc_value->Object_0@) =~= seq![
            ("claimName"@, ValueModel::Str(prefixed(node.name@, "storage"@))),
        ]);
    }
    let mut dv: Vec<(String, Value)> = Vec::new();
    dv.push(("name".to_owned(), Value::Str("data".to_owned())));
    dv.push(("persistentVolumeClaim".to_owned(), dc_value));
    let data_value = Value::Object(dv);
    proof {
        assert(entries_model(data_value->Object_0@) =~= data_volume_model(*node)->Obj_0);
    }
    let mut vols: Vec<Value> = Vec::new();
    vols.push(scratch_value);
    vols.push(data_value);
    let ghost volsg = vols@;
    let vols_value = Value::Array(vols);
    proof {
        assert(seq_model(volsg) =~= seq![
            scratch_volume_model(node.spec.snapshot->0),
            data_volume_model(*node),
        ]);
    }
    // template spec
    let mut ts: Vec<(String, Value)> = Vec::new();
    ts.push(("containers".to_owned(), conts_value));
    ts.push(("restartPolicy".to_owned(), Value::Str("Never".to_owned())));
    ts.push(("volumes".to_owned(), vols_value));
    let ts_value = Value::Object(ts);
    proof {
        assert(entries_model(ts_value->Object_0@) =~= job_model(
            *node,
        )->Obj_0[1].1->Obj_0[0].1->Obj_0[0].1->Obj_0);
    }
    let mut tpl: Vec<(String, Value)> = Vec::new();
    tpl.push(("spec".to_owned(), ts_value));
    let tpl_value = Value::Object(tpl);
    proof {
        assert(entries_model(tpl_value->Object_0@) =~= job_model(
            *node,
        )->Obj_0[1].1->Obj_0[0].1->Obj_0);
    }
    let mut js: Vec<(String, Value)> = Vec::new();
    js.push(("template".to_owned(), tpl_value));
    let js_value = Value::Object(js);
    proof {
        assert(entries_model(js_value->Object_0@) =~= job_model(*node)->Obj_0[1].1->Obj_0);
    }
    let mut top: Vec<(String, Value)> = Vec::new();
    top.push(("metadata".to_owned(), render_metadata(node, get_job_name(node))));
    top.push(("spec".to_owned(), js_value));
    let r = Value::Object(top);
    proof {
        assert(entries_model(r->Object_0@) =~= job_model(*node)->Obj_0);
    }
    r
}

/// The short time-to-live patch applied to a finished restore job so the
/// cluster's own garbage collector removes it; the controller never deletes
/// the job directly.
pub open spec fn job_ttl_patch_model() -> ValueModel {
    ValueModel::Obj(
        seq![
            ("apiVersion"@, ValueModel::Str("batch/v1"@)),
            ("kind"@, ValueModel::Str("Job"@)),
            (
                "spec"@,
                ValueModel::Obj(seq![("ttlSecondsAfterFinished"@, ValueModel::Int(1))]),
            ),
        ],
    )
}

/// Renders the cleanup patch for the restore job.
pub fn render_job_ttl_patch() -> (r: Value)
    ensures
        r@ == job_ttl_patch_model(),
{
    let mut sp: Vec<(String, Value)> = Vec::new();
    sp.push(("ttlSecondsAfterFinished".to_owned(), Value::Int(1)));
    let sp_value = Value::Object(sp);
    proof {
        assert(entries_model(sp_value->Object_0@) =~= seq![
            ("ttlSecondsAfterFinished"@, ValueModel::Int(1)),
        ]);
    }
    let mut top: Vec<(String, Value)> = Vec::new();
    top.push(("apiVersion".to_owned(), Value::Str("batch/v1".to_owned())));
    top.push(("kind".to_owned(), Value::Str("Job".to_owned())));
    top.push(("spec".to_owned(), sp_value));
    let r = Value::Object(top);
    proof {
        assert(entries_model(r->Object_0@) =~= job_ttl_patch_model()->Obj_0);
    }
    r
}

} // verus!
