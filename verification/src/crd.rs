//! The node custom resource: user-owned spec, controller-owned status, and
//! the identity the controller needs to render child objects.

use vstd::prelude::*;

verus! {

use vstd::string::StringExecFns;

/// Reference to the secret entry that holds the L1 RPC URL.
pub struct SecretKeyRef {
    /// Name of the secret object.
    pub name: String,
    /// Key within the secret.
    pub key: String,
}

/// Named resource quantities (requests and limits) allocated to the node.
pub struct ResourceRequirements {
    pub requests: Vec<(String, String)>,
    pub limits: Vec<(String, String)>,
}

/// Storage configuration: requested size and optional storage class.
/// The class is immutable after creation; the controller never patches it.
pub struct Storage {
    pub size: String,
    pub class: Option<String>,
}

/// The snapshot of the database, used to accelerate the catch-up process.
pub struct StarknetSnapshot {
    /// The name of the snapshot file.
    pub file_name: String,
    /// The checksum of the snapshot file.
    pub checksum: String,
    /// Optional transfer configuration for downloading the snapshot.
    pub rsync_config: Option<String>,
    /// The scratch storage configuration for the restore job.
    pub storage: Storage,
}

/// The user-owned spec of a node resource.
pub struct StarknetNodeSpec {
    /// The network used by the node.
    pub network: String,
    /// The snapshot of the node resource (if set).
    pub snapshot: Option<StarknetSnapshot>,
    /// The secret that contains the RPC URL for L1 interactions.
    pub l1_rpc_secret: SecretKeyRef,
    /// The allocated resources for the node.
    pub resources: ResourceRequirements,
    /// Disk size and class.
    pub storage: Storage,
}

/// Lifecycle phase of a node resource.
#[derive(Clone, Copy, PartialEq, Eq, Structural, Debug)]
pub enum StarknetNodeStatusEnum {
    /// The node is pending to be created.
    Pending,
    /// The node is downloading the snapshot from the remote snapshot service.
    DownloadingSnapshot,
    /// The snapshot has been downloaded, preparing to start the main pod.
    SnapshotDownloaded,
    /// The node is catching up with the network.
    CatchingUp,
    /// The node is ready to accept requests.
    Ready,
    /// An error occurred on this node, so it is not ready to accept requests.
    Failed,
}

/// Controller-owned status of a node resource.
pub struct StarknetNodeStatus {
    pub status: StarknetNodeStatusEnum,
    /// Monotone: once true, the controller never resets it.
    pub snapshot_restored: bool,
    pub head: Option<String>,
}

/// A node custom resource as the controller observes it: namespaced identity
/// plus spec and status.
pub struct StarknetNode {
    pub name: String,
    pub namespace: String,
    /// The cluster-assigned unique id, carried into owner references.
    pub uid: String,
    pub spec: StarknetNodeSpec,
    pub status: Option<StarknetNodeStatus>,
}

/// `name`, `"-"` and `suffix`, the naming scheme of every child object.
pub open spec fn prefixed(name: Seq<char>, suffix: Seq<char>) -> Seq<char> {
    name + "-"@ + suffix
}

impl StarknetNode {
    /// Gets the prefixed name of a resource dependant on the node.
    pub fn get_prefixed_name(&self, value: &str) -> (r: String)
        ensures
            r@ == prefixed(self.name@, value@),
    {
        self.name.clone().concat("-").concat(value)
    }

    /// Whether the status records the snapshot as already restored.
    pub open spec fn spec_restored(&self) -> bool {
        match self.status {
            Some(s) => s.snapshot_restored,
            None => false,
        }
    }

    /// The phase the status records (`Pending` while no status exists yet).
    pub open spec fn spec_phase(&self) -> StarknetNodeStatusEnum {
        match self.status {
            Some(s) => s.status,
            None => StarknetNodeStatusEnum::Pending,
        }
    }
}

} // verus!
