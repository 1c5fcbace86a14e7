//! Scenarios for the Spec/Operation transaction engine on the volume, pool
//! and nexus instantiations.

use stor_core::error::SvcError;
use stor_core::ids::{
    NexusShareProtocol, Protocol, ReplicaShareProtocol, ResourceKind, SpecState,
    VolumeShareProtocol,
};
use stor_core::nexus::{CreateNexus, NexusOperation, NexusSpec};
use stor_core::pool::{CreatePool, PoolOperation, PoolSpec, PoolStatus};
use stor_core::replica::{CreateReplica, ReplicaOperation, ReplicaSpec, ReplicaStatus};
use stor_core::transaction::{OperationRecord, SpecTransaction};
use stor_core::volume::{CreateVolume, VolumeSpec, VolumeOperation};

fn volume_request() -> CreateVolume {
    CreateVolume {
        uuid: "v1".to_string(),
        size: 100,
        replicas: 3,
    }
}

fn fresh_volume() -> VolumeSpec {
    VolumeSpec::from_request(&volume_request())
}

#[test]
fn fresh_volume_spec_has_no_pending_op() {
    let spec = fresh_volume();
    assert!(!spec.pending_op());
    assert!(!spec.updating);
    assert!(spec.operation.is_none());
    assert_eq!(spec.num_replicas, 3);
    assert_eq!(spec.size, 100);
    assert_eq!(spec.protocol, Protocol::Off);
    assert_eq!(spec.num_paths, 1);
    assert_eq!(spec.state, SpecState::Creating);
    assert_eq!(spec.target_node, None);
}

#[test]
fn fresh_pool_spec_has_no_pending_op() {
    let spec = PoolSpec::from_request(&CreatePool {
        node: "node-a".to_string(),
        id: "pool-1".to_string(),
        disks: vec!["/dev/sda".to_string()],
    });
    assert!(!spec.pending_op());
    assert!(!spec.updating);
    assert!(spec.operation.is_none());
}

#[test]
fn fresh_nexus_spec_has_no_pending_op() {
    let spec = NexusSpec::from_request(&nexus_request());
    assert!(!spec.pending_op());
    assert!(!spec.updating);
    assert!(spec.operation.is_none());
}

#[test]
fn start_op_sets_pending_and_updating() {
    let mut spec = fresh_volume();
    let r = spec.start_op(VolumeOperation::AddReplica);
    assert!(r.is_ok());
    assert!(spec.pending_op());
    assert!(spec.updating);
    assert_eq!(
        spec.operation,
        Some(OperationRecord {
            operation: VolumeOperation::AddReplica,
            result: None,
        })
    );
}

#[test]
fn second_start_op_yields_operation_conflict() {
    let mut spec = fresh_volume();
    spec.start_op(VolumeOperation::AddReplica).unwrap();
    let r = spec.start_op(VolumeOperation::Unshare);
    assert_eq!(
        r,
        Err(SvcError::OperationConflict {
            kind: ResourceKind::Volume,
            uuid: "v1".to_string(),
        })
    );
    // the pending record is untouched
    assert_eq!(
        spec.operation,
        Some(OperationRecord {
            operation: VolumeOperation::AddReplica,
            result: None,
        })
    );
    assert!(spec.updating);
}

#[test]
fn add_replica_commit_increments_by_one() {
    let mut spec = fresh_volume();
    spec.start_op(VolumeOperation::AddReplica).unwrap();
    spec.commit_op();
    assert_eq!(spec.num_replicas, 4);
    assert!(!spec.pending_op());
    assert!(!spec.updating);
}

#[test]
fn failed_op_then_clear_leaves_fields_unchanged() {
    let mut spec = fresh_volume();
    spec.start_op(VolumeOperation::Share(VolumeShareProtocol::Nvmf))
        .unwrap();
    spec.set_op_result(false);
    // the record is kept with the outcome, only the updating flag drops
    assert_eq!(
        spec.operation,
        Some(OperationRecord {
            operation: VolumeOperation::Share(VolumeShareProtocol::Nvmf),
            result: Some(false),
        })
    );
    assert!(!spec.updating);
    spec.clear_op();
    assert_eq!(spec, fresh_volume());
}

#[test]
fn commit_op_twice_is_a_no_op_the_second_time() {
    let mut spec = fresh_volume();
    spec.start_op(VolumeOperation::Unshare).unwrap();
    spec.commit_op();
    let mut replay = fresh_volume();
    replay.start_op(VolumeOperation::Unshare).unwrap();
    replay.commit_op();
    spec.commit_op();
    assert_eq!(spec, replay);
}

#[test]
fn remove_replica_at_zero_is_rejected_at_start_op() {
    let mut spec = VolumeSpec::from_request(&CreateVolume {
        uuid: "v1".to_string(),
        size: 100,
        replicas: 0,
    });
    assert_eq!(spec.num_replicas, 0);
    let r = spec.start_op(VolumeOperation::RemoveReplica);
    assert_eq!(r, Err(SvcError::InvalidArguments));
    // nothing was recorded and the fields are untouched
    assert!(!spec.pending_op());
    assert!(!spec.updating);
    assert_eq!(spec.num_replicas, 0);
}

#[test]
fn remove_replica_commit_decrements_by_one() {
    let mut spec = fresh_volume();
    spec.start_op(VolumeOperation::RemoveReplica).unwrap();
    spec.commit_op();
    assert_eq!(spec.num_replicas, 2);
}

#[test]
fn add_replica_at_max_is_rejected_at_start_op() {
    let mut spec = VolumeSpec::from_request(&CreateVolume {
        uuid: "v1".to_string(),
        size: 100,
        replicas: 255,
    });
    let r = spec.start_op(VolumeOperation::AddReplica);
    assert_eq!(r, Err(SvcError::InvalidArguments));
    assert_eq!(spec.num_replicas, 255);
}

#[test]
fn publish_and_unpublish_rewrite_target_and_protocol() {
    let mut spec = fresh_volume();
    spec.start_op(VolumeOperation::Publish((
        "node-a".to_string(),
        Some(VolumeShareProtocol::Iscsi),
    )))
    .unwrap();
    spec.commit_op();
    assert_eq!(spec.target_node, Some("node-a".to_string()));
    assert_eq!(spec.protocol, Protocol::Iscsi);
    spec.start_op(VolumeOperation::Unpublish).unwrap();
    spec.commit_op();
    assert_eq!(spec.target_node, None);
    assert_eq!(spec.protocol, Protocol::Off);
}

#[test]
fn publish_without_protocol_leaves_volume_unshared() {
    let mut spec = fresh_volume();
    spec.start_op(VolumeOperation::Publish(("node-b".to_string(), None)))
        .unwrap();
    spec.commit_op();
    assert_eq!(spec.target_node, Some("node-b".to_string()));
    assert_eq!(spec.protocol, Protocol::Off);
}

#[test]
fn set_op_result_without_pending_op_only_drops_updating() {
    let mut spec = fresh_volume();
    spec.set_op_result(true);
    assert_eq!(spec, fresh_volume());
}

#[test]
fn pool_create_commit_moves_lifecycle_to_created() {
    let mut spec = PoolSpec::from_request(&CreatePool {
        node: "node-a".to_string(),
        id: "pool-1".to_string(),
        disks: vec!["/dev/sda".to_string()],
    });
    spec.start_op(PoolOperation::Create).unwrap();
    spec.commit_op();
    assert_eq!(spec.state, SpecState::Created(PoolStatus::Online));
    // creating again would move the lifecycle backwards: rejected
    let r = spec.start_op(PoolOperation::Create);
    assert_eq!(r, Err(SvcError::InvalidArguments));
    spec.start_op(PoolOperation::Destroy).unwrap();
    spec.commit_op();
    assert_eq!(spec.state, SpecState::Deleted);
}

fn replica_request() -> CreateReplica {
    CreateReplica {
        node: "node-a".to_string(),
        name: None,
        uuid: "r1".to_string(),
        pool_id: "pool-1".to_string(),
        pool_uuid: None,
        size: 1024,
        thin: false,
        share: Protocol::Off,
        allowed_hosts: vec![],
    }
}

#[test]
fn fresh_replica_spec_has_no_pending_op_and_names_itself() {
    let spec = ReplicaSpec::from_request(&replica_request());
    assert!(!spec.pending_op());
    assert!(!spec.updating);
    assert!(spec.operation.is_none());
    // no explicit name: the uuid stands in
    assert_eq!(spec.name, "r1".to_string());
    assert_eq!(spec.state, SpecState::Creating);
}

#[test]
fn replica_share_and_unshare_rewrite_the_protocol() {
    let mut spec = ReplicaSpec::from_request(&replica_request());
    spec.start_op(ReplicaOperation::Create).unwrap();
    spec.commit_op();
    assert_eq!(spec.state, SpecState::Created(ReplicaStatus::Online));
    // creating again would move the lifecycle backwards: rejected
    assert_eq!(
        spec.start_op(ReplicaOperation::Create),
        Err(SvcError::InvalidArguments)
    );
    spec.start_op(ReplicaOperation::Share(ReplicaShareProtocol::Nvmf))
        .unwrap();
    spec.commit_op();
    assert_eq!(spec.share, Protocol::Nvmf);
    spec.start_op(ReplicaOperation::Unshare).unwrap();
    spec.commit_op();
    assert_eq!(spec.share, Protocol::Off);
}

fn nexus_request() -> CreateNexus {
    CreateNexus {
        node: "node-a".to_string(),
        uuid: "n1".to_string(),
        name: "nexus-1".to_string(),
        size: 50,
        children: vec!["bdev:///c1".to_string(), "bdev:///c2".to_string()],
        managed: true,
        nexus_info_key: "n1".to_string(),
        config: None,
    }
}

#[test]
fn nexus_add_child_appends_uri() {
    let mut spec = NexusSpec::from_request(&nexus_request());
    spec.start_op(NexusOperation::AddChild("bdev:///c3".to_string()))
        .unwrap();
    spec.commit_op();
    assert_eq!(
        spec.children,
        vec![
            "bdev:///c1".to_string(),
            "bdev:///c2".to_string(),
            "bdev:///c3".to_string()
        ]
    );
}

#[test]
fn nexus_remove_child_drops_every_occurrence() {
    let mut spec = NexusSpec::from_request(&CreateNexus {
        children: vec![
            "bdev:///c1".to_string(),
            "bdev:///c2".to_string(),
            "bdev:///c1".to_string(),
        ],
        ..nexus_request()
    });
    spec.start_op(NexusOperation::RemoveChild("bdev:///c1".to_string()))
        .unwrap();
    spec.commit_op();
    assert_eq!(spec.children, vec!["bdev:///c2".to_string()]);
}

#[test]
fn nexus_share_shutdown_effects() {
    let mut spec = NexusSpec::from_request(&nexus_request());
    spec.start_op(NexusOperation::Share(NexusShareProtocol::Nvmf))
        .unwrap();
    spec.commit_op();
    assert_eq!(spec.share, Protocol::Nvmf);
    spec.start_op(NexusOperation::Shutdown).unwrap();
    spec.commit_op();
    assert!(spec.shutdown);
    spec.start_op(NexusOperation::Unshare).unwrap();
    spec.commit_op();
    assert_eq!(spec.share, Protocol::Off);
}
