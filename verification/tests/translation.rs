//! Scenarios for the wire translation layer: branch coverage of the destroy
//! request's pool reference, identifier validation, decode fallbacks, batch
//! policies and timestamps.

use stor_core::error::SvcError;
use stor_core::ids::{EpochTime, Protocol, ResourceKind};
use stor_core::nexus::{ChildState, ChildStateReason};
use stor_core::replica::{CreateReplica, DestroyReplica, HostNqn};
use stor_core::snapshot::RebuildJobState;
use stor_core::translation::{
    protocol_of_uri, rpc_pools_to_agent, rpc_replica_to_agent, rpc_replicas_to_agent,
};
use stor_core::wire;

const UUID_A: &str = "f0db5924-5c51-4db9-97a8-1fefebbf26f1";
const UUID_B: &str = "6fbda4a2-0788-43f5-a5f5-e8313a3f1c1c";
const UUID_C: &str = "2f805e11-b480-4d60-8e4b-b167ac55c324";

fn destroy_request(pool_uuid: Option<String>) -> DestroyReplica {
    DestroyReplica {
        node: "node-a".to_string(),
        pool_id: "pool-1".to_string(),
        pool_uuid,
        name: None,
        uuid: UUID_A.to_string(),
    }
}

#[test]
fn destroy_with_pool_uuid_maps_to_by_uuid_reference() {
    let rpc = destroy_request(Some(UUID_B.to_string())).to_rpc();
    assert_eq!(rpc.pool, Some(wire::PoolRef::PoolUuid(UUID_B.to_string())));
    assert_eq!(rpc.uuid, UUID_A.to_string());
}

#[test]
fn destroy_without_pool_uuid_maps_to_by_name_reference() {
    let rpc = destroy_request(None).to_rpc();
    assert_eq!(rpc.pool, Some(wire::PoolRef::PoolName("pool-1".to_string())));
}

#[test]
fn create_replica_wire_name_defaults_to_uuid() {
    let create = CreateReplica {
        node: "node-a".to_string(),
        name: None,
        uuid: UUID_A.to_string(),
        pool_id: "pool-1".to_string(),
        pool_uuid: None,
        size: 1024,
        thin: true,
        share: Protocol::Nvmf,
        allowed_hosts: vec![],
    };
    let rpc = create.to_rpc();
    assert_eq!(rpc.name, UUID_A.to_string());
    // without a pool uuid the pool name stands in
    assert_eq!(rpc.pooluuid, "pool-1".to_string());
    assert_eq!(rpc.share, 1);
    let named = CreateReplica {
        name: Some("r-one".to_string()),
        ..create
    };
    assert_eq!(named.to_rpc().name, "r-one".to_string());
}

fn wire_replica() -> wire::Replica {
    wire::Replica {
        name: "r1".to_string(),
        uuid: UUID_A.to_string(),
        pooluuid: UUID_B.to_string(),
        poolname: "pool-1".to_string(),
        thin: false,
        size: 1024,
        share: 1,
        uri: "nvmf://host/r1".to_string(),
        usage: None,
        allowed_hosts: vec!["nqn.2019-05.io:node-a".to_string(), "bogus".to_string()],
    }
}

#[test]
fn replica_translation_validates_uuid_and_classifies_hosts() {
    let replica = rpc_replica_to_agent(&wire_replica(), &"node-a".to_string()).unwrap();
    assert_eq!(replica.node, "node-a".to_string());
    assert_eq!(replica.uuid, UUID_A.to_string());
    assert_eq!(replica.pool_uuid, Some(UUID_B.to_string()));
    assert_eq!(replica.share, Protocol::Nvmf);
    assert_eq!(
        replica.allowed_hosts,
        vec![
            HostNqn::Nqn("nqn.2019-05.io:node-a".to_string()),
            HostNqn::Invalid {
                nqn: "bogus".to_string()
            },
        ]
    );
}

#[test]
fn malformed_replica_uuid_is_rejected_with_invalid_uuid() {
    let mut bad = wire_replica();
    bad.uuid = "not-a-uuid".to_string();
    let r = rpc_replica_to_agent(&bad, &"node-a".to_string());
    assert_eq!(
        r,
        Err(SvcError::InvalidUuid {
            kind: ResourceKind::Replica,
            uuid: "not-a-uuid".to_string(),
        })
    );
}

#[test]
fn malformed_pool_uuid_is_rejected_with_invalid_uuid() {
    let mut bad = wire_replica();
    bad.pooluuid = "xyz".to_string();
    let r = rpc_replica_to_agent(&bad, &"node-a".to_string());
    assert_eq!(
        r,
        Err(SvcError::InvalidUuid {
            kind: ResourceKind::Replica,
            uuid: "xyz".to_string(),
        })
    );
}

#[test]
fn replica_batch_skips_malformed_records() {
    let mut bad = wire_replica();
    bad.uuid = "broken".to_string();
    let mut third = wire_replica();
    third.uuid = UUID_C.to_string();
    let list = vec![wire_replica(), bad, third];
    let out = rpc_replicas_to_agent(&list, &"node-a".to_string());
    assert_eq!(out.len(), 2);
    assert_eq!(out[0].uuid, UUID_A.to_string());
    assert_eq!(out[1].uuid, UUID_C.to_string());
}

#[test]
fn pool_translation_suppresses_unreported_commitment() {
    let pool = wire::Pool {
        name: "pool-1".to_string(),
        disks: vec!["/dev/sda".to_string()],
        state: 1,
        capacity: 100,
        used: 10,
        committed: 0,
    };
    let agent = rpc_pools_to_agent(&vec![pool], &"node-a".to_string());
    assert_eq!(agent.len(), 1);
    assert_eq!(agent[0].committed, None);
    assert_eq!(agent[0].node, "node-a".to_string());
    let idle = wire::Pool {
        name: "pool-2".to_string(),
        disks: vec![],
        state: 0,
        capacity: 100,
        used: 0,
        committed: 0,
    };
    let agent = rpc_pools_to_agent(&vec![idle], &"node-a".to_string());
    assert_eq!(agent[0].committed, Some(0));
}

fn wire_child(state: i32, reason: i32, progress: i32) -> wire::Child {
    wire::Child {
        uri: "bdev:///c1".to_string(),
        state,
        rebuild_progress: progress,
        state_reason: reason,
        fault_timestamp: None,
        has_io_log: false,
    }
}

#[test]
fn nexus_translation_decodes_children_and_share_scheme() {
    let nexus = wire::Nexus {
        name: "nexus-1".to_string(),
        uuid: UUID_A.to_string(),
        size: 50,
        state: 2,
        children: vec![wire_child(1, 6, 50), wire_child(99, 99, -1)],
        device_uri: "nvmf://host/n1".to_string(),
        rebuilds: 1,
        allowed_hosts: vec![],
    };
    let agent = nexus.try_to_agent().unwrap();
    assert_eq!(agent.share, Protocol::Nvmf);
    assert_eq!(agent.children[0].state, ChildState::Online);
    assert_eq!(agent.children[0].state_reason, ChildStateReason::IoError);
    assert_eq!(agent.children[0].rebuild_progress, Some(50));
    // values outside the wire tables fall back rather than fail
    assert_eq!(agent.children[1].state, ChildState::Unknown);
    assert_eq!(agent.children[1].state_reason, ChildStateReason::Unknown);
    assert_eq!(agent.children[1].rebuild_progress, None);
}

#[test]
fn nexus_with_malformed_uuid_is_rejected() {
    let nexus = wire::Nexus {
        name: "nexus-1".to_string(),
        uuid: "nope".to_string(),
        size: 50,
        state: 1,
        children: vec![],
        device_uri: String::new(),
        rebuilds: 0,
        allowed_hosts: vec![],
    };
    assert_eq!(
        nexus.try_to_agent(),
        Err(SvcError::InvalidUuid {
            kind: ResourceKind::Nexus,
            uuid: "nope".to_string(),
        })
    );
}

#[test]
fn device_uri_scheme_selects_protocol() {
    assert_eq!(protocol_of_uri("nvmf://host/n1"), Protocol::Nvmf);
    assert_eq!(protocol_of_uri("iscsi://host/n1"), Protocol::Iscsi);
    assert_eq!(protocol_of_uri("nbd://host/n1"), Protocol::Nbd);
    assert_eq!(protocol_of_uri(""), Protocol::Off);
    assert_eq!(protocol_of_uri("file:///n1"), Protocol::Off);
}

#[test]
fn rebuild_history_aborts_on_first_bad_record() {
    let good = wire::RebuildHistoryRecord {
        child_uri: "bdev:///c1".to_string(),
        src_uri: "bdev:///c2".to_string(),
        state: 5,
        blocks_total: 100,
        blocks_recovered: 100,
        blocks_transferred: 100,
        blocks_remaining: 0,
        blocks_per_task: 10,
        block_size: 512,
        is_partial: false,
        start_time: Some(wire::Timestamp {
            seconds: 10,
            nanos: 0,
        }),
        end_time: Some(wire::Timestamp {
            seconds: 20,
            nanos: 500,
        }),
    };
    let bad = wire::RebuildHistoryRecord {
        child_uri: "bdev:///c1".to_string(),
        src_uri: "no-scheme".to_string(),
        state: 5,
        blocks_total: 100,
        blocks_recovered: 100,
        blocks_transferred: 100,
        blocks_remaining: 0,
        blocks_per_task: 10,
        block_size: 512,
        is_partial: false,
        start_time: Some(wire::Timestamp {
            seconds: 10,
            nanos: 0,
        }),
        end_time: Some(wire::Timestamp {
            seconds: 20,
            nanos: 500,
        }),
    };
    let resp = wire::RebuildHistoryResponse {
        nexus: UUID_A.to_string(),
        records: vec![good, bad],
    };
    let r = resp.try_to_agent();
    assert_eq!(
        r,
        Err(SvcError::InvalidUuid {
            kind: ResourceKind::Child,
            uuid: "no-scheme".to_string(),
        })
    );
}

#[test]
fn rebuild_history_converts_complete_records() {
    let record = wire::RebuildHistoryRecord {
        child_uri: "bdev:///c1".to_string(),
        src_uri: "bdev:///c2".to_string(),
        state: 5,
        blocks_total: 100,
        blocks_recovered: 100,
        blocks_transferred: 100,
        blocks_remaining: 0,
        blocks_per_task: 10,
        block_size: 512,
        is_partial: false,
        start_time: Some(wire::Timestamp {
            seconds: 10,
            nanos: 0,
        }),
        end_time: Some(wire::Timestamp {
            seconds: 20,
            nanos: 500,
        }),
    };
    let resp = wire::RebuildHistoryResponse {
        nexus: UUID_A.to_string(),
        records: vec![record],
    };
    let history = resp.try_to_agent().unwrap();
    assert_eq!(history.uuid, UUID_A.to_string());
    assert_eq!(history.records.len(), 1);
    assert_eq!(history.records[0].state, RebuildJobState::Completed);
    assert_eq!(
        history.records[0].start_time,
        EpochTime { secs: 10, nanos: 0 }
    );
    assert_eq!(
        history.records[0].end_time,
        EpochTime {
            secs: 20,
            nanos: 500
        }
    );
}

#[test]
fn rebuild_record_without_instant_is_invalid_arguments() {
    let record = wire::RebuildHistoryRecord {
        child_uri: "bdev:///c1".to_string(),
        src_uri: "bdev:///c2".to_string(),
        state: 0,
        blocks_total: 0,
        blocks_recovered: 0,
        blocks_transferred: 0,
        blocks_remaining: 0,
        blocks_per_task: 0,
        block_size: 512,
        is_partial: true,
        start_time: None,
        end_time: None,
    };
    let resp = wire::RebuildHistoryResponse {
        nexus: UUID_A.to_string(),
        records: vec![record],
    };
    assert_eq!(resp.try_to_agent(), Err(SvcError::InvalidArguments));
}

#[test]
fn snapshot_response_without_nexus_is_invalid_arguments() {
    let resp = wire::NexusCreateSnapshotResponse {
        nexus: None,
        snapshot_timestamp: None,
        replicas_done: vec![],
        replicas_skipped: vec![],
    };
    assert_eq!(resp.try_to_agent(), Err(SvcError::InvalidArguments));
}

#[test]
fn snapshot_response_translates_statuses_and_defaults_time() {
    let resp = wire::NexusCreateSnapshotResponse {
        nexus: Some(wire::Nexus {
            name: "nexus-1".to_string(),
            uuid: UUID_A.to_string(),
            size: 50,
            state: 1,
            children: vec![],
            device_uri: String::new(),
            rebuilds: 0,
            allowed_hosts: vec![],
        }),
        snapshot_timestamp: Some(wire::Timestamp {
            seconds: -5,
            nanos: 0,
        }),
        replicas_done: vec![wire::NexusCreateSnapshotReplicaStatus {
            replica_uuid: UUID_B.to_string(),
            status_code: 0,
        }],
        replicas_skipped: vec![UUID_C.to_string()],
    };
    let agent = resp.try_to_agent().unwrap();
    // a timestamp denoting no instant falls back to the epoch
    assert_eq!(agent.snap_time, EpochTime { secs: 0, nanos: 0 });
    assert_eq!(agent.replicas_status.len(), 1);
    assert_eq!(agent.replicas_status[0].replica_uuid, UUID_B.to_string());
    assert_eq!(agent.skipped, vec![UUID_C.to_string()]);
}

#[test]
fn replica_snapshot_uuid_checked_before_replica_uuid() {
    let snap = wire::ReplicaSnapshot {
        snapshot_uuid: "bad".to_string(),
        snapshot_name: "s1".to_string(),
        snapshot_size: 10,
        num_clones: 0,
        timestamp: None,
        replica_uuid: "also-bad".to_string(),
        replica_size: 10,
        entity_id: "v1".to_string(),
        txn_id: "1".to_string(),
        valid_snapshot: true,
    };
    let resp = wire::CreateReplicaSnapshotResponse {
        snapshot: Some(snap),
    };
    assert_eq!(
        resp.try_to_agent(),
        Err(SvcError::InvalidUuid {
            kind: ResourceKind::ReplicaSnapshot,
            uuid: "bad".to_string(),
        })
    );
}

#[test]
fn block_device_translation_fills_placeholders() {
    let device = wire::BlockDevice {
        devname: "sda".to_string(),
        devtype: "disk".to_string(),
        devmajor: 8,
        devminor: 0,
        model: "m".to_string(),
        devpath: "/dev/sda".to_string(),
        devlinks: vec![],
        size: 1000,
        partition: None,
        filesystem: Some(wire::Filesystem {
            fstype: "ext4".to_string(),
            label: String::new(),
            uuid: UUID_A.to_string(),
            mountpoints: vec!["/mnt".to_string(), "/other".to_string()],
        }),
        available: true,
    };
    let agent = device.to_agent();
    assert_eq!(agent.partition.parent, String::new());
    assert_eq!(agent.partition.number, 0);
    assert_eq!(agent.filesystem.mountpoint, "/mnt".to_string());
}
