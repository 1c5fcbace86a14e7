//! Scenarios for the nexus- and pool-side wire requests and the identifier
//! validators.

use stor_core::ids::{validate_uuid, NexusShareProtocol};
use stor_core::nexus::{
    AddNexusChild, CreateNexus, DestroyNexus, NexusChildAction, NexusChildActionKind,
    NexusNvmfConfig, NexusNvmePreemption, NvmeReservation, ShareNexus, ShutdownNexus,
    UnshareNexus,
};
use stor_core::pool::{CreatePool, DestroyPool, ImportPool};
use stor_core::snapshot::{
    CreateNexusSnapReplDescr, CreateNexusSnapshot, CreateReplicaSnapshot, GetRebuildRecord,
    SnapshotParams,
};

#[test]
fn uuid_validation_accepts_canonical_form_only() {
    assert!(validate_uuid("f0db5924-5c51-4db9-97a8-1fefebbf26f1"));
    assert!(validate_uuid("F0DB5924-5C51-4DB9-97A8-1FEFEBBF26F1"));
    assert!(!validate_uuid(""));
    assert!(!validate_uuid("f0db5924"));
    // hyphen out of place
    assert!(!validate_uuid("f0db59245-c51-4db9-97a8-1fefebbf26f1"));
    // non-hex character
    assert!(!validate_uuid("g0db5924-5c51-4db9-97a8-1fefebbf26f1"));
    // right length, no hyphens
    assert!(!validate_uuid("f0db59245c514db997a81fefebbf26f1abcd"));
}

#[test]
fn create_nexus_without_config_uses_the_no_preemption_default() {
    let create = CreateNexus {
        node: "node-a".to_string(),
        uuid: "n1".to_string(),
        name: "nexus-1".to_string(),
        size: 50,
        children: vec!["bdev:///c1".to_string()],
        managed: true,
        nexus_info_key: "n1".to_string(),
        config: None,
    };
    let rpc = create.to_rpc();
    assert_eq!(rpc.min_cntl_id, 1);
    assert_eq!(rpc.max_cntl_id, 0xffef);
    assert_eq!(rpc.resv_key, 1);
    assert_eq!(rpc.preempt_key, 0);
    // write-exclusive-all-registrants, preempting the holder
    assert_eq!(rpc.resv_type, Some(5));
    assert_eq!(rpc.preempt_policy, 1);
    assert_eq!(rpc.children, vec!["bdev:///c1".to_string()]);
}

#[test]
fn create_nexus_with_config_encodes_it() {
    let create = CreateNexus {
        node: "node-a".to_string(),
        uuid: "n1".to_string(),
        name: "nexus-1".to_string(),
        size: 50,
        children: vec![],
        managed: true,
        nexus_info_key: "n1".to_string(),
        config: Some(NexusNvmfConfig {
            min_cntl_id: 5,
            max_cntl_id: 6,
            resv_key: 42,
            preempt_key: 43,
            resv_type: NvmeReservation::ExclusiveAccess,
            preempt_policy: NexusNvmePreemption::ArgKey(Some(42)),
        }),
    };
    let rpc = create.to_rpc();
    assert_eq!(rpc.min_cntl_id, 5);
    assert_eq!(rpc.resv_key, 42);
    assert_eq!(rpc.preempt_key, 43);
    assert_eq!(rpc.resv_type, Some(2));
    assert_eq!(rpc.preempt_policy, 0);
}

#[test]
fn share_nexus_key_defaults_to_empty() {
    let share = ShareNexus {
        node: "node-a".to_string(),
        uuid: "n1".to_string(),
        key: None,
        protocol: NexusShareProtocol::Nvmf,
        allowed_hosts: vec![],
    };
    let rpc = share.to_rpc();
    assert_eq!(rpc.key, String::new());
    assert_eq!(rpc.share, 1);
    let keyed = ShareNexus {
        key: Some("secret".to_string()),
        ..share
    };
    assert_eq!(keyed.to_rpc().key, "secret".to_string());
}

#[test]
fn child_requests_carry_nexus_and_uri() {
    let add = AddNexusChild {
        node: "node-a".to_string(),
        nexus: "n1".to_string(),
        uri: "bdev:///c1".to_string(),
        auto_rebuild: true,
    };
    let rpc = add.to_rpc();
    assert_eq!(rpc.uuid, "n1".to_string());
    assert!(!rpc.norebuild);
    let action = NexusChildAction {
        nexus: "n1".to_string(),
        uri: "bdev:///c1".to_string(),
        action: NexusChildActionKind::Retire,
    };
    assert_eq!(action.to_rpc().action, 2);
    assert_eq!(
        DestroyNexus {
            node: "node-a".to_string(),
            uuid: "n1".to_string()
        }
        .to_rpc()
        .uuid,
        "n1".to_string()
    );
    assert_eq!(
        UnshareNexus {
            node: "node-a".to_string(),
            uuid: "n1".to_string()
        }
        .to_rpc()
        .uuid,
        "n1".to_string()
    );
    assert_eq!(
        ShutdownNexus {
            uuid: "n1".to_string()
        }
        .to_rpc()
        .uuid,
        "n1".to_string()
    );
}

#[test]
fn snapshot_requests_carry_params() {
    let params = SnapshotParams {
        uuid: "s1".to_string(),
        name: "snap-1".to_string(),
        entity: "v1".to_string(),
        txn_id: "7".to_string(),
    };
    let req = CreateNexusSnapshot {
        nexus: "n1".to_string(),
        params,
        replica_desc: vec![CreateNexusSnapReplDescr {
            replica: "r1".to_string(),
            snap_uuid: "rs1".to_string(),
        }],
    };
    let rpc = req.to_rpc();
    assert_eq!(rpc.nexus_uuid, "n1".to_string());
    assert_eq!(rpc.snapshot_name, "snap-1".to_string());
    assert_eq!(rpc.txn_id, "7".to_string());
    assert_eq!(rpc.replicas.len(), 1);
    assert_eq!(rpc.replicas[0].replica_uuid, "r1".to_string());
    assert_eq!(rpc.replicas[0].snapshot_uuid, Some("rs1".to_string()));
    assert!(!rpc.replicas[0].skip);

    let replica_snap = CreateReplicaSnapshot {
        replica: "r1".to_string(),
        params: SnapshotParams {
            uuid: "s1".to_string(),
            name: "snap-1".to_string(),
            entity: "v1".to_string(),
            txn_id: "7".to_string(),
        },
    };
    let rpc = replica_snap.to_rpc();
    assert_eq!(rpc.replica_uuid, "r1".to_string());
    assert_eq!(rpc.snapshot_uuid, "s1".to_string());

    assert_eq!(
        GetRebuildRecord {
            nexus: "n1".to_string()
        }
        .to_rpc()
        .uuid,
        "n1".to_string()
    );
}

#[test]
fn pool_requests_are_lvs_without_uuid() {
    let create = CreatePool {
        node: "node-a".to_string(),
        id: "pool-1".to_string(),
        disks: vec!["/dev/sda".to_string()],
    };
    let rpc = create.to_rpc();
    assert_eq!(rpc.name, "pool-1".to_string());
    assert_eq!(rpc.uuid, None);
    assert_eq!(rpc.pooltype, 0);
    assert_eq!(
        DestroyPool {
            node: "node-a".to_string(),
            id: "pool-1".to_string()
        }
        .to_rpc()
        .name,
        "pool-1".to_string()
    );
    let import = ImportPool {
        node: "node-a".to_string(),
        id: "pool-1".to_string(),
        disks: vec!["/dev/sda".to_string()],
    };
    assert_eq!(import.to_rpc().disks, vec!["/dev/sda".to_string()]);
}
