//! Scenarios for the replica request builders behind the transport routes.

use stor_core::error::SvcError;
use stor_core::ids::{Protocol, ReplicaShareProtocol, ResourceKind};
use stor_core::service::{
    destroy_replica, put_replica, share_replica, unshare_replica, CreateReplicaBody, Filter,
};

fn body() -> CreateReplicaBody {
    CreateReplicaBody {
        size: 1024,
        thin: false,
        share: Protocol::Off,
    }
}

#[test]
fn put_replica_with_full_filter_builds_the_request() {
    let filter = Filter::NodePoolReplica(
        "node-a".to_string(),
        "pool-1".to_string(),
        "r1".to_string(),
    );
    let req = put_replica(&filter, &body(), None).unwrap();
    assert_eq!(req.node, "node-a".to_string());
    assert_eq!(req.pool_id, "pool-1".to_string());
    assert_eq!(req.uuid, "r1".to_string());
    assert_eq!(req.size, 1024);
    assert_eq!(req.name, None);
    assert_eq!(req.pool_uuid, None);
}

#[test]
fn put_replica_with_pool_filter_uses_the_resolved_node() {
    let filter = Filter::PoolReplica("pool-1".to_string(), "r1".to_string());
    let req = put_replica(&filter, &body(), Some(&"node-b".to_string())).unwrap();
    assert_eq!(req.node, "node-b".to_string());
}

#[test]
fn put_replica_without_resolved_node_reports_pool_not_found() {
    let filter = Filter::PoolReplica("pool-1".to_string(), "r1".to_string());
    let r = put_replica(&filter, &body(), None);
    assert_eq!(
        r,
        Err(SvcError::NotFound {
            kind: ResourceKind::Pool,
            uuid: "pool-1".to_string(),
        })
    );
}

#[test]
fn put_replica_with_unusable_filter_is_invalid_arguments() {
    let r = put_replica(&Filter::Node("node-a".to_string()), &body(), None);
    assert_eq!(r, Err(SvcError::InvalidArguments));
}

#[test]
fn destroy_replica_builders() {
    let full = Filter::NodePoolReplica(
        "node-a".to_string(),
        "pool-1".to_string(),
        "r1".to_string(),
    );
    let req = destroy_replica(&full, None).unwrap();
    assert_eq!(req.node, "node-a".to_string());
    assert_eq!(req.uuid, "r1".to_string());
    let pool = Filter::PoolReplica("pool-1".to_string(), "r1".to_string());
    let r = destroy_replica(&pool, None);
    assert_eq!(
        r,
        Err(SvcError::NotFound {
            kind: ResourceKind::Replica,
            uuid: "r1".to_string(),
        })
    );
    assert_eq!(
        destroy_replica(&Filter::All, None),
        Err(SvcError::InvalidArguments)
    );
}

#[test]
fn share_replica_builders() {
    let full = Filter::NodePoolReplica(
        "node-a".to_string(),
        "pool-1".to_string(),
        "r1".to_string(),
    );
    let req = share_replica(&full, ReplicaShareProtocol::Nvmf, None).unwrap();
    assert_eq!(req.protocol, ReplicaShareProtocol::Nvmf);
    assert_eq!(req.node, "node-a".to_string());
    let pool = Filter::PoolReplica("pool-1".to_string(), "r1".to_string());
    let req = share_replica(&pool, ReplicaShareProtocol::Nvmf, Some(&"node-c".to_string()))
        .unwrap();
    assert_eq!(req.node, "node-c".to_string());
    assert_eq!(
        share_replica(&Filter::Replica("r1".to_string()), ReplicaShareProtocol::Nvmf, None),
        Err(SvcError::InvalidArguments)
    );
}

#[test]
fn unshare_replica_builders() {
    let full = Filter::NodePoolReplica(
        "node-a".to_string(),
        "pool-1".to_string(),
        "r1".to_string(),
    );
    let req = unshare_replica(&full, None).unwrap();
    assert_eq!(req.node, "node-a".to_string());
    let pool = Filter::PoolReplica("pool-1".to_string(), "r1".to_string());
    let r = unshare_replica(&pool, None);
    assert_eq!(
        r,
        Err(SvcError::NotFound {
            kind: ResourceKind::Replica,
            uuid: "r1".to_string(),
        })
    );
}
