//! Scenarios for the replica server: dispatch through a test service and the
//! reply envelopes.

use stor_core::ids::{Protocol, ResourceKind};
use stor_core::replica::{
    CreateReplica, DestroyReplica, Replica, ReplicaStatus, ShareReplica, UnshareReplica,
};
use stor_core::server::{
    CreateReplicaReplyKind, GetReplicasReplyKind, GetReplicasRequest, ReplicaOperations,
    ReplicaServer, ReplyError, ReplyErrorKind, ShareReplicaReplyKind,
};
use stor_core::service::Filter;
use stor_core::error::SvcError;

/// A service double: answers creations with a replica echoing the request,
/// fails destroys, and lists one fixed replica.
struct TestService;

fn sample_replica(uuid: &str) -> Replica {
    Replica {
        node: "node-a".to_string(),
        name: uuid.to_string(),
        uuid: uuid.to_string(),
        pool_id: "pool-1".to_string(),
        pool_uuid: None,
        thin: false,
        size: 1024,
        space: None,
        share: Protocol::Off,
        uri: String::new(),
        status: ReplicaStatus::Online,
        allowed_hosts: vec![],
    }
}

fn internal_error() -> ReplyError {
    ReplyError {
        kind: ReplyErrorKind::Internal,
        resource: ResourceKind::Replica,
        source: "test".to_string(),
        extra: "destroy failed".to_string(),
    }
}

impl ReplicaOperations for TestService {
    fn create(&self, req: &CreateReplica) -> Result<Replica, ReplyError> {
        Ok(sample_replica(&req.uuid))
    }

    fn destroy(&self, _req: &DestroyReplica) -> Result<(), ReplyError> {
        Err(internal_error())
    }

    fn get(&self, filter: &Filter) -> Result<Vec<Replica>, ReplyError> {
        match filter {
            Filter::All => Ok(vec![sample_replica("r1")]),
            _ => Ok(vec![]),
        }
    }

    fn share(&self, _req: &ShareReplica) -> Result<String, ReplyError> {
        Ok("nvmf://host/r1".to_string())
    }

    fn unshare(&self, _req: &UnshareReplica) -> Result<(), ReplyError> {
        Ok(())
    }
}

fn server() -> ReplicaServer<TestService> {
    ReplicaServer::new(TestService)
}

#[test]
fn create_reply_carries_the_replica() {
    let reply = server().create_replica(&CreateReplica {
        node: "node-a".to_string(),
        name: None,
        uuid: "r9".to_string(),
        pool_id: "pool-1".to_string(),
        pool_uuid: None,
        size: 1024,
        thin: false,
        share: Protocol::Off,
        allowed_hosts: vec![],
    });
    assert_eq!(
        reply.reply,
        Some(CreateReplicaReplyKind::Replica(sample_replica("r9")))
    );
}

#[test]
fn destroy_reply_carries_the_service_error() {
    let reply = server().destroy_replica(&DestroyReplica {
        node: "node-a".to_string(),
        pool_id: "pool-1".to_string(),
        pool_uuid: None,
        name: None,
        uuid: "r1".to_string(),
    });
    assert_eq!(reply.error, Some(internal_error()));
}

#[test]
fn get_replicas_without_filter_selects_everything() {
    let reply = server().get_replicas(&GetReplicasRequest { filter: None });
    assert_eq!(
        reply.reply,
        Some(GetReplicasReplyKind::Replicas(vec![sample_replica("r1")]))
    );
    let reply = server().get_replicas(&GetReplicasRequest {
        filter: Some(Filter::Node("node-z".to_string())),
    });
    assert_eq!(reply.reply, Some(GetReplicasReplyKind::Replicas(vec![])));
}

#[test]
fn share_and_unshare_replies() {
    let reply = server().share_replica(&ShareReplica {
        node: "node-a".to_string(),
        pool_id: "pool-1".to_string(),
        name: None,
        uuid: "r1".to_string(),
        protocol: stor_core::ids::ReplicaShareProtocol::Nvmf,
        allowed_hosts: vec![],
    });
    assert_eq!(
        reply.reply,
        Some(ShareReplicaReplyKind::Response("nvmf://host/r1".to_string()))
    );
    let reply = server().unshare_replica(&UnshareReplica {
        node: "node-a".to_string(),
        pool_id: "pool-1".to_string(),
        name: None,
        uuid: "r1".to_string(),
    });
    assert_eq!(reply.error, None);
}

#[test]
fn tonic_reply_error_is_aborted() {
    let e = ReplyError::tonic_reply_error();
    assert_eq!(e.kind, ReplyErrorKind::Aborted);
    assert_eq!(e.resource, ResourceKind::Unknown);
}

#[test]
fn into_grpc_server_wraps_the_server() {
    let wrapped = server().into_grpc_server();
    let reply = wrapped.inner.get_replicas(&GetReplicasRequest { filter: None });
    assert!(reply.reply.is_some());
}

#[test]
fn error_labels_name_each_variant() {
    assert_eq!(
        SvcError::InvalidUuid {
            kind: ResourceKind::Replica,
            uuid: "x".to_string()
        }
        .label(),
        "invalid uuid"
    );
    assert_eq!(
        SvcError::NotFound {
            kind: ResourceKind::Pool,
            uuid: "p".to_string()
        }
        .label(),
        "not found"
    );
    assert_eq!(
        SvcError::OperationConflict {
            kind: ResourceKind::Volume,
            uuid: "v".to_string()
        }
        .label(),
        "operation conflict"
    );
    assert_eq!(
        SvcError::RemoteRequestFailed {
            kind: ResourceKind::Pool,
            request: "create_pool".to_string()
        }
        .label(),
        "remote request failed"
    );
    assert_eq!(SvcError::InvalidArguments.label(), "invalid arguments");
    assert_eq!(SvcError::StoreUnavailable.label(), "store unavailable");
}
