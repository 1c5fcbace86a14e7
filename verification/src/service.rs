//! Request builders of the replica service: given the filter a transport
//! route decoded — and, where the filter does not name the node, the node an
//! earlier lookup resolved — they build the typed bus request, or classify
//! the filter as invalid. The lookups themselves are remote calls and stay
//! with the caller.

use vstd::prelude::*;
use crate::error::SvcError;
use crate::ids::{Protocol, ReplicaShareProtocol, ResourceKind};
use crate::replica::{CreateReplica, DestroyReplica, ShareReplica, UnshareReplica};

verus! {

/// What a transport route selects: nothing, one resource, or one resource
/// within another.
#[derive(Debug, PartialEq, Eq)]
pub enum Filter {
    /// All resources.
    All,
    /// Resources of one node.
    Node(String),
    /// One pool.
    Pool(String),
    /// One replica.
    Replica(String),
    /// One pool of one node.
    NodePool(String, String),
    /// One replica of one pool of one node.
    NodePoolReplica(String, String, String),
    /// One replica of one pool, node unnamed.
    PoolReplica(String, String),
}

/// Body of a replica creation route: what the caller chooses beyond the ids
/// in the route.
#[derive(Debug, PartialEq, Eq)]
pub struct CreateReplicaBody {
    /// Size in bytes.
    pub size: u64,
    /// Whether the replica is thin provisioned.
    pub thin: bool,
    /// Protocol the replica should be shared over.
    pub share: Protocol,
}

impl CreateReplicaBody {
    /// The creation request this body denotes for the replica `replica` on
    /// pool `pool` of node `node`.
    pub fn bus_request(&self, node: &String, pool: &String, replica: &String) -> (r: CreateReplica)
        ensures
            r.node@ == node@,
            r.name is None,
            r.uuid@ == replica@,
            r.pool_id@ == pool@,
            r.pool_uuid is None,
            r.size == self.size,
            r.thin == self.thin,
            r.share == self.share,
            r.allowed_hosts@.len() == 0,
    {
        CreateReplica {
            node: node.clone(),
            name: None,
            uuid: replica.clone(),
            pool_id: pool.clone(),
            pool_uuid: None,
            size: self.size,
            thin: self.thin,
            share: self.share,
            allowed_hosts: Vec::new(),
        }
    }
}

/// Builds the creation request a replica-creation route denotes. A filter
/// that names the node is used as it stands; a `PoolReplica` filter needs the
/// pool's node, which the caller must have resolved — when it could not, the
/// pool was not found. Any other filter cannot create a replica.
pub fn put_replica(filter: &Filter, body: &CreateReplicaBody, resolved_node: Option<&String>) -> (r:
    Result<CreateReplica, SvcError>)
    ensures
        (match *filter {
            Filter::NodePoolReplica(ref n, ref p, ref rid) => r matches Ok(req) && req.node@ == n@
                && req.pool_id@ == p@ && req.uuid@ == rid@ && req.size == body.size && req.thin
                == body.thin && req.share == body.share && req.name is None && req.pool_uuid
                is None && req.allowed_hosts@.len() == 0,
            Filter::PoolReplica(ref p, ref rid) => (match resolved_node {
                Some(n) => r matches Ok(req) && req.node@ == n@ && req.pool_id@ == p@ && req.uuid@
                    == rid@ && req.size == body.size && req.thin == body.thin && req.share
                    == body.share && req.name is None && req.pool_uuid is None
                    && req.allowed_hosts@.len() == 0,
                None => r matches Err(e) && e matches SvcError::NotFound { kind, uuid } && kind
                    == ResourceKind::Pool && uuid@ == p@,
            }),
            _ => r matches Err(e) && e is InvalidArguments,
        }),
{
    match filter {
        Filter::NodePoolReplica(node_id, pool_id, replica_id) => Ok(
            body.bus_request(node_id, pool_id, replica_id),
        ),
        Filter::PoolReplica(pool_id, replica_id) => (match resolved_node {
            Some(node_id) => Ok(body.bus_request(node_id, pool_id, replica_id)),
            None => Err(
                SvcError::NotFound { kind: ResourceKind::Pool, uuid: pool_id.clone() },
            ),
        }),
        _ => Err(SvcError::InvalidArguments),
    }
}

/// Builds the destroy request a replica-deletion route denotes. A
/// `PoolReplica` filter needs the replica's node, which the caller must have
/// resolved — when it could not, the replica was not found. Any other filter
/// but `NodePoolReplica` cannot destroy a replica.
pub fn destroy_replica(filter: &Filter, resolved_node: Option<&String>) -> (r: Result<
    DestroyReplica,
    SvcError,
>)
    ensures
        (match *filter {
            Filter::NodePoolReplica(ref n, ref p, ref rid) => r matches Ok(req) && req.node@ == n@
                && req.pool_id@ == p@ && req.uuid@ == rid@ && req.name is None && req.pool_uuid
                is None,
            Filter::PoolReplica(ref p, ref rid) => (match resolved_node {
                Some(n) => r matches Ok(req) && req.node@ == n@ && req.pool_id@ == p@ && req.uuid@
                    == rid@ && req.name is None && req.pool_uuid is None,
                None => r matches Err(e) && e matches SvcError::NotFound { kind, uuid } && kind
                    == ResourceKind::Replica && uuid@ == rid@,
            }),
            _ => r matches Err(e) && e is InvalidArguments,
        }),
{
    match filter {
        Filter::NodePoolReplica(node_id, pool_id, replica_id) => Ok(
            DestroyReplica {
                node: node_id.clone(),
                pool_id: pool_id.clone(),
                pool_uuid: None,
                name: None,
                uuid: replica_id.clone(),
            },
        ),
        Filter::PoolReplica(pool_id, replica_id) => (match resolved_node {
            Some(node_id) => Ok(
                DestroyReplica {
                    node: node_id.clone(),
                    pool_id: pool_id.clone(),
                    pool_uuid: None,
                    name: None,
                    uuid: replica_id.clone(),
                },
            ),
            None => Err(
                SvcError::NotFound { kind: ResourceKind::Replica, uuid: replica_id.clone() },
            ),
        }),
        _ => Err(SvcError::InvalidArguments),
    }
}

/// Builds the share request a replica-share route denotes. A `PoolReplica`
/// filter needs the replica's node, which the caller must have resolved —
/// when it could not, the replica was not found. Any other filter but
/// `NodePoolReplica` cannot share a replica.
pub fn share_replica(
    filter: &Filter,
    protocol: ReplicaShareProtocol,
    resolved_node: Option<&String>,
) -> (r: Result<ShareReplica, SvcError>)
    ensures
        (match *filter {
            Filter::NodePoolReplica(ref n, ref p, ref rid) => r matches Ok(req) && req.node@ == n@
                && req.pool_id@ == p@ && req.uuid@ == rid@ && req.protocol == protocol && req.name
                is None && req.allowed_hosts@.len() == 0,
            Filter::PoolReplica(ref p, ref rid) => (match resolved_node {
                Some(n) => r matches Ok(req) && req.node@ == n@ && req.pool_id@ == p@ && req.uuid@
                    == rid@ && req.protocol == protocol && req.name is None
                    && req.allowed_hosts@.len() == 0,
                None => r matches Err(e) && e matches SvcError::NotFound { kind, uuid } && kind
                    == ResourceKind::Replica && uuid@ == rid@,
            }),
            _ => r matches Err(e) && e is InvalidArguments,
        }),
{
    match filter {
        Filter::NodePoolReplica(node_id, pool_id, replica_id) => Ok(
            ShareReplica {
                node: node_id.clone(),
                pool_id: pool_id.clone(),
                name: None,
                uuid: replica_id.clone(),
                protocol,
                allowed_hosts: Vec::new(),
            },
        ),
        Filter::PoolReplica(pool_id, replica_id) => (match resolved_node {
            Some(node_id) => Ok(
                ShareReplica {
                    node: node_id.clone(),
                    pool_id: pool_id.clone(),
                    name: None,
                    uuid: replica_id.clone(),
                    protocol,
                    allowed_hosts: Vec::new(),
                },
            ),
            None => Err(
                SvcError::NotFound { kind: ResourceKind::Replica, uuid: replica_id.clone() },
            ),
        }),
        _ => Err(SvcError::InvalidArguments),
    }
}

/// Builds the unshare request a replica-unshare route denotes. A
/// `PoolReplica` filter needs the replica's node, which the caller must have
/// resolved — when it could not, the replica was not found. Any other filter
/// but `NodePoolReplica` cannot unshare a replica.
pub fn unshare_replica(filter: &Filter, resolved_node: Option<&String>) -> (r: Result<
    UnshareReplica,
    SvcError,
>)
    ensures
        (match *filter {
            Filter::NodePoolReplica(ref n, ref p, ref rid) => r matches Ok(req) && req.node@ == n@
                && req.pool_id@ == p@ && req.uuid@ == rid@ && req.name is None,
            Filter::PoolReplica(ref p, ref rid) => (match resolved_node {
                Some(n) => r matches Ok(req) && req.node@ == n@ && req.pool_id@ == p@ && req.uuid@
                    == rid@ && req.name is None,
                None => r matches Err(e) && e matches SvcError::NotFound { kind, uuid } && kind
                    == ResourceKind::Replica && uuid@ == rid@,
            }),
            _ => r matches Err(e) && e is InvalidArguments,
        }),
{
    match filter {
        Filter::NodePoolReplica(node_id, pool_id, replica_id) => Ok(
            UnshareReplica {
                node: node_id.clone(),
                pool_id: pool_id.clone(),
                name: None,
                uuid: replica_id.clone(),
            },
        ),
        Filter::PoolReplica(pool_id, replica_id) => (match resolved_node {
            Some(node_id) => Ok(
                UnshareReplica {
                    node: node_id.clone(),
                    pool_id: pool_id.clone(),
                    name: None,
                    uuid: replica_id.clone(),
                },
            ),
            None => Err(
                SvcError::NotFound { kind: ResourceKind::Replica, uuid: replica_id.clone() },
            ),
        }),
        _ => Err(SvcError::InvalidArguments),
    }
}

} // verus!
