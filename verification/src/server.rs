//! The replica server: the inbound boundary that takes already-decoded typed
//! replica requests, hands them to the service that executes them, and wraps
//! each outcome in the reply envelope the transport sends back. The reply
//! wrapping is pure and fully specified; the service itself is a port its
//! user implements.

use vstd::prelude::*;
use crate::ids::ResourceKind;
use crate::replica::{CreateReplica, DestroyReplica, Replica, ShareReplica, UnshareReplica};
use crate::service::Filter;

verus! {

/// Kind of a reply error, mirroring the transport's classification.
#[derive(Clone, Copy, Debug, PartialEq, Eq, Structural)]
pub enum ReplyErrorKind {
    Internal,
    NotFound,
    Unavailable,
    Aborted,
}

/// The error a service hands back over the message bus.
#[derive(Clone, Debug, PartialEq, Eq)]
pub struct ReplyError {
    /// Classification of the error.
    pub kind: ReplyErrorKind,
    /// Kind of resource the request was about.
    pub resource: ResourceKind,
    /// Which component reported the error.
    pub source: String,
    /// Further detail.
    pub extra: String,
}

impl ReplyError {
    /// The error reported when the transport task executing a request was
    /// aborted before the service could answer.
    pub fn tonic_reply_error() -> (r: ReplyError)
        ensures
            r.kind == ReplyErrorKind::Aborted,
            r.resource == ResourceKind::Unknown,
            r.source@ == "transport"@,
            r.extra@ == "the task executing the request was aborted"@,
    {
        ReplyError {
            kind: ReplyErrorKind::Aborted,
            resource: ResourceKind::Unknown,
            source: "transport".to_owned(),
            extra: "the task executing the request was aborted".to_owned(),
        }
    }
}

/// The service which executes replica operations: the port a deployment
/// implements, synchronously here; the transport's task handling wraps it.
pub trait ReplicaOperations {
    /// Creates a replica.
    fn create(&self, req: &CreateReplica) -> Result<Replica, ReplyError>;

    /// Destroys a replica.
    fn destroy(&self, req: &DestroyReplica) -> Result<(), ReplyError>;

    /// Lists the replicas a filter selects.
    fn get(&self, filter: &Filter) -> Result<Vec<Replica>, ReplyError>;

    /// Shares a replica, answering the uri it is served under.
    fn share(&self, req: &ShareReplica) -> Result<String, ReplyError>;

    /// Unshares a replica.
    fn unshare(&self, req: &UnshareReplica) -> Result<(), ReplyError>;
}

/// Reply to a creation request: the created replica, or the error.
#[derive(Debug, PartialEq, Eq)]
pub enum CreateReplicaReplyKind {
    Replica(Replica),
    Error(ReplyError),
}

/// Reply envelope of a creation request.
#[derive(Debug, PartialEq, Eq)]
pub struct CreateReplicaReply {
    /// The reply; always present when built by this library.
    pub reply: Option<CreateReplicaReplyKind>,
}

/// Reply envelope of a destroy request: an error, or nothing on success.
#[derive(Debug, PartialEq, Eq)]
pub struct DestroyReplicaReply {
    /// The error, when the request failed.
    pub error: Option<ReplyError>,
}

/// Reply to a listing request: the replicas, or the error.
#[derive(Debug, PartialEq, Eq)]
pub enum GetReplicasReplyKind {
    Replicas(Vec<Replica>),
    Error(ReplyError),
}

/// Reply envelope of a listing request.
#[derive(Debug, PartialEq, Eq)]
pub struct GetReplicasReply {
    /// The reply; always present when built by this library.
    pub reply: Option<GetReplicasReplyKind>,
}

/// Reply to a share request: the uri the replica is served under, or the
/// error.
#[derive(Debug, PartialEq, Eq)]
pub enum ShareReplicaReplyKind {
    Response(String),
    Error(ReplyError),
}

/// Reply envelope of a share request.
#[derive(Debug, PartialEq, Eq)]
pub struct ShareReplicaReply {
    /// The reply; always present when built by this library.
    pub reply: Option<ShareReplicaReplyKind>,
}

/// Reply envelope of an unshare request: an error, or nothing on success.
#[derive(Debug, PartialEq, Eq)]
pub struct UnshareReplicaReply {
    /// The error, when the request failed.
    pub error: Option<ReplyError>,
}

/// A listing request, as decoded by the transport: an absent filter selects
/// everything.
#[derive(Debug, PartialEq, Eq)]
pub struct GetReplicasRequest {
    /// The filter, when the route gave one.
    pub filter: Option<Filter>,
}

/// Wraps the outcome of a creation into its reply envelope.
pub fn create_replica_reply(result: Result<Replica, ReplyError>) -> (r: CreateReplicaReply)
    ensures
        (match result {
            Ok(replica) => r.reply == Some(CreateReplicaReplyKind::Replica(replica)),
            Err(e) => r.reply == Some(CreateReplicaReplyKind::Error(e)),
        }),
{
    match result {
        Ok(replica) => CreateReplicaReply {
            reply: Some(CreateReplicaReplyKind::Replica(replica)),
        },
        Err(err) => CreateReplicaReply { reply: Some(CreateReplicaReplyKind::Error(err)) },
    }
}

/// Wraps the outcome of a destroy into its reply envelope.
pub fn destroy_replica_reply(result: Result<(), ReplyError>) -> (r: DestroyReplicaReply)
    ensures
        (match result {
            Ok(_) => r.error is None,
            Err(e) => r.error == Some(e),
        }),
{
    match result {
        Ok(_) => DestroyReplicaReply { error: None },
        Err(e) => DestroyReplicaReply { error: Some(e) },
    }
}

/// Wraps the outcome of a listing into its reply envelope.
pub fn get_replicas_reply(result: Result<Vec<Replica>, ReplyError>) -> (r: GetReplicasReply)
    ensures
        (match result {
            Ok(replicas) => r.reply == Some(GetReplicasReplyKind::Replicas(replicas)),
            Err(e) => r.reply == Some(GetReplicasReplyKind::Error(e)),
        }),
{
    match result {
        Ok(replicas) => GetReplicasReply {
            reply: Some(GetReplicasReplyKind::Replicas(replicas)),
        },
        Err(err) => GetReplicasReply { reply: Some(GetReplicasReplyKind::Error(err)) },
    }
}

/// Wraps the outcome of a share into its reply envelope.
pub fn share_replica_reply(result: Result<String, ReplyError>) -> (r: ShareReplicaReply)
    ensures
        (match result {
            Ok(message) => r.reply == Some(ShareReplicaReplyKind::Response(message)),
            Err(e) => r.reply == Some(ShareReplicaReplyKind::Error(e)),
        }),
{
    match result {
        Ok(message) => ShareReplicaReply {
            reply: Some(ShareReplicaReplyKind::Response(message)),
        },
        Err(err) => ShareReplicaReply { reply: Some(ShareReplicaReplyKind::Error(err)) },
    }
}

/// Wraps the outcome of an unshare into its reply envelope.
pub fn unshare_replica_reply(result: Result<(), ReplyError>) -> (r: UnshareReplicaReply)
    ensures
        (match result {
            Ok(_) => r.error is None,
            Err(e) => r.error == Some(e),
        }),
{
    match result {
        Ok(_) => UnshareReplicaReply { error: None },
        Err(e) => UnshareReplicaReply { error: Some(e) },
    }
}

/// The replica server: dispatches each typed request to the service and wraps
/// the outcome in its reply envelope.
pub struct ReplicaServer<S> {
    /// Service which executes the operations.
    service: S,
}

/// The transport-facing wrapper around a replica server, handed to the layer
/// that serves it.
pub struct ReplicaGrpcServer<S> {
    /// The server being served.
    pub inner: ReplicaServer<S>,
}

impl<S: ReplicaOperations> ReplicaServer<S> {
    /// The service this server dispatches to.
    pub closed spec fn spec_service(&self) -> S {
        self.service
    }

    /// A server executing operations through `service`.
    pub fn new(service: S) -> (r: Self)
        ensures
            r.spec_service() == service,
    {
        ReplicaServer { service }
    }

    /// Wraps this server for the transport layer that serves it.
    pub fn into_grpc_server(self) -> (r: ReplicaGrpcServer<S>)
        ensures
            r.inner == self,
    {
        ReplicaGrpcServer { inner: self }
    }

    /// Creates a replica through the service; the reply envelope is always
    /// filled, with the replica or with the service's error.
    pub fn create_replica(&self, req: &CreateReplica) -> (r: CreateReplicaReply)
        ensures
            r.reply is Some,
    {
        create_replica_reply(self.service.create(req))
    }

    /// Destroys a replica through the service; the envelope carries the
    /// service's error, if any.
    pub fn destroy_replica(&self, req: &DestroyReplica) -> DestroyReplicaReply {
        destroy_replica_reply(self.service.destroy(req))
    }

    /// Lists replicas through the service; an absent filter selects
    /// everything. The reply envelope is always filled.
    pub fn get_replicas(&self, req: &GetReplicasRequest) -> (r: GetReplicasReply)
        ensures
            r.reply is Some,
    {
        let result = match &req.filter {
            Some(filter) => self.service.get(filter),
            None => self.service.get(&Filter::All),
        };
        get_replicas_reply(result)
    }

    /// Shares a replica through the service; the reply envelope is always
    /// filled, with the uri or with the service's error.
    pub fn share_replica(&self, req: &ShareReplica) -> (r: ShareReplicaReply)
        ensures
            r.reply is Some,
    {
        share_replica_reply(self.service.share(req))
    }

    /// Unshares a replica through the service; the envelope carries the
    /// service's error, if any.
    pub fn unshare_replica(&self, req: &UnshareReplica) -> UnshareReplicaReply {
        unshare_replica_reply(self.service.unshare(req))
    }
}

} // verus!
