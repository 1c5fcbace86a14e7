//! Identifiers and shared enumerations of the domain model: resource kinds,
//! share protocols, the lifecycle tag of a persisted specification, and
//! validation of textual uuids reported by the data-plane engine.

use vstd::prelude::*;

verus! {

/// The kind of resource an error or a store record refers to.
#[derive(Clone, Copy, Debug, PartialEq, Eq, Structural)]
pub enum ResourceKind {
    Unknown,
    Volume,
    Pool,
    Replica,
    Nexus,
    Child,
    ReplicaSnapshot,
}

/// Protocol over which a resource is currently shared. `Off` means unshared.
#[derive(Clone, Copy, Debug, PartialEq, Eq, Structural)]
pub enum Protocol {
    Off,
    Nvmf,
    Iscsi,
    Nbd,
}

/// Protocols a volume may be shared over.
#[derive(Clone, Copy, Debug, PartialEq, Eq, Structural)]
pub enum VolumeShareProtocol {
    Nvmf,
    Iscsi,
}

/// Protocols a replica may be shared over.
#[derive(Clone, Copy, Debug, PartialEq, Eq, Structural)]
pub enum ReplicaShareProtocol {
    Nvmf,
}

/// Protocols a nexus may be shared over.
#[derive(Clone, Copy, Debug, PartialEq, Eq, Structural)]
pub enum NexusShareProtocol {
    Nvmf,
    Iscsi,
}

/// A point in time, as seconds and nanoseconds since the Unix epoch. The
/// epoch itself, `{secs: 0, nanos: 0}`, stands in for instants the engine
/// reported in a form that does not convert.
#[derive(Clone, Copy, Debug, PartialEq, Eq, Structural)]
pub struct EpochTime {
    /// Whole seconds since the epoch.
    pub secs: u64,
    /// Nanoseconds within the second; always below one billion.
    pub nanos: u32,
}

impl EpochTime {
    /// The Unix epoch.
    pub fn epoch() -> (r: EpochTime)
        ensures
            r == (EpochTime { secs: 0u64, nanos: 0u32 }),
    {
        EpochTime { secs: 0, nanos: 0 }
    }
}

impl Protocol {
    /// The share protocol of a volume, widened to the full protocol set.
    pub fn from_volume_share(share: VolumeShareProtocol) -> (r: Protocol)
        ensures
            r == Protocol::spec_from_volume_share(share),
    {
        match share {
            VolumeShareProtocol::Nvmf => Protocol::Nvmf,
            VolumeShareProtocol::Iscsi => Protocol::Iscsi,
        }
    }

    /// What `from_volume_share` returns.
    pub open spec fn spec_from_volume_share(share: VolumeShareProtocol) -> Protocol {
        match share {
            VolumeShareProtocol::Nvmf => Protocol::Nvmf,
            VolumeShareProtocol::Iscsi => Protocol::Iscsi,
        }
    }

    /// The share protocol of a replica, widened to the full protocol set.
    pub fn from_replica_share(share: ReplicaShareProtocol) -> (r: Protocol)
        ensures
            r == Protocol::spec_from_replica_share(share),
    {
        match share {
            ReplicaShareProtocol::Nvmf => Protocol::Nvmf,
        }
    }

    /// What `from_replica_share` returns.
    pub open spec fn spec_from_replica_share(share: ReplicaShareProtocol) -> Protocol {
        match share {
            ReplicaShareProtocol::Nvmf => Protocol::Nvmf,
        }
    }

    /// The share protocol of a nexus, widened to the full protocol set.
    pub fn from_nexus_share(share: NexusShareProtocol) -> (r: Protocol)
        ensures
            r == Protocol::spec_from_nexus_share(share),
    {
        match share {
            NexusShareProtocol::Nvmf => Protocol::Nvmf,
            NexusShareProtocol::Iscsi => Protocol::Iscsi,
        }
    }

    /// What `from_nexus_share` returns.
    pub open spec fn spec_from_nexus_share(share: NexusShareProtocol) -> Protocol {
        match share {
            NexusShareProtocol::Nvmf => Protocol::Nvmf,
            NexusShareProtocol::Iscsi => Protocol::Iscsi,
        }
    }
}

/// Coarse, forward-only lifecycle position of a persisted specification.
/// `Created` carries the status the resource had when it reached that stage.
#[derive(Clone, Copy, Debug, PartialEq, Eq, Structural)]
pub enum SpecState<T> {
    Creating,
    Created(T),
    Deleting,
    Deleted,
}

impl<T> SpecState<T> {
    /// Position of a lifecycle tag on the forward axis; the lifecycle of a
    /// specification may only move to stages of equal or greater position.
    pub open spec fn stage(self) -> int {
        match self {
            SpecState::Creating => 0,
            SpecState::Created(_) => 1,
            SpecState::Deleting => 2,
            SpecState::Deleted => 3,
        }
    }
}

/// A character that may appear in the hexadecimal groups of a uuid.
pub open spec fn is_hex_char(c: char) -> bool {
    ('0' <= c && c <= '9') || ('a' <= c && c <= 'f') || ('A' <= c && c <= 'F')
}

/// A well-formed textual uuid: 36 characters, hyphens exactly at positions
/// 8, 13, 18 and 23, hexadecimal digits everywhere else.
pub open spec fn is_uuid(s: Seq<char>) -> bool {
    &&& s.len() == 36
    &&& forall|i: int|
        0 <= i < 36 ==> (#[trigger] s[i] == '-' <==> (i == 8 || i == 13 || i == 18 || i == 23))
    &&& forall|i: int|
        0 <= i < 36 && i != 8 && i != 13 && i != 18 && i != 23 ==> is_hex_char(#[trigger] s[i])
}

/// Whether one character is acceptable at one position of a uuid.
fn uuid_char_ok(c: char, i: usize) -> (r: bool)
    requires
        i < 36,
    ensures
        r == if i == 8 || i == 13 || i == 18 || i == 23 {
            c == '-'
        } else {
            is_hex_char(c)
        },
{
    if i == 8 || i == 13 || i == 18 || i == 23 {
        c == '-'
    } else {
        ('0' <= c && c <= '9') || ('a' <= c && c <= 'f') || ('A' <= c && c <= 'F')
    }
}

/// Whether `p` is a prefix of `s`.
pub open spec fn has_prefix(s: Seq<char>, p: Seq<char>) -> bool {
    s.len() >= p.len() && s.subrange(0, p.len() as int) == p
}

/// Checks whether `p` is a prefix of `s`.
pub fn str_has_prefix(s: &str, p: &str) -> (r: bool)
    ensures
        r == has_prefix(s@, p@),
{
    let n = p.unicode_len();
    if s.unicode_len() < n {
        return false;
    }
    let mut i: usize = 0;
    while i < n
        invariant
            i <= n,
            n == p@.len(),
            s@.len() >= n,
            forall|j: int| 0 <= j < i ==> s@[j] == p@[j],
        decreases n - i,
    {
        if s.get_char(i) != p.get_char(i) {
            assert(s@.subrange(0, n as int)[i as int] != p@[i as int]);
            return false;
        }
        i += 1;
    }
    proof {
        assert(s@.subrange(0, n as int) =~= p@);
    }
    true
}

/// Clones a vector of strings; the clone holds exactly the same strings.
pub fn clone_string_vec(v: &Vec<String>) -> (r: Vec<String>)
    ensures
        r@ == v@,
{
    let r = v.clone();
    proof {
        assert forall|i: int| 0 <= i < v@.len() implies r@[i] == v@[i] by {
            assert(cloned::<String>(v@[i], r@[i]));
        }
        assert(r@ =~= v@);
    }
    r
}

/// Checks that a string is a well-formed textual uuid.
pub fn validate_uuid(s: &str) -> (r: bool)
    ensures
        r == is_uuid(s@),
{
    let len = s.unicode_len();
    if len != 36 {
        return false;
    }
    let mut i: usize = 0;
    while i < 36
        invariant
            i <= 36,
            s@.len() == 36,
            forall|j: int|
                0 <= j < i ==> (#[trigger] s@[j] == '-' <==> (j == 8 || j == 13 || j == 18 || j
                    == 23)),
            forall|j: int|
                0 <= j < i && j != 8 && j != 13 && j != 18 && j != 23 ==> is_hex_char(
                    #[trigger] s@[j],
                ),
        decreases 36 - i,
    {
        let c = s.get_char(i);
        if !uuid_char_ok(c, i) {
            return false;
        }
        i += 1;
    }
    true
}

} // verus!
