//! Scenarios for the volume types: the idempotent-create check, store keys
//! and the summary view.

use stor_core::ids::Protocol;
use stor_core::store::{ObjectKey, StorableObject, StorableObjectType};
use stor_core::transaction::SpecTransaction;
use stor_core::volume::{
    CreateVolume, VolumeOperation, VolumeSpec, VolumeStatus, VolumeSummary,
};

fn request() -> CreateVolume {
    CreateVolume {
        uuid: "v1".to_string(),
        size: 100,
        replicas: 3,
    }
}

#[test]
fn spec_matches_its_own_request_despite_transaction_fields() {
    let mut spec = VolumeSpec::from_request(&request());
    assert!(spec.matches_request(&request()));
    // only the transaction fields change: still a match
    spec.start_op(VolumeOperation::AddReplica).unwrap();
    assert!(spec.updating);
    assert!(spec.operation.is_some());
    assert!(spec.matches_request(&request()));
}

#[test]
fn spec_does_not_match_a_differing_request() {
    let spec = VolumeSpec::from_request(&request());
    let bigger = CreateVolume {
        size: 200,
        ..request()
    };
    assert!(!spec.matches_request(&bigger));
    let other = CreateVolume {
        uuid: "v2".to_string(),
        ..request()
    };
    assert!(!spec.matches_request(&other));
    let more_replicas = CreateVolume {
        replicas: 4,
        ..request()
    };
    assert!(!spec.matches_request(&more_replicas));
}

#[test]
fn committed_operation_breaks_the_match() {
    let mut spec = VolumeSpec::from_request(&request());
    spec.start_op(VolumeOperation::AddReplica).unwrap();
    spec.commit_op();
    // the desired fields now differ from what the request derives
    assert!(!spec.matches_request(&request()));
}

#[test]
fn volume_keys_carry_kind_and_uuid() {
    let spec = VolumeSpec::from_request(&request());
    let key = spec.key();
    assert_eq!(key.key_type(), StorableObjectType::VolumeSpec);
    assert_eq!(key.key_uuid(), "v1".to_string());
}

#[test]
fn summary_of_unobserved_spec_reports_unknown_status() {
    let spec = VolumeSpec::from_request(&request());
    let summary = VolumeSummary::from_spec(&spec);
    assert_eq!(summary.uuid, "v1".to_string());
    assert_eq!(summary.size, 100);
    assert_eq!(summary.status, VolumeStatus::Unknown);
    assert_eq!(summary.protocol, Protocol::Off);
    assert!(summary.children.is_empty());
}
