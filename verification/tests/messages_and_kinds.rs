use openvtc::credential_kind::CredentialKind;
use openvtc::did::{mediator_did, org_did, LF_ORG_DID, LF_PUBLIC_MEDIATOR_DID};
use openvtc::errors::OpenVTCError;
use openvtc::json::Json;
use openvtc::key_purpose::{CardSlot, KeyPurpose};
use openvtc::message::{build_trust_pong, pong_at, require_from, trust_pong, Message, MessageType};
use openvtc::protocol_urls::{
    MAINTAINERS_LIST_REQUEST, MAINTAINERS_LIST_RESPONSE, RELATIONSHIP_REQUEST,
    RELATIONSHIP_REQUEST_ACCEPT, RELATIONSHIP_REQUEST_FINALIZE, RELATIONSHIP_REQUEST_REJECT,
    TRUST_PING, TRUST_PONG, VRC_ISSUED, VRC_REJECTED, VRC_REQUEST,
};
use serde_json::Value;
use std::time::{Duration, UNIX_EPOCH};

fn all_message_types() -> [MessageType; 11] {
    [
        MessageType::RelationshipRequest,
        MessageType::RelationshipRequestRejected,
        MessageType::RelationshipRequestAccepted,
        MessageType::RelationshipRequestFinalize,
        MessageType::TrustPing,
        MessageType::TrustPong,
        MessageType::VRCRequest,
        MessageType::VRCRequestRejected,
        MessageType::VRCIssued,
        MessageType::MaintainersListRequest,
        MessageType::MaintainersListResponse,
    ]
}

fn credential(types: &[&str]) -> Value {
    let mut members = serde_json::Map::new();
    members.insert(
        "type".to_string(),
        Value::Array(types.iter().map(|t| Value::String(t.to_string())).collect()),
    );
    Value::Object(members)
}

fn message(typ: &str) -> Message {
    Message {
        id: "test-id".to_string(),
        typ: typ.to_string(),
        from: None,
        to: None,
        thid: None,
        created_time: None,
        body: None,
    }
}

#[test]
fn test_message_type_try_from_valid() {
    let cases = vec![
        (RELATIONSHIP_REQUEST, "RelationshipRequest"),
        (RELATIONSHIP_REQUEST_REJECT, "RelationshipRequestRejected"),
        (RELATIONSHIP_REQUEST_ACCEPT, "RelationshipRequestAccepted"),
        (RELATIONSHIP_REQUEST_FINALIZE, "RelationshipRequestFinalize"),
        (TRUST_PING, "TrustPing"),
        (TRUST_PONG, "TrustPong"),
        (VRC_REQUEST, "VRCRequest"),
        (VRC_REJECTED, "VRCRequestRejected"),
        (VRC_ISSUED, "VRCIssued"),
        (MAINTAINERS_LIST_REQUEST, "MaintainersListRequest"),
        (MAINTAINERS_LIST_RESPONSE, "MaintainersListResponse"),
    ];

    for (url, expected_debug_contains) in cases {
        let mt = MessageType::try_from(url);
        assert!(mt.is_ok(), "Should parse URL '{}' into a MessageType", url);
        let debug_str = format!("{:?}", mt.unwrap());
        assert_eq!(debug_str, expected_debug_contains);
    }
}

#[test]
fn credential_kind_registry_is_self_consistent() {
    for kind in CredentialKind::ALL {
        let cred = credential(&["VerifiableCredential", kind.vc_type()]);
        assert_eq!(
            CredentialKind::from_credential(&cred),
            Some(kind),
            "{kind:?} must be classified from its vc_type",
        );
        assert_eq!(
            CredentialKind::from_config_key(kind.config_key()),
            Some(kind),
            "{kind:?} config_key must round-trip",
        );
    }
    assert_eq!(CredentialKind::from_credential(&credential(&["Other"])), None);
    assert_eq!(CredentialKind::from_config_key("Nope"), None);
}

#[test]
fn test_message_type_try_from_unknown_yields_invalid_message() {
    let unknown = "https://example.com/not-a-real-openvtc-type";
    let err = MessageType::try_from(unknown).unwrap_err();
    match err {
        OpenVTCError::InvalidMessage(s) => assert_eq!(s, unknown),
        other => panic!("expected InvalidMessage, got {other:?}"),
    }
}

#[test]
fn test_message_type_string_roundtrip_all_variants() {
    for ty in all_message_types() {
        let url: String = ty.clone().into();
        let parsed = MessageType::try_from(url.as_str()).unwrap_or_else(|e| {
            panic!("try_from failed for variant url {url:?}: {e:?}");
        });
        assert_eq!(parsed, ty);
        let again: String = parsed.into();
        assert_eq!(url, again, "From<MessageType> and TryFrom drift");
    }
}

#[test]
fn test_message_type_try_from_message() {
    let msg = message(&String::from(MessageType::TrustPing));
    let parsed = MessageType::try_from(&msg).expect("valid message type");
    assert_eq!(String::from(parsed), String::from(MessageType::TrustPing));
}

#[test]
fn test_message_type_friendly_names() {
    let cases = [
        (MessageType::RelationshipRequest, "Relationship Request"),
        (MessageType::RelationshipRequestRejected, "Relationship Request Rejected"),
        (MessageType::RelationshipRequestAccepted, "Relationship Request Accepted"),
        (MessageType::RelationshipRequestFinalize, "Relationship Request Finalize"),
        (MessageType::TrustPing, "Trust Ping (Send)"),
        (MessageType::TrustPong, "Trust Pong (Receive)"),
        (MessageType::VRCRequest, "VRC Request"),
        (MessageType::VRCRequestRejected, "VRC Request Rejected"),
        (MessageType::VRCIssued, "VRC Issued"),
        (MessageType::MaintainersListRequest, "List Known Maintainers (request)"),
        (MessageType::MaintainersListResponse, "List Known Maintainers (response)"),
    ];
    for (ty, want) in cases {
        assert_eq!(ty.friendly_name(), want);
    }
}

#[test]
fn test_mediator_did_default() {
    let did = mediator_did(None);
    assert_eq!(did, LF_PUBLIC_MEDIATOR_DID);
    assert!(did.starts_with("did:webvh:"), "Mediator DID should start with did:webvh:");
}

#[test]
fn test_org_did_default() {
    let did = org_did(None);
    assert_eq!(did, LF_ORG_DID);
    assert!(did.starts_with("did:webvh:"), "Org DID should start with did:webvh:");
}

#[test]
fn test_mediator_did_valid_override() {
    let custom = "did:web:example.com:mediator";
    let did = mediator_did(Some(custom));
    assert_eq!(did, custom);
}

#[test]
fn test_mediator_did_invalid_override_falls_back() {
    let did = mediator_did(Some("not-a-did"));
    assert_eq!(
        did, LF_PUBLIC_MEDIATOR_DID,
        "Invalid override value should fall back to default"
    );
}

#[test]
fn test_org_did_valid_override() {
    let custom = "did:web:example.com:org";
    let did = org_did(Some(custom));
    assert_eq!(did, custom);
}

#[test]
fn test_org_did_invalid_override_falls_back() {
    let did = org_did(Some("bogus-value"));
    assert_eq!(did, LF_ORG_DID, "Invalid override value should fall back to default");
}

#[test]
fn test_key_purpose_display() {
    assert_eq!(KeyPurpose::Signing.name(), "Signing");
    assert_eq!(KeyPurpose::Authentication.name(), "Authentication");
    assert_eq!(KeyPurpose::Encryption.name(), "Encryption");
    assert_eq!(KeyPurpose::Unknown.name(), "Unknown");
}

#[test]
fn test_key_purpose_default() {
    let kp = KeyPurpose::default();
    assert_eq!(kp, KeyPurpose::Unknown);
}

#[test]
fn a_prefix_of_the_scheme_is_no_did() {
    assert_eq!(mediator_did(Some("did")), LF_PUBLIC_MEDIATOR_DID);
    assert_eq!(mediator_did(Some("")), LF_PUBLIC_MEDIATOR_DID);
    assert_eq!(mediator_did(Some("did:")), "did:");
    assert_eq!(org_did(Some(" did:web:x")), LF_ORG_DID);
}

#[test]
fn a_message_without_a_sender_is_refused() {
    let mut msg = message(TRUST_PING);
    match require_from(&msg) {
        Err(OpenVTCError::Config(reason)) => assert_eq!(reason, "Message has no 'from' address"),
        other => panic!("expected Config, got {other:?}"),
    }
    msg.from = Some("did:example:alice".to_string());
    assert_eq!(require_from(&msg).unwrap(), "did:example:alice");
}

#[test]
fn an_unknown_message_is_refused_by_its_type() {
    match MessageType::try_from(&message("nonsense")) {
        Err(OpenVTCError::InvalidMessage(typ)) => assert_eq!(typ, "nonsense"),
        other => panic!("expected InvalidMessage, got {other:?}"),
    }
}

#[test]
fn only_the_membership_credential_activates() {
    assert!(CredentialKind::Membership.activates_membership());
    assert!(!CredentialKind::Role.activates_membership());
}

#[test]
fn the_first_kind_in_display_order_wins() {
    let both = credential(&["EndorsementCredential", "MembershipCredential"]);
    assert_eq!(CredentialKind::from_credential(&both), Some(CredentialKind::Membership));
    let role = credential(&["EndorsementCredential"]);
    assert_eq!(CredentialKind::from_credential(&role), Some(CredentialKind::Role));
}

#[test]
fn a_credential_whose_type_is_no_list_is_of_no_kind() {
    let mut members = serde_json::Map::new();
    members.insert("type".to_string(), Value::String("MembershipCredential".to_string()));
    assert_eq!(CredentialKind::from_credential(&Value::Object(members)), None);
    assert_eq!(CredentialKind::from_credential(&Value::Null), None);
    assert_eq!(CredentialKind::from_credential(&Value::Array(vec![])), None);
}

#[test]
fn kinds_are_read_off_plain_json_too() {
    let cred = Json::Object(vec![
        ("id".to_string(), Json::Null),
        (
            "type".to_string(),
            Json::Array(vec![Json::Bool(true), Json::Text("EndorsementCredential".to_string())]),
        ),
    ]);
    assert_eq!(CredentialKind::from_json(&cred), Some(CredentialKind::Role));
}

#[test]
fn card_slots_have_purposes() {
    assert_eq!(KeyPurpose::from(CardSlot::Signing), KeyPurpose::Signing);
    assert_eq!(KeyPurpose::from(CardSlot::Authentication), KeyPurpose::Authentication);
    assert_eq!(KeyPurpose::from(CardSlot::Decryption), KeyPurpose::Encryption);
    assert_eq!(KeyPurpose::from(CardSlot::Other), KeyPurpose::Unknown);
}

#[test]
fn a_pong_answers_its_ping() {
    let pong = trust_pong("id-1".to_string(), "did:a", "did:b", "ping-7", 1_700_000_000);
    assert_eq!(pong.id, "id-1");
    assert_eq!(pong.typ, TRUST_PONG);
    assert_eq!(pong.from.as_deref(), Some("did:a"));
    assert_eq!(pong.to, Some(vec!["did:b".to_string()]));
    assert_eq!(pong.thid.as_deref(), Some("ping-7"));
    assert_eq!(pong.created_time, Some(1_700_000_000));
    assert!(pong.body.is_none(), "a pong says nothing");
}

#[test]
fn a_clock_before_the_epoch_gives_no_pong() {
    let early = UNIX_EPOCH - Duration::from_secs(7);
    let failed = early.duration_since(UNIX_EPOCH).map(|d| d.as_secs());
    let words = failed.clone().unwrap_err().to_string();
    let error = pong_at("id-1".to_string(), "did:a", "did:b", "ping-7", failed).unwrap_err();
    assert_eq!(error.source.to_string(), words);
    assert_eq!(error.source.duration(), Duration::from_secs(7));

    let pong = pong_at("id-1".to_string(), "did:a", "did:b", "ping-7", Ok(0)).unwrap();
    assert_eq!(pong.id, "id-1");
    assert_eq!(pong.created_time, Some(0));
}

#[test]
fn a_pong_built_now_is_fresh() {
    let one = build_trust_pong("did:a", "did:b", "ping-7").expect("the clock is past the epoch");
    let two = build_trust_pong("did:a", "did:b", "ping-7").expect("the clock is past the epoch");
    assert_eq!(one.typ, TRUST_PONG);
    assert_ne!(one.id, two.id, "each message has an identifier of its own");
    assert_eq!(one.id.len(), 36);
    assert_eq!(one.from.as_deref(), Some("did:a"));
    assert_eq!(one.thid.as_deref(), Some("ping-7"));
    assert!(one.body.is_none());
    assert!(one.created_time.unwrap() > 1_600_000_000);
    assert!(MessageType::try_from(&one).unwrap() == MessageType::TrustPong);
}
