use openvtc::errors::OpenVTCError;
use openvtc::keyed::Keyed;
use openvtc::persona_binding::{
    get, get_or_unknown, resolve_batch, BindingSummary, BindingTarget,
};
use serde_json::{Number, Value};

fn reply() -> Value {
    let mut members = serde_json::Map::new();
    members.insert("bound".to_string(), Value::Bool(true));
    members.insert("profileName".to_string(), Value::String("work".to_string()));
    members.insert("profileId".to_string(), Value::String("01J8".to_string()));
    members.insert("claimCount".to_string(), Value::Number(Number::from(3u64)));
    members.insert("boundAt".to_string(), Value::String("2026-01-02T03:04:05Z".to_string()));
    Value::Object(members)
}

#[test]
fn unknown_is_not_the_same_as_unbound() {
    assert_eq!(BindingSummary::unknown().describe(), "presents: unknown");
    assert_eq!(BindingSummary::default().describe(), "presents: nothing");
}

#[test]
fn a_default_summary_never_reads_as_unknown() {
    assert!(!BindingSummary::default().unknown);
    assert!(BindingSummary::unknown().unknown);
}

#[test]
fn a_bound_profile_is_described_by_label_and_count() {
    let s = BindingSummary {
        bound: true,
        profile_name: Some("work".into()),
        claim_count: 3,
        ..Default::default()
    };
    assert_eq!(s.describe(), "presents: work (3 claims)");
}

#[test]
fn a_single_claim_is_singular() {
    let s = BindingSummary {
        bound: true,
        profile_name: Some("gaming".into()),
        claim_count: 1,
        ..Default::default()
    };
    assert_eq!(s.describe(), "presents: gaming (1 claim)");
}

#[test]
fn an_unlabelled_profile_still_describes_itself() {
    let by_id = BindingSummary {
        bound: true,
        profile_id: Some("01J8".into()),
        claim_count: 2,
        ..Default::default()
    };
    assert_eq!(by_id.describe(), "presents: 01J8 (2 claims)");

    let bare = BindingSummary { bound: true, claim_count: 2, ..Default::default() };
    assert_eq!(bare.describe(), "presents: an unlabelled profile (2 claims)");
}

#[test]
fn no_targets_resolves_to_an_empty_map() {
    let out: Keyed<BindingTarget, BindingSummary> = resolve_batch(vec![]);
    assert!(out.is_empty());
}

#[test]
fn a_large_count_is_written_out() {
    let s = BindingSummary { bound: true, claim_count: u64::MAX, ..Default::default() };
    assert_eq!(s.describe(), "presents: an unlabelled profile (18446744073709551615 claims)");
    let none = BindingSummary { bound: true, ..Default::default() };
    assert_eq!(none.describe(), "presents: an unlabelled profile (0 claims)");
}

#[test]
fn a_binding_that_is_not_known_reads_as_such_whatever_else_it_says() {
    let s = BindingSummary { bound: true, unknown: true, ..Default::default() };
    assert_eq!(s.describe(), "presents: unknown");
}

#[test]
fn a_reply_is_read_member_by_member() {
    let summary = get(Ok(reply())).unwrap();
    assert!(summary.bound);
    assert!(!summary.unknown);
    assert_eq!(summary.profile_name.as_deref(), Some("work"));
    assert_eq!(summary.profile_id.as_deref(), Some("01J8"));
    assert_eq!(summary.claim_count, 3);
    assert_eq!(summary.bound_at.as_deref(), Some("2026-01-02T03:04:05Z"));
}

#[test]
fn what_a_reply_does_not_say_is_not_made_up() {
    let summary = get(Ok(Value::Object(serde_json::Map::new()))).unwrap();
    assert_eq!(summary, BindingSummary::default());

    let mut odd = serde_json::Map::new();
    odd.insert("bound".to_string(), Value::String("yes".to_string()));
    odd.insert("claimCount".to_string(), Value::Number(Number::from(-3i64)));
    odd.insert("profileName".to_string(), Value::Null);
    assert_eq!(get(Ok(Value::Object(odd))).unwrap(), BindingSummary::default());
}

#[test]
fn an_agent_that_cannot_be_asked_is_an_error_with_its_reason() {
    match get(Err("timed out".to_string())) {
        Err(OpenVTCError::Vta(text)) => {
            assert_eq!(text, "persona binding read failed: timed out")
        }
        other => panic!("expected Vta, got {other:?}"),
    }
    assert_eq!(get_or_unknown(Err("timed out".to_string())), BindingSummary::unknown());
    assert_eq!(get_or_unknown(Ok(reply())).describe(), "presents: work (3 claims)");
}

#[test]
fn every_target_of_a_batch_has_an_answer() {
    let a = ("ctx-a".to_string(), "did:a".to_string());
    let b = ("ctx-b".to_string(), "did:b".to_string());
    let all = resolve_batch(vec![
        (a.clone(), BindingSummary::unknown()),
        (b.clone(), BindingSummary::default()),
        (a.clone(), BindingSummary { bound: true, ..Default::default() }),
    ]);
    assert!(all.get(&a).unwrap().bound, "the later answer counts");
    assert!(!all.get(&b).unwrap().unknown);
    assert!(all.get(&("ctx-a".to_string(), "did:b".to_string())).is_none());
}
