use openvtc::communities_panel::{key_hints, key_hints_at, render, render_at, CommunitiesPanel};
use openvtc::content::{
    CommunitiesState, CommunitySummary, ContentPanelState, PersonhoodChallengeView,
};
use openvtc::identity::PersonaId;
use openvtc::persona_binding::BindingSummary;
use openvtc::screen::{Color, Line, Style};
use openvtc::state::ConnectionState;
use openvtc::time::Timestamp;

fn row(is_active: bool, is_inactive: bool, is_pending: bool) -> CommunitySummary {
    CommunitySummary {
        display_name: "acme".to_string(),
        status_label: String::new(),
        persona_label: String::new(),
        member_since: String::new(),
        favourite: false,
        is_active,
        is_inactive,
        is_pending,
        pending_unacknowledged: false,
        submit_transport: None,
        archived: false,
        needs_attention: false,
        persona_did: String::new(),
        persona_agent_name: None,
        vtc_did: String::new(),
        vtc_agent_name: None,
        sub_context_id: String::new(),
        request_id: String::new(),
        has_membership_credential: false,
        has_role_credential: false,
    }
}

fn hints_for(community: CommunitySummary) -> String {
    key_hints(&CommunitiesState {
        items: vec![community],
        selected_index: 0,
        ..CommunitiesState::default()
    })
}

fn at(when: chrono::DateTime<chrono::Utc>) -> Timestamp {
    Timestamp { secs: when.timestamp(), nanos: when.timestamp_subsec_nanos() }
}

fn challenge(expires_in_minutes: i64) -> PersonhoodChallengeView {
    PersonhoodChallengeView {
        vtc_did: "did:webvh:acme".to_string(),
        persona: PersonaId(uuid::Uuid::nil().as_u128()),
        challenge_id: uuid::Uuid::nil().as_u128(),
        match_code: "5CY1-GZEE".to_string(),
        expires_at: at(chrono::Utc::now() + chrono::Duration::minutes(expires_in_minutes)),
    }
}

fn state_with(
    community: Option<CommunitySummary>,
    c: Option<PersonhoodChallengeView>,
) -> CommunitiesState {
    CommunitiesState {
        items: community.map(|x| vec![x]).unwrap_or_default(),
        selected_index: 0,
        personhood_challenge: c,
        ..CommunitiesState::default()
    }
}

fn said(lines: &[Line]) -> Vec<String> {
    lines.iter().map(|l| l.plain_text()).collect()
}

const NOW: Timestamp = Timestamp { secs: 1_000, nanos: 0 };

#[test]
fn c_is_never_offered_twice() {
    for (active, inactive, pending) in
        [(true, false, false), (false, true, false), (false, false, true)]
    {
        let hints = hints_for(row(active, inactive, pending));
        assert_eq!(
            hints.matches("c: ").count(),
            usize::from(active || pending),
            "`c` must appear at most once, and only where it does something: {hints}"
        );
    }
}

#[test]
fn an_active_row_offers_capabilities_and_leave() {
    let hints = hints_for(row(true, false, false));
    assert!(hints.contains("c: capabilities"), "{hints}");
    assert!(hints.contains("l: leave"), "{hints}");
    assert!(hints.contains("m: issue VMC"), "{hints}");
    assert!(!hints.contains("c: cancel"), "{hints}");
    assert!(
        !hints.contains("x: archive") && !hints.contains("d: delete"),
        "archive/delete are inactive-only and would be silent no-ops here: {hints}"
    );
}

#[test]
fn a_pending_row_offers_cancel_not_capabilities() {
    let hints = hints_for(row(false, false, true));
    assert!(hints.contains("c: cancel"), "{hints}");
    assert!(!hints.contains("c: capabilities"), "{hints}");
    assert!(!hints.contains("l: leave"), "{hints}");
}

#[test]
fn an_inactive_row_offers_archive_and_delete() {
    let hints = hints_for(row(false, true, false));
    assert!(hints.contains("x: archive") && hints.contains("d: delete"), "{hints}");
    assert!(!hints.contains("c: "), "{hints}");
    assert!(!hints.contains("l: leave"), "{hints}");
}

#[test]
fn panel_level_keys_survive_an_empty_selection() {
    let hints = key_hints(&CommunitiesState::default());
    assert!(hints.contains("j: join"), "{hints}");
    assert!(hints.contains("v: show archived"), "{hints}");
    assert!(!hints.contains("⏎ open"), "nothing is selected: {hints}");
    assert!(!hints.contains("c: "), "nothing is selected: {hints}");
}

#[test]
fn the_archived_hint_tracks_the_toggle() {
    let hints = key_hints(&CommunitiesState {
        show_archived: true,
        ..CommunitiesState::default()
    });
    assert!(hints.contains("v: hide archived"), "{hints}");
}

#[test]
fn personhood_is_offered_only_on_an_active_row() {
    assert!(hints_for(row(true, false, false)).contains("p: personhood"));
    for (active, inactive, pending) in [(false, true, false), (false, false, true)] {
        let hints = hints_for(row(active, inactive, pending));
        assert!(
            !hints.contains("p: personhood"),
            "personhood needs an Active membership: {hints}"
        );
    }
}

#[test]
fn assert_is_offered_only_while_a_live_challenge_is_held() {
    let active = row(true, false, false);

    assert!(
        !key_hints(&state_with(Some(active.clone()), None)).contains("P: assert"),
        "nothing to assert against"
    );
    assert!(
        key_hints(&state_with(Some(active.clone()), Some(challenge(5))))
            .contains("P: assert personhood"),
    );
    assert!(
        !key_hints(&state_with(Some(active), Some(challenge(-1)))).contains("P: assert"),
        "an expired challenge cannot be answered"
    );
}

#[test]
fn a_live_challenge_shows_its_match_code() {
    let rendered: Vec<String> =
        said(&render(&state_with(Some(row(true, false, false)), Some(challenge(5)))));

    assert!(
        rendered.iter().any(|l| l.trim() == "5CY1-GZEE"),
        "the code must stand alone: {rendered:#?}"
    );
}

#[test]
fn an_expired_challenge_says_so_rather_than_vanishing() {
    let rendered: Vec<String> =
        said(&render(&state_with(Some(row(true, false, false)), Some(challenge(-1)))));

    assert!(
        rendered.iter().any(|l| l.contains("expired")),
        "the lapse must be visible: {rendered:#?}"
    );
    assert!(
        !rendered.iter().any(|l| l.contains("5CY1-GZEE")),
        "a dead code must not still read as answerable: {rendered:#?}"
    );
}

#[test]
fn hints_stand_in_one_line() {
    let state = state_with(Some(row(true, false, false)), None);
    assert_eq!(
        key_hints_at(&state, NOW),
        "↑/↓ navigate   ⏎ open   f: ★   a: acknowledge   m: issue VMC   c: capabilities   \
         p: personhood   l: leave   j: join   v: show archived"
    );
    assert_eq!(
        key_hints_at(&CommunitiesState::default(), NOW),
        "↑/↓ navigate   j: join   v: show archived"
    );
}

#[test]
fn a_challenge_lapses_at_the_moment_it_expires() {
    let mut c = challenge(0);
    c.expires_at = Timestamp { secs: 1_000, nanos: 5 };
    assert!(c.is_live(Timestamp { secs: 1_000, nanos: 4 }));
    assert!(!c.is_live(Timestamp { secs: 1_000, nanos: 5 }));
    assert!(!c.is_live(Timestamp { secs: 1_001, nanos: 0 }));
    assert!(c.is_live(Timestamp { secs: -5, nanos: 999 }));
}

#[test]
fn an_account_without_communities_is_welcomed() {
    let rendered = render_at(&CommunitiesState::default(), NOW);
    assert_eq!(
        said(&rendered),
        vec![
            "",
            "Your account is ready. 🎉",
            "",
            "You haven't joined any communities yet — that's where the fun begins.",
            "Find a Verifiable Trust Community and present an identity to join it.",
            "",
            "Press  j  to join your first community.",
        ]
    );
    assert_eq!(rendered[1].style, Style { fg: Some(Color::Success), bold: true });
}

#[test]
fn a_panel_reads_row_by_row() {
    let mut first = row(true, false, false);
    first.status_label = "Active".to_string();
    first.member_since = "1 May".to_string();
    first.persona_label = "work".to_string();
    first.persona_did = "did:p".to_string();
    first.sub_context_id = "ctx".to_string();
    first.vtc_did = "did:v".to_string();
    first.vtc_agent_name = Some("x/@acme".to_string());
    first.favourite = true;
    first.needs_attention = true;
    first.has_membership_credential = true;
    let mut second = row(false, false, true);
    second.status_label = "Pending".to_string();
    second.persona_did = "did:q".to_string();
    second.vtc_did = "did:v".to_string();
    second.pending_unacknowledged = true;
    second.submit_transport = Some("TSP".to_string());
    second.archived = true;
    let mut state = CommunitiesState {
        items: vec![first, second],
        status_message: Some("hello".to_string()),
        ..CommunitiesState::default()
    };

    let rendered = render_at(&state, NOW);
    assert_eq!(
        said(&rendered),
        vec![
            "",
            "hello",
            "",
            " 2 communities",
            "",
            "  acme",
            "    ▸ ★ as work ●",
            "        Active  ·  since 1 May  ·  presents: unknown",
            "      Persona:     did:p",
            "      VTC:         x/@acme",
            "      Sub-context: ctx",
            "      Credentials: membership ✓   role —",
            "      as did:q",
            "        Pending  ·  archived",
            "    ⚠ no response from the community yet (sent over TSP) — the request may not have \
             been received",
            "",
            "↑/↓ navigate   ⏎ open   f: ★   a: acknowledge   m: issue VMC   c: capabilities   \
             p: personhood   l: leave   j: join   v: show archived",
        ]
    );
    assert_eq!(rendered[6].spans[0].style, Style { fg: Some(Color::Success), bold: true });
    assert_eq!(rendered[12].spans[0].style, Style { fg: Some(Color::TextDefault), bold: false });

    state.bindings.insert(
        ("ctx".to_string(), "did:p".to_string()),
        BindingSummary { bound: true, claim_count: 2, ..Default::default() },
    );
    assert_eq!(
        said(&render_at(&state, NOW))[7],
        "        Active  ·  since 1 May  ·  presents: an unlabelled profile (2 claims)"
    );
}

#[test]
fn what_is_asked_for_stands_at_the_foot() {
    let mut state = state_with(Some(row(true, false, false)), None);
    state.actions_required = 1;
    state.confirm_withdraw = Some(5);
    let lines = said(&render_at(&state, NOW));
    assert_eq!(lines[1], " ● 1 community need your attention");
    assert_eq!(
        lines.last().unwrap(),
        "Cancel the pending join to “this community”? The request will be marked withdrawn.   \
         y: confirm    n: cancel"
    );
    state.actions_required = 2;
    state.confirm_leave = Some(0);
    let lines = said(&render_at(&state, NOW));
    assert_eq!(lines[1], " ● 2 communities need your attention");
    assert_eq!(
        lines.last().unwrap(),
        "Leave “acme”? This sends a self-removal to the community.   y: confirm    n: cancel"
    );
    state.confirm_delete = Some(0);
    assert_eq!(
        said(&render_at(&state, NOW)).last().unwrap(),
        "Delete “acme”?   y: confirm    n: cancel"
    );
}

#[test]
fn the_panel_renders_the_communities() {
    let content = ContentPanelState {
        communities: state_with(Some(row(false, true, false)), None),
        ..ContentPanelState::default()
    };
    let lines = CommunitiesPanel.render(&content, &ConnectionState::default());
    assert_eq!(said(&lines), said(&render_at(&content.communities, NOW)));
    assert_eq!(lines[4].spans[0].style, Style { fg: Some(Color::Success), bold: true });
}
