use crossterm::event::{KeyCode, KeyEvent, KeyModifiers};
use openvtc::actions::Action;
use openvtc::background_dispatch::{DispatchDomain, InFlight};
use openvtc::config::{Config, Contact, Relationship};
use openvtc::content::{
    AgentNameManagerPhase, AgentNameManagerState, AgentNameRow, CommunitySwitcherState,
    CreatePersonaPhase, SwitcherItem,
};
use openvtc::display::truncate_did;
use openvtc::identity::PersonaId;
use openvtc::lifecycle::{format_lifecycle_log, resolve_did_to_display, LifecycleLog};
use openvtc::navigation::handle_nav_action;
use openvtc::sessions::must_hand_off;
use openvtc::state::{ActivePage, MainMenu, MainPanel, State};
use openvtc::time::{Span, Timestamp};
use openvtc::vic::begin_vic_refresh;

fn now() -> Timestamp {
    let now = chrono::Utc::now();
    Timestamp { secs: now.timestamp(), nanos: now.timestamp_subsec_nanos() }
}

#[test]
fn a_join_hands_off_even_when_a_persona_already_existed() {
    assert!(
        must_hand_off(true, false, true),
        "a successful join must hand off; whether a persona already existed is irrelevant"
    );
}

#[test]
fn a_live_listener_alone_forces_the_hand_off() {
    assert!(
        must_hand_off(false, true, true),
        "a listener this loop cannot drain must force the hand-off even with no join"
    );
}

#[test]
fn an_idle_iteration_stays_in_the_degraded_loop() {
    assert!(!must_hand_off(false, false, true));
}

#[test]
fn no_context_never_hands_off() {
    assert!(!must_hand_off(true, true, false));
}

#[test]
fn lifecycle_log_shows_the_agent_name_and_the_listener_id() {
    const DID: &str = "did:webvh:QmScidAAAAAAAAAAAAAAAAAAAAAAAA:webvh.storm.ws:magic-depart";

    let mut config = Config::default();
    config.set_cached_agent_name(DID, Some("webvh.storm.ws/@magic-depart".into()), now());

    let line =
        format_lifecycle_log(&config, &LifecycleLog::Connected { listener_id: DID.to_string() });
    assert!(line.summary.contains("'webvh.storm.ws/@magic-depart'"), "{}", line.summary);
    assert!(
        line.summary.contains("did:webvh:QmScid"),
        "the name must not be the only identifier: {}",
        line.summary
    );
    assert!(line.summary.ends_with(" connected"), "{}", line.summary);
    assert!(
        line.detail.as_deref().is_some_and(|d| d.contains(DID)),
        "the full id belongs in the detail: {:?}",
        line.detail
    );

    let line = format_lifecycle_log(
        &config,
        &LifecycleLog::Disconnected {
            listener_id: DID.to_string(),
            error: Some("connection reset".into()),
        },
    );
    assert!(line.summary.ends_with("disconnected: connection reset"), "{}", line.summary);
}

#[test]
fn two_listeners_sharing_a_name_are_still_told_apart() {
    const PERSONA: &str = "did:webvh:QmScidAAAAAAAAAAAAAAAAAAAAAAAA:example.com:alice";
    const OTHER: &str = "did:webvh:QmScidZZZZZZZZZZZZZZZZZZZZZZZZ:example.com:alice-two";

    let mut config = Config::default();
    let now = now();
    config.set_cached_agent_name(PERSONA, Some("example.com/@alice".into()), now);
    config.set_cached_agent_name(OTHER, Some("example.com/@alice".into()), now);

    let one = format_lifecycle_log(
        &config,
        &LifecycleLog::Disconnected { listener_id: PERSONA.to_string(), error: None },
    );
    let two = format_lifecycle_log(
        &config,
        &LifecycleLog::Disconnected { listener_id: OTHER.to_string(), error: None },
    );

    assert_ne!(one.summary, two.summary, "distinct listeners must not render identically");
    assert_ne!(one.detail, two.detail);
}

#[test]
fn a_drop_without_an_error_says_so() {
    const DID: &str = "did:webvh:QmScidCCCCCCCCCCCCCCCCCCCCCCCC:example.com:quiet";
    let config = Config::default();

    let line = format_lifecycle_log(
        &config,
        &LifecycleLog::Disconnected { listener_id: DID.to_string(), error: None },
    );
    assert!(line.summary.contains("no transport error reported"), "{}", line.summary);
    assert!(
        line.detail.as_deref().is_some_and(|d| d.contains("none reported")),
        "{:?}",
        line.detail
    );
}

#[test]
fn a_brief_reconnect_reads_as_one_event_not_a_fault() {
    const DID: &str = "did:webvh:QmScidDDDDDDDDDDDDDDDDDDDDDDDD:example.com:brief";
    let config = Config::default();
    let down_for = std::time::Duration::from_millis(2100);

    let line = format_lifecycle_log(
        &config,
        &LifecycleLog::Reconnected {
            listener_id: DID.to_string(),
            down_for: Span { secs: down_for.as_secs(), nanos: down_for.subsec_nanos() },
        },
    );
    assert!(line.summary.contains("reconnected after 2.1s"), "{}", line.summary);
    assert!(
        !line.summary.to_lowercase().contains("warning") && !line.summary.contains("disconnected"),
        "a routine reconnect must not read as a fault: {}",
        line.summary
    );
    assert!(
        line.detail.as_deref().is_some_and(|d| d.contains("token is refreshed")),
        "{:?}",
        line.detail
    );
}

#[test]
fn a_reported_drop_says_it_is_still_down() {
    const DID: &str = "did:webvh:QmScidEEEEEEEEEEEEEEEEEEEEEEEE:example.com:gone";
    let config = Config::default();

    let line = format_lifecycle_log(
        &config,
        &LifecycleLog::Disconnected { listener_id: DID.to_string(), error: None },
    );
    assert!(line.summary.contains("is still disconnected"), "{}", line.summary);
}

#[test]
fn lifecycle_log_falls_back_to_the_did() {
    const DID: &str = "did:webvh:QmScidBBBBBBBBBBBBBBBBBBBBBBBB:example.com:nameless";

    let config = Config::default();
    let line =
        format_lifecycle_log(&config, &LifecycleLog::Connected { listener_id: DID.to_string() })
            .summary;
    assert!(line.starts_with("Listener '"), "{line}");
    assert!(line.ends_with("' connected"), "{line}");
    assert!(!line.contains("@"), "no name exists, so none may appear: {line}");
    assert!(!line.contains(") connected"), "id printed twice: {line}");

    let missed = format_lifecycle_log(&config, &LifecycleLog::Missed { count: 3 });
    assert_eq!(missed.summary, "Missed 3 lifecycle event(s)");
    assert!(missed.detail.is_none(), "a lagged-stream notice identifies no listener");
}

#[test]
fn resolve_did_to_display_prefers_alias_then_agent_name() {
    let did = "did:webvh:example.com:alice";
    let mut config = Config::default();

    assert_eq!(resolve_did_to_display(&config, did), truncate_did(did, 30));

    config.set_cached_agent_name(did, Some("example.com/@alice".into()), now());
    assert_eq!(resolve_did_to_display(&config, did), "example.com/@alice");

    config.private.contacts.contacts.insert(
        did.to_string(),
        Contact { did: did.to_string(), alias: Some("Alice".to_string()) },
    );
    assert_eq!(resolve_did_to_display(&config, did), "Alice");
}

#[test]
fn agent_name_remove_confirm_arms_and_cancels() {
    let mut state = State::default();
    state.main_page.agent_names = Some(AgentNameManagerState {
        phase: AgentNameManagerPhase::Ready,
        names: vec![
            AgentNameRow { name: "alice".into(), enabled: true },
            AgentNameRow { name: "alias".into(), enabled: false },
        ],
        selected: 1,
        ..Default::default()
    });

    assert!(handle_nav_action(&mut state, &Action::AgentNameManagerConfirmRemove));
    assert_eq!(
        state.main_page.agent_names.as_ref().unwrap().confirm_remove,
        Some(1),
        "arms the selected row"
    );

    assert!(handle_nav_action(&mut state, &Action::AgentNameManagerCancelRemove));
    assert_eq!(
        state.main_page.agent_names.as_ref().unwrap().confirm_remove,
        None,
        "cancel clears the arm"
    );
}

struct Case {
    name: &'static str,
    action: Action,
    assert_fn: fn(&State),
}

#[test]
fn nav_reducer_handles_shared_arms_identically() {
    let cases = [
        Case {
            name: "DismissLoading reveals the main page",
            action: Action::DismissLoading,
            assert_fn: |s| {
                assert!(matches!(s.active_page, ActivePage::Main), "expected ActivePage::Main")
            },
        },
        Case {
            name: "MainMenuSelected updates the menu selection",
            action: Action::MainMenuSelected(MainMenu::Settings),
            assert_fn: |s| assert_eq!(s.main_page.menu_panel.selected_menu, MainMenu::Settings),
        },
        Case {
            name: "MainPanelSwitch(ContentPanel) moves focus to the content panel",
            action: Action::MainPanelSwitch(MainPanel::ContentPanel),
            assert_fn: |s| {
                assert!(!s.main_page.menu_panel.selected);
                assert!(s.main_page.content_panel.selected);
            },
        },
        Case {
            name: "MainPanelSwitch(MainMenu) moves focus back to the menu",
            action: Action::MainPanelSwitch(MainPanel::MainMenu),
            assert_fn: |s| {
                assert!(s.main_page.menu_panel.selected);
                assert!(!s.main_page.content_panel.selected);
            },
        },
        Case {
            name: "CommunitySelect updates the selected index",
            action: Action::CommunitySelect(3),
            assert_fn: |s| assert_eq!(s.main_page.content_panel.communities.selected_index, 3),
        },
        Case {
            name: "CommunityConfirmDelete arms the confirmation",
            action: Action::CommunityConfirmDelete(2),
            assert_fn: |s| {
                assert_eq!(s.main_page.content_panel.communities.confirm_delete, Some(2))
            },
        },
        Case {
            name: "CommunityConfirmLeave arms the leave confirmation",
            action: Action::CommunityConfirmLeave(1),
            assert_fn: |s| {
                assert_eq!(s.main_page.content_panel.communities.confirm_leave, Some(1))
            },
        },
        Case {
            name: "DidConfirmDelete arms the VTA DID confirmation (degraded mode used to drop this)",
            action: Action::DidConfirmDelete(1),
            assert_fn: |s| assert_eq!(s.main_page.content_panel.vta.confirm_delete_did, Some(1)),
        },
    ];

    for case in cases {
        let mut state = State::default();
        let handled = handle_nav_action(&mut state, &case.action);
        assert!(handled, "nav reducer should handle: {}", case.name);
        (case.assert_fn)(&state);
    }
}

#[test]
fn nav_reducer_defers_loop_local_arms() {
    let mut state = State::default();
    assert!(
        !handle_nav_action(&mut state, &Action::Exit),
        "Exit must be deferred to the loop (it breaks with the loop's outcome type)"
    );
    assert!(
        !handle_nav_action(&mut state, &Action::DeleteCommunity(0)),
        "DeleteCommunity is async/loop-local"
    );
    assert!(
        !handle_nav_action(&mut state, &Action::DeleteDid(0)),
        "DeleteDid is async/loop-local"
    );
    assert!(
        !handle_nav_action(&mut state, &Action::StartJoin),
        "StartJoin is async/loop-local"
    );
    assert!(
        !handle_nav_action(&mut state, &Action::OpenCommunitySwitcher),
        "OpenCommunitySwitcher reads config in the loop"
    );
    assert!(
        !handle_nav_action(&mut state, &Action::CommunitySwitcherSelect),
        "CommunitySwitcherSelect mutates config in the loop"
    );
    assert!(
        !handle_nav_action(&mut state, &Action::ToggleFavourite(0)),
        "ToggleFavourite mutates + persists config in the loop"
    );
    assert!(
        !handle_nav_action(&mut state, &Action::LeaveCommunity(0)),
        "LeaveCommunity sends MEMBER_SELF_REMOVE in the loop"
    );
    assert!(
        !handle_nav_action(&mut state, &Action::ArchiveCommunity(0)),
        "ArchiveCommunity mutates + persists config in the loop"
    );
    assert!(
        !handle_nav_action(&mut state, &Action::ToggleShowArchived),
        "ToggleShowArchived re-syncs from config in the loop"
    );
    assert!(
        !handle_nav_action(&mut state, &Action::CreatePersonaSubmit),
        "CreatePersonaSubmit mints via the VTA in the loop"
    );
    assert!(
        !handle_nav_action(&mut state, &Action::CreatePersonaCopy),
        "CreatePersonaCopy touches the clipboard in the loop"
    );
}

#[test]
fn nav_reducer_handles_create_persona_overlay() {
    let mut state = State::default();
    assert!(handle_nav_action(&mut state, &Action::StartCreatePersona));
    let overlay = state.main_page.create_persona.as_ref().expect("overlay open");
    assert_eq!(overlay.phase, CreatePersonaPhase::Label);

    let key = |c| Action::CreatePersonaInput(KeyEvent::new(KeyCode::Char(c), KeyModifiers::NONE));
    assert!(handle_nav_action(&mut state, &key('h')));
    assert!(handle_nav_action(&mut state, &key('i')));
    assert_eq!(state.main_page.create_persona.as_ref().unwrap().label.value(), "hi");

    assert!(handle_nav_action(&mut state, &Action::CreatePersonaClose));
    assert!(state.main_page.create_persona.is_none());
}

#[test]
fn nav_reducer_handles_switcher_navigation() {
    let item = |n: &str| SwitcherItem {
        vtc_did: format!("did:example:{n}"),
        persona_ref: PersonaId(uuid::Uuid::new_v4().as_u128()),
        display_name: n.to_string(),
        persona_label: String::new(),
        is_current: false,
    };
    let mut state = State::default();
    state.main_page.switcher = Some(CommunitySwitcherState {
        items: vec![item("a"), item("b"), item("c")],
        selected: 0,
    });

    assert!(handle_nav_action(&mut state, &Action::CommunitySwitcherMove(2)));
    assert_eq!(state.main_page.switcher.as_ref().unwrap().selected, 2);

    assert!(handle_nav_action(&mut state, &Action::CommunitySwitcherMove(99)));
    assert_eq!(state.main_page.switcher.as_ref().unwrap().selected, 2);

    assert!(handle_nav_action(&mut state, &Action::CloseCommunitySwitcher));
    assert!(state.main_page.switcher.is_none());
}

#[test]
fn vic_refresh_guard_defers_rather_than_drops() {
    let mut state = State::default();
    let mut in_flight = InFlight::default();

    state.main_page.content_panel.vta.vic_loading = true;
    assert!(!begin_vic_refresh(&mut in_flight, &mut state, false));
    assert!(!state.main_page.content_panel.vta.vic_loading);
    assert!(!in_flight.is_busy(DispatchDomain::Vic));

    assert!(begin_vic_refresh(&mut in_flight, &mut state, true));
    assert!(state.main_page.content_panel.vta.vic_loading);
    assert!(in_flight.is_busy(DispatchDomain::Vic));

    assert!(!begin_vic_refresh(&mut in_flight, &mut state, true));
    assert!(
        state.main_page.content_panel.vta.vic_refresh_queued,
        "a rejected refresh must be re-issued once the domain frees"
    );

    in_flight.finish(DispatchDomain::Vic);
    state.main_page.content_panel.vta.vic_refresh_queued = false;
    assert!(begin_vic_refresh(&mut in_flight, &mut state, true));
}

#[test]
fn a_relationship_did_stands_for_the_persona_behind_it() {
    let mut config = Config::default();
    config.private.relationships.relationships.push(Relationship {
        remote_did: "did:peer:2.channel".to_string(),
        remote_p_did: "did:webvh:example.com:bob".to_string(),
        established: true,
    });
    assert_eq!(resolve_did_to_display(&config, "did:peer:2.channel"), "did:webvh:example.com:bob");
    config.set_cached_agent_name(
        "did:webvh:example.com:bob",
        Some("example.com/@bob".into()),
        now(),
    );
    assert_eq!(resolve_did_to_display(&config, "did:peer:2.channel"), "example.com/@bob");
    config.set_cached_agent_name("did:peer:2.channel", Some("channel".into()), now());
    assert_eq!(resolve_did_to_display(&config, "did:peer:2.channel"), "channel");
}

#[test]
fn lifecycle_lines_read_in_full() {
    let config = Config::default();
    let id = "did:web:a".to_string();

    let line = format_lifecycle_log(
        &config,
        &LifecycleLog::Restarting {
            listener_id: id.clone(),
            attempt: 3,
            delay: Span { secs: 1, nanos: 500_000_000 },
        },
    );
    assert_eq!(line.summary, "Listener 'did:web:a' restarting (attempt 3, backoff 1.5s)");
    assert_eq!(
        line.detail.as_deref(),
        Some("listener id: did:web:a\ndisplayed as: did:web:a")
    );

    let line = format_lifecycle_log(
        &config,
        &LifecycleLog::CyclingRapidly { listener_id: id.clone() },
    );
    assert_eq!(
        line.summary,
        "WARNING: Listener 'did:web:a' cycling rapidly — possible duplicate connection"
    );
    assert_eq!(
        line.detail.as_deref(),
        Some(
            "listener id: did:web:a\ndisplayed as: did:web:a\n\
             this listener dropped twice within the cycling window"
        )
    );

    let line = format_lifecycle_log(
        &config,
        &LifecycleLog::Disconnected { listener_id: id, error: Some("gone".to_string()) },
    );
    assert_eq!(line.summary, "Listener 'did:web:a' is still disconnected: gone");
    assert_eq!(
        line.detail.as_deref(),
        Some("listener id: did:web:a\ndisplayed as: did:web:a\nerror: gone")
    );
}

#[test]
fn a_span_is_rounded_to_tenths_of_a_second() {
    let config = Config::default();
    for (secs, nanos, shown) in
        [(0, 0, "0.0"), (12, 940_000_000, "12.9"), (12, 960_000_000, "13.0"), (3_600, 0, "3600.0")]
    {
        let line = format_lifecycle_log(
            &config,
            &LifecycleLog::Reconnected {
                listener_id: "x".to_string(),
                down_for: Span { secs, nanos },
            },
        );
        assert_eq!(line.summary, format!("Listener 'x' reconnected after {shown}s"));
    }
}
