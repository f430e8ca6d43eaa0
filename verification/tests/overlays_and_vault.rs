use crossterm::event::{KeyCode, KeyEvent, KeyModifiers};
use openvtc::actions::Action;
use openvtc::agent_names::{
    agent_name_to_claim, open_agent_name_overlay, selected_agent_name, spawn_agent_name_job,
    toggle_verb, Verb,
};
use openvtc::background_dispatch::{DispatchDomain, InFlight};
use openvtc::capabilities::{
    apply_capability_replies, spawn_capability_job, sweep_capabilities, CapabilityReply,
    REPLY_WINDOW,
};
use openvtc::content::{
    AddVicPhase, AddVicState, AgentNameManagerPhase, AgentNameManagerState, AgentNameRow,
    CapabilitiesPhase, CapabilitiesView, CapabilitySummary, CreatePersonaPhase,
    CreatePersonaState, ManagedDid, RawCredential, VicLifecycle, VicSummary, VtaFocus,
    VtaTransport,
};
use openvtc::identity::PersonaId;
use openvtc::navigation::handle_nav_action;
use openvtc::persona_mint::{settle_minted_persona, spawn_persona_mint};
use openvtc::state::State;
use openvtc::vic::{
    accept_import, resume_vic_refresh, spawn_vic_mutation, spawn_vic_refresh, take_paste,
    toggle_inactive, vic_lifecycle_verb, vic_to_import, VicVerb,
};
use serde_json::Value;
use tui_input::Input;

fn last_line(state: &State) -> &str {
    state.main_page.log.last().unwrap().summary.as_str()
}

fn key(c: char) -> KeyEvent {
    KeyEvent::new(KeyCode::Char(c), KeyModifiers::NONE)
}

fn labelled(text: &str) -> State {
    let mut state = State::default();
    state.main_page.create_persona =
        Some(CreatePersonaState { label: Input::new(text.to_string()), ..Default::default() });
    state
}

fn pasting(text: &str) -> State {
    let mut state = State::default();
    state.main_page.add_vic =
        Some(AddVicState { input: Input::new(text.to_string()), ..Default::default() });
    state
}

fn naming(text: &str, phase: AgentNameManagerPhase) -> State {
    let mut state = State::default();
    state.main_page.agent_names = Some(AgentNameManagerState {
        persona_did: "did:p".to_string(),
        phase,
        names: vec![
            AgentNameRow { name: "alice".to_string(), enabled: true },
            AgentNameRow { name: "bob".to_string(), enabled: false },
        ],
        input: Input::new(text.to_string()),
        ..Default::default()
    });
    state
}

fn waiting(thid: &str, phase: CapabilitiesPhase) -> State {
    let mut view =
        CapabilitiesView::new("did:vtc".to_string(), PersonaId(1), "acme".to_string());
    view.phase = phase;
    view.pending_thid = Some(thid.to_string());
    view.sent_at = Some(1_000);
    view.items = vec![
        CapabilitySummary { slug: "a".to_string(), enabled: false },
        CapabilitySummary { slug: "b".to_string(), enabled: false },
    ];
    view.selected = 1;
    let mut state = State::default();
    state.main_page.content_panel.capabilities.view = Some(view);
    state
}

fn view(state: &State) -> &CapabilitiesView {
    state.main_page.content_panel.capabilities.view.as_ref().unwrap()
}

#[test]
fn a_mint_needs_a_label_a_session_and_nobody_else_minting() {
    let mut in_flight = InFlight::default();

    let mut state = labelled("  \t ");
    assert!(spawn_persona_mint(&mut in_flight, &mut state, true).is_none());
    let overlay = state.main_page.create_persona.as_ref().unwrap();
    assert_eq!(overlay.phase, CreatePersonaPhase::Label);
    assert_eq!(overlay.messages, vec!["Enter a label first."]);

    let mut state = labelled("work");
    assert!(spawn_persona_mint(&mut in_flight, &mut state, false).is_none());
    let overlay = state.main_page.create_persona.as_ref().unwrap();
    assert_eq!(overlay.phase, CreatePersonaPhase::Failed);
    assert_eq!(
        overlay.messages,
        vec!["VTA session unavailable — cannot create a persona right now."]
    );
    assert!(!in_flight.is_busy(DispatchDomain::Persona));

    let mut state = labelled(" work\u{3000}\n");
    assert_eq!(spawn_persona_mint(&mut in_flight, &mut state, true).as_deref(), Some("work"));
    let overlay = state.main_page.create_persona.as_ref().unwrap();
    assert_eq!(overlay.phase, CreatePersonaPhase::Working);
    assert_eq!(overlay.messages, vec!["Creating persona “work”…"]);
    assert!(in_flight.is_busy(DispatchDomain::Persona));

    let mut state = labelled("play");
    assert!(spawn_persona_mint(&mut in_flight, &mut state, true).is_none());
    let overlay = state.main_page.create_persona.as_ref().unwrap();
    assert_eq!(overlay.phase, CreatePersonaPhase::Label);
    assert_eq!(overlay.messages, vec!["Persona creation already in progress — please wait."]);

    let mut state = State::default();
    assert!(spawn_persona_mint(&mut in_flight, &mut state, true).is_none());
    assert!(state.main_page.create_persona.is_none());
}

#[test]
fn a_minted_persona_is_settled_in_the_overlay_and_the_log() {
    let mut state = labelled("work");
    settle_minted_persona(&mut state, "did:new", Ok(true));
    let overlay = state.main_page.create_persona.as_ref().unwrap();
    assert_eq!(overlay.phase, CreatePersonaPhase::Done);
    assert_eq!(overlay.did.as_deref(), Some("did:new"));
    assert!(overlay.copied);
    assert_eq!(overlay.messages, vec!["Persona created."]);
    assert_eq!(last_line(&state), "Created persona DID did:new");
    assert!(state.main_page.sync_requested);

    let mut state = labelled("work");
    settle_minted_persona(&mut state, "did:new", Err("disk full".to_string()));
    let overlay = state.main_page.create_persona.as_ref().unwrap();
    assert_eq!(overlay.phase, CreatePersonaPhase::Failed);
    assert!(overlay.did.is_none());
    assert_eq!(overlay.messages, vec!["Minted, but could not be saved: disk full"]);
    assert_eq!(last_line(&state), "Persona minted but not saved: disk full");
    assert!(!state.main_page.sync_requested);
}

#[test]
fn a_paste_is_read_as_json_without_its_white_space() {
    let mut state = pasting(" {\"a\": [1, null]}\n");
    let vic = vic_to_import(&mut state).expect("valid JSON");
    assert_eq!(vic["a"][0], Value::from(1));
    assert!(state.main_page.add_vic.as_ref().unwrap().messages.is_empty());
}

#[test]
fn a_bad_paste_keeps_the_overlay_waiting_with_the_reason() {
    let mut state = pasting("   ");
    assert!(vic_to_import(&mut state).is_none());
    let overlay = state.main_page.add_vic.as_ref().unwrap();
    assert_eq!(overlay.phase, AddVicPhase::Input);
    assert_eq!(overlay.messages, vec!["Paste an invitation credential (VIC) first."]);

    let mut state = pasting("{nope");
    let reason = serde_json::from_str::<Value>("{nope").unwrap_err().to_string();
    assert!(vic_to_import(&mut state).is_none());
    let overlay = state.main_page.add_vic.as_ref().unwrap();
    assert_eq!(overlay.phase, AddVicPhase::Input);
    assert_eq!(overlay.messages, vec![format!("Failed: not valid JSON: {reason}")]);

    let mut state = pasting("{}");
    state.main_page.add_vic.as_mut().unwrap().phase = AddVicPhase::Working;
    assert!(vic_to_import(&mut state).is_none());
    assert!(state.main_page.add_vic.as_ref().unwrap().messages.is_empty());

    let mut closed = State::default();
    assert!(vic_to_import(&mut closed).is_none());
}

#[test]
fn what_reading_came_to_decides_the_paste() {
    let mut state = pasting("x");
    assert_eq!(take_paste(&mut state, Ok(Value::Bool(true))), Some(Value::Bool(true)));
    assert!(take_paste(&mut state, Err("no".to_string())).is_none());
    assert_eq!(
        state.main_page.add_vic.as_ref().unwrap().messages,
        vec!["Failed: not valid JSON: no"]
    );
}

#[test]
fn only_an_invitation_is_stored() {
    let mut state = pasting("{}");
    assert!(!accept_import(&mut state, Err("not an invitation".to_string())));
    let overlay = state.main_page.add_vic.as_ref().unwrap();
    assert_eq!(overlay.phase, AddVicPhase::Input);
    assert_eq!(overlay.messages, vec!["Failed: not an invitation"]);

    assert!(accept_import(&mut state, Ok(())));
    let overlay = state.main_page.add_vic.as_ref().unwrap();
    assert_eq!(overlay.phase, AddVicPhase::Working);
    assert_eq!(overlay.messages, vec!["Storing invitation credential…"]);
}

#[test]
fn a_pasted_text_replaces_what_was_typed() {
    let mut state = State::default();
    assert!(handle_nav_action(&mut state, &Action::StartAddVic));
    assert!(handle_nav_action(&mut state, &Action::AddVicInput(key('x'))));
    assert_eq!(state.main_page.add_vic.as_ref().unwrap().input.value(), "x");
    assert!(handle_nav_action(&mut state, &Action::AddVicPaste("{}".to_string())));
    assert_eq!(state.main_page.add_vic.as_ref().unwrap().input.value(), "{}");
    state.main_page.add_vic.as_mut().unwrap().phase = AddVicPhase::Working;
    assert!(handle_nav_action(&mut state, &Action::AddVicInput(key('y'))));
    assert_eq!(state.main_page.add_vic.as_ref().unwrap().input.value(), "{}");
}

#[test]
fn a_vault_action_names_its_invitation() {
    let mut state = State::default();
    state.main_page.content_panel.vta.vics =
        vec![VicSummary { id: "v-1".to_string(), ..Default::default() }];
    state.main_page.content_panel.vta.confirm_delete_vic = Some(0);
    state.main_page.content_panel.vta.confirm_purge_vic = Some(0);

    assert!(matches!(
        vic_lifecycle_verb(&mut state, &Action::VicArchive(0), 0),
        Some(VicVerb::Archive(id)) if id == "v-1"
    ));
    assert!(state.main_page.content_panel.vta.confirm_delete_vic.is_none());
    assert!(state.main_page.content_panel.vta.confirm_purge_vic.is_none());
    assert!(matches!(
        vic_lifecycle_verb(&mut state, &Action::VicUnarchive(0), 0),
        Some(VicVerb::Unarchive(id)) if id == "v-1"
    ));
    assert!(matches!(
        vic_lifecycle_verb(&mut state, &Action::VicRestore(0), 0),
        Some(VicVerb::Restore(id)) if id == "v-1"
    ));
    assert!(matches!(
        vic_lifecycle_verb(&mut state, &Action::DeleteVic(0), 0),
        Some(VicVerb::Delete(id)) if id == "v-1"
    ));
    assert!(matches!(
        vic_lifecycle_verb(&mut state, &Action::PurgeVic(0), 0),
        Some(VicVerb::Purge(id)) if id == "v-1"
    ));

    state.main_page.content_panel.vta.confirm_purge_vic = Some(3);
    assert!(vic_lifecycle_verb(&mut state, &Action::PurgeVic(3), 3).is_none());
    assert!(state.main_page.content_panel.vta.confirm_purge_vic.is_none());
    assert!(vic_lifecycle_verb(&mut state, &Action::VicRefresh, 0).is_none());
}

#[test]
fn the_vault_is_changed_by_one_at_a_time() {
    let mut state = State::default();
    let mut in_flight = InFlight::default();
    assert!(!spawn_vic_mutation(&mut in_flight, &mut state, false));
    assert!(state.main_page.log.is_empty());
    assert!(spawn_vic_mutation(&mut in_flight, &mut state, true));
    assert!(!spawn_vic_mutation(&mut in_flight, &mut state, true));
    assert_eq!(
        last_line(&state),
        "Invitation credential refresh already in progress — please wait."
    );
}

#[test]
fn a_listing_put_off_starts_once_the_vault_is_free() {
    let mut state = State::default();
    let mut in_flight = InFlight::default();
    toggle_inactive(&mut state);
    assert_eq!(spawn_vic_refresh(&mut in_flight, &mut state, true), Some(true));
    assert_eq!(spawn_vic_refresh(&mut in_flight, &mut state, true), None);
    toggle_inactive(&mut state);
    in_flight.finish(DispatchDomain::Vic);
    assert_eq!(resume_vic_refresh(&mut in_flight, &mut state, true), Some(false));
    assert!(!state.main_page.content_panel.vta.vic_refresh_queued);
    in_flight.finish(DispatchDomain::Vic);
    assert_eq!(resume_vic_refresh(&mut in_flight, &mut state, true), None);
    assert!(!in_flight.is_busy(DispatchDomain::Vic));
}

#[test]
fn a_descriptor_becomes_a_row() {
    let d: Value = serde_json::from_str(
        "{\"id\":\"v-1\",\"issuerDid\":\"did:vtc\",\"status\":\"\",\"lifecycle\":\"archived\",\
         \"validUntil\":7}",
    )
    .unwrap();
    let row = VicSummary::from_descriptor(&d);
    assert_eq!(row.id, "v-1");
    assert_eq!(row.issuer, "did:vtc");
    assert!(row.issuer_agent_name.is_none());
    assert_eq!(row.status, "unknown");
    assert_eq!(row.lifecycle, VicLifecycle::Archived);
    assert_eq!(row.valid_until, "");

    let row = VicSummary::from_descriptor(&Value::Null);
    assert_eq!(row.id, "");
    assert_eq!(row.status, "unknown");
    assert_eq!(row.lifecycle, VicLifecycle::Active);

    let d: Value =
        serde_json::from_str("{\"status\":\"expired\",\"validUntil\":\"2026-01-01\"}").unwrap();
    let row = VicSummary::from_descriptor(&d);
    assert_eq!(row.status, "expired");
    assert_eq!(row.valid_until, "2026-01-01");
}

#[test]
fn words_for_a_lifecycle_are_read_back() {
    for lifecycle in [VicLifecycle::Active, VicLifecycle::Archived, VicLifecycle::Deleted] {
        assert_eq!(VicLifecycle::from_wire(&Some(lifecycle.tag().to_string())), lifecycle);
    }
    assert_eq!(VicLifecycle::from_wire(&None), VicLifecycle::Active);
    assert_eq!(VicLifecycle::from_wire(&Some("ARCHIVED".to_string())), VicLifecycle::Active);
}

#[test]
fn transports_are_named() {
    assert_eq!(VtaTransport::DidComm.label(), "DIDComm");
    assert_eq!(VtaTransport::Rest.label(), "REST");
}

#[test]
fn a_credential_is_written_out_indented() {
    let value: Value = serde_json::from_str("{\"b\":1,\"a\":[]}").unwrap();
    let raw = RawCredential::Value(std::sync::Arc::new(value.clone()));
    assert_eq!(raw.to_pretty_json(), serde_json::to_string_pretty(&value).unwrap());
    assert!(raw.to_pretty_json().contains("\n  \"b\": 1"));
    assert_eq!(openvtc::content::printable(None), "Failed to serialize credential");
}

#[test]
fn a_name_is_claimed_once_it_is_typed() {
    let mut state = naming(" carol ", AgentNameManagerPhase::Ready);
    assert_eq!(
        agent_name_to_claim(&mut state),
        Some(("did:p".to_string(), "carol".to_string()))
    );
    assert!(state.main_page.agent_names.as_ref().unwrap().message.is_none());

    let mut state = naming("", AgentNameManagerPhase::Ready);
    assert!(agent_name_to_claim(&mut state).is_none());
    assert_eq!(
        state.main_page.agent_names.as_ref().unwrap().message.as_deref(),
        Some("Enter a name first.")
    );

    let mut state = naming("carol", AgentNameManagerPhase::Working);
    assert!(agent_name_to_claim(&mut state).is_none());
    assert!(state.main_page.agent_names.as_ref().unwrap().message.is_none());
}

#[test]
fn work_on_names_says_what_it_does() {
    let mut in_flight = InFlight::default();
    let mut state = naming("", AgentNameManagerPhase::Working);
    assert!(!spawn_agent_name_job(
        &mut in_flight,
        &mut state,
        false,
        &Verb::Open,
        "Loading…".to_string()
    ));
    let overlay = state.main_page.agent_names.as_ref().unwrap();
    assert_eq!(overlay.phase, AgentNameManagerPhase::Ready);
    assert_eq!(
        overlay.message.as_deref(),
        Some("VTA session unavailable — cannot manage agent names right now.")
    );

    state.main_page.agent_names.as_mut().unwrap().confirm_remove = Some(0);
    assert!(spawn_agent_name_job(
        &mut in_flight,
        &mut state,
        true,
        &Verb::Remove("alice".to_string()),
        "Removing…".to_string()
    ));
    let overlay = state.main_page.agent_names.as_ref().unwrap();
    assert_eq!(overlay.phase, AgentNameManagerPhase::Working);
    assert_eq!(overlay.message.as_deref(), Some("Removing…"));
    assert!(overlay.confirm_remove.is_none());

    assert!(!spawn_agent_name_job(
        &mut in_flight,
        &mut state,
        true,
        &Verb::Open,
        "Loading…".to_string()
    ));
    let overlay = state.main_page.agent_names.as_ref().unwrap();
    assert_eq!(overlay.phase, AgentNameManagerPhase::Working);
    assert_eq!(
        overlay.message.as_deref(),
        Some("Agent name change already in progress — please wait.")
    );

    in_flight.finish(DispatchDomain::AgentNameManage);
    assert!(spawn_agent_name_job(
        &mut in_flight,
        &mut state,
        true,
        &Verb::Open,
        "Loading…".to_string()
    ));
    assert_eq!(
        state.main_page.agent_names.as_ref().unwrap().phase,
        AgentNameManagerPhase::Loading
    );
}

#[test]
fn the_name_overlay_opens_on_a_persona() {
    let mut state = State::default();
    assert!(open_agent_name_overlay(&mut state, 0, "example.com".to_string()).is_none());
    assert_eq!(
        last_line(&state),
        "No persona selected — create or select a persona DID first."
    );
    assert!(state.main_page.agent_names.is_none());

    state.main_page.content_panel.vta.context_dids = vec![ManagedDid {
        did: "did:p".to_string(),
        label: "work".to_string(),
        ..Default::default()
    }];
    assert_eq!(
        open_agent_name_overlay(&mut state, 0, "example.com".to_string()).as_deref(),
        Some("did:p")
    );
    let overlay = state.main_page.agent_names.as_ref().unwrap();
    assert_eq!(overlay.persona_did, "did:p");
    assert_eq!(overlay.persona_label, "work");
    assert_eq!(overlay.host, "example.com");
    assert_eq!(overlay.phase, AgentNameManagerPhase::Loading);
}

#[test]
fn switching_a_name_parks_or_resumes_it() {
    let mut state = naming("", AgentNameManagerPhase::Ready);
    let (did, name, enabled) = selected_agent_name(&state).unwrap();
    assert_eq!((did.as_str(), name.as_str(), enabled), ("did:p", "alice", true));
    assert!(matches!(toggle_verb(name, enabled), Verb::Park(n) if n == "alice"));

    assert!(handle_nav_action(&mut state, &Action::AgentNameManagerSelect(true)));
    let (_, name, enabled) = selected_agent_name(&state).unwrap();
    assert!(matches!(toggle_verb(name, enabled), Verb::Resume(n) if n == "bob"));

    assert!(handle_nav_action(&mut state, &Action::AgentNameManagerSelect(true)));
    assert_eq!(state.main_page.agent_names.as_ref().unwrap().selected, 1);
    assert!(selected_agent_name(&naming("", AgentNameManagerPhase::Loading)).is_none());
}

#[test]
fn a_listing_replaces_what_was_shown() {
    let mut state = waiting("t-1", CapabilitiesPhase::Loading);
    apply_capability_replies(
        &mut state,
        vec![(
            "t-1".to_string(),
            CapabilityReply::Listing(vec![CapabilitySummary {
                slug: "z".to_string(),
                enabled: true,
            }]),
        )],
    );
    assert_eq!(view(&state).phase, CapabilitiesPhase::Loaded);
    assert_eq!(view(&state).items.len(), 1);
    assert_eq!(view(&state).selected, 0);
    assert!(view(&state).pending_thid.is_none());
    assert!(view(&state).sent_at.is_none());
}

#[test]
fn replies_to_something_else_are_dropped() {
    let mut state = waiting("t-1", CapabilitiesPhase::Loading);
    apply_capability_replies(
        &mut state,
        vec![("t-0".to_string(), CapabilityReply::Listing(vec![]))],
    );
    assert_eq!(view(&state).items.len(), 2);
    assert_eq!(view(&state).pending_thid.as_deref(), Some("t-1"));

    // Only the first answer to a thread is taken.
    apply_capability_replies(
        &mut state,
        vec![
            (
                "t-1".to_string(),
                CapabilityReply::Toggled { capability: "b".to_string(), enabled: true },
            ),
            ("t-1".to_string(), CapabilityReply::Listing(vec![])),
        ],
    );
    assert_eq!(view(&state).items.len(), 2);
    assert!(!view(&state).items[0].enabled);
    assert!(view(&state).items[1].enabled);
    assert_eq!(view(&state).status_message.as_deref(), Some("b is now enabled"));

    let mut closed = State::default();
    apply_capability_replies(
        &mut closed,
        vec![("t-1".to_string(), CapabilityReply::Listing(vec![]))],
    );
    assert!(closed.main_page.content_panel.capabilities.view.is_none());
}

#[test]
fn a_refusal_reads_by_what_was_asked() {
    let refused = |code: &str, message: Option<&str>| CapabilityReply::Rejected {
        code: code.to_string(),
        message: message.map(str::to_string),
    };

    let mut state = waiting("t", CapabilitiesPhase::Loading);
    apply_capability_replies(
        &mut state,
        vec![("t".to_string(), refused("unsupportedType", None))],
    );
    assert_eq!(
        view(&state).phase,
        CapabilitiesPhase::Failed(
            "this community does not offer capability management".to_string()
        )
    );

    let mut state = waiting("t", CapabilitiesPhase::Loading);
    apply_capability_replies(
        &mut state,
        vec![("t".to_string(), refused("denied", Some("not a steward")))],
    );
    assert_eq!(
        view(&state).phase,
        CapabilitiesPhase::Failed(
            "the community rejected the query: denied — not a steward".to_string()
        )
    );

    let mut state = waiting("t", CapabilitiesPhase::Loaded);
    apply_capability_replies(&mut state, vec![("t".to_string(), refused("denied", None))]);
    assert_eq!(view(&state).phase, CapabilitiesPhase::Loaded);
    assert_eq!(
        view(&state).status_message.as_deref(),
        Some("the community rejected the change: denied")
    );
    assert_eq!(view(&state).items.len(), 2);
}

#[test]
fn a_reply_is_waited_for_no_longer_than_its_window() {
    let mut state = waiting("t", CapabilitiesPhase::Loading);
    sweep_capabilities(&mut state, 1_000 + REPLY_WINDOW);
    assert_eq!(view(&state).phase, CapabilitiesPhase::Loading);
    sweep_capabilities(&mut state, 1_001 + REPLY_WINDOW);
    assert_eq!(
        view(&state).phase,
        CapabilitiesPhase::Failed(
            "no reply within 30s — the community's governance host may be offline".to_string()
        )
    );
    assert!(view(&state).pending_thid.is_none());

    let mut state = waiting("t", CapabilitiesPhase::Loaded);
    sweep_capabilities(&mut state, 0);
    assert!(view(&state).pending_thid.is_some(), "a clock that went back proves nothing");
    sweep_capabilities(&mut state, u64::MAX);
    assert_eq!(view(&state).phase, CapabilitiesPhase::Loaded);
    assert_eq!(
        view(&state).status_message.as_deref(),
        Some("no reply to the change within 30s — refresh (r) to re-check")
    );
}

#[test]
fn one_capability_request_goes_out_at_a_time() {
    let mut in_flight = InFlight::default();
    let mut state = waiting("t", CapabilitiesPhase::Loaded);
    assert!(spawn_capability_job(&mut in_flight, &mut state));
    assert!(view(&state).status_message.is_none());
    assert!(!spawn_capability_job(&mut in_flight, &mut state));
    assert_eq!(
        view(&state).status_message.as_deref(),
        Some("Capability request already in progress — please wait.")
    );
}

#[test]
fn keys_move_the_capabilities_selection_within_its_list() {
    let mut state = waiting("t", CapabilitiesPhase::Loaded);
    assert!(handle_nav_action(&mut state, &Action::CapabilitiesToggleArm));
    assert_eq!(view(&state).confirm_toggle, Some(1));
    assert!(handle_nav_action(&mut state, &Action::CapabilitiesDown));
    assert_eq!(view(&state).selected, 1);
    assert!(view(&state).confirm_toggle.is_none());
    assert!(handle_nav_action(&mut state, &Action::CapabilitiesUp));
    assert!(handle_nav_action(&mut state, &Action::CapabilitiesUp));
    assert_eq!(view(&state).selected, 0);
    assert!(handle_nav_action(&mut state, &Action::CapabilitiesDetail));
    assert!(view(&state).detail);
    assert!(handle_nav_action(&mut state, &Action::CapabilitiesClose));
    assert!(state.main_page.content_panel.capabilities.view.is_none());
}

#[test]
fn a_purge_takes_the_place_of_a_delete() {
    let mut state = State::default();
    assert!(handle_nav_action(&mut state, &Action::VicConfirmDelete(1)));
    assert!(handle_nav_action(&mut state, &Action::VicConfirmPurge(2)));
    assert!(state.main_page.content_panel.vta.confirm_delete_vic.is_none());
    assert_eq!(state.main_page.content_panel.vta.confirm_purge_vic, Some(2));
    assert!(handle_nav_action(&mut state, &Action::VicConfirmDelete(1)));
    assert!(state.main_page.content_panel.vta.confirm_purge_vic.is_none());
}

#[test]
fn the_focus_of_the_vta_panel_comes_back() {
    let mut state = State::default();
    assert!(handle_nav_action(&mut state, &Action::VicFocusToggle));
    assert_eq!(state.main_page.content_panel.vta.focus, VtaFocus::Vics);
    assert!(handle_nav_action(&mut state, &Action::VicFocusToggle));
    assert_eq!(state.main_page.content_panel.vta.focus, VtaFocus::Dids);
}

#[test]
fn a_relationship_credential_is_written_out_by_its_body() {
    let from = chrono::DateTime::from_timestamp(1_700_000_000, 0).unwrap();
    let vrc = dtg_credentials::DTGCredential::new_vrc(
        "did:example:alice".to_string(),
        dtg_credentials::IssuerScope::Pairwise,
        "did:example:bob".to_string(),
        from,
        None,
    );
    let body = serde_json::to_string_pretty(vrc.credential()).unwrap();
    let raw = RawCredential::Vrc(std::sync::Arc::new(vrc));
    assert_eq!(raw.to_pretty_json(), body);
    assert!(raw.to_pretty_json().contains("did:example:bob"));
}
