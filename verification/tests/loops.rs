use openvtc::actions::{Action, Interrupted};
use openvtc::background_dispatch::{DispatchDomain, DispatchOutcome, InFlight};
use openvtc::capabilities::CapabilityReply;
use openvtc::communities::{
    begin_remove_community, finish_remove_community, spawn_community_job,
};
use openvtc::config::{
    CommunityRecord, Config, DegradedPersona, Identity, KeyBackend, LoadIntegrity, PersonaRecord,
    Relationship, StrandedMembership, Task,
};
use openvtc::content::{
    AdvertisedTransports, CapabilitiesPhase, CapabilitiesView, CapabilitySummary,
    CreatePersonaPhase, CreatePersonaState, ManagedDid, VicSummary,
};
use openvtc::degraded::{
    after_join, after_settings, degraded_action, drop_outcome, note_copied, DegradedStep,
    JoinExit, Means, SettingsOutcome,
};
use openvtc::errors::OpenVTCError;
use openvtc::identities::{capability_sender, prepare_delete_context_did};
use openvtc::identity::PersonaId;
use openvtc::lifecycle::{community_label, integrity_detail, log_did};
use openvtc::message::Message;
use openvtc::runtime::{
    after_served, binding_targets, community_left, exit_saved, inbound_message,
    lifecycle_event, pending_expired, ping_answered, ping_ignored, presence_reported,
    refresh_plan, runtime_action, runtime_joined, save_finished, session_update,
    settle_selection, trust_ping_received, trust_pong_received, ChallengeReply, ExitSave,
    JoinedSession, ListenerStatus, PresenceReport, Received, RuntimeJoin, RuntimeStep,
    SessionUpdate, EXPIRY_PERIOD, POLL_PERIOD, RECONCILE_PERIOD, REFRESH_PERIOD, SWEEP_PERIOD,
};
use openvtc::save::{ExitStep, SaveScheduler};
use openvtc::sessions::{
    apply_session_aggregate, deregister_inactive_community, joined_listener_found,
    joined_listener_started, joined_session_registered, reconcile_sessions, startup_registered,
    startup_registrations, JoinedStep, ListenerFound, ListenerStart, ListenerToStop,
    RegisterOutcome,
};
use openvtc::startup::{
    account_ready, admin_session, begin_deferred_load, begin_working, config_loaded,
    contexts_listed, credentials_stored, diagnose_startup, loading_event, not_started,
    pick_context_name, report_written, seed_connection, self_did, setup_ended, setup_finished, setup_ready,
    show_main_page, show_profile, startup_cause, AdminSession, DeferredLoad, LoadingEvent,
    LoadingStep, SetupWizardExit, StartingMode, StateHandler, TrustContext,
};
use openvtc::state::{
    ActivePage, Diagnosis, MainMenuConfigState, MediatorStatus, Sibling, State,
};
use openvtc::time::Timestamp;
use serde_json::Value;

const ALICE: PersonaId = PersonaId(1);
const BOB: PersonaId = PersonaId(2);

fn last_line(state: &State) -> &str {
    state.main_page.log.last().unwrap().summary.as_str()
}

fn last_detail(state: &State) -> &str {
    state.main_page.log.last().unwrap().detail.as_deref().unwrap()
}

fn membership(vtc: &str, persona: PersonaId, live: bool) -> CommunityRecord {
    CommunityRecord {
        vtc_did: vtc.to_string(),
        persona_ref: persona,
        sub_context_id: format!("ctx-{vtc}"),
        live,
    }
}

fn account() -> Config {
    let mut config = Config::default();
    for (id, did) in [(ALICE, "did:alice"), (BOB, "did:bob")] {
        config.account.personas.push(PersonaRecord {
            persona_id: id,
            did: did.to_string(),
            key_ids: vec![format!("{did}#key")],
        });
        config.identities.push(Identity {
            persona_id: id,
            did: did.to_string(),
            mediator_did: None,
        });
    }
    config
}

fn means(config: &Config) -> Means<'_> {
    Means { config: Some(config), session: true, messaging: true }
}

fn nothing<'a>() -> Means<'a> {
    Means { config: None, session: false, messaging: false }
}

fn message(typ: &str) -> Message {
    Message {
        id: "m-1".to_string(),
        typ: typ.to_string(),
        from: Some("did:vtc".to_string()),
        to: Some(vec!["did:alice".to_string(), "did:other".to_string()]),
        thid: None,
        created_time: None,
        body: None,
    }
}

fn received(dispatched: Result<bool, String>) -> Received {
    Received {
        transport: "DIDComm".to_string(),
        label: "Join accepted".to_string(),
        dispatched,
        ended: vec![],
        challenges: vec![],
        capability_replies: vec![],
    }
}

#[test]
fn without_a_community_the_user_is_told_so() {
    let config = Config::default();
    for action in [
        Action::Inbox,
        Action::Relationship,
        Action::Credential,
        Action::LeaveCommunity(0),
        Action::OpenCommunitySwitcher,
        Action::AssertPersonhood,
    ] {
        let mut state = State::default();
        let mut in_flight = InFlight::default();
        let step = degraded_action(&mut state, &mut in_flight, means(&config), action);
        assert!(matches!(step, DegradedStep::Continue));
        assert_eq!(state.main_page.log.len(), 1);
        assert_eq!(last_line(&state), "Not available yet — join a community first.");
    }
}

#[test]
fn leaving_ends_the_loop_with_its_reason() {
    let config = Config::default();
    let mut state = State::default();
    let mut in_flight = InFlight::default();
    assert!(matches!(
        degraded_action(&mut state, &mut in_flight, means(&config), Action::Exit),
        DegradedStep::Exit(Interrupted::UserInt)
    ));
    assert!(matches!(
        degraded_action(
            &mut state,
            &mut in_flight,
            means(&config),
            Action::UXError(Interrupted::OsSigInt)
        ),
        DegradedStep::Exit(Interrupted::OsSigInt)
    ));
    assert!(matches!(
        runtime_action(Action::UXError(Interrupted::OsSigInt)),
        RuntimeStep::Exit(Interrupted::OsSigInt)
    ));
    assert!(matches!(
        runtime_action(Action::Exit),
        RuntimeStep::Exit(Interrupted::UserInt)
    ));
}

#[test]
fn joining_needs_an_account() {
    let config = Config::default();
    let mut state = State::default();
    let mut in_flight = InFlight::default();
    assert!(matches!(
        degraded_action(&mut state, &mut in_flight, means(&config), Action::StartJoin),
        DegradedStep::Join
    ));
    assert!(matches!(
        degraded_action(&mut state, &mut in_flight, nothing(), Action::StartJoin),
        DegradedStep::Continue
    ));
    assert_eq!(last_line(&state), "Cannot join: no active VTA session.");
    assert!(matches!(runtime_action(Action::StartJoin), RuntimeStep::Join));
}

#[test]
fn the_degraded_loop_serves_what_it_can() {
    let config = account();
    let mut state = State::default();
    let mut in_flight = InFlight::default();
    assert!(matches!(
        degraded_action(&mut state, &mut in_flight, means(&config), Action::DeleteCommunity(4)),
        DegradedStep::RemoveCommunity(4)
    ));
    assert!(matches!(
        degraded_action(&mut state, &mut in_flight, nothing(), Action::DeleteCommunity(4)),
        DegradedStep::Continue
    ));
    assert!(matches!(
        degraded_action(&mut state, &mut in_flight, means(&config), Action::Settings),
        DegradedStep::Settings
    ));
    assert!(matches!(
        degraded_action(
            &mut state,
            &mut in_flight,
            means(&config),
            Action::StartAgentNameManager(2)
        ),
        DegradedStep::OpenAgentNames(2)
    ));
    assert!(matches!(
        degraded_action(&mut state, &mut in_flight, means(&config), Action::JoinCancel),
        DegradedStep::Continue
    ));
    assert!(state.main_page.log.is_empty());

    assert!(matches!(
        degraded_action(&mut state, &mut in_flight, means(&config), Action::VicToggleInactive),
        DegradedStep::ListVault(true)
    ));
    assert!(in_flight.is_busy(DispatchDomain::Vic));

    state.main_page.content_panel.vta.vics =
        vec![VicSummary { id: "v".to_string(), ..Default::default() }];
    assert!(matches!(
        degraded_action(&mut state, &mut in_flight, means(&config), Action::PurgeVic(0)),
        DegradedStep::Continue
    ));
    assert_eq!(
        last_line(&state),
        "Invitation credential refresh already in progress — please wait."
    );
    in_flight.finish(DispatchDomain::Vic);
    assert!(matches!(
        degraded_action(&mut state, &mut in_flight, means(&config), Action::PurgeVic(0)),
        DegradedStep::ChangeVault(openvtc::vic::VicVerb::Purge(id)) if id == "v"
    ));
}

#[test]
fn a_persona_is_minted_from_the_degraded_loop() {
    let config = Config::default();
    let mut in_flight = InFlight::default();
    let overlay = CreatePersonaState {
        label: tui_input::Input::new("work".to_string()),
        ..Default::default()
    };

    let mut state = State::default();
    state.main_page.create_persona = Some(overlay.clone());
    assert!(matches!(
        degraded_action(&mut state, &mut in_flight, means(&config), Action::CreatePersonaSubmit),
        DegradedStep::Mint(label) if label == "work"
    ));

    let mut state = State::default();
    state.main_page.create_persona = Some(overlay);
    assert!(matches!(
        degraded_action(&mut state, &mut in_flight, nothing(), Action::CreatePersonaSubmit),
        DegradedStep::Continue
    ));
    assert_eq!(
        state.main_page.create_persona.as_ref().unwrap().phase,
        CreatePersonaPhase::Failed
    );

    state.main_page.create_persona.as_mut().unwrap().did = Some("did:new".to_string());
    assert!(matches!(
        degraded_action(&mut state, &mut in_flight, nothing(), Action::CreatePersonaCopy),
        DegradedStep::CopyDid(did) if did == "did:new"
    ));
    note_copied(&mut state, true);
    assert!(state.main_page.create_persona.as_ref().unwrap().copied);
}

#[test]
fn a_pasted_credential_is_checked_before_it_is_stored() {
    let config = Config::default();
    let mut in_flight = InFlight::default();
    let mut state = State::default();
    state.main_page.add_vic = Some(openvtc::content::AddVicState {
        input: tui_input::Input::new("[true]".to_string()),
        ..Default::default()
    });
    match degraded_action(&mut state, &mut in_flight, means(&config), Action::AddVicSubmit) {
        DegradedStep::CheckInvitation(vic) => {
            assert_eq!(vic, Value::Array(vec![Value::Bool(true)]))
        }
        _ => panic!("expected a credential to check"),
    }
}

#[test]
fn an_outcome_that_is_dropped_frees_its_work() {
    let mut in_flight = InFlight::default();
    assert!(in_flight.try_begin(DispatchDomain::Persona));
    drop_outcome(&mut in_flight, &DispatchOutcome::Persona(None));
    assert!(!in_flight.is_busy(DispatchDomain::Persona));
}

#[test]
fn a_join_with_an_identity_hands_over() {
    let mut state = State::default();
    state.active_page = ActivePage::Join;
    assert!(matches!(
        after_join(&mut state, JoinExit::Returned(true), true, false),
        DegradedStep::HandOff
    ));
    assert_eq!(last_line(&state), "Joined — starting secure messaging…");
    assert_eq!(state.active_page, ActivePage::Main);

    assert!(matches!(
        after_join(&mut state, JoinExit::Returned(false), true, false),
        DegradedStep::Continue
    ));
    assert!(matches!(
        after_join(&mut state, JoinExit::Returned(false), false, true),
        DegradedStep::HandOff
    ));
    assert_eq!(last_line(&state), "Starting secure messaging…");

    let lines = state.main_page.log.len();
    assert!(matches!(
        after_join(&mut state, JoinExit::Failed("boom".to_string()), true, true),
        DegradedStep::HandOff
    ));
    assert_eq!(state.main_page.log[lines].summary, "Join flow failed: boom");
    assert_eq!(last_line(&state), "Starting secure messaging…");
    assert!(matches!(
        after_join(&mut state, JoinExit::Failed("boom".to_string()), true, false),
        DegradedStep::Continue
    ));
    assert!(matches!(
        after_join(&mut state, JoinExit::Exit(Interrupted::OsSigInt), true, true),
        DegradedStep::Exit(Interrupted::OsSigInt)
    ));
}

#[test]
fn a_new_mediator_is_for_later() {
    let mut state = State::default();
    assert!(matches!(
        after_settings(&mut state, SettingsOutcome::ReconnectMediator),
        DegradedStep::Continue
    ));
    assert_eq!(last_line(&state), "Mediator saved — it takes effect once messaging starts.");
    assert!(matches!(
        after_settings(&mut state, SettingsOutcome::Continue),
        DegradedStep::Continue
    ));
    assert!(matches!(
        after_settings(&mut state, SettingsOutcome::ExitUserInt),
        DegradedStep::Exit(Interrupted::UserInt)
    ));
}

#[test]
fn an_identity_in_use_is_not_deleted() {
    let mut config = account();
    let mut state = State::default();
    state.main_page.content_panel.vta.context_dids = vec![
        ManagedDid { did: "did:alice".to_string(), ..Default::default() },
        ManagedDid { did: "did:gone".to_string(), ..Default::default() },
    ];
    state.main_page.content_panel.vta.confirm_delete_did = Some(0);
    config.account.memberships.push(membership("did:vtc", ALICE, false));
    assert!(prepare_delete_context_did(&mut state, &config, 0).is_none());
    assert!(state.main_page.content_panel.vta.confirm_delete_did.is_none());
    assert_eq!(
        last_line(&state),
        "Can't delete — 1 community still use this identity; leave them first."
    );
    config.account.memberships.push(membership("did:vtc2", ALICE, true));
    assert!(prepare_delete_context_did(&mut state, &config, 0).is_none());
    assert_eq!(
        last_line(&state),
        "Can't delete — 2 communities still use this identity; leave them first."
    );

    config.account.memberships.clear();
    let job = prepare_delete_context_did(&mut state, &config, 0).unwrap();
    assert_eq!(job.did, "did:alice");
    assert_eq!(job.persona_id, ALICE);
    assert_eq!(job.key_ids, vec!["did:alice#key"]);
    assert_eq!(last_line(&state), "Removing identity did:alice…");

    assert!(prepare_delete_context_did(&mut state, &config, 1).is_none());
    assert_eq!(last_line(&state), "DID not found — nothing removed.");
    let lines = state.main_page.log.len();
    assert!(prepare_delete_context_did(&mut state, &config, 2).is_none());
    assert_eq!(state.main_page.log.len(), lines);
}

#[test]
fn an_identity_is_deleted_only_with_a_session() {
    let config = account();
    let mut state = State::default();
    let mut in_flight = InFlight::default();
    state.main_page.content_panel.vta.context_dids =
        vec![ManagedDid { did: "did:alice".to_string(), ..Default::default() }];
    state.main_page.content_panel.vta.confirm_delete_did = Some(0);
    assert!(matches!(
        degraded_action(&mut state, &mut in_flight, nothing(), Action::DeleteDid(0)),
        DegradedStep::Continue
    ));
    assert_eq!(last_line(&state), "Cannot remove an identity right now — no VTA session.");
    assert!(state.main_page.content_panel.vta.confirm_delete_did.is_none());

    assert!(matches!(
        degraded_action(&mut state, &mut in_flight, means(&config), Action::DeleteDid(7)),
        DegradedStep::Continue
    ));
    assert!(!in_flight.is_busy(DispatchDomain::Did), "nothing was started");
    assert!(matches!(
        degraded_action(&mut state, &mut in_flight, means(&config), Action::DeleteDid(0)),
        DegradedStep::DeleteDid(job) if job.did == "did:alice"
    ));
    assert!(matches!(
        degraded_action(&mut state, &mut in_flight, means(&config), Action::DeleteDid(0)),
        DegradedStep::Continue
    ));
    assert_eq!(last_line(&state), "Identity deletion already in progress — please wait.");
}

#[test]
fn a_persona_sends_through_its_mediator() {
    let mut config = account();
    assert_eq!(
        capability_sender(&config, ALICE, true),
        Some(("did:alice".to_string(), String::new()))
    );
    config.identities[0].mediator_did = Some("did:mediator".to_string());
    assert_eq!(
        capability_sender(&config, ALICE, true),
        Some(("did:alice".to_string(), "did:mediator".to_string()))
    );
    assert!(capability_sender(&config, ALICE, false).is_none());
    assert!(capability_sender(&config, PersonaId(9), true).is_none());
}

#[test]
fn a_membership_is_removed_row_by_row() {
    let mut state = State::default();
    let mut save = SaveScheduler::new("test");
    state.main_page.content_panel.communities.confirm_delete = Some(0);
    let rows = vec![membership("did:vtc", ALICE, false)];
    assert!(begin_remove_community(&mut state, &rows, 1).is_none());
    assert_eq!(state.main_page.content_panel.communities.confirm_delete, Some(0));
    assert_eq!(
        begin_remove_community(&mut state, &rows, 0),
        Some(("did:vtc".to_string(), ALICE))
    );
    assert!(state.main_page.content_panel.communities.confirm_delete.is_none());

    finish_remove_community(&mut state, &mut save, Err("still active".to_string()));
    assert_eq!(
        state.main_page.content_panel.communities.status_message.as_deref(),
        Some("Could not remove community: still active")
    );
    assert!(!save.is_pending() && !state.main_page.sync_requested);
    finish_remove_community(&mut state, &mut save, Ok(()));
    assert_eq!(
        state.main_page.content_panel.communities.status_message.as_deref(),
        Some("Community removed.")
    );
    assert!(save.is_pending() && state.main_page.sync_requested);
}

#[test]
fn one_request_to_a_community_goes_out_at_a_time() {
    let mut state = State::default();
    let mut in_flight = InFlight::default();
    assert!(spawn_community_job(&mut in_flight, &mut state));
    assert!(!spawn_community_job(&mut in_flight, &mut state));
    assert_eq!(
        state.main_page.content_panel.communities.status_message.as_deref(),
        Some("Community request already in progress — please wait.")
    );
}

#[test]
fn the_indicator_shows_the_sessions() {
    let mut state = State::default();
    apply_session_aggregate(true, 2, &mut state);
    assert!(matches!(state.connection.status, MediatorStatus::Connected));
    assert!(state.connection.messaging_active);
    apply_session_aggregate(false, 2, &mut state);
    assert!(matches!(state.connection.status, MediatorStatus::Connecting));
    assert!(!state.connection.messaging_active);
    state.connection.status = MediatorStatus::NoActiveCommunity;
    apply_session_aggregate(false, 0, &mut state);
    assert!(matches!(state.connection.status, MediatorStatus::NoActiveCommunity));

    assert!(!reconcile_sessions(&vec![false, false], true, 2, &mut state));
    assert!(matches!(state.connection.status, MediatorStatus::NoActiveCommunity));
    assert!(reconcile_sessions(&vec![false, true], true, 2, &mut state));
    assert!(matches!(state.connection.status, MediatorStatus::Connected));
}

#[test]
fn a_listener_goes_with_the_last_membership_that_needs_it() {
    let mut config = account();
    config.account.memberships.push(membership("did:vtc", ALICE, true));
    let mut state = State::default();
    apply_session_aggregate(true, 1, &mut state);
    assert!(deregister_inactive_community(&mut state, &config, ALICE, None).is_none());
    assert!(state.connection.messaging_active);

    assert!(matches!(
        deregister_inactive_community(&mut state, &config, BOB, None),
        Some(ListenerToStop::OfPersona(did)) if did == "did:bob"
    ));
    assert_eq!(last_line(&state), "Community inactive — persona listener stopped.");
    assert!(state.connection.messaging_active, "another membership is live");

    config.account.memberships[0].live = false;
    assert!(matches!(
        community_left(&mut state, &config, ALICE, Some("lid".to_string())),
        Some(ListenerToStop::Recorded(id)) if id == "lid"
    ));
    assert!(matches!(state.connection.status, MediatorStatus::NoActiveCommunity));
    assert!(!state.connection.messaging_active);
    assert!(state.main_page.sync_requested);
    assert!(deregister_inactive_community(&mut state, &config, PersonaId(9), None).is_none());
}

#[test]
fn a_joined_community_gets_a_session() {
    let mut state = State::default();
    assert!(matches!(
        joined_session_registered(&mut state, RegisterOutcome::JoinedExisting, 8),
        JoinedStep::Done
    ));
    assert_eq!(last_line(&state), "New community attached to an existing live session.");
    assert!(matches!(
        joined_session_registered(&mut state, RegisterOutcome::AtCapacity, 8),
        JoinedStep::Done
    ));
    assert_eq!(
        last_line(&state),
        "Joined, but its live session is not active yet: the session limit (8) is reached. It \
         will connect when one frees up or on next launch."
    );
    let lines = state.main_page.log.len();
    assert!(matches!(
        joined_session_registered(&mut state, RegisterOutcome::Created, 8),
        JoinedStep::LookForListener
    ));
    assert!(matches!(
        joined_listener_found(&mut state, ListenerFound::Missing),
        JoinedStep::StartListener
    ));
    assert_eq!(state.main_page.log.len(), lines);
    assert!(matches!(
        joined_listener_found(&mut state, ListenerFound::Connected),
        JoinedStep::MarkConnected
    ));
    assert_eq!(last_line(&state), "New community bound to its persona's live session.");
    assert!(matches!(
        joined_listener_found(&mut state, ListenerFound::NotConnected),
        JoinedStep::Done
    ));
    assert_eq!(
        last_line(&state),
        "New community bound to its persona's session (reconnecting…)."
    );
    assert!(matches!(
        joined_listener_started(&mut state, ListenerStart::Connecting),
        JoinedStep::Done
    ));
    assert_eq!(last_line(&state), "New community session connecting…");
    assert!(matches!(
        joined_listener_started(
            &mut state,
            ListenerStart::Failed("whole story".to_string(), "brief".to_string())
        ),
        JoinedStep::MarkFailed(why) if why == "whole story"
    ));
    assert_eq!(
        last_line(&state),
        "Joined, but couldn't start its live session now (it will connect on next launch): brief"
    );
    assert!(matches!(
        joined_listener_started(&mut state, ListenerStart::Unknown),
        JoinedStep::Deregister
    ));
    assert_eq!(
        last_line(&state),
        "Joined, but its identity could not be resolved to start a live session."
    );
}

#[test]
fn sessions_are_registered_at_the_start() {
    let config = account();
    let list = startup_registrations(
        &config,
        &vec![
            (BOB, vec!["did:v1".to_string(), "did:v2".to_string()]),
            (PersonaId(9), vec!["did:v3".to_string()]),
            (ALICE, vec!["did:v1".to_string()]),
        ],
    );
    let shown: Vec<(PersonaId, &str, &str)> =
        list.iter().map(|r| (r.persona, r.did.as_str(), r.vtc_did.as_str())).collect();
    assert_eq!(
        shown,
        vec![
            (BOB, "did:bob", "did:v1"),
            (BOB, "did:bob", "did:v2"),
            (ALICE, "did:alice", "did:v1"),
        ]
    );

    let mut state = State::default();
    startup_registered(&mut state, &vec![RegisterOutcome::Created], 8);
    assert!(state.main_page.log.is_empty());
    startup_registered(&mut state, &vec![RegisterOutcome::AtCapacity], 8);
    assert_eq!(
        last_line(&state),
        "Warning: 1 community exceeded the session limit (8) and are not actively connected."
    );
    startup_registered(
        &mut state,
        &vec![
            RegisterOutcome::AtCapacity,
            RegisterOutcome::JoinedExisting,
            RegisterOutcome::AtCapacity,
        ],
        8,
    );
    assert_eq!(
        last_line(&state),
        "Warning: 2 communities exceeded the session limit (8) and are not actively connected."
    );
}

#[test]
fn a_start_takes_its_invitation_along() {
    let mut handler = StateHandler::new("work", StartingMode::SetupWizard);
    handler.set_invitation_credential(None);
    assert!(handler.invitation_credential.is_none());
    handler.set_invitation_credential(Some(Value::Bool(false)));
    handler.set_invitation_credential(Some(Value::Bool(true)));
    handler.set_invitation_credential(None);
    assert_eq!(
        handler.invitation_credential,
        Some(Value::Bool(true)),
        "without an invitation nothing changes"
    );
    let mut state = State::default();
    assert!(matches!(handler.begin(&mut state), StartingMode::SetupWizard));
    assert_eq!(state.invitation_credential, Some(Value::Bool(true)));
    assert!(handler.invitation_credential.is_none());
    assert_eq!(handler.profile, "work");
    assert!(matches!(handler.begin(&mut state), StartingMode::NotSet));
    assert!(state.invitation_credential.is_none());
}

#[test]
fn each_way_to_start_shows_its_page() {
    let mut state = State::default();
    show_main_page(
        &mut state,
        MainMenuConfigState { name: "me".to_string(), ..Default::default() },
    );
    assert_eq!(state.active_page, ActivePage::Main);
    assert!(state.main_page.menu_panel.selected);
    assert_eq!(state.main_page.config.name, "me");
    assert_eq!(last_line(&state), "Configuration loaded");

    let mut state = State::default();
    setup_finished(&mut state);
    assert_eq!(state.active_page, ActivePage::Loading);
    assert!(state.main_page.sync_requested);
    assert!(matches!(
        &state.connection.status,
        MediatorStatus::Initializing(doing) if doing == "Loading credentials..."
    ));
    setup_ready(&mut state, Some("locked".to_string()));
    assert_eq!(
        state.main_page.log[0].summary,
        "Warning: failed to load persona keys: locked"
    );
    assert_eq!(last_line(&state), "Setup complete — configuration loaded");

    let mut state = State::default();
    begin_deferred_load(
        &mut state,
        &DeferredLoad { profile: "work".to_string(), friendly_name: "Me".to_string() },
    );
    assert_eq!(state.active_page, ActivePage::Loading);
    assert_eq!(state.main_page.config.name, "Me");
    assert!(matches!(
        &state.connection.status,
        MediatorStatus::Initializing(doing) if doing == "Starting..."
    ));

    assert!(matches!(
        setup_ended(SetupWizardExit::Failed("no disk".to_string())),
        Interrupted::SystemError(why) if why == "Setup Wizard failed: no disk"
    ));
    assert!(matches!(
        setup_ended(SetupWizardExit::Interrupted(Interrupted::UserInt)),
        Interrupted::UserInt
    ));
    assert!(matches!(
        not_started(),
        Interrupted::SystemError(why) if why == "Starting Mode is Not Set!"
    ));
}

#[test]
fn loading_shows_its_progress_and_its_failure() {
    let mut state = State::default();
    state.tip_index = usize::MAX;
    assert!(matches!(
        loading_event(
            &mut state,
            LoadingEvent::Progress("VTA".to_string(), "connecting".to_string())
        ),
        LoadingStep::Wait
    ));
    assert_eq!(state.tip_index, 0);
    assert!(matches!(
        &state.connection.status,
        MediatorStatus::Initializing(doing) if doing == "VTA — connecting"
    ));
    assert!(matches!(
        loading_event(&mut state, LoadingEvent::TokenTouch(true)),
        LoadingStep::Wait
    ));
    assert!(state.token_touch_pending);
    assert!(matches!(loading_event(&mut state, LoadingEvent::Asked(false)), LoadingStep::Wait));
    assert!(matches!(
        loading_event(&mut state, LoadingEvent::Asked(true)),
        LoadingStep::Leave(Interrupted::UserInt)
    ));
    assert!(matches!(
        loading_event(&mut state, LoadingEvent::Interrupted(Interrupted::OsSigInt)),
        LoadingStep::Leave(Interrupted::OsSigInt)
    ));
    assert!(matches!(loading_event(&mut state, LoadingEvent::Loaded), LoadingStep::Proceed));

    let why = || Diagnosis { error: "e".to_string(), context: vec![] };
    assert!(matches!(
        loading_event(&mut state, LoadingEvent::Failed("bad key".to_string(), why())),
        LoadingStep::Degraded
    ));
    assert!(matches!(
        &state.connection.status,
        MediatorStatus::Failed(reason) if reason == "bad key"
    ));
    assert_eq!(state.startup_diagnosis.as_ref().unwrap().error, "e");
    assert!(matches!(
        loading_event(&mut state, LoadingEvent::Broke("panic".to_string(), why())),
        LoadingStep::Degraded
    ));
    assert!(matches!(
        &state.connection.status,
        MediatorStatus::Failed(reason) if reason == "Internal error: panic"
    ));
}

#[test]
fn a_failed_start_is_diagnosed_by_its_cause() {
    assert!(matches!(
        startup_cause(None, "words".to_string()),
        OpenVTCError::Config(words) if words == "words"
    ));
    assert!(matches!(
        startup_cause(Some(OpenVTCError::Vta("down".to_string())), "words".to_string()),
        OpenVTCError::Vta(words) if words == "down"
    ));
    let found = Diagnosis {
        error: "short".to_string(),
        context: vec![("Profile".to_string(), "work".to_string())],
    };
    let out = diagnose_startup(found.clone(), None);
    assert_eq!(out.error, "short");
    assert_eq!(out.context, found.context);
    let out = report_written(out, None);
    assert_eq!(out.error, "short");
    assert_eq!(out.context, found.context);

    let out = diagnose_startup(found.clone(), Some("whole chain".to_string()));
    assert_eq!(out.error, "whole chain");
    assert_eq!(out.context, found.context);
    let out = report_written(out, Some("/tmp/r".to_string()));
    assert_eq!(out.error, "whole chain");
    assert_eq!(out.context.len(), 2);
    assert_eq!(out.context[0], found.context[0]);
    assert_eq!(out.context[1], ("Full report".to_string(), "/tmp/r".to_string()));
}

#[test]
fn a_degraded_load_never_looks_clean() {
    let integrity = LoadIntegrity {
        headline: "1 persona unavailable".to_string(),
        degraded_personas: vec![
            DegradedPersona {
                did: "did:a".to_string(),
                label: Some("work".to_string()),
                reason: "no keys".to_string(),
            },
            DegradedPersona {
                did: "did:webvh:0123456789012345678901234567890123456789".to_string(),
                label: None,
                reason: "gone".to_string(),
            },
        ],
        stranded_memberships: vec![
            StrandedMembership { label: Some("acme".to_string()), vtc_did: "did:v".to_string() },
            StrandedMembership { label: None, vtc_did: "did:w".to_string() },
        ],
        orphaned_key_ids: vec!["k-1".to_string()],
    };
    let detail = "persona did:a: no keys\n\
                  persona did:webvh:0123456789012345678901234567890123456789: gone\n\
                  community acme is inactive: its persona did not load\n\
                  community did:w is inactive: its persona did not load\n\
                  orphaned key record: k-1\n";
    assert_eq!(integrity_detail(&integrity), detail);

    let mut state = State::default();
    state.main_page.content_panel.settings.storage_warning = Some("keyring is gone".to_string());
    config_loaded(&mut state, integrity);
    let lines: Vec<&str> = state.main_page.log.iter().map(|l| l.summary.as_str()).collect();
    assert_eq!(
        lines,
        vec![
            "1 persona unavailable",
            "Persona unavailable: work — no keys",
            "Persona unavailable: did:webvh:01234567890123456789012345678… — gone",
            "WARNING: keyring is gone",
        ]
    );
    assert_eq!(state.main_page.log[0].detail.as_deref(), Some(detail));
    assert!(state.integrity.is_some());

    assert!(openvtc::navigation::handle_nav_action(&mut state, &Action::DismissLoading));
    assert!(state.integrity.is_none());
    assert_eq!(last_line(&state), "Acknowledged: 1 persona unavailable");

    let mut state = State::default();
    config_loaded(&mut state, LoadIntegrity::default());
    assert_eq!(last_line(&state), "Configuration loaded");
    assert!(state.integrity.is_none());
}

#[test]
fn one_session_with_the_vta_is_enough() {
    let vta = KeyBackend::Vta {
        vta_did: "did:vta".to_string(),
        credential_did: "did:me".to_string(),
    };
    assert_eq!(admin_session(true, &vta), AdminSession::Reuse);
    assert_eq!(admin_session(false, &vta), AdminSession::Open);
    assert_eq!(admin_session(false, &KeyBackend::Bip32), AdminSession::Absent);
    assert_eq!(self_did(&vta).as_deref(), Some("did:me"));
    assert!(self_did(&KeyBackend::Bip32).is_none());
}

#[test]
fn stored_credentials_are_counted() {
    let mut state = State::default();
    credentials_stored(&mut state, 0, 0);
    assert!(state.main_page.log.is_empty());
    credentials_stored(&mut state, 2, 1);
    assert_eq!(
        state.main_page.log[0].summary,
        "Stored 2 membership credential(s) at the VTA — this account can now be recovered from \
         its Trust Context"
    );
    assert_eq!(
        last_line(&state),
        "1 membership credential(s) could not be stored at the VTA — this account may not be \
         fully recoverable until they are"
    );
}

#[test]
fn the_context_of_the_persona_is_named() {
    let contexts = vec![
        TrustContext { name: "first".to_string(), did: None },
        TrustContext { name: "mine".to_string(), did: Some("did:p".to_string()) },
    ];
    assert_eq!(pick_context_name(&contexts, "did:p").as_deref(), Some("mine"));
    assert_eq!(pick_context_name(&contexts, "did:q").as_deref(), Some("first"));
    assert!(pick_context_name(&vec![], "did:p").is_none());
    let mut state = State::default();
    contexts_listed(&mut state, &contexts, "did:p");
    contexts_listed(&mut state, &vec![], "did:p");
    assert_eq!(state.main_page.content_panel.vta.context_name.as_deref(), Some("mine"));
    show_profile(&mut state, "work");
    assert_eq!(state.main_page.content_panel.vta.profile, "work");
}

#[test]
fn an_account_without_personas_is_in_no_community() {
    let mut state = State::default();
    assert!(!account_ready(&mut state, &Config::default()));
    assert!(state.loading_complete);
    assert!(matches!(state.connection.status, MediatorStatus::NoActiveCommunity));

    let mut config = account();
    assert_eq!(config.active_identity().unwrap().did, "did:alice");
    config.active_persona = Some(BOB);
    assert_eq!(config.active_identity().unwrap().did, "did:bob");
    config.active_persona = Some(PersonaId(9));
    assert_eq!(config.active_identity().unwrap().did, "did:alice");
    assert!(account_ready(&mut state, &config));
}

#[test]
fn work_begins_in_the_selected_membership() {
    let mut state = State::default();
    let mut config = account();
    begin_working(&mut state, &mut config, Some(("did:vtc".to_string(), BOB)));
    assert_eq!(config.active_persona, Some(BOB));
    assert!(state.main_page.sync_requested);
    assert!(matches!(state.connection.status, MediatorStatus::Connecting));

    state.main_page.sync_requested = false;
    settle_selection(&mut state, &mut config, Some(("did:other".to_string(), BOB)));
    assert!(!state.main_page.sync_requested, "the persona is the same");
    assert_eq!(state.selected_community, Some(("did:other".to_string(), BOB)));
    settle_selection(&mut state, &mut config, None);
    assert!(state.main_page.sync_requested);
    assert!(config.active_persona.is_none());
}

#[test]
fn a_session_that_is_up_already_is_shown_as_such() {
    let mut state = State::default();
    seed_connection(&mut state, &vec![true], true, 1);
    assert!(matches!(state.connection.status, MediatorStatus::Connected));
    assert_eq!(last_line(&state), "Connected to the mediator.");
    seed_connection(&mut state, &vec![], true, 1);
    assert!(matches!(state.connection.status, MediatorStatus::Connecting));
    assert!(!state.connection.messaging_active);
    assert_eq!(last_line(&state), "Connecting to the mediator…");
}

#[test]
fn a_wiped_profile_ends_the_program() {
    assert!(matches!(after_served(true), RuntimeStep::Exit(Interrupted::UserInt)));
    assert!(matches!(after_served(false), RuntimeStep::Continue));
    assert!(matches!(runtime_action(Action::Inbox), RuntimeStep::Serve(Action::Inbox)));
}

#[test]
fn a_join_while_connected_brings_its_session_up() {
    let mut state = State::default();
    let joined = JoinedSession {
        persona_id: ALICE,
        persona_did: "did:alice".to_string(),
        vtc_did: "did:vtc".to_string(),
    };
    assert!(matches!(
        runtime_joined(&mut state, RuntimeJoin::Returned(Some(joined))),
        RuntimeStep::Register(session) if session.vtc_did == "did:vtc"
    ));
    assert_eq!(state.active_page, ActivePage::Main);
    assert!(matches!(
        runtime_joined(&mut state, RuntimeJoin::Returned(None)),
        RuntimeStep::Continue
    ));
    assert!(matches!(
        runtime_joined(&mut state, RuntimeJoin::Failed("boom".to_string())),
        RuntimeStep::Continue
    ));
    assert_eq!(last_line(&state), "Join flow failed: boom");
    assert!(matches!(
        runtime_joined(&mut state, RuntimeJoin::Exit(Interrupted::UserInt)),
        RuntimeStep::Exit(Interrupted::UserInt)
    ));
}

#[test]
fn a_message_that_changes_the_account_is_logged_and_stored() {
    let config = account();
    let mut state = State::default();
    let mut save = SaveScheduler::new("test");
    let mut what = received(Ok(true));
    what.ended = vec![(ALICE, None), (PersonaId(9), None)];
    let stops = inbound_message(&mut state, &config, &mut save, &message("join/1"), what);
    assert_eq!(stops.len(), 1);
    assert!(matches!(&stops[0], ListenerToStop::OfPersona(did) if did == "did:alice"));
    assert!(save.is_pending() && state.main_page.sync_requested);
    assert_eq!(
        state.main_page.log[0].summary,
        "Community inactive — persona listener stopped."
    );
    assert_eq!(last_line(&state), "Inbound DIDComm: Join accepted");
    assert_eq!(
        last_detail(&state),
        "Inbound DIDComm Message\n───────────────────────\nType:    join/1\nFrom:    did:vtc\n\
         To:      did:alice\nthid:    none"
    );
    assert!(matches!(state.connection.status, MediatorStatus::NoActiveCommunity));
}

#[test]
fn a_message_that_changes_nothing_or_fails_is_not_stored() {
    let config = account();
    let mut state = State::default();
    let mut save = SaveScheduler::new("test");
    let stops =
        inbound_message(&mut state, &config, &mut save, &message("x"), received(Ok(false)));
    assert!(stops.is_empty() && state.main_page.log.is_empty() && !save.is_pending());

    let mut anonymous = message("x");
    anonymous.from = None;
    anonymous.to = None;
    anonymous.thid = Some("t".to_string());
    inbound_message(
        &mut state,
        &config,
        &mut save,
        &anonymous,
        received(Err("garbled".to_string())),
    );
    assert!(!save.is_pending());
    assert_eq!(last_line(&state), "Message error: garbled");
    assert_eq!(
        last_detail(&state),
        "Failed Inbound Message\n──────────────────────\nType:    x\nFrom:    unknown\n\
         To:      \nthid:    t\nError:   garbled"
    );
}

#[test]
fn a_challenge_is_shown_to_the_persona_it_is_for() {
    let config = account();
    let mut state = State::default();
    let mut save = SaveScheduler::new("test");
    let challenge = |code: &str| ChallengeReply {
        challenge_id: 5,
        match_code: code.to_string(),
        expires_at: Timestamp { secs: 100, nanos: 0 },
    };
    let mut what = received(Ok(false));
    what.challenges = vec![challenge("AAAA"), challenge("BBBB")];
    inbound_message(&mut state, &config, &mut save, &message("c"), what);
    let communities = &state.main_page.content_panel.communities;
    let shown = communities.personhood_challenge.as_ref().unwrap();
    assert_eq!(shown.match_code, "BBBB");
    assert_eq!(shown.persona, ALICE);
    assert_eq!(shown.vtc_did, "did:vtc");
    assert_eq!(
        communities.status_message.as_deref(),
        Some(
            "Personhood challenge received — confirm the code BBBB with whoever is vetting you, \
             then assert."
        )
    );

    let mut state = State::default();
    let mut stranger = message("c");
    stranger.to = Some(vec!["did:stranger".to_string()]);
    let mut what = received(Ok(false));
    what.challenges = vec![challenge("CCCC")];
    inbound_message(&mut state, &config, &mut save, &stranger, what);
    assert!(state.main_page.content_panel.communities.personhood_challenge.is_none());
    assert!(state.main_page.content_panel.communities.status_message.is_none());
}

#[test]
fn a_message_can_answer_the_capabilities_view() {
    let config = account();
    let mut state = State::default();
    let mut save = SaveScheduler::new("test");
    let mut view = CapabilitiesView::new("did:vtc".to_string(), ALICE, "acme".to_string());
    view.pending_thid = Some("t".to_string());
    state.main_page.content_panel.capabilities.view = Some(view);
    let mut what = received(Ok(false));
    what.capability_replies = vec![(
        "t".to_string(),
        CapabilityReply::Listing(vec![CapabilitySummary {
            slug: "a".to_string(),
            enabled: true,
        }]),
    )];
    inbound_message(&mut state, &config, &mut save, &message("r"), what);
    let view = state.main_page.content_panel.capabilities.view.as_ref().unwrap();
    assert_eq!(view.phase, CapabilitiesPhase::Loaded);
    assert_eq!(view.items.len(), 1);
}

#[test]
fn only_friends_and_the_mediator_are_answered() {
    let mut config = account();
    config.mediator_did = "did:mediator".to_string();
    for (did, established) in [("did:friend", true), ("did:asking", false)] {
        config.private.relationships.relationships.push(Relationship {
            remote_did: did.to_string(),
            remote_p_did: "did:behind".to_string(),
            established,
        });
    }
    assert!(trust_ping_received(&config, &Some("did:mediator".to_string())));
    assert!(trust_ping_received(&config, &Some("did:friend".to_string())));
    assert!(!trust_ping_received(&config, &Some("did:asking".to_string())));
    assert!(!trust_ping_received(&config, &Some("did:stranger".to_string())));
    assert!(!trust_ping_received(&config, &None));

    let mut state = State::default();
    let from = Some("did:friend".to_string());
    ping_answered(&mut state, &config, &from, "lid", Some("offline".to_string()));
    assert_eq!(state.main_page.log[0].summary, "Failed to send pong: offline");
    assert_eq!(last_line(&state), "Ping from did:behind — pong sent");
    assert_eq!(
        last_detail(&state),
        "Trust-Ping Received\n───────────────────\nFrom (display):  did:behind\n\
         From (DID):      did:friend\nListener:        lid\nResponse:        pong sent"
    );
    ping_ignored(&mut state, &config, &None);
    assert_eq!(last_line(&state), "Ping from unknown — ignored");
    assert_eq!(
        last_detail(&state),
        "Trust-Ping Rejected\n───────────────────\nFrom (DID):      unknown\n\
         Reason:          no established relationship"
    );
}

#[test]
fn a_pong_tells_how_long_it_took() {
    let mut config = account();
    let mut state = State::default();
    let mut sent = Some(1_000_000);
    trust_pong_received(
        &mut state,
        &config,
        &Some("did:friend".to_string()),
        &mut sent,
        43_999_999,
    );
    assert!(sent.is_none());
    assert_eq!(last_line(&state), "Pong from did:friend (42ms)");
    assert_eq!(
        last_detail(&state),
        "Trust-Pong Received\n───────────────────\nFrom (display):  did:friend\n\
         From (DID):      did:friend\nLatency:         42ms"
    );
    trust_pong_received(&mut state, &config, &None, &mut sent, 0);
    assert_eq!(last_line(&state), "Pong from unknown");
    assert!(last_detail(&state).ends_with("Latency:         n/a"));

    config.private.tasks = vec![
        Task { id: "1".to_string(), ping_to: None },
        Task { id: "2".to_string(), ping_to: Some("did:pinged".to_string()) },
    ];
    let mut sent = Some(5);
    trust_pong_received(&mut state, &config, &Some(String::new()), &mut sent, 0);
    assert_eq!(last_line(&state), "Pong from did:pinged (0ms)");

    config.private.tasks.push(Task {
        id: "3".to_string(),
        ping_to: Some("did:later".to_string()),
    });
    config.private.tasks.push(Task { id: "4".to_string(), ping_to: None });
    trust_pong_received(&mut state, &config, &None, &mut None, 0);
    assert_eq!(last_line(&state), "Pong from did:later", "the most recent ping counts");
}

#[test]
fn other_installs_are_warned_of() {
    let mut state = State::default();
    presence_reported(&mut state, PresenceReport::Registered("dev-1".to_string()), None);
    assert_eq!(state.self_device_id.as_deref(), Some("dev-1"));
    let siblings = || {
        vec![
            Sibling { label: "laptop".to_string(), last_seen_at: Some("today".to_string()) },
            Sibling { label: "phone".to_string(), last_seen_at: None },
        ]
    };
    presence_reported(&mut state, PresenceReport::NewSiblings(siblings()), None);
    assert!(state.main_page.log.is_empty());
    assert_eq!(state.live_siblings.len(), 2);
    presence_reported(
        &mut state,
        PresenceReport::NewSiblings(siblings()),
        Some("2 others".to_string()),
    );
    assert_eq!(last_line(&state), "WARNING: 2 others");
    assert_eq!(last_detail(&state), "laptop — last seen today\nphone — last seen unknown");
    presence_reported(&mut state, PresenceReport::Unavailable, None);
    assert_eq!(state.live_siblings.len(), 2);
}

#[test]
fn a_listener_event_is_logged_with_its_detail() {
    let config = account();
    let mut state = State::default();
    lifecycle_event(
        &mut state,
        &config,
        &openvtc::lifecycle::LifecycleLog::Connected { listener_id: "lid".to_string() },
    );
    assert_eq!(last_line(&state), "Listener 'lid' connected");
    assert_eq!(last_detail(&state), "listener id: lid\ndisplayed as: lid");
    lifecycle_event(&mut state, &config, &openvtc::lifecycle::LifecycleLog::Missed { count: 2 });
    assert!(state.main_page.log.last().unwrap().detail.is_none());
}

#[test]
fn a_listener_moves_its_own_session() {
    assert!(matches!(
        session_update(ListenerStatus::Connected { listener_id: "l".to_string() }),
        SessionUpdate::MarkConnected(id) if id == "l"
    ));
    assert!(matches!(
        session_update(ListenerStatus::Disconnected {
            listener_id: "l".to_string(),
            error: Some("e".to_string())
        }),
        SessionUpdate::MarkFailed(id, why) if id == "l" && why == "e"
    ));
    assert!(matches!(
        session_update(ListenerStatus::Disconnected {
            listener_id: "l".to_string(),
            error: None
        }),
        SessionUpdate::MarkDisconnected(id) if id == "l"
    ));
}

#[test]
fn joins_that_expire_are_told_and_stored() {
    let config = account();
    let mut state = State::default();
    let mut save = SaveScheduler::new("test");
    assert!(pending_expired(&mut state, &config, &mut save, vec![]).is_empty());
    assert!(state.main_page.log.is_empty() && !save.is_pending());
    let stops = pending_expired(&mut state, &config, &mut save, vec![(ALICE, None)]);
    assert_eq!(stops.len(), 1);
    assert_eq!(last_line(&state), "1 pending join expired (no response within 7 days).");
    assert!(save.is_pending());
    pending_expired(&mut state, &config, &mut save, vec![(ALICE, None), (BOB, None)]);
    assert_eq!(last_line(&state), "2 pending joins expired (no response within 7 days).");
}

#[test]
fn a_refresh_asks_for_what_is_missing_once() {
    let mut config = account();
    config.key_backend = KeyBackend::Vta {
        vta_did: "did:vta".to_string(),
        credential_did: "did:me".to_string(),
    };
    config.account.memberships = vec![
        membership("did:v1", BOB, true),
        membership("did:v2", PersonaId(9), true),
        membership("did:v3", ALICE, false),
    ];
    let expected = vec![
        ("ctx-did:v1".to_string(), "did:bob".to_string()),
        ("ctx-did:v3".to_string(), "did:alice".to_string()),
    ];
    assert_eq!(binding_targets(&config), expected);

    let mut state = State::default();
    let mut in_flight = InFlight::default();
    let plan =
        refresh_plan(&state, &config, &mut in_flight, vec!["did:x".to_string()], true);
    assert_eq!(plan.names, Some(vec!["did:x".to_string()]));
    assert_eq!(plan.bindings, Some(expected));
    assert_eq!(plan.probe.as_deref(), Some("did:vta"));

    let again =
        refresh_plan(&state, &config, &mut in_flight, vec!["did:x".to_string()], true);
    assert!(again.names.is_none() && again.bindings.is_none() && again.probe.is_none());

    let mut in_flight = InFlight::default();
    state.main_page.content_panel.vta.transports.advertised =
        Some(AdvertisedTransports::default());
    let plan = refresh_plan(&state, &config, &mut in_flight, vec![], false);
    assert!(plan.names.is_none() && plan.bindings.is_none() && plan.probe.is_none());
    assert!(!in_flight.is_busy(DispatchDomain::AgentName));

    state.main_page.content_panel.vta.transports.advertised =
        Some(AdvertisedTransports { error: Some("timeout".to_string()), ..Default::default() });
    let plan = refresh_plan(&state, &config, &mut in_flight, vec![], false);
    assert_eq!(plan.probe.as_deref(), Some("did:vta"));
}

#[test]
fn what_could_not_be_stored_still_waits() {
    let mut state = State::default();
    let mut save = SaveScheduler::new("test");
    save.mark_dirty();
    assert!(save.begin());
    save_finished(&mut state, &mut save, Err("disk full".to_string()));
    assert_eq!(last_line(&state), "Failed to save config: disk full");
    assert!(save.is_pending() && !save.in_flight());
    assert!(save.begin());
    save_finished(&mut state, &mut save, Ok(()));
    assert!(!save.needs_flush());
}

#[test]
fn a_loop_ends_once_everything_is_stored() {
    let mut state = State::default();
    let mut save = SaveScheduler::new("test");
    assert_eq!(save.exit_step(), ExitStep::Done);
    save.mark_dirty();
    assert_eq!(save.exit_step(), ExitStep::Store);
    assert!(save.begin());
    save.mark_dirty();
    assert_eq!(save.exit_step(), ExitStep::AwaitStore);
    save.finish(true);
    assert_eq!(save.exit_step(), ExitStep::Store);

    assert!(save.begin());
    exit_saved(&mut state, &mut save, ExitSave::NotStored("x".to_string()));
    assert_eq!(last_line(&state), "Failed to save config on exit: x");
    assert_eq!(save.exit_step(), ExitStep::Store);
    exit_saved(&mut state, &mut save, ExitSave::NotTaken("x".to_string()));
    assert_eq!(last_line(&state), "Failed to snapshot config on exit: x");
    assert!(save.begin());
    let lines = state.main_page.log.len();
    exit_saved(&mut state, &mut save, ExitSave::Stored);
    assert_eq!(state.main_page.log.len(), lines);
    assert_eq!(save.exit_step(), ExitStep::Done);
}

#[test]
fn a_community_is_called_by_its_best_name() {
    let mut config = Config::default();
    let did = "did:webvh:QmScidAAAAAAAAAAAAAAAAAAAAAAAA:example.com";
    assert_eq!(community_label(&config, did, Some("Acme"), 10), "Acme");
    assert_eq!(community_label(&config, did, None, 10), "did:webvh…");
    config.set_cached_agent_name(
        did,
        Some("example.com/@acme".to_string()),
        Timestamp { secs: 0, nanos: 0 },
    );
    assert_eq!(community_label(&config, did, None, 10), "example.com/@acme");
    assert_eq!(log_did(did), "did:webvh:QmScidAAAAAAAAAAAAA…");
    assert_eq!(log_did(did).chars().count(), 30);
    assert_eq!(log_did("did:web:x"), "did:web:x");
}

#[test]
fn the_loop_looks_around_at_fixed_periods() {
    assert_eq!(EXPIRY_PERIOD, 3600);
    assert_eq!(SWEEP_PERIOD, 5);
    assert_eq!(RECONCILE_PERIOD, 15);
    assert_eq!(REFRESH_PERIOD, 300);
    assert_eq!(POLL_PERIOD, 60);
}
