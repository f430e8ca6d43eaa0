use openvtc::actions::Action;
use openvtc::background_dispatch::{
    apply_outcome, apply_outcome_at, AfterApply, DispatchDomain, DispatchOutcome, InFlight,
    MintedPersona, ProgressUpdate, ReconnectOutcome,
};
use openvtc::config::Config;
use openvtc::content::{AdvertisedTransports, CreatePersonaPhase, CreatePersonaState};
use openvtc::identity::PersonaId;
use openvtc::navigation::handle_nav_action;
use openvtc::persona_binding::{resolve_batch, BindingSummary};
use openvtc::save::SaveScheduler;
use openvtc::state::{MainPanel, MediatorStatus, State};
use openvtc::time::Timestamp;
use std::future::poll_fn;
use std::task::Poll;
use tokio::sync::mpsc::{self, UnboundedReceiver};
use tokio::sync::oneshot;

#[test]
fn busy_guard_serialises_per_domain() {
    let mut in_flight = InFlight::default();

    assert!(in_flight.try_begin(DispatchDomain::Mediator));
    assert!(in_flight.is_busy(DispatchDomain::Mediator));

    assert!(!in_flight.try_begin(DispatchDomain::Mediator));

    in_flight.finish(DispatchDomain::Mediator);
    assert!(!in_flight.is_busy(DispatchDomain::Mediator));
    assert!(in_flight.try_begin(DispatchDomain::Mediator));
}

#[test]
fn r14_domains_serialise_independently() {
    let mut in_flight = InFlight::default();
    for domain in [DispatchDomain::Relationship, DispatchDomain::Inbox, DispatchDomain::Did] {
        assert!(in_flight.try_begin(domain), "{domain:?} should be free");
        assert!(!in_flight.try_begin(domain), "{domain:?} second claim must be rejected");
    }
    assert!(in_flight.is_busy(DispatchDomain::Relationship));
    assert!(in_flight.is_busy(DispatchDomain::Inbox));
    assert!(in_flight.is_busy(DispatchDomain::Did));
    assert!(in_flight.try_begin(DispatchDomain::Mediator));

    in_flight.finish(DispatchDomain::Inbox);
    assert!(!in_flight.is_busy(DispatchDomain::Inbox));
    assert!(in_flight.is_busy(DispatchDomain::Relationship));
    assert!(in_flight.try_begin(DispatchDomain::Inbox));
}

#[test]
fn apply_connected_outcome_sets_connected_and_clears_flag() {
    let mut state = State::default();
    let mut config = Config::default();
    let mut save = SaveScheduler::new("test");
    let mut in_flight = InFlight::default();
    assert!(in_flight.try_begin(DispatchDomain::Mediator));

    apply_outcome(
        &mut state,
        &mut config,
        &mut save,
        &mut in_flight,
        DispatchOutcome::MediatorReconnect(ReconnectOutcome::Connected),
    );

    assert!(matches!(state.connection.status, MediatorStatus::Connected));
    assert!(state.connection.messaging_active);
    assert!(
        !in_flight.is_busy(DispatchDomain::Mediator),
        "busy-flag must be cleared once the outcome is applied"
    );
    assert_eq!(state.main_page.log.last().unwrap().summary, "Reconnected to mediator");
}

#[test]
fn apply_failed_outcome_sets_failed_and_clears_flag() {
    let mut state = State::default();
    let mut config = Config::default();
    let mut save = SaveScheduler::new("test");
    let mut in_flight = InFlight::default();
    assert!(in_flight.try_begin(DispatchDomain::Mediator));

    apply_outcome(
        &mut state,
        &mut config,
        &mut save,
        &mut in_flight,
        DispatchOutcome::MediatorReconnect(ReconnectOutcome::Failed("dead mediator".into())),
    );

    match &state.connection.status {
        MediatorStatus::Failed(reason) => assert_eq!(reason, "dead mediator"),
        other => panic!("expected Failed status, got {other:?}"),
    }
    assert!(!state.connection.messaging_active);
    assert!(!in_flight.is_busy(DispatchDomain::Mediator));
    assert_eq!(state.main_page.log.last().unwrap().summary, "Reconnect failed: dead mediator");
}

#[test]
fn apply_panicked_outcome_clears_flag() {
    let mut state = State::default();
    let mut config = Config::default();
    let mut save = SaveScheduler::new("test");
    let mut in_flight = InFlight::default();
    assert!(in_flight.try_begin(DispatchDomain::Relationship));

    apply_outcome(
        &mut state,
        &mut config,
        &mut save,
        &mut in_flight,
        DispatchOutcome::Panicked(DispatchDomain::Relationship),
    );

    assert!(
        !in_flight.is_busy(DispatchDomain::Relationship),
        "a panicked job's domain must be freed, not left busy forever"
    );
    assert_eq!(
        state.main_page.log.last().unwrap().summary,
        "Relationship action failed (internal error)"
    );
}

#[test]
fn busy_message_names_the_domain() {
    let msg = InFlight::busy_message(DispatchDomain::Mediator);
    assert!(msg.contains("Mediator reconnect"));
    assert!(msg.contains("in progress"));
    assert_eq!(msg, "Mediator reconnect already in progress — please wait.");
}

/// What a loop that waits on both channels was woken by.
enum Woken {
    Action(Action),
    Outcome(DispatchOutcome),
}

/// Waits until one of the two channels delivers.
async fn next_event(
    actions: &mut UnboundedReceiver<Action>,
    outcomes: &mut UnboundedReceiver<DispatchOutcome>,
) -> Woken {
    poll_fn(|cx| {
        if let Poll::Ready(Some(action)) = actions.poll_recv(cx) {
            return Poll::Ready(Woken::Action(action));
        }
        if let Poll::Ready(Some(outcome)) = outcomes.poll_recv(cx) {
            return Poll::Ready(Woken::Outcome(outcome));
        }
        Poll::Pending
    })
    .await
}

/// Runs a loop beside a dispatch that completes only when it is released.
async fn run_beside_a_parked_dispatch() {
    let (action_tx, mut action_rx) = mpsc::unbounded_channel::<Action>();
    let (dispatch_tx, mut dispatch_rx) = mpsc::unbounded_channel::<DispatchOutcome>();
    let (release_tx, release_rx) = oneshot::channel::<()>();

    let mut state = State::default();
    let mut config = Config::default();
    let mut save = SaveScheduler::new("test");
    let mut in_flight = InFlight::default();

    assert!(in_flight.try_begin(DispatchDomain::Mediator));
    let bg_tx = dispatch_tx.clone();
    tokio::spawn(async move {
        let _ = release_rx.await;
        let _ = bg_tx.send(DispatchOutcome::MediatorReconnect(ReconnectOutcome::Connected));
    });

    assert!(action_tx.send(Action::MainPanelSwitch(MainPanel::ContentPanel)).is_ok());
    assert!(action_tx.send(Action::Exit).is_ok());

    let mut nav_seen = false;
    let exited = loop {
        match next_event(&mut action_rx, &mut dispatch_rx).await {
            Woken::Action(action) => {
                if handle_nav_action(&mut state, &action) {
                    nav_seen = true;
                    assert!(in_flight.is_busy(DispatchDomain::Mediator));
                    assert!(state.main_page.content_panel.selected);
                } else if matches!(action, Action::Exit) {
                    break true;
                }
            }
            Woken::Outcome(outcome) => {
                apply_outcome(&mut state, &mut config, &mut save, &mut in_flight, outcome);
            }
        }
    };

    assert!(nav_seen, "nav action must be processed while dispatch in flight");
    assert!(exited, "Exit must be honoured while dispatch in flight");
    assert!(
        in_flight.is_busy(DispatchDomain::Mediator),
        "dispatch was never released, so it is still in flight"
    );

    assert!(release_tx.send(()).is_ok());
    match next_event(&mut action_rx, &mut dispatch_rx).await {
        Woken::Outcome(outcome) => {
            apply_outcome(&mut state, &mut config, &mut save, &mut in_flight, outcome);
        }
        Woken::Action(_) => panic!("no action is left"),
    }
    assert!(!in_flight.is_busy(DispatchDomain::Mediator));
}

#[test]
fn loop_processes_nav_and_exit_while_dispatch_in_flight() {
    let runtime = tokio::runtime::Builder::new_current_thread().build().unwrap();
    runtime.block_on(run_beside_a_parked_dispatch());
}

#[test]
fn apply_agent_name_outcome_updates_cache_and_frees_domain() {
    let mut state = State::default();
    let mut config = Config::default();
    let mut save = SaveScheduler::new("test");
    let mut in_flight = InFlight::default();
    assert!(in_flight.try_begin(DispatchDomain::AgentName));

    apply_outcome(
        &mut state,
        &mut config,
        &mut save,
        &mut in_flight,
        DispatchOutcome::AgentName(vec![
            (
                "did:webvh:example.com:alice".to_string(),
                Some("example.com/@alice".to_string()),
            ),
            ("did:webvh:example.com:nameless".to_string(), None),
        ]),
    );

    assert!(
        !in_flight.is_busy(DispatchDomain::AgentName),
        "the batch's domain must be freed after apply"
    );
    assert_eq!(
        config.agent_name_for("did:webvh:example.com:alice"),
        Some("example.com/@alice")
    );
    assert!(config.agent_name_for("did:webvh:example.com:nameless").is_none());
    assert!(save.is_pending(), "a new mapping must mark the config dirty");
    assert!(state.main_page.sync_requested, "a new name has to be shown");

    let mut save2 = SaveScheduler::new("test");
    let mut again = State::default();
    assert!(in_flight.try_begin(DispatchDomain::AgentName));
    apply_outcome(
        &mut again,
        &mut config,
        &mut save2,
        &mut in_flight,
        DispatchOutcome::AgentName(vec![
            (
                "did:webvh:example.com:alice".to_string(),
                Some("example.com/@alice".to_string()),
            ),
            ("did:webvh:example.com:nameless".to_string(), None),
        ]),
    );
    assert!(!save2.is_pending(), "an unchanged sweep must not re-dirty the config");
    assert!(!again.main_page.sync_requested);
}

#[test]
fn progress_renders_a_step_without_freeing_the_domain() {
    let mut state = State::default();
    let mut config = Config::default();
    let mut save = SaveScheduler::new("test");
    let mut in_flight = InFlight::default();
    state.main_page.create_persona = Some(CreatePersonaState {
        phase: CreatePersonaPhase::Working,
        ..Default::default()
    });
    assert!(in_flight.try_begin(DispatchDomain::Persona));

    apply_outcome(
        &mut state,
        &mut config,
        &mut save,
        &mut in_flight,
        DispatchOutcome::Progress(ProgressUpdate::PersonaMint("Minting the DID…".into())),
    );

    assert!(
        in_flight.is_busy(DispatchDomain::Persona),
        "the job is still running, so its domain must stay claimed"
    );
    let messages = &state.main_page.create_persona.as_ref().unwrap().messages;
    assert_eq!(messages.last().map(String::as_str), Some("Minting the DID…"));
    assert_eq!(
        state.main_page.create_persona.as_ref().unwrap().phase,
        CreatePersonaPhase::Working,
        "progress never moves the phase — only the final outcome does"
    );
}

#[test]
fn progress_for_a_closed_overlay_is_dropped() {
    let mut state = State::default();
    let mut config = Config::default();
    let mut save = SaveScheduler::new("test");
    let mut in_flight = InFlight::default();

    apply_outcome(
        &mut state,
        &mut config,
        &mut save,
        &mut in_flight,
        DispatchOutcome::Progress(ProgressUpdate::PersonaMint("Minting…".into())),
    );

    assert!(state.main_page.create_persona.is_none());
}

fn at(secs: i64) -> Timestamp {
    Timestamp { secs, nanos: 0 }
}

#[test]
fn a_name_that_is_only_confirmed_is_not_worth_storing_but_a_negative_is() {
    let mut state = State::default();
    let mut config = Config::default();
    let mut save = SaveScheduler::new("test");
    let mut in_flight = InFlight::default();

    // A DID that turns out to have no name: remembered, but nothing to show.
    apply_outcome_at(
        &mut state,
        &mut config,
        &mut save,
        &mut in_flight,
        DispatchOutcome::AgentName(vec![("did:a".to_string(), None)]),
        at(1),
    );
    assert!(save.is_pending());
    assert!(!state.main_page.sync_requested);

    // The same again, later.
    let mut save = SaveScheduler::new("test");
    apply_outcome_at(
        &mut state,
        &mut config,
        &mut save,
        &mut in_flight,
        DispatchOutcome::AgentName(vec![("did:a".to_string(), None)]),
        at(2),
    );
    assert!(!save.is_pending());
    assert!(!state.main_page.sync_requested);

    // A name where there was none: stored and shown.
    apply_outcome_at(
        &mut state,
        &mut config,
        &mut save,
        &mut in_flight,
        DispatchOutcome::AgentName(vec![("did:a".to_string(), Some("x/@a".to_string()))]),
        at(3),
    );
    assert!(save.is_pending());
    assert!(state.main_page.sync_requested);
}

#[test]
fn bindings_are_merged_not_replaced() {
    let mut state = State::default();
    let mut config = Config::default();
    let mut save = SaveScheduler::new("test");
    let mut in_flight = InFlight::default();
    let a = ("ctx-a".to_string(), "did:a".to_string());
    let b = ("ctx-b".to_string(), "did:b".to_string());

    for (target, name) in [(a.clone(), "one"), (b.clone(), "two"), (a.clone(), "three")] {
        let summary = BindingSummary {
            bound: true,
            profile_name: Some(name.to_string()),
            ..Default::default()
        };
        apply_outcome(
            &mut state,
            &mut config,
            &mut save,
            &mut in_flight,
            DispatchOutcome::PersonaBinding(resolve_batch(vec![(target, summary)])),
        );
    }

    let bindings = &state.main_page.content_panel.communities.bindings;
    assert_eq!(bindings.get(&a).unwrap().profile_name.as_deref(), Some("three"));
    assert_eq!(bindings.get(&b).unwrap().profile_name.as_deref(), Some("two"));
    assert!(!save.is_pending(), "what is presented is never stored");
}

#[test]
fn outcomes_say_what_is_still_owed() {
    let mut state = State::default();
    let mut config = Config::default();
    let mut save = SaveScheduler::new("test");
    let mut in_flight = InFlight::default();

    assert!(in_flight.try_begin(DispatchDomain::Community));
    let after = apply_outcome(
        &mut state,
        &mut config,
        &mut save,
        &mut in_flight,
        DispatchOutcome::Community(Some(("did:vtc".to_string(), PersonaId(7)))),
    );
    match after {
        AfterApply::Deregister(vtc, persona) => {
            assert_eq!(vtc, "did:vtc");
            assert_eq!(persona, PersonaId(7));
        }
        other => panic!("expected Deregister, got {other:?}"),
    }
    assert!(!in_flight.is_busy(DispatchDomain::Community));

    assert!(in_flight.try_begin(DispatchDomain::Persona));
    let after = apply_outcome(
        &mut state,
        &mut config,
        &mut save,
        &mut in_flight,
        DispatchOutcome::Persona(Some(MintedPersona { did: "did:new".to_string() })),
    );
    match after {
        AfterApply::PersistPersona(minted) => assert_eq!(minted.did, "did:new"),
        other => panic!("expected PersistPersona, got {other:?}"),
    }
    assert!(!in_flight.is_busy(DispatchDomain::Persona));
}

#[test]
fn each_outcome_frees_its_own_work() {
    let outcomes = vec![
        (DispatchOutcome::Relationship, DispatchDomain::Relationship),
        (DispatchOutcome::Inbox, DispatchDomain::Inbox),
        (DispatchOutcome::Did, DispatchDomain::Did),
        (DispatchOutcome::AgentName(vec![]), DispatchDomain::AgentName),
        (
            DispatchOutcome::VtaTransports(AdvertisedTransports::default()),
            DispatchDomain::VtaTransports,
        ),
        (DispatchOutcome::AgentNameManage, DispatchDomain::AgentNameManage),
        (DispatchOutcome::Persona(None), DispatchDomain::Persona),
        (DispatchOutcome::Credential, DispatchDomain::Credential),
        (DispatchOutcome::Community(None), DispatchDomain::Community),
        (DispatchOutcome::Capabilities, DispatchDomain::Capabilities),
        (DispatchOutcome::PersonaBinding(resolve_batch(vec![])), DispatchDomain::PersonaBinding),
        (DispatchOutcome::Vic, DispatchDomain::Vic),
        (DispatchOutcome::VicMutation, DispatchDomain::Vic),
    ];
    for (outcome, domain) in outcomes {
        let mut state = State::default();
        let mut config = Config::default();
        let mut save = SaveScheduler::new("test");
        let mut in_flight = InFlight::default();
        assert!(in_flight.try_begin(domain));
        assert!(in_flight.try_begin(DispatchDomain::Mediator));
        assert_eq!(outcome.domain(), domain);
        apply_outcome(&mut state, &mut config, &mut save, &mut in_flight, outcome);
        assert!(!in_flight.is_busy(domain), "{domain:?}");
        assert!(in_flight.is_busy(DispatchDomain::Mediator));
    }
}

#[test]
fn advertised_transports_are_shown() {
    let mut state = State::default();
    let mut config = Config::default();
    let mut save = SaveScheduler::new("test");
    let mut in_flight = InFlight::default();
    let found = AdvertisedTransports {
        rest_url: Some("https://vta.example".to_string()),
        ..Default::default()
    };
    apply_outcome(
        &mut state,
        &mut config,
        &mut save,
        &mut in_flight,
        DispatchOutcome::VtaTransports(found.clone()),
    );
    assert_eq!(state.main_page.content_panel.vta.transports.advertised, Some(found));
    assert!(!save.is_pending());
}

#[test]
fn every_kind_of_work_has_a_name() {
    for (domain, name) in [
        (DispatchDomain::Mediator, "Mediator reconnect"),
        (DispatchDomain::Relationship, "Relationship action"),
        (DispatchDomain::Inbox, "Inbox action"),
        (DispatchDomain::Did, "Identity deletion"),
        (DispatchDomain::AgentName, "Agent name refresh"),
        (DispatchDomain::VtaTransports, "VTA transport probe"),
        (DispatchDomain::AgentNameManage, "Agent name change"),
        (DispatchDomain::Persona, "Persona creation"),
        (DispatchDomain::Credential, "Credential request"),
        (DispatchDomain::Community, "Community request"),
        (DispatchDomain::Capabilities, "Capability request"),
        (DispatchDomain::PersonaBinding, "Persona binding refresh"),
        (DispatchDomain::Vic, "Invitation credential refresh"),
    ] {
        assert_eq!(domain.label(), name);
    }
}

#[test]
fn a_store_that_fails_leaves_the_change_waiting() {
    let mut save = SaveScheduler::new("work");
    assert!(!save.can_begin());
    assert!(!save.begin(), "there is nothing to store");
    save.mark_dirty();
    assert!(save.can_begin());
    assert!(save.begin());
    assert!(save.in_flight() && !save.is_pending() && save.needs_flush());
    save.mark_dirty();
    assert!(!save.can_begin());
    assert!(!save.begin(), "one store runs at a time");
    save.finish(true);
    assert!(save.is_pending(), "what changed meanwhile still waits");
    assert!(save.begin());
    save.finish(false);
    assert!(save.is_pending() && !save.in_flight());
}
