//! Starting up: from the way the program was started to the first page.

use vstd::prelude::*;
use crate::actions::Interrupted;
use crate::config::{Config, DegradedPersona, Identity, KeyBackend, LoadIntegrity};
use crate::content::VtaState;
use crate::display::{shortened, truncate_did};
use crate::errors::OpenVTCError;
use crate::identity::PersonaId;
use crate::lifecycle::{integrity_detail, integrity_lines};
use crate::sessions::{aggregated, reconcile_sessions, any};
use crate::state::{
    detailed, failure, plain, ActivePage, ConnectionState, Diagnosis, LogLine, MainMenuConfigState,
    MainPageState, MediatorStatus, MenuPanelState, State,
};
use crate::text::{decimal, decimal_text, optional, same_text};
use serde_json::Value;

verus! {

/// What there is to load an account with.
#[derive(Clone, Debug)]
pub struct DeferredLoad {
    pub profile: String,
    /// The account's name, which can be read before the account is unlocked.
    pub friendly_name: String,
}

/// How the program was started.
#[derive(Clone, Debug)]
pub enum StartingMode {
    NotSet,
    /// With an account that is loaded already; says what the menu shows of it.
    MainPage(MainMenuConfigState),
    /// With an account that has to be loaded.
    MainPageDeferred(DeferredLoad),
    /// Without an account.
    SetupWizard,
}

/// Runs the program: which profile, how it was started, and the invitation it
/// was started with.
#[derive(Clone, Debug)]
pub struct StateHandler {
    pub profile: String,
    pub starting_mode: StartingMode,
    pub invitation_credential: Option<Value>,
}

impl StateHandler {
    /// A handler that was started without an invitation.
    pub fn new(profile: &str, starting_mode: StartingMode) -> (handler: Self)
        ensures
            handler.profile@ == profile@,
            handler.starting_mode == starting_mode,
            handler.invitation_credential is None,
    {
        StateHandler { profile: profile.to_owned(), starting_mode, invitation_credential: None }
    }

    /// Sets the invitation that a join presents. Without one nothing changes: an
    /// invitation that was set stays.
    pub fn set_invitation_credential(&mut self, vic: Option<Value>)
        ensures
            *final(self) == (match vic {
                Some(v) => StateHandler { invitation_credential: Some(v), ..*old(self) },
                None => *old(self),
            }),
    {
        if let Some(v) = vic {
            self.invitation_credential = Some(v);
        }
    }

    /// Hands the invitation to the state that the loop starts from, and returns
    /// the way the program was started.
    pub fn begin(&mut self, state: &mut State) -> (mode: StartingMode)
        ensures
            mode == old(self).starting_mode,
            *final(self) == (StateHandler {
                starting_mode: StartingMode::NotSet,
                invitation_credential: None,
                ..*old(self)
            }),
            *final(state) == (State {
                invitation_credential: old(self).invitation_credential,
                ..*old(state)
            }),
    {
        state.invitation_credential = self.invitation_credential.take();
        let mut mode = StartingMode::NotSet;
        std::mem::swap(&mut mode, &mut self.starting_mode);
        mode
    }
}

/// Shows the main page for an account that is loaded already.
pub fn show_main_page(state: &mut State, head: MainMenuConfigState)
    ensures
        final(state).logged(
            (State {
                active_page: ActivePage::Main,
                main_page: MainPageState {
                    menu_panel: MenuPanelState {
                        selected: true,
                        ..old(state).main_page.menu_panel
                    },
                    config: head,
                    ..old(state).main_page
                },
                ..*old(state)
            }),
            seq![plain("Configuration loaded"@)],
        ),
{
    state.active_page = ActivePage::Main;
    show_head(&mut state.main_page, head);
    state.main_page.log("Configuration loaded".to_owned());
}

fn show_head(page: &mut MainPageState, head: MainMenuConfigState)
    ensures
        *final(page) == (MainPageState {
            menu_panel: MenuPanelState { selected: true, ..old(page).menu_panel },
            config: head,
            ..*old(page)
        }),
{
    page.menu_panel.selected = true;
    page.config = head;
}

/// Whether `post` is `pre` on the loading page, saying what is being done.
pub open spec fn loading(pre: State, post: State, page: MainPageState, doing: Seq<char>) -> bool {
    &&& post == State {
        active_page: ActivePage::Loading,
        main_page: page,
        connection: post.connection,
        ..pre
    }
    &&& post.connection == ConnectionState { status: post.connection.status, ..pre.connection }
    &&& post.connection.status matches MediatorStatus::Initializing(words) && words@ == doing
}

fn say_initializing(connection: &mut ConnectionState, doing: String)
    ensures
        *final(connection) == (ConnectionState {
            status: MediatorStatus::Initializing(doing),
            ..*old(connection)
        }),
{
    connection.status = MediatorStatus::Initializing(doing);
}

/// Shows the loading page after the account was set up, while it is connected.
pub fn setup_finished(state: &mut State)
    ensures
        loading(
            *old(state),
            *final(state),
            (MainPageState {
                menu_panel: MenuPanelState { selected: true, ..old(state).main_page.menu_panel },
                sync_requested: true,
                ..old(state).main_page
            }),
            "Loading credentials..."@,
        ),
{
    state.active_page = ActivePage::Loading;
    state.main_page.menu_panel.selected = true;
    state.main_page.sync_requested = true;
    say_initializing(&mut state.connection, "Loading credentials...".to_owned());
}

/// What the log says once an account that was set up is ready.
pub open spec fn ready_lines(failed: Option<Seq<char>>) -> Seq<LogLine> {
    let done = plain("Setup complete — configuration loaded"@);
    match failed {
        Some(reason) => seq![failure("Warning: failed to load persona keys"@, reason), done],
        None => seq![done],
    }
}

/// Notes that an account that was set up is ready. `failed` says why its keys
/// could not be loaded, where they could not.
pub fn setup_ready(state: &mut State, failed: Option<String>)
    ensures
        final(state).logged(*old(state), ready_lines(optional(failed))),
{
    if let Some(reason) = &failed {
        state.main_page.log_error("Warning: failed to load persona keys", reason.as_str());
    }
    state.main_page.log("Setup complete — configuration loaded".to_owned());
    proof {
        assert(state.main_page.lines() =~= old(state).main_page.lines() + ready_lines(
            optional(failed),
        ));
    }
}

/// Whether there are keys to load: an account without a persona has none.
pub fn needs_persona_secrets(config: &Config) -> (yes: bool)
    ensures
        yes == (config.active() is Some),
{
    config.active_identity().is_some()
}

impl Config {
    /// The persona being worked as: the one that was chosen, or else the first
    /// there is.
    pub open spec fn active(self) -> Option<Identity> {
        let chosen = match self.active_persona {
            Some(id) => self.identity(id),
            None => None,
        };
        if chosen is Some {
            chosen
        } else if self.identities@.len() > 0 {
            Some(self.identities@[0])
        } else {
            None
        }
    }

    /// Finds the persona being worked as.
    pub fn active_identity(&self) -> (found: Option<&Identity>)
        ensures
            match found {
                Some(identity) => self.active() == Some(*identity),
                None => self.active() is None,
            },
    {
        if let Some(id) = self.active_persona {
            if let Some(identity) = self.identity_for(id) {
                return Some(identity);
            }
        }
        if self.identities.len() > 0 {
            Some(&self.identities[0])
        } else {
            None
        }
    }
}

/// Why setting up ended without an account.
#[derive(Clone, Debug)]
pub enum SetupWizardExit {
    /// The program is to end.
    Interrupted(Interrupted),
    /// It broke down; says why.
    Failed(String),
}

/// Why the program ends when setting up ended without an account.
pub fn setup_ended(exit: SetupWizardExit) -> (reason: Interrupted)
    ensures
        match exit {
            SetupWizardExit::Interrupted(asked) => reason == asked,
            SetupWizardExit::Failed(why) => reason matches Interrupted::SystemError(words) && words@
                == "Setup Wizard failed: "@ + why@,
        },
{
    match exit {
        SetupWizardExit::Interrupted(asked) => asked,
        SetupWizardExit::Failed(why) => {
            let mut words = "Setup Wizard failed: ".to_owned();
            words.append(why.as_str());
            Interrupted::SystemError(words)
        },
    }
}

/// Why the program ends when nobody said how to start it.
pub fn not_started() -> (reason: Interrupted)
    ensures
        reason matches Interrupted::SystemError(words) && words@ == "Starting Mode is Not Set!"@,
{
    Interrupted::SystemError("Starting Mode is Not Set!".to_owned())
}

/// Shows the loading page while an account is loaded. Nothing of it but its name
/// is known yet.
pub fn begin_deferred_load(state: &mut State, deferred: &DeferredLoad)
    ensures
        ({
            let head = final(state).main_page.config;
            &&& loading(
                *old(state),
                *final(state),
                MainPageState {
                    menu_panel: MenuPanelState {
                        selected: true,
                        ..old(state).main_page.menu_panel
                    },
                    config: head,
                    ..old(state).main_page
                },
                "Starting..."@,
            )
            &&& head.name == deferred.friendly_name
            &&& head.did@.len() == 0
            &&& head.agent_name is None
            &&& head.community@.len() == 0
        }),
{
    state.active_page = ActivePage::Loading;
    let head = MainMenuConfigState {
        name: deferred.friendly_name.clone(),
        did: String::new(),
        agent_name: None,
        community: String::new(),
    };
    show_head(&mut state.main_page, head);
    say_initializing(&mut state.connection, "Starting...".to_owned());
}

/// Something that happens while an account is loaded.
pub enum LoadingEvent {
    /// A step of loading: the part it belongs to, and the step.
    Progress(String, String),
    /// A hardware token waits to be touched, or was.
    TokenTouch(bool),
    Loaded,
    /// Loading failed; says why, and what may help.
    Failed(String, Diagnosis),
    /// Loading broke down; says why, and what may help.
    Broke(String, Diagnosis),
    /// The user asks for something; says whether to leave.
    Asked(bool),
    /// The program is to end.
    Interrupted(Interrupted),
}

/// What comes after something happened while an account is loaded.
pub enum LoadingStep {
    Wait,
    /// The account is loaded.
    Proceed,
    /// The account did not load, but the user can still look around.
    Degraded,
    /// Stop loading and end.
    Leave(Interrupted),
}

/// Whether something leads from `pre` to `post` and on to `step`, while an
/// account is loaded.
pub open spec fn loads(pre: State, event: LoadingEvent, post: State, step: LoadingStep) -> bool {
    match event {
        LoadingEvent::Progress(major, sub) => {
            &&& step == LoadingStep::Wait
            &&& post == State {
                tip_index: (if pre.tip_index == usize::MAX {
                    0
                } else {
                    pre.tip_index + 1
                }) as usize,
                connection: post.connection,
                ..pre
            }
            &&& post.connection == ConnectionState {
                status: post.connection.status,
                ..pre.connection
            }
            &&& post.connection.status matches MediatorStatus::Initializing(words) && words@
                == major@ + " — "@ + sub@
        },
        LoadingEvent::TokenTouch(pending) => step == LoadingStep::Wait && post == (State {
            token_touch_pending: pending,
            ..pre
        }),
        LoadingEvent::Loaded => step == LoadingStep::Proceed && post == pre,
        LoadingEvent::Failed(reason, diagnosis) => step == LoadingStep::Degraded && failed_with(
            pre,
            reason@,
            diagnosis,
            post,
        ),
        LoadingEvent::Broke(reason, diagnosis) => step == LoadingStep::Degraded && failed_with(
            pre,
            "Internal error: "@ + reason@,
            diagnosis,
            post,
        ),
        LoadingEvent::Asked(leave) => post == pre && step == (if leave {
            LoadingStep::Leave(Interrupted::UserInt)
        } else {
            LoadingStep::Wait
        }),
        LoadingEvent::Interrupted(reason) => post == pre && step == LoadingStep::Leave(reason),
    }
}

/// Whether `post` is `pre` showing why loading failed.
pub open spec fn failed_with(
    pre: State,
    reason: Seq<char>,
    diagnosis: Diagnosis,
    post: State,
) -> bool {
    &&& post == State {
        startup_diagnosis: Some(diagnosis),
        connection: post.connection,
        ..pre
    }
    &&& post.connection == ConnectionState { status: post.connection.status, ..pre.connection }
    &&& post.connection.status matches MediatorStatus::Failed(words) && words@ == reason
}

fn show_failure(state: &mut State, reason: String, diagnosis: Diagnosis)
    ensures
        failed_with(*old(state), reason@, diagnosis, *final(state)),
{
    state.startup_diagnosis = Some(diagnosis);
    state.connection.status = MediatorStatus::Failed(reason);
}

/// Takes in something that happens while an account is loaded.
pub fn loading_event(state: &mut State, event: LoadingEvent) -> (step: LoadingStep)
    ensures
        loads(*old(state), event, *final(state), step),
{
    match event {
        LoadingEvent::Progress(major, sub) => {
            state.tip_index = if state.tip_index == usize::MAX {
                0
            } else {
                state.tip_index + 1
            };
            let mut doing = major;
            doing.append(" — ");
            doing.append(sub.as_str());
            say_initializing(&mut state.connection, doing);
            LoadingStep::Wait
        },
        LoadingEvent::TokenTouch(pending) => {
            state.token_touch_pending = pending;
            LoadingStep::Wait
        },
        LoadingEvent::Loaded => LoadingStep::Proceed,
        LoadingEvent::Failed(reason, diagnosis) => {
            show_failure(state, reason, diagnosis);
            LoadingStep::Degraded
        },
        LoadingEvent::Broke(reason, diagnosis) => {
            let mut words = "Internal error: ".to_owned();
            words.append(reason.as_str());
            show_failure(state, words, diagnosis);
            LoadingStep::Degraded
        },
        LoadingEvent::Asked(leave) => if leave {
            LoadingStep::Leave(Interrupted::UserInt)
        } else {
            LoadingStep::Wait
        },
        LoadingEvent::Interrupted(reason) => LoadingStep::Leave(reason),
    }
}

/// The error to diagnose a failed start by: the library's own where it was one,
/// and otherwise the words of whatever it was.
pub fn startup_cause(typed: Option<OpenVTCError>, words: String) -> (cause: OpenVTCError)
    ensures
        cause == (match typed {
            Some(error) => error,
            None => OpenVTCError::Config(words),
        }),
{
    match typed {
        Some(error) => error,
        None => OpenVTCError::Config(words),
    }
}

/// The facts of a diagnosis, by name.
pub open spec fn diagnosis_facts(context: Seq<(String, String)>) -> Seq<(Seq<char>, Seq<char>)> {
    context.map_values(|fact: (String, String)| (fact.0@, fact.1@))
}

/// A diagnosis of a failed start, as it is shown and reported. `whole` is the
/// error with everything behind it, where it was none of the library's own.
pub fn diagnose_startup(diagnosis: Diagnosis, whole: Option<String>) -> (out: Diagnosis)
    ensures
        out.error == (match whole {
            Some(words) => words,
            None => diagnosis.error,
        }),
        out.context == diagnosis.context,
{
    match whole {
        Some(words) => Diagnosis { error: words, context: diagnosis.context },
        None => diagnosis,
    }
}

/// A diagnosis once its full report was to be written. `report` is where it was,
/// if it could be.
pub fn report_written(diagnosis: Diagnosis, report: Option<String>) -> (out: Diagnosis)
    ensures
        out.error == diagnosis.error,
        diagnosis_facts(out.context@) == (match optional(report) {
            Some(path) => diagnosis_facts(diagnosis.context@).push(("Full report"@, path)),
            None => diagnosis_facts(diagnosis.context@),
        }),
{
    let mut out = diagnosis;
    if let Some(path) = report {
        out.context.push(("Full report".to_owned(), path));
        proof {
            assert(diagnosis_facts(out.context@) =~= diagnosis_facts(diagnosis.context@).push(
                ("Full report"@, path@),
            ));
        }
    }
    out
}

/// What the log says of a persona that did not load.
pub open spec fn unavailable_line(persona: DegradedPersona) -> LogLine {
    plain(
        "Persona unavailable: "@ + (match persona.label {
            Some(label) => label@,
            None => shortened(persona.did@, 40),
        }) + " — "@ + persona.reason@,
    )
}

/// What the log says of the personas that did not load.
pub open spec fn unavailable_lines(personas: Seq<DegradedPersona>) -> Seq<LogLine> {
    personas.map_values(|p: DegradedPersona| unavailable_line(p))
}

/// What the log says once an account is loaded.
pub open spec fn loaded_lines(
    integrity: LoadIntegrity,
    storage_warning: Option<Seq<char>>,
) -> Seq<LogLine> {
    let found = if integrity.clean() {
        seq![plain("Configuration loaded"@)]
    } else {
        seq![detailed(integrity.headline@, integrity_lines(integrity))] + unavailable_lines(
            integrity.degraded_personas@,
        )
    };
    match storage_warning {
        Some(warning) => found.push(plain("WARNING: "@ + warning)),
        None => found,
    }
}

fn log_unavailable(page: &mut MainPageState, personas: &Vec<DegradedPersona>)
    ensures
        final(page).logged(*old(page), unavailable_lines(personas@)),
{
    let ghost before = page.lines();
    let mut i: usize = 0;
    proof {
        assert(before + unavailable_lines(personas@.take(0)) =~= before);
    }
    while i < personas.len()
        invariant
            i <= personas@.len(),
            *page == (MainPageState { log: page.log, ..*old(page) }),
            page.lines() == before + unavailable_lines(personas@.take(i as int)),
        decreases personas@.len() - i,
    {
        let persona = &personas[i];
        let mut line = "Persona unavailable: ".to_owned();
        let name = match &persona.label {
            Some(label) => label.clone(),
            None => truncate_did(persona.did.as_str(), 40),
        };
        line.append(name.as_str());
        line.append(" — ");
        line.append(persona.reason.as_str());
        page.log(line);
        proof {
            assert(personas@.take(i + 1) =~= personas@.take(i as int).push(personas@[i as int]));
            assert(page.lines() =~= before + unavailable_lines(personas@.take(i + 1)));
        }
        i = i + 1;
    }
    proof {
        assert(personas@.take(i as int) =~= personas@);
    }
}

fn log_loaded(page: &mut MainPageState, integrity: &LoadIntegrity, storage_warning: &Option<String>)
    ensures
        final(page).logged(*old(page), loaded_lines(*integrity, optional(*storage_warning))),
{
    let ghost before = page.lines();
    if integrity.is_clean() {
        page.log("Configuration loaded".to_owned());
    } else {
        page.log_detailed(integrity.headline.clone(), integrity_detail(integrity));
        log_unavailable(page, &integrity.degraded_personas);
        proof {
            let head = detailed(integrity.headline@, integrity_lines(*integrity));
            assert(page.lines() =~= before + (seq![head] + unavailable_lines(
                integrity.degraded_personas@,
            )));
        }
    }
    let ghost found = page.lines();
    if let Some(warning) = storage_warning {
        let mut line = "WARNING: ".to_owned();
        line.append(warning.as_str());
        page.log(line);
        proof {
            assert(page.lines() =~= before + loaded_lines(*integrity, Some(warning@)));
        }
    }
}

/// Shows an account that was loaded. What was found wrong is said in the log, and
/// kept until the user has seen it. A store that will not keep the profile's
/// secret is warned of, loudly.
pub fn config_loaded(state: &mut State, integrity: LoadIntegrity)
    ensures
        final(state).logged(
            (State {
                integrity: if integrity.clean() {
                    old(state).integrity
                } else {
                    Some(integrity)
                },
                main_page: MainPageState { sync_requested: true, ..old(state).main_page },
                ..*old(state)
            }),
            loaded_lines(
                integrity,
                optional(old(state).main_page.content_panel.settings.storage_warning),
            ),
        ),
{
    let warning = state.main_page.content_panel.settings.storage_warning.clone();
    state.main_page.sync_requested = true;
    log_loaded(&mut state.main_page, &integrity, &warning);
    if !integrity.is_clean() {
        state.integrity = Some(integrity);
    }
}

/// Where the session with the VTA comes from.
#[derive(Clone, Copy, Debug, PartialEq, Eq, Structural)]
pub enum AdminSession {
    /// The one that loading opened.
    Reuse,
    /// A new one.
    Open,
    /// There is none: the account's keys are not at a VTA.
    Absent,
}

/// Where the session with the VTA comes from. One is enough, so the one that
/// loading opened is used where there is one.
pub fn admin_session(loaded: bool, key_backend: &KeyBackend) -> (source: AdminSession)
    ensures
        source == (if loaded {
            AdminSession::Reuse
        } else if key_backend is Vta {
            AdminSession::Open
        } else {
            AdminSession::Absent
        }),
{
    if loaded {
        AdminSession::Reuse
    } else {
        match key_backend {
            KeyBackend::Vta { .. } => AdminSession::Open,
            KeyBackend::Bip32 => AdminSession::Absent,
        }
    }
}

/// The DID this install authenticates as, by which it knows itself among others.
pub fn self_did(key_backend: &KeyBackend) -> (did: Option<String>)
    ensures
        did == (match *key_backend {
            KeyBackend::Vta { credential_did, .. } => Some(credential_did),
            KeyBackend::Bip32 => None,
        }),
{
    match key_backend {
        KeyBackend::Vta { credential_did, .. } => Some(credential_did.clone()),
        KeyBackend::Bip32 => None,
    }
}

/// What the log says of putting membership credentials into the vault.
pub open spec fn credential_lines(stored: nat, failed: nat) -> Seq<LogLine> {
    let good = if stored > 0 {
        seq![
            plain(
                "Stored "@ + decimal(stored)
                    + " membership credential(s) at the VTA — this account can now be recovered from its Trust Context"@,
            ),
        ]
    } else {
        Seq::empty()
    };
    if failed > 0 {
        good.push(
            plain(
                decimal(failed)
                    + " membership credential(s) could not be stored at the VTA — this account may not be fully recoverable until they are"@,
            ),
        )
    } else {
        good
    }
}

/// Notes how many membership credentials went into the vault, and how many did
/// not: with them the account can be recovered.
pub fn credentials_stored(state: &mut State, stored: u64, failed: u64)
    ensures
        final(state).logged(*old(state), credential_lines(stored as nat, failed as nat)),
{
    if stored > 0 {
        let mut line = "Stored ".to_owned();
        let count = decimal_text(stored);
        line.append(count.as_str());
        line.append(
            " membership credential(s) at the VTA — this account can now be recovered from its Trust Context",
        );
        state.main_page.log(line);
    }
    if failed > 0 {
        let mut line = decimal_text(failed);
        line.append(
            " membership credential(s) could not be stored at the VTA — this account may not be fully recoverable until they are",
        );
        state.main_page.log(line);
    }
    proof {
        assert(state.main_page.lines() =~= old(state).main_page.lines() + credential_lines(
            stored as nat,
            failed as nat,
        ));
    }
}

/// A trust context at the VTA.
#[derive(Clone, Debug)]
pub struct TrustContext {
    pub name: String,
    /// The DID it belongs to, where it has one.
    pub did: Option<String>,
}

/// The first context at or after `from` that belongs to a DID.
pub open spec fn context_of(contexts: Seq<TrustContext>, did: Seq<char>, from: int) -> Option<
    TrustContext,
>
    decreases contexts.len() - from,
{
    if 0 <= from < contexts.len() {
        if optional(contexts[from].did) == Some(did) {
            Some(contexts[from])
        } else {
            context_of(contexts, did, from + 1)
        }
    } else {
        None
    }
}

/// The name to show for the context: that of the persona, or else the first.
pub open spec fn context_named(contexts: Seq<TrustContext>, did: Seq<char>) -> Option<String> {
    match context_of(contexts, did, 0) {
        Some(context) => Some(context.name),
        None => if contexts.len() > 0 {
            Some(contexts[0].name)
        } else {
            None
        },
    }
}

/// Picks the name to show for the context.
pub fn pick_context_name(contexts: &Vec<TrustContext>, persona_did: &str) -> (name: Option<String>)
    ensures
        name == context_named(contexts@, persona_did@),
{
    let mut i: usize = 0;
    while i < contexts.len()
        invariant
            i <= contexts@.len(),
            context_of(contexts@, persona_did@, 0) == context_of(
                contexts@,
                persona_did@,
                i as int,
            ),
        decreases contexts@.len() - i,
    {
        if let Some(did) = &contexts[i].did {
            if same_text(did.as_str(), persona_did) {
                return Some(contexts[i].name.clone());
            }
        }
        i = i + 1;
    }
    if contexts.len() > 0 {
        Some(contexts[0].name.clone())
    } else {
        None
    }
}

/// Shows the name of the context. Where the VTA has none to offer, what is shown
/// stays.
pub fn contexts_listed(state: &mut State, contexts: &Vec<TrustContext>, persona_did: &str)
    ensures
        *final(state) == (match context_named(contexts@, persona_did@) {
            Some(name) => old(state).with_vta(
                VtaState {
                    context_name: Some(name),
                    ..old(state).main_page.content_panel.vta
                },
            ),
            None => *old(state),
        }),
{
    if let Some(name) = pick_context_name(contexts, persona_did) {
        name_context(&mut state.main_page.content_panel.vta, name);
    }
}

fn name_context(vta: &mut VtaState, name: String)
    ensures
        *final(vta) == (VtaState { context_name: Some(name), ..*old(vta) }),
{
    vta.context_name = Some(name);
}

/// Offers to leave the loading page, and says whether the account has a persona
/// to be connected for. Without one it is in no community.
pub fn account_ready(state: &mut State, config: &Config) -> (has_persona: bool)
    ensures
        has_persona == (config.active() is Some),
        *final(state) == (State {
            loading_complete: true,
            connection: if has_persona {
                old(state).connection
            } else {
                ConnectionState {
                    status: MediatorStatus::NoActiveCommunity,
                    ..old(state).connection
                }
            },
            ..*old(state)
        }),
{
    state.loading_complete = true;
    if config.active_identity().is_some() {
        true
    } else {
        state.connection.status = MediatorStatus::NoActiveCommunity;
        false
    }
}

/// Works in a membership: the one that `selected` names, or none. The panels are
/// rebuilt, and the connection is on its way.
pub fn begin_working(
    state: &mut State,
    config: &mut Config,
    selected: Option<(String, PersonaId)>,
)
    ensures
        *final(config) == (Config {
            active_persona: match selected {
                Some(membership) => Some(membership.1),
                None => None,
            },
            ..*old(config)
        }),
        *final(state) == (State {
            selected_community: selected,
            main_page: MainPageState { sync_requested: true, ..old(state).main_page },
            connection: ConnectionState {
                status: MediatorStatus::Connecting,
                ..old(state).connection
            },
            ..*old(state)
        }),
{
    config.active_persona = match &selected {
        Some(membership) => Some(membership.1),
        None => None,
    };
    state.selected_community = selected;
    state.main_page.sync_requested = true;
    state.connection.status = MediatorStatus::Connecting;
}

/// The connection as it is first shown: as the sessions turn out to stand, and
/// connecting where nothing is known of them.
pub open spec fn first_connection(
    changes: Seq<bool>,
    any_connected: bool,
    sessions: nat,
) -> ConnectionState {
    let waiting = ConnectionState { status: MediatorStatus::Connecting, messaging_active: false };
    if any(changes) {
        aggregated(waiting, any_connected, sessions)
    } else {
        waiting
    }
}

/// Shows the connection for the first time. A session that is connected already
/// is shown as such: no further word of it may come.
pub fn seed_connection(
    state: &mut State,
    changes: &Vec<bool>,
    any_connected: bool,
    session_count: usize,
)
    ensures
        ({
            let first = first_connection(changes@, any_connected, session_count as nat);
            final(state).logged(
                State { connection: first, ..*old(state) },
                seq![
                    plain(
                        if first.status is Connected {
                            "Connected to the mediator."@
                        } else {
                            "Connecting to the mediator…"@
                        },
                    ),
                ],
            )
        }),
{
    state.connection = ConnectionState {
        status: MediatorStatus::Connecting,
        messaging_active: false,
    };
    let _ = reconcile_sessions(changes, any_connected, session_count, state);
    let connected: bool = matches!(state.connection.status, MediatorStatus::Connected);
    if connected {
        state.main_page.log("Connected to the mediator.".to_owned());
    } else {
        state.main_page.log("Connecting to the mediator…".to_owned());
    }
}

/// Sets the profile that the VTA panel shows.
pub fn show_profile(state: &mut State, profile: &str)
    ensures
        *final(state) == old(state).with_vta(
            (VtaState {
                profile: final(state).main_page.content_panel.vta.profile,
                ..old(state).main_page.content_panel.vta
            }),
        ),
        final(state).main_page.content_panel.vta.profile@ == profile@,
{
    name_profile(&mut state.main_page.content_panel.vta, profile.to_owned());
}

fn name_profile(vta: &mut VtaState, profile: String)
    ensures
        *final(vta) == (VtaState { profile, ..*old(vta) }),
{
    vta.profile = profile;
}

/// An account has a persona to work as exactly when any of its personas loaded,
/// however it came by them.
pub proof fn any_persona_will_do(config: Config)
    ensures
        config.active() is Some <==> config.identities@.len() > 0,
{
    if config.active_persona is Some {
        found_among(config.identities@, config.active_persona->0, 0);
    }
}

proof fn found_among(identities: Seq<Identity>, id: PersonaId, from: int)
    requires
        0 <= from,
    ensures
        crate::config::identity_numbered(identities, id, from) is Some ==> identities.len() > 0,
    decreases identities.len() - from,
{
    if from < identities.len() {
        found_among(identities, id, from + 1);
    }
}

/// A degraded load never looks like a clean one: the log opens with what was
/// found, and it is kept for the user to acknowledge.
pub proof fn a_degraded_load_is_told(
    integrity: LoadIntegrity,
    storage_warning: Option<Seq<char>>,
)
    requires
        !integrity.clean(),
    ensures
        loaded_lines(integrity, storage_warning)[0] == detailed(
            integrity.headline@,
            integrity_lines(integrity),
        ),
        loaded_lines(integrity, storage_warning).len() >= 1
            + integrity.degraded_personas@.len(),
{
}

/// The invitation that was set last is the one the loop starts with, whatever was
/// set before it; setting none takes none away. Starting hands it on and keeps
/// none back, and says how the program was started.
pub proof fn an_invitation_reaches_the_loop(
    handler: &mut StateHandler,
    vic: Option<Value>,
    state: &mut State,
    mode: StartingMode,
)
    ensures
        call_ensures(StateHandler::set_invitation_credential, (handler, vic), ()) ==> {
            &&& vic is Some ==> final(handler).invitation_credential == vic
            &&& vic is None ==> final(handler).invitation_credential
                == old(handler).invitation_credential
            &&& final(handler).profile == old(handler).profile
            &&& final(handler).starting_mode == old(handler).starting_mode
        },
        call_ensures(StateHandler::begin, (handler, state), mode) ==> {
            &&& final(state).invitation_credential == old(handler).invitation_credential
            &&& final(handler).invitation_credential is None
            &&& mode == old(handler).starting_mode
            &&& final(handler).profile == old(handler).profile
            &&& final(state).main_page == old(state).main_page
        },
{
}

/// An account that is loaded already is shown on the main page, with the menu in
/// focus and under its own head.
pub proof fn a_loaded_account_is_shown(state: &mut State, head: MainMenuConfigState)
    requires
        call_ensures(show_main_page, (state, head), ()),
    ensures
        final(state).active_page is Main,
        final(state).main_page.config == head,
        final(state).main_page.menu_panel.selected,
        final(state).main_page.menu_panel.selected_menu
            == old(state).main_page.menu_panel.selected_menu,
        final(state).main_page.lines().len() == old(state).main_page.lines().len() + 1,
        final(state).main_page.lines().last().summary == "Configuration loaded"@,
        final(state).main_page.content_panel == old(state).main_page.content_panel,
        final(state).connection == old(state).connection,
{
}

/// Once an account is set up, or while one is loaded, the loading page says what
/// is being done; of an account that is yet to be loaded only the name is shown.
pub proof fn loading_is_shown(state: &mut State, deferred: &DeferredLoad)
    ensures
        call_ensures(setup_finished, (state,), ()) ==> {
            &&& final(state).active_page is Loading
            &&& final(state).main_page.sync_requested
            &&& final(state).main_page.menu_panel.selected
            &&& final(state).connection.status matches MediatorStatus::Initializing(words)
                && words@ == "Loading credentials..."@
            &&& final(state).connection.messaging_active == old(state).connection.messaging_active
            &&& final(state).main_page.log == old(state).main_page.log
            &&& final(state).main_page.content_panel == old(state).main_page.content_panel
            &&& final(state).selected_community == old(state).selected_community
        },
        call_ensures(begin_deferred_load, (state, deferred), ()) ==> {
            &&& final(state).active_page is Loading
            &&& final(state).main_page.config.name@ == deferred.friendly_name@
            &&& final(state).main_page.config.did@.len() == 0
            &&& final(state).main_page.config.agent_name is None
            &&& final(state).main_page.config.community@.len() == 0
            &&& final(state).main_page.menu_panel.selected
            &&& final(state).connection.status matches MediatorStatus::Initializing(words)
                && words@ == "Starting..."@
            &&& final(state).main_page.sync_requested == old(state).main_page.sync_requested
            &&& final(state).main_page.log == old(state).main_page.log
            &&& final(state).main_page.content_panel == old(state).main_page.content_panel
            &&& final(state).connection.messaging_active == old(state).connection.messaging_active
        },
{
}

/// An account that was set up is logged as ready, after the reason where its keys
/// could not be loaded.
pub proof fn a_fresh_account_is_told_ready(state: &mut State, failed: Option<String>)
    requires
        call_ensures(setup_ready, (state, failed), ()),
    ensures
        ({
            let before = old(state).main_page.lines();
            let after = final(state).main_page.lines();
            &&& after.len() == before.len() + (if failed is Some {
                2int
            } else {
                1
            })
            &&& after.last().summary == "Setup complete — configuration loaded"@
            &&& failed matches Some(reason) ==> after[before.len() as int].summary
                == "Warning: failed to load persona keys"@ + ": "@ + reason@
        }),
        final(state).connection == old(state).connection,
{
}

/// The persona worked as is the chosen one where it loaded, and else the first
/// that did; there are keys to load exactly where there is one.
pub proof fn the_chosen_persona_is_worked_as(
    config: &Config,
    found: Option<&Identity>,
    needed: bool,
    i: int,
)
    requires
        call_ensures(Config::active_identity, (config,), found),
        call_ensures(needs_persona_secrets, (config,), needed),
    ensures
        needed <==> found is Some,
        found is Some <==> config.identities@.len() > 0,
        0 <= i < config.identities@.len() && config.active_persona == Some(
            config.identities@[i].persona_id,
        ) ==> (found matches Some(who) && who.persona_id == config.identities@[i].persona_id),
        (forall|j: int|
            0 <= j < config.identities@.len() ==> config.active_persona != Some(
                (#[trigger] config.identities@[j]).persona_id,
            )) && config.identities@.len() > 0 ==> (found matches Some(who) && *who
            == config.identities@[0]),
{
    any_persona_will_do(*config);
    if let Some(id) = config.active_persona {
        crate::config::the_first_identity_is_found(config.identities@, id, 0);
    }
}

/// The program ends after setting up for the reason it was asked to, or for what
/// broke down, which is said; and it does not run where nobody said how.
pub proof fn setting_up_ends_for_its_reason(
    exit: SetupWizardExit,
    reason: Interrupted,
    unset: Interrupted,
)
    requires
        call_ensures(setup_ended, (exit,), reason),
        call_ensures(not_started, (), unset),
    ensures
        exit matches SetupWizardExit::Interrupted(asked) ==> reason == asked,
        exit matches SetupWizardExit::Failed(why) ==> (reason matches Interrupted::SystemError(
            words,
        ) && words@ == "Setup Wizard failed: "@ + why@),
        unset matches Interrupted::SystemError(words) && words@ == "Starting Mode is Not Set!"@,
{
}

/// Loading goes on until the account is there, it failed, or the program is to
/// end; the user leaves exactly by asking to. Each step is shown with its part,
/// and each failure with its reason and what may help.
pub proof fn loading_goes_step_by_step(state: &mut State, event: LoadingEvent, step: LoadingStep)
    requires
        call_ensures(loading_event, (state, event), step),
    ensures
        step is Proceed <==> event is Loaded,
        step is Degraded <==> event is Failed || event is Broke,
        step is Leave <==> event is Interrupted || event == LoadingEvent::Asked(true),
        event == LoadingEvent::Asked(true) ==> step == LoadingStep::Leave(Interrupted::UserInt),
        event matches LoadingEvent::Interrupted(reason) ==> step == LoadingStep::Leave(reason),
        event matches LoadingEvent::Progress(major, sub) ==> (
        final(state).connection.status matches MediatorStatus::Initializing(words) && words@
            == major@ + " — "@ + sub@) && (old(state).tip_index < usize::MAX
                ==> final(state).tip_index == old(state).tip_index + 1) && (old(state).tip_index
                == usize::MAX ==> final(state).tip_index == 0),
        event matches LoadingEvent::TokenTouch(pending) ==> final(state).token_touch_pending
            == pending && final(state).connection == old(state).connection,
        event matches LoadingEvent::Failed(reason, diagnosis) ==> final(state).startup_diagnosis
            == Some(diagnosis) && (final(state).connection.status matches MediatorStatus::Failed(
            words,
        ) && words@ == reason@),
        event matches LoadingEvent::Broke(reason, diagnosis) ==> final(state).startup_diagnosis
            == Some(diagnosis) && (final(state).connection.status matches MediatorStatus::Failed(
            words,
        ) && words@ == "Internal error: "@ + reason@),
        event is Loaded || event is Asked || event is Interrupted ==> *final(state) == *old(state),
        !(event is TokenTouch) ==> final(state).token_touch_pending == old(state).token_touch_pending,
        final(state).main_page == old(state).main_page,
        final(state).active_page == old(state).active_page,
{
}

/// A failed start is diagnosed by the library's own error where there is one, and
/// by its words otherwise; the whole error is shown where it was none of the
/// library's own.
pub proof fn a_failed_start_is_diagnosed(
    typed: Option<OpenVTCError>,
    words: String,
    cause: OpenVTCError,
    diagnosis: Diagnosis,
    whole: Option<String>,
    out: Diagnosis,
)
    requires
        call_ensures(startup_cause, (typed, words), cause),
        call_ensures(diagnose_startup, (diagnosis, whole), out),
    ensures
        typed matches Some(error) ==> cause == error,
        typed is None ==> cause == OpenVTCError::Config(words),
        whole matches Some(full) ==> out.error@ == full@,
        whole is None ==> out.error@ == diagnosis.error@,
        out.context@ == diagnosis.context@,
{
}

/// Where the full report was written is the last fact of a diagnosis, after all
/// that were there; where it was not, no fact is added.
pub proof fn a_written_report_is_named(diagnosis: Diagnosis, report: Option<String>, out: Diagnosis)
    requires
        call_ensures(report_written, (diagnosis, report), out),
    ensures
        out.error@ == diagnosis.error@,
        report is None ==> out.context@.len() == diagnosis.context@.len(),
        report matches Some(path) ==> out.context@.len() == diagnosis.context@.len() + 1
            && out.context@.last().0@ == "Full report"@ && out.context@.last().1@ == path@,
        forall|i: int|
            0 <= i < diagnosis.context@.len() ==> (#[trigger] out.context@[i]).0@
                == diagnosis.context@[i].0@ && out.context@[i].1@ == diagnosis.context@[i].1@,
{
    let after = diagnosis_facts(out.context@);
    let before = diagnosis_facts(diagnosis.context@);
    assert(after.len() == out.context@.len());
    assert(before.len() == diagnosis.context@.len());
    assert forall|i: int| 0 <= i < diagnosis.context@.len() implies (
    #[trigger] out.context@[i]).0@ == diagnosis.context@[i].0@ && out.context@[i].1@
        == diagnosis.context@[i].1@ by {
        assert(after[i] == (out.context@[i].0@, out.context@[i].1@));
        assert(before[i] == (diagnosis.context@[i].0@, diagnosis.context@[i].1@));
    }
    if report is Some {
        let n = before.len() as int;
        assert(after[n] == (out.context@[n].0@, out.context@[n].1@));
    }
}

/// An account that was loaded is logged: as loaded where nothing is wrong, and
/// else by what was found, with a line for each persona that is missing, which is
/// then kept until the user has seen it. A store that will not keep the secret is
/// warned of last.
pub proof fn a_load_is_told_as_it_went(state: &mut State, integrity: LoadIntegrity)
    requires
        call_ensures(config_loaded, (state, integrity), ()),
    ensures
        ({
            let before = old(state).main_page.lines();
            let after = final(state).main_page.lines();
            let n = before.len() as int;
            let missing = integrity.degraded_personas@;
            let warning = old(state).main_page.content_panel.settings.storage_warning;
            let clean = missing.len() == 0 && integrity.stranded_memberships@.len() == 0
                && integrity.orphaned_key_ids@.len() == 0;
            let warned: int = if warning is Some {
                1
            } else {
                0
            };
            &&& clean ==> after.len() == n + 1 + warned && after[n].summary
                == "Configuration loaded"@ && after[n].detail is None
            &&& !clean ==> after.len() == n + 1 + missing.len() + warned && after[n].summary
                == integrity.headline@ && after[n].detail is Some
            &&& !clean ==> forall|i: int|
                0 <= i < missing.len() ==> after[n + 1 + i].summary == "Persona unavailable: "@ + (
                match (#[trigger] missing[i]).label {
                    Some(label) => label@,
                    None => shortened(missing[i].did@, 40),
                }) + " — "@ + missing[i].reason@
            &&& warning matches Some(words) ==> after.last().summary == "WARNING: "@ + words@
            &&& !clean ==> final(state).integrity == Some(integrity)
            &&& clean ==> final(state).integrity == old(state).integrity
        }),
        final(state).main_page.sync_requested,
        final(state).connection == old(state).connection,
        final(state).main_page.content_panel == old(state).main_page.content_panel,
{
    let before = old(state).main_page.lines();
    let after = final(state).main_page.lines();
    let n = before.len() as int;
    let missing = integrity.degraded_personas@;
    if !integrity.clean() {
        assert forall|i: int| 0 <= i < missing.len() implies after[n + 1 + i].summary
            == "Persona unavailable: "@ + (match (#[trigger] missing[i]).label {
            Some(label) => label@,
            None => shortened(missing[i].did@, 40),
        }) + " — "@ + missing[i].reason@ by {
            assert(unavailable_lines(missing)[i] == unavailable_line(missing[i]));
        }
    }
}

/// The session that loading opened is used where there is one, a new one is opened
/// for an account at a VTA, and an account without a VTA has none; nor has it a
/// DID to authenticate as.
pub proof fn one_session_with_the_vta_is_enough(
    loaded: bool,
    backend: &KeyBackend,
    source: AdminSession,
    did: Option<String>,
)
    requires
        call_ensures(admin_session, (loaded, backend), source),
        call_ensures(self_did, (backend,), did),
    ensures
        source is Reuse <==> loaded,
        source is Open <==> !loaded && *backend is Vta,
        source is Absent <==> !loaded && *backend is Bip32,
        did is Some <==> *backend is Vta,
        *backend matches KeyBackend::Vta { vta_did, credential_did } ==> (did matches Some(own)
            && own@ == credential_did@),
{
}

/// How many credentials went into the vault and how many did not is said, each
/// where there are any.
pub proof fn stored_credentials_are_counted(state: &mut State, stored: u64, failed: u64)
    requires
        call_ensures(credentials_stored, (state, stored, failed), ()),
    ensures
        ({
            let before = old(state).main_page.lines();
            let after = final(state).main_page.lines();
            let n = before.len() as int;
            let good: int = if stored > 0 {
                1
            } else {
                0
            };
            let bad: int = if failed > 0 {
                1
            } else {
                0
            };
            &&& after.len() == n + good + bad
            &&& stored > 0 ==> after[n].summary == "Stored "@ + decimal(stored as nat)
                + " membership credential(s) at the VTA — this account can now be recovered from its Trust Context"@
            &&& failed > 0 ==> after[n + good].summary == decimal(failed as nat)
                + " membership credential(s) could not be stored at the VTA — this account may not be fully recoverable until they are"@
        }),
{
}

proof fn the_first_context_is_found(contexts: Seq<TrustContext>, did: Seq<char>, from: int)
    requires
        0 <= from <= contexts.len(),
    ensures
        match context_of(contexts, did, from) {
            Some(found) => exists|i: int|
                from <= i < contexts.len() && #[trigger] contexts[i] == found && optional(found.did)
                    == Some(did) && forall|j: int|
                    from <= j < i ==> optional((#[trigger] contexts[j]).did) != Some(did),
            None => forall|j: int|
                from <= j < contexts.len() ==> optional((#[trigger] contexts[j]).did) != Some(did),
        },
    decreases contexts.len() - from,
{
    if from < contexts.len() {
        if optional(contexts[from].did) == Some(did) {
            assert(contexts[from] == contexts[from]);
        } else {
            the_first_context_is_found(contexts, did, from + 1);
            if let Some(found) = context_of(contexts, did, from + 1) {
                let i = choose|i: int|
                    from + 1 <= i < contexts.len() && #[trigger] contexts[i] == found && optional(
                        found.did,
                    ) == Some(did) && forall|j: int|
                        from + 1 <= j < i ==> optional((#[trigger] contexts[j]).did) != Some(did);
                assert(contexts[i] == found);
            }
        }
    }
}

/// The context is named after the first one that belongs to the persona, else
/// after the first there is; where the VTA lists none, what is shown stays.
pub proof fn the_personas_context_is_named(
    state: &mut State,
    contexts: &Vec<TrustContext>,
    persona_did: &str,
    i: int,
)
    requires
        call_ensures(contexts_listed, (state, contexts, persona_did), ()),
    ensures
        ({
            let belongs = |j: int|
                contexts@[j].did matches Some(did) && did@ == persona_did@;
            let shown = final(state).main_page.content_panel.vta.context_name;
            &&& contexts@.len() == 0 ==> *final(state) == *old(state)
            &&& 0 <= i < contexts@.len() && belongs(i) && (forall|j: int|
                0 <= j < i ==> !#[trigger] belongs(j)) ==> shown == Some(contexts@[i].name)
            &&& contexts@.len() > 0 && (forall|j: int|
                0 <= j < contexts@.len() ==> !#[trigger] belongs(j)) ==> shown == Some(
                contexts@[0].name,
            )
        }),
        final(state).main_page.content_panel.vta.context_dids
            == old(state).main_page.content_panel.vta.context_dids,
        final(state).main_page.log == old(state).main_page.log,
{
    let belongs = |j: int| contexts@[j].did matches Some(did) && did@ == persona_did@;
    the_first_context_is_found(contexts@, persona_did@, 0);
    if let Some(found) = context_of(contexts@, persona_did@, 0) {
        let p = choose|p: int|
            0 <= p < contexts@.len() && #[trigger] contexts@[p] == found && optional(found.did)
                == Some(persona_did@) && forall|j: int|
                0 <= j < p ==> optional((#[trigger] contexts@[j]).did) != Some(persona_did@);
        assert(belongs(p));
        if 0 <= i < contexts@.len() && belongs(i) && (forall|j: int|
            0 <= j < i ==> !#[trigger] belongs(j)) {
            if p < i {
                assert(!belongs(p));
            }
            if i < p {
                assert(optional(contexts@[i].did) != Some(persona_did@));
            }
            assert(p == i);
        }
    } else {
        if 0 <= i < contexts@.len() {
            assert(optional(contexts@[i].did) != Some(persona_did@));
        }
    }
}

/// The loading page can be left once the account is ready. Where no persona
/// loaded there is no community to be connected for, and the connection says so.
pub proof fn a_ready_account_lets_the_user_in(state: &mut State, config: &Config, ready: bool)
    requires
        call_ensures(account_ready, (state, config), ready),
    ensures
        final(state).loading_complete,
        ready <==> config.identities@.len() > 0,
        ready ==> final(state).connection == old(state).connection,
        !ready ==> final(state).connection.status is NoActiveCommunity
            && final(state).connection.messaging_active == old(state).connection.messaging_active,
        final(state).main_page == old(state).main_page,
        final(state).active_page == old(state).active_page,
{
    any_persona_will_do(*config);
}

/// Work begins in the membership that was chosen, as its persona, with the panels
/// to be rebuilt and the connection on its way.
pub proof fn work_begins_in_the_chosen_membership(
    state: &mut State,
    config: &mut Config,
    selected: Option<(String, PersonaId)>,
)
    requires
        call_ensures(begin_working, (state, config, selected), ()),
    ensures
        final(state).selected_community == selected,
        selected matches Some(membership) ==> final(config).active_persona == Some(membership.1),
        selected is None ==> final(config).active_persona is None,
        final(state).main_page.sync_requested,
        final(state).connection.status is Connecting,
        final(state).connection.messaging_active == old(state).connection.messaging_active,
        final(state).main_page.log == old(state).main_page.log,
        final(config).account == old(config).account,
        final(config).private == old(config).private,
        final(config).identities == old(config).identities,
{
}

/// The connection is first shown as up exactly where a session turned out to be
/// connected already, and the log says which it is.
pub proof fn a_session_that_is_up_is_shown_at_once(
    state: &mut State,
    changes: &Vec<bool>,
    any_connected: bool,
    sessions: usize,
    i: int,
)
    requires
        call_ensures(seed_connection, (state, changes, any_connected, sessions), ()),
    ensures
        0 <= i < changes@.len() && changes@[i] && any_connected
            ==> final(state).connection.status is Connected
            && final(state).connection.messaging_active,
        !any_connected || (forall|j: int| 0 <= j < changes@.len() ==> !#[trigger] changes@[j])
            ==> final(state).connection.status is Connecting
                && !final(state).connection.messaging_active,
        final(state).main_page.lines().len() == old(state).main_page.lines().len() + 1,
        final(state).main_page.lines().last().summary == (
        if final(state).connection.status is Connected {
            "Connected to the mediator."@
        } else {
            "Connecting to the mediator…"@
        }),
        final(state).main_page.content_panel == old(state).main_page.content_panel,
{
}

/// The panel shows the profile it is told to, and is otherwise as it was.
pub proof fn the_profile_is_shown(state: &mut State, profile: &str)
    requires
        call_ensures(show_profile, (state, profile), ()),
    ensures
        final(state).main_page.content_panel.vta.profile@ == profile@,
        final(state).main_page.content_panel.vta.context_dids
            == old(state).main_page.content_panel.vta.context_dids,
        final(state).main_page.content_panel.vta.vics == old(state).main_page.content_panel.vta.vics,
        final(state).main_page.log == old(state).main_page.log,
        final(state).connection == old(state).connection,
{
}

/// A new handler is its profile's, is started as it was told to be, and has no
/// invitation yet.
pub proof fn a_new_handler_has_no_invitation(
    profile: &str,
    mode: StartingMode,
    handler: StateHandler,
)
    requires
        call_ensures(StateHandler::new, (profile, mode), handler),
    ensures
        handler.profile@ == profile@,
        handler.starting_mode == mode,
        handler.invitation_credential is None,
{
}

} // verus!
