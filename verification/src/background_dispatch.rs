//! Work that runs beside the loop, and what becomes of its outcome. The work
//! itself only reads and sends; everything it changes is changed here.

use vstd::prelude::*;
use crate::config::{CachedName, Config, PrivateConfig};
use crate::content::{AdvertisedTransports, CommunitiesState, CreatePersonaState, VtaState, VtaTransports};
use crate::identity::PersonaId;
use crate::keyed::Keyed;
use crate::outside::utc_now;
use crate::persona_binding::{BindingSummary, BindingTarget};
use crate::save::SaveScheduler;
use crate::state::{plain, ConnectionState, MainPageState, MediatorStatus, State};
use crate::text::{optional, same_optional};
use crate::time::Timestamp;

verus! {

/// A kind of work of which one piece runs at a time. Different kinds do not
/// wait for each other.
#[derive(Clone, Copy, Debug, PartialEq, Eq, Hash, Structural)]
pub enum DispatchDomain {
    /// Connecting to another mediator, or again.
    Mediator,
    /// Creating, pinging or removing a relationship.
    Relationship,
    /// Accepting or rejecting what is in the inbox.
    Inbox,
    /// Deleting an identity.
    Did,
    /// Looking up agent names to show.
    AgentName,
    /// Looking up what transports the VTA offers.
    VtaTransports,
    /// Claiming, parking, resuming or removing an agent name.
    AgentNameManage,
    /// Minting a persona.
    Persona,
    /// Asking a peer for a credential.
    Credential,
    /// Sending something to a community.
    Community,
    /// Asking about or changing a community's capabilities.
    Capabilities,
    /// Asking what each persona presents.
    PersonaBinding,
    /// Reading or changing the invitations in the vault.
    Vic,
}

impl DispatchDomain {
    /// What the work is called.
    pub open spec fn name(self) -> Seq<char> {
        match self {
            DispatchDomain::Mediator => "Mediator reconnect"@,
            DispatchDomain::Relationship => "Relationship action"@,
            DispatchDomain::Inbox => "Inbox action"@,
            DispatchDomain::Did => "Identity deletion"@,
            DispatchDomain::AgentName => "Agent name refresh"@,
            DispatchDomain::VtaTransports => "VTA transport probe"@,
            DispatchDomain::AgentNameManage => "Agent name change"@,
            DispatchDomain::Persona => "Persona creation"@,
            DispatchDomain::Credential => "Credential request"@,
            DispatchDomain::Community => "Community request"@,
            DispatchDomain::Capabilities => "Capability request"@,
            DispatchDomain::PersonaBinding => "Persona binding refresh"@,
            DispatchDomain::Vic => "Invitation credential refresh"@,
        }
    }

    /// What the work is called.
    pub fn label(self) -> (text: &'static str)
        ensures
            text@ == self.name(),
    {
        match self {
            DispatchDomain::Mediator => "Mediator reconnect",
            DispatchDomain::Relationship => "Relationship action",
            DispatchDomain::Inbox => "Inbox action",
            DispatchDomain::Did => "Identity deletion",
            DispatchDomain::AgentName => "Agent name refresh",
            DispatchDomain::VtaTransports => "VTA transport probe",
            DispatchDomain::AgentNameManage => "Agent name change",
            DispatchDomain::Persona => "Persona creation",
            DispatchDomain::Credential => "Credential request",
            DispatchDomain::Community => "Community request",
            DispatchDomain::Capabilities => "Capability request",
            DispatchDomain::PersonaBinding => "Persona binding refresh",
            DispatchDomain::Vic => "Invitation credential refresh",
        }
    }
}

/// What is said where a piece of work cannot start because one is running.
pub open spec fn busy_words(domain: DispatchDomain) -> Seq<char> {
    domain.name() + " already in progress — please wait."@
}

/// The kinds of work that are under way.
#[derive(Debug)]
pub struct InFlight {
    domains: Vec<DispatchDomain>,
}

impl View for InFlight {
    type V = Set<DispatchDomain>;

    closed spec fn view(&self) -> Set<DispatchDomain> {
        Set::new(|domain: DispatchDomain| self.domains@.contains(domain))
    }
}

impl Default for InFlight {
    /// Nothing is under way.
    fn default() -> (in_flight: Self)
        ensures
            in_flight@ == Set::<DispatchDomain>::empty(),
    {
        let in_flight = InFlight { domains: Vec::new() };
        proof {
            assert(in_flight@ =~= Set::<DispatchDomain>::empty());
        }
        in_flight
    }
}

impl InFlight {
    /// Claims a kind of work, and says whether it was free.
    pub fn try_begin(&mut self, domain: DispatchDomain) -> (begun: bool)
        ensures
            begun == !old(self)@.contains(domain),
            final(self)@ == old(self)@.insert(domain),
    {
        if self.is_busy(domain) {
            proof {
                assert(self@ =~= old(self)@.insert(domain));
            }
            return false;
        }
        let ghost before = self.domains@;
        self.domains.push(domain);
        proof {
            assert forall|d: DispatchDomain|
                before.push(domain).contains(d) <==> before.contains(d) || d == domain by {
                if before.contains(d) {
                    let i = choose|i: int| 0 <= i < before.len() && before[i] == d;
                    assert(before.push(domain)[i] == d);
                }
                if d == domain {
                    assert(before.push(domain)[before.len() as int] == d);
                }
            }
            assert(self@ =~= old(self)@.insert(domain));
        }
        true
    }

    /// Gives a kind of work free.
    pub fn finish(&mut self, domain: DispatchDomain)
        ensures
            final(self)@ == old(self)@.remove(domain),
    {
        let ghost before = self.domains@;
        let mut kept: Vec<DispatchDomain> = Vec::new();
        let mut i: usize = 0;
        while i < self.domains.len()
            invariant
                self.domains@ == before,
                i <= before.len(),
                forall|d: DispatchDomain| #[trigger]
                    kept@.contains(d) <==> d != domain && before.take(i as int).contains(d),
            decreases before.len() - i,
        {
            let next = self.domains[i];
            let ghost so_far = kept@;
            if next != domain {
                kept.push(next);
            }
            proof {
                let seen = before.take(i as int);
                let seen_now = before.take(i + 1);
                assert(seen_now =~= seen.push(next));
                assert forall|d: DispatchDomain| #[trigger]
                    kept@.contains(d) <==> d != domain && seen_now.contains(d) by {
                    assert(so_far.contains(d) <==> d != domain && seen.contains(d));
                    if so_far.contains(d) {
                        let j = choose|j: int| 0 <= j < so_far.len() && so_far[j] == d;
                        assert(kept@[j] == d);
                    }
                    if seen.contains(d) {
                        let j = choose|j: int| 0 <= j < seen.len() && seen[j] == d;
                        assert(seen_now[j] == d);
                    }
                    if d == next {
                        assert(seen_now[i as int] == d);
                        if d != domain {
                            assert(kept@[so_far.len() as int] == d);
                        }
                    }
                }
            }
            i = i + 1;
        }
        proof {
            assert(before.take(i as int) =~= before);
        }
        self.domains = kept;
        proof {
            assert(self@ =~= old(self)@.remove(domain));
        }
    }

    /// Whether a kind of work is under way.
    pub fn is_busy(&self, domain: DispatchDomain) -> (busy: bool)
        ensures
            busy == self@.contains(domain),
    {
        let mut i: usize = 0;
        while i < self.domains.len()
            invariant
                i <= self.domains@.len(),
                forall|j: int| 0 <= j < i ==> self.domains@[j] != domain,
            decreases self.domains@.len() - i,
        {
            if self.domains[i] == domain {
                return true;
            }
            i = i + 1;
        }
        false
    }

    /// What is said where a piece of work cannot start because one is running.
    pub fn busy_message(domain: DispatchDomain) -> (text: String)
        ensures
            text@ == busy_words(domain),
    {
        let mut text = domain.label().to_owned();
        text.append(" already in progress — please wait.");
        text
    }
}

/// What connecting to a mediator came to.
#[derive(Clone, Debug)]
pub enum ReconnectOutcome {
    Connected,
    /// Not connected; says why.
    Failed(String),
}

/// A persona that has been minted and is not in the account yet.
#[derive(Clone, Debug)]
pub struct MintedPersona {
    pub did: String,
}

/// A step that a running piece of work has reached.
#[derive(Clone, Debug)]
pub enum ProgressUpdate {
    /// A step of minting a persona.
    PersonaMint(String),
}

impl ProgressUpdate {
    /// The kind of work that reports.
    pub open spec fn of(self) -> DispatchDomain {
        match self {
            ProgressUpdate::PersonaMint(_) => DispatchDomain::Persona,
        }
    }

    /// The kind of work that reports.
    pub fn domain(&self) -> (domain: DispatchDomain)
        ensures
            domain == self.of(),
    {
        match self {
            ProgressUpdate::PersonaMint(_) => DispatchDomain::Persona,
        }
    }
}

/// What a piece of work came to. Where a panel applies an outcome itself, what
/// is left of it here is that the work is over.
pub enum DispatchOutcome {
    MediatorReconnect(ReconnectOutcome),
    Relationship,
    Inbox,
    Did,
    /// The name of each DID that was looked up; nothing where it has none.
    AgentName(Vec<(String, Option<String>)>),
    VtaTransports(AdvertisedTransports),
    AgentNameManage,
    /// Not an end: the work reports a step and goes on.
    Progress(ProgressUpdate),
    /// The persona, where one was minted.
    Persona(Option<MintedPersona>),
    Credential,
    /// The membership whose session has to end, where one was left.
    Community(Option<(String, PersonaId)>),
    Capabilities,
    PersonaBinding(Keyed<BindingTarget, BindingSummary>),
    VicMutation,
    Vic,
    /// The work broke down and came to nothing.
    Panicked(DispatchDomain),
}

impl DispatchOutcome {
    /// The kind of work that this is an outcome of.
    pub open spec fn of(self) -> DispatchDomain {
        match self {
            DispatchOutcome::MediatorReconnect(_) => DispatchDomain::Mediator,
            DispatchOutcome::Relationship => DispatchDomain::Relationship,
            DispatchOutcome::Inbox => DispatchDomain::Inbox,
            DispatchOutcome::Did => DispatchDomain::Did,
            DispatchOutcome::AgentName(_) => DispatchDomain::AgentName,
            DispatchOutcome::VtaTransports(_) => DispatchDomain::VtaTransports,
            DispatchOutcome::AgentNameManage => DispatchDomain::AgentNameManage,
            DispatchOutcome::Progress(update) => update.of(),
            DispatchOutcome::Persona(_) => DispatchDomain::Persona,
            DispatchOutcome::Credential => DispatchDomain::Credential,
            DispatchOutcome::Community(_) => DispatchDomain::Community,
            DispatchOutcome::Capabilities => DispatchDomain::Capabilities,
            DispatchOutcome::PersonaBinding(_) => DispatchDomain::PersonaBinding,
            DispatchOutcome::Vic => DispatchDomain::Vic,
            DispatchOutcome::VicMutation => DispatchDomain::Vic,
            DispatchOutcome::Panicked(domain) => domain,
        }
    }

    /// The kind of work that this is an outcome of.
    pub fn domain(&self) -> (domain: DispatchDomain)
        ensures
            domain == self.of(),
    {
        match self {
            DispatchOutcome::MediatorReconnect(_) => DispatchDomain::Mediator,
            DispatchOutcome::Relationship => DispatchDomain::Relationship,
            DispatchOutcome::Inbox => DispatchDomain::Inbox,
            DispatchOutcome::Did => DispatchDomain::Did,
            DispatchOutcome::AgentName(_) => DispatchDomain::AgentName,
            DispatchOutcome::VtaTransports(_) => DispatchDomain::VtaTransports,
            DispatchOutcome::AgentNameManage => DispatchDomain::AgentNameManage,
            DispatchOutcome::Progress(update) => update.domain(),
            DispatchOutcome::Persona(_) => DispatchDomain::Persona,
            DispatchOutcome::Credential => DispatchDomain::Credential,
            DispatchOutcome::Community(_) => DispatchDomain::Community,
            DispatchOutcome::Capabilities => DispatchDomain::Capabilities,
            DispatchOutcome::PersonaBinding(_) => DispatchDomain::PersonaBinding,
            DispatchOutcome::Vic => DispatchDomain::Vic,
            DispatchOutcome::VicMutation => DispatchDomain::Vic,
            DispatchOutcome::Panicked(domain) => *domain,
        }
    }
}

/// What an outcome still asks for once it has been applied.
#[derive(Debug)]
pub enum AfterApply {
    Nothing,
    /// A community was left, and its session is still up.
    Deregister(String, PersonaId),
    /// A persona was minted, and has to go into the account.
    PersistPersona(MintedPersona),
}

impl DispatchOutcome {
    /// What this outcome asks for once it has been applied.
    pub open spec fn owes(self) -> AfterApply {
        match self {
            DispatchOutcome::Community(Some(left)) => AfterApply::Deregister(left.0, left.1),
            DispatchOutcome::Persona(Some(minted)) => AfterApply::PersistPersona(minted),
            _ => AfterApply::Nothing,
        }
    }
}

/// What looking up a list of names comes to: the names that are then known, and
/// whether anything of that is new, and whether anything that is shown is.
pub struct Sweep {
    pub names: Map<Seq<char>, CachedName>,
    /// Whether a DID was never looked up before, or its name changed.
    pub cache_changed: bool,
    /// Whether a name changed.
    pub display_changed: bool,
}

/// The verified name of a DID among those that were looked up.
pub open spec fn known_name(
    names: Map<Seq<char>, CachedName>,
    did: Seq<char>,
) -> Option<Seq<char>> {
    if names.dom().contains(did) {
        optional(names[did].name)
    } else {
        None
    }
}

/// What looking up `results`, one after the other, comes to.
pub open spec fn sweep(
    names: Map<Seq<char>, CachedName>,
    results: Seq<(String, Option<String>)>,
    now: Timestamp,
) -> Sweep
    decreases results.len(),
{
    if results.len() == 0 {
        Sweep { names, cache_changed: false, display_changed: false }
    } else {
        let before = sweep(names, results.drop_last(), now);
        let (did, name) = results.last();
        let renamed = known_name(before.names, did@) != optional(name);
        Sweep {
            names: before.names.insert(did@, CachedName { name, checked_at: now }),
            cache_changed: before.cache_changed || renamed || !before.names.dom().contains(did@),
            display_changed: before.display_changed || renamed,
        }
    }
}

/// What apply_outcome makes of the connection.
pub open spec fn connection_after(
    connection: ConnectionState,
    outcome: DispatchOutcome,
    post: ConnectionState,
) -> bool {
    match outcome {
        DispatchOutcome::MediatorReconnect(ReconnectOutcome::Connected) => post == ConnectionState {
            status: MediatorStatus::Connected,
            messaging_active: true,
        },
        DispatchOutcome::MediatorReconnect(ReconnectOutcome::Failed(reason)) => post
            == ConnectionState { status: MediatorStatus::Failed(reason), ..connection },
        _ => post == connection,
    }
}

/// Whether `post` is what an outcome makes of the main page, when the names that
/// are known are `names` and the clock reads `now`.
pub open spec fn page_after(
    page: MainPageState,
    names: Map<Seq<char>, CachedName>,
    outcome: DispatchOutcome,
    now: Timestamp,
    post: MainPageState,
) -> bool {
    match outcome {
        DispatchOutcome::MediatorReconnect(ReconnectOutcome::Connected) => post.logged(
            page,
            seq![plain("Reconnected to mediator"@)],
        ),
        DispatchOutcome::MediatorReconnect(ReconnectOutcome::Failed(reason)) => post.logged(
            page,
            seq![plain("Reconnect failed: "@ + reason@)],
        ),
        DispatchOutcome::AgentName(results) => post == MainPageState {
            sync_requested: page.sync_requested || sweep(names, results@, now).display_changed,
            ..page
        },
        DispatchOutcome::VtaTransports(advertised) => post == page.with_advertised(advertised),
        DispatchOutcome::Progress(ProgressUpdate::PersonaMint(step)) => match page.create_persona {
            // A step for an overlay that is closed by now is dropped.
            None => post == page,
            Some(overlay) => {
                &&& post == MainPageState { create_persona: post.create_persona, ..page }
                &&& post.create_persona matches Some(shown) && shown == CreatePersonaState {
                    messages: shown.messages,
                    ..overlay
                } && shown.messages@ == overlay.messages@.push(step)
            },
        },
        DispatchOutcome::PersonaBinding(answers) => {
            let known = page.content_panel.communities.bindings;
            let shown = post.content_panel.communities.bindings;
            &&& post == page.with_bindings(shown)
            &&& shown@ == known@.union_prefer_right(answers@)
        },
        DispatchOutcome::Panicked(domain) => post.logged(
            page,
            seq![plain(domain.name() + " failed (internal error)"@)],
        ),
        _ => post == page,
    }
}

impl MainPageState {
    /// This page with what the VTA was found to offer.
    pub open spec fn with_advertised(self, advertised: AdvertisedTransports) -> MainPageState {
        let vta = self.content_panel.vta;
        MainPageState {
            content_panel: crate::content::ContentPanelState {
                vta: VtaState {
                    transports: VtaTransports { advertised: Some(advertised), ..vta.transports },
                    ..vta
                },
                ..self.content_panel
            },
            ..self
        }
    }

    /// This page with other knowledge of what the personas present.
    pub open spec fn with_bindings(
        self,
        bindings: Keyed<BindingTarget, BindingSummary>,
    ) -> MainPageState {
        MainPageState {
            content_panel: crate::content::ContentPanelState {
                communities: CommunitiesState { bindings, ..self.content_panel.communities },
                ..self.content_panel
            },
            ..self
        }
    }
}

/// Whether `config` and `save` are what an outcome makes of the account and of
/// the need to store it.
pub open spec fn account_after(
    config: Config,
    save: SaveScheduler,
    outcome: DispatchOutcome,
    now: Timestamp,
    post_config: Config,
    post_save: SaveScheduler,
) -> bool {
    match outcome {
        DispatchOutcome::AgentName(results) => {
            let found = sweep(config.private.agent_names@, results@, now);
            &&& post_config == Config {
                private: PrivateConfig {
                    agent_names: post_config.private.agent_names,
                    ..config.private
                },
                ..config
            }
            &&& post_config.private.agent_names@ == found.names
            &&& post_save == SaveScheduler { dirty: save.dirty || found.cache_changed, ..save }
        },
        _ => post_config == config && post_save == save,
    }
}

/// The kinds of work under way once an outcome is in. Only a report of progress
/// leaves its work under way.
pub open spec fn busy_after(
    busy: Set<DispatchDomain>,
    outcome: DispatchOutcome,
) -> Set<DispatchDomain> {
    if outcome is Progress {
        busy
    } else {
        busy.remove(outcome.of())
    }
}

fn fold_names(
    config: &mut Config,
    results: Vec<(String, Option<String>)>,
    now: Timestamp,
) -> (changed: (bool, bool))
    ensures
        *final(config) == (Config {
            private: PrivateConfig {
                agent_names: final(config).private.agent_names,
                ..old(config).private
            },
            ..*old(config)
        }),
        final(config).private.agent_names@ == sweep(
            old(config).private.agent_names@,
            results@,
            now,
        ).names,
        changed.0 == sweep(old(config).private.agent_names@, results@, now).cache_changed,
        changed.1 == sweep(old(config).private.agent_names@, results@, now).display_changed,
{
    let ghost whole = results@;
    let ghost start = config.private.agent_names@;
    let mut rest = results;
    let mut cache_changed: bool = false;
    let mut display_changed: bool = false;
    let ghost mut done: int = 0;
    proof {
        assert(whole.skip(0) =~= whole);
        assert(whole.take(0) =~= Seq::<(String, Option<String>)>::empty());
    }
    while rest.len() > 0
        invariant
            0 <= done <= whole.len(),
            rest@ == whole.skip(done),
            *config == (Config {
                private: PrivateConfig {
                    agent_names: config.private.agent_names,
                    ..old(config).private
                },
                ..*old(config)
            }),
            config.private.agent_names@ == sweep(start, whole.take(done), now).names,
            cache_changed == sweep(start, whole.take(done), now).cache_changed,
            display_changed == sweep(start, whole.take(done), now).display_changed,
        decreases rest@.len(),
    {
        let (did, name) = rest.remove(0);
        proof {
            let next = whole.take(done + 1);
            assert(next.drop_last() =~= whole.take(done));
            assert(next.last() == (did, name));
            assert(whole.skip(done + 1) =~= whole.skip(done).remove(0));
        }
        let known: bool = config.private.agent_names.contains_key(&did);
        let prior = match config.agent_name_for(did.as_str()) {
            Some(n) => Some(n.to_owned()),
            None => None,
        };
        let renamed: bool = !same_optional(&prior, &name);
        if renamed {
            display_changed = true;
        }
        if !known || renamed {
            cache_changed = true;
        }
        config.set_cached_agent_name(did.as_str(), name, now);
        proof {
            done = done + 1;
        }
    }
    proof {
        assert(whole.take(done) =~= whole);
    }
    (cache_changed, display_changed)
}

/// Applies an outcome, as of now. See [`apply_outcome_at`].
pub fn apply_outcome(
    state: &mut State,
    config: &mut Config,
    save: &mut SaveScheduler,
    in_flight: &mut InFlight,
    outcome: DispatchOutcome,
) -> (after: AfterApply)
    ensures
        after == outcome.owes(),
        final(in_flight)@ == busy_after(old(in_flight)@, outcome),
        exists|now: Timestamp|
            applies(*old(state), *old(config), *old(save), outcome, now, *final(state), *final(config), *final(save)),
{
    let now = utc_now();
    let after = apply_outcome_at(state, config, save, in_flight, outcome, now);
    proof {
        assert(applies(*old(state), *old(config), *old(save), outcome, now, *state, *config, *save));
    }
    after
}

/// Whether an outcome that comes in at `now` turns the first state, account and
/// need to store it into the second.
pub open spec fn applies(
    state: State,
    config: Config,
    save: SaveScheduler,
    outcome: DispatchOutcome,
    now: Timestamp,
    post_state: State,
    post_config: Config,
    post_save: SaveScheduler,
) -> bool {
    &&& post_state == State {
        connection: post_state.connection,
        main_page: post_state.main_page,
        ..state
    }
    &&& connection_after(state.connection, outcome, post_state.connection)
    &&& page_after(
        state.main_page,
        config.private.agent_names@,
        outcome,
        now,
        post_state.main_page,
    )
    &&& account_after(config, save, outcome, now, post_config, post_save)
}

fn note_progress(page: &mut MainPageState, step: String)
    ensures
        match old(page).create_persona {
            None => *final(page) == *old(page),
            Some(overlay) => {
                &&& *final(page) == MainPageState {
                    create_persona: final(page).create_persona,
                    ..*old(page)
                }
                &&& final(page).create_persona matches Some(shown) && shown == CreatePersonaState {
                    messages: shown.messages,
                    ..overlay
                } && shown.messages@ == overlay.messages@.push(step)
            },
        },
{
    if let Some(overlay) = page.create_persona.as_mut() {
        overlay.messages.push(step);
    }
}

fn note_advertised(page: &mut MainPageState, advertised: AdvertisedTransports)
    ensures
        *final(page) == old(page).with_advertised(advertised),
{
    page.content_panel.vta.transports.advertised = Some(advertised);
}

fn note_bindings(page: &mut MainPageState, answers: Keyed<BindingTarget, BindingSummary>)
    ensures
        *final(page) == old(page).with_bindings(
            final(page).content_panel.communities.bindings,
        ),
        final(page).content_panel.communities.bindings@
            == old(page).content_panel.communities.bindings@.union_prefer_right(answers@),
{
    page.content_panel.communities.bindings.extend(answers);
}

/// Applies an outcome that comes in at `now`, and gives its kind of work free
/// unless it only reports progress. What is left to do is handed back.
pub fn apply_outcome_at(
    state: &mut State,
    config: &mut Config,
    save: &mut SaveScheduler,
    in_flight: &mut InFlight,
    outcome: DispatchOutcome,
    now: Timestamp,
) -> (after: AfterApply)
    ensures
        after == outcome.owes(),
        final(in_flight)@ == busy_after(old(in_flight)@, outcome),
        applies(*old(state), *old(config), *old(save), outcome, now, *final(state), *final(config), *final(save)),
{
    let domain = outcome.domain();
    match outcome {
        DispatchOutcome::Progress(ProgressUpdate::PersonaMint(step)) => {
            note_progress(&mut state.main_page, step);
            return AfterApply::Nothing;
        },
        DispatchOutcome::MediatorReconnect(ReconnectOutcome::Connected) => {
            state.connection.status = MediatorStatus::Connected;
            state.connection.messaging_active = true;
            state.main_page.log("Reconnected to mediator".to_owned());
        },
        DispatchOutcome::MediatorReconnect(ReconnectOutcome::Failed(reason)) => {
            let mut line = "Reconnect failed: ".to_owned();
            line.append(reason.as_str());
            state.connection.status = MediatorStatus::Failed(reason);
            state.main_page.log(line);
        },
        DispatchOutcome::AgentName(results) => {
            let (cache_changed, display_changed) = fold_names(config, results, now);
            if cache_changed {
                save.mark_dirty();
            }
            if display_changed {
                state.main_page.sync_requested = true;
            }
        },
        DispatchOutcome::VtaTransports(advertised) => {
            note_advertised(&mut state.main_page, advertised);
        },
        DispatchOutcome::PersonaBinding(answers) => {
            note_bindings(&mut state.main_page, answers);
        },
        DispatchOutcome::Community(left) => {
            in_flight.finish(domain);
            return match left {
                Some((vtc, persona)) => AfterApply::Deregister(vtc, persona),
                None => AfterApply::Nothing,
            };
        },
        DispatchOutcome::Persona(minted) => {
            in_flight.finish(domain);
            return match minted {
                Some(persona) => AfterApply::PersistPersona(persona),
                None => AfterApply::Nothing,
            };
        },
        DispatchOutcome::Panicked(broken) => {
            let mut line = broken.label().to_owned();
            line.append(" failed (internal error)");
            state.main_page.log(line);
        },
        _ => {},
    }
    in_flight.finish(domain);
    AfterApply::Nothing
}

/// One piece of work of a kind runs at a time: what is claimed cannot be claimed
/// again until it is given free, and then it can.
pub proof fn claims_are_serialised(busy: Set<DispatchDomain>, domain: DispatchDomain)
    ensures
        busy.insert(domain).contains(domain),
        !busy.insert(domain).remove(domain).contains(domain),
{
}

/// Kinds of work do not wait for each other: claiming one and giving it free
/// leave every other as it was.
pub proof fn kinds_of_work_are_independent(
    busy: Set<DispatchDomain>,
    domain: DispatchDomain,
    other: DispatchDomain,
)
    requires
        domain != other,
    ensures
        busy.insert(domain).contains(other) == busy.contains(other),
        busy.remove(domain).contains(other) == busy.contains(other),
{
}

/// Every outcome but a report of progress gives its own kind of work free, work
/// that broke down included, and no other.
pub proof fn outcomes_free_their_work(
    busy: Set<DispatchDomain>,
    outcome: DispatchOutcome,
    other: DispatchDomain,
)
    requires
        other != outcome.of(),
    ensures
        !(outcome is Progress) ==> !busy_after(busy, outcome).contains(outcome.of()),
        busy_after(busy, outcome).contains(other) == busy.contains(other),
        outcome is Progress ==> busy_after(busy, outcome) == busy,
{
}

/// What a sweep of bindings did not ask about stays as it was known.
pub proof fn bindings_not_asked_about_stay(
    page: MainPageState,
    names: Map<Seq<char>, CachedName>,
    answers: Keyed<BindingTarget, BindingSummary>,
    now: Timestamp,
    post: MainPageState,
    target: (Seq<char>, Seq<char>),
)
    requires
        page_after(page, names, DispatchOutcome::PersonaBinding(answers), now, post),
        !answers@.dom().contains(target),
        page.content_panel.communities.bindings@.dom().contains(target),
    ensures
        post.content_panel.communities.bindings@.dom().contains(target),
        post.content_panel.communities.bindings@[target]
            == page.content_panel.communities.bindings@[target],
{
}

/// Whether a DID that occurs twice comes with the same name each time.
pub open spec fn consistent(results: Seq<(String, Option<String>)>) -> bool {
    forall|i: int, j: int|
        0 <= i < results.len() && 0 <= j < results.len() && (#[trigger] results[i]).0@ == (
        #[trigger] results[j]).0@ ==> optional(results[i].1) == optional(results[j].1)
}

/// Whether everything that a list of results says is known already.
pub open spec fn knows(
    names: Map<Seq<char>, CachedName>,
    results: Seq<(String, Option<String>)>,
) -> bool {
    forall|i: int|
        0 <= i < results.len() ==> names.dom().contains((#[trigger] results[i]).0@) && known_name(
            names,
            results[i].0@,
        ) == optional(results[i].1)
}

proof fn a_sweep_is_known(
    names: Map<Seq<char>, CachedName>,
    results: Seq<(String, Option<String>)>,
    now: Timestamp,
)
    requires
        consistent(results),
    ensures
        knows(sweep(names, results, now).names, results),
    decreases results.len(),
{
    if results.len() > 0 {
        let rest = results.drop_last();
        assert forall|i: int, j: int|
            0 <= i < rest.len() && 0 <= j < rest.len() && (#[trigger] rest[i]).0@ == (
            #[trigger] rest[j]).0@ implies optional(rest[i].1) == optional(rest[j].1) by {
            assert(results[i].0@ == results[j].0@);
        }
        a_sweep_is_known(names, rest, now);
        let found = sweep(names, results, now).names;
        assert forall|i: int| 0 <= i < results.len() implies found.dom().contains(
            (#[trigger] results[i]).0@,
        ) && known_name(found, results[i].0@) == optional(results[i].1) by {
            let last = results.len() - 1;
            if i < last {
                assert(rest[i] == results[i]);
                if results[i].0@ == results[last].0@ {
                    assert(optional(results[i].1) == optional(results[last].1));
                }
            }
        }
    }
}

proof fn a_known_sweep_changes_nothing(
    names: Map<Seq<char>, CachedName>,
    results: Seq<(String, Option<String>)>,
    now: Timestamp,
)
    requires
        knows(names, results),
    ensures
        !sweep(names, results, now).cache_changed,
        !sweep(names, results, now).display_changed,
        forall|did: Seq<char>| #[trigger]
            known_name(sweep(names, results, now).names, did) == known_name(names, did),
        sweep(names, results, now).names.dom() == names.dom(),
    decreases results.len(),
{
    if results.len() > 0 {
        let rest = results.drop_last();
        assert forall|i: int| 0 <= i < rest.len() implies names.dom().contains(
            (#[trigger] rest[i]).0@,
        ) && known_name(names, rest[i].0@) == optional(rest[i].1) by {
            assert(rest[i] == results[i]);
        }
        a_known_sweep_changes_nothing(names, rest, now);
        let before = sweep(names, rest, now);
        let found = sweep(names, results, now);
        let last = results[results.len() - 1];
        assert(known_name(before.names, last.0@) == known_name(names, last.0@));
        assert(found.names.dom() =~= names.dom());
        assert forall|did: Seq<char>| #[trigger] known_name(found.names, did) == known_name(
            names,
            did,
        ) by {
            assert(known_name(before.names, did) == known_name(names, did));
        }
    }
}

/// Looking the same names up again changes nothing: nothing has to be stored and
/// nothing has to be shown anew. A list that gives one DID two names is another
/// matter.
pub proof fn an_unchanged_sweep_changes_nothing(
    names: Map<Seq<char>, CachedName>,
    results: Seq<(String, Option<String>)>,
    first: Timestamp,
    second: Timestamp,
)
    requires
        consistent(results),
    ensures
        ({
            let again = sweep(sweep(names, results, first).names, results, second);
            !again.cache_changed && !again.display_changed
        }),
{
    a_sweep_is_known(names, results, first);
    a_known_sweep_changes_nothing(sweep(names, results, first).names, results, second);
}

/// What is shown never changes without there being something to store.
pub proof fn shown_changes_are_stored(
    names: Map<Seq<char>, CachedName>,
    results: Seq<(String, Option<String>)>,
    now: Timestamp,
)
    ensures
        sweep(names, results, now).display_changed ==> sweep(names, results, now).cache_changed,
    decreases results.len(),
{
    if results.len() > 0 {
        shown_changes_are_stored(names, results.drop_last(), now);
    }
}

/// Claiming work succeeds exactly when none of its kind runs, and then it counts
/// as running; giving it free lets it be claimed again. Other kinds are not
/// touched by either.
pub proof fn a_kind_of_work_is_claimed_once(
    in_flight: &mut InFlight,
    domain: DispatchDomain,
    begun: bool,
    other: DispatchDomain,
)
    ensures
        call_ensures(InFlight::try_begin, (in_flight, domain), begun) ==> {
            &&& begun <==> !old(in_flight)@.contains(domain)
            &&& final(in_flight)@.contains(domain)
            &&& other != domain ==> final(in_flight)@.contains(other) == old(in_flight)@.contains(
                other,
            )
        },
        call_ensures(InFlight::finish, (in_flight, domain), ()) ==> {
            &&& !final(in_flight)@.contains(domain)
            &&& other != domain ==> final(in_flight)@.contains(other) == old(in_flight)@.contains(
                other,
            )
        },
{
}

/// Every outcome that comes in gives the work free that it is the outcome of, and
/// no other; only a step of a mint leaves the mint running.
pub proof fn an_outcome_frees_its_own_work(
    state: &mut State,
    config: &mut Config,
    save: &mut SaveScheduler,
    in_flight: &mut InFlight,
    outcome: DispatchOutcome,
    now: Timestamp,
    after: AfterApply,
    domain: DispatchDomain,
)
    requires
        call_ensures(apply_outcome_at, (state, config, save, in_flight, outcome, now), after),
    ensures
        final(in_flight)@.contains(domain) <==> old(in_flight)@.contains(domain) && !({
            ||| outcome is MediatorReconnect && domain is Mediator
            ||| outcome is Relationship && domain is Relationship
            ||| outcome is Inbox && domain is Inbox
            ||| outcome is Did && domain is Did
            ||| outcome is AgentName && domain is AgentName
            ||| outcome is VtaTransports && domain is VtaTransports
            ||| outcome is AgentNameManage && domain is AgentNameManage
            ||| outcome is Persona && domain is Persona
            ||| outcome is Credential && domain is Credential
            ||| outcome is Community && domain is Community
            ||| outcome is Capabilities && domain is Capabilities
            ||| outcome is PersonaBinding && domain is PersonaBinding
            ||| outcome is Vic && domain is Vic
            ||| outcome is VicMutation && domain is Vic
            ||| outcome == DispatchOutcome::Panicked(domain)
        }),
{
}

/// Something is left to do exactly where a community was left, whose session then
/// has to end, or a persona was minted, which then has to be stored.
pub proof fn what_an_outcome_leaves_to_do(
    state: &mut State,
    config: &mut Config,
    save: &mut SaveScheduler,
    in_flight: &mut InFlight,
    outcome: DispatchOutcome,
    now: Timestamp,
    after: AfterApply,
)
    requires
        call_ensures(apply_outcome_at, (state, config, save, in_flight, outcome, now), after),
    ensures
        outcome matches DispatchOutcome::Community(Some(left)) ==> after == AfterApply::Deregister(
            left.0,
            left.1,
        ),
        outcome matches DispatchOutcome::Persona(Some(minted)) ==> after
            == AfterApply::PersistPersona(minted),
        after is Deregister ==> outcome is Community,
        after is PersistPersona ==> outcome is Persona,
        outcome == DispatchOutcome::Community(None) ==> after is Nothing,
        outcome == DispatchOutcome::Persona(None) ==> after is Nothing,
        !(outcome is Community) && !(outcome is Persona) ==> after is Nothing,
{
}

/// The account and the need to store it change for names that were looked up and
/// for nothing else; where a panel applies an outcome itself, nothing changes
/// here at all.
pub proof fn outcomes_change_their_own_part(
    state: &mut State,
    config: &mut Config,
    save: &mut SaveScheduler,
    in_flight: &mut InFlight,
    outcome: DispatchOutcome,
    now: Timestamp,
    after: AfterApply,
)
    requires
        call_ensures(apply_outcome_at, (state, config, save, in_flight, outcome, now), after),
    ensures
        !(outcome is AgentName) ==> *final(config) == *old(config) && *final(save) == *old(save),
        !(outcome is MediatorReconnect) ==> final(state).connection == old(state).connection,
        outcome is Relationship || outcome is Inbox || outcome is Did || outcome is AgentNameManage
            || outcome is Credential || outcome is Community || outcome is Capabilities
            || outcome is Vic || outcome is VicMutation || outcome is Persona ==> *final(state)
            == *old(state),
        outcome is AgentName ==> {
            &&& final(state).main_page.log == old(state).main_page.log
            &&& final(state).main_page.content_panel == old(state).main_page.content_panel
            &&& final(config).account == old(config).account
            &&& final(config).identities == old(config).identities
            &&& final(config).active_persona == old(config).active_persona
            &&& final(config).private.contacts == old(config).private.contacts
            &&& final(config).private.relationships == old(config).private.relationships
            &&& final(config).private.tasks == old(config).private.tasks
        },
        final(state).active_page == old(state).active_page,
        final(state).selected_community == old(state).selected_community,
        final(state).integrity == old(state).integrity,
{
}

/// The connection is shown as it turned out: up and carrying messages, or failed
/// for the reason that was given; and the log says so.
pub proof fn a_reconnect_is_shown_as_it_went(
    state: &mut State,
    config: &mut Config,
    save: &mut SaveScheduler,
    in_flight: &mut InFlight,
    outcome: ReconnectOutcome,
    now: Timestamp,
    after: AfterApply,
)
    requires
        call_ensures(
            apply_outcome_at,
            (state, config, save, in_flight, DispatchOutcome::MediatorReconnect(outcome), now),
            after,
        ),
    ensures
        final(state).connection.status is Connected <==> outcome is Connected,
        outcome is Connected ==> final(state).connection.messaging_active,
        outcome matches ReconnectOutcome::Failed(reason) ==> final(state).connection.status
            == MediatorStatus::Failed(reason) && final(state).connection.messaging_active
                == old(state).connection.messaging_active,
        final(state).main_page.lines().len() == old(state).main_page.lines().len() + 1,
        outcome is Connected ==> final(state).main_page.lines().last().summary
            == "Reconnected to mediator"@,
        outcome matches ReconnectOutcome::Failed(reason)
            ==> final(state).main_page.lines().last().summary == "Reconnect failed: "@ + reason@,
        final(state).main_page.content_panel == old(state).main_page.content_panel,
{
}

/// What the VTA was found to offer is what the panel then says it offers; the
/// rest of the panel stays.
pub proof fn what_the_vta_offers_is_shown(
    state: &mut State,
    config: &mut Config,
    save: &mut SaveScheduler,
    in_flight: &mut InFlight,
    found: AdvertisedTransports,
    now: Timestamp,
    after: AfterApply,
)
    requires
        call_ensures(
            apply_outcome_at,
            (state, config, save, in_flight, DispatchOutcome::VtaTransports(found), now),
            after,
        ),
    ensures
        ({
            let shown = final(state).main_page.content_panel.vta;
            let before = old(state).main_page.content_panel.vta;
            &&& shown.transports.advertised == Some(found)
            &&& shown.transports.in_use == before.transports.in_use
            &&& shown.transports.rest_url == before.transports.rest_url
            &&& shown.context_dids == before.context_dids
            &&& shown.vics == before.vics
            &&& shown.persona_did == before.persona_did
            &&& final(state).main_page.content_panel.communities
                == old(state).main_page.content_panel.communities
            &&& final(state).main_page.log == old(state).main_page.log
            &&& final(state).main_page.sync_requested == old(state).main_page.sync_requested
        }),
{
}

/// A step of a mint is the last thing its overlay says, after everything it said
/// before; with the overlay closed the step is dropped.
pub proof fn a_step_is_added_to_the_overlay(
    state: &mut State,
    config: &mut Config,
    save: &mut SaveScheduler,
    in_flight: &mut InFlight,
    step: String,
    now: Timestamp,
    after: AfterApply,
)
    requires
        call_ensures(
            apply_outcome_at,
            (
                state,
                config,
                save,
                in_flight,
                DispatchOutcome::Progress(ProgressUpdate::PersonaMint(step)),
                now,
            ),
            after,
        ),
    ensures
        old(state).main_page.create_persona is None ==> *final(state) == *old(state),
        old(state).main_page.create_persona matches Some(overlay) ==> {
            &&& final(state).main_page.create_persona matches Some(shown) && shown.messages@.len()
                == overlay.messages@.len() + 1 && shown.messages@.last() == step && (forall|i: int|
                0 <= i < overlay.messages@.len() ==> shown.messages@[i] == overlay.messages@[i])
                && shown.phase == overlay.phase && shown.did == overlay.did && shown.label
                == overlay.label
        },
        final(in_flight)@ == old(in_flight)@,
        final(state).main_page.log == old(state).main_page.log,
{
}

/// Every answer about a binding is known afterwards, in place of what was known;
/// what was not asked about stays known as it was.
pub proof fn answers_about_bindings_are_known(
    state: &mut State,
    config: &mut Config,
    save: &mut SaveScheduler,
    in_flight: &mut InFlight,
    answers: Keyed<BindingTarget, BindingSummary>,
    now: Timestamp,
    after: AfterApply,
    target: (Seq<char>, Seq<char>),
)
    requires
        call_ensures(
            apply_outcome_at,
            (state, config, save, in_flight, DispatchOutcome::PersonaBinding(answers), now),
            after,
        ),
    ensures
        ({
            let known = old(state).main_page.content_panel.communities.bindings@;
            let shown = final(state).main_page.content_panel.communities.bindings@;
            &&& answers@.dom().contains(target) ==> shown.dom().contains(target) && shown[target]
                == answers@[target]
            &&& !answers@.dom().contains(target) ==> shown.dom().contains(target)
                == known.dom().contains(target)
            &&& !answers@.dom().contains(target) && known.dom().contains(target) ==> shown[target]
                == known[target]
        }),
        final(state).main_page.content_panel.communities.items
            == old(state).main_page.content_panel.communities.items,
        final(state).main_page.content_panel.communities.personhood_challenge
            == old(state).main_page.content_panel.communities.personhood_challenge,
        final(state).main_page.log == old(state).main_page.log,
{
}

/// Work that broke down is said to have failed, by its name, and nothing else is
/// changed by it.
pub proof fn a_breakdown_is_told(
    state: &mut State,
    config: &mut Config,
    save: &mut SaveScheduler,
    in_flight: &mut InFlight,
    domain: DispatchDomain,
    now: Timestamp,
    after: AfterApply,
)
    requires
        call_ensures(
            apply_outcome_at,
            (state, config, save, in_flight, DispatchOutcome::Panicked(domain), now),
            after,
        ),
    ensures
        final(state).main_page.lines().len() == old(state).main_page.lines().len() + 1,
        final(state).main_page.lines().last().summary == domain.name()
            + " failed (internal error)"@,
        final(state).main_page.content_panel == old(state).main_page.content_panel,
        !final(in_flight)@.contains(domain),
{
}

proof fn a_sweep_touches_what_it_looks_up(
    names: Map<Seq<char>, CachedName>,
    results: Seq<(String, Option<String>)>,
    now: Timestamp,
    did: Seq<char>,
)
    requires
        forall|i: int| 0 <= i < results.len() ==> (#[trigger] results[i]).0@ != did,
    ensures
        sweep(names, results, now).names.dom().contains(did) == names.dom().contains(did),
        names.dom().contains(did) ==> sweep(names, results, now).names[did] == names[did],
    decreases results.len(),
{
    if results.len() > 0 {
        let rest = results.drop_last();
        assert forall|i: int| 0 <= i < rest.len() implies (#[trigger] rest[i]).0@ != did by {
            assert(rest[i] == results[i]);
        }
        assert(results[results.len() - 1].0@ != did);
        a_sweep_touches_what_it_looks_up(names, rest, now, did);
    }
}

proof fn the_last_result_counts(
    names: Map<Seq<char>, CachedName>,
    results: Seq<(String, Option<String>)>,
    now: Timestamp,
    i: int,
)
    requires
        0 <= i < results.len(),
        forall|j: int| i < j < results.len() ==> (#[trigger] results[j]).0@ != results[i].0@,
    ensures
        sweep(names, results, now).names.dom().contains(results[i].0@),
        sweep(names, results, now).names[results[i].0@] == (CachedName {
            name: results[i].1,
            checked_at: now,
        }),
    decreases results.len(),
{
    let last = results.len() - 1;
    if i < last {
        let rest = results.drop_last();
        assert forall|j: int| i < j < rest.len() implies (#[trigger] rest[j]).0@ != rest[i].0@ by {
            assert(rest[j] == results[j]);
        }
        the_last_result_counts(names, rest, now, i);
        assert(results[last].0@ != results[i].0@);
    }
}

proof fn a_rename_is_noticed(
    names: Map<Seq<char>, CachedName>,
    results: Seq<(String, Option<String>)>,
    now: Timestamp,
    i: int,
)
    requires
        0 <= i < results.len(),
        forall|j: int| 0 <= j < i ==> (#[trigger] results[j]).0@ != results[i].0@,
    ensures
        known_name(names, results[i].0@) != optional(results[i].1) ==> sweep(
            names,
            results,
            now,
        ).display_changed && sweep(names, results, now).cache_changed,
        !names.dom().contains(results[i].0@) ==> sweep(names, results, now).cache_changed,
    decreases results.len(),
{
    let last = results.len() - 1;
    let rest = results.drop_last();
    if i < last {
        assert forall|j: int| 0 <= j < i implies (#[trigger] rest[j]).0@ != rest[i].0@ by {
            assert(rest[j] == results[j]);
        }
        assert(rest[i] == results[i]);
        a_rename_is_noticed(names, rest, now, i);
    } else {
        assert forall|j: int| 0 <= j < rest.len() implies (#[trigger] rest[j]).0@
            != results[i].0@ by {
            assert(rest[j] == results[j]);
        }
        a_sweep_touches_what_it_looks_up(names, rest, now, results[i].0@);
    }
}

/// Whether no DID was looked up twice.
pub open spec fn looked_up_once(results: Seq<(String, Option<String>)>) -> bool {
    forall|i: int, j: int|
        0 <= i < j < results.len() ==> (#[trigger] results[i]).0@ != (#[trigger] results[j]).0@
}

proof fn a_reported_change_is_one(
    names: Map<Seq<char>, CachedName>,
    results: Seq<(String, Option<String>)>,
    now: Timestamp,
)
    requires
        looked_up_once(results),
    ensures
        sweep(names, results, now).display_changed ==> exists|i: int|
            0 <= i < results.len() && known_name(names, (#[trigger] results[i]).0@) != optional(
                results[i].1,
            ),
        sweep(names, results, now).cache_changed ==> exists|i: int|
            0 <= i < results.len() && (known_name(names, (#[trigger] results[i]).0@) != optional(
                results[i].1,
            ) || !names.dom().contains(results[i].0@)),
    decreases results.len(),
{
    if results.len() > 0 {
        let last = results.len() - 1;
        let rest = results.drop_last();
        assert forall|i: int, j: int| 0 <= i < j < rest.len() implies (#[trigger] rest[i]).0@ != (
        #[trigger] rest[j]).0@ by {
            assert(results[i].0@ != results[j].0@);
        }
        a_reported_change_is_one(names, rest, now);
        assert forall|j: int| 0 <= j < rest.len() implies (#[trigger] rest[j]).0@
            != results[last].0@ by {
            assert(rest[j] == results[j]);
            assert(results[j].0@ != results[last].0@);
        }
        a_sweep_touches_what_it_looks_up(names, rest, now, results[last].0@);
        let before = sweep(names, rest, now);
        if before.display_changed {
            let i = choose|i: int|
                0 <= i < rest.len() && known_name(names, (#[trigger] rest[i]).0@) != optional(
                    rest[i].1,
                );
            assert(results[i] == rest[i]);
        }
        if before.cache_changed {
            let i = choose|i: int|
                0 <= i < rest.len() && (known_name(names, (#[trigger] rest[i]).0@) != optional(
                    rest[i].1,
                ) || !names.dom().contains(rest[i].0@));
            assert(results[i] == rest[i]);
        }
        assert(results[last] == results.last());
    }
}

/// A name that was looked up and is not the one that was known, be it new,
/// another or gone, has to be stored and to be shown anew, and is the one known
/// from then on.
pub proof fn a_changed_name_is_stored_and_shown(
    state: &mut State,
    config: &mut Config,
    save: &mut SaveScheduler,
    in_flight: &mut InFlight,
    results: Vec<(String, Option<String>)>,
    now: Timestamp,
    after: AfterApply,
    i: int,
)
    requires
        call_ensures(
            apply_outcome_at,
            (state, config, save, in_flight, DispatchOutcome::AgentName(results), now),
            after,
        ),
        0 <= i < results@.len(),
        forall|j: int|
            0 <= j < results@.len() && j != i ==> (#[trigger] results@[j]).0@ != results@[i].0@,
        match results@[i].1 {
            Some(found) => old(config).agent_name(results@[i].0@) != Some(found@),
            None => old(config).agent_name(results@[i].0@) is Some,
        },
    ensures
        final(save).dirty,
        final(state).main_page.sync_requested,
        match results@[i].1 {
            Some(found) => final(config).agent_name(results@[i].0@) == Some(found@),
            None => final(config).agent_name(results@[i].0@) is None,
        },
{
    a_rename_is_noticed(old(config).private.agent_names@, results@, now, i);
    the_last_result_counts(old(config).private.agent_names@, results@, now, i);
}

/// Whatever was looked up last for a DID is known afterwards, as of now, and
/// every other DID is known by what it was.
pub proof fn lookups_are_remembered(
    state: &mut State,
    config: &mut Config,
    save: &mut SaveScheduler,
    in_flight: &mut InFlight,
    results: Vec<(String, Option<String>)>,
    now: Timestamp,
    after: AfterApply,
    did: Seq<char>,
    i: int,
)
    requires
        call_ensures(
            apply_outcome_at,
            (state, config, save, in_flight, DispatchOutcome::AgentName(results), now),
            after,
        ),
    ensures
        (forall|j: int| 0 <= j < results@.len() ==> (#[trigger] results@[j]).0@ != did)
            ==> final(config).private.agent_names@.dom().contains(did)
                == old(config).private.agent_names@.dom().contains(did)
                && final(config).agent_name(did) == old(config).agent_name(did),
        0 <= i < results@.len() && (forall|j: int|
            i < j < results@.len() ==> (#[trigger] results@[j]).0@ != results@[i].0@)
                ==> final(config).private.agent_names@.dom().contains(results@[i].0@)
            && final(config).private.agent_names@[results@[i].0@].name == results@[i].1
            && final(config).private.agent_names@[results@[i].0@].checked_at == now,
{
    let names = old(config).private.agent_names@;
    if forall|j: int| 0 <= j < results@.len() ==> (#[trigger] results@[j]).0@ != did {
        a_sweep_touches_what_it_looks_up(names, results@, now, did);
    }
    if 0 <= i < results@.len() && (forall|j: int|
        i < j < results@.len() ==> (#[trigger] results@[j]).0@ != results@[i].0@) {
        the_last_result_counts(names, results@, now, i);
    }
}

/// A sweep that looks each DID up once has something shown anew exactly when some
/// name is another than was known, and something stored exactly when that is so
/// or some DID was never looked up before.
pub proof fn a_sweep_reports_what_changed(
    state: &mut State,
    config: &mut Config,
    save: &mut SaveScheduler,
    in_flight: &mut InFlight,
    results: Vec<(String, Option<String>)>,
    now: Timestamp,
    after: AfterApply,
)
    requires
        call_ensures(
            apply_outcome_at,
            (state, config, save, in_flight, DispatchOutcome::AgentName(results), now),
            after,
        ),
        forall|i: int, j: int|
            0 <= i < j < results@.len() ==> (#[trigger] results@[i]).0@ != (
            #[trigger] results@[j]).0@,
    ensures
        final(state).main_page.sync_requested <==> old(state).main_page.sync_requested || exists|
            i: int,
        |
            0 <= i < results@.len() && final(config).agent_name((#[trigger] results@[i]).0@)
                != old(config).agent_name(results@[i].0@),
        final(save).dirty <==> old(save).dirty || exists|i: int|
            0 <= i < results@.len() && (final(config).agent_name((#[trigger] results@[i]).0@)
                != old(config).agent_name(results@[i].0@)
                    || !old(config).private.agent_names@.dom().contains(results@[i].0@)),
{
    let names = old(config).private.agent_names@;
    a_reported_change_is_one(names, results@, now);
    assert forall|i: int| 0 <= i < results@.len() implies final(config).agent_name(
        (#[trigger] results@[i]).0@,
    ) == optional(results@[i].1) && old(config).agent_name(results@[i].0@) == known_name(
        names,
        results@[i].0@,
    ) by {
        the_last_result_counts(names, results@, now, i);
    }
    assert forall|i: int| 0 <= i < results@.len() implies {
        &&& known_name(names, (#[trigger] results@[i]).0@) != optional(results@[i].1) ==> sweep(
            names,
            results@,
            now,
        ).display_changed && sweep(names, results@, now).cache_changed
        &&& !names.dom().contains(results@[i].0@) ==> sweep(names, results@, now).cache_changed
    } by {
        a_rename_is_noticed(names, results@, now, i);
    }
}

/// Applying an outcome as of now frees, leaves to do, stores and shows what it
/// does at any given time.
pub proof fn applying_now_is_applying_at_a_time(
    state: &mut State,
    config: &mut Config,
    save: &mut SaveScheduler,
    in_flight: &mut InFlight,
    outcome: DispatchOutcome,
    after: AfterApply,
)
    requires
        call_ensures(apply_outcome, (state, config, save, in_flight, outcome), after),
    ensures
        !(outcome is Progress) ==> !final(in_flight)@.contains(outcome.of()),
        outcome matches DispatchOutcome::Community(Some(left)) ==> after == AfterApply::Deregister(
            left.0,
            left.1,
        ),
        outcome matches DispatchOutcome::Persona(Some(minted)) ==> after
            == AfterApply::PersistPersona(minted),
        outcome == DispatchOutcome::MediatorReconnect(ReconnectOutcome::Connected)
            ==> final(state).connection.status is Connected,
        outcome matches DispatchOutcome::MediatorReconnect(ReconnectOutcome::Failed(reason))
            ==> final(state).connection.status == MediatorStatus::Failed(reason),
        outcome matches DispatchOutcome::VtaTransports(found)
            ==> final(state).main_page.content_panel.vta.transports.advertised == Some(found),
        outcome matches DispatchOutcome::AgentName(results) ==> forall|i: int|
            #![trigger results@[i]]
            0 <= i < results@.len() && (forall|j: int|
                0 <= j < results@.len() && j != i ==> (#[trigger] results@[j]).0@
                    != results@[i].0@) ==> {
                &&& final(config).agent_name(results@[i].0@) == optional(results@[i].1)
                &&& final(config).agent_name(results@[i].0@) != old(config).agent_name(
                    results@[i].0@,
                ) ==> final(save).dirty && final(state).main_page.sync_requested
            },
{
    let now = choose|now: Timestamp|
        applies(
            *old(state),
            *old(config),
            *old(save),
            outcome,
            now,
            *final(state),
            *final(config),
            *final(save),
        );
    if let DispatchOutcome::AgentName(results) = outcome {
        let names = old(config).private.agent_names@;
        assert forall|i: int|
            #![trigger results@[i]]
            0 <= i < results@.len() && (forall|j: int|
                0 <= j < results@.len() && j != i ==> (#[trigger] results@[j]).0@
                    != results@[i].0@) implies {
            &&& final(config).agent_name(results@[i].0@) == optional(results@[i].1)
            &&& final(config).agent_name(results@[i].0@) != old(config).agent_name(results@[i].0@)
                ==> final(save).dirty && final(state).main_page.sync_requested
        } by {
            a_rename_is_noticed(names, results@, now, i);
            the_last_result_counts(names, results@, now, i);
        }
    }
}

/// Nothing runs at first; a kind of work is busy exactly while it is claimed, and
/// whoever asks for it then is told so by its name.
pub proof fn what_runs_is_known(
    fresh: InFlight,
    in_flight: &InFlight,
    domain: DispatchDomain,
    busy: bool,
    text: String,
)
    requires
        call_ensures(InFlight::default, (), fresh),
        call_ensures(InFlight::is_busy, (in_flight, domain), busy),
        call_ensures(InFlight::busy_message, (domain,), text),
    ensures
        !fresh@.contains(domain),
        busy <==> in_flight@.contains(domain),
        text@ == domain.name() + " already in progress — please wait."@,
{
}

} // verus!
