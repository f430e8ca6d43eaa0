//! The sessions that keep the personas connected.

use vstd::prelude::*;
use crate::config::{Config, Identity};
use crate::identity::PersonaId;
use crate::state::{plain, ConnectionState, LogLine, MediatorStatus, State};
use crate::text::{count_text, decimal};

verus! {

/// Whether the loop that runs without messaging must hand over to the one that
/// runs with it. Either a community was joined, so that a reply is coming which
/// it cannot receive; or some listener is up, whose mail it cannot read. Without
/// a context there is nothing to hand over.
pub fn must_hand_off(joined_a_community: bool, holds_listener: bool, has_ctx: bool) -> (must: bool)
    ensures
        must == ((joined_a_community || holds_listener) && has_ctx),
{
    (joined_a_community || holds_listener) && has_ctx
}

/// The connection as the sessions have it. Without sessions it is left alone: to
/// be in no community is not to be disconnected.
pub open spec fn aggregated(
    connection: ConnectionState,
    any_connected: bool,
    sessions: nat,
) -> ConnectionState {
    if any_connected {
        ConnectionState { status: MediatorStatus::Connected, messaging_active: true }
    } else if sessions > 0 {
        ConnectionState { status: MediatorStatus::Connecting, messaging_active: false }
    } else {
        connection
    }
}

/// Shows the connection as the sessions have it.
pub fn apply_session_aggregate(any_connected: bool, session_count: usize, state: &mut State)
    ensures
        *final(state) == (State {
            connection: aggregated(old(state).connection, any_connected, session_count as nat),
            ..*old(state)
        }),
{
    if any_connected {
        state.connection = ConnectionState {
            status: MediatorStatus::Connected,
            messaging_active: true,
        };
    } else if session_count > 0 {
        state.connection = ConnectionState {
            status: MediatorStatus::Connecting,
            messaging_active: false,
        };
    }
}

/// Whether anything in a list is so.
pub open spec fn any(list: Seq<bool>) -> bool {
    exists|i: int| 0 <= i < list.len() && list[i]
}

/// Takes in which sessions turned out to stand otherwise than they were thought
/// to, and says whether any did. Only then is the connection shown anew.
pub fn reconcile_sessions(
    changes: &Vec<bool>,
    any_connected: bool,
    session_count: usize,
    state: &mut State,
) -> (changed: bool)
    ensures
        changed == any(changes@),
        *final(state) == (if changed {
            State {
                connection: aggregated(
                    old(state).connection,
                    any_connected,
                    session_count as nat,
                ),
                ..*old(state)
            }
        } else {
            *old(state)
        }),
{
    let mut changed: bool = false;
    let mut i: usize = 0;
    while i < changes.len()
        invariant
            i <= changes@.len(),
            changed == any(changes@.take(i as int)),
        decreases changes@.len() - i,
    {
        proof {
            let seen = changes@.take(i as int);
            let next = changes@.take(i + 1);
            assert(next =~= seen.push(changes@[i as int]));
            if any(seen) {
                let j = choose|j: int| 0 <= j < seen.len() && seen[j];
                assert(next[j]);
            }
            if changes@[i as int] {
                assert(next[i as int]);
            }
            if any(next) {
                let j = choose|j: int| 0 <= j < next.len() && next[j];
                if j < seen.len() {
                    assert(seen[j]);
                }
            }
        }
        if changes[i] {
            changed = true;
        }
        i = i + 1;
    }
    proof {
        assert(changes@.take(i as int) =~= changes@);
    }
    if changed {
        apply_session_aggregate(any_connected, session_count, state);
    }
    changed
}

/// A listener to be stopped.
#[derive(Clone, Debug)]
pub enum ListenerToStop {
    /// The one the session is known by.
    Recorded(String),
    /// The one that belongs to a persona's DID.
    OfPersona(String),
}

/// The listener to stop for a persona whose session has ended: none while it is
/// still needed, or where the persona did not load.
pub open spec fn listener_to_stop(
    config: Config,
    persona: PersonaId,
    recorded: Option<String>,
) -> Option<ListenerToStop> {
    if config.account.serves(persona) {
        None
    } else {
        match config.identity(persona) {
            Some(identity) => Some(
                match recorded {
                    Some(id) => ListenerToStop::Recorded(id),
                    None => ListenerToStop::OfPersona(identity.did),
                },
            ),
            None => None,
        }
    }
}

/// The connection once a session has ended.
pub open spec fn connection_left(config: Config, connection: ConnectionState) -> ConnectionState {
    if config.account.has_live() {
        connection
    } else {
        ConnectionState { status: MediatorStatus::NoActiveCommunity, messaging_active: false }
    }
}

/// Ends the session of a membership that is over, and returns the listener to
/// stop. `recorded` is the listener the session was known by. The record of the
/// membership stays; a listener that another membership needs stays up.
pub fn deregister_inactive_community(
    state: &mut State,
    config: &Config,
    persona: PersonaId,
    recorded: Option<String>,
) -> (stop: Option<ListenerToStop>)
    ensures
        stop == listener_to_stop(*config, persona, recorded),
        final(state).logged(
            (State {
                connection: connection_left(*config, old(state).connection),
                ..*old(state)
            }),
            if stop is Some {
                seq![plain("Community inactive — persona listener stopped."@)]
            } else {
                Seq::empty()
            },
        ),
{
    let mut stop: Option<ListenerToStop> = None;
    if !config.account.still_serves(persona) {
        if let Some(identity) = config.identity_for(persona) {
            stop = Some(
                match recorded {
                    Some(id) => ListenerToStop::Recorded(id),
                    None => ListenerToStop::OfPersona(identity.did.clone()),
                },
            );
            state.main_page.log("Community inactive — persona listener stopped.".to_owned());
        }
    }
    proof {
        assert(old(state).main_page.lines() =~= old(state).main_page.lines() + Seq::<
            LogLine,
        >::empty());
    }
    if !config.account.any_live() {
        state.connection = ConnectionState {
            status: MediatorStatus::NoActiveCommunity,
            messaging_active: false,
        };
    }
    stop
}

/// What registering a session came to.
#[derive(Clone, Copy, Debug, PartialEq, Eq, Structural)]
pub enum RegisterOutcome {
    /// The persona has a session, which the community now shares.
    JoinedExisting,
    /// There are as many sessions as there may be.
    AtCapacity,
    /// The persona has a session of its own now.
    Created,
}

/// What a persona's listener was found to be.
#[derive(Clone, Copy, Debug, PartialEq, Eq, Structural)]
pub enum ListenerFound {
    Missing,
    Connected,
    NotConnected,
}

/// What bringing a listener up came to.
#[derive(Clone, Debug)]
pub enum ListenerStart {
    /// It connects on its own from here.
    Connecting,
    /// It could not be brought up; says why, in full and in brief.
    Failed(String, String),
    /// The persona is not known, so there is nothing to bring up.
    Unknown,
}

/// What to do next for the session of a community that was just joined.
#[derive(Clone, Debug)]
pub enum JoinedStep {
    /// Nothing.
    Done,
    /// Look for the persona's listener.
    LookForListener,
    /// Bring a listener up.
    StartListener,
    /// Note the session as connected.
    MarkConnected,
    /// Note the session as failed, and why.
    MarkFailed(String),
    /// Give the session up.
    Deregister,
}

/// What the log says of a session that was registered for a community that was
/// just joined.
pub open spec fn registered_lines(outcome: RegisterOutcome, limit: nat) -> Seq<LogLine> {
    match outcome {
        RegisterOutcome::JoinedExisting => seq![
            plain("New community attached to an existing live session."@),
        ],
        RegisterOutcome::AtCapacity => seq![
            plain(
                "Joined, but its live session is not active yet: the session limit ("@ + decimal(
                    limit,
                ) + ") is reached. It will connect when one frees up or on next launch."@,
            ),
        ],
        RegisterOutcome::Created => Seq::empty(),
    }
}

/// Takes in what registering the session of a community that was just joined came
/// to. A session of its own needs a listener; nothing is capped in silence.
pub fn joined_session_registered(state: &mut State, outcome: RegisterOutcome, limit: usize) -> (step:
    JoinedStep)
    ensures
        step == (if outcome == RegisterOutcome::Created {
            JoinedStep::LookForListener
        } else {
            JoinedStep::Done
        }),
        final(state).logged(*old(state), registered_lines(outcome, limit as nat)),
{
    match outcome {
        RegisterOutcome::JoinedExisting => {
            state.main_page.log("New community attached to an existing live session.".to_owned());
            JoinedStep::Done
        },
        RegisterOutcome::AtCapacity => {
            let mut line =
                "Joined, but its live session is not active yet: the session limit (".to_owned();
            let count = count_text(limit);
            line.append(count.as_str());
            line.append(") is reached. It will connect when one frees up or on next launch.");
            state.main_page.log(line);
            JoinedStep::Done
        },
        RegisterOutcome::Created => {
            proof {
                assert(state.main_page.lines() =~= state.main_page.lines() + Seq::<
                    LogLine,
                >::empty());
            }
            JoinedStep::LookForListener
        },
    }
}

/// Takes in what the persona's listener was found to be. One that is there is
/// used, connected or not, and never brought up a second time.
pub fn joined_listener_found(state: &mut State, found: ListenerFound) -> (step: JoinedStep)
    ensures
        step == (match found {
            ListenerFound::Missing => JoinedStep::StartListener,
            ListenerFound::Connected => JoinedStep::MarkConnected,
            ListenerFound::NotConnected => JoinedStep::Done,
        }),
        final(state).logged(
            *old(state),
            match found {
                ListenerFound::Missing => Seq::empty(),
                ListenerFound::Connected => seq![
                    plain("New community bound to its persona's live session."@),
                ],
                ListenerFound::NotConnected => seq![
                    plain("New community bound to its persona's session (reconnecting…)."@),
                ],
            },
        ),
{
    match found {
        ListenerFound::Missing => {
            proof {
                assert(state.main_page.lines() =~= state.main_page.lines() + Seq::<
                    LogLine,
                >::empty());
            }
            JoinedStep::StartListener
        },
        ListenerFound::Connected => {
            state.main_page.log("New community bound to its persona's live session.".to_owned());
            JoinedStep::MarkConnected
        },
        ListenerFound::NotConnected => {
            state.main_page.log(
                "New community bound to its persona's session (reconnecting…).".to_owned(),
            );
            JoinedStep::Done
        },
    }
}

/// Takes in what bringing the listener up came to. A session that no listener
/// stands behind is given up; one whose listener failed is noted as failed.
pub fn joined_listener_started(state: &mut State, started: ListenerStart) -> (step: JoinedStep)
    ensures
        step == (match started {
            ListenerStart::Connecting => JoinedStep::Done,
            ListenerStart::Failed(whole, _) => JoinedStep::MarkFailed(whole),
            ListenerStart::Unknown => JoinedStep::Deregister,
        }),
        final(state).logged(
            *old(state),
            seq![
                plain(
                    match started {
                        ListenerStart::Connecting => "New community session connecting…"@,
                        ListenerStart::Failed(_, brief) =>
                            "Joined, but couldn't start its live session now (it will connect on next launch): "@
                            + brief@,
                        ListenerStart::Unknown =>
                            "Joined, but its identity could not be resolved to start a live session."@,
                    },
                ),
            ],
        ),
{
    match started {
        ListenerStart::Connecting => {
            state.main_page.log("New community session connecting…".to_owned());
            JoinedStep::Done
        },
        ListenerStart::Failed(whole, brief) => {
            let mut line =
                "Joined, but couldn't start its live session now (it will connect on next launch): ".to_owned();
            line.append(brief.as_str());
            state.main_page.log(line);
            JoinedStep::MarkFailed(whole)
        },
        ListenerStart::Unknown => {
            state.main_page.log(
                "Joined, but its identity could not be resolved to start a live session.".to_owned(),
            );
            JoinedStep::Deregister
        },
    }
}

/// A session to register: the persona, its DID, and the community.
#[derive(Clone, Debug)]
pub struct Registration {
    pub persona: PersonaId,
    pub did: String,
    pub vtc_did: String,
}

/// The registrations of one persona for its communities.
pub open spec fn registrations_for(identity: Identity, vtcs: Seq<String>) -> Seq<Registration> {
    vtcs.map_values(
        |vtc: String| Registration {
            persona: identity.persona_id,
            did: identity.did,
            vtc_did: vtc,
        },
    )
}

/// The registrations for the personas and their communities, in order. A persona
/// that did not load has none.
pub open spec fn registrations(
    config: Config,
    sessions: Seq<(PersonaId, Vec<String>)>,
) -> Seq<Registration>
    decreases sessions.len(),
{
    if sessions.len() == 0 {
        Seq::empty()
    } else {
        let (persona, vtcs) = sessions.last();
        registrations(config, sessions.drop_last()) + match config.identity(persona) {
            Some(identity) => registrations_for(identity, vtcs@),
            None => Seq::empty(),
        }
    }
}

fn add_registrations(list: &mut Vec<Registration>, identity: &Identity, vtcs: &Vec<String>)
    ensures
        final(list)@ == old(list)@ + registrations_for(*identity, vtcs@),
{
    let ghost start = list@;
    let mut i: usize = 0;
    proof {
        assert(start + registrations_for(*identity, vtcs@.take(0)) =~= start);
    }
    while i < vtcs.len()
        invariant
            i <= vtcs@.len(),
            list@ == start + registrations_for(*identity, vtcs@.take(i as int)),
        decreases vtcs@.len() - i,
    {
        list.push(
            Registration {
                persona: identity.persona_id,
                did: identity.did.clone(),
                vtc_did: vtcs[i].clone(),
            },
        );
        proof {
            assert(vtcs@.take(i + 1) =~= vtcs@.take(i as int).push(vtcs@[i as int]));
            assert(list@ =~= start + registrations_for(*identity, vtcs@.take(i + 1)));
        }
        i = i + 1;
    }
    proof {
        assert(vtcs@.take(i as int) =~= vtcs@);
    }
}

/// The sessions to register at the start, by the live communities of each
/// persona.
pub fn startup_registrations(config: &Config, sessions: &Vec<(PersonaId, Vec<String>)>) -> (list:
    Vec<Registration>)
    ensures
        list@ == registrations(*config, sessions@),
{
    let mut list: Vec<Registration> = Vec::new();
    let mut i: usize = 0;
    proof {
        assert(sessions@.take(0) =~= Seq::<(PersonaId, Vec<String>)>::empty());
    }
    while i < sessions.len()
        invariant
            i <= sessions@.len(),
            list@ == registrations(*config, sessions@.take(i as int)),
        decreases sessions@.len() - i,
    {
        proof {
            assert(sessions@.take(i + 1).drop_last() =~= sessions@.take(i as int));
        }
        match config.identity_for(sessions[i].0) {
            Some(identity) => {
                add_registrations(&mut list, identity, &sessions[i].1);
                proof {
                    found_by_its_identifier(config.identities@, sessions@[i as int].0, 0);
                }
            },
            None => {
                proof {
                    assert(list@ =~= list@ + Seq::<Registration>::empty());
                }
            },
        }
        i = i + 1;
    }
    proof {
        assert(sessions@.take(i as int) =~= sessions@);
    }
    list
}

proof fn found_by_its_identifier(identities: Seq<Identity>, id: PersonaId, from: int)
    requires
        0 <= from,
    ensures
        crate::config::identity_numbered(identities, id, from) matches Some(found)
            ==> found.persona_id == id,
    decreases identities.len() - from,
{
    if from < identities.len() && identities[from].persona_id != id {
        found_by_its_identifier(identities, id, from + 1);
    }
}

/// How many registrations were turned down because there are as many sessions as
/// there may be.
pub open spec fn turned_down(outcomes: Seq<RegisterOutcome>) -> nat
    decreases outcomes.len(),
{
    if outcomes.len() == 0 {
        0
    } else {
        turned_down(outcomes.drop_last()) + (if outcomes.last() == RegisterOutcome::AtCapacity {
            1nat
        } else {
            0nat
        })
    }
}

/// What the log says of the registrations at the start.
pub open spec fn capacity_lines(refused: nat, limit: nat) -> Seq<LogLine> {
    if refused > 0 {
        seq![
            plain(
                "Warning: "@ + decimal(refused) + " communit"@
                    + crate::communities_panel::community_ending(refused)
                    + " exceeded the session limit ("@ + decimal(limit)
                    + ") and are not actively connected."@,
            ),
        ]
    } else {
        Seq::empty()
    }
}

/// Takes in what the registrations at the start came to. The user is told of
/// every community that is left without a session.
pub fn startup_registered(state: &mut State, outcomes: &Vec<RegisterOutcome>, limit: usize)
    ensures
        final(state).logged(
            *old(state),
            capacity_lines(turned_down(outcomes@), limit as nat),
        ),
{
    let mut refused: usize = 0;
    let mut i: usize = 0;
    while i < outcomes.len()
        invariant
            i <= outcomes@.len(),
            refused <= i,
            refused == turned_down(outcomes@.take(i as int)),
        decreases outcomes@.len() - i,
    {
        proof {
            assert(outcomes@.take(i + 1).drop_last() =~= outcomes@.take(i as int));
        }
        if outcomes[i] == RegisterOutcome::AtCapacity {
            refused = refused + 1;
        }
        i = i + 1;
    }
    proof {
        assert(outcomes@.take(i as int) =~= outcomes@);
        assert(state.main_page.lines() =~= state.main_page.lines() + Seq::<LogLine>::empty());
    }
    if refused > 0 {
        let mut line = "Warning: ".to_owned();
        let count = count_text(refused);
        line.append(count.as_str());
        line.append(" communit");
        line.append(
            if refused == 1 {
                "y"
            } else {
                "ies"
            },
        );
        line.append(" exceeded the session limit (");
        let bound = count_text(limit);
        line.append(bound.as_str());
        line.append(") and are not actively connected.");
        state.main_page.log(line);
    }
}

/// A listener that some live membership needs is never stopped.
pub proof fn needed_listeners_stay_up(
    config: Config,
    persona: PersonaId,
    recorded: Option<String>,
    i: int,
)
    requires
        0 <= i < config.account.memberships@.len(),
        config.account.memberships@[i].persona_ref == persona,
        config.account.memberships@[i].live,
    ensures
        listener_to_stop(config, persona, recorded) is None,
        connection_left(config, ConnectionState {
            status: MediatorStatus::Connected,
            messaging_active: true,
        }).messaging_active,
{
    assert(config.account.memberships@[i].live);
}

/// Messages are shown to get through exactly while a session is connected.
pub proof fn the_indicator_follows_the_sessions(
    connection: ConnectionState,
    any_connected: bool,
    sessions: nat,
)
    requires
        sessions > 0,
    ensures
        aggregated(connection, any_connected, sessions).messaging_active == any_connected,
        (aggregated(connection, any_connected, sessions).status is Connected) == any_connected,
{
}

/// The loop without messaging hands over exactly when it has something to hand
/// over and either a reply or mail may come that it could not read.
pub proof fn mail_is_never_left_unread(joined: bool, listening: bool, context: bool, must: bool)
    requires
        call_ensures(must_hand_off, (joined, listening, context), must),
    ensures
        context && joined ==> must,
        context && listening ==> must,
        must ==> context,
        !joined && !listening ==> !must,
{
}

/// The connection is shown as up while any session is, as connecting while there
/// are sessions and none is up, and left alone where there are none.
pub proof fn the_connection_is_shown_as_the_sessions_have_it(
    any_connected: bool,
    sessions: usize,
    state: &mut State,
)
    requires
        call_ensures(apply_session_aggregate, (any_connected, sessions, state), ()),
    ensures
        any_connected ==> final(state).connection.status is Connected
            && final(state).connection.messaging_active,
        !any_connected && sessions > 0 ==> final(state).connection.status is Connecting
            && !final(state).connection.messaging_active,
        !any_connected && sessions == 0 ==> final(state).connection == old(state).connection,
        final(state).main_page == old(state).main_page,
        final(state).active_page == old(state).active_page,
        final(state).selected_community == old(state).selected_community,
{
}

/// The connection is shown anew exactly when some session stands otherwise than
/// was thought.
pub proof fn a_changed_session_is_noticed(
    changes: &Vec<bool>,
    any_connected: bool,
    sessions: usize,
    state: &mut State,
    changed: bool,
    i: int,
)
    requires
        call_ensures(reconcile_sessions, (changes, any_connected, sessions, state), changed),
    ensures
        0 <= i < changes@.len() && changes@[i] ==> changed,
        (forall|j: int| 0 <= j < changes@.len() ==> !#[trigger] changes@[j]) ==> !changed,
        !changed ==> *final(state) == *old(state),
        changed && any_connected ==> final(state).connection.status is Connected,
        changed && !any_connected && sessions > 0 ==> final(state).connection.status is Connecting,
        changed && !any_connected && sessions == 0 ==> final(state).connection == old(state).connection,
        final(state).main_page == old(state).main_page,
{
}

/// The session of a membership that is over takes its listener with it exactly
/// when no live membership shows the persona and the persona is loaded: the one it
/// was known by, or else that of the persona's own DID. The log says so then and
/// only then, and the connection is gone once no membership is live.
pub proof fn a_listener_goes_with_its_last_session(
    state: &mut State,
    config: &Config,
    persona: PersonaId,
    recorded: Option<String>,
    stop: Option<ListenerToStop>,
)
    requires
        call_ensures(deregister_inactive_community, (state, config, persona, recorded), stop),
    ensures
        stop is Some <==> (forall|i: int|
            0 <= i < config.account.memberships@.len() && (
            #[trigger] config.account.memberships@[i]).live
                ==> config.account.memberships@[i].persona_ref != persona) && (exists|i: int|
            0 <= i < config.identities@.len() && (#[trigger] config.identities@[i]).persona_id
                == persona),
        stop matches Some(ListenerToStop::Recorded(id)) ==> recorded == Some(id),
        stop matches Some(ListenerToStop::OfPersona(did)) ==> recorded is None && exists|i: int|
            0 <= i < config.identities@.len() && (#[trigger] config.identities@[i]).persona_id
                == persona && config.identities@[i].did == did,
        stop is Some ==> final(state).main_page.lines().len()
            == old(state).main_page.lines().len() + 1
            && final(state).main_page.lines().last().summary
            == "Community inactive — persona listener stopped."@,
        stop is None ==> final(state).main_page.lines() == old(state).main_page.lines(),
        (forall|i: int|
            0 <= i < config.account.memberships@.len() ==> !(
            #[trigger] config.account.memberships@[i]).live)
                ==> final(state).connection.status is NoActiveCommunity
                && !final(state).connection.messaging_active,
        (exists|i: int|
            0 <= i < config.account.memberships@.len() && (
            #[trigger] config.account.memberships@[i]).live) ==> final(state).connection
                == old(state).connection,
        final(state).main_page.content_panel == old(state).main_page.content_panel,
        final(state).selected_community == old(state).selected_community,
{
    crate::config::the_first_identity_is_found(config.identities@, persona, 0);
    if config.account.serves(persona) {
        let i = choose|i: int|
            0 <= i < config.account.memberships@.len() && (
            #[trigger] config.account.memberships@[i]).persona_ref == persona
                && config.account.memberships@[i].live;
        assert(config.account.memberships@[i].live);
    }
    if stop is None {
        assert(final(state).main_page.lines() =~= old(state).main_page.lines());
    }
}

/// A session of its own needs a listener; a shared one, or none for want of room,
/// needs nothing more, and the log says which. The limit that was met is named.
pub proof fn a_new_session_needs_a_listener(
    state: &mut State,
    outcome: RegisterOutcome,
    limit: usize,
    step: JoinedStep,
)
    requires
        call_ensures(joined_session_registered, (state, outcome, limit), step),
    ensures
        step is LookForListener <==> outcome is Created,
        step is Done <==> !(outcome is Created),
        outcome is Created ==> final(state).main_page.lines() == old(state).main_page.lines(),
        !(outcome is Created) ==> final(state).main_page.lines().len()
            == old(state).main_page.lines().len() + 1,
        outcome is JoinedExisting ==> final(state).main_page.lines().last().summary
            == "New community attached to an existing live session."@,
        outcome is AtCapacity ==> final(state).main_page.lines().last().summary
            == "Joined, but its live session is not active yet: the session limit ("@ + decimal(
            limit as nat,
        ) + ") is reached. It will connect when one frees up or on next launch."@,
        final(state).connection == old(state).connection,
{
    if outcome is Created {
        assert(final(state).main_page.lines() =~= old(state).main_page.lines());
    }
}

/// A listener is brought up exactly where there is none, and the session counts as
/// connected exactly where its listener is.
pub proof fn a_listener_is_never_brought_up_twice(
    state: &mut State,
    found: ListenerFound,
    step: JoinedStep,
)
    requires
        call_ensures(joined_listener_found, (state, found), step),
    ensures
        step is StartListener <==> found is Missing,
        step is MarkConnected <==> found is Connected,
        step is Done <==> found is NotConnected,
        found is Missing ==> final(state).main_page.lines() == old(state).main_page.lines(),
        !(found is Missing) ==> final(state).main_page.lines().len()
            == old(state).main_page.lines().len() + 1,
        found is Connected ==> final(state).main_page.lines().last().summary
            == "New community bound to its persona's live session."@,
        found is NotConnected ==> final(state).main_page.lines().last().summary
            == "New community bound to its persona's session (reconnecting…)."@,
{
    if found is Missing {
        assert(final(state).main_page.lines() =~= old(state).main_page.lines());
    }
}

/// A listener that could not be brought up marks its session as failed with the
/// whole reason, and tells the user the short one; a persona that is not known
/// costs its session.
pub proof fn a_failed_listener_is_told(state: &mut State, started: ListenerStart, step: JoinedStep)
    requires
        call_ensures(joined_listener_started, (state, started), step),
    ensures
        step is Done <==> started is Connecting,
        step is Deregister <==> started is Unknown,
        started matches ListenerStart::Failed(whole, brief) ==> step == JoinedStep::MarkFailed(
            whole,
        ) && final(state).main_page.lines().last().summary
            == "Joined, but couldn't start its live session now (it will connect on next launch): "@
            + brief@,
        final(state).main_page.lines().len() == old(state).main_page.lines().len() + 1,
        started is Connecting ==> final(state).main_page.lines().last().summary
            == "New community session connecting…"@,
        started is Unknown ==> final(state).main_page.lines().last().summary
            == "Joined, but its identity could not be resolved to start a live session."@,
{
}

/// The sessions to register for one list of personas after another are those for
/// both at once, in order.
pub proof fn registrations_add_up(
    config: Config,
    first: Seq<(PersonaId, Vec<String>)>,
    second: Seq<(PersonaId, Vec<String>)>,
)
    ensures
        registrations(config, first + second) == registrations(config, first) + registrations(
            config,
            second,
        ),
    decreases second.len(),
{
    if second.len() == 0 {
        assert(first + second =~= first);
        assert(registrations(config, first) + registrations(config, second) =~= registrations(
            config,
            first,
        ));
    } else {
        registrations_add_up(config, first, second.drop_last());
        assert((first + second).drop_last() =~= first + second.drop_last());
        assert((first + second).last() == second.last());
        assert(registrations(config, first + second) =~= registrations(config, first)
            + registrations(config, second));
    }
}

/// A persona that loaded is registered once for each of its communities, in order
/// and under its own DID; one that did not is not registered at all.
pub proof fn a_loaded_persona_is_registered_for_each_community(
    config: Config,
    persona: PersonaId,
    vtcs: Vec<String>,
    i: int,
)
    ensures
        ({
            let list = registrations(config, seq![(persona, vtcs)]);
            let loaded = exists|j: int|
                0 <= j < config.identities@.len() && (#[trigger] config.identities@[j]).persona_id
                    == persona;
            &&& list.len() == (if loaded {
                vtcs@.len()
            } else {
                0
            })
            &&& loaded && 0 <= i < vtcs@.len() ==> list[i].persona == persona && list[i].vtc_did
                == vtcs@[i] && exists|j: int|
                0 <= j < config.identities@.len() && (#[trigger] config.identities@[j]).persona_id
                    == persona && config.identities@[j].did == list[i].did
        }),
{
    reveal_with_fuel(registrations, 2);
    let one = seq![(persona, vtcs)];
    assert(one.drop_last() =~= Seq::<(PersonaId, Vec<String>)>::empty());
    assert(one.last() == (persona, vtcs));
    crate::config::the_first_identity_is_found(config.identities@, persona, 0);
    assert(Seq::<Registration>::empty() + Seq::<Registration>::empty() =~= Seq::<
        Registration,
    >::empty());
}

proof fn refusals_are_counted(outcomes: Seq<RegisterOutcome>)
    ensures
        turned_down(outcomes) == outcomes.filter(
            |o: RegisterOutcome| o == RegisterOutcome::AtCapacity,
        ).len(),
    decreases outcomes.len(),
{
    reveal(Seq::filter);
    if outcomes.len() > 0 {
        refusals_are_counted(outcomes.drop_last());
    }
}

/// The user is told how many communities are left without a session, and of the
/// limit, exactly where any is.
pub proof fn no_community_is_capped_in_silence(
    state: &mut State,
    outcomes: &Vec<RegisterOutcome>,
    limit: usize,
)
    requires
        call_ensures(startup_registered, (state, outcomes, limit), ()),
    ensures
        ({
            let refused = outcomes@.filter(
                |o: RegisterOutcome| o == RegisterOutcome::AtCapacity,
            ).len();
            &&& refused == 0 ==> final(state).main_page.lines() == old(state).main_page.lines()
            &&& refused > 0 ==> final(state).main_page.lines().len()
                == old(state).main_page.lines().len() + 1
                && final(state).main_page.lines().last().summary
                == "Warning: "@ + decimal(refused) + " communit"@ + (if refused == 1 {
                "y"@
            } else {
                "ies"@
            }) + " exceeded the session limit ("@ + decimal(limit as nat)
                + ") and are not actively connected."@
        }),
        final(state).connection == old(state).connection,
{
    refusals_are_counted(outcomes@);
    if turned_down(outcomes@) == 0 {
        assert(final(state).main_page.lines() =~= old(state).main_page.lines());
    }
}

} // verus!
