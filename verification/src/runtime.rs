//! The loop that runs while the account is connected: what each event makes of
//! the state, and what is to be done next.

use vstd::prelude::*;
use crate::actions::{Action, Interrupted};
use crate::background_dispatch::{DispatchDomain, InFlight};
use crate::capabilities::{
    after_replies, apply_capability_replies, view_became, CapabilityReply, Sight,
};
use crate::config::{
    persona_numbered, persona_with, CommunityRecord, Config, KeyBackend, PersonaRecord, Task,
};
use crate::content::{AdvertisedTransports, CommunitiesState, PersonhoodChallengeView};
use crate::identity::PersonaId;
use crate::lifecycle::{
    detail_of, display_name, format_lifecycle_log, resolve_did_to_display, summary_of, LifecycleLog,
};
use crate::message::Message;
use crate::persona_binding::BindingTarget;
use crate::save::SaveScheduler;
use crate::sessions::{
    connection_left, deregister_inactive_community, listener_to_stop, ListenerToStop,
};
use crate::state::{
    detailed, failure, plain, ActivePage, LogLine, MainPageState, Sibling, State,
};
use crate::text::{
    count_text, decimal, decimal_text, join, joined, optional, same_text, texts,
};
use crate::time::Timestamp;

verus! {

/// How often joins that wait too long for an answer are looked for, in seconds.
pub const EXPIRY_PERIOD: u64 = 3600;

/// How often a capability query that waits too long for its reply is looked for,
/// in seconds.
pub const SWEEP_PERIOD: u64 = 5;

/// How often the sessions are held against the live connections, in seconds.
pub const RECONCILE_PERIOD: u64 = 15;

/// How often agent names and bindings are refreshed, in seconds.
pub const REFRESH_PERIOD: u64 = 300;

/// How often the communities of pending joins may be asked, in seconds.
pub const POLL_PERIOD: u64 = 60;

/// A community that was just joined.
#[derive(Clone, Debug)]
pub struct JoinedSession {
    pub persona_id: PersonaId,
    pub persona_did: String,
    pub vtc_did: String,
}

/// What the loop does next.
pub enum RuntimeStep {
    /// Waits for the next event.
    Continue,
    /// Ends.
    Exit(Interrupted),
    /// Lets the user join a community.
    Join,
    /// Serves an action with everything the account has.
    Serve(Action),
    /// Brings up the session of a community that was joined.
    Register(JoinedSession),
}

/// What the loop does about an action. Only leaving and joining concern the loop
/// itself.
pub fn runtime_action(action: Action) -> (step: RuntimeStep)
    ensures
        step == (match action {
            Action::Exit => RuntimeStep::Exit(Interrupted::UserInt),
            Action::UXError(reason) => RuntimeStep::Exit(reason),
            Action::StartJoin => RuntimeStep::Join,
            _ => RuntimeStep::Serve(action),
        }),
{
    match action {
        Action::Exit => RuntimeStep::Exit(Interrupted::UserInt),
        Action::UXError(reason) => RuntimeStep::Exit(reason),
        Action::StartJoin => RuntimeStep::Join,
        other => RuntimeStep::Serve(other),
    }
}

/// What the loop does once an action was served. A profile that was wiped ends
/// the program.
pub fn after_served(wiped: bool) -> (step: RuntimeStep)
    ensures
        step == (if wiped {
            RuntimeStep::Exit(Interrupted::UserInt)
        } else {
            RuntimeStep::Continue
        }),
{
    if wiped {
        RuntimeStep::Exit(Interrupted::UserInt)
    } else {
        RuntimeStep::Continue
    }
}

/// What letting the user join came to.
#[derive(Clone, Debug)]
pub enum RuntimeJoin {
    /// The user is back, with the community that was joined, if any.
    Returned(Option<JoinedSession>),
    /// The program is to end.
    Exit(Interrupted),
    /// It broke down; says why.
    Failed(String),
}

/// Takes in what letting the user join came to.
pub fn runtime_joined(state: &mut State, exit: RuntimeJoin) -> (step: RuntimeStep)
    ensures
        ({
            let home = State { active_page: ActivePage::Main, ..*old(state) };
            match exit {
                RuntimeJoin::Returned(joined) => *final(state) == home && step == match joined {
                    Some(session) => RuntimeStep::Register(session),
                    None => RuntimeStep::Continue,
                },
                RuntimeJoin::Exit(reason) => *final(state) == *old(state) && step
                    == RuntimeStep::Exit(reason),
                RuntimeJoin::Failed(reason) => {
                    &&& step == RuntimeStep::Continue
                    &&& final(state).logged(home, seq![failure("Join flow failed"@, reason@)])
                },
            }
        }),
{
    match exit {
        RuntimeJoin::Returned(joined) => {
            state.active_page = ActivePage::Main;
            match joined {
                Some(session) => RuntimeStep::Register(session),
                None => RuntimeStep::Continue,
            }
        },
        RuntimeJoin::Exit(reason) => RuntimeStep::Exit(reason),
        RuntimeJoin::Failed(reason) => {
            state.main_page.log_error("Join flow failed", reason.as_str());
            state.active_page = ActivePage::Main;
            RuntimeStep::Continue
        },
    }
}

/// The session of a membership that is over: the persona, and the listener it was
/// known by.
pub type EndedSession = (PersonaId, Option<String>);

/// The listeners to stop for sessions that have ended, in order.
pub open spec fn listeners_to_stop(
    config: Config,
    ended: Seq<EndedSession>,
) -> Seq<ListenerToStop>
    decreases ended.len(),
{
    if ended.len() == 0 {
        Seq::empty()
    } else {
        let before = listeners_to_stop(config, ended.drop_last());
        let (persona, recorded) = ended.last();
        match listener_to_stop(config, persona, recorded) {
            Some(stop) => before.push(stop),
            None => before,
        }
    }
}

/// What the log says of so many listeners that were stopped.
pub open spec fn stopped_lines(n: nat) -> Seq<LogLine> {
    Seq::new(n, |i: int| plain("Community inactive — persona listener stopped."@))
}

/// Whether `post` is `pre` once sessions have ended.
pub open spec fn sessions_ended(
    pre: State,
    config: Config,
    ended: Seq<EndedSession>,
    post: State,
) -> bool {
    post.logged(
        State {
            connection: if ended.len() > 0 {
                connection_left(config, pre.connection)
            } else {
                pre.connection
            },
            ..pre
        },
        stopped_lines(listeners_to_stop(config, ended).len()),
    )
}

/// Ends the sessions of memberships that are over, and returns the listeners to
/// stop.
pub fn end_sessions(state: &mut State, config: &Config, ended: Vec<EndedSession>) -> (stops: Vec<
    ListenerToStop,
>)
    ensures
        stops@ == listeners_to_stop(*config, ended@),
        sessions_ended(*old(state), *config, ended@, *final(state)),
{
    let ghost whole = ended@;
    let mut rest = ended;
    let mut stops: Vec<ListenerToStop> = Vec::new();
    let ghost mut done: int = 0;
    proof {
        assert(whole.skip(0) =~= whole);
        assert(whole.take(0) =~= Seq::<EndedSession>::empty());
        assert(state.main_page.lines() + stopped_lines(0) =~= state.main_page.lines());
    }
    while rest.len() > 0
        invariant
            0 <= done <= whole.len(),
            rest@ == whole.skip(done),
            stops@ == listeners_to_stop(*config, whole.take(done)),
            sessions_ended(*old(state), *config, whole.take(done), *state),
        decreases rest@.len(),
    {
        let (persona, recorded) = rest.remove(0);
        let ghost lines = state.main_page.lines();
        let stop = deregister_inactive_community(state, config, persona, recorded);
        proof {
            let next = whole.take(done + 1);
            assert(next.drop_last() =~= whole.take(done));
            assert(next.last() == (persona, recorded));
            assert(whole.skip(done + 1) =~= whole.skip(done).remove(0));
            let n = listeners_to_stop(*config, whole.take(done)).len();
            assert(stopped_lines(n) + seq![
                plain("Community inactive — persona listener stopped."@),
            ] =~= stopped_lines(n + 1));
            assert(old(state).main_page.lines() + stopped_lines(n) + seq![
                plain("Community inactive — persona listener stopped."@),
            ] =~= old(state).main_page.lines() + stopped_lines(n + 1));
            assert(lines + Seq::<LogLine>::empty() =~= lines);
        }
        if let Some(listener) = stop {
            stops.push(listener);
        }
        proof {
            done = done + 1;
        }
    }
    proof {
        assert(whole.take(done) =~= whole);
    }
    stops
}

/// Ends the session of a community that was left, and has the panels rebuilt.
pub fn community_left(
    state: &mut State,
    config: &Config,
    persona: PersonaId,
    recorded: Option<String>,
) -> (stop: Option<ListenerToStop>)
    ensures
        stop == listener_to_stop(*config, persona, recorded),
        final(state).logged(
            (State {
                connection: connection_left(*config, old(state).connection),
                main_page: MainPageState { sync_requested: true, ..old(state).main_page },
                ..*old(state)
            }),
            if stop is Some {
                seq![plain("Community inactive — persona listener stopped."@)]
            } else {
                Seq::empty()
            },
        ),
{
    let stop = deregister_inactive_community(state, config, persona, recorded);
    state.main_page.sync_requested = true;
    stop
}

/// A community's challenge to prove personhood.
#[derive(Clone, Debug)]
pub struct ChallengeReply {
    pub challenge_id: u128,
    pub match_code: String,
    pub expires_at: Timestamp,
}

/// What a message says of itself, for the log.
pub struct Envelope {
    pub kind: Seq<char>,
    pub from: Seq<char>,
    pub to: Seq<char>,
    pub thread: Seq<char>,
}

/// What a message says of itself.
pub open spec fn envelope(message: Message) -> Envelope {
    Envelope {
        kind: message.typ@,
        from: match message.from {
            Some(from) => from@,
            None => "unknown"@,
        },
        to: match message.to {
            Some(recipients) => if recipients@.len() > 0 {
                recipients@[0]@
            } else {
                Seq::empty()
            },
            None => Seq::empty(),
        },
        thread: match message.thid {
            Some(thid) => thid@,
            None => "none"@,
        },
    }
}

/// What is said when a challenge comes in.
pub open spec fn challenge_words(code: Seq<char>) -> Seq<char> {
    "Personhood challenge received — confirm the code "@ + code
        + " with whoever is vetting you, then assert."@
}

/// Whether `post` is the panel `pre` after challenges from `from` to the persona
/// with the DID `to`. The last one counts. One that no persona of the account
/// can answer is passed over: an unanswerable code is worse than none.
pub open spec fn challenged(
    pre: CommunitiesState,
    personas: Seq<PersonaRecord>,
    from: Seq<char>,
    to: Seq<char>,
    challenges: Seq<ChallengeReply>,
    post: CommunitiesState,
) -> bool {
    match persona_with(personas, to, 0) {
        None => post == pre,
        Some(persona) => if challenges.len() == 0 {
            post == pre
        } else {
            let last = challenges.last();
            &&& post == CommunitiesState {
                personhood_challenge: post.personhood_challenge,
                status_message: post.status_message,
                ..pre
            }
            &&& post.personhood_challenge matches Some(view) && view.vtc_did@ == from
                && view.persona == persona.persona_id && view.challenge_id == last.challenge_id
                && view.match_code == last.match_code && view.expires_at == last.expires_at
            &&& optional(post.status_message) == Some(challenge_words(last.match_code@))
        },
    }
}

fn show_challenge(
    communities: &mut CommunitiesState,
    from: &str,
    persona: PersonaId,
    reply: &ChallengeReply,
)
    ensures
        ({
            let post = *final(communities);
            &&& post == CommunitiesState {
                personhood_challenge: post.personhood_challenge,
                status_message: post.status_message,
                ..*old(communities)
            }
            &&& post.personhood_challenge matches Some(view) && view.vtc_did@ == from@
                && view.persona == persona && view.challenge_id == reply.challenge_id
                && view.match_code == reply.match_code && view.expires_at == reply.expires_at
            &&& optional(post.status_message) == Some(challenge_words(reply.match_code@))
        }),
{
    let mut words = "Personhood challenge received — confirm the code ".to_owned();
    words.append(reply.match_code.as_str());
    words.append(" with whoever is vetting you, then assert.");
    communities.personhood_challenge = Some(
        PersonhoodChallengeView {
            vtc_did: from.to_owned(),
            persona,
            challenge_id: reply.challenge_id,
            match_code: reply.match_code.clone(),
            expires_at: reply.expires_at,
        },
    );
    communities.status_message = Some(words);
}

/// Shows the challenges of a community.
pub fn show_challenges(
    communities: &mut CommunitiesState,
    config: &Config,
    from: &str,
    to: &str,
    challenges: &Vec<ChallengeReply>,
)
    ensures
        challenged(
            *old(communities),
            config.account.personas@,
            from@,
            to@,
            challenges@,
            *final(communities),
        ),
{
    let persona = match config.account.persona_for_did(to) {
        Some(persona) => persona.persona_id,
        None => {
            return ;
        },
    };
    if challenges.len() > 0 {
        show_challenge(communities, from, persona, &challenges[challenges.len() - 1]);
    }
}

/// A message, line by line, under a heading.
pub open spec fn message_detail(heading: Seq<char>, envelope: Envelope) -> Seq<char> {
    heading + "\nType:    "@ + envelope.kind + "\nFrom:    "@ + envelope.from + "\nTo:      "@
        + envelope.to + "\nthid:    "@ + envelope.thread
}

fn message_detail_text(heading: &str, kind: &str, from: &str, to: &str, thread: &str) -> (text:
    String)
    ensures
        text@ == message_detail(
            heading@,
            (Envelope { kind: kind@, from: from@, to: to@, thread: thread@ }),
        ),
{
    let mut text = heading.to_owned();
    text.append("\nType:    ");
    text.append(kind);
    text.append("\nFrom:    ");
    text.append(from);
    text.append("\nTo:      ");
    text.append(to);
    text.append("\nthid:    ");
    text.append(thread);
    text
}

/// The log line for a message that changed the account.
pub open spec fn inbound_line(
    transport: Seq<char>,
    label: Seq<char>,
    envelope: Envelope,
) -> LogLine {
    detailed(
        "Inbound "@ + transport + ": "@ + label,
        message_detail(
            "Inbound "@ + transport + " Message\n───────────────────────"@,
            envelope,
        ),
    )
}

/// The log line for a message that could not be taken in.
pub open spec fn inbound_error_line(error: Seq<char>, envelope: Envelope) -> LogLine {
    detailed(
        "Message error: "@ + error,
        message_detail("Failed Inbound Message\n──────────────────────"@, envelope)
            + "\nError:   "@ + error,
    )
}

fn sender_of(message: &Message) -> (from: String)
    ensures
        from@ == envelope(*message).from,
{
    match &message.from {
        Some(from) => from.clone(),
        None => "unknown".to_owned(),
    }
}

fn recipient_of(message: &Message) -> (to: String)
    ensures
        to@ == envelope(*message).to,
{
    match &message.to {
        Some(recipients) => if recipients.len() > 0 {
            recipients[0].clone()
        } else {
            String::new()
        },
        None => String::new(),
    }
}

fn thread_of(message: &Message) -> (thread: String)
    ensures
        thread@ == envelope(*message).thread,
{
    match &message.thid {
        Some(thid) => thid.clone(),
        None => "none".to_owned(),
    }
}

/// What came of a message.
pub struct Received {
    /// How it came.
    pub transport: String,
    /// What messages of its type are called in the log.
    pub label: String,
    /// Whether it changed the account, or why it could not be taken in.
    pub dispatched: Result<bool, String>,
    /// The sessions that ended with it.
    pub ended: Vec<EndedSession>,
    pub challenges: Vec<ChallengeReply>,
    pub capability_replies: Vec<(String, CapabilityReply)>,
}

/// Whether `post` is what a message makes of `pre`, before any replies about
/// capabilities are taken in.
pub open spec fn message_taken(
    pre: State,
    config: Config,
    message: Message,
    received: Received,
    post: State,
) -> bool {
    let what = envelope(message);
    match received.dispatched {
        Ok(false) => post == pre,
        Ok(true) => exists|mid: State|
            #![trigger sessions_ended(pre, config, received.ended@, mid)]
            {
                &&& sessions_ended(pre, config, received.ended@, mid)
                &&& post.logged(
                    mid.with_page(MainPageState { sync_requested: true, ..mid.main_page }),
                    seq![inbound_line(received.transport@, received.label@, what)],
                )
            },
        Err(error) => post.logged(pre, seq![inbound_error_line(error@, what)]),
    }
}

/// Whether `post` is what a message makes of `pre`: challenges are shown whether
/// or not it changed the account; then it is logged; then replies about
/// capabilities are taken in.
pub open spec fn receives(
    pre: State,
    config: Config,
    message: Message,
    received: Received,
    post: State,
) -> bool {
    let what = envelope(message);
    exists|shown: CommunitiesState, mid: State|
        #![trigger message_taken(pre.with_communities(shown), config, message, received, mid)]
        {
            &&& challenged(
                pre.main_page.content_panel.communities,
                config.account.personas@,
                what.from,
                what.to,
                received.challenges@,
                shown,
            )
            &&& message_taken(pre.with_communities(shown), config, message, received, mid)
            &&& view_became(
                mid,
                |v: Sight| after_replies(v, received.capability_replies@),
                post,
            )
        }
}

fn take_message(
    state: &mut State,
    config: &Config,
    message: &Message,
    transport: &str,
    label: &str,
    dispatched: &Result<bool, String>,
    ended: Vec<EndedSession>,
) -> (stops: Vec<ListenerToStop>)
    ensures
        ({
            let what = envelope(*message);
            match *dispatched {
                Ok(false) => *final(state) == *old(state) && stops@ == Seq::<
                    ListenerToStop,
                >::empty(),
                Ok(true) => {
                    &&& stops@ == listeners_to_stop(*config, ended@)
                    &&& exists|mid: State|
                        #![trigger sessions_ended(*old(state), *config, ended@, mid)]
                        {
                            &&& sessions_ended(*old(state), *config, ended@, mid)
                            &&& final(state).logged(
                                mid.with_page(
                                    MainPageState { sync_requested: true, ..mid.main_page },
                                ),
                                seq![inbound_line(transport@, label@, what)],
                            )
                        }
                },
                Err(error) => final(state).logged(
                    *old(state),
                    seq![inbound_error_line(error@, what)],
                ) && stops@ == Seq::<ListenerToStop>::empty(),
            }
        }),
{
    let from = sender_of(message);
    let to = recipient_of(message);
    let thread = thread_of(message);
    match dispatched {
        Ok(changed) => {
            if !*changed {
                return Vec::new();
            }
            let stops = end_sessions(state, config, ended);
            let ghost mid = *state;
            proof {
                assert(sessions_ended(*old(state), *config, ended@, mid));
            }
            state.main_page.sync_requested = true;
            let mut summary = "Inbound ".to_owned();
            summary.append(transport);
            summary.append(": ");
            summary.append(label);
            let mut heading = "Inbound ".to_owned();
            heading.append(transport);
            heading.append(" Message\n───────────────────────");
            let detail = message_detail_text(
                heading.as_str(),
                message.typ.as_str(),
                from.as_str(),
                to.as_str(),
                thread.as_str(),
            );
            state.main_page.log_detailed(summary, detail);
            stops
        },
        Err(error) => {
            let mut summary = "Message error: ".to_owned();
            summary.append(error.as_str());
            let mut detail = message_detail_text(
                "Failed Inbound Message\n──────────────────────",
                message.typ.as_str(),
                from.as_str(),
                to.as_str(),
                thread.as_str(),
            );
            detail.append("\nError:   ");
            detail.append(error.as_str());
            state.main_page.log_detailed(summary, detail);
            Vec::new()
        },
    }
}

/// Takes in a message, and returns the listeners to stop. A message that changed
/// the account has to be stored, but not at once: a burst of them is stored once.
pub fn inbound_message(
    state: &mut State,
    config: &Config,
    save: &mut SaveScheduler,
    message: &Message,
    received: Received,
) -> (stops: Vec<ListenerToStop>)
    ensures
        receives(*old(state), *config, *message, received, *final(state)),
        *final(save) == (SaveScheduler {
            dirty: old(save).dirty || received.dispatched == Ok::<bool, String>(true),
            ..*old(save)
        }),
        stops@ == (if received.dispatched == Ok::<bool, String>(true) {
            listeners_to_stop(*config, received.ended@)
        } else {
            Seq::empty()
        }),
{
    let from = sender_of(message);
    let to = recipient_of(message);
    show_challenges(
        &mut state.main_page.content_panel.communities,
        config,
        from.as_str(),
        to.as_str(),
        &received.challenges,
    );
    let ghost shown = state.main_page.content_panel.communities;
    let ghost first = *state;
    if let Ok(true) = &received.dispatched {
        save.mark_dirty();
    }
    let stops = take_message(
        state,
        config,
        message,
        received.transport.as_str(),
        received.label.as_str(),
        &received.dispatched,
        received.ended,
    );
    let ghost mid = *state;
    proof {
        assert(first == old(state).with_communities(shown));
        assert(message_taken(first, *config, *message, received, mid));
    }
    apply_capability_replies(state, received.capability_replies);
    stops
}

/// Whether a ping is answered: it comes from the mediator, or from someone with
/// whom a relationship is established.
pub open spec fn answers_ping(config: Config, sender: Seq<char>) -> bool {
    ||| sender == config.mediator_did@
    ||| config.private.relationships.with(sender) matches Some(r) && r.established
}

/// Who sent a ping.
pub open spec fn ping_sender(from: Option<Seq<char>>) -> Seq<char> {
    match from {
        Some(sender) => sender,
        None => "unknown"@,
    }
}

/// Whether a ping is answered.
pub fn trust_ping_received(config: &Config, from: &Option<String>) -> (answer: bool)
    ensures
        answer == answers_ping(*config, ping_sender(optional(*from))),
{
    let sender = match from {
        Some(sender) => sender.clone(),
        None => "unknown".to_owned(),
    };
    if same_text(sender.as_str(), config.mediator_did.as_str()) {
        return true;
    }
    match config.private.relationships.find_by_remote_did(sender.as_str()) {
        Some(relationship) => relationship.established,
        None => false,
    }
}

/// The log lines for a ping that was answered; `failed` says why the answer did
/// not go out, where it did not.
pub open spec fn answered_lines(
    config: Config,
    sender: Seq<char>,
    listener_id: Seq<char>,
    failed: Option<Seq<char>>,
) -> Seq<LogLine> {
    let name = display_name(config, sender);
    let done = detailed(
        "Ping from "@ + name + " — pong sent"@,
        "Trust-Ping Received\n───────────────────\nFrom (display):  "@ + name
            + "\nFrom (DID):      "@ + sender + "\nListener:        "@ + listener_id
            + "\nResponse:        pong sent"@,
    );
    match failed {
        Some(reason) => seq![failure("Failed to send pong"@, reason), done],
        None => seq![done],
    }
}

/// The log line for a ping that was not answered.
pub open spec fn ignored_line(config: Config, sender: Seq<char>) -> LogLine {
    detailed(
        "Ping from "@ + display_name(config, sender) + " — ignored"@,
        "Trust-Ping Rejected\n───────────────────\nFrom (DID):      "@ + sender
            + "\nReason:          no established relationship"@,
    )
}

/// Logs a ping that was answered.
pub fn ping_answered(
    state: &mut State,
    config: &Config,
    from: &Option<String>,
    listener_id: &str,
    failed: Option<String>,
)
    ensures
        final(state).logged(
            *old(state),
            answered_lines(
                *config,
                ping_sender(optional(*from)),
                listener_id@,
                optional(failed),
            ),
        ),
{
    let sender = match from {
        Some(sender) => sender.clone(),
        None => "unknown".to_owned(),
    };
    if let Some(reason) = &failed {
        state.main_page.log_error("Failed to send pong", reason.as_str());
    }
    let name = resolve_did_to_display(config, sender.as_str());
    let mut summary = "Ping from ".to_owned();
    summary.append(name.as_str());
    summary.append(" — pong sent");
    let mut detail = "Trust-Ping Received\n───────────────────\nFrom (display):  ".to_owned();
    detail.append(name.as_str());
    detail.append("\nFrom (DID):      ");
    detail.append(sender.as_str());
    detail.append("\nListener:        ");
    detail.append(listener_id);
    detail.append("\nResponse:        pong sent");
    state.main_page.log_detailed(summary, detail);
    proof {
        assert(state.main_page.lines() =~= old(state).main_page.lines() + answered_lines(
            *config,
            ping_sender(optional(*from)),
            listener_id@,
            optional(failed),
        ));
    }
}

/// Logs a ping that was not answered.
pub fn ping_ignored(state: &mut State, config: &Config, from: &Option<String>)
    ensures
        final(state).logged(
            *old(state),
            seq![ignored_line(*config, ping_sender(optional(*from)))],
        ),
{
    let sender = match from {
        Some(sender) => sender.clone(),
        None => "unknown".to_owned(),
    };
    let name = resolve_did_to_display(config, sender.as_str());
    let mut summary = "Ping from ".to_owned();
    summary.append(name.as_str());
    summary.append(" — ignored");
    let mut detail = "Trust-Ping Rejected\n───────────────────\nFrom (DID):      ".to_owned();
    detail.append(sender.as_str());
    detail.append("\nReason:          no established relationship");
    state.main_page.log_detailed(summary, detail);
}

/// Whom the most recent ping among some tasks went to.
pub open spec fn pinged(tasks: Seq<Task>) -> Option<String>
    decreases tasks.len(),
{
    if tasks.len() == 0 {
        None
    } else if tasks.last().ping_to is Some {
        tasks.last().ping_to
    } else {
        pinged(tasks.drop_last())
    }
}

/// Who answered a ping. An answer often names no sender; it is then taken to come
/// from whom the user pinged last.
pub open spec fn pong_sender(config: Config, from: Seq<char>) -> Seq<char> {
    if from.len() > 0 {
        display_name(config, from)
    } else {
        match pinged(config.private.tasks@) {
            Some(to) => display_name(config, to@),
            None => "unknown"@,
        }
    }
}

fn pong_sender_text(config: &Config, from: &str) -> (name: String)
    ensures
        name@ == pong_sender(*config, from@),
{
    if !from.is_empty() {
        return resolve_did_to_display(config, from);
    }
    let mut left: usize = config.private.tasks.len();
    proof {
        assert(config.private.tasks@.take(left as int) =~= config.private.tasks@);
    }
    while left > 0
        invariant
            left <= config.private.tasks@.len(),
            pinged(config.private.tasks@) == pinged(config.private.tasks@.take(left as int)),
            from@.len() == 0,
        decreases left,
    {
        proof {
            assert(config.private.tasks@.take(left as int).drop_last()
                =~= config.private.tasks@.take(left - 1));
        }
        if let Some(to) = &config.private.tasks[left - 1].ping_to {
            return resolve_did_to_display(config, to.as_str());
        }
        left = left - 1;
    }
    "unknown".to_owned()
}

/// How long an answer took, in milliseconds, where it is known when the ping went
/// out. Both times are in nanoseconds of the process clock.
pub open spec fn latency(sent_at: Option<u64>, now: u64) -> Option<nat> {
    match sent_at {
        Some(sent) => Some(
            if now >= sent {
                ((now - sent) / 1_000_000) as nat
            } else {
                0
            },
        ),
        None => None,
    }
}

/// The log line for an answer to a ping.
pub open spec fn pong_line(name: Seq<char>, did: Seq<char>, took: Option<nat>) -> LogLine {
    detailed(
        "Pong from "@ + name + (match took {
            Some(ms) => " ("@ + decimal(ms) + "ms)"@,
            None => Seq::empty(),
        }),
        "Trust-Pong Received\n───────────────────\nFrom (display):  "@ + name
            + "\nFrom (DID):      "@ + did + "\nLatency:         "@ + (match took {
            Some(ms) => decimal(ms) + "ms"@,
            None => "n/a"@,
        }),
    )
}

/// Logs an answer to a ping. The time the ping went out is used up by it.
pub fn trust_pong_received(
    state: &mut State,
    config: &Config,
    from: &Option<String>,
    ping_sent_at: &mut Option<u64>,
    now: u64,
)
    ensures
        *final(ping_sent_at) is None,
        ({
            let did = match optional(*from) {
                Some(sender) => sender,
                None => Seq::empty(),
            };
            final(state).logged(
                *old(state),
                seq![pong_line(pong_sender(*config, did), did, latency(*old(ping_sent_at), now))],
            )
        }),
{
    let did = match from {
        Some(sender) => sender.clone(),
        None => String::new(),
    };
    let name = pong_sender_text(config, did.as_str());
    let sent_at = ping_sent_at.take();
    let mut latency_note = String::new();
    let mut latency_fact = "n/a".to_owned();
    if let Some(sent) = sent_at {
        let ms: u64 = if now >= sent {
            (now - sent) / 1_000_000
        } else {
            0
        };
        let count = decimal_text(ms);
        latency_note = " (".to_owned();
        latency_note.append(count.as_str());
        latency_note.append("ms)");
        latency_fact = count;
        latency_fact.append("ms");
    }
    let mut summary = "Pong from ".to_owned();
    summary.append(name.as_str());
    summary.append(latency_note.as_str());
    let mut detail = "Trust-Pong Received\n───────────────────\nFrom (display):  ".to_owned();
    detail.append(name.as_str());
    detail.append("\nFrom (DID):      ");
    detail.append(did.as_str());
    detail.append("\nLatency:         ");
    detail.append(latency_fact.as_str());
    state.main_page.log_detailed(summary, detail);
}

/// What was found out about the installs that use the account.
pub enum PresenceReport {
    /// This install is known by an identifier.
    Registered(String),
    /// Others use the account.
    NewSiblings(Vec<Sibling>),
    /// It could not be found out.
    Unavailable,
}

/// What the log says of another install.
pub open spec fn sibling_line(sibling: Sibling) -> Seq<char> {
    sibling.label@ + " — last seen "@ + (match sibling.last_seen_at {
        Some(when) => when@,
        None => "unknown"@,
    })
}

/// What the log says of other installs.
pub open spec fn sibling_lines(siblings: Seq<Sibling>) -> Seq<Seq<char>> {
    siblings.map_values(|s: Sibling| sibling_line(s))
}

fn siblings_text(siblings: &Vec<Sibling>) -> (text: String)
    ensures
        text@ == joined(sibling_lines(siblings@), "\n"@),
{
    let mut lines: Vec<String> = Vec::new();
    let mut i: usize = 0;
    while i < siblings.len()
        invariant
            i <= siblings@.len(),
            texts(lines@) == sibling_lines(siblings@.take(i as int)),
        decreases siblings@.len() - i,
    {
        let mut line = siblings[i].label.clone();
        line.append(" — last seen ");
        match &siblings[i].last_seen_at {
            Some(when) => line.append(when.as_str()),
            None => line.append("unknown"),
        }
        let ghost said = line@;
        let ghost before = lines@;
        lines.push(line);
        proof {
            assert(texts(lines@) =~= texts(before).push(said));
            assert(siblings@.take(i + 1) =~= siblings@.take(i as int).push(siblings@[i as int]));
            assert(sibling_lines(siblings@.take(i + 1)) =~= sibling_lines(
                siblings@.take(i as int),
            ).push(said));
        }
        i = i + 1;
    }
    proof {
        assert(siblings@.take(i as int) =~= siblings@);
    }
    join(&lines, "\n")
}

/// Takes in what was found out about the installs that use the account. `warning`
/// is what to say of the others, where there is something to say.
pub fn presence_reported(state: &mut State, report: PresenceReport, warning: Option<String>)
    ensures
        match report {
            PresenceReport::Registered(id) => *final(state) == (State {
                self_device_id: Some(id),
                ..*old(state)
            }),
            PresenceReport::NewSiblings(siblings) => {
                let known = State { live_siblings: siblings, ..*old(state) };
                match optional(warning) {
                    Some(words) => final(state).logged(
                        known,
                        seq![
                            detailed(
                                "WARNING: "@ + words,
                                joined(sibling_lines(siblings@), "\n"@),
                            ),
                        ],
                    ),
                    None => *final(state) == known,
                }
            },
            PresenceReport::Unavailable => *final(state) == *old(state),
        },
{
    match report {
        PresenceReport::Registered(id) => {
            state.self_device_id = Some(id);
        },
        PresenceReport::NewSiblings(siblings) => {
            if let Some(words) = warning {
                let mut summary = "WARNING: ".to_owned();
                summary.append(words.as_str());
                let detail = siblings_text(&siblings);
                state.main_page.log_detailed(summary, detail);
            }
            state.live_siblings = siblings;
        },
        PresenceReport::Unavailable => {},
    }
}

/// Logs something that happened to a listener.
pub fn lifecycle_event(state: &mut State, config: &Config, event: &LifecycleLog)
    requires
        event.valid(),
    ensures
        final(state).logged(
            *old(state),
            seq![
                LogLine {
                    summary: summary_of(*config, *event),
                    detail: detail_of(*config, *event),
                },
            ],
        ),
{
    let line = format_lifecycle_log(config, event);
    match line.detail {
        Some(detail) => {
            state.main_page.log_detailed(line.summary, detail);
        },
        None => {
            state.main_page.log(line.summary);
        },
    }
}

/// A listener came up or went down.
#[derive(Clone, Debug)]
pub enum ListenerStatus {
    Connected { listener_id: String },
    Disconnected { listener_id: String, error: Option<String> },
}

/// What that means for the session that goes by the listener. Sessions that go by
/// another listener are not touched.
#[derive(Clone, Debug)]
pub enum SessionUpdate {
    MarkConnected(String),
    MarkFailed(String, String),
    MarkDisconnected(String),
}

/// What a listener coming up or going down means for its session: one that went
/// down with an error has failed, one without will be back.
pub fn session_update(event: ListenerStatus) -> (update: SessionUpdate)
    ensures
        update == (match event {
            ListenerStatus::Connected { listener_id } => SessionUpdate::MarkConnected(listener_id),
            ListenerStatus::Disconnected { listener_id, error } => match error {
                Some(reason) => SessionUpdate::MarkFailed(listener_id, reason),
                None => SessionUpdate::MarkDisconnected(listener_id),
            },
        }),
{
    match event {
        ListenerStatus::Connected { listener_id } => SessionUpdate::MarkConnected(listener_id),
        ListenerStatus::Disconnected { listener_id, error } => match error {
            Some(reason) => SessionUpdate::MarkFailed(listener_id, reason),
            None => SessionUpdate::MarkDisconnected(listener_id),
        },
    }
}

/// What the log says of joins that went unanswered for too long.
pub open spec fn expired_line(count: nat) -> LogLine {
    plain(
        decimal(count) + " pending join"@ + (if count == 1 {
            ""@
        } else {
            "s"@
        }) + " expired (no response within 7 days)."@,
    )
}

/// Whether `post` is `pre` once joins have expired.
pub open spec fn joins_expired(
    pre: State,
    config: Config,
    ended: Seq<EndedSession>,
    post: State,
) -> bool {
    if ended.len() == 0 {
        post == pre
    } else {
        exists|mid: State|
            #![trigger sessions_ended(pre, config, ended, mid)]
            {
                &&& sessions_ended(pre, config, ended, mid)
                &&& post.logged(
                    mid.with_page(MainPageState { sync_requested: true, ..mid.main_page }),
                    seq![expired_line(ended.len())],
                )
            }
    }
}

/// Takes in the joins that went unanswered for too long, each with its session,
/// and returns the listeners to stop.
pub fn pending_expired(
    state: &mut State,
    config: &Config,
    save: &mut SaveScheduler,
    ended: Vec<EndedSession>,
) -> (stops: Vec<ListenerToStop>)
    ensures
        joins_expired(*old(state), *config, ended@, *final(state)),
        *final(save) == (SaveScheduler {
            dirty: old(save).dirty || ended@.len() > 0,
            ..*old(save)
        }),
        stops@ == listeners_to_stop(*config, ended@),
{
    let count = ended.len();
    if count == 0 {
        return Vec::new();
    }
    save.mark_dirty();
    let stops = end_sessions(state, config, ended);
    let ghost mid = *state;
    proof {
        assert(sessions_ended(*old(state), *config, ended@, mid));
    }
    state.main_page.sync_requested = true;
    let mut line = count_text(count);
    line.append(" pending join");
    line.append(
        if count == 1 {
            ""
        } else {
            "s"
        },
    );
    line.append(" expired (no response within 7 days).");
    state.main_page.log(line);
    stops
}

/// What to ask about each membership: the context, and the DID of the persona
/// the community sees. A membership whose persona is unknown is passed over.
pub open spec fn binding_targets_of(
    memberships: Seq<CommunityRecord>,
    personas: Seq<PersonaRecord>,
) -> Seq<BindingTarget>
    decreases memberships.len(),
{
    if memberships.len() == 0 {
        Seq::empty()
    } else {
        let before = binding_targets_of(memberships.drop_last(), personas);
        let last = memberships.last();
        match persona_numbered(personas, last.persona_ref, 0) {
            Some(persona) => before.push((last.sub_context_id, persona.did)),
            None => before,
        }
    }
}

/// Lists what to ask about the memberships.
pub fn binding_targets(config: &Config) -> (targets: Vec<BindingTarget>)
    ensures
        targets@ == binding_targets_of(config.account.memberships@, config.account.personas@),
{
    let mut targets: Vec<BindingTarget> = Vec::new();
    let mut i: usize = 0;
    proof {
        assert(config.account.memberships@.take(0) =~= Seq::<CommunityRecord>::empty());
    }
    while i < config.account.memberships.len()
        invariant
            i <= config.account.memberships@.len(),
            targets@ == binding_targets_of(
                config.account.memberships@.take(i as int),
                config.account.personas@,
            ),
        decreases config.account.memberships@.len() - i,
    {
        proof {
            assert(config.account.memberships@.take(i + 1).drop_last()
                =~= config.account.memberships@.take(i as int));
        }
        let membership = &config.account.memberships[i];
        if let Some(persona) = config.account.persona(membership.persona_ref) {
            targets.push((membership.sub_context_id.clone(), persona.did.clone()));
        }
        i = i + 1;
    }
    proof {
        assert(config.account.memberships@.take(i as int) =~= config.account.memberships@);
    }
    targets
}

/// Whether the VTA's transports have to be looked up: until it has been done with
/// success.
pub open spec fn needs_probe(advertised: Option<AdvertisedTransports>) -> bool {
    match advertised {
        Some(found) => found.error is Some,
        None => true,
    }
}

/// The VTA whose transports to look up.
pub open spec fn vta_to_probe(backend: KeyBackend) -> Option<String> {
    match backend {
        KeyBackend::Vta { vta_did, .. } => if vta_did@.len() > 0 {
            Some(vta_did)
        } else {
            None
        },
        KeyBackend::Bip32 => None,
    }
}

/// What to look up.
#[derive(Debug)]
pub struct RefreshPlan {
    /// The DIDs whose names to look up.
    pub names: Option<Vec<String>>,
    /// The bindings to ask about.
    pub bindings: Option<Vec<BindingTarget>>,
    /// The VTA whose transports to look up.
    pub probe: Option<String>,
}

/// Whether `plan` is what to look up, with work `busy` under way. Each part runs
/// at most once at a time, so lookups never pile up.
pub open spec fn plans(
    advertised: Option<AdvertisedTransports>,
    config: Config,
    busy: Set<DispatchDomain>,
    stale: Seq<String>,
    has_session: bool,
    plan: RefreshPlan,
) -> bool {
    let targets = binding_targets_of(config.account.memberships@, config.account.personas@);
    &&& if stale.len() > 0 && !busy.contains(DispatchDomain::AgentName) {
        plan.names matches Some(names) && names@ == stale
    } else {
        plan.names is None
    }
    &&& if targets.len() > 0 && has_session && !busy.contains(DispatchDomain::PersonaBinding) {
        plan.bindings matches Some(bindings) && bindings@ == targets
    } else {
        plan.bindings is None
    }
    &&& plan.probe == (if needs_probe(advertised) && !busy.contains(
        DispatchDomain::VtaTransports,
    ) {
        vta_to_probe(config.key_backend)
    } else {
        None
    })
}

/// The work under way once a plan is made.
pub open spec fn busy_with(busy: Set<DispatchDomain>, plan: RefreshPlan) -> Set<DispatchDomain> {
    let names = if plan.names is Some {
        busy.insert(DispatchDomain::AgentName)
    } else {
        busy
    };
    let bindings = if plan.bindings is Some {
        names.insert(DispatchDomain::PersonaBinding)
    } else {
        names
    };
    if plan.probe is Some {
        bindings.insert(DispatchDomain::VtaTransports)
    } else {
        bindings
    }
}

/// Decides what to look up. `stale` are the DIDs whose names are unknown or out
/// of date.
pub fn refresh_plan(
    state: &State,
    config: &Config,
    in_flight: &mut InFlight,
    stale: Vec<String>,
    has_session: bool,
) -> (plan: RefreshPlan)
    ensures
        plans(
            state.main_page.content_panel.vta.transports.advertised,
            *config,
            old(in_flight)@,
            stale@,
            has_session,
            plan,
        ),
        final(in_flight)@ == busy_with(old(in_flight)@, plan),
{
    let ghost busy = in_flight@;
    let mut names: Option<Vec<String>> = None;
    if stale.len() > 0 && !in_flight.is_busy(DispatchDomain::AgentName) {
        let _ = in_flight.try_begin(DispatchDomain::AgentName);
        names = Some(stale);
    }
    let mut bindings: Option<Vec<BindingTarget>> = None;
    let targets = binding_targets(config);
    if targets.len() > 0 && has_session && !in_flight.is_busy(DispatchDomain::PersonaBinding) {
        let _ = in_flight.try_begin(DispatchDomain::PersonaBinding);
        bindings = Some(targets);
    }
    let missing: bool = match &state.main_page.content_panel.vta.transports.advertised {
        Some(found) => found.error.is_some(),
        None => true,
    };
    let mut probe: Option<String> = None;
    if missing {
        if let KeyBackend::Vta { vta_did, .. } = &config.key_backend {
            if !vta_did.as_str().is_empty() && !in_flight.is_busy(DispatchDomain::VtaTransports) {
                let _ = in_flight.try_begin(DispatchDomain::VtaTransports);
                probe = Some(vta_did.clone());
            }
        }
    }
    RefreshPlan { names, bindings, probe }
}

/// Notes that the account could not be taken for storing; it still waits.
pub fn snapshot_failed(state: &mut State, reason: &str)
    ensures
        final(state).logged(*old(state), seq![failure("Failed to save config"@, reason@)]),
{
    state.main_page.log_error("Failed to save config", reason);
}

/// Notes what storing the account came to. What could not be stored still waits.
pub fn save_finished(state: &mut State, save: &mut SaveScheduler, result: Result<(), String>)
    ensures
        *final(save) == (SaveScheduler {
            dirty: old(save).dirty || result is Err,
            running: false,
            ..*old(save)
        }),
        match result {
            Ok(_) => *final(state) == *old(state),
            Err(reason) => final(state).logged(
                *old(state),
                seq![failure("Failed to save config"@, reason@)],
            ),
        },
{
    match result {
        Ok(_) => {
            save.finish(true);
        },
        Err(reason) => {
            snapshot_failed(state, reason.as_str());
            save.finish(false);
        },
    }
}

/// What storing the account at the end of a loop came to.
#[derive(Clone, Debug)]
pub enum ExitSave {
    Stored,
    /// The account could not be taken for storing; says why.
    NotTaken(String),
    /// It could not be stored; says why.
    NotStored(String),
}

/// What the log says of storing the account at the end of a loop.
pub open spec fn exit_save_lines(outcome: ExitSave) -> Seq<LogLine> {
    match outcome {
        ExitSave::Stored => Seq::empty(),
        ExitSave::NotTaken(reason) => seq![
            failure("Failed to snapshot config on exit"@, reason@),
        ],
        ExitSave::NotStored(reason) => seq![failure("Failed to save config on exit"@, reason@)],
    }
}

/// Notes what storing the account at the end of a loop came to. What could not
/// be stored is said, and still marked.
pub fn exit_saved(state: &mut State, save: &mut SaveScheduler, outcome: ExitSave)
    ensures
        *final(save) == old(save).finished(outcome is Stored),
        final(state).logged(*old(state), exit_save_lines(outcome)),
{
    match outcome {
        ExitSave::Stored => {
            proof {
                assert(state.main_page.lines() =~= state.main_page.lines() + Seq::<
                    LogLine,
                >::empty());
            }
            save.finish(true);
        },
        ExitSave::NotTaken(reason) => {
            state.main_page.log_error("Failed to snapshot config on exit", reason.as_str());
            save.finish(false);
        },
        ExitSave::NotStored(reason) => {
            state.main_page.log_error("Failed to save config on exit", reason.as_str());
            save.finish(false);
        },
    }
}

/// The persona of a membership.
pub open spec fn persona_of(membership: Option<(String, PersonaId)>) -> Option<PersonaId> {
    match membership {
        Some(m) => Some(m.1),
        None => None,
    }
}

/// Keeps working in a membership that still stands: `selected` is the one there
/// is after whatever happened. The panels are rebuilt when the persona changes.
pub fn settle_selection(
    state: &mut State,
    config: &mut Config,
    selected: Option<(String, PersonaId)>,
)
    ensures
        *final(config) == (Config { active_persona: persona_of(selected), ..*old(config) }),
        *final(state) == (State {
            selected_community: selected,
            main_page: MainPageState {
                sync_requested: old(state).main_page.sync_requested || persona_of(selected) != old(config).active_persona,
                ..old(state).main_page
            },
            ..*old(state)
        }),
{
    let persona = match &selected {
        Some(membership) => Some(membership.1),
        None => None,
    };
    state.selected_community = selected;
    let same: bool = match (persona, config.active_persona) {
        (Some(a), Some(b)) => a == b,
        (None, None) => true,
        _ => false,
    };
    if !same {
        config.active_persona = persona;
        state.main_page.sync_requested = true;
    }
}

/// Only pings from the mediator and from established relationships are answered.
pub proof fn strangers_are_not_answered(config: Config, sender: Seq<char>)
    requires
        sender != config.mediator_did@,
        config.private.relationships.with(sender) matches Some(r) ==> !r.established,
    ensures
        !answers_ping(config, sender),
{
}

/// A challenge to someone the account does not know is never shown.
pub proof fn unanswerable_challenges_are_passed_over(
    pre: CommunitiesState,
    personas: Seq<PersonaRecord>,
    from: Seq<char>,
    to: Seq<char>,
    challenges: Seq<ChallengeReply>,
    post: CommunitiesState,
)
    requires
        challenged(pre, personas, from, to, challenges, post),
        persona_with(personas, to, 0) is None,
    ensures
        post == pre,
{
}

/// What has been looked up with success is not looked up again.
pub proof fn a_successful_probe_is_the_last(
    found: AdvertisedTransports,
    config: Config,
    busy: Set<DispatchDomain>,
    stale: Seq<String>,
    has_session: bool,
    plan: RefreshPlan,
)
    requires
        found.error is None,
        plans(Some(found), config, busy, stale, has_session, plan),
    ensures
        plan.probe is None,
{
}

/// Leaving, a failed screen and joining concern the loop itself; everything else
/// is served as it was asked for.
pub proof fn only_leaving_and_joining_concern_the_loop(action: Action, step: RuntimeStep)
    requires
        call_ensures(runtime_action, (action,), step),
    ensures
        step is Exit <==> action is Exit || action is UXError,
        step is Join <==> action is StartJoin,
        action is Exit ==> step->Exit_0 is UserInt,
        action matches Action::UXError(reason) ==> step->Exit_0 == reason,
        !(step is Exit) && !(step is Join) ==> step == RuntimeStep::Serve(action),
{
}

/// The program ends after an action exactly when the profile was wiped, and then
/// because the user asked for it.
pub proof fn a_wiped_profile_ends_the_program(wiped: bool, step: RuntimeStep)
    requires
        call_ensures(after_served, (wiped,), step),
    ensures
        wiped <==> step == RuntimeStep::Exit(Interrupted::UserInt),
        !wiped <==> step is Continue,
{
}

/// Whoever comes back from joining is on the main page again, and a community
/// that was joined gets its session; a breakdown is said and joins nothing.
pub proof fn joining_comes_back_to_the_main_page(
    state: &mut State,
    exit: RuntimeJoin,
    step: RuntimeStep,
)
    requires
        call_ensures(runtime_joined, (state, exit), step),
    ensures
        exit matches RuntimeJoin::Exit(reason) ==> step == RuntimeStep::Exit(reason)
            && *final(state) == *old(state),
        !(exit is Exit) ==> final(state).active_page is Main,
        !(exit is Exit) ==> !(step is Exit),
        exit matches RuntimeJoin::Returned(joined) ==> match joined {
            Some(session) => step == RuntimeStep::Register(session),
            None => step is Continue,
        },
        exit is Returned ==> final(state).main_page == old(state).main_page,
        exit matches RuntimeJoin::Failed(reason) ==> {
            &&& step is Continue
            &&& final(state).main_page.lines() == old(state).main_page.lines().push(
                LogLine { summary: "Join flow failed: "@ + reason@, detail: None },
            )
        },
        final(state).connection == old(state).connection,
        final(state).selected_community == old(state).selected_community,
{
    if let RuntimeJoin::Failed(reason) = exit {
        reveal_strlit("Join flow failed");
        reveal_strlit("Join flow failed: ");
        reveal_strlit(": ");
        assert("Join flow failed"@ + ": "@ =~= "Join flow failed: "@);
        assert(final(state).main_page.lines() =~= old(state).main_page.lines().push(
            LogLine { summary: "Join flow failed: "@ + reason@, detail: None },
        ));
    }
}

/// Sessions that end one after the other stop the same listeners, in the same
/// order, as when they end at once.
pub proof fn ending_sessions_adds_up(
    config: Config,
    first: Seq<EndedSession>,
    second: Seq<EndedSession>,
)
    ensures
        listeners_to_stop(config, first + second) == listeners_to_stop(config, first)
            + listeners_to_stop(config, second),
    decreases second.len(),
{
    if second.len() == 0 {
        assert(first + second =~= first);
        assert(listeners_to_stop(config, first) + listeners_to_stop(config, second)
            =~= listeners_to_stop(config, first));
    } else {
        ending_sessions_adds_up(config, first, second.drop_last());
        assert((first + second).drop_last() =~= first + second.drop_last());
        assert((first + second).last() == second.last());
        assert(listeners_to_stop(config, first + second) =~= listeners_to_stop(config, first)
            + listeners_to_stop(config, second));
    }
}

/// A session that ends stops its listener exactly when no live membership shows
/// the persona any more and the persona is loaded: the listener it was known by,
/// or else the one of the persona's DID.
pub proof fn one_ended_session_stops_one_listener(
    config: Config,
    persona: PersonaId,
    recorded: Option<String>,
)
    ensures
        ({
            let stops = listeners_to_stop(config, seq![(persona, recorded)]);
            let needed = exists|i: int|
                0 <= i < config.account.memberships@.len() && (
                #[trigger] config.account.memberships@[i]).live
                    && config.account.memberships@[i].persona_ref == persona;
            let loaded = exists|i: int|
                0 <= i < config.identities@.len() && (#[trigger] config.identities@[i]).persona_id
                    == persona;
            &&& stops.len() == (if !needed && loaded {
                1nat
            } else {
                0nat
            })
            &&& !needed && loaded ==> (recorded matches Some(id) ==> stops[0]
                == ListenerToStop::Recorded(id))
            &&& !needed && loaded && recorded is None ==> exists|i: int|
                0 <= i < config.identities@.len() && (#[trigger] config.identities@[i]).persona_id
                    == persona && stops[0] == ListenerToStop::OfPersona(config.identities@[i].did)
        }),
{
    reveal_with_fuel(listeners_to_stop, 2);
    let one = seq![(persona, recorded)];
    assert(one.drop_last() =~= Seq::<EndedSession>::empty());
    assert(one.last() == (persona, recorded));
    crate::config::the_first_identity_is_found(config.identities@, persona, 0);
    if config.account.serves(persona) {
        let i = choose|i: int|
            0 <= i < config.account.memberships@.len() && (
            #[trigger] config.account.memberships@[i]).persona_ref == persona
                && config.account.memberships@[i].live;
        assert(config.account.memberships@[i].live);
    }
    let needed = exists|i: int|
        0 <= i < config.account.memberships@.len() && (
        #[trigger] config.account.memberships@[i]).live
            && config.account.memberships@[i].persona_ref == persona;
    if needed {
        let i = choose|i: int|
            0 <= i < config.account.memberships@.len() && (
            #[trigger] config.account.memberships@[i]).live
                && config.account.memberships@[i].persona_ref == persona;
        assert(config.account.memberships@[i].persona_ref == persona
            && config.account.memberships@[i].live);
        assert(config.account.serves(persona));
    }
}

/// The log says once for each listener that it was stopped, the connection is
/// shown as gone exactly when a session ended and no membership is live, and
/// nothing else changes.
pub proof fn ended_sessions_are_told(
    state: &mut State,
    config: &Config,
    ended: Vec<EndedSession>,
    stops: Vec<ListenerToStop>,
)
    requires
        call_ensures(end_sessions, (state, config, ended), stops),
    ensures
        final(state).main_page.log@.len() == old(state).main_page.log@.len() + stops@.len(),
        forall|i: int|
            old(state).main_page.log@.len() <= i < final(state).main_page.log@.len() ==> (
            #[trigger] final(state).main_page.log@[i]).summary@
                == "Community inactive — persona listener stopped."@,
        ended@.len() == 0 ==> final(state).connection == old(state).connection && stops@.len() == 0,
        ended@.len() > 0 && !config.account.has_live()
            ==> final(state).connection.status is NoActiveCommunity
            && !final(state).connection.messaging_active,
        config.account.has_live() ==> final(state).connection == old(state).connection,
        final(state).main_page.content_panel == old(state).main_page.content_panel,
        final(state).main_page.sync_requested == old(state).main_page.sync_requested,
        final(state).selected_community == old(state).selected_community,
        final(state).active_page == old(state).active_page,
{
    let n = listeners_to_stop(*config, ended@).len();
    let lines = stopped_lines(n);
    let mid = State {
        connection: if ended@.len() > 0 {
            connection_left(*config, old(state).connection)
        } else {
            old(state).connection
        },
        ..*old(state)
    };
    crate::state::a_log_only_grows(mid.main_page, final(state).main_page, lines);
    let before = old(state).main_page.log@.len() as int;
    assert forall|i: int| before <= i < final(state).main_page.log@.len() implies (
    #[trigger] final(state).main_page.log@[i]).summary@
        == "Community inactive — persona listener stopped."@ by {
        let j = i - before;
        assert(lines[j] == plain("Community inactive — persona listener stopped."@));
        assert(final(state).main_page.log@[before + j].summary@ == lines[j].summary);
    }
}

/// Once a community was left the panels are rebuilt, and the listener that goes
/// is the one that ending its session alone would stop.
pub proof fn leaving_ends_one_session(
    state: &mut State,
    config: &Config,
    persona: PersonaId,
    recorded: Option<String>,
    stop: Option<ListenerToStop>,
)
    requires
        call_ensures(community_left, (state, config, persona, recorded), stop),
    ensures
        final(state).main_page.sync_requested,
        listeners_to_stop(*config, seq![(persona, recorded)]) == (match stop {
            Some(listener) => seq![listener],
            None => Seq::empty(),
        }),
        !config.account.has_live() ==> final(state).connection.status is NoActiveCommunity
            && !final(state).connection.messaging_active,
        config.account.has_live() ==> final(state).connection == old(state).connection,
        final(state).main_page.log@.len() == old(state).main_page.log@.len() + (if stop is Some {
            1int
        } else {
            0
        }),
        final(state).main_page.content_panel == old(state).main_page.content_panel,
        final(state).selected_community == old(state).selected_community,
{
    reveal_with_fuel(listeners_to_stop, 2);
    let one = seq![(persona, recorded)];
    assert(one.drop_last() =~= Seq::<EndedSession>::empty());
    assert(one.last() == (persona, recorded));
    assert(listeners_to_stop(*config, one) =~= (match stop {
        Some(listener) => seq![listener],
        None => Seq::empty(),
    }));
    assert(final(state).main_page.lines().len() == final(state).main_page.log@.len());
    assert(old(state).main_page.lines().len() == old(state).main_page.log@.len());
}

/// A challenge that comes in for a persona of the account takes the place of
/// whatever was held: the panel then holds the last one that came, for that
/// community and that persona, says its code, and is otherwise as it was.
pub proof fn the_last_challenge_is_held(
    communities: &mut CommunitiesState,
    config: &Config,
    from: &str,
    to: &str,
    challenges: &Vec<ChallengeReply>,
    i: int,
)
    requires
        call_ensures(show_challenges, (communities, config, from, to, challenges), ()),
        0 <= i < config.account.personas@.len(),
        config.account.personas@[i].did@ == to@,
        challenges@.len() > 0,
    ensures
        final(communities).personhood_challenge matches Some(held) && {
            let last = challenges@[challenges@.len() - 1];
            &&& held.challenge_id == last.challenge_id
            &&& held.match_code@ == last.match_code@
            &&& held.expires_at == last.expires_at
            &&& held.vtc_did@ == from@
            &&& exists|p: int|
                0 <= p <= i && (#[trigger] config.account.personas@[p]).did@ == to@
                    && config.account.personas@[p].persona_id == held.persona && forall|j: int|
                    0 <= j < p ==> (#[trigger] config.account.personas@[j]).did@ != to@
            &&& final(communities).status_message matches Some(words) && words@
                == "Personhood challenge received — confirm the code "@ + last.match_code@
                + " with whoever is vetting you, then assert."@
        },
        final(communities).items == old(communities).items,
        final(communities).bindings == old(communities).bindings,
        final(communities).selected_index == old(communities).selected_index,
        final(communities).actions_required == old(communities).actions_required,
        final(communities).confirm_delete == old(communities).confirm_delete,
        final(communities).confirm_leave == old(communities).confirm_leave,
        final(communities).confirm_withdraw == old(communities).confirm_withdraw,
        final(communities).show_archived == old(communities).show_archived,
{
    crate::config::the_first_persona_with_a_did_is_found(config.account.personas@, to@, 0);
}

/// Without a challenge, or for someone the account does not know, the panel is
/// left alone.
pub proof fn nothing_is_held_for_nobody(
    communities: &mut CommunitiesState,
    config: &Config,
    from: &str,
    to: &str,
    challenges: &Vec<ChallengeReply>,
)
    requires
        call_ensures(show_challenges, (communities, config, from, to, challenges), ()),
        challenges@.len() == 0 || forall|i: int|
            0 <= i < config.account.personas@.len() ==> (
            #[trigger] config.account.personas@[i]).did@ != to@,
    ensures
        *final(communities) == *old(communities),
{
    crate::config::the_first_persona_with_a_did_is_found(config.account.personas@, to@, 0);
}

/// Whatever else a message brings, the last challenge in it is held afterwards
/// where its recipient is a persona of the account, whatever was held before.
pub proof fn a_message_brings_its_challenge(
    state: &mut State,
    config: &Config,
    save: &mut SaveScheduler,
    message: &Message,
    received: Received,
    stops: Vec<ListenerToStop>,
    i: int,
)
    requires
        call_ensures(inbound_message, (state, config, save, message, received), stops),
        message.to matches Some(recipients) && recipients@.len() > 0 && 0 <= i
            < config.account.personas@.len() && config.account.personas@[i].did@
            == recipients@[0]@,
        received.challenges@.len() > 0,
    ensures
        final(state).main_page.content_panel.communities.personhood_challenge matches Some(held)
            && {
            let last = received.challenges@[received.challenges@.len() - 1];
            &&& held.challenge_id == last.challenge_id
            &&& held.match_code@ == last.match_code@
            &&& held.expires_at == last.expires_at
            &&& message.from matches Some(sender) ==> held.vtc_did@ == sender@
            &&& final(state).main_page.content_panel.communities.status_message matches Some(words)
                && words@ == "Personhood challenge received — confirm the code "@
                + last.match_code@ + " with whoever is vetting you, then assert."@
        },
{
    let recipients = message.to->0;
    crate::config::the_first_persona_with_a_did_is_found(
        config.account.personas@,
        recipients@[0]@,
        0,
    );
}

/// A message is stored and has the panels rebuilt exactly when it changed the
/// account; only then does it end sessions. It never takes back that something
/// waits to be stored or rebuilt.
pub proof fn a_message_that_changed_the_account_is_stored(
    state: &mut State,
    config: &Config,
    save: &mut SaveScheduler,
    message: &Message,
    received: Received,
    stops: Vec<ListenerToStop>,
)
    requires
        call_ensures(inbound_message, (state, config, save, message, received), stops),
    ensures
        final(save).dirty <==> old(save).dirty || received.dispatched == Ok::<bool, String>(true),
        final(save).running == old(save).running,
        final(state).main_page.sync_requested <==> old(state).main_page.sync_requested
            || received.dispatched == Ok::<bool, String>(true),
        received.dispatched == Ok::<bool, String>(true) ==> stops@ == listeners_to_stop(
            *config,
            received.ended@,
        ),
        received.dispatched != Ok::<bool, String>(true) ==> stops@.len() == 0
            && final(state).connection == old(state).connection,
        received.dispatched == Ok::<bool, String>(false) ==> final(state).main_page.log
            == old(state).main_page.log,
        received.challenges@.len() == 0 ==> final(state).main_page.content_panel.communities
            == old(state).main_page.content_panel.communities,
        old(state).main_page.content_panel.capabilities.view is None
            ==> final(state).main_page.content_panel.capabilities.view is None,
        old(state).main_page.content_panel.capabilities.view matches Some(view) ==> (
        final(state).main_page.content_panel.capabilities.view matches Some(shown) && shown@
            == after_replies(view@, received.capability_replies@)),
        final(state).main_page.content_panel.vta == old(state).main_page.content_panel.vta,
        final(state).selected_community == old(state).selected_community,
{
}

/// The last thing the log says of a message that changed the account, or that
/// could not be taken in, is the message itself: how it came and what it is, or
/// why it was turned down; and behind that its type, sender, recipient and
/// thread.
pub proof fn a_message_is_logged(
    state: &mut State,
    config: &Config,
    save: &mut SaveScheduler,
    message: &Message,
    received: Received,
    stops: Vec<ListenerToStop>,
)
    requires
        call_ensures(inbound_message, (state, config, save, message, received), stops),
    ensures
        received.dispatched == Ok::<bool, String>(true) ==> {
            let entry = final(state).main_page.lines().last();
            &&& final(state).main_page.lines().len() == old(state).main_page.lines().len()
                + stops@.len() + 1
            &&& entry.summary == "Inbound "@ + received.transport@ + ": "@ + received.label@
            &&& entry.detail matches Some(detail) && detail == "Inbound "@ + received.transport@
                + " Message\n───────────────────────"@ + "\nType:    "@ + message.typ@
                + "\nFrom:    "@ + (match message.from {
                Some(sender) => sender@,
                None => "unknown"@,
            }) + "\nTo:      "@ + (match message.to {
                Some(recipients) => if recipients@.len() > 0 {
                    recipients@[0]@
                } else {
                    Seq::empty()
                },
                None => Seq::empty(),
            }) + "\nthid:    "@ + (match message.thid {
                Some(thread) => thread@,
                None => "none"@,
            })
        },
        received.dispatched matches Err(error) ==> {
            let entry = final(state).main_page.lines().last();
            &&& final(state).main_page.lines().len() == old(state).main_page.lines().len() + 1
            &&& entry.summary == "Message error: "@ + error@
            &&& entry.detail matches Some(detail) && detail
                == "Failed Inbound Message\n──────────────────────"@ + "\nType:    "@
                + message.typ@ + "\nFrom:    "@ + (match message.from {
                Some(sender) => sender@,
                None => "unknown"@,
            }) + "\nTo:      "@ + (match message.to {
                Some(recipients) => if recipients@.len() > 0 {
                    recipients@[0]@
                } else {
                    Seq::empty()
                },
                None => Seq::empty(),
            }) + "\nthid:    "@ + (match message.thid {
                Some(thread) => thread@,
                None => "none"@,
            }) + "\nError:   "@ + error@
        },
{
    let what = envelope(*message);
    if received.dispatched == Ok::<bool, String>(true) {
        let line = inbound_line(received.transport@, received.label@, what);
        assert(seq![line].last() == line);
        assert(final(state).main_page.lines().last() == line);
    }
    if let Err(error) = received.dispatched {
        let line = inbound_error_line(error@, what);
        assert(seq![line].last() == line);
        assert(final(state).main_page.lines().last() == line);
    }
}

/// A ping is answered exactly when it comes from the mediator or from someone
/// whose relationship, the first one under that DID, is established. A ping
/// without a sender is one from "unknown".
pub proof fn pings_are_answered_to_friends(config: &Config, from: &Option<String>, answer: bool)
    requires
        call_ensures(trust_ping_received, (config, from), answer),
    ensures
        ({
            let sender = match *from {
                Some(did) => did@,
                None => "unknown"@,
            };
            let known = config.private.relationships.relationships@;
            answer <==> sender == config.mediator_did@ || exists|i: int|
                0 <= i < known.len() && (#[trigger] known[i]).remote_did@ == sender
                    && known[i].established && forall|j: int|
                    0 <= j < i ==> (#[trigger] known[j]).remote_did@ != sender
        }),
{
    let sender = match *from {
        Some(did) => did@,
        None => "unknown"@,
    };
    let known = config.private.relationships.relationships@;
    crate::config::the_first_relationship_is_found(known, sender, 0);
}

/// An answered ping is logged under the sender's name, after the reason where
/// the answer did not go out; one that is turned down is logged as ignored, with
/// the sender's DID. Nothing else changes.
pub proof fn pings_are_logged(
    state: &mut State,
    config: &Config,
    from: &Option<String>,
    listener_id: &str,
    failed: Option<String>,
    sender: Seq<char>,
)
    requires
        sender == (match *from {
            Some(did) => did@,
            None => "unknown"@,
        }),
    ensures
        call_ensures(ping_answered, (state, config, from, listener_id, failed), ()) ==> {
            let lines = final(state).main_page.lines();
            let before = old(state).main_page.lines().len() as int;
            &&& lines.len() == before + (if failed is Some {
                2int
            } else {
                1
            })
            &&& lines.last().summary == "Ping from "@ + display_name(*config, sender)
                + " — pong sent"@
            &&& lines.last().detail == Some(
                "Trust-Ping Received\n───────────────────\nFrom (display):  "@ + display_name(
                    *config,
                    sender,
                ) + "\nFrom (DID):      "@ + sender + "\nListener:        "@ + listener_id@
                    + "\nResponse:        pong sent"@,
            )
            &&& failed matches Some(reason) ==> lines[before].summary == "Failed to send pong"@
                + ": "@ + reason@
            &&& final(state).main_page.content_panel == old(state).main_page.content_panel
            &&& final(state).connection == old(state).connection
        },
        call_ensures(ping_ignored, (state, config, from), ()) ==> {
            let lines = final(state).main_page.lines();
            &&& lines.len() == old(state).main_page.lines().len() + 1
            &&& lines.last().summary == "Ping from "@ + display_name(*config, sender)
                + " — ignored"@
            &&& lines.last().detail == Some(
                "Trust-Ping Rejected\n───────────────────\nFrom (DID):      "@ + sender
                    + "\nReason:          no established relationship"@,
            )
            &&& final(state).main_page.content_panel == old(state).main_page.content_panel
            &&& final(state).connection == old(state).connection
        },
{
}

proof fn the_last_ping_counts(tasks: Seq<Task>)
    ensures
        match pinged(tasks) {
            Some(to) => exists|i: int|
                0 <= i < tasks.len() && (#[trigger] tasks[i]).ping_to == Some(to) && forall|j: int|
                    i < j < tasks.len() ==> (#[trigger] tasks[j]).ping_to is None,
            None => forall|j: int| 0 <= j < tasks.len() ==> (#[trigger] tasks[j]).ping_to is None,
        },
    decreases tasks.len(),
{
    if tasks.len() > 0 {
        let n = tasks.len() - 1;
        if tasks.last().ping_to is Some {
            assert(tasks[n].ping_to == pinged(tasks));
        } else {
            let rest = tasks.drop_last();
            the_last_ping_counts(rest);
            match pinged(rest) {
                Some(to) => {
                    let i = choose|i: int|
                        0 <= i < rest.len() && (#[trigger] rest[i]).ping_to == Some(to)
                            && forall|j: int|
                            i < j < rest.len() ==> (#[trigger] rest[j]).ping_to is None;
                    assert(tasks[i].ping_to == Some(to));
                    assert forall|j: int| i < j < tasks.len() implies (
                    #[trigger] tasks[j]).ping_to is None by {
                        if j < n {
                            assert(rest[j] == tasks[j]);
                        }
                    }
                },
                None => {
                    assert forall|j: int| 0 <= j < tasks.len() implies (
                    #[trigger] tasks[j]).ping_to is None by {
                        if j < n {
                            assert(rest[j] == tasks[j]);
                        }
                    }
                },
            }
        }
    }
}

/// An answer to a ping is logged under its sender's name; one that names no
/// sender under that of whom the user pinged last, and as unknown where the user
/// pinged nobody. The time the ping went out is used up.
pub proof fn pongs_are_logged_under_a_name(
    state: &mut State,
    config: &Config,
    from: &Option<String>,
    ping_sent_at: &mut Option<u64>,
    now: u64,
)
    requires
        call_ensures(trust_pong_received, (state, config, from, ping_sent_at, now), ()),
    ensures
        *final(ping_sent_at) is None,
        ({
            let lines = final(state).main_page.lines();
            let said = lines.last().summary;
            let tasks = config.private.tasks@;
            let note = match *old(ping_sent_at) {
                Some(sent) => " ("@ + decimal(
                    (if now >= sent {
                        (now - sent) / 1_000_000
                    } else {
                        0
                    }) as nat,
                ) + "ms)"@,
                None => Seq::empty(),
            };
            &&& lines.len() == old(state).main_page.lines().len() + 1
            &&& from matches Some(did) ==> (did@.len() > 0 ==> said == "Pong from "@
                + display_name(*config, did@) + note)
            &&& (from matches Some(did) ==> did@.len() == 0) ==> forall|i: int|
                #![trigger tasks[i]]
                0 <= i < tasks.len() && (forall|j: int|
                    i < j < tasks.len() ==> (#[trigger] tasks[j]).ping_to is None) ==> (
                tasks[i].ping_to matches Some(to) ==> said == "Pong from "@ + display_name(
                    *config,
                    to@,
                ) + note)
            &&& (from matches Some(did) ==> did@.len() == 0) && (forall|j: int|
                0 <= j < tasks.len() ==> (#[trigger] tasks[j]).ping_to is None) ==> said
                == "Pong from "@ + "unknown"@ + note
        }),
        ({
            let did = match *from {
                Some(sender) => sender@,
                None => Seq::empty(),
            };
            let detail = final(state).main_page.lines().last().detail;
            let took = match *old(ping_sent_at) {
                Some(sent) => decimal(
                    (if now >= sent {
                        (now - sent) / 1_000_000
                    } else {
                        0
                    }) as nat,
                ) + "ms"@,
                None => "n/a"@,
            };
            detail == Some(
                "Trust-Pong Received\n───────────────────\nFrom (display):  "@ + pong_sender(
                    *config,
                    did,
                ) + "\nFrom (DID):      "@ + did + "\nLatency:         "@ + took,
            )
        }),
        final(state).connection == old(state).connection,
        final(state).main_page.content_panel == old(state).main_page.content_panel,
{
    let tasks = config.private.tasks@;
    the_last_ping_counts(tasks);
    if let Some(to) = pinged(tasks) {
        let p = choose|i: int|
            0 <= i < tasks.len() && (#[trigger] tasks[i]).ping_to == Some(to) && forall|j: int|
                i < j < tasks.len() ==> (#[trigger] tasks[j]).ping_to is None;
        assert forall|i: int|
            #![trigger tasks[i]]
            0 <= i < tasks.len() && (forall|j: int|
                i < j < tasks.len() ==> (#[trigger] tasks[j]).ping_to is None)
                && tasks[i].ping_to is Some implies i == p by {
            if i < p {
                assert(tasks[p].ping_to is None);
            }
            if p < i {
                assert(tasks[i].ping_to is None);
            }
        }
    }
}

/// What was found out about the installs is what is known afterwards: this
/// install's identifier, or the others as they were listed. They are warned of
/// exactly where there is a warning, each by its name and when it was last seen.
pub proof fn installs_are_known_as_reported(
    state: &mut State,
    report: PresenceReport,
    warning: Option<String>,
)
    requires
        call_ensures(presence_reported, (state, report, warning), ()),
    ensures
        report matches PresenceReport::Registered(id) ==> final(state).self_device_id == Some(id)
            && final(state).live_siblings == old(state).live_siblings && final(state).main_page
            == old(state).main_page,
        report matches PresenceReport::NewSiblings(found) ==> {
            &&& final(state).live_siblings@ == found@
            &&& final(state).self_device_id == old(state).self_device_id
            &&& warning is None ==> final(state).main_page == old(state).main_page
            &&& warning matches Some(words) ==> {
                let entry = final(state).main_page.lines().last();
                &&& final(state).main_page.lines().len() == old(state).main_page.lines().len() + 1
                &&& entry.summary == "WARNING: "@ + words@
                &&& entry.detail is Some
                &&& entry.detail == Some(
                    joined(
                        Seq::new(
                            found@.len(),
                            |i: int|
                                found@[i].label@ + " — last seen "@ + (
                                match found@[i].last_seen_at {
                                    Some(when) => when@,
                                    None => "unknown"@,
                                }),
                        ),
                        "\n"@,
                    ),
                )
            }
        },
        report is Unavailable ==> *final(state) == *old(state),
        final(state).main_page.content_panel == old(state).main_page.content_panel,
        final(state).main_page.sync_requested == old(state).main_page.sync_requested,
        final(state).connection == old(state).connection,
{
    if let PresenceReport::NewSiblings(found) = report {
        let each = Seq::new(
            found@.len(),
            |i: int|
                found@[i].label@ + " — last seen "@ + (match found@[i].last_seen_at {
                    Some(when) => when@,
                    None => "unknown"@,
                }),
        );
        assert(sibling_lines(found@) =~= each);
    }
}

/// What a listener coming up or going down means concerns the session of that
/// listener: it is connected, or has failed for the reason that was given, or is
/// disconnected where none was.
pub proof fn a_session_follows_its_listener(event: ListenerStatus, update: SessionUpdate)
    requires
        call_ensures(session_update, (event,), update),
    ensures
        event is Connected <==> update is MarkConnected,
        event matches ListenerStatus::Connected { listener_id } ==> update
            == SessionUpdate::MarkConnected(listener_id),
        event matches ListenerStatus::Disconnected { listener_id, error } ==> (
        error matches Some(reason) ==> update == SessionUpdate::MarkFailed(listener_id, reason)),
        event matches ListenerStatus::Disconnected { listener_id, error } ==> (error is None
            ==> update == SessionUpdate::MarkDisconnected(listener_id)),
{
}

/// Joins that expire are stored and counted in the log's last line, and the
/// panels are rebuilt; where none does nothing happens at all.
pub proof fn expired_joins_are_told_and_stored(
    state: &mut State,
    config: &Config,
    save: &mut SaveScheduler,
    ended: Vec<EndedSession>,
    stops: Vec<ListenerToStop>,
)
    requires
        call_ensures(pending_expired, (state, config, save, ended), stops),
    ensures
        ended@.len() == 0 ==> *final(state) == *old(state) && *final(save) == *old(save)
            && stops@.len() == 0,
        ended@.len() > 0 ==> {
            &&& final(save).dirty
            &&& final(state).main_page.sync_requested
            &&& stops@ == listeners_to_stop(*config, ended@)
            &&& final(state).main_page.lines().len() == old(state).main_page.lines().len()
                + stops@.len() + 1
            &&& final(state).main_page.lines().last() == (LogLine {
                summary: decimal(ended@.len()) + " pending join"@ + (if ended@.len() == 1 {
                    ""@
                } else {
                    "s"@
                }) + " expired (no response within 7 days)."@,
                detail: None,
            })
            &&& !config.account.has_live() ==> final(state).connection.status is NoActiveCommunity
        },
        final(save).running == old(save).running,
{
    if ended@.len() > 0 {
        let line = expired_line(ended@.len());
        assert(seq![line].last() == line);
        assert(final(state).main_page.lines().last() == line);
    }
}

/// What is asked about one list of memberships after another is what is asked
/// about both at once.
pub proof fn binding_targets_add_up(
    first: Seq<CommunityRecord>,
    second: Seq<CommunityRecord>,
    personas: Seq<PersonaRecord>,
)
    ensures
        binding_targets_of(first + second, personas) == binding_targets_of(first, personas)
            + binding_targets_of(second, personas),
    decreases second.len(),
{
    if second.len() == 0 {
        assert(first + second =~= first);
        assert(binding_targets_of(first, personas) + binding_targets_of(second, personas)
            =~= binding_targets_of(first, personas));
    } else {
        binding_targets_add_up(first, second.drop_last(), personas);
        assert((first + second).drop_last() =~= first + second.drop_last());
        assert((first + second).last() == second.last());
        assert(binding_targets_of(first + second, personas) =~= binding_targets_of(
            first,
            personas,
        ) + binding_targets_of(second, personas));
    }
}

/// A membership is asked about exactly when its persona is in the account: under
/// the membership's context and the persona's DID.
pub proof fn a_membership_is_asked_about_as_its_persona(
    membership: CommunityRecord,
    personas: Seq<PersonaRecord>,
)
    ensures
        ({
            let targets = binding_targets_of(seq![membership], personas);
            let known = exists|i: int|
                0 <= i < personas.len() && (#[trigger] personas[i]).persona_id
                    == membership.persona_ref;
            &&& targets.len() == (if known {
                1nat
            } else {
                0nat
            })
            &&& known ==> targets[0].0 == membership.sub_context_id && exists|i: int|
                0 <= i < personas.len() && (#[trigger] personas[i]).persona_id
                    == membership.persona_ref && targets[0].1 == personas[i].did && forall|j: int|
                    0 <= j < i ==> (#[trigger] personas[j]).persona_id != membership.persona_ref
        }),
{
    reveal_with_fuel(binding_targets_of, 2);
    let one = seq![membership];
    assert(one.drop_last() =~= Seq::<CommunityRecord>::empty());
    assert(one.last() == membership);
    crate::config::the_first_persona_with_an_identifier_is_found(
        personas,
        membership.persona_ref,
        0,
    );
}

/// Each kind of lookup is planned exactly when there is something to look up,
/// what it needs is there and none of its kind runs; what is planned counts as
/// running from then on, and nothing else starts or ends.
pub proof fn lookups_never_pile_up(
    state: &State,
    config: &Config,
    in_flight: &mut InFlight,
    stale: Vec<String>,
    has_session: bool,
    plan: RefreshPlan,
    targets: Vec<BindingTarget>,
)
    requires
        call_ensures(refresh_plan, (state, config, in_flight, stale, has_session), plan),
        call_ensures(binding_targets, (config,), targets),
    ensures
        plan.names is Some <==> stale@.len() > 0 && !old(in_flight)@.contains(
            DispatchDomain::AgentName,
        ),
        plan.names matches Some(names) ==> names@ == stale@,
        plan.bindings is Some <==> targets@.len() > 0 && has_session && !old(in_flight)@.contains(
            DispatchDomain::PersonaBinding,
        ),
        plan.bindings matches Some(bindings) ==> bindings@ == targets@,
        plan.probe is Some <==> !old(in_flight)@.contains(DispatchDomain::VtaTransports) && (
        config.key_backend matches KeyBackend::Vta { vta_did, .. } && vta_did@.len() > 0) && (
        state.main_page.content_panel.vta.transports.advertised matches Some(found)
            ==> found.error is Some),
        plan.probe matches Some(vta) ==> (config.key_backend matches KeyBackend::Vta {
            vta_did,
            ..
        } && vta == vta_did),
        forall|domain: DispatchDomain| #[trigger]
            final(in_flight)@.contains(domain) <==> old(in_flight)@.contains(domain) || (domain
                is AgentName && plan.names is Some) || (domain is PersonaBinding
                && plan.bindings is Some) || (domain is VtaTransports && plan.probe is Some),
{
}

/// What could not be stored still waits, with the reason in the log; what was
/// stored waits no longer unless something changed meanwhile.
pub proof fn a_failed_store_is_told_and_tried_again(
    state: &mut State,
    save: &mut SaveScheduler,
    result: Result<(), String>,
)
    requires
        call_ensures(save_finished, (state, save, result), ()),
    ensures
        !final(save).running,
        result is Err ==> final(save).dirty,
        result is Ok ==> final(save).dirty == old(save).dirty && *final(state) == *old(state),
        result matches Err(reason) ==> final(state).main_page.lines()
            == old(state).main_page.lines().push(
            LogLine { summary: "Failed to save config"@ + ": "@ + reason@, detail: None },
        ),
{
    if let Err(reason) = result {
        assert(final(state).main_page.lines() =~= old(state).main_page.lines().push(
            LogLine { summary: "Failed to save config"@ + ": "@ + reason@, detail: None },
        ));
    }
}

/// At the end of a loop, what was stored is marked no longer unless it changed
/// meanwhile; whatever went wrong is said, with its reason, and stays marked.
pub proof fn a_failed_last_store_is_told(
    state: &mut State,
    save: &mut SaveScheduler,
    outcome: ExitSave,
)
    requires
        call_ensures(exit_saved, (state, save, outcome), ()),
    ensures
        !final(save).running,
        outcome is Stored ==> final(save).dirty == old(save).dirty && final(state).main_page.lines()
            == old(state).main_page.lines(),
        !(outcome is Stored) ==> final(save).dirty && final(state).main_page.lines().len()
            == old(state).main_page.lines().len() + 1,
        outcome matches ExitSave::NotTaken(reason)
            ==> final(state).main_page.lines().last().summary
            == "Failed to snapshot config on exit"@ + ": "@ + reason@,
        outcome matches ExitSave::NotStored(reason)
            ==> final(state).main_page.lines().last().summary
            == "Failed to save config on exit"@ + ": "@ + reason@,
{
    if outcome is Stored {
        assert(final(state).main_page.lines() =~= old(state).main_page.lines());
    }
}

/// The membership that still stands is the one worked in afterwards, as its
/// persona; the panels are rebuilt exactly when the persona is another one.
pub proof fn work_goes_on_in_what_stands(
    state: &mut State,
    config: &mut Config,
    selected: Option<(String, PersonaId)>,
)
    requires
        call_ensures(settle_selection, (state, config, selected), ()),
    ensures
        final(state).selected_community == selected,
        selected matches Some(membership) ==> final(config).active_persona == Some(membership.1),
        selected is None ==> final(config).active_persona is None,
        final(state).main_page.sync_requested <==> old(state).main_page.sync_requested
            || final(config).active_persona != old(config).active_persona,
        final(state).main_page.log == old(state).main_page.log,
        final(state).connection == old(state).connection,
        final(config).account == old(config).account,
        final(config).private == old(config).private,
{
}

/// What happened to a listener is one more entry of the log, in the words for it.
pub proof fn what_happens_to_a_listener_is_logged(
    state: &mut State,
    config: &Config,
    event: &LifecycleLog,
)
    requires
        event.valid(),
        call_ensures(lifecycle_event, (state, config, event), ()),
    ensures
        final(state).main_page.lines().len() == old(state).main_page.lines().len() + 1,
        final(state).main_page.lines().last().summary == summary_of(*config, *event),
        final(state).main_page.lines().last().detail == detail_of(*config, *event),
        final(state).connection == old(state).connection,
        final(state).main_page.content_panel == old(state).main_page.content_panel,
{
}

/// An account that could not be taken for storing is said to be, with the reason,
/// and nothing else changes.
pub proof fn a_failed_snapshot_is_told(state: &mut State, reason: &str)
    requires
        call_ensures(snapshot_failed, (state, reason), ()),
    ensures
        final(state).main_page.lines().len() == old(state).main_page.lines().len() + 1,
        final(state).main_page.lines().last().summary == "Failed to save config"@ + ": "@ + reason@,
        final(state).main_page.content_panel == old(state).main_page.content_panel,
        final(state).connection == old(state).connection,
{
}

} // verus!
