//! Managing the agent names of a persona.

use vstd::prelude::*;
use crate::background_dispatch::{busy_words, DispatchDomain, InFlight};
use crate::content::{AgentNameManagerPhase, AgentNameManagerState, AgentNameRow};
use crate::outside::{input_text, input_value};
use crate::state::{plain, State};
use crate::text::{optional, trim, trimmed};

verus! {

/// Something to do with the agent names of a persona.
#[derive(Clone, Debug)]
pub enum Verb {
    /// Read the names.
    Open,
    Claim(String),
    Park(String),
    Resume(String),
    Remove(String),
}

/// What is said where there is no session to manage names with.
pub open spec fn no_session_words() -> Seq<char> {
    "VTA session unavailable — cannot manage agent names right now."@
}

/// What becomes of the overlay when work on it is asked for: its phase and what
/// it says. Work that starts also settles what awaited confirmation.
pub open spec fn overlay_asked(
    pre: AgentNameManagerState,
    has_session: bool,
    busy: bool,
    opening: bool,
    status: Seq<char>,
    post: AgentNameManagerState,
) -> bool {
    if !has_session {
        &&& post == AgentNameManagerState {
            phase: AgentNameManagerPhase::Ready,
            message: post.message,
            ..pre
        }
        &&& optional(post.message) == Some(no_session_words())
    } else if busy {
        &&& post == AgentNameManagerState { message: post.message, ..pre }
        &&& optional(post.message) == Some(busy_words(DispatchDomain::AgentNameManage))
    } else {
        &&& post == AgentNameManagerState {
            phase: if opening {
                AgentNameManagerPhase::Loading
            } else {
                AgentNameManagerPhase::Working
            },
            message: post.message,
            confirm_remove: None,
            ..pre
        }
        &&& optional(post.message) == Some(status)
    }
}

fn ask_overlay(
    overlay: &mut AgentNameManagerState,
    has_session: bool,
    busy: bool,
    opening: bool,
    status: String,
)
    ensures
        overlay_asked(*old(overlay), has_session, busy, opening, status@, *final(overlay)),
{
    if !has_session {
        overlay.phase = AgentNameManagerPhase::Ready;
        overlay.message = Some(
            "VTA session unavailable — cannot manage agent names right now.".to_owned(),
        );
    } else if busy {
        overlay.message = Some(InFlight::busy_message(DispatchDomain::AgentNameManage));
    } else {
        overlay.phase = if opening {
            AgentNameManagerPhase::Loading
        } else {
            AgentNameManagerPhase::Working
        };
        overlay.message = Some(status);
        overlay.confirm_remove = None;
    }
}

/// Asks for work on agent names, and says whether to start it. `status` is what
/// the overlay says while it runs; with no session, or while such work runs, the
/// overlay says that instead.
pub fn spawn_agent_name_job(
    in_flight: &mut InFlight,
    state: &mut State,
    has_session: bool,
    verb: &Verb,
    status: String,
) -> (start: bool)
    ensures
        start == (has_session && !old(in_flight)@.contains(DispatchDomain::AgentNameManage)),
        final(in_flight)@ == (if start {
            old(in_flight)@.insert(DispatchDomain::AgentNameManage)
        } else {
            old(in_flight)@
        }),
        *final(state) == old(state).with_agent_names(final(state).main_page.agent_names),
        match old(state).main_page.agent_names {
            Some(before) => final(state).main_page.agent_names matches Some(after)
                && overlay_asked(
                before,
                has_session,
                old(in_flight)@.contains(DispatchDomain::AgentNameManage),
                verb is Open,
                status@,
                after,
            ),
            None => final(state).main_page.agent_names is None,
        },
{
    let ghost was_busy = in_flight@.contains(DispatchDomain::AgentNameManage);
    let begun: bool = has_session && in_flight.try_begin(DispatchDomain::AgentNameManage);
    proof {
        if has_session && was_busy {
            assert(in_flight@ =~= old(in_flight)@);
        }
    }
    let opening: bool = matches!(verb, Verb::Open);
    if let Some(overlay) = state.main_page.agent_names.as_mut() {
        ask_overlay(overlay, has_session, !begun, opening, status);
    }
    begun
}

/// What claiming the typed name comes to, on an open overlay.
pub open spec fn claimable(overlay: AgentNameManagerState) -> Option<Seq<char>> {
    let name = trimmed(input_text(overlay.input));
    if overlay.phase == AgentNameManagerPhase::Ready && name.len() > 0 {
        Some(name)
    } else {
        None
    }
}

/// Whether `claim` is the claim that an overlay makes, and `post` the overlay
/// then. Where the name is missing the overlay asks for it.
pub open spec fn claim_asked(
    pre: Option<AgentNameManagerState>,
    claim: Option<(String, String)>,
    post: Option<AgentNameManagerState>,
) -> bool {
    match pre {
        None => claim is None && post is None,
        Some(before) => {
            &&& match claimable(before) {
                Some(name) => claim matches Some((did, n)) && did == before.persona_did && n@
                    == name,
                None => claim is None,
            }
            &&& post matches Some(after) && (if before.phase == AgentNameManagerPhase::Ready
                && claimable(before) is None {
                after == AgentNameManagerState { message: after.message, ..before } && optional(
                    after.message,
                ) == Some("Enter a name first."@)
            } else {
                after == before
            })
        },
    }
}

/// The persona and the name to claim for it: once there is a name, and while the
/// overlay takes input.
pub fn agent_name_to_claim(state: &mut State) -> (claim: Option<(String, String)>)
    ensures
        *final(state) == old(state).with_agent_names(final(state).main_page.agent_names),
        claim_asked(
            old(state).main_page.agent_names,
            claim,
            final(state).main_page.agent_names,
        ),
{
    match state.main_page.agent_names.as_mut() {
        None => None,
        Some(overlay) => {
            if overlay.phase != AgentNameManagerPhase::Ready {
                return None;
            }
            let typed = input_value(&overlay.input);
            let name = trim(typed.as_str()).to_owned();
            if name.as_str().is_empty() {
                overlay.message = Some("Enter a name first.".to_owned());
                return None;
            }
            Some((overlay.persona_did.clone(), name))
        },
    }
}

/// What is said where no persona is selected.
pub open spec fn nobody_selected_words() -> Seq<char> {
    "No persona selected — create or select a persona DID first."@
}

/// Opens the overlay for the persona at `index`, and returns its DID. `host` is
/// what the persona's DID says of where its names live. Where there is no such
/// persona the log says so: a key that does nothing looks broken.
pub fn open_agent_name_overlay(state: &mut State, index: usize, host: String) -> (did: Option<
    String,
>)
    ensures
        ({
            let rows = old(state).main_page.content_panel.vta.context_dids@;
            if index < rows.len() {
                let row = rows[index as int];
                &&& did == Some(row.did)
                &&& *final(state) == old(state).with_agent_names(
                    final(state).main_page.agent_names,
                )
                &&& final(state).main_page.agent_names matches Some(overlay) && overlay.blank()
                    && overlay.persona_did == row.did && overlay.persona_label == row.label
                    && overlay.host == host
            } else {
                &&& did is None
                &&& final(state).logged(*old(state), seq![plain(nobody_selected_words())])
            }
        }),
{
    if index < state.main_page.content_panel.vta.context_dids.len() {
        let did = state.main_page.content_panel.vta.context_dids[index].did.clone();
        let label = state.main_page.content_panel.vta.context_dids[index].label.clone();
        let mut overlay = AgentNameManagerState::default();
        overlay.persona_did = did.clone();
        overlay.persona_label = label;
        overlay.host = host;
        state.main_page.agent_names = Some(overlay);
        Some(did)
    } else {
        state.main_page.log(
            "No persona selected — create or select a persona DID first.".to_owned(),
        );
        None
    }
}

/// The selected name, where the overlay is open, takes input and has one.
pub open spec fn selected_row(overlay: Option<AgentNameManagerState>) -> Option<AgentNameRow> {
    match overlay {
        Some(o) => if o.phase == AgentNameManagerPhase::Ready && o.selected < o.names@.len() {
            Some(o.names@[o.selected as int])
        } else {
            None
        },
        None => None,
    }
}

/// The persona, the selected name and whether it resolves.
pub fn selected_agent_name(state: &State) -> (found: Option<(String, String, bool)>)
    ensures
        match selected_row(state.main_page.agent_names) {
            Some(row) => found == Some(
                (state.main_page.agent_names->0.persona_did, row.name, row.enabled),
            ),
            None => found is None,
        },
{
    match &state.main_page.agent_names {
        Some(overlay) => {
            if overlay.phase == AgentNameManagerPhase::Ready && overlay.selected
                < overlay.names.len() {
                let row = &overlay.names[overlay.selected];
                Some((overlay.persona_did.clone(), row.name.clone(), row.enabled))
            } else {
                None
            }
        },
        None => None,
    }
}

/// What switching a name means: a name that resolves is parked, a parked one
/// resumed.
pub fn toggle_verb(name: String, enabled: bool) -> (verb: Verb)
    ensures
        verb == (if enabled {
            Verb::Park(name)
        } else {
            Verb::Resume(name)
        }),
{
    if enabled {
        Verb::Park(name)
    } else {
        Verb::Resume(name)
    }
}

/// Work on agent names starts exactly with a session and while none runs, and
/// then counts as running. The overlay says what is being done, or why nothing
/// is; only work that starts locks it and takes down what was up for removal.
pub proof fn work_on_names_goes_one_by_one(
    in_flight: &mut InFlight,
    state: &mut State,
    has_session: bool,
    verb: &Verb,
    status: String,
    start: bool,
)
    requires
        call_ensures(spawn_agent_name_job, (in_flight, state, has_session, verb, status), start),
    ensures
        start <==> has_session && !old(in_flight)@.contains(DispatchDomain::AgentNameManage),
        final(in_flight)@.contains(DispatchDomain::AgentNameManage) <==> start
            || old(in_flight)@.contains(DispatchDomain::AgentNameManage),
        final(state).main_page.agent_names is Some <==> old(state).main_page.agent_names is Some,
        old(state).main_page.agent_names matches Some(before) ==> (
        final(state).main_page.agent_names matches Some(after) && {
            &&& after.message matches Some(said) && said@ == (if !has_session {
                "VTA session unavailable — cannot manage agent names right now."@
            } else if start {
                status@
            } else {
                "Agent name change"@ + " already in progress — please wait."@
            })
            &&& start && *verb is Open ==> after.phase is Loading
            &&& start && !(*verb is Open) ==> after.phase is Working
            &&& !has_session ==> after.phase is Ready
            &&& has_session && !start ==> after.phase == before.phase
            &&& start ==> after.confirm_remove is None
            &&& !start ==> after.confirm_remove == before.confirm_remove
            &&& after.names == before.names
            &&& after.selected == before.selected
            &&& after.input == before.input
            &&& after.persona_did == before.persona_did
        }),
        final(state).main_page.log == old(state).main_page.log,
        final(state).main_page.content_panel == old(state).main_page.content_panel,
{
}

/// A name is claimed exactly while the overlay is open and ready and something is
/// typed: what is typed, without the white space around it, for the overlay's own
/// persona. Where nothing is typed the overlay asks for it; nothing else changes.
pub proof fn the_typed_name_is_claimed(state: &mut State, claim: Option<(String, String)>)
    requires
        call_ensures(agent_name_to_claim, (state,), claim),
    ensures
        old(state).main_page.agent_names is None ==> claim is None && *final(state) == *old(state),
        old(state).main_page.agent_names matches Some(before) ==> {
            let typed = trimmed(input_text(before.input));
            &&& claim is Some <==> before.phase is Ready && typed.len() > 0
            &&& claim matches Some(what) ==> what.0@ == before.persona_did@ && what.1@ == typed
            &&& final(state).main_page.agent_names matches Some(after) && (before.phase is Ready
                && typed.len() == 0 ==> (after.message matches Some(said) && said@
                == "Enter a name first."@)) && (!(before.phase is Ready) || typed.len() > 0
                ==> after.message == before.message) && after.phase == before.phase && after.names
                == before.names && after.input == before.input && after.selected == before.selected
        },
        final(state).main_page.log == old(state).main_page.log,
{
}

/// The overlay opens for the persona in the row that was asked about, empty and
/// reading its names; where there is no such row the log says so and no overlay
/// opens.
pub proof fn the_overlay_opens_for_its_row(
    state: &mut State,
    index: usize,
    host: String,
    did: Option<String>,
)
    requires
        call_ensures(open_agent_name_overlay, (state, index, host), did),
    ensures
        ({
            let rows = old(state).main_page.content_panel.vta.context_dids@;
            &&& did is Some <==> index < rows.len()
            &&& did matches Some(d) ==> d@ == rows[index as int].did@ && (
            final(state).main_page.agent_names matches Some(overlay) && overlay.persona_did@
                == rows[index as int].did@ && overlay.persona_label@ == rows[index as int].label@
                && overlay.host@ == host@ && overlay.names@.len() == 0 && overlay.selected == 0
                && overlay.phase is Loading && overlay.message is None && !overlay.list_stale
                && overlay.confirm_remove is None)
            &&& did is Some ==> final(state).main_page.log == old(state).main_page.log
            &&& did is None ==> final(state).main_page.agent_names
                == old(state).main_page.agent_names && final(state).main_page.lines().len()
                == old(state).main_page.lines().len() + 1
                && final(state).main_page.lines().last().summary
                == "No persona selected — create or select a persona DID first."@
        }),
        final(state).main_page.content_panel == old(state).main_page.content_panel,
{
}

/// The selected name is handed out exactly while the overlay is open and ready
/// and the selection is on its list: that name, whether it resolves, and the
/// overlay's persona.
pub proof fn the_selected_name_is_handed_out(
    state: &State,
    found: Option<(String, String, bool)>,
)
    requires
        call_ensures(selected_agent_name, (state,), found),
    ensures
        state.main_page.agent_names is None ==> found is None,
        state.main_page.agent_names matches Some(overlay) ==> {
            &&& found is Some <==> overlay.phase is Ready && overlay.selected < overlay.names@.len()
            &&& found matches Some(which) ==> which.0@ == overlay.persona_did@ && which.1@
                == overlay.names@[overlay.selected as int].name@ && which.2
                == overlay.names@[overlay.selected as int].enabled
        },
{
}

/// Switching a name parks it exactly where it resolves and resumes it where it is
/// parked; the name is the one that was given.
pub proof fn switching_a_name_turns_it_over(name: String, enabled: bool, verb: Verb)
    requires
        call_ensures(toggle_verb, (name, enabled), verb),
    ensures
        enabled <==> verb is Park,
        !enabled <==> verb is Resume,
        verb matches Verb::Park(which) ==> which == name,
        verb matches Verb::Resume(which) ==> which == name,
{
}

} // verus!
