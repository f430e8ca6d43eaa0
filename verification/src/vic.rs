//! The invitation credentials in the vault: importing, listing and changing them.

use vstd::prelude::*;
use crate::actions::Action;
use crate::background_dispatch::{busy_words, DispatchDomain, InFlight};
use crate::content::{AddVicPhase, AddVicState, VtaState};
use crate::outside::{
    input_text, input_value, json_error_text, json_error_words, json_parsed, parse_json,
};
use crate::state::{plain, MainPageState, State};
use crate::text::{optional, texts, trim, trimmed};
use serde_json::Value;

verus! {

/// Something to do with an invitation credential in the vault.
#[derive(Clone, Debug)]
pub enum VicVerb {
    Add(Value),
    Archive(String),
    Unarchive(String),
    Restore(String),
    Delete(String),
    /// Delete for good.
    Purge(String),
}

/// What a pasted text comes to before it is checked.
pub enum Paste {
    /// The overlay is not waiting for one.
    Ignored,
    /// Nothing was pasted.
    Empty,
    /// It is not JSON; says why.
    NotJson(Seq<char>),
    /// It is this JSON value.
    Read(Value),
}

/// What the text in the overlay comes to, where `parsed` is what reading it as
/// JSON comes to.
pub open spec fn paste(
    overlay: Option<AddVicState>,
    parsed: spec_fn(Seq<char>) -> Result<Value, Seq<char>>,
) -> Paste {
    match overlay {
        Some(o) => if o.phase == AddVicPhase::Input {
            let text = trimmed(input_text(o.input));
            if text.len() == 0 {
                Paste::Empty
            } else {
                match parsed(text) {
                    Ok(value) => Paste::Read(value),
                    Err(reason) => Paste::NotJson(reason),
                }
            }
        } else {
            Paste::Ignored
        },
        None => Paste::Ignored,
    }
}

/// What `serde_json` makes of a text, with the words of its error.
pub open spec fn read_json(text: Seq<char>) -> Result<Value, Seq<char>> {
    match json_parsed(text) {
        Ok(value) => Ok(value),
        Err(error) => Err(json_error_words(error)),
    }
}

/// Whether an overlay differs from an earlier one only by its phase and by
/// saying one thing.
pub open spec fn now_says(
    before: AddVicState,
    after: AddVicState,
    phase: AddVicPhase,
    words: Seq<char>,
) -> bool {
    &&& after == AddVicState { phase, messages: after.messages, ..before }
    &&& texts(after.messages@) == seq![words]
}

/// Whether the overlay of `post` differs from that of `pre` only by its phase
/// and by saying one thing.
pub open spec fn page_says(
    pre: MainPageState,
    post: MainPageState,
    phase: AddVicPhase,
    words: Seq<char>,
) -> bool {
    &&& post == MainPageState { add_vic: post.add_vic, ..pre }
    &&& pre.add_vic matches Some(before) && post.add_vic matches Some(after) && now_says(
        before,
        after,
        phase,
        words,
    )
}

fn say(page: &mut MainPageState, phase: AddVicPhase, words: String)
    ensures
        match old(page).add_vic {
            Some(_) => page_says(*old(page), *final(page), phase, words@),
            None => *final(page) == *old(page),
        },
{
    if let Some(overlay) = page.add_vic.as_mut() {
        let mut messages: Vec<String> = Vec::new();
        messages.push(words);
        proof {
            assert(texts(messages@) =~= seq![words@]);
        }
        overlay.phase = phase;
        overlay.messages = messages;
    }
}

fn complain(page: &mut MainPageState, words: String)
    ensures
        match old(page).add_vic {
            Some(overlay) => page_says(*old(page), *final(page), overlay.phase, words@),
            None => *final(page) == *old(page),
        },
{
    let phase = match &page.add_vic {
        Some(overlay) => overlay.phase,
        None => AddVicPhase::Input,
    };
    say(page, phase, words);
}

/// What is said where nothing was pasted.
pub open spec fn nothing_pasted_words() -> Seq<char> {
    "Paste an invitation credential (VIC) first."@
}

/// Whether `post` is what the overlay makes of a paste, and `vic` what goes on to
/// be checked. A paste that is no good leaves the overlay waiting, with the
/// reason.
pub open spec fn pasted(
    pre: MainPageState,
    outcome: Paste,
    post: MainPageState,
    vic: Option<Value>,
) -> bool {
    match outcome {
        Paste::Ignored => post == pre && vic is None,
        Paste::Empty => page_says(pre, post, AddVicPhase::Input, nothing_pasted_words())
            && vic is None,
        Paste::NotJson(reason) => page_says(
            pre,
            post,
            AddVicPhase::Input,
            "Failed: not valid JSON: "@ + reason,
        ) && vic is None,
        Paste::Read(value) => post == pre && vic == Some(value),
    }
}

/// The text to read: what was pasted, without the white space around it. Nothing
/// where the overlay is not waiting, or where nothing was pasted, which it says.
pub fn pasted_text(state: &mut State) -> (text: Option<String>)
    ensures
        *final(state) == old(state).with_page(final(state).main_page),
        match old(state).main_page.add_vic {
            Some(overlay) => if overlay.phase == AddVicPhase::Input {
                let inner = trimmed(input_text(overlay.input));
                if inner.len() == 0 {
                    text is None && page_says(
                        old(state).main_page,
                        final(state).main_page,
                        AddVicPhase::Input,
                        nothing_pasted_words(),
                    )
                } else {
                    optional(text) == Some(inner) && *final(state) == *old(state)
                }
            } else {
                text is None && *final(state) == *old(state)
            },
            None => text is None && *final(state) == *old(state),
        },
{
    let typed = match &state.main_page.add_vic {
        Some(overlay) => if overlay.phase == AddVicPhase::Input {
            Some(input_value(&overlay.input))
        } else {
            None
        },
        None => None,
    };
    match typed {
        None => None,
        Some(whole) => {
            let inner = trim(whole.as_str()).to_owned();
            if inner.as_str().is_empty() {
                complain(
                    &mut state.main_page,
                    "Paste an invitation credential (VIC) first.".to_owned(),
                );
                None
            } else {
                Some(inner)
            }
        },
    }
}

/// Takes in what reading the pasted text as JSON came to.
pub fn take_paste(state: &mut State, parsed: Result<Value, String>) -> (vic: Option<Value>)
    ensures
        *final(state) == old(state).with_page(final(state).main_page),
        match parsed {
            Ok(value) => vic == Some(value) && *final(state) == *old(state),
            Err(reason) => vic is None && match old(state).main_page.add_vic {
                Some(overlay) => page_says(
                    old(state).main_page,
                    final(state).main_page,
                    overlay.phase,
                    "Failed: not valid JSON: "@ + reason@,
                ),
                None => *final(state) == *old(state),
            },
        },
{
    match parsed {
        Ok(value) => Some(value),
        Err(reason) => {
            let mut words = "Failed: not valid JSON: ".to_owned();
            words.append(reason.as_str());
            complain(&mut state.main_page, words);
            None
        },
    }
}

/// Reads the pasted invitation credential. What comes back is JSON and still has
/// to be checked for being an invitation; see [`accept_import`].
pub fn vic_to_import(state: &mut State) -> (vic: Option<Value>)
    ensures
        *final(state) == old(state).with_page(final(state).main_page),
        pasted(
            old(state).main_page,
            paste(old(state).main_page.add_vic, |text: Seq<char>| read_json(text)),
            final(state).main_page,
            vic,
        ),
{
    match pasted_text(state) {
        None => None,
        Some(text) => {
            let parsed = match parse_json(text.as_str()) {
                Ok(value) => Ok(value),
                Err(error) => Err(json_error_text(&error)),
            };
            take_paste(state, parsed)
        },
    }
}

/// Takes in whether a pasted credential is an invitation, and says whether to
/// store it. Where it is not, the overlay keeps waiting, with the reason.
pub fn accept_import(state: &mut State, verdict: Result<(), String>) -> (store: bool)
    ensures
        store == (verdict is Ok),
        *final(state) == old(state).with_page(final(state).main_page),
        match old(state).main_page.add_vic {
            Some(overlay) => match verdict {
                Ok(_) => page_says(
                    old(state).main_page,
                    final(state).main_page,
                    AddVicPhase::Working,
                    "Storing invitation credential…"@,
                ),
                Err(reason) => page_says(
                    old(state).main_page,
                    final(state).main_page,
                    overlay.phase,
                    "Failed: "@ + reason@,
                ),
            },
            None => *final(state) == *old(state),
        },
{
    match verdict {
        Ok(_) => {
            say(
                &mut state.main_page,
                AddVicPhase::Working,
                "Storing invitation credential…".to_owned(),
            );
            true
        },
        Err(reason) => {
            let mut words = "Failed: ".to_owned();
            words.append(reason.as_str());
            complain(&mut state.main_page, words);
            false
        },
    }
}

/// What an action asks of the invitation with an identifier.
pub open spec fn verb_for(action: Action, id: String) -> Option<VicVerb> {
    match action {
        Action::VicArchive(_) => Some(VicVerb::Archive(id)),
        Action::VicUnarchive(_) => Some(VicVerb::Unarchive(id)),
        Action::VicRestore(_) => Some(VicVerb::Restore(id)),
        Action::DeleteVic(_) => Some(VicVerb::Delete(id)),
        Action::PurgeVic(_) => Some(VicVerb::Purge(id)),
        _ => None,
    }
}

fn disarm(vta: &mut VtaState)
    ensures
        *final(vta) == (VtaState {
            confirm_delete_vic: None,
            confirm_purge_vic: None,
            ..*old(vta)
        }),
{
    vta.confirm_delete_vic = None;
    vta.confirm_purge_vic = None;
}

/// What an action asks of the invitation at `index`. Whatever awaited
/// confirmation is settled by it, also where there is no such invitation.
pub fn vic_lifecycle_verb(state: &mut State, action: &Action, index: usize) -> (verb: Option<
    VicVerb,
>)
    ensures
        *final(state) == old(state).with_vta(
            (VtaState {
                confirm_delete_vic: None,
                confirm_purge_vic: None,
                ..old(state).main_page.content_panel.vta
            }),
        ),
        verb == ({
            let vics = old(state).main_page.content_panel.vta.vics@;
            if index < vics.len() {
                verb_for(*action, vics[index as int].id)
            } else {
                None
            }
        }),
{
    disarm(&mut state.main_page.content_panel.vta);
    if index >= state.main_page.content_panel.vta.vics.len() {
        return None;
    }
    let id = state.main_page.content_panel.vta.vics[index].id.clone();
    match action {
        Action::VicArchive(_) => Some(VicVerb::Archive(id)),
        Action::VicUnarchive(_) => Some(VicVerb::Unarchive(id)),
        Action::VicRestore(_) => Some(VicVerb::Restore(id)),
        Action::DeleteVic(_) => Some(VicVerb::Delete(id)),
        Action::PurgeVic(_) => Some(VicVerb::Purge(id)),
        _ => None,
    }
}

/// Claims a change to the vault, and says whether to make it. Without a session
/// nothing happens; while the vault is busy the log says so.
pub fn spawn_vic_mutation(
    in_flight: &mut InFlight,
    state: &mut State,
    has_session: bool,
) -> (start: bool)
    ensures
        start == (has_session && !old(in_flight)@.contains(DispatchDomain::Vic)),
        final(in_flight)@ == (if start {
            old(in_flight)@.insert(DispatchDomain::Vic)
        } else {
            old(in_flight)@
        }),
        if has_session && !start {
            final(state).logged(*old(state), seq![plain(busy_words(DispatchDomain::Vic))])
        } else {
            *final(state) == *old(state)
        },
{
    if !has_session {
        return false;
    }
    if !in_flight.try_begin(DispatchDomain::Vic) {
        proof {
            assert(in_flight@ =~= old(in_flight)@);
        }
        state.main_page.log(InFlight::busy_message(DispatchDomain::Vic));
        return false;
    }
    true
}

/// What becomes of the VTA panel when the vault is to be listed again. Without a
/// session there is nothing to list; while the vault is busy the request is put
/// off, never dropped: the listing under way is older than what prompted it.
pub open spec fn refresh_asked(vta: VtaState, has_session: bool, busy: bool) -> VtaState {
    if !has_session {
        VtaState { vic_loading: false, ..vta }
    } else if busy {
        VtaState { vic_refresh_queued: true, ..vta }
    } else {
        VtaState { vic_loading: true, ..vta }
    }
}

fn ask_refresh(in_flight: &mut InFlight, vta: &mut VtaState, has_session: bool) -> (start: bool)
    ensures
        start == (has_session && !old(in_flight)@.contains(DispatchDomain::Vic)),
        final(in_flight)@ == (if start {
            old(in_flight)@.insert(DispatchDomain::Vic)
        } else {
            old(in_flight)@
        }),
        *final(vta) == refresh_asked(
            *old(vta),
            has_session,
            old(in_flight)@.contains(DispatchDomain::Vic),
        ),
{
    if !has_session {
        vta.vic_loading = false;
        return false;
    }
    if !in_flight.try_begin(DispatchDomain::Vic) {
        proof {
            assert(in_flight@ =~= old(in_flight)@);
        }
        vta.vic_refresh_queued = true;
        return false;
    }
    vta.vic_loading = true;
    true
}

/// Asks for the vault to be listed, and says whether to start.
pub fn begin_vic_refresh(
    in_flight: &mut InFlight,
    state: &mut State,
    has_session: bool,
) -> (start: bool)
    ensures
        start == (has_session && !old(in_flight)@.contains(DispatchDomain::Vic)),
        final(in_flight)@ == (if start {
            old(in_flight)@.insert(DispatchDomain::Vic)
        } else {
            old(in_flight)@
        }),
        *final(state) == old(state).with_vta(
            refresh_asked(
                old(state).main_page.content_panel.vta,
                has_session,
                old(in_flight)@.contains(DispatchDomain::Vic),
            ),
        ),
{
    ask_refresh(in_flight, &mut state.main_page.content_panel.vta, has_session)
}

/// Asks for the vault to be listed. Where it is to start, says whether to list
/// archived and deleted invitations too.
pub fn spawn_vic_refresh(
    in_flight: &mut InFlight,
    state: &mut State,
    has_session: bool,
) -> (include_inactive: Option<bool>)
    ensures
        include_inactive == (if has_session && !old(in_flight)@.contains(DispatchDomain::Vic) {
            Some(old(state).main_page.content_panel.vta.vic_show_inactive)
        } else {
            None
        }),
        final(in_flight)@ == (if include_inactive is Some {
            old(in_flight)@.insert(DispatchDomain::Vic)
        } else {
            old(in_flight)@
        }),
        *final(state) == old(state).with_vta(
            refresh_asked(
                old(state).main_page.content_panel.vta,
                has_session,
                old(in_flight)@.contains(DispatchDomain::Vic),
            ),
        ),
{
    if begin_vic_refresh(in_flight, state, has_session) {
        Some(state.main_page.content_panel.vta.vic_show_inactive)
    } else {
        None
    }
}

/// What becomes of a panel whose request was put off, once the vault is free.
pub open spec fn requeued(vta: VtaState, has_session: bool, busy: bool) -> VtaState {
    if vta.vic_refresh_queued {
        refresh_asked(VtaState { vic_refresh_queued: false, ..vta }, has_session, busy)
    } else {
        vta
    }
}

fn unqueue(vta: &mut VtaState) -> (queued: bool)
    ensures
        queued == old(vta).vic_refresh_queued,
        *final(vta) == (VtaState { vic_refresh_queued: false, ..*old(vta) }),
{
    let queued = vta.vic_refresh_queued;
    vta.vic_refresh_queued = false;
    queued
}

/// Starts a listing that was put off, if there is one.
pub fn resume_vic_refresh(
    in_flight: &mut InFlight,
    state: &mut State,
    has_session: bool,
) -> (include_inactive: Option<bool>)
    ensures
        include_inactive == (if old(state).main_page.content_panel.vta.vic_refresh_queued
            && has_session && !old(in_flight)@.contains(DispatchDomain::Vic) {
            Some(old(state).main_page.content_panel.vta.vic_show_inactive)
        } else {
            None
        }),
        final(in_flight)@ == (if include_inactive is Some {
            old(in_flight)@.insert(DispatchDomain::Vic)
        } else {
            old(in_flight)@
        }),
        *final(state) == old(state).with_vta(
            requeued(
                old(state).main_page.content_panel.vta,
                has_session,
                old(in_flight)@.contains(DispatchDomain::Vic),
            ),
        ),
{
    if unqueue(&mut state.main_page.content_panel.vta) {
        spawn_vic_refresh(in_flight, state, has_session)
    } else {
        None
    }
}

/// Flips whether archived and deleted invitations are listed too.
pub fn toggle_inactive(state: &mut State)
    ensures
        *final(state) == old(state).with_vta(
            (VtaState {
                vic_show_inactive: !old(state).main_page.content_panel.vta.vic_show_inactive,
                ..old(state).main_page.content_panel.vta
            }),
        ),
{
    state.main_page.content_panel.vta.vic_show_inactive =
    !state.main_page.content_panel.vta.vic_show_inactive;
}

/// A listing that is asked for while the vault is busy is put off, and starts
/// once the vault is free.
pub proof fn a_refresh_is_never_dropped(vta: VtaState)
    ensures
        refresh_asked(vta, true, true).vic_refresh_queued,
        requeued(refresh_asked(vta, true, true), true, false).vic_loading,
        !requeued(refresh_asked(vta, true, true), true, false).vic_refresh_queued,
{
}

/// Without a session the panel never claims that a listing is under way.
pub proof fn nothing_loads_without_a_session(vta: VtaState, busy: bool)
    ensures
        !refresh_asked(vta, false, busy).vic_loading,
{
}

/// What is read is what was pasted, without the white space around it, and only
/// while the overlay waits for it; where nothing was pasted it asks for it.
pub proof fn the_pasted_text_is_read(state: &mut State, text: Option<String>)
    requires
        call_ensures(pasted_text, (state,), text),
    ensures
        text is Some <==> (old(state).main_page.add_vic matches Some(overlay)
            && overlay.phase is Input && trimmed(input_text(overlay.input)).len() > 0),
        text matches Some(inner) ==> *final(state) == *old(state) && (
        old(state).main_page.add_vic matches Some(overlay) && inner@ == trimmed(
            input_text(overlay.input),
        )),
        old(state).main_page.add_vic matches Some(overlay) ==> (overlay.phase is Input && text is None
            ==> (final(state).main_page.add_vic matches Some(after) && after.messages@.len() == 1
            && after.messages@[0]@ == "Paste an invitation credential (VIC) first."@
            && after.phase is Input && after.input == overlay.input)),
        old(state).main_page.add_vic is None ==> *final(state) == *old(state),
        final(state).main_page.log == old(state).main_page.log,
        final(state).main_page.content_panel == old(state).main_page.content_panel,
{
    if let Some(overlay) = old(state).main_page.add_vic {
        if overlay.phase is Input && text is None {
            let after = final(state).main_page.add_vic->0;
            assert(texts(after.messages@).len() == after.messages@.len());
            assert(texts(after.messages@)[0] == after.messages@[0]@);
        }
    }
}

/// A paste that is JSON goes on to be checked as it was read; one that is not is
/// said to be no JSON, with the reason, and the overlay stays as far as it was.
pub proof fn a_paste_that_is_no_json_is_told(
    state: &mut State,
    parsed: Result<Value, String>,
    vic: Option<Value>,
)
    requires
        call_ensures(take_paste, (state, parsed), vic),
    ensures
        vic is Some <==> parsed is Ok,
        parsed matches Ok(value) ==> vic == Some(value) && *final(state) == *old(state),
        parsed matches Err(reason) ==> (old(state).main_page.add_vic matches Some(overlay) ==> (
        final(state).main_page.add_vic matches Some(after) && after.messages@.len() == 1
            && after.messages@[0]@ == "Failed: not valid JSON: "@ + reason@ && after.phase
            == overlay.phase && after.input == overlay.input)),
        final(state).main_page.log == old(state).main_page.log,
{
    if parsed is Err {
        if let Some(overlay) = old(state).main_page.add_vic {
            let after = final(state).main_page.add_vic->0;
            assert(texts(after.messages@).len() == after.messages@.len());
            assert(texts(after.messages@)[0] == after.messages@[0]@);
        }
    }
}

/// What goes on to be checked is exactly the JSON that was pasted into an overlay
/// that waits for it.
pub proof fn only_pasted_json_is_imported(state: &mut State, vic: Option<Value>)
    requires
        call_ensures(vic_to_import, (state,), vic),
    ensures
        vic matches Some(value) ==> *final(state) == *old(state) && (
        old(state).main_page.add_vic matches Some(overlay) && overlay.phase is Input && json_parsed(
            trimmed(input_text(overlay.input)),
        ) == Ok::<Value, serde_json::Error>(value)),
        old(state).main_page.add_vic matches Some(overlay) ==> (overlay.phase is Input && trimmed(
            input_text(overlay.input),
        ).len() > 0 && json_parsed(trimmed(input_text(overlay.input))) is Ok ==> vic is Some),
        !(old(state).main_page.add_vic matches Some(overlay) && overlay.phase is Input) ==> vic is None
            && *final(state) == *old(state),
        final(state).main_page.content_panel == old(state).main_page.content_panel,
{
}

/// A credential is stored exactly where it is an invitation: the overlay then
/// works on it. Where it is not, the overlay says why and stays as far as it was.
pub proof fn only_invitations_are_stored(
    state: &mut State,
    verdict: Result<(), String>,
    store: bool,
)
    requires
        call_ensures(accept_import, (state, verdict), store),
    ensures
        store <==> verdict is Ok,
        old(state).main_page.add_vic is None ==> *final(state) == *old(state),
        old(state).main_page.add_vic matches Some(overlay) ==> (
        final(state).main_page.add_vic matches Some(after) && after.messages@.len() == 1
            && after.messages@[0]@ == (match verdict {
            Ok(_) => "Storing invitation credential…"@,
            Err(reason) => "Failed: "@ + reason@,
        }) && (store ==> after.phase is Working) && (!store ==> after.phase == overlay.phase)
            && after.input == overlay.input),
        final(state).main_page.log == old(state).main_page.log,
{
    if let Some(overlay) = old(state).main_page.add_vic {
        let after = final(state).main_page.add_vic->0;
        assert(texts(after.messages@).len() == after.messages@.len());
        assert(texts(after.messages@)[0] == after.messages@[0]@);
    }
}

/// An action on the vault is done to the invitation in the row it names, by that
/// invitation's handle, and is the very thing that was asked for. Whatever was up
/// for confirmation is settled, also where there is no such row.
pub proof fn the_invitation_in_the_row_is_changed(
    state: &mut State,
    action: &Action,
    index: usize,
    verb: Option<VicVerb>,
)
    requires
        call_ensures(vic_lifecycle_verb, (state, action, index), verb),
    ensures
        ({
            let rows = old(state).main_page.content_panel.vta.vics@;
            let id = rows[index as int].id;
            &&& index >= rows.len() ==> verb is None
            &&& index < rows.len() ==> {
                &&& action is VicArchive <==> verb == Some(VicVerb::Archive(id))
                &&& action is VicUnarchive <==> verb == Some(VicVerb::Unarchive(id))
                &&& action is VicRestore <==> verb == Some(VicVerb::Restore(id))
                &&& action is DeleteVic <==> verb == Some(VicVerb::Delete(id))
                &&& action is PurgeVic <==> verb == Some(VicVerb::Purge(id))
            }
            &&& verb is Some ==> action is VicArchive || action is VicUnarchive
                || action is VicRestore || action is DeleteVic || action is PurgeVic
        }),
        final(state).main_page.content_panel.vta.confirm_delete_vic is None,
        final(state).main_page.content_panel.vta.confirm_purge_vic is None,
        final(state).main_page.content_panel.vta.vics == old(state).main_page.content_panel.vta.vics,
        final(state).main_page.content_panel.vta.confirm_delete_did
            == old(state).main_page.content_panel.vta.confirm_delete_did,
        final(state).main_page.log == old(state).main_page.log,
{
}

/// The vault is changed exactly with a session and while it is free, and is busy
/// from then on; while it is busy the log says so, and without a session nothing
/// happens.
pub proof fn the_vault_is_changed_once_at_a_time(
    in_flight: &mut InFlight,
    state: &mut State,
    has_session: bool,
    start: bool,
)
    requires
        call_ensures(spawn_vic_mutation, (in_flight, state, has_session), start),
    ensures
        start <==> has_session && !old(in_flight)@.contains(DispatchDomain::Vic),
        final(in_flight)@.contains(DispatchDomain::Vic) <==> start || old(in_flight)@.contains(
            DispatchDomain::Vic,
        ),
        start || !has_session ==> *final(state) == *old(state),
        has_session && !start ==> final(state).main_page.lines().len()
            == old(state).main_page.lines().len() + 1
            && final(state).main_page.lines().last().summary
            == "Invitation credential refresh"@ + " already in progress — please wait."@,
        final(state).main_page.content_panel == old(state).main_page.content_panel,
{
}

/// A listing starts exactly with a session and while the vault is free, with what
/// is archived or deleted exactly where that is shown. It is shown as loading
/// then, put off while the vault is busy, and given up without a session.
pub proof fn a_listing_starts_or_is_put_off(
    in_flight: &mut InFlight,
    state: &mut State,
    has_session: bool,
    start: bool,
    listing: Option<bool>,
)
    ensures
        ({
            let before = old(state).main_page.content_panel.vta;
            let after = final(state).main_page.content_panel.vta;
            let free = !old(in_flight)@.contains(DispatchDomain::Vic);
            let begun = call_ensures(begin_vic_refresh, (in_flight, state, has_session), start);
            let spawned = call_ensures(
                spawn_vic_refresh,
                (in_flight, state, has_session),
                listing,
            );
            &&& begun ==> (start <==> has_session && free)
            &&& spawned ==> (listing is Some <==> has_session && free)
            &&& spawned ==> (listing matches Some(all) ==> all == before.vic_show_inactive)
            &&& begun || spawned ==> {
                &&& final(in_flight)@.contains(DispatchDomain::Vic) <==> !free || has_session
                &&& has_session && free ==> after.vic_loading && after.vic_refresh_queued
                    == before.vic_refresh_queued
                &&& has_session && !free ==> after.vic_refresh_queued && after.vic_loading
                    == before.vic_loading
                &&& !has_session ==> !after.vic_loading && after.vic_refresh_queued
                    == before.vic_refresh_queued
                &&& after.vics == before.vics
                &&& after.vic_show_inactive == before.vic_show_inactive
                &&& after.vic_selected_index == before.vic_selected_index
                &&& final(state).main_page.log == old(state).main_page.log
            }
        }),
{
}

/// A listing that was put off starts once there is a session and the vault is
/// free, and is put off no longer; where none was, nothing happens.
pub proof fn a_listing_that_was_put_off_starts(
    in_flight: &mut InFlight,
    state: &mut State,
    has_session: bool,
    listing: Option<bool>,
)
    requires
        call_ensures(resume_vic_refresh, (in_flight, state, has_session), listing),
    ensures
        ({
            let before = old(state).main_page.content_panel.vta;
            let after = final(state).main_page.content_panel.vta;
            let free = !old(in_flight)@.contains(DispatchDomain::Vic);
            &&& listing is Some <==> before.vic_refresh_queued && has_session && free
            &&& listing matches Some(all) ==> all == before.vic_show_inactive && after.vic_loading
                && final(in_flight)@.contains(DispatchDomain::Vic)
            &&& !before.vic_refresh_queued ==> *final(state) == *old(state) && final(in_flight)@
                == old(in_flight)@
            &&& after.vic_refresh_queued <==> before.vic_refresh_queued && has_session && !free
            &&& after.vics == before.vics
        }),
{
}

/// Showing what is archived or deleted is turned over, and nothing else changes.
pub proof fn what_is_inactive_is_shown_or_not(state: &mut State)
    requires
        call_ensures(toggle_inactive, (state,), ()),
    ensures
        final(state).main_page.content_panel.vta.vic_show_inactive
            != old(state).main_page.content_panel.vta.vic_show_inactive,
        final(state).main_page.content_panel.vta.vics == old(state).main_page.content_panel.vta.vics,
        final(state).main_page.content_panel.vta.vic_loading
            == old(state).main_page.content_panel.vta.vic_loading,
        final(state).main_page.log == old(state).main_page.log,
        final(state).main_page.content_panel.communities
            == old(state).main_page.content_panel.communities,
{
}

} // verus!
