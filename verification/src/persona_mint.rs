//! Minting a persona: from the label to the DID in the account.

use vstd::prelude::*;
use crate::background_dispatch::{busy_words, DispatchDomain, InFlight};
use crate::content::{CreatePersonaPhase, CreatePersonaState};
use crate::outside::{input_text, input_value};
use crate::state::{failure, plain, MainPageState, State};
use crate::text::{optional, texts, trim, trimmed};

verus! {

/// What is said where there is no session to mint with.
pub open spec fn no_session_words() -> Seq<char> {
    "VTA session unavailable — cannot create a persona right now."@
}

/// What asking for a mint comes to.
pub enum MintRequest {
    /// There is no label to mint under: the overlay is not waiting for one.
    Ignored,
    /// The label is empty.
    NoLabel,
    /// There is no session to mint with.
    NoSession,
    /// A persona is being minted already.
    Busy,
    /// The persona is minted under this label.
    Starts(Seq<char>),
}

/// What asking for a mint comes to, by the overlay, the session there is and the
/// work under way.
pub open spec fn mint_request(
    overlay: Option<CreatePersonaState>,
    has_session: bool,
    busy: Set<DispatchDomain>,
) -> MintRequest {
    match overlay {
        Some(o) => if o.phase == CreatePersonaPhase::Label {
            let label = trimmed(input_text(o.label));
            if label.len() == 0 {
                MintRequest::NoLabel
            } else if !has_session {
                MintRequest::NoSession
            } else if busy.contains(DispatchDomain::Persona) {
                MintRequest::Busy
            } else {
                MintRequest::Starts(label)
            }
        } else {
            MintRequest::Ignored
        },
        None => MintRequest::Ignored,
    }
}

/// Whether an overlay differs from an earlier one only by its phase and by
/// saying one thing.
pub open spec fn now_says(
    before: CreatePersonaState,
    after: CreatePersonaState,
    phase: CreatePersonaPhase,
    words: Seq<char>,
) -> bool {
    &&& after == CreatePersonaState { phase, messages: after.messages, ..before }
    &&& texts(after.messages@) == seq![words]
}

/// What the overlay says of a request, and the phase it is then in.
pub open spec fn mint_answer(request: MintRequest) -> (CreatePersonaPhase, Seq<char>) {
    match request {
        MintRequest::Ignored => (CreatePersonaPhase::Label, Seq::empty()),
        MintRequest::NoLabel => (CreatePersonaPhase::Label, "Enter a label first."@),
        MintRequest::NoSession => (CreatePersonaPhase::Failed, no_session_words()),
        MintRequest::Busy => (CreatePersonaPhase::Label, busy_words(DispatchDomain::Persona)),
        MintRequest::Starts(label) => (
            CreatePersonaPhase::Working,
            "Creating persona “"@ + label + "”…"@,
        ),
    }
}

fn say(overlay: &mut CreatePersonaState, phase: CreatePersonaPhase, words: String)
    ensures
        now_says(*old(overlay), *final(overlay), phase, words@),
{
    let mut messages: Vec<String> = Vec::new();
    messages.push(words);
    proof {
        assert(texts(messages@) =~= seq![words@]);
    }
    overlay.phase = phase;
    overlay.messages = messages;
}

fn begin_mint(
    in_flight: &mut InFlight,
    overlay: &mut CreatePersonaState,
    has_session: bool,
) -> (label: Option<String>)
    requires
        old(overlay).phase == CreatePersonaPhase::Label,
    ensures
        ({
            let request = mint_request(Some(*old(overlay)), has_session, old(in_flight)@);
            let answer = mint_answer(request);
            &&& now_says(*old(overlay), *final(overlay), answer.0, answer.1)
            &&& match request {
                MintRequest::Starts(l) => {
                    &&& optional(label) == Some(l)
                    &&& final(in_flight)@ == old(in_flight)@.insert(DispatchDomain::Persona)
                },
                _ => label is None && final(in_flight)@ == old(in_flight)@,
            }
        }),
{
    let typed = input_value(&overlay.label);
    let label = trim(typed.as_str()).to_owned();
    if label.as_str().is_empty() {
        say(overlay, CreatePersonaPhase::Label, "Enter a label first.".to_owned());
        return None;
    }
    if !has_session {
        say(
            overlay,
            CreatePersonaPhase::Failed,
            "VTA session unavailable — cannot create a persona right now.".to_owned(),
        );
        return None;
    }
    if !in_flight.try_begin(DispatchDomain::Persona) {
        proof {
            assert(in_flight@ =~= old(in_flight)@);
        }
        say(overlay, CreatePersonaPhase::Label, InFlight::busy_message(DispatchDomain::Persona));
        return None;
    }
    let mut words = "Creating persona “".to_owned();
    words.append(label.as_str());
    words.append("”…");
    say(overlay, CreatePersonaPhase::Working, words);
    Some(label)
}

/// Whether `post` is `pre` with what the persona overlay says of a request.
pub open spec fn mint_asked(pre: MainPageState, request: MintRequest, post: MainPageState) -> bool {
    match request {
        MintRequest::Ignored => post == pre,
        _ => {
            let answer = mint_answer(request);
            &&& post == MainPageState { create_persona: post.create_persona, ..pre }
            &&& pre.create_persona matches Some(before) && post.create_persona matches Some(after)
                && now_says(before, after, answer.0, answer.1)
        },
    }
}

fn ask_on_page(
    in_flight: &mut InFlight,
    page: &mut MainPageState,
    has_session: bool,
) -> (label: Option<String>)
    ensures
        ({
            let request = mint_request(old(page).create_persona, has_session, old(in_flight)@);
            &&& mint_asked(*old(page), request, *final(page))
            &&& match request {
                MintRequest::Starts(l) => {
                    &&& optional(label) == Some(l)
                    &&& final(in_flight)@ == old(in_flight)@.insert(DispatchDomain::Persona)
                },
                _ => label is None && final(in_flight)@ == old(in_flight)@,
            }
        }),
{
    match page.create_persona.as_mut() {
        Some(overlay) => {
            if overlay.phase == CreatePersonaPhase::Label {
                begin_mint(in_flight, overlay, has_session)
            } else {
                None
            }
        },
        None => None,
    }
}

/// Asks for a persona under the label in the overlay, and returns the label
/// where the mint is to start. Otherwise the overlay says why it does not; only
/// a missing session ends it.
pub fn spawn_persona_mint(
    in_flight: &mut InFlight,
    state: &mut State,
    has_session: bool,
) -> (label: Option<String>)
    ensures
        *final(state) == old(state).with_page(final(state).main_page),
        ({
            let request = mint_request(
                old(state).main_page.create_persona,
                has_session,
                old(in_flight)@,
            );
            &&& mint_asked(old(state).main_page, request, final(state).main_page)
            &&& match request {
                MintRequest::Starts(l) => {
                    &&& optional(label) == Some(l)
                    &&& final(in_flight)@ == old(in_flight)@.insert(DispatchDomain::Persona)
                },
                _ => label is None && final(in_flight)@ == old(in_flight)@,
            }
        }),
{
    ask_on_page(in_flight, &mut state.main_page, has_session)
}

/// Whether `post` is the overlay `pre` after storing a minted persona: it is in
/// the account and may be on the clipboard, or it is minted but not stored.
pub open spec fn overlay_settled(
    pre: CreatePersonaState,
    did: Seq<char>,
    stored: Result<bool, String>,
    post: CreatePersonaState,
) -> bool {
    match stored {
        Ok(copied) => {
            &&& post == CreatePersonaState {
                phase: CreatePersonaPhase::Done,
                did: post.did,
                copied,
                messages: post.messages,
                ..pre
            }
            &&& optional(post.did) == Some(did)
            &&& texts(post.messages@) == texts(pre.messages@).push("Persona created."@)
        },
        Err(reason) => {
            &&& post == CreatePersonaState {
                phase: CreatePersonaPhase::Failed,
                messages: post.messages,
                ..pre
            }
            &&& texts(post.messages@) == texts(pre.messages@).push(
                "Minted, but could not be saved: "@ + reason@,
            )
        },
    }
}

fn settle_overlay(overlay: &mut CreatePersonaState, did: &str, stored: &Result<bool, String>)
    ensures
        overlay_settled(*old(overlay), did@, *stored, *final(overlay)),
{
    match stored {
        Ok(copied) => {
            overlay.phase = CreatePersonaPhase::Done;
            overlay.did = Some(did.to_owned());
            overlay.copied = *copied;
            overlay.messages.push("Persona created.".to_owned());
            proof {
                assert(texts(overlay.messages@) =~= texts(old(overlay).messages@).push(
                    "Persona created."@,
                ));
            }
        },
        Err(reason) => {
            overlay.phase = CreatePersonaPhase::Failed;
            let mut words = "Minted, but could not be saved: ".to_owned();
            words.append(reason.as_str());
            let ghost said = words@;
            overlay.messages.push(words);
            proof {
                assert(texts(overlay.messages@) =~= texts(old(overlay).messages@).push(said));
            }
        },
    }
}

fn settle_on_page(page: &mut MainPageState, did: &str, stored: &Result<bool, String>)
    ensures
        *final(page) == (MainPageState {
            create_persona: final(page).create_persona,
            ..*old(page)
        }),
        match old(page).create_persona {
            Some(before) => final(page).create_persona matches Some(after) && overlay_settled(
                before,
                did@,
                *stored,
                after,
            ),
            None => final(page).create_persona is None,
        },
{
    if let Some(overlay) = page.create_persona.as_mut() {
        settle_overlay(overlay, did, stored);
    }
}

/// Whether `post` is `pre` after storing a minted persona.
pub open spec fn mint_settled(
    pre: MainPageState,
    did: Seq<char>,
    stored: Result<bool, String>,
    post: MainPageState,
) -> bool {
    let shown = MainPageState {
        create_persona: post.create_persona,
        sync_requested: pre.sync_requested || stored is Ok,
        ..pre
    };
    &&& match pre.create_persona {
        Some(before) => post.create_persona matches Some(after) && overlay_settled(
            before,
            did,
            stored,
            after,
        ),
        None => post.create_persona is None,
    }
    &&& post.logged(
        shown,
        seq![
            match stored {
                Ok(_) => plain("Created persona DID "@ + did),
                Err(reason) => failure("Persona minted but not saved"@, reason@),
            },
        ],
    )
}

/// Notes what storing a minted persona came to: whether its DID is on the
/// clipboard, or why it could not be stored. It is not lost then, and minting
/// again would mint a second one.
pub fn settle_minted_persona(state: &mut State, did: &str, stored: Result<bool, String>)
    ensures
        *final(state) == old(state).with_page(final(state).main_page),
        mint_settled(old(state).main_page, did@, stored, final(state).main_page),
{
    settle_on_page(&mut state.main_page, did, &stored);
    match stored {
        Ok(_) => {
            state.main_page.sync_requested = true;
            let mut line = "Created persona DID ".to_owned();
            line.append(did);
            state.main_page.log(line);
        },
        Err(reason) => {
            state.main_page.log_error("Persona minted but not saved", reason.as_str());
        },
    }
}

/// A mint starts exactly while the overlay asks for a label, something is typed,
/// there is a session and no other mint runs: under what is typed, without the
/// white space around it. Then it counts as running; otherwise nothing starts.
pub proof fn a_mint_starts_once_under_its_label(
    in_flight: &mut InFlight,
    state: &mut State,
    has_session: bool,
    label: Option<String>,
)
    requires
        call_ensures(spawn_persona_mint, (in_flight, state, has_session), label),
    ensures
        label is Some <==> has_session && !old(in_flight)@.contains(DispatchDomain::Persona) && (
        old(state).main_page.create_persona matches Some(overlay) && overlay.phase is Label
            && trimmed(input_text(overlay.label)).len() > 0),
        label matches Some(l) ==> (old(state).main_page.create_persona matches Some(overlay) && l@
            == trimmed(input_text(overlay.label))),
        final(in_flight)@.contains(DispatchDomain::Persona) <==> label is Some
            || old(in_flight)@.contains(DispatchDomain::Persona),
        forall|domain: DispatchDomain|
            !(domain is Persona) ==> (#[trigger] final(in_flight)@.contains(domain)
                <==> old(in_flight)@.contains(domain)),
        final(state).main_page.log == old(state).main_page.log,
        final(state).main_page.content_panel == old(state).main_page.content_panel,
{
}

/// The overlay answers whoever asks for a mint: it says the one thing there is to
/// say, moves on to working when the mint starts, fails for want of a session, and
/// goes on asking otherwise. What was typed stays.
pub proof fn asking_for_a_mint_is_answered(
    in_flight: &mut InFlight,
    state: &mut State,
    has_session: bool,
    label: Option<String>,
    overlay: CreatePersonaState,
)
    requires
        call_ensures(spawn_persona_mint, (in_flight, state, has_session), label),
        old(state).main_page.create_persona == Some(overlay),
    ensures
        !(overlay.phase is Label) ==> *final(state) == *old(state),
        overlay.phase is Label ==> (final(state).main_page.create_persona matches Some(after) && {
            let typed = trimmed(input_text(overlay.label));
            &&& after.messages@.len() == 1
            &&& after.messages@[0]@ == (if typed.len() == 0 {
                "Enter a label first."@
            } else if !has_session {
                "VTA session unavailable — cannot create a persona right now."@
            } else if label is None {
                "Persona creation"@ + " already in progress — please wait."@
            } else {
                "Creating persona “"@ + typed + "”…"@
            })
            &&& after.phase is Working <==> label is Some
            &&& after.phase is Failed <==> typed.len() > 0 && !has_session
            &&& after.phase is Label <==> typed.len() == 0 || (has_session && label is None)
            &&& after.label == overlay.label
            &&& after.did == overlay.did
            &&& after.copied == overlay.copied
        }),
{
    if overlay.phase is Label {
        let after = final(state).main_page.create_persona->0;
        assert(texts(after.messages@).len() == after.messages@.len());
        assert(texts(after.messages@)[0] == after.messages@[0]@);
    }
}

/// A minted persona that was stored is done, with its DID and whether that is on
/// the clipboard, is logged under its DID and has the panels rebuilt. One that
/// could not be stored has failed, and both the overlay and the log say why; no
/// DID is shown for it that was not shown before.
pub proof fn a_minted_persona_is_settled(
    state: &mut State,
    did: &str,
    stored: Result<bool, String>,
)
    requires
        call_ensures(settle_minted_persona, (state, did, stored), ()),
    ensures
        final(state).main_page.sync_requested <==> old(state).main_page.sync_requested
            || stored is Ok,
        final(state).main_page.lines().len() == old(state).main_page.lines().len() + 1,
        final(state).main_page.lines().last().summary == (match stored {
            Ok(_) => "Created persona DID "@ + did@,
            Err(reason) => "Persona minted but not saved"@ + ": "@ + reason@,
        }),
        final(state).main_page.create_persona is Some <==> old(state).main_page.create_persona is Some,
        old(state).main_page.create_persona matches Some(before) ==> (
        final(state).main_page.create_persona matches Some(after) && {
            let n = before.messages@.len() as int;
            &&& after.phase is Done <==> stored is Ok
            &&& after.phase is Failed <==> stored is Err
            &&& stored matches Ok(copied) ==> after.copied == copied && (
            after.did matches Some(shown) && shown@ == did@)
            &&& stored is Err ==> after.did == before.did && after.copied == before.copied
            &&& after.messages@.len() == n + 1
            &&& after.messages@[n]@ == (match stored {
                Ok(_) => "Persona created."@,
                Err(reason) => "Minted, but could not be saved: "@ + reason@,
            })
            &&& forall|i: int| 0 <= i < n ==> (#[trigger] after.messages@[i])@
                == before.messages@[i]@
        }),
        final(state).main_page.content_panel == old(state).main_page.content_panel,
{
    if let Some(before) = old(state).main_page.create_persona {
        let after = final(state).main_page.create_persona->0;
        let n = before.messages@.len() as int;
        assert(texts(after.messages@).len() == after.messages@.len());
        assert(texts(before.messages@).len() == n);
        assert(texts(after.messages@)[n] == after.messages@[n]@);
        assert forall|i: int| 0 <= i < n implies (#[trigger] after.messages@[i])@
            == before.messages@[i]@ by {
            assert(texts(after.messages@)[i] == after.messages@[i]@);
            assert(texts(before.messages@)[i] == before.messages@[i]@);
        }
    }
}

} // verus!
