//! The loop that runs before the account is in any community: it can navigate,
//! mint personas, look after the vault and join. It reads no mail, so it must
//! not keep a listener.

use vstd::prelude::*;
use crate::actions::{Action, Interrupted};
use crate::agent_names::{
    agent_name_to_claim, claim_asked, selected_agent_name, selected_row, toggle_verb, Verb,
};
use crate::background_dispatch::{busy_words, DispatchDomain, DispatchOutcome, InFlight};
use crate::config::{persona_with, Config};
use crate::content::{CreatePersonaPhase, VtaState};
use crate::identities::{
    cannot_delete_words, deletion_lines, deletion_request, prepare_delete_context_did,
    refuse_delete_did, DeletionRequest, DidDeletion,
};
use crate::navigation::{handle_nav_action, is_navigation, navigates};
use crate::persona_mint::{
    mint_asked, mint_request, no_session_words, now_says, spawn_persona_mint, MintRequest,
};
use crate::sessions::must_hand_off;
use crate::state::{failure, plain, ActivePage, MainPageState, State};
use crate::text::texts;
use crate::vic::{
    paste, pasted, read_json, refresh_asked, spawn_vic_mutation, spawn_vic_refresh,
    toggle_inactive, verb_for, vic_lifecycle_verb, vic_to_import, VicVerb,
};
use serde_json::Value;

verus! {

/// What the loop does next.
pub enum DegradedStep {
    /// Waits for the next event.
    Continue,
    /// Ends.
    Exit(Interrupted),
    /// Hands its context to the loop that reads mail.
    HandOff,
    /// Removes the membership in a row of the list.
    RemoveCommunity(usize),
    /// Lets the user join a community.
    Join,
    /// Mints a persona under a label.
    Mint(String),
    /// Opens the agent-name overlay for a row of the list.
    OpenAgentNames(usize),
    /// Works on a persona's agent names.
    AgentNames(String, Verb),
    /// Serves a settings action.
    Settings,
    /// Deletes an identity.
    DeleteDid(DidDeletion),
    /// Lists the vault, with what is archived or deleted or without.
    ListVault(bool),
    /// Checks a pasted credential for being an invitation.
    CheckInvitation(Value),
    /// Changes the vault.
    ChangeVault(VicVerb),
    /// Copies a DID to the clipboard.
    CopyDid(String),
}

/// What the loop has to work with: the account, a VTA session, and a messaging
/// runtime.
#[derive(Clone, Copy)]
pub struct Means<'a> {
    pub config: Option<&'a Config>,
    pub session: bool,
    pub messaging: bool,
}

/// Whether an action needs a community, so that there is nothing to do but to say
/// so.
pub open spec fn needs_community(action: Action) -> bool {
    match action {
        Action::Inbox
        | Action::Relationship
        | Action::Credential
        | Action::IssueMemberVmc(_)
        | Action::CapabilitiesOpen(_)
        | Action::RequestPersonhoodChallenge(_)
        | Action::AssertPersonhood
        | Action::CapabilitiesRefresh
        | Action::CapabilitiesToggleCommit
        | Action::SetActiveCommunity(_)
        | Action::ToggleFavourite(_)
        | Action::AcknowledgeCommunity(_)
        | Action::LeaveCommunity(_)
        | Action::WithdrawJoin(_)
        | Action::ArchiveCommunity(_)
        | Action::ToggleShowArchived
        | Action::OpenCommunitySwitcher
        | Action::CommunitySwitcherSelect => true,
        _ => false,
    }
}

/// Whether an action belongs to joining or setting up, which run loops of their
/// own and hand nothing on.
pub open spec fn belongs_elsewhere(action: Action) -> bool {
    match action {
        Action::ActivateMainMenu
        | Action::JoinSubmitVtc
        | Action::JoinIdentitySelect
        | Action::JoinIdentityChoose
        | Action::JoinReuseConfirm
        | Action::JoinReuseCancel
        | Action::JoinInvitationSelect
        | Action::JoinInvitationChoose
        | Action::JoinCancel
        | Action::JoinPasteVic
        | Action::JoinPasteFromClipboard
        | Action::JoinClearVic
        | Action::ImportConfig
        | Action::SetProtection
        | Action::VtaSubmitDid
        | Action::VtaStartProvision
        | Action::RecoverPlanContext
        | Action::SetupCompleted
        | Action::GetTokens
        | Action::SetAdminPin
        | Action::SetTouchPolicy
        | Action::SetTokenName
        | Action::FactoryReset
        | Action::TokenWriteKeys => true,
        _ => false,
    }
}

/// Whether an action changes an invitation in the vault, and which row it means.
pub open spec fn vault_row(action: Action) -> Option<usize> {
    match action {
        Action::VicArchive(i) => Some(i),
        Action::VicUnarchive(i) => Some(i),
        Action::VicRestore(i) => Some(i),
        Action::DeleteVic(i) => Some(i),
        Action::PurgeVic(i) => Some(i),
        _ => None,
    }
}

/// Whether asking for a persona leads from `pre` to `post` and on to `step`.
pub open spec fn mints(
    pre: State,
    busy: Set<DispatchDomain>,
    means: Means,
    post: State,
    post_busy: Set<DispatchDomain>,
    step: DegradedStep,
) -> bool {
    if means.config is Some {
        let request = mint_request(pre.main_page.create_persona, means.session, busy);
        &&& post == pre.with_page(post.main_page)
        &&& mint_asked(pre.main_page, request, post.main_page)
        &&& match request {
            MintRequest::Starts(label) => step matches DegradedStep::Mint(l) && l@ == label
                && post_busy == busy.insert(DispatchDomain::Persona),
            _ => step == DegradedStep::Continue && post_busy == busy,
        }
    } else {
        // Without an account there is no session either.
        &&& step == DegradedStep::Continue
        &&& post_busy == busy
        &&& post == pre.with_create_persona(post.main_page.create_persona)
        &&& match pre.main_page.create_persona {
            Some(before) => post.main_page.create_persona matches Some(after) && now_says(
                before,
                after,
                CreatePersonaPhase::Failed,
                no_session_words(),
            ),
            None => post.main_page.create_persona is None,
        }
    }
}

/// Whether asking for the identity in row `index` to be deleted leads from `pre`
/// to `post` and on to `step`.
pub open spec fn deletes_did(
    pre: State,
    busy: Set<DispatchDomain>,
    means: Means,
    index: usize,
    post: State,
    post_busy: Set<DispatchDomain>,
    step: DegradedStep,
) -> bool {
    let vta = pre.main_page.content_panel.vta;
    let disarmed = pre.with_vta(VtaState { confirm_delete_did: None, ..vta });
    if means.config is None || !means.messaging {
        &&& post.logged(disarmed, seq![plain(cannot_delete_words())])
        &&& post_busy == busy
        &&& step == DegradedStep::Continue
    } else if busy.contains(DispatchDomain::Did) {
        &&& post.logged(pre, seq![plain(busy_words(DispatchDomain::Did))])
        &&& post_busy == busy
        &&& step == DegradedStep::Continue
    } else {
        let config = *means.config->0;
        let request = deletion_request(vta, config, index);
        let row = vta.context_dids@[index as int];
        &&& post.logged(disarmed, deletion_lines(request, row.did@))
        &&& match request {
            DeletionRequest::Starts => {
                &&& post_busy == busy.insert(DispatchDomain::Did)
                &&& step matches DegradedStep::DeleteDid(job) && job.did == row.did && {
                    let persona = persona_with(config.account.personas@, row.did@, 0)->0;
                    job.persona_id == persona.persona_id && job.key_ids@ == persona.key_ids@
                }
            },
            _ => post_busy == busy && step == DegradedStep::Continue,
        }
    }
}

/// Whether listing the vault leads from `pre` to `post` and on to `step`.
pub open spec fn lists_vault(
    pre: State,
    busy: Set<DispatchDomain>,
    means: Means,
    post: State,
    post_busy: Set<DispatchDomain>,
    step: DegradedStep,
) -> bool {
    let vta = pre.main_page.content_panel.vta;
    let taken = busy.contains(DispatchDomain::Vic);
    &&& post == pre.with_vta(refresh_asked(vta, means.session, taken))
    &&& if means.session && !taken {
        post_busy == busy.insert(DispatchDomain::Vic) && step == DegradedStep::ListVault(
            vta.vic_show_inactive,
        )
    } else {
        post_busy == busy && step == DegradedStep::Continue
    }
}

/// Whether a change to the invitation in row `index` leads from `pre` to `post`
/// and on to `step`.
pub open spec fn changes_vault(
    pre: State,
    busy: Set<DispatchDomain>,
    means: Means,
    action: Action,
    index: usize,
    post: State,
    post_busy: Set<DispatchDomain>,
    step: DegradedStep,
) -> bool {
    let vta = pre.main_page.content_panel.vta;
    let disarmed = pre.with_vta(
        VtaState { confirm_delete_vic: None, confirm_purge_vic: None, ..vta },
    );
    if index >= vta.vics@.len() || !means.session {
        post == disarmed && post_busy == busy && step == DegradedStep::Continue
    } else if busy.contains(DispatchDomain::Vic) {
        &&& post.logged(disarmed, seq![plain(busy_words(DispatchDomain::Vic))])
        &&& post_busy == busy
        &&& step == DegradedStep::Continue
    } else {
        &&& post == disarmed
        &&& post_busy == busy.insert(DispatchDomain::Vic)
        &&& step matches DegradedStep::ChangeVault(verb) && verb_for(
            action,
            vta.vics@[index as int].id,
        ) == Some(verb)
    }
}

/// Whether work on agent names leads from `pre` to `post` and on to `step`.
pub open spec fn works_on_names(
    pre: State,
    action: Action,
    post: State,
    step: DegradedStep,
) -> bool {
    let overlay = pre.main_page.agent_names;
    if action is AgentNameManagerClaim {
        &&& post == pre.with_agent_names(post.main_page.agent_names)
        &&& exists|claim: Option<(String, String)>| #[trigger]
            claim_asked(overlay, claim, post.main_page.agent_names) && step == match claim {
                Some((did, name)) => DegradedStep::AgentNames(did, Verb::Claim(name)),
                None => DegradedStep::Continue,
            }
    } else {
        &&& post == pre
        &&& step == match selected_row(overlay) {
            Some(row) => DegradedStep::AgentNames(
                overlay->0.persona_did,
                if action is AgentNameManagerRemove {
                    Verb::Remove(row.name)
                } else if row.enabled {
                    Verb::Park(row.name)
                } else {
                    Verb::Resume(row.name)
                },
            ),
            None => DegradedStep::Continue,
        }
    }
}

/// Whether an action leads from `pre`, with work `busy`, to `post` and
/// `post_busy`, and on to `step`.
pub open spec fn serves(
    pre: State,
    busy: Set<DispatchDomain>,
    means: Means,
    action: Action,
    post: State,
    post_busy: Set<DispatchDomain>,
    step: DegradedStep,
) -> bool {
    if is_navigation(action) {
        navigates(pre, action, post) && post_busy == busy && step == DegradedStep::Continue
    } else if needs_community(action) {
        &&& post.logged(pre, seq![plain("Not available yet — join a community first."@)])
        &&& post_busy == busy
        &&& step == DegradedStep::Continue
    } else if belongs_elsewhere(action) {
        post == pre && post_busy == busy && step == DegradedStep::Continue
    } else if vault_row(action) is Some {
        changes_vault(
            pre,
            busy,
            means,
            action,
            vault_row(action)->0,
            post,
            post_busy,
            step,
        )
    } else {
        match action {
            Action::Exit => post == pre && post_busy == busy && step == DegradedStep::Exit(
                Interrupted::UserInt,
            ),
            Action::UXError(reason) => post == pre && post_busy == busy && step
                == DegradedStep::Exit(reason),
            Action::DeleteCommunity(i) => post == pre && post_busy == busy && step == (
            if means.config is Some {
                DegradedStep::RemoveCommunity(i)
            } else {
                DegradedStep::Continue
            }),
            Action::StartJoin => post_busy == busy && (if means.config is Some {
                post == pre && step == DegradedStep::Join
            } else {
                post.logged(pre, seq![plain("Cannot join: no active VTA session."@)]) && step
                    == DegradedStep::Continue
            }),
            Action::CreatePersonaSubmit => mints(pre, busy, means, post, post_busy, step),
            Action::StartAgentNameManager(i) => post == pre && post_busy == busy && step
                == DegradedStep::OpenAgentNames(i),
            Action::AgentNameManagerClaim
            | Action::AgentNameManagerToggle
            | Action::AgentNameManagerRemove => post_busy == busy && works_on_names(
                pre,
                action,
                post,
                step,
            ),
            Action::Settings => post == pre && post_busy == busy && step == (
            if means.config is Some {
                DegradedStep::Settings
            } else {
                DegradedStep::Continue
            }),
            Action::DeleteDid(i) => deletes_did(pre, busy, means, i, post, post_busy, step),
            Action::VicRefresh => lists_vault(pre, busy, means, post, post_busy, step),
            Action::VicToggleInactive => lists_vault(
                pre.with_vta(
                    VtaState {
                        vic_show_inactive: !pre.main_page.content_panel.vta.vic_show_inactive,
                        ..pre.main_page.content_panel.vta
                    },
                ),
                busy,
                means,
                post,
                post_busy,
                step,
            ),
            Action::AddVicSubmit => {
                &&& post == pre.with_page(post.main_page)
                &&& post_busy == busy
                &&& pasted(
                    pre.main_page,
                    paste(pre.main_page.add_vic, |text: Seq<char>| read_json(text)),
                    post.main_page,
                    match step {
                        DegradedStep::CheckInvitation(vic) => Some(vic),
                        _ => None,
                    },
                )
                &&& step is CheckInvitation || step == DegradedStep::Continue
            },
            Action::CreatePersonaCopy => {
                &&& post == pre
                &&& post_busy == busy
                &&& step == match pre.main_page.create_persona {
                    Some(overlay) => match overlay.did {
                        Some(did) => DegradedStep::CopyDid(did),
                        None => DegradedStep::Continue,
                    },
                    None => DegradedStep::Continue,
                }
            },
            _ => post == pre && post_busy == busy && step == DegradedStep::Continue,
        }
    }
}

fn fail_mint(page: &mut MainPageState)
    ensures
        *final(page) == (MainPageState {
            create_persona: final(page).create_persona,
            ..*old(page)
        }),
        match old(page).create_persona {
            Some(before) => final(page).create_persona matches Some(after) && now_says(
                before,
                after,
                CreatePersonaPhase::Failed,
                no_session_words(),
            ),
            None => final(page).create_persona is None,
        },
{
    if let Some(overlay) = page.create_persona.as_mut() {
        let mut messages: Vec<String> = Vec::new();
        messages.push("VTA session unavailable — cannot create a persona right now.".to_owned());
        proof {
            assert(texts(messages@) =~= seq![no_session_words()]);
        }
        overlay.phase = CreatePersonaPhase::Failed;
        overlay.messages = messages;
    }
}

fn ask_for_mint(state: &mut State, in_flight: &mut InFlight, means: Means) -> (step: DegradedStep)
    ensures
        mints(*old(state), old(in_flight)@, means, *final(state), final(in_flight)@, step),
{
    if means.config.is_some() {
        match spawn_persona_mint(in_flight, state, means.session) {
            Some(label) => DegradedStep::Mint(label),
            None => DegradedStep::Continue,
        }
    } else {
        fail_mint(&mut state.main_page);
        DegradedStep::Continue
    }
}

fn ask_for_deletion(
    state: &mut State,
    in_flight: &mut InFlight,
    means: Means,
    index: usize,
) -> (step: DegradedStep)
    ensures
        deletes_did(
            *old(state),
            old(in_flight)@,
            means,
            index,
            *final(state),
            final(in_flight)@,
            step,
        ),
{
    match means.config {
        Some(config) => if means.messaging {
            if !in_flight.try_begin(DispatchDomain::Did) {
                proof {
                    assert(in_flight@ =~= old(in_flight)@);
                }
                state.main_page.log(InFlight::busy_message(DispatchDomain::Did));
                DegradedStep::Continue
            } else {
                match prepare_delete_context_did(state, config, index) {
                    Some(job) => DegradedStep::DeleteDid(job),
                    None => {
                        in_flight.finish(DispatchDomain::Did);
                        proof {
                            assert(in_flight@ =~= old(in_flight)@);
                        }
                        DegradedStep::Continue
                    },
                }
            }
        } else {
            refuse_delete_did(state);
            DegradedStep::Continue
        },
        None => {
            refuse_delete_did(state);
            DegradedStep::Continue
        },
    }
}

fn ask_for_listing(state: &mut State, in_flight: &mut InFlight, means: Means) -> (step: DegradedStep)
    ensures
        lists_vault(*old(state), old(in_flight)@, means, *final(state), final(in_flight)@, step),
{
    match spawn_vic_refresh(in_flight, state, means.session) {
        Some(include_inactive) => DegradedStep::ListVault(include_inactive),
        None => DegradedStep::Continue,
    }
}

fn ask_for_change(
    state: &mut State,
    in_flight: &mut InFlight,
    means: Means,
    action: &Action,
    index: usize,
) -> (step: DegradedStep)
    requires
        vault_row(*action) == Some(index),
    ensures
        changes_vault(
            *old(state),
            old(in_flight)@,
            means,
            *action,
            index,
            *final(state),
            final(in_flight)@,
            step,
        ),
{
    match vic_lifecycle_verb(state, action, index) {
        Some(verb) => if spawn_vic_mutation(in_flight, state, means.session) {
            DegradedStep::ChangeVault(verb)
        } else {
            DegradedStep::Continue
        },
        None => DegradedStep::Continue,
    }
}

fn ask_about_names(state: &mut State, action: &Action) -> (step: DegradedStep)
    requires
        action is AgentNameManagerClaim || action is AgentNameManagerToggle
            || action is AgentNameManagerRemove,
    ensures
        works_on_names(*old(state), *action, *final(state), step),
{
    let claiming: bool = matches!(action, Action::AgentNameManagerClaim);
    if claiming {
        let claim = agent_name_to_claim(state);
        proof {
            assert(claim_asked(
                old(state).main_page.agent_names,
                claim,
                state.main_page.agent_names,
            ));
        }
        match claim {
            Some((did, name)) => DegradedStep::AgentNames(did, Verb::Claim(name)),
            None => DegradedStep::Continue,
        }
    } else {
        match selected_agent_name(state) {
            Some((did, name, enabled)) => {
                let removing: bool = matches!(action, Action::AgentNameManagerRemove);
                if removing {
                    DegradedStep::AgentNames(did, Verb::Remove(name))
                } else {
                    DegradedStep::AgentNames(did, toggle_verb(name, enabled))
                }
            },
            None => DegradedStep::Continue,
        }
    }
}

fn vault_row_of(action: &Action) -> (row: Option<usize>)
    ensures
        row == vault_row(*action),
{
    match action {
        Action::VicArchive(i) => Some(*i),
        Action::VicUnarchive(i) => Some(*i),
        Action::VicRestore(i) => Some(*i),
        Action::DeleteVic(i) => Some(*i),
        Action::PurgeVic(i) => Some(*i),
        _ => None,
    }
}

fn wants_community(action: &Action) -> (yes: bool)
    ensures
        yes == needs_community(*action),
{
    match action {
        Action::Inbox
        | Action::Relationship
        | Action::Credential
        | Action::IssueMemberVmc(_)
        | Action::CapabilitiesOpen(_)
        | Action::RequestPersonhoodChallenge(_)
        | Action::AssertPersonhood
        | Action::CapabilitiesRefresh
        | Action::CapabilitiesToggleCommit
        | Action::SetActiveCommunity(_)
        | Action::ToggleFavourite(_)
        | Action::AcknowledgeCommunity(_)
        | Action::LeaveCommunity(_)
        | Action::WithdrawJoin(_)
        | Action::ArchiveCommunity(_)
        | Action::ToggleShowArchived
        | Action::OpenCommunitySwitcher
        | Action::CommunitySwitcherSelect => true,
        _ => false,
    }
}

/// Serves an action, and says what the loop does next. Whatever needs a
/// community is answered rather than passed over: a dead key cannot be told from
/// a broken one.
pub fn degraded_action(
    state: &mut State,
    in_flight: &mut InFlight,
    means: Means,
    action: Action,
) -> (step: DegradedStep)
    ensures
        serves(
            *old(state),
            old(in_flight)@,
            means,
            action,
            *final(state),
            final(in_flight)@,
            step,
        ),
{
    if handle_nav_action(state, &action) {
        return DegradedStep::Continue;
    }
    if wants_community(&action) {
        state.main_page.log("Not available yet — join a community first.".to_owned());
        return DegradedStep::Continue;
    }
    if let Some(index) = vault_row_of(&action) {
        return ask_for_change(state, in_flight, means, &action, index);
    }
    match action {
        Action::Exit => DegradedStep::Exit(Interrupted::UserInt),
        Action::UXError(reason) => DegradedStep::Exit(reason),
        Action::DeleteCommunity(i) => if means.config.is_some() {
            DegradedStep::RemoveCommunity(i)
        } else {
            DegradedStep::Continue
        },
        Action::StartJoin => if means.config.is_some() {
            DegradedStep::Join
        } else {
            state.main_page.log("Cannot join: no active VTA session.".to_owned());
            DegradedStep::Continue
        },
        Action::CreatePersonaSubmit => ask_for_mint(state, in_flight, means),
        Action::StartAgentNameManager(i) => DegradedStep::OpenAgentNames(i),
        Action::AgentNameManagerClaim
        | Action::AgentNameManagerToggle
        | Action::AgentNameManagerRemove => ask_about_names(state, &action),
        Action::Settings => if means.config.is_some() {
            DegradedStep::Settings
        } else {
            DegradedStep::Continue
        },
        Action::DeleteDid(i) => ask_for_deletion(state, in_flight, means, i),
        Action::VicRefresh => ask_for_listing(state, in_flight, means),
        Action::VicToggleInactive => {
            toggle_inactive(state);
            ask_for_listing(state, in_flight, means)
        },
        Action::AddVicSubmit => match vic_to_import(state) {
            Some(vic) => DegradedStep::CheckInvitation(vic),
            None => DegradedStep::Continue,
        },
        Action::CreatePersonaCopy => match &state.main_page.create_persona {
            Some(overlay) => match &overlay.did {
                Some(did) => DegradedStep::CopyDid(did.clone()),
                None => DegradedStep::Continue,
            },
            None => DegradedStep::Continue,
        },
        _ => DegradedStep::Continue,
    }
}

/// Gives up an outcome that comes in after the account was handed over. Its kind
/// of work is free all the same.
pub fn drop_outcome(in_flight: &mut InFlight, outcome: &DispatchOutcome)
    ensures
        final(in_flight)@ == old(in_flight)@.remove(outcome.of()),
{
    in_flight.finish(outcome.domain());
}

/// What letting the user join came to.
#[derive(Clone, Debug)]
pub enum JoinExit {
    /// The user is back; says whether a community was joined.
    Returned(bool),
    /// The program is to end.
    Exit(Interrupted),
    /// It broke down; says why.
    Failed(String),
}

/// What the log says when the loop hands over.
pub open spec fn hand_off_words(joined: bool) -> Seq<char> {
    if joined {
        "Joined — starting secure messaging…"@
    } else {
        "Starting secure messaging…"@
    }
}

/// Takes in what letting the user join came to, and says what the loop does
/// next. `has_identity` says whether the account then has a persona, and
/// `holds_listener` whether any listener is up: this loop reads no mail, so it
/// does not go on with one.
pub fn after_join(
    state: &mut State,
    exit: JoinExit,
    has_identity: bool,
    holds_listener: bool,
) -> (step: DegradedStep)
    ensures
        holds_listener && !(exit is Exit) ==> step == DegradedStep::HandOff,
        ({
            let home = State { active_page: ActivePage::Main, ..*old(state) };
            match exit {
                JoinExit::Exit(reason) => step == DegradedStep::Exit(reason) && *final(state)
                    == *old(state),
                JoinExit::Returned(joined) => if (joined && has_identity) || holds_listener {
                    step == DegradedStep::HandOff && final(state).logged(
                        home,
                        seq![plain(hand_off_words(joined && has_identity))],
                    )
                } else {
                    step == DegradedStep::Continue && *final(state) == home
                },
                JoinExit::Failed(reason) => if holds_listener {
                    step == DegradedStep::HandOff && final(state).logged(
                        home,
                        seq![
                            failure("Join flow failed"@, reason@),
                            plain(hand_off_words(false)),
                        ],
                    )
                } else {
                    step == DegradedStep::Continue && final(state).logged(
                        home,
                        seq![failure("Join flow failed"@, reason@)],
                    )
                },
            }
        }),
{
    let joined: bool = match exit {
        JoinExit::Exit(reason) => {
            return DegradedStep::Exit(reason);
        },
        JoinExit::Returned(joined) => {
            state.active_page = ActivePage::Main;
            joined && has_identity
        },
        JoinExit::Failed(reason) => {
            state.main_page.log_error("Join flow failed", reason.as_str());
            state.active_page = ActivePage::Main;
            false
        },
    };
    let ghost before = state.main_page.lines();
    if must_hand_off(joined, holds_listener, true) {
        let words = if joined {
            "Joined — starting secure messaging…"
        } else {
            "Starting secure messaging…"
        };
        state.main_page.log(words.to_owned());
        proof {
            assert(state.main_page.lines() =~= before.push(plain(hand_off_words(joined))));
            if exit is Failed {
                let first = failure("Join flow failed"@, exit->Failed_0@);
                assert(old(state).main_page.lines() + seq![first, plain(hand_off_words(false))]
                    =~= state.main_page.lines());
            }
        }
        DegradedStep::HandOff
    } else {
        DegradedStep::Continue
    }
}

/// What a settings action came to.
#[derive(Clone, Copy, Debug, PartialEq, Eq, Structural)]
pub enum SettingsOutcome {
    Continue,
    /// The user wiped the profile, or asked to leave.
    ExitUserInt,
    /// The mediator changed.
    ReconnectMediator,
}

/// Takes in what a settings action came to. There is no listener yet to connect
/// to another mediator, so a new one is for later.
pub fn after_settings(state: &mut State, outcome: SettingsOutcome) -> (step: DegradedStep)
    ensures
        match outcome {
            SettingsOutcome::Continue => step == DegradedStep::Continue && *final(state) == *old(state),
            SettingsOutcome::ExitUserInt => step == DegradedStep::Exit(Interrupted::UserInt)
                && *final(state) == *old(state),
            SettingsOutcome::ReconnectMediator => step == DegradedStep::Continue && final(state).logged(
                *old(state),
                seq![plain("Mediator saved — it takes effect once messaging starts."@)],
            ),
        },
{
    match outcome {
        SettingsOutcome::Continue => DegradedStep::Continue,
        SettingsOutcome::ExitUserInt => DegradedStep::Exit(Interrupted::UserInt),
        SettingsOutcome::ReconnectMediator => {
            state.main_page.log(
                "Mediator saved — it takes effect once messaging starts.".to_owned(),
            );
            DegradedStep::Continue
        },
    }
}

/// Notes whether the minted DID is on the clipboard.
pub fn note_copied(state: &mut State, copied: bool)
    ensures
        *final(state) == match old(state).main_page.create_persona {
            Some(overlay) => old(state).with_create_persona(
                Some(crate::content::CreatePersonaState { copied, ..overlay }),
            ),
            None => *old(state),
        },
{
    if let Some(overlay) = state.main_page.create_persona.as_mut() {
        overlay.copied = copied;
    }
}

/// Whether the loop has an answer of its own to an action.
pub open spec fn answers_to(action: Action) -> bool {
    ||| vault_row(action) is Some
    ||| action is Exit
    ||| action is UXError
    ||| action is DeleteCommunity
    ||| action is StartJoin
    ||| action is CreatePersonaSubmit
    ||| action is CreatePersonaCopy
    ||| action is StartAgentNameManager
    ||| action is AgentNameManagerClaim
    ||| action is AgentNameManagerToggle
    ||| action is AgentNameManagerRemove
    ||| action is Settings
    ||| action is DeleteDid
    ||| action is VicRefresh
    ||| action is VicToggleInactive
    ||| action is AddVicSubmit
}

/// No action is passed over: it moves around, or is answered, or is turned down
/// for want of a community, or belongs to a loop of its own; and never to two of
/// these.
pub proof fn every_action_has_one_answer(action: Action)
    ensures
        is_navigation(action) || answers_to(action) || needs_community(action)
            || belongs_elsewhere(action),
        !(is_navigation(action) && answers_to(action)),
        !(is_navigation(action) && needs_community(action)),
        !(is_navigation(action) && belongs_elsewhere(action)),
        !(answers_to(action) && needs_community(action)),
        !(answers_to(action) && belongs_elsewhere(action)),
        !(needs_community(action) && belongs_elsewhere(action)),
{
}

/// An action that only needs a community never starts anything: it is answered
/// in the log and nothing else changes.
pub proof fn what_needs_a_community_is_said(
    pre: State,
    busy: Set<DispatchDomain>,
    means: Means,
    action: Action,
    post: State,
    post_busy: Set<DispatchDomain>,
    step: DegradedStep,
)
    requires
        needs_community(action),
        serves(pre, busy, means, action, post, post_busy, step),
    ensures
        step == DegradedStep::Continue,
        post_busy == busy,
        post.logged(pre, seq![plain("Not available yet — join a community first."@)]),
{
    every_action_has_one_answer(action);
}

/// The loop ends exactly when it is asked to or the screen failed, for that
/// reason; and no action makes it hand over.
pub proof fn the_loop_ends_when_asked(
    state: &mut State,
    in_flight: &mut InFlight,
    means: Means,
    action: Action,
    step: DegradedStep,
)
    requires
        call_ensures(degraded_action, (state, in_flight, means, action), step),
    ensures
        step is Exit <==> action is Exit || action is UXError,
        action is Exit ==> step == DegradedStep::Exit(Interrupted::UserInt),
        action matches Action::UXError(reason) ==> step == DegradedStep::Exit(reason),
        !(step is HandOff),
        action is Exit || action is UXError ==> *final(state) == *old(state) && final(in_flight)@
            == old(in_flight)@,
        final(state).connection == old(state).connection,
        final(state).selected_community == old(state).selected_community,
{
    every_action_has_one_answer(action);
}

/// Moving around works as it does everywhere, starts nothing and leads nowhere
/// else.
pub proof fn moving_around_works_the_same(
    state: &mut State,
    in_flight: &mut InFlight,
    means: Means,
    action: Action,
    step: DegradedStep,
)
    requires
        call_ensures(degraded_action, (state, in_flight, means, action), step),
        is_navigation(action),
    ensures
        step is Continue,
        final(in_flight)@ == old(in_flight)@,
        navigates(*old(state), action, *final(state)),
{
}

/// Whatever works only in a community is answered with a line in the log, and
/// nothing else happens.
pub proof fn what_waits_for_a_community_is_told(
    state: &mut State,
    in_flight: &mut InFlight,
    means: Means,
    action: Action,
    step: DegradedStep,
)
    requires
        call_ensures(degraded_action, (state, in_flight, means, action), step),
        action is Inbox || action is Relationship || action is Credential
            || action is IssueMemberVmc || action is CapabilitiesOpen
            || action is RequestPersonhoodChallenge || action is AssertPersonhood
            || action is CapabilitiesRefresh || action is CapabilitiesToggleCommit
            || action is SetActiveCommunity || action is ToggleFavourite
            || action is AcknowledgeCommunity || action is LeaveCommunity
            || action is WithdrawJoin || action is ArchiveCommunity
            || action is ToggleShowArchived || action is OpenCommunitySwitcher
            || action is CommunitySwitcherSelect,
    ensures
        step is Continue,
        final(in_flight)@ == old(in_flight)@,
        final(state).main_page.lines().len() == old(state).main_page.lines().len() + 1,
        final(state).main_page.lines().last().summary
            == "Not available yet — join a community first."@,
        final(state).main_page.content_panel == old(state).main_page.content_panel,
{
}

/// Removing a membership, joining and the settings need the account and go on
/// with the very row that was asked about; without it nothing starts, and only
/// joining says why. Managing names opens for the row that was asked about.
pub proof fn the_account_is_needed_for_its_own(
    state: &mut State,
    in_flight: &mut InFlight,
    means: Means,
    action: Action,
    step: DegradedStep,
    i: usize,
)
    requires
        call_ensures(degraded_action, (state, in_flight, means, action), step),
    ensures
        action == Action::DeleteCommunity(i) && means.config is Some ==> step
            == DegradedStep::RemoveCommunity(i),
        action is DeleteCommunity && means.config is None ==> step is Continue,
        action is StartJoin && means.config is Some ==> step is Join && *final(state) == *old(state),
        action is StartJoin && means.config is None ==> step is Continue
            && final(state).main_page.lines().len() == old(state).main_page.lines().len() + 1
            && final(state).main_page.lines().last().summary
            == "Cannot join: no active VTA session."@,
        action is Settings && means.config is Some ==> step is Settings,
        action is Settings && means.config is None ==> step is Continue,
        action == Action::StartAgentNameManager(i) ==> step == DegradedStep::OpenAgentNames(i),
        action is DeleteCommunity || action is Settings || action is StartAgentNameManager
            ==> *final(state) == *old(state),
        action is DeleteCommunity || action is StartJoin || action is Settings
            || action is StartAgentNameManager ==> final(in_flight)@ == old(in_flight)@,
        step is RemoveCommunity ==> action is DeleteCommunity,
        step is Join ==> action is StartJoin,
        step is Settings ==> action is Settings,
        step is OpenAgentNames ==> action is StartAgentNameManager,
{
    every_action_has_one_answer(action);
}

/// A mint starts exactly with the account, a session, a label and no other mint
/// running, under the label that is typed. Otherwise it does not start, and for
/// want of the account the overlay fails as it does for want of a session.
pub proof fn a_mint_needs_account_session_and_label(
    state: &mut State,
    in_flight: &mut InFlight,
    means: Means,
    action: Action,
    step: DegradedStep,
)
    requires
        call_ensures(degraded_action, (state, in_flight, means, action), step),
        action is CreatePersonaSubmit,
    ensures
        step is Mint <==> means.config is Some && means.session && !old(in_flight)@.contains(
            DispatchDomain::Persona,
        ) && (old(state).main_page.create_persona matches Some(overlay) && overlay.phase is Label
            && crate::text::trimmed(crate::outside::input_text(overlay.label)).len() > 0),
        step matches DegradedStep::Mint(label) ==> (
        old(state).main_page.create_persona matches Some(overlay) && label@ == crate::text::trimmed(
            crate::outside::input_text(overlay.label),
        )) && (final(state).main_page.create_persona matches Some(after) && after.phase is Working)
            && final(in_flight)@.contains(DispatchDomain::Persona),
        !(step is Mint) ==> step is Continue && final(in_flight)@ == old(in_flight)@,
        means.config is None ==> (old(state).main_page.create_persona matches Some(overlay) ==> (
        final(state).main_page.create_persona matches Some(after) && after.phase is Failed
            && after.messages@.len() == 1 && after.messages@[0]@
            == "VTA session unavailable — cannot create a persona right now."@ && after.label
            == overlay.label)),
        final(state).main_page.log == old(state).main_page.log,
{
    if means.config is None {
        if let Some(overlay) = old(state).main_page.create_persona {
            let after = final(state).main_page.create_persona->0;
            assert(texts(after.messages@).len() == after.messages@.len());
            assert(texts(after.messages@)[0] == after.messages@[0]@);
        }
    }
}

/// An identity is deleted exactly with the account and messaging, while no other
/// deletion runs, where its row is there and no membership shows it: the one in
/// the row that was asked about. Then a deletion runs; otherwise none more does.
pub proof fn the_identity_in_the_row_is_deleted(
    state: &mut State,
    in_flight: &mut InFlight,
    means: Means,
    action: Action,
    step: DegradedStep,
    i: usize,
)
    requires
        call_ensures(degraded_action, (state, in_flight, means, action), step),
        action == Action::DeleteDid(i),
    ensures
        ({
            let rows = old(state).main_page.content_panel.vta.context_dids@;
            &&& step matches DegradedStep::DeleteDid(job) ==> i < rows.len() && job.did@
                == rows[i as int].did@ && means.messaging && !old(in_flight)@.contains(
                DispatchDomain::Did,
            ) && final(in_flight)@.contains(DispatchDomain::Did) && (
            means.config matches Some(config) && exists|p: int|
                0 <= p < config.account.personas@.len() && (
                #[trigger] config.account.personas@[p]).did@ == rows[i as int].did@
                    && config.account.personas@[p].persona_id == job.persona_id
                    && config.account.personas@[p].key_ids@ == job.key_ids@)
            &&& !(step is DeleteDid) ==> step is Continue && final(in_flight)@ == old(in_flight)@
            &&& means.config matches Some(config) ==> (means.messaging && !old(in_flight)@.contains(
                DispatchDomain::Did,
            ) ==> (step is DeleteDid <==> deletion_request(
                old(state).main_page.content_panel.vta,
                *config,
                i,
            ) is Starts))
            &&& means.config is None || !means.messaging
                ==> final(state).main_page.lines().last().summary
                == "Cannot remove an identity right now — no VTA session."@
                    && final(state).main_page.content_panel.vta.confirm_delete_did is None
            &&& means.config is Some && means.messaging && old(in_flight)@.contains(
                DispatchDomain::Did,
            ) ==> final(state).main_page.lines().last().summary == "Identity deletion"@
                + " already in progress — please wait."@
        }),
        final(state).main_page.content_panel.vta.context_dids
            == old(state).main_page.content_panel.vta.context_dids,
{
    if let Some(config) = means.config {
        let rows = old(state).main_page.content_panel.vta.context_dids@;
        if i < rows.len() {
            crate::config::the_first_persona_with_a_did_is_found(
                config.account.personas@,
                rows[i as int].did@,
                0,
            );
        }
    }
}

/// The vault is listed exactly with a session and while it is free, with what is
/// inactive exactly where that is shown: as it was, or as it is once turned over.
/// While the vault is busy the listing is put off.
pub proof fn the_vault_is_listed_as_shown(
    state: &mut State,
    in_flight: &mut InFlight,
    means: Means,
    action: Action,
    step: DegradedStep,
)
    requires
        call_ensures(degraded_action, (state, in_flight, means, action), step),
        action is VicRefresh || action is VicToggleInactive,
    ensures
        ({
            let before = old(state).main_page.content_panel.vta;
            let after = final(state).main_page.content_panel.vta;
            let free = !old(in_flight)@.contains(DispatchDomain::Vic);
            &&& after.vic_show_inactive == (if action is VicRefresh {
                before.vic_show_inactive
            } else {
                !before.vic_show_inactive
            })
            &&& means.session && free ==> step == DegradedStep::ListVault(after.vic_show_inactive)
                && after.vic_loading && final(in_flight)@.contains(DispatchDomain::Vic)
            &&& !(means.session && free) ==> step is Continue && final(in_flight)@ == old(in_flight)@
            &&& means.session && !free ==> after.vic_refresh_queued
            &&& !means.session ==> !after.vic_loading
            &&& after.vics == before.vics
        }),
        final(state).main_page.log == old(state).main_page.log,
{
}

/// An action on the vault is done to the invitation in its row, exactly where the
/// row is there, there is a session and the vault is free; it is the very thing
/// that was asked for. What was up for confirmation is settled in any case.
pub proof fn the_invitation_that_was_meant_is_changed(
    state: &mut State,
    in_flight: &mut InFlight,
    means: Means,
    action: Action,
    step: DegradedStep,
    i: usize,
)
    requires
        call_ensures(degraded_action, (state, in_flight, means, action), step),
        action == Action::VicArchive(i) || action == Action::VicUnarchive(i) || action
            == Action::VicRestore(i) || action == Action::DeleteVic(i) || action
            == Action::PurgeVic(i),
    ensures
        ({
            let rows = old(state).main_page.content_panel.vta.vics@;
            let free = !old(in_flight)@.contains(DispatchDomain::Vic);
            let id = rows[i as int].id;
            &&& step is ChangeVault <==> i < rows.len() && means.session && free
            &&& step matches DegradedStep::ChangeVault(verb) ==> {
                &&& action is VicArchive ==> verb == VicVerb::Archive(id)
                &&& action is VicUnarchive ==> verb == VicVerb::Unarchive(id)
                &&& action is VicRestore ==> verb == VicVerb::Restore(id)
                &&& action is DeleteVic ==> verb == VicVerb::Delete(id)
                &&& action is PurgeVic ==> verb == VicVerb::Purge(id)
                &&& final(in_flight)@.contains(DispatchDomain::Vic)
            }
            &&& !(step is ChangeVault) ==> step is Continue && final(in_flight)@ == old(in_flight)@
            &&& i < rows.len() && means.session && !free
                ==> final(state).main_page.lines().last().summary
                == "Invitation credential refresh"@
                + " already in progress — please wait."@
        }),
        final(state).main_page.content_panel.vta.confirm_delete_vic is None,
        final(state).main_page.content_panel.vta.confirm_purge_vic is None,
        final(state).main_page.content_panel.vta.vics == old(state).main_page.content_panel.vta.vics,
{
}

/// Names are worked on exactly while the overlay is ready: the typed one is
/// claimed, the selected one removed, or parked where it resolves and resumed
/// where it does not; each for the overlay's own persona.
pub proof fn the_name_that_was_meant_is_worked_on(
    state: &mut State,
    in_flight: &mut InFlight,
    means: Means,
    action: Action,
    step: DegradedStep,
    overlay: crate::content::AgentNameManagerState,
)
    requires
        call_ensures(degraded_action, (state, in_flight, means, action), step),
        action is AgentNameManagerClaim || action is AgentNameManagerToggle
            || action is AgentNameManagerRemove,
        old(state).main_page.agent_names == Some(overlay),
    ensures
        ({
            let typed = crate::text::trimmed(crate::outside::input_text(overlay.input));
            let on_list = overlay.phase is Ready && overlay.selected < overlay.names@.len();
            let row = overlay.names@[overlay.selected as int];
            &&& action is AgentNameManagerClaim ==> (step is AgentNames <==> overlay.phase is Ready
                && typed.len() > 0)
            &&& !(action is AgentNameManagerClaim) ==> (step is AgentNames <==> on_list)
            &&& step matches DegradedStep::AgentNames(did, verb) ==> {
                &&& did@ == overlay.persona_did@
                &&& action is AgentNameManagerClaim ==> (verb matches Verb::Claim(name) && name@
                    == typed)
                &&& action is AgentNameManagerRemove ==> verb == Verb::Remove(row.name)
                &&& action is AgentNameManagerToggle && row.enabled ==> verb == Verb::Park(row.name)
                &&& action is AgentNameManagerToggle && !row.enabled ==> verb == Verb::Resume(
                    row.name,
                )
            }
            &&& !(step is AgentNames) ==> step is Continue
        }),
        final(in_flight)@ == old(in_flight)@,
        final(state).main_page.log == old(state).main_page.log,
{
}

/// What was pasted goes on to be checked exactly where it is JSON and the overlay
/// waits for it; the DID to copy is the one the persona overlay shows.
pub proof fn pasting_and_copying_take_what_is_shown(
    state: &mut State,
    in_flight: &mut InFlight,
    means: Means,
    action: Action,
    step: DegradedStep,
)
    requires
        call_ensures(degraded_action, (state, in_flight, means, action), step),
        action is AddVicSubmit || action is CreatePersonaCopy,
    ensures
        action is AddVicSubmit ==> {
            &&& step matches DegradedStep::CheckInvitation(vic) ==> (
            old(state).main_page.add_vic matches Some(overlay) && overlay.phase is Input
                && crate::outside::json_parsed(
                crate::text::trimmed(crate::outside::input_text(overlay.input)),
            ) == Ok::<Value, serde_json::Error>(vic))
            &&& old(state).main_page.add_vic matches Some(overlay) ==> (overlay.phase is Input
                && crate::text::trimmed(crate::outside::input_text(overlay.input)).len() > 0
                && crate::outside::json_parsed(
                crate::text::trimmed(crate::outside::input_text(overlay.input)),
            ) is Ok ==> step is CheckInvitation)
            &&& step is CheckInvitation || step is Continue
        },
        action is CreatePersonaCopy ==> {
            &&& *final(state) == *old(state)
            &&& step is CopyDid <==> (old(state).main_page.create_persona matches Some(overlay)
                && overlay.did is Some)
            &&& step matches DegradedStep::CopyDid(did) ==> (
            old(state).main_page.create_persona matches Some(overlay) && overlay.did == Some(did))
        },
        final(in_flight)@ == old(in_flight)@,
{
}

/// An action that belongs to joining or setting up is none of this loop's.
pub proof fn what_belongs_elsewhere_is_left_alone(
    state: &mut State,
    in_flight: &mut InFlight,
    means: Means,
    action: Action,
    step: DegradedStep,
)
    requires
        call_ensures(degraded_action, (state, in_flight, means, action), step),
        belongs_elsewhere(action),
    ensures
        step is Continue,
        *final(state) == *old(state),
        final(in_flight)@ == old(in_flight)@,
{
    every_action_has_one_answer(action);
}

/// An outcome that nobody waits for any more still gives its work free, and only
/// its own.
pub proof fn a_dropped_outcome_frees_its_work(
    in_flight: &mut InFlight,
    outcome: &DispatchOutcome,
    other: DispatchDomain,
)
    requires
        call_ensures(drop_outcome, (in_flight, outcome), ()),
    ensures
        !final(in_flight)@.contains(outcome.of()),
        other != outcome.of() ==> final(in_flight)@.contains(other) == old(in_flight)@.contains(
            other,
        ),
{
}

/// After joining the loop goes on exactly where it may: it hands over as soon as a
/// listener is up or a community was joined by a persona that there is, and ends
/// only where that was asked for. The user is back on the main page, and a
/// breakdown is said.
pub proof fn joining_hands_over_or_comes_back(
    state: &mut State,
    exit: JoinExit,
    has_identity: bool,
    holds_listener: bool,
    step: DegradedStep,
)
    requires
        call_ensures(after_join, (state, exit, has_identity, holds_listener), step),
    ensures
        step is Exit <==> exit is Exit,
        exit matches JoinExit::Exit(reason) ==> step == DegradedStep::Exit(reason) && *final(state)
            == *old(state),
        step is HandOff <==> !(exit is Exit) && (holds_listener || (exit == JoinExit::Returned(true)
            && has_identity)),
        step is Continue <==> !(step is Exit) && !(step is HandOff),
        !(exit is Exit) ==> final(state).active_page is Main,
        exit matches JoinExit::Failed(reason)
            ==> final(state).main_page.lines().len() > old(state).main_page.lines().len()
            && final(state).main_page.lines()[old(state).main_page.lines().len() as int].summary
            == "Join flow failed"@ + ": "@ + reason@,
        step is HandOff ==> final(state).main_page.lines().last().summary == (if exit
            == JoinExit::Returned(true) && has_identity {
            "Joined — starting secure messaging…"@
        } else {
            "Starting secure messaging…"@
        }),
        exit is Returned && step is Continue ==> final(state).main_page == old(state).main_page,
        final(state).connection == old(state).connection,
{
}

/// The loop ends after a settings action exactly where the user asked to leave; a
/// new mediator is said to be for later, and anything else changes nothing.
pub proof fn a_new_mediator_is_for_later(
    state: &mut State,
    outcome: SettingsOutcome,
    step: DegradedStep,
)
    requires
        call_ensures(after_settings, (state, outcome), step),
    ensures
        step == DegradedStep::Exit(Interrupted::UserInt) <==> outcome is ExitUserInt,
        step is Continue <==> !(outcome is ExitUserInt),
        !(outcome is ReconnectMediator) ==> *final(state) == *old(state),
        outcome is ReconnectMediator ==> final(state).main_page.lines().len()
            == old(state).main_page.lines().len() + 1
            && final(state).main_page.lines().last().summary
            == "Mediator saved — it takes effect once messaging starts."@,
{
}

/// The persona overlay notes whether its DID is on the clipboard, and nothing
/// else changes.
pub proof fn a_copy_is_noted(state: &mut State, copied: bool)
    requires
        call_ensures(note_copied, (state, copied), ()),
    ensures
        old(state).main_page.create_persona is None ==> *final(state) == *old(state),
        old(state).main_page.create_persona matches Some(before) ==> (
        final(state).main_page.create_persona matches Some(after) && after.copied == copied
            && after.did == before.did && after.phase == before.phase && after.messages
            == before.messages),
        final(state).main_page.log == old(state).main_page.log,
        final(state).main_page.content_panel == old(state).main_page.content_panel,
{
}

} // verus!
