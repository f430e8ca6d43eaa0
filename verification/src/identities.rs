//! The account's identities: deleting one, and speaking as one.

use vstd::prelude::*;
use crate::communities_panel::community_ending;
use crate::config::{memberships_of, persona_with, Config};
use crate::content::VtaState;
use crate::identity::PersonaId;
use crate::state::{plain, LogLine, State};
use crate::text::{copy_texts, count_text, decimal};

verus! {

/// What has to be deleted with an identity.
#[derive(Clone, Debug)]
pub struct DidDeletion {
    pub did: String,
    pub persona_id: PersonaId,
    /// The keys that belong to it.
    pub key_ids: Vec<String>,
}

/// What asking for an identity to be deleted comes to.
pub enum DeletionRequest {
    /// There is no such row.
    NoRow,
    /// The account has no persona with the DID.
    NotFound,
    /// So many communities still see the persona.
    Bound(nat),
    /// The identity goes.
    Starts,
}

/// What asking for the identity in row `index` to be deleted comes to. An
/// identity that a community still sees stays.
pub open spec fn deletion_request(
    vta: VtaState,
    config: Config,
    index: usize,
) -> DeletionRequest {
    if index >= vta.context_dids@.len() {
        DeletionRequest::NoRow
    } else {
        match persona_with(config.account.personas@, vta.context_dids@[index as int].did@, 0) {
            None => DeletionRequest::NotFound,
            Some(persona) => {
                let bound = memberships_of(config.account.memberships@, persona.persona_id);
                if bound > 0 {
                    DeletionRequest::Bound(bound)
                } else {
                    DeletionRequest::Starts
                }
            },
        }
    }
}

/// What the log says of a request.
pub open spec fn deletion_lines(request: DeletionRequest, did: Seq<char>) -> Seq<LogLine> {
    match request {
        DeletionRequest::NoRow => Seq::empty(),
        DeletionRequest::NotFound => seq![plain("DID not found — nothing removed."@)],
        DeletionRequest::Bound(n) => seq![
            plain(
                "Can't delete — "@ + decimal(n) + " communit"@ + community_ending(n)
                    + " still use this identity; leave them first."@,
            ),
        ],
        DeletionRequest::Starts => seq![plain("Removing identity "@ + did + "…"@)],
    }
}

fn disarm(vta: &mut VtaState)
    ensures
        *final(vta) == (VtaState { confirm_delete_did: None, ..*old(vta) }),
{
    vta.confirm_delete_did = None;
}

/// Prepares the deletion of the identity in row `index`, and returns what to
/// delete. Whatever the answer, nothing awaits confirmation any longer.
pub fn prepare_delete_context_did(state: &mut State, config: &Config, index: usize) -> (job: Option<
    DidDeletion,
>)
    ensures
        ({
            let vta = old(state).main_page.content_panel.vta;
            let request = deletion_request(vta, *config, index);
            let row = vta.context_dids@[index as int];
            let disarmed = old(state).with_vta(VtaState { confirm_delete_did: None, ..vta });
            &&& final(state).logged(disarmed, deletion_lines(request, row.did@))
            &&& match request {
                DeletionRequest::Starts => job matches Some(j) && j.did == row.did && {
                    let persona = persona_with(config.account.personas@, row.did@, 0)->0;
                    j.persona_id == persona.persona_id && j.key_ids@ == persona.key_ids@
                },
                _ => job is None,
            }
        }),
{
    disarm(&mut state.main_page.content_panel.vta);
    if index >= state.main_page.content_panel.vta.context_dids.len() {
        proof {
            assert(state.main_page.lines() =~= state.main_page.lines() + Seq::<LogLine>::empty());
        }
        return None;
    }
    let did = state.main_page.content_panel.vta.context_dids[index].did.clone();
    let persona = match config.account.persona_for_did(did.as_str()) {
        Some(persona) => persona,
        None => {
            state.main_page.log("DID not found — nothing removed.".to_owned());
            return None;
        },
    };
    let bound = config.account.bound_to(persona.persona_id);
    if bound > 0 {
        let mut line = "Can't delete — ".to_owned();
        let count = count_text(bound);
        line.append(count.as_str());
        line.append(" communit");
        line.append(
            if bound == 1 {
                "y"
            } else {
                "ies"
            },
        );
        line.append(" still use this identity; leave them first.");
        state.main_page.log(line);
        return None;
    }
    let mut line = "Removing identity ".to_owned();
    line.append(did.as_str());
    line.append("…");
    state.main_page.log(line);
    Some(
        DidDeletion {
            did,
            persona_id: persona.persona_id,
            key_ids: copy_texts(&persona.key_ids),
        },
    )
}

/// What is said where an identity cannot be deleted for want of a session.
pub open spec fn cannot_delete_words() -> Seq<char> {
    "Cannot remove an identity right now — no VTA session."@
}

/// Turns a deletion down for want of a session, rather than leave its
/// confirmation standing.
pub fn refuse_delete_did(state: &mut State)
    ensures
        final(state).logged(
            old(state).with_vta(
                (VtaState {
                    confirm_delete_did: None,
                    ..old(state).main_page.content_panel.vta
                }),
            ),
            seq![plain(cannot_delete_words())],
        ),
{
    disarm(&mut state.main_page.content_panel.vta);
    state.main_page.log("Cannot remove an identity right now — no VTA session.".to_owned());
}

/// The DID a persona sends as, and the mediator it is sent through; empty where
/// the persona has none. Nothing where the persona did not load or there is no
/// transport.
pub fn capability_sender(config: &Config, persona_id: PersonaId, has_transport: bool) -> (sender:
    Option<(String, String)>)
    ensures
        match config.identity(persona_id) {
            Some(identity) => if has_transport {
                sender matches Some((did, mediator)) && did == identity.did && mediator@ == (
                match identity.mediator_did {
                    Some(m) => m@,
                    None => Seq::<char>::empty(),
                })
            } else {
                sender is None
            },
            None => sender is None,
        },
{
    match config.identity_for(persona_id) {
        Some(identity) => if has_transport {
            let mediator = match &identity.mediator_did {
                Some(m) => m.clone(),
                None => String::new(),
            };
            Some((identity.did.clone(), mediator))
        } else {
            None
        },
        None => None,
    }
}

/// An identity that a community still sees is never deleted.
pub proof fn bound_identities_stay(vta: VtaState, config: Config, index: usize, i: int)
    requires
        index < vta.context_dids@.len(),
        persona_with(
            config.account.personas@,
            vta.context_dids@[index as int].did@,
            0,
        ) matches Some(persona) && 0 <= i < config.account.memberships@.len()
            && config.account.memberships@[i].persona_ref == persona.persona_id,
    ensures
        !(deletion_request(vta, config, index) is Starts),
{
    let persona = persona_with(
        config.account.personas@,
        vta.context_dids@[index as int].did@,
        0,
    )->0;
    a_membership_counts(config.account.memberships@, persona.persona_id, i);
}

proof fn a_membership_counts(
    memberships: Seq<crate::config::CommunityRecord>,
    id: PersonaId,
    i: int,
)
    requires
        0 <= i < memberships.len(),
        memberships[i].persona_ref == id,
    ensures
        memberships_of(memberships, id) > 0,
    decreases memberships.len(),
{
    if i < memberships.len() - 1 {
        a_membership_counts(memberships.drop_last(), id, i);
    }
}

/// An identity is deleted exactly where its row is there, the account has a
/// persona with its DID and no membership shows that persona: that DID, that
/// persona and all of its keys. Whatever the answer, no deletion is up for
/// confirmation afterwards.
pub proof fn only_a_free_identity_is_deleted(
    state: &mut State,
    config: &Config,
    index: usize,
    job: Option<DidDeletion>,
)
    requires
        call_ensures(prepare_delete_context_did, (state, config, index), job),
    ensures
        ({
            let rows = old(state).main_page.content_panel.vta.context_dids@;
            let personas = config.account.personas@;
            let memberships = config.account.memberships@;
            &&& job matches Some(what) ==> index < rows.len() && what.did@ == rows[index as int].did@
                && (forall|i: int|
                0 <= i < memberships.len() ==> (#[trigger] memberships[i]).persona_ref
                    != what.persona_id) && exists|p: int|
                0 <= p < personas.len() && (#[trigger] personas[p]).did@ == rows[index as int].did@
                    && personas[p].persona_id == what.persona_id && personas[p].key_ids@
                    == what.key_ids@
            &&& job is None && index < rows.len() ==> (forall|p: int|
                0 <= p < personas.len() ==> (#[trigger] personas[p]).did@
                    != rows[index as int].did@) || exists|p: int, i: int|
                0 <= p < personas.len() && 0 <= i < memberships.len() && (
                #[trigger] personas[p]).did@ == rows[index as int].did@ && (
                #[trigger] memberships[i]).persona_ref == personas[p].persona_id
        }),
        final(state).main_page.content_panel.vta.confirm_delete_did is None,
        final(state).main_page.content_panel.vta.context_dids
            == old(state).main_page.content_panel.vta.context_dids,
        final(state).main_page.content_panel.communities
            == old(state).main_page.content_panel.communities,
        final(state).connection == old(state).connection,
{
    let rows = old(state).main_page.content_panel.vta.context_dids@;
    let personas = config.account.personas@;
    let memberships = config.account.memberships@;
    if index < rows.len() {
        let did = rows[index as int].did@;
        crate::config::the_first_persona_with_a_did_is_found(personas, did, 0);
        if let Some(persona) = persona_with(personas, did, 0) {
            if memberships_of(memberships, persona.persona_id) > 0 {
                a_count_has_a_membership(memberships, persona.persona_id);
                let i = choose|i: int|
                    0 <= i < memberships.len() && (#[trigger] memberships[i]).persona_ref
                        == persona.persona_id;
                let p = choose|p: int|
                    0 <= p < personas.len() && #[trigger] personas[p] == persona;
                assert(personas[p].did@ == did && memberships[i].persona_ref
                    == personas[p].persona_id);
            } else {
                assert forall|i: int| 0 <= i < memberships.len() implies (
                #[trigger] memberships[i]).persona_ref != persona.persona_id by {
                    if memberships[i].persona_ref == persona.persona_id {
                        a_membership_counts(memberships, persona.persona_id, i);
                    }
                }
            }
        }
    }
}

proof fn a_count_has_a_membership(
    memberships: Seq<crate::config::CommunityRecord>,
    id: PersonaId,
)
    requires
        memberships_of(memberships, id) > 0,
    ensures
        exists|i: int| 0 <= i < memberships.len() && (#[trigger] memberships[i]).persona_ref == id,
    decreases memberships.len(),
{
    let n = memberships.len() - 1;
    if memberships.last().persona_ref == id {
        assert(memberships[n].persona_ref == id);
    } else {
        let rest = memberships.drop_last();
        a_count_has_a_membership(rest, id);
        let i = choose|i: int| 0 <= i < rest.len() && (#[trigger] rest[i]).persona_ref == id;
        assert(memberships[i].persona_ref == id);
    }
}

/// The log answers every deletion that was asked for in a row that is there: that
/// it is under way, that there is no such identity, or how many communities still
/// see it.
pub proof fn a_deletion_is_answered(
    state: &mut State,
    config: &Config,
    index: usize,
    job: Option<DidDeletion>,
)
    requires
        call_ensures(prepare_delete_context_did, (state, config, index), job),
    ensures
        ({
            let rows = old(state).main_page.content_panel.vta.context_dids@;
            let before = old(state).main_page.lines();
            let after = final(state).main_page.lines();
            &&& index >= rows.len() ==> after == before && job is None
            &&& index < rows.len() ==> after.len() == before.len() + 1
            &&& job is Some ==> after.last().summary == "Removing identity "@
                + rows[index as int].did@ + "…"@
            &&& index < rows.len() && (forall|p: int|
                0 <= p < config.account.personas@.len() ==> (
                #[trigger] config.account.personas@[p]).did@ != rows[index as int].did@)
                ==> after.last().summary == "DID not found — nothing removed."@
            &&& index < rows.len() && job is None ==> (
            persona_with(config.account.personas@, rows[index as int].did@, 0) matches Some(persona)
                ==> {
                let n = memberships_of(config.account.memberships@, persona.persona_id);
                after.last().summary == "Can't delete — "@ + decimal(n) + " communit"@ + (if n == 1 {
                    "y"@
                } else {
                    "ies"@
                }) + " still use this identity; leave them first."@
            })
        }),
{
    let rows = old(state).main_page.content_panel.vta.context_dids@;
    if index < rows.len() {
        crate::config::the_first_persona_with_a_did_is_found(
            config.account.personas@,
            rows[index as int].did@,
            0,
        );
    } else {
        assert(final(state).main_page.lines() =~= old(state).main_page.lines());
    }
}

/// A deletion that is turned down for want of a session is said to be, and is no
/// longer up for confirmation; the identities stay.
pub proof fn a_refused_deletion_is_told(state: &mut State)
    requires
        call_ensures(refuse_delete_did, (state,), ()),
    ensures
        final(state).main_page.content_panel.vta.confirm_delete_did is None,
        final(state).main_page.content_panel.vta.context_dids
            == old(state).main_page.content_panel.vta.context_dids,
        final(state).main_page.lines().len() == old(state).main_page.lines().len() + 1,
        final(state).main_page.lines().last().summary
            == "Cannot remove an identity right now — no VTA session."@,
{
}

/// A persona can send exactly where it is loaded and there is a transport: as its
/// own DID, through its own mediator where it has one.
pub proof fn a_persona_sends_as_itself(
    config: &Config,
    persona: PersonaId,
    has_transport: bool,
    sender: Option<(String, String)>,
)
    requires
        call_ensures(capability_sender, (config, persona, has_transport), sender),
    ensures
        sender is Some <==> has_transport && exists|i: int|
            0 <= i < config.identities@.len() && (#[trigger] config.identities@[i]).persona_id
                == persona,
        sender matches Some(who) ==> exists|i: int|
            0 <= i < config.identities@.len() && (#[trigger] config.identities@[i]).persona_id
                == persona && who.0@ == config.identities@[i].did@ && who.1@ == (
            match config.identities@[i].mediator_did {
                Some(mediator) => mediator@,
                None => Seq::empty(),
            }),
{
    crate::config::the_first_identity_is_found(config.identities@, persona, 0);
}

} // verus!
