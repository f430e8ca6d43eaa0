//! Acting on memberships.

use vstd::prelude::*;
use crate::background_dispatch::{busy_words, DispatchDomain, InFlight};
use crate::config::CommunityRecord;
use crate::content::CommunitiesState;
use crate::identity::PersonaId;
use crate::save::SaveScheduler;
use crate::state::{MainPageState, State};
use crate::text::optional;

verus! {

fn say(communities: &mut CommunitiesState, words: String)
    ensures
        *final(communities) == (CommunitiesState {
            status_message: Some(words),
            ..*old(communities)
        }),
{
    communities.status_message = Some(words);
}

/// Whether `post` is `pre` with the communities panel saying something.
pub open spec fn panel_says(pre: State, post: State, words: Seq<char>) -> bool {
    let panel = post.main_page.content_panel.communities;
    &&& post == pre.with_communities(
        CommunitiesState {
            status_message: panel.status_message,
            ..pre.main_page.content_panel.communities
        },
    )
    &&& optional(panel.status_message) == Some(words)
}

/// Claims the sending of something to a community, and says whether to send.
/// While something is being sent the panel says so instead.
pub fn spawn_community_job(in_flight: &mut InFlight, state: &mut State) -> (start: bool)
    ensures
        start == !old(in_flight)@.contains(DispatchDomain::Community),
        final(in_flight)@ == old(in_flight)@.insert(DispatchDomain::Community),
        start ==> *final(state) == *old(state),
        !start ==> panel_says(*old(state), *final(state), busy_words(DispatchDomain::Community)),
{
    if in_flight.try_begin(DispatchDomain::Community) {
        true
    } else {
        say(
            &mut state.main_page.content_panel.communities,
            InFlight::busy_message(DispatchDomain::Community),
        );
        false
    }
}

fn disarm(communities: &mut CommunitiesState)
    ensures
        *final(communities) == (CommunitiesState { confirm_delete: None, ..*old(communities) }),
{
    communities.confirm_delete = None;
}

/// The membership in row `index` of the rows that are shown, for removing it.
/// Asking settles the confirmation; where there is no such row nothing happens.
pub fn begin_remove_community(
    state: &mut State,
    rows: &Vec<CommunityRecord>,
    index: usize,
) -> (target: Option<(String, PersonaId)>)
    ensures
        if index < rows@.len() {
            &&& target == Some((rows@[index as int].vtc_did, rows@[index as int].persona_ref))
            &&& *final(state) == old(state).with_communities(
                CommunitiesState {
                    confirm_delete: None,
                    ..old(state).main_page.content_panel.communities
                },
            )
        } else {
            target is None && *final(state) == *old(state)
        },
{
    if index < rows.len() {
        disarm(&mut state.main_page.content_panel.communities);
        Some((rows[index].vtc_did.clone(), rows[index].persona_ref))
    } else {
        None
    }
}

/// Settles the removal of a membership by what deleting its record came to. A
/// removal is stored and shown; a refusal says why.
pub fn finish_remove_community(
    state: &mut State,
    save: &mut SaveScheduler,
    deleted: Result<(), String>,
)
    ensures
        match deleted {
            Ok(_) => {
                &&& panel_says(
                    old(state).with_page(
                        MainPageState { sync_requested: true, ..old(state).main_page },
                    ),
                    *final(state),
                    "Community removed."@,
                )
                &&& *final(save) == SaveScheduler { dirty: true, ..*old(save) }
            },
            Err(reason) => {
                &&& panel_says(
                    *old(state),
                    *final(state),
                    "Could not remove community: "@ + reason@,
                )
                &&& *final(save) == *old(save)
            },
        },
{
    match deleted {
        Ok(_) => {
            save.mark_dirty();
            state.main_page.sync_requested = true;
            say(
                &mut state.main_page.content_panel.communities,
                "Community removed.".to_owned(),
            );
        },
        Err(reason) => {
            let mut words = "Could not remove community: ".to_owned();
            words.append(reason.as_str());
            say(&mut state.main_page.content_panel.communities, words);
        },
    }
}

/// Something is sent to a community exactly when nothing is being sent; otherwise
/// the panel says that something is, and nothing else changes.
pub proof fn community_requests_go_one_by_one(
    in_flight: &mut InFlight,
    state: &mut State,
    start: bool,
)
    requires
        call_ensures(spawn_community_job, (in_flight, state), start),
    ensures
        start <==> !old(in_flight)@.contains(DispatchDomain::Community),
        final(in_flight)@.contains(DispatchDomain::Community),
        start ==> *final(state) == *old(state),
        !start ==> (
        final(state).main_page.content_panel.communities.status_message matches Some(words)
            && words@ == "Community request"@ + " already in progress — please wait."@),
        final(state).main_page.content_panel.communities.items
            == old(state).main_page.content_panel.communities.items,
        final(state).main_page.log == old(state).main_page.log,
{
}

/// The membership to remove is the one in the row that was asked about, by its
/// community and persona; asking takes its confirmation down. A row that is not
/// there removes nothing and leaves everything as it was.
pub proof fn the_membership_in_the_row_is_removed(
    state: &mut State,
    rows: &Vec<CommunityRecord>,
    index: usize,
    target: Option<(String, PersonaId)>,
)
    requires
        call_ensures(begin_remove_community, (state, rows, index), target),
    ensures
        target is Some <==> index < rows@.len(),
        target matches Some(which) ==> which.0@ == rows@[index as int].vtc_did@ && which.1
            == rows@[index as int].persona_ref,
        target is Some ==> final(state).main_page.content_panel.communities.confirm_delete is None,
        target is None ==> *final(state) == *old(state),
        final(state).main_page.content_panel.communities.confirm_leave
            == old(state).main_page.content_panel.communities.confirm_leave,
        final(state).main_page.content_panel.communities.items
            == old(state).main_page.content_panel.communities.items,
        final(state).main_page.content_panel.communities.status_message
            == old(state).main_page.content_panel.communities.status_message,
        final(state).main_page.log == old(state).main_page.log,
{
}

/// A removal is said, stored and shown; a refusal is said with its reason, and
/// leaves nothing to store or to show anew that was not there before.
pub proof fn a_removal_is_stored_and_shown(
    state: &mut State,
    save: &mut SaveScheduler,
    deleted: Result<(), String>,
)
    requires
        call_ensures(finish_remove_community, (state, save, deleted), ()),
    ensures
        final(save).dirty <==> old(save).dirty || deleted is Ok,
        final(save).running == old(save).running,
        final(state).main_page.sync_requested <==> old(state).main_page.sync_requested
            || deleted is Ok,
        final(state).main_page.content_panel.communities.status_message matches Some(words)
            && words@ == (match deleted {
            Ok(_) => "Community removed."@,
            Err(reason) => "Could not remove community: "@ + reason@,
        }),
        final(state).main_page.content_panel.communities.items
            == old(state).main_page.content_panel.communities.items,
        final(state).connection == old(state).connection,
{
}

} // verus!
