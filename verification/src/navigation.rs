//! Moving around: the actions that change what is shown and nothing else.

use vstd::prelude::*;
use crate::actions::Action;
use crate::content::{
    AddVicPhase, AddVicState, AgentNameManagerPhase, AgentNameManagerState, CapabilitiesState,
    CapabilitiesView, CommunitiesState, CommunitySwitcherState, ContentPanelState, CreatePersonaPhase,
    CreatePersonaState, VtaFocus, VtaState,
};
use crate::outside::{input_after_key, input_holding, new_input, press_key};
use crate::state::{plain, ActivePage, MainPageState, MainPanel, MenuPanelState, State};

verus! {

/// The last index of a list, or the first where the list is empty.
pub open spec fn last_index(len: nat) -> int {
    if len == 0 {
        0
    } else {
        len - 1
    }
}

/// The smaller of two numbers.
pub open spec fn smaller(a: int, b: int) -> int {
    if a <= b {
        a
    } else {
        b
    }
}

/// What a key does to the capabilities view.
pub open spec fn view_after(view: CapabilitiesView, action: Action) -> CapabilitiesView {
    match action {
        Action::CapabilitiesUp => CapabilitiesView {
            selected: (if view.selected == 0 {
                0
            } else {
                view.selected - 1
            }) as usize,
            confirm_toggle: None,
            ..view
        },
        Action::CapabilitiesDown => CapabilitiesView {
            selected: (if view.selected + 1 < view.items@.len() {
                view.selected + 1
            } else {
                view.selected as int
            }) as usize,
            confirm_toggle: None,
            ..view
        },
        Action::CapabilitiesDetail => CapabilitiesView { detail: !view.detail, ..view },
        Action::CapabilitiesToggleArm => if view.items@.len() == 0 {
            view
        } else {
            CapabilitiesView { confirm_toggle: Some(view.selected), ..view }
        },
        Action::CapabilitiesToggleCancel => CapabilitiesView { confirm_toggle: None, ..view },
        _ => view,
    }
}

/// What an action does to the communities panel.
pub open spec fn communities_after(
    communities: CommunitiesState,
    action: Action,
) -> CommunitiesState {
    match action {
        Action::CommunitySelect(i) => CommunitiesState { selected_index: i, ..communities },
        Action::CommunityConfirmDelete(i) => CommunitiesState {
            confirm_delete: Some(i),
            ..communities
        },
        Action::CommunityCancelDelete => CommunitiesState { confirm_delete: None, ..communities },
        Action::CommunityConfirmLeave(i) => CommunitiesState {
            confirm_leave: Some(i),
            ..communities
        },
        Action::CommunityCancelLeave => CommunitiesState { confirm_leave: None, ..communities },
        Action::CommunityConfirmWithdraw(i) => CommunitiesState {
            confirm_withdraw: Some(i),
            ..communities
        },
        Action::CommunityCancelWithdraw => CommunitiesState {
            confirm_withdraw: None,
            ..communities
        },
        _ => communities,
    }
}

/// What an action does to the VTA panel. Deleting and purging an invitation are
/// never both on offer.
pub open spec fn vta_after(vta: VtaState, action: Action) -> VtaState {
    match action {
        Action::DidSelect(i) => VtaState { did_selected_index: i, ..vta },
        Action::DidConfirmDelete(i) => VtaState { confirm_delete_did: Some(i), ..vta },
        Action::DidCancelDelete => VtaState { confirm_delete_did: None, ..vta },
        Action::VicSelect(i) => VtaState { vic_selected_index: i, ..vta },
        Action::VicFocusToggle => VtaState {
            focus: match vta.focus {
                VtaFocus::Dids => VtaFocus::Vics,
                VtaFocus::Vics => VtaFocus::Dids,
            },
            ..vta
        },
        Action::VicConfirmDelete(i) => VtaState {
            confirm_delete_vic: Some(i),
            confirm_purge_vic: None,
            ..vta
        },
        Action::VicCancelDelete => VtaState { confirm_delete_vic: None, ..vta },
        Action::VicConfirmPurge(i) => VtaState {
            confirm_purge_vic: Some(i),
            confirm_delete_vic: None,
            ..vta
        },
        Action::VicCancelPurge => VtaState { confirm_purge_vic: None, ..vta },
        _ => vta,
    }
}

/// What an action does to the open agent-name overlay.
pub open spec fn agent_names_after(
    overlay: AgentNameManagerState,
    action: Action,
) -> AgentNameManagerState {
    match action {
        Action::AgentNameManagerInput(key) => if overlay.phase == AgentNameManagerPhase::Ready {
            AgentNameManagerState { input: input_after_key(overlay.input, key), ..overlay }
        } else {
            overlay
        },
        Action::AgentNameManagerSelect(down) => if overlay.names@.len() == 0 {
            overlay
        } else if down {
            AgentNameManagerState {
                selected: smaller(
                    overlay.selected + 1,
                    last_index(overlay.names@.len()),
                ) as usize,
                ..overlay
            }
        } else {
            AgentNameManagerState {
                selected: (if overlay.selected == 0 {
                    0
                } else {
                    overlay.selected - 1
                }) as usize,
                ..overlay
            }
        },
        Action::AgentNameManagerConfirmRemove => if overlay.phase == AgentNameManagerPhase::Ready
            && overlay.names@.len() > 0 {
            AgentNameManagerState { confirm_remove: Some(overlay.selected), ..overlay }
        } else {
            overlay
        },
        Action::AgentNameManagerCancelRemove => AgentNameManagerState {
            confirm_remove: None,
            ..overlay
        },
        _ => overlay,
    }
}

/// What an action does to the import overlay.
pub open spec fn add_vic_after(overlay: AddVicState, action: Action) -> AddVicState {
    if overlay.phase == AddVicPhase::Input {
        match action {
            Action::AddVicInput(key) => AddVicState {
                input: input_after_key(overlay.input, key),
                ..overlay
            },
            Action::AddVicPaste(text) => AddVicState { input: input_holding(text@), ..overlay },
            _ => overlay,
        }
    } else {
        overlay
    }
}

/// What an action does to the panels of the content side.
pub open spec fn content_after(content: ContentPanelState, action: Action) -> ContentPanelState {
    match action {
        Action::CapabilitiesClose => ContentPanelState {
            capabilities: CapabilitiesState { view: None },
            ..content
        },
        Action::CapabilitiesUp
        | Action::CapabilitiesDown
        | Action::CapabilitiesDetail
        | Action::CapabilitiesToggleArm
        | Action::CapabilitiesToggleCancel => match content.capabilities.view {
            Some(view) => ContentPanelState {
                capabilities: CapabilitiesState { view: Some(view_after(view, action)) },
                ..content
            },
            None => content,
        },
        _ => ContentPanelState {
            communities: communities_after(content.communities, action),
            vta: vta_after(content.vta, action),
            ..content
        },
    }
}

/// Whether an action moves around in the panels of the content side.
pub open spec fn is_content_navigation(action: Action) -> bool {
    match action {
        Action::CapabilitiesClose
        | Action::CapabilitiesUp
        | Action::CapabilitiesDown
        | Action::CapabilitiesDetail
        | Action::CapabilitiesToggleArm
        | Action::CapabilitiesToggleCancel
        | Action::CommunitySelect(_)
        | Action::CommunityConfirmDelete(_)
        | Action::CommunityCancelDelete
        | Action::CommunityConfirmLeave(_)
        | Action::CommunityCancelLeave
        | Action::CommunityConfirmWithdraw(_)
        | Action::CommunityCancelWithdraw
        | Action::DidSelect(_)
        | Action::DidConfirmDelete(_)
        | Action::DidCancelDelete
        | Action::VicSelect(_)
        | Action::VicFocusToggle
        | Action::VicConfirmDelete(_)
        | Action::VicCancelDelete
        | Action::VicConfirmPurge(_)
        | Action::VicCancelPurge => true,
        _ => false,
    }
}

/// Whether an action opens, closes or steers one of the overlays.
pub open spec fn is_overlay_navigation(action: Action) -> bool {
    match action {
        Action::CommunitySwitcherMove(_)
        | Action::CloseCommunitySwitcher
        | Action::StartAddVic
        | Action::AddVicInput(_)
        | Action::AddVicPaste(_)
        | Action::AddVicClose
        | Action::StartCreatePersona
        | Action::CreatePersonaInput(_)
        | Action::CreatePersonaClose
        | Action::AgentNameManagerInput(_)
        | Action::AgentNameManagerSelect(_)
        | Action::AgentNameManagerConfirmRemove
        | Action::AgentNameManagerCancelRemove
        | Action::AgentNameManagerClose => true,
        _ => false,
    }
}

/// Whether an action only moves around.
pub open spec fn is_navigation(action: Action) -> bool {
    ||| action is DismissLoading
    ||| action is MainMenuSelected
    ||| action is MainPanelSwitch
    ||| is_content_navigation(action)
    ||| is_overlay_navigation(action)
}

/// Whether `post` is what an action makes of the overlays of a page.
pub open spec fn overlays_after(page: MainPageState, action: Action, post: MainPageState) -> bool {
    match action {
        Action::CommunitySwitcherMove(i) => post == match page.switcher {
            Some(switcher) => MainPageState {
                switcher: Some(
                    CommunitySwitcherState {
                        selected: smaller(i as int, last_index(switcher.items@.len())) as usize,
                        ..switcher
                    },
                ),
                ..page
            },
            None => page,
        },
        Action::CloseCommunitySwitcher => post == (MainPageState { switcher: None, ..page }),
        Action::StartAddVic => {
            &&& post == MainPageState { add_vic: post.add_vic, ..page }
            &&& post.add_vic matches Some(overlay) && overlay.fresh()
        },
        Action::AddVicInput(_) | Action::AddVicPaste(_) => post == match page.add_vic {
            Some(overlay) => MainPageState {
                add_vic: Some(add_vic_after(overlay, action)),
                ..page
            },
            None => page,
        },
        Action::AddVicClose => post == (MainPageState { add_vic: None, ..page }),
        Action::StartCreatePersona => {
            &&& post == MainPageState { create_persona: post.create_persona, ..page }
            &&& post.create_persona matches Some(overlay) && overlay.fresh()
        },
        Action::CreatePersonaInput(key) => post == match page.create_persona {
            Some(overlay) => MainPageState {
                create_persona: Some(
                    if overlay.phase == CreatePersonaPhase::Label {
                        CreatePersonaState {
                            label: input_after_key(overlay.label, key),
                            ..overlay
                        }
                    } else {
                        overlay
                    },
                ),
                ..page
            },
            None => page,
        },
        Action::CreatePersonaClose => post == (MainPageState { create_persona: None, ..page }),
        Action::AgentNameManagerInput(_)
        | Action::AgentNameManagerSelect(_)
        | Action::AgentNameManagerConfirmRemove
        | Action::AgentNameManagerCancelRemove => post == match page.agent_names {
            Some(overlay) => MainPageState {
                agent_names: Some(agent_names_after(overlay, action)),
                ..page
            },
            None => page,
        },
        Action::AgentNameManagerClose => post == (MainPageState { agent_names: None, ..page }),
        _ => post == page,
    }
}

/// Whether `post` is what an action makes of a page.
pub open spec fn page_after(page: MainPageState, action: Action, post: MainPageState) -> bool {
    if action is MainMenuSelected {
        post == MainPageState {
            menu_panel: MenuPanelState {
                selected_menu: action->MainMenuSelected_0,
                ..page.menu_panel
            },
            ..page
        }
    } else if action is MainPanelSwitch {
        let panel = action->MainPanelSwitch_0;
        post == MainPageState {
            menu_panel: MenuPanelState {
                selected: panel == MainPanel::MainMenu,
                ..page.menu_panel
            },
            content_panel: ContentPanelState {
                selected: panel == MainPanel::ContentPanel,
                ..page.content_panel
            },
            ..page
        }
    } else if is_content_navigation(action) {
        post == MainPageState { content_panel: content_after(page.content_panel, action), ..page }
    } else {
        overlays_after(page, action, post)
    }
}

/// Whether `post` is the state that an action leads to from `pre`. What does not
/// only move around changes nothing.
pub open spec fn navigates(pre: State, action: Action, post: State) -> bool {
    if action is DismissLoading {
        let shown = State { active_page: ActivePage::Main, integrity: None, ..pre };
        match pre.integrity {
            // Leaving the page is how the user acknowledges what was found.
            Some(found) => post.logged(shown, seq![plain("Acknowledged: "@ + found.headline@)]),
            None => post == shown,
        }
    } else {
        &&& post == pre.with_page(post.main_page)
        &&& page_after(pre.main_page, action, post.main_page)
    }
}

fn steer_view(view: &mut CapabilitiesView, action: &Action)
    ensures
        *final(view) == view_after(*old(view), *action),
{
    match action {
        Action::CapabilitiesUp => {
            view.selected = if view.selected == 0 {
                0
            } else {
                view.selected - 1
            };
            view.confirm_toggle = None;
        },
        Action::CapabilitiesDown => {
            if view.items.len() > 0 && view.selected < view.items.len() - 1 {
                view.selected = view.selected + 1;
            }
            view.confirm_toggle = None;
        },
        Action::CapabilitiesDetail => {
            view.detail = !view.detail;
        },
        Action::CapabilitiesToggleArm => {
            if view.items.len() > 0 {
                view.confirm_toggle = Some(view.selected);
            }
        },
        Action::CapabilitiesToggleCancel => {
            view.confirm_toggle = None;
        },
        _ => {},
    }
}

fn steer_communities(communities: &mut CommunitiesState, action: &Action)
    ensures
        *final(communities) == communities_after(*old(communities), *action),
{
    match action {
        Action::CommunitySelect(i) => {
            communities.selected_index = *i;
        },
        Action::CommunityConfirmDelete(i) => {
            communities.confirm_delete = Some(*i);
        },
        Action::CommunityCancelDelete => {
            communities.confirm_delete = None;
        },
        Action::CommunityConfirmLeave(i) => {
            communities.confirm_leave = Some(*i);
        },
        Action::CommunityCancelLeave => {
            communities.confirm_leave = None;
        },
        Action::CommunityConfirmWithdraw(i) => {
            communities.confirm_withdraw = Some(*i);
        },
        Action::CommunityCancelWithdraw => {
            communities.confirm_withdraw = None;
        },
        _ => {},
    }
}

fn steer_vta(vta: &mut VtaState, action: &Action)
    ensures
        *final(vta) == vta_after(*old(vta), *action),
{
    match action {
        Action::DidSelect(i) => {
            vta.did_selected_index = *i;
        },
        Action::DidConfirmDelete(i) => {
            vta.confirm_delete_did = Some(*i);
        },
        Action::DidCancelDelete => {
            vta.confirm_delete_did = None;
        },
        Action::VicSelect(i) => {
            vta.vic_selected_index = *i;
        },
        Action::VicFocusToggle => {
            vta.focus = match vta.focus {
                VtaFocus::Dids => VtaFocus::Vics,
                VtaFocus::Vics => VtaFocus::Dids,
            };
        },
        Action::VicConfirmDelete(i) => {
            vta.confirm_delete_vic = Some(*i);
            vta.confirm_purge_vic = None;
        },
        Action::VicCancelDelete => {
            vta.confirm_delete_vic = None;
        },
        Action::VicConfirmPurge(i) => {
            vta.confirm_purge_vic = Some(*i);
            vta.confirm_delete_vic = None;
        },
        Action::VicCancelPurge => {
            vta.confirm_purge_vic = None;
        },
        _ => {},
    }
}

fn steer_agent_names(overlay: &mut AgentNameManagerState, action: &Action)
    ensures
        *final(overlay) == agent_names_after(*old(overlay), *action),
{
    match action {
        Action::AgentNameManagerInput(key) => {
            if overlay.phase == AgentNameManagerPhase::Ready {
                press_key(&mut overlay.input, *key);
            }
        },
        Action::AgentNameManagerSelect(down) => {
            if overlay.names.len() > 0 {
                let last: usize = overlay.names.len() - 1;
                if *down {
                    overlay.selected = if overlay.selected < last {
                        overlay.selected + 1
                    } else {
                        last
                    };
                } else {
                    overlay.selected = if overlay.selected == 0 {
                        0
                    } else {
                        overlay.selected - 1
                    };
                }
            }
        },
        Action::AgentNameManagerConfirmRemove => {
            if overlay.phase == AgentNameManagerPhase::Ready && overlay.names.len() > 0 {
                overlay.confirm_remove = Some(overlay.selected);
            }
        },
        Action::AgentNameManagerCancelRemove => {
            overlay.confirm_remove = None;
        },
        _ => {},
    }
}

fn steer_add_vic(overlay: &mut AddVicState, action: &Action)
    ensures
        *final(overlay) == add_vic_after(*old(overlay), *action),
{
    if overlay.phase == AddVicPhase::Input {
        match action {
            Action::AddVicInput(key) => {
                press_key(&mut overlay.input, *key);
            },
            Action::AddVicPaste(text) => {
                overlay.input = new_input(text.clone());
            },
            _ => {},
        }
    }
}

fn steer_content(content: &mut ContentPanelState, action: &Action) -> (handled: bool)
    ensures
        handled == is_content_navigation(*action),
        handled ==> *final(content) == content_after(*old(content), *action),
        !handled ==> *final(content) == *old(content),
{
    match action {
        Action::CapabilitiesClose => {
            content.capabilities.view = None;
            true
        },
        Action::CapabilitiesUp
        | Action::CapabilitiesDown
        | Action::CapabilitiesDetail
        | Action::CapabilitiesToggleArm
        | Action::CapabilitiesToggleCancel => {
            if let Some(view) = content.capabilities.view.as_mut() {
                steer_view(view, action);
            }
            true
        },
        Action::CommunitySelect(_)
        | Action::CommunityConfirmDelete(_)
        | Action::CommunityCancelDelete
        | Action::CommunityConfirmLeave(_)
        | Action::CommunityCancelLeave
        | Action::CommunityConfirmWithdraw(_)
        | Action::CommunityCancelWithdraw => {
            steer_communities(&mut content.communities, action);
            true
        },
        Action::DidSelect(_)
        | Action::DidConfirmDelete(_)
        | Action::DidCancelDelete
        | Action::VicSelect(_)
        | Action::VicFocusToggle
        | Action::VicConfirmDelete(_)
        | Action::VicCancelDelete
        | Action::VicConfirmPurge(_)
        | Action::VicCancelPurge => {
            steer_vta(&mut content.vta, action);
            true
        },
        _ => false,
    }
}

fn steer_overlays(page: &mut MainPageState, action: &Action) -> (handled: bool)
    ensures
        handled == is_overlay_navigation(*action),
        overlays_after(*old(page), *action, *final(page)),
{
    match action {
        Action::CommunitySwitcherMove(i) => {
            if let Some(switcher) = page.switcher.as_mut() {
                let last: usize = if switcher.items.len() == 0 {
                    0
                } else {
                    switcher.items.len() - 1
                };
                switcher.selected = if *i <= last {
                    *i
                } else {
                    last
                };
            }
            true
        },
        Action::CloseCommunitySwitcher => {
            page.switcher = None;
            true
        },
        Action::StartAddVic => {
            page.add_vic = Some(AddVicState::default());
            true
        },
        Action::AddVicInput(_) | Action::AddVicPaste(_) => {
            if let Some(overlay) = page.add_vic.as_mut() {
                steer_add_vic(overlay, action);
            }
            true
        },
        Action::AddVicClose => {
            page.add_vic = None;
            true
        },
        Action::StartCreatePersona => {
            page.create_persona = Some(CreatePersonaState::default());
            true
        },
        Action::CreatePersonaInput(key) => {
            if let Some(overlay) = page.create_persona.as_mut() {
                if overlay.phase == CreatePersonaPhase::Label {
                    press_key(&mut overlay.label, *key);
                }
            }
            true
        },
        Action::CreatePersonaClose => {
            page.create_persona = None;
            true
        },
        Action::AgentNameManagerInput(_)
        | Action::AgentNameManagerSelect(_)
        | Action::AgentNameManagerConfirmRemove
        | Action::AgentNameManagerCancelRemove => {
            if let Some(overlay) = page.agent_names.as_mut() {
                steer_agent_names(overlay, action);
            }
            true
        },
        Action::AgentNameManagerClose => {
            page.agent_names = None;
            true
        },
        _ => false,
    }
}

fn steer_page(page: &mut MainPageState, action: &Action) -> (handled: bool)
    requires
        !(action is DismissLoading),
    ensures
        handled == is_navigation(*action),
        page_after(*old(page), *action, *final(page)),
{
    match action {
        Action::MainMenuSelected(item) => {
            page.menu_panel.selected_menu = *item;
            true
        },
        Action::MainPanelSwitch(panel) => {
            let on_content: bool = *panel == MainPanel::ContentPanel;
            page.menu_panel.selected = !on_content;
            page.content_panel.selected = on_content;
            true
        },
        _ => {
            if steer_content(&mut page.content_panel, action) {
                return true;
            }
            steer_overlays(page, action)
        },
    }
}

/// Serves an action that only moves around, and says whether it was one. Every
/// loop asks here first, so that moving around works the same everywhere.
pub fn handle_nav_action(state: &mut State, action: &Action) -> (handled: bool)
    ensures
        handled == is_navigation(*action),
        navigates(*old(state), *action, *final(state)),
{
    match action {
        Action::DismissLoading => {
            let found = state.integrity.take();
            if let Some(integrity) = found {
                let mut line = "Acknowledged: ".to_owned();
                line.append(integrity.headline.as_str());
                state.main_page.log(line);
            }
            state.active_page = ActivePage::Main;
            true
        },
        _ => steer_page(&mut state.main_page, action),
    }
}

/// Moving around changes nothing but what is shown: the connection, the account's
/// membership and everything else stay.
pub proof fn navigation_only_moves_around(pre: State, action: Action, post: State)
    requires
        navigates(pre, action, post),
    ensures
        post == (State {
            active_page: post.active_page,
            main_page: post.main_page,
            integrity: post.integrity,
            ..pre
        }),
        !is_navigation(action) ==> post == pre,
{
}

/// Once the focus has been moved, exactly one side of the page has it.
pub proof fn one_side_has_the_focus(pre: State, panel: MainPanel, post: State)
    requires
        navigates(pre, Action::MainPanelSwitch(panel), post),
    ensures
        post.main_page.menu_panel.selected != post.main_page.content_panel.selected,
{
}

/// Deleting an invitation and purging it are never both up for confirmation,
/// wherever the user goes.
pub proof fn deleting_and_purging_exclude_each_other(pre: State, action: Action, post: State)
    requires
        navigates(pre, action, post),
        pre.main_page.content_panel.vta.confirm_delete_vic is None
            || pre.main_page.content_panel.vta.confirm_purge_vic is None,
    ensures
        post.main_page.content_panel.vta.confirm_delete_vic is None
            || post.main_page.content_panel.vta.confirm_purge_vic is None,
{
}

/// What was put up for confirmation and then called off is not up for
/// confirmation, and nothing else of the panel has changed.
pub proof fn calling_off_undoes_asking(communities: CommunitiesState, vta: VtaState, i: usize)
    ensures
        communities_after(
            communities_after(communities, Action::CommunityConfirmDelete(i)),
            Action::CommunityCancelDelete,
        ) == (CommunitiesState { confirm_delete: None, ..communities }),
        communities_after(
            communities_after(communities, Action::CommunityConfirmLeave(i)),
            Action::CommunityCancelLeave,
        ) == (CommunitiesState { confirm_leave: None, ..communities }),
        communities_after(
            communities_after(communities, Action::CommunityConfirmWithdraw(i)),
            Action::CommunityCancelWithdraw,
        ) == (CommunitiesState { confirm_withdraw: None, ..communities }),
        vta_after(vta_after(vta, Action::DidConfirmDelete(i)), Action::DidCancelDelete) == (
        VtaState { confirm_delete_did: None, ..vta }),
{
}

/// A name is put up for removal only while the overlay takes input and has names,
/// and then it is the selected one; calling it off clears it.
pub proof fn only_a_selected_name_is_put_up(overlay: AgentNameManagerState)
    ensures
        ({
            let armed = agent_names_after(overlay, Action::AgentNameManagerConfirmRemove);
            &&& overlay.phase == AgentNameManagerPhase::Ready && overlay.names@.len() > 0
                ==> armed.confirm_remove == Some(overlay.selected)
            &&& overlay.phase != AgentNameManagerPhase::Ready || overlay.names@.len() == 0
                ==> armed == overlay
            &&& agent_names_after(
                armed,
                Action::AgentNameManagerCancelRemove,
            ).confirm_remove is None
        }),
{
}

/// The switcher's selection stays on one of its communities, wherever it is asked
/// to go.
pub proof fn the_switcher_stays_on_its_list(
    page: MainPageState,
    switcher: CommunitySwitcherState,
    i: usize,
    post: MainPageState,
)
    requires
        page.switcher == Some(switcher),
        switcher.items@.len() > 0,
        overlays_after(page, Action::CommunitySwitcherMove(i), post),
    ensures
        post.switcher matches Some(moved) && moved.selected < moved.items@.len() && (i
            < switcher.items@.len() ==> moved.selected == i),
{
}

/// A selection within a list of capabilities stays within it.
pub proof fn the_view_stays_on_its_list(view: CapabilitiesView, action: Action)
    requires
        view.selected < view.items@.len(),
    ensures
        view_after(view, action).selected < view_after(view, action).items@.len(),
{
}

/// A selection within a list of names stays within it.
pub proof fn the_overlay_stays_on_its_list(overlay: AgentNameManagerState, action: Action)
    requires
        overlay.selected < overlay.names@.len(),
    ensures
        agent_names_after(overlay, action).selected < agent_names_after(
            overlay,
            action,
        ).names@.len(),
{
}

/// Moving the focus between the lists of the VTA panel twice leaves it where it
/// was.
pub proof fn the_focus_comes_back(vta: VtaState)
    ensures
        vta_after(vta_after(vta, Action::VicFocusToggle), Action::VicFocusToggle) == vta,
{
}

/// What is being worked on takes no input: a key typed into an overlay that is
/// not waiting for one changes nothing.
pub proof fn locked_overlays_take_no_keys(
    names: AgentNameManagerState,
    import: AddVicState,
    key: crossterm::event::KeyEvent,
    text: String,
)
    ensures
        names.phase != AgentNameManagerPhase::Ready ==> agent_names_after(
            names,
            Action::AgentNameManagerInput(key),
        ) == names,
        import.phase != AddVicPhase::Input ==> add_vic_after(import, Action::AddVicInput(key))
            == import && add_vic_after(import, Action::AddVicPaste(text)) == import,
{
}

/// Whether two communities panels agree in everything but the selection and what
/// is up for confirmation.
pub open spec fn same_communities_shown(a: CommunitiesState, b: CommunitiesState) -> bool {
    &&& a.bindings == b.bindings
    &&& a.items == b.items
    &&& a.actions_required == b.actions_required
    &&& a.status_message == b.status_message
    &&& a.show_archived == b.show_archived
    &&& a.personhood_challenge == b.personhood_challenge
}

/// An action that puts a row up for confirmation puts up that very row, for that
/// very thing, and changes nothing else of the panel; calling it off takes that
/// down and nothing else; and selecting a row selects that row.
pub proof fn the_row_that_was_meant_is_put_up(
    state: &mut State,
    action: &Action,
    handled: bool,
    i: usize,
)
    requires
        call_ensures(handle_nav_action, (state, action), handled),
    ensures
        ({
            let before = old(state).main_page.content_panel.communities;
            let after = final(state).main_page.content_panel.communities;
            &&& same_communities_shown(after, before)
            &&& *action == Action::CommunitySelect(i) ==> handled && after.selected_index == i
            &&& *action == Action::CommunityConfirmDelete(i) ==> handled && after.confirm_delete
                == Some(i)
            &&& *action == Action::CommunityConfirmLeave(i) ==> handled && after.confirm_leave
                == Some(i)
            &&& *action == Action::CommunityConfirmWithdraw(i) ==> handled
                && after.confirm_withdraw == Some(i)
            &&& action is CommunityCancelDelete ==> handled && after.confirm_delete is None
            &&& action is CommunityCancelLeave ==> handled && after.confirm_leave is None
            &&& action is CommunityCancelWithdraw ==> handled && after.confirm_withdraw is None
            &&& !(action is CommunitySelect) ==> after.selected_index == before.selected_index
            &&& !(action is CommunityConfirmDelete) && !(action is CommunityCancelDelete)
                ==> after.confirm_delete == before.confirm_delete
            &&& !(action is CommunityConfirmLeave) && !(action is CommunityCancelLeave)
                ==> after.confirm_leave == before.confirm_leave
            &&& !(action is CommunityConfirmWithdraw) && !(action is CommunityCancelWithdraw)
                ==> after.confirm_withdraw == before.confirm_withdraw
        }),
{
}

/// Whether two VTA panels agree in everything but the selections, the focus and
/// what is up for confirmation.
pub open spec fn same_vta_shown(a: VtaState, b: VtaState) -> bool {
    &&& a.profile == b.profile
    &&& a.context_name == b.context_name
    &&& a.persona_did == b.persona_did
    &&& a.persona_agent_name == b.persona_agent_name
    &&& a.mediator_did == b.mediator_did
    &&& a.mediator_agent_name == b.mediator_agent_name
    &&& a.vta_url == b.vta_url
    &&& a.vta_did == b.vta_did
    &&& a.vta_agent_name == b.vta_agent_name
    &&& a.credential_did == b.credential_did
    &&& a.key_count == b.key_count
    &&& a.persona_key_count == b.persona_key_count
    &&& a.relationship_key_count == b.relationship_key_count
    &&& a.is_vta_managed == b.is_vta_managed
    &&& a.transports == b.transports
    &&& a.active_dids == b.active_dids
    &&& a.context_dids == b.context_dids
    &&& a.vics == b.vics
    &&& a.vic_show_inactive == b.vic_show_inactive
    &&& a.vic_loading == b.vic_loading
    &&& a.vic_refresh_queued == b.vic_refresh_queued
}

/// In the VTA panel, too, the row that was meant is the one that is selected or
/// put up for confirmation, and nothing else is taken up or down by it: but that
/// putting an invitation up for one fate takes it down for the other.
pub proof fn the_identity_or_invitation_that_was_meant_is_put_up(
    state: &mut State,
    action: &Action,
    handled: bool,
    i: usize,
)
    requires
        call_ensures(handle_nav_action, (state, action), handled),
    ensures
        ({
            let before = old(state).main_page.content_panel.vta;
            let after = final(state).main_page.content_panel.vta;
            &&& same_vta_shown(after, before)
            &&& *action == Action::DidSelect(i) ==> handled && after.did_selected_index == i
            &&& *action == Action::DidConfirmDelete(i) ==> handled && after.confirm_delete_did
                == Some(i)
            &&& action is DidCancelDelete ==> handled && after.confirm_delete_did is None
            &&& *action == Action::VicSelect(i) ==> handled && after.vic_selected_index == i
            &&& *action == Action::VicConfirmDelete(i) ==> handled && after.confirm_delete_vic
                == Some(i) && after.confirm_purge_vic is None
            &&& *action == Action::VicConfirmPurge(i) ==> handled && after.confirm_purge_vic
                == Some(i) && after.confirm_delete_vic is None
            &&& action is VicCancelDelete ==> handled && after.confirm_delete_vic is None
                && after.confirm_purge_vic == before.confirm_purge_vic
            &&& action is VicCancelPurge ==> handled && after.confirm_purge_vic is None
                && after.confirm_delete_vic == before.confirm_delete_vic
            &&& action is VicFocusToggle ==> handled && after.focus != before.focus
            &&& !(action is DidSelect) ==> after.did_selected_index == before.did_selected_index
            &&& !(action is DidConfirmDelete) && !(action is DidCancelDelete)
                ==> after.confirm_delete_did == before.confirm_delete_did
            &&& !(action is VicSelect) ==> after.vic_selected_index == before.vic_selected_index
            &&& !(action is VicFocusToggle) ==> after.focus == before.focus
            &&& !(action is VicConfirmDelete) && !(action is VicCancelDelete)
                && !(action is VicConfirmPurge) && !(action is VicCancelPurge)
                ==> after.confirm_delete_vic == before.confirm_delete_vic
                && after.confirm_purge_vic == before.confirm_purge_vic
        }),
{
}

/// The capabilities view moves its selection by one row and never off the list,
/// puts up the selected row, and opens and closes as asked. Moving takes down
/// what was put up.
pub proof fn the_capabilities_view_is_steered(
    state: &mut State,
    action: &Action,
    handled: bool,
    view: CapabilitiesView,
)
    requires
        call_ensures(handle_nav_action, (state, action), handled),
        old(state).main_page.content_panel.capabilities.view == Some(view),
    ensures
        action is CapabilitiesClose ==> handled
            && final(state).main_page.content_panel.capabilities.view is None,
        !(action is CapabilitiesClose) ==> (
        final(state).main_page.content_panel.capabilities.view matches Some(after) && {
            &&& action is CapabilitiesUp ==> handled && after.confirm_toggle is None && (
            view.selected > 0 ==> after.selected == view.selected - 1) && (view.selected == 0
                ==> after.selected == 0)
            &&& action is CapabilitiesDown ==> handled && after.confirm_toggle is None && (
            view.selected + 1 < view.items@.len() ==> after.selected == view.selected + 1) && (
            view.selected + 1 >= view.items@.len() ==> after.selected == view.selected)
            &&& action is CapabilitiesDetail ==> handled && after.detail == !view.detail
            &&& action is CapabilitiesToggleArm ==> handled && (view.items@.len() > 0
                ==> after.confirm_toggle == Some(view.selected)) && (view.items@.len() == 0
                ==> after.confirm_toggle == view.confirm_toggle)
            &&& action is CapabilitiesToggleCancel ==> handled && after.confirm_toggle is None
            &&& !(action is CapabilitiesUp) && !(action is CapabilitiesDown) ==> after.selected
                == view.selected
            &&& !(action is CapabilitiesDetail) ==> after.detail == view.detail
            &&& !(action is CapabilitiesUp) && !(action is CapabilitiesDown)
                && !(action is CapabilitiesToggleArm) && !(action is CapabilitiesToggleCancel)
                ==> after.confirm_toggle == view.confirm_toggle
            &&& after.items == view.items
            &&& after.phase == view.phase
            &&& after.pending_thid == view.pending_thid
            &&& after.sent_at == view.sent_at
            &&& after.status_message == view.status_message
            &&& after.vtc_did == view.vtc_did
            &&& after.persona == view.persona
        }),
{
    assert(view.items.len() == view.items@.len());
}

/// A capabilities view that is closed is not opened by moving around.
pub proof fn a_closed_view_stays_closed(state: &mut State, action: &Action, handled: bool)
    requires
        call_ensures(handle_nav_action, (state, action), handled),
        old(state).main_page.content_panel.capabilities.view is None,
    ensures
        final(state).main_page.content_panel.capabilities.view is None,
{
}

/// The menu shows the entry that was chosen, and the focus is where it was moved
/// to; nothing else moves either of them.
pub proof fn the_menu_and_the_focus_follow(
    state: &mut State,
    action: &Action,
    handled: bool,
)
    requires
        call_ensures(handle_nav_action, (state, action), handled),
    ensures
        action matches Action::MainMenuSelected(entry) ==> handled
            && final(state).main_page.menu_panel.selected_menu == entry,
        action matches Action::MainPanelSwitch(side) ==> handled && (
        final(state).main_page.content_panel.selected <==> side is ContentPanel) && (
        final(state).main_page.menu_panel.selected <==> side is MainMenu),
        !(action is MainMenuSelected) ==> final(state).main_page.menu_panel.selected_menu
            == old(state).main_page.menu_panel.selected_menu,
        !(action is MainPanelSwitch) ==> final(state).main_page.content_panel.selected
            == old(state).main_page.content_panel.selected
            && final(state).main_page.menu_panel.selected
            == old(state).main_page.menu_panel.selected,
        final(state).main_page.sync_requested == old(state).main_page.sync_requested,
        final(state).main_page.config == old(state).main_page.config,
        final(state).main_page.content_panel.inbox == old(state).main_page.content_panel.inbox,
        final(state).main_page.content_panel.relationships
            == old(state).main_page.content_panel.relationships,
        final(state).main_page.content_panel.credentials
            == old(state).main_page.content_panel.credentials,
        final(state).main_page.content_panel.logs == old(state).main_page.content_panel.logs,
        final(state).main_page.content_panel.settings == old(state).main_page.content_panel.settings,
{
}

/// Leaving the loading page shows the main page and settles what was found wrong,
/// which the log then says was acknowledged; nothing else does either.
pub proof fn leaving_the_loading_page_acknowledges(
    state: &mut State,
    action: &Action,
    handled: bool,
)
    requires
        call_ensures(handle_nav_action, (state, action), handled),
    ensures
        action is DismissLoading ==> {
            &&& handled
            &&& final(state).active_page is Main
            &&& final(state).integrity is None
            &&& old(state).integrity matches Some(found) ==> final(state).main_page.lines()
                == old(state).main_page.lines().push(
                crate::state::LogLine {
                    summary: "Acknowledged: "@ + found.headline@,
                    detail: None,
                },
            )
            &&& old(state).integrity is None ==> final(state).main_page.log == old(state).main_page.log
            &&& final(state).main_page.content_panel == old(state).main_page.content_panel
        },
        !(action is DismissLoading) ==> final(state).active_page == old(state).active_page
            && final(state).integrity == old(state).integrity && final(state).main_page.log
            == old(state).main_page.log,
{
    if action is DismissLoading {
        if let Some(found) = old(state).integrity {
            assert(final(state).main_page.lines() =~= old(state).main_page.lines().push(
                crate::state::LogLine {
                    summary: "Acknowledged: "@ + found.headline@,
                    detail: None,
                },
            ));
        }
    }
}

/// Every overlay opens empty, closes for good, and is touched by its own actions
/// alone.
pub proof fn overlays_open_empty_and_close(state: &mut State, action: &Action, handled: bool)
    requires
        call_ensures(handle_nav_action, (state, action), handled),
    ensures
        action is StartAddVic ==> handled && (
        final(state).main_page.add_vic matches Some(overlay) && overlay.phase is Input
            && overlay.messages@.len() == 0 && overlay.input == input_holding(Seq::empty())),
        action is AddVicClose ==> handled && final(state).main_page.add_vic is None,
        action is StartCreatePersona ==> handled && (
        final(state).main_page.create_persona matches Some(overlay) && overlay.phase is Label
            && overlay.messages@.len() == 0 && overlay.did is None && !overlay.copied
            && overlay.label == input_holding(Seq::empty())),
        action is CreatePersonaClose ==> handled && final(state).main_page.create_persona is None,
        action is AgentNameManagerClose ==> handled && final(state).main_page.agent_names is None,
        action is CloseCommunitySwitcher ==> handled && final(state).main_page.switcher is None,
        !(action is StartAddVic) && !(action is AddVicClose) && !(action is AddVicInput)
            && !(action is AddVicPaste) ==> final(state).main_page.add_vic
                == old(state).main_page.add_vic,
        !(action is StartCreatePersona) && !(action is CreatePersonaClose)
            && !(action is CreatePersonaInput) ==> final(state).main_page.create_persona
                == old(state).main_page.create_persona,
        !(action is AgentNameManagerClose) && !(action is AgentNameManagerInput)
            && !(action is AgentNameManagerSelect) && !(action is AgentNameManagerConfirmRemove)
            && !(action is AgentNameManagerCancelRemove) ==> final(state).main_page.agent_names
            == old(state).main_page.agent_names,
        !(action is CloseCommunitySwitcher) && !(action is CommunitySwitcherMove)
            ==> final(state).main_page.switcher == old(state).main_page.switcher,
{
}

/// The switcher goes to the row it is asked to, or to the last where there are
/// not so many; its list stays.
pub proof fn the_switcher_goes_where_it_is_asked(
    state: &mut State,
    action: &Action,
    handled: bool,
    switcher: CommunitySwitcherState,
    i: usize,
)
    requires
        call_ensures(handle_nav_action, (state, action), handled),
        *action == Action::CommunitySwitcherMove(i),
        old(state).main_page.switcher == Some(switcher),
    ensures
        handled,
        final(state).main_page.switcher matches Some(moved) && moved.items == switcher.items && (i
            < switcher.items@.len() ==> moved.selected == i) && (i >= switcher.items@.len()
            && switcher.items@.len() > 0 ==> moved.selected == switcher.items@.len() - 1) && (
        switcher.items@.len() == 0 ==> moved.selected == 0),
{
}

/// A key typed or a text pasted into the import overlay reaches its editor while
/// it waits for input, and at no other time; what else the overlay says stays.
pub proof fn the_import_overlay_takes_input(
    state: &mut State,
    action: &Action,
    handled: bool,
    overlay: AddVicState,
)
    requires
        call_ensures(handle_nav_action, (state, action), handled),
        action is AddVicInput || action is AddVicPaste,
        old(state).main_page.add_vic == Some(overlay),
    ensures
        handled,
        final(state).main_page.add_vic matches Some(after) && after.phase == overlay.phase
            && after.messages == overlay.messages && (!(overlay.phase is Input) ==> after.input
            == overlay.input) && (overlay.phase is Input ==> (action matches Action::AddVicInput(key)
            ==> after.input == input_after_key(overlay.input, *key))) && (overlay.phase is Input ==> (
        action matches Action::AddVicPaste(text) ==> after.input == input_holding(text@))),
{
}

/// A key typed into the persona overlay reaches the label while it is being
/// asked for, and at no other time.
pub proof fn the_persona_overlay_takes_input(
    state: &mut State,
    action: &Action,
    handled: bool,
    overlay: CreatePersonaState,
    key: crossterm::event::KeyEvent,
)
    requires
        call_ensures(handle_nav_action, (state, action), handled),
        *action == Action::CreatePersonaInput(key),
        old(state).main_page.create_persona == Some(overlay),
    ensures
        handled,
        final(state).main_page.create_persona matches Some(after) && after.phase == overlay.phase
            && after.messages == overlay.messages && after.did == overlay.did && after.copied
            == overlay.copied && (overlay.phase is Label ==> after.label == input_after_key(
            overlay.label,
            key,
        )) && (!(overlay.phase is Label) ==> after.label == overlay.label),
{
}

/// The agent-name overlay takes keys and puts the selected name up for removal
/// while it is ready, moves its selection by one and never off the list, and
/// takes the name down again when asked.
pub proof fn the_agent_name_overlay_is_steered(
    state: &mut State,
    action: &Action,
    handled: bool,
    overlay: AgentNameManagerState,
)
    requires
        call_ensures(handle_nav_action, (state, action), handled),
        old(state).main_page.agent_names == Some(overlay),
        !(action is AgentNameManagerClose),
    ensures
        final(state).main_page.agent_names matches Some(after) && {
            &&& action matches Action::AgentNameManagerInput(key) ==> handled && after.input == (
            if overlay.phase is Ready {
                input_after_key(overlay.input, *key)
            } else {
                overlay.input
            })
            &&& *action == Action::AgentNameManagerSelect(true) && overlay.selected + 1
                < overlay.names@.len() ==> after.selected == overlay.selected + 1
            &&& *action == Action::AgentNameManagerSelect(true) && overlay.selected + 1
                >= overlay.names@.len() && overlay.names@.len() > 0 ==> after.selected
                == overlay.names@.len() - 1
            &&& *action == Action::AgentNameManagerSelect(false) && overlay.names@.len() > 0
                && overlay.selected > 0 ==> after.selected == overlay.selected - 1
            &&& action is AgentNameManagerSelect ==> handled && (overlay.names@.len() == 0
                || overlay.selected == 0 && *action == Action::AgentNameManagerSelect(false)
                ==> after.selected == overlay.selected)
            &&& action is AgentNameManagerConfirmRemove ==> handled && after.confirm_remove == (
            if overlay.phase is Ready && overlay.names@.len() > 0 {
                Some(overlay.selected)
            } else {
                overlay.confirm_remove
            })
            &&& action is AgentNameManagerCancelRemove ==> handled && after.confirm_remove is None
            &&& !(action is AgentNameManagerInput) ==> after.input == overlay.input
            &&& !(action is AgentNameManagerSelect) ==> after.selected == overlay.selected
            &&& !(action is AgentNameManagerConfirmRemove)
                && !(action is AgentNameManagerCancelRemove) ==> after.confirm_remove
                == overlay.confirm_remove
            &&& after.names == overlay.names
            &&& after.phase == overlay.phase
            &&& after.message == overlay.message
            &&& after.persona_did == overlay.persona_did
        },
{
    assert(overlay.names.len() == overlay.names@.len());
}

/// An action that something else serves is not taken for moving around, and
/// changes nothing here.
pub proof fn other_actions_are_left_to_others(state: &mut State, action: &Action, handled: bool)
    requires
        call_ensures(handle_nav_action, (state, action), handled),
    ensures
        !handled ==> *final(state) == *old(state),
        action is Exit || action is UXError || action is StartJoin || action is DeleteCommunity
            || action is LeaveCommunity || action is WithdrawJoin || action is ArchiveCommunity
            || action is DeleteDid || action is DeleteVic || action is PurgeVic
            || action is CreatePersonaSubmit || action is AddVicSubmit
            || action is AgentNameManagerClaim || action is AgentNameManagerRemove
            || action is CapabilitiesToggleCommit || action is CapabilitiesOpen
            || action is AssertPersonhood || action is RequestPersonhoodChallenge
            || action is VicRefresh || action is VicToggleInactive || action is Settings
            || action is Inbox || action is Relationship || action is Credential ==> !handled,
        final(state).connection == old(state).connection,
        final(state).selected_community == old(state).selected_community,
        final(state).live_siblings == old(state).live_siblings,
{
}

} // verus!
