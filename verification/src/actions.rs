//! What the user can ask for.

use vstd::prelude::*;
use crate::state::{MainMenu, MainPanel};
use crossterm::event::KeyEvent;

verus! {

/// Why the program ends.
#[derive(Clone, Debug)]
pub enum Interrupted {
    /// The user asked for it.
    UserInt,
    /// The operating system asked for it.
    OsSigInt,
    /// Something went wrong; says what.
    SystemError(String),
}

/// Something the user asks for. Actions that another part of the program serves
/// carry nothing here.
pub enum Action {
    Exit,
    /// The screen failed.
    UXError(Interrupted),
    /// Leaves the loading page.
    DismissLoading,
    MainMenuSelected(MainMenu),
    MainPanelSwitch(MainPanel),
    ActivateMainMenu,
    // The capabilities view.
    CapabilitiesOpen(usize),
    CapabilitiesRefresh,
    CapabilitiesClose,
    CapabilitiesUp,
    CapabilitiesDown,
    CapabilitiesDetail,
    CapabilitiesToggleArm,
    CapabilitiesToggleCancel,
    CapabilitiesToggleCommit,
    // Communities.
    CommunitySelect(usize),
    CommunityConfirmDelete(usize),
    CommunityCancelDelete,
    CommunityConfirmLeave(usize),
    CommunityCancelLeave,
    CommunityConfirmWithdraw(usize),
    CommunityCancelWithdraw,
    DeleteCommunity(usize),
    LeaveCommunity(usize),
    WithdrawJoin(usize),
    ArchiveCommunity(usize),
    ToggleShowArchived,
    ToggleFavourite(usize),
    AcknowledgeCommunity(usize),
    SetActiveCommunity(usize),
    IssueMemberVmc(usize),
    RequestPersonhoodChallenge(usize),
    AssertPersonhood,
    // The community switcher.
    OpenCommunitySwitcher,
    CommunitySwitcherMove(usize),
    CommunitySwitcherSelect,
    CloseCommunitySwitcher,
    // Identities.
    DidSelect(usize),
    DidConfirmDelete(usize),
    DidCancelDelete,
    DeleteDid(usize),
    // The persona overlay.
    StartCreatePersona,
    CreatePersonaInput(KeyEvent),
    CreatePersonaSubmit,
    CreatePersonaCopy,
    CreatePersonaClose,
    // The agent-name overlay.
    StartAgentNameManager(usize),
    AgentNameManagerInput(KeyEvent),
    /// Moves the selection down, or else up.
    AgentNameManagerSelect(bool),
    AgentNameManagerClaim,
    AgentNameManagerToggle,
    AgentNameManagerConfirmRemove,
    AgentNameManagerCancelRemove,
    AgentNameManagerRemove,
    AgentNameManagerClose,
    // Invitation credentials.
    VicSelect(usize),
    VicFocusToggle,
    VicRefresh,
    VicToggleInactive,
    VicConfirmDelete(usize),
    VicCancelDelete,
    VicConfirmPurge(usize),
    VicCancelPurge,
    VicArchive(usize),
    VicUnarchive(usize),
    VicRestore(usize),
    DeleteVic(usize),
    PurgeVic(usize),
    StartAddVic,
    AddVicInput(KeyEvent),
    AddVicPaste(String),
    AddVicSubmit,
    AddVicClose,
    // Joining a community.
    StartJoin,
    JoinSubmitVtc,
    JoinIdentitySelect,
    JoinIdentityChoose,
    JoinReuseConfirm,
    JoinReuseCancel,
    JoinInvitationSelect,
    JoinInvitationChoose,
    JoinCancel,
    JoinPasteVic,
    JoinPasteFromClipboard,
    JoinClearVic,
    // Setting the account up.
    ImportConfig,
    SetProtection,
    VtaSubmitDid,
    VtaStartProvision,
    RecoverPlanContext,
    SetupCompleted,
    GetTokens,
    SetAdminPin,
    SetTouchPolicy,
    SetTokenName,
    FactoryReset,
    TokenWriteKeys,
    // The other panels.
    Inbox,
    Relationship,
    Credential,
    Settings,
}

} // verus!
