//! What the panels of the main page show.

use vstd::prelude::*;
use crate::identity::PersonaId;
use crate::json::Json;
use crate::keyed::Keyed;
use crate::outside::{
    input_holding, json_of, json_tree, new_input, pretty_credential, pretty_json, pretty_value,
    pretty_vrc,
};
use crate::persona_binding::BindingSummary;
use crate::text::{optional, same_text};
use crate::time::Timestamp;
use dtg_credentials::DTGCredential;
use std::sync::Arc;
use tui_input::Input;

verus! {

/// The source of a credential whose JSON is written out only when someone looks
/// at it. The two shapes are kept apart because they order their members
/// differently.
#[derive(Clone, Debug)]
pub enum RawCredential {
    /// A relationship credential.
    Vrc(Arc<DTGCredential>),
    /// A membership or role credential.
    Value(Arc<serde_json::Value>),
}

/// What is shown for a credential whose JSON could not be written.
pub const UNPRINTABLE_CREDENTIAL: &'static str = "Failed to serialize credential";

impl RawCredential {
    /// The credential's JSON, or the apology where there is none.
    pub open spec fn pretty(self) -> Seq<char> {
        let text = match self {
            RawCredential::Vrc(vrc) => pretty_credential(*vrc),
            RawCredential::Value(value) => pretty_value(*value),
        };
        match text {
            Some(t) => t,
            None => UNPRINTABLE_CREDENTIAL@,
        }
    }

    /// Writes the credential out as indented JSON.
    #[must_use]
    pub fn to_pretty_json(&self) -> (text: String)
        ensures
            text@ == self.pretty(),
    {
        let written = match self {
            RawCredential::Vrc(vrc) => pretty_vrc(&**vrc),
            RawCredential::Value(value) => pretty_json(&**value),
        };
        printable(written)
    }
}

/// The text that was written, or the apology where there is none.
pub fn printable(written: Option<String>) -> (text: String)
    ensures
        text@ == match optional(written) {
            Some(t) => t,
            None => UNPRINTABLE_CREDENTIAL@,
        },
{
    match written {
        Some(text) => text,
        None => UNPRINTABLE_CREDENTIAL.to_owned(),
    }
}

/// State of the content panel, the right side of the main page.
#[derive(Clone, Debug, Default)]
pub struct ContentPanelState {
    /// Whether the content panel has the focus.
    pub selected: bool,
    pub inbox: InboxState,
    pub relationships: RelationshipsState,
    pub credentials: CredentialsState,
    pub settings: SettingsState,
    pub vta: VtaState,
    pub logs: LogsState,
    pub communities: CommunitiesState,
    /// The capabilities view of one community.
    pub capabilities: CapabilitiesState,
}

/// How far the capabilities view has come. The reply arrives on its own time.
#[derive(Clone, Debug, PartialEq)]
pub enum CapabilitiesPhase {
    Loading,
    Loaded,
    Failed(String),
}

/// One capability of a community.
#[derive(Clone, Debug)]
pub struct CapabilitySummary {
    /// The name the community addresses it by.
    pub slug: String,
    pub enabled: bool,
}

/// The capabilities of one community, while they are shown.
#[derive(Clone, Debug)]
pub struct CapabilitiesView {
    /// The community whose capabilities are shown.
    pub vtc_did: String,
    /// The persona that asks.
    pub persona: PersonaId,
    /// The community's name, for the header.
    pub community_name: String,
    pub phase: CapabilitiesPhase,
    pub items: Vec<CapabilitySummary>,
    pub selected: usize,
    /// Whether the selected capability is shown in detail.
    pub detail: bool,
    /// The capability whose change awaits confirmation.
    pub confirm_toggle: Option<usize>,
    /// The thread the awaited reply belongs to.
    pub pending_thid: Option<String>,
    /// When the request went out, in nanoseconds of the process clock.
    pub sent_at: Option<u64>,
    /// A passing message.
    pub status_message: Option<String>,
}

impl CapabilitiesView {
    /// A view that waits for its first listing.
    pub fn new(vtc_did: String, persona: PersonaId, community_name: String) -> (view: Self)
        ensures
            view.vtc_did == vtc_did,
            view.persona == persona,
            view.community_name == community_name,
            view.phase == CapabilitiesPhase::Loading,
            view.items@ == Seq::<CapabilitySummary>::empty(),
            view.selected == 0,
            !view.detail,
            view.confirm_toggle is None,
            view.pending_thid is None,
            view.sent_at is None,
            view.status_message is None,
    {
        CapabilitiesView {
            vtc_did,
            persona,
            community_name,
            phase: CapabilitiesPhase::Loading,
            items: Vec::new(),
            selected: 0,
            detail: false,
            confirm_toggle: None,
            pending_thid: None,
            sent_at: None,
            status_message: None,
        }
    }
}

/// Holds the capabilities view while it is open.
#[derive(Clone, Debug, Default)]
pub struct CapabilitiesState {
    pub view: Option<CapabilitiesView>,
}

/// The account's memberships, in display order.
#[derive(Clone, Debug, Default)]
pub struct CommunitiesState {
    /// What each persona presents in each community's context, by sub-context
    /// and persona DID. It lives for the session only: what is presented is the
    /// holder's decision of the moment. A pair without an entry has not been
    /// asked about.
    pub bindings: Keyed<(String, String), BindingSummary>,
    pub items: Vec<CommunitySummary>,
    pub selected_index: usize,
    /// How many communities want something of the user.
    pub actions_required: usize,
    pub status_message: Option<String>,
    /// The community whose removal awaits confirmation.
    pub confirm_delete: Option<usize>,
    /// The community whose leaving awaits confirmation.
    pub confirm_leave: Option<usize>,
    /// The pending join whose withdrawal awaits confirmation.
    pub confirm_withdraw: Option<usize>,
    pub show_archived: bool,
    /// The personhood challenge that waits to be answered. Never stored: it is
    /// good for one use and ten minutes.
    pub personhood_challenge: Option<PersonhoodChallengeView>,
}

/// A personhood challenge as the panel shows it.
#[derive(Clone, Debug)]
pub struct PersonhoodChallengeView {
    /// The community that set it.
    pub vtc_did: String,
    /// The persona it was set for.
    pub persona: PersonaId,
    /// The nonce that the answer must carry.
    pub challenge_id: u128,
    /// The characters to read aloud.
    pub match_code: String,
    /// When the community stops taking answers.
    pub expires_at: Timestamp,
}

impl PersonhoodChallengeView {
    /// Whether the community would still take an answer at `now`.
    pub open spec fn live(self, now: Timestamp) -> bool {
        now.before(self.expires_at)
    }

    /// Whether the community would still take an answer at `now`.
    pub fn is_live(&self, now: Timestamp) -> (live: bool)
        ensures
            live == self.live(now),
    {
        now.is_before(self.expires_at)
    }
}

/// A challenge that has lapsed stays lapsed.
pub proof fn a_lapsed_challenge_stays_lapsed(
    challenge: PersonhoodChallengeView,
    now: Timestamp,
    later: Timestamp,
)
    requires
        !challenge.live(now),
        now.before(later),
    ensures
        !challenge.live(later),
{
}

/// The community switcher, while it is open.
#[derive(Clone, Debug, Default)]
pub struct CommunitySwitcherState {
    /// The communities that can be switched to, in display order.
    pub items: Vec<SwitcherItem>,
    pub selected: usize,
}

/// The overlay that mints a persona: a label, then the mint, then its outcome.
#[derive(Clone, Debug)]
pub struct CreatePersonaState {
    pub phase: CreatePersonaPhase,
    /// The label, while it is being typed.
    pub label: Input,
    /// Progress and error lines.
    pub messages: Vec<String>,
    /// The minted DID.
    pub did: Option<String>,
    /// Whether the DID was copied to the clipboard.
    pub copied: bool,
}

impl CreatePersonaState {
    /// The overlay as it opens.
    pub open spec fn fresh(self) -> bool {
        &&& self.phase == CreatePersonaPhase::Label
        &&& self.label == input_holding(Seq::empty())
        &&& self.messages@ == Seq::<String>::empty()
        &&& self.did is None
        &&& !self.copied
    }
}

impl Default for CreatePersonaState {
    fn default() -> (state: Self)
        ensures
            state.fresh(),
    {
        CreatePersonaState {
            phase: CreatePersonaPhase::Label,
            label: new_input(String::new()),
            messages: Vec::new(),
            did: None,
            copied: false,
        }
    }
}

/// The overlay that manages a persona's agent names.
#[derive(Clone, Debug)]
pub struct AgentNameManagerState {
    pub persona_did: String,
    pub persona_label: String,
    /// The host the names belong to; empty where it cannot be told.
    pub host: String,
    /// The names the registry holds.
    pub names: Vec<AgentNameRow>,
    pub selected: usize,
    /// The name to claim, while it is being typed.
    pub input: Input,
    pub phase: AgentNameManagerPhase,
    pub message: Option<String>,
    /// Whether the registry could not be read, so that `names` may be outdated.
    pub list_stale: bool,
    /// The name whose release awaits confirmation.
    pub confirm_remove: Option<usize>,
}

impl AgentNameManagerState {
    /// An overlay that shows nothing yet.
    pub open spec fn blank(self) -> bool {
        &&& self.names@ == Seq::<AgentNameRow>::empty()
        &&& self.selected == 0
        &&& self.input == input_holding(Seq::empty())
        &&& self.phase == AgentNameManagerPhase::Loading
        &&& self.message is None
        &&& !self.list_stale
        &&& self.confirm_remove is None
    }
}

impl Default for AgentNameManagerState {
    fn default() -> (state: Self)
        ensures
            state.blank(),
            state.persona_did@ == Seq::<char>::empty(),
            state.persona_label@ == Seq::<char>::empty(),
            state.host@ == Seq::<char>::empty(),
    {
        AgentNameManagerState {
            persona_did: String::new(),
            persona_label: String::new(),
            host: String::new(),
            names: Vec::new(),
            selected: 0,
            input: new_input(String::new()),
            phase: AgentNameManagerPhase::Loading,
            message: None,
            list_stale: false,
            confirm_remove: None,
        }
    }
}

/// One agent name in the registry.
#[derive(Clone, Debug)]
pub struct AgentNameRow {
    /// The local part, without the `@`.
    pub name: String,
    /// Whether it resolves; a parked name is reserved but does not.
    pub enabled: bool,
}

/// What the agent-name overlay is doing.
#[derive(Clone, Copy, Debug, Default, PartialEq, Eq, Structural)]
pub enum AgentNameManagerPhase {
    /// Reading the registry.
    #[default]
    Loading,
    /// Taking input.
    Ready,
    /// Changing something; input is locked.
    Working,
}

/// The step the persona overlay is at.
#[derive(Clone, Copy, Debug, Default, PartialEq, Eq, Structural)]
pub enum CreatePersonaPhase {
    /// Waiting for the label.
    #[default]
    Label,
    /// Minting; input is locked.
    Working,
    /// Minted.
    Done,
    /// Not minted.
    Failed,
}

/// One entry of the community switcher.
#[derive(Clone, Debug)]
pub struct SwitcherItem {
    pub vtc_did: String,
    pub persona_ref: PersonaId,
    pub display_name: String,
    pub persona_label: String,
    /// Whether this is the membership being worked in.
    pub is_current: bool,
}

/// One membership as the communities panel shows it.
#[derive(Clone, Debug)]
pub struct CommunitySummary {
    pub display_name: String,
    pub status_label: String,
    /// The label of the persona the community sees.
    pub persona_label: String,
    /// Since when, for an active membership; empty otherwise.
    pub member_since: String,
    pub favourite: bool,
    /// Active: can be left, and worked in.
    pub is_active: bool,
    /// Over: can be archived or deleted.
    pub is_inactive: bool,
    /// Asked for: can be withdrawn.
    pub is_pending: bool,
    /// A pending join that the community has not acknowledged in good time.
    pub pending_unacknowledged: bool,
    /// The transport that carried the join, where it is known.
    pub submit_transport: Option<String>,
    pub archived: bool,
    pub needs_attention: bool,
    /// The persona's DID; empty where the persona is unknown.
    pub persona_did: String,
    pub persona_agent_name: Option<String>,
    pub vtc_did: String,
    pub vtc_agent_name: Option<String>,
    pub sub_context_id: String,
    /// The join request, while it is pending; empty otherwise.
    pub request_id: String,
    pub has_membership_credential: bool,
    pub has_role_credential: bool,
}

/// The VTA panel.
#[derive(Clone, Debug, Default)]
pub struct VtaState {
    pub profile: String,
    /// The name of the VTA context, once it has been asked for.
    pub context_name: Option<String>,
    pub persona_did: String,
    pub persona_agent_name: Option<String>,
    pub mediator_did: String,
    pub mediator_agent_name: Option<String>,
    pub vta_url: String,
    pub vta_did: String,
    pub vta_agent_name: Option<String>,
    /// The DID this install authenticates as.
    pub credential_did: String,
    pub transports: VtaTransports,
    pub key_count: usize,
    pub persona_key_count: usize,
    pub relationship_key_count: usize,
    pub is_vta_managed: bool,
    pub active_dids: Vec<ActiveDid>,
    /// Every persona DID of the context.
    pub context_dids: Vec<ManagedDid>,
    pub did_selected_index: usize,
    /// The identity whose deletion awaits confirmation.
    pub confirm_delete_did: Option<usize>,
    /// The invitation credentials in the vault.
    pub vics: Vec<VicSummary>,
    pub vic_selected_index: usize,
    /// The invitation whose deletion awaits confirmation.
    pub confirm_delete_vic: Option<usize>,
    /// The invitation whose purge, which cannot be undone, awaits confirmation.
    pub confirm_purge_vic: Option<usize>,
    /// Whether archived and deleted invitations are listed too.
    pub vic_show_inactive: bool,
    /// Whether the vault is being asked.
    pub vic_loading: bool,
    /// Whether the vault must be asked again once the answer under way is in:
    /// that answer was already outdated when the request came.
    pub vic_refresh_queued: bool,
    /// Which of the two lists the keys act on.
    pub focus: VtaFocus,
}

/// How this process reaches the VTA, and what the VTA says it offers.
#[derive(Clone, Debug, Default, PartialEq, Eq)]
pub struct VtaTransports {
    /// The transport this process is set up to use.
    pub in_use: VtaTransport,
    pub rest_url: String,
    /// What the VTA's DID document advertises, once it has been looked at.
    pub advertised: Option<AdvertisedTransports>,
}

/// A way to reach the VTA.
#[derive(Clone, Copy, Debug, Default, PartialEq, Eq, Structural)]
pub enum VtaTransport {
    /// DIDComm through a mediator.
    #[default]
    DidComm,
    /// REST at the VTA's address.
    Rest,
}

impl VtaTransport {
    /// The name on the panel.
    pub open spec fn name(self) -> Seq<char> {
        match self {
            VtaTransport::DidComm => "DIDComm"@,
            VtaTransport::Rest => "REST"@,
        }
    }

    /// The name on the panel.
    pub fn label(self) -> (text: &'static str)
        ensures
            text@ == self.name(),
    {
        match self {
            VtaTransport::DidComm => "DIDComm",
            VtaTransport::Rest => "REST",
        }
    }
}

/// The transports a DID document advertises. Offered does not mean usable.
#[derive(Clone, Debug, Default, PartialEq, Eq)]
pub struct AdvertisedTransports {
    pub tsp_mediator_did: Option<String>,
    pub mediator_did: Option<String>,
    pub rest_url: Option<String>,
    /// Why the document could not be read: the transports are then unknown, not
    /// absent.
    pub error: Option<String>,
}

/// The list of the VTA panel that has the focus.
#[derive(Clone, Copy, Debug, Default, PartialEq, Eq, Structural)]
pub enum VtaFocus {
    #[default]
    Dids,
    Vics,
}

/// One invitation credential in the vault.
#[derive(Clone, Debug, Default)]
pub struct VicSummary {
    /// The vault's handle for it.
    pub id: String,
    /// The community that issued it.
    pub issuer: String,
    pub issuer_agent_name: Option<String>,
    /// `valid`, `expired`, `revoked` or `unknown`.
    pub status: String,
    pub lifecycle: VicLifecycle,
    pub valid_until: String,
}

/// The text of a member, or no text at all.
pub open spec fn text_or_nothing(json: Json, key: Seq<char>) -> Seq<char> {
    match json.text_field(key) {
        Some(t) => t,
        None => Seq::empty(),
    }
}

impl VicSummary {
    /// Whether this is what a vault descriptor says.
    pub open spec fn describes(self, d: Json) -> bool {
        let status = text_or_nothing(d, "status"@);
        &&& self.id@ == text_or_nothing(d, "id"@)
        &&& self.issuer@ == text_or_nothing(d, "issuerDid"@)
        &&& self.issuer_agent_name is None
        &&& self.status@ == (if status.len() == 0 {
            "unknown"@
        } else {
            status
        })
        &&& self.lifecycle == VicLifecycle::named(d.text_field("lifecycle"@))
        &&& self.valid_until@ == text_or_nothing(d, "validUntil"@)
    }

    /// Reads a vault descriptor.
    pub fn from_descriptor(d: &serde_json::Value) -> (summary: Self)
        ensures
            summary.describes(json_tree(*d)),
    {
        VicSummary::from_json(&json_of(d))
    }

    /// Reads a vault descriptor that is already taken apart.
    pub fn from_json(d: &Json) -> (summary: Self)
        ensures
            summary.describes(*d),
    {
        let status = d.text_or_empty("status");
        let lifecycle = d.get_text("lifecycle");
        VicSummary {
            id: d.text_or_empty("id"),
            issuer: d.text_or_empty("issuerDid"),
            issuer_agent_name: None,
            status: if status.as_str().is_empty() {
                "unknown".to_owned()
            } else {
                status
            },
            lifecycle: VicLifecycle::from_wire(&lifecycle),
            valid_until: d.text_or_empty("validUntil"),
        }
    }
}

/// Where an invitation credential stands in the vault.
#[derive(Clone, Copy, Debug, Default, PartialEq, Eq, Structural)]
pub enum VicLifecycle {
    #[default]
    Active,
    /// Kept, but not presented.
    Archived,
    /// Deleted, and restorable for a while.
    Deleted,
}

impl VicLifecycle {
    /// The state a descriptor's word stands for; active where there is none.
    pub open spec fn named(word: Option<Seq<char>>) -> VicLifecycle {
        if word == Some("archived"@) {
            VicLifecycle::Archived
        } else if word == Some("deleted"@) {
            VicLifecycle::Deleted
        } else {
            VicLifecycle::Active
        }
    }

    /// The word for the state.
    pub open spec fn word(self) -> Seq<char> {
        match self {
            VicLifecycle::Active => "active"@,
            VicLifecycle::Archived => "archived"@,
            VicLifecycle::Deleted => "deleted"@,
        }
    }

    /// Reads the state off a descriptor's word.
    pub fn from_wire(word: &Option<String>) -> (lifecycle: Self)
        ensures
            lifecycle == VicLifecycle::named(optional(*word)),
    {
        match word {
            Some(w) => if same_text(w.as_str(), "archived") {
                VicLifecycle::Archived
            } else if same_text(w.as_str(), "deleted") {
                VicLifecycle::Deleted
            } else {
                VicLifecycle::Active
            },
            None => VicLifecycle::Active,
        }
    }

    /// The word for the panel row.
    pub fn tag(self) -> (text: &'static str)
        ensures
            text@ == self.word(),
    {
        match self {
            VicLifecycle::Active => "active",
            VicLifecycle::Archived => "archived",
            VicLifecycle::Deleted => "deleted",
        }
    }
}

/// A state is read back from its own word.
pub proof fn lifecycle_words_are_read_back(lifecycle: VicLifecycle)
    ensures
        VicLifecycle::named(Some(lifecycle.word())) == lifecycle,
{
    reveal_strlit("active");
    reveal_strlit("archived");
    reveal_strlit("deleted");
    assert("active"@.len() == 6);
    assert("archived"@.len() == 8);
    assert("deleted"@.len() == 7);
}

/// The overlay that imports an invitation credential.
#[derive(Clone, Debug)]
pub struct AddVicState {
    pub phase: AddVicPhase,
    /// The pasted JSON.
    pub input: Input,
    pub messages: Vec<String>,
}

impl AddVicState {
    /// The overlay as it opens.
    pub open spec fn fresh(self) -> bool {
        &&& self.phase == AddVicPhase::Input
        &&& self.input == input_holding(Seq::empty())
        &&& self.messages@ == Seq::<String>::empty()
    }
}

impl Default for AddVicState {
    fn default() -> (state: Self)
        ensures
            state.fresh(),
    {
        AddVicState {
            phase: AddVicPhase::Input,
            input: new_input(String::new()),
            messages: Vec::new(),
        }
    }
}

/// The step the import overlay is at.
#[derive(Clone, Copy, Debug, Default, PartialEq, Eq, Structural)]
pub enum AddVicPhase {
    #[default]
    Input,
    /// Storing; input is locked.
    Working,
    Done,
    Failed,
}

/// A persona DID of the context.
#[derive(Clone, Debug, Default)]
pub struct ManagedDid {
    pub did: String,
    pub agent_name: Option<String>,
    pub label: String,
    /// How many communities see this persona.
    pub bound_communities: usize,
    pub is_active: bool,
}

/// A DID in use.
#[derive(Clone, Debug, Default)]
pub struct ActiveDid {
    pub did: String,
    pub agent_name: Option<String>,
    pub label: String,
}

/// The inbox.
#[derive(Clone, Debug, Default)]
pub struct InboxState {
    pub tasks: Vec<TaskSummary>,
    pub selected_index: usize,
    pub active_task: Option<ActiveTaskView>,
    pub status_message: Option<String>,
    /// What awaits confirmation.
    pub confirm: Option<InboxConfirm>,
}

/// A destructive inbox action that awaits confirmation.
#[derive(Clone, Debug)]
pub enum InboxConfirm {
    Dismiss { task_id: String },
    ClearAll,
}

/// One task in the inbox.
#[derive(Clone, Debug)]
pub struct TaskSummary {
    pub id: String,
    pub type_display: String,
    pub kind: TaskKind,
    pub remote_did: String,
    pub remote_agent_name: Option<String>,
    pub created: String,
}

/// What a task is about.
#[derive(Clone, Debug)]
pub enum TaskKind {
    RelationshipRequestInbound {
        from_did: String,
        their_did: String,
        reason: Option<String>,
        name: Option<String>,
    },
    RelationshipRequestOutbound { our_did: String, our_agent_name: Option<String> },
    VRCRequestInbound { reason: Option<String> },
    VRCRequestOutbound,
    VRCIssued,
    TrustPing,
    Informational(String),
}

/// A task in detail.
#[derive(Clone, Debug)]
pub enum ActiveTaskView {
    RelationshipRequestInbound {
        task_id: String,
        from_did: String,
        from_agent_name: Option<String>,
        their_did: String,
        reason: Option<String>,
        name: Option<String>,
    },
    RelationshipRequestOutbound {
        task_id: String,
        to_did: String,
        to_agent_name: Option<String>,
        our_did: String,
        our_agent_name: Option<String>,
        state: String,
    },
    VRCRequestInbound {
        task_id: String,
        from_did: String,
        from_agent_name: Option<String>,
        reason: Option<String>,
    },
    VRCRequestOutbound {
        task_id: String,
        remote_did: String,
        remote_agent_name: Option<String>,
    },
    VRCIssued { task_id: String, issuer: String, issuer_agent_name: Option<String> },
    Info {
        task_id: String,
        type_display: String,
        remote_did: String,
        remote_agent_name: Option<String>,
    },
}

/// The relationships panel.
#[derive(Clone, Debug, Default)]
pub struct RelationshipsState {
    pub relationships: Vec<RelationshipSummary>,
    pub selected_index: usize,
    pub mode: RelationshipsMode,
    pub status_message: Option<String>,
    /// The relationship whose removal awaits confirmation.
    pub confirm_delete: Option<String>,
}

/// What the relationships panel shows.
#[derive(Clone, Debug, Default)]
pub enum RelationshipsMode {
    #[default]
    List,
    Detail { index: usize, selected_vrc: Option<usize> },
    EditAlias { index: usize, alias_input: String },
    NewRequest {
        did_input: String,
        alias_input: String,
        reason_input: String,
        generate_r_did: bool,
        active_field: usize,
    },
}

/// One relationship.
#[derive(Clone, Debug)]
pub struct RelationshipSummary {
    pub remote_p_did: String,
    pub alias: Option<String>,
    pub agent_name: Option<String>,
    pub state: String,
    pub our_did: String,
    pub remote_did: String,
    pub created: String,
    pub vrcs_issued: Vec<RelationshipVrc>,
    pub vrcs_received: Vec<RelationshipVrc>,
    /// Whether its keys are lost, so that it must be made anew.
    pub needs_reestablishment: bool,
}

/// A credential within a relationship.
#[derive(Clone, Debug)]
pub struct RelationshipVrc {
    pub issuer: String,
    pub issuer_agent_name: Option<String>,
    pub issuer_full: String,
    pub subject: String,
    pub subject_agent_name: Option<String>,
    pub subject_full: String,
    pub valid_from: String,
    pub valid_until: Option<String>,
    pub raw_json: RawCredential,
}

/// The credentials panel.
#[derive(Clone, Debug, Default)]
pub struct CredentialsState {
    pub received: Vec<VrcSummary>,
    pub issued: Vec<VrcSummary>,
    pub membership: Vec<VrcSummary>,
    pub selected_tab: CredentialTab,
    pub selected_index: usize,
    pub mode: CredentialsMode,
    pub status_message: Option<String>,
    /// The credential whose removal awaits confirmation.
    pub confirm_delete: Option<String>,
}

/// A tab of the credentials panel.
#[derive(Clone, Copy, Debug, Default, PartialEq, Eq, Structural)]
pub enum CredentialTab {
    #[default]
    Received,
    Issued,
    Membership,
}

/// What the credentials panel shows.
#[derive(Clone, Debug, Default)]
pub enum CredentialsMode {
    #[default]
    List,
    Detail { index: usize },
    NewRequest { relationship_index: usize, reason_input: String },
}

/// One credential.
#[derive(Clone, Debug)]
pub struct VrcSummary {
    pub vrc_id: String,
    pub remote_p_did: String,
    pub remote_agent_name: Option<String>,
    pub raw_json: RawCredential,
    pub alias: Option<String>,
    pub issuer: String,
    pub issuer_agent_name: Option<String>,
    pub subject: String,
    pub subject_agent_name: Option<String>,
    pub valid_from: String,
    pub valid_until: Option<String>,
    pub kind: Option<String>,
    pub subject_is_self: bool,
    pub validity: String,
    pub status: String,
}

/// The log panel.
#[derive(Clone, Debug, Default)]
pub struct LogsState {
    pub selected_index: usize,
    pub detail_view: bool,
}

/// The settings panel.
#[derive(Clone, Debug, Default)]
pub struct SettingsState {
    pub friendly_name: String,
    pub mediator_did: String,
    pub org_did: String,
    pub persona_did: String,
    pub persona_agent_name: Option<String>,
    pub protection_type: String,
    /// Set where the profile's secret lies in a store that will not keep it.
    pub storage_warning: Option<String>,
    pub selected_index: usize,
    pub mode: SettingsMode,
    pub status_message: Option<String>,
    pub token: TokenManagementState,
    pub did_git_sign: Option<DidGitSignInfo>,
}

/// The commit-signing install of a persona.
#[derive(Clone, Debug)]
pub struct DidGitSignInfo {
    pub did_key_id: String,
    pub ssh_public_key: String,
    pub config_path: String,
}

/// The hardware-token screen.
#[derive(Clone, Debug, Default)]
pub struct TokenManagementState {
    pub detected_count: usize,
    pub messages: Vec<String>,
    pub reset_completed: bool,
}

/// What the settings panel shows.
#[derive(Clone, Debug, Default)]
pub enum SettingsMode {
    #[default]
    View,
    EditFriendlyName { input: String },
    EditOrgDid { input: String },
    ExportConfig { path_input: String, passphrase_len: usize, active_field: usize },
    ImportConfig { path_input: String, passphrase_len: usize, active_field: usize },
    ChangeProtection {
        selected_option: usize,
        passphrase_len: usize,
        confirm_len: usize,
        active_field: usize,
    },
    TokenManagement { selected_index: usize },
    WipeConfirm { confirm_input: String },
}

/// A challenge can be answered exactly until the moment it expires.
pub proof fn a_challenge_is_live_until_it_expires(
    challenge: &PersonhoodChallengeView,
    now: Timestamp,
    live: bool,
)
    requires
        call_ensures(PersonhoodChallengeView::is_live, (challenge, now), live),
    ensures
        now.secs < challenge.expires_at.secs ==> live,
        now.secs > challenge.expires_at.secs ==> !live,
        now.secs == challenge.expires_at.secs ==> (live <==> now.nanos
            < challenge.expires_at.nanos),
        now == challenge.expires_at ==> !live,
{
}

/// A credential's text is shown as it was written, and the apology only where it
/// could not be written.
pub proof fn what_was_written_is_shown(written: Option<String>, text: String)
    requires
        call_ensures(printable, (written,), text),
    ensures
        written matches Some(w) ==> text@ == w@,
        written is None ==> text@ == "Failed to serialize credential"@,
{
}

/// A credential is written by its own shape: a relationship credential by its
/// body, any other as the value it is.
pub proof fn credentials_are_written_by_their_shape(raw: &RawCredential, text: String)
    requires
        call_ensures(RawCredential::to_pretty_json, (raw,), text),
    ensures
        *raw matches RawCredential::Vrc(vrc) ==> (pretty_credential(*vrc) matches Some(w) ==> text@
            == w),
        *raw matches RawCredential::Value(value) ==> (pretty_value(*value) matches Some(w) ==> text@
            == w),
        *raw matches RawCredential::Vrc(vrc) ==> (pretty_credential(*vrc) is None ==> text@
            == "Failed to serialize credential"@),
        *raw matches RawCredential::Value(value) ==> (pretty_value(*value) is None ==> text@
            == "Failed to serialize credential"@),
{
}

/// The words of a vault descriptor are taken as they stand: each member from the
/// member of its own name, an absent or empty status as unknown, and the state by
/// its word, with anything but the two other words as active.
pub proof fn a_descriptor_is_taken_at_its_word(d: &Json, summary: VicSummary)
    requires
        call_ensures(VicSummary::from_json, (d,), summary),
    ensures
        d.field("id"@) matches Some(Json::Text(id)) ==> summary.id@ == id@,
        d.field("issuerDid"@) matches Some(Json::Text(issuer)) ==> summary.issuer@ == issuer@,
        d.field("validUntil"@) matches Some(Json::Text(until)) ==> summary.valid_until@ == until@,
        d.field("status"@) matches Some(Json::Text(status)) ==> (status@.len() > 0
            ==> summary.status@ == status@),
        (d.field("status"@) matches Some(Json::Text(status)) ==> status@.len() == 0)
            ==> summary.status@ == "unknown"@,
        !(d.field("id"@) matches Some(Json::Text(_))) ==> summary.id@.len() == 0,
        !(d.field("issuerDid"@) matches Some(Json::Text(_))) ==> summary.issuer@.len() == 0,
        !(d.field("validUntil"@) matches Some(Json::Text(_))) ==> summary.valid_until@.len() == 0,
        summary.lifecycle is Archived <==> (d.field("lifecycle"@) matches Some(Json::Text(w)) && w@
            == "archived"@),
        summary.lifecycle is Deleted <==> (d.field("lifecycle"@) matches Some(Json::Text(w)) && w@
            == "deleted"@),
        summary.issuer_agent_name is None,
{
    lifecycle_words_are_read_back(VicLifecycle::Archived);
    lifecycle_words_are_read_back(VicLifecycle::Deleted);
}

/// A new view of a community's capabilities is that community's, asked for as that
/// persona; it waits for its first listing and shows nothing yet.
pub proof fn a_new_view_waits(
    vtc_did: String,
    persona: PersonaId,
    name: String,
    view: CapabilitiesView,
)
    requires
        call_ensures(CapabilitiesView::new, (vtc_did, persona, name), view),
    ensures
        view.vtc_did@ == vtc_did@ && view.persona == persona && view.community_name@ == name@,
        view.phase is Loading && view.items@.len() == 0 && view.selected == 0,
        view.pending_thid is None && view.sent_at is None && view.confirm_toggle is None,
        !view.detail && view.status_message is None,
{
}

/// A descriptor that is still whole is taken at its word as one that is taken
/// apart is.
pub proof fn a_whole_descriptor_is_taken_at_its_word(
    d: &serde_json::Value,
    summary: VicSummary,
)
    requires
        call_ensures(VicSummary::from_descriptor, (d,), summary),
    ensures
        json_tree(*d).field("id"@) matches Some(Json::Text(id)) ==> summary.id@ == id@,
        json_tree(*d).field("issuerDid"@) matches Some(Json::Text(issuer)) ==> summary.issuer@
            == issuer@,
        json_tree(*d).field("status"@) matches Some(Json::Text(status)) ==> (status@.len() > 0
            ==> summary.status@ == status@),
        json_tree(*d).field("validUntil"@) matches Some(Json::Text(until)) ==> summary.valid_until@
            == until@,
        summary.lifecycle is Archived <==> (
        json_tree(*d).field("lifecycle"@) matches Some(Json::Text(w)) && w@ == "archived"@),
        summary.lifecycle is Deleted <==> (
        json_tree(*d).field("lifecycle"@) matches Some(Json::Text(w)) && w@ == "deleted"@),
{
    lifecycle_words_are_read_back(VicLifecycle::Archived);
    lifecycle_words_are_read_back(VicLifecycle::Deleted);
}

} // verus!
