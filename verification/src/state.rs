//! The state that is shown and that every decision starts from.

use vstd::prelude::*;
use crate::config::LoadIntegrity;
use crate::content::{
    AddVicState, AgentNameManagerState, CapabilitiesState, CapabilitiesView, CommunitiesState,
    CommunitySwitcherState, ContentPanelState, CreatePersonaState, VtaState,
};
use crate::identity::PersonaId;

verus! {

/// The page on the screen.
#[derive(Clone, Copy, Debug, Default, PartialEq, Eq, Structural)]
pub enum ActivePage {
    /// The account is being loaded.
    #[default]
    Loading,
    /// The account is being set up.
    Setup,
    /// A community is being joined.
    Join,
    Main,
}

/// An entry of the main menu.
#[derive(Clone, Copy, Debug, Default, PartialEq, Eq, Structural)]
pub enum MainMenu {
    #[default]
    Inbox,
    Relationships,
    Credentials,
    Communities,
    Vta,
    Settings,
    Logs,
    Help,
}

/// A side of the main page.
#[derive(Clone, Copy, Debug, PartialEq, Eq, Structural)]
pub enum MainPanel {
    ContentPanel,
    MainMenu,
}

/// The main menu, the left side of the main page.
#[derive(Clone, Debug, Default)]
pub struct MenuPanelState {
    /// Whether the menu has the focus.
    pub selected: bool,
    pub selected_menu: MainMenu,
}

/// What the head of the main menu says.
#[derive(Clone, Debug, Default)]
pub struct MainMenuConfigState {
    pub name: String,
    pub did: String,
    pub agent_name: Option<String>,
    /// The community being worked in.
    pub community: String,
}

/// An entry of the activity log.
#[derive(Clone, Debug)]
pub struct LogEntry {
    pub summary: String,
    /// What opening the entry shows.
    pub detail: Option<String>,
}

/// What an entry of the activity log says.
pub struct LogLine {
    pub summary: Seq<char>,
    pub detail: Option<Seq<char>>,
}

impl View for LogEntry {
    type V = LogLine;

    open spec fn view(&self) -> LogLine {
        LogLine { summary: self.summary@, detail: crate::text::optional(self.detail) }
    }
}

/// A line of the log that has no detail.
pub open spec fn plain(summary: Seq<char>) -> LogLine {
    LogLine { summary, detail: None }
}

/// A line of the log that has a detail.
pub open spec fn detailed(summary: Seq<char>, detail: Seq<char>) -> LogLine {
    LogLine { summary, detail: Some(detail) }
}

/// A line of the log about something that failed.
pub open spec fn failure(context: Seq<char>, error: Seq<char>) -> LogLine {
    plain(context + ": "@ + error)
}

/// The main page.
#[derive(Clone, Debug, Default)]
pub struct MainPageState {
    pub menu_panel: MenuPanelState,
    pub content_panel: ContentPanelState,
    pub config: MainMenuConfigState,
    /// The activity log, oldest entry first.
    pub log: Vec<LogEntry>,
    /// The overlay that mints a persona, while it is open.
    pub create_persona: Option<CreatePersonaState>,
    /// The overlay that manages agent names, while it is open.
    pub agent_names: Option<AgentNameManagerState>,
    /// The overlay that imports an invitation, while it is open.
    pub add_vic: Option<AddVicState>,
    /// The community switcher, while it is open.
    pub switcher: Option<CommunitySwitcherState>,
    /// Whether what the panels show of the account has to be rebuilt from it.
    pub sync_requested: bool,
}

impl MainPageState {
    /// What the activity log says.
    pub open spec fn lines(self) -> Seq<LogLine> {
        self.log@.map_values(|entry: LogEntry| entry@)
    }

    /// Whether nothing but the log differs from an earlier page, and the log
    /// only by new lines at its end.
    pub open spec fn logged(self, before: MainPageState, lines: Seq<LogLine>) -> bool {
        &&& self == MainPageState { log: self.log, ..before }
        &&& self.lines() == before.lines() + lines
    }

    fn append(&mut self, entry: LogEntry)
        ensures
            final(self).logged(*old(self), seq![entry@]),
    {
        self.log.push(entry);
        proof {
            assert(self.lines() =~= old(self).lines() + seq![entry@]);
        }
    }

    /// Adds a line to the activity log.
    pub fn log(&mut self, summary: String)
        ensures
            final(self).logged(*old(self), seq![plain(summary@)]),
    {
        self.append(LogEntry { summary, detail: None });
    }

    /// Adds a line with a detail to the activity log.
    pub fn log_detailed(&mut self, summary: String, detail: String)
        ensures
            final(self).logged(*old(self), seq![detailed(summary@, detail@)]),
    {
        self.append(LogEntry { summary, detail: Some(detail) });
    }

    /// Adds a line about something that failed to the activity log.
    pub fn log_error(&mut self, context: &str, error: &str)
        ensures
            final(self).logged(*old(self), seq![failure(context@, error@)]),
    {
        let mut summary = context.to_owned();
        summary.append(": ");
        summary.append(error);
        self.log(summary);
    }
}

/// How the connection to the mediator stands.
#[derive(Clone, Debug, Default)]
pub enum MediatorStatus {
    /// Getting ready; says what is being done.
    Initializing(String),
    #[default]
    Connecting,
    Connected,
    /// There is no community to be connected for.
    NoActiveCommunity,
    /// Not connected; says why.
    Failed(String),
}

/// The connection to the mediator.
#[derive(Clone, Debug, Default)]
pub struct ConnectionState {
    pub status: MediatorStatus,
    /// Whether messages get through.
    pub messaging_active: bool,
}

/// Why starting up failed, and what may help.
#[derive(Clone, Debug)]
pub struct Diagnosis {
    pub error: String,
    /// Facts worth knowing, each with its name.
    pub context: Vec<(String, String)>,
}

/// Another install that uses the account.
#[derive(Clone, Debug)]
pub struct Sibling {
    pub label: String,
    pub last_seen_at: Option<String>,
}

/// Everything there is to show.
#[derive(Clone, Debug, Default)]
pub struct State {
    pub active_page: ActivePage,
    pub main_page: MainPageState,
    pub connection: ConnectionState,
    /// Whether the account is loaded, so that the loading page can be left.
    pub loading_complete: bool,
    /// Whether a hardware token waits to be touched.
    pub token_touch_pending: bool,
    /// Which tip the loading page shows.
    pub tip_index: usize,
    pub startup_diagnosis: Option<Diagnosis>,
    /// What was found wrong while loading, until the user has seen it.
    pub integrity: Option<LoadIntegrity>,
    /// The membership being worked in: the community and the persona.
    pub selected_community: Option<(String, PersonaId)>,
    pub self_device_id: Option<String>,
    pub live_siblings: Vec<Sibling>,
    /// The invitation the program was started with.
    pub invitation_credential: Option<serde_json::Value>,
}

impl State {
    /// This state with another main page.
    pub open spec fn with_page(self, main_page: MainPageState) -> State {
        State { main_page, ..self }
    }

    /// This state with another content panel.
    pub open spec fn with_content(self, content_panel: ContentPanelState) -> State {
        self.with_page(MainPageState { content_panel, ..self.main_page })
    }

    /// This state with another VTA panel.
    pub open spec fn with_vta(self, vta: VtaState) -> State {
        self.with_content(ContentPanelState { vta, ..self.main_page.content_panel })
    }

    /// This state with another communities panel.
    pub open spec fn with_communities(self, communities: CommunitiesState) -> State {
        self.with_content(ContentPanelState { communities, ..self.main_page.content_panel })
    }

    /// This state with another capabilities view.
    pub open spec fn with_capabilities(self, view: Option<CapabilitiesView>) -> State {
        self.with_content(
            ContentPanelState {
                capabilities: CapabilitiesState { view },
                ..self.main_page.content_panel
            },
        )
    }

    /// This state with another persona overlay.
    pub open spec fn with_create_persona(
        self,
        create_persona: Option<CreatePersonaState>,
    ) -> State {
        self.with_page(MainPageState { create_persona, ..self.main_page })
    }

    /// This state with another agent-name overlay.
    pub open spec fn with_agent_names(self, agent_names: Option<AgentNameManagerState>) -> State {
        self.with_page(MainPageState { agent_names, ..self.main_page })
    }

    /// Whether nothing but the log differs from an earlier state, and the log
    /// only by new lines at its end.
    pub open spec fn logged(self, before: State, lines: Seq<LogLine>) -> bool {
        &&& self == before.with_page(self.main_page)
        &&& self.main_page.logged(before.main_page, lines)
    }
}

/// A page that was only logged to keeps every earlier entry of its log where it
/// was, has the new ones behind them in order, and nothing else of it changed.
pub proof fn a_log_only_grows(before: MainPageState, after: MainPageState, lines: Seq<LogLine>)
    requires
        after.logged(before, lines),
    ensures
        after.log@.len() == before.log@.len() + lines.len(),
        forall|i: int|
            0 <= i < before.log@.len() ==> (#[trigger] after.log@[i]).summary@
                == before.log@[i].summary@,
        forall|i: int|
            0 <= i < lines.len() ==> after.log@[before.log@.len() + i].summary@ == (
            #[trigger] lines[i]).summary,
        forall|i: int|
            0 <= i < lines.len() ==> match (#[trigger] lines[i]).detail {
                Some(words) => after.log@[before.log@.len() + i].detail matches Some(shown)
                    && shown@ == words,
                None => after.log@[before.log@.len() + i].detail is None,
            },
        after.menu_panel == before.menu_panel,
        after.content_panel == before.content_panel,
        after.config == before.config,
        after.create_persona == before.create_persona,
        after.agent_names == before.agent_names,
        after.add_vic == before.add_vic,
        after.switcher == before.switcher,
        after.sync_requested == before.sync_requested,
{
    let n = before.log@.len() as int;
    assert(after.lines().len() == after.log@.len());
    assert(before.lines().len() == n);
    assert forall|i: int| 0 <= i < n implies (#[trigger] after.log@[i]).summary@
        == before.log@[i].summary@ by {
        assert(after.lines()[i] == after.log@[i]@);
        assert(before.lines()[i] == before.log@[i]@);
        assert((before.lines() + lines)[i] == before.lines()[i]);
    }
    assert forall|i: int| 0 <= i < lines.len() implies after.log@[n + i]@ == #[trigger] lines[i] by {
        assert(after.lines()[n + i] == after.log@[n + i]@);
        assert((before.lines() + lines)[n + i] == lines[i]);
    }
}

/// What is logged stands at the end of the log in the words that were given, and
/// behind it there is a detail exactly where one was given.
pub proof fn what_is_logged_is_in_the_log(
    page: &mut MainPageState,
    summary: String,
    detail: String,
)
    ensures
        call_ensures(MainPageState::log, (page, summary), ()) ==> {
            &&& final(page).log@.len() == old(page).log@.len() + 1
            &&& final(page).log@.last().summary@ == summary@
            &&& final(page).log@.last().detail is None
        },
        call_ensures(MainPageState::log_detailed, (page, summary, detail), ()) ==> {
            &&& final(page).log@.len() == old(page).log@.len() + 1
            &&& final(page).log@.last().summary@ == summary@
            &&& final(page).log@.last().detail matches Some(shown) && shown@ == detail@
        },
{
    if call_ensures(MainPageState::log, (page, summary), ()) {
        let line = plain(summary@);
        a_log_only_grows(*old(page), *final(page), seq![line]);
        assert(seq![line][0] == line);
    }
    if call_ensures(MainPageState::log_detailed, (page, summary, detail), ()) {
        let line = detailed(summary@, detail@);
        a_log_only_grows(*old(page), *final(page), seq![line]);
        assert(seq![line][0] == line);
    }
}

/// A failure is logged as what was tried, a colon, and why it failed.
pub proof fn a_failure_is_logged_with_its_reason(
    page: &mut MainPageState,
    context: &str,
    error: &str,
)
    requires
        call_ensures(MainPageState::log_error, (page, context, error), ()),
    ensures
        final(page).log@.len() == old(page).log@.len() + 1,
        final(page).log@.last().summary@ == context@ + ": "@ + error@,
        final(page).log@.last().detail is None,
        final(page).sync_requested == old(page).sync_requested,
{
    let line = failure(context@, error@);
    a_log_only_grows(*old(page), *final(page), seq![line]);
    assert(seq![line][0] == line);
}

/// Putting another panel or overlay in its place leaves all the others, the log
/// and the rest of the state alone.
pub proof fn replacing_one_part_leaves_the_others(
    state: State,
    vta: VtaState,
    communities: CommunitiesState,
    view: Option<CapabilitiesView>,
    persona: Option<CreatePersonaState>,
    names: Option<AgentNameManagerState>,
)
    ensures
        ({
            let other = state.with_vta(vta);
            &&& other.main_page.content_panel.vta == vta
            &&& other.main_page.content_panel.communities
                == state.main_page.content_panel.communities
            &&& other.main_page.content_panel.capabilities
                == state.main_page.content_panel.capabilities
            &&& other.main_page.log == state.main_page.log
            &&& other.main_page.sync_requested == state.main_page.sync_requested
            &&& other.connection == state.connection
        }),
        ({
            let other = state.with_communities(communities);
            &&& other.main_page.content_panel.communities == communities
            &&& other.main_page.content_panel.vta == state.main_page.content_panel.vta
            &&& other.main_page.content_panel.capabilities
                == state.main_page.content_panel.capabilities
            &&& other.main_page.log == state.main_page.log
            &&& other.main_page.sync_requested == state.main_page.sync_requested
            &&& other.connection == state.connection
        }),
        ({
            let other = state.with_capabilities(view);
            &&& other.main_page.content_panel.capabilities.view == view
            &&& other.main_page.content_panel.vta == state.main_page.content_panel.vta
            &&& other.main_page.content_panel.communities
                == state.main_page.content_panel.communities
            &&& other.main_page.log == state.main_page.log
            &&& other.connection == state.connection
        }),
        ({
            let other = state.with_create_persona(persona);
            &&& other.main_page.create_persona == persona
            &&& other.main_page.agent_names == state.main_page.agent_names
            &&& other.main_page.add_vic == state.main_page.add_vic
            &&& other.main_page.content_panel == state.main_page.content_panel
            &&& other.main_page.log == state.main_page.log
            &&& other.connection == state.connection
        }),
        ({
            let other = state.with_agent_names(names);
            &&& other.main_page.agent_names == names
            &&& other.main_page.create_persona == state.main_page.create_persona
            &&& other.main_page.add_vic == state.main_page.add_vic
            &&& other.main_page.content_panel == state.main_page.content_panel
            &&& other.main_page.log == state.main_page.log
            &&& other.connection == state.connection
        }),
{
}

} // verus!
