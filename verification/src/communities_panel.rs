//! The communities panel: one row for each membership, the challenge that waits
//! to be answered, and the keys that do something.

use vstd::prelude::*;
use crate::content::{
    CommunitiesState, CommunitySummary, ContentPanelState, PersonhoodChallengeView,
};
use crate::display::{display_identifier, identifier};
use crate::outside::utc_now;
use crate::persona_binding::BindingSummary;
use crate::screen::{
    add_blank, add_line, blank, bold, colored, shown, span, span_line, text_line, unstyled, Color,
    Line, LineView, Span, Style,
};
use crate::state::ConnectionState;
use crate::text::{
    count_text, decimal, join, joined, optional, pad_right, padded, same_text, texts,
};
use crate::time::Timestamp;

verus! {

/// The room for an identifier in the details of a row. A DID is there to be
/// copied, so there is plenty.
pub const ID_WIDTH: usize = 256;

/// The communities panel.
#[derive(Clone, Copy, Debug)]
pub struct CommunitiesPanel;

impl CommunitiesPanel {
    /// Renders the panel, as of now. The connection has no part in it.
    pub fn render(&self, state: &ContentPanelState, _connection: &ConnectionState) -> (lines: Vec<
        Line,
    >)
        ensures
            exists|now: Timestamp| shown(lines@) == #[trigger] panel(state.communities, now),
    {
        render(&state.communities)
    }
}

/// "community" or "communities", without what they have in common.
pub open spec fn community_ending(count: nat) -> Seq<char> {
    if count == 1 {
        "y"@
    } else {
        "ies"@
    }
}

/// The line at the head: how many communities want something, or else how many
/// there are.
pub open spec fn header(state: CommunitiesState) -> LineView {
    if state.actions_required > 0 {
        text_line(
            " ● "@ + decimal(state.actions_required as nat) + " communit"@ + community_ending(
                state.actions_required as nat,
            ) + " need your attention"@,
            colored(Color::Orange),
        )
    } else {
        text_line(
            " "@ + decimal(state.items@.len()) + " communit"@ + community_ending(
                state.items@.len(),
            ),
            colored(Color::TextDefault),
        )
    }
}

/// What a persona presents in a context, as far as it is known. What has not
/// been asked about is not known, which is not the same as nothing.
pub open spec fn presented(state: CommunitiesState, c: CommunitySummary) -> Seq<char> {
    let key = (c.sub_context_id@, c.persona_did@);
    if state.bindings@.dom().contains(key) {
        state.bindings@[key].line()
    } else {
        "presents: unknown"@
    }
}

/// The second line of a row: status, since when, what is presented, archived.
pub open spec fn row_detail(state: CommunitiesState, c: CommunitySummary) -> Seq<char> {
    let status = "        "@ + c.status_label@;
    let since = if c.member_since@.len() > 0 {
        status + "  ·  since "@ + c.member_since@
    } else {
        status
    };
    let presents = if c.sub_context_id@.len() > 0 && c.persona_did@.len() > 0 {
        since + "  ·  "@ + presented(state, c)
    } else {
        since
    };
    if c.archived {
        presents + "  ·  archived"@
    } else {
        presents
    }
}

/// The style of a row.
pub open spec fn row_style(c: CommunitySummary, selected: bool) -> Style {
    if selected {
        bold(Color::Success)
    } else if c.is_inactive {
        colored(Color::DarkGray)
    } else {
        colored(Color::TextDefault)
    }
}

/// The first line of a row: which persona the community sees.
pub open spec fn row_title(c: CommunitySummary, selected: bool) -> LineView {
    let style = row_style(c, selected);
    let persona = if c.persona_label@.len() == 0 {
        c.persona_did@
    } else {
        c.persona_label@
    };
    span_line(
        seq![
            span(
                if selected {
                    "    ▸ "@
                } else {
                    "      "@
                },
                style,
            ),
            span(
                if c.favourite {
                    "★ "@
                } else {
                    ""@
                },
                colored(Color::Orange),
            ),
            span("as "@ + persona, style),
            span(
                if c.needs_attention {
                    " ●"@
                } else {
                    ""@
                },
                colored(Color::Orange),
            ),
        ],
    )
}

/// The warning under a join that the community has not acknowledged. It names
/// the transport, where that is known.
pub open spec fn unanswered(c: CommunitySummary) -> Seq<char> {
    let over = match c.submit_transport {
        Some(t) => " (sent over "@ + t@ + ")"@,
        None => ""@,
    };
    "    ⚠ no response from the community yet"@ + over
        + " — the request may not have been received"@
}

/// A fact about the selected row.
pub open spec fn fact(name: Seq<char>, value: Seq<char>) -> LineView {
    span_line(
        seq![
            span("      "@ + padded(name, 13), colored(Color::DarkGray)),
            span(value, colored(Color::TextDefault)),
        ],
    )
}

/// A mark for what is there and what is not.
pub open spec fn mark(there: bool) -> Seq<char> {
    if there {
        "✓"@
    } else {
        "—"@
    }
}

/// What is shown of the selected row beyond the row.
pub open spec fn facts(c: CommunitySummary) -> Seq<LineView> {
    let who = seq![
        fact(
            "Persona:"@,
            identifier(optional(c.persona_agent_name), c.persona_did@, ID_WIDTH as nat),
        ),
        fact("VTC:"@, identifier(optional(c.vtc_agent_name), c.vtc_did@, ID_WIDTH as nat)),
    ];
    let context = if c.sub_context_id@.len() > 0 {
        who.push(fact("Sub-context:"@, c.sub_context_id@))
    } else {
        who
    };
    let request = if c.request_id@.len() > 0 {
        context.push(fact("Request ID:"@, c.request_id@))
    } else {
        context
    };
    request.push(
        fact(
            "Credentials:"@,
            "membership "@ + mark(c.has_membership_credential) + "   role "@ + mark(
                c.has_role_credential,
            ),
        ),
    )
}

/// Whether a row is the first of its community. A community may be joined as
/// several personas; its name then stands above them once.
pub open spec fn opens_group(items: Seq<CommunitySummary>, i: int) -> bool {
    i == 0 || items[i - 1].vtc_did@ != items[i].vtc_did@
}

/// The lines of one row.
pub open spec fn row(state: CommunitiesState, i: int) -> Seq<LineView> {
    let c = state.items@[i];
    let selected = i == state.selected_index;
    let name = if opens_group(state.items@, i) {
        seq![span_line(seq![span("  "@ + c.display_name@, bold(Color::TextDefault))])]
    } else {
        Seq::empty()
    };
    let titled = name.push(row_title(c, selected)).push(
        span_line(
            seq![
                span(
                    row_detail(state, c),
                    colored(
                        if selected {
                            Color::SoftPurple
                        } else {
                            Color::DarkGray
                        },
                    ),
                ),
            ],
        ),
    );
    let warned = if c.pending_unacknowledged {
        titled.push(span_line(seq![span(unanswered(c), colored(Color::Orange))]))
    } else {
        titled
    };
    if selected {
        warned + facts(c)
    } else {
        warned
    }
}

/// The lines of the first `n` rows.
pub open spec fn rows(state: CommunitiesState, n: int) -> Seq<LineView>
    decreases n,
{
    if n <= 0 {
        Seq::empty()
    } else {
        rows(state, n - 1) + row(state, n - 1)
    }
}

/// The name by which a confirmation asks for a community.
pub open spec fn confirm_name(state: CommunitiesState, i: usize) -> Seq<char> {
    if i < state.items@.len() {
        state.items@[i as int].display_name@
    } else {
        "this community"@
    }
}

/// The hints for a selected row: the keys that it answers to.
pub open spec fn row_hints(c: CommunitySummary) -> Seq<Seq<char>> {
    let always = seq!["⏎ open"@, "f: ★"@, "a: acknowledge"@];
    let active = if c.is_active {
        always.push("m: issue VMC"@).push("c: capabilities"@).push("p: personhood"@).push(
            "l: leave"@,
        )
    } else {
        always
    };
    let pending = if c.is_pending {
        active.push("c: cancel"@)
    } else {
        active
    };
    if c.is_inactive {
        pending.push("x: archive"@).push("d: delete"@)
    } else {
        pending
    }
}

/// Whether a challenge waits that can still be answered.
pub open spec fn answerable(state: CommunitiesState, now: Timestamp) -> bool {
    state.personhood_challenge matches Some(challenge) && challenge.live(now)
}

/// The key hints: those of the selected row, the answer to a challenge, and the
/// keys that act on the panel.
pub open spec fn hints(state: CommunitiesState, now: Timestamp) -> Seq<Seq<char>> {
    let moving = seq!["↑/↓ navigate"@];
    let selected = if state.selected_index < state.items@.len() {
        moving + row_hints(state.items@[state.selected_index as int])
    } else {
        moving
    };
    let challenged = if answerable(state, now) {
        selected.push("P: assert personhood"@)
    } else {
        selected
    };
    challenged.push("j: join"@).push(
        if state.show_archived {
            "v: hide archived"@
        } else {
            "v: show archived"@
        },
    )
}

/// The line at the foot: the confirmation that is asked for, or else the keys.
pub open spec fn footer(state: CommunitiesState, now: Timestamp) -> LineView {
    if let Some(i) = state.confirm_delete {
        text_line(
            "Delete “"@ + confirm_name(state, i) + "”?   y: confirm    n: cancel"@,
            bold(Color::Orange),
        )
    } else if let Some(i) = state.confirm_leave {
        text_line(
            "Leave “"@ + confirm_name(state, i)
                + "”? This sends a self-removal to the community.   y: confirm    n: cancel"@,
            bold(Color::Orange),
        )
    } else if let Some(i) = state.confirm_withdraw {
        text_line(
            "Cancel the pending join to “"@ + confirm_name(state, i)
                + "”? The request will be marked withdrawn.   y: confirm    n: cancel"@,
            bold(Color::Orange),
        )
    } else {
        text_line(joined(hints(state, now), "   "@), colored(Color::DarkGray))
    }
}

/// What is shown of a challenge. The code stands alone, so that it is read
/// right; once the challenge has lapsed the code is gone and the lapse is said.
pub open spec fn challenge_lines(
    challenge: Option<PersonhoodChallengeView>,
    now: Timestamp,
) -> Seq<LineView> {
    match challenge {
        Some(c) => if c.live(now) {
            seq![
                text_line(" Personhood challenge"@, colored(Color::DarkGray)),
                text_line("   "@ + c.match_code@, bold(Color::SoftPurple)),
                text_line(
                    "   Confirm this code with whoever is vetting you, then press P."@,
                    colored(Color::DarkGray),
                ),
                blank(),
            ]
        } else {
            seq![
                text_line(
                    " Personhood challenge expired — press p for a fresh one."@,
                    colored(Color::DarkGray),
                ),
                blank(),
            ]
        },
        None => Seq::empty(),
    }
}

/// What is shown to someone who is in no community yet.
pub open spec fn welcome() -> Seq<LineView> {
    seq![
        text_line("Your account is ready. 🎉"@, bold(Color::Success)),
        blank(),
        text_line(
            "You haven't joined any communities yet — that's where the fun begins."@,
            colored(Color::TextDefault),
        ),
        text_line(
            "Find a Verifiable Trust Community and present an identity to join it."@,
            colored(Color::TextDefault),
        ),
        blank(),
        text_line("Press  j  to join your first community."@, colored(Color::Orange)),
    ]
}

/// What is shown above the rows.
pub open spec fn preamble(state: CommunitiesState, now: Timestamp) -> Seq<LineView> {
    let top = seq![blank()];
    let status = match state.status_message {
        Some(message) => top.push(text_line(message@, unstyled())).push(blank()),
        None => top,
    };
    status + challenge_lines(state.personhood_challenge, now)
}

/// The panel as it is shown at `now`.
pub open spec fn panel(state: CommunitiesState, now: Timestamp) -> Seq<LineView> {
    if state.items@.len() == 0 {
        preamble(state, now) + welcome()
    } else {
        (preamble(state, now).push(header(state)).push(blank()) + rows(
            state,
            state.items@.len() as int,
        )).push(blank()).push(footer(state, now))
    }
}

fn ending(count: usize) -> (text: &'static str)
    ensures
        text@ == community_ending(count as nat),
{
    if count == 1 {
        "y"
    } else {
        "ies"
    }
}

fn push_header(lines: &mut Vec<Line>, state: &CommunitiesState)
    ensures
        shown(final(lines)@) == shown(old(lines)@).push(header(*state)),
{
    if state.actions_required > 0 {
        let mut text = " ● ".to_owned();
        let count = count_text(state.actions_required);
        text.append(count.as_str());
        text.append(" communit");
        text.append(ending(state.actions_required));
        text.append(" need your attention");
        add_line(lines, Line::text(text, Style::color(Color::Orange)));
    } else {
        let mut text = " ".to_owned();
        let count = count_text(state.items.len());
        text.append(count.as_str());
        text.append(" communit");
        text.append(ending(state.items.len()));
        add_line(lines, Line::text(text, Style::color(Color::TextDefault)));
    }
}

fn detail_text(state: &CommunitiesState, c: &CommunitySummary) -> (text: String)
    ensures
        text@ == row_detail(*state, *c),
{
    let mut text = "        ".to_owned();
    text.append(c.status_label.as_str());
    if !c.member_since.as_str().is_empty() {
        text.append("  ·  since ");
        text.append(c.member_since.as_str());
    }
    if !c.sub_context_id.as_str().is_empty() && !c.persona_did.as_str().is_empty() {
        let key = (c.sub_context_id.clone(), c.persona_did.clone());
        let line = match state.bindings.get(&key) {
            Some(summary) => summary.describe(),
            None => BindingSummary::unknown().describe(),
        };
        text.append("  ·  ");
        text.append(line.as_str());
    }
    if c.archived {
        text.append("  ·  archived");
    }
    text
}

fn push_title(lines: &mut Vec<Line>, c: &CommunitySummary, selected: bool)
    ensures
        shown(final(lines)@) == shown(old(lines)@).push(row_title(*c, selected)),
{
    let style = if selected {
        Style::bold_color(Color::Success)
    } else if c.is_inactive {
        Style::color(Color::DarkGray)
    } else {
        Style::color(Color::TextDefault)
    };
    let prefix = if selected {
        "    ▸ "
    } else {
        "      "
    };
    let star = if c.favourite {
        "★ "
    } else {
        ""
    };
    let attention = if c.needs_attention {
        " ●"
    } else {
        ""
    };
    let mut persona = "as ".to_owned();
    if c.persona_label.as_str().is_empty() {
        persona.append(c.persona_did.as_str());
    } else {
        persona.append(c.persona_label.as_str());
    }
    let line = Line::four(
        Span { text: prefix.to_owned(), style },
        Span { text: star.to_owned(), style: Style::color(Color::Orange) },
        Span { text: persona, style },
        Span { text: attention.to_owned(), style: Style::color(Color::Orange) },
    );
    add_line(lines, line);
}

fn push_unanswered(lines: &mut Vec<Line>, c: &CommunitySummary)
    ensures
        shown(final(lines)@) == shown(old(lines)@).push(
            span_line(seq![span(unanswered(*c), colored(Color::Orange))]),
        ),
{
    let over = match &c.submit_transport {
        Some(t) => {
            let mut text = " (sent over ".to_owned();
            text.append(t.as_str());
            text.append(")");
            text
        },
        None => "".to_owned(),
    };
    let mut text = "    ⚠ no response from the community yet".to_owned();
    text.append(over.as_str());
    text.append(" — the request may not have been received");
    add_line(lines, Line::styled(text, Style::color(Color::Orange)));
}

fn push_fact(lines: &mut Vec<Line>, name: &str, value: String)
    ensures
        shown(final(lines)@) == shown(old(lines)@).push(fact(name@, value@)),
{
    let mut label = "      ".to_owned();
    let padded_name = pad_right(name, 13);
    label.append(padded_name.as_str());
    add_line(
        lines,
        Line::pair(
            Span { text: label, style: Style::color(Color::DarkGray) },
            Span { text: value, style: Style::color(Color::TextDefault) },
        ),
    );
}

fn mark_text(there: bool) -> (text: &'static str)
    ensures
        text@ == mark(there),
{
    if there {
        "✓"
    } else {
        "—"
    }
}

fn push_facts(lines: &mut Vec<Line>, c: &CommunitySummary)
    ensures
        shown(final(lines)@) == shown(old(lines)@) + facts(*c),
{
    push_fact(
        lines,
        "Persona:",
        display_identifier(&c.persona_agent_name, c.persona_did.as_str(), ID_WIDTH),
    );
    push_fact(
        lines,
        "VTC:",
        display_identifier(&c.vtc_agent_name, c.vtc_did.as_str(), ID_WIDTH),
    );
    if !c.sub_context_id.as_str().is_empty() {
        push_fact(lines, "Sub-context:", c.sub_context_id.clone());
    }
    if !c.request_id.as_str().is_empty() {
        push_fact(lines, "Request ID:", c.request_id.clone());
    }
    let mut held = "membership ".to_owned();
    held.append(mark_text(c.has_membership_credential));
    held.append("   role ");
    held.append(mark_text(c.has_role_credential));
    push_fact(lines, "Credentials:", held);
}

fn push_row(lines: &mut Vec<Line>, state: &CommunitiesState, i: usize)
    requires
        i < state.items@.len(),
    ensures
        shown(final(lines)@) == shown(old(lines)@) + row(*state, i as int),
{
    let c = &state.items[i];
    let selected: bool = i == state.selected_index;
    let opens: bool = i == 0 || !same_text(
        state.items[i - 1].vtc_did.as_str(),
        c.vtc_did.as_str(),
    );
    if opens {
        let mut name = "  ".to_owned();
        name.append(c.display_name.as_str());
        add_line(lines, Line::styled(name, Style::bold_color(Color::TextDefault)));
    }
    push_title(lines, c, selected);
    let detail = detail_text(state, c);
    let detail_style = if selected {
        Style::color(Color::SoftPurple)
    } else {
        Style::color(Color::DarkGray)
    };
    add_line(lines, Line::styled(detail, detail_style));
    if c.pending_unacknowledged {
        push_unanswered(lines, c);
    }
    if selected {
        push_facts(lines, c);
    }
}

fn name_to_confirm(state: &CommunitiesState, i: usize) -> (name: String)
    ensures
        name@ == confirm_name(*state, i),
{
    if i < state.items.len() {
        state.items[i].display_name.clone()
    } else {
        "this community".to_owned()
    }
}

fn push_footer(lines: &mut Vec<Line>, state: &CommunitiesState, now: Timestamp)
    ensures
        shown(final(lines)@) == shown(old(lines)@).push(footer(*state, now)),
{
    if let Some(i) = state.confirm_delete {
        let mut text = "Delete “".to_owned();
        let name = name_to_confirm(state, i);
        text.append(name.as_str());
        text.append("”?   y: confirm    n: cancel");
        add_line(lines, Line::text(text, Style::bold_color(Color::Orange)));
    } else if let Some(i) = state.confirm_leave {
        let mut text = "Leave “".to_owned();
        let name = name_to_confirm(state, i);
        text.append(name.as_str());
        text.append("”? This sends a self-removal to the community.   y: confirm    n: cancel");
        add_line(lines, Line::text(text, Style::bold_color(Color::Orange)));
    } else if let Some(i) = state.confirm_withdraw {
        let mut text = "Cancel the pending join to “".to_owned();
        let name = name_to_confirm(state, i);
        text.append(name.as_str());
        text.append("”? The request will be marked withdrawn.   y: confirm    n: cancel");
        add_line(lines, Line::text(text, Style::bold_color(Color::Orange)));
    } else {
        add_line(lines, Line::text(key_hints_at(state, now), Style::color(Color::DarkGray)));
    }
}

/// Shows the challenge that waits to be answered, if there is one.
pub fn push_personhood_challenge(
    lines: &mut Vec<Line>,
    state: &CommunitiesState,
    now: Timestamp,
)
    ensures
        shown(final(lines)@) == shown(old(lines)@) + challenge_lines(
            state.personhood_challenge,
            now,
        ),
{
    if let Some(challenge) = &state.personhood_challenge {
        if challenge.is_live(now) {
            add_line(
                lines,
                Line::text(" Personhood challenge".to_owned(), Style::color(Color::DarkGray)),
            );
            let mut code = "   ".to_owned();
            code.append(challenge.match_code.as_str());
            add_line(lines, Line::text(code, Style::bold_color(Color::SoftPurple)));
            add_line(
                lines,
                Line::text(
                    "   Confirm this code with whoever is vetting you, then press P.".to_owned(),
                    Style::color(Color::DarkGray),
                ),
            );
        } else {
            add_line(
                lines,
                Line::text(
                    " Personhood challenge expired — press p for a fresh one.".to_owned(),
                    Style::color(Color::DarkGray),
                ),
            );
        }
        add_blank(lines);
    }
}

fn add_hint(hints: &mut Vec<String>, hint: &str)
    ensures
        texts(final(hints)@) == texts(old(hints)@).push(hint@),
{
    hints.push(hint.to_owned());
    proof {
        assert(texts(hints@) =~= texts(old(hints)@).push(hint@));
    }
}

fn add_row_hints(hints: &mut Vec<String>, c: &CommunitySummary)
    ensures
        texts(final(hints)@) == texts(old(hints)@) + row_hints(*c),
{
    add_hint(hints, "⏎ open");
    add_hint(hints, "f: ★");
    add_hint(hints, "a: acknowledge");
    if c.is_active {
        add_hint(hints, "m: issue VMC");
        add_hint(hints, "c: capabilities");
        add_hint(hints, "p: personhood");
        add_hint(hints, "l: leave");
    }
    if c.is_pending {
        add_hint(hints, "c: cancel");
    }
    if c.is_inactive {
        add_hint(hints, "x: archive");
        add_hint(hints, "d: delete");
    }
}

/// The key hints, as of now.
pub fn key_hints(state: &CommunitiesState) -> (text: String)
    ensures
        exists|now: Timestamp| text@ == joined(#[trigger] hints(*state, now), "   "@),
{
    let now = utc_now();
    key_hints_at(state, now)
}

/// The key hints at `now`: only keys that do something.
pub fn key_hints_at(state: &CommunitiesState, now: Timestamp) -> (text: String)
    ensures
        text@ == joined(hints(*state, now), "   "@),
{
    let mut list: Vec<String> = Vec::new();
    add_hint(&mut list, "↑/↓ navigate");
    proof {
        assert(texts(list@) =~= seq!["↑/↓ navigate"@]);
    }
    if state.selected_index < state.items.len() {
        add_row_hints(&mut list, &state.items[state.selected_index]);
    }
    let live: bool = match &state.personhood_challenge {
        Some(challenge) => challenge.is_live(now),
        None => false,
    };
    if live {
        add_hint(&mut list, "P: assert personhood");
    }
    add_hint(&mut list, "j: join");
    add_hint(
        &mut list,
        if state.show_archived {
            "v: hide archived"
        } else {
            "v: show archived"
        },
    );
    join(&list, "   ")
}

fn render_empty(lines: &mut Vec<Line>)
    ensures
        shown(final(lines)@) == shown(old(lines)@) + welcome(),
{
    add_line(
        lines,
        Line::text("Your account is ready. 🎉".to_owned(), Style::bold_color(Color::Success)),
    );
    add_blank(lines);
    add_line(
        lines,
        Line::text(
            "You haven't joined any communities yet — that's where the fun begins.".to_owned(),
            Style::color(Color::TextDefault),
        ),
    );
    add_line(
        lines,
        Line::text(
            "Find a Verifiable Trust Community and present an identity to join it.".to_owned(),
            Style::color(Color::TextDefault),
        ),
    );
    add_blank(lines);
    add_line(
        lines,
        Line::text(
            "Press  j  to join your first community.".to_owned(),
            Style::color(Color::Orange),
        ),
    );
}

/// Renders the panel, as of now.
pub fn render(state: &CommunitiesState) -> (lines: Vec<Line>)
    ensures
        exists|now: Timestamp| shown(lines@) == #[trigger] panel(*state, now),
{
    let now = utc_now();
    render_at(state, now)
}

/// Renders the panel at `now`.
pub fn render_at(state: &CommunitiesState, now: Timestamp) -> (lines: Vec<Line>)
    ensures
        shown(lines@) == panel(*state, now),
{
    let mut lines: Vec<Line> = Vec::new();
    add_blank(&mut lines);
    proof {
        assert(shown(lines@) =~= seq![blank()]);
    }
    if let Some(message) = &state.status_message {
        add_line(&mut lines, Line::text(message.clone(), Style::none()));
        add_blank(&mut lines);
    }
    push_personhood_challenge(&mut lines, state, now);
    if state.items.len() == 0 {
        render_empty(&mut lines);
        return lines;
    }
    push_header(&mut lines, state);
    add_blank(&mut lines);
    let ghost above = shown(lines@);
    let mut i: usize = 0;
    proof {
        assert(above + rows(*state, 0) =~= above);
    }
    while i < state.items.len()
        invariant
            i <= state.items@.len(),
            shown(lines@) == above + rows(*state, i as int),
        decreases state.items@.len() - i,
    {
        push_row(&mut lines, state, i);
        proof {
            assert(above + (rows(*state, i as int) + row(*state, i as int)) =~= above + rows(
                *state,
                i as int,
            ) + row(*state, i as int));
            assert(rows(*state, i + 1) == rows(*state, i as int) + row(*state, i as int));
        }
        i = i + 1;
    }
    add_blank(&mut lines);
    push_footer(&mut lines, state, now);
    lines
}

/// Whether a hint offers a key.
pub open spec fn offers(hint: Seq<char>, key: char) -> bool {
    hint.len() >= 2 && hint[0] == key && hint[1] == ':'
}

proof fn hint_letters()
    ensures
        !offers("↑/↓ navigate"@, 'c'),
        !offers("⏎ open"@, 'c'),
        !offers("f: ★"@, 'c'),
        !offers("a: acknowledge"@, 'c'),
        !offers("m: issue VMC"@, 'c'),
        offers("c: capabilities"@, 'c'),
        !offers("p: personhood"@, 'c'),
        !offers("l: leave"@, 'c'),
        offers("c: cancel"@, 'c'),
        !offers("x: archive"@, 'c'),
        !offers("d: delete"@, 'c'),
        !offers("P: assert personhood"@, 'c'),
        !offers("j: join"@, 'c'),
        !offers("v: hide archived"@, 'c'),
        !offers("v: show archived"@, 'c'),
        "c: capabilities"@ != "c: cancel"@,
{
    reveal_strlit("↑/↓ navigate");
    reveal_strlit("⏎ open");
    reveal_strlit("f: ★");
    reveal_strlit("a: acknowledge");
    reveal_strlit("m: issue VMC");
    reveal_strlit("c: capabilities");
    reveal_strlit("p: personhood");
    reveal_strlit("l: leave");
    reveal_strlit("c: cancel");
    reveal_strlit("x: archive");
    reveal_strlit("d: delete");
    reveal_strlit("P: assert personhood");
    reveal_strlit("j: join");
    reveal_strlit("v: hide archived");
    reveal_strlit("v: show archived");
    assert("c: capabilities"@.len() == 15);
    assert("c: cancel"@.len() == 9);
}

/// No row offers `c` twice: a membership is not active and pending at once, and
/// each of the two gives the key one meaning. A row that is neither does not
/// offer it at all.
pub proof fn c_is_never_offered_twice(state: CommunitiesState, now: Timestamp, i: int, j: int)
    requires
        state.selected_index < state.items@.len() ==> {
            let c = state.items@[state.selected_index as int];
            !(c.is_active && c.is_pending)
        },
        0 <= i < hints(state, now).len(),
        0 <= j < hints(state, now).len(),
        offers(hints(state, now)[i], 'c'),
        offers(hints(state, now)[j], 'c'),
    ensures
        i == j,
        state.selected_index < state.items@.len(),
        ({
            let c = state.items@[state.selected_index as int];
            c.is_active || c.is_pending
        }),
{
    hint_letters();
}

/// The keys that act on the panel are offered whatever is selected, and the
/// archive key says what it would do.
pub proof fn panel_keys_are_always_offered(state: CommunitiesState, now: Timestamp)
    ensures
        hints(state, now).contains("j: join"@),
        hints(state, now).contains("v: hide archived"@) || !state.show_archived,
        hints(state, now).contains("v: show archived"@) || state.show_archived,
{
    let all = hints(state, now);
    let n = all.len() as int;
    assert(all[n - 2] == "j: join"@);
    assert(all[n - 1] == (if state.show_archived {
        "v: hide archived"@
    } else {
        "v: show archived"@
    }));
}

proof fn hints_differ()
    ensures
        forall|a: int, b: int|
            0 <= a < hint_list().len() && 0 <= b < hint_list().len() && a != b ==> (
            #[trigger] hint_list()[a]) != (#[trigger] hint_list()[b]),
{
    reveal_strlit("↑/↓ navigate");
    reveal_strlit("⏎ open");
    reveal_strlit("f: ★");
    reveal_strlit("a: acknowledge");
    reveal_strlit("m: issue VMC");
    reveal_strlit("c: capabilities");
    reveal_strlit("p: personhood");
    reveal_strlit("l: leave");
    reveal_strlit("c: cancel");
    reveal_strlit("x: archive");
    reveal_strlit("d: delete");
    reveal_strlit("P: assert personhood");
    reveal_strlit("j: join");
    reveal_strlit("v: hide archived");
    reveal_strlit("v: show archived");
    let firsts = seq!['↑', '⏎', 'f', 'a', 'm', 'c', 'p', 'l', 'c', 'x', 'd', 'P', 'j', 'v', 'v'];
    assert(forall|a: int| 0 <= a < 15 ==> (#[trigger] hint_list()[a])[0] == firsts[a]);
    assert(hint_list()[5].len() == 15);
    assert(hint_list()[8].len() == 9);
    assert(hint_list()[13][3] == 'h');
    assert(hint_list()[14][3] == 's');
}

/// Every hint there is.
pub open spec fn hint_list() -> Seq<Seq<char>> {
    seq![
        "↑/↓ navigate"@,
        "⏎ open"@,
        "f: ★"@,
        "a: acknowledge"@,
        "m: issue VMC"@,
        "c: capabilities"@,
        "p: personhood"@,
        "l: leave"@,
        "c: cancel"@,
        "x: archive"@,
        "d: delete"@,
        "P: assert personhood"@,
        "j: join"@,
        "v: hide archived"@,
        "v: show archived"@,
    ]
}

/// A key is offered exactly where it does something: some on an active
/// membership, one on a pending one, two on one that is over, and the answer to
/// a challenge while there is one to answer.
pub proof fn keys_are_offered_where_they_act(state: CommunitiesState, now: Timestamp)
    ensures
        ({
            let all = hints(state, now);
            let some = state.selected_index < state.items@.len();
            let c = state.items@[state.selected_index as int];
            &&& all.contains("⏎ open"@) <==> some
            &&& all.contains("m: issue VMC"@) <==> some && c.is_active
            &&& all.contains("c: capabilities"@) <==> some && c.is_active
            &&& all.contains("p: personhood"@) <==> some && c.is_active
            &&& all.contains("l: leave"@) <==> some && c.is_active
            &&& all.contains("c: cancel"@) <==> some && c.is_pending
            &&& all.contains("x: archive"@) <==> some && c.is_inactive
            &&& all.contains("d: delete"@) <==> some && c.is_inactive
            &&& all.contains("P: assert personhood"@) <==> answerable(state, now)
        }),
{
    hints_differ();
    let names = hint_list();
    let all = hints(state, now);
    let some = state.selected_index < state.items@.len();
    let c = state.items@[state.selected_index as int];
    let active: int = if c.is_active {
        4
    } else {
        0
    };
    let pending: int = if c.is_pending {
        1
    } else {
        0
    };
    assert(names[1] == "⏎ open"@);
    assert(names[4] == "m: issue VMC"@);
    assert(names[5] == "c: capabilities"@);
    assert(names[6] == "p: personhood"@);
    assert(names[7] == "l: leave"@);
    assert(names[8] == "c: cancel"@);
    assert(names[9] == "x: archive"@);
    assert(names[10] == "d: delete"@);
    assert(names[11] == "P: assert personhood"@);
    assert(names[0] == "↑/↓ navigate"@);
    assert(names[2] == "f: ★"@);
    assert(names[3] == "a: acknowledge"@);
    assert(names[12] == "j: join"@);
    assert(names[13] == "v: hide archived"@);
    assert(names[14] == "v: show archived"@);
    if some {
        assert(all[1] == "⏎ open"@);
        if c.is_active {
            assert(all[4] == "m: issue VMC"@);
            assert(all[5] == "c: capabilities"@);
            assert(all[6] == "p: personhood"@);
            assert(all[7] == "l: leave"@);
        }
        if c.is_pending {
            assert(all[4 + active] == "c: cancel"@);
        }
        if c.is_inactive {
            assert(all[4 + active + pending] == "x: archive"@);
            assert(all[5 + active + pending] == "d: delete"@);
        }
    }
    if answerable(state, now) {
        assert(all[all.len() - 3] == "P: assert personhood"@);
    }
}

/// A challenge that can still be answered shows its code on a line of its own.
pub proof fn a_live_code_stands_alone(
    state: CommunitiesState,
    challenge: PersonhoodChallengeView,
    now: Timestamp,
)
    requires
        state.personhood_challenge == Some(challenge),
        challenge.live(now),
    ensures
        panel(state, now).contains(text_line("   "@ + challenge.match_code@, bold(
            Color::SoftPurple,
        ))),
{
    let top: int = if state.status_message is Some {
        3
    } else {
        1
    };
    let block = challenge_lines(state.personhood_challenge, now);
    assert(preamble(state, now)[top + 1] == block[1]);
    assert(panel(state, now)[top + 1] == preamble(state, now)[top + 1]);
}

proof fn rows_ignore_the_challenge(
    state: CommunitiesState,
    challenge: Option<PersonhoodChallengeView>,
    n: int,
)
    ensures
        rows(CommunitiesState { personhood_challenge: challenge, ..state }, n) == rows(state, n),
    decreases n,
{
    if n > 0 {
        rows_ignore_the_challenge(state, challenge, n - 1);
    }
}

/// A challenge that has lapsed says so and shows nothing of its code: under any
/// other code the panel is the same.
pub proof fn a_lapsed_code_is_not_shown(
    state: CommunitiesState,
    challenge: PersonhoodChallengeView,
    code: String,
    now: Timestamp,
)
    requires
        state.personhood_challenge == Some(challenge),
        !challenge.live(now),
    ensures
        panel(
            CommunitiesState {
                personhood_challenge: Some(
                    PersonhoodChallengeView { match_code: code, ..challenge },
                ),
                ..state
            },
            now,
        ) == panel(state, now),
        panel(state, now).contains(
            text_line(
                " Personhood challenge expired — press p for a fresh one."@,
                colored(Color::DarkGray),
            ),
        ),
{
    let other = PersonhoodChallengeView { match_code: code, ..challenge };
    rows_ignore_the_challenge(state, Some(other), state.items@.len() as int);
    let top: int = if state.status_message is Some {
        3
    } else {
        1
    };
    let block = challenge_lines(state.personhood_challenge, now);
    assert(preamble(state, now)[top] == block[0]);
    assert(panel(state, now)[top] == preamble(state, now)[top]);
}

/// What has not been asked about reads as not known, never as nothing.
pub proof fn what_was_not_asked_about_is_not_known(
    state: CommunitiesState,
    c: CommunitySummary,
    unasked: BindingSummary,
    nothing: BindingSummary,
)
    requires
        !state.bindings@.dom().contains((c.sub_context_id@, c.persona_did@)),
        unasked.unknown,
        !nothing.unknown,
        !nothing.bound,
    ensures
        presented(state, c) == unasked.line(),
        presented(state, c) != nothing.line(),
{
    crate::persona_binding::readings_are_never_confused(unasked, nothing);
}

proof fn a_row_has_its_place(state: CommunitiesState, n: int, i: int)
    requires
        0 <= i < n,
    ensures
        rows(state, i).len() + row(state, i).len() <= rows(state, n).len(),
        rows(state, i + 1).len() == rows(state, i).len() + row(state, i).len(),
        forall|k: int|
            0 <= k < row(state, i).len() ==> rows(state, n)[rows(state, i).len() + k]
                == #[trigger] row(state, i)[k],
    decreases n,
{
    if i < n - 1 {
        a_row_has_its_place(state, n - 1, i);
        let before = rows(state, n - 1);
        let start = rows(state, i).len() as int;
        assert forall|k: int| 0 <= k < row(state, i).len() implies rows(state, n)[start + k]
            == #[trigger] row(state, i)[k] by {
            assert(before[start + k] == row(state, i)[k]);
            assert((before + row(state, n - 1))[start + k] == before[start + k]);
        }
    }
}

/// Where the lines of a row begin in the panel.
pub closed spec fn row_start(state: CommunitiesState, now: Timestamp, i: int) -> int {
    (preamble(state, now).len() + 2 + rows(state, i).len()) as int
}

proof fn a_row_is_rendered(state: CommunitiesState, now: Timestamp, lines: Seq<Line>, i: int)
    requires
        shown(lines) == panel(state, now),
        0 <= i < state.items@.len(),
    ensures
        0 < row_start(state, now, i),
        row_start(state, now, i) + row(state, i).len() < lines.len(),
        row_start(state, now, i + 1) == row_start(state, now, i) + row(state, i).len(),
        forall|k: int|
            0 <= k < row(state, i).len() ==> lines[row_start(state, now, i) + k]@
                == #[trigger] row(state, i)[k],
{
    let n = state.items@.len() as int;
    a_row_has_its_place(state, n, i);
    let top = preamble(state, now).push(header(state)).push(blank());
    let all = rows(state, n);
    let start = rows(state, i).len() as int;
    let whole = panel(state, now);
    assert(whole.len() == lines.len());
    assert forall|k: int| 0 <= k < row(state, i).len() implies lines[row_start(state, now, i)
        + k]@ == #[trigger] row(state, i)[k] by {
        let at = row_start(state, now, i) + k;
        assert(all[start + k] == row(state, i)[k]);
        assert(whole[at] == (top + all)[at]);
        assert((top + all)[at] == all[start + k]);
        assert(shown(lines)[at] == lines[at]@);
    }
}

/// Whether a line is the title of a row: who the community sees, marked where the
/// row is selected, a favourite, or wants something.
pub open spec fn titles(line: LineView, c: CommunitySummary, selected: bool) -> bool {
    &&& line.spans.len() == 4
    &&& line.spans[0].text == (if selected {
        "    ▸ "@
    } else {
        "      "@
    })
    &&& line.spans[1].text == (if c.favourite {
        "★ "@
    } else {
        ""@
    })
    &&& line.spans[2].text == "as "@ + (if c.persona_label@.len() > 0 {
        c.persona_label@
    } else {
        c.persona_did@
    })
    &&& line.spans[3].text == (if c.needs_attention {
        " ●"@
    } else {
        ""@
    })
    &&& line.spans[1].style.fg == Some(Color::Orange)
    &&& line.spans[3].style.fg == Some(Color::Orange)
    &&& line.spans[0].style == line.spans[2].style
    &&& line.spans[2].style.bold == selected
    &&& line.spans[2].style.fg == Some(
        if selected {
            Color::Success
        } else if c.is_inactive {
            Color::DarkGray
        } else {
            Color::TextDefault
        },
    )
}

/// Whether a line is the name of a community above its memberships: one piece, in
/// bold.
pub open spec fn names_community(line: LineView, name: Seq<char>) -> bool {
    &&& line.spans.len() == 1
    &&& line.spans[0].text == "  "@ + name
    &&& line.spans[0].style.bold
    &&& line.spans[0].style.fg == Some(Color::TextDefault)
}

proof fn a_row_begins_with_its_name(state: CommunitiesState, i: int)
    requires
        0 <= i < state.items@.len(),
    ensures
        i == 0 || state.items@[i - 1].vtc_did@ != state.items@[i].vtc_did@ ==> title_at(state, i)
            == 1 && names_community(row(state, i)[0], state.items@[i].display_name@),
        i > 0 && state.items@[i - 1].vtc_did@ == state.items@[i].vtc_did@ ==> title_at(state, i)
            == 0,
{
}

proof fn a_row_ends_without_a_name(state: CommunitiesState, i: int)
    requires
        0 <= i < state.items@.len(),
    ensures
        row(state, i).len() > 0,
        !(row(state, i).last().spans.len() == 1 && row(state, i).last().spans[0].style.bold),
{
    a_row_line_by_line(state, i);
    let c = state.items@[i];
    if i == state.selected_index {
        let all = facts(c);
        assert(row(state, i).last() == all.last());
        assert(all.last().spans.len() == 2);
    } else if c.pending_unacknowledged {
        assert(row(state, i).last() == third_line(c));
    } else {
        assert(row(state, i).last() == second_line(state, i));
    }
}

/// Each run of memberships of one community has the name of its first one right
/// above it, in bold, and no other line stands between a title and that name; a
/// membership of the same community as the one above it follows that one with no
/// name between them. Every membership has its title.
pub proof fn each_community_is_named_once(
    state: &CommunitiesState,
    now: Timestamp,
    lines: Vec<Line>,
    i: int,
)
    requires
        call_ensures(render_at, (state, now), lines),
        0 <= i < state.items@.len(),
    ensures
        i == 0 || state.items@[i - 1].vtc_did@ != state.items@[i].vtc_did@ ==> exists|p: int|
            0 <= p && p + 1 < lines@.len() && names_community(
                (#[trigger] lines@[p])@,
                state.items@[i].display_name@,
            ) && titles(lines@[p + 1]@, state.items@[i], i == state.selected_index),
        i > 0 && state.items@[i - 1].vtc_did@ == state.items@[i].vtc_did@ ==> exists|p: int|
            0 < p < lines@.len() && titles(
                (#[trigger] lines@[p])@,
                state.items@[i],
                i == state.selected_index,
            ) && !(lines@[p - 1]@.spans.len() == 1 && lines@[p - 1]@.spans[0].style.bold),
{
    a_row_is_rendered(*state, now, lines@, i);
    a_row_line_by_line(*state, i);
    lines_of_a_row_say_so(*state, i);
    a_row_begins_with_its_name(*state, i);
    let start = row_start(*state, now, i);
    let own = row(*state, i);
    let t = title_at(*state, i);
    assert(lines@[start + 0]@ == own[0]);
    assert(lines@[start + t]@ == own[t]);
    if i > 0 && state.items@[i - 1].vtc_did@ == state.items@[i].vtc_did@ {
        a_row_is_rendered(*state, now, lines@, i - 1);
        a_row_ends_without_a_name(*state, i - 1);
        let above = row(*state, i - 1);
        let k = above.len() - 1;
        assert(lines@[row_start(*state, now, i - 1) + k]@ == above[k]);
        assert(lines@[start - 1]@ == above.last());
    }
}

/// Rows stand in the order of the memberships, none is left out and none shown
/// twice: the title of a later one stands further down.
pub proof fn rows_stand_in_order(
    state: &CommunitiesState,
    now: Timestamp,
    lines: Vec<Line>,
    i: int,
)
    requires
        call_ensures(render_at, (state, now), lines),
        0 <= i,
        i + 1 < state.items@.len(),
    ensures
        exists|p: int, q: int|
            0 <= p < q < lines@.len() && titles(
                (#[trigger] lines@[p])@,
                state.items@[i],
                i == state.selected_index,
            ) && titles(
                (#[trigger] lines@[q])@,
                state.items@[i + 1],
                i + 1 == state.selected_index,
            ),
{
    a_row_is_rendered(*state, now, lines@, i);
    a_row_is_rendered(*state, now, lines@, i + 1);
    a_row_line_by_line(*state, i);
    a_row_line_by_line(*state, i + 1);
    lines_of_a_row_say_so(*state, i);
    lines_of_a_row_say_so(*state, i + 1);
    let p = row_start(*state, now, i) + title_at(*state, i);
    let q = row_start(*state, now, i + 1) + title_at(*state, i + 1);
    assert(lines@[p]@ == row(*state, i)[title_at(*state, i)]);
    assert(lines@[q]@ == row(*state, i + 1)[title_at(*state, i + 1)]);
}

/// Whether a line says how a membership stands: its status, since when where that
/// is known, what is presented where there is a context and a persona, and that
/// it is archived where it is.
pub open spec fn says_how_it_stands(line: LineView, state: CommunitiesState, c: CommunitySummary) -> bool {
    let asked = (c.sub_context_id@, c.persona_did@);
    &&& line.spans.len() == 1
    &&& line.spans[0].text == "        "@ + c.status_label@ + (if c.member_since@.len() == 0 {
        Seq::empty()
    } else {
        "  ·  since "@ + c.member_since@
    }) + (if c.sub_context_id@.len() == 0 || c.persona_did@.len() == 0 {
        Seq::empty()
    } else {
        "  ·  "@ + (if state.bindings@.dom().contains(asked) {
            state.bindings@[asked].line()
        } else {
            "presents: unknown"@
        })
    }) + (if c.archived {
        "  ·  archived"@
    } else {
        Seq::empty()
    })
}

proof fn the_second_line_in_pieces(state: CommunitiesState, c: CommunitySummary)
    ensures
        ({
            let asked = (c.sub_context_id@, c.persona_did@);
            row_detail(state, c) == "        "@ + c.status_label@ + (if c.member_since@.len() == 0 {
                Seq::empty()
            } else {
                "  ·  since "@ + c.member_since@
            }) + (if c.sub_context_id@.len() == 0 || c.persona_did@.len() == 0 {
                Seq::empty()
            } else {
                "  ·  "@ + (if state.bindings@.dom().contains(asked) {
                    state.bindings@[asked].line()
                } else {
                    "presents: unknown"@
                })
            }) + (if c.archived {
                "  ·  archived"@
            } else {
                Seq::empty()
            })
        }),
{
    let asked = (c.sub_context_id@, c.persona_did@);
    let status = "        "@ + c.status_label@;
    let since = if c.member_since@.len() == 0 {
        Seq::empty()
    } else {
        "  ·  since "@ + c.member_since@
    };
    let presents = if c.sub_context_id@.len() == 0 || c.persona_did@.len() == 0 {
        Seq::empty()
    } else {
        "  ·  "@ + (if state.bindings@.dom().contains(asked) {
            state.bindings@[asked].line()
        } else {
            "presents: unknown"@
        })
    };
    let over = if c.archived {
        "  ·  archived"@
    } else {
        Seq::empty()
    };
    assert(row_detail(state, c) =~= status + since + presents + over);
}

/// Whether a line warns that a join went unanswered, naming how it was sent where
/// that is known.
pub open spec fn warns(line: LineView, c: CommunitySummary) -> bool {
    &&& line.spans.len() == 1
    &&& line.spans[0].text == "    ⚠ no response from the community yet"@ + (
    match c.submit_transport {
        Some(how) => " (sent over "@ + how@ + ")"@,
        None => ""@,
    }) + " — the request may not have been received"@
    &&& line.spans[0].style.fg == Some(Color::Orange)
}

/// The line under the title of a row.
spec fn second_line(state: CommunitiesState, i: int) -> LineView {
    span_line(
        seq![
            span(
                row_detail(state, state.items@[i]),
                colored(
                    if i == state.selected_index {
                        Color::SoftPurple
                    } else {
                        Color::DarkGray
                    },
                ),
            ),
        ],
    )
}

/// The warning under a row.
spec fn third_line(c: CommunitySummary) -> LineView {
    span_line(seq![span(unanswered(c), colored(Color::Orange))])
}

/// Where the title stands among the lines of a row.
spec fn title_at(state: CommunitiesState, i: int) -> int {
    if opens_group(state.items@, i) {
        1
    } else {
        0
    }
}

proof fn a_row_line_by_line(state: CommunitiesState, i: int)
    requires
        0 <= i < state.items@.len(),
    ensures
        ({
            let own = row(state, i);
            let c = state.items@[i];
            let selected = i == state.selected_index;
            let t = title_at(state, i);
            &&& own.len() >= t + 2
            &&& own[t] == row_title(c, selected)
            &&& own[t + 1] == second_line(state, i)
            &&& c.pending_unacknowledged ==> own.len() > t + 2 && own[t + 2] == third_line(c)
            &&& !c.pending_unacknowledged && selected ==> own.len() > t + 2 && own[t + 2]
                == facts(c)[0]
            &&& !c.pending_unacknowledged && !selected ==> own.len() == t + 2
        }),
{
}

proof fn lines_of_a_row_say_so(state: CommunitiesState, i: int)
    requires
        0 <= i < state.items@.len(),
    ensures
        titles(row_title(state.items@[i], i == state.selected_index), state.items@[i], i
            == state.selected_index),
        says_how_it_stands(second_line(state, i), state, state.items@[i]),
        warns(third_line(state.items@[i]), state.items@[i]),
        !warns(facts(state.items@[i])[0], state.items@[i]),
        !warns(blank(), state.items@[i]),
        forall|j: int|
            0 <= j < state.items@.len() ==> !warns(#[trigger] row(state, j)[0], state.items@[i]),
{
    the_second_line_in_pieces(state, state.items@[i]);
}

proof fn what_follows_a_bare_row(
    state: CommunitiesState,
    now: Timestamp,
    lines: Seq<Line>,
    i: int,
)
    requires
        shown(lines) == panel(state, now),
        0 <= i < state.items@.len(),
    ensures
        row_start(state, now, i + 1) < lines.len(),
        i + 1 < state.items@.len() ==> lines[row_start(state, now, i + 1)]@ == row(
            state,
            i + 1,
        )[0],
        i + 1 == state.items@.len() ==> lines[row_start(state, now, i + 1)]@ == blank(),
{
    a_row_is_rendered(state, now, lines, i);
    let q = row_start(state, now, i + 1);
    if i + 1 < state.items@.len() {
        a_row_is_rendered(state, now, lines, i + 1);
        a_row_line_by_line(state, i + 1);
        assert(lines[q + 0]@ == row(state, i + 1)[0]);
    } else {
        let all = panel(state, now);
        assert(shown(lines).len() == lines.len());
        assert(shown(lines)[q] == lines[q]@);
        assert(all[q] == blank());
    }
}

/// Under the title of each membership stands how it stands; under that the warning
/// exactly where a join went unanswered.
pub proof fn each_row_says_how_it_stands(
    state: &CommunitiesState,
    now: Timestamp,
    lines: Vec<Line>,
    i: int,
)
    requires
        call_ensures(render_at, (state, now), lines),
        0 <= i < state.items@.len(),
    ensures
        exists|p: int|
            0 <= p && p + 2 < lines@.len() && titles(
                (#[trigger] lines@[p])@,
                state.items@[i],
                i == state.selected_index,
            ) && says_how_it_stands(lines@[p + 1]@, *state, state.items@[i])
                && lines@[p + 1]@.spans[0].style.fg == Some(
                if i == state.selected_index {
                    Color::SoftPurple
                } else {
                    Color::DarkGray
                },
            ) && (
            state.items@[i].pending_unacknowledged <==> warns(lines@[p + 2]@, state.items@[i])),
{
    a_row_is_rendered(*state, now, lines@, i);
    a_row_line_by_line(*state, i);
    lines_of_a_row_say_so(*state, i);
    what_follows_a_bare_row(*state, now, lines@, i);
    let c = state.items@[i];
    let selected = i == state.selected_index;
    let t = title_at(*state, i);
    let p = row_start(*state, now, i) + t;
    let own = row(*state, i);
    assert(lines@[p]@ == own[t]);
    assert(lines@[row_start(*state, now, i) + (t + 1)]@ == own[t + 1]);
    assert(lines@[p + 1]@ == second_line(*state, i));
    if own.len() > t + 2 {
        assert(lines@[row_start(*state, now, i) + (t + 2)]@ == own[t + 2]);
        assert(lines@[p + 2]@ == own[t + 2]);
    } else {
        assert(p + 2 == row_start(*state, now, i + 1));
    }
    assert(titles(lines@[p]@, c, selected));
}

/// Whether a line is a fact: its name, filled up, and what it is.
pub open spec fn states(line: LineView, name: Seq<char>, value: Seq<char>) -> bool {
    &&& line.spans.len() == 2
    &&& line.spans[0].text.len() == 6 + (if name.len() < 13 {
        13
    } else {
        name.len()
    })
    &&& line.spans[0].text.subrange(6, 6 + name.len() as int) == name
    &&& line.spans[1].text == value
}

proof fn a_fact_states_its_value(name: Seq<char>, value: Seq<char>)
    ensures
        states(fact(name, value), name, value),
{
    reveal_strlit("      ");
    let label = "      "@ + padded(name, 13);
    assert(label.subrange(6, 6 + name.len() as int) =~= name);
}

/// The selected row goes on to say who is seen and by whom, in which context and
/// under which request where there are such, and which credentials there are.
pub proof fn the_selected_row_is_told_in_full(
    state: &CommunitiesState,
    now: Timestamp,
    lines: Vec<Line>,
    i: int,
)
    requires
        call_ensures(render_at, (state, now), lines),
        0 <= i < state.items@.len(),
        i == state.selected_index,
    ensures
        ({
            let c = state.items@[i];
            let context: int = if c.sub_context_id@.len() > 0 {
                1
            } else {
                0
            };
            let request: int = if c.request_id@.len() > 0 {
                1
            } else {
                0
            };
            exists|p: int|
                0 <= p && p + 2 + context + request < lines@.len() && states(
                    (#[trigger] lines@[p])@,
                    "Persona:"@,
                    identifier(optional(c.persona_agent_name), c.persona_did@, 256),
                ) && states(
                    lines@[p + 1]@,
                    "VTC:"@,
                    identifier(optional(c.vtc_agent_name), c.vtc_did@, 256),
                ) && (context == 1 ==> states(
                    lines@[p + 2]@,
                    "Sub-context:"@,
                    c.sub_context_id@,
                )) && (request == 1 ==> states(
                    lines@[p + 2 + context]@,
                    "Request ID:"@,
                    c.request_id@,
                )) && states(
                    lines@[p + 2 + context + request]@,
                    "Credentials:"@,
                    "membership "@ + (if c.has_membership_credential {
                        "✓"@
                    } else {
                        "—"@
                    }) + "   role "@ + (if c.has_role_credential {
                        "✓"@
                    } else {
                        "—"@
                    }),
                )
        }),
{
    a_row_is_rendered(*state, now, lines@, i);
    let c = state.items@[i];
    let own = row(*state, i);
    let all = facts(c);
    let context: int = if c.sub_context_id@.len() > 0 {
        1
    } else {
        0
    };
    let request: int = if c.request_id@.len() > 0 {
        1
    } else {
        0
    };
    let before: int = own.len() - all.len();
    let p = row_start(*state, now, i) + before;
    assert forall|k: int| 0 <= k < all.len() implies lines@[p + k]@ == #[trigger] all[k] by {
        assert(own[before + k] == all[k]);
        assert(lines@[row_start(*state, now, i) + (before + k)]@ == own[before + k]);
    }
    let who = identifier(optional(c.persona_agent_name), c.persona_did@, 256);
    let community = identifier(optional(c.vtc_agent_name), c.vtc_did@, 256);
    let held = "membership "@ + mark(c.has_membership_credential) + "   role "@ + mark(
        c.has_role_credential,
    );
    a_fact_states_its_value("Persona:"@, who);
    a_fact_states_its_value("VTC:"@, community);
    a_fact_states_its_value("Sub-context:"@, c.sub_context_id@);
    a_fact_states_its_value("Request ID:"@, c.request_id@);
    a_fact_states_its_value("Credentials:"@, held);
    assert(all[0] == fact("Persona:"@, who));
    assert(all[1] == fact("VTC:"@, community));
    if context == 1 {
        assert(all[2] == fact("Sub-context:"@, c.sub_context_id@));
        assert(lines@[p + 2]@ == all[2]);
    }
    if request == 1 {
        assert(all[2 + context] == fact("Request ID:"@, c.request_id@));
        assert(lines@[p + (2 + context)]@ == all[2 + context]);
    }
    assert(all[2 + context + request] == fact("Credentials:"@, held));
    assert(lines@[p + (2 + context + request)]@ == all[2 + context + request]);
    assert(lines@[p + 0]@ == all[0]);
    assert(lines@[p + 1]@ == all[1]);
    assert(states(lines@[p]@, "Persona:"@, who));
}

/// A row that is not selected takes no more lines than its name, title, standing
/// and warning.
pub proof fn only_the_selected_row_is_told_in_full(
    state: CommunitiesState,
    now: Timestamp,
    i: int,
)
    requires
        0 <= i < state.items@.len(),
        i != state.selected_index,
    ensures
        row_start(state, now, i + 1) - row_start(state, now, i) == 2 + (if i == 0
            || state.items@[i - 1].vtc_did@ != state.items@[i].vtc_did@ {
            1int
        } else {
            0
        }) + (if state.items@[i].pending_unacknowledged {
            1int
        } else {
            0
        }),
{
    a_row_has_its_place(state, i + 1, i);
}

/// What the panel has to say stands second, above everything else.
pub proof fn the_message_stands_at_the_top(
    state: &CommunitiesState,
    now: Timestamp,
    lines: Vec<Line>,
    message: String,
)
    requires
        call_ensures(render_at, (state, now), lines),
        state.status_message == Some(message),
    ensures
        lines@.len() > 2,
        lines@[1]@.spans.len() == 1,
        lines@[1]@.spans[0].text == message@,
{
    let above = preamble(*state, now);
    let all = panel(*state, now);
    assert(shown(lines@).len() == lines@.len());
    assert(all[1] == above[1]);
    assert(shown(lines@)[1] == lines@[1]@);
}

/// With memberships, the line above them says how many communities want something,
/// or how many there are where none does; in the singular for one.
pub proof fn the_head_line_counts(state: &CommunitiesState, now: Timestamp, lines: Vec<Line>)
    requires
        call_ensures(render_at, (state, now), lines),
        state.items@.len() > 0,
    ensures
        exists|p: int|
            0 <= p < lines@.len() && (#[trigger] lines@[p])@.spans.len() == 1
                && lines@[p]@.spans[0].text == (if state.actions_required > 0 {
                " ● "@ + decimal(state.actions_required as nat) + " communit"@ + (
                if state.actions_required == 1 {
                    "y"@
                } else {
                    "ies"@
                }) + " need your attention"@
            } else {
                " "@ + decimal(state.items@.len()) + " communit"@ + (if state.items@.len() == 1 {
                    "y"@
                } else {
                    "ies"@
                })
            }) && lines@[p]@.style.fg == Some(
                if state.actions_required > 0 {
                    Color::Orange
                } else {
                    Color::TextDefault
                },
            ),
{
    let p = preamble(*state, now).len() as int;
    let all = panel(*state, now);
    assert(shown(lines@).len() == lines@.len());
    assert(all[p] == header(*state));
    assert(shown(lines@)[p] == lines@[p]@);
    assert(lines@[p]@.spans.len() == 1);
}

/// Who is in no community is told how to join one, last of all.
pub proof fn newcomers_are_told_to_join(
    state: &CommunitiesState,
    now: Timestamp,
    lines: Vec<Line>,
)
    requires
        call_ensures(render_at, (state, now), lines),
        state.items@.len() == 0,
    ensures
        lines@.len() > 0,
        lines@.last()@.spans.len() == 1,
        lines@.last()@.spans[0].text == "Press  j  to join your first community."@,
{
    let all = panel(*state, now);
    assert(shown(lines@).len() == lines@.len());
    assert(shown(lines@)[lines@.len() - 1] == lines@[lines@.len() - 1]@);
    assert(all.last() == welcome()[5]);
}

/// The last line asks for the confirmation that is up, of the row that is up and
/// by its community's name: a removal before a leaving, and that before a
/// withdrawal. Where none is up it offers the keys.
pub proof fn the_foot_line_asks_for_what_is_up(
    state: &CommunitiesState,
    now: Timestamp,
    lines: Vec<Line>,
    hint: String,
    name: Seq<char>,
    i: usize,
)
    requires
        call_ensures(render_at, (state, now), lines),
        call_ensures(key_hints_at, (state, now), hint),
        state.items@.len() > 0,
        name == (if i < state.items@.len() {
            state.items@[i as int].display_name@
        } else {
            "this community"@
        }),
    ensures
        lines@.len() > 0,
        lines@.last()@.spans.len() == 1,
        state.confirm_delete == Some(i) ==> lines@.last()@.spans[0].text == "Delete “"@ + name
            + "”?   y: confirm    n: cancel"@,
        state.confirm_delete is None && state.confirm_leave == Some(i)
            ==> lines@.last()@.spans[0].text == "Leave “"@ + name
            + "”? This sends a self-removal to the community.   y: confirm    n: cancel"@,
        state.confirm_delete is None && state.confirm_leave is None && state.confirm_withdraw
            == Some(i) ==> lines@.last()@.spans[0].text == "Cancel the pending join to “"@ + name
            + "”? The request will be marked withdrawn.   y: confirm    n: cancel"@,
        state.confirm_delete is None && state.confirm_leave is None
            && state.confirm_withdraw is None ==> lines@.last()@.spans[0].text == hint@,
        lines@.last()@.style.bold <==> !(state.confirm_delete is None && state.confirm_leave is None
            && state.confirm_withdraw is None),
        lines@.last()@.style.fg == Some(
            if lines@.last()@.style.bold {
                Color::Orange
            } else {
                Color::DarkGray
            },
        ),
        hint@ == joined(hints(*state, now), "   "@),
{
    let all = panel(*state, now);
    assert(shown(lines@).len() == lines@.len());
    assert(shown(lines@)[lines@.len() - 1] == lines@[lines@.len() - 1]@);
    assert(all.last() == footer(*state, now));
}

/// The key hints begin with how to move, go on with the keys that every selected
/// row answers to, and end with joining and the archive.
pub proof fn hints_come_in_order(state: CommunitiesState, now: Timestamp)
    ensures
        ({
            let all = hints(state, now);
            let n = all.len() as int;
            &&& n >= 3
            &&& all[0] == "↑/↓ navigate"@
            &&& all[n - 2] == "j: join"@
            &&& all[n - 1] == (if state.show_archived {
                "v: hide archived"@
            } else {
                "v: show archived"@
            })
            &&& state.selected_index < state.items@.len() ==> n >= 6 && all[1] == "⏎ open"@
                && all[2] == "f: ★"@ && all[3] == "a: acknowledge"@
            &&& n == 3 + (if state.selected_index < state.items@.len() {
                let c = state.items@[state.selected_index as int];
                3 + (if c.is_active {
                    4int
                } else {
                    0
                }) + (if c.is_pending {
                    1int
                } else {
                    0
                }) + (if c.is_inactive {
                    2int
                } else {
                    0
                })
            } else {
                0
            }) + (if state.personhood_challenge matches Some(challenge) && (now.secs
                < challenge.expires_at.secs || (now.secs == challenge.expires_at.secs && now.nanos
                < challenge.expires_at.nanos)) {
                1int
            } else {
                0
            })
        }),
{
}

/// The challenge block is shown exactly while a challenge is held: with its code,
/// alone on a line, until it expires, and without it from then on.
pub proof fn a_held_challenge_is_shown(
    lines: &mut Vec<Line>,
    state: &CommunitiesState,
    now: Timestamp,
)
    requires
        call_ensures(push_personhood_challenge, (lines, state, now), ()),
    ensures
        state.personhood_challenge is None ==> final(lines)@.len() == old(lines)@.len(),
        state.personhood_challenge matches Some(challenge) ==> {
            let n = old(lines)@.len() as int;
            let open = now.secs < challenge.expires_at.secs || (now.secs
                == challenge.expires_at.secs && now.nanos < challenge.expires_at.nanos);
            &&& final(lines)@.len() == n + (if open {
                4int
            } else {
                2
            })
            &&& open ==> final(lines)@[n + 1]@.spans.len() == 1
                && final(lines)@[n + 1]@.spans[0].text == "   "@ + challenge.match_code@
                && final(lines)@[n + 1]@.style.bold && final(lines)@[n]@.spans[0].text
                == " Personhood challenge"@ && final(lines)@[n + 2]@.spans[0].text
                == "   Confirm this code with whoever is vetting you, then press P."@
            &&& !open ==> final(lines)@[n]@.spans[0].text
                == " Personhood challenge expired — press p for a fresh one."@
        },
{
    let after = shown(final(lines)@);
    assert(after.len() == final(lines)@.len());
    assert(shown(old(lines)@).len() == old(lines)@.len());
    let n = old(lines)@.len() as int;
    let block = challenge_lines(state.personhood_challenge, now);
    if state.personhood_challenge is Some {
        assert(after[n] == block[0]);
        assert(after[n + 1] == block[1]);
        assert(after[n] == final(lines)@[n]@);
        assert(after[n + 1] == final(lines)@[n + 1]@);
        if block.len() == 4 {
            assert(after[n + 2] == block[2]);
            assert(after[n + 2] == final(lines)@[n + 2]@);
        }
    }
}

/// However the panel is rendered, every membership has its title in it.
pub proof fn every_membership_is_rendered(
    drawn_by: &CommunitiesPanel,
    state: &ContentPanelState,
    connection: &ConnectionState,
    lines: Vec<Line>,
    i: int,
)
    requires
        call_ensures(render, (&state.communities,), lines) || call_ensures(
            CommunitiesPanel::render,
            (drawn_by, state, connection),
            lines,
        ),
        0 <= i < state.communities.items@.len(),
    ensures
        exists|p: int|
            0 <= p < lines@.len() && titles(
                (#[trigger] lines@[p])@,
                state.communities.items@[i],
                i == state.communities.selected_index,
            ),
{
    let now = choose|now: Timestamp| shown(lines@) == #[trigger] panel(state.communities, now);
    a_row_is_rendered(state.communities, now, lines@, i);
    a_row_line_by_line(state.communities, i);
    lines_of_a_row_say_so(state.communities, i);
    let t = title_at(state.communities, i);
    let p = row_start(state.communities, now, i) + t;
    assert(lines@[p]@ == row(state.communities, i)[t]);
}

} // verus!
