//! What the activity log says of listeners and identities.

use vstd::prelude::*;
use crate::config::{Config, DegradedPersona, LoadIntegrity, StrandedMembership};
use crate::display::{shortened, truncate_did};
use crate::outside::{duration_text, duration_words, tenths, tenths_text};
use crate::text::{decimal, decimal_text, optional, optional_str, same_text};
use crate::time::Span;

verus! {

/// A DID as log lines show it.
pub open spec fn log_form(did: Seq<char>) -> Seq<char> {
    shortened(did, 30)
}

/// Shortens a DID for a log line.
pub fn log_did(did: &str) -> (text: String)
    ensures
        text@ == log_form(did@),
{
    truncate_did(did, 30)
}

/// What a community is called: what the user calls it, else its verified name,
/// else its DID.
pub open spec fn community_name(
    config: Config,
    vtc_did: Seq<char>,
    display_name: Option<Seq<char>>,
    max_len: nat,
) -> Seq<char> {
    match display_name {
        Some(name) => name,
        None => match config.agent_name(vtc_did) {
            Some(name) => name,
            None => shortened(vtc_did, max_len),
        },
    }
}

/// Names a community.
pub fn community_label(
    config: &Config,
    vtc_did: &str,
    display_name: Option<&str>,
    max_len: usize,
) -> (text: String)
    ensures
        text@ == community_name(*config, vtc_did@, optional_str(display_name), max_len as nat),
{
    match display_name {
        Some(name) => name.to_owned(),
        None => match config.agent_name_for(vtc_did) {
            Some(name) => name.to_owned(),
            None => truncate_did(vtc_did, max_len),
        },
    }
}

/// What a DID is called for itself: what the user calls it, else its verified
/// name.
pub open spec fn own_name(config: Config, did: Seq<char>) -> Option<Seq<char>> {
    match config.private.contacts.alias(did) {
        Some(alias) => Some(alias),
        None => config.agent_name(did),
    }
}

/// How a DID is shown. A DID that someone uses in a relationship and that has no
/// name stands for the persona behind it.
pub open spec fn display_name(config: Config, did: Seq<char>) -> Seq<char> {
    match own_name(config, did) {
        Some(name) => name,
        None => match config.private.relationships.with(did) {
            Some(relationship) => {
                let persona = relationship.remote_p_did@;
                match own_name(config, persona) {
                    Some(name) => name,
                    None => log_form(persona),
                }
            },
            None => log_form(did),
        },
    }
}

fn find_own_name(config: &Config, did: &str) -> (name: Option<String>)
    ensures
        optional(name) == own_name(*config, did@),
{
    let alias = config.private.contacts.alias_for(did);
    if alias.is_some() {
        return alias;
    }
    match config.agent_name_for(did) {
        Some(name) => Some(name.to_owned()),
        None => None,
    }
}

/// Shows a DID under its name, as far as there is one.
pub fn resolve_did_to_display(config: &Config, did: &str) -> (text: String)
    ensures
        text@ == display_name(*config, did@),
{
    if let Some(name) = find_own_name(config, did) {
        return name;
    }
    match config.private.relationships.find_by_remote_did(did) {
        Some(relationship) => {
            let persona = relationship.remote_p_did.as_str();
            match find_own_name(config, persona) {
                Some(name) => name,
                None => log_did(persona),
            }
        },
        None => log_did(did),
    }
}

/// Something that happened to a listener.
#[derive(Clone, Debug)]
pub enum LifecycleLog {
    Connected { listener_id: String },
    /// It dropped and did not come back in good time.
    Disconnected { listener_id: String, error: Option<String> },
    /// It dropped and came back in good time.
    Reconnected { listener_id: String, down_for: Span },
    CyclingRapidly { listener_id: String },
    Restarting { listener_id: String, attempt: u64, delay: Span },
    /// So many events went by unseen.
    Missed { count: u64 },
}

impl LifecycleLog {
    /// The spans are spans.
    pub open spec fn valid(self) -> bool {
        match self {
            LifecycleLog::Reconnected { down_for, .. } => down_for.valid(),
            LifecycleLog::Restarting { delay, .. } => delay.valid(),
            _ => true,
        }
    }

    /// The listener it happened to.
    pub open spec fn listener(self) -> Option<Seq<char>> {
        match self {
            LifecycleLog::Connected { listener_id } => Some(listener_id@),
            LifecycleLog::Disconnected { listener_id, .. } => Some(listener_id@),
            LifecycleLog::Reconnected { listener_id, .. } => Some(listener_id@),
            LifecycleLog::CyclingRapidly { listener_id } => Some(listener_id@),
            LifecycleLog::Restarting { listener_id, .. } => Some(listener_id@),
            LifecycleLog::Missed { .. } => None,
        }
    }
}

/// A line of the activity log and what opening it shows.
#[derive(Clone, Debug)]
pub struct LifecycleLine {
    pub summary: String,
    pub detail: Option<String>,
}

/// Who a line speaks of: the name, and the listener's identifier behind it where
/// the name is not the identifier already. A name may stand for several
/// listeners.
pub open spec fn who(config: Config, listener_id: Seq<char>) -> Seq<char> {
    let display = display_name(config, listener_id);
    let id = log_form(listener_id);
    if display == id {
        "'"@ + display + "'"@
    } else {
        "'"@ + display + "' ("@ + id + ")"@
    }
}

/// What a line's detail says of the listener.
pub open spec fn about(config: Config, listener_id: Seq<char>) -> Seq<char> {
    "listener id: "@ + listener_id + "\ndisplayed as: "@ + display_name(config, listener_id)
}

/// The line for an event.
pub open spec fn summary_of(config: Config, event: LifecycleLog) -> Seq<char> {
    match event {
        LifecycleLog::Connected { listener_id } => "Listener "@ + who(config, listener_id@)
            + " connected"@,
        LifecycleLog::Disconnected { listener_id, error } => {
            let still = "Listener "@ + who(config, listener_id@) + " is still disconnected"@;
            match error {
                Some(e) => still + ": "@ + e@,
                None => still + " (no transport error reported)"@,
            }
        },
        LifecycleLog::Reconnected { listener_id, down_for } => "Listener "@ + who(
            config,
            listener_id@,
        ) + " reconnected after "@ + tenths(down_for.secs, down_for.nanos) + "s"@,
        LifecycleLog::CyclingRapidly { listener_id } => "WARNING: Listener "@ + who(
            config,
            listener_id@,
        ) + " cycling rapidly — possible duplicate connection"@,
        LifecycleLog::Restarting { listener_id, attempt, delay } => "Listener "@ + who(
            config,
            listener_id@,
        ) + " restarting (attempt "@ + decimal(attempt as nat) + ", backoff "@ + duration_words(
            delay.secs,
            delay.nanos,
        ) + ")"@,
        LifecycleLog::Missed { count } => "Missed "@ + decimal(count as nat)
            + " lifecycle event(s)"@,
    }
}

/// What opening the line for an event shows.
pub open spec fn detail_of(config: Config, event: LifecycleLog) -> Option<Seq<char>> {
    match event {
        LifecycleLog::Connected { listener_id } => Some(about(config, listener_id@)),
        LifecycleLog::Disconnected { listener_id, error } => Some(
            match error {
                Some(e) => about(config, listener_id@) + "\nerror: "@ + e@,
                None => about(config, listener_id@)
                    + "\nerror: none reported — the connection closed without a transport error, and did not come back within the reconnect grace period"@,
            },
        ),
        LifecycleLog::Reconnected { listener_id, down_for } => Some(
            about(config, listener_id@) + "\ndown for: "@ + tenths(down_for.secs, down_for.nanos)
                + "s\nA drop this brief is the expected reconnect: the mediator's access token is refreshed before it expires and the socket is re-established as part of that, roughly every 12 minutes per listener. A drop that does not come back is reported as a disconnect instead."@,
        ),
        LifecycleLog::CyclingRapidly { listener_id } => Some(
            about(config, listener_id@)
                + "\nthis listener dropped twice within the cycling window"@,
        ),
        LifecycleLog::Restarting { listener_id, .. } => Some(about(config, listener_id@)),
        LifecycleLog::Missed { .. } => None,
    }
}

fn who_text(config: &Config, listener_id: &str) -> (text: String)
    ensures
        text@ == who(*config, listener_id@),
{
    let display = resolve_did_to_display(config, listener_id);
    let id = log_did(listener_id);
    let mut text = "'".to_owned();
    text.append(display.as_str());
    if same_text(display.as_str(), id.as_str()) {
        text.append("'");
    } else {
        text.append("' (");
        text.append(id.as_str());
        text.append(")");
    }
    text
}

fn about_text(config: &Config, listener_id: &str) -> (text: String)
    ensures
        text@ == about(*config, listener_id@),
{
    let mut text = "listener id: ".to_owned();
    text.append(listener_id);
    text.append("\ndisplayed as: ");
    let display = resolve_did_to_display(config, listener_id);
    text.append(display.as_str());
    text
}

fn listener_line(config: &Config, opening: &str, listener_id: &str, closing: &str) -> (text: String)
    ensures
        text@ == opening@ + who(*config, listener_id@) + closing@,
{
    let mut text = opening.to_owned();
    let name = who_text(config, listener_id);
    text.append(name.as_str());
    text.append(closing);
    text
}

/// The log line for something that happened to a listener.
pub fn format_lifecycle_log(config: &Config, event: &LifecycleLog) -> (line: LifecycleLine)
    requires
        event.valid(),
    ensures
        line.summary@ == summary_of(*config, *event),
        optional(line.detail) == detail_of(*config, *event),
{
    match event {
        LifecycleLog::Connected { listener_id } => {
            let summary = listener_line(config, "Listener ", listener_id.as_str(), " connected");
            LifecycleLine { summary, detail: Some(about_text(config, listener_id.as_str())) }
        },
        LifecycleLog::Disconnected { listener_id, error } => {
            let mut summary = listener_line(
                config,
                "Listener ",
                listener_id.as_str(),
                " is still disconnected",
            );
            let mut detail = about_text(config, listener_id.as_str());
            match error {
                Some(e) => {
                    summary.append(": ");
                    summary.append(e.as_str());
                    detail.append("\nerror: ");
                    detail.append(e.as_str());
                },
                None => {
                    summary.append(" (no transport error reported)");
                    detail.append(
                        "\nerror: none reported — the connection closed without a transport error, and did not come back within the reconnect grace period",
                    );
                },
            }
            LifecycleLine { summary, detail: Some(detail) }
        },
        LifecycleLog::Reconnected { listener_id, down_for } => {
            let seconds = tenths_text(*down_for);
            let mut summary = listener_line(
                config,
                "Listener ",
                listener_id.as_str(),
                " reconnected after ",
            );
            summary.append(seconds.as_str());
            summary.append("s");
            let mut detail = about_text(config, listener_id.as_str());
            detail.append("\ndown for: ");
            detail.append(seconds.as_str());
            detail.append(
                "s\nA drop this brief is the expected reconnect: the mediator's access token is refreshed before it expires and the socket is re-established as part of that, roughly every 12 minutes per listener. A drop that does not come back is reported as a disconnect instead.",
            );
            LifecycleLine { summary, detail: Some(detail) }
        },
        LifecycleLog::CyclingRapidly { listener_id } => {
            let summary = listener_line(
                config,
                "WARNING: Listener ",
                listener_id.as_str(),
                " cycling rapidly — possible duplicate connection",
            );
            let mut detail = about_text(config, listener_id.as_str());
            detail.append("\nthis listener dropped twice within the cycling window");
            LifecycleLine { summary, detail: Some(detail) }
        },
        LifecycleLog::Restarting { listener_id, attempt, delay } => {
            let mut summary = listener_line(
                config,
                "Listener ",
                listener_id.as_str(),
                " restarting (attempt ",
            );
            let attempts = decimal_text(*attempt);
            summary.append(attempts.as_str());
            summary.append(", backoff ");
            let backoff = duration_text(*delay);
            summary.append(backoff.as_str());
            summary.append(")");
            LifecycleLine { summary, detail: Some(about_text(config, listener_id.as_str())) }
        },
        LifecycleLog::Missed { count } => {
            let mut summary = "Missed ".to_owned();
            let missed = decimal_text(*count);
            summary.append(missed.as_str());
            summary.append(" lifecycle event(s)");
            LifecycleLine { summary, detail: None }
        },
    }
}

/// What is said of the personas that did not load.
pub open spec fn degraded_lines(personas: Seq<DegradedPersona>) -> Seq<char>
    decreases personas.len(),
{
    if personas.len() == 0 {
        Seq::empty()
    } else {
        let p = personas.last();
        degraded_lines(personas.drop_last()) + "persona "@ + p.did@ + ": "@ + p.reason@ + "\n"@
    }
}

/// What a stranded membership is called.
pub open spec fn stranded_name(membership: StrandedMembership) -> Seq<char> {
    match membership.label {
        Some(label) => label@,
        None => membership.vtc_did@,
    }
}

/// What is said of the memberships whose persona did not load, after `before`.
pub open spec fn stranded_lines(
    before: Seq<char>,
    memberships: Seq<StrandedMembership>,
) -> Seq<char>
    decreases memberships.len(),
{
    if memberships.len() == 0 {
        before
    } else {
        stranded_lines(before, memberships.drop_last()) + "community "@ + stranded_name(
            memberships.last(),
        ) + " is inactive: its persona did not load\n"@
    }
}

/// What is said of the keys that belong to nothing, after `before`.
pub open spec fn orphaned_lines(before: Seq<char>, key_ids: Seq<String>) -> Seq<char>
    decreases key_ids.len(),
{
    if key_ids.len() == 0 {
        before
    } else {
        orphaned_lines(before, key_ids.drop_last()) + "orphaned key record: "@ + key_ids.last()@
            + "\n"@
    }
}

/// Everything that was found wrong while loading, a line for each.
pub open spec fn integrity_lines(integrity: LoadIntegrity) -> Seq<char> {
    orphaned_lines(
        stranded_lines(
            degraded_lines(integrity.degraded_personas@),
            integrity.stranded_memberships@,
        ),
        integrity.orphaned_key_ids@,
    )
}

/// Writes down everything that was found wrong while loading.
pub fn integrity_detail(integrity: &LoadIntegrity) -> (text: String)
    ensures
        text@ == integrity_lines(*integrity),
{
    let mut out = String::new();
    let mut i: usize = 0;
    proof {
        assert(integrity.degraded_personas@.take(0) =~= Seq::<DegradedPersona>::empty());
    }
    while i < integrity.degraded_personas.len()
        invariant
            i <= integrity.degraded_personas@.len(),
            out@ == degraded_lines(integrity.degraded_personas@.take(i as int)),
        decreases integrity.degraded_personas@.len() - i,
    {
        proof {
            assert(integrity.degraded_personas@.take(i + 1).drop_last()
                =~= integrity.degraded_personas@.take(i as int));
        }
        let persona = &integrity.degraded_personas[i];
        out.append("persona ");
        out.append(persona.did.as_str());
        out.append(": ");
        out.append(persona.reason.as_str());
        out.append("\n");
        i = i + 1;
    }
    proof {
        assert(integrity.degraded_personas@.take(i as int) =~= integrity.degraded_personas@);
        assert(integrity.stranded_memberships@.take(0) =~= Seq::<StrandedMembership>::empty());
    }
    let ghost personas = out@;
    let mut j: usize = 0;
    while j < integrity.stranded_memberships.len()
        invariant
            j <= integrity.stranded_memberships@.len(),
            out@ == stranded_lines(personas, integrity.stranded_memberships@.take(j as int)),
        decreases integrity.stranded_memberships@.len() - j,
    {
        proof {
            assert(integrity.stranded_memberships@.take(j + 1).drop_last()
                =~= integrity.stranded_memberships@.take(j as int));
        }
        let membership = &integrity.stranded_memberships[j];
        out.append("community ");
        match &membership.label {
            Some(label) => out.append(label.as_str()),
            None => out.append(membership.vtc_did.as_str()),
        }
        out.append(" is inactive: its persona did not load\n");
        j = j + 1;
    }
    proof {
        assert(integrity.stranded_memberships@.take(j as int) =~= integrity.stranded_memberships@);
        assert(integrity.orphaned_key_ids@.take(0) =~= Seq::<String>::empty());
    }
    let ghost memberships = out@;
    let mut k: usize = 0;
    while k < integrity.orphaned_key_ids.len()
        invariant
            k <= integrity.orphaned_key_ids@.len(),
            out@ == orphaned_lines(memberships, integrity.orphaned_key_ids@.take(k as int)),
        decreases integrity.orphaned_key_ids@.len() - k,
    {
        proof {
            assert(integrity.orphaned_key_ids@.take(k + 1).drop_last()
                =~= integrity.orphaned_key_ids@.take(k as int));
        }
        out.append("orphaned key record: ");
        out.append(integrity.orphaned_key_ids[k].as_str());
        out.append("\n");
        k = k + 1;
    }
    proof {
        assert(integrity.orphaned_key_ids@.take(k as int) =~= integrity.orphaned_key_ids@);
    }
    out
}

/// What the user calls a DID comes before its verified name, and that before the
/// DID itself.
pub proof fn names_come_in_order(config: Config, did: Seq<char>)
    ensures
        config.private.contacts.alias(did) matches Some(alias) ==> display_name(config, did)
            == alias,
        config.private.contacts.alias(did) is None ==> (config.agent_name(did) matches Some(name)
            ==> display_name(config, did) == name),
        config.private.contacts.alias(did) is None && config.agent_name(did) is None
            && config.private.relationships.with(did) is None ==> display_name(config, did)
            == log_form(did),
{
}

/// What the user calls a community comes before its verified name, and that
/// before its DID.
pub proof fn communities_are_named_in_order(
    config: Config,
    vtc_did: Seq<char>,
    display_name: Option<Seq<char>>,
    max_len: nat,
)
    ensures
        ({
            let name = community_name(config, vtc_did, display_name, max_len);
            &&& display_name matches Some(chosen) ==> name == chosen
            &&& display_name is None ==> (config.agent_name(vtc_did) matches Some(verified)
                ==> name == verified)
            &&& display_name is None && config.agent_name(vtc_did) is None ==> name == shortened(
                vtc_did,
                max_len,
            )
        }),
{
}

/// What opening a line says of its listener begins with the whole identifier, on
/// a line of its own.
pub proof fn details_begin_with_the_identifier(config: Config, event: LifecycleLog)
    requires
        event.listener() is Some,
    ensures
        detail_of(config, event) matches Some(detail) && ("listener id: "@ + event.listener()->0
            + "\n"@).is_prefix_of(detail),
{
    reveal_strlit("\n");
    reveal_strlit("\ndisplayed as: ");
    let id = event.listener()->0;
    let head = "listener id: "@ + id + "\n"@;
    let whole = about(config, id);
    assert(head =~= whole.subrange(0, head.len() as int));
    let detail = detail_of(config, event)->0;
    assert(head =~= detail.subrange(0, head.len() as int));
}

/// Two listeners are always told apart by what opening their lines shows,
/// whatever they are called and whatever happened to them. Identifiers do not
/// run over the end of a line.
pub proof fn listeners_are_told_apart(
    config: Config,
    one: LifecycleLog,
    other: LifecycleLog,
)
    requires
        one.listener() is Some,
        other.listener() is Some,
        one.listener() != other.listener(),
        !one.listener()->0.contains('\n'),
        !other.listener()->0.contains('\n'),
    ensures
        detail_of(config, one) != detail_of(config, other),
{
    details_begin_with_the_identifier(config, one);
    details_begin_with_the_identifier(config, other);
    reveal_strlit("\n");
    reveal_strlit("listener id: ");
    let a = one.listener()->0;
    let b = other.listener()->0;
    if detail_of(config, one) == detail_of(config, other) {
        let detail = detail_of(config, one)->0;
        let head_a = "listener id: "@ + a + "\n"@;
        let head_b = "listener id: "@ + b + "\n"@;
        assert(forall|i: int| 0 <= i < a.len() ==> #[trigger] detail[13 + i] == a[i]) by {
            assert forall|i: int| 0 <= i < a.len() implies #[trigger] detail[13 + i] == a[i] by {
                assert(head_a[13 + i] == a[i]);
                assert(detail.subrange(0, head_a.len() as int)[13 + i] == detail[13 + i]);
            }
        }
        assert(forall|i: int| 0 <= i < b.len() ==> #[trigger] detail[13 + i] == b[i]) by {
            assert forall|i: int| 0 <= i < b.len() implies #[trigger] detail[13 + i] == b[i] by {
                assert(head_b[13 + i] == b[i]);
                assert(detail.subrange(0, head_b.len() as int)[13 + i] == detail[13 + i]);
            }
        }
        assert(head_a[13 + a.len() as int] == '\n');
        assert(detail.subrange(0, head_a.len() as int)[13 + a.len() as int] == detail[13 + a.len() as int]);
        assert(head_b[13 + b.len() as int] == '\n');
        assert(detail.subrange(0, head_b.len() as int)[13 + b.len() as int] == detail[13 + b.len() as int]);
        if a.len() < b.len() {
            assert(detail[13 + a.len() as int] == b[a.len() as int]);
            assert(b.contains('\n'));
        }
        if b.len() < a.len() {
            assert(detail[13 + b.len() as int] == a[b.len() as int]);
            assert(a.contains('\n'));
        }
        assert(a =~= b) by {
            assert forall|i: int| 0 <= i < a.len() implies a[i] == b[i] by {
                assert(detail[13 + i] == a[i]);
                assert(detail[13 + i] == b[i]);
            }
        }
    }
}

/// Two listeners that go by the same name are told apart in their lines too, as
/// far as the shortened identifiers differ.
pub proof fn same_named_listeners_are_told_apart(config: Config, one: Seq<char>, other: Seq<char>)
    requires
        display_name(config, one) == display_name(config, other),
        log_form(one) != log_form(other),
    ensures
        who(config, one) != who(config, other),
{
    let name = display_name(config, one);
    let a = log_form(one);
    let b = log_form(other);
    reveal_strlit("'");
    reveal_strlit("' (");
    reveal_strlit(")");
    let open = "'"@ + name + "' ("@;
    let bare = "'"@ + name + "'"@;
    assert(open.len() == name.len() + 4);
    assert(bare.len() == name.len() + 2);
    if name != a && name != b && who(config, one) == who(config, other) {
        let whole = open + a + ")"@;
        assert(whole == open + b + ")"@);
        assert(a.len() == b.len());
        assert forall|i: int| 0 <= i < a.len() implies a[i] == b[i] by {
            assert(whole[open.len() + i] == a[i]);
            assert((open + b + ")"@)[open.len() + i] == b[i]);
        }
        assert(a =~= b);
    }
}

/// A DID is shown by what the user calls it, else by its verified name; a DID
/// that someone uses in a relationship and that has neither by what the persona
/// behind it is called in the same way, and else by that persona's DID; any other
/// by itself. DIDs are cut to thirty characters.
pub proof fn a_did_is_shown_by_the_best_name(config: &Config, did: &str, text: String)
    requires
        call_ensures(resolve_did_to_display, (config, did), text),
    ensures
        ({
            let aliases = config.private.contacts.contacts@;
            let aliased = |d: Seq<char>| aliases.dom().contains(d) && aliases[d].alias is Some;
            &&& aliased(did@) ==> text@ == aliases[did@].alias->0@
            &&& !aliased(did@) ==> (config.agent_name(did@) matches Some(name) ==> text@ == name)
            &&& !aliased(did@) && config.agent_name(did@) is None ==> (
            config.private.relationships.with(did@) matches Some(r) ==> {
                let behind = r.remote_p_did@;
                &&& aliased(behind) ==> text@ == aliases[behind].alias->0@
                &&& !aliased(behind) ==> (config.agent_name(behind) matches Some(name) ==> text@
                    == name)
                &&& !aliased(behind) && config.agent_name(behind) is None && behind.len() <= 30
                    ==> text@ == behind
                &&& !aliased(behind) && config.agent_name(behind) is None && behind.len() > 30
                    ==> text@ == behind.take(29) + "…"@
            })
            &&& !aliased(did@) && config.agent_name(did@) is None && config.private.relationships.with(
                did@,
            ) is None ==> text@ == (if did@.len() <= 30 {
                did@
            } else {
                did@.take(29) + "…"@
            })
        }),
{
}

/// A community is named by what the user calls it, else by its verified name, else
/// by its DID, cut to the room there is.
pub proof fn a_community_is_shown_by_the_best_name(
    config: &Config,
    vtc_did: &str,
    display_name: Option<&str>,
    max_len: usize,
    text: String,
)
    requires
        call_ensures(community_label, (config, vtc_did, display_name, max_len), text),
    ensures
        display_name matches Some(name) ==> text@ == name@,
        display_name is None ==> (config.agent_name(vtc_did@) matches Some(name) ==> text@ == name),
        display_name is None && config.agent_name(vtc_did@) is None ==> text@ == shortened(
            vtc_did@,
            max_len as nat,
        ),
{
}

/// A line about a listener names it in quotes, and adds its identifier, cut to
/// thirty characters, exactly where the name is not that identifier.
pub proof fn a_listener_is_named_with_its_identifier(config: Config, listener: Seq<char>)
    ensures
        ({
            let id = shortened(listener, 30);
            let name = display_name(config, listener);
            &&& name == id ==> who(config, listener) == "'"@ + id + "'"@
            &&& name != id ==> who(config, listener) == "'"@ + name + "' ("@ + id + ")"@
        }),
{
}

/// What happened to a listener is said in words of its own, with the listener and
/// whatever came with it: the error, how long it was gone, which attempt it is and
/// how long it waits, or how many events went by.
pub proof fn each_event_has_its_words(config: &Config, event: &LifecycleLog, line: LifecycleLine)
    requires
        event.valid(),
        call_ensures(format_lifecycle_log, (config, event), line),
    ensures
        *event matches LifecycleLog::Connected { listener_id } ==> line.summary@ == "Listener "@
            + who(*config, listener_id@) + " connected"@,
        *event matches LifecycleLog::Disconnected { listener_id, error } ==> line.summary@
            == "Listener "@ + who(*config, listener_id@) + " is still disconnected"@ + (
        match error {
            Some(e) => ": "@ + e@,
            None => " (no transport error reported)"@,
        }),
        *event matches LifecycleLog::Reconnected { listener_id, down_for } ==> line.summary@
            == "Listener "@ + who(*config, listener_id@) + " reconnected after "@ + tenths(
            down_for.secs,
            down_for.nanos,
        ) + "s"@,
        *event matches LifecycleLog::CyclingRapidly { listener_id } ==> line.summary@
            == "WARNING: Listener "@ + who(*config, listener_id@)
            + " cycling rapidly — possible duplicate connection"@,
        *event matches LifecycleLog::Restarting { listener_id, attempt, delay } ==> line.summary@
            == "Listener "@ + who(*config, listener_id@) + " restarting (attempt "@ + decimal(
            attempt as nat,
        ) + ", backoff "@ + duration_words(delay.secs, delay.nanos) + ")"@,
        *event matches LifecycleLog::Missed { count } ==> line.summary@ == "Missed "@ + decimal(
            count as nat,
        ) + " lifecycle event(s)"@,
        line.detail is None <==> event is Missed,
{
    if let LifecycleLog::Disconnected { listener_id, error } = *event {
        let still = "Listener "@ + who(*config, listener_id@) + " is still disconnected"@;
        if let Some(e) = error {
            assert(still + ": "@ + e@ =~= still + (": "@ + e@));
        }
    }
}

/// Opening a line shows the whole identifier of the listener and the name it is
/// shown by, and then whatever else there is to say.
pub proof fn opening_a_line_shows_identifier_and_name(
    config: &Config,
    event: &LifecycleLog,
    line: LifecycleLine,
)
    requires
        event.valid(),
        event.listener() is Some,
        call_ensures(format_lifecycle_log, (config, event), line),
    ensures
        line.detail matches Some(detail) && {
            let id = event.listener()->0;
            let head = "listener id: "@ + id + "\ndisplayed as: "@ + display_name(*config, id);
            &&& head.is_prefix_of(detail@)
            &&& event is Connected || event is Restarting ==> detail@ == head
            &&& *event matches LifecycleLog::Disconnected { listener_id, error } ==> (
            error matches Some(e) ==> detail@ == head + "\nerror: "@ + e@)
            &&& *event matches LifecycleLog::Disconnected { listener_id, error } ==> (error is None
                ==> detail@ == head
                + "\nerror: none reported — the connection closed without a transport error, and did not come back within the reconnect grace period"@)
            &&& *event matches LifecycleLog::Reconnected { listener_id, down_for } ==> (head
                + "\ndown for: "@ + tenths(down_for.secs, down_for.nanos) + "s\n"@).is_prefix_of(
                detail@,
            )
            &&& event is CyclingRapidly ==> detail@ == head
                + "\nthis listener dropped twice within the cycling window"@
        },
{
    let id = event.listener()->0;
    let head = "listener id: "@ + id + "\ndisplayed as: "@ + display_name(*config, id);
    let detail = line.detail->0;
    assert(head == about(*config, id));
    assert(head =~= detail@.subrange(0, head.len() as int));
    if let LifecycleLog::Reconnected { listener_id, down_for } = *event {
        let gone = head + "\ndown for: "@ + tenths(down_for.secs, down_for.nanos);
        let rest =
            "s\nA drop this brief is the expected reconnect: the mediator's access token is refreshed before it expires and the socket is re-established as part of that, roughly every 12 minutes per listener. A drop that does not come back is reported as a disconnect instead."@;
        reveal_strlit("s\n");
        reveal_strlit(
            "s\nA drop this brief is the expected reconnect: the mediator's access token is refreshed before it expires and the socket is re-established as part of that, roughly every 12 minutes per listener. A drop that does not come back is reported as a disconnect instead.",
        );
        assert(rest[0] == 's' && rest[1] == '\n');
        let longer = gone + "s\n"@;
        assert(detail@ == gone + rest);
        assert(longer =~= detail@.subrange(0, longer.len() as int));
    }
}

/// The lines of one list of personas after another are those of both at once.
pub proof fn degraded_lines_add_up(first: Seq<DegradedPersona>, second: Seq<DegradedPersona>)
    ensures
        degraded_lines(first + second) == degraded_lines(first) + degraded_lines(second),
    decreases second.len(),
{
    if second.len() == 0 {
        assert(first + second =~= first);
        assert(degraded_lines(first) + degraded_lines(second) =~= degraded_lines(first));
    } else {
        degraded_lines_add_up(first, second.drop_last());
        assert((first + second).drop_last() =~= first + second.drop_last());
        assert((first + second).last() == second.last());
        assert(degraded_lines(first + second) =~= degraded_lines(first) + degraded_lines(second));
    }
}

/// The lines of memberships come after what is written, one list after another.
pub proof fn stranded_lines_come_after(
    before: Seq<char>,
    first: Seq<StrandedMembership>,
    second: Seq<StrandedMembership>,
)
    ensures
        stranded_lines(before, first + second) == stranded_lines(before, first) + stranded_lines(
            Seq::empty(),
            second,
        ),
    decreases second.len(),
{
    if second.len() == 0 {
        assert(first + second =~= first);
        assert(stranded_lines(before, first) + Seq::<char>::empty() =~= stranded_lines(
            before,
            first,
        ));
    } else {
        stranded_lines_come_after(before, first, second.drop_last());
        assert((first + second).drop_last() =~= first + second.drop_last());
        assert((first + second).last() == second.last());
        assert(stranded_lines(before, first + second) =~= stranded_lines(before, first)
            + stranded_lines(Seq::empty(), second));
    }
}

/// The lines of keys come after what is written, one list after another.
pub proof fn orphaned_lines_come_after(before: Seq<char>, first: Seq<String>, second: Seq<String>)
    ensures
        orphaned_lines(before, first + second) == orphaned_lines(before, first) + orphaned_lines(
            Seq::empty(),
            second,
        ),
    decreases second.len(),
{
    if second.len() == 0 {
        assert(first + second =~= first);
        assert(orphaned_lines(before, first) + Seq::<char>::empty() =~= orphaned_lines(
            before,
            first,
        ));
    } else {
        orphaned_lines_come_after(before, first, second.drop_last());
        assert((first + second).drop_last() =~= first + second.drop_last());
        assert((first + second).last() == second.last());
        assert(orphaned_lines(before, first + second) =~= orphaned_lines(before, first)
            + orphaned_lines(Seq::empty(), second));
    }
}

/// Whether a text has a passage in it.
pub open spec fn has_passage(text: Seq<char>, passage: Seq<char>) -> bool {
    exists|a: Seq<char>, b: Seq<char>| #[trigger] (a + passage + b) == text
}

proof fn a_passage_stays_in_a_longer_text(
    before: Seq<char>,
    text: Seq<char>,
    behind: Seq<char>,
    passage: Seq<char>,
)
    requires
        has_passage(text, passage),
    ensures
        has_passage(before + text + behind, passage),
{
    let (a, b) = choose|a: Seq<char>, b: Seq<char>| #[trigger] (a + passage + b) == text;
    let front = before + a;
    let back = b + behind;
    assert(front + passage + back =~= before + (a + passage + b) + behind);
}

proof fn a_missing_persona_has_its_line(personas: Seq<DegradedPersona>, i: int)
    requires
        0 <= i < personas.len(),
    ensures
        has_passage(
            degraded_lines(personas),
            "persona "@ + personas[i].did@ + ": "@ + personas[i].reason@ + "\n"@,
        ),
{
    let one = seq![personas[i]];
    let early = personas.take(i);
    let late = personas.skip(i + 1);
    assert(personas =~= early + (one + late));
    degraded_lines_add_up(early, one + late);
    degraded_lines_add_up(one, late);
    reveal_with_fuel(degraded_lines, 2);
    assert(one.drop_last() =~= Seq::<DegradedPersona>::empty());
    let line = "persona "@ + personas[i].did@ + ": "@ + personas[i].reason@ + "\n"@;
    assert(degraded_lines(one) =~= line);
    assert(degraded_lines(early) + line + degraded_lines(late) =~= degraded_lines(personas));
}

proof fn a_stranded_membership_has_its_line(memberships: Seq<StrandedMembership>, i: int)
    requires
        0 <= i < memberships.len(),
    ensures
        has_passage(
            stranded_lines(Seq::empty(), memberships),
            "community "@ + (match memberships[i].label {
                Some(label) => label@,
                None => memberships[i].vtc_did@,
            }) + " is inactive: its persona did not load\n"@,
        ),
{
    let none = Seq::<char>::empty();
    let one = seq![memberships[i]];
    let early = memberships.take(i);
    let late = memberships.skip(i + 1);
    assert(memberships =~= early + (one + late));
    stranded_lines_come_after(none, early, one + late);
    stranded_lines_come_after(none, one, late);
    reveal_with_fuel(stranded_lines, 2);
    assert(one.drop_last() =~= Seq::<StrandedMembership>::empty());
    let line = "community "@ + (match memberships[i].label {
        Some(label) => label@,
        None => memberships[i].vtc_did@,
    }) + " is inactive: its persona did not load\n"@;
    assert(stranded_lines(none, one) =~= line);
    assert(stranded_lines(none, early) + line + stranded_lines(none, late) =~= stranded_lines(
        none,
        memberships,
    ));
}

proof fn an_orphaned_key_has_its_line(keys: Seq<String>, i: int)
    requires
        0 <= i < keys.len(),
    ensures
        has_passage(
            orphaned_lines(Seq::empty(), keys),
            "orphaned key record: "@ + keys[i]@ + "\n"@,
        ),
{
    let none = Seq::<char>::empty();
    let one = seq![keys[i]];
    let early = keys.take(i);
    let late = keys.skip(i + 1);
    assert(keys =~= early + (one + late));
    orphaned_lines_come_after(none, early, one + late);
    orphaned_lines_come_after(none, one, late);
    reveal_with_fuel(orphaned_lines, 2);
    assert(one.drop_last() =~= Seq::<String>::empty());
    let line = "orphaned key record: "@ + keys[i]@ + "\n"@;
    assert(orphaned_lines(none, one) =~= line);
    assert(orphaned_lines(none, early) + line + orphaned_lines(none, late) =~= orphaned_lines(
        none,
        keys,
    ));
}

/// Everything that was found wrong has a line: each persona that did not load with
/// its reason, each membership that it leaves behind by its name, and each key
/// that belongs to nothing.
pub proof fn everything_amiss_is_written_down(integrity: &LoadIntegrity, text: String, i: int)
    requires
        call_ensures(integrity_detail, (integrity,), text),
    ensures
        0 <= i < integrity.degraded_personas@.len() ==> has_passage(
            text@,
            "persona "@ + integrity.degraded_personas@[i].did@ + ": "@
                + integrity.degraded_personas@[i].reason@ + "\n"@,
        ),
        0 <= i < integrity.stranded_memberships@.len() ==> has_passage(
            text@,
            "community "@ + (match integrity.stranded_memberships@[i].label {
                Some(label) => label@,
                None => integrity.stranded_memberships@[i].vtc_did@,
            }) + " is inactive: its persona did not load\n"@,
        ),
        0 <= i < integrity.orphaned_key_ids@.len() ==> has_passage(
            text@,
            "orphaned key record: "@ + integrity.orphaned_key_ids@[i]@ + "\n"@,
        ),
        integrity.degraded_personas@.len() + integrity.stranded_memberships@.len()
            + integrity.orphaned_key_ids@.len() == 0 ==> text@.len() == 0,
{
    let personas = integrity.degraded_personas@;
    let memberships = integrity.stranded_memberships@;
    let keys = integrity.orphaned_key_ids@;
    let none = Seq::<char>::empty();
    let p = degraded_lines(personas);
    let m = stranded_lines(none, memberships);
    let k = orphaned_lines(none, keys);
    assert(Seq::<StrandedMembership>::empty() + memberships =~= memberships);
    assert(Seq::<String>::empty() + keys =~= keys);
    stranded_lines_come_after(p, Seq::empty(), memberships);
    orphaned_lines_come_after(p + m, Seq::empty(), keys);
    assert(text@ == p + m + k);
    if 0 <= i < personas.len() {
        let line = "persona "@ + personas[i].did@ + ": "@ + personas[i].reason@ + "\n"@;
        a_missing_persona_has_its_line(personas, i);
        a_passage_stays_in_a_longer_text(none, p, m + k, line);
        assert(none + p + (m + k) =~= text@);
    }
    if 0 <= i < memberships.len() {
        let line = "community "@ + (match memberships[i].label {
            Some(label) => label@,
            None => memberships[i].vtc_did@,
        }) + " is inactive: its persona did not load\n"@;
        a_stranded_membership_has_its_line(memberships, i);
        a_passage_stays_in_a_longer_text(p, m, k, line);
    }
    if 0 <= i < keys.len() {
        let line = "orphaned key record: "@ + keys[i]@ + "\n"@;
        an_orphaned_key_has_its_line(keys, i);
        a_passage_stays_in_a_longer_text(p + m, k, none, line);
        assert((p + m) + k + none =~= text@);
    }
}

} // verus!
