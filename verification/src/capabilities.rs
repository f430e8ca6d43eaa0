//! Asking about a community's capabilities: the request that is under way, the
//! replies to it, and giving up on it.

use vstd::prelude::*;
use crate::background_dispatch::{busy_words, DispatchDomain, InFlight};
use crate::content::{CapabilitiesPhase, CapabilitiesView, CapabilitySummary, ContentPanelState};
use crate::identity::PersonaId;
use crate::state::State;
use crate::text::{optional, same_text};

verus! {

/// A community's reply about its capabilities.
#[derive(Clone, Debug)]
pub enum CapabilityReply {
    /// The capabilities there are.
    Listing(Vec<CapabilitySummary>),
    /// A capability was changed.
    Toggled { capability: String, enabled: bool },
    /// The request was refused.
    Rejected { code: String, message: Option<String> },
}

/// What a capability says.
pub struct CapabilityFacts {
    pub slug: Seq<char>,
    pub enabled: bool,
}

impl View for CapabilitySummary {
    type V = CapabilityFacts;

    open spec fn view(&self) -> CapabilityFacts {
        CapabilityFacts { slug: self.slug@, enabled: self.enabled }
    }
}

/// What a list of capabilities says.
pub open spec fn facts(items: Seq<CapabilitySummary>) -> Seq<CapabilityFacts> {
    items.map_values(|item: CapabilitySummary| item@)
}

/// How far the view has come.
pub enum Progress {
    Loading,
    Loaded,
    Failed(Seq<char>),
}

impl View for CapabilitiesPhase {
    type V = Progress;

    open spec fn view(&self) -> Progress {
        match self {
            CapabilitiesPhase::Loading => Progress::Loading,
            CapabilitiesPhase::Loaded => Progress::Loaded,
            CapabilitiesPhase::Failed(reason) => Progress::Failed(reason@),
        }
    }
}

/// What the capabilities view shows and waits for.
#[verifier::ext_equal]
pub struct Sight {
    pub vtc_did: Seq<char>,
    pub persona: PersonaId,
    pub community_name: Seq<char>,
    pub phase: Progress,
    pub items: Seq<CapabilityFacts>,
    pub selected: nat,
    pub detail: bool,
    pub confirm_toggle: Option<usize>,
    /// The thread of the reply that is waited for.
    pub awaits: Option<Seq<char>>,
    pub sent_at: Option<u64>,
    pub status: Option<Seq<char>>,
}

impl View for CapabilitiesView {
    type V = Sight;

    open spec fn view(&self) -> Sight {
        Sight {
            vtc_did: self.vtc_did@,
            persona: self.persona,
            community_name: self.community_name@,
            phase: self.phase@,
            items: facts(self.items@),
            selected: self.selected as nat,
            detail: self.detail,
            confirm_toggle: self.confirm_toggle,
            awaits: optional(self.pending_thid),
            sent_at: self.sent_at,
            status: optional(self.status_message),
        }
    }
}

/// A community's reply, by what it says.
pub enum ReplyFacts {
    Listing(Seq<CapabilityFacts>),
    Toggled(Seq<char>, bool),
    Rejected(Seq<char>, Option<Seq<char>>),
}

impl View for CapabilityReply {
    type V = ReplyFacts;

    open spec fn view(&self) -> ReplyFacts {
        match self {
            CapabilityReply::Listing(items) => ReplyFacts::Listing(facts(items@)),
            CapabilityReply::Toggled { capability, enabled } => ReplyFacts::Toggled(
                capability@,
                *enabled,
            ),
            CapabilityReply::Rejected { code, message } => ReplyFacts::Rejected(
                code@,
                optional(*message),
            ),
        }
    }
}

/// A list in which the first capability at or after `from` that goes by a name is
/// switched.
pub open spec fn switched(
    items: Seq<CapabilityFacts>,
    slug: Seq<char>,
    enabled: bool,
    from: int,
) -> Seq<CapabilityFacts>
    decreases items.len() - from,
{
    if 0 <= from < items.len() {
        if items[from].slug == slug {
            items.update(from, CapabilityFacts { slug, enabled })
        } else {
            switched(items, slug, enabled, from + 1)
        }
    } else {
        items
    }
}

/// A selection that stays within a list.
pub open spec fn within(selected: nat, len: nat) -> nat {
    if len == 0 {
        0
    } else if selected < len {
        selected
    } else {
        (len - 1) as nat
    }
}

/// The reason behind a refusal, where one is given.
pub open spec fn reason_given(message: Option<Seq<char>>) -> Seq<char> {
    match message {
        Some(m) => " — "@ + m,
        None => Seq::empty(),
    }
}

/// What a reply makes of the view that waits for it. A refused change leaves the
/// listing in place; a refused query fails the view.
pub open spec fn answered(view: Sight, reply: ReplyFacts) -> Sight {
    let idle = Sight { awaits: None, sent_at: None, ..view };
    match reply {
        ReplyFacts::Listing(items) => Sight {
            selected: within(view.selected, items.len()),
            items,
            phase: Progress::Loaded,
            ..idle
        },
        ReplyFacts::Toggled(slug, enabled) => Sight {
            items: switched(view.items, slug, enabled, 0),
            status: Some(
                slug + " is now "@ + (if enabled {
                    "enabled"@
                } else {
                    "disabled"@
                }),
            ),
            phase: Progress::Loaded,
            ..idle
        },
        ReplyFacts::Rejected(code, message) => if view.phase is Loaded {
            Sight {
                status: Some(
                    "the community rejected the change: "@ + code + reason_given(message),
                ),
                ..idle
            }
        } else {
            Sight {
                phase: Progress::Failed(
                    if code == "unsupportedType"@ {
                        "this community does not offer capability management"@
                    } else {
                        "the community rejected the query: "@ + code + reason_given(message)
                    },
                ),
                ..idle
            }
        },
    }
}

/// What a list of replies, each with its thread, makes of a view, one after the
/// other. A reply to anything but what is waited for is dropped.
pub open spec fn after_replies(view: Sight, replies: Seq<(String, CapabilityReply)>) -> Sight
    decreases replies.len(),
{
    if replies.len() == 0 {
        view
    } else {
        let before = after_replies(view, replies.drop_last());
        let (thid, reply) = replies.last();
        if before.awaits == Some(thid@) {
            answered(before, reply@)
        } else {
            before
        }
    }
}

fn switch(items: &mut Vec<CapabilitySummary>, slug: &str, enabled: bool)
    ensures
        facts(final(items)@) == switched(facts(old(items)@), slug@, enabled, 0),
{
    let ghost before = items@;
    let mut i: usize = 0;
    while i < items.len()
        invariant
            items@ == before,
            before == old(items)@,
            i <= before.len(),
            switched(facts(before), slug@, enabled, 0) == switched(
                facts(before),
                slug@,
                enabled,
                i as int,
            ),
        decreases before.len() - i,
    {
        if same_text(items[i].slug.as_str(), slug) {
            let item = CapabilitySummary { slug: slug.to_owned(), enabled };
            items.set(i, item);
            proof {
                assert(facts(before)[i as int].slug == slug@);
                assert(facts(items@) =~= facts(before).update(
                    i as int,
                    CapabilityFacts { slug: slug@, enabled },
                ));
            }
            return ;
        }
        proof {
            assert(facts(before)[i as int].slug != slug@);
        }
        i = i + 1;
    }
}

fn with_reason(opening: &str, code: &str, message: &Option<String>) -> (text: String)
    ensures
        text@ == opening@ + code@ + reason_given(optional(*message)),
{
    let mut detail = String::new();
    if let Some(m) = message {
        detail = " — ".to_owned();
        detail.append(m.as_str());
    }
    let mut text = opening.to_owned();
    text.append(code);
    text.append(detail.as_str());
    text
}

/// Takes in the reply that the view waits for.
pub fn take_reply(view: &mut CapabilitiesView, reply: CapabilityReply)
    ensures
        final(view)@ == answered(old(view)@, reply@),
{
    view.pending_thid = None;
    view.sent_at = None;
    match reply {
        CapabilityReply::Listing(items) => {
            view.selected = if items.len() == 0 {
                0
            } else if view.selected < items.len() {
                view.selected
            } else {
                items.len() - 1
            };
            view.items = items;
            view.phase = CapabilitiesPhase::Loaded;
        },
        CapabilityReply::Toggled { capability, enabled } => {
            switch(&mut view.items, capability.as_str(), enabled);
            let mut status = capability;
            status.append(" is now ");
            status.append(
                if enabled {
                    "enabled"
                } else {
                    "disabled"
                },
            );
            view.status_message = Some(status);
            view.phase = CapabilitiesPhase::Loaded;
        },
        CapabilityReply::Rejected { code, message } => {
            let loaded: bool = matches!(view.phase, CapabilitiesPhase::Loaded);
            if loaded {
                view.status_message = Some(
                    with_reason("the community rejected the change: ", code.as_str(), &message),
                );
            } else if same_text(code.as_str(), "unsupportedType") {
                view.phase = CapabilitiesPhase::Failed(
                    "this community does not offer capability management".to_owned(),
                );
            } else {
                view.phase = CapabilitiesPhase::Failed(
                    with_reason("the community rejected the query: ", code.as_str(), &message),
                );
            }
        },
    }
}

fn awaits(view: &CapabilitiesView, thid: &str) -> (yes: bool)
    ensures
        yes == (view@.awaits == Some(thid@)),
{
    match &view.pending_thid {
        Some(pending) => same_text(pending.as_str(), thid),
        None => false,
    }
}

fn take_replies(view: &mut CapabilitiesView, replies: Vec<(String, CapabilityReply)>)
    ensures
        final(view)@ == after_replies(old(view)@, replies@),
{
    let ghost whole = replies@;
    let ghost start = view@;
    let mut rest = replies;
    let ghost mut done: int = 0;
    proof {
        assert(whole.skip(0) =~= whole);
        assert(whole.take(0) =~= Seq::<(String, CapabilityReply)>::empty());
    }
    while rest.len() > 0
        invariant
            0 <= done <= whole.len(),
            rest@ == whole.skip(done),
            view@ == after_replies(start, whole.take(done)),
        decreases rest@.len(),
    {
        let (thid, reply) = rest.remove(0);
        proof {
            let next = whole.take(done + 1);
            assert(next.drop_last() =~= whole.take(done));
            assert(next.last() == (thid, reply));
            assert(whole.skip(done + 1) =~= whole.skip(done).remove(0));
        }
        if awaits(view, thid.as_str()) {
            take_reply(view, reply);
        }
        proof {
            done = done + 1;
        }
    }
    proof {
        assert(whole.take(done) =~= whole);
    }
}

/// Whether `post` is `pre` but for the capabilities view, which has become
/// `sight`. A closed view stays closed.
pub open spec fn view_became(pre: State, sight: spec_fn(Sight) -> Sight, post: State) -> bool {
    let view = pre.main_page.content_panel.capabilities.view;
    let now = post.main_page.content_panel.capabilities.view;
    &&& post == pre.with_capabilities(now)
    &&& match view {
        Some(v) => now matches Some(n) && n@ == sight(v@),
        None => now is None,
    }
}

/// Takes in the replies of communities. With the view closed they are dropped.
pub fn apply_capability_replies(state: &mut State, replies: Vec<(String, CapabilityReply)>)
    ensures
        view_became(*old(state), |v: Sight| after_replies(v, replies@), *final(state)),
{
    replies_to_content(&mut state.main_page.content_panel, replies);
}

fn replies_to_content(content: &mut ContentPanelState, replies: Vec<(String, CapabilityReply)>)
    ensures
        *final(content) == (ContentPanelState {
            capabilities: final(content).capabilities,
            ..*old(content)
        }),
        match old(content).capabilities.view {
            Some(v) => final(content).capabilities.view matches Some(n) && n@ == after_replies(
                v@,
                replies@,
            ),
            None => final(content).capabilities.view is None,
        },
{
    if let Some(view) = content.capabilities.view.as_mut() {
        take_replies(view, replies);
    }
}

/// How long a reply is waited for, in nanoseconds.
pub const REPLY_WINDOW: u64 = 30_000_000_000;

/// Whether the view has waited too long for a reply.
pub open spec fn overdue(view: Sight, now: u64) -> bool {
    &&& view.awaits is Some
    &&& view.sent_at matches Some(sent) && now - sent > REPLY_WINDOW
}

/// What becomes of a view when the clock reads `now`. A query without a reply
/// fails; a change without one may have been made, so the listing stays.
pub open spec fn swept(view: Sight, now: u64) -> Sight {
    if overdue(view, now) {
        let idle = Sight { awaits: None, sent_at: None, ..view };
        if view.phase is Loading {
            Sight {
                phase: Progress::Failed(
                    "no reply within 30s — the community's governance host may be offline"@,
                ),
                ..idle
            }
        } else {
            Sight {
                status: Some("no reply to the change within 30s — refresh (r) to re-check"@),
                ..idle
            }
        }
    } else {
        view
    }
}

fn sweep_view(view: &mut CapabilitiesView, now: u64)
    ensures
        final(view)@ == swept(old(view)@, now),
{
    let late: bool = match view.sent_at {
        Some(sent) => now > sent && now - sent > REPLY_WINDOW,
        None => false,
    };
    if view.pending_thid.is_some() && late {
        view.pending_thid = None;
        view.sent_at = None;
        let loading: bool = matches!(view.phase, CapabilitiesPhase::Loading);
        if loading {
            view.phase = CapabilitiesPhase::Failed(
                "no reply within 30s — the community's governance host may be offline".to_owned(),
            );
        } else {
            view.status_message = Some(
                "no reply to the change within 30s — refresh (r) to re-check".to_owned(),
            );
        }
    }
}

fn sweep_content(content: &mut ContentPanelState, now: u64)
    ensures
        *final(content) == (ContentPanelState {
            capabilities: final(content).capabilities,
            ..*old(content)
        }),
        match old(content).capabilities.view {
            Some(v) => final(content).capabilities.view matches Some(n) && n@ == swept(v@, now),
            None => final(content).capabilities.view is None,
        },
{
    if let Some(view) = content.capabilities.view.as_mut() {
        sweep_view(view, now);
    }
}

/// Gives up on a reply that is overdue at `now`, in nanoseconds of the process
/// clock.
pub fn sweep_capabilities(state: &mut State, now: u64)
    ensures
        view_became(*old(state), |v: Sight| swept(v, now), *final(state)),
{
    sweep_content(&mut state.main_page.content_panel, now);
}

fn say_in_view(content: &mut ContentPanelState, words: String)
    ensures
        *final(content) == (ContentPanelState {
            capabilities: final(content).capabilities,
            ..*old(content)
        }),
        match old(content).capabilities.view {
            Some(v) => final(content).capabilities.view matches Some(n) && n@ == (Sight {
                status: Some(words@),
                ..v@
            }),
            None => final(content).capabilities.view is None,
        },
{
    if let Some(view) = content.capabilities.view.as_mut() {
        view.status_message = Some(words);
    }
}

/// Claims the sending of a capability request, and says whether to send. While
/// one is being sent the view says so instead: it waits for one reply at a time.
pub fn spawn_capability_job(in_flight: &mut InFlight, state: &mut State) -> (start: bool)
    ensures
        start == !old(in_flight)@.contains(DispatchDomain::Capabilities),
        final(in_flight)@ == old(in_flight)@.insert(DispatchDomain::Capabilities),
        start ==> *final(state) == *old(state),
        !start ==> view_became(
            *old(state),
            |v: Sight| (Sight { status: Some(busy_words(DispatchDomain::Capabilities)), ..v }),
            *final(state),
        ),
{
    if in_flight.try_begin(DispatchDomain::Capabilities) {
        true
    } else {
        let words = InFlight::busy_message(DispatchDomain::Capabilities);
        say_in_view(&mut state.main_page.content_panel, words);
        false
    }
}

/// A reply that is not waited for changes nothing, however many of them come.
pub proof fn stale_replies_are_dropped(view: Sight, replies: Seq<(String, CapabilityReply)>)
    requires
        forall|i: int|
            0 <= i < replies.len() ==> view.awaits != Some((#[trigger] replies[i]).0@),
    ensures
        after_replies(view, replies) == view,
    decreases replies.len(),
{
    if replies.len() > 0 {
        let rest = replies.drop_last();
        assert forall|i: int| 0 <= i < rest.len() implies view.awaits != Some(
            (#[trigger] rest[i]).0@,
        ) by {
            assert(rest[i] == replies[i]);
        }
        stale_replies_are_dropped(view, rest);
        assert(replies[replies.len() - 1] == replies.last());
    }
}

/// A view waits for one reply: once that is in, no other is taken.
pub proof fn only_one_reply_is_taken(
    view: Sight,
    reply: ReplyFacts,
    more: Seq<(String, CapabilityReply)>,
)
    ensures
        after_replies(answered(view, reply), more) == answered(view, reply),
{
    stale_replies_are_dropped(answered(view, reply), more);
}

/// A listing leaves the selection on one of its capabilities, if it has any.
pub proof fn a_listing_keeps_the_selection_within(view: Sight, items: Seq<CapabilityFacts>)
    ensures
        items.len() > 0 ==> answered(view, ReplyFacts::Listing(items)).selected < items.len(),
        items.len() == 0 ==> answered(view, ReplyFacts::Listing(items)).selected == 0,
{
}

proof fn switching_keeps_the_names(
    items: Seq<CapabilityFacts>,
    slug: Seq<char>,
    enabled: bool,
    from: int,
)
    requires
        0 <= from,
    ensures
        switched(items, slug, enabled, from).len() == items.len(),
        forall|i: int|
            0 <= i < items.len() ==> (#[trigger] switched(items, slug, enabled, from)[i]).slug
                == items[i].slug,
    decreases items.len() - from,
{
    if from < items.len() {
        if items[from].slug != slug {
            switching_keeps_the_names(items, slug, enabled, from + 1);
        }
    }
}

/// Whatever a community answers to a change, the listing keeps its capabilities:
/// none is added, dropped or moved.
pub proof fn a_change_keeps_the_listing(view: Sight, slug: Seq<char>, enabled: bool, i: int)
    requires
        0 <= i < view.items.len(),
    ensures
        answered(view, ReplyFacts::Toggled(slug, enabled)).items.len() == view.items.len(),
        answered(view, ReplyFacts::Toggled(slug, enabled)).items[i].slug == view.items[i].slug,
{
    switching_keeps_the_names(view.items, slug, enabled, 0);
}

/// A refused change leaves the listing as it was.
pub proof fn a_refused_change_leaves_the_listing(
    view: Sight,
    code: Seq<char>,
    message: Option<Seq<char>>,
)
    ensures
        answered(view, ReplyFacts::Rejected(code, message)).items == view.items,
        view.phase is Loaded ==> answered(view, ReplyFacts::Rejected(code, message)).phase
            == view.phase,
{
}

/// A view that is not waiting is never given up on, and one that was given up on
/// waits no longer.
pub proof fn giving_up_ends_the_wait(view: Sight, now: u64)
    ensures
        view.awaits is None ==> swept(view, now) == view,
        overdue(view, now) ==> swept(view, now).awaits is None,
        swept(view, now).items == view.items,
{
}

proof fn switching_sets_the_first(
    items: Seq<CapabilityFacts>,
    slug: Seq<char>,
    enabled: bool,
    from: int,
    i: int,
)
    requires
        0 <= from <= i < items.len(),
    ensures
        switched(items, slug, enabled, from).len() == items.len(),
        items[i].slug == slug && (forall|j: int| from <= j < i ==> (#[trigger] items[j]).slug != slug)
            ==> switched(items, slug, enabled, from)[i].enabled == enabled,
        items[i].slug != slug || (exists|j: int|
            from <= j < i && (#[trigger] items[j]).slug == slug) ==> switched(
            items,
            slug,
            enabled,
            from,
        )[i].enabled == items[i].enabled,
    decreases items.len() - from,
{
    switching_keeps_the_names(items, slug, enabled, from);
    if items[from].slug != slug && from < i {
        switching_sets_the_first(items, slug, enabled, from + 1, i);
        if exists|j: int| from <= j < i && (#[trigger] items[j]).slug == slug {
            let j = choose|j: int| from <= j < i && (#[trigger] items[j]).slug == slug;
            assert(items[j].slug == slug && from + 1 <= j);
        }
        if items[i].slug == slug && (forall|j: int|
            from <= j < i ==> (#[trigger] items[j]).slug != slug) {
            assert(forall|j: int| from + 1 <= j < i ==> (#[trigger] items[j]).slug != slug);
        }
    } else if items[from].slug != slug {
        assert(switched(items, slug, enabled, from) == switched(items, slug, enabled, from + 1));
        a_search_leaves_what_is_behind_it(items, slug, enabled, from + 1, i);
    }
}

proof fn a_search_leaves_what_is_behind_it(
    items: Seq<CapabilityFacts>,
    slug: Seq<char>,
    enabled: bool,
    from: int,
    i: int,
)
    requires
        0 <= i < items.len(),
        i < from,
    ensures
        switched(items, slug, enabled, from)[i] == items[i],
    decreases items.len() - from,
{
    if from < items.len() && items[from].slug != slug {
        a_search_leaves_what_is_behind_it(items, slug, enabled, from + 1, i);
    }
}

/// A change that a community confirms puts the first capability of that name in
/// the very state that the reply names, on or off, and leaves every other as it
/// was. The view says so and waits no longer.
pub proof fn a_change_sets_what_the_community_says(
    view: &mut CapabilitiesView,
    capability: String,
    enabled: bool,
    i: int,
)
    requires
        call_ensures(
            take_reply,
            (view, CapabilityReply::Toggled { capability, enabled }),
            (),
        ),
        0 <= i < old(view).items@.len(),
    ensures
        final(view).items@.len() == old(view).items@.len(),
        final(view).items@[i].slug@ == old(view).items@[i].slug@,
        old(view).items@[i].slug@ == capability@ && (forall|j: int|
            0 <= j < i ==> (#[trigger] old(view).items@[j]).slug@ != capability@)
            ==> final(view).items@[i].enabled == enabled,
        old(view).items@[i].slug@ != capability@ || (exists|j: int|
            0 <= j < i && (#[trigger] old(view).items@[j]).slug@ == capability@)
            ==> final(view).items@[i].enabled == old(view).items@[i].enabled,
        final(view).status_message matches Some(words) && words@ == capability@ + " is now "@ + (
        if enabled {
            "enabled"@
        } else {
            "disabled"@
        }),
        final(view).phase is Loaded,
        final(view).pending_thid is None,
        final(view).sent_at is None,
        final(view).selected == old(view).selected,
        final(view).confirm_toggle == old(view).confirm_toggle,
        final(view).detail == old(view).detail,
        final(view).vtc_did@ == old(view).vtc_did@,
        final(view).persona == old(view).persona,
{
    let before = facts(old(view).items@);
    assert(before.len() == old(view).items@.len());
    assert(before[i] == old(view).items@[i]@);
    assert(final(view)@.items == switched(before, capability@, enabled, 0));
    switching_keeps_the_names(before, capability@, enabled, 0);
    switching_sets_the_first(before, capability@, enabled, 0, i);
    assert(facts(final(view).items@).len() == final(view).items@.len());
    assert(facts(final(view).items@)[i] == final(view).items@[i]@);
    if exists|j: int| 0 <= j < i && (#[trigger] old(view).items@[j]).slug@ == capability@ {
        let j = choose|j: int| 0 <= j < i && (#[trigger] old(view).items@[j]).slug@ == capability@;
        assert(before[j].slug == capability@);
    }
    if forall|j: int| 0 <= j < i ==> (#[trigger] old(view).items@[j]).slug@ != capability@ {
        assert forall|j: int| 0 <= j < i implies (#[trigger] before[j]).slug != capability@ by {
            assert(before[j] == old(view).items@[j]@);
        }
    }
}

/// A listing shows what was listed, in the order it came, keeps the selection
/// where it is as far as there are rows, and ends the wait. What the view said
/// before it still says.
pub proof fn a_listing_is_shown_as_it_came(view: &mut CapabilitiesView, items: Vec<CapabilitySummary>)
    requires
        call_ensures(take_reply, (view, CapabilityReply::Listing(items)), ()),
    ensures
        final(view).items@.len() == items@.len(),
        forall|i: int|
            0 <= i < items@.len() ==> (#[trigger] final(view).items@[i]).slug@ == items@[i].slug@
                && final(view).items@[i].enabled == items@[i].enabled,
        old(view).selected < items@.len() ==> final(view).selected == old(view).selected,
        old(view).selected >= items@.len() && items@.len() > 0 ==> final(view).selected
            == items@.len() - 1,
        items@.len() == 0 ==> final(view).selected == 0,
        final(view).phase is Loaded,
        final(view).pending_thid is None,
        final(view).sent_at is None,
        optional(final(view).status_message) == optional(old(view).status_message),
        final(view).confirm_toggle == old(view).confirm_toggle,
        final(view).detail == old(view).detail,
        final(view).vtc_did@ == old(view).vtc_did@,
        final(view).persona == old(view).persona,
{
    assert(facts(final(view).items@).len() == final(view).items@.len());
    assert(facts(items@).len() == items@.len());
    assert forall|i: int| 0 <= i < items@.len() implies (#[trigger] final(view).items@[i]).slug@
        == items@[i].slug@ && final(view).items@[i].enabled == items@[i].enabled by {
        assert(facts(final(view).items@)[i] == final(view).items@[i]@);
        assert(facts(items@)[i] == items@[i]@);
    }
}

/// A refusal ends the wait and changes no capability. Once a listing is shown it
/// stays, and the refusal is said with its code and reason; before that the view
/// has failed, and says why.
pub proof fn a_refusal_is_told(view: &mut CapabilitiesView, code: String, message: Option<String>)
    requires
        call_ensures(take_reply, (view, CapabilityReply::Rejected { code, message }), ()),
    ensures
        ({
            let reason = code@ + (match message {
                Some(words) => " — "@ + words@,
                None => Seq::empty(),
            });
            &&& old(view).phase is Loaded ==> final(view).phase is Loaded && (
            final(view).status_message matches Some(said) && said@
                == "the community rejected the change: "@ + reason)
            &&& !(old(view).phase is Loaded) ==> (final(view).phase matches CapabilitiesPhase::Failed(
                said,
            ) && said@ == (if code@ == "unsupportedType"@ {
                "this community does not offer capability management"@
            } else {
                "the community rejected the query: "@ + reason
            }) && optional(final(view).status_message) == optional(old(view).status_message))
        }),
        final(view).items@.len() == old(view).items@.len(),
        forall|i: int|
            0 <= i < old(view).items@.len() ==> (#[trigger] final(view).items@[i]).slug@
                == old(view).items@[i].slug@ && final(view).items@[i].enabled
                == old(view).items@[i].enabled,
        final(view).pending_thid is None,
        final(view).sent_at is None,
        final(view).selected == old(view).selected,
{
    let reason = match message {
        Some(words) => " — "@ + words@,
        None => Seq::empty(),
    };
    let loaded = "the community rejected the change: "@;
    let failed = "the community rejected the query: "@;
    assert(loaded + code@ + reason =~= loaded + (code@ + reason));
    assert(failed + code@ + reason =~= failed + (code@ + reason));
    assert(facts(final(view).items@).len() == final(view).items@.len());
    assert(facts(old(view).items@).len() == old(view).items@.len());
    assert forall|i: int| 0 <= i < old(view).items@.len() implies (
    #[trigger] final(view).items@[i]).slug@ == old(view).items@[i].slug@
        && final(view).items@[i].enabled == old(view).items@[i].enabled by {
        assert(facts(final(view).items@)[i] == final(view).items@[i]@);
        assert(facts(old(view).items@)[i] == old(view).items@[i]@);
    }
}

/// Replies are taken in one after the other: a list of them comes to the same as
/// its first part and then the rest.
pub proof fn replies_are_taken_in_order(
    view: Sight,
    first: Seq<(String, CapabilityReply)>,
    second: Seq<(String, CapabilityReply)>,
)
    ensures
        after_replies(view, first + second) == after_replies(after_replies(view, first), second),
    decreases second.len(),
{
    if second.len() == 0 {
        assert(first + second =~= first);
    } else {
        replies_are_taken_in_order(view, first, second.drop_last());
        assert((first + second).drop_last() =~= first + second.drop_last());
        assert((first + second).last() == second.last());
    }
}

/// The reply that an open view waits for is taken in, be it alone or after
/// others that it does not wait for. A change then shows in the listing.
pub proof fn an_awaited_change_is_shown(
    state: &mut State,
    replies: Vec<(String, CapabilityReply)>,
    view: CapabilitiesView,
    thread: String,
    capability: String,
    enabled: bool,
    at: int,
    i: int,
)
    requires
        call_ensures(apply_capability_replies, (state, replies), ()),
        old(state).main_page.content_panel.capabilities.view == Some(view),
        view.pending_thid == Some(thread),
        0 <= at < replies@.len(),
        replies@[at].0@ == thread@,
        forall|j: int| 0 <= j < at ==> (#[trigger] replies@[j]).0@ != thread@,
        replies@[at].1 == (CapabilityReply::Toggled { capability, enabled }),
        0 <= i < view.items@.len(),
        view.items@[i].slug@ == capability@,
        forall|j: int| 0 <= j < i ==> (#[trigger] view.items@[j]).slug@ != capability@,
    ensures
        final(state).main_page.content_panel.capabilities.view matches Some(shown)
            && shown.items@.len() == view.items@.len() && shown.items@[i].enabled == enabled && (
        forall|j: int|
            0 <= j < view.items@.len() && j != i ==> (#[trigger] shown.items@[j]).enabled
                == view.items@[j].enabled) && shown.pending_thid is None && (
        shown.status_message matches Some(words) && words@ == capability@ + " is now "@ + (
        if enabled {
            "enabled"@
        } else {
            "disabled"@
        })),
{
    let start = view@;
    let early = replies@.take(at);
    let late = replies@.skip(at + 1);
    let one = seq![replies@[at]];
    assert(replies@ =~= early + (one + late));
    replies_are_taken_in_order(start, early, one + late);
    assert forall|j: int| 0 <= j < early.len() implies start.awaits != Some(
        (#[trigger] early[j]).0@,
    ) by {
        assert(early[j] == replies@[j]);
    }
    stale_replies_are_dropped(start, early);
    replies_are_taken_in_order(start, one, late);
    reveal_with_fuel(after_replies, 2);
    assert(one.drop_last() =~= Seq::<(String, CapabilityReply)>::empty());
    assert(one.last() == replies@[at]);
    let settled = answered(start, ReplyFacts::Toggled(capability@, enabled));
    assert(after_replies(start, one) == settled);
    only_one_reply_is_taken(start, ReplyFacts::Toggled(capability@, enabled), late);
    let shown = final(state).main_page.content_panel.capabilities.view->0;
    assert(shown@ == settled);
    let before = facts(view.items@);
    switching_keeps_the_names(before, capability@, enabled, 0);
    assert(facts(shown.items@).len() == shown.items@.len());
    assert(before.len() == view.items@.len());
    assert forall|j: int| 0 <= j < i implies (#[trigger] before[j]).slug != capability@ by {
        assert(before[j] == view.items@[j]@);
    }
    assert(before[i] == view.items@[i]@);
    switching_sets_the_first(before, capability@, enabled, 0, i);
    assert(facts(shown.items@)[i] == shown.items@[i]@);
    assert forall|j: int| 0 <= j < view.items@.len() && j != i implies (
    #[trigger] shown.items@[j]).enabled == view.items@[j].enabled by {
        assert(facts(shown.items@)[j] == shown.items@[j]@);
        assert(before[j] == view.items@[j]@);
        switching_sets_the_first(before, capability@, enabled, 0, j);
        if i < j {
            assert(before[i].slug == capability@);
        }
    }
}

/// Replies that nothing waits for change nothing, and neither does any reply
/// while the view is closed. Whatever the replies, only the view changes.
pub proof fn unasked_replies_change_nothing(
    state: &mut State,
    replies: Vec<(String, CapabilityReply)>,
)
    requires
        call_ensures(apply_capability_replies, (state, replies), ()),
    ensures
        old(state).main_page.content_panel.capabilities.view is None ==> *final(state) == *old(state),
        old(state).main_page.content_panel.capabilities.view matches Some(view) ==> (
        view.pending_thid is None || (forall|j: int|
            0 <= j < replies@.len() ==> (#[trigger] replies@[j]).0@ != view.pending_thid->0@)) ==> (
        final(state).main_page.content_panel.capabilities.view matches Some(shown) && shown@
            == view@),
        final(state).main_page.log == old(state).main_page.log,
        final(state).main_page.content_panel.communities
            == old(state).main_page.content_panel.communities,
        final(state).main_page.content_panel.vta == old(state).main_page.content_panel.vta,
        final(state).connection == old(state).connection,
{
    if let Some(view) = old(state).main_page.content_panel.capabilities.view {
        if view.pending_thid is None || (forall|j: int|
            0 <= j < replies@.len() ==> (#[trigger] replies@[j]).0@ != view.pending_thid->0@) {
            stale_replies_are_dropped(view@, replies@);
        }
    }
}

/// A reply is given up on exactly when one is waited for and more than thirty
/// seconds have gone by since it was asked for: a first query has then failed,
/// and a change is said to be in doubt, with the listing as it was.
pub proof fn a_late_reply_is_given_up_on(
    state: &mut State,
    now: u64,
    view: CapabilitiesView,
    shown: CapabilitiesView,
)
    requires
        call_ensures(sweep_capabilities, (state, now), ()),
        old(state).main_page.content_panel.capabilities.view == Some(view),
        final(state).main_page.content_panel.capabilities.view == Some(shown),
    ensures
        ({
            let late = view.pending_thid is Some && (view.sent_at matches Some(sent) && now
                > sent + 30_000_000_000);
            &&& !late ==> shown@ == view@
            &&& late ==> {
                &&& shown.pending_thid is None
                &&& shown.sent_at is None
                &&& view.phase is Loading ==> (shown.phase matches CapabilitiesPhase::Failed(words)
                    && words@
                    == "no reply within 30s — the community's governance host may be offline"@)
                &&& !(view.phase is Loading) ==> (shown.status_message matches Some(words) && words@
                    == "no reply to the change within 30s — refresh (r) to re-check"@) && shown.phase@
                    == view.phase@
                &&& shown@.items == view@.items
                &&& shown.selected == view.selected
            }
        }),
        final(state).main_page.log == old(state).main_page.log,
{
}

/// A closed view stays closed when late replies are given up on.
pub proof fn nothing_is_given_up_on_while_closed(state: &mut State, now: u64)
    requires
        call_ensures(sweep_capabilities, (state, now), ()),
    ensures
        old(state).main_page.content_panel.capabilities.view is None ==> *final(state) == *old(state),
        final(state).main_page.content_panel.capabilities.view is Some
            == old(state).main_page.content_panel.capabilities.view is Some,
{
}

/// A capability request is sent exactly when none is being sent; otherwise the
/// view says that one is, and nothing else changes.
pub proof fn capability_requests_go_one_by_one(
    in_flight: &mut InFlight,
    state: &mut State,
    start: bool,
)
    requires
        call_ensures(spawn_capability_job, (in_flight, state), start),
    ensures
        start <==> !old(in_flight)@.contains(DispatchDomain::Capabilities),
        final(in_flight)@.contains(DispatchDomain::Capabilities),
        start ==> *final(state) == *old(state),
        !start ==> (old(state).main_page.content_panel.capabilities.view matches Some(view) ==> (
        final(state).main_page.content_panel.capabilities.view matches Some(shown) && (
        shown.status_message matches Some(words) && words@ == "Capability request"@
            + " already in progress — please wait."@) && shown.phase@ == view.phase@
            && shown.pending_thid is Some == view.pending_thid is Some && shown@.items
            == view@.items)),
        final(state).main_page.log == old(state).main_page.log,
{
}

/// The first reply that an open view waits for does to it what that reply does
/// alone; those before it and those after it do nothing.
pub proof fn the_awaited_reply_alone_counts(
    state: &mut State,
    replies: Vec<(String, CapabilityReply)>,
    view: &mut CapabilitiesView,
    at: int,
)
    requires
        call_ensures(apply_capability_replies, (state, replies), ()),
        old(state).main_page.content_panel.capabilities.view == Some(*old(view)),
        0 <= at < replies@.len(),
        old(view).pending_thid matches Some(thread) && replies@[at].0@ == thread@ && forall|j: int|
            0 <= j < at ==> (#[trigger] replies@[j]).0@ != thread@,
        call_ensures(take_reply, (view, replies@[at].1), ()),
    ensures
        final(state).main_page.content_panel.capabilities.view matches Some(shown) && shown@
            == final(view)@,
{
    let start = old(view)@;
    let early = replies@.take(at);
    let late = replies@.skip(at + 1);
    let one = seq![replies@[at]];
    assert(replies@ =~= early + (one + late));
    replies_are_taken_in_order(start, early, one + late);
    assert forall|j: int| 0 <= j < early.len() implies start.awaits != Some(
        (#[trigger] early[j]).0@,
    ) by {
        assert(early[j] == replies@[j]);
    }
    stale_replies_are_dropped(start, early);
    replies_are_taken_in_order(start, one, late);
    reveal_with_fuel(after_replies, 2);
    assert(one.drop_last() =~= Seq::<(String, CapabilityReply)>::empty());
    assert(one.last() == replies@[at]);
    assert(after_replies(start, one) == answered(start, replies@[at].1@));
    only_one_reply_is_taken(start, replies@[at].1@, late);
}

} // verus!
