//! What each persona presents in each community's context: whether it presents
//! anything, under which label, and how many claims. Never the claims.

use vstd::prelude::*;
use crate::errors::OpenVTCError;
use crate::json::Json;
use crate::keyed::Keyed;
use crate::outside::{json_of, json_tree};
use crate::text::{decimal, decimal_text, optional};

verus! {

/// What one persona presents in one context. `bound` says whether it presents
/// anything: a profile may have no label and still be bound.
#[derive(Clone, Debug, PartialEq)]
pub struct BindingSummary {
    pub bound: bool,
    /// The holder's label for the profile.
    pub profile_name: Option<String>,
    pub profile_id: Option<String>,
    pub claim_count: u64,
    /// When the binding was last written.
    pub bound_at: Option<String>,
    /// Whether the agent could not be asked, which is not the answer "nothing".
    pub unknown: bool,
}

/// The three things that can be said of a binding.
pub enum Reading {
    Unknown,
    Nothing,
    Bound,
}

impl BindingSummary {
    /// What this says of the binding.
    pub open spec fn reading(self) -> Reading {
        if self.unknown {
            Reading::Unknown
        } else if !self.bound {
            Reading::Nothing
        } else {
            Reading::Bound
        }
    }

    /// How the bound profile is called: its label, else its identifier, else a
    /// phrase.
    pub open spec fn label(self) -> Seq<char> {
        match self.profile_name {
            Some(name) => name@,
            None => match self.profile_id {
                Some(id) => id@,
                None => "an unlabelled profile"@,
            },
        }
    }

    /// How many claims are bound, in words.
    pub open spec fn claims(self) -> Seq<char> {
        if self.claim_count == 1 {
            "1 claim"@
        } else {
            decimal(self.claim_count as nat) + " claims"@
        }
    }

    /// The line for a panel row.
    pub open spec fn line(self) -> Seq<char> {
        match self.reading() {
            Reading::Unknown => "presents: unknown"@,
            Reading::Nothing => "presents: nothing"@,
            Reading::Bound => "presents: "@ + self.label() + " ("@ + self.claims() + ")"@,
        }
    }

    /// A summary that says nothing is bound.
    pub open spec fn is_empty_answer(self) -> bool {
        &&& !self.bound
        &&& self.profile_name is None
        &&& self.profile_id is None
        &&& self.claim_count == 0
        &&& self.bound_at is None
    }

    /// The summary to show while the agent could not be asked.
    #[must_use]
    pub fn unknown() -> (summary: Self)
        ensures
            summary.unknown,
            summary.is_empty_answer(),
    {
        BindingSummary {
            bound: false,
            profile_name: None,
            profile_id: None,
            claim_count: 0,
            bound_at: None,
            unknown: true,
        }
    }

    /// Writes the line for a panel row.
    #[must_use]
    pub fn describe(&self) -> (text: String)
        ensures
            text@ == self.line(),
    {
        if self.unknown {
            return "presents: unknown".to_owned();
        }
        if !self.bound {
            return "presents: nothing".to_owned();
        }
        let label = match &self.profile_name {
            Some(name) => name.clone(),
            None => match &self.profile_id {
                Some(id) => id.clone(),
                None => "an unlabelled profile".to_owned(),
            },
        };
        let claims = if self.claim_count == 1 {
            "1 claim".to_owned()
        } else {
            let mut count = decimal_text(self.claim_count);
            count.append(" claims");
            count
        };
        let mut text = "presents: ".to_owned();
        text.append(label.as_str());
        text.append(" (");
        text.append(claims.as_str());
        text.append(")");
        text
    }

    /// Whether this is what an agent's reply says. A member that is missing or
    /// of another shape counts as not said.
    pub open spec fn reads(self, reply: Json) -> bool {
        &&& self.bound == (reply.field("bound"@) == Some(Json::Bool(true)))
        &&& optional(self.profile_name) == reply.text_field("profileName"@)
        &&& optional(self.profile_id) == reply.text_field("profileId"@)
        &&& self.claim_count == match reply.field("claimCount"@) {
            Some(Json::Number(Some(n))) => n,
            _ => 0,
        }
        &&& optional(self.bound_at) == reply.text_field("boundAt"@)
        &&& !self.unknown
    }

    /// Reads an agent's reply.
    pub fn from_value(reply: &serde_json::Value) -> (summary: Self)
        ensures
            summary.reads(json_tree(*reply)),
    {
        BindingSummary::from_json(&json_of(reply))
    }

    /// Reads an agent's reply that is already taken apart.
    pub fn from_json(reply: &Json) -> (summary: Self)
        ensures
            summary.reads(*reply),
    {
        BindingSummary {
            bound: match reply.get("bound") {
                Some(Json::Bool(b)) => *b,
                _ => false,
            },
            profile_name: reply.get_text("profileName"),
            profile_id: reply.get_text("profileId"),
            claim_count: match reply.get("claimCount") {
                Some(Json::Number(Some(n))) => *n,
                _ => 0,
            },
            bound_at: reply.get_text("boundAt"),
            unknown: false,
        }
    }
}

impl Default for BindingSummary {
    /// The answer that nothing is bound.
    fn default() -> (summary: Self)
        ensures
            !summary.unknown,
            summary.is_empty_answer(),
    {
        BindingSummary {
            bound: false,
            profile_name: None,
            profile_id: None,
            claim_count: 0,
            bound_at: None,
            unknown: false,
        }
    }
}

/// Whether this is what asking the agent came to: what it replied, or the
/// reason there was no reply.
pub open spec fn asked(
    reply: Result<serde_json::Value, String>,
    outcome: Result<BindingSummary, OpenVTCError>,
) -> bool {
    match reply {
        Ok(value) => outcome matches Ok(summary) && summary.reads(json_tree(value)),
        Err(reason) => outcome matches Err(OpenVTCError::Vta(text)) && text@
            == "persona binding read failed: "@ + reason@,
    }
}

/// What the agent's reply to a binding read says.
pub fn get(reply: Result<serde_json::Value, String>) -> (outcome: Result<
    BindingSummary,
    OpenVTCError,
>)
    ensures
        asked(reply, outcome),
{
    match reply {
        Ok(value) => Ok(BindingSummary::from_value(&value)),
        Err(reason) => {
            let mut text = "persona binding read failed: ".to_owned();
            text.append(reason.as_str());
            Err(OpenVTCError::Vta(text))
        },
    }
}

/// What the agent's reply says, or that it is not known what it would be.
pub fn get_or_unknown(reply: Result<serde_json::Value, String>) -> (summary: BindingSummary)
    ensures
        match reply {
            Ok(value) => summary.reads(json_tree(value)),
            Err(_) => summary.unknown && summary.is_empty_answer(),
        },
{
    match get(reply) {
        Ok(summary) => summary,
        Err(_) => BindingSummary::unknown(),
    }
}

/// A sub-context and the DID of the persona presented there.
pub type BindingTarget = (String, String);

/// The answers to a list of targets, in order: a later answer to a target takes
/// the place of an earlier one.
pub open spec fn answers(
    answered: Seq<(BindingTarget, BindingSummary)>,
) -> Map<(Seq<char>, Seq<char>), BindingSummary>
    decreases answered.len(),
{
    if answered.len() == 0 {
        Map::empty()
    } else {
        answers(answered.drop_last()).insert(answered.last().0@, answered.last().1)
    }
}

/// Collects the answers to a list of targets, one for each target.
pub fn resolve_batch(answered: Vec<(BindingTarget, BindingSummary)>) -> (all: Keyed<
    BindingTarget,
    BindingSummary,
>)
    ensures
        all@ == answers(answered@),
{
    let ghost whole = answered@;
    let mut rest = answered;
    let mut all: Keyed<BindingTarget, BindingSummary> = Keyed::new();
    let ghost mut done: int = 0;
    proof {
        assert(whole.skip(0) =~= whole);
        assert(whole.take(0) =~= Seq::<(BindingTarget, BindingSummary)>::empty());
    }
    while rest.len() > 0
        invariant
            0 <= done <= whole.len(),
            rest@ == whole.skip(done),
            all@ == answers(whole.take(done)),
        decreases rest@.len(),
    {
        let (target, summary) = rest.remove(0);
        all.insert(target, summary);
        proof {
            let next = whole.take(done + 1);
            assert(next.drop_last() =~= whole.take(done));
            assert(next.last() == (target, summary));
            assert(whole.skip(done + 1) =~= whole.skip(done).remove(0));
            done = done + 1;
        }
    }
    proof {
        assert(whole.take(done) =~= whole);
    }
    all
}

/// The three readings never read alike: what is not known, what presents
/// nothing and what presents something are told apart by the line alone.
pub proof fn readings_are_never_confused(a: BindingSummary, b: BindingSummary)
    ensures
        a.line() == b.line() ==> a.reading() == b.reading(),
{
    reveal_strlit("presents: unknown");
    reveal_strlit("presents: nothing");
    reveal_strlit(")");
    assert("presents: unknown"@[10] == 'u');
    assert("presents: nothing"@[10] == 'n');
    if a.reading() == Reading::Bound {
        assert(a.line().last() == ')');
    }
    if b.reading() == Reading::Bound {
        assert(b.line().last() == ')');
    }
    assert("presents: unknown"@.last() == 'n');
    assert("presents: nothing"@.last() == 'g');
}

/// A bound profile without a label is still called something: by its
/// identifier, and without one by a phrase.
pub proof fn an_unlabelled_profile_is_still_called_something(summary: BindingSummary)
    requires
        summary.profile_name is None,
    ensures
        summary.profile_id matches Some(id) ==> summary.label() == id@,
        summary.profile_id is None ==> summary.label() == "an unlabelled profile"@
            && summary.label().len() > 0,
{
    reveal_strlit("an unlabelled profile");
}

/// The default summary is an answer; it never reads as "not known".
pub proof fn an_empty_answer_is_not_unknown(answer: BindingSummary, unasked: BindingSummary)
    requires
        !answer.unknown,
        answer.is_empty_answer(),
        unasked.unknown,
    ensures
        answer.reading() == Reading::Nothing,
        unasked.reading() == Reading::Unknown,
        answer.line() != unasked.line(),
{
    readings_are_never_confused(answer, unasked);
}

/// Every target that was asked about has an answer, whatever became of the
/// asking.
pub proof fn every_target_is_answered(
    answered: Seq<(BindingTarget, BindingSummary)>,
    target: (Seq<char>, Seq<char>),
)
    ensures
        answers(answered).dom().contains(target) <==> exists|i: int|
            0 <= i < answered.len() && (#[trigger] answered[i]).0@ == target,
    decreases answered.len(),
{
    if answered.len() > 0 {
        let rest = answered.drop_last();
        every_target_is_answered(rest, target);
        if exists|i: int| 0 <= i < rest.len() && (#[trigger] rest[i]).0@ == target {
            let i = choose|i: int| 0 <= i < rest.len() && (#[trigger] rest[i]).0@ == target;
            assert(answered[i].0@ == target);
        }
        if exists|i: int| 0 <= i < answered.len() && (#[trigger] answered[i]).0@ == target {
            let i = choose|i: int|
                0 <= i < answered.len() && (#[trigger] answered[i]).0@ == target;
            if i < rest.len() {
                assert(rest[i].0@ == target);
            }
        }
        if answered.last().0@ == target {
            assert(answered[answered.len() - 1].0@ == target);
        }
    }
}

/// A panel row says of a binding that it is not known, or that nothing is
/// presented, or what is: by its label, else by its identifier, else as
/// unlabelled, with the number of claims, in the singular for one.
pub proof fn a_binding_is_described(summary: &BindingSummary, text: String)
    requires
        call_ensures(BindingSummary::describe, (summary,), text),
    ensures
        summary.unknown ==> text@ == "presents: unknown"@,
        !summary.unknown && !summary.bound ==> text@ == "presents: nothing"@,
        !summary.unknown && summary.bound ==> text@ == "presents: "@ + (
        match summary.profile_name {
            Some(name) => name@,
            None => match summary.profile_id {
                Some(id) => id@,
                None => "an unlabelled profile"@,
            },
        }) + " ("@ + (if summary.claim_count == 1 {
            "1 claim"@
        } else {
            decimal(summary.claim_count as nat) + " claims"@
        }) + ")"@,
{
}

/// A reply is taken at its word: something is bound exactly where it says `true`,
/// the names, the number of claims and the time are those it gives, and it is
/// never taken for not knowing. What it leaves out counts as not said.
pub proof fn a_reply_is_taken_at_its_word(reply: &Json, summary: BindingSummary)
    requires
        call_ensures(BindingSummary::from_json, (reply,), summary),
    ensures
        !summary.unknown,
        summary.bound <==> reply.field("bound"@) == Some(Json::Bool(true)),
        reply.field("profileName"@) matches Some(Json::Text(name)) ==> (
        summary.profile_name matches Some(kept) && kept@ == name@),
        !(reply.field("profileName"@) matches Some(Json::Text(_)))
            ==> summary.profile_name is None,
        reply.field("profileId"@) matches Some(Json::Text(id)) ==> (
        summary.profile_id matches Some(kept) && kept@ == id@),
        !(reply.field("profileId"@) matches Some(Json::Text(_))) ==> summary.profile_id is None,
        reply.field("claimCount"@) matches Some(Json::Number(Some(n))) ==> summary.claim_count == n,
        !(reply.field("claimCount"@) matches Some(Json::Number(Some(_)))) ==> summary.claim_count
            == 0,
        reply.field("boundAt"@) matches Some(Json::Text(when)) ==> (
        summary.bound_at matches Some(kept) && kept@ == when@),
        !(reply.field("boundAt"@) matches Some(Json::Text(_))) ==> summary.bound_at is None,
{
}

/// Where there is no reply it is not known what would be presented, and the
/// reason is handed on to whoever asks for it; where there is one it is known.
pub proof fn no_reply_is_not_an_answer(
    reply: Result<serde_json::Value, String>,
    outcome: Result<BindingSummary, OpenVTCError>,
    summary: BindingSummary,
)
    requires
        call_ensures(get, (reply,), outcome),
        call_ensures(get_or_unknown, (reply,), summary),
    ensures
        summary.unknown <==> reply is Err,
        reply is Err ==> !summary.bound && summary.claim_count == 0
            && summary.profile_name is None && summary.profile_id is None,
        outcome is Ok <==> reply is Ok,
        reply matches Err(reason) ==> (outcome matches Err(OpenVTCError::Vta(words)) && words@
            == "persona binding read failed: "@ + reason@),
        outcome matches Ok(found) ==> found.bound == summary.bound && found.claim_count
            == summary.claim_count && !found.unknown,
{
}

/// The last answer to a target is the one that stands, as it was given.
pub proof fn the_last_answer_stands(
    answered: Vec<(BindingTarget, BindingSummary)>,
    all: Keyed<BindingTarget, BindingSummary>,
    i: int,
)
    requires
        call_ensures(resolve_batch, (answered,), all),
        0 <= i < answered@.len(),
        forall|j: int| i < j < answered@.len() ==> (#[trigger] answered@[j]).0@ != answered@[i].0@,
    ensures
        all@.dom().contains(answered@[i].0@),
        all@[answered@[i].0@] == answered@[i].1,
{
    a_later_answer_counts(answered@, i);
}

proof fn a_later_answer_counts(answered: Seq<(BindingTarget, BindingSummary)>, i: int)
    requires
        0 <= i < answered.len(),
        forall|j: int| i < j < answered.len() ==> (#[trigger] answered[j]).0@ != answered[i].0@,
    ensures
        answers(answered).dom().contains(answered[i].0@),
        answers(answered)[answered[i].0@] == answered[i].1,
    decreases answered.len(),
{
    let last = answered.len() - 1;
    if i < last {
        let rest = answered.drop_last();
        assert forall|j: int| i < j < rest.len() implies (#[trigger] rest[j]).0@ != rest[i].0@ by {
            assert(rest[j] == answered[j]);
        }
        a_later_answer_counts(rest, i);
        assert(answered[last].0@ != answered[i].0@);
    }
}

/// What has not been asked about is not known, and the answer that nothing is
/// bound is one.
pub proof fn not_known_is_not_nothing(unasked: BindingSummary, nothing: BindingSummary)
    requires
        call_ensures(BindingSummary::unknown, (), unasked),
        call_ensures(BindingSummary::default, (), nothing),
    ensures
        unasked.unknown,
        !nothing.unknown,
        !unasked.bound && !nothing.bound,
        unasked.claim_count == 0 && nothing.claim_count == 0,
        unasked.line() != nothing.line(),
{
    readings_are_never_confused(unasked, nothing);
}

/// A reply that is still whole is taken at its word as one that is taken apart is.
pub proof fn a_whole_reply_is_taken_at_its_word(
    reply: &serde_json::Value,
    summary: BindingSummary,
)
    requires
        call_ensures(BindingSummary::from_value, (reply,), summary),
    ensures
        !summary.unknown,
        summary.bound <==> json_tree(*reply).field("bound"@) == Some(Json::Bool(true)),
        json_tree(*reply).field("profileName"@) matches Some(Json::Text(name)) ==> (
        summary.profile_name matches Some(kept) && kept@ == name@),
        json_tree(*reply).field("profileId"@) matches Some(Json::Text(id)) ==> (
        summary.profile_id matches Some(kept) && kept@ == id@),
        json_tree(*reply).field("claimCount"@) matches Some(Json::Number(Some(n)))
            ==> summary.claim_count == n,
{
}

} // verus!
