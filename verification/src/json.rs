//! JSON values as the library reads them.

use vstd::prelude::*;
use crate::text::same_text;

verus! {

/// A JSON value. A number is kept as the unsigned integer it stands for, or as
/// nothing when it is negative, has a fraction or does not fit.
#[derive(Debug)]
pub enum Json {
    Null,
    Bool(bool),
    Number(Option<u64>),
    Text(String),
    Array(Vec<Json>),
    Object(Vec<(String, Json)>),
}

/// The first member called `key` at or after `from`.
pub open spec fn member(members: Seq<(String, Json)>, key: Seq<char>, from: int) -> Option<Json>
    decreases members.len() - from,
{
    if 0 <= from < members.len() {
        if members[from].0@ == key {
            Some(members[from].1)
        } else {
            member(members, key, from + 1)
        }
    } else {
        None
    }
}

impl Json {
    /// The member called `key`, where this is an object that has one.
    pub open spec fn field(self, key: Seq<char>) -> Option<Json> {
        match self {
            Json::Object(members) => member(members@, key, 0),
            _ => None,
        }
    }

    /// The text of the member called `key`, where there is one and it is text.
    pub open spec fn text_field(self, key: Seq<char>) -> Option<Seq<char>> {
        match self.field(key) {
            Some(Json::Text(t)) => Some(t@),
            _ => None,
        }
    }

    /// Finds the member called `key`.
    pub fn get(&self, key: &str) -> (found: Option<&Json>)
        ensures
            match found {
                Some(value) => self.field(key@) == Some(*value),
                None => self.field(key@) is None,
            },
    {
        match self {
            Json::Object(members) => {
                let mut i: usize = 0;
                while i < members.len()
                    invariant
                        i <= members@.len(),
                        *self == Json::Object(*members),
                        member(members@, key@, 0) == member(members@, key@, i as int),
                    decreases members@.len() - i,
                {
                    if same_text(members[i].0.as_str(), key) {
                        return Some(&members[i].1);
                    }
                    i = i + 1;
                }
                None
            },
            _ => None,
        }
    }

    /// Copies the text of the member called `key`.
    pub fn get_text(&self, key: &str) -> (found: Option<String>)
        ensures
            crate::text::optional(found) == self.text_field(key@),
    {
        match self.get(key) {
            Some(Json::Text(t)) => Some(t.clone()),
            _ => None,
        }
    }

    /// The text of the member called `key`, or no text at all.
    pub fn text_or_empty(&self, key: &str) -> (text: String)
        ensures
            text@ == match self.text_field(key@) {
                Some(t) => t,
                None => Seq::<char>::empty(),
            },
    {
        match self.get_text(key) {
            Some(t) => t,
            None => String::new(),
        }
    }
}

proof fn the_first_member_is_found(members: Seq<(String, Json)>, key: Seq<char>, from: int)
    requires
        0 <= from <= members.len(),
    ensures
        match member(members, key, from) {
            Some(value) => exists|i: int|
                from <= i < members.len() && (#[trigger] members[i]).0@ == key && members[i].1
                    == value && forall|j: int|
                    from <= j < i ==> (#[trigger] members[j]).0@ != key,
            None => forall|j: int| from <= j < members.len() ==> (#[trigger] members[j]).0@ != key,
        },
    decreases members.len() - from,
{
    if from < members.len() {
        if members[from].0@ == key {
            assert(members[from].0@ == key);
        } else {
            the_first_member_is_found(members, key, from + 1);
            if let Some(value) = member(members, key, from + 1) {
                let i = choose|i: int|
                    from + 1 <= i < members.len() && (#[trigger] members[i]).0@ == key
                        && members[i].1 == value && forall|j: int|
                        from + 1 <= j < i ==> (#[trigger] members[j]).0@ != key;
                assert(members[i].0@ == key);
            }
        }
    }
}

/// A member of an object is found under its name, the first of that name, and one
/// is found wherever there is one; nothing but an object has members.
pub proof fn members_are_found_by_name(json: &Json, key: &str, found: Option<&Json>, i: int)
    requires
        call_ensures(Json::get, (json, key), found),
    ensures
        !(json is Object) ==> found is None,
        *json matches Json::Object(members) ==> {
            &&& found is None ==> forall|j: int|
                0 <= j < members@.len() ==> (#[trigger] members@[j]).0@ != key@
            &&& 0 <= i < members@.len() && members@[i].0@ == key@ && (forall|j: int|
                0 <= j < i ==> (#[trigger] members@[j]).0@ != key@) ==> (found matches Some(value)
                && *value == members@[i].1)
        },
{
    if let Json::Object(members) = *json {
        the_first_member_is_found(members@, key@, 0);
        if 0 <= i < members@.len() && members@[i].0@ == key@ && (forall|j: int|
            0 <= j < i ==> (#[trigger] members@[j]).0@ != key@) {
            assert(found is Some);
            let value = found->0;
            let p = choose|p: int|
                0 <= p < members@.len() && (#[trigger] members@[p]).0@ == key@ && members@[p].1
                    == *value && forall|j: int|
                    0 <= j < p ==> (#[trigger] members@[j]).0@ != key@;
            assert(p == i);
        }
    }
}

/// The text of a member is read exactly where the member is text, as it stands;
/// a member of another shape counts as not there.
pub proof fn only_text_is_read_as_text(
    json: &Json,
    key: &str,
    found: Option<&Json>,
    text: Option<String>,
    or_empty: String,
)
    requires
        call_ensures(Json::get, (json, key), found),
        call_ensures(Json::get_text, (json, key), text),
        call_ensures(Json::text_or_empty, (json, key), or_empty),
    ensures
        text is Some <==> (found matches Some(value) && *value is Text),
        text matches Some(t) ==> or_empty@ == t@ && (found matches Some(value) && (
        *value matches Json::Text(kept) && kept@ == t@)),
        text is None ==> or_empty@.len() == 0,
{
}

} // verus!
