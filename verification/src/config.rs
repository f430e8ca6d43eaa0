//! What the account remembers, as far as the library reads it.

use vstd::prelude::*;
use crate::identity::PersonaId;
use crate::keyed::Keyed;
use crate::text::{optional, optional_str, same_text};
use crate::time::Timestamp;

verus! {

/// Someone the user knows.
#[derive(Clone, Debug)]
pub struct Contact {
    pub did: String,
    /// What the user calls them.
    pub alias: Option<String>,
}

/// The user's contacts, by DID.
#[derive(Clone, Debug, Default)]
pub struct Contacts {
    pub contacts: Keyed<String, Contact>,
}

impl Contacts {
    /// What the user calls a DID.
    pub open spec fn alias(self, did: Seq<char>) -> Option<Seq<char>> {
        if self.contacts@.dom().contains(did) {
            optional(self.contacts@[did].alias)
        } else {
            None
        }
    }

    /// Finds what the user calls a DID.
    pub fn alias_for(&self, did: &str) -> (found: Option<String>)
        ensures
            optional(found) == self.alias(did@),
    {
        let key = did.to_owned();
        match self.contacts.get(&key) {
            Some(contact) => contact.alias.clone(),
            None => None,
        }
    }
}

/// A relationship with someone.
#[derive(Clone, Debug)]
pub struct Relationship {
    /// The DID they use in this relationship.
    pub remote_did: String,
    /// The DID of the persona behind it.
    pub remote_p_did: String,
    /// Whether both sides have agreed to it.
    pub established: bool,
}

/// The first relationship at or after `from` in which the other side uses a DID.
pub open spec fn relationship_with(
    relationships: Seq<Relationship>,
    did: Seq<char>,
    from: int,
) -> Option<Relationship>
    decreases relationships.len() - from,
{
    if 0 <= from < relationships.len() {
        if relationships[from].remote_did@ == did {
            Some(relationships[from])
        } else {
            relationship_with(relationships, did, from + 1)
        }
    } else {
        None
    }
}

/// The user's relationships.
#[derive(Clone, Debug, Default)]
pub struct Relationships {
    pub relationships: Vec<Relationship>,
}

impl Relationships {
    /// The relationship in which the other side uses a DID.
    pub open spec fn with(self, did: Seq<char>) -> Option<Relationship> {
        relationship_with(self.relationships@, did, 0)
    }

    /// Finds the relationship in which the other side uses a DID.
    pub fn find_by_remote_did(&self, did: &str) -> (found: Option<&Relationship>)
        ensures
            match found {
                Some(r) => self.with(did@) == Some(*r),
                None => self.with(did@) is None,
            },
    {
        let mut i: usize = 0;
        while i < self.relationships.len()
            invariant
                i <= self.relationships@.len(),
                self.with(did@) == relationship_with(self.relationships@, did@, i as int),
            decreases self.relationships@.len() - i,
        {
            if same_text(self.relationships[i].remote_did.as_str(), did) {
                return Some(&self.relationships[i]);
            }
            i = i + 1;
        }
        None
    }
}

/// What looking up an agent name came to.
#[derive(Clone, Debug)]
pub struct CachedName {
    /// The verified name; nothing where the DID has none.
    pub name: Option<String>,
    pub checked_at: Timestamp,
}

/// A task of the user's.
#[derive(Clone, Debug)]
pub struct Task {
    pub id: String,
    /// Whom the task pinged, where it is a ping.
    pub ping_to: Option<String>,
}

/// The part of the account that is never shared.
#[derive(Clone, Debug, Default)]
pub struct PrivateConfig {
    pub contacts: Contacts,
    pub relationships: Relationships,
    /// The agent names that were looked up, by DID.
    pub agent_names: Keyed<String, CachedName>,
    /// The tasks, oldest first.
    pub tasks: Vec<Task>,
}

/// A persona of the account.
#[derive(Clone, Debug)]
pub struct PersonaRecord {
    pub persona_id: PersonaId,
    pub did: String,
    /// The keys the persona owns.
    pub key_ids: Vec<String>,
}

/// A membership of the account.
#[derive(Clone, Debug)]
pub struct CommunityRecord {
    pub vtc_did: String,
    /// The persona the community sees.
    pub persona_ref: PersonaId,
    pub sub_context_id: String,
    /// Whether the membership needs a live session.
    pub live: bool,
}

/// The personas and memberships of the account.
#[derive(Clone, Debug, Default)]
pub struct Account {
    pub personas: Vec<PersonaRecord>,
    pub memberships: Vec<CommunityRecord>,
}

/// The first persona at or after `from` that has a DID.
pub open spec fn persona_with(
    personas: Seq<PersonaRecord>,
    did: Seq<char>,
    from: int,
) -> Option<PersonaRecord>
    decreases personas.len() - from,
{
    if 0 <= from < personas.len() {
        if personas[from].did@ == did {
            Some(personas[from])
        } else {
            persona_with(personas, did, from + 1)
        }
    } else {
        None
    }
}

/// The first persona at or after `from` that goes by an identifier.
pub open spec fn persona_numbered(
    personas: Seq<PersonaRecord>,
    id: PersonaId,
    from: int,
) -> Option<PersonaRecord>
    decreases personas.len() - from,
{
    if 0 <= from < personas.len() {
        if personas[from].persona_id == id {
            Some(personas[from])
        } else {
            persona_numbered(personas, id, from + 1)
        }
    } else {
        None
    }
}

/// How many memberships show a persona.
pub open spec fn memberships_of(memberships: Seq<CommunityRecord>, id: PersonaId) -> nat
    decreases memberships.len(),
{
    if memberships.len() == 0 {
        0
    } else {
        memberships_of(memberships.drop_last(), id) + (if memberships.last().persona_ref == id {
            1nat
        } else {
            0nat
        })
    }
}

impl Account {
    /// Finds the persona with a DID.
    pub fn persona_for_did(&self, did: &str) -> (found: Option<&PersonaRecord>)
        ensures
            match found {
                Some(p) => persona_with(self.personas@, did@, 0) == Some(*p),
                None => persona_with(self.personas@, did@, 0) is None,
            },
    {
        let mut i: usize = 0;
        while i < self.personas.len()
            invariant
                i <= self.personas@.len(),
                persona_with(self.personas@, did@, 0) == persona_with(
                    self.personas@,
                    did@,
                    i as int,
                ),
            decreases self.personas@.len() - i,
        {
            if same_text(self.personas[i].did.as_str(), did) {
                return Some(&self.personas[i]);
            }
            i = i + 1;
        }
        None
    }

    /// Finds the persona that goes by an identifier.
    pub fn persona(&self, id: PersonaId) -> (found: Option<&PersonaRecord>)
        ensures
            match found {
                Some(p) => persona_numbered(self.personas@, id, 0) == Some(*p),
                None => persona_numbered(self.personas@, id, 0) is None,
            },
    {
        let mut i: usize = 0;
        while i < self.personas.len()
            invariant
                i <= self.personas@.len(),
                persona_numbered(self.personas@, id, 0) == persona_numbered(
                    self.personas@,
                    id,
                    i as int,
                ),
            decreases self.personas@.len() - i,
        {
            if self.personas[i].persona_id == id {
                return Some(&self.personas[i]);
            }
            i = i + 1;
        }
        None
    }

    /// Counts the memberships that show a persona.
    pub fn bound_to(&self, id: PersonaId) -> (count: usize)
        ensures
            count == memberships_of(self.memberships@, id),
    {
        let mut count: usize = 0;
        let mut i: usize = 0;
        while i < self.memberships.len()
            invariant
                i <= self.memberships@.len(),
                count <= i,
                count == memberships_of(self.memberships@.take(i as int), id),
            decreases self.memberships@.len() - i,
        {
            proof {
                assert(self.memberships@.take(i + 1).drop_last() =~= self.memberships@.take(
                    i as int,
                ));
            }
            if self.memberships[i].persona_ref == id {
                count = count + 1;
            }
            i = i + 1;
        }
        proof {
            assert(self.memberships@.take(i as int) =~= self.memberships@);
        }
        count
    }

    /// Whether a membership that shows a persona needs a live session.
    pub open spec fn serves(self, id: PersonaId) -> bool {
        exists|i: int|
            0 <= i < self.memberships@.len() && (#[trigger] self.memberships@[i]).persona_ref == id
                && self.memberships@[i].live
    }

    /// Whether any membership needs a live session.
    pub open spec fn has_live(self) -> bool {
        exists|i: int| 0 <= i < self.memberships@.len() && (#[trigger] self.memberships@[i]).live
    }

    /// Whether a membership that shows a persona needs a live session.
    pub fn still_serves(&self, id: PersonaId) -> (yes: bool)
        ensures
            yes == self.serves(id),
    {
        let mut i: usize = 0;
        while i < self.memberships.len()
            invariant
                i <= self.memberships@.len(),
                forall|j: int|
                    0 <= j < i ==> !((#[trigger] self.memberships@[j]).persona_ref == id
                        && self.memberships@[j].live),
            decreases self.memberships@.len() - i,
        {
            if self.memberships[i].persona_ref == id && self.memberships[i].live {
                proof {
                    assert(self.memberships@[i as int].persona_ref == id);
                }
                return true;
            }
            i = i + 1;
        }
        false
    }

    /// Whether any membership needs a live session.
    pub fn any_live(&self) -> (yes: bool)
        ensures
            yes == self.has_live(),
    {
        let mut i: usize = 0;
        while i < self.memberships.len()
            invariant
                i <= self.memberships@.len(),
                forall|j: int| 0 <= j < i ==> !(#[trigger] self.memberships@[j]).live,
            decreases self.memberships@.len() - i,
        {
            if self.memberships[i].live {
                proof {
                    assert(self.memberships@[i as int].live);
                }
                return true;
            }
            i = i + 1;
        }
        false
    }
}

/// Where the account's keys are kept.
#[derive(Clone, Debug)]
pub enum KeyBackend {
    /// At a VTA.
    Vta {
        vta_did: String,
        /// The DID this install authenticates as.
        credential_did: String,
    },
    /// Derived from a seed.
    Bip32,
}

/// A persona that did not load.
#[derive(Clone, Debug)]
pub struct DegradedPersona {
    pub did: String,
    pub label: Option<String>,
    /// Why it did not load.
    pub reason: String,
}

/// A membership whose persona did not load.
#[derive(Clone, Debug)]
pub struct StrandedMembership {
    pub label: Option<String>,
    pub vtc_did: String,
}

/// What was found wrong while the account was loaded.
#[derive(Clone, Debug, Default)]
pub struct LoadIntegrity {
    /// What was found, in one line.
    pub headline: String,
    pub degraded_personas: Vec<DegradedPersona>,
    pub stranded_memberships: Vec<StrandedMembership>,
    pub orphaned_key_ids: Vec<String>,
}

impl LoadIntegrity {
    /// Whether nothing was found wrong.
    pub open spec fn clean(self) -> bool {
        self.degraded_personas@.len() == 0 && self.stranded_memberships@.len() == 0
            && self.orphaned_key_ids@.len() == 0
    }

    /// Whether nothing was found wrong.
    pub fn is_clean(&self) -> (clean: bool)
        ensures
            clean == self.clean(),
    {
        self.degraded_personas.len() == 0 && self.stranded_memberships.len() == 0
            && self.orphaned_key_ids.len() == 0
    }
}

/// A persona that loaded.
#[derive(Clone, Debug)]
pub struct Identity {
    pub persona_id: PersonaId,
    pub did: String,
    /// The mediator it is reached through, where it has one of its own.
    pub mediator_did: Option<String>,
}

/// The account's configuration.
#[derive(Clone, Debug)]
pub struct Config {
    pub private: PrivateConfig,
    pub account: Account,
    /// The personas that loaded.
    pub identities: Vec<Identity>,
    /// The persona being worked as.
    pub active_persona: Option<PersonaId>,
    pub key_backend: KeyBackend,
    pub mediator_did: String,
}

impl Default for Config {
    /// An account with nothing in it.
    fn default() -> (config: Self)
        ensures
            config.private.contacts.contacts@ == Map::<Seq<char>, Contact>::empty(),
            config.private.relationships.relationships@ == Seq::<Relationship>::empty(),
            config.private.agent_names@ == Map::<Seq<char>, CachedName>::empty(),
            config.private.tasks@ == Seq::<Task>::empty(),
            config.account.personas@ == Seq::<PersonaRecord>::empty(),
            config.account.memberships@ == Seq::<CommunityRecord>::empty(),
            config.identities@ == Seq::<Identity>::empty(),
            config.active_persona is None,
            config.key_backend == KeyBackend::Bip32,
            config.mediator_did@ == Seq::<char>::empty(),
    {
        Config {
            private: PrivateConfig {
                contacts: Contacts { contacts: Keyed::new() },
                relationships: Relationships { relationships: Vec::new() },
                agent_names: Keyed::new(),
                tasks: Vec::new(),
            },
            account: Account { personas: Vec::new(), memberships: Vec::new() },
            identities: Vec::new(),
            active_persona: None,
            key_backend: KeyBackend::Bip32,
            mediator_did: String::new(),
        }
    }
}

/// The first loaded persona at or after `from` that goes by an identifier.
pub open spec fn identity_numbered(
    identities: Seq<Identity>,
    id: PersonaId,
    from: int,
) -> Option<Identity>
    decreases identities.len() - from,
{
    if 0 <= from < identities.len() {
        if identities[from].persona_id == id {
            Some(identities[from])
        } else {
            identity_numbered(identities, id, from + 1)
        }
    } else {
        None
    }
}

impl Config {
    /// The verified name of a DID, as far as it has been looked up.
    pub open spec fn agent_name(self, did: Seq<char>) -> Option<Seq<char>> {
        if self.private.agent_names@.dom().contains(did) {
            optional(self.private.agent_names@[did].name)
        } else {
            None
        }
    }

    /// Finds the verified name of a DID.
    pub fn agent_name_for(&self, did: &str) -> (name: Option<&str>)
        ensures
            optional_str(name) == self.agent_name(did@),
    {
        let key = did.to_owned();
        match self.private.agent_names.get(&key) {
            Some(cached) => match &cached.name {
                Some(name) => Some(name.as_str()),
                None => None,
            },
            None => None,
        }
    }

    /// Remembers what looking up a DID's name came to.
    pub fn set_cached_agent_name(&mut self, did: &str, name: Option<String>, now: Timestamp)
        ensures
            *final(self) == (Config {
                private: PrivateConfig {
                    agent_names: final(self).private.agent_names,
                    ..old(self).private
                },
                ..*old(self)
            }),
            final(self).private.agent_names@ == old(self).private.agent_names@.insert(
                did@,
                (CachedName { name, checked_at: now }),
            ),
    {
        self.private.agent_names.insert(did.to_owned(), CachedName { name, checked_at: now });
    }

    /// A loaded persona.
    pub open spec fn identity(self, id: PersonaId) -> Option<Identity> {
        identity_numbered(self.identities@, id, 0)
    }

    /// Finds a loaded persona.
    pub fn identity_for(&self, id: PersonaId) -> (found: Option<&Identity>)
        ensures
            match found {
                Some(identity) => self.identity(id) == Some(*identity),
                None => self.identity(id) is None,
            },
    {
        let mut i: usize = 0;
        while i < self.identities.len()
            invariant
                i <= self.identities@.len(),
                self.identity(id) == identity_numbered(self.identities@, id, i as int),
            decreases self.identities@.len() - i,
        {
            if self.identities[i].persona_id == id {
                return Some(&self.identities[i]);
            }
            i = i + 1;
        }
        None
    }
}

/// A relationship is found by the DID the other side uses: the first one there
/// is, and one is found wherever there is one.
pub proof fn the_first_relationship_is_found(
    relationships: Seq<Relationship>,
    did: Seq<char>,
    from: int,
)
    requires
        0 <= from <= relationships.len(),
    ensures
        match relationship_with(relationships, did, from) {
            Some(found) => exists|i: int|
                from <= i < relationships.len() && #[trigger] relationships[i] == found
                    && found.remote_did@ == did && forall|j: int|
                    from <= j < i ==> (#[trigger] relationships[j]).remote_did@ != did,
            None => forall|j: int|
                from <= j < relationships.len() ==> (#[trigger] relationships[j]).remote_did@
                    != did,
        },
    decreases relationships.len() - from,
{
    if from < relationships.len() {
        if relationships[from].remote_did@ == did {
            assert(relationships[from] == relationships[from]);
        } else {
            the_first_relationship_is_found(relationships, did, from + 1);
            if let Some(found) = relationship_with(relationships, did, from + 1) {
                let i = choose|i: int|
                    from + 1 <= i < relationships.len() && #[trigger] relationships[i] == found
                        && found.remote_did@ == did && forall|j: int|
                        from + 1 <= j < i ==> (#[trigger] relationships[j]).remote_did@ != did;
                assert(relationships[i] == found);
            }
        }
    }
}

/// A persona is found by its DID: the first one there is, and one is found
/// wherever there is one.
pub proof fn the_first_persona_with_a_did_is_found(
    personas: Seq<PersonaRecord>,
    did: Seq<char>,
    from: int,
)
    requires
        0 <= from <= personas.len(),
    ensures
        match persona_with(personas, did, from) {
            Some(found) => exists|i: int|
                from <= i < personas.len() && #[trigger] personas[i] == found && found.did@ == did
                    && forall|j: int| from <= j < i ==> (#[trigger] personas[j]).did@ != did,
            None => forall|j: int|
                from <= j < personas.len() ==> (#[trigger] personas[j]).did@ != did,
        },
    decreases personas.len() - from,
{
    if from < personas.len() {
        if personas[from].did@ == did {
            assert(personas[from] == personas[from]);
        } else {
            the_first_persona_with_a_did_is_found(personas, did, from + 1);
            if let Some(found) = persona_with(personas, did, from + 1) {
                let i = choose|i: int|
                    from + 1 <= i < personas.len() && #[trigger] personas[i] == found && found.did@
                        == did && forall|j: int|
                        from + 1 <= j < i ==> (#[trigger] personas[j]).did@ != did;
                assert(personas[i] == found);
            }
        }
    }
}

/// A persona is found by its identifier: the first one there is, and one is found
/// wherever there is one.
pub proof fn the_first_persona_with_an_identifier_is_found(
    personas: Seq<PersonaRecord>,
    id: PersonaId,
    from: int,
)
    requires
        0 <= from <= personas.len(),
    ensures
        match persona_numbered(personas, id, from) {
            Some(found) => exists|i: int|
                from <= i < personas.len() && #[trigger] personas[i] == found && found.persona_id
                    == id && forall|j: int|
                    from <= j < i ==> (#[trigger] personas[j]).persona_id != id,
            None => forall|j: int|
                from <= j < personas.len() ==> (#[trigger] personas[j]).persona_id != id,
        },
    decreases personas.len() - from,
{
    if from < personas.len() {
        if personas[from].persona_id == id {
            assert(personas[from] == personas[from]);
        } else {
            the_first_persona_with_an_identifier_is_found(personas, id, from + 1);
            if let Some(found) = persona_numbered(personas, id, from + 1) {
                let i = choose|i: int|
                    from + 1 <= i < personas.len() && #[trigger] personas[i] == found
                        && found.persona_id == id && forall|j: int|
                        from + 1 <= j < i ==> (#[trigger] personas[j]).persona_id != id;
                assert(personas[i] == found);
            }
        }
    }
}

/// A loaded persona is found by its identifier: the first one there is, and one
/// is found wherever there is one.
pub proof fn the_first_identity_is_found(identities: Seq<Identity>, id: PersonaId, from: int)
    requires
        0 <= from <= identities.len(),
    ensures
        match identity_numbered(identities, id, from) {
            Some(found) => exists|i: int|
                from <= i < identities.len() && #[trigger] identities[i] == found
                    && found.persona_id == id && forall|j: int|
                    from <= j < i ==> (#[trigger] identities[j]).persona_id != id,
            None => forall|j: int|
                from <= j < identities.len() ==> (#[trigger] identities[j]).persona_id != id,
        },
    decreases identities.len() - from,
{
    if from < identities.len() {
        if identities[from].persona_id == id {
            assert(identities[from] == identities[from]);
        } else {
            the_first_identity_is_found(identities, id, from + 1);
            if let Some(found) = identity_numbered(identities, id, from + 1) {
                let i = choose|i: int|
                    from + 1 <= i < identities.len() && #[trigger] identities[i] == found
                        && found.persona_id == id && forall|j: int|
                        from + 1 <= j < i ==> (#[trigger] identities[j]).persona_id != id;
                assert(identities[i] == found);
            }
        }
    }
}

/// The lookups hand out what they were asked for and never anything else, and
/// come back empty-handed only where there is nothing of the kind.
pub proof fn lookups_find_what_there_is(
    account: &Account,
    relationships: &Relationships,
    config: &Config,
    did: &str,
    id: PersonaId,
    by_did: Option<&PersonaRecord>,
    by_id: Option<&PersonaRecord>,
    with: Option<&Relationship>,
    loaded: Option<&Identity>,
)
    requires
        call_ensures(Account::persona_for_did, (account, did), by_did),
        call_ensures(Account::persona, (account, id), by_id),
        call_ensures(Relationships::find_by_remote_did, (relationships, did), with),
        call_ensures(Config::identity_for, (config, id), loaded),
    ensures
        by_did matches Some(p) ==> p.did@ == did@ && account.personas@.contains(*p),
        by_did is None ==> forall|i: int|
            0 <= i < account.personas@.len() ==> (#[trigger] account.personas@[i]).did@ != did@,
        by_id matches Some(p) ==> p.persona_id == id && account.personas@.contains(*p),
        by_id is None ==> forall|i: int|
            0 <= i < account.personas@.len() ==> (#[trigger] account.personas@[i]).persona_id != id,
        with matches Some(r) ==> r.remote_did@ == did@ && relationships.relationships@.contains(*r),
        with is None ==> forall|i: int|
            0 <= i < relationships.relationships@.len() ==> (
            #[trigger] relationships.relationships@[i]).remote_did@ != did@,
        loaded matches Some(p) ==> p.persona_id == id && config.identities@.contains(*p),
        loaded is None ==> forall|i: int|
            0 <= i < config.identities@.len() ==> (#[trigger] config.identities@[i]).persona_id
                != id,
{
    the_first_persona_with_a_did_is_found(account.personas@, did@, 0);
    the_first_persona_with_an_identifier_is_found(account.personas@, id, 0);
    the_first_relationship_is_found(relationships.relationships@, did@, 0);
    the_first_identity_is_found(config.identities@, id, 0);
}

proof fn memberships_are_counted(memberships: Seq<CommunityRecord>, id: PersonaId)
    ensures
        memberships_of(memberships, id) == memberships.filter(
            |m: CommunityRecord| m.persona_ref == id,
        ).len(),
    decreases memberships.len(),
{
    reveal(Seq::filter);
    if memberships.len() > 0 {
        memberships_are_counted(memberships.drop_last(), id);
    }
}

/// A persona counts as many memberships as there are that show it.
pub proof fn every_membership_of_a_persona_counts(account: &Account, id: PersonaId, count: usize)
    requires
        call_ensures(Account::bound_to, (account, id), count),
    ensures
        count == account.memberships@.filter(|m: CommunityRecord| m.persona_ref == id).len(),
{
    memberships_are_counted(account.memberships@, id);
}

/// A persona is served while any membership that shows it is live, and the
/// account while any membership is.
pub proof fn one_live_membership_is_enough(
    account: &Account,
    id: PersonaId,
    serves: bool,
    live: bool,
)
    requires
        call_ensures(Account::still_serves, (account, id), serves),
        call_ensures(Account::any_live, (account,), live),
    ensures
        forall|i: int|
            0 <= i < account.memberships@.len() && (#[trigger] account.memberships@[i]).live
                ==> live && (account.memberships@[i].persona_ref == id ==> serves),
        live ==> exists|i: int|
            0 <= i < account.memberships@.len() && (#[trigger] account.memberships@[i]).live,
        serves ==> exists|i: int|
            0 <= i < account.memberships@.len() && (#[trigger] account.memberships@[i]).live
                && account.memberships@[i].persona_ref == id,
{
    if serves {
        let i = choose|i: int|
            0 <= i < account.memberships@.len() && (#[trigger] account.memberships@[i]).persona_ref
                == id && account.memberships@[i].live;
        assert(account.memberships@[i].live);
    }
}

/// A load is clean exactly when no persona, membership or key is amiss.
pub proof fn a_clean_load_misses_nothing(integrity: &LoadIntegrity, clean: bool)
    requires
        call_ensures(LoadIntegrity::is_clean, (integrity,), clean),
    ensures
        clean ==> integrity.degraded_personas@ == Seq::<DegradedPersona>::empty(),
        clean ==> integrity.stranded_memberships@ == Seq::<StrandedMembership>::empty(),
        clean ==> integrity.orphaned_key_ids@ == Seq::<String>::empty(),
        !clean ==> integrity.degraded_personas@.len() + integrity.stranded_memberships@.len()
            + integrity.orphaned_key_ids@.len() > 0,
{
}

/// A name that was looked up is the one that is known afterwards, and no other
/// DID is called anything else for it.
pub proof fn a_cached_name_is_known(
    config: &mut Config,
    did: &str,
    name: Option<String>,
    now: Timestamp,
    other: Seq<char>,
)
    requires
        call_ensures(Config::set_cached_agent_name, (config, did, name, now), ()),
    ensures
        name matches Some(n) ==> final(config).agent_name(did@) == Some(n@),
        name is None ==> final(config).agent_name(did@) is None,
        final(config).private.agent_names@[did@].checked_at == now,
        other != did@ ==> final(config).agent_name(other) == old(config).agent_name(other),
        final(config).account == old(config).account,
        final(config).identities == old(config).identities,
        final(config).private.contacts == old(config).private.contacts,
        final(config).private.relationships == old(config).private.relationships,
        final(config).private.tasks == old(config).private.tasks,
{
}

/// What the user calls someone is what stands in their contact, and only that.
pub proof fn an_alias_is_what_the_contact_says(contacts: &Contacts, did: &str, found: Option<String>)
    requires
        call_ensures(Contacts::alias_for, (contacts, did), found),
    ensures
        found is Some <==> contacts.contacts@.dom().contains(did@)
            && contacts.contacts@[did@].alias is Some,
        found matches Some(alias) ==> contacts.contacts@[did@].alias matches Some(kept) && alias@
            == kept@,
{
}

/// A verified name is known exactly where a lookup found one, and it is the one
/// that was found.
pub proof fn a_known_name_was_looked_up(config: &Config, did: &str, name: Option<&str>)
    requires
        call_ensures(Config::agent_name_for, (config, did), name),
    ensures
        name is Some <==> config.private.agent_names@.dom().contains(did@)
            && config.private.agent_names@[did@].name is Some,
        name matches Some(n) ==> config.private.agent_names@[did@].name matches Some(kept) && n@
            == kept@,
{
}

} // verus!
