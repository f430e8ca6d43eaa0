//! The kinds of credential a community issues to its members.

use vstd::prelude::*;
use crate::json::Json;
use crate::outside::{json_of, json_tree};
use crate::text::same_text;

verus! {

/// A kind of credential that a community issues. Storing, dispatching and
/// showing credentials all go by this one list.
#[derive(Clone, Copy, Debug, PartialEq, Eq, PartialOrd, Ord, Hash, Structural)]
#[non_exhaustive]
pub enum CredentialKind {
    /// Proof of admission; receiving it activates the membership.
    Membership,
    /// The role within the community.
    Role,
}

impl CredentialKind {
    /// Every kind, in display order.
    pub const ALL: [CredentialKind; 2] = [CredentialKind::Membership, CredentialKind::Role];

    /// The `type` value by which a credential shows its kind.
    pub open spec fn type_value(self) -> Seq<char> {
        match self {
            CredentialKind::Membership => "MembershipCredential"@,
            CredentialKind::Role => "EndorsementCredential"@,
        }
    }

    /// The key the kind is stored under.
    pub open spec fn key(self) -> Seq<char> {
        match self {
            CredentialKind::Membership => "Membership"@,
            CredentialKind::Role => "Role"@,
        }
    }

    /// The `type` value by which a credential shows its kind.
    pub fn vc_type(self) -> (text: &'static str)
        ensures
            text@ == self.type_value(),
    {
        match self {
            CredentialKind::Membership => "MembershipCredential",
            CredentialKind::Role => "EndorsementCredential",
        }
    }

    /// The key the kind is stored under, which is also its short label.
    pub fn config_key(self) -> (text: &'static str)
        ensures
            text@ == self.key(),
    {
        match self {
            CredentialKind::Membership => "Membership",
            CredentialKind::Role => "Role",
        }
    }

    /// Whether receiving this kind activates the membership.
    pub fn activates_membership(self) -> (yes: bool)
        ensures
            yes == (self == CredentialKind::Membership),
    {
        matches!(self, CredentialKind::Membership)
    }

    /// The kind that is stored under a key, if there is one.
    pub fn from_config_key(key: &str) -> (kind: Option<CredentialKind>)
        ensures
            match kind {
                Some(k) => k.key() == key@,
                None => forall|other: CredentialKind| #![trigger other.key()] other.key() != key@,
            },
    {
        if same_text(CredentialKind::Membership.config_key(), key) {
            Some(CredentialKind::Membership)
        } else if same_text(CredentialKind::Role.config_key(), key) {
            Some(CredentialKind::Role)
        } else {
            None
        }
    }

    /// Whether a credential says that it is of this kind.
    pub open spec fn claimed_by(self, credential: Json) -> bool {
        credential.field("type"@) matches Some(Json::Array(types)) && exists|i: int|
            0 <= i < types@.len() && (#[trigger] types@[i] matches Json::Text(t) && t@
                == self.type_value())
    }

    /// The kind of a credential: the first, in display order, that it claims.
    pub open spec fn kind_of(credential: Json) -> Option<CredentialKind> {
        if CredentialKind::Membership.claimed_by(credential) {
            Some(CredentialKind::Membership)
        } else if CredentialKind::Role.claimed_by(credential) {
            Some(CredentialKind::Role)
        } else {
            None
        }
    }

    fn is_claimed_by(self, credential: &Json) -> (claimed: bool)
        ensures
            claimed == self.claimed_by(*credential),
    {
        match credential.get("type") {
            Some(Json::Array(types)) => {
                let mut i: usize = 0;
                while i < types.len()
                    invariant
                        i <= types@.len(),
                        credential.field("type"@) == Some(Json::Array(*types)),
                        forall|j: int|
                            0 <= j < i ==> !(#[trigger] types@[j] matches Json::Text(t) && t@
                                == self.type_value()),
                    decreases types@.len() - i,
                {
                    if let Json::Text(t) = &types[i] {
                        if same_text(t.as_str(), self.vc_type()) {
                            proof {
                                assert(types@[i as int] matches Json::Text(t) && t@
                                    == self.type_value());
                            }
                            return true;
                        }
                    }
                    i = i + 1;
                }
                false
            },
            _ => false,
        }
    }

    /// The kind of an issued credential, if it is of a known one.
    pub fn from_credential(credential: &serde_json::Value) -> (kind: Option<CredentialKind>)
        ensures
            kind == CredentialKind::kind_of(json_tree(*credential)),
    {
        CredentialKind::from_json(&json_of(credential))
    }

    /// The kind of an issued credential that is already taken apart.
    pub fn from_json(credential: &Json) -> (kind: Option<CredentialKind>)
        ensures
            kind == CredentialKind::kind_of(*credential),
    {
        if CredentialKind::Membership.is_claimed_by(credential) {
            Some(CredentialKind::Membership)
        } else if CredentialKind::Role.is_claimed_by(credential) {
            Some(CredentialKind::Role)
        } else {
            None
        }
    }
}

/// A kind is found again under its own key.
pub proof fn keys_are_read_back(kind: CredentialKind, found: Option<CredentialKind>)
    requires
        match found {
            Some(k) => k.key() == kind.key(),
            None => forall|k: CredentialKind| #[trigger] k.key() != kind.key(),
        },
    ensures
        found == Some(kind),
{
    reveal_strlit("Membership");
    reveal_strlit("Role");
    assert("Membership"@.len() == 10);
    assert("Role"@.len() == 4);
    assert(kind.key() == kind.key());
}

/// A credential that claims exactly one kind is of that kind, whatever other
/// types it names.
pub proof fn credentials_are_classified(credential: Json, kind: CredentialKind)
    requires
        forall|k: CredentialKind| #[trigger] k.claimed_by(credential) <==> k == kind,
    ensures
        CredentialKind::kind_of(credential) == Some(kind),
{
    assert(CredentialKind::Membership.claimed_by(credential) <==> kind
        == CredentialKind::Membership);
    assert(CredentialKind::Role.claimed_by(credential) <==> kind == CredentialKind::Role);
}

/// Whether a credential names a type among its own.
pub open spec fn names_type(credential: Json, name: Seq<char>) -> bool {
    credential.field("type"@) matches Some(Json::Array(types)) && exists|i: int|
        0 <= i < types@.len() && (#[trigger] types@[i] matches Json::Text(t) && t@ == name)
}

/// A credential that names the membership type is a membership, whatever else it
/// names; one that names the endorsement type and not that is a role; any other
/// is of no known kind.
pub proof fn kinds_go_by_the_types_named(credential: &Json, kind: Option<CredentialKind>)
    requires
        call_ensures(CredentialKind::from_json, (credential,), kind),
    ensures
        kind == Some(CredentialKind::Membership) <==> names_type(
            *credential,
            "MembershipCredential"@,
        ),
        kind == Some(CredentialKind::Role) <==> names_type(*credential, "EndorsementCredential"@)
            && !names_type(*credential, "MembershipCredential"@),
{
    assert(CredentialKind::Membership.claimed_by(*credential) == names_type(
        *credential,
        "MembershipCredential"@,
    ));
    assert(CredentialKind::Role.claimed_by(*credential) == names_type(
        *credential,
        "EndorsementCredential"@,
    ));
}

/// Only a membership activates a membership.
pub proof fn only_a_membership_activates(kind: CredentialKind, yes: bool)
    requires
        call_ensures(CredentialKind::activates_membership, (kind,), yes),
    ensures
        kind is Membership ==> yes,
        kind is Role ==> !yes,
{
}

/// A kind is stored under one key, and only that key leads back to it.
pub proof fn a_key_leads_to_its_kind(key: &str, found: Option<CredentialKind>)
    requires
        call_ensures(CredentialKind::from_config_key, (key,), found),
    ensures
        key@ == "Membership"@ ==> found == Some(CredentialKind::Membership),
        key@ == "Role"@ ==> found == Some(CredentialKind::Role),
        key@ != "Membership"@ && key@ != "Role"@ ==> found is None,
{
    reveal_strlit("Membership");
    reveal_strlit("Role");
    assert("Membership"@.len() == 10);
    assert("Role"@.len() == 4);
    assert(CredentialKind::Membership.key() == "Membership"@);
    assert(CredentialKind::Role.key() == "Role"@);
}

/// A credential that is still whole is of the kind that its types name.
pub proof fn whole_credentials_go_by_the_types_named(
    credential: &serde_json::Value,
    kind: Option<CredentialKind>,
)
    requires
        call_ensures(CredentialKind::from_credential, (credential,), kind),
    ensures
        kind == Some(CredentialKind::Membership) <==> names_type(
            json_tree(*credential),
            "MembershipCredential"@,
        ),
        kind == Some(CredentialKind::Role) <==> names_type(
            json_tree(*credential),
            "EndorsementCredential"@,
        ) && !names_type(json_tree(*credential), "MembershipCredential"@),
{
    let tree = json_tree(*credential);
    assert(CredentialKind::Membership.claimed_by(tree) == names_type(
        tree,
        "MembershipCredential"@,
    ));
    assert(CredentialKind::Role.claimed_by(tree) == names_type(tree, "EndorsementCredential"@));
}

} // verus!
