//! The DIDs that the client falls back on.

use vstd::prelude::*;
use crate::text::starts_with;

verus! {

/// The Linux Foundation's mediator. The `OPENVTC_MEDIATOR_DID` environment
/// variable names another.
pub const LF_PUBLIC_MEDIATOR_DID: &'static str =
    "did:webvh:QmetnhxzJXTJ9pyXR1BbZ2h6DomY6SB1ZbzFPrjYyaEq9V:fpp.storm.ws:public-mediator";

/// The Linux Foundation itself. The `OPENVTC_ORG_DID` environment variable names
/// another organisation.
pub const LF_ORG_DID: &'static str =
    "did:webvh:QmXkYcFCbvFFcYZf2q5gNk8Vp4b4vMbVKWbbc7oivcdZHK:fpp.storm.ws";

/// Whether a text could be a DID.
pub open spec fn looks_like_did(text: Seq<char>) -> bool {
    "did:"@.is_prefix_of(text)
}

/// The DID to use: the one that was asked for, if it looks like one, and the
/// default otherwise.
pub open spec fn chosen_did(wanted: Option<Seq<char>>, default: Seq<char>) -> Seq<char> {
    match wanted {
        Some(did) => if looks_like_did(did) {
            did
        } else {
            default
        },
        None => default,
    }
}

fn choose_did(wanted: Option<&str>, default: &str) -> (did: String)
    ensures
        did@ == chosen_did(crate::text::optional_str(wanted), default@),
{
    match wanted {
        Some(did) => if starts_with(did, "did:") {
            did.to_owned()
        } else {
            default.to_owned()
        },
        None => default.to_owned(),
    }
}

/// The mediator to use. `override_did` is what the environment asks for.
pub fn mediator_did(override_did: Option<&str>) -> (did: String)
    ensures
        did@ == chosen_did(crate::text::optional_str(override_did), LF_PUBLIC_MEDIATOR_DID@),
{
    choose_did(override_did, LF_PUBLIC_MEDIATOR_DID)
}

/// The organisation to use. `override_did` is what the environment asks for.
pub fn org_did(override_did: Option<&str>) -> (did: String)
    ensures
        did@ == chosen_did(crate::text::optional_str(override_did), LF_ORG_DID@),
{
    choose_did(override_did, LF_ORG_DID)
}

/// Whatever the environment asks for, what is used looks like a DID.
pub proof fn chosen_dids_look_like_dids(wanted: Option<Seq<char>>)
    ensures
        looks_like_did(chosen_did(wanted, LF_PUBLIC_MEDIATOR_DID@)),
        looks_like_did(chosen_did(wanted, LF_ORG_DID@)),
{
    reveal_strlit("did:");
    reveal_strlit(
        "did:webvh:QmetnhxzJXTJ9pyXR1BbZ2h6DomY6SB1ZbzFPrjYyaEq9V:fpp.storm.ws:public-mediator",
    );
    reveal_strlit("did:webvh:QmXkYcFCbvFFcYZf2q5gNk8Vp4b4vMbVKWbbc7oivcdZHK:fpp.storm.ws");
    assert("did:"@ =~= LF_PUBLIC_MEDIATOR_DID@.subrange(0, 4));
    assert("did:"@ =~= LF_ORG_DID@.subrange(0, 4));
}

/// What the environment asks for is used exactly where it begins like a DID, and
/// as it stands; otherwise the client falls back on the one it knows.
pub proof fn a_wanted_did_is_used(wanted: Option<&str>, mediator: String, org: String)
    requires
        call_ensures(mediator_did, (wanted,), mediator),
        call_ensures(org_did, (wanted,), org),
    ensures
        wanted matches Some(did) ==> (did@.len() >= 4 && did@.subrange(0, 4) == "did:"@
            ==> mediator@ == did@ && org@ == did@),
        !(wanted matches Some(did) && did@.len() >= 4 && did@.subrange(0, 4) == "did:"@)
            ==> mediator@ == LF_PUBLIC_MEDIATOR_DID@ && org@ == LF_ORG_DID@,
{
    reveal_strlit("did:");
    if let Some(did) = wanted {
        if did@.len() >= 4 {
            assert("did:"@.is_prefix_of(did@) <==> did@.subrange(0, 4) =~= "did:"@);
        }
    }
}

} // verus!
