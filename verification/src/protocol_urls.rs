//! The URLs that name the message types.

use vstd::prelude::*;

verus! {

/// Asks for a new relationship.
pub const RELATIONSHIP_REQUEST: &'static str =
    "https://linuxfoundation.org/openvtc/1.0/relationship-request";

/// Rejects a relationship request.
pub const RELATIONSHIP_REQUEST_REJECT: &'static str =
    "https://linuxfoundation.org/openvtc/1.0/relationship-request-reject";

/// Accepts a relationship request.
pub const RELATIONSHIP_REQUEST_ACCEPT: &'static str =
    "https://linuxfoundation.org/openvtc/1.0/relationship-request-accept";

/// Completes an accepted relationship request.
pub const RELATIONSHIP_REQUEST_FINALIZE: &'static str =
    "https://linuxfoundation.org/openvtc/1.0/relationship-request-finalize";

/// Asks whether the other side is reachable.
pub const TRUST_PING: &'static str = "https://didcomm.org/trust-ping/2.0/ping";

/// Answers a trust ping.
pub const TRUST_PONG: &'static str = "https://didcomm.org/trust-ping/2.0/ping-response";

/// Asks for a relationship credential.
pub const VRC_REQUEST: &'static str = "https://firstperson.network/vrc/1.0/request";

/// Rejects a credential request.
pub const VRC_REJECTED: &'static str = "https://firstperson.network/vrc/1.0/rejected";

/// Issues a relationship credential.
pub const VRC_ISSUED: &'static str = "https://firstperson.network/vrc/1.0/issued";

/// Asks for the known maintainers.
pub const MAINTAINERS_LIST_REQUEST: &'static str = "https://kernel.org/maintainers/1.0/list";

/// Lists the known maintainers.
pub const MAINTAINERS_LIST_RESPONSE: &'static str =
    "https://kernel.org/maintainers/1.0/list/response";

/// Reports how many messages wait to be picked up.
pub const MESSAGEPICKUP_STATUS: &'static str = "https://didcomm.org/messagepickup/3.0/status";

} // verus!
