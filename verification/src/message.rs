//! Messages and the types they come in.

use vstd::prelude::*;
use crate::errors::OpenVTCError;
use crate::outside::{random_id, seconds_since_epoch};
use crate::protocol_urls::{
    MAINTAINERS_LIST_REQUEST, MAINTAINERS_LIST_RESPONSE, RELATIONSHIP_REQUEST,
    RELATIONSHIP_REQUEST_ACCEPT, RELATIONSHIP_REQUEST_FINALIZE, RELATIONSHIP_REQUEST_REJECT,
    TRUST_PING, TRUST_PONG, VRC_ISSUED, VRC_REJECTED, VRC_REQUEST,
};
use crate::text::{optional, same_text};
use serde_json::Value;
use std::time::SystemTimeError;

verus! {

/// A DIDComm message.
#[derive(Clone, Debug)]
pub struct Message {
    pub id: String,
    /// The URL of the message's type.
    pub typ: String,
    pub from: Option<String>,
    pub to: Option<Vec<String>>,
    /// The thread the message belongs to.
    pub thid: Option<String>,
    /// When the message was made, in seconds since the Unix epoch.
    pub created_time: Option<u64>,
    /// What the message says; nothing where its body is the JSON null.
    pub body: Option<Value>,
}

/// The sender of a message.
///
/// Fails with [`OpenVTCError::Config`] where the message names none.
pub fn require_from(msg: &Message) -> (sender: Result<String, OpenVTCError>)
    ensures
        match msg.from {
            Some(from) => sender == Ok::<String, OpenVTCError>(from),
            None => sender matches Err(OpenVTCError::Config(reason)) && reason@
                == "Message has no 'from' address"@,
        },
{
    match &msg.from {
        Some(from) => Ok(from.clone()),
        None => Err(OpenVTCError::Config("Message has no 'from' address".to_owned())),
    }
}

/// The types of message the library knows.
#[derive(Clone, Copy, Debug, PartialEq, Eq, Structural)]
#[non_exhaustive]
pub enum MessageType {
    RelationshipRequest,
    RelationshipRequestRejected,
    RelationshipRequestAccepted,
    RelationshipRequestFinalize,
    TrustPing,
    TrustPong,
    VRCRequest,
    VRCRequestRejected,
    VRCIssued,
    MaintainersListRequest,
    MaintainersListResponse,
}

impl MessageType {
    /// The name a person reads.
    pub open spec fn name(self) -> Seq<char> {
        match self {
            MessageType::RelationshipRequest => "Relationship Request"@,
            MessageType::RelationshipRequestRejected => "Relationship Request Rejected"@,
            MessageType::RelationshipRequestAccepted => "Relationship Request Accepted"@,
            MessageType::RelationshipRequestFinalize => "Relationship Request Finalize"@,
            MessageType::TrustPing => "Trust Ping (Send)"@,
            MessageType::TrustPong => "Trust Pong (Receive)"@,
            MessageType::VRCRequest => "VRC Request"@,
            MessageType::VRCRequestRejected => "VRC Request Rejected"@,
            MessageType::VRCIssued => "VRC Issued"@,
            MessageType::MaintainersListRequest => "List Known Maintainers (request)"@,
            MessageType::MaintainersListResponse => "List Known Maintainers (response)"@,
        }
    }

    /// The URL that names the type on the wire.
    pub open spec fn url(self) -> Seq<char> {
        match self {
            MessageType::RelationshipRequest => RELATIONSHIP_REQUEST@,
            MessageType::RelationshipRequestRejected => RELATIONSHIP_REQUEST_REJECT@,
            MessageType::RelationshipRequestAccepted => RELATIONSHIP_REQUEST_ACCEPT@,
            MessageType::RelationshipRequestFinalize => RELATIONSHIP_REQUEST_FINALIZE@,
            MessageType::TrustPing => TRUST_PING@,
            MessageType::TrustPong => TRUST_PONG@,
            MessageType::VRCRequest => VRC_REQUEST@,
            MessageType::VRCRequestRejected => VRC_REJECTED@,
            MessageType::VRCIssued => VRC_ISSUED@,
            MessageType::MaintainersListRequest => MAINTAINERS_LIST_REQUEST@,
            MessageType::MaintainersListResponse => MAINTAINERS_LIST_RESPONSE@,
        }
    }

    /// The name a person reads.
    pub fn friendly_name(&self) -> (text: String)
        ensures
            text@ == self.name(),
    {
        let name = match self {
            MessageType::RelationshipRequest => "Relationship Request",
            MessageType::RelationshipRequestRejected => "Relationship Request Rejected",
            MessageType::RelationshipRequestAccepted => "Relationship Request Accepted",
            MessageType::RelationshipRequestFinalize => "Relationship Request Finalize",
            MessageType::TrustPing => "Trust Ping (Send)",
            MessageType::TrustPong => "Trust Pong (Receive)",
            MessageType::VRCRequest => "VRC Request",
            MessageType::VRCRequestRejected => "VRC Request Rejected",
            MessageType::VRCIssued => "VRC Issued",
            MessageType::MaintainersListRequest => "List Known Maintainers (request)",
            MessageType::MaintainersListResponse => "List Known Maintainers (response)",
        };
        name.to_owned()
    }
}

impl vstd::std_specs::convert::FromSpecImpl<MessageType> for String {
    open spec fn obeys_from_spec() -> bool {
        false
    }

    open spec fn from_spec(v: MessageType) -> String {
        arbitrary()
    }
}

impl From<MessageType> for String {
    /// The URL that names the type on the wire.
    fn from(value: MessageType) -> (url: String)
        ensures
            url@ == value.url(),
    {
        let url = match value {
            MessageType::RelationshipRequest => RELATIONSHIP_REQUEST,
            MessageType::RelationshipRequestRejected => RELATIONSHIP_REQUEST_REJECT,
            MessageType::RelationshipRequestAccepted => RELATIONSHIP_REQUEST_ACCEPT,
            MessageType::RelationshipRequestFinalize => RELATIONSHIP_REQUEST_FINALIZE,
            MessageType::TrustPing => TRUST_PING,
            MessageType::TrustPong => TRUST_PONG,
            MessageType::VRCRequest => VRC_REQUEST,
            MessageType::VRCRequestRejected => VRC_REJECTED,
            MessageType::VRCIssued => VRC_ISSUED,
            MessageType::MaintainersListRequest => MAINTAINERS_LIST_REQUEST,
            MessageType::MaintainersListResponse => MAINTAINERS_LIST_RESPONSE,
        };
        url.to_owned()
    }
}

/// Whether this is what a URL is read as: the type it names, or an error that
/// gives the URL back.
pub open spec fn reads_url(url: Seq<char>, read: Result<MessageType, OpenVTCError>) -> bool {
    match read {
        Ok(kind) => kind.url() == url,
        Err(error) => {
            &&& error matches OpenVTCError::InvalidMessage(claimed)
            &&& claimed@ == url
            &&& forall|kind: MessageType| #[trigger] kind.url() != url
        },
    }
}

impl vstd::std_specs::convert::TryFromSpecImpl<&str> for MessageType {
    open spec fn obeys_try_from_spec() -> bool {
        false
    }

    open spec fn try_from_spec(v: &str) -> Result<Self, OpenVTCError> {
        arbitrary()
    }
}

impl TryFrom<&str> for MessageType {
    type Error = OpenVTCError;

    /// The type that a URL names.
    fn try_from(value: &str) -> (read: Result<Self, OpenVTCError>)
        ensures
            reads_url(value@, read),
    {
        if same_text(value, RELATIONSHIP_REQUEST) {
            Ok(MessageType::RelationshipRequest)
        } else if same_text(value, RELATIONSHIP_REQUEST_REJECT) {
            Ok(MessageType::RelationshipRequestRejected)
        } else if same_text(value, RELATIONSHIP_REQUEST_ACCEPT) {
            Ok(MessageType::RelationshipRequestAccepted)
        } else if same_text(value, RELATIONSHIP_REQUEST_FINALIZE) {
            Ok(MessageType::RelationshipRequestFinalize)
        } else if same_text(value, TRUST_PING) {
            Ok(MessageType::TrustPing)
        } else if same_text(value, TRUST_PONG) {
            Ok(MessageType::TrustPong)
        } else if same_text(value, VRC_REQUEST) {
            Ok(MessageType::VRCRequest)
        } else if same_text(value, VRC_REJECTED) {
            Ok(MessageType::VRCRequestRejected)
        } else if same_text(value, VRC_ISSUED) {
            Ok(MessageType::VRCIssued)
        } else if same_text(value, MAINTAINERS_LIST_REQUEST) {
            Ok(MessageType::MaintainersListRequest)
        } else if same_text(value, MAINTAINERS_LIST_RESPONSE) {
            Ok(MessageType::MaintainersListResponse)
        } else {
            Err(OpenVTCError::InvalidMessage(value.to_owned()))
        }
    }
}

impl vstd::std_specs::convert::TryFromSpecImpl<&Message> for MessageType {
    open spec fn obeys_try_from_spec() -> bool {
        false
    }

    open spec fn try_from_spec(v: &Message) -> Result<Self, OpenVTCError> {
        arbitrary()
    }
}

impl TryFrom<&Message> for MessageType {
    type Error = OpenVTCError;

    /// The type of a message.
    fn try_from(value: &Message) -> (read: Result<Self, OpenVTCError>)
        ensures
            reads_url(value.typ@, read),
    {
        MessageType::try_from(value.typ.as_str())
    }
}

/// Two types are never named by the same URL.
pub proof fn urls_are_distinct(a: MessageType, b: MessageType)
    ensures
        a.url() == b.url() ==> a == b,
{
    reveal_strlit("https://linuxfoundation.org/openvtc/1.0/relationship-request");
    reveal_strlit("https://linuxfoundation.org/openvtc/1.0/relationship-request-reject");
    reveal_strlit("https://linuxfoundation.org/openvtc/1.0/relationship-request-accept");
    reveal_strlit("https://linuxfoundation.org/openvtc/1.0/relationship-request-finalize");
    reveal_strlit("https://didcomm.org/trust-ping/2.0/ping");
    reveal_strlit("https://didcomm.org/trust-ping/2.0/ping-response");
    reveal_strlit("https://firstperson.network/vrc/1.0/request");
    reveal_strlit("https://firstperson.network/vrc/1.0/rejected");
    reveal_strlit("https://firstperson.network/vrc/1.0/issued");
    reveal_strlit("https://kernel.org/maintainers/1.0/list");
    reveal_strlit("https://kernel.org/maintainers/1.0/list/response");
    assert(RELATIONSHIP_REQUEST@.len() == 60);
    assert(RELATIONSHIP_REQUEST_REJECT@.len() == 67);
    assert(RELATIONSHIP_REQUEST_ACCEPT@.len() == 67);
    assert(RELATIONSHIP_REQUEST_FINALIZE@.len() == 69);
    assert(TRUST_PING@.len() == 39);
    assert(TRUST_PONG@.len() == 48);
    assert(VRC_REQUEST@.len() == 43);
    assert(VRC_REJECTED@.len() == 44);
    assert(VRC_ISSUED@.len() == 42);
    assert(MAINTAINERS_LIST_REQUEST@.len() == 39);
    assert(MAINTAINERS_LIST_RESPONSE@.len() == 48);
    assert(RELATIONSHIP_REQUEST_REJECT@[61] == 'r');
    assert(RELATIONSHIP_REQUEST_ACCEPT@[61] == 'a');
    assert(TRUST_PING@[8] == 'd');
    assert(TRUST_PONG@[8] == 'd');
    assert(MAINTAINERS_LIST_REQUEST@[8] == 'k');
    assert(MAINTAINERS_LIST_RESPONSE@[8] == 'k');
}

/// Reading a type's own URL gives the type back.
pub proof fn urls_are_read_back(kind: MessageType, read: Result<MessageType, OpenVTCError>)
    requires
        reads_url(kind.url(), read),
    ensures
        read == Ok::<MessageType, OpenVTCError>(kind),
{
    match read {
        Ok(found) => {
            urls_are_distinct(found, kind);
        },
        Err(_) => {
            assert(kind.url() == kind.url());
        },
    }
}

/// Whether this is the answer to a ping: who sends it, who gets it, and which
/// ping it answers. It says nothing beyond that.
pub open spec fn is_pong(
    msg: Message,
    id: Seq<char>,
    from: Seq<char>,
    to: Seq<char>,
    ping_id: Seq<char>,
    now: u64,
) -> bool {
    &&& msg.id@ == id
    &&& msg.typ@ == TRUST_PONG@
    &&& optional(msg.from) == Some(from)
    &&& msg.to matches Some(recipients) && crate::text::texts(recipients@) == seq![to]
    &&& optional(msg.thid) == Some(ping_id)
    &&& msg.created_time == Some(now)
    &&& msg.body is None
}

/// The answer to a ping, under a given identifier and time.
pub fn trust_pong(id: String, from: &str, to: &str, ping_id: &str, now: u64) -> (pong: Message)
    ensures
        is_pong(pong, id@, from@, to@, ping_id@, now),
{
    let mut recipients: Vec<String> = Vec::new();
    recipients.push(to.to_owned());
    proof {
        assert(crate::text::texts(recipients@) =~= seq![to@]);
    }
    Message {
        id,
        typ: TRUST_PONG.to_owned(),
        from: Some(from.to_owned()),
        to: Some(recipients),
        thid: Some(ping_id.to_owned()),
        created_time: Some(now),
        body: None,
    }
}

/// The clock stands before the Unix epoch.
#[derive(Debug)]
pub struct ClockError {
    /// What reading the clock failed with.
    pub source: SystemTimeError,
}

/// Whether `pong` is what answering a ping comes to when the clock reads
/// `seconds` since the Unix epoch: the answer, or the error of reading the clock
/// where it stands before the epoch.
pub open spec fn pong_for(
    pong: Result<Message, ClockError>,
    id: Seq<char>,
    from: Seq<char>,
    to: Seq<char>,
    ping_id: Seq<char>,
    seconds: Result<u64, SystemTimeError>,
) -> bool {
    match seconds {
        Ok(now) => pong matches Ok(msg) && is_pong(msg, id, from, to, ping_id, now),
        Err(source) => pong matches Err(error) && error.source == source,
    }
}

/// The answer to a ping, under a given identifier and reading of the clock.
///
/// Fails where reading the clock did, and only there, and hands that error on.
pub fn pong_at(
    id: String,
    from: &str,
    to: &str,
    ping_id: &str,
    seconds: Result<u64, SystemTimeError>,
) -> (pong: Result<Message, ClockError>)
    ensures
        pong_for(pong, id@, from@, to@, ping_id@, seconds),
{
    match seconds {
        Ok(now) => Ok(trust_pong(id, from, to, ping_id, now)),
        Err(source) => Err(ClockError { source }),
    }
}

/// The answer to a ping, as of now, under an identifier of its own. See
/// [`pong_at`] for what each reading of the clock leads to.
pub fn build_trust_pong(from: &str, to: &str, ping_id: &str) -> (pong: Result<Message, ClockError>)
    ensures
        exists|id: Seq<char>, seconds: Result<u64, SystemTimeError>|
            pong_for(pong, id, from@, to@, ping_id@, seconds),
{
    let seconds = seconds_since_epoch();
    let ghost read = seconds;
    let id = random_id();
    let ghost drawn = id@;
    let pong = pong_at(id, from, to, ping_id, seconds);
    proof {
        assert(pong_for(pong, drawn, from@, to@, ping_id@, read));
    }
    pong
}

/// The sender of a message is the one it names, and a message that names none has
/// none.
pub proof fn a_message_comes_from_whom_it_says(
    msg: &Message,
    sender: Result<String, OpenVTCError>,
)
    requires
        call_ensures(require_from, (msg,), sender),
    ensures
        sender is Ok <==> msg.from is Some,
        sender matches Ok(who) ==> (msg.from matches Some(named) && who@ == named@),
        sender matches Err(error) ==> error is Config,
{
}

/// An answer to a ping goes from who was pinged to who pinged, in the thread of
/// that ping, as of the time that was read and under the identifier that was
/// given, and says nothing more. There is one exactly where the clock could be
/// read.
pub proof fn a_pong_answers_its_ping(
    id: String,
    from: &str,
    to: &str,
    ping_id: &str,
    seconds: Result<u64, SystemTimeError>,
    pong: Result<Message, ClockError>,
)
    requires
        call_ensures(pong_at, (id, from, to, ping_id, seconds), pong),
    ensures
        pong is Ok <==> seconds is Ok,
        seconds matches Err(source) ==> (pong matches Err(error) && error.source == source),
        pong matches Ok(msg) ==> {
            &&& msg.id@ == id@
            &&& msg.typ@ == "https://didcomm.org/trust-ping/2.0/ping-response"@
            &&& msg.from matches Some(sender) && sender@ == from@
            &&& msg.to matches Some(recipients) && recipients@.len() == 1 && recipients@[0]@ == to@
            &&& msg.thid matches Some(thread) && thread@ == ping_id@
            &&& seconds matches Ok(now) ==> msg.created_time == Some(now)
            &&& msg.body is None
        },
{
    if let Ok(msg) = pong {
        let recipients = msg.to->0;
        assert(crate::text::texts(recipients@).len() == recipients@.len());
        assert(crate::text::texts(recipients@)[0] == recipients@[0]@);
    }
}

/// An answer that is built as of now goes the same way: from who was pinged to who
/// pinged, in the thread of that ping.
pub proof fn a_pong_built_now_answers_its_ping(
    from: &str,
    to: &str,
    ping_id: &str,
    pong: Result<Message, ClockError>,
)
    requires
        call_ensures(build_trust_pong, (from, to, ping_id), pong),
    ensures
        pong matches Ok(msg) ==> {
            &&& msg.typ@ == "https://didcomm.org/trust-ping/2.0/ping-response"@
            &&& msg.from matches Some(sender) && sender@ == from@
            &&& msg.to matches Some(recipients) && recipients@.len() == 1 && recipients@[0]@ == to@
            &&& msg.thid matches Some(thread) && thread@ == ping_id@
            &&& msg.created_time is Some
            &&& msg.body is None
        },
{
    if let Ok(msg) = pong {
        let recipients = msg.to->0;
        assert(crate::text::texts(recipients@).len() == recipients@.len());
        assert(crate::text::texts(recipients@)[0] == recipients@[0]@);
    }
}

} // verus!
