//! Typed wire messages.
//!
//! Every frame on the wire carries a 16-bit tag naming one of the protocol's
//! message kinds. The payload schema behind each tag belongs to an external
//! message-schema collaborator; this core treats payloads as opaque bytes and
//! pins down only the tag numbering and the pairing of tag and payload.

use vstd::prelude::*;

verus! {

/// The protocol's message kinds, in tag order starting at zero.
#[derive(Clone, Copy, PartialEq, Eq, Structural, Debug)]
pub enum MumbleType {
    Version,
    UDPTunnel,
    Authenticate,
    Ping,
    Reject,
    ServerSync,
    ChannelRemove,
    ChannelState,
    UserRemove,
    UserState,
    BanList,
    TextMessage,
    PermissionDenied,
    Acl,
    QueryUsers,
    CryptSetup,
    ContextActionModify,
    ContextAction,
    UserList,
    VoiceTarget,
    PermissionQuery,
    CodecVersion,
    UserStats,
    RequestBlob,
    ServerConfig,
    SuggestConfig,
}

/// The 16-bit wire tag of each message kind.
pub open spec fn type_tag(t: MumbleType) -> u16 {
    match t {
        MumbleType::Version => 0,
        MumbleType::UDPTunnel => 1,
        MumbleType::Authenticate => 2,
        MumbleType::Ping => 3,
        MumbleType::Reject => 4,
        MumbleType::ServerSync => 5,
        MumbleType::ChannelRemove => 6,
        MumbleType::ChannelState => 7,
        MumbleType::UserRemove => 8,
        MumbleType::UserState => 9,
        MumbleType::BanList => 10,
        MumbleType::TextMessage => 11,
        MumbleType::PermissionDenied => 12,
        MumbleType::Acl => 13,
        MumbleType::QueryUsers => 14,
        MumbleType::CryptSetup => 15,
        MumbleType::ContextActionModify => 16,
        MumbleType::ContextAction => 17,
        MumbleType::UserList => 18,
        MumbleType::VoiceTarget => 19,
        MumbleType::PermissionQuery => 20,
        MumbleType::CodecVersion => 21,
        MumbleType::UserStats => 22,
        MumbleType::RequestBlob => 23,
        MumbleType::ServerConfig => 24,
        MumbleType::SuggestConfig => 25,
    }
}

/// The message kind a 16-bit wire tag names, if any.
pub open spec fn type_of_tag(tag: u16) -> Option<MumbleType> {
    if tag == 0 {
        Some(MumbleType::Version)
    } else if tag == 1 {
        Some(MumbleType::UDPTunnel)
    } else if tag == 2 {
        Some(MumbleType::Authenticate)
    } else if tag == 3 {
        Some(MumbleType::Ping)
    } else if tag == 4 {
        Some(MumbleType::Reject)
    } else if tag == 5 {
        Some(MumbleType::ServerSync)
    } else if tag == 6 {
        Some(MumbleType::ChannelRemove)
    } else if tag == 7 {
        Some(MumbleType::ChannelState)
    } else if tag == 8 {
        Some(MumbleType::UserRemove)
    } else if tag == 9 {
        Some(MumbleType::UserState)
    } else if tag == 10 {
        Some(MumbleType::BanList)
    } else if tag == 11 {
        Some(MumbleType::TextMessage)
    } else if tag == 12 {
        Some(MumbleType::PermissionDenied)
    } else if tag == 13 {
        Some(MumbleType::Acl)
    } else if tag == 14 {
        Some(MumbleType::QueryUsers)
    } else if tag == 15 {
        Some(MumbleType::CryptSetup)
    } else if tag == 16 {
        Some(MumbleType::ContextActionModify)
    } else if tag == 17 {
        Some(MumbleType::ContextAction)
    } else if tag == 18 {
        Some(MumbleType::UserList)
    } else if tag == 19 {
        Some(MumbleType::VoiceTarget)
    } else if tag == 20 {
        Some(MumbleType::PermissionQuery)
    } else if tag == 21 {
        Some(MumbleType::CodecVersion)
    } else if tag == 22 {
        Some(MumbleType::UserStats)
    } else if tag == 23 {
        Some(MumbleType::RequestBlob)
    } else if tag == 24 {
        Some(MumbleType::ServerConfig)
    } else if tag == 25 {
        Some(MumbleType::SuggestConfig)
    } else {
        None
    }
}

impl MumbleType {
    /// The 16-bit tag this kind is framed with.
    pub fn tag_value(self) -> (r: u16)
        ensures
            r == type_tag(self),
    {
        match self {
            MumbleType::Version => 0,
            MumbleType::UDPTunnel => 1,
            MumbleType::Authenticate => 2,
            MumbleType::Ping => 3,
            MumbleType::Reject => 4,
            MumbleType::ServerSync => 5,
            MumbleType::ChannelRemove => 6,
            MumbleType::ChannelState => 7,
            MumbleType::UserRemove => 8,
            MumbleType::UserState => 9,
            MumbleType::BanList => 10,
            MumbleType::TextMessage => 11,
            MumbleType::PermissionDenied => 12,
            MumbleType::Acl => 13,
            MumbleType::QueryUsers => 14,
            MumbleType::CryptSetup => 15,
            MumbleType::ContextActionModify => 16,
            MumbleType::ContextAction => 17,
            MumbleType::UserList => 18,
            MumbleType::VoiceTarget => 19,
            MumbleType::PermissionQuery => 20,
            MumbleType::CodecVersion => 21,
            MumbleType::UserStats => 22,
            MumbleType::RequestBlob => 23,
            MumbleType::ServerConfig => 24,
            MumbleType::SuggestConfig => 25,
        }
    }

    /// The kind a raw wire tag names, or `None` for a tag outside the table.
    pub fn from_tag_value(tag: u16) -> (r: Option<MumbleType>)
        ensures
            r == type_of_tag(tag),
    {
        match tag {
            0 => Some(MumbleType::Version),
            1 => Some(MumbleType::UDPTunnel),
            2 => Some(MumbleType::Authenticate),
            3 => Some(MumbleType::Ping),
            4 => Some(MumbleType::Reject),
            5 => Some(MumbleType::ServerSync),
            6 => Some(MumbleType::ChannelRemove),
            7 => Some(MumbleType::ChannelState),
            8 => Some(MumbleType::UserRemove),
            9 => Some(MumbleType::UserState),
            10 => Some(MumbleType::BanList),
            11 => Some(MumbleType::TextMessage),
            12 => Some(MumbleType::PermissionDenied),
            13 => Some(MumbleType::Acl),
            14 => Some(MumbleType::QueryUsers),
            15 => Some(MumbleType::CryptSetup),
            16 => Some(MumbleType::ContextActionModify),
            17 => Some(MumbleType::ContextAction),
            18 => Some(MumbleType::UserList),
            19 => Some(MumbleType::VoiceTarget),
            20 => Some(MumbleType::PermissionQuery),
            21 => Some(MumbleType::CodecVersion),
            22 => Some(MumbleType::UserStats),
            23 => Some(MumbleType::RequestBlob),
            24 => Some(MumbleType::ServerConfig),
            25 => Some(MumbleType::SuggestConfig),
            _ => None,
        }
    }
}

/// Tag numbering is a bijection between the kinds and the tags zero to
/// twenty-five: reading back a written tag gives the kind it was written for.
pub proof fn lemma_tag_round_trip(t: MumbleType)
    ensures
        type_of_tag(type_tag(t)) == Some(t),
        type_tag(t) <= 25,
{
}

/// One wire message: a kind together with its schema-encoded payload bytes.
/// The `UDPTunnel` kind carries a voice packet body instead of a
/// schema-encoded payload and is framed specially by the writer.
#[derive(Debug, Clone)]
pub enum MumbleMsg {
    Version(Vec<u8>),
    UDPTunnel(Vec<u8>),
    Authenticate(Vec<u8>),
    Ping(Vec<u8>),
    Reject(Vec<u8>),
    ServerSync(Vec<u8>),
    ChannelRemove(Vec<u8>),
    ChannelState(Vec<u8>),
    UserRemove(Vec<u8>),
    UserState(Vec<u8>),
    BanList(Vec<u8>),
    TextMessage(Vec<u8>),
    PermissionDenied(Vec<u8>),
    Acl(Vec<u8>),
    QueryUsers(Vec<u8>),
    CryptSetup(Vec<u8>),
    ContextActionModify(Vec<u8>),
    ContextAction(Vec<u8>),
    UserList(Vec<u8>),
    VoiceTarget(Vec<u8>),
    PermissionQuery(Vec<u8>),
    CodecVersion(Vec<u8>),
    UserStats(Vec<u8>),
    RequestBlob(Vec<u8>),
    ServerConfig(Vec<u8>),
    SuggestConfig(Vec<u8>),
}

/// The kind of a message.
pub open spec fn msg_tag(m: MumbleMsg) -> MumbleType {
    match m {
        MumbleMsg::Version(_) => MumbleType::Version,
        MumbleMsg::UDPTunnel(_) => MumbleType::UDPTunnel,
        MumbleMsg::Authenticate(_) => MumbleType::Authenticate,
        MumbleMsg::Ping(_) => MumbleType::Ping,
        MumbleMsg::Reject(_) => MumbleType::Reject,
        MumbleMsg::ServerSync(_) => MumbleType::ServerSync,
        MumbleMsg::ChannelRemove(_) => MumbleType::ChannelRemove,
        MumbleMsg::ChannelState(_) => MumbleType::ChannelState,
        MumbleMsg::UserRemove(_) => MumbleType::UserRemove,
        MumbleMsg::UserState(_) => MumbleType::UserState,
        MumbleMsg::BanList(_) => MumbleType::BanList,
        MumbleMsg::TextMessage(_) => MumbleType::TextMessage,
        MumbleMsg::PermissionDenied(_) => MumbleType::PermissionDenied,
        MumbleMsg::Acl(_) => MumbleType::Acl,
        MumbleMsg::QueryUsers(_) => MumbleType::QueryUsers,
        MumbleMsg::CryptSetup(_) => MumbleType::CryptSetup,
        MumbleMsg::ContextActionModify(_) => MumbleType::ContextActionModify,
        MumbleMsg::ContextAction(_) => MumbleType::ContextAction,
        MumbleMsg::UserList(_) => MumbleType::UserList,
        MumbleMsg::VoiceTarget(_) => MumbleType::VoiceTarget,
        MumbleMsg::PermissionQuery(_) => MumbleType::PermissionQuery,
        MumbleMsg::CodecVersion(_) => MumbleType::CodecVersion,
        MumbleMsg::UserStats(_) => MumbleType::UserStats,
        MumbleMsg::RequestBlob(_) => MumbleType::RequestBlob,
        MumbleMsg::ServerConfig(_) => MumbleType::ServerConfig,
        MumbleMsg::SuggestConfig(_) => MumbleType::SuggestConfig,
    }
}

/// The payload bytes a message carries.
pub open spec fn msg_payload(m: MumbleMsg) -> Seq<u8> {
    match m {
        MumbleMsg::Version(v) => v@,
        MumbleMsg::UDPTunnel(v) => v@,
        MumbleMsg::Authenticate(v) => v@,
        MumbleMsg::Ping(v) => v@,
        MumbleMsg::Reject(v) => v@,
        MumbleMsg::ServerSync(v) => v@,
        MumbleMsg::ChannelRemove(v) => v@,
        MumbleMsg::ChannelState(v) => v@,
        MumbleMsg::UserRemove(v) => v@,
        MumbleMsg::UserState(v) => v@,
        MumbleMsg::BanList(v) => v@,
        MumbleMsg::TextMessage(v) => v@,
        MumbleMsg::PermissionDenied(v) => v@,
        MumbleMsg::Acl(v) => v@,
        MumbleMsg::QueryUsers(v) => v@,
        MumbleMsg::CryptSetup(v) => v@,
        MumbleMsg::ContextActionModify(v) => v@,
        MumbleMsg::ContextAction(v) => v@,
        MumbleMsg::UserList(v) => v@,
        MumbleMsg::VoiceTarget(v) => v@,
        MumbleMsg::PermissionQuery(v) => v@,
        MumbleMsg::CodecVersion(v) => v@,
        MumbleMsg::UserStats(v) => v@,
        MumbleMsg::RequestBlob(v) => v@,
        MumbleMsg::ServerConfig(v) => v@,
        MumbleMsg::SuggestConfig(v) => v@,
    }
}

/// Copy a byte vector element by element.
fn copy_bytes(src: &Vec<u8>) -> (out: Vec<u8>)
    ensures
        out@ == src@,
{
    let mut out: Vec<u8> = Vec::new();
    let n = src.len();
    for i in 0..n
        invariant
            n == src@.len(),
            out@ == src@.take(i as int),
    {
        out.push(src[i]);
        assert(out@ =~= src@.take(i as int + 1));
    }
    assert(out@ =~= src@);
    out
}

impl MumbleMsg {
    /// The kind this message is framed under.
    pub fn tag(&self) -> (r: MumbleType)
        ensures
            r == msg_tag(*self),
    {
        match self {
            MumbleMsg::Version(_) => MumbleType::Version,
            MumbleMsg::UDPTunnel(_) => MumbleType::UDPTunnel,
            MumbleMsg::Authenticate(_) => MumbleType::Authenticate,
            MumbleMsg::Ping(_) => MumbleType::Ping,
            MumbleMsg::Reject(_) => MumbleType::Reject,
            MumbleMsg::ServerSync(_) => MumbleType::ServerSync,
            MumbleMsg::ChannelRemove(_) => MumbleType::ChannelRemove,
            MumbleMsg::ChannelState(_) => MumbleType::ChannelState,
            MumbleMsg::UserRemove(_) => MumbleType::UserRemove,
            MumbleMsg::UserState(_) => MumbleType::UserState,
            MumbleMsg::BanList(_) => MumbleType::BanList,
            MumbleMsg::TextMessage(_) => MumbleType::TextMessage,
            MumbleMsg::PermissionDenied(_) => MumbleType::PermissionDenied,
            MumbleMsg::Acl(_) => MumbleType::Acl,
            MumbleMsg::QueryUsers(_) => MumbleType::QueryUsers,
            MumbleMsg::CryptSetup(_) => MumbleType::CryptSetup,
            MumbleMsg::ContextActionModify(_) => MumbleType::ContextActionModify,
            MumbleMsg::ContextAction(_) => MumbleType::ContextAction,
            MumbleMsg::UserList(_) => MumbleType::UserList,
            MumbleMsg::VoiceTarget(_) => MumbleType::VoiceTarget,
            MumbleMsg::PermissionQuery(_) => MumbleType::PermissionQuery,
            MumbleMsg::CodecVersion(_) => MumbleType::CodecVersion,
            MumbleMsg::UserStats(_) => MumbleType::UserStats,
            MumbleMsg::RequestBlob(_) => MumbleType::RequestBlob,
            MumbleMsg::ServerConfig(_) => MumbleType::ServerConfig,
            MumbleMsg::SuggestConfig(_) => MumbleType::SuggestConfig,
        }
    }

    /// Borrow the payload bytes.
    pub fn payload(&self) -> (r: &Vec<u8>)
        ensures
            r@ == msg_payload(*self),
    {
        match self {
            MumbleMsg::Version(v) => v,
            MumbleMsg::UDPTunnel(v) => v,
            MumbleMsg::Authenticate(v) => v,
            MumbleMsg::Ping(v) => v,
            MumbleMsg::Reject(v) => v,
            MumbleMsg::ServerSync(v) => v,
            MumbleMsg::ChannelRemove(v) => v,
            MumbleMsg::ChannelState(v) => v,
            MumbleMsg::UserRemove(v) => v,
            MumbleMsg::UserState(v) => v,
            MumbleMsg::BanList(v) => v,
            MumbleMsg::TextMessage(v) => v,
            MumbleMsg::PermissionDenied(v) => v,
            MumbleMsg::Acl(v) => v,
            MumbleMsg::QueryUsers(v) => v,
            MumbleMsg::CryptSetup(v) => v,
            MumbleMsg::ContextActionModify(v) => v,
            MumbleMsg::ContextAction(v) => v,
            MumbleMsg::UserList(v) => v,
            MumbleMsg::VoiceTarget(v) => v,
            MumbleMsg::PermissionQuery(v) => v,
            MumbleMsg::CodecVersion(v) => v,
            MumbleMsg::UserStats(v) => v,
            MumbleMsg::RequestBlob(v) => v,
            MumbleMsg::ServerConfig(v) => v,
            MumbleMsg::SuggestConfig(v) => v,
        }
    }

    /// The schema-encoded payload to frame, as an owned copy. The writer
    /// frames a voice packet's body itself, so a tunnel message has no
    /// schema payload to hand out.
    pub fn as_data(&self) -> (r: Vec<u8>)
        requires
            !(self matches MumbleMsg::UDPTunnel(_)),
        ensures
            r@ == msg_payload(*self),
    {
        copy_bytes(self.payload())
    }

    /// Pair an already-read payload with the kind its frame was tagged with.
    /// Voice-data frames are discarded before this point, never rebuilt into
    /// a message.
    pub fn from_tagged_data(tag: MumbleType, data: Vec<u8>) -> (r: MumbleMsg)
        requires
            tag != MumbleType::UDPTunnel,
        ensures
            msg_tag(r) == tag,
            msg_payload(r) == data@,
    {
        match tag {
            MumbleType::Version => MumbleMsg::Version(data),
            MumbleType::UDPTunnel => MumbleMsg::UDPTunnel(data),
            MumbleType::Authenticate => MumbleMsg::Authenticate(data),
            MumbleType::Ping => MumbleMsg::Ping(data),
            MumbleType::Reject => MumbleMsg::Reject(data),
            MumbleType::ServerSync => MumbleMsg::ServerSync(data),
            MumbleType::ChannelRemove => MumbleMsg::ChannelRemove(data),
            MumbleType::ChannelState => MumbleMsg::ChannelState(data),
            MumbleType::UserRemove => MumbleMsg::UserRemove(data),
            MumbleType::UserState => MumbleMsg::UserState(data),
            MumbleType::BanList => MumbleMsg::BanList(data),
            MumbleType::TextMessage => MumbleMsg::TextMessage(data),
            MumbleType::PermissionDenied => MumbleMsg::PermissionDenied(data),
            MumbleType::Acl => MumbleMsg::Acl(data),
            MumbleType::QueryUsers => MumbleMsg::QueryUsers(data),
            MumbleType::CryptSetup => MumbleMsg::CryptSetup(data),
            MumbleType::ContextActionModify => MumbleMsg::ContextActionModify(data),
            MumbleType::ContextAction => MumbleMsg::ContextAction(data),
            MumbleType::UserList => MumbleMsg::UserList(data),
            MumbleType::VoiceTarget => MumbleMsg::VoiceTarget(data),
            MumbleType::PermissionQuery => MumbleMsg::PermissionQuery(data),
            MumbleType::CodecVersion => MumbleMsg::CodecVersion(data),
            MumbleType::UserStats => MumbleMsg::UserStats(data),
            MumbleType::RequestBlob => MumbleMsg::RequestBlob(data),
            MumbleType::ServerConfig => MumbleMsg::ServerConfig(data),
            MumbleType::SuggestConfig => MumbleMsg::SuggestConfig(data),
        }
    }
}

/// What the reader does with one inbound frame.
#[derive(Debug)]
pub enum InboundDecision {
    /// A voice-data frame: this bot does not ingest incoming audio.
    Discard,
    /// A well-tagged control frame, rebuilt as a typed message.
    Deliver(MumbleMsg),
    /// A tag outside the table: a fatal decode error.
    BadTag,
}

/// Decide what to do with an inbound frame from its raw tag and payload:
/// voice-data frames are dropped, unknown tags are fatal, and every other
/// frame is delivered as the typed message its tag names.
pub fn classify_inbound(raw_tag: u16, data: Vec<u8>) -> (r: InboundDecision)
    ensures
        match type_of_tag(raw_tag) {
            None => r is BadTag,
            Some(t) => if t == MumbleType::UDPTunnel {
                r is Discard
            } else {
                r matches InboundDecision::Deliver(m) && msg_tag(m) == t && msg_payload(m)
                    == data@
            },
        },
{
    match MumbleType::from_tag_value(raw_tag) {
        None => InboundDecision::BadTag,
        Some(t) => {
            if t == MumbleType::UDPTunnel {
                InboundDecision::Discard
            } else {
                InboundDecision::Deliver(MumbleMsg::from_tagged_data(t, data))
            }
        },
    }
}

} // verus!
