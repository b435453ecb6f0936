use mumblebot::messages::{classify_inbound, InboundDecision, MumbleMsg, MumbleType};

const ALL_TYPES: [MumbleType; 26] = [
    MumbleType::Version,
    MumbleType::UDPTunnel,
    MumbleType::Authenticate,
    MumbleType::Ping,
    MumbleType::Reject,
    MumbleType::ServerSync,
    MumbleType::ChannelRemove,
    MumbleType::ChannelState,
    MumbleType::UserRemove,
    MumbleType::UserState,
    MumbleType::BanList,
    MumbleType::TextMessage,
    MumbleType::PermissionDenied,
    MumbleType::Acl,
    MumbleType::QueryUsers,
    MumbleType::CryptSetup,
    MumbleType::ContextActionModify,
    MumbleType::ContextAction,
    MumbleType::UserList,
    MumbleType::VoiceTarget,
    MumbleType::PermissionQuery,
    MumbleType::CodecVersion,
    MumbleType::UserStats,
    MumbleType::RequestBlob,
    MumbleType::ServerConfig,
    MumbleType::SuggestConfig,
];

#[test]
fn tags_run_from_zero_in_order() {
    for (i, t) in ALL_TYPES.iter().enumerate() {
        assert_eq!(t.tag_value(), i as u16);
    }
    assert_eq!(MumbleType::Version.tag_value(), 0);
    assert_eq!(MumbleType::UDPTunnel.tag_value(), 1);
    assert_eq!(MumbleType::Ping.tag_value(), 3);
    assert_eq!(MumbleType::TextMessage.tag_value(), 11);
}

#[test]
fn tag_values_round_trip() {
    for t in ALL_TYPES.iter() {
        assert_eq!(MumbleType::from_tag_value(t.tag_value()), Some(*t));
    }
    assert_eq!(MumbleType::from_tag_value(26), None);
    assert_eq!(MumbleType::from_tag_value(0xFFFF), None);
}

#[test]
fn messages_keep_their_tag_and_payload() {
    let msg = MumbleMsg::from_tagged_data(MumbleType::TextMessage, vec![1, 2, 3]);
    assert_eq!(msg.tag(), MumbleType::TextMessage);
    assert_eq!(msg.as_data(), vec![1, 2, 3]);

    let msg = MumbleMsg::from_tagged_data(MumbleType::ServerSync, vec![]);
    assert_eq!(msg.tag(), MumbleType::ServerSync);
    assert_eq!(msg.as_data(), Vec::<u8>::new());
}

#[test]
fn inbound_voice_frames_are_discarded() {
    assert!(matches!(
        classify_inbound(1, vec![128, 0, 0]),
        InboundDecision::Discard
    ));
}

#[test]
fn inbound_unknown_tags_are_fatal() {
    assert!(matches!(classify_inbound(26, vec![]), InboundDecision::BadTag));
    assert!(matches!(classify_inbound(999, vec![1]), InboundDecision::BadTag));
}

#[test]
fn inbound_control_frames_are_delivered_typed() {
    match classify_inbound(11, vec![9, 8]) {
        InboundDecision::Deliver(m) => {
            assert_eq!(m.tag(), MumbleType::TextMessage);
            assert_eq!(m.as_data(), vec![9, 8]);
        }
        other => panic!("expected Deliver, got {:?}", other),
    }
}
