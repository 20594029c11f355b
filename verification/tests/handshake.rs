use nanochat::twitch::handshake::{decode_handshake, Handshake, HandshakeState, CAP};
use nanochat::twitch::message::{Command, Message};
use nanochat::twitch::{ChatConfig, ConnectionError};

fn msg(command: Command, params: Option<&str>) -> Message {
    Message { command, params: params.map(|p| p.to_owned()) }
}

#[test]
fn begin_renders_the_batched_commands() {
    let config = ChatConfig::new("somenick", "secret");
    let (h, batch) = Handshake::begin(&config);
    assert!(matches!(h.state, HandshakeState::AwaitingAck));
    assert_eq!(
        batch,
        "CAP REQ :twitch.tv/commands twitch.tv/tags\r\nNICK somenick\r\nPASS secret\r\n"
    );
}

#[test]
fn batch_round_trips_through_the_decoder() {
    let config = ChatConfig::new("somenick", "secret");
    let (_, batch) = Handshake::begin(&config);
    let (cap, nick, pass) = decode_handshake(&batch).unwrap();
    assert_eq!(cap, CAP);
    assert_eq!(cap, "twitch.tv/commands twitch.tv/tags");
    assert_eq!(nick, "somenick");
    assert_eq!(pass, "secret");
}

#[test]
fn decoder_rejects_other_text() {
    assert!(decode_handshake("").is_none());
    assert!(decode_handshake("hello").is_none());
    assert!(decode_handshake("CAP REQ :x\r\n").is_none());
    assert!(decode_handshake("CAP REQ :x\r\nNICK n\r\nPASS p\r\nextra").is_none());
    assert!(decode_handshake("NICK n\r\nCAP REQ :x\r\nPASS p\r\n").is_none());
}

#[test]
fn ack_advances_to_awaiting_welcome() {
    let mut h = Handshake { state: HandshakeState::AwaitingAck };
    let r = h.on_message(msg(
        Command::Capability,
        Some("* ACK :twitch.tv/commands twitch.tv/tags"),
    ));
    assert!(r.is_ok());
    assert!(matches!(h.state, HandshakeState::AwaitingWelcome));
}

#[test]
fn ack_with_wrong_marker_is_invalid_auth() {
    let mut h = Handshake { state: HandshakeState::AwaitingAck };
    let r = h.on_message(msg(Command::Capability, Some("* NAK :twitch.tv/commands")));
    assert!(matches!(r, Err(ConnectionError::InvalidAuth)));
    assert!(matches!(h.state, HandshakeState::AwaitingAck));
}

#[test]
fn ack_without_params_is_invalid_auth() {
    let mut h = Handshake { state: HandshakeState::AwaitingAck };
    let r = h.on_message(msg(Command::Capability, None));
    assert!(matches!(r, Err(ConnectionError::InvalidAuth)));
}

#[test]
fn non_capability_first_reply_is_invalid_first_message() {
    let mut h = Handshake { state: HandshakeState::AwaitingAck };
    let r = h.on_message(msg(Command::Welcome, Some(":Welcome, GLHF!")));
    match r {
        Err(ConnectionError::InvalidFirstMessage(m)) => {
            assert!(matches!(m.command, Command::Welcome));
        }
        other => panic!("expected InvalidFirstMessage, got {:?}", other),
    }
}

#[test]
fn notice_before_ack_is_invalid_first_message() {
    // While the acknowledgment is awaited, any non-capability reply is an
    // unrecognized first message, an authentication-failure notice
    // included; notices are inspected only once the welcome is awaited.
    let mut h = Handshake { state: HandshakeState::AwaitingAck };
    let r = h.on_message(msg(Command::Notice, Some("* :Login authentication failed")));
    assert!(matches!(r, Err(ConnectionError::InvalidFirstMessage(_))));
}

#[test]
fn welcome_reaches_connected() {
    let mut h = Handshake { state: HandshakeState::AwaitingWelcome };
    let r = h.on_message(msg(Command::Welcome, Some("somenick :Welcome, GLHF!")));
    assert!(r.is_ok());
    assert!(matches!(h.state, HandshakeState::Connected));
}

#[test]
fn auth_failure_notice_is_invalid_auth() {
    let mut h = Handshake { state: HandshakeState::AwaitingWelcome };
    let r = h.on_message(msg(Command::Notice, Some("* :Login authentication failed")));
    assert!(matches!(r, Err(ConnectionError::InvalidAuth)));
}

#[test]
fn other_notice_is_surfaced_verbatim() {
    let mut h = Handshake { state: HandshakeState::AwaitingWelcome };
    let r = h.on_message(msg(Command::Notice, Some("* :Improperly formatted auth")));
    match r {
        Err(ConnectionError::Notice(m)) => {
            assert_eq!(m.params.as_deref(), Some("* :Improperly formatted auth"));
        }
        other => panic!("expected Notice, got {:?}", other),
    }
}

#[test]
fn unrecognized_welcome_reply_is_invalid_first_message() {
    let mut h = Handshake { state: HandshakeState::AwaitingWelcome };
    let r = h.on_message(msg(Command::Other, Some(":tmi.twitch.tv")));
    assert!(matches!(r, Err(ConnectionError::InvalidFirstMessage(_))));
}
