use nanochat::twitch::message::{parse, Command};

#[test]
fn parse_welcome_with_source() {
    let m = parse(":tmi.twitch.tv 001 somenick :Welcome, GLHF!".to_owned()).unwrap();
    assert!(matches!(m.command, Command::Welcome));
    assert_eq!(m.params.as_deref(), Some("somenick :Welcome, GLHF!"));
}

#[test]
fn parse_cap_ack_with_tags_and_source() {
    let m = parse("@badge-info= :tmi.twitch.tv CAP * ACK :twitch.tv/commands".to_owned()).unwrap();
    assert!(matches!(m.command, Command::Capability));
    assert_eq!(m.params.as_deref(), Some("* ACK :twitch.tv/commands"));
}

#[test]
fn parse_notice() {
    let m = parse(":tmi.twitch.tv NOTICE * :Login authentication failed".to_owned()).unwrap();
    assert!(matches!(m.command, Command::Notice));
    assert_eq!(m.params.as_deref(), Some("* :Login authentication failed"));
}

#[test]
fn parse_unknown_command_is_other() {
    let m = parse("PING :tmi.twitch.tv".to_owned()).unwrap();
    assert!(matches!(m.command, Command::Other));
    assert_eq!(m.params.as_deref(), Some(":tmi.twitch.tv"));
}

#[test]
fn parse_bare_command_has_no_params() {
    let m = parse("001".to_owned()).unwrap();
    assert!(matches!(m.command, Command::Welcome));
    assert_eq!(m.params, None);
}

#[test]
fn parse_empty_line_fails_and_preserves_text() {
    assert_eq!(parse("".to_owned()).unwrap_err(), "");
}

#[test]
fn parse_source_without_command_fails() {
    let raw = ":tmi.twitch.tv".to_owned();
    assert_eq!(parse(raw).unwrap_err(), ":tmi.twitch.tv");
}

#[test]
fn parse_tags_without_command_fails() {
    assert_eq!(parse("@badge-info=".to_owned()).unwrap_err(), "@badge-info=");
    assert_eq!(
        parse("@badge-info= :tmi.twitch.tv".to_owned()).unwrap_err(),
        "@badge-info= :tmi.twitch.tv"
    );
}

#[test]
fn parse_keeps_empty_params_after_trailing_space() {
    let m = parse("001 ".to_owned()).unwrap();
    assert!(matches!(m.command, Command::Welcome));
    assert_eq!(m.params.as_deref(), Some(""));
}

#[test]
fn parse_command_is_case_sensitive_and_exact() {
    assert!(matches!(parse("cap".to_owned()).unwrap().command, Command::Other));
    assert!(matches!(parse("CAPX".to_owned()).unwrap().command, Command::Other));
    assert!(matches!(parse("0011".to_owned()).unwrap().command, Command::Other));
}
