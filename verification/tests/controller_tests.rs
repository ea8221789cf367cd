use indicator_light::controller::parse_color;
use indicator_light::controller::plan;
use indicator_light::controller::Action;
use indicator_light::controller::IFACE;
use indicator_light::controller::PID;
use indicator_light::controller::TRANSFER_TIMEOUT_MS;
use indicator_light::controller::USB_IN;
use indicator_light::controller::USB_OUT;
use indicator_light::controller::VID;
use indicator_light::message::Color;

fn args_of(strs: &[&str]) -> Vec<String> {
    strs.iter().map(|s| s.to_string()).collect()
}

#[test]
fn device_constants() {
    assert_eq!(VID, 0x04D8);
    assert_eq!(PID, 0xF372);
    assert_eq!(IFACE, 0);
    assert_eq!(USB_OUT, 0x01);
    assert_eq!(USB_IN, 0x81);
    assert_eq!(TRANSFER_TIMEOUT_MS, 500);
}

#[test]
fn parse_supported_colors() {
    assert_eq!(parse_color(&"red".to_string()), Some(Color::Red));
    assert_eq!(parse_color(&"green".to_string()), Some(Color::Green));
    assert_eq!(parse_color(&"yellow".to_string()), Some(Color::Yellow));
    assert_eq!(parse_color(&"blue".to_string()), Some(Color::Blue));
}

#[test]
fn parse_is_exact_and_case_sensitive() {
    assert_eq!(parse_color(&"Red".to_string()), None);
    assert_eq!(parse_color(&"purple".to_string()), None);
    assert_eq!(parse_color(&"".to_string()), None);
    assert_eq!(parse_color(&"green ".to_string()), None);
}

#[test]
fn no_arguments_prints_usage_only() {
    let actions = plan(&args_of(&[]));
    assert_eq!(actions, vec![Action::PrintUsage]);
}

#[test]
fn program_name_alone_prints_usage_only() {
    let actions = plan(&args_of(&["lights"]));
    assert_eq!(actions, vec![Action::PrintUsage]);
    assert!(!actions.iter().any(|a| matches!(a, Action::OpenDevice)));
}

#[test]
fn unsupported_argument_claims_and_releases_without_transfer() {
    let actions = plan(&args_of(&["lights", "purple"]));
    assert_eq!(
        actions,
        vec![
            Action::OpenDevice,
            Action::ClaimInterface,
            Action::PrintNotSupported("purple".to_string()),
            Action::ReleaseInterface,
        ]
    );
    assert!(!actions.iter().any(|a| matches!(a, Action::WriteMessage(_))));
    assert!(!actions.iter().any(|a| matches!(a, Action::ReadReply)));
}

#[test]
fn unsupported_message_names_the_exact_input() {
    let actions = plan(&args_of(&["lights", "tEAl"]));
    assert_eq!(actions[2], Action::PrintNotSupported("tEAl".to_string()));
}

#[test]
fn green_invocation_full_handshake() {
    let actions = plan(&args_of(&["lights", "green"]));
    assert_eq!(
        actions,
        vec![
            Action::OpenDevice,
            Action::ClaimInterface,
            Action::WriteMessage([0x80, 0, 0, 0, 0, 0, 0, 0]),
            Action::ReadReply,
            Action::WriteMessage([0x01, 0xff, 0, 0x80, 0, 0, 0, 0]),
            Action::ReadReply,
            Action::ReleaseInterface,
        ]
    );
}

#[test]
fn red_invocation_full_handshake() {
    let actions = plan(&args_of(&["lights", "red"]));
    assert_eq!(actions.len(), 7);
    assert_eq!(actions[2], Action::WriteMessage([0x80, 0, 0, 0, 0, 0, 0, 0]));
    assert_eq!(actions[4], Action::WriteMessage([0x01, 0xff, 0x80, 0, 0, 0, 0, 0]));
    assert_eq!(actions[6], Action::ReleaseInterface);
}

#[test]
fn yellow_invocation_full_handshake() {
    let actions = plan(&args_of(&["lights", "yellow"]));
    assert_eq!(actions[4], Action::WriteMessage([0x01, 0xff, 0x80, 0x80, 0, 0, 0, 0]));
}

#[test]
fn blue_invocation_full_handshake() {
    let actions = plan(&args_of(&["lights", "blue"]));
    assert_eq!(actions[4], Action::WriteMessage([0x01, 0xff, 0, 0, 0x80, 0, 0, 0]));
}

#[test]
fn extra_arguments_are_ignored() {
    let with_extra = plan(&args_of(&["lights", "blue", "loud"]));
    let without = plan(&args_of(&["lights", "blue"]));
    assert_eq!(with_extra, without);
}

#[test]
fn same_color_twice_gives_identical_plans() {
    let first = plan(&args_of(&["lights", "red"]));
    let second = plan(&args_of(&["lights", "red"]));
    assert_eq!(first, second);
}
