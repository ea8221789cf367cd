use indicator_light::message::color_message;
use indicator_light::message::get_blue_message;
use indicator_light::message::get_color_message;
use indicator_light::message::get_first_message;
use indicator_light::message::get_green_message;
use indicator_light::message::get_red_message;
use indicator_light::message::get_yellow_message;
use indicator_light::message::Color;

#[test]
fn wake_message_is_fixed() {
    assert_eq!(get_first_message(), [0x80, 0, 0, 0, 0, 0, 0, 0]);
}

#[test]
fn wake_message_same_for_every_color() {
    // The wake message does not depend on the color being selected:
    // building any color message leaves it untouched.
    let _ = get_red_message();
    assert_eq!(get_first_message(), [0x80, 0, 0, 0, 0, 0, 0, 0]);
    let _ = get_blue_message();
    assert_eq!(get_first_message(), [0x80, 0, 0, 0, 0, 0, 0, 0]);
}

#[test]
fn color_message_prefix() {
    assert_eq!(get_color_message(), [0x01, 0xff, 0, 0, 0, 0, 0, 0]);
}

#[test]
fn red_message_encoding() {
    assert_eq!(get_red_message(), [0x01, 0xff, 0x80, 0, 0, 0, 0, 0]);
}

#[test]
fn green_message_encoding() {
    assert_eq!(get_green_message(), [0x01, 0xff, 0, 0x80, 0, 0, 0, 0]);
}

#[test]
fn yellow_message_encoding() {
    assert_eq!(get_yellow_message(), [0x01, 0xff, 0x80, 0x80, 0, 0, 0, 0]);
}

#[test]
fn yellow_lights_red_and_green_only() {
    let m = get_yellow_message();
    assert_eq!(m.len(), 8);
    assert_eq!(m[2], 0x80);
    assert_eq!(m[3], 0x80);
    assert_eq!(m[4], 0);
    assert_eq!(m[5], 0);
    assert_eq!(m[6], 0);
    assert_eq!(m[7], 0);
}

#[test]
fn blue_message_encoding() {
    assert_eq!(get_blue_message(), [0x01, 0xff, 0, 0, 0x80, 0, 0, 0]);
}

#[test]
fn dispatch_matches_each_builder() {
    assert_eq!(color_message(Color::Red), get_red_message());
    assert_eq!(color_message(Color::Green), get_green_message());
    assert_eq!(color_message(Color::Yellow), get_yellow_message());
    assert_eq!(color_message(Color::Blue), get_blue_message());
}
