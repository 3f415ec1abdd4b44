use senec_display::layout::battery_text;
use senec_display::layout::centered_x;
use senec_display::layout::flow_direction;
use senec_display::layout::grid_text;
use senec_display::layout::Flow;
use senec_display::text::append_decimal;
use senec_display::text::starts_with_minus;
use senec_display::text::text_equals;

#[test]
fn centering_offsets_follow_length() {
    assert_eq!(centered_x(65, 1), 74);
    assert_eq!(centered_x(65, 3), 65);
    assert_eq!(centered_x(65, 4), 61);
    assert_eq!(centered_x(65, 7), 61);
    assert_eq!(centered_x(65, 1) - centered_x(65, 3), 9);
    assert_eq!(centered_x(65, 3) - centered_x(65, 4), 4);
}

#[test]
fn flow_is_read_from_the_sign() {
    assert_eq!(flow_direction("0.00"), Flow::Idle);
    assert_eq!(flow_direction("-0.00"), Flow::Idle);
    assert_eq!(flow_direction("1.25"), Flow::Forward);
    assert_eq!(flow_direction("-1.25"), Flow::Backward);
    assert_eq!(flow_direction(""), Flow::Forward);
}

#[test]
fn battery_label_carries_direction() {
    assert_eq!(battery_text("0.50", "80"), "+80");
    assert_eq!(battery_text("-0.50", "80"), "-80");
    assert_eq!(battery_text("0.00", "80"), "80");
    assert_eq!(battery_text("-0.00", "80"), "80");
}

#[test]
fn grid_label_gets_plus_unless_negative() {
    assert_eq!(grid_text("1.00"), "+1.00");
    assert_eq!(grid_text("-1.00"), "-1.00");
}

#[test]
fn text_helpers() {
    assert!(starts_with_minus("-3"));
    assert!(!starts_with_minus("3"));
    assert!(!starts_with_minus(""));
    assert!(text_equals("0.00", "0.00"));
    assert!(!text_equals("0.00", "0.0"));
    let mut s = String::from("n=");
    append_decimal(&mut s, 0);
    assert_eq!(s, "n=0");
    let mut t = String::new();
    append_decimal(&mut t, 4096);
    assert_eq!(t, "4096");
}
