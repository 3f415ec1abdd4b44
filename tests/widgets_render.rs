use senec_display::layout::centered_x;
use senec_display::widgets::LEFT_BASE;
use senec_display::widgets::RIGHT_BASE;
use senec_display::widgets::TOP_BASE;
use epd_waveshare::color::Color;
use senec_display::model::HourlyNew;
use senec_display::surface::DisplayBoxed;
use senec_display::widgets::ConnectionDirection;
use senec_display::widgets::RenderError;

fn strings(v: &[&str]) -> Vec<String> {
    v.iter().map(|s| s.to_string()).collect()
}

#[test]
fn battery_percentage_length_is_checked() {
    let mut d = DisplayBoxed::new();
    let before = d.raw_buffer();
    assert_eq!(d.update_battery_percentage("1000"), Err(RenderError::TextTooLong));
    assert_eq!(d.update_battery_percentage(""), Err(RenderError::TextEmpty));
    assert_eq!(d.raw_buffer(), before);
    assert_eq!(d.update_battery_percentage("87"), Ok(()));
    assert_ne!(d.raw_buffer(), before);
}

#[test]
fn sun_times_length_is_checked() {
    let mut d = DisplayBoxed::new();
    assert_eq!(d.update_sun_data("06:15:00", "20:00"), Err(RenderError::TextTooLong));
    assert_eq!(d.update_sun_data("06:15", "20:01"), Ok(()));
}

#[test]
fn total_display_length_is_checked() {
    let mut d = DisplayBoxed::new();
    assert_eq!(d.update_total_display("123456", "1"), Err(RenderError::TextTooLong));
    assert_eq!(d.update_total_display("12.50", "30.25"), Ok(()));
}

#[test]
fn weather_needs_four_slots() {
    let mut d = DisplayBoxed::new();
    let before = d.raw_buffer();
    let short = HourlyNew {
        rain: strings(&["0.0", "0.1", "0.2"]),
        cloud_cover: strings(&["10", "20", "30", "40"]),
        uv_index: strings(&["1.0", "2.0", "3.0", "4.0"]),
        temperature_2_m: strings(&["10.0", "11.0", "12.0", "13.0"]),
        ..Default::default()
    };
    assert_eq!(d.update_weather_data(&short), Err(RenderError::MissingValue));
    assert_eq!(d.raw_buffer(), before);
    let full = HourlyNew { rain: strings(&["0.0", "0.1", "0.2", "1.5"]), ..short };
    assert_eq!(d.update_weather_data(&full), Ok(()));
    assert_ne!(d.raw_buffer(), before);
}

#[test]
fn chart_needs_samples() {
    let mut d = DisplayBoxed::new();
    let before = d.raw_buffer();
    assert_eq!(d.draw_chart(&[]), Err(RenderError::EmptyChart));
    assert_eq!(d.update_chart(&[]), Err(RenderError::EmptyChart));
    assert_eq!(d.raw_buffer(), before);
    assert_eq!(d.update_chart(&vec![1500; 288]), Ok(()));
    assert_ne!(d.raw_buffer(), before);
}

#[test]
fn connections_draw_lines_and_heads() {
    let mut plain = DisplayBoxed::new();
    plain.draw_connections(ConnectionDirection::Bottom(false));
    let mut headed = DisplayBoxed::new();
    headed.draw_connections(ConnectionDirection::Bottom(true));
    let count = |d: &DisplayBoxed| d.raw_buffer().iter().filter(|b| **b == 1).count();
    assert!(count(&plain) > 0);
    assert!(count(&headed) > count(&plain));
}

#[test]
fn default_layout_and_status_messages() {
    let mut d = DisplayBoxed::new();
    d.draw_default_display();
    let layout = d.raw_buffer();
    assert!(layout.iter().any(|b| *b == 1));
    d.draw_status_message("Wifi success");
    assert_ne!(d.raw_buffer(), layout);
    d.clear_status_message();
    d.clear_text();
    d.set_connected();
    d.clear(Color::White);
    assert!(d.raw_buffer().iter().all(|b| *b == 0));
}

#[test]
fn badge_values_use_their_three_character_positions() {
    assert_eq!(centered_x(TOP_BASE, 1), 74);
    assert_eq!(centered_x(TOP_BASE, 3), 65);
    assert_eq!(centered_x(TOP_BASE, 4), 61);
    assert_eq!(centered_x(LEFT_BASE, 1), 31);
    assert_eq!(centered_x(LEFT_BASE, 4), 18);
    assert_eq!(centered_x(RIGHT_BASE, 1), 112);
    assert_eq!(centered_x(RIGHT_BASE, 5), 99);
}
