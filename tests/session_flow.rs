use epd_waveshare::color::Color;
use senec_display::model::DailyNew;
use senec_display::model::NewUiStruct;
use senec_display::model::Prediction;
use senec_display::model::TelemetryUpdate;
use senec_display::model::TotalDataNew;
use senec_display::model::WeatherNew;
use senec_display::session::Inbound;
use senec_display::session::PanelOp;
use senec_display::session::SessionContext;
use senec_display::surface::DisplayBoxed;

fn some(s: &str) -> Option<String> {
    Some(s.to_string())
}

fn reading() -> NewUiStruct {
    NewUiStruct {
        ts: some("10:05"),
        gui_house_pow: some("1.20"),
        gui_inverter_power: some("3.40"),
        gui_grid_pow: some("-0.50"),
        gui_bat_data_power: some("0.80"),
        gui_bat_data_fuel_charge: some("76"),
        weather: None,
        total_data: Some(TotalDataNew {
            consumption: "12.3".to_string(),
            generated: "20.1".to_string(),
            new: false,
        }),
    }
}

fn chrome() -> Vec<u8> {
    let mut d = DisplayBoxed::new();
    d.clear(Color::White);
    d.draw_default_display();
    d.buffer()
}

#[test]
fn live_reading_before_two_minutes_is_a_partial_push() {
    let mut d = DisplayBoxed::new();
    let mut s = SessionContext::new(0);
    let out = s.on_live_reading(&mut d, &reading(), 60_000);
    assert!(!out.full_repaint);
    assert!(!out.weather_rejected);
    let frame = d.buffer();
    assert_eq!(
        out.ops,
        vec![
            PanelOp::SendNew { frame: frame.clone() },
            PanelOp::Present,
            PanelOp::SetBaseline { frame },
        ]
    );
}

#[test]
fn full_repaint_keeps_the_picture_and_pushes_it() {
    let mut d = DisplayBoxed::new();
    d.draw_default_display();
    d.update_chart(&vec![2000; 288]).unwrap();
    let raw = d.raw_buffer();
    let packed = d.buffer();
    let mut s = SessionContext::new(0);
    let ops = s.full_repaint(&mut d, 500);
    assert_eq!(d.raw_buffer(), raw);
    assert_eq!(
        ops,
        vec![PanelOp::ShowFull { frame: packed.clone() }, PanelOp::SetBaseline { frame: packed }]
    );
}

#[test]
fn reading_after_two_minutes_repaints_fully_first() {
    let mut d = DisplayBoxed::new();
    let mut s = SessionContext::new(0);
    s.on_live_reading(&mut d, &reading(), 1_000);
    let shown = d.buffer();
    let out = s.on_live_reading(&mut d, &reading(), 121_001);
    assert!(out.full_repaint);
    assert_eq!(out.ops.len(), 5);
    assert_eq!(out.ops[0], PanelOp::ShowFull { frame: shown });
    let again = s.on_live_reading(&mut d, &reading(), 200_000);
    assert!(!again.full_repaint);
}

#[test]
fn decode_failure_then_late_reading_shows_the_bare_layout() {
    let mut d = DisplayBoxed::new();
    let mut s = SessionContext::new(0);
    s.on_live_reading(&mut d, &reading(), 1_000);
    let failed = s.dispatch(&mut d, Inbound::DecodeFailed, 2_000);
    assert!(failed.ops.is_empty());
    assert!(!failed.session_over);
    let out = s.dispatch(
        &mut d,
        Inbound::Update(TelemetryUpdate::LiveReading(reading())),
        130_000,
    );
    assert_eq!(out.ops[0], PanelOp::ShowFull { frame: chrome() });
    assert_eq!(out.ops[1], PanelOp::SetBaseline { frame: chrome() });
}

#[test]
fn forecast_of_wrong_length_changes_nothing() {
    let mut d = DisplayBoxed::new();
    let mut s = SessionContext::new(0);
    s.on_live_reading(&mut d, &reading(), 1_000);
    let before = d.raw_buffer();
    let ops = s.on_forecast(&mut d, &Prediction { prediction: vec![1000; 287] });
    assert!(ops.is_empty());
    assert_eq!(d.raw_buffer(), before);
    let out = s.dispatch(
        &mut d,
        Inbound::Update(TelemetryUpdate::Forecast(Prediction { prediction: vec![1000; 289] })),
        2_000,
    );
    assert!(out.ops.is_empty());
    assert_eq!(d.raw_buffer(), before);
}

#[test]
fn forecast_of_a_day_redraws_the_chart() {
    let mut d = DisplayBoxed::new();
    let mut s = SessionContext::new(0);
    let before = d.raw_buffer();
    let samples: Vec<i32> = (0..288).map(|i| (i % 50) * 100).collect();
    let ops = s.on_forecast(&mut d, &Prediction { prediction: samples });
    assert_eq!(ops.len(), 3);
    assert_eq!(ops[1], PanelOp::Present);
    assert_ne!(d.raw_buffer(), before);
}

#[test]
fn incomplete_weather_is_dropped() {
    let mut d = DisplayBoxed::new();
    let mut s = SessionContext::new(0);
    let mut r = reading();
    r.weather = Some(WeatherNew {
        hourly: None,
        daily: Some(DailyNew { sunrise: vec![], sunset: vec!["20:00".to_string()], ..Default::default() }),
    });
    let out = s.on_live_reading(&mut d, &r, 1_000);
    assert!(out.weather_rejected);
    let mut good = reading();
    good.weather = Some(WeatherNew {
        hourly: None,
        daily: Some(DailyNew {
            sunrise: vec!["06:10".to_string()],
            sunset: vec!["20:00".to_string()],
            ..Default::default()
        }),
    });
    let out = s.on_live_reading(&mut d, &good, 2_000);
    assert!(!out.weather_rejected);
}

#[test]
fn text_control_and_close_events() {
    let mut d = DisplayBoxed::new();
    let mut s = SessionContext::new(0);
    let before = d.raw_buffer();
    assert!(s.dispatch(&mut d, Inbound::Text, 10).ops.is_empty());
    assert!(s.dispatch(&mut d, Inbound::Control, 10).ops.is_empty());
    assert!(s.dispatch(&mut d, Inbound::Empty, 10).ops.is_empty());
    assert_eq!(d.raw_buffer(), before);
    assert!(s.dispatch(&mut d, Inbound::Closed, 10).session_over);
    assert!(s.dispatch(&mut d, Inbound::ReadFailed, 10).session_over);
}

#[test]
fn live_reading_keeps_unset_fields() {
    let mut d = DisplayBoxed::new();
    let mut s = SessionContext::new(0);
    s.on_live_reading(&mut d, &reading(), 1_000);
    let only_house = NewUiStruct { gui_house_pow: some("3.50"), ..Default::default() };
    let mut s2 = SessionContext::new(0);
    let mut d2 = DisplayBoxed::new();
    s2.on_live_reading(&mut d2, &reading(), 1_000);
    s2.on_live_reading(&mut d2, &only_house, 2_000);
    let mut with_grid = reading();
    with_grid.gui_house_pow = some("3.50");
    s.on_live_reading(&mut d, &with_grid, 2_000);
    assert_eq!(d.raw_buffer(), d2.raw_buffer());
}

#[test]
fn weather_block_is_dropped_whole_when_sunrise_is_missing() {
    let strings = |v: &[&str]| v.iter().map(|s| s.to_string()).collect::<Vec<String>>();
    let hourly = senec_display::model::HourlyNew {
        rain: strings(&["0.0", "0.1", "0.2", "1.5"]),
        cloud_cover: strings(&["10", "20", "30", "40"]),
        uv_index: strings(&["1.0", "2.0", "3.0", "4.0"]),
        temperature_2_m: strings(&["10.0", "11.0", "12.0", "13.0"]),
        ..Default::default()
    };
    let mut with_bad = reading();
    with_bad.weather = Some(WeatherNew {
        hourly: Some(hourly),
        daily: Some(DailyNew { sunrise: vec![], sunset: vec!["20:00".to_string()], ..Default::default() }),
    });
    let mut d1 = DisplayBoxed::new();
    let mut s1 = SessionContext::new(0);
    let out = s1.on_live_reading(&mut d1, &with_bad, 1_000);
    assert!(out.weather_rejected);
    let mut d2 = DisplayBoxed::new();
    let mut s2 = SessionContext::new(0);
    s2.on_live_reading(&mut d2, &reading(), 1_000);
    assert_eq!(d1.raw_buffer(), d2.raw_buffer());
}

#[test]
fn forecast_with_negative_sample_is_dropped() {
    let mut d = DisplayBoxed::new();
    let mut s = SessionContext::new(0);
    let before = d.raw_buffer();
    let mut samples = vec![1000i32; 288];
    samples[7] = -1;
    let ops = s.on_forecast(&mut d, &Prediction { prediction: samples });
    assert!(ops.is_empty());
    assert_eq!(d.raw_buffer(), before);
}

#[test]
fn dispatch_draws_a_valid_forecast() {
    let mut d = DisplayBoxed::new();
    let mut s = SessionContext::new(0);
    let before = d.raw_buffer();
    let out = s.dispatch(
        &mut d,
        Inbound::Update(TelemetryUpdate::Forecast(Prediction { prediction: vec![3000; 288] })),
        10,
    );
    assert_eq!(out.ops.len(), 3);
    assert!(!out.session_over);
    assert_ne!(d.raw_buffer(), before);
}
