use senec_display::cache::CachedField;
use senec_display::cache::DisplayStateCache;
use senec_display::model::NewUiStruct;

fn some(s: &str) -> Option<String> {
    Some(s.to_string())
}

#[test]
fn fresh_cache_holds_defaults() {
    let c = DisplayStateCache::new();
    assert_eq!(c.get(CachedField::Timestamp), "0:00");
    assert_eq!(c.get(CachedField::HousePower), "0.00");
    assert_eq!(c.get(CachedField::GridFlow), "0.00");
}

#[test]
fn resolve_takes_present_value_and_keeps_absent_one() {
    let mut c = DisplayStateCache::new();
    assert_eq!(c.resolve(CachedField::GridPower, &some("1.20")), "1.20");
    assert_eq!(c.resolve(CachedField::GridPower, &None), "1.20");
    assert_eq!(c.get(CachedField::HousePower), "0.00");
}

#[test]
fn second_reading_keeps_grid_power_of_first() {
    let mut c = DisplayStateCache::new();
    let first = NewUiStruct {
        gui_grid_pow: some("-0.75"),
        gui_house_pow: some("1.10"),
        ..Default::default()
    };
    let second = NewUiStruct { gui_house_pow: some("3.50"), ..Default::default() };
    c.absorb(&first);
    let r = c.absorb(&second);
    assert_eq!(r.grid_pow, "-0.75");
    assert_eq!(r.house_pow, "3.50");
    assert_eq!(c.get(CachedField::GridPower), "-0.75");
    assert_eq!(c.get(CachedField::GridFlow), "-0.75");
}

#[test]
fn unset_fields_read_back_the_latest_value_many_readings_back() {
    let mut c = DisplayStateCache::new();
    c.absorb(&NewUiStruct { ts: some("10:00"), gui_bat_data_fuel_charge: some("80"), ..Default::default() });
    for _ in 0..5 {
        c.absorb(&NewUiStruct { gui_inverter_power: some("2.00"), ..Default::default() });
    }
    c.absorb(&NewUiStruct { ts: some("10:05"), ..Default::default() });
    assert_eq!(c.get(CachedField::Timestamp), "10:05");
    assert_eq!(c.get(CachedField::BatteryCharge), "80");
    assert_eq!(c.get(CachedField::SolarFlow), "2.00");
    assert_eq!(c.get(CachedField::BatteryFlow), "0.00");
}
