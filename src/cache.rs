//! Last-known values of the fields a live reading may leave out.
use vstd::prelude::*;
use vstd::string::StringExecFns;
use crate::model::NewUiStruct;
use crate::model::opt_text;

verus! {

/// A value the cache keeps across live readings.
#[derive(Debug, Clone, Copy, PartialEq, Eq)]
pub enum CachedField {
    Timestamp,
    HousePower,
    InverterPower,
    GridPower,
    BatteryCharge,
    /// Battery flow, which decides the battery arrow.
    BatteryFlow,
    /// Grid flow, which decides the grid arrow.
    GridFlow,
    /// Inverter flow, which decides the solar arrow.
    SolarFlow,
}

/// What a fresh cache holds for `f`.
pub open spec fn default_value(f: CachedField) -> Seq<char> {
    match f {
        CachedField::Timestamp => seq!['0', ':', '0', '0'],
        _ => seq!['0', '.', '0', '0'],
    }
}

/// The cache of a fresh session.
pub open spec fn default_view() -> Map<CachedField, Seq<char>> {
    Map::new(|f: CachedField| true, |f: CachedField| default_value(f))
}

/// The value a reading carries for `f`, if any.
pub open spec fn incoming(r: NewUiStruct, f: CachedField) -> Option<Seq<char>> {
    match f {
        CachedField::Timestamp => opt_text(r.ts),
        CachedField::HousePower => opt_text(r.gui_house_pow),
        CachedField::InverterPower => opt_text(r.gui_inverter_power),
        CachedField::GridPower => opt_text(r.gui_grid_pow),
        CachedField::BatteryCharge => opt_text(r.gui_bat_data_fuel_charge),
        CachedField::BatteryFlow => opt_text(r.gui_bat_data_power),
        CachedField::GridFlow => opt_text(r.gui_grid_pow),
        CachedField::SolarFlow => opt_text(r.gui_inverter_power),
    }
}

/// `v` after the fields that `r` carries are taken over.
pub open spec fn absorbed(v: Map<CachedField, Seq<char>>, r: NewUiStruct) -> Map<
    CachedField,
    Seq<char>,
> {
    Map::new(
        |f: CachedField| true,
        |f: CachedField|
            match incoming(r, f) {
                Some(x) => x,
                None => v[f],
            },
    )
}

/// `v` after each reading of `rs`, in order.
pub open spec fn absorbed_all(v: Map<CachedField, Seq<char>>, rs: Seq<NewUiStruct>) -> Map<
    CachedField,
    Seq<char>,
>
    decreases rs.len(),
{
    if rs.len() == 0 {
        v
    } else {
        absorbed(absorbed_all(v, rs.drop_last()), rs.last())
    }
}

/// The value of `f` in the most recent reading of `rs` that carries it, or the
/// default when none does.
pub open spec fn most_recent(rs: Seq<NewUiStruct>, f: CachedField) -> Seq<char>
    decreases rs.len(),
{
    if rs.len() == 0 {
        default_value(f)
    } else {
        match incoming(rs.last(), f) {
            Some(x) => x,
            None => most_recent(rs.drop_last(), f),
        }
    }
}

/// The values to draw for one live reading, each resolved against the cache.
#[derive(Debug, Clone)]
pub struct ResolvedReading {
    pub ts: String,
    pub house_pow: String,
    pub inverter_pow: String,
    pub grid_pow: String,
    pub bat_charge: String,
    pub battery_flow: String,
    pub grid_flow: String,
    pub solar_flow: String,
}

impl ResolvedReading {
    /// The resolved value of `f`.
    pub open spec fn value(&self, f: CachedField) -> Seq<char> {
        match f {
            CachedField::Timestamp => self.ts@,
            CachedField::HousePower => self.house_pow@,
            CachedField::InverterPower => self.inverter_pow@,
            CachedField::GridPower => self.grid_pow@,
            CachedField::BatteryCharge => self.bat_charge@,
            CachedField::BatteryFlow => self.battery_flow@,
            CachedField::GridFlow => self.grid_flow@,
            CachedField::SolarFlow => self.solar_flow@,
        }
    }
}

/// The last value applied to each optional field of a live reading and to each
/// of the three flow directions.
#[derive(Debug)]
pub struct DisplayStateCache {
    ts: String,
    house_pow: String,
    inverter_pow: String,
    grid_pow: String,
    bat_charge: String,
    battery_flow: String,
    grid_flow: String,
    solar_flow: String,
}

impl View for DisplayStateCache {
    type V = Map<CachedField, Seq<char>>;

    closed spec fn view(&self) -> Map<CachedField, Seq<char>> {
        Map::new(
            |f: CachedField| true,
            |f: CachedField|
                match f {
                    CachedField::Timestamp => self.ts@,
                    CachedField::HousePower => self.house_pow@,
                    CachedField::InverterPower => self.inverter_pow@,
                    CachedField::GridPower => self.grid_pow@,
                    CachedField::BatteryCharge => self.bat_charge@,
                    CachedField::BatteryFlow => self.battery_flow@,
                    CachedField::GridFlow => self.grid_flow@,
                    CachedField::SolarFlow => self.solar_flow@,
                },
        )
    }
}

/// Takes `incoming` into `slot` when present, and returns the value now in it.
fn resolve_slot(slot: &mut String, incoming: &Option<String>) -> (r: String)
    ensures
        final(slot)@ == (match incoming {
            Some(v) => v@,
            None => old(slot)@,
        }),
        r@ == final(slot)@,
{
    match incoming {
        Some(v) => {
            *slot = v.clone();
        },
        None => {},
    }
    slot.clone()
}

impl DisplayStateCache {
    /// A cache holding the defaults: "0:00" for the time, "0.00" for the rest.
    pub fn new() -> (r: Self)
        ensures
            r@ == default_view(),
    {
        proof {
            reveal_strlit("0:00");
            reveal_strlit("0.00");
        }
        let r = DisplayStateCache {
            ts: String::from_str("0:00"),
            house_pow: String::from_str("0.00"),
            inverter_pow: String::from_str("0.00"),
            grid_pow: String::from_str("0.00"),
            bat_charge: String::from_str("0.00"),
            battery_flow: String::from_str("0.00"),
            grid_flow: String::from_str("0.00"),
            solar_flow: String::from_str("0.00"),
        };
        assert(r.ts@ =~= seq!['0', ':', '0', '0']);
        assert(r.house_pow@ =~= seq!['0', '.', '0', '0']);
        assert(r@ =~= default_view());
        r
    }

    /// The value cached for `f`.
    pub fn get(&self, f: CachedField) -> (r: String)
        ensures
            r@ == self@[f],
    {
        match f {
            CachedField::Timestamp => self.ts.clone(),
            CachedField::HousePower => self.house_pow.clone(),
            CachedField::InverterPower => self.inverter_pow.clone(),
            CachedField::GridPower => self.grid_pow.clone(),
            CachedField::BatteryCharge => self.bat_charge.clone(),
            CachedField::BatteryFlow => self.battery_flow.clone(),
            CachedField::GridFlow => self.grid_flow.clone(),
            CachedField::SolarFlow => self.solar_flow.clone(),
        }
    }

    /// Returns `incoming` and caches it when present; otherwise returns the
    /// cached value of `f`. Other fields are untouched.
    pub fn resolve(&mut self, f: CachedField, incoming: &Option<String>) -> (r: String)
        ensures
            r@ == (match incoming {
                Some(v) => v@,
                None => old(self)@[f],
            }),
            final(self)@ == old(self)@.insert(f, r@),
    {
        let r = match f {
            CachedField::Timestamp => resolve_slot(&mut self.ts, incoming),
            CachedField::HousePower => resolve_slot(&mut self.house_pow, incoming),
            CachedField::InverterPower => resolve_slot(&mut self.inverter_pow, incoming),
            CachedField::GridPower => resolve_slot(&mut self.grid_pow, incoming),
            CachedField::BatteryCharge => resolve_slot(&mut self.bat_charge, incoming),
            CachedField::BatteryFlow => resolve_slot(&mut self.battery_flow, incoming),
            CachedField::GridFlow => resolve_slot(&mut self.grid_flow, incoming),
            CachedField::SolarFlow => resolve_slot(&mut self.solar_flow, incoming),
        };
        assert(self@ =~= old(self)@.insert(f, r@));
        r
    }

    /// Resolves every cached field of `reading` at once.
    pub fn absorb(&mut self, reading: &NewUiStruct) -> (r: ResolvedReading)
        ensures
            final(self)@ == absorbed(old(self)@, *reading),
            forall|f: CachedField| #[trigger] r.value(f) == final(self)@[f],
    {
        let ts = resolve_slot(&mut self.ts, &reading.ts);
        let house_pow = resolve_slot(&mut self.house_pow, &reading.gui_house_pow);
        let inverter_pow = resolve_slot(&mut self.inverter_pow, &reading.gui_inverter_power);
        let grid_pow = resolve_slot(&mut self.grid_pow, &reading.gui_grid_pow);
        let bat_charge = resolve_slot(&mut self.bat_charge, &reading.gui_bat_data_fuel_charge);
        let battery_flow = resolve_slot(&mut self.battery_flow, &reading.gui_bat_data_power);
        let grid_flow = resolve_slot(&mut self.grid_flow, &reading.gui_grid_pow);
        let solar_flow = resolve_slot(&mut self.solar_flow, &reading.gui_inverter_power);
        assert(self@ =~= absorbed(old(self)@, *reading));
        ResolvedReading {
            ts,
            house_pow,
            inverter_pow,
            grid_pow,
            bat_charge,
            battery_flow,
            grid_flow,
            solar_flow,
        }
    }
}

} // verus!
