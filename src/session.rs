//! The repaint scheduler and message dispatcher of one connection session.
use vstd::prelude::*;
use epd_waveshare::color::Color;
use crate::cache::CachedField;
use crate::cache::DisplayStateCache;
use crate::cache::ResolvedReading;
use crate::cache::absorbed;
use crate::cache::default_view;
use crate::chart::FORECAST_LEN;
use crate::layout::Flow;
use crate::layout::battery_label;
use crate::layout::battery_text;
use crate::layout::flow_direction;
use crate::layout::flow_of;
use crate::layout::grid_label;
use crate::layout::grid_text;
use crate::layout::text_len;
use crate::model::NewUiStruct;
use crate::model::Prediction;
use crate::model::TelemetryUpdate;
use crate::model::TotalDataNew;
use crate::model::WeatherNew;
use crate::panels::chart_update_drawn;
use crate::panels::default_display_drawn;
use crate::panels::hourly_complete;
use crate::panels::hourly_drawn;
use crate::surface::DisplayBoxed;
use crate::surface::blank;
use crate::surface::filled;
use crate::surface::grid_of;
use crate::surface::lemma_grid_shape;
use crate::surface::lemma_load_raw;
use crate::widgets::ConnectionDirection;
use crate::widgets::connection_drawn;
use crate::widgets::readouts_cleared;
use crate::widgets::readouts_drawn;
use crate::widgets::sun_times_drawn;
use crate::widgets::total_update_drawn;

verus! {

/// Milliseconds after which a live reading brings a full repaint.
pub const FULL_REPAINT_MS: u64 = 120_000;

/// One operation for the panel driver, performed in the order given.
#[derive(Debug, Clone, PartialEq)]
pub enum PanelOp {
    /// Send `frame` and show it with a full refresh.
    ShowFull { frame: Vec<u8> },
    /// Send `frame` as the next frame.
    SendNew { frame: Vec<u8> },
    /// Show the frame sent last with a partial refresh.
    Present,
    /// Make `frame` the baseline that later partial refreshes compare with.
    SetBaseline { frame: Vec<u8> },
}

/// Whether `op` shows `frame` with a full refresh.
pub open spec fn shows_full(op: PanelOp, frame: Seq<u8>) -> bool {
    op matches PanelOp::ShowFull { frame: f } && f@ == frame
}

/// Whether `op` sends `frame` as the next frame.
pub open spec fn sends_new(op: PanelOp, frame: Seq<u8>) -> bool {
    op matches PanelOp::SendNew { frame: f } && f@ == frame
}

/// Whether `op` makes `frame` the baseline.
pub open spec fn sets_baseline(op: PanelOp, frame: Seq<u8>) -> bool {
    op matches PanelOp::SetBaseline { frame: f } && f@ == frame
}

/// Whether `ops` is the partial update of `frame`: send, show, make baseline.
pub open spec fn partial_push(ops: Seq<PanelOp>, frame: Seq<u8>) -> bool {
    &&& ops.len() == 3
    &&& sends_new(ops[0], frame)
    &&& ops[1] == PanelOp::Present
    &&& sets_baseline(ops[2], frame)
}

/// The three operations that bring `frame` onto the panel as a partial update.
pub fn push_partial(ops: &mut Vec<PanelOp>, frame: Vec<u8>)
    ensures
        final(ops)@.len() == old(ops)@.len() + 3,
        final(ops)@.take(old(ops)@.len() as int) == old(ops)@,
        partial_push(final(ops)@.skip(old(ops)@.len() as int), frame@),
{
    let copy = frame.clone();
    ops.push(PanelOp::SendNew { frame: copy });
    ops.push(PanelOp::Present);
    ops.push(PanelOp::SetBaseline { frame });
    assert(ops@.take(old(ops)@.len() as int) =~= old(ops)@);
    assert(ops@.skip(old(ops)@.len() as int) =~= seq![
        ops@[old(ops)@.len() as int],
        ops@[old(ops)@.len() as int + 1],
        ops@[old(ops)@.len() as int + 2],
    ]);
}

/// Whether `ops` is the full-refresh push of `frame`: show, make baseline.
pub open spec fn full_push(ops: Seq<PanelOp>, frame: Seq<u8>) -> bool {
    &&& ops.len() == 2
    &&& shows_full(ops[0], frame)
    &&& sets_baseline(ops[1], frame)
}

/// The result of handling one live reading.
#[derive(Debug)]
pub struct LiveOutcome {
    /// What the panel driver must do, in order.
    pub ops: Vec<PanelOp>,
    /// A full repaint ran first.
    pub full_repaint: bool,
    /// The weather block was present but incomplete or too long, and dropped.
    pub weather_rejected: bool,
}

/// The cached values drawn as the four badges and the time.
pub open spec fn readings_drawn(g: Seq<Seq<bool>>, v: Map<CachedField, Seq<char>>) -> Seq<Seq<bool>> {
    readouts_drawn(
        readouts_cleared(g),
        v[CachedField::HousePower],
        battery_label(v[CachedField::BatteryFlow], v[CachedField::BatteryCharge]),
        v[CachedField::InverterPower],
        grid_label(v[CachedField::GridPower]),
        v[CachedField::Timestamp],
    )
}

/// The connector lines: the house always, the others by their flow.
pub open spec fn flows_drawn(g: Seq<Seq<bool>>, v: Map<CachedField, Seq<char>>) -> Seq<Seq<bool>> {
    let g = connection_drawn(filled(g, 54, 43, 42, 41, false), ConnectionDirection::Top(true));
    let g = match flow_of(v[CachedField::BatteryFlow]) {
        Flow::Forward => connection_drawn(g, ConnectionDirection::Bottom(true)),
        Flow::Backward => connection_drawn(g, ConnectionDirection::Bottom(false)),
        Flow::Idle => g,
    };
    let g = match flow_of(v[CachedField::GridFlow]) {
        Flow::Forward => connection_drawn(g, ConnectionDirection::Right(false)),
        Flow::Backward => connection_drawn(g, ConnectionDirection::Right(true)),
        Flow::Idle => g,
    };
    match flow_of(v[CachedField::SolarFlow]) {
        Flow::Idle => g,
        _ => connection_drawn(g, ConnectionDirection::Left(false)),
    }
}

/// Whether the sunrise and sunset of a weather block can be shown.
pub open spec fn sun_times_ok(w: WeatherNew) -> bool {
    w.daily matches Some(d) ==> {
        &&& d.sunrise@.len() > 0
        &&& d.sunset@.len() > 0
        &&& text_len(d.sunrise@[0]@) <= 5
        &&& text_len(d.sunset@[0]@) <= 5
    }
}

/// Whether a weather block is present and cannot be shown in full.
pub open spec fn weather_bad(w: Option<WeatherNew>) -> bool {
    w matches Some(w) && (!sun_times_ok(w) || (w.hourly matches Some(h) && !hourly_complete(h)))
}

/// The weather block drawn: nothing when it is absent or when any part of it
/// is incomplete or too long (the previous weather stays), else each part
/// that is present.
pub open spec fn weather_drawn(g: Seq<Seq<bool>>, w: Option<WeatherNew>) -> Seq<Seq<bool>> {
    match w {
        None => g,
        Some(wb) => if weather_bad(w) {
            g
        } else {
            let g = match wb.daily {
                Some(d) => sun_times_drawn(g, d.sunrise@[0]@, d.sunset@[0]@),
                None => g,
            };
            match wb.hourly {
                Some(h) => hourly_drawn(g, h),
                None => g,
            }
        },
    }
}

/// The totals drawn when they are new or the panel was just fully repainted.
pub open spec fn totals_drawn(g: Seq<Seq<bool>>, t: Option<TotalDataNew>, flushed: bool) -> Seq<Seq<bool>> {
    match t {
        Some(t) => if t.new || flushed {
            total_update_drawn(g, t.consumption@, t.generated@)
        } else {
            g
        },
        None => g,
    }
}

/// The chart redrawn after a full repaint.
pub open spec fn chart_redrawn(g: Seq<Seq<bool>>, forecast: Seq<i32>, flushed: bool) -> Seq<Seq<bool>> {
    if flushed {
        chart_update_drawn(g, forecast)
    } else {
        g
    }
}

/// The picture after a live reading `r`, drawn over `g` with cache `v`
/// already holding the reading's values.
pub open spec fn live_drawn(
    g: Seq<Seq<bool>>,
    v: Map<CachedField, Seq<char>>,
    r: NewUiStruct,
    forecast: Seq<i32>,
    flushed: bool,
) -> Seq<Seq<bool>> {
    let g = flows_drawn(readings_drawn(g, v), v);
    chart_redrawn(totals_drawn(weather_drawn(g, r.weather), r.total_data, flushed), forecast, flushed)
}

/// Milliseconds from `since` to `now`; zero if the clock reads earlier.
pub open spec fn elapsed(since: u64, now: u64) -> int {
    if now >= since {
        now - since
    } else {
        0
    }
}

/// Whether `s` is a valid forecast: a day of samples, none below zero.
pub open spec fn forecast_valid(s: Seq<i32>) -> bool {
    s.len() == FORECAST_LEN && forall|i: int| 0 <= i < s.len() ==> #[trigger] s[i] >= 0
}

/// Whether `ops` is what a live reading pushes: with a full repaint, the
/// repaint's push (the bare layout after a decode failure, else the picture
/// `before`) and then the partial push of `after`; without, that partial
/// push alone.
pub open spec fn live_ops(ops: Seq<PanelOp>, full: bool, prev_error: bool, before: Seq<u8>, after: Seq<u8>) -> bool {
    if full {
        &&& exists|p: Seq<u8>| {
            &&& full_push(ops.take(2), p)
            &&& !prev_error ==> p == before
            &&& prev_error ==> grid_of(p) == default_display_drawn(blank(false))
        }
        &&& partial_push(ops.skip(2), after)
    } else {
        partial_push(ops, after)
    }
}

/// Whether a full repaint is due at `now` for session `s`.
pub open spec fn repaint_due(s: SessionContext, now: u64) -> bool {
    elapsed(s.last_full_repaint(), now) > FULL_REPAINT_MS
}

/// Whether the session went from `s0` to `s1`, the picture from `d0` to `d1`,
/// and `ops` were pushed, as live reading `u` at `now` demands.
pub open spec fn live_step(
    s0: SessionContext,
    s1: SessionContext,
    d0: DisplayBoxed,
    d1: DisplayBoxed,
    u: NewUiStruct,
    now: u64,
    ops: Seq<PanelOp>,
) -> bool {
    let full = repaint_due(s0, now);
    &&& s1.cached() == absorbed(s0.cached(), u)
    &&& d1@ == live_drawn(d0@, s1.cached(), u, s0.forecast(), s0.just_flushed() || full)
    &&& s1.forecast() == s0.forecast()
    &&& s1.last_full_repaint() == (if full {
        now
    } else {
        s0.last_full_repaint()
    })
    &&& !s1.just_flushed()
    &&& !s1.prev_error()
    &&& live_ops(ops, full, s0.prev_error(), d0.packed(), d1.packed())
}

/// Whether the session, the picture and the pushes follow forecast `p`: a
/// valid one is stored, drawn and pushed; any other changes nothing.
pub open spec fn forecast_step(
    s0: SessionContext,
    s1: SessionContext,
    d0: DisplayBoxed,
    d1: DisplayBoxed,
    p: Prediction,
    ops: Seq<PanelOp>,
) -> bool {
    &&& s1.cached() == s0.cached()
    &&& s1.last_full_repaint() == s0.last_full_repaint()
    &&& s1.just_flushed() == s0.just_flushed()
    &&& s1.prev_error() == s0.prev_error()
    &&& if forecast_valid(p.prediction@) {
        &&& s1.forecast() == p.prediction@
        &&& d1@ == chart_update_drawn(d0@, p.prediction@)
        &&& partial_push(ops, d1.packed())
    } else {
        &&& s1.forecast() == s0.forecast()
        &&& unchanged_display(d0, d1, ops)
    }
}

/// Whether the session is as it was.
pub open spec fn same_session(s0: SessionContext, s1: SessionContext) -> bool {
    &&& s1.cached() == s0.cached()
    &&& s1.forecast() == s0.forecast()
    &&& s1.last_full_repaint() == s0.last_full_repaint()
    &&& s1.just_flushed() == s0.just_flushed()
    &&& s1.prev_error() == s0.prev_error()
}

/// Whether the picture and frame buffer are as they were and nothing is pushed.
pub open spec fn unchanged_display(d0: DisplayBoxed, d1: DisplayBoxed, ops: Seq<PanelOp>) -> bool {
    d1@ == d0@ && d1.packed() == d0.packed() && ops.len() == 0
}

/// Whether no sample of `v` is below zero.
fn all_nonnegative(v: &Vec<i32>) -> (r: bool)
    ensures
        r == forall|i: int| 0 <= i < v@.len() ==> #[trigger] v@[i] >= 0,
{
    let mut i: usize = 0;
    while i < v.len()
        invariant
            i <= v@.len(),
            forall|j: int| 0 <= j < i ==> #[trigger] v@[j] >= 0,
        decreases v@.len() - i,
    {
        if v[i] < 0 {
            return false;
        }
        i = i + 1;
    }
    true
}

/// What a session carries between messages.
#[derive(Debug)]
pub struct SessionContext {
    cache: DisplayStateCache,
    forecast: Vec<i32>,
    last_full_repaint: u64,
    just_flushed: bool,
    prev_error: bool,
}

/// The result of dispatching one inbound event.
#[derive(Debug)]
pub struct DispatchOutcome {
    /// What the panel driver must do, in order.
    pub ops: Vec<PanelOp>,
    /// The connection closed or failed: the session is over.
    pub session_over: bool,
}

/// An event read from the connection, with binary frames already decoded.
#[derive(Debug, Clone, PartialEq)]
pub enum Inbound {
    /// A text frame: never protocol data.
    Text,
    /// A control frame other than close.
    Control,
    /// A binary frame that decoded to an update.
    Update(TelemetryUpdate),
    /// A binary frame that decoded to a message without payload.
    Empty,
    /// A binary frame that did not decode.
    DecodeFailed,
    /// The server closed the connection.
    Closed,
    /// Reading from the connection failed.
    ReadFailed,
}

impl SessionContext {
    /// The values cached for the session.
    pub closed spec fn cached(&self) -> Map<CachedField, Seq<char>> {
        self.cache@
    }

    /// The forecast the chart shows.
    pub closed spec fn forecast(&self) -> Seq<i32> {
        self.forecast@
    }

    /// When the last full repaint ran.
    pub closed spec fn last_full_repaint(&self) -> u64 {
        self.last_full_repaint
    }

    /// A full repaint ran since the last live reading was drawn.
    pub closed spec fn just_flushed(&self) -> bool {
        self.just_flushed
    }

    /// The last binary frame did not decode.
    pub closed spec fn prev_error(&self) -> bool {
        self.prev_error
    }

    /// The forecast is a valid one.
    pub open spec fn wf(&self) -> bool {
        forecast_valid(self.forecast())
    }

    /// A session begun at `now`: default values, a flat forecast, and the
    /// chart and totals due on the first reading.
    pub fn new(now: u64) -> (r: Self)
        ensures
            r.wf(),
            r.cached() == default_view(),
            r.forecast() == Seq::new(FORECAST_LEN as nat, |i: int| 0i32),
            r.last_full_repaint() == now,
            r.just_flushed(),
            !r.prev_error(),
    {
        let mut forecast: Vec<i32> = Vec::new();
        while forecast.len() < FORECAST_LEN
            invariant
                forecast@.len() <= FORECAST_LEN,
                forall|i: int| 0 <= i < forecast@.len() ==> forecast@[i] == 0,
            decreases FORECAST_LEN - forecast@.len(),
        {
            forecast.push(0);
        }
        let r = SessionContext {
            cache: DisplayStateCache::new(),
            forecast,
            last_full_repaint: now,
            just_flushed: true,
            prev_error: false,
        };
        assert(r.forecast() =~= Seq::new(FORECAST_LEN as nat, |i: int| 0i32));
        r
    }

    /// The full repaint: snapshot the picture, clear it and draw the static
    /// layout, load the snapshot back over it, then show the layout alone if
    /// the last frame failed to decode and the snapshot otherwise, and make
    /// that the baseline. The picture comes out as it went in.
    pub fn full_repaint(&mut self, display: &mut DisplayBoxed, now: u64) -> (r: Vec<PanelOp>)
        requires
            old(display).wf(),
        ensures
            final(display).wf(),
            final(display)@ == old(display)@,
            exists|p: Seq<u8>| {
                &&& full_push(r@, p)
                &&& !old(self).prev_error() ==> p == old(display).packed()
                &&& old(self).prev_error() ==> grid_of(p) == default_display_drawn(blank(false))
            },
            final(self).cached() == old(self).cached(),
            final(self).forecast() == old(self).forecast(),
            final(self).prev_error() == old(self).prev_error(),
            final(self).last_full_repaint() == now,
            final(self).just_flushed(),
    {
        let prev_buffer = display.buffer();
        let prev_raw = display.raw_buffer();
        display.clear(Color::White);
        display.draw_default_display();
        let chrome = display.buffer();
        proof {
            lemma_grid_shape(display.packed());
            lemma_grid_shape(old(display).packed());
            lemma_load_raw(display@, old(display)@);
        }
        // The snapshot holds only 0 and 1, so loading it cannot fail.
        let _ = display.set_buf(&prev_raw);
        let pushed = if self.prev_error { chrome } else { prev_buffer };
        let mut ops: Vec<PanelOp> = Vec::new();
        ops.push(PanelOp::ShowFull { frame: pushed.clone() });
        ops.push(PanelOp::SetBaseline { frame: pushed });
        self.last_full_repaint = now;
        self.just_flushed = true;
        ops
    }

    /// Handles a live reading at time `now` (milliseconds): a full repaint
    /// first when more than two minutes passed since the last one; then the
    /// badges, flows, weather, totals and, after a full repaint, the chart;
    /// then one partial push of the new picture.
    pub fn on_live_reading(&mut self, display: &mut DisplayBoxed, reading: &NewUiStruct, now: u64) -> (r: LiveOutcome)
        requires
            old(display).wf(),
            old(self).wf(),
        ensures
            final(display).wf(),
            final(self).wf(),
            r.full_repaint == (elapsed(old(self).last_full_repaint(), now) > FULL_REPAINT_MS),
            final(self).cached() == absorbed(old(self).cached(), *reading),
            final(display)@ == live_drawn(
                old(display)@,
                final(self).cached(),
                *reading,
                old(self).forecast(),
                old(self).just_flushed() || r.full_repaint,
            ),
            r.weather_rejected == weather_bad(reading.weather),
            final(self).forecast() == old(self).forecast(),
            final(self).last_full_repaint() == (if r.full_repaint {
                now
            } else {
                old(self).last_full_repaint()
            }),
            !final(self).just_flushed(),
            !final(self).prev_error(),
            live_ops(
                r.ops@,
                r.full_repaint,
                old(self).prev_error(),
                old(display).packed(),
                final(display).packed(),
            ),
    {
        let since = if now >= self.last_full_repaint { now - self.last_full_repaint } else { 0 };
        let full = since > FULL_REPAINT_MS;
        let mut ops: Vec<PanelOp> = if full {
            self.full_repaint(display, now)
        } else {
            Vec::new()
        };
        let flushed = self.just_flushed;
        display.clear_text();
        let v = self.cache.absorb(reading);
        assert(Map::new(|f: CachedField| true, |f: CachedField| v.value(f)) =~= self.cache@);
        let bat = battery_text(v.battery_flow.as_str(), v.bat_charge.as_str());
        let grid = grid_text(v.grid_pow.as_str());
        display.draw_text(
            v.house_pow.as_str(),
            bat.as_str(),
            v.inverter_pow.as_str(),
            grid.as_str(),
            v.ts.as_str(),
        );
        draw_flows(display, &v);
        let weather_rejected = draw_weather(display, &reading.weather);
        match &reading.total_data {
            Some(t) => {
                if t.new || flushed {
                    display.update_total_new(t.consumption.as_str(), t.generated.as_str());
                }
            },
            None => {},
        }
        if flushed {
            // The forecast always holds a day of samples, so this cannot fail.
            let _ = display.update_chart(self.forecast.as_slice());
        }
        self.just_flushed = false;
        self.prev_error = false;
        let ghost before = ops@;
        push_partial(&mut ops, display.buffer());
        proof {
            if full {
                assert(ops@.take(2) =~= before);
            } else {
                assert(ops@.skip(0) =~= ops@);
            }
        }
        LiveOutcome { ops, full_repaint: full, weather_rejected }
    }

    /// Handles a forecast: a valid one (a day of samples, none below zero)
    /// replaces the chart and is pushed; any other is dropped, leaving
    /// everything as it was.
    pub fn on_forecast(&mut self, display: &mut DisplayBoxed, p: &Prediction) -> (r: Vec<PanelOp>)
        requires
            old(display).wf(),
            old(self).wf(),
        ensures
            final(display).wf(),
            final(self).wf(),
            forecast_step(*old(self), *final(self), *old(display), *final(display), *p, r@),
    {
        let mut ops: Vec<PanelOp> = Vec::new();
        if p.prediction.len() != FORECAST_LEN || !all_nonnegative(&p.prediction) {
            return ops;
        }
        self.forecast = copy_samples(&p.prediction);
        // A day of samples is never empty, so this cannot fail.
        let _ = display.update_chart(self.forecast.as_slice());
        push_partial(&mut ops, display.buffer());
        assert(ops@.skip(0) =~= ops@);
        ops
    }

    /// Routes one inbound event: live readings and forecasts are drawn, a
    /// frame that does not decode is remembered, text and control frames are
    /// ignored, and a close or read failure ends the session.
    pub fn dispatch(&mut self, display: &mut DisplayBoxed, event: Inbound, now: u64) -> (r: DispatchOutcome)
        requires
            old(display).wf(),
            old(self).wf(),
        ensures
            final(display).wf(),
            final(self).wf(),
            r.session_over == (event == Inbound::Closed || event == Inbound::ReadFailed),
            match event {
                Inbound::Update(TelemetryUpdate::LiveReading(u)) => live_step(
                    *old(self),
                    *final(self),
                    *old(display),
                    *final(display),
                    u,
                    now,
                    r.ops@,
                ),
                Inbound::Update(TelemetryUpdate::Forecast(p)) => forecast_step(
                    *old(self),
                    *final(self),
                    *old(display),
                    *final(display),
                    p,
                    r.ops@,
                ),
                Inbound::DecodeFailed => {
                    &&& final(self).prev_error()
                    &&& final(self).cached() == old(self).cached()
                    &&& final(self).forecast() == old(self).forecast()
                    &&& final(self).last_full_repaint() == old(self).last_full_repaint()
                    &&& final(self).just_flushed() == old(self).just_flushed()
                    &&& unchanged_display(*old(display), *final(display), r.ops@)
                },
                _ => same_session(*old(self), *final(self)) && unchanged_display(
                    *old(display),
                    *final(display),
                    r.ops@,
                ),
            },
    {
        match event {
            Inbound::Update(TelemetryUpdate::LiveReading(reading)) => {
                let out = self.on_live_reading(display, &reading, now);
                DispatchOutcome { ops: out.ops, session_over: false }
            },
            Inbound::Update(TelemetryUpdate::Forecast(p)) => {
                let ops = self.on_forecast(display, &p);
                DispatchOutcome { ops, session_over: false }
            },
            Inbound::DecodeFailed => {
                self.prev_error = true;
                DispatchOutcome { ops: Vec::new(), session_over: false }
            },
            Inbound::Closed => DispatchOutcome { ops: Vec::new(), session_over: true },
            Inbound::ReadFailed => DispatchOutcome { ops: Vec::new(), session_over: true },
            _ => DispatchOutcome { ops: Vec::new(), session_over: false },
        }
    }
}

/// A copy of `v`.
fn copy_samples(v: &Vec<i32>) -> (r: Vec<i32>)
    ensures
        r@ == v@,
{
    let mut r: Vec<i32> = Vec::new();
    let mut i: usize = 0;
    while i < v.len()
        invariant
            i <= v@.len(),
            r@ == v@.take(i as int),
        decreases v@.len() - i,
    {
        r.push(v[i]);
        i = i + 1;
        assert(r@ =~= v@.take(i as int));
    }
    assert(v@.take(i as int) =~= v@);
    r
}

/// Draws the connector lines for the resolved flows.
fn draw_flows(display: &mut DisplayBoxed, v: &ResolvedReading)
    requires
        old(display).wf(),
    ensures
        final(display).wf(),
        final(display)@ == flows_drawn(
            old(display)@,
            Map::new(|f: CachedField| true, |f: CachedField| v.value(f)),
        ),
{
    display.fill_solid(54, 43, 42, 41, Color::White);
    display.draw_connections(ConnectionDirection::Top(true));
    match flow_direction(v.battery_flow.as_str()) {
        Flow::Forward => display.draw_connections(ConnectionDirection::Bottom(true)),
        Flow::Backward => display.draw_connections(ConnectionDirection::Bottom(false)),
        Flow::Idle => {},
    }
    match flow_direction(v.grid_flow.as_str()) {
        Flow::Forward => display.draw_connections(ConnectionDirection::Right(false)),
        Flow::Backward => display.draw_connections(ConnectionDirection::Right(true)),
        Flow::Idle => {},
    }
    match flow_direction(v.solar_flow.as_str()) {
        Flow::Idle => {},
        _ => display.draw_connections(ConnectionDirection::Left(false)),
    }
}

/// Draws a weather block when every part of it that is present can be shown;
/// otherwise draws nothing and says it was dropped.
fn draw_weather(display: &mut DisplayBoxed, w: &Option<WeatherNew>) -> (bad: bool)
    requires
        old(display).wf(),
    ensures
        final(display).wf(),
        final(display)@ == weather_drawn(old(display)@, *w),
        bad == weather_bad(*w),
{
    let wb = match w {
        Some(wb) => wb,
        None => {
            return false;
        },
    };
    let sun_ok = match &wb.daily {
        Some(d) => d.sunrise.len() > 0 && d.sunset.len() > 0 && d.sunrise[0].as_str().len() <= 5
            && d.sunset[0].as_str().len() <= 5,
        None => true,
    };
    let hourly_ok = match &wb.hourly {
        Some(h) => h.rain.len() >= 4 && h.cloud_cover.len() >= 4 && h.uv_index.len() >= 4
            && h.temperature_2_m.len() >= 4,
        None => true,
    };
    if !sun_ok || !hourly_ok {
        return true;
    }
    match &wb.daily {
        Some(d) => {
            let _ = display.update_sun_data(d.sunrise[0].as_str(), d.sunset[0].as_str());
        },
        None => {},
    }
    match &wb.hourly {
        Some(h) => {
            let _ = display.update_weather_data(h);
        },
        None => {},
    }
    false
}

} // verus!
