//! The larger panels: weather, totals, forecast chart and the default layout
//! drawn after every clear.
use vstd::prelude::*;
use epd_waveshare::color::Color;
use crate::chart::chart_points;
use crate::chart::group_count;
use crate::chart::kw_label;
use crate::chart::label_x;
use crate::chart::max_in_slice;
use crate::chart::max_label;
use crate::chart::point_height;
use crate::chart::polyline_points;
use crate::chart::rescale;
use crate::chart::seq_max;
use crate::chart::lemma_seq_max;
use crate::icons::BATTERY_ICON;
use crate::icons::BOLT_ICON;
use crate::icons::CLOUD_ICON;
use crate::icons::HOUSE_ICON;
use crate::icons::RAIN_ICON;
use crate::icons::SUN_ICON;
use crate::icons::THERMOMETER_ICON;
use crate::layout::centered;
use crate::layout::centered_x;
use crate::layout::text_len;
use crate::model::HourlyNew;
use crate::surface::DisplayBoxed;
use crate::surface::Font;
use crate::surface::circle_drawn;
use crate::surface::filled;
use crate::surface::line_drawn;
use crate::surface::outline_drawn;
use crate::surface::polyline_drawn;
use crate::surface::stamped;
use crate::surface::text_shown;
use crate::widgets::RenderError;
use crate::widgets::SimpleArrowDirection;
use crate::widgets::battery_frame_drawn;
use crate::widgets::readouts_drawn;
use crate::widgets::simple_arrow_drawn;

verus! {

/// One column of weather values at `offset` from the panel's left edge:
/// rain, cloud cover, UV index and temperature, top to bottom.
pub open spec fn weather_row_drawn(
    g: Seq<Seq<bool>>,
    rain: Seq<char>,
    cloud: Seq<char>,
    uv: Seq<char>,
    temp: Seq<char>,
    offset: int,
) -> Seq<Seq<bool>> {
    let base = 165 + offset;
    let g = text_shown(g, rain, centered(base, text_len(rain)), 27, Font::Small5x8);
    let g = text_shown(g, cloud, centered(base, text_len(cloud)), 38, Font::Small5x8);
    let g = text_shown(g, uv, centered(base, text_len(uv)), 50, Font::Small5x8);
    text_shown(g, temp, centered(base, text_len(temp)), 62, Font::Small5x8)
}

/// The lines between the four weather columns.
pub open spec fn weather_separators_drawn(g: Seq<Seq<bool>>) -> Seq<Seq<bool>> {
    let g = line_drawn(g, 203, 18, 203, 65, 1);
    let g = line_drawn(g, 232, 18, 232, 65, 1);
    line_drawn(g, 261, 18, 261, 65, 1)
}

/// Left offset of weather column `k`.
pub open spec fn slot_offset(k: int) -> int {
    20 + 30 * k
}

/// The four placeholder columns of a fresh weather panel.
pub open spec fn default_rows_drawn(g: Seq<Seq<bool>>) -> Seq<Seq<bool>> {
    let g = weather_row_drawn(g, "0.0"@, "100.0"@, "0.0"@, "10.0"@, 20);
    let g = weather_row_drawn(g, "0.0"@, "100.0"@, "0.0"@, "10.0"@, 50);
    let g = weather_row_drawn(g, "0.0"@, "100.0"@, "0.0"@, "10.0"@, 80);
    weather_row_drawn(g, "0.0"@, "100.0"@, "0.0"@, "10.0"@, 110)
}

/// The weather panel as first drawn.
pub open spec fn default_weather_drawn(g: Seq<Seq<bool>>) -> Seq<Seq<bool>> {
    let g = line_drawn(g, 149, 70, 296, 70, 2);
    let g = stamped(g, SUN_ICON@, 155, 2);
    let g = simple_arrow_drawn(g, SimpleArrowDirection::Up, 178, 3);
    let g = stamped(g, SUN_ICON@, 225, 2);
    let g = simple_arrow_drawn(g, SimpleArrowDirection::Down, 248, 3);
    let g = text_shown(g, "00.00"@, 190, 12, Font::Regular6x10);
    let g = text_shown(g, "00.00"@, 260, 12, Font::Regular6x10);
    let g = stamped(g, RAIN_ICON@, 155, 15);
    let g = stamped(g, CLOUD_ICON@, 155, 28);
    let g = text_shown(g, "UV"@, 160, 50, Font::Regular6x10);
    let g = stamped(g, THERMOMETER_ICON@, 156, 52);
    weather_separators_drawn(default_rows_drawn(g))
}

/// Whether `h` holds a value for each of the four slots in every list shown.
pub open spec fn hourly_complete(h: HourlyNew) -> bool {
    h.rain@.len() >= 4 && h.cloud_cover@.len() >= 4 && h.uv_index@.len() >= 4
        && h.temperature_2_m@.len() >= 4
}

/// Weather columns `0..n` of `h`.
pub open spec fn hourly_rows_drawn(g: Seq<Seq<bool>>, h: HourlyNew, n: int) -> Seq<Seq<bool>>
    decreases n,
{
    if n <= 0 {
        g
    } else {
        let k = n - 1;
        weather_row_drawn(
            hourly_rows_drawn(g, h, k),
            h.rain@[k]@,
            h.cloud_cover@[k]@,
            h.uv_index@[k]@,
            h.temperature_2_m@[k]@,
            slot_offset(k),
        )
    }
}

/// The weather panel showing the four slots of `h`.
pub open spec fn hourly_drawn(g: Seq<Seq<bool>>, h: HourlyNew) -> Seq<Seq<bool>> {
    weather_separators_drawn(hourly_rows_drawn(filled(g, 172, 18, 130, 50, false), h, 4))
}

/// The "Total" box with its icons and values.
pub open spec fn total_box_drawn(g: Seq<Seq<bool>>, house: Seq<char>, solar: Seq<char>) -> Seq<Seq<bool>> {
    let g = outline_drawn(g, 100, 91, 45, 38, 1);
    let g = filled(g, 113, 88, 20, 7, false);
    let g = text_shown(g, "Total"@, 114, 93, Font::Tiny4x6);
    let g = stamped(g, SUN_ICON@, 102, 95);
    let g = text_shown(g, solar, centered(125, text_len(solar)), 104, Font::Tiny4x6);
    let g = stamped(g, HOUSE_ICON@, 102, 112);
    text_shown(g, house, centered(125, text_len(house)), 121, Font::Tiny4x6)
}

/// The point heights of the chart of `data`.
pub open spec fn heights(data: Seq<i32>) -> Seq<i64> {
    Seq::new(group_count(data.len() as int) as nat, |k: int| point_height(data, k) as i64)
}

/// The forecast chart of `data`: axis, hour marks, maximum label, curve.
pub open spec fn chart_drawn(g: Seq<Seq<bool>>, data: Seq<i32>) -> Seq<Seq<bool>> {
    let m = seq_max(data);
    let g = line_drawn(g, 153, 124, 286, 124, 1);
    let g = filled(g, 217, 124, 9, 8, false);
    let g = filled(g, 149, 121, 2, 7, false);
    let g = text_shown(g, "0"@, 149, 126, Font::Tiny4x6);
    let g = text_shown(g, "12"@, 218, 126, Font::Tiny4x6);
    let g = text_shown(g, "24"@, 288, 126, Font::Tiny4x6);
    let g = filled(g, 145, 75, 10, 8, false);
    let g = text_shown(g, kw_label(m), label_x(m), 80, Font::Tiny4x6);
    let g = polyline_drawn(g, chart_points(heights(data)));
    text_shown(g, "Prediction"@, 256, 76, Font::Tiny4x6)
}

/// The chart area wiped and the chart of `data` drawn anew.
pub open spec fn chart_update_drawn(g: Seq<Seq<bool>>, data: Seq<i32>) -> Seq<Seq<bool>> {
    chart_drawn(filled(filled(g, 142, 76, 30, 5, false), 151, 75, 146, 47, false), data)
}

/// The four badge circles with their icons, and the separators.
pub open spec fn badges_drawn(g: Seq<Seq<bool>>) -> Seq<Seq<bool>> {
    let g = circle_drawn(g, 55, 2, 40, 2);
    let g = circle_drawn(g, 55, 86, 40, 2);
    let g = circle_drawn(g, 13, 44, 40, 2);
    let g = circle_drawn(g, 97, 44, 40, 2);
    let g = filled(g, 66, 0, 18, 15, false);
    let g = filled(g, 66, 84, 18, 15, false);
    let g = filled(g, 24, 42, 18, 15, false);
    let g = filled(g, 108, 42, 18, 15, false);
    let g = stamped(g, HOUSE_ICON@, 66, 0);
    let g = stamped(g, BOLT_ICON@, 108, 43);
    let g = stamped(g, BATTERY_ICON@, 66, 84);
    let g = line_drawn(g, 78, 85, 71, 96, 1);
    let g = stamped(g, SUN_ICON@, 24, 42);
    let g = line_drawn(g, 149, 0, 149, 128, 2);
    let g = line_drawn(g, 103, 0, 103, 20, 2);
    line_drawn(g, 103, 20, 149, 20, 2)
}

/// The units under the badge values.
pub open spec fn units_drawn(g: Seq<Seq<bool>>) -> Seq<Seq<bool>> {
    let g = text_shown(g, "%"@, 71, 120, Font::Large9x15);
    let g = text_shown(g, "kW"@, 70, 34, Font::Regular6x10);
    let g = text_shown(g, "kW"@, 27, 76, Font::Regular6x10);
    text_shown(g, "kW"@, 112, 76, Font::Regular6x10)
}

/// The static layout: badges, icons, separators and placeholder values.
pub open spec fn default_display_drawn(g: Seq<Seq<bool>>) -> Seq<Seq<bool>> {
    let g = units_drawn(badges_drawn(battery_frame_drawn(g)));
    let g = readouts_drawn(g, "0.00"@, "-0.00"@, "0.00"@, "-0.00"@, "0:00PM"@);
    total_box_drawn(default_weather_drawn(g), "00.00"@, "00.00"@)
}

impl DisplayBoxed {
    /// Writes one weather column at `offset`, each value centered by length.
    pub fn draw_row_weather_data(&mut self, rain: &str, cloud: &str, uv: &str, temp: &str, offset: i32)
        requires
            old(self).wf(),
            -0x8000 <= offset <= 0x8000,
        ensures
            final(self).wf(),
            final(self)@ == weather_row_drawn(old(self)@, rain@, cloud@, uv@, temp@, offset as int),
    {
        let base = 165 + offset;
        self.text(rain, centered_x(base, rain.len()), 27, Font::Small5x8);
        self.text(cloud, centered_x(base, cloud.len()), 38, Font::Small5x8);
        self.text(uv, centered_x(base, uv.len()), 50, Font::Small5x8);
        self.text(temp, centered_x(base, temp.len()), 62, Font::Small5x8);
    }

    fn draw_weather_separators(&mut self)
        requires
            old(self).wf(),
        ensures
            final(self).wf(),
            final(self)@ == weather_separators_drawn(old(self)@),
    {
        self.line(203, 18, 203, 65, 1);
        self.line(232, 18, 232, 65, 1);
        self.line(261, 18, 261, 65, 1);
    }

    /// Draws the weather panel with placeholder values.
    pub fn draw_default_weather(&mut self)
        requires
            old(self).wf(),
        ensures
            final(self).wf(),
            final(self)@ == default_weather_drawn(old(self)@),
    {
        self.line(149, 70, 296, 70, 2);
        self.icon(&SUN_ICON, 155, 2);
        self.draw_arrow_simple(SimpleArrowDirection::Up, 178, 3);
        self.icon(&SUN_ICON, 225, 2);
        self.draw_arrow_simple(SimpleArrowDirection::Down, 248, 3);
        self.text("00.00", 190, 12, Font::Regular6x10);
        self.text("00.00", 260, 12, Font::Regular6x10);
        self.icon(&RAIN_ICON, 155, 15);
        self.icon(&CLOUD_ICON, 155, 28);
        self.text("UV", 160, 50, Font::Regular6x10);
        self.icon(&THERMOMETER_ICON, 156, 52);
        self.draw_row_weather_data("0.0", "100.0", "0.0", "10.0", 20);
        self.draw_row_weather_data("0.0", "100.0", "0.0", "10.0", 50);
        self.draw_row_weather_data("0.0", "100.0", "0.0", "10.0", 80);
        self.draw_row_weather_data("0.0", "100.0", "0.0", "10.0", 110);
        self.draw_weather_separators();
    }

    /// Shows the four hourly slots of `h`. Each of rain, cloud cover, UV
    /// index and temperature must hold four values; otherwise nothing is
    /// drawn.
    pub fn update_weather_data(&mut self, h: &HourlyNew) -> (r: Result<(), RenderError>)
        requires
            old(self).wf(),
        ensures
            final(self).wf(),
            r is Ok <==> hourly_complete(*h),
            r is Ok ==> final(self)@ == hourly_drawn(old(self)@, *h),
            r is Err ==> r == Err::<(), RenderError>(RenderError::MissingValue) && final(self)@ == old(self)@,
    {
        if h.rain.len() < 4 || h.cloud_cover.len() < 4 || h.uv_index.len() < 4
            || h.temperature_2_m.len() < 4 {
            return Err(RenderError::MissingValue);
        }
        self.fill_solid(172, 18, 130, 50, Color::White);
        let ghost g0 = self@;
        let mut k: usize = 0;
        while k < 4
            invariant
                self.wf(),
                k <= 4,
                hourly_complete(*h),
                self@ == hourly_rows_drawn(g0, *h, k as int),
            decreases 4 - k,
        {
            let offset: i32 = 20 + 30 * (k as i32);
            self.draw_row_weather_data(
                h.rain[k].as_str(),
                h.cloud_cover[k].as_str(),
                h.uv_index[k].as_str(),
                h.temperature_2_m[k].as_str(),
                offset,
            );
            k = k + 1;
        }
        self.draw_weather_separators();
        Ok(())
    }

    /// Draws the "Total" box with generated and consumed energy.
    pub fn new_total(&mut self, house: &str, solar: &str)
        requires
            old(self).wf(),
        ensures
            final(self).wf(),
            final(self)@ == total_box_drawn(old(self)@, house@, solar@),
    {
        self.outline(100, 91, 45, 38, 1);
        self.fill_solid(113, 88, 20, 7, Color::White);
        self.text("Total", 114, 93, Font::Tiny4x6);
        self.icon(&SUN_ICON, 102, 95);
        self.text(solar, centered_x(125, solar.len()), 104, Font::Tiny4x6);
        self.icon(&HOUSE_ICON, 102, 112);
        self.text(house, centered_x(125, house.len()), 121, Font::Tiny4x6);
    }

    /// Draws the forecast chart of `data` (kW times 1000): the axis with its
    /// hour marks, the maximum in kW, and the curve of pairwise averages
    /// scaled so that the maximum is 45 pixels high. A height beyond the
    /// chart's reach (possible only with samples below zero) is cut off there.
    /// Nothing is drawn for an empty slice.
    pub fn draw_chart(&mut self, data: &[i32]) -> (r: Result<(), RenderError>)
        requires
            old(self).wf(),
            data@.len() <= 0x10000,
        ensures
            final(self).wf(),
            r is Err <==> data@.len() == 0,
            r is Err ==> r == Err::<(), RenderError>(RenderError::EmptyChart) && final(self)@ == old(self)@,
            r is Ok ==> final(self)@ == chart_drawn(old(self)@, data@),
    {
        let h = match rescale(data) {
            Some(h) => h,
            None => {
                return Err(RenderError::EmptyChart);
            },
        };
        let max = match max_in_slice(data) {
            Some(m) => m,
            None => {
                return Err(RenderError::EmptyChart);
            },
        };
        proof {
            lemma_seq_max(data@);
            assert(h@ =~= heights(data@));
        }
        self.line(153, 124, 286, 124, 1);
        self.fill_solid(217, 124, 9, 8, Color::White);
        self.fill_solid(149, 121, 2, 7, Color::White);
        self.text("0", 149, 126, Font::Tiny4x6);
        self.text("12", 218, 126, Font::Tiny4x6);
        self.text("24", 288, 126, Font::Tiny4x6);
        self.fill_solid(145, 75, 10, 8, Color::White);
        let label = max_label(max);
        let label_at: i32 = if max >= 10000 { 143 } else { 145 };
        self.text(label.as_str(), label_at, 80, Font::Tiny4x6);
        let points = polyline_points(&h);
        self.polyline(&points);
        self.text("Prediction", 256, 76, Font::Tiny4x6);
        Ok(())
    }

    /// Wipes the chart area and draws the chart of `data` anew.
    pub fn update_chart(&mut self, data: &[i32]) -> (r: Result<(), RenderError>)
        requires
            old(self).wf(),
            data@.len() <= 0x10000,
        ensures
            final(self).wf(),
            r is Err <==> data@.len() == 0,
            r is Err ==> r == Err::<(), RenderError>(RenderError::EmptyChart) && final(self)@ == old(self)@,
            r is Ok ==> final(self)@ == chart_update_drawn(old(self)@, data@),
    {
        if data.len() == 0 {
            return Err(RenderError::EmptyChart);
        }
        self.fill_solid(142, 76, 30, 5, Color::White);
        self.fill_solid(151, 75, 146, 47, Color::White);
        self.draw_chart(data)
    }

    fn draw_badges(&mut self)
        requires
            old(self).wf(),
        ensures
            final(self).wf(),
            final(self)@ == badges_drawn(old(self)@),
    {
        self.circle(55, 2, 40, 2);
        self.circle(55, 86, 40, 2);
        self.circle(13, 44, 40, 2);
        self.circle(97, 44, 40, 2);
        self.fill_solid(66, 0, 18, 15, Color::White);
        self.fill_solid(66, 84, 18, 15, Color::White);
        self.fill_solid(24, 42, 18, 15, Color::White);
        self.fill_solid(108, 42, 18, 15, Color::White);
        self.icon(&HOUSE_ICON, 66, 0);
        self.icon(&BOLT_ICON, 108, 43);
        self.icon(&BATTERY_ICON, 66, 84);
        self.line(78, 85, 71, 96, 1);
        self.icon(&SUN_ICON, 24, 42);
        self.line(149, 0, 149, 128, 2);
        self.line(103, 0, 103, 20, 2);
        self.line(103, 20, 149, 20, 2);
    }

    fn draw_units(&mut self)
        requires
            old(self).wf(),
        ensures
            final(self).wf(),
            final(self)@ == units_drawn(old(self)@),
    {
        self.text("%", 71, 120, Font::Large9x15);
        self.text("kW", 70, 34, Font::Regular6x10);
        self.text("kW", 27, 76, Font::Regular6x10);
        self.text("kW", 112, 76, Font::Regular6x10);
    }

    /// Draws the static layout over the current picture: the four badges
    /// with their icons, the separators, the units and placeholder values,
    /// the weather panel and the "Total" box.
    pub fn draw_default_display(&mut self)
        requires
            old(self).wf(),
        ensures
            final(self).wf(),
            final(self)@ == default_display_drawn(old(self)@),
    {
        self.draw_default_battery_percentage();
        self.draw_badges();
        self.draw_units();
        self.draw_text("0.00", "-0.00", "0.00", "-0.00", "0:00PM");
        self.draw_default_weather();
        self.new_total("00.00", "00.00");
    }
}

} // verus!
