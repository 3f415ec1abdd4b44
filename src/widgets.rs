//! The widget renderers. Each paints one region of the panel from the values
//! it is given, and its contract names the primitives it draws, in order.
use vstd::prelude::*;
use vstd::string::StringExecFns;
use epd_waveshare::color::Color;
use crate::surface::DisplayBoxed;
use crate::surface::Font;
use crate::surface::filled;
use crate::surface::line_drawn;
use crate::surface::painted;
use crate::surface::text_shown;
use crate::layout::centered;
use crate::layout::centered_x;
use crate::layout::text_len;

verus! {

/// Direction of an arrowhead on a connection.
#[derive(Debug, Clone, Copy, PartialEq, Eq)]
pub enum ArrowDirection {
    Left,
    Right,
    Down,
    Up,
}

/// Direction of the small sunrise and sunset arrows.
#[derive(Debug, Clone, Copy, PartialEq, Eq)]
pub enum SimpleArrowDirection {
    Up,
    Down,
}

/// A connector line from the middle to one badge; `true` adds its arrowhead.
#[derive(Debug, Clone, Copy, PartialEq, Eq)]
pub enum ConnectionDirection {
    Top(bool),
    Right(bool),
    Left(bool),
    Bottom(bool),
}

/// Why a widget refused its values. Nothing is drawn when it does.
#[derive(Debug, Clone, Copy, PartialEq, Eq)]
pub enum RenderError {
    /// A value is longer than its field allows.
    TextTooLong,
    /// A value is empty where one character at least is needed.
    TextEmpty,
    /// A list holds fewer values than the widget shows.
    MissingValue,
    /// A chart needs one sample at least.
    EmptyChart,
}

/// Three-character position of the house badge value.
pub const TOP_BASE: i32 = 65;

/// Three-character position of the battery badge value.
pub const BOTTOM_BASE: i32 = 68;

/// Three-character position of the solar badge value.
pub const LEFT_BASE: i32 = 22;

/// Three-character position of the grid badge value.
pub const RIGHT_BASE: i32 = 103;

/// Where the time of the reading starts: a six-character time sits further
/// right.
pub open spec fn time_x(len: int) -> int {
    if len == 6 {
        110
    } else {
        107
    }
}

/// The arrowhead drawn for `d`.
pub open spec fn arrow_drawn(g: Seq<Seq<bool>>, d: ArrowDirection) -> Seq<Seq<bool>> {
    match d {
        ArrowDirection::Up => line_drawn(line_drawn(g, 75, 44, 82, 51, 1), 74, 44, 67, 51, 1),
        ArrowDirection::Right => line_drawn(line_drawn(g, 94, 63, 87, 56, 1), 94, 64, 87, 71, 1),
        ArrowDirection::Down => line_drawn(line_drawn(g, 74, 82, 67, 75, 1), 75, 82, 82, 75, 1),
        ArrowDirection::Left => line_drawn(line_drawn(g, 55, 64, 62, 71, 1), 55, 63, 62, 56, 1),
    }
}

/// `g` with `d`'s arrowhead when `head` holds.
pub open spec fn maybe_arrow(g: Seq<Seq<bool>>, head: bool, d: ArrowDirection) -> Seq<Seq<bool>> {
    if head {
        arrow_drawn(g, d)
    } else {
        g
    }
}

/// The connector line of `c`, with its arrowhead when asked for.
pub open spec fn connection_drawn(g: Seq<Seq<bool>>, c: ConnectionDirection) -> Seq<Seq<bool>> {
    match c {
        ConnectionDirection::Top(head) => maybe_arrow(
            line_drawn(g, 75, 64, 75, 44, 2),
            head,
            ArrowDirection::Up,
        ),
        ConnectionDirection::Left(head) => maybe_arrow(
            line_drawn(g, 74, 63, 55, 63, 2),
            head,
            ArrowDirection::Left,
        ),
        ConnectionDirection::Right(head) => maybe_arrow(
            line_drawn(g, 74, 64, 94, 64, 2),
            head,
            ArrowDirection::Right,
        ),
        ConnectionDirection::Bottom(head) => maybe_arrow(
            line_drawn(g, 74, 64, 74, 82, 2),
            head,
            ArrowDirection::Down,
        ),
    }
}

/// The small sunrise or sunset arrow starting at (sx, sy).
pub open spec fn simple_arrow_drawn(g: Seq<Seq<bool>>, d: SimpleArrowDirection, sx: int, sy: int) -> Seq<Seq<bool>> {
    match d {
        SimpleArrowDirection::Up => {
            let g = line_drawn(g, sx, sy, sx, sy + 11, 2);
            let g = line_drawn(g, sx, sy, sx + 6, sy + 6, 2);
            let g = line_drawn(g, sx, sy, sx - 6, sy + 6, 2);
            painted(g, sx - 6, sy + 6, true)
        },
        SimpleArrowDirection::Down => {
            let g = line_drawn(g, sx, sy, sx, sy + 11, 2);
            let g = line_drawn(g, sx + 1, sy + 11, sx - 5, sy + 5, 2);
            let g = line_drawn(g, sx + 1, sy + 11, sx + 7, sy + 5, 2);
            painted(g, sx + 7, sy + 5, true)
        },
    }
}

/// The five readouts: house, battery, solar and grid badges and the time.
pub open spec fn readouts_drawn(
    g: Seq<Seq<bool>>,
    top: Seq<char>,
    bottom: Seq<char>,
    left: Seq<char>,
    right: Seq<char>,
    time: Seq<char>,
) -> Seq<Seq<bool>> {
    let g = text_shown(g, top, centered(TOP_BASE as int, text_len(top)), 23, Font::Regular6x10);
    let g = text_shown(g, bottom, centered(BOTTOM_BASE as int, text_len(bottom)), 107, Font::Regular6x10);
    let g = text_shown(g, left, centered(LEFT_BASE as int, text_len(left)), 65, Font::Regular6x10);
    let g = text_shown(g, right, centered(RIGHT_BASE as int, text_len(right)), 65, Font::Regular6x10);
    text_shown(g, time, time_x(text_len(time)), 10, Font::Regular6x10)
}

/// The readout areas wiped white.
pub open spec fn readouts_cleared(g: Seq<Seq<bool>>) -> Seq<Seq<bool>> {
    let g = filled(g, 65, 15, 25, 10, false);
    let g = filled(g, 60, 99, 30, 10, false);
    let g = filled(g, 22, 57, 25, 10, false);
    let g = filled(g, 102, 57, 30, 10, false);
    filled(g, 105, 1, 42, 18, false)
}

/// The connection banner in the lower left corner.
pub open spec fn connected_drawn(g: Seq<Seq<bool>>) -> Seq<Seq<bool>> {
    let g = line_drawn(g, 0, 118, 40, 118, 1);
    let g = line_drawn(g, 40, 118, 40, 128, 1);
    text_shown(g, "Connected"@, 2, 125, Font::Tiny4x6)
}

/// The battery percentage box as first drawn.
pub open spec fn battery_frame_drawn(g: Seq<Seq<bool>>) -> Seq<Seq<bool>> {
    let g = line_drawn(g, 30, 0, 30, 15, 2);
    let g = line_drawn(g, 0, 15, 30, 15, 2);
    text_shown(g, "100%"@, 3, 10, Font::Regular6x10)
}

/// Horizontal offset of a percentage of `len` characters.
pub open spec fn percent_offset(len: int) -> int {
    if len == 3 {
        0
    } else if len == 2 {
        5
    } else {
        10
    }
}

/// The battery percentage box showing `p`.
pub open spec fn percentage_drawn(g: Seq<Seq<bool>>, p: Seq<char>) -> Seq<Seq<bool>> {
    let g = filled(g, 1, 1, 28, 12, false);
    text_shown(g, p + seq!['%'], 3 + percent_offset(text_len(p)), 10, Font::Regular6x10)
}

/// The sunrise and sunset times.
pub open spec fn sun_times_drawn(g: Seq<Seq<bool>>, sunrise: Seq<char>, sunset: Seq<char>) -> Seq<Seq<bool>> {
    let g = filled(g, 190, 3, 30, 12, false);
    let g = filled(g, 260, 3, 30, 12, false);
    let g = text_shown(g, sunrise, 190, 12, Font::Regular6x10);
    text_shown(g, sunset, 260, 12, Font::Regular6x10)
}

/// A status message in the middle of the panel.
pub open spec fn status_drawn(g: Seq<Seq<bool>>, msg: Seq<char>) -> Seq<Seq<bool>> {
    text_shown(g, msg, 58, 64, Font::Large9x15)
}

/// The status message area wiped white.
pub open spec fn status_cleared(g: Seq<Seq<bool>>) -> Seq<Seq<bool>> {
    filled(g, 58, 50, 180, 20, false)
}

/// Three-character position of the values in the "Total" box.
pub const TOTAL_BASE: i32 = 125;

/// The two values of the "Total" box: generated above, consumed below.
pub open spec fn total_values_drawn(g: Seq<Seq<bool>>, house: Seq<char>, solar: Seq<char>) -> Seq<Seq<bool>> {
    let g = text_shown(g, solar, centered(TOTAL_BASE as int, text_len(solar)), 104, Font::Tiny4x6);
    text_shown(g, house, centered(TOTAL_BASE as int, text_len(house)), 121, Font::Tiny4x6)
}

/// The "Total" box with fresh values.
pub open spec fn total_update_drawn(g: Seq<Seq<bool>>, house: Seq<char>, solar: Seq<char>) -> Seq<Seq<bool>> {
    total_values_drawn(filled(g, 120, 97, 23, 30, false), house, solar)
}

/// The larger day totals, drawn in the right half.
pub open spec fn total_display_drawn(g: Seq<Seq<bool>>, consumption: Seq<char>, generated: Seq<char>) -> Seq<Seq<bool>> {
    let g = filled(g, 205, 90, 45, 12, false);
    let g = filled(g, 205, 110, 45, 12, false);
    let g = text_shown(g, generated, 205, 100, Font::Large9x15);
    text_shown(g, consumption, 205, 120, Font::Large9x15)
}

impl DisplayBoxed {
    /// Draws the arrowhead of direction `d`.
    pub fn draw_arrow(&mut self, d: ArrowDirection)
        requires
            old(self).wf(),
        ensures
            final(self).wf(),
            final(self)@ == arrow_drawn(old(self)@, d),
    {
        match d {
            ArrowDirection::Up => {
                self.line(75, 44, 82, 51, 1);
                self.line(74, 44, 67, 51, 1);
            },
            ArrowDirection::Right => {
                self.line(94, 63, 87, 56, 1);
                self.line(94, 64, 87, 71, 1);
            },
            ArrowDirection::Down => {
                self.line(74, 82, 67, 75, 1);
                self.line(75, 82, 82, 75, 1);
            },
            ArrowDirection::Left => {
                self.line(55, 64, 62, 71, 1);
                self.line(55, 63, 62, 56, 1);
            },
        }
    }

    /// Draws the connector line of `c`, and its arrowhead when asked for.
    pub fn draw_connections(&mut self, c: ConnectionDirection)
        requires
            old(self).wf(),
        ensures
            final(self).wf(),
            final(self)@ == connection_drawn(old(self)@, c),
    {
        match c {
            ConnectionDirection::Top(head) => {
                self.line(75, 64, 75, 44, 2);
                if head {
                    self.draw_arrow(ArrowDirection::Up);
                }
            },
            ConnectionDirection::Left(head) => {
                self.line(74, 63, 55, 63, 2);
                if head {
                    self.draw_arrow(ArrowDirection::Left);
                }
            },
            ConnectionDirection::Right(head) => {
                self.line(74, 64, 94, 64, 2);
                if head {
                    self.draw_arrow(ArrowDirection::Right);
                }
            },
            ConnectionDirection::Bottom(head) => {
                self.line(74, 64, 74, 82, 2);
                if head {
                    self.draw_arrow(ArrowDirection::Down);
                }
            },
        }
    }

    /// Draws the small sunrise or sunset arrow starting at (sx, sy).
    pub fn draw_arrow_simple(&mut self, d: SimpleArrowDirection, sx: i32, sy: i32)
        requires
            old(self).wf(),
            -900 <= sx <= 900,
            -900 <= sy <= 900,
        ensures
            final(self).wf(),
            final(self)@ == simple_arrow_drawn(old(self)@, d, sx as int, sy as int),
    {
        match d {
            SimpleArrowDirection::Up => {
                self.line(sx, sy, sx, sy + 11, 2);
                self.line(sx, sy, sx + 6, sy + 6, 2);
                self.line(sx, sy, sx - 6, sy + 6, 2);
                self.set_pixel(sx - 6, sy + 6, Color::Black);
            },
            SimpleArrowDirection::Down => {
                self.line(sx, sy, sx, sy + 11, 2);
                self.line(sx + 1, sy + 11, sx - 5, sy + 5, 2);
                self.line(sx + 1, sy + 11, sx + 7, sy + 5, 2);
                self.set_pixel(sx + 7, sy + 5, Color::Black);
            },
        }
    }

    /// Writes the four badge values and the time; each badge value is
    /// centered by its length.
    pub fn draw_text(&mut self, top: &str, bottom: &str, left: &str, right: &str, update: &str)
        requires
            old(self).wf(),
        ensures
            final(self).wf(),
            final(self)@ == readouts_drawn(old(self)@, top@, bottom@, left@, right@, update@),
    {
        self.text(top, centered_x(TOP_BASE, top.len()), 23, Font::Regular6x10);
        self.text(bottom, centered_x(BOTTOM_BASE, bottom.len()), 107, Font::Regular6x10);
        self.text(left, centered_x(LEFT_BASE, left.len()), 65, Font::Regular6x10);
        self.text(right, centered_x(RIGHT_BASE, right.len()), 65, Font::Regular6x10);
        let time_at: i32 = if update.len() == 6 { 110 } else { 107 };
        self.text(update, time_at, 10, Font::Regular6x10);
    }

    /// Wipes the areas of the four badge values and the time.
    pub fn clear_text(&mut self)
        requires
            old(self).wf(),
        ensures
            final(self).wf(),
            final(self)@ == readouts_cleared(old(self)@),
    {
        self.fill_solid(65, 15, 25, 10, Color::White);
        self.fill_solid(60, 99, 30, 10, Color::White);
        self.fill_solid(22, 57, 25, 10, Color::White);
        self.fill_solid(102, 57, 30, 10, Color::White);
        self.fill_solid(105, 1, 42, 18, Color::White);
    }

    /// Writes `message` under the battery badge.
    pub fn display_error_message(&mut self, message: &str)
        requires
            old(self).wf(),
        ensures
            final(self).wf(),
            final(self)@ == text_shown(old(self)@, message@, 58, 100, Font::Regular6x10),
    {
        self.text(message, 58, 100, Font::Regular6x10);
    }

    /// Draws the "Connected" banner.
    pub fn set_connected(&mut self)
        requires
            old(self).wf(),
        ensures
            final(self).wf(),
            final(self)@ == connected_drawn(old(self)@),
    {
        self.line(0, 118, 40, 118, 1);
        self.line(40, 118, 40, 128, 1);
        self.text("Connected", 2, 125, Font::Tiny4x6);
    }

    /// Draws the battery percentage box as it first appears.
    pub fn draw_default_battery_percentage(&mut self)
        requires
            old(self).wf(),
        ensures
            final(self).wf(),
            final(self)@ == battery_frame_drawn(old(self)@),
    {
        self.line(30, 0, 30, 15, 2);
        self.line(0, 15, 30, 15, 2);
        self.text("100%", 3, 10, Font::Regular6x10);
    }

    /// Shows `percentage` (one to three characters) with a percent sign.
    pub fn update_battery_percentage(&mut self, percentage: &str) -> (r: Result<(), RenderError>)
        requires
            old(self).wf(),
        ensures
            final(self).wf(),
            text_len(percentage@) > 3 <==> r == Err::<(), RenderError>(RenderError::TextTooLong),
            text_len(percentage@) < 1 <==> r == Err::<(), RenderError>(RenderError::TextEmpty),
            r is Ok ==> final(self)@ == percentage_drawn(old(self)@, percentage@),
            r is Err ==> final(self)@ == old(self)@,
    {
        let len = percentage.len();
        if len > 3 {
            return Err(RenderError::TextTooLong);
        }
        if len < 1 {
            return Err(RenderError::TextEmpty);
        }
        self.fill_solid(1, 1, 28, 12, Color::White);
        let offset: i32 = if len == 3 { 0 } else if len == 2 { 5 } else { 10 };
        proof {
            reveal_strlit("%");
        }
        let mut label = String::from_str(percentage);
        label.append("%");
        assert(label@ =~= percentage@ + seq!['%']);
        self.text(label.as_str(), 3 + offset, 10, Font::Regular6x10);
        Ok(())
    }

    /// Shows the sunrise and sunset times, five characters at most each.
    pub fn update_sun_data(&mut self, sunrise: &str, sunset: &str) -> (r: Result<(), RenderError>)
        requires
            old(self).wf(),
        ensures
            final(self).wf(),
            r is Err <==> text_len(sunrise@) > 5 || text_len(sunset@) > 5,
            r is Err ==> r == Err::<(), RenderError>(RenderError::TextTooLong) && final(self)@ == old(self)@,
            r is Ok ==> final(self)@ == sun_times_drawn(old(self)@, sunrise@, sunset@),
    {
        if sunset.len() > 5 || sunrise.len() > 5 {
            return Err(RenderError::TextTooLong);
        }
        self.fill_solid(190, 3, 30, 12, Color::White);
        self.fill_solid(260, 3, 30, 12, Color::White);
        self.text(sunrise, 190, 12, Font::Regular6x10);
        self.text(sunset, 260, 12, Font::Regular6x10);
        Ok(())
    }

    /// Writes a status message in the middle of the panel.
    pub fn draw_status_message(&mut self, msg: &str)
        requires
            old(self).wf(),
        ensures
            final(self).wf(),
            final(self)@ == status_drawn(old(self)@, msg@),
    {
        self.text(msg, 58, 64, Font::Large9x15);
    }

    /// Wipes the status message area.
    pub fn clear_status_message(&mut self)
        requires
            old(self).wf(),
        ensures
            final(self).wf(),
            final(self)@ == status_cleared(old(self)@),
    {
        self.fill_solid(58, 50, 180, 20, Color::White);
    }

    /// Replaces the two values of the "Total" box.
    pub fn update_total_new(&mut self, house: &str, solar: &str)
        requires
            old(self).wf(),
        ensures
            final(self).wf(),
            final(self)@ == total_update_drawn(old(self)@, house@, solar@),
    {
        self.fill_solid(120, 97, 23, 30, Color::White);
        self.draw_total_values(house, solar);
    }

    fn draw_total_values(&mut self, house: &str, solar: &str)
        requires
            old(self).wf(),
        ensures
            final(self).wf(),
            final(self)@ == total_values_drawn(old(self)@, house@, solar@),
    {
        self.text(solar, centered_x(TOTAL_BASE, solar.len()), 104, Font::Tiny4x6);
        self.text(house, centered_x(TOTAL_BASE, house.len()), 121, Font::Tiny4x6);
    }

    /// Shows the day totals in large type, five characters at most each.
    pub fn update_total_display(&mut self, consumption: &str, generated: &str) -> (r: Result<(), RenderError>)
        requires
            old(self).wf(),
        ensures
            final(self).wf(),
            r is Err <==> text_len(consumption@) > 5 || text_len(generated@) > 5,
            r is Err ==> r == Err::<(), RenderError>(RenderError::TextTooLong) && final(self)@ == old(self)@,
            r is Ok ==> final(self)@ == total_display_drawn(old(self)@, consumption@, generated@),
    {
        if consumption.len() > 5 || generated.len() > 5 {
            return Err(RenderError::TextTooLong);
        }
        self.fill_solid(205, 90, 45, 12, Color::White);
        self.fill_solid(205, 110, 45, 12, Color::White);
        self.text(generated, 205, 100, Font::Large9x15);
        self.text(consumption, 205, 120, Font::Large9x15);
        Ok(())
    }
}

} // verus!
