//! Placement rules shared by the widgets: horizontal centering of numbers in
//! their badges and the direction of a power flow.
use vstd::prelude::*;
use vstd::string::StringExecFns;
use crate::text::is_negative_text;
use crate::text::starts_with_minus;
use crate::text::text_equals;

verus! {

/// Where a value of `len` characters starts in a badge whose three-character
/// position is `base`: one character sits 9 pixels right of it, four or more
/// sit 4 pixels left of it, anything else at `base`.
pub open spec fn centered(base: int, len: int) -> int {
    if len == 1 {
        base + 9
    } else if len >= 4 {
        base - 4
    } else {
        base
    }
}

/// The x position of a value of `len` characters in a badge based at `base`.
pub fn centered_x(base: i32, len: usize) -> (r: i32)
    requires
        i32::MIN + 4 <= base <= i32::MAX - 9,
    ensures
        r == centered(base as int, len as int),
{
    if len == 1 {
        base + 9
    } else if len >= 4 {
        base - 4
    } else {
        base
    }
}

/// The length in bytes of a text, as the renderers measure it.
pub open spec fn text_len(s: Seq<char>) -> int {
    (vstd::utf8::encode_utf8(s).len() as usize) as int
}

/// Which way power flows on a connection.
#[derive(Debug, Clone, Copy, PartialEq, Eq)]
pub enum Flow {
    /// The value reads "0.00" or "-0.00": nothing flows.
    Idle,
    /// A value without a leading minus.
    Forward,
    /// A value with a leading minus.
    Backward,
}

/// Whether a value reads as zero, with or without a sign.
pub open spec fn is_zero_text(s: Seq<char>) -> bool {
    s == seq!['0', '.', '0', '0'] || s == seq!['-', '0', '.', '0', '0']
}

/// The flow a value stands for, read from its sign alone.
pub open spec fn flow_of(s: Seq<char>) -> Flow {
    if is_zero_text(s) {
        Flow::Idle
    } else if is_negative_text(s) {
        Flow::Backward
    } else {
        Flow::Forward
    }
}

/// The flow that the text `s` stands for.
pub fn flow_direction(s: &str) -> (r: Flow)
    ensures
        r == flow_of(s@),
{
    proof {
        reveal_strlit("0.00");
        reveal_strlit("-0.00");
        assert("0.00"@ =~= seq!['0', '.', '0', '0']);
        assert("-0.00"@ =~= seq!['-', '0', '.', '0', '0']);
    }
    if text_equals(s, "0.00") || text_equals(s, "-0.00") {
        Flow::Idle
    } else if starts_with_minus(s) {
        Flow::Backward
    } else {
        Flow::Forward
    }
}

/// The battery label: the charge with "+" while charging, "-" while
/// discharging, and bare while idle.
pub open spec fn battery_label(flow: Seq<char>, charge: Seq<char>) -> Seq<char> {
    match flow_of(flow) {
        Flow::Forward => seq!['+'] + charge,
        Flow::Backward => seq!['-'] + charge,
        Flow::Idle => charge,
    }
}

/// The grid label: the value as sent when negative, else with a "+".
pub open spec fn grid_label(grid: Seq<char>) -> Seq<char> {
    if is_negative_text(grid) {
        grid
    } else {
        seq!['+'] + grid
    }
}

/// Builds the battery label of `charge` for the battery flow `flow`.
pub fn battery_text(flow: &str, charge: &str) -> (r: String)
    ensures
        r@ == battery_label(flow@, charge@),
{
    proof {
        reveal_strlit("+");
        reveal_strlit("-");
    }
    match flow_direction(flow) {
        Flow::Forward => {
            let mut r = String::from_str("+");
            r.append(charge);
            r
        },
        Flow::Backward => {
            let mut r = String::from_str("-");
            r.append(charge);
            r
        },
        Flow::Idle => String::from_str(charge),
    }
}

/// Builds the grid label of `grid`.
pub fn grid_text(grid: &str) -> (r: String)
    ensures
        r@ == grid_label(grid@),
{
    proof {
        reveal_strlit("+");
    }
    if starts_with_minus(grid) {
        String::from_str(grid)
    } else {
        let mut r = String::from_str("+");
        r.append(grid);
        r
    }
}

} // verus!
