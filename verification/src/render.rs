//! Derived render parameters.
//!
//! The drawing layer outside this crate consumes one plain value per frame:
//! the square's geometry and a meter-bar geometry whose filled height shows
//! how much thrust has been spent, colored by a three-way health indicator.

use crate::fixed::mul_frac;
use crate::fixed::mulfrac;
use crate::fixed::SCALE;
use crate::sim::bounds_ok;
use crate::sim::App;
use crate::sim::HeatState;
use vstd::prelude::*;

verus! {

/// Meter-bar width, milli-pixels.
pub const BAR_W: i64 = 30_000;

/// Meter-bar full height, milli-pixels.
pub const BAR_H: i64 = 80_000;

/// Horizontal screen offset of the meter bar, milli-pixels.
pub const BAR_X: i64 = 10_000;

/// Vertical screen offset of the meter bar, milli-pixels.
pub const BAR_Y: i64 = 10_000;

/// Meter fill at or above which the bar shows the healthy color.
pub const METER_HEALTHY: i64 = 500;

/// The meter bar's color category.
#[derive(Clone, Copy, Debug, PartialEq, Eq, Structural)]
pub enum MeterColor {
    /// The meter is at least half full and the state is not overheated.
    Healthy,
    /// The meter is below half and the state is not overheated.
    Low,
    /// The state is overheated; this overrides the meter-based colors.
    Overheated,
}

/// The three-way color rule: overheat overrides, otherwise the half-full
/// threshold decides.
pub open spec fn color_of(meter: int, heat: HeatState) -> MeterColor {
    if heat is Overheated {
        MeterColor::Overheated
    } else if meter >= METER_HEALTHY as int {
        MeterColor::Healthy
    } else {
        MeterColor::Low
    }
}

/// What the drawing layer needs for one frame, in milli-pixels.
#[derive(Clone, Copy, Debug, PartialEq, Eq, Structural)]
pub struct RenderParams {
    /// Horizontal position of the square's top-left corner.
    pub square_x: i64,
    /// Vertical position of the square's top-left corner.
    pub square_y: i64,
    /// Side length of the square.
    pub square_side: i64,
    /// Horizontal screen offset of the meter bar.
    pub bar_x: i64,
    /// Vertical screen offset of the meter bar.
    pub bar_y: i64,
    /// Width of the meter bar.
    pub bar_width: i64,
    /// Filled height of the meter bar: the spent share of the meter times the
    /// bar height.
    pub bar_fill: i64,
    /// The bar's color category.
    pub color: MeterColor,
}

impl App {
    /// The render parameters of the current state: the square as it stands,
    /// and a meter bar at a fixed screen offset whose filled height is the
    /// spent share of the meter and whose color follows `color_of`.
    pub fn render_params(&self) -> (r: RenderParams)
        requires
            bounds_ok(self@),
        ensures
            r.square_x == self@.px,
            r.square_y == self@.py,
            r.square_side == self@.size,
            r.bar_x == BAR_X,
            r.bar_y == BAR_Y,
            r.bar_width == BAR_W,
            r.bar_fill == mulfrac(BAR_H as int, SCALE as int - self@.meter),
            r.color == color_of(self@.meter, self@.heat),
    {
        let fill = mul_frac(BAR_H, SCALE - self.meter);
        let color = if self.heat == HeatState::Overheated {
            MeterColor::Overheated
        } else if self.meter >= METER_HEALTHY {
            MeterColor::Healthy
        } else {
            MeterColor::Low
        };
        RenderParams {
            square_x: self.pos_x,
            square_y: self.pos_y,
            square_side: self.square_size,
            bar_x: BAR_X,
            bar_y: BAR_Y,
            bar_width: BAR_W,
            bar_fill: fill,
            color,
        }
    }
}

} // verus!
