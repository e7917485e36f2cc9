//! Physics configuration profiles.
//!
//! The bounce, friction, gravity and meter constants differ between the
//! variants of the simulation (with or without gravity, with or without
//! friction), so they are grouped into a profile value rather than hard-coded;
//! each named constructor is one such variant.

use crate::fixed::F_MAX;
use crate::fixed::SCALE;
use vstd::prelude::*;

verus! {

/// Ghost mirror of a `Config`, with unbounded integers for the contracts.
pub ghost struct CfgV {
    /// Downward acceleration, milli-units per second squared.
    pub gravity: int,
    /// Fraction of velocity kept (sign reversed) by a bounce, in milli-units.
    pub bounce_factor: int,
    /// Fraction of the perpendicular velocity removed by contact, milli-units.
    pub friction: int,
    /// Inward margin of the contact band, as a milli-unit fraction.
    pub noise: int,
    /// Meter cost of thrust, milli-units per second.
    pub thrust_cost_rate: int,
    /// Meter regeneration, milli-units per second.
    pub regen_rate: int,
    /// Meter regeneration while overheated, milli-units per second.
    pub overheat_regen_rate: int,
    /// Whether the ceiling reflects, as it does in the gravity-free variant.
    pub bounce_ceiling: bool,
}

/// One physics profile: every tunable constant of the simulation, in
/// milli-units (`1000` stands for `1.0`).
#[derive(Clone, Copy, Debug, PartialEq, Eq, Structural)]
pub struct Config {
    /// Downward acceleration, milli-units per second squared.
    pub gravity: i64,
    /// Fraction of velocity kept (sign reversed) by a bounce, in milli-units.
    pub bounce_factor: i64,
    /// Fraction of the perpendicular velocity removed by contact, milli-units.
    pub friction: i64,
    /// Inward margin of the contact band, as a milli-unit fraction.
    pub noise: i64,
    /// Meter cost of thrust, milli-units per second.
    pub thrust_cost_rate: i64,
    /// Meter regeneration, milli-units per second.
    pub regen_rate: i64,
    /// Meter regeneration while overheated, milli-units per second.
    pub overheat_regen_rate: i64,
    /// Whether the ceiling reflects, as it does in the gravity-free variant.
    pub bounce_ceiling: bool,
}

impl View for Config {
    type V = CfgV;

    open spec fn view(&self) -> CfgV {
        CfgV {
            gravity: self.gravity as int,
            bounce_factor: self.bounce_factor as int,
            friction: self.friction as int,
            noise: self.noise as int,
            thrust_cost_rate: self.thrust_cost_rate as int,
            regen_rate: self.regen_rate as int,
            overheat_regen_rate: self.overheat_regen_rate as int,
            bounce_ceiling: self.bounce_ceiling,
        }
    }
}

/// A well-formed profile: every rate is nonnegative and bounded, the bounce
/// factor is a proper fraction, and friction and noise are fractions.
pub open spec fn cfg_ok(c: CfgV) -> bool {
    &&& 0 <= c.gravity <= F_MAX as int
    &&& 0 < c.bounce_factor < SCALE as int
    &&& 0 <= c.friction <= SCALE as int
    &&& 0 <= c.noise <= SCALE as int
    &&& 0 <= c.thrust_cost_rate <= F_MAX as int
    &&& 0 <= c.regen_rate <= F_MAX as int
    &&& 0 <= c.overheat_regen_rate <= F_MAX as int
}

/// The jetpack profile: gravity, damped bounces, contact friction, and a
/// thrust meter that refills at half speed while overheated.
pub open spec fn jetpack_profile() -> CfgV {
    CfgV {
        gravity: 9800,
        bounce_factor: 500,
        friction: 9,
        noise: 10,
        thrust_cost_rate: 1500,
        regen_rate: 500,
        overheat_regen_rate: 250,
        bounce_ceiling: false,
    }
}

/// The arcade profile: no gravity, no friction, and a reflecting ceiling.
pub open spec fn arcade_profile() -> CfgV {
    CfgV {
        gravity: 0,
        bounce_factor: 500,
        friction: 0,
        noise: 10,
        thrust_cost_rate: 1500,
        regen_rate: 500,
        overheat_regen_rate: 250,
        bounce_ceiling: true,
    }
}

impl Config {
    /// The jetpack profile: gravity, damped bounces, contact friction, and a
    /// thrust meter that refills at half speed while overheated.
    pub fn jetpack() -> (r: Config)
        ensures
            r@ == jetpack_profile(),
            cfg_ok(r@),
    {
        Config {
            gravity: 9800,
            bounce_factor: 500,
            friction: 9,
            noise: 10,
            thrust_cost_rate: 1500,
            regen_rate: 500,
            overheat_regen_rate: 250,
            bounce_ceiling: false,
        }
    }

    /// The arcade profile: no gravity, no friction, and a reflecting ceiling.
    pub fn arcade() -> (r: Config)
        ensures
            r@ == arcade_profile(),
            cfg_ok(r@),
    {
        Config {
            gravity: 0,
            bounce_factor: 500,
            friction: 0,
            noise: 10,
            thrust_cost_rate: 1500,
            regen_rate: 500,
            overheat_regen_rate: 250,
            bounce_ceiling: true,
        }
    }
}

} // verus!
