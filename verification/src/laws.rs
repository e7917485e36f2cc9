//! The stated laws of the simulation, each proved once and for all states.
//!
//! Every law quantifies over a whole well-formed state and one frame, not
//! over chosen values; the scenario-level checks live in the test suite.

use crate::fixed::mulfrac;
use crate::fixed::SCALE;
use crate::keys::HeldKeys;
use crate::sim::bounce_step;
use crate::sim::bounds_ok;
use crate::sim::floor_band;
use crate::sim::gravity_step;
use crate::sim::input_phase;
use crate::sim::inv;
use crate::sim::lemma_input_bounds;
use crate::sim::lemma_physics_bounds;
use crate::sim::lemma_regen_props;
use crate::sim::max_x;
use crate::sim::move_step;
use crate::sim::physics_phase;
use crate::sim::update_spec;
use crate::sim::AppV;
use crate::sim::DT_MAX;
use crate::sim::POS_LIMIT;
use crate::sim::SIZE_MAX;
use crate::sim::SIZE_MIN;
use crate::sim::VEL_LIMIT;
use vstd::prelude::*;

verus! {

/// With no thrust request, a frame never drains the meter and never fills it
/// past full, whatever other keys are held and however large `dt` is.
pub proof fn lemma_meter_never_drains_without_thrust(s: AppV, k: HeldKeys, dt: int)
    requires
        bounds_ok(s),
        0 <= dt <= DT_MAX as int,
        !k.up,
    ensures
        s.meter <= update_spec(s, k, dt).meter <= SCALE as int,
{
    lemma_input_bounds(s, k, dt);
    lemma_physics_bounds(input_phase(s, k, dt), dt);
    lemma_regen_props(physics_phase(input_phase(s, k, dt), dt), dt);
}

/// An overheated state stays overheated until the meter is exactly full,
/// and while it holds a thrust request is a no-op: the input phase leaves
/// the vertical velocity, the meter and the heat state alone, and the frame
/// as a whole only refills the meter.
pub proof fn lemma_overheat_locks_out_thrust_until_full(s: AppV, k: HeldKeys, dt: int)
    requires
        bounds_ok(s),
        0 <= dt <= DT_MAX as int,
        s.heat is Overheated,
    ensures
        input_phase(s, k, dt).vy == s.vy,
        input_phase(s, k, dt).meter == s.meter,
        input_phase(s, k, dt).heat is Overheated,
        update_spec(s, k, dt).meter >= s.meter,
        (update_spec(s, k, dt).heat is Overheated) == (update_spec(s, k, dt).meter < SCALE
            as int),
{
    lemma_input_bounds(s, k, dt);
    lemma_physics_bounds(input_phase(s, k, dt), dt);
    lemma_regen_props(physics_phase(input_phase(s, k, dt), dt), dt);
}

/// If the position predicted from the current velocity leaves the viewport
/// past the right boundary, the physics phase flips the horizontal velocity's
/// sign and scales its magnitude by the bounce factor, and the position still
/// advances by the new velocity — it is not clamped back into range on the
/// same frame. Holds whenever the frame ends free of floor contact (floor
/// friction would further damp the horizontal velocity) and the position is
/// clear of the far numeric limit.
pub proof fn lemma_right_wall_bounce(s: AppV, dt: int)
    requires
        bounds_ok(s),
        0 <= dt <= DT_MAX as int,
        s.px + s.vx > max_x(s.size),
        s.px <= POS_LIMIT as int - VEL_LIMIT as int,
        move_step(bounce_step(gravity_step(s, dt))).py < floor_band(s.size, s.cfg.noise),
    ensures
        physics_phase(s, dt).vx == -mulfrac(s.vx, s.cfg.bounce_factor),
        physics_phase(s, dt).px == s.px + physics_phase(s, dt).vx,
{
    crate::fixed::lemma_mulfrac_contract(s.vx, s.cfg.bounce_factor, VEL_LIMIT as int);
    lemma_physics_bounds(s, dt);
}

/// The square's size never leaves its bounds: every frame preserves them, so
/// any run of grow or shrink key-frames does too.
pub proof fn lemma_size_stays_bounded(s: AppV, k: HeldKeys, dt: int)
    requires
        bounds_ok(s),
        0 <= dt <= DT_MAX as int,
    ensures
        SIZE_MIN as int <= update_spec(s, k, dt).size <= SIZE_MAX as int,
{
    lemma_input_bounds(s, k, dt);
    lemma_physics_bounds(input_phase(s, k, dt), dt);
    lemma_regen_props(physics_phase(input_phase(s, k, dt), dt), dt);
}

/// A frame with `dt == 0`, no held keys and a resting square changes
/// nothing: position, velocity, size, meter and heat state all keep their
/// values. (A moving square advances by one velocity step even at `dt == 0`,
/// because movement is integrated per frame, not per second.)
pub proof fn lemma_rest_state_fixed_under_zero_dt(s: AppV, k: HeldKeys)
    requires
        inv(s),
        s.vx == 0,
        s.vy == 0,
        k.is_empty(),
    ensures
        update_spec(s, k, 0) == s,
{
    assert(mulfrac(0, s.cfg.gravity) == 0);
    assert(mulfrac(0, s.cfg.friction) == 0);
    let rate = if s.heat is Overheated {
        s.cfg.overheat_regen_rate
    } else {
        s.cfg.regen_rate
    };
    assert(mulfrac(0, rate) == 0);
}

} // verus!
