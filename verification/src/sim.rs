//! The per-frame physics-and-input step.
//!
//! `App` owns the square's position, velocity and size, the thrust meter and
//! the heat state. One frame is `update`, which runs three phases in
//! order: the input phase applies the held keys (`process_input`), the
//! physics phase integrates gravity, bounce, movement and friction
//! (`apply_physics`), and the meter phase regenerates the thrust meter and
//! cools an overheated state down once the meter is full again
//! (`regen_meter`). Each phase is specified exactly by a spec function over
//! the ghost mirror `AppV`, and `update` is their composition.

use crate::config::cfg_ok;
use crate::config::jetpack_profile;
use crate::config::CfgV;
use crate::config::Config;
use crate::fixed::clamp;
use crate::fixed::clamp_i64;
use crate::fixed::lemma_friction_step;
use crate::fixed::lemma_mulfrac_bound;
use crate::fixed::lemma_mulfrac_contract;
use crate::fixed::lemma_mulfrac_nonneg;
use crate::fixed::mul_frac;
use crate::fixed::mulfrac;
use crate::fixed::F_MAX;
use crate::fixed::SCALE;
use crate::keys::HeldKeys;
use vstd::prelude::*;

verus! {

/// Viewport width in milli-pixels (800 px).
pub const VIEW_W: i64 = 800_000;

/// Viewport height in milli-pixels (600 px).
pub const VIEW_H: i64 = 600_000;

/// Largest velocity magnitude the state may hold, milli-pixels per frame.
pub const VEL_LIMIT: i64 = 1_000_000_000_000;

/// Largest position magnitude the state may hold, milli-pixels.
pub const POS_LIMIT: i64 = 1_000_000_000_000_000;

/// Largest frame delta accepted by one update, milli-seconds.
pub const DT_MAX: i64 = 1_000_000_000;

/// Horizontal acceleration per held steering key, milli-pixels per frame.
pub const STEER_STEP: i64 = 100;

/// Base upward impulse of one thrust frame, milli-pixels per frame.
pub const THRUST_IMPULSE: i64 = 150;

/// Square size at which thrust is neither lightened nor weighed down.
pub const BASE_SIZE: i64 = 50_000;

/// How strongly the square's size scales the thrust impulse, milli-units.
pub const WEIGHT_COEFF: i64 = 20;

/// Smallest square side, milli-pixels.
pub const SIZE_MIN: i64 = 25_000;

/// Largest square side, milli-pixels.
pub const SIZE_MAX: i64 = 70_000;

/// Size change per grow or shrink key-frame, milli-pixels.
pub const SIZE_STEP: i64 = 500;

/// The thrust lockout state machine, with two transitions: `Normal` moves to
/// `Overheated` when a thrust attempt would exhaust the meter, and
/// `Overheated` moves back to `Normal` when the meter refills completely.
#[derive(Clone, Copy, Debug, PartialEq, Eq, Structural)]
pub enum HeatState {
    /// Thrust is available while the meter can pay for it.
    Normal,
    /// Thrust requests are ignored until the meter is full again.
    Overheated,
}

/// Ghost mirror of an `App`, with unbounded integers for the contracts.
pub ghost struct AppV {
    /// Horizontal position of the square's top-left corner, milli-pixels.
    pub px: int,
    /// Vertical position of the square's top-left corner, milli-pixels.
    pub py: int,
    /// Horizontal velocity, milli-pixels per frame.
    pub vx: int,
    /// Vertical velocity, milli-pixels per frame; positive is downward.
    pub vy: int,
    /// Thrust meter fill, milli-units of one full tank.
    pub meter: int,
    /// Side length of the square, milli-pixels.
    pub size: int,
    /// Whether thrust is available or locked out.
    pub heat: HeatState,
    /// The physics profile in force.
    pub cfg: CfgV,
}

/// The square that bounces inside the viewport: position, velocity, size,
/// thrust meter, heat state, and the physics profile in force.
#[derive(Clone, Copy, Debug, PartialEq, Eq, Structural)]
pub struct App {
    /// Horizontal position of the square's top-left corner, milli-pixels.
    pub pos_x: i64,
    /// Vertical position of the square's top-left corner, milli-pixels.
    pub pos_y: i64,
    /// Horizontal velocity, milli-pixels per frame.
    pub vel_x: i64,
    /// Vertical velocity, milli-pixels per frame; positive is downward.
    pub vel_y: i64,
    /// Thrust meter fill, milli-units of one full tank.
    pub meter: i64,
    /// Side length of the square, milli-pixels.
    pub square_size: i64,
    /// Whether thrust is available or locked out.
    pub heat: HeatState,
    /// The physics profile in force.
    pub cfg: Config,
}

impl View for App {
    type V = AppV;

    open spec fn view(&self) -> AppV {
        AppV {
            px: self.pos_x as int,
            py: self.pos_y as int,
            vx: self.vel_x as int,
            vy: self.vel_y as int,
            meter: self.meter as int,
            size: self.square_size as int,
            heat: self.heat,
            cfg: self.cfg@,
        }
    }
}

/// Largest in-bounds horizontal position of a square of side `size`.
pub open spec fn max_x(size: int) -> int {
    VIEW_W as int - size
}

/// Largest in-bounds vertical position of a square of side `size`.
pub open spec fn max_y(size: int) -> int {
    VIEW_H as int - size
}

/// Horizontal positions at or past this count as wall contact (the margin
/// `noise` keeps a square that jitters at the edge in contact).
pub open spec fn wall_band(size: int, noise: int) -> int {
    mulfrac(max_x(size), SCALE as int - noise)
}

/// Vertical positions at or past this count as floor contact.
pub open spec fn floor_band(size: int, noise: int) -> int {
    mulfrac(max_y(size), SCALE as int - noise)
}

/// All numeric fields of the state are inside their machine bounds and the
/// profile is well formed.
pub open spec fn bounds_ok(s: AppV) -> bool {
    &&& -(POS_LIMIT as int) <= s.px <= POS_LIMIT as int
    &&& -(POS_LIMIT as int) <= s.py <= POS_LIMIT as int
    &&& -(VEL_LIMIT as int) <= s.vx <= VEL_LIMIT as int
    &&& -(VEL_LIMIT as int) <= s.vy <= VEL_LIMIT as int
    &&& 0 <= s.meter <= SCALE as int
    &&& SIZE_MIN as int <= s.size <= SIZE_MAX as int
    &&& cfg_ok(s.cfg)
}

/// The state invariant: bounds hold, and an overheated state always has a
/// part-filled meter, because the lockout ends the moment the meter is full.
pub open spec fn inv(s: AppV) -> bool {
    &&& bounds_ok(s)
    &&& s.heat is Overheated ==> s.meter < SCALE as int
}

/// Held steering keys accelerate the square horizontally by a constant step.
pub open spec fn steer(s: AppV, k: HeldKeys) -> AppV {
    let vx1 = if k.right {
        clamp(s.vx + STEER_STEP as int, -(VEL_LIMIT as int), VEL_LIMIT as int)
    } else {
        s.vx
    };
    let vx2 = if k.left {
        clamp(vx1 - STEER_STEP as int, -(VEL_LIMIT as int), VEL_LIMIT as int)
    } else {
        vx1
    };
    AppV { vx: vx2, ..s }
}

/// The upward impulse of one thrust frame: the base impulse scaled by a
/// weight factor that makes a smaller square lighter and a larger one
/// heavier.
pub open spec fn thrust_impulse(size: int) -> int {
    mulfrac(
        THRUST_IMPULSE as int,
        SCALE as int + mulfrac(BASE_SIZE as int - size, WEIGHT_COEFF as int),
    )
}

/// The thrust policy. A held up key costs `dt` times the cost rate. In the
/// `Normal` state, if the meter would stay above zero the cost is drained and
/// the impulse applied, and if the attempt would exhaust the meter the state
/// overheats instead and nothing is drained; in the `Overheated` state the
/// request is ignored entirely.
pub open spec fn thrust(s: AppV, k: HeldKeys, dt: int) -> AppV {
    if !k.up {
        s
    } else {
        let cost = mulfrac(dt, s.cfg.thrust_cost_rate);
        if s.heat is Normal && s.meter - cost > 0 {
            AppV {
                meter: s.meter - cost,
                vy: clamp(s.vy - thrust_impulse(s.size), -(VEL_LIMIT as int), VEL_LIMIT as int),
                ..s
            }
        } else if s.heat is Normal {
            AppV { heat: HeatState::Overheated, ..s }
        } else {
            s
        }
    }
}

/// How much a grow key-frame may add to `size` without leaving its bounds.
pub open spec fn grow_step(size: int) -> int {
    if (SIZE_MAX as int) - size < (SIZE_STEP as int) {
        SIZE_MAX as int - size
    } else {
        SIZE_STEP as int
    }
}

/// How much a shrink key-frame may remove from `size`.
pub open spec fn shrink_step(size: int) -> int {
    if size - (SIZE_MIN as int) < (SIZE_STEP as int) {
        size - SIZE_MIN as int
    } else {
        SIZE_STEP as int
    }
}

/// Held size keys grow or shrink the square inside its bounds; growth lifts
/// the top edge so the square grows upward from its current footprint.
pub open spec fn resize(s: AppV, k: HeldKeys) -> AppV {
    let s1 = if k.grow && s.size < SIZE_MAX as int {
        AppV {
            py: clamp(s.py - grow_step(s.size), -(POS_LIMIT as int), POS_LIMIT as int),
            size: s.size + grow_step(s.size),
            ..s
        }
    } else {
        s
    };
    if k.shrink && s1.size > SIZE_MIN as int {
        AppV { size: s1.size - shrink_step(s1.size), ..s1 }
    } else {
        s1
    }
}

/// The whole input phase: steering, then thrust, then resizing.
pub open spec fn input_phase(s: AppV, k: HeldKeys, dt: int) -> AppV {
    resize(thrust(steer(s, k), k, dt), k)
}

/// Gravity adds `dt` times the profile's downward acceleration to the
/// vertical velocity.
pub open spec fn gravity_step(s: AppV, dt: int) -> AppV {
    AppV {
        vy: clamp(s.vy + mulfrac(dt, s.cfg.gravity), -(VEL_LIMIT as int), VEL_LIMIT as int),
        ..s
    }
}

/// If the position predicted from the current velocity leaves the viewport
/// on an axis, that axis's velocity is reversed and damped by the bounce
/// factor. The floor always reflects; the ceiling only in profiles that say
/// so.
pub open spec fn bounce_step(s: AppV) -> AppV {
    let fx = s.px + s.vx;
    let fy = s.py + s.vy;
    let vx1 = if fx < 0 || fx > max_x(s.size) {
        -mulfrac(s.vx, s.cfg.bounce_factor)
    } else {
        s.vx
    };
    let vy1 = if fy > max_y(s.size) || (s.cfg.bounce_ceiling && fy < 0) {
        -mulfrac(s.vy, s.cfg.bounce_factor)
    } else {
        s.vy
    };
    AppV { vx: vx1, vy: vy1, ..s }
}

/// The position advances by one velocity step, unconditionally: a frame that
/// bounced may still overshoot the boundary once, and the reversed velocity
/// brings it back on later frames.
pub open spec fn move_step(s: AppV) -> AppV {
    AppV {
        px: clamp(s.px + s.vx, -(POS_LIMIT as int), POS_LIMIT as int),
        py: clamp(s.py + s.vy, -(POS_LIMIT as int), POS_LIMIT as int),
        ..s
    }
}

/// Contact friction: wall contact damps the vertical velocity, floor contact
/// damps the horizontal velocity, each by the profile's friction fraction.
pub open spec fn friction_step(s: AppV) -> AppV {
    let vy1 = if s.px <= 0 || s.px >= wall_band(s.size, s.cfg.noise) {
        s.vy - mulfrac(s.vy, s.cfg.friction)
    } else {
        s.vy
    };
    let vx1 = if s.py >= floor_band(s.size, s.cfg.noise) {
        s.vx - mulfrac(s.vx, s.cfg.friction)
    } else {
        s.vx
    };
    AppV { vx: vx1, vy: vy1, ..s }
}

/// The whole physics phase: gravity, bounce, movement, friction.
pub open spec fn physics_phase(s: AppV, dt: int) -> AppV {
    friction_step(move_step(bounce_step(gravity_step(s, dt))))
}

/// The meter phase. A part-filled meter regenerates by `dt` times the regen
/// rate — the slower overheated rate while the lockout holds — and is capped
/// at full; an overheated state returns to `Normal` exactly when the meter is
/// full.
pub open spec fn regen_phase(s: AppV, dt: int) -> AppV {
    let rate = if s.heat is Overheated {
        s.cfg.overheat_regen_rate
    } else {
        s.cfg.regen_rate
    };
    let m1 = if s.meter < SCALE as int {
        let m = s.meter + mulfrac(dt, rate);
        if m > SCALE as int {
            SCALE as int
        } else {
            m
        }
    } else {
        s.meter
    };
    let h1 = if s.heat is Overheated && m1 >= SCALE as int {
        HeatState::Normal
    } else {
        s.heat
    };
    AppV { meter: m1, heat: h1, ..s }
}

/// One whole frame: input phase, physics phase, meter phase.
pub open spec fn update_spec(s: AppV, k: HeldKeys, dt: int) -> AppV {
    regen_phase(physics_phase(input_phase(s, k, dt), dt), dt)
}

/// The input phase keeps the state inside its bounds and never refills the
/// meter.
pub proof fn lemma_input_bounds(s: AppV, k: HeldKeys, dt: int)
    requires
        bounds_ok(s),
        0 <= dt <= DT_MAX as int,
    ensures
        bounds_ok(input_phase(s, k, dt)),
        input_phase(s, k, dt).meter <= s.meter,
        input_phase(s, k, dt).cfg == s.cfg,
{
    lemma_mulfrac_nonneg(dt, s.cfg.thrust_cost_rate);
}

/// The physics phase keeps the state inside its bounds and touches neither
/// the meter nor the heat state.
pub proof fn lemma_physics_bounds(s: AppV, dt: int)
    requires
        bounds_ok(s),
        0 <= dt <= DT_MAX as int,
    ensures
        bounds_ok(physics_phase(s, dt)),
        physics_phase(s, dt).meter == s.meter,
        physics_phase(s, dt).heat == s.heat,
        physics_phase(s, dt).size == s.size,
        physics_phase(s, dt).cfg == s.cfg,
{
    let sg = gravity_step(s, dt);
    lemma_mulfrac_contract(sg.vx, s.cfg.bounce_factor, VEL_LIMIT as int);
    lemma_mulfrac_contract(sg.vy, s.cfg.bounce_factor, VEL_LIMIT as int);
    let sb = bounce_step(sg);
    let sm = move_step(sb);
    lemma_friction_step(sm.vy, s.cfg.friction);
    lemma_friction_step(sm.vx, s.cfg.friction);
}

/// The meter phase keeps the state inside its bounds, never drains the
/// meter, and leaves the lockout in force only while the meter is
/// part-filled.
pub proof fn lemma_regen_props(s: AppV, dt: int)
    requires
        bounds_ok(s),
        0 <= dt <= DT_MAX as int,
    ensures
        bounds_ok(regen_phase(s, dt)),
        regen_phase(s, dt).meter >= s.meter,
        regen_phase(s, dt).heat is Overheated ==> regen_phase(s, dt).meter < SCALE as int,
        regen_phase(s, dt).heat is Overheated ==> s.heat is Overheated,
{
    lemma_mulfrac_nonneg(dt, s.cfg.overheat_regen_rate);
    lemma_mulfrac_nonneg(dt, s.cfg.regen_rate);
}

impl App {
    /// The start state of the jetpack profile: the square centered in the
    /// viewport, drifting down-right, the meter full, the heat state
    /// `Normal`.
    pub fn new() -> (r: App)
        ensures
            r@ == (AppV {
                px: 375_000,
                py: 275_000,
                vx: 3_000,
                vy: 3_000,
                meter: SCALE as int,
                size: 50_000,
                heat: HeatState::Normal,
                cfg: jetpack_profile(),
            }),
            inv(r@),
    {
        App {
            pos_x: 375_000,
            pos_y: 275_000,
            vel_x: 3_000,
            vel_y: 3_000,
            meter: SCALE,
            square_size: 50_000,
            heat: HeatState::Normal,
            cfg: Config::jetpack(),
        }
    }

    /// The same start state under a caller-chosen profile.
    pub fn with_config(cfg: Config) -> (r: App)
        requires
            cfg_ok(cfg@),
        ensures
            r@ == (AppV {
                px: 375_000,
                py: 275_000,
                vx: 3_000,
                vy: 3_000,
                meter: SCALE as int,
                size: 50_000,
                heat: HeatState::Normal,
                cfg: cfg@,
            }),
            inv(r@),
    {
        App {
            pos_x: 375_000,
            pos_y: 275_000,
            vel_x: 3_000,
            vel_y: 3_000,
            meter: SCALE,
            square_size: 50_000,
            heat: HeatState::Normal,
            cfg,
        }
    }

    /// The input phase: applies the held keys exactly as `input_phase` says.
    pub fn process_input(&mut self, keys: &HeldKeys, dt: i64)
        requires
            bounds_ok(old(self)@),
            0 <= dt <= DT_MAX,
        ensures
            final(self)@ == input_phase(old(self)@, *keys, dt as int),
            bounds_ok(final(self)@),
    {
        if keys.right {
            self.vel_x = clamp_i64(self.vel_x + STEER_STEP, -VEL_LIMIT, VEL_LIMIT);
        }
        if keys.left {
            self.vel_x = clamp_i64(self.vel_x - STEER_STEP, -VEL_LIMIT, VEL_LIMIT);
        }
        if keys.up {
            let cost = mul_frac(dt, self.cfg.thrust_cost_rate);
            proof {
                lemma_mulfrac_bound(dt as int, self.cfg.thrust_cost_rate as int, DT_MAX as int, F_MAX as int);
            }
            if self.heat == HeatState::Normal && self.meter - cost > 0 {
                self.meter = self.meter - cost;
                let wdelta = mul_frac(BASE_SIZE - self.square_size, WEIGHT_COEFF);
                proof {
                    lemma_mulfrac_bound(BASE_SIZE as int - self.square_size as int, WEIGHT_COEFF as int, 25_000, WEIGHT_COEFF as int);
                }
                let weight = SCALE + wdelta;
                let imp = mul_frac(THRUST_IMPULSE, weight);
                proof {
                    lemma_mulfrac_bound(THRUST_IMPULSE as int, weight as int, THRUST_IMPULSE as int, 1_500);
                }
                self.vel_y = clamp_i64(self.vel_y - imp, -VEL_LIMIT, VEL_LIMIT);
            } else if self.heat == HeatState::Normal {
                self.heat = HeatState::Overheated;
            }
        }
        if keys.grow && self.square_size < SIZE_MAX {
            let room = SIZE_MAX - self.square_size;
            let g = if room < SIZE_STEP {
                room
            } else {
                SIZE_STEP
            };
            self.pos_y = clamp_i64(self.pos_y - g, -POS_LIMIT, POS_LIMIT);
            self.square_size = self.square_size + g;
        }
        if keys.shrink && self.square_size > SIZE_MIN {
            let room = self.square_size - SIZE_MIN;
            let g = if room < SIZE_STEP {
                room
            } else {
                SIZE_STEP
            };
            self.square_size = self.square_size - g;
        }
        proof {
            lemma_input_bounds(old(self)@, *keys, dt as int);
        }
    }

    /// The physics phase: gravity, bounce, movement and friction exactly as
    /// `physics_phase` says.
    pub fn apply_physics(&mut self, dt: i64)
        requires
            bounds_ok(old(self)@),
            0 <= dt <= DT_MAX,
        ensures
            final(self)@ == physics_phase(old(self)@, dt as int),
            bounds_ok(final(self)@),
    {
        let grav = mul_frac(dt, self.cfg.gravity);
        proof {
            lemma_mulfrac_bound(dt as int, self.cfg.gravity as int, DT_MAX as int, F_MAX as int);
        }
        self.vel_y = clamp_i64(self.vel_y + grav, -VEL_LIMIT, VEL_LIMIT);
        let fx = self.pos_x + self.vel_x;
        let fy = self.pos_y + self.vel_y;
        let mx = VIEW_W - self.square_size;
        let my = VIEW_H - self.square_size;
        proof {
            lemma_mulfrac_contract(self.vel_x as int, self.cfg.bounce_factor as int, VEL_LIMIT as int);
            lemma_mulfrac_contract(self.vel_y as int, self.cfg.bounce_factor as int, VEL_LIMIT as int);
        }
        if fx < 0 || fx > mx {
            self.vel_x = -mul_frac(self.vel_x, self.cfg.bounce_factor);
        }
        if fy > my || (self.cfg.bounce_ceiling && fy < 0) {
            self.vel_y = -mul_frac(self.vel_y, self.cfg.bounce_factor);
        }
        self.pos_x = clamp_i64(self.pos_x + self.vel_x, -POS_LIMIT, POS_LIMIT);
        self.pos_y = clamp_i64(self.pos_y + self.vel_y, -POS_LIMIT, POS_LIMIT);
        let wall = mul_frac(mx, SCALE - self.cfg.noise);
        let floor = mul_frac(my, SCALE - self.cfg.noise);
        proof {
            lemma_friction_step(self.vel_y as int, self.cfg.friction as int);
            lemma_friction_step(self.vel_x as int, self.cfg.friction as int);
        }
        if self.pos_x <= 0 || self.pos_x >= wall {
            let d = mul_frac(self.vel_y, self.cfg.friction);
            self.vel_y = self.vel_y - d;
        }
        if self.pos_y >= floor {
            let d = mul_frac(self.vel_x, self.cfg.friction);
            self.vel_x = self.vel_x - d;
        }
        proof {
            lemma_physics_bounds(old(self)@, dt as int);
        }
    }

    /// The meter phase: regeneration and the cooldown back to `Normal`
    /// exactly as `regen_phase` says.
    pub fn regen_meter(&mut self, dt: i64)
        requires
            bounds_ok(old(self)@),
            0 <= dt <= DT_MAX,
        ensures
            final(self)@ == regen_phase(old(self)@, dt as int),
            inv(final(self)@),
    {
        if self.meter < SCALE {
            let rate = if self.heat == HeatState::Overheated {
                self.cfg.overheat_regen_rate
            } else {
                self.cfg.regen_rate
            };
            let inc = mul_frac(dt, rate);
            proof {
                lemma_mulfrac_bound(dt as int, rate as int, DT_MAX as int, F_MAX as int);
            }
            let m = self.meter + inc;
            self.meter = if m > SCALE {
                SCALE
            } else {
                m
            };
        }
        if self.heat == HeatState::Overheated && self.meter >= SCALE {
            self.heat = HeatState::Normal;
        }
        proof {
            lemma_regen_props(old(self)@, dt as int);
        }
    }

    /// One whole frame: the input phase on the held-key snapshot, then the
    /// physics phase, then the meter phase, exactly as `update_spec` says.
    /// The state invariant is preserved.
    pub fn update(&mut self, keys: &HeldKeys, dt: i64)
        requires
            inv(old(self)@),
            0 <= dt <= DT_MAX,
        ensures
            final(self)@ == update_spec(old(self)@, *keys, dt as int),
            inv(final(self)@),
    {
        self.process_input(keys, dt);
        self.apply_physics(dt);
        self.regen_meter(dt);
    }
}

} // verus!
