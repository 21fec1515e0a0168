use vstd::prelude::*;

use crate::rng::spec_rng1;
use crate::trig::{
    cosmul, cosmul_hi, launch_speed_ok, lemma_cosmul_hi, lemma_launch_tables, LAUNCH_VX,
    LAUNCH_VY,
};

verus! {

/// The stand-in for the player: a fixed target position, used only for the
/// aggro distance check and the projectile hitbox test.
#[derive(Clone, Copy)]
pub struct Samus {
    pub x: i16,
    pub y: i16,
}

/// One encounter's state, advanced a frame at a time until it reaches a
/// terminal outcome.
pub struct Draygon {
    pub x: i16,
    pub y: i16,
    pub y_angle: u8,
    pub goop_counter: u8,
    pub goop_timer: u8,
    pub global_timer: u8,
    pub left: bool,
    pub samus_in_range: bool,
}

/// The number of frames that always suffices for an encounter to reach its
/// outcome: the widest spawn-to-exit walk takes 0x2F0 moves, plus the one
/// frame on which aggro latches and movement is suspended.
pub const FRAME_FUEL: u16 = 754;

/// The number of flight steps that always suffices for a projectile to
/// leave the 513-unit play field: 513 * 65536 over the minimum dominant
/// velocity component of 92680, rounded up.
pub const FLY_FUEL: u16 = 363;

/// |a - b| over mathematical integers, the meaning of std's abs_diff.
pub open spec fn abs_diff(a: int, b: int) -> int {
    if a >= b {
        a - b
    } else {
        b - a
    }
}

/// |a - b| of two 16-bit values, as std's i16::abs_diff computes it.
fn abs_diff_i16(a: i16, b: i16) -> (r: u16)
    ensures
        r == abs_diff(a as int, b as int),
{
    if a >= b {
        ((a as i32) - (b as i32)) as u16
    } else {
        ((b as i32) - (a as i32)) as u16
    }
}

/// An 8-bit counter incremented with wraparound.
pub open spec fn wrap_inc_u8(v: u8) -> u8 {
    if v == 255 {
        0
    } else {
        (v + 1) as u8
    }
}

/// A state the encounter loop can continue from: at least one goop left,
/// and the boss still inside the band between spawn and the exit bound of
/// its side.
pub open spec fn wf(d: Draygon) -> bool {
    &&& d.goop_counter >= 1
    &&& if d.left {
        -0x50 <= d.x <= 0x250
    } else {
        -0x50 <= d.x <= 0x29F
    }
}

/// How far the boss still is from its exit bound, plus one while aggro has
/// not latched: strictly shrinks on every continuing frame, which bounds
/// the length of every run.
pub open spec fn measure(d: Draygon) -> int {
    (if d.left {
        d.x + 0x51
    } else {
        0x2A0 - d.x
    }) + (if d.samus_in_range {
        0int
    } else {
        1int
    })
}

/// Whether this frame consumes the periodic turret draw: every 64th tick of
/// the global timer, but on the left side only until aggro has latched.
pub open spec fn turret_draws(d: Draygon) -> bool {
    d.global_timer & 0x3F == 0 && (!d.left || !d.samus_in_range)
}

/// The vertical position the oscillator dictates for an angle-accumulator
/// value: the field midline plus the integer half of 0x20 * cos(angle).
pub open spec fn osc_y(y_angle: u8) -> i16 {
    (0x180 + cosmul_hi(0x20, y_angle)) as i16
}

/// One unit of horizontal motion toward the exit side.
pub open spec fn step_x(d: Draygon) -> i16 {
    if d.left {
        (d.x - 1) as i16
    } else {
        (d.x + 1) as i16
    }
}

/// The movement phase of one frame: the oscillator sets y; before aggro the
/// boss either latches aggro (suspending movement for this one frame) or
/// walks; after aggro a peek at the generator may arm the goop timer and
/// the boss always walks.
pub open spec fn spec_move(d: Draygon, seed: u16, s: Samus) -> Draygon {
    let y1 = osc_y(d.y_angle);
    if !d.samus_in_range {
        if abs_diff(d.x as int, s.x as int) < 0xD0 {
            Draygon { y: y1, samus_in_range: true, ..d }
        } else {
            Draygon { y: y1, x: step_x(d), y_angle: wrap_inc_u8(d.y_angle), ..d }
        }
    } else {
        Draygon {
            y: y1,
            x: step_x(d),
            y_angle: wrap_inc_u8(d.y_angle),
            goop_timer: if seed & 0xF == 0 {
                7
            } else {
                d.goop_timer
            },
            ..d
        }
    }
}

/// Whether a 16.16 projectile position is still inside the play field.
pub open spec fn in_field(x: i32, y: i32) -> bool {
    0 <= x >> 16 <= 512 && 0 <= y >> 16 <= 512
}

/// Whether a 16.16 projectile position lands inside the target's hitbox:
/// asymmetric half-widths of 0x10 horizontally and 0x14 vertically.
pub open spec fn spec_hit(x: i32, y: i32, s: Samus) -> bool {
    abs_diff(s.x as int, ((x >> 16) as i16) as int) < 0x10 && abs_diff(
        s.y as int,
        ((y >> 16) as i16) as int,
    ) < 0x14
}

/// The projectile flight: step by the fixed velocity while inside the play
/// field, testing the hitbox after each step. The fuel only bounds the
/// recursion; FLY_FUEL steps always reach the field bound.
pub open spec fn spec_fly(x: i32, y: i32, vx: i32, vy: i32, s: Samus, fuel: nat) -> bool
    decreases fuel,
{
    if !in_field(x, y) {
        false
    } else if fuel == 0 {
        false
    } else {
        let x2 = (x + vx) as i32;
        let y2 = (y + vy) as i32;
        if spec_hit(x2, y2, s) {
            true
        } else {
            spec_fly(x2, y2, vx, vy, s, (fuel - 1) as nat)
        }
    }
}

/// One goop launch from boss position (x, y): the spawn offset is
/// asymmetric by side, one draw perturbs the side's base angle within a
/// 64-value window, and the velocity tables fix the flight.
pub open spec fn spec_fire(x: i16, y: i16, left: bool, rolled: u16, s: Samus) -> bool {
    let sx = if left {
        (x - 0x1C) as i16
    } else {
        (x + 0x18) as i16
    };
    let sy = (y - 0x10) as i16;
    let base: u16 = if left {
        0xA0
    } else {
        0xE0
    };
    let a = (((base + (rolled & 0x3F)) as u16) - 0x20) as u16;
    let idx = (a - 0x80) as int;
    spec_fly(
        (sx as i32) << 16,
        (sy as i32) << 16,
        LAUNCH_VX[idx],
        LAUNCH_VY[idx],
        s,
        FLY_FUEL as nat,
    )
}

/// The tail of one frame: the second periodic draw every 128th tick, the
/// timer increment, and the side-dependent exit test.
pub open spec fn spec_step_tail(d: Draygon, seed: u16, s: Samus) -> (Draygon, u16, Option<bool>) {
    let seed_c = if d.global_timer & 0x7F == 0 {
        spec_rng1(seed)
    } else {
        seed
    };
    let d2 = Draygon { global_timer: wrap_inc_u8(d.global_timer), ..d };
    if (!d2.left && d2.x >= 0x2A0) || (d2.left && d2.x < -0x50) {
        (d2, seed_c, Some(false))
    } else {
        (d2, seed_c, None)
    }
}

/// One full frame of the encounter, in the game's exact order:
/// turret draw, oscillator, movement or aggro, goop-timer countdown with a
/// possible launch, second periodic draw, timer increment, exit test. The
/// result is the state, the seed, and the outcome if the frame was terminal.
pub open spec fn spec_step(d: Draygon, seed: u16, s: Samus) -> (Draygon, u16, Option<bool>) {
    let seed_a = if turret_draws(d) {
        spec_rng1(seed)
    } else {
        seed
    };
    let d1 = spec_move(d, seed_a, s);
    if d1.goop_timer != 0 {
        let d2 = Draygon { goop_timer: (d1.goop_timer - 1) as u8, ..d1 };
        if d2.goop_timer == 0 {
            let d3 = Draygon { goop_counter: (d2.goop_counter - 1) as u8, ..d2 };
            if d3.goop_counter == 0 {
                (d3, seed_a, Some(false))
            } else {
                let seed_b = spec_rng1(seed_a);
                if spec_fire(d3.x, d3.y, d3.left, seed_b, s) {
                    (d3, seed_b, Some(true))
                } else {
                    spec_step_tail(d3, seed_b, s)
                }
            }
        } else {
            spec_step_tail(d2, seed_a, s)
        }
    } else {
        spec_step_tail(d1, seed_a, s)
    }
}

/// The encounter state at spawn for a side and a starting timer phase.
pub open spec fn init_state(left: bool, global_timer: u8) -> Draygon {
    Draygon {
        x: if left {
            0x250i16
        } else {
            -0x50i16
        },
        y: 0x180,
        y_angle: 0,
        goop_counter: 0x10,
        goop_timer: 0,
        global_timer,
        left,
        samus_in_range: false,
    }
}

/// The run: frames until a terminal outcome, each followed by the
/// generator's own per-frame advance. None means the fuel ran out first,
/// which FRAME_FUEL rules out for well-formed starts.
pub open spec fn spec_run(d: Draygon, seed: u16, s: Samus, fuel: nat) -> Option<bool>
    decreases fuel,
{
    if fuel == 0 {
        None
    } else {
        let res = spec_step(d, seed, s);
        if res.2 is Some {
            res.2
        } else {
            spec_run(res.0, spec_rng1(res.1), s, (fuel - 1) as nat)
        }
    }
}

/// The single outcome of one encounter: a pure function of seed, phase,
/// side and target. Some(true) means a goop connected; Some(false) means
/// the boss ran out of goop or left the field.
pub open spec fn spec_outcome(seed: u16, global_timer: u8, left: bool, s: Samus) -> Option<bool> {
    spec_run(init_state(left, global_timer), seed, s, FRAME_FUEL as nat)
}

impl Draygon {
    /// Fires one goop from the current position: rolls once to pick the
    /// launch angle, then steps the projectile across the field until it
    /// leaves or connects with the target's hitbox.
    pub fn fire_goop(&self, rng: &mut smrng::Rng, samus: &Samus) -> (r: bool)
        requires
            -0x51 <= self.x <= 0x2A0,
            0x160 <= self.y <= 0x1A0,
        ensures
            final(rng).seed == spec_rng1(old(rng).seed),
            final(rng).xba == old(rng).xba,
            final(rng).calls_per_frame == old(rng).calls_per_frame,
            r == spec_fire(self.x, self.y, self.left, final(rng).seed, *samus),
    {
        let sx = if self.left {
            self.x - 0x1C
        } else {
            self.x + 0x18
        };
        let sy = self.y - 0x10;
        proof {
            assert(-0x6D <= sx <= 0x2B8 ==> ((sx as i32) << 16) == sx * 0x10000) by (bit_vector);
            assert(0x150 <= sy <= 0x190 ==> ((sy as i32) << 16) == sy * 0x10000) by (bit_vector);
        }
        let mut x: i32 = (sx as i32) << 16;
        let mut y: i32 = (sy as i32) << 16;
        let rolled = rng.roll();
        let base: u16 = if self.left {
            0xA0
        } else {
            0xE0
        };
        proof {
            assert(rolled & 0x3F <= 0x3F) by (bit_vector);
        }
        let a: u16 = base + (rolled & 0x3F) - 0x20;
        let idx = (a - 0x80) as usize;
        proof {
            lemma_launch_tables();
            assert(launch_speed_ok(idx as int));
        }
        let vx = LAUNCH_VX[idx];
        let vy = LAUNCH_VY[idx];
        let ghost mut fuel: nat = FLY_FUEL as nat;
        proof {
            lemma_field_bounds(x);
            lemma_field_bounds(y);
        }
        while x >> 16 >= 0 && x >> 16 <= 512 && y >> 16 >= 0 && y >> 16 <= 512
            invariant
                rng.seed == spec_rng1(old(rng).seed),
                rng.xba == old(rng).xba,
                rng.calls_per_frame == old(rng).calls_per_frame,
                rolled == rng.seed,
                -131070 <= vx <= 131070,
                0 <= vy <= 131070,
                vx <= -92680 || vx >= 92680 || vy >= 92680,
                -7143424 <= x <= 45613056,
                -131070 <= y <= 45613056,
                in_field(x, y) ==> fly_progress(x, y, vx, vy, fuel),
                spec_fly(x, y, vx, vy, *samus, fuel) == spec_fire(
                    self.x,
                    self.y,
                    self.left,
                    rolled,
                    *samus,
                ),
            decreases fuel,
        {
            proof {
                assert(in_field(x, y));
                lemma_field_bounds(x);
                lemma_field_bounds(y);
                assert(fuel >= 1);
                fuel = (fuel - 1) as nat;
            }
            x = x + vx;
            y = y + vy;
            proof {
                assert(-131070 <= x <= 33751037 ==> -3 <= (x >> 16) <= 515) by (bit_vector);
                assert(-131070 <= y <= 33751037 ==> -3 <= (y >> 16) <= 515) by (bit_vector);
            }
            let px = (x >> 16) as i16;
            let py = (y >> 16) as i16;
            if abs_diff_i16(samus.x, px) < 0x10 && abs_diff_i16(samus.y, py) < 0x14 {
                return true;
            }
        }
        false
    }
}

/// While a projectile is still inside the field, the distance its dominant
/// velocity component has yet to cover stays within what the remaining fuel
/// can cover in steps of at least the diagonal minimum.
pub open spec fn fly_progress(x: i32, y: i32, vx: i32, vy: i32, fuel: nat) -> bool {
    if vx >= 92680 || vx <= -92680 {
        fly_rem(x, vx) <= fuel * 92680
    } else {
        fly_rem(y, vy) <= fuel * 92680
    }
}

/// How far a coordinate may still travel before its field test fails, for
/// the direction its velocity points in.
pub open spec fn fly_rem(c: i32, v: i32) -> int {
    if v > 0 {
        33619968 - c
    } else {
        c + 1
    }
}

/// A coordinate whose high word lies in the field band lies in the
/// corresponding 16.16 range.
proof fn lemma_field_bounds(c: i32)
    ensures
        0 <= c >> 16 <= 512 ==> 0 <= c <= 33619967,
{
    assert(0 <= c >> 16 <= 512 ==> 0 <= c <= 33619967) by (bit_vector);
}

impl Draygon {
    /// One frame of the encounter. The order of the phases is load-bearing:
    /// it fixes how generator draws interleave with motion and timer
    /// updates, and any reordering changes every later draw.
    pub fn step(&mut self, rng: &mut smrng::Rng, samus: &Samus) -> (r: Option<bool>)
        requires
            wf(*old(self)),
        ensures
            *final(self) == spec_step(*old(self), old(rng).seed, *samus).0,
            final(rng).seed == spec_step(*old(self), old(rng).seed, *samus).1,
            r == spec_step(*old(self), old(rng).seed, *samus).2,
            final(rng).xba == old(rng).xba,
            final(rng).calls_per_frame == old(rng).calls_per_frame,
            r is None ==> wf(*final(self)) && measure(*final(self)) < measure(*old(self)),
    {
        if self.global_timer & 0x3F == 0 && (!self.left || !self.samus_in_range) {
            rng.roll();
        }
        let c = cosmul(0x20, self.y_angle);
        proof {
            lemma_cosmul_hi(0x20, self.y_angle);
            assert(-0x8000 <= (c >> 16) <= 0x7FFF) by (bit_vector);
        }
        self.y = 0x180 + ((c >> 16) as i16);
        if !self.samus_in_range {
            if abs_diff_i16(self.x, samus.x) < 0xD0 {
                self.samus_in_range = true;
            } else {
                self.x = if self.left {
                    self.x - 1
                } else {
                    self.x + 1
                };
                self.y_angle = self.y_angle.wrapping_add(1);
            }
        } else {
            if rng.read() & 0xF == 0 {
                self.goop_timer = 7;
            }
            self.x = if self.left {
                self.x - 1
            } else {
                self.x + 1
            };
            self.y_angle = self.y_angle.wrapping_add(1);
        }
        if self.goop_timer != 0 {
            self.goop_timer = self.goop_timer - 1;
            if self.goop_timer == 0 {
                self.goop_counter = self.goop_counter - 1;
                if self.goop_counter == 0 {
                    return Some(false);
                }
                if self.fire_goop(rng, samus) {
                    return Some(true);
                }
            }
        }
        if self.global_timer & 0x7F == 0 {
            rng.roll();
        }
        self.global_timer = self.global_timer.wrapping_add(1);
        if (!self.left && self.x >= 0x2A0) || (self.left && self.x < -0x50) {
            Some(false)
        } else {
            None
        }
    }
}

/// Runs one encounter from spawn to its single outcome: true when a fired
/// goop connects with the target, false when the boss runs out of goop or
/// walks off the field. The outcome is a pure function of the seed, the
/// starting timer phase, the side and the target, so repeated runs agree.
#[verifier::loop_isolation(false)]
pub fn simulate_goop(rng: smrng::Rng, global_timer: u8, left: bool, samus: &Samus) -> (r: bool)
    requires
        rng.calls_per_frame == 1,
        !rng.xba,
    ensures
        Some(r) == spec_outcome(rng.seed, global_timer, left, *samus),
{
    let ghost seed0 = rng.seed;
    let mut gen = rng;
    let mut state = Draygon {
        x: if left {
            0x250
        } else {
            -0x50
        },
        y: 0x180,
        y_angle: 0,
        goop_counter: 0x10,
        goop_timer: 0,
        global_timer,
        left,
        samus_in_range: false,
    };
    let ghost mut fuel: nat = FRAME_FUEL as nat;
    loop
        invariant
            wf(state),
            !gen.xba,
            gen.calls_per_frame == 1,
            measure(state) < fuel,
            spec_run(state, gen.seed, *samus, fuel) == spec_outcome(
                seed0,
                global_timer,
                left,
                *samus,
            ),
        decreases fuel,
    {
        let ghost pre = state;
        let ghost pre_seed = gen.seed;
        let r = state.step(&mut gen, samus);
        proof {
            assert(fuel >= 1);
            assert(spec_run(pre, pre_seed, *samus, fuel) == (if spec_step(
                pre,
                pre_seed,
                *samus,
            ).2 is Some {
                spec_step(pre, pre_seed, *samus).2
            } else {
                spec_run(
                    spec_step(pre, pre_seed, *samus).0,
                    spec_rng1(spec_step(pre, pre_seed, *samus).1),
                    *samus,
                    (fuel - 1) as nat,
                )
            }));
        }
        if let Some(b) = r {
            return b;
        }
        gen.frame_advance();
        proof {
            let sd = spec_step(pre, pre_seed, *samus).1;
            assert(crate::rng::seed_after_calls(sd, 0) == sd);
            assert(crate::rng::seed_after_calls(sd, 1) == spec_rng1(sd));
            fuel = (fuel - 1) as nat;
        }
    }
}

/// A continuing frame keeps the state well formed — in particular the goop
/// counter never drops below one while the run continues — and strictly
/// shrinks the progress measure. Whatever the frame's outcome, the goop
/// counter never grows and aggro, once latched, stays latched.
pub proof fn lemma_step_progress(d: Draygon, seed: u16, s: Samus)
    requires
        wf(d),
    ensures
        spec_step(d, seed, s).2 is None ==> wf(spec_step(d, seed, s).0) && measure(
            spec_step(d, seed, s).0,
        ) < measure(d),
        spec_step(d, seed, s).0.goop_counter <= d.goop_counter,
        d.samus_in_range ==> spec_step(d, seed, s).0.samus_in_range,
{
}

/// Every encounter terminates: within FRAME_FUEL frames the run reaches its
/// single outcome, whatever the seed, starting phase, side and target.
pub proof fn lemma_encounter_terminates(seed: u16, global_timer: u8, left: bool, s: Samus)
    ensures
        spec_outcome(seed, global_timer, left, s) is Some,
{
    lemma_run_reaches_outcome(init_state(left, global_timer), seed, s, FRAME_FUEL as nat);
}

/// A run from a well-formed state terminates once the fuel exceeds the
/// progress measure, because every continuing frame shrinks the measure.
proof fn lemma_run_reaches_outcome(d: Draygon, seed: u16, s: Samus, fuel: nat)
    requires
        wf(d),
        measure(d) < fuel,
    ensures
        spec_run(d, seed, s, fuel) is Some,
    decreases fuel,
{
    lemma_step_progress(d, seed, s);
    let res = spec_step(d, seed, s);
    if res.2 is None {
        lemma_run_reaches_outcome(res.0, spec_rng1(res.1), s, (fuel - 1) as nat);
    }
}

/// A target outside the band a projectile can reach — the play field plus
/// one flight step and the hitbox half-widths — is never hit: the flight
/// leaves the field before any hitbox test can succeed.
pub proof fn lemma_out_of_field_never_hit(x: i16, y: i16, left: bool, rolled: u16, s: Samus)
    requires
        s.x > 530 || s.x < -17 || s.y > 534 || s.y < -21,
    ensures
        !spec_fire(x, y, left, rolled, s),
{
    lemma_launch_tables();
    let base: u16 = if left {
        0xA0
    } else {
        0xE0
    };
    assert(rolled & 0x3F <= 0x3F) by (bit_vector);
    let a = (((base + (rolled & 0x3F)) as u16) - 0x20) as u16;
    let idx = (a - 0x80) as int;
    assert(launch_speed_ok(idx));
    let sx = if left {
        (x - 0x1C) as i16
    } else {
        (x + 0x18) as i16
    };
    let sy = (y - 0x10) as i16;
    lemma_fly_out_of_field(
        (sx as i32) << 16,
        (sy as i32) << 16,
        LAUNCH_VX[idx],
        LAUNCH_VY[idx],
        s,
        FLY_FUEL as nat,
    );
}

/// The flight recursion never hits a target outside the reachable band.
proof fn lemma_fly_out_of_field(x: i32, y: i32, vx: i32, vy: i32, s: Samus, fuel: nat)
    requires
        -131070 <= vx <= 131070,
        -131070 <= vy <= 131070,
        s.x > 530 || s.x < -17 || s.y > 534 || s.y < -21,
    ensures
        !spec_fly(x, y, vx, vy, s, fuel),
    decreases fuel,
{
    if in_field(x, y) && fuel > 0 {
        lemma_field_bounds(x);
        lemma_field_bounds(y);
        let x2 = (x + vx) as i32;
        let y2 = (y + vy) as i32;
        assert(-131070 <= x2 <= 33751037 ==> -2 <= (x2 >> 16) <= 515) by (bit_vector);
        assert(-131070 <= y2 <= 33751037 ==> -2 <= (y2 >> 16) <= 515) by (bit_vector);
        assert(-2 <= (x2 >> 16) <= 515 ==> ((x2 >> 16) as i16) == x2 >> 16) by (bit_vector);
        assert(-2 <= (y2 >> 16) <= 515 ==> ((y2 >> 16) as i16) == y2 >> 16) by (bit_vector);
        assert(!spec_hit(x2, y2, s));
        lemma_fly_out_of_field(x2, y2, vx, vy, s, (fuel - 1) as nat);
    }
}

} // verus!
