//! The per-cell slime state machine: configuration, the three-variant cell
//! state, and the pure per-cell update and impulse-merge rules.

use crate::fixed::{
    fx_abs, fx_add, fx_clamp, fx_div, fx_max, fx_mul, fx_neg, fx_ok, fx_sub, spec_fx_abs,
    spec_fx_add, spec_fx_clamp, spec_fx_div, spec_fx_max, spec_fx_mul, spec_fx_neg, spec_fx_sub,
    FX_MAX, FX_ONE,
};
use vstd::prelude::*;

verus! {

/// Fixed-point representation of 9.0, the divisor of the falling-stretch rule.
pub const FX_NINE: i64 = 9000;

/// Fixed-point representation of 2.0, the upper clamp of the falling stretch.
pub const FX_TWO: i64 = 2000;

/// Fixed-point representation of 0.5, the floor of the jiggle squash divisor.
pub const FX_HALF: i64 = 500;

/// Immutable tunable constants for one simulation.
///
/// All fields are fixed-point values (thousandths of a unit).
#[derive(Clone, Copy, Debug, PartialEq, Eq, Structural)]
pub struct PhysicsProperties {
    pub gravity: i64,
    pub velocity_to_impact: i64,
    pub min_impactable: i64,
    pub jiggle_stiff: i64,
    pub jiggle_damp: i64,
    pub jiggle_life_decrease_rate: i64,
    pub jiggle_life_threshold: i64,
    pub jiggle_life_threshold_inverse: i64,
    pub jiggle_offset_epsilon: i64,
    pub jiggle_momentum_epsilon: i64,
}

impl PhysicsProperties {
    /// Every constant is a fixed-point value in range.
    pub open spec fn wf(&self) -> bool {
        &&& fx_ok(self.gravity)
        &&& fx_ok(self.velocity_to_impact)
        &&& fx_ok(self.min_impactable)
        &&& fx_ok(self.jiggle_stiff)
        &&& fx_ok(self.jiggle_damp)
        &&& fx_ok(self.jiggle_life_decrease_rate)
        &&& fx_ok(self.jiggle_life_threshold)
        &&& fx_ok(self.jiggle_life_threshold_inverse)
        &&& fx_ok(self.jiggle_offset_epsilon)
        &&& fx_ok(self.jiggle_momentum_epsilon)
    }
}

/// The state of one cell; exactly one variant holds at any time.
///
/// `velocity` follows a negative-downward convention; `life` counts down from
/// `FX_ONE` to 0 while jiggling.
#[derive(Clone, Copy, Debug, PartialEq, Eq, Structural)]
pub enum SlimeState {
    Settled,
    Falling { velocity: i64 },
    Jiggling { momentum: i64, offset: i64, life: i64 },
}

impl SlimeState {
    /// Every field of the active variant is a fixed-point value in range.
    pub open spec fn fx_wf(&self) -> bool {
        match *self {
            SlimeState::Settled => true,
            SlimeState::Falling { velocity } => fx_ok(velocity),
            SlimeState::Jiggling { momentum, offset, life } => fx_ok(momentum) && fx_ok(offset)
                && fx_ok(life),
        }
    }

    /// True exactly when the cell is at rest.
    pub fn is_settled(&self) -> (r: bool)
        ensures
            r == (*self is Settled),
    {
        match *self {
            SlimeState::Settled => true,
            _ => false,
        }
    }
}

/// Exactly one state variant holds for any cell state.
pub proof fn lemma_state_variant_exclusive(s: SlimeState)
    ensures
        (s is Settled) || (s is Falling) || (s is Jiggling),
        s is Settled ==> !(s is Falling) && !(s is Jiggling),
        s is Falling ==> !(s is Settled) && !(s is Jiggling),
        s is Jiggling ==> !(s is Settled) && !(s is Falling),
{
}

/// The read view handed to a per-cell update.
#[derive(Clone, Copy, Debug, PartialEq, Eq, Structural)]
pub struct SlimePropsIn {
    pub state: SlimeState,
    pub y_bottom: i64,
}

/// The write-back of a per-cell update: new state, new base position, and two
/// render-only squash/stretch factors (never fed back into the physics).
#[derive(Clone, Copy, Debug, PartialEq, Eq, Structural)]
pub struct SlimePropsOut {
    pub state: SlimeState,
    pub y_bottom: i64,
    pub y_scale: i64,
    pub x_scale: i64,
}

impl SlimePropsOut {
    /// State and all positions/scales are fixed-point values in range.
    pub open spec fn wf(&self) -> bool {
        &&& self.state.fx_wf()
        &&& fx_ok(self.y_bottom)
        &&& fx_ok(self.y_scale)
        &&& fx_ok(self.x_scale)
    }
}

/// Everything one per-cell update produces: the cell write-back, the column
/// offset accumulator after this cell's contribution, and the impulse of the
/// propagation event emitted on a falling -> impact transition.
#[derive(Clone, Copy, Debug)]
pub struct CellUpdate {
    pub props: SlimePropsOut,
    pub jiggle_offset: i64,
    pub impact: Option<i64>,
}

/// The per-cell update rule.
///
/// - `Settled` passes through; its base is forced to the column offset and it
///   contributes one cell height to the accumulator.
/// - `Falling` integrates gravity and position; crossing the stack top clamps
///   the base, starts a fresh jiggle and emits an impact impulse, otherwise the
///   cell keeps falling with a volume-preserving stretch.
/// - `Jiggling` integrates a damped spring, tapers near end of life, and
///   settles once `life` runs out or both offset and momentum are negligible.
pub open spec fn spec_update_cell(
    input: SlimePropsIn,
    dt: i64,
    p: PhysicsProperties,
    off: i64,
) -> CellUpdate {
    match input.state {
        SlimeState::Settled => CellUpdate {
            props: SlimePropsOut {
                state: SlimeState::Settled,
                y_bottom: off,
                y_scale: FX_ONE,
                x_scale: FX_ONE,
            },
            jiggle_offset: spec_fx_add(off, FX_ONE),
            impact: None,
        },
        SlimeState::Falling { velocity } => {
            let v2 = spec_fx_add(velocity, spec_fx_mul(dt, p.gravity));
            let yb = spec_fx_sub(input.y_bottom, spec_fx_mul(v2, dt));
            if yb <= off {
                CellUpdate {
                    props: SlimePropsOut {
                        state: SlimeState::Jiggling { momentum: 0, offset: 0, life: FX_ONE },
                        y_bottom: off,
                        y_scale: FX_ONE,
                        x_scale: FX_ONE,
                    },
                    jiggle_offset: spec_fx_add(off, FX_ONE),
                    impact: Some(spec_fx_mul(p.velocity_to_impact, v2)),
                }
            } else {
                let clamped = spec_fx_clamp(
                    spec_fx_add(spec_fx_div(v2, FX_NINE), FX_ONE),
                    FX_ONE,
                    FX_TWO,
                );
                CellUpdate {
                    props: SlimePropsOut {
                        state: SlimeState::Falling { velocity: v2 },
                        y_bottom: yb,
                        y_scale: clamped,
                        x_scale: spec_fx_div(FX_ONE, clamped),
                    },
                    jiggle_offset: off,
                    impact: None,
                }
            }
        },
        SlimeState::Jiggling { momentum, offset, life } => {
            let m1 = spec_fx_mul(
                spec_fx_add(momentum, spec_fx_mul(spec_fx_mul(p.jiggle_stiff, spec_fx_neg(offset)), dt)),
                p.jiggle_damp,
            );
            let o1 = spec_fx_add(offset, spec_fx_mul(m1, dt));
            let fade = spec_fx_mul(life, p.jiggle_life_threshold_inverse);
            let o2 = if life < p.jiggle_life_threshold {
                spec_fx_mul(o1, fade)
            } else {
                o1
            };
            let m2 = if life < p.jiggle_life_threshold {
                spec_fx_mul(m1, fade)
            } else {
                m1
            };
            if life <= 0 || (spec_fx_abs(o2) < p.jiggle_offset_epsilon && spec_fx_abs(m2)
                < p.jiggle_momentum_epsilon) {
                CellUpdate {
                    props: SlimePropsOut {
                        state: SlimeState::Settled,
                        y_bottom: off,
                        y_scale: FX_ONE,
                        x_scale: FX_ONE,
                    },
                    jiggle_offset: spec_fx_add(off, FX_ONE),
                    impact: None,
                }
            } else {
                let life2 = spec_fx_sub(life, spec_fx_mul(p.jiggle_life_decrease_rate, dt));
                let ys = spec_fx_max(spec_fx_sub(FX_ONE, o2), 0);
                CellUpdate {
                    props: SlimePropsOut {
                        state: SlimeState::Jiggling { momentum: m2, offset: o2, life: life2 },
                        y_bottom: off,
                        y_scale: ys,
                        x_scale: spec_fx_div(FX_ONE, spec_fx_max(ys, FX_HALF)),
                    },
                    jiggle_offset: spec_fx_add(off, ys),
                    impact: None,
                }
            }
        },
    }
}

/// Apply the per-cell update rule to one cell.
///
/// Besides computing exactly [`spec_update_cell`], this guarantees the column
/// offset accumulator never decreases, every produced value stays a fixed-point
/// value in range, an impact impulse is emitted only together with a fresh
/// jiggle, and a jiggling cell whose life has run out settles on this same
/// update.
pub fn update_cell(input: SlimePropsIn, dt: i64, p: &PhysicsProperties, off: i64) -> (r: CellUpdate)
    requires
        input.state.fx_wf(),
        fx_ok(input.y_bottom),
        fx_ok(dt),
        p.wf(),
        fx_ok(off),
    ensures
        r == spec_update_cell(input, dt, *p, off),
        r.props.wf(),
        fx_ok(r.jiggle_offset),
        r.jiggle_offset >= off,
        r.impact is Some ==> fx_ok(r.impact.unwrap()) && r.props.state is Jiggling,
        (input.state matches SlimeState::Jiggling { life, .. } && life <= 0) ==> r.props.state
            is Settled,
{
    match input.state {
        SlimeState::Settled => CellUpdate {
            props: SlimePropsOut {
                state: SlimeState::Settled,
                y_bottom: off,
                y_scale: FX_ONE,
                x_scale: FX_ONE,
            },
            jiggle_offset: fx_add(off, FX_ONE),
            impact: None,
        },
        SlimeState::Falling { velocity } => {
            let v2 = fx_add(velocity, fx_mul(dt, p.gravity));
            let yb = fx_sub(input.y_bottom, fx_mul(v2, dt));
            if yb <= off {
                CellUpdate {
                    props: SlimePropsOut {
                        state: SlimeState::Jiggling { momentum: 0, offset: 0, life: FX_ONE },
                        y_bottom: off,
                        y_scale: FX_ONE,
                        x_scale: FX_ONE,
                    },
                    jiggle_offset: fx_add(off, FX_ONE),
                    impact: Some(fx_mul(p.velocity_to_impact, v2)),
                }
            } else {
                let clamped = fx_clamp(fx_add(fx_div(v2, FX_NINE), FX_ONE), FX_ONE, FX_TWO);
                CellUpdate {
                    props: SlimePropsOut {
                        state: SlimeState::Falling { velocity: v2 },
                        y_bottom: yb,
                        y_scale: clamped,
                        x_scale: fx_div(FX_ONE, clamped),
                    },
                    jiggle_offset: off,
                    impact: None,
                }
            }
        },
        SlimeState::Jiggling { momentum, offset, life } => {
            let m1 = fx_mul(fx_add(momentum, fx_mul(fx_mul(p.jiggle_stiff, fx_neg(offset)), dt)), p.jiggle_damp);
            let o1 = fx_add(offset, fx_mul(m1, dt));
            let fade = fx_mul(life, p.jiggle_life_threshold_inverse);
            let o2 = if life < p.jiggle_life_threshold {
                fx_mul(o1, fade)
            } else {
                o1
            };
            let m2 = if life < p.jiggle_life_threshold {
                fx_mul(m1, fade)
            } else {
                m1
            };
            if life <= 0 || (fx_abs(o2) < p.jiggle_offset_epsilon && fx_abs(m2)
                < p.jiggle_momentum_epsilon) {
                CellUpdate {
                    props: SlimePropsOut {
                        state: SlimeState::Settled,
                        y_bottom: off,
                        y_scale: FX_ONE,
                        x_scale: FX_ONE,
                    },
                    jiggle_offset: fx_add(off, FX_ONE),
                    impact: None,
                }
            } else {
                let life2 = fx_sub(life, fx_mul(p.jiggle_life_decrease_rate, dt));
                let ys = fx_max(fx_sub(FX_ONE, o2), 0);
                CellUpdate {
                    props: SlimePropsOut {
                        state: SlimeState::Jiggling { momentum: m2, offset: o2, life: life2 },
                        y_bottom: off,
                        y_scale: ys,
                        x_scale: fx_div(FX_ONE, fx_max(ys, FX_HALF)),
                    },
                    jiggle_offset: fx_add(off, ys),
                    impact: None,
                }
            }
        },
    }
}

/// Volume-preserving stretch of a cell that keeps falling: whenever the
/// truncating fixed-point reciprocal of the clamped stretch factor is exact
/// (the factor divides 1.0 squared), the squash and stretch factors of the
/// update multiply back to exactly 1.0. In particular a cell falling downward
/// (non-positive velocity) has a stretch factor of exactly 1.0, which divides.
pub proof fn lemma_falling_volume_preserved(
    input: SlimePropsIn,
    dt: i64,
    p: PhysicsProperties,
    off: i64,
)
    requires
        input.state is Falling,
        spec_update_cell(input, dt, p, off).props.state is Falling,
        (1000000 as int) % (spec_update_cell(input, dt, p, off).props.y_scale as int) == 0,
    ensures
        spec_fx_mul(
            spec_update_cell(input, dt, p, off).props.x_scale,
            spec_update_cell(input, dt, p, off).props.y_scale,
        ) == FX_ONE,
{
    let r = spec_update_cell(input, dt, p, off);
    let c = r.props.y_scale;
    assert(FX_ONE <= c <= FX_TWO);
    let q = spec_fx_div(FX_ONE, c);
    assert(q == (1000000 as int) / (c as int));
    assert((1000000 as int) / (c as int) * (c as int) == 1000000) by (nonlinear_arith)
        requires
            1000 <= c as int <= 2000,
            (1000000 as int) % (c as int) == 0,
    ;
    assert(500 <= q as int <= 1000) by (nonlinear_arith)
        requires
            1000 <= c as int <= 2000,
            q as int == (1000000 as int) / (c as int),
            (1000000 as int) / (c as int) * (c as int) == 1000000,
    ;
    assert((q as int) * (c as int) == 1000000);
    assert(spec_fx_mul(q, c) == FX_ONE);
}

/// The impulse merge rule: applying an impulse always leaves the cell jiggling
/// with a fresh life. A settled cell starts a jiggle carrying the impulse as
/// momentum; a jiggling cell adds the impulse to its momentum and keeps its
/// offset; a still-falling cell folds its own fall velocity into the impulse.
pub open spec fn spec_impulse_state(
    state: SlimeState,
    impulse: i64,
    velocity_to_impact: i64,
) -> SlimeState {
    match state {
        SlimeState::Settled => SlimeState::Jiggling { momentum: impulse, offset: 0, life: FX_ONE },
        SlimeState::Falling { velocity } => SlimeState::Jiggling {
            momentum: spec_fx_add(impulse, spec_fx_mul(velocity, velocity_to_impact)),
            offset: 0,
            life: FX_ONE,
        },
        SlimeState::Jiggling { momentum, offset, life } => SlimeState::Jiggling {
            momentum: spec_fx_add(momentum, impulse),
            offset,
            life: FX_ONE,
        },
    }
}

/// Apply an impulse to a cell state; see [`spec_impulse_state`].
pub fn impulse_state(state: SlimeState, impulse: i64, velocity_to_impact: i64) -> (r: SlimeState)
    requires
        state.fx_wf(),
        fx_ok(impulse),
        fx_ok(velocity_to_impact),
    ensures
        r == spec_impulse_state(state, impulse, velocity_to_impact),
        r.fx_wf(),
        r is Jiggling,
{
    match state {
        SlimeState::Settled => SlimeState::Jiggling { momentum: impulse, offset: 0, life: FX_ONE },
        SlimeState::Falling { velocity } => SlimeState::Jiggling {
            momentum: fx_add(impulse, fx_mul(velocity, velocity_to_impact)),
            offset: 0,
            life: FX_ONE,
        },
        SlimeState::Jiggling { momentum, offset, life: _ } => SlimeState::Jiggling {
            momentum: fx_add(momentum, impulse),
            offset,
            life: FX_ONE,
        },
    }
}

} // verus!
