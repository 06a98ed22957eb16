use vstd::prelude::*;

use crate::params::SpringParams;
use crate::scalar::Scalar;
use crate::spring::{Spring, updated};

verus! {

/// The transition matrix of a spring over one time step: applied to the
/// offset from equilibrium `x` and the velocity `v`, it gives
/// `x' = x * pp + v * pv` and `v' = x * vp + v * vv`.
///
/// It depends on the regime parameters and the step alone, so one value
/// serves any number of springs that share them.
#[derive(Debug, Clone, Copy, PartialEq)]
pub struct SpringTimeStep<F> {
    pub pp: F,
    pub pv: F,
    pub vp: F,
    pub vv: F,
}

/// The matrix that leaves a spring where it is.
pub open spec fn identity_step<F: Scalar>() -> SpringTimeStep<F> {
    SpringTimeStep { pp: F::spec_one(), pv: F::spec_zero(), vp: F::spec_zero(), vv: F::spec_one() }
}

/// Over-damped: the sum of two decaying exponential modes.
pub open spec fn over_damped_step<F: Scalar>(zb: F, z1: F, z2: F, delta: F) -> SpringTimeStep<F> {
    let e1 = z1.spec_mul(delta).spec_exp();
    let e2 = z2.spec_mul(delta).spec_exp();
    let inv_2zb = F::spec_one().spec_div(F::spec_one().spec_add(F::spec_one()).spec_mul(zb));
    let e1_2zb = e1.spec_mul(inv_2zb);
    let e2_2zb = e2.spec_mul(inv_2zb);
    let z1e1_2zb = z1.spec_mul(e1_2zb);
    let z2e2_2zb = z2.spec_mul(e2_2zb);
    SpringTimeStep {
        pp: e1_2zb.spec_mul(z2).spec_sub(z2e2_2zb).spec_add(e2),
        pv: e1_2zb.spec_neg().spec_add(e2_2zb),
        vp: z1e1_2zb.spec_sub(z2e2_2zb).spec_add(e2).spec_mul(z2),
        vv: z1e1_2zb.spec_neg().spec_add(z2e2_2zb),
    }
}

/// Under-damped: a decaying exponential modulated by a sine and a cosine.
pub open spec fn under_damped_step<F: Scalar>(oz: F, a: F, delta: F) -> SpringTimeStep<F> {
    let exp = oz.spec_neg().spec_mul(delta).spec_exp();
    let cos = a.spec_mul(delta).spec_cos();
    let sin = a.spec_mul(delta).spec_sin();
    let inv_alpha = F::spec_one().spec_div(a);
    let exp_sin = exp.spec_mul(sin);
    let exp_cos = exp.spec_mul(cos);
    let exp_ozs_alpha = exp.spec_mul(oz).spec_mul(sin).spec_mul(inv_alpha);
    SpringTimeStep {
        pp: exp_cos.spec_add(exp_ozs_alpha),
        pv: exp_sin.spec_mul(inv_alpha),
        vp: exp_sin.spec_neg().spec_mul(a).spec_sub(oz.spec_mul(exp_ozs_alpha)),
        vv: exp_cos.spec_sub(exp_ozs_alpha),
    }
}

/// Critically damped: the repeated-root solution. With `E = exp(-w * delta)`
/// the matrix is `(1 + w * delta) * E`, `delta * E`, `-w * w * delta * E` and
/// `(1 - w * delta) * E`.
pub open spec fn critically_damped_step<F: Scalar>(w: F, delta: F) -> SpringTimeStep<F> {
    let exp = w.spec_neg().spec_mul(delta).spec_exp();
    let time_exp = delta.spec_mul(exp);
    let time_exp_freq = time_exp.spec_mul(w);
    SpringTimeStep {
        pp: time_exp_freq.spec_add(exp),
        pv: time_exp,
        vp: w.spec_neg().spec_mul(time_exp_freq),
        vv: time_exp_freq.spec_neg().spec_add(exp),
    }
}

/// The time step of the given regime parameters over `delta`.
pub open spec fn step_of<F: Scalar>(params: SpringParams<F>, delta: F) -> SpringTimeStep<F> {
    match params {
        SpringParams::Static => identity_step(),
        SpringParams::OverDamped { zb, z1, z2 } => over_damped_step(zb, z1, z2, delta),
        SpringParams::UnderDamped { oz, a } => under_damped_step(oz, a, delta),
        SpringParams::CriticallyDamped { angular_freq } => critically_damped_step(angular_freq, delta),
    }
}

impl<F: Scalar> Default for SpringTimeStep<F> {
    fn default() -> (r: Self)
        ensures
            r == identity_step::<F>(),
    {
        SpringTimeStep { pp: F::one(), pv: F::zero(), vp: F::zero(), vv: F::one() }
    }
}

impl<F: Scalar> SpringTimeStep<F> {
    /// Derives the time step of `params` over `delta`. Any `delta` is
    /// accepted, zero and negative ones included.
    pub fn new(params: SpringParams<F>, delta: F) -> (r: Self)
        ensures
            r == step_of(params, delta),
    {
        match params {
            SpringParams::Static => Self::default(),
            SpringParams::OverDamped { zb, z1, z2 } => {
                let e1 = z1.mul(delta).exp();
                let e2 = z2.mul(delta).exp();
                let inv_2zb = F::one().div(F::one().add(F::one()).mul(zb));

                let e1_2zb = e1.mul(inv_2zb);
                let e2_2zb = e2.mul(inv_2zb);

                let z1e1_2zb = z1.mul(e1_2zb);
                let z2e2_2zb = z2.mul(e2_2zb);

                SpringTimeStep {
                    pp: e1_2zb.mul(z2).sub(z2e2_2zb).add(e2),
                    pv: e1_2zb.neg().add(e2_2zb),
                    vp: z1e1_2zb.sub(z2e2_2zb).add(e2).mul(z2),
                    vv: z1e1_2zb.neg().add(z2e2_2zb),
                }
            },
            SpringParams::UnderDamped { oz, a } => {
                let exp = oz.neg().mul(delta).exp();
                let cos = a.mul(delta).cos();
                let sin = a.mul(delta).sin();

                let inv_alpha = F::one().div(a);

                let exp_sin = exp.mul(sin);
                let exp_cos = exp.mul(cos);
                let exp_ozs_alpha = exp.mul(oz).mul(sin).mul(inv_alpha);

                SpringTimeStep {
                    pp: exp_cos.add(exp_ozs_alpha),
                    pv: exp_sin.mul(inv_alpha),
                    vp: exp_sin.neg().mul(a).sub(oz.mul(exp_ozs_alpha)),
                    vv: exp_cos.sub(exp_ozs_alpha),
                }
            },
            SpringParams::CriticallyDamped { angular_freq } => {
                let exp = angular_freq.neg().mul(delta).exp();
                let time_exp = delta.mul(exp);
                let time_exp_freq = time_exp.mul(angular_freq);

                SpringTimeStep {
                    pp: time_exp_freq.add(exp),
                    pv: time_exp,
                    vp: angular_freq.neg().mul(time_exp_freq),
                    vv: time_exp_freq.neg().add(exp),
                }
            },
        }
    }

    /// Applies this time step to each of the springs, in order.
    pub fn update_many(self, springs: &mut Vec<Spring<F>>)
        ensures
            final(springs)@.len() == old(springs)@.len(),
            forall|i: int|
                0 <= i < old(springs)@.len() ==> #[trigger] final(springs)@[i] == updated(
                    old(springs)@[i],
                    self,
                ),
    {
        let n = springs.len();
        let mut i: usize = 0;
        while i < n
            invariant
                n == old(springs)@.len(),
                springs@.len() == n,
                0 <= i <= n,
                forall|j: int| 0 <= j < i ==> #[trigger] springs@[j] == updated(old(springs)@[j], self),
                forall|j: int| i <= j < n ==> #[trigger] springs@[j] == old(springs)@[j],
            decreases n - i,
        {
            let mut spring = springs[i];
            spring.update(self);
            springs.set(i, spring);
            i = i + 1;
        }
    }
}

} // verus!
