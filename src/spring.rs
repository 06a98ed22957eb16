use vstd::prelude::*;

use crate::params::SpringParams;
use crate::scalar::Scalar;
use crate::time_step::{SpringTimeStep, step_of};

verus! {

/// One spring: its position, its velocity, and the equilibrium that it is
/// drawn toward.
#[derive(Debug, Clone, Copy, PartialEq)]
pub struct Spring<F> {
    pub position: F,
    pub velocity: F,
    pub equilibrium: F,
}

/// The spring after one application of `t`. The offset from equilibrium and
/// the velocity go through the matrix; the equilibrium is carried through.
pub open spec fn updated<F: Scalar>(s: Spring<F>, t: SpringTimeStep<F>) -> Spring<F> {
    let op = s.position.spec_sub(s.equilibrium);
    let ov = s.velocity;
    Spring {
        position: op.spec_mul(t.pp).spec_add(ov.spec_mul(t.pv)).spec_add(s.equilibrium),
        velocity: op.spec_mul(t.vp).spec_add(ov.spec_mul(t.vv)),
        equilibrium: s.equilibrium,
    }
}

/// A spring at rest at `equilibrium`, with zero position and velocity.
pub open spec fn at_rest<F: Scalar>(equilibrium: F) -> Spring<F> {
    Spring { position: F::spec_zero(), velocity: F::spec_zero(), equilibrium }
}

impl<F: Scalar> Default for Spring<F> {
    fn default() -> (r: Self)
        ensures
            r == at_rest(F::spec_zero()),
    {
        Spring { position: F::zero(), velocity: F::zero(), equilibrium: F::zero() }
    }
}

impl<F: Scalar> Spring<F> {
    /// A spring with the given equilibrium, zero position and zero velocity.
    pub fn from_equilibrium(equilibrium: F) -> (r: Self)
        ensures
            r == at_rest(equilibrium),
    {
        Spring { position: F::zero(), velocity: F::zero(), equilibrium }
    }

    /// Advances this spring by a precomputed time step.
    pub fn update(&mut self, time_step: SpringTimeStep<F>)
        ensures
            *final(self) == updated(*old(self), time_step),
    {
        let op = self.position.sub(self.equilibrium);
        let ov = self.velocity;

        self.position = op.mul(time_step.pp).add(ov.mul(time_step.pv)).add(self.equilibrium);
        self.velocity = op.mul(time_step.vp).add(ov.mul(time_step.vv));
    }

    /// Advances this spring by `delta` under `params`, deriving the time step
    /// for this call alone.
    pub fn update_single(&mut self, params: SpringParams<F>, delta: F)
        ensures
            *final(self) == updated(*old(self), step_of(params, delta)),
    {
        self.update(SpringTimeStep::new(params, delta));
    }
}

} // verus!
