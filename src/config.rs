use vstd::prelude::*;

use crate::scalar::Scalar;

verus! {

/// Configuration of a spring: its angular frequency and its damping ratio,
/// both at least zero.
#[derive(Debug, Copy, PartialEq)]
pub struct SpringConfig<F: Scalar> {
    pub(crate) angular_freq: F,
    pub(crate) damping_ratio: F,
}

impl<F: Scalar> Clone for SpringConfig<F> {
    fn clone(&self) -> (r: Self)
        ensures
            r == *self,
    {
        *self
    }
}

impl<F: Scalar> SpringConfig<F> {
    /// Both parameters are at least zero.
    #[verifier::type_invariant]
    spec fn non_negative(self) -> bool {
        &&& !self.angular_freq.spec_lt(F::spec_zero())
        &&& !self.damping_ratio.spec_lt(F::spec_zero())
    }

    /// The stored angular frequency.
    pub closed spec fn spec_angular_freq(self) -> F {
        self.angular_freq
    }

    /// The stored damping ratio.
    pub closed spec fn spec_damping_ratio(self) -> F {
        self.damping_ratio
    }

    /// Constructs a configuration, raising negative parameters to zero.
    pub fn new(angular_freq: F, damping_ratio: F) -> (r: Self)
        ensures
            r.spec_angular_freq() == angular_freq.spec_max(F::spec_zero()),
            r.spec_damping_ratio() == damping_ratio.spec_max(F::spec_zero()),
            !r.spec_angular_freq().spec_lt(F::spec_zero()),
            !r.spec_damping_ratio().spec_lt(F::spec_zero()),
    {
        let w = angular_freq.max(F::zero());
        let d = damping_ratio.max(F::zero());
        proof {
            F::lemma_max_not_below(angular_freq, F::spec_zero());
            F::lemma_max_not_below(damping_ratio, F::spec_zero());
        }
        SpringConfig { angular_freq: w, damping_ratio: d }
    }

    /// The angular frequency; at least zero.
    pub fn angular_freq(&self) -> (r: F)
        ensures
            r == self.spec_angular_freq(),
            !r.spec_lt(F::spec_zero()),
    {
        proof {
            use_type_invariant(self);
        }
        self.angular_freq
    }

    /// The damping ratio; at least zero.
    pub fn damping_ratio(&self) -> (r: F)
        ensures
            r == self.spec_damping_ratio(),
            !r.spec_lt(F::spec_zero()),
    {
        proof {
            use_type_invariant(self);
        }
        self.damping_ratio
    }
}

} // verus!
