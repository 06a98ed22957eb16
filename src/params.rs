use vstd::prelude::*;

use crate::config::SpringConfig;
use crate::scalar::Scalar;

verus! {

/// Coefficients of a spring that depend on its configuration alone, tagged
/// by the damping regime that the configuration falls into.
#[derive(Debug, Clone, Copy, PartialEq)]
pub enum SpringParams<F> {
    /// The spring has no angular frequency and does not move.
    Static,
    /// The damping ratio is above one.
    OverDamped { zb: F, z1: F, z2: F },
    /// The damping ratio is one, within epsilon.
    CriticallyDamped { angular_freq: F },
    /// The damping ratio is below one.
    UnderDamped { oz: F, a: F },
}

/// The angular frequency is below epsilon.
pub open spec fn is_static_config<F: Scalar>(c: SpringConfig<F>) -> bool {
    c.spec_angular_freq().spec_lt(F::spec_epsilon())
}

/// The damping ratio is above one plus epsilon.
pub open spec fn is_over_damped_ratio<F: Scalar>(c: SpringConfig<F>) -> bool {
    F::spec_one().spec_add(F::spec_epsilon()).spec_lt(c.spec_damping_ratio())
}

/// The damping ratio is below one minus epsilon.
pub open spec fn is_under_damped_ratio<F: Scalar>(c: SpringConfig<F>) -> bool {
    c.spec_damping_ratio().spec_lt(F::spec_one().spec_sub(F::spec_epsilon()))
}

/// The regime parameters of a configuration.
pub open spec fn params_of<F: Scalar>(c: SpringConfig<F>) -> SpringParams<F> {
    let w = c.spec_angular_freq();
    let d = c.spec_damping_ratio();
    if is_static_config(c) {
        SpringParams::Static
    } else if is_over_damped_ratio(c) {
        let za = w.spec_neg().spec_mul(d);
        let zb = w.spec_mul(d.spec_mul(d).spec_sub(F::spec_one()).spec_sqrt());
        SpringParams::OverDamped { zb, z1: za.spec_sub(zb), z2: za.spec_add(zb) }
    } else if is_under_damped_ratio(c) {
        SpringParams::UnderDamped {
            oz: w.spec_mul(d),
            a: w.spec_mul(F::spec_one().spec_sub(d.spec_mul(d)).spec_sqrt()),
        }
    } else {
        SpringParams::CriticallyDamped { angular_freq: w }
    }
}

impl<F: Scalar> SpringParams<F> {
    /// Classifies a configuration into its regime and computes the regime's
    /// constants.
    pub fn from_config(config: SpringConfig<F>) -> (r: Self)
        ensures
            r == params_of(config),
    {
        let angular_freq = config.angular_freq();
        let damping_ratio = config.damping_ratio();
        if angular_freq.lt(F::epsilon()) {
            return SpringParams::Static;
        }
        if F::one().add(F::epsilon()).lt(damping_ratio) {
            let za = angular_freq.neg().mul(damping_ratio);
            let zb = angular_freq.mul(damping_ratio.mul(damping_ratio).sub(F::one()).sqrt());
            let z1 = za.sub(zb);
            let z2 = za.add(zb);
            SpringParams::OverDamped { zb, z1, z2 }
        } else if damping_ratio.lt(F::one().sub(F::epsilon())) {
            let oz = angular_freq.mul(damping_ratio);
            let a = angular_freq.mul(F::one().sub(damping_ratio.mul(damping_ratio)).sqrt());
            SpringParams::UnderDamped { oz, a }
        } else {
            SpringParams::CriticallyDamped { angular_freq }
        }
    }
}

impl<F: Scalar> From<SpringConfig<F>> for SpringParams<F> {
    fn from(config: SpringConfig<F>) -> (r: Self) {
        SpringParams::from_config(config)
    }
}

impl<F: Scalar> vstd::std_specs::convert::FromSpecImpl<SpringConfig<F>> for SpringParams<F> {
    open spec fn obeys_from_spec() -> bool {
        true
    }

    open spec fn from_spec(v: SpringConfig<F>) -> SpringParams<F> {
        params_of(v)
    }
}

} // verus!
