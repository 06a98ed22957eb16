use vstd::prelude::*;

use crate::collection::all_updated;
use crate::config::SpringConfig;
use crate::params::{
    SpringParams,
    is_over_damped_ratio,
    is_static_config,
    is_under_damped_ratio,
    params_of,
};
use crate::scalar::Scalar;
use crate::spring::{Spring, at_rest, updated};
use crate::time_step::{SpringTimeStep, identity_step, step_of};

verus! {

/// Every configuration falls into exactly one regime. A frequency below
/// epsilon makes it static whatever the damping; otherwise a ratio above
/// one plus epsilon makes it over-damped, one below one minus epsilon
/// under-damped, and a ratio within epsilon of one, the bounds included,
/// critically damped. No ratio is both above one plus epsilon and below one
/// minus epsilon.
pub proof fn lemma_regimes_partition<F: Scalar>(c: SpringConfig<F>)
    ensures
        !(is_over_damped_ratio(c) && is_under_damped_ratio(c)),
        params_of(c) is Static <==> is_static_config(c),
        params_of(c) is OverDamped <==> !is_static_config(c) && is_over_damped_ratio(c),
        params_of(c) is UnderDamped <==> !is_static_config(c) && is_under_damped_ratio(c),
        params_of(c) is CriticallyDamped <==> !is_static_config(c) && !is_over_damped_ratio(c)
            && !is_under_damped_ratio(c),
        (params_of(c) is Static) as int + (params_of(c) is OverDamped) as int + (params_of(
            c,
        ) is UnderDamped) as int + (params_of(c) is CriticallyDamped) as int == 1,
{
    let d = c.spec_damping_ratio();
    let hi = F::spec_one().spec_add(F::spec_epsilon());
    let lo = F::spec_one().spec_sub(F::spec_epsilon());
    if is_over_damped_ratio(c) && is_under_damped_ratio(c) {
        F::lemma_lt_transitive(hi, d, lo);
        F::lemma_epsilon_band();
        F::lemma_lt_asymmetric(lo, hi);
    }
}

/// A static spring's time step is the identity matrix, whatever the step.
pub proof fn lemma_static_step_is_identity<F: Scalar>(delta: F)
    ensures
        step_of(SpringParams::<F>::Static, delta) == identity_step::<F>(),
{
}

/// A collection built from equilibriums and updated by a step holds, slot
/// by slot, what a spring built alone from that slot's equilibrium holds
/// after an update by the time step derived once from the same parameters.
pub proof fn lemma_collection_update_per_slot<F: Scalar>(
    equilibriums: Seq<F>,
    params: SpringParams<F>,
    delta: F,
)
    ensures
        ({
            let built = equilibriums.map_values(|e: F| at_rest(e));
            let t = step_of(params, delta);
            &&& all_updated(built, t).len() == equilibriums.len()
            &&& forall|i: int|
                0 <= i < equilibriums.len() ==> #[trigger] all_updated(built, t)[i] == updated(
                    at_rest(equilibriums[i]),
                    t,
                )
        }),
{
}

/// Updating a collection by a given time step gives, slot by slot, what
/// updating each spring alone by it gives.
pub proof fn lemma_collection_update_with_per_slot<F: Scalar>(
    springs: Seq<Spring<F>>,
    time_step: SpringTimeStep<F>,
)
    ensures
        all_updated(springs, time_step).len() == springs.len(),
        forall|i: int|
            0 <= i < springs.len() ==> #[trigger] all_updated(springs, time_step)[i] == updated(
                springs[i],
                time_step,
            ),
{
}

} // verus!
