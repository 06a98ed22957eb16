use vstd::prelude::*;

use crate::params::SpringParams;
use crate::scalar::Scalar;
use crate::spring::{Spring, at_rest, updated};
use crate::time_step::{SpringTimeStep, step_of};

verus! {

/// Why a collection refused a write.
#[derive(Debug, Clone, Copy, PartialEq, Eq, Structural)]
pub enum SpringError {
    /// A sequence of values did not have one value per spring.
    InvalidLength { expected: usize, actual: usize },
    /// A slot index was not below the number of springs.
    IndexOutOfRange { index: usize, len: usize },
}

/// Springs that all share one set of regime parameters, for instance the
/// axes of a spring in two or three dimensions. The number of springs is set
/// at construction; each spring's equilibrium, position and velocity are its
/// own.
pub struct SpringCollection<F> {
    pub(crate) params: SpringParams<F>,
    pub(crate) springs: Vec<Spring<F>>,
}

/// Each spring after one application of `t`.
pub open spec fn all_updated<F: Scalar>(s: Seq<Spring<F>>, t: SpringTimeStep<F>) -> Seq<Spring<F>> {
    s.map_values(|x: Spring<F>| updated(x, t))
}

pub open spec fn positions_of<F>(s: Seq<Spring<F>>) -> Seq<F> {
    s.map_values(|x: Spring<F>| x.position)
}

pub open spec fn velocities_of<F>(s: Seq<Spring<F>>) -> Seq<F> {
    s.map_values(|x: Spring<F>| x.velocity)
}

pub open spec fn equilibriums_of<F>(s: Seq<Spring<F>>) -> Seq<F> {
    s.map_values(|x: Spring<F>| x.equilibrium)
}

impl<F: Scalar> SpringCollection<F> {
    /// The shared regime parameters.
    pub closed spec fn spec_params(&self) -> SpringParams<F> {
        self.params
    }

    /// The springs, in slot order.
    pub closed spec fn spec_springs(&self) -> Seq<Spring<F>> {
        self.springs@
    }

    /// `len` springs at rest at equilibrium zero.
    pub fn from_params(params: SpringParams<F>, len: usize) -> (r: Self)
        ensures
            r.spec_params() == params,
            r.spec_springs() == Seq::new(len as nat, |i: int| at_rest(F::spec_zero())),
    {
        Self::from_equilibrium(params, F::zero(), len)
    }

    /// `len` springs at rest, all at `equilibrium`.
    pub fn from_equilibrium(params: SpringParams<F>, equilibrium: F, len: usize) -> (r: Self)
        ensures
            r.spec_params() == params,
            r.spec_springs() == Seq::new(len as nat, |i: int| at_rest(equilibrium)),
    {
        let mut springs: Vec<Spring<F>> = Vec::new();
        let mut i: usize = 0;
        while i < len
            invariant
                0 <= i <= len,
                springs@ == Seq::new(i as nat, |j: int| at_rest(equilibrium)),
            decreases len - i,
        {
            springs.push(Spring::from_equilibrium(equilibrium));
            i = i + 1;
            assert(springs@ =~= Seq::new(i as nat, |j: int| at_rest(equilibrium)));
        }
        SpringCollection { params, springs }
    }

    /// One spring at rest at each of the given equilibriums, in order.
    pub fn from_equilibriums(params: SpringParams<F>, equilibriums: Vec<F>) -> (r: Self)
        ensures
            r.spec_params() == params,
            r.spec_springs() == equilibriums@.map_values(|e: F| at_rest(e)),
    {
        let mut springs: Vec<Spring<F>> = Vec::new();
        let mut i: usize = 0;
        while i < equilibriums.len()
            invariant
                0 <= i <= equilibriums@.len(),
                springs@ == equilibriums@.subrange(0, i as int).map_values(|e: F| at_rest(e)),
            decreases equilibriums@.len() - i,
        {
            springs.push(Spring::from_equilibrium(equilibriums[i]));
            i = i + 1;
            assert(springs@ =~= equilibriums@.subrange(0, i as int).map_values(|e: F| at_rest(e)));
        }
        assert(equilibriums@.subrange(0, i as int) =~= equilibriums@);
        SpringCollection { params, springs }
    }

    /// The number of springs.
    pub fn len(&self) -> (r: usize)
        ensures
            r == self.spec_springs().len(),
    {
        self.springs.len()
    }

    /// The spring in slot `index`, if there is one.
    pub fn get(&self, index: usize) -> (r: Option<Spring<F>>)
        ensures
            index < self.spec_springs().len() ==> r == Some(self.spec_springs()[index as int]),
            index >= self.spec_springs().len() ==> r is None,
    {
        if index < self.springs.len() {
            Some(self.springs[index])
        } else {
            None
        }
    }

    /// Advances every spring by `delta` under the shared parameters,
    /// deriving the time step once.
    pub fn update(&mut self, delta: F)
        ensures
            final(self).spec_params() == old(self).spec_params(),
            final(self).spec_springs() == all_updated(
                old(self).spec_springs(),
                step_of(old(self).spec_params(), delta),
            ),
    {
        let time_step = SpringTimeStep::new(self.params, delta);
        self.update_with(time_step);
    }

    /// Advances every spring by the given time step, which need not come
    /// from this collection's own parameters.
    pub fn update_with(&mut self, time_step: SpringTimeStep<F>)
        ensures
            final(self).spec_params() == old(self).spec_params(),
            final(self).spec_springs() == all_updated(old(self).spec_springs(), time_step),
    {
        time_step.update_many(&mut self.springs);
        assert(self.springs@ =~= all_updated(old(self).springs@, time_step));
    }
}

impl<F: Scalar> SpringCollection<F> {
    /// The positions of the springs, in slot order.
    pub fn positions(&self) -> (r: Vec<F>)
        ensures
            r@ == positions_of(self.spec_springs()),
    {
        let mut r: Vec<F> = Vec::new();
        let mut i: usize = 0;
        while i < self.springs.len()
            invariant
                0 <= i <= self.springs@.len(),
                r@ == positions_of(self.springs@.subrange(0, i as int)),
            decreases self.springs@.len() - i,
        {
            r.push(self.springs[i].position);
            i = i + 1;
            assert(r@ =~= positions_of(self.springs@.subrange(0, i as int)));
        }
        assert(self.springs@.subrange(0, i as int) =~= self.springs@);
        r
    }

    /// Sets the position of the spring in slot `index`; fails, changing nothing,
    /// where there is no such slot.
    pub fn set_position(&mut self, index: usize, position: F) -> (r: Result<(), SpringError>)
        ensures
            final(self).spec_params() == old(self).spec_params(),
            index < old(self).spec_springs().len() <==> r is Ok,
            r is Ok ==> final(self).spec_springs() == old(self).spec_springs().update(
                index as int,
                (Spring { position, ..old(self).spec_springs()[index as int] }),
            ),
            r is Err ==> r == Err::<(), SpringError>(
                SpringError::IndexOutOfRange { index, len: old(self).spec_springs().len() as usize },
            ),
            r is Err ==> *final(self) == *old(self),
    {
        if index >= self.springs.len() {
            return Err(SpringError::IndexOutOfRange { index, len: self.springs.len() });
        }
        let mut spring = self.springs[index];
        spring.position = position;
        self.springs.set(index, spring);
        Ok(())
    }

    /// Sets the position of every spring, one value per slot in slot order; fails,
    /// changing nothing, where the number of values is not the number of
    /// springs.
    pub fn set_positions(&mut self, positions: Vec<F>) -> (r: Result<(), SpringError>)
        ensures
            final(self).spec_params() == old(self).spec_params(),
            positions@.len() == old(self).spec_springs().len() <==> r is Ok,
            r is Ok ==> final(self).spec_springs().len() == old(self).spec_springs().len(),
            r is Ok ==> positions_of(final(self).spec_springs()) == positions@,
            r is Ok ==> forall|i: int|
                0 <= i < old(self).spec_springs().len() ==> {
                    &&& final(self).spec_springs()[i].velocity == old(self).spec_springs()[i].velocity
                    &&& final(self).spec_springs()[i].equilibrium == old(self).spec_springs()[i].equilibrium
                },
            r is Err ==> r == Err::<(), SpringError>(
                SpringError::InvalidLength {
                    expected: old(self).spec_springs().len() as usize,
                    actual: positions@.len() as usize,
                },
            ),
            r is Err ==> *final(self) == *old(self),
    {
        let n = self.springs.len();
        if positions.len() != n {
            return Err(SpringError::InvalidLength { expected: n, actual: positions.len() });
        }
        let mut i: usize = 0;
        while i < n
            invariant
                n == old(self).springs@.len(),
                n == positions@.len(),
                self.params == old(self).params,
                self.springs@.len() == n,
                0 <= i <= n,
                forall|j: int|
                    0 <= j < n ==> ({
                        let s = #[trigger] self.springs@[j];
                        let o = old(self).springs@[j];
                        &&& s.velocity == o.velocity
                        &&& s.equilibrium == o.equilibrium
                        &&& s.position == (if j < i { positions@[j] } else { o.position })
                    }),
            decreases n - i,
        {
            let mut spring = self.springs[i];
            spring.position = positions[i];
            self.springs.set(i, spring);
            i = i + 1;
        }
        assert(positions_of(self.springs@) =~= positions@);
        Ok(())
    }

    /// The velocities of the springs, in slot order.
    pub fn velocities(&self) -> (r: Vec<F>)
        ensures
            r@ == velocities_of(self.spec_springs()),
    {
        let mut r: Vec<F> = Vec::new();
        let mut i: usize = 0;
        while i < self.springs.len()
            invariant
                0 <= i <= self.springs@.len(),
                r@ == velocities_of(self.springs@.subrange(0, i as int)),
            decreases self.springs@.len() - i,
        {
            r.push(self.springs[i].velocity);
            i = i + 1;
            assert(r@ =~= velocities_of(self.springs@.subrange(0, i as int)));
        }
        assert(self.springs@.subrange(0, i as int) =~= self.springs@);
        r
    }

    /// Sets the velocity of the spring in slot `index`; fails, changing nothing,
    /// where there is no such slot.
    pub fn set_velocity(&mut self, index: usize, velocity: F) -> (r: Result<(), SpringError>)
        ensures
            final(self).spec_params() == old(self).spec_params(),
            index < old(self).spec_springs().len() <==> r is Ok,
            r is Ok ==> final(self).spec_springs() == old(self).spec_springs().update(
                index as int,
                (Spring { velocity, ..old(self).spec_springs()[index as int] }),
            ),
            r is Err ==> r == Err::<(), SpringError>(
                SpringError::IndexOutOfRange { index, len: old(self).spec_springs().len() as usize },
            ),
            r is Err ==> *final(self) == *old(self),
    {
        if index >= self.springs.len() {
            return Err(SpringError::IndexOutOfRange { index, len: self.springs.len() });
        }
        let mut spring = self.springs[index];
        spring.velocity = velocity;
        self.springs.set(index, spring);
        Ok(())
    }

    /// Sets the velocity of every spring, one value per slot in slot order; fails,
    /// changing nothing, where the number of values is not the number of
    /// springs.
    pub fn set_velocities(&mut self, velocities: Vec<F>) -> (r: Result<(), SpringError>)
        ensures
            final(self).spec_params() == old(self).spec_params(),
            velocities@.len() == old(self).spec_springs().len() <==> r is Ok,
            r is Ok ==> final(self).spec_springs().len() == old(self).spec_springs().len(),
            r is Ok ==> velocities_of(final(self).spec_springs()) == velocities@,
            r is Ok ==> forall|i: int|
                0 <= i < old(self).spec_springs().len() ==> {
                    &&& final(self).spec_springs()[i].position == old(self).spec_springs()[i].position
                    &&& final(self).spec_springs()[i].equilibrium == old(self).spec_springs()[i].equilibrium
                },
            r is Err ==> r == Err::<(), SpringError>(
                SpringError::InvalidLength {
                    expected: old(self).spec_springs().len() as usize,
                    actual: velocities@.len() as usize,
                },
            ),
            r is Err ==> *final(self) == *old(self),
    {
        let n = self.springs.len();
        if velocities.len() != n {
            return Err(SpringError::InvalidLength { expected: n, actual: velocities.len() });
        }
        let mut i: usize = 0;
        while i < n
            invariant
                n == old(self).springs@.len(),
                n == velocities@.len(),
                self.params == old(self).params,
                self.springs@.len() == n,
                0 <= i <= n,
                forall|j: int|
                    0 <= j < n ==> ({
                        let s = #[trigger] self.springs@[j];
                        let o = old(self).springs@[j];
                        &&& s.position == o.position
                        &&& s.equilibrium == o.equilibrium
                        &&& s.velocity == (if j < i { velocities@[j] } else { o.velocity })
                    }),
            decreases n - i,
        {
            let mut spring = self.springs[i];
            spring.velocity = velocities[i];
            self.springs.set(i, spring);
            i = i + 1;
        }
        assert(velocities_of(self.springs@) =~= velocities@);
        Ok(())
    }

    /// The equilibriums of the springs, in slot order.
    pub fn equilibriums(&self) -> (r: Vec<F>)
        ensures
            r@ == equilibriums_of(self.spec_springs()),
    {
        let mut r: Vec<F> = Vec::new();
        let mut i: usize = 0;
        while i < self.springs.len()
            invariant
                0 <= i <= self.springs@.len(),
                r@ == equilibriums_of(self.springs@.subrange(0, i as int)),
            decreases self.springs@.len() - i,
        {
            r.push(self.springs[i].equilibrium);
            i = i + 1;
            assert(r@ =~= equilibriums_of(self.springs@.subrange(0, i as int)));
        }
        assert(self.springs@.subrange(0, i as int) =~= self.springs@);
        r
    }

    /// Sets the equilibrium of the spring in slot `index`; fails, changing nothing,
    /// where there is no such slot.
    pub fn set_equilibrium(&mut self, index: usize, equilibrium: F) -> (r: Result<(), SpringError>)
        ensures
            final(self).spec_params() == old(self).spec_params(),
            index < old(self).spec_springs().len() <==> r is Ok,
            r is Ok ==> final(self).spec_springs() == old(self).spec_springs().update(
                index as int,
                (Spring { equilibrium, ..old(self).spec_springs()[index as int] }),
            ),
            r is Err ==> r == Err::<(), SpringError>(
                SpringError::IndexOutOfRange { index, len: old(self).spec_springs().len() as usize },
            ),
            r is Err ==> *final(self) == *old(self),
    {
        if index >= self.springs.len() {
            return Err(SpringError::IndexOutOfRange { index, len: self.springs.len() });
        }
        let mut spring = self.springs[index];
        spring.equilibrium = equilibrium;
        self.springs.set(index, spring);
        Ok(())
    }

    /// Sets the equilibrium of every spring, one value per slot in slot order; fails,
    /// changing nothing, where the number of values is not the number of
    /// springs.
    pub fn set_equilibriums(&mut self, equilibriums: Vec<F>) -> (r: Result<(), SpringError>)
        ensures
            final(self).spec_params() == old(self).spec_params(),
            equilibriums@.len() == old(self).spec_springs().len() <==> r is Ok,
            r is Ok ==> final(self).spec_springs().len() == old(self).spec_springs().len(),
            r is Ok ==> equilibriums_of(final(self).spec_springs()) == equilibriums@,
            r is Ok ==> forall|i: int|
                0 <= i < old(self).spec_springs().len() ==> {
                    &&& final(self).spec_springs()[i].position == old(self).spec_springs()[i].position
                    &&& final(self).spec_springs()[i].velocity == old(self).spec_springs()[i].velocity
                },
            r is Err ==> r == Err::<(), SpringError>(
                SpringError::InvalidLength {
                    expected: old(self).spec_springs().len() as usize,
                    actual: equilibriums@.len() as usize,
                },
            ),
            r is Err ==> *final(self) == *old(self),
    {
        let n = self.springs.len();
        if equilibriums.len() != n {
            return Err(SpringError::InvalidLength { expected: n, actual: equilibriums.len() });
        }
        let mut i: usize = 0;
        while i < n
            invariant
                n == old(self).springs@.len(),
                n == equilibriums@.len(),
                self.params == old(self).params,
                self.springs@.len() == n,
                0 <= i <= n,
                forall|j: int|
                    0 <= j < n ==> ({
                        let s = #[trigger] self.springs@[j];
                        let o = old(self).springs@[j];
                        &&& s.position == o.position
                        &&& s.velocity == o.velocity
                        &&& s.equilibrium == (if j < i { equilibriums@[j] } else { o.equilibrium })
                    }),
            decreases n - i,
        {
            let mut spring = self.springs[i];
            spring.equilibrium = equilibriums[i];
            self.springs.set(i, spring);
            i = i + 1;
        }
        assert(equilibriums_of(self.springs@) =~= equilibriums@);
        Ok(())
    }
}

} // verus!
