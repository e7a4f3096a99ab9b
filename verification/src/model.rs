use vstd::prelude::*;
use crate::error::{Field, ModelError};
use crate::linalg::{
    vec_add, vec_div, vec_over, vec_plus, vec_scale, vec_scale_left, vec_scaled_by, vec_times,
};
use crate::scalar::Scalar;

verus! {

/// The integration scheme of a run.
#[derive(Debug, Clone, Copy, PartialEq, Eq, Structural)]
pub enum SolverType {
    Euler,
    RungeKutta,
}

/// The state after one explicit Euler step of size `dt` from the state `x`
/// under the derivative `f`: `x + f(x) * dt`.
pub open spec fn euler_next<S: Scalar>(f: spec_fn(Seq<S>) -> Seq<S>, x: Seq<S>, dt: S) -> Seq<S> {
    vec_plus(x, vec_times(f(x), dt))
}

/// The state after one classical Runge-Kutta step of size `dt` from `x`
/// under the derivative `f`.
///
/// With `d1 = f(x) * dt`, `d2 = f(x + d1 / 2) * dt`, `d3 = f(x + d2 / 2) * dt`
/// and `d4 = f(x + d3) * dt`, the result is
/// `x + (((d1 + 2 * d2) + 2 * d3) + d4) / 6`.
pub open spec fn runge_kutta_next<S: Scalar>(
    f: spec_fn(Seq<S>) -> Seq<S>,
    x: Seq<S>,
    dt: S,
) -> Seq<S> {
    let two = S::of_index(2);
    let six = S::of_index(6);
    let d1 = vec_times(f(x), dt);
    let d2 = vec_times(f(vec_plus(x, vec_over(d1, two))), dt);
    let d3 = vec_times(f(vec_plus(x, vec_over(d2, two))), dt);
    let d4 = vec_times(f(vec_plus(x, d3)), dt);
    let total = vec_plus(
        vec_plus(vec_plus(d1, vec_scaled_by(two, d2)), vec_scaled_by(two, d3)),
        d4,
    );
    vec_plus(x, vec_over(total, six))
}

/// The state that one step of the scheme `solver` leads to from `x`.
pub open spec fn stepped<S: Scalar>(
    f: spec_fn(Seq<S>) -> Seq<S>,
    x: Seq<S>,
    dt: S,
    solver: SolverType,
) -> Seq<S> {
    match solver {
        SolverType::Euler => euler_next(f, x, dt),
        SolverType::RungeKutta => runge_kutta_next(f, x, dt),
    }
}

/// The state after `k` steps of the scheme `solver` from `x`.
pub open spec fn iterated<S: Scalar>(
    f: spec_fn(Seq<S>) -> Seq<S>,
    x: Seq<S>,
    dt: S,
    solver: SolverType,
    k: nat,
) -> Seq<S>
    decreases k,
{
    if k == 0 {
        x
    } else {
        stepped(f, iterated(f, x, dt, solver, (k - 1) as nat), dt, solver)
    }
}

/// A dynamical system that a simulation can advance and record.
pub trait Model<S: Scalar>: Sized {
    /// The model's internal invariant.
    spec fn valid(&self) -> bool;

    /// The length of the state vector.
    spec fn state_len(&self) -> nat;

    /// The number of signals that the model exposes.
    spec fn signal_len(&self) -> nat;

    /// The current state vector.
    spec fn state_of(&self) -> Seq<S>;

    /// The derivative at the probe state `x` under the model's retained input.
    spec fn slope(&self, x: Seq<S>) -> Seq<S>;

    /// The value that every signal would have if the state were `x`.
    spec fn signals_at(&self, x: Seq<S>) -> Seq<S>;

    /// The name of every signal, in the order of `signals_at`.
    spec fn names(&self) -> Seq<Seq<char>>;

    /// A valid model has one name for each signal.
    proof fn lemma_one_name_for_each_signal(&self)
        requires
            self.valid(),
        ensures
            self.names().len() == self.signal_len(),
            self.signals_at(self.state_of()).len() == self.signal_len(),
    ;

    /// The derivative of the state at the probe `x`, which need not be the
    /// model's own state.
    fn slopefunc(&self, x: &Vec<S>) -> (r: Vec<S>)
        requires
            self.valid(),
            x@.len() == self.state_len(),
        ensures
            r@ == self.slope(x@),
            r@.len() == self.state_len(),
    ;

    /// The signal names, one for each entry of `get_allsignals`.
    fn get_signals_info(&self) -> (r: Vec<String>)
        requires
            self.valid(),
        ensures
            r@.len() == self.signal_len(),
            r@.len() == self.names().len(),
            forall|i: int| 0 <= i < r@.len() ==> (#[trigger] r@[i])@ == self.names()[i],
    ;

    /// Replaces the state vector, or refuses one of another length and
    /// leaves the model as it was.
    fn set_state(&mut self, newstate: Vec<S>) -> (r: Result<(), ModelError>)
        requires
            old(self).valid(),
        ensures
            final(self).valid(),
            final(self).state_len() == old(self).state_len(),
            final(self).signal_len() == old(self).signal_len(),
            final(self).names() == old(self).names(),
            forall|x: Seq<S>| #[trigger] final(self).slope(x) == old(self).slope(x),
            forall|x: Seq<S>| #[trigger] final(self).signals_at(x) == old(self).signals_at(x),
            r is Ok <==> newstate@.len() == old(self).state_len(),
            r is Ok ==> final(self).state_of() == newstate@,
            r is Err ==> *final(self) == *old(self) && r == Err::<(), ModelError>(
                (ModelError::DimensionMismatch {
                    field: Field::State,
                    expected: old(self).state_len() as usize,
                    given: newstate.len(),
                }),
            ),
    ;

    /// The current state vector.
    fn get_state(&self) -> (r: &Vec<S>)
        requires
            self.valid(),
        ensures
            r@ == self.state_of(),
            r@.len() == self.state_len(),
    ;

    /// The current value of every signal, in the order of the names.
    fn get_allsignals(&self) -> (r: Vec<S>)
        requires
            self.valid(),
        ensures
            r@ == self.signals_at(self.state_of()),
            r@.len() == self.signal_len(),
    ;

    /// Advances the state by one step of size `delta_t` under the scheme
    /// `solvertype`, and changes nothing else.
    fn calc_nextstate(&mut self, delta_t: S, solvertype: &SolverType)
        requires
            old(self).valid(),
        ensures
            final(self).valid(),
            final(self).state_of() == stepped(
                |x: Seq<S>| old(self).slope(x),
                old(self).state_of(),
                delta_t,
                *solvertype,
            ),
            final(self).state_len() == old(self).state_len(),
            final(self).signal_len() == old(self).signal_len(),
            final(self).names() == old(self).names(),
            forall|x: Seq<S>| #[trigger] final(self).slope(x) == old(self).slope(x),
            forall|x: Seq<S>| #[trigger] final(self).signals_at(x) == old(self).signals_at(x),
    {
        let state = self.get_state();
        let newstate = match solvertype {
            SolverType::Euler => {
                let inc = vec_scale(&self.slopefunc(state), delta_t);
                vec_add(state, &inc)
            },
            SolverType::RungeKutta => {
                let two = S::from_index(2);
                let six = S::from_index(6);
                let d1 = vec_scale(&self.slopefunc(state), delta_t);
                let x2 = vec_add(state, &vec_div(&d1, two));
                let d2 = vec_scale(&self.slopefunc(&x2), delta_t);
                let x3 = vec_add(state, &vec_div(&d2, two));
                let d3 = vec_scale(&self.slopefunc(&x3), delta_t);
                let x4 = vec_add(state, &d3);
                let d4 = vec_scale(&self.slopefunc(&x4), delta_t);
                let s1 = vec_add(&d1, &vec_scale_left(two, &d2));
                let s2 = vec_add(&s1, &vec_scale_left(two, &d3));
                let total = vec_add(&s2, &d4);
                vec_add(state, &vec_div(&total, six))
            },
        };
        let _ = self.set_state(newstate);
    }
}

} // verus!
