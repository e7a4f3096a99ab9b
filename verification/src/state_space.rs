use vstd::prelude::*;
use crate::error::{Field, ModelError};
use crate::linalg::{constant, copied, filled, mat_vec, mat_vec_mul, vec_add, vec_plus};
use crate::model::Model;
use crate::scalar::Scalar;
use crate::text::{indexed_name, label};

verus! {

/// The mathematical content of a state-space model: its three dimensions, the
/// four matrices in row-major order, the state `x` and the input `u`.
pub struct StateSpace<S> {
    pub state_dim: nat,
    pub input_dim: nat,
    pub output_dim: nat,
    pub a: Seq<S>,
    pub b: Seq<S>,
    pub c: Seq<S>,
    pub d: Seq<S>,
    pub x: Seq<S>,
    pub u: Seq<S>,
}

impl<S: Scalar> StateSpace<S> {
    /// Every array has the length that the dimensions give it.
    pub open spec fn wf(self) -> bool {
        &&& self.a.len() == self.state_dim * self.state_dim
        &&& self.b.len() == self.state_dim * self.input_dim
        &&& self.c.len() == self.output_dim * self.state_dim
        &&& self.d.len() == self.output_dim * self.input_dim
        &&& self.x.len() == self.state_dim
        &&& self.u.len() == self.input_dim
        &&& self.input_dim + self.state_dim + self.output_dim <= usize::MAX
    }

    /// `A * probe + B * u`.
    pub open spec fn derivative(self, probe: Seq<S>) -> Seq<S> {
        vec_plus(
            mat_vec(self.a, self.state_dim, self.state_dim, probe),
            mat_vec(self.b, self.state_dim, self.input_dim, self.u),
        )
    }

    /// `C * x + D * u`.
    pub open spec fn observation(self) -> Seq<S> {
        vec_plus(
            mat_vec(self.c, self.output_dim, self.state_dim, self.x),
            mat_vec(self.d, self.output_dim, self.input_dim, self.u),
        )
    }

    /// The input, the state and the observation, one after the other.
    pub open spec fn all_signals(self) -> Seq<S> {
        self.u + self.x + self.observation()
    }
}

/// The names `u_0..`, `x_0..`, `y_0..` of the inputs, states and outputs.
pub open spec fn signal_names(input_dim: nat, state_dim: nat, output_dim: nat) -> Seq<Seq<char>> {
    Seq::new(
        input_dim + state_dim + output_dim,
        |i: int|
            if i < input_dim {
                label('u', i as nat)
            } else if i < input_dim + state_dim {
                label('x', (i - input_dim) as nat)
            } else {
                label('y', (i - input_dim - state_dim) as nat)
            },
    )
}

/// A linear system `x' = A x + B u`, `y = C x + D u`.
pub struct SpaceStateModel<S> {
    mat_a: Vec<S>,
    mat_b: Vec<S>,
    mat_c: Vec<S>,
    mat_d: Vec<S>,
    state_dim: usize,
    input_dim: usize,
    output_dim: usize,
    x: Vec<S>,
    u: Vec<S>,
}

/// Copies `src` if it has `expected` entries, and reports the mismatch for
/// `field` otherwise.
fn checked_copy<S: Scalar>(src: &[S], expected: usize, field: Field) -> (r: Result<
    Vec<S>,
    ModelError,
>)
    ensures
        src@.len() == expected ==> r is Ok && r->Ok_0@ == src@,
        src@.len() != expected ==> r == Err::<Vec<S>, ModelError>(
            (ModelError::DimensionMismatch { field: field, expected: expected, given: src.len() }),
        ),
{
    if src.len() != expected {
        return Err(ModelError::DimensionMismatch { field, expected, given: src.len() });
    }
    Ok(copied(src))
}

impl<S: Scalar> View for SpaceStateModel<S> {
    type V = StateSpace<S>;

    closed spec fn view(&self) -> StateSpace<S> {
        StateSpace {
            state_dim: self.state_dim as nat,
            input_dim: self.input_dim as nat,
            output_dim: self.output_dim as nat,
            a: self.mat_a@,
            b: self.mat_b@,
            c: self.mat_c@,
            d: self.mat_d@,
            x: self.x@,
            u: self.u@,
        }
    }
}

impl<S: Scalar> SpaceStateModel<S> {
    /// The model's invariant: every array has the length its dimensions give.
    pub open spec fn wf(&self) -> bool {
        self@.wf()
    }

    /// A model of the given dimensions with every matrix entry, the state and
    /// the input cleared.
    pub fn new(sdim: usize, idim: usize, odim: usize) -> (r: Self)
        requires
            sdim * sdim <= usize::MAX,
            sdim * idim <= usize::MAX,
            odim * sdim <= usize::MAX,
            odim * idim <= usize::MAX,
            idim + sdim + odim <= usize::MAX,
        ensures
            r.wf(),
            r@ == (StateSpace {
                state_dim: sdim as nat,
                input_dim: idim as nat,
                output_dim: odim as nat,
                a: constant((sdim * sdim) as nat, S::nil()),
                b: constant((sdim * idim) as nat, S::nil()),
                c: constant((odim * sdim) as nat, S::nil()),
                d: constant((odim * idim) as nat, S::nil()),
                x: constant(sdim as nat, S::nil()),
                u: constant(idim as nat, S::nil()),
            }),
    {
        let z = S::zero();
        SpaceStateModel {
            mat_a: filled(sdim * sdim, z),
            mat_b: filled(sdim * idim, z),
            mat_c: filled(odim * sdim, z),
            mat_d: filled(odim * idim, z),
            x: filled(sdim, z),
            u: filled(idim, z),
            state_dim: sdim,
            input_dim: idim,
            output_dim: odim,
        }
    }

    /// Replaces the state by `init_state`, or refuses an array of another
    /// length and leaves the model as it was.
    pub fn init_state(&mut self, init_state: &[S]) -> (r: Result<(), ModelError>)
        requires
            old(self).wf(),
        ensures
            final(self).wf(),
            init_state@.len() == old(self)@.state_dim ==> r is Ok && final(self)@ == (StateSpace {
                x: init_state@,
                ..old(self)@
            }),
            init_state@.len() != old(self)@.state_dim ==> *final(self) == *old(self) && r == Err::<
                (),
                ModelError,
            >(
                (ModelError::DimensionMismatch {
                    field: Field::State,
                    expected: old(self)@.state_dim as usize,
                    given: init_state.len(),
                }),
            ),
    {
        self.set_x(init_state)
    }

    /// Replaces the matrix A by the row-major array `mat_a`, or refuses an
    /// array of another length and leaves the model as it was.
    pub fn set_mat_a(&mut self, mat_a: &[S]) -> (r: Result<(), ModelError>)
        requires
            old(self).wf(),
        ensures
            final(self).wf(),
            mat_a@.len() == old(self)@.state_dim * old(self)@.state_dim ==> r is Ok && final(self)@
                == (StateSpace { a: mat_a@, ..old(self)@ }),
            mat_a@.len() != old(self)@.state_dim * old(self)@.state_dim ==> *final(self) == *old(self) && r == Err::<(), ModelError>(
                (ModelError::DimensionMismatch {
                    field: Field::MatrixA,
                    expected: (old(self)@.state_dim * old(self)@.state_dim) as usize,
                    given: mat_a.len(),
                }),
            ),
    {
        match checked_copy(mat_a, self.mat_a.len(), Field::MatrixA) {
            Ok(v) => {
                self.mat_a = v;
                Ok(())
            },
            Err(e) => Err(e),
        }
    }

    /// Replaces the matrix B by the row-major array `mat_b`, or refuses an
    /// array of another length and leaves the model as it was.
    pub fn set_mat_b(&mut self, mat_b: &[S]) -> (r: Result<(), ModelError>)
        requires
            old(self).wf(),
        ensures
            final(self).wf(),
            mat_b@.len() == old(self)@.state_dim * old(self)@.input_dim ==> r is Ok && final(self)@
                == (StateSpace { b: mat_b@, ..old(self)@ }),
            mat_b@.len() != old(self)@.state_dim * old(self)@.input_dim ==> *final(self) == *old(self) && r == Err::<(), ModelError>(
                (ModelError::DimensionMismatch {
                    field: Field::MatrixB,
                    expected: (old(self)@.state_dim * old(self)@.input_dim) as usize,
                    given: mat_b.len(),
                }),
            ),
    {
        match checked_copy(mat_b, self.mat_b.len(), Field::MatrixB) {
            Ok(v) => {
                self.mat_b = v;
                Ok(())
            },
            Err(e) => Err(e),
        }
    }

    /// Replaces the matrix C by the row-major array `mat_c`, or refuses an
    /// array of another length and leaves the model as it was.
    pub fn set_mat_c(&mut self, mat_c: &[S]) -> (r: Result<(), ModelError>)
        requires
            old(self).wf(),
        ensures
            final(self).wf(),
            mat_c@.len() == old(self)@.output_dim * old(self)@.state_dim ==> r is Ok && final(self)@ == (StateSpace { c: mat_c@, ..old(self)@ }),
            mat_c@.len() != old(self)@.output_dim * old(self)@.state_dim ==> *final(self) == *old(self) && r == Err::<(), ModelError>(
                (ModelError::DimensionMismatch {
                    field: Field::MatrixC,
                    expected: (old(self)@.output_dim * old(self)@.state_dim) as usize,
                    given: mat_c.len(),
                }),
            ),
    {
        match checked_copy(mat_c, self.mat_c.len(), Field::MatrixC) {
            Ok(v) => {
                self.mat_c = v;
                Ok(())
            },
            Err(e) => Err(e),
        }
    }

    /// Replaces the matrix D by the row-major array `mat_d`, or refuses an
    /// array of another length and leaves the model as it was.
    pub fn set_mat_d(&mut self, mat_d: &[S]) -> (r: Result<(), ModelError>)
        requires
            old(self).wf(),
        ensures
            final(self).wf(),
            mat_d@.len() == old(self)@.output_dim * old(self)@.input_dim ==> r is Ok && final(self)@ == (StateSpace { d: mat_d@, ..old(self)@ }),
            mat_d@.len() != old(self)@.output_dim * old(self)@.input_dim ==> *final(self) == *old(self) && r == Err::<(), ModelError>(
                (ModelError::DimensionMismatch {
                    field: Field::MatrixD,
                    expected: (old(self)@.output_dim * old(self)@.input_dim) as usize,
                    given: mat_d.len(),
                }),
            ),
    {
        match checked_copy(mat_d, self.mat_d.len(), Field::MatrixD) {
            Ok(v) => {
                self.mat_d = v;
                Ok(())
            },
            Err(e) => Err(e),
        }
    }

    /// Replaces the state by `x`, or refuses an array of another length and
    /// leaves the model as it was.
    pub fn set_x(&mut self, x: &[S]) -> (r: Result<(), ModelError>)
        requires
            old(self).wf(),
        ensures
            final(self).wf(),
            x@.len() == old(self)@.state_dim ==> r is Ok && final(self)@ == (StateSpace {
                x: x@,
                ..old(self)@
            }),
            x@.len() != old(self)@.state_dim ==> *final(self) == *old(self) && r == Err::<
                (),
                ModelError,
            >(
                (ModelError::DimensionMismatch {
                    field: Field::State,
                    expected: old(self)@.state_dim as usize,
                    given: x.len(),
                }),
            ),
    {
        match checked_copy(x, self.state_dim, Field::State) {
            Ok(v) => {
                self.x = v;
                Ok(())
            },
            Err(e) => Err(e),
        }
    }

    /// Replaces the input by `u`, or refuses an array of another length and
    /// leaves the model as it was.
    pub fn set_u(&mut self, u: &[S]) -> (r: Result<(), ModelError>)
        requires
            old(self).wf(),
        ensures
            final(self).wf(),
            u@.len() == old(self)@.input_dim ==> r is Ok && final(self)@ == (StateSpace {
                u: u@,
                ..old(self)@
            }),
            u@.len() != old(self)@.input_dim ==> *final(self) == *old(self) && r == Err::<
                (),
                ModelError,
            >(
                (ModelError::DimensionMismatch {
                    field: Field::Input,
                    expected: old(self)@.input_dim as usize,
                    given: u.len(),
                }),
            ),
    {
        match checked_copy(u, self.input_dim, Field::Input) {
            Ok(v) => {
                self.u = v;
                Ok(())
            },
            Err(e) => Err(e),
        }
    }

    /// The observation `C * x + D * u` of the current state and input.
    pub fn get_observation(&self) -> (r: Vec<S>)
        requires
            self.wf(),
        ensures
            r@ == self@.observation(),
            r@.len() == self@.output_dim,
    {
        let cx = mat_vec_mul(&self.mat_c, self.output_dim, self.state_dim, &self.x);
        let du = mat_vec_mul(&self.mat_d, self.output_dim, self.input_dim, &self.u);
        vec_add(&cx, &du)
    }

    pub fn state_dim(&self) -> (r: usize)
        ensures
            r == self@.state_dim,
    {
        self.state_dim
    }

    pub fn input_dim(&self) -> (r: usize)
        ensures
            r == self@.input_dim,
    {
        self.input_dim
    }

    pub fn output_dim(&self) -> (r: usize)
        ensures
            r == self@.output_dim,
    {
        self.output_dim
    }

    pub fn mat_a(&self) -> (r: &Vec<S>)
        ensures
            r@ == self@.a,
    {
        &self.mat_a
    }

    pub fn mat_b(&self) -> (r: &Vec<S>)
        ensures
            r@ == self@.b,
    {
        &self.mat_b
    }

    pub fn mat_c(&self) -> (r: &Vec<S>)
        ensures
            r@ == self@.c,
    {
        &self.mat_c
    }

    pub fn mat_d(&self) -> (r: &Vec<S>)
        ensures
            r@ == self@.d,
    {
        &self.mat_d
    }

    pub fn input(&self) -> (r: &Vec<S>)
        ensures
            r@ == self@.u,
    {
        &self.u
    }
}

impl<S: Scalar> Model<S> for SpaceStateModel<S> {
    open spec fn valid(&self) -> bool {
        self.wf()
    }

    open spec fn state_len(&self) -> nat {
        self@.state_dim
    }

    open spec fn signal_len(&self) -> nat {
        self@.input_dim + self@.state_dim + self@.output_dim
    }

    open spec fn state_of(&self) -> Seq<S> {
        self@.x
    }

    open spec fn slope(&self, x: Seq<S>) -> Seq<S> {
        self@.derivative(x)
    }

    open spec fn signals_at(&self, x: Seq<S>) -> Seq<S> {
        (StateSpace { x: x, ..self@ }).all_signals()
    }

    open spec fn names(&self) -> Seq<Seq<char>> {
        signal_names(self@.input_dim, self@.state_dim, self@.output_dim)
    }

    proof fn lemma_one_name_for_each_signal(&self) {
    }

    /// `A * x + B * u` for the probe `x` and the retained input `u`.
    fn slopefunc(&self, x: &Vec<S>) -> (r: Vec<S>) {
        let ax = mat_vec_mul(&self.mat_a, self.state_dim, self.state_dim, x);
        let bu = mat_vec_mul(&self.mat_b, self.state_dim, self.input_dim, &self.u);
        vec_add(&ax, &bu)
    }

    /// The names `u_0..`, `x_0..`, `y_0..`, in the order of `get_allsignals`.
    fn get_signals_info(&self) -> (r: Vec<String>) {
        let ghost want = signal_names(self@.input_dim, self@.state_dim, self@.output_dim);
        let mut series: Vec<String> = Vec::new();
        let mut i: usize = 0;
        while i < self.input_dim
            invariant
                self.wf(),
                i <= self.input_dim,
                want == signal_names(self@.input_dim, self@.state_dim, self@.output_dim),
                series@.len() == i,
                forall|j: int| 0 <= j < series@.len() ==> (#[trigger] series@[j])@ == want[j],
            decreases self.input_dim - i,
        {
            series.push(indexed_name('u', i));
            i += 1;
        }
        let mut i: usize = 0;
        while i < self.state_dim
            invariant
                self.wf(),
                i <= self.state_dim,
                want == signal_names(self@.input_dim, self@.state_dim, self@.output_dim),
                series@.len() == self.input_dim + i,
                forall|j: int| 0 <= j < series@.len() ==> (#[trigger] series@[j])@ == want[j],
            decreases self.state_dim - i,
        {
            series.push(indexed_name('x', i));
            i += 1;
        }
        let mut i: usize = 0;
        while i < self.output_dim
            invariant
                self.wf(),
                i <= self.output_dim,
                want == signal_names(self@.input_dim, self@.state_dim, self@.output_dim),
                series@.len() == self.input_dim + self.state_dim + i,
                forall|j: int| 0 <= j < series@.len() ==> (#[trigger] series@[j])@ == want[j],
            decreases self.output_dim - i,
        {
            series.push(indexed_name('y', i));
            i += 1;
        }
        series
    }

    fn set_state(&mut self, newstate: Vec<S>) -> (r: Result<(), ModelError>) {
        if newstate.len() != self.state_dim {
            return Err(
                ModelError::DimensionMismatch {
                    field: Field::State,
                    expected: self.state_dim,
                    given: newstate.len(),
                },
            );
        }
        self.x = newstate;
        Ok(())
    }

    fn get_state(&self) -> (r: &Vec<S>) {
        &self.x
    }

    /// The input, the state and the observation, one after the other.
    fn get_allsignals(&self) -> (r: Vec<S>) {
        let mut result = copied(self.u.as_slice());
        let mut x = copied(self.x.as_slice());
        let mut o = self.get_observation();
        result.append(&mut x);
        result.append(&mut o);
        assert((StateSpace { x: self@.x, ..self@ }) == self@);
        result
    }
}

} // verus!
