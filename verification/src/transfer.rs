use vstd::prelude::*;
use crate::error::ModelError;
use crate::linalg::constant;
use crate::scalar::Scalar;
use crate::state_space::{SpaceStateModel, StateSpace};

verus! {

/// The value that a proper transfer function passes straight from input to
/// output: the leading numerator coefficient where numerator and denominator
/// have the same degree, and `nil` otherwise.
pub open spec fn feedthrough<S: Scalar>(num: Seq<S>, den: Seq<S>) -> S {
    if num.len() == den.len() {
        num[0]
    } else {
        S::nil()
    }
}

/// Entry (`r`, `c`) of the dynamics matrix in controllable canonical form:
/// the last column holds the negated, normalised denominator coefficients,
/// the sub-diagonal holds `unit`.
pub open spec fn canonical_a_entry<S: Scalar>(den: Seq<S>, r: int, c: int) -> S {
    let n = den.len() - 1;
    if c == n - 1 {
        den[n - r].negated().over(den[0])
    } else if r > 0 && c == r - 1 {
        S::unit()
    } else {
        S::nil()
    }
}

/// The dynamics matrix in controllable canonical form, row-major, for a
/// denominator of degree `den.len() - 1`.
pub open spec fn canonical_a<S: Scalar>(den: Seq<S>) -> Seq<S> {
    let n = den.len() - 1;
    Seq::new((n * n) as nat, |i: int| canonical_a_entry(den, i / n, i % n))
}

/// Row `r` of the input matrix in controllable canonical form: the numerator
/// coefficient that lines up with denominator coefficient `n - r`, corrected
/// by the feed-through, and normalised; the correction alone where the
/// numerator has no such coefficient.
pub open spec fn canonical_b_entry<S: Scalar>(num: Seq<S>, den: Seq<S>, r: int) -> S {
    let n = den.len() - 1;
    let bn = feedthrough(num, den);
    if r < num.len() {
        num[num.len() - r - 1].minus(den[n - r].times(bn)).over(den[0])
    } else {
        den[n - r].negated().times(bn).over(den[0])
    }
}

/// The input matrix in controllable canonical form: one column.
pub open spec fn canonical_b<S: Scalar>(num: Seq<S>, den: Seq<S>) -> Seq<S> {
    Seq::new((den.len() - 1) as nat, |r: int| canonical_b_entry(num, den, r))
}

/// The output row in controllable canonical form: `unit` in the last place.
pub open spec fn canonical_c<S: Scalar>(n: nat) -> Seq<S> {
    Seq::new(
        n,
        |i: int|
            if i == n - 1 {
                S::unit()
            } else {
                S::nil()
            },
    )
}

/// The controllable canonical form that the numerator coefficients `num` and
/// the denominator coefficients `den` (highest degree first) give: one input,
/// one output, as many states as the denominator has degrees, at rest and
/// with no input.
pub open spec fn canonical_form<S: Scalar>(num: Seq<S>, den: Seq<S>) -> StateSpace<S> {
    let n = (den.len() - 1) as nat;
    StateSpace {
        state_dim: n,
        input_dim: 1,
        output_dim: 1,
        a: canonical_a(den),
        b: canonical_b(num, den),
        c: canonical_c(n),
        d: seq![feedthrough(num, den)],
        x: constant(n, S::nil()),
        u: constant(1, S::nil()),
    }
}

/// The outcome of a conversion for coefficient arrays of the given lengths:
/// an order below one is refused first, then an improper function.
pub open spec fn tf_rejection(num_len: nat, den_len: nat) -> Option<ModelError> {
    if den_len <= 1 {
        Some(ModelError::InvalidOrder)
    } else if num_len > den_len {
        Some(ModelError::ImproperTransferFunction)
    } else {
        None
    }
}

impl<S: Scalar> SpaceStateModel<S> {
    /// The controllable canonical form of the transfer function with the
    /// numerator coefficients `num` and the denominator coefficients `den`,
    /// both highest degree first.
    ///
    /// A denominator of degree below one is refused, and then a numerator
    /// with more coefficients than the denominator; every other pair is
    /// converted.
    pub fn from_tf(num: &[S], den: &[S]) -> (r: Result<Self, ModelError>)
        requires
            den@.len() <= 1 || (den@.len() - 1) * (den@.len() - 1) <= usize::MAX,
        ensures
            match tf_rejection(num@.len(), den@.len()) {
                Some(e) => r == Err::<Self, ModelError>(e),
                None => r is Ok && r->Ok_0.wf() && r->Ok_0@ == canonical_form(num@, den@),
            },
    {
        if den.len() <= 1 {
            return Err(ModelError::InvalidOrder);
        }
        if num.len() > den.len() {
            return Err(ModelError::ImproperTransferFunction);
        }
        let sdim: usize = den.len() - 1;
        assert(sdim + 2 <= usize::MAX) by (nonlinear_arith)
            requires
                sdim >= 1,
                sdim * sdim <= usize::MAX,
                usize::MAX >= 0xffff_ffff,
        ;
        let mut model = SpaceStateModel::new(sdim, 1, 1);
        let an = den[0];

        let total: usize = sdim * sdim;
        let mut mat_a: Vec<S> = Vec::new();
        let mut i: usize = 0;
        while i < total
            invariant
                i <= total,
                total == sdim * sdim,
                sdim == den@.len() - 1,
                sdim >= 1,
                an == den@[0],
                mat_a@ == canonical_a(den@).take(i as int),
            decreases total - i,
        {
            let r: usize = i / sdim;
            let c: usize = i % sdim;
            assert(r < sdim) by (nonlinear_arith)
                requires
                    r == i / sdim,
                    i < sdim * sdim,
                    sdim >= 1,
            ;
            let v = if c == sdim - 1 {
                den[sdim - r].neg().div(an)
            } else if r > 0 && c == r - 1 {
                S::one()
            } else {
                S::zero()
            };
            mat_a.push(v);
            i += 1;
            assert(mat_a@ =~= canonical_a(den@).take(i as int));
        }
        assert(canonical_a(den@).take(total as int) =~= canonical_a(den@));
        match model.set_mat_a(mat_a.as_slice()) {
            Ok(()) => {},
            Err(e) => {
                return Err(e);
            },
        }

        let bn = if num.len() == den.len() {
            num[0]
        } else {
            S::zero()
        };
        let mut mat_b: Vec<S> = Vec::new();
        let mut r: usize = 0;
        while r < sdim
            invariant
                r <= sdim,
                sdim == den@.len() - 1,
                num@.len() <= den@.len(),
                an == den@[0],
                bn == feedthrough(num@, den@),
                mat_b@ == canonical_b(num@, den@).take(r as int),
            decreases sdim - r,
        {
            let v = if r < num.len() {
                num[num.len() - r - 1].sub(den[sdim - r].mul(bn)).div(an)
            } else {
                den[sdim - r].neg().mul(bn).div(an)
            };
            mat_b.push(v);
            r += 1;
            assert(mat_b@ =~= canonical_b(num@, den@).take(r as int));
        }
        assert(canonical_b(num@, den@).take(sdim as int) =~= canonical_b(num@, den@));
        match model.set_mat_b(mat_b.as_slice()) {
            Ok(()) => {},
            Err(e) => {
                return Err(e);
            },
        }

        let mut mat_c: Vec<S> = Vec::new();
        let mut k: usize = 0;
        while k < sdim
            invariant
                k <= sdim,
                mat_c@ == canonical_c::<S>(sdim as nat).take(k as int),
            decreases sdim - k,
        {
            let v = if k == sdim - 1 {
                S::one()
            } else {
                S::zero()
            };
            mat_c.push(v);
            k += 1;
            assert(mat_c@ =~= canonical_c::<S>(sdim as nat).take(k as int));
        }
        assert(canonical_c::<S>(sdim as nat).take(sdim as int) =~= canonical_c::<S>(sdim as nat));
        match model.set_mat_c(mat_c.as_slice()) {
            Ok(()) => {},
            Err(e) => {
                return Err(e);
            },
        }

        let mut mat_d: Vec<S> = Vec::new();
        mat_d.push(bn);
        assert(mat_d@ =~= seq![bn]);
        match model.set_mat_d(mat_d.as_slice()) {
            Ok(()) => {},
            Err(e) => {
                return Err(e);
            },
        }
        Ok(model)
    }
}

} // verus!
