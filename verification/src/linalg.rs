use vstd::prelude::*;
use crate::scalar::Scalar;

verus! {

/// The vector of `n` copies of `v`.
pub open spec fn constant<S: Scalar>(n: nat, v: S) -> Seq<S> {
    Seq::new(n, |i: int| v)
}

/// The entrywise sum of two vectors, as long as the first.
pub open spec fn vec_plus<S: Scalar>(a: Seq<S>, b: Seq<S>) -> Seq<S> {
    Seq::new(a.len(), |i: int| a[i].plus(b[i]))
}

/// Every entry of `a` multiplied, on its right, by `k`.
pub open spec fn vec_times<S: Scalar>(a: Seq<S>, k: S) -> Seq<S> {
    Seq::new(a.len(), |i: int| a[i].times(k))
}

/// Every entry of `a` multiplied, on its left, by `k`.
pub open spec fn vec_scaled_by<S: Scalar>(k: S, a: Seq<S>) -> Seq<S> {
    Seq::new(a.len(), |i: int| k.times(a[i]))
}

/// Every entry of `a` divided by `k`.
pub open spec fn vec_over<S: Scalar>(a: Seq<S>, k: S) -> Seq<S> {
    Seq::new(a.len(), |i: int| a[i].over(k))
}

/// The sum of the first `n` products of row `r` of the row-major matrix `m`
/// (with `cols` columns) and the vector `x`, added up from the left starting
/// at `nil`.
pub open spec fn row_dot<S: Scalar>(m: Seq<S>, cols: int, r: int, x: Seq<S>, n: nat) -> S
    decreases n,
{
    if n == 0 {
        S::nil()
    } else {
        row_dot(m, cols, r, x, (n - 1) as nat).plus(m[r * cols + n - 1].times(x[n - 1]))
    }
}

/// The product of the row-major `rows` x `cols` matrix `m` and the vector `x`.
pub open spec fn mat_vec<S: Scalar>(m: Seq<S>, rows: nat, cols: nat, x: Seq<S>) -> Seq<S> {
    Seq::new(rows, |r: int| row_dot(m, cols as int, r, x, cols))
}

/// The place of entry (`r`, `c`) in a row-major array lies inside the array.
pub proof fn lemma_flat_index(rows: int, cols: int, r: int, c: int)
    requires
        0 <= r < rows,
        0 <= c < cols,
    ensures
        0 <= r * cols + c < rows * cols,
        r * cols + cols <= rows * cols,
        0 <= r * cols,
{
    assert(0 <= r * cols) by (nonlinear_arith)
        requires
            0 <= r,
            0 <= cols,
    ;
    assert((r + 1) * cols <= rows * cols) by (nonlinear_arith)
        requires
            r + 1 <= rows,
            0 <= cols,
    ;
    assert((r + 1) * cols == r * cols + cols) by (nonlinear_arith);
}

/// A vector of `n` copies of `v`.
pub fn filled<S: Scalar>(n: usize, v: S) -> (r: Vec<S>)
    ensures
        r@ == constant(n as nat, v),
{
    let mut out: Vec<S> = Vec::new();
    let mut i: usize = 0;
    while i < n
        invariant
            i <= n,
            out@ == constant(i as nat, v),
        decreases n - i,
    {
        out.push(v);
        i += 1;
        assert(out@ =~= constant(i as nat, v));
    }
    out
}

/// The entries of `src` as a vector.
pub fn copied<S: Scalar>(src: &[S]) -> (r: Vec<S>)
    ensures
        r@ == src@,
{
    let mut out: Vec<S> = Vec::new();
    let mut i: usize = 0;
    while i < src.len()
        invariant
            i <= src.len(),
            out@ == src@.take(i as int),
        decreases src.len() - i,
    {
        out.push(src[i]);
        i += 1;
        assert(out@ =~= src@.take(i as int));
    }
    assert(src@.take(src.len() as int) =~= src@);
    out
}

/// Adds two vectors of one length entry by entry.
pub fn vec_add<S: Scalar>(a: &Vec<S>, b: &Vec<S>) -> (r: Vec<S>)
    requires
        a.len() == b.len(),
    ensures
        r@ == vec_plus(a@, b@),
{
    let mut out: Vec<S> = Vec::new();
    let mut i: usize = 0;
    while i < a.len()
        invariant
            i <= a.len(),
            a.len() == b.len(),
            out@ == vec_plus(a@, b@).take(i as int),
        decreases a.len() - i,
    {
        out.push(a[i].add(b[i]));
        i += 1;
        assert(out@ =~= vec_plus(a@, b@).take(i as int));
    }
    assert(vec_plus(a@, b@).take(a.len() as int) =~= vec_plus(a@, b@));
    out
}

/// Multiplies every entry of `a`, on its right, by `k`.
pub fn vec_scale<S: Scalar>(a: &Vec<S>, k: S) -> (r: Vec<S>)
    ensures
        r@ == vec_times(a@, k),
{
    let mut out: Vec<S> = Vec::new();
    let mut i: usize = 0;
    while i < a.len()
        invariant
            i <= a.len(),
            out@ == vec_times(a@, k).take(i as int),
        decreases a.len() - i,
    {
        out.push(a[i].mul(k));
        i += 1;
        assert(out@ =~= vec_times(a@, k).take(i as int));
    }
    assert(vec_times(a@, k).take(a.len() as int) =~= vec_times(a@, k));
    out
}

/// Multiplies every entry of `a`, on its left, by `k`.
pub fn vec_scale_left<S: Scalar>(k: S, a: &Vec<S>) -> (r: Vec<S>)
    ensures
        r@ == vec_scaled_by(k, a@),
{
    let mut out: Vec<S> = Vec::new();
    let mut i: usize = 0;
    while i < a.len()
        invariant
            i <= a.len(),
            out@ == vec_scaled_by(k, a@).take(i as int),
        decreases a.len() - i,
    {
        out.push(k.mul(a[i]));
        i += 1;
        assert(out@ =~= vec_scaled_by(k, a@).take(i as int));
    }
    assert(vec_scaled_by(k, a@).take(a.len() as int) =~= vec_scaled_by(k, a@));
    out
}

/// Divides every entry of `a` by `k`.
pub fn vec_div<S: Scalar>(a: &Vec<S>, k: S) -> (r: Vec<S>)
    ensures
        r@ == vec_over(a@, k),
{
    let mut out: Vec<S> = Vec::new();
    let mut i: usize = 0;
    while i < a.len()
        invariant
            i <= a.len(),
            out@ == vec_over(a@, k).take(i as int),
        decreases a.len() - i,
    {
        out.push(a[i].div(k));
        i += 1;
        assert(out@ =~= vec_over(a@, k).take(i as int));
    }
    assert(vec_over(a@, k).take(a.len() as int) =~= vec_over(a@, k));
    out
}

/// Multiplies the row-major `rows` x `cols` matrix `m` by the vector `x`.
pub fn mat_vec_mul<S: Scalar>(m: &Vec<S>, rows: usize, cols: usize, x: &Vec<S>) -> (r: Vec<S>)
    requires
        m.len() == rows * cols,
        x.len() == cols,
    ensures
        r@ == mat_vec(m@, rows as nat, cols as nat, x@),
{
    let mut out: Vec<S> = Vec::new();
    let mut r: usize = 0;
    while r < rows
        invariant
            r <= rows,
            m.len() == rows * cols,
            x.len() == cols,
            out@ == mat_vec(m@, rows as nat, cols as nat, x@).take(r as int),
        decreases rows - r,
    {
        let mut acc: S = S::zero();
        let mut c: usize = 0;
        while c < cols
            invariant
                c <= cols,
                r < rows,
                m.len() == rows * cols,
                x.len() == cols,
                acc == row_dot(m@, cols as int, r as int, x@, c as nat),
            decreases cols - c,
        {
            proof {
                lemma_flat_index(rows as int, cols as int, r as int, c as int);
            }
            acc = acc.add(m[r * cols + c].mul(x[c]));
            c += 1;
        }
        out.push(acc);
        r += 1;
        assert(out@ =~= mat_vec(m@, rows as nat, cols as nat, x@).take(r as int));
    }
    assert(mat_vec(m@, rows as nat, cols as nat, x@).take(rows as int) =~= mat_vec(
        m@,
        rows as nat,
        cols as nat,
        x@,
    ));
    out
}

} // verus!
