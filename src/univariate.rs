//! Univariate AR model: each value is the offset, plus the weighted sum of the
//! last `N` values, plus one noise draw.

use vstd::prelude::*;

verus! {

use vstd::std_specs::ops::{AddSpec, MulSpec};

/// The arithmetic of `T` never refuses a sum or a product.
pub open spec fn ops_admissible<T: core::ops::Add<Output = T> + core::ops::Mul<Output = T>>() -> bool {
    (forall|a: T, b: T| #[trigger] a.add_req(b)) && (forall|a: T, b: T| #[trigger] a.mul_req(b))
}

/// `T`'s `+` and `*` compute their spec counterparts.
pub open spec fn ops_exact<T: core::ops::Add<Output = T> + core::ops::Mul<Output = T>>() -> bool {
    T::obeys_add_spec() && T::obeys_mul_spec()
}

/// `w[0] * p[0] + ... + w[n-1] * p[n-1]`, summed from the left; requires `n >= 1`.
pub open spec fn lagged_sum<T: core::ops::Add<Output = T> + core::ops::Mul<Output = T>>(
    w: Seq<T>,
    p: Seq<T>,
    n: nat,
) -> T
    decreases n,
{
    if n <= 1 {
        w[0].mul_spec(p[0])
    } else {
        lagged_sum(w, p, (n - 1) as nat).add_spec(w[n - 1].mul_spec(p[n - 1]))
    }
}

/// The next value of the recurrence: `c + sum(w[i] * p[i]) + eps`.
pub open spec fn next_value<T: core::ops::Add<Output = T> + core::ops::Mul<Output = T>>(
    c: T,
    w: Seq<T>,
    p: Seq<T>,
    eps: T,
) -> T {
    if w.len() == 0 {
        c.add_spec(eps)
    } else {
        c.add_spec(lagged_sum(w, p, w.len())).add_spec(eps)
    }
}

/// The window after `v` was produced: `v` in front, the oldest value dropped.
pub open spec fn shift_in<T>(w: Seq<T>, v: T) -> Seq<T> {
    if w.len() == 0 {
        w
    } else {
        seq![v] + w.take(w.len() - 1)
    }
}

/// The window after the values `vals` were produced in order.
pub open spec fn window_after<T>(w: Seq<T>, vals: Seq<T>) -> Seq<T>
    decreases vals.len(),
{
    if vals.len() == 0 {
        w
    } else {
        shift_in(window_after(w, vals.drop_last()), vals.last())
    }
}

/// The values produced from window `w` by the noise draws `noise`, in order.
pub open spec fn trajectory<T: core::ops::Add<Output = T> + core::ops::Mul<Output = T>>(
    c: T,
    w: Seq<T>,
    p: Seq<T>,
    noise: Seq<T>,
) -> Seq<T>
    decreases noise.len(),
{
    if noise.len() == 0 {
        Seq::empty()
    } else {
        let prev = trajectory(c, w, p, noise.drop_last());
        prev.push(next_value(c, window_after(w, prev), p, noise.last()))
    }
}

/// An AR process of order `N`: offset `c`, coefficients `phi[0..N]`, and the
/// window `x[0..N]` of the last values, most recent first.
pub struct Autoregressive<T> {
    c: T,
    x: Vec<T>,
    phi: Vec<T>,
}

impl<T: Copy + core::ops::Add<Output = T> + core::ops::Mul<Output = T>> Autoregressive<T> {
    pub closed spec fn offset_spec(&self) -> T {
        self.c
    }

    pub closed spec fn window_spec(&self) -> Seq<T> {
        self.x@
    }

    pub closed spec fn coefficients_spec(&self) -> Seq<T> {
        self.phi@
    }

    /// The window and the coefficients have the same length.
    pub closed spec fn wf(&self) -> bool {
        self.x@.len() == self.phi@.len()
    }

    /// A process at rest: the window holds `phi.len()` copies of `zero`, and
    /// the coefficients are copied out of `phi`.
    pub fn new(c: T, phi: &[T], zero: T) -> (r: Self)
        ensures
            r.wf(),
            r.offset_spec() == c,
            r.coefficients_spec() == phi@,
            r.window_spec() == Seq::new(phi@.len(), |_i: int| zero),
    {
        let mut x: Vec<T> = Vec::new();
        let mut coefficients: Vec<T> = Vec::new();
        let mut i: usize = 0;
        while i < phi.len()
            invariant
                i <= phi@.len(),
                x@ == Seq::new(i as nat, |_j: int| zero),
                coefficients@ == phi@.take(i as int),
            decreases phi@.len() - i,
        {
            x.push(zero);
            coefficients.push(phi[i]);
            i = i + 1;
            proof {
                assert(x@ =~= Seq::new(i as nat, |_j: int| zero));
                assert(coefficients@ =~= phi@.take(i as int));
            }
        }
        assert(coefficients@ =~= phi@);
        Autoregressive { c, x, phi: coefficients }
    }

    /// The order `N` of the process.
    pub fn order(&self) -> (r: usize)
        ensures
            r == self.coefficients_spec().len(),
    {
        self.phi.len()
    }

    /// The offset `c`.
    pub fn offset(&self) -> (r: T)
        ensures
            r == self.offset_spec(),
    {
        self.c
    }

    /// The coefficients, most recent lag first.
    pub fn coefficients(&self) -> (r: &[T])
        ensures
            r@ == self.coefficients_spec(),
    {
        self.phi.as_slice()
    }

    /// The last `N` values, most recent first.
    pub fn window(&self) -> (r: &[T])
        ensures
            r@ == self.window_spec(),
    {
        self.x.as_slice()
    }

    /// The next value for the noise draw `epsilon`; the window takes it in
    /// front and drops its oldest value.
    pub fn step(&mut self, epsilon: T) -> (r: T)
        requires
            old(self).wf(),
            ops_admissible::<T>(),
        ensures
            final(self).wf(),
            final(self).offset_spec() == old(self).offset_spec(),
            final(self).coefficients_spec() == old(self).coefficients_spec(),
            final(self).window_spec() == shift_in(old(self).window_spec(), r),
            ops_exact::<T>() ==> r == next_value(
                old(self).offset_spec(),
                old(self).window_spec(),
                old(self).coefficients_spec(),
                epsilon,
            ),
    {
        let n = self.x.len();
        let r: T;
        if n == 0 {
            r = self.c + epsilon;
        } else {
            let mut acc: T = self.x[0] * self.phi[0];
            let mut i: usize = 1;
            while i < n
                invariant
                    1 <= i <= n,
                    n == self.x@.len(),
                    n == self.phi@.len(),
                    ops_admissible::<T>(),
                    ops_exact::<T>() ==> acc == lagged_sum(self.x@, self.phi@, i as nat),
                decreases n - i,
            {
                let prod = self.x[i] * self.phi[i];
                acc = acc + prod;
                i = i + 1;
            }
            let s = self.c + acc;
            r = s + epsilon;
            let mut j: usize = n - 1;
            let ghost before = self.x@;
            while j > 0
                invariant
                    j < n,
                    n == self.x@.len(),
                    n == before.len(),
                    self.c == old(self).c,
                    self.phi@ == old(self).phi@,
                    forall|k: int| 0 <= k <= j ==> self.x@[k] == before[k],
                    forall|k: int| j < k < n ==> self.x@[k] == before[k - 1],
                decreases j,
            {
                let prev = self.x[j - 1];
                self.x.set(j, prev);
                j = j - 1;
            }
            self.x.set(0, r);
            assert(self.x@ =~= seq![r] + before.take(n - 1));
        }
        r
    }

    /// One value per noise draw, in order: the same as calling `step` on each.
    pub fn steps(&mut self, noise: &[T]) -> (r: Vec<T>)
        requires
            old(self).wf(),
            ops_admissible::<T>(),
        ensures
            final(self).wf(),
            final(self).offset_spec() == old(self).offset_spec(),
            final(self).coefficients_spec() == old(self).coefficients_spec(),
            r@.len() == noise@.len(),
            final(self).window_spec() == window_after(old(self).window_spec(), r@),
            ops_exact::<T>() ==> r@ == trajectory(
                old(self).offset_spec(),
                old(self).window_spec(),
                old(self).coefficients_spec(),
                noise@,
            ),
    {
        let mut out: Vec<T> = Vec::new();
        let mut i: usize = 0;
        while i < noise.len()
            invariant
                i <= noise@.len(),
                out@.len() == i,
                self.wf(),
                ops_admissible::<T>(),
                self.offset_spec() == old(self).offset_spec(),
                self.coefficients_spec() == old(self).coefficients_spec(),
                self.window_spec() == window_after(old(self).window_spec(), out@),
                ops_exact::<T>() ==> out@ == trajectory(
                    old(self).offset_spec(),
                    old(self).window_spec(),
                    old(self).coefficients_spec(),
                    noise@.take(i as int),
                ),
            decreases noise@.len() - i,
        {
            let v = self.step(noise[i]);
            let ghost prev = out@;
            out.push(v);
            proof {
                assert(out@.drop_last() =~= prev);
                assert(noise@.take(i + 1).drop_last() =~= noise@.take(i as int));
            }
            i = i + 1;
        }
        assert(noise@.take(i as int) =~= noise@);
        out
    }
}

/// Producing values never changes the window's length.
pub proof fn window_length_is_kept<T>(w: Seq<T>, vals: Seq<T>)
    ensures
        window_after(w, vals).len() == w.len(),
    decreases vals.len(),
{
    if vals.len() > 0 {
        window_length_is_kept(w, vals.drop_last());
    }
}

/// The window holds the last values produced, most recent first, and after
/// them what it held before.
pub proof fn window_holds_recent_values<T>(w: Seq<T>, vals: Seq<T>, i: int)
    requires
        0 <= i < w.len(),
    ensures
        window_after(w, vals)[i] == if i < vals.len() {
            vals[vals.len() - 1 - i]
        } else {
            w[i - vals.len()]
        },
    decreases vals.len(),
{
    if vals.len() > 0 {
        window_length_is_kept(w, vals.drop_last());
        if i > 0 {
            window_holds_recent_values(w, vals.drop_last(), i - 1);
        }
    }
}

/// With no coefficients the recurrence is the offset plus the noise draw.
pub proof fn order_zero_is_offset_plus_noise<T: core::ops::Add<Output = T> + core::ops::Mul<Output = T>>(
    c: T,
    p: Seq<T>,
    eps: T,
)
    requires
        p.len() == 0,
    ensures
        next_value(c, Seq::<T>::empty(), p, eps) == c.add_spec(eps),
        shift_in(Seq::<T>::empty(), next_value(c, Seq::<T>::empty(), p, eps)) == Seq::<T>::empty(),
{
}

} // verus!
