//! The pressure solve that takes the divergence out of a velocity field.
//!
//! The divergence of the field is measured by central differences, a pressure
//! is relaxed against it from zero, and the gradient of that pressure is
//! subtracted from the velocity. The more sweeps, the nearer the result comes
//! to a flow that neither gathers nor spreads.
use vstd::prelude::*;
use crate::boundary::{lemma_patched_settled, lemma_patched_shape, patched, set_boundries, settled};
use crate::element::Vec2;
use crate::field::Field;
use crate::lattice::Lattice;
use crate::relax::{relax, relaxed};
use crate::scalar::{half, make_half, make_one, make_quarter, make_reciprocal, make_zero, one, quarter, reciprocal, zero, Scalar};

verus! {

/// The scaled divergence at the interior cell `(x, y)`:
/// `-0.5 * ((u(x+1, y).x - u(x-1, y).x) / width + (u(x, y+1).y - u(x, y-1).y) / height)`.
pub open spec fn divergence_value<S: Scalar>(u: Lattice<Vec2<S>>, x: int, y: int) -> S {
    let hx = reciprocal(S::of_count(u.width as usize));
    let hy = reciprocal(S::of_count(u.height as usize));
    half::<S>().negation().product(
        hx.product(u.at(x + 1, y).x.difference(u.at(x - 1, y).x)).sum(
            hy.product(u.at(x, y + 1).y.difference(u.at(x, y - 1).y)),
        ),
    )
}

/// The scaled divergence of `u` on the interior, zero on the edges.
pub open spec fn divergence_of<S: Scalar>(u: Lattice<Vec2<S>>) -> Lattice<S> {
    Lattice::build(
        u.width,
        u.height,
        |x: int, y: int|
            if u.interior(x, y) {
                divergence_value(u, x, y)
            } else {
                zero::<S>()
            },
    )
}

/// The pressure that answers the divergence of `u`: relaxed from zero for
/// `sweeps` rounds, each cell towards a quarter of the divergence plus its
/// four neighbours.
pub open spec fn pressure_of<S: Scalar>(u: Lattice<Vec2<S>>, sweeps: nat) -> Lattice<S> {
    relaxed(
        Lattice::uniform(u.width, u.height, zero::<S>()),
        patched(divergence_of(u)),
        one::<S>(),
        quarter::<S>(),
        sweeps,
    )
}

/// The velocity at the interior cell `(x, y)` less the gradient of `p` there:
/// `u.x - 0.5 * width * (p(x+1, y) - p(x-1, y))`, and likewise along `y`.
pub open spec fn corrected_value<S: Scalar>(u: Lattice<Vec2<S>>, p: Lattice<S>, x: int, y: int) -> Vec2<S> {
    let sx = S::of_count(u.width as usize);
    let sy = S::of_count(u.height as usize);
    Vec2 {
        x: u.at(x, y).x.difference(half::<S>().product(sx.product(p.at(x + 1, y).difference(p.at(x - 1, y))))),
        y: u.at(x, y).y.difference(half::<S>().product(sy.product(p.at(x, y + 1).difference(p.at(x, y - 1))))),
    }
}

/// `u` with the gradient of `p` taken from every interior cell.
pub open spec fn corrected<S: Scalar>(u: Lattice<Vec2<S>>, p: Lattice<S>) -> Lattice<Vec2<S>> {
    Lattice::build(
        u.width,
        u.height,
        |x: int, y: int|
            if u.interior(x, y) {
                corrected_value(u, p, x, y)
            } else {
                u.at(x, y)
            },
    )
}

/// `u` after projection with `sweeps` rounds of pressure relaxation.
pub open spec fn projected<S: Scalar>(u: Lattice<Vec2<S>>, sweeps: nat) -> Lattice<Vec2<S>> {
    patched(corrected(u, pressure_of(u, sweeps)))
}

/// Projection keeps the shape and leaves the edges settled.
pub proof fn lemma_projected_shape<S: Scalar>(u: Lattice<Vec2<S>>, sweeps: nat)
    requires
        u.wf(),
    ensures
        projected(u, sweeps).wf(),
        projected(u, sweeps).same_shape(u),
        settled(projected(u, sweeps)),
{
    let p = pressure_of(u, sweeps);
    Lattice::lemma_build(
        u.width,
        u.height,
        |x: int, y: int|
            if u.interior(x, y) {
                corrected_value(u, p, x, y)
            } else {
                u.at(x, y)
            },
    );
    lemma_patched_shape(corrected(u, p));
    lemma_patched_settled(corrected(u, p));
}

/// A lattice without an interior is left alone by projection.
pub proof fn lemma_projected_without_interior<S: Scalar>(u: Lattice<Vec2<S>>, sweeps: nat)
    requires
        u.wf(),
        !crate::boundary::has_interior(u),
    ensures
        projected(u, sweeps) == u,
{
    let p = pressure_of(u, sweeps);
    Lattice::lemma_build(
        u.width,
        u.height,
        |x: int, y: int|
            if u.interior(x, y) {
                corrected_value(u, p, x, y)
            } else {
                u.at(x, y)
            },
    );
    corrected(u, p).lemma_equal(u);
    crate::boundary::lemma_patched_without_interior(u);
}

/// Measures the scaled divergence of `velocity` at every interior cell; the
/// edge cells of the result hold zero.
pub fn divergence<S: Scalar>(velocity: &Field<Vec2<S>>) -> (div: Field<S>)
    ensures
        div@ == divergence_of(velocity@),
        div@.wf(),
        div@.same_shape(velocity@),
{
    let w: usize = velocity.width();
    let h: usize = velocity.height();
    let ghost u = velocity@;
    let nought = make_zero::<S>();
    let mut div = velocity.shaped_like(nought);
    proof {
        velocity.lemma_view_wf();
        Lattice::lemma_build(u.width, u.height, |x: int, y: int| nought);
        Lattice::lemma_build(
            u.width,
            u.height,
            |x: int, y: int|
                if u.interior(x, y) {
                    divergence_value(u, x, y)
                } else {
                    zero::<S>()
                },
        );
    }
    if w >= 3 && h >= 3 {
        let hx = make_reciprocal(S::from_count(w));
        let hy = make_reciprocal(S::from_count(h));
        let scale = make_half::<S>().negate();
        let mut x: usize = 1;
        while x < w - 1
            invariant
                3 <= w == u.width,
                3 <= h == u.height,
                1 <= x <= w - 1,
                u.wf(),
                u == velocity@,
                hx == reciprocal(S::of_count(w)),
                hy == reciprocal(S::of_count(h)),
                scale == half::<S>().negation(),
                div@.wf(),
                div@.same_shape(u),
                forall|i: int, j: int|
                    u.inside(i, j) ==> #[trigger] div@.at(i, j) == (if u.interior(i, j) && i < x {
                        divergence_value(u, i, j)
                    } else {
                        zero::<S>()
                    }),
            decreases w - x,
        {
            let mut y: usize = 1;
            while y < h - 1
                invariant
                    3 <= w == u.width,
                    3 <= h == u.height,
                    1 <= x < w - 1,
                    1 <= y <= h - 1,
                    u.wf(),
                    u == velocity@,
                    hx == reciprocal(S::of_count(w)),
                    hy == reciprocal(S::of_count(h)),
                    scale == half::<S>().negation(),
                    div@.wf(),
                    div@.same_shape(u),
                    forall|i: int, j: int|
                        u.inside(i, j) ==> #[trigger] div@.at(i, j) == (if u.interior(i, j) && (i < x || (i == x
                            && j < y)) {
                            divergence_value(u, i, j)
                        } else {
                            zero::<S>()
                        }),
                decreases h - y,
            {
                let across = hx.times(velocity.get(x + 1, y).x.minus(velocity.get(x - 1, y).x));
                let along = hy.times(velocity.get(x, y + 1).y.minus(velocity.get(x, y - 1).y));
                div.set(x, y, scale.times(across.plus(along)));
                y += 1;
            }
            x += 1;
        }
    }
    proof {
        div@.lemma_equal(divergence_of(u));
    }
    div
}

/// Takes the gradient of `pressure` from every interior cell of `velocity`.
fn subtract_gradient<S: Scalar>(velocity: &mut Field<Vec2<S>>, pressure: &Field<S>)
    requires
        old(velocity)@.same_shape(pressure@),
    ensures
        final(velocity)@ == corrected(old(velocity)@, pressure@),
        final(velocity)@.wf(),
        final(velocity)@.same_shape(old(velocity)@),
{
    let w: usize = velocity.width();
    let h: usize = velocity.height();
    let ghost u = velocity@;
    let ghost p = pressure@;
    proof {
        velocity.lemma_view_wf();
        pressure.lemma_view_wf();
        Lattice::lemma_build(
            u.width,
            u.height,
            |x: int, y: int|
                if u.interior(x, y) {
                    corrected_value(u, p, x, y)
                } else {
                    u.at(x, y)
                },
        );
    }
    if w >= 3 && h >= 3 {
        let sx = S::from_count(w);
        let sy = S::from_count(h);
        let k = make_half::<S>();
        let mut x: usize = 1;
        while x < w - 1
            invariant
                3 <= w == u.width,
                3 <= h == u.height,
                1 <= x <= w - 1,
                u.wf(),
                p.wf(),
                p == pressure@,
                u.same_shape(p),
                sx == S::of_count(w),
                sy == S::of_count(h),
                k == half::<S>(),
                velocity@.wf(),
                velocity@.same_shape(u),
                forall|i: int, j: int|
                    u.inside(i, j) ==> #[trigger] velocity@.at(i, j) == (if u.interior(i, j) && i < x {
                        corrected_value(u, p, i, j)
                    } else {
                        u.at(i, j)
                    }),
            decreases w - x,
        {
            let mut y: usize = 1;
            while y < h - 1
                invariant
                    3 <= w == u.width,
                    3 <= h == u.height,
                    1 <= x < w - 1,
                    1 <= y <= h - 1,
                    u.wf(),
                    p.wf(),
                    p == pressure@,
                    u.same_shape(p),
                    sx == S::of_count(w),
                    sy == S::of_count(h),
                    k == half::<S>(),
                    velocity@.wf(),
                    velocity@.same_shape(u),
                    forall|i: int, j: int|
                        u.inside(i, j) ==> #[trigger] velocity@.at(i, j) == (if u.interior(i, j) && (i < x || (i
                            == x && j < y)) {
                            corrected_value(u, p, i, j)
                        } else {
                            u.at(i, j)
                        }),
                decreases h - y,
            {
                let here = velocity.get(x, y);
                let gx = k.times(sx.times(pressure.get(x + 1, y).minus(pressure.get(x - 1, y))));
                let gy = k.times(sy.times(pressure.get(x, y + 1).minus(pressure.get(x, y - 1))));
                velocity.set(x, y, Vec2 { x: here.x.minus(gx), y: here.y.minus(gy) });
                y += 1;
            }
            x += 1;
        }
    }
    proof {
        velocity@.lemma_equal(corrected(u, p));
    }
}

/// Projects `velocity` in place: measures its divergence, relaxes a pressure
/// against it for `iter` sweeps and subtracts the gradient of that pressure.
pub fn project<S: Scalar>(velocity: &mut Field<Vec2<S>>, iter: usize)
    ensures
        final(velocity)@ == projected(old(velocity)@, iter as nat),
        final(velocity)@.wf(),
        final(velocity)@.same_shape(old(velocity)@),
        settled(final(velocity)@),
{
    let ghost u = velocity@;
    proof {
        velocity.lemma_view_wf();
        lemma_projected_shape(u, iter as nat);
    }
    let mut div = divergence(velocity);
    set_boundries(&mut div);
    let mut p = velocity.shaped_like(make_zero::<S>());
    relax(&mut p, &div, make_one::<S>(), make_quarter::<S>(), iter);
    subtract_gradient(velocity, &p);
    set_boundries(velocity);
}

} // verus!
