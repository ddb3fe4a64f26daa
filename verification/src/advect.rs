//! Transport of a field by the velocity field.
//!
//! For every interior cell the flow is followed backwards over one time step.
//! The place it leads to lies between four cells of the field being moved, and
//! the cell takes the weighted mean of those four. Edge cells then follow the
//! boundary rule.
use vstd::prelude::*;
use crate::boundary::{lemma_patched_shape, patched, set_boundries, settled};
use crate::element::{Element, Vec2};
use crate::field::Field;
use crate::lattice::Lattice;
use crate::scalar::{half, make_half, make_one, one, Scalar};

verus! {

/// The coordinate, along one axis of `extent` cells, from which the flow
/// reaches position `at`: `at - dt * extent * speed`, kept between `0.5` and
/// `extent + 0.5`.
pub open spec fn source_coordinate<S: Scalar>(at: int, extent: int, dt: S, speed: S) -> S {
    S::of_count(at as usize).difference(dt.product(S::of_count(extent as usize)).product(speed)).clamped(
        half(),
        S::of_count(extent as usize).sum(half()),
    )
}

/// The index of the cell at or below coordinate `p`, never past the last cell.
pub open spec fn stencil_low<S: Scalar>(p: S, extent: int) -> int {
    let cut = p.floored().truncation() as int;
    if cut < extent - 1 {
        cut
    } else {
        extent - 1
    }
}

/// The index of the cell after [`stencil_low`], never past the last cell.
pub open spec fn stencil_high<S: Scalar>(p: S, extent: int) -> int {
    let low = stencil_low(p, extent);
    if low < extent - 1 {
        low + 1
    } else {
        extent - 1
    }
}

/// How far coordinate `p` lies past the whole number below it.
pub open spec fn fraction<S: Scalar>(p: S) -> S {
    p.difference(p.floored())
}

/// The value that the flow carries into the interior cell `(x, y)`: the mean
/// of the four cells of `source` around the place the flow comes from, each
/// weighted by how near it lies.
pub open spec fn traced_value<C: Element>(
    source: Lattice<C>,
    velocity: Lattice<Vec2<C::Number>>,
    dt: C::Number,
    x: int,
    y: int,
) -> C {
    let w = source.width as int;
    let h = source.height as int;
    let px = source_coordinate(x, w, dt, velocity.at(x, y).x);
    let py = source_coordinate(y, h, dt, velocity.at(x, y).y);
    let tx = fraction(px);
    let ty = fraction(py);
    let nx = one::<C::Number>().difference(tx);
    let ny = one::<C::Number>().difference(ty);
    let i0 = stencil_low(px, w);
    let i1 = stencil_high(px, w);
    let j0 = stencil_low(py, h);
    let j1 = stencil_high(py, h);
    source.at(i0, j0).scaled(ny).total(source.at(i0, j1).scaled(ty)).scaled(nx).total(
        source.at(i1, j0).scaled(ny).total(source.at(i1, j1).scaled(ty)).scaled(tx),
    )
}

/// `source` with every interior cell replaced by what the flow carries into it.
pub open spec fn traced<C: Element>(
    source: Lattice<C>,
    velocity: Lattice<Vec2<C::Number>>,
    dt: C::Number,
) -> Lattice<C> {
    Lattice::build(
        source.width,
        source.height,
        |x: int, y: int|
            if source.interior(x, y) {
                traced_value(source, velocity, dt, x, y)
            } else {
                source.at(x, y)
            },
    )
}

/// `source` moved along `velocity` for the time `dt`, edges following the
/// boundary rule.
pub open spec fn advected<C: Element>(
    source: Lattice<C>,
    velocity: Lattice<Vec2<C::Number>>,
    dt: C::Number,
) -> Lattice<C> {
    patched(traced(source, velocity, dt))
}

/// Advection keeps the shape and leaves the edges settled.
pub proof fn lemma_advected_shape<C: Element>(
    source: Lattice<C>,
    velocity: Lattice<Vec2<C::Number>>,
    dt: C::Number,
)
    requires
        source.wf(),
    ensures
        advected(source, velocity, dt).wf(),
        advected(source, velocity, dt).same_shape(source),
        settled(advected(source, velocity, dt)),
{
    Lattice::lemma_build(
        source.width,
        source.height,
        |x: int, y: int|
            if source.interior(x, y) {
                traced_value(source, velocity, dt, x, y)
            } else {
                source.at(x, y)
            },
    );
    lemma_patched_shape(traced(source, velocity, dt));
    crate::boundary::lemma_patched_settled(traced(source, velocity, dt));
}

/// A lattice without an interior is left alone by advection.
pub proof fn lemma_advected_without_interior<C: Element>(
    source: Lattice<C>,
    velocity: Lattice<Vec2<C::Number>>,
    dt: C::Number,
)
    requires
        source.wf(),
        !crate::boundary::has_interior(source),
    ensures
        advected(source, velocity, dt) == source,
{
    Lattice::lemma_build(
        source.width,
        source.height,
        |x: int, y: int|
            if source.interior(x, y) {
                traced_value(source, velocity, dt, x, y)
            } else {
                source.at(x, y)
            },
    );
    traced(source, velocity, dt).lemma_equal(source);
    crate::boundary::lemma_patched_without_interior(source);
}

/// The clamped source coordinate along one axis.
fn trace_back<S: Scalar>(at: usize, extent: usize, dt: S, speed: S) -> (p: S)
    ensures
        p == source_coordinate(at as int, extent as int, dt, speed),
{
    let reach = S::from_count(extent);
    let k = make_half::<S>();
    S::from_count(at).minus(dt.times(reach).times(speed)).clamp(k, reach.plus(k))
}

/// The two cells along one axis between which coordinate `p` lies.
fn stencil<S: Scalar>(p: S, extent: usize) -> (r: (usize, usize))
    requires
        extent >= 1,
    ensures
        r.0 == stencil_low(p, extent as int),
        r.1 == stencil_high(p, extent as int),
        r.0 < extent,
        r.1 < extent,
{
    let cut: usize = p.floor().truncate();
    let low: usize = if cut < extent - 1 {
        cut
    } else {
        extent - 1
    };
    let high: usize = if low < extent - 1 {
        low + 1
    } else {
        extent - 1
    };
    (low, high)
}

/// Moves `density_prev` along `velocity` for the time `dt` and returns the
/// result. Each interior cell is traced back to
/// `(x - dt * width * vx, y - dt * height * vy)`, clamped to the lattice, and
/// takes the bilinear mean of `density_prev` there.
pub fn advect<C: Element>(density_prev: &Field<C>, velocity: &Field<Vec2<C::Number>>, dt: C::Number) -> (output:
    Field<C>)
    requires
        density_prev@.same_shape(velocity@),
    ensures
        output@ == advected(density_prev@, velocity@, dt),
        output@.wf(),
        output@.same_shape(density_prev@),
        settled(output@),
{
    let w: usize = density_prev.width();
    let h: usize = density_prev.height();
    let ghost src = density_prev@;
    let ghost vel = velocity@;
    let mut output = density_prev.duplicate();
    proof {
        density_prev.lemma_view_wf();
        lemma_advected_shape(src, vel, dt);
        Lattice::lemma_build(
            src.width,
            src.height,
            |x: int, y: int|
                if src.interior(x, y) {
                    traced_value(src, vel, dt, x, y)
                } else {
                    src.at(x, y)
                },
        );
    }
    if w >= 3 && h >= 3 {
        let unit = make_one::<C::Number>();
        let mut x: usize = 1;
        while x < w - 1
            invariant
                3 <= w == src.width,
                3 <= h == src.height,
                1 <= x <= w - 1,
                src.wf(),
                src == density_prev@,
                vel == velocity@,
                src.same_shape(vel),
                unit == one::<C::Number>(),
                output@.wf(),
                output@.same_shape(src),
                forall|i: int, j: int|
                    src.inside(i, j) ==> #[trigger] output@.at(i, j) == (if src.interior(i, j) && i < x {
                        traced_value(src, vel, dt, i, j)
                    } else {
                        src.at(i, j)
                    }),
            decreases w - x,
        {
            let mut y: usize = 1;
            while y < h - 1
                invariant
                    3 <= w == src.width,
                    3 <= h == src.height,
                    1 <= x < w - 1,
                    1 <= y <= h - 1,
                    src.wf(),
                    src == density_prev@,
                    vel == velocity@,
                    src.same_shape(vel),
                    unit == one::<C::Number>(),
                    output@.wf(),
                    output@.same_shape(src),
                    forall|i: int, j: int|
                        src.inside(i, j) ==> #[trigger] output@.at(i, j) == (if src.interior(i, j) && (i < x || (i
                            == x && j < y)) {
                            traced_value(src, vel, dt, i, j)
                        } else {
                            src.at(i, j)
                        }),
                decreases h - y,
            {
                let v = velocity.get(x, y);
                let px = trace_back(x, w, dt, v.x);
                let py = trace_back(y, h, dt, v.y);
                let tx = px.minus(px.floor());
                let ty = py.minus(py.floor());
                let nx = unit.minus(tx);
                let ny = unit.minus(ty);
                let (i0, i1) = stencil(px, w);
                let (j0, j1) = stencil(py, h);
                let near = density_prev.get(i0, j0).scale(ny).accumulate(density_prev.get(i0, j1).scale(ty));
                let far = density_prev.get(i1, j0).scale(ny).accumulate(density_prev.get(i1, j1).scale(ty));
                output.set(x, y, near.scale(nx).accumulate(far.scale(tx)));
                y += 1;
            }
            x += 1;
        }
    }
    proof {
        output@.lemma_equal(traced(src, vel, dt));
    }
    set_boundries(&mut output);
    output
}

} // verus!
