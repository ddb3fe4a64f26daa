//! The rule that gives every edge cell its value.
//!
//! Interior cells are solved by stencils that read four neighbours. Edge
//! cells have no such stencil: each takes the value of its one inner
//! neighbour, reflected at the wall, and each corner takes the mean of the
//! two edge cells beside it. A lattice with fewer than three cells along an
//! axis has no interior, and the rule leaves it as it is.
use vstd::prelude::*;
use crate::element::{Axis, Element};
use crate::field::Field;
use crate::lattice::Lattice;
use crate::scalar::{half, make_half};

verus! {

/// The lattice has an interior for the rule to draw on.
pub open spec fn has_interior<C>(g: Lattice<C>) -> bool {
    g.width >= 3 && g.height >= 3
}

/// `(x, y)` is one of the four corners.
pub open spec fn is_corner<C>(g: Lattice<C>, x: int, y: int) -> bool {
    (x == 0 || x == g.width - 1) && (y == 0 || y == g.height - 1)
}

/// What the rule gives the edge cell `(x, y)`, no corner: the value of its
/// inner neighbour with the part normal to the wall negated.
pub open spec fn edge_value<C: Element>(g: Lattice<C>, x: int, y: int) -> C {
    if x == 0 {
        g.at(1, y).reflected(Axis::X)
    } else if x == g.width - 1 {
        g.at(g.width - 2, y).reflected(Axis::X)
    } else if y == 0 {
        g.at(x, 1).reflected(Axis::Y)
    } else {
        g.at(x, g.height - 2).reflected(Axis::Y)
    }
}

/// What the rule gives the corner `(x, y)`: half the sum of what it gives the
/// two edge cells beside that corner.
pub open spec fn corner_value<C: Element>(g: Lattice<C>, x: int, y: int) -> C {
    let w = g.width as int;
    let h = g.height as int;
    if x == 0 && y == 0 {
        edge_value(g, 1, 0).total(edge_value(g, 0, 1)).scaled(half())
    } else if x == 0 {
        edge_value(g, 1, h - 1).total(edge_value(g, 0, h - 2)).scaled(half())
    } else if y == 0 {
        edge_value(g, w - 1, 1).total(edge_value(g, w - 2, 0)).scaled(half())
    } else {
        edge_value(g, w - 1, h - 2).total(edge_value(g, w - 2, h - 1)).scaled(half())
    }
}

/// The value of cell `(x, y)` once the rule has been applied to `g`.
pub open spec fn patched_value<C: Element>(g: Lattice<C>, x: int, y: int) -> C {
    if !has_interior(g) || g.interior(x, y) {
        g.at(x, y)
    } else if is_corner(g, x, y) {
        corner_value(g, x, y)
    } else {
        edge_value(g, x, y)
    }
}

/// `g` with the rule applied: the interior as it was, every edge cell derived
/// from it.
pub open spec fn patched<C: Element>(g: Lattice<C>) -> Lattice<C> {
    Lattice::build(g.width, g.height, |x: int, y: int| patched_value(g, x, y))
}

/// Every edge cell of `g` holds what the rule derives from the interior of `g`
/// as it now is.
pub open spec fn settled<C: Element>(g: Lattice<C>) -> bool {
    forall|x: int, y: int| g.inside(x, y) ==> #[trigger] g.at(x, y) == patched_value(g, x, y)
}

/// Applying the rule keeps the shape and the interior.
pub proof fn lemma_patched_shape<C: Element>(g: Lattice<C>)
    requires
        g.wf(),
    ensures
        patched(g).wf(),
        patched(g).same_shape(g),
        forall|x: int, y: int| g.inside(x, y) ==> #[trigger] patched(g).at(x, y) == patched_value(g, x, y),
        forall|x: int, y: int| g.interior(x, y) ==> #[trigger] patched(g).at(x, y) == g.at(x, y),
{
    Lattice::lemma_build(g.width, g.height, |x: int, y: int| patched_value(g, x, y));
}

/// Once the rule has been applied, every edge cell agrees with it.
pub proof fn lemma_patched_settled<C: Element>(g: Lattice<C>)
    requires
        g.wf(),
    ensures
        settled(patched(g)),
{
    lemma_patched_shape(g);
    let p = patched(g);
    assert forall|x: int, y: int| p.inside(x, y) implies #[trigger] p.at(x, y) == patched_value(p, x, y) by {
        if has_interior(g) && !g.interior(x, y) {
            // the rule reads the interior only, and that is the same in `p` and `g`
            let w = g.width as int;
            let h = g.height as int;
            assert(g.interior(1, y) ==> p.at(1, y) == g.at(1, y));
            assert(g.interior(w - 2, y) ==> p.at(w - 2, y) == g.at(w - 2, y));
            assert(g.interior(x, 1) ==> p.at(x, 1) == g.at(x, 1));
            assert(g.interior(x, h - 2) ==> p.at(x, h - 2) == g.at(x, h - 2));
            assert(p.at(1, 1) == g.at(1, 1));
            assert(p.at(1, h - 2) == g.at(1, h - 2));
            assert(p.at(w - 2, 1) == g.at(w - 2, 1));
            assert(p.at(w - 2, h - 2) == g.at(w - 2, h - 2));
        }
    }
}

/// A settled lattice is left alone by the rule.
pub proof fn lemma_settled_fixed<C: Element>(g: Lattice<C>)
    requires
        g.wf(),
        settled(g),
    ensures
        patched(g) == g,
{
    lemma_patched_shape(g);
    patched(g).lemma_equal(g);
}

/// A lattice without an interior is left alone by the rule.
pub proof fn lemma_patched_without_interior<C: Element>(g: Lattice<C>)
    requires
        g.wf(),
        !has_interior(g),
    ensures
        patched(g) == g,
{
    lemma_patched_shape(g);
    patched(g).lemma_equal(g);
}

/// Applies the boundary rule to `array`.
pub fn set_boundries<C: Element>(array: &mut Field<C>)
    ensures
        final(array)@ == patched(old(array)@),
        final(array)@.wf(),
        settled(final(array)@),
{
    let w: usize = array.width();
    let h: usize = array.height();
    let ghost g0 = array@;
    proof {
        array.lemma_view_wf();
        lemma_patched_shape(g0);
        lemma_patched_settled(g0);
    }
    if w < 3 || h < 3 {
        proof {
            array@.lemma_equal(patched(g0));
        }
        return ;
    }
    let mut x: usize = 1;
    while x < w - 1
        invariant
            3 <= w == g0.width,
            3 <= h == g0.height,
            1 <= x <= w - 1,
            g0.wf(),
            array@.wf(),
            array@.same_shape(g0),
            forall|i: int, j: int|
                g0.inside(i, j) ==> #[trigger] array@.at(i, j) == (if 1 <= i < x && (j == 0 || j == h - 1) {
                    edge_value(g0, i, j)
                } else {
                    g0.at(i, j)
                }),
        decreases w - x,
    {
        let low = array.get(x, 1).reflect(Axis::Y);
        array.set(x, 0, low);
        let high = array.get(x, h - 2).reflect(Axis::Y);
        array.set(x, h - 1, high);
        x += 1;
    }
    let mut y: usize = 1;
    while y < h - 1
        invariant
            3 <= w == g0.width,
            3 <= h == g0.height,
            1 <= y <= h - 1,
            g0.wf(),
            array@.wf(),
            array@.same_shape(g0),
            forall|i: int, j: int|
                g0.inside(i, j) ==> #[trigger] array@.at(i, j) == (if (1 <= i < w - 1 && (j == 0 || j == h - 1))
                    || (1 <= j < y && (i == 0 || i == w - 1)) {
                    edge_value(g0, i, j)
                } else {
                    g0.at(i, j)
                }),
        decreases h - y,
    {
        let left = array.get(1, y).reflect(Axis::X);
        array.set(0, y, left);
        let right = array.get(w - 2, y).reflect(Axis::X);
        array.set(w - 1, y, right);
        y += 1;
    }
    let k = make_half::<C::Number>();
    let c00 = array.get(1, 0).accumulate(array.get(0, 1)).scale(k);
    let c01 = array.get(1, h - 1).accumulate(array.get(0, h - 2)).scale(k);
    let c10 = array.get(w - 1, 1).accumulate(array.get(w - 2, 0)).scale(k);
    let c11 = array.get(w - 1, h - 2).accumulate(array.get(w - 2, h - 1)).scale(k);
    array.set(0, 0, c00);
    array.set(0, h - 1, c01);
    array.set(w - 1, 0, c10);
    array.set(w - 1, h - 1, c11);
    proof {
        array@.lemma_equal(patched(g0));
    }
}

} // verus!
