//! Gauss-Seidel relaxation, and diffusion as one use of it.
//!
//! A sweep visits the interior cells line by line and replaces each by a
//! blend of a source value and its four neighbours. It works in place: a cell
//! sees the new values of the neighbours visited before it and the old values
//! of the others. The boundary rule follows every sweep.
use vstd::prelude::*;
use crate::boundary::{has_interior, lemma_patched_shape, patched, set_boundries};
use crate::element::Element;
use crate::field::Field;
use crate::lattice::Lattice;
use crate::scalar::{make_one, make_reciprocal, one, reciprocal, Scalar};

verus! {

/// The four cells next to `pair`: before and after it along the first axis,
/// then before and after it along the second.
pub fn neighbours(pair: (usize, usize)) -> (r: Vec<(usize, usize)>)
    requires
        1 <= pair.0 < usize::MAX,
        1 <= pair.1 < usize::MAX,
    ensures
        r@ == seq![
            ((pair.0 - 1) as usize, pair.1),
            ((pair.0 + 1) as usize, pair.1),
            (pair.0, (pair.1 - 1) as usize),
            (pair.0, (pair.1 + 1) as usize),
        ],
{
    let mut r: Vec<(usize, usize)> = Vec::new();
    r.push((pair.0 - 1, pair.1));
    r.push((pair.0 + 1, pair.1));
    r.push((pair.0, pair.1 - 1));
    r.push((pair.0, pair.1 + 1));
    proof {
        assert(r@ =~= seq![
            ((pair.0 - 1) as usize, pair.1),
            ((pair.0 + 1) as usize, pair.1),
            (pair.0, (pair.1 - 1) as usize),
            (pair.0, (pair.1 + 1) as usize),
        ]);
    }
    r
}

/// The sum of the four neighbours of `(x, y)`, gathered from the origin in the
/// order in which [`neighbours`] lists them.
pub open spec fn neighbour_total<C: Element>(g: Lattice<C>, x: int, y: int) -> C {
    C::origin().total(g.at(x - 1, y)).total(g.at(x + 1, y)).total(g.at(x, y - 1)).total(g.at(x, y + 1))
}

/// The relaxed value of `(x, y)`: `(source + neighbours * weight) * norm`.
pub open spec fn relaxed_value<C: Element>(
    g: Lattice<C>,
    source: Lattice<C>,
    weight: C::Number,
    norm: C::Number,
    x: int,
    y: int,
) -> C {
    source.at(x, y).total(neighbour_total(g, x, y).scaled(weight)).scaled(norm)
}

/// `g` after the cells `(x, 1)` to `(x, n)` have been relaxed one after the
/// other, each seeing the cells relaxed before it.
pub open spec fn line_relaxed<C: Element>(
    g: Lattice<C>,
    source: Lattice<C>,
    weight: C::Number,
    norm: C::Number,
    x: int,
    n: nat,
) -> Lattice<C>
    decreases n,
{
    if n == 0 {
        g
    } else {
        let before = line_relaxed(g, source, weight, norm, x, (n - 1) as nat);
        before.put(x, n as int, relaxed_value(before, source, weight, norm, x, n as int))
    }
}

/// `g` after the interior cells of the lines `1` to `m` have been relaxed,
/// line after line.
pub open spec fn lines_relaxed<C: Element>(
    g: Lattice<C>,
    source: Lattice<C>,
    weight: C::Number,
    norm: C::Number,
    m: nat,
) -> Lattice<C>
    decreases m,
{
    if m == 0 {
        g
    } else {
        line_relaxed(
            lines_relaxed(g, source, weight, norm, (m - 1) as nat),
            source,
            weight,
            norm,
            m as int,
            (g.height - 2) as nat,
        )
    }
}

/// `g` after one sweep over its whole interior, edges untouched.
pub open spec fn swept<C: Element>(g: Lattice<C>, source: Lattice<C>, weight: C::Number, norm: C::Number) -> Lattice<
    C,
> {
    if has_interior(g) {
        lines_relaxed(g, source, weight, norm, (g.width - 2) as nat)
    } else {
        g
    }
}

/// `g` after `sweeps` rounds of a sweep followed by the boundary rule.
pub open spec fn relaxed<C: Element>(
    g: Lattice<C>,
    source: Lattice<C>,
    weight: C::Number,
    norm: C::Number,
    sweeps: nat,
) -> Lattice<C>
    decreases sweeps,
{
    if sweeps == 0 {
        g
    } else {
        patched(swept(relaxed(g, source, weight, norm, (sweeps - 1) as nat), source, weight, norm))
    }
}

/// Relaxing part of a line keeps the shape.
pub proof fn lemma_line_relaxed_shape<C: Element>(
    g: Lattice<C>,
    source: Lattice<C>,
    weight: C::Number,
    norm: C::Number,
    x: int,
    n: nat,
)
    requires
        g.wf(),
        0 <= x < g.width,
        n < g.height,
    ensures
        line_relaxed(g, source, weight, norm, x, n).wf(),
        line_relaxed(g, source, weight, norm, x, n).same_shape(g),
    decreases n,
{
    if n > 0 {
        lemma_line_relaxed_shape(g, source, weight, norm, x, (n - 1) as nat);
        let before = line_relaxed(g, source, weight, norm, x, (n - 1) as nat);
        before.lemma_put(x, n as int, relaxed_value(before, source, weight, norm, x, n as int));
    }
}

/// Relaxing some lines keeps the shape.
pub proof fn lemma_lines_relaxed_shape<C: Element>(
    g: Lattice<C>,
    source: Lattice<C>,
    weight: C::Number,
    norm: C::Number,
    m: nat,
)
    requires
        g.wf(),
        has_interior(g),
        m < g.width,
    ensures
        lines_relaxed(g, source, weight, norm, m).wf(),
        lines_relaxed(g, source, weight, norm, m).same_shape(g),
    decreases m,
{
    if m > 0 {
        lemma_lines_relaxed_shape(g, source, weight, norm, (m - 1) as nat);
        lemma_line_relaxed_shape(
            lines_relaxed(g, source, weight, norm, (m - 1) as nat),
            source,
            weight,
            norm,
            m as int,
            (g.height - 2) as nat,
        );
    }
}

/// Relaxation keeps the shape, however many sweeps it makes.
pub proof fn lemma_relaxed_shape<C: Element>(
    g: Lattice<C>,
    source: Lattice<C>,
    weight: C::Number,
    norm: C::Number,
    sweeps: nat,
)
    requires
        g.wf(),
    ensures
        relaxed(g, source, weight, norm, sweeps).wf(),
        relaxed(g, source, weight, norm, sweeps).same_shape(g),
    decreases sweeps,
{
    if sweeps > 0 {
        lemma_relaxed_shape(g, source, weight, norm, (sweeps - 1) as nat);
        let before = relaxed(g, source, weight, norm, (sweeps - 1) as nat);
        if has_interior(before) {
            lemma_lines_relaxed_shape(before, source, weight, norm, (before.width - 2) as nat);
        }
        lemma_patched_shape(swept(before, source, weight, norm));
    }
}

/// A lattice without an interior is left alone by relaxation.
pub proof fn lemma_relaxed_without_interior<C: Element>(
    g: Lattice<C>,
    source: Lattice<C>,
    weight: C::Number,
    norm: C::Number,
    sweeps: nat,
)
    requires
        g.wf(),
        !has_interior(g),
    ensures
        relaxed(g, source, weight, norm, sweeps) == g,
    decreases sweeps,
{
    if sweeps > 0 {
        lemma_relaxed_without_interior(g, source, weight, norm, (sweeps - 1) as nat);
        crate::boundary::lemma_patched_without_interior(g);
    }
}

/// The value a sweep gives the interior cell `(x, y)`, said without the order
/// of the visit: the blend reads `new`, the lattice after the sweep, at the
/// two neighbours with the smaller index, and `old`, the lattice before it,
/// at the two with the larger.
pub open spec fn seidel_value<C: Element>(
    new: Lattice<C>,
    old: Lattice<C>,
    source: Lattice<C>,
    weight: C::Number,
    norm: C::Number,
    x: int,
    y: int,
) -> C {
    source.at(x, y).total(
        C::origin().total(new.at(x - 1, y)).total(old.at(x + 1, y)).total(new.at(x, y - 1)).total(
            old.at(x, y + 1),
        ).scaled(weight),
    ).scaled(norm)
}

/// What part of a line looks like once relaxed: the cells visited hold the
/// blend of their neighbours, the one before them in the line as it is now;
/// every other cell is as it was.
proof fn lemma_line_relaxed_cells<C: Element>(
    g: Lattice<C>,
    source: Lattice<C>,
    weight: C::Number,
    norm: C::Number,
    x: int,
    n: nat,
)
    requires
        g.wf(),
        1 <= x < g.width - 1,
        n <= g.height - 2,
    ensures
        line_relaxed(g, source, weight, norm, x, n).wf(),
        line_relaxed(g, source, weight, norm, x, n).same_shape(g),
        forall|i: int, j: int|
            g.inside(i, j) ==> #[trigger] line_relaxed(g, source, weight, norm, x, n).at(i, j) == (if i == x && 1
                <= j <= n {
                source.at(x, j).total(
                    C::origin().total(g.at(x - 1, j)).total(g.at(x + 1, j)).total(
                        line_relaxed(g, source, weight, norm, x, n).at(x, j - 1),
                    ).total(g.at(x, j + 1)).scaled(weight),
                ).scaled(norm)
            } else {
                g.at(i, j)
            }),
    decreases n,
{
    if n > 0 {
        lemma_line_relaxed_cells(g, source, weight, norm, x, (n - 1) as nat);
        let before = line_relaxed(g, source, weight, norm, x, (n - 1) as nat);
        let value = relaxed_value(before, source, weight, norm, x, n as int);
        let after = line_relaxed(g, source, weight, norm, x, n);
        let y = n as int;
        before.lemma_put(x, y, value);
        assert(after == before.put(x, y, value));
        assert(g.inside(x - 1, y) && g.inside(x + 1, y));
        assert(g.inside(x, y - 1) && g.inside(x, y + 1));
        assert(before.at(x - 1, y) == g.at(x - 1, y));
        assert(before.at(x + 1, y) == g.at(x + 1, y));
        assert(before.at(x, y + 1) == g.at(x, y + 1));
        assert(after.at(x, y - 1) == before.at(x, y - 1));
        assert forall|i: int, j: int| g.inside(i, j) implies #[trigger] after.at(i, j) == (if i == x && 1 <= j <= n {
            source.at(x, j).total(
                C::origin().total(g.at(x - 1, j)).total(g.at(x + 1, j)).total(after.at(x, j - 1)).total(
                    g.at(x, j + 1),
                ).scaled(weight),
            ).scaled(norm)
        } else {
            g.at(i, j)
        }) by {
            if i == x && 1 <= j < n {
                assert(g.inside(x, j - 1));
                assert(after.at(x, j) == before.at(x, j));
                assert(after.at(x, j - 1) == before.at(x, j - 1));
            }
        }
    }
}

/// What the lattice looks like once some lines are relaxed: the cells of
/// those lines hold their Gauss-Seidel value, every other cell is as it was.
proof fn lemma_lines_relaxed_cells<C: Element>(
    g: Lattice<C>,
    source: Lattice<C>,
    weight: C::Number,
    norm: C::Number,
    m: nat,
)
    requires
        g.wf(),
        has_interior(g),
        m <= g.width - 2,
    ensures
        lines_relaxed(g, source, weight, norm, m).wf(),
        lines_relaxed(g, source, weight, norm, m).same_shape(g),
        forall|i: int, j: int|
            g.inside(i, j) ==> #[trigger] lines_relaxed(g, source, weight, norm, m).at(i, j) == (if 1 <= i <= m
                && 1 <= j <= g.height - 2 {
                seidel_value(lines_relaxed(g, source, weight, norm, m), g, source, weight, norm, i, j)
            } else {
                g.at(i, j)
            }),
    decreases m,
{
    if m > 0 {
        lemma_lines_relaxed_cells(g, source, weight, norm, (m - 1) as nat);
        let before = lines_relaxed(g, source, weight, norm, (m - 1) as nat);
        let after = lines_relaxed(g, source, weight, norm, m);
        let top = (g.height - 2) as nat;
        lemma_line_relaxed_cells(before, source, weight, norm, m as int, top);
        assert(after == line_relaxed(before, source, weight, norm, m as int, top));
        assert forall|i: int, j: int| g.inside(i, j) implies #[trigger] after.at(i, j) == (if 1 <= i <= m && 1 <= j
            <= g.height - 2 {
            seidel_value(after, g, source, weight, norm, i, j)
        } else {
            g.at(i, j)
        }) by {
            assert(before.inside(i, j));
            if 1 <= i <= m && 1 <= j <= g.height - 2 {
                assert(g.inside(i - 1, j) && g.inside(i + 1, j) && g.inside(i, j - 1) && g.inside(i, j + 1));
                assert(before.inside(i - 1, j) && before.inside(i + 1, j) && before.inside(i, j - 1)
                    && before.inside(i, j + 1));
                if i == m {
                    assert(after.at(i - 1, j) == before.at(i - 1, j));
                    assert(before.at(i + 1, j) == g.at(i + 1, j));
                    assert(before.at(i, j + 1) == g.at(i, j + 1));
                } else {
                    assert(after.at(i, j) == before.at(i, j));
                    assert(after.at(i - 1, j) == before.at(i - 1, j));
                    assert(after.at(i, j - 1) == before.at(i, j - 1));
                }
            } else {
                assert(after.at(i, j) == before.at(i, j));
            }
        }
    }
}

/// A sweep is one round of Gauss-Seidel: afterwards every interior cell
/// holds the blend of its source value and its four neighbours, taking the
/// two neighbours visited before it as they are after the sweep and the two
/// visited after it as they were before; every edge cell is as it was.
pub proof fn lemma_sweep_is_gauss_seidel<C: Element>(
    g: Lattice<C>,
    source: Lattice<C>,
    weight: C::Number,
    norm: C::Number,
)
    requires
        g.wf(),
    ensures
        swept(g, source, weight, norm).wf(),
        swept(g, source, weight, norm).same_shape(g),
        forall|x: int, y: int|
            g.inside(x, y) ==> #[trigger] swept(g, source, weight, norm).at(x, y) == (if g.interior(x, y) {
                seidel_value(swept(g, source, weight, norm), g, source, weight, norm, x, y)
            } else {
                g.at(x, y)
            }),
{
    if has_interior(g) {
        lemma_lines_relaxed_cells(g, source, weight, norm, (g.width - 2) as nat);
    }
}

/// Relaxes `array` in place towards `source`: `sweeps` times a sweep over the
/// interior, each followed by the boundary rule.
pub fn relax<C: Element>(array: &mut Field<C>, source: &Field<C>, weight: C::Number, norm: C::Number, sweeps: usize)
    requires
        old(array)@.same_shape(source@),
    ensures
        final(array)@ == relaxed(old(array)@, source@, weight, norm, sweeps as nat),
        final(array)@.wf(),
        final(array)@.same_shape(old(array)@),
{
    let w: usize = array.width();
    let h: usize = array.height();
    let ghost g0 = array@;
    let ghost src = source@;
    proof {
        array.lemma_view_wf();
    }
    let mut n: usize = 0;
    while n < sweeps
        invariant
            n <= sweeps,
            w == g0.width,
            h == g0.height,
            g0.wf(),
            g0.same_shape(src),
            src == source@,
            array@ == relaxed(g0, src, weight, norm, n as nat),
            array@.wf(),
            array@.same_shape(g0),
        decreases sweeps - n,
    {
        let ghost gs = array@;
        if w >= 3 && h >= 3 {
            let mut x: usize = 1;
            while x < w - 1
                invariant
                    3 <= w == gs.width,
                    3 <= h == gs.height,
                    1 <= x <= w - 1,
                    gs.wf(),
                    gs.same_shape(src),
                    src == source@,
                    array@ == lines_relaxed(gs, src, weight, norm, (x - 1) as nat),
                    array@.wf(),
                    array@.same_shape(gs),
                decreases w - x,
            {
                let ghost gl = array@;
                let mut y: usize = 1;
                while y < h - 1
                    invariant
                        3 <= w == gl.width,
                        3 <= h == gl.height,
                        1 <= x < w - 1,
                        1 <= y <= h - 1,
                        gl.wf(),
                        gl.same_shape(src),
                        src == source@,
                        array@ == line_relaxed(gl, src, weight, norm, x as int, (y - 1) as nat),
                        array@.wf(),
                        array@.same_shape(gl),
                    decreases h - y,
                {
                    let ns = neighbours((x, y));
                    let total = C::zero().accumulate(array.get(ns[0].0, ns[0].1)).accumulate(
                        array.get(ns[1].0, ns[1].1),
                    ).accumulate(array.get(ns[2].0, ns[2].1)).accumulate(array.get(ns[3].0, ns[3].1));
                    let value = source.get(x, y).accumulate(total.scale(weight)).scale(norm);
                    array.set(x, y, value);
                    y += 1;
                }
                x += 1;
            }
        }
        set_boundries(array);
        n += 1;
    }
}

/// The weight that diffusion gives the neighbours: `dt * rate * width * height`.
pub open spec fn diffusion_weight<S: Scalar>(dt: S, rate: S, width: nat, height: nat) -> S {
    dt.product(rate).product(S::of_count(width as usize)).product(S::of_count(height as usize))
}

/// The factor that keeps the blend a mean: `1 / (1 + 4 * weight)`.
pub open spec fn diffusion_norm<S: Scalar>(weight: S) -> S {
    reciprocal(one::<S>().sum(S::of_count(4).product(weight)))
}

/// `g` diffused towards `source` by `sweeps` relaxation rounds.
pub open spec fn diffused<C: Element>(
    g: Lattice<C>,
    source: Lattice<C>,
    sweeps: nat,
    dt: C::Number,
    rate: C::Number,
) -> Lattice<C> {
    let weight = diffusion_weight(dt, rate, g.width, g.height);
    relaxed(g, source, weight, diffusion_norm(weight), sweeps)
}

/// Diffuses `array` in place over `iter` sweeps. A sweep sets every interior
/// cell to `(array_prev + k * neighbours) * (1 / (1 + 4 * k))`, with
/// `k = dt * visc * width * height` and `neighbours` the sum of the four
/// cells around it.
pub fn diffuse<C: Element>(array: &mut Field<C>, array_prev: &Field<C>, iter: usize, dt: C::Number, visc: C::Number)
    requires
        old(array)@.same_shape(array_prev@),
    ensures
        final(array)@ == diffused(old(array)@, array_prev@, iter as nat, dt, visc),
        final(array)@.wf(),
        final(array)@.same_shape(old(array)@),
{
    let w = <C::Number as Scalar>::from_count(array.width());
    let h = <C::Number as Scalar>::from_count(array.height());
    let weight = dt.times(visc).times(w).times(h);
    let four = <C::Number as Scalar>::from_count(4);
    let norm = make_reciprocal(make_one::<C::Number>().plus(four.times(weight)));
    relax(array, array_prev, weight, norm, iter);
}

} // verus!
