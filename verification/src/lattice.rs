//! The mathematical picture of a field: a rectangle of cell values.
use vstd::prelude::*;

verus! {

/// `width` lines of `height` cells each; `lines[x][y]` is the cell at `(x, y)`.
pub struct Lattice<C> {
    pub width: nat,
    pub height: nat,
    pub lines: Seq<Seq<C>>,
}

impl<C> Lattice<C> {
    /// The lines are as many and as long as the dimensions say.
    pub open spec fn wf(self) -> bool {
        &&& self.lines.len() == self.width
        &&& forall|x: int| 0 <= x < self.width ==> (#[trigger] self.lines[x]).len() == self.height
    }

    /// `(x, y)` names a cell.
    pub open spec fn inside(self, x: int, y: int) -> bool {
        0 <= x < self.width && 0 <= y < self.height
    }

    /// `(x, y)` names a cell with all four neighbours, none of them across an edge.
    pub open spec fn interior(self, x: int, y: int) -> bool {
        1 <= x < self.width - 1 && 1 <= y < self.height - 1
    }

    /// The value of the cell at `(x, y)`.
    pub open spec fn at(self, x: int, y: int) -> C {
        self.lines[x][y]
    }

    /// This lattice with the cell at `(x, y)` replaced by `value`.
    pub open spec fn put(self, x: int, y: int, value: C) -> Self {
        Lattice { width: self.width, height: self.height, lines: self.lines.update(x, self.lines[x].update(y, value)) }
    }

    /// The lattice whose cell at `(x, y)` is `f(x, y)`.
    pub open spec fn build(width: nat, height: nat, f: spec_fn(int, int) -> C) -> Self {
        Lattice {
            width,
            height,
            lines: Seq::new(width, |x: int| Seq::new(height, |y: int| f(x, y))),
        }
    }

    /// The lattice with `value` in every cell.
    pub open spec fn uniform(width: nat, height: nat, value: C) -> Self {
        Self::build(width, height, |x: int, y: int| value)
    }

    /// Both lattices have the same dimensions.
    pub open spec fn same_shape<D>(self, other: Lattice<D>) -> bool {
        self.width == other.width && self.height == other.height
    }

    /// Two well-formed lattices of one shape that agree cell by cell are equal.
    pub proof fn lemma_equal(self, other: Self)
        requires
            self.wf(),
            other.wf(),
            self.same_shape(other),
            forall|x: int, y: int| self.inside(x, y) ==> self.at(x, y) == other.at(x, y),
        ensures
            self == other,
    {
        assert forall|x: int| 0 <= x < self.width implies self.lines[x] == other.lines[x] by {
            assert forall|y: int| 0 <= y < self.height implies self.lines[x][y] == other.lines[x][y] by {
                assert(self.inside(x, y));
                assert(self.at(x, y) == other.at(x, y));
            }
            assert(self.lines[x] =~= other.lines[x]);
        }
        assert(self.lines =~= other.lines);
    }

    /// A built lattice is well formed and holds `f(x, y)` at `(x, y)`.
    pub proof fn lemma_build(width: nat, height: nat, f: spec_fn(int, int) -> C)
        ensures
            Self::build(width, height, f).wf(),
            Self::build(width, height, f).width == width,
            Self::build(width, height, f).height == height,
            forall|x: int, y: int|
                0 <= x < width && 0 <= y < height ==> #[trigger] Self::build(width, height, f).at(x, y) == f(x, y),
    {
    }

    /// Replacing one cell keeps the shape, sets that cell and touches no other.
    pub proof fn lemma_put(self, x: int, y: int, value: C)
        requires
            self.wf(),
            self.inside(x, y),
        ensures
            self.put(x, y, value).wf(),
            self.put(x, y, value).same_shape(self),
            self.put(x, y, value).at(x, y) == value,
            forall|i: int, j: int|
                self.inside(i, j) && (i != x || j != y) ==> #[trigger] self.put(x, y, value).at(i, j) == self.at(
                    i,
                    j,
                ),
    {
    }
}

} // verus!
