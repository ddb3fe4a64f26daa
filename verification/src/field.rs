//! The container that holds one quantity of the fluid, cell by cell.
use vstd::prelude::*;
use crate::lattice::Lattice;

verus! {

/// A fixed-size rectangle of cells, stored line after line.
pub struct Field<C> {
    width: usize,
    height: usize,
    cells: Vec<C>,
}

/// The offset of a cell of a `width` by `height` rectangle lies in the
/// storage, and the cell can be read back from it.
proof fn lemma_offset(width: int, height: int, x: int, y: int)
    requires
        0 <= x < width,
        0 <= y < height,
    ensures
        0 <= x * height <= x * height + y < width * height,
        (x * height + y) / height == x,
        (x * height + y) % height == y,
{
    assert(0 <= x * height <= x * height + y < width * height) by (nonlinear_arith)
        requires
            0 <= x < width,
            0 <= y < height,
    ;
    vstd::arithmetic::div_mod::lemma_fundamental_div_mod_converse(x * height + y, height, x, y);
}

impl<C> View for Field<C> {
    type V = Lattice<C>;

    closed spec fn view(&self) -> Lattice<C> {
        Lattice::build(
            self.width as nat,
            self.height as nat,
            |x: int, y: int| self.cells@[x * (self.height as int) + y],
        )
    }
}

impl<C> Field<C> {
    #[verifier::type_invariant]
    spec fn filled_out(self) -> bool {
        self.cells@.len() == self.width * self.height
    }
}

impl<C: Copy> Field<C> {
    /// The picture of a field is always a well-formed lattice.
    pub proof fn lemma_view_wf(&self)
        ensures
            self@.wf(),
    {
    }

    /// A field of the given dimensions with `value` in every cell.
    pub fn filled(width: usize, height: usize, value: C) -> (r: Self)
        requires
            width * height <= usize::MAX,
        ensures
            r@ == Lattice::uniform(width as nat, height as nat, value),
            r@.wf(),
    {
        let count: usize = width * height;
        let mut cells: Vec<C> = Vec::new();
        let mut i: usize = 0;
        while i < count
            invariant
                i <= count,
                cells@.len() == i,
                forall|k: int| 0 <= k < i ==> cells@[k] == value,
            decreases count - i,
        {
            cells.push(value);
            i += 1;
        }
        let r = Field { width, height, cells };
        proof {
            let target = Lattice::uniform(width as nat, height as nat, value);
            assert forall|x: int, y: int| r@.inside(x, y) implies r@.at(x, y) == target.at(x, y) by {
                lemma_offset(width as int, height as int, x, y);
            }
            r@.lemma_equal(target);
        }
        r
    }

    /// A field of the same dimensions as this one, with `value` in every cell.
    pub fn shaped_like<D: Copy>(&self, value: D) -> (r: Field<D>)
        ensures
            r@ == Lattice::uniform(self@.width, self@.height, value),
            r@.wf(),
            r@.same_shape(self@),
    {
        proof {
            use_type_invariant(self);
            assert(self.cells.len() == self.cells@.len());
        }
        Field::filled(self.width, self.height, value)
    }

    /// A second field with the same cells.
    pub fn duplicate(&self) -> (r: Self)
        ensures
            r@ == self@,
    {
        proof {
            use_type_invariant(self);
        }
        let count: usize = self.cells.len();
        let mut cells: Vec<C> = Vec::new();
        let mut i: usize = 0;
        while i < count
            invariant
                i <= count == self.cells@.len(),
                cells@.len() == i,
                forall|k: int| 0 <= k < i ==> cells@[k] == self.cells@[k],
            decreases count - i,
        {
            cells.push(self.cells[i]);
            i += 1;
        }
        assert(cells@ =~= self.cells@);
        Field { width: self.width, height: self.height, cells }
    }

    /// The number of lines.
    pub fn width(&self) -> (r: usize)
        ensures
            r == self@.width,
    {
        self.width
    }

    /// The number of cells in a line.
    pub fn height(&self) -> (r: usize)
        ensures
            r == self@.height,
    {
        self.height
    }

    /// The value of the cell at `(x, y)`.
    pub fn get(&self, x: usize, y: usize) -> (r: C)
        requires
            self@.inside(x as int, y as int),
        ensures
            r == self@.at(x as int, y as int),
    {
        proof {
            use_type_invariant(self);
            lemma_offset(self.width as int, self.height as int, x as int, y as int);
            assert(self.cells.len() == self.cells@.len());
        }
        self.cells[x * self.height + y]
    }

    /// The cells of line `x`, from `(x, 0)` upwards.
    pub fn line(&self, x: usize) -> (r: Vec<C>)
        requires
            x < self@.width,
        ensures
            r@ == self@.lines[x as int],
    {
        let mut r: Vec<C> = Vec::new();
        let mut y: usize = 0;
        while y < self.height
            invariant
                x < self@.width,
                y <= self.height == self@.height,
                r@.len() == y,
                forall|j: int| 0 <= j < y ==> r@[j] == self@.at(x as int, j),
            decreases self.height - y,
        {
            r.push(self.get(x, y));
            y += 1;
        }
        assert(r@ =~= self@.lines[x as int]);
        r
    }

    /// Replaces the value of the cell at `(x, y)`.
    pub fn set(&mut self, x: usize, y: usize, value: C)
        requires
            old(self)@.inside(x as int, y as int),
        ensures
            final(self)@ == old(self)@.put(x as int, y as int, value),
            final(self)@.wf(),
            final(self)@.same_shape(old(self)@),
            final(self)@.at(x as int, y as int) == value,
            forall|i: int, j: int|
                old(self)@.inside(i, j) && (i != x || j != y) ==> #[trigger] final(self)@.at(i, j) == old(self)@.at(
                    i,
                    j,
                ),
    {
        proof {
            use_type_invariant(&*self);
            lemma_offset(self.width as int, self.height as int, x as int, y as int);
            assert(self.cells.len() == self.cells@.len());
        }
        let offset: usize = x * self.height + y;
        self.cells[offset] = value;
        proof {
            let before = old(self)@;
            let target = before.put(x as int, y as int, value);
            assert forall|i: int, j: int| self@.inside(i, j) implies self@.at(i, j) == target.at(i, j) by {
                lemma_offset(self.width as int, self.height as int, i, j);
            }
            self@.lemma_equal(target);
            before.lemma_put(x as int, y as int, value);
        }
    }
}

} // verus!
