//! The fluid itself: density and velocity on one lattice, each with the buffer
//! of the step before, and the operations that feed and advance them.
use vstd::prelude::*;
use crate::advect::{advect, advected, lemma_advected_shape};
use crate::boundary::settled;
use crate::element::{Element, Vec2};
use crate::field::Field;
use crate::lattice::Lattice;
use crate::project::{lemma_projected_shape, project, projected};
use crate::relax::{diffuse, diffused, diffusion_norm, diffusion_weight, lemma_relaxed_shape};
use crate::scalar::{make_zero, zero, Scalar};

verus! {

/// The rectangle, in the caller's coordinates, that the lattice is laid over.
#[derive(Clone, Copy, Debug, PartialEq)]
pub struct Rect<S> {
    pub left: S,
    pub right: S,
    pub bottom: S,
    pub top: S,
}

/// Why a fluid of the asked size cannot be made.
#[derive(Clone, Copy, Debug, PartialEq, Eq)]
pub enum SizeError {
    /// The width or the height is zero.
    Empty,
    /// The number of cells does not fit the machine's address range.
    TooLarge,
}

/// The four lattices that make up the state of a fluid.
pub struct CubeState<S> {
    pub density: Lattice<S>,
    pub density_prev: Lattice<S>,
    pub velocity: Lattice<Vec2<S>>,
    pub velocity_prev: Lattice<Vec2<S>>,
}

impl<S: Scalar> CubeState<S> {
    /// All four lattices are well formed and of one shape, with at least one cell.
    pub open spec fn wf(self) -> bool {
        &&& self.density.wf()
        &&& self.density_prev.wf()
        &&& self.velocity.wf()
        &&& self.velocity_prev.wf()
        &&& self.density.width >= 1
        &&& self.density.height >= 1
        &&& self.density_prev.same_shape(self.density)
        &&& self.velocity.same_shape(self.density)
        &&& self.velocity_prev.same_shape(self.density)
    }

    /// The fluid at rest: no density and no velocity anywhere.
    pub open spec fn still(width: nat, height: nat) -> Self {
        CubeState {
            density: Lattice::uniform(width, height, zero::<S>()),
            density_prev: Lattice::uniform(width, height, zero::<S>()),
            velocity: Lattice::uniform(width, height, Vec2 { x: zero::<S>(), y: zero::<S>() }),
            velocity_prev: Lattice::uniform(width, height, Vec2 { x: zero::<S>(), y: zero::<S>() }),
        }
    }
}

/// The index of the cell that coordinate `at` falls into, along an axis of
/// `extent` cells laid over the range from `low` to `high`: the whole part of
/// `(at - low) / (high - low) * extent`, never past the last cell.
pub open spec fn cell_index<S: Scalar>(at: S, low: S, high: S, extent: int) -> int {
    let cut = at.difference(low).quotient(high.difference(low)).product(S::of_count(extent as usize)).floored().truncation() as int;
    if cut < extent - 1 {
        cut
    } else {
        extent - 1
    }
}

/// The cell of a `width` by `height` lattice laid over `rect` that holds `pos`.
pub open spec fn cell_of<S: Scalar>(pos: Vec2<S>, rect: Rect<S>, width: int, height: int) -> (int, int) {
    (cell_index(pos.x, rect.left, rect.right, width), cell_index(pos.y, rect.bottom, rect.top, height))
}

/// The place in `rect` where the cell `(x, y)` of a `width` by `height`
/// lattice begins: `low + index / extent * (high - low)` along each axis.
pub open spec fn place_of<S: Scalar>(x: int, y: int, rect: Rect<S>, width: int, height: int) -> Vec2<S> {
    Vec2 {
        x: S::of_count(x as usize).quotient(S::of_count(width as usize)).product(rect.right.difference(rect.left)).sum(
            rect.left,
        ),
        y: S::of_count(y as usize).quotient(S::of_count(height as usize)).product(rect.top.difference(rect.bottom)).sum(
            rect.bottom,
        ),
    }
}

/// The index nearest to `index` that names a cell along an axis of `extent`
/// cells.
pub open spec fn nearest(index: usize, extent: int) -> int {
    if index < extent - 1 {
        index as int
    } else {
        extent - 1
    }
}

/// Brings `index` into an axis of `extent` cells; see [`nearest`].
fn clamp_index(index: usize, extent: usize) -> (r: usize)
    requires
        extent >= 1,
    ensures
        r == nearest(index, extent as int),
        r < extent,
{
    if index < extent - 1 {
        index
    } else {
        extent - 1
    }
}

/// The cell index along one axis; see [`cell_index`].
fn locate<S: Scalar>(at: S, low: S, high: S, extent: usize) -> (r: usize)
    requires
        extent >= 1,
    ensures
        r == cell_index(at, low, high, extent as int),
        r < extent,
{
    let cut: usize = at.minus(low).over(high.minus(low)).times(S::from_count(extent)).floor().truncate();
    if cut < extent - 1 {
        cut
    } else {
        extent - 1
    }
}

/// Maps a position in `rect` to the cell of a lattice of dimensions `dim`
/// that holds it. A position outside `rect` maps to the nearest cell along
/// each axis, so the result always names a cell.
pub fn pos_fluid<S: Scalar>(pos: Vec2<S>, rect: Rect<S>, dim: (usize, usize)) -> (r: (usize, usize))
    requires
        dim.0 >= 1,
        dim.1 >= 1,
    ensures
        (r.0 as int, r.1 as int) == cell_of(pos, rect, dim.0 as int, dim.1 as int),
        r.0 < dim.0,
        r.1 < dim.1,
{
    (locate(pos.x, rect.left, rect.right, dim.0), locate(pos.y, rect.bottom, rect.top, dim.1))
}

/// Maps the cell `pos` of a lattice of dimensions `dim` to the place in `rect`
/// where that cell begins.
pub fn fluid_pos<S: Scalar>(pos: (usize, usize), rect: Rect<S>, dim: (usize, usize)) -> (r: Vec2<S>)
    ensures
        r == place_of(pos.0 as int, pos.1 as int, rect, dim.0 as int, dim.1 as int),
{
    Vec2 {
        x: S::from_count(pos.0).over(S::from_count(dim.0)).times(rect.right.minus(rect.left)).plus(rect.left),
        y: S::from_count(pos.1).over(S::from_count(dim.1)).times(rect.top.minus(rect.bottom)).plus(rect.bottom),
    }
}

/// The state after `amount` has been added to the density of the cell that
/// holds `pos`: that one cell of the density changes, nothing else does.
pub open spec fn density_added<S: Scalar>(s: CubeState<S>, pos: Vec2<S>, amount: S, rect: Rect<S>) -> CubeState<S> {
    let (x, y) = cell_of(pos, rect, s.density.width as int, s.density.height as int);
    CubeState {
        density: s.density.put(x, y, s.density.at(x, y).sum(amount)),
        density_prev: s.density_prev,
        velocity: s.velocity,
        velocity_prev: s.velocity_prev,
    }
}

/// The state after `amount` has been added to the velocity of the cell that
/// holds `pos`: that one cell of the velocity changes, nothing else does.
pub open spec fn velocity_added<S: Scalar>(s: CubeState<S>, pos: Vec2<S>, amount: Vec2<S>, rect: Rect<S>) -> CubeState<
    S,
> {
    let (x, y) = cell_of(pos, rect, s.density.width as int, s.density.height as int);
    CubeState {
        density: s.density,
        density_prev: s.density_prev,
        velocity: s.velocity.put(x, y, s.velocity.at(x, y).total(amount)),
        velocity_prev: s.velocity_prev,
    }
}

/// The state after the velocity half of a step: the velocity is diffused and
/// projected, the buffer of the step before is carried along that flow and
/// projected again. The carried field becomes the velocity, the diffused one
/// the buffer.
pub open spec fn velocity_stepped<S: Scalar>(s: CubeState<S>, viscosity: S, dt: S, sweeps: nat) -> CubeState<S> {
    let flow = projected(diffused(s.velocity, s.velocity_prev, sweeps, dt, viscosity), sweeps);
    CubeState {
        density: s.density,
        density_prev: s.density_prev,
        velocity: projected(advected(s.velocity_prev, flow, dt), sweeps),
        velocity_prev: flow,
    }
}

/// The state after the density half of a step: the density is diffused and
/// then carried along the velocity. The carried field becomes the density,
/// the diffused one the buffer.
pub open spec fn density_stepped<S: Scalar>(s: CubeState<S>, diffusion: S, dt: S, sweeps: nat) -> CubeState<S> {
    let spread = diffused(s.density, s.density_prev, sweeps, dt, diffusion);
    CubeState {
        density: advected(spread, s.velocity, dt),
        density_prev: spread,
        velocity: s.velocity,
        velocity_prev: s.velocity_prev,
    }
}

/// The state after one whole step: first the velocity, then the density,
/// which is carried by the velocity just made.
pub open spec fn stepped<S: Scalar>(s: CubeState<S>, diffusion: S, viscosity: S, dt: S, sweeps: nat) -> CubeState<S> {
    density_stepped(velocity_stepped(s, viscosity, dt, sweeps), diffusion, dt, sweeps)
}

/// The velocity half of a step keeps the state well formed and leaves both
/// velocity lattices with settled edges.
pub proof fn lemma_velocity_stepped<S: Scalar>(s: CubeState<S>, viscosity: S, dt: S, sweeps: nat)
    requires
        s.wf(),
    ensures
        velocity_stepped(s, viscosity, dt, sweeps).wf(),
        velocity_stepped(s, viscosity, dt, sweeps).density.same_shape(s.density),
        settled(velocity_stepped(s, viscosity, dt, sweeps).velocity),
        settled(velocity_stepped(s, viscosity, dt, sweeps).velocity_prev),
{
    let weight = diffusion_weight(dt, viscosity, s.velocity.width, s.velocity.height);
    lemma_relaxed_shape(s.velocity, s.velocity_prev, weight, diffusion_norm(weight), sweeps);
    let spread = diffused(s.velocity, s.velocity_prev, sweeps, dt, viscosity);
    lemma_projected_shape(spread, sweeps);
    let flow = projected(spread, sweeps);
    lemma_advected_shape(s.velocity_prev, flow, dt);
    lemma_projected_shape(advected(s.velocity_prev, flow, dt), sweeps);
}

/// The density half of a step keeps the state well formed and leaves the
/// density with settled edges.
pub proof fn lemma_density_stepped<S: Scalar>(s: CubeState<S>, diffusion: S, dt: S, sweeps: nat)
    requires
        s.wf(),
    ensures
        density_stepped(s, diffusion, dt, sweeps).wf(),
        density_stepped(s, diffusion, dt, sweeps).density.same_shape(s.density),
        settled(density_stepped(s, diffusion, dt, sweeps).density),
{
    let weight = diffusion_weight(dt, diffusion, s.density.width, s.density.height);
    lemma_relaxed_shape(s.density, s.density_prev, weight, diffusion_norm(weight), sweeps);
    let spread = diffused(s.density, s.density_prev, sweeps, dt, diffusion);
    lemma_advected_shape(spread, s.velocity, dt);
}

/// A fluid on a fixed lattice. Every fluid that [`FluidCube::new`] hands out
/// has a well-formed state, and every operation keeps it so.
pub struct FluidCube<S> {
    density: Field<S>,
    density_prev: Field<S>,
    velocity: Field<Vec2<S>>,
    velocity_prev: Field<Vec2<S>>,
}

impl<S: Scalar> View for FluidCube<S> {
    type V = CubeState<S>;

    closed spec fn view(&self) -> CubeState<S> {
        CubeState {
            density: self.density@,
            density_prev: self.density_prev@,
            velocity: self.velocity@,
            velocity_prev: self.velocity_prev@,
        }
    }
}

impl<S: Scalar> FluidCube<S> {
    /// A fluid at rest on a lattice of `size.0` by `size.1` cells. A size
    /// with a zero in it is refused, and so is one whose cells cannot be
    /// counted.
    pub fn new(size: (usize, usize)) -> (r: Result<Self, SizeError>)
        ensures
            match r {
                Ok(cube) => {
                    &&& size.0 >= 1
                    &&& size.1 >= 1
                    &&& size.0 * size.1 <= usize::MAX
                    &&& cube@ == CubeState::<S>::still(size.0 as nat, size.1 as nat)
                    &&& cube@.wf()
                },
                Err(SizeError::Empty) => size.0 == 0 || size.1 == 0,
                Err(SizeError::TooLarge) => size.0 >= 1 && size.1 >= 1 && size.0 * size.1 > usize::MAX,
            },
    {
        if size.0 == 0 || size.1 == 0 {
            return Err(SizeError::Empty);
        }
        match size.0.checked_mul(size.1) {
            None => Err(SizeError::TooLarge),
            Some(_) => {
                let nought = make_zero::<S>();
                let still = Vec2 { x: nought, y: nought };
                let cube = FluidCube {
                    density: Field::filled(size.0, size.1, nought),
                    density_prev: Field::filled(size.0, size.1, nought),
                    velocity: Field::filled(size.0, size.1, still),
                    velocity_prev: Field::filled(size.0, size.1, still),
                };
                proof {
                    Lattice::lemma_build(size.0 as nat, size.1 as nat, |x: int, y: int| nought);
                    Lattice::lemma_build(size.0 as nat, size.1 as nat, |x: int, y: int| still);
                }
                Ok(cube)
            },
        }
    }

    /// The number of lines of the lattice.
    pub fn width(&self) -> (r: usize)
        requires
            self@.wf(),
        ensures
            r == self@.density.width,
            r >= 1,
    {
        self.density.width()
    }

    /// The number of cells in a line of the lattice.
    pub fn height(&self) -> (r: usize)
        requires
            self@.wf(),
        ensures
            r == self@.density.height,
            r >= 1,
    {
        self.density.height()
    }

    /// The density of the cell at `(x, y)`. An index past the last cell
    /// along an axis reads the last cell.
    pub fn density_at(&self, x: usize, y: usize) -> (r: S)
        requires
            self@.wf(),
        ensures
            r == self@.density.at(nearest(x, self@.density.width as int), nearest(y, self@.density.height as int)),
    {
        let cx = clamp_index(x, self.density.width());
        let cy = clamp_index(y, self.density.height());
        self.density.get(cx, cy)
    }

    /// The velocity of the cell at `(x, y)`. An index past the last cell
    /// along an axis reads the last cell.
    pub fn velocity_at(&self, x: usize, y: usize) -> (r: Vec2<S>)
        requires
            self@.wf(),
        ensures
            r == self@.velocity.at(nearest(x, self@.density.width as int), nearest(y, self@.density.height as int)),
    {
        let cx = clamp_index(x, self.velocity.width());
        let cy = clamp_index(y, self.velocity.height());
        self.velocity.get(cx, cy)
    }

    /// The densities of line `x`, from `(x, 0)` upwards, for drawing in bulk.
    /// An index past the last line reads the last line.
    pub fn density_line(&self, x: usize) -> (r: Vec<S>)
        requires
            self@.wf(),
        ensures
            r@ == self@.density.lines[nearest(x, self@.density.width as int)],
    {
        self.density.line(clamp_index(x, self.density.width()))
    }

    /// The velocities of line `x`, from `(x, 0)` upwards, for drawing in bulk.
    /// An index past the last line reads the last line.
    pub fn velocity_line(&self, x: usize) -> (r: Vec<Vec2<S>>)
        requires
            self@.wf(),
        ensures
            r@ == self@.velocity.lines[nearest(x, self@.density.width as int)],
    {
        self.velocity.line(clamp_index(x, self.velocity.width()))
    }

    /// Adds `amount` to the density of the cell that holds `pos`, where the
    /// lattice is laid over `rect`. No other cell and no other field changes.
    pub fn add_density(&mut self, pos: Vec2<S>, amount: S, rect: Rect<S>)
        requires
            old(self)@.wf(),
        ensures
            final(self)@ == density_added(old(self)@, pos, amount, rect),
            final(self)@.wf(),
    {
        proof {
            self.density.lemma_view_wf();
            self.density_prev.lemma_view_wf();
            self.velocity.lemma_view_wf();
            self.velocity_prev.lemma_view_wf();
        }
        let v = pos_fluid(pos, rect, (self.density.width(), self.density.height()));
        let sum = self.density.get(v.0, v.1).plus(amount);
        self.density.set(v.0, v.1, sum);
    }

    /// Adds `amount` to the velocity of the cell that holds `pos`, where the
    /// lattice is laid over `rect`. No other cell and no other field changes.
    pub fn add_velocity(&mut self, pos: Vec2<S>, amount: Vec2<S>, rect: Rect<S>)
        requires
            old(self)@.wf(),
        ensures
            final(self)@ == velocity_added(old(self)@, pos, amount, rect),
            final(self)@.wf(),
    {
        proof {
            self.density.lemma_view_wf();
            self.density_prev.lemma_view_wf();
            self.velocity.lemma_view_wf();
            self.velocity_prev.lemma_view_wf();
        }
        let v = pos_fluid(pos, rect, (self.velocity.width(), self.velocity.height()));
        let sum = self.velocity.get(v.0, v.1).accumulate(amount);
        self.velocity.set(v.0, v.1, sum);
    }

    /// The density half of a step; see [`density_stepped`].
    fn dens_step(&mut self, diff: S, dt: S, iter: usize)
        requires
            old(self)@.wf(),
        ensures
            final(self)@ == density_stepped(old(self)@, diff, dt, iter as nat),
            final(self)@.wf(),
            settled(final(self)@.density),
    {
        proof {
            self.density.lemma_view_wf();
            self.density_prev.lemma_view_wf();
            self.velocity.lemma_view_wf();
            self.velocity_prev.lemma_view_wf();
            lemma_density_stepped(self@, diff, dt, iter as nat);
        }
        diffuse(&mut self.density, &self.density_prev, iter, dt, diff);
        let new_density = advect(&self.density, &self.velocity, dt);
        std::mem::swap(&mut self.density_prev, &mut self.density);
        self.density = new_density;
    }

    /// The velocity half of a step; see [`velocity_stepped`].
    fn vel_step(&mut self, visc: S, dt: S, iter: usize)
        requires
            old(self)@.wf(),
        ensures
            final(self)@ == velocity_stepped(old(self)@, visc, dt, iter as nat),
            final(self)@.wf(),
            settled(final(self)@.velocity),
    {
        proof {
            self.density.lemma_view_wf();
            self.density_prev.lemma_view_wf();
            self.velocity.lemma_view_wf();
            self.velocity_prev.lemma_view_wf();
            lemma_velocity_stepped(self@, visc, dt, iter as nat);
        }
        diffuse(&mut self.velocity, &self.velocity_prev, iter, dt, visc);
        project(&mut self.velocity, iter);
        let mut new_velocity = advect(&self.velocity_prev, &self.velocity, dt);
        project(&mut new_velocity, iter);
        std::mem::swap(&mut self.velocity_prev, &mut self.velocity);
        self.velocity = new_velocity;
    }

    /// Advances the fluid by one tick of length `dt`. The velocity goes
    /// first: it is diffused with `viscosity` and projected; the velocity
    /// buffer of the step before is carried along that flow and projected in
    /// its turn, and becomes the velocity. The density follows: it is
    /// diffused with `diffusion_rate` and carried along the new velocity.
    /// Every relaxation runs `iterations` sweeps. Afterwards the edges of
    /// both fields obey the boundary rule.
    pub fn step(&mut self, diffusion_rate: S, viscosity: S, dt: S, iterations: usize)
        requires
            old(self)@.wf(),
        ensures
            final(self)@ == stepped(old(self)@, diffusion_rate, viscosity, dt, iterations as nat),
            final(self)@.wf(),
            settled(final(self)@.density),
            settled(final(self)@.velocity),
    {
        self.vel_step(viscosity, dt, iterations);
        self.dens_step(diffusion_rate, dt, iterations);
    }
}

} // verus!
