//! What holds of the fluid whatever the numbers are.
//!
//! Each statement here is proved from the definitions of the operations
//! alone, for every implementation of the arithmetic.
use vstd::prelude::*;
use crate::advect::{advected, lemma_advected_without_interior};
use crate::boundary::{has_interior, patched_value, settled};
use crate::cube::{
    cell_of, density_added, lemma_density_stepped, lemma_velocity_stepped, stepped, velocity_added, velocity_stepped,
    CubeState, Rect,
};
use crate::element::{Element, Vec2};
use crate::lattice::Lattice;
use crate::project::{corrected, lemma_projected_without_interior, projected};
use crate::relax::{diffused, diffusion_norm, diffusion_weight, lemma_relaxed_without_interior, relaxed};
use crate::scalar::{zero, Scalar};

verus! {

/// After a step from any well-formed state, with any parameters, every edge
/// cell of the density and of the velocity holds what the boundary rule
/// derives from the interior as it then is.
pub proof fn lemma_step_settles_edges<S: Scalar>(s: CubeState<S>, diffusion: S, viscosity: S, dt: S, sweeps: nat)
    requires
        s.wf(),
    ensures
        stepped(s, diffusion, viscosity, dt, sweeps).wf(),
        settled(stepped(s, diffusion, viscosity, dt, sweeps).density),
        settled(stepped(s, diffusion, viscosity, dt, sweeps).velocity),
        forall|x: int, y: int|
            s.density.inside(x, y) ==> #[trigger] stepped(s, diffusion, viscosity, dt, sweeps).density.at(x, y)
                == patched_value(stepped(s, diffusion, viscosity, dt, sweeps).density, x, y),
        forall|x: int, y: int|
            s.density.inside(x, y) ==> #[trigger] stepped(s, diffusion, viscosity, dt, sweeps).velocity.at(x, y)
                == patched_value(stepped(s, diffusion, viscosity, dt, sweeps).velocity, x, y),
{
    lemma_velocity_stepped(s, viscosity, dt, sweeps);
    lemma_density_stepped(velocity_stepped(s, viscosity, dt, sweeps), diffusion, dt, sweeps);
}

/// A step never changes the dimensions of the lattice.
pub proof fn lemma_step_keeps_shape<S: Scalar>(s: CubeState<S>, diffusion: S, viscosity: S, dt: S, sweeps: nat)
    requires
        s.wf(),
    ensures
        stepped(s, diffusion, viscosity, dt, sweeps).density.same_shape(s.density),
{
    lemma_velocity_stepped(s, viscosity, dt, sweeps);
    lemma_density_stepped(velocity_stepped(s, viscosity, dt, sweeps), diffusion, dt, sweeps);
}

/// A position always maps to a cell of the lattice, wherever it lies.
pub proof fn lemma_cell_of_inside<S: Scalar>(pos: Vec2<S>, rect: Rect<S>, width: int, height: int)
    requires
        width >= 1,
        height >= 1,
    ensures
        0 <= cell_of(pos, rect, width, height).0 < width,
        0 <= cell_of(pos, rect, width, height).1 < height,
{
}

/// Adding density touches the one cell that the position maps to: every
/// other cell of the density, the velocity and both buffers stay as they
/// were.
pub proof fn lemma_density_injection_local<S: Scalar>(s: CubeState<S>, pos: Vec2<S>, amount: S, rect: Rect<S>)
    requires
        s.wf(),
    ensures
        ({
            let after = density_added(s, pos, amount, rect);
            let (x, y) = cell_of(pos, rect, s.density.width as int, s.density.height as int);
            &&& after.wf()
            &&& s.density.inside(x, y)
            &&& after.density.at(x, y) == s.density.at(x, y).sum(amount)
            &&& forall|i: int, j: int|
                s.density.inside(i, j) && (i != x || j != y) ==> #[trigger] after.density.at(i, j) == s.density.at(
                    i,
                    j,
                )
            &&& after.density_prev == s.density_prev
            &&& after.velocity == s.velocity
            &&& after.velocity_prev == s.velocity_prev
        }),
{
    let (x, y) = cell_of(pos, rect, s.density.width as int, s.density.height as int);
    s.density.lemma_put(x, y, s.density.at(x, y).sum(amount));
}

/// Adding velocity touches the one cell that the position maps to: every
/// other cell of the velocity, the density and both buffers stay as they
/// were.
pub proof fn lemma_velocity_injection_local<S: Scalar>(
    s: CubeState<S>,
    pos: Vec2<S>,
    amount: Vec2<S>,
    rect: Rect<S>,
)
    requires
        s.wf(),
    ensures
        ({
            let after = velocity_added(s, pos, amount, rect);
            let (x, y) = cell_of(pos, rect, s.density.width as int, s.density.height as int);
            &&& after.wf()
            &&& s.velocity.inside(x, y)
            &&& after.velocity.at(x, y) == s.velocity.at(x, y).total(amount)
            &&& forall|i: int, j: int|
                s.velocity.inside(i, j) && (i != x || j != y) ==> #[trigger] after.velocity.at(i, j)
                    == s.velocity.at(i, j)
            &&& after.density == s.density
            &&& after.density_prev == s.density_prev
            &&& after.velocity_prev == s.velocity_prev
        }),
{
    let (x, y) = cell_of(pos, rect, s.density.width as int, s.density.height as int);
    s.velocity.lemma_put(x, y, s.velocity.at(x, y).total(amount));
}

/// On a lattice too small to have an interior a step moves nothing: the
/// density stays as it is, and the two velocity buffers change places.
pub proof fn lemma_step_without_interior<S: Scalar>(s: CubeState<S>, diffusion: S, viscosity: S, dt: S, sweeps: nat)
    requires
        s.wf(),
        !has_interior(s.density),
    ensures
        stepped(s, diffusion, viscosity, dt, sweeps).density == s.density,
        stepped(s, diffusion, viscosity, dt, sweeps).density_prev == s.density,
        stepped(s, diffusion, viscosity, dt, sweeps).velocity == s.velocity_prev,
        stepped(s, diffusion, viscosity, dt, sweeps).velocity_prev == s.velocity,
{
    let kv = diffusion_weight(dt, viscosity, s.velocity.width, s.velocity.height);
    lemma_relaxed_without_interior(s.velocity, s.velocity_prev, kv, diffusion_norm(kv), sweeps);
    lemma_projected_without_interior(s.velocity, sweeps);
    lemma_advected_without_interior(s.velocity_prev, s.velocity, dt);
    lemma_projected_without_interior(s.velocity_prev, sweeps);
    let kd = diffusion_weight(dt, diffusion, s.density.width, s.density.height);
    lemma_relaxed_without_interior(s.density, s.density_prev, kd, diffusion_norm(kd), sweeps);
    lemma_advected_without_interior(s.density, s.velocity_prev, dt);
}

/// With no sweeps, relaxation and diffusion change nothing at all.
pub proof fn lemma_no_sweeps_no_change<C: Element>(
    g: Lattice<C>,
    source: Lattice<C>,
    weight: C::Number,
    norm: C::Number,
    dt: C::Number,
    rate: C::Number,
)
    ensures
        relaxed(g, source, weight, norm, 0) == g,
        diffused(g, source, 0, dt, rate) == g,
{
}

/// With no sweeps the pressure stays zero, so projection subtracts the
/// gradient of a field that is zero everywhere.
pub proof fn lemma_no_sweeps_zero_pressure<S: Scalar>(u: Lattice<Vec2<S>>)
    ensures
        projected(u, 0) == crate::boundary::patched(corrected(u, Lattice::uniform(u.width, u.height, zero::<S>()))),
{
}

/// With no sweeps a step does no smoothing: the density that comes out is
/// the density that went in, carried along the new velocity, and the buffer
/// holds the density that went in.
pub proof fn lemma_step_without_sweeps<S: Scalar>(s: CubeState<S>, diffusion: S, viscosity: S, dt: S)
    ensures
        stepped(s, diffusion, viscosity, dt, 0).density == advected(
            s.density,
            stepped(s, diffusion, viscosity, dt, 0).velocity,
            dt,
        ),
        stepped(s, diffusion, viscosity, dt, 0).density_prev == s.density,
{
}

} // verus!
