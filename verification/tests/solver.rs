use fluid::{
    advect, diffuse, divergence, fluid_pos, neighbours, pos_fluid, project, relax, set_boundries, Axis, Element,
    Field, FluidCube, Rect, Scalar, SizeError, Vec2,
};

/// Single-precision numbers as the arithmetic of the solver.
#[derive(Clone, Copy, Debug, PartialEq)]
struct Real(f32);

impl Scalar for Real {
    fn of_count(n: usize) -> Self {
        Real(n as f32)
    }

    fn sum(self, rhs: Self) -> Self {
        Real(self.0 + rhs.0)
    }

    fn difference(self, rhs: Self) -> Self {
        Real(self.0 - rhs.0)
    }

    fn product(self, rhs: Self) -> Self {
        Real(self.0 * rhs.0)
    }

    fn quotient(self, rhs: Self) -> Self {
        Real(self.0 / rhs.0)
    }

    fn negation(self) -> Self {
        Real(-self.0)
    }

    fn floored(self) -> Self {
        Real(self.0.floor())
    }

    fn clamped(self, low: Self, high: Self) -> Self {
        Real(self.0.max(low.0).min(high.0))
    }

    fn truncation(self) -> usize {
        self.0 as usize
    }

    fn from_count(n: usize) -> Self {
        Self::of_count(n)
    }

    fn plus(self, rhs: Self) -> Self {
        self.sum(rhs)
    }

    fn minus(self, rhs: Self) -> Self {
        self.difference(rhs)
    }

    fn times(self, rhs: Self) -> Self {
        self.product(rhs)
    }

    fn over(self, rhs: Self) -> Self {
        self.quotient(rhs)
    }

    fn negate(self) -> Self {
        self.negation()
    }

    fn floor(self) -> Self {
        self.floored()
    }

    fn clamp(self, low: Self, high: Self) -> Self {
        self.clamped(low, high)
    }

    fn truncate(self) -> usize {
        self.truncation()
    }
}

fn pair(x: f32, y: f32) -> Vec2<Real> {
    Vec2 { x: Real(x), y: Real(y) }
}

fn unit_rect(side: f32) -> Rect<Real> {
    Rect { left: Real(0.0), right: Real(side), bottom: Real(0.0), top: Real(side) }
}

fn scalar_field(width: usize, height: usize, f: fn(usize, usize) -> f32) -> Field<Real> {
    let mut field = Field::filled(width, height, Real(0.0));
    for x in 0..width {
        for y in 0..height {
            field.set(x, y, Real(f(x, y)));
        }
    }
    field
}

fn vector_field(width: usize, height: usize, f: fn(usize, usize) -> (f32, f32)) -> Field<Vec2<Real>> {
    let mut field = Field::filled(width, height, pair(0.0, 0.0));
    for x in 0..width {
        for y in 0..height {
            let (a, b) = f(x, y);
            field.set(x, y, pair(a, b));
        }
    }
    field
}

fn cube(width: usize, height: usize) -> FluidCube<Real> {
    match FluidCube::new((width, height)) {
        Ok(c) => c,
        Err(e) => panic!("no fluid of {} by {}: {:?}", width, height, e),
    }
}

fn total_density(c: &FluidCube<Real>) -> f32 {
    let mut sum = 0.0;
    for x in 0..c.width() {
        for y in 0..c.height() {
            sum += c.density_at(x, y).0;
        }
    }
    sum
}

fn largest_divergence(v: &Field<Vec2<Real>>) -> f32 {
    let d = divergence(v);
    let mut most: f32 = 0.0;
    for x in 1..v.width() - 1 {
        for y in 1..v.height() - 1 {
            most = most.max(d.get(x, y).0.abs());
        }
    }
    most
}

#[test]
fn new_refuses_zero_width() {
    assert!(matches!(FluidCube::<Real>::new((0, 5)), Err(SizeError::Empty)));
}

#[test]
fn new_refuses_zero_height() {
    assert!(matches!(FluidCube::<Real>::new((5, 0)), Err(SizeError::Empty)));
}

#[test]
fn new_refuses_both_zero() {
    assert!(matches!(FluidCube::<Real>::new((0, 0)), Err(SizeError::Empty)));
}

#[test]
fn new_refuses_uncountable_size() {
    assert!(matches!(FluidCube::<Real>::new((usize::MAX, 2)), Err(SizeError::TooLarge)));
}

#[test]
fn new_fluid_is_at_rest() {
    let c = cube(3, 5);
    assert_eq!(c.width(), 3);
    assert_eq!(c.height(), 5);
    for x in 0..3 {
        for y in 0..5 {
            assert_eq!(c.density_at(x, y), Real(0.0));
            assert_eq!(c.velocity_at(x, y), pair(0.0, 0.0));
        }
    }
}

#[test]
fn single_cell_fluid_steps() {
    let mut c = cube(1, 1);
    c.add_density(pair(0.5, 0.5), Real(2.0), unit_rect(1.0));
    c.step(Real(0.1), Real(0.1), Real(1.0), 3);
    assert_eq!(c.density_at(0, 0), Real(2.0));
    assert_eq!(c.velocity_at(0, 0), pair(0.0, 0.0));
}

#[test]
fn step_without_interior_swaps_the_velocity_buffers() {
    let mut c = cube(2, 2);
    let rect = unit_rect(2.0);
    c.add_density(pair(1.5, 0.5), Real(3.0), rect);
    c.add_velocity(pair(0.5, 1.5), pair(1.0, 2.0), rect);
    c.step(Real(0.2), Real(0.2), Real(1.0), 5);
    assert_eq!(c.density_at(1, 0), Real(3.0));
    assert_eq!(c.density_at(0, 0), Real(0.0));
    assert_eq!(c.velocity_at(0, 1), pair(0.0, 0.0));
    c.step(Real(0.2), Real(0.2), Real(1.0), 5);
    assert_eq!(c.density_at(1, 0), Real(3.0));
    assert_eq!(c.velocity_at(0, 1), pair(1.0, 2.0));
}

#[test]
fn neighbours_are_the_four_adjacent_cells() {
    assert_eq!(neighbours((1, 1)), vec![(0, 1), (2, 1), (1, 0), (1, 2)]);
    assert_eq!(neighbours((7, 3)), vec![(6, 3), (8, 3), (7, 2), (7, 4)]);
}

#[test]
fn pos_fluid_floors_to_the_cell() {
    let rect = unit_rect(10.0);
    assert_eq!(pos_fluid(pair(5.5, 5.5), rect, (10, 10)), (5, 5));
    assert_eq!(pos_fluid(pair(0.0, 9.99), rect, (10, 10)), (0, 9));
    assert_eq!(pos_fluid(pair(2.5, 7.5), rect, (20, 4)), (5, 3));
}

#[test]
fn pos_fluid_scales_from_a_shifted_rect() {
    let rect = Rect { left: Real(-100.0), right: Real(100.0), bottom: Real(-50.0), top: Real(50.0) };
    assert_eq!(pos_fluid(pair(0.0, 0.0), rect, (8, 4)), (4, 2));
    assert_eq!(pos_fluid(pair(-100.0, -50.0), rect, (8, 4)), (0, 0));
    assert_eq!(pos_fluid(pair(99.0, 49.0), rect, (8, 4)), (7, 3));
}

#[test]
fn pos_fluid_clamps_positions_outside_the_rect() {
    let rect = unit_rect(10.0);
    assert_eq!(pos_fluid(pair(-3.0, 25.0), rect, (10, 10)), (0, 9));
    assert_eq!(pos_fluid(pair(10.0, 10.0), rect, (10, 10)), (9, 9));
    assert_eq!(pos_fluid(pair(1.0e30, -1.0e30), rect, (10, 10)), (9, 0));
}

#[test]
fn pos_fluid_survives_undefined_positions() {
    let rect = unit_rect(10.0);
    assert_eq!(pos_fluid(pair(f32::NAN, f32::INFINITY), rect, (10, 10)), (0, 9));
    let flat = Rect { left: Real(1.0), right: Real(1.0), bottom: Real(0.0), top: Real(10.0) };
    let cell = pos_fluid(pair(1.0, 5.0), flat, (10, 10));
    assert_eq!(cell, (0, 5));
}

#[test]
fn fluid_pos_gives_the_start_of_the_cell() {
    let rect = Rect { left: Real(-100.0), right: Real(100.0), bottom: Real(-50.0), top: Real(50.0) };
    assert_eq!(fluid_pos((4, 2), rect, (8, 4)), pair(0.0, 0.0));
    assert_eq!(fluid_pos((0, 0), rect, (8, 4)), pair(-100.0, -50.0));
    assert_eq!(fluid_pos((2, 1), rect, (8, 4)), pair(-50.0, -25.0));
}

#[test]
fn add_density_changes_exactly_one_cell() {
    let mut c = cube(10, 10);
    c.add_density(pair(5.5, 5.5), Real(1.0), unit_rect(10.0));
    for x in 0..10 {
        for y in 0..10 {
            let expected = if (x, y) == (5, 5) { 1.0 } else { 0.0 };
            assert_eq!(c.density_at(x, y), Real(expected));
            assert_eq!(c.velocity_at(x, y), pair(0.0, 0.0));
        }
    }
}

#[test]
fn add_density_accumulates() {
    let mut c = cube(4, 4);
    let rect = unit_rect(4.0);
    c.add_density(pair(1.5, 2.5), Real(0.25), rect);
    c.add_density(pair(1.25, 2.75), Real(0.5), rect);
    assert_eq!(c.density_at(1, 2), Real(0.75));
}

#[test]
fn add_velocity_changes_exactly_one_cell() {
    let mut c = cube(6, 4);
    let rect = Rect { left: Real(0.0), right: Real(6.0), bottom: Real(0.0), top: Real(4.0) };
    c.add_velocity(pair(3.5, 1.5), pair(1.0, -2.0), rect);
    c.add_velocity(pair(3.5, 1.5), pair(0.5, 0.5), rect);
    for x in 0..6 {
        for y in 0..4 {
            let expected = if (x, y) == (3, 1) { pair(1.5, -1.5) } else { pair(0.0, 0.0) };
            assert_eq!(c.velocity_at(x, y), expected);
            assert_eq!(c.density_at(x, y), Real(0.0));
        }
    }
}

#[test]
fn accessors_read_the_last_cell_past_the_end() {
    let mut c = cube(3, 3);
    c.add_density(pair(2.5, 2.5), Real(7.0), unit_rect(3.0));
    assert_eq!(c.density_at(2, 2), Real(7.0));
    assert_eq!(c.density_at(9, 2), Real(7.0));
    assert_eq!(c.density_at(usize::MAX, usize::MAX), Real(7.0));
    assert_eq!(c.velocity_at(40, 40), pair(0.0, 0.0));
}

#[test]
fn lines_are_read_whole() {
    let mut c = cube(3, 4);
    let rect = Rect { left: Real(0.0), right: Real(3.0), bottom: Real(0.0), top: Real(4.0) };
    c.add_density(pair(1.5, 2.5), Real(7.0), rect);
    c.add_velocity(pair(2.5, 0.5), pair(1.0, -1.0), rect);
    assert_eq!(c.density_line(1), vec![Real(0.0), Real(0.0), Real(7.0), Real(0.0)]);
    assert_eq!(c.density_line(0), vec![Real(0.0); 4]);
    assert_eq!(c.velocity_line(2), vec![pair(1.0, -1.0), pair(0.0, 0.0), pair(0.0, 0.0), pair(0.0, 0.0)]);
    assert_eq!(c.velocity_line(77), c.velocity_line(2));
}

#[test]
fn field_keeps_what_is_set() {
    let mut f = Field::filled(3, 2, Real(1.0));
    assert_eq!(f.width(), 3);
    assert_eq!(f.height(), 2);
    f.set(2, 1, Real(5.0));
    f.set(0, 1, Real(6.0));
    let copy = f.duplicate();
    f.set(2, 1, Real(9.0));
    assert_eq!(copy.line(0), vec![Real(1.0), Real(6.0)]);
    assert_eq!(copy.line(1), vec![Real(1.0), Real(1.0)]);
    assert_eq!(copy.line(2), vec![Real(1.0), Real(5.0)]);
    assert_eq!(f.get(2, 1), Real(9.0));
    let blank = f.shaped_like(pair(0.0, 1.0));
    assert_eq!(blank.width(), 3);
    assert_eq!(blank.line(2), vec![pair(0.0, 1.0), pair(0.0, 1.0)]);
}

#[test]
fn element_operations_on_pairs() {
    assert_eq!(<Vec2<Real> as Element>::zero(), pair(0.0, 0.0));
    assert_eq!(pair(1.0, 2.0).accumulate(pair(0.5, -4.0)), pair(1.5, -2.0));
    assert_eq!(pair(1.0, -2.0).scale(Real(0.5)), pair(0.5, -1.0));
    assert_eq!(pair(1.0, -2.0).reflect(Axis::X), pair(-1.0, -2.0));
    assert_eq!(pair(1.0, -2.0).reflect(Axis::Y), pair(1.0, 2.0));
    assert_eq!(Real(3.0).reflect(Axis::X), Real(3.0));
    assert_eq!(Real(3.0).scale(Real(0.5)), Real(1.5));
}

#[test]
fn boundary_rule_on_numbers() {
    let mut f = scalar_field(4, 5, |x, y| (10 * x + y) as f32);
    set_boundries(&mut f);
    // the interior is untouched
    for x in 1..3 {
        for y in 1..4 {
            assert_eq!(f.get(x, y), Real((10 * x + y) as f32));
        }
    }
    // edges copy the inner neighbour
    assert_eq!(f.get(0, 2), Real(12.0));
    assert_eq!(f.get(3, 2), Real(22.0));
    assert_eq!(f.get(1, 0), Real(11.0));
    assert_eq!(f.get(2, 4), Real(23.0));
    // corners are the mean of the two edge cells beside them
    assert_eq!(f.get(0, 0), Real(11.0));
    assert_eq!(f.get(0, 4), Real(13.0));
    assert_eq!(f.get(3, 0), Real(21.0));
    assert_eq!(f.get(3, 4), Real(23.0));
}

#[test]
fn boundary_rule_on_pairs_negates_the_normal_part() {
    let mut f = vector_field(4, 4, |x, y| ((x + 1) as f32, (y + 1) as f32 * 10.0));
    set_boundries(&mut f);
    assert_eq!(f.get(0, 1), pair(-2.0, 20.0));
    assert_eq!(f.get(0, 2), pair(-2.0, 30.0));
    assert_eq!(f.get(3, 1), pair(-3.0, 20.0));
    assert_eq!(f.get(1, 0), pair(2.0, -20.0));
    assert_eq!(f.get(2, 3), pair(3.0, -30.0));
    assert_eq!(f.get(0, 0), pair(0.0, 0.0));
    assert_eq!(f.get(3, 3), pair(0.0, 0.0));
    assert_eq!(f.get(0, 3), pair(0.0, 0.0));
    assert_eq!(f.get(1, 1), pair(2.0, 20.0));
}

#[test]
fn boundary_rule_leaves_a_lattice_without_interior() {
    let mut f = scalar_field(2, 6, |x, y| (10 * x + y) as f32);
    set_boundries(&mut f);
    for x in 0..2 {
        for y in 0..6 {
            assert_eq!(f.get(x, y), Real((10 * x + y) as f32));
        }
    }
}

#[test]
fn relax_one_sweep_by_hand() {
    let mut array = Field::filled(4, 4, Real(0.0));
    let mut source = Field::filled(4, 4, Real(0.0));
    source.set(1, 1, Real(4.0));
    relax(&mut array, &source, Real(0.75), Real(0.25), 1);
    assert_eq!(array.get(1, 1), Real(1.0));
    assert_eq!(array.get(1, 2), Real(0.1875));
    assert_eq!(array.get(2, 1), Real(0.1875));
    assert_eq!(array.get(2, 2), Real(0.0703125));
    assert_eq!(array.get(0, 1), Real(1.0));
    assert_eq!(array.get(3, 2), Real(0.0703125));
    assert_eq!(array.get(0, 0), Real(1.0));
    assert_eq!(array.get(0, 3), Real(0.1875));
    assert_eq!(array.get(3, 0), Real(0.1875));
    assert_eq!(array.get(3, 3), Real(0.0703125));
}

#[test]
fn diffuse_uses_dt_rate_width_height() {
    // dt * rate * width * height = 0.75 * 0.0625 * 4 * 4 = 0.75, so the norm is 1 / 4
    let mut array = Field::filled(4, 4, Real(0.0));
    let mut source = Field::filled(4, 4, Real(0.0));
    source.set(1, 1, Real(4.0));
    diffuse(&mut array, &source, 1, Real(0.75), Real(0.0625));
    assert_eq!(array.get(1, 1), Real(1.0));
    assert_eq!(array.get(1, 2), Real(0.1875));
    assert_eq!(array.get(2, 2), Real(0.0703125));
}

#[test]
fn diffuse_without_sweeps_changes_nothing() {
    let mut array = scalar_field(5, 5, |x, y| (x * y) as f32);
    let source = scalar_field(5, 5, |x, y| (x + y) as f32);
    diffuse(&mut array, &source, 0, Real(1.0), Real(0.5));
    for x in 0..5 {
        for y in 0..5 {
            assert_eq!(array.get(x, y), Real((x * y) as f32));
        }
    }
}

#[test]
fn advect_interpolates_between_four_cells() {
    let source = scalar_field(4, 4, |x, y| match (x, y) {
        (1, 1) => 1.0,
        (1, 2) => 2.0,
        (2, 1) => 3.0,
        (2, 2) => 4.0,
        _ => 0.0,
    });
    let velocity = vector_field(4, 4, |x, y| if (x, y) == (2, 2) { (0.125, 0.0625) } else { (0.0, 0.0) });
    let out = advect(&source, &velocity, Real(1.0));
    // (2, 2) comes from (1.5, 1.75)
    assert_eq!(out.get(2, 2), Real(2.75));
    // cells at rest keep their value
    assert_eq!(out.get(1, 1), Real(1.0));
    assert_eq!(out.get(1, 2), Real(2.0));
    assert_eq!(out.get(2, 1), Real(3.0));
    // edges follow the boundary rule
    assert_eq!(out.get(3, 2), Real(2.75));
    assert_eq!(out.get(0, 1), Real(1.0));
}

#[test]
fn advect_clamps_the_source_to_the_lattice() {
    let source = scalar_field(4, 4, |x, y| (10 * x + y) as f32);
    let velocity = vector_field(4, 4, |_, _| (-1000.0, 1000.0));
    let out = advect(&source, &velocity, Real(1.0));
    // traced far past the high end along x and past the low end along y
    assert_eq!(out.get(1, 1), Real(30.5));
    assert_eq!(out.get(2, 2), Real(30.5));
    for x in 0..4 {
        for y in 0..4 {
            assert!(out.get(x, y).0.is_finite());
        }
    }
}

#[test]
fn projection_reduces_divergence() {
    let mut velocity = Field::filled(10, 10, pair(0.0, 0.0));
    velocity.set(5, 5, pair(1.0, 0.0));
    let before = largest_divergence(&velocity);
    project(&mut velocity, 10);
    let after = largest_divergence(&velocity);
    assert_eq!(before, 0.05);
    assert!(after < before, "divergence went from {} to {}", before, after);
    assert!(after < 0.035);
}

#[test]
fn projection_by_hand() {
    let mut velocity = Field::filled(4, 4, pair(0.0, 0.0));
    velocity.set(1, 1, pair(4.0, 0.0));
    project(&mut velocity, 1);
    // the divergence is 0.5 at (2, 1); one sweep gives the pressure 0.125
    // there and 0.03125 at (2, 2); the gradient is scaled by half the width
    assert_eq!(velocity.get(1, 1), pair(3.75, 0.0));
    assert_eq!(velocity.get(2, 1), pair(-0.25, 0.1875));
    assert_eq!(velocity.get(1, 2), pair(-0.0625, 0.0));
    assert_eq!(velocity.get(2, 2), pair(-0.0625, 0.1875));
    assert_eq!(velocity.get(0, 1), pair(-3.75, 0.0));
    assert_eq!(velocity.get(3, 1), pair(0.25, 0.1875));
    assert_eq!(velocity.get(2, 0), pair(-0.25, -0.1875));
}

#[test]
fn projection_without_sweeps_keeps_the_interior() {
    let mut velocity = vector_field(5, 5, |x, y| (x as f32 * 0.5, y as f32 - 1.0));
    project(&mut velocity, 0);
    for x in 1..4 {
        for y in 1..4 {
            assert_eq!(velocity.get(x, y), pair(x as f32 * 0.5, y as f32 - 1.0));
        }
    }
    assert_eq!(velocity.get(0, 2), pair(-0.5, 1.0));
}

#[test]
fn divergence_of_one_vector() {
    let mut velocity = Field::filled(10, 10, pair(0.0, 0.0));
    velocity.set(5, 5, pair(1.0, 2.0));
    let d = divergence(&velocity);
    assert_eq!(d.get(4, 5), Real(-0.05));
    assert_eq!(d.get(6, 5), Real(0.05));
    assert_eq!(d.get(5, 4), Real(-0.1));
    assert_eq!(d.get(5, 6), Real(0.1));
    assert_eq!(d.get(5, 5), Real(0.0));
    assert_eq!(d.get(0, 5), Real(0.0));
}

#[test]
fn edges_obey_the_rule_after_a_step() {
    let mut c = cube(6, 5);
    let rect = Rect { left: Real(0.0), right: Real(6.0), bottom: Real(0.0), top: Real(5.0) };
    c.add_density(pair(1.5, 1.5), Real(3.0), rect);
    c.add_density(pair(4.5, 3.5), Real(1.0), rect);
    c.add_velocity(pair(2.5, 2.5), pair(0.3, -0.2), rect);
    c.add_velocity(pair(1.5, 3.5), pair(-0.1, 0.4), rect);
    for _ in 0..3 {
        c.step(Real(0.01), Real(0.02), Real(0.5), 4);
        for y in 1..4 {
            assert_eq!(c.density_at(0, y), c.density_at(1, y));
            assert_eq!(c.density_at(5, y), c.density_at(4, y));
            assert_eq!(c.velocity_at(0, y), c.velocity_at(1, y).reflect(Axis::X));
            assert_eq!(c.velocity_at(5, y), c.velocity_at(4, y).reflect(Axis::X));
        }
        for x in 1..5 {
            assert_eq!(c.density_at(x, 0), c.density_at(x, 1));
            assert_eq!(c.density_at(x, 4), c.density_at(x, 3));
            assert_eq!(c.velocity_at(x, 0), c.velocity_at(x, 1).reflect(Axis::Y));
            assert_eq!(c.velocity_at(x, 4), c.velocity_at(x, 3).reflect(Axis::Y));
        }
        assert_eq!(c.density_at(0, 0), c.density_at(1, 0).plus(c.density_at(0, 1)).times(Real(0.5)));
        assert_eq!(c.density_at(5, 4), c.density_at(5, 3).plus(c.density_at(4, 4)).times(Real(0.5)));
        assert_eq!(c.velocity_at(0, 4), c.velocity_at(1, 4).accumulate(c.velocity_at(0, 3)).scale(Real(0.5)));
        assert_eq!(c.velocity_at(5, 0), c.velocity_at(5, 1).accumulate(c.velocity_at(4, 0)).scale(Real(0.5)));
    }
    assert!(c.density_at(1, 1).0 != 0.0);
}

#[test]
fn uniform_density_is_steady_without_dynamics() {
    let mut c = cube(6, 6);
    let rect = unit_rect(6.0);
    for x in 0..6 {
        for y in 0..6 {
            c.add_density(pair(x as f32 + 0.5, y as f32 + 0.5), Real(0.625), rect);
        }
    }
    // the first step, without sweeps, brings the uniform field into both buffers
    c.step(Real(0.0), Real(0.0), Real(1.0), 0);
    for _ in 0..5 {
        c.step(Real(0.0), Real(0.0), Real(1.0), 4);
        for x in 0..6 {
            for y in 0..6 {
                assert_eq!(c.density_at(x, y), Real(0.625));
            }
        }
    }
}

#[test]
fn fluid_at_rest_stays_finite() {
    let mut c = cube(8, 7);
    let params = [(0.0, 0.0, 0.0), (0.1, 0.1, 1.0), (5.0, 0.5, 3.0), (1.0, 100.0, 0.01)];
    for (diffusion, viscosity, dt) in params {
        for iterations in [1, 4, 20] {
            c.step(Real(diffusion), Real(viscosity), Real(dt), iterations);
            for x in 0..8 {
                for y in 0..7 {
                    assert!(c.density_at(x, y).0.is_finite());
                    assert!(c.velocity_at(x, y).x.0.is_finite());
                    assert!(c.velocity_at(x, y).y.0.is_finite());
                    assert_eq!(c.density_at(x, y).0, 0.0);
                }
            }
        }
    }
}

#[test]
fn centred_injection_diffuses_outward() {
    let mut c = cube(10, 10);
    c.add_density(pair(5.5, 5.5), Real(1.0), unit_rect(10.0));
    assert_eq!(c.density_at(5, 5), Real(1.0));
    assert_eq!(total_density(&c), 1.0);
    c.step(Real(0.1), Real(0.1), Real(1.0), 4);
    assert!(c.density_at(5, 5).0 < 1.0);
    assert!(c.density_at(5, 5).0 > 0.0);
    assert!(c.density_at(4, 5).0 > 0.0);
    assert!(c.density_at(6, 5).0 > 0.0);
    assert!(c.density_at(5, 4).0 > 0.0);
    assert!(c.density_at(5, 6).0 > 0.0);
    let total = total_density(&c);
    assert!((total - 1.0).abs() < 0.1, "total density is {}", total);
}

#[test]
fn step_without_sweeps_keeps_the_interior() {
    let mut c = cube(4, 4);
    let rect = unit_rect(4.0);
    c.add_density(pair(1.5, 1.5), Real(1.0), rect);
    c.add_density(pair(1.5, 2.5), Real(2.0), rect);
    c.add_density(pair(2.5, 1.5), Real(3.0), rect);
    c.add_density(pair(2.5, 2.5), Real(4.0), rect);
    c.step(Real(0.3), Real(0.3), Real(1.0), 0);
    assert_eq!(c.density_at(1, 1), Real(1.0));
    assert_eq!(c.density_at(1, 2), Real(2.0));
    assert_eq!(c.density_at(2, 1), Real(3.0));
    assert_eq!(c.density_at(2, 2), Real(4.0));
    // the edges are patched from the interior
    assert_eq!(c.density_at(0, 1), Real(1.0));
    assert_eq!(c.density_at(3, 2), Real(4.0));
    assert_eq!(c.density_at(0, 0), Real(1.0));
    assert_eq!(c.density_at(3, 3), Real(4.0));
    assert_eq!(c.velocity_at(1, 1), pair(0.0, 0.0));
}

#[test]
fn step_without_sweeps_still_advects() {
    let mut c = cube(4, 4);
    let rect = unit_rect(4.0);
    c.add_density(pair(1.5, 1.5), Real(1.0), rect);
    c.add_density(pair(2.5, 1.5), Real(3.0), rect);
    c.add_velocity(pair(2.5, 1.5), pair(0.125, 0.0), rect);
    // the velocity buffer of the step before is at rest, so the first step
    // leaves the fluid without velocity; the density is carried by that
    c.step(Real(0.0), Real(0.0), Real(1.0), 0);
    assert_eq!(c.velocity_at(2, 1), pair(0.0, 0.0));
    assert_eq!(c.density_at(2, 1), Real(3.0));
    // the injected velocity sits in the buffer now and drives the next step
    c.step(Real(0.0), Real(0.0), Real(1.0), 0);
    assert_eq!(c.velocity_at(2, 1), pair(0.125, 0.0));
    // (2, 1) is traced back to (1.5, 1): half of each neighbour along x
    assert_eq!(c.density_at(2, 1), Real(2.0));
    assert_eq!(c.density_at(1, 1), Real(1.0));
}
