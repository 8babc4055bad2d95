use astrosim_lib::error;
use astrosim_lib::first_massless;
use astrosim_lib::gvec2;
use astrosim_lib::zeros;
use astrosim_lib::BruteForce;
use astrosim_lib::Error;
use astrosim_lib::ErrorMessage;
use astrosim_lib::Forces;
use astrosim_lib::Image;
use astrosim_lib::OutputPort;
use astrosim_lib::PartialForce;
use astrosim_lib::Particle;
use astrosim_lib::Scalar;
use astrosim_lib::Stepper;

use std::f64::consts::PI;

/// Double-precision scalar for exercising the integrator with real
/// floating-point arithmetic.
#[derive(Clone, Copy, Debug, PartialEq)]
struct R64(f64);

impl Scalar for R64 {
    // The `*_spec` and law items below are the compiled residue of the
    // trait's specification functions and proof obligations; they are
    // never executed.  The spec stubs mirror the executable operations.
    fn add_spec(self, o: Self) -> Self {
        self.add(o)
    }
    fn sub_spec(self, o: Self) -> Self {
        self.sub(o)
    }
    fn mul_spec(self, o: Self) -> Self {
        self.mul(o)
    }
    fn div_spec(self, o: Self) -> Self {
        self.div(o)
    }
    fn sqrt_spec(self) -> Self {
        self.sqrt()
    }
    fn lt_spec(self, o: Self) -> bool {
        self.is_lt(o)
    }
    fn zero_spec() -> Self {
        Self::zero()
    }
    fn half_spec() -> Self {
        Self::half()
    }
    fn two_spec() -> Self {
        Self::two()
    }
    fn shrink_limit_spec() -> Self {
        Self::shrink_limit()
    }
    fn grow_limit_spec() -> Self {
        Self::grow_limit()
    }
    fn dt_default_spec() -> Self {
        Self::dt_default()
    }
    fn target_error_default_spec() -> Self {
        Self::target_error_default()
    }
    fn min_dt_default_spec() -> Self {
        Self::min_dt_default()
    }
    fn max_dt_default_spec() -> Self {
        Self::max_dt_default()
    }
    fn lt_irreflexive(_a: Self) {}
    fn lt_asymmetric(_a: Self, _b: Self) {}
    fn nlt_transitive(_a: Self, _b: Self, _c: Self) {}
    fn add_sub_inverse(_a: Self, _b: Self) {}
    fn lt_connected(_a: Self, _b: Self) {}
    fn sub_self_zero(_a: Self) {}

    fn add(self, o: Self) -> Self {
        R64(self.0 + o.0)
    }
    fn sub(self, o: Self) -> Self {
        R64(self.0 - o.0)
    }
    fn mul(self, o: Self) -> Self {
        R64(self.0 * o.0)
    }
    fn div(self, o: Self) -> Self {
        R64(self.0 / o.0)
    }
    fn sqrt(self) -> Self {
        R64(self.0.sqrt())
    }
    fn is_lt(self, o: Self) -> bool {
        self.0 < o.0
    }
    fn is_zero(self) -> bool {
        self.0 == 0.0
    }
    fn zero() -> Self {
        R64(0.0)
    }
    fn half() -> Self {
        R64(0.5)
    }
    fn two() -> Self {
        R64(2.0)
    }
    fn shrink_limit() -> Self {
        R64(0.1)
    }
    fn grow_limit() -> Self {
        R64(1.4)
    }
    fn dt_default() -> Self {
        R64(1e-5)
    }
    fn target_error_default() -> Self {
        R64(0.001)
    }
    fn min_dt_default() -> Self {
        R64(0.0)
    }
    fn max_dt_default() -> Self {
        R64(f64::INFINITY)
    }
}

fn v(x: f64, y: f64) -> gvec2<R64> {
    gvec2::new(R64(x), R64(y))
}

fn particle(mass: f64, pos: gvec2<R64>, vel: gvec2<R64>) -> Particle<R64> {
    Particle::new(R64(mass), pos, vel)
}

// Test the force between a pair of particles along the x axis
//
//   *-----*
//
#[test]
fn brute_force_pairwise_x() {
    let p = vec![
        particle(2.0, v(-1.0, 0.0), v(0.0, 0.0)),
        particle(1.0, v(1.0, 0.0), v(0.0, 0.0)),
    ];

    let acc = BruteForce::new().accel(&p);
    assert_eq!(acc[0], v(0.25, 0.0));
    assert_eq!(acc[1], v(-0.5, 0.0));
}

// Test the force between a pair of particles along the y axis
//    *
//    |
//    *
#[test]
fn brute_force_pairwise_y() {
    let p = vec![
        particle(2.0, v(0.0, -1.0), v(0.0, 0.0)),
        particle(1.0, v(0.0, 1.0), v(0.0, 0.0)),
    ];

    let acc = BruteForce::new().accel(&p);
    assert_eq!(acc[0], v(0.0, 0.25));
    assert_eq!(acc[1], v(0.0, -0.5));
}

// Test the force between 3 particles.
//    *
//   / \
//  *---*
#[test]
fn brute_force_treebody() {
    let p = vec![
        particle(1.0, v(-1.0, 0.0), v(0.0, 0.0)),
        particle(1.0, v(1.0, 0.0), v(0.0, 0.0)),
        particle(2.0, v(0.0, 0.5), v(0.0, 0.0)),
    ];

    let acc = BruteForce::new().accel(&p);
    assert_eq!(acc[0], v(1.6810835055998654, 0.7155417527999327));
    assert_eq!(acc[1], v(-1.6810835055998654, 0.7155417527999327));
    assert_eq!(acc[2], v(0.0, -0.7155417527999327));
}

#[test]
fn stepper_verlet_error() {
    // position error after a quarter orbit
    let error = |dt: f64| {
        let particles = vec![
            particle(1.0, v(0.0, 0.0), v(0.0, 0.0)), // "sun"
            particle(0.0, v(0.0, 1.0), v(1.0, 0.0)), // "earth"
        ];
        let mut sim = Stepper::new(particles);
        sim.fix_dt(R64(dt));
        sim.advance(R64(PI / 2.0)).unwrap();
        let got = sim.particles()[1].pos;
        let want = v(1.0, 0.0); // travelled a quarter orbit
        let dx = got.x.0 - want.x.0;
        let dy = got.y.0 - want.y.0;
        (dx * dx + dy * dy).sqrt()
    };

    let check = |dt: f64, tolerance: f64| {
        let error = error(dt);
        if error > tolerance {
            panic!("dt {}: error {} > tolerance {}", dt, error, tolerance)
        }
    };

    // errors needs drop quadratically with time step
    // the prefactor is chosen as tightly as possible
    // to be sensitive to regressions.
    check(1e-1, 3e-3);
    check(1e-2, 3e-5);
    check(1e-3, 3e-7);
    check(1e-4, 3e-9);
}

#[test]
fn momentum_zero_after_construction() {
    let particles = vec![
        particle(3.0, v(0.0, 0.0), v(1.0, -2.0)),
        particle(1.0, v(1.0, 0.0), v(0.0, 4.0)),
        particle(0.5, v(0.0, 2.0), v(-3.0, 1.5)),
        particle(0.0, v(2.0, 2.0), v(9.0, 9.0)),
    ];
    let sim = Stepper::new(particles);
    let mut px = 0.0;
    let mut py = 0.0;
    for p in sim.particles().iter() {
        px += p.mass.0 * p.vel.x.0;
        py += p.mass.0 * p.vel.y.0;
    }
    assert!(px.abs() < 1e-12, "net momentum x: {}", px);
    assert!(py.abs() < 1e-12, "net momentum y: {}", py);
}

#[test]
fn momentum_removal_shifts_by_momentum_per_mass() {
    let particles = vec![
        particle(3.0, v(0.0, 0.0), v(1.0, -2.0)),
        particle(1.0, v(1.0, 0.0), v(0.0, 4.0)),
    ];
    // expected shift, mirroring the accumulation order: sum of m*v over
    // the total mass
    let px = 1.0 * 3.0 + 0.0 * 1.0;
    let py = -2.0 * 3.0 + 4.0 * 1.0;
    let m = 3.0 + 1.0;
    let (dvx, dvy) = (px / m, py / m);
    let sim = Stepper::with_force(particles, BruteForce::new());
    assert_eq!(sim.particles()[0].vel, v(1.0 - dvx, -2.0 - dvy));
    assert_eq!(sim.particles()[1].vel, v(0.0 - dvx, 4.0 - dvy));
}

#[test]
fn construction_defaults() {
    let particles = vec![particle(1.0, v(0.0, 0.0), v(0.0, 0.0))];
    let sim = Stepper::new(particles);
    assert_eq!(sim.time(), R64(0.0));
    assert_eq!(sim.step_count(), 0);
    assert_eq!(sim.dt(), R64(1e-5));
    assert_eq!(sim.target_error(), R64(0.001));
    assert_eq!(sim.min_dt(), R64(0.0));
    assert_eq!(sim.max_dt(), R64(f64::INFINITY));
}

#[test]
fn relative_error_formula() {
    let particles = vec![
        particle(1.0, v(0.0, 0.0), v(0.0, 0.0)),
        particle(0.5, v(0.0, 1.0), v(1.0, 0.0)),
    ];
    let mut sim = Stepper::with_force(particles, BruteForce::new());
    let prev = sim.accelerations().clone();
    sim.step_with_dt(R64(0.125));
    let cur = sim.accelerations().clone();
    // the estimate is twice the square root of the largest
    // (cur-prev) over (cur+prev) squared-length ratio
    let mut max = R64(0.0);
    for i in 0..cur.len() {
        let a1 = cur[i];
        let a2 = prev[i];
        let ratio = a1.sub(a2).len2().div(a1.add(a2).len2());
        if max.is_lt(ratio) {
            max = ratio;
        }
    }
    let expected = max.sqrt().mul(R64(2.0));
    assert_eq!(sim.relative_error(), expected);
    assert!(expected.0 > 0.0);
}

#[test]
fn first_step_does_not_adjust_dt() {
    let particles = vec![
        particle(1.0, v(0.0, 0.0), v(0.0, 0.0)),
        particle(0.0, v(0.0, 1.0), v(1.0, 0.0)),
    ];
    let mut sim = Stepper::new(particles);
    sim.set_dt(R64(0.001));
    sim.step();
    // no previous step to base an adjustment on
    assert_eq!(sim.dt(), R64(0.001));
    sim.step();
    // from the second step on the controller runs (and may change dt)
    assert!(sim.dt().0 > 0.0);
}

#[test]
fn momentum_removal_skipped_for_zero_total_mass() {
    let particles = vec![
        particle(0.0, v(0.0, 0.0), v(1.0, 2.0)),
        particle(0.0, v(1.0, 0.0), v(-3.0, 4.0)),
    ];
    let sim = Stepper::new(particles);
    assert_eq!(sim.particles()[0].vel, v(1.0, 2.0));
    assert_eq!(sim.particles()[1].vel, v(-3.0, 4.0));
}

#[test]
fn mass_sort_and_cutoff() {
    let particles = vec![
        particle(0.0, v(0.0, 0.0), v(0.0, 0.0)),
        particle(3.0, v(1.0, 0.0), v(0.0, 0.0)),
        particle(1.0, v(2.0, 0.0), v(0.0, 0.0)),
        particle(0.0, v(3.0, 0.0), v(0.0, 0.0)),
        particle(2.0, v(4.0, 0.0), v(0.0, 0.0)),
    ];
    let sim = Stepper::new(particles);
    let ps = sim.particles();
    let masses: Vec<f64> = ps.iter().map(|p| p.mass.0).collect();
    assert_eq!(masses, vec![3.0, 2.0, 1.0, 0.0, 0.0]);
    for w in masses.windows(2) {
        assert!(w[0] >= w[1]);
    }
    // the first massless particle marks the cutoff; all later ones are massless
    assert_eq!(first_massless(ps), 3);
}

#[test]
fn fsal_buffer_matches_fresh_evaluation() {
    // full pairwise gravity
    let particles = vec![
        particle(1.0, v(0.0, 0.0), v(0.0, 0.0)),
        particle(0.5, v(1.0, 0.5), v(0.0, 1.0)),
        particle(0.0, v(0.0, 1.5), v(-1.0, 0.0)),
    ];
    let mut sim = Stepper::with_force(particles, BruteForce::new());
    assert_eq!(BruteForce::new().accel(sim.particles()), *sim.accelerations());
    sim.step_with_dt(R64(0.01));
    assert_eq!(BruteForce::new().accel(sim.particles()), *sim.accelerations());
    sim.step();
    sim.step();
    assert_eq!(BruteForce::new().accel(sim.particles()), *sim.accelerations());

    // bounded-source gravity, via the sorting constructor
    let particles = vec![
        particle(1.0, v(0.0, 0.0), v(0.0, 0.0)),
        particle(0.0, v(0.0, 1.0), v(1.0, 0.0)),
        particle(0.5, v(2.0, 0.0), v(0.0, 0.5)),
    ];
    let mut sim = Stepper::new(particles);
    let model = PartialForce::new(first_massless(sim.particles()));
    assert_eq!(model.accel(sim.particles()), *sim.accelerations());
    sim.step_with_dt(R64(0.01));
    sim.step();
    assert_eq!(model.accel(sim.particles()), *sim.accelerations());
}

#[test]
fn dt_stays_clamped() {
    let particles = vec![
        particle(1.0, v(0.0, 0.0), v(0.0, 0.0)),
        particle(0.0, v(0.0, 1.0), v(1.0, 0.0)),
    ];
    let mut sim = Stepper::new(particles);
    sim.set_dt(R64(1e-3));
    sim.set_min_dt(R64(1e-4));
    sim.set_max_dt(R64(5e-3));
    sim.set_target_error(R64(1e9)); // pushes the controller to grow dt hard
    for _ in 0..40 {
        sim.step();
        assert!(sim.min_dt().0 <= sim.dt().0, "dt {} below min", sim.dt().0);
        assert!(sim.dt().0 <= sim.max_dt().0, "dt {} above max", sim.dt().0);
    }
    sim.set_target_error(R64(1e-12)); // and now to shrink it hard
    for _ in 0..40 {
        sim.step();
        assert!(sim.min_dt().0 <= sim.dt().0, "dt {} below min", sim.dt().0);
        assert!(sim.dt().0 <= sim.max_dt().0, "dt {} above max", sim.dt().0);
    }
}

#[test]
fn advance_lands_on_end_time() {
    // adaptive dt
    let particles = vec![
        particle(1.0, v(0.0, 0.0), v(0.0, 0.0)),
        particle(0.0, v(0.0, 1.0), v(1.0, 0.0)),
    ];
    let mut sim = Stepper::new(particles);
    sim.advance(R64(0.7)).unwrap();
    assert!((sim.time().0 - 0.7).abs() < 1e-12, "time {}", sim.time().0);
    // a second advance starts from a nonzero clock
    sim.advance(R64(0.6)).unwrap();
    assert!((sim.time().0 - 1.3).abs() < 1e-12, "time {}", sim.time().0);

    // fixed dt that does not divide the total time
    let particles = vec![
        particle(1.0, v(0.0, 0.0), v(0.0, 0.0)),
        particle(0.0, v(0.0, 1.0), v(1.0, 0.0)),
    ];
    let mut sim = Stepper::new(particles);
    sim.fix_dt(R64(0.3));
    sim.advance(R64(1.0)).unwrap();
    assert!((sim.time().0 - 1.0).abs() < 1e-12, "time {}", sim.time().0);
}

#[test]
fn advance_by_exactly_one_step() {
    // total_time equal to dt is allowed and runs a single (closing) step
    let particles = vec![
        particle(1.0, v(0.0, 0.0), v(0.0, 0.0)),
        particle(0.0, v(0.0, 1.0), v(1.0, 0.0)),
    ];
    let mut sim = Stepper::new(particles);
    sim.fix_dt(R64(0.25));
    sim.advance(R64(0.25)).unwrap();
    assert_eq!(sim.step_count(), 1);
    assert_eq!(sim.time().0, 0.25);
}

#[test]
fn advance_lands_even_for_negative_total_time() {
    // a negative total with an equally negative dt is not refused; the
    // closing step runs on any nonzero remaining gap, so the clock
    // still lands exactly
    let particles = vec![
        particle(1.0, v(0.0, 0.0), v(0.0, 0.0)),
        particle(0.0, v(0.0, 1.0), v(1.0, 0.0)),
    ];
    let mut sim = Stepper::new(particles);
    sim.fix_dt(R64(-0.5));
    sim.advance(R64(-0.5)).unwrap();
    assert_eq!(sim.time().0, -0.5);
    assert_eq!(sim.step_count(), 1);
}

#[test]
fn advance_refuses_transposed_arguments() {
    let particles = vec![
        particle(1.0, v(0.0, 0.0), v(0.0, 0.0)),
        particle(0.0, v(0.0, 1.0), v(1.0, 0.0)),
    ];
    let mut sim = Stepper::new(particles);
    sim.fix_dt(R64(0.5));
    let e = sim.advance(R64(0.1)).unwrap_err();
    assert_eq!(e.msg, "advance: total_time must be at least dt");
    assert_eq!(sim.time().0, 0.0);
    assert_eq!(sim.step_count(), 0);
}

struct CountingPort {
    calls: usize,
    times: Vec<f64>,
}

impl OutputPort<R64, PartialForce> for CountingPort {
    // compiled residue of the trait's spec function; never executed
    fn may_fail() -> bool {
        false
    }

    fn output(&mut self, sim: &Stepper<R64, PartialForce>) -> Result<(), Error> {
        self.calls += 1;
        self.times.push(sim.time().0);
        Ok(())
    }
}

#[test]
fn output_port_called_once_per_step() {
    let particles = vec![
        particle(1.0, v(0.0, 0.0), v(0.0, 0.0)),
        particle(0.0, v(0.0, 1.0), v(1.0, 0.0)),
    ];
    let mut sim = Stepper::new(particles);
    sim.fix_dt(R64(0.25));
    let mut port = CountingPort { calls: 0, times: Vec::new() };
    sim.advance_with_output(R64(1.0), &mut port).unwrap();
    // once for the initial state, once per regular step, once for the
    // truncated closing step
    assert_eq!(sim.step_count(), 4);
    assert_eq!(port.calls, 5);
    assert_eq!(port.times, vec![0.0, 0.25, 0.5, 0.75, 1.0]);
}

struct FailingPort {
    remaining: usize,
}

impl OutputPort<R64, PartialForce> for FailingPort {
    // compiled residue of the trait's spec function; never executed
    fn may_fail() -> bool {
        true
    }

    fn output(&mut self, _sim: &Stepper<R64, PartialForce>) -> Result<(), Error> {
        if self.remaining == 0 {
            return Err(error(String::from("sink full")));
        }
        self.remaining -= 1;
        Ok(())
    }
}

#[test]
fn output_port_failure_propagates() {
    let particles = vec![
        particle(1.0, v(0.0, 0.0), v(0.0, 0.0)),
        particle(0.0, v(0.0, 1.0), v(1.0, 0.0)),
    ];
    let mut sim = Stepper::new(particles);
    sim.fix_dt(R64(0.25));
    // fails at the third invocation: initial state, one step, then boom
    let mut port = FailingPort { remaining: 2 };
    let e = sim.advance_with_output(R64(1.0), &mut port).unwrap_err();
    assert_eq!(e.msg, "sink full");
    // the steps taken before the failure stay committed
    assert_eq!(sim.step_count(), 2);
    assert_eq!(sim.time().0, 0.5);
}

#[test]
fn coincident_positions_give_non_finite_acceleration() {
    // a known, accepted edge case: the kernel divides by zero
    let p = vec![
        particle(1.0, v(1.0, 1.0), v(0.0, 0.0)),
        particle(1.0, v(1.0, 1.0), v(0.0, 0.0)),
    ];
    let acc = BruteForce::new().accel(&p);
    assert!(!acc[0].x.0.is_finite() || acc[0].x.0.is_nan());
}

#[test]
fn empty_particle_set_advances() {
    let mut sim = Stepper::new(Vec::<Particle<R64>>::new());
    sim.fix_dt(R64(0.5));
    sim.advance(R64(2.0)).unwrap();
    assert!((sim.time().0 - 2.0).abs() < 1e-12);
    assert_eq!(sim.particles().len(), 0);
}

#[test]
fn integer_scalar_steps_and_lands_exactly() {
    // the integer instance has exact add/sub, so the clock lands on the
    // end time with no tolerance at all
    let particles = vec![
        Particle::new(4i64, gvec2::new(0i64, 0i64), gvec2::new(1i64, -1i64)),
        Particle::new(0i64, gvec2::new(10i64, 0i64), gvec2::new(0i64, 3i64)),
    ];
    let mut sim = Stepper::new(particles);
    sim.fix_dt(2i64);
    sim.advance(11i64).unwrap();
    assert_eq!(sim.time(), 11i64);
    assert_eq!(sim.step_count(), 6);
}

#[test]
fn integer_scalar_arithmetic() {
    assert_eq!(Scalar::add(3i64, 4i64), 7);
    assert_eq!(Scalar::add(i64::MAX, 1i64), i64::MIN); // wraps
    assert_eq!(Scalar::sub(2i64, 5i64), -3);
    assert_eq!(Scalar::mul(-3i64, 4i64), -12);
    assert_eq!(Scalar::div(7i64, 2i64), 3);
    assert_eq!(Scalar::div(7i64, 0i64), 0); // total: no panic on zero
    assert_eq!(Scalar::sqrt(0i64), 0);
    assert_eq!(Scalar::sqrt(15i64), 3);
    assert_eq!(Scalar::sqrt(16i64), 4);
    assert_eq!(Scalar::sqrt(-9i64), 0);
    assert_eq!(Scalar::sqrt(1_000_000i64), 1000);
    assert!(Scalar::is_lt(1i64, 2i64));
    assert!(!Scalar::is_lt(2i64, 2i64));
    assert!(Scalar::is_zero(0i64));
    assert!(!Scalar::is_zero(-1i64));
}

#[test]
fn vector_arithmetic() {
    let a = v(1.0, 2.0);
    let b = v(3.0, -4.0);
    assert_eq!(a.add(b), v(4.0, -2.0));
    assert_eq!(a.sub(b), v(-2.0, 6.0));
    assert_eq!(a.scale(R64(2.0)), v(2.0, 4.0));
    assert_eq!(b.div_s(R64(2.0)), v(1.5, -2.0));
    assert_eq!(a.dot(b), R64(-5.0));
    assert_eq!(a.len2(), R64(5.0));
    assert_eq!(gvec2::<R64>::zero(), v(0.0, 0.0));
}

#[test]
fn zeros_builds_a_zeroed_buffer() {
    let buf = zeros::<R64>(3);
    assert_eq!(buf.len(), 3);
    for z in buf.iter() {
        assert_eq!(*z, v(0.0, 0.0));
    }
}

#[test]
fn error_message_prefixes() {
    let ok: Result<u32, Error> = Ok(7);
    assert_eq!(ok.msg("loading").unwrap(), 7);
    let e: Result<u32, Error> = Err(error(String::from("boom")));
    let prefixed = e.msg("loading").unwrap_err();
    assert_eq!(prefixed.msg, "loading: boom");
}

#[test]
fn image_basics() {
    let mut img: Image<u32> = Image::new(4, 3);
    assert_eq!(img.width(), 4);
    assert_eq!(img.height(), 3);
    assert_eq!(img.dimensions(), (4, 3));
    assert_eq!(img.pixels().len(), 12);
    assert_eq!(img.at((2, 1)), 0);
    img.set_at((2, 1), 9);
    assert_eq!(img.at((2, 1)), 9);
    assert_eq!(img.at((1, 2)), 0);
    assert_eq!(img.pixels()[1 * 4 + 2], 9);

    let empty: Image<u32> = Image::default();
    assert_eq!(empty.width(), 0);
    assert_eq!(empty.height(), 0);
    assert_eq!(empty.pixels().len(), 0);
}
