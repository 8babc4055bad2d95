use vstd::prelude::*;
use vstd::string::StringExecFns;

use crate::error::error;
use crate::error::Error;
use crate::forces::pos_mass_of;
use crate::forces::Forces;
use crate::particle::first_massless;
use crate::particle::lemma_momentum_removed_frame;
use crate::particle::masses_descending;
use crate::particle::momentum_removed;
use crate::particle::remove_net_momentum;
use crate::particle::sort_by_mass;
use crate::particle::Particle;
use crate::partial_force::PartialForce;
use crate::scalar::Scalar;
use crate::util::zeros;
use crate::vec2::gvec2;

verus! {

/// The stateful integrator: owns the particle array, the two
/// acceleration buffers, the simulation clock and the adaptive step
/// size, and advances them one symplectic step at a time.
pub struct Stepper<S: Scalar, F: Forces<S>> {
    particles: Vec<Particle<S>>,
    target_error: S,
    min_dt: S,
    max_dt: S,
    step_count: u64,
    time: S,
    dt: S,
    force: F,
    acc1: Vec<gvec2<S>>,
    acc2: Vec<gvec2<S>>,
}

/// One particle after the "drift" phase: the position moves by
/// `vel*dt + (half*acc)*dt*dt`; velocity and mass are untouched.
pub open spec fn drift_particle<S: Scalar>(p: Particle<S>, a: gvec2<S>, dt: S) -> Particle<S> {
    Particle {
        pos: p.pos.add_spec(
            p.vel.scale_spec(dt).add_spec(a.scale_spec(S::half_spec()).scale_spec(dt).scale_spec(dt)),
        ),
        vel: p.vel,
        mass: p.mass,
    }
}

/// One particle after the "kick" phase: the velocity moves by the
/// average of the accelerations before and after the drift, times `dt`;
/// position and mass are untouched.
pub open spec fn kick_particle<S: Scalar>(
    p: Particle<S>,
    a1: gvec2<S>,
    a2: gvec2<S>,
    dt: S,
) -> Particle<S> {
    Particle {
        pos: p.pos,
        vel: p.vel.add_spec(a1.add_spec(a2).scale_spec(S::half_spec()).scale_spec(dt)),
        mass: p.mass,
    }
}

/// The whole array after the drift phase.
pub open spec fn drifted_seq<S: Scalar>(
    ps: Seq<Particle<S>>,
    acc: Seq<gvec2<S>>,
    dt: S,
) -> Seq<Particle<S>> {
    Seq::new(ps.len(), |k: int| drift_particle(ps[k], acc[k], dt))
}

/// The whole array after the kick phase.
pub open spec fn kicked_seq<S: Scalar>(
    ps: Seq<Particle<S>>,
    a1: Seq<gvec2<S>>,
    a2: Seq<gvec2<S>>,
    dt: S,
) -> Seq<Particle<S>> {
    Seq::new(ps.len(), |k: int| kick_particle(ps[k], a1[k], a2[k], dt))
}


/// The per-particle quantity the error estimate maximises: the squared
/// length of the difference of the two buffered accelerations over the
/// squared length of their sum.  A zero-over-zero slot yields whatever
/// the scalar's division returns; it is not guarded.
pub open spec fn error_ratio<S: Scalar>(a1: gvec2<S>, a2: gvec2<S>) -> S {
    a1.sub_spec(a2).len2_spec().div_spec(a1.add_spec(a2).len2_spec())
}

/// Left fold of the running maximum of `error_ratio` over the first
/// `n` slots, seeded with the additive identity.  A candidate replaces
/// the running value only when the running value is strictly less.
pub open spec fn max_error_ratio_upto<S: Scalar>(
    a1: Seq<gvec2<S>>,
    a2: Seq<gvec2<S>>,
    n: int,
) -> S
    decreases n,
{
    if n <= 0 {
        S::zero_spec()
    } else {
        let m = max_error_ratio_upto(a1, a2, n - 1);
        let v = error_ratio(a1[n - 1], a2[n - 1]);
        if m.lt_spec(v) {
            v
        } else {
            m
        }
    }
}

/// The controller's raw factor: the target error over the estimate,
/// clamped into the window that keeps one adjustment from collapsing or
/// exploding the step size (upper clamp first, as the stepper applies
/// them).
pub open spec fn adjust_factor<S: Scalar>(target: S, err: S) -> S {
    let f = target.div_spec(err);
    let f1 = if S::grow_limit_spec().lt_spec(f) {
        S::grow_limit_spec()
    } else {
        f
    };
    if f1.lt_spec(S::shrink_limit_spec()) {
        S::shrink_limit_spec()
    } else {
        f1
    }
}

/// A step size clamped to `[lo, hi]`, lower bound first, as the
/// stepper applies them.
pub open spec fn clamp_dt<S: Scalar>(x: S, lo: S, hi: S) -> S {
    let d = if x.lt_spec(lo) {
        lo
    } else {
        x
    };
    if hi.lt_spec(d) {
        hi
    } else {
        d
    }
}

/// The step-size clamp does what it promises whenever the bounds are
/// ordered: the result is neither below `lo` nor above `hi`.
pub proof fn lemma_clamp_dt_in_range<S: Scalar>(x: S, lo: S, hi: S)
    requires
        !hi.lt_spec(lo),
    ensures
        !clamp_dt(x, lo, hi).lt_spec(lo),
        !hi.lt_spec(clamp_dt(x, lo, hi)),
{
    S::lt_irreflexive(lo);
    S::lt_irreflexive(hi);
}

impl<S: Scalar, F: Forces<S>> Stepper<S, F> {
    /// The particle array.
    pub closed spec fn particles_spec(self) -> Seq<Particle<S>> {
        self.particles@
    }

    /// The simulation clock.
    pub closed spec fn time_spec(self) -> S {
        self.time
    }

    /// Completed integration steps.
    pub closed spec fn step_count_spec(self) -> u64 {
        self.step_count
    }

    /// The force model bound at construction.
    pub closed spec fn force_spec(self) -> F {
        self.force
    }

    /// The acceleration buffer for the particles' current positions.
    pub closed spec fn acc_current_spec(self) -> Seq<gvec2<S>> {
        self.acc1@
    }

    /// The acceleration buffer of the previous step (the other half of
    /// the double buffer; the error estimate compares the two).
    pub closed spec fn acc_prev_spec(self) -> Seq<gvec2<S>> {
        self.acc2@
    }

    /// Current step size.
    pub closed spec fn dt_spec(self) -> S {
        self.dt
    }

    /// Lower bound applied to `dt` after every adjustment.
    pub closed spec fn min_dt_spec(self) -> S {
        self.min_dt
    }

    /// Upper bound applied to `dt` after every adjustment.
    pub closed spec fn max_dt_spec(self) -> S {
        self.max_dt
    }

    /// Desired per-step relative error used by the controller.
    pub closed spec fn target_error_spec(self) -> S {
        self.target_error
    }

    /// The simulation state proper (everything but the controller's
    /// tuning values) is the same in `pre` and `post`.
    pub open spec fn same_core(pre: Self, post: Self) -> bool {
        post.particles_spec() == pre.particles_spec() && post.acc_current_spec()
            == pre.acc_current_spec() && post.acc_prev_spec() == pre.acc_prev_spec()
            && post.time_spec() == pre.time_spec() && post.step_count_spec()
            == pre.step_count_spec() && post.force_spec() == pre.force_spec()
    }

    /// Both acceleration buffers have one slot per particle.
    pub open spec fn sized_ok(self) -> bool {
        self.acc_current_spec().len() == self.particles_spec().len()
            && self.acc_prev_spec().len() == self.particles_spec().len()
    }

    /// First-Same-As-Last: the current buffer holds exactly the force
    /// model's acceleration field at the particles' current positions.
    pub open spec fn fsal(self) -> bool {
        self.acc_current_spec() == self.force_spec().accel_spec(pos_mass_of(self.particles_spec()))
    }

    /// The stepper's invariant between steps.
    pub open spec fn wf(self) -> bool {
        self.sized_ok() && self.fsal()
    }

    pub fn particles(&self) -> (r: &Vec<Particle<S>>)
        ensures
            r@ == self.particles_spec(),
    {
        &self.particles
    }

    pub fn time(&self) -> (r: S)
        ensures
            r == self.time_spec(),
    {
        self.time
    }

    pub fn dt(&self) -> (r: S)
        ensures
            r == self.dt_spec(),
    {
        self.dt
    }

    pub fn min_dt(&self) -> (r: S)
        ensures
            r == self.min_dt_spec(),
    {
        self.min_dt
    }

    pub fn max_dt(&self) -> (r: S)
        ensures
            r == self.max_dt_spec(),
    {
        self.max_dt
    }

    pub fn target_error(&self) -> (r: S)
        ensures
            r == self.target_error_spec(),
    {
        self.target_error
    }

    /// Set the current step size (the controller may change it again).
    pub fn set_dt(&mut self, dt: S)
        ensures
            Self::same_core(*old(self), *final(self)),
            final(self).dt_spec() == dt,
            final(self).min_dt_spec() == old(self).min_dt_spec(),
            final(self).max_dt_spec() == old(self).max_dt_spec(),
            final(self).target_error_spec() == old(self).target_error_spec(),
    {
        self.dt = dt;
    }

    /// Set the lower step-size bound.
    pub fn set_min_dt(&mut self, min_dt: S)
        ensures
            Self::same_core(*old(self), *final(self)),
            final(self).dt_spec() == old(self).dt_spec(),
            final(self).min_dt_spec() == min_dt,
            final(self).max_dt_spec() == old(self).max_dt_spec(),
            final(self).target_error_spec() == old(self).target_error_spec(),
    {
        self.min_dt = min_dt;
    }

    /// Set the upper step-size bound.
    pub fn set_max_dt(&mut self, max_dt: S)
        ensures
            Self::same_core(*old(self), *final(self)),
            final(self).dt_spec() == old(self).dt_spec(),
            final(self).min_dt_spec() == old(self).min_dt_spec(),
            final(self).max_dt_spec() == max_dt,
            final(self).target_error_spec() == old(self).target_error_spec(),
    {
        self.max_dt = max_dt;
    }

    /// Set the per-step error target.
    pub fn set_target_error(&mut self, target_error: S)
        ensures
            Self::same_core(*old(self), *final(self)),
            final(self).dt_spec() == old(self).dt_spec(),
            final(self).min_dt_spec() == old(self).min_dt_spec(),
            final(self).max_dt_spec() == old(self).max_dt_spec(),
            final(self).target_error_spec() == target_error,
    {
        self.target_error = target_error;
    }

    pub fn step_count(&self) -> (r: u64)
        ensures
            r == self.step_count_spec(),
    {
        self.step_count
    }

    /// The acceleration of every particle at its current position.
    pub fn accelerations(&self) -> (r: &Vec<gvec2<S>>)
        ensures
            r@ == self.acc_current_spec(),
    {
        &self.acc1
    }

    /// Pin the step size: `dt`, `min_dt` and `max_dt` all become `dt`,
    /// which disables adaptivity.
    pub fn fix_dt(&mut self, dt: S)
        ensures
            Self::same_core(*old(self), *final(self)),
            final(self).dt_spec() == dt,
            final(self).min_dt_spec() == dt,
            final(self).max_dt_spec() == dt,
            final(self).target_error_spec() == old(self).target_error_spec(),
    {
        self.dt = dt;
        self.min_dt = dt;
        self.max_dt = dt;
    }

    /// Build a stepper around an explicit force model: remove the net
    /// momentum, prime the acceleration buffers once, and start the
    /// clock at zero with the scalar's default tuning.
    pub fn with_force(particles: Vec<Particle<S>>, force: F) -> (r: Self)
        ensures
            r.particles_spec() == momentum_removed(particles@),
            r.force_spec() == force,
            r.acc_prev_spec() == r.acc_current_spec(),
            r.time_spec() == S::zero_spec(),
            r.step_count_spec() == 0,
            r.dt_spec() == S::dt_default_spec(),
            r.target_error_spec() == S::target_error_default_spec(),
            r.min_dt_spec() == S::min_dt_default_spec(),
            r.max_dt_spec() == S::max_dt_default_spec(),
            r.wf(),
    {
        let mut particles = particles;
        remove_net_momentum(&mut particles);
        let mut acc1 = zeros(particles.len());
        force.set_accel(&particles, &mut acc1);
        proof {
            force.accel_spec_len(pos_mass_of(particles@));
        }
        let mut acc2 = zeros(particles.len());
        let n = acc1.len();
        let mut i: usize = 0;
        while i < n
            invariant
                i <= n,
                acc1@.len() == n,
                acc2@.len() == n,
                forall|k: int| 0 <= k < i ==> acc2@[k] == acc1@[k],
            decreases n - i,
        {
            let v = acc1[i];
            acc2.set(i, v);
            i = i + 1;
        }
        proof {
            assert(acc2@ =~= acc1@);
        }
        Stepper {
            particles,
            target_error: S::target_error_default(),
            min_dt: S::min_dt_default(),
            max_dt: S::max_dt_default(),
            step_count: 0,
            time: S::zero(),
            dt: S::dt_default(),
            force,
            acc1,
            acc2,
        }
    }

    /// Take one symplectic (velocity-Verlet) step of exactly `dt`:
    /// drift all positions, re-evaluate the force field, kick all
    /// velocities with the averaged accelerations, swap the buffers so
    /// the First-Same-As-Last invariant holds again, and advance the
    /// clock and the step counter (the counter saturates at its
    /// maximum).
    pub fn step_with_dt(&mut self, dt: S)
        requires
            old(self).sized_ok(),
        ensures
            final(self).particles_spec() == kicked_seq(
                drifted_seq(old(self).particles_spec(), old(self).acc_current_spec(), dt),
                old(self).acc_current_spec(),
                old(self).force_spec().accel_spec(
                    pos_mass_of(
                        drifted_seq(old(self).particles_spec(), old(self).acc_current_spec(), dt),
                    ),
                ),
                dt,
            ),
            final(self).acc_current_spec() == old(self).force_spec().accel_spec(
                pos_mass_of(
                    drifted_seq(old(self).particles_spec(), old(self).acc_current_spec(), dt),
                ),
            ),
            final(self).acc_prev_spec() == old(self).acc_current_spec(),
            final(self).time_spec() == old(self).time_spec().add_spec(dt),
            final(self).step_count_spec() == if old(self).step_count_spec() < u64::MAX {
                (old(self).step_count_spec() + 1) as u64
            } else {
                u64::MAX
            },
            final(self).dt_spec() == old(self).dt_spec(),
            final(self).min_dt_spec() == old(self).min_dt_spec(),
            final(self).max_dt_spec() == old(self).max_dt_spec(),
            final(self).target_error_spec() == old(self).target_error_spec(),
            final(self).force_spec() == old(self).force_spec(),
            final(self).sized_ok(),
            final(self).fsal(),
    {
        let ghost ps0 = self.particles@;
        let ghost a0 = self.acc1@;
        let n = self.particles.len();
        let half = S::half();

        // "drift" the positions with previous velocities and acceleration.
        let mut i: usize = 0;
        while i < n
            invariant
                i <= n,
                n == self.particles@.len(),
                self.acc1@ == a0,
                a0.len() == n,
                self.acc2@ == old(self).acc2@,
                self.time == old(self).time,
                self.dt == old(self).dt,
                self.min_dt == old(self).min_dt,
                self.max_dt == old(self).max_dt,
                self.target_error == old(self).target_error,
                self.step_count == old(self).step_count,
                self.force == old(self).force,
                half == S::half_spec(),
                forall|k: int| 0 <= k < i ==> self.particles@[k] == drift_particle(ps0[k], a0[k], dt),
                forall|k: int| i <= k < n ==> self.particles@[k] == ps0[k],
            decreases n - i,
        {
            let p = self.particles[i];
            let a1 = self.acc1[i];
            let moved = p.vel.scale(dt).add(a1.scale(half).scale(dt).scale(dt));
            self.particles.set(i, Particle { pos: p.pos.add(moved), vel: p.vel, mass: p.mass });
            i = i + 1;
        }
        proof {
            assert(self.particles@ =~= drifted_seq(ps0, a0, dt));
        }

        // update the spare buffer with the forces at the new positions.
        self.force.set_accel(&self.particles, &mut self.acc2);
        let ghost drifted = self.particles@;
        let ghost anew = self.acc2@;
        proof {
            self.force.accel_spec_len(pos_mass_of(drifted));
        }

        // "kick" the velocities with the average acceleration over the step.
        let mut i: usize = 0;
        while i < n
            invariant
                i <= n,
                n == self.particles@.len(),
                self.acc1@ == a0,
                a0.len() == n,
                self.acc2@ == anew,
                anew.len() == n,
                self.time == old(self).time,
                self.dt == old(self).dt,
                self.min_dt == old(self).min_dt,
                self.max_dt == old(self).max_dt,
                self.target_error == old(self).target_error,
                self.step_count == old(self).step_count,
                self.force == old(self).force,
                half == S::half_spec(),
                forall|k: int|
                    0 <= k < i ==> self.particles@[k] == kick_particle(
                        drifted[k],
                        a0[k],
                        anew[k],
                        dt,
                    ),
                forall|k: int| i <= k < n ==> self.particles@[k] == drifted[k],
            decreases n - i,
        {
            let p = self.particles[i];
            let a1 = self.acc1[i];
            let a2 = self.acc2[i];
            let kicked = p.vel.add(a1.add(a2).scale(half).scale(dt));
            self.particles.set(i, Particle { pos: p.pos, vel: kicked, mass: p.mass });
            i = i + 1;
        }
        proof {
            assert(self.particles@ =~= kicked_seq(drifted, a0, anew, dt));
        }

        // swap so that acc1 holds the acceleration for the next step.
        core::mem::swap(&mut self.acc1, &mut self.acc2);
        self.time = self.time.add(dt);
        if self.step_count < u64::MAX {
            self.step_count = self.step_count + 1;
        }
        proof {
            assert(pos_mass_of(self.particles@) =~= pos_mass_of(drifted));
        }
    }

    /// Estimate the relative error of the most recent step: the
    /// maximum, over all particles, of `error_ratio` between the two
    /// buffered accelerations, square-rooted and doubled.  Meaningful
    /// only right after a step, while the buffers hold two consecutive
    /// force evaluations.
    pub open spec fn relative_error_spec(self) -> S {
        max_error_ratio_upto(
            self.acc_current_spec(),
            self.acc_prev_spec(),
            self.acc_current_spec().len() as int,
        ).sqrt_spec().mul_spec(S::two_spec())
    }

    pub fn relative_error(&self) -> (r: S)
        requires
            self.sized_ok(),
        ensures
            r == self.relative_error_spec(),
    {
        let n = self.acc1.len();
        let mut m = S::zero();
        let mut i: usize = 0;
        while i < n
            invariant
                i <= n,
                n == self.acc1@.len(),
                self.acc2@.len() == n,
                m == max_error_ratio_upto(self.acc1@, self.acc2@, i as int),
            decreases n - i,
        {
            let a1 = self.acc1[i];
            let a2 = self.acc2[i];
            let v = a1.sub(a2).len2().div(a1.add(a2).len2());
            if m.is_lt(v) {
                m = v;
            }
            i = i + 1;
        }
        m.sqrt().mul(S::two())
    }

    /// One feedback adjustment: multiply `dt` by the clamped factor,
    /// then clamp the result to `[min_dt, max_dt]`.  With ordered
    /// bounds the new step size always lies in that window.
    fn adjust_dt(&mut self)
        requires
            old(self).sized_ok(),
        ensures
            Self::same_core(*old(self), *final(self)),
            final(self).min_dt_spec() == old(self).min_dt_spec(),
            final(self).max_dt_spec() == old(self).max_dt_spec(),
            final(self).target_error_spec() == old(self).target_error_spec(),
            final(self).dt_spec() == clamp_dt(
                old(self).dt_spec().mul_spec(
                    adjust_factor(old(self).target_error_spec(), old(self).relative_error_spec()),
                ),
                old(self).min_dt_spec(),
                old(self).max_dt_spec(),
            ),
            !old(self).max_dt_spec().lt_spec(old(self).min_dt_spec())
                ==> !final(self).dt_spec().lt_spec(final(self).min_dt_spec())
                && !final(self).max_dt_spec().lt_spec(final(self).dt_spec()),
    {
        let err = self.relative_error();
        let mut adjust = self.target_error.div(err);
        let g = S::grow_limit();
        if g.is_lt(adjust) {
            adjust = g;
        }
        let sh = S::shrink_limit();
        if adjust.is_lt(sh) {
            adjust = sh;
        }
        let raw = self.dt.mul(adjust);
        let mut d = raw;
        if d.is_lt(self.min_dt) {
            d = self.min_dt;
        }
        if self.max_dt.is_lt(d) {
            d = self.max_dt;
        }
        self.dt = d;
        proof {
            if !self.max_dt.lt_spec(self.min_dt) {
                lemma_clamp_dt_in_range(raw, self.min_dt, self.max_dt);
            }
        }
    }

    /// Take a single time step, with `dt` first adjusted from the
    /// previous step's error estimate.  The very first step is taken
    /// unadjusted: there is no previous step to base an adjustment on.
    pub fn step(&mut self)
        requires
            old(self).sized_ok(),
        ensures
            ({
                let d = if old(self).step_count_spec() != 0 {
                    clamp_dt(
                        old(self).dt_spec().mul_spec(
                            adjust_factor(
                                old(self).target_error_spec(),
                                old(self).relative_error_spec(),
                            ),
                        ),
                        old(self).min_dt_spec(),
                        old(self).max_dt_spec(),
                    )
                } else {
                    old(self).dt_spec()
                };
                let drifted = drifted_seq(
                    old(self).particles_spec(),
                    old(self).acc_current_spec(),
                    d,
                );
                &&& final(self).particles_spec() == kicked_seq(
                    drifted,
                    old(self).acc_current_spec(),
                    old(self).force_spec().accel_spec(pos_mass_of(drifted)),
                    d,
                )
                &&& final(self).acc_current_spec() == old(self).force_spec().accel_spec(
                    pos_mass_of(drifted),
                )
                &&& final(self).acc_prev_spec() == old(self).acc_current_spec()
                &&& final(self).time_spec() == old(self).time_spec().add_spec(d)
                &&& final(self).dt_spec() == d
            }),
            final(self).step_count_spec() == if old(self).step_count_spec() < u64::MAX {
                (old(self).step_count_spec() + 1) as u64
            } else {
                u64::MAX
            },
            final(self).min_dt_spec() == old(self).min_dt_spec(),
            final(self).max_dt_spec() == old(self).max_dt_spec(),
            final(self).target_error_spec() == old(self).target_error_spec(),
            final(self).force_spec() == old(self).force_spec(),
            final(self).sized_ok(),
            final(self).fsal(),
    {
        if self.step_count != 0 {
            self.adjust_dt();
        }
        let d = self.dt;
        self.step_with_dt(d);
    }

    /// The number of output-port invocations an advance from `pre` owes
    /// before its first step: one, for the initial snapshot of a fresh
    /// stepper, unless the call is refused outright.
    pub open spec fn initial_outputs(pre: Self, total_time: S) -> int {
        if pre.step_count_spec() == 0 && !total_time.lt_spec(pre.dt_spec()) {
            1int
        } else {
            0int
        }
    }

    /// Everything `advance` promises, relating the stepper before
    /// (`pre`) and after (`post`), the outcome `r`, and the output
    /// port's observation record before (`rec0`) and after (`rec1`);
    /// `port_may_fail` is the port's own failure mode (`false` for the
    /// no-op port).
    ///
    /// The invariant, the force model, the controller bounds, the
    /// particle count and all masses survive, and the step counter
    /// never decreases.  A `total_time` below the current step size is
    /// refused outright with its own error and the stepper untouched;
    /// every failure is accounted for -- that refusal, a saturated
    /// step counter, or the port's own -- so with a port that cannot
    /// fail, a well-formed `total_time` and counter headroom, success
    /// is owed.  On success the clock lands exactly on the entry time
    /// plus `total_time`, and a run that committed no step changed
    /// nothing at all.  The port's record grows by exactly the initial
    /// snapshot (the entry state, owed iff the stepper was fresh and
    /// the call not refused) plus one snapshot per committed step,
    /// each snapshot well-formed and numbered consecutively.  The step
    /// size is untouched unless at least two steps ran -- only then
    /// has the controller adjusted it; the truncated closing step
    /// never does -- and after an adjustment it lies within ordered
    /// bounds.
    pub open spec fn advance_post(
        pre: Self,
        post: Self,
        total_time: S,
        r: Result<(), Error>,
        port_may_fail: bool,
        rec0: Seq<Self>,
        rec1: Seq<Self>,
    ) -> bool {
        let iflag = Self::initial_outputs(pre, total_time);
        &&& post.wf()
        &&& post.min_dt_spec() == pre.min_dt_spec()
        &&& post.max_dt_spec() == pre.max_dt_spec()
        &&& post.target_error_spec() == pre.target_error_spec()
        &&& post.force_spec() == pre.force_spec()
        &&& post.particles_spec().len() == pre.particles_spec().len()
        &&& forall|k: int|
            0 <= k < pre.particles_spec().len() ==> (#[trigger] post.particles_spec()[k]).mass
                == pre.particles_spec()[k].mass
        &&& pre.step_count_spec() <= post.step_count_spec()
        &&& (total_time.lt_spec(pre.dt_spec()) ==> (r matches Err(e) && e.msg@
            == "advance: total_time must be at least dt"@ && post == pre))
        &&& (r matches Err(e) ==> (total_time.lt_spec(pre.dt_spec()) && e.msg@
            == "advance: total_time must be at least dt"@ && post == pre) || (
        post.step_count_spec() == u64::MAX && e.msg@ == "advance: step count overflow"@)
            || port_may_fail)
        &&& (r is Ok ==> post.time_spec() == pre.time_spec().add_spec(total_time))
        &&& (r is Ok && post.step_count_spec() == pre.step_count_spec() ==> post == pre)
        &&& (r is Ok && post.step_count_spec() <= pre.step_count_spec() + 1 ==> post.dt_spec()
            == pre.dt_spec())
        &&& (r is Ok && post.step_count_spec() >= pre.step_count_spec() + 2
            && !pre.max_dt_spec().lt_spec(pre.min_dt_spec()) ==> !post.dt_spec().lt_spec(
            pre.min_dt_spec(),
        ) && !pre.max_dt_spec().lt_spec(post.dt_spec()))
        &&& (!pre.max_dt_spec().lt_spec(pre.min_dt_spec()) ==> post.dt_spec() == pre.dt_spec() || (
        !post.dt_spec().lt_spec(pre.min_dt_spec()) && !pre.max_dt_spec().lt_spec(post.dt_spec())))
        &&& rec1.len() == rec0.len() + iflag + (post.step_count_spec() - pre.step_count_spec())
        &&& forall|i: int| 0 <= i < rec0.len() ==> (#[trigger] rec1[i]) == rec0[i]
        &&& (iflag == 1 ==> rec1[rec0.len() as int] == pre)
        &&& forall|i: int|
            rec0.len() + iflag <= i < rec1.len() ==> (#[trigger] rec1[i]).step_count_spec()
                == pre.step_count_spec() + (i - rec0.len() - iflag) + 1 && rec1[i].wf()
    }

    /// Advance time by exactly `total_time`, invoking the output port
    /// once with the initial state of a fresh stepper and once after
    /// every completed step.  Regular adaptive steps run until just
    /// before the end time; one final step, truncated to fit exactly,
    /// runs whenever the remaining gap is nonzero and lands the clock
    /// on the end time (it does not feed the controller, since a
    /// truncated step is not representative).  A failure from the port
    /// aborts the loop at once, leaving the steps already taken
    /// committed.
    fn advance_with_callback<O: OutputPort<S, F>>(&mut self, total_time: S, out: &mut O) -> (r:
        Result<(), Error>)
        requires
            old(self).wf(),
        ensures
            Self::advance_post(
                *old(self),
                *final(self),
                total_time,
                r,
                O::may_fail(),
                old(out).record(),
                final(out).record(),
            ),
    {
        // A total_time below dt is a caller error (the two are easily
        // transposed); refuse it before doing anything.
        if total_time.is_lt(self.dt) {
            return Err(error(String::from_str("advance: total_time must be at least dt")));
        }
        let ghost rec0 = out.record();
        let ghost iflag = Self::initial_outputs(*old(self), total_time);
        // Output the initial state.
        if self.step_count == 0 {
            match out.output(self) {
                Err(e) => {
                    return Err(e);
                },
                Ok(_) => {},
            }
        }
        let end_time = self.time.add(total_time);
        while (self.time.add(self.dt)).is_lt(end_time)
            invariant
                self.wf(),
                self.min_dt_spec() == old(self).min_dt_spec(),
                self.max_dt_spec() == old(self).max_dt_spec(),
                self.target_error_spec() == old(self).target_error_spec(),
                self.force_spec() == old(self).force_spec(),
                self.particles_spec().len() == old(self).particles_spec().len(),
                forall|k: int|
                    0 <= k < old(self).particles_spec().len()
                        ==> (#[trigger] self.particles_spec()[k]).mass
                        == old(self).particles_spec()[k].mass,
                old(self).step_count_spec() <= self.step_count_spec(),
                end_time == old(self).time_spec().add_spec(total_time),
                !total_time.lt_spec(old(self).dt_spec()),
                iflag == Self::initial_outputs(*old(self), total_time),
                rec0 == old(out).record(),
                self.step_count_spec() == old(self).step_count_spec() ==> *self == *old(self),
                self.step_count_spec() > old(self).step_count_spec()
                    ==> self.time_spec().lt_spec(end_time),
                self.step_count_spec() > old(self).step_count_spec()
                    && !old(self).max_dt_spec().lt_spec(old(self).min_dt_spec())
                    ==> !self.dt_spec().lt_spec(old(self).min_dt_spec())
                    && !old(self).max_dt_spec().lt_spec(self.dt_spec()),
                out.record().len() == rec0.len() + iflag + (self.step_count_spec() - old(
                    self,
                ).step_count_spec()),
                forall|i: int| 0 <= i < rec0.len() ==> (#[trigger] out.record()[i]) == rec0[i],
                iflag == 1 ==> out.record()[rec0.len() as int] == *old(self),
                forall|i: int|
                    rec0.len() + iflag <= i < out.record().len()
                        ==> (#[trigger] out.record()[i]).step_count_spec() == old(
                        self,
                    ).step_count_spec() + (i - rec0.len() - iflag) + 1 && out.record()[i].wf(),
            decreases u64::MAX - self.step_count_spec(),
        {
            if self.step_count == u64::MAX {
                return Err(error(String::from_str("advance: step count overflow")));
            }
            let ghost pre = *self;
            let d = self.dt;
            self.step_with_dt(d);
            proof {
                assert forall|k: int|
                    0 <= k < old(self).particles_spec().len() implies (#[trigger] self.particles_spec()[k]).mass
                    == old(self).particles_spec()[k].mass by {
                    assert(self.particles_spec()[k].mass == pre.particles_spec()[k].mass);
                }
            }
            let ghost prev_rec = out.record();
            match out.output(self) {
                Err(e) => {
                    return Err(e);
                },
                Ok(_) => {},
            }
            proof {
                assert forall|i: int|
                    rec0.len() + iflag <= i < out.record().len() implies (#[trigger] out.record()[i]).step_count_spec()
                    == old(self).step_count_spec() + (i - rec0.len() - iflag) + 1
                    && out.record()[i].wf() by {
                    if i < prev_rec.len() {
                        assert(out.record()[i] == prev_rec[i]);
                    } else {
                        assert(out.record()[i] == *self);
                    }
                }
            }
            self.adjust_dt();
        }
        // The final time step is truncated to fit total_time precisely;
        // it runs whenever the remaining gap is nonzero, so the clock
        // lands on the end time exactly.
        let final_dt = end_time.sub(self.time);
        let zero = S::zero();
        if zero.is_lt(final_dt) || final_dt.is_lt(zero) {
            if self.step_count == u64::MAX {
                return Err(error(String::from_str("advance: step count overflow")));
            }
            let ghost pre = *self;
            self.step_with_dt(final_dt);
            proof {
                S::add_sub_inverse(pre.time_spec(), end_time);
                assert forall|k: int|
                    0 <= k < old(self).particles_spec().len() implies (#[trigger] self.particles_spec()[k]).mass
                    == old(self).particles_spec()[k].mass by {
                    assert(self.particles_spec()[k].mass == pre.particles_spec()[k].mass);
                }
            }
            let ghost prev_rec = out.record();
            match out.output(self) {
                Err(e) => {
                    return Err(e);
                },
                Ok(_) => {},
            }
            proof {
                assert forall|i: int|
                    rec0.len() + iflag <= i < out.record().len() implies (#[trigger] out.record()[i]).step_count_spec()
                    == old(self).step_count_spec() + (i - rec0.len() - iflag) + 1
                    && out.record()[i].wf() by {
                    if i < prev_rec.len() {
                        assert(out.record()[i] == prev_rec[i]);
                    } else {
                        assert(out.record()[i] == *self);
                    }
                }
            }
            // A truncated step is not representative: do not adjust dt.
        } else {
            proof {
                // Neither side of the gap is below the other, so by
                // connectedness it is the identity and the clock is
                // already at the end time.
                S::lt_connected(zero, final_dt);
                S::add_sub_inverse(self.time_spec(), end_time);
                S::add_sub_inverse(self.time_spec(), self.time_spec());
                S::sub_self_zero(self.time_spec());
                if self.step_count_spec() > old(self).step_count_spec() {
                    S::lt_irreflexive(end_time);
                }
            }
        }
        Ok(())
    }

    /// Advance time by exactly `total_time`, writing output through the
    /// given port after every step.
    pub fn advance_with_output<O: OutputPort<S, F>>(
        &mut self,
        total_time: S,
        outputs: &mut O,
    ) -> (r: Result<(), Error>)
        requires
            old(self).wf(),
        ensures
            Self::advance_post(
                *old(self),
                *final(self),
                total_time,
                r,
                O::may_fail(),
                old(outputs).record(),
                final(outputs).record(),
            ),
    {
        self.advance_with_callback(total_time, outputs)
    }

    /// Advance time by exactly `total_time` without writing any output.
    /// The no-op port cannot fail, so the only possible errors are the
    /// refused `total_time` and a saturated step counter; the record it
    /// accumulated is reported existentially.
    pub fn advance(&mut self, total_time: S) -> (r: Result<(), Error>)
        requires
            old(self).wf(),
        ensures
            exists|rec: Seq<Stepper<S, F>>|
                #[trigger] Self::advance_post(
                    *old(self),
                    *final(self),
                    total_time,
                    r,
                    false,
                    Seq::empty(),
                    rec,
                ),
    {
        let mut out = NoOutput { seen: Ghost(Seq::empty()) };
        let r = self.advance_with_callback(total_time, &mut out);
        proof {
            assert(Self::advance_post(
                *old(self),
                *final(self),
                total_time,
                r,
                false,
                Seq::empty(),
                out.record(),
            ));
        }
        r
    }
}


/// The output port: the external collaborator that an advancing stepper
/// drives.  It is invoked synchronously, once with the initial state of
/// a fresh stepper and once after every completed step, with read
/// access to the stepper; any failure it reports aborts the advance and
/// is propagated verbatim.
pub trait OutputPort<S: Scalar, F: Forces<S>> {
    /// Whether this port can ever report a failure.  A port that
    /// cannot, such as [`NoOutput`], lets the advance loop promise
    /// success.
    spec fn may_fail() -> bool;

    /// The ghost record of every state this port has observed, oldest
    /// first; `output` appends the state it is shown.  Ports verified
    /// in this crate maintain it in a ghost field; the default stands
    /// for ports that are never the subject of proofs.
    open spec fn record(&self) -> Seq<Stepper<S, F>> {
        Seq::empty()
    }

    fn output(&mut self, sim: &Stepper<S, F>) -> (r: Result<(), Error>)
        ensures
            !Self::may_fail() ==> r is Ok,
            final(self).record() == old(self).record().push(*sim),
    ;
}

/// The port that records nothing real and never fails; it keeps only
/// the ghost observation record.
pub struct NoOutput<S: Scalar, F: Forces<S>> {
    seen: Ghost<Seq<Stepper<S, F>>>,
}

impl<S: Scalar, F: Forces<S>> OutputPort<S, F> for NoOutput<S, F> {
    open spec fn may_fail() -> bool {
        false
    }

    closed spec fn record(&self) -> Seq<Stepper<S, F>> {
        self.seen@
    }

    fn output(&mut self, sim: &Stepper<S, F>) -> (r: Result<(), Error>) {
        proof {
            self.seen@ = self.seen@.push(*sim);
        }
        Ok(())
    }
}

impl<S: Scalar> Stepper<S, PartialForce> {
    /// Build a stepper with the bounded-source force model: sort the
    /// particles by mass (descending), find the first massless one, and
    /// make exactly the massive prefix act as force sources.
    pub fn new(particles: Vec<Particle<S>>) -> (r: Self)
        ensures
            masses_descending(r.particles_spec()),
            r.particles_spec().len() == particles@.len(),
            r.force_spec().cutoff_index <= r.particles_spec().len(),
            forall|k: int|
                0 <= k < r.force_spec().cutoff_index ==> (#[trigger] r.particles_spec()[k]).mass
                    != S::zero_spec(),
            r.force_spec().cutoff_index < r.particles_spec().len()
                ==> r.particles_spec()[r.force_spec().cutoff_index as int].mass == S::zero_spec(),
            exists|sorted: Seq<Particle<S>>|
                (#[trigger] sorted.to_multiset()) == particles@.to_multiset()
                    && masses_descending(sorted) && r.particles_spec() == momentum_removed(sorted),
            r.acc_prev_spec() == r.acc_current_spec(),
            r.time_spec() == S::zero_spec(),
            r.step_count_spec() == 0,
            r.dt_spec() == S::dt_default_spec(),
            r.target_error_spec() == S::target_error_default_spec(),
            r.min_dt_spec() == S::min_dt_default_spec(),
            r.max_dt_spec() == S::max_dt_default_spec(),
            r.wf(),
    {
        let mut particles = particles;
        let ghost input = particles@;
        sort_by_mass(&mut particles);
        let ghost sorted = particles@;
        let cutoff = first_massless(&particles);
        let r = Self::with_force(particles, PartialForce::new(cutoff));
        proof {
            lemma_momentum_removed_frame(sorted);
            assert forall|k: int|
                0 <= k < r.particles_spec().len() - 1 implies !(#[trigger] r.particles_spec()[k]).mass.lt_spec(
                r.particles_spec()[k + 1].mass,
            ) by {
                assert(r.particles_spec()[k].mass == sorted[k].mass);
                assert(r.particles_spec()[k + 1].mass == sorted[k + 1].mass);
                assert(!sorted[k].mass.lt_spec(sorted[k + 1].mass));
            }
            assert(sorted.to_multiset() == input.to_multiset() && masses_descending(sorted)
                && r.particles_spec() == momentum_removed(sorted));
        }
        r
    }
}

} // verus!
