//! A verified n-body gravity integrator.
//!
//! The crate advances a set of point masses under mutual Newtonian
//! gravity with a symplectic (velocity-Verlet) stepper and an adaptive
//! step-size controller.  All arithmetic is expressed through the
//! [`Scalar`] capability, so the integrator's contracts pin down exactly
//! which operations produce its results, for any scalar a caller
//! supplies.

mod brute_force;
mod error;
mod errormessage;
mod forces;
mod image;
mod partial_force;
mod particle;
mod scalar;
mod stepper;
mod util;
mod vec2;

pub use brute_force::BruteForce;
pub use error::error;
pub use error::Error;
pub use errormessage::ErrorMessage;
pub use forces::inner_sweep;
pub use image::Image;
pub use forces::lemma_pairwise_accel_len;
pub use forces::lemma_pairwise_accel_two_bodies;
pub use forces::outer_sweep;
pub use forces::pair_kernel;
pub use forces::pairwise_accel;
pub use forces::pos_mass_of;
pub use forces::Forces;
pub use partial_force::capped_cutoff;
pub use partial_force::PartialForce;
pub use particle::first_massless;
pub use particle::lemma_cutoff_contiguous;
pub use particle::lemma_momentum_removed_frame;
pub use particle::lemma_descending_pairwise;
pub use particle::masses_descending;
pub use particle::momentum_removed;
pub use particle::remove_net_momentum;
pub use particle::sort_by_mass;
pub use particle::total_mass_upto;
pub use particle::total_momentum_upto;
pub use particle::Particle;
pub use scalar::isqrt_int;
pub use scalar::Scalar;
pub use stepper::adjust_factor;
pub use stepper::clamp_dt;
pub use stepper::drift_particle;
pub use stepper::drifted_seq;
pub use stepper::kick_particle;
pub use stepper::error_ratio;
pub use stepper::kicked_seq;
pub use stepper::lemma_clamp_dt_in_range;
pub use stepper::max_error_ratio_upto;
pub use stepper::NoOutput;
pub use stepper::OutputPort;
pub use stepper::Stepper;
pub use util::zeros;
pub use vec2::gvec2;
