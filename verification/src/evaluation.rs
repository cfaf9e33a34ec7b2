//! The course of one evaluation, as a sequence of steps.
//!
//! An evaluation alternates between the library, which decides, and the
//! caller, which calls the kernel. Every entry point returns the first
//! `Step`. While the step is a `Call`, the caller performs the request and
//! reports the kernel's status pair to `advance`, which returns the next
//! step. `Finish` tells how the values that the kernel returned are combined
//! into the result; `Abort` ends the evaluation without one.

use crate::amos_errors::{handle_ierr, status_is_fatal, status_warnings, Fatal, Warning};
use crate::kernel::{Kernel, KernelRequest, Scaling};
use vstd::prelude::*;

verus! {

/// The factor that brings a term of the K routine to the scaling of the I
/// routine.
#[derive(Clone, Copy, Debug, PartialEq, Eq)]
pub enum Multiplier {
    /// `1 + 0i`.
    Unit,
    /// `exp(-|Re z| - z)`.
    Exponential,
}

/// The sense of a phase rotation.
#[derive(Clone, Copy, Debug, PartialEq, Eq)]
pub enum Rotation {
    /// Multiply by `exp(+i * pi * order)`.
    Counterclockwise,
    /// Multiply by `exp(-i * pi * order)`.
    Clockwise,
}

/// How the values of the primary call become the result. Element `i` of a
/// batch belongs to the order `m + i`, where `m` is the order of the request.
#[derive(Clone, Copy, Debug, PartialEq, Eq)]
pub enum Reflection {
    /// The primary values are the result.
    Unchanged,
    /// Element `i` is `I[i] + (2 / pi) * sin(pi * (m + i)) * multiplier * K[i]`,
    /// with `I` from the primary call and `K` from the secondary call.
    SineCorrection { multiplier: Multiplier },
    /// Element `i` is the primary value times `exp(± i * pi * (m + i))`.
    PhaseRotation { rotation: Rotation },
}

/// A kernel call that is to be made, and what follows it.
#[derive(Clone, Copy, Debug, PartialEq, Eq)]
pub struct Pending {
    /// The call to make.
    pub request: KernelRequest,
    /// How the evaluation finishes once all calls are made.
    pub finish: Reflection,
}

/// One step of an evaluation.
#[derive(Clone, Copy, Debug, PartialEq, Eq)]
pub enum Step {
    /// Call the kernel and report its status to `advance`.
    Call(Pending),
    /// All calls are made: combine their values as told.
    Finish(Reflection),
    /// The evaluation ends without a result.
    Abort(Fatal),
}

/// What `advance` returns: the next step, and the warnings to emit for the
/// call that was just made.
#[derive(Debug, PartialEq, Eq)]
pub struct Progress {
    pub step: Step,
    pub warnings: Vec<Warning>,
}

/// The multiplier that reconciles the scalings of the I and K routines.
pub open spec fn multiplier_for(scaling: Scaling) -> Multiplier {
    match scaling {
        Scaling::Unscaled => Multiplier::Unit,
        Scaling::Scaled => Multiplier::Exponential,
    }
}

/// The rotation that reflects the order of a Hankel routine.
pub open spec fn rotation_for(kernel: Kernel) -> Rotation {
    match kernel {
        Kernel::H2 => Rotation::Clockwise,
        _ => Rotation::Counterclockwise,
    }
}

/// The K call that follows an I call when the sine correction is due.
pub open spec fn secondary(primary: KernelRequest) -> KernelRequest {
    KernelRequest { kernel: Kernel::K, ..primary }
}

/// The step that follows a call whose status was not fatal.
pub open spec fn next_step(pending: Pending) -> Step {
    if pending.request.kernel is I && pending.finish is SineCorrection {
        Step::Call(Pending { request: secondary(pending.request), finish: pending.finish })
    } else {
        Step::Finish(pending.finish)
    }
}

/// The step that follows a call that reported `(nz, ierr)`.
pub open spec fn step_after(pending: Pending, nz: i32, ierr: i32) -> Step {
    if status_is_fatal(nz as int, ierr as int) {
        Step::Abort(Fatal::KernelInvariantViolation)
    } else {
        next_step(pending)
    }
}

/// The warnings to emit for a call that reported `(nz, ierr)`: none when the
/// status is fatal.
pub open spec fn warnings_after(nz: i32, ierr: i32) -> Seq<Warning> {
    if status_is_fatal(nz as int, ierr as int) {
        Seq::empty()
    } else {
        status_warnings(nz, ierr)
    }
}

impl Pending {
    /// The request is one that the kernel accepts, and the way to finish
    /// fits the routine: only an I call can lead to a sine correction, a K
    /// call always does, and a Hankel call leads to the rotation of its own
    /// kind or to none.
    pub open spec fn wf(self) -> bool {
        &&& self.request.wf()
        &&& match self.request.kernel {
            Kernel::I => self.finish is Unchanged || self.finish == (Reflection::SineCorrection {
                multiplier: multiplier_for(self.request.scaling),
            }),
            Kernel::K => self.finish == (Reflection::SineCorrection {
                multiplier: multiplier_for(self.request.scaling),
            }),
            Kernel::H1 | Kernel::H2 => self.finish is Unchanged || self.finish
                == (Reflection::PhaseRotation { rotation: rotation_for(self.request.kernel) }),
        }
    }
}

impl Step {
    /// A call step holds a well-formed pending call.
    pub open spec fn wf(self) -> bool {
        self matches Step::Call(pending) ==> pending.wf()
    }

    /// An upper bound on the kernel calls that are still to be made.
    pub open spec fn calls_left(self) -> nat {
        match self {
            Step::Call(pending) => if pending.request.kernel is I && pending.finish
                is SineCorrection {
                2
            } else {
                1
            },
            _ => 0,
        }
    }
}

/// The multiplier for the correction term under the given scaling.
pub fn scaling_multiplier(scaling: Scaling) -> (r: Multiplier)
    ensures
        r == multiplier_for(scaling),
{
    match scaling {
        Scaling::Unscaled => Multiplier::Unit,
        Scaling::Scaled => Multiplier::Exponential,
    }
}

/// Takes the status pair of the call that `pending` asked for and decides
/// how the evaluation goes on.
pub fn advance(pending: Pending, nz: i32, ierr: i32) -> (r: Progress)
    ensures
        r.step == step_after(pending, nz, ierr),
        r.warnings@ == warnings_after(nz, ierr),
        pending.wf() ==> r.step.wf(),
        r.step.calls_left() < Step::Call(pending).calls_left(),
{
    match handle_ierr(nz, ierr) {
        Err(fatal) => Progress { step: Step::Abort(fatal), warnings: Vec::new() },
        Ok(warnings) => {
            let step = match (pending.request.kernel, pending.finish) {
                (Kernel::I, Reflection::SineCorrection { .. }) => {
                    let request = KernelRequest {
                        kernel: Kernel::K,
                        z: pending.request.z,
                        order: pending.request.order,
                        scaling: pending.request.scaling,
                        n: pending.request.n,
                    };
                    Step::Call(Pending { request, finish: pending.finish })
                },
                _ => Step::Finish(pending.finish),
            };
            Progress { step, warnings }
        },
    }
}

} // verus!
