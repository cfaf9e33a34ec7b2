//! Hankel functions of the first and second kind, for orders of either sign.
//!
//! The kernel knows orders that are not negative. A Hankel function of the
//! negative order `-m` is the function of order `m` of the same kind, turned
//! by a phase: `H(-m, z) = H(m, z) * exp(e * i * pi * m)`, where `e` is `+1`
//! for the first kind and `-1` for the second. No second call is needed.

use crate::amos_errors::{Fatal, InvalidInput};
use crate::evaluation::{next_step, rotation_for, Pending, Reflection, Rotation, Step};
use crate::kernel::{hankel_of, scaling_of, Argument, Kernel, KernelRequest, Scaling};
use crate::order::{
    is_finite, is_negative, is_zero, lemma_magnitude_keeps_value, lemma_sign_only, magnitude,
    negated, normalize, sign_bit,
};
use vstd::prelude::*;

verus! {

/// How an evaluation of order `nu` finishes: with the phase rotation of the
/// routine's kind when the order is negative, unchanged otherwise.
pub open spec fn hankel_reflection(nu: u64, kernel: Kernel) -> Reflection {
    if is_negative(nu) {
        Reflection::PhaseRotation { rotation: rotation_for(kernel) }
    } else {
        Reflection::Unchanged
    }
}

/// The first step of the evaluation of `n` consecutive orders from `nu` at
/// `z`: an input error if `m` is not 1 or 2, or else if `kode` is not 1 or
/// 2, or else if `n` is below 1; otherwise the call of the Hankel routine of
/// kind `m` at the magnitude of `nu`.
pub open spec fn zbesh_start(nu: u64, z: Argument, kode: i32, m: i32, n: i32) -> Step {
    match (hankel_of(m), scaling_of(kode)) {
        (None, _) => Step::Abort(Fatal::InputValidation(InvalidInput::Kind)),
        (Some(_), None) => Step::Abort(Fatal::InputValidation(InvalidInput::Mode)),
        (Some(_), Some(_)) if n < 1 => Step::Abort(Fatal::InputValidation(InvalidInput::Count)),
        (Some(kernel), Some(scaling)) => Step::Call(
            Pending {
                request: KernelRequest { kernel, z, order: magnitude(nu), scaling, n },
                finish: hankel_reflection(nu, kernel),
            },
        ),
    }
}

/// Begins the evaluation of the Hankel function of kind `m` at `n`
/// consecutive orders from `nu` at `z`, with the scaling that `kode` selects.
pub fn zbesh(nu: u64, z: Argument, kode: i32, m: i32, n: i32) -> (r: Step)
    requires
        is_finite(nu),
    ensures
        r == zbesh_start(nu, z, kode, m, n),
        r.wf(),
{
    let kernel = match Kernel::from_m(m) {
        Some(kernel) => kernel,
        None => {
            return Step::Abort(Fatal::InputValidation(InvalidInput::Kind));
        },
    };
    let scaling = match Scaling::from_kode(kode) {
        Some(scaling) => scaling,
        None => {
            return Step::Abort(Fatal::InputValidation(InvalidInput::Mode));
        },
    };
    if n < 1 {
        return Step::Abort(Fatal::InputValidation(InvalidInput::Count));
    }
    let order = normalize(nu);
    let finish = if order.negative {
        let rotation = match kernel {
            Kernel::H2 => Rotation::Clockwise,
            _ => Rotation::Counterclockwise,
        };
        Reflection::PhaseRotation { rotation }
    } else {
        Reflection::Unchanged
    };
    Step::Call(
        Pending { request: KernelRequest { kernel, z, order: order.magnitude, scaling, n }, finish },
    )
}

/// Begins the evaluation of the Hankel function of the first kind.
pub fn hankel1(nu: u64, z: Argument, n: i32) -> (r: Step)
    requires
        is_finite(nu),
    ensures
        r == zbesh_start(nu, z, 1, 1, n),
        r is Call <==> n >= 1,
        r.wf(),
{
    zbesh(nu, z, 1, 1, n)
}

/// Begins the evaluation of the scaled Hankel function of the first kind.
pub fn hankel1e(nu: u64, z: Argument, n: i32) -> (r: Step)
    requires
        is_finite(nu),
    ensures
        r == zbesh_start(nu, z, 2, 1, n),
        r is Call <==> n >= 1,
        r.wf(),
{
    zbesh(nu, z, 2, 1, n)
}

/// Begins the evaluation of the Hankel function of the second kind.
pub fn hankel2(nu: u64, z: Argument, n: i32) -> (r: Step)
    requires
        is_finite(nu),
    ensures
        r == zbesh_start(nu, z, 1, 2, n),
        r is Call <==> n >= 1,
        r.wf(),
{
    zbesh(nu, z, 1, 2, n)
}

/// Begins the evaluation of the scaled Hankel function of the second kind.
pub fn hankel2e(nu: u64, z: Argument, n: i32) -> (r: Step)
    requires
        is_finite(nu),
    ensures
        r == zbesh_start(nu, z, 2, 2, n),
        r is Call <==> n >= 1,
        r.wf(),
{
    zbesh(nu, z, 2, 2, n)
}

/// An evaluation is rejected before any kernel call exactly when the kind
/// or the mode is not 1 or 2 or the count is below 1; otherwise it starts
/// with one call of the Hankel routine of the kind asked for, at the
/// magnitude of the order and never at the signed order, and that call is
/// the only one.
pub proof fn lemma_hankel_validation(nu: u64, z: Argument, kode: i32, m: i32, n: i32)
    ensures
        m != 1 && m != 2 <==> zbesh_start(nu, z, kode, m, n) == Step::Abort(
            Fatal::InputValidation(InvalidInput::Kind),
        ),
        (m == 1 || m == 2) && kode != 1 && kode != 2 <==> zbesh_start(nu, z, kode, m, n)
            == Step::Abort(Fatal::InputValidation(InvalidInput::Mode)),
        (m == 1 || m == 2) && (kode == 1 || kode == 2) && n < 1 <==> zbesh_start(
            nu,
            z,
            kode,
            m,
            n,
        ) == Step::Abort(Fatal::InputValidation(InvalidInput::Count)),
        (m == 1 || m == 2) && (kode == 1 || kode == 2) && n >= 1 <==> zbesh_start(
            nu,
            z,
            kode,
            m,
            n,
        ) is Call,
        zbesh_start(nu, z, kode, m, n) matches Step::Call(pending) ==> {
            &&& hankel_of(m) == Some(pending.request.kernel)
            &&& pending.request.z == z
            &&& pending.request.order == magnitude(nu)
            &&& !sign_bit(pending.request.order)
            &&& scaling_of(kode) == Some(pending.request.scaling)
            &&& pending.request.n == n
            &&& next_step(pending) == Step::Finish(pending.finish)
        },
{
    lemma_sign_only(nu);
}

/// The evaluations at `nu` and at `-nu` make the same single call. Where
/// `nu` is zero both return its values unchanged. Where `nu` is positive,
/// the evaluation at `nu` returns them unchanged and the evaluation at `-nu`
/// turns element `i` by `exp(e * i * pi * (nu + i))`: counterclockwise for
/// the first kind, clockwise for the second.
pub proof fn lemma_hankel_phase(nu: u64, z: Argument, kode: i32, m: i32, n: i32)
    requires
        is_finite(nu),
        !sign_bit(nu),
        m == 1 || m == 2,
        kode == 1 || kode == 2,
        n >= 1,
    ensures
        ({
            let kernel = hankel_of(m)->0;
            let scaling = scaling_of(kode)->0;
            let request = KernelRequest { kernel, z, order: nu, scaling, n };
            let rotation = if m == 1 {
                Rotation::Counterclockwise
            } else {
                Rotation::Clockwise
            };
            let turned = if is_zero(nu) {
                Reflection::Unchanged
            } else {
                Reflection::PhaseRotation { rotation }
            };
            &&& zbesh_start(nu, z, kode, m, n) == Step::Call(
                Pending { request, finish: Reflection::Unchanged },
            )
            &&& zbesh_start(negated(nu), z, kode, m, n) == Step::Call(
                Pending { request, finish: turned },
            )
            &&& next_step(Pending { request, finish: Reflection::Unchanged }) == Step::Finish(
                Reflection::Unchanged,
            )
            &&& next_step(Pending { request, finish: turned }) == Step::Finish(turned)
        }),
{
    lemma_sign_only(nu);
    lemma_magnitude_keeps_value(nu);
    assert(magnitude(nu) == nu) by (bit_vector)
        requires
            !(nu & 0x8000_0000_0000_0000 != 0),
    ;
}

} // verus!
