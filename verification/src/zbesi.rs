//! Modified Bessel functions of the first kind, for orders of either sign.
//!
//! The kernel knows orders that are not negative. For a negative order `-m`
//! the connection formula
//! `I(-m, z) = I(m, z) + (2 / pi) * sin(pi * m) * K(m, z)`
//! applies. Where `m` is a whole number the sine vanishes, and the second
//! call is not made.

use crate::amos_errors::{Fatal, InvalidInput};
use crate::evaluation::{
    multiplier_for, next_step, scaling_multiplier, secondary, Pending, Reflection, Step,
};
use crate::kernel::{real_argument, scaling_of, Argument, Kernel, KernelRequest, Scaling};
use crate::order::{
    denotes_integer, is_finite, is_negative, is_zero, lemma_magnitude_keeps_value,
    lemma_sign_only, magnitude, negated, normalize, sign_bit,
};
use vstd::prelude::*;

verus! {

/// How an evaluation of order `nu` finishes: with the sine correction when
/// the order is negative and not a whole number, unchanged otherwise.
pub open spec fn modified_reflection(nu: u64, scaling: Scaling) -> Reflection {
    if is_negative(nu) && !denotes_integer(nu) {
        Reflection::SineCorrection { multiplier: multiplier_for(scaling) }
    } else {
        Reflection::Unchanged
    }
}

/// The call of the I routine that every valid evaluation starts with.
pub open spec fn primary_request(nu: u64, z: Argument, scaling: Scaling, n: i32)
    -> KernelRequest {
    KernelRequest { kernel: Kernel::I, z, order: magnitude(nu), scaling, n }
}

/// The first step of the evaluation of `n` consecutive orders from `nu` at
/// `z`: an input error if `kode` is not 1 or 2, or else if `n` is below 1;
/// otherwise the call of the I routine at the magnitude of `nu`.
pub open spec fn zbesi_start(nu: u64, z: Argument, kode: i32, n: i32) -> Step {
    match scaling_of(kode) {
        None => Step::Abort(Fatal::InputValidation(InvalidInput::Mode)),
        Some(_) if n < 1 => Step::Abort(Fatal::InputValidation(InvalidInput::Count)),
        Some(scaling) => Step::Call(
            Pending {
                request: primary_request(nu, z, scaling, n),
                finish: modified_reflection(nu, scaling),
            },
        ),
    }
}

/// The first step of the evaluation of the single order `nu` at `z`: an
/// input error unless `kode` is 1 or 2, else the call of the I routine for
/// one order at the magnitude of `nu`.
pub open spec fn zbesi_scalar_start(nu: u64, z: Argument, kode: i32) -> Step {
    match scaling_of(kode) {
        Some(scaling) => Step::Call(
            Pending {
                request: primary_request(nu, z, scaling, 1),
                finish: modified_reflection(nu, scaling),
            },
        ),
        None => Step::Abort(Fatal::InputValidation(InvalidInput::Mode)),
    }
}

/// Begins the evaluation of `n` consecutive orders from `nu` at `z`, with
/// the scaling that `kode` selects.
pub fn zbesi_vec(nu: u64, z: Argument, kode: i32, n: i32) -> (r: Step)
    requires
        is_finite(nu),
    ensures
        r == zbesi_start(nu, z, kode, n),
        r.wf(),
{
    let scaling = match Scaling::from_kode(kode) {
        Some(scaling) => scaling,
        None => {
            return Step::Abort(Fatal::InputValidation(InvalidInput::Mode));
        },
    };
    if n < 1 {
        return Step::Abort(Fatal::InputValidation(InvalidInput::Count));
    }
    let order = normalize(nu);
    let finish = if order.negative && !order.integral {
        Reflection::SineCorrection { multiplier: scaling_multiplier(scaling) }
    } else {
        Reflection::Unchanged
    };
    Step::Call(
        Pending {
            request: KernelRequest { kernel: Kernel::I, z, order: order.magnitude, scaling, n },
            finish,
        },
    )
}

/// Begins the evaluation of the single order `nu` at `z`.
pub fn zbesi(nu: u64, z: Argument, kode: i32) -> (r: Step)
    requires
        is_finite(nu),
    ensures
        r == zbesi_scalar_start(nu, z, kode),
        r.wf(),
{
    let scaling = match Scaling::from_kode(kode) {
        Some(scaling) => scaling,
        None => {
            return Step::Abort(Fatal::InputValidation(InvalidInput::Mode));
        },
    };
    let order = normalize(nu);
    let request = KernelRequest { kernel: Kernel::I, z, order: order.magnitude, scaling, n: 1 };
    if order.negative && !order.integral {
        let multiplier = scaling_multiplier(scaling);
        Step::Call(Pending { request, finish: Reflection::SineCorrection { multiplier } })
    } else {
        Step::Call(Pending { request, finish: Reflection::Unchanged })
    }
}

/// Begins the evaluation of `I(nu, z)`.
pub fn iv(nu: u64, z: Argument) -> (r: Step)
    requires
        is_finite(nu),
    ensures
        r == zbesi_scalar_start(nu, z, 1),
        r is Call,
        r.wf(),
{
    zbesi(nu, z, 1)
}

/// Begins the evaluation of the scaled `exp(-|Re z|) * I(nu, z)`.
pub fn ive(nu: u64, z: Argument) -> (r: Step)
    requires
        is_finite(nu),
    ensures
        r == zbesi_scalar_start(nu, z, 2),
        r is Call,
        r.wf(),
{
    zbesi(nu, z, 2)
}

/// Begins the evaluation of `I(nu, x)` for a real `x`; the result is the
/// real part of what the evaluation yields.
pub fn iv_real(nu: u64, z: u64) -> (r: Step)
    requires
        is_finite(nu),
    ensures
        r == zbesi_scalar_start(nu, real_argument(z), 1),
        r is Call,
        r.wf(),
{
    zbesi(nu, Argument::from_real(z), 1)
}

/// Begins the evaluation of the scaled `exp(-|x|) * I(nu, x)` for a real
/// `x`; the result is the real part of what the evaluation yields.
pub fn ive_real(nu: u64, z: u64) -> (r: Step)
    requires
        is_finite(nu),
    ensures
        r == zbesi_scalar_start(nu, real_argument(z), 2),
        r is Call,
        r.wf(),
{
    zbesi(nu, Argument::from_real(z), 2)
}

/// Begins the evaluation of `I` at `n` consecutive orders from `nu`.
pub fn iv_vec(nu: u64, z: Argument, n: i32) -> (r: Step)
    requires
        is_finite(nu),
    ensures
        r == zbesi_start(nu, z, 1, n),
        r is Call <==> n >= 1,
        r.wf(),
{
    zbesi_vec(nu, z, 1, n)
}

/// Begins the evaluation of the scaled `I` at `n` consecutive orders from
/// `nu`.
pub fn ive_vec(nu: u64, z: Argument, n: i32) -> (r: Step)
    requires
        is_finite(nu),
    ensures
        r == zbesi_start(nu, z, 2, n),
        r is Call <==> n >= 1,
        r.wf(),
{
    zbesi_vec(nu, z, 2, n)
}

/// Begins the evaluation of `I` at `n` consecutive orders from `nu` for a
/// real `x`; the results are the real parts of what the evaluation yields.
pub fn iv_real_vec(nu: u64, z: u64, n: i32) -> (r: Step)
    requires
        is_finite(nu),
    ensures
        r == zbesi_start(nu, real_argument(z), 1, n),
        r is Call <==> n >= 1,
        r.wf(),
{
    zbesi_vec(nu, Argument::from_real(z), 1, n)
}

/// Begins the evaluation of the scaled `I` at `n` consecutive orders from
/// `nu` for a real `x`; the results are the real parts of what the
/// evaluation yields.
pub fn ive_real_vec(nu: u64, z: u64, n: i32) -> (r: Step)
    requires
        is_finite(nu),
    ensures
        r == zbesi_start(nu, real_argument(z), 2, n),
        r is Call <==> n >= 1,
        r.wf(),
{
    zbesi_vec(nu, Argument::from_real(z), 2, n)
}

/// An evaluation is rejected before any kernel call exactly when the mode
/// is not 1 or 2 or the count is below 1; otherwise it starts with one call
/// of the I routine, at the magnitude of the order and never at the signed
/// order, with the argument, the scaling and the count of the caller. A
/// second call follows exactly when the order is negative and not a whole
/// number.
pub proof fn lemma_modified_validation(nu: u64, z: Argument, kode: i32, n: i32)
    ensures
        kode != 1 && kode != 2 <==> zbesi_start(nu, z, kode, n) == Step::Abort(
            Fatal::InputValidation(InvalidInput::Mode),
        ),
        (kode == 1 || kode == 2) && n < 1 <==> zbesi_start(nu, z, kode, n) == Step::Abort(
            Fatal::InputValidation(InvalidInput::Count),
        ),
        (kode == 1 || kode == 2) && n >= 1 <==> zbesi_start(nu, z, kode, n) is Call,
        zbesi_start(nu, z, kode, n) matches Step::Call(pending) ==> {
            &&& pending.request.kernel == Kernel::I
            &&& pending.request.z == z
            &&& pending.request.order == magnitude(nu)
            &&& !sign_bit(pending.request.order)
            &&& scaling_of(kode) == Some(pending.request.scaling)
            &&& pending.request.n == n
            &&& pending.finish == modified_reflection(nu, pending.request.scaling)
            &&& next_step(pending) is Call <==> is_negative(nu) && !denotes_integer(nu)
        },
{
    lemma_sign_only(nu);
}

/// The scalar evaluation begins exactly as the batched one does with a
/// count of one. Every later step is a function of the step before and of
/// the status that the kernel reported, so the two evaluations make the same
/// calls and finish the same way: the scalar result is the first and only
/// element of the batch.
pub proof fn lemma_scalar_is_batch_of_one(nu: u64, z: Argument, kode: i32)
    ensures
        zbesi_scalar_start(nu, z, kode) == zbesi_start(nu, z, kode, 1),
{
}

/// For an order that is a whole number the sign does not matter: the
/// evaluations at `nu` and at `-nu` start with the same step, and so make
/// the same single call and return its values unchanged.
pub proof fn lemma_integer_order_symmetry(nu: u64, z: Argument, kode: i32, n: i32)
    requires
        is_finite(nu),
        denotes_integer(nu),
    ensures
        zbesi_start(negated(nu), z, kode, n) == zbesi_start(nu, z, kode, n),
        zbesi_scalar_start(negated(nu), z, kode) == zbesi_scalar_start(nu, z, kode),
        zbesi_start(nu, z, kode, n) matches Step::Call(pending) ==> next_step(pending)
            == Step::Finish(Reflection::Unchanged),
        zbesi_scalar_start(nu, z, kode) matches Step::Call(pending) ==> next_step(pending)
            == Step::Finish(Reflection::Unchanged),
{
    lemma_sign_only(nu);
    lemma_magnitude_keeps_value(nu);
}

/// For a positive order `nu` that is not a whole number, the evaluation at
/// `-nu` makes the call of the evaluation at `nu`, then asks the K routine
/// for the same orders, argument and scaling, and finishes by adding the
/// sine correction; the evaluation at `nu` itself finishes with the values
/// of its one call unchanged.
pub proof fn lemma_negative_order_reflection(nu: u64, z: Argument, kode: i32, n: i32)
    requires
        is_finite(nu),
        !sign_bit(nu),
        !is_zero(nu),
        !denotes_integer(nu),
        kode == 1 || kode == 2,
        n >= 1,
    ensures
        ({
            let scaling = scaling_of(kode)->0;
            let request = primary_request(nu, z, scaling, n);
            let correction = Reflection::SineCorrection { multiplier: multiplier_for(scaling) };
            let first = Pending { request, finish: correction };
            let second = Pending { request: secondary(request), finish: correction };
            &&& request.order == nu
            &&& zbesi_start(nu, z, kode, n) == Step::Call(
                Pending { request, finish: Reflection::Unchanged },
            )
            &&& next_step(Pending { request, finish: Reflection::Unchanged }) == Step::Finish(
                Reflection::Unchanged,
            )
            &&& zbesi_start(negated(nu), z, kode, n) == Step::Call(first)
            &&& next_step(first) == Step::Call(second)
            &&& second.request == KernelRequest { kernel: Kernel::K, z, order: nu, scaling, n }
            &&& next_step(second) == Step::Finish(correction)
        }),
{
    lemma_sign_only(nu);
    lemma_magnitude_keeps_value(nu);
    assert(magnitude(nu) == nu) by (bit_vector)
        requires
            !(nu & 0x8000_0000_0000_0000 != 0),
    ;
}

} // verus!
