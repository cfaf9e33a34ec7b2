use amos_rs::amos_errors::{Fatal, InvalidInput, Warning};
use amos_rs::evaluation::{advance, Pending, Reflection, Rotation, Step};
use amos_rs::kernel::{Argument, Kernel, KernelRequest, Scaling};
use amos_rs::zbesh::{hankel1, hankel1e, hankel2, hankel2e, zbesh};

fn point(re: f64, im: f64) -> Argument {
    Argument { re: re.to_bits(), im: im.to_bits() }
}

fn h_call(
    kernel: Kernel,
    z: Argument,
    order: f64,
    scaling: Scaling,
    n: i32,
    finish: Reflection,
) -> Step {
    Step::Call(Pending {
        request: KernelRequest { kernel, z, order: order.to_bits(), scaling, n },
        finish,
    })
}

fn call_of(step: Step) -> Pending {
    match step {
        Step::Call(pending) => pending,
        other => panic!("no call pending: {:?}", other),
    }
}

#[test]
fn hankel_entry_points_select_kind_and_scaling() {
    let z = point(1.0, 1.0);
    let nu = 0.5f64.to_bits();
    assert_eq!(
        hankel1(nu, z, 2),
        h_call(Kernel::H1, z, 0.5, Scaling::Unscaled, 2, Reflection::Unchanged)
    );
    assert_eq!(
        hankel1e(nu, z, 2),
        h_call(Kernel::H1, z, 0.5, Scaling::Scaled, 2, Reflection::Unchanged)
    );
    assert_eq!(
        hankel2(nu, z, 2),
        h_call(Kernel::H2, z, 0.5, Scaling::Unscaled, 2, Reflection::Unchanged)
    );
    assert_eq!(
        hankel2e(nu, z, 2),
        h_call(Kernel::H2, z, 0.5, Scaling::Scaled, 2, Reflection::Unchanged)
    );
    assert_eq!(hankel1(nu, z, 2), zbesh(nu, z, 1, 1, 2));
    assert_eq!(hankel1e(nu, z, 2), zbesh(nu, z, 2, 1, 2));
    assert_eq!(hankel2(nu, z, 2), zbesh(nu, z, 1, 2, 2));
    assert_eq!(hankel2e(nu, z, 2), zbesh(nu, z, 2, 2, 2));
}

#[test]
fn negative_order_of_first_kind_turns_counterclockwise() {
    let z = point(1.0, 1.0);
    let turned = Reflection::PhaseRotation { rotation: Rotation::Counterclockwise };
    let step = hankel1((-0.5f64).to_bits(), z, 1);
    assert_eq!(step, h_call(Kernel::H1, z, 0.5, Scaling::Unscaled, 1, turned));
    assert_eq!(advance(call_of(step), 0, 0).step, Step::Finish(turned));
    assert_eq!(
        hankel1e((-0.5f64).to_bits(), z, 1),
        h_call(Kernel::H1, z, 0.5, Scaling::Scaled, 1, turned)
    );
}

#[test]
fn negative_order_of_second_kind_turns_clockwise() {
    let z = point(1.0, 1.0);
    let turned = Reflection::PhaseRotation { rotation: Rotation::Clockwise };
    let step = hankel2((-0.5f64).to_bits(), z, 1);
    assert_eq!(step, h_call(Kernel::H2, z, 0.5, Scaling::Unscaled, 1, turned));
    assert_eq!(advance(call_of(step), 0, 0).step, Step::Finish(turned));
    assert_eq!(
        hankel2e((-0.5f64).to_bits(), z, 3),
        h_call(Kernel::H2, z, 0.5, Scaling::Scaled, 3, turned)
    );
}

#[test]
fn negative_integer_order_is_turned_too() {
    let z = point(0.25, -4.0);
    let turned = Reflection::PhaseRotation { rotation: Rotation::Counterclockwise };
    assert_eq!(
        hankel1((-2.0f64).to_bits(), z, 2),
        h_call(Kernel::H1, z, 2.0, Scaling::Unscaled, 2, turned)
    );
}

#[test]
fn both_signs_make_the_same_call() {
    let z = point(1.0, 1.0);
    for nu in [0.0f64, 0.5, 1.0, 2.75, 1e-3] {
        let plus = call_of(hankel1(nu.to_bits(), z, 1));
        let minus = call_of(hankel1((-nu).to_bits(), z, 1));
        assert_eq!(plus.request, minus.request);
        assert_eq!(plus.finish, Reflection::Unchanged);
        let plus = call_of(hankel2(nu.to_bits(), z, 1));
        let minus = call_of(hankel2((-nu).to_bits(), z, 1));
        assert_eq!(plus.request, minus.request);
        assert_eq!(plus.finish, Reflection::Unchanged);
    }
}

#[test]
fn zero_order_is_never_turned() {
    let z = point(1.0, 1.0);
    assert_eq!(hankel1((-0.0f64).to_bits(), z, 2), hankel1(0.0f64.to_bits(), z, 2));
    assert_eq!(hankel2((-0.0f64).to_bits(), z, 2), hankel2(0.0f64.to_bits(), z, 2));
}

#[test]
fn hankel_never_makes_a_second_call() {
    let z = point(1.0, 1.0);
    for nu in [-1.5f64, -1.0, 0.0, 0.5, 3.0] {
        for m in [1, 2] {
            for kode in [1, 2] {
                let pending = call_of(zbesh(nu.to_bits(), z, kode, m, 2));
                assert_eq!(advance(pending, 0, 0).step, Step::Finish(pending.finish));
            }
        }
    }
}

#[test]
fn bad_kind_mode_or_count_fails_before_any_call() {
    let z = point(1.0, 1.0);
    let nu = (-0.5f64).to_bits();
    for m in [0, 3, -1] {
        assert_eq!(zbesh(nu, z, 1, m, 1), Step::Abort(Fatal::InputValidation(InvalidInput::Kind)));
        assert_eq!(zbesh(nu, z, 0, m, 0), Step::Abort(Fatal::InputValidation(InvalidInput::Kind)));
    }
    for kode in [0, 3, -2] {
        assert_eq!(zbesh(nu, z, kode, 1, 1), Step::Abort(Fatal::InputValidation(InvalidInput::Mode)));
        assert_eq!(zbesh(nu, z, kode, 2, 0), Step::Abort(Fatal::InputValidation(InvalidInput::Mode)));
    }
    let rejected = Step::Abort(Fatal::InputValidation(InvalidInput::Count));
    for n in [0, -1, i32::MIN] {
        assert_eq!(zbesh(nu, z, 1, 1, n), rejected);
        assert_eq!(hankel1(nu, z, n), rejected);
        assert_eq!(hankel1e(nu, z, n), rejected);
        assert_eq!(hankel2(nu, z, n), rejected);
        assert_eq!(hankel2e(nu, z, n), rejected);
    }
}

#[test]
fn hankel_status_is_interpreted() {
    let z = point(1.0, 1.0);
    let pending = call_of(hankel1((-0.5f64).to_bits(), z, 2));
    let progress = advance(pending, 1, 0);
    assert_eq!(progress.warnings, vec![Warning::Underflow { nz: 1 }]);
    assert_eq!(progress.step, Step::Finish(pending.finish));
    assert_eq!(advance(pending, 0, 1).step, Step::Abort(Fatal::KernelInvariantViolation));
    assert_eq!(advance(pending, 0, 4).warnings, vec![Warning::SeverePrecisionLoss]);
}
