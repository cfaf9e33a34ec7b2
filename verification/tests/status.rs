use amos_rs::amos_errors::{handle_ierr, Fatal, Warning};

#[test]
fn it_works() {
    let result = 2 + 2;
    assert_eq!(result, 4);
}

#[test]
fn normal_return_has_no_diagnostics() {
    assert_eq!(handle_ierr(0, 0), Ok(vec![]));
}

#[test]
fn underflow_alone_is_one_warning() {
    assert_eq!(handle_ierr(3, 0), Ok(vec![Warning::Underflow { nz: 3 }]));
    assert_eq!(handle_ierr(1, 0), Ok(vec![Warning::Underflow { nz: 1 }]));
}

#[test]
fn overflow_is_exactly_one_warning_naming_overflow() {
    let warnings = handle_ierr(0, 2).unwrap();
    assert_eq!(warnings, vec![Warning::Overflow]);
    assert_eq!(warnings.len(), 1);
    assert!(warnings[0].describe().contains("Overflow"));
}

#[test]
fn each_recoverable_code_has_its_warning() {
    assert_eq!(handle_ierr(0, 3), Ok(vec![Warning::PrecisionLoss]));
    assert_eq!(handle_ierr(0, 4), Ok(vec![Warning::SeverePrecisionLoss]));
    assert_eq!(handle_ierr(0, 5), Ok(vec![Warning::NonConvergence]));
}

#[test]
fn underflow_comes_before_the_code_warning() {
    assert_eq!(
        handle_ierr(2, 3),
        Ok(vec![Warning::Underflow { nz: 2 }, Warning::PrecisionLoss])
    );
    assert_eq!(
        handle_ierr(7, 2),
        Ok(vec![Warning::Underflow { nz: 7 }, Warning::Overflow])
    );
}

#[test]
fn input_error_code_is_fatal() {
    assert_eq!(handle_ierr(0, 1), Err(Fatal::KernelInvariantViolation));
    assert_eq!(handle_ierr(4, 1), Err(Fatal::KernelInvariantViolation));
}

#[test]
fn status_out_of_range_is_fatal() {
    assert_eq!(handle_ierr(-1, 0), Err(Fatal::KernelInvariantViolation));
    assert_eq!(handle_ierr(0, -1), Err(Fatal::KernelInvariantViolation));
    assert_eq!(handle_ierr(0, 6), Err(Fatal::KernelInvariantViolation));
    assert_eq!(handle_ierr(-3, 2), Err(Fatal::KernelInvariantViolation));
    assert_eq!(handle_ierr(i32::MIN, i32::MAX), Err(Fatal::KernelInvariantViolation));
}

#[test]
fn warning_texts() {
    assert_eq!(
        Warning::Underflow { nz: 2 }.describe(),
        "Underflow, number of components set to zero"
    );
    assert_eq!(Warning::Overflow.describe(), "Overflow, no computation done (IERR=2)");
    assert_eq!(
        Warning::PrecisionLoss.describe(),
        "|z| or nu large, computation done, but loss of significance (IERR=3)"
    );
    assert_eq!(
        Warning::SeverePrecisionLoss.describe(),
        "|z| or nu too large, no computation done (IERR=4)"
    );
    assert_eq!(
        Warning::NonConvergence.describe(),
        "Algorithm termination condition not met, no computation done (IERR=5)"
    );
}
