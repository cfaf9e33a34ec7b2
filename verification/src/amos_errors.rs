//! Interpretation of the status pair that a kernel call reports.
//!
//! Every kernel call hands back an underflow count `nz` and a status code
//! `ierr`. This module turns the pair into either the list of warnings that
//! accompany a usable result, or a fatal outcome that ends the evaluation.

use vstd::prelude::*;

verus! {

/// A recoverable anomaly: the result is still handed to the caller.
#[derive(Clone, Copy, Debug, PartialEq, Eq)]
pub enum Warning {
    /// `nz` components of the result were set to zero.
    Underflow { nz: i32 },
    /// No computation was done; the result is typically infinite.
    Overflow,
    /// The computation completed with degraded accuracy.
    PrecisionLoss,
    /// Significance was lost completely; the result is not a number.
    SeverePrecisionLoss,
    /// The algorithm did not meet its termination condition.
    NonConvergence,
}

/// The input of an entry point that was not valid.
#[derive(Clone, Copy, Debug, PartialEq, Eq)]
pub enum InvalidInput {
    /// The kind of Hankel function is not 1 or 2.
    Kind,
    /// The scaling mode is not 1 or 2.
    Mode,
    /// The number of orders is below 1.
    Count,
}

/// An unrecoverable outcome: the evaluation ends without a result.
#[derive(Clone, Copy, Debug, PartialEq, Eq)]
pub enum Fatal {
    /// The caller passed a kind, a scaling mode or a count that is not
    /// allowed. No kernel call was made.
    InputValidation(InvalidInput),
    /// The kernel reported an input error or a status outside its range,
    /// which the validation of the inputs is there to rule out.
    KernelInvariantViolation,
}

/// The status pairs that end an evaluation: a negative underflow count, a
/// status code outside `0..=5`, or the kernel's input error, code 1.
pub open spec fn status_is_fatal(nz: int, ierr: int) -> bool {
    nz < 0 || ierr < 0 || ierr > 5 || ierr == 1
}

/// The warning that belongs to the underflow count, if any.
pub open spec fn underflow_warnings(nz: i32) -> Seq<Warning> {
    if nz > 0 {
        seq![Warning::Underflow { nz }]
    } else {
        Seq::empty()
    }
}

/// The warning that belongs to the status code, if any.
pub open spec fn condition_warnings(ierr: i32) -> Seq<Warning> {
    if ierr == 2 {
        seq![Warning::Overflow]
    } else if ierr == 3 {
        seq![Warning::PrecisionLoss]
    } else if ierr == 4 {
        seq![Warning::SeverePrecisionLoss]
    } else if ierr == 5 {
        seq![Warning::NonConvergence]
    } else {
        Seq::empty()
    }
}

/// The warnings of a status pair that is not fatal: the underflow first,
/// then the one for the status code.
pub open spec fn status_warnings(nz: i32, ierr: i32) -> Seq<Warning> {
    underflow_warnings(nz) + condition_warnings(ierr)
}

/// Interprets the status pair of one kernel call.
pub fn handle_ierr(nz: i32, ierr: i32) -> (r: Result<Vec<Warning>, Fatal>)
    ensures
        r is Err <==> status_is_fatal(nz as int, ierr as int),
        r is Err ==> r == Err::<Vec<Warning>, Fatal>(Fatal::KernelInvariantViolation),
        r matches Ok(w) ==> w@ == status_warnings(nz, ierr),
{
    if nz < 0 || ierr < 0 || ierr > 5 || ierr == 1 {
        return Err(Fatal::KernelInvariantViolation);
    }
    let mut warnings: Vec<Warning> = Vec::new();
    if nz > 0 {
        warnings.push(Warning::Underflow { nz });
    }
    if ierr == 2 {
        warnings.push(Warning::Overflow);
    } else if ierr == 3 {
        warnings.push(Warning::PrecisionLoss);
    } else if ierr == 4 {
        warnings.push(Warning::SeverePrecisionLoss);
    } else if ierr == 5 {
        warnings.push(Warning::NonConvergence);
    }
    assert(warnings@ =~= status_warnings(nz, ierr));
    Ok(warnings)
}

impl Warning {
    /// The text of the warning, without the name of the routine it came from.
    pub open spec fn text(self) -> Seq<char> {
        match self {
            Warning::Underflow { .. } => "Underflow, number of components set to zero"@,
            Warning::Overflow => "Overflow, no computation done (IERR=2)"@,
            Warning::PrecisionLoss => "|z| or nu large, computation done, but loss of significance (IERR=3)"@,
            Warning::SeverePrecisionLoss => "|z| or nu too large, no computation done (IERR=4)"@,
            Warning::NonConvergence => "Algorithm termination condition not met, no computation done (IERR=5)"@,
        }
    }

    /// Describes the warning in words.
    pub fn describe(&self) -> (s: &'static str)
        ensures
            s@ == self.text(),
    {
        match self {
            Warning::Underflow { .. } => "Underflow, number of components set to zero",
            Warning::Overflow => "Overflow, no computation done (IERR=2)",
            Warning::PrecisionLoss => "|z| or nu large, computation done, but loss of significance (IERR=3)",
            Warning::SeverePrecisionLoss => "|z| or nu too large, no computation done (IERR=4)",
            Warning::NonConvergence => "Algorithm termination condition not met, no computation done (IERR=5)",
        }
    }
}

} // verus!
