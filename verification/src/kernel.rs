//! The interface of the numeric kernel, as the library sees it.
//!
//! The kernel computes Bessel functions of non-negative order. The library
//! decides which of its routines is called and with what; the caller makes
//! the call. Real numbers cross this interface as binary64 bit patterns.

use crate::order::{is_finite, sign_bit};
use vstd::prelude::*;

verus! {

/// Whether a routine returns the plain value or the exponentially scaled one.
#[derive(Clone, Copy, Debug, PartialEq, Eq)]
pub enum Scaling {
    /// The kernel's mode 1.
    Unscaled,
    /// The kernel's mode 2.
    Scaled,
}

/// The routines of the kernel.
#[derive(Clone, Copy, Debug, PartialEq, Eq)]
pub enum Kernel {
    /// Modified Bessel function of the first kind.
    I,
    /// Modified Bessel function of the second kind.
    K,
    /// Hankel function of the first kind.
    H1,
    /// Hankel function of the second kind.
    H2,
}

/// A complex argument: the bit patterns of its real and imaginary parts.
#[derive(Clone, Copy, Debug, PartialEq, Eq)]
pub struct Argument {
    pub re: u64,
    pub im: u64,
}

/// One call of a kernel routine: `n` consecutive orders that start at `order`.
#[derive(Clone, Copy, Debug, PartialEq, Eq)]
pub struct KernelRequest {
    pub kernel: Kernel,
    pub z: Argument,
    pub order: u64,
    pub scaling: Scaling,
    pub n: i32,
}

/// The scaling that a mode number selects, if it selects one.
pub open spec fn scaling_of(kode: i32) -> Option<Scaling> {
    if kode == 1 {
        Some(Scaling::Unscaled)
    } else if kode == 2 {
        Some(Scaling::Scaled)
    } else {
        None
    }
}

/// The Hankel routine that a kind number selects, if it selects one.
pub open spec fn hankel_of(m: i32) -> Option<Kernel> {
    if m == 1 {
        Some(Kernel::H1)
    } else if m == 2 {
        Some(Kernel::H2)
    } else {
        None
    }
}

/// The argument on the real axis at `x`: its imaginary part is `+0.0`.
pub open spec fn real_argument(x: u64) -> Argument {
    Argument { re: x, im: 0 }
}

impl Scaling {
    /// The mode number that the kernel knows this scaling by.
    pub open spec fn spec_kode(self) -> i32 {
        match self {
            Scaling::Unscaled => 1,
            Scaling::Scaled => 2,
        }
    }

    /// Reads a mode number: 1 is unscaled, 2 is scaled, nothing else is valid.
    pub fn from_kode(kode: i32) -> (r: Option<Scaling>)
        ensures
            r == scaling_of(kode),
    {
        if kode == 1 {
            Some(Scaling::Unscaled)
        } else if kode == 2 {
            Some(Scaling::Scaled)
        } else {
            None
        }
    }

    /// The mode number to hand to the kernel.
    pub fn kode(&self) -> (r: i32)
        ensures
            r == self.spec_kode(),
            scaling_of(r) == Some(*self),
    {
        match self {
            Scaling::Unscaled => 1,
            Scaling::Scaled => 2,
        }
    }
}

impl Kernel {
    /// The name of the routine, as it appears in diagnostics.
    pub open spec fn spec_name(self) -> Seq<char> {
        match self {
            Kernel::I => "zbesi"@,
            Kernel::K => "zbesk"@,
            Kernel::H1 | Kernel::H2 => "zbesh"@,
        }
    }

    /// The name of the routine, to go with the warnings of a call.
    pub fn name(&self) -> (r: &'static str)
        ensures
            r@ == self.spec_name(),
    {
        match self {
            Kernel::I => "zbesi",
            Kernel::K => "zbesk",
            Kernel::H1 | Kernel::H2 => "zbesh",
        }
    }

    /// Reads a Hankel kind number: 1 is the first kind, 2 the second,
    /// nothing else is valid.
    pub fn from_m(m: i32) -> (r: Option<Kernel>)
        ensures
            r == hankel_of(m),
    {
        if m == 1 {
            Some(Kernel::H1)
        } else if m == 2 {
            Some(Kernel::H2)
        } else {
            None
        }
    }
}

impl Argument {
    /// The argument on the real axis at `x`.
    pub fn from_real(x: u64) -> (r: Argument)
        ensures
            r == real_argument(x),
    {
        Argument { re: x, im: 0 }
    }
}

impl KernelRequest {
    /// What the kernel accepts: at least one order, starting at a finite
    /// order that is not negative.
    pub open spec fn wf(self) -> bool {
        &&& self.n >= 1
        &&& is_finite(self.order)
        &&& !sign_bit(self.order)
    }
}

} // verus!
