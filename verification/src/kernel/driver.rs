//! The driver lifecycle contract.

use vstd::prelude::*;

use crate::kernel::result::{KernelError, KernelResult};

verus! {

/// Polymorphic lifecycle contract implemented by each peripheral driver.
pub trait Driver: Sized {
    /// One-time hardware bring-up, run exactly once per boot. A peripheral
    /// with nothing to configure succeeds trivially (the provided default).
    fn init(&mut self) -> (r: KernelResult)
        default_ensures
            r is Ok,
            *final(self) == *old(self),
    {
        Ok(())
    }

    /// Stable diagnostic identifier, used only for failure reporting.
    fn name(&self) -> (n: &'static str);
}

/// Report of a failed DriversInit stage: which driver failed, and how.
/// Boot halts with this report; nothing after the failing driver runs.
#[derive(Clone, Copy, Debug, PartialEq, Eq)]
pub struct DriverFailure {
    /// Position of the failing driver in the fixed registry order.
    pub index: usize,
    /// The failing driver's diagnostic name.
    pub name: &'static str,
    /// The fault its bring-up reported.
    pub error: KernelError,
}

} // verus!
