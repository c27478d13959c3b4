//! Entry of the non-maskable interrupt.

use crate::arch::cpu::{Machine, CPU};
use crate::arch::register::{Register, State};
use vstd::prelude::*;

verus! {

impl Machine {
    /// The machine after a non-maskable interrupt is requested: the
    /// interrupt-disable flag is set and the break flag cleared. Nothing is
    /// pushed and the program counter stays.
    pub open spec fn nmi(self) -> Machine {
        Machine {
            reg: Register { p: State { i: true, b: false, ..self.reg.p }, ..self.reg },
            ..self
        }
    }
}

impl CPU {
    /// Takes a request for a non-maskable interrupt.
    pub fn nmi(&mut self)
        ensures
            final(self)@ == old(self)@.nmi(),
    {
        self.register.nmi();
    }
}

} // verus!
