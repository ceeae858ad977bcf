//! A machine loaded from a program image of any length up to the size of
//! the program region.
use vstd::prelude::*;

use crate::cpu::{initial_state, step_outcome, step_result, Cpu, CpuState, Fault};
use crate::mem::{Rom, ROM_SIZE};

verus! {

/// Why a program image could not be loaded.
#[derive(Clone, Copy, Debug, PartialEq, Eq, Structural)]
pub enum LoadError {
    /// The image is longer than the program region.
    RomTooLarge,
}

/// The program region for `image`: the image followed by zeros.
pub open spec fn padded_image(image: Seq<u8>) -> Seq<u8> {
    image + Seq::new((ROM_SIZE - image.len()) as nat, |i: int| 0u8)
}

/// A CPU loaded from a program image.
pub struct Chip8 {
    cpu: Cpu,
}

impl View for Chip8 {
    type V = CpuState;

    closed spec fn view(&self) -> CpuState {
        self.cpu@
    }
}

impl Chip8 {
    pub closed spec fn wf(&self) -> bool {
        self.cpu.wf()
    }

    /// A machine with `rom` at the start of the program region, or
    /// `RomTooLarge` when `rom` does not fit there.
    pub fn new(rom: Vec<u8>) -> (r: Result<Chip8, LoadError>)
        ensures
            match r {
                Ok(c) => rom@.len() <= ROM_SIZE && c.wf() && c@ == initial_state(padded_image(rom@)),
                Err(e) => rom@.len() > ROM_SIZE && e == LoadError::RomTooLarge,
            },
    {
        if rom.len() > ROM_SIZE {
            return Err(LoadError::RomTooLarge);
        }
        let region = Rom::from_image(&rom);
        Ok(Chip8 { cpu: Cpu::from_rom(region) })
    }

    /// One cycle with a freshly drawn random byte, as `Cpu::fetch_decode_execute`.
    pub fn fetch_decode_execute(&mut self) -> (r: Result<(), Fault>)
        requires
            old(self).wf(),
        ensures
            final(self).wf(),
            r == step_result(old(self)@),
            exists|rnd: u8| step_outcome(old(self)@, r, final(self)@, rnd),
    {
        let ghost s0 = self@;
        let r = self.cpu.fetch_decode_execute();
        proof {
            let rnd = choose|rnd: u8| step_outcome(s0, r, self.cpu@, rnd);
            assert(step_outcome(s0, r, self@, rnd));
        }
        r
    }

    /// The CPU.
    pub fn cpu(&self) -> (r: &Cpu)
        requires
            self.wf(),
        ensures
            r.wf(),
            r@ == self@,
    {
        &self.cpu
    }
}

} // verus!
