//! The CPU: registers, stack, timers, keypad, memory and display, and the
//! fetch-decode-execute step over them.
use vstd::prelude::*;

use crate::display::{
    blank, collides, drawn, lemma_draw_twice_restores, sprite_mask, Display, DISPLAY_SIZE,
};
use crate::instruction::{decode, decode_spec, operands_in_range, Instruction};
use crate::mem::{initial_memory, word_at, writable, Memory, Rom, MEM_SIZE, RESERVED_MEMORY_SIZE, ROM_SIZE};

verus! {

/// Depth of the return-address stack.
pub const STACK_SIZE: usize = 16;

/// Number of general-purpose registers, and of keys.
pub const NUM_REGS: usize = 16;

/// Bytes per font glyph.
pub const SPRITE_SIZE: u16 = 5;

/// Index of the flag register `VF`.
pub const VF: usize = 15;

/// The whole machine state as mathematical values.
pub struct CpuState {
    pub mem: Seq<u8>,
    /// Return addresses, the most recent last.
    pub stack: Seq<u16>,
    pub v: Seq<u8>,
    pub i: u16,
    pub delay: u8,
    pub sound: u8,
    pub pc: u16,
    pub keypad: Seq<bool>,
    pub display: Seq<u8>,
    pub draw: bool,
    pub beep: bool,
}

/// Why a step could not be carried out. The state is then left unchanged.
#[derive(Clone, Copy, Debug, PartialEq, Eq, Structural)]
pub enum Fault {
    /// A call with all stack slots in use.
    StackOverflow,
    /// A return with an empty stack.
    StackUnderflow,
    /// A store into the read-only region below the program region.
    ReservedWrite,
    /// A fetch, load or store beyond the end of memory.
    OutOfRange,
}

/// How the program counter moves after an instruction.
#[derive(Clone, Copy, Debug, PartialEq, Eq, Structural)]
pub enum ProgramCounter {
    /// To the next instruction.
    Next,
    /// Over the next instruction.
    Skip,
    /// To the given address.
    Address(u16),
}

pub open spec fn skip_if_spec(cond: bool) -> ProgramCounter {
    if cond {
        ProgramCounter::Skip
    } else {
        ProgramCounter::Next
    }
}

pub open spec fn next_pc(pc: u16, flow: ProgramCounter) -> u16 {
    match flow {
        ProgramCounter::Next => (pc + 2) as u16,
        ProgramCounter::Skip => (pc + 4) as u16,
        ProgramCounter::Address(a) => a,
    }
}

pub open spec fn flag(b: bool) -> u8 {
    if b {
        1
    } else {
        0
    }
}

/// The lowest pressed key at index `k` or above, or 16 if there is none.
pub open spec fn lowest_pressed_from(keys: Seq<bool>, k: int) -> int
    decreases 16 - k,
{
    if k >= 16 {
        16
    } else if keys[k] {
        k
    } else {
        lowest_pressed_from(keys, k + 1)
    }
}

/// The lowest pressed key, or 16 if no key is pressed.
pub open spec fn lowest_pressed(keys: Seq<bool>) -> int {
    lowest_pressed_from(keys, 0)
}

/// Whether the key named by register value `k` is pressed; values that
/// name no key count as not pressed.
pub open spec fn key_down(s: CpuState, k: u8) -> bool {
    k < 16 && s.keypad[k as int]
}

pub open spec fn with_v(s: CpuState, x: int, val: u8) -> CpuState {
    CpuState { v: s.v.update(x, val), ..s }
}

/// The decimal digits of `b`: hundreds, tens, units.
pub open spec fn bcd(b: u8) -> Seq<u8> {
    seq![b / 100, (b % 100) / 10, b % 10]
}

/// `m` with `bytes` written from `at` on.
pub open spec fn store(m: Seq<u8>, at: int, bytes: Seq<u8>) -> Seq<u8> {
    Seq::new(m.len(), |a: int| if at <= a < at + bytes.len() { bytes[a - at] } else { m[a] })
}

/// The `n` sprite rows that `Dxyn` draws.
pub open spec fn sprite_rows(s: CpuState, n: int) -> Seq<u8> {
    Seq::new(n as nat, |r: int| s.mem[s.i + r])
}

/// The fault that executing `ins` in `s` runs into, if any.
pub open spec fn fault_spec(s: CpuState, ins: Instruction) -> Option<Fault> {
    match ins {
        Instruction::Ret => if s.stack.len() == 0 {
            Some(Fault::StackUnderflow)
        } else {
            None
        },
        Instruction::Call { .. } => if s.stack.len() >= STACK_SIZE {
            Some(Fault::StackOverflow)
        } else {
            None
        },
        Instruction::Drw { n, .. } => if n > 0 && s.i + n > MEM_SIZE {
            Some(Fault::OutOfRange)
        } else {
            None
        },
        Instruction::LdB { .. } => if s.i + 3 > MEM_SIZE {
            Some(Fault::OutOfRange)
        } else if !writable(s.i as int) {
            Some(Fault::ReservedWrite)
        } else {
            None
        },
        Instruction::StoreRegs { x } => if s.i + x + 1 > MEM_SIZE {
            Some(Fault::OutOfRange)
        } else if !writable(s.i as int) {
            Some(Fault::ReservedWrite)
        } else {
            None
        },
        Instruction::LoadRegs { x } => if s.i + x + 1 > MEM_SIZE {
            Some(Fault::OutOfRange)
        } else {
            None
        },
        _ => None,
    }
}

/// Where `ins` sends the program counter.
pub open spec fn flow_spec(s: CpuState, ins: Instruction) -> ProgramCounter {
    match ins {
        Instruction::Ret => ProgramCounter::Address(s.stack.last()),
        Instruction::Jp { addr } => ProgramCounter::Address(addr),
        Instruction::Call { addr } => ProgramCounter::Address(addr),
        Instruction::SeByte { x, kk } => skip_if_spec(s.v[x as int] == kk),
        Instruction::SneByte { x, kk } => skip_if_spec(s.v[x as int] != kk),
        Instruction::SeReg { x, y } => skip_if_spec(s.v[x as int] == s.v[y as int]),
        Instruction::SneReg { x, y } => skip_if_spec(s.v[x as int] != s.v[y as int]),
        Instruction::JpV0 { addr } => ProgramCounter::Address((addr + s.v[0]) as u16),
        Instruction::Skp { x } => skip_if_spec(key_down(s, s.v[x as int])),
        Instruction::Sknp { x } => skip_if_spec(!key_down(s, s.v[x as int])),
        Instruction::LdVxK { .. } => if lowest_pressed(s.keypad) < 16 {
            ProgramCounter::Next
        } else {
            ProgramCounter::Address(s.pc)
        },
        _ => ProgramCounter::Next,
    }
}

/// What `ins` does to the state apart from the program counter; `rnd` is
/// the random byte that `Cxkk` draws.
pub open spec fn apply_spec(s: CpuState, ins: Instruction, rnd: u8) -> CpuState {
    match ins {
        Instruction::Cls => CpuState { display: blank(), draw: true, ..s },
        Instruction::Ret => CpuState { stack: s.stack.drop_last(), ..s },
        Instruction::Call { .. } => CpuState { stack: s.stack.push((s.pc + 2) as u16), ..s },
        Instruction::LdByte { x, kk } => with_v(s, x as int, kk),
        Instruction::AddByte { x, kk } => with_v(
            s,
            x as int,
            ((s.v[x as int] + kk) % 256) as u8,
        ),
        Instruction::LdReg { x, y } => with_v(s, x as int, s.v[y as int]),
        Instruction::Or { x, y } => with_v(s, x as int, s.v[x as int] | s.v[y as int]),
        Instruction::And { x, y } => with_v(s, x as int, s.v[x as int] & s.v[y as int]),
        Instruction::Xor { x, y } => with_v(s, x as int, s.v[x as int] ^ s.v[y as int]),
        Instruction::AddReg { x, y } => {
            let sum = s.v[x as int] + s.v[y as int];
            with_v(with_v(s, x as int, (sum % 256) as u8), VF as int, flag(sum > 255))
        },
        Instruction::Sub { x, y } => {
            let (a, b) = (s.v[x as int], s.v[y as int]);
            with_v(with_v(s, x as int, ((a - b + 256) % 256) as u8), VF as int, flag(a >= b))
        },
        Instruction::Shr { x } => {
            let a = s.v[x as int];
            with_v(with_v(s, VF as int, a & 1), x as int, a >> 1u8)
        },
        Instruction::Subn { x, y } => {
            let (a, b) = (s.v[x as int], s.v[y as int]);
            with_v(with_v(s, x as int, ((b - a + 256) % 256) as u8), VF as int, flag(b >= a))
        },
        Instruction::Shl { x } => {
            let a = s.v[x as int];
            with_v(with_v(s, VF as int, (a >> 7u8) & 1), x as int, ((a * 2) % 256) as u8)
        },
        Instruction::LdI { addr } => CpuState { i: addr, ..s },
        Instruction::Rnd { x, kk } => with_v(s, x as int, kk & rnd),
        Instruction::Drw { x, y, n } => {
            let sprite = sprite_rows(s, n as int);
            let (x0, y0) = (s.v[x as int] as int, s.v[y as int] as int);
            CpuState {
                display: drawn(s.display, sprite, x0, y0),
                draw: true,
                ..with_v(s, VF as int, flag(collides(s.display, sprite, x0, y0)))
            }
        },
        Instruction::LdVxDt { x } => with_v(s, x as int, s.delay),
        Instruction::LdVxK { x } => if lowest_pressed(s.keypad) < 16 {
            with_v(s, x as int, lowest_pressed(s.keypad) as u8)
        } else {
            s
        },
        Instruction::LdDtVx { x } => CpuState { delay: s.v[x as int], ..s },
        Instruction::LdStVx { x } => CpuState { sound: s.v[x as int], ..s },
        Instruction::AddI { x } => {
            let sum = s.i + s.v[x as int];
            CpuState { i: (sum % 0x10000) as u16, ..with_v(s, VF as int, flag(sum > 0xFFF)) }
        },
        Instruction::LdF { x } => CpuState { i: (s.v[x as int] * SPRITE_SIZE) as u16, ..s },
        Instruction::LdB { x } => CpuState { mem: store(s.mem, s.i as int, bcd(s.v[x as int])), ..s },
        Instruction::StoreRegs { x } => CpuState {
            mem: store(s.mem, s.i as int, s.v.subrange(0, x + 1)),
            ..s
        },
        Instruction::LoadRegs { x } => CpuState {
            v: Seq::new(16, |r: int| if r <= x { s.mem[s.i + r] } else { s.v[r] }),
            ..s
        },
        _ => s,
    }
}

/// The state after executing `ins`, program counter included.
pub open spec fn execute_spec(s: CpuState, ins: Instruction, rnd: u8) -> CpuState {
    CpuState { pc: next_pc(s.pc, flow_spec(s, ins)), ..apply_spec(s, ins, rnd) }
}

/// The timers after one cycle: each counts down by one unless at zero, and
/// the tone sounds while the sound timer is still positive.
pub open spec fn tick_spec(s: CpuState) -> CpuState {
    let delay = if s.delay > 0 { (s.delay - 1) as u8 } else { 0u8 };
    let sound = if s.sound > 0 { (s.sound - 1) as u8 } else { 0u8 };
    CpuState { delay, sound, beep: sound > 0, ..s }
}

/// Whether the two bytes at the program counter lie in memory.
pub open spec fn can_fetch(s: CpuState) -> bool {
    s.pc + 1 < MEM_SIZE
}

/// The opcode at the program counter.
pub open spec fn opcode_at_pc(s: CpuState) -> u16 {
    word_at(s.mem, s.pc as int)
}

/// The fault that stops the next cycle from `s`, if any; it does not
/// depend on the random byte.
pub open spec fn step_fault(s: CpuState) -> Option<Fault> {
    if !can_fetch(s) {
        Some(Fault::OutOfRange)
    } else {
        fault_spec(s, decode_spec(opcode_at_pc(s)))
    }
}

/// What a cycle from `s` returns.
pub open spec fn step_result(s: CpuState) -> Result<(), Fault> {
    match step_fault(s) {
        Some(f) => Err(f),
        None => Ok(()),
    }
}

/// One fetch-decode-execute-tick cycle, or the fault that stops it.
pub open spec fn step_spec(s: CpuState, rnd: u8) -> Result<CpuState, Fault> {
    match step_fault(s) {
        Some(f) => Err(f),
        None => Ok(tick_spec(execute_spec(s, decode_spec(opcode_at_pc(s)), rnd))),
    }
}

/// `r` and `t` are the result and the state that a step from `s` with
/// random byte `rnd` gives: on a fault the state is left as it was.
pub open spec fn step_outcome(s: CpuState, r: Result<(), Fault>, t: CpuState, rnd: u8) -> bool {
    match step_spec(s, rnd) {
        Ok(n) => r is Ok && t == n,
        Err(f) => r == Err::<(), Fault>(f) && t == s,
    }
}

/// The state of a freshly loaded machine.
pub open spec fn initial_state(rom: Seq<u8>) -> CpuState {
    CpuState {
        mem: initial_memory(rom),
        stack: Seq::empty(),
        v: Seq::new(16, |r: int| 0u8),
        i: 0,
        delay: 0,
        sound: 0,
        pc: RESERVED_MEMORY_SIZE as u16,
        keypad: Seq::new(16, |k: int| false),
        display: blank(),
        draw: false,
        beep: false,
    }
}


/// The CPU with its memory, display and keypad.
pub struct Cpu {
    mem: Memory,
    stack: Vec<u16>,
    v_reg: Vec<u8>,
    i: u16,
    delay_t: u8,
    sound_t: u8,
    pc: u16,
    keypad: Vec<bool>,
    display: Display,
    draw: bool,
    beep: bool,
}

impl View for Cpu {
    type V = CpuState;

    closed spec fn view(&self) -> CpuState {
        CpuState {
            mem: self.mem@,
            stack: self.stack@,
            v: self.v_reg@,
            i: self.i,
            delay: self.delay_t,
            sound: self.sound_t,
            pc: self.pc,
            keypad: self.keypad@,
            display: self.display@,
            draw: self.draw,
            beep: self.beep,
        }
    }
}

impl ProgramCounter {
    /// `Skip` if `cond` holds, `Next` otherwise.
    pub fn skip_if(cond: bool) -> (r: ProgramCounter)
        ensures
            r == skip_if_spec(cond),
    {
        if cond {
            ProgramCounter::Skip
        } else {
            ProgramCounter::Next
        }
    }
}

impl Cpu {
    /// Sizes of memory, registers, keypad and display, and the stack bound.
    pub open spec fn wf_state(s: CpuState) -> bool {
        &&& s.mem.len() == MEM_SIZE
        &&& s.stack.len() <= STACK_SIZE
        &&& s.v.len() == NUM_REGS
        &&& s.keypad.len() == NUM_REGS
        &&& s.display.len() == crate::display::DISPLAY_SIZE
        &&& forall|p: int| 0 <= p < s.display.len() ==> #[trigger] s.display[p] <= 1
    }

    pub closed spec fn wf(&self) -> bool {
        &&& self.mem.wf()
        &&& self.display.wf()
        &&& Self::wf_state(self@)
    }

    /// A machine whose program region holds `rom`, with the program counter
    /// at its start and everything else cleared.
    pub fn new(rom: [u8; ROM_SIZE]) -> (r: Cpu)
        ensures
            r.wf(),
            r@ == initial_state(rom@),
    {
        Self::from_rom(Rom::new(rom))
    }

    /// A machine loaded with the given program region.
    pub fn from_rom(rom: Rom) -> (r: Cpu)
        requires
            rom.wf(),
        ensures
            r.wf(),
            r@ == initial_state(rom@),
    {
        let mut v_reg: Vec<u8> = Vec::new();
        let mut keypad: Vec<bool> = Vec::new();
        let mut k: usize = 0;
        while k < NUM_REGS
            invariant
                k <= NUM_REGS,
                v_reg@ == Seq::new(k as nat, |r: int| 0u8),
                keypad@ == Seq::new(k as nat, |r: int| false),
            decreases NUM_REGS - k,
        {
            v_reg.push(0u8);
            keypad.push(false);
            k += 1;
            assert(v_reg@ =~= Seq::new(k as nat, |r: int| 0u8));
            assert(keypad@ =~= Seq::new(k as nat, |r: int| false));
        }
        let stack: Vec<u16> = Vec::new();
        let r = Cpu {
            mem: Memory::new(rom),
            stack,
            v_reg,
            i: 0,
            delay_t: 0,
            sound_t: 0,
            pc: RESERVED_MEMORY_SIZE as u16,
            keypad,
            display: Display::new(),
            draw: false,
            beep: false,
        };
        assert(r@.stack =~= Seq::<u16>::empty());
        r
    }

    fn set_v(&mut self, x: usize, val: u8)
        requires
            old(self).wf(),
            x < NUM_REGS,
        ensures
            final(self).wf(),
            final(self)@ == with_v(old(self)@, x as int, val),
    {
        self.v_reg.set(x, val);
    }

    // 00E0 - CLS
    fn execute_cls(&mut self) -> (r: ProgramCounter)
        requires
            old(self).wf(),
        ensures
            final(self).wf(),
            final(self)@ == apply_spec(old(self)@, Instruction::Cls, 0),
            r == flow_spec(old(self)@, Instruction::Cls),
    {
        self.display.clear();
        self.draw = true;
        ProgramCounter::Next
    }

    // 00EE - RET
    fn execute_ret(&mut self) -> (r: ProgramCounter)
        requires
            old(self).wf(),
            fault_spec(old(self)@, Instruction::Ret) is None,
        ensures
            final(self).wf(),
            final(self)@ == apply_spec(old(self)@, Instruction::Ret, 0),
            r == flow_spec(old(self)@, Instruction::Ret),
    {
        let addr = self.stack.pop().unwrap();
        ProgramCounter::Address(addr)
    }

    // 1nnn - JP addr
    fn execute_jp_addr(&mut self, addr: u16) -> (r: ProgramCounter)
        requires
            old(self).wf(),
        ensures
            final(self).wf(),
            final(self)@ == apply_spec(old(self)@, Instruction::Jp { addr }, 0),
            r == flow_spec(old(self)@, Instruction::Jp { addr }),
    {
        ProgramCounter::Address(addr)
    }

    // 2nnn - CALL addr
    fn execute_call_addr(&mut self, addr: u16) -> (r: ProgramCounter)
        requires
            old(self).wf(),
            can_fetch(old(self)@),
            fault_spec(old(self)@, Instruction::Call { addr }) is None,
        ensures
            final(self).wf(),
            final(self)@ == apply_spec(old(self)@, Instruction::Call { addr }, 0),
            r == flow_spec(old(self)@, Instruction::Call { addr }),
    {
        self.stack.push(self.pc + 2);
        ProgramCounter::Address(addr)
    }

    // 3xkk - SE Vx, byte
    fn execute_se_vx_kk(&mut self, x: usize, kk: u8) -> (r: ProgramCounter)
        requires
            old(self).wf(),
            x < NUM_REGS,
        ensures
            final(self).wf(),
            final(self)@ == apply_spec(old(self)@, Instruction::SeByte { x, kk }, 0),
            r == flow_spec(old(self)@, Instruction::SeByte { x, kk }),
    {
        ProgramCounter::skip_if(self.v_reg[x] == kk)
    }

    // 4xkk - SNE Vx, byte
    fn execute_sne_vx_kk(&mut self, x: usize, kk: u8) -> (r: ProgramCounter)
        requires
            old(self).wf(),
            x < NUM_REGS,
        ensures
            final(self).wf(),
            final(self)@ == apply_spec(old(self)@, Instruction::SneByte { x, kk }, 0),
            r == flow_spec(old(self)@, Instruction::SneByte { x, kk }),
    {
        ProgramCounter::skip_if(self.v_reg[x] != kk)
    }

    // 5xy0 - SE Vx, Vy
    fn execute_se_vx_vy(&mut self, x: usize, y: usize) -> (r: ProgramCounter)
        requires
            old(self).wf(),
            x < NUM_REGS,
            y < NUM_REGS,
        ensures
            final(self).wf(),
            final(self)@ == apply_spec(old(self)@, Instruction::SeReg { x, y }, 0),
            r == flow_spec(old(self)@, Instruction::SeReg { x, y }),
    {
        ProgramCounter::skip_if(self.v_reg[x] == self.v_reg[y])
    }

    // 6xkk - LD Vx, byte
    fn execute_ld_vx_kk(&mut self, x: usize, kk: u8) -> (r: ProgramCounter)
        requires
            old(self).wf(),
            x < NUM_REGS,
        ensures
            final(self).wf(),
            final(self)@ == apply_spec(old(self)@, Instruction::LdByte { x, kk }, 0),
            r == flow_spec(old(self)@, Instruction::LdByte { x, kk }),
    {
        self.set_v(x, kk);
        ProgramCounter::Next
    }

    // 7xkk - ADD Vx, byte
    fn execute_add_vx_kk(&mut self, x: usize, kk: u8) -> (r: ProgramCounter)
        requires
            old(self).wf(),
            x < NUM_REGS,
        ensures
            final(self).wf(),
            final(self)@ == apply_spec(old(self)@, Instruction::AddByte { x, kk }, 0),
            r == flow_spec(old(self)@, Instruction::AddByte { x, kk }),
    {
        let sum: u16 = self.v_reg[x] as u16 + kk as u16;
        self.set_v(x, (sum % 256) as u8);
        ProgramCounter::Next
    }

    // 8xy0 - LD Vx, Vy
    fn execute_ld_vx_vy(&mut self, x: usize, y: usize) -> (r: ProgramCounter)
        requires
            old(self).wf(),
            x < NUM_REGS,
            y < NUM_REGS,
        ensures
            final(self).wf(),
            final(self)@ == apply_spec(old(self)@, Instruction::LdReg { x, y }, 0),
            r == flow_spec(old(self)@, Instruction::LdReg { x, y }),
    {
        let val = self.v_reg[y];
        self.set_v(x, val);
        ProgramCounter::Next
    }

    // 8xy1 - OR Vx, Vy
    fn execute_or_vx_vy(&mut self, x: usize, y: usize) -> (r: ProgramCounter)
        requires
            old(self).wf(),
            x < NUM_REGS,
            y < NUM_REGS,
        ensures
            final(self).wf(),
            final(self)@ == apply_spec(old(self)@, Instruction::Or { x, y }, 0),
            r == flow_spec(old(self)@, Instruction::Or { x, y }),
    {
        let val = self.v_reg[x] | self.v_reg[y];
        self.set_v(x, val);
        ProgramCounter::Next
    }

    // 8xy2 - AND Vx, Vy
    fn execute_and_vx_vy(&mut self, x: usize, y: usize) -> (r: ProgramCounter)
        requires
            old(self).wf(),
            x < NUM_REGS,
            y < NUM_REGS,
        ensures
            final(self).wf(),
            final(self)@ == apply_spec(old(self)@, Instruction::And { x, y }, 0),
            r == flow_spec(old(self)@, Instruction::And { x, y }),
    {
        let val = self.v_reg[x] & self.v_reg[y];
        self.set_v(x, val);
        ProgramCounter::Next
    }

    // 8xy3 - XOR Vx, Vy
    fn execute_xor_vx_vy(&mut self, x: usize, y: usize) -> (r: ProgramCounter)
        requires
            old(self).wf(),
            x < NUM_REGS,
            y < NUM_REGS,
        ensures
            final(self).wf(),
            final(self)@ == apply_spec(old(self)@, Instruction::Xor { x, y }, 0),
            r == flow_spec(old(self)@, Instruction::Xor { x, y }),
    {
        let val = self.v_reg[x] ^ self.v_reg[y];
        self.set_v(x, val);
        ProgramCounter::Next
    }

    // 8xy4 - ADD Vx, Vy
    fn execute_add_vx_vy(&mut self, x: usize, y: usize) -> (r: ProgramCounter)
        requires
            old(self).wf(),
            x < NUM_REGS,
            y < NUM_REGS,
        ensures
            final(self).wf(),
            final(self)@ == apply_spec(old(self)@, Instruction::AddReg { x, y }, 0),
            r == flow_spec(old(self)@, Instruction::AddReg { x, y }),
    {
        let sum: u16 = self.v_reg[x] as u16 + self.v_reg[y] as u16;
        self.set_v(x, (sum % 256) as u8);
        self.set_v(VF, if sum > 255 { 1 } else { 0 });
        ProgramCounter::Next
    }

    // 8xy5 - SUB Vx, Vy
    fn execute_sub_vx_vy(&mut self, x: usize, y: usize) -> (r: ProgramCounter)
        requires
            old(self).wf(),
            x < NUM_REGS,
            y < NUM_REGS,
        ensures
            final(self).wf(),
            final(self)@ == apply_spec(old(self)@, Instruction::Sub { x, y }, 0),
            r == flow_spec(old(self)@, Instruction::Sub { x, y }),
    {
        let a = self.v_reg[x];
        let b = self.v_reg[y];
        let diff: u16 = (a as u16 + 256 - b as u16) % 256;
        self.set_v(x, diff as u8);
        self.set_v(VF, if a >= b { 1 } else { 0 });
        ProgramCounter::Next
    }

    // 8xy6 - SHR Vx
    fn execute_shr_vx(&mut self, x: usize) -> (r: ProgramCounter)
        requires
            old(self).wf(),
            x < NUM_REGS,
        ensures
            final(self).wf(),
            final(self)@ == apply_spec(old(self)@, Instruction::Shr { x }, 0),
            r == flow_spec(old(self)@, Instruction::Shr { x }),
    {
        let a = self.v_reg[x];
        self.set_v(VF, a & 1);
        self.set_v(x, a >> 1u8);
        ProgramCounter::Next
    }

    // 8xy7 - SUBN Vx, Vy
    fn execute_subn_vx_vy(&mut self, x: usize, y: usize) -> (r: ProgramCounter)
        requires
            old(self).wf(),
            x < NUM_REGS,
            y < NUM_REGS,
        ensures
            final(self).wf(),
            final(self)@ == apply_spec(old(self)@, Instruction::Subn { x, y }, 0),
            r == flow_spec(old(self)@, Instruction::Subn { x, y }),
    {
        let a = self.v_reg[x];
        let b = self.v_reg[y];
        let diff: u16 = (b as u16 + 256 - a as u16) % 256;
        self.set_v(x, diff as u8);
        self.set_v(VF, if b >= a { 1 } else { 0 });
        ProgramCounter::Next
    }

    // 8xyE - SHL Vx
    fn execute_shl_vx(&mut self, x: usize) -> (r: ProgramCounter)
        requires
            old(self).wf(),
            x < NUM_REGS,
        ensures
            final(self).wf(),
            final(self)@ == apply_spec(old(self)@, Instruction::Shl { x }, 0),
            r == flow_spec(old(self)@, Instruction::Shl { x }),
    {
        let a = self.v_reg[x];
        self.set_v(VF, (a >> 7u8) & 1);
        self.set_v(x, ((a as u16 * 2) % 256) as u8);
        ProgramCounter::Next
    }

    // 9xy0 - SNE Vx, Vy
    fn execute_sne_vx_vy(&mut self, x: usize, y: usize) -> (r: ProgramCounter)
        requires
            old(self).wf(),
            x < NUM_REGS,
            y < NUM_REGS,
        ensures
            final(self).wf(),
            final(self)@ == apply_spec(old(self)@, Instruction::SneReg { x, y }, 0),
            r == flow_spec(old(self)@, Instruction::SneReg { x, y }),
    {
        ProgramCounter::skip_if(self.v_reg[x] != self.v_reg[y])
    }

    // Annn - LD I, addr
    fn execute_ld_i_addr(&mut self, addr: u16) -> (r: ProgramCounter)
        requires
            old(self).wf(),
        ensures
            final(self).wf(),
            final(self)@ == apply_spec(old(self)@, Instruction::LdI { addr }, 0),
            r == flow_spec(old(self)@, Instruction::LdI { addr }),
    {
        self.i = addr;
        ProgramCounter::Next
    }

    // Bnnn - JP V0, addr
    fn execute_jp_v0_addr(&mut self, addr: u16) -> (r: ProgramCounter)
        requires
            old(self).wf(),
            addr < 4096,
        ensures
            final(self).wf(),
            final(self)@ == apply_spec(old(self)@, Instruction::JpV0 { addr }, 0),
            r == flow_spec(old(self)@, Instruction::JpV0 { addr }),
    {
        ProgramCounter::Address(addr + self.v_reg[0] as u16)
    }

    // Cxkk - RND Vx, byte
    fn execute_rnd_vx_kk(&mut self, x: usize, kk: u8, rnd: u8) -> (r: ProgramCounter)
        requires
            old(self).wf(),
            x < NUM_REGS,
        ensures
            final(self).wf(),
            final(self)@ == apply_spec(old(self)@, Instruction::Rnd { x, kk }, rnd),
            r == flow_spec(old(self)@, Instruction::Rnd { x, kk }),
    {
        self.set_v(x, kk & rnd);
        ProgramCounter::Next
    }


    // Dxyn - DRW Vx, Vy, nibble
    fn execute_drw_vx_vy_n(&mut self, x: usize, y: usize, n: usize) -> (r: ProgramCounter)
        requires
            old(self).wf(),
            x < NUM_REGS,
            y < NUM_REGS,
            n < 16,
            fault_spec(old(self)@, Instruction::Drw { x, y, n }) is None,
        ensures
            final(self).wf(),
            final(self)@ == apply_spec(old(self)@, Instruction::Drw { x, y, n }, 0),
            r == flow_spec(old(self)@, Instruction::Drw { x, y, n }),
    {
        let ghost s0 = self@;
        let mut sprite: Vec<u8> = Vec::new();
        let mut row: usize = 0;
        assert(sprite@ =~= sprite_rows(s0, 0));
        while row < n
            invariant
                self.wf(),
                self@ == s0,
                row <= n < 16,
                n > 0 ==> s0.i + n <= MEM_SIZE,
                sprite@.len() == row,
                sprite@ == sprite_rows(s0, row as int),
            decreases n - row,
        {
            let b = self.mem.read_byte(self.i + row as u16);
            sprite.push(b);
            row += 1;
            assert(sprite@ =~= sprite_rows(s0, row as int));
        }
        let x0 = self.v_reg[x];
        let y0 = self.v_reg[y];
        let hit = self.display.draw_sprite(&sprite, x0, y0);
        self.set_v(VF, if hit { 1 } else { 0 });
        self.draw = true;
        ProgramCounter::Next
    }

    // Ex9E - SKP Vx
    fn execute_skp_vx(&mut self, x: usize) -> (r: ProgramCounter)
        requires
            old(self).wf(),
            x < NUM_REGS,
        ensures
            final(self).wf(),
            final(self)@ == apply_spec(old(self)@, Instruction::Skp { x }, 0),
            r == flow_spec(old(self)@, Instruction::Skp { x }),
    {
        let k = self.v_reg[x];
        ProgramCounter::skip_if(k < 16 && self.keypad[k as usize])
    }

    // ExA1 - SKNP Vx
    fn execute_sknp_vx(&mut self, x: usize) -> (r: ProgramCounter)
        requires
            old(self).wf(),
            x < NUM_REGS,
        ensures
            final(self).wf(),
            final(self)@ == apply_spec(old(self)@, Instruction::Sknp { x }, 0),
            r == flow_spec(old(self)@, Instruction::Sknp { x }),
    {
        let k = self.v_reg[x];
        ProgramCounter::skip_if(!(k < 16 && self.keypad[k as usize]))
    }

    // Fx07 - LD Vx, DT
    fn execute_ld_vx_dt(&mut self, x: usize) -> (r: ProgramCounter)
        requires
            old(self).wf(),
            x < NUM_REGS,
        ensures
            final(self).wf(),
            final(self)@ == apply_spec(old(self)@, Instruction::LdVxDt { x }, 0),
            r == flow_spec(old(self)@, Instruction::LdVxDt { x }),
    {
        let d = self.delay_t;
        self.set_v(x, d);
        ProgramCounter::Next
    }

    /// The lowest pressed key, if any.
    fn is_key_pressed(&self) -> (r: Option<usize>)
        requires
            self.wf(),
        ensures
            match r {
                Some(k) => k < 16 && k == lowest_pressed(self@.keypad),
                None => lowest_pressed(self@.keypad) == 16,
            },
    {
        let mut k: usize = 0;
        while k < NUM_REGS
            invariant
                self.wf(),
                k <= NUM_REGS,
                lowest_pressed(self@.keypad) == lowest_pressed_from(self@.keypad, k as int),
            decreases NUM_REGS - k,
        {
            if self.keypad[k] {
                return Some(k);
            }
            k += 1;
        }
        None
    }

    // Fx0A - LD Vx, K
    fn execute_ld_vx_k(&mut self, x: usize) -> (r: ProgramCounter)
        requires
            old(self).wf(),
            x < NUM_REGS,
        ensures
            final(self).wf(),
            final(self)@ == apply_spec(old(self)@, Instruction::LdVxK { x }, 0),
            r == flow_spec(old(self)@, Instruction::LdVxK { x }),
    {
        match self.is_key_pressed() {
            Some(k) => {
                self.set_v(x, k as u8);
                ProgramCounter::Next
            },
            None => ProgramCounter::Address(self.pc),
        }
    }

    // Fx15 - LD DT, Vx
    fn execute_ld_dt_vx(&mut self, x: usize) -> (r: ProgramCounter)
        requires
            old(self).wf(),
            x < NUM_REGS,
        ensures
            final(self).wf(),
            final(self)@ == apply_spec(old(self)@, Instruction::LdDtVx { x }, 0),
            r == flow_spec(old(self)@, Instruction::LdDtVx { x }),
    {
        self.delay_t = self.v_reg[x];
        ProgramCounter::Next
    }

    // Fx18 - LD ST, Vx
    fn execute_ld_st_vx(&mut self, x: usize) -> (r: ProgramCounter)
        requires
            old(self).wf(),
            x < NUM_REGS,
        ensures
            final(self).wf(),
            final(self)@ == apply_spec(old(self)@, Instruction::LdStVx { x }, 0),
            r == flow_spec(old(self)@, Instruction::LdStVx { x }),
    {
        self.sound_t = self.v_reg[x];
        ProgramCounter::Next
    }

    // Fx1E - ADD I, Vx
    fn execute_add_i_vx(&mut self, x: usize) -> (r: ProgramCounter)
        requires
            old(self).wf(),
            x < NUM_REGS,
        ensures
            final(self).wf(),
            final(self)@ == apply_spec(old(self)@, Instruction::AddI { x }, 0),
            r == flow_spec(old(self)@, Instruction::AddI { x }),
    {
        let sum: u32 = self.i as u32 + self.v_reg[x] as u32;
        self.set_v(VF, if sum > 0xFFF { 1 } else { 0 });
        self.i = (sum % 0x10000) as u16;
        ProgramCounter::Next
    }

    // Fx29 - LD F, Vx
    fn execute_ld_f_vx(&mut self, x: usize) -> (r: ProgramCounter)
        requires
            old(self).wf(),
            x < NUM_REGS,
        ensures
            final(self).wf(),
            final(self)@ == apply_spec(old(self)@, Instruction::LdF { x }, 0),
            r == flow_spec(old(self)@, Instruction::LdF { x }),
    {
        self.i = self.v_reg[x] as u16 * SPRITE_SIZE;
        ProgramCounter::Next
    }

    // Fx33 - LD B, Vx
    fn execute_ld_b_vx(&mut self, x: usize) -> (r: ProgramCounter)
        requires
            old(self).wf(),
            x < NUM_REGS,
            fault_spec(old(self)@, Instruction::LdB { x }) is None,
        ensures
            final(self).wf(),
            final(self)@ == apply_spec(old(self)@, Instruction::LdB { x }, 0),
            r == flow_spec(old(self)@, Instruction::LdB { x }),
    {
        let ghost s0 = self@;
        let b = self.v_reg[x];
        let at = self.i;
        self.mem.write_byte(b / 100, at);
        self.mem.write_byte((b % 100) / 10, at + 1);
        self.mem.write_byte(b % 10, at + 2);
        assert(self.mem@ =~= store(s0.mem, s0.i as int, bcd(b)));
        ProgramCounter::Next
    }

    // Fx55 - LD [I], Vx
    fn execute_ld_i_vx(&mut self, x: usize) -> (r: ProgramCounter)
        requires
            old(self).wf(),
            x < NUM_REGS,
            fault_spec(old(self)@, Instruction::StoreRegs { x }) is None,
        ensures
            final(self).wf(),
            final(self)@ == apply_spec(old(self)@, Instruction::StoreRegs { x }, 0),
            r == flow_spec(old(self)@, Instruction::StoreRegs { x }),
    {
        let ghost s0 = self@;
        let mut k: usize = 0;
        assert(self.mem@ =~= store(s0.mem, s0.i as int, s0.v.subrange(0, 0)));
        while k <= x
            invariant
                self.wf(),
                x < NUM_REGS,
                k <= x + 1,
                s0.i + x + 1 <= MEM_SIZE,
                writable(s0.i as int),
                self@ == (CpuState {
                    mem: store(s0.mem, s0.i as int, s0.v.subrange(0, k as int)),
                    ..s0
                }),
            decreases x + 1 - k,
        {
            let b = self.v_reg[k];
            let at = self.i + k as u16;
            self.mem.write_byte(b, at);
            k += 1;
            assert(self.mem@ =~= store(s0.mem, s0.i as int, s0.v.subrange(0, k as int)));
        }
        ProgramCounter::Next
    }

    // Fx65 - LD Vx, [I]
    fn execute_ld_vx_i(&mut self, x: usize) -> (r: ProgramCounter)
        requires
            old(self).wf(),
            x < NUM_REGS,
            fault_spec(old(self)@, Instruction::LoadRegs { x }) is None,
        ensures
            final(self).wf(),
            final(self)@ == apply_spec(old(self)@, Instruction::LoadRegs { x }, 0),
            r == flow_spec(old(self)@, Instruction::LoadRegs { x }),
    {
        let ghost s0 = self@;
        let mut k: usize = 0;
        assert(self.v_reg@ =~= Seq::new(16, |r: int| if r < 0 { s0.mem[s0.i + r] } else { s0.v[r] }));
        while k <= x
            invariant
                self.wf(),
                x < NUM_REGS,
                k <= x + 1,
                s0.i + x + 1 <= MEM_SIZE,
                self@ == (CpuState {
                    v: Seq::new(16, |r: int| if r < k { s0.mem[s0.i + r] } else { s0.v[r] }),
                    ..s0
                }),
            decreases x + 1 - k,
        {
            let b = self.mem.read_byte(self.i + k as u16);
            self.set_v(k, b);
            k += 1;
            assert(self.v_reg@ =~= Seq::new(16, |r: int| if r < k { s0.mem[s0.i + r] } else { s0.v[r] }));
        }
        assert(self.v_reg@ =~= Seq::new(16, |r: int| if r <= x { s0.mem[s0.i + r] } else { s0.v[r] }));
        ProgramCounter::Next
    }

    /// The fault that executing `ins` now would run into, if any.
    fn fault(&self, ins: Instruction) -> (r: Option<Fault>)
        requires
            self.wf(),
            operands_in_range(ins),
        ensures
            r == fault_spec(self@, ins),
    {
        let i = self.i as usize;
        match ins {
            Instruction::Ret => if self.stack.len() == 0 {
                Some(Fault::StackUnderflow)
            } else {
                None
            },
            Instruction::Call { .. } => if self.stack.len() >= STACK_SIZE {
                Some(Fault::StackOverflow)
            } else {
                None
            },
            Instruction::Drw { n, .. } => if n > 0 && i + n > MEM_SIZE {
                Some(Fault::OutOfRange)
            } else {
                None
            },
            Instruction::LdB { .. } => if i + 3 > MEM_SIZE {
                Some(Fault::OutOfRange)
            } else if i < RESERVED_MEMORY_SIZE {
                Some(Fault::ReservedWrite)
            } else {
                None
            },
            Instruction::StoreRegs { x } => if i + x + 1 > MEM_SIZE {
                Some(Fault::OutOfRange)
            } else if i < RESERVED_MEMORY_SIZE {
                Some(Fault::ReservedWrite)
            } else {
                None
            },
            Instruction::LoadRegs { x } => if i + x + 1 > MEM_SIZE {
                Some(Fault::OutOfRange)
            } else {
                None
            },
            _ => None,
        }
    }

    /// Carries out `ins`, with `rnd` as the byte that `Cxkk` draws, and
    /// returns how the program counter moves.
    fn execute_instruction(&mut self, ins: Instruction, rnd: u8) -> (r: ProgramCounter)
        requires
            old(self).wf(),
            operands_in_range(ins),
            can_fetch(old(self)@),
            fault_spec(old(self)@, ins) is None,
        ensures
            final(self).wf(),
            final(self)@ == apply_spec(old(self)@, ins, rnd),
            r == flow_spec(old(self)@, ins),
    {
        match ins {
            Instruction::Cls => self.execute_cls(),
            Instruction::Ret => self.execute_ret(),
            Instruction::Jp { addr } => self.execute_jp_addr(addr),
            Instruction::Call { addr } => self.execute_call_addr(addr),
            Instruction::SeByte { x, kk } => self.execute_se_vx_kk(x, kk),
            Instruction::SneByte { x, kk } => self.execute_sne_vx_kk(x, kk),
            Instruction::SeReg { x, y } => self.execute_se_vx_vy(x, y),
            Instruction::LdByte { x, kk } => self.execute_ld_vx_kk(x, kk),
            Instruction::AddByte { x, kk } => self.execute_add_vx_kk(x, kk),
            Instruction::LdReg { x, y } => self.execute_ld_vx_vy(x, y),
            Instruction::Or { x, y } => self.execute_or_vx_vy(x, y),
            Instruction::And { x, y } => self.execute_and_vx_vy(x, y),
            Instruction::Xor { x, y } => self.execute_xor_vx_vy(x, y),
            Instruction::AddReg { x, y } => self.execute_add_vx_vy(x, y),
            Instruction::Sub { x, y } => self.execute_sub_vx_vy(x, y),
            Instruction::Shr { x } => self.execute_shr_vx(x),
            Instruction::Subn { x, y } => self.execute_subn_vx_vy(x, y),
            Instruction::Shl { x } => self.execute_shl_vx(x),
            Instruction::SneReg { x, y } => self.execute_sne_vx_vy(x, y),
            Instruction::LdI { addr } => self.execute_ld_i_addr(addr),
            Instruction::JpV0 { addr } => self.execute_jp_v0_addr(addr),
            Instruction::Rnd { x, kk } => self.execute_rnd_vx_kk(x, kk, rnd),
            Instruction::Drw { x, y, n } => self.execute_drw_vx_vy_n(x, y, n),
            Instruction::Skp { x } => self.execute_skp_vx(x),
            Instruction::Sknp { x } => self.execute_sknp_vx(x),
            Instruction::LdVxDt { x } => self.execute_ld_vx_dt(x),
            Instruction::LdVxK { x } => self.execute_ld_vx_k(x),
            Instruction::LdDtVx { x } => self.execute_ld_dt_vx(x),
            Instruction::LdStVx { x } => self.execute_ld_st_vx(x),
            Instruction::AddI { x } => self.execute_add_i_vx(x),
            Instruction::LdF { x } => self.execute_ld_f_vx(x),
            Instruction::LdB { x } => self.execute_ld_b_vx(x),
            Instruction::StoreRegs { x } => self.execute_ld_i_vx(x),
            Instruction::LoadRegs { x } => self.execute_ld_vx_i(x),
            Instruction::Unknown { .. } => ProgramCounter::Next,
        }
    }

    /// Counts both timers down by one, stopping at zero, and sets the tone
    /// flag from the sound timer.
    fn tick_timers(&mut self)
        requires
            old(self).wf(),
        ensures
            final(self).wf(),
            final(self)@ == tick_spec(old(self)@),
    {
        if self.delay_t > 0 {
            self.delay_t -= 1;
        }
        if self.sound_t > 0 {
            self.sound_t -= 1;
        }
        self.beep = self.sound_t > 0;
    }

    /// One fetch-decode-execute cycle followed by a timer tick, with `rnd`
    /// as the byte that `Cxkk` draws. On a fault nothing changes and the
    /// fault is returned.
    pub fn step(&mut self, rnd: u8) -> (r: Result<(), Fault>)
        requires
            old(self).wf(),
        ensures
            final(self).wf(),
            r == step_result(old(self)@),
            step_outcome(old(self)@, r, final(self)@, rnd),
    {
        if self.pc as usize + 1 >= MEM_SIZE {
            return Err(Fault::OutOfRange);
        }
        let opcode = self.mem.read_word(self.pc);
        let ins = decode(opcode);
        if let Some(f) = self.fault(ins) {
            return Err(f);
        }
        let pc = self.pc;
        let flow = self.execute_instruction(ins, rnd);
        self.pc = match flow {
            ProgramCounter::Next => pc + 2,
            ProgramCounter::Skip => pc + 4,
            ProgramCounter::Address(addr) => addr,
        };
        self.tick_timers();
        Ok(())
    }

    /// One cycle with a freshly drawn random byte: the result is that of
    /// `step` for some byte.
    pub fn fetch_decode_execute(&mut self) -> (r: Result<(), Fault>)
        requires
            old(self).wf(),
        ensures
            final(self).wf(),
            r == step_result(old(self)@),
            exists|rnd: u8| step_outcome(old(self)@, r, final(self)@, rnd),
    {
        let ghost s0 = self@;
        let rnd = random_byte();
        let r = self.step(rnd);
        assert(step_outcome(s0, r, self@, rnd));
        r
    }

    /// The program counter.
    pub fn pc(&self) -> (r: u16)
        ensures
            r == self@.pc,
    {
        self.pc
    }

    /// Register `Vx`.
    pub fn v(&self, x: usize) -> (r: u8)
        requires
            self.wf(),
            x < NUM_REGS,
        ensures
            r == self@.v[x as int],
    {
        self.v_reg[x]
    }

    /// The address register `I`.
    pub fn i(&self) -> (r: u16)
        ensures
            r == self@.i,
    {
        self.i
    }

    /// The delay timer.
    pub fn delay_timer(&self) -> (r: u8)
        ensures
            r == self@.delay,
    {
        self.delay_t
    }

    /// The sound timer.
    pub fn sound_timer(&self) -> (r: u8)
        ensures
            r == self@.sound,
    {
        self.sound_t
    }

    /// The number of return addresses on the stack.
    pub fn stack_depth(&self) -> (r: usize)
        ensures
            r == self@.stack.len(),
    {
        self.stack.len()
    }

    /// The address space.
    pub fn memory(&self) -> (r: &Memory)
        requires
            self.wf(),
        ensures
            r.wf(),
            r@ == self@.mem,
    {
        &self.mem
    }

    /// The framebuffer.
    pub fn display(&self) -> (r: &Display)
        requires
            self.wf(),
        ensures
            r.wf(),
            r@ == self@.display,
    {
        &self.display
    }

    /// Whether the display changed since the renderer last cleared the flag.
    pub fn draw(&self) -> (r: bool)
        ensures
            r == self@.draw,
    {
        self.draw
    }

    /// Marks the display as rendered.
    pub fn clear_draw(&mut self)
        requires
            old(self).wf(),
        ensures
            final(self).wf(),
            final(self)@ == (CpuState { draw: false, ..old(self)@ }),
    {
        self.draw = false;
    }

    /// Whether the tone should be playing.
    pub fn beep(&self) -> (r: bool)
        ensures
            r == self@.beep,
    {
        self.beep
    }

    /// Records whether key `k` is held down.
    pub fn set_key(&mut self, k: usize, pressed: bool)
        requires
            old(self).wf(),
            k < NUM_REGS,
        ensures
            final(self).wf(),
            final(self)@ == (CpuState { keypad: old(self)@.keypad.update(k as int, pressed), ..old(self)@ }),
    {
        self.keypad.set(k, pressed);
    }
}

/// The state after a step that does not fault.
pub open spec fn after_step(s: CpuState, rnd: u8) -> CpuState {
    step_spec(s, rnd)->Ok_0
}

/// `lowest_pressed_from` is the first pressed key from `k` on.
pub proof fn lemma_lowest_pressed_from(keys: Seq<bool>, k: int)
    requires
        keys.len() == NUM_REGS,
        0 <= k <= 16,
    ensures
        k <= lowest_pressed_from(keys, k) <= 16,
        lowest_pressed_from(keys, k) < 16 ==> keys[lowest_pressed_from(keys, k)],
        forall|j: int| k <= j < lowest_pressed_from(keys, k) ==> !keys[j],
    decreases 16 - k,
{
    if k < 16 && !keys[k] {
        lemma_lowest_pressed_from(keys, k + 1);
    }
}

/// `8xy4` sets `VF` to 1 exactly when `Vx + Vy` exceeds 255 and to 0
/// otherwise; unless `x` names `VF` itself, `Vx` becomes the sum modulo 256.
pub proof fn lemma_add_sets_carry(s: CpuState, x: usize, y: usize, rnd: u8)
    requires
        Cpu::wf_state(s),
        x < NUM_REGS,
        y < NUM_REGS,
        can_fetch(s),
        decode_spec(opcode_at_pc(s)) == (Instruction::AddReg { x, y }),
    ensures
        step_spec(s, rnd) is Ok,
        after_step(s, rnd).v[VF as int] == flag(s.v[x as int] + s.v[y as int] > 255),
        x != VF ==> after_step(s, rnd).v[x as int] == (s.v[x as int] + s.v[y as int]) % 256,
        after_step(s, rnd).pc == s.pc + 2,
{
}

/// `8xy5` sets `VF` to 1 exactly when `Vx >= Vy` and to 0 otherwise;
/// unless `x` names `VF` itself, `Vx` becomes `(Vx - Vy) mod 256`.
pub proof fn lemma_sub_sets_no_borrow(s: CpuState, x: usize, y: usize, rnd: u8)
    requires
        Cpu::wf_state(s),
        x < NUM_REGS,
        y < NUM_REGS,
        can_fetch(s),
        decode_spec(opcode_at_pc(s)) == (Instruction::Sub { x, y }),
    ensures
        step_spec(s, rnd) is Ok,
        after_step(s, rnd).v[VF as int] == flag(s.v[x as int] >= s.v[y as int]),
        x != VF ==> after_step(s, rnd).v[x as int] == (s.v[x as int] - s.v[y as int]) % 256,
        after_step(s, rnd).pc == s.pc + 2,
{
    let a = s.v[x as int] as int;
    let b = s.v[y as int] as int;
    assert((a - b + 256) % 256 == (a - b) % 256) by (nonlinear_arith)
        requires
            0 <= a < 256,
            0 <= b < 256,
    ;
}

/// Storing `V0..=Vx` with `Fx55` and then loading them back with `Fx65`
/// from the same address gives back every register unchanged.
pub proof fn lemma_store_load_round_trip(s: CpuState, x: usize, rnd1: u8, rnd2: u8)
    requires
        Cpu::wf_state(s),
        x < NUM_REGS,
        can_fetch(s),
        decode_spec(opcode_at_pc(s)) == (Instruction::StoreRegs { x }),
        step_spec(s, rnd1) is Ok,
        can_fetch(after_step(s, rnd1)),
        decode_spec(opcode_at_pc(after_step(s, rnd1))) == (Instruction::LoadRegs { x }),
    ensures
        step_spec(after_step(s, rnd1), rnd2) is Ok,
        after_step(after_step(s, rnd1), rnd2).v == s.v,
{
    let t = after_step(s, rnd1);
    let u = after_step(t, rnd2);
    assert(t.i == s.i);
    assert(u.v =~= s.v);
}

/// `Fx0A` with no key pressed leaves the program counter, memory, keypad
/// and registers as they were, so the next step waits again; with a key
/// pressed it stores the lowest pressed key in `Vx` and moves on.
pub proof fn lemma_wait_for_key(s: CpuState, x: usize, rnd: u8)
    requires
        Cpu::wf_state(s),
        x < NUM_REGS,
        can_fetch(s),
        decode_spec(opcode_at_pc(s)) == (Instruction::LdVxK { x }),
    ensures
        step_spec(s, rnd) is Ok,
        after_step(s, rnd).mem == s.mem,
        after_step(s, rnd).keypad == s.keypad,
        (forall|k: int| 0 <= k < 16 ==> !s.keypad[k]) ==> {
            &&& after_step(s, rnd).pc == s.pc
            &&& after_step(s, rnd).v == s.v
        },
        forall|k: int|
            0 <= k < 16 && s.keypad[k] && (forall|j: int| 0 <= j < k ==> !s.keypad[j]) ==> {
                &&& after_step(s, rnd).pc == s.pc + 2
                &&& after_step(s, rnd).v == s.v.update(x as int, k as u8)
            },
{
    lemma_lowest_pressed_from(s.keypad, 0);
}

/// Two `Dxyn` steps in a row with the same operands, neither register being
/// `VF`, leave the display as it was before the first, and the second sets
/// `VF` to 1 exactly when some lit sprite pixel fell on a pixel that was
/// dark before the first.
pub proof fn lemma_draw_twice_via_step(
    s: CpuState,
    x: usize,
    y: usize,
    n: usize,
    rnd1: u8,
    rnd2: u8,
)
    requires
        Cpu::wf_state(s),
        x < VF,
        y < VF,
        n < 16,
        can_fetch(s),
        decode_spec(opcode_at_pc(s)) == (Instruction::Drw { x, y, n }),
        step_spec(s, rnd1) is Ok,
        can_fetch(after_step(s, rnd1)),
        decode_spec(opcode_at_pc(after_step(s, rnd1))) == (Instruction::Drw { x, y, n }),
    ensures
        step_spec(after_step(s, rnd1), rnd2) is Ok,
        after_step(after_step(s, rnd1), rnd2).display == s.display,
        after_step(after_step(s, rnd1), rnd2).v[VF as int] == flag(
            exists|p: int|
                0 <= p < DISPLAY_SIZE && #[trigger] sprite_mask(
                    sprite_rows(s, n as int),
                    s.v[x as int] as int,
                    s.v[y as int] as int,
                    p,
                ) == 1 && s.display[p] == 0,
        ),
{
    let t = after_step(s, rnd1);
    assert(sprite_rows(t, n as int) =~= sprite_rows(s, n as int));
    lemma_draw_twice_restores(
        s.display,
        sprite_rows(s, n as int),
        s.v[x as int] as int,
        s.v[y as int] as int,
    );
}

/// `Bnnn` jumps to exactly `nnn + V0`, without wrapping.
pub proof fn lemma_jump_offset(s: CpuState, addr: u16, rnd: u8)
    requires
        Cpu::wf_state(s),
        can_fetch(s),
        decode_spec(opcode_at_pc(s)) == (Instruction::JpV0 { addr }),
        addr < 4096,
    ensures
        step_spec(s, rnd) is Ok,
        after_step(s, rnd).pc == addr + s.v[0],
{
}

/// Relies on rand::random::<u8>: a byte from the thread-local generator,
/// of which nothing is known.
#[verifier::external_body]
fn random_byte() -> (r: u8) {
    rand::random::<u8>()
}

} // verus!
