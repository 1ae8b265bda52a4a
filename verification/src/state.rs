//! The RCA 1802 CPU state: sixteen 16-bit registers, the 8-bit accumulator
//! `D`, the flag `DF`, the `P` and `X` selectors, the `IE` and `Q` flags, a
//! 64 KiB memory, the halt latch and the two execution counters.
//!
//! There is no dedicated program-counter field: `P` names which of the 16
//! registers currently acts as program counter, and `X` names which acts as
//! index register.  At power-on reset both select register 0, a faithful
//! hardware quirk.

use vstd::prelude::*;

verus! {

/// Number of bytes of main memory (64 KiB).
pub const MEMORY_SIZE: usize = 65536;

/// Address at which programs conventionally start.
pub const PROGRAM_START_ADDRESS: u16 = 0x0000;

/// Failure conditions of the CPU.
#[derive(Debug, Clone, PartialEq, Eq, Structural)]
pub enum CpuError {
    /// A register index above 15 was handed to a direct-access method.
    InvalidRegister(u8),
    /// A program load would run past the end of memory.
    MemoryOutOfBounds(u16),
    /// The bytes at an address do not decode to an instruction.
    InvalidInstruction(u16),
    /// Execution was attempted while the halt latch is set.
    Halted,
}

/// The mathematical model of a CPU state.
#[verifier::ext_equal]
pub struct CpuView {
    /// The 16 general-purpose registers.
    pub regs: Seq<u16>,
    /// The 8-bit accumulator.
    pub d: u8,
    /// The 1-bit carry/borrow/shift-out flag.
    pub df: bool,
    /// Which register acts as program counter.
    pub p: u8,
    /// Which register acts as index register.
    pub x: u8,
    /// Interrupt enable.
    pub ie: bool,
    /// The Q output line.
    pub q: bool,
    /// Main memory.
    pub mem: Seq<u8>,
    /// The halt latch.
    pub halted: bool,
    /// Cycles executed.
    pub cycles: u64,
    /// Instructions executed.
    pub instructions_executed: u64,
}

impl CpuView {
    /// The registers, selectors and memory have their architectural sizes.
    pub open spec fn wf(self) -> bool {
        &&& self.regs.len() == 16
        &&& self.mem.len() == MEMORY_SIZE
        &&& self.p < 16
        &&& self.x < 16
    }

    /// The value of the register that `P` selects: the program counter.
    pub open spec fn pc(self) -> u16 {
        self.regs[self.p as int]
    }

    /// The value of the register that `X` selects.
    pub open spec fn rx(self) -> u16 {
        self.regs[self.x as int]
    }

    /// This state with register `n` set to `v`.
    pub open spec fn with_reg(self, n: int, v: u16) -> CpuView {
        CpuView { regs: self.regs.update(n, v), ..self }
    }

    /// This state with the byte at `addr` set to `v`.
    pub open spec fn with_mem(self, addr: int, v: u8) -> CpuView {
        CpuView { mem: self.mem.update(addr, v), ..self }
    }

    /// The power-on-reset state: everything zero, except that interrupts
    /// are enabled.
    pub open spec fn power_on() -> CpuView {
        CpuView {
            regs: Seq::new(16, |i| 0u16),
            d: 0,
            df: false,
            p: 0,
            x: 0,
            ie: true,
            q: false,
            mem: Seq::new(MEMORY_SIZE as nat, |i| 0u8),
            halted: false,
            cycles: 0,
            instructions_executed: 0,
        }
    }
}

/// The CPU state container.  Mutated by the executor, by the bulk loader and
/// by the direct accessors; nothing else touches it.
#[derive(Debug, Clone)]
pub struct Cpu {
    /// 16 general-purpose 16-bit registers; any may serve as program counter
    /// or index register.
    pub registers: Vec<u16>,
    /// The 8-bit accumulator (D register).
    pub d: u8,
    /// The data flag (DF): carry, inverted borrow or shift-out.
    pub df: bool,
    /// Program-counter selector: which register serves as program counter.
    pub p: u8,
    /// Index-register selector: which register serves as index register.
    pub x: u8,
    /// Interrupt enable.
    pub ie: bool,
    /// The Q output bit.
    pub q: bool,
    /// Main memory (64 KiB).
    pub memory: Vec<u8>,
    /// The halt latch.
    pub halted: bool,
    /// Cycle counter.
    pub cycles: u64,
    /// Instructions executed.
    pub instructions_executed: u64,
}

impl View for Cpu {
    type V = CpuView;

    open spec fn view(&self) -> CpuView {
        CpuView {
            regs: self.registers@,
            d: self.d,
            df: self.df,
            p: self.p,
            x: self.x,
            ie: self.ie,
            q: self.q,
            mem: self.memory@,
            halted: self.halted,
            cycles: self.cycles,
            instructions_executed: self.instructions_executed,
        }
    }
}

/// The contents of `mem` after writing `program` at `start`, everything else
/// unchanged.
pub open spec fn spec_loaded(mem: Seq<u8>, program: Seq<u8>, start: int) -> Seq<u8> {
    Seq::new(
        mem.len(),
        |i: int|
            if start <= i < start + program.len() {
                program[i - start]
            } else {
                mem[i]
            },
    )
}

impl Cpu {
    /// The architectural invariant of the container.
    pub open spec fn wf(&self) -> bool {
        self@.wf()
    }

    /// A CPU in power-on-reset state: all registers zero, `P` = 0, `X` = 0
    /// (the same register initially serves as program counter and index
    /// register), interrupts enabled, memory cleared.
    pub fn new() -> (r: Cpu)
        ensures
            r.wf(),
            r@ == CpuView::power_on(),
    {
        let mut registers: Vec<u16> = Vec::new();
        let mut i: usize = 0;
        while i < 16
            invariant
                i <= 16,
                registers@ =~= Seq::new(i as nat, |j| 0u16),
            decreases 16 - i,
        {
            registers.push(0);
            i = i + 1;
        }
        let mut memory: Vec<u8> = Vec::new();
        let mut j: usize = 0;
        while j < MEMORY_SIZE
            invariant
                j <= MEMORY_SIZE,
                memory@ =~= Seq::new(j as nat, |k| 0u8),
            decreases MEMORY_SIZE - j,
        {
            memory.push(0);
            j = j + 1;
        }
        let r = Cpu {
            registers,
            d: 0,
            df: false,
            p: 0,
            x: 0,
            ie: true,
            q: false,
            memory,
            halted: false,
            cycles: 0,
            instructions_executed: 0,
        };
        assert(r@ =~= CpuView::power_on());
        r
    }

    /// Return every field to its power-on value.
    pub fn reset(&mut self)
        ensures
            final(self).wf(),
            final(self)@ == CpuView::power_on(),
    {
        *self = Cpu::new();
    }

    /// The program counter: the value of the register selected by `P`.
    pub fn get_pc(&self) -> (r: u16)
        requires
            self.wf(),
        ensures
            r == self@.pc(),
    {
        self.registers[self.p as usize]
    }

    /// Write the program counter: set the register selected by `P`.
    pub fn set_pc(&mut self, value: u16)
        requires
            old(self).wf(),
        ensures
            final(self).wf(),
            final(self)@ == old(self)@.with_reg(old(self)@.p as int, value),
    {
        let p = self.p as usize;
        self.registers.set(p, value);
        assert(self@ =~= old(self)@.with_reg(old(self)@.p as int, value));
    }

    /// Advance the program counter by one, wrapping at 16 bits.
    pub fn increment_pc(&mut self)
        requires
            old(self).wf(),
        ensures
            final(self).wf(),
            final(self)@ == old(self)@.with_reg(
                old(self)@.p as int,
                ((old(self)@.pc() + 1) % 0x10000) as u16,
            ),
    {
        let pc = self.get_pc();
        self.set_pc(pc.wrapping_add(1));
    }

    /// The value of the register selected by `X`.
    pub fn get_x_register(&self) -> (r: u16)
        requires
            self.wf(),
        ensures
            r == self@.rx(),
    {
        self.registers[self.x as usize]
    }

    /// Write the register selected by `X`.
    pub fn set_x_register(&mut self, value: u16)
        requires
            old(self).wf(),
        ensures
            final(self).wf(),
            final(self)@ == old(self)@.with_reg(old(self)@.x as int, value),
    {
        let x = self.x as usize;
        self.registers.set(x, value);
        assert(self@ =~= old(self)@.with_reg(old(self)@.x as int, value));
    }

    /// Read register `reg`; fails exactly when `reg` is above 15.
    pub fn get_register(&self, reg: u8) -> (r: Result<u16, CpuError>)
        requires
            self.wf(),
        ensures
            reg > 15 ==> r == Err::<u16, CpuError>(CpuError::InvalidRegister(reg)),
            reg <= 15 ==> r == Ok::<u16, CpuError>(self@.regs[reg as int]),
    {
        if reg > 15 {
            return Err(CpuError::InvalidRegister(reg));
        }
        Ok(self.registers[reg as usize])
    }

    /// Write register `reg`; fails exactly when `reg` is above 15.
    pub fn set_register(&mut self, reg: u8, value: u16) -> (r: Result<(), CpuError>)
        requires
            old(self).wf(),
        ensures
            final(self).wf(),
            reg > 15 ==> r == Err::<(), CpuError>(CpuError::InvalidRegister(reg)) && *final(self)
                == *old(self),
            reg <= 15 ==> r == Ok::<(), CpuError>(()) && final(self)@ == old(self)@.with_reg(
                reg as int,
                value,
            ),
    {
        if reg > 15 {
            return Err(CpuError::InvalidRegister(reg));
        }
        self.registers.set(reg as usize, value);
        assert(self@ =~= old(self)@.with_reg(reg as int, value));
        Ok(())
    }

    /// Read the byte at `addr`.  Every 16-bit address is in bounds, so this
    /// always succeeds.
    pub fn read_byte(&self, addr: u16) -> (r: Result<u8, CpuError>)
        requires
            self.wf(),
        ensures
            r == Ok::<u8, CpuError>(self@.mem[addr as int]),
    {
        Ok(self.memory[addr as usize])
    }

    /// Write the byte at `addr`.  Every 16-bit address is in bounds, so this
    /// always succeeds.
    pub fn write_byte(&mut self, addr: u16, value: u8) -> (r: Result<(), CpuError>)
        requires
            old(self).wf(),
        ensures
            final(self).wf(),
            r == Ok::<(), CpuError>(()),
            final(self)@ == old(self)@.with_mem(addr as int, value),
    {
        self.memory.set(addr as usize, value);
        assert(self@ =~= old(self)@.with_mem(addr as int, value));
        Ok(())
    }

    /// Load `program` into memory starting at `start_addr`.  Fails, leaving
    /// memory unchanged, exactly when the program would extend past the end
    /// of memory.
    pub fn load_program(&mut self, program: &[u8], start_addr: u16) -> (r: Result<(), CpuError>)
        requires
            old(self).wf(),
        ensures
            final(self).wf(),
            start_addr + program@.len() > MEMORY_SIZE ==> r == Err::<(), CpuError>(
                CpuError::MemoryOutOfBounds(((start_addr + program@.len()) % 0x10000) as u16),
            ) && *final(self) == *old(self),
            start_addr + program@.len() <= MEMORY_SIZE ==> r == Ok::<(), CpuError>(())
                && final(self)@ == (CpuView {
                mem: spec_loaded(old(self)@.mem, program@, start_addr as int),
                ..old(self)@
            }),
    {
        let len = program.len();
        if len > MEMORY_SIZE - start_addr as usize {
            let wrapped = ((start_addr as usize % 0x10000) + (len % 0x10000)) % 0x10000;
            proof {
                vstd::arithmetic::div_mod::lemma_add_mod_noop(
                    start_addr as int,
                    program@.len() as int,
                    0x10000,
                );
            }
            return Err(CpuError::MemoryOutOfBounds(wrapped as u16));
        }
        let mut i: usize = 0;
        while i < program.len()
            invariant
                old(self)@.wf(),
                self@ == (CpuView { mem: self@.mem, ..old(self)@ }),
                self@.mem.len() == MEMORY_SIZE,
                i <= program@.len(),
                start_addr + program@.len() <= MEMORY_SIZE,
                forall|k: int|
                    0 <= k < MEMORY_SIZE ==> self@.mem[k] == (if start_addr <= k < start_addr
                        + i {
                        program@[k - start_addr]
                    } else {
                        old(self)@.mem[k]
                    }),
            decreases program@.len() - i,
        {
            let b = program[i];
            self.memory.set(start_addr as usize + i, b);
            i = i + 1;
        }
        assert(self@ =~= (CpuView {
            mem: spec_loaded(old(self)@.mem, program@, start_addr as int),
            ..old(self)@
        }));
        Ok(())
    }

    /// Whether the halt latch is set.
    pub fn is_halted(&self) -> (r: bool)
        ensures
            r == self@.halted,
    {
        self.halted
    }

    /// Set the halt latch.
    pub fn halt(&mut self)
        ensures
            final(self)@ == (CpuView { halted: true, ..old(self)@ }),
    {
        self.halted = true;
        assert(self@ =~= (CpuView { halted: true, ..old(self)@ }));
    }
}

impl Default for Cpu {
    /// The power-on-reset state, as `Cpu::new` builds it.
    fn default() -> (r: Cpu)
        ensures
            r.wf(),
            r@ == CpuView::power_on(),
    {
        Cpu::new()
    }
}

} // verus!
