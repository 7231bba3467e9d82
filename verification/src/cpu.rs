//! The processor: a program counter, an instruction register, a four-cell
//! register file, and an owned memory, advanced by a fetch/decode/execute
//! cycle. `step` performs one cycle; `run(n)` performs exactly `n` cycles
//! (this instruction set has no halt or branch, so execution is bounded
//! only by the caller's step count).

use crate::isa::{decode, decode_spec, DecodeError, Instr};
use crate::memory::{AddressError, Memory};
use vstd::prelude::*;

verus! {

/// A step failed: either the fetched word had an unknown opcode tag, or a
/// fetch or execute touched an address outside the memory's capacity.
#[derive(Debug, Clone, Copy, PartialEq, Eq, Structural)]
pub enum ExecutionError {
    /// The instruction register held a word with an unrecognized opcode tag.
    Decode(DecodeError),
    /// A fetch or a load/store addressed a cell beyond the memory's bounds.
    Address(AddressError),
}

/// The processor's state as contracts speak of it: the two 16-bit control
/// registers and the contents of the register file and of memory.
#[verifier::ext_equal]
pub struct CpuView {
    /// Program counter: address of the low byte of the next instruction.
    pub pc: u16,
    /// Instruction register: the word fetched by the latest cycle.
    pub ir: u16,
    /// The register file: always exactly four 8-bit cells.
    pub regs: Seq<u8>,
    /// The memory's cells.
    pub mem: Seq<u8>,
}

/// Composes two bytes little-endian into a 16-bit word.
pub open spec fn compose_word(lo: u8, hi: u8) -> u16 {
    ((hi as u16) << 8) | (lo as u16)
}

/// A fetch can succeed: both instruction bytes lie inside memory and the
/// program counter can advance by 2 without leaving its 16 bits.
pub open spec fn fetch_ok(s: CpuView) -> bool {
    s.pc + 1 < s.mem.len() && s.pc + 2 <= u16::MAX
}

/// The state after a successful fetch: the two bytes at the program counter
/// composed little-endian into the instruction register, and the program
/// counter advanced by exactly 2.
pub open spec fn fetch_spec(s: CpuView) -> CpuView {
    CpuView {
        pc: (s.pc + 2) as u16,
        ir: compose_word(s.mem[s.pc as int], s.mem[s.pc as int + 1]),
        ..s
    }
}

/// The effect of one instruction on the register file and memory, per the
/// execution rules: bitwise `And`, modulo-256 `Add` and `Sub`, immediate
/// `Mov`, and bounds-checked `Ldr`/`Str`, which fail with an address error
/// exactly when their address lies outside memory.
pub open spec fn exec_spec(s: CpuView, i: Instr) -> Result<CpuView, ExecutionError>
    recommends
        i.wf(),
        s.regs.len() == 4,
{
    match i {
        Instr::And(rd, rs1, rs2) => Ok(
            CpuView { regs: s.regs.update(rd as int, s.regs[rs1 as int] & s.regs[rs2 as int]), ..s },
        ),
        Instr::Add(rd, rs1, rs2) => Ok(
            CpuView {
                regs: s.regs.update(
                    rd as int,
                    ((s.regs[rs1 as int] + s.regs[rs2 as int]) % 256) as u8,
                ),
                ..s
            },
        ),
        Instr::Sub(rd, rs1, rs2) => Ok(
            CpuView {
                regs: s.regs.update(
                    rd as int,
                    ((s.regs[rs1 as int] - s.regs[rs2 as int] + 256) % 256) as u8,
                ),
                ..s
            },
        ),
        Instr::Mov(rd, v) => Ok(CpuView { regs: s.regs.update(rd as int, v), ..s }),
        Instr::Ldr(rd, a) => if a < s.mem.len() {
            Ok(CpuView { regs: s.regs.update(rd as int, s.mem[a as int]), ..s })
        } else {
            Err(ExecutionError::Address(AddressError))
        },
        Instr::Str(rs, a) => if a < s.mem.len() {
            Ok(CpuView { mem: s.mem.update(a as int, s.regs[rs as int]), ..s })
        } else {
            Err(ExecutionError::Address(AddressError))
        },
    }
}

/// One whole fetch/decode/execute cycle: the state it leaves the processor
/// in, and the error that stopped it, if any. A failed fetch leaves the
/// state unchanged; a failed decode or execute leaves the fetch's advance
/// of the program counter and instruction register in place.
pub open spec fn step_spec(s: CpuView) -> (CpuView, Option<ExecutionError>) {
    if !fetch_ok(s) {
        (s, Some(ExecutionError::Address(AddressError)))
    } else {
        let s1 = fetch_spec(s);
        match decode_spec(s1.ir) {
            Err(e) => (s1, Some(ExecutionError::Decode(e))),
            Ok(i) => match exec_spec(s1, i) {
                Ok(s2) => (s2, None),
                Err(e) => (s1, Some(e)),
            },
        }
    }
}

/// `n` cycles in sequence, stopping at the first error.
pub open spec fn run_spec(s: CpuView, n: nat) -> (CpuView, Option<ExecutionError>)
    decreases n,
{
    if n == 0 {
        (s, None)
    } else {
        let (s1, e) = step_spec(s);
        if e is Some {
            (s1, e)
        } else {
            run_spec(s1, (n - 1) as nat)
        }
    }
}

/// The processor. It owns its memory exclusively for as long as it lives;
/// a caller inspects memory through `memory` or takes it back with
/// `into_memory` once execution is done.
pub struct CPU {
    mem: Memory,
    pc: u16,
    ir: u16,
    reg: [u8; 4],
}

impl View for CPU {
    type V = CpuView;

    closed spec fn view(&self) -> CpuView {
        CpuView { pc: self.pc, ir: self.ir, regs: self.reg@, mem: self.mem@ }
    }
}

impl CPU {
    /// Constructs a processor bound to `mem`, with the program counter,
    /// the instruction register and every register zeroed.
    pub fn new(mem: Memory) -> (cpu: CPU)
        ensures
            cpu@.pc == 0,
            cpu@.ir == 0,
            cpu@.regs.len() == 4,
            forall|i: int| 0 <= i < 4 ==> cpu@.regs[i] == 0u8,
            cpu@.mem == mem@,
    {
        CPU { mem, pc: 0, ir: 0, reg: [0u8, 0u8, 0u8, 0u8] }
    }

    /// The register file always holds exactly four cells.
    pub proof fn lemma_regs_len(&self)
        ensures
            self@.regs.len() == 4,
    {
    }

    /// Fetch: reads the two bytes at the program counter, composes them
    /// little-endian into the instruction register, and advances the
    /// program counter by 2. Fails with `AddressError`, changing nothing,
    /// exactly when the second byte would lie outside memory or the
    /// program counter could not advance.
    pub fn fetch(&mut self) -> (r: Result<(), AddressError>)
        ensures
            r is Ok <==> fetch_ok(old(self)@),
            r is Ok ==> final(self)@ == fetch_spec(old(self)@),
            r is Err ==> r == Err::<(), AddressError>(AddressError) && final(self)@ == old(self)@,
    {
        if self.pc >= 0xFFFE {
            return Err(AddressError);
        }
        let pc: usize = self.pc as usize;
        let len: usize = self.mem.len();
        if pc + 1 >= len {
            return Err(AddressError);
        }
        let lo: u8 = match self.mem.read(pc) {
            Ok(b) => b,
            Err(e) => {
                return Err(e);
            },
        };
        let hi: u8 = match self.mem.read(pc + 1) {
            Ok(b) => b,
            Err(e) => {
                return Err(e);
            },
        };
        self.ir = ((hi as u16) << 8) | (lo as u16);
        self.pc = self.pc + 2;
        Ok(())
    }

    /// Execute: applies one decoded instruction to the register file and
    /// memory, per `exec_spec`. `Ldr`/`Str` fail with an address error,
    /// changing nothing, exactly when their address lies outside memory.
    pub fn execute(&mut self, i: Instr) -> (r: Result<(), ExecutionError>)
        requires
            i.wf(),
        ensures
            (match exec_spec(old(self)@, i) {
                Ok(s2) => r is Ok && final(self)@ == s2,
                Err(e) => r == Err::<(), ExecutionError>(e) && final(self)@ == old(self)@,
            }),
    {
        match i {
            Instr::And(rd, rs1, rs2) => {
                self.reg[rd as usize] = self.reg[rs1 as usize] & self.reg[rs2 as usize];
                Ok(())
            },
            Instr::Add(rd, rs1, rs2) => {
                let sum: u16 = self.reg[rs1 as usize] as u16 + self.reg[rs2 as usize] as u16;
                self.reg[rd as usize] = (sum % 256) as u8;
                Ok(())
            },
            Instr::Sub(rd, rs1, rs2) => {
                let diff: u16 = self.reg[rs1 as usize] as u16 + 256 - self.reg[rs2 as usize] as u16;
                self.reg[rd as usize] = (diff % 256) as u8;
                Ok(())
            },
            Instr::Mov(rd, v) => {
                self.reg[rd as usize] = v;
                Ok(())
            },
            Instr::Ldr(rd, a) => {
                match self.mem.read(a as usize) {
                    Ok(b) => {
                        self.reg[rd as usize] = b;
                        Ok(())
                    },
                    Err(e) => Err(ExecutionError::Address(e)),
                }
            },
            Instr::Str(rs, a) => {
                let v: u8 = self.reg[rs as usize];
                match self.mem.write(a as usize, v) {
                    Ok(()) => Ok(()),
                    Err(e) => Err(ExecutionError::Address(e)),
                }
            },
        }
    }

    /// One fetch/decode/execute cycle, per `step_spec`.
    pub fn step(&mut self) -> (r: Result<(), ExecutionError>)
        ensures
            ({
                let (s2, e) = step_spec(old(self)@);
                final(self)@ == s2 && (match e {
                    None => r is Ok,
                    Some(err) => r == Err::<(), ExecutionError>(err),
                })
            }),
    {
        match self.fetch() {
            Ok(()) => {},
            Err(e) => {
                return Err(ExecutionError::Address(e));
            },
        }
        let i: Instr = match decode(self.ir) {
            Ok(i) => i,
            Err(e) => {
                return Err(ExecutionError::Decode(e));
            },
        };
        self.execute(i)
    }

    /// Performs exactly `n` fetch/decode/execute cycles, per `run_spec`,
    /// stopping only at the first error.
    pub fn run(&mut self, n: usize) -> (r: Result<(), ExecutionError>)
        ensures
            ({
                let (s2, e) = run_spec(old(self)@, n as nat);
                final(self)@ == s2 && (match e {
                    None => r is Ok,
                    Some(err) => r == Err::<(), ExecutionError>(err),
                })
            }),
    {
        let mut k: usize = 0;
        while k < n
            invariant
                k <= n,
                run_spec(old(self)@, n as nat) == run_spec(self@, (n - k) as nat),
            decreases n - k,
        {
            match self.step() {
                Ok(()) => {},
                Err(e) => {
                    return Err(e);
                },
            }
            k = k + 1;
        }
        Ok(())
    }

    /// The current program counter.
    pub fn pc(&self) -> (r: u16)
        ensures
            r == self@.pc,
    {
        self.pc
    }

    /// The current instruction register.
    pub fn ir(&self) -> (r: u16)
        ensures
            r == self@.ir,
    {
        self.ir
    }

    /// A copy of the register file.
    pub fn registers(&self) -> (r: [u8; 4])
        ensures
            r@ == self@.regs,
    {
        self.reg
    }

    /// A read-only view of the processor's memory.
    pub fn memory(&self) -> (m: &Memory)
        ensures
            m@ == self@.mem,
    {
        &self.mem
    }

    /// Releases the processor's memory back to the caller.
    pub fn into_memory(self) -> (m: Memory)
        ensures
            m@ == self@.mem,
    {
        self.mem
    }
}

/// A successful step advances the program counter by exactly 2: execution
/// never branches, and only `fetch` touches the program counter.
pub proof fn lemma_step_ok_pc(s: CpuView)
    requires
        step_spec(s).1 is None,
    ensures
        step_spec(s).0.pc == s.pc + 2,
{
}

/// An error-free `run(n)` advances the program counter by exactly `2 * n`
/// from its starting value: each of the `n` cycles moves it forward by 2
/// and nothing else moves it.
pub proof fn lemma_run_advances_pc(s: CpuView, n: nat)
    requires
        run_spec(s, n).1 is None,
    ensures
        run_spec(s, n).0.pc == s.pc + 2 * n,
    decreases n,
{
    if n > 0 {
        let (s1, e) = step_spec(s);
        lemma_step_ok_pc(s);
        lemma_run_advances_pc(s1, (n - 1) as nat);
    }
}

/// Addressing round-trip: storing a register at an address and then loading
/// from the same address yields the stored value exactly, in any state
/// whose memory covers the address.
pub proof fn lemma_store_then_load(s: CpuView, rs: u8, rd: u8, addr: u8)
    requires
        rs < 4,
        rd < 4,
        s.regs.len() == 4,
        addr < s.mem.len(),
    ensures
        ({
            let after_str = exec_spec(s, Instr::Str(rs, addr));
            after_str is Ok && ({
                let after_ldr = exec_spec(after_str->Ok_0, Instr::Ldr(rd, addr));
                after_ldr is Ok && after_ldr->Ok_0.regs[rd as int] == s.regs[rs as int]
            })
        }),
{
}

} // verus!

