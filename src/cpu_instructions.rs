//! The processor's lifecycle and its fetch/decode/execute loop.
use crate::cpu_functions::execute_instruction;
use crate::cpu_model::{CpuState, CPU, STACK_RESET};
use crate::memory::{
    lemma_word_round_trip, next_address, with_image, with_word, word_at, Memory, MEMORY_SIZE,
    PROGRAM_START, RESET_VECTOR,
};
use crate::operation_codes::{decode, opcode_table, OperationName};
use crate::semantics::execute;
use vstd::prelude::*;

verus! {

/// Why the processor stopped with a failure.
#[derive(Debug, Clone, Copy, PartialEq, Eq, Structural)]
pub enum CpuError {
    /// The byte `opcode`, read at `program_counter`, is not in the opcode table.
    UnknownOpcode { opcode: u8, program_counter: u16 },
}

/// What one step did.
#[derive(Debug, Clone, Copy, PartialEq, Eq, Structural)]
pub enum StepOutcome {
    /// An instruction ran; the program goes on.
    Executed,
    /// BRK was fetched; the program is over.
    Halted,
}

/// How a bounded run ended without failure.
#[derive(Debug, Clone, Copy, PartialEq, Eq, Structural)]
pub enum RunOutcome {
    /// BRK was fetched.
    Halted,
    /// The step budget ran out first.
    OutOfSteps,
}

/// The state after one fetch/decode/execute step from `s`. An unknown opcode
/// leaves the state as it is; BRK only moves past its opcode byte; any other
/// instruction runs its handler with the program counter past the opcode and,
/// unless the handler moved the program counter, then skips the operand bytes.
pub open spec fn step_state(s: CpuState) -> CpuState {
    match opcode_table(s.read(s.pc)) {
        None => s,
        Some((name, op)) => {
            let fetched = CpuState { pc: next_address(s.pc), ..s };
            if name is ForceInterrupt {
                fetched
            } else {
                let done = execute(fetched, name, op.addressing_mode);
                if done.pc == fetched.pc {
                    CpuState { pc: ((done.pc as int + op.len as int - 1) % 0x10000) as u16, ..done }
                } else {
                    done
                }
            }
        },
    }
}

/// What one step from `s` reports.
pub open spec fn step_outcome(s: CpuState) -> Result<StepOutcome, CpuError> {
    match opcode_table(s.read(s.pc)) {
        None => Err(CpuError::UnknownOpcode { opcode: s.read(s.pc), program_counter: s.pc }),
        Some((name, _)) => if name is ForceInterrupt {
            Ok(StepOutcome::Halted)
        } else {
            Ok(StepOutcome::Executed)
        },
    }
}

/// The state and the outcome after stepping from `s` until BRK, an unknown
/// opcode, or `fuel` steps.
pub open spec fn run_spec(s: CpuState, fuel: nat) -> (CpuState, Result<RunOutcome, CpuError>)
    decreases fuel,
{
    if fuel == 0 {
        (s, Ok(RunOutcome::OutOfSteps))
    } else {
        match step_outcome(s) {
            Err(e) => (s, Err(e)),
            Ok(StepOutcome::Halted) => (step_state(s), Ok(RunOutcome::Halted)),
            Ok(StepOutcome::Executed) => run_spec(step_state(s), (fuel - 1) as nat),
        }
    }
}

/// A run's result with the way a successful run ended dropped.
pub open spec fn without_outcome(o: Result<RunOutcome, CpuError>) -> Result<(), CpuError> {
    match o {
        Ok(_) => Ok(()),
        Err(e) => Err(e),
    }
}

/// `s` after `program` is loaded at 0x8000 and the processor is reset.
pub open spec fn loaded_and_reset(s: CpuState, program: Seq<u8>) -> CpuState {
    CpuState {
        a: 0,
        x: 0,
        p: 0,
        s: STACK_RESET,
        pc: PROGRAM_START,
        mem: with_word(with_image(s.mem, PROGRAM_START as int, program), RESET_VECTOR, PROGRAM_START),
        ..s
    }
}

impl Default for CPU {
    fn default() -> (r: CPU)
        ensures
            r.wf(),
            r@.a == 0 && r@.x == 0 && r@.y == 0 && r@.p == 0 && r@.pc == 0,
            r@.s == STACK_RESET,
            forall|i: int| 0 <= i < MEMORY_SIZE ==> r@.mem[i] == 0,
    {
        CPU::new()
    }
}

impl CPU {
    /// A processor with zero registers and status, the stack pointer at its
    /// reset value and every memory cell zero.
    pub fn new() -> (r: CPU)
        ensures
            r.wf(),
            r@.a == 0 && r@.x == 0 && r@.y == 0 && r@.p == 0 && r@.pc == 0,
            r@.s == STACK_RESET,
            forall|i: int| 0 <= i < MEMORY_SIZE ==> r@.mem[i] == 0,
    {
        CPU {
            register_a: 0,
            register_x: 0,
            register_y: 0,
            status: 0,
            stack_pointer: STACK_RESET,
            program_counter: 0,
            memory: Memory::new(),
        }
    }

    /// Zeroes A, X and the status byte, sets the stack pointer to 0xFD and the
    /// program counter to the word at the reset vector.
    pub fn reset(&mut self)
        requires
            old(self).wf(),
        ensures
            final(self).wf(),
            final(self)@ == (CpuState {
                a: 0,
                x: 0,
                p: 0,
                s: STACK_RESET,
                pc: word_at(old(self)@.mem, RESET_VECTOR),
                ..old(self)@
            }),
    {
        self.register_a = 0;
        self.register_x = 0;
        self.status = 0;
        self.stack_pointer = STACK_RESET;
        self.program_counter = self.memory.read_u16(RESET_VECTOR);
    }

    /// Fetches, decodes and executes one instruction.
    pub fn step(&mut self) -> (r: Result<StepOutcome, CpuError>)
        requires
            old(self).wf(),
        ensures
            final(self).wf(),
            final(self)@ == step_state(old(self)@),
            r == step_outcome(old(self)@),
    {
        let pc = self.program_counter;
        let code = self.memory.read_u8(pc);
        match decode(code) {
            None => Err(CpuError::UnknownOpcode { opcode: code, program_counter: pc }),
            Some((name, op)) => {
                self.program_counter = pc.wrapping_add(1);
                if let OperationName::ForceInterrupt = name {
                    return Ok(StepOutcome::Halted);
                }
                let before = self.program_counter;
                execute_instruction(self, name, &op.addressing_mode);
                if self.program_counter == before {
                    self.program_counter = self.program_counter.wrapping_add((op.len - 1) as u16);
                }
                Ok(StepOutcome::Executed)
            },
        }
    }

    /// Executes instructions until BRK, an unknown opcode, or `max_steps` of them.
    pub fn run_steps(&mut self, max_steps: u64) -> (r: Result<RunOutcome, CpuError>)
        requires
            old(self).wf(),
        ensures
            final(self).wf(),
            (final(self)@, r) == run_spec(old(self)@, max_steps as nat),
    {
        let mut remaining: u64 = max_steps;
        while remaining > 0
            invariant
                self.wf(),
                run_spec(self@, remaining as nat) == run_spec(old(self)@, max_steps as nat),
            decreases remaining,
        {
            match self.step() {
                Err(e) => {
                    return Err(e);
                },
                Ok(StepOutcome::Halted) => {
                    return Ok(RunOutcome::Halted);
                },
                Ok(StepOutcome::Executed) => {
                    remaining = remaining - 1;
                },
            }
        }
        Ok(RunOutcome::OutOfSteps)
    }

    /// Executes instructions until BRK or an unknown opcode (at most
    /// `u64::MAX` of them).
    pub fn run(&mut self) -> (r: Result<(), CpuError>)
        requires
            old(self).wf(),
        ensures
            final(self).wf(),
            final(self)@ == run_spec(old(self)@, u64::MAX as nat).0,
            r == without_outcome(run_spec(old(self)@, u64::MAX as nat).1),
    {
        match self.run_steps(u64::MAX) {
            Ok(_) => Ok(()),
            Err(e) => Err(e),
        }
    }

    /// Like `run`, calling `callback` with the processor before each
    /// instruction fetch.
    pub fn run_with_callback<F: Fn(&CPU)>(&mut self, callback: F) -> (r: Result<(), CpuError>)
        requires
            old(self).wf(),
            forall|cpu: &CPU| #[trigger] callback.requires((cpu,)),
        ensures
            final(self).wf(),
            final(self)@ == run_spec(old(self)@, u64::MAX as nat).0,
            r == without_outcome(run_spec(old(self)@, u64::MAX as nat).1),
    {
        let mut remaining: u64 = u64::MAX;
        while remaining > 0
            invariant
                self.wf(),
                forall|cpu: &CPU| #[trigger] callback.requires((cpu,)),
                run_spec(self@, remaining as nat) == run_spec(old(self)@, u64::MAX as nat),
                run_spec(old(self)@, u64::MAX as nat).1 is Ok || remaining > 0,
            decreases remaining,
        {
            callback(&*self);
            match self.step() {
                Err(e) => {
                    return Err(e);
                },
                Ok(StepOutcome::Halted) => {
                    return Ok(());
                },
                Ok(StepOutcome::Executed) => {
                    remaining = remaining - 1;
                },
            }
        }
        Ok(())
    }

    /// Loads `program` at 0x8000, resets, and runs until BRK or an unknown opcode.
    pub fn load_and_run(&mut self, program: Vec<u8>) -> (r: Result<(), CpuError>)
        requires
            old(self).wf(),
            program@.len() <= MEMORY_SIZE - PROGRAM_START,
        ensures
            final(self).wf(),
            final(self)@ == run_spec(loaded_and_reset(old(self)@, program@), u64::MAX as nat).0,
            r == without_outcome(run_spec(loaded_and_reset(old(self)@, program@), u64::MAX as nat).1),
    {
        proof {
            lemma_word_round_trip(
                with_image(old(self)@.mem, PROGRAM_START as int, program@),
                RESET_VECTOR,
                PROGRAM_START,
            );
        }
        self.memory.load(program);
        self.reset();
        self.run()
    }
}

} // verus!
