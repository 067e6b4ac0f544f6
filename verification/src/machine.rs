//! The machine model: registers, memory and the fetch-decode-execute
//! cycle.
//!
//! [`BabyModel`] holds the 32-word memory, the accumulator, the
//! program counter and the instruction register. Every transition
//! (`jump`, `relative_jump`, `negate`, `store`, `subtract`, `test`,
//! `execute`, `run_loop`) borrows the old model and returns a new one;
//! no state is ever mutated in place, which makes replay and
//! equality-based testing of successive states possible. The contracts
//! relate each new model to [`MachineView`], the mathematical view of
//! the machine, through the pure transition functions defined here.
//!
//! All address arithmetic wraps modulo 32 by masking, never by error:
//! out-of-range addresses alias into the 32-word space, as on the
//! original hardware. The accumulator wraps modulo 2^32 in two's
//! complement for the same reason.

use vstd::prelude::*;
use vstd::string::*;

pub mod errors;
pub mod instructions;

verus! {

use crate::machine::instructions::{
    BabyInstruction,
    spec_decode,
    spec_encode,
    spec_operand,
    spec_instr_description,
};
use crate::machine::errors::{BabyErrors, Stop, IterationsExceeded};
use crate::text;
use vstd::wrapping::i32_specs;

/// The number of words in the memory used globally.
pub const MEMORY_WORDS: usize = 32;

/// The size of the process word.
pub type WORD = i32;

/// Size of the instruction field: the low 16 bits of the 32 bit word.
pub const INSTR_LEN: usize = 16;

/// Mask that selects the instruction field out of a word.
pub const INSTR_MASK: u16 = 0xFFFF;

/// A result from [`BabyModel`] executing an instruction: either the
/// updated model or the signal that ended execution.
pub type InstrResult = Result<BabyModel, BabyErrors>;

/// The instruction field of a word: its low 16 bits.
pub open spec fn low16(w: i32) -> u16 {
    (w & 0xFFFF) as u16
}

/// An address folded into the 32 word space.
pub open spec fn wrap5(x: int) -> u16
    recommends
        x >= 0,
{
    (x % 32) as u16
}

/// The low 5 bits of a word, as a memory address.
pub open spec fn word_addr5(w: i32) -> u16 {
    (w & 0x1F) as u16
}

/// The mathematical view of a machine state: the memory as a sequence
/// of words plus the three registers.
#[verifier::ext_equal]
pub struct MachineView {
    /// The 32 memory words.
    pub store: Seq<i32>,
    /// The accumulator register.
    pub accumulator: i32,
    /// The program counter.
    pub pc: u16,
    /// The instruction register.
    pub ir: u16,
}

/// What the instruction register reads after a fetch from the given
/// address.
pub open spec fn fetch_ir(store: Seq<i32>, pc: u16) -> u16
    recommends
        pc < store.len(),
{
    low16(store[pc as int])
}

/// The jump transition: the program counter becomes the low 5 bits of
/// the dereferenced value and the next instruction is fetched from
/// there; accumulator and memory are unchanged.
pub open spec fn jump_view(v: MachineView, value: i32) -> MachineView {
    let pc = word_addr5(value);
    MachineView { store: v.store, accumulator: v.accumulator, pc, ir: fetch_ir(v.store, pc) }
}

/// The relative jump transition: the dereferenced value's instruction
/// field is added to the program counter, wrapping modulo 32.
pub open spec fn relative_jump_view(v: MachineView, offset: i32) -> MachineView {
    let pc = wrap5(v.pc + low16(offset));
    MachineView { store: v.store, accumulator: v.accumulator, pc, ir: fetch_ir(v.store, pc) }
}

/// The negate transition: the accumulator becomes the two's complement
/// negation of the value and the program counter advances by one.
pub open spec fn negate_view(v: MachineView, value: i32) -> MachineView {
    let pc = wrap5(v.pc + 1);
    MachineView {
        store: v.store,
        accumulator: i32_specs::wrapping_sub(0, value),
        pc,
        ir: fetch_ir(v.store, pc),
    }
}

/// The store transition: the accumulator is written to the addressed
/// cell and the program counter advances by one; the next instruction
/// is fetched from the updated memory.
pub open spec fn store_view(v: MachineView, address: i32) -> MachineView {
    let store = v.store.update(word_addr5(address) as int, v.accumulator);
    let pc = wrap5(v.pc + 1);
    MachineView { store, accumulator: v.accumulator, pc, ir: fetch_ir(store, pc) }
}

/// The subtract transition: the value is subtracted from the
/// accumulator in wrapping two's complement arithmetic and the program
/// counter advances by one.
pub open spec fn subtract_view(v: MachineView, value: i32) -> MachineView {
    let pc = wrap5(v.pc + 1);
    MachineView {
        store: v.store,
        accumulator: i32_specs::wrapping_sub(v.accumulator, value),
        pc,
        ir: fetch_ir(v.store, pc),
    }
}

/// The skip-if-negative transition: the program counter advances by
/// two when the accumulator is negative, else by one.
pub open spec fn test_view(v: MachineView) -> MachineView {
    let pc = wrap5(v.pc + if v.accumulator < 0 { 2int } else { 1int });
    MachineView { store: v.store, accumulator: v.accumulator, pc, ir: fetch_ir(v.store, pc) }
}

/// One step of the machine: decode the instruction register,
/// dereference the operand, and dispatch. A store writes the
/// accumulator through the operand address itself; every other
/// address-bearing instruction works on the dereferenced value. `Err`
/// carries the program counter at which a stop instruction was met.
pub open spec fn step_view(v: MachineView) -> Result<MachineView, u16>
    recommends
        v.store.len() == 32,
{
    let instruction = spec_decode(v.ir);
    let operand = spec_operand(instruction);
    let operand_value = v.store[operand as int];
    match instruction {
        BabyInstruction::Jump(_) => Ok(jump_view(v, operand_value)),
        BabyInstruction::RelativeJump(_) => Ok(relative_jump_view(v, operand_value)),
        BabyInstruction::Negate(_) => Ok(negate_view(v, operand_value)),
        BabyInstruction::Store(_) => Ok(store_view(v, operand as i32)),
        BabyInstruction::Subtract(_) => Ok(subtract_view(v, operand_value)),
        BabyInstruction::SkipNextIfNegative => Ok(test_view(v)),
        BabyInstruction::Stop => Err(v.pc),
        BabyInstruction::AbsoluteValue(_) => Ok(v),
    }
}

/// The machine run for at most `fuel` steps: the final view, paired
/// with the stop address when a stop instruction was met, or `None`
/// when the fuel ran out first.
pub open spec fn run_view(v: MachineView, fuel: nat) -> (MachineView, Option<u16>)
    recommends
        v.store.len() == 32,
    decreases fuel,
{
    if fuel == 0 {
        (v, None)
    } else {
        match step_view(v) {
            Ok(next) => run_view(next, (fuel - 1) as nat),
            Err(at) => (v, Some(at)),
        }
    }
}

/// The memory image of the built-in example program.
pub open spec fn example_program_store() -> Seq<i32> {
    Seq::new(
        32,
        |i: int|
            if i == 0 {
                spec_encode(BabyInstruction::Negate(5))
            } else if i == 1 {
                spec_encode(BabyInstruction::Subtract(5))
            } else if i == 2 {
                spec_encode(BabyInstruction::Store(6))
            } else if i == 3 {
                spec_encode(BabyInstruction::Negate(6))
            } else if i == 4 {
                spec_encode(BabyInstruction::Stop)
            } else if i == 5 {
                spec_encode(BabyInstruction::AbsoluteValue(-5i32))
            } else {
                0i32
            },
    )
}

/// One memory cell of the dump: its address and its contents in
/// fixed-width hexadecimal.
pub open spec fn spec_dump_cell(store: Seq<i32>, addr: int) -> Seq<char> {
    "0x"@ + text::spec_hex_fixed(addr as u32, 2) + ": 0x"@ + text::spec_hex_fixed(
        text::spec_word_bits(store[addr]),
        8,
    ) + "; "@
}

/// The first `n` cells of the memory grid, four to a row, with a line
/// break after every full row but the last.
pub open spec fn spec_dump_cells(store: Seq<i32>, n: int) -> Seq<char>
    decreases n,
{
    if n <= 0 {
        Seq::empty()
    } else {
        spec_dump_cells(store, n - 1) + spec_dump_cell(store, n - 1) + if n % 4 == 0 && n != 32 {
            "\n"@
        } else {
            Seq::empty()
        }
    }
}

/// The header of the dump: the registers and the decoded current
/// instruction.
pub open spec fn spec_dump_head(v: MachineView) -> Seq<char> {
    "Accumulator: 0x"@ + text::spec_hex_fixed(text::spec_word_bits(v.accumulator), 8)
        + "; Instruction Register: 0x"@ + text::spec_hex_fixed(v.ir as u32, 4) + " ("@
        + spec_instr_description(spec_decode(v.ir)) + " - "@ + text::spec_dec_i32(
        v.store[spec_operand(spec_decode(v.ir)) as int],
    ) + ");\n"@ + "Instruction Address: 0x"@ + text::spec_hex_fixed(v.pc as u32, 4)
        + "; Main Store: \n"@
}

/// What the diagnostic dump of a machine state reads: the header
/// followed by the full 32 cell memory grid.
pub open spec fn spec_core_dump(v: MachineView) -> Seq<char> {
    spec_dump_head(v) + spec_dump_cells(v.store, 32)
}

/// Stepping the machine is a pure function of the state: two
/// structurally equal states step to structurally equal results, and a
/// state can be stepped any number of times with the same outcome.
pub proof fn lemma_step_deterministic(a: BabyModel, b: BabyModel)
    requires
        a@ == b@,
    ensures
        step_view(a@) == step_view(b@),
{
}

/// The machine can never get stuck: every word decodes to some
/// instruction, and the only way a step fails to produce a next state
/// is a stop instruction, which carries the program counter it stood
/// at.
pub proof fn lemma_stop_is_the_only_exit(v: MachineView)
    ensures
        step_view(v) is Err ==> spec_decode(v.ir) == BabyInstruction::Stop,
        step_view(v) is Err ==> step_view(v) == Err::<MachineView, u16>(v.pc),
{
}

/// The invariant of every reachable state: a transition leaves the
/// program counter inside the 32 word memory and the instruction
/// register holding the instruction field of the word the program
/// counter points at — the next instruction is fetched eagerly, so
/// reading the current instruction never goes back to memory.
pub proof fn lemma_eager_fetch_invariant(v: MachineView)
    ensures
        step_view(v) matches Ok(next) ==> {
            &&& next.pc < 32
            &&& next.ir == fetch_ir(next.store, next.pc)
        },
{
    match spec_decode(v.ir) {
        BabyInstruction::Jump(_) => {
            let value = v.store[spec_operand(spec_decode(v.ir)) as int];
            lemma_addr5_bounds(value);
        },
        BabyInstruction::Store(_) => {
            lemma_addr5_bounds(spec_operand(spec_decode(v.ir)) as i32);
        },
        _ => (),
    }
}

/// The model containing the data in all the registers and memory to be
/// operated upon.
#[derive(Clone, Copy, PartialEq, Debug)]
pub struct BabyModel {
    /// The memory (RAM): 32 words of 32 bits.
    pub main_store: [WORD; 32],
    /// The register where all mathematical results are stored
    /// (negations and subtractions).
    pub accumulator: WORD,
    /// The memory address of the instruction currently being executed
    /// (program counter).
    pub instruction_address: u16,
    /// The 16 bit instruction being executed (instruction register).
    pub instruction: u16,
}

impl View for BabyModel {
    type V = MachineView;

    open spec fn view(&self) -> MachineView {
        MachineView {
            store: self.main_store@,
            accumulator: self.accumulator,
            pc: self.instruction_address,
            ir: self.instruction,
        }
    }
}

/// Truncating a word to its instruction field stays within 16 bits.
proof fn lemma_low16_bounds(w: i32)
    by (bit_vector)
    ensures
        0 <= (w & 0xFFFF) <= 0xFFFF,
{
}

/// Masking a word to its low 5 bits yields an address below 32.
proof fn lemma_addr5_bounds(w: i32)
    by (bit_vector)
    ensures
        0 <= (w & 0x1F) < 32,
{
}

/// Masking a non-negative number to its low 5 bits is reduction
/// modulo 32.
proof fn lemma_mask5_is_mod(x: u32)
    by (bit_vector)
    ensures
        x & 0x1F == x % 32,
{
}

impl BabyModel {
    /// Creates a new model with all zeros.
    pub fn new() -> (r: BabyModel)
        ensures
            r@.store =~= Seq::new(32, |i: int| 0i32),
            r@.accumulator == 0,
            r@.pc == 0,
            r@.ir == 0,
    {
        BabyModel { main_store: [0; 32], accumulator: 0, instruction_address: 0, instruction: 0 }
    }

    /// Creates a new model with a specified memory, ready to start
    /// executing at address zero: the first instruction is already
    /// fetched into the instruction register.
    pub fn new_with_program(main_store: [WORD; 32]) -> (r: BabyModel)
        ensures
            r.main_store == main_store,
            r.accumulator == 0,
            r.instruction_address == 0,
            r.instruction == low16(main_store@[0]),
    {
        proof {
            lemma_low16_bounds(main_store@[0]);
        }
        let instruction = (main_store[0] & 0xFFFF) as u16;
        BabyModel { main_store, accumulator: 0, instruction_address: 0, instruction }
    }

    /// Creates a new model with an example program loaded into memory:
    /// it negates a stored -5, subtracts it, stores and re-negates the
    /// result, and stops.
    pub fn new_example_program() -> (r: BabyModel)
        ensures
            r.main_store@ =~= example_program_store(),
            r.accumulator == 0,
            r.instruction_address == 0,
            r.instruction == low16(example_program_store()[0]),
    {
        let instrs = vec![
            BabyInstruction::Negate(5),
            BabyInstruction::Subtract(5),
            BabyInstruction::Store(6),
            BabyInstruction::Negate(6),
            BabyInstruction::Stop,
            BabyInstruction::AbsoluteValue(-5),
        ];
        let main_store = BabyInstruction::to_numbers(instrs);
        proof {
            assert(main_store@ =~= example_program_store());
        }
        Self::new_with_program(main_store)
    }

    /// Executes the instruction in the instruction register: one full
    /// fetch-decode-execute step, returning the new model, or the stop
    /// signal with the address where the stop instruction stood.
    ///
    /// A store receives its operand address directly, so that the
    /// accumulator lands in the addressed cell; every other
    /// address-bearing instruction receives the dereferenced value.
    pub fn execute(&self) -> (r: InstrResult)
        ensures
            match r {
                Ok(m) => step_view(self@) == Ok::<MachineView, u16>(m@),
                Err(e) => {
                    &&& step_view(self@) == Err::<MachineView, u16>(self.instruction_address)
                    &&& e == BabyErrors::Stop(Stop { at: self.instruction_address })
                },
            },
    {
        let (operand_value, instruction) = self.decode_instruction();
        let argument = match instruction {
            BabyInstruction::Store(_) => instruction.get_operand() as WORD,
            _ => operand_value,
        };
        self.dispatch_instruction(instruction, argument)
    }

    /// Decodes the instruction register into an instruction and the
    /// word its operand points at.
    pub fn decode_instruction(&self) -> (r: (WORD, BabyInstruction))
        ensures
            r.1 == spec_decode(self.instruction),
            r.0 == self.main_store@[spec_operand(r.1) as int],
    {
        let instruction = BabyInstruction::from_number(self.instruction);
        let operand = instruction.get_operand();
        let operand_value = self.main_store[operand];
        (operand_value, instruction)
    }

    /// Executes the instructions in memory until a stop instruction is
    /// met or the iteration ceiling is hit.
    ///
    /// Returns the model in its final state together with the signal
    /// that ended the run: the stop, or the iteration ceiling carrying
    /// that final state.
    pub fn run_loop(&self, max_iter: usize) -> (r: (BabyModel, BabyErrors))
        ensures
            r.0@ == run_view(self@, max_iter as nat).0,
            match r.1 {
                BabyErrors::Stop(s) => {
                    &&& run_view(self@, max_iter as nat).1 == Some(s.at)
                    &&& s.at == r.0.instruction_address
                },
                BabyErrors::IterationExceeded(e) => {
                    &&& run_view(self@, max_iter as nat).1 is None
                    &&& e.max_iter == max_iter
                    &&& e.end_model == r.0
                },
            },
    {
        let mut model = self.clone();
        let mut iter: usize = 0;
        while iter < max_iter
            invariant
                model.main_store@.len() == 32,
                iter <= max_iter,
                run_view(self@, max_iter as nat) == run_view(model@, (max_iter - iter) as nat),
            decreases max_iter - iter,
        {
            model = match model.execute() {
                Ok(m) => m,
                Err(e) => {
                    proof {
                        assert(run_view(model@, (max_iter - iter) as nat).0 =~= model@);
                    }
                    return (model, e);
                },
            };
            iter = iter + 1;
        }
        let err = IterationsExceeded::new(max_iter, model.clone());
        (model, BabyErrors::IterationExceeded(err))
    }

    /// Takes an instruction and the word its operand dereferences to,
    /// and calls the matching transition; a stop instruction yields the
    /// stop signal carrying the current program counter instead.
    pub fn dispatch_instruction(&self, instruction: BabyInstruction, operand_value: WORD) -> (r:
        InstrResult)
        ensures
            match instruction {
                BabyInstruction::Jump(_) => r == Ok::<BabyModel, BabyErrors>(
                    self.spec_jump(operand_value),
                ),
                BabyInstruction::RelativeJump(_) => r matches Ok(m) && m@ == relative_jump_view(
                    self@,
                    operand_value,
                ),
                BabyInstruction::Negate(_) => r matches Ok(m) && m@ == negate_view(
                    self@,
                    operand_value,
                ),
                BabyInstruction::Store(_) => r matches Ok(m) && m@ == store_view(
                    self@,
                    operand_value,
                ),
                BabyInstruction::Subtract(_) => r matches Ok(m) && m@ == subtract_view(
                    self@,
                    operand_value,
                ),
                BabyInstruction::SkipNextIfNegative => r matches Ok(m) && m@ == test_view(self@),
                BabyInstruction::Stop => r == Err::<BabyModel, BabyErrors>(
                    BabyErrors::Stop(Stop { at: self.instruction_address }),
                ),
                BabyInstruction::AbsoluteValue(_) => r == Ok::<BabyModel, BabyErrors>(*self),
            },
    {
        let res = match instruction {
            BabyInstruction::Jump(_) => self.jump(operand_value),
            BabyInstruction::RelativeJump(_) => self.relative_jump(operand_value),
            BabyInstruction::Negate(_) => self.negate(operand_value),
            BabyInstruction::Store(_) => self.store(operand_value),
            BabyInstruction::Subtract(_) => self.subtract(operand_value),
            BabyInstruction::SkipNextIfNegative => self.test(),
            BabyInstruction::Stop => {
                return Err(BabyErrors::Stop(Stop { at: self.instruction_address }));
            },
            _ => self.clone(),
        };
        Ok(res)
    }

    /// The jump transition on the model itself.
    pub open spec fn spec_jump(&self, address: i32) -> BabyModel {
        BabyModel {
            main_store: self.main_store,
            accumulator: self.accumulator,
            instruction_address: word_addr5(address),
            instruction: fetch_ir(self.main_store@, word_addr5(address)),
        }
    }

    /// Carries out a jump to the address given by the low 5 bits of
    /// `address`: jumping can never leave the 32 word memory.
    pub fn jump(&self, address: WORD) -> (r: BabyModel)
        ensures
            r == self.spec_jump(address),
            r@ == jump_view(self@, address),
    {
        proof {
            lemma_addr5_bounds(address);
            lemma_low16_bounds(self.main_store@[(address & 0x1F) as int]);
        }
        let instruction_address = (address & 0x1F) as u16;
        let instruction = (self.main_store[instruction_address as usize] & 0xFFFF) as u16;
        BabyModel {
            main_store: self.main_store,
            accumulator: self.accumulator,
            instruction_address,
            instruction,
        }
    }

    /// Carries out a jump to the instruction address plus an offset,
    /// wrapping modulo 32 so the jump loops back into memory.
    pub fn relative_jump(&self, offset: WORD) -> (r: BabyModel)
        ensures
            r@ == relative_jump_view(self@, offset),
    {
        proof {
            lemma_low16_bounds(offset);
        }
        let offset16 = (offset & 0xFFFF) as u16;
        let sum = self.instruction_address as u32 + offset16 as u32;
        proof {
            lemma_mask5_is_mod(sum);
        }
        let instruction_address = (sum & 0x1F) as u16;
        proof {
            lemma_low16_bounds(self.main_store@[instruction_address as int]);
        }
        let instruction = (self.main_store[instruction_address as usize] & 0xFFFF) as u16;
        BabyModel {
            main_store: self.main_store,
            accumulator: self.accumulator,
            instruction_address,
            instruction,
        }
    }

    /// Negates a value in two's complement and stores it into the
    /// accumulator, advancing the program counter by one.
    pub fn negate(&self, value: WORD) -> (r: BabyModel)
        ensures
            r@ == negate_view(self@, value),
    {
        let instruction_address = self.advanced_address(1);
        proof {
            lemma_low16_bounds(self.main_store@[instruction_address as int]);
        }
        let instruction = (self.main_store[instruction_address as usize] & 0xFFFF) as u16;
        BabyModel {
            main_store: self.main_store,
            accumulator: (0i32).wrapping_sub(value),
            instruction_address,
            instruction,
        }
    }

    /// Stores the accumulator at the addressed cell (masked into the
    /// 32 word memory), advancing the program counter by one; the next
    /// instruction is fetched from the updated memory.
    pub fn store(&self, address: WORD) -> (r: BabyModel)
        ensures
            r@ == store_view(self@, address),
    {
        proof {
            lemma_addr5_bounds(address);
        }
        let cell = (address & 0x1F) as usize;
        let mut main_store = self.main_store;
        main_store[cell] = self.accumulator;
        let instruction_address = self.advanced_address(1);
        proof {
            lemma_low16_bounds(main_store@[instruction_address as int]);
        }
        let instruction = (main_store[instruction_address as usize] & 0xFFFF) as u16;
        BabyModel {
            main_store,
            accumulator: self.accumulator,
            instruction_address,
            instruction,
        }
    }

    /// Subtracts the value from the accumulator in wrapping two's
    /// complement arithmetic, advancing the program counter by one.
    pub fn subtract(&self, value: WORD) -> (r: BabyModel)
        ensures
            r@ == subtract_view(self@, value),
    {
        let instruction_address = self.advanced_address(1);
        proof {
            lemma_low16_bounds(self.main_store@[instruction_address as int]);
        }
        let instruction = (self.main_store[instruction_address as usize] & 0xFFFF) as u16;
        BabyModel {
            main_store: self.main_store,
            accumulator: self.accumulator.wrapping_sub(value),
            instruction_address,
            instruction,
        }
    }

    /// Skips the next instruction address if the accumulator is
    /// negative: the program counter advances by two instead of one,
    /// wrapping modulo 32.
    pub fn test(&self) -> (r: BabyModel)
        ensures
            r@ == test_view(self@),
    {
        let instruction_address = if self.accumulator < 0 {
            self.advanced_address(2)
        } else {
            self.advanced_address(1)
        };
        proof {
            lemma_low16_bounds(self.main_store@[instruction_address as int]);
        }
        let instruction = (self.main_store[instruction_address as usize] & 0xFFFF) as u16;
        BabyModel {
            main_store: self.main_store,
            accumulator: self.accumulator,
            instruction_address,
            instruction,
        }
    }

    /// Generates a string representation of the current state of the
    /// model: every register, the decoded current instruction, and the
    /// full memory grid.
    #[verifier::rlimit(50)]
    pub fn core_dump(&self) -> (r: String)
        ensures
            r@ == spec_core_dump(self@),
    {
        let instruction = BabyInstruction::from_number(self.instruction);
        let instr_desc = instruction.get_instr_description();
        let operand_addr = instruction.get_operand();
        let operand = self.main_store[operand_addr];
        let mut res = String::from_str("Accumulator: 0x");
        res.append(text::hex_fixed(text::word_bits(self.accumulator), 8).as_str());
        res.append("; Instruction Register: 0x");
        res.append(text::hex_fixed(self.instruction as u32, 4).as_str());
        res.append(" (");
        res.append(instr_desc.as_str());
        res.append(" - ");
        res.append(text::dec_i32(operand).as_str());
        res.append(");\n");
        res.append("Instruction Address: 0x");
        res.append(text::hex_fixed(self.instruction_address as u32, 4).as_str());
        res.append("; Main Store: \n");
        let mut addr: usize = 0;
        while addr < 32
            invariant
                0 <= addr <= 32,
                self.main_store@.len() == 32,
                res@ == spec_dump_head(self@) + spec_dump_cells(self@.store, addr as int),
            decreases 32 - addr,
        {
            res.append("0x");
            res.append(text::hex_fixed(addr as u32, 2).as_str());
            res.append(": 0x");
            res.append(text::hex_fixed(text::word_bits(self.main_store[addr]), 8).as_str());
            res.append("; ");
            if addr % 4 == 3 && addr != 31 {
                res.append("\n");
            }
            addr = addr + 1;
        }
        res
    }

    /// The program counter advanced by `k`, folded into the 32 word
    /// address space.
    fn advanced_address(&self, k: u16) -> (r: u16)
        ensures
            r == wrap5(self.instruction_address + k),
            r < 32,
    {
        let sum = self.instruction_address as u32 + k as u32;
        proof {
            lemma_mask5_is_mod(sum);
        }
        (sum & 0x1F) as u16
    }
}

} // verus!
