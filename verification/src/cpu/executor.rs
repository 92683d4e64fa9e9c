//! The dispatcher: it finds the handler of an instruction word by its
//! opcode and selector fields, runs it, and settles where the program
//! counter stands afterwards.
use vstd::prelude::*;
use crate::cpu::{Cpu, CpuView};
use crate::cpu::instructions::decoder::{
    funct3_of, funct7_of, get_instruction_size, get_op_code, i_imm_of, opcode_of, size_of_opcode,
    BTypeDecoder, Funct3Decoder, Funct7Decoder, ITypeDecoder, InstructionFormat, InstructionSize,
    Instrunction32Decoder, JTypeDecoder, RTypeDecoder, STypeDecoder, UTypeDecoder,
};
use crate::cpu::instructions::implementations::{
    CpuInstructionsOpCodes, InstructionsExecutor, SubFunctions,
};
use crate::cpu::instructions::implementations::conditional_branches::{
    after_beq, after_bge, after_bgeu, after_blt, after_bltu, after_bne,
};
use crate::cpu::instructions::implementations::control_transfer::{after_jal, after_jalr};
use crate::cpu::instructions::implementations::int_register_immediate::{
    after_addi, after_addiw, after_andi, after_auipc, after_lui, after_ori, after_slli,
    after_slti, after_sltiu, after_srai, after_srli, after_xori,
};
use crate::cpu::instructions::implementations::int_registers::{
    after_add, after_addw, after_and, after_or, after_sll, after_slt, after_sltu, after_sra,
    after_srl, after_sub, after_subw, after_xor,
};
use crate::cpu::instructions::implementations::load::{after_load, load_result};
use crate::cpu::instructions::implementations::store::{after_store, store_outcome};
use crate::cpu::side_effects::OperationSideEffect;
use crate::error::AppErrors;

verus! {

/// What a step leaves: the report of the instruction, and the state of the machine.
pub struct Outcome {
    pub result: Result<OperationSideEffect, AppErrors>,
    pub state: CpuView,
}

/// An instruction that ran and leaves the program counter to the dispatcher.
pub open spec fn done(state: CpuView) -> Outcome {
    Outcome { result: Ok(OperationSideEffect::NoEffect), state }
}

/// An instruction that ran and has placed the program counter itself.
pub open spec fn placed(state: CpuView) -> Outcome {
    Outcome { result: Ok(OperationSideEffect::SkipPCIncrease), state }
}

/// An instruction that did not run: the fault, and the state as it was.
pub open spec fn fault(state: CpuView, error: AppErrors) -> Outcome {
    Outcome { result: Err(error), state }
}

/// Whether the selector fields of a word are those that name an instruction.
pub open spec fn selects(funct3: u8, second: u8, selector: (u8, u8)) -> bool {
    funct3 == selector.0 && second == selector.1
}

/// The top 6 bits of the I-format immediate field, bits [31:26]: they tell
/// the two right shifts by an immediate apart.
pub open spec fn shift_variant_of(w: u32) -> u8 {
    (w as int / 0x400_0000) as u8
}

/// Operations on a register and an immediate, by funct3.
pub open spec fn int_reg_immediate_spec(s: CpuView, w: u32) -> Outcome {
    let f3 = funct3_of(w);
    if f3 == SubFunctions::ADDI {
        done(after_addi(s, w))
    } else if f3 == SubFunctions::SLTI {
        done(after_slti(s, w))
    } else if f3 == SubFunctions::SLTIU {
        done(after_sltiu(s, w))
    } else if f3 == SubFunctions::ORI {
        done(after_ori(s, w))
    } else if f3 == SubFunctions::XORI {
        done(after_xori(s, w))
    } else if f3 == SubFunctions::ANDI {
        done(after_andi(s, w))
    } else if f3 == SubFunctions::SLLI {
        done(after_slli(s, w))
    } else if f3 == SubFunctions::SRLI_SRAI_F3 {
        let variant = shift_variant_of(w);
        if selects(f3, variant, SubFunctions::SRLI) {
            done(after_srli(s, w))
        } else if selects(f3, variant, SubFunctions::SRAI) {
            done(after_srai(s, w))
        } else {
            fault(s, AppErrors::FuctionNotImplemented(f3, Some(variant)))
        }
    } else {
        fault(s, AppErrors::FuctionNotImplemented(f3, None))
    }
}

/// Operations on two registers, by funct3 and funct7.
pub open spec fn int_reg_reg_spec(s: CpuView, w: u32) -> Outcome {
    let f3 = funct3_of(w);
    let f7 = funct7_of(w);
    if selects(f3, f7, SubFunctions::ADD) {
        done(after_add(s, w))
    } else if selects(f3, f7, SubFunctions::SUB) {
        done(after_sub(s, w))
    } else if selects(f3, f7, SubFunctions::SLT) {
        done(after_slt(s, w))
    } else if selects(f3, f7, SubFunctions::SLTU) {
        done(after_sltu(s, w))
    } else if selects(f3, f7, SubFunctions::AND) {
        done(after_and(s, w))
    } else if selects(f3, f7, SubFunctions::OR) {
        done(after_or(s, w))
    } else if selects(f3, f7, SubFunctions::XOR) {
        done(after_xor(s, w))
    } else if selects(f3, f7, SubFunctions::SLL) {
        done(after_sll(s, w))
    } else if selects(f3, f7, SubFunctions::SRL) {
        done(after_srl(s, w))
    } else if selects(f3, f7, SubFunctions::SRA) {
        done(after_sra(s, w))
    } else {
        fault(s, AppErrors::FuctionNotImplemented(f3, Some(f7)))
    }
}

/// Operations on the low words of two registers, by funct3 and funct7.
pub open spec fn int_reg_reg_word_spec(s: CpuView, w: u32) -> Outcome {
    let f3 = funct3_of(w);
    let f7 = funct7_of(w);
    if selects(f3, f7, SubFunctions::ADDW) {
        done(after_addw(s, w))
    } else if selects(f3, f7, SubFunctions::SUBW) {
        done(after_subw(s, w))
    } else {
        fault(s, AppErrors::FuctionNotImplemented(f3, Some(f7)))
    }
}

/// Operations on the low word of a register and an immediate, by funct3.
pub open spec fn int_reg_immediate_word_spec(s: CpuView, w: u32) -> Outcome {
    let f3 = funct3_of(w);
    if f3 == SubFunctions::ADDIW.0 {
        done(after_addiw(s, w))
    } else {
        fault(s, AppErrors::FuctionNotImplemented(f3, Some(funct7_of(w))))
    }
}

/// Conditional branches, by funct3.
pub open spec fn conditional_branch_spec(s: CpuView, w: u32) -> Outcome {
    let f3 = funct3_of(w);
    if f3 == SubFunctions::BEQ {
        placed(after_beq(s, w))
    } else if f3 == SubFunctions::BNE {
        placed(after_bne(s, w))
    } else if f3 == SubFunctions::BLT {
        placed(after_blt(s, w))
    } else if f3 == SubFunctions::BLTU {
        placed(after_bltu(s, w))
    } else if f3 == SubFunctions::BGE {
        placed(after_bge(s, w))
    } else if f3 == SubFunctions::BGEU {
        placed(after_bgeu(s, w))
    } else {
        fault(s, AppErrors::FuctionNotImplemented(f3, None))
    }
}

/// Whether `w` is a memory fence.
pub open spec fn is_fence(w: u32) -> bool {
    opcode_of(w) == CpuInstructionsOpCodes::MEM_ORDERING && funct3_of(w) == SubFunctions::FENCE
}

/// Environment calls, breakpoints and the instructions on control and
/// status registers: the first two are reported, the others are not executed.
pub open spec fn system_spec(s: CpuView, w: u32) -> Outcome {
    if funct3_of(w) == 0 && i_imm_of(w) == SubFunctions::EBREAK {
        Outcome { result: Ok(OperationSideEffect::TriggerBreakpoint), state: s }
    } else if funct3_of(w) == 0 && i_imm_of(w) == SubFunctions::ECALL {
        Outcome { result: Ok(OperationSideEffect::TriggerSyscall), state: s }
    } else {
        fault(s, AppErrors::InstructionNotImplemented { instruction: w })
    }
}

/// What the 32-bit instruction `w` does to the state `s`, and what it
/// reports: the program counter is moved by the instructions that report
/// that they have placed it, and by no other.
pub open spec fn exec_32bit_spec(s: CpuView, w: u32) -> Outcome {
    let op = opcode_of(w);
    if op == CpuInstructionsOpCodes::INT_REG_IMMEDIATE {
        int_reg_immediate_spec(s, w)
    } else if op == CpuInstructionsOpCodes::INT_REG_IMMEDIATE_LUI {
        done(after_lui(s, w))
    } else if op == CpuInstructionsOpCodes::INT_REG_IMMEDIATE_AUIPC {
        done(after_auipc(s, w))
    } else if op == CpuInstructionsOpCodes::INT_REG_REG_RV32I {
        int_reg_reg_spec(s, w)
    } else if op == CpuInstructionsOpCodes::LOAD {
        Outcome { result: load_result(s, w), state: after_load(s, w) }
    } else if op == CpuInstructionsOpCodes::STORE {
        Outcome { result: store_outcome(s, w), state: after_store(s, w) }
    } else if op == CpuInstructionsOpCodes::CONTROL_JAL {
        placed(after_jal(s, w))
    } else if op == CpuInstructionsOpCodes::CONTROL_JALR {
        placed(after_jalr(s, w))
    } else if op == CpuInstructionsOpCodes::CONDITIONAL_BRANCHES {
        conditional_branch_spec(s, w)
    } else if op == CpuInstructionsOpCodes::INT_REG_IMMEDIATE_RV64I {
        int_reg_immediate_word_spec(s, w)
    } else if op == CpuInstructionsOpCodes::INT_REG_REG_RV64I {
        int_reg_reg_word_spec(s, w)
    } else if op == CpuInstructionsOpCodes::MEM_ORDERING {
        if funct3_of(w) == SubFunctions::FENCE {
            done(s)
        } else {
            fault(s, AppErrors::InstructionNotImplemented { instruction: w })
        }
    } else if op == CpuInstructionsOpCodes::SYSCALLS_CSR {
        system_spec(s, w)
    } else {
        fault(s, AppErrors::InstructionNotImplemented { instruction: w })
    }
}

/// One step of the machine on the fetched word `w`. A word that announces
/// a 16-bit instruction is not executed. A fault leaves the state as the
/// instruction left it, and the program counter where it was. After an
/// instruction that has placed the program counter itself, nothing is added
/// and the step reports no side effect; after any other, the program counter
/// moves on by the instruction's 4 bytes.
pub open spec fn execute_spec(s: CpuView, w: u32) -> Outcome {
    if size_of_opcode(opcode_of(w)) == InstructionSize::B16 {
        fault(s, AppErrors::InstructionNotImplemented { instruction: (w as int % 0x1_0000) as u32 })
    } else {
        let o = exec_32bit_spec(s, w);
        match o.result {
            Err(_) => o,
            Ok(OperationSideEffect::SkipPCIncrease) => done(o.state),
            Ok(effect) => Outcome { result: Ok(effect), state: o.state.with_pc(o.state.next_pc()) },
        }
    }
}

/// Whether the selector fields of a word are those that name an instruction.
fn selected(funct3: u8, second: u8, selector: (u8, u8)) -> (r: bool)
    ensures
        r == selects(funct3, second, selector),
{
    funct3 == selector.0 && second == selector.1
}

/// The top 6 bits of the I-format immediate field of a word.
fn shift_variant(instruction: u32) -> (r: u8)
    ensures
        r == shift_variant_of(instruction),
{
    assert(((instruction >> 26) & 0x3f) as int == instruction as int / 0x400_0000 && ((instruction
        >> 26) & 0x3f) < 64) by (bit_vector);
    ((instruction >> 26) & 0x3f) as u8
}

impl Cpu {
    /// Runs an operation on a register and an immediate, which funct3 names.
    pub fn int_reg_immediate(&mut self, instruction: u32) -> (r: Result<
        OperationSideEffect,
        AppErrors,
    >)
        requires
            old(self)@.wf(),
        ensures
            r == int_reg_immediate_spec(old(self)@, instruction).result,
            final(self)@ == int_reg_immediate_spec(old(self)@, instruction).state,
            final(self)@.wf(),
    {
        let decoder = ITypeDecoder::new(instruction);
        let funct3: u8 = decoder.get_funct3_field();
        if funct3 == SubFunctions::ADDI {
            InstructionsExecutor::addi(self, decoder)
        } else if funct3 == SubFunctions::SLTI {
            InstructionsExecutor::slti(self, decoder)
        } else if funct3 == SubFunctions::SLTIU {
            InstructionsExecutor::sltiu(self, decoder)
        } else if funct3 == SubFunctions::ORI {
            InstructionsExecutor::ori(self, decoder)
        } else if funct3 == SubFunctions::XORI {
            InstructionsExecutor::xori(self, decoder)
        } else if funct3 == SubFunctions::ANDI {
            InstructionsExecutor::andi(self, decoder)
        } else if funct3 == SubFunctions::SLLI {
            InstructionsExecutor::slli(self, decoder)
        } else if funct3 == SubFunctions::SRLI_SRAI_F3 {
            let variant: u8 = shift_variant(instruction);
            if selected(funct3, variant, SubFunctions::SRLI) {
                InstructionsExecutor::srli(self, decoder)
            } else if selected(funct3, variant, SubFunctions::SRAI) {
                InstructionsExecutor::srai(self, decoder)
            } else {
                Err(AppErrors::FuctionNotImplemented(funct3, Some(variant)))
            }
        } else {
            Err(AppErrors::FuctionNotImplemented(funct3, None))
        }
    }

    /// Runs an operation on two registers, which funct3 and funct7 name.
    pub fn int_reg_reg(&mut self, instruction: u32) -> (r: Result<OperationSideEffect, AppErrors>)
        requires
            old(self)@.wf(),
        ensures
            r == int_reg_reg_spec(old(self)@, instruction).result,
            final(self)@ == int_reg_reg_spec(old(self)@, instruction).state,
            final(self)@.wf(),
    {
        let decoder = RTypeDecoder::new(instruction);
        let funct3: u8 = decoder.get_funct3_field();
        let funct7: u8 = decoder.get_funct7_field();
        if selected(funct3, funct7, SubFunctions::ADD) {
            InstructionsExecutor::add(self, decoder)
        } else if selected(funct3, funct7, SubFunctions::SUB) {
            InstructionsExecutor::sub(self, decoder)
        } else if selected(funct3, funct7, SubFunctions::SLT) {
            InstructionsExecutor::slt(self, decoder)
        } else if selected(funct3, funct7, SubFunctions::SLTU) {
            InstructionsExecutor::sltu(self, decoder)
        } else if selected(funct3, funct7, SubFunctions::AND) {
            InstructionsExecutor::and(self, decoder)
        } else if selected(funct3, funct7, SubFunctions::OR) {
            InstructionsExecutor::or(self, decoder)
        } else if selected(funct3, funct7, SubFunctions::XOR) {
            InstructionsExecutor::xor(self, decoder)
        } else if selected(funct3, funct7, SubFunctions::SLL) {
            InstructionsExecutor::sll(self, decoder)
        } else if selected(funct3, funct7, SubFunctions::SRL) {
            InstructionsExecutor::srl(self, decoder)
        } else if selected(funct3, funct7, SubFunctions::SRA) {
            InstructionsExecutor::sra(self, decoder)
        } else {
            Err(AppErrors::FuctionNotImplemented(funct3, Some(funct7)))
        }
    }

    /// Runs a conditional branch, which funct3 names.
    pub fn conditional_branch(&mut self, instruction: u32) -> (r: Result<
        OperationSideEffect,
        AppErrors,
    >)
        requires
            old(self)@.wf(),
        ensures
            r == conditional_branch_spec(old(self)@, instruction).result,
            final(self)@ == conditional_branch_spec(old(self)@, instruction).state,
            final(self)@.wf(),
    {
        let decoder = BTypeDecoder::new(instruction);
        let funct3: u8 = decoder.get_funct3_field();
        if funct3 == SubFunctions::BEQ {
            InstructionsExecutor::beq(self, decoder)
        } else if funct3 == SubFunctions::BNE {
            InstructionsExecutor::bne(self, decoder)
        } else if funct3 == SubFunctions::BLT {
            InstructionsExecutor::blt(self, decoder)
        } else if funct3 == SubFunctions::BLTU {
            InstructionsExecutor::bltu(self, decoder)
        } else if funct3 == SubFunctions::BGE {
            InstructionsExecutor::bge(self, decoder)
        } else if funct3 == SubFunctions::BGEU {
            InstructionsExecutor::bgeu(self, decoder)
        } else {
            Err(AppErrors::FuctionNotImplemented(funct3, None))
        }
    }

    /// Runs the handler of a 32-bit instruction word.
    pub fn exec_32bit_instruction(&mut self, instruction: u32) -> (r: Result<
        OperationSideEffect,
        AppErrors,
    >)
        requires
            old(self)@.wf(),
        ensures
            r == exec_32bit_spec(old(self)@, instruction).result,
            final(self)@ == exec_32bit_spec(old(self)@, instruction).state,
            final(self)@.wf(),
    {
        let decoder = Instrunction32Decoder::new(instruction);
        let op_code: u8 = get_op_code(instruction);
        if op_code == CpuInstructionsOpCodes::INT_REG_IMMEDIATE {
            self.int_reg_immediate(instruction)
        } else if op_code == CpuInstructionsOpCodes::INT_REG_IMMEDIATE_LUI {
            InstructionsExecutor::lui(self, UTypeDecoder::new(instruction))
        } else if op_code == CpuInstructionsOpCodes::INT_REG_IMMEDIATE_AUIPC {
            InstructionsExecutor::auipc(self, UTypeDecoder::new(instruction))
        } else if op_code == CpuInstructionsOpCodes::INT_REG_REG_RV32I {
            self.int_reg_reg(instruction)
        } else if op_code == CpuInstructionsOpCodes::LOAD {
            InstructionsExecutor::load(self, ITypeDecoder::new(instruction))
        } else if op_code == CpuInstructionsOpCodes::STORE {
            InstructionsExecutor::store(self, STypeDecoder::new(instruction))
        } else if op_code == CpuInstructionsOpCodes::CONTROL_JAL {
            InstructionsExecutor::jal(self, JTypeDecoder::new(instruction))
        } else if op_code == CpuInstructionsOpCodes::CONTROL_JALR {
            InstructionsExecutor::jalr(self, ITypeDecoder::new(instruction))
        } else if op_code == CpuInstructionsOpCodes::CONDITIONAL_BRANCHES {
            self.conditional_branch(instruction)
        } else if op_code == CpuInstructionsOpCodes::INT_REG_IMMEDIATE_RV64I {
            let funct3: u8 = decoder.get_funct3_field();
            if funct3 == SubFunctions::ADDIW.0 {
                InstructionsExecutor::addiw(self, ITypeDecoder::new(instruction))
            } else {
                Err(AppErrors::FuctionNotImplemented(funct3, Some(decoder.get_funct7_field())))
            }
        } else if op_code == CpuInstructionsOpCodes::INT_REG_REG_RV64I {
            let funct3: u8 = decoder.get_funct3_field();
            let funct7: u8 = decoder.get_funct7_field();
            if selected(funct3, funct7, SubFunctions::ADDW) {
                InstructionsExecutor::addw(self, RTypeDecoder::new(instruction))
            } else if selected(funct3, funct7, SubFunctions::SUBW) {
                InstructionsExecutor::subw(self, RTypeDecoder::new(instruction))
            } else {
                Err(AppErrors::FuctionNotImplemented(funct3, Some(funct7)))
            }
        } else if op_code == CpuInstructionsOpCodes::MEM_ORDERING {
            if decoder.get_funct3_field() == SubFunctions::FENCE {
                // Instructions run one at a time and in order: there is
                // nothing for a fence to wait for.
                Ok(OperationSideEffect::NoEffect)
            } else {
                Err(AppErrors::InstructionNotImplemented { instruction })
            }
        } else if op_code == CpuInstructionsOpCodes::SYSCALLS_CSR {
            let immediate: u64 = decoder.get_imm_field(InstructionFormat::I);
            if decoder.get_funct3_field() == 0 && immediate == SubFunctions::EBREAK as u64 {
                Ok(OperationSideEffect::TriggerBreakpoint)
            } else if decoder.get_funct3_field() == 0 && immediate == SubFunctions::ECALL as u64 {
                Ok(OperationSideEffect::TriggerSyscall)
            } else {
                Err(AppErrors::InstructionNotImplemented { instruction })
            }
        } else {
            Err(AppErrors::InstructionNotImplemented { instruction })
        }
    }

    /// Executes one fetched instruction word and settles the program
    /// counter: it ends at the address of the instruction to fetch next.
    pub fn execute(&mut self, instruction: u32) -> (r: Result<OperationSideEffect, AppErrors>)
        requires
            old(self)@.wf(),
        ensures
            r == execute_spec(old(self)@, instruction).result,
            final(self)@ == execute_spec(old(self)@, instruction).state,
            final(self)@.wf(),
    {
        let op_code: u8 = get_op_code(instruction);
        let instruction_size = match get_instruction_size(op_code) {
            Ok(size) => size,
            Err(err) => {
                return Err(err);
            },
        };
        match instruction_size {
            InstructionSize::B16 => {
                assert((instruction & 0xffff) as int == instruction as int % 0x1_0000)
                    by (bit_vector);
                Err(AppErrors::InstructionNotImplemented { instruction: instruction & 0xffff })
            },
            InstructionSize::B32 => match self.exec_32bit_instruction(instruction) {
                Ok(OperationSideEffect::SkipPCIncrease) => Ok(OperationSideEffect::NoEffect),
                Ok(effect) => {
                    self.increase_program_counter();
                    Ok(effect)
                },
                Err(err) => Err(err),
            },
        }
    }
}

} // verus!
