use emulator::consts::{DRAM_BASE_ADDR, DRAM_SIZE};
use emulator::cpu::cs_registers::{MachineLevelCSRegisters, SupervisorLevelCSRegisters};
use emulator::cpu::side_effects::OperationSideEffect;
use emulator::cpu::Cpu;
use emulator::error::AppErrors;

fn snapshot(cpu: &Cpu) -> ([u64; 32], u64, Vec<u64>) {
    let mut memory = Vec::new();
    let mut addr = DRAM_BASE_ADDR;
    while let Ok(v) = cpu.system_bus.load64(addr) {
        memory.push(v);
        addr += 8;
    }
    (cpu.get_registers(), cpu.get_program_counter(), memory)
}

#[test]
fn new_machine_starts_at_the_base_with_a_stack_pointer() {
    let cpu = Cpu::new(1024, vec![0x13, 0x05, 0xA5, 0x00]);
    assert_eq!(cpu.get_program_counter(), DRAM_BASE_ADDR);
    let registers = cpu.get_registers();
    for (i, value) in registers.iter().enumerate() {
        if i == 2 {
            assert_eq!(*value, DRAM_BASE_ADDR + 1024 - 1);
        } else {
            assert_eq!(*value, 0);
        }
    }
    assert_eq!(cpu.fetch_next_instruction(), Ok(0x00A5_0513));
    assert_eq!(cpu.load_csr(MachineLevelCSRegisters::MSTATUS), 0);
    assert_eq!(DRAM_BASE_ADDR, 0x8000_0000);
    assert_eq!(DRAM_SIZE, 128 * 1024 * 1024);
}

#[test]
fn read_reg_checks_the_index() {
    let mut cpu = Cpu::new(16, vec![]);
    cpu.write_reg(31, 77).unwrap();
    assert_eq!(cpu.read_reg(31), Ok(77));
    assert_eq!(cpu.read_reg(2), Ok(DRAM_BASE_ADDR + 15));
    assert_eq!(cpu.read_reg(32), Err(AppErrors::OutOfBoundRegister));
    assert_eq!(cpu.read_reg(33), Err(AppErrors::OutOfBoundRegister));
    assert_eq!(cpu.read_reg(usize::MAX), Err(AppErrors::OutOfBoundRegister));
}

#[test]
fn fetch_beyond_the_memory_is_a_fault() {
    let mut cpu = Cpu::new(8, vec![1, 2, 3, 4, 5, 6, 7, 8]);
    cpu.set_program_counter(DRAM_BASE_ADDR + 4);
    assert_eq!(cpu.fetch_next_instruction(), Ok(0x0807_0605));
    cpu.set_program_counter(DRAM_BASE_ADDR + 5);
    assert_eq!(cpu.fetch_next_instruction(), Err(AppErrors::OutOfBoundsPointer));
    cpu.set_program_counter(0x1000);
    assert_eq!(cpu.fetch_next_instruction(), Err(AppErrors::AddressNotFound));
}

#[test]
fn increase_program_counter_adds_four() {
    let mut cpu = Cpu::new(8, vec![]);
    cpu.increase_program_counter();
    assert_eq!(cpu.get_program_counter(), DRAM_BASE_ADDR + 4);
    cpu.set_program_counter(0xFFFF_FFFF_FFFF_FFFC);
    cpu.increase_program_counter();
    assert_eq!(cpu.get_program_counter(), 0);
}

#[test]
fn execute_advances_after_an_ordinary_instruction() {
    let mut cpu = Cpu::new(64, vec![]);
    // addi a0, a0, 10
    assert_eq!(cpu.execute(0x00A5_0513), Ok(OperationSideEffect::NoEffect));
    assert_eq!(cpu.read_reg(10), Ok(10));
    assert_eq!(cpu.get_program_counter(), DRAM_BASE_ADDR + 4);
    // addi x3, x1, -1
    cpu.write_reg(1, 5).unwrap();
    assert_eq!(cpu.execute(0xFFF0_8193), Ok(OperationSideEffect::NoEffect));
    assert_eq!(cpu.read_reg(3), Ok(4));
    assert_eq!(cpu.get_program_counter(), DRAM_BASE_ADDR + 8);
}

#[test]
fn execute_add_wraps() {
    let mut cpu = Cpu::new(64, vec![]);
    cpu.write_reg(1, 0xFFFF_FFFF_FFFF_FFFF).unwrap();
    cpu.write_reg(2, 1).unwrap();
    cpu.write_reg(3, 9).unwrap();
    assert_eq!(cpu.execute(0x0020_81B3), Ok(OperationSideEffect::NoEffect));
    assert_eq!(cpu.read_reg(3), Ok(0));
}

#[test]
fn execute_leaves_a_branch_where_it_went() {
    let mut cpu = Cpu::new(64, vec![]);
    cpu.set_program_counter(0x1000);
    cpu.write_reg(1, 0).unwrap();
    cpu.write_reg(2, 0).unwrap();
    // beq x1, x2, -4 with both registers zero
    assert_eq!(cpu.execute(0xFE20_8EE3), Ok(OperationSideEffect::NoEffect));
    assert_eq!(cpu.get_program_counter(), 0x0FFC);
    cpu.set_program_counter(0x1000);
    cpu.write_reg(1, 1).unwrap();
    assert_eq!(cpu.execute(0xFE20_8EE3), Ok(OperationSideEffect::NoEffect));
    assert_eq!(cpu.get_program_counter(), 0x1004);
}

#[test]
fn execute_jumps() {
    let mut cpu = Cpu::new(64, vec![]);
    cpu.set_program_counter(0x2000);
    assert_eq!(cpu.execute(0x0080_00EF), Ok(OperationSideEffect::NoEffect));
    assert_eq!(cpu.read_reg(1), Ok(0x2004));
    assert_eq!(cpu.get_program_counter(), 0x2008);
    cpu.write_reg(5, 0x3001).unwrap();
    assert_eq!(cpu.execute(0x0002_80E7), Ok(OperationSideEffect::NoEffect));
    assert_eq!(cpu.get_program_counter(), 0x3000);
    assert_eq!(cpu.read_reg(1), Ok(0x200C));
}

#[test]
fn fence_only_advances_the_program_counter() {
    let mut cpu = Cpu::new(64, vec![1, 2, 3, 4, 5, 6, 7, 8, 9]);
    cpu.write_reg(7, 0x77).unwrap();
    let (registers, pc, memory) = snapshot(&cpu);
    assert_eq!(cpu.execute(0x0FF0_000F), Ok(OperationSideEffect::NoEffect));
    let (registers_after, pc_after, memory_after) = snapshot(&cpu);
    assert_eq!(registers_after, registers);
    assert_eq!(memory_after, memory);
    assert_eq!(pc_after, pc + 4);
    // fence.i is not executed
    assert_eq!(
        cpu.execute(0x0000_100F),
        Err(AppErrors::InstructionNotImplemented { instruction: 0x0000_100F })
    );
    assert_eq!(cpu.get_program_counter(), pc + 4);
}

#[test]
fn ecall_and_ebreak_are_reported() {
    let mut cpu = Cpu::new(64, vec![]);
    assert_eq!(cpu.execute(0x0000_0073), Ok(OperationSideEffect::TriggerSyscall));
    assert_eq!(cpu.get_program_counter(), DRAM_BASE_ADDR + 4);
    assert_eq!(cpu.execute(0x0010_0073), Ok(OperationSideEffect::TriggerBreakpoint));
    assert_eq!(cpu.get_program_counter(), DRAM_BASE_ADDR + 8);
    // csrrw x1, mstatus, x2
    assert_eq!(
        cpu.execute(0x3001_10F3),
        Err(AppErrors::InstructionNotImplemented { instruction: 0x3001_10F3 })
    );
    assert_eq!(cpu.get_program_counter(), DRAM_BASE_ADDR + 8);
}

#[test]
fn unknown_selectors_are_typed_faults() {
    let mut cpu = Cpu::new(64, vec![]);
    cpu.write_reg(1, 3).unwrap();
    let before = snapshot(&cpu);
    // funct7 = 1 under the register-register opcode
    assert_eq!(cpu.execute(0x0220_81B3), Err(AppErrors::FuctionNotImplemented(0, Some(1))));
    // funct7 = 0x40 is not an add
    assert_eq!(cpu.execute(0x8020_81B3), Err(AppErrors::FuctionNotImplemented(0, Some(0x40))));
    // a right shift by an immediate with an unknown variant
    assert_eq!(cpu.execute(0x8040_D193), Err(AppErrors::FuctionNotImplemented(5, Some(0x20))));
    // funct3 = 2 names no branch
    assert_eq!(cpu.execute(0x0020_A463), Err(AppErrors::FuctionNotImplemented(2, None)));
    // funct3 = 4 names no store
    assert_eq!(cpu.execute(0x0020_C023), Err(AppErrors::FuctionNotImplemented(4, None)));
    // word shifts by an immediate are not dispatched
    assert_eq!(cpu.execute(0x0040_919B), Err(AppErrors::FuctionNotImplemented(1, Some(0))));
    assert_eq!(cpu.execute(0x4040_D19B), Err(AppErrors::FuctionNotImplemented(5, Some(0x20))));
    // funct7 = 1 under the register-register word opcode
    assert_eq!(cpu.execute(0x0220_81BB), Err(AppErrors::FuctionNotImplemented(0, Some(1))));
    // funct3 = 7 names no load
    assert_eq!(
        cpu.execute(0x0000_F183),
        Err(AppErrors::InstructionNotImplemented { instruction: 0x0000_F183 })
    );
    // an opcode that is not known
    assert_eq!(
        cpu.execute(0xFFFF_FFFF),
        Err(AppErrors::InstructionNotImplemented { instruction: 0xFFFF_FFFF })
    );
    assert_eq!(snapshot(&cpu), before);
}

#[test]
fn compressed_instructions_are_not_executed() {
    let mut cpu = Cpu::new(64, vec![]);
    let before = snapshot(&cpu);
    assert_eq!(
        cpu.execute(0x1234_4501),
        Err(AppErrors::InstructionNotImplemented { instruction: 0x4501 })
    );
    assert_eq!(cpu.execute(0), Err(AppErrors::InstructionNotImplemented { instruction: 0 }));
    assert_eq!(
        cpu.execute(0xFFFF_FFFE),
        Err(AppErrors::InstructionNotImplemented { instruction: 0xFFFE })
    );
    assert_eq!(snapshot(&cpu), before);
}

#[test]
fn memory_faults_stop_the_instruction() {
    let mut cpu = Cpu::new(64, vec![]);
    cpu.write_reg(1, DRAM_BASE_ADDR + 64).unwrap();
    cpu.write_reg(2, 0xAB).unwrap();
    let before = snapshot(&cpu);
    assert_eq!(cpu.execute(0x0000_8183), Err(AppErrors::OutOfBoundsPointer));
    assert_eq!(cpu.execute(0x0020_8023), Err(AppErrors::OutOfBoundsPointer));
    cpu.write_reg(1, 0).unwrap();
    assert_eq!(cpu.execute(0x0000_8183), Err(AppErrors::AddressNotFound));
    assert_eq!(cpu.execute(0x0020_8023), Err(AppErrors::AddressNotFound));
    cpu.write_reg(1, DRAM_BASE_ADDR + 64).unwrap();
    assert_eq!(snapshot(&cpu), before);
}

#[test]
fn a_small_program_runs_to_its_fault() {
    // addi x1, x0, 5; addi x2, x0, 7; add x3, x1, x2; sd x3, 32(x4); ld x5, 32(x4);
    // beq x3, x5, 8; addi x6, x0, 1; addi x7, x0, 2
    let words: [u32; 8] = [
        0x0050_0093,
        0x0070_0113,
        0x0020_81B3,
        0x0232_3023,
        0x0202_3283,
        0x0051_8463,
        0x0010_0313,
        0x0020_0393,
    ];
    let mut image = Vec::new();
    for w in words {
        image.extend_from_slice(&w.to_le_bytes());
    }
    let mut cpu = Cpu::new(64, image);
    cpu.write_reg(4, DRAM_BASE_ADDR).unwrap();
    let mut steps = 0;
    let fault = loop {
        let word = match cpu.fetch_next_instruction() {
            Ok(word) => word,
            Err(e) => break e,
        };
        match cpu.execute(word) {
            Ok(effect) => assert_eq!(effect, OperationSideEffect::NoEffect),
            Err(e) => break e,
        }
        steps += 1;
        assert_eq!(cpu.read_reg(0), Ok(0));
    };
    // the stored double word at offset 32 is then fetched: 12 is a compressed instruction
    assert_eq!(fault, AppErrors::InstructionNotImplemented { instruction: 12 });
    assert_eq!(steps, 7);
    assert_eq!(cpu.read_reg(1), Ok(5));
    assert_eq!(cpu.read_reg(2), Ok(7));
    assert_eq!(cpu.read_reg(3), Ok(12));
    assert_eq!(cpu.read_reg(5), Ok(12));
    assert_eq!(cpu.read_reg(6), Ok(0));
    assert_eq!(cpu.read_reg(7), Ok(2));
    assert_eq!(cpu.get_program_counter(), DRAM_BASE_ADDR + 32);
}

#[test]
fn register_zero_stays_zero_through_any_instruction() {
    let mut cpu = Cpu::new(64, vec![0xff; 64]);
    cpu.write_reg(1, DRAM_BASE_ADDR).unwrap();
    cpu.write_reg(2, 0x1234).unwrap();
    // add, addi, lui, auipc, jal, jalr, ld, addw, addiw, each with rd = x0
    for word in [
        0x0020_8033u32,
        0x0050_8013,
        0x1234_5037,
        0x0000_1017,
        0x0100_006F,
        0x0000_8067,
        0x0000_B003,
        0x0020_803B,
        0x0010_801B,
    ] {
        assert_eq!(cpu.execute(word), Ok(OperationSideEffect::NoEffect));
        assert_eq!(cpu.read_reg(0), Ok(0));
        assert_eq!(cpu.get_registers()[0], 0);
    }
}

#[test]
fn supervisor_interrupt_enable_is_a_window() {
    let mut cpu = Cpu::new(16, vec![]);
    cpu.store_csr(MachineLevelCSRegisters::MIE, 0b1111_0000);
    cpu.store_csr(MachineLevelCSRegisters::MIDELEG, 0b0011_1100);
    assert_eq!(cpu.load_csr(MachineLevelCSRegisters::MIE), 0b1111_0000);
    assert_eq!(cpu.load_csr(SupervisorLevelCSRegisters::SIE), 0b0011_0000);
    cpu.store_csr(SupervisorLevelCSRegisters::SIE, 0b0000_1111);
    assert_eq!(cpu.load_csr(MachineLevelCSRegisters::MIE), 0b1100_1100);
    assert_eq!(cpu.load_csr(SupervisorLevelCSRegisters::SIE), 0b0000_1100);
    cpu.store_csr(SupervisorLevelCSRegisters::SATP, 0xABCD);
    assert_eq!(cpu.load_csr(SupervisorLevelCSRegisters::SATP), 0xABCD);
    cpu.store_csr(4095, 1);
    assert_eq!(cpu.load_csr(4095), 1);
    assert_eq!(cpu.load_csr(0), 0);
    assert_eq!(cpu.get_registers()[2], DRAM_BASE_ADDR + 15);
}
