use rustari::cpu::Atari;
use rustari::flags::Flag;
use rustari::memory::{translate_addr, write_rom_to_mem, LOAD_ADDR, MEM_SIZE};
use rustari::semantics::{CpuError, Mode};

const ALL_FLAGS: [Flag; 8] = [
    Flag::Carry,
    Flag::Zero,
    Flag::InterruptDisable,
    Flag::Decimal,
    Flag::Break,
    Flag::Unused,
    Flag::Overflow,
    Flag::Negative,
];

#[derive(Debug, PartialEq)]
struct Snapshot {
    memory: Vec<u8>,
    flags: Vec<bool>,
    registers: (usize, u8, u8, u8, u8, usize),
}

fn snapshot(a: &Atari) -> Snapshot {
    Snapshot {
        memory: (0..MEM_SIZE).map(|i| a.read_mem(i)).collect(),
        flags: ALL_FLAGS.iter().map(|f| a.read_flag(*f)).collect(),
        registers: (a.pc(), a.x_reg(), a.y_reg(), a.a_reg(), a.s_pnt(), a.cycles()),
    }
}

fn program_at(pc: usize, bytes: &[u8]) -> Atari {
    let mut memory = [0u8; MEM_SIZE];
    memory[pc..pc + bytes.len()].copy_from_slice(bytes);
    Atari::new(memory, pc)
}

#[test]
fn step_ldx_immediate() {
    let mut atari = program_at(0, &[0xA2, 0x10]);
    atari.execute_step().unwrap();
    assert_eq!(atari.x_reg(), 0x10);
    assert_eq!(atari.pc(), 2);
    assert_eq!(atari.cycles(), 2);
    assert!(!atari.read_flag(Flag::Negative));
    assert!(!atari.read_flag(Flag::Zero));
}

#[test]
fn load_sets_zero_and_negative_from_bit_seven() {
    let mut atari = program_at(0, &[0xA9, 0x80, 0xA9, 0x00, 0xA9, 0x7F]);
    atari.execute_step().unwrap();
    assert_eq!(atari.a_reg(), 0x80);
    assert!(atari.read_flag(Flag::Negative));
    assert!(!atari.read_flag(Flag::Zero));
    atari.execute_step().unwrap();
    assert!(!atari.read_flag(Flag::Negative));
    assert!(atari.read_flag(Flag::Zero));
    atari.execute_step().unwrap();
    assert!(!atari.read_flag(Flag::Negative));
    assert!(!atari.read_flag(Flag::Zero));
    assert_eq!(atari.pc(), 6);
    assert_eq!(atari.cycles(), 6);
}

#[test]
fn load_keeps_other_flags() {
    let mut atari = program_at(0, &[0xA0, 0x00]);
    atari.write_flag(Flag::Carry, true);
    atari.write_flag(Flag::Decimal, true);
    atari.execute_step().unwrap();
    assert!(atari.read_flag(Flag::Carry));
    assert!(atari.read_flag(Flag::Decimal));
    assert!(atari.read_flag(Flag::Zero));
}

#[test]
fn zero_page_index_wraps_in_eight_bits() {
    let mut memory = [0u8; MEM_SIZE];
    memory[0] = 0xB5;
    memory[1] = 0xF0;
    memory[0x0F] = 0x33;
    let mut atari = Atari::new(memory, 0);
    atari.set_x_reg(0x1F);
    atari.execute_step().unwrap();
    assert_eq!(atari.a_reg(), 0x33);
    assert_eq!(atari.cycles(), 4);
}

#[test]
fn absolute_y_page_cross_costs_one_more_cycle() {
    let mut memory = [0u8; MEM_SIZE];
    memory[0..3].copy_from_slice(&[0xB9, 0x00, 0x12]);
    memory[0x1210] = 0x44;
    let mut atari = Atari::new(memory, 0);
    atari.set_y_reg(0x10);
    atari.execute_step().unwrap();
    assert_eq!(atari.a_reg(), 0x44);
    assert_eq!(atari.cycles(), 4);

    let mut memory = [0u8; MEM_SIZE];
    memory[0..3].copy_from_slice(&[0xB9, 0xF8, 0x12]);
    memory[0x1308] = 0x55;
    let mut atari = Atari::new(memory, 0);
    atari.set_y_reg(0x10);
    atari.execute_step().unwrap();
    assert_eq!(atari.a_reg(), 0x55);
    assert_eq!(atari.cycles(), 5);
    assert_eq!(atari.pc(), 3);
}

#[test]
fn index_within_page_costs_base_cycles() {
    let mut memory = [0u8; MEM_SIZE];
    memory[1] = 0x10;
    memory[2] = 0x12;
    memory[0x1215] = 0x9;
    let mut atari = Atari::new(memory, 0x1000);
    atari.set_x_reg(5);
    assert_eq!(atari.lda(Mode::AbsoluteX, 0), Ok(3));
    assert_eq!(atari.a_reg(), 0x9);
    assert_eq!(atari.cycles(), 4);
}

#[test]
fn absolute_address_is_bus_translated() {
    let mut memory = [0u8; MEM_SIZE];
    memory[0..3].copy_from_slice(&[0xAD, 0x34, 0xF2]);
    memory[0x1234] = 0x77;
    let mut atari = Atari::new(memory, 0);
    atari.execute_step().unwrap();
    assert_eq!(atari.a_reg(), 0x77);
    assert_eq!(translate_addr(0xFFFF), 0x1FFF);
    assert_eq!(translate_addr(0xF000), 0x1000);
}

#[test]
fn bne_not_taken_when_zero_set() {
    let mut atari = program_at(0x10, &[0xD0, 0xFE]);
    atari.write_flag(Flag::Zero, true);
    atari.execute_step().unwrap();
    assert_eq!(atari.pc(), 0x12);
    assert_eq!(atari.cycles(), 2);
}

#[test]
fn bne_taken_backwards() {
    let mut atari = program_at(0x10, &[0xD0, 0xFE]);
    atari.execute_step().unwrap();
    assert_eq!(atari.pc(), 0x10);
    assert_eq!(atari.cycles(), 3);
    let mut atari = program_at(0x10, &[0xD0, 0x05]);
    assert_eq!(atari.bne(0x10), Ok(0x17));
}

#[test]
fn bne_taken_near_end_of_memory() {
    // the fall-through 0x1FFF lies outside memory, but the target does not
    let mut atari = program_at(0x1FFD, &[0xD0, 0xFE]);
    atari.execute_step().unwrap();
    assert_eq!(atari.pc(), 0x1FFD);
    assert_eq!(atari.cycles(), 3);
    // an offset byte outside memory is an error whatever the flag says
    let mut atari = program_at(0x1FFE, &[0xD0]);
    assert_eq!(atari.execute_step(), Err(CpuError::OutOfBounds(0x1FFF)));
    assert_eq!(atari.cycles(), 0);
}

#[test]
fn bne_before_start_of_memory_fails() {
    let mut atari = program_at(0, &[0xD0, 0x80]);
    let before = snapshot(&atari);
    assert_eq!(atari.execute_step(), Err(CpuError::OutOfBounds(-126)));
    assert_eq!(snapshot(&atari), before);
}

#[test]
fn sta_writes_the_mirror_too() {
    let mut atari = program_at(0, &[0x8D, 0x80, 0x01]);
    atari.set_a_reg(0x42);
    atari.execute_step().unwrap();
    assert_eq!(atari.read_mem(0x0180), 0x42);
    assert_eq!(atari.read_mem(0x0080), 0x42);
    assert_eq!(atari.cycles(), 4);
    assert_eq!(atari.pc(), 3);
}

#[test]
fn sta_costs_by_mode_and_keeps_flags() {
    let mut atari = program_at(0, &[0x85, 0x20, 0x95, 0x20, 0x9D, 0x00, 0x03, 0x99, 0x00, 0x03]);
    atari.set_a_reg(0x80);
    atari.set_x_reg(1);
    atari.set_y_reg(2);
    atari.execute_step().unwrap();
    assert_eq!(atari.cycles(), 3);
    atari.execute_step().unwrap();
    assert_eq!(atari.cycles(), 7);
    atari.execute_step().unwrap();
    assert_eq!(atari.cycles(), 12);
    atari.execute_step().unwrap();
    assert_eq!(atari.cycles(), 17);
    assert_eq!(atari.read_mem(0x20), 0x80);
    assert_eq!(atari.read_mem(0x21), 0x80);
    assert_eq!(atari.read_mem(0x301), 0x80);
    assert_eq!(atari.read_mem(0x302), 0x80);
    assert!(!atari.read_flag(Flag::Negative));
    assert_eq!(atari.sta(Mode::Immediate, 0), Err(CpuError::InvalidAddressingMode(Mode::Immediate)));
}

#[test]
fn dex_from_zero_wraps() {
    let mut atari = program_at(0, &[0xCA]);
    atari.execute_step().unwrap();
    assert_eq!(atari.x_reg(), 0xFF);
    assert!(atari.read_flag(Flag::Negative));
    assert!(!atari.read_flag(Flag::Zero));
    assert_eq!(atari.cycles(), 2);
}

#[test]
fn inx_from_ff_wraps() {
    let mut atari = program_at(0, &[0xE8]);
    atari.set_x_reg(0xFF);
    atari.execute_step().unwrap();
    assert_eq!(atari.x_reg(), 0x00);
    assert!(atari.read_flag(Flag::Zero));
    assert!(!atari.read_flag(Flag::Negative));
}

#[test]
fn dey_and_iny_wrap() {
    let mut atari = program_at(0, &[0x88, 0xC8, 0xC8]);
    atari.execute_step().unwrap();
    assert_eq!(atari.y_reg(), 0xFF);
    atari.execute_step().unwrap();
    assert_eq!(atari.y_reg(), 0x00);
    assert!(atari.read_flag(Flag::Zero));
    atari.execute_step().unwrap();
    assert_eq!(atari.y_reg(), 0x01);
    assert!(!atari.read_flag(Flag::Zero));
}

#[test]
fn transfers_set_flags_except_stack_pointer() {
    let mut atari = program_at(0, &[0xAA, 0xA8, 0x9A, 0x98, 0x8A]);
    atari.set_a_reg(0x00);
    atari.execute_step().unwrap();
    assert_eq!(atari.x_reg(), 0);
    assert!(atari.read_flag(Flag::Zero));
    atari.set_a_reg(0x90);
    atari.execute_step().unwrap();
    assert_eq!(atari.y_reg(), 0x90);
    assert!(atari.read_flag(Flag::Negative));
    assert!(!atari.read_flag(Flag::Zero));
    atari.execute_step().unwrap();
    assert_eq!(atari.s_pnt(), 0);
    assert!(atari.read_flag(Flag::Negative));
    atari.set_y_reg(0x05);
    atari.execute_step().unwrap();
    assert_eq!(atari.a_reg(), 0x05);
    assert!(!atari.read_flag(Flag::Negative));
    atari.execute_step().unwrap();
    assert_eq!(atari.a_reg(), 0);
    assert!(atari.read_flag(Flag::Zero));
    assert_eq!(atari.cycles(), 10);
    assert_eq!(atari.pc(), 5);
}

#[test]
fn pha_pushes_and_wraps_stack_pointer() {
    let mut atari = program_at(0x1000, &[0x48, 0x48]);
    atari.set_a_reg(0x42);
    atari.set_s_pnt(0x00);
    atari.execute_step().unwrap();
    assert_eq!(atari.read_mem(0x100), 0x42);
    assert_eq!(atari.read_mem(0x0000), 0x42);
    assert_eq!(atari.s_pnt(), 0xFF);
    assert_eq!(atari.cycles(), 3);
    atari.execute_step().unwrap();
    assert_eq!(atari.read_mem(0x1FF), 0x42);
    assert_eq!(atari.read_mem(0x0BF), 0x42);
    assert_eq!(atari.s_pnt(), 0xFE);
}

#[test]
fn jmp_absolute() {
    let mut atari = program_at(0, &[0x4C, 0x34, 0x12]);
    atari.execute_step().unwrap();
    assert_eq!(atari.pc(), 0x1234);
    assert_eq!(atari.cycles(), 3);
}

#[test]
fn jmp_past_end_of_memory_fails() {
    let mut atari = program_at(0, &[0x4C, 0xFF, 0xFF]);
    assert_eq!(atari.execute_step(), Err(CpuError::OutOfBounds(0x1FFF)));
    assert_eq!(atari.pc(), 0);
}

#[test]
fn jmp_indirect_is_invalid() {
    let mut atari = program_at(0, &[0x6C, 0x34, 0x12]);
    let before = snapshot(&atari);
    assert_eq!(atari.execute_step(), Err(CpuError::InvalidAddressingMode(Mode::Indirect)));
    assert_eq!(snapshot(&atari), before);
}

#[test]
fn unknown_opcode_changes_nothing() {
    let mut atari = program_at(0x20, &[0xFF]);
    atari.set_a_reg(1);
    atari.set_x_reg(2);
    atari.set_y_reg(3);
    atari.set_s_pnt(4);
    let before = snapshot(&atari);
    assert_eq!(atari.execute_step(), Err(CpuError::UnimplementedOpcode(0xFF)));
    assert_eq!(snapshot(&atari), before);
}

#[test]
fn load_outside_memory_fails() {
    let mut atari = program_at(0, &[0xAD, 0xFF, 0x1F]);
    assert_eq!(atari.execute_step(), Err(CpuError::OutOfBounds(0x1FFF)));
    assert_eq!(atari.cycles(), 0);
    let mut memory = [0u8; MEM_SIZE];
    memory[MEM_SIZE - 2] = 0xAD;
    let mut atari = Atari::new(memory, MEM_SIZE - 2);
    assert_eq!(atari.execute_step(), Err(CpuError::OutOfBounds(MEM_SIZE as i64 + 1)));
}

#[test]
fn next_instruction_past_end_of_memory_fails() {
    // CLC in the last cell but one would move pc to 0x1FFF
    let mut atari = program_at(0x1FFE, &[0x18]);
    let before = snapshot(&atari);
    assert_eq!(atari.execute_step(), Err(CpuError::OutOfBounds(0x1FFF)));
    assert_eq!(snapshot(&atari), before);

    // LDA #imm whose operand is the last cell
    let mut atari = program_at(0x1FFD, &[0xA9, 0x01]);
    let before = snapshot(&atari);
    assert_eq!(atari.execute_step(), Err(CpuError::OutOfBounds(0x1FFF)));
    assert_eq!(snapshot(&atari), before);

    // STA zero page whose operand is the last cell
    let mut atari = program_at(0x1FFD, &[0x85, 0x10]);
    assert_eq!(atari.execute_step(), Err(CpuError::OutOfBounds(0x1FFF)));
    assert_eq!(atari.read_mem(0x10), 0);

    // BNE not taken, falling through past the end
    let mut atari = program_at(0x1FFD, &[0xD0, 0x00]);
    atari.write_flag(Flag::Zero, true);
    assert_eq!(atari.execute_step(), Err(CpuError::OutOfBounds(0x1FFF)));
    assert_eq!(atari.pc(), 0x1FFD);
    assert_eq!(atari.cycles(), 0);
}

#[test]
fn last_instruction_that_fits_succeeds() {
    let mut atari = program_at(0x1FFD, &[0x18]);
    atari.execute_step().unwrap();
    assert_eq!(atari.pc(), 0x1FFE);
    let mut atari = program_at(0x1FFC, &[0xA9, 0x07]);
    atari.execute_step().unwrap();
    assert_eq!(atari.a_reg(), 0x07);
    assert_eq!(atari.pc(), 0x1FFE);
}

#[test]
fn program_counter_outside_memory_fails() {
    let mut atari = Atari::new([0u8; MEM_SIZE], MEM_SIZE);
    assert_eq!(atari.execute_step(), Err(CpuError::OutOfBounds(MEM_SIZE as i64)));
}

#[test]
fn adc_binary() {
    let mut atari = Atari::new([0u8; MEM_SIZE], 0);
    atari.set_a_reg(0x10);
    atari.adc(0x20);
    assert_eq!(atari.a_reg(), 0x30);
    assert!(!atari.read_flag(Flag::Carry));
    atari.set_a_reg(0xFF);
    atari.adc(0x01);
    assert_eq!(atari.a_reg(), 0x00);
    assert!(atari.read_flag(Flag::Carry));
    assert!(atari.read_flag(Flag::Zero));
    atari.adc(0x01);
    assert_eq!(atari.a_reg(), 0x02);
    assert!(!atari.read_flag(Flag::Carry));
}

#[test]
fn adc_overflow() {
    let mut atari = Atari::new([0u8; MEM_SIZE], 0);
    atari.set_a_reg(0x50);
    atari.adc(0x50);
    assert_eq!(atari.a_reg(), 0xA0);
    assert!(atari.read_flag(Flag::Overflow));
    assert!(atari.read_flag(Flag::Negative));
    assert!(!atari.read_flag(Flag::Carry));
    atari.set_a_reg(0x50);
    atari.adc(0x10);
    assert!(!atari.read_flag(Flag::Overflow));
}

#[test]
fn adc_decimal() {
    let mut atari = Atari::new([0u8; MEM_SIZE], 0);
    atari.write_flag(Flag::Decimal, true);
    atari.set_a_reg(0x09);
    atari.adc(0x01);
    assert_eq!(atari.a_reg(), 0x10);
    assert!(!atari.read_flag(Flag::Carry));
    atari.set_a_reg(0x99);
    atari.adc(0x01);
    assert_eq!(atari.a_reg(), 0x00);
    assert!(atari.read_flag(Flag::Carry));
}

#[test]
fn rom_is_placed_at_load_address() {
    let memory = write_rom_to_mem(vec![1, 2, 3]);
    assert_eq!(&memory[LOAD_ADDR..LOAD_ADDR + 4], &[1, 2, 3, 0]);
    assert_eq!(memory[0], 0);
    assert_eq!(memory[LOAD_ADDR - 1], 0);
    let memory = write_rom_to_mem(vec![7u8; 0x2000]);
    assert_eq!(memory[MEM_SIZE - 1], 7);
    assert_eq!(memory[LOAD_ADDR], 7);
    assert_eq!(memory[LOAD_ADDR - 1], 0);
}

fn countdown() -> Atari {
    // LDX #5; DEX; BNE back to DEX; then an unknown byte
    let mut rom = vec![0xA2, 0x05, 0xCA, 0xD0, 0xFD, 0xFF];
    rom.resize(16, 0);
    Atari::new(write_rom_to_mem(rom), LOAD_ADDR)
}

#[test]
fn zero_more_steps_change_nothing() {
    let mut a = countdown();
    a.run(7).unwrap();
    let after_n = snapshot(&a);
    a.run(0).unwrap();
    assert_eq!(snapshot(&a), after_n);

    let mut b = countdown();
    for _ in 0..7 {
        b.execute_step().unwrap();
    }
    assert_eq!(snapshot(&b), after_n);
}

#[test]
fn run_stops_at_first_error() {
    let mut a = countdown();
    assert_eq!(a.run(100), Err(CpuError::UnimplementedOpcode(0xFF)));
    assert_eq!(a.x_reg(), 0);
    assert_eq!(a.pc(), LOAD_ADDR + 5);
    // 2 + five DEX + four taken and one untaken BNE
    assert_eq!(a.cycles(), 2 + 5 * 2 + 4 * 3 + 2);
}
