//! Whole-instruction execution through the CPU: decode, state effects,
//! cycle costs, the deferred interrupt-enable protocol, and the error
//! paths.

use gbcore::CPU;
use gbcore::CoreError;

const Z: u8 = 0x80;
const N: u8 = 0x40;
const H: u8 = 0x20;
const C: u8 = 0x10;

/// A CPU with the given image at the origin and a stack high in memory.
fn boot(image: &[u8]) -> CPU {
    let mut cpu = CPU::new();
    cpu.load_rom(image).unwrap();
    cpu.memory.stack_pointer = 0x9000;
    cpu
}

#[test]
fn load_immediate_and_increment() {
    // LD A, 5; INC A: the accumulator ends at 6 with Z, N, H clear and a
    // total cost of two machine cycles
    let mut cpu = boot(&[0x3E, 0x05, 0x3C]);
    let c1 = cpu.cycle().unwrap();
    let c2 = cpu.cycle().unwrap();
    assert_eq!(cpu.af.high, 6);
    assert_eq!(cpu.af.low & (Z | N | H), 0);
    assert_eq!(c1, 1);
    assert_eq!(c2, 1);
    assert_eq!(c1 + c2, 2);
}

#[test]
fn one_byte_opcode_advances_pc_by_one() {
    let mut cpu = boot(&[0x00]);
    assert_eq!(cpu.cycle(), Ok(1));
    assert_eq!(cpu.memory.program_counter, 0x0101);
}

#[test]
fn immediate_byte_advances_pc_by_two() {
    let mut cpu = boot(&[0x06, 0x12]);
    assert_eq!(cpu.cycle(), Ok(1));
    assert_eq!(cpu.memory.program_counter, 0x0102);
    assert_eq!(cpu.bc.high, 0x12);
}

#[test]
fn immediate_word_advances_pc_by_three() {
    let mut cpu = boot(&[0x21, 0x34, 0x12]);
    assert_eq!(cpu.cycle(), Ok(3));
    assert_eq!(cpu.memory.program_counter, 0x0103);
    assert_eq!(cpu.hl.get_pair(), 0x1234);
}

#[test]
fn jr_nz_taken_costs_three() {
    let mut cpu = boot(&[0x20, 0x05]);
    assert_eq!(cpu.cycle(), Ok(3));
    assert_eq!(cpu.memory.program_counter, 0x0107);
}

#[test]
fn jr_nz_not_taken_costs_two() {
    let mut cpu = boot(&[0x20, 0x05]);
    cpu.af.low = Z;
    assert_eq!(cpu.cycle(), Ok(2));
    assert_eq!(cpu.memory.program_counter, 0x0102);
}

#[test]
fn jr_backward_offset() {
    // JR -2 lands back on the JR itself
    let mut cpu = boot(&[0x18, 0xFE]);
    assert_eq!(cpu.cycle(), Ok(3));
    assert_eq!(cpu.memory.program_counter, 0x0100);
}

#[test]
fn ei_enables_after_one_instruction() {
    let mut cpu = boot(&[0xFB, 0x00]);
    cpu.cycle().unwrap();
    assert!(!cpu.ime);
    cpu.cycle().unwrap();
    assert!(cpu.ime);
}

#[test]
fn ei_then_di_never_enables() {
    let mut cpu = boot(&[0xFB, 0xF3, 0x00, 0x00]);
    cpu.cycle().unwrap();
    assert!(!cpu.ime);
    cpu.cycle().unwrap();
    assert!(!cpu.ime);
    cpu.cycle().unwrap();
    cpu.cycle().unwrap();
    assert!(!cpu.ime);
    assert_eq!(cpu.set_ime, -1);
}

#[test]
fn every_opcode_decodes_or_fails_as_undefined() {
    let undefined = [
        0xD3u8, 0xDB, 0xDD, 0xE3, 0xE4, 0xEB, 0xEC, 0xED, 0xF4, 0xFC, 0xFD,
    ];
    for op in 0..=255u8 {
        let mut cpu = boot(&[op, 0x00, 0x00, 0x00]);
        let res = cpu.cycle();
        if undefined.contains(&op) {
            assert_eq!(res, Err(CoreError::UndefinedOpcode(op)));
            assert_eq!(cpu.memory.program_counter, 0x0101);
        } else {
            assert!(res.is_ok());
        }
    }
}

#[test]
fn every_prefixed_opcode_decodes() {
    for op in 0..=255u8 {
        let mut cpu = boot(&[0xCB, op]);
        assert!(cpu.cycle().is_ok());
        assert_eq!(cpu.memory.program_counter, 0x0102);
    }
}

#[test]
fn halt_and_stop_are_quiet() {
    let mut cpu = boot(&[0x76, 0x10]);
    assert_eq!(cpu.cycle(), Ok(1));
    assert_eq!(cpu.cycle(), Ok(1));
    assert_eq!(cpu.af.high, 0);
    assert_eq!(cpu.memory.program_counter, 0x0102);
}

#[test]
fn register_to_register_load() {
    // LD C, 5; LD B, C
    let mut cpu = boot(&[0x0E, 0x05, 0x41]);
    cpu.cycle().unwrap();
    assert_eq!(cpu.cycle(), Ok(1));
    assert_eq!(cpu.bc.high, 5);
    assert_eq!(cpu.bc.low, 5);
}

#[test]
fn load_through_hl_costs_extra() {
    // LD A, 0x77; LD HL, 0xC000; LD [HL], A; LD B, [HL]
    let mut cpu = boot(&[0x3E, 0x77, 0x21, 0x00, 0xC0, 0x77, 0x46]);
    cpu.cycle().unwrap();
    cpu.cycle().unwrap();
    assert_eq!(cpu.cycle(), Ok(2));
    assert_eq!(cpu.memory.read_byte(0xC000), Ok(0x77));
    assert_eq!(cpu.cycle(), Ok(2));
    assert_eq!(cpu.bc.high, 0x77);
}

#[test]
fn register_and_immediate_arithmetic_agree() {
    // ADD A, B and ADD A, imm8 with the same operands produce the same
    // accumulator and the same flag byte
    let mut by_reg = boot(&[0x3E, 0xC8, 0x06, 0x64, 0x80]);
    by_reg.cycle().unwrap();
    by_reg.cycle().unwrap();
    assert_eq!(by_reg.cycle(), Ok(1));
    let mut by_imm = boot(&[0x3E, 0xC8, 0xC6, 0x64]);
    by_imm.cycle().unwrap();
    assert_eq!(by_imm.cycle(), Ok(2));
    assert_eq!(by_reg.af.high, 44);
    assert_eq!(by_imm.af.high, 44);
    assert_eq!(by_reg.af.low, by_imm.af.low);
    assert_eq!(by_reg.af.low, C);
}

#[test]
fn inc_preserves_carry() {
    // SCF; INC A: the increment rewrites Z, N, H but keeps the carry
    let mut cpu = boot(&[0x37, 0x3C]);
    cpu.cycle().unwrap();
    cpu.cycle().unwrap();
    assert_eq!(cpu.af.high, 1);
    assert_eq!(cpu.af.low, C);
}

#[test]
fn adc_uses_the_carry_flag() {
    // SCF; LD A, 0; ADC A, 0 folds the carry into the sum
    let mut cpu = boot(&[0x37, 0x3E, 0x00, 0xCE, 0x00]);
    cpu.cycle().unwrap();
    cpu.cycle().unwrap();
    cpu.cycle().unwrap();
    assert_eq!(cpu.af.high, 1);
    assert_eq!(cpu.af.low, 0);
}

#[test]
fn rlca_rotates_into_carry() {
    let mut cpu = boot(&[0x3E, 0x85, 0x07]);
    cpu.cycle().unwrap();
    assert_eq!(cpu.cycle(), Ok(1));
    assert_eq!(cpu.af.high, 0x0B);
    assert_eq!(cpu.af.low, C);
}

#[test]
fn daa_adjusts_bcd_addition() {
    // 0x15 + 0x27 = 0x3C, which DAA corrects to the decimal 0x42
    let mut cpu = boot(&[0x3E, 0x15, 0xC6, 0x27, 0x27]);
    cpu.cycle().unwrap();
    cpu.cycle().unwrap();
    assert_eq!(cpu.cycle(), Ok(1));
    assert_eq!(cpu.af.high, 0x42);
    assert_eq!(cpu.af.low, 0);
}

#[test]
fn cpl_sets_n_and_h() {
    let mut cpu = boot(&[0x3E, 0x0F, 0x2F]);
    cpu.cycle().unwrap();
    cpu.cycle().unwrap();
    assert_eq!(cpu.af.high, 0xF0);
    assert_eq!(cpu.af.low, N | H);
}

#[test]
fn scf_and_ccf_drive_the_carry() {
    let mut cpu = boot(&[0x37, 0x3F, 0x3F]);
    cpu.cycle().unwrap();
    assert_eq!(cpu.af.low, C);
    cpu.cycle().unwrap();
    assert_eq!(cpu.af.low, 0);
    cpu.cycle().unwrap();
    assert_eq!(cpu.af.low, C);
}

#[test]
fn prefixed_swap_and_bit() {
    // LD A, 0xAB; SWAP A; BIT 7, A
    let mut cpu = boot(&[0x3E, 0xAB, 0xCB, 0x37, 0xCB, 0x7F]);
    cpu.cycle().unwrap();
    assert_eq!(cpu.cycle(), Ok(2));
    assert_eq!(cpu.af.high, 0xBA);
    assert_eq!(cpu.af.low, 0);
    assert_eq!(cpu.cycle(), Ok(2));
    // 0xBA has bit 7 set, so Z stays clear; BIT always sets H
    assert_eq!(cpu.af.low, H);
}

#[test]
fn prefixed_bit_on_clear_bit_sets_z() {
    // BIT 0, A with A = 0
    let mut cpu = boot(&[0xCB, 0x47]);
    cpu.cycle().unwrap();
    assert_eq!(cpu.af.low, Z | H);
}

#[test]
fn prefixed_res_and_set() {
    // LD A, 0xFF; RES 0, A; SET 7, B
    let mut cpu = boot(&[0x3E, 0xFF, 0xCB, 0x87, 0xCB, 0xF8]);
    cpu.cycle().unwrap();
    cpu.cycle().unwrap();
    assert_eq!(cpu.af.high, 0xFE);
    cpu.cycle().unwrap();
    assert_eq!(cpu.bc.high, 0x80);
}

#[test]
fn prefixed_shift_through_hl() {
    // LD HL, 0xC000; LD [HL], 0x0F; SLA [HL]
    let mut cpu = boot(&[0x21, 0x00, 0xC0, 0x36, 0x0F, 0xCB, 0x26]);
    cpu.cycle().unwrap();
    assert_eq!(cpu.cycle(), Ok(3));
    assert_eq!(cpu.cycle(), Ok(4));
    assert_eq!(cpu.memory.read_byte(0xC000), Ok(0x1E));
}

#[test]
fn pop_af_masks_low_nibble() {
    // LD BC, 0x12FF; PUSH BC; POP AF: the flag byte keeps only its
    // defined high nibble
    let mut cpu = boot(&[0x01, 0xFF, 0x12, 0xC5, 0xF1]);
    cpu.cycle().unwrap();
    assert_eq!(cpu.cycle(), Ok(4));
    assert_eq!(cpu.cycle(), Ok(3));
    assert_eq!(cpu.af.high, 0x12);
    assert_eq!(cpu.af.low, 0xF0);
    assert_eq!(cpu.memory.stack_pointer, 0x9000);
}

#[test]
fn call_and_ret() {
    // CALL 0x0105; then RET from there
    let mut cpu = boot(&[0xCD, 0x05, 0x01, 0x00, 0x00, 0xC9]);
    assert_eq!(cpu.cycle(), Ok(6));
    assert_eq!(cpu.memory.program_counter, 0x0105);
    assert_eq!(cpu.memory.stack_pointer, 0x8FFE);
    assert_eq!(cpu.memory.read_two_bytes(0x8FFE), Ok(0x0103));
    assert_eq!(cpu.cycle(), Ok(4));
    assert_eq!(cpu.memory.program_counter, 0x0103);
    assert_eq!(cpu.memory.stack_pointer, 0x9000);
}

#[test]
fn conditional_ret_timing() {
    // RET NZ taken costs 5; with Z set it falls through for 2
    let mut taken = boot(&[0xC0]);
    taken.memory.push_stack(0x2222).unwrap();
    assert_eq!(taken.cycle(), Ok(5));
    assert_eq!(taken.memory.program_counter, 0x2222);
    let mut skipped = boot(&[0xC0]);
    skipped.af.low = Z;
    assert_eq!(skipped.cycle(), Ok(2));
    assert_eq!(skipped.memory.program_counter, 0x0101);
}

#[test]
fn conditional_call_timing() {
    let mut taken = boot(&[0xC4, 0x00, 0x20]);
    assert_eq!(taken.cycle(), Ok(6));
    assert_eq!(taken.memory.program_counter, 0x2000);
    let mut skipped = boot(&[0xC4, 0x00, 0x20]);
    skipped.af.low = Z;
    assert_eq!(skipped.cycle(), Ok(3));
    assert_eq!(skipped.memory.program_counter, 0x0103);
}

#[test]
fn jumps_absolute_and_via_hl() {
    let mut cpu = boot(&[0xC3, 0x00, 0x20]);
    assert_eq!(cpu.cycle(), Ok(4));
    assert_eq!(cpu.memory.program_counter, 0x2000);
    let mut via_hl = boot(&[0x21, 0x34, 0x12, 0xE9]);
    via_hl.cycle().unwrap();
    assert_eq!(via_hl.cycle(), Ok(1));
    assert_eq!(via_hl.memory.program_counter, 0x1234);
}

#[test]
fn conditional_jp_timing() {
    let mut taken = boot(&[0xCA, 0x00, 0x20]);
    taken.af.low = Z;
    assert_eq!(taken.cycle(), Ok(4));
    assert_eq!(taken.memory.program_counter, 0x2000);
    let mut skipped = boot(&[0xCA, 0x00, 0x20]);
    assert_eq!(skipped.cycle(), Ok(3));
    assert_eq!(skipped.memory.program_counter, 0x0103);
}

#[test]
fn rst_calls_fixed_vector() {
    // RST 0x18
    let mut cpu = boot(&[0xDF]);
    assert_eq!(cpu.cycle(), Ok(4));
    assert_eq!(cpu.memory.program_counter, 0x0018);
    assert_eq!(cpu.memory.read_two_bytes(0x8FFE), Ok(0x0101));
}

#[test]
fn reti_enables_interrupts_at_once() {
    let mut cpu = boot(&[0xD9]);
    cpu.memory.push_stack(0x0123).unwrap();
    assert_eq!(cpu.cycle(), Ok(4));
    assert_eq!(cpu.memory.program_counter, 0x0123);
    assert!(cpu.ime);
}

#[test]
fn high_page_loads() {
    // LD A, 0x42; LDH [0x80], A; LD A, 0; LDH A, [0x80]
    let mut cpu = boot(&[0x3E, 0x42, 0xE0, 0x80, 0x3E, 0x00, 0xF0, 0x80]);
    cpu.cycle().unwrap();
    assert_eq!(cpu.cycle(), Ok(3));
    assert_eq!(cpu.memory.read_byte(0xFF80), Ok(0x42));
    cpu.cycle().unwrap();
    assert_eq!(cpu.cycle(), Ok(3));
    assert_eq!(cpu.af.high, 0x42);
}

#[test]
fn high_page_loads_via_c() {
    // LD C, 0x81; LD A, 0x55; LDH [C], A; LD A, 0; LDH A, [C]
    let mut cpu = boot(&[0x0E, 0x81, 0x3E, 0x55, 0xE2, 0x3E, 0x00, 0xF2]);
    cpu.cycle().unwrap();
    cpu.cycle().unwrap();
    assert_eq!(cpu.cycle(), Ok(2));
    assert_eq!(cpu.memory.read_byte(0xFF81), Ok(0x55));
    cpu.cycle().unwrap();
    assert_eq!(cpu.cycle(), Ok(2));
    assert_eq!(cpu.af.high, 0x55);
}

#[test]
fn direct_addressed_accumulator() {
    // LD A, 0x99; LD [0xC123], A; LD A, 0; LD A, [0xC123]
    let mut cpu = boot(&[0x3E, 0x99, 0xEA, 0x23, 0xC1, 0x3E, 0x00, 0xFA, 0x23, 0xC1]);
    cpu.cycle().unwrap();
    assert_eq!(cpu.cycle(), Ok(4));
    assert_eq!(cpu.memory.read_byte(0xC123), Ok(0x99));
    cpu.cycle().unwrap();
    assert_eq!(cpu.cycle(), Ok(4));
    assert_eq!(cpu.af.high, 0x99);
}

#[test]
fn indirect_loads_with_post_step() {
    // LD HL, 0xC000; LD A, 0x66; LD [HL+], A leaves HL at 0xC001
    let mut cpu = boot(&[0x21, 0x00, 0xC0, 0x3E, 0x66, 0x22, 0x32]);
    cpu.cycle().unwrap();
    cpu.cycle().unwrap();
    assert_eq!(cpu.cycle(), Ok(2));
    assert_eq!(cpu.memory.read_byte(0xC000), Ok(0x66));
    assert_eq!(cpu.hl.get_pair(), 0xC001);
    // LD [HL-], A writes at 0xC001 and steps back down
    assert_eq!(cpu.cycle(), Ok(2));
    assert_eq!(cpu.memory.read_byte(0xC001), Ok(0x66));
    assert_eq!(cpu.hl.get_pair(), 0xC000);
}

#[test]
fn store_stack_pointer_to_memory() {
    let mut cpu = boot(&[0x08, 0x00, 0xC0]);
    cpu.memory.stack_pointer = 0xABCD;
    assert_eq!(cpu.cycle(), Ok(5));
    assert_eq!(cpu.memory.read_byte(0xC000), Ok(0xCD));
    assert_eq!(cpu.memory.read_byte(0xC001), Ok(0xAB));
}

#[test]
fn store_stack_pointer_past_end_fails() {
    let mut cpu = boot(&[0x08, 0xFF, 0xFF]);
    assert_eq!(cpu.cycle(), Err(CoreError::OutOfBounds));
}

#[test]
fn sixteen_bit_inc_dec_wrap_and_leave_flags() {
    // INC BC; DEC DE
    let mut cpu = boot(&[0x03, 0x1B]);
    cpu.af.low = Z | C;
    assert_eq!(cpu.cycle(), Ok(2));
    assert_eq!(cpu.bc.get_pair(), 1);
    assert_eq!(cpu.cycle(), Ok(2));
    assert_eq!(cpu.de.get_pair(), 0xFFFF);
    assert_eq!(cpu.af.low, Z | C);
}

#[test]
fn stack_pointer_steps_report_overflow() {
    let mut inc = boot(&[0x33]);
    inc.memory.stack_pointer = 0xFFFF;
    assert_eq!(inc.cycle(), Err(CoreError::StackOverflow));
    let mut dec = boot(&[0x3B]);
    dec.memory.stack_pointer = 0;
    assert_eq!(dec.cycle(), Err(CoreError::StackOverflow));
}

#[test]
fn add_hl_sets_half_carry_from_bit_11() {
    // LD HL, 0x0FFF; LD BC, 1; ADD HL, BC
    let mut cpu = boot(&[0x21, 0xFF, 0x0F, 0x01, 0x01, 0x00, 0x09]);
    cpu.cycle().unwrap();
    cpu.cycle().unwrap();
    assert_eq!(cpu.cycle(), Ok(2));
    assert_eq!(cpu.hl.get_pair(), 0x1000);
    assert_eq!(cpu.af.low, H);
}

#[test]
fn add_sp_signed_immediate() {
    let mut cpu = boot(&[0xE8, 0x08]);
    cpu.memory.stack_pointer = 0xFFF8;
    assert_eq!(cpu.cycle(), Ok(4));
    assert_eq!(cpu.memory.stack_pointer, 0);
    assert_eq!(cpu.af.low, H | C);
}

#[test]
fn ld_hl_sp_with_negative_offset() {
    let mut cpu = boot(&[0xF8, 0xFE]);
    cpu.memory.stack_pointer = 0x1000;
    assert_eq!(cpu.cycle(), Ok(3));
    assert_eq!(cpu.hl.get_pair(), 0x0FFE);
    assert_eq!(cpu.af.low, 0);
    assert_eq!(cpu.memory.stack_pointer, 0x1000);
}

#[test]
fn ld_sp_from_hl() {
    let mut cpu = boot(&[0x21, 0x34, 0x12, 0xF9]);
    cpu.cycle().unwrap();
    assert_eq!(cpu.cycle(), Ok(2));
    assert_eq!(cpu.memory.stack_pointer, 0x1234);
}

#[test]
fn cycle_at_last_address_overflows() {
    let mut cpu = CPU::new();
    cpu.memory.program_counter = 0xFFFF;
    assert_eq!(cpu.cycle(), Err(CoreError::CounterOverflow));
}

#[test]
fn push_without_headroom_fails() {
    let mut cpu = boot(&[0xC5]);
    cpu.memory.stack_pointer = 1;
    assert_eq!(cpu.cycle(), Err(CoreError::StackOverflow));
}

#[test]
fn pop_at_top_of_memory_fails() {
    let mut cpu = boot(&[0xF1]);
    cpu.memory.stack_pointer = 0xFFFE;
    assert_eq!(cpu.cycle(), Err(CoreError::StackOverflow));
}

#[test]
fn load_rom_capacity() {
    let mut cpu = CPU::new();
    let too_big = vec![0u8; 0xFF01];
    assert_eq!(cpu.load_rom(&too_big), Err(CoreError::CapacityExceeded));
    let exact = vec![0u8; 0xFF00];
    assert_eq!(cpu.load_rom(&exact), Ok(()));
    assert_eq!(cpu.memory.program_counter, 0x0100);
}

#[test]
fn compare_discards_result() {
    // LD A, 7; CP 7 sets Z without touching the accumulator
    let mut cpu = boot(&[0x3E, 0x07, 0xFE, 0x07]);
    cpu.cycle().unwrap();
    assert_eq!(cpu.cycle(), Ok(2));
    assert_eq!(cpu.af.high, 7);
    assert_eq!(cpu.af.low, Z | N);
}

#[test]
fn logical_operations_flag_shapes() {
    // LD A, 0xF0; LD B, 0x0F; AND A, B; then OR and XOR forms
    let mut cpu = boot(&[0x3E, 0xF0, 0x06, 0x0F, 0xA0, 0xF6, 0x0F, 0xEE, 0x0F]);
    cpu.cycle().unwrap();
    cpu.cycle().unwrap();
    cpu.cycle().unwrap();
    assert_eq!(cpu.af.high, 0);
    assert_eq!(cpu.af.low, Z | H);
    cpu.cycle().unwrap();
    assert_eq!(cpu.af.high, 0x0F);
    assert_eq!(cpu.af.low, 0);
    cpu.cycle().unwrap();
    assert_eq!(cpu.af.high, 0);
    assert_eq!(cpu.af.low, Z);
}

#[test]
fn jr_carry_conditions() {
    // JR C taken when the carry flag is set
    let mut on_c = boot(&[0x38, 0x02]);
    on_c.af.low = C;
    assert_eq!(on_c.cycle(), Ok(3));
    assert_eq!(on_c.memory.program_counter, 0x0104);
    // JR NC not taken in the same state
    let mut on_nc = boot(&[0x30, 0x02]);
    on_nc.af.low = C;
    assert_eq!(on_nc.cycle(), Ok(2));
    assert_eq!(on_nc.memory.program_counter, 0x0102);
}

#[test]
fn add_hl_overwrites_zero_flag() {
    // LD BC, 1; ADD HL, BC with Z previously set: the flag byte is
    // rewritten with Z and N clear
    let mut cpu = boot(&[0x01, 0x01, 0x00, 0x09]);
    cpu.af.low = Z | N;
    cpu.cycle().unwrap();
    cpu.cycle().unwrap();
    assert_eq!(cpu.hl.get_pair(), 1);
    assert_eq!(cpu.af.low, 0);
}

#[test]
fn rra_pulls_carry_into_bit_seven() {
    // SCF; LD A, 1; RRA
    let mut cpu = boot(&[0x37, 0x3E, 0x01, 0x1F]);
    cpu.cycle().unwrap();
    cpu.cycle().unwrap();
    assert_eq!(cpu.cycle(), Ok(1));
    assert_eq!(cpu.af.high, 0x80);
    assert_eq!(cpu.af.low, C);
}

#[test]
fn prefixed_right_shift_family() {
    // LD A, 0x81; SRA A keeps the sign bit
    let mut sra = boot(&[0x3E, 0x81, 0xCB, 0x2F]);
    sra.cycle().unwrap();
    sra.cycle().unwrap();
    assert_eq!(sra.af.high, 0xC0);
    assert_eq!(sra.af.low, C);
    // LD A, 0x81; SRL A clears it
    let mut srl = boot(&[0x3E, 0x81, 0xCB, 0x3F]);
    srl.cycle().unwrap();
    srl.cycle().unwrap();
    assert_eq!(srl.af.high, 0x40);
    assert_eq!(srl.af.low, C);
    // LD A, 0x01; RRC A rotates the low bit to the top
    let mut rrc = boot(&[0x3E, 0x01, 0xCB, 0x0F]);
    rrc.cycle().unwrap();
    rrc.cycle().unwrap();
    assert_eq!(rrc.af.high, 0x80);
    assert_eq!(rrc.af.low, C);
}
