use nes_core::cpu::new_cpu;
use nes_core::cpu::read_by_addressing;
use nes_core::cpu::reset;
use nes_core::cpu::run;
use nes_core::cpu::stack_pop_word;
use nes_core::cpu::stack_push_word;
use nes_core::cpu::Cpu;
use nes_core::cpu::CpuError;
use nes_core::cpu_memory::new_memory;
use nes_core::cpu_memory::read_mem;
use nes_core::cpu_memory::write_mem;
use nes_core::cpu_memory::CpuMemory;
use nes_core::opcode::opcode_lookup;
use nes_core::opcode::AddrMode;
use nes_core::opcode::Mnemonic;
use nes_core::ppu::new_ppu;

fn machine(prog: &[u8]) -> (Cpu, CpuMemory) {
    let mut rom = vec![0u8; 0x4000];
    for (i, b) in prog.iter().enumerate() {
        rom[i] = *b;
    }
    let ppu = new_ppu(&Vec::new());
    let mem = new_memory(&rom, ppu);
    let cpu = new_cpu();
    (cpu, mem)
}

fn step_n(cpu: &mut Cpu, mem: &mut CpuMemory, n: usize) {
    for _ in 0..n {
        run(cpu, mem).expect("instruction should be implemented");
    }
}

#[test]
fn power_on_state() {
    let cpu = new_cpu();
    assert_eq!(cpu.reg_a, 0);
    assert_eq!(cpu.reg_x, 0);
    assert_eq!(cpu.reg_y, 0);
    assert_eq!(cpu.reg_s, 0);
    assert_eq!(cpu.reg_p, 0);
    assert_eq!(cpu.reg_pc, 0x8000);
}

#[test]
fn reset_seeds_pc_from_vector() {
    let mut rom = vec![0u8; 0x4000];
    rom[0x3FFC] = 0x00;
    rom[0x3FFD] = 0x90;
    let ppu = new_ppu(&Vec::new());
    let mut mem = new_memory(&rom, ppu);
    let mut cpu = new_cpu();
    reset(&mut cpu, &mut mem);
    assert_eq!(cpu.reg_pc, 0x9000);
    assert_eq!(cpu.reg_p, 0x04);
}

#[test]
fn adc_overflow_edge_case() {
    // LDA #0x7F; ADC #0x01 -> A = 0x80, N=1, V=1, C=0, Z=0
    let (mut cpu, mut mem) = machine(&[0xA9, 0x7F, 0x69, 0x01]);
    step_n(&mut cpu, &mut mem, 2);
    assert_eq!(cpu.reg_a, 0x80);
    assert_eq!(cpu.reg_p, 0xC0);
}

#[test]
fn adc_carry_out_and_zero() {
    // LDA #0xFF; ADC #0x01 -> A = 0x00, Z=1, C=1, V=0, N=0
    let (mut cpu, mut mem) = machine(&[0xA9, 0xFF, 0x69, 0x01]);
    step_n(&mut cpu, &mut mem, 2);
    assert_eq!(cpu.reg_a, 0x00);
    assert_eq!(cpu.reg_p, 0x03);
}

#[test]
fn adc_uses_carry_in() {
    // SEC; LDA #0xFF; ADC #0x00 -> 0xFF + 0 + 1 = 0x100 -> A = 0, Z=1, C=1
    let (mut cpu, mut mem) = machine(&[0x38, 0xA9, 0xFF, 0x69, 0x00]);
    step_n(&mut cpu, &mut mem, 3);
    assert_eq!(cpu.reg_a, 0x00);
    assert_eq!(cpu.reg_p, 0x03);
}

#[test]
fn adc_signed_overflow_negative_side() {
    // LDA #0x80; ADC #0xFF -> 0x17F -> A = 0x7F, C=1, V=1, N=0, Z=0
    let (mut cpu, mut mem) = machine(&[0xA9, 0x80, 0x69, 0xFF]);
    step_n(&mut cpu, &mut mem, 2);
    assert_eq!(cpu.reg_a, 0x7F);
    assert_eq!(cpu.reg_p, 0x41);
}

#[test]
fn sbc_no_borrow_sets_carry() {
    // LDA #0x10; SBC #0x01 with clear carry -> A = 0x0F, C=1
    let (mut cpu, mut mem) = machine(&[0xA9, 0x10, 0xE9, 0x01]);
    step_n(&mut cpu, &mut mem, 2);
    assert_eq!(cpu.reg_a, 0x0F);
    assert_eq!(cpu.reg_p, 0x01);
}

#[test]
fn sbc_borrow_clears_carry() {
    // LDA #0x00; SBC #0x01 -> A = 0xFF, C=0, N=1, V per the sign-mismatch test
    let (mut cpu, mut mem) = machine(&[0xA9, 0x00, 0xE9, 0x01]);
    step_n(&mut cpu, &mut mem, 2);
    assert_eq!(cpu.reg_a, 0xFF);
    assert_eq!(cpu.reg_p, 0xC0);
}

#[test]
fn sbc_subtracts_carry_in() {
    // SEC; LDA #0x10; SBC #0x01 -> 0x10 - 1 - 1 = 0x0E
    let (mut cpu, mut mem) = machine(&[0x38, 0xA9, 0x10, 0xE9, 0x01]);
    step_n(&mut cpu, &mut mem, 3);
    assert_eq!(cpu.reg_a, 0x0E);
    assert_eq!(cpu.reg_p, 0x01);
}

#[test]
fn stack_word_round_trip() {
    let (mut cpu, mut mem) = machine(&[]);
    let s0 = cpu.reg_s;
    stack_push_word(&mut cpu, &mut mem, 0xBEEF);
    assert_eq!(cpu.reg_s, s0.wrapping_add(2));
    let w = stack_pop_word(&mut cpu, &mut mem);
    assert_eq!(w, 0xBEEF);
    assert_eq!(cpu.reg_s, s0);
}

#[test]
fn stack_word_round_trip_wraps_pointer() {
    let (mut cpu, mut mem) = machine(&[]);
    cpu.reg_s = 0xFF;
    stack_push_word(&mut cpu, &mut mem, 0x1234);
    assert_eq!(cpu.reg_s, 0x01);
    let w = stack_pop_word(&mut cpu, &mut mem);
    assert_eq!(w, 0x1234);
    assert_eq!(cpu.reg_s, 0xFF);
}

#[test]
fn zero_page_x_wraps_in_zero_page() {
    // base 0xFF with X = 0x02 resolves to 0x0001, not 0x0101
    let (mut cpu, mut mem) = machine(&[0xFF]);
    cpu.reg_x = 0x02;
    let op = opcode_lookup(0xB5);
    assert_eq!(op.code, Mnemonic::Lda);
    assert_eq!(op.addressing, AddrMode::ZeroPageX);
    let data = read_by_addressing(&mut cpu, &mut mem, &op);
    assert_eq!(data, 0x0001);
}

#[test]
fn zero_page_x_wrap_end_to_end() {
    // LDA #0x42; STA $01; LDA #0x00; LDX #0x02; LDA $FF,X -> A = 0x42
    let (mut cpu, mut mem) = machine(&[0xA9, 0x42, 0x85, 0x01, 0xA9, 0x00, 0xA2, 0x02, 0xB5, 0xFF]);
    step_n(&mut cpu, &mut mem, 5);
    assert_eq!(cpu.reg_a, 0x42);
}

#[test]
fn lda_sta_end_to_end() {
    // LDA #0x42; STA $0200 -> A = 0x42, Z and N clear, memory 0x0200 = 0x42
    let (mut cpu, mut mem) = machine(&[0xA9, 0x42, 0x8D, 0x00, 0x02]);
    step_n(&mut cpu, &mut mem, 2);
    assert_eq!(cpu.reg_a, 0x42);
    assert_eq!(cpu.reg_p & 0x02, 0);
    assert_eq!(cpu.reg_p & 0x80, 0);
    assert_eq!(read_mem(&mut mem, 0x0200), 0x42);
}

#[test]
fn dex_wraps_without_panicking() {
    // LDX #5 then eight DEX: after three X = 2, after four X = 1,
    // after eight X = 0xFD with the negative flag set
    let prog = [0xA2, 0x05, 0xCA, 0xCA, 0xCA, 0xCA, 0xCA, 0xCA, 0xCA, 0xCA];
    let (mut cpu, mut mem) = machine(&prog);
    step_n(&mut cpu, &mut mem, 4);
    assert_eq!(cpu.reg_x, 2);
    assert_eq!(cpu.reg_p & 0x02, 0);
    step_n(&mut cpu, &mut mem, 1);
    assert_eq!(cpu.reg_x, 1);
    step_n(&mut cpu, &mut mem, 4);
    assert_eq!(cpu.reg_x, 0xFD);
    assert_ne!(cpu.reg_p & 0x80, 0);
}

#[test]
fn unimplemented_opcode_is_fatal() {
    let (mut cpu, mut mem) = machine(&[0x02]);
    let r = run(&mut cpu, &mut mem);
    assert_eq!(
        r,
        Err(CpuError::UnimplementedInstruction { opcode: 0x02, pc: 0x8000 })
    );
    assert_eq!(cpu.reg_pc, 0x8001);
}

#[test]
fn run_returns_executed_opcode() {
    let (mut cpu, mut mem) = machine(&[0xEA]);
    let r = run(&mut cpu, &mut mem);
    assert_eq!(r, Ok(0xEA));
    assert_eq!(cpu.reg_pc, 0x8001);
}

#[test]
fn branch_loop_taken_and_not_taken() {
    // LDX #2; DEX; BNE -3: loops until X = 0
    let (mut cpu, mut mem) = machine(&[0xA2, 0x02, 0xCA, 0xD0, 0xFD]);
    step_n(&mut cpu, &mut mem, 3);
    assert_eq!(cpu.reg_pc, 0x8002);
    assert_eq!(cpu.reg_x, 1);
    step_n(&mut cpu, &mut mem, 2);
    assert_eq!(cpu.reg_pc, 0x8005);
    assert_eq!(cpu.reg_x, 0);
    assert_eq!(cpu.reg_p, 0x02);
}

#[test]
fn branch_forward_on_carry() {
    // SEC; BCS +2 skips the following two bytes
    let (mut cpu, mut mem) = machine(&[0x38, 0xB0, 0x02, 0xEA, 0xEA, 0xEA]);
    step_n(&mut cpu, &mut mem, 2);
    assert_eq!(cpu.reg_pc, 0x8005);
}

#[test]
fn jsr_and_rts() {
    // JSR $8005 then RTS: return address is the word after the 3-byte
    // instruction; RTS jumps to it plus one
    let (mut cpu, mut mem) = machine(&[0x20, 0x05, 0x80, 0xEA, 0xEA, 0x60]);
    step_n(&mut cpu, &mut mem, 1);
    assert_eq!(cpu.reg_pc, 0x8005);
    assert_eq!(cpu.reg_s, 2);
    step_n(&mut cpu, &mut mem, 1);
    assert_eq!(cpu.reg_pc, 0x8004);
    assert_eq!(cpu.reg_s, 0);
}

#[test]
fn jmp_absolute_and_indirect() {
    let (mut cpu, mut mem) = machine(&[0x4C, 0x34, 0x12]);
    step_n(&mut cpu, &mut mem, 1);
    assert_eq!(cpu.reg_pc, 0x1234);

    let (mut cpu2, mut mem2) = machine(&[0x6C, 0x10, 0x00]);
    write_mem(&mut mem2, 0x0010, 0x78);
    write_mem(&mut mem2, 0x0011, 0x56);
    step_n(&mut cpu2, &mut mem2, 1);
    assert_eq!(cpu2.reg_pc, 0x5678);
}

#[test]
fn indirect_x_dereferences_zero_page_pointer() {
    // LDX #4; LDA ($20,X): the pointer word lives at 0x24/0x25
    let (mut cpu, mut mem) = machine(&[0xA2, 0x04, 0xA1, 0x20]);
    write_mem(&mut mem, 0x0024, 0x10);
    write_mem(&mut mem, 0x0025, 0x03);
    write_mem(&mut mem, 0x0310, 0x77);
    step_n(&mut cpu, &mut mem, 2);
    assert_eq!(cpu.reg_a, 0x77);
}

#[test]
fn indirect_y_post_indexes_pointer() {
    // LDY #0x10; LDA ($30),Y: pointer 0x0300 plus Y reaches 0x0310
    let (mut cpu, mut mem) = machine(&[0xA0, 0x10, 0xB1, 0x30]);
    write_mem(&mut mem, 0x0030, 0x00);
    write_mem(&mut mem, 0x0031, 0x03);
    write_mem(&mut mem, 0x0310, 0x77);
    step_n(&mut cpu, &mut mem, 2);
    assert_eq!(cpu.reg_a, 0x77);
}

#[test]
fn asl_accumulator_shifts_into_carry() {
    // LDA #0x81; ASL A -> A = 0x02, C = 1
    let (mut cpu, mut mem) = machine(&[0xA9, 0x81, 0x0A]);
    step_n(&mut cpu, &mut mem, 2);
    assert_eq!(cpu.reg_a, 0x02);
    assert_eq!(cpu.reg_p, 0x01);
}

#[test]
fn ror_accumulator_folds_carry_into_bit7() {
    // SEC; LDA #0x02; ROR A -> A = 0x81, C = 0, N = 1
    let (mut cpu, mut mem) = machine(&[0x38, 0xA9, 0x02, 0x6A]);
    step_n(&mut cpu, &mut mem, 3);
    assert_eq!(cpu.reg_a, 0x81);
    assert_eq!(cpu.reg_p, 0x80);
}

#[test]
fn rol_accumulator_folds_carry_into_bit0() {
    // SEC; LDA #0x80; ROL A -> A = 0x01, C = 1
    let (mut cpu, mut mem) = machine(&[0x38, 0xA9, 0x80, 0x2A]);
    step_n(&mut cpu, &mut mem, 3);
    assert_eq!(cpu.reg_a, 0x01);
    assert_eq!(cpu.reg_p, 0x01);
}

#[test]
fn lsr_accumulator_to_zero() {
    // LDA #0x01; LSR A -> A = 0, C = 1, Z = 1
    let (mut cpu, mut mem) = machine(&[0xA9, 0x01, 0x4A]);
    step_n(&mut cpu, &mut mem, 2);
    assert_eq!(cpu.reg_a, 0x00);
    assert_eq!(cpu.reg_p, 0x03);
}

#[test]
fn asl_memory_operand() {
    // ASL $0200 with 0x40 stored there -> memory 0x80, N = 1
    let (mut cpu, mut mem) = machine(&[0x0E, 0x00, 0x02]);
    write_mem(&mut mem, 0x0200, 0x40);
    step_n(&mut cpu, &mut mem, 1);
    assert_eq!(read_mem(&mut mem, 0x0200), 0x80);
    assert_eq!(cpu.reg_p, 0x80);
}

#[test]
fn inc_and_dec_memory_wrap() {
    let (mut cpu, mut mem) = machine(&[0xEE, 0x00, 0x02, 0xCE, 0x01, 0x02]);
    write_mem(&mut mem, 0x0200, 0xFF);
    write_mem(&mut mem, 0x0201, 0x00);
    step_n(&mut cpu, &mut mem, 1);
    assert_eq!(read_mem(&mut mem, 0x0200), 0x00);
    assert_eq!(cpu.reg_p, 0x02);
    step_n(&mut cpu, &mut mem, 1);
    assert_eq!(read_mem(&mut mem, 0x0201), 0xFF);
    assert_eq!(cpu.reg_p, 0x80);
}

#[test]
fn bit_copies_bits_and_tests_accumulator() {
    // LDA #0x00; BIT $0200 with 0xC0 stored -> N and V from the value, Z set
    let (mut cpu, mut mem) = machine(&[0xA9, 0x00, 0x2C, 0x00, 0x02]);
    write_mem(&mut mem, 0x0200, 0xC0);
    step_n(&mut cpu, &mut mem, 2);
    assert_eq!(cpu.reg_p, 0xC2);
}

#[test]
fn cmp_carry_semantics() {
    // CMP sets carry exactly when the register is at least the operand
    let (mut cpu, mut mem) = machine(&[0xA9, 0x50, 0xC9, 0x30, 0xC9, 0x50, 0xC9, 0x60]);
    step_n(&mut cpu, &mut mem, 2);
    assert_eq!(cpu.reg_p, 0x01);
    step_n(&mut cpu, &mut mem, 1);
    assert_eq!(cpu.reg_p, 0x03);
    step_n(&mut cpu, &mut mem, 1);
    assert_eq!(cpu.reg_p, 0x80);
}

#[test]
fn logical_ops_update_flags() {
    // LDA #0xF0; AND #0x0F -> 0, Z; ORA #0x80 -> 0x80, N; EOR #0x80 -> 0, Z
    let (mut cpu, mut mem) = machine(&[0xA9, 0xF0, 0x29, 0x0F, 0x09, 0x80, 0x49, 0x80]);
    step_n(&mut cpu, &mut mem, 2);
    assert_eq!(cpu.reg_a, 0x00);
    assert_eq!(cpu.reg_p, 0x02);
    step_n(&mut cpu, &mut mem, 1);
    assert_eq!(cpu.reg_a, 0x80);
    assert_eq!(cpu.reg_p, 0x80);
    step_n(&mut cpu, &mut mem, 1);
    assert_eq!(cpu.reg_a, 0x00);
    assert_eq!(cpu.reg_p, 0x02);
}

#[test]
fn push_pull_accumulator_and_status() {
    // LDA #0x37; PHA; LDA #0x00; PLA restores 0x37
    let (mut cpu, mut mem) = machine(&[0xA9, 0x37, 0x48, 0xA9, 0x00, 0x68]);
    step_n(&mut cpu, &mut mem, 4);
    assert_eq!(cpu.reg_a, 0x37);
    assert_eq!(cpu.reg_s, 0);

    // SEC; PHP; CLC; PLP restores the carry flag
    let (mut cpu2, mut mem2) = machine(&[0x38, 0x08, 0x18, 0x28]);
    step_n(&mut cpu2, &mut mem2, 4);
    assert_eq!(cpu2.reg_p, 0x01);
}

#[test]
fn transfers_between_registers() {
    // LDX #0x10; TXS; TSX; TXA; TAY
    let (mut cpu, mut mem) = machine(&[0xA2, 0x10, 0x9A, 0xBA, 0x8A, 0xA8]);
    step_n(&mut cpu, &mut mem, 6);
    assert_eq!(cpu.reg_s, 0x10);
    assert_eq!(cpu.reg_x, 0x10);
    assert_eq!(cpu.reg_a, 0x10);
    assert_eq!(cpu.reg_y, 0x10);
}

#[test]
fn flag_set_and_clear_instructions() {
    let (mut cpu, mut mem) = machine(&[0x38, 0xF8, 0x78, 0x18, 0xD8, 0x58]);
    step_n(&mut cpu, &mut mem, 3);
    assert_eq!(cpu.reg_p, 0x0D);
    step_n(&mut cpu, &mut mem, 3);
    assert_eq!(cpu.reg_p, 0x00);
}

#[test]
fn brk_sets_break_flag() {
    let (mut cpu, mut mem) = machine(&[0x00]);
    step_n(&mut cpu, &mut mem, 1);
    assert_eq!(cpu.reg_p, 0x10);
}

#[test]
fn absolute_indexed_addressing() {
    // LDX #0x10; LDA $0200,X and LDY #0x01; LDA $02FF,Y
    let (mut cpu, mut mem) = machine(&[0xA2, 0x10, 0xBD, 0x00, 0x02, 0xA0, 0x01, 0xB9, 0xFF, 0x02]);
    write_mem(&mut mem, 0x0210, 0x5A);
    write_mem(&mut mem, 0x0300, 0xA5);
    step_n(&mut cpu, &mut mem, 2);
    assert_eq!(cpu.reg_a, 0x5A);
    step_n(&mut cpu, &mut mem, 2);
    assert_eq!(cpu.reg_a, 0xA5);
}

#[test]
fn zero_page_y_addressing() {
    // LDY #0x03; LDX $10,Y reads from 0x0013
    let (mut cpu, mut mem) = machine(&[0xA0, 0x03, 0xB6, 0x10]);
    write_mem(&mut mem, 0x0013, 0x66);
    step_n(&mut cpu, &mut mem, 2);
    assert_eq!(cpu.reg_x, 0x66);
}

#[test]
fn load_registers_set_negative_and_zero() {
    let (mut cpu, mut mem) = machine(&[0xA2, 0x80, 0xA0, 0x00, 0xA9, 0x01]);
    step_n(&mut cpu, &mut mem, 1);
    assert_eq!(cpu.reg_x, 0x80);
    assert_eq!(cpu.reg_p, 0x80);
    step_n(&mut cpu, &mut mem, 1);
    assert_eq!(cpu.reg_y, 0x00);
    assert_eq!(cpu.reg_p, 0x02);
    step_n(&mut cpu, &mut mem, 1);
    assert_eq!(cpu.reg_a, 0x01);
    assert_eq!(cpu.reg_p, 0x00);
}

#[test]
fn store_index_registers() {
    // LDX #0x21; STX $40; LDY #0x43; STY $41
    let (mut cpu, mut mem) = machine(&[0xA2, 0x21, 0x86, 0x40, 0xA0, 0x43, 0x84, 0x41]);
    step_n(&mut cpu, &mut mem, 4);
    assert_eq!(read_mem(&mut mem, 0x0040), 0x21);
    assert_eq!(read_mem(&mut mem, 0x0041), 0x43);
}

#[test]
fn inx_iny_dey_wrap_and_flags() {
    // LDX #0xFF; INX wraps to zero; LDY #0x00; DEY wraps to 0xFF; INY
    let (mut cpu, mut mem) = machine(&[0xA2, 0xFF, 0xE8, 0xA0, 0x00, 0x88, 0xC8]);
    step_n(&mut cpu, &mut mem, 2);
    assert_eq!(cpu.reg_x, 0x00);
    assert_eq!(cpu.reg_p, 0x02);
    step_n(&mut cpu, &mut mem, 2);
    assert_eq!(cpu.reg_y, 0xFF);
    assert_eq!(cpu.reg_p, 0x80);
    step_n(&mut cpu, &mut mem, 1);
    assert_eq!(cpu.reg_y, 0x00);
    assert_eq!(cpu.reg_p, 0x02);
}

#[test]
fn cpx_cpy_compare_their_registers() {
    let (mut cpu, mut mem) = machine(&[0xA2, 0x05, 0xE0, 0x05, 0xA0, 0x01, 0xC0, 0x02]);
    step_n(&mut cpu, &mut mem, 2);
    assert_eq!(cpu.reg_p, 0x03);
    step_n(&mut cpu, &mut mem, 2);
    assert_eq!(cpu.reg_p & 0x01, 0x00);
    assert_ne!(cpu.reg_p & 0x80, 0x00);
}

#[test]
fn opcode_table_spot_checks() {
    let lda_imm = opcode_lookup(0xA9);
    assert_eq!(lda_imm.code, Mnemonic::Lda);
    assert_eq!(lda_imm.addressing, AddrMode::Immediate);
    assert_eq!(lda_imm.bytes, 2);
    assert_eq!(lda_imm.cycles, 2);

    let asl_acc = opcode_lookup(0x0A);
    assert_eq!(asl_acc.code, Mnemonic::Asl);
    assert_eq!(asl_acc.addressing, AddrMode::Accumulator);

    let sta_abs = opcode_lookup(0x8D);
    assert_eq!(sta_abs.code, Mnemonic::Sta);
    assert_eq!(sta_abs.addressing, AddrMode::Absolute);
    assert_eq!(sta_abs.bytes, 3);
    assert_eq!(sta_abs.cycles, 4);

    let kil = opcode_lookup(0x02);
    assert_eq!(kil.code, Mnemonic::Kil);
}
