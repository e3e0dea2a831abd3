use emu8080::cpu::{Cpu, CpuError, RESET_SP};

fn run_to_halt(program: Vec<u8>) -> Cpu {
    let mut cpu = Cpu::new(program);
    let result = cpu.run(10_000);
    assert!(result.is_ok());
    assert!(!cpu.is_running());
    cpu
}

#[test]
fn reset_state() {
    let cpu = Cpu::new(vec![0x12, 0x34]);
    assert_eq!(cpu.pc(), 0);
    assert_eq!(cpu.sp(), RESET_SP);
    assert_eq!((cpu.a(), cpu.b(), cpu.c(), cpu.d(), cpu.e(), cpu.h(), cpu.l()), (0, 0, 0, 0, 0, 0, 0));
    assert!(cpu.flags().zero);
    assert!(!cpu.flags().carry);
    assert!(!cpu.is_running());
    assert_eq!(cpu.memory_at(0), 0x12);
    assert_eq!(cpu.memory_at(1), 0x34);
    assert_eq!(cpu.memory_at(2), 0);
    assert_eq!(cpu.memory_at(0xffff), 0);
}

#[test]
fn full_size_program_loads() {
    let mut program = vec![0u8; 0x10000];
    program[0xffff] = 0xab;
    let cpu = Cpu::new(program);
    assert_eq!(cpu.memory_at(0xffff), 0xab);
}

#[test]
fn mvi_a_loads_every_value() {
    for x in 0..=255u8 {
        let mut cpu = Cpu::new(vec![0x3e, x]);
        assert_eq!(cpu.cycle(), Ok(()));
        assert_eq!(cpu.a(), x);
        assert_eq!(cpu.pc(), 2);
    }
}

#[test]
fn add_every_pair() {
    for x in 0..=255u8 {
        let mut program = Vec::new();
        for y in 0..=255u8 {
            // MVI A,x; MVI B,y; ADD B
            program.extend_from_slice(&[0x3e, x, 0x06, y, 0x80]);
        }
        let mut cpu = Cpu::new(program);
        for y in 0..=255u8 {
            for _ in 0..3 {
                assert_eq!(cpu.cycle(), Ok(()));
            }
            let sum = x as u16 + y as u16;
            assert_eq!(cpu.a(), (sum % 256) as u8);
            assert_eq!(cpu.flags().carry, sum > 255);
            assert_eq!(cpu.flags().zero, sum % 256 == 0);
        }
    }
}

#[test]
fn push_pop_keeps_pair_and_sp() {
    // LXI SP,0x2000; LXI B,0x1234; LXI D,0x5678; LXI H,0x9abc; MVI A,0x42; STC
    let setup = vec![0x31, 0x00, 0x20, 0x01, 0x34, 0x12, 0x11, 0x78, 0x56, 0x21, 0xbc, 0x9a, 0x3e, 0x42, 0x37];
    for (push, pop) in [(0xc5u8, 0xc1u8), (0xd5, 0xd1), (0xe5, 0xe1), (0xf5, 0xf1)] {
        let mut program = setup.clone();
        program.extend_from_slice(&[push, pop, 0x76]);
        let mut cpu = Cpu::new(program);
        for _ in 0..6 {
            assert_eq!(cpu.cycle(), Ok(()));
        }
        let before = (cpu.a(), cpu.b(), cpu.c(), cpu.d(), cpu.e(), cpu.h(), cpu.l(), cpu.flags());
        assert_eq!(cpu.cycle(), Ok(()));
        assert_eq!(cpu.sp(), 0x1ffe);
        assert_eq!(cpu.cycle(), Ok(()));
        assert_eq!(cpu.sp(), 0x2000);
        assert_eq!((cpu.a(), cpu.b(), cpu.c(), cpu.d(), cpu.e(), cpu.h(), cpu.l(), cpu.flags()), before);
    }
}

#[test]
fn push_stores_high_byte_above_low_byte() {
    // LXI SP,0x2000; LXI B,0x1234; PUSH B; HLT
    let cpu = run_to_halt(vec![0x31, 0x00, 0x20, 0x01, 0x34, 0x12, 0xc5, 0x76]);
    assert_eq!(cpu.memory_at(0x1fff), 0x12);
    assert_eq!(cpu.memory_at(0x1ffe), 0x34);
    assert_eq!(cpu.sp(), 0x1ffe);
}

#[test]
fn push_psw_status_byte_layout() {
    // LXI SP,0x2000; MVI A,0; ORA A (zero, parity); STC; PUSH PSW; HLT
    let cpu = run_to_halt(vec![0x31, 0x00, 0x20, 0x3e, 0x00, 0xb7, 0x37, 0xf5, 0x76]);
    // zero bit 0, parity bit 2, carry bit 3
    assert_eq!(cpu.memory_at(0x1ffe), 0b0000_1101);
    assert_eq!(cpu.memory_at(0x1fff), 0x00);
}

#[test]
fn call_then_ret_returns_after_call() {
    // LXI SP,0x3000; CALL 0x0010; HLT ... at 0x0010: RET
    let mut program = vec![0x31, 0x00, 0x30, 0xcd, 0x10, 0x00, 0x76];
    program.resize(0x10, 0);
    program.push(0xc9);
    let mut cpu = Cpu::new(program);
    assert_eq!(cpu.cycle(), Ok(()));
    assert_eq!(cpu.cycle(), Ok(()));
    assert_eq!(cpu.pc(), 0x0010);
    assert_eq!(cpu.sp(), 0x2ffe);
    assert_eq!(cpu.memory_at(0x2ffe), 0x06);
    assert_eq!(cpu.memory_at(0x2fff), 0x00);
    assert_eq!(cpu.cycle(), Ok(()));
    assert_eq!(cpu.pc(), 0x0006);
    assert_eq!(cpu.sp(), 0x3000);
}

#[test]
fn ana_a_parity_for_every_value() {
    for x in 0..=255u8 {
        let mut cpu = Cpu::new(vec![0x3e, x, 0xa7]);
        assert_eq!(cpu.cycle(), Ok(()));
        assert_eq!(cpu.cycle(), Ok(()));
        assert_eq!(cpu.a(), x);
        assert_eq!(cpu.flags().parity, x.count_ones() % 2 == 0);
        assert!(!cpu.flags().carry);
    }
}

#[test]
fn scenario_mvi_inr_hlt() {
    let mut cpu = Cpu::new(vec![0x06, 0x05, 0x3c, 0x76]);
    assert_eq!(cpu.run(100), Ok(3));
    assert_eq!(cpu.b(), 5);
    assert_eq!(cpu.a(), 1);
    assert!(!cpu.is_running());
    assert_eq!(cpu.pc(), 4);
}

#[test]
fn scenario_sui_without_borrow() {
    let cpu = run_to_halt(vec![0x3e, 0x10, 0xd6, 0x01, 0x76]);
    assert_eq!(cpu.a(), 0x0f);
    assert!(!cpu.flags().carry);
    // borrow out of the low nibble: no auxiliary carry
    assert!(!cpu.flags().aux_carry);
}

#[test]
fn unassigned_opcode_is_one_byte_nop() {
    let mut cpu = Cpu::new(vec![0x08]);
    assert_eq!(cpu.cycle(), Ok(()));
    assert_eq!(cpu.pc(), 1);
    for op in [0x10u8, 0x18, 0x20, 0x28, 0x30, 0x38, 0xcb, 0xd9, 0xdd, 0xed, 0xfd] {
        let mut cpu = Cpu::new(vec![op]);
        assert_eq!(cpu.cycle(), Ok(()));
        assert_eq!(cpu.pc(), 1);
        assert_eq!(cpu.sp(), RESET_SP);
    }
}

#[test]
fn unimplemented_opcode_is_reported() {
    // NOP; then the sign-conditional jump JP
    let mut cpu = Cpu::new(vec![0x00, 0xf2, 0x00, 0x00]);
    assert_eq!(cpu.cycle(), Ok(()));
    assert_eq!(cpu.cycle(), Err(CpuError::UnimplementedOpcode { opcode: 0xf2, address: 1 }));
    assert_eq!(cpu.pc(), 1);
    let mut cpu = Cpu::new(vec![0x00, 0xef]);
    assert_eq!(cpu.run(10), Err(CpuError::UnimplementedOpcode { opcode: 0xef, address: 1 }));
}

#[test]
fn run_stops_after_step_budget() {
    // JMP 0x0000 forever
    let mut cpu = Cpu::new(vec![0xc3, 0x00, 0x00]);
    assert_eq!(cpu.run(7), Ok(7));
    assert!(cpu.is_running());
    assert_eq!(cpu.pc(), 0);
}

#[test]
fn dcr_wraps_at_zero() {
    // DCR B; HLT
    let cpu = run_to_halt(vec![0x05, 0x76]);
    assert_eq!(cpu.b(), 0xff);
    assert!(cpu.flags().sign);
    assert!(!cpu.flags().zero);
    assert!(cpu.flags().parity);
    assert!(!cpu.flags().aux_carry);
}

#[test]
fn inr_wraps_and_keeps_carry() {
    // MVI C,0xFF; STC; INR C; HLT
    let cpu = run_to_halt(vec![0x0e, 0xff, 0x37, 0x0c, 0x76]);
    assert_eq!(cpu.c(), 0);
    assert!(cpu.flags().zero);
    assert!(cpu.flags().carry);
    assert!(cpu.flags().aux_carry);
}

#[test]
fn sub_with_borrow() {
    // MVI A,0x05; MVI B,0x07; SUB B; HLT
    let cpu = run_to_halt(vec![0x3e, 0x05, 0x06, 0x07, 0x90, 0x76]);
    assert_eq!(cpu.a(), 0xfe);
    assert!(cpu.flags().carry);
    assert!(cpu.flags().sign);
    // SBB A with carry set: 0xFE - 0xFE - 1
    let cpu = run_to_halt(vec![0x3e, 0x05, 0x06, 0x07, 0x90, 0x9f, 0x76]);
    assert_eq!(cpu.a(), 0xff);
    assert!(cpu.flags().carry);
}

#[test]
fn adc_and_aux_carry() {
    // MVI A,0x0F; STC; ACI 0x00; HLT
    let cpu = run_to_halt(vec![0x3e, 0x0f, 0x37, 0xce, 0x00, 0x76]);
    assert_eq!(cpu.a(), 0x10);
    assert!(cpu.flags().aux_carry);
    assert!(!cpu.flags().carry);
}

#[test]
fn cmp_keeps_accumulator() {
    // MVI A,0x10; MVI E,0x20; CMP E; HLT
    let cpu = run_to_halt(vec![0x3e, 0x10, 0x1e, 0x20, 0xbb, 0x76]);
    assert_eq!(cpu.a(), 0x10);
    assert!(cpu.flags().carry);
    assert!(!cpu.flags().zero);
    // CPI 0x10 on equal values
    let cpu = run_to_halt(vec![0x3e, 0x10, 0xfe, 0x10, 0x76]);
    assert_eq!(cpu.a(), 0x10);
    assert!(cpu.flags().zero);
    assert!(!cpu.flags().carry);
}

#[test]
fn logic_ops_clear_carry() {
    // MVI A,0xF0; STC; XRI 0xFF; HLT
    let cpu = run_to_halt(vec![0x3e, 0xf0, 0x37, 0xee, 0xff, 0x76]);
    assert_eq!(cpu.a(), 0x0f);
    assert!(!cpu.flags().carry);
    // MVI A,0xF0; ORI 0x0F; ANI 0x3C; HLT
    let cpu = run_to_halt(vec![0x3e, 0xf0, 0xf6, 0x0f, 0xe6, 0x3c, 0x76]);
    assert_eq!(cpu.a(), 0x3c);
}

#[test]
fn rotations() {
    // MVI A,0x81; RLC; HLT
    let cpu = run_to_halt(vec![0x3e, 0x81, 0x07, 0x76]);
    assert_eq!(cpu.a(), 0x03);
    assert!(cpu.flags().carry);
    // MVI A,0x01; RRC; HLT
    let cpu = run_to_halt(vec![0x3e, 0x01, 0x0f, 0x76]);
    assert_eq!(cpu.a(), 0x80);
    assert!(cpu.flags().carry);
    // MVI A,0x80; RAL (carry clear); HLT
    let cpu = run_to_halt(vec![0x3e, 0x80, 0x17, 0x76]);
    assert_eq!(cpu.a(), 0x00);
    assert!(cpu.flags().carry);
    // MVI A,0x02; STC; RAR; HLT
    let cpu = run_to_halt(vec![0x3e, 0x02, 0x37, 0x1f, 0x76]);
    assert_eq!(cpu.a(), 0x81);
    assert!(!cpu.flags().carry);
}

#[test]
fn register_pairs_and_direct_addresses() {
    // LXI H,0x1234; SHLD 0x2000; LXI D,0xBEEF; XCHG; LHLD 0x2000; HLT
    let cpu = run_to_halt(vec![
        0x21, 0x34, 0x12, 0x22, 0x00, 0x20, 0x11, 0xef, 0xbe, 0xeb, 0x2a, 0x00, 0x20, 0x76,
    ]);
    assert_eq!(cpu.memory_at(0x2000), 0x34);
    assert_eq!(cpu.memory_at(0x2001), 0x12);
    // XCHG moved 0x1234 into D:E; LHLD reloaded it into H:L
    assert_eq!((cpu.d(), cpu.e()), (0x12, 0x34));
    assert_eq!((cpu.h(), cpu.l()), (0x12, 0x34));
}

#[test]
fn sta_lda_stax_ldax_and_memory_operand() {
    // MVI A,0x5A; STA 0x3000; LXI B,0x3000; LDAX B -> A; LXI H,0x3000; INR M; MOV E,M; HLT
    let cpu = run_to_halt(vec![
        0x3e, 0x5a, 0x32, 0x00, 0x30, 0x01, 0x00, 0x30, 0x0a, 0x21, 0x00, 0x30, 0x34, 0x5e, 0x76,
    ]);
    assert_eq!(cpu.a(), 0x5a);
    assert_eq!(cpu.memory_at(0x3000), 0x5b);
    assert_eq!(cpu.e(), 0x5b);
}

#[test]
fn sixteen_bit_arithmetic_wraps() {
    // LXI B,0xFFFF; INX B; LXI D,0x0000; DCX D; LXI H,0x8000; DAD H; HLT
    let cpu = run_to_halt(vec![
        0x01, 0xff, 0xff, 0x03, 0x11, 0x00, 0x00, 0x1b, 0x21, 0x00, 0x80, 0x29, 0x76,
    ]);
    assert_eq!((cpu.b(), cpu.c()), (0, 0));
    assert_eq!((cpu.d(), cpu.e()), (0xff, 0xff));
    assert_eq!((cpu.h(), cpu.l()), (0, 0));
    assert!(cpu.flags().carry);
}

#[test]
fn conditional_jumps_follow_flags() {
    // MVI A,1; DCR A (zero); JNZ 0x0010; JZ 0x0010; HLT; ... 0x0010: MVI B,7; HLT
    let mut program = vec![0x3e, 0x01, 0x3d, 0xc2, 0x10, 0x00, 0xca, 0x10, 0x00, 0x76];
    program.resize(0x10, 0);
    program.extend_from_slice(&[0x06, 0x07, 0x76]);
    let cpu = run_to_halt(program);
    assert_eq!(cpu.b(), 7);
    assert_eq!(cpu.pc(), 0x13);
}

#[test]
fn conditional_call_not_taken_falls_through() {
    // ORA A with A=0 -> zero; CNZ 0x1234; HLT
    let cpu = run_to_halt(vec![0xb7, 0xc4, 0x34, 0x12, 0x76]);
    assert_eq!(cpu.pc(), 5);
    assert_eq!(cpu.sp(), RESET_SP);
}

#[test]
fn xthl_pchl_sphl() {
    // LXI SP,0x2000; LXI H,0xABCD; PUSH H; LXI H,0x1234; XTHL; HLT
    let cpu = run_to_halt(vec![0x31, 0x00, 0x20, 0x21, 0xcd, 0xab, 0xe5, 0x21, 0x34, 0x12, 0xe3, 0x76]);
    assert_eq!((cpu.h(), cpu.l()), (0xab, 0xcd));
    assert_eq!(cpu.memory_at(0x1ffe), 0x34);
    assert_eq!(cpu.memory_at(0x1fff), 0x12);
    // LXI H,0x0008; SPHL; PCHL ... at 8: HLT
    let mut program = vec![0x21, 0x08, 0x00, 0xf9, 0xe9];
    program.resize(8, 0);
    program.push(0x76);
    let cpu = run_to_halt(program);
    assert_eq!(cpu.sp(), 0x0008);
    assert_eq!(cpu.pc(), 0x0009);
}

#[test]
fn cma_stc_cmc_and_ports() {
    // MVI A,0x0F; CMA; STC; CMC; OUT 0x10; IN 0x20; HLT
    let cpu = run_to_halt(vec![0x3e, 0x0f, 0x2f, 0x37, 0x3f, 0xd3, 0x10, 0xdb, 0x20, 0x76]);
    assert_eq!(cpu.a(), 0xf0);
    assert!(!cpu.flags().carry);
    assert_eq!(cpu.pc(), 10);
}

#[test]
fn breakpoint_clears_run_flag() {
    let mut cpu = Cpu::new(vec![0x00, 0x00, 0x00]);
    cpu.set_running(true);
    assert!(!cpu.check_breakpoint(&vec![1, 2]));
    assert!(cpu.is_running());
    assert_eq!(cpu.cycle(), Ok(()));
    assert!(cpu.check_breakpoint(&vec![7, 1]));
    assert!(!cpu.is_running());
}

#[test]
fn memory_listing_format() {
    let cpu = Cpu::new(vec![0xab, 0x01, 0x2f]);
    let text = cpu.print_memory_width(2);
    assert_eq!(text.len(), 3 * 0x10000);
    assert_eq!(&text[..12], b"AB\n01 2F\n00 ");
    let text = cpu.print_memory();
    assert_eq!(&text[..9], b"AB\n01 2F ");
    assert_eq!(&text[96..99], b"00\n");
}

#[test]
fn tick_runs_only_when_running() {
    // NOP; NOP; HLT
    let mut cpu = Cpu::new(vec![0x00, 0x00, 0x76]);
    assert_eq!(cpu.tick(&vec![]), Ok(false));
    assert_eq!(cpu.pc(), 0);
    assert!(cpu.toggle_running());
    assert_eq!(cpu.tick(&vec![2]), Ok(false));
    assert_eq!(cpu.pc(), 1);
    assert!(cpu.is_running());
    assert_eq!(cpu.tick(&vec![2]), Ok(true));
    assert_eq!(cpu.pc(), 2);
    assert!(!cpu.is_running());
    assert!(cpu.toggle_running());
    assert_eq!(cpu.tick(&vec![]), Ok(false));
    assert!(!cpu.is_running());
    assert_eq!(cpu.pc(), 3);
}

#[test]
fn single_step_leaves_run_flag_clear() {
    let mut cpu = Cpu::new(vec![0x3e, 0x09, 0xf0]);
    assert_eq!(cpu.single_step(), Ok(()));
    assert_eq!(cpu.a(), 9);
    assert!(!cpu.is_running());
    cpu.set_running(true);
    assert_eq!(cpu.single_step(), Err(CpuError::UnimplementedOpcode { opcode: 0xf0, address: 2 }));
    assert!(!cpu.is_running());
    assert_eq!(cpu.pc(), 2);
}
