//! Properties of the step semantics, stated over `CpuState::step`, which is
//! what `Cpu::cycle` performs.
use vstd::prelude::*;
use crate::alu::{alu_spec, AluOp};
use crate::cpu::{word, wrap16, CpuError, CpuState};
use crate::flags::even_parity;
use crate::isa::{decode_spec, Instr, Reg, StackPair};

verus! {

/// The opcodes of the unassigned slots.
pub open spec fn is_unassigned(op: u8) -> bool {
    op == 0x08 || op == 0x10 || op == 0x18 || op == 0x20 || op == 0x28 || op == 0x30 || op == 0x38
        || op == 0xCB || op == 0xD9 || op == 0xDD || op == 0xED || op == 0xFD
}

/// `MVI A,x` leaves `x` in the accumulator.
pub proof fn lemma_mvi_a(s: CpuState, x: u8)
    requires
        s.valid(),
        s.byte_at(s.pc as int) == 0x3E,
        s.imm8() == x,
    ensures
        s.step() is Ok,
        s.step()->Ok_0.a == x,
{
    assert(decode_spec(0x3E) == Instr::Mvi(Reg::A));
}

/// `ADD r` with `x` in the accumulator and `y` in `r` leaves `(x + y) mod 256`
/// in the accumulator, with carry set exactly when `x + y` exceeds 255.
pub proof fn lemma_add(s: CpuState, r: Reg, x: u8, y: u8)
    requires
        s.valid(),
        decode_spec(s.byte_at(s.pc as int)) == Instr::Alu(AluOp::Add, r),
        s.a == x,
        s.read(r) == y,
    ensures
        s.step() is Ok,
        s.step()->Ok_0.a == (x + y) % 256,
        s.step()->Ok_0.flags.carry == (x + y > 255),
{
}

/// Whether `u` holds the same value as `s` in stack operand `p`.
pub open spec fn same_stack_operand(p: StackPair, u: CpuState, s: CpuState) -> bool {
    match p {
        StackPair::BC => u.b == s.b && u.c == s.c,
        StackPair::DE => u.d == s.d && u.e == s.e,
        StackPair::HL => u.h == s.h && u.l == s.l,
        StackPair::Psw => u.a == s.a && u.flags == s.flags,
    }
}

/// `PUSH p` immediately followed by `POP p` leaves the operand and `SP` as
/// they were.
pub proof fn lemma_push_pop(s: CpuState, p: StackPair)
    requires
        s.valid(),
        decode_spec(s.byte_at(s.pc as int)) == Instr::Push(p),
        s.step() is Ok,
        decode_spec(s.step()->Ok_0.byte_at(s.step()->Ok_0.pc as int)) == Instr::Pop(p),
    ensures
        s.step()->Ok_0.step() is Ok,
        same_stack_operand(p, s.step()->Ok_0.step()->Ok_0, s),
        s.step()->Ok_0.step()->Ok_0.sp == s.sp,
{
    let v = s.stack_value(p);
    let t = s.push_word(v).advance(1);
    assert(s.step() == Ok::<CpuState, CpuError>(t));
    lemma_push_then_top(s, v);
    lemma_word_split(v);
    assert(t.top_word() == v);
    let u = CpuState { sp: wrap16(t.sp + 2), ..t.with_stack_value(p, v) }.advance(1);
    assert(t.step() == Ok::<CpuState, CpuError>(u));
    crate::flags::lemma_psw_round_trip(s.flags);
}

/// What a push stores is on top of the stack, and popping it restores `SP`.
proof fn lemma_push_then_top(s: CpuState, v: u16)
    requires
        s.valid(),
    ensures
        s.push_word(v).top_word() == v,
        wrap16(s.push_word(v).sp + 2) == s.sp,
{
    let t = s.push_word(v);
    let hi_at = (s.sp - 1) % 0x10000;
    let lo_at = (s.sp - 2) % 0x10000;
    if s.sp >= 2 {
        assert(hi_at == s.sp - 1 && lo_at == s.sp - 2);
    } else if s.sp == 1 {
        assert(hi_at == 0 && lo_at == 0xFFFF);
    } else {
        assert(hi_at == 0xFFFF && lo_at == 0xFFFE);
    }
    assert(t.sp == lo_at);
    assert((t.sp + 1) % 0x10000 == hi_at);
    assert(t.byte_at(t.sp as int) == (v % 256) as u8);
    assert(t.byte_at(t.sp + 1) == (v / 256) as u8);
    lemma_word_split(v);
}

/// A 16-bit value is the word of its high and low bytes, and a word splits
/// back into them.
proof fn lemma_word_split(v: u16)
    ensures
        word((v / 256) as u8, (v % 256) as u8) == v,
        forall|hi: u8, lo: u8| #[trigger] word(hi, lo) / 256 == hi && word(hi, lo) % 256 == lo,
{
    assert forall|hi: u8, lo: u8| #[trigger] word(hi, lo) / 256 == hi && word(hi, lo) % 256 == lo by {
        assert((hi * 256 + lo) / 256 == hi && (hi * 256 + lo) % 256 == lo) by (nonlinear_arith)
            requires
                0 <= lo < 256,
        ;
    }
}

/// `CALL adr` immediately followed by `RET` leaves `PC` at the instruction
/// after the call and `SP` as it was.
pub proof fn lemma_call_ret(s: CpuState)
    requires
        s.valid(),
        s.byte_at(s.pc as int) == 0xCD,
        s.step() is Ok,
        s.step()->Ok_0.byte_at(s.step()->Ok_0.pc as int) == 0xC9,
    ensures
        s.step()->Ok_0.step() is Ok,
        s.step()->Ok_0.step()->Ok_0.pc == wrap16(s.pc + 3),
        s.step()->Ok_0.step()->Ok_0.sp == s.sp,
{
    assert(decode_spec(0xCD) == Instr::Call);
    assert(decode_spec(0xC9) == Instr::Ret);
    let ret = wrap16(s.pc + 3);
    let t = CpuState { pc: s.imm16(), ..s.push_word(ret) };
    assert(s.step() == Ok::<CpuState, CpuError>(t));
    lemma_push_then_top(s, ret);
    assert(t.top_word() == ret);
    assert(t.step() == Ok::<CpuState, CpuError>(t.return_from()));
}

/// Every operation that stores its result sets parity exactly when the
/// stored byte has an even number of set bits.
pub proof fn lemma_parity_of_result(op: AluOp, a: u8, v: u8, f: crate::flags::Flags)
    requires
        op != AluOp::Cmp,
    ensures
        alu_spec(op, a, v, f).1.parity == even_parity(alu_spec(op, a, v, f).0),
{
}

/// `ANA A` keeps the accumulator and sets parity exactly when it has an even
/// number of set bits.
pub proof fn lemma_ana_a_parity(s: CpuState)
    requires
        s.valid(),
        s.byte_at(s.pc as int) == 0xA7,
    ensures
        s.step() is Ok,
        s.step()->Ok_0.a == s.a,
        s.step()->Ok_0.flags.parity == even_parity(s.a),
{
    assert(decode_spec(0xA7) == Instr::Alu(AluOp::Ana, Reg::A));
    lemma_ana_self(s.a, s.flags);
    let t = s.execute(Instr::Alu(AluOp::Ana, Reg::A));
    assert(s.step() == Ok::<CpuState, CpuError>(t));
}

proof fn lemma_ana_self(a: u8, f: crate::flags::Flags)
    ensures
        alu_spec(AluOp::Ana, a, a, f).0 == a,
        alu_spec(AluOp::Ana, a, a, f).1.parity == even_parity(a),
{
    assert(a & a == a) by (bit_vector);
}

/// An unassigned opcode is a one-byte no-op: the step succeeds and only `PC`
/// moves, by one.
pub proof fn lemma_unassigned_nop(s: CpuState)
    requires
        s.valid(),
        is_unassigned(s.byte_at(s.pc as int)),
    ensures
        s.step() == Ok::<CpuState, CpuError>(CpuState { pc: wrap16(s.pc + 1), ..s }),
{
}

/// Whether an instruction leaves the flags as they were: all but the
/// arithmetic, logic, rotation and carry instructions and `POP PSW`.
pub open spec fn keeps_flags(ins: Instr) -> bool {
    match ins {
        Instr::Inr(_) | Instr::Dcr(_) | Instr::Dad(_) | Instr::Rotate(_) | Instr::Stc
        | Instr::Cmc | Instr::Alu(_, _) | Instr::AluImm(_) | Instr::Pop(StackPair::Psw) => false,
        _ => true,
    }
}

/// The flags stay as they were across an instruction that does not affect them.
pub proof fn lemma_flags_stable(s: CpuState)
    requires
        s.valid(),
        keeps_flags(decode_spec(s.byte_at(s.pc as int))),
    ensures
        s.step() is Ok ==> s.step()->Ok_0.flags == s.flags,
{
    let ins = decode_spec(s.byte_at(s.pc as int));
    if ins != Instr::Unimplemented {
        assert(s.step() == Ok::<CpuState, CpuError>(s.execute(ins)));
        match ins {
            Instr::Pop(p) => {
                assert(p != StackPair::Psw);
            },
            Instr::Mov(dst, src) => {
                assert(s.write(dst, s.read(src)).flags == s.flags);
            },
            Instr::Mvi(r) => {
                assert(s.write(r, s.imm8()).flags == s.flags);
            },
            _ => {},
        }
    }
}

} // verus!
