//! The instruction set: operands, instructions, and the decoding of an opcode.
use vstd::prelude::*;
use crate::alu::{AluOp, Rotation};

verus! {

/// An 8-bit operand; `M` is the memory byte addressed by `H:L`.
#[derive(Clone, Copy, Debug, PartialEq, Eq, Structural)]
pub enum Reg {
    B,
    C,
    D,
    E,
    H,
    L,
    M,
    A,
}

/// A 16-bit operand of `LXI`, `INX`, `DCX`, `DAD`, `LDAX` and `STAX`.
#[derive(Clone, Copy, Debug, PartialEq, Eq, Structural)]
pub enum Pair {
    BC,
    DE,
    HL,
    SP,
}

/// An operand of `PUSH` and `POP`; `Psw` is the accumulator with the status byte.
#[derive(Clone, Copy, Debug, PartialEq, Eq, Structural)]
pub enum StackPair {
    BC,
    DE,
    HL,
    Psw,
}

/// The conditions of conditional jumps, calls and returns.
#[derive(Clone, Copy, Debug, PartialEq, Eq, Structural)]
pub enum Cond {
    NotZero,
    Zero,
    NoCarry,
    Carry,
    ParityOdd,
    ParityEven,
}

/// A decoded instruction.
#[derive(Clone, Copy, Debug, PartialEq, Eq, Structural)]
pub enum Instr {
    /// One byte with no effect: `NOP`, `DAA`, `EI`, `DI`, the restarts that are
    /// accepted, and the unassigned slots.
    Nop,
    /// `IN` and `OUT`: two bytes with no effect, as no port device exists.
    PortIo,
    Lxi(Pair),
    Stax(Pair),
    Ldax(Pair),
    Inx(Pair),
    Dcx(Pair),
    Dad(Pair),
    Inr(Reg),
    Dcr(Reg),
    Mvi(Reg),
    /// `MOV dst,src`.
    Mov(Reg, Reg),
    Rotate(Rotation),
    Shld,
    Lhld,
    Sta,
    Lda,
    Cma,
    Stc,
    Cmc,
    Hlt,
    /// An accumulator operation on a register or memory operand.
    Alu(AluOp, Reg),
    /// An accumulator operation on an immediate byte.
    AluImm(AluOp),
    Jmp,
    Jcc(Cond),
    Call,
    Ccc(Cond),
    Ret,
    Rcc(Cond),
    Push(StackPair),
    Pop(StackPair),
    Xthl,
    Pchl,
    Xchg,
    Sphl,
    /// An opcode the engine does not implement: the conditional forms on the
    /// sign flag and the restart to vector 5.
    Unimplemented,
}

/// The operand named by a 3-bit field.
pub open spec fn reg_of(n: u8) -> Reg {
    if n == 0 { Reg::B }
    else if n == 1 { Reg::C }
    else if n == 2 { Reg::D }
    else if n == 3 { Reg::E }
    else if n == 4 { Reg::H }
    else if n == 5 { Reg::L }
    else if n == 6 { Reg::M }
    else { Reg::A }
}

/// The register pair named by a 2-bit field.
pub open spec fn pair_of(n: u8) -> Pair {
    if n == 0 { Pair::BC } else if n == 1 { Pair::DE } else if n == 2 { Pair::HL } else { Pair::SP }
}

/// The stack operand named by a 2-bit field.
pub open spec fn stack_pair_of(n: u8) -> StackPair {
    if n == 0 { StackPair::BC }
    else if n == 1 { StackPair::DE }
    else if n == 2 { StackPair::HL }
    else { StackPair::Psw }
}

/// The accumulator operation named by a 3-bit field.
pub open spec fn alu_op_of(n: u8) -> AluOp {
    if n == 0 { AluOp::Add }
    else if n == 1 { AluOp::Adc }
    else if n == 2 { AluOp::Sub }
    else if n == 3 { AluOp::Sbb }
    else if n == 4 { AluOp::Ana }
    else if n == 5 { AluOp::Xra }
    else if n == 6 { AluOp::Ora }
    else { AluOp::Cmp }
}

/// The condition named by a 3-bit field; the sign conditions 6 and 7 have none.
pub open spec fn cond_of(n: u8) -> Cond {
    if n == 0 { Cond::NotZero }
    else if n == 1 { Cond::Zero }
    else if n == 2 { Cond::NoCarry }
    else if n == 3 { Cond::Carry }
    else if n == 4 { Cond::ParityOdd }
    else { Cond::ParityEven }
}

/// The instruction of opcode `op`, read from its fields `xx yyy zzz`.
pub open spec fn decode_spec(op: u8) -> Instr {
    let x = op / 64;
    let y = (op / 8) % 8;
    let z = op % 8;
    if x == 0 {
        if z == 0 {
            Instr::Nop
        } else if z == 1 {
            if y % 2 == 0 { Instr::Lxi(pair_of(y / 2)) } else { Instr::Dad(pair_of(y / 2)) }
        } else if z == 2 {
            if y == 0 { Instr::Stax(Pair::BC) }
            else if y == 1 { Instr::Ldax(Pair::BC) }
            else if y == 2 { Instr::Stax(Pair::DE) }
            else if y == 3 { Instr::Ldax(Pair::DE) }
            else if y == 4 { Instr::Shld }
            else if y == 5 { Instr::Lhld }
            else if y == 6 { Instr::Sta }
            else { Instr::Lda }
        } else if z == 3 {
            if y % 2 == 0 { Instr::Inx(pair_of(y / 2)) } else { Instr::Dcx(pair_of(y / 2)) }
        } else if z == 4 {
            Instr::Inr(reg_of(y))
        } else if z == 5 {
            Instr::Dcr(reg_of(y))
        } else if z == 6 {
            Instr::Mvi(reg_of(y))
        } else {
            if y == 0 { Instr::Rotate(Rotation::Rlc) }
            else if y == 1 { Instr::Rotate(Rotation::Rrc) }
            else if y == 2 { Instr::Rotate(Rotation::Ral) }
            else if y == 3 { Instr::Rotate(Rotation::Rar) }
            else if y == 4 { Instr::Nop }
            else if y == 5 { Instr::Cma }
            else if y == 6 { Instr::Stc }
            else { Instr::Cmc }
        }
    } else if x == 1 {
        if op == 0x76 { Instr::Hlt } else { Instr::Mov(reg_of(y), reg_of(z)) }
    } else if x == 2 {
        Instr::Alu(alu_op_of(y), reg_of(z))
    } else {
        if z == 0 {
            if y >= 6 { Instr::Unimplemented } else { Instr::Rcc(cond_of(y)) }
        } else if z == 1 {
            if y % 2 == 0 { Instr::Pop(stack_pair_of(y / 2)) }
            else if y == 1 { Instr::Ret }
            else if y == 5 { Instr::Pchl }
            else if y == 7 { Instr::Sphl }
            else { Instr::Nop }
        } else if z == 2 {
            if y >= 6 { Instr::Unimplemented } else { Instr::Jcc(cond_of(y)) }
        } else if z == 3 {
            if y == 0 { Instr::Jmp }
            else if y == 2 || y == 3 { Instr::PortIo }
            else if y == 4 { Instr::Xthl }
            else if y == 5 { Instr::Xchg }
            else { Instr::Nop }
        } else if z == 4 {
            if y >= 6 { Instr::Unimplemented } else { Instr::Ccc(cond_of(y)) }
        } else if z == 5 {
            if y % 2 == 0 { Instr::Push(stack_pair_of(y / 2)) }
            else if y == 1 { Instr::Call }
            else { Instr::Nop }
        } else if z == 6 {
            Instr::AluImm(alu_op_of(y))
        } else {
            if y == 5 { Instr::Unimplemented } else { Instr::Nop }
        }
    }
}

fn reg_field(n: u8) -> (r: Reg)
    requires
        n < 8,
    ensures
        r == reg_of(n),
{
    match n {
        0 => Reg::B,
        1 => Reg::C,
        2 => Reg::D,
        3 => Reg::E,
        4 => Reg::H,
        5 => Reg::L,
        6 => Reg::M,
        _ => Reg::A,
    }
}

fn pair_field(n: u8) -> (r: Pair)
    ensures
        r == pair_of(n),
{
    match n {
        0 => Pair::BC,
        1 => Pair::DE,
        2 => Pair::HL,
        _ => Pair::SP,
    }
}

fn stack_pair_field(n: u8) -> (r: StackPair)
    ensures
        r == stack_pair_of(n),
{
    match n {
        0 => StackPair::BC,
        1 => StackPair::DE,
        2 => StackPair::HL,
        _ => StackPair::Psw,
    }
}

fn alu_op_field(n: u8) -> (r: AluOp)
    ensures
        r == alu_op_of(n),
{
    match n {
        0 => AluOp::Add,
        1 => AluOp::Adc,
        2 => AluOp::Sub,
        3 => AluOp::Sbb,
        4 => AluOp::Ana,
        5 => AluOp::Xra,
        6 => AluOp::Ora,
        _ => AluOp::Cmp,
    }
}

fn cond_field(n: u8) -> (r: Cond)
    ensures
        r == cond_of(n),
{
    match n {
        0 => Cond::NotZero,
        1 => Cond::Zero,
        2 => Cond::NoCarry,
        3 => Cond::Carry,
        4 => Cond::ParityOdd,
        _ => Cond::ParityEven,
    }
}

/// Decodes an opcode.
pub fn decode(op: u8) -> (r: Instr)
    ensures
        r == decode_spec(op),
{
    let x = op / 64;
    let y = (op / 8) % 8;
    let z = op % 8;
    if x == 0 {
        match z {
            0 => Instr::Nop,
            1 => if y % 2 == 0 { Instr::Lxi(pair_field(y / 2)) } else { Instr::Dad(pair_field(y / 2)) },
            2 => match y {
                0 => Instr::Stax(Pair::BC),
                1 => Instr::Ldax(Pair::BC),
                2 => Instr::Stax(Pair::DE),
                3 => Instr::Ldax(Pair::DE),
                4 => Instr::Shld,
                5 => Instr::Lhld,
                6 => Instr::Sta,
                _ => Instr::Lda,
            },
            3 => if y % 2 == 0 { Instr::Inx(pair_field(y / 2)) } else { Instr::Dcx(pair_field(y / 2)) },
            4 => Instr::Inr(reg_field(y)),
            5 => Instr::Dcr(reg_field(y)),
            6 => Instr::Mvi(reg_field(y)),
            _ => match y {
                0 => Instr::Rotate(Rotation::Rlc),
                1 => Instr::Rotate(Rotation::Rrc),
                2 => Instr::Rotate(Rotation::Ral),
                3 => Instr::Rotate(Rotation::Rar),
                4 => Instr::Nop,
                5 => Instr::Cma,
                6 => Instr::Stc,
                _ => Instr::Cmc,
            },
        }
    } else if x == 1 {
        if op == 0x76 { Instr::Hlt } else { Instr::Mov(reg_field(y), reg_field(z)) }
    } else if x == 2 {
        Instr::Alu(alu_op_field(y), reg_field(z))
    } else {
        match z {
            0 => if y >= 6 { Instr::Unimplemented } else { Instr::Rcc(cond_field(y)) },
            1 => if y % 2 == 0 {
                Instr::Pop(stack_pair_field(y / 2))
            } else if y == 1 {
                Instr::Ret
            } else if y == 5 {
                Instr::Pchl
            } else if y == 7 {
                Instr::Sphl
            } else {
                Instr::Nop
            },
            2 => if y >= 6 { Instr::Unimplemented } else { Instr::Jcc(cond_field(y)) },
            3 => match y {
                0 => Instr::Jmp,
                2 | 3 => Instr::PortIo,
                4 => Instr::Xthl,
                5 => Instr::Xchg,
                _ => Instr::Nop,
            },
            4 => if y >= 6 { Instr::Unimplemented } else { Instr::Ccc(cond_field(y)) },
            5 => if y % 2 == 0 {
                Instr::Push(stack_pair_field(y / 2))
            } else if y == 1 {
                Instr::Call
            } else {
                Instr::Nop
            },
            6 => Instr::AluImm(alu_op_field(y)),
            _ => if y == 5 { Instr::Unimplemented } else { Instr::Nop },
        }
    }
}

} // verus!
