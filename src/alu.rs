//! Eight-bit arithmetic, logic and rotation, with the flags each one sets.
use vstd::prelude::*;
use crate::flags::{Flags, result_flags, value_flags, flags_of_result, flags_of_value};

verus! {

/// The accumulator operations of the register and immediate forms.
#[derive(Clone, Copy, Debug, PartialEq, Eq, Structural)]
pub enum AluOp {
    Add,
    Adc,
    Sub,
    Sbb,
    Ana,
    Xra,
    Ora,
    Cmp,
}

/// Carry in as 0 or 1.
pub open spec fn bit(b: bool) -> int {
    if b { 1 } else { 0 }
}

/// Result of the addition `a + v + cin`, before truncation.
pub open spec fn add_result(a: u8, v: u8, cin: int) -> int {
    a + v + cin
}

/// Carry out of bit 3 of the addition `a + v + cin`.
pub open spec fn add_aux(a: u8, v: u8, cin: int) -> bool {
    a % 16 + v % 16 + cin > 15
}

/// Result of the subtraction `a - v - bin` as a 9-bit value: above 0xFF
/// exactly when a borrow occurs.
pub open spec fn sub_result(a: u8, v: u8, bin: int) -> int {
    if a - v - bin >= 0 { a - v - bin } else { a - v - bin + 512 }
}

/// Carry out of bit 3 when `a - v - bin` is computed as the addition of the
/// two's complement, `a + !v + (1 - bin)`.
pub open spec fn sub_aux(a: u8, v: u8, bin: int) -> bool {
    a % 16 + (15 - v % 16) + (1 - bin) > 15
}

/// What an accumulator operation of `a` with operand `v` leaves: the new
/// accumulator and the new flags. `Cmp` leaves the accumulator as it was.
pub open spec fn alu_spec(op: AluOp, a: u8, v: u8, f: Flags) -> (u8, Flags) {
    match op {
        AluOp::Add => ((add_result(a, v, 0) % 256) as u8, result_flags(add_result(a, v, 0), add_aux(a, v, 0))),
        AluOp::Adc => (
            (add_result(a, v, bit(f.carry)) % 256) as u8,
            result_flags(add_result(a, v, bit(f.carry)), add_aux(a, v, bit(f.carry))),
        ),
        AluOp::Sub => ((sub_result(a, v, 0) % 256) as u8, result_flags(sub_result(a, v, 0), sub_aux(a, v, 0))),
        AluOp::Sbb => (
            (sub_result(a, v, bit(f.carry)) % 256) as u8,
            result_flags(sub_result(a, v, bit(f.carry)), sub_aux(a, v, bit(f.carry))),
        ),
        AluOp::Ana => (a & v, result_flags((a & v) as int, false)),
        AluOp::Xra => (a ^ v, result_flags((a ^ v) as int, false)),
        AluOp::Ora => (a | v, result_flags((a | v) as int, false)),
        AluOp::Cmp => (a, result_flags(sub_result(a, v, 0), sub_aux(a, v, 0))),
    }
}

/// Performs an accumulator operation.
pub fn alu(op: AluOp, a: u8, v: u8, f: Flags) -> (r: (u8, Flags))
    ensures
        r == alu_spec(op, a, v, f),
{
    match op {
        AluOp::Add => add_with_carry(a, v, false, f),
        AluOp::Adc => add_with_carry(a, v, f.carry, f),
        AluOp::Sub => sub_with_borrow(a, v, false, f),
        AluOp::Sbb => sub_with_borrow(a, v, f.carry, f),
        AluOp::Ana => {
            let r = a & v;
            (r, flags_of_result(r as u16, false))
        },
        AluOp::Xra => {
            let r = a ^ v;
            (r, flags_of_result(r as u16, false))
        },
        AluOp::Ora => {
            let r = a | v;
            (r, flags_of_result(r as u16, false))
        },
        AluOp::Cmp => {
            let (_, nf) = sub_with_borrow(a, v, false, f);
            (a, nf)
        },
    }
}

fn add_with_carry(a: u8, v: u8, cin: bool, f: Flags) -> (r: (u8, Flags))
    ensures
        r == ((add_result(a, v, bit(cin)) % 256) as u8, result_flags(
            add_result(a, v, bit(cin)),
            add_aux(a, v, bit(cin)),
        )),
{
    let c: u16 = if cin { 1 } else { 0 };
    let res: u16 = a as u16 + v as u16 + c;
    let aux = (a % 16) as u16 + (v % 16) as u16 + c > 15;
    ((res % 256) as u8, flags_of_result(res, aux))
}

fn sub_with_borrow(a: u8, v: u8, bin: bool, f: Flags) -> (r: (u8, Flags))
    ensures
        r == ((sub_result(a, v, bit(bin)) % 256) as u8, result_flags(
            sub_result(a, v, bit(bin)),
            sub_aux(a, v, bit(bin)),
        )),
{
    let b: u16 = if bin { 1 } else { 0 };
    let res: u16 = if a as u16 >= v as u16 + b {
        a as u16 - v as u16 - b
    } else {
        a as u16 + 512 - v as u16 - b
    };
    let aux = (a % 16) as u16 + (15 - v % 16) as u16 + (1 - b) > 15;
    ((res % 256) as u8, flags_of_result(res, aux))
}

/// Increment of a register or memory byte: the byte and the flags after it.
/// Carry is not affected.
pub open spec fn inr_spec(v: u8, f: Flags) -> (u8, Flags) {
    (((v + 1) % 256) as u8, value_flags(f, ((v + 1) % 256) as u8, v % 16 == 15))
}

/// Decrement of a register or memory byte: the byte and the flags after it.
/// Carry is not affected; the auxiliary carry is that of `v + 0xFF`.
pub open spec fn dcr_spec(v: u8, f: Flags) -> (u8, Flags) {
    (((v + 255) % 256) as u8, value_flags(f, ((v + 255) % 256) as u8, v % 16 != 0))
}

/// Performs an increment.
pub fn inr(v: u8, f: Flags) -> (r: (u8, Flags))
    ensures
        r == inr_spec(v, f),
{
    let n: u8 = if v == 255 { 0 } else { v + 1 };
    (n, flags_of_value(f, n, v % 16 == 15))
}

/// Performs a decrement.
pub fn dcr(v: u8, f: Flags) -> (r: (u8, Flags))
    ensures
        r == dcr_spec(v, f),
{
    let n: u8 = if v == 0 { 255 } else { v - 1 };
    (n, flags_of_value(f, n, v % 16 != 0))
}

/// The rotations of the accumulator.
#[derive(Clone, Copy, Debug, PartialEq, Eq, Structural)]
pub enum Rotation {
    /// Left, bit 7 into bit 0 and into carry.
    Rlc,
    /// Right, bit 0 into bit 7 and into carry.
    Rrc,
    /// Left through carry.
    Ral,
    /// Right through carry.
    Rar,
}

/// The accumulator and carry after a rotation; other flags are kept.
pub open spec fn rotate_spec(rot: Rotation, a: u8, cy: bool) -> (u8, bool) {
    match rot {
        Rotation::Rlc => (((a * 2) % 256 + a / 128) as u8, a >= 128),
        Rotation::Rrc => ((a / 2 + (a % 2) * 128) as u8, a % 2 == 1),
        Rotation::Ral => (((a * 2) % 256 + bit(cy)) as u8, a >= 128),
        Rotation::Rar => ((a / 2 + bit(cy) * 128) as u8, a % 2 == 1),
    }
}

/// Performs a rotation.
pub fn rotate(rot: Rotation, a: u8, cy: bool) -> (r: (u8, bool))
    ensures
        r == rotate_spec(rot, a, cy),
{
    let c: u8 = if cy { 1 } else { 0 };
    match rot {
        Rotation::Rlc => ((a % 128) * 2 + a / 128, a >= 128),
        Rotation::Rrc => (a / 2 + (a % 2) * 128, a % 2 == 1),
        Rotation::Ral => ((a % 128) * 2 + c, a >= 128),
        Rotation::Rar => (a / 2 + c * 128, a % 2 == 1),
    }
}

} // verus!
