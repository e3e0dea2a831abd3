//! Condition codes and the rules that derive them from a result.
use vstd::prelude::*;

verus! {

/// The five condition flags of the processor.
#[derive(Clone, Copy, Debug, PartialEq, Eq, Structural)]
pub struct Flags {
    pub zero: bool,
    pub sign: bool,
    pub parity: bool,
    pub carry: bool,
    pub aux_carry: bool,
}

/// Number of set bits of `n`.
pub open spec fn pop_count(n: nat) -> nat
    decreases n,
{
    if n == 0 {
        0
    } else {
        n % 2 + pop_count(n / 2)
    }
}

/// True when `v` has an even number of set bits.
pub open spec fn even_parity(v: u8) -> bool {
    pop_count(v as nat) % 2 == 0
}

/// Computes `even_parity(v)` by counting bits.
pub fn parity_of(v: u8) -> (r: bool)
    ensures
        r == even_parity(v),
{
    let mut x: u8 = v;
    let mut count: u8 = 0;
    while x > 0
        invariant
            count <= 8 - pop_bound(x as nat),
            count + pop_count(x as nat) == pop_count(v as nat),
        decreases x,
    {
        proof {
            lemma_pop_count_bound(x as nat);
        }
        count = count + x % 2;
        x = x / 2;
    }
    count % 2 == 0
}

/// An upper bound on the number of bits that `n` (below 256) may still hold.
pub open spec fn pop_bound(n: nat) -> nat {
    if n == 0 { 0 }
    else if n < 2 { 1 }
    else if n < 4 { 2 }
    else if n < 8 { 3 }
    else if n < 16 { 4 }
    else if n < 32 { 5 }
    else if n < 64 { 6 }
    else if n < 128 { 7 }
    else { 8 }
}

proof fn lemma_pop_count_bound(n: nat)
    requires
        n < 256,
    ensures
        pop_count(n) <= pop_bound(n),
        n > 0 ==> pop_bound(n / 2) + 1 == pop_bound(n),
    decreases n,
{
    if n > 0 {
        lemma_pop_count_bound(n / 2);
    }
}

/// Flags after an 8-bit operation whose result before truncation is `res`
/// (at most 9 bits wide): carry is a result above 0xFF.
pub open spec fn result_flags(res: int, aux_carry: bool) -> Flags {
    Flags {
        zero: res % 256 == 0,
        sign: res % 256 >= 128,
        parity: even_parity((res % 256) as u8),
        carry: res > 255,
        aux_carry,
    }
}

/// The flags that depend on the stored byte alone; carry is kept from `f`.
pub open spec fn value_flags(f: Flags, v: u8, aux_carry: bool) -> Flags {
    Flags { zero: v == 0, sign: v >= 128, parity: even_parity(v), carry: f.carry, aux_carry }
}

/// Computes `result_flags(res, aux_carry)`.
pub fn flags_of_result(res: u16, aux_carry: bool) -> (r: Flags)
    requires
        res < 512,
    ensures
        r == result_flags(res as int, aux_carry),
{
    let v: u8 = (res % 256) as u8;
    Flags { zero: v == 0, sign: v >= 128, parity: parity_of(v), carry: res > 255, aux_carry }
}

/// Computes `value_flags(f, v, aux_carry)`.
pub fn flags_of_value(f: Flags, v: u8, aux_carry: bool) -> (r: Flags)
    ensures
        r == value_flags(f, v, aux_carry),
{
    Flags { zero: v == 0, sign: v >= 128, parity: parity_of(v), carry: f.carry, aux_carry }
}

/// The status byte that `PUSH PSW` stores: zero in bit 0, sign in bit 1,
/// parity in bit 2, carry in bit 3, auxiliary carry in bit 4, other bits clear.
pub open spec fn psw_byte(f: Flags) -> u8 {
    ((if f.zero { 1int } else { 0 }) + (if f.sign { 2int } else { 0 }) + (if f.parity {
        4int
    } else {
        0
    }) + (if f.carry { 8int } else { 0 }) + (if f.aux_carry { 16int } else { 0 })) as u8
}

/// The flags that `POP PSW` restores from a status byte.
pub open spec fn flags_of_psw(b: u8) -> Flags {
    Flags {
        zero: b % 2 == 1,
        sign: (b / 2) % 2 == 1,
        parity: (b / 4) % 2 == 1,
        carry: (b / 8) % 2 == 1,
        aux_carry: (b / 16) % 2 == 1,
    }
}

/// Packs the flags into a status byte.
pub fn pack_psw(f: Flags) -> (r: u8)
    ensures
        r == psw_byte(f),
{
    let mut r: u8 = 0;
    if f.zero {
        r = r + 1;
    }
    if f.sign {
        r = r + 2;
    }
    if f.parity {
        r = r + 4;
    }
    if f.carry {
        r = r + 8;
    }
    if f.aux_carry {
        r = r + 16;
    }
    r
}

/// Unpacks a status byte into flags.
pub fn unpack_psw(b: u8) -> (r: Flags)
    ensures
        r == flags_of_psw(b),
{
    Flags {
        zero: b % 2 == 1,
        sign: (b / 2) % 2 == 1,
        parity: (b / 4) % 2 == 1,
        carry: (b / 8) % 2 == 1,
        aux_carry: (b / 16) % 2 == 1,
    }
}

/// Packing the flags into a status byte and unpacking it gives them back.
pub proof fn lemma_psw_round_trip(f: Flags)
    ensures
        flags_of_psw(psw_byte(f)) == f,
{
}

} // verus!
