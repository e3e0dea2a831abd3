//! The framebuffer: memory from 0x2400 to 0x3FFF read as a 1-bit bitmap,
//! most significant bit first, on a 224 by 256 display turned by 90 degrees.
use vstd::prelude::*;
use crate::cpu::{Cpu, CpuState};
use crate::flags::pop_count;

verus! {

/// First address of the framebuffer.
pub const FRAME_START: usize = 0x2400;

/// One past the last address of the framebuffer.
pub const FRAME_END: usize = 0x4000;

/// Height of the logical display.
pub const SCREEN_HEIGHT: usize = 256;

/// Whether pixel `i` (0 to 7, most significant bit first) of `byte` is lit.
pub open spec fn lit(byte: u8, i: u8) -> bool {
    byte & (0x80u8 >> i) != 0
}

/// Display coordinates of pixel `i` of the framebuffer byte at `byte_index`.
pub open spec fn pixel(byte_index: int, i: int) -> (i32, i32) {
    let index = (byte_index - FRAME_START) * 8;
    ((index / 256) as i32, (256 - (index % 256 + i)) as i32)
}

/// The lit pixels among the first `n` of `byte`, in order.
pub open spec fn lit_points(byte: u8, byte_index: int, n: int) -> Seq<(i32, i32)>
    decreases n,
{
    if n <= 0 {
        seq![]
    } else if lit(byte, (n - 1) as u8) {
        lit_points(byte, byte_index, n - 1).push(pixel(byte_index, n - 1))
    } else {
        lit_points(byte, byte_index, n - 1)
    }
}

/// The lit pixels of the framebuffer bytes below `end`, in address order.
pub open spec fn frame_points(s: CpuState, end: int) -> Seq<(i32, i32)>
    decreases end,
{
    if end <= FRAME_START {
        seq![]
    } else {
        frame_points(s, end - 1) + lit_points(s.byte_at(end - 1), end - 1, 8)
    }
}

/// A byte has as many lit pixels as set bits.
proof fn lemma_lit_count(byte: u8, byte_index: int)
    ensures
        lit_points(byte, byte_index, 8).len() == pop_count(byte as nat),
{
    assert(lit(byte, 0) == ((byte / 128) % 2 == 1)) by (bit_vector);
    assert(lit(byte, 1) == ((byte / 64) % 2 == 1)) by (bit_vector);
    assert(lit(byte, 2) == ((byte / 32) % 2 == 1)) by (bit_vector);
    assert(lit(byte, 3) == ((byte / 16) % 2 == 1)) by (bit_vector);
    assert(lit(byte, 4) == ((byte / 8) % 2 == 1)) by (bit_vector);
    assert(lit(byte, 5) == ((byte / 4) % 2 == 1)) by (bit_vector);
    assert(lit(byte, 6) == ((byte / 2) % 2 == 1)) by (bit_vector);
    assert(lit(byte, 7) == (byte % 2 == 1)) by (bit_vector);
    let b = byte as nat;
    assert(b / 2 / 2 == b / 4 && b / 4 / 2 == b / 8 && b / 8 / 2 == b / 16 && b / 16 / 2 == b / 32
        && b / 32 / 2 == b / 64 && b / 64 / 2 == b / 128 && b / 128 / 2 == 0);
    reveal_with_fuel(pop_count, 9);
    reveal_with_fuel(lit_points, 9);
}

/// The display coordinates of the lit pixels of one framebuffer byte.
pub fn byte_to_points(byte: u8, byte_index: usize) -> (r: Vec<(i32, i32)>)
    requires
        FRAME_START <= byte_index < FRAME_END,
    ensures
        r@ == lit_points(byte, byte_index as int, 8),
        r@.len() == pop_count(byte as nat),
{
    proof {
        lemma_lit_count(byte, byte_index as int);
    }
    let mut points: Vec<(i32, i32)> = Vec::new();
    let index: usize = (byte_index - FRAME_START) * 8;
    let mut i: u8 = 0;
    while i < 8
        invariant
            FRAME_START <= byte_index < FRAME_END,
            index == (byte_index - FRAME_START) * 8,
            i <= 8,
            points@ == lit_points(byte, byte_index as int, i as int),
        decreases 8 - i,
    {
        if byte & (0x80u8 >> i) != 0 {
            let x = (index / SCREEN_HEIGHT) as i32;
            let y = (SCREEN_HEIGHT - (index % SCREEN_HEIGHT + i as usize)) as i32;
            points.push((x, y));
        }
        i = i + 1;
    }
    points
}

impl Cpu {
    /// The display coordinates of every lit pixel of the framebuffer.
    pub fn screen_points(&self) -> (r: Vec<(i32, i32)>)
        requires
            self.wf(),
        ensures
            r@ == frame_points(self@, FRAME_END as int),
    {
        let mut points: Vec<(i32, i32)> = Vec::new();
        let mut addr: usize = FRAME_START;
        while addr < FRAME_END
            invariant
                self.wf(),
                FRAME_START <= addr <= FRAME_END,
                points@ == frame_points(self@, addr as int),
            decreases FRAME_END - addr,
        {
            let byte = self.memory_at(addr as u16);
            let mut more = byte_to_points(byte, addr);
            points.append(&mut more);
            addr = addr + 1;
        }
        points
    }
}

} // verus!
