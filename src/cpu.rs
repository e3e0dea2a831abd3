//! Processor state and the fetch-decode-execute engine.
use vstd::prelude::*;
use crate::alu::{AluOp, alu, alu_spec, dcr, dcr_spec, inr, inr_spec, rotate, rotate_spec};
use crate::flags::{Flags, flags_of_psw, pack_psw, psw_byte, unpack_psw};
use crate::isa::{decode, decode_spec, Cond, Instr, Pair, Reg, StackPair};

verus! {

/// Number of addressable bytes.
pub const MEMORY_SIZE: usize = 0x10000;

/// Stack pointer after reset.
pub const RESET_SP: u16 = 0xFFFE;

/// The fatal condition of a step.
#[derive(Clone, Copy, Debug, PartialEq, Eq, Structural)]
pub enum CpuError {
    /// The byte at `address` is an opcode that the engine does not implement.
    UnimplementedOpcode { opcode: u8, address: u16 },
}

/// The abstract processor state: registers, flags, memory and run flag.
pub struct CpuState {
    pub a: u8,
    pub b: u8,
    pub c: u8,
    pub d: u8,
    pub e: u8,
    pub h: u8,
    pub l: u8,
    pub sp: u16,
    pub pc: u16,
    pub flags: Flags,
    pub mem: Seq<u8>,
    pub running: bool,
}

/// `v` reduced to a 16-bit address.
pub open spec fn wrap16(v: int) -> u16 {
    (v % 0x10000) as u16
}

/// The 16-bit value of the pair `hi:lo`.
pub open spec fn word(hi: u8, lo: u8) -> u16 {
    (hi * 256 + lo) as u16
}

impl CpuState {
    /// Memory holds exactly the 64 KiB address space.
    pub open spec fn valid(self) -> bool {
        self.mem.len() == MEMORY_SIZE
    }

    /// The byte at `addr`, wrapping modulo 64 KiB.
    pub open spec fn byte_at(self, addr: int) -> u8 {
        self.mem[addr % 0x10000]
    }

    /// The byte that follows the opcode.
    pub open spec fn imm8(self) -> u8 {
        self.byte_at(self.pc + 1)
    }

    /// The two bytes that follow the opcode, low byte first.
    pub open spec fn imm16(self) -> u16 {
        word(self.byte_at(self.pc + 2), self.byte_at(self.pc + 1))
    }

    pub open spec fn hl(self) -> u16 {
        word(self.h, self.l)
    }

    /// The value of a register pair, or of `SP`.
    pub open spec fn pair(self, p: Pair) -> u16 {
        match p {
            Pair::BC => word(self.b, self.c),
            Pair::DE => word(self.d, self.e),
            Pair::HL => word(self.h, self.l),
            Pair::SP => self.sp,
        }
    }

    /// The state with pair `p` set to `v`, high byte into the first register.
    pub open spec fn with_pair(self, p: Pair, v: u16) -> CpuState {
        match p {
            Pair::BC => CpuState { b: (v / 256) as u8, c: (v % 256) as u8, ..self },
            Pair::DE => CpuState { d: (v / 256) as u8, e: (v % 256) as u8, ..self },
            Pair::HL => CpuState { h: (v / 256) as u8, l: (v % 256) as u8, ..self },
            Pair::SP => CpuState { sp: v, ..self },
        }
    }

    /// The 16-bit value that `PUSH` stores for a stack operand.
    pub open spec fn stack_value(self, p: StackPair) -> u16 {
        match p {
            StackPair::BC => word(self.b, self.c),
            StackPair::DE => word(self.d, self.e),
            StackPair::HL => word(self.h, self.l),
            StackPair::Psw => word(self.a, psw_byte(self.flags)),
        }
    }

    /// The state with a stack operand loaded from `v`, as `POP` does.
    pub open spec fn with_stack_value(self, p: StackPair, v: u16) -> CpuState {
        match p {
            StackPair::BC => self.with_pair(Pair::BC, v),
            StackPair::DE => self.with_pair(Pair::DE, v),
            StackPair::HL => self.with_pair(Pair::HL, v),
            StackPair::Psw => CpuState {
                a: (v / 256) as u8,
                flags: flags_of_psw((v % 256) as u8),
                ..self
            },
        }
    }

    /// The value of an 8-bit operand.
    pub open spec fn read(self, r: Reg) -> u8 {
        match r {
            Reg::B => self.b,
            Reg::C => self.c,
            Reg::D => self.d,
            Reg::E => self.e,
            Reg::H => self.h,
            Reg::L => self.l,
            Reg::M => self.byte_at(self.hl() as int),
            Reg::A => self.a,
        }
    }

    /// The state with memory byte `addr` (wrapping) set to `v`.
    pub open spec fn write_mem(self, addr: int, v: u8) -> CpuState {
        CpuState { mem: self.mem.update(addr % 0x10000, v), ..self }
    }

    /// The state with an 8-bit operand set to `v`.
    pub open spec fn write(self, r: Reg, v: u8) -> CpuState {
        match r {
            Reg::B => CpuState { b: v, ..self },
            Reg::C => CpuState { c: v, ..self },
            Reg::D => CpuState { d: v, ..self },
            Reg::E => CpuState { e: v, ..self },
            Reg::H => CpuState { h: v, ..self },
            Reg::L => CpuState { l: v, ..self },
            Reg::M => self.write_mem(self.hl() as int, v),
            Reg::A => CpuState { a: v, ..self },
        }
    }

    /// The state with `PC` moved forward by `n` bytes.
    pub open spec fn advance(self, n: int) -> CpuState {
        CpuState { pc: wrap16(self.pc + n), ..self }
    }

    /// The state after pushing `v`: high byte at `SP-1`, low byte at `SP-2`,
    /// then `SP` lowered by two.
    pub open spec fn push_word(self, v: u16) -> CpuState {
        CpuState {
            sp: wrap16(self.sp - 2),
            ..self.write_mem(self.sp - 1, (v / 256) as u8).write_mem(self.sp - 2, (v % 256) as u8)
        }
    }

    /// The 16-bit value on top of the stack: low byte at `SP`, high at `SP+1`.
    pub open spec fn top_word(self) -> u16 {
        word(self.byte_at(self.sp + 1), self.byte_at(self.sp as int))
    }

    /// Whether a condition holds of the flags.
    pub open spec fn holds(self, c: Cond) -> bool {
        match c {
            Cond::NotZero => !self.flags.zero,
            Cond::Zero => self.flags.zero,
            Cond::NoCarry => !self.flags.carry,
            Cond::Carry => self.flags.carry,
            Cond::ParityOdd => !self.flags.parity,
            Cond::ParityEven => self.flags.parity,
        }
    }

    /// The state after a call to `target`, the instruction being `len` bytes long.
    pub open spec fn call_to(self, target: u16, len: int) -> CpuState {
        CpuState { pc: target, ..self.push_word(wrap16(self.pc + len)) }
    }

    /// The state after a return.
    pub open spec fn return_from(self) -> CpuState {
        CpuState { pc: self.top_word(), sp: wrap16(self.sp + 2), ..self }
    }

    /// The effect of one instruction, whose opcode is at `PC`.
    pub open spec fn execute(self, ins: Instr) -> CpuState {
        let s = self;
        match ins {
            Instr::Nop => s.advance(1),
            Instr::PortIo => s.advance(2),
            Instr::Lxi(p) => s.with_pair(p, s.imm16()).advance(3),
            Instr::Stax(p) => s.write_mem(s.pair(p) as int, s.a).advance(1),
            Instr::Ldax(p) => CpuState { a: s.byte_at(s.pair(p) as int), ..s }.advance(1),
            Instr::Inx(p) => s.with_pair(p, wrap16(s.pair(p) + 1)).advance(1),
            Instr::Dcx(p) => s.with_pair(p, wrap16(s.pair(p) - 1)).advance(1),
            Instr::Dad(p) => {
                let sum = s.hl() + s.pair(p);
                CpuState {
                    flags: Flags { carry: sum > 0xFFFF, ..s.flags },
                    ..s.with_pair(Pair::HL, wrap16(sum))
                }.advance(1)
            },
            Instr::Inr(r) => CpuState {
                flags: inr_spec(s.read(r), s.flags).1,
                ..s.write(r, inr_spec(s.read(r), s.flags).0)
            }.advance(1),
            Instr::Dcr(r) => CpuState {
                flags: dcr_spec(s.read(r), s.flags).1,
                ..s.write(r, dcr_spec(s.read(r), s.flags).0)
            }.advance(1),
            Instr::Mvi(r) => s.write(r, s.imm8()).advance(2),
            Instr::Mov(dst, src) => s.write(dst, s.read(src)).advance(1),
            Instr::Rotate(rot) => CpuState {
                a: rotate_spec(rot, s.a, s.flags.carry).0,
                flags: Flags { carry: rotate_spec(rot, s.a, s.flags.carry).1, ..s.flags },
                ..s
            }.advance(1),
            Instr::Shld => s.write_mem(s.imm16() as int, s.l).write_mem(s.imm16() + 1, s.h).advance(3),
            Instr::Lhld => CpuState {
                l: s.byte_at(s.imm16() as int),
                h: s.byte_at(s.imm16() + 1),
                ..s
            }.advance(3),
            Instr::Sta => s.write_mem(s.imm16() as int, s.a).advance(3),
            Instr::Lda => CpuState { a: s.byte_at(s.imm16() as int), ..s }.advance(3),
            Instr::Cma => CpuState { a: (255 - s.a) as u8, ..s }.advance(1),
            Instr::Stc => CpuState { flags: Flags { carry: true, ..s.flags }, ..s }.advance(1),
            Instr::Cmc => CpuState { flags: Flags { carry: !s.flags.carry, ..s.flags }, ..s }.advance(1),
            Instr::Hlt => CpuState { running: false, ..s }.advance(1),
            Instr::Alu(op, r) => CpuState {
                a: alu_spec(op, s.a, s.read(r), s.flags).0,
                flags: alu_spec(op, s.a, s.read(r), s.flags).1,
                ..s
            }.advance(1),
            Instr::AluImm(op) => CpuState {
                a: alu_spec(op, s.a, s.imm8(), s.flags).0,
                flags: alu_spec(op, s.a, s.imm8(), s.flags).1,
                ..s
            }.advance(2),
            Instr::Jmp => CpuState { pc: s.imm16(), ..s },
            Instr::Jcc(c) => if s.holds(c) { CpuState { pc: s.imm16(), ..s } } else { s.advance(3) },
            Instr::Call => s.call_to(s.imm16(), 3),
            Instr::Ccc(c) => if s.holds(c) { s.call_to(s.imm16(), 3) } else { s.advance(3) },
            Instr::Ret => s.return_from(),
            Instr::Rcc(c) => if s.holds(c) { s.return_from() } else { s.advance(1) },
            Instr::Push(p) => s.push_word(s.stack_value(p)).advance(1),
            Instr::Pop(p) => CpuState {
                sp: wrap16(s.sp + 2),
                ..s.with_stack_value(p, s.top_word())
            }.advance(1),
            Instr::Xthl => CpuState {
                l: s.byte_at(s.sp as int),
                h: s.byte_at(s.sp + 1),
                ..s.write_mem(s.sp as int, s.l).write_mem(s.sp + 1, s.h)
            }.advance(1),
            Instr::Pchl => CpuState { pc: s.hl(), ..s },
            Instr::Xchg => CpuState { d: s.h, e: s.l, h: s.d, l: s.e, ..s }.advance(1),
            Instr::Sphl => CpuState { sp: s.hl(), ..s }.advance(1),
            Instr::Unimplemented => s,
        }
    }

    /// One step: the instruction at `PC` is executed, or the step fails on an
    /// opcode that the engine does not implement.
    pub open spec fn step(self) -> Result<CpuState, CpuError> {
        let op = self.byte_at(self.pc as int);
        if decode_spec(op) == Instr::Unimplemented {
            Err(CpuError::UnimplementedOpcode { opcode: op, address: self.pc })
        } else {
            Ok(self.execute(decode_spec(op)))
        }
    }
}

/// The state after reset with `program` loaded at address 0: registers zero,
/// `SP` at `RESET_SP`, the zero flag set and the others clear, not running.
pub open spec fn reset_state(program: Seq<u8>) -> CpuState {
    CpuState {
        a: 0,
        b: 0,
        c: 0,
        d: 0,
        e: 0,
        h: 0,
        l: 0,
        sp: RESET_SP,
        pc: 0,
        flags: Flags { zero: true, sign: false, parity: false, carry: false, aux_carry: false },
        mem: Seq::new(MEMORY_SIZE as nat, |i: int| if i < program.len() { program[i] } else { 0u8 }),
        running: false,
    }
}

/// The processor: registers, flags, program counter, stack pointer, memory
/// and run flag.
pub struct Cpu {
    a: u8,
    b: u8,
    c: u8,
    d: u8,
    e: u8,
    h: u8,
    l: u8,
    sp: u16,
    pc: u16,
    flags: Flags,
    memory: Vec<u8>,
    running: bool,
}

impl View for Cpu {
    type V = CpuState;

    closed spec fn view(&self) -> CpuState {
        CpuState {
            a: self.a,
            b: self.b,
            c: self.c,
            d: self.d,
            e: self.e,
            h: self.h,
            l: self.l,
            sp: self.sp,
            pc: self.pc,
            flags: self.flags,
            mem: self.memory@,
            running: self.running,
        }
    }
}

fn add16(x: u16, n: u16) -> (r: u16)
    ensures
        r == wrap16(x + n),
{
    ((x as u32 + n as u32) % 0x10000) as u16
}

fn sub16(x: u16, n: u16) -> (r: u16)
    ensures
        r == wrap16(x - n),
{
    ((x as u32 + 0x10000 - n as u32) % 0x10000) as u16
}

fn join(hi: u8, lo: u8) -> (r: u16)
    ensures
        r == word(hi, lo),
{
    hi as u16 * 256 + lo as u16
}

impl Cpu {
    /// The memory spans the whole address space.
    pub open spec fn wf(&self) -> bool {
        self@.valid()
    }

    /// A processor after reset, with `program` loaded from address 0.
    pub fn new(program: Vec<u8>) -> (r: Cpu)
        requires
            program.len() <= MEMORY_SIZE,
        ensures
            r@ == reset_state(program@),
            r.wf(),
    {
        let mut memory: Vec<u8> = vec![0u8; MEMORY_SIZE];
        let mut i: usize = 0;
        while i < program.len()
            invariant
                program.len() <= MEMORY_SIZE,
                memory@.len() == MEMORY_SIZE,
                i <= program.len(),
                forall|j: int| 0 <= j < i ==> memory@[j] == program@[j],
                forall|j: int| i <= j < MEMORY_SIZE ==> memory@[j] == 0,
            decreases program.len() - i,
        {
            memory.set(i, program[i]);
            i = i + 1;
        }
        let r = Cpu {
            a: 0,
            b: 0,
            c: 0,
            d: 0,
            e: 0,
            h: 0,
            l: 0,
            sp: RESET_SP,
            pc: 0,
            flags: Flags { zero: true, sign: false, parity: false, carry: false, aux_carry: false },
            memory,
            running: false,
        };
        assert(r@.mem =~= reset_state(program@).mem);
        r
    }

    fn byte_at(&self, addr: u16) -> (r: u8)
        requires
            self.wf(),
        ensures
            r == self@.byte_at(addr as int),
    {
        self.memory[addr as usize]
    }

    /// The byte `offset` bytes after the opcode.
    fn fetch(&self, offset: u16) -> (r: u8)
        requires
            self.wf(),
        ensures
            r == self@.byte_at(self@.pc + offset),
    {
        let addr = add16(self.pc, offset);
        self.byte_at(addr)
    }

    fn imm16(&self) -> (r: u16)
        requires
            self.wf(),
        ensures
            r == self@.imm16(),
    {
        let lo = self.fetch(1);
        let hi = self.fetch(2);
        join(hi, lo)
    }

    fn write_mem(&mut self, addr: u16, v: u8)
        requires
            old(self).wf(),
        ensures
            final(self).wf(),
            final(self)@ == old(self)@.write_mem(addr as int, v),
    {
        self.memory.set(addr as usize, v);
    }

    /// The byte after `addr`, wrapping.
    fn byte_after(&self, addr: u16) -> (r: u8)
        requires
            self.wf(),
        ensures
            r == self@.byte_at(addr + 1),
    {
        self.byte_at(add16(addr, 1))
    }

    /// Writes the byte after `addr`, wrapping.
    fn write_after(&mut self, addr: u16, v: u8)
        requires
            old(self).wf(),
        ensures
            final(self).wf(),
            final(self)@ == old(self)@.write_mem(addr + 1, v),
    {
        self.write_mem(add16(addr, 1), v);
    }

    fn advance(&mut self, n: u16)
        ensures
            final(self)@ == old(self)@.advance(n as int),
    {
        self.pc = add16(self.pc, n);
    }

    fn read_reg(&self, r: Reg) -> (v: u8)
        requires
            self.wf(),
        ensures
            v == self@.read(r),
    {
        match r {
            Reg::B => self.b,
            Reg::C => self.c,
            Reg::D => self.d,
            Reg::E => self.e,
            Reg::H => self.h,
            Reg::L => self.l,
            Reg::M => self.byte_at(join(self.h, self.l)),
            Reg::A => self.a,
        }
    }

    fn write_reg(&mut self, r: Reg, v: u8)
        requires
            old(self).wf(),
        ensures
            final(self).wf(),
            final(self)@ == old(self)@.write(r, v),
    {
        match r {
            Reg::B => self.b = v,
            Reg::C => self.c = v,
            Reg::D => self.d = v,
            Reg::E => self.e = v,
            Reg::H => self.h = v,
            Reg::L => self.l = v,
            Reg::M => {
                let addr = join(self.h, self.l);
                self.write_mem(addr, v);
            },
            Reg::A => self.a = v,
        }
    }

    fn pair(&self, p: Pair) -> (r: u16)
        ensures
            r == self@.pair(p),
    {
        match p {
            Pair::BC => join(self.b, self.c),
            Pair::DE => join(self.d, self.e),
            Pair::HL => join(self.h, self.l),
            Pair::SP => self.sp,
        }
    }

    fn set_pair(&mut self, p: Pair, v: u16)
        ensures
            final(self)@ == old(self)@.with_pair(p, v),
    {
        let hi = (v / 256) as u8;
        let lo = (v % 256) as u8;
        match p {
            Pair::BC => {
                self.b = hi;
                self.c = lo;
            },
            Pair::DE => {
                self.d = hi;
                self.e = lo;
            },
            Pair::HL => {
                self.h = hi;
                self.l = lo;
            },
            Pair::SP => self.sp = v,
        }
    }

    fn push_word(&mut self, v: u16)
        requires
            old(self).wf(),
        ensures
            final(self).wf(),
            final(self)@ == old(self)@.push_word(v),
    {
        let hi_addr = sub16(self.sp, 1);
        let lo_addr = sub16(self.sp, 2);
        self.write_mem(hi_addr, (v / 256) as u8);
        self.write_mem(lo_addr, (v % 256) as u8);
        self.sp = lo_addr;
    }

    fn top_word(&self) -> (r: u16)
        requires
            self.wf(),
        ensures
            r == self@.top_word(),
    {
        let lo = self.byte_at(self.sp);
        let hi = self.byte_after(self.sp);
        join(hi, lo)
    }

    /// Pushes the address of the next instruction, which `PC` already holds,
    /// and jumps to `adr`.
    fn call(&mut self, adr: u16)
        requires
            old(self).wf(),
        ensures
            final(self).wf(),
            final(self)@ == (CpuState { pc: adr, ..old(self)@.push_word(old(self)@.pc) }),
    {
        let ret = self.pc;
        self.push_word(ret);
        self.pc = adr;
    }

    /// Pops the return address into `PC`.
    fn ret(&mut self)
        requires
            old(self).wf(),
        ensures
            final(self).wf(),
            final(self)@ == old(self)@.return_from(),
    {
        self.pc = self.top_word();
        self.sp = add16(self.sp, 2);
    }

    fn holds(&self, c: Cond) -> (r: bool)
        ensures
            r == self@.holds(c),
    {
        match c {
            Cond::NotZero => !self.flags.zero,
            Cond::Zero => self.flags.zero,
            Cond::NoCarry => !self.flags.carry,
            Cond::Carry => self.flags.carry,
            Cond::ParityOdd => !self.flags.parity,
            Cond::ParityEven => self.flags.parity,
        }
    }

    fn stack_value(&self, p: StackPair) -> (r: u16)
        ensures
            r == self@.stack_value(p),
    {
        match p {
            StackPair::BC => join(self.b, self.c),
            StackPair::DE => join(self.d, self.e),
            StackPair::HL => join(self.h, self.l),
            StackPair::Psw => join(self.a, pack_psw(self.flags)),
        }
    }

    fn set_stack_value(&mut self, p: StackPair, v: u16)
        ensures
            final(self)@ == old(self)@.with_stack_value(p, v),
    {
        match p {
            StackPair::BC => self.set_pair(Pair::BC, v),
            StackPair::DE => self.set_pair(Pair::DE, v),
            StackPair::HL => self.set_pair(Pair::HL, v),
            StackPair::Psw => {
                self.a = (v / 256) as u8;
                self.flags = unpack_psw((v % 256) as u8);
            },
        }
    }

    /// The register-pair instructions.
    fn execute_pair(&mut self, ins: Instr)
        requires
            old(self).wf(),
            ins is Lxi || ins is Stax || ins is Ldax || ins is Inx || ins is Dcx || ins is Dad,
        ensures
            final(self).wf(),
            final(self)@ == old(self)@.execute(ins),
    {
        match ins {
            Instr::Lxi(p) => {
                let v = self.imm16();
                self.set_pair(p, v);
                self.advance(3);
            },
            Instr::Stax(p) => {
                let addr = self.pair(p);
                let a = self.a;
                self.write_mem(addr, a);
                self.advance(1);
            },
            Instr::Ldax(p) => {
                self.a = self.byte_at(self.pair(p));
                self.advance(1);
            },
            Instr::Inx(p) => {
                let v = add16(self.pair(p), 1);
                self.set_pair(p, v);
                self.advance(1);
            },
            Instr::Dcx(p) => {
                let v = sub16(self.pair(p), 1);
                self.set_pair(p, v);
                self.advance(1);
            },
            Instr::Dad(p) => {
                let sum: u32 = join(self.h, self.l) as u32 + self.pair(p) as u32;
                self.set_pair(Pair::HL, (sum % 0x10000) as u16);
                self.flags.carry = sum > 0xFFFF;
                self.advance(1);
            },
            _ => {},
        }
    }

    /// The register and immediate moves.
    fn execute_move(&mut self, ins: Instr)
        requires
            old(self).wf(),
            ins is Mvi || ins is Mov || ins is Xchg || ins is Sphl,
        ensures
            final(self).wf(),
            final(self)@ == old(self)@.execute(ins),
    {
        match ins {
            Instr::Mvi(r) => {
                let v = self.fetch(1);
                self.write_reg(r, v);
                self.advance(2);
            },
            Instr::Mov(dst, src) => {
                let v = self.read_reg(src);
                self.write_reg(dst, v);
                self.advance(1);
            },
            Instr::Xchg => {
                let (d, e) = (self.d, self.e);
                self.d = self.h;
                self.e = self.l;
                self.h = d;
                self.l = e;
                self.advance(1);
            },
            _ => {
                self.sp = join(self.h, self.l);
                self.advance(1);
            },
        }
    }

    /// The accumulator loads and stores at a direct address.
    fn execute_direct(&mut self, ins: Instr)
        requires
            old(self).wf(),
            ins is Sta || ins is Lda,
        ensures
            final(self).wf(),
            final(self)@ == old(self)@.execute(ins),
    {
        let adr = self.imm16();
        match ins {
            Instr::Sta => {
                let a = self.a;
                self.write_mem(adr, a);
            },
            _ => self.a = self.byte_at(adr),
        }
        self.advance(3);
    }

    /// Stores `H:L` at a direct address, low byte first.
    fn execute_shld(&mut self)
        requires
            old(self).wf(),
        ensures
            final(self).wf(),
            final(self)@ == old(self)@.execute(Instr::Shld),
    {
        let adr = self.imm16();
        let (h, l) = (self.h, self.l);
        self.write_mem(adr, l);
        self.write_after(adr, h);
        self.advance(3);
    }

    /// Loads `H:L` from a direct address, low byte first.
    fn execute_lhld(&mut self)
        requires
            old(self).wf(),
        ensures
            final(self).wf(),
            final(self)@ == old(self)@.execute(Instr::Lhld),
    {
        let adr = self.imm16();
        self.l = self.byte_at(adr);
        self.h = self.byte_after(adr);
        self.advance(3);
    }

    /// Exchange of `H:L` with the top of the stack.
    fn execute_xthl(&mut self)
        requires
            old(self).wf(),
        ensures
            final(self).wf(),
            final(self)@ == old(self)@.execute(Instr::Xthl),
    {
        let sp = self.sp;
        let lo = self.byte_at(sp);
        let hi = self.byte_after(sp);
        let (h, l) = (self.h, self.l);
        self.write_mem(sp, l);
        self.write_after(sp, h);
        self.l = lo;
        self.h = hi;
        self.advance(1);
    }

    /// Arithmetic, logic, rotations and flag instructions.
    fn execute_arith(&mut self, ins: Instr)
        requires
            old(self).wf(),
            ins is Inr || ins is Dcr || ins is Rotate || ins is Cma || ins is Stc || ins is Cmc
                || ins is Alu || ins is AluImm,
        ensures
            final(self).wf(),
            final(self)@ == old(self)@.execute(ins),
    {
        match ins {
            Instr::Inr(r) => {
                let (v, f) = inr(self.read_reg(r), self.flags);
                self.write_reg(r, v);
                self.flags = f;
                self.advance(1);
            },
            Instr::Dcr(r) => {
                let (v, f) = dcr(self.read_reg(r), self.flags);
                self.write_reg(r, v);
                self.flags = f;
                self.advance(1);
            },
            Instr::Rotate(rot) => {
                let (a, cy) = rotate(rot, self.a, self.flags.carry);
                self.a = a;
                self.flags.carry = cy;
                self.advance(1);
            },
            Instr::Cma => {
                self.a = 255 - self.a;
                self.advance(1);
            },
            Instr::Stc => {
                self.flags.carry = true;
                self.advance(1);
            },
            Instr::Cmc => {
                self.flags.carry = !self.flags.carry;
                self.advance(1);
            },
            Instr::Alu(op, r) => {
                let (a, f) = alu(op, self.a, self.read_reg(r), self.flags);
                self.a = a;
                self.flags = f;
                self.advance(1);
            },
            _ => {
                let op = match ins {
                    Instr::AluImm(op) => op,
                    _ => AluOp::Cmp,
                };
                let (a, f) = alu(op, self.a, self.fetch(1), self.flags);
                self.a = a;
                self.flags = f;
                self.advance(2);
            },
        }
    }

    /// Jumps, calls, returns and the stack.
    fn execute_control(&mut self, ins: Instr)
        requires
            old(self).wf(),
            ins is Jmp || ins is Jcc || ins is Call || ins is Ccc || ins is Ret || ins is Rcc
                || ins is Push || ins is Pop || ins is Pchl,
        ensures
            final(self).wf(),
            final(self)@ == old(self)@.execute(ins),
    {
        match ins {
            Instr::Jmp => {
                self.pc = self.imm16();
            },
            Instr::Jcc(c) => {
                let adr = self.imm16();
                self.advance(3);
                if self.holds(c) {
                    self.pc = adr;
                }
            },
            Instr::Call => {
                let adr = self.imm16();
                self.advance(3);
                self.call(adr);
            },
            Instr::Ccc(c) => {
                let adr = self.imm16();
                self.advance(3);
                if self.holds(c) {
                    self.call(adr);
                }
            },
            Instr::Ret => self.ret(),
            Instr::Rcc(c) => {
                if self.holds(c) {
                    self.ret();
                } else {
                    self.advance(1);
                }
            },
            Instr::Push(p) => {
                let v = self.stack_value(p);
                self.push_word(v);
                self.advance(1);
            },
            Instr::Pop(p) => {
                let v = self.top_word();
                self.set_stack_value(p, v);
                self.sp = add16(self.sp, 2);
                self.advance(1);
            },
            _ => {
                self.pc = join(self.h, self.l);
            },
        }
    }

    /// Executes one instruction (the "cycle" of the host loop): the opcode at
    /// `PC` is decoded and its effect applied, whatever the run flag holds. On
    /// an opcode that the engine does not implement nothing changes and the
    /// error names the opcode and its address.
    pub fn cycle(&mut self) -> (r: Result<(), CpuError>)
        requires
            old(self).wf(),
        ensures
            final(self).wf(),
            match old(self)@.step() {
                Ok(t) => r is Ok && final(self)@ == t,
                Err(e) => r == Err::<(), CpuError>(e) && final(self)@ == old(self)@,
            },
    {
        let op = self.byte_at(self.pc);
        let ins = decode(op);
        match ins {
            Instr::Unimplemented => {
                return Err(CpuError::UnimplementedOpcode { opcode: op, address: self.pc });
            },
            Instr::Nop => self.advance(1),
            Instr::PortIo => self.advance(2),
            Instr::Hlt => {
                self.running = false;
                self.advance(1);
            },
            Instr::Lxi(_) | Instr::Stax(_) | Instr::Ldax(_) | Instr::Inx(_) | Instr::Dcx(_)
            | Instr::Dad(_) => self.execute_pair(ins),
            Instr::Mvi(_) | Instr::Mov(_, _) | Instr::Xchg | Instr::Sphl => self.execute_move(ins),
            Instr::Sta | Instr::Lda => self.execute_direct(ins),
            Instr::Shld => self.execute_shld(),
            Instr::Lhld => self.execute_lhld(),
            Instr::Xthl => self.execute_xthl(),
            Instr::Inr(_) | Instr::Dcr(_) | Instr::Rotate(_) | Instr::Cma | Instr::Stc
            | Instr::Cmc | Instr::Alu(_, _) | Instr::AluImm(_) => self.execute_arith(ins),
            _ => self.execute_control(ins),
        }
        Ok(())
    }

    /// Sets the run flag and executes instructions while it stays set, at most
    /// `max_steps` of them. Returns how many were executed, or the error of the
    /// step that failed, which leaves the state as it was before that step.
    pub fn run(&mut self, max_steps: u64) -> (r: Result<u64, CpuError>)
        requires
            old(self).wf(),
        ensures
            final(self).wf(),
            run_spec(CpuState { running: true, ..old(self)@ }, max_steps as nat) == (
            final(self)@,
            match r {
                Ok(n) => Ok(n as nat),
                Err(e) => Err(e),
            },
            ),
    {
        self.running = true;
        let ghost start = self@;
        let mut count: u64 = 0;
        while self.running && count < max_steps
            invariant
                self.wf(),
                count <= max_steps,
                start == (CpuState { running: true, ..old(self)@ }),
                shifted(run_spec(self@, (max_steps - count) as nat), count as nat) == run_spec(
                    start,
                    max_steps as nat,
                ),
            decreases max_steps - count,
        {
            let r = self.cycle();
            match r {
                Err(e) => {
                    return Err(e);
                },
                Ok(()) => {},
            }
            count = count + 1;
        }
        Ok(count)
    }

    /// Clears the run flag when `PC` is one of `breakpoints`; returns whether it did.
    pub fn check_breakpoint(&mut self, breakpoints: &Vec<u16>) -> (r: bool)
        ensures
            r == breakpoints@.contains(old(self)@.pc),
            final(self)@ == (if r { CpuState { running: false, ..old(self)@ } } else { old(self)@ }),
    {
        let mut i: usize = 0;
        while i < breakpoints.len()
            invariant
                i <= breakpoints.len(),
                forall|j: int| 0 <= j < i ==> breakpoints@[j] != self.pc,
                self@ == old(self)@,
            decreases breakpoints.len() - i,
        {
            if breakpoints[i] == self.pc {
                self.running = false;
                return true;
            }
            i = i + 1;
        }
        false
    }

/// One frame of the host loop: when the run flag is set, executes one
    /// instruction and then checks `breakpoints`. Returns whether a breakpoint
    /// cleared the run flag.
    pub fn tick(&mut self, breakpoints: &Vec<u16>) -> (r: Result<bool, CpuError>)
        requires
            old(self).wf(),
        ensures
            final(self).wf(),
            !old(self)@.running ==> r == Ok::<bool, CpuError>(false) && final(self)@ == old(self)@,
            old(self)@.running ==> match old(self)@.step() {
                Ok(t) => {
                    &&& r == Ok::<bool, CpuError>(breakpoints@.contains(t.pc))
                    &&& final(self)@ == (if breakpoints@.contains(t.pc) {
                        CpuState { running: false, ..t }
                    } else {
                        t
                    })
                },
                Err(e) => r == Err::<bool, CpuError>(e) && final(self)@ == old(self)@,
            },
    {
        if !self.running {
            return Ok(false);
        }
        match self.cycle() {
            Err(e) => Err(e),
            Ok(()) => Ok(self.check_breakpoint(breakpoints)),
        }
    }

    /// Executes one instruction for a paused host and leaves the run flag clear.
    pub fn single_step(&mut self) -> (r: Result<(), CpuError>)
        requires
            old(self).wf(),
        ensures
            final(self).wf(),
            match old(self)@.step() {
                Ok(t) => r is Ok && final(self)@ == (CpuState { running: false, ..t }),
                Err(e) => r == Err::<(), CpuError>(e) && final(self)@ == (CpuState {
                    running: false,
                    ..old(self)@
                }),
            },
    {
        let r = self.cycle();
        self.running = false;
        r
    }

    /// Pauses a running processor or resumes a paused one; returns the new run flag.
    pub fn toggle_running(&mut self) -> (r: bool)
        ensures
            r == !old(self)@.running,
            final(self)@ == (CpuState { running: r, ..old(self)@ }),
    {
        self.running = !self.running;
        self.running
    }

        pub fn a(&self) -> (r: u8)
        ensures
            r == self@.a,
    {
        self.a
    }

    pub fn b(&self) -> (r: u8)
        ensures
            r == self@.b,
    {
        self.b
    }

    pub fn c(&self) -> (r: u8)
        ensures
            r == self@.c,
    {
        self.c
    }

    pub fn d(&self) -> (r: u8)
        ensures
            r == self@.d,
    {
        self.d
    }

    pub fn e(&self) -> (r: u8)
        ensures
            r == self@.e,
    {
        self.e
    }

    pub fn h(&self) -> (r: u8)
        ensures
            r == self@.h,
    {
        self.h
    }

    pub fn l(&self) -> (r: u8)
        ensures
            r == self@.l,
    {
        self.l
    }

    pub fn sp(&self) -> (r: u16)
        ensures
            r == self@.sp,
    {
        self.sp
    }

    pub fn pc(&self) -> (r: u16)
        ensures
            r == self@.pc,
    {
        self.pc
    }

    pub fn flags(&self) -> (r: Flags)
        ensures
            r == self@.flags,
    {
        self.flags
    }

    /// The run flag.
    pub fn is_running(&self) -> (r: bool)
        ensures
            r == self@.running,
    {
        self.running
    }

    /// Sets or clears the run flag, as a host does to pause and resume.
    pub fn set_running(&mut self, running: bool)
        ensures
            final(self)@ == (CpuState { running, ..old(self)@ }),
    {
        self.running = running;
    }

    /// The memory listing printed for diagnosis, with rows of 32 bytes.
    pub fn print_memory(&self) -> (r: Vec<u8>)
        requires
            self.wf(),
        ensures
            r@ == memory_listing(self@.mem, 32),
    {
        self.print_memory_width(32)
    }

    /// The memory listing printed for diagnosis, as ASCII text: every byte as
    /// two uppercase hexadecimal digits, followed by a line break when its
    /// address is a multiple of `width` and by a space otherwise.
    pub fn print_memory_width(&self, width: usize) -> (r: Vec<u8>)
        requires
            self.wf(),
            width > 0,
        ensures
            r@ == memory_listing(self@.mem, width as int),
    {
        let mut out: Vec<u8> = Vec::new();
        let mut i: usize = 0;
        while i < MEMORY_SIZE
            invariant
                self.wf(),
                width > 0,
                i <= MEMORY_SIZE,
                out@.len() == 3 * i,
                forall|k: int| 0 <= k < 3 * i ==> out@[k] == listing_char(self@.mem, width as int, k),
            decreases MEMORY_SIZE - i,
        {
            let v = self.memory[i];
            out.push(hex_digit(v / 16));
            out.push(hex_digit(v % 16));
            out.push(if i % width == 0 { 10u8 } else { 32u8 });
            proof {
                lemma_thirds(i as int);
            }
            i = i + 1;
        }
        assert(out@ =~= memory_listing(self@.mem, width as int));
        out
    }

    /// The memory byte at `addr`.
    pub fn memory_at(&self, addr: u16) -> (r: u8)
        requires
            self.wf(),
        ensures
            r == self@.byte_at(addr as int),
    {
        self.byte_at(addr)
    }
}

/// The ASCII code of the uppercase hexadecimal digit `n`.
pub open spec fn hex_char(n: int) -> u8 {
    if n < 10 { (48 + n) as u8 } else { (55 + n) as u8 }
}

/// Character `k` of the listing of `mem` with rows of `width` bytes.
pub open spec fn listing_char(mem: Seq<u8>, width: int, k: int) -> u8 {
    let i = k / 3;
    if k % 3 == 0 {
        hex_char((mem[i] / 16) as int)
    } else if k % 3 == 1 {
        hex_char((mem[i] % 16) as int)
    } else if i % width == 0 {
        10
    } else {
        32
    }
}

/// The listing of `mem`: three characters per byte.
pub open spec fn memory_listing(mem: Seq<u8>, width: int) -> Seq<u8> {
    Seq::new(3 * mem.len(), |k: int| listing_char(mem, width, k))
}

fn hex_digit(n: u8) -> (r: u8)
    requires
        n < 16,
    ensures
        r == hex_char(n as int),
{
    if n < 10 { 48 + n } else { 55 + n }
}

proof fn lemma_thirds(i: int)
    requires
        i >= 0,
    ensures
        (3 * i) / 3 == i && (3 * i) % 3 == 0,
        (3 * i + 1) / 3 == i && (3 * i + 1) % 3 == 1,
        (3 * i + 2) / 3 == i && (3 * i + 2) % 3 == 2,
{
}

/// `r` with `k` more steps counted when it ended without error.
pub open spec fn shifted(r: (CpuState, Result<nat, CpuError>), k: nat) -> (CpuState, Result<nat, CpuError>) {
    match r.1 {
        Ok(n) => (r.0, Ok(n + k)),
        Err(e) => (r.0, Err(e)),
    }
}

/// Running from `s` with at most `fuel` steps: the state reached and the
/// number of steps executed, or the error of the step that failed together
/// with the state before it. Running stops when the run flag is clear.
pub open spec fn run_spec(s: CpuState, fuel: nat) -> (CpuState, Result<nat, CpuError>)
    decreases fuel,
{
    if !s.running || fuel == 0 {
        (s, Ok(0))
    } else {
        match s.step() {
            Err(e) => (s, Err(e)),
            Ok(t) => shifted(run_spec(t, (fuel - 1) as nat), 1),
        }
    }
}

} // verus!
