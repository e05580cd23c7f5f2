//! The CPU execution engine: the register file with its packed flags, the
//! address bus over the cartridge banks and an injected collaborator for
//! the externally owned regions, and the fetch-decode-execute step.

use vstd::prelude::*;

use crate::alu;
use crate::alu::{AluOp, ShiftKind};
use crate::cartridge::{Cartridge, BANK_SIZE};
use crate::opcode;
use crate::opcode::{Condition, Op8, Op16, OpcodePrefixed, OpcodeUnprefixed};
use crate::util::{spec_get_bit, spec_pair_from, spec_set_bit, RegisterPair, Twiddling};

verus! {

/// A fatal error raised while executing an instruction.
#[derive(Clone, Copy, Debug, PartialEq, Eq, Structural)]
pub enum CpuError {
    /// The fetched byte decodes to a documented gap in the instruction
    /// encoding; the offending byte is reported and stepping must stop.
    IllegalOpcode(u8),
    /// An instruction variant was paired with an operand encoding that
    /// the instruction cannot carry.
    BadArgument,
}

/// The four status flags, packed into the high nibble of the virtual
/// flag register: zero in bit 7, negative in bit 6, half-carry in bit 5,
/// carry in bit 4. The low nibble is always zero.
#[derive(Clone, Copy, Debug, PartialEq, Eq, Structural)]
pub struct Flags {
    /// The last result was zero (bit 7 of the flag register).
    pub zero: bool,
    /// The last operation was a subtraction or compare (bit 6).
    pub neg: bool,
    /// The last operation carried out of bit 3 (bit 5).
    pub half_carry: bool,
    /// The last operation carried out of bit 7, or bit 15 for the
    /// 16-bit add (bit 4).
    pub carry: bool,
}

impl Default for Flags {
    /// All four flags start clear.
    fn default() -> (r: Self)
        ensures
            r == (Flags { zero: false, neg: false, half_carry: false, carry: false }),
    {
        Flags { zero: false, neg: false, half_carry: false, carry: false }
    }
}

/// A flag record written out in one expression.
pub open spec fn spec_flags(zero: bool, neg: bool, half_carry: bool, carry: bool) -> Flags {
    Flags { zero, neg, half_carry, carry }
}

impl Flags {
    /// The packed flag byte: one bit per flag in the high nibble, low
    /// nibble zero.
    pub open spec fn spec_f_reg(self) -> u8 {
        ((if self.zero {
            128u8
        } else {
            0u8
        }) + (if self.neg {
            64u8
        } else {
            0u8
        }) + (if self.half_carry {
            32u8
        } else {
            0u8
        }) + (if self.carry {
            16u8
        } else {
            0u8
        })) as u8
    }

    /// The flags encoded in the high nibble of `value`.
    pub open spec fn spec_from_byte(value: u8) -> Flags {
        Flags {
            zero: spec_get_bit(value, 7),
            neg: spec_get_bit(value, 6),
            half_carry: spec_get_bit(value, 5),
            carry: spec_get_bit(value, 4),
        }
    }

    /// Pack the four flags into the flag byte.
    pub fn f_reg(&self) -> (r: u8)
        ensures
            r == self.spec_f_reg(),
    {
        (if self.zero {
            128
        } else {
            0
        }) + (if self.neg {
            64
        } else {
            0
        }) + (if self.half_carry {
            32
        } else {
            0
        }) + (if self.carry {
            16
        } else {
            0
        })
    }

    /// Unpack the high nibble of `value` into the four flags.
    pub fn set_from_byte(&mut self, value: u8)
        ensures
            *final(self) == Flags::spec_from_byte(value),
    {
        self.zero = value.get_bit(7);
        self.neg = value.get_bit(6);
        self.half_carry = value.get_bit(5);
        self.carry = value.get_bit(4);
    }
}

/// Packing the high nibble of a byte into flags and packing the flags
/// back yields the byte with its low nibble masked to zero.
pub proof fn lemma_flag_byte_round_trip(b: u8)
    ensures
        Flags::spec_from_byte(b).spec_f_reg() == b & 0xF0,
{
    assert(((if (b >> 7) & 1 == 1 {
        128u8
    } else {
        0u8
    }) + (if (b >> 6) & 1 == 1 {
        64u8
    } else {
        0u8
    }) + (if (b >> 5) & 1 == 1 {
        32u8
    } else {
        0u8
    }) + (if (b >> 4) & 1 == 1 {
        16u8
    } else {
        0u8
    })) as u8 == b & 0xF0) by (bit_vector);
}

/// The register file: the 8-bit accumulator, the BC, DE and HL pairs,
/// the 16-bit stack pointer and program counter, and the flags.
#[derive(Clone, Copy, Debug, PartialEq, Eq, Structural)]
pub struct Registers {
    /// The accumulator.
    pub a: u8,
    /// The BC pair.
    pub bc: RegisterPair,
    /// The DE pair.
    pub de: RegisterPair,
    /// The HL pair.
    pub hl: RegisterPair,
    /// The stack pointer.
    pub sp: u16,
    /// The program counter.
    pub pc: u16,
    /// The status flags.
    pub flags: Flags,
}

impl Default for Registers {
    /// Everything starts at zero with all flags clear.
    fn default() -> (r: Self)
        ensures
            r.a == 0,
            r.bc == (RegisterPair { hi: 0, lo: 0 }),
            r.de == (RegisterPair { hi: 0, lo: 0 }),
            r.hl == (RegisterPair { hi: 0, lo: 0 }),
            r.sp == 0,
            r.pc == 0,
            r.flags == (Flags { zero: false, neg: false, half_carry: false, carry: false }),
    {
        Registers {
            a: 0,
            bc: RegisterPair::default(),
            de: RegisterPair::default(),
            hl: RegisterPair::default(),
            sp: 0,
            pc: 0,
            flags: Flags::default(),
        }
    }
}

/// The documented register values right after the boot sequence hands
/// control to the cartridge.
pub open spec fn spec_boot_registers() -> Registers {
    Registers {
        a: 0x01,
        bc: spec_pair_from(0x0013),
        de: spec_pair_from(0x00D8),
        hl: spec_pair_from(0x014D),
        sp: 0xFFFE,
        pc: 0x0100,
        flags: Flags { zero: true, neg: false, half_carry: true, carry: true },
    }
}

impl Registers {
    /// The combined accumulator-and-flags view: the accumulator in the
    /// high byte, the packed flag byte in the low byte.
    pub open spec fn spec_af(self) -> u16 {
        (self.a * 256 + self.flags.spec_f_reg()) as u16
    }

    /// The register file right after the boot sequence hands control to
    /// the cartridge.
    pub fn with_boot_values() -> (r: Self)
        ensures
            r == spec_boot_registers(),
            r.spec_af() == 0x01B0,
            r.bc.spec_both() == 0x0013,
            r.de.spec_both() == 0x00D8,
            r.hl.spec_both() == 0x014D,
    {
        let mut registers = Registers::default();

        registers.set_af(0x01B0);
        registers.bc.set_both(0x0013);
        registers.de.set_both(0x00D8);
        registers.hl.set_both(0x014D);
        registers.pc = 0x0100;
        registers.sp = 0xFFFE;

        proof {
            assert((0xB0u8 >> 7) & 1 == 1 && (0xB0u8 >> 6) & 1 == 0 && (0xB0u8 >> 5) & 1 == 1 && (
            0xB0u8 >> 4) & 1 == 1) by (bit_vector);
        }

        registers
    }

    /// Read the combined accumulator-and-flags register.
    pub fn af(&self) -> (r: u16)
        ensures
            r == self.spec_af(),
    {
        let f = self.flags.f_reg() as u16;
        let a = self.a as u16;
        a * 256 + f
    }

    /// Write the combined accumulator-and-flags register: the high byte
    /// into the accumulator, the high nibble of the low byte into the
    /// flags.
    pub fn set_af(&mut self, value: u16)
        ensures
            final(self).a == value / 256,
            final(self).flags == Flags::spec_from_byte((value % 256) as u8),
            final(self).bc == old(self).bc,
            final(self).de == old(self).de,
            final(self).hl == old(self).hl,
            final(self).sp == old(self).sp,
            final(self).pc == old(self).pc,
    {
        self.a = (value / 256) as u8;
        self.flags.set_from_byte((value % 256) as u8);
    }

    /// Apply the binary-coded-decimal correction to the accumulator:
    /// the accumulator takes the corrected value, zero is recomputed
    /// from it, half-carry is cleared, carry is set when the correction
    /// reached 0x60, and negative is left as the preceding operation
    /// set it.
    pub fn decimal_adjust_a(&mut self)
        ensures
            final(self).a == alu::spec_daa(
                old(self).a,
                old(self).flags.neg,
                old(self).flags.half_carry,
                old(self).flags.carry,
            ).0,
            final(self).flags == (Flags {
                zero: final(self).a == 0,
                neg: old(self).flags.neg,
                half_carry: false,
                carry: alu::spec_daa(
                    old(self).a,
                    old(self).flags.neg,
                    old(self).flags.half_carry,
                    old(self).flags.carry,
                ).1,
            }),
            final(self).bc == old(self).bc,
            final(self).de == old(self).de,
            final(self).hl == old(self).hl,
            final(self).sp == old(self).sp,
            final(self).pc == old(self).pc,
    {
        let (a2, carry2) = alu::daa(
            self.a,
            self.flags.neg,
            self.flags.half_carry,
            self.flags.carry,
        );
        self.a = a2;
        self.flags.zero = a2 == 0;
        self.flags.half_carry = false;
        self.flags.carry = carry2;
    }
}

/// Reading the combined accumulator-and-flags register after writing it
/// returns the written value with the low flag nibble masked to zero.
pub proof fn lemma_af_round_trip(regs: Registers, v: u16)
    ensures
        (Registers {
            a: (v / 256) as u8,
            flags: Flags::spec_from_byte((v % 256) as u8),
            ..regs
        }).spec_af() == v & 0xFFF0,
{
    lemma_flag_byte_round_trip((v % 256) as u8);
    assert((v / 256) * 256 + (((v % 256) as u8) & 0xF0) == v & 0xFFF0) by (bit_vector);
}

/// The externally owned memory regions: video, work and high RAM, and
/// the peripheral registers. The core routes every access outside the
/// cartridge banks through this interface and promises nothing about
/// what lives behind it; an implementor states its own read and write
/// models and proves its methods against them.
pub trait AddressSpace: Sized {
    /// The abstract state of the collaborator, over which its reads and
    /// writes are specified.
    type Model;

    /// The collaborator's current abstract state.
    spec fn model(&self) -> Self::Model;

    /// What a read at `addr` returns in abstract state `m`.
    spec fn read_model(m: Self::Model, addr: u16) -> u8;

    /// The abstract state after a write of `data` at `addr` in state `m`.
    spec fn write_model(m: Self::Model, addr: u16, data: u8) -> Self::Model;

    /// Read one byte.
    fn read(&self, addr: u16) -> (b: u8)
        ensures
            b == Self::read_model(self.model(), addr),
    ;

    /// Write one byte.
    fn write(&mut self, addr: u16, data: u8)
        ensures
            final(self).model() == Self::write_model(old(self).model(), addr, data),
    ;
}

/// A flat byte array standing in for the externally owned regions, for
/// drivers and tests that need no peripherals. Reads outside the buffer
/// return zero and writes outside it are dropped, so any buffer length
/// is safe.
pub struct PlainRam {
    /// The backing bytes, indexed directly by address.
    pub bytes: Vec<u8>,
}

impl PlainRam {
    /// A full 64 KiB of zeroed memory.
    pub fn new() -> (r: PlainRam)
        ensures
            r.bytes@.len() == 65536,
            forall|i: int| 0 <= i < 65536 ==> r.bytes@[i] == 0,
    {
        let bytes = vec![0u8; 65536];
        PlainRam { bytes }
    }
}

impl AddressSpace for PlainRam {
    /// The abstract state is the byte sequence itself.
    type Model = Seq<u8>;

    open spec fn model(&self) -> Seq<u8> {
        self.bytes@
    }

    /// Reads return the byte at the address, or zero past the end.
    open spec fn read_model(m: Seq<u8>, addr: u16) -> u8 {
        if addr < m.len() {
            m[addr as int]
        } else {
            0
        }
    }

    /// Writes update the byte at the address and are dropped past the
    /// end.
    open spec fn write_model(m: Seq<u8>, addr: u16, data: u8) -> Seq<u8> {
        if addr < m.len() {
            m.update(addr as int, data)
        } else {
            m
        }
    }

    fn read(&self, addr: u16) -> (b: u8) {
        if (addr as usize) < self.bytes.len() {
            self.bytes[addr as usize]
        } else {
            0
        }
    }

    fn write(&mut self, addr: u16, data: u8) {
        if (addr as usize) < self.bytes.len() {
            self.bytes[addr as usize] = data;
        }
        proof {
            assert(self.bytes@ =~= PlainRam::write_model(old(self).bytes@, addr, data));
        }
    }
}

/// The CPU engine: the register file, the cartridge, the injected
/// address-space collaborator, the interrupt/halt/stop placeholders, and
/// the cycle counter.
pub struct Cpu<M: AddressSpace> {
    /// The register file.
    pub registers: Registers,
    /// The cartridge whose banks serve addresses below 0x8000.
    pub cartridge: Cartridge,
    /// The collaborator serving addresses at and above 0x8000.
    pub addr_space: M,
    /// Interrupt-enable placeholder; only toggled, never consulted.
    pub ime: bool,
    /// Halt placeholder; set by the halt instruction.
    pub halted: bool,
    /// Stop placeholder; set by the stop instruction.
    pub stopped: bool,
    /// Cycles spent so far, wrapping on overflow.
    pub cycles_passed: u64,
}

/// The machine state one step works on: the ROM bytes, the selected
/// switchable bank, the collaborator, the register file, and the
/// placeholder and cycle state.
pub ghost struct Mach<M: AddressSpace> {
    /// The cartridge ROM bytes.
    pub rom: Seq<u8>,
    /// Index of the selected switchable bank.
    pub bank: int,
    /// The collaborator's abstract state.
    pub mem: M::Model,
    /// The register file.
    pub regs: Registers,
    /// Interrupt-enable placeholder.
    pub ime: bool,
    /// Halt placeholder.
    pub halted: bool,
    /// Stop placeholder.
    pub stopped: bool,
    /// Cycles spent so far.
    pub cycles: u64,
}

/// The byte the bus returns at `addr`: bank 0 below 0x4000, the selected
/// switchable bank up to 0x8000, and the collaborator above.
pub open spec fn mread<M: AddressSpace>(m: Mach<M>, addr: u16) -> u8 {
    if addr < 0x4000 {
        m.rom[addr as int]
    } else if addr < 0x8000 {
        m.rom[m.bank * (BANK_SIZE as int) + (addr - 0x4000)]
    } else {
        M::read_model(m.mem, addr)
    }
}

/// The machine after the bus writes `data` at `addr`: into bank 0 below
/// 0x4000, into the selected switchable bank up to 0x8000, and through
/// the collaborator above.
pub open spec fn mwrite<M: AddressSpace>(m: Mach<M>, addr: u16, data: u8) -> Mach<M> {
    if addr < 0x4000 {
        Mach { rom: m.rom.update(addr as int, data), ..m }
    } else if addr < 0x8000 {
        Mach { rom: m.rom.update(m.bank * (BANK_SIZE as int) + (addr - 0x4000), data), ..m }
    } else {
        Mach { mem: M::write_model(m.mem, addr, data), ..m }
    }
}

/// The machine with a new register file.
pub open spec fn with_regs<M: AddressSpace>(m: Mach<M>, regs: Registers) -> Mach<M> {
    Mach { regs, ..m }
}

/// The machine with `n` more cycles spent, wrapping.
pub open spec fn bump<M: AddressSpace>(m: Mach<M>, n: u64) -> Mach<M> {
    Mach { cycles: m.cycles.wrapping_add(n), ..m }
}

/// The cycle cost of a conditional instruction: the not-taken cost when
/// the branch is not taken and the table carries one, else the full
/// cost.
pub open spec fn cycle_cost(taken: bool, cyc: u64, cyc_nb: u64) -> u64 {
    if taken || cyc_nb == 0 {
        cyc
    } else {
        cyc_nb
    }
}

/// One byte fetched at the program counter, and the machine with the
/// program counter moved past it.
pub open spec fn spec_fetch<M: AddressSpace>(m: Mach<M>) -> (u8, Mach<M>) {
    (
        mread(m, m.regs.pc),
        with_regs(m, Registers { pc: m.regs.pc.wrapping_add(1), ..m.regs }),
    )
}

/// A 16-bit immediate fetched little-endian at the program counter, and
/// the machine with the program counter moved past both bytes.
pub open spec fn spec_fetch16<M: AddressSpace>(m: Mach<M>) -> (u16, Mach<M>) {
    let lo = mread(m, m.regs.pc);
    let hi = mread(m, m.regs.pc.wrapping_add(1));
    (
        (hi * 256 + lo) as u16,
        with_regs(m, Registers { pc: m.regs.pc.wrapping_add(2), ..m.regs }),
    )
}

/// Whether `cond` holds of the current flags.
pub open spec fn spec_condition(f: Flags, cond: Condition) -> bool {
    match cond {
        Condition::Zero => f.zero,
        Condition::NotZero => !f.zero,
        Condition::Carry => f.carry,
        Condition::NotCarry => !f.carry,
        Condition::Unconditional => true,
    }
}

/// The machine after pushing `value`: the stack pointer is decremented
/// before each byte, the high byte is written first, and the pointer
/// ends two lower, all wrapping.
pub open spec fn spec_push<M: AddressSpace>(m: Mach<M>, value: u16) -> Mach<M> {
    let sp1 = m.regs.sp.wrapping_sub(1);
    let m1 = mwrite(m, sp1, (value / 256) as u8);
    let sp2 = sp1.wrapping_sub(1);
    let m2 = mwrite(m1, sp2, (value % 256) as u8);
    with_regs(m2, Registers { sp: sp2, ..m.regs })
}

/// The value popped from the stack — low byte at the stack pointer, high
/// byte above it — and the machine with the pointer moved up by two,
/// wrapping.
pub open spec fn spec_pop<M: AddressSpace>(m: Mach<M>) -> (u16, Mach<M>) {
    let lo = mread(m, m.regs.sp);
    let hi = mread(m, m.regs.sp.wrapping_add(1));
    (
        (hi * 256 + lo) as u16,
        with_regs(m, Registers { sp: m.regs.sp.wrapping_add(2), ..m.regs }),
    )
}

/// An 8-bit operand read: the value (or the bad-argument error for an
/// encoding that cannot be read) and the machine after any immediate
/// fetches and post-increment or post-decrement of HL.
pub open spec fn spec_read_op8<M: AddressSpace>(m: Mach<M>, src: Op8) -> (
    Result<u8, CpuError>,
    Mach<M>,
) {
    match src {
        Op8::A => (Ok(m.regs.a), m),
        Op8::B => (Ok(m.regs.bc.hi), m),
        Op8::C => (Ok(m.regs.bc.lo), m),
        Op8::D => (Ok(m.regs.de.hi), m),
        Op8::E => (Ok(m.regs.de.lo), m),
        Op8::H => (Ok(m.regs.hl.hi), m),
        Op8::L => (Ok(m.regs.hl.lo), m),
        Op8::U8 => {
            let (b, m1) = spec_fetch(m);
            (Ok(b), m1)
        },
        Op8::I8 => (Err(CpuError::BadArgument), m),
        Op8::AddrU16 => {
            let (addr, m1) = spec_fetch16(m);
            (Ok(mread(m1, addr)), m1)
        },
        Op8::AddrBC => (Ok(mread(m, m.regs.bc.spec_both())), m),
        Op8::AddrDE => (Ok(mread(m, m.regs.de.spec_both())), m),
        Op8::AddrHL => (Ok(mread(m, m.regs.hl.spec_both())), m),
        Op8::AddrHLInc => (
            Ok(mread(m, m.regs.hl.spec_both())),
            with_regs(
                m,
                Registers {
                    hl: spec_pair_from(m.regs.hl.spec_both().wrapping_add(1)),
                    ..m.regs
                },
            ),
        ),
        Op8::AddrHLDec => (
            Ok(mread(m, m.regs.hl.spec_both())),
            with_regs(
                m,
                Registers {
                    hl: spec_pair_from(m.regs.hl.spec_both().wrapping_sub(1)),
                    ..m.regs
                },
            ),
        ),
        Op8::LowAddrC => (Ok(mread(m, (0xFF00 + m.regs.bc.lo) as u16)), m),
        Op8::LowAddrU8 => {
            let (b, m1) = spec_fetch(m);
            (Ok(mread(m1, (0xFF00 + b) as u16)), m1)
        },
    }
}

/// An 8-bit operand write of `data`: the unit result (or the
/// bad-argument error for an encoding that cannot be written) and the
/// machine after any immediate fetches, the write itself, and
/// post-increment or post-decrement of HL.
pub open spec fn spec_write_op8<M: AddressSpace>(m: Mach<M>, target: Op8, data: u8) -> (
    Result<(), CpuError>,
    Mach<M>,
) {
    match target {
        Op8::A => (Ok(()), with_regs(m, Registers { a: data, ..m.regs })),
        Op8::B => (
            Ok(()),
            with_regs(m, Registers { bc: RegisterPair { hi: data, ..m.regs.bc }, ..m.regs }),
        ),
        Op8::C => (
            Ok(()),
            with_regs(m, Registers { bc: RegisterPair { lo: data, ..m.regs.bc }, ..m.regs }),
        ),
        Op8::D => (
            Ok(()),
            with_regs(m, Registers { de: RegisterPair { hi: data, ..m.regs.de }, ..m.regs }),
        ),
        Op8::E => (
            Ok(()),
            with_regs(m, Registers { de: RegisterPair { lo: data, ..m.regs.de }, ..m.regs }),
        ),
        Op8::H => (
            Ok(()),
            with_regs(m, Registers { hl: RegisterPair { hi: data, ..m.regs.hl }, ..m.regs }),
        ),
        Op8::L => (
            Ok(()),
            with_regs(m, Registers { hl: RegisterPair { lo: data, ..m.regs.hl }, ..m.regs }),
        ),
        Op8::U8 => (Err(CpuError::BadArgument), m),
        Op8::I8 => (Err(CpuError::BadArgument), m),
        Op8::AddrU16 => {
            let (addr, m1) = spec_fetch16(m);
            (Ok(()), mwrite(m1, addr, data))
        },
        Op8::AddrBC => (Ok(()), mwrite(m, m.regs.bc.spec_both(), data)),
        Op8::AddrDE => (Ok(()), mwrite(m, m.regs.de.spec_both(), data)),
        Op8::AddrHL => (Ok(()), mwrite(m, m.regs.hl.spec_both(), data)),
        Op8::AddrHLInc => (
            Ok(()),
            with_regs(
                mwrite(m, m.regs.hl.spec_both(), data),
                Registers {
                    hl: spec_pair_from(m.regs.hl.spec_both().wrapping_add(1)),
                    ..m.regs
                },
            ),
        ),
        Op8::AddrHLDec => (
            Ok(()),
            with_regs(
                mwrite(m, m.regs.hl.spec_both(), data),
                Registers {
                    hl: spec_pair_from(m.regs.hl.spec_both().wrapping_sub(1)),
                    ..m.regs
                },
            ),
        ),
        Op8::LowAddrC => (Ok(()), mwrite(m, (0xFF00 + m.regs.bc.lo) as u16, data)),
        Op8::LowAddrU8 => {
            let (b, m1) = spec_fetch(m);
            (Ok(()), mwrite(m1, (0xFF00 + b) as u16, data))
        },
    }
}

/// A 16-bit load: resolve the source (immediate, HL, or stack pointer
/// plus signed displacement), then store into the target register.
#[verifier::opaque]
pub open spec fn step_ld16<M: AddressSpace>(m: Mach<M>, target: Op16, source: Op16, cyc: u64) -> (
    Mach<M>,
    Result<(), CpuError>,
) {
    let (res, m1) = match source {
        Op16::U16 => {
            let (v, m1) = spec_fetch16(m);
            (Ok(v), m1)
        },
        Op16::HL => (Ok(m.regs.hl.spec_both()), m),
        Op16::SPPlusI8 => {
            let (d, m1) = spec_fetch(m);
            (Ok(m.regs.sp.wrapping_add(alu::spec_sign_ext(d))), m1)
        },
        _ => (Err(CpuError::BadArgument), m),
    };
    match res {
        Err(e) => (m1, Err(e)),
        Ok(v) => match target {
            Op16::SP => (bump(with_regs(m1, Registers { sp: v, ..m1.regs }), cyc), Ok(())),
            Op16::BC => (
                bump(with_regs(m1, Registers { bc: spec_pair_from(v), ..m1.regs }), cyc),
                Ok(()),
            ),
            Op16::DE => (
                bump(with_regs(m1, Registers { de: spec_pair_from(v), ..m1.regs }), cyc),
                Ok(()),
            ),
            Op16::HL => (
                bump(with_regs(m1, Registers { hl: spec_pair_from(v), ..m1.regs }), cyc),
                Ok(()),
            ),
            _ => (m1, Err(CpuError::BadArgument)),
        },
    }
}

/// An 8-bit load: read the source operand, then write it into the
/// target operand.
#[verifier::opaque]
pub open spec fn step_ld8<M: AddressSpace>(m: Mach<M>, target: Op8, source: Op8, cyc: u64) -> (
    Mach<M>,
    Result<(), CpuError>,
) {
    let (rd, m1) = spec_read_op8(m, source);
    match rd {
        Err(e) => (m1, Err(e)),
        Ok(d) => {
            let (wr, m2) = spec_write_op8(m1, target, d);
            match wr {
                Err(e) => (m2, Err(e)),
                Ok(u) => (bump(m2, cyc), Ok(())),
            }
        },
    }
}

/// Store the stack pointer at an immediate address, low byte first.
#[verifier::opaque]
pub open spec fn step_ld_sp_addr<M: AddressSpace>(m: Mach<M>, cyc: u64) -> (
    Mach<M>,
    Result<(), CpuError>,
) {
    let (addr, m1) = spec_fetch16(m);
    let m2 = mwrite(m1, addr, (m.regs.sp % 256) as u8);
    let m3 = mwrite(m2, addr.wrapping_add(1), (m.regs.sp / 256) as u8);
    (bump(m3, cyc), Ok(()))
}

/// An 8-bit increment of the target operand, with the addition flag
/// rules applied to adding one.
#[verifier::opaque]
pub open spec fn step_inc8<M: AddressSpace>(m: Mach<M>, target: Op8, cyc: u64) -> (
    Mach<M>,
    Result<(), CpuError>,
) {
    let (rd, m1) = spec_read_op8(m, target);
    match rd {
        Err(e) => (m1, Err(e)),
        Ok(v) => {
            let t = alu::spec_add8(v, 1, false);
            let (wr, m2) = spec_write_op8(m1, target, t.0);
            match wr {
                Err(e) => (m2, Err(e)),
                Ok(u) => (
                    bump(
                        with_regs(
                            m2,
                            Registers { flags: spec_flags(t.1, t.2, t.3, t.4), ..m2.regs },
                        ),
                        cyc,
                    ),
                    Ok(()),
                ),
            }
        },
    }
}

/// An 8-bit decrement of the target operand, with the subtraction flag
/// rules applied to subtracting one.
#[verifier::opaque]
pub open spec fn step_dec8<M: AddressSpace>(m: Mach<M>, target: Op8, cyc: u64) -> (
    Mach<M>,
    Result<(), CpuError>,
) {
    let (rd, m1) = spec_read_op8(m, target);
    match rd {
        Err(e) => (m1, Err(e)),
        Ok(v) => {
            let t = alu::spec_sub8(v, 1, false);
            let (wr, m2) = spec_write_op8(m1, target, t.0);
            match wr {
                Err(e) => (m2, Err(e)),
                Ok(u) => (
                    bump(
                        with_regs(
                            m2,
                            Registers { flags: spec_flags(t.1, t.2, t.3, t.4), ..m2.regs },
                        ),
                        cyc,
                    ),
                    Ok(()),
                ),
            }
        },
    }
}

/// A 16-bit increment, wrapping, touching no flags.
#[verifier::opaque]
pub open spec fn step_inc16<M: AddressSpace>(m: Mach<M>, target: Op16, cyc: u64) -> (
    Mach<M>,
    Result<(), CpuError>,
) {
    match target {
        Op16::SP => (
            bump(with_regs(m, Registers { sp: m.regs.sp.wrapping_add(1), ..m.regs }), cyc),
            Ok(()),
        ),
        Op16::BC => (
            bump(
                with_regs(
                    m,
                    Registers {
                        bc: spec_pair_from(m.regs.bc.spec_both().wrapping_add(1)),
                        ..m.regs
                    },
                ),
                cyc,
            ),
            Ok(()),
        ),
        Op16::DE => (
            bump(
                with_regs(
                    m,
                    Registers {
                        de: spec_pair_from(m.regs.de.spec_both().wrapping_add(1)),
                        ..m.regs
                    },
                ),
                cyc,
            ),
            Ok(()),
        ),
        Op16::HL => (
            bump(
                with_regs(
                    m,
                    Registers {
                        hl: spec_pair_from(m.regs.hl.spec_both().wrapping_add(1)),
                        ..m.regs
                    },
                ),
                cyc,
            ),
            Ok(()),
        ),
        _ => (m, Err(CpuError::BadArgument)),
    }
}

/// A 16-bit decrement, wrapping, touching no flags.
#[verifier::opaque]
pub open spec fn step_dec16<M: AddressSpace>(m: Mach<M>, target: Op16, cyc: u64) -> (
    Mach<M>,
    Result<(), CpuError>,
) {
    match target {
        Op16::SP => (
            bump(with_regs(m, Registers { sp: m.regs.sp.wrapping_sub(1), ..m.regs }), cyc),
            Ok(()),
        ),
        Op16::BC => (
            bump(
                with_regs(
                    m,
                    Registers {
                        bc: spec_pair_from(m.regs.bc.spec_both().wrapping_sub(1)),
                        ..m.regs
                    },
                ),
                cyc,
            ),
            Ok(()),
        ),
        Op16::DE => (
            bump(
                with_regs(
                    m,
                    Registers {
                        de: spec_pair_from(m.regs.de.spec_both().wrapping_sub(1)),
                        ..m.regs
                    },
                ),
                cyc,
            ),
            Ok(()),
        ),
        Op16::HL => (
            bump(
                with_regs(
                    m,
                    Registers {
                        hl: spec_pair_from(m.regs.hl.spec_both().wrapping_sub(1)),
                        ..m.regs
                    },
                ),
                cyc,
            ),
            Ok(()),
        ),
        _ => (m, Err(CpuError::BadArgument)),
    }
}

/// A 16-bit add into HL, with half-carry out of bit 11 and carry out of
/// bit 15.
#[verifier::opaque]
pub open spec fn step_add16<M: AddressSpace>(m: Mach<M>, source: Op16, cyc: u64) -> (
    Mach<M>,
    Result<(), CpuError>,
) {
    let rhs = match source {
        Op16::SP => Ok(m.regs.sp),
        Op16::BC => Ok(m.regs.bc.spec_both()),
        Op16::DE => Ok(m.regs.de.spec_both()),
        Op16::HL => Ok(m.regs.hl.spec_both()),
        _ => Err(CpuError::BadArgument),
    };
    match rhs {
        Err(e) => (m, Err(e)),
        Ok(v) => {
            let t = alu::spec_add16(m.regs.hl.spec_both(), v);
            (
                bump(
                    with_regs(
                        m,
                        Registers {
                            hl: spec_pair_from(t.0),
                            flags: spec_flags(t.0 == 0, false, t.1, t.2),
                            ..m.regs
                        },
                    ),
                    cyc,
                ),
                Ok(()),
            )
        },
    }
}

/// One accumulator operation against a source operand.
#[verifier::opaque]
pub open spec fn step_alu8<M: AddressSpace>(m: Mach<M>, op: AluOp, source: Op8, cyc: u64) -> (
    Mach<M>,
    Result<(), CpuError>,
) {
    let (rd, m1) = spec_read_op8(m, source);
    match rd {
        Err(e) => (m1, Err(e)),
        Ok(d) => {
            let t = alu::spec_alu8(op, m.regs.a, d, m.regs.flags.carry);
            (
                bump(
                    with_regs(
                        m1,
                        Registers { a: t.0, flags: spec_flags(t.1, t.2, t.3, t.4), ..m1.regs },
                    ),
                    cyc,
                ),
                Ok(()),
            )
        },
    }
}

/// Add a signed immediate displacement into the stack pointer, with the
/// 16-bit flag rules.
#[verifier::opaque]
pub open spec fn step_add_sp_i8<M: AddressSpace>(m: Mach<M>, cyc: u64) -> (
    Mach<M>,
    Result<(), CpuError>,
) {
    let (d, m1) = spec_fetch(m);
    let t = alu::spec_add16(m.regs.sp, alu::spec_sign_ext(d));
    (
        bump(
            with_regs(
                m1,
                Registers { sp: t.0, flags: spec_flags(t.0 == 0, false, t.1, t.2), ..m1.regs },
            ),
            cyc,
        ),
        Ok(()),
    )
}

/// A relative jump: the displacement is fetched first, then the program
/// counter moves by it only when the condition holds.
#[verifier::opaque]
pub open spec fn step_jr<M: AddressSpace>(m: Mach<M>, cond: Condition, cyc: u64, cyc_nb: u64) -> (
    Mach<M>,
    Result<(), CpuError>,
) {
    let (d, m1) = spec_fetch(m);
    let taken = spec_condition(m.regs.flags, cond);
    let m2 = if taken {
        with_regs(
            m1,
            Registers { pc: m1.regs.pc.wrapping_add(alu::spec_sign_ext(d)), ..m1.regs },
        )
    } else {
        m1
    };
    (bump(m2, cycle_cost(taken, cyc, cyc_nb)), Ok(()))
}

/// An absolute jump to an immediate address or to HL, taken only when
/// the condition holds.
#[verifier::opaque]
pub open spec fn step_jp<M: AddressSpace>(
    m: Mach<M>,
    cond: Condition,
    source: Op16,
    cyc: u64,
    cyc_nb: u64,
) -> (Mach<M>, Result<(), CpuError>) {
    let (res, m1) = match source {
        Op16::U16 => {
            let (v, m1) = spec_fetch16(m);
            (Ok(v), m1)
        },
        Op16::HL => (Ok(m.regs.hl.spec_both()), m),
        _ => (Err(CpuError::BadArgument), m),
    };
    match res {
        Err(e) => (m1, Err(e)),
        Ok(addr) => {
            let taken = spec_condition(m.regs.flags, cond);
            let m2 = if taken {
                with_regs(m1, Registers { pc: addr, ..m1.regs })
            } else {
                m1
            };
            (bump(m2, cycle_cost(taken, cyc, cyc_nb)), Ok(()))
        },
    }
}

/// A return: when the condition holds, pop an address into the program
/// counter.
#[verifier::opaque]
pub open spec fn step_ret<M: AddressSpace>(m: Mach<M>, cond: Condition, cyc: u64, cyc_nb: u64) -> (
    Mach<M>,
    Result<(), CpuError>,
) {
    let taken = spec_condition(m.regs.flags, cond);
    let m2 = if taken {
        let (v, m1) = spec_pop(m);
        with_regs(m1, Registers { pc: v, ..m1.regs })
    } else {
        m
    };
    (bump(m2, cycle_cost(taken, cyc, cyc_nb)), Ok(()))
}

/// A call: the target address is fetched first; when the condition
/// holds, the address of the following instruction is pushed and the
/// program counter jumps.
#[verifier::opaque]
pub open spec fn step_call<M: AddressSpace>(m: Mach<M>, cond: Condition, cyc: u64, cyc_nb: u64) -> (
    Mach<M>,
    Result<(), CpuError>,
) {
    let (addr, m1) = spec_fetch16(m);
    let taken = spec_condition(m.regs.flags, cond);
    let m2 = if taken {
        let mp = spec_push(m1, m1.regs.pc);
        with_regs(mp, Registers { pc: addr, ..mp.regs })
    } else {
        m1
    };
    (bump(m2, cycle_cost(taken, cyc, cyc_nb)), Ok(()))
}

/// Push a register pair, the combined accumulator-and-flags view
/// included.
#[verifier::opaque]
pub open spec fn step_push<M: AddressSpace>(m: Mach<M>, target: Op16, cyc: u64) -> (
    Mach<M>,
    Result<(), CpuError>,
) {
    let v = match target {
        Op16::BC => Ok(m.regs.bc.spec_both()),
        Op16::DE => Ok(m.regs.de.spec_both()),
        Op16::HL => Ok(m.regs.hl.spec_both()),
        Op16::AF => Ok(m.regs.spec_af()),
        _ => Err(CpuError::BadArgument),
    };
    match v {
        Err(e) => (m, Err(e)),
        Ok(v) => (bump(spec_push(m, v), cyc), Ok(())),
    }
}

/// Pop a 16-bit value into a register pair, the combined
/// accumulator-and-flags view included.
#[verifier::opaque]
pub open spec fn step_pop<M: AddressSpace>(m: Mach<M>, target: Op16, cyc: u64) -> (
    Mach<M>,
    Result<(), CpuError>,
) {
    let (v, m1) = spec_pop(m);
    match target {
        Op16::BC => (
            bump(with_regs(m1, Registers { bc: spec_pair_from(v), ..m1.regs }), cyc),
            Ok(()),
        ),
        Op16::DE => (
            bump(with_regs(m1, Registers { de: spec_pair_from(v), ..m1.regs }), cyc),
            Ok(()),
        ),
        Op16::HL => (
            bump(with_regs(m1, Registers { hl: spec_pair_from(v), ..m1.regs }), cyc),
            Ok(()),
        ),
        Op16::AF => (
            bump(
                with_regs(
                    m1,
                    Registers {
                        a: (v / 256) as u8,
                        flags: Flags::spec_from_byte((v % 256) as u8),
                        ..m1.regs
                    },
                ),
                cyc,
            ),
            Ok(()),
        ),
        _ => (m1, Err(CpuError::BadArgument)),
    }
}

/// An unconditional call to one of the eight fixed restart vectors.
#[verifier::opaque]
pub open spec fn step_rst<M: AddressSpace>(m: Mach<M>, vector: u16, cyc: u64) -> (
    Mach<M>,
    Result<(), CpuError>,
) {
    let mp = spec_push(m, m.regs.pc);
    (bump(with_regs(mp, Registers { pc: vector, ..mp.regs }), cyc), Ok(()))
}

/// The binary-coded-decimal correction of the accumulator.
#[verifier::opaque]
pub open spec fn step_daa<M: AddressSpace>(m: Mach<M>, cyc: u64) -> (Mach<M>, Result<(), CpuError>) {
    let t = alu::spec_daa(m.regs.a, m.regs.flags.neg, m.regs.flags.half_carry, m.regs.flags.carry);
    (
        bump(
            with_regs(
                m,
                Registers {
                    a: t.0,
                    flags: Flags {
                        zero: t.0 == 0,
                        neg: m.regs.flags.neg,
                        half_carry: false,
                        carry: t.1,
                    },
                    ..m.regs
                },
            ),
            cyc,
        ),
        Ok(()),
    )
}

/// One of the four accumulator rotate shortcuts.
#[verifier::opaque]
pub open spec fn step_rot_a<M: AddressSpace>(m: Mach<M>, kind: ShiftKind, cyc: u64) -> (
    Mach<M>,
    Result<(), CpuError>,
) {
    let t = alu::spec_shift(kind, m.regs.a, m.regs.flags.carry);
    (
        bump(
            with_regs(
                m,
                Registers { a: t.0, flags: spec_flags(t.0 == 0, false, false, t.1), ..m.regs },
            ),
            cyc,
        ),
        Ok(()),
    )
}

/// A prefix-escape shift, rotate or nibble swap of an operand: the bit
/// shifted out becomes the carry, zero comes from the result, and
/// negative and half-carry clear.
#[verifier::opaque]
pub open spec fn step_shift<M: AddressSpace>(m: Mach<M>, kind: ShiftKind, target: Op8, cyc: u64) -> (
    Mach<M>,
    Result<(), CpuError>,
) {
    let (rd, m1) = spec_read_op8(m, target);
    match rd {
        Err(e) => (m1, Err(e)),
        Ok(v) => {
            let t = alu::spec_shift(kind, v, m.regs.flags.carry);
            let (wr, m2) = spec_write_op8(m1, target, t.0);
            match wr {
                Err(e) => (m2, Err(e)),
                Ok(u) => (
                    bump(
                        with_regs(
                            m2,
                            Registers {
                                flags: spec_flags(t.0 == 0, false, false, t.1),
                                ..m2.regs
                            },
                        ),
                        cyc,
                    ),
                    Ok(()),
                ),
            }
        },
    }
}

/// A bit test: zero is set when the tested bit is clear, half-carry is
/// set, negative clears, carry is untouched, and nothing else changes.
#[verifier::opaque]
pub open spec fn step_bit<M: AddressSpace>(m: Mach<M>, bit: u8, target: Op8, cyc: u64) -> (
    Mach<M>,
    Result<(), CpuError>,
) {
    let (rd, m1) = spec_read_op8(m, target);
    match rd {
        Err(e) => (m1, Err(e)),
        Ok(v) => (
            bump(
                with_regs(
                    m1,
                    Registers {
                        flags: Flags {
                            zero: !spec_get_bit(v, bit),
                            neg: false,
                            half_carry: true,
                            carry: m.regs.flags.carry,
                        },
                        ..m1.regs
                    },
                ),
                cyc,
            ),
            Ok(()),
        ),
    }
}

/// A bit set or bit clear of an operand, touching no flags.
#[verifier::opaque]
pub open spec fn step_setres<M: AddressSpace>(
    m: Mach<M>,
    bit: u8,
    target: Op8,
    val: bool,
    cyc: u64,
) -> (Mach<M>, Result<(), CpuError>) {
    let (rd, m1) = spec_read_op8(m, target);
    match rd {
        Err(e) => (m1, Err(e)),
        Ok(v) => {
            let (wr, m2) = spec_write_op8(m1, target, spec_set_bit(v, bit, val));
            match wr {
                Err(e) => (m2, Err(e)),
                Ok(u) => (bump(m2, cyc), Ok(())),
            }
        },
    }
}

/// The prefix escape: fetch the second opcode byte and run the prefixed
/// instruction it decodes to.
#[verifier::opaque]
pub open spec fn step_prefix<M: AddressSpace>(m: Mach<M>) -> (Mach<M>, Result<(), CpuError>) {
    let (op2, m1) = spec_fetch(m);
    let dec = opcode::spec_lookup_prefixed(op2);
    match dec.0 {
        OpcodePrefixed::Rlc(t) => step_shift(m1, ShiftKind::Rlc, t, dec.1),
        OpcodePrefixed::Rrc(t) => step_shift(m1, ShiftKind::Rrc, t, dec.1),
        OpcodePrefixed::Rl(t) => step_shift(m1, ShiftKind::Rl, t, dec.1),
        OpcodePrefixed::Rr(t) => step_shift(m1, ShiftKind::Rr, t, dec.1),
        OpcodePrefixed::Sla(t) => step_shift(m1, ShiftKind::Sla, t, dec.1),
        OpcodePrefixed::Sra(t) => step_shift(m1, ShiftKind::Sra, t, dec.1),
        OpcodePrefixed::Swap(t) => step_shift(m1, ShiftKind::Swap, t, dec.1),
        OpcodePrefixed::Srl(t) => step_shift(m1, ShiftKind::Srl, t, dec.1),
        OpcodePrefixed::Bit(b, t) => step_bit(m1, b, t, dec.1),
        OpcodePrefixed::ResBit(b, t) => step_setres(m1, b, t, false, dec.1),
        OpcodePrefixed::SetBit(b, t) => step_setres(m1, b, t, true, dec.1),
    }
}

/// No operation: only the cycle counter moves.
#[verifier::opaque]
pub open spec fn step_nop<M: AddressSpace>(m: Mach<M>, cyc: u64) -> (Mach<M>, Result<(), CpuError>) {
    (bump(m, cyc), Ok(()))
}

/// Stop: set the stop placeholder.
#[verifier::opaque]
pub open spec fn step_stop<M: AddressSpace>(m: Mach<M>, cyc: u64) -> (Mach<M>, Result<(), CpuError>) {
    (bump(Mach { stopped: true, ..m }, cyc), Ok(()))
}

/// Halt: set the halt placeholder.
#[verifier::opaque]
pub open spec fn step_halt<M: AddressSpace>(m: Mach<M>, cyc: u64) -> (Mach<M>, Result<(), CpuError>) {
    (bump(Mach { halted: true, ..m }, cyc), Ok(()))
}

/// Complement the accumulator, touching no flags.
#[verifier::opaque]
pub open spec fn step_cpl<M: AddressSpace>(m: Mach<M>, cyc: u64) -> (Mach<M>, Result<(), CpuError>) {
    (bump(with_regs(m, Registers { a: !m.regs.a, ..m.regs }), cyc), Ok(()))
}

/// Set the carry flag.
#[verifier::opaque]
pub open spec fn step_scf<M: AddressSpace>(m: Mach<M>, cyc: u64) -> (Mach<M>, Result<(), CpuError>) {
    (
        bump(
            with_regs(m, Registers { flags: Flags { carry: true, ..m.regs.flags }, ..m.regs }),
            cyc,
        ),
        Ok(()),
    )
}

/// Complement the carry flag.
#[verifier::opaque]
pub open spec fn step_ccf<M: AddressSpace>(m: Mach<M>, cyc: u64) -> (Mach<M>, Result<(), CpuError>) {
    (
        bump(
            with_regs(
                m,
                Registers {
                    flags: Flags { carry: !m.regs.flags.carry, ..m.regs.flags },
                    ..m.regs
                },
            ),
            cyc,
        ),
        Ok(()),
    )
}

/// Disable the interrupt placeholder.
#[verifier::opaque]
pub open spec fn step_di<M: AddressSpace>(m: Mach<M>, cyc: u64) -> (Mach<M>, Result<(), CpuError>) {
    (bump(Mach { ime: false, ..m }, cyc), Ok(()))
}

/// Enable the interrupt placeholder.
#[verifier::opaque]
pub open spec fn step_ei<M: AddressSpace>(m: Mach<M>, cyc: u64) -> (Mach<M>, Result<(), CpuError>) {
    (bump(Mach { ime: true, ..m }, cyc), Ok(()))
}

/// Return and enable the interrupt placeholder.
#[verifier::opaque]
pub open spec fn step_reti<M: AddressSpace>(m: Mach<M>, cyc: u64) -> (Mach<M>, Result<(), CpuError>) {
    let (v, m1) = spec_pop(m);
    (bump(Mach { ime: true, ..with_regs(m1, Registers { pc: v, ..m1.regs }) }, cyc), Ok(()))
}

/// One whole instruction step: fetch the opcode at the program counter,
/// decode it in the base table, and run the decoded variant; the prefix
/// escape fetches and runs a second-table instruction instead. An
/// illegal opcode changes nothing beyond the fetch and reports the
/// offending byte.
pub open spec fn spec_step<M: AddressSpace>(m0: Mach<M>) -> (Mach<M>, Result<(), CpuError>) {
    let (op, m) = spec_fetch(m0);
    step_decoded(m, op)
}

/// The effect of the already-fetched opcode `op` on the machine `m`.
pub open spec fn step_decoded<M: AddressSpace>(m: Mach<M>, op: u8) -> (
    Mach<M>,
    Result<(), CpuError>,
) {
    let dec = opcode::spec_lookup(op);
    let cyc = dec.1;
    let cyc_nb = dec.2;
    match dec.0 {
        OpcodeUnprefixed::Nop => step_nop(m, cyc),
        OpcodeUnprefixed::Ld16(t, s) => step_ld16(m, t, s, cyc),
        OpcodeUnprefixed::Ld8(t, s) => step_ld8(m, t, s, cyc),
        OpcodeUnprefixed::LdU16StackAddr => step_ld_sp_addr(m, cyc),
        OpcodeUnprefixed::Inc8(t) => step_inc8(m, t, cyc),
        OpcodeUnprefixed::Inc16(t) => step_inc16(m, t, cyc),
        OpcodeUnprefixed::Dec8(t) => step_dec8(m, t, cyc),
        OpcodeUnprefixed::Dec16(t) => step_dec16(m, t, cyc),
        OpcodeUnprefixed::Add16(s) => step_add16(m, s, cyc),
        OpcodeUnprefixed::Add8(s) => step_alu8(m, AluOp::Add, s, cyc),
        OpcodeUnprefixed::AddI8SP => step_add_sp_i8(m, cyc),
        OpcodeUnprefixed::Stop => step_stop(m, cyc),
        OpcodeUnprefixed::Halt => step_halt(m, cyc),
        OpcodeUnprefixed::Jp(c, s) => step_jp(m, c, s, cyc, cyc_nb),
        OpcodeUnprefixed::Jr(c) => step_jr(m, c, cyc, cyc_nb),
        OpcodeUnprefixed::Ret(c) => step_ret(m, c, cyc, cyc_nb),
        OpcodeUnprefixed::Rlca => step_rot_a(m, ShiftKind::Rlc, cyc),
        OpcodeUnprefixed::Rrca => step_rot_a(m, ShiftKind::Rrc, cyc),
        OpcodeUnprefixed::Rla => step_rot_a(m, ShiftKind::Rl, cyc),
        OpcodeUnprefixed::Rra => step_rot_a(m, ShiftKind::Rr, cyc),
        OpcodeUnprefixed::Daa => step_daa(m, cyc),
        OpcodeUnprefixed::Cpl => step_cpl(m, cyc),
        OpcodeUnprefixed::Scf => step_scf(m, cyc),
        OpcodeUnprefixed::Ccf => step_ccf(m, cyc),
        OpcodeUnprefixed::Adc(s) => step_alu8(m, AluOp::Adc, s, cyc),
        OpcodeUnprefixed::Sub(s) => step_alu8(m, AluOp::Sub, s, cyc),
        OpcodeUnprefixed::Sbc(s) => step_alu8(m, AluOp::Sbc, s, cyc),
        OpcodeUnprefixed::And(s) => step_alu8(m, AluOp::And, s, cyc),
        OpcodeUnprefixed::Xor(s) => step_alu8(m, AluOp::Xor, s, cyc),
        OpcodeUnprefixed::Or(s) => step_alu8(m, AluOp::Or, s, cyc),
        OpcodeUnprefixed::Cp(s) => step_alu8(m, AluOp::Cp, s, cyc),
        OpcodeUnprefixed::Pop(t) => step_pop(m, t, cyc),
        OpcodeUnprefixed::Call(c) => step_call(m, c, cyc, cyc_nb),
        OpcodeUnprefixed::Push(t) => step_push(m, t, cyc),
        OpcodeUnprefixed::Rst(v) => step_rst(m, v, cyc),
        OpcodeUnprefixed::Prefix => step_prefix(m),
        OpcodeUnprefixed::Reti => step_reti(m, cyc),
        OpcodeUnprefixed::Di => step_di(m, cyc),
        OpcodeUnprefixed::Ei => step_ei(m, cyc),
        OpcodeUnprefixed::Illegal => (m, Err(CpuError::IllegalOpcode(op))),
    }
}

/// Every bit index carried by a prefix-escape bit instruction is below
/// eight.
pub proof fn lemma_prefixed_bit_bound(op: u8)
    ensures
        match opcode::spec_lookup_prefixed(op).0 {
            OpcodePrefixed::Bit(b, t) => b < 8,
            OpcodePrefixed::ResBit(b, t) => b < 8,
            OpcodePrefixed::SetBit(b, t) => b < 8,
            _ => true,
        },
{
    reveal(opcode::spec_lookup_prefixed);
}

/// Whenever the byte at the program counter decodes to the no-operation
/// instruction, a step succeeds, advances the program counter by exactly
/// one, spends the instruction's cycles, and changes no register, flag,
/// memory byte or placeholder.
pub proof fn lemma_nop_changes_only_pc_and_cycles<M: AddressSpace>(m: Mach<M>)
    requires
        opcode::spec_lookup(mread(m, m.regs.pc)).0 == OpcodeUnprefixed::Nop,
    ensures
        ({
            let (m1, r) = spec_step(m);
            &&& r == Ok::<(), CpuError>(())
            &&& m1.regs == (Registers { pc: m.regs.pc.wrapping_add(1), ..m.regs })
            &&& m1.rom == m.rom
            &&& m1.bank == m.bank
            &&& m1.mem == m.mem
            &&& m1.ime == m.ime
            &&& m1.halted == m.halted
            &&& m1.stopped == m.stopped
            &&& m1.cycles == m.cycles.wrapping_add(
                opcode::spec_lookup(mread(m, m.regs.pc)).1,
            )
        }),
{
    reveal(step_nop);
}

/// Whenever the byte at the program counter decodes to the illegal
/// marker, a step reports that byte and changes nothing beyond the fetch
/// itself: the machine keeps every register but the advanced program
/// counter, and no memory byte or cycle moves.
pub proof fn lemma_illegal_opcode_reported<M: AddressSpace>(m: Mach<M>)
    requires
        opcode::spec_lookup(mread(m, m.regs.pc)).0 == OpcodeUnprefixed::Illegal,
    ensures
        ({
            let (m1, r) = spec_step(m);
            &&& r == Err::<(), CpuError>(CpuError::IllegalOpcode(mread(m, m.regs.pc)))
            &&& m1 == (Mach {
                regs: Registers { pc: m.regs.pc.wrapping_add(1), ..m.regs },
                ..m
            })
        }),
{
}

impl<M: AddressSpace> Cpu<M> {
    /// The engine is usable: its cartridge is well formed.
    pub open spec fn wf(self) -> bool {
        self.cartridge.wf()
    }

    /// The machine state a step works on.
    pub open spec fn mach(self) -> Mach<M> {
        Mach {
            rom: self.cartridge.rom@,
            bank: self.cartridge.cur_index as int,
            mem: self.addr_space.model(),
            regs: self.registers,
            ime: self.ime,
            halted: self.halted,
            stopped: self.stopped,
            cycles: self.cycles_passed,
        }
    }

    /// The cartridge identity that no step may change: name, header and
    /// bank layout.
    pub open spec fn cart_shape_eq(self, other: Cpu<M>) -> bool {
        &&& self.cartridge.file_name == other.cartridge.file_name
        &&& self.cartridge.header == other.cartridge.header
        &&& self.cartridge.num_banks == other.cartridge.num_banks
        &&& self.cartridge.cur_index == other.cartridge.cur_index
    }

    /// Build an engine around a cartridge and an address-space
    /// collaborator, with the documented post-boot register values.
    pub fn with_address_space(cartridge: Cartridge, addr_space: M) -> (r: Cpu<M>)
        requires
            cartridge.wf(),
        ensures
            r.wf(),
            r.cartridge == cartridge,
            r.addr_space == addr_space,
            r.registers == spec_boot_registers(),
            !r.ime && !r.halted && !r.stopped,
            r.cycles_passed == 0,
    {
        Cpu {
            registers: Registers::with_boot_values(),
            cartridge,
            addr_space,
            ime: false,
            halted: false,
            stopped: false,
            cycles_passed: 0,
        }
    }

    /// Read one byte through the address bus.
    fn read_byte(&self, addr: u16) -> (b: u8)
        requires
            self.wf(),
        ensures
            b == mread(self.mach(), addr),
    {
        let total = self.cartridge.rom.len();
        proof {
            vstd::arithmetic::mul::lemma_mul_inequality(
                1,
                self.cartridge.num_banks as int,
                BANK_SIZE as int,
            );
            vstd::arithmetic::mul::lemma_mul_inequality(
                self.cartridge.cur_index + 1,
                self.cartridge.num_banks as int,
                BANK_SIZE as int,
            );
            vstd::arithmetic::mul::lemma_mul_is_distributive_add_other_way(
                BANK_SIZE as int,
                self.cartridge.cur_index as int,
                1,
            );
            vstd::arithmetic::mul::lemma_mul_basics(BANK_SIZE as int);
        }
        if addr < 0x4000 {
            self.cartridge.rom[addr as usize]
        } else if addr < 0x8000 {
            let offset = (addr - 0x4000) as usize;
            self.cartridge.rom[self.cartridge.cur_index * BANK_SIZE + offset]
        } else {
            self.addr_space.read(addr)
        }
    }

    /// Fetch the byte at the program counter and move past it.
    fn read_next_u8(&mut self) -> (b: u8)
        requires
            old(self).wf(),
        ensures
            final(self).wf(),
            old(self).cart_shape_eq(*final(self)),
            (b, final(self).mach()) == spec_fetch(old(self).mach()),
    {
        let next_byte = self.read_byte(self.registers.pc);
        self.registers.pc = self.registers.pc.wrapping_add(1);
        next_byte
    }

    /// Fetch a 16-bit immediate little-endian and move past both bytes.
    fn read_next_u16(&mut self) -> (v: u16)
        requires
            old(self).wf(),
        ensures
            final(self).wf(),
            old(self).cart_shape_eq(*final(self)),
            (v, final(self).mach()) == spec_fetch16(old(self).mach()),
    {
        let low_bytes = self.read_next_u8();
        let high_bytes = self.read_next_u8();
        (high_bytes as u16) * 256 + (low_bytes as u16)
    }

    /// Write one byte through the address bus.
    fn write_byte(&mut self, addr: u16, data: u8)
        requires
            old(self).wf(),
        ensures
            final(self).wf(),
            old(self).cart_shape_eq(*final(self)),
            final(self).mach() == mwrite(old(self).mach(), addr, data),
    {
        if addr < 0x4000 {
            self.cartridge.bank0_mut(addr as usize, data);
        } else if addr < 0x8000 {
            self.cartridge.cur_bank_mut((addr - 0x4000) as usize, data);
        } else {
            self.addr_space.write(addr, data);
        }
    }

    /// Push a 16-bit value: decrement, write high, decrement, write low.
    fn push(&mut self, value: u16)
        requires
            old(self).wf(),
        ensures
            final(self).wf(),
            old(self).cart_shape_eq(*final(self)),
            final(self).mach() == spec_push(old(self).mach(), value),
    {
        let sp1 = self.registers.sp.wrapping_sub(1);
        self.write_byte(sp1, (value / 256) as u8);
        let sp2 = sp1.wrapping_sub(1);
        self.write_byte(sp2, (value % 256) as u8);
        self.registers.sp = sp2;
    }

    /// Pop a 16-bit value: read low, read high, move the pointer up two.
    fn pop(&mut self) -> (v: u16)
        requires
            old(self).wf(),
        ensures
            final(self).wf(),
            old(self).cart_shape_eq(*final(self)),
            (v, final(self).mach()) == spec_pop(old(self).mach()),
    {
        let lsb = self.read_byte(self.registers.sp);
        let msb = self.read_byte(self.registers.sp.wrapping_add(1));
        self.registers.sp = self.registers.sp.wrapping_add(2);
        (msb as u16) * 256 + (lsb as u16)
    }

    /// Resolve and read an 8-bit operand.
    fn read_op8(&mut self, src: Op8) -> (r: Result<u8, CpuError>)
        requires
            old(self).wf(),
        ensures
            final(self).wf(),
            old(self).cart_shape_eq(*final(self)),
            ({
                let (rd, m1) = spec_read_op8(old(self).mach(), src);
                r == rd && final(self).mach() == m1
            }),
    {
        match src {
            Op8::A => Ok(self.registers.a),
            Op8::B => Ok(self.registers.bc.hi),
            Op8::C => Ok(self.registers.bc.lo),
            Op8::D => Ok(self.registers.de.hi),
            Op8::E => Ok(self.registers.de.lo),
            Op8::H => Ok(self.registers.hl.hi),
            Op8::L => Ok(self.registers.hl.lo),
            Op8::U8 => Ok(self.read_next_u8()),
            Op8::I8 => Err(CpuError::BadArgument),
            Op8::AddrU16 => {
                let addr = self.read_next_u16();
                Ok(self.read_byte(addr))
            },
            Op8::AddrBC => Ok(self.read_byte(self.registers.bc.as_both())),
            Op8::AddrDE => Ok(self.read_byte(self.registers.de.as_both())),
            Op8::AddrHL => Ok(self.read_byte(self.registers.hl.as_both())),
            Op8::AddrHLInc => {
                let val = self.read_byte(self.registers.hl.as_both());
                self.registers.hl.inc();
                Ok(val)
            },
            Op8::AddrHLDec => {
                let val = self.read_byte(self.registers.hl.as_both());
                self.registers.hl.dec();
                Ok(val)
            },
            Op8::LowAddrC => {
                let addr = 0xFF00 + (self.registers.bc.lo as u16);
                Ok(self.read_byte(addr))
            },
            Op8::LowAddrU8 => {
                let low_bits = self.read_next_u8();
                let addr = 0xFF00 + (low_bits as u16);
                Ok(self.read_byte(addr))
            },
        }
    }

    /// Resolve an 8-bit operand and write `data` into it.
    fn write_op8(&mut self, target: Op8, data: u8) -> (r: Result<(), CpuError>)
        requires
            old(self).wf(),
        ensures
            final(self).wf(),
            old(self).cart_shape_eq(*final(self)),
            ({
                let (wr, m1) = spec_write_op8(old(self).mach(), target, data);
                r == wr && final(self).mach() == m1
            }),
    {
        match target {
            Op8::A => {
                self.registers.a = data;
                Ok(())
            },
            Op8::B => {
                self.registers.bc.hi = data;
                Ok(())
            },
            Op8::C => {
                self.registers.bc.lo = data;
                Ok(())
            },
            Op8::D => {
                self.registers.de.hi = data;
                Ok(())
            },
            Op8::E => {
                self.registers.de.lo = data;
                Ok(())
            },
            Op8::H => {
                self.registers.hl.hi = data;
                Ok(())
            },
            Op8::L => {
                self.registers.hl.lo = data;
                Ok(())
            },
            Op8::U8 => Err(CpuError::BadArgument),
            Op8::I8 => Err(CpuError::BadArgument),
            Op8::AddrU16 => {
                let addr = self.read_next_u16();
                self.write_byte(addr, data);
                Ok(())
            },
            Op8::AddrBC => {
                self.write_byte(self.registers.bc.as_both(), data);
                Ok(())
            },
            Op8::AddrDE => {
                self.write_byte(self.registers.de.as_both(), data);
                Ok(())
            },
            Op8::AddrHL => {
                self.write_byte(self.registers.hl.as_both(), data);
                Ok(())
            },
            Op8::AddrHLInc => {
                self.write_byte(self.registers.hl.as_both(), data);
                self.registers.hl.inc();
                Ok(())
            },
            Op8::AddrHLDec => {
                self.write_byte(self.registers.hl.as_both(), data);
                self.registers.hl.dec();
                Ok(())
            },
            Op8::LowAddrC => {
                let addr = 0xFF00 + (self.registers.bc.lo as u16);
                self.write_byte(addr, data);
                Ok(())
            },
            Op8::LowAddrU8 => {
                let low_bits = self.read_next_u8();
                let addr = 0xFF00 + (low_bits as u16);
                self.write_byte(addr, data);
                Ok(())
            },
        }
    }

    /// Run a 16-bit load.
    fn exec_ld16(&mut self, target: Op16, source: Op16, cyc: u64) -> (r: Result<(), CpuError>)
        requires
            old(self).wf(),
        ensures
            final(self).wf(),
            old(self).cart_shape_eq(*final(self)),
            (final(self).mach(), r) == step_ld16(old(self).mach(), target, source, cyc),
    {
        proof {
            reveal(step_ld16);
        }
        let val = match source {
            Op16::U16 => self.read_next_u16(),
            Op16::HL => self.registers.hl.as_both(),
            Op16::SPPlusI8 => {
                let signed_imm = self.read_next_u8();
                self.registers.sp.wrapping_add(alu::sign_ext(signed_imm))
            },
            _ => {
                return Err(CpuError::BadArgument);
            },
        };

        match target {
            Op16::SP => self.registers.sp = val,
            Op16::BC => self.registers.bc.set_both(val),
            Op16::DE => self.registers.de.set_both(val),
            Op16::HL => self.registers.hl.set_both(val),
            _ => {
                return Err(CpuError::BadArgument);
            },
        };
        self.cycles_passed = self.cycles_passed.wrapping_add(cyc);
        Ok(())
    }

    /// Run an 8-bit load.
    fn exec_ld8(&mut self, target: Op8, source: Op8, cyc: u64) -> (r: Result<(), CpuError>)
        requires
            old(self).wf(),
        ensures
            final(self).wf(),
            old(self).cart_shape_eq(*final(self)),
            (final(self).mach(), r) == step_ld8(old(self).mach(), target, source, cyc),
    {
        proof {
            reveal(step_ld8);
        }
        let data = match self.read_op8(source) {
            Ok(d) => d,
            Err(e) => {
                return Err(e);
            },
        };
        match self.write_op8(target, data) {
            Ok(u) => {},
            Err(e) => {
                return Err(e);
            },
        }
        self.cycles_passed = self.cycles_passed.wrapping_add(cyc);
        Ok(())
    }

    /// Store the stack pointer at an immediate address, low byte first.
    fn exec_ld_sp_addr(&mut self, cyc: u64) -> (r: Result<(), CpuError>)
        requires
            old(self).wf(),
        ensures
            final(self).wf(),
            old(self).cart_shape_eq(*final(self)),
            (final(self).mach(), r) == step_ld_sp_addr(old(self).mach(), cyc),
    {
        proof {
            reveal(step_ld_sp_addr);
        }
        let addr = self.read_next_u16();
        let sp = self.registers.sp;
        self.write_byte(addr, (sp % 256) as u8);
        self.write_byte(addr.wrapping_add(1), (sp / 256) as u8);
        self.cycles_passed = self.cycles_passed.wrapping_add(cyc);
        Ok(())
    }

    /// Run an 8-bit increment.
    fn exec_inc8(&mut self, target: Op8, cyc: u64) -> (r: Result<(), CpuError>)
        requires
            old(self).wf(),
        ensures
            final(self).wf(),
            old(self).cart_shape_eq(*final(self)),
            (final(self).mach(), r) == step_inc8(old(self).mach(), target, cyc),
    {
        proof {
            reveal(step_inc8);
        }
        let v = match self.read_op8(target) {
            Ok(d) => d,
            Err(e) => {
                return Err(e);
            },
        };
        let (res, z, n, h, c) = alu::alu8(AluOp::Add, v, 1, false);
        match self.write_op8(target, res) {
            Ok(u) => {},
            Err(e) => {
                return Err(e);
            },
        }
        self.registers.flags = Flags { zero: z, neg: n, half_carry: h, carry: c };
        self.cycles_passed = self.cycles_passed.wrapping_add(cyc);
        Ok(())
    }

    /// Run an 8-bit decrement.
    fn exec_dec8(&mut self, target: Op8, cyc: u64) -> (r: Result<(), CpuError>)
        requires
            old(self).wf(),
        ensures
            final(self).wf(),
            old(self).cart_shape_eq(*final(self)),
            (final(self).mach(), r) == step_dec8(old(self).mach(), target, cyc),
    {
        proof {
            reveal(step_dec8);
        }
        let v = match self.read_op8(target) {
            Ok(d) => d,
            Err(e) => {
                return Err(e);
            },
        };
        let (res, z, n, h, c) = alu::alu8(AluOp::Sub, v, 1, false);
        match self.write_op8(target, res) {
            Ok(u) => {},
            Err(e) => {
                return Err(e);
            },
        }
        self.registers.flags = Flags { zero: z, neg: n, half_carry: h, carry: c };
        self.cycles_passed = self.cycles_passed.wrapping_add(cyc);
        Ok(())
    }

    /// Run a 16-bit increment.
    fn exec_inc16(&mut self, target: Op16, cyc: u64) -> (r: Result<(), CpuError>)
        requires
            old(self).wf(),
        ensures
            final(self).wf(),
            old(self).cart_shape_eq(*final(self)),
            (final(self).mach(), r) == step_inc16(old(self).mach(), target, cyc),
    {
        proof {
            reveal(step_inc16);
        }
        match target {
            Op16::SP => self.registers.sp = self.registers.sp.wrapping_add(1),
            Op16::BC => self.registers.bc.inc(),
            Op16::DE => self.registers.de.inc(),
            Op16::HL => self.registers.hl.inc(),
            _ => {
                return Err(CpuError::BadArgument);
            },
        };
        self.cycles_passed = self.cycles_passed.wrapping_add(cyc);
        Ok(())
    }

    /// Run a 16-bit decrement.
    fn exec_dec16(&mut self, target: Op16, cyc: u64) -> (r: Result<(), CpuError>)
        requires
            old(self).wf(),
        ensures
            final(self).wf(),
            old(self).cart_shape_eq(*final(self)),
            (final(self).mach(), r) == step_dec16(old(self).mach(), target, cyc),
    {
        proof {
            reveal(step_dec16);
        }
        match target {
            Op16::SP => self.registers.sp = self.registers.sp.wrapping_sub(1),
            Op16::BC => self.registers.bc.dec(),
            Op16::DE => self.registers.de.dec(),
            Op16::HL => self.registers.hl.dec(),
            _ => {
                return Err(CpuError::BadArgument);
            },
        };
        self.cycles_passed = self.cycles_passed.wrapping_add(cyc);
        Ok(())
    }

    /// Run a 16-bit add into HL.
    fn exec_add16(&mut self, source: Op16, cyc: u64) -> (r: Result<(), CpuError>)
        requires
            old(self).wf(),
        ensures
            final(self).wf(),
            old(self).cart_shape_eq(*final(self)),
            (final(self).mach(), r) == step_add16(old(self).mach(), source, cyc),
    {
        proof {
            reveal(step_add16);
        }
        let data = match source {
            Op16::SP => self.registers.sp,
            Op16::BC => self.registers.bc.as_both(),
            Op16::DE => self.registers.de.as_both(),
            Op16::HL => self.registers.hl.as_both(),
            _ => {
                return Err(CpuError::BadArgument);
            },
        };
        let (res, h, c) = alu::add16(self.registers.hl.as_both(), data);
        self.registers.hl.set_both(res);
        self.registers.flags = Flags { zero: res == 0, neg: false, half_carry: h, carry: c };
        self.cycles_passed = self.cycles_passed.wrapping_add(cyc);
        Ok(())
    }

    /// Run one accumulator operation against a source operand.
    fn exec_alu8(&mut self, op: AluOp, source: Op8, cyc: u64) -> (r: Result<(), CpuError>)
        requires
            old(self).wf(),
        ensures
            final(self).wf(),
            old(self).cart_shape_eq(*final(self)),
            (final(self).mach(), r) == step_alu8(old(self).mach(), op, source, cyc),
    {
        proof {
            reveal(step_alu8);
        }
        let data = match self.read_op8(source) {
            Ok(d) => d,
            Err(e) => {
                return Err(e);
            },
        };
        let (res, z, n, h, c) = alu::alu8(op, self.registers.a, data, self.registers.flags.carry);
        self.registers.a = res;
        self.registers.flags = Flags { zero: z, neg: n, half_carry: h, carry: c };
        self.cycles_passed = self.cycles_passed.wrapping_add(cyc);
        Ok(())
    }

    /// Add a signed immediate displacement into the stack pointer.
    fn exec_add_sp_i8(&mut self, cyc: u64) -> (r: Result<(), CpuError>)
        requires
            old(self).wf(),
        ensures
            final(self).wf(),
            old(self).cart_shape_eq(*final(self)),
            (final(self).mach(), r) == step_add_sp_i8(old(self).mach(), cyc),
    {
        proof {
            reveal(step_add_sp_i8);
        }
        let signed = self.read_next_u8();
        let (res, h, c) = alu::add16(self.registers.sp, alu::sign_ext(signed));
        self.registers.sp = res;
        self.registers.flags = Flags { zero: res == 0, neg: false, half_carry: h, carry: c };
        self.cycles_passed = self.cycles_passed.wrapping_add(cyc);
        Ok(())
    }

    /// Run a relative jump.
    fn exec_jr(&mut self, cond: Condition, cyc: u64, cyc_nb: u64) -> (r: Result<(), CpuError>)
        requires
            old(self).wf(),
        ensures
            final(self).wf(),
            old(self).cart_shape_eq(*final(self)),
            (final(self).mach(), r) == step_jr(old(self).mach(), cond, cyc, cyc_nb),
    {
        proof {
            reveal(step_jr);
        }
        let rel_addr = self.read_next_u8();
        let cond_satisfied = self.test_condition(cond);
        if cond_satisfied {
            self.registers.pc = self.registers.pc.wrapping_add(alu::sign_ext(rel_addr));
        }
        let cost = if cond_satisfied || cyc_nb == 0 {
            cyc
        } else {
            cyc_nb
        };
        self.cycles_passed = self.cycles_passed.wrapping_add(cost);
        Ok(())
    }

    /// Run an absolute jump.
    fn exec_jp(&mut self, cond: Condition, source: Op16, cyc: u64, cyc_nb: u64) -> (r: Result<
        (),
        CpuError,
    >)
        requires
            old(self).wf(),
        ensures
            final(self).wf(),
            old(self).cart_shape_eq(*final(self)),
            (final(self).mach(), r) == step_jp(old(self).mach(), cond, source, cyc, cyc_nb),
    {
        proof {
            reveal(step_jp);
        }
        let jump_addr = match source {
            Op16::U16 => self.read_next_u16(),
            Op16::HL => self.registers.hl.as_both(),
            _ => {
                return Err(CpuError::BadArgument);
            },
        };
        let taken = self.test_condition(cond);
        if taken {
            self.jump(jump_addr);
        }
        let cost = if taken || cyc_nb == 0 {
            cyc
        } else {
            cyc_nb
        };
        self.cycles_passed = self.cycles_passed.wrapping_add(cost);
        Ok(())
    }

    /// Run a return.
    fn exec_ret(&mut self, cond: Condition, cyc: u64, cyc_nb: u64) -> (r: Result<(), CpuError>)
        requires
            old(self).wf(),
        ensures
            final(self).wf(),
            old(self).cart_shape_eq(*final(self)),
            (final(self).mach(), r) == step_ret(old(self).mach(), cond, cyc, cyc_nb),
    {
        proof {
            reveal(step_ret);
        }
        let taken = self.test_condition(cond);
        if taken {
            let addr = self.pop();
            self.registers.pc = addr;
        }
        let cost = if taken || cyc_nb == 0 {
            cyc
        } else {
            cyc_nb
        };
        self.cycles_passed = self.cycles_passed.wrapping_add(cost);
        Ok(())
    }

    /// Run a call.
    fn exec_call(&mut self, cond: Condition, cyc: u64, cyc_nb: u64) -> (r: Result<(), CpuError>)
        requires
            old(self).wf(),
        ensures
            final(self).wf(),
            old(self).cart_shape_eq(*final(self)),
            (final(self).mach(), r) == step_call(old(self).mach(), cond, cyc, cyc_nb),
    {
        proof {
            reveal(step_call);
        }
        let jump_addr = self.read_next_u16();
        let taken = self.test_condition(cond);
        if taken {
            let ret_addr = self.registers.pc;
            self.push(ret_addr);
            self.registers.pc = jump_addr;
        }
        let cost = if taken || cyc_nb == 0 {
            cyc
        } else {
            cyc_nb
        };
        self.cycles_passed = self.cycles_passed.wrapping_add(cost);
        Ok(())
    }

    /// Push a register pair.
    fn exec_push(&mut self, target: Op16, cyc: u64) -> (r: Result<(), CpuError>)
        requires
            old(self).wf(),
        ensures
            final(self).wf(),
            old(self).cart_shape_eq(*final(self)),
            (final(self).mach(), r) == step_push(old(self).mach(), target, cyc),
    {
        proof {
            reveal(step_push);
        }
        let value = match target {
            Op16::BC => self.registers.bc.as_both(),
            Op16::DE => self.registers.de.as_both(),
            Op16::HL => self.registers.hl.as_both(),
            Op16::AF => self.registers.af(),
            _ => {
                return Err(CpuError::BadArgument);
            },
        };
        self.push(value);
        self.cycles_passed = self.cycles_passed.wrapping_add(cyc);
        Ok(())
    }

    /// Pop into a register pair.
    fn exec_pop(&mut self, target: Op16, cyc: u64) -> (r: Result<(), CpuError>)
        requires
            old(self).wf(),
        ensures
            final(self).wf(),
            old(self).cart_shape_eq(*final(self)),
            (final(self).mach(), r) == step_pop(old(self).mach(), target, cyc),
    {
        proof {
            reveal(step_pop);
        }
        let value = self.pop();
        match target {
            Op16::BC => self.registers.bc.set_both(value),
            Op16::DE => self.registers.de.set_both(value),
            Op16::HL => self.registers.hl.set_both(value),
            Op16::AF => self.registers.set_af(value),
            _ => {
                return Err(CpuError::BadArgument);
            },
        }
        self.cycles_passed = self.cycles_passed.wrapping_add(cyc);
        Ok(())
    }

    /// Run a restart: an unconditional call to a fixed vector.
    fn exec_rst(&mut self, vector: u16, cyc: u64) -> (r: Result<(), CpuError>)
        requires
            old(self).wf(),
        ensures
            final(self).wf(),
            old(self).cart_shape_eq(*final(self)),
            (final(self).mach(), r) == step_rst(old(self).mach(), vector, cyc),
    {
        proof {
            reveal(step_rst);
        }
        let ret_addr = self.registers.pc;
        self.push(ret_addr);
        self.registers.pc = vector;
        self.cycles_passed = self.cycles_passed.wrapping_add(cyc);
        Ok(())
    }

    /// Run one accumulator rotate shortcut.
    fn exec_rot_a(&mut self, kind: ShiftKind, cyc: u64) -> (r: Result<(), CpuError>)
        requires
            old(self).wf(),
        ensures
            final(self).wf(),
            old(self).cart_shape_eq(*final(self)),
            (final(self).mach(), r) == step_rot_a(old(self).mach(), kind, cyc),
    {
        proof {
            reveal(step_rot_a);
        }
        let (res, carry) = alu::shift(kind, self.registers.a, self.registers.flags.carry);
        self.registers.a = res;
        self.registers.flags = Flags { zero: res == 0, neg: false, half_carry: false, carry };
        self.cycles_passed = self.cycles_passed.wrapping_add(cyc);
        Ok(())
    }

    /// Run a prefix-escape shift, rotate or nibble swap.
    fn exec_shift(&mut self, kind: ShiftKind, target: Op8, cyc: u64) -> (r: Result<(), CpuError>)
        requires
            old(self).wf(),
        ensures
            final(self).wf(),
            old(self).cart_shape_eq(*final(self)),
            (final(self).mach(), r) == step_shift(old(self).mach(), kind, target, cyc),
    {
        proof {
            reveal(step_shift);
        }
        let v = match self.read_op8(target) {
            Ok(d) => d,
            Err(e) => {
                return Err(e);
            },
        };
        let (res, carry) = alu::shift(kind, v, self.registers.flags.carry);
        match self.write_op8(target, res) {
            Ok(u) => {},
            Err(e) => {
                return Err(e);
            },
        }
        self.registers.flags = Flags { zero: res == 0, neg: false, half_carry: false, carry };
        self.cycles_passed = self.cycles_passed.wrapping_add(cyc);
        Ok(())
    }

    /// Run a bit test.
    fn exec_bit(&mut self, bit: u8, target: Op8, cyc: u64) -> (r: Result<(), CpuError>)
        requires
            old(self).wf(),
            bit < 8,
        ensures
            final(self).wf(),
            old(self).cart_shape_eq(*final(self)),
            (final(self).mach(), r) == step_bit(old(self).mach(), bit, target, cyc),
    {
        proof {
            reveal(step_bit);
        }
        let v = match self.read_op8(target) {
            Ok(d) => d,
            Err(e) => {
                return Err(e);
            },
        };
        let test = v.get_bit(bit);
        self.registers.flags.zero = !test;
        self.registers.flags.neg = false;
        self.registers.flags.half_carry = true;
        self.cycles_passed = self.cycles_passed.wrapping_add(cyc);
        Ok(())
    }

    /// Run a bit set or bit clear.
    fn exec_setres(&mut self, bit: u8, target: Op8, val: bool, cyc: u64) -> (r: Result<
        (),
        CpuError,
    >)
        requires
            old(self).wf(),
            bit < 8,
        ensures
            final(self).wf(),
            old(self).cart_shape_eq(*final(self)),
            (final(self).mach(), r) == step_setres(old(self).mach(), bit, target, val, cyc),
    {
        proof {
            reveal(step_setres);
        }
        let v = match self.read_op8(target) {
            Ok(d) => d,
            Err(e) => {
                return Err(e);
            },
        };
        let mut data = v;
        data.set_bit(bit, val);
        match self.write_op8(target, data) {
            Ok(u) => {},
            Err(e) => {
                return Err(e);
            },
        }
        self.cycles_passed = self.cycles_passed.wrapping_add(cyc);
        Ok(())
    }

    /// Fetch and run a prefix-escape instruction.
    fn exec_prefix(&mut self) -> (r: Result<(), CpuError>)
        requires
            old(self).wf(),
        ensures
            final(self).wf(),
            old(self).cart_shape_eq(*final(self)),
            (final(self).mach(), r) == step_prefix(old(self).mach()),
    {
        proof {
            reveal(step_prefix);
        }
        let op = self.read_next_u8();
        let opcode_info = opcode::lookup_prefixed(op);
        proof {
            lemma_prefixed_bit_bound(op);
        }
        match opcode_info.inst {
            OpcodePrefixed::Rlc(t) => self.exec_shift(ShiftKind::Rlc, t, opcode_info.cycles),
            OpcodePrefixed::Rrc(t) => self.exec_shift(ShiftKind::Rrc, t, opcode_info.cycles),
            OpcodePrefixed::Rl(t) => self.exec_shift(ShiftKind::Rl, t, opcode_info.cycles),
            OpcodePrefixed::Rr(t) => self.exec_shift(ShiftKind::Rr, t, opcode_info.cycles),
            OpcodePrefixed::Sla(t) => self.exec_shift(ShiftKind::Sla, t, opcode_info.cycles),
            OpcodePrefixed::Sra(t) => self.exec_shift(ShiftKind::Sra, t, opcode_info.cycles),
            OpcodePrefixed::Swap(t) => self.exec_shift(ShiftKind::Swap, t, opcode_info.cycles),
            OpcodePrefixed::Srl(t) => self.exec_shift(ShiftKind::Srl, t, opcode_info.cycles),
            OpcodePrefixed::Bit(b, t) => self.exec_bit(b, t, opcode_info.cycles),
            OpcodePrefixed::ResBit(b, t) => self.exec_setres(b, t, false, opcode_info.cycles),
            OpcodePrefixed::SetBit(b, t) => self.exec_setres(b, t, true, opcode_info.cycles),
        }
    }

    /// Fetch, decode and run one instruction. Returns the illegal-opcode
    /// error, with the offending byte, when the fetched byte decodes to a
    /// documented gap; the driver must stop stepping then. The whole
    /// effect of the step on registers, cartridge ROM, collaborator state
    /// and cycle count is the one instruction-step function of the
    /// machine model.
    pub fn exec_next(&mut self) -> (r: Result<(), CpuError>)
        requires
            old(self).wf(),
        ensures
            final(self).wf(),
            old(self).cart_shape_eq(*final(self)),
            (final(self).mach(), r) == spec_step(old(self).mach()),
    {
        let opcode_byte = self.read_next_u8();
        self.exec_decoded(opcode_byte)
    }

    /// Run the instruction the already-fetched `opcode_byte` decodes to:
    /// the loads, arithmetic, stack and branch families.
    #[verifier::spinoff_prover]
    #[verifier::rlimit(100)]
    fn exec_decoded(&mut self, opcode_byte: u8) -> (r: Result<(), CpuError>)
        requires
            old(self).wf(),
        ensures
            final(self).wf(),
            old(self).cart_shape_eq(*final(self)),
            (final(self).mach(), r) == step_decoded(old(self).mach(), opcode_byte),
    {
        let opcode_info = opcode::lookup(opcode_byte);
        let cyc = opcode_info.cycles;
        let cyc_nb = opcode_info.cycles_no_branch;

        match opcode_info.inst {
            OpcodeUnprefixed::Ld16(target, source) => self.exec_ld16(target, source, cyc),
            OpcodeUnprefixed::Ld8(target, source) => self.exec_ld8(target, source, cyc),
            OpcodeUnprefixed::LdU16StackAddr => self.exec_ld_sp_addr(cyc),
            OpcodeUnprefixed::Inc8(target) => self.exec_inc8(target, cyc),
            OpcodeUnprefixed::Inc16(target) => self.exec_inc16(target, cyc),
            OpcodeUnprefixed::Dec8(target) => self.exec_dec8(target, cyc),
            OpcodeUnprefixed::Dec16(target) => self.exec_dec16(target, cyc),
            OpcodeUnprefixed::Add16(source) => self.exec_add16(source, cyc),
            OpcodeUnprefixed::Add8(source) => self.exec_alu8(AluOp::Add, source, cyc),
            OpcodeUnprefixed::AddI8SP => self.exec_add_sp_i8(cyc),
            _ => self.exec_decoded_ctl(opcode_byte),
        }
    }

    /// Run the instruction the already-fetched `opcode_byte` decodes to:
    /// the branch, call, return, stack and prefix-escape families.
    #[verifier::spinoff_prover]
    #[verifier::rlimit(100)]
    fn exec_decoded_ctl(&mut self, opcode_byte: u8) -> (r: Result<(), CpuError>)
        requires
            old(self).wf(),
            !matches!(
                opcode::spec_lookup(opcode_byte).0,
                OpcodeUnprefixed::Ld16(..) | OpcodeUnprefixed::Ld8(..)
                    | OpcodeUnprefixed::LdU16StackAddr | OpcodeUnprefixed::Inc8(..)
                    | OpcodeUnprefixed::Inc16(..) | OpcodeUnprefixed::Dec8(..)
                    | OpcodeUnprefixed::Dec16(..) | OpcodeUnprefixed::Add16(..)
                    | OpcodeUnprefixed::Add8(..) | OpcodeUnprefixed::AddI8SP
            ),
        ensures
            final(self).wf(),
            old(self).cart_shape_eq(*final(self)),
            (final(self).mach(), r) == step_decoded(old(self).mach(), opcode_byte),
    {
        let opcode_info = opcode::lookup(opcode_byte);
        let cyc = opcode_info.cycles;
        let cyc_nb = opcode_info.cycles_no_branch;

        match opcode_info.inst {
            OpcodeUnprefixed::Jp(cond, source) => self.exec_jp(cond, source, cyc, cyc_nb),
            OpcodeUnprefixed::Jr(cond) => self.exec_jr(cond, cyc, cyc_nb),
            OpcodeUnprefixed::Ret(cond) => self.exec_ret(cond, cyc, cyc_nb),
            OpcodeUnprefixed::Call(cond) => self.exec_call(cond, cyc, cyc_nb),
            OpcodeUnprefixed::Push(target) => self.exec_push(target, cyc),
            OpcodeUnprefixed::Pop(target) => self.exec_pop(target, cyc),
            OpcodeUnprefixed::Rst(vector) => self.exec_rst(vector, cyc),
            OpcodeUnprefixed::Prefix => self.exec_prefix(),
            _ => self.exec_decoded_rest(opcode_byte),
        }
    }

    /// Run the instruction the already-fetched `opcode_byte` decodes to:
    /// the accumulator operations, the rotate shortcuts, the flag and
    /// placeholder instructions, and the illegal marker.
    #[verifier::spinoff_prover]
    #[verifier::rlimit(100)]
    fn exec_decoded_rest(&mut self, opcode_byte: u8) -> (r: Result<(), CpuError>)
        requires
            old(self).wf(),
            !matches!(
                opcode::spec_lookup(opcode_byte).0,
                OpcodeUnprefixed::Ld16(..) | OpcodeUnprefixed::Ld8(..)
                    | OpcodeUnprefixed::LdU16StackAddr | OpcodeUnprefixed::Inc8(..)
                    | OpcodeUnprefixed::Inc16(..) | OpcodeUnprefixed::Dec8(..)
                    | OpcodeUnprefixed::Dec16(..) | OpcodeUnprefixed::Add16(..)
                    | OpcodeUnprefixed::Add8(..) | OpcodeUnprefixed::AddI8SP
                    | OpcodeUnprefixed::Jp(..) | OpcodeUnprefixed::Jr(..)
                    | OpcodeUnprefixed::Ret(..) | OpcodeUnprefixed::Call(..)
                    | OpcodeUnprefixed::Push(..) | OpcodeUnprefixed::Pop(..)
                    | OpcodeUnprefixed::Rst(..) | OpcodeUnprefixed::Prefix
            ),

        ensures
            final(self).wf(),
            old(self).cart_shape_eq(*final(self)),
            (final(self).mach(), r) == step_decoded(old(self).mach(), opcode_byte),
    {
        let opcode_info = opcode::lookup(opcode_byte);
        let cyc = opcode_info.cycles;

        match opcode_info.inst {
            OpcodeUnprefixed::Nop => {
                proof {
                    reveal(step_nop);
                }
                self.cycles_passed = self.cycles_passed.wrapping_add(cyc);
                Ok(())
            },
            OpcodeUnprefixed::Stop => {
                proof {
                    reveal(step_stop);
                }
                self.stopped = true;
                self.cycles_passed = self.cycles_passed.wrapping_add(cyc);
                Ok(())
            },
            OpcodeUnprefixed::Halt => {
                proof {
                    reveal(step_halt);
                }
                self.halted = true;
                self.cycles_passed = self.cycles_passed.wrapping_add(cyc);
                Ok(())
            },
            OpcodeUnprefixed::Rlca => self.exec_rot_a(ShiftKind::Rlc, cyc),
            OpcodeUnprefixed::Rrca => self.exec_rot_a(ShiftKind::Rrc, cyc),
            OpcodeUnprefixed::Rla => self.exec_rot_a(ShiftKind::Rl, cyc),
            OpcodeUnprefixed::Rra => self.exec_rot_a(ShiftKind::Rr, cyc),
            OpcodeUnprefixed::Daa => {
                proof {
                    reveal(step_daa);
                }
                self.registers.decimal_adjust_a();
                self.cycles_passed = self.cycles_passed.wrapping_add(cyc);
                Ok(())
            },
            OpcodeUnprefixed::Cpl => {
                proof {
                    reveal(step_cpl);
                }
                self.registers.a = !self.registers.a;
                self.cycles_passed = self.cycles_passed.wrapping_add(cyc);
                Ok(())
            },
            OpcodeUnprefixed::Scf => {
                proof {
                    reveal(step_scf);
                }
                self.registers.flags.carry = true;
                self.cycles_passed = self.cycles_passed.wrapping_add(cyc);
                Ok(())
            },
            OpcodeUnprefixed::Ccf => {
                proof {
                    reveal(step_ccf);
                }
                self.registers.flags.carry = !self.registers.flags.carry;
                self.cycles_passed = self.cycles_passed.wrapping_add(cyc);
                Ok(())
            },
            OpcodeUnprefixed::Adc(source) => self.exec_alu8(AluOp::Adc, source, cyc),
            OpcodeUnprefixed::Sub(source) => self.exec_alu8(AluOp::Sub, source, cyc),
            OpcodeUnprefixed::Sbc(source) => self.exec_alu8(AluOp::Sbc, source, cyc),
            OpcodeUnprefixed::And(source) => self.exec_alu8(AluOp::And, source, cyc),
            OpcodeUnprefixed::Xor(source) => self.exec_alu8(AluOp::Xor, source, cyc),
            OpcodeUnprefixed::Or(source) => self.exec_alu8(AluOp::Or, source, cyc),
            OpcodeUnprefixed::Cp(source) => self.exec_alu8(AluOp::Cp, source, cyc),
            OpcodeUnprefixed::Reti => {
                proof {
                    reveal(step_reti);
                }
                let addr = self.pop();
                self.registers.pc = addr;
                self.ime = true;
                self.cycles_passed = self.cycles_passed.wrapping_add(cyc);
                Ok(())
            },
            OpcodeUnprefixed::Di => {
                proof {
                    reveal(step_di);
                }
                self.ime = false;
                self.cycles_passed = self.cycles_passed.wrapping_add(cyc);
                Ok(())
            },
            OpcodeUnprefixed::Ei => {
                proof {
                    reveal(step_ei);
                }
                self.ime = true;
                self.cycles_passed = self.cycles_passed.wrapping_add(cyc);
                Ok(())
            },
            OpcodeUnprefixed::Illegal => Err(CpuError::IllegalOpcode(opcode_byte)),
            _ => vstd::pervasive::unreached(),
        }
    }

    /// Test a branch condition against the current flags.
    fn test_condition(&self, cond: Condition) -> (b: bool)
        ensures
            b == spec_condition(self.registers.flags, cond),
    {
        match cond {
            Condition::Zero => self.registers.flags.zero,
            Condition::NotZero => !self.registers.flags.zero,
            Condition::Carry => self.registers.flags.carry,
            Condition::NotCarry => !self.registers.flags.carry,
            Condition::Unconditional => true,
        }
    }

    /// Set the program counter.
    pub fn jump(&mut self, addr: u16)
        ensures
            final(self).registers == (Registers { pc: addr, ..old(self).registers }),
            final(self).cartridge == old(self).cartridge,
            final(self).addr_space == old(self).addr_space,
            final(self).ime == old(self).ime,
            final(self).halted == old(self).halted,
            final(self).stopped == old(self).stopped,
            final(self).cycles_passed == old(self).cycles_passed,
    {
        self.registers.pc = addr;
    }

    /// The zero flag.
    pub fn z_flag(&self) -> (b: bool)
        ensures
            b == self.registers.flags.zero,
    {
        self.registers.flags.zero
    }

    /// Set the zero flag.
    pub fn set_z_flag(&mut self, val: bool)
        ensures
            final(self).registers.flags == (Flags { zero: val, ..old(self).registers.flags }),
            unchanged_but_flags(*old(self), *final(self)),
    {
        self.registers.flags.zero = val;
    }

    /// The negative (subtraction) flag.
    pub fn n_flag(&self) -> (b: bool)
        ensures
            b == self.registers.flags.neg,
    {
        self.registers.flags.neg
    }

    /// Set the negative (subtraction) flag.
    pub fn set_n_flag(&mut self, val: bool)
        ensures
            final(self).registers.flags == (Flags { neg: val, ..old(self).registers.flags }),
            unchanged_but_flags(*old(self), *final(self)),
    {
        self.registers.flags.neg = val;
    }

    /// The half-carry flag.
    pub fn h_flag(&self) -> (b: bool)
        ensures
            b == self.registers.flags.half_carry,
    {
        self.registers.flags.half_carry
    }

    /// Set the half-carry flag.
    pub fn set_h_flag(&mut self, val: bool)
        ensures
            final(self).registers.flags == (Flags {
                half_carry: val,
                ..old(self).registers.flags
            }),
            unchanged_but_flags(*old(self), *final(self)),
    {
        self.registers.flags.half_carry = val;
    }

    /// The carry flag.
    pub fn c_flag(&self) -> (b: bool)
        ensures
            b == self.registers.flags.carry,
    {
        self.registers.flags.carry
    }

    /// Set the carry flag.
    pub fn set_c_flag(&mut self, val: bool)
        ensures
            final(self).registers.flags == (Flags { carry: val, ..old(self).registers.flags }),
            unchanged_but_flags(*old(self), *final(self)),
    {
        self.registers.flags.carry = val;
    }
}

/// Everything outside the flag bits is the same in both engines.
pub open spec fn unchanged_but_flags<M: AddressSpace>(a: Cpu<M>, b: Cpu<M>) -> bool {
    &&& b.registers == (Registers { flags: b.registers.flags, ..a.registers })
    &&& b.cartridge == a.cartridge
    &&& b.addr_space == a.addr_space
    &&& b.ime == a.ime
    &&& b.halted == a.halted
    &&& b.stopped == a.stopped
    &&& b.cycles_passed == a.cycles_passed
}

impl Cpu<PlainRam> {
    /// Build an engine around a cartridge, with a zeroed flat RAM as the
    /// address-space collaborator and the documented post-boot register
    /// values.
    pub fn new(cartridge: Cartridge) -> (r: Cpu<PlainRam>)
        requires
            cartridge.wf(),
        ensures
            r.wf(),
            r.cartridge == cartridge,
            r.registers == spec_boot_registers(),
            !r.ime && !r.halted && !r.stopped,
            r.cycles_passed == 0,
            r.addr_space.bytes@.len() == 65536,
            forall|i: int| 0 <= i < 65536 ==> r.addr_space.bytes@[i] == 0,
    {
        Cpu::with_address_space(cartridge, PlainRam::new())
    }
}

} // verus!
