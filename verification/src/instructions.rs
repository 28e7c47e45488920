//! The CPU instruction set: what each instruction does, and the decoding of opcodes.
use vstd::prelude::*;
use vstd::string::StringExecFns;

use crate::cpu::{Cpu, CpuView, EmuState};
use crate::mmu::{is_plain_exec, lemma_safe_read_ok, lemma_safe_word_write, lemma_safe_write_ok, lemma_word_write_safe, lemma_written_safety, plain_address, MmuView};
use crate::registers::{RegFlag, Registers, Target, VirtTarget};

verus! {

broadcast use {crate::mmu::lemma_safe_read_ok, crate::mmu::lemma_safe_write_ok, crate::mmu::lemma_write_safe, crate::mmu::lemma_reads_ok, crate::registers::lemma_with_flag_other, crate::registers::lemma_with_flag_same, crate::mmu::lemma_written_keeps_timer_sums};

/// The outcome of one instruction: the next state, the instruction's size in bytes, the
/// T-cycles it took and its mnemonic.
pub struct Step {
    pub cpu: CpuView,
    pub size: u16,
    pub cycles: u32,
    pub text: Seq<char>,
}

/// An instruction outcome.
pub open spec fn step_of(cpu: CpuView, size: u16, cycles: u32, text: Seq<char>) -> Step {
    Step { cpu, size, cycles, text }
}

/// The state `new` and the result `r` (size, T-cycles, mnemonic) of an instruction are those
/// of the outcome `s`.
pub open spec fn performs(new: CpuView, r: (u16, u32, String), s: Step) -> bool {
    &&& new == s.cpu
    &&& r.0 == s.size
    &&& r.1 == s.cycles
    &&& r.2@ == s.text
}

/// The timer's helper counters are the same in `new` as in `old`.
pub open spec fn keeps_timer_sums(old: CpuView, new: CpuView) -> bool {
    &&& new.mmu.timer.timer_internal_clocksum == old.mmu.timer.timer_internal_clocksum
    &&& new.mmu.timer.timer_clocksum == old.mmu.timer.timer_clocksum
}

/// The 8-bit operand that encoding `i` (0..=7, not 6) names: B, C, D, E, H, L, -, A.
pub open spec fn reg_code(i: u8) -> Target {
    if i == 0 {
        Target::B
    } else if i == 1 {
        Target::C
    } else if i == 2 {
        Target::D
    } else if i == 3 {
        Target::E
    } else if i == 4 {
        Target::H
    } else if i == 5 {
        Target::L
    } else {
        Target::A
    }
}

/// The register pair that encoding `p` (0..=2) names in pair instructions: BC, DE, HL.
pub open spec fn pair_code(p: u8) -> VirtTarget {
    if p == 0 {
        VirtTarget::BC
    } else if p == 1 {
        VirtTarget::DE
    } else {
        VirtTarget::HL
    }
}

/// The register pair that encoding `p` (0..=3) names in PUSH and POP: BC, DE, HL, AF.
pub open spec fn stack_pair_code(p: u8) -> VirtTarget {
    if p == 3 {
        VirtTarget::AF
    } else {
        pair_code(p)
    }
}

/// The flag that condition code `c` (0..=3) tests: NZ, Z, NC, C.
pub open spec fn cond_flag(c: u8) -> RegFlag {
    if c < 2 {
        RegFlag::Z
    } else {
        RegFlag::C
    }
}

/// The value that condition code `c` (0..=3) expects of its flag.
pub open spec fn cond_value(c: u8) -> bool {
    c % 2 == 1
}

/// The condition text of a conditional instruction.
pub open spec fn cc_text(flag: RegFlag, expected_value: bool) -> Seq<char> {
    match flag {
        RegFlag::Z => if expected_value {
            "Z"@
        } else {
            "NZ"@
        },
        RegFlag::C => if expected_value {
            "C"@
        } else {
            "NC"@
        },
        _ => Seq::empty(),
    }
}

/// The digit text of a bit index.
pub open spec fn digit_text(b: usize) -> Seq<char> {
    if b == 0 {
        "0"@
    } else if b == 1 {
        "1"@
    } else if b == 2 {
        "2"@
    } else if b == 3 {
        "3"@
    } else if b == 4 {
        "4"@
    } else if b == 5 {
        "5"@
    } else if b == 6 {
        "6"@
    } else {
        "7"@
    }
}

/// `n` read as a two's complement signed byte.
pub open spec fn signed8(n: u8) -> int {
    if n < 128 {
        n as int
    } else {
        n - 256
    }
}

/// `a` plus `d`, modulo 2^16.
pub open spec fn wrap16(a: int) -> u16 {
    (a % 0x10000) as u16
}

// ----------------------------------------------------
// Effects on the registers
// ----------------------------------------------------

/// Registers with F cleared, then Z, N, H and C set as given.
pub open spec fn with_znhc(r: Registers, z: bool, n: bool, h: bool, c: bool) -> Registers {
    r.with_flags_reset().with_flag(RegFlag::Z, z).with_flag(RegFlag::N, n).with_flag(
        RegFlag::H,
        h,
    ).with_flag(RegFlag::C, c)
}

/// ADD / ADC: A += n (+ C when `use_carry`), with Z, N=0, H (carry out of bit 3) and C
/// (carry out of bit 7).
pub open spec fn add_regs(r: Registers, n: u8, use_carry: bool) -> Registers {
    let a = r.a;
    let carry: u8 = if use_carry && r.flag(RegFlag::C) {
        1
    } else {
        0
    };
    let sum = ((a + n + carry) % 256) as u8;
    with_znhc(r, sum == 0, false, (a & 0x0F) + (n & 0x0F) + carry > 0x0F, a + n + carry > 0xFF).with_reg(
        Target::A,
        sum,
    )
}

/// SUB / SBC: A -= n (+ C when `use_borrow`), with Z, N=1, H (borrow from bit 4) and C
/// (borrow).
pub open spec fn sub_regs(r: Registers, n: u8, use_borrow: bool) -> Registers {
    let a = r.a;
    let borrow: u8 = if use_borrow && r.flag(RegFlag::C) {
        1
    } else {
        0
    };
    let diff = ((a - n - borrow + 512) % 256) as u8;
    with_znhc(r, diff == 0, true, (a & 0x0F) < (n & 0x0F) + borrow, a < n + borrow).with_reg(
        Target::A,
        diff,
    )
}

/// CP: the flags of SUB, A unchanged.
pub open spec fn cp_regs(r: Registers, n: u8) -> Registers {
    sub_regs(r, n, false).with_reg(Target::A, r.a)
}

/// AND: A &= n, with Z and H=1.
pub open spec fn and_regs(r: Registers, n: u8) -> Registers {
    let res = r.a & n;
    r.with_flags_reset().with_flag(RegFlag::Z, res == 0).with_flag(RegFlag::H, true).with_reg(
        Target::A,
        res,
    )
}

/// OR: A |= n, with Z.
pub open spec fn or_regs(r: Registers, n: u8) -> Registers {
    let res = r.a | n;
    r.with_flags_reset().with_flag(RegFlag::Z, res == 0).with_reg(Target::A, res)
}

/// XOR: A ^= n, with Z.
pub open spec fn xor_regs(r: Registers, n: u8) -> Registers {
    let res = r.a ^ n;
    r.with_flags_reset().with_flag(RegFlag::Z, res == 0).with_reg(Target::A, res)
}

/// The flags of INC on `val`: Z, N=0, H (carry out of bit 3); C unchanged.
pub open spec fn inc_flags(r: Registers, val: u8) -> Registers {
    let result = ((val + 1) % 256) as u8;
    r.with_flag(RegFlag::Z, result == 0).with_flag(RegFlag::N, false).with_flag(
        RegFlag::H,
        (val & 0x0F) + 1 > 0x0F,
    )
}

/// The flags of DEC on `val`: Z, N=1, H (borrow from bit 4); C unchanged.
pub open spec fn dec_flags(r: Registers, val: u8) -> Registers {
    let result = ((val + 255) % 256) as u8;
    r.with_flag(RegFlag::Z, result == 0).with_flag(RegFlag::N, true).with_flag(
        RegFlag::H,
        val & 0x0F == 0,
    )
}

/// ADD HL,n: HL += n, with N=0, H (carry out of bit 11) and C (carry out of bit 15); Z
/// unchanged.
pub open spec fn add_hl_regs(r: Registers, n: u16) -> Registers {
    let hl = r.virt(VirtTarget::HL);
    r.with_flag(RegFlag::N, false).with_flag(RegFlag::H, (hl & 0x0FFF) + (n & 0x0FFF) > 0x0FFF).with_flag(
        RegFlag::C,
        hl + n > 0xFFFF,
    ).with_virt(VirtTarget::HL, wrap16(hl + n))
}

/// SP plus the signed byte `n`.
pub open spec fn sp_plus(sp: u16, n: u8) -> u16 {
    wrap16(sp + signed8(n) + 0x10000)
}

/// The flags of SP + n (ADD SP,n and LD HL,SP+n): Z=0, N=0; for a positive `n`, H and C are
/// the carries out of bits 3 and 7; for a negative `n`, they are set iff the low nibble / low
/// byte did not grow.
pub open spec fn sp_n_regs(r: Registers, sp: u16, n: u8) -> Registers {
    let result = sp_plus(sp, n);
    if n < 128 {
        r.with_flags_reset().with_flag(RegFlag::H, (sp & 0x0F) + (n & 0x0F) > 0x0F).with_flag(
            RegFlag::C,
            (sp & 0xFF) + n > 0xFF,
        )
    } else {
        r.with_flags_reset().with_flag(RegFlag::H, (result & 0x0F) <= (sp & 0x0F)).with_flag(
            RegFlag::C,
            (result & 0xFF) <= (sp & 0xFF),
        )
    }
}

/// SWAP: the two nibbles exchanged.
pub open spec fn swapped(v: u8) -> u8 {
    ((v & 0x0F) << 4) | ((v & 0xF0) >> 4)
}

/// RLC: rotated left, bit 7 into bit 0.
pub open spec fn rlc_value(v: u8) -> u8 {
    (v << 1) | (v >> 7)
}

/// RL: rotated left through the carry.
pub open spec fn rl_value(v: u8, carry: bool) -> u8 {
    (v << 1) | (if carry {
        1u8
    } else {
        0u8
    })
}

/// RRC: rotated right, bit 0 into bit 7.
pub open spec fn rrc_value(v: u8) -> u8 {
    (v >> 1) | ((v & 1) << 7)
}

/// RR: rotated right through the carry.
pub open spec fn rr_value(v: u8, carry: bool) -> u8 {
    (v >> 1) | (if carry {
        0x80u8
    } else {
        0u8
    })
}

/// SLA: shifted left.
pub open spec fn sla_value(v: u8) -> u8 {
    v << 1
}

/// SRA: shifted right, bit 7 kept.
pub open spec fn sra_value(v: u8) -> u8 {
    (v >> 1) | (v & 0x80)
}

/// SRL: shifted right.
pub open spec fn srl_value(v: u8) -> u8 {
    v >> 1
}

/// The flags after a rotate or shift: Z from the result, C the bit shifted out, N=H=0.
pub open spec fn shift_flags(r: Registers, result: u8, out: bool) -> Registers {
    r.with_flags_reset().with_flag(RegFlag::Z, result == 0).with_flag(RegFlag::C, out)
}

/// The result of DAA on A, and whether it carries.
pub open spec fn daa_value(a: u8, n: bool, h: bool, c: bool) -> (u8, bool) {
    let low = h || (!n && (a & 0x0F) > 0x09);
    let high = c || (!n && a > 0x99);
    let correction: int = (if low {
        0x06int
    } else {
        0
    }) + (if high {
        0x60int
    } else {
        0
    });
    let result = if n {
        ((a - correction + 256) % 256) as u8
    } else {
        ((a + correction) % 256) as u8
    };
    (result, high)
}


impl CpuView {
    /// The CPU with its registers replaced.
    pub open spec fn with_regs(self, regs: Registers) -> CpuView {
        CpuView { regs, ..self }
    }

    /// The CPU with the program counter advanced by `size`.
    pub open spec fn advanced(self, size: u16) -> CpuView {
        CpuView { pc: (self.pc + size) as u16, ..self }
    }

    /// The value of HL.
    pub open spec fn hl(self) -> u16 {
        self.regs.virt(VirtTarget::HL)
    }

    /// The byte read at `address`.
    pub open spec fn read8(self, address: u16) -> u8 {
        self.mmu.read(address)
    }

    /// The CPU once `value` was written at `address`.
    pub open spec fn write8(self, address: u16, value: u8) -> CpuView {
        CpuView { mmu: self.mmu.written(address, value), ..self }
    }

    /// The CPU with the state that no instruction's needs depend on (HALT, STOP, the
    /// interrupt master enable and the EI / DI countdowns) cleared.
    pub open spec fn normalized(self) -> CpuView {
        CpuView {
            is_halted: false,
            is_stopped: false,
            di_countdown: 0,
            ei_countdown: 0,
            interrupts_enabled: false,
            ..self
        }
    }

    /// The operand of a CALL can be read after the return address is pushed: it can be read
    /// now, and either the push only writes plain addresses, or the bus is memory-safe and the
    /// push does not touch the cartridge registers or the operand does not lie in the
    /// cartridge RAM window.
    pub open spec fn call_reads_ok(self) -> bool {
        let sp = self.sp.wrapping_sub(2);
        &&& self.mmu.reads_ok((self.pc + 1) as u16)
        &&& self.mmu.reads_ok((self.pc + 2) as u16)
        &&& (plain_address(sp) && plain_address((sp + 1) as u16)) || (self.mmu.mem_safe() && (
        sp >= 0x8000 || !(0x9FFE <= self.pc <= 0xBFFE)))
    }
}

/// After a CALL pushes its return address, its operand can still be read.
proof fn lemma_call_reads(c: CpuView, ret_addr: u16)
    requires
        c.push_ok(),
        c.call_reads_ok(),
        c.pc + 3 <= 0xFFFF,
    ensures
        c.pushed(ret_addr).mmu.read_ok((c.pc + 1) as u16),
        c.pushed(ret_addr).mmu.read_ok((c.pc + 2) as u16),
{
    reveal(MmuView::reads_ok);
    reveal(MmuView::word_write_safe);
    let sp = c.sp.wrapping_sub(2);
    if plain_address(sp) && plain_address((sp + 1) as u16) {
        lemma_word_write_safe(c.mmu, sp, ret_addr, (c.pc + 1) as u16);
        lemma_word_write_safe(c.mmu, sp, ret_addr, (c.pc + 2) as u16);
    } else {
        lemma_safe_word_write(c.mmu, sp, ret_addr);
    }
}

// ----------------------------------------------------
// Mnemonic texts
// ----------------------------------------------------

/// The text `a` followed by `b`.
fn text2(a: &str, b: &str) -> (r: String)
    ensures
        r@ == a@ + b@,
{
    let mut s = String::from_str(a);
    s.append(b);
    s
}

/// The texts `a`, `b` and `c` one after the other.
fn text3(a: &str, b: &str, c: &str) -> (r: String)
    ensures
        r@ == a@ + b@ + c@,
{
    let mut s = String::from_str(a);
    s.append(b);
    s.append(c);
    s
}

/// The texts `a`, `b`, `c` and `d` one after the other.
fn text4(a: &str, b: &str, c: &str, d: &str) -> (r: String)
    ensures
        r@ == a@ + b@ + c@ + d@,
{
    let mut s = String::from_str(a);
    s.append(b);
    s.append(c);
    s.append(d);
    s
}

/// The condition text of a conditional instruction: "NZ", "Z", "NC", "C" (empty for other
/// flags).
pub fn cc_print(flag: RegFlag, expected_value: bool) -> (r: String)
    ensures
        r@ == cc_text(flag, expected_value),
{
    match (flag, expected_value) {
        (RegFlag::Z, false) => String::from_str("NZ"),
        (RegFlag::Z, true) => String::from_str("Z"),
        (RegFlag::C, false) => String::from_str("NC"),
        (RegFlag::C, true) => String::from_str("C"),
        _ => String::new(),
    }
}

/// `a`, the condition text and `c` one after the other.
fn cc_text3(a: &str, flag: RegFlag, expected_value: bool, c: &str) -> (r: String)
    ensures
        r@ == a@ + cc_text(flag, expected_value) + c@,
{
    let mut s = String::from_str(a);
    let cc = cc_print(flag, expected_value);
    s.append(cc.as_str());
    s.append(c);
    s
}

/// `a` followed by the condition text.
fn cc_text2(a: &str, flag: RegFlag, expected_value: bool) -> (r: String)
    ensures
        r@ == a@ + cc_text(flag, expected_value),
{
    let mut s = String::from_str(a);
    let cc = cc_print(flag, expected_value);
    s.append(cc.as_str());
    s
}

/// The digit of a bit index.
fn digit_name(b: usize) -> (r: &'static str)
    ensures
        r@ == digit_text(b),
{
    match b {
        0 => "0",
        1 => "1",
        2 => "2",
        3 => "3",
        4 => "4",
        5 => "5",
        6 => "6",
        _ => "7",
    }
}

// ----------------------------------------------------
// Helpers shared by several instructions
// ----------------------------------------------------

/// Facts about the masks and shifts of bytes and words that the instructions use.
proof fn lemma_bit_facts()
    by (bit_vector)
    ensures
        forall|a: u8| #[trigger] (0x0Fu8 & a) == (a & 0x0F) && (a & 0x0Fu8) <= 0x0F,
        forall|a: u16| #[trigger] (0x000Fu16 & a) == (a & 0x0F) && (a & 0x0Fu16) <= 0x0F,
        forall|a: u16| #[trigger] (0x00FFu16 & a) == (a & 0xFF) && (a & 0xFFu16) <= 0xFF,
        forall|a: u16| #[trigger] (0x0FFFu16 & a) == (a & 0x0FFF) && (a & 0x0FFFu16) <= 0x0FFF,
        forall|a: u8| #[trigger] (0x000Fu16 & (a as u16)) == (a & 0x0F),
        forall|a: u8| #[trigger] (a >> 7) == (if a >= 0x80 { 1u8 } else { 0u8 }),
        forall|a: u8| #[trigger] (a & 0x01u8) == a % 2,
        forall|c: u8| #[trigger] (0xFF00u16 | (c as u16)) == 0xFF00 + c,
{
}


fn ld_a_n_helper(cpu: &mut Cpu, value: u8)
    ensures
        final(cpu)@ == old(cpu)@.with_regs(old(cpu).regs.with_reg(Target::A, value)),
{
    cpu.regs.set_reg(Target::A, value);
}

fn ld_a_hl_helper(cpu: &mut Cpu, is_inc: bool)
    requires
        old(cpu)@.mmu.reads_ok(old(cpu)@.hl()),
        is_inc ==> old(cpu)@.hl() != 0xFFFF,
        !is_inc ==> old(cpu)@.hl() != 0,
    ensures
        final(cpu)@ == old(cpu)@.with_regs(
            old(cpu).regs.with_reg(Target::A, old(cpu)@.read8(old(cpu)@.hl())).with_virt(
                VirtTarget::HL,
                (if is_inc {
                    old(cpu)@.hl() + 1
                } else {
                    old(cpu)@.hl() - 1
                }) as u16,
            ),
        ),
{
    let address = cpu.regs.get_virt_reg(VirtTarget::HL);
    let v = cpu.mmu.read_byte(address);
    cpu.regs.set_reg(Target::A, v);
    let new_val = if is_inc {
        address + 1
    } else {
        address - 1
    };
    cpu.regs.set_virt_reg(VirtTarget::HL, new_val);
}

fn ld_hl_a_helper(cpu: &mut Cpu, is_inc: bool)
    requires
        old(cpu)@.mmu.write_safe(old(cpu)@.hl()),
        is_inc ==> old(cpu)@.hl() != 0xFFFF,
        !is_inc ==> old(cpu)@.hl() != 0,
    ensures
        final(cpu)@ == old(cpu)@.write8(old(cpu)@.hl(), old(cpu).regs.a).with_regs(
            old(cpu).regs.with_virt(
                VirtTarget::HL,
                (if is_inc {
                    old(cpu)@.hl() + 1
                } else {
                    old(cpu)@.hl() - 1
                }) as u16,
            ),
        ),
{
    let address = cpu.regs.get_virt_reg(VirtTarget::HL);
    let v = cpu.regs.get_reg(Target::A);
    cpu.mmu.write_byte(address, v);
    let new_val = if is_inc {
        address + 1
    } else {
        address - 1
    };
    cpu.regs.set_virt_reg(VirtTarget::HL, new_val);
}

/// SP plus the signed immediate byte, setting the flags of ADD SP,n.
fn sp_n_helper(cpu: &mut Cpu) -> (r: u16)
    requires
        old(cpu).pc < 0xFFFF,
        old(cpu)@.mmu.reads_ok((old(cpu).pc + 1) as u16),
    ensures
        r == sp_plus(old(cpu).sp, old(cpu)@.next_byte()),
        final(cpu)@ == old(cpu)@.with_regs(
            sp_n_regs(old(cpu).regs, old(cpu).sp, old(cpu)@.next_byte()),
        ),
{
    let n = cpu.get_next_byte();
    cpu.regs.reset_flags();
    let sp = cpu.sp;
    let h_val;
    let c_val;
    let result;
    proof {
        lemma_bit_facts();
    }
    if n < 128 {
        result = sp.wrapping_add(n as u16);
        h_val = ((0x000F & sp) + (0x000F & (n as u16))) > 0x000F;
        c_val = ((0x00FF & sp) + (n as u16)) > 0x00FF;
        proof {
            lemma_bit_facts();
        }
    } else {
        result = sp.wrapping_sub(256 - (n as u16));
        h_val = (0x000F & result) <= (0x000F & sp);
        c_val = (0x00FF & result) <= (0x00FF & sp);
        proof {
            lemma_bit_facts();
        }
    }
    cpu.regs.set_flag(RegFlag::H, h_val);
    cpu.regs.set_flag(RegFlag::C, c_val);
    result
}

fn add_a_n_helper(cpu: &mut Cpu, n: u8, use_carry: bool)
    ensures
        final(cpu)@ == old(cpu)@.with_regs(add_regs(old(cpu).regs, n, use_carry)),
{
    let a = cpu.regs.get_reg(Target::A);
    let carry: u8 = if use_carry && cpu.regs.get_flag(RegFlag::C) {
        1
    } else {
        0
    };
    let sum = a.wrapping_add(n).wrapping_add(carry);
    proof {
        lemma_bit_facts();
    }
    cpu.regs.reset_flags();
    cpu.regs.set_flag(RegFlag::Z, sum == 0);
    cpu.regs.set_flag(RegFlag::N, false);
    cpu.regs.set_flag(RegFlag::H, ((0x0F & a) + (0x0F & n) + carry) > 0x0F);
    cpu.regs.set_flag(RegFlag::C, ((a as u16) + (n as u16) + (carry as u16)) > 0xFF);
    cpu.regs.set_reg(Target::A, sum);
}

fn sub_n_helper(cpu: &mut Cpu, n: u8, use_borrow: bool)
    ensures
        final(cpu)@ == old(cpu)@.with_regs(sub_regs(old(cpu).regs, n, use_borrow)),
{
    let a = cpu.regs.get_reg(Target::A);
    let borrow: u8 = if use_borrow && cpu.regs.get_flag(RegFlag::C) {
        1
    } else {
        0
    };
    let difference = a.wrapping_sub(n).wrapping_sub(borrow);
    proof {
        lemma_bit_facts();
    }
    cpu.regs.reset_flags();
    cpu.regs.set_flag(RegFlag::Z, difference == 0);
    cpu.regs.set_flag(RegFlag::N, true);
    cpu.regs.set_flag(RegFlag::H, (0x0F & a) < ((0x0F & n) + borrow));
    cpu.regs.set_flag(RegFlag::C, (a as u16) < ((n as u16) + (borrow as u16)));
    cpu.regs.set_reg(Target::A, difference);
}

fn and_n_helper(cpu: &mut Cpu, n: u8)
    ensures
        final(cpu)@ == old(cpu)@.with_regs(and_regs(old(cpu).regs, n)),
{
    let result = cpu.regs.get_reg(Target::A) & n;
    cpu.regs.reset_flags();
    cpu.regs.set_flag(RegFlag::Z, result == 0);
    cpu.regs.set_flag(RegFlag::H, true);
    cpu.regs.set_reg(Target::A, result);
}

fn or_n_helper(cpu: &mut Cpu, n: u8)
    ensures
        final(cpu)@ == old(cpu)@.with_regs(or_regs(old(cpu).regs, n)),
{
    let result = cpu.regs.get_reg(Target::A) | n;
    cpu.regs.reset_flags();
    cpu.regs.set_flag(RegFlag::Z, result == 0);
    cpu.regs.set_reg(Target::A, result);
}

fn xor_n_helper(cpu: &mut Cpu, n: u8)
    ensures
        final(cpu)@ == old(cpu)@.with_regs(xor_regs(old(cpu).regs, n)),
{
    let result = cpu.regs.get_reg(Target::A) ^ n;
    cpu.regs.reset_flags();
    cpu.regs.set_flag(RegFlag::Z, result == 0);
    cpu.regs.set_reg(Target::A, result);
}

fn cp_n_helper(cpu: &mut Cpu, n: u8)
    ensures
        final(cpu)@ == old(cpu)@.with_regs(cp_regs(old(cpu).regs, n)),
{
    let a_val = cpu.regs.get_reg(Target::A);
    sub_n_helper(cpu, n, false);
    cpu.regs.set_reg(Target::A, a_val);
}

fn inc_n_set_flags(cpu: &mut Cpu, val: u8, result: u8)
    requires
        result == (val + 1) % 256,
    ensures
        final(cpu)@ == old(cpu)@.with_regs(inc_flags(old(cpu).regs, val)),
{
    proof {
        lemma_bit_facts();
    }
    cpu.regs.set_flag(RegFlag::Z, result == 0);
    cpu.regs.set_flag(RegFlag::N, false);
    cpu.regs.set_flag(RegFlag::H, ((0x0F & val) + 1) > 0x0F);
}

fn dec_n_set_flags(cpu: &mut Cpu, val: u8, result: u8)
    requires
        result == (val + 255) % 256,
    ensures
        final(cpu)@ == old(cpu)@.with_regs(dec_flags(old(cpu).regs, val)),
{
    proof {
        lemma_bit_facts();
    }
    cpu.regs.set_flag(RegFlag::Z, result == 0);
    cpu.regs.set_flag(RegFlag::N, true);
    cpu.regs.set_flag(RegFlag::H, (0x0F & val) == 0);
}

fn add_hl_n_helper(cpu: &mut Cpu, n: u16)
    ensures
        final(cpu)@ == old(cpu)@.with_regs(add_hl_regs(old(cpu).regs, n)),
{
    let hl_val = cpu.regs.get_virt_reg(VirtTarget::HL);
    let result = hl_val.wrapping_add(n);
    proof {
        lemma_bit_facts();
    }
    cpu.regs.set_flag(RegFlag::N, false);
    cpu.regs.set_flag(RegFlag::H, ((0x0FFF & hl_val) + (0x0FFF & n)) > 0x0FFF);
    cpu.regs.set_flag(RegFlag::C, ((hl_val as u32) + (n as u32)) > 0x0000_FFFF);
    cpu.regs.set_virt_reg(VirtTarget::HL, result);
}

fn swap_n_helper(cpu: &mut Cpu, val: u8) -> (r: u8)
    ensures
        r == swapped(val),
        final(cpu)@ == old(cpu)@.with_regs(
            old(cpu).regs.with_flags_reset().with_flag(RegFlag::Z, swapped(val) == 0),
        ),
{
    let upper_nibble = (0xF0 & val) >> 4;
    let lower_nibble = 0x0F & val;
    let result = (lower_nibble << 4) | upper_nibble;
    assert(result == swapped(val)) by (bit_vector)
        requires
            upper_nibble == (0xF0 & val) >> 4,
            lower_nibble == 0x0F & val,
            result == (lower_nibble << 4) | upper_nibble,
    ;
    cpu.regs.reset_flags();
    cpu.regs.set_flag(RegFlag::Z, result == 0);
    result
}

fn rlc_n_helper(cpu: &mut Cpu, original_val: u8) -> (r: u8)
    ensures
        r == rlc_value(original_val),
        final(cpu)@ == old(cpu)@.with_regs(
            shift_flags(old(cpu).regs, rlc_value(original_val), original_val >= 0x80),
        ),
{
    let bit_7 = original_val >> 7;
    let rotated_l = (original_val << 1) | bit_7;
    proof {
        lemma_bit_facts();
    }
    cpu.regs.reset_flags();
    cpu.regs.set_flag(RegFlag::Z, rotated_l == 0);
    cpu.regs.set_flag(RegFlag::C, bit_7 == 1);
    rotated_l
}

fn rl_n_helper(cpu: &mut Cpu, original_val: u8) -> (r: u8)
    ensures
        r == rl_value(original_val, old(cpu).regs.flag(RegFlag::C)),
        final(cpu)@ == old(cpu)@.with_regs(
            shift_flags(
                old(cpu).regs,
                rl_value(original_val, old(cpu).regs.flag(RegFlag::C)),
                original_val >= 0x80,
            ),
        ),
{
    let bit_7 = original_val >> 7;
    let carry_in: u8 = if cpu.regs.get_flag(RegFlag::C) {
        1
    } else {
        0
    };
    let rotated_l = (original_val << 1) | carry_in;
    proof {
        lemma_bit_facts();
    }
    cpu.regs.reset_flags();
    cpu.regs.set_flag(RegFlag::Z, rotated_l == 0);
    cpu.regs.set_flag(RegFlag::C, bit_7 == 1);
    rotated_l
}

fn rrc_n_helper(cpu: &mut Cpu, original_val: u8) -> (r: u8)
    ensures
        r == rrc_value(original_val),
        final(cpu)@ == old(cpu)@.with_regs(
            shift_flags(old(cpu).regs, rrc_value(original_val), original_val % 2 == 1),
        ),
{
    let bit_0 = original_val & 0x01;
    let rotated_r = (original_val >> 1) | (bit_0 << 7);
    proof {
        lemma_bit_facts();
    }
    cpu.regs.reset_flags();
    cpu.regs.set_flag(RegFlag::Z, rotated_r == 0);
    cpu.regs.set_flag(RegFlag::C, bit_0 == 1);
    rotated_r
}

fn rr_n_helper(cpu: &mut Cpu, original_val: u8) -> (r: u8)
    ensures
        r == rr_value(original_val, old(cpu).regs.flag(RegFlag::C)),
        final(cpu)@ == old(cpu)@.with_regs(
            shift_flags(
                old(cpu).regs,
                rr_value(original_val, old(cpu).regs.flag(RegFlag::C)),
                original_val % 2 == 1,
            ),
        ),
{
    let bit_0 = original_val & 0x01;
    let carry_in: u8 = if cpu.regs.get_flag(RegFlag::C) {
        0x80
    } else {
        0
    };
    let rotated_r = (original_val >> 1) | carry_in;
    proof {
        lemma_bit_facts();
    }
    cpu.regs.reset_flags();
    cpu.regs.set_flag(RegFlag::Z, rotated_r == 0);
    cpu.regs.set_flag(RegFlag::C, bit_0 == 1);
    rotated_r
}

fn sla_n_helper(cpu: &mut Cpu, original_val: u8) -> (r: u8)
    ensures
        r == sla_value(original_val),
        final(cpu)@ == old(cpu)@.with_regs(
            shift_flags(old(cpu).regs, sla_value(original_val), original_val >= 0x80),
        ),
{
    let result = original_val << 1;
    let bit_7 = original_val >> 7;
    proof {
        lemma_bit_facts();
    }
    cpu.regs.reset_flags();
    cpu.regs.set_flag(RegFlag::Z, result == 0);
    cpu.regs.set_flag(RegFlag::C, bit_7 == 1);
    result
}

fn sra_n_helper(cpu: &mut Cpu, original_val: u8) -> (r: u8)
    ensures
        r == sra_value(original_val),
        final(cpu)@ == old(cpu)@.with_regs(
            shift_flags(old(cpu).regs, sra_value(original_val), original_val % 2 == 1),
        ),
{
    let result = (original_val >> 1) | (original_val & 0x80);
    let bit_0 = original_val & 0x01;
    proof {
        lemma_bit_facts();
    }
    cpu.regs.reset_flags();
    cpu.regs.set_flag(RegFlag::Z, result == 0);
    cpu.regs.set_flag(RegFlag::C, bit_0 == 1);
    result
}

fn srl_n_helper(cpu: &mut Cpu, original_val: u8) -> (r: u8)
    ensures
        r == srl_value(original_val),
        final(cpu)@ == old(cpu)@.with_regs(
            shift_flags(old(cpu).regs, srl_value(original_val), original_val % 2 == 1),
        ),
{
    let result = original_val >> 1;
    let bit_0 = original_val & 0x01;
    proof {
        lemma_bit_facts();
    }
    cpu.regs.reset_flags();
    cpu.regs.set_flag(RegFlag::Z, result == 0);
    cpu.regs.set_flag(RegFlag::C, bit_0 == 1);
    result
}

fn bit_b_r_helper(cpu: &mut Cpu, b: usize, byte: u8)
    requires
        b < 8,
    ensures
        final(cpu)@ == old(cpu)@.with_regs(
            old(cpu).regs.with_flag(RegFlag::Z, byte & (1u8 << b) == 0).with_flag(
                RegFlag::N,
                false,
            ).with_flag(RegFlag::H, true),
        ),
{
    let bb = b as u8;
    let is_bit_zero = (byte & (1u8 << bb)) == 0;
    cpu.regs.set_flag(RegFlag::Z, is_bit_zero);
    cpu.regs.set_flag(RegFlag::N, false);
    cpu.regs.set_flag(RegFlag::H, true);
}

fn jp_helper(cpu: &mut Cpu, address: u16)
    ensures
        final(cpu)@ == (CpuView { pc: address, ..old(cpu)@ }),
{
    cpu.pc = address;
}

/// The target of a relative jump by the signed byte `n` from `pc`.
fn jr_target(pc: u16, n: u8) -> (r: u16)
    ensures
        r == wrap16(pc + signed8(n) + 0x10000),
{
    if n < 128 {
        pc.wrapping_add(n as u16)
    } else {
        pc.wrapping_sub(256 - (n as u16))
    }
}


impl CpuView {
    /// LD nn,n: Set nn = 8-bit immediate value n.
    pub open spec fn ld_nn_n(self, target: Target) -> Step {
        step_of(self.with_regs(self.regs.with_reg(target, self.next_byte())).advanced(2), 2, 8, "LD "@ + target.text() + ",n"@)
    }

    /// LD r1,r2: Set r1 = r2.
    pub open spec fn ld_r1_r2(self, r1: Target, r2: Target) -> Step {
        step_of(self.with_regs(self.regs.with_reg(r1, self.regs.reg(r2))).advanced(1), 1, 4, "LD "@ + r1.text() + ","@ + r2.text())
    }

    /// LD r1,(HL): Set r1 = (HL).
    pub open spec fn ld_r1_hl(self, r1: Target) -> Step {
        step_of(self.with_regs(self.regs.with_reg(r1, self.read8(self.hl()))).advanced(1), 1, 8, "LD "@ + r1.text() + ",(HL)"@)
    }

    /// LD (HL),r2: Set (HL) = r2.
    pub open spec fn ld_hl_r2(self, r2: Target) -> Step {
        step_of(self.write8(self.hl(), self.regs.reg(r2)).advanced(1), 1, 8, "LD (HL),"@ + r2.text())
    }

    /// LD (HL),n: Set (HL) = n.
    pub open spec fn ld_hl_n(self) -> Step {
        step_of(self.write8(self.hl(), self.next_byte()).advanced(2), 2, 12, "LD (HL),n"@)
    }

    /// LD A,(rr): Set A = (rr).
    pub open spec fn ld_a_vr(self, target: VirtTarget) -> Step {
        step_of(self.with_regs(self.regs.with_reg(Target::A, self.read8(self.regs.virt(target)))).advanced(1), 1, 8, "LD A,"@ + target.text())
    }

    /// LD A,(nn): Set A = (nn).
    pub open spec fn ld_a_nn(self) -> Step {
        step_of(self.with_regs(self.regs.with_reg(Target::A, self.read8(self.next_word()))).advanced(3), 3, 16, "LD A,nn"@)
    }

    /// LD A,n: Set A = n.
    pub open spec fn ld_a_n(self) -> Step {
        step_of(self.with_regs(self.regs.with_reg(Target::A, self.next_byte())).advanced(2), 2, 8, "LD A,n"@)
    }

    /// LD n,A: Set n = A.
    pub open spec fn ld_r_a(self, target: Target) -> Step {
        step_of(self.with_regs(self.regs.with_reg(target, self.regs.a)).advanced(1), 1, 4, "LD "@ + target.text() + ",A"@)
    }

    /// LD (rr),A: Set (rr) = A.
    pub open spec fn ld_vr_a(self, target: VirtTarget) -> Step {
        step_of(self.write8(self.regs.virt(target), self.regs.a).advanced(1), 1, 8, "LD "@ + target.text() + ",A"@)
    }

    /// LD (nn),A: Set (nn) = A.
    pub open spec fn ld_nn_a(self) -> Step {
        step_of(self.write8(self.next_word(), self.regs.a).advanced(3), 3, 16, "LD nn,A"@)
    }

    /// LD A,(C): Set A = (0xFF00 + C).
    pub open spec fn ld_a_c(self) -> Step {
        step_of(self.with_regs(self.regs.with_reg(Target::A, self.read8((0xFF00 + self.regs.c) as u16))).advanced(1), 1, 8, "LD A,(C)"@)
    }

    /// LD (C),A: Set (0xFF00 + C) = A.
    pub open spec fn ld_c_a(self) -> Step {
        step_of(self.write8((0xFF00 + self.regs.c) as u16, self.regs.a).advanced(1), 1, 8, "LD (C),A"@)
    }

    /// LD A,(HLD): Set A = (HL). HL -= 1.
    pub open spec fn ld_a_hld(self) -> Step {
        step_of(self.with_regs(self.regs.with_reg(Target::A, self.read8(self.hl())).with_virt(VirtTarget::HL, (self.hl() - 1) as u16)).advanced(1), 1, 8, "LD A,(HLD)"@)
    }

    /// LD (HLD),A: Set (HL) = A. HL -= 1.
    pub open spec fn ld_hld_a(self) -> Step {
        step_of(self.write8(self.hl(), self.regs.a).with_regs(self.regs.with_virt(VirtTarget::HL, (self.hl() - 1) as u16)).advanced(1), 1, 8, "LD (HLD),A"@)
    }

    /// LD A,(HLI): Set A = (HL). HL += 1.
    pub open spec fn ld_a_hli(self) -> Step {
        step_of(self.with_regs(self.regs.with_reg(Target::A, self.read8(self.hl())).with_virt(VirtTarget::HL, (self.hl() + 1) as u16)).advanced(1), 1, 8, "LD A,(HLI)"@)
    }

    /// LD (HLI),A: Set (HL) = A. HL += 1.
    pub open spec fn ld_hli_a(self) -> Step {
        step_of(self.write8(self.hl(), self.regs.a).with_regs(self.regs.with_virt(VirtTarget::HL, (self.hl() + 1) as u16)).advanced(1), 1, 8, "LD (HLI),A"@)
    }

    /// LDH (n),A: Set (0xFF00 + n) = A.
    pub open spec fn ldh_n_a(self) -> Step {
        step_of(self.write8((0xFF00 + self.next_byte()) as u16, self.regs.a).advanced(2), 2, 12, "LDH (n),A"@)
    }

    /// LDH A,(n): Set A = (0xFF00 + n).
    pub open spec fn ldh_a_n(self) -> Step {
        step_of(self.with_regs(self.regs.with_reg(Target::A, self.read8((0xFF00 + self.next_byte()) as u16))).advanced(2), 2, 12, "LDH A,(n)"@)
    }

    /// LD n,nn: Set n = nn.
    pub open spec fn ld_n_nn(self, target: VirtTarget) -> Step {
        step_of(self.with_regs(self.regs.with_virt(target, self.next_word())).advanced(3), 3, 12, "LD "@ + target.text() + ",n"@)
    }

    /// LD SP,nn: Set SP = nn.
    pub open spec fn ld_n_nn_sp(self) -> Step {
        step_of(CpuView { sp: self.next_word(), ..self }.advanced(3), 3, 12, "LD SP,nn"@)
    }

    /// LD SP,HL: Set SP = HL.
    pub open spec fn ld_sp_hl(self) -> Step {
        step_of(CpuView { sp: self.hl(), ..self }.advanced(1), 1, 8, "LD SP,HL"@)
    }

    /// LD HL,SP+n: Set HL = SP + n (signed n).
    pub open spec fn ld_hl_sp_n(self) -> Step {
        step_of(self.with_regs(sp_n_regs(self.regs, self.sp, self.next_byte()).with_virt(VirtTarget::HL, sp_plus(self.sp, self.next_byte()))).advanced(2), 2, 12, "LD HL,SP+n"@)
    }

    /// LD (nn),SP: Set (nn) = SP.
    pub open spec fn ld_nn_sp(self) -> Step {
        step_of(CpuView { mmu: self.mmu.written_word(self.next_word(), self.sp), ..self }.advanced(3), 3, 20, "LD (nn),SP"@)
    }

    /// PUSH nn: Push virtual register nn to stack.
    pub open spec fn push_nn(self, target: VirtTarget) -> Step {
        step_of(self.pushed(self.regs.virt(target)).advanced(1), 1, 16, "PUSH "@ + target.text())
    }

    /// POP nn: Pop 2 bytes off stack into virtual register nn.
    pub open spec fn pop_nn(self, target: VirtTarget) -> Step {
        step_of(self.popped().with_regs(self.regs.with_virt(target, self.stack_top())).advanced(1), 1, 12, "POP "@ + target.text())
    }

    /// ADD A,n: A += n.
    pub open spec fn add_a_n(self, target: Target) -> Step {
        step_of(self.with_regs(add_regs(self.regs, self.regs.reg(target), false)).advanced(1), 1, 4, "ADD A,"@ + target.text())
    }

    /// ADD A,n with n = (HL).
    pub open spec fn add_a_n_hl(self) -> Step {
        step_of(self.with_regs(add_regs(self.regs, self.read8(self.hl()), false)).advanced(1), 1, 8, "ADD A,(HL)"@)
    }

    /// ADD A,n with an immediate n.
    pub open spec fn add_a_n_n(self) -> Step {
        step_of(self.with_regs(add_regs(self.regs, self.next_byte(), false)).advanced(2), 2, 8, "ADD A,n"@)
    }

    /// ADC A,n: A += (n + carry flag).
    pub open spec fn adc_a_n(self, target: Target) -> Step {
        step_of(self.with_regs(add_regs(self.regs, self.regs.reg(target), true)).advanced(1), 1, 4, "ADC A,"@ + target.text())
    }

    /// ADC A,n with n = (HL).
    pub open spec fn adc_a_n_hl(self) -> Step {
        step_of(self.with_regs(add_regs(self.regs, self.read8(self.hl()), true)).advanced(1), 1, 8, "ADC A,(HL)"@)
    }

    /// ADC A,n with an immediate n.
    pub open spec fn adc_a_n_n(self) -> Step {
        step_of(self.with_regs(add_regs(self.regs, self.next_byte(), true)).advanced(2), 2, 8, "ADC A,n"@)
    }

    /// SUB n: A -= n.
    pub open spec fn sub_n(self, target: Target) -> Step {
        step_of(self.with_regs(sub_regs(self.regs, self.regs.reg(target), false)).advanced(1), 1, 4, "SUB "@ + target.text())
    }

    /// SUB n with n = (HL).
    pub open spec fn sub_n_hl(self) -> Step {
        step_of(self.with_regs(sub_regs(self.regs, self.read8(self.hl()), false)).advanced(1), 1, 8, "SUB (HL)"@)
    }

    /// SUB n with an immediate n.
    pub open spec fn sub_n_n(self) -> Step {
        step_of(self.with_regs(sub_regs(self.regs, self.next_byte(), false)).advanced(2), 2, 8, "SUB n"@)
    }

    /// SBC A,n: A -= (n + carry flag).
    pub open spec fn sbc_n(self, target: Target) -> Step {
        step_of(self.with_regs(sub_regs(self.regs, self.regs.reg(target), true)).advanced(1), 1, 4, "SBC A,"@ + target.text())
    }

    /// SBC A,n with n = (HL).
    pub open spec fn sbc_n_hl(self) -> Step {
        step_of(self.with_regs(sub_regs(self.regs, self.read8(self.hl()), true)).advanced(1), 1, 8, "SBC A,(HL)"@)
    }

    /// SBC A,n with an immediate n.
    pub open spec fn sbc_n_n(self) -> Step {
        step_of(self.with_regs(sub_regs(self.regs, self.next_byte(), true)).advanced(2), 2, 8, "SBC A,n"@)
    }

    /// AND n: Set A = A AND n.
    pub open spec fn and_n(self, target: Target) -> Step {
        step_of(self.with_regs(and_regs(self.regs, self.regs.reg(target))).advanced(1), 1, 4, "AND "@ + target.text())
    }

    /// AND n with n = (HL).
    pub open spec fn and_n_hl(self) -> Step {
        step_of(self.with_regs(and_regs(self.regs, self.read8(self.hl()))).advanced(1), 1, 8, "AND (HL)"@)
    }

    /// AND n with an immediate n.
    pub open spec fn and_n_n(self) -> Step {
        step_of(self.with_regs(and_regs(self.regs, self.next_byte())).advanced(2), 2, 8, "AND n"@)
    }

    /// OR n: Set A = A OR n.
    pub open spec fn or_n(self, target: Target) -> Step {
        step_of(self.with_regs(or_regs(self.regs, self.regs.reg(target))).advanced(1), 1, 4, "OR "@ + target.text())
    }

    /// OR n with n = (HL).
    pub open spec fn or_n_hl(self) -> Step {
        step_of(self.with_regs(or_regs(self.regs, self.read8(self.hl()))).advanced(1), 1, 8, "OR (HL)"@)
    }

    /// OR n with an immediate n.
    pub open spec fn or_n_n(self) -> Step {
        step_of(self.with_regs(or_regs(self.regs, self.next_byte())).advanced(2), 2, 8, "OR n"@)
    }

    /// XOR n: Set A = A XOR n.
    pub open spec fn xor_n(self, target: Target) -> Step {
        step_of(self.with_regs(xor_regs(self.regs, self.regs.reg(target))).advanced(1), 1, 4, "XOR "@ + target.text())
    }

    /// XOR n with n = (HL).
    pub open spec fn xor_n_hl(self) -> Step {
        step_of(self.with_regs(xor_regs(self.regs, self.read8(self.hl()))).advanced(1), 1, 8, "XOR (HL)"@)
    }

    /// XOR n with an immediate n.
    pub open spec fn xor_n_n(self) -> Step {
        step_of(self.with_regs(xor_regs(self.regs, self.next_byte())).advanced(2), 2, 8, "XOR n"@)
    }

    /// CP n: Compare A with n (flags of A - n).
    pub open spec fn cp_n(self, target: Target) -> Step {
        step_of(self.with_regs(cp_regs(self.regs, self.regs.reg(target))).advanced(1), 1, 4, "CP "@ + target.text())
    }

    /// CP n with n = (HL).
    pub open spec fn cp_n_hl(self) -> Step {
        step_of(self.with_regs(cp_regs(self.regs, self.read8(self.hl()))).advanced(1), 1, 8, "CP (HL)"@)
    }

    /// CP n with an immediate n.
    pub open spec fn cp_n_n(self) -> Step {
        step_of(self.with_regs(cp_regs(self.regs, self.next_byte())).advanced(2), 2, 8, "CP n"@)
    }

    /// INC n: n += 1.
    pub open spec fn inc_n(self, target: Target) -> Step {
        step_of(self.with_regs(inc_flags(self.regs, self.regs.reg(target)).with_reg(target, ((self.regs.reg(target) + 1) % 256) as u8)).advanced(1), 1, 4, "INC "@ + target.text())
    }

    /// INC (HL): (HL) += 1.
    pub open spec fn inc_n_hl(self) -> Step {
        step_of(self.with_regs(inc_flags(self.regs, self.read8(self.hl()))).write8(self.hl(), ((self.read8(self.hl()) + 1) % 256) as u8).advanced(1), 1, 12, "INC (HL)"@)
    }

    /// DEC n: n -= 1.
    pub open spec fn dec_n(self, target: Target) -> Step {
        step_of(self.with_regs(dec_flags(self.regs, self.regs.reg(target)).with_reg(target, ((self.regs.reg(target) + 255) % 256) as u8)).advanced(1), 1, 4, "DEC "@ + target.text())
    }

    /// DEC (HL): (HL) -= 1.
    pub open spec fn dec_n_hl(self) -> Step {
        step_of(self.with_regs(dec_flags(self.regs, self.read8(self.hl()))).write8(self.hl(), ((self.read8(self.hl()) + 255) % 256) as u8).advanced(1), 1, 12, "DEC (HL)"@)
    }

    /// ADD HL,n: HL += n.
    pub open spec fn add_hl_n(self, target: VirtTarget) -> Step {
        step_of(self.with_regs(add_hl_regs(self.regs, self.regs.virt(target))).advanced(1), 1, 8, "ADD HL,"@ + target.text())
    }

    /// ADD HL,SP: HL += SP.
    pub open spec fn add_hl_n_sp(self) -> Step {
        step_of(self.with_regs(add_hl_regs(self.regs, self.sp)).advanced(1), 1, 8, "ADD HL,SP"@)
    }

    /// ADD SP,n: SP += n (signed n).
    pub open spec fn add_sp_n(self) -> Step {
        step_of(CpuView { sp: sp_plus(self.sp, self.next_byte()), ..self.with_regs(sp_n_regs(self.regs, self.sp, self.next_byte())) }.advanced(2), 2, 16, "ADD SP,n"@)
    }

    /// INC nn: nn += 1.
    pub open spec fn inc_nn(self, target: VirtTarget) -> Step {
        step_of(self.with_regs(self.regs.with_virt(target, wrap16(self.regs.virt(target) + 1))).advanced(1), 1, 8, "INC "@ + target.text())
    }

    /// INC SP: SP += 1.
    pub open spec fn inc_nn_sp(self) -> Step {
        step_of(CpuView { sp: wrap16(self.sp + 1), ..self }.advanced(1), 1, 8, "INC SP"@)
    }

    /// DEC nn: nn -= 1.
    pub open spec fn dec_nn(self, target: VirtTarget) -> Step {
        step_of(self.with_regs(self.regs.with_virt(target, wrap16(self.regs.virt(target) + 0xFFFF))).advanced(1), 1, 8, "DEC "@ + target.text())
    }

    /// DEC SP: SP -= 1.
    pub open spec fn dec_nn_sp(self) -> Step {
        step_of(CpuView { sp: wrap16(self.sp + 0xFFFF), ..self }.advanced(1), 1, 8, "DEC SP"@)
    }

    /// SWAP n: exchange the two nibbles of n.
    pub open spec fn swap_n(self, target: Target) -> Step {
        step_of(self.with_regs(self.regs.with_flags_reset().with_flag(RegFlag::Z, swapped(self.regs.reg(target)) == 0).with_reg(target, swapped(self.regs.reg(target)))).advanced(2), 2, 8, "SWAP "@ + target.text())
    }

    /// SWAP n with n = (HL).
    pub open spec fn swap_n_hl(self) -> Step {
        step_of(self.with_regs(self.regs.with_flags_reset().with_flag(RegFlag::Z, swapped(self.read8(self.hl())) == 0)).write8(self.hl(), swapped(self.read8(self.hl()))).advanced(2), 2, 16, "SWAP (HL)"@)
    }

    /// RLC n: rotate n left, bit 7 into bit 0 and the carry.
    pub open spec fn rlc_n(self, target: Target) -> Step {
        step_of(self.with_regs(shift_flags(self.regs, rlc_value(self.regs.reg(target)), self.regs.reg(target) >= 0x80).with_reg(target, rlc_value(self.regs.reg(target)))).advanced(2), 2, 8, "RLC "@ + target.text())
    }

    /// RLC n with n = (HL).
    pub open spec fn rlc_n_hl(self) -> Step {
        step_of(self.with_regs(shift_flags(self.regs, rlc_value(self.read8(self.hl())), self.read8(self.hl()) >= 0x80)).write8(self.hl(), rlc_value(self.read8(self.hl()))).advanced(2), 2, 16, "RLC (HL)"@)
    }

    /// RL n: rotate n left through the carry.
    pub open spec fn rl_n(self, target: Target) -> Step {
        step_of(self.with_regs(shift_flags(self.regs, rl_value(self.regs.reg(target), self.regs.flag(RegFlag::C)), self.regs.reg(target) >= 0x80).with_reg(target, rl_value(self.regs.reg(target), self.regs.flag(RegFlag::C)))).advanced(2), 2, 8, "RL "@ + target.text())
    }

    /// RL n with n = (HL).
    pub open spec fn rl_n_hl(self) -> Step {
        step_of(self.with_regs(shift_flags(self.regs, rl_value(self.read8(self.hl()), self.regs.flag(RegFlag::C)), self.read8(self.hl()) >= 0x80)).write8(self.hl(), rl_value(self.read8(self.hl()), self.regs.flag(RegFlag::C))).advanced(2), 2, 16, "RL (HL)"@)
    }

    /// RRC n: rotate n right, bit 0 into bit 7 and the carry.
    pub open spec fn rrc_n(self, target: Target) -> Step {
        step_of(self.with_regs(shift_flags(self.regs, rrc_value(self.regs.reg(target)), self.regs.reg(target) % 2 == 1).with_reg(target, rrc_value(self.regs.reg(target)))).advanced(2), 2, 8, "RRC "@ + target.text())
    }

    /// RRC n with n = (HL).
    pub open spec fn rrc_n_hl(self) -> Step {
        step_of(self.with_regs(shift_flags(self.regs, rrc_value(self.read8(self.hl())), self.read8(self.hl()) % 2 == 1)).write8(self.hl(), rrc_value(self.read8(self.hl()))).advanced(2), 2, 16, "RRC (HL)"@)
    }

    /// RR n: rotate n right through the carry.
    pub open spec fn rr_n(self, target: Target) -> Step {
        step_of(self.with_regs(shift_flags(self.regs, rr_value(self.regs.reg(target), self.regs.flag(RegFlag::C)), self.regs.reg(target) % 2 == 1).with_reg(target, rr_value(self.regs.reg(target), self.regs.flag(RegFlag::C)))).advanced(2), 2, 8, "RR "@ + target.text())
    }

    /// RR n with n = (HL).
    pub open spec fn rr_n_hl(self) -> Step {
        step_of(self.with_regs(shift_flags(self.regs, rr_value(self.read8(self.hl()), self.regs.flag(RegFlag::C)), self.read8(self.hl()) % 2 == 1)).write8(self.hl(), rr_value(self.read8(self.hl()), self.regs.flag(RegFlag::C))).advanced(2), 2, 16, "RR (HL)"@)
    }

    /// SLA n: shift n left into the carry.
    pub open spec fn sla_n(self, target: Target) -> Step {
        step_of(self.with_regs(shift_flags(self.regs, sla_value(self.regs.reg(target)), self.regs.reg(target) >= 0x80).with_reg(target, sla_value(self.regs.reg(target)))).advanced(2), 2, 8, "SLA "@ + target.text())
    }

    /// SLA n with n = (HL).
    pub open spec fn sla_n_hl(self) -> Step {
        step_of(self.with_regs(shift_flags(self.regs, sla_value(self.read8(self.hl())), self.read8(self.hl()) >= 0x80)).write8(self.hl(), sla_value(self.read8(self.hl()))).advanced(2), 2, 16, "SLA (HL)"@)
    }

    /// SRA n: shift n right into the carry, keeping bit 7.
    pub open spec fn sra_n(self, target: Target) -> Step {
        step_of(self.with_regs(shift_flags(self.regs, sra_value(self.regs.reg(target)), self.regs.reg(target) % 2 == 1).with_reg(target, sra_value(self.regs.reg(target)))).advanced(2), 2, 8, "SRA "@ + target.text())
    }

    /// SRA n with n = (HL).
    pub open spec fn sra_n_hl(self) -> Step {
        step_of(self.with_regs(shift_flags(self.regs, sra_value(self.read8(self.hl())), self.read8(self.hl()) % 2 == 1)).write8(self.hl(), sra_value(self.read8(self.hl()))).advanced(2), 2, 16, "SRA (HL)"@)
    }

    /// SRL n: shift n right into the carry.
    pub open spec fn srl_n(self, target: Target) -> Step {
        step_of(self.with_regs(shift_flags(self.regs, srl_value(self.regs.reg(target)), self.regs.reg(target) % 2 == 1).with_reg(target, srl_value(self.regs.reg(target)))).advanced(2), 2, 8, "SRL "@ + target.text())
    }

    /// SRL n with n = (HL).
    pub open spec fn srl_n_hl(self) -> Step {
        step_of(self.with_regs(shift_flags(self.regs, srl_value(self.read8(self.hl())), self.read8(self.hl()) % 2 == 1)).write8(self.hl(), srl_value(self.read8(self.hl()))).advanced(2), 2, 16, "SRL (HL)"@)
    }

    /// RLCA: the rotate of A; Z is set iff the result is 0.
    pub open spec fn rlca(self) -> Step {
        step_of(self.with_regs(shift_flags(self.regs, rlc_value(self.regs.a), self.regs.a >= 0x80).with_reg(Target::A, rlc_value(self.regs.a))).advanced(1), 1, 4, "RLCA"@)
    }

    /// RLA: the rotate of A; Z is set iff the result is 0.
    pub open spec fn rla(self) -> Step {
        step_of(self.with_regs(shift_flags(self.regs, rl_value(self.regs.a, self.regs.flag(RegFlag::C)), self.regs.a >= 0x80).with_reg(Target::A, rl_value(self.regs.a, self.regs.flag(RegFlag::C)))).advanced(1), 1, 4, "RLA"@)
    }

    /// RRCA: the rotate of A; Z is set iff the result is 0.
    pub open spec fn rrca(self) -> Step {
        step_of(self.with_regs(shift_flags(self.regs, rrc_value(self.regs.a), self.regs.a % 2 == 1).with_reg(Target::A, rrc_value(self.regs.a))).advanced(1), 1, 4, "RRCA"@)
    }

    /// RRA: the rotate of A; Z is set iff the result is 0.
    pub open spec fn rra(self) -> Step {
        step_of(self.with_regs(shift_flags(self.regs, rr_value(self.regs.a, self.regs.flag(RegFlag::C)), self.regs.a % 2 == 1).with_reg(Target::A, rr_value(self.regs.a, self.regs.flag(RegFlag::C)))).advanced(1), 1, 4, "RRA"@)
    }

    /// BIT b,r: Z = bit b of r is 0; N = 0, H = 1; C unchanged.
    pub open spec fn bit_b_r(self, b: usize, target: Target) -> Step {
        step_of(self.with_regs(self.regs.with_flag(RegFlag::Z, self.regs.reg(target) & (1u8 << b) == 0).with_flag(RegFlag::N, false).with_flag(RegFlag::H, true)).advanced(2), 2, 8, "BIT "@ + digit_text(b) + ","@ + target.text())
    }

    /// BIT b,(HL): Z = bit b of (HL) is 0; N = 0, H = 1; C unchanged.
    pub open spec fn bit_b_r_hl(self, b: usize) -> Step {
        step_of(self.with_regs(self.regs.with_flag(RegFlag::Z, self.read8(self.hl()) & (1u8 << b) == 0).with_flag(RegFlag::N, false).with_flag(RegFlag::H, true)).advanced(2), 2, 12, "BIT "@ + digit_text(b) + ",(HL)"@)
    }

    /// SET b,r: set bit b of r.
    pub open spec fn set_b_r(self, b: usize, target: Target) -> Step {
        step_of(self.with_regs(self.regs.with_reg(target, self.regs.reg(target) | (1u8 << b))).advanced(2), 2, 8, "SET "@ + digit_text(b) + ","@ + target.text())
    }

    /// SET b,(HL): set bit b of (HL).
    pub open spec fn set_b_r_hl(self, b: usize) -> Step {
        step_of(self.write8(self.hl(), self.read8(self.hl()) | (1u8 << b)).advanced(2), 2, 16, "SET "@ + digit_text(b) + ",(HL)"@)
    }

    /// RES b,r: clear bit b of r.
    pub open spec fn res_b_r(self, b: usize, target: Target) -> Step {
        step_of(self.with_regs(self.regs.with_reg(target, self.regs.reg(target) & !(1u8 << b))).advanced(2), 2, 8, "RES "@ + digit_text(b) + ","@ + target.text())
    }

    /// RES b,(HL): clear bit b of (HL).
    pub open spec fn res_b_r_hl(self, b: usize) -> Step {
        step_of(self.write8(self.hl(), self.read8(self.hl()) & !(1u8 << b)).advanced(2), 2, 16, "RES "@ + digit_text(b) + ",(HL)"@)
    }

    /// DAA: decimal-adjust A after a BCD addition or subtraction.
    pub open spec fn daa(self) -> Step {
        step_of(self.with_regs(self.regs.with_flag(RegFlag::Z, daa_value(self.regs.a, self.regs.flag(RegFlag::N), self.regs.flag(RegFlag::H), self.regs.flag(RegFlag::C)).0 == 0).with_flag(RegFlag::H, false).with_flag(RegFlag::C, daa_value(self.regs.a, self.regs.flag(RegFlag::N), self.regs.flag(RegFlag::H), self.regs.flag(RegFlag::C)).1).with_reg(Target::A, daa_value(self.regs.a, self.regs.flag(RegFlag::N), self.regs.flag(RegFlag::H), self.regs.flag(RegFlag::C)).0)).advanced(1), 1, 4, "DAA"@)
    }

    /// CPL: A = NOT A; N = H = 1.
    pub open spec fn cpl(self) -> Step {
        step_of(self.with_regs(self.regs.with_flag(RegFlag::N, true).with_flag(RegFlag::H, true).with_reg(Target::A, self.regs.a ^ 0xFF)).advanced(1), 1, 4, "CPL"@)
    }

    /// CCF: complement the carry flag; N = H = 0.
    pub open spec fn ccf(self) -> Step {
        step_of(self.with_regs(self.regs.with_flag(RegFlag::N, false).with_flag(RegFlag::H, false).with_flag(RegFlag::C, !self.regs.flag(RegFlag::C))).advanced(1), 1, 4, "CCF"@)
    }

    /// SCF: set the carry flag; N = H = 0.
    pub open spec fn scf(self) -> Step {
        step_of(self.with_regs(self.regs.with_flag(RegFlag::N, false).with_flag(RegFlag::H, false).with_flag(RegFlag::C, true)).advanced(1), 1, 4, "SCF"@)
    }

    /// NOP: do nothing.
    pub open spec fn nop(self) -> Step {
        step_of(self.advanced(1), 1, 4, "NOP"@)
    }

    /// HALT: halt until an interrupt.
    pub open spec fn halt(self) -> Step {
        step_of(CpuView { is_halted: true, ..self }.advanced(1), 1, 4, "HALT"@)
    }

    /// STOP: stop the CPU.
    pub open spec fn stop(self) -> Step {
        step_of(CpuView { is_stopped: true, ..self }.advanced(2), 2, 4, "STOP"@)
    }

    /// DI: disable interrupts after the next instruction.
    pub open spec fn di(self) -> Step {
        step_of(CpuView { di_countdown: 2, ..self }.advanced(1), 1, 4, "DI"@)
    }

    /// EI: enable interrupts after the next instruction.
    pub open spec fn ei(self) -> Step {
        step_of(CpuView { ei_countdown: 2, ..self }.advanced(1), 1, 4, "EI"@)
    }

    /// JP nn: jump to nn.
    pub open spec fn jp_nn(self) -> Step {
        step_of(CpuView { pc: self.next_word(), ..self }, 3, 16, "JP nn"@)
    }

    /// JP cc,nn: jump to nn iff the flag has the expected value.
    pub open spec fn jp_cc_nn(self, flag: RegFlag, expected_value: bool) -> Step {
        step_of(if self.regs.flag(flag) == expected_value { CpuView { pc: self.next_word(), ..self } } else { self.advanced(3) }, 3, if self.regs.flag(flag) == expected_value { 16 } else { 12 }, "JP "@ + cc_text(flag, expected_value) + ",nn"@)
    }

    /// JP (HL): jump to HL.
    pub open spec fn jp_hl(self) -> Step {
        step_of(CpuView { pc: self.hl(), ..self }, 1, 4, "JP (HL)"@)
    }

    /// JR n: add the signed byte n to the current address (that of the JR) and jump there.
    pub open spec fn jr_n(self) -> Step {
        step_of(CpuView { pc: wrap16(self.pc + signed8(self.next_byte()) + 0x10000), ..self }, 2, 12, "JR n"@)
    }

    /// JR cc,n: jump relative by n iff the flag has the expected value.
    pub open spec fn jr_cc_n(self, flag: RegFlag, expected_value: bool) -> Step {
        step_of(if self.regs.flag(flag) == expected_value { CpuView { pc: wrap16(self.pc + signed8(self.next_byte()) + 0x10000), ..self } } else { self.advanced(2) }, 2, if self.regs.flag(flag) == expected_value { 12 } else { 8 }, "JR "@ + cc_text(flag, expected_value) + ",n"@)
    }

    /// CALL nn: push the address of the next instruction and jump to nn.
    pub open spec fn call_nn(self) -> Step {
        step_of(CpuView { pc: self.pushed((self.pc + 3) as u16).next_word(), ..self.pushed((self.pc + 3) as u16) }, 3, 24, "CALL nn"@)
    }

    /// CALL cc,nn: CALL nn iff the flag has the expected value.
    pub open spec fn call_cc_nn(self, flag: RegFlag, expected_value: bool) -> Step {
        step_of(if self.regs.flag(flag) == expected_value { CpuView { pc: self.pushed((self.pc + 3) as u16).next_word(), ..self.pushed((self.pc + 3) as u16) } } else { self.advanced(3) }, 3, if self.regs.flag(flag) == expected_value { 24 } else { 12 }, "CALL "@ + cc_text(flag, expected_value) + ",nn"@)
    }

    /// RST n: push the current address (that of the RST) and jump to n.
    pub open spec fn rst_n(self, n: u8) -> Step {
        step_of(CpuView { pc: n as u16, ..self.pushed(self.pc) }, 1, 16, "RST n"@)
    }

    /// RET: pop the return address and jump to it.
    pub open spec fn ret(self) -> Step {
        step_of(CpuView { pc: self.stack_top(), ..self.popped() }, 1, 16, "RET"@)
    }

    /// RET cc: RET iff the flag has the expected value.
    pub open spec fn ret_cc(self, flag: RegFlag, expected_value: bool) -> Step {
        step_of(if self.regs.flag(flag) == expected_value { CpuView { pc: self.stack_top(), ..self.popped() } } else { self.advanced(1) }, 1, if self.regs.flag(flag) == expected_value { 20 } else { 8 }, "RET "@ + cc_text(flag, expected_value))
    }

    /// RETI: RET and enable interrupts after this instruction.
    pub open spec fn reti(self) -> Step {
        step_of(CpuView { pc: self.stack_top(), ei_countdown: 1, ..self.popped() }, 1, 16, "RETI"@)
    }
}

impl CpuView {
    /// What [Self::ld_nn_n] needs to run without failing.
    pub open spec fn ok_ld_nn_n(self, target: Target) -> bool {
        (self.pc + 2 <= 0xFFFF)
        && (self.mmu.reads_ok((self.pc + 1) as u16))
    }

    /// What [Self::ld_r1_r2] needs to run without failing.
    pub open spec fn ok_ld_r1_r2(self, r1: Target, r2: Target) -> bool {
        (self.pc + 1 <= 0xFFFF)
    }

    /// What [Self::ld_r1_hl] needs to run without failing.
    pub open spec fn ok_ld_r1_hl(self, r1: Target) -> bool {
        (self.pc + 1 <= 0xFFFF)
        && (self.mmu.reads_ok(self.hl()))
    }

    /// What [Self::ld_hl_r2] needs to run without failing.
    pub open spec fn ok_ld_hl_r2(self, r2: Target) -> bool {
        (self.pc + 1 <= 0xFFFF)
        && (self.mmu.write_safe(self.hl()))
    }

    /// What [Self::ld_hl_n] needs to run without failing.
    pub open spec fn ok_ld_hl_n(self) -> bool {
        (self.pc + 2 <= 0xFFFF)
        && (self.mmu.reads_ok((self.pc + 1) as u16))
        && (self.mmu.write_safe(self.hl()))
    }

    /// What [Self::ld_a_vr] needs to run without failing.
    pub open spec fn ok_ld_a_vr(self, target: VirtTarget) -> bool {
        (self.pc + 1 <= 0xFFFF)
        && (self.mmu.reads_ok(self.regs.virt(target)))
    }

    /// What [Self::ld_a_nn] needs to run without failing.
    pub open spec fn ok_ld_a_nn(self) -> bool {
        (self.pc + 3 <= 0xFFFF)
        && (self.mmu.reads_ok((self.pc + 1) as u16))
        && (self.mmu.reads_ok((self.pc + 2) as u16))
        && (self.mmu.reads_ok(self.next_word()))
    }

    /// What [Self::ld_a_n] needs to run without failing.
    pub open spec fn ok_ld_a_n(self) -> bool {
        (self.pc + 2 <= 0xFFFF)
        && (self.mmu.reads_ok((self.pc + 1) as u16))
    }

    /// What [Self::ld_r_a] needs to run without failing.
    pub open spec fn ok_ld_r_a(self, target: Target) -> bool {
        (self.pc + 1 <= 0xFFFF)
    }

    /// What [Self::ld_vr_a] needs to run without failing.
    pub open spec fn ok_ld_vr_a(self, target: VirtTarget) -> bool {
        (self.pc + 1 <= 0xFFFF)
        && (self.mmu.write_safe(self.regs.virt(target)))
    }

    /// What [Self::ld_nn_a] needs to run without failing.
    pub open spec fn ok_ld_nn_a(self) -> bool {
        (self.pc + 3 <= 0xFFFF)
        && (self.mmu.reads_ok((self.pc + 1) as u16))
        && (self.mmu.reads_ok((self.pc + 2) as u16))
        && (self.mmu.write_safe(self.next_word()))
    }

    /// What [Self::ld_a_c] needs to run without failing.
    pub open spec fn ok_ld_a_c(self) -> bool {
        (self.pc + 1 <= 0xFFFF)
        && (self.mmu.reads_ok((0xFF00 + self.regs.c) as u16))
    }

    /// What [Self::ld_c_a] needs to run without failing.
    pub open spec fn ok_ld_c_a(self) -> bool {
        (self.pc + 1 <= 0xFFFF)
        && (self.mmu.write_safe((0xFF00 + self.regs.c) as u16))
    }

    /// What [Self::ld_a_hld] needs to run without failing.
    pub open spec fn ok_ld_a_hld(self) -> bool {
        (self.pc + 1 <= 0xFFFF)
        && (self.hl() != 0)
        && (self.mmu.reads_ok(self.hl()))
    }

    /// What [Self::ld_hld_a] needs to run without failing.
    pub open spec fn ok_ld_hld_a(self) -> bool {
        (self.pc + 1 <= 0xFFFF)
        && (self.hl() != 0)
        && (self.mmu.write_safe(self.hl()))
    }

    /// What [Self::ld_a_hli] needs to run without failing.
    pub open spec fn ok_ld_a_hli(self) -> bool {
        (self.pc + 1 <= 0xFFFF)
        && (self.hl() != 0xFFFF)
        && (self.mmu.reads_ok(self.hl()))
    }

    /// What [Self::ld_hli_a] needs to run without failing.
    pub open spec fn ok_ld_hli_a(self) -> bool {
        (self.pc + 1 <= 0xFFFF)
        && (self.hl() != 0xFFFF)
        && (self.mmu.write_safe(self.hl()))
    }

    /// What [Self::ldh_n_a] needs to run without failing.
    pub open spec fn ok_ldh_n_a(self) -> bool {
        (self.pc + 2 <= 0xFFFF)
        && (self.mmu.reads_ok((self.pc + 1) as u16))
        && (self.mmu.write_safe((0xFF00 + self.next_byte()) as u16))
    }

    /// What [Self::ldh_a_n] needs to run without failing.
    pub open spec fn ok_ldh_a_n(self) -> bool {
        (self.pc + 2 <= 0xFFFF)
        && (self.mmu.reads_ok((self.pc + 1) as u16))
        && (self.mmu.reads_ok((0xFF00 + self.next_byte()) as u16))
    }

    /// What [Self::ld_n_nn] needs to run without failing.
    pub open spec fn ok_ld_n_nn(self, target: VirtTarget) -> bool {
        (self.pc + 3 <= 0xFFFF)
        && (self.mmu.reads_ok((self.pc + 1) as u16))
        && (self.mmu.reads_ok((self.pc + 2) as u16))
    }

    /// What [Self::ld_n_nn_sp] needs to run without failing.
    pub open spec fn ok_ld_n_nn_sp(self) -> bool {
        (self.pc + 3 <= 0xFFFF)
        && (self.mmu.reads_ok((self.pc + 1) as u16))
        && (self.mmu.reads_ok((self.pc + 2) as u16))
    }

    /// What [Self::ld_sp_hl] needs to run without failing.
    pub open spec fn ok_ld_sp_hl(self) -> bool {
        (self.pc + 1 <= 0xFFFF)
    }

    /// What [Self::ld_hl_sp_n] needs to run without failing.
    pub open spec fn ok_ld_hl_sp_n(self) -> bool {
        (self.pc + 2 <= 0xFFFF)
        && (self.mmu.reads_ok((self.pc + 1) as u16))
    }

    /// What [Self::ld_nn_sp] needs to run without failing.
    pub open spec fn ok_ld_nn_sp(self) -> bool {
        (self.pc + 3 <= 0xFFFF)
        && (self.mmu.reads_ok((self.pc + 1) as u16))
        && (self.mmu.reads_ok((self.pc + 2) as u16))
        && (self.next_word() != 0xFFFF)
        && (self.mmu.word_write_safe(self.next_word()))
    }

    /// What [Self::push_nn] needs to run without failing.
    pub open spec fn ok_push_nn(self, target: VirtTarget) -> bool {
        (self.pc + 1 <= 0xFFFF)
        && (self.push_ok())
    }

    /// What [Self::pop_nn] needs to run without failing.
    pub open spec fn ok_pop_nn(self, target: VirtTarget) -> bool {
        (self.pc + 1 <= 0xFFFF)
        && (self.pop_ok())
    }

    /// What [Self::add_a_n] needs to run without failing.
    pub open spec fn ok_add_a_n(self, target: Target) -> bool {
        (self.pc + 1 <= 0xFFFF)
    }

    /// What [Self::add_a_n_hl] needs to run without failing.
    pub open spec fn ok_add_a_n_hl(self) -> bool {
        (self.pc + 1 <= 0xFFFF)
        && (self.mmu.reads_ok(self.hl()))
    }

    /// What [Self::add_a_n_n] needs to run without failing.
    pub open spec fn ok_add_a_n_n(self) -> bool {
        (self.pc + 2 <= 0xFFFF)
        && (self.mmu.reads_ok((self.pc + 1) as u16))
    }

    /// What [Self::adc_a_n] needs to run without failing.
    pub open spec fn ok_adc_a_n(self, target: Target) -> bool {
        (self.pc + 1 <= 0xFFFF)
    }

    /// What [Self::adc_a_n_hl] needs to run without failing.
    pub open spec fn ok_adc_a_n_hl(self) -> bool {
        (self.pc + 1 <= 0xFFFF)
        && (self.mmu.reads_ok(self.hl()))
    }

    /// What [Self::adc_a_n_n] needs to run without failing.
    pub open spec fn ok_adc_a_n_n(self) -> bool {
        (self.pc + 2 <= 0xFFFF)
        && (self.mmu.reads_ok((self.pc + 1) as u16))
    }

    /// What [Self::sub_n] needs to run without failing.
    pub open spec fn ok_sub_n(self, target: Target) -> bool {
        (self.pc + 1 <= 0xFFFF)
    }

    /// What [Self::sub_n_hl] needs to run without failing.
    pub open spec fn ok_sub_n_hl(self) -> bool {
        (self.pc + 1 <= 0xFFFF)
        && (self.mmu.reads_ok(self.hl()))
    }

    /// What [Self::sub_n_n] needs to run without failing.
    pub open spec fn ok_sub_n_n(self) -> bool {
        (self.pc + 2 <= 0xFFFF)
        && (self.mmu.reads_ok((self.pc + 1) as u16))
    }

    /// What [Self::sbc_n] needs to run without failing.
    pub open spec fn ok_sbc_n(self, target: Target) -> bool {
        (self.pc + 1 <= 0xFFFF)
    }

    /// What [Self::sbc_n_hl] needs to run without failing.
    pub open spec fn ok_sbc_n_hl(self) -> bool {
        (self.pc + 1 <= 0xFFFF)
        && (self.mmu.reads_ok(self.hl()))
    }

    /// What [Self::sbc_n_n] needs to run without failing.
    pub open spec fn ok_sbc_n_n(self) -> bool {
        (self.pc + 2 <= 0xFFFF)
        && (self.mmu.reads_ok((self.pc + 1) as u16))
    }

    /// What [Self::and_n] needs to run without failing.
    pub open spec fn ok_and_n(self, target: Target) -> bool {
        (self.pc + 1 <= 0xFFFF)
    }

    /// What [Self::and_n_hl] needs to run without failing.
    pub open spec fn ok_and_n_hl(self) -> bool {
        (self.pc + 1 <= 0xFFFF)
        && (self.mmu.reads_ok(self.hl()))
    }

    /// What [Self::and_n_n] needs to run without failing.
    pub open spec fn ok_and_n_n(self) -> bool {
        (self.pc + 2 <= 0xFFFF)
        && (self.mmu.reads_ok((self.pc + 1) as u16))
    }

    /// What [Self::or_n] needs to run without failing.
    pub open spec fn ok_or_n(self, target: Target) -> bool {
        (self.pc + 1 <= 0xFFFF)
    }

    /// What [Self::or_n_hl] needs to run without failing.
    pub open spec fn ok_or_n_hl(self) -> bool {
        (self.pc + 1 <= 0xFFFF)
        && (self.mmu.reads_ok(self.hl()))
    }

    /// What [Self::or_n_n] needs to run without failing.
    pub open spec fn ok_or_n_n(self) -> bool {
        (self.pc + 2 <= 0xFFFF)
        && (self.mmu.reads_ok((self.pc + 1) as u16))
    }

    /// What [Self::xor_n] needs to run without failing.
    pub open spec fn ok_xor_n(self, target: Target) -> bool {
        (self.pc + 1 <= 0xFFFF)
    }

    /// What [Self::xor_n_hl] needs to run without failing.
    pub open spec fn ok_xor_n_hl(self) -> bool {
        (self.pc + 1 <= 0xFFFF)
        && (self.mmu.reads_ok(self.hl()))
    }

    /// What [Self::xor_n_n] needs to run without failing.
    pub open spec fn ok_xor_n_n(self) -> bool {
        (self.pc + 2 <= 0xFFFF)
        && (self.mmu.reads_ok((self.pc + 1) as u16))
    }

    /// What [Self::cp_n] needs to run without failing.
    pub open spec fn ok_cp_n(self, target: Target) -> bool {
        (self.pc + 1 <= 0xFFFF)
    }

    /// What [Self::cp_n_hl] needs to run without failing.
    pub open spec fn ok_cp_n_hl(self) -> bool {
        (self.pc + 1 <= 0xFFFF)
        && (self.mmu.reads_ok(self.hl()))
    }

    /// What [Self::cp_n_n] needs to run without failing.
    pub open spec fn ok_cp_n_n(self) -> bool {
        (self.pc + 2 <= 0xFFFF)
        && (self.mmu.reads_ok((self.pc + 1) as u16))
    }

    /// What [Self::inc_n] needs to run without failing.
    pub open spec fn ok_inc_n(self, target: Target) -> bool {
        (self.pc + 1 <= 0xFFFF)
    }

    /// What [Self::inc_n_hl] needs to run without failing.
    pub open spec fn ok_inc_n_hl(self) -> bool {
        (self.pc + 1 <= 0xFFFF)
        && (self.mmu.reads_ok(self.hl()))
        && (self.mmu.write_safe(self.hl()))
    }

    /// What [Self::dec_n] needs to run without failing.
    pub open spec fn ok_dec_n(self, target: Target) -> bool {
        (self.pc + 1 <= 0xFFFF)
    }

    /// What [Self::dec_n_hl] needs to run without failing.
    pub open spec fn ok_dec_n_hl(self) -> bool {
        (self.pc + 1 <= 0xFFFF)
        && (self.mmu.reads_ok(self.hl()))
        && (self.mmu.write_safe(self.hl()))
    }

    /// What [Self::add_hl_n] needs to run without failing.
    pub open spec fn ok_add_hl_n(self, target: VirtTarget) -> bool {
        (self.pc + 1 <= 0xFFFF)
    }

    /// What [Self::add_hl_n_sp] needs to run without failing.
    pub open spec fn ok_add_hl_n_sp(self) -> bool {
        (self.pc + 1 <= 0xFFFF)
    }

    /// What [Self::add_sp_n] needs to run without failing.
    pub open spec fn ok_add_sp_n(self) -> bool {
        (self.pc + 2 <= 0xFFFF)
        && (self.mmu.reads_ok((self.pc + 1) as u16))
    }

    /// What [Self::inc_nn] needs to run without failing.
    pub open spec fn ok_inc_nn(self, target: VirtTarget) -> bool {
        (self.pc + 1 <= 0xFFFF)
    }

    /// What [Self::inc_nn_sp] needs to run without failing.
    pub open spec fn ok_inc_nn_sp(self) -> bool {
        (self.pc + 1 <= 0xFFFF)
    }

    /// What [Self::dec_nn] needs to run without failing.
    pub open spec fn ok_dec_nn(self, target: VirtTarget) -> bool {
        (self.pc + 1 <= 0xFFFF)
    }

    /// What [Self::dec_nn_sp] needs to run without failing.
    pub open spec fn ok_dec_nn_sp(self) -> bool {
        (self.pc + 1 <= 0xFFFF)
    }

    /// What [Self::swap_n] needs to run without failing.
    pub open spec fn ok_swap_n(self, target: Target) -> bool {
        (self.pc + 2 <= 0xFFFF)
    }

    /// What [Self::swap_n_hl] needs to run without failing.
    pub open spec fn ok_swap_n_hl(self) -> bool {
        (self.pc + 2 <= 0xFFFF)
        && (self.mmu.reads_ok(self.hl()))
        && (self.mmu.write_safe(self.hl()))
    }

    /// What [Self::rlc_n] needs to run without failing.
    pub open spec fn ok_rlc_n(self, target: Target) -> bool {
        (self.pc + 2 <= 0xFFFF)
    }

    /// What [Self::rlc_n_hl] needs to run without failing.
    pub open spec fn ok_rlc_n_hl(self) -> bool {
        (self.pc + 2 <= 0xFFFF)
        && (self.mmu.reads_ok(self.hl()))
        && (self.mmu.write_safe(self.hl()))
    }

    /// What [Self::rl_n] needs to run without failing.
    pub open spec fn ok_rl_n(self, target: Target) -> bool {
        (self.pc + 2 <= 0xFFFF)
    }

    /// What [Self::rl_n_hl] needs to run without failing.
    pub open spec fn ok_rl_n_hl(self) -> bool {
        (self.pc + 2 <= 0xFFFF)
        && (self.mmu.reads_ok(self.hl()))
        && (self.mmu.write_safe(self.hl()))
    }

    /// What [Self::rrc_n] needs to run without failing.
    pub open spec fn ok_rrc_n(self, target: Target) -> bool {
        (self.pc + 2 <= 0xFFFF)
    }

    /// What [Self::rrc_n_hl] needs to run without failing.
    pub open spec fn ok_rrc_n_hl(self) -> bool {
        (self.pc + 2 <= 0xFFFF)
        && (self.mmu.reads_ok(self.hl()))
        && (self.mmu.write_safe(self.hl()))
    }

    /// What [Self::rr_n] needs to run without failing.
    pub open spec fn ok_rr_n(self, target: Target) -> bool {
        (self.pc + 2 <= 0xFFFF)
    }

    /// What [Self::rr_n_hl] needs to run without failing.
    pub open spec fn ok_rr_n_hl(self) -> bool {
        (self.pc + 2 <= 0xFFFF)
        && (self.mmu.reads_ok(self.hl()))
        && (self.mmu.write_safe(self.hl()))
    }

    /// What [Self::sla_n] needs to run without failing.
    pub open spec fn ok_sla_n(self, target: Target) -> bool {
        (self.pc + 2 <= 0xFFFF)
    }

    /// What [Self::sla_n_hl] needs to run without failing.
    pub open spec fn ok_sla_n_hl(self) -> bool {
        (self.pc + 2 <= 0xFFFF)
        && (self.mmu.reads_ok(self.hl()))
        && (self.mmu.write_safe(self.hl()))
    }

    /// What [Self::sra_n] needs to run without failing.
    pub open spec fn ok_sra_n(self, target: Target) -> bool {
        (self.pc + 2 <= 0xFFFF)
    }

    /// What [Self::sra_n_hl] needs to run without failing.
    pub open spec fn ok_sra_n_hl(self) -> bool {
        (self.pc + 2 <= 0xFFFF)
        && (self.mmu.reads_ok(self.hl()))
        && (self.mmu.write_safe(self.hl()))
    }

    /// What [Self::srl_n] needs to run without failing.
    pub open spec fn ok_srl_n(self, target: Target) -> bool {
        (self.pc + 2 <= 0xFFFF)
    }

    /// What [Self::srl_n_hl] needs to run without failing.
    pub open spec fn ok_srl_n_hl(self) -> bool {
        (self.pc + 2 <= 0xFFFF)
        && (self.mmu.reads_ok(self.hl()))
        && (self.mmu.write_safe(self.hl()))
    }

    /// What [Self::rlca] needs to run without failing.
    pub open spec fn ok_rlca(self) -> bool {
        (self.pc + 1 <= 0xFFFF)
    }

    /// What [Self::rla] needs to run without failing.
    pub open spec fn ok_rla(self) -> bool {
        (self.pc + 1 <= 0xFFFF)
    }

    /// What [Self::rrca] needs to run without failing.
    pub open spec fn ok_rrca(self) -> bool {
        (self.pc + 1 <= 0xFFFF)
    }

    /// What [Self::rra] needs to run without failing.
    pub open spec fn ok_rra(self) -> bool {
        (self.pc + 1 <= 0xFFFF)
    }

    /// What [Self::bit_b_r] needs to run without failing.
    pub open spec fn ok_bit_b_r(self, b: usize, target: Target) -> bool {
        (self.pc + 2 <= 0xFFFF)
        && (b < 8)
    }

    /// What [Self::bit_b_r_hl] needs to run without failing.
    pub open spec fn ok_bit_b_r_hl(self, b: usize) -> bool {
        (self.pc + 2 <= 0xFFFF)
        && (b < 8)
        && (self.mmu.reads_ok(self.hl()))
    }

    /// What [Self::set_b_r] needs to run without failing.
    pub open spec fn ok_set_b_r(self, b: usize, target: Target) -> bool {
        (self.pc + 2 <= 0xFFFF)
        && (b < 8)
    }

    /// What [Self::set_b_r_hl] needs to run without failing.
    pub open spec fn ok_set_b_r_hl(self, b: usize) -> bool {
        (self.pc + 2 <= 0xFFFF)
        && (b < 8)
        && (self.mmu.reads_ok(self.hl()))
        && (self.mmu.write_safe(self.hl()))
    }

    /// What [Self::res_b_r] needs to run without failing.
    pub open spec fn ok_res_b_r(self, b: usize, target: Target) -> bool {
        (self.pc + 2 <= 0xFFFF)
        && (b < 8)
    }

    /// What [Self::res_b_r_hl] needs to run without failing.
    pub open spec fn ok_res_b_r_hl(self, b: usize) -> bool {
        (self.pc + 2 <= 0xFFFF)
        && (b < 8)
        && (self.mmu.reads_ok(self.hl()))
        && (self.mmu.write_safe(self.hl()))
    }

    /// What [Self::daa] needs to run without failing.
    pub open spec fn ok_daa(self) -> bool {
        (self.pc + 1 <= 0xFFFF)
    }

    /// What [Self::cpl] needs to run without failing.
    pub open spec fn ok_cpl(self) -> bool {
        (self.pc + 1 <= 0xFFFF)
    }

    /// What [Self::ccf] needs to run without failing.
    pub open spec fn ok_ccf(self) -> bool {
        (self.pc + 1 <= 0xFFFF)
    }

    /// What [Self::scf] needs to run without failing.
    pub open spec fn ok_scf(self) -> bool {
        (self.pc + 1 <= 0xFFFF)
    }

    /// What [Self::nop] needs to run without failing.
    pub open spec fn ok_nop(self) -> bool {
        (self.pc + 1 <= 0xFFFF)
    }

    /// What [Self::halt] needs to run without failing.
    pub open spec fn ok_halt(self) -> bool {
        (self.pc + 1 <= 0xFFFF)
    }

    /// What [Self::stop] needs to run without failing.
    pub open spec fn ok_stop(self) -> bool {
        (self.pc + 2 <= 0xFFFF)
    }

    /// What [Self::di] needs to run without failing.
    pub open spec fn ok_di(self) -> bool {
        (self.pc + 1 <= 0xFFFF)
    }

    /// What [Self::ei] needs to run without failing.
    pub open spec fn ok_ei(self) -> bool {
        (self.pc + 1 <= 0xFFFF)
    }

    /// What [Self::jp_nn] needs to run without failing.
    pub open spec fn ok_jp_nn(self) -> bool {
        (self.pc + 2 <= 0xFFFF)
        && (self.mmu.reads_ok((self.pc + 1) as u16))
        && (self.mmu.reads_ok((self.pc + 2) as u16))
    }

    /// What [Self::jp_cc_nn] needs to run without failing.
    pub open spec fn ok_jp_cc_nn(self, flag: RegFlag, expected_value: bool) -> bool {
        (flag == RegFlag::Z || flag == RegFlag::C)
        && ((if self.regs.flag(flag) == expected_value { self.pc + 2 } else { self.pc + 3 }) <= 0xFFFF)
        && (self.regs.flag(flag) == expected_value ==> self.mmu.reads_ok((self.pc + 1) as u16) && self.mmu.reads_ok((self.pc + 2) as u16))
    }

    /// What [Self::jp_hl] needs to run without failing.
    pub open spec fn ok_jp_hl(self) -> bool {
        (true)
    }

    /// What [Self::jr_n] needs to run without failing.
    pub open spec fn ok_jr_n(self) -> bool {
        (self.pc + 2 <= 0xFFFF)
        && (self.mmu.reads_ok((self.pc + 1) as u16))
    }

    /// What [Self::jr_cc_n] needs to run without failing.
    pub open spec fn ok_jr_cc_n(self, flag: RegFlag, expected_value: bool) -> bool {
        (flag == RegFlag::Z || flag == RegFlag::C)
        && (self.pc + 2 <= 0xFFFF)
        && (self.regs.flag(flag) == expected_value ==> self.mmu.reads_ok((self.pc + 1) as u16))
    }

    /// What [Self::call_nn] needs to run without failing.
    pub open spec fn ok_call_nn(self) -> bool {
        (self.pc + 3 <= 0xFFFF)
        && (self.push_ok())
        && (self.call_reads_ok())
    }

    /// What [Self::call_cc_nn] needs to run without failing.
    pub open spec fn ok_call_cc_nn(self, flag: RegFlag, expected_value: bool) -> bool {
        (flag == RegFlag::Z || flag == RegFlag::C)
        && (self.pc + 3 <= 0xFFFF)
        && (self.regs.flag(flag) == expected_value ==> self.push_ok() && self.call_reads_ok())
    }

    /// What [Self::rst_n] needs to run without failing.
    pub open spec fn ok_rst_n(self, n: u8) -> bool {
        (self.push_ok())
    }

    /// What [Self::ret] needs to run without failing.
    pub open spec fn ok_ret(self) -> bool {
        (self.pop_ok())
    }

    /// What [Self::ret_cc] needs to run without failing.
    pub open spec fn ok_ret_cc(self, flag: RegFlag, expected_value: bool) -> bool {
        (flag == RegFlag::Z || flag == RegFlag::C)
        && (if self.regs.flag(flag) == expected_value { self.pop_ok() } else { self.pc + 1 <= 0xFFFF })
    }

    /// What [Self::reti] needs to run without failing.
    pub open spec fn ok_reti(self) -> bool {
        (self.pop_ok())
    }
}

impl CpuView {
    /// The outcome of the 8-bit arithmetic/logic instruction `alu` (ADD, ADC, SUB, SBC, AND,
    /// XOR, OR, CP) on operand encoding `z` (a register, or (HL) for 6).
    pub open spec fn step_alu(self, alu: u8, z: u8) -> Step {
        let t = reg_code(z);
        if alu == 0 {
            if z == 6 { self.add_a_n_hl() } else { self.add_a_n(t) }
        } else if alu == 1 {
            if z == 6 { self.adc_a_n_hl() } else { self.adc_a_n(t) }
        } else if alu == 2 {
            if z == 6 { self.sub_n_hl() } else { self.sub_n(t) }
        } else if alu == 3 {
            if z == 6 { self.sbc_n_hl() } else { self.sbc_n(t) }
        } else if alu == 4 {
            if z == 6 { self.and_n_hl() } else { self.and_n(t) }
        } else if alu == 5 {
            if z == 6 { self.xor_n_hl() } else { self.xor_n(t) }
        } else if alu == 6 {
            if z == 6 { self.or_n_hl() } else { self.or_n(t) }
        } else {
            if z == 6 { self.cp_n_hl() } else { self.cp_n(t) }
        }
    }

    /// The outcome of the 8-bit arithmetic/logic instruction `alu` on the immediate byte.
    pub open spec fn step_alu_imm(self, alu: u8) -> Step {
        if alu == 0 {
            self.add_a_n_n()
        } else if alu == 1 {
            self.adc_a_n_n()
        } else if alu == 2 {
            self.sub_n_n()
        } else if alu == 3 {
            self.sbc_n_n()
        } else if alu == 4 {
            self.and_n_n()
        } else if alu == 5 {
            self.xor_n_n()
        } else if alu == 6 {
            self.or_n_n()
        } else {
            self.cp_n_n()
        }
    }

    /// The outcome of the CB-prefixed instruction whose second byte is `ext`: bits 7-6 pick
    /// the group (shift/rotate, BIT, RES, SET), bits 5-3 the operation or bit, bits 2-0 the
    /// operand.
    pub open spec fn step_cb(self, ext: u8) -> Step {
        let x = ext / 64;
        let y = (ext / 8) % 8;
        let z = ext % 8;
        let t = reg_code(z);
        if x == 0 {
            if y == 0 {
                if z == 6 { self.rlc_n_hl() } else { self.rlc_n(t) }
            } else if y == 1 {
                if z == 6 { self.rrc_n_hl() } else { self.rrc_n(t) }
            } else if y == 2 {
                if z == 6 { self.rl_n_hl() } else { self.rl_n(t) }
            } else if y == 3 {
                if z == 6 { self.rr_n_hl() } else { self.rr_n(t) }
            } else if y == 4 {
                if z == 6 { self.sla_n_hl() } else { self.sla_n(t) }
            } else if y == 5 {
                if z == 6 { self.sra_n_hl() } else { self.sra_n(t) }
            } else if y == 6 {
                if z == 6 { self.swap_n_hl() } else { self.swap_n(t) }
            } else {
                if z == 6 { self.srl_n_hl() } else { self.srl_n(t) }
            }
        } else if x == 1 {
            if z == 6 { self.bit_b_r_hl(y as usize) } else { self.bit_b_r(y as usize, t) }
        } else if x == 2 {
            if z == 6 { self.res_b_r_hl(y as usize) } else { self.res_b_r(y as usize, t) }
        } else {
            if z == 6 { self.set_b_r_hl(y as usize) } else { self.set_b_r(y as usize, t) }
        }
    }

    /// True iff `opcode` is one of the eleven opcodes that the CPU does not have.
    pub open spec fn is_illegal(opcode: u8) -> bool {
        ||| opcode == 0xD3
        ||| opcode == 0xDB
        ||| opcode == 0xDD
        ||| opcode == 0xE3
        ||| opcode == 0xE4
        ||| opcode == 0xEB
        ||| opcode == 0xEC
        ||| opcode == 0xED
        ||| opcode == 0xF4
        ||| opcode == 0xFC
        ||| opcode == 0xFD
    }

    /// The outcome of an instruction of the block 0x00..=0x3F (loads of immediates, 16-bit
    /// arithmetic, INC/DEC, rotates of A, relative jumps and miscellaneous instructions).
    pub open spec fn step_x0(self, y: u8, z: u8) -> Step {
        let p = y / 2;
        let q = y % 2;
        if z == 0 {
            if y == 0 { self.nop() }
            else if y == 1 { self.ld_nn_sp() }
            else if y == 2 { self.stop() }
            else if y == 3 { self.jr_n() }
            else { self.jr_cc_n(cond_flag((y - 4) as u8), cond_value((y - 4) as u8)) }
        } else if z == 1 {
            if q == 0 {
                if p == 3 { self.ld_n_nn_sp() } else { self.ld_n_nn(pair_code(p)) }
            } else {
                if p == 3 { self.add_hl_n_sp() } else { self.add_hl_n(pair_code(p)) }
            }
        } else if z == 2 {
            if q == 0 {
                if p < 2 { self.ld_vr_a(pair_code(p)) }
                else if p == 2 { self.ld_hli_a() }
                else { self.ld_hld_a() }
            } else {
                if p < 2 { self.ld_a_vr(pair_code(p)) }
                else if p == 2 { self.ld_a_hli() }
                else { self.ld_a_hld() }
            }
        } else if z == 3 {
            if q == 0 {
                if p == 3 { self.inc_nn_sp() } else { self.inc_nn(pair_code(p)) }
            } else {
                if p == 3 { self.dec_nn_sp() } else { self.dec_nn(pair_code(p)) }
            }
        } else if z == 4 {
            if y == 6 { self.inc_n_hl() } else { self.inc_n(reg_code(y)) }
        } else if z == 5 {
            if y == 6 { self.dec_n_hl() } else { self.dec_n(reg_code(y)) }
        } else if z == 6 {
            if y == 6 { self.ld_hl_n() }
            else if y == 7 { self.ld_a_n() }
            else { self.ld_nn_n(reg_code(y)) }
        } else {
            if y == 0 { self.rlca() }
            else if y == 1 { self.rrca() }
            else if y == 2 { self.rla() }
            else if y == 3 { self.rra() }
            else if y == 4 { self.daa() }
            else if y == 5 { self.cpl() }
            else if y == 6 { self.scf() }
            else { self.ccf() }
        }
    }

    /// The outcome of an instruction of the block 0x40..=0x7F (8-bit register loads and HALT).
    pub open spec fn step_x1(self, y: u8, z: u8) -> Step {
        if y == 6 && z == 6 { self.halt() }
        else if z == 6 { self.ld_r1_hl(reg_code(y)) }
        else if y == 6 {
            if z == 7 { self.ld_vr_a(VirtTarget::HL) } else { self.ld_hl_r2(reg_code(z)) }
        } else if z == 7 && y != 7 { self.ld_r_a(reg_code(y)) }
        else { self.ld_r1_r2(reg_code(y), reg_code(z)) }
    }

    /// The outcome of an instruction of the block 0xC0..=0xFF (stack, jumps, calls, returns,
    /// high-page loads, immediate arithmetic and the CB prefix).
    pub open spec fn step_x3(self, y: u8, z: u8) -> Step {
        if z < 4 {
            self.step_x3_lo(y, z)
        } else {
            self.step_x3_hi(y, z)
        }
    }

    /// The outcome of an instruction of the block 0xC0..=0xFF with z in 0..=3.
    pub open spec fn step_x3_lo(self, y: u8, z: u8) -> Step {
        let p = y / 2;
        let q = y % 2;
        if z == 0 {
            if y < 4 { self.ret_cc(cond_flag(y), cond_value(y)) }
            else if y == 4 { self.ldh_n_a() }
            else if y == 5 { self.add_sp_n() }
            else if y == 6 { self.ldh_a_n() }
            else { self.ld_hl_sp_n() }
        } else if z == 1 {
            if q == 0 { self.pop_nn(stack_pair_code(p)) }
            else if p == 0 { self.ret() }
            else if p == 1 { self.reti() }
            else if p == 2 { self.jp_hl() }
            else { self.ld_sp_hl() }
        } else if z == 2 {
            if y < 4 { self.jp_cc_nn(cond_flag(y), cond_value(y)) }
            else if y == 4 { self.ld_c_a() }
            else if y == 5 { self.ld_nn_a() }
            else if y == 6 { self.ld_a_c() }
            else { self.ld_a_nn() }
        } else {
            if y == 0 { self.jp_nn() }
            else if y == 1 { self.step_cb(self.next_byte()) }
            else if y == 6 { self.di() }
            else { self.ei() }
        }
    }

    /// The outcome of an instruction of the block 0xC0..=0xFF with z in 4..=7.
    pub open spec fn step_x3_hi(self, y: u8, z: u8) -> Step {
        let p = y / 2;
        let q = y % 2;
        if z == 4 {
            self.call_cc_nn(cond_flag(y), cond_value(y))
        } else if z == 5 {
            if q == 0 { self.push_nn(stack_pair_code(p)) } else { self.call_nn() }
        } else if z == 6 {
            self.step_alu_imm(y)
        } else {
            self.rst_n((y * 8) as u8)
        }
    }

    /// The outcome of the instruction with opcode `opcode` at the program counter. Bits 7-6 of
    /// the opcode (x) pick the block, bits 5-3 (y, split into p = y / 2 and q = y % 2) and bits
    /// 2-0 (z) the instruction and its operands.
    #[verifier::opaque]
    pub open spec fn step(self, opcode: u8) -> Step {
        let x = opcode / 64;
        let y = (opcode / 8) % 8;
        let z = opcode % 8;
        if x == 0 {
            self.step_x0(y, z)
        } else if x == 1 {
            self.step_x1(y, z)
        } else if x == 2 {
            self.step_alu(y, z)
        } else {
            self.step_x3(y, z)
        }
    }
}


impl CpuView {
    /// What is needed to run, without failing, the 8-bit arithmetic/logic instruction `alu` (ADD, ADC, SUB, SBC, AND,
    /// XOR, OR, CP) on operand encoding `z` (a register, or (HL) for 6).
    pub open spec fn ok_step_alu(self, alu: u8, z: u8) -> bool {
        let t = reg_code(z);
        if alu == 0 {
            if z == 6 { self.ok_add_a_n_hl() } else { self.ok_add_a_n(t) }
        } else if alu == 1 {
            if z == 6 { self.ok_adc_a_n_hl() } else { self.ok_adc_a_n(t) }
        } else if alu == 2 {
            if z == 6 { self.ok_sub_n_hl() } else { self.ok_sub_n(t) }
        } else if alu == 3 {
            if z == 6 { self.ok_sbc_n_hl() } else { self.ok_sbc_n(t) }
        } else if alu == 4 {
            if z == 6 { self.ok_and_n_hl() } else { self.ok_and_n(t) }
        } else if alu == 5 {
            if z == 6 { self.ok_xor_n_hl() } else { self.ok_xor_n(t) }
        } else if alu == 6 {
            if z == 6 { self.ok_or_n_hl() } else { self.ok_or_n(t) }
        } else {
            if z == 6 { self.ok_cp_n_hl() } else { self.ok_cp_n(t) }
        }
    }

    /// What is needed to run, without failing, the 8-bit arithmetic/logic instruction `alu` on the immediate byte.
    pub open spec fn ok_step_alu_imm(self, alu: u8) -> bool {
        if alu == 0 {
            self.ok_add_a_n_n()
        } else if alu == 1 {
            self.ok_adc_a_n_n()
        } else if alu == 2 {
            self.ok_sub_n_n()
        } else if alu == 3 {
            self.ok_sbc_n_n()
        } else if alu == 4 {
            self.ok_and_n_n()
        } else if alu == 5 {
            self.ok_xor_n_n()
        } else if alu == 6 {
            self.ok_or_n_n()
        } else {
            self.ok_cp_n_n()
        }
    }

    /// What is needed to run, without failing, the CB-prefixed instruction whose second byte is `ext`: bits 7-6 pick
    /// the group (shift/rotate, BIT, RES, SET), bits 5-3 the operation or bit, bits 2-0 the
    /// operand.
    pub open spec fn ok_step_cb(self, ext: u8) -> bool {
        let x = ext / 64;
        let y = (ext / 8) % 8;
        let z = ext % 8;
        let t = reg_code(z);
        if x == 0 {
            if y == 0 {
                if z == 6 { self.ok_rlc_n_hl() } else { self.ok_rlc_n(t) }
            } else if y == 1 {
                if z == 6 { self.ok_rrc_n_hl() } else { self.ok_rrc_n(t) }
            } else if y == 2 {
                if z == 6 { self.ok_rl_n_hl() } else { self.ok_rl_n(t) }
            } else if y == 3 {
                if z == 6 { self.ok_rr_n_hl() } else { self.ok_rr_n(t) }
            } else if y == 4 {
                if z == 6 { self.ok_sla_n_hl() } else { self.ok_sla_n(t) }
            } else if y == 5 {
                if z == 6 { self.ok_sra_n_hl() } else { self.ok_sra_n(t) }
            } else if y == 6 {
                if z == 6 { self.ok_swap_n_hl() } else { self.ok_swap_n(t) }
            } else {
                if z == 6 { self.ok_srl_n_hl() } else { self.ok_srl_n(t) }
            }
        } else if x == 1 {
            if z == 6 { self.ok_bit_b_r_hl(y as usize) } else { self.ok_bit_b_r(y as usize, t) }
        } else if x == 2 {
            if z == 6 { self.ok_res_b_r_hl(y as usize) } else { self.ok_res_b_r(y as usize, t) }
        } else {
            if z == 6 { self.ok_set_b_r_hl(y as usize) } else { self.ok_set_b_r(y as usize, t) }
        }
    }

    /// What is needed to run, without failing, an instruction of the block 0x00..=0x3F (loads of immediates, 16-bit
    /// arithmetic, INC/DEC, rotates of A, relative jumps and miscellaneous instructions).
    pub open spec fn ok_step_x0(self, y: u8, z: u8) -> bool {
        let p = y / 2;
        let q = y % 2;
        if z == 0 {
            if y == 0 { self.ok_nop() }
            else if y == 1 { self.ok_ld_nn_sp() }
            else if y == 2 { self.ok_stop() }
            else if y == 3 { self.ok_jr_n() }
            else { self.ok_jr_cc_n(cond_flag((y - 4) as u8), cond_value((y - 4) as u8)) }
        } else if z == 1 {
            if q == 0 {
                if p == 3 { self.ok_ld_n_nn_sp() } else { self.ok_ld_n_nn(pair_code(p)) }
            } else {
                if p == 3 { self.ok_add_hl_n_sp() } else { self.ok_add_hl_n(pair_code(p)) }
            }
        } else if z == 2 {
            if q == 0 {
                if p < 2 { self.ok_ld_vr_a(pair_code(p)) }
                else if p == 2 { self.ok_ld_hli_a() }
                else { self.ok_ld_hld_a() }
            } else {
                if p < 2 { self.ok_ld_a_vr(pair_code(p)) }
                else if p == 2 { self.ok_ld_a_hli() }
                else { self.ok_ld_a_hld() }
            }
        } else if z == 3 {
            if q == 0 {
                if p == 3 { self.ok_inc_nn_sp() } else { self.ok_inc_nn(pair_code(p)) }
            } else {
                if p == 3 { self.ok_dec_nn_sp() } else { self.ok_dec_nn(pair_code(p)) }
            }
        } else if z == 4 {
            if y == 6 { self.ok_inc_n_hl() } else { self.ok_inc_n(reg_code(y)) }
        } else if z == 5 {
            if y == 6 { self.ok_dec_n_hl() } else { self.ok_dec_n(reg_code(y)) }
        } else if z == 6 {
            if y == 6 { self.ok_ld_hl_n() }
            else if y == 7 { self.ok_ld_a_n() }
            else { self.ok_ld_nn_n(reg_code(y)) }
        } else {
            if y == 0 { self.ok_rlca() }
            else if y == 1 { self.ok_rrca() }
            else if y == 2 { self.ok_rla() }
            else if y == 3 { self.ok_rra() }
            else if y == 4 { self.ok_daa() }
            else if y == 5 { self.ok_cpl() }
            else if y == 6 { self.ok_scf() }
            else { self.ok_ccf() }
        }
    }

    /// What is needed to run, without failing, an instruction of the block 0x40..=0x7F (8-bit register loads and HALT).
    pub open spec fn ok_step_x1(self, y: u8, z: u8) -> bool {
        if y == 6 && z == 6 { self.ok_halt() }
        else if z == 6 { self.ok_ld_r1_hl(reg_code(y)) }
        else if y == 6 {
            if z == 7 { self.ok_ld_vr_a(VirtTarget::HL) } else { self.ok_ld_hl_r2(reg_code(z)) }
        } else if z == 7 && y != 7 { self.ok_ld_r_a(reg_code(y)) }
        else { self.ok_ld_r1_r2(reg_code(y), reg_code(z)) }
    }

    /// What is needed to run, without failing, an instruction of the block 0xC0..=0xFF (stack, jumps, calls, returns,
    /// high-page loads, immediate arithmetic and the CB prefix).
    pub open spec fn ok_step_x3(self, y: u8, z: u8) -> bool {
        if z < 4 {
            self.ok_step_x3_lo(y, z)
        } else {
            self.ok_step_x3_hi(y, z)
        }
    }

    /// What is needed to run, without failing, an instruction of the block 0xC0..=0xFF with z in 0..=3.
    pub open spec fn ok_step_x3_lo(self, y: u8, z: u8) -> bool {
        let p = y / 2;
        let q = y % 2;
        if z == 0 {
            if y < 4 { self.ok_ret_cc(cond_flag(y), cond_value(y)) }
            else if y == 4 { self.ok_ldh_n_a() }
            else if y == 5 { self.ok_add_sp_n() }
            else if y == 6 { self.ok_ldh_a_n() }
            else { self.ok_ld_hl_sp_n() }
        } else if z == 1 {
            if q == 0 { self.ok_pop_nn(stack_pair_code(p)) }
            else if p == 0 { self.ok_ret() }
            else if p == 1 { self.ok_reti() }
            else if p == 2 { self.ok_jp_hl() }
            else { self.ok_ld_sp_hl() }
        } else if z == 2 {
            if y < 4 { self.ok_jp_cc_nn(cond_flag(y), cond_value(y)) }
            else if y == 4 { self.ok_ld_c_a() }
            else if y == 5 { self.ok_ld_nn_a() }
            else if y == 6 { self.ok_ld_a_c() }
            else { self.ok_ld_a_nn() }
        } else {
            if y == 0 { self.ok_jp_nn() }
            else if y == 1 { (self.pc < 0xFFFF && self.mmu.reads_ok((self.pc + 1) as u16) && self.ok_step_cb(self.next_byte())) }
            else if y == 6 { self.ok_di() }
            else { self.ok_ei() }
        }
    }

    /// What is needed to run, without failing, an instruction of the block 0xC0..=0xFF with z in 4..=7.
    pub open spec fn ok_step_x3_hi(self, y: u8, z: u8) -> bool {
        let p = y / 2;
        let q = y % 2;
        if z == 4 {
            self.ok_call_cc_nn(cond_flag(y), cond_value(y))
        } else if z == 5 {
            if q == 0 { self.ok_push_nn(stack_pair_code(p)) } else { self.ok_call_nn() }
        } else if z == 6 {
            self.ok_step_alu_imm(y)
        } else {
            self.ok_rst_n((y * 8) as u8)
        }
    }

    /// What is needed to run, without failing, the instruction with opcode `opcode` at the program counter. Bits 7-6 of
    /// the opcode (x) pick the block, bits 5-3 (y, split into p = y / 2 and q = y % 2) and bits
    /// 2-0 (z) the instruction and its operands.
    pub open spec fn ok_decoded(self, opcode: u8) -> bool {
        let x = opcode / 64;
        let y = (opcode / 8) % 8;
        let z = opcode % 8;
        if x == 0 {
            self.ok_step_x0(y, z)
        } else if x == 1 {
            self.ok_step_x1(y, z)
        } else if x == 2 {
            self.ok_step_alu(y, z)
        } else {
            self.ok_step_x3(y, z)
        }
    }
}


impl CpuView {
    /// What the instruction with opcode `opcode` needs to run without failing: a legal
    /// opcode, STOP followed by 0x00, a readable second byte after the 0xCB prefix, and what
    /// the instruction itself needs (its own memory accesses succeed).
    pub open spec fn step_ok(self, opcode: u8) -> bool {
        &&& !CpuView::is_illegal(opcode)
        &&& opcode == 0x10 ==> self.pc < 0xFFFF && self.mmu.reads_ok((self.pc + 1) as u16)
            && self.next_byte() == 0x00
        &&& opcode == 0xCB ==> self.pc < 0xFFFF && self.mmu.reads_ok((self.pc + 1) as u16)
        &&& self.normalized().ok_decoded(opcode)
    }
}

fn reg_code_exec(i: u8) -> (r: Target)
    ensures
        r == reg_code(i),
{
    if i == 0 {
        Target::B
    } else if i == 1 {
        Target::C
    } else if i == 2 {
        Target::D
    } else if i == 3 {
        Target::E
    } else if i == 4 {
        Target::H
    } else if i == 5 {
        Target::L
    } else {
        Target::A
    }
}

fn pair_code_exec(p: u8) -> (r: VirtTarget)
    ensures
        r == pair_code(p),
{
    if p == 0 {
        VirtTarget::BC
    } else if p == 1 {
        VirtTarget::DE
    } else {
        VirtTarget::HL
    }
}

fn stack_pair_code_exec(p: u8) -> (r: VirtTarget)
    ensures
        r == stack_pair_code(p),
{
    if p == 3 {
        VirtTarget::AF
    } else {
        pair_code_exec(p)
    }
}

fn cond_flag_exec(c: u8) -> (r: RegFlag)
    ensures
        r == cond_flag(c),
{
    if c < 2 {
        RegFlag::Z
    } else {
        RegFlag::C
    }
}

fn cond_value_exec(c: u8) -> (r: bool)
    ensures
        r == cond_value(c),
{
    c % 2 == 1
}


/// LD nn,n: Set nn = 8-bit immediate value n.
pub fn ld_nn_n(cpu: &mut Cpu, target: Target) -> (r: (u16, u32, String))
    requires
        old(cpu)@.pc + 2 <= 0xFFFF,
        old(cpu)@.mmu.reads_ok((old(cpu)@.pc + 1) as u16),
    ensures
        performs(final(cpu)@, r, old(cpu)@.ld_nn_n(target)),
        keeps_timer_sums(old(cpu)@, final(cpu)@),
        r.1 <= 24,
{
    let text = text3("LD ", target.name(), ",n");
    let v = cpu.get_next_byte();
    cpu.regs.set_reg(target, v);
    cpu.pc = cpu.pc + 2;
    (2, 8, text)
}

/// LD r1,r2: Set r1 = r2.
pub fn ld_r1_r2(cpu: &mut Cpu, r1: Target, r2: Target) -> (r: (u16, u32, String))
    requires
        old(cpu)@.pc + 1 <= 0xFFFF,
    ensures
        performs(final(cpu)@, r, old(cpu)@.ld_r1_r2(r1, r2)),
        keeps_timer_sums(old(cpu)@, final(cpu)@),
        r.1 <= 24,
{
    let text = text4("LD ", r1.name(), ",", r2.name());
    let v = cpu.regs.get_reg(r2);
    cpu.regs.set_reg(r1, v);
    cpu.pc = cpu.pc + 1;
    (1, 4, text)
}

/// LD r1,(HL): Set r1 = (HL).
pub fn ld_r1_hl(cpu: &mut Cpu, r1: Target) -> (r: (u16, u32, String))
    requires
        old(cpu)@.pc + 1 <= 0xFFFF,
        old(cpu)@.mmu.reads_ok(old(cpu)@.hl()),
    ensures
        performs(final(cpu)@, r, old(cpu)@.ld_r1_hl(r1)),
        keeps_timer_sums(old(cpu)@, final(cpu)@),
        r.1 <= 24,
{
    let text = text3("LD ", r1.name(), ",(HL)");
    let address = cpu.regs.get_virt_reg(VirtTarget::HL);
    let value = cpu.mmu.read_byte(address);
    cpu.regs.set_reg(r1, value);
    cpu.pc = cpu.pc + 1;
    (1, 8, text)
}

/// LD (HL),r2: Set (HL) = r2.
pub fn ld_hl_r2(cpu: &mut Cpu, r2: Target) -> (r: (u16, u32, String))
    requires
        old(cpu)@.pc + 1 <= 0xFFFF,
        old(cpu)@.mmu.write_safe(old(cpu)@.hl()),
    ensures
        performs(final(cpu)@, r, old(cpu)@.ld_hl_r2(r2)),
        keeps_timer_sums(old(cpu)@, final(cpu)@),
        r.1 <= 24,
{
    let text = text2("LD (HL),", r2.name());
    let address = cpu.regs.get_virt_reg(VirtTarget::HL);
    let v = cpu.regs.get_reg(r2);
    cpu.mmu.write_byte(address, v);
    cpu.pc = cpu.pc + 1;
    (1, 8, text)
}

/// LD (HL),n: Set (HL) = n.
pub fn ld_hl_n(cpu: &mut Cpu) -> (r: (u16, u32, String))
    requires
        old(cpu)@.pc + 2 <= 0xFFFF,
        old(cpu)@.mmu.reads_ok((old(cpu)@.pc + 1) as u16),
        old(cpu)@.mmu.write_safe(old(cpu)@.hl()),
    ensures
        performs(final(cpu)@, r, old(cpu)@.ld_hl_n()),
        keeps_timer_sums(old(cpu)@, final(cpu)@),
        r.1 <= 24,
{
    let text = String::from_str("LD (HL),n");
    let address = cpu.regs.get_virt_reg(VirtTarget::HL);
    let value = cpu.get_next_byte();
    cpu.mmu.write_byte(address, value);
    cpu.pc = cpu.pc + 2;
    (2, 12, text)
}

/// LD A,(rr): Set A = (rr).
pub fn ld_a_vr(cpu: &mut Cpu, target: VirtTarget) -> (r: (u16, u32, String))
    requires
        old(cpu)@.pc + 1 <= 0xFFFF,
        old(cpu)@.mmu.reads_ok(old(cpu)@.regs.virt(target)),
    ensures
        performs(final(cpu)@, r, old(cpu)@.ld_a_vr(target)),
        keeps_timer_sums(old(cpu)@, final(cpu)@),
        r.1 <= 24,
{
    let text = text2("LD A,", target.name());
    let address = cpu.regs.get_virt_reg(target);
    let value = cpu.mmu.read_byte(address);
    ld_a_n_helper(cpu, value);
    cpu.pc = cpu.pc + 1;
    (1, 8, text)
}

/// LD A,(nn): Set A = (nn).
pub fn ld_a_nn(cpu: &mut Cpu) -> (r: (u16, u32, String))
    requires
        old(cpu)@.pc + 3 <= 0xFFFF,
        old(cpu)@.mmu.reads_ok((old(cpu)@.pc + 1) as u16),
        old(cpu)@.mmu.reads_ok((old(cpu)@.pc + 2) as u16),
        old(cpu)@.mmu.reads_ok(old(cpu)@.next_word()),
    ensures
        performs(final(cpu)@, r, old(cpu)@.ld_a_nn()),
        keeps_timer_sums(old(cpu)@, final(cpu)@),
        r.1 <= 24,
{
    let text = String::from_str("LD A,nn");
    let address = cpu.get_next_2_bytes();
    let value = cpu.mmu.read_byte(address);
    ld_a_n_helper(cpu, value);
    cpu.pc = cpu.pc + 3;
    (3, 16, text)
}

/// LD A,n: Set A = n.
pub fn ld_a_n(cpu: &mut Cpu) -> (r: (u16, u32, String))
    requires
        old(cpu)@.pc + 2 <= 0xFFFF,
        old(cpu)@.mmu.reads_ok((old(cpu)@.pc + 1) as u16),
    ensures
        performs(final(cpu)@, r, old(cpu)@.ld_a_n()),
        keeps_timer_sums(old(cpu)@, final(cpu)@),
        r.1 <= 24,
{
    let text = String::from_str("LD A,n");
    let value = cpu.get_next_byte();
    ld_a_n_helper(cpu, value);
    cpu.pc = cpu.pc + 2;
    (2, 8, text)
}

/// LD n,A: Set n = A.
pub fn ld_r_a(cpu: &mut Cpu, target: Target) -> (r: (u16, u32, String))
    requires
        old(cpu)@.pc + 1 <= 0xFFFF,
    ensures
        performs(final(cpu)@, r, old(cpu)@.ld_r_a(target)),
        keeps_timer_sums(old(cpu)@, final(cpu)@),
        r.1 <= 24,
{
    let text = text3("LD ", target.name(), ",A");
    let v = cpu.regs.get_reg(Target::A);
    cpu.regs.set_reg(target, v);
    cpu.pc = cpu.pc + 1;
    (1, 4, text)
}

/// LD (rr),A: Set (rr) = A.
pub fn ld_vr_a(cpu: &mut Cpu, target: VirtTarget) -> (r: (u16, u32, String))
    requires
        old(cpu)@.pc + 1 <= 0xFFFF,
        old(cpu)@.mmu.write_safe(old(cpu)@.regs.virt(target)),
    ensures
        performs(final(cpu)@, r, old(cpu)@.ld_vr_a(target)),
        keeps_timer_sums(old(cpu)@, final(cpu)@),
        r.1 <= 24,
{
    let text = text3("LD ", target.name(), ",A");
    let address = cpu.regs.get_virt_reg(target);
    let v = cpu.regs.get_reg(Target::A);
    cpu.mmu.write_byte(address, v);
    cpu.pc = cpu.pc + 1;
    (1, 8, text)
}

/// LD (nn),A: Set (nn) = A.
pub fn ld_nn_a(cpu: &mut Cpu) -> (r: (u16, u32, String))
    requires
        old(cpu)@.pc + 3 <= 0xFFFF,
        old(cpu)@.mmu.reads_ok((old(cpu)@.pc + 1) as u16),
        old(cpu)@.mmu.reads_ok((old(cpu)@.pc + 2) as u16),
        old(cpu)@.mmu.write_safe(old(cpu)@.next_word()),
    ensures
        performs(final(cpu)@, r, old(cpu)@.ld_nn_a()),
        keeps_timer_sums(old(cpu)@, final(cpu)@),
        r.1 <= 24,
{
    let text = String::from_str("LD nn,A");
    let address = cpu.get_next_2_bytes();
    let v = cpu.regs.get_reg(Target::A);
    cpu.mmu.write_byte(address, v);
    cpu.pc = cpu.pc + 3;
    (3, 16, text)
}

/// LD A,(C): Set A = (0xFF00 + C).
pub fn ld_a_c(cpu: &mut Cpu) -> (r: (u16, u32, String))
    requires
        old(cpu)@.pc + 1 <= 0xFFFF,
        old(cpu)@.mmu.reads_ok((0xFF00 + old(cpu)@.regs.c) as u16),
    ensures
        performs(final(cpu)@, r, old(cpu)@.ld_a_c()),
        keeps_timer_sums(old(cpu)@, final(cpu)@),
        r.1 <= 24,
{
    let text = String::from_str("LD A,(C)");
    let c = cpu.regs.get_reg(Target::C);
    let address = 0xFF00 | (c as u16);
    proof {
        lemma_bit_facts();
    }
    let v = cpu.mmu.read_byte(address);
    cpu.regs.set_reg(Target::A, v);
    cpu.pc = cpu.pc + 1;
    (1, 8, text)
}

/// LD (C),A: Set (0xFF00 + C) = A.
pub fn ld_c_a(cpu: &mut Cpu) -> (r: (u16, u32, String))
    requires
        old(cpu)@.pc + 1 <= 0xFFFF,
        old(cpu)@.mmu.write_safe((0xFF00 + old(cpu)@.regs.c) as u16),
    ensures
        performs(final(cpu)@, r, old(cpu)@.ld_c_a()),
        keeps_timer_sums(old(cpu)@, final(cpu)@),
        r.1 <= 24,
{
    let text = String::from_str("LD (C),A");
    let c = cpu.regs.get_reg(Target::C);
    let address = 0xFF00 | (c as u16);
    proof {
        lemma_bit_facts();
    }
    let v = cpu.regs.get_reg(Target::A);
    cpu.mmu.write_byte(address, v);
    cpu.pc = cpu.pc + 1;
    (1, 8, text)
}

/// LD A,(HLD): Set A = (HL). HL -= 1.
pub fn ld_a_hld(cpu: &mut Cpu) -> (r: (u16, u32, String))
    requires
        old(cpu)@.pc + 1 <= 0xFFFF,
        old(cpu)@.hl() != 0,
        old(cpu)@.mmu.reads_ok(old(cpu)@.hl()),
    ensures
        performs(final(cpu)@, r, old(cpu)@.ld_a_hld()),
        keeps_timer_sums(old(cpu)@, final(cpu)@),
        r.1 <= 24,
{
    let text = String::from_str("LD A,(HLD)");
    ld_a_hl_helper(cpu, false);
    cpu.pc = cpu.pc + 1;
    (1, 8, text)
}

/// LD (HLD),A: Set (HL) = A. HL -= 1.
pub fn ld_hld_a(cpu: &mut Cpu) -> (r: (u16, u32, String))
    requires
        old(cpu)@.pc + 1 <= 0xFFFF,
        old(cpu)@.hl() != 0,
        old(cpu)@.mmu.write_safe(old(cpu)@.hl()),
    ensures
        performs(final(cpu)@, r, old(cpu)@.ld_hld_a()),
        keeps_timer_sums(old(cpu)@, final(cpu)@),
        r.1 <= 24,
{
    let text = String::from_str("LD (HLD),A");
    ld_hl_a_helper(cpu, false);
    cpu.pc = cpu.pc + 1;
    (1, 8, text)
}

/// LD A,(HLI): Set A = (HL). HL += 1.
pub fn ld_a_hli(cpu: &mut Cpu) -> (r: (u16, u32, String))
    requires
        old(cpu)@.pc + 1 <= 0xFFFF,
        old(cpu)@.hl() != 0xFFFF,
        old(cpu)@.mmu.reads_ok(old(cpu)@.hl()),
    ensures
        performs(final(cpu)@, r, old(cpu)@.ld_a_hli()),
        keeps_timer_sums(old(cpu)@, final(cpu)@),
        r.1 <= 24,
{
    let text = String::from_str("LD A,(HLI)");
    ld_a_hl_helper(cpu, true);
    cpu.pc = cpu.pc + 1;
    (1, 8, text)
}

/// LD (HLI),A: Set (HL) = A. HL += 1.
pub fn ld_hli_a(cpu: &mut Cpu) -> (r: (u16, u32, String))
    requires
        old(cpu)@.pc + 1 <= 0xFFFF,
        old(cpu)@.hl() != 0xFFFF,
        old(cpu)@.mmu.write_safe(old(cpu)@.hl()),
    ensures
        performs(final(cpu)@, r, old(cpu)@.ld_hli_a()),
        keeps_timer_sums(old(cpu)@, final(cpu)@),
        r.1 <= 24,
{
    let text = String::from_str("LD (HLI),A");
    ld_hl_a_helper(cpu, true);
    cpu.pc = cpu.pc + 1;
    (1, 8, text)
}

/// LDH (n),A: Set (0xFF00 + n) = A.
pub fn ldh_n_a(cpu: &mut Cpu) -> (r: (u16, u32, String))
    requires
        old(cpu)@.pc + 2 <= 0xFFFF,
        old(cpu)@.mmu.reads_ok((old(cpu)@.pc + 1) as u16),
        old(cpu)@.mmu.write_safe((0xFF00 + old(cpu)@.next_byte()) as u16),
    ensures
        performs(final(cpu)@, r, old(cpu)@.ldh_n_a()),
        keeps_timer_sums(old(cpu)@, final(cpu)@),
        r.1 <= 24,
{
    let text = String::from_str("LDH (n),A");
    let n = cpu.get_next_byte();
    let address = 0xFF00 | (n as u16);
    proof {
        lemma_bit_facts();
    }
    let v = cpu.regs.get_reg(Target::A);
    cpu.mmu.write_byte(address, v);
    cpu.pc = cpu.pc + 2;
    (2, 12, text)
}

/// LDH A,(n): Set A = (0xFF00 + n).
pub fn ldh_a_n(cpu: &mut Cpu) -> (r: (u16, u32, String))
    requires
        old(cpu)@.pc + 2 <= 0xFFFF,
        old(cpu)@.mmu.reads_ok((old(cpu)@.pc + 1) as u16),
        old(cpu)@.mmu.reads_ok((0xFF00 + old(cpu)@.next_byte()) as u16),
    ensures
        performs(final(cpu)@, r, old(cpu)@.ldh_a_n()),
        keeps_timer_sums(old(cpu)@, final(cpu)@),
        r.1 <= 24,
{
    let text = String::from_str("LDH A,(n)");
    let n = cpu.get_next_byte();
    let address = 0xFF00 | (n as u16);
    proof {
        lemma_bit_facts();
    }
    let v = cpu.mmu.read_byte(address);
    cpu.regs.set_reg(Target::A, v);
    cpu.pc = cpu.pc + 2;
    (2, 12, text)
}

/// LD n,nn: Set n = nn.
pub fn ld_n_nn(cpu: &mut Cpu, target: VirtTarget) -> (r: (u16, u32, String))
    requires
        old(cpu)@.pc + 3 <= 0xFFFF,
        old(cpu)@.mmu.reads_ok((old(cpu)@.pc + 1) as u16),
        old(cpu)@.mmu.reads_ok((old(cpu)@.pc + 2) as u16),
    ensures
        performs(final(cpu)@, r, old(cpu)@.ld_n_nn(target)),
        keeps_timer_sums(old(cpu)@, final(cpu)@),
        r.1 <= 24,
{
    let text = text3("LD ", target.name(), ",n");
    let nn = cpu.get_next_2_bytes();
    cpu.regs.set_virt_reg(target, nn);
    cpu.pc = cpu.pc + 3;
    (3, 12, text)
}

/// LD SP,nn: Set SP = nn.
pub fn ld_n_nn_sp(cpu: &mut Cpu) -> (r: (u16, u32, String))
    requires
        old(cpu)@.pc + 3 <= 0xFFFF,
        old(cpu)@.mmu.reads_ok((old(cpu)@.pc + 1) as u16),
        old(cpu)@.mmu.reads_ok((old(cpu)@.pc + 2) as u16),
    ensures
        performs(final(cpu)@, r, old(cpu)@.ld_n_nn_sp()),
        keeps_timer_sums(old(cpu)@, final(cpu)@),
        r.1 <= 24,
{
    let text = String::from_str("LD SP,nn");
    let nn = cpu.get_next_2_bytes();
    cpu.sp = nn;
    cpu.pc = cpu.pc + 3;
    (3, 12, text)
}

/// LD SP,HL: Set SP = HL.
pub fn ld_sp_hl(cpu: &mut Cpu) -> (r: (u16, u32, String))
    requires
        old(cpu)@.pc + 1 <= 0xFFFF,
    ensures
        performs(final(cpu)@, r, old(cpu)@.ld_sp_hl()),
        keeps_timer_sums(old(cpu)@, final(cpu)@),
        r.1 <= 24,
{
    let text = String::from_str("LD SP,HL");
    cpu.sp = cpu.regs.get_virt_reg(VirtTarget::HL);
    cpu.pc = cpu.pc + 1;
    (1, 8, text)
}

/// LD HL,SP+n: Set HL = SP + n (signed n).
pub fn ld_hl_sp_n(cpu: &mut Cpu) -> (r: (u16, u32, String))
    requires
        old(cpu)@.pc + 2 <= 0xFFFF,
        old(cpu)@.mmu.reads_ok((old(cpu)@.pc + 1) as u16),
    ensures
        performs(final(cpu)@, r, old(cpu)@.ld_hl_sp_n()),
        keeps_timer_sums(old(cpu)@, final(cpu)@),
        r.1 <= 24,
{
    let text = String::from_str("LD HL,SP+n");
    let result = sp_n_helper(cpu);
    cpu.regs.set_virt_reg(VirtTarget::HL, result);
    cpu.pc = cpu.pc + 2;
    (2, 12, text)
}

/// LD (nn),SP: Set (nn) = SP.
pub fn ld_nn_sp(cpu: &mut Cpu) -> (r: (u16, u32, String))
    requires
        old(cpu)@.pc + 3 <= 0xFFFF,
        old(cpu)@.mmu.reads_ok((old(cpu)@.pc + 1) as u16),
        old(cpu)@.mmu.reads_ok((old(cpu)@.pc + 2) as u16),
        old(cpu)@.next_word() != 0xFFFF,
        old(cpu)@.mmu.word_write_safe(old(cpu)@.next_word()),
    ensures
        performs(final(cpu)@, r, old(cpu)@.ld_nn_sp()),
        keeps_timer_sums(old(cpu)@, final(cpu)@),
        r.1 <= 24,
{
    let text = String::from_str("LD (nn),SP");
    let address = cpu.get_next_2_bytes();
    proof {
        lemma_word_write_safe(cpu.mmu@, address, cpu.sp, 0);
    }
    let sp = cpu.sp;
    cpu.mmu.write_2_bytes(address, sp);
    cpu.pc = cpu.pc + 3;
    (3, 20, text)
}

/// PUSH nn: Push virtual register nn to stack.
pub fn push_nn(cpu: &mut Cpu, target: VirtTarget) -> (r: (u16, u32, String))
    requires
        old(cpu)@.pc + 1 <= 0xFFFF,
        old(cpu)@.push_ok(),
    ensures
        performs(final(cpu)@, r, old(cpu)@.push_nn(target)),
        keeps_timer_sums(old(cpu)@, final(cpu)@),
        r.1 <= 24,
{
    let text = text2("PUSH ", target.name());
    let v = cpu.regs.get_virt_reg(target);
    cpu.push_stack(v);
    cpu.pc = cpu.pc + 1;
    (1, 16, text)
}

/// POP nn: Pop 2 bytes off stack into virtual register nn.
pub fn pop_nn(cpu: &mut Cpu, target: VirtTarget) -> (r: (u16, u32, String))
    requires
        old(cpu)@.pc + 1 <= 0xFFFF,
        old(cpu)@.pop_ok(),
    ensures
        performs(final(cpu)@, r, old(cpu)@.pop_nn(target)),
        keeps_timer_sums(old(cpu)@, final(cpu)@),
        r.1 <= 24,
{
    let text = text2("POP ", target.name());
    let popped_val = cpu.pop_stack();
    cpu.regs.set_virt_reg(target, popped_val);
    cpu.pc = cpu.pc + 1;
    (1, 12, text)
}

/// ADD A,n: A += n.
pub fn add_a_n(cpu: &mut Cpu, target: Target) -> (r: (u16, u32, String))
    requires
        old(cpu)@.pc + 1 <= 0xFFFF,
    ensures
        performs(final(cpu)@, r, old(cpu)@.add_a_n(target)),
        keeps_timer_sums(old(cpu)@, final(cpu)@),
        r.1 <= 24,
{
    let text = text2("ADD A,", target.name());
    let n = cpu.regs.get_reg(target);
    add_a_n_helper(cpu, n, false);
    cpu.pc = cpu.pc + 1;
    (1, 4, text)
}

/// ADD A,n with n = (HL).
pub fn add_a_n_hl(cpu: &mut Cpu) -> (r: (u16, u32, String))
    requires
        old(cpu)@.pc + 1 <= 0xFFFF,
        old(cpu)@.mmu.reads_ok(old(cpu)@.hl()),
    ensures
        performs(final(cpu)@, r, old(cpu)@.add_a_n_hl()),
        keeps_timer_sums(old(cpu)@, final(cpu)@),
        r.1 <= 24,
{
    let text = String::from_str("ADD A,(HL)");
    let address = cpu.regs.get_virt_reg(VirtTarget::HL);
    let n = cpu.mmu.read_byte(address);
    add_a_n_helper(cpu, n, false);
    cpu.pc = cpu.pc + 1;
    (1, 8, text)
}

/// ADD A,n with an immediate n.
pub fn add_a_n_n(cpu: &mut Cpu) -> (r: (u16, u32, String))
    requires
        old(cpu)@.pc + 2 <= 0xFFFF,
        old(cpu)@.mmu.reads_ok((old(cpu)@.pc + 1) as u16),
    ensures
        performs(final(cpu)@, r, old(cpu)@.add_a_n_n()),
        keeps_timer_sums(old(cpu)@, final(cpu)@),
        r.1 <= 24,
{
    let text = String::from_str("ADD A,n");
    let n = cpu.get_next_byte();
    add_a_n_helper(cpu, n, false);
    cpu.pc = cpu.pc + 2;
    (2, 8, text)
}

/// ADC A,n: A += (n + carry flag).
pub fn adc_a_n(cpu: &mut Cpu, target: Target) -> (r: (u16, u32, String))
    requires
        old(cpu)@.pc + 1 <= 0xFFFF,
    ensures
        performs(final(cpu)@, r, old(cpu)@.adc_a_n(target)),
        keeps_timer_sums(old(cpu)@, final(cpu)@),
        r.1 <= 24,
{
    let text = text2("ADC A,", target.name());
    let n = cpu.regs.get_reg(target);
    add_a_n_helper(cpu, n, true);
    cpu.pc = cpu.pc + 1;
    (1, 4, text)
}

/// ADC A,n with n = (HL).
pub fn adc_a_n_hl(cpu: &mut Cpu) -> (r: (u16, u32, String))
    requires
        old(cpu)@.pc + 1 <= 0xFFFF,
        old(cpu)@.mmu.reads_ok(old(cpu)@.hl()),
    ensures
        performs(final(cpu)@, r, old(cpu)@.adc_a_n_hl()),
        keeps_timer_sums(old(cpu)@, final(cpu)@),
        r.1 <= 24,
{
    let text = String::from_str("ADC A,(HL)");
    let address = cpu.regs.get_virt_reg(VirtTarget::HL);
    let n = cpu.mmu.read_byte(address);
    add_a_n_helper(cpu, n, true);
    cpu.pc = cpu.pc + 1;
    (1, 8, text)
}

/// ADC A,n with an immediate n.
pub fn adc_a_n_n(cpu: &mut Cpu) -> (r: (u16, u32, String))
    requires
        old(cpu)@.pc + 2 <= 0xFFFF,
        old(cpu)@.mmu.reads_ok((old(cpu)@.pc + 1) as u16),
    ensures
        performs(final(cpu)@, r, old(cpu)@.adc_a_n_n()),
        keeps_timer_sums(old(cpu)@, final(cpu)@),
        r.1 <= 24,
{
    let text = String::from_str("ADC A,n");
    let n = cpu.get_next_byte();
    add_a_n_helper(cpu, n, true);
    cpu.pc = cpu.pc + 2;
    (2, 8, text)
}

/// SUB n: A -= n.
pub fn sub_n(cpu: &mut Cpu, target: Target) -> (r: (u16, u32, String))
    requires
        old(cpu)@.pc + 1 <= 0xFFFF,
    ensures
        performs(final(cpu)@, r, old(cpu)@.sub_n(target)),
        keeps_timer_sums(old(cpu)@, final(cpu)@),
        r.1 <= 24,
{
    let text = text2("SUB ", target.name());
    let n = cpu.regs.get_reg(target);
    sub_n_helper(cpu, n, false);
    cpu.pc = cpu.pc + 1;
    (1, 4, text)
}

/// SUB n with n = (HL).
pub fn sub_n_hl(cpu: &mut Cpu) -> (r: (u16, u32, String))
    requires
        old(cpu)@.pc + 1 <= 0xFFFF,
        old(cpu)@.mmu.reads_ok(old(cpu)@.hl()),
    ensures
        performs(final(cpu)@, r, old(cpu)@.sub_n_hl()),
        keeps_timer_sums(old(cpu)@, final(cpu)@),
        r.1 <= 24,
{
    let text = String::from_str("SUB (HL)");
    let address = cpu.regs.get_virt_reg(VirtTarget::HL);
    let n = cpu.mmu.read_byte(address);
    sub_n_helper(cpu, n, false);
    cpu.pc = cpu.pc + 1;
    (1, 8, text)
}

/// SUB n with an immediate n.
pub fn sub_n_n(cpu: &mut Cpu) -> (r: (u16, u32, String))
    requires
        old(cpu)@.pc + 2 <= 0xFFFF,
        old(cpu)@.mmu.reads_ok((old(cpu)@.pc + 1) as u16),
    ensures
        performs(final(cpu)@, r, old(cpu)@.sub_n_n()),
        keeps_timer_sums(old(cpu)@, final(cpu)@),
        r.1 <= 24,
{
    let text = String::from_str("SUB n");
    let n = cpu.get_next_byte();
    sub_n_helper(cpu, n, false);
    cpu.pc = cpu.pc + 2;
    (2, 8, text)
}

/// SBC A,n: A -= (n + carry flag).
pub fn sbc_n(cpu: &mut Cpu, target: Target) -> (r: (u16, u32, String))
    requires
        old(cpu)@.pc + 1 <= 0xFFFF,
    ensures
        performs(final(cpu)@, r, old(cpu)@.sbc_n(target)),
        keeps_timer_sums(old(cpu)@, final(cpu)@),
        r.1 <= 24,
{
    let text = text2("SBC A,", target.name());
    let n = cpu.regs.get_reg(target);
    sub_n_helper(cpu, n, true);
    cpu.pc = cpu.pc + 1;
    (1, 4, text)
}

/// SBC A,n with n = (HL).
pub fn sbc_n_hl(cpu: &mut Cpu) -> (r: (u16, u32, String))
    requires
        old(cpu)@.pc + 1 <= 0xFFFF,
        old(cpu)@.mmu.reads_ok(old(cpu)@.hl()),
    ensures
        performs(final(cpu)@, r, old(cpu)@.sbc_n_hl()),
        keeps_timer_sums(old(cpu)@, final(cpu)@),
        r.1 <= 24,
{
    let text = String::from_str("SBC A,(HL)");
    let address = cpu.regs.get_virt_reg(VirtTarget::HL);
    let n = cpu.mmu.read_byte(address);
    sub_n_helper(cpu, n, true);
    cpu.pc = cpu.pc + 1;
    (1, 8, text)
}

/// SBC A,n with an immediate n.
pub fn sbc_n_n(cpu: &mut Cpu) -> (r: (u16, u32, String))
    requires
        old(cpu)@.pc + 2 <= 0xFFFF,
        old(cpu)@.mmu.reads_ok((old(cpu)@.pc + 1) as u16),
    ensures
        performs(final(cpu)@, r, old(cpu)@.sbc_n_n()),
        keeps_timer_sums(old(cpu)@, final(cpu)@),
        r.1 <= 24,
{
    let text = String::from_str("SBC A,n");
    let n = cpu.get_next_byte();
    sub_n_helper(cpu, n, true);
    cpu.pc = cpu.pc + 2;
    (2, 8, text)
}

/// AND n: Set A = A AND n.
pub fn and_n(cpu: &mut Cpu, target: Target) -> (r: (u16, u32, String))
    requires
        old(cpu)@.pc + 1 <= 0xFFFF,
    ensures
        performs(final(cpu)@, r, old(cpu)@.and_n(target)),
        keeps_timer_sums(old(cpu)@, final(cpu)@),
        r.1 <= 24,
{
    let text = text2("AND ", target.name());
    let n = cpu.regs.get_reg(target);
    and_n_helper(cpu, n);
    cpu.pc = cpu.pc + 1;
    (1, 4, text)
}

/// AND n with n = (HL).
pub fn and_n_hl(cpu: &mut Cpu) -> (r: (u16, u32, String))
    requires
        old(cpu)@.pc + 1 <= 0xFFFF,
        old(cpu)@.mmu.reads_ok(old(cpu)@.hl()),
    ensures
        performs(final(cpu)@, r, old(cpu)@.and_n_hl()),
        keeps_timer_sums(old(cpu)@, final(cpu)@),
        r.1 <= 24,
{
    let text = String::from_str("AND (HL)");
    let address = cpu.regs.get_virt_reg(VirtTarget::HL);
    let n = cpu.mmu.read_byte(address);
    and_n_helper(cpu, n);
    cpu.pc = cpu.pc + 1;
    (1, 8, text)
}

/// AND n with an immediate n.
pub fn and_n_n(cpu: &mut Cpu) -> (r: (u16, u32, String))
    requires
        old(cpu)@.pc + 2 <= 0xFFFF,
        old(cpu)@.mmu.reads_ok((old(cpu)@.pc + 1) as u16),
    ensures
        performs(final(cpu)@, r, old(cpu)@.and_n_n()),
        keeps_timer_sums(old(cpu)@, final(cpu)@),
        r.1 <= 24,
{
    let text = String::from_str("AND n");
    let n = cpu.get_next_byte();
    and_n_helper(cpu, n);
    cpu.pc = cpu.pc + 2;
    (2, 8, text)
}

/// OR n: Set A = A OR n.
pub fn or_n(cpu: &mut Cpu, target: Target) -> (r: (u16, u32, String))
    requires
        old(cpu)@.pc + 1 <= 0xFFFF,
    ensures
        performs(final(cpu)@, r, old(cpu)@.or_n(target)),
        keeps_timer_sums(old(cpu)@, final(cpu)@),
        r.1 <= 24,
{
    let text = text2("OR ", target.name());
    let n = cpu.regs.get_reg(target);
    or_n_helper(cpu, n);
    cpu.pc = cpu.pc + 1;
    (1, 4, text)
}

/// OR n with n = (HL).
pub fn or_n_hl(cpu: &mut Cpu) -> (r: (u16, u32, String))
    requires
        old(cpu)@.pc + 1 <= 0xFFFF,
        old(cpu)@.mmu.reads_ok(old(cpu)@.hl()),
    ensures
        performs(final(cpu)@, r, old(cpu)@.or_n_hl()),
        keeps_timer_sums(old(cpu)@, final(cpu)@),
        r.1 <= 24,
{
    let text = String::from_str("OR (HL)");
    let address = cpu.regs.get_virt_reg(VirtTarget::HL);
    let n = cpu.mmu.read_byte(address);
    or_n_helper(cpu, n);
    cpu.pc = cpu.pc + 1;
    (1, 8, text)
}

/// OR n with an immediate n.
pub fn or_n_n(cpu: &mut Cpu) -> (r: (u16, u32, String))
    requires
        old(cpu)@.pc + 2 <= 0xFFFF,
        old(cpu)@.mmu.reads_ok((old(cpu)@.pc + 1) as u16),
    ensures
        performs(final(cpu)@, r, old(cpu)@.or_n_n()),
        keeps_timer_sums(old(cpu)@, final(cpu)@),
        r.1 <= 24,
{
    let text = String::from_str("OR n");
    let n = cpu.get_next_byte();
    or_n_helper(cpu, n);
    cpu.pc = cpu.pc + 2;
    (2, 8, text)
}

/// XOR n: Set A = A XOR n.
pub fn xor_n(cpu: &mut Cpu, target: Target) -> (r: (u16, u32, String))
    requires
        old(cpu)@.pc + 1 <= 0xFFFF,
    ensures
        performs(final(cpu)@, r, old(cpu)@.xor_n(target)),
        keeps_timer_sums(old(cpu)@, final(cpu)@),
        r.1 <= 24,
{
    let text = text2("XOR ", target.name());
    let n = cpu.regs.get_reg(target);
    xor_n_helper(cpu, n);
    cpu.pc = cpu.pc + 1;
    (1, 4, text)
}

/// XOR n with n = (HL).
pub fn xor_n_hl(cpu: &mut Cpu) -> (r: (u16, u32, String))
    requires
        old(cpu)@.pc + 1 <= 0xFFFF,
        old(cpu)@.mmu.reads_ok(old(cpu)@.hl()),
    ensures
        performs(final(cpu)@, r, old(cpu)@.xor_n_hl()),
        keeps_timer_sums(old(cpu)@, final(cpu)@),
        r.1 <= 24,
{
    let text = String::from_str("XOR (HL)");
    let address = cpu.regs.get_virt_reg(VirtTarget::HL);
    let n = cpu.mmu.read_byte(address);
    xor_n_helper(cpu, n);
    cpu.pc = cpu.pc + 1;
    (1, 8, text)
}

/// XOR n with an immediate n.
pub fn xor_n_n(cpu: &mut Cpu) -> (r: (u16, u32, String))
    requires
        old(cpu)@.pc + 2 <= 0xFFFF,
        old(cpu)@.mmu.reads_ok((old(cpu)@.pc + 1) as u16),
    ensures
        performs(final(cpu)@, r, old(cpu)@.xor_n_n()),
        keeps_timer_sums(old(cpu)@, final(cpu)@),
        r.1 <= 24,
{
    let text = String::from_str("XOR n");
    let n = cpu.get_next_byte();
    xor_n_helper(cpu, n);
    cpu.pc = cpu.pc + 2;
    (2, 8, text)
}

/// CP n: Compare A with n (flags of A - n).
pub fn cp_n(cpu: &mut Cpu, target: Target) -> (r: (u16, u32, String))
    requires
        old(cpu)@.pc + 1 <= 0xFFFF,
    ensures
        performs(final(cpu)@, r, old(cpu)@.cp_n(target)),
        keeps_timer_sums(old(cpu)@, final(cpu)@),
        r.1 <= 24,
{
    let text = text2("CP ", target.name());
    let n = cpu.regs.get_reg(target);
    cp_n_helper(cpu, n);
    cpu.pc = cpu.pc + 1;
    (1, 4, text)
}

/// CP n with n = (HL).
pub fn cp_n_hl(cpu: &mut Cpu) -> (r: (u16, u32, String))
    requires
        old(cpu)@.pc + 1 <= 0xFFFF,
        old(cpu)@.mmu.reads_ok(old(cpu)@.hl()),
    ensures
        performs(final(cpu)@, r, old(cpu)@.cp_n_hl()),
        keeps_timer_sums(old(cpu)@, final(cpu)@),
        r.1 <= 24,
{
    let text = String::from_str("CP (HL)");
    let address = cpu.regs.get_virt_reg(VirtTarget::HL);
    let n = cpu.mmu.read_byte(address);
    cp_n_helper(cpu, n);
    cpu.pc = cpu.pc + 1;
    (1, 8, text)
}

/// CP n with an immediate n.
pub fn cp_n_n(cpu: &mut Cpu) -> (r: (u16, u32, String))
    requires
        old(cpu)@.pc + 2 <= 0xFFFF,
        old(cpu)@.mmu.reads_ok((old(cpu)@.pc + 1) as u16),
    ensures
        performs(final(cpu)@, r, old(cpu)@.cp_n_n()),
        keeps_timer_sums(old(cpu)@, final(cpu)@),
        r.1 <= 24,
{
    let text = String::from_str("CP n");
    let n = cpu.get_next_byte();
    cp_n_helper(cpu, n);
    cpu.pc = cpu.pc + 2;
    (2, 8, text)
}

/// INC n: n += 1.
pub fn inc_n(cpu: &mut Cpu, target: Target) -> (r: (u16, u32, String))
    requires
        old(cpu)@.pc + 1 <= 0xFFFF,
    ensures
        performs(final(cpu)@, r, old(cpu)@.inc_n(target)),
        keeps_timer_sums(old(cpu)@, final(cpu)@),
        r.1 <= 24,
{
    let text = text2("INC ", target.name());
    let reg_val = cpu.regs.get_reg(target);
    let result = reg_val.wrapping_add(1);
    inc_n_set_flags(cpu, reg_val, result);
    cpu.regs.set_reg(target, result);
    cpu.pc = cpu.pc + 1;
    (1, 4, text)
}

/// INC (HL): (HL) += 1.
pub fn inc_n_hl(cpu: &mut Cpu) -> (r: (u16, u32, String))
    requires
        old(cpu)@.pc + 1 <= 0xFFFF,
        old(cpu)@.mmu.reads_ok(old(cpu)@.hl()),
        old(cpu)@.mmu.write_safe(old(cpu)@.hl()),
    ensures
        performs(final(cpu)@, r, old(cpu)@.inc_n_hl()),
        keeps_timer_sums(old(cpu)@, final(cpu)@),
        r.1 <= 24,
{
    let text = String::from_str("INC (HL)");
    let address = cpu.regs.get_virt_reg(VirtTarget::HL);
    let val = cpu.mmu.read_byte(address);
    let result = val.wrapping_add(1);
    inc_n_set_flags(cpu, val, result);
    cpu.mmu.write_byte(address, result);
    cpu.pc = cpu.pc + 1;
    (1, 12, text)
}

/// DEC n: n -= 1.
pub fn dec_n(cpu: &mut Cpu, target: Target) -> (r: (u16, u32, String))
    requires
        old(cpu)@.pc + 1 <= 0xFFFF,
    ensures
        performs(final(cpu)@, r, old(cpu)@.dec_n(target)),
        keeps_timer_sums(old(cpu)@, final(cpu)@),
        r.1 <= 24,
{
    let text = text2("DEC ", target.name());
    let reg_val = cpu.regs.get_reg(target);
    let result = reg_val.wrapping_sub(1);
    dec_n_set_flags(cpu, reg_val, result);
    cpu.regs.set_reg(target, result);
    cpu.pc = cpu.pc + 1;
    (1, 4, text)
}

/// DEC (HL): (HL) -= 1.
pub fn dec_n_hl(cpu: &mut Cpu) -> (r: (u16, u32, String))
    requires
        old(cpu)@.pc + 1 <= 0xFFFF,
        old(cpu)@.mmu.reads_ok(old(cpu)@.hl()),
        old(cpu)@.mmu.write_safe(old(cpu)@.hl()),
    ensures
        performs(final(cpu)@, r, old(cpu)@.dec_n_hl()),
        keeps_timer_sums(old(cpu)@, final(cpu)@),
        r.1 <= 24,
{
    let text = String::from_str("DEC (HL)");
    let address = cpu.regs.get_virt_reg(VirtTarget::HL);
    let val = cpu.mmu.read_byte(address);
    let result = val.wrapping_sub(1);
    dec_n_set_flags(cpu, val, result);
    cpu.mmu.write_byte(address, result);
    cpu.pc = cpu.pc + 1;
    (1, 12, text)
}

/// ADD HL,n: HL += n.
pub fn add_hl_n(cpu: &mut Cpu, target: VirtTarget) -> (r: (u16, u32, String))
    requires
        old(cpu)@.pc + 1 <= 0xFFFF,
    ensures
        performs(final(cpu)@, r, old(cpu)@.add_hl_n(target)),
        keeps_timer_sums(old(cpu)@, final(cpu)@),
        r.1 <= 24,
{
    let text = text2("ADD HL,", target.name());
    let n = cpu.regs.get_virt_reg(target);
    add_hl_n_helper(cpu, n);
    cpu.pc = cpu.pc + 1;
    (1, 8, text)
}

/// ADD HL,SP: HL += SP.
pub fn add_hl_n_sp(cpu: &mut Cpu) -> (r: (u16, u32, String))
    requires
        old(cpu)@.pc + 1 <= 0xFFFF,
    ensures
        performs(final(cpu)@, r, old(cpu)@.add_hl_n_sp()),
        keeps_timer_sums(old(cpu)@, final(cpu)@),
        r.1 <= 24,
{
    let text = String::from_str("ADD HL,SP");
    let n = cpu.sp;
    add_hl_n_helper(cpu, n);
    cpu.pc = cpu.pc + 1;
    (1, 8, text)
}

/// ADD SP,n: SP += n (signed n).
pub fn add_sp_n(cpu: &mut Cpu) -> (r: (u16, u32, String))
    requires
        old(cpu)@.pc + 2 <= 0xFFFF,
        old(cpu)@.mmu.reads_ok((old(cpu)@.pc + 1) as u16),
    ensures
        performs(final(cpu)@, r, old(cpu)@.add_sp_n()),
        keeps_timer_sums(old(cpu)@, final(cpu)@),
        r.1 <= 24,
{
    let text = String::from_str("ADD SP,n");
    let result = sp_n_helper(cpu);
    cpu.sp = result;
    cpu.pc = cpu.pc + 2;
    (2, 16, text)
}

/// INC nn: nn += 1.
pub fn inc_nn(cpu: &mut Cpu, target: VirtTarget) -> (r: (u16, u32, String))
    requires
        old(cpu)@.pc + 1 <= 0xFFFF,
    ensures
        performs(final(cpu)@, r, old(cpu)@.inc_nn(target)),
        keeps_timer_sums(old(cpu)@, final(cpu)@),
        r.1 <= 24,
{
    let text = text2("INC ", target.name());
    let val = cpu.regs.get_virt_reg(target);
    cpu.regs.set_virt_reg(target, val.wrapping_add(1));
    cpu.pc = cpu.pc + 1;
    (1, 8, text)
}

/// INC SP: SP += 1.
pub fn inc_nn_sp(cpu: &mut Cpu) -> (r: (u16, u32, String))
    requires
        old(cpu)@.pc + 1 <= 0xFFFF,
    ensures
        performs(final(cpu)@, r, old(cpu)@.inc_nn_sp()),
        keeps_timer_sums(old(cpu)@, final(cpu)@),
        r.1 <= 24,
{
    let text = String::from_str("INC SP");
    cpu.sp = cpu.sp.wrapping_add(1);
    cpu.pc = cpu.pc + 1;
    (1, 8, text)
}

/// DEC nn: nn -= 1.
pub fn dec_nn(cpu: &mut Cpu, target: VirtTarget) -> (r: (u16, u32, String))
    requires
        old(cpu)@.pc + 1 <= 0xFFFF,
    ensures
        performs(final(cpu)@, r, old(cpu)@.dec_nn(target)),
        keeps_timer_sums(old(cpu)@, final(cpu)@),
        r.1 <= 24,
{
    let text = text2("DEC ", target.name());
    let val = cpu.regs.get_virt_reg(target);
    cpu.regs.set_virt_reg(target, val.wrapping_sub(1));
    cpu.pc = cpu.pc + 1;
    (1, 8, text)
}

/// DEC SP: SP -= 1.
pub fn dec_nn_sp(cpu: &mut Cpu) -> (r: (u16, u32, String))
    requires
        old(cpu)@.pc + 1 <= 0xFFFF,
    ensures
        performs(final(cpu)@, r, old(cpu)@.dec_nn_sp()),
        keeps_timer_sums(old(cpu)@, final(cpu)@),
        r.1 <= 24,
{
    let text = String::from_str("DEC SP");
    cpu.sp = cpu.sp.wrapping_sub(1);
    cpu.pc = cpu.pc + 1;
    (1, 8, text)
}

/// SWAP n: exchange the two nibbles of n.
pub fn swap_n(cpu: &mut Cpu, target: Target) -> (r: (u16, u32, String))
    requires
        old(cpu)@.pc + 2 <= 0xFFFF,
    ensures
        performs(final(cpu)@, r, old(cpu)@.swap_n(target)),
        keeps_timer_sums(old(cpu)@, final(cpu)@),
        r.1 <= 24,
{
    let text = text2("SWAP ", target.name());
    let original_val = cpu.regs.get_reg(target);
    let result = swap_n_helper(cpu, original_val);
    cpu.regs.set_reg(target, result);
    cpu.pc = cpu.pc + 2;
    (2, 8, text)
}

/// SWAP n with n = (HL).
pub fn swap_n_hl(cpu: &mut Cpu) -> (r: (u16, u32, String))
    requires
        old(cpu)@.pc + 2 <= 0xFFFF,
        old(cpu)@.mmu.reads_ok(old(cpu)@.hl()),
        old(cpu)@.mmu.write_safe(old(cpu)@.hl()),
    ensures
        performs(final(cpu)@, r, old(cpu)@.swap_n_hl()),
        keeps_timer_sums(old(cpu)@, final(cpu)@),
        r.1 <= 24,
{
    let text = String::from_str("SWAP (HL)");
    let address = cpu.regs.get_virt_reg(VirtTarget::HL);
    let original_val = cpu.mmu.read_byte(address);
    let result = swap_n_helper(cpu, original_val);
    cpu.mmu.write_byte(address, result);
    cpu.pc = cpu.pc + 2;
    (2, 16, text)
}

/// RLC n: rotate n left, bit 7 into bit 0 and the carry.
pub fn rlc_n(cpu: &mut Cpu, target: Target) -> (r: (u16, u32, String))
    requires
        old(cpu)@.pc + 2 <= 0xFFFF,
    ensures
        performs(final(cpu)@, r, old(cpu)@.rlc_n(target)),
        keeps_timer_sums(old(cpu)@, final(cpu)@),
        r.1 <= 24,
{
    let text = text2("RLC ", target.name());
    let original_val = cpu.regs.get_reg(target);
    let result = rlc_n_helper(cpu, original_val);
    cpu.regs.set_reg(target, result);
    cpu.pc = cpu.pc + 2;
    (2, 8, text)
}

/// RLC n with n = (HL).
pub fn rlc_n_hl(cpu: &mut Cpu) -> (r: (u16, u32, String))
    requires
        old(cpu)@.pc + 2 <= 0xFFFF,
        old(cpu)@.mmu.reads_ok(old(cpu)@.hl()),
        old(cpu)@.mmu.write_safe(old(cpu)@.hl()),
    ensures
        performs(final(cpu)@, r, old(cpu)@.rlc_n_hl()),
        keeps_timer_sums(old(cpu)@, final(cpu)@),
        r.1 <= 24,
{
    let text = String::from_str("RLC (HL)");
    let address = cpu.regs.get_virt_reg(VirtTarget::HL);
    let original_val = cpu.mmu.read_byte(address);
    let result = rlc_n_helper(cpu, original_val);
    cpu.mmu.write_byte(address, result);
    cpu.pc = cpu.pc + 2;
    (2, 16, text)
}

/// RL n: rotate n left through the carry.
pub fn rl_n(cpu: &mut Cpu, target: Target) -> (r: (u16, u32, String))
    requires
        old(cpu)@.pc + 2 <= 0xFFFF,
    ensures
        performs(final(cpu)@, r, old(cpu)@.rl_n(target)),
        keeps_timer_sums(old(cpu)@, final(cpu)@),
        r.1 <= 24,
{
    let text = text2("RL ", target.name());
    let original_val = cpu.regs.get_reg(target);
    let result = rl_n_helper(cpu, original_val);
    cpu.regs.set_reg(target, result);
    cpu.pc = cpu.pc + 2;
    (2, 8, text)
}

/// RL n with n = (HL).
pub fn rl_n_hl(cpu: &mut Cpu) -> (r: (u16, u32, String))
    requires
        old(cpu)@.pc + 2 <= 0xFFFF,
        old(cpu)@.mmu.reads_ok(old(cpu)@.hl()),
        old(cpu)@.mmu.write_safe(old(cpu)@.hl()),
    ensures
        performs(final(cpu)@, r, old(cpu)@.rl_n_hl()),
        keeps_timer_sums(old(cpu)@, final(cpu)@),
        r.1 <= 24,
{
    let text = String::from_str("RL (HL)");
    let address = cpu.regs.get_virt_reg(VirtTarget::HL);
    let original_val = cpu.mmu.read_byte(address);
    let result = rl_n_helper(cpu, original_val);
    cpu.mmu.write_byte(address, result);
    cpu.pc = cpu.pc + 2;
    (2, 16, text)
}

/// RRC n: rotate n right, bit 0 into bit 7 and the carry.
pub fn rrc_n(cpu: &mut Cpu, target: Target) -> (r: (u16, u32, String))
    requires
        old(cpu)@.pc + 2 <= 0xFFFF,
    ensures
        performs(final(cpu)@, r, old(cpu)@.rrc_n(target)),
        keeps_timer_sums(old(cpu)@, final(cpu)@),
        r.1 <= 24,
{
    let text = text2("RRC ", target.name());
    let original_val = cpu.regs.get_reg(target);
    let result = rrc_n_helper(cpu, original_val);
    cpu.regs.set_reg(target, result);
    cpu.pc = cpu.pc + 2;
    (2, 8, text)
}

/// RRC n with n = (HL).
pub fn rrc_n_hl(cpu: &mut Cpu) -> (r: (u16, u32, String))
    requires
        old(cpu)@.pc + 2 <= 0xFFFF,
        old(cpu)@.mmu.reads_ok(old(cpu)@.hl()),
        old(cpu)@.mmu.write_safe(old(cpu)@.hl()),
    ensures
        performs(final(cpu)@, r, old(cpu)@.rrc_n_hl()),
        keeps_timer_sums(old(cpu)@, final(cpu)@),
        r.1 <= 24,
{
    let text = String::from_str("RRC (HL)");
    let address = cpu.regs.get_virt_reg(VirtTarget::HL);
    let original_val = cpu.mmu.read_byte(address);
    let result = rrc_n_helper(cpu, original_val);
    cpu.mmu.write_byte(address, result);
    cpu.pc = cpu.pc + 2;
    (2, 16, text)
}

/// RR n: rotate n right through the carry.
pub fn rr_n(cpu: &mut Cpu, target: Target) -> (r: (u16, u32, String))
    requires
        old(cpu)@.pc + 2 <= 0xFFFF,
    ensures
        performs(final(cpu)@, r, old(cpu)@.rr_n(target)),
        keeps_timer_sums(old(cpu)@, final(cpu)@),
        r.1 <= 24,
{
    let text = text2("RR ", target.name());
    let original_val = cpu.regs.get_reg(target);
    let result = rr_n_helper(cpu, original_val);
    cpu.regs.set_reg(target, result);
    cpu.pc = cpu.pc + 2;
    (2, 8, text)
}

/// RR n with n = (HL).
pub fn rr_n_hl(cpu: &mut Cpu) -> (r: (u16, u32, String))
    requires
        old(cpu)@.pc + 2 <= 0xFFFF,
        old(cpu)@.mmu.reads_ok(old(cpu)@.hl()),
        old(cpu)@.mmu.write_safe(old(cpu)@.hl()),
    ensures
        performs(final(cpu)@, r, old(cpu)@.rr_n_hl()),
        keeps_timer_sums(old(cpu)@, final(cpu)@),
        r.1 <= 24,
{
    let text = String::from_str("RR (HL)");
    let address = cpu.regs.get_virt_reg(VirtTarget::HL);
    let original_val = cpu.mmu.read_byte(address);
    let result = rr_n_helper(cpu, original_val);
    cpu.mmu.write_byte(address, result);
    cpu.pc = cpu.pc + 2;
    (2, 16, text)
}

/// SLA n: shift n left into the carry.
pub fn sla_n(cpu: &mut Cpu, target: Target) -> (r: (u16, u32, String))
    requires
        old(cpu)@.pc + 2 <= 0xFFFF,
    ensures
        performs(final(cpu)@, r, old(cpu)@.sla_n(target)),
        keeps_timer_sums(old(cpu)@, final(cpu)@),
        r.1 <= 24,
{
    let text = text2("SLA ", target.name());
    let original_val = cpu.regs.get_reg(target);
    let result = sla_n_helper(cpu, original_val);
    cpu.regs.set_reg(target, result);
    cpu.pc = cpu.pc + 2;
    (2, 8, text)
}

/// SLA n with n = (HL).
pub fn sla_n_hl(cpu: &mut Cpu) -> (r: (u16, u32, String))
    requires
        old(cpu)@.pc + 2 <= 0xFFFF,
        old(cpu)@.mmu.reads_ok(old(cpu)@.hl()),
        old(cpu)@.mmu.write_safe(old(cpu)@.hl()),
    ensures
        performs(final(cpu)@, r, old(cpu)@.sla_n_hl()),
        keeps_timer_sums(old(cpu)@, final(cpu)@),
        r.1 <= 24,
{
    let text = String::from_str("SLA (HL)");
    let address = cpu.regs.get_virt_reg(VirtTarget::HL);
    let original_val = cpu.mmu.read_byte(address);
    let result = sla_n_helper(cpu, original_val);
    cpu.mmu.write_byte(address, result);
    cpu.pc = cpu.pc + 2;
    (2, 16, text)
}

/// SRA n: shift n right into the carry, keeping bit 7.
pub fn sra_n(cpu: &mut Cpu, target: Target) -> (r: (u16, u32, String))
    requires
        old(cpu)@.pc + 2 <= 0xFFFF,
    ensures
        performs(final(cpu)@, r, old(cpu)@.sra_n(target)),
        keeps_timer_sums(old(cpu)@, final(cpu)@),
        r.1 <= 24,
{
    let text = text2("SRA ", target.name());
    let original_val = cpu.regs.get_reg(target);
    let result = sra_n_helper(cpu, original_val);
    cpu.regs.set_reg(target, result);
    cpu.pc = cpu.pc + 2;
    (2, 8, text)
}

/// SRA n with n = (HL).
pub fn sra_n_hl(cpu: &mut Cpu) -> (r: (u16, u32, String))
    requires
        old(cpu)@.pc + 2 <= 0xFFFF,
        old(cpu)@.mmu.reads_ok(old(cpu)@.hl()),
        old(cpu)@.mmu.write_safe(old(cpu)@.hl()),
    ensures
        performs(final(cpu)@, r, old(cpu)@.sra_n_hl()),
        keeps_timer_sums(old(cpu)@, final(cpu)@),
        r.1 <= 24,
{
    let text = String::from_str("SRA (HL)");
    let address = cpu.regs.get_virt_reg(VirtTarget::HL);
    let original_val = cpu.mmu.read_byte(address);
    let result = sra_n_helper(cpu, original_val);
    cpu.mmu.write_byte(address, result);
    cpu.pc = cpu.pc + 2;
    (2, 16, text)
}

/// SRL n: shift n right into the carry.
pub fn srl_n(cpu: &mut Cpu, target: Target) -> (r: (u16, u32, String))
    requires
        old(cpu)@.pc + 2 <= 0xFFFF,
    ensures
        performs(final(cpu)@, r, old(cpu)@.srl_n(target)),
        keeps_timer_sums(old(cpu)@, final(cpu)@),
        r.1 <= 24,
{
    let text = text2("SRL ", target.name());
    let original_val = cpu.regs.get_reg(target);
    let result = srl_n_helper(cpu, original_val);
    cpu.regs.set_reg(target, result);
    cpu.pc = cpu.pc + 2;
    (2, 8, text)
}

/// SRL n with n = (HL).
pub fn srl_n_hl(cpu: &mut Cpu) -> (r: (u16, u32, String))
    requires
        old(cpu)@.pc + 2 <= 0xFFFF,
        old(cpu)@.mmu.reads_ok(old(cpu)@.hl()),
        old(cpu)@.mmu.write_safe(old(cpu)@.hl()),
    ensures
        performs(final(cpu)@, r, old(cpu)@.srl_n_hl()),
        keeps_timer_sums(old(cpu)@, final(cpu)@),
        r.1 <= 24,
{
    let text = String::from_str("SRL (HL)");
    let address = cpu.regs.get_virt_reg(VirtTarget::HL);
    let original_val = cpu.mmu.read_byte(address);
    let result = srl_n_helper(cpu, original_val);
    cpu.mmu.write_byte(address, result);
    cpu.pc = cpu.pc + 2;
    (2, 16, text)
}

/// RLCA: the rotate of A; Z is set iff the result is 0.
pub fn rlca(cpu: &mut Cpu) -> (r: (u16, u32, String))
    requires
        old(cpu)@.pc + 1 <= 0xFFFF,
    ensures
        performs(final(cpu)@, r, old(cpu)@.rlca()),
        keeps_timer_sums(old(cpu)@, final(cpu)@),
        r.1 <= 24,
{
    let text = String::from_str("RLCA");
    let original_val = cpu.regs.get_reg(Target::A);
    let rotated = rlc_n_helper(cpu, original_val);
    cpu.regs.set_reg(Target::A, rotated);
    cpu.pc = cpu.pc + 1;
    (1, 4, text)
}

/// RLA: the rotate of A; Z is set iff the result is 0.
pub fn rla(cpu: &mut Cpu) -> (r: (u16, u32, String))
    requires
        old(cpu)@.pc + 1 <= 0xFFFF,
    ensures
        performs(final(cpu)@, r, old(cpu)@.rla()),
        keeps_timer_sums(old(cpu)@, final(cpu)@),
        r.1 <= 24,
{
    let text = String::from_str("RLA");
    let original_val = cpu.regs.get_reg(Target::A);
    let rotated = rl_n_helper(cpu, original_val);
    cpu.regs.set_reg(Target::A, rotated);
    cpu.pc = cpu.pc + 1;
    (1, 4, text)
}

/// RRCA: the rotate of A; Z is set iff the result is 0.
pub fn rrca(cpu: &mut Cpu) -> (r: (u16, u32, String))
    requires
        old(cpu)@.pc + 1 <= 0xFFFF,
    ensures
        performs(final(cpu)@, r, old(cpu)@.rrca()),
        keeps_timer_sums(old(cpu)@, final(cpu)@),
        r.1 <= 24,
{
    let text = String::from_str("RRCA");
    let original_val = cpu.regs.get_reg(Target::A);
    let rotated = rrc_n_helper(cpu, original_val);
    cpu.regs.set_reg(Target::A, rotated);
    cpu.pc = cpu.pc + 1;
    (1, 4, text)
}

/// RRA: the rotate of A; Z is set iff the result is 0.
pub fn rra(cpu: &mut Cpu) -> (r: (u16, u32, String))
    requires
        old(cpu)@.pc + 1 <= 0xFFFF,
    ensures
        performs(final(cpu)@, r, old(cpu)@.rra()),
        keeps_timer_sums(old(cpu)@, final(cpu)@),
        r.1 <= 24,
{
    let text = String::from_str("RRA");
    let original_val = cpu.regs.get_reg(Target::A);
    let rotated = rr_n_helper(cpu, original_val);
    cpu.regs.set_reg(Target::A, rotated);
    cpu.pc = cpu.pc + 1;
    (1, 4, text)
}

/// BIT b,r: Z = bit b of r is 0; N = 0, H = 1; C unchanged.
pub fn bit_b_r(cpu: &mut Cpu, b: usize, target: Target) -> (r: (u16, u32, String))
    requires
        old(cpu)@.pc + 2 <= 0xFFFF,
        b < 8,
    ensures
        performs(final(cpu)@, r, old(cpu)@.bit_b_r(b, target)),
        keeps_timer_sums(old(cpu)@, final(cpu)@),
        r.1 <= 24,
{
    let text = text4("BIT ", digit_name(b), ",", target.name());
    let v = cpu.regs.get_reg(target);
    bit_b_r_helper(cpu, b, v);
    cpu.pc = cpu.pc + 2;
    (2, 8, text)
}

/// BIT b,(HL): Z = bit b of (HL) is 0; N = 0, H = 1; C unchanged.
pub fn bit_b_r_hl(cpu: &mut Cpu, b: usize) -> (r: (u16, u32, String))
    requires
        old(cpu)@.pc + 2 <= 0xFFFF,
        b < 8,
        old(cpu)@.mmu.reads_ok(old(cpu)@.hl()),
    ensures
        performs(final(cpu)@, r, old(cpu)@.bit_b_r_hl(b)),
        keeps_timer_sums(old(cpu)@, final(cpu)@),
        r.1 <= 24,
{
    let text = text3("BIT ", digit_name(b), ",(HL)");
    let address = cpu.regs.get_virt_reg(VirtTarget::HL);
    let target_byte = cpu.mmu.read_byte(address);
    bit_b_r_helper(cpu, b, target_byte);
    cpu.pc = cpu.pc + 2;
    (2, 12, text)
}

/// SET b,r: set bit b of r.
pub fn set_b_r(cpu: &mut Cpu, b: usize, target: Target) -> (r: (u16, u32, String))
    requires
        old(cpu)@.pc + 2 <= 0xFFFF,
        b < 8,
    ensures
        performs(final(cpu)@, r, old(cpu)@.set_b_r(b, target)),
        keeps_timer_sums(old(cpu)@, final(cpu)@),
        r.1 <= 24,
{
    let text = text4("SET ", digit_name(b), ",", target.name());
    let byte = cpu.regs.get_reg(target);
    let bb = b as u8;
    cpu.regs.set_reg(target, byte | (1u8 << bb));
    cpu.pc = cpu.pc + 2;
    (2, 8, text)
}

/// SET b,(HL): set bit b of (HL).
pub fn set_b_r_hl(cpu: &mut Cpu, b: usize) -> (r: (u16, u32, String))
    requires
        old(cpu)@.pc + 2 <= 0xFFFF,
        b < 8,
        old(cpu)@.mmu.reads_ok(old(cpu)@.hl()),
        old(cpu)@.mmu.write_safe(old(cpu)@.hl()),
    ensures
        performs(final(cpu)@, r, old(cpu)@.set_b_r_hl(b)),
        keeps_timer_sums(old(cpu)@, final(cpu)@),
        r.1 <= 24,
{
    let text = text3("SET ", digit_name(b), ",(HL)");
    let address = cpu.regs.get_virt_reg(VirtTarget::HL);
    let byte = cpu.mmu.read_byte(address);
    let bb = b as u8;
    cpu.mmu.write_byte(address, byte | (1u8 << bb));
    cpu.pc = cpu.pc + 2;
    (2, 16, text)
}

/// RES b,r: clear bit b of r.
pub fn res_b_r(cpu: &mut Cpu, b: usize, target: Target) -> (r: (u16, u32, String))
    requires
        old(cpu)@.pc + 2 <= 0xFFFF,
        b < 8,
    ensures
        performs(final(cpu)@, r, old(cpu)@.res_b_r(b, target)),
        keeps_timer_sums(old(cpu)@, final(cpu)@),
        r.1 <= 24,
{
    let text = text4("RES ", digit_name(b), ",", target.name());
    let byte = cpu.regs.get_reg(target);
    let bb = b as u8;
    cpu.regs.set_reg(target, byte & !(1u8 << bb));
    cpu.pc = cpu.pc + 2;
    (2, 8, text)
}

/// RES b,(HL): clear bit b of (HL).
pub fn res_b_r_hl(cpu: &mut Cpu, b: usize) -> (r: (u16, u32, String))
    requires
        old(cpu)@.pc + 2 <= 0xFFFF,
        b < 8,
        old(cpu)@.mmu.reads_ok(old(cpu)@.hl()),
        old(cpu)@.mmu.write_safe(old(cpu)@.hl()),
    ensures
        performs(final(cpu)@, r, old(cpu)@.res_b_r_hl(b)),
        keeps_timer_sums(old(cpu)@, final(cpu)@),
        r.1 <= 24,
{
    let text = text3("RES ", digit_name(b), ",(HL)");
    let address = cpu.regs.get_virt_reg(VirtTarget::HL);
    let byte = cpu.mmu.read_byte(address);
    let bb = b as u8;
    cpu.mmu.write_byte(address, byte & !(1u8 << bb));
    cpu.pc = cpu.pc + 2;
    (2, 16, text)
}

/// DAA: decimal-adjust A after a BCD addition or subtraction.
pub fn daa(cpu: &mut Cpu) -> (r: (u16, u32, String))
    requires
        old(cpu)@.pc + 1 <= 0xFFFF,
    ensures
        performs(final(cpu)@, r, old(cpu)@.daa()),
        keeps_timer_sums(old(cpu)@, final(cpu)@),
        r.1 <= 24,
{
    let text = String::from_str("DAA");
    let n_val = cpu.regs.get_flag(RegFlag::N);
    let h_val = cpu.regs.get_flag(RegFlag::H);
    let c_val = cpu.regs.get_flag(RegFlag::C);
    let original_value = cpu.regs.get_reg(Target::A);
    let mut result = original_value;
    let mut correction: u8 = 0x00;
    if h_val || (!n_val && ((0x0F & original_value) > 0x09)) {
        assert(0u8 | 0x06u8 == 6) by (bit_vector);
        correction = correction | 0x06;
    }
    let mut should_carry = false;
    if c_val || (!n_val && (original_value > 0x99)) {
        assert(correction | 0x60u8 == correction + 0x60) by (bit_vector)
            requires
                correction == 0 || correction == 6,
        ;
        correction = correction | 0x60;
        should_carry = true;
    }
    assert(correction == 0 || correction == 6 || correction == 0x60 || correction == 0x66);
    proof {
        lemma_bit_facts();
    }
    if n_val {
        result = result.wrapping_sub(correction);
    } else {
        result = result.wrapping_add(correction);
    }
    cpu.regs.set_flag(RegFlag::Z, result == 0x00);
    cpu.regs.set_flag(RegFlag::H, false);
    cpu.regs.set_flag(RegFlag::C, should_carry);
    cpu.regs.set_reg(Target::A, result);
    cpu.pc = cpu.pc + 1;
    (1, 4, text)
}

/// CPL: A = NOT A; N = H = 1.
pub fn cpl(cpu: &mut Cpu) -> (r: (u16, u32, String))
    requires
        old(cpu)@.pc + 1 <= 0xFFFF,
    ensures
        performs(final(cpu)@, r, old(cpu)@.cpl()),
        keeps_timer_sums(old(cpu)@, final(cpu)@),
        r.1 <= 24,
{
    let text = String::from_str("CPL");
    cpu.regs.set_flag(RegFlag::N, true);
    cpu.regs.set_flag(RegFlag::H, true);
    let a = cpu.regs.get_reg(Target::A);
    cpu.regs.set_reg(Target::A, a ^ 0xFF);
    cpu.pc = cpu.pc + 1;
    (1, 4, text)
}

/// CCF: complement the carry flag; N = H = 0.
pub fn ccf(cpu: &mut Cpu) -> (r: (u16, u32, String))
    requires
        old(cpu)@.pc + 1 <= 0xFFFF,
    ensures
        performs(final(cpu)@, r, old(cpu)@.ccf()),
        keeps_timer_sums(old(cpu)@, final(cpu)@),
        r.1 <= 24,
{
    let text = String::from_str("CCF");
    cpu.regs.set_flag(RegFlag::N, false);
    cpu.regs.set_flag(RegFlag::H, false);
    if cpu.regs.get_flag(RegFlag::C) {
        cpu.regs.set_flag(RegFlag::C, false);
    } else {
        cpu.regs.set_flag(RegFlag::C, true);
    }
    cpu.pc = cpu.pc + 1;
    (1, 4, text)
}

/// SCF: set the carry flag; N = H = 0.
pub fn scf(cpu: &mut Cpu) -> (r: (u16, u32, String))
    requires
        old(cpu)@.pc + 1 <= 0xFFFF,
    ensures
        performs(final(cpu)@, r, old(cpu)@.scf()),
        keeps_timer_sums(old(cpu)@, final(cpu)@),
        r.1 <= 24,
{
    let text = String::from_str("SCF");
    cpu.regs.set_flag(RegFlag::N, false);
    cpu.regs.set_flag(RegFlag::H, false);
    cpu.regs.set_flag(RegFlag::C, true);
    cpu.pc = cpu.pc + 1;
    (1, 4, text)
}

/// NOP: do nothing.
pub fn nop(cpu: &mut Cpu) -> (r: (u16, u32, String))
    requires
        old(cpu)@.pc + 1 <= 0xFFFF,
    ensures
        performs(final(cpu)@, r, old(cpu)@.nop()),
        keeps_timer_sums(old(cpu)@, final(cpu)@),
        r.1 <= 24,
{
    let text = String::from_str("NOP");

    cpu.pc = cpu.pc + 1;
    (1, 4, text)
}

/// HALT: halt until an interrupt.
pub fn halt(cpu: &mut Cpu) -> (r: (u16, u32, String))
    requires
        old(cpu)@.pc + 1 <= 0xFFFF,
    ensures
        performs(final(cpu)@, r, old(cpu)@.halt()),
        keeps_timer_sums(old(cpu)@, final(cpu)@),
        r.1 <= 24,
{
    let text = String::from_str("HALT");
    cpu.is_halted = true;
    cpu.pc = cpu.pc + 1;
    (1, 4, text)
}

/// STOP: stop the CPU.
pub fn stop(cpu: &mut Cpu) -> (r: (u16, u32, String))
    requires
        old(cpu)@.pc + 2 <= 0xFFFF,
    ensures
        performs(final(cpu)@, r, old(cpu)@.stop()),
        keeps_timer_sums(old(cpu)@, final(cpu)@),
        r.1 <= 24,
{
    let text = String::from_str("STOP");
    cpu.is_stopped = true;
    cpu.pc = cpu.pc + 2;
    (2, 4, text)
}

/// DI: disable interrupts after the next instruction.
pub fn di(cpu: &mut Cpu) -> (r: (u16, u32, String))
    requires
        old(cpu)@.pc + 1 <= 0xFFFF,
    ensures
        performs(final(cpu)@, r, old(cpu)@.di()),
        keeps_timer_sums(old(cpu)@, final(cpu)@),
        r.1 <= 24,
{
    let text = String::from_str("DI");
    cpu.di_countdown = 2;
    cpu.pc = cpu.pc + 1;
    (1, 4, text)
}

/// EI: enable interrupts after the next instruction.
pub fn ei(cpu: &mut Cpu) -> (r: (u16, u32, String))
    requires
        old(cpu)@.pc + 1 <= 0xFFFF,
    ensures
        performs(final(cpu)@, r, old(cpu)@.ei()),
        keeps_timer_sums(old(cpu)@, final(cpu)@),
        r.1 <= 24,
{
    let text = String::from_str("EI");
    cpu.ei_countdown = 2;
    cpu.pc = cpu.pc + 1;
    (1, 4, text)
}

/// JP nn: jump to nn.
pub fn jp_nn(cpu: &mut Cpu) -> (r: (u16, u32, String))
    requires
        old(cpu)@.pc + 2 <= 0xFFFF,
        old(cpu)@.mmu.reads_ok((old(cpu)@.pc + 1) as u16),
        old(cpu)@.mmu.reads_ok((old(cpu)@.pc + 2) as u16),
    ensures
        performs(final(cpu)@, r, old(cpu)@.jp_nn()),
        keeps_timer_sums(old(cpu)@, final(cpu)@),
        r.1 <= 24,
{
    let text = String::from_str("JP nn");
    let nn = cpu.get_next_2_bytes();
    jp_helper(cpu, nn);
    (3, 16, text)
}

/// JP cc,nn: jump to nn iff the flag has the expected value.
pub fn jp_cc_nn(cpu: &mut Cpu, flag: RegFlag, expected_value: bool) -> (r: (u16, u32, String))
    requires
        flag == RegFlag::Z || flag == RegFlag::C,
        (if old(cpu)@.regs.flag(flag) == expected_value { old(cpu)@.pc + 2 } else { old(cpu)@.pc + 3 }) <= 0xFFFF,
        old(cpu)@.regs.flag(flag) == expected_value ==> old(cpu)@.mmu.reads_ok((old(cpu)@.pc + 1) as u16) && old(cpu)@.mmu.reads_ok((old(cpu)@.pc + 2) as u16),
    ensures
        performs(final(cpu)@, r, old(cpu)@.jp_cc_nn(flag, expected_value)),
        keeps_timer_sums(old(cpu)@, final(cpu)@),
        r.1 <= 24,
{
    let text = cc_text3("JP ", flag, expected_value, ",nn");
    if cpu.regs.get_flag(flag) == expected_value {
        let nn = cpu.get_next_2_bytes();
        jp_helper(cpu, nn);
        (3, 16, text)
    } else {
        cpu.pc = cpu.pc + 3;
        (3, 12, text)
    }
}

/// JP (HL): jump to HL.
pub fn jp_hl(cpu: &mut Cpu) -> (r: (u16, u32, String))
    requires
    ensures
        performs(final(cpu)@, r, old(cpu)@.jp_hl()),
        keeps_timer_sums(old(cpu)@, final(cpu)@),
        r.1 <= 24,
{
    let text = String::from_str("JP (HL)");
    let address = cpu.regs.get_virt_reg(VirtTarget::HL);
    jp_helper(cpu, address);
    (1, 4, text)
}

/// JR n: add the signed byte n to the current address (that of the JR) and jump there.
pub fn jr_n(cpu: &mut Cpu) -> (r: (u16, u32, String))
    requires
        old(cpu)@.pc + 2 <= 0xFFFF,
        old(cpu)@.mmu.reads_ok((old(cpu)@.pc + 1) as u16),
    ensures
        performs(final(cpu)@, r, old(cpu)@.jr_n()),
        keeps_timer_sums(old(cpu)@, final(cpu)@),
        r.1 <= 24,
{
    let text = String::from_str("JR n");
    let n = cpu.get_next_byte();
    let target = jr_target(cpu.pc, n);
    jp_helper(cpu, target);
    (2, 12, text)
}

/// JR cc,n: jump relative by n iff the flag has the expected value.
pub fn jr_cc_n(cpu: &mut Cpu, flag: RegFlag, expected_value: bool) -> (r: (u16, u32, String))
    requires
        flag == RegFlag::Z || flag == RegFlag::C,
        old(cpu)@.pc + 2 <= 0xFFFF,
        old(cpu)@.regs.flag(flag) == expected_value ==> old(cpu)@.mmu.reads_ok((old(cpu)@.pc + 1) as u16),
    ensures
        performs(final(cpu)@, r, old(cpu)@.jr_cc_n(flag, expected_value)),
        keeps_timer_sums(old(cpu)@, final(cpu)@),
        r.1 <= 24,
{
    let text = cc_text3("JR ", flag, expected_value, ",n");
    if cpu.regs.get_flag(flag) == expected_value {
        let n = cpu.get_next_byte();
        let target = jr_target(cpu.pc, n);
        jp_helper(cpu, target);
        (2, 12, text)
    } else {
        cpu.pc = cpu.pc + 2;
        (2, 8, text)
    }
}

/// CALL nn: push the address of the next instruction and jump to nn.
pub fn call_nn(cpu: &mut Cpu) -> (r: (u16, u32, String))
    requires
        old(cpu)@.pc + 3 <= 0xFFFF,
        old(cpu)@.push_ok(),
        old(cpu)@.call_reads_ok(),
    ensures
        performs(final(cpu)@, r, old(cpu)@.call_nn()),
        keeps_timer_sums(old(cpu)@, final(cpu)@),
        r.1 <= 24,
{
    let text = String::from_str("CALL nn");
    let ret_addr = cpu.pc + 3;
    proof {
        lemma_call_reads(cpu@, ret_addr);
    }
    cpu.push_stack(ret_addr);
    cpu.pc = cpu.get_next_2_bytes();
    (3, 24, text)
}

/// CALL cc,nn: CALL nn iff the flag has the expected value.
pub fn call_cc_nn(cpu: &mut Cpu, flag: RegFlag, expected_value: bool) -> (r: (u16, u32, String))
    requires
        flag == RegFlag::Z || flag == RegFlag::C,
        old(cpu)@.pc + 3 <= 0xFFFF,
        old(cpu)@.regs.flag(flag) == expected_value ==> old(cpu)@.push_ok() && old(cpu)@.call_reads_ok(),
    ensures
        performs(final(cpu)@, r, old(cpu)@.call_cc_nn(flag, expected_value)),
        keeps_timer_sums(old(cpu)@, final(cpu)@),
        r.1 <= 24,
{
    let text = cc_text3("CALL ", flag, expected_value, ",nn");
    if cpu.regs.get_flag(flag) == expected_value {
        let ret_addr = cpu.pc + 3;
        proof {
            lemma_call_reads(cpu@, ret_addr);
        }
        cpu.push_stack(ret_addr);
        cpu.pc = cpu.get_next_2_bytes();
        (3, 24, text)
    } else {
        cpu.pc = cpu.pc + 3;
        (3, 12, text)
    }
}

/// RST n: push the current address (that of the RST) and jump to n.
pub fn rst_n(cpu: &mut Cpu, n: u8) -> (r: (u16, u32, String))
    requires
        old(cpu)@.push_ok(),
    ensures
        performs(final(cpu)@, r, old(cpu)@.rst_n(n)),
        keeps_timer_sums(old(cpu)@, final(cpu)@),
        r.1 <= 24,
{
    let text = String::from_str("RST n");
    let pc = cpu.pc;
    cpu.push_stack(pc);
    cpu.pc = n as u16;
    (1, 16, text)
}

/// RET: pop the return address and jump to it.
pub fn ret(cpu: &mut Cpu) -> (r: (u16, u32, String))
    requires
        old(cpu)@.pop_ok(),
    ensures
        performs(final(cpu)@, r, old(cpu)@.ret()),
        keeps_timer_sums(old(cpu)@, final(cpu)@),
        r.1 <= 24,
{
    let text = String::from_str("RET");
    cpu.pc = cpu.pop_stack();
    (1, 16, text)
}

/// RET cc: RET iff the flag has the expected value.
pub fn ret_cc(cpu: &mut Cpu, flag: RegFlag, expected_value: bool) -> (r: (u16, u32, String))
    requires
        flag == RegFlag::Z || flag == RegFlag::C,
        if old(cpu)@.regs.flag(flag) == expected_value { old(cpu)@.pop_ok() } else { old(cpu)@.pc + 1 <= 0xFFFF },
    ensures
        performs(final(cpu)@, r, old(cpu)@.ret_cc(flag, expected_value)),
        keeps_timer_sums(old(cpu)@, final(cpu)@),
        r.1 <= 24,
{
    let text = cc_text2("RET ", flag, expected_value);
    if cpu.regs.get_flag(flag) == expected_value {
        cpu.pc = cpu.pop_stack();
        (1, 20, text)
    } else {
        cpu.pc = cpu.pc + 1;
        (1, 8, text)
    }
}

/// RETI: RET and enable interrupts after this instruction.
pub fn reti(cpu: &mut Cpu) -> (r: (u16, u32, String))
    requires
        old(cpu)@.pop_ok(),
    ensures
        performs(final(cpu)@, r, old(cpu)@.reti()),
        keeps_timer_sums(old(cpu)@, final(cpu)@),
        r.1 <= 24,
{
    let text = String::from_str("RETI");
    cpu.pc = cpu.pop_stack();
    cpu.ei_countdown = 1;
    (1, 16, text)
}

// ----------------------------------------------------
// Decoding
// ----------------------------------------------------

    /// Execute the 8-bit arithmetic/logic instruction `alu` (ADD, ADC, SUB, SBC, AND,
    /// XOR, OR, CP) on operand encoding `z` (a register, or (HL) for 6).
    fn exec_alu(cpu: &mut Cpu, alu: u8, z: u8) -> (r: (u16, u32, String))
        requires
            old(cpu)@.normalized().ok_step_alu(alu, z),
            alu < 8,
            z < 8,
        ensures
            performs(final(cpu)@, r, old(cpu)@.step_alu(alu, z)),
            keeps_timer_sums(old(cpu)@, final(cpu)@),
            r.1 <= 24,
    {
        let t: Target = reg_code_exec(z);
        if alu == 0 {
            if z == 6 { add_a_n_hl(cpu) } else { add_a_n(cpu, t) }
        } else if alu == 1 {
            if z == 6 { adc_a_n_hl(cpu) } else { adc_a_n(cpu, t) }
        } else if alu == 2 {
            if z == 6 { sub_n_hl(cpu) } else { sub_n(cpu, t) }
        } else if alu == 3 {
            if z == 6 { sbc_n_hl(cpu) } else { sbc_n(cpu, t) }
        } else if alu == 4 {
            if z == 6 { and_n_hl(cpu) } else { and_n(cpu, t) }
        } else if alu == 5 {
            if z == 6 { xor_n_hl(cpu) } else { xor_n(cpu, t) }
        } else if alu == 6 {
            if z == 6 { or_n_hl(cpu) } else { or_n(cpu, t) }
        } else {
            if z == 6 { cp_n_hl(cpu) } else { cp_n(cpu, t) }
        }
    }

    /// Execute the 8-bit arithmetic/logic instruction `alu` on the immediate byte.
    fn exec_alu_imm(cpu: &mut Cpu, alu: u8) -> (r: (u16, u32, String))
        requires
            old(cpu)@.normalized().ok_step_alu_imm(alu),
        ensures
            performs(final(cpu)@, r, old(cpu)@.step_alu_imm(alu)),
            keeps_timer_sums(old(cpu)@, final(cpu)@),
            r.1 <= 24,
    {
        if alu == 0 {
            add_a_n_n(cpu)
        } else if alu == 1 {
            adc_a_n_n(cpu)
        } else if alu == 2 {
            sub_n_n(cpu)
        } else if alu == 3 {
            sbc_n_n(cpu)
        } else if alu == 4 {
            and_n_n(cpu)
        } else if alu == 5 {
            xor_n_n(cpu)
        } else if alu == 6 {
            or_n_n(cpu)
        } else {
            cp_n_n(cpu)
        }
    }

    /// Execute the CB-prefixed instruction whose second byte is `ext`: bits 7-6 pick
    /// the group (shift/rotate, BIT, RES, SET), bits 5-3 the operation or bit, bits 2-0 the
    /// operand.
    #[verifier::rlimit(40)]
    fn exec_cb(cpu: &mut Cpu, ext: u8) -> (r: (u16, u32, String))
        requires
            old(cpu)@.normalized().ok_step_cb(ext),
        ensures
            performs(final(cpu)@, r, old(cpu)@.step_cb(ext)),
            keeps_timer_sums(old(cpu)@, final(cpu)@),
            r.1 <= 24,
    {
        let x: u8 = ext / 64;
        let y: u8 = (ext / 8) % 8;
        let z: u8 = ext % 8;
        let t: Target = reg_code_exec(z);
        if x == 0 {
            if y == 0 {
                if z == 6 { rlc_n_hl(cpu) } else { rlc_n(cpu, t) }
            } else if y == 1 {
                if z == 6 { rrc_n_hl(cpu) } else { rrc_n(cpu, t) }
            } else if y == 2 {
                if z == 6 { rl_n_hl(cpu) } else { rl_n(cpu, t) }
            } else if y == 3 {
                if z == 6 { rr_n_hl(cpu) } else { rr_n(cpu, t) }
            } else if y == 4 {
                if z == 6 { sla_n_hl(cpu) } else { sla_n(cpu, t) }
            } else if y == 5 {
                if z == 6 { sra_n_hl(cpu) } else { sra_n(cpu, t) }
            } else if y == 6 {
                if z == 6 { swap_n_hl(cpu) } else { swap_n(cpu, t) }
            } else {
                if z == 6 { srl_n_hl(cpu) } else { srl_n(cpu, t) }
            }
        } else if x == 1 {
            if z == 6 { bit_b_r_hl(cpu, y as usize) } else { bit_b_r(cpu, y as usize, t) }
        } else if x == 2 {
            if z == 6 { res_b_r_hl(cpu, y as usize) } else { res_b_r(cpu, y as usize, t) }
        } else {
            if z == 6 { set_b_r_hl(cpu, y as usize) } else { set_b_r(cpu, y as usize, t) }
        }
    }

    /// Execute an instruction of the block 0x00..=0x3F (loads of immediates, 16-bit
    /// arithmetic, INC/DEC, rotates of A, relative jumps and miscellaneous instructions).
    #[verifier::rlimit(40)]
    fn exec_x0(cpu: &mut Cpu, y: u8, z: u8) -> (r: (u16, u32, String))
        requires
            old(cpu)@.normalized().ok_step_x0(y, z),
            y < 8,
            z < 8,
        ensures
            performs(final(cpu)@, r, old(cpu)@.step_x0(y, z)),
            keeps_timer_sums(old(cpu)@, final(cpu)@),
            r.1 <= 24,
    {
        let p: u8 = y / 2;
        let q: u8 = y % 2;
        if z == 0 {
            if y == 0 { nop(cpu) }
            else if y == 1 { ld_nn_sp(cpu) }
            else if y == 2 { stop(cpu) }
            else if y == 3 { jr_n(cpu) }
            else { jr_cc_n(cpu, cond_flag_exec(y - 4), cond_value_exec(y - 4)) }
        } else if z == 1 {
            if q == 0 {
                if p == 3 { ld_n_nn_sp(cpu) } else { ld_n_nn(cpu, pair_code_exec(p)) }
            } else {
                if p == 3 { add_hl_n_sp(cpu) } else { add_hl_n(cpu, pair_code_exec(p)) }
            }
        } else if z == 2 {
            if q == 0 {
                if p < 2 { ld_vr_a(cpu, pair_code_exec(p)) }
                else if p == 2 { ld_hli_a(cpu) }
                else { ld_hld_a(cpu) }
            } else {
                if p < 2 { ld_a_vr(cpu, pair_code_exec(p)) }
                else if p == 2 { ld_a_hli(cpu) }
                else { ld_a_hld(cpu) }
            }
        } else if z == 3 {
            if q == 0 {
                if p == 3 { inc_nn_sp(cpu) } else { inc_nn(cpu, pair_code_exec(p)) }
            } else {
                if p == 3 { dec_nn_sp(cpu) } else { dec_nn(cpu, pair_code_exec(p)) }
            }
        } else if z == 4 {
            if y == 6 { inc_n_hl(cpu) } else { inc_n(cpu, reg_code_exec(y)) }
        } else if z == 5 {
            if y == 6 { dec_n_hl(cpu) } else { dec_n(cpu, reg_code_exec(y)) }
        } else if z == 6 {
            if y == 6 { ld_hl_n(cpu) }
            else if y == 7 { ld_a_n(cpu) }
            else { ld_nn_n(cpu, reg_code_exec(y)) }
        } else {
            if y == 0 { rlca(cpu) }
            else if y == 1 { rrca(cpu) }
            else if y == 2 { rla(cpu) }
            else if y == 3 { rra(cpu) }
            else if y == 4 { daa(cpu) }
            else if y == 5 { cpl(cpu) }
            else if y == 6 { scf(cpu) }
            else { ccf(cpu) }
        }
    }

    /// Execute an instruction of the block 0x40..=0x7F (8-bit register loads and HALT).
    #[verifier::rlimit(40)]
    fn exec_x1(cpu: &mut Cpu, y: u8, z: u8) -> (r: (u16, u32, String))
        requires
            old(cpu)@.normalized().ok_step_x1(y, z),
            y < 8,
            z < 8,
        ensures
            performs(final(cpu)@, r, old(cpu)@.step_x1(y, z)),
            keeps_timer_sums(old(cpu)@, final(cpu)@),
            r.1 <= 24,
    {
        if y == 6 && z == 6 { halt(cpu) }
        else if z == 6 { ld_r1_hl(cpu, reg_code_exec(y)) }
        else if y == 6 {
            if z == 7 { ld_vr_a(cpu, VirtTarget::HL) } else { ld_hl_r2(cpu, reg_code_exec(z)) }
        } else if z == 7 && y != 7 { ld_r_a(cpu, reg_code_exec(y)) }
        else { ld_r1_r2(cpu, reg_code_exec(y), reg_code_exec(z)) }
    }

    /// Execute an instruction of the block 0xC0..=0xFF (stack, jumps, calls, returns,
    /// high-page loads, immediate arithmetic and the CB prefix).
    #[verifier::rlimit(40)]
    fn exec_x3(cpu: &mut Cpu, y: u8, z: u8) -> (r: (u16, u32, String))
        requires
            old(cpu)@.normalized().ok_step_x3(y, z),
            y < 8,
            z < 8,
        ensures
            performs(final(cpu)@, r, old(cpu)@.step_x3(y, z)),
            keeps_timer_sums(old(cpu)@, final(cpu)@),
            r.1 <= 24,
    {
        if z < 4 {
            exec_x3_lo(cpu, y, z)
        } else {
            exec_x3_hi(cpu, y, z)
        }
    }

    /// Execute an instruction of the block 0xC0..=0xFF with z in 0..=3.
    #[verifier::rlimit(40)]
    fn exec_x3_lo(cpu: &mut Cpu, y: u8, z: u8) -> (r: (u16, u32, String))
        requires
            old(cpu)@.normalized().ok_step_x3_lo(y, z),
            y < 8,
            z < 8,
        ensures
            performs(final(cpu)@, r, old(cpu)@.step_x3_lo(y, z)),
            keeps_timer_sums(old(cpu)@, final(cpu)@),
            r.1 <= 24,
    {
        let p: u8 = y / 2;
        let q: u8 = y % 2;
        if z == 0 {
            if y < 4 { ret_cc(cpu, cond_flag_exec(y), cond_value_exec(y)) }
            else if y == 4 { ldh_n_a(cpu) }
            else if y == 5 { add_sp_n(cpu) }
            else if y == 6 { ldh_a_n(cpu) }
            else { ld_hl_sp_n(cpu) }
        } else if z == 1 {
            if q == 0 { pop_nn(cpu, stack_pair_code_exec(p)) }
            else if p == 0 { ret(cpu) }
            else if p == 1 { reti(cpu) }
            else if p == 2 { jp_hl(cpu) }
            else { ld_sp_hl(cpu) }
        } else if z == 2 {
            if y < 4 { jp_cc_nn(cpu, cond_flag_exec(y), cond_value_exec(y)) }
            else if y == 4 { ld_c_a(cpu) }
            else if y == 5 { ld_nn_a(cpu) }
            else if y == 6 { ld_a_c(cpu) }
            else { ld_a_nn(cpu) }
        } else {
            if y == 0 { jp_nn(cpu) }
            else if y == 1 { {
                    let ext = cpu.mmu.read_byte(cpu.pc + 1);
                    exec_cb(cpu, ext)
                } }
            else if y == 6 { di(cpu) }
            else { ei(cpu) }
        }
    }

    /// Execute an instruction of the block 0xC0..=0xFF with z in 4..=7.
    #[verifier::rlimit(40)]
    fn exec_x3_hi(cpu: &mut Cpu, y: u8, z: u8) -> (r: (u16, u32, String))
        requires
            old(cpu)@.normalized().ok_step_x3_hi(y, z),
            y < 8,
            z < 8,
        ensures
            performs(final(cpu)@, r, old(cpu)@.step_x3_hi(y, z)),
            keeps_timer_sums(old(cpu)@, final(cpu)@),
            r.1 <= 24,
    {
        let p: u8 = y / 2;
        let q: u8 = y % 2;
        if z == 4 {
            call_cc_nn(cpu, cond_flag_exec(y), cond_value_exec(y))
        } else if z == 5 {
            if q == 0 { push_nn(cpu, stack_pair_code_exec(p)) } else { call_nn(cpu) }
        } else if z == 6 {
            exec_alu_imm(cpu, y)
        } else {
            rst_n(cpu, y * 8)
        }
    }

    /// Execute the instruction with opcode `opcode` at the program counter. Bits 7-6 of
    /// the opcode (x) pick the block, bits 5-3 (y, split into p = y / 2 and q = y % 2) and bits
    /// 2-0 (z) the instruction and its operands.
    fn dispatch(cpu: &mut Cpu, opcode: u8) -> (r: (u16, u32, String))
        requires
            old(cpu)@.step_ok(opcode),
        ensures
            performs(final(cpu)@, r, old(cpu)@.step(opcode)),
            keeps_timer_sums(old(cpu)@, final(cpu)@),
            r.1 <= 24,
    {
        reveal(CpuView::step);
        let x: u8 = opcode / 64;
        let y: u8 = (opcode / 8) % 8;
        let z: u8 = opcode % 8;
        if x == 0 {
            exec_x0(cpu, y, z)
        } else if x == 1 {
            exec_x1(cpu, y, z)
        } else if x == 2 {
            exec_alu(cpu, y, z)
        } else {
            exec_x3(cpu, y, z)
        }
    }

// ----------------------------------------------------
// Checking what an instruction needs
// ----------------------------------------------------

/// The 16-bit operand after the opcode.
fn next_word_exec(cpu: &Cpu) -> (r: u16)
    requires
        cpu.pc < 0xFFFE,
        cpu@.mmu.reads_ok((cpu.pc + 1) as u16),
        cpu@.mmu.reads_ok((cpu.pc + 2) as u16),
    ensures
        r == cpu@.next_word(),
{
    let lo = cpu.mmu.read_byte(cpu.pc + 1);
    let hi = cpu.mmu.read_byte(cpu.pc + 2);
    assert((lo as u16) | ((hi as u16) << 8) == lo + hi * 256) by (bit_vector);
    (lo as u16) | ((hi as u16) << 8)
}

/// The byte after the opcode.
fn next_byte_exec(cpu: &Cpu) -> (r: u8)
    requires
        cpu.pc < 0xFFFF,
        cpu@.mmu.reads_ok((cpu.pc + 1) as u16),
    ensures
        r == cpu@.next_byte(),
{
    cpu.mmu.read_byte(cpu.pc + 1)
}

/// Check [CpuView::push_ok].
fn push_ok_exec(cpu: &Cpu) -> (r: bool)
    ensures
        r == cpu@.push_ok(),
{
    cpu.sp != 1 && cpu.mmu.can_write_word_any(cpu.sp.wrapping_sub(2))
}

/// Check [CpuView::pop_ok].
fn pop_ok_exec(cpu: &Cpu) -> (r: bool)
    ensures
        r == cpu@.pop_ok(),
{
    cpu.sp != 0xFFFF && cpu.mmu.can_read(cpu.sp) && cpu.mmu.can_read(cpu.sp + 1)
}

/// Check [CpuView::call_reads_ok].
fn call_reads_ok_exec(cpu: &Cpu) -> (r: bool)
    requires
        cpu.pc < 0xFFFD,
        cpu.sp != 1,
    ensures
        r == cpu@.call_reads_ok(),
{
    let sp = cpu.sp.wrapping_sub(2);
    cpu.mmu.can_read(cpu.pc + 1) && cpu.mmu.can_read(cpu.pc + 2) && ((is_plain_exec(sp)
        && is_plain_exec(sp + 1)) || (cpu.mmu.is_mem_safe() && (sp >= 0x8000 || !(0x9FFE
        <= cpu.pc && cpu.pc <= 0xBFFE))))
}

/// True iff `opcode` is one of the opcodes that the CPU does not have.
fn is_illegal_exec(opcode: u8) -> (r: bool)
    ensures
        r == CpuView::is_illegal(opcode),
{
    opcode == 0xD3 || opcode == 0xDB || opcode == 0xDD || opcode == 0xE3 || opcode == 0xE4
        || opcode == 0xEB || opcode == 0xEC || opcode == 0xED || opcode == 0xF4 || opcode == 0xFC
        || opcode == 0xFD
}

impl Cpu {
    /// Check whether the instruction `opcode` can run at the program counter without failing
    /// (see [CpuView::step_ok]).
    pub fn can_step(&self, opcode: u8) -> (r: bool)
        ensures
            r == self@.step_ok(opcode),
    {
        if is_illegal_exec(opcode) {
            return false;
        }
        if opcode == 0x10 && (self.pc == 0xFFFF || !self.mmu.can_read(self.pc + 1)
            || self.mmu.read_byte(self.pc + 1) != 0x00) {
            return false;
        }
        if opcode == 0xCB && (self.pc == 0xFFFF || !self.mmu.can_read(self.pc + 1)) {
            return false;
        }
        check_decoded(self, opcode)
    }
}

/// Check what [CpuView::ld_nn_n] needs.
fn check_ld_nn_n(cpu: &Cpu, target: Target) -> (r: bool)
    ensures
        r == cpu@.normalized().ok_ld_nn_n(target),
{
    (cpu.pc as u32 + 2 <= 0xFFFF)
        && (cpu.mmu.can_read(cpu.pc + 1))
}

/// Check what [CpuView::ld_r1_r2] needs.
fn check_ld_r1_r2(cpu: &Cpu, r1: Target, r2: Target) -> (r: bool)
    ensures
        r == cpu@.normalized().ok_ld_r1_r2(r1, r2),
{
    (cpu.pc as u32 + 1 <= 0xFFFF)
}

/// Check what [CpuView::ld_r1_hl] needs.
fn check_ld_r1_hl(cpu: &Cpu, r1: Target) -> (r: bool)
    ensures
        r == cpu@.normalized().ok_ld_r1_hl(r1),
{
    (cpu.pc as u32 + 1 <= 0xFFFF)
        && (cpu.mmu.can_read(cpu.regs.get_virt_reg(VirtTarget::HL)))
}

/// Check what [CpuView::ld_hl_r2] needs.
fn check_ld_hl_r2(cpu: &Cpu, r2: Target) -> (r: bool)
    ensures
        r == cpu@.normalized().ok_ld_hl_r2(r2),
{
    (cpu.pc as u32 + 1 <= 0xFFFF)
        && (cpu.mmu.can_write_any(cpu.regs.get_virt_reg(VirtTarget::HL)))
}

/// Check what [CpuView::ld_hl_n] needs.
fn check_ld_hl_n(cpu: &Cpu) -> (r: bool)
    ensures
        r == cpu@.normalized().ok_ld_hl_n(),
{
    (cpu.pc as u32 + 2 <= 0xFFFF)
        && (cpu.mmu.can_read(cpu.pc + 1))
        && (cpu.mmu.can_write_any(cpu.regs.get_virt_reg(VirtTarget::HL)))
}

/// Check what [CpuView::ld_a_vr] needs.
fn check_ld_a_vr(cpu: &Cpu, target: VirtTarget) -> (r: bool)
    ensures
        r == cpu@.normalized().ok_ld_a_vr(target),
{
    (cpu.pc as u32 + 1 <= 0xFFFF)
        && (cpu.mmu.can_read(cpu.regs.get_virt_reg(target)))
}

/// Check what [CpuView::ld_a_nn] needs.
fn check_ld_a_nn(cpu: &Cpu) -> (r: bool)
    ensures
        r == cpu@.normalized().ok_ld_a_nn(),
{
    (cpu.pc as u32 + 3 <= 0xFFFF)
        && (cpu.mmu.can_read(cpu.pc + 1))
        && (cpu.mmu.can_read(cpu.pc + 2))
        && (cpu.mmu.can_read(next_word_exec(cpu)))
}

/// Check what [CpuView::ld_a_n] needs.
fn check_ld_a_n(cpu: &Cpu) -> (r: bool)
    ensures
        r == cpu@.normalized().ok_ld_a_n(),
{
    (cpu.pc as u32 + 2 <= 0xFFFF)
        && (cpu.mmu.can_read(cpu.pc + 1))
}

/// Check what [CpuView::ld_r_a] needs.
fn check_ld_r_a(cpu: &Cpu, target: Target) -> (r: bool)
    ensures
        r == cpu@.normalized().ok_ld_r_a(target),
{
    (cpu.pc as u32 + 1 <= 0xFFFF)
}

/// Check what [CpuView::ld_vr_a] needs.
fn check_ld_vr_a(cpu: &Cpu, target: VirtTarget) -> (r: bool)
    ensures
        r == cpu@.normalized().ok_ld_vr_a(target),
{
    (cpu.pc as u32 + 1 <= 0xFFFF)
        && (cpu.mmu.can_write_any(cpu.regs.get_virt_reg(target)))
}

/// Check what [CpuView::ld_nn_a] needs.
fn check_ld_nn_a(cpu: &Cpu) -> (r: bool)
    ensures
        r == cpu@.normalized().ok_ld_nn_a(),
{
    (cpu.pc as u32 + 3 <= 0xFFFF)
        && (cpu.mmu.can_read(cpu.pc + 1))
        && (cpu.mmu.can_read(cpu.pc + 2))
        && (cpu.mmu.can_write_any(next_word_exec(cpu)))
}

/// Check what [CpuView::ld_a_c] needs.
fn check_ld_a_c(cpu: &Cpu) -> (r: bool)
    ensures
        r == cpu@.normalized().ok_ld_a_c(),
{
    (cpu.pc as u32 + 1 <= 0xFFFF)
        && (cpu.mmu.can_read(0xFF00u16 + (cpu.regs.c as u16)))
}

/// Check what [CpuView::ld_c_a] needs.
fn check_ld_c_a(cpu: &Cpu) -> (r: bool)
    ensures
        r == cpu@.normalized().ok_ld_c_a(),
{
    (cpu.pc as u32 + 1 <= 0xFFFF)
        && (cpu.mmu.can_write_any(0xFF00u16 + (cpu.regs.c as u16)))
}

/// Check what [CpuView::ld_a_hld] needs.
fn check_ld_a_hld(cpu: &Cpu) -> (r: bool)
    ensures
        r == cpu@.normalized().ok_ld_a_hld(),
{
    (cpu.pc as u32 + 1 <= 0xFFFF)
        && (cpu.regs.get_virt_reg(VirtTarget::HL) != 0)
        && (cpu.mmu.can_read(cpu.regs.get_virt_reg(VirtTarget::HL)))
}

/// Check what [CpuView::ld_hld_a] needs.
fn check_ld_hld_a(cpu: &Cpu) -> (r: bool)
    ensures
        r == cpu@.normalized().ok_ld_hld_a(),
{
    (cpu.pc as u32 + 1 <= 0xFFFF)
        && (cpu.regs.get_virt_reg(VirtTarget::HL) != 0)
        && (cpu.mmu.can_write_any(cpu.regs.get_virt_reg(VirtTarget::HL)))
}

/// Check what [CpuView::ld_a_hli] needs.
fn check_ld_a_hli(cpu: &Cpu) -> (r: bool)
    ensures
        r == cpu@.normalized().ok_ld_a_hli(),
{
    (cpu.pc as u32 + 1 <= 0xFFFF)
        && (cpu.regs.get_virt_reg(VirtTarget::HL) != 0xFFFF)
        && (cpu.mmu.can_read(cpu.regs.get_virt_reg(VirtTarget::HL)))
}

/// Check what [CpuView::ld_hli_a] needs.
fn check_ld_hli_a(cpu: &Cpu) -> (r: bool)
    ensures
        r == cpu@.normalized().ok_ld_hli_a(),
{
    (cpu.pc as u32 + 1 <= 0xFFFF)
        && (cpu.regs.get_virt_reg(VirtTarget::HL) != 0xFFFF)
        && (cpu.mmu.can_write_any(cpu.regs.get_virt_reg(VirtTarget::HL)))
}

/// Check what [CpuView::ldh_n_a] needs.
fn check_ldh_n_a(cpu: &Cpu) -> (r: bool)
    ensures
        r == cpu@.normalized().ok_ldh_n_a(),
{
    (cpu.pc as u32 + 2 <= 0xFFFF)
        && (cpu.mmu.can_read(cpu.pc + 1))
        && (cpu.mmu.can_write_any(0xFF00u16 + (next_byte_exec(cpu) as u16)))
}

/// Check what [CpuView::ldh_a_n] needs.
fn check_ldh_a_n(cpu: &Cpu) -> (r: bool)
    ensures
        r == cpu@.normalized().ok_ldh_a_n(),
{
    (cpu.pc as u32 + 2 <= 0xFFFF)
        && (cpu.mmu.can_read(cpu.pc + 1))
        && (cpu.mmu.can_read(0xFF00u16 + (next_byte_exec(cpu) as u16)))
}

/// Check what [CpuView::ld_n_nn] needs.
fn check_ld_n_nn(cpu: &Cpu, target: VirtTarget) -> (r: bool)
    ensures
        r == cpu@.normalized().ok_ld_n_nn(target),
{
    (cpu.pc as u32 + 3 <= 0xFFFF)
        && (cpu.mmu.can_read(cpu.pc + 1))
        && (cpu.mmu.can_read(cpu.pc + 2))
}

/// Check what [CpuView::ld_n_nn_sp] needs.
fn check_ld_n_nn_sp(cpu: &Cpu) -> (r: bool)
    ensures
        r == cpu@.normalized().ok_ld_n_nn_sp(),
{
    (cpu.pc as u32 + 3 <= 0xFFFF)
        && (cpu.mmu.can_read(cpu.pc + 1))
        && (cpu.mmu.can_read(cpu.pc + 2))
}

/// Check what [CpuView::ld_sp_hl] needs.
fn check_ld_sp_hl(cpu: &Cpu) -> (r: bool)
    ensures
        r == cpu@.normalized().ok_ld_sp_hl(),
{
    (cpu.pc as u32 + 1 <= 0xFFFF)
}

/// Check what [CpuView::ld_hl_sp_n] needs.
fn check_ld_hl_sp_n(cpu: &Cpu) -> (r: bool)
    ensures
        r == cpu@.normalized().ok_ld_hl_sp_n(),
{
    (cpu.pc as u32 + 2 <= 0xFFFF)
        && (cpu.mmu.can_read(cpu.pc + 1))
}

/// Check what [CpuView::ld_nn_sp] needs.
fn check_ld_nn_sp(cpu: &Cpu) -> (r: bool)
    ensures
        r == cpu@.normalized().ok_ld_nn_sp(),
{
    (cpu.pc as u32 + 3 <= 0xFFFF)
        && (cpu.mmu.can_read(cpu.pc + 1))
        && (cpu.mmu.can_read(cpu.pc + 2))
        && (next_word_exec(cpu) != 0xFFFF)
        && (cpu.mmu.can_write_word_any(next_word_exec(cpu)))
}

/// Check what [CpuView::push_nn] needs.
fn check_push_nn(cpu: &Cpu, target: VirtTarget) -> (r: bool)
    ensures
        r == cpu@.normalized().ok_push_nn(target),
{
    (cpu.pc as u32 + 1 <= 0xFFFF)
        && (push_ok_exec(cpu))
}

/// Check what [CpuView::pop_nn] needs.
fn check_pop_nn(cpu: &Cpu, target: VirtTarget) -> (r: bool)
    ensures
        r == cpu@.normalized().ok_pop_nn(target),
{
    (cpu.pc as u32 + 1 <= 0xFFFF)
        && (pop_ok_exec(cpu))
}

/// Check what [CpuView::add_a_n] needs.
fn check_add_a_n(cpu: &Cpu, target: Target) -> (r: bool)
    ensures
        r == cpu@.normalized().ok_add_a_n(target),
{
    (cpu.pc as u32 + 1 <= 0xFFFF)
}

/// Check what [CpuView::add_a_n_hl] needs.
fn check_add_a_n_hl(cpu: &Cpu) -> (r: bool)
    ensures
        r == cpu@.normalized().ok_add_a_n_hl(),
{
    (cpu.pc as u32 + 1 <= 0xFFFF)
        && (cpu.mmu.can_read(cpu.regs.get_virt_reg(VirtTarget::HL)))
}

/// Check what [CpuView::add_a_n_n] needs.
fn check_add_a_n_n(cpu: &Cpu) -> (r: bool)
    ensures
        r == cpu@.normalized().ok_add_a_n_n(),
{
    (cpu.pc as u32 + 2 <= 0xFFFF)
        && (cpu.mmu.can_read(cpu.pc + 1))
}

/// Check what [CpuView::adc_a_n] needs.
fn check_adc_a_n(cpu: &Cpu, target: Target) -> (r: bool)
    ensures
        r == cpu@.normalized().ok_adc_a_n(target),
{
    (cpu.pc as u32 + 1 <= 0xFFFF)
}

/// Check what [CpuView::adc_a_n_hl] needs.
fn check_adc_a_n_hl(cpu: &Cpu) -> (r: bool)
    ensures
        r == cpu@.normalized().ok_adc_a_n_hl(),
{
    (cpu.pc as u32 + 1 <= 0xFFFF)
        && (cpu.mmu.can_read(cpu.regs.get_virt_reg(VirtTarget::HL)))
}

/// Check what [CpuView::adc_a_n_n] needs.
fn check_adc_a_n_n(cpu: &Cpu) -> (r: bool)
    ensures
        r == cpu@.normalized().ok_adc_a_n_n(),
{
    (cpu.pc as u32 + 2 <= 0xFFFF)
        && (cpu.mmu.can_read(cpu.pc + 1))
}

/// Check what [CpuView::sub_n] needs.
fn check_sub_n(cpu: &Cpu, target: Target) -> (r: bool)
    ensures
        r == cpu@.normalized().ok_sub_n(target),
{
    (cpu.pc as u32 + 1 <= 0xFFFF)
}

/// Check what [CpuView::sub_n_hl] needs.
fn check_sub_n_hl(cpu: &Cpu) -> (r: bool)
    ensures
        r == cpu@.normalized().ok_sub_n_hl(),
{
    (cpu.pc as u32 + 1 <= 0xFFFF)
        && (cpu.mmu.can_read(cpu.regs.get_virt_reg(VirtTarget::HL)))
}

/// Check what [CpuView::sub_n_n] needs.
fn check_sub_n_n(cpu: &Cpu) -> (r: bool)
    ensures
        r == cpu@.normalized().ok_sub_n_n(),
{
    (cpu.pc as u32 + 2 <= 0xFFFF)
        && (cpu.mmu.can_read(cpu.pc + 1))
}

/// Check what [CpuView::sbc_n] needs.
fn check_sbc_n(cpu: &Cpu, target: Target) -> (r: bool)
    ensures
        r == cpu@.normalized().ok_sbc_n(target),
{
    (cpu.pc as u32 + 1 <= 0xFFFF)
}

/// Check what [CpuView::sbc_n_hl] needs.
fn check_sbc_n_hl(cpu: &Cpu) -> (r: bool)
    ensures
        r == cpu@.normalized().ok_sbc_n_hl(),
{
    (cpu.pc as u32 + 1 <= 0xFFFF)
        && (cpu.mmu.can_read(cpu.regs.get_virt_reg(VirtTarget::HL)))
}

/// Check what [CpuView::sbc_n_n] needs.
fn check_sbc_n_n(cpu: &Cpu) -> (r: bool)
    ensures
        r == cpu@.normalized().ok_sbc_n_n(),
{
    (cpu.pc as u32 + 2 <= 0xFFFF)
        && (cpu.mmu.can_read(cpu.pc + 1))
}

/// Check what [CpuView::and_n] needs.
fn check_and_n(cpu: &Cpu, target: Target) -> (r: bool)
    ensures
        r == cpu@.normalized().ok_and_n(target),
{
    (cpu.pc as u32 + 1 <= 0xFFFF)
}

/// Check what [CpuView::and_n_hl] needs.
fn check_and_n_hl(cpu: &Cpu) -> (r: bool)
    ensures
        r == cpu@.normalized().ok_and_n_hl(),
{
    (cpu.pc as u32 + 1 <= 0xFFFF)
        && (cpu.mmu.can_read(cpu.regs.get_virt_reg(VirtTarget::HL)))
}

/// Check what [CpuView::and_n_n] needs.
fn check_and_n_n(cpu: &Cpu) -> (r: bool)
    ensures
        r == cpu@.normalized().ok_and_n_n(),
{
    (cpu.pc as u32 + 2 <= 0xFFFF)
        && (cpu.mmu.can_read(cpu.pc + 1))
}

/// Check what [CpuView::or_n] needs.
fn check_or_n(cpu: &Cpu, target: Target) -> (r: bool)
    ensures
        r == cpu@.normalized().ok_or_n(target),
{
    (cpu.pc as u32 + 1 <= 0xFFFF)
}

/// Check what [CpuView::or_n_hl] needs.
fn check_or_n_hl(cpu: &Cpu) -> (r: bool)
    ensures
        r == cpu@.normalized().ok_or_n_hl(),
{
    (cpu.pc as u32 + 1 <= 0xFFFF)
        && (cpu.mmu.can_read(cpu.regs.get_virt_reg(VirtTarget::HL)))
}

/// Check what [CpuView::or_n_n] needs.
fn check_or_n_n(cpu: &Cpu) -> (r: bool)
    ensures
        r == cpu@.normalized().ok_or_n_n(),
{
    (cpu.pc as u32 + 2 <= 0xFFFF)
        && (cpu.mmu.can_read(cpu.pc + 1))
}

/// Check what [CpuView::xor_n] needs.
fn check_xor_n(cpu: &Cpu, target: Target) -> (r: bool)
    ensures
        r == cpu@.normalized().ok_xor_n(target),
{
    (cpu.pc as u32 + 1 <= 0xFFFF)
}

/// Check what [CpuView::xor_n_hl] needs.
fn check_xor_n_hl(cpu: &Cpu) -> (r: bool)
    ensures
        r == cpu@.normalized().ok_xor_n_hl(),
{
    (cpu.pc as u32 + 1 <= 0xFFFF)
        && (cpu.mmu.can_read(cpu.regs.get_virt_reg(VirtTarget::HL)))
}

/// Check what [CpuView::xor_n_n] needs.
fn check_xor_n_n(cpu: &Cpu) -> (r: bool)
    ensures
        r == cpu@.normalized().ok_xor_n_n(),
{
    (cpu.pc as u32 + 2 <= 0xFFFF)
        && (cpu.mmu.can_read(cpu.pc + 1))
}

/// Check what [CpuView::cp_n] needs.
fn check_cp_n(cpu: &Cpu, target: Target) -> (r: bool)
    ensures
        r == cpu@.normalized().ok_cp_n(target),
{
    (cpu.pc as u32 + 1 <= 0xFFFF)
}

/// Check what [CpuView::cp_n_hl] needs.
fn check_cp_n_hl(cpu: &Cpu) -> (r: bool)
    ensures
        r == cpu@.normalized().ok_cp_n_hl(),
{
    (cpu.pc as u32 + 1 <= 0xFFFF)
        && (cpu.mmu.can_read(cpu.regs.get_virt_reg(VirtTarget::HL)))
}

/// Check what [CpuView::cp_n_n] needs.
fn check_cp_n_n(cpu: &Cpu) -> (r: bool)
    ensures
        r == cpu@.normalized().ok_cp_n_n(),
{
    (cpu.pc as u32 + 2 <= 0xFFFF)
        && (cpu.mmu.can_read(cpu.pc + 1))
}

/// Check what [CpuView::inc_n] needs.
fn check_inc_n(cpu: &Cpu, target: Target) -> (r: bool)
    ensures
        r == cpu@.normalized().ok_inc_n(target),
{
    (cpu.pc as u32 + 1 <= 0xFFFF)
}

/// Check what [CpuView::inc_n_hl] needs.
fn check_inc_n_hl(cpu: &Cpu) -> (r: bool)
    ensures
        r == cpu@.normalized().ok_inc_n_hl(),
{
    (cpu.pc as u32 + 1 <= 0xFFFF)
        && (cpu.mmu.can_read(cpu.regs.get_virt_reg(VirtTarget::HL)))
        && (cpu.mmu.can_write_any(cpu.regs.get_virt_reg(VirtTarget::HL)))
}

/// Check what [CpuView::dec_n] needs.
fn check_dec_n(cpu: &Cpu, target: Target) -> (r: bool)
    ensures
        r == cpu@.normalized().ok_dec_n(target),
{
    (cpu.pc as u32 + 1 <= 0xFFFF)
}

/// Check what [CpuView::dec_n_hl] needs.
fn check_dec_n_hl(cpu: &Cpu) -> (r: bool)
    ensures
        r == cpu@.normalized().ok_dec_n_hl(),
{
    (cpu.pc as u32 + 1 <= 0xFFFF)
        && (cpu.mmu.can_read(cpu.regs.get_virt_reg(VirtTarget::HL)))
        && (cpu.mmu.can_write_any(cpu.regs.get_virt_reg(VirtTarget::HL)))
}

/// Check what [CpuView::add_hl_n] needs.
fn check_add_hl_n(cpu: &Cpu, target: VirtTarget) -> (r: bool)
    ensures
        r == cpu@.normalized().ok_add_hl_n(target),
{
    (cpu.pc as u32 + 1 <= 0xFFFF)
}

/// Check what [CpuView::add_hl_n_sp] needs.
fn check_add_hl_n_sp(cpu: &Cpu) -> (r: bool)
    ensures
        r == cpu@.normalized().ok_add_hl_n_sp(),
{
    (cpu.pc as u32 + 1 <= 0xFFFF)
}

/// Check what [CpuView::add_sp_n] needs.
fn check_add_sp_n(cpu: &Cpu) -> (r: bool)
    ensures
        r == cpu@.normalized().ok_add_sp_n(),
{
    (cpu.pc as u32 + 2 <= 0xFFFF)
        && (cpu.mmu.can_read(cpu.pc + 1))
}

/// Check what [CpuView::inc_nn] needs.
fn check_inc_nn(cpu: &Cpu, target: VirtTarget) -> (r: bool)
    ensures
        r == cpu@.normalized().ok_inc_nn(target),
{
    (cpu.pc as u32 + 1 <= 0xFFFF)
}

/// Check what [CpuView::inc_nn_sp] needs.
fn check_inc_nn_sp(cpu: &Cpu) -> (r: bool)
    ensures
        r == cpu@.normalized().ok_inc_nn_sp(),
{
    (cpu.pc as u32 + 1 <= 0xFFFF)
}

/// Check what [CpuView::dec_nn] needs.
fn check_dec_nn(cpu: &Cpu, target: VirtTarget) -> (r: bool)
    ensures
        r == cpu@.normalized().ok_dec_nn(target),
{
    (cpu.pc as u32 + 1 <= 0xFFFF)
}

/// Check what [CpuView::dec_nn_sp] needs.
fn check_dec_nn_sp(cpu: &Cpu) -> (r: bool)
    ensures
        r == cpu@.normalized().ok_dec_nn_sp(),
{
    (cpu.pc as u32 + 1 <= 0xFFFF)
}

/// Check what [CpuView::swap_n] needs.
fn check_swap_n(cpu: &Cpu, target: Target) -> (r: bool)
    ensures
        r == cpu@.normalized().ok_swap_n(target),
{
    (cpu.pc as u32 + 2 <= 0xFFFF)
}

/// Check what [CpuView::swap_n_hl] needs.
fn check_swap_n_hl(cpu: &Cpu) -> (r: bool)
    ensures
        r == cpu@.normalized().ok_swap_n_hl(),
{
    (cpu.pc as u32 + 2 <= 0xFFFF)
        && (cpu.mmu.can_read(cpu.regs.get_virt_reg(VirtTarget::HL)))
        && (cpu.mmu.can_write_any(cpu.regs.get_virt_reg(VirtTarget::HL)))
}

/// Check what [CpuView::rlc_n] needs.
fn check_rlc_n(cpu: &Cpu, target: Target) -> (r: bool)
    ensures
        r == cpu@.normalized().ok_rlc_n(target),
{
    (cpu.pc as u32 + 2 <= 0xFFFF)
}

/// Check what [CpuView::rlc_n_hl] needs.
fn check_rlc_n_hl(cpu: &Cpu) -> (r: bool)
    ensures
        r == cpu@.normalized().ok_rlc_n_hl(),
{
    (cpu.pc as u32 + 2 <= 0xFFFF)
        && (cpu.mmu.can_read(cpu.regs.get_virt_reg(VirtTarget::HL)))
        && (cpu.mmu.can_write_any(cpu.regs.get_virt_reg(VirtTarget::HL)))
}

/// Check what [CpuView::rl_n] needs.
fn check_rl_n(cpu: &Cpu, target: Target) -> (r: bool)
    ensures
        r == cpu@.normalized().ok_rl_n(target),
{
    (cpu.pc as u32 + 2 <= 0xFFFF)
}

/// Check what [CpuView::rl_n_hl] needs.
fn check_rl_n_hl(cpu: &Cpu) -> (r: bool)
    ensures
        r == cpu@.normalized().ok_rl_n_hl(),
{
    (cpu.pc as u32 + 2 <= 0xFFFF)
        && (cpu.mmu.can_read(cpu.regs.get_virt_reg(VirtTarget::HL)))
        && (cpu.mmu.can_write_any(cpu.regs.get_virt_reg(VirtTarget::HL)))
}

/// Check what [CpuView::rrc_n] needs.
fn check_rrc_n(cpu: &Cpu, target: Target) -> (r: bool)
    ensures
        r == cpu@.normalized().ok_rrc_n(target),
{
    (cpu.pc as u32 + 2 <= 0xFFFF)
}

/// Check what [CpuView::rrc_n_hl] needs.
fn check_rrc_n_hl(cpu: &Cpu) -> (r: bool)
    ensures
        r == cpu@.normalized().ok_rrc_n_hl(),
{
    (cpu.pc as u32 + 2 <= 0xFFFF)
        && (cpu.mmu.can_read(cpu.regs.get_virt_reg(VirtTarget::HL)))
        && (cpu.mmu.can_write_any(cpu.regs.get_virt_reg(VirtTarget::HL)))
}

/// Check what [CpuView::rr_n] needs.
fn check_rr_n(cpu: &Cpu, target: Target) -> (r: bool)
    ensures
        r == cpu@.normalized().ok_rr_n(target),
{
    (cpu.pc as u32 + 2 <= 0xFFFF)
}

/// Check what [CpuView::rr_n_hl] needs.
fn check_rr_n_hl(cpu: &Cpu) -> (r: bool)
    ensures
        r == cpu@.normalized().ok_rr_n_hl(),
{
    (cpu.pc as u32 + 2 <= 0xFFFF)
        && (cpu.mmu.can_read(cpu.regs.get_virt_reg(VirtTarget::HL)))
        && (cpu.mmu.can_write_any(cpu.regs.get_virt_reg(VirtTarget::HL)))
}

/// Check what [CpuView::sla_n] needs.
fn check_sla_n(cpu: &Cpu, target: Target) -> (r: bool)
    ensures
        r == cpu@.normalized().ok_sla_n(target),
{
    (cpu.pc as u32 + 2 <= 0xFFFF)
}

/// Check what [CpuView::sla_n_hl] needs.
fn check_sla_n_hl(cpu: &Cpu) -> (r: bool)
    ensures
        r == cpu@.normalized().ok_sla_n_hl(),
{
    (cpu.pc as u32 + 2 <= 0xFFFF)
        && (cpu.mmu.can_read(cpu.regs.get_virt_reg(VirtTarget::HL)))
        && (cpu.mmu.can_write_any(cpu.regs.get_virt_reg(VirtTarget::HL)))
}

/// Check what [CpuView::sra_n] needs.
fn check_sra_n(cpu: &Cpu, target: Target) -> (r: bool)
    ensures
        r == cpu@.normalized().ok_sra_n(target),
{
    (cpu.pc as u32 + 2 <= 0xFFFF)
}

/// Check what [CpuView::sra_n_hl] needs.
fn check_sra_n_hl(cpu: &Cpu) -> (r: bool)
    ensures
        r == cpu@.normalized().ok_sra_n_hl(),
{
    (cpu.pc as u32 + 2 <= 0xFFFF)
        && (cpu.mmu.can_read(cpu.regs.get_virt_reg(VirtTarget::HL)))
        && (cpu.mmu.can_write_any(cpu.regs.get_virt_reg(VirtTarget::HL)))
}

/// Check what [CpuView::srl_n] needs.
fn check_srl_n(cpu: &Cpu, target: Target) -> (r: bool)
    ensures
        r == cpu@.normalized().ok_srl_n(target),
{
    (cpu.pc as u32 + 2 <= 0xFFFF)
}

/// Check what [CpuView::srl_n_hl] needs.
fn check_srl_n_hl(cpu: &Cpu) -> (r: bool)
    ensures
        r == cpu@.normalized().ok_srl_n_hl(),
{
    (cpu.pc as u32 + 2 <= 0xFFFF)
        && (cpu.mmu.can_read(cpu.regs.get_virt_reg(VirtTarget::HL)))
        && (cpu.mmu.can_write_any(cpu.regs.get_virt_reg(VirtTarget::HL)))
}

/// Check what [CpuView::rlca] needs.
fn check_rlca(cpu: &Cpu) -> (r: bool)
    ensures
        r == cpu@.normalized().ok_rlca(),
{
    (cpu.pc as u32 + 1 <= 0xFFFF)
}

/// Check what [CpuView::rla] needs.
fn check_rla(cpu: &Cpu) -> (r: bool)
    ensures
        r == cpu@.normalized().ok_rla(),
{
    (cpu.pc as u32 + 1 <= 0xFFFF)
}

/// Check what [CpuView::rrca] needs.
fn check_rrca(cpu: &Cpu) -> (r: bool)
    ensures
        r == cpu@.normalized().ok_rrca(),
{
    (cpu.pc as u32 + 1 <= 0xFFFF)
}

/// Check what [CpuView::rra] needs.
fn check_rra(cpu: &Cpu) -> (r: bool)
    ensures
        r == cpu@.normalized().ok_rra(),
{
    (cpu.pc as u32 + 1 <= 0xFFFF)
}

/// Check what [CpuView::bit_b_r] needs.
fn check_bit_b_r(cpu: &Cpu, b: usize, target: Target) -> (r: bool)
    ensures
        r == cpu@.normalized().ok_bit_b_r(b, target),
{
    (cpu.pc as u32 + 2 <= 0xFFFF)
        && (b < 8)
}

/// Check what [CpuView::bit_b_r_hl] needs.
fn check_bit_b_r_hl(cpu: &Cpu, b: usize) -> (r: bool)
    ensures
        r == cpu@.normalized().ok_bit_b_r_hl(b),
{
    (cpu.pc as u32 + 2 <= 0xFFFF)
        && (b < 8)
        && (cpu.mmu.can_read(cpu.regs.get_virt_reg(VirtTarget::HL)))
}

/// Check what [CpuView::set_b_r] needs.
fn check_set_b_r(cpu: &Cpu, b: usize, target: Target) -> (r: bool)
    ensures
        r == cpu@.normalized().ok_set_b_r(b, target),
{
    (cpu.pc as u32 + 2 <= 0xFFFF)
        && (b < 8)
}

/// Check what [CpuView::set_b_r_hl] needs.
fn check_set_b_r_hl(cpu: &Cpu, b: usize) -> (r: bool)
    ensures
        r == cpu@.normalized().ok_set_b_r_hl(b),
{
    (cpu.pc as u32 + 2 <= 0xFFFF)
        && (b < 8)
        && (cpu.mmu.can_read(cpu.regs.get_virt_reg(VirtTarget::HL)))
        && (cpu.mmu.can_write_any(cpu.regs.get_virt_reg(VirtTarget::HL)))
}

/// Check what [CpuView::res_b_r] needs.
fn check_res_b_r(cpu: &Cpu, b: usize, target: Target) -> (r: bool)
    ensures
        r == cpu@.normalized().ok_res_b_r(b, target),
{
    (cpu.pc as u32 + 2 <= 0xFFFF)
        && (b < 8)
}

/// Check what [CpuView::res_b_r_hl] needs.
fn check_res_b_r_hl(cpu: &Cpu, b: usize) -> (r: bool)
    ensures
        r == cpu@.normalized().ok_res_b_r_hl(b),
{
    (cpu.pc as u32 + 2 <= 0xFFFF)
        && (b < 8)
        && (cpu.mmu.can_read(cpu.regs.get_virt_reg(VirtTarget::HL)))
        && (cpu.mmu.can_write_any(cpu.regs.get_virt_reg(VirtTarget::HL)))
}

/// Check what [CpuView::daa] needs.
fn check_daa(cpu: &Cpu) -> (r: bool)
    ensures
        r == cpu@.normalized().ok_daa(),
{
    (cpu.pc as u32 + 1 <= 0xFFFF)
}

/// Check what [CpuView::cpl] needs.
fn check_cpl(cpu: &Cpu) -> (r: bool)
    ensures
        r == cpu@.normalized().ok_cpl(),
{
    (cpu.pc as u32 + 1 <= 0xFFFF)
}

/// Check what [CpuView::ccf] needs.
fn check_ccf(cpu: &Cpu) -> (r: bool)
    ensures
        r == cpu@.normalized().ok_ccf(),
{
    (cpu.pc as u32 + 1 <= 0xFFFF)
}

/// Check what [CpuView::scf] needs.
fn check_scf(cpu: &Cpu) -> (r: bool)
    ensures
        r == cpu@.normalized().ok_scf(),
{
    (cpu.pc as u32 + 1 <= 0xFFFF)
}

/// Check what [CpuView::nop] needs.
fn check_nop(cpu: &Cpu) -> (r: bool)
    ensures
        r == cpu@.normalized().ok_nop(),
{
    (cpu.pc as u32 + 1 <= 0xFFFF)
}

/// Check what [CpuView::halt] needs.
fn check_halt(cpu: &Cpu) -> (r: bool)
    ensures
        r == cpu@.normalized().ok_halt(),
{
    (cpu.pc as u32 + 1 <= 0xFFFF)
}

/// Check what [CpuView::stop] needs.
fn check_stop(cpu: &Cpu) -> (r: bool)
    ensures
        r == cpu@.normalized().ok_stop(),
{
    (cpu.pc as u32 + 2 <= 0xFFFF)
}

/// Check what [CpuView::di] needs.
fn check_di(cpu: &Cpu) -> (r: bool)
    ensures
        r == cpu@.normalized().ok_di(),
{
    (cpu.pc as u32 + 1 <= 0xFFFF)
}

/// Check what [CpuView::ei] needs.
fn check_ei(cpu: &Cpu) -> (r: bool)
    ensures
        r == cpu@.normalized().ok_ei(),
{
    (cpu.pc as u32 + 1 <= 0xFFFF)
}

/// Check what [CpuView::jp_nn] needs.
fn check_jp_nn(cpu: &Cpu) -> (r: bool)
    ensures
        r == cpu@.normalized().ok_jp_nn(),
{
    (cpu.pc as u32 + 2 <= 0xFFFF)
        && (cpu.mmu.can_read(cpu.pc + 1))
        && (cpu.mmu.can_read(cpu.pc + 2))
}

/// Check what [CpuView::jp_cc_nn] needs.
fn check_jp_cc_nn(cpu: &Cpu, flag: RegFlag, expected_value: bool) -> (r: bool)
    ensures
        r == cpu@.normalized().ok_jp_cc_nn(flag, expected_value),
{
    (flag == RegFlag::Z || flag == RegFlag::C)
        && ((if cpu.regs.get_flag(flag) == expected_value { cpu.pc as u32 + 2 } else { cpu.pc as u32 + 3 }) <= 0xFFFF)
        && (cpu.regs.get_flag(flag) != expected_value || (cpu.mmu.can_read(cpu.pc + 1) && cpu.mmu.can_read(cpu.pc + 2)))
}

/// Check what [CpuView::jp_hl] needs.
fn check_jp_hl(cpu: &Cpu) -> (r: bool)
    ensures
        r == cpu@.normalized().ok_jp_hl(),
{
    true
}

/// Check what [CpuView::jr_n] needs.
fn check_jr_n(cpu: &Cpu) -> (r: bool)
    ensures
        r == cpu@.normalized().ok_jr_n(),
{
    (cpu.pc as u32 + 2 <= 0xFFFF)
        && (cpu.mmu.can_read(cpu.pc + 1))
}

/// Check what [CpuView::jr_cc_n] needs.
fn check_jr_cc_n(cpu: &Cpu, flag: RegFlag, expected_value: bool) -> (r: bool)
    ensures
        r == cpu@.normalized().ok_jr_cc_n(flag, expected_value),
{
    (flag == RegFlag::Z || flag == RegFlag::C)
        && (cpu.pc as u32 + 2 <= 0xFFFF)
        && (cpu.regs.get_flag(flag) != expected_value || (cpu.mmu.can_read(cpu.pc + 1)))
}

/// Check what [CpuView::call_nn] needs.
fn check_call_nn(cpu: &Cpu) -> (r: bool)
    ensures
        r == cpu@.normalized().ok_call_nn(),
{
    (cpu.pc as u32 + 3 <= 0xFFFF)
        && (push_ok_exec(cpu))
        && (call_reads_ok_exec(cpu))
}

/// Check what [CpuView::call_cc_nn] needs.
fn check_call_cc_nn(cpu: &Cpu, flag: RegFlag, expected_value: bool) -> (r: bool)
    ensures
        r == cpu@.normalized().ok_call_cc_nn(flag, expected_value),
{
    (flag == RegFlag::Z || flag == RegFlag::C)
        && (cpu.pc as u32 + 3 <= 0xFFFF)
        && (cpu.regs.get_flag(flag) != expected_value || (push_ok_exec(cpu) && call_reads_ok_exec(cpu)))
}

/// Check what [CpuView::rst_n] needs.
fn check_rst_n(cpu: &Cpu, n: u8) -> (r: bool)
    ensures
        r == cpu@.normalized().ok_rst_n(n),
{
    (push_ok_exec(cpu))
}

/// Check what [CpuView::ret] needs.
fn check_ret(cpu: &Cpu) -> (r: bool)
    ensures
        r == cpu@.normalized().ok_ret(),
{
    (pop_ok_exec(cpu))
}

/// Check what [CpuView::ret_cc] needs.
fn check_ret_cc(cpu: &Cpu, flag: RegFlag, expected_value: bool) -> (r: bool)
    ensures
        r == cpu@.normalized().ok_ret_cc(flag, expected_value),
{
    (flag == RegFlag::Z || flag == RegFlag::C)
        && (if cpu.regs.get_flag(flag) == expected_value { pop_ok_exec(cpu) } else { cpu.pc as u32 + 1 <= 0xFFFF })
}

/// Check what [CpuView::reti] needs.
fn check_reti(cpu: &Cpu) -> (r: bool)
    ensures
        r == cpu@.normalized().ok_reti(),
{
    (pop_ok_exec(cpu))
}


    /// Check what is needed to run the 8-bit arithmetic/logic instruction `alu` (ADD, ADC, SUB, SBC, AND,
    /// XOR, OR, CP) on operand encoding `z` (a register, or (HL) for 6).
    fn check_alu(cpu: &Cpu, alu: u8, z: u8) -> (r: bool)
        requires
            alu < 8,
            z < 8,
        ensures
            r == cpu@.normalized().ok_step_alu(alu, z),
    {
        let t: Target = reg_code_exec(z);
        if alu == 0 {
            if z == 6 { check_add_a_n_hl(cpu) } else { check_add_a_n(cpu, t) }
        } else if alu == 1 {
            if z == 6 { check_adc_a_n_hl(cpu) } else { check_adc_a_n(cpu, t) }
        } else if alu == 2 {
            if z == 6 { check_sub_n_hl(cpu) } else { check_sub_n(cpu, t) }
        } else if alu == 3 {
            if z == 6 { check_sbc_n_hl(cpu) } else { check_sbc_n(cpu, t) }
        } else if alu == 4 {
            if z == 6 { check_and_n_hl(cpu) } else { check_and_n(cpu, t) }
        } else if alu == 5 {
            if z == 6 { check_xor_n_hl(cpu) } else { check_xor_n(cpu, t) }
        } else if alu == 6 {
            if z == 6 { check_or_n_hl(cpu) } else { check_or_n(cpu, t) }
        } else {
            if z == 6 { check_cp_n_hl(cpu) } else { check_cp_n(cpu, t) }
        }
    }

    /// Check what is needed to run the 8-bit arithmetic/logic instruction `alu` on the immediate byte.
    fn check_alu_imm(cpu: &Cpu, alu: u8) -> (r: bool)
        ensures
            r == cpu@.normalized().ok_step_alu_imm(alu),
    {
        if alu == 0 {
            check_add_a_n_n(cpu)
        } else if alu == 1 {
            check_adc_a_n_n(cpu)
        } else if alu == 2 {
            check_sub_n_n(cpu)
        } else if alu == 3 {
            check_sbc_n_n(cpu)
        } else if alu == 4 {
            check_and_n_n(cpu)
        } else if alu == 5 {
            check_xor_n_n(cpu)
        } else if alu == 6 {
            check_or_n_n(cpu)
        } else {
            check_cp_n_n(cpu)
        }
    }

    /// Check what is needed to run the CB-prefixed instruction whose second byte is `ext`: bits 7-6 pick
    /// the group (shift/rotate, BIT, RES, SET), bits 5-3 the operation or bit, bits 2-0 the
    /// operand.
    fn check_cb(cpu: &Cpu, ext: u8) -> (r: bool)
        ensures
            r == cpu@.normalized().ok_step_cb(ext),
    {
        let x: u8 = ext / 64;
        let y: u8 = (ext / 8) % 8;
        let z: u8 = ext % 8;
        let t: Target = reg_code_exec(z);
        if x == 0 {
            if y == 0 {
                if z == 6 { check_rlc_n_hl(cpu) } else { check_rlc_n(cpu, t) }
            } else if y == 1 {
                if z == 6 { check_rrc_n_hl(cpu) } else { check_rrc_n(cpu, t) }
            } else if y == 2 {
                if z == 6 { check_rl_n_hl(cpu) } else { check_rl_n(cpu, t) }
            } else if y == 3 {
                if z == 6 { check_rr_n_hl(cpu) } else { check_rr_n(cpu, t) }
            } else if y == 4 {
                if z == 6 { check_sla_n_hl(cpu) } else { check_sla_n(cpu, t) }
            } else if y == 5 {
                if z == 6 { check_sra_n_hl(cpu) } else { check_sra_n(cpu, t) }
            } else if y == 6 {
                if z == 6 { check_swap_n_hl(cpu) } else { check_swap_n(cpu, t) }
            } else {
                if z == 6 { check_srl_n_hl(cpu) } else { check_srl_n(cpu, t) }
            }
        } else if x == 1 {
            if z == 6 { check_bit_b_r_hl(cpu, y as usize) } else { check_bit_b_r(cpu, y as usize, t) }
        } else if x == 2 {
            if z == 6 { check_res_b_r_hl(cpu, y as usize) } else { check_res_b_r(cpu, y as usize, t) }
        } else {
            if z == 6 { check_set_b_r_hl(cpu, y as usize) } else { check_set_b_r(cpu, y as usize, t) }
        }
    }

    /// Check what is needed to run an instruction of the block 0x00..=0x3F (loads of immediates, 16-bit
    /// arithmetic, INC/DEC, rotates of A, relative jumps and miscellaneous instructions).
    fn check_x0(cpu: &Cpu, y: u8, z: u8) -> (r: bool)
        requires
            y < 8,
            z < 8,
        ensures
            r == cpu@.normalized().ok_step_x0(y, z),
    {
        let p: u8 = y / 2;
        let q: u8 = y % 2;
        if z == 0 {
            if y == 0 { check_nop(cpu) }
            else if y == 1 { check_ld_nn_sp(cpu) }
            else if y == 2 { check_stop(cpu) }
            else if y == 3 { check_jr_n(cpu) }
            else { check_jr_cc_n(cpu, cond_flag_exec(y - 4), cond_value_exec(y - 4)) }
        } else if z == 1 {
            if q == 0 {
                if p == 3 { check_ld_n_nn_sp(cpu) } else { check_ld_n_nn(cpu, pair_code_exec(p)) }
            } else {
                if p == 3 { check_add_hl_n_sp(cpu) } else { check_add_hl_n(cpu, pair_code_exec(p)) }
            }
        } else if z == 2 {
            if q == 0 {
                if p < 2 { check_ld_vr_a(cpu, pair_code_exec(p)) }
                else if p == 2 { check_ld_hli_a(cpu) }
                else { check_ld_hld_a(cpu) }
            } else {
                if p < 2 { check_ld_a_vr(cpu, pair_code_exec(p)) }
                else if p == 2 { check_ld_a_hli(cpu) }
                else { check_ld_a_hld(cpu) }
            }
        } else if z == 3 {
            if q == 0 {
                if p == 3 { check_inc_nn_sp(cpu) } else { check_inc_nn(cpu, pair_code_exec(p)) }
            } else {
                if p == 3 { check_dec_nn_sp(cpu) } else { check_dec_nn(cpu, pair_code_exec(p)) }
            }
        } else if z == 4 {
            if y == 6 { check_inc_n_hl(cpu) } else { check_inc_n(cpu, reg_code_exec(y)) }
        } else if z == 5 {
            if y == 6 { check_dec_n_hl(cpu) } else { check_dec_n(cpu, reg_code_exec(y)) }
        } else if z == 6 {
            if y == 6 { check_ld_hl_n(cpu) }
            else if y == 7 { check_ld_a_n(cpu) }
            else { check_ld_nn_n(cpu, reg_code_exec(y)) }
        } else {
            if y == 0 { check_rlca(cpu) }
            else if y == 1 { check_rrca(cpu) }
            else if y == 2 { check_rla(cpu) }
            else if y == 3 { check_rra(cpu) }
            else if y == 4 { check_daa(cpu) }
            else if y == 5 { check_cpl(cpu) }
            else if y == 6 { check_scf(cpu) }
            else { check_ccf(cpu) }
        }
    }

    /// Check what is needed to run an instruction of the block 0x40..=0x7F (8-bit register loads and HALT).
    fn check_x1(cpu: &Cpu, y: u8, z: u8) -> (r: bool)
        requires
            y < 8,
            z < 8,
        ensures
            r == cpu@.normalized().ok_step_x1(y, z),
    {
        if y == 6 && z == 6 { check_halt(cpu) }
        else if z == 6 { check_ld_r1_hl(cpu, reg_code_exec(y)) }
        else if y == 6 {
            if z == 7 { check_ld_vr_a(cpu, VirtTarget::HL) } else { check_ld_hl_r2(cpu, reg_code_exec(z)) }
        } else if z == 7 && y != 7 { check_ld_r_a(cpu, reg_code_exec(y)) }
        else { check_ld_r1_r2(cpu, reg_code_exec(y), reg_code_exec(z)) }
    }

    /// Check what is needed to run an instruction of the block 0xC0..=0xFF (stack, jumps, calls, returns,
    /// high-page loads, immediate arithmetic and the CB prefix).
    fn check_x3(cpu: &Cpu, y: u8, z: u8) -> (r: bool)
        requires
            y < 8,
            z < 8,
        ensures
            r == cpu@.normalized().ok_step_x3(y, z),
    {
        if z < 4 {
            check_x3_lo(cpu, y, z)
        } else {
            check_x3_hi(cpu, y, z)
        }
    }

    /// Check what is needed to run an instruction of the block 0xC0..=0xFF with z in 0..=3.
    fn check_x3_lo(cpu: &Cpu, y: u8, z: u8) -> (r: bool)
        requires
            y < 8,
            z < 8,
        ensures
            r == cpu@.normalized().ok_step_x3_lo(y, z),
    {
        let p: u8 = y / 2;
        let q: u8 = y % 2;
        if z == 0 {
            if y < 4 { check_ret_cc(cpu, cond_flag_exec(y), cond_value_exec(y)) }
            else if y == 4 { check_ldh_n_a(cpu) }
            else if y == 5 { check_add_sp_n(cpu) }
            else if y == 6 { check_ldh_a_n(cpu) }
            else { check_ld_hl_sp_n(cpu) }
        } else if z == 1 {
            if q == 0 { check_pop_nn(cpu, stack_pair_code_exec(p)) }
            else if p == 0 { check_ret(cpu) }
            else if p == 1 { check_reti(cpu) }
            else if p == 2 { check_jp_hl(cpu) }
            else { check_ld_sp_hl(cpu) }
        } else if z == 2 {
            if y < 4 { check_jp_cc_nn(cpu, cond_flag_exec(y), cond_value_exec(y)) }
            else if y == 4 { check_ld_c_a(cpu) }
            else if y == 5 { check_ld_nn_a(cpu) }
            else if y == 6 { check_ld_a_c(cpu) }
            else { check_ld_a_nn(cpu) }
        } else {
            if y == 0 { check_jp_nn(cpu) }
            else if y == 1 { {
                    if cpu.pc < 0xFFFF && cpu.mmu.can_read(cpu.pc + 1) {
                        let ext = cpu.mmu.read_byte(cpu.pc + 1);
                        check_cb(cpu, ext)
                    } else {
                        false
                    }
                } }
            else if y == 6 { check_di(cpu) }
            else { check_ei(cpu) }
        }
    }

    /// Check what is needed to run an instruction of the block 0xC0..=0xFF with z in 4..=7.
    fn check_x3_hi(cpu: &Cpu, y: u8, z: u8) -> (r: bool)
        requires
            y < 8,
            z < 8,
        ensures
            r == cpu@.normalized().ok_step_x3_hi(y, z),
    {
        let p: u8 = y / 2;
        let q: u8 = y % 2;
        if z == 4 {
            check_call_cc_nn(cpu, cond_flag_exec(y), cond_value_exec(y))
        } else if z == 5 {
            if q == 0 { check_push_nn(cpu, stack_pair_code_exec(p)) } else { check_call_nn(cpu) }
        } else if z == 6 {
            check_alu_imm(cpu, y)
        } else {
            check_rst_n(cpu, y * 8)
        }
    }

    /// Check what is needed to run the instruction with opcode `opcode` at the program counter. Bits 7-6 of
    /// the opcode (x) pick the block, bits 5-3 (y, split into p = y / 2 and q = y % 2) and bits
    /// 2-0 (z) the instruction and its operands.
    fn check_decoded(cpu: &Cpu, opcode: u8) -> (r: bool)
        ensures
            r == cpu@.normalized().ok_decoded(opcode),
    {
        let x: u8 = opcode / 64;
        let y: u8 = (opcode / 8) % 8;
        let z: u8 = opcode % 8;
        if x == 0 {
            check_x0(cpu, y, z)
        } else if x == 1 {
            check_x1(cpu, y, z)
        } else if x == 2 {
            check_alu(cpu, y, z)
        } else {
            check_x3(cpu, y, z)
        }
    }

/// Execute a given opcode. Return the amount of cycles the instruction takes and, when
/// `get_state` asks for it, the state before the instruction together with the instruction's
/// size, cycles and mnemonic. Printing debug output (`debug`) is left to the caller, which
/// asks for the state to do so.
#[allow(unused_variables)]
pub fn execute_opcode(cpu: &mut Cpu, opcode: u8, debug: bool, get_state: bool) -> (r: (
    u32,
    Option<EmuState>,
))
    requires
        old(cpu)@.step_ok(opcode),
        get_state ==> old(cpu).pc < 0xFFFE && old(cpu)@.mmu.reads_ok(old(cpu).pc) && old(
            cpu,
        )@.mmu.reads_ok((old(cpu).pc + 1) as u16) && old(cpu)@.mmu.reads_ok((old(cpu).pc + 2) as u16),
    ensures
        final(cpu)@ == old(cpu)@.step(opcode).cpu,
        keeps_timer_sums(old(cpu)@, final(cpu)@),
        r.0 <= 24,
        r.0 == old(cpu)@.step(opcode).cycles,
        get_state <==> r.1 is Some,
        r.1 matches Some(s) ==> s.describes(old(cpu)@) && s.size == old(cpu)@.step(opcode).size
            && s.cycles == r.0 && s.instruction_string@ == old(cpu)@.step(opcode).text,
{
    let mut emu_state = if get_state {
        Some(EmuState::new(cpu))
    } else {
        None
    };
    let (size, cycles, instruction_string) = dispatch(cpu, opcode);
    match emu_state {
        Some(mut es) => {
            es.update(size, cycles, instruction_string);
            (cycles, Some(es))
        },
        None => (cycles, None),
    }
}

} // verus!
