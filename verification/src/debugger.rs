//! Debug settings and breakpoints of the emulator front end.
use vstd::prelude::*;

use crate::cpu::EmuState;

verus! {

/// Debug settings of the emulator front end.
#[derive(Debug, Clone)]
pub struct DebugSettings {
    pub general_debug: bool,
    pub instr_debug: bool,
    pub btn_debug: bool,
    pub fps_debug: u32,
    pub config_debug: bool,
    pub breakpoints: bool,
    pub history: usize,
    pub continue_key: char,
    pub step_forward_key: char,
}

/// Conditions on which execution stops: any listed program counter, opcode bytes or register
/// value.
#[derive(Debug, Clone)]
pub struct Breakpoints {
    pub program_counter: Vec<u16>,
    pub instr_name: Vec<String>,
    pub opcode_1_byte: Vec<u8>,
    pub opcode_2_byte: Vec<u16>,
    pub opcode_3_byte: Vec<u32>,
    pub a_reg: Vec<u8>,
    pub b_reg: Vec<u8>,
    pub c_reg: Vec<u8>,
    pub d_reg: Vec<u8>,
    pub e_reg: Vec<u8>,
    pub h_reg: Vec<u8>,
    pub l_reg: Vec<u8>,
}

impl Breakpoints {
    /// No breakpoints at all.
    pub fn new() -> (r: Self)
        ensures
            r.program_counter@.len() == 0,
            r.instr_name@.len() == 0,
            r.opcode_1_byte@.len() == 0,
            r.opcode_2_byte@.len() == 0,
            r.opcode_3_byte@.len() == 0,
            r.a_reg@.len() == 0,
            r.b_reg@.len() == 0,
            r.c_reg@.len() == 0,
            r.d_reg@.len() == 0,
            r.e_reg@.len() == 0,
            r.h_reg@.len() == 0,
            r.l_reg@.len() == 0,
    {
        Breakpoints {
            program_counter: Vec::new(),
            instr_name: Vec::new(),
            opcode_1_byte: Vec::new(),
            opcode_2_byte: Vec::new(),
            opcode_3_byte: Vec::new(),
            a_reg: Vec::new(),
            b_reg: Vec::new(),
            c_reg: Vec::new(),
            d_reg: Vec::new(),
            e_reg: Vec::new(),
            h_reg: Vec::new(),
            l_reg: Vec::new(),
        }
    }
}

/// The two-byte opcode compared with the breakpoints: `byte_1` * 0x100 + `byte_0`.
pub open spec fn opcode_2_of(s: &EmuState) -> u16 {
    (s.byte_1 * 256 + s.byte_0) as u16
}

/// The three-byte opcode compared with the breakpoints: `byte_2` shifted left by 8 bits,
/// OR-ed with the two-byte opcode.
pub open spec fn opcode_3_of(s: &EmuState) -> u32 {
    ((s.byte_2 as u32) << 8) | (opcode_2_of(s) as u32)
}

/// True iff execution stops before the instruction described by `s`: when stepping forward,
/// or when the program counter, an opcode or a register value is listed in `bp`.
pub open spec fn breaks_at(bp: &Breakpoints, s: &EmuState, step_forward: bool) -> bool {
    ||| step_forward
    ||| bp.program_counter@.contains(s.pc)
    ||| bp.opcode_1_byte@.contains(s.byte_0)
    ||| bp.opcode_2_byte@.contains(opcode_2_of(s))
    ||| bp.opcode_3_byte@.contains(opcode_3_of(s))
    ||| bp.a_reg@.contains(s.a_reg)
    ||| bp.b_reg@.contains(s.b_reg)
    ||| bp.c_reg@.contains(s.c_reg)
    ||| bp.d_reg@.contains(s.d_reg)
    ||| bp.e_reg@.contains(s.e_reg)
    ||| bp.h_reg@.contains(s.h_reg)
    ||| bp.l_reg@.contains(s.l_reg)
}

fn contains_u8(v: &Vec<u8>, x: u8) -> (r: bool)
    ensures
        r == v@.contains(x),
{
    let mut i: usize = 0;
    while i < v.len()
        invariant
            i <= v@.len(),
            forall|j: int| 0 <= j < i ==> v@[j] != x,
        decreases v@.len() - i,
    {
        if v[i] == x {
            assert(v@[i as int] == x);
            return true;
        }
        i = i + 1;
    }
    false
}

fn contains_u16(v: &Vec<u16>, x: u16) -> (r: bool)
    ensures
        r == v@.contains(x),
{
    let mut i: usize = 0;
    while i < v.len()
        invariant
            i <= v@.len(),
            forall|j: int| 0 <= j < i ==> v@[j] != x,
        decreases v@.len() - i,
    {
        if v[i] == x {
            assert(v@[i as int] == x);
            return true;
        }
        i = i + 1;
    }
    false
}

fn contains_u32(v: &Vec<u32>, x: u32) -> (r: bool)
    ensures
        r == v@.contains(x),
{
    let mut i: usize = 0;
    while i < v.len()
        invariant
            i <= v@.len(),
            forall|j: int| 0 <= j < i ==> v@[j] != x,
        decreases v@.len() - i,
    {
        if v[i] == x {
            assert(v@[i as int] == x);
            return true;
        }
        i = i + 1;
    }
    false
}

/// Decide whether execution stops before the instruction described by `emu_state` (see
/// [breaks_at]). Showing the history and asking whether to step or continue is the front
/// end's part.
pub fn match_breakpoint(breakpoints: &Breakpoints, emu_state: &EmuState, step_forward: bool) -> (r:
    bool)
    ensures
        r == breaks_at(breakpoints, emu_state, step_forward),
{
    let b0 = emu_state.byte_0;
    let b1 = emu_state.byte_1;
    let b2 = emu_state.byte_2;
    let byte_2_compare = ((b1 as u16) << 8) | (b0 as u16);
    assert(((b1 as u16) << 8) | (b0 as u16) == b1 * 256 + b0) by (bit_vector);
    let byte_3_compare = ((b2 as u32) << 8) | (byte_2_compare as u32);
    step_forward || contains_u16(&breakpoints.program_counter, emu_state.pc) || contains_u8(
        &breakpoints.opcode_1_byte,
        b0,
    ) || contains_u16(&breakpoints.opcode_2_byte, byte_2_compare) || contains_u32(
        &breakpoints.opcode_3_byte,
        byte_3_compare,
    ) || contains_u8(&breakpoints.a_reg, emu_state.a_reg) || contains_u8(
        &breakpoints.b_reg,
        emu_state.b_reg,
    ) || contains_u8(&breakpoints.c_reg, emu_state.c_reg) || contains_u8(
        &breakpoints.d_reg,
        emu_state.d_reg,
    ) || contains_u8(&breakpoints.e_reg, emu_state.e_reg) || contains_u8(
        &breakpoints.h_reg,
        emu_state.h_reg,
    ) || contains_u8(&breakpoints.l_reg, emu_state.l_reg)
}

} // verus!
