//! The SN8 instruction set: one ordered table of opcode entries, consulted by the
//! disassembler through a derived key and by the assembler through the mnemonic.
use vstd::prelude::*;

verus! {

/// Addressing space of an instruction's operand; it decides the operand's mask and text.
#[derive(Clone, Copy, Debug, PartialEq, Eq, Structural)]
pub enum AddrSpace {
    Null,
    Zero,
    Ram,
    Rom,
    Imm,
}

/// The named registers that may stand as fixed operands.
#[derive(Clone, Copy, Debug, PartialEq, Eq, Structural)]
pub enum Reg {
    A,
    R,
    Z,
    Y,
    Pflag,
    Rbank,
}

/// Shape of one operand slot of an opcode entry.
#[derive(Clone, Copy, Debug, PartialEq, Eq, Structural)]
pub enum OperandSpec {
    Empty,
    Fixed(Reg),
    Addr,
    Imm,
    BitAddr,
}

/// The instruction names of the table.
#[derive(Clone, Copy, Debug, PartialEq, Eq, Structural)]
pub enum Mnemonic {
    Nop,
    B0xch,
    B0add,
    Push,
    Pop,
    Cmprs,
    Rrc,
    Rrcm,
    Rlc,
    Rlcm,
    Movc,
    Ret,
    Reti,
    Adc,
    Add,
    Incs,
    Incms,
    Swap,
    Or,
    Xor,
    Mov,
    Sbc,
    Sub,
    Decs,
    Decms,
    Swapm,
    And,
    Clr,
    Xch,
    B0mov,
    Bclr,
    Bset,
    Bts0,
    Bts1,
    B0bclr,
    B0bset,
    B0bts0,
    B0bts1,
    Jmp,
    Call,
}

/// One opcode entry: high-byte template, operand mask, operand space, name and slots.
#[derive(Clone, Copy, Debug, PartialEq, Eq, Structural)]
pub struct OpcodeEntry {
    pub opcode: u8,
    pub mask: u16,
    pub space: AddrSpace,
    pub mnemonic: Mnemonic,
    pub left: OperandSpec,
    pub right: OperandSpec,
}

/// Number of entries in the opcode table.
pub const NUM_OPCODES: usize = 61;

/// The upper-case text of a mnemonic.
pub open spec fn mnemonic_text(m: Mnemonic) -> Seq<char> {
    match m {
        Mnemonic::Nop => seq!['N', 'O', 'P'],
        Mnemonic::B0xch => seq!['B', '0', 'X', 'C', 'H'],
        Mnemonic::B0add => seq!['B', '0', 'A', 'D', 'D'],
        Mnemonic::Push => seq!['P', 'U', 'S', 'H'],
        Mnemonic::Pop => seq!['P', 'O', 'P'],
        Mnemonic::Cmprs => seq!['C', 'M', 'P', 'R', 'S'],
        Mnemonic::Rrc => seq!['R', 'R', 'C'],
        Mnemonic::Rrcm => seq!['R', 'R', 'C', 'M'],
        Mnemonic::Rlc => seq!['R', 'L', 'C'],
        Mnemonic::Rlcm => seq!['R', 'L', 'C', 'M'],
        Mnemonic::Movc => seq!['M', 'O', 'V', 'C'],
        Mnemonic::Ret => seq!['R', 'E', 'T'],
        Mnemonic::Reti => seq!['R', 'E', 'T', 'I'],
        Mnemonic::Adc => seq!['A', 'D', 'C'],
        Mnemonic::Add => seq!['A', 'D', 'D'],
        Mnemonic::Incs => seq!['I', 'N', 'C', 'S'],
        Mnemonic::Incms => seq!['I', 'N', 'C', 'M', 'S'],
        Mnemonic::Swap => seq!['S', 'W', 'A', 'P'],
        Mnemonic::Or => seq!['O', 'R'],
        Mnemonic::Xor => seq!['X', 'O', 'R'],
        Mnemonic::Mov => seq!['M', 'O', 'V'],
        Mnemonic::Sbc => seq!['S', 'B', 'C'],
        Mnemonic::Sub => seq!['S', 'U', 'B'],
        Mnemonic::Decs => seq!['D', 'E', 'C', 'S'],
        Mnemonic::Decms => seq!['D', 'E', 'C', 'M', 'S'],
        Mnemonic::Swapm => seq!['S', 'W', 'A', 'P', 'M'],
        Mnemonic::And => seq!['A', 'N', 'D'],
        Mnemonic::Clr => seq!['C', 'L', 'R'],
        Mnemonic::Xch => seq!['X', 'C', 'H'],
        Mnemonic::B0mov => seq!['B', '0', 'M', 'O', 'V'],
        Mnemonic::Bclr => seq!['B', 'C', 'L', 'R'],
        Mnemonic::Bset => seq!['B', 'S', 'E', 'T'],
        Mnemonic::Bts0 => seq!['B', 'T', 'S', '0'],
        Mnemonic::Bts1 => seq!['B', 'T', 'S', '1'],
        Mnemonic::B0bclr => seq!['B', '0', 'B', 'C', 'L', 'R'],
        Mnemonic::B0bset => seq!['B', '0', 'B', 'S', 'E', 'T'],
        Mnemonic::B0bts0 => seq!['B', '0', 'B', 'T', 'S', '0'],
        Mnemonic::B0bts1 => seq!['B', '0', 'B', 'T', 'S', '1'],
        Mnemonic::Jmp => seq!['J', 'M', 'P'],
        Mnemonic::Call => seq!['C', 'A', 'L', 'L'],
    }
}

/// The text of a register name.
pub open spec fn reg_text(r: Reg) -> Seq<char> {
    match r {
        Reg::A => seq!['A'],
        Reg::R => seq!['R'],
        Reg::Z => seq!['Z'],
        Reg::Y => seq!['Y'],
        Reg::Pflag => seq!['P', 'F', 'L', 'A', 'G'],
        Reg::Rbank => seq!['R', 'B', 'A', 'N', 'K'],
    }
}

/// The characters of a mnemonic.
pub fn mnemonic_chars(m: Mnemonic) -> (r: Vec<char>)
    ensures
        r@ == mnemonic_text(m),
{
    match m {
        Mnemonic::Nop => vec!['N', 'O', 'P'],
        Mnemonic::B0xch => vec!['B', '0', 'X', 'C', 'H'],
        Mnemonic::B0add => vec!['B', '0', 'A', 'D', 'D'],
        Mnemonic::Push => vec!['P', 'U', 'S', 'H'],
        Mnemonic::Pop => vec!['P', 'O', 'P'],
        Mnemonic::Cmprs => vec!['C', 'M', 'P', 'R', 'S'],
        Mnemonic::Rrc => vec!['R', 'R', 'C'],
        Mnemonic::Rrcm => vec!['R', 'R', 'C', 'M'],
        Mnemonic::Rlc => vec!['R', 'L', 'C'],
        Mnemonic::Rlcm => vec!['R', 'L', 'C', 'M'],
        Mnemonic::Movc => vec!['M', 'O', 'V', 'C'],
        Mnemonic::Ret => vec!['R', 'E', 'T'],
        Mnemonic::Reti => vec!['R', 'E', 'T', 'I'],
        Mnemonic::Adc => vec!['A', 'D', 'C'],
        Mnemonic::Add => vec!['A', 'D', 'D'],
        Mnemonic::Incs => vec!['I', 'N', 'C', 'S'],
        Mnemonic::Incms => vec!['I', 'N', 'C', 'M', 'S'],
        Mnemonic::Swap => vec!['S', 'W', 'A', 'P'],
        Mnemonic::Or => vec!['O', 'R'],
        Mnemonic::Xor => vec!['X', 'O', 'R'],
        Mnemonic::Mov => vec!['M', 'O', 'V'],
        Mnemonic::Sbc => vec!['S', 'B', 'C'],
        Mnemonic::Sub => vec!['S', 'U', 'B'],
        Mnemonic::Decs => vec!['D', 'E', 'C', 'S'],
        Mnemonic::Decms => vec!['D', 'E', 'C', 'M', 'S'],
        Mnemonic::Swapm => vec!['S', 'W', 'A', 'P', 'M'],
        Mnemonic::And => vec!['A', 'N', 'D'],
        Mnemonic::Clr => vec!['C', 'L', 'R'],
        Mnemonic::Xch => vec!['X', 'C', 'H'],
        Mnemonic::B0mov => vec!['B', '0', 'M', 'O', 'V'],
        Mnemonic::Bclr => vec!['B', 'C', 'L', 'R'],
        Mnemonic::Bset => vec!['B', 'S', 'E', 'T'],
        Mnemonic::Bts0 => vec!['B', 'T', 'S', '0'],
        Mnemonic::Bts1 => vec!['B', 'T', 'S', '1'],
        Mnemonic::B0bclr => vec!['B', '0', 'B', 'C', 'L', 'R'],
        Mnemonic::B0bset => vec!['B', '0', 'B', 'S', 'E', 'T'],
        Mnemonic::B0bts0 => vec!['B', '0', 'B', 'T', 'S', '0'],
        Mnemonic::B0bts1 => vec!['B', '0', 'B', 'T', 'S', '1'],
        Mnemonic::Jmp => vec!['J', 'M', 'P'],
        Mnemonic::Call => vec!['C', 'A', 'L', 'L'],
    }
}

/// The characters of a register name.
pub fn reg_chars(r: Reg) -> (v: Vec<char>)
    ensures
        v@ == reg_text(r),
{
    match r {
        Reg::A => vec!['A'],
        Reg::R => vec!['R'],
        Reg::Z => vec!['Z'],
        Reg::Y => vec!['Y'],
        Reg::Pflag => vec!['P', 'F', 'L', 'A', 'G'],
        Reg::Rbank => vec!['R', 'B', 'A', 'N', 'K'],
    }
}

/// Entry `i` of the opcode table, in table order.
pub open spec fn spec_entry(i: usize) -> OpcodeEntry {
    match i {
        0 => OpcodeEntry { opcode: 0x00, mask: 0x0000, space: AddrSpace::Null, mnemonic: Mnemonic::Nop, left: OperandSpec::Empty, right: OperandSpec::Empty },
        1 => OpcodeEntry { opcode: 0x02, mask: 0x00ff, space: AddrSpace::Zero, mnemonic: Mnemonic::B0xch, left: OperandSpec::Fixed(Reg::A), right: OperandSpec::Addr },
        2 => OpcodeEntry { opcode: 0x03, mask: 0x00ff, space: AddrSpace::Zero, mnemonic: Mnemonic::B0add, left: OperandSpec::Addr, right: OperandSpec::Fixed(Reg::A) },
        3 => OpcodeEntry { opcode: 0x04, mask: 0x0000, space: AddrSpace::Null, mnemonic: Mnemonic::Push, left: OperandSpec::Empty, right: OperandSpec::Empty },
        4 => OpcodeEntry { opcode: 0x05, mask: 0x0000, space: AddrSpace::Null, mnemonic: Mnemonic::Pop, left: OperandSpec::Empty, right: OperandSpec::Empty },
        5 => OpcodeEntry { opcode: 0x06, mask: 0x00ff, space: AddrSpace::Imm, mnemonic: Mnemonic::Cmprs, left: OperandSpec::Fixed(Reg::A), right: OperandSpec::Imm },
        6 => OpcodeEntry { opcode: 0x07, mask: 0x00ff, space: AddrSpace::Ram, mnemonic: Mnemonic::Cmprs, left: OperandSpec::Fixed(Reg::A), right: OperandSpec::Addr },
        7 => OpcodeEntry { opcode: 0x08, mask: 0x00ff, space: AddrSpace::Ram, mnemonic: Mnemonic::Rrc, left: OperandSpec::Addr, right: OperandSpec::Empty },
        8 => OpcodeEntry { opcode: 0x09, mask: 0x00ff, space: AddrSpace::Ram, mnemonic: Mnemonic::Rrcm, left: OperandSpec::Addr, right: OperandSpec::Empty },
        9 => OpcodeEntry { opcode: 0x0a, mask: 0x00ff, space: AddrSpace::Ram, mnemonic: Mnemonic::Rlc, left: OperandSpec::Addr, right: OperandSpec::Empty },
        10 => OpcodeEntry { opcode: 0x0b, mask: 0x00ff, space: AddrSpace::Ram, mnemonic: Mnemonic::Rlcm, left: OperandSpec::Addr, right: OperandSpec::Empty },
        11 => OpcodeEntry { opcode: 0x0d, mask: 0x0000, space: AddrSpace::Null, mnemonic: Mnemonic::Movc, left: OperandSpec::Empty, right: OperandSpec::Empty },
        12 => OpcodeEntry { opcode: 0x0e, mask: 0x0000, space: AddrSpace::Null, mnemonic: Mnemonic::Ret, left: OperandSpec::Empty, right: OperandSpec::Empty },
        13 => OpcodeEntry { opcode: 0x0f, mask: 0x0000, space: AddrSpace::Null, mnemonic: Mnemonic::Reti, left: OperandSpec::Empty, right: OperandSpec::Empty },
        14 => OpcodeEntry { opcode: 0x10, mask: 0x00ff, space: AddrSpace::Ram, mnemonic: Mnemonic::Adc, left: OperandSpec::Fixed(Reg::A), right: OperandSpec::Addr },
        15 => OpcodeEntry { opcode: 0x11, mask: 0x00ff, space: AddrSpace::Ram, mnemonic: Mnemonic::Adc, left: OperandSpec::Addr, right: OperandSpec::Fixed(Reg::A) },
        16 => OpcodeEntry { opcode: 0x12, mask: 0x00ff, space: AddrSpace::Ram, mnemonic: Mnemonic::Add, left: OperandSpec::Fixed(Reg::A), right: OperandSpec::Addr },
        17 => OpcodeEntry { opcode: 0x13, mask: 0x00ff, space: AddrSpace::Ram, mnemonic: Mnemonic::Add, left: OperandSpec::Addr, right: OperandSpec::Fixed(Reg::A) },
        18 => OpcodeEntry { opcode: 0x14, mask: 0x00ff, space: AddrSpace::Imm, mnemonic: Mnemonic::Add, left: OperandSpec::Fixed(Reg::A), right: OperandSpec::Imm },
        19 => OpcodeEntry { opcode: 0x15, mask: 0x00ff, space: AddrSpace::Ram, mnemonic: Mnemonic::Incs, left: OperandSpec::Addr, right: OperandSpec::Empty },
        20 => OpcodeEntry { opcode: 0x16, mask: 0x00ff, space: AddrSpace::Ram, mnemonic: Mnemonic::Incms, left: OperandSpec::Addr, right: OperandSpec::Empty },
        21 => OpcodeEntry { opcode: 0x17, mask: 0x00ff, space: AddrSpace::Ram, mnemonic: Mnemonic::Swap, left: OperandSpec::Addr, right: OperandSpec::Empty },
        22 => OpcodeEntry { opcode: 0x18, mask: 0x00ff, space: AddrSpace::Ram, mnemonic: Mnemonic::Or, left: OperandSpec::Fixed(Reg::A), right: OperandSpec::Addr },
        23 => OpcodeEntry { opcode: 0x19, mask: 0x00ff, space: AddrSpace::Ram, mnemonic: Mnemonic::Or, left: OperandSpec::Addr, right: OperandSpec::Fixed(Reg::A) },
        24 => OpcodeEntry { opcode: 0x1a, mask: 0x00ff, space: AddrSpace::Imm, mnemonic: Mnemonic::Or, left: OperandSpec::Fixed(Reg::A), right: OperandSpec::Imm },
        25 => OpcodeEntry { opcode: 0x1b, mask: 0x00ff, space: AddrSpace::Ram, mnemonic: Mnemonic::Xor, left: OperandSpec::Fixed(Reg::A), right: OperandSpec::Addr },
        26 => OpcodeEntry { opcode: 0x1c, mask: 0x00ff, space: AddrSpace::Ram, mnemonic: Mnemonic::Xor, left: OperandSpec::Addr, right: OperandSpec::Fixed(Reg::A) },
        27 => OpcodeEntry { opcode: 0x1d, mask: 0x00ff, space: AddrSpace::Imm, mnemonic: Mnemonic::Xor, left: OperandSpec::Fixed(Reg::A), right: OperandSpec::Imm },
        28 => OpcodeEntry { opcode: 0x1e, mask: 0x00ff, space: AddrSpace::Ram, mnemonic: Mnemonic::Mov, left: OperandSpec::Fixed(Reg::A), right: OperandSpec::Addr },
        29 => OpcodeEntry { opcode: 0x1f, mask: 0x00ff, space: AddrSpace::Ram, mnemonic: Mnemonic::Mov, left: OperandSpec::Addr, right: OperandSpec::Fixed(Reg::A) },
        30 => OpcodeEntry { opcode: 0x20, mask: 0x00ff, space: AddrSpace::Ram, mnemonic: Mnemonic::Sbc, left: OperandSpec::Fixed(Reg::A), right: OperandSpec::Addr },
        31 => OpcodeEntry { opcode: 0x21, mask: 0x00ff, space: AddrSpace::Ram, mnemonic: Mnemonic::Sbc, left: OperandSpec::Addr, right: OperandSpec::Fixed(Reg::A) },
        32 => OpcodeEntry { opcode: 0x22, mask: 0x00ff, space: AddrSpace::Ram, mnemonic: Mnemonic::Sub, left: OperandSpec::Fixed(Reg::A), right: OperandSpec::Addr },
        33 => OpcodeEntry { opcode: 0x23, mask: 0x00ff, space: AddrSpace::Ram, mnemonic: Mnemonic::Sub, left: OperandSpec::Addr, right: OperandSpec::Fixed(Reg::A) },
        34 => OpcodeEntry { opcode: 0x24, mask: 0x00ff, space: AddrSpace::Imm, mnemonic: Mnemonic::Sub, left: OperandSpec::Fixed(Reg::A), right: OperandSpec::Imm },
        35 => OpcodeEntry { opcode: 0x25, mask: 0x00ff, space: AddrSpace::Ram, mnemonic: Mnemonic::Decs, left: OperandSpec::Addr, right: OperandSpec::Empty },
        36 => OpcodeEntry { opcode: 0x26, mask: 0x00ff, space: AddrSpace::Ram, mnemonic: Mnemonic::Decms, left: OperandSpec::Addr, right: OperandSpec::Empty },
        37 => OpcodeEntry { opcode: 0x27, mask: 0x00ff, space: AddrSpace::Ram, mnemonic: Mnemonic::Swapm, left: OperandSpec::Addr, right: OperandSpec::Empty },
        38 => OpcodeEntry { opcode: 0x28, mask: 0x00ff, space: AddrSpace::Ram, mnemonic: Mnemonic::And, left: OperandSpec::Fixed(Reg::A), right: OperandSpec::Addr },
        39 => OpcodeEntry { opcode: 0x29, mask: 0x00ff, space: AddrSpace::Ram, mnemonic: Mnemonic::And, left: OperandSpec::Addr, right: OperandSpec::Fixed(Reg::A) },
        40 => OpcodeEntry { opcode: 0x2a, mask: 0x00ff, space: AddrSpace::Imm, mnemonic: Mnemonic::And, left: OperandSpec::Fixed(Reg::A), right: OperandSpec::Imm },
        41 => OpcodeEntry { opcode: 0x2b, mask: 0x00ff, space: AddrSpace::Ram, mnemonic: Mnemonic::Clr, left: OperandSpec::Addr, right: OperandSpec::Empty },
        42 => OpcodeEntry { opcode: 0x2c, mask: 0x00ff, space: AddrSpace::Ram, mnemonic: Mnemonic::Xch, left: OperandSpec::Fixed(Reg::A), right: OperandSpec::Addr },
        43 => OpcodeEntry { opcode: 0x2d, mask: 0x00ff, space: AddrSpace::Imm, mnemonic: Mnemonic::Mov, left: OperandSpec::Fixed(Reg::A), right: OperandSpec::Imm },
        44 => OpcodeEntry { opcode: 0x2e, mask: 0x00ff, space: AddrSpace::Zero, mnemonic: Mnemonic::B0mov, left: OperandSpec::Fixed(Reg::A), right: OperandSpec::Addr },
        45 => OpcodeEntry { opcode: 0x2f, mask: 0x00ff, space: AddrSpace::Ram, mnemonic: Mnemonic::B0mov, left: OperandSpec::Addr, right: OperandSpec::Fixed(Reg::A) },
        46 => OpcodeEntry { opcode: 0x32, mask: 0x00ff, space: AddrSpace::Imm, mnemonic: Mnemonic::B0mov, left: OperandSpec::Fixed(Reg::R), right: OperandSpec::Imm },
        47 => OpcodeEntry { opcode: 0x33, mask: 0x00ff, space: AddrSpace::Imm, mnemonic: Mnemonic::B0mov, left: OperandSpec::Fixed(Reg::Z), right: OperandSpec::Imm },
        48 => OpcodeEntry { opcode: 0x34, mask: 0x00ff, space: AddrSpace::Imm, mnemonic: Mnemonic::B0mov, left: OperandSpec::Fixed(Reg::Y), right: OperandSpec::Imm },
        49 => OpcodeEntry { opcode: 0x36, mask: 0x00ff, space: AddrSpace::Imm, mnemonic: Mnemonic::B0mov, left: OperandSpec::Fixed(Reg::Pflag), right: OperandSpec::Imm },
        50 => OpcodeEntry { opcode: 0x37, mask: 0x00ff, space: AddrSpace::Imm, mnemonic: Mnemonic::B0mov, left: OperandSpec::Fixed(Reg::Rbank), right: OperandSpec::Imm },
        51 => OpcodeEntry { opcode: 0x40, mask: 0x00ff, space: AddrSpace::Ram, mnemonic: Mnemonic::Bclr, left: OperandSpec::BitAddr, right: OperandSpec::Empty },
        52 => OpcodeEntry { opcode: 0x48, mask: 0x00ff, space: AddrSpace::Ram, mnemonic: Mnemonic::Bset, left: OperandSpec::BitAddr, right: OperandSpec::Empty },
        53 => OpcodeEntry { opcode: 0x50, mask: 0x00ff, space: AddrSpace::Ram, mnemonic: Mnemonic::Bts0, left: OperandSpec::BitAddr, right: OperandSpec::Empty },
        54 => OpcodeEntry { opcode: 0x58, mask: 0x00ff, space: AddrSpace::Ram, mnemonic: Mnemonic::Bts1, left: OperandSpec::BitAddr, right: OperandSpec::Empty },
        55 => OpcodeEntry { opcode: 0x60, mask: 0x00ff, space: AddrSpace::Zero, mnemonic: Mnemonic::B0bclr, left: OperandSpec::BitAddr, right: OperandSpec::Empty },
        56 => OpcodeEntry { opcode: 0x68, mask: 0x00ff, space: AddrSpace::Zero, mnemonic: Mnemonic::B0bset, left: OperandSpec::BitAddr, right: OperandSpec::Empty },
        57 => OpcodeEntry { opcode: 0x70, mask: 0x00ff, space: AddrSpace::Zero, mnemonic: Mnemonic::B0bts0, left: OperandSpec::BitAddr, right: OperandSpec::Empty },
        58 => OpcodeEntry { opcode: 0x78, mask: 0x00ff, space: AddrSpace::Zero, mnemonic: Mnemonic::B0bts1, left: OperandSpec::BitAddr, right: OperandSpec::Empty },
        59 => OpcodeEntry { opcode: 0x80, mask: 0x3fff, space: AddrSpace::Rom, mnemonic: Mnemonic::Jmp, left: OperandSpec::Addr, right: OperandSpec::Empty },
        _ => OpcodeEntry { opcode: 0xc0, mask: 0x3fff, space: AddrSpace::Rom, mnemonic: Mnemonic::Call, left: OperandSpec::Addr, right: OperandSpec::Empty },
    }
}

/// Entry `i` of the opcode table.
pub fn opcode_entry(i: usize) -> (r: OpcodeEntry)
    requires
        i < NUM_OPCODES,
    ensures
        r == spec_entry(i),
{
    match i {
        0 => OpcodeEntry { opcode: 0x00, mask: 0x0000, space: AddrSpace::Null, mnemonic: Mnemonic::Nop, left: OperandSpec::Empty, right: OperandSpec::Empty },
        1 => OpcodeEntry { opcode: 0x02, mask: 0x00ff, space: AddrSpace::Zero, mnemonic: Mnemonic::B0xch, left: OperandSpec::Fixed(Reg::A), right: OperandSpec::Addr },
        2 => OpcodeEntry { opcode: 0x03, mask: 0x00ff, space: AddrSpace::Zero, mnemonic: Mnemonic::B0add, left: OperandSpec::Addr, right: OperandSpec::Fixed(Reg::A) },
        3 => OpcodeEntry { opcode: 0x04, mask: 0x0000, space: AddrSpace::Null, mnemonic: Mnemonic::Push, left: OperandSpec::Empty, right: OperandSpec::Empty },
        4 => OpcodeEntry { opcode: 0x05, mask: 0x0000, space: AddrSpace::Null, mnemonic: Mnemonic::Pop, left: OperandSpec::Empty, right: OperandSpec::Empty },
        5 => OpcodeEntry { opcode: 0x06, mask: 0x00ff, space: AddrSpace::Imm, mnemonic: Mnemonic::Cmprs, left: OperandSpec::Fixed(Reg::A), right: OperandSpec::Imm },
        6 => OpcodeEntry { opcode: 0x07, mask: 0x00ff, space: AddrSpace::Ram, mnemonic: Mnemonic::Cmprs, left: OperandSpec::Fixed(Reg::A), right: OperandSpec::Addr },
        7 => OpcodeEntry { opcode: 0x08, mask: 0x00ff, space: AddrSpace::Ram, mnemonic: Mnemonic::Rrc, left: OperandSpec::Addr, right: OperandSpec::Empty },
        8 => OpcodeEntry { opcode: 0x09, mask: 0x00ff, space: AddrSpace::Ram, mnemonic: Mnemonic::Rrcm, left: OperandSpec::Addr, right: OperandSpec::Empty },
        9 => OpcodeEntry { opcode: 0x0a, mask: 0x00ff, space: AddrSpace::Ram, mnemonic: Mnemonic::Rlc, left: OperandSpec::Addr, right: OperandSpec::Empty },
        10 => OpcodeEntry { opcode: 0x0b, mask: 0x00ff, space: AddrSpace::Ram, mnemonic: Mnemonic::Rlcm, left: OperandSpec::Addr, right: OperandSpec::Empty },
        11 => OpcodeEntry { opcode: 0x0d, mask: 0x0000, space: AddrSpace::Null, mnemonic: Mnemonic::Movc, left: OperandSpec::Empty, right: OperandSpec::Empty },
        12 => OpcodeEntry { opcode: 0x0e, mask: 0x0000, space: AddrSpace::Null, mnemonic: Mnemonic::Ret, left: OperandSpec::Empty, right: OperandSpec::Empty },
        13 => OpcodeEntry { opcode: 0x0f, mask: 0x0000, space: AddrSpace::Null, mnemonic: Mnemonic::Reti, left: OperandSpec::Empty, right: OperandSpec::Empty },
        14 => OpcodeEntry { opcode: 0x10, mask: 0x00ff, space: AddrSpace::Ram, mnemonic: Mnemonic::Adc, left: OperandSpec::Fixed(Reg::A), right: OperandSpec::Addr },
        15 => OpcodeEntry { opcode: 0x11, mask: 0x00ff, space: AddrSpace::Ram, mnemonic: Mnemonic::Adc, left: OperandSpec::Addr, right: OperandSpec::Fixed(Reg::A) },
        16 => OpcodeEntry { opcode: 0x12, mask: 0x00ff, space: AddrSpace::Ram, mnemonic: Mnemonic::Add, left: OperandSpec::Fixed(Reg::A), right: OperandSpec::Addr },
        17 => OpcodeEntry { opcode: 0x13, mask: 0x00ff, space: AddrSpace::Ram, mnemonic: Mnemonic::Add, left: OperandSpec::Addr, right: OperandSpec::Fixed(Reg::A) },
        18 => OpcodeEntry { opcode: 0x14, mask: 0x00ff, space: AddrSpace::Imm, mnemonic: Mnemonic::Add, left: OperandSpec::Fixed(Reg::A), right: OperandSpec::Imm },
        19 => OpcodeEntry { opcode: 0x15, mask: 0x00ff, space: AddrSpace::Ram, mnemonic: Mnemonic::Incs, left: OperandSpec::Addr, right: OperandSpec::Empty },
        20 => OpcodeEntry { opcode: 0x16, mask: 0x00ff, space: AddrSpace::Ram, mnemonic: Mnemonic::Incms, left: OperandSpec::Addr, right: OperandSpec::Empty },
        21 => OpcodeEntry { opcode: 0x17, mask: 0x00ff, space: AddrSpace::Ram, mnemonic: Mnemonic::Swap, left: OperandSpec::Addr, right: OperandSpec::Empty },
        22 => OpcodeEntry { opcode: 0x18, mask: 0x00ff, space: AddrSpace::Ram, mnemonic: Mnemonic::Or, left: OperandSpec::Fixed(Reg::A), right: OperandSpec::Addr },
        23 => OpcodeEntry { opcode: 0x19, mask: 0x00ff, space: AddrSpace::Ram, mnemonic: Mnemonic::Or, left: OperandSpec::Addr, right: OperandSpec::Fixed(Reg::A) },
        24 => OpcodeEntry { opcode: 0x1a, mask: 0x00ff, space: AddrSpace::Imm, mnemonic: Mnemonic::Or, left: OperandSpec::Fixed(Reg::A), right: OperandSpec::Imm },
        25 => OpcodeEntry { opcode: 0x1b, mask: 0x00ff, space: AddrSpace::Ram, mnemonic: Mnemonic::Xor, left: OperandSpec::Fixed(Reg::A), right: OperandSpec::Addr },
        26 => OpcodeEntry { opcode: 0x1c, mask: 0x00ff, space: AddrSpace::Ram, mnemonic: Mnemonic::Xor, left: OperandSpec::Addr, right: OperandSpec::Fixed(Reg::A) },
        27 => OpcodeEntry { opcode: 0x1d, mask: 0x00ff, space: AddrSpace::Imm, mnemonic: Mnemonic::Xor, left: OperandSpec::Fixed(Reg::A), right: OperandSpec::Imm },
        28 => OpcodeEntry { opcode: 0x1e, mask: 0x00ff, space: AddrSpace::Ram, mnemonic: Mnemonic::Mov, left: OperandSpec::Fixed(Reg::A), right: OperandSpec::Addr },
        29 => OpcodeEntry { opcode: 0x1f, mask: 0x00ff, space: AddrSpace::Ram, mnemonic: Mnemonic::Mov, left: OperandSpec::Addr, right: OperandSpec::Fixed(Reg::A) },
        30 => OpcodeEntry { opcode: 0x20, mask: 0x00ff, space: AddrSpace::Ram, mnemonic: Mnemonic::Sbc, left: OperandSpec::Fixed(Reg::A), right: OperandSpec::Addr },
        31 => OpcodeEntry { opcode: 0x21, mask: 0x00ff, space: AddrSpace::Ram, mnemonic: Mnemonic::Sbc, left: OperandSpec::Addr, right: OperandSpec::Fixed(Reg::A) },
        32 => OpcodeEntry { opcode: 0x22, mask: 0x00ff, space: AddrSpace::Ram, mnemonic: Mnemonic::Sub, left: OperandSpec::Fixed(Reg::A), right: OperandSpec::Addr },
        33 => OpcodeEntry { opcode: 0x23, mask: 0x00ff, space: AddrSpace::Ram, mnemonic: Mnemonic::Sub, left: OperandSpec::Addr, right: OperandSpec::Fixed(Reg::A) },
        34 => OpcodeEntry { opcode: 0x24, mask: 0x00ff, space: AddrSpace::Imm, mnemonic: Mnemonic::Sub, left: OperandSpec::Fixed(Reg::A), right: OperandSpec::Imm },
        35 => OpcodeEntry { opcode: 0x25, mask: 0x00ff, space: AddrSpace::Ram, mnemonic: Mnemonic::Decs, left: OperandSpec::Addr, right: OperandSpec::Empty },
        36 => OpcodeEntry { opcode: 0x26, mask: 0x00ff, space: AddrSpace::Ram, mnemonic: Mnemonic::Decms, left: OperandSpec::Addr, right: OperandSpec::Empty },
        37 => OpcodeEntry { opcode: 0x27, mask: 0x00ff, space: AddrSpace::Ram, mnemonic: Mnemonic::Swapm, left: OperandSpec::Addr, right: OperandSpec::Empty },
        38 => OpcodeEntry { opcode: 0x28, mask: 0x00ff, space: AddrSpace::Ram, mnemonic: Mnemonic::And, left: OperandSpec::Fixed(Reg::A), right: OperandSpec::Addr },
        39 => OpcodeEntry { opcode: 0x29, mask: 0x00ff, space: AddrSpace::Ram, mnemonic: Mnemonic::And, left: OperandSpec::Addr, right: OperandSpec::Fixed(Reg::A) },
        40 => OpcodeEntry { opcode: 0x2a, mask: 0x00ff, space: AddrSpace::Imm, mnemonic: Mnemonic::And, left: OperandSpec::Fixed(Reg::A), right: OperandSpec::Imm },
        41 => OpcodeEntry { opcode: 0x2b, mask: 0x00ff, space: AddrSpace::Ram, mnemonic: Mnemonic::Clr, left: OperandSpec::Addr, right: OperandSpec::Empty },
        42 => OpcodeEntry { opcode: 0x2c, mask: 0x00ff, space: AddrSpace::Ram, mnemonic: Mnemonic::Xch, left: OperandSpec::Fixed(Reg::A), right: OperandSpec::Addr },
        43 => OpcodeEntry { opcode: 0x2d, mask: 0x00ff, space: AddrSpace::Imm, mnemonic: Mnemonic::Mov, left: OperandSpec::Fixed(Reg::A), right: OperandSpec::Imm },
        44 => OpcodeEntry { opcode: 0x2e, mask: 0x00ff, space: AddrSpace::Zero, mnemonic: Mnemonic::B0mov, left: OperandSpec::Fixed(Reg::A), right: OperandSpec::Addr },
        45 => OpcodeEntry { opcode: 0x2f, mask: 0x00ff, space: AddrSpace::Ram, mnemonic: Mnemonic::B0mov, left: OperandSpec::Addr, right: OperandSpec::Fixed(Reg::A) },
        46 => OpcodeEntry { opcode: 0x32, mask: 0x00ff, space: AddrSpace::Imm, mnemonic: Mnemonic::B0mov, left: OperandSpec::Fixed(Reg::R), right: OperandSpec::Imm },
        47 => OpcodeEntry { opcode: 0x33, mask: 0x00ff, space: AddrSpace::Imm, mnemonic: Mnemonic::B0mov, left: OperandSpec::Fixed(Reg::Z), right: OperandSpec::Imm },
        48 => OpcodeEntry { opcode: 0x34, mask: 0x00ff, space: AddrSpace::Imm, mnemonic: Mnemonic::B0mov, left: OperandSpec::Fixed(Reg::Y), right: OperandSpec::Imm },
        49 => OpcodeEntry { opcode: 0x36, mask: 0x00ff, space: AddrSpace::Imm, mnemonic: Mnemonic::B0mov, left: OperandSpec::Fixed(Reg::Pflag), right: OperandSpec::Imm },
        50 => OpcodeEntry { opcode: 0x37, mask: 0x00ff, space: AddrSpace::Imm, mnemonic: Mnemonic::B0mov, left: OperandSpec::Fixed(Reg::Rbank), right: OperandSpec::Imm },
        51 => OpcodeEntry { opcode: 0x40, mask: 0x00ff, space: AddrSpace::Ram, mnemonic: Mnemonic::Bclr, left: OperandSpec::BitAddr, right: OperandSpec::Empty },
        52 => OpcodeEntry { opcode: 0x48, mask: 0x00ff, space: AddrSpace::Ram, mnemonic: Mnemonic::Bset, left: OperandSpec::BitAddr, right: OperandSpec::Empty },
        53 => OpcodeEntry { opcode: 0x50, mask: 0x00ff, space: AddrSpace::Ram, mnemonic: Mnemonic::Bts0, left: OperandSpec::BitAddr, right: OperandSpec::Empty },
        54 => OpcodeEntry { opcode: 0x58, mask: 0x00ff, space: AddrSpace::Ram, mnemonic: Mnemonic::Bts1, left: OperandSpec::BitAddr, right: OperandSpec::Empty },
        55 => OpcodeEntry { opcode: 0x60, mask: 0x00ff, space: AddrSpace::Zero, mnemonic: Mnemonic::B0bclr, left: OperandSpec::BitAddr, right: OperandSpec::Empty },
        56 => OpcodeEntry { opcode: 0x68, mask: 0x00ff, space: AddrSpace::Zero, mnemonic: Mnemonic::B0bset, left: OperandSpec::BitAddr, right: OperandSpec::Empty },
        57 => OpcodeEntry { opcode: 0x70, mask: 0x00ff, space: AddrSpace::Zero, mnemonic: Mnemonic::B0bts0, left: OperandSpec::BitAddr, right: OperandSpec::Empty },
        58 => OpcodeEntry { opcode: 0x78, mask: 0x00ff, space: AddrSpace::Zero, mnemonic: Mnemonic::B0bts1, left: OperandSpec::BitAddr, right: OperandSpec::Empty },
        59 => OpcodeEntry { opcode: 0x80, mask: 0x3fff, space: AddrSpace::Rom, mnemonic: Mnemonic::Jmp, left: OperandSpec::Addr, right: OperandSpec::Empty },
        _ => OpcodeEntry { opcode: 0xc0, mask: 0x3fff, space: AddrSpace::Rom, mnemonic: Mnemonic::Call, left: OperandSpec::Addr, right: OperandSpec::Empty },
    }
}

} // verus!
