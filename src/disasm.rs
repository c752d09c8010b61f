//! The disassembler: ROM bytes to SN8 assembly text. It never fails; a word whose
//! derived key has no table entry is rendered as a `DW` line.
use vstd::prelude::*;
use crate::isa::{
    mnemonic_chars, mnemonic_text, opcode_entry, reg_chars, reg_text, spec_entry, AddrSpace,
    Mnemonic, OpcodeEntry, OperandSpec, NUM_OPCODES,
};
use crate::assembler::{entry_word, EvalOperand};
use crate::text::{dec_digit, hex_fixed, push_char, push_hex, push_str};

verus! {

/// The table key derived from an instruction's high byte: jumps and calls keep the
/// top two bits, bit operations the top five, everything else the whole byte.
pub open spec fn opcode_key(bincode: u8) -> u8 {
    if bincode >= 0x80 {
        bincode & 0xC0
    } else if bincode >= 0x40 {
        bincode & 0xF8
    } else {
        bincode
    }
}

/// Index of the first table entry at or after `i` whose opcode is `key`.
pub open spec fn find_key_from(key: u8, i: nat) -> Option<usize>
    decreases NUM_OPCODES - i,
{
    if i >= NUM_OPCODES {
        None
    } else if spec_entry(i as usize).opcode == key {
        Some(i as usize)
    } else {
        find_key_from(key, i + 1)
    }
}

/// The table entry that decodes `key`, if any.
pub open spec fn decode_entry(key: u8) -> Option<OpcodeEntry> {
    match find_key_from(key, 0) {
        Some(i) => Some(spec_entry(i)),
        None => None,
    }
}

/// A byte as a printable ASCII character, or `.`.
pub open spec fn printable(b: u8) -> char {
    if 0x20 <= b <= 0x7e {
        b as char
    } else {
        '.'
    }
}

/// Text of the dynamic operand of `e` in instruction `instr` at `address`.
pub open spec fn operand_symbol(address: u16, instr: u16, e: OpcodeEntry) -> Seq<char> {
    let bincode = (instr >> 8u16) as u8;
    let raw = instr & e.mask;
    if e.space == AddrSpace::Rom && e.mnemonic == Mnemonic::Jmp && (raw & 0x3fff) as int == (
    address as int + 1) % 0x10000 {
        seq!['$', '+', '1']
    } else {
        match e.space {
            AddrSpace::Rom => seq!['0', 'x'] + hex_fixed(raw as nat, 4),
            AddrSpace::Imm => seq!['#', '0', 'x'] + hex_fixed((raw & 0xff) as nat, 2),
            _ => seq!['0', 'x'] + hex_fixed((raw & 0xff) as nat, 2) + if 0x40 <= bincode < 0x80 {
                seq!['.', dec_digit((bincode & 7) as nat)]
            } else {
                Seq::empty()
            },
        }
    }
}

/// Text of one operand slot, if it prints anything.
pub open spec fn slot_text(s: OperandSpec, sym: Seq<char>) -> Option<Seq<char>> {
    match s {
        OperandSpec::Empty => None,
        OperandSpec::Fixed(r) => Some(reg_text(r)),
        _ => Some(sym),
    }
}

/// The operand list of `e` (a tab, then the printed slots joined by `, `), or nothing.
pub open spec fn operands_suffix(e: OpcodeEntry, sym: Seq<char>) -> Seq<char> {
    match (slot_text(e.left, sym), slot_text(e.right, sym)) {
        (Some(a), Some(b)) => seq!['\t'] + a + seq![',', ' '] + b,
        (Some(a), None) => seq!['\t'] + a,
        (None, Some(b)) => seq!['\t'] + b,
        (None, None) => Seq::empty(),
    }
}

/// Text of one disassembled instruction word (without its `ORG` line).
pub open spec fn disasm_line(address: u16, instr: u16) -> Seq<char> {
    let bincode = (instr >> 8u16) as u8;
    match decode_entry(opcode_key(bincode)) {
        None => seq!['D', 'W', '\t', '0', 'x'] + hex_fixed(instr as nat, 4) + seq![
            '\t',
            ';',
            ' ',
            printable(bincode),
            printable((instr & 0xff) as u8),
        ],
        Some(e) => if e.space == AddrSpace::Null {
            mnemonic_text(e.mnemonic)
        } else {
            mnemonic_text(e.mnemonic) + operands_suffix(e, operand_symbol(address, instr, e))
        },
    }
}

/// The little-endian word at word index `i` of `rom`.
pub open spec fn word_at(rom: Seq<u8>, i: int) -> u16 {
    (rom[2 * i] as u16 | ((rom[2 * i + 1] as u16) << 8u16)) as u16
}

/// The listing of the first `n` words: each preceded by its own `ORG` line.
pub open spec fn disasm_text(rom: Seq<u8>, n: nat) -> Seq<char>
    decreases n,
{
    if n == 0 {
        Seq::empty()
    } else {
        let i = n - 1;
        let addr = (i % 0x10000) as u16;
        disasm_text(rom, (n - 1) as nat) + seq!['O', 'R', 'G', ' ', '0', 'x'] + hex_fixed(
            addr as nat,
            4,
        ) + seq!['\n', '\t'] + disasm_line(addr, word_at(rom, i)) + seq!['\n']
    }
}

fn find_opcode(opcode_key: u8) -> (r: Option<OpcodeEntry>)
    ensures
        r == decode_entry(opcode_key),
{
    let mut i: usize = 0;
    while i < NUM_OPCODES
        invariant
            i <= NUM_OPCODES,
            find_key_from(opcode_key, 0) == find_key_from(opcode_key, i as nat),
        decreases NUM_OPCODES - i,
    {
        let e = opcode_entry(i);
        if e.opcode == opcode_key {
            return Some(e);
        }
        i = i + 1;
    }
    None
}

fn as_printable(byte: u8) -> (c: char)
    ensures
        c == printable(byte),
{
    if 0x20 <= byte && byte <= 0x7e {
        byte as char
    } else {
        '.'
    }
}

/// Appends all of `cs`.
fn push_chars(s: &mut String, cs: &[char])
    ensures
        final(s)@ == old(s)@ + cs@,
{
    let mut i: usize = 0;
    while i < cs.len()
        invariant
            i <= cs@.len(),
            s@ == old(s)@ + cs@.subrange(0, i as int),
        decreases cs@.len() - i,
    {
        push_char(s, cs[i]);
        i = i + 1;
    }
    assert(cs@.subrange(0, cs@.len() as int) =~= cs@);
}

fn symbol_of(address: u16, instruction: u16, e: OpcodeEntry) -> (r: String)
    ensures
        r@ == operand_symbol(address, instruction, e),
{
    let bincode: u8 = (instruction >> 8) as u8;
    let raw: u16 = instruction & e.mask;
    let next: u16 = if address == 0xffff {
        0
    } else {
        address + 1
    };
    let mut s = String::new();
    if e.space == AddrSpace::Rom && e.mnemonic == Mnemonic::Jmp && (raw & 0x3fff) == next {
        push_char(&mut s, '$');
        push_char(&mut s, '+');
        push_char(&mut s, '1');
        assert(s@ =~= seq!['$', '+', '1']);
        return s;
    }
    match e.space {
        AddrSpace::Rom => {
            push_char(&mut s, '0');
            push_char(&mut s, 'x');
            push_hex(&mut s, raw as u32, 4);
        },
        AddrSpace::Imm => {
            push_char(&mut s, '#');
            push_char(&mut s, '0');
            push_char(&mut s, 'x');
            push_hex(&mut s, (raw & 0xff) as u32, 2);
        },
        _ => {
            push_char(&mut s, '0');
            push_char(&mut s, 'x');
            push_hex(&mut s, (raw & 0xff) as u32, 2);
            if 0x40 <= bincode && bincode < 0x80 {
                assert(bincode & 7 <= 7) by (bit_vector);
                push_char(&mut s, '.');
                push_char(&mut s, (((bincode & 7) + 48) as u8) as char);
            }
        },
    }
    assert(s@ =~= operand_symbol(address, instruction, e));
    s
}

fn push_operands(s: &mut String, e: OpcodeEntry, sym: &str)
    ensures
        final(s)@ == old(s)@ + operands_suffix(e, sym@),
{
    let mut first = true;
    match e.left {
        OperandSpec::Empty => {},
        OperandSpec::Fixed(reg) => {
            push_char(s, '\t');
            let rc = reg_chars(reg);
            push_chars(s, rc.as_slice());
            first = false;
        },
        _ => {
            push_char(s, '\t');
            push_str(s, sym);
            first = false;
        },
    }
    match e.right {
        OperandSpec::Empty => {},
        OperandSpec::Fixed(reg) => {
            if first {
                push_char(s, '\t');
            } else {
                push_char(s, ',');
                push_char(s, ' ');
            }
            let rc = reg_chars(reg);
            push_chars(s, rc.as_slice());
        },
        _ => {
            if first {
                push_char(s, '\t');
            } else {
                push_char(s, ',');
                push_char(s, ' ');
            }
            push_str(s, sym);
        },
    }
    assert(s@ =~= old(s)@ + operands_suffix(e, sym@));
}

fn derive_key(bincode: u8) -> (k: u8)
    ensures
        k == opcode_key(bincode),
{
    if bincode >= 0x80 {
        bincode & 0xC0
    } else if bincode >= 0x40 {
        bincode & 0xF8
    } else {
        bincode
    }
}

/// Disassemble one 16-bit word at a given address.
pub fn disassemble_word(address: u16, instruction: u16) -> (r: String)
    ensures
        r@ == disasm_line(address, instruction),
{
    let bincode: u8 = (instruction >> 8) as u8;
    let key: u8 = derive_key(bincode);
    let mut s = String::new();
    match find_opcode(key) {
        None => {
            push_char(&mut s, 'D');
            push_char(&mut s, 'W');
            push_char(&mut s, '\t');
            push_char(&mut s, '0');
            push_char(&mut s, 'x');
            push_hex(&mut s, instruction as u32, 4);
            push_char(&mut s, '\t');
            push_char(&mut s, ';');
            push_char(&mut s, ' ');
            push_char(&mut s, as_printable(bincode));
            push_char(&mut s, as_printable((instruction & 0xff) as u8));
            assert(s@ =~= disasm_line(address, instruction));
            s
        },
        Some(e) => {
            let m = mnemonic_chars(e.mnemonic);
            push_chars(&mut s, m.as_slice());
            if e.space == AddrSpace::Null {
                return s;
            }
            let sym = symbol_of(address, instruction, e);
            push_operands(&mut s, e, sym.as_str());
            s
        },
    }
}

/// Disassemble a whole firmware image of little-endian words, each line preceded by
/// its own `ORG` line.
pub fn disassemble_sn8(rom: &[u8]) -> (r: String)
    ensures
        r@ == disasm_text(rom@, rom@.len() / 2),
{
    let mut out = String::new();
    let n = rom.len() / 2;
    let mut i: usize = 0;
    let mut j: usize = 0;
    while i < n
        invariant
            i <= n,
            j == 2 * i,
            n == rom@.len() / 2,
            out@ == disasm_text(rom@, i as nat),
        decreases n - i,
    {
        let instr: u16 = (rom[j] as u16 | ((rom[j + 1] as u16) << 8)) as u16;
        let addr: u16 = (i % 0x10000) as u16;
        let line = disassemble_word(addr, instr);
        push_char(&mut out, 'O');
        push_char(&mut out, 'R');
        push_char(&mut out, 'G');
        push_char(&mut out, ' ');
        push_char(&mut out, '0');
        push_char(&mut out, 'x');
        push_hex(&mut out, addr as u32, 4);
        push_char(&mut out, '\n');
        push_char(&mut out, '\t');
        push_str(&mut out, line.as_str());
        push_char(&mut out, '\n');
        i = i + 1;
        j = j + 2;
        assert(out@ =~= disasm_text(rom@, i as nat));
    }
    out
}

/// Opcodes strictly increase along the table, and each entry's mask fits its range:
/// none or a byte below 0x80, fourteen bits at 0x80 and 0xC0; bit operations keep the
/// low three bits of their opcode free.
proof fn lemma_table_shape(i: usize)
    requires
        i < NUM_OPCODES,
    ensures
        i + 1 < NUM_OPCODES ==> spec_entry(i).opcode < spec_entry((i + 1) as usize).opcode,
        spec_entry(i).mask == 0 || (spec_entry(i).mask == 0xff && spec_entry(i).opcode < 0x80) || (
        spec_entry(i).mask == 0x3fff && (spec_entry(i).opcode == 0x80 || spec_entry(i).opcode
            == 0xc0)),
        0x40 <= spec_entry(i).opcode < 0x80 ==> spec_entry(i).opcode & 7 == 0,
        spec_entry(i).opcode >= 0x80 ==> spec_entry(i).opcode & 0x3f == 0,
{
    assert(0x40u8 & 7 == 0 && 0x48u8 & 7 == 0 && 0x50u8 & 7 == 0 && 0x58u8 & 7 == 0 && 0x60u8 & 7
        == 0 && 0x68u8 & 7 == 0 && 0x70u8 & 7 == 0 && 0x78u8 & 7 == 0) by (bit_vector);
    assert(0x80u8 & 0x3f == 0 && 0xc0u8 & 0x3f == 0) by (bit_vector);
}

proof fn lemma_opcode_below(i: usize, j: usize)
    requires
        i < j < NUM_OPCODES,
    ensures
        spec_entry(i).opcode < spec_entry(j).opcode,
    decreases j - i,
{
    lemma_table_shape(i);
    if i + 1 < j {
        lemma_opcode_below((i + 1) as usize, j);
    }
}

proof fn lemma_find_key(k: u8, m: nat, i: usize)
    requires
        m <= i < NUM_OPCODES,
        spec_entry(i).opcode == k,
    ensures
        find_key_from(k, m) == Some(i),
    decreases i - m,
{
    if m < i {
        lemma_opcode_below(m as usize, i);
        lemma_find_key(k, m + 1, i);
    }
}

/// Key facts of one high byte: a byte below 0x40 is its own key; a bit-operation byte
/// keeps its top five bits; a jump or call byte keeps its top two.
proof fn lemma_key_of(hb: u8, op: u8)
    requires
        (op < 0x40 && hb == op) || (0x40 <= op < 0x80 && 0x40 <= hb < 0x80 && hb & 0xF8 == op) || (
        op >= 0x80 && hb >= 0x80 && hb & 0xC0 == op),
    ensures
        opcode_key(hb) == op,
{
}

/// Decoding half of the disassembly round trip: a word that the assembler encodes with
/// table entry `i` is decoded by the disassembler with that same entry, provided a bit
/// index stands only in a bit operation or a jump and is at most 7.
pub proof fn lemma_decode_finds_encoding_entry(i: usize, l: EvalOperand, r: EvalOperand, w: u16)
    requires
        i < NUM_OPCODES,
        entry_word(spec_entry(i), l, r) == Ok::<u16, crate::assembler::CandidateError>(w),
        l matches EvalOperand::BitAddr { bit, .. } ==> bit <= 7 && spec_entry(i).opcode >= 0x40,
        r matches EvalOperand::BitAddr { bit, .. } ==> bit <= 7 && spec_entry(i).opcode >= 0x40,
    ensures
        decode_entry(opcode_key((w >> 8u16) as u8)) == Some(spec_entry(i)),
{
    let e = spec_entry(i);
    lemma_table_shape(i);
    let op = e.opcode;
    let mask = e.mask;
    let hb = (w >> 8u16) as u8;
    let src = if !(e.left is Fixed) && l != EvalOperand::Empty {
        Some(l)
    } else if !(e.right is Fixed) && r != EvalOperand::Empty {
        Some(r)
    } else {
        None
    };
    match src {
        Some(EvalOperand::BitAddr { addr, bit }) => {
            assert(w == ((((op as u16) << 8u16) as u16) | ((bit as u16) << 8u16) | (addr & mask))
                as u16);
            if mask == 0xff {
                assert(op & 7 == 0 && 0x40 <= op < 0x80 && bit <= 7 && w == ((((op as u16)
                    << 8u16) as u16) | ((bit as u16) << 8u16) | (addr & 0xffu16)) as u16 ==> (
                0x40 <= ((w >> 8u16) as u8) < 0x80 && ((w >> 8u16) as u8) & 0xF8u8 == op))
                    by (bit_vector);
            } else if mask == 0x3fff {
                assert(op >= 0x80 && op & 0x3f == 0 && bit <= 7 && w == ((((op as u16) << 8u16)
                    as u16) | ((bit as u16) << 8u16) | (addr & 0x3fffu16)) as u16 ==> (((w
                    >> 8u16) as u8) >= 0x80 && ((w >> 8u16) as u8) & 0xC0u8 == op))
                    by (bit_vector);
            } else {
                assert(op & 7 == 0 && op < 0x80 && bit <= 7 && w == ((((op as u16) << 8u16) as u16)
                    | ((bit as u16) << 8u16) | (addr & 0u16)) as u16 ==> (0x40 <= op ==> (0x40
                    <= ((w >> 8u16) as u8) < 0x80 && ((w >> 8u16) as u8) & 0xF8u8 == op)))
                    by (bit_vector);
            }
        },
        Some(EvalOperand::Address(v)) | Some(EvalOperand::Imm(v)) => {
            assert(w == ((((op as u16) << 8u16) as u16) | (v & mask)) as u16);
            if mask == 0xff {
                assert(w == ((((op as u16) << 8u16) as u16) | (v & 0xffu16)) as u16 && op < 0x80
                    ==> ((w >> 8u16) as u8) == op) by (bit_vector);
                assert(op & 7 == 0 && ((w >> 8u16) as u8) == op ==> ((w >> 8u16) as u8) & 0xF8u8
                    == op) by (bit_vector);
            } else if mask == 0x3fff {
                assert(op >= 0x80 && op & 0x3f == 0 && w == ((((op as u16) << 8u16) as u16) | (v
                    & 0x3fffu16)) as u16 ==> (((w >> 8u16) as u8) >= 0x80 && ((w >> 8u16) as u8)
                    & 0xC0u8 == op)) by (bit_vector);
            } else {
                assert(w == ((((op as u16) << 8u16) as u16) | (v & 0u16)) as u16 ==> ((w >> 8u16)
                    as u8) == op) by (bit_vector);
                assert(op & 7 == 0 && ((w >> 8u16) as u8) == op ==> ((w >> 8u16) as u8) & 0xF8u8
                    == op) by (bit_vector);
            }
        },
        _ => {
            assert(w == (((op as u16) << 8u16) as u16));
            assert(w == (((op as u16) << 8u16) as u16) ==> ((w >> 8u16) as u8) == op)
                by (bit_vector);
            assert(op & 7 == 0 && ((w >> 8u16) as u8) == op ==> ((w >> 8u16) as u8) & 0xF8u8
                == op) by (bit_vector);
            assert(op & 0x3f == 0 && ((w >> 8u16) as u8) == op ==> ((w >> 8u16) as u8) & 0xC0u8
                == op) by (bit_vector);
        },
    }
    lemma_key_of(hb, op);
    lemma_find_key(op, 0, i);
}

} // verus!
