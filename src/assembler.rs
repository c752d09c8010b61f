//! The two-pass assembler: a label pass that parses every line and assigns addresses,
//! then an encoding pass that resolves symbols, picks an opcode entry by operand shape
//! and writes a 0x3000-word ROM image.
use vstd::prelude::*;
use crate::parser::{
    data_view, expr_view, kind_view, parse_line, spec_parse_line, DataExpr, DataExprView, LineKind,
    LineKindView, OperandExpr, OperandExprView, ParseError, ParseErrorView,
};
use crate::isa::{
    mnemonic_chars, mnemonic_text, opcode_entry, reg_chars, reg_text, spec_entry, Mnemonic,
    OpcodeEntry, OperandSpec, Reg, NUM_OPCODES,
};
use crate::text::{
    chars_eq, chars_of, dec_text, hex_fixed, lines_of, push_dec, push_hex, push_str, split_lines,
    string_of, views,
};

verus! {

/// Number of words in the ROM image.
pub const ROM_WORDS: usize = 0x3000;

/// An operand after symbol resolution.
#[derive(Clone, Copy, Debug, PartialEq, Eq, Structural)]
pub enum EvalOperand {
    Empty,
    Reg(Reg),
    Address(u16),
    Imm(u16),
    BitAddr { addr: u16, bit: u8 },
}

/// What made the last shape-matching candidate fail.
#[derive(Clone, Copy, Debug, PartialEq, Eq, Structural)]
pub enum CandidateError {
    NoneTried,
    TooLarge(Mnemonic, u16),
    Unsupported(Mnemonic),
}

/// Why a line could not be assembled.
#[derive(Debug)]
pub enum AsmErrorKind {
    Parse(ParseError),
    DuplicateLabel(Vec<char>),
    OrgOutOfRange(u32),
    DwOverflow,
    InstructionOverflow,
    UndefinedDataSymbol(Vec<char>),
    DataTooLarge(u32),
    UnknownInstruction(Vec<char>),
    NumericOperandTooLarge(u32),
    UndefinedSymbol(Vec<char>),
    ImmediateNotNumeric(EvalOperand),
    BitBaseNotNumeric(EvalOperand),
    OperandTooLarge { mnemonic: Mnemonic, value: u16 },
    UnsupportedOperand(Mnemonic),
    NoSuitableOpcode { name: Vec<char>, left: EvalOperand, right: EvalOperand },
}

/// The mathematical content of an `AsmErrorKind`.
pub enum AsmErrorKindView {
    Parse(ParseErrorView),
    DuplicateLabel(Seq<char>),
    OrgOutOfRange(u32),
    DwOverflow,
    InstructionOverflow,
    UndefinedDataSymbol(Seq<char>),
    DataTooLarge(u32),
    UnknownInstruction(Seq<char>),
    NumericOperandTooLarge(u32),
    UndefinedSymbol(Seq<char>),
    ImmediateNotNumeric(EvalOperand),
    BitBaseNotNumeric(EvalOperand),
    OperandTooLarge(Mnemonic, u16),
    UnsupportedOperand(Mnemonic),
    NoSuitableOpcode(Seq<char>, EvalOperand, EvalOperand),
}

impl View for AsmErrorKind {
    type V = AsmErrorKindView;

    open spec fn view(&self) -> AsmErrorKindView {
        match self {
            AsmErrorKind::Parse(p) => AsmErrorKindView::Parse(p@),
            AsmErrorKind::DuplicateLabel(l) => AsmErrorKindView::DuplicateLabel(l@),
            AsmErrorKind::OrgOutOfRange(v) => AsmErrorKindView::OrgOutOfRange(*v),
            AsmErrorKind::DwOverflow => AsmErrorKindView::DwOverflow,
            AsmErrorKind::InstructionOverflow => AsmErrorKindView::InstructionOverflow,
            AsmErrorKind::UndefinedDataSymbol(n) => AsmErrorKindView::UndefinedDataSymbol(n@),
            AsmErrorKind::DataTooLarge(v) => AsmErrorKindView::DataTooLarge(*v),
            AsmErrorKind::UnknownInstruction(m) => AsmErrorKindView::UnknownInstruction(m@),
            AsmErrorKind::NumericOperandTooLarge(v) => AsmErrorKindView::NumericOperandTooLarge(*v),
            AsmErrorKind::UndefinedSymbol(n) => AsmErrorKindView::UndefinedSymbol(n@),
            AsmErrorKind::ImmediateNotNumeric(o) => AsmErrorKindView::ImmediateNotNumeric(*o),
            AsmErrorKind::BitBaseNotNumeric(o) => AsmErrorKindView::BitBaseNotNumeric(*o),
            AsmErrorKind::OperandTooLarge { mnemonic, value } => AsmErrorKindView::OperandTooLarge(
                *mnemonic,
                *value,
            ),
            AsmErrorKind::UnsupportedOperand(m) => AsmErrorKindView::UnsupportedOperand(*m),
            AsmErrorKind::NoSuitableOpcode { name, left, right } =>
                AsmErrorKindView::NoSuitableOpcode(name@, *left, *right),
        }
    }
}

/// An assembly failure: the 1-based line and what went wrong there.
#[derive(Debug)]
pub struct AsmError {
    pub line: usize,
    pub kind: AsmErrorKind,
}

/// The mathematical content of an `AsmError`.
pub struct AsmErrorView {
    pub line: nat,
    pub kind: AsmErrorKindView,
}

impl View for AsmError {
    type V = AsmErrorView;

    open spec fn view(&self) -> AsmErrorView {
        AsmErrorView { line: self.line as nat, kind: self.kind@ }
    }
}

/// The register a name denotes, if any.
pub open spec fn reg_of(s: Seq<char>) -> Option<Reg> {
    if s == reg_text(Reg::A) {
        Some(Reg::A)
    } else if s == reg_text(Reg::R) {
        Some(Reg::R)
    } else if s == reg_text(Reg::Z) {
        Some(Reg::Z)
    } else if s == reg_text(Reg::Y) {
        Some(Reg::Y)
    } else if s == reg_text(Reg::Pflag) {
        Some(Reg::Pflag)
    } else if s == reg_text(Reg::Rbank) {
        Some(Reg::Rbank)
    } else {
        None
    }
}

/// The views of a label table.
pub open spec fn labels_view(t: Seq<(Vec<char>, u16)>) -> Seq<(Seq<char>, u16)> {
    t.map_values(|p: (Vec<char>, u16)| (p.0@, p.1))
}

/// The address of the first label at or after `k` named `name`.
pub open spec fn lookup_label(t: Seq<(Seq<char>, u16)>, name: Seq<char>, k: nat) -> Option<u16>
    decreases t.len() - k,
{
    if k >= t.len() {
        None
    } else if t[k as int].0 == name {
        Some(t[k as int].1)
    } else {
        lookup_label(t, name, k + 1)
    }
}

/// Symbol resolution of an operand expression.
pub open spec fn spec_eval(e: OperandExprView, t: Seq<(Seq<char>, u16)>) -> Result<
    EvalOperand,
    AsmErrorKindView,
>
    decreases e,
{
    match e {
        OperandExprView::Empty => Ok(EvalOperand::Empty),
        OperandExprView::Number(v) => if v > 0xffff {
            Err(AsmErrorKindView::NumericOperandTooLarge(v))
        } else {
            Ok(EvalOperand::Address(v as u16))
        },
        OperandExprView::Symbol(n) => match reg_of(n) {
            Some(r) => Ok(EvalOperand::Reg(r)),
            None => match lookup_label(t, n, 0) {
                Some(a) => Ok(EvalOperand::Address(a)),
                None => Err(AsmErrorKindView::UndefinedSymbol(n)),
            },
        },
        OperandExprView::Immediate(inner) => match spec_eval(*inner, t) {
            Err(x) => Err(x),
            Ok(EvalOperand::Address(a)) => Ok(EvalOperand::Imm(a)),
            Ok(EvalOperand::Imm(a)) => Ok(EvalOperand::Imm(a)),
            Ok(o) => Err(AsmErrorKindView::ImmediateNotNumeric(o)),
        },
        OperandExprView::BitAddr(base, bit) => match spec_eval(*base, t) {
            Err(x) => Err(x),
            Ok(EvalOperand::Address(a)) => Ok(EvalOperand::BitAddr { addr: a, bit }),
            Ok(o) => Err(AsmErrorKindView::BitBaseNotNumeric(o)),
        },
    }
}

/// Whether an evaluated operand has the shape an operand slot asks for.
pub open spec fn spec_matches(s: OperandSpec, op: EvalOperand) -> bool {
    match s {
        OperandSpec::Empty => op == EvalOperand::Empty,
        OperandSpec::Fixed(r) => op == EvalOperand::Reg(r),
        OperandSpec::Addr => op is Address || op is BitAddr,
        OperandSpec::Imm => op is Imm,
        OperandSpec::BitAddr => op is BitAddr,
    }
}

/// The encoding of a shape-matching entry: the opcode's high byte, OR the operand value
/// (which must fit the mask exactly), OR a bit index above the low byte.
pub open spec fn entry_word(e: OpcodeEntry, l: EvalOperand, r: EvalOperand) -> Result<
    u16,
    CandidateError,
> {
    let base = ((e.opcode as u16) << 8u16) as u16;
    let src = if !(e.left is Fixed) && l != EvalOperand::Empty {
        Some(l)
    } else if !(e.right is Fixed) && r != EvalOperand::Empty {
        Some(r)
    } else {
        None
    };
    match src {
        None => Ok(base),
        Some(EvalOperand::BitAddr { addr, bit }) => if addr & e.mask != addr {
            Err(CandidateError::TooLarge(e.mnemonic, addr))
        } else {
            Ok((base | ((bit as u16) << 8u16) | (addr & e.mask)) as u16)
        },
        Some(EvalOperand::Address(v)) => if v & e.mask != v {
            Err(CandidateError::TooLarge(e.mnemonic, v))
        } else {
            Ok((base | (v & e.mask)) as u16)
        },
        Some(EvalOperand::Imm(v)) => if v & e.mask != v {
            Err(CandidateError::TooLarge(e.mnemonic, v))
        } else {
            Ok((base | (v & e.mask)) as u16)
        },
        Some(_) => Err(CandidateError::Unsupported(e.mnemonic)),
    }
}

/// An operand value that does not fit its entry's mask is never truncated into a word:
/// the candidate fails with the entry's mnemonic and the full value.
pub proof fn lemma_operand_never_truncated(e: OpcodeEntry, l: EvalOperand, r: EvalOperand, v: u16)
    requires
        !(e.left is Fixed) && l != EvalOperand::Empty && (l == EvalOperand::Address(v) || l
            == EvalOperand::Imm(v) || (l is BitAddr && l->addr == v)),
        v & e.mask != v,
    ensures
        entry_word(e, l, r) == Err::<u16, CandidateError>(CandidateError::TooLarge(e.mnemonic, v)),
{
}

/// The first entry at or after `i` named `m` whose shapes match and whose operand
/// fits; otherwise the failure of the last shape-matching one.
pub open spec fn select_from(
    m: Seq<char>,
    l: EvalOperand,
    r: EvalOperand,
    i: nat,
    last: CandidateError,
) -> Result<u16, CandidateError>
    decreases NUM_OPCODES - i,
{
    if i >= NUM_OPCODES {
        Err(last)
    } else {
        let e = spec_entry(i as usize);
        if mnemonic_text(e.mnemonic) != m || !spec_matches(e.left, l) || !spec_matches(
            e.right,
            r,
        ) {
            select_from(m, l, r, i + 1, last)
        } else {
            match entry_word(e, l, r) {
                Ok(w) => Ok(w),
                Err(x) => select_from(m, l, r, i + 1, x),
            }
        }
    }
}

/// Whether entry `j` is named `m` and has the shapes of `l` and `r`.
pub open spec fn shape_matches(j: usize, m: Seq<char>, l: EvalOperand, r: EvalOperand) -> bool {
    let e = spec_entry(j);
    mnemonic_text(e.mnemonic) == m && spec_matches(e.left, l) && spec_matches(e.right, r)
}

/// When every entry from `i` on that matches the shapes fails with a too-large operand,
/// the search ends in a too-large failure, provided one has already failed so or some
/// entry from `i` on matches.
proof fn lemma_select_too_large(
    m: Seq<char>,
    l: EvalOperand,
    r: EvalOperand,
    i: nat,
    last: CandidateError,
)
    requires
        forall|j: usize|
            i <= j < NUM_OPCODES && #[trigger] shape_matches(j, m, l, r) ==> entry_word(
                spec_entry(j),
                l,
                r,
            ) is Err && entry_word(spec_entry(j), l, r)->Err_0 is TooLarge,
        last is TooLarge || exists|j: usize| i <= j < NUM_OPCODES && #[trigger] shape_matches(
            j,
            m,
            l,
            r,
        ),
    ensures
        select_from(m, l, r, i, last) is Err,
        select_from(m, l, r, i, last)->Err_0 is TooLarge,
    decreases NUM_OPCODES - i,
{
    if i < NUM_OPCODES {
        let iu = i as usize;
        if shape_matches(iu, m, l, r) {
            lemma_select_too_large(m, l, r, i + 1, entry_word(spec_entry(iu), l, r)->Err_0);
        } else {
            if !(last is TooLarge) {
                let j = choose|j: usize|
                    i <= j < NUM_OPCODES && #[trigger] shape_matches(j, m, l, r);
                assert(j != iu);
                assert(exists|k: usize|
                    i + 1 <= k < NUM_OPCODES && #[trigger] shape_matches(k, m, l, r));
            }
            lemma_select_too_large(m, l, r, i + 1, last);
        }
    }
}

/// An instruction line whose operands match the shapes of some entries of its
/// mnemonic, where every such entry finds the operand value too large for its mask,
/// fails with a too-large error naming a mnemonic and the value; no word is produced.
pub proof fn lemma_line_operand_too_large(
    m: Seq<char>,
    left: OperandExprView,
    right: OperandExprView,
    t: Seq<(Seq<char>, u16)>,
    l: EvalOperand,
    r: EvalOperand,
)
    requires
        has_mnemonic_from(m, 0),
        spec_eval(left, t) == Ok::<EvalOperand, AsmErrorKindView>(l),
        spec_eval(right, t) == Ok::<EvalOperand, AsmErrorKindView>(r),
        exists|j: usize| j < NUM_OPCODES && #[trigger] shape_matches(j, m, l, r),
        forall|j: usize|
            j < NUM_OPCODES && #[trigger] shape_matches(j, m, l, r) ==> entry_word(
                spec_entry(j),
                l,
                r,
            ) is Err && entry_word(spec_entry(j), l, r)->Err_0 is TooLarge,
    ensures
        spec_encode_instr(m, left, right, t) is Err,
        spec_encode_instr(m, left, right, t)->Err_0 is OperandTooLarge,
{
    lemma_select_too_large(m, l, r, 0, CandidateError::NoneTried);
}

/// Whether some entry at or after `i` is named `m`.
pub open spec fn has_mnemonic_from(m: Seq<char>, i: nat) -> bool
    decreases NUM_OPCODES - i,
{
    if i >= NUM_OPCODES {
        false
    } else if mnemonic_text(spec_entry(i as usize).mnemonic) == m {
        true
    } else {
        has_mnemonic_from(m, i + 1)
    }
}

/// The word that an instruction line encodes to.
pub open spec fn spec_encode_instr(
    m: Seq<char>,
    left: OperandExprView,
    right: OperandExprView,
    t: Seq<(Seq<char>, u16)>,
) -> Result<u16, AsmErrorKindView> {
    if !has_mnemonic_from(m, 0) {
        Err(AsmErrorKindView::UnknownInstruction(m))
    } else {
        match spec_eval(left, t) {
            Err(x) => Err(x),
            Ok(l) => match spec_eval(right, t) {
                Err(x) => Err(x),
                Ok(r) => match select_from(m, l, r, 0, CandidateError::NoneTried) {
                    Ok(w) => Ok(w),
                    Err(CandidateError::NoneTried) => Err(
                        AsmErrorKindView::NoSuitableOpcode(m, l, r),
                    ),
                    Err(CandidateError::TooLarge(mn, v)) => Err(
                        AsmErrorKindView::OperandTooLarge(mn, v),
                    ),
                    Err(CandidateError::Unsupported(mn)) => Err(
                        AsmErrorKindView::UnsupportedOperand(mn),
                    ),
                },
            },
        }
    }
}

fn is_reg_name(s: &[char]) -> (r: Option<Reg>)
    ensures
        r == reg_of(s@),
{
    if chars_eq(s, reg_chars(Reg::A).as_slice()) {
        Some(Reg::A)
    } else if chars_eq(s, reg_chars(Reg::R).as_slice()) {
        Some(Reg::R)
    } else if chars_eq(s, reg_chars(Reg::Z).as_slice()) {
        Some(Reg::Z)
    } else if chars_eq(s, reg_chars(Reg::Y).as_slice()) {
        Some(Reg::Y)
    } else if chars_eq(s, reg_chars(Reg::Pflag).as_slice()) {
        Some(Reg::Pflag)
    } else if chars_eq(s, reg_chars(Reg::Rbank).as_slice()) {
        Some(Reg::Rbank)
    } else {
        None
    }
}

fn find_label(t: &[(Vec<char>, u16)], name: &[char]) -> (r: Option<u16>)
    ensures
        r == lookup_label(labels_view(t@), name@, 0),
{
    let mut k: usize = 0;
    while k < t.len()
        invariant
            k <= t@.len(),
            lookup_label(labels_view(t@), name@, 0) == lookup_label(
                labels_view(t@),
                name@,
                k as nat,
            ),
        decreases t@.len() - k,
    {
        if chars_eq(t[k].0.as_slice(), name) {
            return Some(t[k].1);
        }
        k = k + 1;
    }
    None
}

fn copy_chars(s: &[char]) -> (r: Vec<char>)
    ensures
        r@ == s@,
{
    crate::text::slice_vec(s, 0, s.len())
}

/// Resolve the symbols of an operand expression against the label table.
pub fn eval_operand(expr: &OperandExpr, labels: &[(Vec<char>, u16)]) -> (r: Result<
    EvalOperand,
    AsmErrorKind,
>)
    ensures
        r matches Ok(o) ==> spec_eval(expr_view(*expr), labels_view(labels@)) == Ok::<
            EvalOperand,
            AsmErrorKindView,
        >(o),
        r matches Err(e) ==> spec_eval(expr_view(*expr), labels_view(labels@)) == Err::<
            EvalOperand,
            AsmErrorKindView,
        >(e@),
    decreases expr,
{
    match expr {
        OperandExpr::Empty => Ok(EvalOperand::Empty),
        OperandExpr::Number(v) => {
            if *v > 0xffff {
                Err(AsmErrorKind::NumericOperandTooLarge(*v))
            } else {
                Ok(EvalOperand::Address(*v as u16))
            }
        },
        OperandExpr::Symbol(name) => {
            match is_reg_name(name.as_slice()) {
                Some(reg) => Ok(EvalOperand::Reg(reg)),
                None => match find_label(labels, name.as_slice()) {
                    Some(a) => Ok(EvalOperand::Address(a)),
                    None => Err(AsmErrorKind::UndefinedSymbol(copy_chars(name.as_slice()))),
                },
            }
        },
        OperandExpr::Immediate(inner) => {
            let inner_eval = eval_operand(inner, labels)?;
            match inner_eval {
                EvalOperand::Address(a) => Ok(EvalOperand::Imm(a)),
                EvalOperand::Imm(a) => Ok(EvalOperand::Imm(a)),
                _ => Err(AsmErrorKind::ImmediateNotNumeric(inner_eval)),
            }
        },
        OperandExpr::BitAddr(base, bit) => {
            let base_eval = eval_operand(base, labels)?;
            match base_eval {
                EvalOperand::Address(a) => Ok(EvalOperand::BitAddr { addr: a, bit: *bit }),
                _ => Err(AsmErrorKind::BitBaseNotNumeric(base_eval)),
            }
        },
    }
}

/// Whether an evaluated operand has the shape an operand slot asks for.
pub fn matches_spec(spec: OperandSpec, op: EvalOperand) -> (r: bool)
    ensures
        r == spec_matches(spec, op),
{
    match spec {
        OperandSpec::Empty => op == EvalOperand::Empty,
        OperandSpec::Fixed(reg) => op == EvalOperand::Reg(reg),
        OperandSpec::Addr => match op {
            EvalOperand::Address(_) | EvalOperand::BitAddr { .. } => true,
            _ => false,
        },
        OperandSpec::Imm => match op {
            EvalOperand::Imm(_) => true,
            _ => false,
        },
        OperandSpec::BitAddr => match op {
            EvalOperand::BitAddr { .. } => true,
            _ => false,
        },
    }
}

fn encode_entry(e: OpcodeEntry, l: EvalOperand, r: EvalOperand) -> (w: Result<u16, CandidateError>)
    ensures
        w == entry_word(e, l, r),
{
    let base: u16 = (e.opcode as u16) << 8;
    let left_fixed = match e.left {
        OperandSpec::Fixed(_) => true,
        _ => false,
    };
    let right_fixed = match e.right {
        OperandSpec::Fixed(_) => true,
        _ => false,
    };
    let src = if !left_fixed && l != EvalOperand::Empty {
        Some(l)
    } else if !right_fixed && r != EvalOperand::Empty {
        Some(r)
    } else {
        None
    };
    match src {
        None => Ok(base),
        Some(EvalOperand::BitAddr { addr, bit }) => {
            if addr & e.mask != addr {
                Err(CandidateError::TooLarge(e.mnemonic, addr))
            } else {
                Ok(base | ((bit as u16) << 8) | (addr & e.mask))
            }
        },
        Some(EvalOperand::Address(v)) => {
            if v & e.mask != v {
                Err(CandidateError::TooLarge(e.mnemonic, v))
            } else {
                Ok(base | (v & e.mask))
            }
        },
        Some(EvalOperand::Imm(v)) => {
            if v & e.mask != v {
                Err(CandidateError::TooLarge(e.mnemonic, v))
            } else {
                Ok(base | (v & e.mask))
            }
        },
        Some(_) => Err(CandidateError::Unsupported(e.mnemonic)),
    }
}

fn select_opcode(m: &[char], l: EvalOperand, r: EvalOperand) -> (w: Result<u16, CandidateError>)
    ensures
        w == select_from(m@, l, r, 0, CandidateError::NoneTried),
{
    let mut last = CandidateError::NoneTried;
    let mut i: usize = 0;
    while i < NUM_OPCODES
        invariant
            i <= NUM_OPCODES,
            select_from(m@, l, r, 0, CandidateError::NoneTried) == select_from(
                m@,
                l,
                r,
                i as nat,
                last,
            ),
        decreases NUM_OPCODES - i,
    {
        let e = opcode_entry(i);
        let name = mnemonic_chars(e.mnemonic);
        if chars_eq(name.as_slice(), m) && matches_spec(e.left, l) && matches_spec(e.right, r) {
            match encode_entry(e, l, r) {
                Ok(w) => {
                    return Ok(w);
                },
                Err(x) => {
                    last = x;
                },
            }
        }
        i = i + 1;
    }
    Err(last)
}

fn has_mnemonic(m: &[char]) -> (r: bool)
    ensures
        r == has_mnemonic_from(m@, 0),
{
    let mut i: usize = 0;
    while i < NUM_OPCODES
        invariant
            i <= NUM_OPCODES,
            has_mnemonic_from(m@, 0) == has_mnemonic_from(m@, i as nat),
        decreases NUM_OPCODES - i,
    {
        let e = opcode_entry(i);
        let name = mnemonic_chars(e.mnemonic);
        if chars_eq(name.as_slice(), m) {
            return true;
        }
        i = i + 1;
    }
    false
}

/// Encode one instruction line against the label table.
pub fn encode_instr(
    mnemonic: &[char],
    left: &OperandExpr,
    right: &OperandExpr,
    labels: &[(Vec<char>, u16)],
) -> (r: Result<u16, AsmErrorKind>)
    ensures
        r matches Ok(w) ==> spec_encode_instr(
            mnemonic@,
            expr_view(*left),
            expr_view(*right),
            labels_view(labels@),
        ) == Ok::<u16, AsmErrorKindView>(w),
        r matches Err(e) ==> spec_encode_instr(
            mnemonic@,
            expr_view(*left),
            expr_view(*right),
            labels_view(labels@),
        ) == Err::<u16, AsmErrorKindView>(e@),
{
    if !has_mnemonic(mnemonic) {
        return Err(AsmErrorKind::UnknownInstruction(copy_chars(mnemonic)));
    }
    let l = eval_operand(left, labels)?;
    let r = eval_operand(right, labels)?;
    match select_opcode(mnemonic, l, r) {
        Ok(w) => Ok(w),
        Err(CandidateError::NoneTried) => Err(
            AsmErrorKind::NoSuitableOpcode { name: copy_chars(mnemonic), left: l, right: r },
        ),
        Err(CandidateError::TooLarge(mn, v)) => Err(
            AsmErrorKind::OperandTooLarge { mnemonic: mn, value: v },
        ),
        Err(CandidateError::Unsupported(mn)) => Err(AsmErrorKind::UnsupportedOperand(mn)),
    }
}

/// State after the label pass over some lines: their contents, the labels and the
/// address cursor.
pub struct LabelPass {
    pub kinds: Seq<LineKindView>,
    pub labels: Seq<(Seq<char>, u16)>,
    pub addr: nat,
}

/// The label pass over the first `n` lines.
pub open spec fn pass1(lines: Seq<Seq<char>>, n: nat) -> Result<LabelPass, AsmErrorView>
    decreases n,
{
    if n == 0 {
        Ok(LabelPass { kinds: Seq::empty(), labels: Seq::empty(), addr: 0 })
    } else {
        match pass1(lines, (n - 1) as nat) {
            Err(e) => Err(e),
            Ok(st) => match spec_parse_line(lines[n - 1]) {
                Err(pe) => Err(AsmErrorView { line: n, kind: AsmErrorKindView::Parse(pe) }),
                Ok((label, kind)) => {
                    if label is Some && lookup_label(st.labels, label->0, 0) is Some {
                        Err(
                            AsmErrorView {
                                line: n,
                                kind: AsmErrorKindView::DuplicateLabel(label->0),
                            },
                        )
                    } else {
                        let labels = match label {
                            Some(l) => st.labels.push((l, st.addr as u16)),
                            None => st.labels,
                        };
                        let kinds = st.kinds.push(kind);
                        match kind {
                            LineKindView::Org(v) => if v > 0x3fff {
                                Err(
                                    AsmErrorView {
                                        line: n,
                                        kind: AsmErrorKindView::OrgOutOfRange(v),
                                    },
                                )
                            } else {
                                Ok(LabelPass { kinds, labels, addr: v as nat })
                            },
                            LineKindView::Dw(items) => if st.addr + items.len() > 0x4000 {
                                Err(AsmErrorView { line: n, kind: AsmErrorKindView::DwOverflow })
                            } else {
                                Ok(LabelPass { kinds, labels, addr: st.addr + items.len() })
                            },
                            LineKindView::Instr(_, _, _) => if st.addr >= ROM_WORDS {
                                Err(
                                    AsmErrorView {
                                        line: n,
                                        kind: AsmErrorKindView::InstructionOverflow,
                                    },
                                )
                            } else {
                                Ok(LabelPass { kinds, labels, addr: st.addr + 1 })
                            },
                            LineKindView::Empty => Ok(LabelPass { kinds, labels, addr: st.addr }),
                        }
                    }
                },
            },
        }
    }
}

/// The address after `a`, wrapping.
pub open spec fn next_addr(a: u16) -> u16 {
    if a == 0xffff {
        0
    } else {
        (a + 1) as u16
    }
}

/// ROM and cursor after writing the first `k` items of a `DW` line number `line`; items
/// past the ROM window are dropped and leave the cursor where it is.
pub open spec fn dw_write(
    items: Seq<DataExprView>,
    t: Seq<(Seq<char>, u16)>,
    k: nat,
    rom: Seq<u16>,
    addr: u16,
    line: nat,
) -> Result<(Seq<u16>, u16), AsmErrorView>
    decreases k,
{
    if k == 0 {
        Ok((rom, addr))
    } else {
        match dw_write(items, t, (k - 1) as nat, rom, addr, line) {
            Err(e) => Err(e),
            Ok((rom1, a1)) => {
                let val: Result<u32, AsmErrorKindView> = match items[k - 1] {
                    DataExprView::Number(v) => Ok(v),
                    DataExprView::Symbol(n) => match lookup_label(t, n, 0) {
                        Some(a) => Ok(a as u32),
                        None => Err(AsmErrorKindView::UndefinedDataSymbol(n)),
                    },
                };
                match val {
                    Err(x) => Err(AsmErrorView { line, kind: x }),
                    Ok(v) => if v > 0xffff {
                        Err(AsmErrorView { line, kind: AsmErrorKindView::DataTooLarge(v) })
                    } else if a1 >= ROM_WORDS {
                        Ok((rom1, a1))
                    } else {
                        Ok((rom1.update(a1 as int, v as u16), next_addr(a1)))
                    },
                }
            },
        }
    }
}

/// The all-zero ROM.
pub open spec fn zero_rom() -> Seq<u16> {
    Seq::new(ROM_WORDS as nat, |i: int| 0u16)
}

/// ROM and cursor after the encoding pass over the first `n` lines.
pub open spec fn pass2(kinds: Seq<LineKindView>, t: Seq<(Seq<char>, u16)>, n: nat) -> Result<
    (Seq<u16>, u16),
    AsmErrorView,
>
    decreases n,
{
    if n == 0 {
        Ok((zero_rom(), 0))
    } else {
        match pass2(kinds, t, (n - 1) as nat) {
            Err(e) => Err(e),
            Ok((rom, addr)) => match kinds[n - 1] {
                LineKindView::Empty => Ok((rom, addr)),
                LineKindView::Org(v) => Ok((rom, v as u16)),
                LineKindView::Dw(items) => dw_write(items, t, items.len(), rom, addr, n),
                LineKindView::Instr(m, l, r) => match spec_encode_instr(m, l, r, t) {
                    Err(x) => Err(AsmErrorView { line: n, kind: x }),
                    Ok(w) => Ok(
                        (
                            if addr < ROM_WORDS {
                                rom.update(addr as int, w)
                            } else {
                                rom
                            },
                            next_addr(addr),
                        ),
                    ),
                },
            },
        }
    }
}

/// Little-endian bytes of ROM words.
pub open spec fn rom_bytes(rom: Seq<u16>) -> Seq<u8> {
    Seq::new(
        2 * rom.len(),
        |i: int|
            if i % 2 == 0 {
                (rom[i / 2] & 0xff) as u8
            } else {
                (rom[i / 2] >> 8u16) as u8
            },
    )
}

/// The assembled image of a source text, or the first failure.
pub open spec fn spec_assemble(src: Seq<char>) -> Result<Seq<u8>, AsmErrorView> {
    let lines = lines_of(src);
    match pass1(lines, lines.len()) {
        Err(e) => Err(e),
        Ok(st) => match pass2(st.kinds, st.labels, st.kinds.len()) {
            Err(e) => Err(e),
            Ok((rom, _)) => Ok(rom_bytes(rom)),
        },
    }
}

proof fn lemma_pass1_err_persists(lines: Seq<Seq<char>>, n: nat, m: nat)
    requires
        n <= m,
        pass1(lines, n) is Err,
    ensures
        pass1(lines, m) == pass1(lines, n),
    decreases m - n,
{
    if n < m {
        lemma_pass1_err_persists(lines, n, (m - 1) as nat);
    }
}

proof fn lemma_pass2_err_persists(kinds: Seq<LineKindView>, t: Seq<(Seq<char>, u16)>, n: nat, m: nat)
    requires
        n <= m,
        pass2(kinds, t, n) is Err,
    ensures
        pass2(kinds, t, m) == pass2(kinds, t, n),
    decreases m - n,
{
    if n < m {
        lemma_pass2_err_persists(kinds, t, n, (m - 1) as nat);
    }
}

proof fn lemma_dw_err_persists(
    items: Seq<DataExprView>,
    t: Seq<(Seq<char>, u16)>,
    k: nat,
    m: nat,
    rom: Seq<u16>,
    addr: u16,
    line: nat,
)
    requires
        k <= m,
        dw_write(items, t, k, rom, addr, line) is Err,
    ensures
        dw_write(items, t, m, rom, addr, line) == dw_write(items, t, k, rom, addr, line),
    decreases m - k,
{
    if k < m {
        lemma_dw_err_persists(items, t, k, (m - 1) as nat, rom, addr, line);
    }
}

/// The views of parsed line contents.
pub open spec fn kinds_view(v: Seq<LineKind>) -> Seq<LineKindView> {
    v.map_values(|k: LineKind| kind_view(k))
}

fn label_pass(lines: &[Vec<char>]) -> (r: Result<(Vec<LineKind>, Vec<(Vec<char>, u16)>), AsmError>)
    ensures
        r matches Ok((k, t)) ==> pass1(views(lines@), lines@.len()) matches Ok(st) && st.kinds
            == kinds_view(k@) && st.labels == labels_view(t@),
        r matches Err(e) ==> pass1(views(lines@), lines@.len()) == Err::<LabelPass, AsmErrorView>(
            e@,
        ),
{
    let mut kinds: Vec<LineKind> = Vec::new();
    let mut labels: Vec<(Vec<char>, u16)> = Vec::new();
    let mut addr: usize = 0;
    let mut i: usize = 0;
    assert(kinds_view(kinds@) =~= Seq::empty());
    assert(labels_view(labels@) =~= Seq::empty());
    while i < lines.len()
        invariant
            i <= lines@.len(),
            addr <= 0x4000,
            pass1(views(lines@), i as nat) == Ok::<LabelPass, AsmErrorView>(
                LabelPass {
                    kinds: kinds_view(kinds@),
                    labels: labels_view(labels@),
                    addr: addr as nat,
                },
            ),
        decreases lines@.len() - i,
    {
        let lineno = i + 1;
        let pr = parse_line(lines[i].as_slice());
        let pline = match pr {
            Ok(p) => p,
            Err(pe) => {
                proof {
                    lemma_pass1_err_persists(views(lines@), (i + 1) as nat, lines@.len());
                }
                return Err(AsmError { line: lineno, kind: AsmErrorKind::Parse(pe) });
            },
        };
        let ghost before_labels = labels@;
        let ghost before_kinds = kinds@;
        match pline.label {
            Some(label) => {
                if find_label(labels.as_slice(), label.as_slice()).is_some() {
                    proof {
                        lemma_pass1_err_persists(views(lines@), (i + 1) as nat, lines@.len());
                    }
                    return Err(AsmError { line: lineno, kind: AsmErrorKind::DuplicateLabel(label) });
                }
                let ghost lv = label@;
                labels.push((label, addr as u16));
                assert(labels_view(labels@) =~= labels_view(before_labels).push(
                    (lv, addr as u16),
                ));
            },
            None => {},
        }
        let kind = pline.kind;
        let ghost kv = kind_view(kind);
        match &kind {
            LineKind::Empty => {},
            LineKind::Org(v) => {
                if *v > 0x3fff {
                    proof {
                        lemma_pass1_err_persists(views(lines@), (i + 1) as nat, lines@.len());
                    }
                    return Err(AsmError { line: lineno, kind: AsmErrorKind::OrgOutOfRange(*v) });
                }
                addr = *v as usize;
            },
            LineKind::Dw(vs) => {
                if vs.len() > 0x4000 - addr {
                    proof {
                        lemma_pass1_err_persists(views(lines@), (i + 1) as nat, lines@.len());
                    }
                    return Err(AsmError { line: lineno, kind: AsmErrorKind::DwOverflow });
                }
                addr = addr + vs.len();
            },
            LineKind::Instr { .. } => {
                if addr >= ROM_WORDS {
                    proof {
                        lemma_pass1_err_persists(views(lines@), (i + 1) as nat, lines@.len());
                    }
                    return Err(AsmError { line: lineno, kind: AsmErrorKind::InstructionOverflow });
                }
                addr = addr + 1;
            },
        }
        kinds.push(kind);
        assert(kinds_view(kinds@) =~= kinds_view(before_kinds).push(kv));
        i = i + 1;
    }
    Ok((kinds, labels))
}

fn next_address(a: u16) -> (r: u16)
    ensures
        r == next_addr(a),
{
    if a == 0xffff {
        0
    } else {
        a + 1
    }
}

fn write_dw(
    items: &[DataExpr],
    labels: &[(Vec<char>, u16)],
    rom: &mut Vec<u16>,
    addr: u16,
    line: usize,
) -> (r: Result<u16, AsmError>)
    requires
        old(rom)@.len() == ROM_WORDS,
    ensures
        final(rom)@.len() == ROM_WORDS,
        r matches Ok(a) ==> dw_write(
            items@.map_values(|d: DataExpr| data_view(d)),
            labels_view(labels@),
            items@.len(),
            old(rom)@,
            addr,
            line as nat,
        ) == Ok::<(Seq<u16>, u16), AsmErrorView>((final(rom)@, a)),
        r matches Err(e) ==> dw_write(
            items@.map_values(|d: DataExpr| data_view(d)),
            labels_view(labels@),
            items@.len(),
            old(rom)@,
            addr,
            line as nat,
        ) == Err::<(Seq<u16>, u16), AsmErrorView>(e@),
{
    let ghost iv = items@.map_values(|d: DataExpr| data_view(d));
    let ghost t = labels_view(labels@);
    let ghost rom0 = rom@;
    let mut a = addr;
    let mut k: usize = 0;
    while k < items.len()
        invariant
            k <= items@.len(),
            rom@.len() == ROM_WORDS,
            iv == items@.map_values(|d: DataExpr| data_view(d)),
            t == labels_view(labels@),
            rom0 == old(rom)@,
            dw_write(iv, t, k as nat, rom0, addr, line as nat) == Ok::<
                (Seq<u16>, u16),
                AsmErrorView,
            >((rom@, a)),
        decreases items@.len() - k,
    {
        assert(iv[k as int] == data_view(items@[k as int]));
        let v: u32 = match &items[k] {
            DataExpr::Number(v) => *v,
            DataExpr::Symbol(name) => match find_label(labels, name.as_slice()) {
                Some(x) => x as u32,
                None => {
                    proof {
                        lemma_dw_err_persists(
                            iv,
                            t,
                            (k + 1) as nat,
                            items@.len(),
                            rom0,
                            addr,
                            line as nat,
                        );
                    }
                    return Err(
                        AsmError {
                            line,
                            kind: AsmErrorKind::UndefinedDataSymbol(copy_chars(name.as_slice())),
                        },
                    );
                },
            },
        };
        if v > 0xffff {
            proof {
                lemma_dw_err_persists(iv, t, (k + 1) as nat, items@.len(), rom0, addr, line as nat);
            }
            return Err(AsmError { line, kind: AsmErrorKind::DataTooLarge(v) });
        }
        if (a as usize) < ROM_WORDS {
            rom.set(a as usize, v as u16);
            a = next_address(a);
        }
        k = k + 1;
    }
    Ok(a)
}

fn encode_pass(kinds: &[LineKind], labels: &[(Vec<char>, u16)]) -> (r: Result<Vec<u16>, AsmError>)
    ensures
        r matches Ok(rom) ==> pass2(kinds_view(kinds@), labels_view(labels@), kinds@.len()) matches Ok(
            (rom2, _),
        ) && rom2 == rom@,
        r matches Err(e) ==> pass2(kinds_view(kinds@), labels_view(labels@), kinds@.len()) == Err::<
            (Seq<u16>, u16),
            AsmErrorView,
        >(e@),
{
    let ghost kv = kinds_view(kinds@);
    let ghost t = labels_view(labels@);
    let mut rom: Vec<u16> = Vec::new();
    let mut z: usize = 0;
    while z < ROM_WORDS
        invariant
            z <= ROM_WORDS,
            rom@ == Seq::new(z as nat, |i: int| 0u16),
        decreases ROM_WORDS - z,
    {
        rom.push(0);
        z = z + 1;
        assert(rom@ =~= Seq::new(z as nat, |i: int| 0u16));
    }
    let mut addr: u16 = 0;
    let mut i: usize = 0;
    while i < kinds.len()
        invariant
            i <= kinds@.len(),
            kv == kinds_view(kinds@),
            t == labels_view(labels@),
            rom@.len() == ROM_WORDS,
            pass2(kv, t, i as nat) == Ok::<(Seq<u16>, u16), AsmErrorView>((rom@, addr)),
        decreases kinds@.len() - i,
    {
        let lineno = i + 1;
        match &kinds[i] {
            LineKind::Empty => {},
            LineKind::Org(v) => {
                addr = *v as u16;
            },
            LineKind::Dw(items) => {
                match write_dw(items.as_slice(), labels, &mut rom, addr, lineno) {
                    Ok(a) => {
                        addr = a;
                    },
                    Err(e) => {
                        proof {
                            lemma_pass2_err_persists(kv, t, (i + 1) as nat, kinds@.len());
                        }
                        return Err(e);
                    },
                }
            },
            LineKind::Instr { mnemonic, left, right } => {
                match encode_instr(mnemonic.as_slice(), left, right, labels) {
                    Ok(w) => {
                        if (addr as usize) < ROM_WORDS {
                            rom.set(addr as usize, w);
                        }
                        addr = next_address(addr);
                    },
                    Err(k) => {
                        proof {
                            lemma_pass2_err_persists(kv, t, (i + 1) as nat, kinds@.len());
                        }
                        return Err(AsmError { line: lineno, kind: k });
                    },
                }
            },
        }
        i = i + 1;
    }
    Ok(rom)
}

fn to_bytes(rom: &[u16]) -> (r: Vec<u8>)
    ensures
        r@ == rom_bytes(rom@),
{
    let mut out: Vec<u8> = Vec::new();
    let mut i: usize = 0;
    while i < rom.len()
        invariant
            i <= rom@.len(),
            out@ == rom_bytes(rom@).subrange(0, 2 * i),
        decreases rom@.len() - i,
    {
        let w = rom[i];
        out.push((w & 0xff) as u8);
        out.push((w >> 8) as u8);
        i = i + 1;
        assert(out@ =~= rom_bytes(rom@).subrange(0, 2 * i));
    }
    assert(rom_bytes(rom@).subrange(0, 2 * i) =~= rom_bytes(rom@));
    out
}

/// Assemble SN8 source code into a 0x3000-word (0x6000-byte) little-endian image.
pub fn assemble(source: &str) -> (r: Result<Vec<u8>, AsmError>)
    ensures
        r matches Ok(b) ==> spec_assemble(source@) == Ok::<Seq<u8>, AsmErrorView>(b@),
        r matches Err(e) ==> spec_assemble(source@) == Err::<Seq<u8>, AsmErrorView>(e@),
{
    let cs = chars_of(source);
    let lines = split_lines(cs.as_slice());
    let (kinds, labels) = label_pass(lines.as_slice())?;
    let rom = encode_pass(kinds.as_slice(), labels.as_slice())?;
    Ok(to_bytes(rom.as_slice()))
}

/// Text of a parse failure.
pub open spec fn parse_error_text(e: ParseErrorView) -> Seq<char> {
    match e {
        ParseErrorView::BadNumber(t) => "invalid number literal "@ + t,
        ParseErrorView::BadBitIndex(t) => "bad bit index "@ + t,
        ParseErrorView::BitIndexOutOfRange(b) => "bit index out of range (0-7): "@ + dec_text(
            b as nat,
        ),
        ParseErrorView::EmptyData => "empty data expression"@,
        ParseErrorView::StringData => "string literals in DW are not supported"@,
        ParseErrorView::OrgMissingAddress => "ORG requires an address"@,
        ParseErrorView::UnsupportedDirective(d) => "directive "@ + d + " not supported"@,
    }
}

/// Text of an evaluated operand.
pub open spec fn operand_text(o: EvalOperand) -> Seq<char> {
    match o {
        EvalOperand::Empty => "none"@,
        EvalOperand::Reg(r) => reg_text(r),
        EvalOperand::Address(a) => "0x"@ + hex_fixed(a as nat, 4),
        EvalOperand::Imm(a) => "#0x"@ + hex_fixed(a as nat, 4),
        EvalOperand::BitAddr { addr, bit } => "0x"@ + hex_fixed(addr as nat, 4) + "."@ + dec_text(
            bit as nat,
        ),
    }
}

/// Text of an assembly failure, without its line number.
pub open spec fn kind_text(k: AsmErrorKindView) -> Seq<char> {
    match k {
        AsmErrorKindView::Parse(p) => parse_error_text(p),
        AsmErrorKindView::DuplicateLabel(l) => "duplicate label "@ + l,
        AsmErrorKindView::OrgOutOfRange(v) => "ORG address out of range: 0x"@ + hex_fixed(
            v as nat,
            8,
        ),
        AsmErrorKindView::DwOverflow => "DW causes address overflow"@,
        AsmErrorKindView::InstructionOverflow => "instruction address overflow"@,
        AsmErrorKindView::UndefinedDataSymbol(n) => "undefined symbol in DW: "@ + n,
        AsmErrorKindView::DataTooLarge(v) => "DW value too large: 0x"@ + hex_fixed(v as nat, 8),
        AsmErrorKindView::UnknownInstruction(m) => "unknown instruction "@ + m,
        AsmErrorKindView::NumericOperandTooLarge(v) => "numeric operand too large: 0x"@
            + hex_fixed(v as nat, 8),
        AsmErrorKindView::UndefinedSymbol(n) => "undefined symbol: "@ + n,
        AsmErrorKindView::ImmediateNotNumeric(o) => "immediate must be numeric or label, got "@
            + operand_text(o),
        AsmErrorKindView::BitBaseNotNumeric(o) =>
            "bit address base must be numeric or label, got "@ + operand_text(o),
        AsmErrorKindView::OperandTooLarge(m, v) => "operand too large for "@ + mnemonic_text(m)
            + ": 0x"@ + hex_fixed(v as nat, 4),
        AsmErrorKindView::UnsupportedOperand(m) => "unsupported operand kind for "@
            + mnemonic_text(m),
        AsmErrorKindView::NoSuitableOpcode(m, l, r) => "no opcode suitable for "@ + m + " "@
            + operand_text(l) + ", "@ + operand_text(r),
    }
}

/// Text of an assembly failure: `line N: ` and what went wrong.
pub open spec fn error_text(e: AsmErrorView) -> Seq<char> {
    "line "@ + dec_text(e.line) + ": "@ + kind_text(e.kind)
}

fn push_parse_error(s: &mut String, e: &ParseError)
    ensures
        final(s)@ == old(s)@ + parse_error_text(e@),
{
    match e {
        ParseError::BadNumber(t) => {
            push_str(s, "invalid number literal ");
            push_str(s, string_of(t.as_slice()).as_str());
        },
        ParseError::BadBitIndex(t) => {
            push_str(s, "bad bit index ");
            push_str(s, string_of(t.as_slice()).as_str());
        },
        ParseError::BitIndexOutOfRange(b) => {
            push_str(s, "bit index out of range (0-7): ");
            push_dec(s, *b as usize);
        },
        ParseError::EmptyData => {
            push_str(s, "empty data expression");
        },
        ParseError::StringData => {
            push_str(s, "string literals in DW are not supported");
        },
        ParseError::OrgMissingAddress => {
            push_str(s, "ORG requires an address");
        },
        ParseError::UnsupportedDirective(d) => {
            push_str(s, "directive ");
            push_str(s, string_of(d.as_slice()).as_str());
            push_str(s, " not supported");
        },
    }
    assert(s@ =~= old(s)@ + parse_error_text(e@));
}

fn push_operand(s: &mut String, o: EvalOperand)
    ensures
        final(s)@ == old(s)@ + operand_text(o),
{
    match o {
        EvalOperand::Empty => {
            push_str(s, "none");
        },
        EvalOperand::Reg(r) => {
            push_str(s, string_of(reg_chars(r).as_slice()).as_str());
        },
        EvalOperand::Address(a) => {
            push_str(s, "0x");
            push_hex(s, a as u32, 4);
        },
        EvalOperand::Imm(a) => {
            push_str(s, "#0x");
            push_hex(s, a as u32, 4);
        },
        EvalOperand::BitAddr { addr, bit } => {
            push_str(s, "0x");
            push_hex(s, addr as u32, 4);
            push_str(s, ".");
            push_dec(s, bit as usize);
        },
    }
    assert(s@ =~= old(s)@ + operand_text(o));
}

fn push_kind(s: &mut String, k: &AsmErrorKind)
    ensures
        final(s)@ == old(s)@ + kind_text(k@),
{
    match k {
        AsmErrorKind::Parse(p) => {
            push_parse_error(s, p);
        },
        AsmErrorKind::DuplicateLabel(l) => {
            push_str(s, "duplicate label ");
            push_str(s, string_of(l.as_slice()).as_str());
        },
        AsmErrorKind::OrgOutOfRange(v) => {
            push_str(s, "ORG address out of range: 0x");
            push_hex(s, *v, 8);
        },
        AsmErrorKind::DwOverflow => {
            push_str(s, "DW causes address overflow");
        },
        AsmErrorKind::InstructionOverflow => {
            push_str(s, "instruction address overflow");
        },
        AsmErrorKind::UndefinedDataSymbol(n) => {
            push_str(s, "undefined symbol in DW: ");
            push_str(s, string_of(n.as_slice()).as_str());
        },
        AsmErrorKind::DataTooLarge(v) => {
            push_str(s, "DW value too large: 0x");
            push_hex(s, *v, 8);
        },
        AsmErrorKind::UnknownInstruction(m) => {
            push_str(s, "unknown instruction ");
            push_str(s, string_of(m.as_slice()).as_str());
        },
        AsmErrorKind::NumericOperandTooLarge(v) => {
            push_str(s, "numeric operand too large: 0x");
            push_hex(s, *v, 8);
        },
        AsmErrorKind::UndefinedSymbol(n) => {
            push_str(s, "undefined symbol: ");
            push_str(s, string_of(n.as_slice()).as_str());
        },
        AsmErrorKind::ImmediateNotNumeric(o) => {
            push_str(s, "immediate must be numeric or label, got ");
            push_operand(s, *o);
        },
        AsmErrorKind::BitBaseNotNumeric(o) => {
            push_str(s, "bit address base must be numeric or label, got ");
            push_operand(s, *o);
        },
        AsmErrorKind::OperandTooLarge { mnemonic, value } => {
            push_str(s, "operand too large for ");
            push_str(s, string_of(mnemonic_chars(*mnemonic).as_slice()).as_str());
            push_str(s, ": 0x");
            push_hex(s, *value as u32, 4);
        },
        AsmErrorKind::UnsupportedOperand(m) => {
            push_str(s, "unsupported operand kind for ");
            push_str(s, string_of(mnemonic_chars(*m).as_slice()).as_str());
        },
        AsmErrorKind::NoSuitableOpcode { name, left, right } => {
            push_str(s, "no opcode suitable for ");
            push_str(s, string_of(name.as_slice()).as_str());
            push_str(s, " ");
            push_operand(s, *left);
            push_str(s, ", ");
            push_operand(s, *right);
        },
    }
    assert(s@ =~= old(s)@ + kind_text(k@));
}

impl AsmError {
    /// The human-readable text of the error: `line N: ` and what went wrong.
    pub fn message(&self) -> (r: String)
        ensures
            r@ == error_text(self@),
    {
        let mut s = String::new();
        push_str(&mut s, "line ");
        push_dec(&mut s, self.line);
        push_str(&mut s, ": ");
        push_kind(&mut s, &self.kind);
        assert(s@ =~= error_text(self@));
        s
    }
}

/// Assemble SN8 source code into a 0x3000-word (0x6000-byte) binary image; a failure
/// is reported as its line-numbered message.
pub fn assemble_sn8(source: &str) -> (r: Result<Vec<u8>, String>)
    ensures
        r is Ok <==> spec_assemble(source@) is Ok,
        r matches Ok(b) ==> spec_assemble(source@) == Ok::<Seq<u8>, AsmErrorView>(b@),
        r matches Err(m) ==> spec_assemble(source@) matches Err(e) && m@ == error_text(e),
{
    match assemble(source) {
        Ok(b) => Ok(b),
        Err(e) => Err(e.message()),
    }
}

} // verus!
