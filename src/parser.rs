//! Parsing of SN8 assembly source lines: numbers, operand and data expressions,
//! labels, directives and instructions.
use vstd::prelude::*;
use crate::diff::code_part;
use crate::text::{
    chars_eq, find_char, find_char_from, is_white, join_spaces, join_words, lemma_find_char_bounds,
    slice_vec, split_chars, split_from, split_words, trim, trim_chars, views, words,
};

verus! {

/// Value of a digit character in `radix`, if it is one.
pub open spec fn digit_val(c: char, radix: nat) -> Option<nat> {
    let d: int = if '0' <= c && c <= '9' {
        c as int - '0' as int
    } else if 'a' <= c && c <= 'z' {
        c as int - 'a' as int + 10
    } else if 'A' <= c && c <= 'Z' {
        c as int - 'A' as int + 10
    } else {
        99
    };
    if d < radix {
        Some(d as nat)
    } else {
        None
    }
}

/// Cap above every `u32` value.
pub const NUM_CAP: u64 = 0x1_0000_0000;

/// The value of the digits `ds` in `radix`, capped at `NUM_CAP`; `None` on a bad digit.
pub open spec fn capped_value(ds: Seq<char>, radix: nat) -> Option<nat>
    decreases ds.len(),
{
    if ds.len() == 0 {
        Some(0)
    } else {
        match (capped_value(ds.drop_last(), radix), digit_val(ds.last(), radix)) {
            (Some(v), Some(d)) => {
                let n = v * radix + d;
                Some(
                    if n > NUM_CAP {
                        NUM_CAP as nat
                    } else {
                        n
                    },
                )
            },
            _ => None,
        }
    }
}

/// `u32::from_str_radix`: an optional `+`, then at least one digit, the value fitting.
pub open spec fn spec_from_str_radix(s: Seq<char>, radix: nat) -> Option<u32> {
    let ds = if s.len() > 0 && s[0] == '+' {
        s.drop_first()
    } else {
        s
    };
    if ds.len() == 0 {
        None
    } else {
        match capped_value(ds, radix) {
            Some(v) => if v < NUM_CAP {
                Some(v as u32)
            } else {
                None
            },
            None => None,
        }
    }
}

/// Whether `s` starts with `0` and then `a` or `b`.
pub open spec fn has_prefix(s: Seq<char>, a: char, b: char) -> bool {
    s.len() >= 2 && s[0] == '0' && (s[1] == a || s[1] == b)
}

/// A number literal: `0x`/`0X` hexadecimal, `0b`/`0B` binary, else decimal.
pub open spec fn spec_parse_number(tok: Seq<char>) -> Option<u32> {
    if has_prefix(tok, 'x', 'X') {
        spec_from_str_radix(tok.skip(2), 16)
    } else if has_prefix(tok, 'b', 'B') {
        spec_from_str_radix(tok.skip(2), 2)
    } else {
        spec_from_str_radix(tok, 10)
    }
}

fn digit_of(c: char, radix: u64) -> (r: Option<u64>)
    requires
        radix <= 16,
    ensures
        r matches Some(d) ==> digit_val(c, radix as nat) == Some(d as nat) && d < 16,
        r is None ==> digit_val(c, radix as nat) is None,
{
    let d: u64 = if '0' <= c && c <= '9' {
        (c as u32 - '0' as u32) as u64
    } else if 'a' <= c && c <= 'z' {
        (c as u32 - 'a' as u32 + 10) as u64
    } else if 'A' <= c && c <= 'Z' {
        (c as u32 - 'A' as u32 + 10) as u64
    } else {
        99
    };
    if d < radix {
        Some(d)
    } else {
        None
    }
}

/// `u32::from_str_radix` on characters.
pub fn from_str_radix(s: &[char], radix: u64) -> (r: Option<u32>)
    requires
        2 <= radix <= 16,
    ensures
        r == spec_from_str_radix(s@, radix as nat),
{
    let start: usize = if s.len() > 0 && s[0] == '+' {
        1
    } else {
        0
    };
    let ghost ds = if s@.len() > 0 && s@[0] == '+' {
        s@.drop_first()
    } else {
        s@
    };
    assert(ds =~= s@.subrange(start as int, s@.len() as int));
    if start >= s.len() {
        return None;
    }
    let mut acc: u64 = 0;
    let mut i = start;
    while i < s.len()
        invariant
            start <= i <= s@.len(),
            2 <= radix <= 16,
            ds == s@.subrange(start as int, s@.len() as int),
            ds.len() > 0,
            ds == (if s@.len() > 0 && s@[0] == '+' {
                s@.drop_first()
            } else {
                s@
            }),
            acc <= NUM_CAP,
            capped_value(s@.subrange(start as int, i as int), radix as nat) == Some(acc as nat),
        decreases s@.len() - i,
    {
        let d = match digit_of(s[i], radix) {
            Some(d) => d,
            None => {
                proof {
                    assert(s@.subrange(start as int, i + 1).drop_last() =~= s@.subrange(
                        start as int,
                        i as int,
                    ));
                    assert(capped_value(s@.subrange(start as int, i + 1), radix as nat) is None);
                    lemma_capped_none(s@, start as nat, (i + 1) as nat, radix as nat);
                }
                return None;
            },
        };
        assert(acc * radix <= NUM_CAP * 16) by (nonlinear_arith)
            requires
                acc <= NUM_CAP,
                radix <= 16,
        ;
        let n = acc * radix + d;
        acc = if n > NUM_CAP {
            NUM_CAP
        } else {
            n
        };
        assert(s@.subrange(start as int, i + 1).drop_last() =~= s@.subrange(
            start as int,
            i as int,
        ));
        i = i + 1;
    }
    if acc < NUM_CAP {
        Some(acc as u32)
    } else {
        None
    }
}

/// A bad digit makes every longer digit string bad.
proof fn lemma_capped_none(s: Seq<char>, start: nat, j: nat, radix: nat)
    requires
        start <= j <= s.len(),
        capped_value(s.subrange(start as int, j as int), radix) is None,
    ensures
        capped_value(s.subrange(start as int, s.len() as int), radix) is None,
    decreases s.len() - j,
{
    if j < s.len() {
        assert(s.subrange(start as int, j + 1 as int).drop_last() =~= s.subrange(start as int, j as int));
        lemma_capped_none(s, start, j + 1, radix);
    }
}

/// Parse a number literal: `0x`/`0X` hexadecimal, `0b`/`0B` binary, else decimal.
pub fn parse_number(tok: &[char]) -> (r: Option<u32>)
    ensures
        r == spec_parse_number(tok@),
{
    if tok.len() >= 2 && tok[0] == '0' && (tok[1] == 'x' || tok[1] == 'X') {
        let rest = slice_vec(tok, 2, tok.len());
        assert(rest@ =~= tok@.skip(2));
        from_str_radix(rest.as_slice(), 16)
    } else if tok.len() >= 2 && tok[0] == '0' && (tok[1] == 'b' || tok[1] == 'B') {
        let rest = slice_vec(tok, 2, tok.len());
        assert(rest@ =~= tok@.skip(2));
        from_str_radix(rest.as_slice(), 2)
    } else {
        from_str_radix(tok, 10)
    }
}

/// A parsed operand expression, before symbols are resolved.
#[derive(Debug)]
pub enum OperandExpr {
    Empty,
    Number(u32),
    Symbol(Vec<char>),
    Immediate(Box<OperandExpr>),
    BitAddr(Box<OperandExpr>, u8),
}

/// The mathematical content of an `OperandExpr`.
pub enum OperandExprView {
    Empty,
    Number(u32),
    Symbol(Seq<char>),
    Immediate(Box<OperandExprView>),
    BitAddr(Box<OperandExprView>, u8),
}

/// The view of an operand expression.
pub open spec fn expr_view(e: OperandExpr) -> OperandExprView
    decreases e,
{
    match e {
        OperandExpr::Empty => OperandExprView::Empty,
        OperandExpr::Number(v) => OperandExprView::Number(v),
        OperandExpr::Symbol(s) => OperandExprView::Symbol(s@),
        OperandExpr::Immediate(b) => OperandExprView::Immediate(Box::new(expr_view(*b))),
        OperandExpr::BitAddr(b, bit) => OperandExprView::BitAddr(Box::new(expr_view(*b)), bit),
    }
}

/// A `DW` item: a number or a label.
#[derive(Debug)]
pub enum DataExpr {
    Number(u32),
    Symbol(Vec<char>),
}

/// The mathematical content of a `DataExpr`.
pub enum DataExprView {
    Number(u32),
    Symbol(Seq<char>),
}

/// The view of a data item.
pub open spec fn data_view(d: DataExpr) -> DataExprView {
    match d {
        DataExpr::Number(v) => DataExprView::Number(v),
        DataExpr::Symbol(s) => DataExprView::Symbol(s@),
    }
}

/// Why a line could not be parsed.
#[derive(Debug)]
pub enum ParseError {
    BadNumber(Vec<char>),
    BadBitIndex(Vec<char>),
    BitIndexOutOfRange(u32),
    EmptyData,
    StringData,
    OrgMissingAddress,
    UnsupportedDirective(Vec<char>),
}

/// The mathematical content of a `ParseError`.
pub enum ParseErrorView {
    BadNumber(Seq<char>),
    BadBitIndex(Seq<char>),
    BitIndexOutOfRange(u32),
    EmptyData,
    StringData,
    OrgMissingAddress,
    UnsupportedDirective(Seq<char>),
}

impl View for ParseError {
    type V = ParseErrorView;

    open spec fn view(&self) -> ParseErrorView {
        match self {
            ParseError::BadNumber(t) => ParseErrorView::BadNumber(t@),
            ParseError::BadBitIndex(t) => ParseErrorView::BadBitIndex(t@),
            ParseError::BitIndexOutOfRange(b) => ParseErrorView::BitIndexOutOfRange(*b),
            ParseError::EmptyData => ParseErrorView::EmptyData,
            ParseError::StringData => ParseErrorView::StringData,
            ParseError::OrgMissingAddress => ParseErrorView::OrgMissingAddress,
            ParseError::UnsupportedDirective(d) => ParseErrorView::UnsupportedDirective(d@),
        }
    }
}

/// Index of the last `c` before position `j`.
pub open spec fn find_last(s: Seq<char>, c: char, j: nat) -> Option<nat>
    decreases j,
{
    if j == 0 {
        None
    } else if s[j - 1] == c {
        Some((j - 1) as nat)
    } else {
        find_last(s, c, (j - 1) as nat)
    }
}

/// Whether every character of `s` is a hexadecimal digit, `x` or `X`.
pub open spec fn all_hexish(s: Seq<char>) -> bool {
    forall|i: int|
        0 <= i < s.len() ==> (('0' <= #[trigger] s[i] && s[i] <= '9') || ('a' <= s[i] && s[i]
            <= 'f') || ('A' <= s[i] && s[i] <= 'F') || s[i] == 'x' || s[i] == 'X')
}

/// Whether every character of `s` is a decimal digit, `x`, `X`, `b` or `B`.
pub open spec fn all_numish(s: Seq<char>) -> bool {
    forall|i: int|
        0 <= i < s.len() ==> (('0' <= #[trigger] s[i] && s[i] <= '9') || s[i] == 'x' || s[i]
            == 'X' || s[i] == 'b' || s[i] == 'B')
}

proof fn lemma_trim_len(s: Seq<char>)
    ensures
        trim(s).len() <= s.len(),
{
    crate::text::lemma_trim_bounds(s);
}

proof fn lemma_find_last_bounds(s: Seq<char>, c: char, j: nat)
    ensures
        find_last(s, c, j) matches Some(k) ==> k < j && s[k as int] == c,
    decreases j,
{
    if j > 0 && s[j - 1] != c {
        lemma_find_last_bounds(s, c, (j - 1) as nat);
    }
}

#[via_fn]
proof fn spec_operand_decreases(raw: Seq<char>) {
    lemma_trim_len(raw);
    lemma_find_last_bounds(trim(raw), '.', trim(raw).len());
}

/// The parse of one operand: `#inner` is immediate, `base.bit` a bit address (the last
/// `.` splits; the bit index must be 0 to 7), a numeric-looking literal a number,
/// anything else a symbol.
pub open spec fn spec_operand(raw: Seq<char>) -> Result<OperandExprView, ParseErrorView>
    decreases raw.len() via spec_operand_decreases
{
    let s = trim(raw);
    if s.len() == 0 {
        Ok(OperandExprView::Empty)
    } else if s[0] == '#' {
        match spec_operand(s.skip(1)) {
            Ok(e) => Ok(OperandExprView::Immediate(Box::new(e))),
            Err(x) => Err(x),
        }
    } else {
        match find_last(s, '.', s.len()) {
            Some(idx) => {
                let bit_str = s.subrange(idx + 1 as int, s.len() as int);
                match spec_parse_number(bit_str) {
                    None => Err(ParseErrorView::BadBitIndex(bit_str)),
                    Some(v) => {
                        if v > 7 {
                            Err(ParseErrorView::BitIndexOutOfRange(v))
                        } else {
                            match spec_operand(s.subrange(0, idx as int)) {
                                Ok(b) => Ok(OperandExprView::BitAddr(Box::new(b), v as u8)),
                                Err(x) => Err(x),
                            }
                        }
                    },
                }
            },
            None => if all_hexish(s) && spec_parse_number(s) is Some {
                Ok(OperandExprView::Number(spec_parse_number(s)->0))
            } else {
                Ok(OperandExprView::Symbol(s))
            },
        }
    }
}

/// The view of an operand parse outcome.
pub open spec fn operand_result_view(r: Result<OperandExpr, ParseError>) -> Result<
    OperandExprView,
    ParseErrorView,
> {
    match r {
        Ok(e) => Ok(expr_view(e)),
        Err(x) => Err(x@),
    }
}

fn is_hexish(c: char) -> (r: bool)
    ensures
        r == (('0' <= c && c <= '9') || ('a' <= c && c <= 'f') || ('A' <= c && c <= 'F') || c
            == 'x' || c == 'X'),
{
    ('0' <= c && c <= '9') || ('a' <= c && c <= 'f') || ('A' <= c && c <= 'F') || c == 'x' || c
        == 'X'
}

fn is_numish(c: char) -> (r: bool)
    ensures
        r == (('0' <= c && c <= '9') || c == 'x' || c == 'X' || c == 'b' || c == 'B'),
{
    ('0' <= c && c <= '9') || c == 'x' || c == 'X' || c == 'b' || c == 'B'
}

fn check_all_hexish(s: &[char]) -> (r: bool)
    ensures
        r == all_hexish(s@),
{
    let mut i: usize = 0;
    while i < s.len()
        invariant
            i <= s@.len(),
            forall|j: int|
                0 <= j < i ==> (('0' <= #[trigger] s@[j] && s@[j] <= '9') || ('a' <= s@[j]
                    && s@[j] <= 'f') || ('A' <= s@[j] && s@[j] <= 'F') || s@[j] == 'x' || s@[j]
                    == 'X'),
        decreases s@.len() - i,
    {
        if !is_hexish(s[i]) {
            return false;
        }
        i = i + 1;
    }
    true
}

fn check_all_numish(s: &[char]) -> (r: bool)
    ensures
        r == all_numish(s@),
{
    let mut i: usize = 0;
    while i < s.len()
        invariant
            i <= s@.len(),
            forall|j: int|
                0 <= j < i ==> (('0' <= #[trigger] s@[j] && s@[j] <= '9') || s@[j] == 'x'
                    || s@[j] == 'X' || s@[j] == 'b' || s@[j] == 'B'),
        decreases s@.len() - i,
    {
        if !is_numish(s[i]) {
            return false;
        }
        i = i + 1;
    }
    true
}

fn rfind_char(s: &[char], c: char) -> (r: Option<usize>)
    ensures
        r matches Some(k) ==> find_last(s@, c, s@.len()) == Some(k as nat),
        r is None ==> find_last(s@, c, s@.len()) is None,
{
    let mut j = s.len();
    while j > 0
        invariant
            j <= s@.len(),
            find_last(s@, c, s@.len()) == find_last(s@, c, j as nat),
        decreases j,
    {
        if s[j - 1] == c {
            return Some(j - 1);
        }
        j = j - 1;
    }
    None
}

/// Parse one operand expression.
pub fn parse_operand_expr(raw: &[char]) -> (r: Result<OperandExpr, ParseError>)
    ensures
        operand_result_view(r) == spec_operand(raw@),
    decreases raw@.len(),
{
    let s = trim_chars(raw);
    proof {
        lemma_trim_len(raw@);
    }
    if s.len() == 0 {
        return Ok(OperandExpr::Empty);
    }
    if s[0] == '#' {
        let rest = slice_vec(s.as_slice(), 1, s.len());
        assert(rest@ =~= s@.skip(1));
        return match parse_operand_expr(rest.as_slice()) {
            Ok(e) => Ok(OperandExpr::Immediate(Box::new(e))),
            Err(x) => Err(x),
        };
    }
    match rfind_char(s.as_slice(), '.') {
        Some(idx) => {
            proof {
                lemma_find_last_bounds(s@, '.', s@.len());
            }
            let bit_str = slice_vec(s.as_slice(), idx + 1, s.len());
            match parse_number(bit_str.as_slice()) {
                None => Err(ParseError::BadBitIndex(bit_str)),
                Some(v) => {
                    if v > 7 {
                        return Err(ParseError::BitIndexOutOfRange(v));
                    }
                    let bit: u8 = v as u8;
                    let base = slice_vec(s.as_slice(), 0, idx);
                    match parse_operand_expr(base.as_slice()) {
                        Ok(b) => Ok(OperandExpr::BitAddr(Box::new(b), bit)),
                        Err(x) => Err(x),
                    }
                },
            }
        },
        None => {
            if check_all_hexish(s.as_slice()) {
                match parse_number(s.as_slice()) {
                    Some(v) => {
                        return Ok(OperandExpr::Number(v));
                    },
                    None => {},
                }
            }
            Ok(OperandExpr::Symbol(s))
        },
    }
}

/// The parse of one `DW` item.
pub open spec fn spec_data(raw: Seq<char>) -> Result<DataExprView, ParseErrorView> {
    let s = trim(raw);
    if s.len() == 0 {
        Err(ParseErrorView::EmptyData)
    } else if (s[0] == '"' && s.last() == '"') || (s[0] == '\'' && s.last() == '\'') {
        Err(ParseErrorView::StringData)
    } else if (all_numish(s) || has_prefix(s, 'x', 'X') || has_prefix(s, 'b', 'B'))
        && spec_parse_number(s) is Some {
        Ok(DataExprView::Number(spec_parse_number(s)->0))
    } else {
        Ok(DataExprView::Symbol(s))
    }
}

/// Parse one `DW` item: a number literal or a label.
pub fn parse_data_expr(raw: &[char]) -> (r: Result<DataExpr, ParseError>)
    ensures
        r matches Ok(d) ==> spec_data(raw@) == Ok::<DataExprView, ParseErrorView>(data_view(d)),
        r matches Err(e) ==> spec_data(raw@) == Err::<DataExprView, ParseErrorView>(e@),
{
    let s = trim_chars(raw);
    let n = s.len();
    if n == 0 {
        return Err(ParseError::EmptyData);
    }
    if (s[0] == '"' && s[n - 1] == '"') || (s[0] == '\'' && s[n - 1] == '\'') {
        return Err(ParseError::StringData);
    }
    let prefixed = n >= 2 && s[0] == '0' && (s[1] == 'x' || s[1] == 'X' || s[1] == 'b' || s[1]
        == 'B');
    if check_all_numish(s.as_slice()) || prefixed {
        match parse_number(s.as_slice()) {
            Some(v) => {
                return Ok(DataExpr::Number(v));
            },
            None => {},
        }
    }
    Ok(DataExpr::Symbol(s))
}

/// What a source line holds.
#[derive(Debug)]
pub enum LineKind {
    Empty,
    Org(u32),
    Dw(Vec<DataExpr>),
    Instr { mnemonic: Vec<char>, left: OperandExpr, right: OperandExpr },
}

/// The mathematical content of a `LineKind`.
pub enum LineKindView {
    Empty,
    Org(u32),
    Dw(Seq<DataExprView>),
    Instr(Seq<char>, OperandExprView, OperandExprView),
}

/// The view of a line's content.
pub open spec fn kind_view(k: LineKind) -> LineKindView {
    match k {
        LineKind::Empty => LineKindView::Empty,
        LineKind::Org(v) => LineKindView::Org(v),
        LineKind::Dw(items) => LineKindView::Dw(items@.map_values(|d: DataExpr| data_view(d))),
        LineKind::Instr { mnemonic, left, right } => LineKindView::Instr(
            mnemonic@,
            expr_view(left),
            expr_view(right),
        ),
    }
}

/// A parsed source line: its optional label and its content.
#[derive(Debug)]
pub struct ParsedLine {
    pub label: Option<Vec<char>>,
    pub kind: LineKind,
}

/// The view of an optional label.
pub open spec fn label_view(l: Option<Vec<char>>) -> Option<Seq<char>> {
    match l {
        Some(v) => Some(v@),
        None => None,
    }
}

/// ASCII upper case (`to_ascii_uppercase`).
pub open spec fn upper(s: Seq<char>) -> Seq<char> {
    s.map_values(
        |c: char|
            if 'a' <= c && c <= 'z' {
                ((c as u8) - 32) as u8 as char
            } else {
                c
            },
    )
}

/// Whether `op` is a directive that this assembler refuses.
pub open spec fn is_unsupported_directive(op: Seq<char>) -> bool {
    op == seq!['.', 'C', 'H', 'I', 'P'] || op == seq!['C', 'H', 'I', 'P'] || op == seq![
        '.',
        'D',
        'A',
        'T',
        'A',
    ] || op == seq!['.', 'A', 'L', 'I', 'G', 'N'] || op == seq!['I', 'N', 'C', 'L', 'U', 'D', 'E']
        || op == seq!['I', 'N', 'C', 'L', 'U', 'D', 'E', 'B', 'I', 'N'] || op == seq!['D', 'B']
        || op == seq!['D', 'S']
}

/// The `DW` items among the first `n` comma-separated pieces; blank pieces are skipped.
pub open spec fn dw_items(items: Seq<Seq<char>>, n: nat) -> Result<
    Seq<DataExprView>,
    ParseErrorView,
>
    decreases n,
{
    if n == 0 {
        Ok(Seq::empty())
    } else {
        match dw_items(items, (n - 1) as nat) {
            Err(e) => Err(e),
            Ok(prev) => if trim(items[n - 1]).len() == 0 {
                Ok(prev)
            } else {
                match spec_data(items[n - 1]) {
                    Err(e) => Err(e),
                    Ok(d) => Ok(prev.push(d)),
                }
            },
        }
    }
}

/// The label and the remainder of a comment-free, trimmed line.
pub open spec fn split_label(code: Seq<char>) -> (Option<Seq<char>>, Seq<char>) {
    match find_char(code, ':', 0) {
        Some(c) => {
            let name = trim(code.subrange(0, c as int));
            if name.len() > 0 {
                (Some(name), trim(code.subrange(c + 1 as int, code.len() as int)))
            } else {
                (None, code)
            }
        },
        None => (None, code),
    }
}

/// The two operands of an instruction: the text before and after the first comma.
pub open spec fn spec_operands(after: Seq<char>) -> Result<
    (OperandExprView, OperandExprView),
    ParseErrorView,
> {
    let (left_raw, right_raw) = match find_char(after, ',', 0) {
        Some(c) => (after.subrange(0, c as int), after.subrange(c + 1 as int, after.len() as int)),
        None => (after, Seq::empty()),
    };
    match spec_operand(left_raw) {
        Err(e) => Err(e),
        Ok(l) => match spec_operand(right_raw) {
            Err(e) => Err(e),
            Ok(r) => Ok((l, r)),
        },
    }
}

/// The parse of one source line.
pub open spec fn spec_parse_line(line: Seq<char>) -> Result<
    (Option<Seq<char>>, LineKindView),
    ParseErrorView,
> {
    let code = trim(code_part(line));
    if code.len() == 0 {
        Ok((None, LineKindView::Empty))
    } else {
        let (label, rest) = split_label(code);
        if rest.len() == 0 {
            Ok((label, LineKindView::Empty))
        } else {
            let ws = words(rest);
            let op_raw = ws[0];
            let op = upper(op_raw);
            let after = join_spaces(ws.skip(1));
            if op == seq!['O', 'R', 'G'] {
                let expr = trim(after);
                if expr.len() == 0 {
                    Err(ParseErrorView::OrgMissingAddress)
                } else {
                    match spec_parse_number(expr) {
                        None => Err(ParseErrorView::BadNumber(expr)),
                        Some(v) => Ok((label, LineKindView::Org(v))),
                    }
                }
            } else if op == seq!['D', 'W'] {
                let items = split_from(after, ',', 0);
                match dw_items(items, items.len()) {
                    Err(e) => Err(e),
                    Ok(ds) => Ok((label, LineKindView::Dw(ds))),
                }
            } else if is_unsupported_directive(op) {
                Err(ParseErrorView::UnsupportedDirective(op_raw))
            } else {
                match spec_operands(after) {
                    Err(e) => Err(e),
                    Ok((l, r)) => Ok((label, LineKindView::Instr(op, l, r))),
                }
            }
        }
    }
}

/// The view of a line parse outcome.
pub open spec fn line_result_view(r: Result<ParsedLine, ParseError>) -> Result<
    (Option<Seq<char>>, LineKindView),
    ParseErrorView,
> {
    match r {
        Ok(p) => Ok((label_view(p.label), kind_view(p.kind))),
        Err(e) => Err(e@),
    }
}

fn to_upper(s: &[char]) -> (r: Vec<char>)
    ensures
        r@ == upper(s@),
{
    let mut out: Vec<char> = Vec::new();
    let mut i: usize = 0;
    while i < s.len()
        invariant
            i <= s@.len(),
            out@ == upper(s@.subrange(0, i as int)),
        decreases s@.len() - i,
    {
        let c = s[i];
        out.push(
            if 'a' <= c && c <= 'z' {
                ((c as u8) - 32) as u8 as char
            } else {
                c
            },
        );
        i = i + 1;
        assert(out@ =~= upper(s@.subrange(0, i as int)));
    }
    assert(s@.subrange(0, i as int) =~= s@);
    out
}

fn is_lit(s: &[char], lit: Vec<char>) -> (r: bool)
    ensures
        r == (s@ == lit@),
{
    chars_eq(s, lit.as_slice())
}

fn unsupported_directive(op: &[char]) -> (r: bool)
    ensures
        r == is_unsupported_directive(op@),
{
    is_lit(op, vec!['.', 'C', 'H', 'I', 'P']) || is_lit(op, vec!['C', 'H', 'I', 'P']) || is_lit(
        op,
        vec!['.', 'D', 'A', 'T', 'A'],
    ) || is_lit(op, vec!['.', 'A', 'L', 'I', 'G', 'N']) || is_lit(
        op,
        vec!['I', 'N', 'C', 'L', 'U', 'D', 'E'],
    ) || is_lit(op, vec!['I', 'N', 'C', 'L', 'U', 'D', 'E', 'B', 'I', 'N']) || is_lit(
        op,
        vec!['D', 'B'],
    ) || is_lit(op, vec!['D', 'S'])
}

fn parse_dw_items(items: &[Vec<char>]) -> (r: Result<Vec<DataExpr>, ParseError>)
    ensures
        r matches Ok(v) ==> dw_items(views(items@), items@.len()) == Ok::<
            Seq<DataExprView>,
            ParseErrorView,
        >(v@.map_values(|d: DataExpr| data_view(d))),
        r matches Err(e) ==> dw_items(views(items@), items@.len()) == Err::<
            Seq<DataExprView>,
            ParseErrorView,
        >(e@),
{
    let mut out: Vec<DataExpr> = Vec::new();
    let mut i: usize = 0;
    assert(out@.map_values(|d: DataExpr| data_view(d)) =~= Seq::empty());
    while i < items.len()
        invariant
            i <= items@.len(),
            dw_items(views(items@), i as nat) == Ok::<Seq<DataExprView>, ParseErrorView>(
                out@.map_values(|d: DataExpr| data_view(d)),
            ),
        decreases items@.len() - i,
    {
        let t = trim_chars(items[i].as_slice());
        if t.len() != 0 {
            match parse_data_expr(items[i].as_slice()) {
                Err(e) => {
                    proof {
                        lemma_dw_err_persists(views(items@), (i + 1) as nat, items@.len());
                    }
                    return Err(e);
                },
                Ok(d) => {
                    let ghost before = out@;
                    out.push(d);
                    assert(out@.map_values(|d: DataExpr| data_view(d)) =~= before.map_values(
                        |d: DataExpr| data_view(d),
                    ).push(data_view(out@.last())));
                },
            }
        }
        i = i + 1;
    }
    Ok(out)
}

proof fn lemma_dw_err_persists(items: Seq<Seq<char>>, n: nat, m: nat)
    requires
        n <= m,
        dw_items(items, n) is Err,
    ensures
        dw_items(items, m) == dw_items(items, n),
    decreases m - n,
{
    if n < m {
        lemma_dw_err_persists(items, n, (m - 1) as nat);
    }
}

fn split_label_exec(code: Vec<char>) -> (r: (Option<Vec<char>>, Vec<char>))
    ensures
        (label_view(r.0), r.1@) == split_label(code@),
        code@.len() > 0 && !is_white(code@[0]) && r.1@.len() > 0 ==> !is_white(r.1@[0]),
{
    let n = code.len();
    match find_char_from(code.as_slice(), ':', 0) {
        Some(c) => {
            proof {
                lemma_find_char_bounds(code@, ':', 0);
            }
            let left = slice_vec(code.as_slice(), 0, c);
            let name = trim_chars(left.as_slice());
            if name.len() > 0 {
                let right = slice_vec(code.as_slice(), c + 1, n);
                let rest = trim_chars(right.as_slice());
                proof {
                    crate::text::lemma_trim_first(right@);
                }
                (Some(name), rest)
            } else {
                (None, code)
            }
        },
        None => (None, code),
    }
}

/// Parse one source line into its label and content.
#[verifier::rlimit(30)]
pub fn parse_line(line: &[char]) -> (r: Result<ParsedLine, ParseError>)
    ensures
        line_result_view(r) == spec_parse_line(line@),
{
    let code_raw = match find_char_from(line, ';', 0) {
        Some(k) => {
            proof {
                lemma_find_char_bounds(line@, ';', 0);
            }
            slice_vec(line, 0, k)
        },
        None => slice_vec(line, 0, line.len()),
    };
    assert(code_raw@ =~= code_part(line@));
    let code = trim_chars(code_raw.as_slice());
    proof {
        crate::text::lemma_trim_first(code_raw@);
    }
    if code.len() == 0 {
        return Ok(ParsedLine { label: None, kind: LineKind::Empty });
    }
    let (label, rest) = split_label_exec(code);
    if rest.len() == 0 {
        return Ok(ParsedLine { label, kind: LineKind::Empty });
    }
    let ws = split_words(rest.as_slice());
    proof {
        crate::text::lemma_words_nonempty(rest@);
    }
    let op_raw = slice_vec(ws[0].as_slice(), 0, ws[0].len());
    assert(op_raw@ =~= words(rest@)[0]);
    let op = to_upper(op_raw.as_slice());
    let tail = crate::format::tail_vecs(ws.as_slice(), 1);
    assert(views(tail@) =~= words(rest@).skip(1));
    let after = join_words(tail.as_slice());
    if is_lit(op.as_slice(), vec!['O', 'R', 'G']) {
        let expr = trim_chars(after.as_slice());
        if expr.len() == 0 {
            return Err(ParseError::OrgMissingAddress);
        }
        return match parse_number(expr.as_slice()) {
            None => Err(ParseError::BadNumber(expr)),
            Some(v) => Ok(ParsedLine { label, kind: LineKind::Org(v) }),
        };
    }
    if is_lit(op.as_slice(), vec!['D', 'W']) {
        let items = split_chars(after.as_slice(), ',');
        return match parse_dw_items(items.as_slice()) {
            Err(e) => Err(e),
            Ok(ds) => Ok(ParsedLine { label, kind: LineKind::Dw(ds) }),
        };
    }
    if unsupported_directive(op.as_slice()) {
        return Err(ParseError::UnsupportedDirective(op_raw));
    }
    match parse_operands(after.as_slice()) {
        Err(e) => Err(e),
        Ok((left, right)) => Ok(
            ParsedLine { label, kind: LineKind::Instr { mnemonic: op, left, right } },
        ),
    }
}

fn parse_operands(after: &[char]) -> (r: Result<(OperandExpr, OperandExpr), ParseError>)
    ensures
        r matches Ok((a, b)) ==> spec_operands(after@) == Ok::<
            (OperandExprView, OperandExprView),
            ParseErrorView,
        >((expr_view(a), expr_view(b))),
        r matches Err(e) ==> spec_operands(after@) == Err::<
            (OperandExprView, OperandExprView),
            ParseErrorView,
        >(e@),
{
    let n = after.len();
    let (left_raw, right_raw) = match find_char_from(after, ',', 0) {
        Some(c) => {
            proof {
                lemma_find_char_bounds(after@, ',', 0);
            }
            (slice_vec(after, 0, c), slice_vec(after, c + 1, n))
        },
        None => (slice_vec(after, 0, n), Vec::new()),
    };
    let ghost parts = match find_char(after@, ',', 0) {
        Some(c) => (after@.subrange(0, c as int), after@.subrange(c + 1 as int, after@.len() as int)),
        None => (after@, Seq::<char>::empty()),
    };
    assert(left_raw@ =~= parts.0);
    assert(right_raw@ =~= parts.1);
    let lr = parse_operand_expr(left_raw.as_slice());
    let left = match lr {
        Ok(l) => l,
        Err(e) => {
            return Err(e);
        },
    };
    let rr = parse_operand_expr(right_raw.as_slice());
    let right = match rr {
        Ok(r) => r,
        Err(e) => {
            return Err(e);
        },
    };
    Ok((left, right))
}

} // verus!
