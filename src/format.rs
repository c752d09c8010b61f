//! Cosmetic normalisation of disassembled text: comments stripped, tabs expanded,
//! mnemonics and operands aligned in columns, blank lines put before function labels,
//! and a `;` aligned past the longest line.
use vstd::prelude::*;
use crate::diff::code_part;
use crate::text::{
    chars_eq, chars_of, find_char, find_char_from, first_word, is_white_char, join_spaces,
    join_words, lemma_find_char_bounds, lines_of, skip_white, skip_white_back, slice_vec,
    split_lines, split_words, string_of, trim, trim_chars, views, words,
};

verus! {

/// Number of spaces a leading tab stands for.
pub const TAB_WIDTH: usize = 4;

/// Index of the first character at or after `i` that is not `c`, or the length.
pub open spec fn skip_char(s: Seq<char>, c: char, i: nat) -> nat
    decreases s.len() - i,
{
    if i >= s.len() {
        s.len()
    } else if s[i as int] == c {
        skip_char(s, c, i + 1)
    } else {
        i
    }
}

/// `n` spaces.
pub open spec fn spaces(n: nat) -> Seq<char> {
    Seq::new(n, |i: int| ' ')
}

/// Leading tabs become `TAB_WIDTH` spaces each, every other tab one space.
pub open spec fn expand_tabs(l: Seq<char>) -> Seq<char> {
    let k = skip_char(l, '\t', 0);
    spaces((TAB_WIDTH * k) as nat) + l.subrange(k as int, l.len() as int).map_values(
        |c: char|
            if c == '\t' {
                ' '
            } else {
                c
            },
    )
}

/// A raw line after comment stripping, tab expansion and trailing-space trimming;
/// `None` when it is a full-line comment or nothing is left.
pub open spec fn clean_line(raw: Seq<char>) -> Option<Seq<char>> {
    let a = skip_white(raw, 0);
    if a < raw.len() && raw[a as int] == ';' {
        None
    } else {
        let e = expand_tabs(code_part(raw));
        let t = e.subrange(0, skip_white_back(e, e.len()) as int);
        if t.len() == 0 {
            None
        } else {
            Some(t)
        }
    }
}

/// The cleaned lines among the first `n` raw lines.
pub open spec fn clean_prefix(ls: Seq<Seq<char>>, n: nat) -> Seq<Seq<char>>
    decreases n,
{
    if n == 0 {
        Seq::empty()
    } else {
        let prev = clean_prefix(ls, (n - 1) as nat);
        match clean_line(ls[n - 1]) {
            Some(t) => prev.push(t),
            None => prev,
        }
    }
}

/// Number of leading spaces of a line.
pub open spec fn indent_of(l: Seq<char>) -> nat {
    skip_char(l, ' ', 0)
}

/// The words of a line after its indentation.
pub open spec fn line_words(l: Seq<char>) -> Seq<Seq<char>> {
    words(trim(l.subrange(indent_of(l) as int, l.len() as int)))
}

/// Whether a line takes part in column alignment: a mnemonic and at least one operand.
pub open spec fn is_candidate(l: Seq<char>) -> bool {
    line_words(l).len() >= 2
}

/// The operand text of a candidate line: its words after the first, joined by spaces.
pub open spec fn operand_text(l: Seq<char>) -> Seq<char> {
    join_spaces(line_words(l).skip(1))
}

/// First operand: the operand text before its first comma, trimmed.
pub open spec fn op1_of(l: Seq<char>) -> Seq<char> {
    let o = operand_text(l);
    match find_char(o, ',', 0) {
        Some(p) => trim(o.subrange(0, p as int)),
        None => trim(o),
    }
}

/// Second operand: the trimmed text after the first comma, when not empty.
pub open spec fn op2_of(l: Seq<char>) -> Option<Seq<char>> {
    let o = operand_text(l);
    match find_char(o, ',', 0) {
        Some(p) => {
            let r = trim(o.subrange(p + 1 as int, o.len() as int));
            if r.len() == 0 {
                None
            } else {
                Some(r)
            }
        },
        None => None,
    }
}

/// Indentation plus mnemonic width of a line.
pub open spec fn width_of(l: Seq<char>) -> nat {
    indent_of(l) + line_words(l)[0].len()
}

/// The largest width among the candidate lines of the first `n`, or 0.
pub open spec fn max_width(ls: Seq<Seq<char>>, n: nat) -> nat
    decreases n,
{
    if n == 0 {
        0
    } else {
        let m = max_width(ls, (n - 1) as nat);
        if is_candidate(ls[n - 1]) && width_of(ls[n - 1]) > m {
            width_of(ls[n - 1])
        } else {
            m
        }
    }
}

/// A line with its mnemonic padded to `col` and its first operand padded to six
/// characters before a comma; a non-candidate line stays as it is.
pub open spec fn aligned_line(l: Seq<char>, col: nat) -> Seq<char> {
    if !is_candidate(l) {
        l
    } else {
        let w = width_of(l);
        let gap: nat = if col > w + 1 {
            (col - w) as nat
        } else {
            1
        };
        let op1 = op1_of(l);
        let head = spaces(indent_of(l)) + line_words(l)[0] + spaces(gap) + op1;
        match op2_of(l) {
            Some(op2) => head + seq![','] + spaces(
                if op1.len() < 6 {
                    (6 - op1.len()) as nat
                } else {
                    0
                },
            ) + op2,
            None => head,
        }
    }
}

/// The whole column alignment.
pub open spec fn align_all(ls: Seq<Seq<char>>) -> Seq<Seq<char>> {
    let col = max_width(ls, ls.len()) + 1;
    ls.map_values(|l: Seq<char>| aligned_line(l, col))
}

/// Whether `st` is exactly a `func_*:` label.
pub open spec fn is_func_label(st: Seq<char>) -> bool {
    &&& st.len() >= 5
    &&& st.subrange(0, 5) == seq!['f', 'u', 'n', 'c', '_']
    &&& st.last() == ':'
    &&& !st.contains(' ')
}

/// First words after which a function label gets no blank line.
pub open spec fn ends_function(w: Seq<char>) -> bool {
    w == seq!['R', 'E', 'T'] || w == seq!['D', 'W'] || w == seq!['C', 'A', 'L', 'L'] || w == seq![
        'J',
        'M',
        'P',
    ]
}

/// First words of skip instructions: a blank line is kept after a line that follows one.
pub open spec fn is_skip(w: Seq<char>) -> bool {
    w == seq!['C', 'M', 'P', 'R', 'S'] || w == seq!['B', '0', 'B', 'T', 'S', '0'] || w == seq![
        'B',
        '0',
        'B',
        'T',
        'S',
        '1',
    ] || w == seq!['B', 'T', 'S', '0'] || w == seq!['B', 'T', 'S', '1']
}

/// Whether a blank line goes before line `idx`: before a function label, unless the
/// line before starts with `RET`, `DW`, `CALL` or `JMP` and the one before that does
/// not start with a skip instruction.
pub open spec fn needs_blank(al: Seq<Seq<char>>, idx: int) -> bool {
    &&& is_func_label(trim(al[idx]))
    &&& idx > 0
    &&& !(ends_function(first_word(al[idx - 1])) && !(idx >= 2 && is_skip(
        first_word(al[idx - 2]),
    )))
}

/// The first `n` lines with blank lines inserted.
pub open spec fn with_blanks(al: Seq<Seq<char>>, n: nat) -> Seq<Seq<char>>
    decreases n,
{
    if n == 0 {
        Seq::empty()
    } else {
        let prev = with_blanks(al, (n - 1) as nat);
        if needs_blank(al, n - 1) {
            prev.push(Seq::empty()).push(al[n - 1])
        } else {
            prev.push(al[n - 1])
        }
    }
}

/// The length of the longest of the first `n` lines.
pub open spec fn max_len(ls: Seq<Seq<char>>, n: nat) -> nat
    decreases n,
{
    if n == 0 {
        0
    } else {
        let m = max_len(ls, (n - 1) as nat);
        if ls[n - 1].len() > m {
            ls[n - 1].len()
        } else {
            m
        }
    }
}

/// The output text of the first `n` lines, each non-empty one padded to `width` and
/// ended by ` ;`.
pub open spec fn semicolon_text(ls: Seq<Seq<char>>, width: nat, n: nat) -> Seq<char>
    decreases n,
{
    if n == 0 {
        Seq::empty()
    } else {
        let l = ls[n - 1];
        semicolon_text(ls, width, (n - 1) as nat) + if l.len() == 0 {
            seq!['\n']
        } else {
            l + spaces((width - l.len() + 1) as nat) + seq![';', '\n']
        }
    }
}

/// The formatted text of an assembly listing.
pub open spec fn spec_format(text: Seq<char>) -> Seq<char> {
    let ls = lines_of(text);
    let cleaned = clean_prefix(ls, ls.len());
    let al = align_all(cleaned);
    let bl = with_blanks(al, al.len());
    semicolon_text(bl, max_len(bl, bl.len()), bl.len())
}

fn push_spaces(v: &mut Vec<char>, n: u128)
    ensures
        final(v)@ == old(v)@ + spaces(n as nat),
{
    let mut i: u128 = 0;
    while i < n
        invariant
            i <= n,
            v@ == old(v)@ + spaces(i as nat),
        decreases n - i,
    {
        v.push(' ');
        i = i + 1;
        assert(v@ =~= old(v)@ + spaces(i as nat));
    }
}

fn append_chars(v: &mut Vec<char>, s: &[char])
    ensures
        final(v)@ == old(v)@ + s@,
{
    let mut i: usize = 0;
    while i < s.len()
        invariant
            i <= s@.len(),
            v@ == old(v)@ + s@.subrange(0, i as int),
        decreases s@.len() - i,
    {
        v.push(s[i]);
        i = i + 1;
        assert(v@ =~= old(v)@ + s@.subrange(0, i as int));
    }
    assert(s@.subrange(0, i as int) =~= s@);
}

fn skip_char_from(s: &[char], c: char, from: usize) -> (r: usize)
    requires
        from <= s@.len(),
    ensures
        r == skip_char(s@, c, from as nat),
        from <= r <= s@.len(),
{
    let mut i = from;
    while i < s.len() && s[i] == c
        invariant
            from <= i <= s@.len(),
            skip_char(s@, c, from as nat) == skip_char(s@, c, i as nat),
        decreases s@.len() - i,
    {
        i = i + 1;
    }
    i
}

/// Replace each leading tab with `TAB_WIDTH` spaces and every other tab with one space.
pub fn convert_leading_tabs_to_spaces(line: &[char]) -> (r: Vec<char>)
    ensures
        r@ == expand_tabs(line@),
{
    let k = skip_char_from(line, '\t', 0);
    let mut out: Vec<char> = Vec::new();
    let mut t: usize = 0;
    while t < k
        invariant
            t <= k,
            k <= line@.len(),
            out@ == spaces((TAB_WIDTH * t) as nat),
        decreases k - t,
    {
        push_spaces(&mut out, TAB_WIDTH as u128);
        t = t + 1;
        assert(out@ =~= spaces((TAB_WIDTH * t) as nat));
    }
    let ghost head = out@;
    let mut i = k;
    while i < line.len()
        invariant
            k <= i <= line@.len(),
            out@ == head + line@.subrange(k as int, i as int).map_values(
                |c: char|
                    if c == '\t' {
                        ' '
                    } else {
                        c
                    },
            ),
        decreases line@.len() - i,
    {
        let c = line[i];
        out.push(
            if c == '\t' {
                ' '
            } else {
                c
            },
        );
        i = i + 1;
        assert(out@ =~= head + line@.subrange(k as int, i as int).map_values(
            |c: char|
                if c == '\t' {
                    ' '
                } else {
                    c
                },
        ));
    }
    out
}

fn clean_one(raw: &[char]) -> (r: Option<Vec<char>>)
    ensures
        r matches Some(t) ==> clean_line(raw@) == Some(t@),
        r is None ==> clean_line(raw@) is None,
{
    let mut a: usize = 0;
    while a < raw.len() && is_white_char(raw[a])
        invariant
            a <= raw@.len(),
            skip_white(raw@, 0) == skip_white(raw@, a as nat),
        decreases raw@.len() - a,
    {
        a = a + 1;
    }
    if a < raw.len() && raw[a] == ';' {
        return None;
    }
    let code = match find_char_from(raw, ';', 0) {
        Some(k) => {
            proof {
                lemma_find_char_bounds(raw@, ';', 0);
            }
            slice_vec(raw, 0, k)
        },
        None => slice_vec(raw, 0, raw.len()),
    };
    assert(code@ =~= code_part(raw@));
    let e = convert_leading_tabs_to_spaces(code.as_slice());
    let mut b = e.len();
    while b > 0 && is_white_char(e[b - 1])
        invariant
            b <= e@.len(),
            skip_white_back(e@, e@.len()) == skip_white_back(e@, b as nat),
        decreases b,
    {
        b = b - 1;
    }
    if b == 0 {
        return None;
    }
    Some(slice_vec(e.as_slice(), 0, b))
}

/// The cleaned lines of a listing.
pub fn clean_lines(ls: &[Vec<char>]) -> (r: Vec<Vec<char>>)
    ensures
        views(r@) == clean_prefix(views(ls@), ls@.len()),
{
    let mut out: Vec<Vec<char>> = Vec::new();
    let mut i: usize = 0;
    while i < ls.len()
        invariant
            i <= ls@.len(),
            views(out@) == clean_prefix(views(ls@), i as nat),
        decreases ls@.len() - i,
    {
        let ghost before = out@;
        match clean_one(ls[i].as_slice()) {
            Some(t) => {
                out.push(t);
                assert(views(out@) =~= views(before).push(t@));
            },
            None => {},
        }
        i = i + 1;
    }
    out
}

/// The alignment fields of one cleaned line.
pub struct LineFields {
    pub indent: usize,
    pub mnemonic: Vec<char>,
    pub op1: Vec<char>,
    pub op2: Option<Vec<char>>,
    pub candidate: bool,
}

/// Split a line into indentation, mnemonic and operands.
pub fn line_fields(l: &[char]) -> (r: LineFields)
    ensures
        r.indent == indent_of(l@),
        r.candidate == is_candidate(l@),
        r.candidate ==> r.mnemonic@ == line_words(l@)[0],
        r.candidate ==> r.op1@ == op1_of(l@),
        r.candidate ==> (r.op2 matches Some(o) ==> op2_of(l@) == Some(o@)),
        r.candidate ==> (r.op2 is None ==> op2_of(l@) is None),
{
    let indent = skip_char_from(l, ' ', 0);
    let after = slice_vec(l, indent, l.len());
    let rest = trim_chars(after.as_slice());
    let parts = split_words(rest.as_slice());
    if parts.len() < 2 {
        return LineFields {
            indent,
            mnemonic: Vec::new(),
            op1: Vec::new(),
            op2: None,
            candidate: false,
        };
    }
    let mnemonic = slice_vec(parts[0].as_slice(), 0, parts[0].len());
    assert(mnemonic@ =~= line_words(l@)[0]);
    let tail = tail_vecs(parts.as_slice(), 1);
    assert(views(tail@) =~= line_words(l@).skip(1));
    let operands = join_words(tail.as_slice());
    proof {
        lemma_find_char_bounds(operands@, ',', 0);
    }
    let n = operands.len();
    match find_char_from(operands.as_slice(), ',', 0) {
        Some(p) => {
            assert(p < n);
            let left = slice_vec(operands.as_slice(), 0, p);
            let right = slice_vec(operands.as_slice(), p + 1, operands.len());
            let op1 = trim_chars(left.as_slice());
            let r = trim_chars(right.as_slice());
            let op2 = if r.len() == 0 {
                None
            } else {
                Some(r)
            };
            LineFields { indent, mnemonic, op1, op2, candidate: true }
        },
        None => {
            let op1 = trim_chars(operands.as_slice());
            LineFields { indent, mnemonic, op1, op2: None, candidate: true }
        },
    }
}

/// The character vectors of `v` from index `lo` on.
pub fn tail_vecs(v: &[Vec<char>], lo: usize) -> (r: Vec<Vec<char>>)
    requires
        lo <= v@.len(),
    ensures
        views(r@) == views(v@).skip(lo as int),
{
    let mut out: Vec<Vec<char>> = Vec::new();
    let mut i = lo;
    while i < v.len()
        invariant
            lo <= i <= v@.len(),
            views(out@) == views(v@).subrange(lo as int, i as int),
        decreases v@.len() - i,
    {
        let ghost before = out@;
        let c = slice_vec(v[i].as_slice(), 0, v[i].len());
        assert(c@ =~= v@[i as int]@);
        out.push(c);
        i = i + 1;
        assert(views(out@) =~= views(before).push(c@));
        assert(views(v@).subrange(lo as int, i as int) =~= views(v@).subrange(lo as int, i - 1).push(
            views(v@)[i - 1],
        ));
    }
    assert(views(v@).subrange(lo as int, i as int) =~= views(v@).skip(lo as int));
    out
}

fn aligned_one(l: &[char], col: u128) -> (r: Vec<char>)
    ensures
        r@ == aligned_line(l@, col as nat),
{
    let f = line_fields(l);
    if !f.candidate {
        return slice_vec(l, 0, l.len());
    }
    let w: u128 = f.indent as u128 + f.mnemonic.len() as u128;
    let gap: u128 = if col > w + 1 {
        col - w
    } else {
        1
    };
    let mut out: Vec<char> = Vec::new();
    push_spaces(&mut out, f.indent as u128);
    append_chars(&mut out, f.mnemonic.as_slice());
    push_spaces(&mut out, gap);
    append_chars(&mut out, f.op1.as_slice());
    match &f.op2 {
        Some(op2) => {
            out.push(',');
            let pad: u128 = if f.op1.len() < 6 {
                6 - f.op1.len() as u128
            } else {
                0
            };
            push_spaces(&mut out, pad);
            append_chars(&mut out, op2.as_slice());
        },
        None => {},
    }
    out
}

/// Align mnemonics and operands of all lines into columns.
pub fn align_columns(ls: &[Vec<char>]) -> (r: Vec<Vec<char>>)
    ensures
        views(r@) == align_all(views(ls@)),
{
    let mut m: u128 = 0;
    let mut i: usize = 0;
    while i < ls.len()
        invariant
            i <= ls@.len(),
            m == max_width(views(ls@), i as nat),
            m <= usize::MAX * 2,
        decreases ls@.len() - i,
    {
        let f = line_fields(ls[i].as_slice());
        if f.candidate {
            let w: u128 = f.indent as u128 + f.mnemonic.len() as u128;
            if w > m {
                m = w;
            }
        }
        i = i + 1;
    }
    let col: u128 = m + 1;
    let mut out: Vec<Vec<char>> = Vec::new();
    let mut k: usize = 0;
    while k < ls.len()
        invariant
            k <= ls@.len(),
            col == max_width(views(ls@), ls@.len()) + 1,
            views(out@) == views(ls@).subrange(0, k as int).map_values(
                |l: Seq<char>| aligned_line(l, col as nat),
            ),
        decreases ls@.len() - k,
    {
        let ghost before = out@;
        let a = aligned_one(ls[k].as_slice(), col);
        out.push(a);
        k = k + 1;
        assert(views(out@) =~= views(ls@).subrange(0, k as int).map_values(
            |l: Seq<char>| aligned_line(l, col as nat),
        )) by {
            assert(views(out@) =~= views(before).push(a@));
        }
    }
    assert(views(ls@).subrange(0, k as int) =~= views(ls@));
    out
}

fn first_word_of(l: &[char]) -> (r: Vec<char>)
    ensures
        r@ == first_word(l@),
{
    let ws = split_words(l);
    if ws.len() > 0 {
        let w = slice_vec(ws[0].as_slice(), 0, ws[0].len());
        assert(w@ =~= views(ws@)[0]);
        w
    } else {
        Vec::new()
    }
}

fn is_word(w: &[char], lit: Vec<char>) -> (r: bool)
    ensures
        r == (w@ == lit@),
{
    chars_eq(w, lit.as_slice())
}

fn ends_function_word(w: &[char]) -> (r: bool)
    ensures
        r == ends_function(w@),
{
    is_word(w, vec!['R', 'E', 'T']) || is_word(w, vec!['D', 'W']) || is_word(
        w,
        vec!['C', 'A', 'L', 'L'],
    ) || is_word(w, vec!['J', 'M', 'P'])
}

fn is_skip_word(w: &[char]) -> (r: bool)
    ensures
        r == is_skip(w@),
{
    is_word(w, vec!['C', 'M', 'P', 'R', 'S']) || is_word(w, vec!['B', '0', 'B', 'T', 'S', '0'])
        || is_word(w, vec!['B', '0', 'B', 'T', 'S', '1']) || is_word(w, vec!['B', 'T', 'S', '0'])
        || is_word(w, vec!['B', 'T', 'S', '1'])
}

fn is_func_label_line(l: &[char]) -> (r: bool)
    ensures
        r == is_func_label(trim(l@)),
{
    let st = trim_chars(l);
    let n = st.len();
    if n < 5 {
        return false;
    }
    let head = slice_vec(st.as_slice(), 0, 5);
    if !is_word(head.as_slice(), vec!['f', 'u', 'n', 'c', '_']) {
        return false;
    }
    if st[n - 1] != ':' {
        return false;
    }
    let mut i: usize = 0;
    while i < n
        invariant
            i <= n,
            n == st@.len(),
            st@ == trim(l@),
            forall|j: int| 0 <= j < i ==> st@[j] != ' ',
        decreases n - i,
    {
        if st[i] == ' ' {
            assert(st@.contains(' '));
            return false;
        }
        i = i + 1;
    }
    true
}

fn needs_blank_at(al: &[Vec<char>], idx: usize) -> (r: bool)
    requires
        idx < al@.len(),
    ensures
        r == needs_blank(views(al@), idx as int),
{
    if !is_func_label_line(al[idx].as_slice()) || idx == 0 {
        return false;
    }
    let prev = first_word_of(al[idx - 1].as_slice());
    if !ends_function_word(prev.as_slice()) {
        return true;
    }
    if idx >= 2 {
        let prev2 = first_word_of(al[idx - 2].as_slice());
        if is_skip_word(prev2.as_slice()) {
            return true;
        }
    }
    false
}

/// Insert a blank line before each `func_*:` label, except after a `RET`, `DW`, `CALL`
/// or `JMP` line that does not follow a skip instruction.
pub fn insert_blank_lines(al: &[Vec<char>]) -> (r: Vec<Vec<char>>)
    ensures
        views(r@) == with_blanks(views(al@), al@.len()),
{
    let mut out: Vec<Vec<char>> = Vec::new();
    let mut i: usize = 0;
    while i < al.len()
        invariant
            i <= al@.len(),
            views(out@) == with_blanks(views(al@), i as nat),
        decreases al@.len() - i,
    {
        let ghost before = out@;
        let line = slice_vec(al[i].as_slice(), 0, al[i].len());
        assert(line@ =~= views(al@)[i as int]);
        if needs_blank_at(al, i) {
            out.push(Vec::new());
            out.push(line);
            assert(views(out@) =~= views(before).push(Seq::empty()).push(line@));
        } else {
            out.push(line);
            assert(views(out@) =~= views(before).push(line@));
        }
        i = i + 1;
    }
    out
}

proof fn lemma_max_len_ge(ls: Seq<Seq<char>>, n: nat, j: int)
    requires
        0 <= j < n <= ls.len(),
    ensures
        ls[j].len() <= max_len(ls, n),
    decreases n,
{
    if j < n - 1 {
        lemma_max_len_ge(ls, (n - 1) as nat, j);
    }
}

/// Pad every non-empty line to one column past the longest and end it with `;`.
pub fn align_semicolons(ls: &[Vec<char>]) -> (r: String)
    ensures
        r@ == semicolon_text(views(ls@), max_len(views(ls@), ls@.len()), ls@.len()),
{
    let mut m: usize = 0;
    let mut i: usize = 0;
    while i < ls.len()
        invariant
            i <= ls@.len(),
            m == max_len(views(ls@), i as nat),
        decreases ls@.len() - i,
    {
        if ls[i].len() > m {
            m = ls[i].len();
        }
        i = i + 1;
    }
    let ghost vs = views(ls@);
    let mut out: Vec<char> = Vec::new();
    let mut k: usize = 0;
    while k < ls.len()
        invariant
            k <= ls@.len(),
            vs == views(ls@),
            m == max_len(vs, ls@.len()),
            out@ == semicolon_text(vs, m as nat, k as nat),
        decreases ls@.len() - k,
    {
        let ghost before = out@;
        let l = &ls[k];
        if l.len() == 0 {
            out.push('\n');
        } else {
            proof {
                lemma_max_len_ge(vs, ls@.len(), k as int);
            }
            append_chars(&mut out, l.as_slice());
            push_spaces(&mut out, (m - l.len()) as u128 + 1);
            out.push(';');
            out.push('\n');
        }
        k = k + 1;
        assert(out@ =~= semicolon_text(vs, m as nat, k as nat));
    }
    string_of(out.as_slice())
}

/// Format an assembly listing: strip comments, normalise indentation and tabs, align
/// mnemonics and operands, insert blank lines before `func_*` labels, align trailing
/// semicolons.
pub fn format_asm(text: &str) -> (r: String)
    ensures
        r@ == spec_format(text@),
{
    let cs = chars_of(text);
    let ls = split_lines(cs.as_slice());
    let cleaned = clean_lines(ls.as_slice());
    let al = align_columns(cleaned.as_slice());
    let bl = insert_blank_lines(al.as_slice());
    align_semicolons(bl.as_slice())
}

} // verus!
