//! The diff engine: an explicit copy/insert script applied to a baseline listing,
//! then merged line for line with a parallel stream of comments.
use vstd::prelude::*;
use crate::text::{
    chars_eq, chars_of, dec_text, push_dec, find_char, find_char_from, lemma_find_char_bounds, lines_of, push_str,
    slice_vec, split_lines, string_of, views,
};

verus! {

/// One operation of a diff script: `op` is `copy` (with a 1-based `from` line of the
/// baseline) or `insert` (with the literal `code`).
#[derive(Debug)]
pub struct Op {
    pub op: String,
    pub from: Option<usize>,
    pub code: Option<String>,
}

/// Why a diff script could not be applied.
#[derive(Debug, PartialEq, Eq)]
pub enum DiffError {
    MissingFrom,
    ZeroFrom,
    FromOutOfRange { from: usize, len: usize },
    UnknownOp(String),
    LineCountMismatch { codes: usize, comments: usize },
}

/// The mathematical content of a `DiffError`.
pub enum DiffErrorView {
    MissingFrom,
    ZeroFrom,
    FromOutOfRange(nat, nat),
    UnknownOp(Seq<char>),
    LineCountMismatch(nat, nat),
}

impl View for DiffError {
    type V = DiffErrorView;

    open spec fn view(&self) -> DiffErrorView {
        match self {
            DiffError::MissingFrom => DiffErrorView::MissingFrom,
            DiffError::ZeroFrom => DiffErrorView::ZeroFrom,
            DiffError::FromOutOfRange { from, len } => DiffErrorView::FromOutOfRange(
                *from as nat,
                *len as nat,
            ),
            DiffError::UnknownOp(o) => DiffErrorView::UnknownOp(o@),
            DiffError::LineCountMismatch { codes, comments } => DiffErrorView::LineCountMismatch(
                *codes as nat,
                *comments as nat,
            ),
        }
    }
}

impl DiffError {
    /// The human-readable text of the error.
    pub open spec fn spec_message(&self) -> Seq<char> {
        match self {
            DiffError::MissingFrom => "Missing 'from' field in copy op"@,
            DiffError::ZeroFrom => "Invalid 'from' (must be >= 1): 0"@,
            DiffError::FromOutOfRange { from, len } => "'from' line "@ + dec_text(*from as nat)
                + " is out of range for the baseline (len = "@ + dec_text(*len as nat) + ")"@,
            DiffError::UnknownOp(o) => "Unknown op type: "@ + o@,
            DiffError::LineCountMismatch { codes, comments } =>
                "Number of code lines after ops ("@ + dec_text(*codes as nat)
                    + ") != number of comment lines ("@ + dec_text(*comments as nat) + ")"@,
        }
    }

    /// The human-readable text of the error.
    pub fn message(&self) -> (r: String)
        ensures
            r@ == self.spec_message(),
    {
        let mut s = String::new();
        match self {
            DiffError::MissingFrom => push_str(&mut s, "Missing 'from' field in copy op"),
            DiffError::ZeroFrom => push_str(&mut s, "Invalid 'from' (must be >= 1): 0"),
            DiffError::FromOutOfRange { from, len } => {
                push_str(&mut s, "'from' line ");
                push_dec(&mut s, *from);
                push_str(&mut s, " is out of range for the baseline (len = ");
                push_dec(&mut s, *len);
                push_str(&mut s, ")");
            },
            DiffError::UnknownOp(o) => {
                push_str(&mut s, "Unknown op type: ");
                push_str(&mut s, o.as_str());
            },
            DiffError::LineCountMismatch { codes, comments } => {
                push_str(&mut s, "Number of code lines after ops (");
                push_dec(&mut s, *codes);
                push_str(&mut s, ") != number of comment lines (");
                push_dec(&mut s, *comments);
                push_str(&mut s, ")");
            },
        }
        s
    }
}

/// The code part of a line: everything before its first `;`.
pub open spec fn code_part(line: Seq<char>) -> Seq<char> {
    match find_char(line, ';', 0) {
        Some(k) => line.subrange(0, k as int),
        None => line,
    }
}

/// The comment part of a line: its first `;` and all after it, or nothing.
pub open spec fn comment_part(line: Seq<char>) -> Seq<char> {
    match find_char(line, ';', 0) {
        Some(k) => line.subrange(k as int, line.len() as int),
        None => Seq::empty(),
    }
}

/// The line that one operation produces.
pub open spec fn op_line(a: Seq<Seq<char>>, op: Op) -> Result<Seq<char>, DiffErrorView> {
    if op.op@ == seq!['c', 'o', 'p', 'y'] {
        match op.from {
            None => Err(DiffErrorView::MissingFrom),
            Some(f) => if f == 0 {
                Err(DiffErrorView::ZeroFrom)
            } else if f - 1 >= a.len() {
                Err(DiffErrorView::FromOutOfRange(f as nat, a.len()))
            } else {
                Ok(a[f - 1])
            },
        }
    } else if op.op@ == seq!['i', 'n', 's', 'e', 'r', 't'] {
        match op.code {
            Some(c) => Ok(c@),
            None => Ok(Seq::empty()),
        }
    } else {
        Err(DiffErrorView::UnknownOp(op.op@))
    }
}

/// The lines that the first `n` operations produce; the first failing one decides.
pub open spec fn build_codes(a: Seq<Seq<char>>, ops: Seq<Op>, n: nat) -> Result<
    Seq<Seq<char>>,
    DiffErrorView,
>
    decreases n,
{
    if n == 0 {
        Ok(Seq::empty())
    } else {
        match build_codes(a, ops, (n - 1) as nat) {
            Err(e) => Err(e),
            Ok(v) => match op_line(a, ops[n - 1]) {
                Err(e) => Err(e),
                Ok(l) => Ok(v.push(l)),
            },
        }
    }
}

/// Each code line followed by its comment line and a newline.
pub open spec fn merge_lines(codes: Seq<Seq<char>>, comments: Seq<Seq<char>>) -> Seq<Seq<char>>
    recommends
        codes.len() == comments.len(),
{
    Seq::new(codes.len(), |i: int| codes[i] + comments[i] + seq!['\n'])
}

/// The full result of applying a script and merging the comments.
pub open spec fn spec_apply_diff(
    a: Seq<Seq<char>>,
    ops: Seq<Op>,
    comments: Seq<Seq<char>>,
) -> Result<Seq<Seq<char>>, DiffErrorView> {
    match build_codes(a, ops, ops.len()) {
        Err(e) => Err(e),
        Ok(b) => if b.len() != comments.len() {
            Err(DiffErrorView::LineCountMismatch(b.len(), comments.len()))
        } else {
            Ok(merge_lines(b, comments))
        },
    }
}

/// Once an operation fails, every longer prefix of the script fails the same way.
proof fn lemma_build_err_persists(a: Seq<Seq<char>>, ops: Seq<Op>, n: nat, m: nat)
    requires
        n <= m,
        build_codes(a, ops, n) is Err,
    ensures
        build_codes(a, ops, m) == build_codes(a, ops, n),
    decreases m - n,
{
    if n < m {
        lemma_build_err_persists(a, ops, n, (m - 1) as nat);
    }
}

/// The views of a sequence of strings.
pub open spec fn string_views(v: Seq<String>) -> Seq<Seq<char>> {
    v.map_values(|x: String| x@)
}

/// Split a line into its code part (before the first `;`) and its comment part (the
/// `;` and the rest, or empty).
pub fn split_code_comment(line: &str) -> (r: (String, String))
    ensures
        r.0@ == code_part(line@),
        r.1@ == comment_part(line@),
{
    let cs = chars_of(line);
    match find_char_from(cs.as_slice(), ';', 0) {
        Some(k) => {
            proof {
                lemma_find_char_bounds(cs@, ';', 0);
            }
            let code = slice_vec(cs.as_slice(), 0, k);
            let comment = slice_vec(cs.as_slice(), k, cs.len());
            (string_of(code.as_slice()), string_of(comment.as_slice()))
        },
        None => (string_of(cs.as_slice()), String::new()),
    }
}

/// The code parts of the lines of a listing.
pub fn read_codes(text: &str) -> (r: Vec<String>)
    ensures
        string_views(r@) == lines_of(text@).map_values(|l: Seq<char>| code_part(l)),
{
    let cs = chars_of(text);
    let lines = split_lines(cs.as_slice());
    let ghost cl = views(lines@).map_values(|l: Seq<char>| code_part(l));
    let mut out: Vec<String> = Vec::new();
    let mut i: usize = 0;
    assert(string_views(out@) =~= cl.subrange(0, 0));
    while i < lines.len()
        invariant
            i <= lines@.len(),
            cl == views(lines@).map_values(|l: Seq<char>| code_part(l)),
            string_views(out@) == cl.subrange(0, i as int),
        decreases lines@.len() - i,
    {
        let line = string_of(lines[i].as_slice());
        let (code, _comment) = split_code_comment(line.as_str());
        let ghost before = out@;
        out.push(code);
        i = i + 1;
        assert(string_views(out@) =~= string_views(before).push(code@));
        assert(cl.subrange(0, i as int) =~= cl.subrange(0, i - 1).push(cl[i - 1]));
    }
    assert(cl.subrange(0, i as int) =~= cl);
    out
}

fn copy_string(s: &String) -> (r: String)
    ensures
        r@ == s@,
{
    s.clone()
}

fn is_word(s: &str, w: &str) -> (r: bool)
    ensures
        r == (s@ == w@),
{
    let a = chars_of(s);
    let b = chars_of(w);
    chars_eq(a.as_slice(), b.as_slice())
}

/// Apply the operations to the baseline code lines: `copy` takes baseline line `from`
/// (1-based), `insert` takes its literal code.
pub fn build_b_codes(a_codes: &[String], ops: &[Op]) -> (r: Result<Vec<String>, DiffError>)
    ensures
        r matches Ok(v) ==> build_codes(string_views(a_codes@), ops@, ops@.len()) == Ok::<
            Seq<Seq<char>>,
            DiffErrorView,
        >(string_views(v@)),
        r matches Err(e) ==> build_codes(string_views(a_codes@), ops@, ops@.len()) == Err::<
            Seq<Seq<char>>,
            DiffErrorView,
        >(e@),
{
    let mut b_codes: Vec<String> = Vec::new();
    let mut i: usize = 0;
    assert(string_views(b_codes@) =~= Seq::empty());
    while i < ops.len()
        invariant
            i <= ops@.len(),
            build_codes(string_views(a_codes@), ops@, i as nat) == Ok::<
                Seq<Seq<char>>,
                DiffErrorView,
            >(string_views(b_codes@)),
        decreases ops@.len() - i,
    {
        proof {
            reveal_strlit("copy");
            reveal_strlit("insert");
            assert("copy"@ =~= seq!['c', 'o', 'p', 'y']);
            assert("insert"@ =~= seq!['i', 'n', 's', 'e', 'r', 't']);
        }
        let op = &ops[i];
        let ghost before = b_codes@;
        let ghost a = string_views(a_codes@);
        if is_word(op.op.as_str(), "copy") {
            assert(op.op@ == seq!['c', 'o', 'p', 'y']);
            let from = match op.from {
                Some(f) => f,
                None => {
                    proof {
                lemma_build_err_persists(a, ops@, (i + 1) as nat, ops@.len());
            }
            return Err(DiffError::MissingFrom);
                },
            };
            if from == 0 {
                proof {
                lemma_build_err_persists(a, ops@, (i + 1) as nat, ops@.len());
            }
            return Err(DiffError::ZeroFrom);
            }
            let idx = from - 1;
            if idx >= a_codes.len() {
                proof {
                lemma_build_err_persists(a, ops@, (i + 1) as nat, ops@.len());
            }
            return Err(DiffError::FromOutOfRange { from, len: a_codes.len() });
            }
            b_codes.push(copy_string(&a_codes[idx]));
        } else if is_word(op.op.as_str(), "insert") {
            assert(op.op@ == seq!['i', 'n', 's', 'e', 'r', 't']);
            assert(op.op@ != seq!['c', 'o', 'p', 'y']);
            let code = match &op.code {
                Some(c) => copy_string(c),
                None => String::new(),
            };
            b_codes.push(code);
        } else {
            assert(op.op@ != seq!['c', 'o', 'p', 'y']);
            assert(op.op@ != seq!['i', 'n', 's', 'e', 'r', 't']);
            proof {
                lemma_build_err_persists(a, ops@, (i + 1) as nat, ops@.len());
            }
            return Err(DiffError::UnknownOp(copy_string(&op.op)));
        }
        assert(string_views(b_codes@) =~= string_views(before).push(b_codes@.last()@));
        i = i + 1;
    }
    Ok(b_codes)
}

/// Join each code line with its comment line and a newline; fails when the two counts
/// differ.
pub fn merge_comments(b_codes: &[String], comments: &[String]) -> (r: Result<
    Vec<String>,
    DiffError,
>)
    ensures
        b_codes@.len() != comments@.len() <==> r is Err,
        r matches Err(e) ==> e@ == DiffErrorView::LineCountMismatch(
            b_codes@.len(),
            comments@.len(),
        ),
        r matches Ok(v) ==> string_views(v@) == merge_lines(
            string_views(b_codes@),
            string_views(comments@),
        ),
{
    if b_codes.len() != comments.len() {
        return Err(DiffError::LineCountMismatch { codes: b_codes.len(), comments: comments.len() });
    }
    let mut out: Vec<String> = Vec::new();
    let mut i: usize = 0;
    while i < b_codes.len()
        invariant
            i <= b_codes@.len(),
            b_codes@.len() == comments@.len(),
            string_views(out@) == merge_lines(
                string_views(b_codes@),
                string_views(comments@),
            ).subrange(0, i as int),
        decreases b_codes@.len() - i,
    {
        let mut line = copy_string(&b_codes[i]);
        push_str(&mut line, comments[i].as_str());
        push_str(&mut line, "\n");
        proof {
            reveal_strlit("\n");
        }
        assert(line@ == merge_lines(string_views(b_codes@), string_views(comments@))[i as int]);
        let ghost before = out@;
        let ghost m = merge_lines(string_views(b_codes@), string_views(comments@));
        out.push(line);
        i = i + 1;
        assert(string_views(out@) =~= string_views(before).push(line@));
        assert(m.subrange(0, i as int) =~= m.subrange(0, i - 1).push(m[i - 1]));
    }
    assert(merge_lines(string_views(b_codes@), string_views(comments@)).subrange(
        0,
        i as int,
    ) =~= merge_lines(string_views(b_codes@), string_views(comments@)));
    Ok(out)
}

/// Apply a diff script to baseline code lines and merge the result with the comment
/// lines, which must be exactly as many as the lines produced.
pub fn apply_diff(a_codes: &[String], ops: &[Op], comments: &[String]) -> (r: Result<
    Vec<String>,
    DiffError,
>)
    ensures
        r matches Ok(v) ==> spec_apply_diff(string_views(a_codes@), ops@, string_views(comments@))
            == Ok::<Seq<Seq<char>>, DiffErrorView>(string_views(v@)),
        r matches Err(e) ==> spec_apply_diff(
            string_views(a_codes@),
            ops@,
            string_views(comments@),
        ) == Err::<Seq<Seq<char>>, DiffErrorView>(e@),
{
    let b_codes = build_b_codes(a_codes, ops)?;
    merge_comments(b_codes.as_slice(), comments)
}

} // verus!
