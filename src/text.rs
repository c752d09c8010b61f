//! Character-sequence helpers shared by the text-processing stages: conversion
//! between `str` and `Vec<char>`, and hexadecimal / decimal rendering of numbers.
use vstd::prelude::*;
use vstd::std_specs::iter::IteratorSpec;
use vstd::string::*;

verus! {

broadcast use vstd::string::axiom_spec_iter, vstd::string::next_postcondition;

/// Relies on `String::push`: appends one character.
#[verifier::external_body]
pub(crate) fn push_char(s: &mut String, c: char)
    ensures
        final(s)@ == old(s)@.push(c),
{
    s.push(c);
}

/// The characters of `s`, in order.
pub fn chars_of(s: &str) -> (r: Vec<char>)
    ensures
        r@ == s@,
{
    let mut it = s.chars();
    let mut out: Vec<char> = Vec::new();
    loop
        invariant
            out@ + it.remaining() == s@,
            it.obeys_prophetic_iter_laws(),
            it.decrease() is Some,
        ensures
            out@ == s@,
        decreases it.decrease()->0,
    {
        match it.next() {
            Some(c) => {
                out.push(c);
            },
            None => {
                assert(out@ =~= s@);
                break;
            },
        }
    }
    out
}

/// Whitespace as `char::is_whitespace` defines it (the Unicode `White_Space` property).
pub open spec fn is_white(c: char) -> bool {
    c == ' ' || ('\t' <= c && c <= '\r') || c == '\u{85}' || c == '\u{A0}' || c == '\u{1680}'
        || ('\u{2000}' <= c && c <= '\u{200A}') || c == '\u{2028}' || c == '\u{2029}' || c
        == '\u{202F}' || c == '\u{205F}' || c == '\u{3000}'
}

/// Index of the first character at or after `i` that is not whitespace, or the length.
pub open spec fn skip_white(s: Seq<char>, i: nat) -> nat
    decreases s.len() - i,
{
    if i >= s.len() {
        s.len()
    } else if is_white(s[i as int]) {
        skip_white(s, i + 1)
    } else {
        i
    }
}

/// The largest `k <= j` such that `s[k - 1]` is not whitespace, or 0.
pub open spec fn skip_white_back(s: Seq<char>, j: nat) -> nat
    decreases j,
{
    if j == 0 {
        0
    } else if is_white(s[j - 1]) {
        skip_white_back(s, (j - 1) as nat)
    } else {
        j
    }
}

/// `s` without leading and trailing whitespace (`str::trim`).
pub open spec fn trim(s: Seq<char>) -> Seq<char> {
    let a = skip_white(s, 0);
    let b = skip_white_back(s, s.len());
    if a < b {
        s.subrange(a as int, b as int)
    } else {
        Seq::empty()
    }
}

/// Index of the first `c` at or after `i`.
pub open spec fn find_char(s: Seq<char>, c: char, i: nat) -> Option<nat>
    decreases s.len() - i,
{
    if i >= s.len() {
        None
    } else if s[i as int] == c {
        Some(i)
    } else {
        find_char(s, c, i + 1)
    }
}

/// The pieces of `s` from `start` on, split at every `c` (`str::split`).
pub open spec fn split_from(s: Seq<char>, c: char, start: nat) -> Seq<Seq<char>>
    decreases s.len() + 1 - start via split_from_decreases
{
    if start > s.len() {
        Seq::empty()
    } else {
        match find_char(s, c, start) {
            Some(k) => seq![s.subrange(start as int, k as int)] + split_from(s, c, k + 1),
            None => seq![s.subrange(start as int, s.len() as int)],
        }
    }
}

/// A line's text without the `\r` of a `\r\n` ending.
pub open spec fn strip_cr(l: Seq<char>) -> Seq<char> {
    if l.len() > 0 && l[l.len() - 1] == '\r' {
        l.drop_last()
    } else {
        l
    }
}

#[via_fn]
proof fn lines_from_decreases(s: Seq<char>, start: nat) {
    lemma_find_char_bounds(s, '\n', start);
}

/// The lines of `s` from `start` on (`str::lines`): split at `\n`, a `\r` before it
/// dropped, no final empty line after a trailing newline.
pub open spec fn lines_from(s: Seq<char>, start: nat) -> Seq<Seq<char>>
    decreases s.len() - start via lines_from_decreases
{
    if start >= s.len() {
        Seq::empty()
    } else {
        match find_char(s, '\n', start) {
            Some(k) => seq![strip_cr(s.subrange(start as int, k as int))] + lines_from(s, k + 1),
            None => seq![s.subrange(start as int, s.len() as int)],
        }
    }
}

/// The lines of `s`.
pub open spec fn lines_of(s: Seq<char>) -> Seq<Seq<char>> {
    lines_from(s, 0)
}

/// Index of the first whitespace character at or after `i`, or the length.
pub open spec fn next_white(s: Seq<char>, i: nat) -> nat
    decreases s.len() - i,
{
    if i >= s.len() {
        s.len()
    } else if is_white(s[i as int]) {
        i
    } else {
        next_white(s, i + 1)
    }
}

proof fn lemma_skip_white_bounds(s: Seq<char>, i: nat)
    ensures
        i <= s.len() ==> i <= skip_white(s, i) <= s.len(),
        i > s.len() ==> skip_white(s, i) == s.len(),
        skip_white(s, i) < s.len() ==> !is_white(s[skip_white(s, i) as int]),
    decreases s.len() - i,
{
    if i < s.len() && is_white(s[i as int]) {
        lemma_skip_white_bounds(s, i + 1);
    }
}

proof fn lemma_next_white_bounds(s: Seq<char>, i: nat)
    ensures
        i < s.len() && !is_white(s[i as int]) ==> i < next_white(s, i) <= s.len(),
        i <= s.len() ==> i <= next_white(s, i) <= s.len(),
    decreases s.len() - i,
{
    if i < s.len() && !is_white(s[i as int]) {
        lemma_next_white_bounds(s, i + 1);
    }
}

#[via_fn]
proof fn words_from_decreases(s: Seq<char>, i: nat) {
    lemma_skip_white_bounds(s, i);
    lemma_next_white_bounds(s, skip_white(s, i));
}

/// The whitespace-separated words of `s` from `i` on (`str::split_whitespace`).
pub open spec fn words_from(s: Seq<char>, i: nat) -> Seq<Seq<char>>
    decreases s.len() - i via words_from_decreases
{
    let a = skip_white(s, i);
    if a >= s.len() {
        Seq::empty()
    } else {
        let b = next_white(s, a);
        seq![s.subrange(a as int, b as int)] + words_from(s, b)
    }
}

/// A text that is not all whitespace has a first word.
pub proof fn lemma_words_nonempty(s: Seq<char>)
    requires
        trim(s).len() > 0 || (s.len() > 0 && !is_white(s[0])),
    ensures
        words(s).len() > 0,
{
    lemma_skip_white_bounds(s, 0);
    lemma_skip_white_back_le(s, s.len());
    if skip_white(s, 0) >= s.len() {
        lemma_all_white_back(s, s.len());
    }
}

proof fn lemma_all_white_back(s: Seq<char>, j: nat)
    requires
        j <= s.len(),
        skip_white(s, 0) >= s.len(),
    ensures
        skip_white_back(s, j) == 0,
    decreases j,
{
    if j > 0 {
        lemma_skip_white_prefix(s, 0, (j - 1) as nat);
        lemma_all_white_back(s, (j - 1) as nat);
    }
}

proof fn lemma_skip_white_prefix(s: Seq<char>, i: nat, k: nat)
    requires
        i <= k < s.len(),
        skip_white(s, i) >= s.len(),
    ensures
        is_white(s[k as int]),
    decreases k - i,
{
    if i < k {
        lemma_skip_white_prefix(s, i + 1, k);
    }
}

/// The whitespace-separated words of `s`.
pub open spec fn words(s: Seq<char>) -> Seq<Seq<char>> {
    words_from(s, 0)
}

/// The first word of `s`, or the empty sequence.
pub open spec fn first_word(s: Seq<char>) -> Seq<char> {
    if words(s).len() > 0 {
        words(s)[0]
    } else {
        Seq::empty()
    }
}

/// `ws` joined by single spaces.
pub open spec fn join_spaces(ws: Seq<Seq<char>>) -> Seq<char>
    decreases ws.len(),
{
    if ws.len() == 0 {
        Seq::empty()
    } else if ws.len() == 1 {
        ws[0]
    } else {
        join_spaces(ws.drop_last()) + seq![' '] + ws.last()
    }
}

/// The views of a sequence of character vectors.
pub open spec fn views(v: Seq<Vec<char>>) -> Seq<Seq<char>> {
    v.map_values(|x: Vec<char>| x@)
}

/// Whitespace test.
pub fn is_white_char(c: char) -> (r: bool)
    ensures
        r == is_white(c),
{
    c == ' ' || ('\t' <= c && c <= '\r') || c == '\u{85}' || c == '\u{A0}' || c == '\u{1680}'
        || ('\u{2000}' <= c && c <= '\u{200A}') || c == '\u{2028}' || c == '\u{2029}' || c
        == '\u{202F}' || c == '\u{205F}' || c == '\u{3000}'
}

/// The characters `s[lo..hi]`.
pub fn slice_vec(s: &[char], lo: usize, hi: usize) -> (r: Vec<char>)
    requires
        lo <= hi <= s@.len(),
    ensures
        r@ == s@.subrange(lo as int, hi as int),
{
    let mut out: Vec<char> = Vec::new();
    let mut i = lo;
    while i < hi
        invariant
            lo <= i <= hi,
            hi <= s@.len(),
            out@ == s@.subrange(lo as int, i as int),
        decreases hi - i,
    {
        out.push(s[i]);
        i = i + 1;
        assert(out@ =~= s@.subrange(lo as int, i as int));
    }
    out
}

/// `s` without leading and trailing whitespace.
pub fn trim_chars(s: &[char]) -> (r: Vec<char>)
    ensures
        r@ == trim(s@),
{
    let mut a: usize = 0;
    while a < s.len() && is_white_char(s[a])
        invariant
            a <= s@.len(),
            skip_white(s@, 0) == skip_white(s@, a as nat),
        decreases s@.len() - a,
    {
        a = a + 1;
    }
    let mut b: usize = s.len();
    while b > a && is_white_char(s[b - 1])
        invariant
            a <= b <= s@.len(),
            skip_white_back(s@, s@.len()) == skip_white_back(s@, b as nat),
        decreases b,
    {
        b = b - 1;
    }
    proof {
        lemma_skip_white_back_le(s@, b as nat);
    }
    slice_vec(s, a, b)
}

/// A non-empty trimmed text starts with a non-whitespace character.
pub proof fn lemma_trim_first(s: Seq<char>)
    ensures
        trim(s).len() > 0 ==> !is_white(trim(s)[0]),
{
    lemma_skip_white_bounds(s, 0);
    lemma_skip_white_back_le(s, s.len());
    let a = skip_white(s, 0);
    let b = skip_white_back(s, s.len());
    if a < b {
        assert(trim(s)[0] == s[a as int]);
    }
}

/// Trimming never lengthens.
pub proof fn lemma_trim_bounds(s: Seq<char>)
    ensures
        trim(s).len() <= s.len(),
{
    lemma_skip_white_back_le(s, s.len());
}

proof fn lemma_skip_white_back_le(s: Seq<char>, j: nat)
    ensures
        skip_white_back(s, j) <= j,
    decreases j,
{
    if j > 0 {
        lemma_skip_white_back_le(s, (j - 1) as nat);
    }
}

/// A found `c` lies at or after the start and inside `s`.
pub proof fn lemma_find_char_bounds(s: Seq<char>, c: char, i: nat)
    ensures
        find_char(s, c, i) matches Some(k) ==> i <= k < s.len() && s[k as int] == c,
    decreases s.len() - i,
{
    if i < s.len() && s[i as int] != c {
        lemma_find_char_bounds(s, c, i + 1);
    }
}

#[via_fn]
proof fn split_from_decreases(s: Seq<char>, c: char, start: nat) {
    lemma_find_char_bounds(s, c, start);
}

/// Index of the first `c` in `s` at or after `from`.
pub fn find_char_from(s: &[char], c: char, from: usize) -> (r: Option<usize>)
    ensures
        r matches Some(k) ==> find_char(s@, c, from as nat) == Some(k as nat),
        r is None ==> find_char(s@, c, from as nat) is None,
{
    let mut i = from;
    while i < s.len()
        invariant
            from <= i,
            find_char(s@, c, from as nat) == find_char(s@, c, i as nat),
        decreases s@.len() - i,
    {
        if s[i] == c {
            return Some(i);
        }
        i = i + 1;
    }
    None
}

/// The pieces of `s` split at every `c`.
pub fn split_chars(s: &[char], c: char) -> (r: Vec<Vec<char>>)
    ensures
        views(r@) == split_from(s@, c, 0),
{
    let mut out: Vec<Vec<char>> = Vec::new();
    let mut start: usize = 0;
    let n = s.len();
    loop
        invariant_except_break
            n == s@.len(),
            start <= s@.len(),
            split_from(s@, c, 0) == views(out@) + split_from(s@, c, start as nat),
        ensures
            split_from(s@, c, 0) == views(out@),
        decreases s@.len() - start,
    {
        proof {
            lemma_find_char_bounds(s@, c, start as nat);
        }
        match find_char_from(s, c, start) {
            Some(k) => {
                assert(k < s@.len());
                let ghost before = out@;
                let piece = slice_vec(s, start, k);
                out.push(piece);
                assert(views(out@) =~= views(before) + seq![piece@]);
                start = k + 1;
            },
            None => {
                let ghost before = out@;
                let piece = slice_vec(s, start, s.len());
                out.push(piece);
                assert(views(out@) =~= views(before) + seq![piece@]);
                break;
            },
        }
    }
    out
}

/// The lines of `s`, as `str::lines` gives them.
pub fn split_lines(s: &[char]) -> (r: Vec<Vec<char>>)
    ensures
        views(r@) == lines_of(s@),
{
    let mut out: Vec<Vec<char>> = Vec::new();
    let mut start: usize = 0;
    let n = s.len();
    while start < n
        invariant
            n == s@.len(),
            start <= n,
            lines_of(s@) == views(out@) + lines_from(s@, start as nat),
        decreases n - start,
    {
        proof {
            lemma_find_char_bounds(s@, '\n', start as nat);
        }
        let ghost before = out@;
        match find_char_from(s, '\n', start) {
            Some(k) => {
                assert(k < n);
                let mut piece = slice_vec(s, start, k);
                if piece.len() > 0 && piece[piece.len() - 1] == '\r' {
                    piece.pop();
                }
                assert(piece@ =~= strip_cr(s@.subrange(start as int, k as int)));
                out.push(piece);
                assert(views(out@) =~= views(before) + seq![piece@]);
                start = k + 1;
            },
            None => {
                let piece = slice_vec(s, start, n);
                out.push(piece);
                assert(views(out@) =~= views(before) + seq![piece@]);
                assert(views(out@) =~= views(out@) + lines_from(s@, n as nat));
                start = n;
            },
        }
    }
    assert(views(out@) =~= views(out@) + lines_from(s@, start as nat));
    out
}

/// The whitespace-separated words of `s`.
pub fn split_words(s: &[char]) -> (r: Vec<Vec<char>>)
    ensures
        views(r@) == words(s@),
{
    let mut out: Vec<Vec<char>> = Vec::new();
    let mut i: usize = 0;
    let n = s.len();
    loop
        invariant_except_break
            n == s@.len(),
            i <= n,
            words(s@) == views(out@) + words_from(s@, i as nat),
        ensures
            words(s@) == views(out@),
        decreases n - i,
    {
        let mut a = i;
        while a < n && is_white_char(s[a])
            invariant
                i <= a <= n,
                n == s@.len(),
                skip_white(s@, i as nat) == skip_white(s@, a as nat),
            decreases n - a,
        {
            a = a + 1;
        }
        proof {
            lemma_skip_white_bounds(s@, a as nat);
        }
        if a >= n {
            assert(views(out@) + words_from(s@, i as nat) =~= views(out@));
            break;
        }
        let mut b = a;
        while b < n && !is_white_char(s[b])
            invariant
                a <= b <= n,
                n == s@.len(),
                next_white(s@, a as nat) == next_white(s@, b as nat),
            decreases n - b,
        {
            b = b + 1;
        }
        let ghost before = out@;
        let piece = slice_vec(s, a, b);
        out.push(piece);
        assert(views(out@) =~= views(before) + seq![piece@]);
        assert(b > a) by {
            assert(!is_white(s@[a as int]));
        }
        i = b;
    }
    out
}

/// The words joined by single spaces.
pub fn join_words(ws: &[Vec<char>]) -> (r: Vec<char>)
    ensures
        r@ == join_spaces(views(ws@)),
{
    let mut out: Vec<char> = Vec::new();
    if ws.len() == 0 {
        return out;
    }
    out = slice_vec(ws[0].as_slice(), 0, ws[0].len());
    let mut k: usize = 1;
    assert(views(ws@).subrange(0, 1).drop_last().len() == 0);
    assert(out@ =~= join_spaces(views(ws@).subrange(0, 1)));
    while k < ws.len()
        invariant
            1 <= k <= ws@.len(),
            out@ == join_spaces(views(ws@).subrange(0, k as int)),
        decreases ws@.len() - k,
    {
        out.push(' ');
        let mut j: usize = 0;
        let ghost base = out@;
        while j < ws[k].len()
            invariant
                k < ws@.len(),
                j <= ws@[k as int]@.len(),
                out@ == base + ws@[k as int]@.subrange(0, j as int),
            decreases ws@[k as int]@.len() - j,
        {
            out.push(ws[k][j]);
            j = j + 1;
            assert(out@ =~= base + ws@[k as int]@.subrange(0, j as int));
        }
        assert(views(ws@).subrange(0, k + 1).drop_last() =~= views(ws@).subrange(0, k as int));
        assert(out@ =~= join_spaces(views(ws@).subrange(0, k + 1)));
        k = k + 1;
    }
    assert(views(ws@).subrange(0, k as int) =~= views(ws@));
    out
}

/// Whether two character sequences are equal.
pub fn chars_eq(a: &[char], b: &[char]) -> (r: bool)
    ensures
        r == (a@ == b@),
{
    if a.len() != b.len() {
        return false;
    }
    let mut i: usize = 0;
    while i < a.len()
        invariant
            i <= a@.len(),
            a@.len() == b@.len(),
            a@.subrange(0, i as int) == b@.subrange(0, i as int),
        decreases a@.len() - i,
    {
        if a[i] != b[i] {
            assert(a@[i as int] != b@[i as int]);
            return false;
        }
        i = i + 1;
        assert(a@.subrange(0, i as int) =~= b@.subrange(0, i as int));
    }
    assert(a@ =~= a@.subrange(0, i as int));
    assert(b@ =~= b@.subrange(0, i as int));
    true
}

/// The string holding exactly `cs`.
pub fn string_of(cs: &[char]) -> (r: String)
    ensures
        r@ == cs@,
{
    let mut out = String::new();
    let mut i: usize = 0;
    while i < cs.len()
        invariant
            i <= cs@.len(),
            out@ == cs@.subrange(0, i as int),
        decreases cs@.len() - i,
    {
        push_char(&mut out, cs[i]);
        i = i + 1;
    }
    assert(out@ =~= cs@);
    out
}

/// Lower-case hexadecimal digit for `d < 16`.
pub open spec fn hex_digit(d: nat) -> char {
    if d < 10 {
        ((d + 48) as u8) as char
    } else {
        ((d + 87) as u8) as char
    }
}

/// The last `w` lower-case hexadecimal digits of `v`, zero-padded (`{:0wx}` for `v < 16^w`).
pub open spec fn hex_fixed(v: nat, w: nat) -> Seq<char>
    decreases w,
{
    if w == 0 {
        Seq::empty()
    } else {
        hex_fixed(v / 16, (w - 1) as nat).push(hex_digit(v % 16))
    }
}

/// Decimal digit for `d < 10`.
pub open spec fn dec_digit(d: nat) -> char {
    ((d + 48) as u8) as char
}

/// The decimal rendering of `n`, without leading zeros (`{}`).
pub open spec fn dec_text(n: nat) -> Seq<char>
    decreases n,
{
    if n < 10 {
        seq![dec_digit(n)]
    } else {
        dec_text(n / 10).push(dec_digit(n % 10))
    }
}

fn hex_digit_char(d: u32) -> (c: char)
    requires
        d < 16,
    ensures
        c == hex_digit(d as nat),
{
    if d < 10 {
        ((d + 48) as u8) as char
    } else {
        ((d + 87) as u8) as char
    }
}

/// Appends the `w` low hexadecimal digits of `v`.
pub fn push_hex(s: &mut String, v: u32, w: u32)
    requires
        w <= 8,
    ensures
        final(s)@ == old(s)@ + hex_fixed(v as nat, w as nat),
    decreases w,
{
    if w > 0 {
        push_hex(s, v / 16, w - 1);
        push_char(s, hex_digit_char(v % 16));
    }
}

/// Appends the decimal rendering of `n`.
pub fn push_dec(s: &mut String, n: usize)
    ensures
        final(s)@ == old(s)@ + dec_text(n as nat),
    decreases n,
{
    if n >= 10 {
        push_dec(s, n / 10);
    }
    push_char(s, (((n % 10) + 48) as u8) as char);
    proof {
        if n >= 10 {
            assert(s@ =~= old(s)@ + dec_text(n as nat));
        }
    }
}

/// Appends all of `t`.
pub fn push_str(s: &mut String, t: &str)
    ensures
        final(s)@ == old(s)@ + t@,
{
    s.append(t);
}

} // verus!
