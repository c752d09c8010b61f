//! Placeholder substitution: `${s/name/default}` takes an overridable string,
//! `${e/name/choice0/choice1/...}` picks one choice by a zero-based index.
use vstd::prelude::*;
use crate::text::{
    chars_eq, chars_of, dec_text, find_char, find_char_from, lemma_find_char_bounds, push_dec,
    push_str, slice_vec, split_chars, split_from, string_of, trim, trim_chars, views,
};

verus! {

/// Why a template could not be rendered.
#[derive(Debug)]
pub enum TemplateError {
    UnclosedPlaceholder(usize),
    EmptyPlaceholder(usize),
    InvalidFormat(String),
    UnknownKind(String),
    MissingEnumChoice { name: String },
    EnumIndexOutOfRange { name: String, idx: usize, len: usize },
}

/// The mathematical content of a `TemplateError`.
pub enum TemplateErrorView {
    UnclosedPlaceholder(nat),
    EmptyPlaceholder(nat),
    InvalidFormat(Seq<char>),
    UnknownKind(Seq<char>),
    MissingEnumChoice(Seq<char>),
    EnumIndexOutOfRange(Seq<char>, nat, nat),
}

impl View for TemplateError {
    type V = TemplateErrorView;

    open spec fn view(&self) -> TemplateErrorView {
        match self {
            TemplateError::UnclosedPlaceholder(p) => TemplateErrorView::UnclosedPlaceholder(
                *p as nat,
            ),
            TemplateError::EmptyPlaceholder(p) => TemplateErrorView::EmptyPlaceholder(*p as nat),
            TemplateError::InvalidFormat(m) => TemplateErrorView::InvalidFormat(m@),
            TemplateError::UnknownKind(k) => TemplateErrorView::UnknownKind(k@),
            TemplateError::MissingEnumChoice { name } => TemplateErrorView::MissingEnumChoice(
                name@,
            ),
            TemplateError::EnumIndexOutOfRange { name, idx, len } =>
                TemplateErrorView::EnumIndexOutOfRange(name@, *idx as nat, *len as nat),
        }
    }
}

/// Outcome of rendering, over views.
pub type Rendered = Result<Seq<char>, TemplateErrorView>;

/// Views of string pairs.
pub open spec fn text_pairs(v: Seq<(String, String)>) -> Seq<(Seq<char>, Seq<char>)> {
    v.map_values(|p: (String, String)| (p.0@, p.1@))
}

/// Views of string and index pairs.
pub open spec fn index_pairs(v: Seq<(String, usize)>) -> Seq<(Seq<char>, usize)> {
    v.map_values(|p: (String, usize)| (p.0@, p.1))
}

/// The value bound to `key` by the first pair at or after `k` that names it.
pub open spec fn lookup_text(m: Seq<(Seq<char>, Seq<char>)>, key: Seq<char>, k: nat) -> Option<
    Seq<char>,
>
    decreases m.len() - k,
{
    if k >= m.len() {
        None
    } else if m[k as int].0 == key {
        Some(m[k as int].1)
    } else {
        lookup_text(m, key, k + 1)
    }
}

/// The index bound to `key` by the first pair at or after `k` that names it.
pub open spec fn lookup_index(m: Seq<(Seq<char>, usize)>, key: Seq<char>, k: nat) -> Option<usize>
    decreases m.len() - k,
{
    if k >= m.len() {
        None
    } else if m[k as int].0 == key {
        Some(m[k as int].1)
    } else {
        lookup_index(m, key, k + 1)
    }
}

/// What one placeholder body (already trimmed, non-empty) renders to.
pub open spec fn spec_placeholder(
    inner: Seq<char>,
    sv: Seq<(Seq<char>, Seq<char>)>,
    ev: Seq<(Seq<char>, usize)>,
) -> Rendered {
    match find_char(inner, '/', 0) {
        None => Err(TemplateErrorView::InvalidFormat(inner)),
        Some(p1) => match find_char(inner, '/', p1 + 1) {
            None => Err(TemplateErrorView::InvalidFormat(inner)),
            Some(p2) => {
                let kind = inner.subrange(0, p1 as int);
                let name = inner.subrange(p1 + 1 as int, p2 as int);
                let rest = inner.subrange(p2 + 1 as int, inner.len() as int);
                if kind == seq!['s'] {
                    match lookup_text(sv, name, 0) {
                        Some(v) => Ok(v),
                        None => Ok(rest),
                    }
                } else if kind == seq!['e'] {
                    let choices = split_from(rest, '/', 0);
                    match lookup_index(ev, name, 0) {
                        None => Err(TemplateErrorView::MissingEnumChoice(name)),
                        Some(idx) => if idx >= choices.len() {
                            Err(
                                TemplateErrorView::EnumIndexOutOfRange(
                                    name,
                                    idx as nat,
                                    choices.len(),
                                ),
                            )
                        } else {
                            Ok(choices[idx as int])
                        },
                    }
                } else {
                    Err(TemplateErrorView::UnknownKind(kind))
                }
            },
        },
    }
}

/// `o` put in front of a successful rendering; an error stays as it is.
pub open spec fn prepend(o: Seq<char>, r: Rendered) -> Rendered {
    match r {
        Ok(x) => Ok(o + x),
        Err(e) => Err(e),
    }
}

#[via_fn]
proof fn render_from_decreases(
    t: Seq<char>,
    i: nat,
    sv: Seq<(Seq<char>, Seq<char>)>,
    ev: Seq<(Seq<char>, usize)>,
) {
    lemma_find_char_bounds(t, '}', i + 2);
}

/// The rendering of `t` from position `i` on.
pub open spec fn render_from(
    t: Seq<char>,
    i: nat,
    sv: Seq<(Seq<char>, Seq<char>)>,
    ev: Seq<(Seq<char>, usize)>,
) -> Rendered
    decreases t.len() - i via render_from_decreases
{
    if i >= t.len() {
        Ok(Seq::empty())
    } else if i + 1 < t.len() && t[i as int] == '$' && t[i + 1 as int] == '{' {
        match find_char(t, '}', i + 2) {
            None => Err(TemplateErrorView::UnclosedPlaceholder(i)),
            Some(end) => {
                let inner = trim(t.subrange(i + 2 as int, end as int));
                if inner.len() == 0 {
                    Err(TemplateErrorView::EmptyPlaceholder(i))
                } else {
                    match spec_placeholder(inner, sv, ev) {
                        Err(e) => Err(e),
                        Ok(rep) => prepend(rep, render_from(t, end + 1, sv, ev)),
                    }
                }
            },
        }
    } else {
        prepend(seq![t[i as int]], render_from(t, i + 1, sv, ev))
    }
}

/// The rendering of a whole template.
pub open spec fn spec_render(
    t: Seq<char>,
    sv: Seq<(Seq<char>, Seq<char>)>,
    ev: Seq<(Seq<char>, usize)>,
) -> Rendered {
    render_from(t, 0, sv, ev)
}

/// The view of an executable rendering outcome.
pub open spec fn result_view(r: Result<Vec<char>, TemplateError>) -> Rendered {
    match r {
        Ok(v) => Ok(v@),
        Err(e) => Err(e@),
    }
}

fn find_text(m: &[(String, String)], key: &[char]) -> (r: Option<Vec<char>>)
    ensures
        r matches Some(v) ==> lookup_text(text_pairs(m@), key@, 0) == Some(v@),
        r is None ==> lookup_text(text_pairs(m@), key@, 0) is None,
{
    let mut k: usize = 0;
    while k < m.len()
        invariant
            k <= m@.len(),
            lookup_text(text_pairs(m@), key@, 0) == lookup_text(text_pairs(m@), key@, k as nat),
        decreases m@.len() - k,
    {
        let name = chars_of(m[k].0.as_str());
        if chars_eq(name.as_slice(), key) {
            return Some(chars_of(m[k].1.as_str()));
        }
        k = k + 1;
    }
    None
}

fn find_index(m: &[(String, usize)], key: &[char]) -> (r: Option<usize>)
    ensures
        r == lookup_index(index_pairs(m@), key@, 0),
{
    let mut k: usize = 0;
    while k < m.len()
        invariant
            k <= m@.len(),
            lookup_index(index_pairs(m@), key@, 0) == lookup_index(index_pairs(m@), key@, k as nat),
        decreases m@.len() - k,
    {
        let name = chars_of(m[k].0.as_str());
        if chars_eq(name.as_slice(), key) {
            return Some(m[k].1);
        }
        k = k + 1;
    }
    None
}

/// Render one placeholder body, e.g. `s/fn_key/af` or `e/tp_sp5/NOP/CALL func_07b7`.
pub fn render_placeholder(
    inner: &[char],
    s_values: &[(String, String)],
    e_choices: &[(String, usize)],
) -> (r: Result<Vec<char>, TemplateError>)
    ensures
        result_view(r) == spec_placeholder(inner@, text_pairs(s_values@), index_pairs(e_choices@)),
{
    let n = inner.len();
    proof {
        lemma_find_char_bounds(inner@, '/', 0);
    }
    let p1 = match find_char_from(inner, '/', 0) {
        Some(p) => p,
        None => {
            return Err(TemplateError::InvalidFormat(string_of(inner)));
        },
    };
    proof {
        lemma_find_char_bounds(inner@, '/', (p1 + 1) as nat);
    }
    assert(p1 < n);
    let p2 = match find_char_from(inner, '/', p1 + 1) {
        Some(p) => p,
        None => {
            return Err(TemplateError::InvalidFormat(string_of(inner)));
        },
    };
    assert(p2 < n);
    let kind = slice_vec(inner, 0, p1);
    let name = slice_vec(inner, p1 + 1, p2);
    let rest = slice_vec(inner, p2 + 1, inner.len());
    if kind.len() == 1 && kind[0] == 's' {
        assert(kind@ =~= seq!['s']);
        match find_text(s_values, name.as_slice()) {
            Some(v) => Ok(v),
            None => Ok(rest),
        }
    } else if kind.len() == 1 && kind[0] == 'e' {
        assert(kind@ =~= seq!['e']);
        let choices = split_chars(rest.as_slice(), '/');
        match find_index(e_choices, name.as_slice()) {
            None => Err(TemplateError::MissingEnumChoice { name: string_of(name.as_slice()) }),
            Some(idx) => {
                if idx >= choices.len() {
                    Err(
                        TemplateError::EnumIndexOutOfRange {
                            name: string_of(name.as_slice()),
                            idx,
                            len: choices.len(),
                        },
                    )
                } else {
                    let c = slice_vec(choices[idx].as_slice(), 0, choices[idx].len());
                    assert(c@ =~= views(choices@)[idx as int]);
                    Ok(c)
                }
            },
        }
    } else {
        assert(kind@ != seq!['s']) by {
            if kind@ == seq!['s'] {
                assert(kind@[0] == seq!['s'][0]);
            }
        }
        assert(kind@ != seq!['e']) by {
            if kind@ == seq!['e'] {
                assert(kind@[0] == seq!['e'][0]);
            }
        }
        Err(TemplateError::UnknownKind(string_of(kind.as_slice())))
    }
}

/// Render a template string containing `${...}` placeholders: `s_values` overrides the
/// defaults of `s` placeholders, `e_choices` gives the index of each `e` placeholder's
/// choice. Where a name is bound twice, the first binding counts.
pub fn render_template(
    input: &str,
    s_values: &[(String, String)],
    e_choices: &[(String, usize)],
) -> (r: Result<String, TemplateError>)
    ensures
        r matches Ok(s) ==> spec_render(input@, text_pairs(s_values@), index_pairs(e_choices@)) == Ok::<
            Seq<char>,
            TemplateErrorView,
        >(s@),
        r matches Err(e) ==> spec_render(input@, text_pairs(s_values@), index_pairs(e_choices@)) == Err::<
            Seq<char>,
            TemplateErrorView,
        >(e@),
{
    let t = chars_of(input);
    let n = t.len();
    let mut out: Vec<char> = Vec::new();
    let mut i: usize = 0;
    while i < n
        invariant
            n == t@.len(),
            t@ == input@,
            i <= n,
            spec_render(t@, text_pairs(s_values@), index_pairs(e_choices@)) == prepend(
                out@,
                render_from(t@, i as nat, text_pairs(s_values@), index_pairs(e_choices@)),
            ),
        decreases n - i,
    {
        if i + 1 < n && t[i] == '$' && t[i + 1] == '{' {
            proof {
                lemma_find_char_bounds(t@, '}', (i + 2) as nat);
            }
            let end = match find_char_from(t.as_slice(), '}', i + 2) {
                Some(e) => e,
                None => {
                    return Err(TemplateError::UnclosedPlaceholder(i));
                },
            };
            let body = slice_vec(t.as_slice(), i + 2, end);
            let inner = trim_chars(body.as_slice());
            if inner.len() == 0 {
                return Err(TemplateError::EmptyPlaceholder(i));
            }
            match render_placeholder(inner.as_slice(), s_values, e_choices) {
                Err(e) => {
                    return Err(e);
                },
                Ok(rep) => {
                    let ghost before = out@;
                    let mut k: usize = 0;
                    while k < rep.len()
                        invariant
                            k <= rep@.len(),
                            out@ == before + rep@.subrange(0, k as int),
                        decreases rep@.len() - k,
                    {
                        out.push(rep[k]);
                        k = k + 1;
                        assert(out@ =~= before + rep@.subrange(0, k as int));
                    }
                    assert(rep@.subrange(0, k as int) =~= rep@);
                    assert(before + (rep@ + Seq::empty()) =~= before + rep@);
                    proof {
                        let rest = render_from(t@, (end + 1) as nat, text_pairs(s_values@), index_pairs(e_choices@));
                        match rest {
                            Ok(x) => {
                                assert(before + (rep@ + x) =~= (before + rep@) + x);
                            },
                            Err(_) => {},
                        }
                    }
                    i = end + 1;
                },
            }
        } else {
            let ghost before = out@;
            out.push(t[i]);
            proof {
                let rest = render_from(t@, (i + 1) as nat, text_pairs(s_values@), index_pairs(e_choices@));
                match rest {
                    Ok(x) => {
                        assert(before + (seq![t@[i as int]] + x) =~= out@ + x);
                    },
                    Err(_) => {},
                }
            }
            i = i + 1;
        }
    }
    assert(out@ + Seq::<char>::empty() =~= out@);
    Ok(string_of(out.as_slice()))
}

impl TemplateError {
    /// The human-readable text of the error.
    pub open spec fn spec_message(&self) -> Seq<char> {
        match self {
            TemplateError::UnclosedPlaceholder(p) => "Unclosed placeholder starting at position "@
                + dec_text(*p as nat),
            TemplateError::EmptyPlaceholder(p) => "Empty placeholder at position "@ + dec_text(
                *p as nat,
            ),
            TemplateError::InvalidFormat(m) => "Invalid placeholder format: "@ + m@,
            TemplateError::UnknownKind(k) => "Unknown placeholder kind: "@ + k@,
            TemplateError::MissingEnumChoice { name } => "Enum choice index not provided for '"@
                + name@ + "'"@,
            TemplateError::EnumIndexOutOfRange { name, idx, len } => "Enum index "@ + dec_text(
                *idx as nat,
            ) + " for '"@ + name@ + "' out of range (choices = "@ + dec_text(*len as nat)
                + ")"@,
        }
    }

    /// The human-readable text of the error.
    pub fn message(&self) -> (r: String)
        ensures
            r@ == self.spec_message(),
    {
        let mut s = String::new();
        match self {
            TemplateError::UnclosedPlaceholder(p) => {
                push_str(&mut s, "Unclosed placeholder starting at position ");
                push_dec(&mut s, *p);
            },
            TemplateError::EmptyPlaceholder(p) => {
                push_str(&mut s, "Empty placeholder at position ");
                push_dec(&mut s, *p);
            },
            TemplateError::InvalidFormat(m) => {
                push_str(&mut s, "Invalid placeholder format: ");
                push_str(&mut s, m.as_str());
            },
            TemplateError::UnknownKind(k) => {
                push_str(&mut s, "Unknown placeholder kind: ");
                push_str(&mut s, k.as_str());
            },
            TemplateError::MissingEnumChoice { name } => {
                push_str(&mut s, "Enum choice index not provided for '");
                push_str(&mut s, name.as_str());
                push_str(&mut s, "'");
            },
            TemplateError::EnumIndexOutOfRange { name, idx, len } => {
                push_str(&mut s, "Enum index ");
                push_dec(&mut s, *idx);
                push_str(&mut s, " for '");
                push_str(&mut s, name.as_str());
                push_str(&mut s, "' out of range (choices = ");
                push_dec(&mut s, *len);
                push_str(&mut s, ")");
            },
        }
        s
    }
}

} // verus!
