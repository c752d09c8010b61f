//! The patch pipeline: validate the configuration, extract the firmware, disassemble
//! and format it, turn it into a template with the fixed diff script, fill the
//! template from the configuration, and assemble the result.
use vstd::prelude::*;
use crate::assembler::{assemble, error_text, spec_assemble, AsmError, AsmErrorView};
use crate::diff::{
    apply_diff, code_part, read_codes, spec_apply_diff, string_views, DiffError, DiffErrorView,
    Op,
};
use crate::disasm::{disasm_text, disassemble_sn8};
use crate::format::{format_asm, spec_format};
use crate::installer::{
    extract_fw_from_installer_to_vec, spec_extract, SizeError, SN8_OFFSET, SN8_SIZE,
};
use crate::models::{modifier_bits, MacroKey};
use crate::table::KeyTable;
use crate::template::{
    index_pairs, render_template, spec_render, text_pairs, TemplateError, TemplateErrorView,
};
use crate::text::{
    chars_of, dec_text, hex_fixed, lines_of, push_char, push_dec, push_hex, push_str,
    split_lines, string_of, views,
};
use crate::user_config::UserConfig;

verus! {

/// Key ID of the reserved layer-switch (`Mod`) key.
pub const MOD_KEY_ID: u8 = 231;

/// Whether some address holds the `Mod` key on layer 0 but not on layer 1.
pub open spec fn mod_key_mismatch(layer0: KeyTable<u8>, layer1: KeyTable<u8>) -> bool {
    exists|a: u32|
        #[trigger] layer0.spec_get(a) == Some(MOD_KEY_ID) && layer1.spec_get(a) != Some(
            MOD_KEY_ID,
        )
}

/// The message shown when the `Mod` key positions differ.
pub open spec fn mod_key_message() -> Seq<char> {
    "The 'Mod' key position must be same on the Main and 2nd layers."@
}

/// Check that every address holding the `Mod` key on layer 0 holds it on layer 1 too;
/// the user-facing message when not.
pub fn validate_mod_key_position(layer0: &KeyTable<u8>, layer1: &KeyTable<u8>) -> (r: Option<
    String,
>)
    requires
        layer0.wf(),
        layer1.wf(),
    ensures
        r is Some <==> mod_key_mismatch(*layer0, *layer1),
        r matches Some(m) ==> m@ == mod_key_message(),
{
    let mut i: usize = 0;
    while i < layer0.len()
        invariant
            i <= layer0.pairs().len(),
            layer0.wf(),
            layer1.wf(),
            forall|j: int|
                0 <= j < i ==> !(#[trigger] layer0.pairs()[j].1 == MOD_KEY_ID
                    && layer1.spec_get(layer0.pairs()[j].0) != Some(MOD_KEY_ID)),
        decreases layer0.pairs().len() - i,
    {
        let k = layer0.key_at(i);
        let v = *layer0.value_at(i);
        if v == MOD_KEY_ID {
            let ok = match layer1.get(k) {
                Some(x) => *x == MOD_KEY_ID,
                None => false,
            };
            if !ok {
                proof {
                    layer0.lemma_get_at(i as int);
                }
                return Some(
                    "The 'Mod' key position must be same on the Main and 2nd layers.".to_owned(),
                );
            }
        }
        i = i + 1;
    }
    assert(!mod_key_mismatch(*layer0, *layer1)) by {
        if mod_key_mismatch(*layer0, *layer1) {
            let a = choose|a: u32|
                #[trigger] layer0.spec_get(a) == Some(MOD_KEY_ID) && layer1.spec_get(a) != Some(
                    MOD_KEY_ID,
                );
            assert(layer0.has(a));
            let j = choose|j: int|
                0 <= j < layer0.pairs().len() && #[trigger] layer0.pairs()[j].0 == a;
            layer0.lemma_get_at(j);
        }
    }
    None
}

/// `s` padded with leading zeros to at least six characters (`{:06}` of a number).
pub open spec fn zero_pad6(s: Seq<char>) -> Seq<char> {
    if s.len() < 6 {
        Seq::new((6 - s.len()) as nat, |i: int| '0') + s
    } else {
        s
    }
}

/// The key and value of one layer address: the address in six decimal digits, the
/// layer-1 then the layer-0 key ID in hexadecimal.
pub open spec fn layer_entry(pos: u32, code1: u8, code0: u8) -> (Seq<char>, Seq<char>) {
    (zero_pad6(dec_text(pos as nat)), hex_fixed(code1 as nat, 2) + hex_fixed(code0 as nat, 2))
}

/// The layer entries for the first `n` pairs of layer 0 whose address layer 1 has too.
pub open spec fn layer_entries(l0: Seq<(u32, u8)>, l1: KeyTable<u8>, n: nat) -> Seq<
    (Seq<char>, Seq<char>),
>
    decreases n,
{
    if n == 0 {
        Seq::empty()
    } else {
        let prev = layer_entries(l0, l1, (n - 1) as nat);
        let (pos, code0) = l0[n - 1];
        match l1.spec_get(pos) {
            Some(code1) => prev.push(layer_entry(pos, code1, code0)),
            None => prev,
        }
    }
}

/// The entry of one macro key: `macro_` and the trigger byte in hexadecimal, then the
/// modifier byte and the key ID in hexadecimal.
pub open spec fn macro_entry(trigger: u32, mk: MacroKey) -> (Seq<char>, Seq<char>) {
    (
        "macro_"@ + hex_fixed(trigger as nat, 2),
        hex_fixed(modifier_bits(mk), 2) + hex_fixed(mk.key_id as nat, 2),
    )
}

/// The entry of one media key: `media_` and the trigger, then the usage code, in hex.
pub open spec fn media_entry(trigger: u32, usage: u16) -> (Seq<char>, Seq<char>) {
    ("media_"@ + hex_fixed(trigger as nat, 2), hex_fixed(usage as nat, 4))
}

/// The string substitutions a configuration asks for.
pub open spec fn spec_s_values(c: UserConfig) -> Seq<(Seq<char>, Seq<char>)> {
    seq![("fn_id"@, hex_fixed(c.fn_id as nat, 2))] + layer_entries(
        c.layer0.pairs(),
        c.layer1,
        c.layer0.pairs().len(),
    ) + c.macro_key_map.pairs().map_values(|p: (u32, MacroKey)| macro_entry(p.0, p.1))
        + c.media_key_map.pairs().map_values(|p: (u32, u16)| media_entry(p.0, p.1))
}

/// Acceleration switch `i` for a sensitivity level: level `n` in 2..=5 turns on the
/// first `n - 1` switches; any other level turns all off.
pub open spec fn accel_switch(level: u32, i: nat) -> usize {
    if 2 <= level <= 5 && i < level - 1 {
        1
    } else {
        0
    }
}

/// The enum choices a configuration asks for.
pub open spec fn spec_e_choices(c: UserConfig) -> Seq<(Seq<char>, usize)> {
    seq![
        ("tp_accel_0"@, accel_switch(c.tp_sensitivity, 0)),
        ("tp_accel_1"@, accel_switch(c.tp_sensitivity, 1)),
        ("tp_accel_2"@, accel_switch(c.tp_sensitivity, 2)),
        ("tp_accel_3"@, accel_switch(c.tp_sensitivity, 3)),
        ("mclick"@, if c.enable_middle_click {
            1usize
        } else {
            0usize
        }),
    ]
}

fn hex_string(prefix: &str, v: u32, w: u32) -> (r: String)
    requires
        w <= 8,
    ensures
        r@ == prefix@ + hex_fixed(v as nat, w as nat),
{
    let mut s = String::new();
    push_str(&mut s, prefix);
    push_hex(&mut s, v, w);
    s
}

fn padded_dec(n: u32) -> (r: String)
    ensures
        r@ == zero_pad6(dec_text(n as nat)),
{
    let mut d = String::new();
    push_dec(&mut d, n as usize);
    let len = chars_of(d.as_str()).len();
    if len >= 6 {
        return d;
    }
    let mut s = String::new();
    let mut k: usize = 0;
    while k < 6 - len
        invariant
            k <= 6 - len,
            len < 6,
            s@ == Seq::new(k as nat, |i: int| '0'),
        decreases 6 - len - k,
    {
        push_char(&mut s, '0');
        k = k + 1;
        assert(s@ =~= Seq::new(k as nat, |i: int| '0'));
    }
    push_str(&mut s, d.as_str());
    s
}

fn push_layer_entries(out: &mut Vec<(String, String)>, layer0: &KeyTable<u8>, layer1: &KeyTable<u8>)
    requires
        layer0.wf(),
        layer1.wf(),
    ensures
        text_pairs(final(out)@) == text_pairs(old(out)@) + layer_entries(
            layer0.pairs(),
            *layer1,
            layer0.pairs().len(),
        ),
{
    let ghost start = text_pairs(out@);
    let mut i: usize = 0;
    assert(start + layer_entries(layer0.pairs(), *layer1, 0) =~= start);
    while i < layer0.len()
        invariant
            i <= layer0.pairs().len(),
            layer1.wf(),
            start == text_pairs(old(out)@),
            text_pairs(out@) == start + layer_entries(layer0.pairs(), *layer1, i as nat),
        decreases layer0.pairs().len() - i,
    {
        let pos = layer0.key_at(i);
        let code0 = *layer0.value_at(i);
        match layer1.get(pos) {
            Some(code1) => {
                let key = padded_dec(pos);
                let mut val = hex_string("", *code1 as u32, 2);
                push_hex(&mut val, code0 as u32, 2);
                proof {
                    reveal_strlit("");
                }
                let ghost before = text_pairs(out@);
                out.push((key, val));
                assert(text_pairs(out@) =~= before.push(layer_entry(pos, *code1, code0)));
            },
            None => {},
        }
        i = i + 1;
    }
}

/// The string substitutions and enum choices for a configuration: the function key,
/// each layer address with both key IDs, each macro key, each media key, the four
/// trackpoint acceleration switches and the middle-click switch.
pub fn substitution_values(config: &UserConfig) -> (r: (Vec<(String, String)>, Vec<(String, usize)>))
    requires
        config.wf(),
    ensures
        text_pairs(r.0@) == spec_s_values(*config),
        index_pairs(r.1@) == spec_e_choices(*config),
{
    let mut sv: Vec<(String, String)> = Vec::new();
    sv.push(("fn_id".to_owned(), hex_string("", config.fn_id as u32, 2)));
    proof {
        reveal_strlit("");
    }
    assert(text_pairs(sv@) =~= seq![("fn_id"@, hex_fixed(config.fn_id as nat, 2))]);
    push_layer_entries(&mut sv, &config.layer0, &config.layer1);
    let ghost after_layers = text_pairs(sv@);
    let mk = &config.macro_key_map;
    let mut i: usize = 0;
    while i < mk.len()
        invariant
            i <= mk.pairs().len(),
            mk == &config.macro_key_map,
            mk.wf(),
            text_pairs(sv@) == after_layers + mk.pairs().subrange(0, i as int).map_values(
                |p: (u32, MacroKey)| macro_entry(p.0, p.1),
            ),
        decreases mk.pairs().len() - i,
    {
        let t = mk.key_at(i);
        let m = *mk.value_at(i);
        proof {
            reveal_strlit("");
        }
        let key = hex_string("macro_", t, 2);
        let mut val = hex_string("", m.modifier_byte() as u32, 2);
        push_hex(&mut val, m.key_id as u32, 2);
        let ghost before = text_pairs(sv@);
        sv.push((key, val));
        i = i + 1;
        assert(text_pairs(sv@) =~= before.push(macro_entry(t, m)));
        assert(mk.pairs().subrange(0, i as int).map_values(
            |p: (u32, MacroKey)| macro_entry(p.0, p.1),
        ) =~= mk.pairs().subrange(0, i - 1).map_values(
            |p: (u32, MacroKey)| macro_entry(p.0, p.1),
        ).push(macro_entry(t, m)));
    }
    assert(mk.pairs().subrange(0, i as int) =~= mk.pairs());
    let ghost after_macros = text_pairs(sv@);
    let md = &config.media_key_map;
    let mut j: usize = 0;
    while j < md.len()
        invariant
            j <= md.pairs().len(),
            md == &config.media_key_map,
            md.wf(),
            text_pairs(sv@) == after_macros + md.pairs().subrange(0, j as int).map_values(
                |p: (u32, u16)| media_entry(p.0, p.1),
            ),
        decreases md.pairs().len() - j,
    {
        let t = md.key_at(j);
        let u = *md.value_at(j);
        proof {
            reveal_strlit("");
        }
        let key = hex_string("media_", t, 2);
        let val = hex_string("", u as u32, 4);
        let ghost before = text_pairs(sv@);
        sv.push((key, val));
        j = j + 1;
        assert(text_pairs(sv@) =~= before.push(media_entry(t, u)));
        assert(md.pairs().subrange(0, j as int).map_values(|p: (u32, u16)| media_entry(p.0, p.1))
            =~= md.pairs().subrange(0, j - 1).map_values(
            |p: (u32, u16)| media_entry(p.0, p.1),
        ).push(media_entry(t, u)));
    }
    assert(md.pairs().subrange(0, j as int) =~= md.pairs());
    assert(text_pairs(sv@) =~= spec_s_values(*config));
    let level = config.tp_sensitivity;
    let mut ev: Vec<(String, usize)> = Vec::new();
    let s0: usize = if 2 <= level && level <= 5 && 0 < level - 1 {
        1
    } else {
        0
    };
    let s1: usize = if 2 <= level && level <= 5 && 1 < level - 1 {
        1
    } else {
        0
    };
    let s2: usize = if 2 <= level && level <= 5 && 2 < level - 1 {
        1
    } else {
        0
    };
    let s3: usize = if 2 <= level && level <= 5 && 3 < level - 1 {
        1
    } else {
        0
    };
    ev.push(("tp_accel_0".to_owned(), s0));
    ev.push(("tp_accel_1".to_owned(), s1));
    ev.push(("tp_accel_2".to_owned(), s2));
    ev.push(("tp_accel_3".to_owned(), s3));
    ev.push(
        (
            "mclick".to_owned(),
            if config.enable_middle_click {
                1
            } else {
                0
            },
        ),
    );
    assert(index_pairs(ev@) =~= spec_e_choices(*config));
    (sv, ev)
}

/// Why a patched firmware could not be built, by pipeline stage.
#[derive(Debug)]
pub enum PatchError {
    Validation(String),
    Extract(String),
    Diff(DiffError),
    Template(TemplateError),
    Assemble(AsmError),
}

/// The mathematical content of a `PatchError`.
pub enum PatchErrorView {
    Validation(Seq<char>),
    Extract(Seq<char>),
    Diff(DiffErrorView),
    Template(TemplateErrorView),
    Assemble(AsmErrorView),
}

impl View for PatchError {
    type V = PatchErrorView;

    open spec fn view(&self) -> PatchErrorView {
        match self {
            PatchError::Validation(m) => PatchErrorView::Validation(m@),
            PatchError::Extract(m) => PatchErrorView::Extract(m@),
            PatchError::Diff(e) => PatchErrorView::Diff(e@),
            PatchError::Template(e) => PatchErrorView::Template(e@),
            PatchError::Assemble(e) => PatchErrorView::Assemble(e@),
        }
    }
}

impl PatchError {
    /// The error as one descriptive string, labelled with its pipeline stage; a
    /// validation message is given verbatim.
    pub open spec fn spec_message(&self) -> Seq<char> {
        match self {
            PatchError::Validation(m) => m@,
            PatchError::Extract(m) => "Failed to extract firmware: "@ + m@,
            PatchError::Diff(e) => "Failed to apply diff: "@ + e.spec_message(),
            PatchError::Template(e) => "Failed to modify ASM: "@ + e.spec_message(),
            PatchError::Assemble(e) => "Failed to assemble: "@ + error_text(e@),
        }
    }

    /// The error as one descriptive string, labelled with its pipeline stage.
    pub fn message(&self) -> (r: String)
        ensures
            r@ == self.spec_message(),
    {
        let mut s = String::new();
        match self {
            PatchError::Validation(m) => push_str(&mut s, m.as_str()),
            PatchError::Extract(m) => {
                push_str(&mut s, "Failed to extract firmware: ");
                push_str(&mut s, m.as_str());
            },
            PatchError::Diff(e) => {
                push_str(&mut s, "Failed to apply diff: ");
                push_str(&mut s, e.message().as_str());
            },
            PatchError::Template(e) => {
                push_str(&mut s, "Failed to modify ASM: ");
                push_str(&mut s, e.message().as_str());
            },
            PatchError::Assemble(e) => {
                push_str(&mut s, "Failed to assemble: ");
                push_str(&mut s, e.message().as_str());
            },
        }
        assert(s@ =~= self.spec_message());
        s
    }
}

/// The lines joined end to end.
pub open spec fn concat_lines(ls: Seq<Seq<char>>) -> Seq<char>
    decreases ls.len(),
{
    if ls.len() == 0 {
        Seq::empty()
    } else {
        concat_lines(ls.drop_last()) + ls.last()
    }
}

/// The parameterised template: the formatted disassembly of a firmware image, with the
/// diff script applied and the comments merged in.
pub open spec fn spec_template(fw: Seq<u8>, ops: Seq<Op>, comments: Seq<char>) -> Result<
    Seq<char>,
    DiffErrorView,
> {
    let fmt = spec_format(disasm_text(fw, fw.len() / 2));
    let codes = lines_of(fmt).map_values(|l: Seq<char>| code_part(l));
    match spec_apply_diff(codes, ops, lines_of(comments)) {
        Err(e) => Err(e),
        Ok(merged) => Ok(concat_lines(merged)),
    }
}

/// The whole pipeline: the patched firmware image, or the first stage that failed.
pub open spec fn spec_build(
    installer: Seq<u8>,
    c: UserConfig,
    ops: Seq<Op>,
    comments: Seq<char>,
) -> Result<Seq<u8>, PatchErrorView> {
    if mod_key_mismatch(c.layer0, c.layer1) {
        Err(PatchErrorView::Validation(mod_key_message()))
    } else if installer.len() < SN8_OFFSET + SN8_SIZE {
        Err(
            PatchErrorView::Extract(
                (SizeError::InstallerTooSmall {
                    need: (SN8_OFFSET + SN8_SIZE) as usize,
                    have: installer.len() as usize,
                }).spec_message(),
            ),
        )
    } else {
        match spec_template(spec_extract(installer), ops, comments) {
            Err(e) => Err(PatchErrorView::Diff(e)),
            Ok(t) => match spec_render(t, spec_s_values(c), spec_e_choices(c)) {
                Err(e) => Err(PatchErrorView::Template(e)),
                Ok(src) => match spec_assemble(src) {
                    Err(e) => Err(PatchErrorView::Assemble(e)),
                    Ok(b) => Ok(b),
                },
            },
        }
    }
}

fn split_comment_lines(text: &str) -> (r: Vec<String>)
    ensures
        string_views(r@) == lines_of(text@),
{
    let cs = chars_of(text);
    let ls = split_lines(cs.as_slice());
    let mut out: Vec<String> = Vec::new();
    let mut i: usize = 0;
    while i < ls.len()
        invariant
            i <= ls@.len(),
            string_views(out@) == views(ls@).subrange(0, i as int),
        decreases ls@.len() - i,
    {
        let ghost before = out@;
        let s = string_of(ls[i].as_slice());
        out.push(s);
        i = i + 1;
        assert(string_views(out@) =~= views(ls@).subrange(0, i as int)) by {
            assert(string_views(out@) =~= string_views(before).push(s@));
            assert(views(ls@).subrange(0, i as int) =~= views(ls@).subrange(0, i - 1).push(
                views(ls@)[i - 1],
            ));
        }
    }
    assert(views(ls@).subrange(0, i as int) =~= views(ls@));
    out
}

fn join_lines(ls: &[String]) -> (r: String)
    ensures
        r@ == concat_lines(string_views(ls@)),
{
    let mut out = String::new();
    let mut i: usize = 0;
    while i < ls.len()
        invariant
            i <= ls@.len(),
            out@ == concat_lines(string_views(ls@).subrange(0, i as int)),
        decreases ls@.len() - i,
    {
        push_str(&mut out, ls[i].as_str());
        i = i + 1;
        assert(string_views(ls@).subrange(0, i as int).drop_last() =~= string_views(ls@).subrange(
            0,
            i - 1,
        ));
    }
    assert(string_views(ls@).subrange(0, i as int) =~= string_views(ls@));
    out
}

/// The parameterised template built from a firmware image: disassembled, formatted,
/// the diff script applied and the comment lines merged in.
pub fn build_template(fw: &[u8], ops: &[Op], comments_text: &str) -> (r: Result<String, DiffError>)
    ensures
        r matches Ok(t) ==> spec_template(fw@, ops@, comments_text@) == Ok::<
            Seq<char>,
            DiffErrorView,
        >(t@),
        r matches Err(e) ==> spec_template(fw@, ops@, comments_text@) == Err::<
            Seq<char>,
            DiffErrorView,
        >(e@),
{
    let listing = disassemble_sn8(fw);
    let fmt = format_asm(listing.as_str());
    let codes = read_codes(fmt.as_str());
    let comments = split_comment_lines(comments_text);
    let merged = apply_diff(codes.as_slice(), ops, comments.as_slice())?;
    Ok(join_lines(merged.as_slice()))
}

/// Build the patched firmware image for a configuration from the vendor installer,
/// the diff script and its comment lines. The configuration is validated before the
/// installer is looked at.
pub fn build_and_patch(
    installer: &[u8],
    config: &UserConfig,
    ops: &[Op],
    comments_text: &str,
) -> (r: Result<Vec<u8>, PatchError>)
    requires
        config.wf(),
    ensures
        r matches Ok(b) ==> spec_build(installer@, *config, ops@, comments_text@) == Ok::<
            Seq<u8>,
            PatchErrorView,
        >(b@),
        r matches Err(e) ==> spec_build(installer@, *config, ops@, comments_text@) == Err::<
            Seq<u8>,
            PatchErrorView,
        >(e@),
        mod_key_mismatch(config.layer0, config.layer1) ==> (r matches Err(
            PatchError::Validation(m),
        ) && m@ == mod_key_message()),
{
    match validate_mod_key_position(&config.layer0, &config.layer1) {
        Some(m) => {
            return Err(PatchError::Validation(m));
        },
        None => {},
    }
    let fw = match extract_fw_from_installer_to_vec(installer) {
        Ok(fw) => fw,
        Err(m) => {
            return Err(PatchError::Extract(m));
        },
    };
    let template = match build_template(fw.as_slice(), ops, comments_text) {
        Ok(t) => t,
        Err(e) => {
            return Err(PatchError::Diff(e));
        },
    };
    let (sv, ev) = substitution_values(config);
    let source = match render_template(template.as_str(), sv.as_slice(), ev.as_slice()) {
        Ok(s) => s,
        Err(e) => {
            return Err(PatchError::Template(e));
        },
    };
    match assemble(source.as_str()) {
        Ok(b) => Ok(b),
        Err(e) => Err(PatchError::Assemble(e)),
    }
}

/// A configuration whose `Mod` key positions differ between the layers is refused
/// with the validation error, whatever the installer, diff script and comments.
pub proof fn lemma_mod_key_mismatch_refused(
    installer: Seq<u8>,
    c: UserConfig,
    ops: Seq<Op>,
    comments: Seq<char>,
)
    requires
        mod_key_mismatch(c.layer0, c.layer1),
    ensures
        spec_build(installer, c, ops, comments) == Err::<Seq<u8>, PatchErrorView>(
            PatchErrorView::Validation(mod_key_message()),
        ),
{
}

} // verus!
