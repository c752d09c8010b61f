use sn8patch::assembler::{assemble, assemble_sn8, AsmErrorKind};
use sn8patch::diff::{apply_diff, build_b_codes, read_codes, split_code_comment, DiffError, Op};
use sn8patch::disasm::{disassemble_sn8, disassemble_word};
use sn8patch::format::format_asm;
use sn8patch::installer::{
    build_installer_with_fw, extract_fw_from_installer_to_vec, SN8_OFFSET, SN8_SIZE, XOR_KEY,
};
use sn8patch::isa::Mnemonic;
use sn8patch::parser::{parse_operand_expr, OperandExpr, ParseError};
use sn8patch::template::{render_template, TemplateError};

fn insert(code: &str) -> Op {
    Op { op: "insert".to_string(), from: None, code: Some(code.to_string()) }
}

fn copy(from: usize) -> Op {
    Op { op: "copy".to_string(), from: Some(from), code: None }
}

fn strings(v: &[&str]) -> Vec<String> {
    v.iter().map(|s| s.to_string()).collect()
}

#[test]
fn test_nop() {
    let code = [0x00u8, 0x00u8];
    let s = disassemble_sn8(&code);
    assert!(s.contains("NOP"));
}

#[test]
fn nop_program_assembles_to_zero_image() {
    let image = assemble_sn8("NOP").unwrap();
    assert_eq!(image.len(), 0x6000);
    assert!(image.iter().all(|b| *b == 0));
}

#[test]
fn insert_op_merges_with_comment() {
    let out = apply_diff(&[], &[insert("MOV A,#0x01")], &strings(&[";c"])).unwrap();
    assert_eq!(out, vec!["MOV A,#0x01;c\n".to_string()]);
}

#[test]
fn comment_count_mismatch_fails() {
    let r = apply_diff(&[], &[insert("MOV A,#0x01")], &strings(&[";c", ";d"]));
    assert_eq!(r, Err(DiffError::LineCountMismatch { codes: 1, comments: 2 }));
    assert_eq!(
        r.unwrap_err().message(),
        "Number of code lines after ops (1) != number of comment lines (2)"
    );
}

#[test]
fn copy_ops_take_baseline_lines() {
    let base = strings(&["A", "B", "C"]);
    let out = build_b_codes(&base, &[copy(3), insert("X"), copy(1)]).unwrap();
    assert_eq!(out, strings(&["C", "X", "A"]));
}

#[test]
fn copy_zero_and_out_of_range_fail() {
    let base = strings(&["A"]);
    assert_eq!(build_b_codes(&base, &[copy(0)]), Err(DiffError::ZeroFrom));
    assert_eq!(build_b_codes(&base, &[copy(2)]), Err(DiffError::FromOutOfRange { from: 2, len: 1 }));
    let missing = Op { op: "copy".to_string(), from: None, code: None };
    assert_eq!(build_b_codes(&base, &[missing]), Err(DiffError::MissingFrom));
    let bad = Op { op: "move".to_string(), from: None, code: None };
    assert_eq!(build_b_codes(&base, &[bad]), Err(DiffError::UnknownOp("move".to_string())));
}

#[test]
fn code_and_comment_split_at_first_semicolon() {
    assert_eq!(split_code_comment("MOV A,0x10 ; x;y"), ("MOV A,0x10 ".to_string(), "; x;y".to_string()));
    assert_eq!(split_code_comment("RET"), ("RET".to_string(), String::new()));
    assert_eq!(read_codes("a;1\nb\n;c\n"), strings(&["a", "b", ""]));
}

#[test]
fn string_placeholder_uses_default() {
    assert_eq!(render_template("${s/x/def}", &[], &[]).unwrap(), "def");
}

#[test]
fn string_placeholder_uses_override() {
    let sv = vec![("x".to_string(), "abc".to_string())];
    assert_eq!(render_template("${s/x/def}", &sv, &[]).unwrap(), "abc");
}

#[test]
fn enum_placeholder_picks_choice() {
    let ev = vec![("y".to_string(), 1usize)];
    assert_eq!(render_template("${e/y/A/B/C}", &[], &ev).unwrap(), "B");
}

#[test]
fn enum_placeholder_index_out_of_range() {
    let ev = vec![("y".to_string(), 5usize)];
    match render_template("${e/y/A/B}", &[], &ev) {
        Err(TemplateError::EnumIndexOutOfRange { name, idx, len }) => {
            assert_eq!(name, "y");
            assert_eq!(idx, 5);
            assert_eq!(len, 2);
        }
        other => panic!("unexpected {:?}", other),
    }
    let e = render_template("${e/y/A/B}", &[], &ev).unwrap_err();
    assert_eq!(e.message(), "Enum index 5 for 'y' out of range (choices = 2)");
}

#[test]
fn template_errors() {
    assert!(matches!(render_template("ab${s/x", &[], &[]), Err(TemplateError::UnclosedPlaceholder(2))));
    assert!(matches!(render_template("${  }", &[], &[]), Err(TemplateError::EmptyPlaceholder(0))));
    assert!(matches!(render_template("${s/x}", &[], &[]), Err(TemplateError::InvalidFormat(_))));
    assert!(matches!(render_template("${q/x/y}", &[], &[]), Err(TemplateError::UnknownKind(_))));
    assert!(matches!(render_template("${e/x/A/B}", &[], &[]), Err(TemplateError::MissingEnumChoice { .. })));
}

#[test]
fn template_keeps_literal_text() {
    let sv = vec![("fn".to_string(), "af".to_string())];
    assert_eq!(render_template("MOV A,#0x${s/fn/00}\nRET\n", &sv, &[]).unwrap(), "MOV A,#0xaf\nRET\n");
    assert_eq!(render_template("${s/d/a/b}", &[], &[]).unwrap(), "a/b");
}

#[test]
fn operand_too_large_is_reported() {
    let err = assemble("ADD A,#0x1FF").unwrap_err();
    assert_eq!(err.line, 1);
    assert!(matches!(err.kind, AsmErrorKind::OperandTooLarge { mnemonic: Mnemonic::Add, value: 0x1ff }));
    let msg = assemble_sn8("ADD A,#0x1FF").unwrap_err();
    assert_eq!(msg, "line 1: operand too large for ADD: 0x01ff");
}

#[test]
fn instructions_encode_little_endian() {
    let image = assemble_sn8("MOV A,#0x12\nJMP start\nstart: B0BSET 0x86.3\nRET\nDW 0x1234, start").unwrap();
    assert_eq!(&image[0..2], &[0x12, 0x2d]);
    assert_eq!(&image[2..4], &[0x02, 0x80]);
    assert_eq!(&image[4..6], &[0x86, 0x6b]);
    assert_eq!(&image[6..8], &[0x00, 0x0e]);
    assert_eq!(&image[8..10], &[0x34, 0x12]);
    assert_eq!(&image[10..12], &[0x02, 0x00]);
}

#[test]
fn assembler_errors() {
    assert!(matches!(assemble("a: NOP\na: NOP").unwrap_err().kind, AsmErrorKind::DuplicateLabel(_)));
    assert!(matches!(assemble("JMP nowhere").unwrap_err().kind, AsmErrorKind::UndefinedSymbol(_)));
    assert!(matches!(assemble("FOO A").unwrap_err().kind, AsmErrorKind::UnknownInstruction(_)));
    assert!(matches!(assemble("ORG 0x4000").unwrap_err().kind, AsmErrorKind::OrgOutOfRange(0x4000)));
    assert!(matches!(assemble("MOV R, A").unwrap_err().kind, AsmErrorKind::NoSuitableOpcode { .. }));
    assert_eq!(assemble("NOP\nNOP\nDW 0x10000").unwrap_err().line, 3);
}

#[test]
fn disassembles_operands() {
    assert_eq!(disassemble_word(0, 0x2d12), "MOV\tA, #0x12");
    assert_eq!(disassemble_word(0, 0x6b86), "B0BSET\t0x86.3");
    assert_eq!(disassemble_word(5, 0x8006), "JMP\t$+1");
    assert_eq!(disassemble_word(5, 0x8010), "JMP\t0x0010");
    assert_eq!(disassemble_word(0, 0x0141), "DW\t0x0141\t; .A");
    assert_eq!(disassemble_sn8(&[0x0e, 0x00, 0x00, 0x0e]), "ORG 0x0000\n\tNOP\nORG 0x0001\n\tRET\n");
}

#[test]
fn round_trip_through_disassembly() {
    let src = "MOV A,#0x12\nCALL 0x0005\nB0BTS1 0x86.2\nADD 0x20, A\nB0MOV Y, #0x03\nRET\n";
    let first = assemble_sn8(src).unwrap();
    let text = disassemble_sn8(&first);
    let second = assemble_sn8(&text).unwrap();
    assert_eq!(first, second);
}

#[test]
fn formatter_aligns_columns() {
    let out = format_asm("; header\n\tMOV A,#0x01 ; c\nfunc_0001:\n\tRET\n\tNOP\n");
    assert_eq!(out, "    MOV A,     #0x01 ;\n\nfunc_0001:           ;\n    RET              ;\n    NOP              ;\n");
}

#[test]
fn formatter_blank_lines_before_labels() {
    assert_eq!(format_asm("\tRET\nfunc_0002:\n"), "    RET    ;\nfunc_0002: ;\n");
    assert_eq!(format_asm("\tCMPRS A,#0x01\n\tJMP 0x0010\nfunc_0003:\n"), "    CMPRS A,     #0x01 ;\n    JMP   0x0010       ;\n\nfunc_0003:             ;\n");
    assert_eq!(format_asm(""), "");
}

#[test]
fn extract_reinsert_extract_round_trip() {
    let mut installer = vec![0u8; SN8_OFFSET + SN8_SIZE + 7];
    for (i, b) in installer.iter_mut().enumerate() {
        *b = (i * 31 % 251) as u8;
    }
    let fw = extract_fw_from_installer_to_vec(&installer).unwrap();
    assert_eq!(fw.len(), SN8_SIZE);
    assert_eq!(fw[0], installer[SN8_OFFSET] ^ XOR_KEY);
    let rebuilt = build_installer_with_fw(&fw, &installer).unwrap();
    assert_eq!(rebuilt, installer);
    assert_eq!(extract_fw_from_installer_to_vec(&rebuilt).unwrap(), fw);
}

#[test]
fn installer_size_errors() {
    let small = vec![0u8; 10];
    assert_eq!(
        extract_fw_from_installer_to_vec(&small).unwrap_err(),
        format!("Installer too small: need {} bytes, have 10 bytes", SN8_OFFSET + SN8_SIZE)
    );
    assert_eq!(
        build_installer_with_fw(&small, &small).unwrap_err(),
        format!("fw_plain too small: need {} bytes, have 10 bytes", SN8_SIZE)
    );
}

#[test]
fn data_past_the_rom_window_is_dropped() {
    let image = assemble_sn8("ORG 0x2FFF\nDW 0x0102, 0x0304, 0x0506").unwrap();
    assert_eq!(image.len(), 0x6000);
    assert_eq!(&image[0x5ffe..], &[0x02, 0x01]);
    assert!(matches!(assemble("ORG 0x3FFF\nDW 1, 2").unwrap_err().kind, AsmErrorKind::DwOverflow));
    assert!(matches!(assemble("ORG 0x3FFF\nNOP\nNOP").unwrap_err().kind, AsmErrorKind::InstructionOverflow));
}

#[test]
fn disassembler_ignores_trailing_odd_byte() {
    assert_eq!(disassemble_sn8(&[]), "");
    assert_eq!(disassemble_sn8(&[0x00, 0x0e, 0x42]), "ORG 0x0000\n\tRET\n");
}

#[test]
fn labels_numbers_and_comments_parse() {
    let image = assemble_sn8("; comment only\nloop: MOV A, #0b101 ; five\n  JMP loop\nB0MOV PFLAG, #12\n").unwrap();
    assert_eq!(&image[0..6], &[0x05, 0x2d, 0x00, 0x80, 0x0c, 0x36]);
}

#[test]
fn instruction_past_the_rom_window_fails() {
    let err = assemble("ORG 0x3000\nNOP").unwrap_err();
    assert_eq!(err.line, 2);
    assert!(matches!(err.kind, AsmErrorKind::InstructionOverflow));
    assert!(assemble_sn8("ORG 0x3000\nNOP").is_err());
    assert!(assemble_sn8("ORG 0x2FFF\nNOP").is_ok());
}

#[test]
fn bit_index_above_seven_is_refused() {
    let err = assemble("B0BSET 0x12.259").unwrap_err();
    assert!(matches!(err.kind, AsmErrorKind::Parse(ParseError::BitIndexOutOfRange(259))));
    assert!(matches!(
        assemble("B0BSET 0x12.8").unwrap_err().kind,
        AsmErrorKind::Parse(ParseError::BitIndexOutOfRange(8))
    ));
    let ok = parse_operand_expr(&"0x12.3".chars().collect::<Vec<char>>()).unwrap();
    match ok {
        OperandExpr::BitAddr(base, 3) => assert!(matches!(*base, OperandExpr::Number(0x12))),
        other => panic!("unexpected {:?}", other),
    }
    assert!(parse_operand_expr(&"0x12.259".chars().collect::<Vec<char>>()).is_err());
}
