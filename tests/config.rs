use sn8patch::diff::Op;
use sn8patch::installer::{SN8_OFFSET, SN8_SIZE, XOR_KEY};
use sn8patch::models::{KeyLabel, MacroKey};
use sn8patch::patch::{build_and_patch, substitution_values, validate_mod_key_position, PatchError};
use sn8patch::table::KeyTable;
use sn8patch::user_config::UserConfig;

fn op(kind: &str, from: Option<usize>, code: Option<&str>) -> Op {
    Op { op: kind.to_string(), from, code: code.map(|c| c.to_string()) }
}

#[test]
fn new_config_has_defaults() {
    let c = UserConfig::new();
    assert_eq!(c.fn_id, 0xaf);
    assert_eq!(c.tp_sensitivity, 1);
    assert_eq!(c.macro_key_map.len(), 24);
    assert_eq!(c.media_key_map.len(), 11);
    assert_eq!(c.get_media_key_id(0xD5), 0);
    assert_eq!(c.get_macro_key(0xE8), MacroKey::new());
    assert!(!c.enable_middle_click);
}

#[test]
fn macro_key_updates() {
    let mut c = UserConfig::new();
    c.update_left_ctrl(0xE8, true);
    c.update_right_gui(0xE8, true);
    c.update_left_alt(0xE8, true);
    c.update_macro_key_id(0xE8, 0x04);
    let k = c.get_macro_key(0xE8);
    assert!(k.left_ctrl && k.right_gui && k.left_alt && !k.left_shift);
    assert_eq!(k.key_id, 0x04);
    assert_eq!(k.modifier_byte(), 0x85);
    assert_eq!(c.get_macro_key(0xE9), MacroKey::new());
    assert_eq!(c.get_macro_key(0x10), MacroKey::new());
    c.update_left_shift(0xE9, true);
    c.update_right_ctrl(0xE9, true);
    c.update_right_shift(0xE9, true);
    c.update_right_alt(0xE9, true);
    c.update_left_gui(0xE9, true);
    assert_eq!(c.get_macro_key(0xE9).modifier_byte(), 0x7a);
}

#[test]
fn layer_and_media_updates() {
    let mut c = UserConfig::new();
    c.update_layer(0, 0x10, 0x04);
    c.update_layer(1, 0x10, 0x05);
    c.update_layer(0, 0x02, 0x06);
    assert_eq!(c.get_id_layout(0).get(0x10), Some(&0x04));
    assert_eq!(c.get_id_layout(1).get(0x10), Some(&0x05));
    assert_eq!(c.get_id_layout(0).key_at(0), 0x02);
    c.copy_layer0_to_layer1();
    assert_eq!(c.get_id_layout(1).get(0x10), Some(&0x04));
    assert_eq!(c.get_id_layout(1).get(0x02), Some(&0x06));
    c.update_media_key_map(0xD6, 0x00e9);
    assert_eq!(c.get_media_key_id(0xD6), 0x00e9);
    c.update_fn_id(0x12);
    c.update_tp_sensitivity(4);
    c.update_physical_layout_name("0B47190");
    c.update_logical_layout_name("US_English");
    assert_eq!(c.fn_id, 0x12);
    assert_eq!(c.tp_sensitivity, 4);
    assert_eq!(c.physical_layout_name, "0B47190");
    assert_eq!(c.logical_layout_name, "US_English");
}

#[test]
fn key_label_starts_empty() {
    let k = KeyLabel::new();
    assert!(k.usage_name.is_empty() && k.default.is_empty() && k.shifted.is_empty());
}

#[test]
fn mod_key_must_match_on_both_layers() {
    let mut l0: KeyTable<u8> = KeyTable::new();
    let mut l1: KeyTable<u8> = KeyTable::new();
    l0.insert(0x20, 231);
    l1.insert(0x20, 231);
    assert_eq!(validate_mod_key_position(&l0, &l1), None);
    l1.insert(0x20, 4);
    assert_eq!(
        validate_mod_key_position(&l0, &l1),
        Some("The 'Mod' key position must be same on the Main and 2nd layers.".to_string())
    );
}

#[test]
fn mismatched_mod_key_is_refused_before_the_installer_is_read() {
    let mut c = UserConfig::new();
    c.update_layer(0, 0x20, 231);
    c.update_layer(1, 0x20, 4);
    let r = build_and_patch(&[], &c, &[], "");
    assert!(matches!(r, Err(PatchError::Validation(_))));
    assert_eq!(
        r.unwrap_err().message(),
        "The 'Mod' key position must be same on the Main and 2nd layers."
    );
}

#[test]
fn small_installer_is_refused() {
    let c = UserConfig::new();
    assert!(matches!(build_and_patch(&[1, 2, 3], &c, &[], ""), Err(PatchError::Extract(_))));
}

#[test]
fn substitution_values_follow_configuration() {
    let mut c = UserConfig::new();
    c.update_layer(0, 7, 0x04);
    c.update_layer(1, 7, 0x2a);
    c.update_layer(0, 9, 0x05);
    c.update_tp_sensitivity(3);
    c.update_enable_middle_click(true);
    c.update_left_shift(0xE8, true);
    c.update_macro_key_id(0xE8, 0x1d);
    c.update_media_key_map(0xD5, 0x00cd);
    let (sv, ev) = substitution_values(&c);
    let find = |k: &str| sv.iter().find(|p| p.0 == k).map(|p| p.1.clone());
    assert_eq!(find("fn_id"), Some("af".to_string()));
    assert_eq!(find("000007"), Some("2a04".to_string()));
    assert_eq!(find("000009"), None);
    assert_eq!(find("macro_e8"), Some("021d".to_string()));
    assert_eq!(find("macro_e9"), Some("0000".to_string()));
    assert_eq!(find("media_d5"), Some("00cd".to_string()));
    let choice = |k: &str| ev.iter().find(|p| p.0 == k).map(|p| p.1);
    assert_eq!(choice("tp_accel_0"), Some(1));
    assert_eq!(choice("tp_accel_1"), Some(1));
    assert_eq!(choice("tp_accel_2"), Some(0));
    assert_eq!(choice("tp_accel_3"), Some(0));
    assert_eq!(choice("mclick"), Some(1));
}

#[test]
fn pipeline_builds_patched_image() {
    let mut installer = vec![0u8; SN8_OFFSET + SN8_SIZE];
    for b in installer[SN8_OFFSET..].iter_mut() {
        *b = XOR_KEY;
    }
    let ops = vec![
        op("copy", Some(1), None),
        op("copy", Some(2), None),
        op("insert", None, Some("MOV A,#0x${s/fn_id/00}")),
    ];
    let c = UserConfig::new();
    let image = build_and_patch(&installer, &c, &ops, "\n\n;fn\n").unwrap();
    assert_eq!(image.len(), 0x6000);
    assert_eq!(&image[0..4], &[0x00, 0x00, 0xaf, 0x2d]);
    assert!(image[4..].iter().all(|b| *b == 0));
}

#[test]
fn new_config_has_empty_layout_names() {
    let c = UserConfig::new();
    assert!(c.physical_layout_name.is_empty());
    assert!(c.logical_layout_name.is_empty());
    assert_eq!(c.config_version, 2);
}
