//! The user's remap configuration: two key-ID layers, the function-trigger key,
//! trackpoint sensitivity, macro and media keys, and the middle-click switch.
use vstd::prelude::*;
use crate::models::{
    blank_macro_key, with_modifier, Board, KeyboardSpec, LogicalLayout, MacroKey, Modifier,
    CURRENT_CONFIG_VERSION, DEFAULT_FN_ID, DEFAULT_TP_SENSITIVITY, FIRST_MACRO_TRIGGER,
    FIRST_MEDIA_TRIGGER, LAST_MACRO_TRIGGER, LAST_MEDIA_TRIGGER,
};
use crate::table::KeyTable;

verus! {

/// All user settings.
#[derive(Clone, Debug)]
pub struct UserConfig {
    pub config_version: u32,
    pub physical_layout_name: String,
    pub logical_layout_name: String,
    pub layer0: KeyTable<u8>,
    pub layer1: KeyTable<u8>,
    pub fn_id: u8,
    pub tp_sensitivity: u32,
    pub macro_key_map: KeyTable<MacroKey>,
    pub media_key_map: KeyTable<u16>,
    pub enable_middle_click: bool,
}

impl UserConfig {
    /// All four tables are well formed.
    pub open spec fn wf(&self) -> bool {
        &&& self.layer0.wf()
        &&& self.layer1.wf()
        &&& self.macro_key_map.wf()
        &&& self.media_key_map.wf()
    }

    /// The default configuration over the given initial key-ID map: both layers are
    /// that map, every macro trigger has a blank macro key, every media trigger 0.
    pub fn with_initial_layout(id_map: &KeyTable<u8>) -> (r: UserConfig)
        requires
            id_map.wf(),
        ensures
            r.wf(),
            r.config_version == CURRENT_CONFIG_VERSION,
            r.physical_layout_name@.len() == 0,
            r.logical_layout_name@.len() == 0,
            r.layer0.pairs() == id_map.pairs(),
            r.layer1.pairs() == id_map.pairs(),
            r.fn_id == DEFAULT_FN_ID,
            r.tp_sensitivity == DEFAULT_TP_SENSITIVITY,
            forall|t: u32|
                #[trigger] r.macro_key_map.spec_get(t) == if FIRST_MACRO_TRIGGER <= t
                    <= LAST_MACRO_TRIGGER {
                    Some(blank_macro_key())
                } else {
                    None
                },
            forall|t: u32|
                #[trigger] r.media_key_map.spec_get(t) == if FIRST_MEDIA_TRIGGER <= t
                    <= LAST_MEDIA_TRIGGER {
                    Some(0u16)
                } else {
                    None
                },
            !r.enable_middle_click,
    {
        let mut macro_key_map: KeyTable<MacroKey> = KeyTable::new();
        let mut t: u32 = FIRST_MACRO_TRIGGER as u32;
        while t <= LAST_MACRO_TRIGGER as u32
            invariant
                FIRST_MACRO_TRIGGER <= t <= LAST_MACRO_TRIGGER + 1,
                macro_key_map.wf(),
                forall|u: u32|
                    #[trigger] macro_key_map.spec_get(u) == if FIRST_MACRO_TRIGGER <= u < t {
                        Some(blank_macro_key())
                    } else {
                        None
                    },
            decreases LAST_MACRO_TRIGGER + 1 - t,
        {
            macro_key_map.insert(t, MacroKey::new());
            t = t + 1;
        }
        let mut media_key_map: KeyTable<u16> = KeyTable::new();
        let mut m: u32 = FIRST_MEDIA_TRIGGER as u32;
        while m <= LAST_MEDIA_TRIGGER as u32
            invariant
                FIRST_MEDIA_TRIGGER <= m <= LAST_MEDIA_TRIGGER + 1,
                media_key_map.wf(),
                forall|u: u32|
                    #[trigger] media_key_map.spec_get(u) == if FIRST_MEDIA_TRIGGER <= u < m {
                        Some(0u16)
                    } else {
                        None
                    },
            decreases LAST_MEDIA_TRIGGER + 1 - m,
        {
            media_key_map.insert(m, 0);
            m = m + 1;
        }
        UserConfig {
            config_version: CURRENT_CONFIG_VERSION,
            physical_layout_name: String::new(),
            logical_layout_name: String::new(),
            layer0: id_map.duplicate(),
            layer1: id_map.duplicate(),
            fn_id: DEFAULT_FN_ID,
            tp_sensitivity: DEFAULT_TP_SENSITIVITY,
            macro_key_map,
            media_key_map,
            enable_middle_click: false,
        }
    }
}

/// Index of the first board at or after `i` named `name`, or 0.
pub open spec fn board_index(bs: Seq<Board>, name: Seq<char>, i: nat) -> nat
    decreases bs.len() - i,
{
    if i >= bs.len() {
        0
    } else if bs[i as int].board_name@ == name {
        i
    } else {
        board_index(bs, name, i + 1)
    }
}

/// Index of the first logical layout at or after `i` named `name`, or 0.
pub open spec fn layout_index(ls: Seq<LogicalLayout>, name: Seq<char>, i: nat) -> nat
    decreases ls.len() - i,
{
    if i >= ls.len() {
        0
    } else if ls[i as int].layout_name@ == name {
        i
    } else {
        layout_index(ls, name, i + 1)
    }
}

fn same_text(a: &String, b: &String) -> (r: bool)
    ensures
        r == (a@ == b@),
{
    a.eq(b)
}

impl UserConfig {
    /// The default configuration with both layers empty.
    pub fn new() -> (r: UserConfig)
        ensures
            r.wf(),
            r.config_version == CURRENT_CONFIG_VERSION,
            r.physical_layout_name@.len() == 0,
            r.logical_layout_name@.len() == 0,
            r.layer0.pairs().len() == 0,
            r.layer1.pairs().len() == 0,
            r.fn_id == DEFAULT_FN_ID,
            r.tp_sensitivity == DEFAULT_TP_SENSITIVITY,
            forall|t: u32|
                #[trigger] r.macro_key_map.spec_get(t) == if FIRST_MACRO_TRIGGER <= t
                    <= LAST_MACRO_TRIGGER {
                    Some(blank_macro_key())
                } else {
                    None
                },
            forall|t: u32|
                #[trigger] r.media_key_map.spec_get(t) == if FIRST_MEDIA_TRIGGER <= t
                    <= LAST_MEDIA_TRIGGER {
                    Some(0u16)
                } else {
                    None
                },
            !r.enable_middle_click,
    {
        let empty: KeyTable<u8> = KeyTable::new();
        UserConfig::with_initial_layout(&empty)
    }

    /// Rename the physical layout.
    pub fn update_physical_layout_name(&mut self, new_name: &str)
        ensures
            final(self).physical_layout_name@ == new_name@,
            *final(self) == (UserConfig {
                physical_layout_name: final(self).physical_layout_name,
                ..*old(self)
            }),
    {
        self.physical_layout_name = new_name.to_owned();
    }

    /// Rename the logical layout.
    pub fn update_logical_layout_name(&mut self, new_name: &str)
        ensures
            final(self).logical_layout_name@ == new_name@,
            *final(self) == (UserConfig {
                logical_layout_name: final(self).logical_layout_name,
                ..*old(self)
            }),
    {
        self.logical_layout_name = new_name.to_owned();
    }

    /// The board named by the configuration, or the first one.
    pub fn get_physical_layout<'a>(&self, keyboard_spec: &'a KeyboardSpec) -> (r: &'a Board)
        requires
            keyboard_spec.avail_physical_layouts@.len() > 0,
        ensures
            *r == keyboard_spec.avail_physical_layouts@[board_index(
                keyboard_spec.avail_physical_layouts@,
                self.physical_layout_name@,
                0,
            ) as int],
    {
        let bs = &keyboard_spec.avail_physical_layouts;
        let mut i: usize = 0;
        while i < bs.len()
            invariant
                i <= bs@.len(),
                bs@ == keyboard_spec.avail_physical_layouts@,
                board_index(bs@, self.physical_layout_name@, 0) == board_index(
                    bs@,
                    self.physical_layout_name@,
                    i as nat,
                ),
            decreases bs@.len() - i,
        {
            if same_text(&bs[i].board_name, &self.physical_layout_name) {
                return &bs[i];
            }
            i = i + 1;
        }
        &bs[0]
    }

    /// The logical layout named by the configuration, or the first one.
    pub fn get_logical_layout<'a>(&self, keyboard_spec: &'a KeyboardSpec) -> (r: &'a LogicalLayout)
        requires
            keyboard_spec.avail_logical_layouts@.len() > 0,
        ensures
            *r == keyboard_spec.avail_logical_layouts@[layout_index(
                keyboard_spec.avail_logical_layouts@,
                self.logical_layout_name@,
                0,
            ) as int],
    {
        let ls = &keyboard_spec.avail_logical_layouts;
        let mut i: usize = 0;
        while i < ls.len()
            invariant
                i <= ls@.len(),
                ls@ == keyboard_spec.avail_logical_layouts@,
                layout_index(ls@, self.logical_layout_name@, 0) == layout_index(
                    ls@,
                    self.logical_layout_name@,
                    i as nat,
                ),
            decreases ls@.len() - i,
        {
            if same_text(&ls[i].layout_name, &self.logical_layout_name) {
                return &ls[i];
            }
            i = i + 1;
        }
        &ls[0]
    }

    /// Layer 0, or layer 1 for any other number.
    pub fn get_id_layout(&self, layer_number: u8) -> (r: &KeyTable<u8>)
        ensures
            *r == if layer_number == 0 {
                self.layer0
            } else {
                self.layer1
            },
    {
        if layer_number == 0 {
            &self.layer0
        } else {
            &self.layer1
        }
    }

    /// Assign `new_id` to `address` on layer 0, or on layer 1 for any other number.
    pub fn update_layer(&mut self, layer_number: u8, address: u32, new_id: u8)
        requires
            old(self).wf(),
        ensures
            final(self).wf(),
            layer_number == 0 ==> *final(self) == (UserConfig {
                layer0: final(self).layer0,
                ..*old(self)
            }),
            layer_number != 0 ==> *final(self) == (UserConfig {
                layer1: final(self).layer1,
                ..*old(self)
            }),
            layer_number == 0 ==> final(self).layer0.spec_get(address) == Some(new_id),
            layer_number != 0 ==> final(self).layer1.spec_get(address) == Some(new_id),
            forall|a: u32|
                a != address ==> #[trigger] final(self).layer0.spec_get(a) == old(
                    self,
                ).layer0.spec_get(a),
            forall|a: u32|
                a != address ==> #[trigger] final(self).layer1.spec_get(a) == old(
                    self,
                ).layer1.spec_get(a),
    {
        if layer_number == 0 {
            self.layer0.insert(address, new_id);
        } else {
            self.layer1.insert(address, new_id);
        }
    }

    /// Make layer 1 a copy of layer 0.
    pub fn copy_layer0_to_layer1(&mut self)
        requires
            old(self).wf(),
        ensures
            final(self).wf(),
            final(self).layer1.pairs() == old(self).layer0.pairs(),
            *final(self) == (UserConfig { layer1: final(self).layer1, ..*old(self) }),
    {
        self.layer1 = self.layer0.duplicate();
    }

    /// Set the trackpoint sensitivity level.
    pub fn update_tp_sensitivity(&mut self, new_tp_sensitivity: u32)
        ensures
            *final(self) == (UserConfig { tp_sensitivity: new_tp_sensitivity, ..*old(self) }),
    {
        self.tp_sensitivity = new_tp_sensitivity;
    }

    /// Set the function-trigger key ID.
    pub fn update_fn_id(&mut self, new_fn_id: u8)
        ensures
            *final(self) == (UserConfig { fn_id: new_fn_id, ..*old(self) }),
    {
        self.fn_id = new_fn_id;
    }

    /// Switch middle click on or off.
    pub fn update_enable_middle_click(&mut self, new_flag: bool)
        ensures
            *final(self) == (UserConfig { enable_middle_click: new_flag, ..*old(self) }),
    {
        self.enable_middle_click = new_flag;
    }

    /// The usage code of the media key on `trigger_key_id`, or 0.
    pub fn get_media_key_id(&self, trigger_key_id: u8) -> (r: u16)
        requires
            self.wf(),
        ensures
            r == match self.media_key_map.spec_get(trigger_key_id as u32) {
                Some(v) => v,
                None => 0,
            },
    {
        match self.media_key_map.get(trigger_key_id as u32) {
            Some(v) => *v,
            None => 0,
        }
    }

    /// Bind the media key on `trigger_key_id` to a usage code.
    pub fn update_media_key_map(&mut self, trigger_key_id: u8, new_media_key_id: u16)
        requires
            old(self).wf(),
        ensures
            final(self).wf(),
            *final(self) == (UserConfig { media_key_map: final(self).media_key_map, ..*old(self) }),
            final(self).media_key_map.spec_get(trigger_key_id as u32) == Some(new_media_key_id),
            forall|t: u32|
                t != trigger_key_id as u32 ==> #[trigger] final(self).media_key_map.spec_get(t)
                    == old(self).media_key_map.spec_get(t),
    {
        self.media_key_map.insert(trigger_key_id as u32, new_media_key_id);
    }

    /// The macro key on `trigger_key_id`, or a blank one.
    pub fn get_macro_key(&self, trigger_key_id: u8) -> (r: MacroKey)
        requires
            self.wf(),
        ensures
            r == match self.macro_key_map.spec_get(trigger_key_id as u32) {
                Some(v) => v,
                None => blank_macro_key(),
            },
    {
        match self.macro_key_map.get(trigger_key_id as u32) {
            Some(v) => *v,
            None => MacroKey::new(),
        }
    }

    fn set_modifier(&mut self, trigger_key_id: u8, m: Modifier, flag: bool)
        requires
            old(self).wf(),
            old(self).macro_key_map.has(trigger_key_id as u32),
        ensures
            final(self).wf(),
            *final(self) == (UserConfig { macro_key_map: final(self).macro_key_map, ..*old(self) }),
            final(self).macro_key_map.spec_get(trigger_key_id as u32) == Some(
                with_modifier(old(self).macro_key_map.spec_get(trigger_key_id as u32)->0, m, flag),
            ),
            forall|t: u32|
                t != trigger_key_id as u32 ==> #[trigger] final(self).macro_key_map.spec_get(t)
                    == old(self).macro_key_map.spec_get(t),
    {
        let current = self.get_macro_key(trigger_key_id);
        self.macro_key_map.insert(trigger_key_id as u32, current.with(m, flag));
    }

    /// Set the left ctrl flag of the macro key on `trigger_key_id`, which must exist.
    pub fn update_left_ctrl(&mut self, trigger_key_id: u8, left_ctrl: bool)
        requires
            old(self).wf(),
            old(self).macro_key_map.has(trigger_key_id as u32),
        ensures
            final(self).wf(),
            *final(self) == (UserConfig { macro_key_map: final(self).macro_key_map, ..*old(self) }),
            final(self).macro_key_map.spec_get(trigger_key_id as u32) == Some(
                with_modifier(
                    old(self).macro_key_map.spec_get(trigger_key_id as u32)->0,
                    Modifier::LeftCtrl,
                    left_ctrl,
                ),
            ),
            forall|t: u32|
                t != trigger_key_id as u32 ==> #[trigger] final(self).macro_key_map.spec_get(t)
                    == old(self).macro_key_map.spec_get(t),
    {
        self.set_modifier(trigger_key_id, Modifier::LeftCtrl, left_ctrl);
    }

    /// Set the right ctrl flag of the macro key on `trigger_key_id`, which must exist.
    pub fn update_right_ctrl(&mut self, trigger_key_id: u8, right_ctrl: bool)
        requires
            old(self).wf(),
            old(self).macro_key_map.has(trigger_key_id as u32),
        ensures
            final(self).wf(),
            *final(self) == (UserConfig { macro_key_map: final(self).macro_key_map, ..*old(self) }),
            final(self).macro_key_map.spec_get(trigger_key_id as u32) == Some(
                with_modifier(
                    old(self).macro_key_map.spec_get(trigger_key_id as u32)->0,
                    Modifier::RightCtrl,
                    right_ctrl,
                ),
            ),
            forall|t: u32|
                t != trigger_key_id as u32 ==> #[trigger] final(self).macro_key_map.spec_get(t)
                    == old(self).macro_key_map.spec_get(t),
    {
        self.set_modifier(trigger_key_id, Modifier::RightCtrl, right_ctrl);
    }

    /// Set the left shift flag of the macro key on `trigger_key_id`, which must exist.
    pub fn update_left_shift(&mut self, trigger_key_id: u8, left_shift: bool)
        requires
            old(self).wf(),
            old(self).macro_key_map.has(trigger_key_id as u32),
        ensures
            final(self).wf(),
            *final(self) == (UserConfig { macro_key_map: final(self).macro_key_map, ..*old(self) }),
            final(self).macro_key_map.spec_get(trigger_key_id as u32) == Some(
                with_modifier(
                    old(self).macro_key_map.spec_get(trigger_key_id as u32)->0,
                    Modifier::LeftShift,
                    left_shift,
                ),
            ),
            forall|t: u32|
                t != trigger_key_id as u32 ==> #[trigger] final(self).macro_key_map.spec_get(t)
                    == old(self).macro_key_map.spec_get(t),
    {
        self.set_modifier(trigger_key_id, Modifier::LeftShift, left_shift);
    }

    /// Set the right shift flag of the macro key on `trigger_key_id`, which must exist.
    pub fn update_right_shift(&mut self, trigger_key_id: u8, right_shift: bool)
        requires
            old(self).wf(),
            old(self).macro_key_map.has(trigger_key_id as u32),
        ensures
            final(self).wf(),
            *final(self) == (UserConfig { macro_key_map: final(self).macro_key_map, ..*old(self) }),
            final(self).macro_key_map.spec_get(trigger_key_id as u32) == Some(
                with_modifier(
                    old(self).macro_key_map.spec_get(trigger_key_id as u32)->0,
                    Modifier::RightShift,
                    right_shift,
                ),
            ),
            forall|t: u32|
                t != trigger_key_id as u32 ==> #[trigger] final(self).macro_key_map.spec_get(t)
                    == old(self).macro_key_map.spec_get(t),
    {
        self.set_modifier(trigger_key_id, Modifier::RightShift, right_shift);
    }

    /// Set the left alt flag of the macro key on `trigger_key_id`, which must exist.
    pub fn update_left_alt(&mut self, trigger_key_id: u8, left_alt: bool)
        requires
            old(self).wf(),
            old(self).macro_key_map.has(trigger_key_id as u32),
        ensures
            final(self).wf(),
            *final(self) == (UserConfig { macro_key_map: final(self).macro_key_map, ..*old(self) }),
            final(self).macro_key_map.spec_get(trigger_key_id as u32) == Some(
                with_modifier(
                    old(self).macro_key_map.spec_get(trigger_key_id as u32)->0,
                    Modifier::LeftAlt,
                    left_alt,
                ),
            ),
            forall|t: u32|
                t != trigger_key_id as u32 ==> #[trigger] final(self).macro_key_map.spec_get(t)
                    == old(self).macro_key_map.spec_get(t),
    {
        self.set_modifier(trigger_key_id, Modifier::LeftAlt, left_alt);
    }

    /// Set the right alt flag of the macro key on `trigger_key_id`, which must exist.
    pub fn update_right_alt(&mut self, trigger_key_id: u8, right_alt: bool)
        requires
            old(self).wf(),
            old(self).macro_key_map.has(trigger_key_id as u32),
        ensures
            final(self).wf(),
            *final(self) == (UserConfig { macro_key_map: final(self).macro_key_map, ..*old(self) }),
            final(self).macro_key_map.spec_get(trigger_key_id as u32) == Some(
                with_modifier(
                    old(self).macro_key_map.spec_get(trigger_key_id as u32)->0,
                    Modifier::RightAlt,
                    right_alt,
                ),
            ),
            forall|t: u32|
                t != trigger_key_id as u32 ==> #[trigger] final(self).macro_key_map.spec_get(t)
                    == old(self).macro_key_map.spec_get(t),
    {
        self.set_modifier(trigger_key_id, Modifier::RightAlt, right_alt);
    }

    /// Set the left gui flag of the macro key on `trigger_key_id`, which must exist.
    pub fn update_left_gui(&mut self, trigger_key_id: u8, left_gui: bool)
        requires
            old(self).wf(),
            old(self).macro_key_map.has(trigger_key_id as u32),
        ensures
            final(self).wf(),
            *final(self) == (UserConfig { macro_key_map: final(self).macro_key_map, ..*old(self) }),
            final(self).macro_key_map.spec_get(trigger_key_id as u32) == Some(
                with_modifier(
                    old(self).macro_key_map.spec_get(trigger_key_id as u32)->0,
                    Modifier::LeftGui,
                    left_gui,
                ),
            ),
            forall|t: u32|
                t != trigger_key_id as u32 ==> #[trigger] final(self).macro_key_map.spec_get(t)
                    == old(self).macro_key_map.spec_get(t),
    {
        self.set_modifier(trigger_key_id, Modifier::LeftGui, left_gui);
    }

    /// Set the right gui flag of the macro key on `trigger_key_id`, which must exist.
    pub fn update_right_gui(&mut self, trigger_key_id: u8, right_gui: bool)
        requires
            old(self).wf(),
            old(self).macro_key_map.has(trigger_key_id as u32),
        ensures
            final(self).wf(),
            *final(self) == (UserConfig { macro_key_map: final(self).macro_key_map, ..*old(self) }),
            final(self).macro_key_map.spec_get(trigger_key_id as u32) == Some(
                with_modifier(
                    old(self).macro_key_map.spec_get(trigger_key_id as u32)->0,
                    Modifier::RightGui,
                    right_gui,
                ),
            ),
            forall|t: u32|
                t != trigger_key_id as u32 ==> #[trigger] final(self).macro_key_map.spec_get(t)
                    == old(self).macro_key_map.spec_get(t),
    {
        self.set_modifier(trigger_key_id, Modifier::RightGui, right_gui);
    }

    /// Set the key ID of the macro key on `trigger_key_id`, which must exist.
    pub fn update_macro_key_id(&mut self, trigger_key_id: u8, new_key_id: u8)
        requires
            old(self).wf(),
            old(self).macro_key_map.has(trigger_key_id as u32),
        ensures
            final(self).wf(),
            *final(self) == (UserConfig { macro_key_map: final(self).macro_key_map, ..*old(self) }),
            final(self).macro_key_map.spec_get(trigger_key_id as u32) == Some(
                MacroKey {
                    key_id: new_key_id,
                    ..old(self).macro_key_map.spec_get(trigger_key_id as u32)->0
                },
            ),
            forall|t: u32|
                t != trigger_key_id as u32 ==> #[trigger] final(self).macro_key_map.spec_get(t)
                    == old(self).macro_key_map.spec_get(t),
    {
        let mut current = self.get_macro_key(trigger_key_id);
        current.key_id = new_key_id;
        self.macro_key_map.insert(trigger_key_id as u32, current);
    }
}

} // verus!
