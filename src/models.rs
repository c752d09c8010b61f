//! The user's remap configuration and the keyboard description it refers to.
use vstd::prelude::*;
use crate::table::KeyTable;

verus! {

/// Version written into new configurations.
pub const CURRENT_CONFIG_VERSION: u32 = 2;

/// Default function-trigger key ID.
pub const DEFAULT_FN_ID: u8 = 0xaf;

/// Default trackpoint sensitivity level.
pub const DEFAULT_TP_SENSITIVITY: u32 = 1;

/// First and last trigger IDs of the macro keys.
pub const FIRST_MACRO_TRIGGER: u8 = 0xE8;

/// Last trigger ID of the macro keys.
pub const LAST_MACRO_TRIGGER: u8 = 0xFF;

/// First trigger ID of the media keys.
pub const FIRST_MEDIA_TRIGGER: u8 = 0xD5;

/// Last trigger ID of the media keys.
pub const LAST_MEDIA_TRIGGER: u8 = 0xDF;

/// A macro key: eight modifier flags and the key they combine with.
#[derive(Clone, Copy, Debug, PartialEq, Eq, Structural)]
pub struct MacroKey {
    pub key_id: u8,
    pub left_ctrl: bool,
    pub left_shift: bool,
    pub left_alt: bool,
    pub left_gui: bool,
    pub right_ctrl: bool,
    pub right_shift: bool,
    pub right_alt: bool,
    pub right_gui: bool,
}

/// The eight modifier flags of a macro key.
#[derive(Clone, Copy, Debug, PartialEq, Eq, Structural)]
pub enum Modifier {
    LeftCtrl,
    LeftShift,
    LeftAlt,
    LeftGui,
    RightCtrl,
    RightShift,
    RightAlt,
    RightGui,
}

/// The macro key with every flag off and key 0.
pub open spec fn blank_macro_key() -> MacroKey {
    MacroKey {
        key_id: 0,
        left_ctrl: false,
        left_shift: false,
        left_alt: false,
        left_gui: false,
        right_ctrl: false,
        right_shift: false,
        right_alt: false,
        right_gui: false,
    }
}

/// `mk` with one modifier flag set to `flag`.
pub open spec fn with_modifier(mk: MacroKey, m: Modifier, flag: bool) -> MacroKey {
    match m {
        Modifier::LeftCtrl => MacroKey { left_ctrl: flag, ..mk },
        Modifier::LeftShift => MacroKey { left_shift: flag, ..mk },
        Modifier::LeftAlt => MacroKey { left_alt: flag, ..mk },
        Modifier::LeftGui => MacroKey { left_gui: flag, ..mk },
        Modifier::RightCtrl => MacroKey { right_ctrl: flag, ..mk },
        Modifier::RightShift => MacroKey { right_shift: flag, ..mk },
        Modifier::RightAlt => MacroKey { right_alt: flag, ..mk },
        Modifier::RightGui => MacroKey { right_gui: flag, ..mk },
    }
}

/// The modifier flags packed into one byte, left Ctrl in bit 0 up to right GUI in bit 7.
pub open spec fn modifier_bits(mk: MacroKey) -> nat {
    (if mk.left_ctrl {
        1nat
    } else {
        0
    }) + (if mk.left_shift {
        2nat
    } else {
        0
    }) + (if mk.left_alt {
        4nat
    } else {
        0
    }) + (if mk.left_gui {
        8nat
    } else {
        0
    }) + (if mk.right_ctrl {
        16nat
    } else {
        0
    }) + (if mk.right_shift {
        32nat
    } else {
        0
    }) + (if mk.right_alt {
        64nat
    } else {
        0
    }) + (if mk.right_gui {
        128nat
    } else {
        0
    })
}

impl MacroKey {
    /// A macro key with every flag off and key 0.
    pub fn new() -> (r: MacroKey)
        ensures
            r == blank_macro_key(),
    {
        MacroKey {
            key_id: 0,
            left_ctrl: false,
            left_shift: false,
            left_alt: false,
            left_gui: false,
            right_ctrl: false,
            right_shift: false,
            right_alt: false,
            right_gui: false,
        }
    }

    /// This key with one modifier flag set to `flag`.
    pub fn with(self, m: Modifier, flag: bool) -> (r: MacroKey)
        ensures
            r == with_modifier(self, m, flag),
    {
        let mut k = self;
        match m {
            Modifier::LeftCtrl => k.left_ctrl = flag,
            Modifier::LeftShift => k.left_shift = flag,
            Modifier::LeftAlt => k.left_alt = flag,
            Modifier::LeftGui => k.left_gui = flag,
            Modifier::RightCtrl => k.right_ctrl = flag,
            Modifier::RightShift => k.right_shift = flag,
            Modifier::RightAlt => k.right_alt = flag,
            Modifier::RightGui => k.right_gui = flag,
        }
        k
    }

    /// The modifier flags packed into one byte.
    pub fn modifier_byte(&self) -> (r: u8)
        ensures
            r as nat == modifier_bits(*self),
    {
        let mut bits: u8 = 0;
        if self.left_ctrl {
            bits = bits + 1;
        }
        if self.left_shift {
            bits = bits + 2;
        }
        if self.left_alt {
            bits = bits + 4;
        }
        if self.left_gui {
            bits = bits + 8;
        }
        if self.right_ctrl {
            bits = bits + 16;
        }
        if self.right_shift {
            bits = bits + 32;
        }
        if self.right_alt {
            bits = bits + 64;
        }
        if self.right_gui {
            bits = bits + 128;
        }
        bits
    }
}

/// How one key is labelled in a logical layout.
#[derive(Clone, Debug)]
pub struct KeyLabel {
    pub usage_name: String,
    pub default: String,
    pub shifted: String,
}

impl KeyLabel {
    /// A label with all three texts empty.
    pub fn new() -> (r: KeyLabel)
        ensures
            r.usage_name@.len() == 0,
            r.default@.len() == 0,
            r.shifted@.len() == 0,
    {
        KeyLabel { usage_name: String::new(), default: String::new(), shifted: String::new() }
    }
}

/// A physical keyboard: its rows of key widths and key addresses.
#[derive(Clone, Debug)]
pub struct Board {
    pub board_name: String,
    pub board_label: String,
    pub default_logical_layout_name: String,
    pub map_widths: Vec<Vec<u16>>,
    pub map_address: Vec<Vec<Option<u32>>>,
}

/// A physical layout is described by a board.
pub type PhysicalLayout = Board;

/// A logical layout: the label of each key ID.
#[derive(Clone, Debug)]
pub struct LogicalLayout {
    pub layout_name: String,
    pub layout_label: String,
    pub map_key_label: KeyTable<KeyLabel>,
}

/// Everything known about the keyboard family: initial key IDs, usage names, boards,
/// logical layouts and where the vendor installer is published.
#[derive(Clone, Debug)]
pub struct GeneralSeitting {
    pub initial_id_map: KeyTable<u8>,
    pub avail_hid_usage_names: KeyTable<String>,
    pub avail_media_key_usage_names: KeyTable<String>,
    pub avail_boards: Vec<Board>,
    pub avail_logical_layouts: Vec<LogicalLayout>,
    pub official_firmware_url: String,
}

impl GeneralSeitting {
    /// The usage name of a media key, which must be listed.
    pub fn get_media_key_usage_name(&self, media_key_id: u16) -> (r: String)
        requires
            self.avail_media_key_usage_names.wf(),
            self.avail_media_key_usage_names.has(media_key_id as u32),
        ensures
            r@ == self.avail_media_key_usage_names.spec_get(media_key_id as u32)->0@,
    {
        match self.avail_media_key_usage_names.get(media_key_id as u32) {
            Some(s) => s.clone(),
            None => String::new(),
        }
    }
}

/// The keyboard description, with physical layouts in place of boards.
#[derive(Clone, Debug)]
pub struct KeyboardSpec {
    pub initial_id_map: KeyTable<u8>,
    pub avail_hid_usage_names: KeyTable<String>,
    pub avail_media_key_usage_names: KeyTable<String>,
    pub avail_physical_layouts: Vec<PhysicalLayout>,
    pub avail_logical_layouts: Vec<LogicalLayout>,
    pub official_firmware_url: String,
}

impl KeyboardSpec {
    /// The usage name of a media key, which must be listed.
    pub fn get_media_key_usage_name(&self, media_key_id: u16) -> (r: String)
        requires
            self.avail_media_key_usage_names.wf(),
            self.avail_media_key_usage_names.has(media_key_id as u32),
        ensures
            r@ == self.avail_media_key_usage_names.spec_get(media_key_id as u32)->0@,
    {
        match self.avail_media_key_usage_names.get(media_key_id as u32) {
            Some(s) => s.clone(),
            None => String::new(),
        }
    }
}

} // verus!
