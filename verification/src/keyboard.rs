//! The PS/2 keyboard: scancodes, keycodes and the modifier state.
//!
//! See [PS/2 Keyboard](https://wiki.osdev.org/Keyboard).
use crate::io::Pio;
use vstd::prelude::*;

verus! {

/// The PS/2 controller: its data port, its command port, and the bytes of
/// the scancode being read.
pub struct Ps2Controler {
    data: Pio<u8>,
    _command: Pio<u8>,
    current_scancode: Option<u32>,
}

/// What reading the byte `key` does, given the bytes of the scancode read
/// so far: the new pending bytes, and the complete scancode if any.
/// 0xE0 opens an escaped scancode, and 0xF0 after it is pending too.
pub open spec fn scancode_step(current: Option<u32>, key: u8) -> (Option<u32>, Option<u32>) {
    match current {
        None => if key == 0xE0 {
            (Some(key as u32), None)
        } else {
            (None, Some(key as u32))
        },
        Some(curr) => if key == 0xF0 {
            (Some(((curr << 8u32) + key) as u32), None)
        } else {
            (None, Some(((curr << 8u32) + key) as u32))
        },
    }
}

impl Ps2Controler {
    /// The bytes of the scancode read so far, if any.
    pub closed spec fn pending(self) -> Option<u32> {
        self.current_scancode
    }

    /// The data port.
    pub closed spec fn data_port(self) -> u16 {
        self.data.port_view()
    }

    /// The controller at its PC ports (data 0x60, command 0x64), with no
    /// byte pending.
    pub fn new() -> (r: Self)
        ensures
            r.pending() is None,
            r.data_port() == 0x60,
    {
        Ps2Controler { data: Pio::new(0x60), _command: Pio::new(0x64), current_scancode: None }
    }

    /// Takes in `key`, the byte read on the data port, and returns the
    /// complete scancode when there is one.
    pub fn read_scancode(&mut self, key: u8) -> (r: Option<u32>)
        ensures
            (final(self).pending(), r) == scancode_step(old(self).pending(), key),
            final(self).data_port() == old(self).data_port(),
    {
        match self.current_scancode {
            None => {
                if key == 0xE0 {
                    self.current_scancode = Some(key as u32);
                    None
                } else {
                    Some(key as u32)
                }
            },
            Some(curr) => {
                let low: u32 = curr << 8u32;
                proof {
                    lemma_keyboard_bits(curr, key, 0, 0, 0);
                }
                let code = low + key as u32;
                if key == 0xF0 {
                    self.current_scancode = Some(code);
                    None
                } else {
                    self.current_scancode = None;
                    Some(code)
                }
            },
        }
    }
}

/// A key pressed or released, by its keycode.
#[derive(Copy, Clone, Debug, PartialEq, Eq, Structural)]
pub enum KeyCode {
    Pressed(u8),
    Released(u8),
}

/// The keycode of an escaped scancode (0xE0 then `index`), as showkey
/// lists them; 0 for those without one.
pub open spec fn escaped_keycode(index: u32) -> u8 {
    if index == 0x38 {
        100
    } else if index == 0x48 {
        103
    } else if index == 0x4B {
        105
    } else if index == 0x4D {
        106
    } else if index == 0x50 {
        108
    } else {
        0
    }
}

fn escaped_scancode_to_keycode(index: u32) -> (r: u8)
    ensures
        r == escaped_keycode(index),
{
    if index == 0x38 {
        100
    } else if index == 0x48 {
        103
    } else if index == 0x4B {
        105
    } else if index == 0x4D {
        106
    } else if index == 0x50 {
        108
    } else {
        0
    }
}

/// The keycode of a scancode: 0x01 to 0x58 are presses, 0x81 to 0xD8
/// releases of the key 0x80 below; 0xE010 to 0xE06D and 0xE090 to 0xE0ED
/// are the escaped presses and releases. Other scancodes have none.
pub open spec fn keycode_of(scancode: u32) -> Option<KeyCode> {
    if 0x1 <= scancode <= 0x58 {
        Some(KeyCode::Pressed(scancode as u8))
    } else if 0x81 <= scancode <= 0xd8 {
        Some(KeyCode::Released((scancode - 0x80) as u8))
    } else if 0xe010 <= scancode <= 0xe06d {
        Some(KeyCode::Pressed(escaped_keycode((scancode - 0xe000) as u32)))
    } else if 0xe090 <= scancode <= 0xe0ed {
        Some(KeyCode::Released(escaped_keycode((scancode - 0xe080) as u32)))
    } else {
        None
    }
}

impl KeyCode {
    /// Transforms the multibyte scancode into a one byte keycode.
    pub fn from_scancode(scancode: u32) -> (r: Option<Self>)
        ensures
            r == keycode_of(scancode),
    {
        if scancode >= 0x1 && scancode <= 0x58 {
            return Some(KeyCode::Pressed(scancode as u8));
        }
        if scancode >= 0x81 && scancode <= 0xd8 {
            return Some(KeyCode::Released((scancode - 0x80) as u8));
        }
        if scancode >= 0xe010 && scancode <= 0xe06d {
            let low = scancode & 0xFF;
            proof {
                lemma_keyboard_bits(0, 0, scancode, 0, 0);
            }
            return Some(KeyCode::Pressed(escaped_scancode_to_keycode(low)));
        }
        if scancode >= 0xe090 && scancode <= 0xe0ed {
            let low = scancode & 0xFF;
            proof {
                lemma_keyboard_bits(0, 0, scancode, 0, 0);
            }
            return Some(KeyCode::Released(escaped_scancode_to_keycode(low - 0x80)));
        }
        None
    }
}

/// A release is the release of the key the press 0x80 below it presses:
/// for each scancode of a press, plain (0x01 to 0x58) or escaped (0xE010
/// to 0xE06D), the scancode 0x80 above it gives `Released` of the very
/// keycode the press gives `Pressed` of.
pub proof fn lemma_release_mirrors_press(scancode: u32)
    requires
        0x01 <= scancode <= 0x58 || 0xE010 <= scancode <= 0xE06D,
    ensures
        keycode_of(scancode) matches Some(KeyCode::Pressed(k)) && keycode_of((scancode + 0x80) as u32)
            == Some(KeyCode::Released(k)),
{
}

/// A plain press gives the keycode of its own number, and the escaped
/// keys the keycodes showkey lists for them: 0xE038 (right Alt) 100,
/// 0xE048 (up) 103, 0xE04B (left) 105, 0xE04D (right) 106 and 0xE050
/// (down) 108; the other escaped scancodes give keycode 0. Scancodes
/// that are neither presses nor releases give none.
pub proof fn lemma_keycodes_of_keys(scancode: u32)
    ensures
        0x01 <= scancode <= 0x58 ==> keycode_of(scancode) == Some(KeyCode::Pressed(scancode as u8)),
        keycode_of(0xE038) == Some(KeyCode::Pressed(100)),
        keycode_of(0xE048) == Some(KeyCode::Pressed(103)),
        keycode_of(0xE04B) == Some(KeyCode::Pressed(105)),
        keycode_of(0xE04D) == Some(KeyCode::Pressed(106)),
        keycode_of(0xE050) == Some(KeyCode::Pressed(108)),
        0xE010 <= scancode <= 0xE06D && scancode != 0xE038 && scancode != 0xE048 && scancode != 0xE04B
            && scancode != 0xE04D && scancode != 0xE050 ==> keycode_of(scancode) == Some(KeyCode::Pressed(0)),
        !(0x01 <= scancode <= 0x58 || 0x81 <= scancode <= 0xD8 || 0xE010 <= scancode <= 0xE06D || 0xE090
            <= scancode <= 0xE0ED) ==> keycode_of(scancode) is None,
{
}

/// The symbol a key produces. The modifiers and the caps lock are told
/// apart; every other symbol is known by its code.
#[derive(Copy, Clone, Debug, PartialEq, Eq, Structural)]
pub enum KeySymb {
    Control,
    Shift,
    Alt,
    AltGr,
    CtrlLLock,
    Symbol(u32),
}

/// A keymap entry: whether the caps lock changes it.
#[derive(Copy, Clone, Debug, PartialEq, Eq, Structural)]
pub enum CapsLockSensitive {
    Yes(KeySymb),
    No(KeySymb),
}

/// The bit of the modifier mask held by Shift.
pub const SHIFT_MASK: u8 = 1;
/// The bit of the modifier mask held by AltGr.
pub const ALTGR_MASK: u8 = 2;
/// The bit of the modifier mask held by Control.
pub const CONTROL_MASK: u8 = 4;
/// The bit of the modifier mask held by Alt.
pub const ALT_MASK: u8 = 8;

/// A keymap: for each keycode, the entries for each of the sixteen
/// combinations of the modifiers.
pub open spec fn keymap_shape(keymap: Seq<Vec<CapsLockSensitive>>) -> bool {
    forall|k: int| 0 <= k < keymap.len() ==> (#[trigger] keymap[k])@.len() == 16
}

/// The modifier bit a symbol stands for, if it is a modifier.
pub open spec fn modifier_bit(s: KeySymb) -> Option<u8> {
    match s {
        KeySymb::Control => Some(CONTROL_MASK),
        KeySymb::Shift => Some(SHIFT_MASK),
        KeySymb::Alt => Some(ALT_MASK),
        KeySymb::AltGr => Some(ALTGR_MASK),
        _ => None,
    }
}

/// The state of the modifiers: which are held, and the caps lock.
pub struct KeyboardDriver {
    escape_key_mask: u8,
    capslock: bool,
}

impl KeyboardDriver {
    /// The modifiers held.
    pub closed spec fn mask(self) -> u8 {
        self.escape_key_mask
    }

    /// Whether the caps lock is on.
    pub closed spec fn capslock_view(self) -> bool {
        self.capslock
    }

    /// The mask only holds modifier bits.
    pub open spec fn wf(self) -> bool {
        self.mask() < 16
    }

    /// No modifier held, caps lock off.
    pub fn new() -> (r: Self)
        ensures
            r.wf(),
            r.mask() == 0,
            !r.capslock_view(),
    {
        Self { escape_key_mask: 0, capslock: false }
    }

    /// Translates `keycode` with `keymap`. A modifier pressed is recorded
    /// and a modifier released forgotten; the caps lock pressed toggles;
    /// those produce no symbol. Another key pressed produces its symbol for
    /// the modifiers held, with the shift flipped by the caps lock when the
    /// entry is sensitive to it. A key released produces nothing.
    pub fn keycode_to_keymap(&mut self, keycode: KeyCode, keymap: &Vec<Vec<CapsLockSensitive>>) -> (r: Option<KeySymb>)
        requires
            old(self).wf(),
            keymap_shape(keymap@),
            match keycode {
                KeyCode::Pressed(k) => k < keymap@.len(),
                KeyCode::Released(k) => k < keymap@.len(),
            },
        ensures
            final(self).wf(),
            match keycode {
                KeyCode::Pressed(k) => {
                    let symb = keymap@[k as int]@[old(self).mask() as int];
                    match symb {
                        CapsLockSensitive::No(s) => match modifier_bit(s) {
                            Some(bit) => r is None && final(self).mask() == old(self).mask() | bit
                                && final(self).capslock_view() == old(self).capslock_view(),
                            None => if s == KeySymb::CtrlLLock {
                                r is None && final(self).mask() == old(self).mask()
                                    && final(self).capslock_view() == !old(self).capslock_view()
                            } else {
                                r == Some(s) && final(self).mask() == old(self).mask()
                                    && final(self).capslock_view() == old(self).capslock_view()
                            },
                        },
                        CapsLockSensitive::Yes(_) => {
                            let index = (old(self).mask() ^ (if old(self).capslock_view() {
                                1u8
                            } else {
                                0u8
                            })) as int;
                            &&& r == Some(
                                match keymap@[k as int]@[index] {
                                    CapsLockSensitive::No(o) => o,
                                    CapsLockSensitive::Yes(o) => o,
                                },
                            )
                            &&& final(self).mask() == old(self).mask()
                            &&& final(self).capslock_view() == old(self).capslock_view()
                        },
                    }
                },
                KeyCode::Released(k) => {
                    let index = (old(self).mask() ^ (if old(self).capslock_view() {
                        1u8
                    } else {
                        0u8
                    })) as int;
                    &&& r is None
                    &&& final(self).capslock_view() == old(self).capslock_view()
                    &&& final(self).mask() == match keymap@[k as int]@[index] {
                        CapsLockSensitive::No(s) => match modifier_bit(s) {
                            Some(bit) => old(self).mask() & !bit,
                            None => old(self).mask(),
                        },
                        _ => old(self).mask(),
                    }
                },
            },
    {
        let caps: u8 = if self.capslock {
            1
        } else {
            0
        };
        let mask = self.escape_key_mask;
        proof {
            lemma_keyboard_bits(0, 0, 0, mask, caps);
        }
        match keycode {
            KeyCode::Pressed(k) => {
                let symb = keymap[k as usize][mask as usize];
                match symb {
                    CapsLockSensitive::No(KeySymb::Control) => {
                        assert(mask | 4 < 16);
                        self.escape_key_mask = mask | CONTROL_MASK;
                        None
                    },
                    CapsLockSensitive::No(KeySymb::Shift) => {
                        assert(mask | 1 < 16);
                        self.escape_key_mask = mask | SHIFT_MASK;
                        None
                    },
                    CapsLockSensitive::No(KeySymb::Alt) => {
                        assert(mask | 8 < 16);
                        self.escape_key_mask = mask | ALT_MASK;
                        None
                    },
                    CapsLockSensitive::No(KeySymb::AltGr) => {
                        assert(mask | 2 < 16);
                        self.escape_key_mask = mask | ALTGR_MASK;
                        None
                    },
                    CapsLockSensitive::No(KeySymb::CtrlLLock) => {
                        self.capslock = !self.capslock;
                        None
                    },
                    CapsLockSensitive::No(other) => Some(other),
                    CapsLockSensitive::Yes(_) => {
                        let symb = keymap[k as usize][(mask ^ caps) as usize];
                        match symb {
                            CapsLockSensitive::No(other) => Some(other),
                            CapsLockSensitive::Yes(other) => Some(other),
                        }
                    },
                }
            },
            KeyCode::Released(k) => {
                let symb = keymap[k as usize][(mask ^ caps) as usize];
                assert(mask & !4u8 < 16 && mask & !1u8 < 16 && mask & !8u8 < 16 && mask & !2u8 < 16);
                match symb {
                    CapsLockSensitive::No(KeySymb::Control) => {
                        self.escape_key_mask = mask & !CONTROL_MASK;
                    },
                    CapsLockSensitive::No(KeySymb::Shift) => {
                        self.escape_key_mask = mask & !SHIFT_MASK;
                    },
                    CapsLockSensitive::No(KeySymb::Alt) => {
                        self.escape_key_mask = mask & !ALT_MASK;
                    },
                    CapsLockSensitive::No(KeySymb::AltGr) => {
                        self.escape_key_mask = mask & !ALTGR_MASK;
                    },
                    _ => {},
                }
                None
            },
        }
    }
}

/// The bit facts the keyboard driver rests on: a scancode shifted by a
/// byte leaves room for the next byte, an escaped scancode keeps its low
/// byte, and the modifier masks stay below 16.
proof fn lemma_keyboard_bits(curr: u32, key: u8, scancode: u32, mask: u8, caps: u8)
    by (bit_vector)
    ensures
        (curr << 8u32) & 0xff == 0,
        (curr << 8u32) + key as u32 <= 0xffff_ffff,
        0xe010 <= scancode <= 0xe0ed ==> scancode & 0xFF == scancode - 0xe000,
        mask < 16 && caps <= 1 ==> mask ^ caps < 16,
        mask < 16 ==> mask | 4 < 16 && mask | 1 < 16 && mask | 8 < 16 && mask | 2 < 16,
        mask < 16 ==> mask & !4u8 < 16 && mask & !1u8 < 16 && mask & !8u8 < 16 && mask & !2u8 < 16,
{
}

} // verus!
