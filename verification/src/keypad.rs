//! Keypad interface: the hex key enumeration and press-state queries.
//!
//! The numbering is deliberate: `Unknown` stands for key 0 and for
//! every out-of-range byte, it is not addressable in the latch array,
//! and looking it up reads as "not pressed".

use vstd::prelude::*;

verus! {

/// One of the fifteen addressable hex keys, or the `Unknown` sentinel.
#[derive(Clone, Copy, Debug, PartialEq, Eq, Structural)]
pub enum Key {
    K1,
    K2,
    K3,
    K4,
    K5,
    K6,
    K7,
    K8,
    K9,
    KA,
    KB,
    KC,
    KD,
    KE,
    KF,
    Unknown,
}

/// The key a byte names: 0x1 through 0xF map to the matching key,
/// everything else to `Unknown`.
pub open spec fn spec_key_from_u8(k: u8) -> Key {
    if k == 0x1 {
        Key::K1
    } else if k == 0x2 {
        Key::K2
    } else if k == 0x3 {
        Key::K3
    } else if k == 0x4 {
        Key::K4
    } else if k == 0x5 {
        Key::K5
    } else if k == 0x6 {
        Key::K6
    } else if k == 0x7 {
        Key::K7
    } else if k == 0x8 {
        Key::K8
    } else if k == 0x9 {
        Key::K9
    } else if k == 0xA {
        Key::KA
    } else if k == 0xB {
        Key::KB
    } else if k == 0xC {
        Key::KC
    } else if k == 0xD {
        Key::KD
    } else if k == 0xE {
        Key::KE
    } else if k == 0xF {
        Key::KF
    } else {
        Key::Unknown
    }
}

/// The byte a key stands for; `Unknown` maps to 0x0.
pub open spec fn spec_key_to_u8(k: Key) -> u8 {
    match k {
        Key::K1 => 0x1,
        Key::K2 => 0x2,
        Key::K3 => 0x3,
        Key::K4 => 0x4,
        Key::K5 => 0x5,
        Key::K6 => 0x6,
        Key::K7 => 0x7,
        Key::K8 => 0x8,
        Key::K9 => 0x9,
        Key::KA => 0xA,
        Key::KB => 0xB,
        Key::KC => 0xC,
        Key::KD => 0xD,
        Key::KE => 0xE,
        Key::KF => 0xF,
        Key::Unknown => 0x0,
    }
}

/// The dense latch index of a key, in [0, 14] for the fifteen real
/// keys; `Unknown` has none.
pub open spec fn spec_key_to_index(k: Key) -> Option<usize> {
    match k {
        Key::K1 => Option::Some(0usize),
        Key::K2 => Option::Some(1usize),
        Key::K3 => Option::Some(2usize),
        Key::K4 => Option::Some(3usize),
        Key::K5 => Option::Some(4usize),
        Key::K6 => Option::Some(5usize),
        Key::K7 => Option::Some(6usize),
        Key::K8 => Option::Some(7usize),
        Key::K9 => Option::Some(8usize),
        Key::KA => Option::Some(9usize),
        Key::KB => Option::Some(10usize),
        Key::KC => Option::Some(11usize),
        Key::KD => Option::Some(12usize),
        Key::KE => Option::Some(13usize),
        Key::KF => Option::Some(14usize),
        Key::Unknown => Option::None,
    }
}

/// Whether a key reads as pressed in a latch sequence: a real key reads
/// its latch slot, `Unknown` reads as up.
pub open spec fn spec_key_pressed(keys: Seq<bool>, k: Key) -> bool {
    match spec_key_to_index(k) {
        Option::Some(i) => keys[i as int],
        Option::None => false,
    }
}

/// The first pressed key, scanning K1 through KF in order, if any.
pub open spec fn spec_any_key(keys: Seq<bool>) -> Option<Key> {
    if keys[0] {
        Option::Some(Key::K1)
    } else if keys[1] {
        Option::Some(Key::K2)
    } else if keys[2] {
        Option::Some(Key::K3)
    } else if keys[3] {
        Option::Some(Key::K4)
    } else if keys[4] {
        Option::Some(Key::K5)
    } else if keys[5] {
        Option::Some(Key::K6)
    } else if keys[6] {
        Option::Some(Key::K7)
    } else if keys[7] {
        Option::Some(Key::K8)
    } else if keys[8] {
        Option::Some(Key::K9)
    } else if keys[9] {
        Option::Some(Key::KA)
    } else if keys[10] {
        Option::Some(Key::KB)
    } else if keys[11] {
        Option::Some(Key::KC)
    } else if keys[12] {
        Option::Some(Key::KD)
    } else if keys[13] {
        Option::Some(Key::KE)
    } else if keys[14] {
        Option::Some(Key::KF)
    } else {
        Option::None
    }
}

/// Encapsulation of keypad interactions, as the engine offers them.
/// The behaviour of each operation is specified on the implementing
/// type's own methods.
pub trait Keypad {
    /// The byte a key stands for.
    fn key_to_u8(&self, k: &Key) -> u8;

    /// The dense latch index of a key, if it has one.
    fn key_to_index(&self, k: &Key) -> Option<usize>;

    /// The key a byte names.
    fn key_from_u8(&self, k: &u8) -> Key;

    /// Whether a key is latched as pressed.
    fn key_pressed(&self, key: &Key) -> bool;

    /// The first pressed key, if any.
    fn any_key_pressed(&self) -> Option<Key>;
}

} // verus!
