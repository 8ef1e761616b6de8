//! The byte patterns that mark, in each build of the game, the instructions
//! whose operands lead to the tracked fields. Each row is written with one
//! code per byte, `ANY` standing for a byte that differs between builds.

use crate::pattern::ANY;
use vstd::prelude::*;

verus! {

/// 32-bit builds: present only in the revised engine layout.
pub const REVISED_LAYOUT_32: [u16; 24] = [
    0x3D, ANY, ANY, ANY, ANY, 0x0F, 0x87, ANY, ANY, ANY, ANY, 0xFF,
    0x24, 0x85, ANY, ANY, ANY, ANY, 0xA1, ANY, ANY, ANY, ANY, 0x89,
];

/// 32-bit builds: the load of the scene id.
pub const LEVEL_ID_32: [u16; 14] = [
    0x8B, ANY, ANY, ANY, ANY, ANY, 0x85, 0xC9, 0x74, 0x1E, 0x80, ANY, ANY, 0x03,
];

/// 32-bit builds: the load of the scene status and its timer.
pub const STATUS_32: [u16; 16] = [
    0xA1, ANY, ANY, ANY, ANY, 0x80, 0x78, ANY, 0x01, 0x0F, 0x85, ANY, ANY, ANY, ANY, 0xFF,
];

/// 32-bit builds: the health of the two bosses of the final zone.
pub const EGG_REVERIE_32: [u16; 13] = [
    0x8B, ANY, ANY, ANY, ANY, ANY, 0x8B, ANY, 0x40, 0x83, ANY, ANY, 0x00,
];

/// 32-bit builds: the object that holds the defeat flag of the last regular
/// boss.
pub const EGG_MONARCH_BASE_32: [u16; 8] = [0xA1, ANY, ANY, ANY, ANY, 0x83, 0xC0, 0x78];

/// 32-bit builds: the store that sets the defeat flag of the last regular
/// boss.
pub const EGG_MONARCH_FLAG_32: [u16; 24] = [
    0x6A, 0x00, 0xC7, 0x80, ANY, ANY, ANY, ANY, 0x01, 0x00, 0x00, 0x00,
    0xA1, ANY, ANY, ANY, ANY, 0xC7, ANY, ANY, 0x00, 0x00, 0x00, 0x00,
];

/// 32-bit builds: the test of the emerald bitmask.
pub const CHAOS_EMERALDS_32: [u16; 14] = [
    0x7D, ANY, 0xA1, ANY, ANY, ANY, ANY, 0x8B, ANY, ANY, 0x83, ANY, ANY, 0x7F,
];

/// 32-bit builds: the load of the active characters.
pub const CHARACTER_32: [u16; 10] = [
    0x8B, 0x15, ANY, ANY, ANY, ANY, 0x8B, 0x4A, 0x04, 0xC1,
];

/// 32-bit builds: the address arithmetic on the block of save slots.
pub const SAVE_BLOCK_32: [u16; 14] = [
    0x69, 0xC0, ANY, ANY, ANY, ANY, 0x05, ANY, ANY, ANY, ANY, 0x5D, 0xC3, 0xCC,
];

/// 64-bit builds: present only in the revised engine layout.
pub const REVISED_LAYOUT_64: [u16; 15] = [
    0x81, 0xF9, ANY, ANY, ANY, ANY, 0x0F, 0x87, ANY, ANY, ANY, ANY, 0x41, 0x8B, 0x8C,
];

/// 64-bit builds: the load of the scene id.
pub const LEVEL_ID_64: [u16; 14] = [
    0x48, 0x8B, ANY, ANY, ANY, ANY, ANY, 0x48, 0x85, 0xC9, 0x74, 0x2A, 0x80, 0x7A,
];

/// 64-bit builds: the load of the scene status and its timer.
pub const STATUS_64: [u16; 18] = [
    0x48, 0x8B, ANY, ANY, ANY, ANY, ANY, 0x80, 0x78,
    ANY, 0x01, 0x0F, 0x85, ANY, ANY, ANY, ANY, 0xFF,
];

/// 64-bit builds: the health of the two bosses of the final zone.
pub const EGG_REVERIE_64: [u16; 14] = [
    0x75, ANY, 0x48, 0x8B, 0x0D, ANY, ANY, ANY, ANY, 0x48, 0x8B, 0x41, ANY, 0x83,
];

/// 64-bit builds: the store that sets the defeat flag of the last regular
/// boss.
pub const EGG_MONARCH_64: [u16; 20] = [
    0x89, 0x73, ANY, 0x48, 0x8B, ANY, ANY, ANY, ANY, ANY,
    0xC7, ANY, ANY, ANY, ANY, ANY, 0x01, 0x00, 0x00, 0x00,
];

/// 64-bit builds: the test of the emerald bitmask.
pub const CHAOS_EMERALDS_64: [u16; 18] = [
    0x7D, ANY, 0x48, 0x8B, ANY, ANY, ANY, ANY, ANY,
    0x48, ANY, ANY, ANY, 0x83, ANY, ANY, 0x7F, 0x7C,
];

/// 64-bit builds: the load of the active characters.
pub const CHARACTER_64: [u16; 13] = [
    0x48, 0x8B, ANY, ANY, ANY, ANY, ANY, 0x8B, 0x4A, ANY, 0xC1, 0xF9, 0x08,
];

/// 64-bit builds: the address arithmetic on the block of save slots.
pub const SAVE_BLOCK_64: [u16; 18] = [
    0x4C, 0x8D, ANY, ANY, ANY, ANY, ANY, 0x8B, 0xD0,
    0x4C, 0x8D, ANY, ANY, ANY, ANY, ANY, 0x0F, 0x1F,
];

} // verus!
