//! Finds the tracked fields of an attached process: scans the module images
//! for the instructions that touch them and decodes the operands of those
//! instructions into the session table.

use crate::addresses::{assembled, Addresses, Operands};
use crate::memory::{signed32, MemoryWindow};
use crate::pattern::{cells_of, Pattern};
use crate::signatures::{
    CHAOS_EMERALDS_32, CHAOS_EMERALDS_64, CHARACTER_32, CHARACTER_64, EGG_MONARCH_64,
    EGG_MONARCH_BASE_32, EGG_MONARCH_FLAG_32, EGG_REVERIE_32, EGG_REVERIE_64, LEVEL_ID_32,
    LEVEL_ID_64, REVISED_LAYOUT_32, REVISED_LAYOUT_64, SAVE_BLOCK_32, SAVE_BLOCK_64, STATUS_32,
    STATUS_64,
};
use vstd::prelude::*;

verus! {

/// The number of bytes between the start of a relative operand and the
/// instruction that follows it.
pub const OPERAND_LENGTH: u64 = 4;

/// The address `position` bytes behind the lowest occurrence of the pattern
/// `codes` in `window`. There is none where the pattern does not occur or
/// the address is no 64-bit address.
pub open spec fn anchor_of(window: &MemoryWindow, codes: Seq<u16>, position: u64) -> Option<u64> {
    match window.find(cells_of(codes)) {
        Some(a) => if a + position <= u64::MAX {
            Some((a + position) as u64)
        } else {
            None
        },
        None => None,
    }
}

/// The address that the four operand bytes at `at` stand for. In a 32-bit
/// build they hold the address itself. In a 64-bit build they hold a signed
/// displacement from the end of the operand. There is none where a byte of
/// the operand was not read or the result is no 64-bit address.
pub open spec fn pointer_of(window: &MemoryWindow, is_64_bit: bool, at: Option<u64>) -> Option<
    u64,
> {
    match at {
        Some(a) => match window.u32_at(a as int) {
            Some(v) => if is_64_bit {
                let target = a + OPERAND_LENGTH + signed32(v);
                if 0 <= target <= u64::MAX {
                    Some(target as u64)
                } else {
                    None
                }
            } else {
                Some(v as u64)
            },
            None => None,
        },
        None => None,
    }
}

/// The one-byte operand `delta` bytes behind `at`.
pub open spec fn byte_operand_of(window: &MemoryWindow, at: Option<u64>, delta: u64) -> Option<
    u32,
> {
    match at {
        Some(a) => match window.byte_at(a + delta) {
            Some(b) => Some(b as u32),
            None => None,
        },
        None => None,
    }
}

/// The four-byte operand `delta` bytes behind `at`.
pub open spec fn dword_operand_of(window: &MemoryWindow, at: Option<u64>, delta: u64) -> Option<
    u32,
> {
    match at {
        Some(a) => match window.u32_at(a + delta) {
            Some(v) => Some(v as u32),
            None => None,
        },
        None => None,
    }
}

/// Finds the pattern `codes` in `window` and returns the address `position`
/// bytes behind its lowest occurrence.
pub fn anchor(window: &MemoryWindow, codes: &[u16], position: u64) -> (at: Option<u64>)
    ensures
        at == anchor_of(window, codes@, position),
{
    let pattern = Pattern::from_codes(codes);
    match window.scan(&pattern) {
        Some(a) => a.checked_add(position),
        None => None,
    }
}

/// Decodes the four operand bytes at `at` into the address they stand for.
pub fn pointer(window: &MemoryWindow, is_64_bit: bool, at: Option<u64>) -> (target: Option<u64>)
    ensures
        target == pointer_of(window, is_64_bit, at),
{
    let a: u64 = match at {
        Some(a) => a,
        None => {
            return None;
        },
    };
    if is_64_bit {
        match window.read_i32(a) {
            Some(displacement) => {
                let target: i128 = a as i128 + OPERAND_LENGTH as i128 + displacement as i128;
                if 0 <= target && target <= u64::MAX as i128 {
                    Some(target as u64)
                } else {
                    None
                }
            },
            None => None,
        }
    } else {
        match window.read_u32(a) {
            Some(v) => Some(v as u64),
            None => None,
        }
    }
}

/// Reads the one-byte operand `delta` bytes behind `at`.
pub fn byte_operand(window: &MemoryWindow, at: Option<u64>, delta: u64) -> (value: Option<u32>)
    ensures
        value == byte_operand_of(window, at, delta),
{
    let a: u64 = match at {
        Some(a) => a,
        None => {
            return None;
        },
    };
    if a > u64::MAX - delta {
        proof {
            use_type_invariant(window);
            window.lemma_covers_addresses(a + delta);
        }
        return None;
    }
    match window.read_u8(a + delta) {
        Some(b) => Some(b as u32),
        None => None,
    }
}

/// Reads the four-byte operand `delta` bytes behind `at`.
pub fn dword_operand(window: &MemoryWindow, at: Option<u64>, delta: u64) -> (value: Option<u32>)
    ensures
        value == dword_operand_of(window, at, delta),
{
    let a: u64 = match at {
        Some(a) => a,
        None => {
            return None;
        },
    };
    if a > u64::MAX - delta {
        proof {
            use_type_invariant(window);
            window.lemma_covers_addresses(a + delta);
        }
        return None;
    }
    window.read_u32(a + delta)
}

/// The operands of a build, where every one of them was found.
pub open spec fn gathered(
    level_id_base: Option<u64>,
    level_id_offset: Option<u32>,
    status_base: Option<u64>,
    status_offset: Option<u32>,
    egg_reverie_base: Option<u64>,
    egg_reverie1_offset1: Option<u32>,
    egg_reverie1_offset2: Option<u32>,
    egg_reverie2_offset1: Option<u32>,
    egg_reverie2_offset2: Option<u32>,
    egg_monarch_base: Option<u64>,
    egg_monarch_offset: Option<u32>,
    chaos_emerald_base: Option<u64>,
    chaos_emerald_offset1: Option<u32>,
    chaos_emerald_offset2: Option<u32>,
    character_base: Option<u64>,
    character_offset: Option<u32>,
    save_block: Option<u64>,
) -> Option<Operands> {
    let complete = {
        &&& level_id_base is Some
        &&& level_id_offset is Some
        &&& status_base is Some
        &&& status_offset is Some
        &&& egg_reverie_base is Some
        &&& egg_reverie1_offset1 is Some
        &&& egg_reverie1_offset2 is Some
        &&& egg_reverie2_offset1 is Some
        &&& egg_reverie2_offset2 is Some
        &&& egg_monarch_base is Some
        &&& egg_monarch_offset is Some
        &&& chaos_emerald_base is Some
        &&& chaos_emerald_offset1 is Some
        &&& chaos_emerald_offset2 is Some
        &&& character_base is Some
        &&& character_offset is Some
        &&& save_block is Some
    };
    if complete {
        Some(
            Operands {
                level_id_base: level_id_base->0,
                level_id_offset: level_id_offset->0,
                status_base: status_base->0,
                status_offset: status_offset->0,
                egg_reverie_base: egg_reverie_base->0,
                egg_reverie1_offset1: egg_reverie1_offset1->0,
                egg_reverie1_offset2: egg_reverie1_offset2->0,
                egg_reverie2_offset1: egg_reverie2_offset1->0,
                egg_reverie2_offset2: egg_reverie2_offset2->0,
                egg_monarch_base: egg_monarch_base->0,
                egg_monarch_offset: egg_monarch_offset->0,
                chaos_emerald_base: chaos_emerald_base->0,
                chaos_emerald_offset1: chaos_emerald_offset1->0,
                chaos_emerald_offset2: chaos_emerald_offset2->0,
                character_base: character_base->0,
                character_offset: character_offset->0,
                save_block: save_block->0,
            },
        )
    } else {
        None
    }
}

/// The operands that the two module images of a 32-bit build yield: every
/// pattern is searched in `image`, but for that of the save-slot block, which
/// is searched in `main`.
pub open spec fn located_32(main: &MemoryWindow, image: &MemoryWindow) -> Option<Operands> {
    let level = anchor_of(image, LEVEL_ID_32@, 2);
    let status = anchor_of(image, STATUS_32@, 1);
    let reverie = anchor_of(image, EGG_REVERIE_32@, 2);
    let monarch = anchor_of(image, EGG_MONARCH_BASE_32@, 1);
    let monarch_flag = anchor_of(image, EGG_MONARCH_FLAG_32@, 4);
    let emeralds = anchor_of(image, CHAOS_EMERALDS_32@, 3);
    let character = anchor_of(image, CHARACTER_32@, 2);
    let save = anchor_of(main, SAVE_BLOCK_32@, 7);
    gathered(
        pointer_of(image, false, level),
        byte_operand_of(image, level, 28),
        pointer_of(image, false, status),
        byte_operand_of(image, status, 6),
        pointer_of(image, false, reverie),
        byte_operand_of(image, reverie, 6),
        byte_operand_of(image, reverie, 9),
        byte_operand_of(image, reverie, 15),
        byte_operand_of(image, reverie, 18),
        pointer_of(image, false, monarch),
        dword_operand_of(image, monarch_flag, 0),
        pointer_of(image, false, emeralds),
        byte_operand_of(image, emeralds, 6),
        byte_operand_of(image, emeralds, 9),
        pointer_of(image, false, character),
        byte_operand_of(image, character, 6),
        pointer_of(main, false, save),
    )
}

/// The operands that the two module images of a 64-bit build yield: every
/// pattern is searched in `image`, but for that of the save-slot block, which
/// is searched in `main`.
pub open spec fn located_64(main: &MemoryWindow, image: &MemoryWindow) -> Option<Operands> {
    let level = anchor_of(image, LEVEL_ID_64@, 3);
    let status = anchor_of(image, STATUS_64@, 3);
    let reverie = anchor_of(image, EGG_REVERIE_64@, 5);
    let reverie_start = anchor_of(image, EGG_REVERIE_64@, 0);
    let monarch = anchor_of(image, EGG_MONARCH_64@, 6);
    let emeralds = anchor_of(image, CHAOS_EMERALDS_64@, 5);
    let character = anchor_of(image, CHARACTER_64@, 3);
    let save = anchor_of(main, SAVE_BLOCK_64@, 3);
    gathered(
        pointer_of(image, true, level),
        byte_operand_of(image, level, 30),
        pointer_of(image, true, status),
        byte_operand_of(image, status, 6),
        pointer_of(image, true, reverie),
        byte_operand_of(image, reverie, 7),
        byte_operand_of(image, reverie, 10),
        byte_operand_of(image, reverie_start, 5),
        byte_operand_of(image, reverie_start, 8),
        pointer_of(image, true, monarch),
        dword_operand_of(image, monarch, 6),
        pointer_of(image, true, emeralds),
        byte_operand_of(image, emeralds, 7),
        byte_operand_of(image, emeralds, 10),
        pointer_of(image, true, character),
        byte_operand_of(image, character, 6),
        pointer_of(main, true, save),
    )
}

/// Scans the two module images of a 32-bit build for every tracked field and
/// decodes the operands found. A single pattern that does not occur, or a
/// single operand that cannot be read, leaves the whole result empty.
pub fn locate_32(main: &MemoryWindow, image: &MemoryWindow) -> (found: Option<Operands>)
    ensures
        found == located_32(main, image),
{
    let level = anchor(image, &LEVEL_ID_32, 2);
    let level_id_base: u64 = pointer(image, false, level)?;
    let level_id_offset: u32 = byte_operand(image, level, 28)?;
    let status = anchor(image, &STATUS_32, 1);
    let status_base: u64 = pointer(image, false, status)?;
    let status_offset: u32 = byte_operand(image, status, 6)?;
    let reverie = anchor(image, &EGG_REVERIE_32, 2);
    let egg_reverie_base: u64 = pointer(image, false, reverie)?;
    let egg_reverie1_offset1: u32 = byte_operand(image, reverie, 6)?;
    let egg_reverie1_offset2: u32 = byte_operand(image, reverie, 9)?;
    let egg_reverie2_offset1: u32 = byte_operand(image, reverie, 15)?;
    let egg_reverie2_offset2: u32 = byte_operand(image, reverie, 18)?;
    let monarch = anchor(image, &EGG_MONARCH_BASE_32, 1);
    let egg_monarch_base: u64 = pointer(image, false, monarch)?;
    let monarch_flag = anchor(image, &EGG_MONARCH_FLAG_32, 4);
    let egg_monarch_offset: u32 = dword_operand(image, monarch_flag, 0)?;
    let emeralds = anchor(image, &CHAOS_EMERALDS_32, 3);
    let chaos_emerald_base: u64 = pointer(image, false, emeralds)?;
    let chaos_emerald_offset1: u32 = byte_operand(image, emeralds, 6)?;
    let chaos_emerald_offset2: u32 = byte_operand(image, emeralds, 9)?;
    let character = anchor(image, &CHARACTER_32, 2);
    let character_base: u64 = pointer(image, false, character)?;
    let character_offset: u32 = byte_operand(image, character, 6)?;
    let save = anchor(main, &SAVE_BLOCK_32, 7);
    let save_block: u64 = pointer(main, false, save)?;
    Some(
        Operands {
            level_id_base,
            level_id_offset,
            status_base,
            status_offset,
            egg_reverie_base,
            egg_reverie1_offset1,
            egg_reverie1_offset2,
            egg_reverie2_offset1,
            egg_reverie2_offset2,
            egg_monarch_base,
            egg_monarch_offset,
            chaos_emerald_base,
            chaos_emerald_offset1,
            chaos_emerald_offset2,
            character_base,
            character_offset,
            save_block,
        },
    )
}

/// Scans the two module images of a 64-bit build for every tracked field and
/// decodes the operands found. A single pattern that does not occur, or a
/// single operand that cannot be read, leaves the whole result empty.
pub fn locate_64(main: &MemoryWindow, image: &MemoryWindow) -> (found: Option<Operands>)
    ensures
        found == located_64(main, image),
{
    let level = anchor(image, &LEVEL_ID_64, 3);
    let level_id_base: u64 = pointer(image, true, level)?;
    let level_id_offset: u32 = byte_operand(image, level, 30)?;
    let status = anchor(image, &STATUS_64, 3);
    let status_base: u64 = pointer(image, true, status)?;
    let status_offset: u32 = byte_operand(image, status, 6)?;
    let reverie = anchor(image, &EGG_REVERIE_64, 5);
    let egg_reverie_base: u64 = pointer(image, true, reverie)?;
    let egg_reverie1_offset1: u32 = byte_operand(image, reverie, 7)?;
    let egg_reverie1_offset2: u32 = byte_operand(image, reverie, 10)?;
    let reverie_start = anchor(image, &EGG_REVERIE_64, 0);
    let egg_reverie2_offset1: u32 = byte_operand(image, reverie_start, 5)?;
    let egg_reverie2_offset2: u32 = byte_operand(image, reverie_start, 8)?;
    let monarch = anchor(image, &EGG_MONARCH_64, 6);
    let egg_monarch_base: u64 = pointer(image, true, monarch)?;
    let egg_monarch_offset: u32 = dword_operand(image, monarch, 6)?;
    let emeralds = anchor(image, &CHAOS_EMERALDS_64, 5);
    let chaos_emerald_base: u64 = pointer(image, true, emeralds)?;
    let chaos_emerald_offset1: u32 = byte_operand(image, emeralds, 7)?;
    let chaos_emerald_offset2: u32 = byte_operand(image, emeralds, 10)?;
    let character = anchor(image, &CHARACTER_64, 3);
    let character_base: u64 = pointer(image, true, character)?;
    let character_offset: u32 = byte_operand(image, character, 6)?;
    let save = anchor(main, &SAVE_BLOCK_64, 3);
    let save_block: u64 = pointer(main, true, save)?;
    Some(
        Operands {
            level_id_base,
            level_id_offset,
            status_base,
            status_offset,
            egg_reverie_base,
            egg_reverie1_offset1,
            egg_reverie1_offset2,
            egg_reverie2_offset1,
            egg_reverie2_offset2,
            egg_monarch_base,
            egg_monarch_offset,
            chaos_emerald_base,
            chaos_emerald_offset1,
            chaos_emerald_offset2,
            character_base,
            character_offset,
            save_block,
        },
    )
}

/// Whether the engine of a build has the revised layout: the pattern that
/// only such builds hold occurs in the main module.
pub open spec fn revised_layout(main: &MemoryWindow, is_64_bit: bool) -> bool {
    if is_64_bit {
        main.find(cells_of(REVISED_LAYOUT_64@)) is Some
    } else {
        main.find(cells_of(REVISED_LAYOUT_32@)) is Some
    }
}

/// The session table of a process whose main module is `main` and whose game
/// code lies in `image`.
pub open spec fn resolved(main: &MemoryWindow, image: &MemoryWindow, is_64_bit: bool) -> Option<
    Addresses,
> {
    let found = if is_64_bit {
        located_64(main, image)
    } else {
        located_32(main, image)
    };
    match found {
        Some(operands) => assembled(is_64_bit, revised_layout(main, is_64_bit), operands),
        None => None,
    }
}

/// Tells whether the engine of the build has the revised layout.
pub fn detect_layout(main: &MemoryWindow, is_64_bit: bool) -> (revised: bool)
    ensures
        revised == revised_layout(main, is_64_bit),
{
    let pattern = if is_64_bit {
        Pattern::from_codes(&REVISED_LAYOUT_64)
    } else {
        Pattern::from_codes(&REVISED_LAYOUT_32)
    };
    main.scan(&pattern).is_some()
}

/// Builds the session table of an attached process of the given width from
/// the image of its main module and, where the game code lives in a module
/// of its own, the image of that module. The result is all or nothing: where
/// any field cannot be found there is no table.
pub fn resolve(main: &MemoryWindow, game: Option<&MemoryWindow>, is_64_bit: bool) -> (table: Option<
    Addresses,
>)
    ensures
        table == resolved(
            main,
            match game {
                Some(image) => image,
                None => main,
            },
            is_64_bit,
        ),
{
    let image: &MemoryWindow = match game {
        Some(image) => image,
        None => main,
    };
    let found = if is_64_bit {
        locate_64(main, image)
    } else {
        locate_32(main, image)
    };
    match found {
        Some(operands) => {
            let revised = detect_layout(main, is_64_bit);
            Addresses::assemble(is_64_bit, revised, operands)
        },
        None => None,
    }
}

} // verus!
