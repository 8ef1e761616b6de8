//! The table of addresses that one attached session works with, and the
//! arithmetic that places the save-slot fields inside their block.

use vstd::prelude::*;

verus! {

/// What the scan of a build's code yields: for each tracked object the
/// address of the pointer that leads to it and the offsets of its fields,
/// and the address of the block of save slots.
#[derive(Clone, Copy, PartialEq, Eq, Structural, Debug)]
pub struct Operands {
    pub level_id_base: u64,
    pub level_id_offset: u32,
    pub status_base: u64,
    pub status_offset: u32,
    pub egg_reverie_base: u64,
    pub egg_reverie1_offset1: u32,
    pub egg_reverie1_offset2: u32,
    pub egg_reverie2_offset1: u32,
    pub egg_reverie2_offset2: u32,
    pub egg_monarch_base: u64,
    pub egg_monarch_offset: u32,
    pub chaos_emerald_base: u64,
    pub chaos_emerald_offset1: u32,
    pub chaos_emerald_offset2: u32,
    pub character_base: u64,
    pub character_offset: u32,
    pub save_block: u64,
}

/// Where the fields of the save-slot block lie, counted from the block's
/// address. Slot `k` of the regular saves lies `k` strides behind
/// `first_save`, slot `k` of the encore saves `k` strides behind
/// `encore_saves`.
#[derive(Clone, Copy, PartialEq, Eq, Structural, Debug)]
pub struct BlockLayout {
    pub start_trigger: u64,
    pub mania_mode_selection: u64,
    pub save_selection_mania: u64,
    pub first_save: u64,
    pub save_selection_encore: u64,
    pub encore_saves: u64,
    pub stride: u64,
}

/// The layout of the save-slot block in each of the four kinds of build.
pub open spec fn block_layout_of(is_64_bit: bool, alternate_layout: bool) -> BlockLayout {
    if is_64_bit {
        if alternate_layout {
            BlockLayout {
                start_trigger: (0xD977A + 0x1A10) as u64,
                mania_mode_selection: (0xDA81E + 0x1A30) as u64,
                save_selection_mania: (0xDA836 + 0x1A30) as u64,
                first_save: (0x26A9A + 0x4A0) as u64,
                save_selection_encore: (0xEAADE + 0x1C20) as u64,
                encore_saves: (0xD55AA + 0x1990) as u64,
                stride: 0x868,
            }
        } else {
            BlockLayout {
                start_trigger: 0xD977A,
                mania_mode_selection: 0xDA81E,
                save_selection_mania: 0xDA836,
                first_save: 0x26A9A,
                save_selection_encore: 0xEAADE,
                encore_saves: 0xD55AA,
                stride: 0x858,
            }
        }
    } else {
        if alternate_layout {
            BlockLayout {
                start_trigger: (0x71808 + 0xD14) as u64,
                mania_mode_selection: (0x720AC + 0xD24) as u64,
                save_selection_mania: (0x720C0 + 0xD24) as u64,
                first_save: (0x146DC + 0x25C) as u64,
                save_selection_encore: (0x7A768 + 0xE1C) as u64,
                encore_saves: (0x6F5F4 + 0xCD4) as u64,
                stride: 0x460,
            }
        } else {
            BlockLayout {
                start_trigger: 0x71808,
                mania_mode_selection: 0x720AC,
                save_selection_mania: 0x720C0,
                first_save: 0x146DC,
                save_selection_encore: 0x7A768,
                encore_saves: 0x6F5F4,
                stride: 0x458,
            }
        }
    }
}

/// The layout of the save-slot block in the given kind of build.
pub fn block_layout(is_64_bit: bool, alternate_layout: bool) -> (layout: BlockLayout)
    ensures
        layout == block_layout_of(is_64_bit, alternate_layout),
{
    if is_64_bit {
        if alternate_layout {
            BlockLayout {
                start_trigger: 0xD977A + 0x1A10,
                mania_mode_selection: 0xDA81E + 0x1A30,
                save_selection_mania: 0xDA836 + 0x1A30,
                first_save: 0x26A9A + 0x4A0,
                save_selection_encore: 0xEAADE + 0x1C20,
                encore_saves: 0xD55AA + 0x1990,
                stride: 0x868,
            }
        } else {
            BlockLayout {
                start_trigger: 0xD977A,
                mania_mode_selection: 0xDA81E,
                save_selection_mania: 0xDA836,
                first_save: 0x26A9A,
                save_selection_encore: 0xEAADE,
                encore_saves: 0xD55AA,
                stride: 0x858,
            }
        }
    } else {
        if alternate_layout {
            BlockLayout {
                start_trigger: 0x71808 + 0xD14,
                mania_mode_selection: 0x720AC + 0xD24,
                save_selection_mania: 0x720C0 + 0xD24,
                first_save: 0x146DC + 0x25C,
                save_selection_encore: 0x7A768 + 0xE1C,
                encore_saves: 0x6F5F4 + 0xCD4,
                stride: 0x460,
            }
        } else {
            BlockLayout {
                start_trigger: 0x71808,
                mania_mode_selection: 0x720AC,
                save_selection_mania: 0x720C0,
                first_save: 0x146DC,
                save_selection_encore: 0x7A768,
                encore_saves: 0x6F5F4,
                stride: 0x458,
            }
        }
    }
}

/// The span of a block layout: the distance from the block's address to the
/// furthest field that is read.
pub open spec fn block_span(layout: BlockLayout) -> int {
    let saves = layout.first_save + 7 * layout.stride;
    let encore = layout.encore_saves + 3 * layout.stride;
    let a = if layout.start_trigger >= layout.mania_mode_selection {
        layout.start_trigger as int
    } else {
        layout.mania_mode_selection as int
    };
    let b = if layout.save_selection_mania >= layout.save_selection_encore {
        layout.save_selection_mania as int
    } else {
        layout.save_selection_encore as int
    };
    let c = if saves >= encore {
        saves
    } else {
        encore
    };
    let ab = if a >= b {
        a
    } else {
        b
    };
    if ab >= c {
        ab
    } else {
        c
    }
}

/// The session table: the width of the process, the layout revision of its
/// engine, and for every tracked field the address it is reached from.
#[derive(Clone, Copy, PartialEq, Eq, Structural, Debug)]
pub struct Addresses {
    pub is_64_bit: bool,
    pub alternate_layout: bool,
    pub level_id_base: u64,
    pub level_id_offset: u32,
    pub status_base: u64,
    pub status_offset: u32,
    pub egg_reverie_base: u64,
    pub egg_reverie1_offset1: u32,
    pub egg_reverie1_offset2: u32,
    pub egg_reverie2_offset1: u32,
    pub egg_reverie2_offset2: u32,
    pub egg_monarch_base: u64,
    pub egg_monarch_offset: u32,
    pub chaos_emerald_base: u64,
    pub chaos_emerald_offset1: u32,
    pub chaos_emerald_offset2: u32,
    pub character_base: u64,
    pub character_offset: u32,
    pub start_trigger: u64,
    pub mania_mode_selection: u64,
    pub save_selection_mania: u64,
    pub save_0: u64,
    pub save_1: u64,
    pub save_2: u64,
    pub save_3: u64,
    pub save_4: u64,
    pub save_5: u64,
    pub save_6: u64,
    pub save_7: u64,
    pub save_selection_encore: u64,
    pub encore_save_1: u64,
    pub encore_save_2: u64,
    pub encore_save_3: u64,
}

/// The table that the operands of a build give: the pointers and offsets as
/// found, and every field of the save-slot block at its place in the block.
/// There is none where a field of the block would lie beyond the last
/// 64-bit address.
pub open spec fn assembled(is_64_bit: bool, alternate_layout: bool, found: Operands) -> Option<
    Addresses,
> {
    let layout = block_layout_of(is_64_bit, alternate_layout);
    let block = found.save_block;
    if block + block_span(layout) <= u64::MAX {
        Some(
            Addresses {
                is_64_bit,
                alternate_layout,
                level_id_base: found.level_id_base,
                level_id_offset: found.level_id_offset,
                status_base: found.status_base,
                status_offset: found.status_offset,
                egg_reverie_base: found.egg_reverie_base,
                egg_reverie1_offset1: found.egg_reverie1_offset1,
                egg_reverie1_offset2: found.egg_reverie1_offset2,
                egg_reverie2_offset1: found.egg_reverie2_offset1,
                egg_reverie2_offset2: found.egg_reverie2_offset2,
                egg_monarch_base: found.egg_monarch_base,
                egg_monarch_offset: found.egg_monarch_offset,
                chaos_emerald_base: found.chaos_emerald_base,
                chaos_emerald_offset1: found.chaos_emerald_offset1,
                chaos_emerald_offset2: found.chaos_emerald_offset2,
                character_base: found.character_base,
                character_offset: found.character_offset,
                start_trigger: (block + layout.start_trigger) as u64,
                mania_mode_selection: (block + layout.mania_mode_selection) as u64,
                save_selection_mania: (block + layout.save_selection_mania) as u64,
                save_0: (block + layout.first_save) as u64,
                save_1: (block + layout.first_save + layout.stride) as u64,
                save_2: (block + layout.first_save + 2 * layout.stride) as u64,
                save_3: (block + layout.first_save + 3 * layout.stride) as u64,
                save_4: (block + layout.first_save + 4 * layout.stride) as u64,
                save_5: (block + layout.first_save + 5 * layout.stride) as u64,
                save_6: (block + layout.first_save + 6 * layout.stride) as u64,
                save_7: (block + layout.first_save + 7 * layout.stride) as u64,
                save_selection_encore: (block + layout.save_selection_encore) as u64,
                encore_save_1: (block + layout.encore_saves + layout.stride) as u64,
                encore_save_2: (block + layout.encore_saves + 2 * layout.stride) as u64,
                encore_save_3: (block + layout.encore_saves + 3 * layout.stride) as u64,
            },
        )
    } else {
        None
    }
}

impl Addresses {
    /// Builds the session table from the operands found in a build of the
    /// given width and layout revision.
    pub fn assemble(is_64_bit: bool, alternate_layout: bool, found: Operands) -> (table: Option<
        Addresses,
    >)
        ensures
            table == assembled(is_64_bit, alternate_layout, found),
    {
        let layout = block_layout(is_64_bit, alternate_layout);
        let block: u64 = found.save_block;
        // The selection field of the encore saves lies furthest in every layout.
        assert(block_span(layout) == layout.save_selection_encore);
        if block > u64::MAX - layout.save_selection_encore {
            return None;
        }
        Some(
            Addresses {
                is_64_bit,
                alternate_layout,
                level_id_base: found.level_id_base,
                level_id_offset: found.level_id_offset,
                status_base: found.status_base,
                status_offset: found.status_offset,
                egg_reverie_base: found.egg_reverie_base,
                egg_reverie1_offset1: found.egg_reverie1_offset1,
                egg_reverie1_offset2: found.egg_reverie1_offset2,
                egg_reverie2_offset1: found.egg_reverie2_offset1,
                egg_reverie2_offset2: found.egg_reverie2_offset2,
                egg_monarch_base: found.egg_monarch_base,
                egg_monarch_offset: found.egg_monarch_offset,
                chaos_emerald_base: found.chaos_emerald_base,
                chaos_emerald_offset1: found.chaos_emerald_offset1,
                chaos_emerald_offset2: found.chaos_emerald_offset2,
                character_base: found.character_base,
                character_offset: found.character_offset,
                start_trigger: block + layout.start_trigger,
                mania_mode_selection: block + layout.mania_mode_selection,
                save_selection_mania: block + layout.save_selection_mania,
                save_0: block + layout.first_save,
                save_1: block + layout.first_save + layout.stride,
                save_2: block + layout.first_save + 2 * layout.stride,
                save_3: block + layout.first_save + 3 * layout.stride,
                save_4: block + layout.first_save + 4 * layout.stride,
                save_5: block + layout.first_save + 5 * layout.stride,
                save_6: block + layout.first_save + 6 * layout.stride,
                save_7: block + layout.first_save + 7 * layout.stride,
                save_selection_encore: block + layout.save_selection_encore,
                encore_save_1: block + layout.encore_saves + layout.stride,
                encore_save_2: block + layout.encore_saves + 2 * layout.stride,
                encore_save_3: block + layout.encore_saves + 3 * layout.stride,
            },
        )
    }
}

} // verus!
