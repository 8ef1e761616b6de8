use mania_autosplit::addresses::{block_layout, Addresses, Operands};
use mania_autosplit::memory::MemoryWindow;
use mania_autosplit::pattern::ANY;
use mania_autosplit::resolver::{
    anchor, byte_operand, detect_layout, dword_operand, locate_32, locate_64, pointer, resolve,
};
use mania_autosplit::signatures::{
    CHAOS_EMERALDS_32, CHAOS_EMERALDS_64, CHARACTER_32, CHARACTER_64, EGG_MONARCH_64,
    EGG_MONARCH_BASE_32, EGG_MONARCH_FLAG_32, EGG_REVERIE_32, EGG_REVERIE_64, LEVEL_ID_32,
    LEVEL_ID_64, REVISED_LAYOUT_32, REVISED_LAYOUT_64, SAVE_BLOCK_32, SAVE_BLOCK_64, STATUS_32,
    STATUS_64,
};

const FILL: u8 = 0x90;

struct Image {
    base: u64,
    bytes: Vec<u8>,
}

impl Image {
    fn new(base: u64, size: usize) -> Image {
        Image { base, bytes: vec![FILL; size] }
    }

    fn place(&mut self, at: usize, codes: &[u16]) {
        for (i, code) in codes.iter().enumerate() {
            self.bytes[at + i] = if *code == ANY { 0x11 } else { *code as u8 };
        }
    }

    fn put(&mut self, at: usize, bytes: &[u8]) {
        self.bytes[at..at + bytes.len()].copy_from_slice(bytes);
    }

    fn window(&self) -> MemoryWindow {
        MemoryWindow::new(self.base, self.bytes.iter().map(|b| Some(*b)).collect()).unwrap()
    }

    fn window_without(&self, at: usize) -> MemoryWindow {
        let mut cells: Vec<Option<u8>> = self.bytes.iter().map(|b| Some(*b)).collect();
        cells[at] = None;
        MemoryWindow::new(self.base, cells).unwrap()
    }
}

const LEVEL: usize = 0x40;
const STATUS: usize = 0x80;
const REVERIE: usize = 0xC0;
const MONARCH: usize = 0x100;
const MONARCH_FLAG: usize = 0x140;
const EMERALDS: usize = 0x180;
const CHARACTER: usize = 0x1C0;
const SAVE: usize = 0x200;
const REVISED: usize = 0x240;

fn game_32(base: u64) -> Image {
    let mut image = Image::new(base, 0x300);
    image.place(LEVEL, &LEVEL_ID_32);
    image.put(LEVEL + 2, &0x00A1_B2C4u32.to_le_bytes());
    image.put(LEVEL + 30, &[0x55]);
    image.place(STATUS, &STATUS_32);
    image.put(STATUS + 1, &0x00B1_0000u32.to_le_bytes());
    image.put(STATUS + 7, &[0x20]);
    image.place(REVERIE, &EGG_REVERIE_32);
    image.put(REVERIE + 2, &0x00C1_0004u32.to_le_bytes());
    image.put(REVERIE + 11, &[0x6C]);
    image.put(REVERIE + 17, &[0x44]);
    image.put(REVERIE + 20, &[0x70]);
    image.place(MONARCH, &EGG_MONARCH_BASE_32);
    image.put(MONARCH + 1, &0x00D1_0008u32.to_le_bytes());
    image.place(MONARCH_FLAG, &EGG_MONARCH_FLAG_32);
    image.put(MONARCH_FLAG + 4, &0x0001_0234u32.to_le_bytes());
    image.place(EMERALDS, &CHAOS_EMERALDS_32);
    image.put(EMERALDS + 3, &0xFFE1_000Cu32.to_le_bytes());
    image.put(EMERALDS + 9, &[0x10]);
    image.put(EMERALDS + 12, &[0x28]);
    image.place(CHARACTER, &CHARACTER_32);
    image.put(CHARACTER + 2, &0x00F1_0010u32.to_le_bytes());
    image
}

fn main_32(base: u64, revised: bool) -> Image {
    let mut image = Image::new(base, 0x300);
    image.place(SAVE, &SAVE_BLOCK_32);
    image.put(SAVE + 7, &0x0080_0000u32.to_le_bytes());
    if revised {
        image.place(REVISED, &REVISED_LAYOUT_32);
    }
    image
}

fn expected_operands_32() -> Operands {
    Operands {
        level_id_base: 0x00A1_B2C4,
        level_id_offset: 0x55,
        status_base: 0x00B1_0000,
        status_offset: 0x20,
        egg_reverie_base: 0x00C1_0004,
        egg_reverie1_offset1: 0x40,
        egg_reverie1_offset2: 0x6C,
        egg_reverie2_offset1: 0x44,
        egg_reverie2_offset2: 0x70,
        egg_monarch_base: 0x00D1_0008,
        egg_monarch_offset: 0x0001_0234,
        chaos_emerald_base: 0xFFE1_000C,
        chaos_emerald_offset1: 0x10,
        chaos_emerald_offset2: 0x28,
        character_base: 0x00F1_0010,
        character_offset: 0x04,
        save_block: 0x0080_0000,
    }
}

fn rel(image_base: u64, at: usize, target: u64) -> [u8; 4] {
    let next = image_base as i64 + at as i64 + 4;
    ((target as i64 - next) as i32).to_le_bytes()
}

fn game_64(base: u64) -> Image {
    let mut image = Image::new(base, 0x300);
    image.place(LEVEL, &LEVEL_ID_64);
    image.put(LEVEL + 3, &rel(base, LEVEL + 3, base + 0x10_0000));
    image.put(LEVEL + 33, &[0x55]);
    image.place(STATUS, &STATUS_64);
    image.put(STATUS + 3, &rel(base, STATUS + 3, base + 0x20_0008));
    image.put(STATUS + 9, &[0x20]);
    image.place(REVERIE, &EGG_REVERIE_64);
    image.put(REVERIE + 5, &rel(base, REVERIE + 5, base - 0x1000));
    image.put(REVERIE + 12, &[0x48]);
    image.put(REVERIE + 15, &[0x6C]);
    image.place(MONARCH, &EGG_MONARCH_64);
    image.put(MONARCH + 6, &rel(base, MONARCH + 6, base + 0x30_0010));
    image.put(MONARCH + 12, &0x0002_0468u32.to_le_bytes());
    image.place(EMERALDS, &CHAOS_EMERALDS_64);
    image.put(EMERALDS + 5, &rel(base, EMERALDS + 5, base + 0x40_0018));
    image.put(EMERALDS + 12, &[0x10]);
    image.put(EMERALDS + 15, &[0x28]);
    image.place(CHARACTER, &CHARACTER_64);
    image.put(CHARACTER + 3, &rel(base, CHARACTER + 3, base + 0x50_0020));
    image.put(CHARACTER + 9, &[0x04]);
    image
}

fn main_64(base: u64, revised: bool) -> Image {
    let mut image = Image::new(base, 0x300);
    image.place(SAVE, &SAVE_BLOCK_64);
    image.put(SAVE + 3, &rel(base, SAVE + 3, base + 0x60_0000));
    if revised {
        image.place(REVISED, &REVISED_LAYOUT_64);
    }
    image
}

fn expected_operands_64(game: u64, main: u64) -> Operands {
    let reverie_displacement = rel(game, REVERIE + 5, game - 0x1000);
    Operands {
        level_id_base: game + 0x10_0000,
        level_id_offset: 0x55,
        status_base: game + 0x20_0008,
        status_offset: 0x20,
        egg_reverie_base: game - 0x1000,
        egg_reverie1_offset1: 0x48,
        egg_reverie1_offset2: 0x6C,
        egg_reverie2_offset1: reverie_displacement[0] as u32,
        egg_reverie2_offset2: reverie_displacement[3] as u32,
        egg_monarch_base: game + 0x30_0010,
        egg_monarch_offset: 0x0002_0468,
        chaos_emerald_base: game + 0x40_0018,
        chaos_emerald_offset1: 0x10,
        chaos_emerald_offset2: 0x28,
        character_base: game + 0x50_0020,
        character_offset: 0x04,
        save_block: main + 0x60_0000,
    }
}

fn expected_table(is_64_bit: bool, revised: bool, found: Operands) -> Addresses {
    let block = found.save_block;
    let (trigger, mode, selection, saves, encore_selection, encore_saves, stride) =
        match (is_64_bit, revised) {
            (false, false) => (0x71808, 0x720AC, 0x720C0, 0x146DC, 0x7A768, 0x6F5F4, 0x458),
            (false, true) => (
                0x71808 + 0xD14,
                0x720AC + 0xD24,
                0x720C0 + 0xD24,
                0x146DC + 0x25C,
                0x7A768 + 0xE1C,
                0x6F5F4 + 0xCD4,
                0x460,
            ),
            (true, false) => (0xD977A, 0xDA81E, 0xDA836, 0x26A9A, 0xEAADE, 0xD55AA, 0x858),
            (true, true) => (
                0xD977A + 0x1A10,
                0xDA81E + 0x1A30,
                0xDA836 + 0x1A30,
                0x26A9A + 0x4A0,
                0xEAADE + 0x1C20,
                0xD55AA + 0x1990,
                0x868,
            ),
        };
    Addresses {
        is_64_bit,
        alternate_layout: revised,
        level_id_base: found.level_id_base,
        level_id_offset: found.level_id_offset,
        status_base: found.status_base,
        status_offset: found.status_offset,
        egg_reverie_base: found.egg_reverie_base,
        egg_reverie1_offset1: found.egg_reverie1_offset1,
        egg_reverie1_offset2: found.egg_reverie1_offset2,
        egg_reverie2_offset1: found.egg_reverie2_offset1,
        egg_reverie2_offset2: found.egg_reverie2_offset2,
        egg_monarch_base: found.egg_monarch_base,
        egg_monarch_offset: found.egg_monarch_offset,
        chaos_emerald_base: found.chaos_emerald_base,
        chaos_emerald_offset1: found.chaos_emerald_offset1,
        chaos_emerald_offset2: found.chaos_emerald_offset2,
        character_base: found.character_base,
        character_offset: found.character_offset,
        start_trigger: block + trigger,
        mania_mode_selection: block + mode,
        save_selection_mania: block + selection,
        save_0: block + saves,
        save_1: block + saves + stride,
        save_2: block + saves + stride * 2,
        save_3: block + saves + stride * 3,
        save_4: block + saves + stride * 4,
        save_5: block + saves + stride * 5,
        save_6: block + saves + stride * 6,
        save_7: block + saves + stride * 7,
        save_selection_encore: block + encore_selection,
        encore_save_1: block + encore_saves + stride,
        encore_save_2: block + encore_saves + stride * 2,
        encore_save_3: block + encore_saves + stride * 3,
    }
}

fn merged(mut game: Image, main: &Image) -> Image {
    for (i, b) in main.bytes.iter().enumerate() {
        if *b != FILL {
            game.bytes[i] = *b;
        }
    }
    game
}

#[test]
fn anchor_is_the_match_plus_the_position() {
    let image = game_32(0x40_0000);
    let window = image.window();
    assert_eq!(anchor(&window, &LEVEL_ID_32, 2), Some(0x40_0000 + LEVEL as u64 + 2));
    assert_eq!(anchor(&window, &STATUS_32, 0), Some(0x40_0000 + STATUS as u64));
    assert_eq!(anchor(&window, &SAVE_BLOCK_32, 7), None);
    assert_eq!(anchor(&window, &LEVEL_ID_32, u64::MAX), None);
}

#[test]
fn pointers_are_absolute_in_32_bit_builds() {
    let image = game_32(0x40_0000);
    let window = image.window();
    let at = anchor(&window, &LEVEL_ID_32, 2);
    assert_eq!(pointer(&window, false, at), Some(0x00A1_B2C4));
    assert_eq!(pointer(&window, false, None), None);
    assert_eq!(pointer(&window, false, Some(0x40_0000 + 0x2FE)), None);
    assert_eq!(pointer(&image.window_without(LEVEL + 4), false, at), None);
}

#[test]
fn pointers_are_relative_in_64_bit_builds() {
    let base = 0x7FF6_0000_0000u64;
    let image = game_64(base);
    let window = image.window();
    let at = anchor(&window, &LEVEL_ID_64, 3);
    assert_eq!(at, Some(base + LEVEL as u64 + 3));
    assert_eq!(pointer(&window, true, at), Some(base + 0x10_0000));
    let back = anchor(&window, &EGG_REVERIE_64, 5);
    assert_eq!(pointer(&window, true, back), Some(base - 0x1000));
    assert_eq!(pointer(&window, true, None), None);
}

#[test]
fn relative_pointers_outside_the_address_space_are_refused() {
    let mut low = Image::new(0, 0x40);
    low.put(0x10, &(-0x100i32).to_le_bytes());
    assert_eq!(pointer(&low.window(), true, Some(0x10)), None);
    low.put(0x10, &(-0x14i32).to_le_bytes());
    assert_eq!(pointer(&low.window(), true, Some(0x10)), Some(0));
    let mut high = Image::new(u64::MAX - 0x40, 0x40);
    high.put(0x10, &0x100i32.to_le_bytes());
    assert_eq!(pointer(&high.window(), true, Some(u64::MAX - 0x30)), None);
    high.put(0x10, &0x2Ci32.to_le_bytes());
    assert_eq!(pointer(&high.window(), true, Some(u64::MAX - 0x30)), Some(u64::MAX));
}

#[test]
fn operands_are_read_behind_the_anchor() {
    let image = game_32(0x40_0000);
    let window = image.window();
    let level = anchor(&window, &LEVEL_ID_32, 2);
    assert_eq!(byte_operand(&window, level, 28), Some(0x55));
    assert_eq!(byte_operand(&window, level, 0x1000), None);
    assert_eq!(byte_operand(&window, level, u64::MAX), None);
    assert_eq!(byte_operand(&window, None, 28), None);
    let flag = anchor(&window, &EGG_MONARCH_FLAG_32, 4);
    assert_eq!(dword_operand(&window, flag, 0), Some(0x0001_0234));
    assert_eq!(dword_operand(&window, flag, u64::MAX), None);
    assert_eq!(dword_operand(&window, None, 0), None);
    assert_eq!(dword_operand(&image.window_without(MONARCH_FLAG + 7), flag, 0), None);
}

#[test]
fn locate_32_decodes_every_operand() {
    let game = game_32(0x1000_0000);
    let main = main_32(0x40_0000, false);
    assert_eq!(locate_32(&main.window(), &game.window()), Some(expected_operands_32()));
}

#[test]
fn locate_64_decodes_every_operand() {
    let game_base = 0x7FF6_1000_0000u64;
    let main_base = 0x7FF6_0000_0000u64;
    let game = game_64(game_base);
    let main = main_64(main_base, false);
    assert_eq!(
        locate_64(&main.window(), &game.window()),
        Some(expected_operands_64(game_base, main_base))
    );
}

#[test]
fn layout_revision_is_detected_in_the_main_module() {
    assert!(!detect_layout(&main_32(0x40_0000, false).window(), false));
    assert!(detect_layout(&main_32(0x40_0000, true).window(), false));
    assert!(!detect_layout(&main_64(0x40_0000, false).window(), true));
    assert!(detect_layout(&main_64(0x40_0000, true).window(), true));
    assert!(!detect_layout(&main_32(0x40_0000, true).window(), true));
    assert!(!detect_layout(&main_64(0x40_0000, true).window(), false));
}

#[test]
fn resolve_builds_the_table_of_a_32_bit_build_with_a_game_module() {
    for revised in [false, true] {
        let game = game_32(0x1000_0000);
        let main = main_32(0x40_0000, revised);
        let table = resolve(&main.window(), Some(&game.window()), false);
        assert_eq!(table, Some(expected_table(false, revised, expected_operands_32())));
    }
}

#[test]
fn resolve_builds_the_table_of_a_32_bit_build_from_the_main_module_alone() {
    let image = merged(game_32(0x40_0000), &main_32(0x40_0000, false));
    let table = resolve(&image.window(), None, false).unwrap();
    assert_eq!(table, expected_table(false, false, expected_operands_32()));
    assert_eq!(table.start_trigger, 0x0080_0000 + 0x71808);
    assert_eq!(table.save_3, 0x0080_0000 + 0x146DC + 0x458 * 3);
    assert_eq!(table.encore_save_2, 0x0080_0000 + 0x6F5F4 + 0x458 * 2);
}

#[test]
fn resolve_builds_the_table_of_a_64_bit_build() {
    let game_base = 0x7FF6_1000_0000u64;
    let main_base = 0x7FF6_0000_0000u64;
    for revised in [false, true] {
        let game = game_64(game_base);
        let main = main_64(main_base, revised);
        let table = resolve(&main.window(), Some(&game.window()), true).unwrap();
        assert_eq!(
            table,
            expected_table(true, revised, expected_operands_64(game_base, main_base))
        );
        assert!(table.is_64_bit);
        assert_eq!(table.alternate_layout, revised);
    }
    let game = game_64(game_base);
    let main = main_64(main_base, true);
    let table = resolve(&main.window(), Some(&game.window()), true).unwrap();
    assert_eq!(table.save_7, main_base + 0x60_0000 + 0x26A9A + 0x4A0 + 0x868 * 7);
    assert_eq!(table.save_selection_encore, main_base + 0x60_0000 + 0xEAADE + 0x1C20);
}

#[test]
fn resolve_is_all_or_nothing() {
    let main = main_32(0x40_0000, false);
    for at in [LEVEL, STATUS, REVERIE, MONARCH, MONARCH_FLAG, EMERALDS, CHARACTER] {
        let mut game = game_32(0x1000_0000);
        game.bytes[at] = FILL;
        assert_eq!(resolve(&main.window(), Some(&game.window()), false), None, "at {:#x}", at);
    }
    let game = game_32(0x1000_0000);
    let mut broken = main_32(0x40_0000, false);
    broken.bytes[SAVE] = FILL;
    assert_eq!(resolve(&broken.window(), Some(&game.window()), false), None);
    assert_eq!(resolve(&game.window(), None, false), None);
    assert_eq!(resolve(&main.window(), Some(&game.window()), true), None);
}

#[test]
fn resolve_fails_on_an_unread_operand() {
    let main = main_32(0x40_0000, false);
    let game = game_32(0x1000_0000);
    for at in [LEVEL + 30, REVERIE + 17, REVERIE + 20, MONARCH_FLAG + 5, EMERALDS + 2] {
        assert_eq!(
            resolve(&main.window(), Some(&game.window_without(at)), false),
            None,
            "at {:#x}",
            at
        );
    }
    assert!(resolve(&main.window(), Some(&game.window_without(LEVEL + 31)), false).is_some());
    assert_eq!(resolve(&main.window_without(SAVE + 8), Some(&game.window()), false), None);
}

#[test]
fn save_block_is_searched_in_the_main_module_only() {
    let game = merged(game_32(0x1000_0000), &main_32(0x1000_0000, false));
    let main = Image::new(0x40_0000, 0x300);
    assert_eq!(resolve(&main.window(), Some(&game.window()), false), None);
}

#[test]
fn block_layouts_hold_the_constants_of_each_build() {
    let layout = block_layout(false, false);
    assert_eq!(layout.start_trigger, 0x71808);
    assert_eq!(layout.mania_mode_selection, 0x720AC);
    assert_eq!(layout.save_selection_mania, 0x720C0);
    assert_eq!(layout.first_save, 0x146DC);
    assert_eq!(layout.save_selection_encore, 0x7A768);
    assert_eq!(layout.encore_saves, 0x6F5F4);
    assert_eq!(layout.stride, 0x458);
    let layout = block_layout(false, true);
    assert_eq!(layout.start_trigger, 0x7251C);
    assert_eq!(layout.first_save, 0x14938);
    assert_eq!(layout.stride, 0x460);
    let layout = block_layout(true, false);
    assert_eq!(layout.start_trigger, 0xD977A);
    assert_eq!(layout.stride, 0x858);
    let layout = block_layout(true, true);
    assert_eq!(layout.save_selection_encore, 0xEC6FE);
    assert_eq!(layout.encore_saves, 0xD6F3A);
    assert_eq!(layout.stride, 0x868);
}

#[test]
fn a_block_at_the_top_of_the_address_space_is_refused() {
    let mut found = expected_operands_32();
    found.save_block = u64::MAX - 0xEAADE;
    assert!(Addresses::assemble(true, false, found).is_some());
    assert_eq!(
        Addresses::assemble(true, false, found).unwrap().save_selection_encore,
        u64::MAX
    );
    found.save_block = u64::MAX - 0xEAADE + 1;
    assert_eq!(Addresses::assemble(true, false, found), None);
    found.save_block = u64::MAX;
    assert_eq!(Addresses::assemble(false, true, found), None);
}
