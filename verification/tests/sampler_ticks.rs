use mania_autosplit::addresses::{Addresses, Operands};
use mania_autosplit::engine::{tick, Action, Sample, TimerState, Watchers};
use mania_autosplit::memory::MemoryWindow;
use mania_autosplit::reader::Request;
use mania_autosplit::sampler::{sample_window, Sampler};
use mania_autosplit::settings::Settings;

const BASE: u64 = 0x10_0000;
const BLOCK: u64 = BASE + 0x2000;
const SIZE: usize = 0x7D000;

fn table() -> Addresses {
    let found = Operands {
        level_id_base: BASE + 0x20,
        level_id_offset: 0x55,
        status_base: BASE + 0x30,
        status_offset: 0x20,
        egg_reverie_base: BASE + 0x40,
        egg_reverie1_offset1: 0x40,
        egg_reverie1_offset2: 0x6C,
        egg_reverie2_offset1: 0x44,
        egg_reverie2_offset2: 0x70,
        egg_monarch_base: BASE + 0x50,
        egg_monarch_offset: 0x234,
        chaos_emerald_base: BASE + 0x60,
        chaos_emerald_offset1: 0x10,
        chaos_emerald_offset2: 0x28,
        character_base: BASE + 0x10,
        character_offset: 0x04,
        save_block: BLOCK,
    };
    Addresses::assemble(false, false, found).unwrap()
}

fn put(bytes: &mut [u8], address: u64, value: &[u8]) {
    let at = (address - BASE) as usize;
    bytes[at..at + value.len()].copy_from_slice(value);
}

fn put_pointer(bytes: &mut [u8], address: u64, target: u64) {
    put(bytes, address, &(target as u32).to_le_bytes());
}

fn memory() -> Vec<u8> {
    let mut bytes = vec![0u8; SIZE];
    put_pointer(&mut bytes, BASE + 0x10, BASE + 0x1000);
    put(&mut bytes, BASE + 0x1000, &[1]);
    put(&mut bytes, BASE + 0x1004, &[4, 2]);
    put_pointer(&mut bytes, BASE + 0x20, BASE + 0x1100);
    put(&mut bytes, BASE + 0x1155, &[37]);
    put_pointer(&mut bytes, BASE + 0x30, BASE + 0x1200);
    put(&mut bytes, BASE + 0x1220, &[2, 0, 1, 2, 3]);
    put_pointer(&mut bytes, BASE + 0x40, BASE + 0x1300);
    put_pointer(&mut bytes, BASE + 0x1340, BASE + 0x1400);
    put(&mut bytes, BASE + 0x146C, &[8]);
    put_pointer(&mut bytes, BASE + 0x1344, BASE + 0x1500);
    put(&mut bytes, BASE + 0x1570, &[16]);
    put_pointer(&mut bytes, BASE + 0x50, BASE + 0x1600);
    put(&mut bytes, BASE + 0x1834, &[1]);
    put_pointer(&mut bytes, BASE + 0x60, BASE + 0x1700);
    put_pointer(&mut bytes, BASE + 0x1710, BASE + 0x1900);
    put(&mut bytes, BASE + 0x1928, &[0x7F]);
    put(&mut bytes, BLOCK + 0x71808, &148u32.to_le_bytes());
    put(&mut bytes, BLOCK + 0x720AC, &[1]);
    put(&mut bytes, BLOCK + 0x720C0, &[8]);
    for slot in 0..8u64 {
        put(&mut bytes, BLOCK + 0x146DC + 0x458 * slot, &[10 + slot as u8]);
    }
    put(&mut bytes, BLOCK + 0x7A768, &[3]);
    for slot in 1..4u64 {
        put(&mut bytes, BLOCK + 0x6F5F4 + 0x458 * slot, &[20 + slot as u8]);
    }
    bytes
}

fn window_of(bytes: &[u8], unread: &[u64]) -> MemoryWindow {
    let mut cells: Vec<Option<u8>> = bytes.iter().map(|b| Some(*b)).collect();
    for address in unread {
        cells[(*address - BASE) as usize] = None;
    }
    MemoryWindow::new(BASE, cells).unwrap()
}

fn check_full_sample(sample: &Sample) {
    assert_eq!(sample.game_mode, 1);
    assert_eq!(sample.level_id, 37);
    assert_eq!(sample.status, [2, 0, 1, 2, 3]);
    assert_eq!(sample.egg_reverie_monarch_health, 8);
    assert_eq!(sample.egg_reverie_eggman_health, 16);
    assert_eq!(sample.tm2_defeat, 1);
    assert_eq!(sample.chaos_emeralds, 0x7F);
    assert_eq!(sample.characters, [4, 2]);
    assert_eq!(sample.start_trigger, 148);
    assert_eq!(sample.mania_mode_selection, 1);
    assert_eq!(sample.save_selection_mania, 8);
    assert_eq!(
        [
            sample.save_0,
            sample.save_1,
            sample.save_2,
            sample.save_3,
            sample.save_4,
            sample.save_5,
            sample.save_6,
            sample.save_7
        ],
        [10, 11, 12, 13, 14, 15, 16, 17]
    );
    assert_eq!(sample.save_selection_encore, 3);
    assert_eq!(
        [sample.save_encore_1, sample.save_encore_2, sample.save_encore_3],
        [21, 22, 23]
    );
}

#[test]
fn every_field_is_sampled_from_a_snapshot() {
    let sample = sample_window(&window_of(&memory(), &[]), table());
    check_full_sample(&sample);
}

#[test]
fn the_sampler_asks_for_each_field_in_turn() {
    let bytes = memory();
    let mut sampler = Sampler::begin(table());
    let mut requests: Vec<Request> = Vec::new();
    while let Some(request) = sampler.request() {
        requests.push(request);
        let at = (request.address - BASE) as usize;
        sampler.supply(Some(&bytes[at..at + request.len]));
        assert!(requests.len() <= 64);
    }
    check_full_sample(&sampler.sample());
    assert_eq!(requests.len(), 5 * 2 + 3 * 3 + 15);
    assert_eq!(requests[0], Request { address: BASE + 0x10, len: 4 });
    assert_eq!(requests[1], Request { address: BASE + 0x1000, len: 1 });
    assert_eq!(requests[2], Request { address: BASE + 0x20, len: 4 });
    assert_eq!(requests[3], Request { address: BASE + 0x1155, len: 1 });
    assert_eq!(requests[5], Request { address: BASE + 0x1220, len: 5 });
    assert_eq!(requests[6], Request { address: BASE + 0x40, len: 4 });
    assert_eq!(requests[7], Request { address: BASE + 0x1340, len: 4 });
    assert_eq!(requests[8], Request { address: BASE + 0x146C, len: 1 });
    assert_eq!(requests[19], Request { address: BLOCK + 0x71808, len: 4 });
    assert_eq!(requests[33], Request { address: BLOCK + 0x6F5F4 + 3 * 0x458, len: 1 });
    sampler.supply(Some(&[9]));
    sampler.supply(None);
    assert_eq!(sampler.request(), None);
    check_full_sample(&sampler.sample());
}

#[test]
fn a_field_that_cannot_be_read_is_zero_and_the_others_are_read() {
    let bytes = memory();
    let sample = sample_window(&window_of(&bytes, &[BASE + 0x1222, BASE + 0x1341]), table());
    assert_eq!(sample.status, [0; 5]);
    assert_eq!(sample.egg_reverie_monarch_health, 0);
    assert_eq!(sample.egg_reverie_eggman_health, 16);
    assert_eq!(sample.level_id, 37);
    assert_eq!(sample.start_trigger, 148);
    assert_eq!(sample.save_encore_3, 23);
}

#[test]
fn no_answer_at_all_gives_a_blank_sample() {
    let mut sampler = Sampler::begin(table());
    let mut steps = 0;
    while sampler.request().is_some() {
        sampler.supply(None);
        steps += 1;
        assert!(steps <= 23);
    }
    assert_eq!(steps, 23);
    let sample = sampler.sample();
    assert_eq!(sample.level_id, 0);
    assert_eq!(sample.status, [0; 5]);
    assert_eq!(sample.start_trigger, 0);
    assert_eq!(sample.save_encore_3, 0);
}

#[test]
fn a_tick_on_unreadable_memory_tells_the_timer_nothing() {
    let empty = MemoryWindow::new(BASE, vec![None; 64]).unwrap();
    let mut watchers = Watchers::new();
    for state in [TimerState::NotRunning, TimerState::Running, TimerState::Paused] {
        let sample = sample_window(&empty, table());
        assert_eq!(tick(state, &mut watchers, &sample, &Settings::default()), Action::Nothing);
    }
}

#[test]
fn a_run_is_followed_from_snapshots() {
    let settings = Settings::default();
    let mut watchers = Watchers::new();
    let mut bytes = memory();
    put(&mut bytes, BASE + 0x1000, &[0]);
    put(&mut bytes, BASE + 0x1155, &[2]);
    put(&mut bytes, BLOCK + 0x71808, &100u32.to_le_bytes());
    let sample = sample_window(&window_of(&bytes, &[]), table());
    assert_eq!(tick(TimerState::NotRunning, &mut watchers, &sample, &settings), Action::Nothing);
    put(&mut bytes, BLOCK + 0x71808, &148u32.to_le_bytes());
    let sample = sample_window(&window_of(&bytes, &[]), table());
    assert_eq!(tick(TimerState::NotRunning, &mut watchers, &sample, &settings), Action::Start);
    put(&mut bytes, BASE + 0x1155, &[9]);
    put(&mut bytes, BASE + 0x1220, &[2, 0, 0, 0, 0]);
    let sample = sample_window(&window_of(&bytes, &[]), table());
    assert_eq!(tick(TimerState::Running, &mut watchers, &sample, &settings), Action::Nothing);
    put(&mut bytes, BASE + 0x1220, &[1, 0, 0, 30, 0]);
    put(&mut bytes, BASE + 0x1155, &[10]);
    let sample = sample_window(&window_of(&bytes, &[]), table());
    assert_eq!(tick(TimerState::Running, &mut watchers, &sample, &settings), Action::Nothing);
    put(&mut bytes, BASE + 0x1220, &[2, 0, 0, 0, 0]);
    let sample = sample_window(&window_of(&bytes, &[]), table());
    assert_eq!(tick(TimerState::Running, &mut watchers, &sample, &settings), Action::Split);
    let sample = sample_window(&window_of(&bytes, &[BASE + 0x20]), table());
    assert_eq!(tick(TimerState::Running, &mut watchers, &sample, &settings), Action::Nothing);
    put(&mut bytes, BASE + 0x1155, &[12]);
    put(&mut bytes, BASE + 0x1220, &[0, 0, 0, 0, 0]);
    let sample = sample_window(&window_of(&bytes, &[]), table());
    assert_eq!(tick(TimerState::Running, &mut watchers, &sample, &settings), Action::Nothing);
    put(&mut bytes, BASE + 0x1220, &[2, 0, 0, 0, 0]);
    put(&mut bytes, BASE + 0x1155, &[11]);
    let sample = sample_window(&window_of(&bytes, &[]), table());
    assert_eq!(tick(TimerState::Running, &mut watchers, &sample, &settings), Action::Split);
    put(&mut bytes, BASE + 0x1155, &[2]);
    let sample = sample_window(&window_of(&bytes, &[]), table());
    assert_eq!(tick(TimerState::Running, &mut watchers, &sample, &settings), Action::Reset);
}
