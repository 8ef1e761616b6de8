//! The decisions of one tick: the samples are taken into the watchers, and
//! the watchers and the settings tell whether the timer starts, splits or
//! resets.

use crate::settings::Settings;
use crate::watcher::{plain_equality, Watcher};
use crate::zone::{classified, mode_of, successor_of, GameMode, Zone};
use vstd::prelude::*;

verus! {

/// The first of the two scene ids of the menus.
pub const FIRST_MENU_SCENE: u8 = 1;

/// The scene id of the main menu, the second of the two menu ids.
pub const MAIN_MENU_SCENE: u8 = 2;

/// The step by which the start trigger grows when a save slot is picked.
pub const TRIGGER_STEP: u32 = 48;

/// The slot index that stands for a run without a save.
pub const NO_SAVE_SLOT: u8 = 8;

/// The emerald bitmask with all seven emeralds.
pub const ALL_EMERALDS: u8 = 0x7F;

/// The status code of a scene whose goal has been reached.
pub const STATUS_VICTORY: u8 = 1;

/// The status code of the developer menu.
pub const STATUS_DEV_MENU: u8 = 8;

/// The zone that is assumed before the first sample.
pub open spec fn initial_zone() -> Zone {
    Zone::GreenHill1
}

/// The values read from the process in one tick. A field that could not be
/// read holds zeros.
#[derive(Clone, Copy, Debug)]
pub struct Sample {
    pub game_mode: u8,
    pub level_id: u8,
    pub status: [u8; 5],
    pub egg_reverie_monarch_health: u8,
    pub egg_reverie_eggman_health: u8,
    pub tm2_defeat: u8,
    pub chaos_emeralds: u8,
    pub characters: [u8; 2],
    pub start_trigger: u32,
    pub mania_mode_selection: u8,
    pub save_selection_mania: u8,
    pub save_0: u8,
    pub save_1: u8,
    pub save_2: u8,
    pub save_3: u8,
    pub save_4: u8,
    pub save_5: u8,
    pub save_6: u8,
    pub save_7: u8,
    pub save_selection_encore: u8,
    pub save_encore_1: u8,
    pub save_encore_2: u8,
    pub save_encore_3: u8,
}

/// One watcher for each value that the decisions read.
#[derive(Clone, Copy, Debug)]
pub struct Watchers {
    pub level_id_numeric: Watcher<u8>,
    pub level_id: Watcher<Zone>,
    pub status: Watcher<u8>,
    pub egg_reverie_health: Watcher<u16>,
    pub titanic_monarch_2_defeated: Watcher<bool>,
    pub chaos_emeralds: Watcher<u8>,
    pub game_mode: Watcher<GameMode>,
    pub character_1: Watcher<u8>,
    pub character_2: Watcher<u8>,
    pub start_trigger: Watcher<u32>,
    pub mania_mode_selection: Watcher<bool>,
    pub save_selection_mania: Watcher<u8>,
    pub save_0: Watcher<u8>,
    pub save_1: Watcher<u8>,
    pub save_2: Watcher<u8>,
    pub save_3: Watcher<u8>,
    pub save_4: Watcher<u8>,
    pub save_5: Watcher<u8>,
    pub save_6: Watcher<u8>,
    pub save_7: Watcher<u8>,
    pub save_selection_encore: Watcher<u8>,
    pub save_encore_1: Watcher<bool>,
    pub save_encore_2: Watcher<bool>,
    pub save_encore_3: Watcher<bool>,
}

/// The run state of the timer.
#[derive(Clone, Copy, PartialEq, Eq, Structural, Debug)]
pub enum TimerState {
    NotRunning,
    Running,
    Paused,
    Ended,
}

/// What the timer is told to do at the end of a tick.
#[derive(Clone, Copy, PartialEq, Eq, Structural, Debug)]
pub enum Action {
    Nothing,
    Start,
    Split,
    Reset,
}

/// Whether a save slot's marker byte says that the slot is empty.
pub open spec fn slot_is_empty(marker: u8) -> bool {
    marker == 0 || marker == 255
}

impl Watchers {
    /// The zone that the watchers hold, or the initial zone before the
    /// first sample.
    pub open spec fn zone(self) -> Zone {
        match self.level_id.pair {
            Some(p) => p.current,
            None => initial_zone(),
        }
    }

    /// The watchers after a tick's sample: the zone follows the
    /// classification rule, the two boss healths are added up, and every
    /// flag byte is read as a boolean.
    pub open spec fn updated(self, sample: Sample) -> Watchers {
        Watchers {
            level_id_numeric: self.level_id_numeric.updated(sample.level_id),
            level_id: self.level_id.updated(
                classified(self.zone(), mode_of(sample.game_mode), sample.level_id, sample.status),
            ),
            status: self.status.updated(sample.status[0]),
            egg_reverie_health: self.egg_reverie_health.updated(
                (sample.egg_reverie_eggman_health + sample.egg_reverie_monarch_health) as u16,
            ),
            titanic_monarch_2_defeated: self.titanic_monarch_2_defeated.updated(
                sample.tm2_defeat != 0,
            ),
            chaos_emeralds: self.chaos_emeralds.updated(sample.chaos_emeralds),
            game_mode: self.game_mode.updated(mode_of(sample.game_mode)),
            character_1: self.character_1.updated(sample.characters[0]),
            character_2: self.character_2.updated(sample.characters[1]),
            start_trigger: self.start_trigger.updated(sample.start_trigger),
            mania_mode_selection: self.mania_mode_selection.updated(
                sample.mania_mode_selection != 0,
            ),
            save_selection_mania: self.save_selection_mania.updated(sample.save_selection_mania),
            save_0: self.save_0.updated(sample.save_0),
            save_1: self.save_1.updated(sample.save_1),
            save_2: self.save_2.updated(sample.save_2),
            save_3: self.save_3.updated(sample.save_3),
            save_4: self.save_4.updated(sample.save_4),
            save_5: self.save_5.updated(sample.save_5),
            save_6: self.save_6.updated(sample.save_6),
            save_7: self.save_7.updated(sample.save_7),
            save_selection_encore: self.save_selection_encore.updated(
                sample.save_selection_encore,
            ),
            save_encore_1: self.save_encore_1.updated(sample.save_encore_1 != 0),
            save_encore_2: self.save_encore_2.updated(sample.save_encore_2 != 0),
            save_encore_3: self.save_encore_3.updated(sample.save_encore_3 != 0),
        }
    }

    /// Whether every watcher holds a pair.
    pub open spec fn sampled(self) -> bool {
        &&& self.level_id_numeric.pair is Some
        &&& self.level_id.pair is Some
        &&& self.status.pair is Some
        &&& self.egg_reverie_health.pair is Some
        &&& self.titanic_monarch_2_defeated.pair is Some
        &&& self.chaos_emeralds.pair is Some
        &&& self.game_mode.pair is Some
        &&& self.character_1.pair is Some
        &&& self.character_2.pair is Some
        &&& self.start_trigger.pair is Some
        &&& self.mania_mode_selection.pair is Some
        &&& self.save_selection_mania.pair is Some
        &&& self.save_0.pair is Some
        &&& self.save_1.pair is Some
        &&& self.save_2.pair is Some
        &&& self.save_3.pair is Some
        &&& self.save_4.pair is Some
        &&& self.save_5.pair is Some
        &&& self.save_6.pair is Some
        &&& self.save_7.pair is Some
        &&& self.save_selection_encore.pair is Some
        &&& self.save_encore_1.pair is Some
        &&& self.save_encore_2.pair is Some
        &&& self.save_encore_3.pair is Some
    }

    /// Watchers that have seen no sample.
    pub fn new() -> (w: Watchers)
        ensures
            w.level_id_numeric.pair is None,
            w.level_id.pair is None,
            w.status.pair is None,
            w.egg_reverie_health.pair is None,
            w.titanic_monarch_2_defeated.pair is None,
            w.chaos_emeralds.pair is None,
            w.game_mode.pair is None,
            w.character_1.pair is None,
            w.character_2.pair is None,
            w.start_trigger.pair is None,
            w.mania_mode_selection.pair is None,
            w.save_selection_mania.pair is None,
            w.save_0.pair is None,
            w.save_1.pair is None,
            w.save_2.pair is None,
            w.save_3.pair is None,
            w.save_4.pair is None,
            w.save_5.pair is None,
            w.save_6.pair is None,
            w.save_7.pair is None,
            w.save_selection_encore.pair is None,
            w.save_encore_1.pair is None,
            w.save_encore_2.pair is None,
            w.save_encore_3.pair is None,
    {
        Watchers {
            level_id_numeric: Watcher::new(),
            level_id: Watcher::new(),
            status: Watcher::new(),
            egg_reverie_health: Watcher::new(),
            titanic_monarch_2_defeated: Watcher::new(),
            chaos_emeralds: Watcher::new(),
            game_mode: Watcher::new(),
            character_1: Watcher::new(),
            character_2: Watcher::new(),
            start_trigger: Watcher::new(),
            mania_mode_selection: Watcher::new(),
            save_selection_mania: Watcher::new(),
            save_0: Watcher::new(),
            save_1: Watcher::new(),
            save_2: Watcher::new(),
            save_3: Watcher::new(),
            save_4: Watcher::new(),
            save_5: Watcher::new(),
            save_6: Watcher::new(),
            save_7: Watcher::new(),
            save_selection_encore: Watcher::new(),
            save_encore_1: Watcher::new(),
            save_encore_2: Watcher::new(),
            save_encore_3: Watcher::new(),
        }
    }

    /// Takes the sample of one tick into every watcher.
    pub fn update(&mut self, sample: &Sample)
        ensures
            *final(self) == old(self).updated(*sample),
            final(self).sampled(),
    {
        let previous: Zone = match self.level_id.pair {
            Some(p) => p.current,
            None => Zone::GreenHill1,
        };
        let mode = GameMode::from_raw(sample.game_mode);
        let zone = Zone::classify(previous, mode, sample.level_id, &sample.status);
        let health: u16 = sample.egg_reverie_eggman_health as u16
            + sample.egg_reverie_monarch_health as u16;
        self.level_id.update(zone);
        self.game_mode.update(mode);
        self.level_id_numeric.update(sample.level_id);
        self.status.update(sample.status[0]);
        self.egg_reverie_health.update(health);
        self.titanic_monarch_2_defeated.update(sample.tm2_defeat != 0);
        self.chaos_emeralds.update(sample.chaos_emeralds);
        self.character_1.update(sample.characters[0]);
        self.character_2.update(sample.characters[1]);
        self.start_trigger.update(sample.start_trigger);
        self.mania_mode_selection.update(sample.mania_mode_selection != 0);
        self.save_selection_mania.update(sample.save_selection_mania);
        self.save_0.update(sample.save_0);
        self.save_1.update(sample.save_1);
        self.save_2.update(sample.save_2);
        self.save_3.update(sample.save_3);
        self.save_4.update(sample.save_4);
        self.save_5.update(sample.save_5);
        self.save_6.update(sample.save_6);
        self.save_7.update(sample.save_7);
        self.save_selection_encore.update(sample.save_selection_encore);
        self.save_encore_1.update(sample.save_encore_1 != 0);
        self.save_encore_2.update(sample.save_encore_2 != 0);
        self.save_encore_3.update(sample.save_encore_3 != 0);
    }
}

/// Whether the pick of a save slot in the standard mode starts a run: the
/// index is a slot or the choice to play without a save, and a slot that is
/// picked is empty. Without a sample of every slot nothing starts.
pub open spec fn standard_slot_starts(w: Watchers) -> bool {
    match w.save_selection_mania.pair {
        Some(selection) => {
            &&& selection.current <= NO_SAVE_SLOT
            &&& selection.current == NO_SAVE_SLOT || {
                &&& w.save_0.pair is Some
                &&& w.save_1.pair is Some
                &&& w.save_2.pair is Some
                &&& w.save_3.pair is Some
                &&& w.save_4.pair is Some
                &&& w.save_5.pair is Some
                &&& w.save_6.pair is Some
                &&& w.save_7.pair is Some
                &&& slot_is_empty(
                    if selection.current == 0 {
                        w.save_0.pair->0.current
                    } else if selection.current == 1 {
                        w.save_1.pair->0.current
                    } else if selection.current == 2 {
                        w.save_2.pair->0.current
                    } else if selection.current == 3 {
                        w.save_3.pair->0.current
                    } else if selection.current == 4 {
                        w.save_4.pair->0.current
                    } else if selection.current == 5 {
                        w.save_5.pair->0.current
                    } else if selection.current == 6 {
                        w.save_6.pair->0.current
                    } else {
                        w.save_7.pair->0.current
                    },
                )
            }
        },
        None => false,
    }
}

/// Whether the pick of a save slot in the encore mode starts a run: index 0
/// is the choice to play without a save, and a slot from 1 to 3 must have
/// its marker set. Without a sample of every slot nothing starts.
pub open spec fn encore_slot_starts(w: Watchers) -> bool {
    match w.save_selection_encore.pair {
        Some(selection) => {
            &&& selection.current <= 3
            &&& selection.current == 0 || {
                &&& w.save_encore_1.pair is Some
                &&& w.save_encore_2.pair is Some
                &&& w.save_encore_3.pair is Some
                &&& if selection.current == 1 {
                    w.save_encore_1.pair->0.current
                } else if selection.current == 2 {
                    w.save_encore_2.pair->0.current
                } else {
                    w.save_encore_3.pair->0.current
                }
            }
        },
        None => false,
    }
}

/// Whether a run starts: the scene is the main menu, the start trigger has
/// grown by exactly one step since the previous sample, and the rule of the
/// selected mode holds with that mode's switch on.
pub open spec fn start_fires(w: Watchers, settings: Settings) -> bool {
    &&& w.level_id_numeric.pair is Some
    &&& w.level_id_numeric.pair->0.current == MAIN_MENU_SCENE
    &&& w.start_trigger.pair is Some
    &&& w.start_trigger.pair->0.current == w.start_trigger.pair->0.old + TRIGGER_STEP
    &&& w.mania_mode_selection.pair is Some
    &&& if w.mania_mode_selection.pair->0.current {
        settings.start_mania_mode && standard_slot_starts(w)
    } else {
        settings.start_encore_mode && encore_slot_starts(w)
    }
}

/// Whether the last regular boss has just been defeated: its flag was clear
/// in the previous sample and is set in the latest.
pub open spec fn boss_just_defeated(w: Watchers) -> bool {
    match w.titanic_monarch_2_defeated.pair {
        Some(defeated) => defeated.current && !defeated.old,
        None => false,
    }
}

/// Whether the run goes on to the final confrontation: all emeralds are
/// held and the active characters are among those that may enter it.
pub open spec fn final_zone_awaits(w: Watchers) -> bool {
    &&& w.chaos_emeralds.pair->0.current == ALL_EMERALDS
    &&& w.character_1.pair->0.current == 1 || (w.character_1.pair->0.current == 4
        && w.character_2.pair->0.current == 4)
}

/// Whether the end of the last regular act splits. In the standard mode,
/// with the act's switch on, a run that goes on to the final confrontation
/// splits on entering it, and any other run on the defeat of the boss. In
/// the encore mode, with its own switch on, the defeat of the boss splits.
pub open spec fn last_act_splits(
    w: Watchers,
    settings: Settings,
    mode: GameMode,
    now: Zone,
) -> bool {
    if mode == GameMode::Standard {
        &&& settings.titanic_monarch_2
        &&& w.chaos_emeralds.pair is Some
        &&& w.character_1.pair is Some
        &&& w.character_2.pair is Some
        &&& if final_zone_awaits(w) {
            now == Zone::EggReverie
        } else {
            boss_just_defeated(w)
        }
    } else {
        settings.encore_titanic_monarch_2 && boss_just_defeated(w)
    }
}

/// Whether the final confrontation splits: with its switch on, the status
/// tells of victory and the combined health of the bosses has dropped from
/// a positive value to zero.
pub open spec fn final_zone_splits(w: Watchers, settings: Settings) -> bool {
    &&& settings.egg_reverie
    &&& w.status.pair is Some
    &&& w.egg_reverie_health.pair is Some
    &&& w.status.pair->0.current == STATUS_VICTORY
    &&& w.egg_reverie_health.pair->0.old > 0
    &&& w.egg_reverie_health.pair->0.current == 0
}

/// Whether the tick splits. Nothing splits outside the two playable modes.
/// The zone of the previous sample decides the rule: the last regular act
/// and the final confrontation have rules of their own; every other zone
/// splits when its switch is on and the latest zone is its successor.
pub open spec fn split_fires(w: Watchers, settings: Settings) -> bool {
    &&& w.game_mode.pair is Some
    &&& w.level_id.pair is Some
    &&& w.game_mode.pair->0.current != GameMode::Invalid
    &&& {
        let before = w.level_id.pair->0.old;
        let now = w.level_id.pair->0.current;
        if before == Zone::TitanicMonarch2 || before == Zone::EncoreTitanicMonarch2 {
            last_act_splits(w, settings, w.game_mode.pair->0.current, now)
        } else if before == Zone::EggReverie {
            final_zone_splits(w, settings)
        } else {
            settings.flag_of(before) && successor_of(before) == Some(now)
        }
    }
}

/// Whether a scene id is one of the two ids of the menus.
pub open spec fn is_menu_scene(raw_id: u8) -> bool {
    raw_id == FIRST_MENU_SCENE || raw_id == MAIN_MENU_SCENE
}

/// Whether the tick resets the run: with the menu switch on, the scene has
/// just entered a menu from outside the menus; or, with the developer
/// switch on, the status has just changed to that of the developer menu.
pub open spec fn reset_fires(w: Watchers, settings: Settings) -> bool {
    &&& w.status.pair is Some
    &&& w.level_id_numeric.pair is Some
    &&& {
        ||| {
            &&& settings.reset_save_select
            &&& !is_menu_scene(w.level_id_numeric.pair->0.old)
            &&& is_menu_scene(w.level_id_numeric.pair->0.current)
        }
        ||| {
            &&& settings.reset_dev_menu
            &&& w.status.is_changed()
            &&& w.status.pair->0.current == STATUS_DEV_MENU
        }
    }
}

/// What a tick tells the timer. A timer that runs or is paused is reset
/// where the reset rule holds, and otherwise split where the split rule
/// holds. A timer that is not running is started where the start rule
/// holds. A timer that has ended is told nothing.
pub open spec fn decided(state: TimerState, w: Watchers, settings: Settings) -> Action {
    match state {
        TimerState::Running | TimerState::Paused => if reset_fires(w, settings) {
            Action::Reset
        } else if split_fires(w, settings) {
            Action::Split
        } else {
            Action::Nothing
        },
        TimerState::NotRunning => if start_fires(w, settings) {
            Action::Start
        } else {
            Action::Nothing
        },
        TimerState::Ended => Action::Nothing,
    }
}

/// Tells whether a save slot's marker byte says that the slot is empty.
fn empty_slot(slot: &Watcher<u8>) -> (r: Option<bool>)
    ensures
        r == match slot.pair {
            Some(p) => Some(slot_is_empty(p.current)),
            None => None,
        },
{
    match slot.pair {
        Some(p) => Some(p.current == 0 || p.current == 255),
        None => None,
    }
}

/// Tells whether the run starts in this tick.
pub fn start(watchers: &Watchers, settings: &Settings) -> (fires: bool)
    ensures
        fires == start_fires(*watchers, *settings),
{
    if !settings.start_mania_mode && !settings.start_encore_mode {
        return false;
    }
    let Some(level_id) = watchers.level_id_numeric.pair else {
        return false;
    };
    if level_id.current != MAIN_MENU_SCENE {
        return false;
    }
    let Some(trigger) = watchers.start_trigger.pair else {
        return false;
    };
    if trigger.old > u32::MAX - TRIGGER_STEP || trigger.current != trigger.old + TRIGGER_STEP {
        return false;
    }
    let Some(mode_selection) = watchers.mania_mode_selection.pair else {
        return false;
    };
    if mode_selection.current {
        if !settings.start_mania_mode {
            return false;
        }
        let Some(selection) = watchers.save_selection_mania.pair else {
            return false;
        };
        if selection.current > NO_SAVE_SLOT {
            return false;
        }
        if selection.current == NO_SAVE_SLOT {
            return true;
        }
        let Some(slot_0) = empty_slot(&watchers.save_0) else {
            return false;
        };
        let Some(slot_1) = empty_slot(&watchers.save_1) else {
            return false;
        };
        let Some(slot_2) = empty_slot(&watchers.save_2) else {
            return false;
        };
        let Some(slot_3) = empty_slot(&watchers.save_3) else {
            return false;
        };
        let Some(slot_4) = empty_slot(&watchers.save_4) else {
            return false;
        };
        let Some(slot_5) = empty_slot(&watchers.save_5) else {
            return false;
        };
        let Some(slot_6) = empty_slot(&watchers.save_6) else {
            return false;
        };
        let Some(slot_7) = empty_slot(&watchers.save_7) else {
            return false;
        };
        match selection.current {
            0 => slot_0,
            1 => slot_1,
            2 => slot_2,
            3 => slot_3,
            4 => slot_4,
            5 => slot_5,
            6 => slot_6,
            _ => slot_7,
        }
    } else {
        if !settings.start_encore_mode {
            return false;
        }
        let Some(selection) = watchers.save_selection_encore.pair else {
            return false;
        };
        if selection.current > 3 {
            return false;
        }
        if selection.current == 0 {
            return true;
        }
        let Some(slot_1) = watchers.save_encore_1.pair else {
            return false;
        };
        let Some(slot_2) = watchers.save_encore_2.pair else {
            return false;
        };
        let Some(slot_3) = watchers.save_encore_3.pair else {
            return false;
        };
        match selection.current {
            1 => slot_1.current,
            2 => slot_2.current,
            _ => slot_3.current,
        }
    }
}

/// Tells whether the last regular boss has just been defeated.
fn just_defeated(watchers: &Watchers) -> (r: bool)
    ensures
        r == boss_just_defeated(*watchers),
{
    match watchers.titanic_monarch_2_defeated.pair {
        Some(defeated) => defeated.current && !defeated.old,
        None => false,
    }
}

/// Tells whether the tick splits.
pub fn split(watchers: &Watchers, settings: &Settings) -> (fires: bool)
    ensures
        fires == split_fires(*watchers, *settings),
{
    let Some(game_mode) = watchers.game_mode.pair else {
        return false;
    };
    let Some(level_id) = watchers.level_id.pair else {
        return false;
    };
    if game_mode.current == GameMode::Invalid {
        return false;
    }
    if level_id.old == Zone::TitanicMonarch2 || level_id.old == Zone::EncoreTitanicMonarch2 {
        if game_mode.current == GameMode::Standard {
            if !settings.titanic_monarch_2 {
                return false;
            }
            let Some(chaos_emeralds) = watchers.chaos_emeralds.pair else {
                return false;
            };
            let Some(character_1) = watchers.character_1.pair else {
                return false;
            };
            let Some(character_2) = watchers.character_2.pair else {
                return false;
            };
            if chaos_emeralds.current == ALL_EMERALDS && (character_1.current == 1 || (
            character_1.current == 4 && character_2.current == 4)) {
                level_id.current == Zone::EggReverie
            } else {
                just_defeated(watchers)
            }
        } else {
            settings.encore_titanic_monarch_2 && just_defeated(watchers)
        }
    } else if level_id.old == Zone::EggReverie {
        if !settings.egg_reverie {
            return false;
        }
        let Some(status) = watchers.status.pair else {
            return false;
        };
        let Some(health) = watchers.egg_reverie_health.pair else {
            return false;
        };
        status.current == STATUS_VICTORY && health.old > 0 && health.current == 0
    } else {
        settings.enabled(level_id.old) && level_id.old.leads_to(level_id.current)
    }
}

/// Tells whether the tick resets the run.
pub fn reset(watchers: &Watchers, settings: &Settings) -> (fires: bool)
    ensures
        fires == reset_fires(*watchers, *settings),
{
    let Some(status) = watchers.status.pair else {
        return false;
    };
    let Some(level_id) = watchers.level_id_numeric.pair else {
        return false;
    };
    proof {
        lemma_bytes_compare_plainly();
    }
    (settings.reset_save_select && level_id.old != FIRST_MENU_SCENE && level_id.old
        != MAIN_MENU_SCENE && (level_id.current == FIRST_MENU_SCENE || level_id.current
        == MAIN_MENU_SCENE)) || (settings.reset_dev_menu && watchers.status.changed()
        && status.current == STATUS_DEV_MENU)
}

/// Bytes are compared by value.
proof fn lemma_bytes_compare_plainly()
    ensures
        plain_equality::<u8>(),
{
}

/// Decides what the tick tells the timer, given the timer's state at the
/// start of the tick.
pub fn decide(state: TimerState, watchers: &Watchers, settings: &Settings) -> (action: Action)
    ensures
        action == decided(state, *watchers, *settings),
{
    match state {
        TimerState::Running | TimerState::Paused => {
            if reset(watchers, settings) {
                Action::Reset
            } else if split(watchers, settings) {
                Action::Split
            } else {
                Action::Nothing
            }
        },
        TimerState::NotRunning => {
            if start(watchers, settings) {
                Action::Start
            } else {
                Action::Nothing
            }
        },
        TimerState::Ended => Action::Nothing,
    }
}

/// Runs one tick: takes the sample into the watchers and decides what to
/// tell the timer.
pub fn tick(
    state: TimerState,
    watchers: &mut Watchers,
    sample: &Sample,
    settings: &Settings,
) -> (action: Action)
    ensures
        *final(watchers) == old(watchers).updated(*sample),
        action == decided(state, old(watchers).updated(*sample), *settings),
{
    watchers.update(sample);
    decide(state, watchers, settings)
}

} // verus!
