//! The fields that are read in every tick: where each lies in a session's
//! table of addresses, and where its bytes go in the tick's sample.

use crate::addresses::Addresses;
use crate::engine::Sample;
use crate::memory::u32_le;
use crate::reader::{Chain, FieldDescriptor};
use vstd::prelude::*;

verus! {

/// A tracked field of the process.
#[derive(Clone, Copy, PartialEq, Eq, Structural, Debug)]
pub enum Field {
    /// The discriminator of the game mode.
    GameMode,
    /// The scene id.
    LevelId,
    /// The scene status and its timer.
    Status,
    /// The health of the first boss of the final zone.
    EggReverieMonarchHealth,
    /// The health of the second boss of the final zone.
    EggReverieEggmanHealth,
    /// The defeat flag of the last regular boss.
    Tm2Defeat,
    /// The emerald bitmask.
    ChaosEmeralds,
    /// The two active characters.
    Characters,
    /// The counter that grows when a save slot is picked.
    StartTrigger,
    /// The flag that tells the standard menu from the encore menu.
    ManiaModeSelection,
    /// The slot index picked in the standard menu.
    SaveSelectionMania,
    /// The marker of save slot 0.
    Save0,
    /// The marker of save slot 1.
    Save1,
    /// The marker of save slot 2.
    Save2,
    /// The marker of save slot 3.
    Save3,
    /// The marker of save slot 4.
    Save4,
    /// The marker of save slot 5.
    Save5,
    /// The marker of save slot 6.
    Save6,
    /// The marker of save slot 7.
    Save7,
    /// The slot index picked in the encore menu.
    SaveSelectionEncore,
    /// The marker of encore save slot 1.
    SaveEncore1,
    /// The marker of encore save slot 2.
    SaveEncore2,
    /// The marker of encore save slot 3.
    SaveEncore3,
}

/// The number of tracked fields.
pub const FIELD_COUNT: usize = 23;

/// The field at the given place in the order in which the fields are read.
pub open spec fn field_at(index: usize) -> Option<Field> {
    match index {
        0 => Some(Field::GameMode),
        1 => Some(Field::LevelId),
        2 => Some(Field::Status),
        3 => Some(Field::EggReverieMonarchHealth),
        4 => Some(Field::EggReverieEggmanHealth),
        5 => Some(Field::Tm2Defeat),
        6 => Some(Field::ChaosEmeralds),
        7 => Some(Field::Characters),
        8 => Some(Field::StartTrigger),
        9 => Some(Field::ManiaModeSelection),
        10 => Some(Field::SaveSelectionMania),
        11 => Some(Field::Save0),
        12 => Some(Field::Save1),
        13 => Some(Field::Save2),
        14 => Some(Field::Save3),
        15 => Some(Field::Save4),
        16 => Some(Field::Save5),
        17 => Some(Field::Save6),
        18 => Some(Field::Save7),
        19 => Some(Field::SaveSelectionEncore),
        20 => Some(Field::SaveEncore1),
        21 => Some(Field::SaveEncore2),
        22 => Some(Field::SaveEncore3),
        _ => None,
    }
}

impl Field {
    /// The number of bytes of the field's value.
    pub open spec fn width_of(self) -> int {
        match self {
            Field::Status => 5,
            Field::Characters => 2,
            Field::StartTrigger => 4,
            _ => 1,
        }
    }

    /// The place of the field in the order in which the fields are read.
    pub open spec fn index_of(self) -> int {
        match self {
            Field::GameMode => 0,
            Field::LevelId => 1,
            Field::Status => 2,
            Field::EggReverieMonarchHealth => 3,
            Field::EggReverieEggmanHealth => 4,
            Field::Tm2Defeat => 5,
            Field::ChaosEmeralds => 6,
            Field::Characters => 7,
            Field::StartTrigger => 8,
            Field::ManiaModeSelection => 9,
            Field::SaveSelectionMania => 10,
            Field::Save0 => 11,
            Field::Save1 => 12,
            Field::Save2 => 13,
            Field::Save3 => 14,
            Field::Save4 => 15,
            Field::Save5 => 16,
            Field::Save6 => 17,
            Field::Save7 => 18,
            Field::SaveSelectionEncore => 19,
            Field::SaveEncore1 => 20,
            Field::SaveEncore2 => 21,
            Field::SaveEncore3 => 22,
        }
    }

    /// The number of bytes of the field's value.
    pub fn width(self) -> (n: usize)
        ensures
            n == self.width_of(),
    {
        match self {
            Field::Status => 5,
            Field::Characters => 2,
            Field::StartTrigger => 4,
            _ => 1,
        }
    }

    /// The field at the given place in the order in which the fields are
    /// read, for every place below the number of fields.
    pub fn at(index: usize) -> (field: Option<Field>)
        ensures
            field == field_at(index),
            index < FIELD_COUNT <==> field is Some,
            field is Some ==> field->0.index_of() == index,
    {
        match index {
            0 => Some(Field::GameMode),
            1 => Some(Field::LevelId),
            2 => Some(Field::Status),
            3 => Some(Field::EggReverieMonarchHealth),
            4 => Some(Field::EggReverieEggmanHealth),
            5 => Some(Field::Tm2Defeat),
            6 => Some(Field::ChaosEmeralds),
            7 => Some(Field::Characters),
            8 => Some(Field::StartTrigger),
            9 => Some(Field::ManiaModeSelection),
            10 => Some(Field::SaveSelectionMania),
            11 => Some(Field::Save0),
            12 => Some(Field::Save1),
            13 => Some(Field::Save2),
            14 => Some(Field::Save3),
            15 => Some(Field::Save4),
            16 => Some(Field::Save5),
            17 => Some(Field::Save6),
            18 => Some(Field::Save7),
            19 => Some(Field::SaveSelectionEncore),
            20 => Some(Field::SaveEncore1),
            21 => Some(Field::SaveEncore2),
            22 => Some(Field::SaveEncore3),
            _ => None,
        }
    }
}

impl Addresses {
    /// Where a field lies: the address it is reached from, the offsets
    /// added along its chain of pointers, and the width of its value.
    pub open spec fn descriptor_of(self, field: Field) -> FieldDescriptor {
        match field {
            Field::GameMode => FieldDescriptor {
                base: self.character_base,
                chain: Chain::One(0),
                width: 1,
            },
            Field::LevelId => FieldDescriptor {
                base: self.level_id_base,
                chain: Chain::One(self.level_id_offset as u64),
                width: 1,
            },
            Field::Status => FieldDescriptor {
                base: self.status_base,
                chain: Chain::One(self.status_offset as u64),
                width: 5,
            },
            Field::EggReverieMonarchHealth => FieldDescriptor {
                base: self.egg_reverie_base,
                chain: Chain::Two(
                    self.egg_reverie1_offset1 as u64,
                    self.egg_reverie1_offset2 as u64,
                ),
                width: 1,
            },
            Field::EggReverieEggmanHealth => FieldDescriptor {
                base: self.egg_reverie_base,
                chain: Chain::Two(
                    self.egg_reverie2_offset1 as u64,
                    self.egg_reverie2_offset2 as u64,
                ),
                width: 1,
            },
            Field::Tm2Defeat => FieldDescriptor {
                base: self.egg_monarch_base,
                chain: Chain::One(self.egg_monarch_offset as u64),
                width: 1,
            },
            Field::ChaosEmeralds => FieldDescriptor {
                base: self.chaos_emerald_base,
                chain: Chain::Two(
                    self.chaos_emerald_offset1 as u64,
                    self.chaos_emerald_offset2 as u64,
                ),
                width: 1,
            },
            Field::Characters => FieldDescriptor {
                base: self.character_base,
                chain: Chain::One(self.character_offset as u64),
                width: 2,
            },
            Field::StartTrigger => FieldDescriptor {
                base: self.start_trigger,
                chain: Chain::Direct,
                width: 4,
            },
            Field::ManiaModeSelection => FieldDescriptor {
                base: self.mania_mode_selection,
                chain: Chain::Direct,
                width: 1,
            },
            Field::SaveSelectionMania => FieldDescriptor {
                base: self.save_selection_mania,
                chain: Chain::Direct,
                width: 1,
            },
            Field::Save0 => FieldDescriptor {
                base: self.save_0,
                chain: Chain::Direct,
                width: 1,
            },
            Field::Save1 => FieldDescriptor {
                base: self.save_1,
                chain: Chain::Direct,
                width: 1,
            },
            Field::Save2 => FieldDescriptor {
                base: self.save_2,
                chain: Chain::Direct,
                width: 1,
            },
            Field::Save3 => FieldDescriptor {
                base: self.save_3,
                chain: Chain::Direct,
                width: 1,
            },
            Field::Save4 => FieldDescriptor {
                base: self.save_4,
                chain: Chain::Direct,
                width: 1,
            },
            Field::Save5 => FieldDescriptor {
                base: self.save_5,
                chain: Chain::Direct,
                width: 1,
            },
            Field::Save6 => FieldDescriptor {
                base: self.save_6,
                chain: Chain::Direct,
                width: 1,
            },
            Field::Save7 => FieldDescriptor {
                base: self.save_7,
                chain: Chain::Direct,
                width: 1,
            },
            Field::SaveSelectionEncore => FieldDescriptor {
                base: self.save_selection_encore,
                chain: Chain::Direct,
                width: 1,
            },
            Field::SaveEncore1 => FieldDescriptor {
                base: self.encore_save_1,
                chain: Chain::Direct,
                width: 1,
            },
            Field::SaveEncore2 => FieldDescriptor {
                base: self.encore_save_2,
                chain: Chain::Direct,
                width: 1,
            },
            Field::SaveEncore3 => FieldDescriptor {
                base: self.encore_save_3,
                chain: Chain::Direct,
                width: 1,
            },
        }
    }

    /// Tells where a field lies.
    pub fn descriptor(&self, field: Field) -> (descriptor: FieldDescriptor)
        ensures
            descriptor == self.descriptor_of(field),
            descriptor.width == field.width_of(),
    {
        match field {
            Field::GameMode => FieldDescriptor {
                base: self.character_base,
                chain: Chain::One(0),
                width: 1,
            },
            Field::LevelId => FieldDescriptor {
                base: self.level_id_base,
                chain: Chain::One(self.level_id_offset as u64),
                width: 1,
            },
            Field::Status => FieldDescriptor {
                base: self.status_base,
                chain: Chain::One(self.status_offset as u64),
                width: 5,
            },
            Field::EggReverieMonarchHealth => FieldDescriptor {
                base: self.egg_reverie_base,
                chain: Chain::Two(
                    self.egg_reverie1_offset1 as u64,
                    self.egg_reverie1_offset2 as u64,
                ),
                width: 1,
            },
            Field::EggReverieEggmanHealth => FieldDescriptor {
                base: self.egg_reverie_base,
                chain: Chain::Two(
                    self.egg_reverie2_offset1 as u64,
                    self.egg_reverie2_offset2 as u64,
                ),
                width: 1,
            },
            Field::Tm2Defeat => FieldDescriptor {
                base: self.egg_monarch_base,
                chain: Chain::One(self.egg_monarch_offset as u64),
                width: 1,
            },
            Field::ChaosEmeralds => FieldDescriptor {
                base: self.chaos_emerald_base,
                chain: Chain::Two(
                    self.chaos_emerald_offset1 as u64,
                    self.chaos_emerald_offset2 as u64,
                ),
                width: 1,
            },
            Field::Characters => FieldDescriptor {
                base: self.character_base,
                chain: Chain::One(self.character_offset as u64),
                width: 2,
            },
            Field::StartTrigger => FieldDescriptor {
                base: self.start_trigger,
                chain: Chain::Direct,
                width: 4,
            },
            Field::ManiaModeSelection => FieldDescriptor {
                base: self.mania_mode_selection,
                chain: Chain::Direct,
                width: 1,
            },
            Field::SaveSelectionMania => FieldDescriptor {
                base: self.save_selection_mania,
                chain: Chain::Direct,
                width: 1,
            },
            Field::Save0 => FieldDescriptor {
                base: self.save_0,
                chain: Chain::Direct,
                width: 1,
            },
            Field::Save1 => FieldDescriptor {
                base: self.save_1,
                chain: Chain::Direct,
                width: 1,
            },
            Field::Save2 => FieldDescriptor {
                base: self.save_2,
                chain: Chain::Direct,
                width: 1,
            },
            Field::Save3 => FieldDescriptor {
                base: self.save_3,
                chain: Chain::Direct,
                width: 1,
            },
            Field::Save4 => FieldDescriptor {
                base: self.save_4,
                chain: Chain::Direct,
                width: 1,
            },
            Field::Save5 => FieldDescriptor {
                base: self.save_5,
                chain: Chain::Direct,
                width: 1,
            },
            Field::Save6 => FieldDescriptor {
                base: self.save_6,
                chain: Chain::Direct,
                width: 1,
            },
            Field::Save7 => FieldDescriptor {
                base: self.save_7,
                chain: Chain::Direct,
                width: 1,
            },
            Field::SaveSelectionEncore => FieldDescriptor {
                base: self.save_selection_encore,
                chain: Chain::Direct,
                width: 1,
            },
            Field::SaveEncore1 => FieldDescriptor {
                base: self.encore_save_1,
                chain: Chain::Direct,
                width: 1,
            },
            Field::SaveEncore2 => FieldDescriptor {
                base: self.encore_save_2,
                chain: Chain::Direct,
                width: 1,
            },
            Field::SaveEncore3 => FieldDescriptor {
                base: self.encore_save_3,
                chain: Chain::Direct,
                width: 1,
            },
        }
    }
}

impl Sample {
    /// The sample with the value of one field replaced by `bytes`. Bytes that
    /// are not as many as the field is wide change nothing.
    pub open spec fn stored(self, field: Field, bytes: Seq<u8>) -> Sample {
        if bytes.len() != field.width_of() {
            self
        } else {
            match field {
                Field::GameMode => Sample { game_mode: bytes[0], ..self },
                Field::LevelId => Sample { level_id: bytes[0], ..self },
                Field::Status => Sample {
                    status: [bytes[0], bytes[1], bytes[2], bytes[3], bytes[4]],
                    ..self
                },
                Field::EggReverieMonarchHealth => Sample {
                    egg_reverie_monarch_health: bytes[0],
                    ..self
                },
                Field::EggReverieEggmanHealth => Sample {
                    egg_reverie_eggman_health: bytes[0],
                    ..self
                },
                Field::Tm2Defeat => Sample { tm2_defeat: bytes[0], ..self },
                Field::ChaosEmeralds => Sample { chaos_emeralds: bytes[0], ..self },
                Field::Characters => Sample { characters: [bytes[0], bytes[1]], ..self },
                Field::StartTrigger => Sample {
                    start_trigger: u32_le(bytes[0], bytes[1], bytes[2], bytes[3]) as u32,
                    ..self
                },
                Field::ManiaModeSelection => Sample { mania_mode_selection: bytes[0], ..self },
                Field::SaveSelectionMania => Sample { save_selection_mania: bytes[0], ..self },
                Field::Save0 => Sample { save_0: bytes[0], ..self },
                Field::Save1 => Sample { save_1: bytes[0], ..self },
                Field::Save2 => Sample { save_2: bytes[0], ..self },
                Field::Save3 => Sample { save_3: bytes[0], ..self },
                Field::Save4 => Sample { save_4: bytes[0], ..self },
                Field::Save5 => Sample { save_5: bytes[0], ..self },
                Field::Save6 => Sample { save_6: bytes[0], ..self },
                Field::Save7 => Sample { save_7: bytes[0], ..self },
                Field::SaveSelectionEncore => Sample { save_selection_encore: bytes[0], ..self },
                Field::SaveEncore1 => Sample { save_encore_1: bytes[0], ..self },
                Field::SaveEncore2 => Sample { save_encore_2: bytes[0], ..self },
                Field::SaveEncore3 => Sample { save_encore_3: bytes[0], ..self },
            }
        }
    }

    /// A sample in which every field holds zeros.
    pub open spec fn blank() -> Sample {
        Sample {
            game_mode: 0,
            level_id: 0,
            status: [0, 0, 0, 0, 0],
            egg_reverie_monarch_health: 0,
            egg_reverie_eggman_health: 0,
            tm2_defeat: 0,
            chaos_emeralds: 0,
            characters: [0, 0],
            start_trigger: 0,
            mania_mode_selection: 0,
            save_selection_mania: 0,
            save_0: 0,
            save_1: 0,
            save_2: 0,
            save_3: 0,
            save_4: 0,
            save_5: 0,
            save_6: 0,
            save_7: 0,
            save_selection_encore: 0,
            save_encore_1: 0,
            save_encore_2: 0,
            save_encore_3: 0,
        }
    }

    /// A sample in which every field holds zeros.
    pub fn new() -> (sample: Sample)
        ensures
            sample == Sample::blank(),
    {
        Sample {
            game_mode: 0,
            level_id: 0,
            status: [0, 0, 0, 0, 0],
            egg_reverie_monarch_health: 0,
            egg_reverie_eggman_health: 0,
            tm2_defeat: 0,
            chaos_emeralds: 0,
            characters: [0, 0],
            start_trigger: 0,
            mania_mode_selection: 0,
            save_selection_mania: 0,
            save_0: 0,
            save_1: 0,
            save_2: 0,
            save_3: 0,
            save_4: 0,
            save_5: 0,
            save_6: 0,
            save_7: 0,
            save_selection_encore: 0,
            save_encore_1: 0,
            save_encore_2: 0,
            save_encore_3: 0,
        }
    }

    /// Puts the value read for one field into the sample.
    pub fn store(&mut self, field: Field, bytes: &[u8])
        ensures
            *final(self) == old(self).stored(field, bytes@),
    {
        if bytes.len() != field.width() {
            return ;
        }
        match field {
            Field::GameMode => {
                self.game_mode = bytes[0];
            },
            Field::LevelId => {
                self.level_id = bytes[0];
            },
            Field::Status => {
                self.status = [bytes[0], bytes[1], bytes[2], bytes[3], bytes[4]];
            },
            Field::EggReverieMonarchHealth => {
                self.egg_reverie_monarch_health = bytes[0];
            },
            Field::EggReverieEggmanHealth => {
                self.egg_reverie_eggman_health = bytes[0];
            },
            Field::Tm2Defeat => {
                self.tm2_defeat = bytes[0];
            },
            Field::ChaosEmeralds => {
                self.chaos_emeralds = bytes[0];
            },
            Field::Characters => {
                self.characters = [bytes[0], bytes[1]];
            },
            Field::StartTrigger => {
                self.start_trigger = bytes[0] as u32 + 0x100 * (bytes[1] as u32) + 0x1_0000 * (bytes[2] as u32)
                    + 0x100_0000 * (bytes[3] as u32);
            },
            Field::ManiaModeSelection => {
                self.mania_mode_selection = bytes[0];
            },
            Field::SaveSelectionMania => {
                self.save_selection_mania = bytes[0];
            },
            Field::Save0 => {
                self.save_0 = bytes[0];
            },
            Field::Save1 => {
                self.save_1 = bytes[0];
            },
            Field::Save2 => {
                self.save_2 = bytes[0];
            },
            Field::Save3 => {
                self.save_3 = bytes[0];
            },
            Field::Save4 => {
                self.save_4 = bytes[0];
            },
            Field::Save5 => {
                self.save_5 = bytes[0];
            },
            Field::Save6 => {
                self.save_6 = bytes[0];
            },
            Field::Save7 => {
                self.save_7 = bytes[0];
            },
            Field::SaveSelectionEncore => {
                self.save_selection_encore = bytes[0];
            },
            Field::SaveEncore1 => {
                self.save_encore_1 = bytes[0];
            },
            Field::SaveEncore2 => {
                self.save_encore_2 = bytes[0];
            },
            Field::SaveEncore3 => {
                self.save_encore_3 = bytes[0];
            },
        }
    }
}

} // verus!
