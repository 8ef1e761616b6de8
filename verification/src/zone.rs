//! The zones of the game, the table that tells a raw scene id's zone in each
//! game mode, the table of each zone's successor, and the rule by which the
//! current zone follows the samples.

use vstd::prelude::*;

verus! {

/// A level of the game: the acts of the standard progression, the final
/// confrontation, and the acts of the encore progression.
#[derive(Clone, Copy, PartialEq, Eq, Structural, Debug)]
pub enum Zone {
    GreenHill1,
    GreenHill2,
    ChemicalPlant1,
    ChemicalPlant2,
    Studiopolis1,
    Studiopolis2,
    FlyingBattery1,
    FlyingBattery2,
    PressGarden1,
    PressGarden2,
    StardustSpeedway1,
    StardustSpeedway2,
    Hydrocity1,
    Hydrocity2,
    MirageSaloon1,
    MirageSaloon2,
    OilOcean1,
    OilOcean2,
    LavaReef1,
    LavaReef2,
    MetallicMadness1,
    MetallicMadness2,
    TitanicMonarch1,
    TitanicMonarch2,
    EggReverie,
    EncoreAngelIsland,
    EncoreGreenHill1,
    EncoreGreenHill2,
    EncoreChemicalPlant1,
    EncoreChemicalPlant2,
    EncoreStudiopolis1,
    EncoreStudiopolis2,
    EncoreFlyingBattery1,
    EncoreFlyingBattery2,
    EncorePressGarden1,
    EncorePressGarden2,
    EncoreStardustSpeedway1,
    EncoreStardustSpeedway2,
    EncoreHydrocity1,
    EncoreHydrocity2,
    EncoreMirageSaloon1,
    EncoreMirageSaloon2,
    EncoreOilOcean1,
    EncoreOilOcean2,
    EncoreLavaReef1,
    EncoreLavaReef2,
    EncoreMetallicMadness1,
    EncoreMetallicMadness2,
    EncoreTitanicMonarch1,
    EncoreTitanicMonarch2,
}

/// The mode that a run is played in.
#[derive(Clone, Copy, PartialEq, Eq, Structural, Debug)]
pub enum GameMode {
    Standard,
    Encore,
    Invalid,
}

/// The scene id of the final confrontation.
pub const FINAL_SCENE: u8 = 37;

/// The mode that the raw discriminator stands for.
pub open spec fn mode_of(raw: u8) -> GameMode {
    if raw == 0 {
        GameMode::Standard
    } else if raw == 1 {
        GameMode::Encore
    } else {
        GameMode::Invalid
    }
}

/// The zone of a scene id in the standard progression. Some zones have
/// several ids, one for each of their transitional scenes.
pub open spec fn standard_zone_of(raw_id: u8) -> Option<Zone> {
    match raw_id {
        9 | 117 | 119 => Some(Zone::GreenHill1),
        10 | 120 => Some(Zone::GreenHill2),
        11 => Some(Zone::ChemicalPlant1),
        12 => Some(Zone::ChemicalPlant2),
        13 => Some(Zone::Studiopolis1),
        14 => Some(Zone::Studiopolis2),
        15 => Some(Zone::FlyingBattery1),
        16 => Some(Zone::FlyingBattery2),
        17 => Some(Zone::PressGarden1),
        18 => Some(Zone::PressGarden2),
        19 | 122 => Some(Zone::StardustSpeedway1),
        20 | 21 => Some(Zone::StardustSpeedway2),
        22 => Some(Zone::Hydrocity1),
        23 => Some(Zone::Hydrocity2),
        24 | 25 => Some(Zone::MirageSaloon1),
        26 => Some(Zone::MirageSaloon2),
        27 => Some(Zone::OilOcean1),
        28 => Some(Zone::OilOcean2),
        29 => Some(Zone::LavaReef1),
        30 | 31 => Some(Zone::LavaReef2),
        32 => Some(Zone::MetallicMadness1),
        33 => Some(Zone::MetallicMadness2),
        34 => Some(Zone::TitanicMonarch1),
        35 | 36 => Some(Zone::TitanicMonarch2),
        37 => Some(Zone::EggReverie),
        _ => None,
    }
}

/// The zone of a scene id in the encore progression.
pub open spec fn encore_zone_of(raw_id: u8) -> Option<Zone> {
    match raw_id {
        118 => Some(Zone::EncoreAngelIsland),
        119 | 38 => Some(Zone::EncoreGreenHill1),
        39 | 120 => Some(Zone::EncoreGreenHill2),
        40 => Some(Zone::EncoreChemicalPlant1),
        41 => Some(Zone::EncoreChemicalPlant2),
        42 => Some(Zone::EncoreStudiopolis1),
        43 => Some(Zone::EncoreStudiopolis2),
        44 => Some(Zone::EncoreFlyingBattery1),
        45 => Some(Zone::EncoreFlyingBattery2),
        46 => Some(Zone::EncorePressGarden1),
        47 => Some(Zone::EncorePressGarden2),
        48 | 122 => Some(Zone::EncoreStardustSpeedway1),
        49 | 50 => Some(Zone::EncoreStardustSpeedway2),
        51 => Some(Zone::EncoreHydrocity1),
        52 => Some(Zone::EncoreHydrocity2),
        53 => Some(Zone::EncoreMirageSaloon1),
        54 => Some(Zone::EncoreMirageSaloon2),
        55 => Some(Zone::EncoreOilOcean1),
        56 => Some(Zone::EncoreOilOcean2),
        57 => Some(Zone::EncoreLavaReef1),
        58 | 59 => Some(Zone::EncoreLavaReef2),
        60 => Some(Zone::EncoreMetallicMadness1),
        61 => Some(Zone::EncoreMetallicMadness2),
        62 => Some(Zone::EncoreTitanicMonarch1),
        63 | 64 => Some(Zone::EncoreTitanicMonarch2),
        _ => None,
    }
}

/// The zone of a scene id in the given mode. Only the standard mode reads
/// the standard table; every other mode reads the encore table.
pub open spec fn zone_of(mode: GameMode, raw_id: u8) -> Option<Zone> {
    if mode == GameMode::Standard {
        standard_zone_of(raw_id)
    } else {
        encore_zone_of(raw_id)
    }
}

/// The zone that follows a zone. The final confrontation and the last act
/// of the encore progression have none.
pub open spec fn successor_of(zone: Zone) -> Option<Zone> {
    match zone {
        Zone::GreenHill1 => Some(Zone::GreenHill2),
        Zone::GreenHill2 => Some(Zone::ChemicalPlant1),
        Zone::ChemicalPlant1 => Some(Zone::ChemicalPlant2),
        Zone::ChemicalPlant2 => Some(Zone::Studiopolis1),
        Zone::Studiopolis1 => Some(Zone::Studiopolis2),
        Zone::Studiopolis2 => Some(Zone::FlyingBattery1),
        Zone::FlyingBattery1 => Some(Zone::FlyingBattery2),
        Zone::FlyingBattery2 => Some(Zone::PressGarden1),
        Zone::PressGarden1 => Some(Zone::PressGarden2),
        Zone::PressGarden2 => Some(Zone::StardustSpeedway1),
        Zone::StardustSpeedway1 => Some(Zone::StardustSpeedway2),
        Zone::StardustSpeedway2 => Some(Zone::Hydrocity1),
        Zone::Hydrocity1 => Some(Zone::Hydrocity2),
        Zone::Hydrocity2 => Some(Zone::MirageSaloon1),
        Zone::MirageSaloon1 => Some(Zone::MirageSaloon2),
        Zone::MirageSaloon2 => Some(Zone::OilOcean1),
        Zone::OilOcean1 => Some(Zone::OilOcean2),
        Zone::OilOcean2 => Some(Zone::LavaReef1),
        Zone::LavaReef1 => Some(Zone::LavaReef2),
        Zone::LavaReef2 => Some(Zone::MetallicMadness1),
        Zone::MetallicMadness1 => Some(Zone::MetallicMadness2),
        Zone::MetallicMadness2 => Some(Zone::TitanicMonarch1),
        Zone::TitanicMonarch1 => Some(Zone::TitanicMonarch2),
        Zone::TitanicMonarch2 => Some(Zone::EggReverie),
        Zone::EncoreAngelIsland => Some(Zone::EncoreGreenHill1),
        Zone::EncoreGreenHill1 => Some(Zone::EncoreGreenHill2),
        Zone::EncoreGreenHill2 => Some(Zone::EncoreChemicalPlant1),
        Zone::EncoreChemicalPlant1 => Some(Zone::EncoreChemicalPlant2),
        Zone::EncoreChemicalPlant2 => Some(Zone::EncoreStudiopolis1),
        Zone::EncoreStudiopolis1 => Some(Zone::EncoreStudiopolis2),
        Zone::EncoreStudiopolis2 => Some(Zone::EncoreFlyingBattery1),
        Zone::EncoreFlyingBattery1 => Some(Zone::EncoreFlyingBattery2),
        Zone::EncoreFlyingBattery2 => Some(Zone::EncorePressGarden1),
        Zone::EncorePressGarden1 => Some(Zone::EncorePressGarden2),
        Zone::EncorePressGarden2 => Some(Zone::EncoreStardustSpeedway1),
        Zone::EncoreStardustSpeedway1 => Some(Zone::EncoreStardustSpeedway2),
        Zone::EncoreStardustSpeedway2 => Some(Zone::EncoreHydrocity1),
        Zone::EncoreHydrocity1 => Some(Zone::EncoreHydrocity2),
        Zone::EncoreHydrocity2 => Some(Zone::EncoreMirageSaloon1),
        Zone::EncoreMirageSaloon1 => Some(Zone::EncoreMirageSaloon2),
        Zone::EncoreMirageSaloon2 => Some(Zone::EncoreOilOcean1),
        Zone::EncoreOilOcean1 => Some(Zone::EncoreOilOcean2),
        Zone::EncoreOilOcean2 => Some(Zone::EncoreLavaReef1),
        Zone::EncoreLavaReef1 => Some(Zone::EncoreLavaReef2),
        Zone::EncoreLavaReef2 => Some(Zone::EncoreMetallicMadness1),
        Zone::EncoreMetallicMadness1 => Some(Zone::EncoreMetallicMadness2),
        Zone::EncoreMetallicMadness2 => Some(Zone::EncoreTitanicMonarch1),
        Zone::EncoreTitanicMonarch1 => Some(Zone::EncoreTitanicMonarch2),
        Zone::EggReverie | Zone::EncoreTitanicMonarch2 => None,
    }
}

/// Whether a status sample can be trusted: the scene is running, or it is
/// in some other live state while its three timer bytes are all zero.
pub open spec fn stable(status: [u8; 5]) -> bool {
    status[0] == 2 || (status[0] != 0 && status[2] + status[3] + status[4] == 0)
}

/// The zone after a sample. The scene id of the final confrontation always
/// gives that zone. Any other id gives its zone in the table where the
/// status is stable and the table knows the id; otherwise the zone stays.
pub open spec fn classified(previous: Zone, mode: GameMode, raw_id: u8, status: [u8; 5]) -> Zone {
    if raw_id == FINAL_SCENE {
        Zone::EggReverie
    } else if stable(status) {
        match zone_of(mode, raw_id) {
            Some(zone) => zone,
            None => previous,
        }
    } else {
        previous
    }
}

impl GameMode {
    /// The mode that the raw discriminator stands for.
    pub fn from_raw(raw: u8) -> (mode: GameMode)
        ensures
            mode == mode_of(raw),
    {
        if raw == 0 {
            GameMode::Standard
        } else if raw == 1 {
            GameMode::Encore
        } else {
            GameMode::Invalid
        }
    }
}

impl Zone {
    /// Looks a scene id up in the standard progression.
    pub fn standard(raw_id: u8) -> (zone: Option<Zone>)
        ensures
            zone == standard_zone_of(raw_id),
    {
        match raw_id {
            9 | 117 | 119 => Some(Zone::GreenHill1),
            10 | 120 => Some(Zone::GreenHill2),
            11 => Some(Zone::ChemicalPlant1),
            12 => Some(Zone::ChemicalPlant2),
            13 => Some(Zone::Studiopolis1),
            14 => Some(Zone::Studiopolis2),
            15 => Some(Zone::FlyingBattery1),
            16 => Some(Zone::FlyingBattery2),
            17 => Some(Zone::PressGarden1),
            18 => Some(Zone::PressGarden2),
            19 | 122 => Some(Zone::StardustSpeedway1),
            20 | 21 => Some(Zone::StardustSpeedway2),
            22 => Some(Zone::Hydrocity1),
            23 => Some(Zone::Hydrocity2),
            24 | 25 => Some(Zone::MirageSaloon1),
            26 => Some(Zone::MirageSaloon2),
            27 => Some(Zone::OilOcean1),
            28 => Some(Zone::OilOcean2),
            29 => Some(Zone::LavaReef1),
            30 | 31 => Some(Zone::LavaReef2),
            32 => Some(Zone::MetallicMadness1),
            33 => Some(Zone::MetallicMadness2),
            34 => Some(Zone::TitanicMonarch1),
            35 | 36 => Some(Zone::TitanicMonarch2),
            37 => Some(Zone::EggReverie),
            _ => None,
        }
    }

    /// Looks a scene id up in the encore progression.
    pub fn encore(raw_id: u8) -> (zone: Option<Zone>)
        ensures
            zone == encore_zone_of(raw_id),
    {
        match raw_id {
            118 => Some(Zone::EncoreAngelIsland),
            119 | 38 => Some(Zone::EncoreGreenHill1),
            39 | 120 => Some(Zone::EncoreGreenHill2),
            40 => Some(Zone::EncoreChemicalPlant1),
            41 => Some(Zone::EncoreChemicalPlant2),
            42 => Some(Zone::EncoreStudiopolis1),
            43 => Some(Zone::EncoreStudiopolis2),
            44 => Some(Zone::EncoreFlyingBattery1),
            45 => Some(Zone::EncoreFlyingBattery2),
            46 => Some(Zone::EncorePressGarden1),
            47 => Some(Zone::EncorePressGarden2),
            48 | 122 => Some(Zone::EncoreStardustSpeedway1),
            49 | 50 => Some(Zone::EncoreStardustSpeedway2),
            51 => Some(Zone::EncoreHydrocity1),
            52 => Some(Zone::EncoreHydrocity2),
            53 => Some(Zone::EncoreMirageSaloon1),
            54 => Some(Zone::EncoreMirageSaloon2),
            55 => Some(Zone::EncoreOilOcean1),
            56 => Some(Zone::EncoreOilOcean2),
            57 => Some(Zone::EncoreLavaReef1),
            58 | 59 => Some(Zone::EncoreLavaReef2),
            60 => Some(Zone::EncoreMetallicMadness1),
            61 => Some(Zone::EncoreMetallicMadness2),
            62 => Some(Zone::EncoreTitanicMonarch1),
            63 | 64 => Some(Zone::EncoreTitanicMonarch2),
            _ => None,
        }
    }

    /// Looks a scene id up in the table of the given mode.
    pub fn lookup(mode: GameMode, raw_id: u8) -> (zone: Option<Zone>)
        ensures
            zone == zone_of(mode, raw_id),
    {
        match mode {
            GameMode::Standard => Zone::standard(raw_id),
            _ => Zone::encore(raw_id),
        }
    }

    /// The zone that follows this one.
    pub fn successor(self) -> (next: Option<Zone>)
        ensures
            next == successor_of(self),
    {
        match self {
            Zone::GreenHill1 => Some(Zone::GreenHill2),
            Zone::GreenHill2 => Some(Zone::ChemicalPlant1),
            Zone::ChemicalPlant1 => Some(Zone::ChemicalPlant2),
            Zone::ChemicalPlant2 => Some(Zone::Studiopolis1),
            Zone::Studiopolis1 => Some(Zone::Studiopolis2),
            Zone::Studiopolis2 => Some(Zone::FlyingBattery1),
            Zone::FlyingBattery1 => Some(Zone::FlyingBattery2),
            Zone::FlyingBattery2 => Some(Zone::PressGarden1),
            Zone::PressGarden1 => Some(Zone::PressGarden2),
            Zone::PressGarden2 => Some(Zone::StardustSpeedway1),
            Zone::StardustSpeedway1 => Some(Zone::StardustSpeedway2),
            Zone::StardustSpeedway2 => Some(Zone::Hydrocity1),
            Zone::Hydrocity1 => Some(Zone::Hydrocity2),
            Zone::Hydrocity2 => Some(Zone::MirageSaloon1),
            Zone::MirageSaloon1 => Some(Zone::MirageSaloon2),
            Zone::MirageSaloon2 => Some(Zone::OilOcean1),
            Zone::OilOcean1 => Some(Zone::OilOcean2),
            Zone::OilOcean2 => Some(Zone::LavaReef1),
            Zone::LavaReef1 => Some(Zone::LavaReef2),
            Zone::LavaReef2 => Some(Zone::MetallicMadness1),
            Zone::MetallicMadness1 => Some(Zone::MetallicMadness2),
            Zone::MetallicMadness2 => Some(Zone::TitanicMonarch1),
            Zone::TitanicMonarch1 => Some(Zone::TitanicMonarch2),
            Zone::TitanicMonarch2 => Some(Zone::EggReverie),
            Zone::EncoreAngelIsland => Some(Zone::EncoreGreenHill1),
            Zone::EncoreGreenHill1 => Some(Zone::EncoreGreenHill2),
            Zone::EncoreGreenHill2 => Some(Zone::EncoreChemicalPlant1),
            Zone::EncoreChemicalPlant1 => Some(Zone::EncoreChemicalPlant2),
            Zone::EncoreChemicalPlant2 => Some(Zone::EncoreStudiopolis1),
            Zone::EncoreStudiopolis1 => Some(Zone::EncoreStudiopolis2),
            Zone::EncoreStudiopolis2 => Some(Zone::EncoreFlyingBattery1),
            Zone::EncoreFlyingBattery1 => Some(Zone::EncoreFlyingBattery2),
            Zone::EncoreFlyingBattery2 => Some(Zone::EncorePressGarden1),
            Zone::EncorePressGarden1 => Some(Zone::EncorePressGarden2),
            Zone::EncorePressGarden2 => Some(Zone::EncoreStardustSpeedway1),
            Zone::EncoreStardustSpeedway1 => Some(Zone::EncoreStardustSpeedway2),
            Zone::EncoreStardustSpeedway2 => Some(Zone::EncoreHydrocity1),
            Zone::EncoreHydrocity1 => Some(Zone::EncoreHydrocity2),
            Zone::EncoreHydrocity2 => Some(Zone::EncoreMirageSaloon1),
            Zone::EncoreMirageSaloon1 => Some(Zone::EncoreMirageSaloon2),
            Zone::EncoreMirageSaloon2 => Some(Zone::EncoreOilOcean1),
            Zone::EncoreOilOcean1 => Some(Zone::EncoreOilOcean2),
            Zone::EncoreOilOcean2 => Some(Zone::EncoreLavaReef1),
            Zone::EncoreLavaReef1 => Some(Zone::EncoreLavaReef2),
            Zone::EncoreLavaReef2 => Some(Zone::EncoreMetallicMadness1),
            Zone::EncoreMetallicMadness1 => Some(Zone::EncoreMetallicMadness2),
            Zone::EncoreMetallicMadness2 => Some(Zone::EncoreTitanicMonarch1),
            Zone::EncoreTitanicMonarch1 => Some(Zone::EncoreTitanicMonarch2),
            Zone::EggReverie | Zone::EncoreTitanicMonarch2 => None,
        }
    }

    /// Tells whether this zone is followed by `next`.
    pub fn leads_to(self, next: Zone) -> (r: bool)
        ensures
            r == (successor_of(self) == Some(next)),
    {
        match self.successor() {
            Some(zone) => zone == next,
            None => false,
        }
    }

    /// The zone after a sample, given the zone before it.
    pub fn classify(previous: Zone, mode: GameMode, raw_id: u8, status: &[u8; 5]) -> (zone: Zone)
        ensures
            zone == classified(previous, mode, raw_id, *status),
    {
        if raw_id == FINAL_SCENE {
            Zone::EggReverie
        } else if is_stable(status) {
            match Zone::lookup(mode, raw_id) {
                Some(zone) => zone,
                None => previous,
            }
        } else {
            previous
        }
    }
}

/// Tells whether a status sample can be trusted.
pub fn is_stable(status: &[u8; 5]) -> (r: bool)
    ensures
        r == stable(*status),
{
    status[0] == 2 || (status[0] != 0 && status[2] == 0 && status[3] == 0 && status[4] == 0)
}

/// A zone that a stable sample has set is left as it is by every further
/// sample of the same mode and scene id.
pub proof fn lemma_classification_settles(
    previous: Zone,
    mode: GameMode,
    raw_id: u8,
    first: [u8; 5],
    second: [u8; 5],
)
    requires
        stable(first),
    ensures
        classified(classified(previous, mode, raw_id, first), mode, raw_id, second) == classified(
            previous,
            mode,
            raw_id,
            first,
        ),
{
}

/// No zone is its own successor, and no two zones have the same successor.
pub proof fn lemma_successor_is_one_to_one(a: Zone, b: Zone)
    requires
        successor_of(a) is Some,
        successor_of(a) == successor_of(b),
    ensures
        a == b,
        successor_of(a) != Some(a),
{
}

} // verus!
