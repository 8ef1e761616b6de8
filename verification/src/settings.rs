//! The choices of the runner: when the timer starts and resets by itself,
//! and which zones end a segment.

use crate::zone::Zone;
use vstd::prelude::*;

verus! {

/// One switch for each automatic start and reset, and one for each zone
/// that tells whether leaving the zone splits.
#[derive(Clone, Copy, PartialEq, Eq, Structural, Debug)]
pub struct Settings {
    /// Start when a save slot is picked in the standard mode.
    pub start_mania_mode: bool,
    /// Start when a save slot is picked in the encore mode.
    pub start_encore_mode: bool,
    /// Reset on the way back to the save selection.
    pub reset_save_select: bool,
    /// Reset when the developer menu opens.
    pub reset_dev_menu: bool,
    /// Green Hill Act 1.
    pub green_hill_1: bool,
    /// Green Hill Act 2.
    pub green_hill_2: bool,
    /// Chemical Plant Act 1.
    pub chemical_plant_1: bool,
    /// Chemical Plant Act 2.
    pub chemical_plant_2: bool,
    /// Studiopolis Act 1.
    pub studiopolis_1: bool,
    /// Studiopolis Act 2.
    pub studiopolis_2: bool,
    /// Flying Battery Act 1.
    pub flying_battery_1: bool,
    /// Flying Battery Act 2.
    pub flying_battery_2: bool,
    /// Press Garden Act 1.
    pub press_garden_1: bool,
    /// Press Garden Act 2.
    pub press_garden_2: bool,
    /// Stardust Speedway Act 1.
    pub stardust_speedway_1: bool,
    /// Stardust Speedway Act 2.
    pub stardust_speedway_2: bool,
    /// Hydrocity Act 1.
    pub hydrocity_1: bool,
    /// Hydrocity Act 2.
    pub hydrocity_2: bool,
    /// Mirage Saloon Act 1.
    pub mirage_saloon_1: bool,
    /// Mirage Saloon Act 2.
    pub mirage_saloon_2: bool,
    /// Oil Ocean Act 1.
    pub oil_ocean_1: bool,
    /// Oil Ocean Act 2.
    pub oil_ocean_2: bool,
    /// Lava Reef Act 1.
    pub lava_reef_1: bool,
    /// Lava Reef Act 2.
    pub lava_reef_2: bool,
    /// Metallic Madness Act 1.
    pub metallic_madness_1: bool,
    /// Metallic Madness Act 2.
    pub metallic_madness_2: bool,
    /// Titanic Monarch Act 1.
    pub titanic_monarch_1: bool,
    /// Titanic Monarch Act 2.
    pub titanic_monarch_2: bool,
    /// Egg Reverie.
    pub egg_reverie: bool,
    /// Encore: Angel Island.
    pub angel_island: bool,
    /// Encore: Green Hill Act 1.
    pub encore_green_hill_1: bool,
    /// Encore: Green Hill Act 2.
    pub encore_green_hill_2: bool,
    /// Encore: Chemical Plant Act 1.
    pub encore_chemical_plant_1: bool,
    /// Encore: Chemical Plant Act 2.
    pub encore_chemical_plant_2: bool,
    /// Encore: Studiopolis Act 1.
    pub encore_studiopolis_1: bool,
    /// Encore: Studiopolis Act 2.
    pub encore_studiopolis_2: bool,
    /// Encore: Flying Battery Act 1.
    pub encore_flying_battery_1: bool,
    /// Encore: Flying Battery Act 2.
    pub encore_flying_battery_2: bool,
    /// Encore: Press Garden Act 1.
    pub encore_press_garden_1: bool,
    /// Encore: Press Garden Act 2.
    pub encore_press_garden_2: bool,
    /// Encore: Stardust Speedway Act 1.
    pub encore_stardust_speedway_1: bool,
    /// Encore: Stardust Speedway Act 2.
    pub encore_stardust_speedway_2: bool,
    /// Encore: Hydrocity Act 1.
    pub encore_hydrocity_1: bool,
    /// Encore: Hydrocity Act 2.
    pub encore_hydrocity_2: bool,
    /// Encore: Mirage Saloon Act 1.
    pub encore_mirage_saloon_1: bool,
    /// Encore: Mirage Saloon Act 2.
    pub encore_mirage_saloon_2: bool,
    /// Encore: Oil Ocean Act 1.
    pub encore_oil_ocean_1: bool,
    /// Encore: Oil Ocean Act 2.
    pub encore_oil_ocean_2: bool,
    /// Encore: Lava Reef Act 1.
    pub encore_lava_reef_1: bool,
    /// Encore: Lava Reef Act 2.
    pub encore_lava_reef_2: bool,
    /// Encore: Metallic Madness Act 1.
    pub encore_metallic_madness_1: bool,
    /// Encore: Metallic Madness Act 2.
    pub encore_metallic_madness_2: bool,
    /// Encore: Titanic Monarch Act 1.
    pub encore_titanic_monarch_1: bool,
    /// Encore: Titanic Monarch Act 2.
    pub encore_titanic_monarch_2: bool,
}

impl Settings {
    /// The switch of a zone.
    pub open spec fn flag_of(self, zone: Zone) -> bool {
        match zone {
            Zone::GreenHill1 => self.green_hill_1,
            Zone::GreenHill2 => self.green_hill_2,
            Zone::ChemicalPlant1 => self.chemical_plant_1,
            Zone::ChemicalPlant2 => self.chemical_plant_2,
            Zone::Studiopolis1 => self.studiopolis_1,
            Zone::Studiopolis2 => self.studiopolis_2,
            Zone::FlyingBattery1 => self.flying_battery_1,
            Zone::FlyingBattery2 => self.flying_battery_2,
            Zone::PressGarden1 => self.press_garden_1,
            Zone::PressGarden2 => self.press_garden_2,
            Zone::StardustSpeedway1 => self.stardust_speedway_1,
            Zone::StardustSpeedway2 => self.stardust_speedway_2,
            Zone::Hydrocity1 => self.hydrocity_1,
            Zone::Hydrocity2 => self.hydrocity_2,
            Zone::MirageSaloon1 => self.mirage_saloon_1,
            Zone::MirageSaloon2 => self.mirage_saloon_2,
            Zone::OilOcean1 => self.oil_ocean_1,
            Zone::OilOcean2 => self.oil_ocean_2,
            Zone::LavaReef1 => self.lava_reef_1,
            Zone::LavaReef2 => self.lava_reef_2,
            Zone::MetallicMadness1 => self.metallic_madness_1,
            Zone::MetallicMadness2 => self.metallic_madness_2,
            Zone::TitanicMonarch1 => self.titanic_monarch_1,
            Zone::TitanicMonarch2 => self.titanic_monarch_2,
            Zone::EggReverie => self.egg_reverie,
            Zone::EncoreAngelIsland => self.angel_island,
            Zone::EncoreGreenHill1 => self.encore_green_hill_1,
            Zone::EncoreGreenHill2 => self.encore_green_hill_2,
            Zone::EncoreChemicalPlant1 => self.encore_chemical_plant_1,
            Zone::EncoreChemicalPlant2 => self.encore_chemical_plant_2,
            Zone::EncoreStudiopolis1 => self.encore_studiopolis_1,
            Zone::EncoreStudiopolis2 => self.encore_studiopolis_2,
            Zone::EncoreFlyingBattery1 => self.encore_flying_battery_1,
            Zone::EncoreFlyingBattery2 => self.encore_flying_battery_2,
            Zone::EncorePressGarden1 => self.encore_press_garden_1,
            Zone::EncorePressGarden2 => self.encore_press_garden_2,
            Zone::EncoreStardustSpeedway1 => self.encore_stardust_speedway_1,
            Zone::EncoreStardustSpeedway2 => self.encore_stardust_speedway_2,
            Zone::EncoreHydrocity1 => self.encore_hydrocity_1,
            Zone::EncoreHydrocity2 => self.encore_hydrocity_2,
            Zone::EncoreMirageSaloon1 => self.encore_mirage_saloon_1,
            Zone::EncoreMirageSaloon2 => self.encore_mirage_saloon_2,
            Zone::EncoreOilOcean1 => self.encore_oil_ocean_1,
            Zone::EncoreOilOcean2 => self.encore_oil_ocean_2,
            Zone::EncoreLavaReef1 => self.encore_lava_reef_1,
            Zone::EncoreLavaReef2 => self.encore_lava_reef_2,
            Zone::EncoreMetallicMadness1 => self.encore_metallic_madness_1,
            Zone::EncoreMetallicMadness2 => self.encore_metallic_madness_2,
            Zone::EncoreTitanicMonarch1 => self.encore_titanic_monarch_1,
            Zone::EncoreTitanicMonarch2 => self.encore_titanic_monarch_2,
        }
    }

    /// Tells whether the switch of `zone` is on.
    pub fn enabled(&self, zone: Zone) -> (on: bool)
        ensures
            on == self.flag_of(zone),
    {
        match zone {
            Zone::GreenHill1 => self.green_hill_1,
            Zone::GreenHill2 => self.green_hill_2,
            Zone::ChemicalPlant1 => self.chemical_plant_1,
            Zone::ChemicalPlant2 => self.chemical_plant_2,
            Zone::Studiopolis1 => self.studiopolis_1,
            Zone::Studiopolis2 => self.studiopolis_2,
            Zone::FlyingBattery1 => self.flying_battery_1,
            Zone::FlyingBattery2 => self.flying_battery_2,
            Zone::PressGarden1 => self.press_garden_1,
            Zone::PressGarden2 => self.press_garden_2,
            Zone::StardustSpeedway1 => self.stardust_speedway_1,
            Zone::StardustSpeedway2 => self.stardust_speedway_2,
            Zone::Hydrocity1 => self.hydrocity_1,
            Zone::Hydrocity2 => self.hydrocity_2,
            Zone::MirageSaloon1 => self.mirage_saloon_1,
            Zone::MirageSaloon2 => self.mirage_saloon_2,
            Zone::OilOcean1 => self.oil_ocean_1,
            Zone::OilOcean2 => self.oil_ocean_2,
            Zone::LavaReef1 => self.lava_reef_1,
            Zone::LavaReef2 => self.lava_reef_2,
            Zone::MetallicMadness1 => self.metallic_madness_1,
            Zone::MetallicMadness2 => self.metallic_madness_2,
            Zone::TitanicMonarch1 => self.titanic_monarch_1,
            Zone::TitanicMonarch2 => self.titanic_monarch_2,
            Zone::EggReverie => self.egg_reverie,
            Zone::EncoreAngelIsland => self.angel_island,
            Zone::EncoreGreenHill1 => self.encore_green_hill_1,
            Zone::EncoreGreenHill2 => self.encore_green_hill_2,
            Zone::EncoreChemicalPlant1 => self.encore_chemical_plant_1,
            Zone::EncoreChemicalPlant2 => self.encore_chemical_plant_2,
            Zone::EncoreStudiopolis1 => self.encore_studiopolis_1,
            Zone::EncoreStudiopolis2 => self.encore_studiopolis_2,
            Zone::EncoreFlyingBattery1 => self.encore_flying_battery_1,
            Zone::EncoreFlyingBattery2 => self.encore_flying_battery_2,
            Zone::EncorePressGarden1 => self.encore_press_garden_1,
            Zone::EncorePressGarden2 => self.encore_press_garden_2,
            Zone::EncoreStardustSpeedway1 => self.encore_stardust_speedway_1,
            Zone::EncoreStardustSpeedway2 => self.encore_stardust_speedway_2,
            Zone::EncoreHydrocity1 => self.encore_hydrocity_1,
            Zone::EncoreHydrocity2 => self.encore_hydrocity_2,
            Zone::EncoreMirageSaloon1 => self.encore_mirage_saloon_1,
            Zone::EncoreMirageSaloon2 => self.encore_mirage_saloon_2,
            Zone::EncoreOilOcean1 => self.encore_oil_ocean_1,
            Zone::EncoreOilOcean2 => self.encore_oil_ocean_2,
            Zone::EncoreLavaReef1 => self.encore_lava_reef_1,
            Zone::EncoreLavaReef2 => self.encore_lava_reef_2,
            Zone::EncoreMetallicMadness1 => self.encore_metallic_madness_1,
            Zone::EncoreMetallicMadness2 => self.encore_metallic_madness_2,
            Zone::EncoreTitanicMonarch1 => self.encore_titanic_monarch_1,
            Zone::EncoreTitanicMonarch2 => self.encore_titanic_monarch_2,
        }
    }
}

impl Default for Settings {
    /// Every switch is on but the reset on the developer menu.
    fn default() -> (settings: Settings)
        ensures
            settings.start_mania_mode,
            settings.start_encore_mode,
            settings.reset_save_select,
            !settings.reset_dev_menu,
            forall|zone: Zone| settings.flag_of(zone),
    {
        Settings {
            start_mania_mode: true,
            start_encore_mode: true,
            reset_save_select: true,
            reset_dev_menu: false,
            green_hill_1: true,
            green_hill_2: true,
            chemical_plant_1: true,
            chemical_plant_2: true,
            studiopolis_1: true,
            studiopolis_2: true,
            flying_battery_1: true,
            flying_battery_2: true,
            press_garden_1: true,
            press_garden_2: true,
            stardust_speedway_1: true,
            stardust_speedway_2: true,
            hydrocity_1: true,
            hydrocity_2: true,
            mirage_saloon_1: true,
            mirage_saloon_2: true,
            oil_ocean_1: true,
            oil_ocean_2: true,
            lava_reef_1: true,
            lava_reef_2: true,
            metallic_madness_1: true,
            metallic_madness_2: true,
            titanic_monarch_1: true,
            titanic_monarch_2: true,
            egg_reverie: true,
            angel_island: true,
            encore_green_hill_1: true,
            encore_green_hill_2: true,
            encore_chemical_plant_1: true,
            encore_chemical_plant_2: true,
            encore_studiopolis_1: true,
            encore_studiopolis_2: true,
            encore_flying_battery_1: true,
            encore_flying_battery_2: true,
            encore_press_garden_1: true,
            encore_press_garden_2: true,
            encore_stardust_speedway_1: true,
            encore_stardust_speedway_2: true,
            encore_hydrocity_1: true,
            encore_hydrocity_2: true,
            encore_mirage_saloon_1: true,
            encore_mirage_saloon_2: true,
            encore_oil_ocean_1: true,
            encore_oil_ocean_2: true,
            encore_lava_reef_1: true,
            encore_lava_reef_2: true,
            encore_metallic_madness_1: true,
            encore_metallic_madness_2: true,
            encore_titanic_monarch_1: true,
            encore_titanic_monarch_2: true,
        }
    }
}

} // verus!
