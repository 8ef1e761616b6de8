use mania_autosplit::settings::Settings;
use mania_autosplit::zone::{is_stable, GameMode, Zone};

const STANDARD: [Zone; 24] = [
    Zone::GreenHill1,
    Zone::GreenHill2,
    Zone::ChemicalPlant1,
    Zone::ChemicalPlant2,
    Zone::Studiopolis1,
    Zone::Studiopolis2,
    Zone::FlyingBattery1,
    Zone::FlyingBattery2,
    Zone::PressGarden1,
    Zone::PressGarden2,
    Zone::StardustSpeedway1,
    Zone::StardustSpeedway2,
    Zone::Hydrocity1,
    Zone::Hydrocity2,
    Zone::MirageSaloon1,
    Zone::MirageSaloon2,
    Zone::OilOcean1,
    Zone::OilOcean2,
    Zone::LavaReef1,
    Zone::LavaReef2,
    Zone::MetallicMadness1,
    Zone::MetallicMadness2,
    Zone::TitanicMonarch1,
    Zone::TitanicMonarch2,
];

const ENCORE: [Zone; 25] = [
    Zone::EncoreAngelIsland,
    Zone::EncoreGreenHill1,
    Zone::EncoreGreenHill2,
    Zone::EncoreChemicalPlant1,
    Zone::EncoreChemicalPlant2,
    Zone::EncoreStudiopolis1,
    Zone::EncoreStudiopolis2,
    Zone::EncoreFlyingBattery1,
    Zone::EncoreFlyingBattery2,
    Zone::EncorePressGarden1,
    Zone::EncorePressGarden2,
    Zone::EncoreStardustSpeedway1,
    Zone::EncoreStardustSpeedway2,
    Zone::EncoreHydrocity1,
    Zone::EncoreHydrocity2,
    Zone::EncoreMirageSaloon1,
    Zone::EncoreMirageSaloon2,
    Zone::EncoreOilOcean1,
    Zone::EncoreOilOcean2,
    Zone::EncoreLavaReef1,
    Zone::EncoreLavaReef2,
    Zone::EncoreMetallicMadness1,
    Zone::EncoreMetallicMadness2,
    Zone::EncoreTitanicMonarch1,
    Zone::EncoreTitanicMonarch2,
];

#[test]
fn game_mode_is_read_from_the_raw_discriminator() {
    assert_eq!(GameMode::from_raw(0), GameMode::Standard);
    assert_eq!(GameMode::from_raw(1), GameMode::Encore);
    assert_eq!(GameMode::from_raw(2), GameMode::Invalid);
    assert_eq!(GameMode::from_raw(255), GameMode::Invalid);
}

#[test]
fn standard_table_maps_every_scene_id() {
    let expected: [(u8, Zone); 33] = [
        (9, Zone::GreenHill1),
        (117, Zone::GreenHill1),
        (119, Zone::GreenHill1),
        (10, Zone::GreenHill2),
        (120, Zone::GreenHill2),
        (11, Zone::ChemicalPlant1),
        (12, Zone::ChemicalPlant2),
        (13, Zone::Studiopolis1),
        (14, Zone::Studiopolis2),
        (15, Zone::FlyingBattery1),
        (16, Zone::FlyingBattery2),
        (17, Zone::PressGarden1),
        (18, Zone::PressGarden2),
        (19, Zone::StardustSpeedway1),
        (122, Zone::StardustSpeedway1),
        (20, Zone::StardustSpeedway2),
        (21, Zone::StardustSpeedway2),
        (22, Zone::Hydrocity1),
        (23, Zone::Hydrocity2),
        (24, Zone::MirageSaloon1),
        (25, Zone::MirageSaloon1),
        (26, Zone::MirageSaloon2),
        (27, Zone::OilOcean1),
        (28, Zone::OilOcean2),
        (29, Zone::LavaReef1),
        (30, Zone::LavaReef2),
        (31, Zone::LavaReef2),
        (32, Zone::MetallicMadness1),
        (33, Zone::MetallicMadness2),
        (34, Zone::TitanicMonarch1),
        (35, Zone::TitanicMonarch2),
        (36, Zone::TitanicMonarch2),
        (37, Zone::EggReverie),
    ];
    for id in 0u8..=255 {
        let want = expected.iter().find(|(raw, _)| *raw == id).map(|(_, zone)| *zone);
        assert_eq!(Zone::standard(id), want, "scene id {}", id);
        assert_eq!(Zone::lookup(GameMode::Standard, id), want, "scene id {}", id);
    }
}

#[test]
fn encore_table_maps_every_scene_id() {
    let expected: [(u8, Zone); 31] = [
        (118, Zone::EncoreAngelIsland),
        (119, Zone::EncoreGreenHill1),
        (38, Zone::EncoreGreenHill1),
        (39, Zone::EncoreGreenHill2),
        (120, Zone::EncoreGreenHill2),
        (40, Zone::EncoreChemicalPlant1),
        (41, Zone::EncoreChemicalPlant2),
        (42, Zone::EncoreStudiopolis1),
        (43, Zone::EncoreStudiopolis2),
        (44, Zone::EncoreFlyingBattery1),
        (45, Zone::EncoreFlyingBattery2),
        (46, Zone::EncorePressGarden1),
        (47, Zone::EncorePressGarden2),
        (48, Zone::EncoreStardustSpeedway1),
        (122, Zone::EncoreStardustSpeedway1),
        (49, Zone::EncoreStardustSpeedway2),
        (50, Zone::EncoreStardustSpeedway2),
        (51, Zone::EncoreHydrocity1),
        (52, Zone::EncoreHydrocity2),
        (53, Zone::EncoreMirageSaloon1),
        (54, Zone::EncoreMirageSaloon2),
        (55, Zone::EncoreOilOcean1),
        (56, Zone::EncoreOilOcean2),
        (57, Zone::EncoreLavaReef1),
        (58, Zone::EncoreLavaReef2),
        (59, Zone::EncoreLavaReef2),
        (60, Zone::EncoreMetallicMadness1),
        (61, Zone::EncoreMetallicMadness2),
        (62, Zone::EncoreTitanicMonarch1),
        (63, Zone::EncoreTitanicMonarch2),
        (64, Zone::EncoreTitanicMonarch2),
    ];
    for id in 0u8..=255 {
        let want = expected.iter().find(|(raw, _)| *raw == id).map(|(_, zone)| *zone);
        assert_eq!(Zone::encore(id), want, "scene id {}", id);
        assert_eq!(Zone::lookup(GameMode::Encore, id), want, "scene id {}", id);
        assert_eq!(Zone::lookup(GameMode::Invalid, id), want, "scene id {}", id);
    }
}

#[test]
fn shared_scene_ids_depend_on_the_mode() {
    assert_eq!(Zone::lookup(GameMode::Standard, 119), Some(Zone::GreenHill1));
    assert_eq!(Zone::lookup(GameMode::Encore, 119), Some(Zone::EncoreGreenHill1));
    assert_eq!(Zone::lookup(GameMode::Standard, 120), Some(Zone::GreenHill2));
    assert_eq!(Zone::lookup(GameMode::Encore, 120), Some(Zone::EncoreGreenHill2));
    assert_eq!(Zone::lookup(GameMode::Standard, 122), Some(Zone::StardustSpeedway1));
    assert_eq!(Zone::lookup(GameMode::Encore, 122), Some(Zone::EncoreStardustSpeedway1));
}

#[test]
fn successors_follow_each_progression() {
    for pair in STANDARD.windows(2) {
        assert_eq!(pair[0].successor(), Some(pair[1]));
        assert!(pair[0].leads_to(pair[1]));
        assert!(!pair[1].leads_to(pair[0]));
        assert!(!pair[0].leads_to(pair[0]));
    }
    for pair in ENCORE.windows(2) {
        assert_eq!(pair[0].successor(), Some(pair[1]));
        assert!(pair[0].leads_to(pair[1]));
    }
    assert_eq!(Zone::TitanicMonarch2.successor(), Some(Zone::EggReverie));
    assert_eq!(Zone::EggReverie.successor(), None);
    assert_eq!(Zone::EncoreTitanicMonarch2.successor(), None);
    assert!(!Zone::EggReverie.leads_to(Zone::EncoreAngelIsland));
}

#[test]
fn status_is_stable_when_running_or_live_with_a_zero_timer() {
    assert!(is_stable(&[2, 0, 1, 2, 3]));
    assert!(is_stable(&[2, 9, 0, 0, 0]));
    assert!(is_stable(&[1, 0, 0, 0, 0]));
    assert!(is_stable(&[1, 77, 0, 0, 0]));
    assert!(is_stable(&[8, 0, 0, 0, 0]));
    assert!(!is_stable(&[0, 0, 0, 0, 0]));
    assert!(!is_stable(&[0, 0, 1, 0, 0]));
    assert!(!is_stable(&[1, 0, 1, 0, 0]));
    assert!(!is_stable(&[1, 0, 0, 1, 0]));
    assert!(!is_stable(&[1, 0, 0, 0, 1]));
    assert!(!is_stable(&[1, 0, 128, 128, 0]));
    assert!(!is_stable(&[3, 0, 255, 1, 0]));
}

#[test]
fn final_scene_is_classified_without_regard_to_status() {
    for status in [[0u8, 0, 0, 0, 0], [1, 0, 5, 5, 5], [2, 0, 0, 0, 0]] {
        for mode in [GameMode::Standard, GameMode::Encore, GameMode::Invalid] {
            assert_eq!(Zone::classify(Zone::LavaReef1, mode, 37, &status), Zone::EggReverie);
        }
    }
}

#[test]
fn unstable_samples_keep_the_zone() {
    assert_eq!(
        Zone::classify(Zone::LavaReef1, GameMode::Standard, 10, &[0, 0, 0, 0, 0]),
        Zone::LavaReef1
    );
    assert_eq!(
        Zone::classify(Zone::LavaReef1, GameMode::Standard, 10, &[1, 0, 0, 3, 0]),
        Zone::LavaReef1
    );
    assert_eq!(
        Zone::classify(Zone::LavaReef1, GameMode::Standard, 10, &[1, 0, 0, 0, 0]),
        Zone::GreenHill2
    );
}

#[test]
fn unmapped_scene_ids_keep_the_zone() {
    for id in [0u8, 1, 2, 3, 8, 65, 116, 121, 200] {
        assert_eq!(
            Zone::classify(Zone::OilOcean2, GameMode::Standard, id, &[2, 0, 0, 0, 0]),
            Zone::OilOcean2
        );
    }
    assert_eq!(
        Zone::classify(Zone::OilOcean2, GameMode::Standard, 40, &[2, 0, 0, 0, 0]),
        Zone::OilOcean2
    );
    assert_eq!(
        Zone::classify(Zone::OilOcean2, GameMode::Encore, 9, &[2, 0, 0, 0, 0]),
        Zone::OilOcean2
    );
}

#[test]
fn repeated_stable_samples_do_not_move_the_zone() {
    let stable = [[2u8, 0, 4, 4, 4], [1, 0, 0, 0, 0]];
    let any = [[2u8, 0, 4, 4, 4], [1, 0, 0, 0, 0], [0, 0, 0, 0, 0], [1, 0, 1, 0, 0]];
    for mode in [GameMode::Standard, GameMode::Encore, GameMode::Invalid] {
        for id in 0u8..=255 {
            for first in stable {
                let once = Zone::classify(Zone::Hydrocity1, mode, id, &first);
                for second in any {
                    assert_eq!(Zone::classify(once, mode, id, &second), once);
                }
            }
        }
    }
}

#[test]
fn default_settings_enable_everything_but_the_developer_reset() {
    let settings = Settings::default();
    assert!(settings.start_mania_mode);
    assert!(settings.start_encore_mode);
    assert!(settings.reset_save_select);
    assert!(!settings.reset_dev_menu);
    for zone in STANDARD.iter().chain(ENCORE.iter()) {
        assert!(settings.enabled(*zone));
    }
    assert!(settings.enabled(Zone::EggReverie));
}

#[test]
fn each_zone_reads_its_own_switch() {
    let mut settings = Settings::default();
    settings.hydrocity_2 = false;
    settings.angel_island = false;
    settings.encore_lava_reef_1 = false;
    settings.egg_reverie = false;
    for zone in STANDARD.iter().chain(ENCORE.iter()).chain([Zone::EggReverie].iter()) {
        let off = matches!(
            zone,
            Zone::Hydrocity2 | Zone::EncoreAngelIsland | Zone::EncoreLavaReef1 | Zone::EggReverie
        );
        assert_eq!(settings.enabled(*zone), !off);
    }
}
