use character_sheet::cells::CellBlock;
use character_sheet::config::{ConfigClient, FieldConfig, FieldConfigEntry};
use character_sheet::decode::{
    extract_flaws, extract_merits, get_disciplines, get_health_track,
    get_non_physical_defense_pool, get_rituals, get_skill_specialization, get_value_u8,
    get_value_vec,
};
use character_sheet::encode::{
    combine_merits_and_flaws, set_backgrounds, set_disciplines, set_rituals,
    set_skill_specialization, set_value_u8, set_value_vec,
};
use character_sheet::fields::{FieldId, TranscodeError};
use character_sheet::model::{
    BackgroundUpdateInput, DisciplineUpdateInput, FlawUpdateInput, Generation, MeritUpdateInput,
    PlayerCharacter, PlayerCharacterUpdateInput, RitualUpdateInput, SkillUpdateInput,
    SkillsUpdateInput,
};

fn s(x: &str) -> String {
    x.to_string()
}

fn row(cells: &[&str]) -> Vec<String> {
    cells.iter().map(|c| c.to_string()).collect()
}

fn scalar_block(text: &str) -> Vec<Vec<String>> {
    vec![vec![text.to_string()]]
}

fn empty_update() -> PlayerCharacterUpdateInput {
    PlayerCharacterUpdateInput {
        character_name: None,
        player_name: None,
        archetype: None,
        generation: None,
        clan: None,
        attributes: None,
        skills: None,
        powers: None,
        morality: None,
        faction: None,
        merits: None,
        flaws: None,
        backgrounds: None,
        experience_information: None,
        rituals: None,
    }
}

fn pos_of(cfg: &ConfigClient, id: FieldId) -> usize {
    cfg.get_field_config(id).unwrap().position as usize
}

fn set_block(batch: &mut Vec<CellBlock>, cfg: &ConfigClient, id: FieldId, rows: Vec<Vec<String>>) {
    let p = pos_of(cfg, id);
    batch[p] = CellBlock {
        range: cfg.get_field_config(id).unwrap().range,
        values: Some(rows),
    };
}

/// A batch with every mandatory block in its configured shape and a handful
/// of recognizable values.
fn full_batch(cfg: &ConfigClient) -> Vec<CellBlock> {
    let mut batch: Vec<CellBlock> = (0..82)
        .map(|_| CellBlock { range: String::new(), values: None })
        .collect();
    set_block(&mut batch, cfg, FieldId::CharacterName, scalar_block("Testchar"));
    set_block(&mut batch, cfg, FieldId::PlayerName, scalar_block("Alice"));
    set_block(&mut batch, cfg, FieldId::VersionSheet, scalar_block("v3"));
    set_block(&mut batch, cfg, FieldId::Archetype, scalar_block("Survivor"));
    set_block(&mut batch, cfg, FieldId::Generation, scalar_block("10"));
    set_block(&mut batch, cfg, FieldId::Clan, scalar_block("Brujah"));
    set_block(&mut batch, cfg, FieldId::BloodPerTurn, scalar_block("3"));
    set_block(&mut batch, cfg, FieldId::BloodPool, scalar_block("15"));
    set_block(&mut batch, cfg, FieldId::AttributePhysicalValue, scalar_block("7"));
    set_block(&mut batch, cfg, FieldId::AttributeSocialValue, scalar_block("5"));
    set_block(&mut batch, cfg, FieldId::AttributeMentalValue, scalar_block("4"));
    set_block(
        &mut batch,
        cfg,
        FieldId::AttributePhysicalFoci,
        vec![row(&["Strength"]), row(&["-"])],
    );
    set_block(&mut batch, cfg, FieldId::SkillAcademics, scalar_block("3"));
    set_block(
        &mut batch,
        cfg,
        FieldId::SkillAcademicsSpecialization,
        scalar_block("History, Law"),
    );
    set_block(&mut batch, cfg, FieldId::SkillBrawl, scalar_block("4"));
    // disciplines: one real row, then sentinel rows up to the window of 6
    let mut disc = vec![row(&["Animalism", "", "", "", "", "", "", "3"])];
    for _ in 0..5 {
        disc.push(row(&["-"]));
    }
    set_block(&mut batch, cfg, FieldId::InClanDisciplines, disc);
    set_block(
        &mut batch,
        cfg,
        FieldId::OutOfClanDisciplines,
        (0..6).map(|_| row(&["-"])).collect(),
    );
    set_block(&mut batch, cfg, FieldId::Techniques, vec![row(&["Lance"]), row(&["-"])]);
    set_block(&mut batch, cfg, FieldId::MoralityName, scalar_block("Humanity"));
    set_block(&mut batch, cfg, FieldId::MoralityValue, scalar_block("6"));
    set_block(&mut batch, cfg, FieldId::FactionName, scalar_block("Anarchs"));
    // merits/flaws: the two documented rows, then sentinels up to 7
    let mut mf = vec![
        row(&["V Strong Back", "", "", "", "", "", "", "2"]),
        row(&["N Addiction: Blood", "", "", "", "", "", "", "-1"]),
    ];
    for _ in 0..5 {
        mf.push(row(&["-"]));
    }
    set_block(&mut batch, cfg, FieldId::MeritsFlaws, mf);
    // backgrounds: one entry, blanks up to 9
    let mut bg = vec![row(&["Allies", "", "", "", "", "", "", "3", "", "Good friends"])];
    for _ in 0..8 {
        bg.push(row(&[""]));
    }
    set_block(&mut batch, cfg, FieldId::Backgrounds, bg);
    set_block(&mut batch, cfg, FieldId::ExperienceStart, scalar_block("30"));
    set_block(&mut batch, cfg, FieldId::ExperienceSpentTotal, scalar_block("900"));
    set_block(&mut batch, cfg, FieldId::ExperienceAvailable, scalar_block("-50"));
    set_block(&mut batch, cfg, FieldId::ExperienceReceivedTotal, scalar_block("45"));
    set_block(&mut batch, cfg, FieldId::Initiative, scalar_block("9"));
    set_block(&mut batch, cfg, FieldId::InitiativeWithCelerity, scalar_block("11"));
    let health = vec![row(&["x", "x", "-", "-", "-", "5", "-", "7"])];
    set_block(&mut batch, cfg, FieldId::HealthHealthy, health.clone());
    set_block(&mut batch, cfg, FieldId::HealthInjured, health.clone());
    set_block(&mut batch, cfg, FieldId::HealthIncapacitated, health);
    set_block(&mut batch, cfg, FieldId::PhysicalDefenseBase, scalar_block("8"));
    set_block(&mut batch, cfg, FieldId::PhysicalDefenseWithCelerity, scalar_block("10"));
    set_block(&mut batch, cfg, FieldId::PhysicalDefenseFrenzyModifier, scalar_block("-2"));
    set_block(&mut batch, cfg, FieldId::PhysicalDefenseGroundClose, scalar_block("-1"));
    set_block(&mut batch, cfg, FieldId::PhysicalDefenseGroundFar, scalar_block("2"));
    set_block(&mut batch, cfg, FieldId::PhysicalDefenseSpecial, scalar_block("0"));
    let pool = vec![row(&["1", "9", "2", "3", "4", "5", "6", "7", "8"])];
    set_block(&mut batch, cfg, FieldId::SocialDefense, pool.clone());
    set_block(&mut batch, cfg, FieldId::MentalDefense, pool);
    // offense: one kept row plus filler rows, each reaching the pool column
    let mut off = vec![row(&[
        "Brawl", "", "", "", "", "", "", "4", "", "", "Physical", "", "", "", "3", "", "", "-", "",
        "", "", "", "", "", "7", "", "Bar fight",
    ])];
    for _ in 0..23 {
        let mut filler = vec![s("-")];
        for _ in 0..9 {
            filler.push(s(""));
        }
        filler.push(s("-"));
        for _ in 0..14 {
            filler.push(s(""));
        }
        off.push(filler);
    }
    set_block(&mut batch, cfg, FieldId::OffensePools, off);
    // rituals: the documented cell, fillers up to 15
    let mut rit = vec![row(&["T2Blood Rage", "", "", "", "", "", "", "2"])];
    for _ in 0..14 {
        rit.push(row(&["-", "", "", "", "", "", "", "0"]));
    }
    set_block(&mut batch, cfg, FieldId::Rituals, rit);
    let item = vec![row(&[
        "Sword", "", "", "", "", "Sharp", "", "", "", "Cuts deep", "", "", "", "Heavy", "", "", "",
        "Slow", "", "", "", "Runed", "", "", "", "Glows",
    ])];
    set_block(&mut batch, cfg, FieldId::Items, item);
    batch
}

#[test]
fn registry_has_every_field_sorted() {
    let cfg = ConfigClient::new();
    assert_eq!(cfg.settings.sheet_field.len(), 83);
    let sorted = cfg.get_field_config_sorted();
    assert_eq!(sorted.len(), 82);
    for i in 1..sorted.len() {
        assert!(sorted[i - 1].position <= sorted[i].position);
    }
    for e in &sorted {
        assert!(e.exclude_on_read != Some(true));
    }
    assert_eq!(pos_of(&cfg, FieldId::CharacterName), 0);
}

#[test]
fn registry_unknown_field_reported() {
    let cfg = ConfigClient { settings: FieldConfig { sheet_field: Vec::new() } };
    match cfg.get_field_config(FieldId::BloodPool) {
        Err(TranscodeError::UnknownField(FieldId::BloodPool)) => {}
        other => panic!("expected UnknownField, got {:?}", other),
    }
}

#[test]
fn p1_u8_round_trip_nonzero() {
    let cfg = ConfigClient::new();
    let block = set_value_u8(Some(7), FieldId::BloodPool, &cfg).unwrap().unwrap();
    assert_eq!(block.values.as_ref().unwrap()[0][0], "7");
    let mut batch = full_batch(&cfg);
    batch[pos_of(&cfg, FieldId::BloodPool)] = block;
    assert_eq!(get_value_u8(&batch, FieldId::BloodPool, &cfg).unwrap(), 7);
}

#[test]
fn p1_zero_round_trips_through_sentinel() {
    let cfg = ConfigClient::new();
    let block = set_value_u8(Some(0), FieldId::BloodPool, &cfg).unwrap().unwrap();
    assert_eq!(block.values.as_ref().unwrap()[0][0], "-");
    let mut batch = full_batch(&cfg);
    batch[pos_of(&cfg, FieldId::BloodPool)] = block;
    assert_eq!(get_value_u8(&batch, FieldId::BloodPool, &cfg).unwrap(), 0);
}

#[test]
fn p2_encode_is_idempotent() {
    let cfg = ConfigClient::new();
    let make = || PlayerCharacterUpdateInput {
        character_name: Some(s("Testchar")),
        faction: Some(s("Anarchs")),
        merits: Some(vec![MeritUpdateInput { name: s("Strong Back"), merit_type: s("General") }]),
        rituals: Some(vec![RitualUpdateInput {
            name: s("Blood Rage"),
            level: 2,
            ritual_type: s("Thaumaturgy"),
        }]),
        skills: Some(SkillsUpdateInput {
            academics: Some(SkillUpdateInput {
                value: Some(3),
                foci: Some(vec![s("History"), s("Law")]),
            }),
            athletics: None,
            animal_ken: None,
            awareness: None,
            brawl: None,
            computer: None,
            craft_a: None,
            craft_b: None,
            dodge: None,
            drive: None,
            empathy: None,
            firearms: None,
            intimidation: None,
            investigation: None,
            leadership: None,
            linguistics: None,
            lore: None,
            medicine: None,
            melee: None,
            occult: None,
            performance_a: None,
            performance_b: None,
            security: None,
            science_a: None,
            science_b: None,
            stealth: None,
            streetwise: None,
            subterfuge: None,
            survival: None,
        }),
        ..empty_update()
    };
    let a = make().encode(&cfg).unwrap();
    let b = make().encode(&cfg).unwrap();
    assert_eq!(a, b);
}

#[test]
fn p3_padding_to_fixed_row_count() {
    let cfg = ConfigClient::new();
    let entries = vec![
        DisciplineUpdateInput { name: s("Animalism"), value: 3 },
        DisciplineUpdateInput { name: s("Potence"), value: 0 },
    ];
    let block =
        set_disciplines(Some(&entries), FieldId::InClanDisciplines, &cfg).unwrap().unwrap();
    let rows = block.values.unwrap();
    assert_eq!(rows.len(), 6);
    assert_eq!(rows[0][0], "Animalism");
    assert_eq!(rows[0][7], "3");
    assert_eq!(rows[1][0], "Potence");
    assert_eq!(rows[1][7], "-");
    for k in 2..6 {
        assert_eq!(rows[k][0], "-");
        assert_eq!(rows[k][7], "-");
    }
}

#[test]
fn p4_merit_flaw_split() {
    let input = vec![
        row(&["V Strong Back", "", "", "", "", "", "", "2"]),
        row(&["N Addiction: Blood", "", "", "", "", "", "", "-1"]),
        row(&["-"]),
        row(&["-"]),
        row(&["-"]),
        row(&["-"]),
        row(&["-"]),
    ];
    let merits = extract_merits(&input, 7).unwrap();
    let flaws = extract_flaws(&input, 7).unwrap();
    assert_eq!(merits.len(), 1);
    assert_eq!(merits[0].name, "Strong Back");
    assert_eq!(merits[0].merit_type, "General");
    assert_eq!(merits[0].value, 2);
    assert_eq!(flaws.len(), 1);
    // the cell reads "N <type>: <name>", so the type segment precedes the name
    assert_eq!(flaws[0].flaw_type, "Addiction");
    assert_eq!(flaws[0].name, "Blood");
    assert_eq!(flaws[0].value, -1);
}

#[test]
fn p5_ritual_decode() {
    let cfg = ConfigClient::new();
    let batch = full_batch(&cfg);
    let rituals = get_rituals(&batch, FieldId::Rituals, &cfg).unwrap();
    assert_eq!(rituals.len(), 1);
    assert_eq!(rituals[0].ritual_type, "Thaumaturgy");
    assert_eq!(rituals[0].level, 2);
    assert_eq!(rituals[0].name, "Blood Rage");
}

#[test]
fn p5_ritual_unknown_letter() {
    let cfg = ConfigClient::new();
    let mut batch = full_batch(&cfg);
    let mut rit = vec![row(&["X3Chains", "", "", "", "", "", "", "3"])];
    for _ in 0..14 {
        rit.push(row(&["-", "", "", "", "", "", "", "0"]));
    }
    set_block(&mut batch, &cfg, FieldId::Rituals, rit);
    let rituals = get_rituals(&batch, FieldId::Rituals, &cfg).unwrap();
    assert_eq!(rituals[0].ritual_type, "Unbekannt");
    assert_eq!(rituals[0].name, "Chains");
}

#[test]
fn p6_health_track_loss_window() {
    let cfg = ConfigClient::new();
    let batch = full_batch(&cfg);
    let track = get_health_track(&batch, FieldId::HealthHealthy, &cfg).unwrap();
    assert_eq!(track.base_value, 5);
    assert_eq!(track.with_boni, 7);
    assert_eq!(track.remaining, 5);
}

#[test]
fn p6_health_track_clamps_at_zero() {
    let cfg = ConfigClient::new();
    let mut batch = full_batch(&cfg);
    set_block(
        &mut batch,
        &cfg,
        FieldId::HealthHealthy,
        vec![row(&["x", "x", "x", "x", "x", "6", "-", "3"])],
    );
    let track = get_health_track(&batch, FieldId::HealthHealthy, &cfg).unwrap();
    assert_eq!(track.with_boni, 3);
    assert_eq!(track.remaining, 0);
}

#[test]
fn p7_validity_threshold() {
    let cfg = ConfigClient::new();
    let mut batch = full_batch(&cfg);
    let c = PlayerCharacter::decode(&batch, &cfg).unwrap();
    assert_eq!(c.experience_information.spent_total, 900);
    assert!(c.valid);
    set_block(&mut batch, &cfg, FieldId::ExperienceSpentTotal, scalar_block("901"));
    let c = PlayerCharacter::decode(&batch, &cfg).unwrap();
    assert!(!c.valid);
}

#[test]
fn p8_end_to_end_decode() {
    let cfg = ConfigClient::new();
    let batch = full_batch(&cfg);
    let c = PlayerCharacter::decode(&batch, &cfg).unwrap();
    assert_eq!(c.character_name, "Testchar");
    assert_eq!(c.player_name, "Alice");
    assert_eq!(c.version_sheet, "v3");
    assert_eq!(c.generation, Generation::Numeric(10));
    assert_eq!(c.clan, "Brujah");
    assert_eq!(c.blood_per_turn, 3);
    assert_eq!(c.blood_pool, 15);
    assert_eq!(c.attributes.physical.value, 7);
    assert_eq!(c.attributes.physical.foci, vec![s("Strength")]);
    assert_eq!(c.attributes.social.foci, Vec::<String>::new());
    assert_eq!(c.skills.academics.value, 3);
    assert_eq!(c.skills.academics.foci, Some(vec![s("History"), s("Law")]));
    assert_eq!(c.skills.brawl.value, 4);
    assert_eq!(c.skills.brawl.foci, None);
    assert_eq!(c.powers.in_clan_disciplines.len(), 1);
    assert_eq!(c.powers.in_clan_disciplines[0].name, "Animalism");
    assert_eq!(c.powers.in_clan_disciplines[0].value, 3);
    assert!(c.powers.out_of_clan_disciplines.is_empty());
    assert_eq!(c.powers.techniques, vec![s("Lance")]);
    assert_eq!(c.morality.name, "Humanity");
    assert_eq!(c.morality.value, 6);
    assert_eq!(c.faction, "Anarchs");
    assert_eq!(c.merits.len(), 1);
    assert_eq!(c.flaws.len(), 1);
    assert_eq!(c.backgrounds.len(), 1);
    assert_eq!(c.backgrounds[0].name, "Allies");
    assert_eq!(c.backgrounds[0].value, 3);
    assert_eq!(c.backgrounds[0].description, "Good friends");
    assert_eq!(c.experience_information.start_value, 30);
    assert_eq!(c.experience_information.available, -50);
    assert_eq!(c.experience_information.received_total, 45);
    assert_eq!(c.battle_information.base.initiative, 9);
    assert_eq!(c.battle_information.base.health.healthy.remaining, 5);
    assert_eq!(
        c.battle_information.defense.physical_defense_pool.frenzy_modifier,
        -2
    );
    assert_eq!(
        c.battle_information.defense.social_defense_pool.get(&0),
        Some(&1)
    );
    assert_eq!(
        c.battle_information.defense.social_defense_pool.get(&1),
        Some(&2)
    );
    assert_eq!(
        c.battle_information.defense.social_defense_pool.get(&7),
        Some(&8)
    );
    assert_eq!(c.battle_information.offense.len(), 1);
    assert_eq!(c.battle_information.offense[0].skill.name, "Brawl");
    assert_eq!(c.battle_information.offense[0].skill.value, 4);
    assert_eq!(c.battle_information.offense[0].attribute.name, "Physical");
    assert_eq!(c.battle_information.offense[0].attribute.value, 3);
    assert_eq!(c.battle_information.offense[0].pool, 7);
    assert_eq!(c.battle_information.offense[0].description, "Bar fight");
    assert_eq!(c.rituals.len(), 1);
    assert_eq!(c.items.len(), 1);
    assert_eq!(c.items[0].name, "Sword");
    assert_eq!(c.items[0].trait_1, "Sharp");
    assert_eq!(c.items[0].additional_trait_description, "Glows");
}

#[test]
fn p8_faction_only_update_targets_one_range() {
    let cfg = ConfigClient::new();
    let update = PlayerCharacterUpdateInput { faction: Some(s("Camarilla")), ..empty_update() };
    let blocks = update.encode(&cfg).unwrap();
    assert_eq!(blocks.len(), 1);
    assert_eq!(blocks[0].range, cfg.get_field_config(FieldId::FactionName).unwrap().range);
    assert_eq!(blocks[0].values.as_ref().unwrap(), &vec![vec![s("Camarilla")]]);
}

#[test]
fn decode_missing_block_is_reported() {
    let cfg = ConfigClient::new();
    let batch: Vec<CellBlock> = Vec::new();
    match PlayerCharacter::decode(&batch, &cfg) {
        Err(TranscodeError::MissingMandatoryBlock(FieldId::CharacterName)) => {}
        other => panic!("expected MissingMandatoryBlock, got {:?}", other),
    }
}

#[test]
fn decode_short_mandatory_block_is_reported() {
    let cfg = ConfigClient::new();
    let mut batch = full_batch(&cfg);
    set_block(&mut batch, &cfg, FieldId::InClanDisciplines, vec![row(&["-"])]);
    match PlayerCharacter::decode(&batch, &cfg) {
        Err(TranscodeError::MissingMandatoryBlock(FieldId::InClanDisciplines)) => {}
        other => panic!("expected MissingMandatoryBlock, got {:?}", other),
    }
}

#[test]
fn encode_over_capacity_is_reported() {
    let cfg = ConfigClient::new();
    let entries: Vec<DisciplineUpdateInput> = (0..7)
        .map(|i| DisciplineUpdateInput { name: format!("D{}", i), value: 1 })
        .collect();
    match set_disciplines(Some(&entries), FieldId::InClanDisciplines, &cfg) {
        Err(TranscodeError::OverCapacity(FieldId::InClanDisciplines)) => {}
        other => panic!("expected OverCapacity, got {:?}", other),
    }
}

#[test]
fn scalar_defaults_on_malformed_input() {
    let cfg = ConfigClient::new();
    let mut batch = full_batch(&cfg);
    set_block(&mut batch, &cfg, FieldId::BloodPool, scalar_block("lots"));
    assert_eq!(get_value_u8(&batch, FieldId::BloodPool, &cfg).unwrap(), 0);
    set_block(&mut batch, &cfg, FieldId::BloodPool, scalar_block("300"));
    assert_eq!(get_value_u8(&batch, FieldId::BloodPool, &cfg).unwrap(), 0);
    set_block(&mut batch, &cfg, FieldId::BloodPool, scalar_block("+12"));
    assert_eq!(get_value_u8(&batch, FieldId::BloodPool, &cfg).unwrap(), 12);
    set_block(&mut batch, &cfg, FieldId::BloodPool, scalar_block("-"));
    assert_eq!(get_value_u8(&batch, FieldId::BloodPool, &cfg).unwrap(), 0);
}

#[test]
fn generation_falls_back_to_text() {
    let cfg = ConfigClient::new();
    let mut batch = full_batch(&cfg);
    set_block(&mut batch, &cfg, FieldId::Generation, scalar_block("Methusalem"));
    let c = PlayerCharacter::decode(&batch, &cfg).unwrap();
    assert_eq!(c.generation, Generation::Text(s("Methusalem")));
}

#[test]
fn column_list_drops_sentinels() {
    let cfg = ConfigClient::new();
    let mut batch = full_batch(&cfg);
    set_block(
        &mut batch,
        &cfg,
        FieldId::Techniques,
        vec![row(&["A"]), row(&["-"]), row(&["B"])],
    );
    assert_eq!(
        get_value_vec(&batch, FieldId::Techniques, &cfg).unwrap(),
        vec![s("A"), s("B")]
    );
}

#[test]
fn specialization_split_trims_and_drops_sentinels() {
    let cfg = ConfigClient::new();
    let mut batch = full_batch(&cfg);
    set_block(
        &mut batch,
        &cfg,
        FieldId::SkillAcademicsSpecialization,
        scalar_block("Fire,  Ice , -"),
    );
    assert_eq!(
        get_skill_specialization(&batch, FieldId::SkillAcademicsSpecialization, &cfg).unwrap(),
        Some(vec![s("Fire"), s("Ice")])
    );
    set_block(&mut batch, &cfg, FieldId::SkillAcademicsSpecialization, scalar_block("-"));
    assert_eq!(
        get_skill_specialization(&batch, FieldId::SkillAcademicsSpecialization, &cfg).unwrap(),
        Some(Vec::new())
    );
}

#[test]
fn specialization_encode_joins_and_uses_sentinel_when_empty() {
    let cfg = ConfigClient::new();
    let tags = vec![s("Fire"), s("Ice")];
    let block =
        set_skill_specialization(Some(&tags), FieldId::SkillAcademicsSpecialization, &cfg)
            .unwrap()
            .unwrap();
    assert_eq!(block.values.unwrap()[0][0], "Fire, Ice");
    let none: Vec<String> = Vec::new();
    let block =
        set_skill_specialization(Some(&none), FieldId::SkillAcademicsSpecialization, &cfg)
            .unwrap()
            .unwrap();
    assert_eq!(block.values.unwrap()[0][0], "-");
}

#[test]
fn merit_flaw_encode_rules() {
    let cfg = ConfigClient::new();
    let merits = vec![
        MeritUpdateInput { name: s("Strong Back"), merit_type: s("General") },
        MeritUpdateInput { name: s("Iron Will"), merit_type: s("Generalist") },
        MeritUpdateInput { name: s("Clan Friend"), merit_type: s("General") },
    ];
    let flaws = vec![FlawUpdateInput { name: s("Addiction"), flaw_type: s("Blood") }];
    let block =
        combine_merits_and_flaws(Some(&merits), Some(&flaws), FieldId::MeritsFlawsName, &cfg)
            .unwrap()
            .unwrap();
    let rows = block.values.unwrap();
    assert_eq!(rows.len(), 7);
    assert_eq!(rows[0][0], "V Strong Back");
    // only the literal type "General" drops its segment
    assert_eq!(rows[1][0], "V Generalist: Iron Will");
    // clan-derived merits are exempt from the editable set
    assert_eq!(rows[2][0], "N Blood: Addiction");
    for k in 3..7 {
        assert_eq!(rows[k][0], "-");
    }
}

#[test]
fn ritual_encode_letter_level_name() {
    let cfg = ConfigClient::new();
    let rituals = vec![
        RitualUpdateInput { name: s("Blood Rage"), level: 2, ritual_type: s("Thaumaturgy") },
        RitualUpdateInput { name: s("Bone Path"), level: 1, ritual_type: s("Necromancy") },
        RitualUpdateInput { name: s("Odd One"), level: 3, ritual_type: s("Voodoo") },
    ];
    let block = set_rituals(Some(&rituals), FieldId::Rituals, &cfg).unwrap().unwrap();
    let rows = block.values.unwrap();
    assert_eq!(rows.len(), 15);
    assert_eq!(rows[0][0], "T2Blood Rage");
    assert_eq!(rows[1][0], "N1Bone Path");
    assert_eq!(rows[2][0], "U3Odd One");
    assert_eq!(rows[3][0], "-");
}

#[test]
fn background_encode_rows() {
    let cfg = ConfigClient::new();
    let bgs = vec![BackgroundUpdateInput {
        name: s("Allies"),
        value: 0,
        description: Some(s("Friends")),
    }];
    let block = set_backgrounds(Some(&bgs), FieldId::Backgrounds, &cfg).unwrap().unwrap();
    let rows = block.values.unwrap();
    assert_eq!(rows.len(), 9);
    assert_eq!(rows[0][0], "Allies");
    assert_eq!(rows[0][7], "-");
    assert_eq!(rows[0][9], "Friends");
    assert_eq!(rows[1][7], "-");
    assert_eq!(rows[1][0], "");
}

#[test]
fn techniques_encode_pads_with_blank_marker() {
    let cfg = ConfigClient::new();
    let techniques = vec![s("Lance")];
    let block = set_value_vec(Some(&techniques), FieldId::Techniques, &cfg, Some(""))
        .unwrap()
        .unwrap();
    let rows = block.values.unwrap();
    assert_eq!(rows.len(), 10);
    assert_eq!(rows[0][0], "Lance");
    assert_eq!(rows[1][0], "");
}

#[test]
fn absent_fields_emit_no_blocks() {
    let cfg = ConfigClient::new();
    let blocks = empty_update().encode(&cfg).unwrap();
    assert!(blocks.is_empty());
}

#[test]
fn defense_pool_index_shift() {
    let cfg = ConfigClient::new();
    let batch = full_batch(&cfg);
    let pool = get_non_physical_defense_pool(&batch, FieldId::SocialDefense, &cfg).unwrap();
    assert_eq!(pool.len(), 8);
    // key 0 from column 0; column 1 is skipped; keys 1..7 from columns 2..8
    assert_eq!(pool.get(&0), Some(&1));
    for k in 1u8..8 {
        assert_eq!(pool.get(&k), Some(&(k + 1)));
    }
}

#[test]
fn disciplines_decode_filters_sentinel_rows() {
    let cfg = ConfigClient::new();
    let batch = full_batch(&cfg);
    let discs = get_disciplines(&batch, FieldId::OutOfClanDisciplines, &cfg).unwrap();
    assert!(discs.is_empty());
}

#[test]
fn items_absent_block_is_empty_list() {
    let cfg = ConfigClient::new();
    let mut batch = full_batch(&cfg);
    let p = pos_of(&cfg, FieldId::Items);
    batch[p] = CellBlock { range: String::new(), values: None };
    let c = PlayerCharacter::decode(&batch, &cfg).unwrap();
    assert!(c.items.is_empty());
}

#[test]
fn registry_slots_are_unique_and_dense() {
    let cfg = ConfigClient::new();
    let fields: &Vec<FieldConfigEntry> = &cfg.settings.sheet_field;
    let readable: Vec<&FieldConfigEntry> =
        fields.iter().filter(|e| e.exclude_on_read != Some(true)).collect();
    // readable fields occupy exactly the dense batch positions 0..n
    let mut seen = vec![false; readable.len()];
    for e in &readable {
        let p = e.position as usize;
        assert!(p < readable.len(), "position {} out of range", p);
        assert!(!seen[p], "duplicate position {}", p);
        seen[p] = true;
    }
    // every field identifier is configured exactly once
    for i in 0..fields.len() {
        for j in (i + 1)..fields.len() {
            assert!(fields[i].name != fields[j].name);
        }
    }
    // list-shaped fields carry their fixed row count
    assert_eq!(
        cfg.get_field_config(FieldId::InClanDisciplines).unwrap().range_length,
        Some(6)
    );
    assert_eq!(cfg.get_field_config(FieldId::MeritsFlaws).unwrap().range_length, Some(7));
    assert_eq!(cfg.get_field_config(FieldId::Backgrounds).unwrap().range_length, Some(9));
    assert_eq!(cfg.get_field_config(FieldId::OffensePools).unwrap().range_length, Some(24));
    assert_eq!(cfg.get_field_config(FieldId::Rituals).unwrap().range_length, Some(15));
    // the write-only merit/flaw name column is excluded from reads
    assert_eq!(
        cfg.get_field_config(FieldId::MeritsFlawsName).unwrap().exclude_on_read,
        Some(true)
    );
}
