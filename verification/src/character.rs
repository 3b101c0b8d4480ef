//! The character model composer: assembles the full character record from
//! the decoded field values of one batch response, and owns the one
//! cross-field rule, the validity flag from the spent-experience threshold.

use crate::cells::{padded, CellBlock};
use crate::config::{lookup_spec, ConfigClient, FieldConfigEntry};
use crate::decode::{
    bg_shape_ok, bgs_match, disc_shape_ok, discs_match, extract_flaws, extract_merits,
    extract_value_from_vec, flaw_shape_ok, flaws_match, get_attack_pools, get_backgrounds,
    get_disciplines, get_health_track, get_items, get_non_physical_defense_pool, get_rituals,
    get_skill_specialization, get_value_i16, get_value_i8, get_value_string, get_value_u16,
    get_value_u8, get_value_vec, items_match, merit_shape_ok, merits_match, off_shape_ok,
    offs_match, rit_shape_ok, rits_match, spec_block, spec_get_defense_pool,
    spec_get_health_track, spec_get_i16, spec_get_i8, spec_get_skill_tags, spec_get_string,
    spec_get_u16, spec_get_u8, spec_get_value_vec, spec_item_src, spec_window,
};
use crate::encode::{
    bg_pad_row, block_matches, disc_pad_row, enc_bg_rows, enc_disc_rows, enc_flaw_rows,
    enc_merit_rows, enc_rit_rows, enc_scalar_text, enc_tags_text, enc_u8_text,
    combine_merits_and_flaws, set_backgrounds,
    set_disciplines, set_rituals, set_skill_specialization, set_value_string, set_value_u8,
    set_value_vec, spec_pad_cells,
};
use crate::fields::{FieldId, TranscodeError};
use crate::model::{
    Attribute, Attributes, AttributesUpdateInput, BackgroundUpdateInput, BattleBaseInformation,
    BattleDefenseInformation, BattleInformation, DisciplineUpdateInput, ExperienceInformation,
    ExperienceInformationUpdateInput, FlawUpdateInput, Generation, HealthTracks,
    MeritUpdateInput, Morality, MoralityUpdateInput, PhysicalDefensePool, PlayerCharacter,
    PlayerCharacterUpdateInput, Powers, PowersUpdateInput, RitualUpdateInput, Skill, Skills,
    SkillsUpdateInput,
};
use crate::text::{parse_u8_opt, parse_u8_spec, sentinel_seq};
use vstd::prelude::*;

verus! {

/// Keeps the first error of a left-to-right decode chain.
pub open spec fn step_err<T>(
    acc: Option<TranscodeError>,
    r: Result<T, TranscodeError>,
) -> Option<TranscodeError> {
    if acc is Some {
        acc
    } else {
        match r {
            Ok(_) => None,
            Err(e) => Some(e),
        }
    }
}

/// Keeps the first of two optional errors.
pub open spec fn step2(
    acc: Option<TranscodeError>,
    nxt: Option<TranscodeError>,
) -> Option<TranscodeError> {
    if acc is Some {
        acc
    } else {
        nxt
    }
}

/// The decoded generation: the raw cell as a number when it parses, else the
/// raw text itself, for timeless beings.
pub open spec fn generation_matches(g: Generation, raw: Seq<char>) -> bool {
    match g {
        Generation::Numeric(v) => parse_u8_spec(raw) == Some(v),
        Generation::Text(s) => parse_u8_spec(raw) is None && s@ == raw,
    }
}

pub open spec fn identity_err(b: Seq<CellBlock>, f: Seq<FieldConfigEntry>) -> Option<
    TranscodeError,
> {
    let a = step_err(None, spec_get_string(b, f, FieldId::CharacterName));
    let a = step_err(a, spec_get_string(b, f, FieldId::PlayerName));
    let a = step_err(a, spec_get_string(b, f, FieldId::VersionSheet));
    let a = step_err(a, spec_get_string(b, f, FieldId::Archetype));
    let a = step_err(a, spec_get_string(b, f, FieldId::Generation));
    let a = step_err(a, spec_get_string(b, f, FieldId::Clan));
    let a = step_err(a, spec_get_u8(b, f, FieldId::BloodPerTurn));
    let a = step_err(a, spec_get_u8(b, f, FieldId::BloodPool));
    a
}

pub open spec fn identity_match(
    c: PlayerCharacter,
    b: Seq<CellBlock>,
    f: Seq<FieldConfigEntry>,
) -> bool {
    &&& c.character_name@ == spec_get_string(b, f, FieldId::CharacterName)->Ok_0
    &&& c.player_name@ == spec_get_string(b, f, FieldId::PlayerName)->Ok_0
    &&& c.version_sheet@ == spec_get_string(b, f, FieldId::VersionSheet)->Ok_0
    &&& c.archetype@ == spec_get_string(b, f, FieldId::Archetype)->Ok_0
    &&& generation_matches(c.generation, spec_get_string(b, f, FieldId::Generation)->Ok_0)
    &&& c.clan@ == spec_get_string(b, f, FieldId::Clan)->Ok_0
    &&& c.blood_per_turn == spec_get_u8(b, f, FieldId::BloodPerTurn)->Ok_0
    &&& c.blood_pool == spec_get_u8(b, f, FieldId::BloodPool)->Ok_0
}

pub open spec fn attrs_err(b: Seq<CellBlock>, f: Seq<FieldConfigEntry>) -> Option<TranscodeError> {
    let a = step_err(None, spec_get_u8(b, f, FieldId::AttributePhysicalValue));
    let a = step_err(a, spec_get_u8(b, f, FieldId::AttributeSocialValue));
    let a = step_err(a, spec_get_u8(b, f, FieldId::AttributeMentalValue));
    let a = step_err(a, spec_get_value_vec(b, f, FieldId::AttributePhysicalFoci));
    let a = step_err(a, spec_get_value_vec(b, f, FieldId::AttributeSocialFoci));
    let a = step_err(a, spec_get_value_vec(b, f, FieldId::AttributeMentalFoci));
    a
}

pub open spec fn attribute_is(
    at: Attribute,
    b: Seq<CellBlock>,
    f: Seq<FieldConfigEntry>,
    vf: FieldId,
    ff: FieldId,
) -> bool {
    at.value == spec_get_u8(b, f, vf)->Ok_0 && at.foci.deep_view() == spec_get_value_vec(
        b,
        f,
        ff,
    )->Ok_0
}

pub open spec fn attributes_match(
    a: Attributes,
    b: Seq<CellBlock>,
    f: Seq<FieldConfigEntry>,
) -> bool {
    &&& attribute_is(
        a.physical,
        b,
        f,
        FieldId::AttributePhysicalValue,
        FieldId::AttributePhysicalFoci,
    )
    &&& attribute_is(a.social, b, f, FieldId::AttributeSocialValue, FieldId::AttributeSocialFoci)
    &&& attribute_is(a.mental, b, f, FieldId::AttributeMentalValue, FieldId::AttributeMentalFoci)
}

pub open spec fn skills_err(b: Seq<CellBlock>, f: Seq<FieldConfigEntry>) -> Option<TranscodeError> {
    let a = Option::<TranscodeError>::None;
    let a = step_err(a, spec_get_u8(b, f, FieldId::SkillAcademics));
    let a = step_err(a, spec_get_skill_tags(b, f, FieldId::SkillAcademicsSpecialization));
    let a = step_err(a, spec_get_u8(b, f, FieldId::SkillSubterfuge));
    let a = step_err(a, spec_get_u8(b, f, FieldId::SkillDodge));
    let a = step_err(a, spec_get_u8(b, f, FieldId::SkillComputer));
    let a = step_err(a, spec_get_u8(b, f, FieldId::SkillIntimidation));
    let a = step_err(a, spec_get_u8(b, f, FieldId::SkillEmpathy));
    let a = step_err(a, spec_get_u8(b, f, FieldId::SkillDrive));
    let a = step_err(a, spec_get_u8(b, f, FieldId::SkillLeadership));
    let a = step_err(a, spec_get_u8(b, f, FieldId::SkillBrawl));
    let a = step_err(a, spec_get_u8(b, f, FieldId::SkillCraftA));
    let a = step_err(a, spec_get_skill_tags(b, f, FieldId::SkillCraftASpecialization));
    let a = step_err(a, spec_get_u8(b, f, FieldId::SkillCraftB));
    let a = step_err(a, spec_get_skill_tags(b, f, FieldId::SkillCraftBSpecialization));
    let a = step_err(a, spec_get_u8(b, f, FieldId::SkillStealth));
    let a = step_err(a, spec_get_u8(b, f, FieldId::SkillLinguistics));
    let a = step_err(a, spec_get_skill_tags(b, f, FieldId::SkillLinguisticsSpecialization));
    let a = step_err(a, spec_get_u8(b, f, FieldId::SkillAwareness));
    let a = step_err(a, spec_get_u8(b, f, FieldId::SkillMedicine));
    let a = step_err(a, spec_get_u8(b, f, FieldId::SkillInvestigation));
    let a = step_err(a, spec_get_u8(b, f, FieldId::SkillMelee));
    let a = step_err(a, spec_get_u8(b, f, FieldId::SkillScienceA));
    let a = step_err(a, spec_get_skill_tags(b, f, FieldId::SkillScienceASpecialization));
    let a = step_err(a, spec_get_u8(b, f, FieldId::SkillScienceB));
    let a = step_err(a, spec_get_skill_tags(b, f, FieldId::SkillScienceBSpecialization));
    let a = step_err(a, spec_get_u8(b, f, FieldId::SkillOccult));
    let a = step_err(a, spec_get_u8(b, f, FieldId::SkillFirearms));
    let a = step_err(a, spec_get_u8(b, f, FieldId::SkillSecurity));
    let a = step_err(a, spec_get_u8(b, f, FieldId::SkillAthletics));
    let a = step_err(a, spec_get_u8(b, f, FieldId::SkillStreetwise));
    let a = step_err(a, spec_get_u8(b, f, FieldId::SkillAnimalKen));
    let a = step_err(a, spec_get_u8(b, f, FieldId::SkillSurvival));
    let a = step_err(a, spec_get_u8(b, f, FieldId::SkillPerformanceA));
    let a = step_err(a, spec_get_skill_tags(b, f, FieldId::SkillPerformanceASpecialization));
    let a = step_err(a, spec_get_u8(b, f, FieldId::SkillPerformanceB));
    let a = step_err(a, spec_get_skill_tags(b, f, FieldId::SkillPerformanceBSpecialization));
    let a = step_err(a, spec_get_u8(b, f, FieldId::SkillLore));
    let a = step_err(a, spec_get_skill_tags(b, f, FieldId::SkillLoreSpecialization));
    a
}

pub open spec fn skill_plain_is(
    sk: Skill,
    b: Seq<CellBlock>,
    f: Seq<FieldConfigEntry>,
    vf: FieldId,
) -> bool {
    sk.value == spec_get_u8(b, f, vf)->Ok_0 && sk.foci is None
}

pub open spec fn skill_tagged_is(
    sk: Skill,
    b: Seq<CellBlock>,
    f: Seq<FieldConfigEntry>,
    vf: FieldId,
    sf: FieldId,
) -> bool {
    sk.value == spec_get_u8(b, f, vf)->Ok_0 && (sk.foci matches Some(v) && v.deep_view()
        == spec_get_skill_tags(b, f, sf)->Ok_0)
}

pub open spec fn skills_match(s: Skills, b: Seq<CellBlock>, f: Seq<FieldConfigEntry>) -> bool {
    &&& skill_tagged_is(s.academics, b, f, FieldId::SkillAcademics, FieldId::SkillAcademicsSpecialization)
    &&& skill_plain_is(s.subterfuge, b, f, FieldId::SkillSubterfuge)
    &&& skill_plain_is(s.dodge, b, f, FieldId::SkillDodge)
    &&& skill_plain_is(s.computer, b, f, FieldId::SkillComputer)
    &&& skill_plain_is(s.intimidation, b, f, FieldId::SkillIntimidation)
    &&& skill_plain_is(s.empathy, b, f, FieldId::SkillEmpathy)
    &&& skill_plain_is(s.drive, b, f, FieldId::SkillDrive)
    &&& skill_plain_is(s.leadership, b, f, FieldId::SkillLeadership)
    &&& skill_plain_is(s.brawl, b, f, FieldId::SkillBrawl)
    &&& skill_tagged_is(s.craft_a, b, f, FieldId::SkillCraftA, FieldId::SkillCraftASpecialization)
    &&& skill_tagged_is(s.craft_b, b, f, FieldId::SkillCraftB, FieldId::SkillCraftBSpecialization)
    &&& skill_plain_is(s.stealth, b, f, FieldId::SkillStealth)
    &&& skill_tagged_is(s.linguistics, b, f, FieldId::SkillLinguistics, FieldId::SkillLinguisticsSpecialization)
    &&& skill_plain_is(s.awareness, b, f, FieldId::SkillAwareness)
    &&& skill_plain_is(s.medicine, b, f, FieldId::SkillMedicine)
    &&& skill_plain_is(s.investigation, b, f, FieldId::SkillInvestigation)
    &&& skill_plain_is(s.melee, b, f, FieldId::SkillMelee)
    &&& skill_tagged_is(s.science_a, b, f, FieldId::SkillScienceA, FieldId::SkillScienceASpecialization)
    &&& skill_tagged_is(s.science_b, b, f, FieldId::SkillScienceB, FieldId::SkillScienceBSpecialization)
    &&& skill_plain_is(s.occult, b, f, FieldId::SkillOccult)
    &&& skill_plain_is(s.firearms, b, f, FieldId::SkillFirearms)
    &&& skill_plain_is(s.security, b, f, FieldId::SkillSecurity)
    &&& skill_plain_is(s.athletics, b, f, FieldId::SkillAthletics)
    &&& skill_plain_is(s.streetwise, b, f, FieldId::SkillStreetwise)
    &&& skill_plain_is(s.animal_ken, b, f, FieldId::SkillAnimalKen)
    &&& skill_plain_is(s.survival, b, f, FieldId::SkillSurvival)
    &&& skill_tagged_is(s.performance_a, b, f, FieldId::SkillPerformanceA, FieldId::SkillPerformanceASpecialization)
    &&& skill_tagged_is(s.performance_b, b, f, FieldId::SkillPerformanceB, FieldId::SkillPerformanceBSpecialization)
    &&& skill_tagged_is(s.lore, b, f, FieldId::SkillLore, FieldId::SkillLoreSpecialization)
}

/// Decodes the fixed set of skills, in the batch's field order.
pub fn decode_skills(blocks: &Vec<CellBlock>, cfg: &ConfigClient) -> (r: Result<
    Skills,
    TranscodeError,
>)
    ensures
        ({
            let b = blocks@;
            let f = cfg.settings.sheet_field@;
            match r {
                Ok(s) => skills_err(b, f) is None && skills_match(s, b, f),
                Err(e) => skills_err(b, f) == Some(e),
            }
        }),
{
    let academics_value = match get_value_u8(blocks, FieldId::SkillAcademics, cfg) {
        Ok(v) => v,
        Err(e) => {
            return Err(e);
        },
    };
    let academics_foci = match get_skill_specialization(blocks, FieldId::SkillAcademicsSpecialization, cfg) {
        Ok(v) => v,
        Err(e) => {
            return Err(e);
        },
    };
    let subterfuge_value = match get_value_u8(blocks, FieldId::SkillSubterfuge, cfg) {
        Ok(v) => v,
        Err(e) => {
            return Err(e);
        },
    };
    let dodge_value = match get_value_u8(blocks, FieldId::SkillDodge, cfg) {
        Ok(v) => v,
        Err(e) => {
            return Err(e);
        },
    };
    let computer_value = match get_value_u8(blocks, FieldId::SkillComputer, cfg) {
        Ok(v) => v,
        Err(e) => {
            return Err(e);
        },
    };
    let intimidation_value = match get_value_u8(blocks, FieldId::SkillIntimidation, cfg) {
        Ok(v) => v,
        Err(e) => {
            return Err(e);
        },
    };
    let empathy_value = match get_value_u8(blocks, FieldId::SkillEmpathy, cfg) {
        Ok(v) => v,
        Err(e) => {
            return Err(e);
        },
    };
    let drive_value = match get_value_u8(blocks, FieldId::SkillDrive, cfg) {
        Ok(v) => v,
        Err(e) => {
            return Err(e);
        },
    };
    let leadership_value = match get_value_u8(blocks, FieldId::SkillLeadership, cfg) {
        Ok(v) => v,
        Err(e) => {
            return Err(e);
        },
    };
    let brawl_value = match get_value_u8(blocks, FieldId::SkillBrawl, cfg) {
        Ok(v) => v,
        Err(e) => {
            return Err(e);
        },
    };
    let craft_a_value = match get_value_u8(blocks, FieldId::SkillCraftA, cfg) {
        Ok(v) => v,
        Err(e) => {
            return Err(e);
        },
    };
    let craft_a_foci = match get_skill_specialization(blocks, FieldId::SkillCraftASpecialization, cfg) {
        Ok(v) => v,
        Err(e) => {
            return Err(e);
        },
    };
    let craft_b_value = match get_value_u8(blocks, FieldId::SkillCraftB, cfg) {
        Ok(v) => v,
        Err(e) => {
            return Err(e);
        },
    };
    let craft_b_foci = match get_skill_specialization(blocks, FieldId::SkillCraftBSpecialization, cfg) {
        Ok(v) => v,
        Err(e) => {
            return Err(e);
        },
    };
    let stealth_value = match get_value_u8(blocks, FieldId::SkillStealth, cfg) {
        Ok(v) => v,
        Err(e) => {
            return Err(e);
        },
    };
    let linguistics_value = match get_value_u8(blocks, FieldId::SkillLinguistics, cfg) {
        Ok(v) => v,
        Err(e) => {
            return Err(e);
        },
    };
    let linguistics_foci = match get_skill_specialization(blocks, FieldId::SkillLinguisticsSpecialization, cfg) {
        Ok(v) => v,
        Err(e) => {
            return Err(e);
        },
    };
    let awareness_value = match get_value_u8(blocks, FieldId::SkillAwareness, cfg) {
        Ok(v) => v,
        Err(e) => {
            return Err(e);
        },
    };
    let medicine_value = match get_value_u8(blocks, FieldId::SkillMedicine, cfg) {
        Ok(v) => v,
        Err(e) => {
            return Err(e);
        },
    };
    let investigation_value = match get_value_u8(blocks, FieldId::SkillInvestigation, cfg) {
        Ok(v) => v,
        Err(e) => {
            return Err(e);
        },
    };
    let melee_value = match get_value_u8(blocks, FieldId::SkillMelee, cfg) {
        Ok(v) => v,
        Err(e) => {
            return Err(e);
        },
    };
    let science_a_value = match get_value_u8(blocks, FieldId::SkillScienceA, cfg) {
        Ok(v) => v,
        Err(e) => {
            return Err(e);
        },
    };
    let science_a_foci = match get_skill_specialization(blocks, FieldId::SkillScienceASpecialization, cfg) {
        Ok(v) => v,
        Err(e) => {
            return Err(e);
        },
    };
    let science_b_value = match get_value_u8(blocks, FieldId::SkillScienceB, cfg) {
        Ok(v) => v,
        Err(e) => {
            return Err(e);
        },
    };
    let science_b_foci = match get_skill_specialization(blocks, FieldId::SkillScienceBSpecialization, cfg) {
        Ok(v) => v,
        Err(e) => {
            return Err(e);
        },
    };
    let occult_value = match get_value_u8(blocks, FieldId::SkillOccult, cfg) {
        Ok(v) => v,
        Err(e) => {
            return Err(e);
        },
    };
    let firearms_value = match get_value_u8(blocks, FieldId::SkillFirearms, cfg) {
        Ok(v) => v,
        Err(e) => {
            return Err(e);
        },
    };
    let security_value = match get_value_u8(blocks, FieldId::SkillSecurity, cfg) {
        Ok(v) => v,
        Err(e) => {
            return Err(e);
        },
    };
    let athletics_value = match get_value_u8(blocks, FieldId::SkillAthletics, cfg) {
        Ok(v) => v,
        Err(e) => {
            return Err(e);
        },
    };
    let streetwise_value = match get_value_u8(blocks, FieldId::SkillStreetwise, cfg) {
        Ok(v) => v,
        Err(e) => {
            return Err(e);
        },
    };
    let animal_ken_value = match get_value_u8(blocks, FieldId::SkillAnimalKen, cfg) {
        Ok(v) => v,
        Err(e) => {
            return Err(e);
        },
    };
    let survival_value = match get_value_u8(blocks, FieldId::SkillSurvival, cfg) {
        Ok(v) => v,
        Err(e) => {
            return Err(e);
        },
    };
    let performance_a_value = match get_value_u8(blocks, FieldId::SkillPerformanceA, cfg) {
        Ok(v) => v,
        Err(e) => {
            return Err(e);
        },
    };
    let performance_a_foci = match get_skill_specialization(blocks, FieldId::SkillPerformanceASpecialization, cfg) {
        Ok(v) => v,
        Err(e) => {
            return Err(e);
        },
    };
    let performance_b_value = match get_value_u8(blocks, FieldId::SkillPerformanceB, cfg) {
        Ok(v) => v,
        Err(e) => {
            return Err(e);
        },
    };
    let performance_b_foci = match get_skill_specialization(blocks, FieldId::SkillPerformanceBSpecialization, cfg) {
        Ok(v) => v,
        Err(e) => {
            return Err(e);
        },
    };
    let lore_value = match get_value_u8(blocks, FieldId::SkillLore, cfg) {
        Ok(v) => v,
        Err(e) => {
            return Err(e);
        },
    };
    let lore_foci = match get_skill_specialization(blocks, FieldId::SkillLoreSpecialization, cfg) {
        Ok(v) => v,
        Err(e) => {
            return Err(e);
        },
    };
    Ok(
        Skills {
                academics: Skill { value: academics_value, foci: academics_foci },
                animal_ken: Skill { value: animal_ken_value, foci: None },
                athletics: Skill { value: athletics_value, foci: None },
                awareness: Skill { value: awareness_value, foci: None },
                brawl: Skill { value: brawl_value, foci: None },
                computer: Skill { value: computer_value, foci: None },
                craft_a: Skill { value: craft_a_value, foci: craft_a_foci },
                craft_b: Skill { value: craft_b_value, foci: craft_b_foci },
                dodge: Skill { value: dodge_value, foci: None },
                drive: Skill { value: drive_value, foci: None },
                empathy: Skill { value: empathy_value, foci: None },
                firearms: Skill { value: firearms_value, foci: None },
                intimidation: Skill { value: intimidation_value, foci: None },
                investigation: Skill { value: investigation_value, foci: None },
                leadership: Skill { value: leadership_value, foci: None },
                linguistics: Skill { value: linguistics_value, foci: linguistics_foci },
                lore: Skill { value: lore_value, foci: lore_foci },
                medicine: Skill { value: medicine_value, foci: None },
                melee: Skill { value: melee_value, foci: None },
                occult: Skill { value: occult_value, foci: None },
                performance_a: Skill { value: performance_a_value, foci: performance_a_foci },
                performance_b: Skill { value: performance_b_value, foci: performance_b_foci },
                science_a: Skill { value: science_a_value, foci: science_a_foci },
                science_b: Skill { value: science_b_value, foci: science_b_foci },
                security: Skill { value: security_value, foci: None },
                stealth: Skill { value: stealth_value, foci: None },
                streetwise: Skill { value: streetwise_value, foci: None },
                subterfuge: Skill { value: subterfuge_value, foci: None },
                survival: Skill { value: survival_value, foci: None },

        },
    )
}

pub open spec fn powers_err(b: Seq<CellBlock>, f: Seq<FieldConfigEntry>) -> Option<TranscodeError> {
    let a = step2(None, disc_res_err(b, f, FieldId::InClanDisciplines));
    let a = step2(a, disc_res_err(b, f, FieldId::OutOfClanDisciplines));
    let a = step_err(a, spec_get_value_vec(b, f, FieldId::Techniques));
    let a = step_err(a, spec_get_value_vec(b, f, FieldId::InClanElderPowers));
    let a = step_err(a, spec_get_value_vec(b, f, FieldId::OutOfClanElderPowers));
    a
}

/// The shape error of one discipline window, if any.
pub open spec fn disc_res_err(
    b: Seq<CellBlock>,
    f: Seq<FieldConfigEntry>,
    name: FieldId,
) -> Option<TranscodeError> {
    match spec_window(b, f, name) {
        Err(e) => Some(e),
        Ok(w) => if disc_shape_ok(w) {
            None
        } else {
            Some(TranscodeError::MissingMandatoryBlock(name))
        },
    }
}

pub open spec fn powers_match(p: Powers, b: Seq<CellBlock>, f: Seq<FieldConfigEntry>) -> bool {
    &&& (spec_window(b, f, FieldId::InClanDisciplines) matches Ok(w) && discs_match(
        p.in_clan_disciplines@,
        w,
    ))
    &&& (spec_window(b, f, FieldId::OutOfClanDisciplines) matches Ok(w) && discs_match(
        p.out_of_clan_disciplines@,
        w,
    ))
    &&& p.techniques.deep_view() == spec_get_value_vec(b, f, FieldId::Techniques)->Ok_0
    &&& p.in_clan_elder_powers.deep_view() == spec_get_value_vec(
        b,
        f,
        FieldId::InClanElderPowers,
    )->Ok_0
    &&& p.out_of_clan_elder_powers.deep_view() == spec_get_value_vec(
        b,
        f,
        FieldId::OutOfClanElderPowers,
    )->Ok_0
}

/// Decodes the powers block: both discipline lists, techniques and the two
/// elder power lists.
pub fn decode_powers(blocks: &Vec<CellBlock>, cfg: &ConfigClient) -> (r: Result<
    Powers,
    TranscodeError,
>)
    ensures
        ({
            let b = blocks@;
            let f = cfg.settings.sheet_field@;
            match r {
                Ok(p) => powers_err(b, f) is None && powers_match(p, b, f),
                Err(e) => powers_err(b, f) == Some(e),
            }
        }),
{
    let in_clan_disciplines = match get_disciplines(blocks, FieldId::InClanDisciplines, cfg) {
        Ok(v) => v,
        Err(e) => {
            return Err(e);
        },
    };
    let out_of_clan_disciplines = match get_disciplines(blocks, FieldId::OutOfClanDisciplines, cfg)
        {
        Ok(v) => v,
        Err(e) => {
            return Err(e);
        },
    };
    let techniques = match get_value_vec(blocks, FieldId::Techniques, cfg) {
        Ok(v) => v,
        Err(e) => {
            return Err(e);
        },
    };
    let in_clan_elder_powers = match get_value_vec(blocks, FieldId::InClanElderPowers, cfg) {
        Ok(v) => v,
        Err(e) => {
            return Err(e);
        },
    };
    let out_of_clan_elder_powers = match get_value_vec(blocks, FieldId::OutOfClanElderPowers, cfg) {
        Ok(v) => v,
        Err(e) => {
            return Err(e);
        },
    };
    Ok(
        Powers {
            in_clan_disciplines,
            out_of_clan_disciplines,
            techniques,
            in_clan_elder_powers,
            out_of_clan_elder_powers,
        },
    )
}

/// Decodes the three attribute groups with their focus lists.
pub fn decode_attributes(blocks: &Vec<CellBlock>, cfg: &ConfigClient) -> (r: Result<
    Attributes,
    TranscodeError,
>)
    ensures
        ({
            let b = blocks@;
            let f = cfg.settings.sheet_field@;
            match r {
                Ok(a) => attrs_err(b, f) is None && attributes_match(a, b, f),
                Err(e) => attrs_err(b, f) == Some(e),
            }
        }),
{
    let physical_value = match get_value_u8(blocks, FieldId::AttributePhysicalValue, cfg) {
        Ok(v) => v,
        Err(e) => {
            return Err(e);
        },
    };
    let social_value = match get_value_u8(blocks, FieldId::AttributeSocialValue, cfg) {
        Ok(v) => v,
        Err(e) => {
            return Err(e);
        },
    };
    let mental_value = match get_value_u8(blocks, FieldId::AttributeMentalValue, cfg) {
        Ok(v) => v,
        Err(e) => {
            return Err(e);
        },
    };
    let physical_foci = match get_value_vec(blocks, FieldId::AttributePhysicalFoci, cfg) {
        Ok(v) => v,
        Err(e) => {
            return Err(e);
        },
    };
    let social_foci = match get_value_vec(blocks, FieldId::AttributeSocialFoci, cfg) {
        Ok(v) => v,
        Err(e) => {
            return Err(e);
        },
    };
    let mental_foci = match get_value_vec(blocks, FieldId::AttributeMentalFoci, cfg) {
        Ok(v) => v,
        Err(e) => {
            return Err(e);
        },
    };
    Ok(
        Attributes {
            physical: Attribute { value: physical_value, foci: physical_foci },
            social: Attribute { value: social_value, foci: social_foci },
            mental: Attribute { value: mental_value, foci: mental_foci },
        },
    )
}

/// The shape error of the offense pool window, if any.
pub open spec fn off_res_err(b: Seq<CellBlock>, f: Seq<FieldConfigEntry>) -> Option<
    TranscodeError,
> {
    match spec_window(b, f, FieldId::OffensePools) {
        Err(e) => Some(e),
        Ok(w) => if off_shape_ok(w) {
            None
        } else {
            Some(TranscodeError::MissingMandatoryBlock(FieldId::OffensePools))
        },
    }
}

pub open spec fn battle_err(b: Seq<CellBlock>, f: Seq<FieldConfigEntry>) -> Option<TranscodeError> {
    let a = step_err(None, spec_get_u8(b, f, FieldId::Initiative));
    let a = step_err(a, spec_get_u8(b, f, FieldId::InitiativeWithCelerity));
    let a = step_err(a, spec_get_health_track(b, f, FieldId::HealthHealthy));
    let a = step_err(a, spec_get_health_track(b, f, FieldId::HealthInjured));
    let a = step_err(a, spec_get_health_track(b, f, FieldId::HealthIncapacitated));
    let a = step_err(a, spec_get_u8(b, f, FieldId::PhysicalDefenseBase));
    let a = step_err(a, spec_get_u8(b, f, FieldId::PhysicalDefenseWithCelerity));
    let a = step_err(a, spec_get_i8(b, f, FieldId::PhysicalDefenseFrenzyModifier));
    let a = step_err(a, spec_get_i8(b, f, FieldId::PhysicalDefenseGroundClose));
    let a = step_err(a, spec_get_u8(b, f, FieldId::PhysicalDefenseGroundFar));
    let a = step_err(a, spec_get_i8(b, f, FieldId::PhysicalDefenseSpecial));
    let a = step_err(a, spec_get_defense_pool(b, f, FieldId::SocialDefense));
    let a = step_err(a, spec_get_defense_pool(b, f, FieldId::MentalDefense));
    let a = step2(a, off_res_err(b, f));
    a
}

pub open spec fn battle_match(
    bi: BattleInformation,
    b: Seq<CellBlock>,
    f: Seq<FieldConfigEntry>,
) -> bool {
    &&& bi.base.initiative == spec_get_u8(b, f, FieldId::Initiative)->Ok_0
    &&& bi.base.initiative_with_celerity == spec_get_u8(b, f, FieldId::InitiativeWithCelerity)->Ok_0
    &&& bi.base.health.healthy == spec_get_health_track(b, f, FieldId::HealthHealthy)->Ok_0
    &&& bi.base.health.injured == spec_get_health_track(b, f, FieldId::HealthInjured)->Ok_0
    &&& bi.base.health.incapacitated == spec_get_health_track(
        b,
        f,
        FieldId::HealthIncapacitated,
    )->Ok_0
    &&& bi.defense.physical_defense_pool == (PhysicalDefensePool {
        base_value: spec_get_u8(b, f, FieldId::PhysicalDefenseBase)->Ok_0,
        base_value_with_celerity: spec_get_u8(b, f, FieldId::PhysicalDefenseWithCelerity)->Ok_0,
        frenzy_modifier: spec_get_i8(b, f, FieldId::PhysicalDefenseFrenzyModifier)->Ok_0,
        on_the_ground_closer_than_three_meters_modifier: spec_get_i8(
            b,
            f,
            FieldId::PhysicalDefenseGroundClose,
        )->Ok_0,
        on_the_ground_further_than_three_meters_modifier: spec_get_u8(
            b,
            f,
            FieldId::PhysicalDefenseGroundFar,
        )->Ok_0,
        special: spec_get_i8(b, f, FieldId::PhysicalDefenseSpecial)->Ok_0,
    })
    &&& bi.defense.social_defense_pool@ == spec_get_defense_pool(
        b,
        f,
        FieldId::SocialDefense,
    )->Ok_0
    &&& bi.defense.mental_defense_pool@ == spec_get_defense_pool(
        b,
        f,
        FieldId::MentalDefense,
    )->Ok_0
    &&& (spec_window(b, f, FieldId::OffensePools) matches Ok(w) && off_shape_ok(w) && offs_match(
        bi.offense@,
        w,
    ))
}

/// Decodes the battle section: initiative, the three health tracks, the
/// defense pools and the offense pools.
pub fn decode_battle(blocks: &Vec<CellBlock>, cfg: &ConfigClient) -> (r: Result<
    BattleInformation,
    TranscodeError,
>)
    ensures
        ({
            let b = blocks@;
            let f = cfg.settings.sheet_field@;
            match r {
                Ok(bi) => battle_err(b, f) is None && battle_match(bi, b, f),
                Err(e) => battle_err(b, f) == Some(e),
            }
        }),
{
    let initiative = match get_value_u8(blocks, FieldId::Initiative, cfg) {
        Ok(v) => v,
        Err(e) => {
            return Err(e);
        },
    };
    let initiative_with_celerity = match get_value_u8(blocks, FieldId::InitiativeWithCelerity, cfg)
        {
        Ok(v) => v,
        Err(e) => {
            return Err(e);
        },
    };
    let healthy = match get_health_track(blocks, FieldId::HealthHealthy, cfg) {
        Ok(v) => v,
        Err(e) => {
            return Err(e);
        },
    };
    let injured = match get_health_track(blocks, FieldId::HealthInjured, cfg) {
        Ok(v) => v,
        Err(e) => {
            return Err(e);
        },
    };
    let incapacitated = match get_health_track(blocks, FieldId::HealthIncapacitated, cfg) {
        Ok(v) => v,
        Err(e) => {
            return Err(e);
        },
    };
    let physical_defense_base = match get_value_u8(blocks, FieldId::PhysicalDefenseBase, cfg) {
        Ok(v) => v,
        Err(e) => {
            return Err(e);
        },
    };
    let physical_defense_with_celerity = match get_value_u8(
        blocks,
        FieldId::PhysicalDefenseWithCelerity,
        cfg,
    ) {
        Ok(v) => v,
        Err(e) => {
            return Err(e);
        },
    };
    let physical_defense_frenzy_modifier = match get_value_i8(
        blocks,
        FieldId::PhysicalDefenseFrenzyModifier,
        cfg,
    ) {
        Ok(v) => v,
        Err(e) => {
            return Err(e);
        },
    };
    let physical_defense_ground_close = match get_value_i8(
        blocks,
        FieldId::PhysicalDefenseGroundClose,
        cfg,
    ) {
        Ok(v) => v,
        Err(e) => {
            return Err(e);
        },
    };
    let physical_defense_ground_far = match get_value_u8(
        blocks,
        FieldId::PhysicalDefenseGroundFar,
        cfg,
    ) {
        Ok(v) => v,
        Err(e) => {
            return Err(e);
        },
    };
    let physical_defense_special = match get_value_i8(blocks, FieldId::PhysicalDefenseSpecial, cfg)
        {
        Ok(v) => v,
        Err(e) => {
            return Err(e);
        },
    };
    let social_defense_pool = match get_non_physical_defense_pool(
        blocks,
        FieldId::SocialDefense,
        cfg,
    ) {
        Ok(v) => v,
        Err(e) => {
            return Err(e);
        },
    };
    let mental_defense_pool = match get_non_physical_defense_pool(
        blocks,
        FieldId::MentalDefense,
        cfg,
    ) {
        Ok(v) => v,
        Err(e) => {
            return Err(e);
        },
    };
    let offense = match get_attack_pools(blocks, FieldId::OffensePools, cfg) {
        Ok(v) => v,
        Err(e) => {
            return Err(e);
        },
    };
    Ok(
        BattleInformation {
            base: BattleBaseInformation {
                initiative,
                initiative_with_celerity,
                health: HealthTracks { healthy, injured, incapacitated },
            },
            defense: BattleDefenseInformation {
                physical_defense_pool: PhysicalDefensePool {
                    base_value: physical_defense_base,
                    base_value_with_celerity: physical_defense_with_celerity,
                    frenzy_modifier: physical_defense_frenzy_modifier,
                    on_the_ground_closer_than_three_meters_modifier: physical_defense_ground_close,
                    on_the_ground_further_than_three_meters_modifier: physical_defense_ground_far,
                    special: physical_defense_special,
                },
                social_defense_pool,
                mental_defense_pool,
            },
            offense,
        },
    )
}

pub open spec fn social_err(b: Seq<CellBlock>, f: Seq<FieldConfigEntry>) -> Option<TranscodeError> {
    let a = step_err(None, spec_get_string(b, f, FieldId::MoralityName));
    let a = step_err(a, spec_get_u8(b, f, FieldId::MoralityValue));
    let a = step_err(a, spec_get_string(b, f, FieldId::FactionName));
    a
}

pub open spec fn social_match(
    c: PlayerCharacter,
    b: Seq<CellBlock>,
    f: Seq<FieldConfigEntry>,
) -> bool {
    &&& c.morality.name@ == spec_get_string(b, f, FieldId::MoralityName)->Ok_0
    &&& c.morality.value == spec_get_u8(b, f, FieldId::MoralityValue)->Ok_0
    &&& c.faction@ == spec_get_string(b, f, FieldId::FactionName)->Ok_0
}

/// The rows of the combined merit/flaw block; an absent block breaks the
/// shape contract.
pub open spec fn spec_mf_block(b: Seq<CellBlock>, f: Seq<FieldConfigEntry>) -> Result<
    Seq<Seq<Seq<char>>>,
    TranscodeError,
> {
    match spec_block(b, f, FieldId::MeritsFlaws) {
        Err(e) => Err(e),
        Ok(o) => match o {
            None => Err(TranscodeError::MissingMandatoryBlock(FieldId::MeritsFlaws)),
            Some(rows) => Ok(rows),
        },
    }
}

/// The configured window length of a field, one row by default.
pub open spec fn spec_wlen(f: Seq<FieldConfigEntry>, name: FieldId) -> int {
    match lookup_spec(f, name) {
        Option::Some(e) => match e.range_length {
            Option::Some(l) => l as int,
            Option::None => 1,
        },
        Option::None => 1,
    }
}

pub open spec fn merits_res_err(b: Seq<CellBlock>, f: Seq<FieldConfigEntry>) -> Option<
    TranscodeError,
> {
    match spec_mf_block(b, f) {
        Err(e) => Some(e),
        Ok(rows) => {
            let n = spec_wlen(f, FieldId::MeritsFlaws);
            if rows.len() >= n && merit_shape_ok(rows.take(n)) {
                None
            } else {
                Some(TranscodeError::MissingMandatoryBlock(FieldId::MeritsFlaws))
            }
        },
    }
}

pub open spec fn flaws_res_err(b: Seq<CellBlock>, f: Seq<FieldConfigEntry>) -> Option<
    TranscodeError,
> {
    match spec_mf_block(b, f) {
        Err(e) => Some(e),
        Ok(rows) => {
            let n = spec_wlen(f, FieldId::MeritsFlaws);
            if rows.len() >= n && flaw_shape_ok(rows.take(n)) {
                None
            } else {
                Some(TranscodeError::MissingMandatoryBlock(FieldId::MeritsFlaws))
            }
        },
    }
}

pub open spec fn mf_match(c: PlayerCharacter, b: Seq<CellBlock>, f: Seq<FieldConfigEntry>) -> bool {
    spec_mf_block(b, f) matches Ok(rows) && {
        let n = spec_wlen(f, FieldId::MeritsFlaws);
        merits_match(c.merits@, rows.take(n)) && flaws_match(c.flaws@, rows.take(n))
    }
}

pub open spec fn bg_res_err(b: Seq<CellBlock>, f: Seq<FieldConfigEntry>) -> Option<TranscodeError> {
    match spec_window(b, f, FieldId::Backgrounds) {
        Err(e) => Some(e),
        Ok(w) => if bg_shape_ok(w) {
            None
        } else {
            Some(TranscodeError::MissingMandatoryBlock(FieldId::Backgrounds))
        },
    }
}

pub open spec fn experience_err(b: Seq<CellBlock>, f: Seq<FieldConfigEntry>) -> Option<
    TranscodeError,
> {
    let a = step_err(None, spec_get_u8(b, f, FieldId::ExperienceStart));
    let a = step_err(a, spec_get_u16(b, f, FieldId::ExperienceSpentTotal));
    let a = step_err(a, spec_get_i16(b, f, FieldId::ExperienceAvailable));
    let a = step_err(a, spec_get_u8(b, f, FieldId::ExperienceReceivedTotal));
    a
}

pub open spec fn experience_match(
    e: ExperienceInformation,
    b: Seq<CellBlock>,
    f: Seq<FieldConfigEntry>,
) -> bool {
    e == (ExperienceInformation {
        start_value: spec_get_u8(b, f, FieldId::ExperienceStart)->Ok_0,
        spent_total: spec_get_u16(b, f, FieldId::ExperienceSpentTotal)->Ok_0,
        available: spec_get_i16(b, f, FieldId::ExperienceAvailable)->Ok_0,
        received_total: spec_get_u8(b, f, FieldId::ExperienceReceivedTotal)->Ok_0,
    })
}

pub open spec fn rit_res_err(b: Seq<CellBlock>, f: Seq<FieldConfigEntry>) -> Option<
    TranscodeError,
> {
    match spec_window(b, f, FieldId::Rituals) {
        Err(e) => Some(e),
        Ok(w) => if rit_shape_ok(w) {
            None
        } else {
            Some(TranscodeError::MissingMandatoryBlock(FieldId::Rituals))
        },
    }
}

/// The first decode error of a batch, in field evaluation order, if any.
pub open spec fn spec_decode_err(b: Seq<CellBlock>, f: Seq<FieldConfigEntry>) -> Option<
    TranscodeError,
> {
    let a = step2(None, identity_err(b, f));
    let a = step2(a, attrs_err(b, f));
    let a = step2(a, skills_err(b, f));
    let a = step2(a, powers_err(b, f));
    let a = step2(a, social_err(b, f));
    let a = step2(a, merits_res_err(b, f));
    let a = step2(a, flaws_res_err(b, f));
    let a = step2(a, bg_res_err(b, f));
    let a = step2(a, experience_err(b, f));
    let a = step2(a, battle_err(b, f));
    let a = step2(a, rit_res_err(b, f));
    let a = step_err(a, spec_item_src(b, f, FieldId::Items));
    a
}

/// The full character record against its batch: every field equals its
/// decoded value, and the validity flag holds exactly when the spent
/// experience total is at most 900.
pub open spec fn character_matches(
    c: PlayerCharacter,
    b: Seq<CellBlock>,
    f: Seq<FieldConfigEntry>,
) -> bool {
    &&& identity_match(c, b, f)
    &&& attributes_match(c.attributes, b, f)
    &&& skills_match(c.skills, b, f)
    &&& powers_match(c.powers, b, f)
    &&& social_match(c, b, f)
    &&& mf_match(c, b, f)
    &&& (spec_window(b, f, FieldId::Backgrounds) matches Ok(w) && bgs_match(c.backgrounds@, w))
    &&& experience_match(c.experience_information, b, f)
    &&& c.valid == (spec_get_u16(b, f, FieldId::ExperienceSpentTotal)->Ok_0 <= 900)
    &&& battle_match(c.battle_information, b, f)
    &&& (spec_window(b, f, FieldId::Rituals) matches Ok(w) && rits_match(c.rituals@, w))
    &&& (spec_item_src(b, f, FieldId::Items) matches Ok(rows) && items_match(c.items@, rows))
}

impl PlayerCharacter {
    /// Decodes one ordered batch of cell blocks into the full character
    /// record. Succeeds exactly when every mandatory block has its configured
    /// shape; the result then matches the batch field for field, and no
    /// partial record is ever produced.
    pub fn decode(blocks: &Vec<CellBlock>, cfg: &ConfigClient) -> (r: Result<
        PlayerCharacter,
        TranscodeError,
    >)
        ensures
            ({
                let b = blocks@;
                let f = cfg.settings.sheet_field@;
                match r {
                    Ok(c) => spec_decode_err(b, f) is None && character_matches(c, b, f),
                    Err(e) => spec_decode_err(b, f) == Some(e),
                }
            }),
    {
        let character_name = match get_value_string(blocks, FieldId::CharacterName, cfg) {
            Ok(v) => v,
            Err(e) => {
                return Err(e);
            },
        };
        let player_name = match get_value_string(blocks, FieldId::PlayerName, cfg) {
            Ok(v) => v,
            Err(e) => {
                return Err(e);
            },
        };
        let version_sheet = match get_value_string(blocks, FieldId::VersionSheet, cfg) {
            Ok(v) => v,
            Err(e) => {
                return Err(e);
            },
        };
        let archetype = match get_value_string(blocks, FieldId::Archetype, cfg) {
            Ok(v) => v,
            Err(e) => {
                return Err(e);
            },
        };
        let generation_raw = match get_value_string(blocks, FieldId::Generation, cfg) {
            Ok(v) => v,
            Err(e) => {
                return Err(e);
            },
        };
        let generation = match parse_u8_opt(generation_raw.as_str()) {
            Some(v) => Generation::Numeric(v),
            None => Generation::Text(generation_raw),
        };
        let clan = match get_value_string(blocks, FieldId::Clan, cfg) {
            Ok(v) => v,
            Err(e) => {
                return Err(e);
            },
        };
        let blood_per_turn = match get_value_u8(blocks, FieldId::BloodPerTurn, cfg) {
            Ok(v) => v,
            Err(e) => {
                return Err(e);
            },
        };
        let blood_pool = match get_value_u8(blocks, FieldId::BloodPool, cfg) {
            Ok(v) => v,
            Err(e) => {
                return Err(e);
            },
        };
        let attributes = match decode_attributes(blocks, cfg) {
            Ok(v) => v,
            Err(e) => {
                return Err(e);
            },
        };
        let skills = match decode_skills(blocks, cfg) {
            Ok(v) => v,
            Err(e) => {
                return Err(e);
            },
        };
        let powers = match decode_powers(blocks, cfg) {
            Ok(v) => v,
            Err(e) => {
                return Err(e);
            },
        };
        let morality_name = match get_value_string(blocks, FieldId::MoralityName, cfg) {
            Ok(v) => v,
            Err(e) => {
                return Err(e);
            },
        };
        let morality_value = match get_value_u8(blocks, FieldId::MoralityValue, cfg) {
            Ok(v) => v,
            Err(e) => {
                return Err(e);
            },
        };
        let faction = match get_value_string(blocks, FieldId::FactionName, cfg) {
            Ok(v) => v,
            Err(e) => {
                return Err(e);
            },
        };
        let mf_entry = match cfg.get_field_config(FieldId::MeritsFlaws) {
            Ok(v) => v,
            Err(e) => {
                return Err(e);
            },
        };
        let mf_rows = match extract_value_from_vec(blocks, FieldId::MeritsFlaws, cfg) {
            Ok(Some(v)) => v,
            Ok(None) => {
                return Err(TranscodeError::MissingMandatoryBlock(FieldId::MeritsFlaws));
            },
            Err(e) => {
                return Err(e);
            },
        };
        let mf_n: usize = match mf_entry.range_length {
            Some(l) => l as usize,
            None => 1,
        };
        let merits = match extract_merits(mf_rows, mf_n) {
            Ok(v) => v,
            Err(e) => {
                return Err(e);
            },
        };
        let flaws = match extract_flaws(mf_rows, mf_n) {
            Ok(v) => v,
            Err(e) => {
                return Err(e);
            },
        };
        let backgrounds = match get_backgrounds(blocks, FieldId::Backgrounds, cfg) {
            Ok(v) => v,
            Err(e) => {
                return Err(e);
            },
        };
        let experience_start = match get_value_u8(blocks, FieldId::ExperienceStart, cfg) {
            Ok(v) => v,
            Err(e) => {
                return Err(e);
            },
        };
        let experience_spent = match get_value_u16(blocks, FieldId::ExperienceSpentTotal, cfg) {
            Ok(v) => v,
            Err(e) => {
                return Err(e);
            },
        };
        let experience_available = match get_value_i16(blocks, FieldId::ExperienceAvailable, cfg) {
            Ok(v) => v,
            Err(e) => {
                return Err(e);
            },
        };
        let experience_received = match get_value_u8(blocks, FieldId::ExperienceReceivedTotal, cfg)
            {
            Ok(v) => v,
            Err(e) => {
                return Err(e);
            },
        };
        let battle_information = match decode_battle(blocks, cfg) {
            Ok(v) => v,
            Err(e) => {
                return Err(e);
            },
        };
        let rituals = match get_rituals(blocks, FieldId::Rituals, cfg) {
            Ok(v) => v,
            Err(e) => {
                return Err(e);
            },
        };
        let items = match get_items(blocks, FieldId::Items, cfg) {
            Ok(v) => v,
            Err(e) => {
                return Err(e);
            },
        };
        let valid = experience_spent <= 900;
        Ok(
            PlayerCharacter {
                character_name,
                player_name,
                version_sheet,
                valid,
                archetype,
                generation,
                clan,
                blood_per_turn,
                blood_pool,
                attributes,
                skills,
                powers,
                morality: Morality { name: morality_name, value: morality_value },
                faction,
                merits,
                flaws,
                backgrounds,
                experience_information: ExperienceInformation {
                    start_value: experience_start,
                    spent_total: experience_spent,
                    available: experience_available,
                    received_total: experience_received,
                },
                battle_information,
                rituals,
                items,
            },
        )
    }
}


/// The spec-level content of one encoded block: its range string and rows.
pub type BlockSpec = (Seq<char>, Seq<Seq<Seq<char>>>);

/// Keeps the first error of a left-to-right encode chain.
pub open spec fn step_res(
    acc: Option<TranscodeError>,
    r: Result<Option<BlockSpec>, TranscodeError>,
) -> Option<TranscodeError> {
    if acc is Some {
        acc
    } else {
        match r {
            Ok(_) => None,
            Err(e) => Some(e),
        }
    }
}

/// The blocks one field contributes: none when absent or failed.
pub open spec fn opt_item_of(r: Result<Option<BlockSpec>, TranscodeError>) -> Seq<BlockSpec> {
    match r {
        Ok(o) => match o {
            Option::Some(x) => seq![x],
            Option::None => Seq::empty(),
        },
        Err(_) => Seq::empty(),
    }
}

/// An emitted optional block against one field's encode result.
pub open spec fn opt_encoded_matches(
    o: Option<CellBlock>,
    it: Result<Option<BlockSpec>, TranscodeError>,
) -> bool {
    it matches Ok(so) && (match o {
        Option::Some(b) => so matches Some(x) && block_matches(b, x.0, x.1),
        Option::None => so is None,
    })
}

/// An ordered write list against its spec-level content.
pub open spec fn blocks_match(v: Seq<CellBlock>, m: Seq<BlockSpec>) -> bool {
    v.len() == m.len() && (forall|i: int|
        0 <= i < v.len() ==> block_matches(v[i], (#[trigger] m[i]).0, m[i].1))
}

/// What a scalar string field encodes to.
pub open spec fn sv_str(v: Option<String>, f: Seq<FieldConfigEntry>, name: FieldId) -> Result<
    Option<BlockSpec>,
    TranscodeError,
> {
    match v {
        Option::None => Ok(None),
        Option::Some(s) => match lookup_spec(f, name) {
            Option::None => Err(TranscodeError::UnknownField(name)),
            Option::Some(e) => Ok(Some((e.range@, seq![seq![enc_scalar_text(s@)]]))),
        },
    }
}

/// What a scalar `u8` field encodes to.
pub open spec fn sv_u8(v: Option<u8>, f: Seq<FieldConfigEntry>, name: FieldId) -> Result<
    Option<BlockSpec>,
    TranscodeError,
> {
    match v {
        Option::None => Ok(None),
        Option::Some(u) => match lookup_spec(f, name) {
            Option::None => Err(TranscodeError::UnknownField(name)),
            Option::Some(e) => Ok(Some((e.range@, seq![seq![enc_u8_text(u)]]))),
        },
    }
}

/// What the generation field encodes to: its number, or its free text.
pub open spec fn sv_gen(g: Option<Generation>, f: Seq<FieldConfigEntry>) -> Result<
    Option<BlockSpec>,
    TranscodeError,
> {
    match g {
        Option::None => Ok(None),
        Option::Some(gen) => match gen {
            Generation::Numeric(v) => sv_u8(Some(v), f, FieldId::Generation),
            Generation::Text(s) => sv_str(Some(s), f, FieldId::Generation),
        },
    }
}

/// What a specialization tag field encodes to.
pub open spec fn sv_tags(v: Option<Vec<String>>, f: Seq<FieldConfigEntry>, name: FieldId) -> Result<
    Option<BlockSpec>,
    TranscodeError,
> {
    match v {
        Option::None => Ok(None),
        Option::Some(vs) => match lookup_spec(f, name) {
            Option::None => Err(TranscodeError::UnknownField(name)),
            Option::Some(e) => Ok(Some((e.range@, seq![seq![enc_tags_text(vs.deep_view())]]))),
        },
    }
}

/// What a column-list field encodes to.
pub open spec fn sv_vec(
    v: Option<Vec<String>>,
    f: Seq<FieldConfigEntry>,
    name: FieldId,
    pad: Seq<char>,
) -> Result<Option<BlockSpec>, TranscodeError> {
    match lookup_spec(f, name) {
        Option::None => Err(TranscodeError::UnknownField(name)),
        Option::Some(e) => {
            let n = match e.range_length {
                Option::Some(l) => l as int,
                Option::None => 1,
            };
            match v {
                Option::None => Ok(None),
                Option::Some(vs) => if vs@.len() > n {
                    Err(TranscodeError::OverCapacity(name))
                } else {
                    Ok(Some((e.range@, spec_pad_cells(vs.deep_view(), n, pad))))
                },
            }
        },
    }
}

/// What a discipline list encodes to.
pub open spec fn sv_disc(
    v: Option<Vec<DisciplineUpdateInput>>,
    f: Seq<FieldConfigEntry>,
    name: FieldId,
) -> Result<Option<BlockSpec>, TranscodeError> {
    match v {
        Option::None => Ok(None),
        Option::Some(vs) => match lookup_spec(f, name) {
            Option::None => Err(TranscodeError::UnknownField(name)),
            Option::Some(e) => {
                let n = match e.range_length {
                    Option::Some(l) => l as int,
                    Option::None => 1,
                };
                if vs@.len() > n {
                    Err(TranscodeError::OverCapacity(name))
                } else {
                    Ok(Some((e.range@, padded(enc_disc_rows(vs@), n, disc_pad_row()))))
                }
            },
        },
    }
}

/// What the combined merit/flaw block encodes to; nothing when both parts
/// are absent.
pub open spec fn sv_mf(
    ms: Option<Vec<MeritUpdateInput>>,
    fs: Option<Vec<FlawUpdateInput>>,
    f: Seq<FieldConfigEntry>,
) -> Result<Option<BlockSpec>, TranscodeError> {
    if ms is None && fs is None {
        Ok(None)
    } else {
        match lookup_spec(f, FieldId::MeritsFlawsName) {
            Option::None => Err(TranscodeError::UnknownField(FieldId::MeritsFlawsName)),
            Option::Some(e) => {
                let n = match e.range_length {
                    Option::Some(l) => l as int,
                    Option::None => 1,
                };
                let msq = match ms {
                    Option::Some(v) => v@,
                    Option::None => Seq::<MeritUpdateInput>::empty(),
                };
                let fsq = match fs {
                    Option::Some(v) => v@,
                    Option::None => Seq::<FlawUpdateInput>::empty(),
                };
                let data = enc_merit_rows(msq) + enc_flaw_rows(fsq);
                if data.len() > n {
                    Err(TranscodeError::OverCapacity(FieldId::MeritsFlawsName))
                } else {
                    Ok(Some((e.range@, padded(data, n, seq![sentinel_seq()]))))
                }
            },
        }
    }
}

/// What the background list encodes to.
pub open spec fn sv_bg(v: Option<Vec<BackgroundUpdateInput>>, f: Seq<FieldConfigEntry>) -> Result<
    Option<BlockSpec>,
    TranscodeError,
> {
    match lookup_spec(f, FieldId::Backgrounds) {
        Option::None => Err(TranscodeError::UnknownField(FieldId::Backgrounds)),
        Option::Some(e) => {
            let n = match e.range_length {
                Option::Some(l) => l as int,
                Option::None => 1,
            };
            match v {
                Option::None => Ok(None),
                Option::Some(vs) => if vs@.len() > n {
                    Err(TranscodeError::OverCapacity(FieldId::Backgrounds))
                } else {
                    Ok(Some((e.range@, padded(enc_bg_rows(vs@), n, bg_pad_row()))))
                },
            }
        },
    }
}

/// What the ritual list encodes to.
pub open spec fn sv_rit(v: Option<Vec<RitualUpdateInput>>, f: Seq<FieldConfigEntry>) -> Result<
    Option<BlockSpec>,
    TranscodeError,
> {
    match lookup_spec(f, FieldId::Rituals) {
        Option::None => Err(TranscodeError::UnknownField(FieldId::Rituals)),
        Option::Some(e) => {
            let n = match e.range_length {
                Option::Some(l) => l as int,
                Option::None => 1,
            };
            match v {
                Option::None => Ok(None),
                Option::Some(vs) => if vs@.len() > n {
                    Err(TranscodeError::OverCapacity(FieldId::Rituals))
                } else {
                    Ok(Some((e.range@, padded(enc_rit_rows(vs@), n, seq![sentinel_seq()]))))
                },
            }
        },
    }
}

proof fn lemma_blocks_match_concat(
    a: Seq<CellBlock>,
    ma: Seq<BlockSpec>,
    b: Seq<CellBlock>,
    mb: Seq<BlockSpec>,
)
    requires
        blocks_match(a, ma),
        blocks_match(b, mb),
    ensures
        blocks_match(a + b, ma + mb),
{
    assert forall|i: int|
        0 <= i < (a + b).len() implies block_matches((a + b)[i], ((ma + mb)[i]).0, ((ma + mb)[i]).1)
    by {
        if i < a.len() {
            assert((a + b)[i] == a[i]);
            assert((ma + mb)[i] == ma[i]);
        } else {
            assert((a + b)[i] == b[i - a.len()]);
            assert((ma + mb)[i] == mb[i - a.len()]);
        }
    }
}

/// Appends one field's optional block to the write list, extending the list's
/// spec-level content accordingly.
fn push_enc(
    out: &mut Vec<CellBlock>,
    o: Option<CellBlock>,
    Ghost(m): Ghost<Seq<BlockSpec>>,
    Ghost(it): Ghost<Result<Option<BlockSpec>, TranscodeError>>,
)
    requires
        blocks_match(old(out)@, m),
        opt_encoded_matches(o, it),
    ensures
        blocks_match(final(out)@, m + opt_item_of(it)),
{
    match o {
        Some(b) => {
            let ghost x = it->Ok_0->Some_0;
            out.push(b);
            proof {
                let m2 = m + opt_item_of(it);
                assert(m2.len() == m.len() + 1);
                assert forall|i: int|
                    0 <= i < out@.len() implies block_matches(
                    out@[i],
                    (#[trigger] m2[i]).0,
                    m2[i].1,
                ) by {
                    if i < m.len() {
                        assert(out@[i] == old(out)@[i]);
                        assert(m2[i] == m[i]);
                    } else {
                        assert(m2[i] == x);
                    }
                }
            }
        },
        None => {
            proof {
                assert(m + opt_item_of(it) =~= m);
            }
        },
    }
}

pub open spec fn enc_identity_err(p: PlayerCharacterUpdateInput, f: Seq<FieldConfigEntry>) -> Option<
    TranscodeError,
> {
    let a = step_res(None, sv_str(p.character_name, f, FieldId::CharacterName));
    let a = step_res(a, sv_str(p.player_name, f, FieldId::PlayerName));
    let a = step_res(a, sv_str(p.archetype, f, FieldId::Archetype));
    let a = step_res(a, sv_gen(p.generation, f));
    let a = step_res(a, sv_str(p.clan, f, FieldId::Clan));
    a
}

pub open spec fn enc_identity_list(p: PlayerCharacterUpdateInput, f: Seq<FieldConfigEntry>) -> Seq<
    BlockSpec,
> {
    let m = opt_item_of(sv_str(p.character_name, f, FieldId::CharacterName));
    let m = m + opt_item_of(sv_str(p.player_name, f, FieldId::PlayerName));
    let m = m + opt_item_of(sv_str(p.archetype, f, FieldId::Archetype));
    let m = m + opt_item_of(sv_gen(p.generation, f));
    let m = m + opt_item_of(sv_str(p.clan, f, FieldId::Clan));
    m
}

/// Encodes the scalar identity fields.
fn encode_identity_blocks(p: &PlayerCharacterUpdateInput, cfg: &ConfigClient) -> (r: Result<
    Vec<CellBlock>,
    TranscodeError,
>)
    ensures
        ({
            let f = cfg.settings.sheet_field@;
            match r {
                Ok(v) => enc_identity_err(*p, f) is None && blocks_match(
                    v@,
                    enc_identity_list(*p, f),
                ),
                Err(e) => enc_identity_err(*p, f) == Some(e),
            }
        }),
{
    let ghost f = cfg.settings.sheet_field@;
    let mut out: Vec<CellBlock> = Vec::new();
    let ghost mut mm: Seq<BlockSpec> = Seq::empty();
    let vref: Option<&String> = match &p.character_name {
        Some(s) => Some(s),
        None => None,
    };
    let o = match set_value_string(vref, FieldId::CharacterName, cfg) {
        Ok(o) => o,
        Err(e) => {
            return Err(e);
        },
    };
    push_enc(&mut out, o, Ghost(mm), Ghost(sv_str(p.character_name, f, FieldId::CharacterName)));
    proof {
        mm = mm + opt_item_of(sv_str(p.character_name, f, FieldId::CharacterName));
    }
    let vref: Option<&String> = match &p.player_name {
        Some(s) => Some(s),
        None => None,
    };
    let o = match set_value_string(vref, FieldId::PlayerName, cfg) {
        Ok(o) => o,
        Err(e) => {
            return Err(e);
        },
    };
    push_enc(&mut out, o, Ghost(mm), Ghost(sv_str(p.player_name, f, FieldId::PlayerName)));
    proof {
        mm = mm + opt_item_of(sv_str(p.player_name, f, FieldId::PlayerName));
    }
    let vref: Option<&String> = match &p.archetype {
        Some(s) => Some(s),
        None => None,
    };
    let o = match set_value_string(vref, FieldId::Archetype, cfg) {
        Ok(o) => o,
        Err(e) => {
            return Err(e);
        },
    };
    push_enc(&mut out, o, Ghost(mm), Ghost(sv_str(p.archetype, f, FieldId::Archetype)));
    proof {
        mm = mm + opt_item_of(sv_str(p.archetype, f, FieldId::Archetype));
    }
    let o = match &p.generation {
        Some(g) => match g {
            Generation::Numeric(v) => match set_value_u8(Some(*v), FieldId::Generation, cfg) {
                Ok(o) => o,
                Err(e) => {
                    return Err(e);
                },
            },
            Generation::Text(s) => match set_value_string(Some(s), FieldId::Generation, cfg) {
                Ok(o) => o,
                Err(e) => {
                    return Err(e);
                },
            },
        },
        None => None,
    };
    push_enc(&mut out, o, Ghost(mm), Ghost(sv_gen(p.generation, f)));
    proof {
        mm = mm + opt_item_of(sv_gen(p.generation, f));
    }
    let vref: Option<&String> = match &p.clan {
        Some(s) => Some(s),
        None => None,
    };
    let o = match set_value_string(vref, FieldId::Clan, cfg) {
        Ok(o) => o,
        Err(e) => {
            return Err(e);
        },
    };
    push_enc(&mut out, o, Ghost(mm), Ghost(sv_str(p.clan, f, FieldId::Clan)));
    proof {
        mm = mm + opt_item_of(sv_str(p.clan, f, FieldId::Clan));
    }
    Ok(out)
}


pub open spec fn enc_attrs_err(at: Option<AttributesUpdateInput>, f: Seq<FieldConfigEntry>) -> Option<
    TranscodeError,
> {
    let pv = (match at { Option::Some(a) => (match a.physical { Option::Some(x) => x.value, Option::None => Option::None }), Option::None => Option::None });
    let sv = (match at { Option::Some(a) => (match a.social { Option::Some(x) => x.value, Option::None => Option::None }), Option::None => Option::None });
    let mv = (match at { Option::Some(a) => (match a.mental { Option::Some(x) => x.value, Option::None => Option::None }), Option::None => Option::None });
    let pf = (match at { Option::Some(a) => (match a.physical { Option::Some(x) => x.foci, Option::None => Option::None }), Option::None => Option::None });
    let sf = (match at { Option::Some(a) => (match a.social { Option::Some(x) => x.foci, Option::None => Option::None }), Option::None => Option::None });
    let mf = (match at { Option::Some(a) => (match a.mental { Option::Some(x) => x.foci, Option::None => Option::None }), Option::None => Option::None });
    let a = step_res(None, sv_u8(pv, f, FieldId::AttributePhysicalValue));
    let a = step_res(a, sv_u8(sv, f, FieldId::AttributeSocialValue));
    let a = step_res(a, sv_u8(mv, f, FieldId::AttributeMentalValue));
    let a = step_res(a, sv_vec(pf, f, FieldId::AttributePhysicalFoci, sentinel_seq()));
    let a = step_res(a, sv_vec(sf, f, FieldId::AttributeSocialFoci, sentinel_seq()));
    let a = step_res(a, sv_vec(mf, f, FieldId::AttributeMentalFoci, sentinel_seq()));
    a
}

pub open spec fn enc_attrs_list(at: Option<AttributesUpdateInput>, f: Seq<FieldConfigEntry>) -> Seq<
    BlockSpec,
> {
    let pv = (match at { Option::Some(a) => (match a.physical { Option::Some(x) => x.value, Option::None => Option::None }), Option::None => Option::None });
    let sv = (match at { Option::Some(a) => (match a.social { Option::Some(x) => x.value, Option::None => Option::None }), Option::None => Option::None });
    let mv = (match at { Option::Some(a) => (match a.mental { Option::Some(x) => x.value, Option::None => Option::None }), Option::None => Option::None });
    let pf = (match at { Option::Some(a) => (match a.physical { Option::Some(x) => x.foci, Option::None => Option::None }), Option::None => Option::None });
    let sf = (match at { Option::Some(a) => (match a.social { Option::Some(x) => x.foci, Option::None => Option::None }), Option::None => Option::None });
    let mf = (match at { Option::Some(a) => (match a.mental { Option::Some(x) => x.foci, Option::None => Option::None }), Option::None => Option::None });
    let m = opt_item_of(sv_u8(pv, f, FieldId::AttributePhysicalValue));
    let m = m + opt_item_of(sv_u8(sv, f, FieldId::AttributeSocialValue));
    let m = m + opt_item_of(sv_u8(mv, f, FieldId::AttributeMentalValue));
    let m = m + opt_item_of(sv_vec(pf, f, FieldId::AttributePhysicalFoci, sentinel_seq()));
    let m = m + opt_item_of(sv_vec(sf, f, FieldId::AttributeSocialFoci, sentinel_seq()));
    let m = m + opt_item_of(sv_vec(mf, f, FieldId::AttributeMentalFoci, sentinel_seq()));
    m
}

/// Encodes the attribute values, then the attribute focus lists.
fn encode_attributes_blocks(at: &Option<AttributesUpdateInput>, cfg: &ConfigClient) -> (r: Result<
    Vec<CellBlock>,
    TranscodeError,
>)
    ensures
        ({
            let f = cfg.settings.sheet_field@;
            match r {
                Ok(v) => enc_attrs_err(*at, f) is None && blocks_match(v@, enc_attrs_list(*at, f)),
                Err(e) => enc_attrs_err(*at, f) == Some(e),
            }
        }),
{
    let ghost f = cfg.settings.sheet_field@;
    let ghost pat = *at;
    let mut out: Vec<CellBlock> = Vec::new();
    let ghost mut mm: Seq<BlockSpec> = Seq::empty();
    let vu: Option<u8> = match at {
        Some(a) => match &a.physical {
            Some(x) => x.value,
            None => None,
        },
        None => None,
    };
    let o = match set_value_u8(vu, FieldId::AttributePhysicalValue, cfg) {
        Ok(o) => o,
        Err(e) => {
            return Err(e);
        },
    };
    push_enc(&mut out, o, Ghost(mm), Ghost(sv_u8((match pat { Option::Some(a) => (match a.physical { Option::Some(x) => x.value, Option::None => Option::None }), Option::None => Option::None }), f, FieldId::AttributePhysicalValue)));
    proof {
        mm = mm + opt_item_of(sv_u8((match pat { Option::Some(a) => (match a.physical { Option::Some(x) => x.value, Option::None => Option::None }), Option::None => Option::None }), f, FieldId::AttributePhysicalValue));
    }
    let vu: Option<u8> = match at {
        Some(a) => match &a.social {
            Some(x) => x.value,
            None => None,
        },
        None => None,
    };
    let o = match set_value_u8(vu, FieldId::AttributeSocialValue, cfg) {
        Ok(o) => o,
        Err(e) => {
            return Err(e);
        },
    };
    push_enc(&mut out, o, Ghost(mm), Ghost(sv_u8((match pat { Option::Some(a) => (match a.social { Option::Some(x) => x.value, Option::None => Option::None }), Option::None => Option::None }), f, FieldId::AttributeSocialValue)));
    proof {
        mm = mm + opt_item_of(sv_u8((match pat { Option::Some(a) => (match a.social { Option::Some(x) => x.value, Option::None => Option::None }), Option::None => Option::None }), f, FieldId::AttributeSocialValue));
    }
    let vu: Option<u8> = match at {
        Some(a) => match &a.mental {
            Some(x) => x.value,
            None => None,
        },
        None => None,
    };
    let o = match set_value_u8(vu, FieldId::AttributeMentalValue, cfg) {
        Ok(o) => o,
        Err(e) => {
            return Err(e);
        },
    };
    push_enc(&mut out, o, Ghost(mm), Ghost(sv_u8((match pat { Option::Some(a) => (match a.mental { Option::Some(x) => x.value, Option::None => Option::None }), Option::None => Option::None }), f, FieldId::AttributeMentalValue)));
    proof {
        mm = mm + opt_item_of(sv_u8((match pat { Option::Some(a) => (match a.mental { Option::Some(x) => x.value, Option::None => Option::None }), Option::None => Option::None }), f, FieldId::AttributeMentalValue));
    }
    let vr: Option<&Vec<String>> = match at {
        Some(a) => match &a.physical {
            Some(x) => match &x.foci {
                Some(v) => Some(v),
                None => None,
            },
            None => None,
        },
        None => None,
    };
    let o = match set_value_vec(vr, FieldId::AttributePhysicalFoci, cfg, None) {
        Ok(o) => o,
        Err(e) => {
            return Err(e);
        },
    };
    push_enc(&mut out, o, Ghost(mm), Ghost(sv_vec((match pat { Option::Some(a) => (match a.physical { Option::Some(x) => x.foci, Option::None => Option::None }), Option::None => Option::None }), f, FieldId::AttributePhysicalFoci, sentinel_seq())));
    proof {
        mm = mm + opt_item_of(sv_vec((match pat { Option::Some(a) => (match a.physical { Option::Some(x) => x.foci, Option::None => Option::None }), Option::None => Option::None }), f, FieldId::AttributePhysicalFoci, sentinel_seq()));
    }
    let vr: Option<&Vec<String>> = match at {
        Some(a) => match &a.social {
            Some(x) => match &x.foci {
                Some(v) => Some(v),
                None => None,
            },
            None => None,
        },
        None => None,
    };
    let o = match set_value_vec(vr, FieldId::AttributeSocialFoci, cfg, None) {
        Ok(o) => o,
        Err(e) => {
            return Err(e);
        },
    };
    push_enc(&mut out, o, Ghost(mm), Ghost(sv_vec((match pat { Option::Some(a) => (match a.social { Option::Some(x) => x.foci, Option::None => Option::None }), Option::None => Option::None }), f, FieldId::AttributeSocialFoci, sentinel_seq())));
    proof {
        mm = mm + opt_item_of(sv_vec((match pat { Option::Some(a) => (match a.social { Option::Some(x) => x.foci, Option::None => Option::None }), Option::None => Option::None }), f, FieldId::AttributeSocialFoci, sentinel_seq()));
    }
    let vr: Option<&Vec<String>> = match at {
        Some(a) => match &a.mental {
            Some(x) => match &x.foci {
                Some(v) => Some(v),
                None => None,
            },
            None => None,
        },
        None => None,
    };
    let o = match set_value_vec(vr, FieldId::AttributeMentalFoci, cfg, None) {
        Ok(o) => o,
        Err(e) => {
            return Err(e);
        },
    };
    push_enc(&mut out, o, Ghost(mm), Ghost(sv_vec((match pat { Option::Some(a) => (match a.mental { Option::Some(x) => x.foci, Option::None => Option::None }), Option::None => Option::None }), f, FieldId::AttributeMentalFoci, sentinel_seq())));
    proof {
        mm = mm + opt_item_of(sv_vec((match pat { Option::Some(a) => (match a.mental { Option::Some(x) => x.foci, Option::None => Option::None }), Option::None => Option::None }), f, FieldId::AttributeMentalFoci, sentinel_seq()));
    }
    Ok(out)
}


pub open spec fn enc_skills_err_a(sk: Option<SkillsUpdateInput>, f: Seq<FieldConfigEntry>) -> Option<
    TranscodeError,
> {
    let a = Option::<TranscodeError>::None;
    let a = step_res(a, sv_u8((match sk { Option::Some(s) => (match s.academics { Option::Some(u) => u.value, Option::None => Option::None }), Option::None => Option::None }), f, FieldId::SkillAcademics));
    let a = step_res(a, sv_tags((match sk { Option::Some(s) => (match s.academics { Option::Some(u) => u.foci, Option::None => Option::None }), Option::None => Option::None }), f, FieldId::SkillAcademicsSpecialization));
    let a = step_res(a, sv_u8((match sk { Option::Some(s) => (match s.subterfuge { Option::Some(u) => u.value, Option::None => Option::None }), Option::None => Option::None }), f, FieldId::SkillSubterfuge));
    let a = step_res(a, sv_u8((match sk { Option::Some(s) => (match s.dodge { Option::Some(u) => u.value, Option::None => Option::None }), Option::None => Option::None }), f, FieldId::SkillDodge));
    let a = step_res(a, sv_u8((match sk { Option::Some(s) => (match s.computer { Option::Some(u) => u.value, Option::None => Option::None }), Option::None => Option::None }), f, FieldId::SkillComputer));
    let a = step_res(a, sv_u8((match sk { Option::Some(s) => (match s.intimidation { Option::Some(u) => u.value, Option::None => Option::None }), Option::None => Option::None }), f, FieldId::SkillIntimidation));
    let a = step_res(a, sv_u8((match sk { Option::Some(s) => (match s.empathy { Option::Some(u) => u.value, Option::None => Option::None }), Option::None => Option::None }), f, FieldId::SkillEmpathy));
    let a = step_res(a, sv_u8((match sk { Option::Some(s) => (match s.drive { Option::Some(u) => u.value, Option::None => Option::None }), Option::None => Option::None }), f, FieldId::SkillDrive));
    let a = step_res(a, sv_u8((match sk { Option::Some(s) => (match s.leadership { Option::Some(u) => u.value, Option::None => Option::None }), Option::None => Option::None }), f, FieldId::SkillLeadership));
    let a = step_res(a, sv_u8((match sk { Option::Some(s) => (match s.brawl { Option::Some(u) => u.value, Option::None => Option::None }), Option::None => Option::None }), f, FieldId::SkillBrawl));
    a
}

pub open spec fn enc_skills_list_a(sk: Option<SkillsUpdateInput>, f: Seq<FieldConfigEntry>) -> Seq<
    BlockSpec,
> {
    let m = Seq::<BlockSpec>::empty();
    let m = m + opt_item_of(sv_u8((match sk { Option::Some(s) => (match s.academics { Option::Some(u) => u.value, Option::None => Option::None }), Option::None => Option::None }), f, FieldId::SkillAcademics));
    let m = m + opt_item_of(sv_tags((match sk { Option::Some(s) => (match s.academics { Option::Some(u) => u.foci, Option::None => Option::None }), Option::None => Option::None }), f, FieldId::SkillAcademicsSpecialization));
    let m = m + opt_item_of(sv_u8((match sk { Option::Some(s) => (match s.subterfuge { Option::Some(u) => u.value, Option::None => Option::None }), Option::None => Option::None }), f, FieldId::SkillSubterfuge));
    let m = m + opt_item_of(sv_u8((match sk { Option::Some(s) => (match s.dodge { Option::Some(u) => u.value, Option::None => Option::None }), Option::None => Option::None }), f, FieldId::SkillDodge));
    let m = m + opt_item_of(sv_u8((match sk { Option::Some(s) => (match s.computer { Option::Some(u) => u.value, Option::None => Option::None }), Option::None => Option::None }), f, FieldId::SkillComputer));
    let m = m + opt_item_of(sv_u8((match sk { Option::Some(s) => (match s.intimidation { Option::Some(u) => u.value, Option::None => Option::None }), Option::None => Option::None }), f, FieldId::SkillIntimidation));
    let m = m + opt_item_of(sv_u8((match sk { Option::Some(s) => (match s.empathy { Option::Some(u) => u.value, Option::None => Option::None }), Option::None => Option::None }), f, FieldId::SkillEmpathy));
    let m = m + opt_item_of(sv_u8((match sk { Option::Some(s) => (match s.drive { Option::Some(u) => u.value, Option::None => Option::None }), Option::None => Option::None }), f, FieldId::SkillDrive));
    let m = m + opt_item_of(sv_u8((match sk { Option::Some(s) => (match s.leadership { Option::Some(u) => u.value, Option::None => Option::None }), Option::None => Option::None }), f, FieldId::SkillLeadership));
    let m = m + opt_item_of(sv_u8((match sk { Option::Some(s) => (match s.brawl { Option::Some(u) => u.value, Option::None => Option::None }), Option::None => Option::None }), f, FieldId::SkillBrawl));
    m
}

#[verifier::rlimit(100)]
fn encode_skills_blocks_a(sk: &Option<SkillsUpdateInput>, cfg: &ConfigClient) -> (r: Result<
    Vec<CellBlock>,
    TranscodeError,
>)
    ensures
        ({
            let f = cfg.settings.sheet_field@;
            match r {
                Ok(v) => enc_skills_err_a(*sk, f) is None && blocks_match(
                    v@,
                    enc_skills_list_a(*sk, f),
                ),
                Err(e) => enc_skills_err_a(*sk, f) == Some(e),
            }
        }),
{
    let ghost f = cfg.settings.sheet_field@;
    let ghost psk = *sk;
    let mut out: Vec<CellBlock> = Vec::new();
    let ghost mut mm: Seq<BlockSpec> = Seq::empty();
    let vu: Option<u8> = match sk {
        Some(s) => match &s.academics {
            Some(u) => u.value,
            None => None,
        },
        None => None,
    };
    let o = match set_value_u8(vu, FieldId::SkillAcademics, cfg) {
        Ok(o) => o,
        Err(e) => {
            return Err(e);
        },
    };
    push_enc(&mut out, o, Ghost(mm), Ghost(sv_u8((match psk { Option::Some(s) => (match s.academics { Option::Some(u) => u.value, Option::None => Option::None }), Option::None => Option::None }), f, FieldId::SkillAcademics)));
    proof {
        mm = mm + opt_item_of(sv_u8((match psk { Option::Some(s) => (match s.academics { Option::Some(u) => u.value, Option::None => Option::None }), Option::None => Option::None }), f, FieldId::SkillAcademics));
    }
    let vr: Option<&Vec<String>> = match sk {
        Some(s) => match &s.academics {
            Some(u) => match &u.foci {
                Some(v) => Some(v),
                None => None,
            },
            None => None,
        },
        None => None,
    };
    let o = match set_skill_specialization(vr, FieldId::SkillAcademicsSpecialization, cfg) {
        Ok(o) => o,
        Err(e) => {
            return Err(e);
        },
    };
    push_enc(&mut out, o, Ghost(mm), Ghost(sv_tags((match psk { Option::Some(s) => (match s.academics { Option::Some(u) => u.foci, Option::None => Option::None }), Option::None => Option::None }), f, FieldId::SkillAcademicsSpecialization)));
    proof {
        mm = mm + opt_item_of(sv_tags((match psk { Option::Some(s) => (match s.academics { Option::Some(u) => u.foci, Option::None => Option::None }), Option::None => Option::None }), f, FieldId::SkillAcademicsSpecialization));
    }
    let vu: Option<u8> = match sk {
        Some(s) => match &s.subterfuge {
            Some(u) => u.value,
            None => None,
        },
        None => None,
    };
    let o = match set_value_u8(vu, FieldId::SkillSubterfuge, cfg) {
        Ok(o) => o,
        Err(e) => {
            return Err(e);
        },
    };
    push_enc(&mut out, o, Ghost(mm), Ghost(sv_u8((match psk { Option::Some(s) => (match s.subterfuge { Option::Some(u) => u.value, Option::None => Option::None }), Option::None => Option::None }), f, FieldId::SkillSubterfuge)));
    proof {
        mm = mm + opt_item_of(sv_u8((match psk { Option::Some(s) => (match s.subterfuge { Option::Some(u) => u.value, Option::None => Option::None }), Option::None => Option::None }), f, FieldId::SkillSubterfuge));
    }
    let vu: Option<u8> = match sk {
        Some(s) => match &s.dodge {
            Some(u) => u.value,
            None => None,
        },
        None => None,
    };
    let o = match set_value_u8(vu, FieldId::SkillDodge, cfg) {
        Ok(o) => o,
        Err(e) => {
            return Err(e);
        },
    };
    push_enc(&mut out, o, Ghost(mm), Ghost(sv_u8((match psk { Option::Some(s) => (match s.dodge { Option::Some(u) => u.value, Option::None => Option::None }), Option::None => Option::None }), f, FieldId::SkillDodge)));
    proof {
        mm = mm + opt_item_of(sv_u8((match psk { Option::Some(s) => (match s.dodge { Option::Some(u) => u.value, Option::None => Option::None }), Option::None => Option::None }), f, FieldId::SkillDodge));
    }
    let vu: Option<u8> = match sk {
        Some(s) => match &s.computer {
            Some(u) => u.value,
            None => None,
        },
        None => None,
    };
    let o = match set_value_u8(vu, FieldId::SkillComputer, cfg) {
        Ok(o) => o,
        Err(e) => {
            return Err(e);
        },
    };
    push_enc(&mut out, o, Ghost(mm), Ghost(sv_u8((match psk { Option::Some(s) => (match s.computer { Option::Some(u) => u.value, Option::None => Option::None }), Option::None => Option::None }), f, FieldId::SkillComputer)));
    proof {
        mm = mm + opt_item_of(sv_u8((match psk { Option::Some(s) => (match s.computer { Option::Some(u) => u.value, Option::None => Option::None }), Option::None => Option::None }), f, FieldId::SkillComputer));
    }
    let vu: Option<u8> = match sk {
        Some(s) => match &s.intimidation {
            Some(u) => u.value,
            None => None,
        },
        None => None,
    };
    let o = match set_value_u8(vu, FieldId::SkillIntimidation, cfg) {
        Ok(o) => o,
        Err(e) => {
            return Err(e);
        },
    };
    push_enc(&mut out, o, Ghost(mm), Ghost(sv_u8((match psk { Option::Some(s) => (match s.intimidation { Option::Some(u) => u.value, Option::None => Option::None }), Option::None => Option::None }), f, FieldId::SkillIntimidation)));
    proof {
        mm = mm + opt_item_of(sv_u8((match psk { Option::Some(s) => (match s.intimidation { Option::Some(u) => u.value, Option::None => Option::None }), Option::None => Option::None }), f, FieldId::SkillIntimidation));
    }
    let vu: Option<u8> = match sk {
        Some(s) => match &s.empathy {
            Some(u) => u.value,
            None => None,
        },
        None => None,
    };
    let o = match set_value_u8(vu, FieldId::SkillEmpathy, cfg) {
        Ok(o) => o,
        Err(e) => {
            return Err(e);
        },
    };
    push_enc(&mut out, o, Ghost(mm), Ghost(sv_u8((match psk { Option::Some(s) => (match s.empathy { Option::Some(u) => u.value, Option::None => Option::None }), Option::None => Option::None }), f, FieldId::SkillEmpathy)));
    proof {
        mm = mm + opt_item_of(sv_u8((match psk { Option::Some(s) => (match s.empathy { Option::Some(u) => u.value, Option::None => Option::None }), Option::None => Option::None }), f, FieldId::SkillEmpathy));
    }
    let vu: Option<u8> = match sk {
        Some(s) => match &s.drive {
            Some(u) => u.value,
            None => None,
        },
        None => None,
    };
    let o = match set_value_u8(vu, FieldId::SkillDrive, cfg) {
        Ok(o) => o,
        Err(e) => {
            return Err(e);
        },
    };
    push_enc(&mut out, o, Ghost(mm), Ghost(sv_u8((match psk { Option::Some(s) => (match s.drive { Option::Some(u) => u.value, Option::None => Option::None }), Option::None => Option::None }), f, FieldId::SkillDrive)));
    proof {
        mm = mm + opt_item_of(sv_u8((match psk { Option::Some(s) => (match s.drive { Option::Some(u) => u.value, Option::None => Option::None }), Option::None => Option::None }), f, FieldId::SkillDrive));
    }
    let vu: Option<u8> = match sk {
        Some(s) => match &s.leadership {
            Some(u) => u.value,
            None => None,
        },
        None => None,
    };
    let o = match set_value_u8(vu, FieldId::SkillLeadership, cfg) {
        Ok(o) => o,
        Err(e) => {
            return Err(e);
        },
    };
    push_enc(&mut out, o, Ghost(mm), Ghost(sv_u8((match psk { Option::Some(s) => (match s.leadership { Option::Some(u) => u.value, Option::None => Option::None }), Option::None => Option::None }), f, FieldId::SkillLeadership)));
    proof {
        mm = mm + opt_item_of(sv_u8((match psk { Option::Some(s) => (match s.leadership { Option::Some(u) => u.value, Option::None => Option::None }), Option::None => Option::None }), f, FieldId::SkillLeadership));
    }
    let vu: Option<u8> = match sk {
        Some(s) => match &s.brawl {
            Some(u) => u.value,
            None => None,
        },
        None => None,
    };
    let o = match set_value_u8(vu, FieldId::SkillBrawl, cfg) {
        Ok(o) => o,
        Err(e) => {
            return Err(e);
        },
    };
    push_enc(&mut out, o, Ghost(mm), Ghost(sv_u8((match psk { Option::Some(s) => (match s.brawl { Option::Some(u) => u.value, Option::None => Option::None }), Option::None => Option::None }), f, FieldId::SkillBrawl)));
    proof {
        mm = mm + opt_item_of(sv_u8((match psk { Option::Some(s) => (match s.brawl { Option::Some(u) => u.value, Option::None => Option::None }), Option::None => Option::None }), f, FieldId::SkillBrawl));
    }
    Ok(out)
}


pub open spec fn enc_skills_err_b(sk: Option<SkillsUpdateInput>, f: Seq<FieldConfigEntry>) -> Option<
    TranscodeError,
> {
    let a = Option::<TranscodeError>::None;
    let a = step_res(a, sv_u8((match sk { Option::Some(s) => (match s.craft_a { Option::Some(u) => u.value, Option::None => Option::None }), Option::None => Option::None }), f, FieldId::SkillCraftA));
    let a = step_res(a, sv_tags((match sk { Option::Some(s) => (match s.craft_a { Option::Some(u) => u.foci, Option::None => Option::None }), Option::None => Option::None }), f, FieldId::SkillCraftASpecialization));
    let a = step_res(a, sv_u8((match sk { Option::Some(s) => (match s.craft_b { Option::Some(u) => u.value, Option::None => Option::None }), Option::None => Option::None }), f, FieldId::SkillCraftB));
    let a = step_res(a, sv_tags((match sk { Option::Some(s) => (match s.craft_b { Option::Some(u) => u.foci, Option::None => Option::None }), Option::None => Option::None }), f, FieldId::SkillCraftBSpecialization));
    let a = step_res(a, sv_u8((match sk { Option::Some(s) => (match s.stealth { Option::Some(u) => u.value, Option::None => Option::None }), Option::None => Option::None }), f, FieldId::SkillStealth));
    let a = step_res(a, sv_u8((match sk { Option::Some(s) => (match s.linguistics { Option::Some(u) => u.value, Option::None => Option::None }), Option::None => Option::None }), f, FieldId::SkillLinguistics));
    let a = step_res(a, sv_tags((match sk { Option::Some(s) => (match s.linguistics { Option::Some(u) => u.foci, Option::None => Option::None }), Option::None => Option::None }), f, FieldId::SkillLinguisticsSpecialization));
    let a = step_res(a, sv_u8((match sk { Option::Some(s) => (match s.awareness { Option::Some(u) => u.value, Option::None => Option::None }), Option::None => Option::None }), f, FieldId::SkillAwareness));
    let a = step_res(a, sv_u8((match sk { Option::Some(s) => (match s.medicine { Option::Some(u) => u.value, Option::None => Option::None }), Option::None => Option::None }), f, FieldId::SkillMedicine));
    a
}

pub open spec fn enc_skills_list_b(sk: Option<SkillsUpdateInput>, f: Seq<FieldConfigEntry>) -> Seq<
    BlockSpec,
> {
    let m = Seq::<BlockSpec>::empty();
    let m = m + opt_item_of(sv_u8((match sk { Option::Some(s) => (match s.craft_a { Option::Some(u) => u.value, Option::None => Option::None }), Option::None => Option::None }), f, FieldId::SkillCraftA));
    let m = m + opt_item_of(sv_tags((match sk { Option::Some(s) => (match s.craft_a { Option::Some(u) => u.foci, Option::None => Option::None }), Option::None => Option::None }), f, FieldId::SkillCraftASpecialization));
    let m = m + opt_item_of(sv_u8((match sk { Option::Some(s) => (match s.craft_b { Option::Some(u) => u.value, Option::None => Option::None }), Option::None => Option::None }), f, FieldId::SkillCraftB));
    let m = m + opt_item_of(sv_tags((match sk { Option::Some(s) => (match s.craft_b { Option::Some(u) => u.foci, Option::None => Option::None }), Option::None => Option::None }), f, FieldId::SkillCraftBSpecialization));
    let m = m + opt_item_of(sv_u8((match sk { Option::Some(s) => (match s.stealth { Option::Some(u) => u.value, Option::None => Option::None }), Option::None => Option::None }), f, FieldId::SkillStealth));
    let m = m + opt_item_of(sv_u8((match sk { Option::Some(s) => (match s.linguistics { Option::Some(u) => u.value, Option::None => Option::None }), Option::None => Option::None }), f, FieldId::SkillLinguistics));
    let m = m + opt_item_of(sv_tags((match sk { Option::Some(s) => (match s.linguistics { Option::Some(u) => u.foci, Option::None => Option::None }), Option::None => Option::None }), f, FieldId::SkillLinguisticsSpecialization));
    let m = m + opt_item_of(sv_u8((match sk { Option::Some(s) => (match s.awareness { Option::Some(u) => u.value, Option::None => Option::None }), Option::None => Option::None }), f, FieldId::SkillAwareness));
    let m = m + opt_item_of(sv_u8((match sk { Option::Some(s) => (match s.medicine { Option::Some(u) => u.value, Option::None => Option::None }), Option::None => Option::None }), f, FieldId::SkillMedicine));
    m
}

#[verifier::rlimit(100)]
fn encode_skills_blocks_b(sk: &Option<SkillsUpdateInput>, cfg: &ConfigClient) -> (r: Result<
    Vec<CellBlock>,
    TranscodeError,
>)
    ensures
        ({
            let f = cfg.settings.sheet_field@;
            match r {
                Ok(v) => enc_skills_err_b(*sk, f) is None && blocks_match(
                    v@,
                    enc_skills_list_b(*sk, f),
                ),
                Err(e) => enc_skills_err_b(*sk, f) == Some(e),
            }
        }),
{
    let ghost f = cfg.settings.sheet_field@;
    let ghost psk = *sk;
    let mut out: Vec<CellBlock> = Vec::new();
    let ghost mut mm: Seq<BlockSpec> = Seq::empty();
    let vu: Option<u8> = match sk {
        Some(s) => match &s.craft_a {
            Some(u) => u.value,
            None => None,
        },
        None => None,
    };
    let o = match set_value_u8(vu, FieldId::SkillCraftA, cfg) {
        Ok(o) => o,
        Err(e) => {
            return Err(e);
        },
    };
    push_enc(&mut out, o, Ghost(mm), Ghost(sv_u8((match psk { Option::Some(s) => (match s.craft_a { Option::Some(u) => u.value, Option::None => Option::None }), Option::None => Option::None }), f, FieldId::SkillCraftA)));
    proof {
        mm = mm + opt_item_of(sv_u8((match psk { Option::Some(s) => (match s.craft_a { Option::Some(u) => u.value, Option::None => Option::None }), Option::None => Option::None }), f, FieldId::SkillCraftA));
    }
    let vr: Option<&Vec<String>> = match sk {
        Some(s) => match &s.craft_a {
            Some(u) => match &u.foci {
                Some(v) => Some(v),
                None => None,
            },
            None => None,
        },
        None => None,
    };
    let o = match set_skill_specialization(vr, FieldId::SkillCraftASpecialization, cfg) {
        Ok(o) => o,
        Err(e) => {
            return Err(e);
        },
    };
    push_enc(&mut out, o, Ghost(mm), Ghost(sv_tags((match psk { Option::Some(s) => (match s.craft_a { Option::Some(u) => u.foci, Option::None => Option::None }), Option::None => Option::None }), f, FieldId::SkillCraftASpecialization)));
    proof {
        mm = mm + opt_item_of(sv_tags((match psk { Option::Some(s) => (match s.craft_a { Option::Some(u) => u.foci, Option::None => Option::None }), Option::None => Option::None }), f, FieldId::SkillCraftASpecialization));
    }
    let vu: Option<u8> = match sk {
        Some(s) => match &s.craft_b {
            Some(u) => u.value,
            None => None,
        },
        None => None,
    };
    let o = match set_value_u8(vu, FieldId::SkillCraftB, cfg) {
        Ok(o) => o,
        Err(e) => {
            return Err(e);
        },
    };
    push_enc(&mut out, o, Ghost(mm), Ghost(sv_u8((match psk { Option::Some(s) => (match s.craft_b { Option::Some(u) => u.value, Option::None => Option::None }), Option::None => Option::None }), f, FieldId::SkillCraftB)));
    proof {
        mm = mm + opt_item_of(sv_u8((match psk { Option::Some(s) => (match s.craft_b { Option::Some(u) => u.value, Option::None => Option::None }), Option::None => Option::None }), f, FieldId::SkillCraftB));
    }
    let vr: Option<&Vec<String>> = match sk {
        Some(s) => match &s.craft_b {
            Some(u) => match &u.foci {
                Some(v) => Some(v),
                None => None,
            },
            None => None,
        },
        None => None,
    };
    let o = match set_skill_specialization(vr, FieldId::SkillCraftBSpecialization, cfg) {
        Ok(o) => o,
        Err(e) => {
            return Err(e);
        },
    };
    push_enc(&mut out, o, Ghost(mm), Ghost(sv_tags((match psk { Option::Some(s) => (match s.craft_b { Option::Some(u) => u.foci, Option::None => Option::None }), Option::None => Option::None }), f, FieldId::SkillCraftBSpecialization)));
    proof {
        mm = mm + opt_item_of(sv_tags((match psk { Option::Some(s) => (match s.craft_b { Option::Some(u) => u.foci, Option::None => Option::None }), Option::None => Option::None }), f, FieldId::SkillCraftBSpecialization));
    }
    let vu: Option<u8> = match sk {
        Some(s) => match &s.stealth {
            Some(u) => u.value,
            None => None,
        },
        None => None,
    };
    let o = match set_value_u8(vu, FieldId::SkillStealth, cfg) {
        Ok(o) => o,
        Err(e) => {
            return Err(e);
        },
    };
    push_enc(&mut out, o, Ghost(mm), Ghost(sv_u8((match psk { Option::Some(s) => (match s.stealth { Option::Some(u) => u.value, Option::None => Option::None }), Option::None => Option::None }), f, FieldId::SkillStealth)));
    proof {
        mm = mm + opt_item_of(sv_u8((match psk { Option::Some(s) => (match s.stealth { Option::Some(u) => u.value, Option::None => Option::None }), Option::None => Option::None }), f, FieldId::SkillStealth));
    }
    let vu: Option<u8> = match sk {
        Some(s) => match &s.linguistics {
            Some(u) => u.value,
            None => None,
        },
        None => None,
    };
    let o = match set_value_u8(vu, FieldId::SkillLinguistics, cfg) {
        Ok(o) => o,
        Err(e) => {
            return Err(e);
        },
    };
    push_enc(&mut out, o, Ghost(mm), Ghost(sv_u8((match psk { Option::Some(s) => (match s.linguistics { Option::Some(u) => u.value, Option::None => Option::None }), Option::None => Option::None }), f, FieldId::SkillLinguistics)));
    proof {
        mm = mm + opt_item_of(sv_u8((match psk { Option::Some(s) => (match s.linguistics { Option::Some(u) => u.value, Option::None => Option::None }), Option::None => Option::None }), f, FieldId::SkillLinguistics));
    }
    let vr: Option<&Vec<String>> = match sk {
        Some(s) => match &s.linguistics {
            Some(u) => match &u.foci {
                Some(v) => Some(v),
                None => None,
            },
            None => None,
        },
        None => None,
    };
    let o = match set_skill_specialization(vr, FieldId::SkillLinguisticsSpecialization, cfg) {
        Ok(o) => o,
        Err(e) => {
            return Err(e);
        },
    };
    push_enc(&mut out, o, Ghost(mm), Ghost(sv_tags((match psk { Option::Some(s) => (match s.linguistics { Option::Some(u) => u.foci, Option::None => Option::None }), Option::None => Option::None }), f, FieldId::SkillLinguisticsSpecialization)));
    proof {
        mm = mm + opt_item_of(sv_tags((match psk { Option::Some(s) => (match s.linguistics { Option::Some(u) => u.foci, Option::None => Option::None }), Option::None => Option::None }), f, FieldId::SkillLinguisticsSpecialization));
    }
    let vu: Option<u8> = match sk {
        Some(s) => match &s.awareness {
            Some(u) => u.value,
            None => None,
        },
        None => None,
    };
    let o = match set_value_u8(vu, FieldId::SkillAwareness, cfg) {
        Ok(o) => o,
        Err(e) => {
            return Err(e);
        },
    };
    push_enc(&mut out, o, Ghost(mm), Ghost(sv_u8((match psk { Option::Some(s) => (match s.awareness { Option::Some(u) => u.value, Option::None => Option::None }), Option::None => Option::None }), f, FieldId::SkillAwareness)));
    proof {
        mm = mm + opt_item_of(sv_u8((match psk { Option::Some(s) => (match s.awareness { Option::Some(u) => u.value, Option::None => Option::None }), Option::None => Option::None }), f, FieldId::SkillAwareness));
    }
    let vu: Option<u8> = match sk {
        Some(s) => match &s.medicine {
            Some(u) => u.value,
            None => None,
        },
        None => None,
    };
    let o = match set_value_u8(vu, FieldId::SkillMedicine, cfg) {
        Ok(o) => o,
        Err(e) => {
            return Err(e);
        },
    };
    push_enc(&mut out, o, Ghost(mm), Ghost(sv_u8((match psk { Option::Some(s) => (match s.medicine { Option::Some(u) => u.value, Option::None => Option::None }), Option::None => Option::None }), f, FieldId::SkillMedicine)));
    proof {
        mm = mm + opt_item_of(sv_u8((match psk { Option::Some(s) => (match s.medicine { Option::Some(u) => u.value, Option::None => Option::None }), Option::None => Option::None }), f, FieldId::SkillMedicine));
    }
    Ok(out)
}


pub open spec fn enc_skills_err_c(sk: Option<SkillsUpdateInput>, f: Seq<FieldConfigEntry>) -> Option<
    TranscodeError,
> {
    let a = Option::<TranscodeError>::None;
    let a = step_res(a, sv_u8((match sk { Option::Some(s) => (match s.investigation { Option::Some(u) => u.value, Option::None => Option::None }), Option::None => Option::None }), f, FieldId::SkillInvestigation));
    let a = step_res(a, sv_u8((match sk { Option::Some(s) => (match s.melee { Option::Some(u) => u.value, Option::None => Option::None }), Option::None => Option::None }), f, FieldId::SkillMelee));
    let a = step_res(a, sv_u8((match sk { Option::Some(s) => (match s.science_a { Option::Some(u) => u.value, Option::None => Option::None }), Option::None => Option::None }), f, FieldId::SkillScienceA));
    let a = step_res(a, sv_tags((match sk { Option::Some(s) => (match s.science_a { Option::Some(u) => u.foci, Option::None => Option::None }), Option::None => Option::None }), f, FieldId::SkillScienceASpecialization));
    let a = step_res(a, sv_u8((match sk { Option::Some(s) => (match s.science_b { Option::Some(u) => u.value, Option::None => Option::None }), Option::None => Option::None }), f, FieldId::SkillScienceB));
    let a = step_res(a, sv_tags((match sk { Option::Some(s) => (match s.science_b { Option::Some(u) => u.foci, Option::None => Option::None }), Option::None => Option::None }), f, FieldId::SkillScienceBSpecialization));
    let a = step_res(a, sv_u8((match sk { Option::Some(s) => (match s.occult { Option::Some(u) => u.value, Option::None => Option::None }), Option::None => Option::None }), f, FieldId::SkillOccult));
    let a = step_res(a, sv_u8((match sk { Option::Some(s) => (match s.firearms { Option::Some(u) => u.value, Option::None => Option::None }), Option::None => Option::None }), f, FieldId::SkillFirearms));
    let a = step_res(a, sv_u8((match sk { Option::Some(s) => (match s.security { Option::Some(u) => u.value, Option::None => Option::None }), Option::None => Option::None }), f, FieldId::SkillSecurity));
    a
}

pub open spec fn enc_skills_list_c(sk: Option<SkillsUpdateInput>, f: Seq<FieldConfigEntry>) -> Seq<
    BlockSpec,
> {
    let m = Seq::<BlockSpec>::empty();
    let m = m + opt_item_of(sv_u8((match sk { Option::Some(s) => (match s.investigation { Option::Some(u) => u.value, Option::None => Option::None }), Option::None => Option::None }), f, FieldId::SkillInvestigation));
    let m = m + opt_item_of(sv_u8((match sk { Option::Some(s) => (match s.melee { Option::Some(u) => u.value, Option::None => Option::None }), Option::None => Option::None }), f, FieldId::SkillMelee));
    let m = m + opt_item_of(sv_u8((match sk { Option::Some(s) => (match s.science_a { Option::Some(u) => u.value, Option::None => Option::None }), Option::None => Option::None }), f, FieldId::SkillScienceA));
    let m = m + opt_item_of(sv_tags((match sk { Option::Some(s) => (match s.science_a { Option::Some(u) => u.foci, Option::None => Option::None }), Option::None => Option::None }), f, FieldId::SkillScienceASpecialization));
    let m = m + opt_item_of(sv_u8((match sk { Option::Some(s) => (match s.science_b { Option::Some(u) => u.value, Option::None => Option::None }), Option::None => Option::None }), f, FieldId::SkillScienceB));
    let m = m + opt_item_of(sv_tags((match sk { Option::Some(s) => (match s.science_b { Option::Some(u) => u.foci, Option::None => Option::None }), Option::None => Option::None }), f, FieldId::SkillScienceBSpecialization));
    let m = m + opt_item_of(sv_u8((match sk { Option::Some(s) => (match s.occult { Option::Some(u) => u.value, Option::None => Option::None }), Option::None => Option::None }), f, FieldId::SkillOccult));
    let m = m + opt_item_of(sv_u8((match sk { Option::Some(s) => (match s.firearms { Option::Some(u) => u.value, Option::None => Option::None }), Option::None => Option::None }), f, FieldId::SkillFirearms));
    let m = m + opt_item_of(sv_u8((match sk { Option::Some(s) => (match s.security { Option::Some(u) => u.value, Option::None => Option::None }), Option::None => Option::None }), f, FieldId::SkillSecurity));
    m
}

#[verifier::rlimit(100)]
fn encode_skills_blocks_c(sk: &Option<SkillsUpdateInput>, cfg: &ConfigClient) -> (r: Result<
    Vec<CellBlock>,
    TranscodeError,
>)
    ensures
        ({
            let f = cfg.settings.sheet_field@;
            match r {
                Ok(v) => enc_skills_err_c(*sk, f) is None && blocks_match(
                    v@,
                    enc_skills_list_c(*sk, f),
                ),
                Err(e) => enc_skills_err_c(*sk, f) == Some(e),
            }
        }),
{
    let ghost f = cfg.settings.sheet_field@;
    let ghost psk = *sk;
    let mut out: Vec<CellBlock> = Vec::new();
    let ghost mut mm: Seq<BlockSpec> = Seq::empty();
    let vu: Option<u8> = match sk {
        Some(s) => match &s.investigation {
            Some(u) => u.value,
            None => None,
        },
        None => None,
    };
    let o = match set_value_u8(vu, FieldId::SkillInvestigation, cfg) {
        Ok(o) => o,
        Err(e) => {
            return Err(e);
        },
    };
    push_enc(&mut out, o, Ghost(mm), Ghost(sv_u8((match psk { Option::Some(s) => (match s.investigation { Option::Some(u) => u.value, Option::None => Option::None }), Option::None => Option::None }), f, FieldId::SkillInvestigation)));
    proof {
        mm = mm + opt_item_of(sv_u8((match psk { Option::Some(s) => (match s.investigation { Option::Some(u) => u.value, Option::None => Option::None }), Option::None => Option::None }), f, FieldId::SkillInvestigation));
    }
    let vu: Option<u8> = match sk {
        Some(s) => match &s.melee {
            Some(u) => u.value,
            None => None,
        },
        None => None,
    };
    let o = match set_value_u8(vu, FieldId::SkillMelee, cfg) {
        Ok(o) => o,
        Err(e) => {
            return Err(e);
        },
    };
    push_enc(&mut out, o, Ghost(mm), Ghost(sv_u8((match psk { Option::Some(s) => (match s.melee { Option::Some(u) => u.value, Option::None => Option::None }), Option::None => Option::None }), f, FieldId::SkillMelee)));
    proof {
        mm = mm + opt_item_of(sv_u8((match psk { Option::Some(s) => (match s.melee { Option::Some(u) => u.value, Option::None => Option::None }), Option::None => Option::None }), f, FieldId::SkillMelee));
    }
    let vu: Option<u8> = match sk {
        Some(s) => match &s.science_a {
            Some(u) => u.value,
            None => None,
        },
        None => None,
    };
    let o = match set_value_u8(vu, FieldId::SkillScienceA, cfg) {
        Ok(o) => o,
        Err(e) => {
            return Err(e);
        },
    };
    push_enc(&mut out, o, Ghost(mm), Ghost(sv_u8((match psk { Option::Some(s) => (match s.science_a { Option::Some(u) => u.value, Option::None => Option::None }), Option::None => Option::None }), f, FieldId::SkillScienceA)));
    proof {
        mm = mm + opt_item_of(sv_u8((match psk { Option::Some(s) => (match s.science_a { Option::Some(u) => u.value, Option::None => Option::None }), Option::None => Option::None }), f, FieldId::SkillScienceA));
    }
    let vr: Option<&Vec<String>> = match sk {
        Some(s) => match &s.science_a {
            Some(u) => match &u.foci {
                Some(v) => Some(v),
                None => None,
            },
            None => None,
        },
        None => None,
    };
    let o = match set_skill_specialization(vr, FieldId::SkillScienceASpecialization, cfg) {
        Ok(o) => o,
        Err(e) => {
            return Err(e);
        },
    };
    push_enc(&mut out, o, Ghost(mm), Ghost(sv_tags((match psk { Option::Some(s) => (match s.science_a { Option::Some(u) => u.foci, Option::None => Option::None }), Option::None => Option::None }), f, FieldId::SkillScienceASpecialization)));
    proof {
        mm = mm + opt_item_of(sv_tags((match psk { Option::Some(s) => (match s.science_a { Option::Some(u) => u.foci, Option::None => Option::None }), Option::None => Option::None }), f, FieldId::SkillScienceASpecialization));
    }
    let vu: Option<u8> = match sk {
        Some(s) => match &s.science_b {
            Some(u) => u.value,
            None => None,
        },
        None => None,
    };
    let o = match set_value_u8(vu, FieldId::SkillScienceB, cfg) {
        Ok(o) => o,
        Err(e) => {
            return Err(e);
        },
    };
    push_enc(&mut out, o, Ghost(mm), Ghost(sv_u8((match psk { Option::Some(s) => (match s.science_b { Option::Some(u) => u.value, Option::None => Option::None }), Option::None => Option::None }), f, FieldId::SkillScienceB)));
    proof {
        mm = mm + opt_item_of(sv_u8((match psk { Option::Some(s) => (match s.science_b { Option::Some(u) => u.value, Option::None => Option::None }), Option::None => Option::None }), f, FieldId::SkillScienceB));
    }
    let vr: Option<&Vec<String>> = match sk {
        Some(s) => match &s.science_b {
            Some(u) => match &u.foci {
                Some(v) => Some(v),
                None => None,
            },
            None => None,
        },
        None => None,
    };
    let o = match set_skill_specialization(vr, FieldId::SkillScienceBSpecialization, cfg) {
        Ok(o) => o,
        Err(e) => {
            return Err(e);
        },
    };
    push_enc(&mut out, o, Ghost(mm), Ghost(sv_tags((match psk { Option::Some(s) => (match s.science_b { Option::Some(u) => u.foci, Option::None => Option::None }), Option::None => Option::None }), f, FieldId::SkillScienceBSpecialization)));
    proof {
        mm = mm + opt_item_of(sv_tags((match psk { Option::Some(s) => (match s.science_b { Option::Some(u) => u.foci, Option::None => Option::None }), Option::None => Option::None }), f, FieldId::SkillScienceBSpecialization));
    }
    let vu: Option<u8> = match sk {
        Some(s) => match &s.occult {
            Some(u) => u.value,
            None => None,
        },
        None => None,
    };
    let o = match set_value_u8(vu, FieldId::SkillOccult, cfg) {
        Ok(o) => o,
        Err(e) => {
            return Err(e);
        },
    };
    push_enc(&mut out, o, Ghost(mm), Ghost(sv_u8((match psk { Option::Some(s) => (match s.occult { Option::Some(u) => u.value, Option::None => Option::None }), Option::None => Option::None }), f, FieldId::SkillOccult)));
    proof {
        mm = mm + opt_item_of(sv_u8((match psk { Option::Some(s) => (match s.occult { Option::Some(u) => u.value, Option::None => Option::None }), Option::None => Option::None }), f, FieldId::SkillOccult));
    }
    let vu: Option<u8> = match sk {
        Some(s) => match &s.firearms {
            Some(u) => u.value,
            None => None,
        },
        None => None,
    };
    let o = match set_value_u8(vu, FieldId::SkillFirearms, cfg) {
        Ok(o) => o,
        Err(e) => {
            return Err(e);
        },
    };
    push_enc(&mut out, o, Ghost(mm), Ghost(sv_u8((match psk { Option::Some(s) => (match s.firearms { Option::Some(u) => u.value, Option::None => Option::None }), Option::None => Option::None }), f, FieldId::SkillFirearms)));
    proof {
        mm = mm + opt_item_of(sv_u8((match psk { Option::Some(s) => (match s.firearms { Option::Some(u) => u.value, Option::None => Option::None }), Option::None => Option::None }), f, FieldId::SkillFirearms));
    }
    let vu: Option<u8> = match sk {
        Some(s) => match &s.security {
            Some(u) => u.value,
            None => None,
        },
        None => None,
    };
    let o = match set_value_u8(vu, FieldId::SkillSecurity, cfg) {
        Ok(o) => o,
        Err(e) => {
            return Err(e);
        },
    };
    push_enc(&mut out, o, Ghost(mm), Ghost(sv_u8((match psk { Option::Some(s) => (match s.security { Option::Some(u) => u.value, Option::None => Option::None }), Option::None => Option::None }), f, FieldId::SkillSecurity)));
    proof {
        mm = mm + opt_item_of(sv_u8((match psk { Option::Some(s) => (match s.security { Option::Some(u) => u.value, Option::None => Option::None }), Option::None => Option::None }), f, FieldId::SkillSecurity));
    }
    Ok(out)
}


pub open spec fn enc_skills_err_d(sk: Option<SkillsUpdateInput>, f: Seq<FieldConfigEntry>) -> Option<
    TranscodeError,
> {
    let a = Option::<TranscodeError>::None;
    let a = step_res(a, sv_u8((match sk { Option::Some(s) => (match s.athletics { Option::Some(u) => u.value, Option::None => Option::None }), Option::None => Option::None }), f, FieldId::SkillAthletics));
    let a = step_res(a, sv_u8((match sk { Option::Some(s) => (match s.streetwise { Option::Some(u) => u.value, Option::None => Option::None }), Option::None => Option::None }), f, FieldId::SkillStreetwise));
    let a = step_res(a, sv_u8((match sk { Option::Some(s) => (match s.animal_ken { Option::Some(u) => u.value, Option::None => Option::None }), Option::None => Option::None }), f, FieldId::SkillAnimalKen));
    let a = step_res(a, sv_u8((match sk { Option::Some(s) => (match s.survival { Option::Some(u) => u.value, Option::None => Option::None }), Option::None => Option::None }), f, FieldId::SkillSurvival));
    let a = step_res(a, sv_u8((match sk { Option::Some(s) => (match s.performance_a { Option::Some(u) => u.value, Option::None => Option::None }), Option::None => Option::None }), f, FieldId::SkillPerformanceA));
    let a = step_res(a, sv_tags((match sk { Option::Some(s) => (match s.performance_a { Option::Some(u) => u.foci, Option::None => Option::None }), Option::None => Option::None }), f, FieldId::SkillPerformanceASpecialization));
    let a = step_res(a, sv_u8((match sk { Option::Some(s) => (match s.performance_b { Option::Some(u) => u.value, Option::None => Option::None }), Option::None => Option::None }), f, FieldId::SkillPerformanceB));
    let a = step_res(a, sv_tags((match sk { Option::Some(s) => (match s.performance_b { Option::Some(u) => u.foci, Option::None => Option::None }), Option::None => Option::None }), f, FieldId::SkillPerformanceBSpecialization));
    let a = step_res(a, sv_u8((match sk { Option::Some(s) => (match s.lore { Option::Some(u) => u.value, Option::None => Option::None }), Option::None => Option::None }), f, FieldId::SkillLore));
    let a = step_res(a, sv_tags((match sk { Option::Some(s) => (match s.lore { Option::Some(u) => u.foci, Option::None => Option::None }), Option::None => Option::None }), f, FieldId::SkillLoreSpecialization));
    a
}

pub open spec fn enc_skills_list_d(sk: Option<SkillsUpdateInput>, f: Seq<FieldConfigEntry>) -> Seq<
    BlockSpec,
> {
    let m = Seq::<BlockSpec>::empty();
    let m = m + opt_item_of(sv_u8((match sk { Option::Some(s) => (match s.athletics { Option::Some(u) => u.value, Option::None => Option::None }), Option::None => Option::None }), f, FieldId::SkillAthletics));
    let m = m + opt_item_of(sv_u8((match sk { Option::Some(s) => (match s.streetwise { Option::Some(u) => u.value, Option::None => Option::None }), Option::None => Option::None }), f, FieldId::SkillStreetwise));
    let m = m + opt_item_of(sv_u8((match sk { Option::Some(s) => (match s.animal_ken { Option::Some(u) => u.value, Option::None => Option::None }), Option::None => Option::None }), f, FieldId::SkillAnimalKen));
    let m = m + opt_item_of(sv_u8((match sk { Option::Some(s) => (match s.survival { Option::Some(u) => u.value, Option::None => Option::None }), Option::None => Option::None }), f, FieldId::SkillSurvival));
    let m = m + opt_item_of(sv_u8((match sk { Option::Some(s) => (match s.performance_a { Option::Some(u) => u.value, Option::None => Option::None }), Option::None => Option::None }), f, FieldId::SkillPerformanceA));
    let m = m + opt_item_of(sv_tags((match sk { Option::Some(s) => (match s.performance_a { Option::Some(u) => u.foci, Option::None => Option::None }), Option::None => Option::None }), f, FieldId::SkillPerformanceASpecialization));
    let m = m + opt_item_of(sv_u8((match sk { Option::Some(s) => (match s.performance_b { Option::Some(u) => u.value, Option::None => Option::None }), Option::None => Option::None }), f, FieldId::SkillPerformanceB));
    let m = m + opt_item_of(sv_tags((match sk { Option::Some(s) => (match s.performance_b { Option::Some(u) => u.foci, Option::None => Option::None }), Option::None => Option::None }), f, FieldId::SkillPerformanceBSpecialization));
    let m = m + opt_item_of(sv_u8((match sk { Option::Some(s) => (match s.lore { Option::Some(u) => u.value, Option::None => Option::None }), Option::None => Option::None }), f, FieldId::SkillLore));
    let m = m + opt_item_of(sv_tags((match sk { Option::Some(s) => (match s.lore { Option::Some(u) => u.foci, Option::None => Option::None }), Option::None => Option::None }), f, FieldId::SkillLoreSpecialization));
    m
}

#[verifier::rlimit(100)]
fn encode_skills_blocks_d(sk: &Option<SkillsUpdateInput>, cfg: &ConfigClient) -> (r: Result<
    Vec<CellBlock>,
    TranscodeError,
>)
    ensures
        ({
            let f = cfg.settings.sheet_field@;
            match r {
                Ok(v) => enc_skills_err_d(*sk, f) is None && blocks_match(
                    v@,
                    enc_skills_list_d(*sk, f),
                ),
                Err(e) => enc_skills_err_d(*sk, f) == Some(e),
            }
        }),
{
    let ghost f = cfg.settings.sheet_field@;
    let ghost psk = *sk;
    let mut out: Vec<CellBlock> = Vec::new();
    let ghost mut mm: Seq<BlockSpec> = Seq::empty();
    let vu: Option<u8> = match sk {
        Some(s) => match &s.athletics {
            Some(u) => u.value,
            None => None,
        },
        None => None,
    };
    let o = match set_value_u8(vu, FieldId::SkillAthletics, cfg) {
        Ok(o) => o,
        Err(e) => {
            return Err(e);
        },
    };
    push_enc(&mut out, o, Ghost(mm), Ghost(sv_u8((match psk { Option::Some(s) => (match s.athletics { Option::Some(u) => u.value, Option::None => Option::None }), Option::None => Option::None }), f, FieldId::SkillAthletics)));
    proof {
        mm = mm + opt_item_of(sv_u8((match psk { Option::Some(s) => (match s.athletics { Option::Some(u) => u.value, Option::None => Option::None }), Option::None => Option::None }), f, FieldId::SkillAthletics));
    }
    let vu: Option<u8> = match sk {
        Some(s) => match &s.streetwise {
            Some(u) => u.value,
            None => None,
        },
        None => None,
    };
    let o = match set_value_u8(vu, FieldId::SkillStreetwise, cfg) {
        Ok(o) => o,
        Err(e) => {
            return Err(e);
        },
    };
    push_enc(&mut out, o, Ghost(mm), Ghost(sv_u8((match psk { Option::Some(s) => (match s.streetwise { Option::Some(u) => u.value, Option::None => Option::None }), Option::None => Option::None }), f, FieldId::SkillStreetwise)));
    proof {
        mm = mm + opt_item_of(sv_u8((match psk { Option::Some(s) => (match s.streetwise { Option::Some(u) => u.value, Option::None => Option::None }), Option::None => Option::None }), f, FieldId::SkillStreetwise));
    }
    let vu: Option<u8> = match sk {
        Some(s) => match &s.animal_ken {
            Some(u) => u.value,
            None => None,
        },
        None => None,
    };
    let o = match set_value_u8(vu, FieldId::SkillAnimalKen, cfg) {
        Ok(o) => o,
        Err(e) => {
            return Err(e);
        },
    };
    push_enc(&mut out, o, Ghost(mm), Ghost(sv_u8((match psk { Option::Some(s) => (match s.animal_ken { Option::Some(u) => u.value, Option::None => Option::None }), Option::None => Option::None }), f, FieldId::SkillAnimalKen)));
    proof {
        mm = mm + opt_item_of(sv_u8((match psk { Option::Some(s) => (match s.animal_ken { Option::Some(u) => u.value, Option::None => Option::None }), Option::None => Option::None }), f, FieldId::SkillAnimalKen));
    }
    let vu: Option<u8> = match sk {
        Some(s) => match &s.survival {
            Some(u) => u.value,
            None => None,
        },
        None => None,
    };
    let o = match set_value_u8(vu, FieldId::SkillSurvival, cfg) {
        Ok(o) => o,
        Err(e) => {
            return Err(e);
        },
    };
    push_enc(&mut out, o, Ghost(mm), Ghost(sv_u8((match psk { Option::Some(s) => (match s.survival { Option::Some(u) => u.value, Option::None => Option::None }), Option::None => Option::None }), f, FieldId::SkillSurvival)));
    proof {
        mm = mm + opt_item_of(sv_u8((match psk { Option::Some(s) => (match s.survival { Option::Some(u) => u.value, Option::None => Option::None }), Option::None => Option::None }), f, FieldId::SkillSurvival));
    }
    let vu: Option<u8> = match sk {
        Some(s) => match &s.performance_a {
            Some(u) => u.value,
            None => None,
        },
        None => None,
    };
    let o = match set_value_u8(vu, FieldId::SkillPerformanceA, cfg) {
        Ok(o) => o,
        Err(e) => {
            return Err(e);
        },
    };
    push_enc(&mut out, o, Ghost(mm), Ghost(sv_u8((match psk { Option::Some(s) => (match s.performance_a { Option::Some(u) => u.value, Option::None => Option::None }), Option::None => Option::None }), f, FieldId::SkillPerformanceA)));
    proof {
        mm = mm + opt_item_of(sv_u8((match psk { Option::Some(s) => (match s.performance_a { Option::Some(u) => u.value, Option::None => Option::None }), Option::None => Option::None }), f, FieldId::SkillPerformanceA));
    }
    let vr: Option<&Vec<String>> = match sk {
        Some(s) => match &s.performance_a {
            Some(u) => match &u.foci {
                Some(v) => Some(v),
                None => None,
            },
            None => None,
        },
        None => None,
    };
    let o = match set_skill_specialization(vr, FieldId::SkillPerformanceASpecialization, cfg) {
        Ok(o) => o,
        Err(e) => {
            return Err(e);
        },
    };
    push_enc(&mut out, o, Ghost(mm), Ghost(sv_tags((match psk { Option::Some(s) => (match s.performance_a { Option::Some(u) => u.foci, Option::None => Option::None }), Option::None => Option::None }), f, FieldId::SkillPerformanceASpecialization)));
    proof {
        mm = mm + opt_item_of(sv_tags((match psk { Option::Some(s) => (match s.performance_a { Option::Some(u) => u.foci, Option::None => Option::None }), Option::None => Option::None }), f, FieldId::SkillPerformanceASpecialization));
    }
    let vu: Option<u8> = match sk {
        Some(s) => match &s.performance_b {
            Some(u) => u.value,
            None => None,
        },
        None => None,
    };
    let o = match set_value_u8(vu, FieldId::SkillPerformanceB, cfg) {
        Ok(o) => o,
        Err(e) => {
            return Err(e);
        },
    };
    push_enc(&mut out, o, Ghost(mm), Ghost(sv_u8((match psk { Option::Some(s) => (match s.performance_b { Option::Some(u) => u.value, Option::None => Option::None }), Option::None => Option::None }), f, FieldId::SkillPerformanceB)));
    proof {
        mm = mm + opt_item_of(sv_u8((match psk { Option::Some(s) => (match s.performance_b { Option::Some(u) => u.value, Option::None => Option::None }), Option::None => Option::None }), f, FieldId::SkillPerformanceB));
    }
    let vr: Option<&Vec<String>> = match sk {
        Some(s) => match &s.performance_b {
            Some(u) => match &u.foci {
                Some(v) => Some(v),
                None => None,
            },
            None => None,
        },
        None => None,
    };
    let o = match set_skill_specialization(vr, FieldId::SkillPerformanceBSpecialization, cfg) {
        Ok(o) => o,
        Err(e) => {
            return Err(e);
        },
    };
    push_enc(&mut out, o, Ghost(mm), Ghost(sv_tags((match psk { Option::Some(s) => (match s.performance_b { Option::Some(u) => u.foci, Option::None => Option::None }), Option::None => Option::None }), f, FieldId::SkillPerformanceBSpecialization)));
    proof {
        mm = mm + opt_item_of(sv_tags((match psk { Option::Some(s) => (match s.performance_b { Option::Some(u) => u.foci, Option::None => Option::None }), Option::None => Option::None }), f, FieldId::SkillPerformanceBSpecialization));
    }
    let vu: Option<u8> = match sk {
        Some(s) => match &s.lore {
            Some(u) => u.value,
            None => None,
        },
        None => None,
    };
    let o = match set_value_u8(vu, FieldId::SkillLore, cfg) {
        Ok(o) => o,
        Err(e) => {
            return Err(e);
        },
    };
    push_enc(&mut out, o, Ghost(mm), Ghost(sv_u8((match psk { Option::Some(s) => (match s.lore { Option::Some(u) => u.value, Option::None => Option::None }), Option::None => Option::None }), f, FieldId::SkillLore)));
    proof {
        mm = mm + opt_item_of(sv_u8((match psk { Option::Some(s) => (match s.lore { Option::Some(u) => u.value, Option::None => Option::None }), Option::None => Option::None }), f, FieldId::SkillLore));
    }
    let vr: Option<&Vec<String>> = match sk {
        Some(s) => match &s.lore {
            Some(u) => match &u.foci {
                Some(v) => Some(v),
                None => None,
            },
            None => None,
        },
        None => None,
    };
    let o = match set_skill_specialization(vr, FieldId::SkillLoreSpecialization, cfg) {
        Ok(o) => o,
        Err(e) => {
            return Err(e);
        },
    };
    push_enc(&mut out, o, Ghost(mm), Ghost(sv_tags((match psk { Option::Some(s) => (match s.lore { Option::Some(u) => u.foci, Option::None => Option::None }), Option::None => Option::None }), f, FieldId::SkillLoreSpecialization)));
    proof {
        mm = mm + opt_item_of(sv_tags((match psk { Option::Some(s) => (match s.lore { Option::Some(u) => u.foci, Option::None => Option::None }), Option::None => Option::None }), f, FieldId::SkillLoreSpecialization));
    }
    Ok(out)
}


pub open spec fn enc_skills_err(sk: Option<SkillsUpdateInput>, f: Seq<FieldConfigEntry>) -> Option<
    TranscodeError,
> {
    let a = step2(None, enc_skills_err_a(sk, f));
    let a = step2(a, enc_skills_err_b(sk, f));
    let a = step2(a, enc_skills_err_c(sk, f));
    let a = step2(a, enc_skills_err_d(sk, f));
    a
}

pub open spec fn enc_skills_list(sk: Option<SkillsUpdateInput>, f: Seq<FieldConfigEntry>) -> Seq<
    BlockSpec,
> {
    enc_skills_list_a(sk, f) + enc_skills_list_b(sk, f) + enc_skills_list_c(sk, f)
        + enc_skills_list_d(sk, f)
}

/// Encodes the skill values and specializations, in the batch's field order.
fn encode_skills_blocks(sk: &Option<SkillsUpdateInput>, cfg: &ConfigClient) -> (r: Result<
    Vec<CellBlock>,
    TranscodeError,
>)
    ensures
        ({
            let f = cfg.settings.sheet_field@;
            match r {
                Ok(v) => enc_skills_err(*sk, f) is None && blocks_match(v@, enc_skills_list(*sk, f)),
                Err(e) => enc_skills_err(*sk, f) == Some(e),
            }
        }),
{
    let ghost f = cfg.settings.sheet_field@;
    let mut out = match encode_skills_blocks_a(sk, cfg) {
        Ok(v) => v,
        Err(e) => {
            return Err(e);
        },
    };
    let mut gb = match encode_skills_blocks_b(sk, cfg) {
        Ok(v) => v,
        Err(e) => {
            return Err(e);
        },
    };
    proof {
        lemma_blocks_match_concat(
            out@,
            enc_skills_list_a(*sk, f),
            gb@,
            enc_skills_list_b(*sk, f),
        );
    }
    out.append(&mut gb);
    let mut gc = match encode_skills_blocks_c(sk, cfg) {
        Ok(v) => v,
        Err(e) => {
            return Err(e);
        },
    };
    proof {
        lemma_blocks_match_concat(
            out@,
            enc_skills_list_a(*sk, f) + enc_skills_list_b(*sk, f),
            gc@,
            enc_skills_list_c(*sk, f),
        );
    }
    out.append(&mut gc);
    let mut gd = match encode_skills_blocks_d(sk, cfg) {
        Ok(v) => v,
        Err(e) => {
            return Err(e);
        },
    };
    proof {
        lemma_blocks_match_concat(
            out@,
            enc_skills_list_a(*sk, f) + enc_skills_list_b(*sk, f) + enc_skills_list_c(*sk, f),
            gd@,
            enc_skills_list_d(*sk, f),
        );
    }
    out.append(&mut gd);
    Ok(out)
}

pub open spec fn enc_powers_err(pw: Option<PowersUpdateInput>, f: Seq<FieldConfigEntry>) -> Option<
    TranscodeError,
> {
    let idc = (match pw { Option::Some(w) => w.in_clan_disciplines, Option::None => Option::None });
    let odc = (match pw { Option::Some(w) => w.out_of_clan_disciplines, Option::None => Option::None });
    let tq = (match pw { Option::Some(w) => w.techniques, Option::None => Option::None });
    let iep = (match pw { Option::Some(w) => w.in_clan_elder_powers, Option::None => Option::None });
    let oep = (match pw { Option::Some(w) => w.out_of_clan_elder_powers, Option::None => Option::None });
    let a = step_res(None, sv_disc(idc, f, FieldId::InClanDisciplines));
    let a = step_res(a, sv_disc(odc, f, FieldId::OutOfClanDisciplines));
    let a = step_res(a, sv_vec(tq, f, FieldId::Techniques, ""@));
    let a = step_res(a, sv_vec(iep, f, FieldId::InClanElderPowers, sentinel_seq()));
    let a = step_res(a, sv_vec(oep, f, FieldId::OutOfClanElderPowers, sentinel_seq()));
    a
}

pub open spec fn enc_powers_list(pw: Option<PowersUpdateInput>, f: Seq<FieldConfigEntry>) -> Seq<
    BlockSpec,
> {
    let idc = (match pw { Option::Some(w) => w.in_clan_disciplines, Option::None => Option::None });
    let odc = (match pw { Option::Some(w) => w.out_of_clan_disciplines, Option::None => Option::None });
    let tq = (match pw { Option::Some(w) => w.techniques, Option::None => Option::None });
    let iep = (match pw { Option::Some(w) => w.in_clan_elder_powers, Option::None => Option::None });
    let oep = (match pw { Option::Some(w) => w.out_of_clan_elder_powers, Option::None => Option::None });
    let m = opt_item_of(sv_disc(idc, f, FieldId::InClanDisciplines));
    let m = m + opt_item_of(sv_disc(odc, f, FieldId::OutOfClanDisciplines));
    let m = m + opt_item_of(sv_vec(tq, f, FieldId::Techniques, ""@));
    let m = m + opt_item_of(sv_vec(iep, f, FieldId::InClanElderPowers, sentinel_seq()));
    let m = m + opt_item_of(sv_vec(oep, f, FieldId::OutOfClanElderPowers, sentinel_seq()));
    m
}

/// Encodes the powers block: both discipline lists, techniques and the two
/// elder power lists.
#[verifier::rlimit(100)]
fn encode_powers_blocks(pw: &Option<PowersUpdateInput>, cfg: &ConfigClient) -> (r: Result<
    Vec<CellBlock>,
    TranscodeError,
>)
    ensures
        ({
            let f = cfg.settings.sheet_field@;
            match r {
                Ok(v) => enc_powers_err(*pw, f) is None && blocks_match(v@, enc_powers_list(*pw, f)),
                Err(e) => enc_powers_err(*pw, f) == Some(e),
            }
        }),
{
    let ghost f = cfg.settings.sheet_field@;
    let ghost ppw = *pw;
    let mut out: Vec<CellBlock> = Vec::new();
    let ghost mut mm: Seq<BlockSpec> = Seq::empty();
    let vr: Option<&Vec<DisciplineUpdateInput>> = match pw {
        Some(w) => match &w.in_clan_disciplines {
            Some(v) => Some(v),
            None => None,
        },
        None => None,
    };
    let o = match set_disciplines(vr, FieldId::InClanDisciplines, cfg) {
        Ok(o) => o,
        Err(e) => {
            return Err(e);
        },
    };
    push_enc(&mut out, o, Ghost(mm), Ghost(sv_disc((match ppw { Option::Some(w) => w.in_clan_disciplines, Option::None => Option::None }), f, FieldId::InClanDisciplines)));
    proof {
        mm = mm + opt_item_of(sv_disc((match ppw { Option::Some(w) => w.in_clan_disciplines, Option::None => Option::None }), f, FieldId::InClanDisciplines));
    }
    let vr: Option<&Vec<DisciplineUpdateInput>> = match pw {
        Some(w) => match &w.out_of_clan_disciplines {
            Some(v) => Some(v),
            None => None,
        },
        None => None,
    };
    let o = match set_disciplines(vr, FieldId::OutOfClanDisciplines, cfg) {
        Ok(o) => o,
        Err(e) => {
            return Err(e);
        },
    };
    push_enc(&mut out, o, Ghost(mm), Ghost(sv_disc((match ppw { Option::Some(w) => w.out_of_clan_disciplines, Option::None => Option::None }), f, FieldId::OutOfClanDisciplines)));
    proof {
        mm = mm + opt_item_of(sv_disc((match ppw { Option::Some(w) => w.out_of_clan_disciplines, Option::None => Option::None }), f, FieldId::OutOfClanDisciplines));
    }
    let vr: Option<&Vec<String>> = match pw {
        Some(w) => match &w.techniques {
            Some(v) => Some(v),
            None => None,
        },
        None => None,
    };
    let o = match set_value_vec(vr, FieldId::Techniques, cfg, Some("")) {
        Ok(o) => o,
        Err(e) => {
            return Err(e);
        },
    };
    push_enc(&mut out, o, Ghost(mm), Ghost(sv_vec((match ppw { Option::Some(w) => w.techniques, Option::None => Option::None }), f, FieldId::Techniques, ""@)));
    proof {
        mm = mm + opt_item_of(sv_vec((match ppw { Option::Some(w) => w.techniques, Option::None => Option::None }), f, FieldId::Techniques, ""@));
    }
    let vr: Option<&Vec<String>> = match pw {
        Some(w) => match &w.in_clan_elder_powers {
            Some(v) => Some(v),
            None => None,
        },
        None => None,
    };
    let o = match set_value_vec(vr, FieldId::InClanElderPowers, cfg, None) {
        Ok(o) => o,
        Err(e) => {
            return Err(e);
        },
    };
    push_enc(&mut out, o, Ghost(mm), Ghost(sv_vec((match ppw { Option::Some(w) => w.in_clan_elder_powers, Option::None => Option::None }), f, FieldId::InClanElderPowers, sentinel_seq())));
    proof {
        mm = mm + opt_item_of(sv_vec((match ppw { Option::Some(w) => w.in_clan_elder_powers, Option::None => Option::None }), f, FieldId::InClanElderPowers, sentinel_seq()));
    }
    let vr: Option<&Vec<String>> = match pw {
        Some(w) => match &w.out_of_clan_elder_powers {
            Some(v) => Some(v),
            None => None,
        },
        None => None,
    };
    let o = match set_value_vec(vr, FieldId::OutOfClanElderPowers, cfg, None) {
        Ok(o) => o,
        Err(e) => {
            return Err(e);
        },
    };
    push_enc(&mut out, o, Ghost(mm), Ghost(sv_vec((match ppw { Option::Some(w) => w.out_of_clan_elder_powers, Option::None => Option::None }), f, FieldId::OutOfClanElderPowers, sentinel_seq())));
    proof {
        mm = mm + opt_item_of(sv_vec((match ppw { Option::Some(w) => w.out_of_clan_elder_powers, Option::None => Option::None }), f, FieldId::OutOfClanElderPowers, sentinel_seq()));
    }
    Ok(out)
}

pub open spec fn enc_social_err(p: PlayerCharacterUpdateInput, f: Seq<FieldConfigEntry>) -> Option<
    TranscodeError,
> {
    let mn = (match p.morality { Option::Some(m) => m.name, Option::None => Option::None });
    let mv = (match p.morality { Option::Some(m) => m.value, Option::None => Option::None });
    let a = step_res(None, sv_str(mn, f, FieldId::MoralityName));
    let a = step_res(a, sv_u8(mv, f, FieldId::MoralityValue));
    let a = step_res(a, sv_str(p.faction, f, FieldId::FactionName));
    a
}

pub open spec fn enc_social_list(p: PlayerCharacterUpdateInput, f: Seq<FieldConfigEntry>) -> Seq<
    BlockSpec,
> {
    let mn = (match p.morality { Option::Some(m) => m.name, Option::None => Option::None });
    let mv = (match p.morality { Option::Some(m) => m.value, Option::None => Option::None });
    let m = opt_item_of(sv_str(mn, f, FieldId::MoralityName));
    let m = m + opt_item_of(sv_u8(mv, f, FieldId::MoralityValue));
    let m = m + opt_item_of(sv_str(p.faction, f, FieldId::FactionName));
    m
}

/// Encodes the morality pair and the faction name.
fn encode_social_blocks(p: &PlayerCharacterUpdateInput, cfg: &ConfigClient) -> (r: Result<
    Vec<CellBlock>,
    TranscodeError,
>)
    ensures
        ({
            let f = cfg.settings.sheet_field@;
            match r {
                Ok(v) => enc_social_err(*p, f) is None && blocks_match(v@, enc_social_list(*p, f)),
                Err(e) => enc_social_err(*p, f) == Some(e),
            }
        }),
{
    let ghost f = cfg.settings.sheet_field@;
    let ghost pp = *p;
    let mut out: Vec<CellBlock> = Vec::new();
    let ghost mut mm: Seq<BlockSpec> = Seq::empty();
    let vref: Option<&String> = match &p.morality {
        Some(m) => match &m.name {
            Some(s) => Some(s),
            None => None,
        },
        None => None,
    };
    let o = match set_value_string(vref, FieldId::MoralityName, cfg) {
        Ok(o) => o,
        Err(e) => {
            return Err(e);
        },
    };
    push_enc(&mut out, o, Ghost(mm), Ghost(sv_str((match pp.morality { Option::Some(m) => m.name, Option::None => Option::None }), f, FieldId::MoralityName)));
    proof {
        mm = mm + opt_item_of(sv_str((match pp.morality { Option::Some(m) => m.name, Option::None => Option::None }), f, FieldId::MoralityName));
    }
    let vu: Option<u8> = match &p.morality {
        Some(m) => m.value,
        None => None,
    };
    let o = match set_value_u8(vu, FieldId::MoralityValue, cfg) {
        Ok(o) => o,
        Err(e) => {
            return Err(e);
        },
    };
    push_enc(&mut out, o, Ghost(mm), Ghost(sv_u8((match pp.morality { Option::Some(m) => m.value, Option::None => Option::None }), f, FieldId::MoralityValue)));
    proof {
        mm = mm + opt_item_of(sv_u8((match pp.morality { Option::Some(m) => m.value, Option::None => Option::None }), f, FieldId::MoralityValue));
    }
    let vref: Option<&String> = match &p.faction {
        Some(s) => Some(s),
        None => None,
    };
    let o = match set_value_string(vref, FieldId::FactionName, cfg) {
        Ok(o) => o,
        Err(e) => {
            return Err(e);
        },
    };
    push_enc(&mut out, o, Ghost(mm), Ghost(sv_str(pp.faction, f, FieldId::FactionName)));
    proof {
        mm = mm + opt_item_of(sv_str(pp.faction, f, FieldId::FactionName));
    }
    Ok(out)
}

pub open spec fn enc_tail_err(p: PlayerCharacterUpdateInput, f: Seq<FieldConfigEntry>) -> Option<
    TranscodeError,
> {
    let es = (match p.experience_information { Option::Some(e) => Option::Some(e.start_value), Option::None => Option::None });
    let a = step_res(None, sv_bg(p.backgrounds, f));
    let a = step_res(a, sv_u8(es, f, FieldId::ExperienceStart));
    let a = step_res(a, sv_rit(p.rituals, f));
    let a = step_res(a, sv_mf(p.merits, p.flaws, f));
    a
}

pub open spec fn enc_tail_list(p: PlayerCharacterUpdateInput, f: Seq<FieldConfigEntry>) -> Seq<
    BlockSpec,
> {
    let es = (match p.experience_information { Option::Some(e) => Option::Some(e.start_value), Option::None => Option::None });
    let m = opt_item_of(sv_bg(p.backgrounds, f));
    let m = m + opt_item_of(sv_u8(es, f, FieldId::ExperienceStart));
    let m = m + opt_item_of(sv_rit(p.rituals, f));
    let m = m + opt_item_of(sv_mf(p.merits, p.flaws, f));
    m
}

/// Encodes the backgrounds, the experience start value, the rituals and the
/// combined merit/flaw block.
fn encode_tail_blocks(p: &PlayerCharacterUpdateInput, cfg: &ConfigClient) -> (r: Result<
    Vec<CellBlock>,
    TranscodeError,
>)
    ensures
        ({
            let f = cfg.settings.sheet_field@;
            match r {
                Ok(v) => enc_tail_err(*p, f) is None && blocks_match(v@, enc_tail_list(*p, f)),
                Err(e) => enc_tail_err(*p, f) == Some(e),
            }
        }),
{
    let ghost f = cfg.settings.sheet_field@;
    let ghost pp = *p;
    let mut out: Vec<CellBlock> = Vec::new();
    let ghost mut mm: Seq<BlockSpec> = Seq::empty();
    let vr: Option<&Vec<BackgroundUpdateInput>> = match &p.backgrounds {
        Some(v) => Some(v),
        None => None,
    };
    let o = match set_backgrounds(vr, FieldId::Backgrounds, cfg) {
        Ok(o) => o,
        Err(e) => {
            return Err(e);
        },
    };
    push_enc(&mut out, o, Ghost(mm), Ghost(sv_bg(pp.backgrounds, f)));
    proof {
        mm = mm + opt_item_of(sv_bg(pp.backgrounds, f));
    }
    let vu: Option<u8> = match &p.experience_information {
        Some(e) => Some(e.start_value),
        None => None,
    };
    let o = match set_value_u8(vu, FieldId::ExperienceStart, cfg) {
        Ok(o) => o,
        Err(e) => {
            return Err(e);
        },
    };
    push_enc(&mut out, o, Ghost(mm), Ghost(sv_u8((match pp.experience_information { Option::Some(e) => Option::Some(e.start_value), Option::None => Option::None }), f, FieldId::ExperienceStart)));
    proof {
        mm = mm + opt_item_of(sv_u8((match pp.experience_information { Option::Some(e) => Option::Some(e.start_value), Option::None => Option::None }), f, FieldId::ExperienceStart));
    }
    let vr: Option<&Vec<RitualUpdateInput>> = match &p.rituals {
        Some(v) => Some(v),
        None => None,
    };
    let o = match set_rituals(vr, FieldId::Rituals, cfg) {
        Ok(o) => o,
        Err(e) => {
            return Err(e);
        },
    };
    push_enc(&mut out, o, Ghost(mm), Ghost(sv_rit(pp.rituals, f)));
    proof {
        mm = mm + opt_item_of(sv_rit(pp.rituals, f));
    }
    let mref: Option<&Vec<MeritUpdateInput>> = match &p.merits {
        Some(v) => Some(v),
        None => None,
    };
    let fref: Option<&Vec<FlawUpdateInput>> = match &p.flaws {
        Some(v) => Some(v),
        None => None,
    };
    let o = if mref.is_some() || fref.is_some() {
        match combine_merits_and_flaws(mref, fref, FieldId::MeritsFlawsName, cfg) {
            Ok(o) => o,
            Err(e) => {
                return Err(e);
            },
        }
    } else {
        None
    };
    push_enc(&mut out, o, Ghost(mm), Ghost(sv_mf(pp.merits, pp.flaws, f)));
    proof {
        mm = mm + opt_item_of(sv_mf(pp.merits, pp.flaws, f));
    }
    Ok(out)
}

/// The first encode error of an update, in the batch's field order, if any.
pub open spec fn spec_encode_err(p: PlayerCharacterUpdateInput, f: Seq<FieldConfigEntry>) -> Option<
    TranscodeError,
> {
    let a = step2(None, enc_identity_err(p, f));
    let a = step2(a, enc_attrs_err(p.attributes, f));
    let a = step2(a, enc_skills_err(p.skills, f));
    let a = step2(a, enc_powers_err(p.powers, f));
    let a = step2(a, enc_social_err(p, f));
    let a = step2(a, enc_tail_err(p, f));
    a
}

/// The exact ordered write list an update encodes to, block by block, in
/// registry slot order: one block per present field, none for absent fields.
pub open spec fn spec_encode_list(p: PlayerCharacterUpdateInput, f: Seq<FieldConfigEntry>) -> Seq<
    BlockSpec,
> {
    enc_identity_list(p, f) + enc_attrs_list(p.attributes, f) + enc_skills_list(p.skills, f)
        + enc_powers_list(p.powers, f) + enc_social_list(p, f) + enc_tail_list(p, f)
}

impl PlayerCharacterUpdateInput {
    /// Encodes a partial update into the ordered list of cell blocks to
    /// write: exactly one complete, sentinel-padded block per present field,
    /// in registry slot order, and nothing for absent fields. Fails with
    /// `OverCapacity` when a present list exceeds its fixed row count, and
    /// with `UnknownField` when a present field is not configured.
    pub fn encode(&self, cfg: &ConfigClient) -> (r: Result<Vec<CellBlock>, TranscodeError>)
        ensures
            ({
                let f = cfg.settings.sheet_field@;
                match r {
                    Ok(v) => spec_encode_err(*self, f) is None && blocks_match(
                        v@,
                        spec_encode_list(*self, f),
                    ),
                    Err(e) => spec_encode_err(*self, f) == Some(e),
                }
            }),
    {
        let ghost f = cfg.settings.sheet_field@;
        let mut out = match encode_identity_blocks(self, cfg) {
            Ok(v) => v,
            Err(e) => {
                return Err(e);
            },
        };
        let mut g2 = match encode_attributes_blocks(&self.attributes, cfg) {
            Ok(v) => v,
            Err(e) => {
                return Err(e);
            },
        };
        proof {
            lemma_blocks_match_concat(
                out@,
                enc_identity_list(*self, f),
                g2@,
                enc_attrs_list(self.attributes, f),
            );
        }
        out.append(&mut g2);
        let mut g3 = match encode_skills_blocks(&self.skills, cfg) {
            Ok(v) => v,
            Err(e) => {
                return Err(e);
            },
        };
        proof {
            lemma_blocks_match_concat(
                out@,
                enc_identity_list(*self, f) + enc_attrs_list(self.attributes, f),
                g3@,
                enc_skills_list(self.skills, f),
            );
        }
        out.append(&mut g3);
        let mut g4 = match encode_powers_blocks(&self.powers, cfg) {
            Ok(v) => v,
            Err(e) => {
                return Err(e);
            },
        };
        proof {
            lemma_blocks_match_concat(
                out@,
                enc_identity_list(*self, f) + enc_attrs_list(self.attributes, f)
                    + enc_skills_list(self.skills, f),
                g4@,
                enc_powers_list(self.powers, f),
            );
        }
        out.append(&mut g4);
        let mut g5 = match encode_social_blocks(self, cfg) {
            Ok(v) => v,
            Err(e) => {
                return Err(e);
            },
        };
        proof {
            lemma_blocks_match_concat(
                out@,
                enc_identity_list(*self, f) + enc_attrs_list(self.attributes, f)
                    + enc_skills_list(self.skills, f) + enc_powers_list(self.powers, f),
                g5@,
                enc_social_list(*self, f),
            );
        }
        out.append(&mut g5);
        let mut g6 = match encode_tail_blocks(self, cfg) {
            Ok(v) => v,
            Err(e) => {
                return Err(e);
            },
        };
        proof {
            lemma_blocks_match_concat(
                out@,
                enc_identity_list(*self, f) + enc_attrs_list(self.attributes, f)
                    + enc_skills_list(self.skills, f) + enc_powers_list(self.powers, f)
                    + enc_social_list(*self, f),
                g6@,
                enc_tail_list(*self, f),
            );
        }
        out.append(&mut g6);
        Ok(out)
    }
}

} // verus!
