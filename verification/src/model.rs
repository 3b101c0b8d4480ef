//! The typed character record the decoder produces and the partial update
//! record the encoder consumes. Every field mirrors one configured range of
//! the sheet; update fields are optional, and an absent field is left
//! untouched in the store.

use std::collections::HashMap;
use vstd::prelude::*;

verus! {

/// A generation is either a small number or free text for timeless beings.
#[derive(Debug, PartialEq, Eq)]
pub enum Generation {
    Numeric(u8),
    Text(String),
}

#[derive(Debug, PartialEq, Eq)]
pub struct Attribute {
    pub value: u8,
    pub foci: Vec<String>,
}

#[derive(Debug, PartialEq, Eq)]
pub struct AttributeUpdateInput {
    pub value: Option<u8>,
    pub foci: Option<Vec<String>>,
}

#[derive(Debug, PartialEq, Eq)]
pub struct Attributes {
    pub physical: Attribute,
    pub social: Attribute,
    pub mental: Attribute,
}

#[derive(Debug, PartialEq, Eq)]
pub struct AttributesUpdateInput {
    pub physical: Option<AttributeUpdateInput>,
    pub social: Option<AttributeUpdateInput>,
    pub mental: Option<AttributeUpdateInput>,
}

#[derive(Debug, PartialEq, Eq)]
pub struct Background {
    pub name: String,
    pub value: u8,
    pub description: String,
}

#[derive(Debug, PartialEq, Eq)]
pub struct BackgroundUpdateInput {
    pub name: String,
    pub value: u8,
    pub description: Option<String>,
}

#[derive(Debug, PartialEq, Eq)]
pub struct Discipline {
    pub name: String,
    pub value: u8,
}

#[derive(Debug, PartialEq, Eq)]
pub struct DisciplineUpdateInput {
    pub name: String,
    pub value: u8,
}

#[derive(Debug, PartialEq, Eq)]
pub struct ExperienceInformation {
    pub start_value: u8,
    pub spent_total: u16,
    pub available: i16,
    pub received_total: u8,
}

#[derive(Debug, PartialEq, Eq)]
pub struct ExperienceInformationUpdateInput {
    pub start_value: u8,
}

#[derive(Debug, PartialEq, Eq)]
pub struct Merit {
    pub name: String,
    pub value: i8,
    pub merit_type: String,
}

#[derive(Debug, PartialEq, Eq)]
pub struct MeritUpdateInput {
    pub name: String,
    pub merit_type: String,
}

#[derive(Debug, PartialEq, Eq)]
pub struct Flaw {
    pub name: String,
    pub value: i8,
    pub flaw_type: String,
}

#[derive(Debug, PartialEq, Eq)]
pub struct FlawUpdateInput {
    pub name: String,
    pub flaw_type: String,
}

#[derive(Debug, PartialEq, Eq)]
pub struct HealthTrack {
    pub base_value: u8,
    pub with_boni: u8,
    pub remaining: u8,
}

#[derive(Debug, PartialEq, Eq)]
pub struct HealthTracks {
    pub healthy: HealthTrack,
    pub injured: HealthTrack,
    pub incapacitated: HealthTrack,
}

#[derive(Debug, PartialEq, Eq)]
pub struct Item {
    pub name: String,
    pub trait_1: String,
    pub trait_1_description: String,
    pub trait_2: String,
    pub trait_2_description: String,
    pub additional_trait: String,
    pub additional_trait_description: String,
}

#[derive(Debug, PartialEq, Eq)]
pub struct Morality {
    pub name: String,
    pub value: u8,
}

#[derive(Debug, PartialEq, Eq)]
pub struct MoralityUpdateInput {
    pub name: Option<String>,
    pub value: Option<u8>,
}

#[derive(Debug, PartialEq, Eq)]
pub struct NameValue {
    pub name: String,
    pub value: u8,
}

#[derive(Debug, PartialEq, Eq)]
pub struct PhysicalDefensePool {
    pub base_value: u8,
    pub base_value_with_celerity: u8,
    pub frenzy_modifier: i8,
    pub on_the_ground_closer_than_three_meters_modifier: i8,
    pub on_the_ground_further_than_three_meters_modifier: u8,
    pub special: i8,
}

#[derive(Debug, PartialEq, Eq)]
pub struct BattleOffenseInformation {
    pub skill: NameValue,
    pub attribute: NameValue,
    pub wildcard: NameValue,
    pub pool: u8,
    pub description: String,
}

#[derive(Debug, PartialEq, Eq)]
pub struct BattleBaseInformation {
    pub initiative: u8,
    pub initiative_with_celerity: u8,
    pub health: HealthTracks,
}

#[derive(Debug, PartialEq, Eq)]
pub struct BattleDefenseInformation {
    pub physical_defense_pool: PhysicalDefensePool,
    pub mental_defense_pool: HashMap<u8, u8>,
    pub social_defense_pool: HashMap<u8, u8>,
}

#[derive(Debug, PartialEq, Eq)]
pub struct BattleInformation {
    pub base: BattleBaseInformation,
    pub defense: BattleDefenseInformation,
    pub offense: Vec<BattleOffenseInformation>,
}

#[derive(Debug, PartialEq, Eq)]
pub struct Ritual {
    pub name: String,
    pub level: u8,
    pub description: String,
    pub ritual_type: String,
}

#[derive(Debug, PartialEq, Eq)]
pub struct RitualUpdateInput {
    pub name: String,
    pub level: u8,
    pub ritual_type: String,
}

#[derive(Debug, PartialEq, Eq)]
pub struct Skill {
    pub value: u8,
    pub foci: Option<Vec<String>>,
}

#[derive(Debug, PartialEq, Eq)]
pub struct SkillUpdateInput {
    pub value: Option<u8>,
    pub foci: Option<Vec<String>>,
}

#[derive(Debug, PartialEq, Eq)]
pub struct Skills {
    pub academics: Skill,
    pub athletics: Skill,
    pub animal_ken: Skill,
    pub awareness: Skill,
    pub brawl: Skill,
    pub computer: Skill,
    pub craft_a: Skill,
    pub craft_b: Skill,
    pub dodge: Skill,
    pub drive: Skill,
    pub empathy: Skill,
    pub firearms: Skill,
    pub intimidation: Skill,
    pub investigation: Skill,
    pub leadership: Skill,
    pub linguistics: Skill,
    pub lore: Skill,
    pub medicine: Skill,
    pub melee: Skill,
    pub occult: Skill,
    pub performance_a: Skill,
    pub performance_b: Skill,
    pub security: Skill,
    pub science_a: Skill,
    pub science_b: Skill,
    pub stealth: Skill,
    pub streetwise: Skill,
    pub subterfuge: Skill,
    pub survival: Skill,
}

#[derive(Debug, PartialEq, Eq)]
pub struct SkillsUpdateInput {
    pub academics: Option<SkillUpdateInput>,
    pub athletics: Option<SkillUpdateInput>,
    pub animal_ken: Option<SkillUpdateInput>,
    pub awareness: Option<SkillUpdateInput>,
    pub brawl: Option<SkillUpdateInput>,
    pub computer: Option<SkillUpdateInput>,
    pub craft_a: Option<SkillUpdateInput>,
    pub craft_b: Option<SkillUpdateInput>,
    pub dodge: Option<SkillUpdateInput>,
    pub drive: Option<SkillUpdateInput>,
    pub empathy: Option<SkillUpdateInput>,
    pub firearms: Option<SkillUpdateInput>,
    pub intimidation: Option<SkillUpdateInput>,
    pub investigation: Option<SkillUpdateInput>,
    pub leadership: Option<SkillUpdateInput>,
    pub linguistics: Option<SkillUpdateInput>,
    pub lore: Option<SkillUpdateInput>,
    pub medicine: Option<SkillUpdateInput>,
    pub melee: Option<SkillUpdateInput>,
    pub occult: Option<SkillUpdateInput>,
    pub performance_a: Option<SkillUpdateInput>,
    pub performance_b: Option<SkillUpdateInput>,
    pub security: Option<SkillUpdateInput>,
    pub science_a: Option<SkillUpdateInput>,
    pub science_b: Option<SkillUpdateInput>,
    pub stealth: Option<SkillUpdateInput>,
    pub streetwise: Option<SkillUpdateInput>,
    pub subterfuge: Option<SkillUpdateInput>,
    pub survival: Option<SkillUpdateInput>,
}

#[derive(Debug, PartialEq, Eq)]
pub struct Powers {
    pub in_clan_disciplines: Vec<Discipline>,
    pub out_of_clan_disciplines: Vec<Discipline>,
    pub techniques: Vec<String>,
    pub in_clan_elder_powers: Vec<String>,
    pub out_of_clan_elder_powers: Vec<String>,
}

#[derive(Debug, PartialEq, Eq)]
pub struct PowersUpdateInput {
    pub in_clan_disciplines: Option<Vec<DisciplineUpdateInput>>,
    pub out_of_clan_disciplines: Option<Vec<DisciplineUpdateInput>>,
    pub techniques: Option<Vec<String>>,
    pub in_clan_elder_powers: Option<Vec<String>>,
    pub out_of_clan_elder_powers: Option<Vec<String>>,
}

/// The composed character record, produced fresh per read.
#[derive(Debug, PartialEq, Eq)]
pub struct PlayerCharacter {
    pub character_name: String,
    pub player_name: String,
    pub version_sheet: String,
    pub valid: bool,
    pub archetype: String,
    pub generation: Generation,
    pub clan: String,
    pub blood_per_turn: u8,
    pub blood_pool: u8,
    pub attributes: Attributes,
    pub skills: Skills,
    pub powers: Powers,
    pub morality: Morality,
    pub faction: String,
    pub merits: Vec<Merit>,
    pub flaws: Vec<Flaw>,
    pub backgrounds: Vec<Background>,
    pub experience_information: ExperienceInformation,
    pub battle_information: BattleInformation,
    pub rituals: Vec<Ritual>,
    pub items: Vec<Item>,
}

/// A partial update: absence means "leave that field untouched".
#[derive(Debug, PartialEq, Eq)]
pub struct PlayerCharacterUpdateInput {
    pub character_name: Option<String>,
    pub player_name: Option<String>,
    pub archetype: Option<String>,
    pub generation: Option<Generation>,
    pub clan: Option<String>,
    pub attributes: Option<AttributesUpdateInput>,
    pub skills: Option<SkillsUpdateInput>,
    pub powers: Option<PowersUpdateInput>,
    pub morality: Option<MoralityUpdateInput>,
    pub faction: Option<String>,
    pub merits: Option<Vec<MeritUpdateInput>>,
    pub flaws: Option<Vec<FlawUpdateInput>>,
    pub backgrounds: Option<Vec<BackgroundUpdateInput>>,
    pub experience_information: Option<ExperienceInformationUpdateInput>,
    pub rituals: Option<Vec<RitualUpdateInput>>,
}

} // verus!
