//! The semantic field identifiers of the sheet layout, and the typed errors
//! of the transcoder.

use vstd::prelude::*;

verus! {

/// The stable semantic name of one spreadsheet-backed attribute, independent
/// of its physical range or batch position.
#[derive(Clone, Copy, PartialEq, Eq, Structural, Debug)]
pub enum FieldId {
    CharacterName,
    PlayerName,
    VersionSheet,
    Archetype,
    Generation,
    Clan,
    BloodPerTurn,
    BloodPool,
    AttributePhysicalValue,
    AttributeSocialValue,
    AttributeMentalValue,
    AttributePhysicalFoci,
    AttributeSocialFoci,
    AttributeMentalFoci,
    SkillAcademics,
    SkillAcademicsSpecialization,
    SkillSubterfuge,
    SkillDodge,
    SkillComputer,
    SkillIntimidation,
    SkillEmpathy,
    SkillDrive,
    SkillLeadership,
    SkillBrawl,
    SkillCraftA,
    SkillCraftASpecialization,
    SkillCraftB,
    SkillCraftBSpecialization,
    SkillStealth,
    SkillLinguistics,
    SkillLinguisticsSpecialization,
    SkillAwareness,
    SkillMedicine,
    SkillInvestigation,
    SkillMelee,
    SkillScienceA,
    SkillScienceASpecialization,
    SkillScienceB,
    SkillScienceBSpecialization,
    SkillOccult,
    SkillFirearms,
    SkillSecurity,
    SkillAthletics,
    SkillStreetwise,
    SkillAnimalKen,
    SkillSurvival,
    SkillPerformanceA,
    SkillPerformanceASpecialization,
    SkillPerformanceB,
    SkillPerformanceBSpecialization,
    SkillLore,
    SkillLoreSpecialization,
    InClanDisciplines,
    OutOfClanDisciplines,
    Techniques,
    InClanElderPowers,
    OutOfClanElderPowers,
    MoralityName,
    MoralityValue,
    FactionName,
    MeritsFlaws,
    Backgrounds,
    ExperienceStart,
    ExperienceSpentTotal,
    ExperienceAvailable,
    ExperienceReceivedTotal,
    Initiative,
    InitiativeWithCelerity,
    HealthHealthy,
    HealthInjured,
    HealthIncapacitated,
    PhysicalDefenseBase,
    PhysicalDefenseWithCelerity,
    PhysicalDefenseFrenzyModifier,
    PhysicalDefenseGroundClose,
    PhysicalDefenseGroundFar,
    PhysicalDefenseSpecial,
    SocialDefense,
    MentalDefense,
    OffensePools,
    Rituals,
    Items,
    MeritsFlawsName,
}

/// The errors of the transcoder. Malformed scalar cells are not among them:
/// they deliberately decode to the type's zero value.
#[derive(Clone, Copy, PartialEq, Eq, Structural, Debug)]
pub enum TranscodeError {
    /// The field identifier is not configured in the registry.
    UnknownField(FieldId),
    /// A mandatory block is absent or shorter than the configured layout
    /// guarantees (the upstream store broke its shape contract).
    MissingMandatoryBlock(FieldId),
    /// An update supplied more list entries than the field's fixed row count
    /// can hold.
    OverCapacity(FieldId),
}

} // verus!
