//! The field registry: the immutable table mapping each semantic field to
//! its batch position, its range string, and its layout metadata. It is
//! loaded once at startup and passed explicitly to the decoder and encoder.

use crate::fields::{FieldId, TranscodeError};
use vstd::prelude::*;

verus! {

/// One configured field: its identifier, the positional slot of its block in
/// a batch-fetch response, the range string used to fetch or write it, the
/// fixed row count for list-shaped fields, and the write-only flag.
#[derive(Debug, PartialEq, Eq)]
pub struct FieldConfigEntry {
    pub name: FieldId,
    pub position: u8,
    pub range: String,
    pub range_length: Option<u8>,
    pub exclude_on_read: Option<bool>,
}

impl Clone for FieldConfigEntry {
    fn clone(&self) -> (r: Self)
        ensures
            r == *self,
    {
        FieldConfigEntry {
            name: self.name,
            position: self.position,
            range: self.range.clone(),
            range_length: self.range_length,
            exclude_on_read: self.exclude_on_read,
        }
    }
}

/// The whole configured layout.
#[derive(Debug, PartialEq, Eq)]
pub struct FieldConfig {
    pub sheet_field: Vec<FieldConfigEntry>,
}

/// Read-only access to the layout. All lookups go through this client; no
/// caller indexes the raw batch result directly.
pub struct ConfigClient {
    pub settings: FieldConfig,
}

/// The first configured entry for `name`, if any.
pub open spec fn lookup_spec(fields: Seq<FieldConfigEntry>, name: FieldId) -> Option<
    FieldConfigEntry,
>
    decreases fields.len(),
{
    if fields.len() == 0 {
        None
    } else if fields[0].name == name {
        Some(fields[0])
    } else {
        lookup_spec(fields.drop_first(), name)
    }
}

/// A field is part of batch reads unless it is marked write-only.
pub open spec fn is_readable(e: FieldConfigEntry) -> bool {
    e.exclude_on_read != Some(true)
}

/// Sorted ascending by batch position.
pub open spec fn sorted_by_position(fields: Seq<FieldConfigEntry>) -> bool {
    forall|i: int, j: int|
        0 <= i < j < fields.len() ==> fields[i].position <= fields[j].position
}

/// The readable entries of the registry, in table order: the fields a batch
/// fetch requests. Write-only fields are excluded but stay addressable for
/// encoding.
pub open spec fn spec_readable(fields: Seq<FieldConfigEntry>) -> Seq<FieldConfigEntry>
    decreases fields.len(),
{
    if fields.len() == 0 {
        Seq::empty()
    } else {
        let pre = spec_readable(fields.drop_last());
        if is_readable(fields.last()) {
            pre.push(fields.last())
        } else {
            pre
        }
    }
}


/// The field identifier the standard layout places at slot `i`.
pub open spec fn std_field_id(i: int) -> FieldId {
    if i == 0 {
        FieldId::CharacterName
    } else if i == 1 {
        FieldId::PlayerName
    } else if i == 2 {
        FieldId::VersionSheet
    } else if i == 3 {
        FieldId::Archetype
    } else if i == 4 {
        FieldId::Generation
    } else if i == 5 {
        FieldId::Clan
    } else if i == 6 {
        FieldId::BloodPerTurn
    } else if i == 7 {
        FieldId::BloodPool
    } else if i == 8 {
        FieldId::AttributePhysicalValue
    } else if i == 9 {
        FieldId::AttributeSocialValue
    } else if i == 10 {
        FieldId::AttributeMentalValue
    } else if i == 11 {
        FieldId::AttributePhysicalFoci
    } else if i == 12 {
        FieldId::AttributeSocialFoci
    } else if i == 13 {
        FieldId::AttributeMentalFoci
    } else if i == 14 {
        FieldId::SkillAcademics
    } else if i == 15 {
        FieldId::SkillAcademicsSpecialization
    } else if i == 16 {
        FieldId::SkillSubterfuge
    } else if i == 17 {
        FieldId::SkillDodge
    } else if i == 18 {
        FieldId::SkillComputer
    } else if i == 19 {
        FieldId::SkillIntimidation
    } else if i == 20 {
        FieldId::SkillEmpathy
    } else if i == 21 {
        FieldId::SkillDrive
    } else if i == 22 {
        FieldId::SkillLeadership
    } else if i == 23 {
        FieldId::SkillBrawl
    } else if i == 24 {
        FieldId::SkillCraftA
    } else if i == 25 {
        FieldId::SkillCraftASpecialization
    } else if i == 26 {
        FieldId::SkillCraftB
    } else if i == 27 {
        FieldId::SkillCraftBSpecialization
    } else if i == 28 {
        FieldId::SkillStealth
    } else if i == 29 {
        FieldId::SkillLinguistics
    } else if i == 30 {
        FieldId::SkillLinguisticsSpecialization
    } else if i == 31 {
        FieldId::SkillAwareness
    } else if i == 32 {
        FieldId::SkillMedicine
    } else if i == 33 {
        FieldId::SkillInvestigation
    } else if i == 34 {
        FieldId::SkillMelee
    } else if i == 35 {
        FieldId::SkillScienceA
    } else if i == 36 {
        FieldId::SkillScienceASpecialization
    } else if i == 37 {
        FieldId::SkillScienceB
    } else if i == 38 {
        FieldId::SkillScienceBSpecialization
    } else if i == 39 {
        FieldId::SkillOccult
    } else if i == 40 {
        FieldId::SkillFirearms
    } else if i == 41 {
        FieldId::SkillSecurity
    } else if i == 42 {
        FieldId::SkillAthletics
    } else if i == 43 {
        FieldId::SkillStreetwise
    } else if i == 44 {
        FieldId::SkillAnimalKen
    } else if i == 45 {
        FieldId::SkillSurvival
    } else if i == 46 {
        FieldId::SkillPerformanceA
    } else if i == 47 {
        FieldId::SkillPerformanceASpecialization
    } else if i == 48 {
        FieldId::SkillPerformanceB
    } else if i == 49 {
        FieldId::SkillPerformanceBSpecialization
    } else if i == 50 {
        FieldId::SkillLore
    } else if i == 51 {
        FieldId::SkillLoreSpecialization
    } else if i == 52 {
        FieldId::InClanDisciplines
    } else if i == 53 {
        FieldId::OutOfClanDisciplines
    } else if i == 54 {
        FieldId::Techniques
    } else if i == 55 {
        FieldId::InClanElderPowers
    } else if i == 56 {
        FieldId::OutOfClanElderPowers
    } else if i == 57 {
        FieldId::MoralityName
    } else if i == 58 {
        FieldId::MoralityValue
    } else if i == 59 {
        FieldId::FactionName
    } else if i == 60 {
        FieldId::MeritsFlaws
    } else if i == 61 {
        FieldId::Backgrounds
    } else if i == 62 {
        FieldId::ExperienceStart
    } else if i == 63 {
        FieldId::ExperienceSpentTotal
    } else if i == 64 {
        FieldId::ExperienceAvailable
    } else if i == 65 {
        FieldId::ExperienceReceivedTotal
    } else if i == 66 {
        FieldId::Initiative
    } else if i == 67 {
        FieldId::InitiativeWithCelerity
    } else if i == 68 {
        FieldId::HealthHealthy
    } else if i == 69 {
        FieldId::HealthInjured
    } else if i == 70 {
        FieldId::HealthIncapacitated
    } else if i == 71 {
        FieldId::PhysicalDefenseBase
    } else if i == 72 {
        FieldId::PhysicalDefenseWithCelerity
    } else if i == 73 {
        FieldId::PhysicalDefenseFrenzyModifier
    } else if i == 74 {
        FieldId::PhysicalDefenseGroundClose
    } else if i == 75 {
        FieldId::PhysicalDefenseGroundFar
    } else if i == 76 {
        FieldId::PhysicalDefenseSpecial
    } else if i == 77 {
        FieldId::SocialDefense
    } else if i == 78 {
        FieldId::MentalDefense
    } else if i == 79 {
        FieldId::OffensePools
    } else if i == 80 {
        FieldId::Rituals
    } else if i == 81 {
        FieldId::Items
    } else {
        FieldId::MeritsFlawsName
    }
}

/// The slot the standard layout gives each field identifier.
pub open spec fn std_slot(id: FieldId) -> int {
    match id {
        FieldId::CharacterName => 0,
        FieldId::PlayerName => 1,
        FieldId::VersionSheet => 2,
        FieldId::Archetype => 3,
        FieldId::Generation => 4,
        FieldId::Clan => 5,
        FieldId::BloodPerTurn => 6,
        FieldId::BloodPool => 7,
        FieldId::AttributePhysicalValue => 8,
        FieldId::AttributeSocialValue => 9,
        FieldId::AttributeMentalValue => 10,
        FieldId::AttributePhysicalFoci => 11,
        FieldId::AttributeSocialFoci => 12,
        FieldId::AttributeMentalFoci => 13,
        FieldId::SkillAcademics => 14,
        FieldId::SkillAcademicsSpecialization => 15,
        FieldId::SkillSubterfuge => 16,
        FieldId::SkillDodge => 17,
        FieldId::SkillComputer => 18,
        FieldId::SkillIntimidation => 19,
        FieldId::SkillEmpathy => 20,
        FieldId::SkillDrive => 21,
        FieldId::SkillLeadership => 22,
        FieldId::SkillBrawl => 23,
        FieldId::SkillCraftA => 24,
        FieldId::SkillCraftASpecialization => 25,
        FieldId::SkillCraftB => 26,
        FieldId::SkillCraftBSpecialization => 27,
        FieldId::SkillStealth => 28,
        FieldId::SkillLinguistics => 29,
        FieldId::SkillLinguisticsSpecialization => 30,
        FieldId::SkillAwareness => 31,
        FieldId::SkillMedicine => 32,
        FieldId::SkillInvestigation => 33,
        FieldId::SkillMelee => 34,
        FieldId::SkillScienceA => 35,
        FieldId::SkillScienceASpecialization => 36,
        FieldId::SkillScienceB => 37,
        FieldId::SkillScienceBSpecialization => 38,
        FieldId::SkillOccult => 39,
        FieldId::SkillFirearms => 40,
        FieldId::SkillSecurity => 41,
        FieldId::SkillAthletics => 42,
        FieldId::SkillStreetwise => 43,
        FieldId::SkillAnimalKen => 44,
        FieldId::SkillSurvival => 45,
        FieldId::SkillPerformanceA => 46,
        FieldId::SkillPerformanceASpecialization => 47,
        FieldId::SkillPerformanceB => 48,
        FieldId::SkillPerformanceBSpecialization => 49,
        FieldId::SkillLore => 50,
        FieldId::SkillLoreSpecialization => 51,
        FieldId::InClanDisciplines => 52,
        FieldId::OutOfClanDisciplines => 53,
        FieldId::Techniques => 54,
        FieldId::InClanElderPowers => 55,
        FieldId::OutOfClanElderPowers => 56,
        FieldId::MoralityName => 57,
        FieldId::MoralityValue => 58,
        FieldId::FactionName => 59,
        FieldId::MeritsFlaws => 60,
        FieldId::Backgrounds => 61,
        FieldId::ExperienceStart => 62,
        FieldId::ExperienceSpentTotal => 63,
        FieldId::ExperienceAvailable => 64,
        FieldId::ExperienceReceivedTotal => 65,
        FieldId::Initiative => 66,
        FieldId::InitiativeWithCelerity => 67,
        FieldId::HealthHealthy => 68,
        FieldId::HealthInjured => 69,
        FieldId::HealthIncapacitated => 70,
        FieldId::PhysicalDefenseBase => 71,
        FieldId::PhysicalDefenseWithCelerity => 72,
        FieldId::PhysicalDefenseFrenzyModifier => 73,
        FieldId::PhysicalDefenseGroundClose => 74,
        FieldId::PhysicalDefenseGroundFar => 75,
        FieldId::PhysicalDefenseSpecial => 76,
        FieldId::SocialDefense => 77,
        FieldId::MentalDefense => 78,
        FieldId::OffensePools => 79,
        FieldId::Rituals => 80,
        FieldId::Items => 81,
        FieldId::MeritsFlawsName => 82,
    }
}

/// The range string at slot `i` of the standard layout.
pub open spec fn std_range(i: int) -> Seq<char> {
    if i == 0 {
        "Overview!B1"@
    } else if i == 1 {
        "Overview!B2"@
    } else if i == 2 {
        "Overview!H1"@
    } else if i == 3 {
        "Overview!B3"@
    } else if i == 4 {
        "Overview!B4"@
    } else if i == 5 {
        "Overview!B5"@
    } else if i == 6 {
        "Overview!L2"@
    } else if i == 7 {
        "Overview!L1"@
    } else if i == 8 {
        "Attributes!C2"@
    } else if i == 9 {
        "Attributes!C3"@
    } else if i == 10 {
        "Attributes!C4"@
    } else if i == 11 {
        "Attributes!E2:E6"@
    } else if i == 12 {
        "Attributes!F2:F6"@
    } else if i == 13 {
        "Attributes!G2:G6"@
    } else if i == 14 {
        "Skills!C2"@
    } else if i == 15 {
        "Skills!D2"@
    } else if i == 16 {
        "Skills!C3"@
    } else if i == 17 {
        "Skills!C4"@
    } else if i == 18 {
        "Skills!C5"@
    } else if i == 19 {
        "Skills!C6"@
    } else if i == 20 {
        "Skills!C7"@
    } else if i == 21 {
        "Skills!C8"@
    } else if i == 22 {
        "Skills!C9"@
    } else if i == 23 {
        "Skills!C10"@
    } else if i == 24 {
        "Skills!C11"@
    } else if i == 25 {
        "Skills!D11"@
    } else if i == 26 {
        "Skills!C12"@
    } else if i == 27 {
        "Skills!D12"@
    } else if i == 28 {
        "Skills!C13"@
    } else if i == 29 {
        "Skills!C14"@
    } else if i == 30 {
        "Skills!D14"@
    } else if i == 31 {
        "Skills!C15"@
    } else if i == 32 {
        "Skills!C16"@
    } else if i == 33 {
        "Skills!C17"@
    } else if i == 34 {
        "Skills!C18"@
    } else if i == 35 {
        "Skills!C19"@
    } else if i == 36 {
        "Skills!D19"@
    } else if i == 37 {
        "Skills!C20"@
    } else if i == 38 {
        "Skills!D20"@
    } else if i == 39 {
        "Skills!C21"@
    } else if i == 40 {
        "Skills!C22"@
    } else if i == 41 {
        "Skills!C23"@
    } else if i == 42 {
        "Skills!C24"@
    } else if i == 43 {
        "Skills!C25"@
    } else if i == 44 {
        "Skills!C26"@
    } else if i == 45 {
        "Skills!C27"@
    } else if i == 46 {
        "Skills!C28"@
    } else if i == 47 {
        "Skills!D28"@
    } else if i == 48 {
        "Skills!C29"@
    } else if i == 49 {
        "Skills!D29"@
    } else if i == 50 {
        "Skills!C30"@
    } else if i == 51 {
        "Skills!D30"@
    } else if i == 52 {
        "Powers!A2:H7"@
    } else if i == 53 {
        "Powers!A9:H14"@
    } else if i == 54 {
        "Powers!J2:J11"@
    } else if i == 55 {
        "Powers!L2:L11"@
    } else if i == 56 {
        "Powers!N2:N11"@
    } else if i == 57 {
        "Overview!B7"@
    } else if i == 58 {
        "Overview!C7"@
    } else if i == 59 {
        "Overview!B8"@
    } else if i == 60 {
        "Merits!A2:H8"@
    } else if i == 61 {
        "Backgrounds!A2:J10"@
    } else if i == 62 {
        "Experience!B1"@
    } else if i == 63 {
        "Experience!B2"@
    } else if i == 64 {
        "Experience!B3"@
    } else if i == 65 {
        "Experience!B4"@
    } else if i == 66 {
        "Battle!B1"@
    } else if i == 67 {
        "Battle!C1"@
    } else if i == 68 {
        "Battle!A3:H3"@
    } else if i == 69 {
        "Battle!A4:H4"@
    } else if i == 70 {
        "Battle!A5:H5"@
    } else if i == 71 {
        "Battle!B7"@
    } else if i == 72 {
        "Battle!C7"@
    } else if i == 73 {
        "Battle!D7"@
    } else if i == 74 {
        "Battle!E7"@
    } else if i == 75 {
        "Battle!F7"@
    } else if i == 76 {
        "Battle!G7"@
    } else if i == 77 {
        "Battle!A9:I9"@
    } else if i == 78 {
        "Battle!A10:I10"@
    } else if i == 79 {
        "Battle!A12:AA35"@
    } else if i == 80 {
        "Rituals!A2:H16"@
    } else if i == 81 {
        "Items!A2:Z40"@
    } else {
        "Merits!A2:A8"@
    }
}

/// The fixed row count at slot `i`: present exactly for the bounded list
/// fields of the layout.
pub open spec fn std_row_count(i: int) -> Option<u8> {
    if i == 11 || i == 12 || i == 13 {
        Some(5u8)
    } else if i == 52 || i == 53 {
        Some(6u8)
    } else if i == 60 || i == 82 {
        Some(7u8)
    } else if i == 61 {
        Some(9u8)
    } else if i == 54 || i == 55 || i == 56 {
        Some(10u8)
    } else if i == 80 {
        Some(15u8)
    } else if i == 79 {
        Some(24u8)
    } else {
        None
    }
}

/// The write-only flag at slot `i`: only the merit/flaw name column, which a
/// batch write targets but a batch read never fetches.
pub open spec fn std_exclude(i: int) -> Option<bool> {
    if i == 82 {
        Some(true)
    } else {
        None
    }
}

/// One entry against its slot of the standard layout.
pub open spec fn entry_at(e: FieldConfigEntry, i: int) -> bool {
    e.name == std_field_id(i) && e.position as int == i && e.range@ == std_range(i)
        && e.range_length == std_row_count(i) && e.exclude_on_read == std_exclude(i)
}

/// Every entry of `fields` is the standard layout's entry for its index.
pub open spec fn table_prefix_ok(fields: Seq<FieldConfigEntry>) -> bool {
    forall|i: int| 0 <= i < fields.len() ==> entry_at(#[trigger] fields[i], i)
}

/// The full standard registry: all 83 fields, each at its documented slot
/// with its documented range, row count and write-only flag.
pub open spec fn std_registry(fields: Seq<FieldConfigEntry>) -> bool {
    fields.len() == 83 && table_prefix_ok(fields)
}

/// Appends the next slot's entry, keeping the table a prefix of the standard
/// layout.
fn push_entry(
    v: &mut Vec<FieldConfigEntry>,
    name: FieldId,
    position: u8,
    range: &str,
    range_length: Option<u8>,
    exclude_on_read: Option<bool>,
)
    requires
        table_prefix_ok(old(v)@),
        position as int == old(v)@.len(),
        name == std_field_id(old(v)@.len() as int),
        range@ == std_range(old(v)@.len() as int),
        range_length == std_row_count(old(v)@.len() as int),
        exclude_on_read == std_exclude(old(v)@.len() as int),
    ensures
        final(v)@.len() == old(v)@.len() + 1,
        table_prefix_ok(final(v)@),
{
    let entry = FieldConfigEntry {
        name,
        position,
        range: range.to_owned(),
        range_length,
        exclude_on_read,
    };
    let ghost ge = entry;
    v.push(entry);
    proof {
        assert forall|i: int| 0 <= i < v@.len() implies entry_at(#[trigger] v@[i], i) by {
            if i < v@.len() - 1 {
                assert(v@[i] == old(v)@[i]);
                assert(entry_at(old(v)@[i], i));
            } else {
                assert(v@[i] == ge);
            }
        }
    }
}

impl ConfigClient {
    /// Builds the fixed layout of the character sheet: the standard table,
    /// entry by entry. Every field identifier appears exactly once at its
    /// documented slot with its documented range and row count, readable
    /// fields occupy the dense batch positions 0 up to their count, and the
    /// write-only merit/flaw name column sits at the end.
    #[verifier::rlimit(100)]
    pub fn new() -> (r: ConfigClient)
        ensures
            std_registry(r.settings.sheet_field@),
            r.settings.sheet_field@.len() == 83,
            forall|i: int|
                0 <= i < 83 ==> (#[trigger] r.settings.sheet_field@[i]).position == i,
            forall|i: int, j: int|
                0 <= i < j < 83 ==> r.settings.sheet_field@[i].position
                    != r.settings.sheet_field@[j].position,
            forall|i: int|
                0 <= i < 83 ==> (is_readable(#[trigger] r.settings.sheet_field@[i]) <==> i < 82),
    {
        let mut v: Vec<FieldConfigEntry> = Vec::new();
    push_entry(&mut v, FieldId::CharacterName, 0, "Overview!B1", None, None);
    push_entry(&mut v, FieldId::PlayerName, 1, "Overview!B2", None, None);
    push_entry(&mut v, FieldId::VersionSheet, 2, "Overview!H1", None, None);
    push_entry(&mut v, FieldId::Archetype, 3, "Overview!B3", None, None);
    push_entry(&mut v, FieldId::Generation, 4, "Overview!B4", None, None);
    push_entry(&mut v, FieldId::Clan, 5, "Overview!B5", None, None);
    push_entry(&mut v, FieldId::BloodPerTurn, 6, "Overview!L2", None, None);
    push_entry(&mut v, FieldId::BloodPool, 7, "Overview!L1", None, None);
    push_entry(&mut v, FieldId::AttributePhysicalValue, 8, "Attributes!C2", None, None);
    push_entry(&mut v, FieldId::AttributeSocialValue, 9, "Attributes!C3", None, None);
    push_entry(&mut v, FieldId::AttributeMentalValue, 10, "Attributes!C4", None, None);
    push_entry(&mut v, FieldId::AttributePhysicalFoci, 11, "Attributes!E2:E6", Some(5), None);
    push_entry(&mut v, FieldId::AttributeSocialFoci, 12, "Attributes!F2:F6", Some(5), None);
    push_entry(&mut v, FieldId::AttributeMentalFoci, 13, "Attributes!G2:G6", Some(5), None);
    push_entry(&mut v, FieldId::SkillAcademics, 14, "Skills!C2", None, None);
    push_entry(&mut v, FieldId::SkillAcademicsSpecialization, 15, "Skills!D2", None, None);
    push_entry(&mut v, FieldId::SkillSubterfuge, 16, "Skills!C3", None, None);
    push_entry(&mut v, FieldId::SkillDodge, 17, "Skills!C4", None, None);
    push_entry(&mut v, FieldId::SkillComputer, 18, "Skills!C5", None, None);
    push_entry(&mut v, FieldId::SkillIntimidation, 19, "Skills!C6", None, None);
    push_entry(&mut v, FieldId::SkillEmpathy, 20, "Skills!C7", None, None);
    push_entry(&mut v, FieldId::SkillDrive, 21, "Skills!C8", None, None);
    push_entry(&mut v, FieldId::SkillLeadership, 22, "Skills!C9", None, None);
    push_entry(&mut v, FieldId::SkillBrawl, 23, "Skills!C10", None, None);
    push_entry(&mut v, FieldId::SkillCraftA, 24, "Skills!C11", None, None);
    push_entry(&mut v, FieldId::SkillCraftASpecialization, 25, "Skills!D11", None, None);
    push_entry(&mut v, FieldId::SkillCraftB, 26, "Skills!C12", None, None);
    push_entry(&mut v, FieldId::SkillCraftBSpecialization, 27, "Skills!D12", None, None);
    push_entry(&mut v, FieldId::SkillStealth, 28, "Skills!C13", None, None);
    push_entry(&mut v, FieldId::SkillLinguistics, 29, "Skills!C14", None, None);
    push_entry(&mut v, FieldId::SkillLinguisticsSpecialization, 30, "Skills!D14", None, None);
    push_entry(&mut v, FieldId::SkillAwareness, 31, "Skills!C15", None, None);
    push_entry(&mut v, FieldId::SkillMedicine, 32, "Skills!C16", None, None);
    push_entry(&mut v, FieldId::SkillInvestigation, 33, "Skills!C17", None, None);
    push_entry(&mut v, FieldId::SkillMelee, 34, "Skills!C18", None, None);
    push_entry(&mut v, FieldId::SkillScienceA, 35, "Skills!C19", None, None);
    push_entry(&mut v, FieldId::SkillScienceASpecialization, 36, "Skills!D19", None, None);
    push_entry(&mut v, FieldId::SkillScienceB, 37, "Skills!C20", None, None);
    push_entry(&mut v, FieldId::SkillScienceBSpecialization, 38, "Skills!D20", None, None);
    push_entry(&mut v, FieldId::SkillOccult, 39, "Skills!C21", None, None);
    push_entry(&mut v, FieldId::SkillFirearms, 40, "Skills!C22", None, None);
    push_entry(&mut v, FieldId::SkillSecurity, 41, "Skills!C23", None, None);
    push_entry(&mut v, FieldId::SkillAthletics, 42, "Skills!C24", None, None);
    push_entry(&mut v, FieldId::SkillStreetwise, 43, "Skills!C25", None, None);
    push_entry(&mut v, FieldId::SkillAnimalKen, 44, "Skills!C26", None, None);
    push_entry(&mut v, FieldId::SkillSurvival, 45, "Skills!C27", None, None);
    push_entry(&mut v, FieldId::SkillPerformanceA, 46, "Skills!C28", None, None);
    push_entry(&mut v, FieldId::SkillPerformanceASpecialization, 47, "Skills!D28", None, None);
    push_entry(&mut v, FieldId::SkillPerformanceB, 48, "Skills!C29", None, None);
    push_entry(&mut v, FieldId::SkillPerformanceBSpecialization, 49, "Skills!D29", None, None);
    push_entry(&mut v, FieldId::SkillLore, 50, "Skills!C30", None, None);
    push_entry(&mut v, FieldId::SkillLoreSpecialization, 51, "Skills!D30", None, None);
    push_entry(&mut v, FieldId::InClanDisciplines, 52, "Powers!A2:H7", Some(6), None);
    push_entry(&mut v, FieldId::OutOfClanDisciplines, 53, "Powers!A9:H14", Some(6), None);
    push_entry(&mut v, FieldId::Techniques, 54, "Powers!J2:J11", Some(10), None);
    push_entry(&mut v, FieldId::InClanElderPowers, 55, "Powers!L2:L11", Some(10), None);
    push_entry(&mut v, FieldId::OutOfClanElderPowers, 56, "Powers!N2:N11", Some(10), None);
    push_entry(&mut v, FieldId::MoralityName, 57, "Overview!B7", None, None);
    push_entry(&mut v, FieldId::MoralityValue, 58, "Overview!C7", None, None);
    push_entry(&mut v, FieldId::FactionName, 59, "Overview!B8", None, None);
    push_entry(&mut v, FieldId::MeritsFlaws, 60, "Merits!A2:H8", Some(7), None);
    push_entry(&mut v, FieldId::Backgrounds, 61, "Backgrounds!A2:J10", Some(9), None);
    push_entry(&mut v, FieldId::ExperienceStart, 62, "Experience!B1", None, None);
    push_entry(&mut v, FieldId::ExperienceSpentTotal, 63, "Experience!B2", None, None);
    push_entry(&mut v, FieldId::ExperienceAvailable, 64, "Experience!B3", None, None);
    push_entry(&mut v, FieldId::ExperienceReceivedTotal, 65, "Experience!B4", None, None);
    push_entry(&mut v, FieldId::Initiative, 66, "Battle!B1", None, None);
    push_entry(&mut v, FieldId::InitiativeWithCelerity, 67, "Battle!C1", None, None);
    push_entry(&mut v, FieldId::HealthHealthy, 68, "Battle!A3:H3", None, None);
    push_entry(&mut v, FieldId::HealthInjured, 69, "Battle!A4:H4", None, None);
    push_entry(&mut v, FieldId::HealthIncapacitated, 70, "Battle!A5:H5", None, None);
    push_entry(&mut v, FieldId::PhysicalDefenseBase, 71, "Battle!B7", None, None);
    push_entry(&mut v, FieldId::PhysicalDefenseWithCelerity, 72, "Battle!C7", None, None);
    push_entry(&mut v, FieldId::PhysicalDefenseFrenzyModifier, 73, "Battle!D7", None, None);
    push_entry(&mut v, FieldId::PhysicalDefenseGroundClose, 74, "Battle!E7", None, None);
    push_entry(&mut v, FieldId::PhysicalDefenseGroundFar, 75, "Battle!F7", None, None);
    push_entry(&mut v, FieldId::PhysicalDefenseSpecial, 76, "Battle!G7", None, None);
    push_entry(&mut v, FieldId::SocialDefense, 77, "Battle!A9:I9", None, None);
    push_entry(&mut v, FieldId::MentalDefense, 78, "Battle!A10:I10", None, None);
    push_entry(&mut v, FieldId::OffensePools, 79, "Battle!A12:AA35", Some(24), None);
    push_entry(&mut v, FieldId::Rituals, 80, "Rituals!A2:H16", Some(15), None);
    push_entry(&mut v, FieldId::Items, 81, "Items!A2:Z40", None, None);
    push_entry(&mut v, FieldId::MeritsFlawsName, 82, "Merits!A2:A8", Some(7), Some(true));
        proof {
            assert forall|i: int| 0 <= i < 83 implies (#[trigger] v@[i]).position == i by {
                assert(entry_at(v@[i], i));
            }
            assert forall|i: int| 0 <= i < 83 implies (is_readable(#[trigger] v@[i]) <==> i < 82)
            by {
                assert(entry_at(v@[i], i));
            }
        }
        ConfigClient { settings: FieldConfig { sheet_field: v } }
    }

    /// Looks a field up by identifier; an unconfigured identifier is a
    /// configuration bug reported as `UnknownField`.
    pub fn get_field_config(&self, field_name: FieldId) -> (r: Result<
        FieldConfigEntry,
        TranscodeError,
    >)
        ensures
            match r {
                Ok(e) => lookup_spec(self.settings.sheet_field@, field_name) == Some(e),
                Err(err) => lookup_spec(self.settings.sheet_field@, field_name) is None && err
                    == TranscodeError::UnknownField(field_name),
            },
    {
        let fields = &self.settings.sheet_field;
        let ghost all = fields@;
        proof {
            assert(all.skip(0) =~= all);
        }
        let mut i: usize = 0;
        while i < fields.len()
            invariant
                i <= all.len(),
                fields@ == all,
                all == self.settings.sheet_field@,
                lookup_spec(all, field_name) == lookup_spec(all.skip(i as int), field_name),
            decreases all.len() - i,
        {
            if fields[i].name == field_name {
                proof {
                    assert(all.skip(i as int)[0] == all[i as int]);
                    assert(all.skip(i as int).len() > 0);
                    assert(lookup_spec(all.skip(i as int), field_name) == Some(all[i as int]));
                }
                let e = fields[i].clone();
                proof {
                    assert(e == all[i as int]);
                }
                return Ok(e);
            }
            proof {
                assert(all.skip(i as int).drop_first() =~= all.skip(i as int + 1));
                assert(all.skip(i as int)[0] == all[i as int]);
            }
            i += 1;
        }
        proof {
            assert(all.skip(all.len() as int).len() == 0);
        }
        Err(TranscodeError::UnknownField(field_name))
    }

    /// The readable registry entries ordered by batch position: the order in
    /// which ranges are fetched. Write-only fields are excluded from this
    /// sequence but remain addressable for encoding.
    pub fn get_field_config_sorted(&self) -> (r: Vec<FieldConfigEntry>)
        ensures
            sorted_by_position(r@),
            r@.to_multiset() == spec_readable(self.settings.sheet_field@).to_multiset(),
    {
        broadcast use vstd::seq_lib::group_to_multiset_ensures;

        let fields = &self.settings.sheet_field;
        let mut src: Vec<FieldConfigEntry> = Vec::new();
        let mut i: usize = 0;
        while i < fields.len()
            invariant
                i <= fields@.len(),
                src@ =~= spec_readable(fields@.take(i as int)),
            decreases fields@.len() - i,
        {
            proof {
                assert(fields@.take(i as int + 1).drop_last() =~= fields@.take(i as int));
                assert(fields@.take(i as int + 1).last() == fields@[i as int]);
            }
            let keep = match fields[i].exclude_on_read {
                Some(true) => false,
                _ => true,
            };
            if keep {
                src.push(fields[i].clone());
            }
            proof {
                assert(src@ =~= spec_readable(fields@.take(i as int + 1)));
            }
            i += 1;
        }
        proof {
            assert(fields@.take(fields@.len() as int) =~= fields@);
        }
        let mut out: Vec<FieldConfigEntry> = Vec::new();
        while src.len() > 0
            invariant
                sorted_by_position(out@),
                out@.to_multiset().add(src@.to_multiset()) =~= spec_readable(
                    self.settings.sheet_field@,
                ).to_multiset(),
                forall|a: int, b: int|
                    0 <= a < out@.len() && 0 <= b < src@.len() ==> out@[a].position
                        <= src@[b].position,
            decreases src.len(),
        {
            let mut m: usize = 0;
            let mut k: usize = 1;
            while k < src.len()
                invariant
                    1 <= k <= src@.len(),
                    m < k,
                    src@.len() > 0,
                    forall|b: int| 0 <= b < k ==> src@[m as int].position <= src@[b].position,
                decreases src.len() - k,
            {
                if src[k].position < src[m].position {
                    m = k;
                }
                k += 1;
            }
            let ghost pre_src = src@;
            let ghost pre_out = out@;
            let e = src.remove(m);
            proof {
                pre_src.to_multiset_ensures();
                assert(pre_src[m as int] == e);
                assert(pre_src.contains(e));
                assert(pre_src.to_multiset().count(e) > 0);
                assert(src@ == pre_src.remove(m as int));
                assert(pre_src.remove(m as int).to_multiset() =~= pre_src.to_multiset().remove(e));
                assert(src@.to_multiset() =~= pre_src.to_multiset().remove(e));
            }
            out.push(e);
            proof {
                pre_out.to_multiset_ensures();
                assert(out@ == pre_out.push(e));
                assert(pre_out.push(e).to_multiset() =~= pre_out.to_multiset().insert(e));
                assert(out@.to_multiset() =~= pre_out.to_multiset().insert(e));
                assert(out@.to_multiset().add(src@.to_multiset()) =~= pre_out.to_multiset().add(
                    pre_src.to_multiset(),
                ));
                assert(forall|a: int|
                    0 <= a < out@.len() ==> out@[a].position <= e.position) by {
                    assert(forall|a: int|
                        0 <= a < pre_out.len() ==> pre_out[a].position <= pre_src[m as int].position);
                };
            }
        }
        proof {
            assert(src@.to_multiset().len() == 0);
            assert(out@.to_multiset().add(src@.to_multiset()) =~= out@.to_multiset());
        }
        out
    }
}

proof fn lemma_lookup_first_match(fields: Seq<FieldConfigEntry>, id: FieldId, k: int)
    requires
        0 <= k < fields.len(),
        fields[k].name == id,
        forall|i: int| 0 <= i < k ==> (#[trigger] fields[i]).name != id,
    ensures
        lookup_spec(fields, id) == Some(fields[k]),
    decreases k,
{
    if k == 0 {
    } else {
        assert(fields[0].name != id);
        let rest = fields.drop_first();
        assert forall|i: int| 0 <= i < k - 1 implies (#[trigger] rest[i]).name != id by {
            assert(rest[i] == fields[i + 1]);
        }
        assert(rest[k - 1] == fields[k]);
        lemma_lookup_first_match(rest, id, k - 1);
    }
}

proof fn lemma_std_slot_inverse(i: int)
    requires
        0 <= i < 83,
    ensures
        std_slot(std_field_id(i)) == i,
{
}

proof fn lemma_std_slot_bounds(id: FieldId)
    ensures
        0 <= std_slot(id) < 83,
        std_field_id(std_slot(id)) == id,
{
}

/// On the standard registry every field identifier is configured: looking it
/// up finds exactly the entry at its documented slot, carrying its documented
/// range string, fixed row count and write-only flag. `UnknownField` is thus
/// impossible on the shipped table.
pub proof fn lemma_std_lookup(fields: Seq<FieldConfigEntry>, id: FieldId)
    requires
        std_registry(fields),
    ensures
        ({
            let k = std_slot(id);
            lookup_spec(fields, id) matches Some(e) && e == fields[k] && e.name == id
                && e.position as int == k && e.range@ == std_range(k) && e.range_length
                == std_row_count(k) && e.exclude_on_read == std_exclude(k)
        }),
{
    lemma_std_slot_bounds(id);
    let k = std_slot(id);
    assert(entry_at(fields[k], k));
    assert forall|i: int| 0 <= i < k implies (#[trigger] fields[i]).name != id by {
        assert(entry_at(fields[i], i));
        if fields[i].name == id {
            lemma_std_slot_inverse(i);
        }
    }
    lemma_lookup_first_match(fields, id, k);
}

/// On the standard registry the field identifiers are pairwise distinct, as
/// are the batch positions.
pub proof fn lemma_std_names_distinct(fields: Seq<FieldConfigEntry>)
    requires
        std_registry(fields),
    ensures
        forall|i: int, j: int|
            0 <= i < j < fields.len() ==> (#[trigger] fields[i]).name != (#[trigger] fields[j]).name,
        forall|i: int, j: int|
            0 <= i < j < fields.len() ==> fields[i].position != fields[j].position,
{
    assert forall|i: int, j: int|
        0 <= i < j < fields.len() implies (#[trigger] fields[i]).name
        != (#[trigger] fields[j]).name by {
        assert(entry_at(fields[i], i));
        assert(entry_at(fields[j], j));
        if fields[i].name == fields[j].name {
            lemma_std_slot_inverse(i);
            lemma_std_slot_inverse(j);
        }
    }
    assert forall|i: int, j: int|
        0 <= i < j < fields.len() implies fields[i].position != fields[j].position by {
        assert(entry_at(fields[i], i));
        assert(entry_at(fields[j], j));
    }
}

} // verus!
