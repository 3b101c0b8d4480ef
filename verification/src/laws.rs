//! The general laws of the transcoder, stated and proved once over the spec
//! functions that the decoder's and encoder's contracts are written in.

use crate::cells::{blk_rows, padded, CellBlock};
use crate::character::{
    blocks_match, enc_attrs_list, enc_identity_list, enc_powers_list, enc_skills_list,
    enc_skills_list_a, enc_skills_list_b, enc_skills_list_c, enc_skills_list_d, enc_social_list,
    enc_tail_list, spec_encode_err, spec_encode_list, BlockSpec,
};
use crate::config::{lemma_std_lookup, std_range, std_registry, std_slot, FieldConfigEntry};
use crate::decode::{lemma_lost_upto_bounds, lost_upto, spec_health_track};
use crate::encode::{enc_scalar_text, enc_u8_text};
use crate::fields::FieldId;
use crate::model::PlayerCharacterUpdateInput;
use crate::text::{
    lemma_parse_u8_round_trip, lemma_sentinel_parses_to_none, parse_u8_or_zero, u8_dec_spec,
};
use vstd::prelude::*;

verus! {

/// Round trip for numeric scalar cells: decoding what the encoder writes for
/// a `u8` gives the value back, for every value. Zero is written as the
/// sentinel, which parses to nothing and so decodes back to zero.
pub proof fn lemma_u8_scalar_round_trip(v: u8)
    ensures
        parse_u8_or_zero(enc_u8_text(v)) == v,
{
    if v == 0 {
        assert(u8_dec_spec(0) =~= seq!['0']);
        lemma_sentinel_parses_to_none();
    } else {
        assert(u8_dec_spec(v) != seq!['0']) by {
            if v < 10 {
                assert(crate::text::digit_char(v as int) != '0');
                assert(u8_dec_spec(v)[0] == crate::text::digit_char(v as int));
                assert(seq!['0'][0] == '0');
            } else {
                assert(u8_dec_spec(v).len() >= 2);
            }
        }
        lemma_parse_u8_round_trip(v);
    }
}

/// Round trip for text scalar cells: any value other than the literal `"0"`
/// is written unchanged, so decoding gives it back; `"0"` is the one text
/// that detours through the sentinel.
pub proof fn lemma_string_scalar_round_trip(s: Seq<char>)
    requires
        s != seq!['0'],
    ensures
        enc_scalar_text(s) == s,
{
}

/// Idempotence: two write lists encoded from the same update are identical,
/// block for block, in range and in cell content.
pub proof fn lemma_encode_idempotent(
    p: PlayerCharacterUpdateInput,
    f: Seq<FieldConfigEntry>,
    v1: Seq<CellBlock>,
    v2: Seq<CellBlock>,
)
    requires
        blocks_match(v1, spec_encode_list(p, f)),
        blocks_match(v2, spec_encode_list(p, f)),
    ensures
        v1.len() == v2.len(),
        forall|i: int|
            0 <= i < v1.len() ==> (#[trigger] v1[i]).range@ == v2[i].range@ && blk_rows(v1[i])
                == blk_rows(v2[i]),
{
    let m = spec_encode_list(p, f);
    assert forall|i: int|
        0 <= i < v1.len() implies (#[trigger] v1[i]).range@ == v2[i].range@ && blk_rows(v1[i])
        == blk_rows(v2[i]) by {
        assert(v1[i].range@ == m[i].0);
        assert(v2[i].range@ == m[i].0);
    }
}

/// The padding invariant: a list of k entries encoded into a field of fixed
/// row count n, with k at most n, yields exactly n rows; the first k hold
/// the data and the remaining n - k hold the field's sentinel row.
pub proof fn lemma_padding_invariant(rows: Seq<Seq<Seq<char>>>, n: int, pad: Seq<Seq<char>>)
    requires
        rows.len() <= n,
    ensures
        padded(rows, n, pad).len() == n,
        forall|i: int| 0 <= i < rows.len() ==> #[trigger] padded(rows, n, pad)[i] == rows[i],
        forall|i: int| rows.len() <= i < n ==> #[trigger] padded(rows, n, pad)[i] == pad,
{
}

/// The health-track rule: the base and bonus-adjusted values come from their
/// fixed columns, and the remaining boxes are the bonus-adjusted maximum
/// minus the boxes lost in the five-slot loss window, clamped at zero and
/// never negative.
pub proof fn lemma_health_track_remaining(row: Seq<Seq<char>>)
    ensures
        ({
            let t = spec_health_track(row);
            let lost = lost_upto(row, 5);
            &&& t.base_value == parse_u8_or_zero(row[5])
            &&& t.with_boni == parse_u8_or_zero(row[7])
            &&& t.remaining as int == (if t.with_boni as int - lost >= 0 {
                t.with_boni as int - lost
            } else {
                0
            })
            &&& t.remaining <= t.with_boni
        }),
{
    lemma_lost_upto_bounds(row, 5);
}

/// On the shipped registry, an update carrying only a faction name encodes
/// to exactly one block: the faction field's configured range, with the name
/// as its single cell. Every other configured range is left untouched.
pub proof fn lemma_faction_only_update(p: PlayerCharacterUpdateInput, f: Seq<FieldConfigEntry>)
    requires
        std_registry(f),
        p.character_name is None,
        p.player_name is None,
        p.archetype is None,
        p.generation is None,
        p.clan is None,
        p.attributes is None,
        p.skills is None,
        p.powers is None,
        p.morality is None,
        p.faction matches Some(name),
        p.merits is None,
        p.flaws is None,
        p.backgrounds is None,
        p.experience_information is None,
        p.rituals is None,
    ensures
        spec_encode_err(p, f) is None,
        spec_encode_list(p, f).len() == 1,
        spec_encode_list(p, f)[0].0 == std_range(std_slot(FieldId::FactionName)),
        (p.faction matches Some(name) ==> spec_encode_list(p, f)[0].1 == seq![
            seq![enc_scalar_text(name@)],
        ]),
{
    lemma_std_lookup(f, FieldId::FactionName);
    lemma_std_lookup(f, FieldId::AttributePhysicalFoci);
    lemma_std_lookup(f, FieldId::AttributeSocialFoci);
    lemma_std_lookup(f, FieldId::AttributeMentalFoci);
    lemma_std_lookup(f, FieldId::Techniques);
    lemma_std_lookup(f, FieldId::InClanElderPowers);
    lemma_std_lookup(f, FieldId::OutOfClanElderPowers);
    lemma_std_lookup(f, FieldId::Backgrounds);
    lemma_std_lookup(f, FieldId::Rituals);
    let e = Seq::<BlockSpec>::empty();
    assert(enc_identity_list(p, f) =~= e);
    assert(enc_attrs_list(p.attributes, f) =~= e);
    assert(enc_skills_list_a(p.skills, f) =~= e);
    assert(enc_skills_list_b(p.skills, f) =~= e);
    assert(enc_skills_list_c(p.skills, f) =~= e);
    assert(enc_skills_list_d(p.skills, f) =~= e);
    assert(enc_skills_list(p.skills, f) =~= e);
    assert(enc_powers_list(p.powers, f) =~= e);
    assert(enc_tail_list(p, f) =~= e);
    let k = std_slot(FieldId::FactionName);
    assert(enc_social_list(p, f) =~= seq![(std_range(k), seq![seq![enc_scalar_text(p.faction->Some_0@)]])]);
    assert(spec_encode_list(p, f) =~= enc_social_list(p, f));
}

} // verus!
