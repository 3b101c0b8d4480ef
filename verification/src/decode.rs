//! The cell-block decoder: pure functions from one raw cell block to a typed
//! value, one per field kind. Missing or short blocks of mandatory single-row
//! fields are typed errors; malformed scalar cells deliberately decode to the
//! type's zero value; `"-"` cells are the store's "no value" sentinel.

use crate::cells::{blk_rows, cell_or, rows_dv, CellBlock};
use crate::config::{lookup_spec, ConfigClient, FieldConfigEntry};
use crate::fields::{FieldId, TranscodeError};
use std::collections::HashMap;
use crate::model::{
    Background, BattleOffenseInformation, Discipline, Flaw, HealthTrack, Item, Merit, NameValue,
    Ritual,
};
use crate::text::{
    eq_char, is_digit_char, is_sentinel, parse_i16_or_default, parse_i16_or_zero, parse_i8_or_default, parse_i8_or_zero,
    parse_u16_or_default, parse_u16_or_zero, parse_u8_or_default, parse_u8_or_zero, sentinel_seq,
    split_comma_spec, split_commas, trim_spec, trim_str,
};
use vstd::prelude::*;

verus! {

/// The rows configured for `name` inside a batch response: `Err` when the
/// field is unconfigured or the batch has no block at its position, `Ok(None)`
/// when the fetch returned no values for the range.
pub open spec fn spec_block(
    blocks: Seq<CellBlock>,
    fields: Seq<FieldConfigEntry>,
    name: FieldId,
) -> Result<Option<Seq<Seq<Seq<char>>>>, TranscodeError> {
    match lookup_spec(fields, name) {
        Option::None => Err(TranscodeError::UnknownField(name)),
        Option::Some(e) => if (e.position as int) < blocks.len() {
            Ok(blk_rows(blocks[e.position as int]))
        } else {
            Err(TranscodeError::MissingMandatoryBlock(name))
        },
    }
}

/// Takes care of retrieving the value block from the batch result, by
/// registry position only: callers never index the raw array themselves.
pub fn extract_value_from_vec<'a>(
    blocks: &'a Vec<CellBlock>,
    name: FieldId,
    cfg: &ConfigClient,
) -> (r: Result<Option<&'a Vec<Vec<String>>>, TranscodeError>)
    ensures
        ({
            let sb = spec_block(blocks@, cfg.settings.sheet_field@, name);
            match r {
                Ok(o) => match o {
                    Some(v) => sb matches Ok(so) && so == Some(rows_dv(*v)),
                    None => sb matches Ok(so) && so is None,
                },
                Err(e) => sb matches Err(se) && se == e,
            }
        }),
{
    let entry = match cfg.get_field_config(name) {
        Ok(e) => e,
        Err(e) => {
            return Err(e);
        },
    };
    let pos = entry.position as usize;
    if pos < blocks.len() {
        match blocks[pos].values.as_ref() {
            Some(v) => Ok(Some(v)),
            None => Ok(None),
        }
    } else {
        Err(TranscodeError::MissingMandatoryBlock(name))
    }
}

/// The scalar cell of a single-cell field: the first cell of the first row.
/// An absent block reads as the sentinel; a present block without a first
/// cell breaks the store's shape contract.
pub open spec fn spec_scalar_cell(
    blocks: Seq<CellBlock>,
    fields: Seq<FieldConfigEntry>,
    name: FieldId,
) -> Result<Seq<char>, TranscodeError> {
    match spec_block(blocks, fields, name) {
        Err(e) => Err(e),
        Ok(o) => match o {
            None => Ok(sentinel_seq()),
            Some(rows) => if rows.len() > 0 && rows[0].len() > 0 {
                Ok(rows[0][0])
            } else {
                Err(TranscodeError::MissingMandatoryBlock(name))
            },
        },
    }
}

pub open spec fn spec_get_string(
    blocks: Seq<CellBlock>,
    fields: Seq<FieldConfigEntry>,
    name: FieldId,
) -> Result<Seq<char>, TranscodeError> {
    spec_scalar_cell(blocks, fields, name)
}

pub open spec fn spec_get_u8(
    blocks: Seq<CellBlock>,
    fields: Seq<FieldConfigEntry>,
    name: FieldId,
) -> Result<u8, TranscodeError> {
    match spec_scalar_cell(blocks, fields, name) {
        Ok(c) => Ok(parse_u8_or_zero(c)),
        Err(e) => Err(e),
    }
}

pub open spec fn spec_get_u16(
    blocks: Seq<CellBlock>,
    fields: Seq<FieldConfigEntry>,
    name: FieldId,
) -> Result<u16, TranscodeError> {
    match spec_scalar_cell(blocks, fields, name) {
        Ok(c) => Ok(parse_u16_or_zero(c)),
        Err(e) => Err(e),
    }
}

pub open spec fn spec_get_i8(
    blocks: Seq<CellBlock>,
    fields: Seq<FieldConfigEntry>,
    name: FieldId,
) -> Result<i8, TranscodeError> {
    match spec_scalar_cell(blocks, fields, name) {
        Ok(c) => Ok(parse_i8_or_zero(c)),
        Err(e) => Err(e),
    }
}

pub open spec fn spec_get_i16(
    blocks: Seq<CellBlock>,
    fields: Seq<FieldConfigEntry>,
    name: FieldId,
) -> Result<i16, TranscodeError> {
    match spec_scalar_cell(blocks, fields, name) {
        Ok(c) => Ok(parse_i16_or_zero(c)),
        Err(e) => Err(e),
    }
}

/// Reads a single cell as text, with the sentinel default for absent blocks.
pub fn get_value_string(blocks: &Vec<CellBlock>, name: FieldId, cfg: &ConfigClient) -> (r: Result<
    String,
    TranscodeError,
>)
    ensures
        ({
            let sg = spec_get_string(blocks@, cfg.settings.sheet_field@, name);
            match r {
                Ok(s) => sg matches Ok(c) && s@ == c,
                Err(e) => sg matches Err(se) && se == e,
            }
        }),
{
    match extract_value_from_vec(blocks, name, cfg) {
        Err(e) => Err(e),
        Ok(None) => {
            proof {
                reveal_strlit("-");
                assert("-"@ =~= sentinel_seq());
            }
            Ok("-".to_owned())
        },
        Ok(Some(rows)) => {
            if rows.len() > 0 && rows[0].len() > 0 {
                let cell = rows[0][0].clone();
                proof {
                    let rdv = rows_dv(*rows);
                    assert(rdv[0] == rows@[0].deep_view());
                    assert(rdv[0][0] == rows@[0]@[0]@);
                }
                Ok(cell)
            } else {
                proof {
                    let rdv = rows_dv(*rows);
                    if rows@.len() > 0 {
                        assert(rdv[0] == rows@[0].deep_view());
                    }
                }
                Err(TranscodeError::MissingMandatoryBlock(name))
            }
        },
    }
}

/// Reads a single cell as a `u8`, defaulting to zero on malformed input.
pub fn get_value_u8(blocks: &Vec<CellBlock>, name: FieldId, cfg: &ConfigClient) -> (r: Result<
    u8,
    TranscodeError,
>)
    ensures
        r == spec_get_u8(blocks@, cfg.settings.sheet_field@, name),
{
    match get_value_string(blocks, name, cfg) {
        Ok(s) => Ok(parse_u8_or_default(s.as_str())),
        Err(e) => Err(e),
    }
}

/// Reads a single cell as a `u16`, defaulting to zero on malformed input.
pub fn get_value_u16(blocks: &Vec<CellBlock>, name: FieldId, cfg: &ConfigClient) -> (r: Result<
    u16,
    TranscodeError,
>)
    ensures
        r == spec_get_u16(blocks@, cfg.settings.sheet_field@, name),
{
    match get_value_string(blocks, name, cfg) {
        Ok(s) => Ok(parse_u16_or_default(s.as_str())),
        Err(e) => Err(e),
    }
}

/// Reads a single cell as an `i8`, defaulting to zero on malformed input.
pub fn get_value_i8(blocks: &Vec<CellBlock>, name: FieldId, cfg: &ConfigClient) -> (r: Result<
    i8,
    TranscodeError,
>)
    ensures
        r == spec_get_i8(blocks@, cfg.settings.sheet_field@, name),
{
    match get_value_string(blocks, name, cfg) {
        Ok(s) => Ok(parse_i8_or_default(s.as_str())),
        Err(e) => Err(e),
    }
}

/// Reads a single cell as an `i16`, defaulting to zero on malformed input.
pub fn get_value_i16(blocks: &Vec<CellBlock>, name: FieldId, cfg: &ConfigClient) -> (r: Result<
    i16,
    TranscodeError,
>)
    ensures
        r == spec_get_i16(blocks@, cfg.settings.sheet_field@, name),
{
    match get_value_string(blocks, name, cfg) {
        Ok(s) => Ok(parse_i16_or_default(s.as_str())),
        Err(e) => Err(e),
    }
}

/// All cells of a block, row by row, left to right.
pub open spec fn spec_cells_concat(rows: Seq<Seq<Seq<char>>>) -> Seq<Seq<char>>
    decreases rows.len(),
{
    if rows.len() == 0 {
        Seq::empty()
    } else {
        spec_cells_concat(rows.drop_last()) + rows.last()
    }
}

/// The cells that are not the sentinel, in order.
pub open spec fn spec_nonsentinel(cells: Seq<Seq<char>>) -> Seq<Seq<char>>
    decreases cells.len(),
{
    if cells.len() == 0 {
        Seq::empty()
    } else {
        let pre = spec_nonsentinel(cells.drop_last());
        if cells.last() != sentinel_seq() {
            pre.push(cells.last())
        } else {
            pre
        }
    }
}

/// A column-list field: every non-sentinel cell of the block, in row order.
/// An absent block degrades to the empty list.
pub open spec fn spec_get_value_vec(
    blocks: Seq<CellBlock>,
    fields: Seq<FieldConfigEntry>,
    name: FieldId,
) -> Result<Seq<Seq<char>>, TranscodeError> {
    match spec_block(blocks, fields, name) {
        Err(e) => Err(e),
        Ok(o) => match o {
            None => Ok(Seq::empty()),
            Some(rows) => Ok(spec_nonsentinel(spec_cells_concat(rows))),
        },
    }
}

/// Extracts a column list, dropping sentinel entries.
pub fn get_value_vec(blocks: &Vec<CellBlock>, name: FieldId, cfg: &ConfigClient) -> (r: Result<
    Vec<String>,
    TranscodeError,
>)
    ensures
        ({
            let sg = spec_get_value_vec(blocks@, cfg.settings.sheet_field@, name);
            match r {
                Ok(v) => sg matches Ok(s) && v.deep_view() == s,
                Err(e) => sg matches Err(se) && se == e,
            }
        }),
{
    let rows = match extract_value_from_vec(blocks, name, cfg) {
        Err(e) => {
            return Err(e);
        },
        Ok(None) => {
            let out: Vec<String> = Vec::new();
            proof {
                assert(out.deep_view() =~= Seq::<Seq<char>>::empty());
            }
            return Ok(out);
        },
        Ok(Some(rows)) => rows,
    };
    let ghost rdv = rows_dv(*rows);
    let mut out: Vec<String> = Vec::new();
    let mut i: usize = 0;
    proof {
        assert(spec_cells_concat(rdv.take(0)) =~= Seq::<Seq<char>>::empty());
        assert(out.deep_view() =~= Seq::<Seq<char>>::empty());
    }
    while i < rows.len()
        invariant
            i <= rows@.len(),
            rdv == rows_dv(*rows),
            out.deep_view() == spec_nonsentinel(spec_cells_concat(rdv.take(i as int))),
        decreases rows@.len() - i,
    {
        let row = &rows[i];
        let ghost rowdv = rdv[i as int];
        proof {
            assert(rowdv == rows@[i as int].deep_view());
        }
        let mut j: usize = 0;
        proof {
            assert(spec_cells_concat(rdv.take(i as int)) + rowdv.take(0) =~= spec_cells_concat(
                rdv.take(i as int),
            ));
        }
        while j < row.len()
            invariant
                j <= row@.len(),
                rdv == rows_dv(*rows),
                i < rows@.len(),
                row == &rows[i as int],
                rowdv == rdv[i as int],
                rowdv == rows@[i as int].deep_view(),
                out.deep_view() == spec_nonsentinel(
                    spec_cells_concat(rdv.take(i as int)) + rowdv.take(j as int),
                ),
            decreases row@.len() - j,
        {
            let cell = &row[j];
            let ghost pre = spec_cells_concat(rdv.take(i as int)) + rowdv.take(j as int);
            let ghost post = spec_cells_concat(rdv.take(i as int)) + rowdv.take(j as int + 1);
            proof {
                assert(rowdv[j as int] == row@[j as int]@);
                assert(post =~= pre.push(rowdv[j as int]));
                assert(post.drop_last() =~= pre);
            }
            if !is_sentinel(cell.as_str()) {
                let ghost odv = out.deep_view();
                out.push(cell.clone());
                proof {
                    assert(out.deep_view() =~~= odv.push(cell@));
                }
            }
            j += 1;
        }
        proof {
            assert(rowdv.take(rowdv.len() as int) =~= rowdv);
            assert(rdv.take(i as int + 1).drop_last() =~= rdv.take(i as int));
            assert(rdv.take(i as int + 1).last() == rowdv);
            assert(spec_cells_concat(rdv.take(i as int + 1)) == spec_cells_concat(
                rdv.take(i as int),
            ) + rowdv);
        }
        i += 1;
    }
    proof {
        assert(rdv.take(rows@.len() as int) =~= rdv);
    }
    Ok(out)
}

/// The trimmed, non-sentinel segments of a comma-separated tag cell.
pub open spec fn spec_kept_tags(parts: Seq<Seq<char>>) -> Seq<Seq<char>>
    decreases parts.len(),
{
    if parts.len() == 0 {
        Seq::empty()
    } else {
        let pre = spec_kept_tags(parts.drop_last());
        let t = trim_spec(parts.last());
        if t != sentinel_seq() {
            pre.push(t)
        } else {
            pre
        }
    }
}

/// A specialization-tag field: the scalar cell split on commas, each segment
/// trimmed, sentinel segments dropped. An empty result is a valid outcome.
pub open spec fn spec_get_skill_tags(
    blocks: Seq<CellBlock>,
    fields: Seq<FieldConfigEntry>,
    name: FieldId,
) -> Result<Seq<Seq<char>>, TranscodeError> {
    match spec_get_string(blocks, fields, name) {
        Ok(c) => Ok(spec_kept_tags(split_comma_spec(c))),
        Err(e) => Err(e),
    }
}

/// Reads a skill specialization tag list.
pub fn get_skill_specialization(blocks: &Vec<CellBlock>, name: FieldId, cfg: &ConfigClient) -> (r:
    Result<Option<Vec<String>>, TranscodeError>)
    ensures
        ({
            let sg = spec_get_skill_tags(blocks@, cfg.settings.sheet_field@, name);
            match r {
                Ok(o) => sg matches Ok(s) && o matches Some(v) && v.deep_view() == s,
                Err(e) => sg matches Err(se) && se == e,
            }
        }),
{
    let cell = match get_value_string(blocks, name, cfg) {
        Ok(s) => s,
        Err(e) => {
            return Err(e);
        },
    };
    let parts = split_commas(cell.as_str());
    let ghost pdv = parts.deep_view();
    let mut out: Vec<String> = Vec::new();
    let mut i: usize = 0;
    proof {
        assert(pdv.take(0) =~= Seq::<Seq<char>>::empty());
        assert(out.deep_view() =~= Seq::<Seq<char>>::empty());
    }
    while i < parts.len()
        invariant
            i <= parts@.len(),
            pdv == parts.deep_view(),
            out.deep_view() == spec_kept_tags(pdv.take(i as int)),
        decreases parts@.len() - i,
    {
        let t = trim_str(parts[i].as_str());
        proof {
            assert(pdv[i as int] == parts@[i as int]@);
            assert(pdv.take(i as int + 1).drop_last() =~= pdv.take(i as int));
            assert(pdv.take(i as int + 1).last() == pdv[i as int]);
        }
        if !is_sentinel(t.as_str()) {
            let ghost odv = out.deep_view();
            out.push(t);
            proof {
                assert(out.deep_view() =~~= odv.push(trim_spec(pdv[i as int])));
            }
        }
        i += 1;
    }
    proof {
        assert(pdv.take(parts@.len() as int) =~= pdv);
    }
    Ok(Some(out))
}

/// The fixed read window of a packed list field: its first `fixed_row_count`
/// rows. The block must be present and hold at least the window.
pub open spec fn spec_window(
    blocks: Seq<CellBlock>,
    fields: Seq<FieldConfigEntry>,
    name: FieldId,
) -> Result<Seq<Seq<Seq<char>>>, TranscodeError> {
    match lookup_spec(fields, name) {
        Option::None => Err(TranscodeError::UnknownField(name)),
        Option::Some(entry) => {
            let n = match entry.range_length {
                Option::Some(l) => l as int,
                Option::None => 1,
            };
            if !((entry.position as int) < blocks.len()) {
                Err(TranscodeError::MissingMandatoryBlock(name))
            } else {
                match blk_rows(blocks[entry.position as int]) {
                    Option::None => Err(TranscodeError::MissingMandatoryBlock(name)),
                    Option::Some(rows) => if rows.len() >= n {
                        Ok(rows.take(n))
                    } else {
                        Err(TranscodeError::MissingMandatoryBlock(name))
                    },
                }
            }
        },
    }
}

/// Fetches the window of a packed field: the borrowed rows plus the window
/// length, which is at most the row count.
fn get_window<'a>(blocks: &'a Vec<CellBlock>, name: FieldId, cfg: &ConfigClient) -> (r: Result<
    (&'a Vec<Vec<String>>, usize),
    TranscodeError,
>)
    ensures
        ({
            let sw = spec_window(blocks@, cfg.settings.sheet_field@, name);
            match r {
                Ok(p) => sw matches Ok(w) && p.1 <= p.0@.len() && w == rows_dv(*p.0).take(
                    p.1 as int,
                ),
                Err(e) => sw matches Err(se) && se == e,
            }
        }),
{
    let entry = match cfg.get_field_config(name) {
        Ok(e) => e,
        Err(e) => {
            return Err(e);
        },
    };
    let n: usize = match entry.range_length {
        Some(l) => l as usize,
        None => 1,
    };
    let pos = entry.position as usize;
    if pos >= blocks.len() {
        return Err(TranscodeError::MissingMandatoryBlock(name));
    }
    match blocks[pos].values.as_ref() {
        None => Err(TranscodeError::MissingMandatoryBlock(name)),
        Some(v) => if v.len() >= n {
            Ok((v, n))
        } else {
            Err(TranscodeError::MissingMandatoryBlock(name))
        },
    }
}

/// A discipline row is kept when its name column is not the sentinel.
pub open spec fn disc_keep(row: Seq<Seq<char>>) -> bool {
    row[0] != sentinel_seq()
}

/// Every row of a discipline window offers its name column, and kept rows
/// reach the value column.
pub open spec fn disc_shape_ok(w: Seq<Seq<Seq<char>>>) -> bool {
    forall|k: int|
        0 <= k < w.len() ==> (#[trigger] w[k]).len() >= 1 && (disc_keep(w[k]) ==> w[k].len() >= 8)
}

/// The kept discipline rows, in order.
pub open spec fn spec_disc_rows(w: Seq<Seq<Seq<char>>>) -> Seq<Seq<Seq<char>>>
    decreases w.len(),
{
    if w.len() == 0 {
        Seq::empty()
    } else {
        let pre = spec_disc_rows(w.drop_last());
        if disc_keep(w.last()) {
            pre.push(w.last())
        } else {
            pre
        }
    }
}

/// A decoded discipline against its source row: name from column 0, value
/// from column 7, defaulting to zero.
pub open spec fn disc_of_row(d: Discipline, row: Seq<Seq<char>>) -> bool {
    d.name@ == row[0] && d.value == parse_u8_or_zero(row[7])
}

pub open spec fn discs_match(ds: Seq<Discipline>, w: Seq<Seq<Seq<char>>>) -> bool {
    let kept = spec_disc_rows(w);
    ds.len() == kept.len() && (forall|i: int| 0 <= i < kept.len() ==> disc_of_row(ds[i], kept[i]))
}

/// Reads the list of disciplines from a packed block.
#[verifier::loop_isolation(false)]
pub fn get_disciplines(blocks: &Vec<CellBlock>, name: FieldId, cfg: &ConfigClient) -> (r: Result<
    Vec<Discipline>,
    TranscodeError,
>)
    ensures
        ({
            let sw = spec_window(blocks@, cfg.settings.sheet_field@, name);
            match r {
                Ok(ds) => sw matches Ok(w) && disc_shape_ok(w) && discs_match(ds@, w),
                Err(e) => (sw matches Err(se) && se == e) || (sw matches Ok(w) && !disc_shape_ok(w)
                    && e == TranscodeError::MissingMandatoryBlock(name)),
            }
        }),
{
    let (rows, n) = match get_window(blocks, name, cfg) {
        Ok(p) => p,
        Err(e) => {
            return Err(e);
        },
    };
    let ghost w = rows_dv(*rows).take(n as int);
    let mut i: usize = 0;
    while i < n
        invariant
            i <= n <= rows@.len(),
            w == rows_dv(*rows).take(n as int),
            forall|k: int|
                0 <= k < i ==> (#[trigger] w[k]).len() >= 1 && (disc_keep(w[k]) ==> w[k].len()
                    >= 8),
        decreases n - i,
    {
        let row = &rows[i];
        proof {
            assert(w[i as int] == rows@[i as int].deep_view());
        }
        if row.len() < 1 {
            proof {
                assert(!disc_shape_ok(w));
            }
            return Err(TranscodeError::MissingMandatoryBlock(name));
        }
        let kept = !is_sentinel(row[0].as_str());
        proof {
            assert(w[i as int][0] == rows@[i as int]@[0]@);
        }
        if kept && row.len() < 8 {
            proof {
                assert(!disc_shape_ok(w));
            }
            return Err(TranscodeError::MissingMandatoryBlock(name));
        }
        i += 1;
    }
    assert(disc_shape_ok(w));
    let mut out: Vec<Discipline> = Vec::new();
    let mut i: usize = 0;
    proof {
        assert(w.take(0) =~= Seq::<Seq<Seq<char>>>::empty());
    }
    while i < n
        invariant
            i <= n <= rows@.len(),
            w == rows_dv(*rows).take(n as int),
            disc_shape_ok(w),
            discs_match(out@, w.take(i as int)),
        decreases n - i,
    {
        let row = &rows[i];
        proof {
            assert(w[i as int] == rows@[i as int].deep_view());
            assert(w[i as int][0] == rows@[i as int]@[0]@);
            assert(w.take(i as int + 1).drop_last() =~= w.take(i as int));
            assert(w.take(i as int + 1).last() == w[i as int]);
        }
        let ghost pre_kept = spec_disc_rows(w.take(i as int));
        if !is_sentinel(row[0].as_str()) {
            proof {
                assert(w[i as int][7] == rows@[i as int]@[7]@);
            }
            let ghost po = out@;
            out.push(
                Discipline { name: row[0].clone(), value: parse_u8_or_default(row[7].as_str()) },
            );
            proof {
                assert(spec_disc_rows(w.take(i as int + 1)) == pre_kept.push(w[i as int]));
                assert(disc_of_row(out@[po.len() as int], w[i as int]));
            }
        } else {
            proof {
                assert(spec_disc_rows(w.take(i as int + 1)) == pre_kept);
            }
        }
        i += 1;
    }
    proof {
        assert(w.take(n as int) =~= w);
    }
    Ok(out)
}

/// The index of the last colon of `c`, or -1 if there is none.
pub open spec fn last_colon_idx(c: Seq<char>) -> int
    decreases c.len(),
{
    if c.len() == 0 {
        -1
    } else if c.last() == ':' {
        c.len() - 1
    } else {
        last_colon_idx(c.drop_last())
    }
}

/// The merit/flaw cell grammar, marker `V` for merits and `N` for flaws:
/// `"<marker><type>:<name>"` splits at the last colon that leaves a non-empty
/// name, `"<marker> <name>"` has no type segment, and a cell matching
/// neither is taken whole as the name. Name and type are trimmed; an absent
/// type segment defaults to `"General"`. The result is `(name, type)`.
pub open spec fn prefixed_parts(c: Seq<char>, m: char) -> (Seq<char>, Seq<char>) {
    if c.len() >= 2 && c[0] == m && last_colon_idx(c.drop_last()) >= 1 {
        let j = last_colon_idx(c.drop_last());
        (trim_spec(c.subrange(j + 1, c.len() as int)), trim_spec(c.subrange(1, j)))
    } else if c.len() >= 3 && c[0] == m && c[1] == ' ' {
        (trim_spec(c.subrange(2, c.len() as int)), "General"@)
    } else {
        (c, "General"@)
    }
}

/// Splits one merit/flaw cell into `(name, type)`, proved against
/// `prefixed_parts`.
#[verifier::loop_isolation(false)]
pub fn parse_prefixed_cell(cell: &str, marker: char) -> (r: (String, String))
    ensures
        r.0@ == prefixed_parts(cell@, marker).0,
        r.1@ == prefixed_parts(cell@, marker).1,
{
    let n = cell.unicode_len();
    let mut bestp1: usize = 0;
    if n >= 1 {
        let mut k: usize = 0;
        proof {
            assert(cell@.take(0) =~= Seq::<char>::empty());
        }
        while k < n - 1
            invariant
                k <= n - 1,
                bestp1 <= k,
                bestp1 as int - 1 == last_colon_idx(cell@.take(k as int)),
            decreases n - k,
        {
            proof {
                assert(cell@.take(k as int + 1).drop_last() =~= cell@.take(k as int));
                assert(cell@.take(k as int + 1).last() == cell@[k as int]);
            }
            if cell.get_char(k) == ':' {
                bestp1 = k + 1;
            }
            k += 1;
        }
        proof {
            assert(cell@.take(n - 1) =~= cell@.drop_last());
        }
    }
    if n >= 2 && cell.get_char(0) == marker && bestp1 >= 2 {
        let j = bestp1 - 1;
        let name = trim_str(cell.substring_char(j + 1, n));
        let typ = trim_str(cell.substring_char(1, j));
        (name, typ)
    } else if n >= 3 && cell.get_char(0) == marker && cell.get_char(1) == ' ' {
        (trim_str(cell.substring_char(2, n)), "General".to_owned())
    } else {
        (cell.to_owned(), "General".to_owned())
    }
}

/// A row of the combined block is a merit row when its cell is neither the
/// sentinel nor flaw-marked: a leading `N` always means a flaw.
pub open spec fn merit_keep(row: Seq<Seq<char>>) -> bool {
    row[0] != sentinel_seq() && !(row[0].len() >= 1 && row[0][0] == 'N')
}

/// A flaw row: non-sentinel and starting with the flaw marker `N`.
pub open spec fn flaw_keep(row: Seq<Seq<char>>) -> bool {
    row[0] != sentinel_seq() && row[0].len() >= 1 && row[0][0] == 'N'
}

pub open spec fn merit_shape_ok(w: Seq<Seq<Seq<char>>>) -> bool {
    forall|k: int|
        0 <= k < w.len() ==> (#[trigger] w[k]).len() >= 1 && (merit_keep(w[k]) ==> w[k].len() >= 8)
}

pub open spec fn flaw_shape_ok(w: Seq<Seq<Seq<char>>>) -> bool {
    forall|k: int|
        0 <= k < w.len() ==> (#[trigger] w[k]).len() >= 1 && (flaw_keep(w[k]) ==> w[k].len() >= 8)
}

pub open spec fn spec_merit_rows(w: Seq<Seq<Seq<char>>>) -> Seq<Seq<Seq<char>>>
    decreases w.len(),
{
    if w.len() == 0 {
        Seq::empty()
    } else {
        let pre = spec_merit_rows(w.drop_last());
        if merit_keep(w.last()) {
            pre.push(w.last())
        } else {
            pre
        }
    }
}

pub open spec fn spec_flaw_rows(w: Seq<Seq<Seq<char>>>) -> Seq<Seq<Seq<char>>>
    decreases w.len(),
{
    if w.len() == 0 {
        Seq::empty()
    } else {
        let pre = spec_flaw_rows(w.drop_last());
        if flaw_keep(w.last()) {
            pre.push(w.last())
        } else {
            pre
        }
    }
}

pub open spec fn merit_of_row(m: Merit, row: Seq<Seq<char>>) -> bool {
    m.name@ == prefixed_parts(row[0], 'V').0 && m.merit_type@ == prefixed_parts(row[0], 'V').1
        && m.value == parse_i8_or_zero(row[7])
}

pub open spec fn flaw_of_row(f: Flaw, row: Seq<Seq<char>>) -> bool {
    f.name@ == prefixed_parts(row[0], 'N').0 && f.flaw_type@ == prefixed_parts(row[0], 'N').1
        && f.value == parse_i8_or_zero(row[7])
}

pub open spec fn merits_match(ms: Seq<Merit>, w: Seq<Seq<Seq<char>>>) -> bool {
    let kept = spec_merit_rows(w);
    ms.len() == kept.len() && (forall|i: int| 0 <= i < kept.len() ==> merit_of_row(ms[i], kept[i]))
}

pub open spec fn flaws_match(fs: Seq<Flaw>, w: Seq<Seq<Seq<char>>>) -> bool {
    let kept = spec_flaw_rows(w);
    fs.len() == kept.len() && (forall|i: int| 0 <= i < kept.len() ==> flaw_of_row(fs[i], kept[i]))
}

/// Reads the merits of the combined merit/flaw block: the first `n` rows,
/// keeping non-sentinel rows without the flaw marker.
#[verifier::loop_isolation(false)]
pub fn extract_merits(input: &Vec<Vec<String>>, n: usize) -> (r: Result<Vec<Merit>, TranscodeError>)
    ensures
        ({
            let w = rows_dv(*input).take(n as int);
            match r {
                Ok(ms) => input@.len() >= n && merit_shape_ok(w) && merits_match(ms@, w),
                Err(e) => e == TranscodeError::MissingMandatoryBlock(FieldId::MeritsFlaws) && (
                input@.len() < n || !merit_shape_ok(w)),
            }
        }),
{
    if input.len() < n {
        return Err(TranscodeError::MissingMandatoryBlock(FieldId::MeritsFlaws));
    }
    let ghost w = rows_dv(*input).take(n as int);
    let mut i: usize = 0;
    while i < n
        invariant
            i <= n,
            forall|k: int|
                0 <= k < i ==> (#[trigger] w[k]).len() >= 1 && (merit_keep(w[k]) ==> w[k].len()
                    >= 8),
        decreases n - i,
    {
        let row = &input[i];
        proof {
            assert(w[i as int] == input@[i as int].deep_view());
        }
        if row.len() < 1 {
            proof {
                assert(!merit_shape_ok(w));
            }
            return Err(TranscodeError::MissingMandatoryBlock(FieldId::MeritsFlaws));
        }
        let cell = &row[0];
        proof {
            assert(w[i as int][0] == input@[i as int]@[0]@);
        }
        let flagged = cell.as_str().unicode_len() >= 1 && cell.as_str().get_char(0) == 'N';
        let kept = !is_sentinel(cell.as_str()) && !flagged;
        if kept && row.len() < 8 {
            proof {
                assert(!merit_shape_ok(w));
            }
            return Err(TranscodeError::MissingMandatoryBlock(FieldId::MeritsFlaws));
        }
        i += 1;
    }
    assert(merit_shape_ok(w));
    let mut out: Vec<Merit> = Vec::new();
    let mut i: usize = 0;
    proof {
        assert(w.take(0) =~= Seq::<Seq<Seq<char>>>::empty());
    }
    while i < n
        invariant
            i <= n,
            merits_match(out@, w.take(i as int)),
        decreases n - i,
    {
        let row = &input[i];
        proof {
            assert(w[i as int] == input@[i as int].deep_view());
            assert(w[i as int][0] == input@[i as int]@[0]@);
            assert(w.take(i as int + 1).drop_last() =~= w.take(i as int));
            assert(w.take(i as int + 1).last() == w[i as int]);
        }
        let ghost pre_kept = spec_merit_rows(w.take(i as int));
        let cell = &row[0];
        let flagged = cell.as_str().unicode_len() >= 1 && cell.as_str().get_char(0) == 'N';
        if !is_sentinel(cell.as_str()) && !flagged {
            proof {
                assert(w[i as int][7] == input@[i as int]@[7]@);
            }
            let (nm, ty) = parse_prefixed_cell(cell.as_str(), 'V');
            let ghost po = out@;
            out.push(
                Merit { name: nm, value: parse_i8_or_default(row[7].as_str()), merit_type: ty },
            );
            proof {
                assert(spec_merit_rows(w.take(i as int + 1)) == pre_kept.push(w[i as int]));
                assert(merit_of_row(out@[po.len() as int], w[i as int]));
            }
        } else {
            proof {
                assert(spec_merit_rows(w.take(i as int + 1)) == pre_kept);
            }
        }
        i += 1;
    }
    proof {
        assert(w.take(n as int) =~= w);
    }
    Ok(out)
}

/// Reads the flaws of the combined merit/flaw block: the rows whose cell
/// starts with the flaw marker.
#[verifier::loop_isolation(false)]
pub fn extract_flaws(input: &Vec<Vec<String>>, n: usize) -> (r: Result<Vec<Flaw>, TranscodeError>)
    ensures
        ({
            let w = rows_dv(*input).take(n as int);
            match r {
                Ok(fs) => input@.len() >= n && flaw_shape_ok(w) && flaws_match(fs@, w),
                Err(e) => e == TranscodeError::MissingMandatoryBlock(FieldId::MeritsFlaws) && (
                input@.len() < n || !flaw_shape_ok(w)),
            }
        }),
{
    if input.len() < n {
        return Err(TranscodeError::MissingMandatoryBlock(FieldId::MeritsFlaws));
    }
    let ghost w = rows_dv(*input).take(n as int);
    let mut i: usize = 0;
    while i < n
        invariant
            i <= n,
            forall|k: int|
                0 <= k < i ==> (#[trigger] w[k]).len() >= 1 && (flaw_keep(w[k]) ==> w[k].len()
                    >= 8),
        decreases n - i,
    {
        let row = &input[i];
        proof {
            assert(w[i as int] == input@[i as int].deep_view());
        }
        if row.len() < 1 {
            proof {
                assert(!flaw_shape_ok(w));
            }
            return Err(TranscodeError::MissingMandatoryBlock(FieldId::MeritsFlaws));
        }
        let cell = &row[0];
        proof {
            assert(w[i as int][0] == input@[i as int]@[0]@);
        }
        let flagged = cell.as_str().unicode_len() >= 1 && cell.as_str().get_char(0) == 'N';
        let kept = !is_sentinel(cell.as_str()) && flagged;
        if kept && row.len() < 8 {
            proof {
                assert(!flaw_shape_ok(w));
            }
            return Err(TranscodeError::MissingMandatoryBlock(FieldId::MeritsFlaws));
        }
        i += 1;
    }
    assert(flaw_shape_ok(w));
    let mut out: Vec<Flaw> = Vec::new();
    let mut i: usize = 0;
    proof {
        assert(w.take(0) =~= Seq::<Seq<Seq<char>>>::empty());
    }
    while i < n
        invariant
            i <= n,
            flaws_match(out@, w.take(i as int)),
        decreases n - i,
    {
        let row = &input[i];
        proof {
            assert(w[i as int] == input@[i as int].deep_view());
            assert(w[i as int][0] == input@[i as int]@[0]@);
            assert(w.take(i as int + 1).drop_last() =~= w.take(i as int));
            assert(w.take(i as int + 1).last() == w[i as int]);
        }
        let ghost pre_kept = spec_flaw_rows(w.take(i as int));
        let cell = &row[0];
        let flagged = cell.as_str().unicode_len() >= 1 && cell.as_str().get_char(0) == 'N';
        if !is_sentinel(cell.as_str()) && flagged {
            proof {
                assert(w[i as int][7] == input@[i as int]@[7]@);
            }
            let (nm, ty) = parse_prefixed_cell(cell.as_str(), 'N');
            let ghost po = out@;
            out.push(Flaw { name: nm, value: parse_i8_or_default(row[7].as_str()), flaw_type: ty });
            proof {
                assert(spec_flaw_rows(w.take(i as int + 1)) == pre_kept.push(w[i as int]));
                assert(flaw_of_row(out@[po.len() as int], w[i as int]));
            }
        } else {
            proof {
                assert(spec_flaw_rows(w.take(i as int + 1)) == pre_kept);
            }
        }
        i += 1;
    }
    proof {
        assert(w.take(n as int) =~= w);
    }
    Ok(out)
}

/// Cell `j` of a row as text, with a default where the row is too short.
fn cell_text_or(row: &Vec<String>, j: usize, d: &str) -> (r: String)
    ensures
        r@ == cell_or(row.deep_view(), j as int, d@),
{
    if j < row.len() {
        let c = row[j].clone();
        proof {
            assert(row.deep_view()[j as int] == row@[j as int]@);
        }
        c
    } else {
        d.to_owned()
    }
}

/// A background row is kept when its name column is not blank.
pub open spec fn bg_keep(row: Seq<Seq<char>>) -> bool {
    trim_spec(row[0]) != Seq::<char>::empty()
}

pub open spec fn bg_shape_ok(w: Seq<Seq<Seq<char>>>) -> bool {
    forall|k: int|
        0 <= k < w.len() ==> (#[trigger] w[k]).len() >= 1 && (bg_keep(w[k]) ==> w[k].len() >= 8)
}

pub open spec fn spec_bg_rows(w: Seq<Seq<Seq<char>>>) -> Seq<Seq<Seq<char>>>
    decreases w.len(),
{
    if w.len() == 0 {
        Seq::empty()
    } else {
        let pre = spec_bg_rows(w.drop_last());
        if bg_keep(w.last()) {
            pre.push(w.last())
        } else {
            pre
        }
    }
}

/// A decoded background: name from column 0, value from column 7, optional
/// description from column 9.
pub open spec fn bg_of_row(b: Background, row: Seq<Seq<char>>) -> bool {
    b.name@ == row[0] && b.value == parse_u8_or_zero(row[7]) && b.description@ == cell_or(
        row,
        9,
        Seq::<char>::empty(),
    )
}

pub open spec fn bgs_match(bs: Seq<Background>, w: Seq<Seq<Seq<char>>>) -> bool {
    let kept = spec_bg_rows(w);
    bs.len() == kept.len() && (forall|i: int| 0 <= i < kept.len() ==> bg_of_row(bs[i], kept[i]))
}

/// Reads the list of backgrounds from a packed block.
#[verifier::loop_isolation(false)]
pub fn get_backgrounds(blocks: &Vec<CellBlock>, name: FieldId, cfg: &ConfigClient) -> (r: Result<
    Vec<Background>,
    TranscodeError,
>)
    ensures
        ({
            let sw = spec_window(blocks@, cfg.settings.sheet_field@, name);
            match r {
                Ok(bs) => sw matches Ok(w) && bg_shape_ok(w) && bgs_match(bs@, w),
                Err(e) => (sw matches Err(se) && se == e) || (sw matches Ok(w) && !bg_shape_ok(w)
                    && e == TranscodeError::MissingMandatoryBlock(name)),
            }
        }),
{
    let (rows, n) = match get_window(blocks, name, cfg) {
        Ok(p) => p,
        Err(e) => {
            return Err(e);
        },
    };
    let ghost w = rows_dv(*rows).take(n as int);
    let mut i: usize = 0;
    while i < n
        invariant
            i <= n,
            forall|k: int|
                0 <= k < i ==> (#[trigger] w[k]).len() >= 1 && (bg_keep(w[k]) ==> w[k].len() >= 8),
        decreases n - i,
    {
        let row = &rows[i];
        proof {
            assert(w[i as int] == rows@[i as int].deep_view());
        }
        if row.len() < 1 {
            proof {
                assert(!bg_shape_ok(w));
            }
            return Err(TranscodeError::MissingMandatoryBlock(name));
        }
        proof {
            assert(w[i as int][0] == rows@[i as int]@[0]@);
        }
        let t = trim_str(row[0].as_str());
        let kept = t.as_str().unicode_len() > 0;
        proof {
            if kept {
                assert(bg_keep(w[i as int]));
            } else {
                assert(trim_spec(w[i as int][0]) =~= Seq::<char>::empty());
            }
        }
        if kept && row.len() < 8 {
            proof {
                assert(!bg_shape_ok(w));
            }
            return Err(TranscodeError::MissingMandatoryBlock(name));
        }
        i += 1;
    }
    assert(bg_shape_ok(w));
    let mut out: Vec<Background> = Vec::new();
    let mut i: usize = 0;
    proof {
        assert(w.take(0) =~= Seq::<Seq<Seq<char>>>::empty());
    }
    while i < n
        invariant
            i <= n,
            bgs_match(out@, w.take(i as int)),
        decreases n - i,
    {
        let row = &rows[i];
        proof {
            assert(w[i as int] == rows@[i as int].deep_view());
            assert(w[i as int][0] == rows@[i as int]@[0]@);
            assert(w.take(i as int + 1).drop_last() =~= w.take(i as int));
            assert(w.take(i as int + 1).last() == w[i as int]);
        }
        let ghost pre_kept = spec_bg_rows(w.take(i as int));
        let t = trim_str(row[0].as_str());
        let kept = t.as_str().unicode_len() > 0;
        proof {
            if !kept {
                assert(trim_spec(w[i as int][0]) =~= Seq::<char>::empty());
            }
        }
        if kept {
            proof {
                assert(w[i as int][7] == rows@[i as int]@[7]@);
            }
            let ghost po = out@;
            out.push(
                Background {
                    name: row[0].clone(),
                    value: parse_u8_or_default(row[7].as_str()),
                    description: cell_text_or(row, 9, ""),
                },
            );
            proof {
                reveal_strlit("");
                assert(""@ =~= Seq::<char>::empty());
                assert(spec_bg_rows(w.take(i as int + 1)) == pre_kept.push(w[i as int]));
                assert(bg_of_row(out@[po.len() as int], w[i as int]));
            }
        } else {
            proof {
                assert(spec_bg_rows(w.take(i as int + 1)) == pre_kept);
            }
        }
        i += 1;
    }
    proof {
        assert(w.take(n as int) =~= w);
    }
    Ok(out)
}

/// The mark that counts one lost box of a health track window.
pub open spec fn xmark_seq() -> Seq<char> {
    seq!['x']
}

/// Boxes lost: the length of the leading run of `"x"` cells among the first
/// `i` slots of the loss window.
pub open spec fn lost_upto(row: Seq<Seq<char>>, i: int) -> int
    decreases i,
{
    if i <= 0 {
        0
    } else if lost_upto(row, i - 1) == i - 1 && trim_spec(row[i - 1]) == xmark_seq() {
        i
    } else {
        lost_upto(row, i - 1)
    }
}

proof fn lemma_lost_stable(row: Seq<Seq<char>>, j: int, k: int)
    requires
        0 <= j <= k,
        lost_upto(row, j) < j,
    ensures
        lost_upto(row, k) == lost_upto(row, j),
    decreases k - j,
{
    if k > j {
        lemma_lost_stable(row, j, k - 1);
    }
}

/// One decoded health track: base value from column 5, bonus-adjusted value
/// from column 7, and the remainder after subtracting the boxes lost in the
/// five-slot loss window, clamped at zero.
pub open spec fn spec_health_track(row: Seq<Seq<char>>) -> HealthTrack {
    let lost = lost_upto(row, 5);
    let boni = parse_u8_or_zero(row[7]);
    HealthTrack {
        base_value: parse_u8_or_zero(row[5]),
        with_boni: boni,
        remaining: if lost > boni {
            0
        } else {
            (boni - lost) as u8
        },
    }
}

pub open spec fn spec_get_health_track(
    blocks: Seq<CellBlock>,
    fields: Seq<FieldConfigEntry>,
    name: FieldId,
) -> Result<HealthTrack, TranscodeError> {
    match spec_block(blocks, fields, name) {
        Err(e) => Err(e),
        Ok(o) => match o {
            None => Err(TranscodeError::MissingMandatoryBlock(name)),
            Some(rows) => if rows.len() >= 1 && rows[0].len() >= 8 {
                Ok(spec_health_track(rows[0]))
            } else {
                Err(TranscodeError::MissingMandatoryBlock(name))
            },
        },
    }
}

/// Reads one health track row.
pub fn get_health_track(blocks: &Vec<CellBlock>, name: FieldId, cfg: &ConfigClient) -> (r: Result<
    HealthTrack,
    TranscodeError,
>)
    ensures
        r == spec_get_health_track(blocks@, cfg.settings.sheet_field@, name),
{
    let rows = match extract_value_from_vec(blocks, name, cfg) {
        Err(e) => {
            return Err(e);
        },
        Ok(None) => {
            return Err(TranscodeError::MissingMandatoryBlock(name));
        },
        Ok(Some(rows)) => rows,
    };
    if rows.len() < 1 {
        return Err(TranscodeError::MissingMandatoryBlock(name));
    }
    let row = &rows[0];
    let ghost rw = rows_dv(*rows)[0];
    proof {
        assert(rw == rows@[0].deep_view());
    }
    if row.len() < 8 {
        return Err(TranscodeError::MissingMandatoryBlock(name));
    }
    let mut lost: u8 = 0;
    let mut i: usize = 0;
    while i < 5
        invariant
            i <= 5,
            lost == i,
            lost_upto(rw, i as int) == i as int,
            rows@.len() >= 1,
            rw == rows@[0].deep_view(),
            row@ == rows@[0]@,
            row@.len() >= 8,
        ensures
            lost <= 5,
            lost_upto(rw, 5) == lost as int,
        decreases 5 - i,
    {
        proof {
            assert(rw[i as int] == rows@[0]@[i as int]@);
        }
        let t = trim_str(row[i].as_str());
        if eq_char(t.as_str(), 'x') {
            lost += 1;
            i += 1;
        } else {
            proof {
                assert(lost_upto(rw, i as int + 1) == i as int);
                lemma_lost_stable(rw, i as int + 1, 5);
            }
            break;
        }
    }
    proof {
        assert(rw[5] == rows@[0]@[5]@);
        assert(rw[7] == rows@[0]@[7]@);
    }
    let base_value = parse_u8_or_default(row[5].as_str());
    let with_boni = parse_u8_or_default(row[7].as_str());
    let remaining: u8 = if lost > with_boni {
        0
    } else {
        with_boni - lost
    };
    Ok(HealthTrack { base_value, with_boni, remaining })
}

/// A sparse defense pool row as a small integer-keyed table: key 0 from
/// column 0, keys 1 to 7 from columns 2 to 8, preserving the layout's index
/// shift over the skipped column 1.
pub open spec fn spec_defense_row(row: Seq<Seq<char>>) -> Map<u8, u8> {
    map![
        0u8 => parse_u8_or_zero(row[0]),
        1u8 => parse_u8_or_zero(row[2]),
        2u8 => parse_u8_or_zero(row[3]),
        3u8 => parse_u8_or_zero(row[4]),
        4u8 => parse_u8_or_zero(row[5]),
        5u8 => parse_u8_or_zero(row[6]),
        6u8 => parse_u8_or_zero(row[7]),
        7u8 => parse_u8_or_zero(row[8]),
    ]
}

pub open spec fn spec_get_defense_pool(
    blocks: Seq<CellBlock>,
    fields: Seq<FieldConfigEntry>,
    name: FieldId,
) -> Result<Map<u8, u8>, TranscodeError> {
    match spec_block(blocks, fields, name) {
        Err(e) => Err(e),
        Ok(o) => match o {
            None => Err(TranscodeError::MissingMandatoryBlock(name)),
            Some(rows) => if rows.len() >= 1 && rows[0].len() >= 9 {
                Ok(spec_defense_row(rows[0]))
            } else {
                Err(TranscodeError::MissingMandatoryBlock(name))
            },
        },
    }
}

/// Reads a social or mental defense pool row.
pub fn get_non_physical_defense_pool(
    blocks: &Vec<CellBlock>,
    name: FieldId,
    cfg: &ConfigClient,
) -> (r: Result<HashMap<u8, u8>, TranscodeError>)
    ensures
        ({
            let sg = spec_get_defense_pool(blocks@, cfg.settings.sheet_field@, name);
            match r {
                Ok(m) => sg matches Ok(sm) && m@ == sm,
                Err(e) => sg matches Err(se) && se == e,
            }
        }),
{
    broadcast use vstd::std_specs::hash::group_hash_axioms;

    let rows = match extract_value_from_vec(blocks, name, cfg) {
        Err(e) => {
            return Err(e);
        },
        Ok(None) => {
            return Err(TranscodeError::MissingMandatoryBlock(name));
        },
        Ok(Some(rows)) => rows,
    };
    if rows.len() < 1 {
        return Err(TranscodeError::MissingMandatoryBlock(name));
    }
    let row = &rows[0];
    let ghost rw = rows_dv(*rows)[0];
    proof {
        assert(rw == rows@[0].deep_view());
    }
    if row.len() < 9 {
        return Err(TranscodeError::MissingMandatoryBlock(name));
    }
    proof {
        assert forall|j: int| 0 <= j < 9 implies rw[j] == rows@[0]@[j]@ by {}
    }
    let mut m: HashMap<u8, u8> = HashMap::new();
    m.insert(0, parse_u8_or_default(row[0].as_str()));
    m.insert(1, parse_u8_or_default(row[2].as_str()));
    m.insert(2, parse_u8_or_default(row[3].as_str()));
    m.insert(3, parse_u8_or_default(row[4].as_str()));
    m.insert(4, parse_u8_or_default(row[5].as_str()));
    m.insert(5, parse_u8_or_default(row[6].as_str()));
    m.insert(6, parse_u8_or_default(row[7].as_str()));
    m.insert(7, parse_u8_or_default(row[8].as_str()));
    proof {
        assert(m@ =~= spec_defense_row(rw));
    }
    Ok(m)
}

/// An offense pool row is kept when both its skill and its attribute name are
/// present and non-sentinel.
pub open spec fn off_keep(row: Seq<Seq<char>>) -> bool {
    row[0] != sentinel_seq() && row[10] != sentinel_seq()
}

/// Every offense row reaches the pool column.
pub open spec fn off_shape_ok(w: Seq<Seq<Seq<char>>>) -> bool {
    forall|k: int| 0 <= k < w.len() ==> (#[trigger] w[k]).len() >= 25
}

pub open spec fn spec_off_rows(w: Seq<Seq<Seq<char>>>) -> Seq<Seq<Seq<char>>>
    decreases w.len(),
{
    if w.len() == 0 {
        Seq::empty()
    } else {
        let pre = spec_off_rows(w.drop_last());
        if off_keep(w.last()) {
            pre.push(w.last())
        } else {
            pre
        }
    }
}

/// A decoded offense pool entry: skill, attribute and wildcard name/value
/// pairs at their fixed columns, the pool at column 24, the description at
/// column 26.
pub open spec fn off_of_row(o: BattleOffenseInformation, row: Seq<Seq<char>>) -> bool {
    o.skill.name@ == row[0] && o.skill.value == parse_u8_or_zero(row[7]) && o.attribute.name@
        == row[10] && o.attribute.value == parse_u8_or_zero(row[14]) && o.wildcard.name@ == row[17]
        && o.wildcard.value == parse_u8_or_zero(row[21]) && o.pool == parse_u8_or_zero(row[24])
        && o.description@ == cell_or(row, 26, Seq::<char>::empty())
}

pub open spec fn offs_match(os: Seq<BattleOffenseInformation>, w: Seq<Seq<Seq<char>>>) -> bool {
    let kept = spec_off_rows(w);
    os.len() == kept.len() && (forall|i: int| 0 <= i < kept.len() ==> off_of_row(os[i], kept[i]))
}

/// Reads the attack pools.
#[verifier::loop_isolation(false)]
pub fn get_attack_pools(blocks: &Vec<CellBlock>, name: FieldId, cfg: &ConfigClient) -> (r: Result<
    Vec<BattleOffenseInformation>,
    TranscodeError,
>)
    ensures
        ({
            let sw = spec_window(blocks@, cfg.settings.sheet_field@, name);
            match r {
                Ok(os) => sw matches Ok(w) && off_shape_ok(w) && offs_match(os@, w),
                Err(e) => (sw matches Err(se) && se == e) || (sw matches Ok(w) && !off_shape_ok(w)
                    && e == TranscodeError::MissingMandatoryBlock(name)),
            }
        }),
{
    let (rows, n) = match get_window(blocks, name, cfg) {
        Ok(p) => p,
        Err(e) => {
            return Err(e);
        },
    };
    let ghost w = rows_dv(*rows).take(n as int);
    let mut i: usize = 0;
    while i < n
        invariant
            i <= n,
            forall|k: int| 0 <= k < i ==> (#[trigger] w[k]).len() >= 25,
        decreases n - i,
    {
        let row = &rows[i];
        proof {
            assert(w[i as int] == rows@[i as int].deep_view());
        }
        if row.len() < 25 {
            proof {
                assert(!off_shape_ok(w));
            }
            return Err(TranscodeError::MissingMandatoryBlock(name));
        }
        i += 1;
    }
    assert(off_shape_ok(w));
    let mut out: Vec<BattleOffenseInformation> = Vec::new();
    let mut i: usize = 0;
    proof {
        assert(w.take(0) =~= Seq::<Seq<Seq<char>>>::empty());
    }
    while i < n
        invariant
            i <= n,
            offs_match(out@, w.take(i as int)),
        decreases n - i,
    {
        let row = &rows[i];
        proof {
            assert(w[i as int] == rows@[i as int].deep_view());
            assert forall|j: int| 0 <= j < 25 implies w[i as int][j] == rows@[i as int]@[j]@ by {}
            assert(w.take(i as int + 1).drop_last() =~= w.take(i as int));
            assert(w.take(i as int + 1).last() == w[i as int]);
        }
        let ghost pre_kept = spec_off_rows(w.take(i as int));
        if !is_sentinel(row[0].as_str()) && !is_sentinel(row[10].as_str()) {
            let ghost po = out@;
            out.push(
                BattleOffenseInformation {
                    skill: NameValue {
                        name: row[0].clone(),
                        value: parse_u8_or_default(row[7].as_str()),
                    },
                    attribute: NameValue {
                        name: row[10].clone(),
                        value: parse_u8_or_default(row[14].as_str()),
                    },
                    wildcard: NameValue {
                        name: row[17].clone(),
                        value: parse_u8_or_default(row[21].as_str()),
                    },
                    pool: parse_u8_or_default(row[24].as_str()),
                    description: cell_text_or(row, 26, ""),
                },
            );
            proof {
                reveal_strlit("");
                assert(""@ =~= Seq::<char>::empty());
                assert(spec_off_rows(w.take(i as int + 1)) == pre_kept.push(w[i as int]));
                assert(off_of_row(out@[po.len() as int], w[i as int]));
            }
        } else {
            proof {
                assert(spec_off_rows(w.take(i as int + 1)) == pre_kept);
            }
        }
        i += 1;
    }
    proof {
        assert(w.take(n as int) =~= w);
    }
    Ok(out)
}

/// A word character of the ritual grammar: ASCII letter, digit or
/// underscore, or any character beyond ASCII (an approximation of the
/// Unicode word class that is exact on letters).
pub open spec fn is_word_char(c: char) -> bool {
    let u = c as u32;
    (0x41 <= u && u <= 0x5A) || (0x61 <= u && u <= 0x7A) || (0x30 <= u && u <= 0x39) || u == 0x5F
        || u > 0x7F
}

/// The ritual type a leading letter stands for; anything unrecognized is
/// `"Unbekannt"`.
pub open spec fn ritual_type_name(c: char) -> Seq<char> {
    if c == 'A' {
        "Abyssal"@
    } else if c == 'N' {
        "Necromancy"@
    } else if c == 'T' {
        "Thaumaturgy"@
    } else {
        "Unbekannt"@
    }
}

/// The ritual cell grammar `"<TypeLetter><LevelDigit><Name>"`: a word
/// character, an ASCII digit, then a non-empty name, which is trimmed. A cell
/// that does not match is taken whole as the name, with type `"Unbekannt"`.
/// The result is `(name, type)`.
pub open spec fn ritual_parts(c: Seq<char>) -> (Seq<char>, Seq<char>) {
    if c.len() >= 3 && is_word_char(c[0]) && is_digit_char(c[1]) {
        (trim_spec(c.subrange(2, c.len() as int)), ritual_type_name(c[0]))
    } else {
        (c, "Unbekannt"@)
    }
}

fn ritual_type_str(c: char) -> (r: &'static str)
    ensures
        r@ == ritual_type_name(c),
{
    if c == 'A' {
        "Abyssal"
    } else if c == 'N' {
        "Necromancy"
    } else if c == 'T' {
        "Thaumaturgy"
    } else {
        "Unbekannt"
    }
}

/// Splits one ritual cell into `(name, type)`, proved against `ritual_parts`.
pub fn parse_ritual_cell(cell: &str) -> (r: (String, String))
    ensures
        r.0@ == ritual_parts(cell@).0,
        r.1@ == ritual_parts(cell@).1,
{
    let n = cell.unicode_len();
    if n >= 3 {
        let c0 = cell.get_char(0);
        let c1 = cell.get_char(1);
        let u0 = c0 as u32;
        let u1 = c1 as u32;
        let word = (0x41 <= u0 && u0 <= 0x5A) || (0x61 <= u0 && u0 <= 0x7A) || (0x30 <= u0 && u0
            <= 0x39) || u0 == 0x5F || u0 > 0x7F;
        let digit = 0x30 <= u1 && u1 <= 0x39;
        if word && digit {
            let name = trim_str(cell.substring_char(2, n));
            return (name, ritual_type_str(c0).to_owned());
        }
    }
    (cell.to_owned(), "Unbekannt".to_owned())
}

/// A ritual row is kept when its name cell is non-sentinel and its level is
/// non-zero.
pub open spec fn rit_keep(row: Seq<Seq<char>>) -> bool {
    row[0] != sentinel_seq() && parse_u8_or_zero(row[7]) != 0
}

/// Every ritual row reaches the level column.
pub open spec fn rit_shape_ok(w: Seq<Seq<Seq<char>>>) -> bool {
    forall|k: int| 0 <= k < w.len() ==> (#[trigger] w[k]).len() >= 8
}

pub open spec fn spec_rit_rows(w: Seq<Seq<Seq<char>>>) -> Seq<Seq<Seq<char>>>
    decreases w.len(),
{
    if w.len() == 0 {
        Seq::empty()
    } else {
        let pre = spec_rit_rows(w.drop_last());
        if rit_keep(w.last()) {
            pre.push(w.last())
        } else {
            pre
        }
    }
}

/// A decoded ritual: name and type from the cell grammar, level from column
/// 7, description from column 9 with the sentinel default.
pub open spec fn rit_of_row(rt: Ritual, row: Seq<Seq<char>>) -> bool {
    rt.name@ == ritual_parts(row[0]).0 && rt.ritual_type@ == ritual_parts(row[0]).1 && rt.level
        == parse_u8_or_zero(row[7]) && rt.description@ == cell_or(row, 9, sentinel_seq())
}

pub open spec fn rits_match(rs: Seq<Ritual>, w: Seq<Seq<Seq<char>>>) -> bool {
    let kept = spec_rit_rows(w);
    rs.len() == kept.len() && (forall|i: int| 0 <= i < kept.len() ==> rit_of_row(rs[i], kept[i]))
}

/// Reads the rituals section.
#[verifier::loop_isolation(false)]
pub fn get_rituals(blocks: &Vec<CellBlock>, name: FieldId, cfg: &ConfigClient) -> (r: Result<
    Vec<Ritual>,
    TranscodeError,
>)
    ensures
        ({
            let sw = spec_window(blocks@, cfg.settings.sheet_field@, name);
            match r {
                Ok(rs) => sw matches Ok(w) && rit_shape_ok(w) && rits_match(rs@, w),
                Err(e) => (sw matches Err(se) && se == e) || (sw matches Ok(w) && !rit_shape_ok(w)
                    && e == TranscodeError::MissingMandatoryBlock(name)),
            }
        }),
{
    let (rows, n) = match get_window(blocks, name, cfg) {
        Ok(p) => p,
        Err(e) => {
            return Err(e);
        },
    };
    let ghost w = rows_dv(*rows).take(n as int);
    let mut i: usize = 0;
    while i < n
        invariant
            i <= n,
            forall|k: int| 0 <= k < i ==> (#[trigger] w[k]).len() >= 8,
        decreases n - i,
    {
        let row = &rows[i];
        proof {
            assert(w[i as int] == rows@[i as int].deep_view());
        }
        if row.len() < 8 {
            proof {
                assert(!rit_shape_ok(w));
            }
            return Err(TranscodeError::MissingMandatoryBlock(name));
        }
        i += 1;
    }
    assert(rit_shape_ok(w));
    let mut out: Vec<Ritual> = Vec::new();
    let mut i: usize = 0;
    proof {
        assert(w.take(0) =~= Seq::<Seq<Seq<char>>>::empty());
    }
    while i < n
        invariant
            i <= n,
            rits_match(out@, w.take(i as int)),
        decreases n - i,
    {
        let row = &rows[i];
        proof {
            assert(w[i as int] == rows@[i as int].deep_view());
            assert(w[i as int][0] == rows@[i as int]@[0]@);
            assert(w[i as int][7] == rows@[i as int]@[7]@);
            assert(w.take(i as int + 1).drop_last() =~= w.take(i as int));
            assert(w.take(i as int + 1).last() == w[i as int]);
        }
        let ghost pre_kept = spec_rit_rows(w.take(i as int));
        let level = parse_u8_or_default(row[7].as_str());
        if !is_sentinel(row[0].as_str()) && level != 0 {
            let (nm, ty) = parse_ritual_cell(row[0].as_str());
            let ghost po = out@;
            out.push(
                Ritual { name: nm, level, description: cell_text_or(row, 9, "-"), ritual_type: ty },
            );
            proof {
                reveal_strlit("-");
                assert("-"@ =~= sentinel_seq());
                assert(spec_rit_rows(w.take(i as int + 1)) == pre_kept.push(w[i as int]));
                assert(rit_of_row(out@[po.len() as int], w[i as int]));
            }
        } else {
            proof {
                assert(spec_rit_rows(w.take(i as int + 1)) == pre_kept);
            }
        }
        i += 1;
    }
    proof {
        assert(w.take(n as int) =~= w);
    }
    Ok(out)
}

/// An item row is kept when its name cell is present and non-empty.
pub open spec fn item_keep(row: Seq<Seq<char>>) -> bool {
    cell_or(row, 0, Seq::<char>::empty()) != Seq::<char>::empty()
}

pub open spec fn spec_item_rows(rows: Seq<Seq<Seq<char>>>) -> Seq<Seq<Seq<char>>>
    decreases rows.len(),
{
    if rows.len() == 0 {
        Seq::empty()
    } else {
        let pre = spec_item_rows(rows.drop_last());
        if item_keep(rows.last()) {
            pre.push(rows.last())
        } else {
            pre
        }
    }
}

/// A decoded item: every column is optional, defaulting to the empty string.
pub open spec fn item_of_row(it: Item, row: Seq<Seq<char>>) -> bool {
    let e = Seq::<char>::empty();
    it.name@ == cell_or(row, 0, e) && it.trait_1@ == cell_or(row, 5, e) && it.trait_1_description@
        == cell_or(row, 9, e) && it.trait_2@ == cell_or(row, 13, e) && it.trait_2_description@
        == cell_or(row, 17, e) && it.additional_trait@ == cell_or(row, 21, e)
        && it.additional_trait_description@ == cell_or(row, 25, e)
}

pub open spec fn items_match(its: Seq<Item>, rows: Seq<Seq<Seq<char>>>) -> bool {
    let kept = spec_item_rows(rows);
    its.len() == kept.len() && (forall|i: int| 0 <= i < kept.len() ==> item_of_row(its[i], kept[i]))
}

/// The item rows of the batch: all rows of the block, an absent block
/// degrading to none.
pub open spec fn spec_item_src(
    blocks: Seq<CellBlock>,
    fields: Seq<FieldConfigEntry>,
    name: FieldId,
) -> Result<Seq<Seq<Seq<char>>>, TranscodeError> {
    match spec_block(blocks, fields, name) {
        Err(e) => Err(e),
        Ok(o) => match o {
            None => Ok(Seq::empty()),
            Some(rows) => Ok(rows),
        },
    }
}

/// Reads the items section: all rows present, filtered by non-empty name.
#[verifier::loop_isolation(false)]
pub fn get_items(blocks: &Vec<CellBlock>, name: FieldId, cfg: &ConfigClient) -> (r: Result<
    Vec<Item>,
    TranscodeError,
>)
    ensures
        ({
            let ss = spec_item_src(blocks@, cfg.settings.sheet_field@, name);
            match r {
                Ok(its) => ss matches Ok(rows) && items_match(its@, rows),
                Err(e) => ss matches Err(se) && se == e,
            }
        }),
{
    let rows = match extract_value_from_vec(blocks, name, cfg) {
        Err(e) => {
            return Err(e);
        },
        Ok(None) => {
            let out: Vec<Item> = Vec::new();
            proof {
                assert(spec_item_rows(Seq::empty()) =~= Seq::<Seq<Seq<char>>>::empty());
            }
            return Ok(out);
        },
        Ok(Some(rows)) => rows,
    };
    let ghost w = rows_dv(*rows);
    let mut out: Vec<Item> = Vec::new();
    let mut i: usize = 0;
    proof {
        assert(w.take(0) =~= Seq::<Seq<Seq<char>>>::empty());
    }
    while i < rows.len()
        invariant
            i <= rows@.len(),
            items_match(out@, w.take(i as int)),
        decreases rows@.len() - i,
    {
        let row = &rows[i];
        proof {
            assert(w[i as int] == rows@[i as int].deep_view());
            assert(w.take(i as int + 1).drop_last() =~= w.take(i as int));
            assert(w.take(i as int + 1).last() == w[i as int]);
        }
        let ghost pre_kept = spec_item_rows(w.take(i as int));
        let kept = row.len() > 0 && row[0].as_str().unicode_len() > 0;
        proof {
            if row@.len() > 0 {
                assert(w[i as int][0] == rows@[i as int]@[0]@);
            }
            if kept {
                assert(item_keep(w[i as int]));
            } else {
                if w[i as int].len() > 0 {
                    assert(w[i as int][0] =~= Seq::<char>::empty());
                }
                assert(!item_keep(w[i as int]));
            }
        }
        if kept {
            let ghost po = out@;
            out.push(
                Item {
                    name: cell_text_or(row, 0, ""),
                    trait_1: cell_text_or(row, 5, ""),
                    trait_1_description: cell_text_or(row, 9, ""),
                    trait_2: cell_text_or(row, 13, ""),
                    trait_2_description: cell_text_or(row, 17, ""),
                    additional_trait: cell_text_or(row, 21, ""),
                    additional_trait_description: cell_text_or(row, 25, ""),
                },
            );
            proof {
                reveal_strlit("");
                assert(""@ =~= Seq::<char>::empty());
                assert(spec_item_rows(w.take(i as int + 1)) == pre_kept.push(w[i as int]));
                assert(item_of_row(out@[po.len() as int], w[i as int]));
            }
        } else {
            proof {
                assert(spec_item_rows(w.take(i as int + 1)) == pre_kept);
            }
        }
        i += 1;
    }
    proof {
        assert(w.take(rows@.len() as int) =~= w);
    }
    Ok(out)
}

/// The loss count of a window prefix is between zero and the prefix length.
pub proof fn lemma_lost_upto_bounds(row: Seq<Seq<char>>, i: int)
    requires
        i >= 0,
    ensures
        0 <= lost_upto(row, i) <= i,
    decreases i,
{
    if i > 0 {
        lemma_lost_upto_bounds(row, i - 1);
    }
}

} // verus!
