//! The cell-block encoder: the inverse of the decoder. An absent update
//! fragment emits no block; a present list fragment emits a complete block,
//! padded with sentinel rows to the field's fixed row count so removed
//! trailing entries are cleared in the store. A list longer than its capacity
//! is reported as `OverCapacity` rather than silently truncated.

use crate::cells::{padded, rows_dv, CellBlock};
use crate::config::{lookup_spec, ConfigClient, FieldConfigEntry};
use crate::fields::{FieldId, TranscodeError};
use crate::model::{
    BackgroundUpdateInput, DisciplineUpdateInput, FlawUpdateInput, MeritUpdateInput,
    RitualUpdateInput,
};
use crate::text::{
    eq_char, join_comma_space, join_comma_space_spec, sentinel_seq, starts_with_spec,
    starts_with_str, str_eq, trim_spec, trim_str, u8_dec_spec, u8_to_string,
};
use vstd::prelude::*;

verus! {

/// An encoded block against its mathematical content: the configured range
/// string and the exact rows to write.
pub open spec fn block_matches(b: CellBlock, range: Seq<char>, rows: Seq<Seq<Seq<char>>>) -> bool {
    &&& b.range@ == range
    &&& b.values matches Some(v) && rows_dv(v) == rows
}

/// A scalar cell as written back: text equal to `"0"` becomes the sentinel,
/// since zero is indistinguishable from "unset" in the store.
pub open spec fn enc_scalar_text(t: Seq<char>) -> Seq<char> {
    if t == seq!['0'] {
        sentinel_seq()
    } else {
        t
    }
}

/// A `u8` as its scalar cell: zero is the sentinel, anything else decimal.
pub open spec fn enc_u8_text(v: u8) -> Seq<char> {
    enc_scalar_text(u8_dec_spec(v))
}

fn scalar_block(text: String, entry: FieldConfigEntry) -> (b: CellBlock)
    ensures
        block_matches(b, entry.range@, seq![seq![text@]]),
{
    let b = CellBlock { range: entry.range, values: Some(vec![vec![text]]) };
    proof {
        assert(b.values matches Some(v) && rows_dv(v) =~~= seq![seq![text@]]);
    }
    b
}

/// Sets a string value in a single cell.
pub fn set_value_string(value: Option<&String>, name: FieldId, cfg: &ConfigClient) -> (r: Result<
    Option<CellBlock>,
    TranscodeError,
>)
    ensures
        ({
            let fields = cfg.settings.sheet_field@;
            match value {
                None => r matches Ok(o) && o is None,
                Some(s) => match lookup_spec(fields, name) {
                    Option::None => r == Err::<Option<CellBlock>, TranscodeError>(
                        TranscodeError::UnknownField(name),
                    ),
                    Option::Some(e) => r matches Ok(o) && o matches Some(b) && block_matches(
                        b,
                        e.range@,
                        seq![seq![enc_scalar_text(s@)]],
                    ),
                },
            }
        }),
{
    let s = match value {
        None => {
            return Ok(None);
        },
        Some(s) => s,
    };
    let entry = match cfg.get_field_config(name) {
        Ok(e) => e,
        Err(e) => {
            return Err(e);
        },
    };
    let text = if eq_char(s.as_str(), '0') {
        proof {
            reveal_strlit("-");
            assert("-"@ =~= sentinel_seq());
        }
        "-".to_owned()
    } else {
        s.clone()
    };
    Ok(Some(scalar_block(text, entry)))
}

/// Sets a `u8` value in a single cell; zero writes the sentinel.
pub fn set_value_u8(value: Option<u8>, name: FieldId, cfg: &ConfigClient) -> (r: Result<
    Option<CellBlock>,
    TranscodeError,
>)
    ensures
        ({
            let fields = cfg.settings.sheet_field@;
            match value {
                None => r matches Ok(o) && o is None,
                Some(v) => match lookup_spec(fields, name) {
                    Option::None => r == Err::<Option<CellBlock>, TranscodeError>(
                        TranscodeError::UnknownField(name),
                    ),
                    Option::Some(e) => r matches Ok(o) && o matches Some(b) && block_matches(
                        b,
                        e.range@,
                        seq![seq![enc_u8_text(v)]],
                    ),
                },
            }
        }),
{
    let v = match value {
        None => {
            return Ok(None);
        },
        Some(v) => v,
    };
    let entry = match cfg.get_field_config(name) {
        Ok(e) => e,
        Err(e) => {
            return Err(e);
        },
    };
    let s = u8_to_string(v);
    let text = if eq_char(s.as_str(), '0') {
        proof {
            reveal_strlit("-");
            assert("-"@ =~= sentinel_seq());
        }
        "-".to_owned()
    } else {
        s
    };
    Ok(Some(scalar_block(text, entry)))
}

/// A column list as written back: one single-cell row per entry, padded with
/// the field's empty marker up to `n` rows.
pub open spec fn spec_pad_cells(vals: Seq<Seq<char>>, n: int, pad: Seq<char>) -> Seq<
    Seq<Seq<char>>,
> {
    Seq::new(
        n as nat,
        |k: int|
            seq![
                if k < vals.len() {
                    vals[k]
                } else {
                    pad
                },
            ],
    )
}

/// Sets a column-list field: one row per entry, sentinel-padded (or padded
/// with the supplied empty marker) to the fixed row count.
pub fn set_value_vec(
    value: Option<&Vec<String>>,
    name: FieldId,
    cfg: &ConfigClient,
    empty_value: Option<&str>,
) -> (r: Result<Option<CellBlock>, TranscodeError>)
    ensures
        ({
            let fields = cfg.settings.sheet_field@;
            let pad = match empty_value {
                Some(p) => p@,
                None => sentinel_seq(),
            };
            match lookup_spec(fields, name) {
                Option::None => r == Err::<Option<CellBlock>, TranscodeError>(
                    TranscodeError::UnknownField(name),
                ),
                Option::Some(e) => {
                    let n = match e.range_length {
                        Option::Some(l) => l as int,
                        Option::None => 1,
                    };
                    match value {
                        None => r matches Ok(o) && o is None,
                        Some(vs) => if vs@.len() > n {
                            r == Err::<Option<CellBlock>, TranscodeError>(
                                TranscodeError::OverCapacity(name),
                            )
                        } else {
                            r matches Ok(o) && o matches Some(b) && block_matches(
                                b,
                                e.range@,
                                spec_pad_cells(vs.deep_view(), n, pad),
                            )
                        },
                    }
                },
            }
        }),
{
    let entry = match cfg.get_field_config(name) {
        Ok(e) => e,
        Err(e) => {
            return Err(e);
        },
    };
    let vs = match value {
        None => {
            return Ok(None);
        },
        Some(vs) => vs,
    };
    let n: usize = match entry.range_length {
        Some(l) => l as usize,
        None => 1,
    };
    if vs.len() > n {
        return Err(TranscodeError::OverCapacity(name));
    }
    let pad: String = match empty_value {
        Some(p) => p.to_owned(),
        None => {
            proof {
                reveal_strlit("-");
                assert("-"@ =~= sentinel_seq());
            }
            "-".to_owned()
        },
    };
    let ghost spad = pad@;
    let ghost target = spec_pad_cells(vs.deep_view(), n as int, spad);
    let mut rows: Vec<Vec<String>> = Vec::new();
    let mut k: usize = 0;
    while k < n
        invariant
            k <= n,
            vs@.len() <= n,
            spad == pad@,
            target == spec_pad_cells(vs.deep_view(), n as int, spad),
            rows_dv(rows) =~= target.take(k as int),
        decreases n - k,
    {
        let ghost pre = rows_dv(rows);
        if k < vs.len() {
            rows.push(vec![vs[k].clone()]);
            proof {
                assert(vs.deep_view()[k as int] == vs@[k as int]@);
                assert(rows_dv(rows) =~~= pre.push(seq![vs@[k as int]@]));
                assert(target[k as int] == seq![vs.deep_view()[k as int]]);
            }
        } else {
            rows.push(vec![pad.clone()]);
            proof {
                assert(rows_dv(rows) =~~= pre.push(seq![spad]));
                assert(target[k as int] == seq![spad]);
            }
        }
        proof {
            assert(target.take(k as int + 1) =~= target.take(k as int).push(target[k as int]));
        }
        k += 1;
    }
    proof {
        assert(target.take(n as int) =~= target);
    }
    let b = CellBlock { range: entry.range, values: Some(rows) };
    Ok(Some(b))
}

/// A specialization tag cell as written back: the tags joined with `", "`,
/// an empty result serialized as the sentinel.
pub open spec fn enc_tags_text(parts: Seq<Seq<char>>) -> Seq<char> {
    if join_comma_space_spec(parts) == Seq::<char>::empty() {
        sentinel_seq()
    } else {
        join_comma_space_spec(parts)
    }
}

/// Sets a skill specialization cell.
pub fn set_skill_specialization(
    value: Option<&Vec<String>>,
    name: FieldId,
    cfg: &ConfigClient,
) -> (r: Result<Option<CellBlock>, TranscodeError>)
    ensures
        ({
            let fields = cfg.settings.sheet_field@;
            match value {
                None => r matches Ok(o) && o is None,
                Some(vs) => match lookup_spec(fields, name) {
                    Option::None => r == Err::<Option<CellBlock>, TranscodeError>(
                        TranscodeError::UnknownField(name),
                    ),
                    Option::Some(e) => r matches Ok(o) && o matches Some(b) && block_matches(
                        b,
                        e.range@,
                        seq![seq![enc_tags_text(vs.deep_view())]],
                    ),
                },
            }
        }),
{
    let vs = match value {
        None => {
            return Ok(None);
        },
        Some(vs) => vs,
    };
    let entry = match cfg.get_field_config(name) {
        Ok(e) => e,
        Err(e) => {
            return Err(e);
        },
    };
    let joined = join_comma_space(vs);
    let text = if joined.as_str().unicode_len() == 0 {
        proof {
            reveal_strlit("-");
            assert("-"@ =~= sentinel_seq());
            assert(joined@ =~= Seq::<char>::empty());
        }
        "-".to_owned()
    } else {
        joined
    };
    Ok(Some(scalar_block(text, entry)))
}

/// A discipline row as written back: name at column 0, value at column 7
/// (zero as sentinel), the columns between left blank.
pub open spec fn disc_row_enc(d: DisciplineUpdateInput) -> Seq<Seq<char>> {
    let e = Seq::<char>::empty();
    seq![d.name@, e, e, e, e, e, e, enc_u8_text(d.value)]
}

/// The sentinel row that clears one discipline slot.
pub open spec fn disc_pad_row() -> Seq<Seq<char>> {
    let e = Seq::<char>::empty();
    seq![sentinel_seq(), e, e, e, e, e, e, sentinel_seq()]
}

pub open spec fn enc_disc_rows(vs: Seq<DisciplineUpdateInput>) -> Seq<Seq<Seq<char>>> {
    Seq::new(vs.len(), |i: int| disc_row_enc(vs[i]))
}

fn blank_string() -> (r: String)
    ensures
        r@ == Seq::<char>::empty(),
{
    String::new()
}

fn sentinel_string() -> (r: String)
    ensures
        r@ == sentinel_seq(),
{
    proof {
        reveal_strlit("-");
        assert("-"@ =~= sentinel_seq());
    }
    "-".to_owned()
}

/// Sets the list of disciplines, padded with sentinel rows to capacity.
#[verifier::loop_isolation(false)]
pub fn set_disciplines(
    value: Option<&Vec<DisciplineUpdateInput>>,
    name: FieldId,
    cfg: &ConfigClient,
) -> (r: Result<Option<CellBlock>, TranscodeError>)
    ensures
        ({
            let fields = cfg.settings.sheet_field@;
            match value {
                None => r matches Ok(o) && o is None,
                Some(vs) => match lookup_spec(fields, name) {
                    Option::None => r == Err::<Option<CellBlock>, TranscodeError>(
                        TranscodeError::UnknownField(name),
                    ),
                    Option::Some(e) => {
                        let n = match e.range_length {
                            Option::Some(l) => l as int,
                            Option::None => 1,
                        };
                        if vs@.len() > n {
                            r == Err::<Option<CellBlock>, TranscodeError>(
                                TranscodeError::OverCapacity(name),
                            )
                        } else {
                            r matches Ok(o) && o matches Some(b) && block_matches(
                                b,
                                e.range@,
                                padded(enc_disc_rows(vs@), n, disc_pad_row()),
                            )
                        }
                    },
                },
            }
        }),
{
    let vs = match value {
        None => {
            return Ok(None);
        },
        Some(vs) => vs,
    };
    let entry = match cfg.get_field_config(name) {
        Ok(e) => e,
        Err(e) => {
            return Err(e);
        },
    };
    let n: usize = match entry.range_length {
        Some(l) => l as usize,
        None => 1,
    };
    if vs.len() > n {
        return Err(TranscodeError::OverCapacity(name));
    }
    let ghost target = padded(enc_disc_rows(vs@), n as int, disc_pad_row());
    proof {
        assert(target.len() == n);
    }
    let mut rows: Vec<Vec<String>> = Vec::new();
    let mut k: usize = 0;
    while k < n
        invariant
            k <= n,
            rows_dv(rows) =~= target.take(k as int),
        decreases n - k,
    {
        let ghost pre = rows_dv(rows);
        if k < vs.len() {
            let d = &vs[k];
            let text = u8_to_string(d.value);
            let cell7 = if eq_char(text.as_str(), '0') {
                sentinel_string()
            } else {
                text
            };
            let row = vec![
                d.name.clone(),
                blank_string(),
                blank_string(),
                blank_string(),
                blank_string(),
                blank_string(),
                blank_string(),
                cell7,
            ];
            rows.push(row);
            proof {
                assert(rows_dv(rows) =~~= pre.push(disc_row_enc(vs@[k as int])));
                assert(target[k as int] == disc_row_enc(vs@[k as int]));
            }
        } else {
            let row = vec![
                sentinel_string(),
                blank_string(),
                blank_string(),
                blank_string(),
                blank_string(),
                blank_string(),
                blank_string(),
                sentinel_string(),
            ];
            rows.push(row);
            proof {
                assert(rows_dv(rows) =~~= pre.push(disc_pad_row()));
                assert(target[k as int] == disc_pad_row());
            }
        }
        proof {
            assert(target.take(k as int + 1) =~= target.take(k as int).push(target[k as int]));
        }
        k += 1;
    }
    proof {
        assert(target.take(n as int) =~= target);
    }
    Ok(Some(CellBlock { range: entry.range, values: Some(rows) }))
}

/// The type segment written before a merit or flaw name: empty when the type
/// is the literal `"General"`, otherwise the type followed by a colon and a
/// space.
pub open spec fn merit_type_part(t: Seq<char>) -> Seq<char> {
    if t == "General"@ {
        Seq::empty()
    } else {
        t + ": "@
    }
}

pub open spec fn merit_cell_enc(m: MeritUpdateInput) -> Seq<char> {
    "V "@ + merit_type_part(m.merit_type@) + m.name@
}

pub open spec fn flaw_cell_enc(f: FlawUpdateInput) -> Seq<char> {
    "N "@ + merit_type_part(f.flaw_type@) + f.name@
}

/// Clan-derived merits are exempt from the editable set and never written.
pub open spec fn merit_skip(m: MeritUpdateInput) -> bool {
    starts_with_spec(trim_spec(m.name@), "Clan"@)
}

pub open spec fn enc_merit_rows(ms: Seq<MeritUpdateInput>) -> Seq<Seq<Seq<char>>>
    decreases ms.len(),
{
    if ms.len() == 0 {
        Seq::empty()
    } else {
        let pre = enc_merit_rows(ms.drop_last());
        if merit_skip(ms.last()) {
            pre
        } else {
            pre.push(seq![merit_cell_enc(ms.last())])
        }
    }
}

pub open spec fn enc_flaw_rows(fs: Seq<FlawUpdateInput>) -> Seq<Seq<Seq<char>>> {
    Seq::new(fs.len(), |i: int| seq![flaw_cell_enc(fs[i])])
}

/// Merges merits and flaws back into one ordered block: merits first (minus
/// clan-derived ones), then flaws, padded with sentinel rows to capacity.
#[verifier::loop_isolation(false)]
pub fn combine_merits_and_flaws(
    merits: Option<&Vec<MeritUpdateInput>>,
    flaws: Option<&Vec<FlawUpdateInput>>,
    name: FieldId,
    cfg: &ConfigClient,
) -> (r: Result<Option<CellBlock>, TranscodeError>)
    ensures
        ({
            let fields = cfg.settings.sheet_field@;
            let ms = match merits {
                Some(v) => v@,
                None => Seq::<MeritUpdateInput>::empty(),
            };
            let fs = match flaws {
                Some(v) => v@,
                None => Seq::<FlawUpdateInput>::empty(),
            };
            match lookup_spec(fields, name) {
                Option::None => r == Err::<Option<CellBlock>, TranscodeError>(
                    TranscodeError::UnknownField(name),
                ),
                Option::Some(e) => {
                    let n = match e.range_length {
                        Option::Some(l) => l as int,
                        Option::None => 1,
                    };
                    let data = enc_merit_rows(ms) + enc_flaw_rows(fs);
                    if data.len() > n {
                        r == Err::<Option<CellBlock>, TranscodeError>(
                            TranscodeError::OverCapacity(name),
                        )
                    } else {
                        r matches Ok(o) && o matches Some(b) && block_matches(
                            b,
                            e.range@,
                            padded(data, n, seq![sentinel_seq()]),
                        )
                    }
                },
            }
        }),
{
    let entry = match cfg.get_field_config(name) {
        Ok(e) => e,
        Err(e) => {
            return Err(e);
        },
    };
    let n: usize = match entry.range_length {
        Some(l) => l as usize,
        None => 1,
    };
    let ghost ms = match merits {
        Some(v) => v@,
        None => Seq::<MeritUpdateInput>::empty(),
    };
    let ghost fs = match flaws {
        Some(v) => v@,
        None => Seq::<FlawUpdateInput>::empty(),
    };
    let mut rows: Vec<Vec<String>> = Vec::new();
    proof {
        assert(ms.take(0) =~= Seq::<MeritUpdateInput>::empty());
        assert(rows_dv(rows) =~= enc_merit_rows(ms.take(0)));
    }
    if let Some(mv) = merits {
        let mut i: usize = 0;
        while i < mv.len()
            invariant
                i <= mv@.len(),
                ms == mv@,
                rows_dv(rows) == enc_merit_rows(ms.take(i as int)),
            decreases mv@.len() - i,
        {
            let m = &mv[i];
            proof {
                assert(ms.take(i as int + 1).drop_last() =~= ms.take(i as int));
                assert(ms.take(i as int + 1).last() == ms[i as int]);
            }
            let t = trim_str(m.name.as_str());
            if !starts_with_str(t.as_str(), "Clan") {
                let mut cell = String::new();
                cell.append("V ");
                if !str_eq(m.merit_type.as_str(), "General") {
                    cell.append(m.merit_type.as_str());
                    cell.append(": ");
                }
                cell.append(m.name.as_str());
                proof {
                    assert(cell@ =~= merit_cell_enc(ms[i as int]));
                }
                let ghost pre = rows_dv(rows);
                rows.push(vec![cell]);
                proof {
                    assert(rows_dv(rows) =~~= pre.push(seq![merit_cell_enc(ms[i as int])]));
                }
            }
            i += 1;
        }
        proof {
            assert(ms.take(mv@.len() as int) =~= ms);
        }
    }
    proof {
        assert(rows_dv(rows) == enc_merit_rows(ms));
        assert(fs.take(0) =~= Seq::<FlawUpdateInput>::empty());
        assert(enc_flaw_rows(fs.take(0)) =~= Seq::<Seq<Seq<char>>>::empty());
        assert(rows_dv(rows) =~= enc_merit_rows(ms) + enc_flaw_rows(fs.take(0)));
    }
    if let Some(fv) = flaws {
        let mut i: usize = 0;
        while i < fv.len()
            invariant
                i <= fv@.len(),
                fs == fv@,
                rows_dv(rows) == enc_merit_rows(ms) + enc_flaw_rows(fs.take(i as int)),
            decreases fv@.len() - i,
        {
            let f = &fv[i];
            let mut cell = String::new();
            cell.append("N ");
            if !str_eq(f.flaw_type.as_str(), "General") {
                cell.append(f.flaw_type.as_str());
                cell.append(": ");
            }
            cell.append(f.name.as_str());
            proof {
                assert(cell@ =~= flaw_cell_enc(fs[i as int]));
            }
            let ghost pre = rows_dv(rows);
            rows.push(vec![cell]);
            proof {
                assert(rows_dv(rows) =~~= pre.push(seq![flaw_cell_enc(fs[i as int])]));
                assert(enc_flaw_rows(fs.take(i as int + 1)) =~= enc_flaw_rows(
                    fs.take(i as int),
                ).push(seq![flaw_cell_enc(fs[i as int])]));
                assert(rows_dv(rows) =~= enc_merit_rows(ms) + enc_flaw_rows(fs.take(i as int + 1)));
            }
            i += 1;
        }
        proof {
            assert(fs.take(fv@.len() as int) =~= fs);
        }
    }
    let ghost data = enc_merit_rows(ms) + enc_flaw_rows(fs);
    proof {
        assert(rows_dv(rows) == data);
    }
    if rows.len() > n {
        return Err(TranscodeError::OverCapacity(name));
    }
    let ghost target = padded(data, n as int, seq![sentinel_seq()]);
    proof {
        assert(target.take(rows@.len() as int) =~= rows_dv(rows));
    }
    while rows.len() < n
        invariant
            data.len() <= rows@.len() <= n,
            rows_dv(rows) =~= target.take(rows@.len() as int),
        decreases n - rows@.len(),
    {
        let ghost pre = rows_dv(rows);
        let ghost k = rows@.len() as int;
        rows.push(vec![sentinel_string()]);
        proof {
            assert(rows_dv(rows) =~~= pre.push(seq![sentinel_seq()]));
            assert(target[k] == seq![sentinel_seq()]);
            assert(target.take(k + 1) =~= target.take(k).push(target[k]));
        }
    }
    proof {
        assert(target.take(n as int) =~= target);
    }
    Ok(Some(CellBlock { range: entry.range, values: Some(rows) }))
}

/// A background row as written back: name at column 0, value at column 7
/// (zero as sentinel), description at column 9, the rest blank.
pub open spec fn bg_row_enc(b: BackgroundUpdateInput) -> Seq<Seq<char>> {
    let e = Seq::<char>::empty();
    let desc = match b.description {
        Option::Some(d) => d@,
        Option::None => e,
    };
    seq![b.name@, e, e, e, e, e, e, enc_u8_text(b.value), e, desc]
}

/// The row that clears one background slot: blank except the sentinel in the
/// value column.
pub open spec fn bg_pad_row() -> Seq<Seq<char>> {
    let e = Seq::<char>::empty();
    seq![e, e, e, e, e, e, e, sentinel_seq(), e, e]
}

pub open spec fn enc_bg_rows(vs: Seq<BackgroundUpdateInput>) -> Seq<Seq<Seq<char>>> {
    Seq::new(vs.len(), |i: int| bg_row_enc(vs[i]))
}

/// Converts the list of backgrounds into a padded block.
#[verifier::loop_isolation(false)]
pub fn set_backgrounds(
    value: Option<&Vec<BackgroundUpdateInput>>,
    name: FieldId,
    cfg: &ConfigClient,
) -> (r: Result<Option<CellBlock>, TranscodeError>)
    ensures
        ({
            let fields = cfg.settings.sheet_field@;
            match lookup_spec(fields, name) {
                Option::None => r == Err::<Option<CellBlock>, TranscodeError>(
                    TranscodeError::UnknownField(name),
                ),
                Option::Some(e) => {
                    let n = match e.range_length {
                        Option::Some(l) => l as int,
                        Option::None => 1,
                    };
                    match value {
                        None => r matches Ok(o) && o is None,
                        Some(vs) => if vs@.len() > n {
                            r == Err::<Option<CellBlock>, TranscodeError>(
                                TranscodeError::OverCapacity(name),
                            )
                        } else {
                            r matches Ok(o) && o matches Some(b) && block_matches(
                                b,
                                e.range@,
                                padded(enc_bg_rows(vs@), n, bg_pad_row()),
                            )
                        },
                    }
                },
            }
        }),
{
    let entry = match cfg.get_field_config(name) {
        Ok(e) => e,
        Err(e) => {
            return Err(e);
        },
    };
    let vs = match value {
        None => {
            return Ok(None);
        },
        Some(vs) => vs,
    };
    let n: usize = match entry.range_length {
        Some(l) => l as usize,
        None => 1,
    };
    if vs.len() > n {
        return Err(TranscodeError::OverCapacity(name));
    }
    let ghost target = padded(enc_bg_rows(vs@), n as int, bg_pad_row());
    let mut rows: Vec<Vec<String>> = Vec::new();
    let mut k: usize = 0;
    while k < n
        invariant
            k <= n,
            rows_dv(rows) =~= target.take(k as int),
        decreases n - k,
    {
        let ghost pre = rows_dv(rows);
        if k < vs.len() {
            let b = &vs[k];
            let text = u8_to_string(b.value);
            let cell7 = if eq_char(text.as_str(), '0') {
                sentinel_string()
            } else {
                text
            };
            let cell9 = match b.description.as_ref() {
                Some(d) => d.clone(),
                None => blank_string(),
            };
            let row = vec![
                b.name.clone(),
                blank_string(),
                blank_string(),
                blank_string(),
                blank_string(),
                blank_string(),
                blank_string(),
                cell7,
                blank_string(),
                cell9,
            ];
            rows.push(row);
            proof {
                assert(rows_dv(rows) =~~= pre.push(bg_row_enc(vs@[k as int])));
                assert(target[k as int] == bg_row_enc(vs@[k as int]));
            }
        } else {
            let row = vec![
                blank_string(),
                blank_string(),
                blank_string(),
                blank_string(),
                blank_string(),
                blank_string(),
                blank_string(),
                sentinel_string(),
                blank_string(),
                blank_string(),
            ];
            rows.push(row);
            proof {
                assert(rows_dv(rows) =~~= pre.push(bg_pad_row()));
                assert(target[k as int] == bg_pad_row());
            }
        }
        proof {
            assert(target.take(k as int + 1) =~= target.take(k as int).push(target[k as int]));
        }
        k += 1;
    }
    proof {
        assert(target.take(n as int) =~= target);
    }
    Ok(Some(CellBlock { range: entry.range, values: Some(rows) }))
}

/// The letter a ritual type is re-encoded to; unrecognized types become `U`.
pub open spec fn rit_letter(t: Seq<char>) -> char {
    if t == "Abyssal"@ {
        'A'
    } else if t == "Necromancy"@ {
        'N'
    } else if t == "Thaumaturgy"@ {
        'T'
    } else {
        'U'
    }
}

/// A ritual cell as written back: `<Letter><Level><Name>`, the grammar the
/// decoder reads.
pub open spec fn rit_cell_enc(r: RitualUpdateInput) -> Seq<char> {
    seq![rit_letter(r.ritual_type@)] + u8_dec_spec(r.level) + r.name@
}

pub open spec fn enc_rit_rows(vs: Seq<RitualUpdateInput>) -> Seq<Seq<Seq<char>>> {
    Seq::new(vs.len(), |i: int| seq![rit_cell_enc(vs[i])])
}

fn rit_letter_str(t: &String) -> (r: &'static str)
    ensures
        r@ == seq![rit_letter(t@)],
{
    proof {
        reveal_strlit("A");
        reveal_strlit("N");
        reveal_strlit("T");
        reveal_strlit("U");
    }
    if str_eq(t.as_str(), "Abyssal") {
        "A"
    } else if str_eq(t.as_str(), "Necromancy") {
        "N"
    } else if str_eq(t.as_str(), "Thaumaturgy") {
        "T"
    } else {
        "U"
    }
}

/// Sets the rituals list, padded with sentinel rows to capacity.
#[verifier::loop_isolation(false)]
pub fn set_rituals(
    value: Option<&Vec<RitualUpdateInput>>,
    name: FieldId,
    cfg: &ConfigClient,
) -> (r: Result<Option<CellBlock>, TranscodeError>)
    ensures
        ({
            let fields = cfg.settings.sheet_field@;
            match lookup_spec(fields, name) {
                Option::None => r == Err::<Option<CellBlock>, TranscodeError>(
                    TranscodeError::UnknownField(name),
                ),
                Option::Some(e) => {
                    let n = match e.range_length {
                        Option::Some(l) => l as int,
                        Option::None => 1,
                    };
                    match value {
                        None => r matches Ok(o) && o is None,
                        Some(vs) => if vs@.len() > n {
                            r == Err::<Option<CellBlock>, TranscodeError>(
                                TranscodeError::OverCapacity(name),
                            )
                        } else {
                            r matches Ok(o) && o matches Some(b) && block_matches(
                                b,
                                e.range@,
                                padded(enc_rit_rows(vs@), n, seq![sentinel_seq()]),
                            )
                        },
                    }
                },
            }
        }),
{
    let entry = match cfg.get_field_config(name) {
        Ok(e) => e,
        Err(e) => {
            return Err(e);
        },
    };
    let vs = match value {
        None => {
            return Ok(None);
        },
        Some(vs) => vs,
    };
    let n: usize = match entry.range_length {
        Some(l) => l as usize,
        None => 1,
    };
    if vs.len() > n {
        return Err(TranscodeError::OverCapacity(name));
    }
    let ghost target = padded(enc_rit_rows(vs@), n as int, seq![sentinel_seq()]);
    let mut rows: Vec<Vec<String>> = Vec::new();
    let mut k: usize = 0;
    while k < n
        invariant
            k <= n,
            rows_dv(rows) =~= target.take(k as int),
        decreases n - k,
    {
        let ghost pre = rows_dv(rows);
        if k < vs.len() {
            let rt = &vs[k];
            let mut cell = rit_letter_str(&rt.ritual_type).to_owned();
            let lvl = u8_to_string(rt.level);
            cell.append(lvl.as_str());
            cell.append(rt.name.as_str());
            proof {
                assert(cell@ =~= rit_cell_enc(vs@[k as int]));
            }
            rows.push(vec![cell]);
            proof {
                assert(rows_dv(rows) =~~= pre.push(seq![rit_cell_enc(vs@[k as int])]));
                assert(target[k as int] == seq![rit_cell_enc(vs@[k as int])]);
            }
        } else {
            rows.push(vec![sentinel_string()]);
            proof {
                assert(rows_dv(rows) =~~= pre.push(seq![sentinel_seq()]));
                assert(target[k as int] == seq![sentinel_seq()]);
            }
        }
        proof {
            assert(target.take(k as int + 1) =~= target.take(k as int).push(target[k as int]));
        }
        k += 1;
    }
    proof {
        assert(target.take(n as int) =~= target);
    }
    Ok(Some(CellBlock { range: entry.range, values: Some(rows) }))
}

} // verus!
