//! A verified transcoder between a fixed-layout spreadsheet of string cells
//! and a typed tabletop-RPG character record.
//!
//! The library decodes a batch of positional cell blocks into a
//! `PlayerCharacter` and encodes a partial `PlayerCharacterUpdateInput` back
//! into a list of cell blocks, honouring the store's sentinel-filled,
//! fixed-size layout. All cell-level grammars (decimal scalars, comma-joined
//! tag lists, the merit/flaw prefix grammar, the ritual prefix grammar, the
//! health-track loss window) are specified and proved here.

pub mod cells;
pub mod character;
pub mod decode;
pub mod encode;
pub mod config;
pub mod fields;
pub mod laws;
pub mod model;
pub mod text;
