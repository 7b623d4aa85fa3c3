//! Read N5 hierarchies through a Zarr v3 storage interface.
//!
//! N5 and Zarr v3 disagree on the order of dimensions, on the layout of a
//! stored chunk and on the name and shape of the metadata documents. This
//! crate translates between the two without touching the data:
//!
//! - [`chunk`]: the binary header that prefixes every N5 block,
//! - [`codec`]: the array-to-bytes codec that strips the header, undoes the
//!   compression and normalises the big-endian payload,
//! - [`metadata`]: N5 attribute documents and their translation to Zarr v3
//!   metadata,
//! - [`chunk_key_encoding`]: the N5 block layout,
//! - [`storage`]: the store wrapper that answers requests for `zarr.json`
//!   from the neighbouring `attributes.json`.
//!
//! They rest on [`data_type`], [`shape`], [`text`] and [`error`]. The calls
//! into `zarrs` and `serde_json` are gathered in [`trusted`]; what is said
//! of them there is believed, everything else is proved.
use vstd::prelude::*;

pub mod chunk;
pub mod chunk_key_encoding;
pub mod codec;
pub mod data_type;
pub mod error;
pub mod metadata;
pub mod shape;
pub mod storage;
pub mod text;
pub mod trusted;

verus! {

pub use crate::error::Error;

} // verus!
