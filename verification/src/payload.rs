//! Free-form message payloads: a map from keys to JSON values.
//!
//! The library reads a payload only by key (for example `reply_to`), so each
//! value is held by its kind: strings, integers, booleans and null as plain
//! values, anything else (arrays, objects, fractional numbers) as its JSON text.

use vstd::prelude::*;

use crate::text_map::TextMap;

verus! {

/// One JSON value of a payload.
#[derive(Debug, PartialEq, Eq)]
pub enum PayloadValue {
    /// JSON `null`.
    Null,
    /// JSON `true` or `false`.
    Bool(bool),
    /// A JSON integer that fits in `i64` but not in `u64`.
    Int(i64),
    /// A JSON integer that fits in `u64`.
    UInt(u64),
    /// A JSON string.
    Text(String),
    /// Any other JSON value, held as its JSON text.
    Json(String),
}

/// The mathematical value of a [`PayloadValue`].
pub enum PayloadValueView {
    Null,
    Bool(bool),
    Int(i64),
    UInt(u64),
    Text(Seq<char>),
    Json(Seq<char>),
}

impl View for PayloadValue {
    type V = PayloadValueView;

    open spec fn view(&self) -> PayloadValueView {
        match self {
            PayloadValue::Null => PayloadValueView::Null,
            PayloadValue::Bool(b) => PayloadValueView::Bool(*b),
            PayloadValue::Int(i) => PayloadValueView::Int(*i),
            PayloadValue::UInt(u) => PayloadValueView::UInt(*u),
            PayloadValue::Text(s) => PayloadValueView::Text(s@),
            PayloadValue::Json(s) => PayloadValueView::Json(s@),
        }
    }
}

/// A JSON object: keys mapped to values, each key at most once.
pub type Payload = TextMap<PayloadValue>;

} // verus!
