//! Record-identifier handling for the persistence layer's record IDs.
//!
//! The store returns IDs like `table:abc`, `table:⟨uuid⟩` or `⟨uuid⟩`; the
//! clean business ID is what remains after the table prefix and the wrapper
//! brackets are stripped.

use vstd::prelude::*;
use vstd::string::*;
use crate::text::{after_first_ch, trim_end_ch, trim_start_ch};

verus! {

/// The clean form of a raw record ID: the part after the first `:` (all of
/// it when there is none), with wrapper brackets stripped from both ends.
pub open spec fn clean_id_seq(raw: Seq<char>) -> Seq<char> {
    let unprefixed = if raw.contains(':') {
        after_first_ch(raw, ':')
    } else {
        raw
    };
    trim_end_ch(trim_start_ch(unprefixed, '⟨'), '⟩')
}

/// Strip the table prefix and the wrapper brackets from a raw record ID.
pub fn db_clean_id(raw_id: &str) -> (r: String)
    ensures
        r@ == clean_id_seq(raw_id@),
{
    let unprefixed = crate::text::after_first_char(raw_id, ':');
    let no_open = crate::text::trim_start_matches_char(unprefixed, '⟨');
    let clean = crate::text::trim_end_matches_char(no_open, '⟩');
    clean.to_owned()
}

/// The record ID for `id` in `table`: `table:id`.
pub open spec fn build_id_seq(table: Seq<char>, id: Seq<char>) -> Seq<char> {
    table + seq![':'] + id
}

/// Build the full record ID `table:id`.
pub fn db_build_id(table: &str, id: &str) -> (r: String)
    ensures
        r@ == build_id_seq(table@, id@),
{
    proof {
        reveal_strlit(":");
    }
    let mut r = String::new();
    r.append(table);
    r.append(":");
    r.append(id);
    proof {
        assert(r@ =~= build_id_seq(table@, id@));
    }
    r
}

/// The `serde_json::Value` type, declared so that record values can pass
/// through signatures; the engine never looks inside one except through
/// the trusted accessor below.
#[verifier::external_type_specification]
#[verifier::external_body]
pub struct ExValue(serde_json::Value);

/// The string held by the field `key` of a JSON object, if there is one.
///
/// Relies on `serde_json::Value::get` and `serde_json::Value::as_str`: the
/// field lookup of a JSON object, and the string a JSON string value holds.
#[verifier::external_body]
fn json_str_field(record: &serde_json::Value, key: &str) -> Option<String> {
    record.get(key).and_then(|v| v.as_str()).map(|s| s.to_string())
}

/// The cleaned `id` field of a record, if the record has a string `id`.
pub fn db_extract_id_opt(record: &serde_json::Value) -> Option<String> {
    match json_str_field(record, "id") {
        Some(s) => Some(db_clean_id(s.as_str())),
        None => None,
    }
}

/// The cleaned `id` field of a record, or the empty string without one.
pub fn db_extract_id(record: &serde_json::Value) -> String {
    match db_extract_id_opt(record) {
        Some(s) => s,
        None => String::new(),
    }
}

} // verus!
