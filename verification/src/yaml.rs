//! The YAML text of a vault, read and written by `serde_yaml`.
use vstd::prelude::*;
use crate::vault::{entries_map, keys_distinct};

verus! {

/// What `serde_yaml::from_slice` makes of `bytes` when asked for a map from
/// strings to strings: the map, or the text of the error it reports.
pub uninterp spec fn yaml_read_string_map(bytes: Seq<u8>) -> Result<
    Map<Seq<char>, Seq<char>>,
    Seq<char>,
>;

/// What `serde_yaml::to_string` makes of a YAML mapping that holds the given
/// `(name, password)` string pairs in this order: the text, or the text of the
/// error it reports.
pub uninterp spec fn yaml_write_string_map(entries: Seq<(Seq<char>, Seq<char>)>) -> Result<
    Seq<char>,
    Seq<char>,
>;

/// Calls `serde_yaml::from_slice::<HashMap<String, String>>` on `bytes`.
/// The contract claims that the outcome is the one `yaml_read_string_map`
/// names, and that the entries handed out carry each name of the map once.
/// The order in which the hash map hands its entries out is left unsaid.
#[verifier::external_body]
pub(crate) fn parse_string_map(bytes: &[u8]) -> (r: Result<Vec<(String, String)>, String>)
    ensures
        match r {
            Ok(v) => yaml_read_string_map(bytes@) == Ok::<
                Map<Seq<char>, Seq<char>>,
                Seq<char>,
            >(entries_map(v.deep_view())) && keys_distinct(v.deep_view()),
            Err(e) => yaml_read_string_map(bytes@) == Err::<Map<Seq<char>, Seq<char>>, Seq<char>>(
                e@,
            ),
        },
{
    match serde_yaml::from_slice::<std::collections::HashMap<String, String>>(bytes) {
        Ok(m) => Ok(m.into_iter().collect()),
        Err(e) => Err(e.to_string()),
    }
}

/// Calls `serde_yaml::to_string` on a `serde_yaml::Mapping` built from the
/// entries, in order, each name and password as a YAML string. The contract
/// claims that the outcome is the one `yaml_write_string_map` names.
#[verifier::external_body]
pub(crate) fn emit_string_map(entries: &Vec<(String, String)>) -> (r: Result<String, String>)
    ensures
        match r {
            Ok(t) => yaml_write_string_map(entries.deep_view()) == Ok::<Seq<char>, Seq<char>>(t@),
            Err(e) => yaml_write_string_map(entries.deep_view()) == Err::<Seq<char>, Seq<char>>(e@),
        },
{
    let mapping: serde_yaml::Mapping = entries.iter().map(
        |(k, v)| (serde_yaml::Value::String(k.clone()), serde_yaml::Value::String(v.clone())),
    ).collect();
    match serde_yaml::to_string(&mapping) {
        Ok(t) => Ok(t),
        Err(e) => Err(e.to_string()),
    }
}

} // verus!
