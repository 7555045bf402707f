//! The dynamic value model (simd_json's owned value) and the canonical
//! configuration form (a YAML value), both carried opaquely.

use vstd::prelude::*;
use simd_json::prelude::Writable;

verus! {

/// The dynamically typed payload of events, state handles and parameters.
pub type DynValue = simd_json::OwnedValue;

/// The canonical configuration value stored in a node's configuration.
pub type ConfigValue = serde_yaml::Value;

#[verifier::external_type_specification]
#[verifier::external_body]
pub struct ExOwnedValue(simd_json::OwnedValue);

#[verifier::external_type_specification]
#[verifier::external_body]
pub struct ExYamlValue(serde_yaml::Value);

/// Relies on value_trait's `Writable::encode` for simd_json's owned value:
/// the value's JSON text. It never fails.
#[verifier::external_body]
pub(crate) fn encode_value(v: &DynValue) -> (r: String) {
    v.encode()
}

/// What simd_json makes of JSON text read as a YAML value; `None` where it
/// reports an error.
pub uninterp spec fn yaml_of_json(text: Seq<char>) -> Option<ConfigValue>;

/// An integer YAML value as a `u64`, where it is one.
pub uninterp spec fn yaml_u64_of(v: ConfigValue) -> Option<u64>;

/// Relies on `simd_json::serde::from_slice`: reads JSON text into a YAML
/// value, `None` where simd_json reports an error (the text is not valid
/// JSON, or the YAML value refuses what it holds).
#[verifier::external_body]
pub(crate) fn yaml_from_json(text: String) -> (r: Option<ConfigValue>)
    ensures
        r == yaml_of_json(text@),
{
    let mut bytes = text.into_bytes();
    simd_json::serde::from_slice::<serde_yaml::Value>(&mut bytes).ok()
}

/// Relies on `serde_yaml::Value::as_u64`: the value as an unsigned integer,
/// where it is one.
#[verifier::external_body]
pub(crate) fn yaml_as_u64(v: &ConfigValue) -> (r: Option<u64>)
    ensures
        r == yaml_u64_of(*v),
{
    v.as_u64()
}

} // verus!
