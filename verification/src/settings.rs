//! Proof-system settings, passed through to every backend operation.

use vstd::prelude::*;

use crate::error::Error;

verus! {

/// The parameters of the proof system. The bridge reads them from JSON and
/// hands them on unchanged.
#[derive(Debug)]
pub struct Settings {
    pub ipa_accumulation: bool,
    pub oracle_hash_type: String,
    pub disable_zk: bool,
    pub optimized_solidity_verifier: bool,
}

impl Settings {
    /// The four parameters as plain values, in the order of the fields.
    pub open spec fn parts(&self) -> (bool, Seq<char>, bool, bool) {
        (
            self.ipa_accumulation,
            self.oracle_hash_type@,
            self.disable_zk,
            self.optimized_solidity_verifier,
        )
    }
}

impl Clone for Settings {
    fn clone(&self) -> (copy: Self)
        ensures
            copy == *self,
    {
        Settings {
            ipa_accumulation: self.ipa_accumulation,
            oracle_hash_type: self.oracle_hash_type.clone(),
            disable_zk: self.disable_zk,
            optimized_solidity_verifier: self.optimized_solidity_verifier,
        }
    }
}

/// The settings that a JSON document describes, if it describes any.
pub uninterp spec fn settings_json_decoding(text: Seq<char>) -> Option<(bool, Seq<char>, bool, bool)>;

/// Calls `serde_json::from_str` for barretenberg's `ProofSystemSettings` and
/// moves the four fields over. The result depends on the text alone; the error
/// comes back as its text.
#[verifier::external_body]
fn settings_from_json(text: &str) -> (decoded: Result<Settings, String>)
    ensures
        match decoded {
            Ok(settings) => settings_json_decoding(text@) == Some(settings.parts()),
            Err(_) => settings_json_decoding(text@) is None,
        },
{
    match serde_json::from_str::<barretenberg_rs::generated_types::ProofSystemSettings>(text) {
        Ok(found) => Ok(
            Settings {
                ipa_accumulation: found.ipa_accumulation,
                oracle_hash_type: found.oracle_hash_type,
                disable_zk: found.disable_zk,
                optimized_solidity_verifier: found.optimized_solidity_verifier,
            },
        ),
        Err(e) => Err(e.to_string()),
    }
}

/// Turns the outcome of reading a settings document into the bridge's result.
pub fn settings_outcome(outcome: Result<Settings, String>) -> (parsed: Result<Settings, Error>)
    ensures
        match outcome {
            Ok(settings) => parsed matches Ok(same) && same == settings,
            Err(detail) => parsed matches Err(Error::SettingsJson(d)) && d@ == detail@,
        },
{
    match outcome {
        Ok(settings) => Ok(settings),
        Err(detail) => Err(Error::SettingsJson(detail)),
    }
}

/// Reads proof-system settings from their JSON form.
pub fn parse_settings(text: &str) -> (parsed: Result<Settings, Error>)
    ensures
        match settings_json_decoding(text@) {
            Some(parts) => parsed matches Ok(settings) && settings.parts() == parts,
            None => parsed matches Err(Error::SettingsJson(_)),
        },
{
    settings_outcome(settings_from_json(text))
}

} // verus!
