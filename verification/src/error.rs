//! The errors a model reports for parameters it cannot serve.

use vstd::prelude::*;
use crate::text::{concat, join, texts};

verus! {

/// Why a model refused its parameters. Each variant holds the message the
/// model reports.
#[derive(Debug)]
pub enum GainError {
    /// No capture was recorded at the requested setting.
    UnsupportedSetting(String),
    /// A parameter holds a value that is not one of its choices.
    InvalidChoice(String),
}

impl GainError {
    /// The message of the error.
    pub fn message(&self) -> (m: &str)
        ensures
            m@ == match self {
                GainError::UnsupportedSetting(s) => s@,
                GainError::InvalidChoice(s) => s@,
            },
    {
        match self {
            GainError::UnsupportedSetting(s) => s.as_str(),
            GainError::InvalidChoice(s) => s.as_str(),
        }
    }

    /// What model `model_id` reports when the percentage knob `path` does not
    /// stand on a whole number; `shown` is the value as the host writes it.
    pub fn fractional_percent(model_id: &str, path: &str, shown: &str) -> (e: GainError)
        ensures
            e matches GainError::InvalidChoice(m) && m@ == concat(
                seq![
                    "gain model '"@,
                    model_id@,
                    "' requires '"@,
                    path@,
                    "' to be a whole-number percentage, got "@,
                    shown@,
                ],
            ),
    {
        let parts = vec!["gain model '", model_id, "' requires '", path, "' to be a whole-number percentage, got ", shown];
        assert(texts(parts@) =~= seq![
            "gain model '"@,
            model_id@,
            "' requires '"@,
            path@,
            "' to be a whole-number percentage, got "@,
            shown@,
        ]);
        GainError::InvalidChoice(join(&parts))
    }
}

} // verus!
