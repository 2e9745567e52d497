use vstd::prelude::*;

use crate::errors::SettingsError;
use crate::text::{
    ascii_lower, lemma_ascii_lower_unchanged, lemma_trimmed_unchanged, str_eq, to_ascii_lowercase,
    trim, trimmed,
};

verus! {

/// The backoff function of an SNS delivery retry policy.
#[derive(Debug, Clone, Copy, PartialEq, Eq, Structural)]
pub enum BackoffFunction {
    Linear,
    Arithmetic,
    Geometric,
    Exponential,
}

/// The backoff function that a lower-case, trimmed key names, if any.
pub open spec fn backoff_from_key(key: Seq<char>) -> Option<BackoffFunction> {
    if key == "linear"@ {
        Some(BackoffFunction::Linear)
    } else if key == "arithmetic"@ {
        Some(BackoffFunction::Arithmetic)
    } else if key == "geometric"@ {
        Some(BackoffFunction::Geometric)
    } else if key == "exponential"@ {
        Some(BackoffFunction::Exponential)
    } else {
        None
    }
}

/// The key under which `s` is looked up: trimmed and made ASCII lower-case.
pub open spec fn backoff_key(s: Seq<char>) -> Seq<char> {
    ascii_lower(trimmed(s))
}

impl BackoffFunction {
    /// The function's name in a delivery policy.
    pub open spec fn spec_name(self) -> Seq<char> {
        match self {
            BackoffFunction::Linear => "linear"@,
            BackoffFunction::Arithmetic => "arithmetic"@,
            BackoffFunction::Geometric => "geometric"@,
            BackoffFunction::Exponential => "exponential"@,
        }
    }

    /// The function's name in a delivery policy.
    pub fn as_str(self) -> (res: &'static str)
        ensures
            res@ == self.spec_name(),
    {
        match self {
            BackoffFunction::Linear => "linear",
            BackoffFunction::Arithmetic => "arithmetic",
            BackoffFunction::Geometric => "geometric",
            BackoffFunction::Exponential => "exponential",
        }
    }

    /// Reads a backoff function by name, ignoring surrounding white space
    /// and ASCII case. An unknown name gives an error holding the trimmed,
    /// lower-cased text.
    pub fn parse(s: &str) -> (res: Result<Self, SettingsError>)
        ensures
            match backoff_from_key(backoff_key(s@)) {
                Some(b) => res == Ok::<Self, SettingsError>(b),
                None => match res {
                    Err(SettingsError::UnknownBackoffFunction { value }) => value@ == backoff_key(
                        s@,
                    ),
                    _ => false,
                },
            },
    {
        let t = trim(s);
        let key = to_ascii_lowercase(t);
        if str_eq(key.as_str(), "linear") {
            Ok(BackoffFunction::Linear)
        } else if str_eq(key.as_str(), "arithmetic") {
            Ok(BackoffFunction::Arithmetic)
        } else if str_eq(key.as_str(), "geometric") {
            Ok(BackoffFunction::Geometric)
        } else if str_eq(key.as_str(), "exponential") {
            Ok(BackoffFunction::Exponential)
        } else {
            Err(SettingsError::UnknownBackoffFunction { value: key })
        }
    }
}

/// Reading the name of a backoff function, as it stands in a delivery
/// policy, gives that function back.
pub proof fn lemma_backoff_name_round_trip(b: BackoffFunction)
    ensures
        backoff_from_key(backoff_key(b.spec_name())) == Some(b),
{
    reveal_strlit("linear");
    reveal_strlit("arithmetic");
    reveal_strlit("geometric");
    reveal_strlit("exponential");
    let s = b.spec_name();
    lemma_trimmed_unchanged(s);
    lemma_ascii_lower_unchanged(s);
}

impl std::str::FromStr for BackoffFunction {
    type Err = SettingsError;

    /// Reads a backoff function by name, as `BackoffFunction::parse` does.
    fn from_str(s: &str) -> (res: Result<Self, SettingsError>)
        ensures
            match backoff_from_key(backoff_key(s@)) {
                Some(b) => res == Ok::<Self, SettingsError>(b),
                None => match res {
                    Err(SettingsError::UnknownBackoffFunction { value }) => value@ == backoff_key(
                        s@,
                    ),
                    _ => false,
                },
            },
    {
        BackoffFunction::parse(s)
    }
}

} // verus!
