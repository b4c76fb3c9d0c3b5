//! The filter's error taxonomy.
//!
//! Every error is fatal for the invocation that raised it; nothing is retried
//! inside the library.  I/O failures of the surrounding shell (streams,
//! sidecar files, repository lookups) are the shell's to report.

use vstd::prelude::*;
use vstd::string::StringExecFns;

verus! {

/// Why a rule tree failed validation.
#[derive(Clone, Copy, PartialEq, Eq, Structural, Debug)]
pub enum ConfigIssue {
    /// The evaluated rule tree is not a mapping at top level.
    TopLevelNotObject,
    /// A matched entry's value is not a mapping.
    RuleNotObject,
    /// A matched entry's mapping has no publicKeys field.
    MissingPublicKeys,
    /// The publicKeys field is not an array.
    PublicKeysNotAList,
    /// The publicKeys array holds a non-string element.
    PublicKeyNotAString,
}

/// A failure of one of the filter operations.
#[derive(Debug)]
pub enum FilterError {
    /// The rule tree is malformed or misses a required field.
    Config(ConfigIssue),
    /// No entry of the rule tree resolves to the target path.  Left
    /// unencrypted the file would leak, so this is fatal, never skipped.
    NoRuleFound { rule_source: String, target: String },
    /// Smudge input was not recognized as encrypted payload; smudge must only
    /// ever see previously committed ciphertext.
    NotEncrypted,
}

/// The human-readable message for each error, stated over the view.
pub open spec fn message_spec(e: FilterError) -> Seq<char> {
    match e {
        FilterError::Config(issue) => match issue {
            ConfigIssue::TopLevelNotObject => "Expected to contain objects"@,
            ConfigIssue::RuleNotObject => "Expected to contain objects"@,
            ConfigIssue::MissingPublicKeys => "publicKeys attribute missing"@,
            ConfigIssue::PublicKeysNotAList => "publicKeys must be a list"@,
            ConfigIssue::PublicKeyNotAString => "publicKeys should be list of strings"@,
        },
        FilterError::NoRuleFound { rule_source, target } => "No rule in "@ + rule_source@ + " for "@
            + target@,
        FilterError::NotEncrypted => "Input isn't encrypted"@,
    }
}

impl FilterError {
    /// The message the shell prints on the error stream.
    pub fn message(&self) -> (m: String)
        ensures
            m@ == message_spec(*self),
    {
        match self {
            FilterError::Config(issue) => match issue {
                ConfigIssue::TopLevelNotObject => "Expected to contain objects".to_owned(),
                ConfigIssue::RuleNotObject => "Expected to contain objects".to_owned(),
                ConfigIssue::MissingPublicKeys => "publicKeys attribute missing".to_owned(),
                ConfigIssue::PublicKeysNotAList => "publicKeys must be a list".to_owned(),
                ConfigIssue::PublicKeyNotAString => "publicKeys should be list of strings".to_owned(),
            },
            FilterError::NoRuleFound { rule_source, target } => {
                let mut m = "No rule in ".to_owned();
                m.append(rule_source.as_str());
                m.append(" for ");
                m.append(target.as_str());
                m
            },
            FilterError::NotEncrypted => "Input isn't encrypted".to_owned(),
        }
    }
}

} // verus!
