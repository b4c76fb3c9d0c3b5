//! The recipient-rule resolver.
//!
//! A rule tree is a mapping whose keys are paths relative to the tree's own
//! base directory and whose values grant recipient public keys.  Resolving a
//! target path walks the entries in their natural order and returns the first
//! entry whose resolved absolute path equals the target; the walk does not
//! look for a second match, so a duplicate entry is shadowed (a latent
//! ambiguity of the rule format, kept as is rather than silently tightened
//! into a uniqueness check).

use vstd::prelude::*;
use vstd::string::StrSliceExecFns;
use vstd::string::StringExecFns;

use crate::errors::ConfigIssue;
use crate::errors::FilterError;
use crate::value::Value;
use crate::value::all_strings;
use crate::value::find_field;
use crate::value::get_field;
use crate::value::string_items;
use crate::value::string_views;

verus! {

/// One resolved recipient rule: the absolute path of the governed file and
/// the ordered recipient public keys authorized for it.
pub struct Rule {
    pub path: String,
    pub public_keys: Vec<String>,
}

/// A base directory joined with a path relative to it.  A relative path is
/// appended behind a separator; an absolute path replaces the base.
pub open spec fn join_path_spec(base: Seq<char>, rel: Seq<char>) -> Seq<char> {
    if rel.len() > 0 && rel[0] == '/' {
        rel
    } else {
        base + "/"@ + rel
    }
}

/// Joins a base directory with a path relative to it.
pub fn join_path(base: &String, rel: &String) -> (r: String)
    ensures
        r@ == join_path_spec(base@, rel@),
{
    if !rel.as_str().is_empty() && rel.as_str().get_char(0) == '/' {
        rel.clone()
    } else {
        let mut s = base.clone();
        s.append("/");
        s.append(rel.as_str());
        s
    }
}

/// What the resolver produces, stated over mathematical values.
pub enum ResolveModel {
    /// The first matching entry, validated: the target's absolute path and
    /// the recipient keys granted for it.
    Found { path: Seq<char>, keys: Seq<Seq<char>> },
    /// A matching entry failed validation.
    Invalid(ConfigIssue),
    /// No entry resolves to the target path.
    NoRule,
}

/// Validation of a matched entry's value: it must be a mapping, must hold a
/// publicKeys field, and that field must be an array of strings.
pub open spec fn validate_entry_spec(path: Seq<char>, v: Value) -> ResolveModel {
    match v {
        Value::Object(fields) => match find_field(fields@, "publicKeys"@) {
            Some(pk) => match pk {
                Value::Array(items) => if all_strings(items@) {
                    ResolveModel::Found { path, keys: string_views(items@) }
                } else {
                    ResolveModel::Invalid(ConfigIssue::PublicKeyNotAString)
                },
                _ => ResolveModel::Invalid(ConfigIssue::PublicKeysNotAList),
            },
            None => ResolveModel::Invalid(ConfigIssue::MissingPublicKeys),
        },
        _ => ResolveModel::Invalid(ConfigIssue::RuleNotObject),
    }
}

/// First match wins: the outcome of walking the entries in order for the
/// first one whose resolved absolute path equals the target.
pub open spec fn resolve_entries_spec(
    entries: Seq<(String, Value)>,
    base: Seq<char>,
    target: Seq<char>,
) -> ResolveModel
    decreases entries.len(),
{
    if entries.len() == 0 {
        ResolveModel::NoRule
    } else if join_path_spec(base, entries[0].0@) == target {
        validate_entry_spec(target, entries[0].1)
    } else {
        resolve_entries_spec(entries.drop_first(), base, target)
    }
}

/// The outcome of resolving a target path against a rule tree whose base
/// directory is `base`.
pub open spec fn resolve_spec(tree: Value, base: Seq<char>, target: Seq<char>) -> ResolveModel {
    match tree {
        Value::Object(entries) => resolve_entries_spec(entries@, base, target),
        _ => ResolveModel::Invalid(ConfigIssue::TopLevelNotObject),
    }
}

/// The resolver's result agrees with the model: a found rule carries exactly
/// the model's path and keys, and each failure is the model's failure, with
/// the offending paths in the no-rule error.
pub open spec fn resolve_result_matches(
    r: Result<Rule, FilterError>,
    m: ResolveModel,
    rule_source: Seq<char>,
    target: Seq<char>,
) -> bool {
    match r {
        Ok(rule) => {
            &&& m matches ResolveModel::Found { path, keys }
            &&& rule.path@ == path
            &&& rule.public_keys.deep_view() == keys
        },
        Err(e) => match e {
            FilterError::Config(issue) => m == ResolveModel::Invalid(issue),
            FilterError::NoRuleFound { rule_source: rs, target: t } => {
                &&& m == ResolveModel::NoRule
                &&& rs@ == rule_source
                &&& t@ == target
            },
            FilterError::NotEncrypted => false,
        },
    }
}

/// Validates and extracts the rule granted by a matched entry's value.
fn validate_entry(path: String, v: &Value) -> (r: Result<Rule, FilterError>)
    ensures
        ({
            let m = validate_entry_spec(path@, *v);
            match r {
                Ok(rule) => {
                    &&& m matches ResolveModel::Found { path: p, keys }
                    &&& rule.path@ == p
                    &&& rule.public_keys.deep_view() == keys
                },
                Err(e) => {
                    &&& m matches ResolveModel::Invalid(issue)
                    &&& e == FilterError::Config(issue)
                },
            }
        }),
{
    let fields = match v {
        Value::Object(fields) => fields,
        _ => {
            return Err(FilterError::Config(ConfigIssue::RuleNotObject));
        },
    };
    let key = "publicKeys".to_owned();
    let pk = match get_field(fields, &key) {
        Some(pk) => pk,
        None => {
            return Err(FilterError::Config(ConfigIssue::MissingPublicKeys));
        },
    };
    let items = match pk {
        Value::Array(items) => items,
        _ => {
            return Err(FilterError::Config(ConfigIssue::PublicKeysNotAList));
        },
    };
    match string_items(items) {
        Some(keys) => Ok(Rule { path, public_keys: keys }),
        None => Err(FilterError::Config(ConfigIssue::PublicKeyNotAString)),
    }
}

/// Resolves the recipient rule for `target`, an absolute path, against the
/// rule tree evaluated from `rule_source`, whose base directory is `base`.
/// Walks the tree's entries in order and returns the first whose resolved
/// absolute path equals the target, validated; fails with the model's error
/// otherwise.
pub fn resolve_rule(
    tree: &Value,
    base: &String,
    rule_source: &String,
    target: &String,
) -> (r: Result<Rule, FilterError>)
    ensures
        resolve_result_matches(r, resolve_spec(*tree, base@, target@), rule_source@, target@),
{
    let entries = match tree {
        Value::Object(entries) => entries,
        _ => {
            return Err(FilterError::Config(ConfigIssue::TopLevelNotObject));
        },
    };
    let mut i: usize = 0;
    proof {
        assert(entries@.skip(0) =~= entries@);
    }
    while i < entries.len()
        invariant
            i <= entries@.len(),
            resolve_spec(*tree, base@, target@) == resolve_entries_spec(entries@, base@, target@),
            resolve_entries_spec(entries@, base@, target@) == resolve_entries_spec(
                entries@.skip(i as int),
                base@,
                target@,
            ),
        decreases entries@.len() - i,
    {
        let abs = join_path(base, &entries[i].0);
        if abs == *target {
            proof {
                assert(entries@.skip(i as int)[0] == entries@[i as int]);
                assert(resolve_entries_spec(entries@.skip(i as int), base@, target@)
                    == validate_entry_spec(target@, entries@[i as int].1));
                assert(resolve_spec(*tree, base@, target@) == validate_entry_spec(
                    target@,
                    entries@[i as int].1,
                ));
            }
            return validate_entry(abs, &entries[i].1);
        }
        proof {
            assert(entries@.skip(i as int).drop_first() =~= entries@.skip(i as int + 1));
        }
        i = i + 1;
    }
    proof {
        assert(entries@.skip(entries@.len() as int) =~= Seq::<(String, Value)>::empty());
    }
    Err(
        FilterError::NoRuleFound { rule_source: rule_source.clone(), target: target.clone() },
    )
}

/// Rule resolution is deterministic and keyed by resolved absolute path: in a
/// tree with two entries resolving to distinct paths A and B, resolving A
/// yields exactly A's keys, resolving B exactly B's keys, and resolving a
/// path that neither entry resolves to fails with no rule found.
pub proof fn lemma_rule_resolution_deterministic(
    tree: Value,
    base: Seq<char>,
    a: Seq<char>,
    b: Seq<char>,
    c: Seq<char>,
    keys_a: Seq<Seq<char>>,
    keys_b: Seq<Seq<char>>,
)
    requires
        tree matches Value::Object(entries),
        tree->Object_0@.len() == 2,
        join_path_spec(base, tree->Object_0@[0].0@) == a,
        join_path_spec(base, tree->Object_0@[1].0@) == b,
        validate_entry_spec(a, tree->Object_0@[0].1) == (ResolveModel::Found {
            path: a,
            keys: keys_a,
        }),
        validate_entry_spec(b, tree->Object_0@[1].1) == (ResolveModel::Found {
            path: b,
            keys: keys_b,
        }),
        a != b,
        c != a,
        c != b,
    ensures
        resolve_spec(tree, base, a) == (ResolveModel::Found { path: a, keys: keys_a }),
        resolve_spec(tree, base, b) == (ResolveModel::Found { path: b, keys: keys_b }),
        resolve_spec(tree, base, c) == ResolveModel::NoRule,
{
    let entries = tree->Object_0@;
    let rest = entries.drop_first();
    assert(rest[0] == entries[1]);
    assert(rest.drop_first() =~= Seq::<(String, Value)>::empty());
    assert(resolve_entries_spec(rest.drop_first(), base, b) == ResolveModel::NoRule);
    assert(resolve_entries_spec(rest.drop_first(), base, c) == ResolveModel::NoRule);
    assert(resolve_entries_spec(rest, base, b) == validate_entry_spec(b, entries[1].1));
    assert(resolve_entries_spec(rest, base, c) == ResolveModel::NoRule);
}

} // verus!
