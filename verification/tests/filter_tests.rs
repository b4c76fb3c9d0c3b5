use age_filter::digest::ContentDigest;
use age_filter::errors::ConfigIssue;
use age_filter::errors::FilterError;
use age_filter::filter::clean;
use age_filter::filter::deinit;
use age_filter::filter::init;
use age_filter::filter::smudge;
use age_filter::filter::textconv;
use age_filter::filter::CleanAction;
use age_filter::rules::join_path;
use age_filter::rules::resolve_rule;
use age_filter::sidecar::SidecarStore;
use age_filter::value::Value;

fn rule_entry(path: &str, keys: &[&str]) -> (String, Value) {
    let items: Vec<Value> = keys.iter().map(|k| Value::Str((*k).to_string())).collect();
    (
        path.to_string(),
        Value::Object(vec![("publicKeys".to_string(), Value::Array(items))]),
    )
}

fn demo_tree() -> Value {
    Value::Object(vec![rule_entry("secrets/db.txt", &["ageKEY1"])])
}

#[test]
fn join_relative_path() {
    let joined = join_path(&"/repo".to_string(), &"secrets/db.txt".to_string());
    assert_eq!(joined, "/repo/secrets/db.txt");
}

#[test]
fn join_absolute_path_replaces_base() {
    let joined = join_path(&"/repo".to_string(), &"/other/abs.txt".to_string());
    assert_eq!(joined, "/other/abs.txt");
}

#[test]
fn resolve_concrete_scenario() {
    // Rule tree { "secrets/db.txt": { publicKeys: ["ageKEY1"] } } at
    // /repo/secrets.nix: the matching target resolves to its keys, the
    // unlisted one fails with no rule found.
    let tree = demo_tree();
    let base = "/repo".to_string();
    let source = "/repo/secrets.nix".to_string();

    let rule = resolve_rule(&tree, &base, &source, &"/repo/secrets/db.txt".to_string())
        .expect("listed path must resolve");
    assert_eq!(rule.path, "/repo/secrets/db.txt");
    assert_eq!(rule.public_keys, vec!["ageKEY1".to_string()]);

    let miss = resolve_rule(&tree, &base, &source, &"/repo/secrets/other.txt".to_string());
    match miss {
        Err(FilterError::NoRuleFound { rule_source, target }) => {
            assert_eq!(rule_source, "/repo/secrets.nix");
            assert_eq!(target, "/repo/secrets/other.txt");
        }
        _ => panic!("unlisted path must fail with NoRuleFound"),
    }
}

#[test]
fn resolve_is_deterministic_per_path() {
    let tree = Value::Object(vec![
        rule_entry("a.txt", &["keyA1", "keyA2"]),
        rule_entry("b.txt", &["keyB"]),
    ]);
    let base = "/repo".to_string();
    let source = "/repo/secrets.nix".to_string();

    let rule_a = resolve_rule(&tree, &base, &source, &"/repo/a.txt".to_string()).unwrap();
    assert_eq!(rule_a.public_keys, vec!["keyA1".to_string(), "keyA2".to_string()]);

    let rule_b = resolve_rule(&tree, &base, &source, &"/repo/b.txt".to_string()).unwrap();
    assert_eq!(rule_b.public_keys, vec!["keyB".to_string()]);

    let miss = resolve_rule(&tree, &base, &source, &"/repo/c.txt".to_string());
    assert!(matches!(miss, Err(FilterError::NoRuleFound { .. })));
}

#[test]
fn resolve_top_level_not_object() {
    let tree = Value::Str("not a mapping".to_string());
    let r = resolve_rule(
        &tree,
        &"/repo".to_string(),
        &"/repo/secrets.nix".to_string(),
        &"/repo/a.txt".to_string(),
    );
    match r {
        Err(FilterError::Config(issue)) => {
            assert_eq!(issue, ConfigIssue::TopLevelNotObject);
            assert_eq!(
                FilterError::Config(issue).message(),
                "Expected to contain objects"
            );
        }
        _ => panic!("non-mapping tree must fail"),
    }
}

#[test]
fn resolve_rule_value_not_object() {
    let tree = Value::Object(vec![("a.txt".to_string(), Value::Str("oops".to_string()))]);
    let r = resolve_rule(
        &tree,
        &"/repo".to_string(),
        &"/repo/secrets.nix".to_string(),
        &"/repo/a.txt".to_string(),
    );
    assert!(matches!(
        r,
        Err(FilterError::Config(ConfigIssue::RuleNotObject))
    ));
}

#[test]
fn resolve_missing_public_keys() {
    let tree = Value::Object(vec![(
        "a.txt".to_string(),
        Value::Object(vec![("owner".to_string(), Value::Str("me".to_string()))]),
    )]);
    let r = resolve_rule(
        &tree,
        &"/repo".to_string(),
        &"/repo/secrets.nix".to_string(),
        &"/repo/a.txt".to_string(),
    );
    match r {
        Err(FilterError::Config(issue)) => {
            assert_eq!(issue, ConfigIssue::MissingPublicKeys);
            assert_eq!(
                FilterError::Config(issue).message(),
                "publicKeys attribute missing"
            );
        }
        _ => panic!("missing publicKeys must fail"),
    }
}

#[test]
fn resolve_public_keys_not_a_list() {
    let tree = Value::Object(vec![(
        "a.txt".to_string(),
        Value::Object(vec![(
            "publicKeys".to_string(),
            Value::Str("ageKEY1".to_string()),
        )]),
    )]);
    let r = resolve_rule(
        &tree,
        &"/repo".to_string(),
        &"/repo/secrets.nix".to_string(),
        &"/repo/a.txt".to_string(),
    );
    match r {
        Err(FilterError::Config(issue)) => {
            assert_eq!(issue, ConfigIssue::PublicKeysNotAList);
            assert_eq!(
                FilterError::Config(issue).message(),
                "publicKeys must be a list"
            );
        }
        _ => panic!("non-list publicKeys must fail"),
    }
}

#[test]
fn resolve_public_key_not_a_string() {
    let tree = Value::Object(vec![(
        "a.txt".to_string(),
        Value::Object(vec![(
            "publicKeys".to_string(),
            Value::Array(vec![Value::Str("ageKEY1".to_string()), Value::Other]),
        )]),
    )]);
    let r = resolve_rule(
        &tree,
        &"/repo".to_string(),
        &"/repo/secrets.nix".to_string(),
        &"/repo/a.txt".to_string(),
    );
    match r {
        Err(FilterError::Config(issue)) => {
            assert_eq!(issue, ConfigIssue::PublicKeyNotAString);
            assert_eq!(
                FilterError::Config(issue).message(),
                "publicKeys should be list of strings"
            );
        }
        _ => panic!("non-string key must fail"),
    }
}

#[test]
fn first_match_wins_on_duplicate_entries() {
    // A latent ambiguity of the rule format, kept as is: the first entry
    // whose resolved path matches shadows a later duplicate.
    let tree = Value::Object(vec![
        rule_entry("a.txt", &["first"]),
        rule_entry("a.txt", &["second"]),
    ]);
    let rule = resolve_rule(
        &tree,
        &"/repo".to_string(),
        &"/repo/secrets.nix".to_string(),
        &"/repo/a.txt".to_string(),
    )
    .unwrap();
    assert_eq!(rule.public_keys, vec!["first".to_string()]);
}

#[test]
fn sidecar_write_then_read() {
    let mut store = SidecarStore::new();
    let path = "/repo/a.txt".to_string();
    let plaintext = b"hello".to_vec();
    let d = ContentDigest::hash_content(&plaintext);
    let expected = d.as_bytes().clone();

    store.write(&path, d);
    let back = store.read(&path).expect("written record must be readable");
    assert_eq!(back.as_bytes(), &expected);
}

#[test]
fn sidecar_overwrite_takes_last_value() {
    let mut store = SidecarStore::new();
    let path = "/repo/a.txt".to_string();
    store.write(&path, ContentDigest::hash_content(&b"one".to_vec()));
    store.write(&path, ContentDigest::hash_content(&b"two".to_vec()));
    let back = store.read(&path).unwrap();
    let two = ContentDigest::hash_content(&b"two".to_vec());
    assert!(back.same_digest(&two));
}

#[test]
fn sidecar_remove_all_forgets_every_path() {
    let mut store = SidecarStore::new();
    let a = "/repo/a.txt".to_string();
    let b = "/repo/b.txt".to_string();
    store.write(&a, ContentDigest::hash_content(&b"one".to_vec()));
    store.write(&b, ContentDigest::hash_content(&b"two".to_vec()));
    store.remove_all();
    assert!(store.read(&a).is_none());
    assert!(store.read(&b).is_none());
}

#[test]
fn digest_matches_reference_hash() {
    let data = b"some plaintext".to_vec();
    let d = ContentDigest::hash_content(&data);
    assert_eq!(d.as_bytes().as_slice(), blake3::hash(&data).as_bytes());
}

#[test]
fn digest_is_not_the_input() {
    let data = b"short".to_vec();
    let d = ContentDigest::hash_content(&data);
    assert_eq!(d.as_bytes().len(), 32);
    assert_ne!(d.as_bytes().as_slice(), data.as_slice());
}

#[test]
fn digest_roundtrips_through_bytes() {
    let d = ContentDigest::hash_content(&b"x".to_vec());
    let bytes = d.as_bytes().clone();
    let back = ContentDigest::from_bytes(bytes).expect("32 bytes must be accepted");
    assert!(back.same_digest(&d));
    assert!(d.duplicate().same_digest(&d));
}

#[test]
fn digest_rejects_wrong_length() {
    assert!(ContentDigest::from_bytes(vec![0u8; 31]).is_none());
    assert!(ContentDigest::from_bytes(vec![0u8; 33]).is_none());
    assert!(ContentDigest::from_bytes(Vec::new()).is_none());
    assert!(ContentDigest::from_bytes(vec![0u8; 32]).is_some());
}

#[test]
fn clean_miss_then_hit_is_idempotent() {
    // Encrypt, decrypt, and re-clean unchanged plaintext: the second clean is
    // a sidecar hit and reuses the committed ciphertext instead of
    // re-encrypting, so history output stays byte-identical.
    let mut store = init();
    let tree = demo_tree();
    let workdir = "/repo".to_string();
    let file = "secrets/db.txt".to_string();
    let base = "/repo".to_string();
    let source = "/repo/secrets.nix".to_string();
    let plaintext = b"db password".to_vec();

    let first = clean(&mut store, &workdir, &file, &plaintext, &tree, &base, &source).unwrap();
    match first {
        CleanAction::Encrypt { public_keys } => {
            assert_eq!(public_keys, vec!["ageKEY1".to_string()]);
        }
        CleanAction::UseCommitted => panic!("first clean of fresh content must re-encrypt"),
    }

    let second = clean(&mut store, &workdir, &file, &plaintext, &tree, &base, &source).unwrap();
    assert!(matches!(second, CleanAction::UseCommitted));
}

#[test]
fn clean_reencrypts_changed_plaintext() {
    let mut store = init();
    let tree = demo_tree();
    let workdir = "/repo".to_string();
    let file = "secrets/db.txt".to_string();
    let base = "/repo".to_string();
    let source = "/repo/secrets.nix".to_string();

    let _ = clean(&mut store, &workdir, &file, &b"old".to_vec(), &tree, &base, &source).unwrap();
    let changed = clean(&mut store, &workdir, &file, &b"new".to_vec(), &tree, &base, &source)
        .unwrap();
    assert!(matches!(changed, CleanAction::Encrypt { .. }));
}

#[test]
fn clean_propagates_no_rule_found() {
    let mut store = init();
    let tree = demo_tree();
    let r = clean(
        &mut store,
        &"/repo".to_string(),
        &"unlisted.txt".to_string(),
        &b"data".to_vec(),
        &tree,
        &"/repo".to_string(),
        &"/repo/secrets.nix".to_string(),
    );
    match r {
        Err(FilterError::NoRuleFound { target, .. }) => {
            assert_eq!(target, "/repo/unlisted.txt");
        }
        _ => panic!("unlisted path must fail the clean"),
    }
}

#[test]
fn smudge_then_clean_round_trip() {
    // Round trip: what the decrypt collaborator hands back, smudge returns
    // unchanged, and the recorded baseline makes the next clean a hit.
    let mut store = init();
    let workdir = "/repo".to_string();
    let file = "secrets/db.txt".to_string();
    let plaintext = b"db password".to_vec();

    let out = smudge(&mut store, &workdir, &file, Some(plaintext.clone())).unwrap();
    assert_eq!(out, plaintext);

    let tree = demo_tree();
    let next = clean(
        &mut store,
        &workdir,
        &file,
        &plaintext,
        &tree,
        &"/repo".to_string(),
        &"/repo/secrets.nix".to_string(),
    )
    .unwrap();
    assert!(matches!(next, CleanAction::UseCommitted));
}

#[test]
fn smudge_rejects_plaintext_input() {
    let mut store = init();
    let r = smudge(
        &mut store,
        &"/repo".to_string(),
        &"secrets/db.txt".to_string(),
        None,
    );
    match r {
        Err(e) => {
            assert!(matches!(e, FilterError::NotEncrypted));
            assert_eq!(e.message(), "Input isn't encrypted");
        }
        Ok(_) => panic!("non-ciphertext input must be rejected"),
    }
}

#[test]
fn textconv_falls_back_to_raw_bytes() {
    let raw = b"plain working copy".to_vec();
    let shown = textconv(raw.clone(), None);
    assert_eq!(shown, raw);
}

#[test]
fn textconv_shows_decrypted_bytes() {
    let raw = b"ciphertext blob".to_vec();
    let shown = textconv(raw, Some(b"the secret".to_vec()));
    assert_eq!(shown, b"the secret".to_vec());
}

#[test]
fn deinit_clears_the_store() {
    let mut store = init();
    let path = "/repo/a.txt".to_string();
    store.write(&path, ContentDigest::hash_content(&b"one".to_vec()));
    deinit(&mut store);
    assert!(store.read(&path).is_none());
}

#[test]
fn no_rule_found_message_names_both_paths() {
    let e = FilterError::NoRuleFound {
        rule_source: "/repo/secrets.nix".to_string(),
        target: "/repo/a.txt".to_string(),
    };
    assert_eq!(e.message(), "No rule in /repo/secrets.nix for /repo/a.txt");
}
