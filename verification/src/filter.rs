//! The filter orchestrator: clean (encrypt-on-stage), smudge
//! (decrypt-on-checkout) and textconv (decrypt-for-diff).
//!
//! Each operation is a single request/response step over the sidecar store
//! and the rule resolver.  The cryptographic collaborator and the repository
//! are driven by the surrounding shell: its decrypt outcome enters here as an
//! optional plaintext (absent exactly when the input is not this system's
//! encrypted format), and the actions clean decides on — reuse the committed
//! ciphertext, or encrypt the plaintext for a rule's recipients — leave as
//! plain values for the shell to perform.

use vstd::prelude::*;

use crate::digest::ContentDigest;
use crate::digest::blake3_of;
use crate::errors::FilterError;
use crate::rules::ResolveModel;
use crate::rules::join_path;
use crate::rules::join_path_spec;
use crate::rules::resolve_rule;
use crate::rules::resolve_spec;
use crate::sidecar::SidecarStore;
use crate::value::Value;

verus! {

/// What the shell must do with the staged plaintext after a clean step.
pub enum CleanAction {
    /// The plaintext is unchanged since the last decrypt: reuse the
    /// ciphertext committed at HEAD for this path, so history stays byte
    /// identical despite the randomized encryption scheme.
    UseCommitted,
    /// The plaintext changed: encrypt it for these recipient public keys and
    /// stage the fresh ciphertext.
    Encrypt { public_keys: Vec<String> },
}

/// Clean skips re-encryption exactly when the store's record for the file
/// equals the digest of the staged plaintext.
pub open spec fn clean_hit(m: Map<Seq<char>, Seq<u8>>, file: Seq<char>, plaintext: Seq<u8>) -> bool {
    m.contains_key(file) && m[file] == blake3_of(plaintext)
}

/// On a miss, clean's result follows the resolver's model: a found rule's
/// keys become the encrypt action, and a resolver failure is returned
/// unchanged.
pub open spec fn clean_miss_result_matches(
    r: Result<CleanAction, FilterError>,
    m: ResolveModel,
    rule_source: Seq<char>,
    target: Seq<char>,
) -> bool {
    match r {
        Ok(a) => {
            &&& a matches CleanAction::Encrypt { public_keys }
            &&& m matches ResolveModel::Found { path, keys }
            &&& public_keys.deep_view() == keys
        },
        Err(e) => match e {
            FilterError::Config(issue) => m == ResolveModel::Invalid(issue),
            FilterError::NoRuleFound { rule_source: rs, target: t } => {
                &&& m == ResolveModel::NoRule
                &&& rs@ == rule_source
                &&& t@ == target
            },
            FilterError::NotEncrypted => false,
        },
    }
}

/// The hash comparison of the clean step.  Hashes the staged plaintext and
/// compares the digest with the store's record for the file's absolute path.
/// On a hit the store is untouched; on a miss the fresh digest is recorded,
/// whatever happens to the re-encryption afterwards.  Split out so the shell
/// need not evaluate the rule tree at all when the plaintext is unchanged.
pub fn clean_check(
    store: &mut SidecarStore,
    workdir: &String,
    file: &String,
    plaintext: &Vec<u8>,
) -> (hit: bool)
    ensures
        ({
            let abs = join_path_spec(workdir@, file@);
            &&& hit == clean_hit(old(store)@, abs, plaintext@)
            &&& hit ==> final(store)@ == old(store)@
            &&& !hit ==> final(store)@ == old(store)@.insert(abs, blake3_of(plaintext@))
        }),
{
    let abs = join_path(workdir, file);
    let new_digest = ContentDigest::hash_content(plaintext);
    match store.read(&abs) {
        Some(old_digest) => {
            if old_digest.same_digest(&new_digest) {
                return true;
            }
        },
        None => {},
    }
    store.write(&abs, new_digest);
    false
}

/// The encrypt-on-stage step.  Hashes the staged plaintext and compares the
/// digest with the store's record for the file's absolute path.  On a hit the
/// store is untouched and the committed ciphertext is reused; on a miss the
/// fresh digest is recorded first, then the recipient rule is resolved, its
/// failure propagated unchanged.
pub fn clean(
    store: &mut SidecarStore,
    workdir: &String,
    file: &String,
    plaintext: &Vec<u8>,
    tree: &Value,
    base: &String,
    rule_source: &String,
) -> (r: Result<CleanAction, FilterError>)
    ensures
        ({
            let abs = join_path_spec(workdir@, file@);
            &&& clean_hit(old(store)@, abs, plaintext@) ==> {
                &&& final(store)@ == old(store)@
                &&& r matches Ok(a) && a is UseCommitted
            }
            &&& !clean_hit(old(store)@, abs, plaintext@) ==> {
                &&& final(store)@ == old(store)@.insert(abs, blake3_of(plaintext@))
                &&& clean_miss_result_matches(
                    r,
                    resolve_spec(*tree, base@, abs),
                    rule_source@,
                    abs,
                )
            }
        }),
{
    if clean_check(store, workdir, file, plaintext) {
        return Ok(CleanAction::UseCommitted);
    }
    let abs = join_path(workdir, file);
    match resolve_rule(tree, base, rule_source, &abs) {
        Ok(rule) => Ok(CleanAction::Encrypt { public_keys: rule.public_keys }),
        Err(e) => Err(e),
    }
}

/// What smudge leaves in the store and returns, as a function of the decrypt
/// collaborator's outcome for the checked-out blob.
pub enum SmudgeModel {
    /// The blob decrypted: the plaintext goes to the working tree and its
    /// digest becomes the baseline the next clean compares against.
    Accepted { output: Seq<u8>, store: Map<Seq<char>, Seq<u8>> },
    /// The blob is not this system's encrypted format: smudge only ever sees
    /// previously committed ciphertext, so this is fatal.
    Rejected,
}

/// The view of the decrypt collaborator's outcome.
pub open spec fn decrypted_view(decrypted: Option<Vec<u8>>) -> Option<Seq<u8>> {
    match decrypted {
        Some(p) => Some(p@),
        None => None,
    }
}

/// The smudge step over mathematical values.
pub open spec fn smudge_spec(
    m: Map<Seq<char>, Seq<u8>>,
    abs: Seq<char>,
    decrypted: Option<Seq<u8>>,
) -> SmudgeModel {
    match decrypted {
        Some(p) => SmudgeModel::Accepted { output: p, store: m.insert(abs, blake3_of(p)) },
        None => SmudgeModel::Rejected,
    }
}

/// The decrypt-on-checkout step.  `decrypted` is the crypto collaborator's
/// outcome on the checked-out blob with the supplied identities: the
/// plaintext, or nothing when the blob is not recognized as encrypted
/// payload, which smudge rejects.
pub fn smudge(
    store: &mut SidecarStore,
    workdir: &String,
    file: &String,
    decrypted: Option<Vec<u8>>,
) -> (r: Result<Vec<u8>, FilterError>)
    ensures
        ({
            let abs = join_path_spec(workdir@, file@);
            match smudge_spec(old(store)@, abs, decrypted_view(decrypted)) {
                SmudgeModel::Accepted { output, store: m } => {
                    &&& final(store)@ == m
                    &&& r matches Ok(q) && q@ == output
                },
                SmudgeModel::Rejected => {
                    &&& final(store)@ == old(store)@
                    &&& r matches Err(e) && e is NotEncrypted
                },
            }
        }),
{
    match decrypted {
        Some(plaintext) => {
            let abs = join_path(workdir, file);
            let d = ContentDigest::hash_content(&plaintext);
            store.write(&abs, d);
            Ok(plaintext)
        },
        None => Err(FilterError::NotEncrypted),
    }
}

/// The decrypt-for-diff step.  `decrypted` is the crypto collaborator's
/// outcome on the file's raw bytes.  Unlike smudge, an unrecognized format is
/// no error here: the raw bytes are shown as they are, which also serves
/// plain working copies never staged yet.
pub fn textconv(raw: Vec<u8>, decrypted: Option<Vec<u8>>) -> (r: Vec<u8>)
    ensures
        decrypted matches Some(p) ==> r@ == p@,
        decrypted is None ==> r@ == raw@,
{
    match decrypted {
        Some(plaintext) => plaintext,
        None => raw,
    }
}

/// Sets the filter up: a store with no recorded digests.  Registering the
/// filter driver with the version-control tool is the shell's job.
pub fn init() -> (store: SidecarStore)
    ensures
        store@ == Map::<Seq<char>, Seq<u8>>::empty(),
{
    SidecarStore::new()
}

/// Tears the filter down: forgets every digest the store recorded.
/// Deregistering the filter driver is the shell's job.
pub fn deinit(store: &mut SidecarStore)
    ensures
        final(store)@ == Map::<Seq<char>, Seq<u8>>::empty(),
{
    store.remove_all();
}

/// Idempotent clean: once a smudge, or a re-encrypting clean, has recorded
/// the digest of plaintext `p` for file `f`, a clean of the unchanged
/// plaintext is a hit — and by clean's contract a hit leaves the store
/// unchanged, so every further clean of the same plaintext hits as well and
/// reuses the committed ciphertext byte for byte instead of re-encrypting.
pub proof fn lemma_clean_idempotent(m: Map<Seq<char>, Seq<u8>>, f: Seq<char>, p: Seq<u8>)
    ensures
        clean_hit(m.insert(f, blake3_of(p)), f, p),
{
}

/// Round trip: clean on changed plaintext `p` hands exactly `p` to the
/// crypto collaborator for the matched rule's recipients; when decryption
/// with matching identities then inverts that encryption — the collaborator's
/// contract — smudge returns exactly `p` and records its digest,
/// re-establishing the baseline the next clean compares against.
pub proof fn lemma_round_trip(m: Map<Seq<char>, Seq<u8>>, f: Seq<char>, p: Seq<u8>)
    ensures
        smudge_spec(m, f, Some(p)) == (SmudgeModel::Accepted {
            output: p,
            store: m.insert(f, blake3_of(p)),
        }),
        clean_hit(smudge_spec(m, f, Some(p))->Accepted_store, f, p),
{
}

} // verus!
