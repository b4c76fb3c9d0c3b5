//! Transparent-encryption filter core for a version-control working tree.
//!
//! Files are stored encrypted in history and presented as plaintext on
//! checkout.  The library holds the verified protocol logic: the content-hash
//! sidecar store that makes re-encryption idempotent, the recipient-rule
//! resolver that maps a file path to its authorized recipients, and the
//! clean / smudge / textconv orchestration steps.  Actual encryption,
//! repository access and rule-tree evaluation are collaborators driven by the
//! surrounding shell; their results enter the library as plain values.

pub mod digest;
pub mod errors;
pub mod filter;
pub mod rules;
pub mod sidecar;
pub mod value;
