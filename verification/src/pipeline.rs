//! Per-spec pipeline decisions and whole-run aggregation: download buffer
//! sizing under the hard size cap, output naming, and the rule that one
//! failed spec fails the run without touching its siblings.

use vstd::prelude::*;

use crate::cache::{archive_base_name, artifact_file_name, base_name};

verus! {

/// The hard cap on a downloaded artifact's size, in bytes: a misbehaving
/// server must not be able to exhaust memory.
pub const CRATE_SIZE_LIMIT: u64 = 40 * 1024 * 1024;

/// The buffer size for a download: exactly the advertised content length
/// when the server gives one, otherwise the cap.
pub fn fetch_buffer_size(content_length: Option<u64>, cap: u64) -> (r: u64)
    ensures
        r == match content_length {
            Option::Some(len) => len,
            Option::None => cap,
        },
{
    match content_length {
        Some(len) => len,
        None => cap,
    }
}

/// Whether an explicit output path may be used: only for a single spec.
pub fn output_allowed(spec_count: usize, has_explicit_output: bool) -> (r: bool)
    ensures
        r == !(spec_count > 1 && has_explicit_output),
{
    !(spec_count > 1 && has_explicit_output)
}

/// The output path for an acquisition: the explicit one when given,
/// otherwise `name-version` for an extraction and `name-version.crate` for
/// a plain write.
pub fn default_output(explicit: &Option<String>, name: &str, version: &str, extract: bool) -> (r:
    String)
    ensures
        r@ == match explicit {
            Option::Some(o) => o@,
            Option::None => if extract {
                archive_base_name(name@, version@)
            } else {
                artifact_file_name(name@, version@)
            },
        },
{
    match explicit {
        Some(o) => o.clone(),
        None => {
            if extract {
                base_name(name, version)
            } else {
                crate::cache::artifact_name(name, version)
            }
        },
    }
}

/// One spec's terminal result: the artifact written to a file, extracted
/// into a directory, or failed with a reason. Specs are independent; one
/// outcome never alters another.
pub enum AcquisitionOutcome {
    Written(String),
    Extracted(String),
    Failed(String),
}

/// Whether a whole run succeeded: exactly when no spec failed. A failing
/// spec fails the run; the others still stand.
pub fn overall_success(outcomes: &Vec<AcquisitionOutcome>) -> (r: bool)
    ensures
        r == (forall|i: int| 0 <= i < outcomes@.len() ==> !(outcomes@[i] is Failed)),
{
    let n = outcomes.len();
    let mut i: usize = 0;
    while i < n
        invariant
            n == outcomes@.len(),
            i <= n,
            forall|j: int| 0 <= j < i ==> !(outcomes@[j] is Failed),
        decreases n - i,
    {
        match &outcomes[i] {
            AcquisitionOutcome::Failed(_) => {
                return false;
            },
            _ => {},
        }
        i += 1;
    }
    true
}

} // verus!
