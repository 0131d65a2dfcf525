//! Cache probing: derive the cache directory from a registry index path,
//! name the cached artifact file, and serve a cached entry only when its
//! digest matches the recorded checksum.

use vstd::prelude::*;

use crate::integrity::{sha256_of, verify_integrity};

verus! {

/// The conventional `name-version` stem of an artifact.
pub open spec fn archive_base_name(name: Seq<char>, version: Seq<char>) -> Seq<char> {
    name + seq!['-'] + version
}

/// The conventional `name-version.crate` artifact file name.
pub open spec fn artifact_file_name(name: Seq<char>, version: Seq<char>) -> Seq<char> {
    archive_base_name(name, version) + ".crate"@
}

/// Build the `name-version` stem.
pub fn base_name(name: &str, version: &str) -> (r: String)
    ensures
        r@ == archive_base_name(name@, version@),
{
    let mut out = String::new();
    out.append(name);
    proof {
        reveal_strlit("-");
    }
    assert(("-")@ =~= seq!['-']);
    out.append("-");
    out.append(version);
    out
}

/// Build the `name-version.crate` artifact file name.
pub fn artifact_name(name: &str, version: &str) -> (r: String)
    ensures
        r@ == artifact_file_name(name@, version@),
{
    let mut out = base_name(name, version);
    out.append(".crate");
    out
}

/// Why a registry index path yields no cache directory.
#[derive(Clone, Copy, Debug, PartialEq, Eq, Structural)]
pub enum CacheDirError {
    /// The index path has too few components.
    MissingComponent,
    /// The path does not end in `registry/index/<dirname>`.
    UnexpectedStructure,
}

/// Derive the cache directory from a registry's local index path, both
/// given as path components. The index path must end in
/// `registry/index/<dirname>`; the cache directory is then the same root
/// followed by `registry/cache/<dirname>`.
pub fn cache_dir_components(index_path: &Vec<String>) -> (r: Result<Vec<String>, CacheDirError>)
    ensures
        r is Ok <==> (index_path@.len() >= 3 && index_path@[index_path@.len() - 2]@ == "index"@
            && index_path@[index_path@.len() - 3]@ == "registry"@),
        r matches Ok(d) ==> d.deep_view() =~= index_path.deep_view().take(
            index_path@.len() - 3,
        ).push("registry"@).push("cache"@).push(index_path@[index_path@.len() - 1]@),
        r matches Err(e) ==> (e is MissingComponent <==> index_path@.len() < 3),
{
    let n = index_path.len();
    if n < 3 {
        return Err(CacheDirError::MissingComponent);
    }
    let registry_str = String::from_str("registry");
    let index_str = String::from_str("index");
    let cache_str = String::from_str("cache");
    let parent: &String = &index_path[n - 2];
    let grandparent: &String = &index_path[n - 3];
    if !parent.eq(&index_str) || !grandparent.eq(&registry_str) {
        return Err(CacheDirError::UnexpectedStructure);
    }
    let mut out: Vec<String> = Vec::new();
    let mut i: usize = 0;
    while i < n - 3
        invariant
            n == index_path@.len(),
            n >= 3,
            i <= n - 3,
            out@ == index_path@.take(i as int),
        decreases n - 3 - i,
    {
        let component: String = index_path[i].clone();
        out.push(component);
        proof {
            assert(out@ =~= index_path@.take(i + 1 as int));
        }
        i += 1;
    }
    out.push(registry_str);
    out.push(cache_str);
    let dirname: String = index_path[n - 1].clone();
    out.push(dirname);
    proof {
        assert(out.deep_view() =~= index_path.deep_view().take(index_path@.len() - 3).push(
            "registry"@,
        ).push("cache"@).push(index_path@[index_path@.len() - 1]@));
    }
    Ok(out)
}

/// Whether a probed cache entry may be served: the file exists and its
/// bytes hash to the expected checksum.
pub open spec fn cache_entry_valid(contents: Option<Vec<u8>>, expected: Seq<u8>) -> bool {
    match contents {
        Option::Some(d) => sha256_of(d@) == expected,
        Option::None => false,
    }
}

/// Probe candidate cache entries in order (absent files as `None`): the
/// first whose digest matches the expected checksum wins; a mismatch is
/// never served and counts as a miss.
pub fn first_valid_cache_entry(candidates: &Vec<Option<Vec<u8>>>, expected: &[u8]) -> (r: Option<
    usize,
>)
    ensures
        r matches Some(i) ==> i < candidates@.len() && cache_entry_valid(
            candidates@[i as int],
            expected@,
        ) && (forall|j: int| 0 <= j < i ==> !cache_entry_valid(candidates@[j], expected@)),
        r is None ==> (forall|j: int|
            0 <= j < candidates@.len() ==> !cache_entry_valid(candidates@[j], expected@)),
{
    let n = candidates.len();
    let mut i: usize = 0;
    while i < n
        invariant
            n == candidates@.len(),
            i <= n,
            forall|j: int| 0 <= j < i ==> !cache_entry_valid(candidates@[j], expected@),
        decreases n - i,
    {
        match &candidates[i] {
            Some(d) => {
                if verify_integrity(d.as_slice(), expected).is_ok() {
                    return Some(i);
                }
            },
            None => {},
        }
        i += 1;
    }
    None
}

} // verus!
