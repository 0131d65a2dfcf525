//! Extraction planning for archive entries: reject any entry path that
//! could escape the destination, and strip the conventional `name-version`
//! prefix from the rest.
//!
//! Entry paths are byte strings with `/` as the separator (byte 47); a
//! parent-directory component is `..` (two bytes 46) standing alone between
//! separators or string ends, and a rooted path starts with the separator.

use vstd::prelude::*;

use crate::integrity::bytes_equal;
use vstd::slice::{slice_subrange, slice_to_vec};

verus! {

/// A parent-directory component `..` starts at `i`: bounded by separators
/// or the ends of the path.
pub open spec fn dotdot_at(p: Seq<u8>, i: int) -> bool {
    &&& 0 <= i
    &&& i + 2 <= p.len()
    &&& p[i] == 46u8
    &&& p[i + 1] == 46u8
    &&& (i == 0 || p[i - 1] == 47u8)
    &&& (i + 2 == p.len() || p[i + 2] == 47u8)
}

/// The path contains a parent-directory component.
pub open spec fn has_parent_component(p: Seq<u8>) -> bool {
    exists|i: int| dotdot_at(p, i)
}

/// The path is rooted: it starts with the separator.
pub open spec fn is_rooted(p: Seq<u8>) -> bool {
    p.len() > 0 && p[0] == 47u8
}

/// An entry path that must never be extracted: it is rooted or steps to a
/// parent directory, so it could escape the destination.
pub open spec fn unsafe_entry_path(p: Seq<u8>) -> bool {
    is_rooted(p) || has_parent_component(p)
}

/// Decide whether an entry path could escape the destination.
pub fn entry_path_is_unsafe(path: &[u8]) -> (r: bool)
    ensures
        r == unsafe_entry_path(path@),
{
    let n = path.len();
    if n > 0 && path[0] == 47u8 {
        return true;
    }
    let mut i: usize = 0;
    while i < n
        invariant
            n == path@.len(),
            i <= n,
            forall|j: int| 0 <= j < i ==> !dotdot_at(path@, j),
        decreases n - i,
    {
        let found = n - i >= 2 && path[i] == 46u8 && path[i + 1] == 46u8 && (i == 0 || path[i - 1]
            == 47u8) && (n - i == 2 || path[i + 2] == 47u8);
        if found {
            assert(dotdot_at(path@, i as int));
            return true;
        }
        i += 1;
    }
    assert forall|j: int| !dotdot_at(path@, j) by {
        if 0 <= j < n {
            assert(!dotdot_at(path@, j));
        }
    }
    false
}

/// Stripping the expected `base` prefix from an entry path: the remainder
/// after `base` and one separator, the empty path when the entry is exactly
/// `base`, and nothing when the entry does not sit under `base`.
pub open spec fn strips_to(p: Seq<u8>, base: Seq<u8>) -> Option<Seq<u8>> {
    if p == base {
        Option::Some(Seq::empty())
    } else if p.len() > base.len() && p.take(base.len() as int) == base && p[base.len() as int]
        == 47u8 {
        Option::Some(p.skip(base.len() as int + 1))
    } else {
        Option::None
    }
}

/// Why a single archive entry was rejected.
#[derive(Clone, Copy, Debug, PartialEq, Eq, Structural)]
pub enum EntryError {
    /// The entry path is rooted or contains a parent-directory component.
    UnsafePath,
    /// The entry path does not sit under the expected `name-version`
    /// directory.
    PrefixMismatch,
}

/// Plan one archive entry: reject an unsafe path before anything else, then
/// strip the expected `base` prefix; the returned path is the one to create
/// under the destination.
pub fn plan_entry(path: &[u8], base: &[u8]) -> (r: Result<Vec<u8>, EntryError>)
    ensures
        r is Ok <==> (!unsafe_entry_path(path@) && strips_to(path@, base@) is Some),
        r matches Ok(rel) ==> strips_to(path@, base@) == Option::Some(rel@),
        r matches Err(e) ==> (e is UnsafePath <==> unsafe_entry_path(path@)),
        r matches Err(e) ==> (e is PrefixMismatch ==> strips_to(path@, base@) is None),
{
    if entry_path_is_unsafe(path) {
        return Err(EntryError::UnsafePath);
    }
    let n = path.len();
    let b = base.len();
    if n == b {
        if bytes_equal(path, base) {
            assert(path@ == base@);
            return Ok(Vec::new());
        }
        proof {
            assert(path@.len() == base@.len());
            assert(path@ != base@);
        }
        return Err(EntryError::PrefixMismatch);
    }
    if n > b {
        let head = slice_subrange(path, 0, b);
        if bytes_equal(head, base) && path[b] == 47u8 {
            let tail = slice_subrange(path, b + 1, n);
            let rel = slice_to_vec(tail);
            proof {
                assert(path@ != base@);
                assert(strips_to(path@, base@) == Option::Some(rel@));
            }
            return Ok(rel);
        }
        return Err(EntryError::PrefixMismatch);
    }
    proof {
        assert(path@.len() < base@.len());
        assert(path@ != base@);
    }
    Err(EntryError::PrefixMismatch)
}

/// Why a whole extraction was aborted: the first offending entry and its
/// fault.
#[derive(Debug)]
pub struct ExtractError {
    pub index: usize,
    pub kind: EntryError,
}

/// Plan a whole extraction: every entry in order, stopping at the first
/// entry that is unsafe or lies outside the expected `base` directory.
/// Nothing at all is planned for a rejected entry or for those after it.
pub fn plan_extraction(paths: &Vec<Vec<u8>>, base: &[u8]) -> (r: Result<Vec<Vec<u8>>, ExtractError>)
    ensures
        r matches Ok(rels) ==> rels@.len() == paths@.len() && (forall|j: int|
            0 <= j < paths@.len() ==> !unsafe_entry_path(paths@[j]@) && strips_to(
                paths@[j]@,
                base@,
            ) == Option::Some(rels@[j]@)),
        r matches Err(e) ==> e.index < paths@.len() && (e.kind is UnsafePath
            <==> unsafe_entry_path(paths@[e.index as int]@)) && (e.kind is PrefixMismatch
            ==> strips_to(paths@[e.index as int]@, base@) is None) && (forall|j: int|
            0 <= j < e.index ==> !unsafe_entry_path(paths@[j]@) && strips_to(paths@[j]@, base@)
                is Some),
{
    let n = paths.len();
    let mut rels: Vec<Vec<u8>> = Vec::new();
    let mut i: usize = 0;
    while i < n
        invariant
            n == paths@.len(),
            i <= n,
            rels@.len() == i,
            forall|j: int|
                0 <= j < i ==> !unsafe_entry_path(paths@[j]@) && strips_to(paths@[j]@, base@)
                    == Option::Some(rels@[j]@),
        decreases n - i,
    {
        match plan_entry(paths[i].as_slice(), base) {
            Ok(rel) => {
                rels.push(rel);
            },
            Err(kind) => {
                return Err(ExtractError { index: i, kind });
            },
        }
        i += 1;
    }
    Ok(rels)
}

} // verus!
