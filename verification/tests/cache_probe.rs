//! Cache directory derivation and cache entry probing.

use cargo_dl::cache::{
    artifact_name, base_name, cache_dir_components, first_valid_cache_entry, CacheDirError,
};
use sha2::Digest;

fn components(parts: &[&str]) -> Vec<String> {
    parts.iter().map(|p| (*p).to_owned()).collect()
}

fn digest_of(data: &[u8]) -> Vec<u8> {
    sha2::Sha256::digest(data).to_vec()
}

#[test]
fn artifact_names_follow_the_convention() {
    assert_eq!(base_name("foo", "1.2.0").as_str(), "foo-1.2.0");
    assert_eq!(artifact_name("foo", "1.2.0").as_str(), "foo-1.2.0.crate");
}

#[test]
fn cache_dir_is_derived_from_the_index_path() {
    let index = components(&["home", "user", ".cargo", "registry", "index", "github.com-1ecc6299db9ec823"]);
    let cache = cache_dir_components(&index).unwrap();
    let expected = components(&["home", "user", ".cargo", "registry", "cache", "github.com-1ecc6299db9ec823"]);
    assert_eq!(cache, expected);
}

#[test]
fn short_index_path_is_rejected() {
    let index = components(&["index", "dir"]);
    assert_eq!(cache_dir_components(&index), Err(CacheDirError::MissingComponent));
}

#[test]
fn unexpected_structure_is_rejected() {
    let index = components(&["home", "registry", "cache", "dir"]);
    assert_eq!(cache_dir_components(&index), Err(CacheDirError::UnexpectedStructure));
}

#[test]
fn valid_cache_file_is_served() {
    let data = b"cached artifact".to_vec();
    let expected = digest_of(&data);
    let candidates = vec![Some(data)];
    assert_eq!(first_valid_cache_entry(&candidates, &expected), Some(0));
}

#[test]
fn corrupt_cache_file_counts_as_a_miss() {
    let mut data = b"cached artifact".to_vec();
    let expected = digest_of(&data);
    data[0] ^= 1;
    let candidates = vec![Some(data)];
    assert_eq!(first_valid_cache_entry(&candidates, &expected), None);
}

#[test]
fn missing_cache_file_counts_as_a_miss() {
    let expected = digest_of(b"whatever");
    let candidates: Vec<Option<Vec<u8>>> = vec![None, None];
    assert_eq!(first_valid_cache_entry(&candidates, &expected), None);
}

#[test]
fn first_valid_root_wins() {
    let data = b"the artifact".to_vec();
    let expected = digest_of(&data);
    let mut corrupt = data.clone();
    corrupt[5] ^= 0xff;
    let candidates = vec![None, Some(corrupt), Some(data.clone()), Some(data)];
    assert_eq!(first_valid_cache_entry(&candidates, &expected), Some(2));
}
