use anytree::index_path::name_to_index_path;
use anytree::suffix::{get_registry_path, get_suffix_hash, SourceKind};

#[test]
fn test_name_to_index() {
    assert_eq!("1/a", name_to_index_path("a"));
    assert_eq!("2/aa", name_to_index_path("aa"));
    assert_eq!("3/r/ryu", name_to_index_path("ryu"));
    assert_eq!("se/rd/serde", name_to_index_path("serde"));
}

#[test]
fn helper_test_name_to_index() {
    assert_eq!("1/a", name_to_index_path("a"));
    assert_eq!("2/aa", name_to_index_path("aa"));
    assert_eq!("3/r/ryu", name_to_index_path("ryu"));
    assert_eq!("se/rd/serde", name_to_index_path("serde"));
}

#[test]
fn test_suffix() {
    assert_eq!(
        "1ecc6299db9ec823",
        get_suffix_hash(
            "https://github.com/rust-lang/crates.io-index",
            Some(SourceKind::_Registry)
        )
    );
    assert_eq!(
        "6f17d22bba15001f",
        get_suffix_hash("sparse+https://index.crates.io/", Some(SourceKind::SparseRegistry))
    );
    assert_eq!(
        "f9cb9f02e39b3874",
        get_suffix_hash("https://github.com/silkovalexander/simple_lib", None)
    );
}

#[test]
fn test_suffix_trims_git_and_lowercases() {
    let plain = get_suffix_hash("https://github.com/silkovalexander/simple_lib", None);
    let with_git = get_suffix_hash("https://github.com/silkovalexander/simple_lib.git", None);
    let upper = get_suffix_hash("HTTPS://GITHUB.COM/SILKOVALEXANDER/SIMPLE_LIB", None);
    assert_eq!(plain, with_git);
    assert_eq!(plain, upper);
}

#[test]
fn test_suffix_kind_changes_hash() {
    let url = "https://github.com/rust-lang/crates.io-index";
    let none = get_suffix_hash(url, None);
    let registry = get_suffix_hash(url, Some(SourceKind::_Registry));
    let git = get_suffix_hash(url, Some(SourceKind::_Git));
    assert_ne!(none, registry);
    assert_ne!(none, git);
    assert_ne!(registry, git);
}

#[test]
fn test_registry_path_is_fixed() {
    assert_eq!("index.crates.io-6f17d22bba15001f", get_registry_path());
}

#[test]
fn test_index_path_length_sweep() {
    let name = "abcdefghij";
    for len in 1..=name.len() {
        let n = &name[..len];
        let mapped = name_to_index_path(n);
        let expected = match len {
            1 => format!("1/{}", n),
            2 => format!("2/{}", n),
            3 => format!("3/{}/{}", &n[..1], n),
            _ => format!("{}/{}/{}", &n[..2], &n[2..4], n),
        };
        assert_eq!(expected, mapped);
    }
}
