//! The on-disk layout of the dependency cache.
//!
//! All paths live under one cache root: the registry keeps its index,
//! archive cache and extracted sources under `registry/`, git dependencies
//! keep a bare clone under `git/db/` and working checkouts under
//! `git/checkouts/`.  Every path is fixed here, as a spec function over the
//! root and the dependency's coordinates, with a verified builder beside
//! it.

use vstd::prelude::*;
use vstd::string::*;
use vstd::utf8::*;

use crate::index_path::{index_dir_spec, index_path_spec, name_to_index_dir, name_to_index_path};
use crate::suffix::{get_registry_path, get_suffix_hash, registry_dir_name_spec, suffix_hash_spec};

verus! {

/// `<name>-<version>`: the directory and archive stem of a package.
pub open spec fn pkg_full_name(name: Seq<char>, version: Seq<char>) -> Seq<char> {
    name + "-"@ + version
}

/// `<root>/registry/index/<registry dir>`: where the index lives.
pub open spec fn reg_index_dir(root: Seq<char>) -> Seq<char> {
    root + "/registry/index/"@ + registry_dir_name_spec()
}

/// `<root>/registry/index/<registry dir>/.cache`: the binary index cache.
pub open spec fn reg_index_cache_dir(root: Seq<char>) -> Seq<char> {
    reg_index_dir(root) + "/.cache"@
}

/// `<root>/registry/index/<registry dir>/config.json`.
pub open spec fn reg_config_path(root: Seq<char>) -> Seq<char> {
    reg_index_dir(root) + "/config.json"@
}

/// `<root>/registry/cache/<registry dir>`: where archives are kept.
pub open spec fn reg_cache_dir(root: Seq<char>) -> Seq<char> {
    root + "/registry/cache/"@ + registry_dir_name_spec()
}

/// The archive path of one package.
pub open spec fn reg_archive_path(root: Seq<char>, name: Seq<char>, version: Seq<char>) -> Seq<
    char,
> {
    reg_cache_dir(root) + "/"@ + pkg_full_name(name, version) + ".crate"@
}

/// `<root>/registry/src/<registry dir>`: where sources are extracted.
pub open spec fn reg_src_dir(root: Seq<char>) -> Seq<char> {
    root + "/registry/src/"@ + registry_dir_name_spec()
}

/// The extracted source directory of one package.
pub open spec fn reg_pkg_dir(root: Seq<char>, name: Seq<char>, version: Seq<char>) -> Seq<char> {
    reg_src_dir(root) + "/"@ + pkg_full_name(name, version)
}

/// The `.cargo-ok` marker inside an extracted package.
pub open spec fn reg_cargo_ok_path(root: Seq<char>, name: Seq<char>, version: Seq<char>) -> Seq<
    char,
> {
    reg_pkg_dir(root, name, version) + "/.cargo-ok"@
}

/// The binary index cache file of one package.
pub open spec fn reg_index_file_path(root: Seq<char>, name: Seq<char>) -> Seq<char> {
    reg_index_cache_dir(root) + "/"@ + index_path_spec(name)
}

/// The directory that holds the binary index cache file of one package.
pub open spec fn reg_index_parent_dir(root: Seq<char>, name: Seq<char>) -> Seq<char> {
    reg_index_cache_dir(root) + "/"@ + index_dir_spec(name)
}

/// The upstream URL of a package's index listing.
pub open spec fn crate_index_url(name: Seq<char>) -> Seq<char> {
    "https://github.com/rust-lang/crates.io-index/raw/master/"@ + index_path_spec(name)
}

/// The default index configuration written once per cache root.
pub open spec fn default_index_config() -> Seq<u8> {
    encode_utf8(
        "{\n  \"dl\": \"https://crates.io/api/v1/crates\",\n  \"api\": \"https://crates.io\"\n}"@,
    )
}

/// The two bytes of the registry `.cargo-ok` marker.
pub open spec fn cargo_ok_bytes() -> Seq<u8> {
    encode_utf8("ok"@)
}

/// `<root>/git`: the root of the git cache.
pub open spec fn git_root_dir(root: Seq<char>) -> Seq<char> {
    root + "/git"@
}

/// `<root>/git/CACHEDIR.TAG`.
pub open spec fn cachedir_tag_path(root: Seq<char>) -> Seq<char> {
    root + "/git/CACHEDIR.TAG"@
}

/// The fixed cache directory tag contents.
pub open spec fn cachedir_tag_bytes() -> Seq<u8> {
    encode_utf8(
        "Signature: 8a477f597d28d172789f06886806bc55\n# This file is a cache directory tag created by cargo.\n# For information about cache directory tags see https://bford.info/cachedir/\n"@,
    )
}

/// `<name>-<suffix of url>`: the directory stem of a git dependency.
pub open spec fn git_pkg_dir_name(name: Seq<char>, url: Seq<char>) -> Seq<char> {
    name + "-"@ + suffix_hash_spec(url, None)
}

/// The bare clone directory of a git dependency.
pub open spec fn git_db_dir(root: Seq<char>, name: Seq<char>, url: Seq<char>) -> Seq<char> {
    root + "/git/db/"@ + git_pkg_dir_name(name, url)
}

/// `refs/remotes/origin` inside the bare clone.
pub open spec fn git_ref_dir(root: Seq<char>, name: Seq<char>, url: Seq<char>) -> Seq<char> {
    git_db_dir(root, name, url) + "/refs/remotes/origin"@
}

/// The synthetic `HEAD` ref file inside the bare clone.
pub open spec fn git_head_path(root: Seq<char>, name: Seq<char>, url: Seq<char>) -> Seq<char> {
    git_ref_dir(root, name, url) + "/HEAD"@
}

/// The `tags` directory inside the bare clone's refs.
pub open spec fn git_tags_dir(root: Seq<char>, name: Seq<char>, url: Seq<char>) -> Seq<char> {
    git_ref_dir(root, name, url) + "/tags"@
}

/// The synthetic tag ref file inside the bare clone.
pub open spec fn git_tag_path(
    root: Seq<char>,
    name: Seq<char>,
    url: Seq<char>,
    tag: Seq<char>,
) -> Seq<char> {
    git_tags_dir(root, name, url) + "/"@ + tag
}

/// The first seven characters of a commit hash (all of it when shorter).
pub open spec fn commit7(commit: Seq<char>) -> Seq<char> {
    if commit.len() <= 7 {
        commit
    } else {
        commit.take(7)
    }
}

/// The working checkout directory of a git dependency at a commit.
pub open spec fn git_checkout_dir(
    root: Seq<char>,
    name: Seq<char>,
    url: Seq<char>,
    commit: Seq<char>,
) -> Seq<char> {
    root + "/git/checkouts/"@ + git_pkg_dir_name(name, url) + "/"@ + commit7(commit)
}

/// The empty `.cargo-ok` marker inside a checkout.
pub open spec fn git_checkout_ok_path(
    root: Seq<char>,
    name: Seq<char>,
    url: Seq<char>,
    commit: Seq<char>,
) -> Seq<char> {
    git_checkout_dir(root, name, url, commit) + "/.cargo-ok"@
}

fn join3(a: &str, b: &str, c: &str) -> (r: String)
    ensures
        r@ == a@ + b@ + c@,
{
    let mut r = String::from_str(a);
    r.append(b);
    r.append(c);
    r
}

/// Builds `<root>/registry/index/<registry dir>`.
pub fn build_reg_index_dir(root: &str) -> (r: String)
    ensures
        r@ == reg_index_dir(root@),
{
    let reg = get_registry_path();
    join3(root, "/registry/index/", reg.as_str())
}

/// Builds the `.cache` directory of the index.
pub fn build_reg_index_cache_dir(root: &str) -> (r: String)
    ensures
        r@ == reg_index_cache_dir(root@),
{
    let mut r = build_reg_index_dir(root);
    r.append("/.cache");
    r
}

/// Builds the path of `config.json`.
pub fn build_reg_config_path(root: &str) -> (r: String)
    ensures
        r@ == reg_config_path(root@),
{
    let mut r = build_reg_index_dir(root);
    r.append("/config.json");
    r
}

/// Builds `<root>/registry/cache/<registry dir>`.
pub fn build_reg_cache_dir(root: &str) -> (r: String)
    ensures
        r@ == reg_cache_dir(root@),
{
    let reg = get_registry_path();
    join3(root, "/registry/cache/", reg.as_str())
}

/// Builds the archive path of a package.
pub fn build_reg_archive_path(root: &str, name: &str, version: &str) -> (r: String)
    ensures
        r@ == reg_archive_path(root@, name@, version@),
{
    let mut r = build_reg_cache_dir(root);
    r.append("/");
    r.append(name);
    r.append("-");
    r.append(version);
    r.append(".crate");
    proof {
        assert(r@ =~= reg_archive_path(root@, name@, version@));
    }
    r
}

/// Builds `<root>/registry/src/<registry dir>`.
pub fn build_reg_src_dir(root: &str) -> (r: String)
    ensures
        r@ == reg_src_dir(root@),
{
    let reg = get_registry_path();
    join3(root, "/registry/src/", reg.as_str())
}

/// Builds the extracted source directory of a package.
pub fn build_reg_pkg_dir(root: &str, name: &str, version: &str) -> (r: String)
    ensures
        r@ == reg_pkg_dir(root@, name@, version@),
{
    let mut r = build_reg_src_dir(root);
    r.append("/");
    r.append(name);
    r.append("-");
    r.append(version);
    proof {
        assert(r@ =~= reg_pkg_dir(root@, name@, version@));
    }
    r
}

/// Builds the `.cargo-ok` path of an extracted package.
pub fn build_reg_cargo_ok_path(root: &str, name: &str, version: &str) -> (r: String)
    ensures
        r@ == reg_cargo_ok_path(root@, name@, version@),
{
    let mut r = build_reg_pkg_dir(root, name, version);
    r.append("/.cargo-ok");
    r
}

/// Builds the binary index cache file path of a package.
pub fn build_reg_index_file_path(root: &str, name: &str) -> (r: String)
    requires
        name.is_ascii(),
        name@.len() >= 1,
    ensures
        r@ == reg_index_file_path(root@, name@),
{
    let mut r = build_reg_index_cache_dir(root);
    r.append("/");
    let ip = name_to_index_path(name);
    r.append(ip.as_str());
    r
}

/// Builds the directory of the binary index cache file of a package.
pub fn build_reg_index_parent_dir(root: &str, name: &str) -> (r: String)
    requires
        name.is_ascii(),
        name@.len() >= 1,
    ensures
        r@ == reg_index_parent_dir(root@, name@),
{
    let mut r = build_reg_index_cache_dir(root);
    r.append("/");
    let ip = name_to_index_dir(name);
    r.append(ip.as_str());
    r
}

/// Builds the upstream URL of a package's index listing.
pub fn build_crate_index_url(name: &str) -> (r: String)
    requires
        name.is_ascii(),
        name@.len() >= 1,
    ensures
        r@ == crate_index_url(name@),
{
    let mut r = String::from_str("https://github.com/rust-lang/crates.io-index/raw/master/");
    let ip = name_to_index_path(name);
    r.append(ip.as_str());
    r
}

/// Builds the default index configuration bytes.
pub fn build_default_index_config() -> (r: Vec<u8>)
    ensures
        r@ == default_index_config(),
{
    "{\n  \"dl\": \"https://crates.io/api/v1/crates\",\n  \"api\": \"https://crates.io\"\n}".as_bytes_vec()
}

/// Builds the registry `.cargo-ok` marker bytes.
pub fn build_cargo_ok_bytes() -> (r: Vec<u8>)
    ensures
        r@ == cargo_ok_bytes(),
{
    "ok".as_bytes_vec()
}

/// Builds `<root>/git`.
pub fn build_git_root_dir(root: &str) -> (r: String)
    ensures
        r@ == git_root_dir(root@),
{
    let mut r = String::from_str(root);
    r.append("/git");
    r
}

/// Builds `<root>/git/CACHEDIR.TAG`.
pub fn build_cachedir_tag_path(root: &str) -> (r: String)
    ensures
        r@ == cachedir_tag_path(root@),
{
    let mut r = String::from_str(root);
    r.append("/git/CACHEDIR.TAG");
    r
}

/// Builds the cache directory tag contents.
pub fn build_cachedir_tag_bytes() -> (r: Vec<u8>)
    ensures
        r@ == cachedir_tag_bytes(),
{
    "Signature: 8a477f597d28d172789f06886806bc55\n# This file is a cache directory tag created by cargo.\n# For information about cache directory tags see https://bford.info/cachedir/\n".as_bytes_vec()
}

/// Builds the bare clone directory of a git dependency.
pub fn build_git_db_dir(root: &str, name: &str, url: &str) -> (r: String)
    ensures
        r@ == git_db_dir(root@, name@, url@),
{
    let sfx = get_suffix_hash(url, None);
    let mut r = String::from_str(root);
    r.append("/git/db/");
    r.append(name);
    r.append("-");
    r.append(sfx.as_str());
    proof {
        assert(r@ =~= git_db_dir(root@, name@, url@));
    }
    r
}

/// Builds `refs/remotes/origin` inside the bare clone.
pub fn build_git_ref_dir(root: &str, name: &str, url: &str) -> (r: String)
    ensures
        r@ == git_ref_dir(root@, name@, url@),
{
    let mut r = build_git_db_dir(root, name, url);
    r.append("/refs/remotes/origin");
    r
}

/// Builds the synthetic `HEAD` ref path.
pub fn build_git_head_path(root: &str, name: &str, url: &str) -> (r: String)
    ensures
        r@ == git_head_path(root@, name@, url@),
{
    let mut r = build_git_ref_dir(root, name, url);
    r.append("/HEAD");
    r
}

/// Builds the `tags` directory inside the bare clone's refs.
pub fn build_git_tags_dir(root: &str, name: &str, url: &str) -> (r: String)
    ensures
        r@ == git_tags_dir(root@, name@, url@),
{
    let mut r = build_git_ref_dir(root, name, url);
    r.append("/tags");
    r
}

/// Builds the synthetic tag ref path.
pub fn build_git_tag_path(root: &str, name: &str, url: &str, tag: &str) -> (r: String)
    ensures
        r@ == git_tag_path(root@, name@, url@, tag@),
{
    let mut r = build_git_tags_dir(root, name, url);
    r.append("/");
    r.append(tag);
    r
}

/// Builds the working checkout directory of a git dependency.
pub fn build_git_checkout_dir(root: &str, name: &str, url: &str, commit: &str) -> (r: String)
    ensures
        r@ == git_checkout_dir(root@, name@, url@, commit@),
{
    let sfx = get_suffix_hash(url, None);
    let commit_len = commit.unicode_len();
    let short = if commit_len <= 7 {
        commit.substring_char(0, commit_len)
    } else {
        commit.substring_char(0, 7)
    };
    proof {
        assert(short@ =~= commit7(commit@));
    }
    let mut r = String::from_str(root);
    r.append("/git/checkouts/");
    r.append(name);
    r.append("-");
    r.append(sfx.as_str());
    r.append("/");
    r.append(short);
    proof {
        assert(r@ =~= git_checkout_dir(root@, name@, url@, commit@));
    }
    r
}

/// Builds the `.cargo-ok` marker path inside a checkout.
pub fn build_git_checkout_ok_path(root: &str, name: &str, url: &str, commit: &str) -> (r: String)
    ensures
        r@ == git_checkout_ok_path(root@, name@, url@, commit@),
{
    let mut r = build_git_checkout_dir(root, name, url, commit);
    r.append("/.cargo-ok");
    r
}

} // verus!
