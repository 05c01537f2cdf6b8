//! Where the cache entry of one build lies on disk.
//!
//! The entry of a build is the directory `<root>/packages/<key>`. The root is
//! given by the operator, or else it is the platform's directory for local
//! application data. The key is the file name of the running executable, a
//! dot, and the build identifier, so that the builds of one application lie
//! side by side under one root and none invalidates another.
//!
//! Paths are texts whose parts are separated by `/`.

use vstd::prelude::*;
use vstd::string::*;
use crate::error::ConfigError;

verus! {

/// The text `packages`: the directory under the cache root that holds the entries.
pub open spec fn packages_text() -> Seq<char> {
    seq!['p', 'a', 'c', 'k', 'a', 'g', 'e', 's']
}

/// The path of `segment` below the directory `base`.
///
/// Exactly one separator stands between the two: a base that ends in one
/// gets no second one. The empty base is the current directory, and the path
/// below it is the segment alone.
pub open spec fn joined(base: Seq<char>, segment: Seq<char>) -> Seq<char> {
    if base.len() == 0 || base.last() == '/' {
        base + segment
    } else {
        base + seq!['/'] + segment
    }
}

/// The key of a build: the executable's file name, a dot, the build identifier.
pub open spec fn cache_key_text(exe_name: Seq<char>, build_uid: Seq<char>) -> Seq<char> {
    exe_name + seq!['.'] + build_uid
}

/// The path of the cache entry with key `key` under the cache root `root`.
pub open spec fn entry_path(root: Seq<char>, key: Seq<char>) -> Seq<char> {
    joined(joined(root, packages_text()), key)
}

/// The cache root: the operator's choice where there is one, and else the
/// platform's data directory, if it has one.
pub open spec fn cache_root(cache_override: Option<Seq<char>>, data_dir: Option<Seq<char>>) -> Option<Seq<char>> {
    match cache_override {
        Some(root) => Some(root),
        None => data_dir,
    }
}

/// The text of an optional string.
pub open spec fn text_of(s: Option<&str>) -> Option<Seq<char>> {
    match s {
        Some(s) => Some(s@),
        None => None,
    }
}

/// `outcome` is the path of the entry `key` under `root`, or the refusal that
/// is due where there is no root.
pub open spec fn is_resolution(root: Option<Seq<char>>, key: Seq<char>, outcome: Result<String, ConfigError>) -> bool {
    match root {
        Some(root) => outcome matches Ok(path) && path@ == entry_path(root, key),
        None => outcome matches Err(e) && e is NoDataDir,
    }
}

/// With a cache root chosen by the operator, the entry of `key` lies at
/// `<chosen>/packages/<key>`, whatever the platform's data directory is.
///
/// The text of the path is spelled out for a root that is not empty and does
/// not end in a separator.
pub proof fn lemma_override_decides_path(
    chosen: Seq<char>,
    data_dir: Option<Seq<char>>,
    key: Seq<char>,
    outcome: Result<String, ConfigError>,
)
    requires
        is_resolution(cache_root(Some(chosen), data_dir), key, outcome),
    ensures
        outcome matches Ok(path) && path@ == entry_path(chosen, key),
        chosen.len() > 0 && chosen.last() != '/' ==> entry_path(chosen, key) == chosen + seq!['/']
            + packages_text() + seq!['/'] + key,
{
}

/// Two builds of one executable have cache entries of their own under one
/// root: entries at one path are entries of one build.
pub proof fn lemma_builds_do_not_collide(
    root: Seq<char>,
    exe_name: Seq<char>,
    build_uid: Seq<char>,
    other_uid: Seq<char>,
)
    requires
        entry_path(root, cache_key_text(exe_name, build_uid)) == entry_path(
            root,
            cache_key_text(exe_name, other_uid),
        ),
    ensures
        build_uid == other_uid,
{
    let stem = joined(root, packages_text());
    let prefix = if stem.len() == 0 || stem.last() == '/' {
        stem + exe_name + seq!['.']
    } else {
        stem + seq!['/'] + exe_name + seq!['.']
    };
    let here = entry_path(root, cache_key_text(exe_name, build_uid));
    let there = entry_path(root, cache_key_text(exe_name, other_uid));
    assert(here =~= prefix + build_uid);
    assert(there =~= prefix + other_uid);
    assert(build_uid =~= (prefix + build_uid).skip(prefix.len() as int));
    assert(other_uid =~= (prefix + other_uid).skip(prefix.len() as int));
}

/// The path of `segment` below the directory `base`.
pub fn join(base: &str, segment: &str) -> (path: String)
    ensures
        path@ == joined(base@, segment@),
{
    let len = base.unicode_len();
    let mut path = String::from_str(base);
    if len > 0 && base.get_char(len - 1) != '/' {
        proof {
            reveal_strlit("/");
        }
        path.append("/");
        assert(path@ =~= base@ + seq!['/']);
    }
    path.append(segment);
    path
}

/// The key under which the build `build_uid` of the executable named
/// `exe_name` is cached.
pub fn cache_key(exe_name: &str, build_uid: &str) -> (key: String)
    ensures
        key@ == cache_key_text(exe_name@, build_uid@),
{
    proof {
        reveal_strlit(".");
    }
    let mut key = String::from_str(exe_name);
    key.append(".");
    assert(key@ =~= exe_name@ + seq!['.']);
    key.append(build_uid);
    key
}

/// The path of the cache entry with key `key` under the cache root `root`.
pub fn cache_entry_path(root: &str, key: &str) -> (path: String)
    ensures
        path@ == entry_path(root@, key@),
{
    proof {
        reveal_strlit("packages");
    }
    assert("packages"@ =~= packages_text());
    let packages = join(root, "packages");
    join(packages.as_str(), key)
}

/// `dirs::data_local_dir`: the platform's directory for local application
/// data, where it names one. The answer is read from the environment of the
/// process, so nothing is claimed of it.
#[verifier::external_body]
fn platform_data_dir() -> Option<String> {
    match dirs::data_local_dir() {
        Some(dir) => Some(dir.to_string_lossy().into_owned()),
        None => None,
    }
}

/// The path of the cache entry `key`, for the operator's choice of root,
/// `cache_override`, and the platform's data directory `data_dir`.
///
/// The operator's choice wins. Without it the platform's directory is the
/// root, and without both there is no place for the cache.
pub fn resolve_cache_path(cache_override: Option<&str>, data_dir: Option<&str>, key: &str) -> (outcome: Result<String, ConfigError>)
    ensures
        is_resolution(cache_root(text_of(cache_override), text_of(data_dir)), key@, outcome),
{
    match cache_override {
        Some(root) => Ok(cache_entry_path(root, key)),
        None => match data_dir {
            Some(root) => Ok(cache_entry_path(root, key)),
            None => Err(ConfigError::NoDataDir),
        },
    }
}

/// The path of the cache entry `target` on this machine.
///
/// With a root chosen by the operator the path is fixed by it alone. Without
/// one the platform is asked for its data directory, and the path lies under
/// whatever it answers.
pub fn cache_path(cache_override: Option<&str>, target: &str) -> (outcome: Result<String, ConfigError>)
    ensures
        cache_override matches Some(root) ==> is_resolution(Some(root@), target@, outcome),
        cache_override is None ==> exists|data_dir: Option<Seq<char>>|
            is_resolution(data_dir, target@, outcome),
{
    match cache_override {
        Some(root) => resolve_cache_path(Some(root), None, target),
        None => {
            let data_dir = platform_data_dir();
            let outcome = match &data_dir {
                Some(dir) => resolve_cache_path(None, Some(dir.as_str()), target),
                None => resolve_cache_path(None, None, target),
            };
            assert(is_resolution(
                match data_dir {
                    Some(dir) => Some(dir@),
                    None => None,
                },
                target@,
                outcome,
            ));
            outcome
        },
    }
}

} // verus!
