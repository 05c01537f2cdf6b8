use warp_runner::cache::{cache_entry_path, cache_key, cache_path, join, resolve_cache_path};
use warp_runner::error::ConfigError;

#[test]
fn key_is_name_dot_build() {
    assert_eq!(cache_key("app", "DR1PWsJsM6KxNbng9Y38"), "app.DR1PWsJsM6KxNbng9Y38");
    assert_eq!(cache_key("app.exe", "1"), "app.exe.1");
    assert_eq!(cache_key("", ""), ".");
}

#[test]
fn builds_of_one_executable_have_entries_of_their_own() {
    let first = cache_key("app", "build-1");
    let second = cache_key("app", "build-2");
    assert_ne!(first, second);
    assert_ne!(cache_entry_path("/tmp/xyz", &first), cache_entry_path("/tmp/xyz", &second));
}

#[test]
fn join_puts_one_separator_between() {
    assert_eq!(join("/tmp/xyz", "packages"), "/tmp/xyz/packages");
    assert_eq!(join("relative", "below"), "relative/below");
}

#[test]
fn join_adds_no_second_separator() {
    assert_eq!(join("/tmp/xyz/", "packages"), "/tmp/xyz/packages");
    assert_eq!(join("/", "packages"), "/packages");
}

#[test]
fn join_below_the_empty_base_is_the_segment() {
    assert_eq!(join("", "packages"), "packages");
}

#[test]
fn join_keeps_the_segment_as_it_is() {
    assert_eq!(join("/tmp", "/abs"), "/tmp//abs");
    assert_eq!(join("/tmp", ""), "/tmp/");
    assert_eq!(join("/t\u{e9}mp", "d\u{e9}j\u{e0}"), "/t\u{e9}mp/d\u{e9}j\u{e0}");
}

#[test]
fn entry_lies_below_packages() {
    assert_eq!(cache_entry_path("/tmp/xyz", "app.uid"), "/tmp/xyz/packages/app.uid");
    assert_eq!(cache_entry_path("/tmp/xyz/", "app.uid"), "/tmp/xyz/packages/app.uid");
    assert_eq!(cache_entry_path("", "app.uid"), "packages/app.uid");
}

#[test]
fn override_decides_whatever_the_platform_says() {
    let expected = Ok("/tmp/xyz/packages/app.uid".to_string());
    assert_eq!(resolve_cache_path(Some("/tmp/xyz"), None, "app.uid"), expected);
    assert_eq!(
        resolve_cache_path(Some("/tmp/xyz"), Some("/home/alice/.local/share"), "app.uid"),
        expected
    );
    assert_eq!(resolve_cache_path(Some("/tmp/xyz"), Some(""), "app.uid"), expected);
}

#[test]
fn platform_directory_is_the_root_without_an_override() {
    assert_eq!(
        resolve_cache_path(None, Some("/home/alice/.local/share"), "app.uid"),
        Ok("/home/alice/.local/share/packages/app.uid".to_string())
    );
}

#[test]
fn no_root_at_all_is_an_error() {
    assert_eq!(resolve_cache_path(None, None, "app.uid"), Err(ConfigError::NoDataDir));
}

#[test]
fn cache_path_with_override_asks_nobody() {
    assert_eq!(
        cache_path(Some("/tmp/xyz"), "app.uid"),
        Ok("/tmp/xyz/packages/app.uid".to_string())
    );
}

#[test]
fn cache_path_without_override_lies_below_the_platform_directory() {
    let expected = match dirs::data_local_dir() {
        Some(dir) => Ok(cache_entry_path(&dir.to_string_lossy(), "app.uid")),
        None => Err(ConfigError::NoDataDir),
    };
    assert_eq!(cache_path(None, "app.uid"), expected);
    if let Ok(path) = cache_path(None, "app.uid") {
        assert!(path.ends_with("/packages/app.uid"));
        assert_ne!(path, "/packages/app.uid");
    }
}
