use server_bootstrap::locator::Platform;
use server_bootstrap::locator::bundled_runtime_path;
use server_bootstrap::locator::get_node_path;
use server_bootstrap::locator::get_server_path;
use server_bootstrap::locator::locate_runtime;
use server_bootstrap::locator::locate_script;
use server_bootstrap::locator::script_candidate_paths;
use server_bootstrap::paths::FsPath;

fn path(segs: &[&str]) -> FsPath {
    FsPath { segments: segs.iter().map(|s| s.to_string()).collect() }
}

fn bases() -> Vec<FsPath> {
    vec![path(&["resources"]), path(&["exe_dir"]), path(&["cwd"])]
}

#[test]
fn runtime_windows_layout() {
    let r = bundled_runtime_path(Platform::Windows, &path(&["base"]));
    assert_eq!(r, Some(path(&["base", "bundled", "node", "node.exe"])));
}

#[test]
fn runtime_unix_layout() {
    let expected = path(&["base", "bundled", "node", "bin", "node"]);
    assert_eq!(bundled_runtime_path(Platform::Linux, &path(&["base"])), Some(expected.clone_path()));
    assert_eq!(bundled_runtime_path(Platform::MacOs, &path(&["base"])), Some(expected));
}

#[test]
fn runtime_unknown_platform_has_no_candidate() {
    assert_eq!(bundled_runtime_path(Platform::Other, &path(&["base"])), None);
}

#[test]
fn locate_runtime_prefers_first_base() {
    let r = locate_runtime(Platform::Linux, &bases(), &vec![true, true, true]);
    assert_eq!(r, Some(path(&["resources", "bundled", "node", "bin", "node"])));
}

#[test]
fn locate_runtime_skips_missing_bases() {
    let r = locate_runtime(Platform::Linux, &bases(), &vec![false, true, true]);
    assert_eq!(r, Some(path(&["exe_dir", "bundled", "node", "bin", "node"])));
}

#[test]
fn locate_runtime_none_when_nothing_exists() {
    let r = locate_runtime(Platform::Linux, &bases(), &vec![false, false, false]);
    assert_eq!(r, None);
}

#[test]
fn locate_runtime_none_on_unknown_platform() {
    let r = locate_runtime(Platform::Other, &bases(), &vec![true, true, true]);
    assert_eq!(r, None);
}

#[test]
fn script_candidates_in_preference_order() {
    let c = script_candidate_paths(&path(&["base"]));
    assert_eq!(c.len(), 2);
    assert_eq!(c[0], path(&["base", "bundled", "server", "server.js"]));
    assert_eq!(
        c[1],
        path(&["base", "bundled", "server", ".next", "standalone", "server.js"])
    );
}

#[test]
fn locate_script_prefers_primary_candidate() {
    let r = locate_script(&bases(), &vec![true, true, true, true, true, true]);
    assert_eq!(r, Some(path(&["resources", "bundled", "server", "server.js"])));
}

#[test]
fn locate_script_falls_back_to_standalone() {
    let r = locate_script(&bases(), &vec![false, true, true, false, false, false]);
    assert_eq!(
        r,
        Some(path(&["resources", "bundled", "server", ".next", "standalone", "server.js"]))
    );
}

#[test]
fn locate_script_crosses_to_next_base() {
    let r = locate_script(&bases(), &vec![false, false, true, false, true, false]);
    assert_eq!(r, Some(path(&["exe_dir", "bundled", "server", "server.js"])));
}

#[test]
fn locate_script_none_when_nothing_exists() {
    let r = locate_script(&bases(), &vec![false, false, false, false, false, false]);
    assert_eq!(r, None);
}

#[test]
fn node_path_found_when_bundled_binary_exists() {
    let r = get_node_path(Platform::Windows, &path(&["res"]), true);
    assert_eq!(r, Some(path(&["res", "bundled", "node", "node.exe"])));
}

#[test]
fn node_path_none_when_bundled_binary_missing() {
    assert_eq!(get_node_path(Platform::Windows, &path(&["res"]), false), None);
    assert_eq!(get_node_path(Platform::Other, &path(&["res"]), true), None);
}

#[test]
fn server_path_prefers_primary_candidate() {
    let r = get_server_path(&path(&["res"]), &vec![true, true]);
    assert_eq!(r, Some(path(&["res", "bundled", "server", "server.js"])));
}

#[test]
fn server_path_standalone_fallback() {
    let r = get_server_path(&path(&["res"]), &vec![false, true]);
    assert_eq!(
        r,
        Some(path(&["res", "bundled", "server", ".next", "standalone", "server.js"]))
    );
}

#[test]
fn server_path_none_when_missing() {
    assert_eq!(get_server_path(&path(&["res"]), &vec![false, false]), None);
}
