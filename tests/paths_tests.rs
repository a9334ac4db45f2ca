use eruption::device_config::UtilError;
use eruption::paths::{
    get_manifest_for, get_profile_dirs, get_profile_files, get_script_dirs, match_script_file,
    DEFAULT_PROFILE_DIR, DEFAULT_SCRIPT_DIR,
};

#[test]
fn manifest_path_replaces_the_extension() {
    assert_eq!(get_manifest_for("/usr/share/eruption/scripts/afterglow.lua"), "/usr/share/eruption/scripts/afterglow.lua.manifest");
    assert_eq!(get_manifest_for("scripts/wave"), "scripts/wave.lua.manifest");
    assert_eq!(get_manifest_for("a.b/c.tar.gz"), "a.b/c.tar.lua.manifest");
    assert_eq!(get_manifest_for(".hidden"), ".hidden.lua.manifest");
    assert_eq!(get_manifest_for("x/.."), "x/..");
    assert_eq!(get_manifest_for(""), "");
}

#[test]
fn manifest_path_matches_std_paths() {
    for p in ["a/b.lua", "b", "dir.d/file", ".x", "x.", "a/.b.c"] {
        let expected = std::path::Path::new(p)
            .with_extension("lua.manifest")
            .to_string_lossy()
            .to_string();
        assert_eq!(get_manifest_for(p), expected, "{}", p);
    }
}

#[test]
fn profile_files_are_filtered_by_extension() {
    let entries: Vec<String> = ["/p/default.profile", "/p/notes.txt", "/p/profile", "/p/.profile", "/p/x.profile.state", "/p/b.profile"]
        .iter()
        .map(|s| s.to_string())
        .collect();
    assert_eq!(get_profile_files(&entries), vec!["/p/default.profile".to_string(), "/p/b.profile".to_string()]);
}

#[test]
fn script_file_is_matched_by_file_name() {
    let scripts: Vec<String> = ["/s/lib/a.lua", "/s/b.lua", "/t/b.lua"].iter().map(|s| s.to_string()).collect();
    assert_eq!(match_script_file("b.lua", &scripts), Ok("/s/b.lua".to_string()));
    assert_eq!(match_script_file("c.lua", &scripts), Err(UtilError::ScriptEnumerationError));
}

#[test]
fn directories_fall_back_to_defaults() {
    assert_eq!(get_script_dirs(&[]), vec![DEFAULT_SCRIPT_DIR.to_string()]);
    assert_eq!(get_profile_dirs(&[]), vec![DEFAULT_PROFILE_DIR.to_string()]);
    let configured = vec!["/a".to_string(), "/b".to_string()];
    assert_eq!(get_script_dirs(&configured), configured);
    assert_eq!(get_profile_dirs(&configured), configured);
}
