use wmml::classpath::{
    build_libraries_path, candidate_paths, get_library_path, normalize_path, resolve_classpath,
    version_jar_path, version_json_path,
};
use wmml::model::{FileSet, Library, Platform, VersionJson};

fn windows_x64() -> Platform {
    Platform { os_name: "windows".to_string(), os_arch: "x86_64".to_string() }
}

fn manifest(id: &str, libraries: Vec<Library>) -> VersionJson {
    VersionJson {
        id: id.to_string(),
        main_class: "net.minecraft.client.main.Main".to_string(),
        minecraft_arguments: None,
        arguments: None,
        libraries,
        assets: None,
        version_type: None,
    }
}

fn lib(name: &str) -> Library {
    Library { name: name.to_string(), rules: None, natives: None }
}

fn files(paths: &[&str]) -> FileSet {
    FileSet { files: paths.iter().map(|p| p.to_string()).collect() }
}

#[test]
fn classpath_scenario_single_library() {
    let m = manifest("1.20.1", vec![lib("com.example:foolib:1.0")]);
    let fs = files(&["C:\\mc\\libraries\\com\\example\\foolib\\1.0\\foolib-1.0.jar"]);
    let cp = build_libraries_path("C:\\mc", &m, &windows_x64(), &fs);
    assert_eq!(
        cp,
        "C:\\mc\\versions\\1.20.1\\1.20.1.jar;C:\\mc\\libraries\\com\\example\\foolib\\1.0\\foolib-1.0.jar"
    );
}

#[test]
fn classpath_with_no_libraries_is_the_version_jar() {
    let m = manifest("1.20.1", vec![]);
    let fs = files(&[]);
    let cp = build_libraries_path("C:\\mc", &m, &windows_x64(), &fs);
    assert_eq!(cp, "C:\\mc\\versions\\1.20.1\\1.20.1.jar");
}

#[test]
fn short_coordinate_contributes_no_path() {
    let l = lib("only:two");
    let fs = files(&["C:\\mc\\libraries\\only\\two\\two.jar"]);
    assert!(get_library_path("C:\\mc", &l, &windows_x64(), &fs).is_none());
    // And inside a manifest it is skipped silently.
    let m = manifest("1.20.1", vec![lib("only:two")]);
    let cp = build_libraries_path("C:\\mc", &m, &windows_x64(), &fs);
    assert_eq!(cp, "C:\\mc\\versions\\1.20.1\\1.20.1.jar");
}

#[test]
fn missing_jar_is_silently_omitted() {
    let m = manifest("1.20.1", vec![lib("com.example:foolib:1.0")]);
    let fs = files(&[]);
    let cp = build_libraries_path("C:\\mc", &m, &windows_x64(), &fs);
    assert_eq!(cp, "C:\\mc\\versions\\1.20.1\\1.20.1.jar");
}

#[test]
fn resolution_is_deterministic_and_order_preserving() {
    let m = manifest(
        "1.20.1",
        vec![lib("com.a:first:1.0"), lib("com.b:second:2.0"), lib("com.c:third:3.0")],
    );
    let fs = files(&[
        "C:\\mc\\libraries\\com\\a\\first\\1.0\\first-1.0.jar",
        "C:\\mc\\libraries\\com\\c\\third\\3.0\\third-3.0.jar",
        "C:\\mc\\libraries\\com\\b\\second\\2.0\\second-2.0.jar",
    ]);
    let p = windows_x64();
    let once = resolve_classpath("C:\\mc", &m, &p, &fs);
    let twice = resolve_classpath("C:\\mc", &m, &p, &fs);
    assert_eq!(once, twice);
    assert_eq!(
        once,
        vec![
            "C:\\mc\\versions\\1.20.1\\1.20.1.jar".to_string(),
            "C:\\mc\\libraries\\com\\a\\first\\1.0\\first-1.0.jar".to_string(),
            "C:\\mc\\libraries\\com\\b\\second\\2.0\\second-2.0.jar".to_string(),
            "C:\\mc\\libraries\\com\\c\\third\\3.0\\third-3.0.jar".to_string(),
        ]
    );
}

#[test]
fn duplicate_coordinates_produce_duplicate_entries() {
    let m = manifest("1.20.1", vec![lib("com.example:foolib:1.0"), lib("com.example:foolib:1.0")]);
    let fs = files(&["C:\\mc\\libraries\\com\\example\\foolib\\1.0\\foolib-1.0.jar"]);
    let entries = resolve_classpath("C:\\mc", &m, &windows_x64(), &fs);
    assert_eq!(entries.len(), 3);
    assert_eq!(entries[1], entries[2]);
}

#[test]
fn native_jar_is_preferred_when_present() {
    let l = Library {
        name: "org.lwjgl:lwjgl:3.3.1".to_string(),
        rules: None,
        natives: Some(vec![("windows".to_string(), "natives-windows-${arch}".to_string())]),
    };
    let native = "C:\\mc\\libraries\\org\\lwjgl\\lwjgl\\3.3.1\\lwjgl-3.3.1-natives-windows-64.jar";
    let plain = "C:\\mc\\libraries\\org\\lwjgl\\lwjgl\\3.3.1\\lwjgl-3.3.1.jar";
    let fs = files(&[native, plain]);
    let got = get_library_path("C:\\mc", &l, &windows_x64(), &fs);
    assert_eq!(got, Some(native.to_string()));
}

#[test]
fn native_arch_token_is_32_off_x86_64() {
    let l = Library {
        name: "org.lwjgl:lwjgl:3.3.1".to_string(),
        rules: None,
        natives: Some(vec![("windows".to_string(), "natives-windows-${arch}".to_string())]),
    };
    let p = Platform { os_name: "windows".to_string(), os_arch: "x86".to_string() };
    let native = "C:\\mc\\libraries\\org\\lwjgl\\lwjgl\\3.3.1\\lwjgl-3.3.1-natives-windows-32.jar";
    let fs = files(&[native]);
    let got = get_library_path("C:\\mc", &l, &p, &fs);
    assert_eq!(got, Some(native.to_string()));
}

#[test]
fn missing_native_falls_back_to_plain_jar() {
    let l = Library {
        name: "org.lwjgl:lwjgl:3.3.1".to_string(),
        rules: None,
        natives: Some(vec![("windows".to_string(), "natives-windows-${arch}".to_string())]),
    };
    let plain = "C:\\mc\\libraries\\org\\lwjgl\\lwjgl\\3.3.1\\lwjgl-3.3.1.jar";
    let fs = files(&[plain]);
    let got = get_library_path("C:\\mc", &l, &windows_x64(), &fs);
    assert_eq!(got, Some(plain.to_string()));
}

#[test]
fn candidate_paths_list_native_then_plain() {
    let m = manifest(
        "1.20.1",
        vec![
            Library {
                name: "org.lwjgl:lwjgl:3.3.1".to_string(),
                rules: None,
                natives: Some(vec![(
                    "windows".to_string(),
                    "natives-windows-${arch}".to_string(),
                )]),
            },
            lib("com.example:foolib:1.0"),
            lib("bad"),
        ],
    );
    let got = candidate_paths("C:\\mc", &m, &windows_x64());
    assert_eq!(
        got,
        vec![
            "C:\\mc\\libraries\\org\\lwjgl\\lwjgl\\3.3.1\\lwjgl-3.3.1-natives-windows-64.jar"
                .to_string(),
            "C:\\mc\\libraries\\org\\lwjgl\\lwjgl\\3.3.1\\lwjgl-3.3.1.jar".to_string(),
            "C:\\mc\\libraries\\com\\example\\foolib\\1.0\\foolib-1.0.jar".to_string(),
        ]
    );
}

#[test]
fn excluded_library_contributes_nothing_even_when_present() {
    let mut l = lib("com.example:foolib:1.0");
    l.rules = Some(vec![wmml::model::Rule { action: "disallow".to_string(), os: None }]);
    let m = manifest("1.20.1", vec![l]);
    let fs = files(&["C:\\mc\\libraries\\com\\example\\foolib\\1.0\\foolib-1.0.jar"]);
    let cp = build_libraries_path("C:\\mc", &m, &windows_x64(), &fs);
    assert_eq!(cp, "C:\\mc\\versions\\1.20.1\\1.20.1.jar");
}

#[test]
fn version_paths_are_laid_out_under_versions() {
    assert_eq!(version_jar_path("C:\\mc", "1.20.1"), "C:\\mc\\versions\\1.20.1\\1.20.1.jar");
    assert_eq!(version_json_path("C:\\mc", "1.20.1"), "C:\\mc\\versions\\1.20.1\\1.20.1.json");
}

#[test]
fn normalize_path_turns_slashes_into_backslashes() {
    assert_eq!(normalize_path(".minecraft/versions/1.20.1"), ".minecraft\\versions\\1.20.1");
    assert_eq!(normalize_path("C:\\mc"), "C:\\mc");
}
