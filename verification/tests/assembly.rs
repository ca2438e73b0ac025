use wmml::arguments::build_game_arguments;
use wmml::command::{build_java_command, build_launch_command};
use wmml::model::{
    Arguments, FileSet, GameArgument, LaunchError, LaunchOptions, Library, Platform, VersionJson,
};
use wmml::text::{join, replace, split, trim, u32_to_string};

fn manifest_with_args(
    legacy: Option<&str>,
    game: Option<Vec<GameArgument>>,
    assets: Option<&str>,
) -> VersionJson {
    VersionJson {
        id: "1.20.1".to_string(),
        main_class: "net.minecraft.client.main.Main".to_string(),
        minecraft_arguments: legacy.map(|s| s.to_string()),
        arguments: game.map(|g| Arguments { game: g }),
        libraries: vec![],
        assets: assets.map(|s| s.to_string()),
        version_type: None,
    }
}

#[test]
fn legacy_player_name_scenario() {
    let m = manifest_with_args(Some("--username ${auth_player_name}"), None, None);
    let got = build_game_arguments("C:\\mc", "1.20.1", "Player123", &m);
    assert_eq!(got, "--username Player123");
}

#[test]
fn every_placeholder_is_substituted() {
    let all = "${auth_player_name} ${version_name} ${game_directory} ${assets_root} \
               ${assets_index_name} ${auth_uuid} ${auth_access_token} ${user_type} \
               ${version_type}";
    let m = manifest_with_args(Some(all), None, Some("5"));
    let got = build_game_arguments("C:\\mc", "1.20.1", "Player123", &m);
    assert_eq!(
        got,
        "Player123 1.20.1 C:\\mc C:\\mc\\assets 5 00000000-0000-0000-0000-000000000000 \
         00000000000000000000000000000000 legacy WMML 0.1.26"
    );
    assert!(!got.contains("${"));
}

#[test]
fn unrecognized_placeholder_is_left_verbatim() {
    let m = manifest_with_args(
        Some("--width ${resolution_width} --user ${auth_player_name}"),
        None,
        None,
    );
    let got = build_game_arguments("C:\\mc", "1.20.1", "Player123", &m);
    assert_eq!(got, "--width ${resolution_width} --user Player123");
}

#[test]
fn structured_entries_append_only_plain_strings() {
    let m = manifest_with_args(
        None,
        Some(vec![
            GameArgument::Plain("--username".to_string()),
            GameArgument::Plain("${auth_player_name}".to_string()),
            GameArgument::Structured,
            GameArgument::Plain("--gameDir".to_string()),
            GameArgument::Plain("${game_directory}".to_string()),
        ]),
        None,
    );
    let got = build_game_arguments("C:\\mc", "1.20.1", "Player123", &m);
    assert_eq!(got, "--username Player123 --gameDir C:\\mc");
}

#[test]
fn legacy_and_structured_arguments_are_both_applied() {
    let m = manifest_with_args(
        Some("--username ${auth_player_name}"),
        Some(vec![GameArgument::Plain("--version ${version_name}".to_string())]),
        None,
    );
    let got = build_game_arguments("C:\\mc", "1.20.1", "Player123", &m);
    assert_eq!(got, "--username Player123 --version 1.20.1");
}

#[test]
fn absent_assets_index_substitutes_empty() {
    let m = manifest_with_args(Some("--assetIndex ${assets_index_name} end"), None, None);
    let got = build_game_arguments("C:\\mc", "1.20.1", "Player123", &m);
    assert_eq!(got, "--assetIndex  end");
}

#[test]
fn empty_manifest_yields_empty_arguments() {
    let m = manifest_with_args(None, None, None);
    let got = build_game_arguments("C:\\mc", "1.20.1", "Player123", &m);
    assert_eq!(got, "");
}

#[test]
fn fixed_memory_emits_equal_bounds() {
    let options = LaunchOptions {
        java_path: "java".to_string(),
        memory: Some(4096),
        use_system_memory: false,
    };
    let cmd = build_java_command("C:\\mc", "1.20.1", "Main", "cp", "args", &options);
    assert!(cmd.starts_with("java -Xmx4096M -Xms4096M "));
}

#[test]
fn system_memory_emits_no_memory_flags() {
    let options = LaunchOptions {
        java_path: "java".to_string(),
        memory: Some(4096),
        use_system_memory: true,
    };
    let cmd = build_java_command("C:\\mc", "1.20.1", "Main", "cp", "args", &options);
    assert!(!cmd.contains("-Xmx"));
    assert!(!cmd.contains("-Xms"));
}

#[test]
fn absent_memory_emits_no_memory_flags() {
    let options =
        LaunchOptions { java_path: "java".to_string(), memory: None, use_system_memory: false };
    let cmd = build_java_command("C:\\mc", "1.20.1", "Main", "cp", "args", &options);
    assert!(!cmd.contains("-Xmx"));
    assert!(!cmd.contains("-Xms"));
}

#[test]
fn command_interpolates_paths_and_tail() {
    let options = LaunchOptions {
        java_path: "C:\\java\\bin\\java.exe".to_string(),
        memory: Some(2048),
        use_system_memory: false,
    };
    let cmd = build_java_command(
        "C:\\mc",
        "1.20.1",
        "net.minecraft.client.main.Main",
        "C:\\mc\\versions\\1.20.1\\1.20.1.jar",
        "--username Player123",
        &options,
    );
    assert!(cmd.starts_with("C:\\java\\bin\\java.exe -Xmx2048M -Xms2048M "));
    assert!(cmd.contains("-Dlog4j.configurationFile=C:\\mc\\versions\\1.20.1\\log4j2.xml"));
    assert!(cmd.contains("-Dminecraft.client.jar=C:\\mc\\versions\\1.20.1\\1.20.1.jar"));
    assert!(cmd.contains("-Djava.library.path=C:\\mc\\versions\\1.20.1\\natives-windows-x86_64"));
    assert!(cmd.contains("-Djna.tmpdir=C:\\mc\\versions\\1.20.1\\natives-windows-x86_64"));
    assert!(cmd.ends_with(
        " -cp C:\\mc\\versions\\1.20.1\\1.20.1.jar net.minecraft.client.main.Main \
         --username Player123"
    ));
}

#[test]
fn empty_memory_segment_keeps_its_spacing() {
    let options =
        LaunchOptions { java_path: "java".to_string(), memory: None, use_system_memory: false };
    let cmd = build_java_command("C:\\mc", "1.20.1", "Main", "cp", "args", &options);
    // The memory segment is empty, and the surrounding joins are preserved.
    assert!(cmd.starts_with("java  -Dfile.encoding=GB18030"));
}

#[test]
fn replace_scans_left_to_right_without_rescanning() {
    assert_eq!(replace("aaa", "aa", "b"), "ba");
    assert_eq!(replace("abcabc", "b", "xy"), "axycaxyc");
    assert_eq!(replace("abc", "", "x"), "abc");
    assert_eq!(replace("abc", "zz", "x"), "abc");
}

#[test]
fn split_keeps_empty_segments() {
    assert_eq!(split("a:b:c", ":"), vec!["a", "b", "c"]);
    assert_eq!(split("a::b", ":"), vec!["a", "", "b"]);
    assert_eq!(split("abc", ":"), vec!["abc"]);
}

#[test]
fn trim_removes_surrounding_whitespace_only() {
    assert_eq!(trim("  --username Player123 \t"), "--username Player123");
    assert_eq!(trim(""), "");
    assert_eq!(trim("   "), "");
}

#[test]
fn join_places_the_delimiter_between_entries() {
    let parts = vec!["a".to_string(), "b".to_string(), "c".to_string()];
    assert_eq!(join(&parts, ";"), "a;b;c");
    assert_eq!(join(&vec![], ";"), "");
}

#[test]
fn decimal_rendering_is_exact() {
    assert_eq!(u32_to_string(0), "0");
    assert_eq!(u32_to_string(4096), "4096");
    assert_eq!(u32_to_string(4294967295), "4294967295");
}

#[test]
fn full_pipeline_assembles_one_line() {
    let mut m = manifest_with_args(Some("--username ${auth_player_name}"), None, None);
    m.libraries = vec![Library {
        name: "com.example:foolib:1.0".to_string(),
        rules: None,
        natives: None,
    }];
    let platform = Platform { os_name: "windows".to_string(), os_arch: "x86_64".to_string() };
    let fs = FileSet {
        files: vec!["C:\\mc\\libraries\\com\\example\\foolib\\1.0\\foolib-1.0.jar".to_string()],
    };
    let options = LaunchOptions {
        java_path: "java".to_string(),
        memory: Some(4096),
        use_system_memory: false,
    };
    let cmd =
        build_launch_command("C:\\mc", "1.20.1", "Player123", &m, &platform, &fs, &options);
    assert!(cmd.starts_with("java -Xmx4096M -Xms4096M "));
    assert!(cmd.ends_with(
        " -cp C:\\mc\\versions\\1.20.1\\1.20.1.jar;\
         C:\\mc\\libraries\\com\\example\\foolib\\1.0\\foolib-1.0.jar \
         net.minecraft.client.main.Main --username Player123"
    ));
}

#[test]
fn launch_errors_carry_their_diagnostics() {
    let nf = LaunchError::not_found("C:\\mc\\versions\\x\\x.json", "missing");
    assert!(matches!(&nf, LaunchError::NotFound(_)));
    assert_eq!(nf.message(), "无法读取文件 C:\\mc\\versions\\x\\x.json: missing");
    let bad = LaunchError::invalid_format("C:\\mc\\versions\\x\\x.json", "expected value");
    assert!(matches!(&bad, LaunchError::InvalidFormat(_)));
    assert_eq!(bad.message(), "无效的JSON格式 C:\\mc\\versions\\x\\x.json: expected value");
    let spawn = LaunchError::spawn_failure("program not found");
    assert_eq!(spawn.message(), "program not found");
}
