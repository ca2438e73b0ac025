//! The command assembler: combines the Java executable path, optional
//! memory bounds, the fixed JVM tuning and system-property flags, the
//! classpath, the main class, and the game arguments into one invocation
//! line.
//!
//! The flag set is structurally fixed; only the interpolated per-version
//! paths vary. Segments are space-joined and an empty segment keeps its
//! surrounding spaces.

use vstd::prelude::*;
use crate::arguments::{build_game_arguments, game_arguments_spec};
use crate::classpath::{build_libraries_path, classpath_spec, version_jar_path_spec};
use crate::model::{FileSet, LaunchOptions, Platform, VersionJson};
use crate::text::{dec_spec, u32_to_string};

verus! {

/// The memory flags: `-Xmx<N>M -Xms<N>M ` (equal bounds, one trailing
/// space) when a fixed memory size is set and system-default sizing is not
/// requested; empty otherwise.
pub open spec fn memory_settings_spec(options: LaunchOptions) -> Seq<char> {
    if !options.use_system_memory && options.memory is Some {
        "-Xmx"@ + dec_spec(options.memory->0 as int) + "M -Xms"@ + dec_spec(
            options.memory->0 as int,
        ) + "M "@
    } else {
        Seq::empty()
    }
}

/// The per-version natives directory the native-library flags point at.
pub open spec fn natives_dir_spec(root: Seq<char>, version: Seq<char>) -> Seq<char> {
    root + "\\versions\\"@ + version + "\\natives-windows-x86_64"@
}

/// The per-version logging-configuration path.
pub open spec fn log4j_config_spec(root: Seq<char>, version: Seq<char>) -> Seq<char> {
    root + "\\versions\\"@ + version + "\\log4j2.xml"@
}

/// The fixed, ordered JVM flag list, space-joined: encoding overrides,
/// codebase-trust and log4j hardening, the logging-configuration and
/// client-jar properties, G1 garbage-collector tuning, native-library
/// search paths, and the launcher brand and version identifiers.
pub open spec fn common_args_spec(root: Seq<char>, version: Seq<char>) -> Seq<char> {
    "-Dfile.encoding=GB18030 -Dsun.stdout.encoding=GB18030 -Dsun.stderr.encoding=GB18030 -Djava.rmi.server.useCodebaseOnly=true -Dcom.sun.jndi.rmi.object.trustURLCodebase=false -Dcom.sun.jndi.cosnaming.object.trustURLCodebase=false -Dlog4j2.formatMsgNoLookups=true -Dlog4j.configurationFile="@
        + log4j_config_spec(root, version)
        + " -Dminecraft.client.jar="@
        + version_jar_path_spec(root, version)
        + " -XX:+UnlockExperimentalVMOptions -XX:+UseG1GC -XX:G1NewSizePercent=20 -XX:G1ReservePercent=20 -XX:MaxGCPauseMillis=50 -XX:G1HeapRegionSize=32m -XX:-UseAdaptiveSizePolicy -XX:-OmitStackTraceInFastThrow -XX:-DontCompileHugeMethods -Dfml.ignoreInvalidMinecraftCertificates=true -Dfml.ignorePatchDiscrepancies=true -XX:HeapDumpPath=MojangTricksIntelDriversForPerformance_javaw.exe_minecraft.exe.heapdump -Djava.library.path="@
        + natives_dir_spec(root, version)
        + " -Djna.tmpdir="@
        + natives_dir_spec(root, version)
        + " -Dorg.lwjgl.system.SharedLibraryExtractPath="@
        + natives_dir_spec(root, version)
        + " -Dio.netty.native.workdir="@
        + natives_dir_spec(root, version)
        + " -Dminecraft.launcher.brand=WMML -Dminecraft.launcher.version=0.1.26"@
}

/// The full invocation line:
/// `<java> <memory> <fixed flags> -cp <classpath> <main class> <game args>`,
/// segments space-joined with each segment's internal spacing preserved.
pub open spec fn command_spec(
    root: Seq<char>,
    version: Seq<char>,
    main_class: Seq<char>,
    classpath: Seq<char>,
    game_args: Seq<char>,
    options: LaunchOptions,
) -> Seq<char> {
    options.java_path@ + " "@ + memory_settings_spec(options) + " "@ + common_args_spec(
        root,
        version,
    ) + " -cp "@ + classpath + " "@ + main_class + " "@ + game_args
}

/// When system-default memory sizing is requested, no memory flag is
/// emitted, whatever memory size is set.
pub proof fn lemma_system_memory_emits_no_flags(options: LaunchOptions)
    requires
        options.use_system_memory,
    ensures
        memory_settings_spec(options) == Seq::<char>::empty(),
{
}

/// Assembles the invocation line from the resolved parts and the launch
/// options.
pub fn build_java_command(
    root: &str,
    version_name: &str,
    main_class: &str,
    libraries: &str,
    game_args: &str,
    options: &LaunchOptions,
) -> (r: String)
    ensures
        r@ == command_spec(root@, version_name@, main_class@, libraries@, game_args@, *options),
{
    // Memory settings.
    let mut memory_settings = String::new();
    if !options.use_system_memory {
        match options.memory {
            Option::Some(m) => {
                let rendered = u32_to_string(m);
                memory_settings.append("-Xmx");
                memory_settings.append(rendered.as_str());
                memory_settings.append("M -Xms");
                memory_settings.append(rendered.as_str());
                memory_settings.append("M ");
            },
            Option::None => {},
        }
    }
    proof {
        assert(memory_settings@ =~= memory_settings_spec(*options));
    }

    // Interpolated per-version paths.
    let mut log4j_config = root.to_owned();
    log4j_config.append("\\versions\\");
    log4j_config.append(version_name);
    log4j_config.append("\\log4j2.xml");
    proof {
        assert(log4j_config@ =~= log4j_config_spec(root@, version_name@));
    }
    let mut client_jar = root.to_owned();
    client_jar.append("\\versions\\");
    client_jar.append(version_name);
    client_jar.append("\\");
    client_jar.append(version_name);
    client_jar.append(".jar");
    proof {
        assert(client_jar@ =~= version_jar_path_spec(root@, version_name@));
    }
    let mut natives_dir = root.to_owned();
    natives_dir.append("\\versions\\");
    natives_dir.append(version_name);
    natives_dir.append("\\natives-windows-x86_64");
    proof {
        assert(natives_dir@ =~= natives_dir_spec(root@, version_name@));
    }

    // Common JVM arguments.
    let mut common_args = String::new();
    common_args.append(
        "-Dfile.encoding=GB18030 -Dsun.stdout.encoding=GB18030 -Dsun.stderr.encoding=GB18030 -Djava.rmi.server.useCodebaseOnly=true -Dcom.sun.jndi.rmi.object.trustURLCodebase=false -Dcom.sun.jndi.cosnaming.object.trustURLCodebase=false -Dlog4j2.formatMsgNoLookups=true -Dlog4j.configurationFile=",
    );
    common_args.append(log4j_config.as_str());
    common_args.append(" -Dminecraft.client.jar=");
    common_args.append(client_jar.as_str());
    common_args.append(
        " -XX:+UnlockExperimentalVMOptions -XX:+UseG1GC -XX:G1NewSizePercent=20 -XX:G1ReservePercent=20 -XX:MaxGCPauseMillis=50 -XX:G1HeapRegionSize=32m -XX:-UseAdaptiveSizePolicy -XX:-OmitStackTraceInFastThrow -XX:-DontCompileHugeMethods -Dfml.ignoreInvalidMinecraftCertificates=true -Dfml.ignorePatchDiscrepancies=true -XX:HeapDumpPath=MojangTricksIntelDriversForPerformance_javaw.exe_minecraft.exe.heapdump -Djava.library.path=",
    );
    common_args.append(natives_dir.as_str());
    common_args.append(" -Djna.tmpdir=");
    common_args.append(natives_dir.as_str());
    common_args.append(" -Dorg.lwjgl.system.SharedLibraryExtractPath=");
    common_args.append(natives_dir.as_str());
    common_args.append(" -Dio.netty.native.workdir=");
    common_args.append(natives_dir.as_str());
    common_args.append(" -Dminecraft.launcher.brand=WMML -Dminecraft.launcher.version=0.1.26");
    proof {
        assert(common_args@ =~= common_args_spec(root@, version_name@));
    }

    // Construct the full command.
    let mut out = options.java_path.clone();
    out.append(" ");
    out.append(memory_settings.as_str());
    out.append(" ");
    out.append(common_args.as_str());
    out.append(" -cp ");
    out.append(libraries);
    out.append(" ");
    out.append(main_class);
    out.append(" ");
    out.append(game_args);
    proof {
        assert(out@ =~= command_spec(
            root@,
            version_name@,
            main_class@,
            libraries@,
            game_args@,
            *options,
        ));
    }
    out
}

/// Runs the whole resolution pipeline: resolves the classpath against the
/// filesystem snapshot, synthesizes the game arguments, and assembles the
/// invocation line around the manifest's main class.
pub fn build_launch_command(
    root: &str,
    version_name: &str,
    player_name: &str,
    manifest: &VersionJson,
    platform: &Platform,
    fs: &FileSet,
    options: &LaunchOptions,
) -> (r: String)
    ensures
        r@ == command_spec(
            root@,
            version_name@,
            manifest.main_class@,
            classpath_spec(root@, *manifest, *platform, *fs),
            game_arguments_spec(root@, version_name@, player_name@, *manifest),
            *options,
        ),
{
    let libraries = build_libraries_path(root, manifest, platform, fs);
    let game_args = build_game_arguments(root, version_name, player_name, manifest);
    build_java_command(
        root,
        version_name,
        manifest.main_class.as_str(),
        libraries.as_str(),
        game_args.as_str(),
        options,
    )
}

} // verus!
