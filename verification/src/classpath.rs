//! The classpath resolver: turns the manifest's library list into the
//! ordered, platform-correct list of jar paths, seeded with the version's
//! own jar, and serializes it with the platform path-list delimiter.
//!
//! Resolution is best-effort: a coordinate with fewer than three
//! colon-separated segments, or a library whose candidate jars are absent
//! from the filesystem snapshot, contributes no path and raises no error.
//! Duplicate coordinates produce duplicate entries; order follows the
//! manifest exactly.

use vstd::prelude::*;
use crate::model::{FileSet, Library, Platform, VersionJson};
use crate::rules::{check_library_rules, library_included};
use crate::text::{join, join_with, replace, replace_spec, split, split_spec, str_eq};

verus! {

/// Path of the version's own jar: `<root>\versions\<id>\<id>.jar`.
pub open spec fn version_jar_path_spec(root: Seq<char>, id: Seq<char>) -> Seq<char> {
    root + "\\versions\\"@ + id + "\\"@ + id + ".jar"@
}

/// Path of the version's manifest file: `<root>\versions\<id>\<id>.json`.
pub open spec fn version_json_path_spec(root: Seq<char>, id: Seq<char>) -> Seq<char> {
    root + "\\versions\\"@ + id + "\\"@ + id + ".json"@
}

/// Directory that holds one library's jars:
/// `<root>\libraries\<group with dots replaced>\<artifact>\<version>`.
pub open spec fn library_dir_spec(
    root: Seq<char>,
    group: Seq<char>,
    artifact: Seq<char>,
    version: Seq<char>,
) -> Seq<char> {
    root + "\\libraries\\"@ + replace_spec(group, "."@, "\\"@) + "\\"@ + artifact + "\\"@
        + version
}

/// The bit-width token substituted for the architecture placeholder.
pub open spec fn arch_bits_spec(arch: Seq<char>) -> Seq<char> {
    if arch == "x86_64"@ {
        "64"@
    } else {
        "32"@
    }
}

/// Value of the first pair whose key equals `key`, if any.
pub open spec fn natives_lookup_spec(pairs: Seq<(String, String)>, key: Seq<char>) -> Option<
    Seq<char>,
>
    decreases pairs.len(),
{
    if pairs.len() == 0 {
        Option::None
    } else if pairs[0].0@ == key {
        Option::Some(pairs[0].1@)
    } else {
        natives_lookup_spec(pairs.skip(1), key)
    }
}

/// The native jar candidate of a library on the platform, if the library
/// declares a native classifier for the platform's OS name: the classifier
/// template with `${arch}` replaced by the bit-width token, appended to the
/// plain jar stem.
pub open spec fn native_candidate_spec(root: Seq<char>, lib: Library, platform: Platform) -> Option<
    Seq<char>,
> {
    let parts = split_spec(lib.name@, ":"@);
    match lib.natives {
        Option::None => Option::None,
        Option::Some(pairs) => match natives_lookup_spec(pairs@, platform.os_name@) {
            Option::None => Option::None,
            Option::Some(tmpl) => Option::Some(
                library_dir_spec(root, parts[0], parts[1], parts[2]) + "\\"@ + parts[1] + "-"@
                    + parts[2] + "-"@ + replace_spec(
                    tmpl,
                    "${arch}"@,
                    arch_bits_spec(platform.os_arch@),
                ) + ".jar"@,
            ),
        },
    }
}

/// The plain jar candidate of a library:
/// `<library dir>\<artifact>-<version>.jar`.
pub open spec fn plain_candidate_spec(root: Seq<char>, lib: Library) -> Seq<char> {
    let parts = split_spec(lib.name@, ":"@);
    library_dir_spec(root, parts[0], parts[1], parts[2]) + "\\"@ + parts[1] + "-"@ + parts[2]
        + ".jar"@
}

/// The path a library contributes: nothing for a short coordinate; the
/// native jar when one is declared for the platform and present in the
/// snapshot; otherwise the plain jar when present; otherwise nothing.
pub open spec fn library_path_spec(
    root: Seq<char>,
    lib: Library,
    platform: Platform,
    fs: FileSet,
) -> Option<Seq<char>> {
    let parts = split_spec(lib.name@, ":"@);
    if parts.len() < 3 {
        Option::None
    } else {
        let fallback = if fs.has(plain_candidate_spec(root, lib)) {
            Option::Some(plain_candidate_spec(root, lib))
        } else {
            Option::<Seq<char>>::None
        };
        match native_candidate_spec(root, lib, platform) {
            Option::Some(p) => if fs.has(p) {
                Option::Some(p)
            } else {
                fallback
            },
            Option::None => fallback,
        }
    }
}

/// The classpath entries one library contributes: its resolved path when
/// its rules accept the platform, nothing otherwise.
pub open spec fn entry_paths_spec(
    root: Seq<char>,
    lib: Library,
    platform: Platform,
    fs: FileSet,
) -> Seq<Seq<char>> {
    if library_included(lib, platform) {
        match library_path_spec(root, lib, platform, fs) {
            Option::Some(p) => seq![p],
            Option::None => Seq::empty(),
        }
    } else {
        Seq::empty()
    }
}

/// The entries contributed by the first `i` libraries, in manifest order.
pub open spec fn resolved_upto(
    root: Seq<char>,
    libs: Seq<Library>,
    platform: Platform,
    fs: FileSet,
    i: int,
) -> Seq<Seq<char>>
    decreases i,
{
    if i <= 0 {
        Seq::empty()
    } else {
        resolved_upto(root, libs, platform, fs, i - 1) + entry_paths_spec(
            root,
            libs[i - 1],
            platform,
            fs,
        )
    }
}

/// The full resolved entry list: the version jar first, then each included
/// library's path in manifest order.
pub open spec fn resolved_paths_spec(
    root: Seq<char>,
    manifest: VersionJson,
    platform: Platform,
    fs: FileSet,
) -> Seq<Seq<char>> {
    seq![version_jar_path_spec(root, manifest.id@)] + resolved_upto(
        root,
        manifest.libraries@,
        platform,
        fs,
        manifest.libraries@.len() as int,
    )
}

/// The resolved entries joined with `;`.
pub open spec fn classpath_spec(
    root: Seq<char>,
    manifest: VersionJson,
    platform: Platform,
    fs: FileSet,
) -> Seq<char> {
    join_with(resolved_paths_spec(root, manifest, platform, fs), ";"@)
}

/// Resolution is deterministic: any two entry lists resolved from the same
/// manifest, platform and filesystem snapshot are identical, in identical
/// order.
pub proof fn lemma_resolution_deterministic(
    root: Seq<char>,
    manifest: VersionJson,
    platform: Platform,
    fs: FileSet,
    r1: Seq<Seq<char>>,
    r2: Seq<Seq<char>>,
)
    requires
        r1 == resolved_paths_spec(root, manifest, platform, fs),
        r2 == resolved_paths_spec(root, manifest, platform, fs),
    ensures
        r1 == r2,
{
}

/// Builds `<root>\versions\<id>\<id>.jar`.
pub fn version_jar_path(root: &str, id: &str) -> (r: String)
    ensures
        r@ == version_jar_path_spec(root@, id@),
{
    let mut out = root.to_owned();
    out.append("\\versions\\");
    out.append(id);
    out.append("\\");
    out.append(id);
    out.append(".jar");
    proof {
        assert(out@ =~= version_jar_path_spec(root@, id@));
    }
    out
}

/// Builds `<root>\versions\<id>\<id>.json`, where the manifest is read.
pub fn version_json_path(root: &str, id: &str) -> (r: String)
    ensures
        r@ == version_json_path_spec(root@, id@),
{
    let mut out = root.to_owned();
    out.append("\\versions\\");
    out.append(id);
    out.append("\\");
    out.append(id);
    out.append(".json");
    proof {
        assert(out@ =~= version_json_path_spec(root@, id@));
    }
    out
}

/// First value in the native mappings whose platform name equals `key`.
fn natives_lookup(pairs: &Vec<(String, String)>, key: &str) -> (r: Option<String>)
    ensures
        r.deep_view() == natives_lookup_spec(pairs@, key@),
{
    proof {
        assert(pairs@.skip(0) =~= pairs@);
    }
    let mut i: usize = 0;
    while i < pairs.len()
        invariant
            i <= pairs@.len(),
            natives_lookup_spec(pairs@, key@) == natives_lookup_spec(
                pairs@.skip(i as int),
                key@,
            ),
        decreases pairs@.len() - i,
    {
        if str_eq(pairs[i].0.as_str(), key) {
            let v = pairs[i].1.clone();
            return Some(v);
        }
        proof {
            assert(pairs@.skip(i as int).skip(1) =~= pairs@.skip(i + 1));
        }
        i += 1;
    }
    proof {
        assert(pairs@.skip(pairs@.len() as int).len() == 0);
    }
    None
}

/// Builds the directory that holds one library's jars.
fn library_dir(root: &str, group: &str, artifact: &str, version: &str) -> (r: String)
    ensures
        r@ == library_dir_spec(root@, group@, artifact@, version@),
{
    let group_path = replace(group, ".", "\\");
    let mut out = root.to_owned();
    out.append("\\libraries\\");
    out.append(group_path.as_str());
    out.append("\\");
    out.append(artifact);
    out.append("\\");
    out.append(version);
    proof {
        assert(out@ =~= library_dir_spec(root@, group@, artifact@, version@));
    }
    out
}

/// Builds the native jar candidate of a library, when one is declared for
/// the platform.
fn native_candidate(root: &str, lib: &Library, platform: &Platform) -> (r: Option<String>)
    requires
        split_spec(lib.name@, ":"@).len() >= 3,
    ensures
        r.deep_view() == native_candidate_spec(root@, *lib, *platform),
{
    let parts = split(lib.name.as_str(), ":");
    proof {
        assert(parts.deep_view()[0] == parts@[0]@);
        assert(parts.deep_view()[1] == parts@[1]@);
        assert(parts.deep_view()[2] == parts@[2]@);
    }
    match &lib.natives {
        Option::Some(pairs) => {
            match natives_lookup(pairs, platform.os_name.as_str()) {
                Option::Some(tmpl) => {
                    let bits = if str_eq(platform.os_arch.as_str(), "x86_64") {
                        "64"
                    } else {
                        "32"
                    };
                    let classifier = replace(tmpl.as_str(), "${arch}", bits);
                    let mut native_path = library_dir(
                        root,
                        parts[0].as_str(),
                        parts[1].as_str(),
                        parts[2].as_str(),
                    );
                    native_path.append("\\");
                    native_path.append(parts[1].as_str());
                    native_path.append("-");
                    native_path.append(parts[2].as_str());
                    native_path.append("-");
                    native_path.append(classifier.as_str());
                    native_path.append(".jar");
                    proof {
                        assert(native_path@ =~= native_candidate_spec(
                            root@,
                            *lib,
                            *platform,
                        ).unwrap());
                    }
                    Some(native_path)
                },
                Option::None => None,
            }
        },
        Option::None => None,
    }
}

/// Builds the plain jar candidate of a library.
fn plain_candidate(root: &str, lib: &Library) -> (r: String)
    requires
        split_spec(lib.name@, ":"@).len() >= 3,
    ensures
        r@ == plain_candidate_spec(root@, *lib),
{
    let parts = split(lib.name.as_str(), ":");
    proof {
        assert(parts.deep_view()[0] == parts@[0]@);
        assert(parts.deep_view()[1] == parts@[1]@);
        assert(parts.deep_view()[2] == parts@[2]@);
    }
    let mut jar_path = library_dir(root, parts[0].as_str(), parts[1].as_str(), parts[2].as_str());
    jar_path.append("\\");
    jar_path.append(parts[1].as_str());
    jar_path.append("-");
    jar_path.append(parts[2].as_str());
    jar_path.append(".jar");
    proof {
        assert(jar_path@ =~= plain_candidate_spec(root@, *lib));
    }
    jar_path
}

/// Resolves the jar path one library contributes, if any: the native jar
/// for the platform when declared and present, else the plain jar when
/// present, else nothing. A coordinate with fewer than three segments never
/// contributes a path.
pub fn get_library_path(root: &str, lib: &Library, platform: &Platform, fs: &FileSet) -> (r: Option<
    String,
>)
    ensures
        r.deep_view() == library_path_spec(root@, *lib, *platform, *fs),
        split_spec(lib.name@, ":"@).len() < 3 ==> r is None,
{
    let parts = split(lib.name.as_str(), ":");
    if parts.len() < 3 {
        return None;
    }

    // Native jar candidate, used only when that file exists in the snapshot.
    match native_candidate(root, lib, platform) {
        Option::Some(native_path) => {
            if fs.contains(native_path.as_str()) {
                return Some(native_path);
            }
        },
        Option::None => {},
    }

    // Fall back to the plain jar, used only when that file exists.
    let jar_path = plain_candidate(root, lib);
    if fs.contains(jar_path.as_str()) {
        return Some(jar_path);
    }
    None
}

/// The candidate jar files of one library whose existence resolution
/// consults: the native candidate when declared for the platform, then the
/// plain candidate; nothing for a short coordinate.
pub open spec fn library_candidates_spec(root: Seq<char>, lib: Library, platform: Platform) -> Seq<
    Seq<char>,
> {
    if split_spec(lib.name@, ":"@).len() < 3 {
        Seq::empty()
    } else {
        (match native_candidate_spec(root, lib, platform) {
            Option::Some(p) => seq![p],
            Option::None => Seq::empty(),
        }) + seq![plain_candidate_spec(root, lib)]
    }
}

/// The candidates of the first `i` libraries, in manifest order.
pub open spec fn candidates_upto(
    root: Seq<char>,
    libs: Seq<Library>,
    platform: Platform,
    i: int,
) -> Seq<Seq<char>>
    decreases i,
{
    if i <= 0 {
        Seq::empty()
    } else {
        candidates_upto(root, libs, platform, i - 1) + library_candidates_spec(
            root,
            libs[i - 1],
            platform,
        )
    }
}

/// All candidate jar paths of the manifest on the platform.
pub open spec fn candidates_spec(root: Seq<char>, manifest: VersionJson, platform: Platform) -> Seq<
    Seq<char>,
> {
    candidates_upto(root, manifest.libraries@, platform, manifest.libraries@.len() as int)
}

/// Lists every candidate jar path whose existence resolution may consult,
/// so a caller can take the filesystem snapshot without path logic of its
/// own.
pub fn candidate_paths(root: &str, manifest: &VersionJson, platform: &Platform) -> (r: Vec<String>)
    ensures
        r.deep_view() == candidates_spec(root@, *manifest, *platform),
{
    let mut out: Vec<String> = Vec::new();
    proof {
        assert(out.deep_view() =~= candidates_upto(root@, manifest.libraries@, *platform, 0));
    }
    let mut i: usize = 0;
    while i < manifest.libraries.len()
        invariant
            i <= manifest.libraries@.len(),
            out.deep_view() =~= candidates_upto(root@, manifest.libraries@, *platform, i as int),
        decreases manifest.libraries@.len() - i,
    {
        let ghost prev = out.deep_view();
        let lib = &manifest.libraries[i];
        let parts = split(lib.name.as_str(), ":");
        if parts.len() >= 3 {
            match native_candidate(root, lib, platform) {
                Option::Some(p) => {
                    let ghost pview = p@;
                    out.push(p);
                    proof {
                        assert(out.deep_view() =~= prev + seq![pview]);
                    }
                },
                Option::None => {},
            }
            let ghost mid = out.deep_view();
            let jar = plain_candidate(root, lib);
            let ghost jview = jar@;
            out.push(jar);
            proof {
                assert(out.deep_view() =~= mid + seq![jview]);
            }
        }
        proof {
            let libs = manifest.libraries@;
            assert(out.deep_view() =~= prev + library_candidates_spec(root@, libs[i as int], *platform));
            assert(candidates_upto(root@, libs, *platform, i + 1) =~= candidates_upto(
                root@,
                libs,
                *platform,
                i as int,
            ) + library_candidates_spec(root@, libs[i as int], *platform));
        }
        i += 1;
    }
    out
}

/// Normalizes a root path to the platform's separator by replacing each
/// forward slash with a backslash.
pub fn normalize_path(path: &str) -> (r: String)
    ensures
        r@ == replace_spec(path@, "/"@, "\\"@),
{
    replace(path, "/", "\\")
}

/// Resolves the full entry list: the version jar first, then, for each
/// library in manifest order whose rules accept the platform, its resolved
/// jar path.
pub fn resolve_classpath(
    root: &str,
    manifest: &VersionJson,
    platform: &Platform,
    fs: &FileSet,
) -> (r: Vec<String>)
    ensures
        r.deep_view() == resolved_paths_spec(root@, *manifest, *platform, *fs),
{
    let mut out: Vec<String> = Vec::new();
    out.push(version_jar_path(root, manifest.id.as_str()));
    proof {
        assert(out.deep_view() =~= seq![version_jar_path_spec(root@, manifest.id@)]);
    }
    let mut i: usize = 0;
    while i < manifest.libraries.len()
        invariant
            i <= manifest.libraries@.len(),
            out.deep_view() =~= seq![version_jar_path_spec(root@, manifest.id@)] + resolved_upto(
                root@,
                manifest.libraries@,
                *platform,
                *fs,
                i as int,
            ),
        decreases manifest.libraries@.len() - i,
    {
        let ghost prev = out.deep_view();
        let lib = &manifest.libraries[i];
        if check_library_rules(lib, platform) {
            match get_library_path(root, lib, platform, fs) {
                Option::Some(p) => {
                    let ghost pview = p@;
                    out.push(p);
                    proof {
                        assert(out.deep_view() =~= prev + seq![pview]);
                    }
                },
                Option::None => {},
            }
        }
        proof {
            let libs = manifest.libraries@;
            assert(out.deep_view() =~= prev + entry_paths_spec(root@, libs[i as int], *platform, *fs));
            assert(resolved_upto(root@, libs, *platform, *fs, i + 1) =~= resolved_upto(
                root@,
                libs,
                *platform,
                *fs,
                i as int,
            ) + entry_paths_spec(root@, libs[i as int], *platform, *fs));
        }
        i += 1;
    }
    out
}

/// Serializes the resolved entries as one `;`-delimited classpath string.
pub fn build_libraries_path(
    root: &str,
    manifest: &VersionJson,
    platform: &Platform,
    fs: &FileSet,
) -> (r: String)
    ensures
        r@ == classpath_spec(root@, *manifest, *platform, *fs),
{
    let entries = resolve_classpath(root, manifest, platform, fs);
    join(&entries, ";")
}

} // verus!
