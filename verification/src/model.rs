//! The entity model: a version manifest with its libraries and platform
//! rules, the caller-supplied launch options, the target platform, and a
//! snapshot of the filesystem state that classpath resolution consults.

use vstd::prelude::*;
use crate::text::str_eq;

verus! {

/// Operating-system constraint of a platform rule: an optional platform name
/// and an optional architecture string.
pub struct Os {
    pub name: Option<String>,
    pub arch: Option<String>,
}

/// One platform rule of a library: an action (`allow` or `disallow`; any
/// other action is a no-op) and an optional OS constraint.
pub struct Rule {
    pub action: String,
    pub os: Option<Os>,
}

/// One library entry of a manifest: a `group:artifact:version` coordinate,
/// an optional ordered rule list, and an optional mapping from platform name
/// to a native-classifier template.
pub struct Library {
    pub name: String,
    pub rules: Option<Vec<Rule>>,
    pub natives: Option<Vec<(String, String)>>,
}

/// One entry of the structured argument list: either a plain string, which
/// the synthesizer appends, or a structured (conditional) entry, which it
/// ignores.
pub enum GameArgument {
    Plain(String),
    Structured,
}

/// The structured argument section of a manifest.
pub struct Arguments {
    pub game: Vec<GameArgument>,
}

/// A decoded version manifest.
pub struct VersionJson {
    pub id: String,
    pub main_class: String,
    pub minecraft_arguments: Option<String>,
    pub arguments: Option<Arguments>,
    pub libraries: Vec<Library>,
    pub assets: Option<String>,
    pub version_type: Option<String>,
}

/// Caller-supplied launch configuration.
pub struct LaunchOptions {
    pub java_path: String,
    pub memory: Option<u32>,
    pub use_system_memory: bool,
}

/// The platform the launch targets: an OS name such as `windows` and an
/// architecture string such as `x86_64`.
pub struct Platform {
    pub os_name: String,
    pub os_arch: String,
}

/// A snapshot of the filesystem state that resolution depends on: the set of
/// candidate jar files that exist, each as a full path.
pub struct FileSet {
    pub files: Vec<String>,
}

impl FileSet {
    /// The snapshot records `path` as an existing file.
    pub open spec fn has(self, path: Seq<char>) -> bool {
        exists|i: int| 0 <= i < self.files@.len() && self.files@[i]@ == path
    }

    /// Membership test against the snapshot.
    pub fn contains(&self, path: &str) -> (r: bool)
        ensures
            r == self.has(path@),
    {
        let mut i: usize = 0;
        while i < self.files.len()
            invariant
                i <= self.files@.len(),
                forall|j: int| 0 <= j < i ==> self.files@[j]@ != path@,
            decreases self.files@.len() - i,
        {
            if str_eq(self.files[i].as_str(), path) {
                return true;
            }
            i += 1;
        }
        false
    }
}

/// A terminal launch failure, carrying the diagnostic message shown to the
/// user.
pub enum LaunchError {
    /// The manifest file could not be read.
    NotFound(String),
    /// The manifest file does not decode against the manifest schema.
    InvalidFormat(String),
    /// The operating system refused to start the process.
    SpawnFailure(String),
}

impl LaunchError {
    /// The diagnostic message carried by the error.
    pub open spec fn message_spec(self) -> Seq<char> {
        match self {
            LaunchError::NotFound(m) => m@,
            LaunchError::InvalidFormat(m) => m@,
            LaunchError::SpawnFailure(m) => m@,
        }
    }

    /// Builds the manifest-read failure; the message names the offending
    /// path and the underlying cause.
    pub fn not_found(path: &str, cause: &str) -> (r: LaunchError)
        ensures
            r matches LaunchError::NotFound(m) && m@ == "无法读取文件 "@ + path@ + ": "@
                + cause@,
    {
        let mut m = "无法读取文件 ".to_owned();
        m.append(path);
        m.append(": ");
        m.append(cause);
        proof {
            assert(m@ =~= "无法读取文件 "@ + path@ + ": "@ + cause@);
        }
        LaunchError::NotFound(m)
    }

    /// Builds the manifest-decode failure; the message names the offending
    /// path and the decoder diagnostic.
    pub fn invalid_format(path: &str, cause: &str) -> (r: LaunchError)
        ensures
            r matches LaunchError::InvalidFormat(m) && m@ == "无效的JSON格式 "@ + path@ + ": "@
                + cause@,
    {
        let mut m = "无效的JSON格式 ".to_owned();
        m.append(path);
        m.append(": ");
        m.append(cause);
        proof {
            assert(m@ =~= "无效的JSON格式 "@ + path@ + ": "@ + cause@);
        }
        LaunchError::InvalidFormat(m)
    }

    /// Builds the spawn failure, carrying the OS diagnostic unchanged.
    pub fn spawn_failure(cause: &str) -> (r: LaunchError)
        ensures
            r matches LaunchError::SpawnFailure(m) && m@ == cause@,
    {
        LaunchError::SpawnFailure(cause.to_owned())
    }

    /// Returns the diagnostic message carried by the error.
    pub fn message(&self) -> (r: &str)
        ensures
            r@ == self.message_spec(),
    {
        match self {
            LaunchError::NotFound(m) => m.as_str(),
            LaunchError::InvalidFormat(m) => m.as_str(),
            LaunchError::SpawnFailure(m) => m.as_str(),
        }
    }
}

} // verus!
