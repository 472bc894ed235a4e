use vstd::prelude::*;
use crate::text::str_eq;

verus! {

/// `name` appended to the directory `base`, with one `/` between them.
pub open spec fn path_join(base: Seq<char>, name: Seq<char>) -> Seq<char> {
    if base.len() == 0 || base.last() == '/' {
        base + name
    } else {
        base + seq!['/'] + name
    }
}

/// A failure that ends the build.
#[derive(Debug)]
pub enum BuildError {
    /// A required configuration variable was not set; holds its name.
    MissingVariable(String),
    /// The target triple has no operating-system component; holds the triple.
    MalformedTarget(String),
    /// The target's operating system is not one the library ships for.
    UnsupportedPlatform(String),
}

/// Joins a file or directory name onto a directory path.
pub fn join_path(base: &str, name: &str) -> (r: String)
    ensures
        r@ == path_join(base@, name@),
{
    let n = base.unicode_len();
    let mut out = String::from_str(base);
    if n == 0 || base.get_char(n - 1) == '/' {
        out.append(name);
    } else {
        out.append("/");
        out.append(name);
        proof {
            reveal_strlit("/");
        }
    }
    out
}

/// The library's distribution root, from the value of the variable that
/// names it (`None` when the variable is not set).
pub fn cef_dir(value: Option<String>) -> (r: Result<String, BuildError>)
    ensures
        match value {
            Some(v) => r matches Ok(d) && d@ == v@,
            None => r matches Err(BuildError::MissingVariable(name)) && name@ == "CEF_DIR"@,
        },
{
    match value {
        Some(v) => Ok(v),
        None => Err(BuildError::MissingVariable(String::from_str("CEF_DIR"))),
    }
}

} // verus!

verus! {

/// The name of the subdirectory that holds a build profile's binaries:
/// `release` has its own, every other profile shares the debug one.
pub open spec fn profile_dir_name(profile: Seq<char>) -> Seq<char> {
    if profile == "release"@ {
        "Release"@
    } else {
        "Debug"@
    }
}

/// The subdirectory of the distribution root that holds the binaries for
/// the build profile `profile`.
pub fn cef_binary_dir_name(profile: &str) -> (r: String)
    ensures
        r@ == profile_dir_name(profile@),
{
    if str_eq(profile, "release") {
        String::from_str("Release")
    } else {
        String::from_str("Debug")
    }
}

/// The subdirectory of the distribution root that holds the resource files.
pub fn cef_resources_dir_name() -> (r: String)
    ensures
        r@ == "Resources"@,
{
    String::from_str("Resources")
}

} // verus!
