use vstd::prelude::*;
use crate::text::{find_char, str_eq};
use crate::layout::{cef_binary_dir_name, join_path, path_join, profile_dir_name, BuildError};

verus! {

/// The operating systems the library ships binaries for.
#[derive(Clone, Copy, Debug, PartialEq, Eq, Structural)]
pub enum Platform {
    Windows,
    Mac,
    Linux,
}

/// The `n`-th `-`-separated component of a target triple, counting from 0.
pub open spec fn component(s: Seq<char>, n: nat) -> Option<Seq<char>>
    decreases n,
{
    match s.index_of_first('-') {
        None => if n == 0 {
            Some(s)
        } else {
            None
        },
        Some(i) => if n == 0 {
            Some(s.take(i))
        } else {
            component(s.skip(i + 1), (n - 1) as nat)
        },
    }
}

/// The platform named by the operating-system component of a target triple.
pub open spec fn platform_of_os(os: Seq<char>) -> Option<Platform> {
    if os == "win32"@ || os == "windows"@ {
        Some(Platform::Windows)
    } else if os == "darwin"@ {
        Some(Platform::Mac)
    } else if os == "linux"@ {
        Some(Platform::Linux)
    } else {
        None
    }
}

/// What `get_platform` gives for a target triple: the platform, or the
/// failure that ends the build.
pub open spec fn platform_outcome(triple: Seq<char>, r: Result<Platform, BuildError>) -> bool {
    match component(triple, 2) {
        None => r matches Err(BuildError::MalformedTarget(t)) && t@ == triple,
        Some(os) => match platform_of_os(os) {
            Some(p) => r == Ok::<Platform, BuildError>(p),
            None => r matches Err(BuildError::UnsupportedPlatform(o)) && o@ == os,
        },
    }
}

/// The name of the library to link against on a platform; none on Mac,
/// where no linker directive is given.
pub open spec fn link_lib_name(p: Platform) -> Option<Seq<char>> {
    match p {
        Platform::Windows => Some("libcef"@),
        Platform::Linux => Some("cef"@),
        Platform::Mac => None,
    }
}

/// The linker directives for a platform, a distribution root and a profile.
pub open spec fn link_directives(p: Platform, root: Seq<char>, profile: Seq<char>) -> Seq<Seq<char>> {
    match link_lib_name(p) {
        None => Seq::empty(),
        Some(lib) => seq![
            "cargo:rustc-link-lib="@ + lib,
            "cargo:rustc-link-search="@ + path_join(root, profile_dir_name(profile)),
        ],
    }
}

/// The `n`-th `-`-separated component of `s`, counting from 0; `None` when
/// `s` has fewer components.
pub fn target_component(s: &str, n: usize) -> (r: Option<String>)
    ensures
        match component(s@, n as nat) {
            Some(c) => r matches Some(x) && x@ == c,
            None => r is None,
        },
    decreases n,
{
    let len = s.unicode_len();
    match find_char(s, '-') {
        None => {
            if n == 0 {
                Some(String::from_str(s))
            } else {
                None
            }
        },
        Some(i) => {
            proof {
                s@.index_of_first_ensures('-');
            }
            if n == 0 {
                let head = s.substring_char(0, i);
                assert(head@ =~= s@.take(i as int));
                Some(String::from_str(head))
            } else {
                let rest = s.substring_char(i + 1, len);
                assert(rest@ =~= s@.skip(i + 1));
                target_component(rest, n - 1)
            }
        },
    }
}

/// The platform named by the operating-system component of a target triple.
pub fn classify_os(os: &str) -> (r: Result<Platform, BuildError>)
    ensures
        match platform_of_os(os@) {
            Some(p) => r == Ok::<Platform, BuildError>(p),
            None => r matches Err(BuildError::UnsupportedPlatform(o)) && o@ == os@,
        },
{
    if str_eq(os, "win32") || str_eq(os, "windows") {
        Ok(Platform::Windows)
    } else if str_eq(os, "darwin") {
        Ok(Platform::Mac)
    } else if str_eq(os, "linux") {
        Ok(Platform::Linux)
    } else {
        Err(BuildError::UnsupportedPlatform(String::from_str(os)))
    }
}

/// The platform of a target triple such as `x86_64-pc-windows-msvc`, read
/// from its third component. A triple with fewer components, or one whose
/// operating system is not supported, is a failure that names it.
pub fn get_platform(triple: &str) -> (r: Result<Platform, BuildError>)
    ensures
        platform_outcome(triple@, r),
{
    match target_component(triple, 2) {
        None => Err(BuildError::MalformedTarget(String::from_str(triple))),
        Some(os) => classify_os(os.as_str()),
    }
}

/// The linker directives that make the build link against the library:
/// the library's name and the directory to search for it. Mac takes none.
pub fn platform_link_directives(platform: Platform, root: &str, profile: &str) -> (r: Vec<String>)
    ensures
        r@.map_values(|s: String| s@) == link_directives(platform, root@, profile@),
{
    let lib = match platform {
        Platform::Mac => {
            return Vec::new();
        },
        Platform::Windows => "libcef",
        Platform::Linux => "cef",
    };
    proof {
        reveal_strlit("libcef");
        reveal_strlit("cef");
    }
    let mut lib_line = String::from_str("cargo:rustc-link-lib=");
    lib_line.append(lib);
    let dir = cef_binary_dir_name(profile);
    let search = join_path(root, dir.as_str());
    let mut search_line = String::from_str("cargo:rustc-link-search=");
    search_line.append(search.as_str());
    let mut out: Vec<String> = Vec::new();
    out.push(lib_line);
    out.push(search_line);
    assert(out@.map_values(|s: String| s@) =~= link_directives(platform, root@, profile@));
    out
}

/// The linker directives for a target triple, a distribution root and a
/// build profile; a failure when the triple names no supported platform.
pub fn config_linker(triple: &str, root: &str, profile: &str) -> (r: Result<Vec<String>, BuildError>)
    ensures
        match component(triple@, 2) {
            None => r matches Err(BuildError::MalformedTarget(t)) && t@ == triple@,
            Some(os) => match platform_of_os(os) {
                Some(p) => r matches Ok(v) && v@.map_values(|s: String| s@) == link_directives(p, root@, profile@),
                None => r matches Err(BuildError::UnsupportedPlatform(o)) && o@ == os,
            },
        },
{
    match get_platform(triple) {
        Ok(p) => Ok(platform_link_directives(p, root, profile)),
        Err(e) => Err(e),
    }
}

} // verus!
