use vstd::prelude::*;
use crate::layout::{
    cef_binary_dir_name, cef_resources_dir_name, join_path, path_join, profile_dir_name,
};

verus! {

/// One file to copy: where it is read and where it is written.
pub struct CopyJob {
    pub src: String,
    pub dest: String,
}

/// What to do with one file of the fixed list.
#[derive(Clone, Copy, Debug, PartialEq, Eq, Structural)]
pub enum CopyAction {
    /// The destination holds no file yet: copy it.
    Copy,
    /// A file already stands at the destination: leave it untouched.
    Skip,
}

/// The runtime files that are copied one by one from the profile's binary
/// directory.
pub open spec fn binary_file_names() -> Seq<Seq<char>> {
    seq![
        "libcef.dll"@,
        "chrome_elf.dll"@,
        "d3dcompiler_47.dll"@,
        "libEGL.dll"@,
        "libGLESv2.dll"@,
        "natives_blob.bin"@,
        "snapshot_blob.bin"@,
        "v8_context_snapshot.bin"@,
    ]
}

/// The action for a file whose destination does or does not exist yet.
pub open spec fn file_action(dest_exists: bool) -> CopyAction {
    if dest_exists {
        CopyAction::Skip
    } else {
        CopyAction::Copy
    }
}

/// The directory of the resource files under a distribution root.
pub open spec fn resources_dir(root: Seq<char>) -> Seq<char> {
    path_join(root, "Resources"@)
}

/// The directory of the locale files under a distribution root.
pub open spec fn locales_dir(root: Seq<char>) -> Seq<char> {
    path_join(resources_dir(root), "locales"@)
}

/// Whether `job` copies the file `name` from `src_dir` into `target_dir`.
pub open spec fn copies(job: CopyJob, name: Seq<char>, src_dir: Seq<char>, target_dir: Seq<char>) -> bool {
    &&& job.src@ == path_join(src_dir, name)
    &&& job.dest@ == path_join(target_dir, name)
}

/// What the staging of the runtime files consists of.
pub struct StagingPlan {
    /// The files of the fixed list, each copied only where its destination
    /// holds no file yet.
    pub binary_copies: Vec<CopyJob>,
    /// The directory whose first-level files are copied as a whole.
    pub resources_dir: String,
    /// The directory that is copied with everything below it.
    pub locales_dir: String,
    /// The directory that receives all of it.
    pub target_dir: String,
}

/// Whether `plan` stages the runtime files of the distribution at `root`,
/// for the build profile `profile`, into `target_dir`.
pub open spec fn stages(plan: StagingPlan, root: Seq<char>, profile: Seq<char>, target_dir: Seq<char>) -> bool {
    let names = binary_file_names();
    let bin_dir = path_join(root, profile_dir_name(profile));
    &&& plan.binary_copies@.len() == names.len()
    &&& forall|i: int|
        0 <= i < names.len() ==> copies(#[trigger] plan.binary_copies@[i], names[i], bin_dir, target_dir)
    &&& plan.resources_dir@ == resources_dir(root)
    &&& plan.locales_dir@ == locales_dir(root)
    &&& plan.target_dir@ == target_dir
}

/// Staging never overwrites: a file of the fixed list whose destination
/// already holds a file is skipped. Into a directory that holds none of
/// them, every file of the list is copied, each under its own name in the
/// target directory and nowhere else, and the locales directory is copied
/// from the distribution's resources.
pub proof fn staging_outcome(plan: StagingPlan, root: Seq<char>, profile: Seq<char>, target_dir: Seq<char>)
    requires
        stages(plan, root, profile, target_dir),
    ensures
        file_action(true) == CopyAction::Skip,
        file_action(false) == CopyAction::Copy,
        plan.binary_copies@.map_values(|j: CopyJob| j.dest@) == binary_file_names().map_values(
            |n: Seq<char>| path_join(target_dir, n),
        ),
        plan.locales_dir@ == path_join(path_join(root, "Resources"@), "locales"@),
        plan.target_dir@ == target_dir,
{
    let names = binary_file_names();
    assert forall|i: int| 0 <= i < names.len() implies #[trigger] plan.binary_copies@[i].dest@ == path_join(
        target_dir,
        names[i],
    ) by {
        assert(copies(plan.binary_copies@[i], names[i], path_join(root, profile_dir_name(profile)), target_dir));
    }
    assert(plan.binary_copies@.map_values(|j: CopyJob| j.dest@) =~= names.map_values(
        |n: Seq<char>| path_join(target_dir, n),
    ));
}

/// The names of the runtime files that are copied one by one.
pub fn cef_binary_file_names() -> (r: Vec<String>)
    ensures
        r@.map_values(|s: String| s@) == binary_file_names(),
{
    let r = vec![
        String::from_str("libcef.dll"),
        String::from_str("chrome_elf.dll"),
        String::from_str("d3dcompiler_47.dll"),
        String::from_str("libEGL.dll"),
        String::from_str("libGLESv2.dll"),
        String::from_str("natives_blob.bin"),
        String::from_str("snapshot_blob.bin"),
        String::from_str("v8_context_snapshot.bin"),
    ];
    assert(r@.map_values(|s: String| s@) =~= binary_file_names());
    r
}

/// The copy of the file `file_name` from the directory `src` into the
/// directory `target_dir`, under the same name.
pub fn copy_file_to_target(file_name: &str, src: &str, target_dir: &str) -> (r: CopyJob)
    ensures
        copies(r, file_name@, src@, target_dir@),
{
    CopyJob { src: join_path(src, file_name), dest: join_path(target_dir, file_name) }
}

/// Whether to copy a file, given whether a file already stands at its
/// destination: an existing file is never overwritten.
pub fn copy_action(dest_is_file: bool) -> (r: CopyAction)
    ensures
        r == file_action(dest_is_file),
{
    if dest_is_file {
        CopyAction::Skip
    } else {
        CopyAction::Copy
    }
}

/// The output directory of a build: `target/<profile>` under the project
/// directory.
pub fn staging_target_dir(manifest_dir: &str, profile: &str) -> (r: String)
    ensures
        r@ == path_join(path_join(manifest_dir@, "target"@), profile@),
{
    let target = join_path(manifest_dir, "target");
    join_path(target.as_str(), profile)
}

/// The plan for staging the runtime files of the distribution at `root`,
/// for the build profile `profile`, into `target_dir`.
pub fn staging_plan(root: &str, profile: &str, target_dir: &str) -> (r: StagingPlan)
    ensures
        stages(r, root@, profile@, target_dir@),
{
    let bin_name = cef_binary_dir_name(profile);
    let bin_dir = join_path(root, bin_name.as_str());
    let names = cef_binary_file_names();
    let ghost spec_names = binary_file_names();
    let mut jobs: Vec<CopyJob> = Vec::new();
    let mut i: usize = 0;
    while i < names.len()
        invariant
            i <= names@.len(),
            names@.map_values(|s: String| s@) == spec_names,
            spec_names == binary_file_names(),
            bin_dir@ == path_join(root@, profile_dir_name(profile@)),
            jobs@.len() == i,
            forall|j: int|
                0 <= j < i ==> copies(#[trigger] jobs@[j], spec_names[j], bin_dir@, target_dir@),
        decreases names@.len() - i,
    {
        assert(names@[i as int]@ == spec_names[i as int]);
        let job = copy_file_to_target(names[i].as_str(), bin_dir.as_str(), target_dir);
        jobs.push(job);
        i = i + 1;
    }
    let res_name = cef_resources_dir_name();
    let res_dir = join_path(root, res_name.as_str());
    let locales = join_path(res_dir.as_str(), "locales");
    StagingPlan {
        binary_copies: jobs,
        resources_dir: res_dir,
        locales_dir: locales,
        target_dir: String::from_str(target_dir),
    }
}

/// The line logged after a bulk copy: success, or the error that was met.
/// Either way the staging goes on.
pub fn bulk_copy_report(error: Option<&str>) -> (r: String)
    ensures
        match error {
            None => r@ == "Succeeded"@,
            Some(e) => r@ == "Not copying: "@ + e@,
        },
{
    match error {
        None => String::from_str("Succeeded"),
        Some(e) => {
            let mut s = String::from_str("Not copying: ");
            s.append(e);
            s
        },
    }
}

} // verus!
