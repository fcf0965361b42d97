//! The cache store's pure half: the stamp decision and the paths under the
//! cache root, plus the one call that asks the host for that root.

use vstd::prelude::*;
use vstd::string::StringExecFns;
use crate::platform::{artifact_slug_spec, driver_filename_spec, dw_name, get_file_names, HostArch,
    HostOs};
use crate::text::{join2, str_eq, trim_spec, trim_str};

verus! {

/// What the stamp file says about the currently provisioned version.
#[derive(Clone, Copy, Debug, PartialEq, Eq, Structural)]
pub enum StampStatus {
    /// The stamp exists and its trimmed contents equal the current version.
    Match,
    /// The stamp exists with different contents.
    Mismatch,
    /// There is no stamp file.
    Absent,
}

/// The stamp decision: a missing file is `Absent`; contents whose trimmed
/// text equals the version are a `Match`; anything else is a `Mismatch`.
pub open spec fn stamp_status_spec(contents: Option<Seq<char>>, version: Seq<char>) -> StampStatus {
    match contents {
        Option::None => StampStatus::Absent,
        Option::Some(c) => if trim_spec(c) == version {
            StampStatus::Match
        } else {
            StampStatus::Mismatch
        },
    }
}

/// Decides whether the stamp file's contents match the current version.
pub fn stamp_status(contents: Option<&str>, version: &str) -> (r: StampStatus)
    ensures
        r == stamp_status_spec(
            match contents {
                Option::Some(c) => Option::Some(c@),
                Option::None => Option::None,
            },
            version@,
        ),
{
    match contents {
        Option::None => StampStatus::Absent,
        Option::Some(c) => {
            let t = trim_str(c);
            if str_eq(t.as_str(), version) {
                StampStatus::Match
            } else {
                StampStatus::Mismatch
            }
        },
    }
}

/// The name of the stamp file under the cache root.
pub open spec fn stamp_path_spec(root: Seq<char>) -> Seq<char> {
    root + "/version.txt"@
}

/// `<root>/version.txt`.
pub fn stamp_path(root: &str) -> (r: String)
    ensures
        r@ == stamp_path_spec(root@),
{
    join2(root, "/version.txt")
}

/// The ephemeral archive location under the cache root.
pub open spec fn archive_path_spec(root: Seq<char>, os: HostOs, arch: HostArch) -> Seq<char> {
    root + "/"@ + artifact_slug_spec(os, arch) + ".zip"@
}

/// `<root>/<slug>.zip`.
pub fn archive_path(root: &str, os: HostOs, arch: HostArch) -> (r: String)
    ensures
        r@ == archive_path_spec(root@, os, arch),
{
    let mut r = String::from_str(root);
    r.append("/");
    let slug = dw_name(os, arch);
    r.append(slug.as_str());
    r.append(".zip");
    r
}

/// Where the extracted driver executable stands under the cache root.
pub open spec fn driver_path_spec(root: Seq<char>, os: HostOs, arch: HostArch) -> Seq<char> {
    root + "/"@ + artifact_slug_spec(os, arch) + "/"@ + driver_filename_spec(os)
}

/// `<root>/<slug>/<driver_filename>`.
pub fn driver_path(root: &str, os: HostOs, arch: HostArch) -> (r: String)
    ensures
        r@ == driver_path_spec(root@, os, arch),
{
    let mut r = String::from_str(root);
    r.append("/");
    let slug = dw_name(os, arch);
    r.append(slug.as_str());
    r.append("/");
    let (_, driver_filename) = get_file_names(os);
    r.append(driver_filename.as_str());
    r
}

/// A name that is one plain relative path component: non-empty, with no
/// separator and no drive colon.  Pushing such a name onto a path appends
/// it after a separator; an absolute or prefixed name would instead replace
/// the path it is pushed onto.
pub open spec fn plain_component(name: Seq<char>) -> bool {
    &&& name.len() > 0
    &&& forall|i: int|
        0 <= i < name.len() ==> #[trigger] name[i] != '/' && name[i] != '\\' && name[i] != ':'
}

/// Relies on platform_dirs::AppDirs::new: resolves the per-user cache
/// directory for the given application name from the host environment.
/// Which directory comes back depends on that environment, so no more is
/// promised; but every branch of the source that returns one pushes `name`
/// onto a non-empty absolute base directory, and pushing a plain relative
/// component appends a separator and the name, so the path is longer than
/// the name and ends with it.  `None` when the host has no home directory
/// or the path is not UTF-8.
#[verifier::external_body]
fn user_cache_dir(name: &str) -> (r: Option<String>)
    requires
        plain_component(name@),
    ensures
        r matches Some(p) ==> p@.len() > name@.len() && p@.subrange(
            p@.len() - name@.len(),
            p@.len() as int,
        ) == name@,
{
    let dirs = platform_dirs::AppDirs::new(Some(name), true)?;
    dirs.cache_dir.into_os_string().into_string().ok()
}

/// The cache root this library provisions under: the per-user cache
/// directory, namespaced by the application identifier, with which the
/// returned path therefore always ends.  `None` when the host environment
/// offers no usable cache directory.
pub fn get_cached_dir() -> (r: Option<String>)
    ensures
        r matches Some(p) ==> p@.len() > 4 && p@.subrange(p@.len() - 4, p@.len() as int)
            == "TFCD"@,
{
    proof {
        reveal_strlit("TFCD");
        assert forall|i: int| 0 <= i < "TFCD"@.len() implies #[trigger] "TFCD"@[i] != '/'
            && "TFCD"@[i] != '\\' && "TFCD"@[i] != ':' by {
            if i == 0 {
                assert("TFCD"@[0] == 'T');
            } else if i == 1 {
                assert("TFCD"@[1] == 'F');
            } else if i == 2 {
                assert("TFCD"@[2] == 'C');
            } else {
                assert("TFCD"@[3] == 'D');
            }
        }
    }
    user_cache_dir("TFCD")
}

} // verus!
