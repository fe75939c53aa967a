//! Resolution of the cache directory and of the paths inside it.
//!
//! The cache directory is namespaced by a version identifier under a
//! platform-appropriate base location, falling back to a local-data
//! location and then to a temporary directory. The two paths that matter
//! inside it — the runtime executable and the application archive — are a
//! pure function of the cache directory, computed here.

use vstd::prelude::*;
use vstd::string::*;

use crate::builder::PlatformTarget;

verus! {

/// The version identifier that namespaces the cache directory, so that an
/// upgrade never reuses a stale extraction.
pub const VERSION: &'static str = "0.1.0";

/// Resolved locations of the runtime executable and the application
/// archive inside the cache directory.
#[derive(Debug, Clone)]
pub struct BundlePaths {
    pub java_exe: String,
    pub plantuml_jar: String,
}

/// Path of the runtime executable relative to the cache directory, with
/// a leading separator. Only the Windows runtime names its executable
/// with the `.exe` suffix.
pub open spec fn runtime_exe_suffix(target: PlatformTarget) -> Seq<char> {
    match target {
        PlatformTarget::WindowsX64 => "/runtime/bin/java.exe"@,
        _ => "/runtime/bin/java"@,
    }
}

/// Path of the application archive relative to the cache directory,
/// with a leading separator.
pub open spec fn app_archive_suffix() -> Seq<char> {
    "/plantuml.jar"@
}

/// The paths that a given cache directory resolves to.
pub open spec fn spec_bundle_paths(cache_dir: Seq<char>, target: PlatformTarget) -> (
    Seq<char>,
    Seq<char>,
) {
    (cache_dir + runtime_exe_suffix(target), cache_dir + app_archive_suffix())
}

/// Derive the runtime-executable and application-archive paths from the
/// cache directory. This is deterministic: the result depends on the
/// cache directory and the platform alone.
pub fn get_bundle_paths(cache_dir: &str, target: PlatformTarget) -> (r: BundlePaths)
    ensures
        (r.java_exe@, r.plantuml_jar@) == spec_bundle_paths(cache_dir@, target),
{
    let mut java_exe = cache_dir.to_owned();
    match target {
        PlatformTarget::WindowsX64 => java_exe.append("/runtime/bin/java.exe"),
        _ => java_exe.append("/runtime/bin/java"),
    }
    let mut plantuml_jar = cache_dir.to_owned();
    plantuml_jar.append("/plantuml.jar");
    BundlePaths { java_exe, plantuml_jar }
}

/// Resolving the same cache directory twice yields identical paths: the
/// resolved pair is a function of the cache directory and the platform
/// alone, so repeated resolutions in one process cannot disagree.
pub proof fn lemma_resolution_deterministic(
    a: BundlePaths,
    b: BundlePaths,
    cache_dir: Seq<char>,
    target: PlatformTarget,
)
    requires
        (a.java_exe@, a.plantuml_jar@) == spec_bundle_paths(cache_dir, target),
        (b.java_exe@, b.plantuml_jar@) == spec_bundle_paths(cache_dir, target),
    ensures
        a.java_exe@ == b.java_exe@,
        a.plantuml_jar@ == b.plantuml_jar@,
{
}

/// The base location for the cache: the preferred base if available, else
/// the local-data fallback, else the temporary directory.
pub open spec fn spec_resolve_base(
    cache: Option<Seq<char>>,
    data_local: Option<Seq<char>>,
    temp: Seq<char>,
) -> Seq<char> {
    match cache {
        Option::Some(c) => c,
        Option::None => match data_local {
            Option::Some(d) => d,
            Option::None => temp,
        },
    }
}

/// Pick the base directory for the cache, in preference order: the
/// platform cache location, the local-data location, the temporary
/// directory.
pub fn resolve_cache_base(cache: Option<String>, data_local: Option<String>, temp: String) -> (r:
    String)
    ensures
        r@ == spec_resolve_base(
            match cache {
                Option::Some(c) => Option::Some(c@),
                Option::None => Option::None,
            },
            match data_local {
                Option::Some(d) => Option::Some(d@),
                Option::None => Option::None,
            },
            temp@,
        ),
{
    match cache {
        Option::Some(c) => c,
        Option::None => match data_local {
            Option::Some(d) => d,
            Option::None => temp,
        },
    }
}

/// The version-namespaced cache directory under a base location.
pub open spec fn spec_cache_dir(base: Seq<char>, version: Seq<char>) -> Seq<char> {
    base + "/plantuml-rs/"@ + version
}

/// Compute the version-namespaced cache directory under `base`, so that an
/// upgrade never reuses a stale extraction.
pub fn cache_dir_path(base: &str, version: &str) -> (r: String)
    ensures
        r@ == spec_cache_dir(base@, version@),
{
    let mut dir = base.to_owned();
    dir.append("/plantuml-rs/");
    dir.append(version);
    dir
}

/// Relies on dirs::cache_dir: the platform's cache directory, if the
/// environment names one. The result depends on the environment, so
/// nothing is assumed of it.
#[verifier::external_body]
fn os_cache_dir() -> Option<String> {
    dirs::cache_dir().map(|p| p.to_string_lossy().into_owned())
}

/// Relies on dirs::data_local_dir: the platform's local-data directory, if
/// the environment names one. The result depends on the environment, so
/// nothing is assumed of it.
#[verifier::external_body]
fn os_data_local_dir() -> Option<String> {
    dirs::data_local_dir().map(|p| p.to_string_lossy().into_owned())
}

/// Relies on tempfile::env::temp_dir: the platform's temporary
/// directory. The result depends on the environment, so nothing is
/// assumed of it.
#[verifier::external_body]
fn os_temp_dir() -> String {
    tempfile::env::temp_dir().to_string_lossy().into_owned()
}

/// Locate the version-namespaced cache directory: platform cache location
/// first, then the local-data location, then the platform's temporary
/// directory. Whatever base the environment yields, the result is that
/// base extended with the product namespace and the version.
pub fn locate_cache_dir(version: &str) -> (r: String)
    ensures
        exists|base: Seq<char>| r@ == spec_cache_dir(base, version@),
{
    let base = resolve_cache_base(os_cache_dir(), os_data_local_dir(), os_temp_dir());
    let ghost base_view = base@;
    let r = cache_dir_path(base.as_str(), version);
    proof {
        assert(r@ == spec_cache_dir(base_view, version@));
    }
    r
}

} // verus!
