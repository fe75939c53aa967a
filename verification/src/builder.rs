//! The bundle builder: normalizing the entry names of a runtime
//! distribution and repackaging its entries, together with the application
//! archive, into the canonical bundle layout.
//!
//! The canonical layout holds the application archive at the root and the
//! runtime payload under a fixed `runtime/` subtree, with the upstream
//! distribution's self-named top-level wrapper directory stripped — and,
//! for the macOS runtime format, an additional `Contents/Home` wrapper
//! stripped. Unix permission modes are preserved on platforms that carry
//! them; elsewhere a standard non-executable mode is used.

use vstd::prelude::*;
use vstd::string::*;

use crate::text::{
    contains_seq, find_char, first_index_of, lemma_first_index_of, str_contains, str_eq,
    str_starts_with,
};

verus! {

/// The fixed set of supported platforms. An unsupported platform is
/// unrepresentable, so it is rejected before the builder runs.
#[derive(Clone, Copy, Debug, PartialEq, Eq, Structural)]
pub enum PlatformTarget {
    WindowsX64,
    LinuxX64,
    LinuxArm64,
    MacosX64,
    MacosArm64,
}

/// The container format of a runtime distribution.
#[derive(Clone, Copy, Debug, PartialEq, Eq, Structural)]
pub enum ArchiveFormat {
    Zip,
    GzipTar,
}

/// The two platform-conditional behaviours of repackaging, selected once
/// per target and passed explicitly.
#[derive(Clone, Copy, Debug, PartialEq, Eq, Structural)]
pub struct RepackConfig {
    /// Keep the source archive's Unix permission modes on file entries.
    pub preserve_permissions: bool,
    /// Strip the `Contents/Home` wrapper that the macOS runtime format
    /// nests inside the top-level wrapper directory.
    pub strip_macos_wrapper: bool,
}

/// The repackaging behaviour each platform calls for: Windows carries no
/// POSIX permission bits, and only macOS nests a `Contents/Home` wrapper.
pub open spec fn spec_repack_config(target: PlatformTarget) -> RepackConfig {
    match target {
        PlatformTarget::WindowsX64 => RepackConfig {
            preserve_permissions: false,
            strip_macos_wrapper: false,
        },
        PlatformTarget::MacosX64 | PlatformTarget::MacosArm64 => RepackConfig {
            preserve_permissions: true,
            strip_macos_wrapper: true,
        },
        _ => RepackConfig { preserve_permissions: true, strip_macos_wrapper: false },
    }
}

/// Select the repackaging behaviour for a platform.
pub fn repack_config(target: PlatformTarget) -> (r: RepackConfig)
    ensures
        r == spec_repack_config(target),
{
    match target {
        PlatformTarget::WindowsX64 => RepackConfig {
            preserve_permissions: false,
            strip_macos_wrapper: false,
        },
        PlatformTarget::MacosX64 | PlatformTarget::MacosArm64 => RepackConfig {
            preserve_permissions: true,
            strip_macos_wrapper: true,
        },
        PlatformTarget::LinuxX64 | PlatformTarget::LinuxArm64 => RepackConfig {
            preserve_permissions: true,
            strip_macos_wrapper: false,
        },
    }
}

/// The container format each platform's runtime distribution comes in.
pub open spec fn spec_archive_format(target: PlatformTarget) -> ArchiveFormat {
    match target {
        PlatformTarget::WindowsX64 => ArchiveFormat::Zip,
        _ => ArchiveFormat::GzipTar,
    }
}

/// Select the runtime-archive format for a platform: the Windows runtime
/// ships as a ZIP, every other platform's as a gzipped tar.
pub fn archive_format(target: PlatformTarget) -> (r: ArchiveFormat)
    ensures
        r == spec_archive_format(target),
{
    match target {
        PlatformTarget::WindowsX64 => ArchiveFormat::Zip,
        _ => ArchiveFormat::GzipTar,
    }
}

/// The platform a target triple names, by its architecture prefix and
/// its operating-system infix; nothing for a triple outside the supported
/// set.
pub open spec fn spec_platform_of_triple(s: Seq<char>) -> Option<PlatformTarget> {
    let x64 = "x86_64-"@.is_prefix_of(s);
    let arm = "aarch64-"@.is_prefix_of(s);
    if x64 && contains_seq(s, "-windows"@) {
        Option::Some(PlatformTarget::WindowsX64)
    } else if x64 && contains_seq(s, "-linux"@) {
        Option::Some(PlatformTarget::LinuxX64)
    } else if arm && contains_seq(s, "-linux"@) {
        Option::Some(PlatformTarget::LinuxArm64)
    } else if x64 && contains_seq(s, "-darwin"@) {
        Option::Some(PlatformTarget::MacosX64)
    } else if arm && contains_seq(s, "-darwin"@) {
        Option::Some(PlatformTarget::MacosArm64)
    } else {
        Option::None
    }
}

/// Recognize a target triple as one of the supported platforms.
pub fn parse_platform_triple(s: &str) -> (r: Option<PlatformTarget>)
    ensures
        r == spec_platform_of_triple(s@),
{
    let x64 = str_starts_with(s, "x86_64-");
    let arm = str_starts_with(s, "aarch64-");
    if x64 && str_contains(s, "-windows") {
        Option::Some(PlatformTarget::WindowsX64)
    } else if x64 && str_contains(s, "-linux") {
        Option::Some(PlatformTarget::LinuxX64)
    } else if arm && str_contains(s, "-linux") {
        Option::Some(PlatformTarget::LinuxArm64)
    } else if x64 && str_contains(s, "-darwin") {
        Option::Some(PlatformTarget::MacosX64)
    } else if arm && str_contains(s, "-darwin") {
        Option::Some(PlatformTarget::MacosArm64)
    } else {
        Option::None
    }
}

/// Relies on current_platform::CURRENT_PLATFORM: the target triple this
/// build was compiled for. A constant of the build; nothing is assumed of
/// its text.
#[verifier::external_body]
fn current_platform_triple() -> &'static str {
    current_platform::CURRENT_PLATFORM
}

/// The platform this build runs on, recognized from the build's target
/// triple; nothing on a triple outside the supported set.
pub fn detected_platform() -> (r: Option<PlatformTarget>)
    ensures
        exists|triple: Seq<char>| r == spec_platform_of_triple(triple),
{
    let t = current_platform_triple();
    let ghost tv = t@;
    let r = parse_platform_triple(t);
    proof {
        assert(r == spec_platform_of_triple(tv));
    }
    r
}

/// What a source-archive entry is, independent of the container format:
/// a directory, a regular file with its bytes and an optional Unix mode,
/// or anything else (symbolic links and special entries), which
/// repackaging skips.
#[derive(Debug, Clone, PartialEq, Eq)]
pub enum SourceEntryKind {
    Directory,
    File { data: Vec<u8>, mode: Option<u32> },
    Other,
}

/// One entry of a source runtime archive, as handed to the repackager.
#[derive(Debug, Clone, PartialEq, Eq)]
pub struct SourceEntry {
    pub name: String,
    pub kind: SourceEntryKind,
}

/// Mathematical model of a source entry.
pub struct SourceEntryV {
    pub name: Seq<char>,
    pub kind: SourceEntryKindV,
}

pub enum SourceEntryKindV {
    Directory,
    File { data: Seq<u8>, mode: Option<u32> },
    Other,
}

impl View for SourceEntry {
    type V = SourceEntryV;

    open spec fn view(&self) -> SourceEntryV {
        SourceEntryV {
            name: self.name@,
            kind: match self.kind {
                SourceEntryKind::Directory => SourceEntryKindV::Directory,
                SourceEntryKind::File { data, mode } => SourceEntryKindV::File {
                    data: data@,
                    mode,
                },
                SourceEntryKind::Other => SourceEntryKindV::Other,
            },
        }
    }
}

/// One entry of the canonical bundle: a directory, or a file with its
/// bytes and the Unix mode it will be stored with.
#[derive(Debug, Clone, PartialEq, Eq)]
pub enum BundleEntryKind {
    Directory,
    File { data: Vec<u8>, mode: u32 },
}

/// One entry of the canonical bundle.
#[derive(Debug, Clone, PartialEq, Eq)]
pub struct BundleEntry {
    pub name: String,
    pub kind: BundleEntryKind,
}

/// Mathematical model of a bundle entry.
pub struct BundleEntryV {
    pub name: Seq<char>,
    pub kind: BundleEntryKindV,
}

pub enum BundleEntryKindV {
    Directory,
    File { data: Seq<u8>, mode: u32 },
}

impl View for BundleEntry {
    type V = BundleEntryV;

    open spec fn view(&self) -> BundleEntryV {
        BundleEntryV {
            name: self.name@,
            kind: match self.kind {
                BundleEntryKind::Directory => BundleEntryKindV::Directory,
                BundleEntryKind::File { data, mode } => BundleEntryKindV::File {
                    data: data@,
                    mode,
                },
            },
        }
    }
}

/// The mode stored for a file that carries no usable source mode:
/// rw-r--r--, a standard non-executable file mode.
pub open spec fn default_file_mode() -> u32 {
    0o644
}

/// A name with its first path segment removed, separator included; empty
/// if the name has no separator (the name then is nothing but the
/// top-level wrapper segment).
pub open spec fn strip_first_segment(name: Seq<char>) -> Seq<char> {
    if first_index_of(name, '/') == name.len() {
        Seq::empty()
    } else {
        name.skip(first_index_of(name, '/') + 1)
    }
}

/// The nested wrapper the macOS runtime format carries under its
/// top-level directory.
pub open spec fn macos_home_prefix() -> Seq<char> {
    "Contents/Home/"@
}

/// Strip a leading `Contents/Home` segment, if present.
pub open spec fn strip_macos_home(rel: Seq<char>) -> Seq<char> {
    if macos_home_prefix().is_prefix_of(rel) {
        rel.skip(macos_home_prefix().len() as int)
    } else if rel == "Contents/Home"@ {
        Seq::empty()
    } else {
        rel
    }
}

/// Entry names that are artifacts of the macOS wrapper layout rather than
/// payload.
pub open spec fn macos_wrapper_artifact(rel: Seq<char>) -> bool {
    rel == "Contents"@ || rel == "Contents/"@
}

/// The canonical relative name of a source entry: the name with its
/// top-level wrapper segment stripped and, when `strip_macos` is set, a
/// `Contents/Home` wrapper stripped as well; `None` when the entry is
/// discarded (nothing left after stripping, or a macOS wrapper artifact).
pub open spec fn canonical_rel_name(name: Seq<char>, strip_macos: bool) -> Option<Seq<char>> {
    let after_wrapper = strip_first_segment(name);
    let rel = if strip_macos {
        strip_macos_home(after_wrapper)
    } else {
        after_wrapper
    };
    if rel.len() == 0 {
        Option::None
    } else if strip_macos && macos_wrapper_artifact(rel) {
        Option::None
    } else {
        Option::Some(rel)
    }
}

/// Compute the canonical relative name of a source entry, or `None` when
/// the entry is to be discarded.
pub fn canonical_entry_name(name: &str, strip_macos: bool) -> (r: Option<String>)
    ensures
        match r {
            Option::Some(s) => canonical_rel_name(name@, strip_macos) == Option::Some(s@),
            Option::None => canonical_rel_name(name@, strip_macos) is None,
        },
{
    let len = name.unicode_len();
    let slash = find_char(name, '/');
    proof {
        lemma_first_index_of(name@, '/');
        reveal_strlit("Contents/Home/");
        reveal_strlit("Contents/Home");
        reveal_strlit("Contents");
        reveal_strlit("Contents/");
    }
    if slash == len {
        return Option::None;
    }
    let mut rel = name.substring_char(slash + 1, len).to_owned();
    proof {
        assert(rel@ == strip_first_segment(name@));
    }
    if strip_macos {
        let rel_len = rel.as_str().unicode_len();
        if str_starts_with(rel.as_str(), "Contents/Home/") {
            rel = rel.as_str().substring_char(14, rel_len).to_owned();
            proof {
                assert(rel@ == strip_macos_home(strip_first_segment(name@)));
            }
        } else if str_eq(rel.as_str(), "Contents/Home") {
            return Option::None;
        }
        if str_eq(rel.as_str(), "Contents") || str_eq(rel.as_str(), "Contents/") {
            return Option::None;
        }
    }
    if rel.as_str().unicode_len() == 0 {
        return Option::None;
    }
    Option::Some(rel)
}

/// Copy a byte vector. Verified directly, so nothing need be assumed of a
/// derived clone.
pub(crate) fn clone_bytes(v: &Vec<u8>) -> (r: Vec<u8>)
    ensures
        r@ == v@,
{
    let mut out: Vec<u8> = Vec::new();
    let mut i: usize = 0;
    while i < v.len()
        invariant
            0 <= i <= v.len(),
            out@ == v@.take(i as int),
        decreases v.len() - i,
    {
        out.push(v[i]);
        proof {
            assert(v@.take(i + 1) =~= v@.take(i as int).push(v@[i as int]));
        }
        i += 1;
    }
    proof {
        assert(v@.take(v@.len() as int) =~= v@);
    }
    out
}

/// The prefix under which the runtime payload lives in the canonical
/// bundle.
pub open spec fn runtime_prefix() -> Seq<char> {
    "runtime/"@
}

/// The mode a repackaged file is stored with: the source mode where the
/// platform preserves permissions and the source carries one, else the
/// standard non-executable default.
pub open spec fn spec_output_mode(src: Option<u32>, preserve: bool) -> u32 {
    if preserve {
        match src {
            Option::Some(m) => m,
            Option::None => default_file_mode(),
        }
    } else {
        default_file_mode()
    }
}

/// A directory entry's relative name with the trailing separator the
/// container layout expects: kept as it is when it already ends with one,
/// else with one appended (the tar format allows directory entries
/// without it).
pub open spec fn spec_dir_rel(rel: Seq<char>) -> Seq<char> {
    if rel.len() > 0 && rel[rel.len() - 1] == '/' {
        rel
    } else {
        rel.push('/')
    }
}

/// How one source entry repackages: discarded entirely, or re-emitted
/// under `runtime/` with the canonical relative name, directories as
/// directories (their names normalized to end with the separator) and
/// files with their bytes and the output mode.
pub open spec fn spec_repack_entry(e: SourceEntryV, cfg: RepackConfig) -> Option<BundleEntryV> {
    match canonical_rel_name(e.name, cfg.strip_macos_wrapper) {
        Option::None => Option::None,
        Option::Some(rel) => match e.kind {
            SourceEntryKindV::Directory => Option::Some(
                BundleEntryV {
                    name: runtime_prefix() + spec_dir_rel(rel),
                    kind: BundleEntryKindV::Directory,
                },
            ),
            SourceEntryKindV::File { data, mode } => Option::Some(
                BundleEntryV {
                    name: runtime_prefix() + rel,
                    kind: BundleEntryKindV::File {
                        data,
                        mode: spec_output_mode(mode, cfg.preserve_permissions),
                    },
                },
            ),
            SourceEntryKindV::Other => Option::None,
        },
    }
}

/// Repackage one source entry, or discard it.
pub fn repack_entry(e: &SourceEntry, cfg: &RepackConfig) -> (r: Option<BundleEntry>)
    ensures
        match r {
            Option::Some(b) => spec_repack_entry(e@, *cfg) == Option::Some(b@),
            Option::None => spec_repack_entry(e@, *cfg) is None,
        },
{
    let rel = match canonical_entry_name(e.name.as_str(), cfg.strip_macos_wrapper) {
        Option::Some(rel) => rel,
        Option::None => {
            return Option::None;
        },
    };
    let mut out_name = String::from_str("runtime/");
    out_name.append(rel.as_str());
    match &e.kind {
        SourceEntryKind::Directory => {
            let rel_len = rel.as_str().unicode_len();
            if rel_len == 0 || rel.as_str().get_char(rel_len - 1) != '/' {
                out_name.append("/");
                proof {
                    reveal_strlit("/");
                    assert("/"@ =~= seq!['/']);
                    assert(out_name@ =~= runtime_prefix() + spec_dir_rel(rel@));
                }
            }
            Option::Some(BundleEntry { name: out_name, kind: BundleEntryKind::Directory })
        },
        SourceEntryKind::File { data, mode } => {
            let out_mode: u32 = if cfg.preserve_permissions {
                match mode {
                    Option::Some(m) => *m,
                    Option::None => 0o644,
                }
            } else {
                0o644
            };
            Option::Some(
                BundleEntry {
                    name: out_name,
                    kind: BundleEntryKind::File { data: clone_bytes(data), mode: out_mode },
                },
            )
        },
        SourceEntryKind::Other => Option::None,
    }
}

/// Stripping a name of the form `w + "/" + x`, where the wrapper segment
/// `w` holds no separator, leaves exactly `x`.
pub proof fn lemma_strip_first_segment(w: Seq<char>, x: Seq<char>)
    requires
        forall|j: int| 0 <= j < w.len() ==> w[j] != '/',
    ensures
        strip_first_segment(w + seq!['/'] + x) == x,
{
    let s = w + seq!['/'] + x;
    crate::text::lemma_first_index_of_append(w, x, '/');
    assert(s.skip(w.len() as int + 1) =~= x);
}

/// Stripped-wrapper invariant, kept half: without macOS stripping, a
/// directory or file entry named `w + "/" + x` — the wrapper segment `w`
/// free of separators, the remainder `x` non-empty — is kept, under
/// exactly the name `runtime/` + `x` (a directory's name normalized to
/// end with the separator).
pub proof fn lemma_wrapper_becomes_runtime(
    e: SourceEntryV,
    w: Seq<char>,
    x: Seq<char>,
    cfg: RepackConfig,
)
    requires
        !cfg.strip_macos_wrapper,
        forall|j: int| 0 <= j < w.len() ==> w[j] != '/',
        e.name == w + seq!['/'] + x,
        x.len() > 0,
        !(e.kind is Other),
    ensures
        spec_repack_entry(e, cfg) matches Option::Some(b) && b.name == runtime_prefix() + (
        if e.kind is Directory {
            spec_dir_rel(x)
        } else {
            x
        }),
{
    lemma_strip_first_segment(w, x);
}

/// Stripped-wrapper invariant, absence half: every name the repackager
/// emits begins with the runtime prefix, so for any separator-free
/// wrapper segment other than the runtime subtree's own name, no emitted
/// name begins with that segment and a separator.
pub proof fn lemma_no_wrapper_in_output(name: Seq<char>, w: Seq<char>)
    requires
        runtime_prefix().is_prefix_of(name),
        forall|j: int| 0 <= j < w.len() ==> w[j] != '/',
        w != "runtime"@,
    ensures
        !(w + seq!['/']).is_prefix_of(name),
{
    reveal_strlit("runtime/");
    reveal_strlit("runtime");
    assert(runtime_prefix() =~= "runtime"@ + seq!['/']);
    assert(forall|j: int| 0 <= j < "runtime"@.len() ==> "runtime"@[j] != '/');
    if (w + seq!['/']).is_prefix_of(name) {
        let rest_w = name.skip(w.len() as int + 1);
        assert(name =~= w + seq!['/'] + rest_w);
        crate::text::lemma_first_index_of_append(w, rest_w, '/');
        let rest_r = name.skip(runtime_prefix().len() as int);
        assert(name =~= "runtime"@ + seq!['/'] + rest_r);
        crate::text::lemma_first_index_of_append("runtime"@, rest_r, '/');
        assert(w.len() == "runtime"@.len());
        assert forall|j: int| 0 <= j < w.len() implies w[j] == "runtime"@[j] by {
            assert(name.subrange(0, w.len() as int + 1)[j] == name[j]);
            assert(name.subrange(0, runtime_prefix().len() as int)[j] == name[j]);
        }
        assert(w =~= "runtime"@);
    }
}

/// Every entry the repackager keeps lies under the `runtime/` subtree.
pub proof fn lemma_repacked_under_runtime(entries: Seq<SourceEntryV>, cfg: RepackConfig)
    ensures
        forall|i: int|
            0 <= i < spec_repack_runtime(entries, cfg).len() ==> runtime_prefix().is_prefix_of(
                #[trigger] spec_repack_runtime(entries, cfg)[i].name,
            ),
    decreases entries.len(),
{
    if entries.len() == 0 {
    } else {
        lemma_repacked_under_runtime(entries.skip(1), cfg);
        let head = opt_entry_seq(spec_repack_entry(entries[0], cfg));
        let tail = spec_repack_runtime(entries.skip(1), cfg);
        assert forall|i: int|
            0 <= i < spec_repack_runtime(entries, cfg).len() implies runtime_prefix().is_prefix_of(
            spec_repack_runtime(entries, cfg)[i].name,
        ) by {
            if i < head.len() {
                match canonical_rel_name(entries[0].name, cfg.strip_macos_wrapper) {
                    Option::Some(rel) => {
                        assert((runtime_prefix() + rel).subrange(
                            0,
                            runtime_prefix().len() as int,
                        ) =~= runtime_prefix());
                    },
                    Option::None => {},
                }
            } else {
                assert(spec_repack_runtime(entries, cfg)[i] == tail[i - head.len()]);
            }
        }
    }
}

/// Stripped-wrapper invariant over the whole payload: for a
/// separator-free wrapper segment other than the runtime subtree's own
/// name, no repackaged entry's name begins with that segment and a
/// separator.
pub proof fn lemma_no_wrapper_in_bundle(
    entries: Seq<SourceEntryV>,
    w: Seq<char>,
    cfg: RepackConfig,
)
    requires
        forall|j: int| 0 <= j < w.len() ==> w[j] != '/',
        w != "runtime"@,
    ensures
        forall|i: int|
            0 <= i < spec_repack_runtime(entries, cfg).len() ==> !(w + seq!['/']).is_prefix_of(
                #[trigger] spec_repack_runtime(entries, cfg)[i].name,
            ),
{
    lemma_repacked_under_runtime(entries, cfg);
    assert forall|i: int|
        0 <= i < spec_repack_runtime(entries, cfg).len() implies !(w + seq!['/']).is_prefix_of(
        spec_repack_runtime(entries, cfg)[i].name,
    ) by {
        lemma_no_wrapper_in_output(spec_repack_runtime(entries, cfg)[i].name, w);
    }
}

/// macOS wrapper invariant, kept half: with macOS stripping, a directory
/// or file entry named `w + "/Contents/Home/" + x` — `w` free of
/// separators, `x` non-empty and no wrapper artifact itself — is kept
/// under exactly the name `runtime/` + `x` (a directory's name
/// normalized to end with the separator).
pub proof fn lemma_macos_home_stripped(
    e: SourceEntryV,
    w: Seq<char>,
    x: Seq<char>,
    cfg: RepackConfig,
)
    requires
        cfg.strip_macos_wrapper,
        forall|j: int| 0 <= j < w.len() ==> w[j] != '/',
        e.name == w + seq!['/'] + (macos_home_prefix() + x),
        x.len() > 0,
        !macos_wrapper_artifact(x),
        !(e.kind is Other),
    ensures
        spec_repack_entry(e, cfg) matches Option::Some(b) && b.name == runtime_prefix() + (
        if e.kind is Directory {
            spec_dir_rel(x)
        } else {
            x
        }),
{
    lemma_strip_first_segment(w, macos_home_prefix() + x);
    assert((macos_home_prefix() + x).subrange(0, macos_home_prefix().len() as int)
        =~= macos_home_prefix());
    assert((macos_home_prefix() + x).skip(macos_home_prefix().len() as int) =~= x);
}

/// macOS wrapper invariant, discarded half: the wrapper-layout artifacts
/// — the bare `Contents` and `Contents/` entries, and the `Contents/Home`
/// wrapper itself — are discarded entirely.
pub proof fn lemma_macos_artifacts_discarded(e: SourceEntryV, w: Seq<char>, cfg: RepackConfig)
    requires
        cfg.strip_macos_wrapper,
        forall|j: int| 0 <= j < w.len() ==> w[j] != '/',
        e.name == w + seq!['/'] + "Contents"@ || e.name == w + seq!['/'] + "Contents/"@ || e.name
            == w + seq!['/'] + "Contents/Home"@ || e.name == w + seq!['/'] + "Contents/Home/"@,
    ensures
        spec_repack_entry(e, cfg) is None,
{
    reveal_strlit("Contents");
    reveal_strlit("Contents/");
    reveal_strlit("Contents/Home");
    reveal_strlit("Contents/Home/");
    if e.name == w + seq!['/'] + "Contents"@ {
        lemma_strip_first_segment(w, "Contents"@);
    } else if e.name == w + seq!['/'] + "Contents/"@ {
        lemma_strip_first_segment(w, "Contents/"@);
    } else if e.name == w + seq!['/'] + "Contents/Home"@ {
        lemma_strip_first_segment(w, "Contents/Home"@);
    } else {
        lemma_strip_first_segment(w, "Contents/Home/"@);
        assert("Contents/Home/"@.subrange(0, macos_home_prefix().len() as int)
            =~= macos_home_prefix());
        assert("Contents/Home/"@.skip(macos_home_prefix().len() as int)
            =~= Seq::<char>::empty());
    }
}

/// A repackaged entry as a sequence: one element when kept, none when
/// discarded.
pub open spec fn opt_entry_seq(o: Option<BundleEntryV>) -> Seq<BundleEntryV> {
    match o {
        Option::Some(b) => seq![b],
        Option::None => Seq::empty(),
    }
}

/// The repackaged runtime payload: every source entry in order, each kept
/// or discarded as `spec_repack_entry` says.
pub open spec fn spec_repack_runtime(entries: Seq<SourceEntryV>, cfg: RepackConfig) -> Seq<
    BundleEntryV,
>
    decreases entries.len(),
{
    if entries.len() == 0 {
        Seq::empty()
    } else {
        opt_entry_seq(spec_repack_entry(entries[0], cfg)) + spec_repack_runtime(
            entries.skip(1),
            cfg,
        )
    }
}

/// Repackaging distributes over appending one entry at the end.
pub proof fn lemma_repack_runtime_snoc(s: Seq<SourceEntryV>, e: SourceEntryV, cfg: RepackConfig)
    ensures
        spec_repack_runtime(s.push(e), cfg) == spec_repack_runtime(s, cfg) + opt_entry_seq(
            spec_repack_entry(e, cfg),
        ),
    decreases s.len(),
{
    if s.len() == 0 {
        assert(s.push(e)[0] == e);
        assert(s.push(e).skip(1) =~= Seq::<SourceEntryV>::empty());
        let tail = opt_entry_seq(spec_repack_entry(e, cfg));
        assert(spec_repack_runtime(s.push(e), cfg) == tail + spec_repack_runtime(
            Seq::<SourceEntryV>::empty(),
            cfg,
        ));
        assert(tail + Seq::<BundleEntryV>::empty() =~= Seq::<BundleEntryV>::empty() + tail);
        assert(spec_repack_runtime(s, cfg) == Seq::<BundleEntryV>::empty());
    } else {
        assert(s.push(e)[0] == s[0]);
        assert(s.push(e).skip(1) =~= s.skip(1).push(e));
        lemma_repack_runtime_snoc(s.skip(1), e, cfg);
        let head = opt_entry_seq(spec_repack_entry(s[0], cfg));
        let mid = spec_repack_runtime(s.skip(1), cfg);
        let tail = opt_entry_seq(spec_repack_entry(e, cfg));
        assert(spec_repack_runtime(s.push(e), cfg) == head + (mid + tail));
        assert(head + (mid + tail) =~= (head + mid) + tail);
        assert(spec_repack_runtime(s, cfg) == head + mid);
    }
}

/// The models of a sequence of source entries.
pub open spec fn source_views(s: Seq<SourceEntry>) -> Seq<SourceEntryV> {
    s.map_values(|e: SourceEntry| e@)
}

/// The models of a sequence of bundle entries.
pub open spec fn entry_views(s: Seq<BundleEntry>) -> Seq<BundleEntryV> {
    s.map_values(|b: BundleEntry| b@)
}

/// The application archive's entry at the bundle root.
pub open spec fn jar_root_entry(jar: Seq<u8>) -> BundleEntryV {
    BundleEntryV {
        name: "plantuml.jar"@,
        kind: BundleEntryKindV::File { data: jar, mode: default_file_mode() },
    }
}

/// The canonical bundle: the application archive at the root, then the
/// repackaged runtime payload.
pub open spec fn spec_canonical_bundle(
    jar: Seq<u8>,
    entries: Seq<SourceEntryV>,
    cfg: RepackConfig,
) -> Seq<BundleEntryV> {
    seq![jar_root_entry(jar)] + spec_repack_runtime(entries, cfg)
}

/// Repackage a runtime distribution's entries and the application archive
/// into the canonical bundle layout.
pub fn repackage(jar_bytes: Vec<u8>, entries: &Vec<SourceEntry>, cfg: &RepackConfig) -> (r: Vec<
    BundleEntry,
>)
    ensures
        entry_views(r@) == spec_canonical_bundle(jar_bytes@, source_views(entries@), *cfg),
{
    let ghost jar_view = jar_bytes@;
    let ghost sources = source_views(entries@);
    let mut out: Vec<BundleEntry> = Vec::new();
    out.push(
        BundleEntry {
            name: String::from_str("plantuml.jar"),
            kind: BundleEntryKind::File { data: jar_bytes, mode: 0o644 },
        },
    );
    proof {
        assert(entry_views(out@) =~= seq![jar_root_entry(jar_view)] + spec_repack_runtime(
            sources.take(0),
            *cfg,
        ));
    }
    let mut i: usize = 0;
    while i < entries.len()
        invariant
            0 <= i <= entries.len(),
            sources == source_views(entries@),
            sources.len() == entries@.len(),
            entry_views(out@) == seq![jar_root_entry(jar_view)] + spec_repack_runtime(
                sources.take(i as int),
                *cfg,
            ),
        decreases entries.len() - i,
    {
        let ghost prev = entry_views(out@);
        let kept = repack_entry(&entries[i], cfg);
        proof {
            assert(sources[i as int] == entries@[i as int]@);
            assert(sources.take(i + 1) =~= sources.take(i as int).push(sources[i as int]));
            lemma_repack_runtime_snoc(sources.take(i as int), sources[i as int], *cfg);
        }
        match kept {
            Option::Some(b) => {
                let ghost bv = b@;
                out.push(b);
                proof {
                    assert(entry_views(out@) =~= prev.push(bv));
                    assert(prev.push(bv) =~= seq![jar_root_entry(jar_view)]
                        + spec_repack_runtime(sources.take(i + 1), *cfg));
                }
            },
            Option::None => {
                proof {
                    assert(entry_views(out@) =~= seq![jar_root_entry(jar_view)]
                        + spec_repack_runtime(sources.take(i + 1), *cfg));
                }
            },
        }
        i += 1;
    }
    proof {
        assert(sources.take(sources.len() as int) =~= sources);
    }
    out
}

} // verus!
