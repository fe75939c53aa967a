//! The container formats: the canonical bundle, read and written through
//! the `zip` crate, and the gzipped-tar runtime distribution, decoded
//! through `flate2` and `tar`.
//!
//! The trusted boundary is as thin as the crate's API allows: the archive
//! and writer types are declared opaque, their contents are named, and one
//! wrapper stands for each operation the verified code performs. The
//! loops that decode a bundle into entries and encode entries into a
//! bundle are verified against those contracts.

use vstd::prelude::*;
use vstd::string::*;

use std::io::Read;

use crate::builder::{
    entry_views, BundleEntry, BundleEntryKind, BundleEntryKindV, BundleEntryV, SourceEntry,
    SourceEntryKind,
};
use crate::cache::ArchiveEntry;
use crate::error::PlantUmlError;

verus! {

#[verifier::external_type_specification]
#[verifier::external_body]
#[verifier::reject_recursive_types(T)]
pub struct ExCursor<T>(std::io::Cursor<T>);

#[verifier::external_type_specification]
#[verifier::external_body]
#[verifier::reject_recursive_types(R)]
pub struct ExZipArchive<R>(zip::ZipArchive<R>);

/// An in-memory writer for the canonical bundle. The `zip` crate's writer
/// type carries trait bounds Verus cannot declare, so it is held opaque in
/// a private field; the contents are reached only through `written_entries`
/// and the wrappers below.
#[verifier::external_body]
pub struct BundleWriter {
    inner: zip::ZipWriter<std::io::Cursor<Vec<u8>>>,
}

/// The entries an opened archive holds, each as (name, whether it is a
/// directory, the bytes its data decompresses to, its stored Unix mode).
pub uninterp spec fn archive_entries(a: zip::ZipArchive<std::io::Cursor<Vec<u8>>>) -> Seq<
    (Seq<char>, bool, Seq<u8>, Option<u32>),
>;

/// The entries a writer has taken so far, in the same shape.
pub uninterp spec fn written_entries(w: BundleWriter) -> Seq<
    (Seq<char>, bool, Seq<u8>, Option<u32>),
>;

/// What the given bytes fully decode to as an archive: the listed
/// entries, or nothing when the container is malformed or any entry's
/// data cannot be produced. Decoding is a function of the bytes alone.
pub uninterp spec fn zip_entries_of(bytes: Seq<u8>) -> Option<
    Seq<(Seq<char>, bool, Seq<u8>, Option<u32>)>,
>;

/// Whether entry `i` of an opened archive can be produced: its metadata
/// and data decode. A function of the archive's underlying bytes, so
/// reading other entries does not change it.
pub uninterp spec fn entry_readable(a: zip::ZipArchive<std::io::Cursor<Vec<u8>>>, i: int) -> bool;

/// Whether the writer accepts one more file entry with this name, data
/// and permission bits, after the entries it already holds: the container
/// bounds names and sizes and refuses duplicate names.
pub uninterp spec fn file_write_accepted(
    prior: Seq<(Seq<char>, bool, Seq<u8>, Option<u32>)>,
    name: Seq<char>,
    data: Seq<u8>,
    mode: u32,
) -> bool;

/// Whether the writer accepts one more directory entry with this name,
/// after the entries it already holds.
pub uninterp spec fn dir_write_accepted(
    prior: Seq<(Seq<char>, bool, Seq<u8>, Option<u32>)>,
    name: Seq<char>,
) -> bool;

/// Whether the writer can finalize an archive holding these entries.
pub uninterp spec fn finish_accepted(written: Seq<(Seq<char>, bool, Seq<u8>, Option<u32>)>) -> bool;

/// What the given bytes decompress to as a gzip stream, or nothing when
/// they are not one. A function of the bytes alone.
pub uninterp spec fn gunzip_of(bytes: Seq<u8>) -> Option<Seq<u8>>;

/// What the given bytes fully decode to as a tar stream: each entry as a
/// source entry, or nothing when the stream is malformed. A function of
/// the bytes alone.
pub uninterp spec fn tar_entries_of(bytes: Seq<u8>) -> Option<Seq<crate::builder::SourceEntryV>>;

/// Relies on zip::read::ZipArchive::new: opening in-memory bytes parses
/// the central directory. Bytes that fully decode open successfully, to
/// an archive holding the decoded entries, every one of them readable;
/// conversely an open archive whose every entry is readable is a full
/// decode of its bytes.
#[verifier::external_body]
fn open_archive(bytes: &Vec<u8>) -> (r: Result<
    zip::ZipArchive<std::io::Cursor<Vec<u8>>>,
    String,
>)
    ensures
        r matches Err(_) ==> zip_entries_of(bytes@) is None,
        zip_entries_of(bytes@) is Some ==> r is Ok,
        ({
            match r {
                Ok(a) => {
                    &&& (zip_entries_of(bytes@) matches Some(es) ==> archive_entries(a) == es
                        && (forall|j: int|
                            0 <= j < archive_entries(a).len() ==> #[trigger] entry_readable(a, j)))
                    &&& ((forall|j: int|
                        0 <= j < archive_entries(a).len() ==> #[trigger] entry_readable(a, j))
                        ==> zip_entries_of(bytes@) == Some(archive_entries(a)))
                },
                Err(_) => true,
            }
        }),
{
    zip::ZipArchive::new(std::io::Cursor::new(bytes.clone())).map_err(|e| e.to_string())
}

/// Relies on zip::read::ZipArchive::len: the number of entries.
#[verifier::external_body]
fn archive_len(a: &zip::ZipArchive<std::io::Cursor<Vec<u8>>>) -> (r: usize)
    ensures
        r == archive_entries(*a).len(),
{
    a.len()
}

/// Relies on zip::read::ZipArchive::by_index and the entry accessors
/// name, is_dir and unix_mode, plus Read::read_to_end for the entry's
/// data: produce entry `i`. Reading moves the underlying cursor but
/// leaves the archive's contents as they were.
#[verifier::external_body]
fn read_entry(a: &mut zip::ZipArchive<std::io::Cursor<Vec<u8>>>, i: usize) -> (r: Result<
    ArchiveEntry,
    String,
>)
    requires
        i < archive_entries(*old(a)).len(),
    ensures
        archive_entries(*final(a)) == archive_entries(*old(a)),
        forall|j: int| #[trigger] entry_readable(*final(a), j) == entry_readable(*old(a), j),
        r is Ok <==> entry_readable(*old(a), i as int),
        r matches Ok(e) ==> (e.name@, e.is_dir, e.data@, e.mode) == archive_entries(*old(a))[
            i as int
        ],
{
    let mut f = a.by_index(i).map_err(|e| e.to_string())?;
    let name = f.name().to_string();
    let is_dir = f.is_dir();
    let mode = f.unix_mode();
    let mut data = Vec::new();
    f.read_to_end(&mut data).map_err(|e| e.to_string())?;
    Ok(ArchiveEntry { name, is_dir, data, mode })
}

/// Relies on zip::write::ZipWriter::new over an in-memory cursor: a new
/// writer holds no entries.
#[verifier::external_body]
fn new_bundle_writer() -> (r: BundleWriter)
    ensures
        written_entries(r) == Seq::<(Seq<char>, bool, Seq<u8>, Option<u32>)>::empty(),
{
    BundleWriter { inner: zip::ZipWriter::new(std::io::Cursor::new(Vec::new())) }
}

/// Relies on zip::write::ZipWriter::start_file with explicit Unix
/// permissions, plus Write::write_all for the bytes: appends one file
/// entry, stored under the given name with the regular-file type bit
/// joined to the permissions.
#[verifier::external_body]
fn write_file_entry(w: &mut BundleWriter, name: &str, data: &Vec<u8>, mode: u32) -> (r: Result<
    (),
    String,
>)
    requires
        mode <= 0o777,
        name@.len() > 0,
        name@[name@.len() - 1] != '/',
        name@[name@.len() - 1] != '\\',
    ensures
        r is Ok <==> file_write_accepted(written_entries(*old(w)), name@, data@, mode),
        r is Ok ==> written_entries(*final(w)) == written_entries(*old(w)).push(
            (name@, false, data@, Some(mode | 0o100000u32)),
        ),
{
    let options = zip::write::SimpleFileOptions::default().unix_permissions(mode);
    w.inner.start_file(name, options).map_err(|e| e.to_string())?;
    std::io::Write::write_all(&mut w.inner, data.as_slice()).map_err(|e| e.to_string())?;
    Ok(())
}

/// Relies on zip::write::ZipWriter::add_directory: appends one directory
/// entry under the given name — kept verbatim, since it already ends with
/// the separator — with the default directory permissions and the
/// directory type bit.
#[verifier::external_body]
fn write_dir_entry(w: &mut BundleWriter, name: &str) -> (r: Result<(), String>)
    requires
        name@.len() > 0,
        name@[name@.len() - 1] == '/',
    ensures
        r is Ok <==> dir_write_accepted(written_entries(*old(w)), name@),
        r is Ok ==> written_entries(*final(w)) == written_entries(*old(w)).push(
            (name@, true, Seq::<u8>::empty(), Some(0o40755u32)),
        ),
{
    w.inner.add_directory(name, zip::write::SimpleFileOptions::default()).map_err(
        |e| e.to_string(),
    )
}

/// Relies on zip::write::ZipWriter::finish and Cursor::into_inner: the
/// finished bytes decode to exactly the entries written, in order.
#[verifier::external_body]
fn finish_writer(w: BundleWriter) -> (r: Result<Vec<u8>, String>)
    ensures
        r is Ok <==> finish_accepted(written_entries(w)),
        r matches Ok(b) ==> zip_entries_of(b@) == Some(written_entries(w)),
{
    match w.inner.finish() {
        Ok(c) => Ok(c.into_inner()),
        Err(e) => Err(e.to_string()),
    }
}

/// Relies on flate2::read::GzDecoder and Read::read_to_end: gzip
/// decompression of in-memory bytes, a function of the bytes alone.
#[verifier::external_body]
fn gunzip(bytes: &Vec<u8>) -> (r: Result<Vec<u8>, String>)
    ensures
        r matches Ok(o) ==> gunzip_of(bytes@) == Some(o@),
        r matches Err(_) ==> gunzip_of(bytes@) is None,
{
    let mut decoder = flate2::read::GzDecoder::new(bytes.as_slice());
    let mut out = Vec::new();
    decoder.read_to_end(&mut out).map_err(|e| e.to_string())?;
    Ok(out)
}

/// Relies on tar::Archive with entries and the per-entry accessors path,
/// entry_type and mode, plus Read::read_to_end for each file's data:
/// decoding a tar stream held in memory, a function of the bytes alone.
/// The entry iterator borrows the archive and so cannot cross this
/// boundary; the whole iteration stands here with the calls.
#[verifier::external_body]
fn decode_tar(bytes: Vec<u8>) -> (r: Option<Vec<crate::builder::SourceEntry>>)
    ensures
        r matches Some(es) ==> tar_entries_of(bytes@) == Some(crate::builder::source_views(es@)),
        r is None ==> tar_entries_of(bytes@) is None,
{
    let mut archive = tar::Archive::new(std::io::Cursor::new(bytes));
    let mut out = Vec::new();
    for entry in archive.entries().ok()? {
        let mut entry = entry.ok()?;
        let name = entry.path().ok()?.to_string_lossy().into_owned();
        let t = entry.header().entry_type();
        let mode = entry.header().mode().ok();
        let mut data = Vec::new();
        if t.is_file() {
            entry.read_to_end(&mut data).ok()?;
        }
        let kind = if t.is_dir() { SourceEntryKind::Directory } else if t.is_file() { SourceEntryKind::File { data, mode } } else { SourceEntryKind::Other };
        out.push(SourceEntry { name, kind });
    }
    Some(out)
}

/// The models of archive entries, in the shape the container names them.
pub open spec fn archive_entry_tuples(s: Seq<ArchiveEntry>) -> Seq<
    (Seq<char>, bool, Seq<u8>, Option<u32>),
> {
    s.map_values(|e: ArchiveEntry| (e.name@, e.is_dir, e.data@, e.mode))
}

/// Decode the canonical bundle's bytes into its entries: bytes that
/// fully decode yield exactly the decoded entries, and any failure — a
/// malformed container, which is the only way to fail — is an extraction
/// error.
pub fn read_bundle_entries(bytes: Vec<u8>) -> (r: Result<Vec<ArchiveEntry>, PlantUmlError>)
    ensures
        r matches Ok(es) ==> zip_entries_of(bytes@) == Some(archive_entry_tuples(es@)),
        r matches Err(e) ==> e is BinaryExtraction && zip_entries_of(bytes@) is None,
        zip_entries_of(bytes@) is Some ==> r is Ok,
{
    let mut a = match open_archive(&bytes) {
        Ok(a) => a,
        Err(m) => {
            return Err(PlantUmlError::BinaryExtraction(m));
        },
    };
    let ghost a0 = a;
    let ghost ts = archive_entries(a);
    let n = archive_len(&a);
    let mut out: Vec<ArchiveEntry> = Vec::new();
    proof {
        assert(archive_entry_tuples(out@) =~= ts.take(0));
    }
    let mut i: usize = 0;
    while i < n
        invariant
            0 <= i <= n,
            archive_entries(a) == ts,
            n == ts.len(),
            archive_entry_tuples(out@) == ts.take(i as int),
            forall|j: int| #[trigger] entry_readable(a, j) == entry_readable(a0, j),
            forall|j: int| 0 <= j < i ==> #[trigger] entry_readable(a0, j),
            zip_entries_of(bytes@) is Some ==> (forall|j: int|
                0 <= j < ts.len() ==> #[trigger] entry_readable(a0, j)),
            (forall|j: int| 0 <= j < ts.len() ==> #[trigger] entry_readable(a0, j))
                ==> zip_entries_of(bytes@) == Some(ts),
        decreases n - i,
    {
        let ghost prev = archive_entry_tuples(out@);
        let ghost a_pre = a;
        let e = match read_entry(&mut a, i) {
            Ok(e) => e,
            Err(m) => {
                proof {
                    if zip_entries_of(bytes@) is Some {
                        assert(entry_readable(a_pre, i as int) == entry_readable(a0, i as int));
                        assert(entry_readable(a0, i as int));
                        assert(!entry_readable(a_pre, i as int));
                    }
                }
                return Err(PlantUmlError::BinaryExtraction(m));
            },
        };
        let ghost ev = (e.name@, e.is_dir, e.data@, e.mode);
        out.push(e);
        proof {
            assert(archive_entry_tuples(out@) =~= prev.push(ev));
            assert(prev.push(ev) =~= ts.take(i + 1));
            assert(entry_readable(a_pre, i as int));
            assert(entry_readable(a0, i as int));
            assert forall|j: int| #[trigger] entry_readable(a, j) == entry_readable(a0, j) by {
                assert(entry_readable(a, j) == entry_readable(a_pre, j));
            }
        }
        i += 1;
    }
    proof {
        assert(ts.take(ts.len() as int) =~= ts);
        assert(zip_entries_of(bytes@) == Some(ts));
    }
    Ok(out)
}

/// The model of a container entry as a source entry: a directory by its
/// flag, anything else a file with its bytes and stored mode.
pub open spec fn source_of_tuple(t: (Seq<char>, bool, Seq<u8>, Option<u32>)) -> crate::builder::SourceEntryV {
    if t.1 {
        crate::builder::SourceEntryV { name: t.0, kind: crate::builder::SourceEntryKindV::Directory }
    } else {
        crate::builder::SourceEntryV {
            name: t.0,
            kind: crate::builder::SourceEntryKindV::File { data: t.2, mode: t.3 },
        }
    }
}

/// Decode a runtime distribution's archive into source entries, according
/// to its declared format: a ZIP is read entry by entry, a gzipped tar is
/// decompressed and then decoded. Decodable bytes yield exactly the
/// decoded entries; any failure is an extraction error.
pub fn decode_runtime_archive(
    bytes: Vec<u8>,
    format: crate::builder::ArchiveFormat,
) -> (r: Result<Vec<crate::builder::SourceEntry>, PlantUmlError>)
    ensures
        ({
            match format {
                crate::builder::ArchiveFormat::Zip => {
                    &&& (r matches Ok(es) ==> (zip_entries_of(bytes@) matches Some(ts)
                        && crate::builder::source_views(es@) == ts.map_values(
                        |t: (Seq<char>, bool, Seq<u8>, Option<u32>)| source_of_tuple(t),
                    )))
                    &&& (zip_entries_of(bytes@) is Some ==> r is Ok)
                    &&& (r matches Err(e) ==> e is BinaryExtraction && zip_entries_of(bytes@)
                        is None)
                },
                crate::builder::ArchiveFormat::GzipTar => {
                    &&& (r matches Ok(es) ==> (gunzip_of(bytes@) matches Some(tb)
                        && tar_entries_of(tb) == Some(crate::builder::source_views(es@))))
                    &&& (gunzip_of(bytes@) matches Some(tb) && tar_entries_of(tb) is Some
                        ==> r is Ok)
                    &&& (r matches Err(e) ==> e is BinaryExtraction)
                },
            }
        }),
{
    match format {
        crate::builder::ArchiveFormat::Zip => {
            let decoded = match read_bundle_entries(bytes) {
                Ok(d) => d,
                Err(e) => {
                    return Err(e);
                },
            };
            let ghost ts = archive_entry_tuples(decoded@);
            let ghost sm = ts.map_values(
                |t: (Seq<char>, bool, Seq<u8>, Option<u32>)| source_of_tuple(t),
            );
            let mut out: Vec<crate::builder::SourceEntry> = Vec::new();
            proof {
                assert(crate::builder::source_views(out@) =~= sm.take(0));
            }
            let mut i: usize = 0;
            while i < decoded.len()
                invariant
                    0 <= i <= decoded.len(),
                    ts == archive_entry_tuples(decoded@),
                    sm == ts.map_values(
                        |t: (Seq<char>, bool, Seq<u8>, Option<u32>)| source_of_tuple(t),
                    ),
                    sm.len() == decoded@.len(),
                    crate::builder::source_views(out@) == sm.take(i as int),
                decreases decoded.len() - i,
            {
                let ghost prev = crate::builder::source_views(out@);
                let e = &decoded[i];
                let entry = if e.is_dir {
                    crate::builder::SourceEntry {
                        name: e.name.clone(),
                        kind: crate::builder::SourceEntryKind::Directory,
                    }
                } else {
                    crate::builder::SourceEntry {
                        name: e.name.clone(),
                        kind: crate::builder::SourceEntryKind::File {
                            data: crate::builder::clone_bytes(&e.data),
                            mode: e.mode,
                        },
                    }
                };
                proof {
                    assert(ts[i as int] == (e.name@, e.is_dir, e.data@, e.mode));
                    assert(sm[i as int] == source_of_tuple(ts[i as int]));
                    assert(entry@ == sm[i as int]);
                }
                out.push(entry);
                proof {
                    assert(crate::builder::source_views(out@) =~= prev.push(entry@));
                    assert(prev.push(entry@) =~= sm.take(i + 1));
                }
                i += 1;
            }
            proof {
                assert(sm.take(sm.len() as int) =~= sm);
            }
            Ok(out)
        },
        crate::builder::ArchiveFormat::GzipTar => {
            let tarball = match gunzip(&bytes) {
                Ok(t) => t,
                Err(m) => {
                    return Err(PlantUmlError::BinaryExtraction(m));
                },
            };
            match decode_tar(tarball) {
                Some(es) => Ok(es),
                None => Err(
                    PlantUmlError::BinaryExtraction(String::from_str("malformed runtime archive")),
                ),
            }
        },
    }
}

/// The stored mode of a repackaged file: its permission bits joined with
/// the regular-file type bit the container adds.
pub open spec fn stored_file_mode(mode: u32) -> u32 {
    (mode & 0o777) | 0o100000u32
}

/// The stored mode of a directory entry: the container's default
/// directory permissions with the directory type bit.
pub open spec fn stored_dir_mode() -> u32 {
    0o40755
}

/// How one bundle entry is stored in the container.
pub open spec fn encoded_tuple(b: BundleEntryV) -> (Seq<char>, bool, Seq<u8>, Option<u32>) {
    match b.kind {
        BundleEntryKindV::Directory => (b.name, true, Seq::<u8>::empty(), Some(stored_dir_mode())),
        BundleEntryKindV::File { data, mode } => (b.name, false, data, Some(stored_file_mode(mode))),
    }
}

/// How a sequence of bundle entries is stored in the container.
pub open spec fn encoded_tuples(s: Seq<BundleEntryV>) -> Seq<
    (Seq<char>, bool, Seq<u8>, Option<u32>),
> {
    s.map_values(|b: BundleEntryV| encoded_tuple(b))
}

/// A name the container can store as the entry kind claims: directory
/// names end with the separator, file names do not.
pub open spec fn wf_bundle_entry(b: BundleEntryV) -> bool {
    match b.kind {
        BundleEntryKindV::Directory => b.name.len() > 0 && b.name[b.name.len() - 1] == '/',
        BundleEntryKindV::File { .. } => b.name.len() > 0 && b.name[b.name.len() - 1] != '/'
            && b.name[b.name.len() - 1] != '\\',
    }
}

/// Every entry's name fits its kind.
pub open spec fn wf_bundle(s: Seq<BundleEntryV>) -> bool {
    forall|i: int| 0 <= i < s.len() ==> wf_bundle_entry(#[trigger] s[i])
}

/// A source entry the container rules can take through repackaging: a
/// file's name must not read as a directory's. Directory names need no
/// shape — repackaging normalizes them — and entries of other kinds are
/// discarded anyway.
pub open spec fn wf_source_entry(e: crate::builder::SourceEntryV) -> bool {
    match e.kind {
        crate::builder::SourceEntryKindV::Directory => true,
        crate::builder::SourceEntryKindV::File { .. } => e.name.len() > 0 && e.name[e.name.len()
            - 1] != '/' && e.name[e.name.len() - 1] != '\\',
        crate::builder::SourceEntryKindV::Other => true,
    }
}

/// Every source entry's name fits its kind.
pub open spec fn wf_sources(s: Seq<crate::builder::SourceEntryV>) -> bool {
    forall|i: int| 0 <= i < s.len() ==> wf_source_entry(#[trigger] s[i])
}

/// A kept canonical name ends with the same character its source name
/// ends with: stripping only removes leading segments.
proof fn lemma_canonical_keeps_last_char(name: Seq<char>, strip_macos: bool)
    ensures
        crate::builder::canonical_rel_name(name, strip_macos) matches Some(rel) ==> rel.len() > 0
            && name.len() > 0 && rel[rel.len() - 1] == name[name.len() - 1],
{
    reveal_strlit("Contents/Home/");
    reveal_strlit("Contents/Home");
    if crate::builder::canonical_rel_name(name, strip_macos) is Some {
        let k = crate::text::first_index_of(name, '/');
        crate::text::lemma_first_index_of(name, '/');
        let rel0 = crate::builder::strip_first_segment(name);
        assert(rel0 == name.skip(k + 1));
        if rel0.len() > 0 {
            assert(rel0[rel0.len() - 1] == name[name.len() - 1]);
        }
        if strip_macos {
            let rel1 = crate::builder::strip_macos_home(rel0);
            if crate::builder::macos_home_prefix().is_prefix_of(rel0) {
                let p = crate::builder::macos_home_prefix().len() as int;
                assert(rel1 == rel0.skip(p));
                if rel1.len() > 0 {
                    assert(rel1[rel1.len() - 1] == rel0[rel0.len() - 1]);
                }
            }
        }
    }
}

/// A repackaged entry is well formed whenever its source entry was.
proof fn lemma_repack_entry_wf(e: crate::builder::SourceEntryV, cfg: crate::builder::RepackConfig)
    requires
        wf_source_entry(e),
    ensures
        crate::builder::spec_repack_entry(e, cfg) matches Some(b) ==> wf_bundle_entry(b),
{
    lemma_canonical_keeps_last_char(e.name, cfg.strip_macos_wrapper);
    match crate::builder::canonical_rel_name(e.name, cfg.strip_macos_wrapper) {
        Some(rel) => {
            let dir_rel = crate::builder::spec_dir_rel(rel);
            assert(dir_rel.len() > 0 && dir_rel[dir_rel.len() - 1] == '/');
            assert((crate::builder::runtime_prefix() + dir_rel)[(crate::builder::runtime_prefix()
                + dir_rel).len() - 1] == dir_rel[dir_rel.len() - 1]);
            assert((crate::builder::runtime_prefix() + rel)[(crate::builder::runtime_prefix()
                + rel).len() - 1] == rel[rel.len() - 1]);
        },
        None => {},
    }
}

/// The whole repackaged runtime payload is well formed whenever every
/// source entry was.
proof fn lemma_repack_runtime_wf(
    entries: Seq<crate::builder::SourceEntryV>,
    cfg: crate::builder::RepackConfig,
)
    requires
        wf_sources(entries),
    ensures
        wf_bundle(crate::builder::spec_repack_runtime(entries, cfg)),
    decreases entries.len(),
{
    if entries.len() == 0 {
    } else {
        assert(wf_sources(entries.skip(1))) by {
            assert(forall|i: int|
                0 <= i < entries.skip(1).len() ==> #[trigger] entries.skip(1)[i] == entries[i
                    + 1]);
        }
        lemma_repack_runtime_wf(entries.skip(1), cfg);
        assert(wf_source_entry(entries[0]));
        lemma_repack_entry_wf(entries[0], cfg);
        let head = crate::builder::opt_entry_seq(
            crate::builder::spec_repack_entry(entries[0], cfg),
        );
        let tail = crate::builder::spec_repack_runtime(entries.skip(1), cfg);
        assert forall|i: int|
            0 <= i < crate::builder::spec_repack_runtime(entries, cfg).len() implies
            wf_bundle_entry(crate::builder::spec_repack_runtime(entries, cfg)[i]) by {
            if i >= head.len() {
                assert(crate::builder::spec_repack_runtime(entries, cfg)[i] == tail[i
                    - head.len()]);
            }
        }
    }
}

/// The whole canonical bundle is well formed whenever every source entry
/// was: the root entry's fixed name is a file name, and every repackaged
/// name keeps its source's trailing character.
pub proof fn lemma_canonical_bundle_wf(
    jar: Seq<u8>,
    entries: Seq<crate::builder::SourceEntryV>,
    cfg: crate::builder::RepackConfig,
)
    requires
        wf_sources(entries),
    ensures
        wf_bundle(crate::builder::spec_canonical_bundle(jar, entries, cfg)),
{
    lemma_repack_runtime_wf(entries, cfg);
    let root = crate::builder::jar_root_entry(jar);
    assert(wf_bundle_entry(root)) by {
        reveal_strlit("plantuml.jar");
    }
    let all = crate::builder::spec_canonical_bundle(jar, entries, cfg);
    let tail = crate::builder::spec_repack_runtime(entries, cfg);
    assert forall|i: int| 0 <= i < all.len() implies wf_bundle_entry(all[i]) by {
        if i == 0 {
            assert(all[0] == root);
        } else {
            assert(all[i] == tail[i - 1]);
        }
    }
}

/// Build the canonical bundle's bytes: repackage the runtime entries and
/// the application archive, then encode. On success the bytes decode to
/// exactly the canonical bundle; any failure is an extraction error.
pub fn build_canonical_bundle(
    jar_bytes: Vec<u8>,
    entries: &Vec<crate::builder::SourceEntry>,
    cfg: &crate::builder::RepackConfig,
) -> (r: Result<Vec<u8>, PlantUmlError>)
    requires
        wf_sources(crate::builder::source_views(entries@)),
    ensures
        match r {
            Ok(b) => zip_entries_of(b@) == Some(
                encoded_tuples(
                    crate::builder::spec_canonical_bundle(
                        jar_bytes@,
                        crate::builder::source_views(entries@),
                        *cfg,
                    ),
                ),
            ),
            Err(e) => e is BinaryExtraction,
        },
        r is Ok <==> all_writes_accepted(
            crate::builder::spec_canonical_bundle(
                jar_bytes@,
                crate::builder::source_views(entries@),
                *cfg,
            ),
        ) && finish_accepted(
            encoded_tuples(
                crate::builder::spec_canonical_bundle(
                    jar_bytes@,
                    crate::builder::source_views(entries@),
                    *cfg,
                ),
            ),
        ),
{
    let ghost jar_view = jar_bytes@;
    let repacked = crate::builder::repackage(jar_bytes, entries, cfg);
    proof {
        lemma_canonical_bundle_wf(jar_view, crate::builder::source_views(entries@), *cfg);
    }
    encode_bundle(&repacked)
}

/// Whether the writer accepts one more bundle entry after the given
/// prior entries: directories by name, files by name, data and masked
/// permission bits.
pub open spec fn entry_write_accepted(
    prior: Seq<(Seq<char>, bool, Seq<u8>, Option<u32>)>,
    b: BundleEntryV,
) -> bool {
    match b.kind {
        BundleEntryKindV::Directory => dir_write_accepted(prior, b.name),
        BundleEntryKindV::File { data, mode } => file_write_accepted(
            prior,
            b.name,
            data,
            mode & 0o777,
        ),
    }
}

/// Whether the writer accepts every entry of the sequence, written in
/// order from an empty archive.
pub open spec fn all_writes_accepted(s: Seq<BundleEntryV>) -> bool {
    forall|i: int|
        0 <= i < s.len() ==> #[trigger] entry_write_accepted(encoded_tuples(s.take(i)), s[i])
}

/// Encode canonical-bundle entries into the container's bytes. On
/// success the bytes decode to exactly the given entries, in order, each
/// stored as `encoded_tuple` says; any failure is an extraction error.
pub fn encode_bundle(entries: &Vec<BundleEntry>) -> (r: Result<Vec<u8>, PlantUmlError>)
    requires
        wf_bundle(entry_views(entries@)),
    ensures
        match r {
            Ok(b) => zip_entries_of(b@) == Some(encoded_tuples(entry_views(entries@))),
            Err(e) => e is BinaryExtraction,
        },
        r is Ok <==> all_writes_accepted(entry_views(entries@)) && finish_accepted(
            encoded_tuples(entry_views(entries@)),
        ),
{
    let ghost models = entry_views(entries@);
    let mut w = new_bundle_writer();
    proof {
        assert(written_entries(w) =~= encoded_tuples(models.take(0)));
    }
    let mut i: usize = 0;
    while i < entries.len()
        invariant
            0 <= i <= entries.len(),
            models == entry_views(entries@),
            models.len() == entries@.len(),
            wf_bundle(models),
            written_entries(w) == encoded_tuples(models.take(i as int)),
            forall|k: int|
                0 <= k < i ==> #[trigger] entry_write_accepted(
                    encoded_tuples(models.take(k)),
                    models[k],
                ),
        decreases entries.len() - i,
    {
        let ghost prev = written_entries(w);
        proof {
            assert(models[i as int] == entries@[i as int]@);
            assert(wf_bundle_entry(models[i as int]));
            assert(models.take(i + 1) =~= models.take(i as int).push(models[i as int]));
            assert(encoded_tuples(models.take(i + 1)) =~= encoded_tuples(
                models.take(i as int),
            ).push(encoded_tuple(models[i as int])));
        }
        let entry = &entries[i];
        match &entry.kind {
            BundleEntryKind::Directory => {
                match write_dir_entry(&mut w, entry.name.as_str()) {
                    Ok(_) => {},
                    Err(m) => {
                        proof {
                            assert(!entry_write_accepted(
                                encoded_tuples(models.take(i as int)),
                                models[i as int],
                            ));
                        }
                        return Err(PlantUmlError::BinaryExtraction(m));
                    },
                }
            },
            BundleEntryKind::File { data, mode } => {
                let masked = *mode & 0o777;
                proof {
                    assert(masked <= 0o777 && masked == (*mode & 0o777)) by (bit_vector)
                        requires
                            masked == *mode & 0o777,
                    ;
                }
                match write_file_entry(&mut w, entry.name.as_str(), data, masked) {
                    Ok(_) => {},
                    Err(m) => {
                        proof {
                            assert(!entry_write_accepted(
                                encoded_tuples(models.take(i as int)),
                                models[i as int],
                            ));
                        }
                        return Err(PlantUmlError::BinaryExtraction(m));
                    },
                }
                proof {
                    assert((masked | 0o100000u32) == stored_file_mode(*mode)) by (bit_vector)
                        requires
                            masked == *mode & 0o777,
                    ;
                }
            },
        }
        proof {
            assert(entry_write_accepted(encoded_tuples(models.take(i as int)), models[i as int]));
        }
        i += 1;
    }
    proof {
        assert(models.take(models.len() as int) =~= models);
        assert(all_writes_accepted(models));
    }
    match finish_writer(w) {
        Ok(b) => Ok(b),
        Err(m) => Err(PlantUmlError::BinaryExtraction(m)),
    }
}

} // verus!
