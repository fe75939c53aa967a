//! Extraction planning for the canonical bundle.
//!
//! Resolution first checks completeness: when the runtime executable and
//! the application archive both already exist in the cache directory, no
//! extraction happens. Otherwise every bundle entry becomes filesystem
//! work: a directory entry becomes a directory creation, a file entry
//! becomes a parent-directory creation followed by a file write with the
//! entry's bytes and stored mode. The plan is computed here; carrying it
//! out is the surrounding program's task.

use vstd::prelude::*;
use vstd::string::*;

use crate::builder::clone_bytes;

verus! {

/// One entry read back from the canonical bundle.
#[derive(Debug, Clone, PartialEq, Eq)]
pub struct ArchiveEntry {
    pub name: String,
    pub is_dir: bool,
    pub data: Vec<u8>,
    pub mode: Option<u32>,
}

/// Mathematical model of an extracted-archive entry.
pub struct ArchiveEntryV {
    pub name: Seq<char>,
    pub is_dir: bool,
    pub data: Seq<u8>,
    pub mode: Option<u32>,
}

impl View for ArchiveEntry {
    type V = ArchiveEntryV;

    open spec fn view(&self) -> ArchiveEntryV {
        ArchiveEntryV { name: self.name@, is_dir: self.is_dir, data: self.data@, mode: self.mode }
    }
}

/// One step of filesystem work: create a directory tree, or write one
/// file with the given bytes, preserving the given mode where the
/// platform honors modes.
#[derive(Debug, Clone, PartialEq, Eq)]
pub enum ExtractAction {
    MakeDir(String),
    WriteFile { path: String, data: Vec<u8>, mode: Option<u32> },
}

/// Mathematical model of an extraction step.
pub enum ExtractActionV {
    MakeDir(Seq<char>),
    WriteFile { path: Seq<char>, data: Seq<u8>, mode: Option<u32> },
}

impl View for ExtractAction {
    type V = ExtractActionV;

    open spec fn view(&self) -> ExtractActionV {
        match self {
            ExtractAction::MakeDir(d) => ExtractActionV::MakeDir(d@),
            ExtractAction::WriteFile { path, data, mode } => ExtractActionV::WriteFile {
                path: path@,
                data: data@,
                mode: *mode,
            },
        }
    }
}

/// Whether the bundle must be extracted: only when either expected file is
/// missing from the cache directory.
pub open spec fn spec_needs_extraction(
    runtime_exe_present: bool,
    app_archive_present: bool,
) -> bool {
    !(runtime_exe_present && app_archive_present)
}

/// Decide whether extraction is needed, from the presence of the two
/// expected files. Their presence is the sole completeness signal.
pub fn needs_extraction(runtime_exe_present: bool, app_archive_present: bool) -> (r: bool)
    ensures
        r == spec_needs_extraction(runtime_exe_present, app_archive_present),
{
    !(runtime_exe_present && app_archive_present)
}

/// A warmed cache — both expected files present — is never extracted
/// into again: resolution then is a pure filesystem check.
pub proof fn lemma_warm_cache_skips_extraction()
    ensures
        !spec_needs_extraction(true, true),
{
}

/// A directory path joined with an entry name.
pub open spec fn spec_join(dir: Seq<char>, name: Seq<char>) -> Seq<char> {
    dir + seq!['/'] + name
}

/// Join a directory path and an entry name with a separator.
pub fn join_path(dir: &str, name: &str) -> (r: String)
    ensures
        r@ == spec_join(dir@, name@),
{
    let mut out = dir.to_owned();
    out.append("/");
    out.append(name);
    proof {
        reveal_strlit("/");
        assert("/"@ =~= seq!['/']);
        assert(out@ =~= spec_join(dir@, name@));
    }
    out
}

/// Index of the last occurrence of `c` in `s`, or `-1` if `c` does not
/// occur.
pub open spec fn last_index_of(s: Seq<char>, c: char) -> int
    decreases s.len(),
{
    if s.len() == 0 {
        -1
    } else if s[s.len() - 1] == c {
        s.len() - 1
    } else {
        last_index_of(s.take(s.len() - 1), c)
    }
}

/// `last_index_of` is in bounds, points at `c` when `c` occurs, and
/// nothing after it is `c`.
pub proof fn lemma_last_index_of(s: Seq<char>, c: char)
    ensures
        -1 <= last_index_of(s, c) < s.len(),
        last_index_of(s, c) >= 0 ==> s[last_index_of(s, c)] == c,
        forall|j: int| last_index_of(s, c) < j < s.len() ==> s[j] != c,
    decreases s.len(),
{
    if s.len() == 0 {
    } else if s[s.len() - 1] == c {
    } else {
        lemma_last_index_of(s.take(s.len() - 1), c);
        assert forall|j: int| last_index_of(s, c) < j < s.len() implies s[j] != c by {
            if j < s.len() - 1 {
                assert(s.take(s.len() - 1)[j] == s[j]);
            }
        }
    }
}

/// Find the last occurrence of `c` in `s`.
pub fn find_last_char(s: &str, c: char) -> (r: Option<usize>)
    ensures
        match r {
            Option::Some(i) => i == last_index_of(s@, c),
            Option::None => last_index_of(s@, c) == -1,
        },
{
    proof {
        lemma_last_index_of(s@, c);
    }
    let n = s.unicode_len();
    let mut i: usize = n;
    while i > 0
        invariant
            0 <= i <= n,
            n == s@.len(),
            forall|j: int| i <= j < n ==> s@[j] != c,
            -1 <= last_index_of(s@, c) < s@.len(),
            last_index_of(s@, c) >= 0 ==> s@[last_index_of(s@, c)] == c,
            forall|j: int| last_index_of(s@, c) < j < s@.len() ==> s@[j] != c,
        decreases i,
    {
        i -= 1;
        if s.get_char(i) == c {
            proof {
                if last_index_of(s@, c) < i {
                    assert(s@[i as int] != c);
                }
                if last_index_of(s@, c) > i {
                    assert(s@[last_index_of(s@, c)] != c);
                }
            }
            return Option::Some(i);
        }
    }
    proof {
        if last_index_of(s@, c) >= 0 {
            assert(s@[last_index_of(s@, c)] != c);
        }
    }
    Option::None
}

/// The extraction steps for one bundle entry, inside `dir`: a directory
/// entry becomes its own creation; a file entry becomes the creation of
/// its parent directory, then the write of its bytes under its stored
/// mode.
pub open spec fn spec_entry_actions(dir: Seq<char>, e: ArchiveEntryV) -> Seq<ExtractActionV> {
    let path = spec_join(dir, e.name);
    if e.is_dir {
        seq![ExtractActionV::MakeDir(path)]
    } else {
        seq![
            ExtractActionV::MakeDir(path.take(last_index_of(path, '/'))),
            ExtractActionV::WriteFile { path, data: e.data, mode: e.mode },
        ]
    }
}

/// Append the extraction steps for one bundle entry to a plan being
/// built.
fn append_entry_actions(dir: &str, e: &ArchiveEntry, out: &mut Vec<ExtractAction>)
    ensures
        final(out)@.map_values(|a: ExtractAction| a@) == old(out)@.map_values(
            |a: ExtractAction| a@,
        ) + spec_entry_actions(dir@, e@),
{
    let ghost prev = out@.map_values(|a: ExtractAction| a@);
    let path = join_path(dir, e.name.as_str());
    let ghost pathv = path@;
    if e.is_dir {
        out.push(ExtractAction::MakeDir(path));
        proof {
            assert(out@.map_values(|a: ExtractAction| a@) =~= prev + spec_entry_actions(
                dir@,
                e@,
            ));
        }
    } else {
        proof {
            lemma_last_index_of(pathv, '/');
            assert(pathv[dir@.len() as int] == '/');
        }
        let slash = match find_last_char(path.as_str(), '/') {
            Option::Some(i) => i,
            Option::None => {
                proof {
                    assert(false);
                }
                0
            },
        };
        let parent = path.as_str().substring_char(0, slash).to_owned();
        proof {
            assert(parent@ =~= pathv.take(last_index_of(pathv, '/')));
        }
        out.push(ExtractAction::MakeDir(parent));
        out.push(ExtractAction::WriteFile { path, data: clone_bytes(&e.data), mode: e.mode });
        proof {
            assert(out@.map_values(|a: ExtractAction| a@) =~= prev + spec_entry_actions(
                dir@,
                e@,
            ));
        }
    }
}

/// The extraction steps for one bundle entry.
pub fn entry_actions(dir: &str, e: &ArchiveEntry) -> (r: Vec<ExtractAction>)
    ensures
        r@.map_values(|a: ExtractAction| a@) == spec_entry_actions(dir@, e@),
{
    let mut out: Vec<ExtractAction> = Vec::new();
    proof {
        assert(out@.map_values(|a: ExtractAction| a@) =~= Seq::<ExtractActionV>::empty());
    }
    append_entry_actions(dir, e, &mut out);
    proof {
        assert(Seq::<ExtractActionV>::empty() + spec_entry_actions(dir@, e@)
            =~= spec_entry_actions(dir@, e@));
    }
    out
}

/// The whole extraction plan: the steps of every entry, in bundle order.
pub open spec fn spec_extraction_plan(dir: Seq<char>, entries: Seq<ArchiveEntryV>) -> Seq<
    ExtractActionV,
>
    decreases entries.len(),
{
    if entries.len() == 0 {
        Seq::empty()
    } else {
        spec_entry_actions(dir, entries[0]) + spec_extraction_plan(dir, entries.skip(1))
    }
}

/// The plan distributes over appending one entry at the end.
pub proof fn lemma_extraction_plan_snoc(dir: Seq<char>, s: Seq<ArchiveEntryV>, e: ArchiveEntryV)
    ensures
        spec_extraction_plan(dir, s.push(e)) == spec_extraction_plan(dir, s)
            + spec_entry_actions(dir, e),
    decreases s.len(),
{
    if s.len() == 0 {
        assert(s.push(e)[0] == e);
        assert(s.push(e).skip(1) =~= Seq::<ArchiveEntryV>::empty());
        let tail = spec_entry_actions(dir, e);
        assert(spec_extraction_plan(dir, s.push(e)) == tail + spec_extraction_plan(
            dir,
            Seq::<ArchiveEntryV>::empty(),
        ));
        assert(tail + Seq::<ExtractActionV>::empty() =~= Seq::<ExtractActionV>::empty() + tail);
        assert(spec_extraction_plan(dir, s) == Seq::<ExtractActionV>::empty());
    } else {
        assert(s.push(e)[0] == s[0]);
        assert(s.push(e).skip(1) =~= s.skip(1).push(e));
        lemma_extraction_plan_snoc(dir, s.skip(1), e);
        let head = spec_entry_actions(dir, s[0]);
        let mid = spec_extraction_plan(dir, s.skip(1));
        let tail = spec_entry_actions(dir, e);
        assert(spec_extraction_plan(dir, s.push(e)) == head + (mid + tail));
        assert(head + (mid + tail) =~= (head + mid) + tail);
    }
}

/// The models of a sequence of archive entries.
pub open spec fn archive_views(s: Seq<ArchiveEntry>) -> Seq<ArchiveEntryV> {
    s.map_values(|e: ArchiveEntry| e@)
}

/// Plan the extraction of the bundle's entries into `cache_dir`: for
/// every entry in bundle order, the filesystem steps that put it in
/// place.
pub fn plan_extraction(cache_dir: &str, entries: &Vec<ArchiveEntry>) -> (r: Vec<ExtractAction>)
    ensures
        r@.map_values(|a: ExtractAction| a@) == spec_extraction_plan(
            cache_dir@,
            archive_views(entries@),
        ),
{
    let ghost models = archive_views(entries@);
    let mut out: Vec<ExtractAction> = Vec::new();
    proof {
        assert(out@.map_values(|a: ExtractAction| a@) =~= spec_extraction_plan(
            cache_dir@,
            models.take(0),
        ));
    }
    let mut i: usize = 0;
    while i < entries.len()
        invariant
            0 <= i <= entries.len(),
            models == archive_views(entries@),
            models.len() == entries@.len(),
            out@.map_values(|a: ExtractAction| a@) == spec_extraction_plan(
                cache_dir@,
                models.take(i as int),
            ),
        decreases entries.len() - i,
    {
        proof {
            assert(models[i as int] == entries@[i as int]@);
            assert(models.take(i + 1) =~= models.take(i as int).push(models[i as int]));
            lemma_extraction_plan_snoc(cache_dir@, models.take(i as int), models[i as int]);
        }
        append_entry_actions(cache_dir, &entries[i], &mut out);
        i += 1;
    }
    proof {
        assert(models.take(models.len() as int) =~= models);
    }
    out
}

} // verus!
