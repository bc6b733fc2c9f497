//! Script discovery.
//!
//! Discovery turns one filesystem path into the ordered list of scripts to
//! run. The filesystem's answers are passed in as plain data — the path's
//! metadata, the directory listing, and the text read from each candidate —
//! so that the selection rules themselves are stated and proved here:
//!
//! - a path that is not a directory is exactly one script, whatever its name;
//! - a directory contributes its immediate entries whose name carries the
//!   script extension, in listing order, and nothing else;
//! - the first entry that cannot be obtained or read fails the whole
//!   discovery, and no partial list is ever returned.

use vstd::prelude::*;

use crate::ScriptUnit;
use crate::ScriptUnitView;
use crate::paths::is_script_path;
use crate::paths::is_script_spec;

verus! {

/// What reading one file as text yielded: its full text, or nothing.
pub enum ReadOutcome {
    Text(String),
    Unreadable,
}

/// One immediate entry of a directory: its path and, for entries whose name
/// carries the script extension, the outcome of reading it. The read field of
/// an entry with any other name is never consulted.
pub struct DirEntry {
    pub path: Vec<u8>,
    pub read: ReadOutcome,
}

/// One slot of a directory listing: the entry, or nothing where the entry
/// itself could not be obtained.
pub enum EntryData {
    Present(DirEntry),
    Unavailable,
}

/// The filesystem's answers about the path handed to discovery.
pub enum PathData {
    /// The path's metadata could not be read.
    MetadataUnavailable,
    /// The path is not a directory; the payload is the outcome of reading it.
    File(ReadOutcome),
    /// The path is a directory; `None` where its entries could not be listed.
    Directory(Option<Vec<EntryData>>),
}

/// Why discovery failed.
#[derive(Debug)]
pub enum DiscoverError {
    /// The path's metadata could not be read (it does not exist, or cannot be
    /// inspected).
    PathMetadata,
    /// The directory's entries could not be listed.
    Enumeration,
    /// An individual directory entry could not be obtained.
    Entry,
    /// The named file could not be read as text.
    FileRead { path: Vec<u8> },
}

/// The view of a [`DiscoverError`], with the offending path as a byte
/// sequence.
pub enum DiscoverErrorView {
    PathMetadata,
    Enumeration,
    Entry,
    FileRead { path: Seq<u8> },
}

impl View for DiscoverError {
    type V = DiscoverErrorView;

    open spec fn view(&self) -> DiscoverErrorView {
        match self {
            DiscoverError::PathMetadata => DiscoverErrorView::PathMetadata,
            DiscoverError::Enumeration => DiscoverErrorView::Enumeration,
            DiscoverError::Entry => DiscoverErrorView::Entry,
            DiscoverError::FileRead { path } => DiscoverErrorView::FileRead { path: path@ },
        }
    }
}

/// What scanning a directory listing yields: the units of the entries whose
/// name carries the script extension, in listing order, or the error of the
/// first entry that could not be obtained or read.
pub open spec fn scan_spec(entries: Seq<EntryData>) -> Result<Seq<ScriptUnitView>, DiscoverErrorView>
    decreases entries.len(),
{
    if entries.len() == 0 {
        Ok(Seq::empty())
    } else {
        match scan_spec(entries.drop_last()) {
            Err(e) => Err(e),
            Ok(units) => match entries.last() {
                EntryData::Unavailable => Err(DiscoverErrorView::Entry),
                EntryData::Present(entry) => if is_script_spec(entry.path@) {
                    match entry.read {
                        ReadOutcome::Unreadable => Err(
                            DiscoverErrorView::FileRead { path: entry.path@ },
                        ),
                        ReadOutcome::Text(content) => Ok(
                            units.push(ScriptUnitView { path: entry.path@, content: content@ }),
                        ),
                    }
                } else {
                    Ok(units)
                },
            },
        }
    }
}

/// What discovery yields for a path, given the filesystem's answers about it.
pub open spec fn discover_spec(path: Seq<u8>, data: PathData) -> Result<
    Seq<ScriptUnitView>,
    DiscoverErrorView,
> {
    match data {
        PathData::MetadataUnavailable => Err(DiscoverErrorView::PathMetadata),
        PathData::File(ReadOutcome::Unreadable) => Err(DiscoverErrorView::FileRead { path }),
        PathData::File(ReadOutcome::Text(content)) => Ok(
            seq![ScriptUnitView { path, content: content@ }],
        ),
        PathData::Directory(None) => Err(DiscoverErrorView::Enumeration),
        PathData::Directory(Some(entries)) => scan_spec(entries@),
    }
}

/// Once a prefix of the listing has failed, the whole listing fails with that
/// same error: a later entry never supersedes it and no partial list remains.
pub proof fn lemma_scan_error_persists(entries: Seq<EntryData>, n: int)
    requires
        0 <= n <= entries.len(),
        scan_spec(entries.take(n)) is Err,
    ensures
        scan_spec(entries) == scan_spec(entries.take(n)),
    decreases entries.len() - n,
{
    if n == entries.len() {
        assert(entries.take(n) =~= entries);
    } else {
        assert(entries.take(n + 1).drop_last() =~= entries.take(n));
        assert(scan_spec(entries.take(n + 1)) == scan_spec(entries.take(n)));
        lemma_scan_error_persists(entries, n + 1);
    }
}

/// Whether a listing slot holds an entry whose name carries the script
/// extension.
pub open spec fn entry_selected(e: EntryData) -> bool {
    match e {
        EntryData::Present(entry) => is_script_spec(entry.path@),
        EntryData::Unavailable => false,
    }
}

/// The unit a selected, readable entry contributes.
pub open spec fn entry_unit(e: EntryData) -> ScriptUnitView {
    match e {
        EntryData::Present(entry) => match entry.read {
            ReadOutcome::Text(content) => ScriptUnitView { path: entry.path@, content: content@ },
            ReadOutcome::Unreadable => arbitrary(),
        },
        EntryData::Unavailable => arbitrary(),
    }
}

/// Whether a listing slot holds an entry, and one whose text is at hand if
/// its name carries the script extension.
pub open spec fn entry_loadable(e: EntryData) -> bool {
    match e {
        EntryData::Present(entry) => is_script_spec(entry.path@) ==> entry.read is Text,
        EntryData::Unavailable => false,
    }
}

/// Where every entry of the listing is at hand and every script-named entry
/// was read as text, the scan succeeds and yields exactly one unit per
/// script-named entry, in listing order, and none for any other entry.
pub proof fn lemma_scan_complete(entries: Seq<EntryData>)
    requires
        forall|j: int| 0 <= j < entries.len() ==> entry_loadable(#[trigger] entries[j]),
    ensures
        scan_spec(entries) == Ok::<_, DiscoverErrorView>(
            entries.filter(|e: EntryData| entry_selected(e)).map_values(
                |e: EntryData| entry_unit(e),
            ),
        ),
    decreases entries.len(),
{
    reveal(Seq::filter);
    let selected = |e: EntryData| entry_selected(e);
    let to_unit = |e: EntryData| entry_unit(e);
    if entries.len() == 0 {
        assert(entries.filter(selected).map_values(to_unit) =~= Seq::<ScriptUnitView>::empty());
    } else {
        let prefix = entries.drop_last();
        assert(forall|j: int| 0 <= j < prefix.len() ==> entry_loadable(#[trigger] prefix[j]));
        lemma_scan_complete(prefix);
        if selected(entries.last()) {
            assert(prefix.filter(selected).map_values(to_unit).push(to_unit(entries.last()))
                =~= entries.filter(selected).map_values(to_unit));
        } else {
            assert(prefix.filter(selected).map_values(to_unit)
                =~= entries.filter(selected).map_values(to_unit));
        }
    }
}

/// Copy a byte string.
pub(crate) fn clone_bytes(bytes: &Vec<u8>) -> (copy: Vec<u8>)
    ensures
        copy@ == bytes@,
{
    let mut copy: Vec<u8> = Vec::new();
    let mut i: usize = 0;
    while i < bytes.len()
        invariant
            i <= bytes@.len(),
            copy@ == bytes@.subrange(0, i as int),
        decreases bytes@.len() - i,
    {
        copy.push(bytes[i]);
        proof {
            assert(copy@ =~= bytes@.subrange(0, i + 1 as int));
        }
        i = i + 1;
    }
    proof {
        assert(bytes@.subrange(0, bytes@.len() as int) =~= bytes@);
    }
    copy
}

/// Turn one filesystem path into the ordered list of scripts to run, given
/// the filesystem's answers about it.
///
/// A path that is not a directory is exactly one script, whatever its name.
/// A directory contributes its immediate entries whose name carries the
/// script extension, in listing order; every other entry is silently
/// skipped. The first entry that cannot be obtained or read fails the whole
/// discovery with that entry's identity — no partial list is returned.
pub fn discover(path: &Vec<u8>, data: &PathData) -> (result: Result<Vec<ScriptUnit>, DiscoverError>)
    ensures
        match result {
            Ok(units) => discover_spec(path@, *data) == Ok::<_, DiscoverErrorView>(
                units.deep_view(),
            ),
            Err(e) => discover_spec(path@, *data) == Err::<Seq<ScriptUnitView>, _>(e@),
        },
{
    match data {
        PathData::MetadataUnavailable => Err(DiscoverError::PathMetadata),
        PathData::File(ReadOutcome::Unreadable) => Err(
            DiscoverError::FileRead { path: clone_bytes(path) },
        ),
        PathData::File(ReadOutcome::Text(content)) => {
            let unit = ScriptUnit::new(clone_bytes(path), content.clone());
            let mut units: Vec<ScriptUnit> = Vec::new();
            units.push(unit);
            proof {
                assert(units.deep_view() =~= seq![
                    ScriptUnitView { path: path@, content: content@ },
                ]);
            }
            Ok(units)
        },
        PathData::Directory(None) => Err(DiscoverError::Enumeration),
        PathData::Directory(Some(entries)) => {
            proof {
                assert(discover_spec(path@, *data) == scan_spec(entries@));
            }
            let mut units: Vec<ScriptUnit> = Vec::new();
            proof {
                assert(entries@.take(0) =~= Seq::<EntryData>::empty());
                assert(units.deep_view() =~= Seq::<ScriptUnitView>::empty());
            }
            let mut i: usize = 0;
            while i < entries.len()
                invariant
                    i <= entries@.len(),
                    discover_spec(path@, *data) == scan_spec(entries@),
                    scan_spec(entries@.take(i as int)) == Ok::<_, DiscoverErrorView>(
                        units.deep_view(),
                    ),
                decreases entries@.len() - i,
            {
                proof {
                    assert(entries@.take(i + 1 as int).drop_last() =~= entries@.take(i as int));
                    assert(entries@.take(i + 1 as int).last() == entries@[i as int]);
                }
                match &entries[i] {
                    EntryData::Unavailable => {
                        proof {
                            assert(scan_spec(entries@.take(i + 1 as int))
                                == Err::<Seq<ScriptUnitView>, _>(DiscoverErrorView::Entry));
                            lemma_scan_error_persists(entries@, i + 1 as int);
                        }
                        return Err(DiscoverError::Entry);
                    },
                    EntryData::Present(entry) => {
                        if is_script_path(&entry.path) {
                            match &entry.read {
                                ReadOutcome::Unreadable => {
                                    proof {
                                        assert(scan_spec(entries@.take(i + 1 as int))
                                            == Err::<Seq<ScriptUnitView>, _>(
                                            DiscoverErrorView::FileRead { path: entry.path@ },
                                        ));
                                        lemma_scan_error_persists(entries@, i + 1 as int);
                                    }
                                    return Err(
                                        DiscoverError::FileRead { path: clone_bytes(&entry.path) },
                                    );
                                },
                                ReadOutcome::Text(content) => {
                                    let ghost before = units.deep_view();
                                    let unit = ScriptUnit::new(
                                        clone_bytes(&entry.path),
                                        content.clone(),
                                    );
                                    units.push(unit);
                                    proof {
                                        assert(units.deep_view() =~= before.push(
                                            ScriptUnitView {
                                                path: entry.path@,
                                                content: content@,
                                            },
                                        ));
                                    }
                                },
                            }
                        }
                    },
                }
                i = i + 1;
            }
            proof {
                assert(entries@.take(entries@.len() as int) =~= entries@);
            }
            Ok(units)
        },
    }
}

} // verus!
