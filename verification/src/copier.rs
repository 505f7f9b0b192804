//! The flat copier over an in-memory picture of the source directory.
//!
//! `copy_flat` takes the listed entries of the source directory, in the
//! order the filesystem produced them, and computes the exact set of
//! destination files a successful run writes: one file per source entry,
//! byte-identical to its source, at the concatenated destination path.
//! An entry that is not a regular file cannot be byte-copied; the run
//! aborts there, keeping the files already copied and touching no later
//! entry.

use vstd::prelude::*;
use crate::naming::{dest_path, dest_path_of};

verus! {

/// What kind of directory entry the lister reported: a regular file, whose
/// bytes can be copied, or a subdirectory, which the flat copy does not
/// descend into and cannot copy.
#[derive(Clone, Copy, PartialEq, Eq, Structural, Debug)]
pub enum EntryKind {
    File,
    Subdir,
}

/// One immediate child of the source directory: its base name, its kind,
/// and — for a regular file — its byte contents. A subdirectory carries no
/// bytes.
#[derive(Debug)]
pub struct SourceEntry {
    pub name: String,
    pub kind: EntryKind,
    pub contents: Vec<u8>,
}

/// One file of the destination directory: its full path and its bytes.
#[derive(Debug)]
pub struct DestFile {
    pub path: String,
    pub contents: Vec<u8>,
}

/// The single error of the copier. The copy aborts on the first entry that
/// cannot be byte-copied; nothing is rolled back, so the error carries the
/// destination files already written, together with the name of the entry
/// on which the run stopped.
#[derive(Debug)]
pub struct CopyError {
    pub copied: Vec<DestFile>,
    pub entry_name: String,
}

/// Mathematical picture of a source entry.
#[verifier::ext_equal]
pub ghost struct EntryModel {
    pub name: Seq<char>,
    pub kind: EntryKind,
    pub contents: Seq<u8>,
}

/// Mathematical picture of a destination file.
#[verifier::ext_equal]
pub ghost struct DestModel {
    pub path: Seq<char>,
    pub contents: Seq<u8>,
}

/// Mathematical picture of the copier's error.
#[verifier::ext_equal]
pub ghost struct CopyErrorModel {
    pub copied: Seq<DestModel>,
    pub entry_name: Seq<char>,
}

impl View for SourceEntry {
    type V = EntryModel;

    open spec fn view(&self) -> EntryModel {
        EntryModel { name: self.name@, kind: self.kind, contents: self.contents@ }
    }
}

impl DeepView for SourceEntry {
    type V = EntryModel;

    open spec fn deep_view(&self) -> EntryModel {
        self@
    }
}

impl View for DestFile {
    type V = DestModel;

    open spec fn view(&self) -> DestModel {
        DestModel { path: self.path@, contents: self.contents@ }
    }
}

impl DeepView for DestFile {
    type V = DestModel;

    open spec fn deep_view(&self) -> DestModel {
        self@
    }
}

impl View for CopyError {
    type V = CopyErrorModel;

    open spec fn view(&self) -> CopyErrorModel {
        CopyErrorModel { copied: self.copied.deep_view(), entry_name: self.entry_name@ }
    }
}

/// Every listed entry is a regular file, so a flat copy can succeed.
pub open spec fn all_regular_files(entries: Seq<EntryModel>) -> bool {
    forall|i: int| 0 <= i < entries.len() ==> entries[i].kind is File
}

/// The destination file a successful copy of one entry produces: the bytes
/// of the source under the concatenated destination path.
pub open spec fn copied_file(dest_dir: Seq<char>, e: EntryModel) -> DestModel {
    DestModel { path: dest_path_of(dest_dir, e.name), contents: e.contents }
}

/// The whole behaviour of the flat copier, as a relation between the listed
/// source entries, the destination directory string, and the result.
///
/// On success every entry was a regular file and the destination holds one
/// byte-identical file per entry. On failure the entry at position
/// `copied.len()` is the first that is not a regular file; every earlier
/// entry has been copied and stays copied, and no later entry was touched.
pub open spec fn copy_flat_post(
    entries: Seq<EntryModel>,
    dest_dir: Seq<char>,
    r: Result<Seq<DestModel>, CopyErrorModel>,
) -> bool {
    match r {
        Ok(files) => {
            &&& all_regular_files(entries)
            &&& files.len() == entries.len()
            &&& forall|i: int| 0 <= i < entries.len() ==> files[i] == copied_file(
                dest_dir,
                entries[i],
            )
        },
        Err(e) => {
            let k = e.copied.len() as int;
            &&& k < entries.len()
            &&& entries[k].kind is Subdir
            &&& e.entry_name == entries[k].name
            &&& forall|i: int| 0 <= i < k ==> entries[i].kind is File
            &&& forall|i: int| 0 <= i < k ==> e.copied[i] == copied_file(dest_dir, entries[i])
        },
    }
}

/// The result of `copy_flat`, seen at the level of the mathematical models.
pub open spec fn copy_result_model(r: Result<Vec<DestFile>, CopyError>) -> Result<
    Seq<DestModel>,
    CopyErrorModel,
> {
    match r {
        Ok(files) => Ok(files.deep_view()),
        Err(e) => Err(e@),
    }
}

/// Copies a vector of bytes.
fn clone_bytes(src: &Vec<u8>) -> (r: Vec<u8>)
    ensures
        r@ == src@,
{
    let mut r: Vec<u8> = Vec::new();
    let mut i: usize = 0;
    while i < src.len()
        invariant
            i <= src@.len(),
            r@.len() == i,
            forall|j: int| 0 <= j < i ==> r@[j] == src@[j],
        decreases src@.len() - i,
    {
        r.push(src[i]);
        i = i + 1;
    }
    assert(r@ =~= src@);
    r
}

/// Flat copy of one source directory, over the entries its listing
/// produced, in listing order.
///
/// For each entry in turn the destination path is the destination directory
/// string concatenated with the entry's base name, and the destination file
/// holds exactly the source bytes. The first entry that is not a regular
/// file aborts the run: the error names that entry and carries the files
/// already copied, which are kept, while no later entry is processed.
/// The copy succeeds if and only if every entry is a regular file; an empty
/// listing succeeds with no destination file.
pub fn copy_flat(entries: &Vec<SourceEntry>, dest_dir: &str) -> (r: Result<
    Vec<DestFile>,
    CopyError,
>)
    ensures
        copy_flat_post(entries.deep_view(), dest_dir@, copy_result_model(r)),
        r is Ok <==> all_regular_files(entries.deep_view()),
{
    let mut files: Vec<DestFile> = Vec::new();
    let mut i: usize = 0;
    while i < entries.len()
        invariant
            i <= entries@.len(),
            files@.len() == i,
            forall|j: int| 0 <= j < i ==> entries.deep_view()[j].kind is File,
            forall|j: int| 0 <= j < i ==> files.deep_view()[j] == copied_file(
                dest_dir@,
                entries.deep_view()[j],
            ),
        decreases entries@.len() - i,
    {
        let e = &entries[i];
        match e.kind {
            EntryKind::Subdir => {
                return Err(CopyError { copied: files, entry_name: e.name.clone() });
            },
            EntryKind::File => {
                let path = dest_path(dest_dir, e.name.as_str());
                let df = DestFile { path, contents: clone_bytes(&e.contents) };
                let ghost files_pre = files.deep_view();
                files.push(df);
                proof {
                    assert(files@[i as int] == df);
                    assert(df@ =~= copied_file(dest_dir@, entries.deep_view()[i as int]));
                    assert forall|j: int| 0 <= j < i + 1 implies files.deep_view()[j]
                        == copied_file(dest_dir@, entries.deep_view()[j]) by {
                        if j < i {
                            assert(files.deep_view()[j] == files_pre[j]);
                        }
                    }
                }
            },
        }
        i = i + 1;
    }
    Ok(files)
}

/// Law: a copy over entries that are all regular files succeeds, and the
/// destination then holds exactly one file per source entry, each at the
/// concatenated path and byte-identical to its source.
pub proof fn lemma_completeness(
    entries: Seq<EntryModel>,
    dest_dir: Seq<char>,
    r: Result<Seq<DestModel>, CopyErrorModel>,
)
    requires
        copy_flat_post(entries, dest_dir, r),
        all_regular_files(entries),
    ensures
        r is Ok,
        r->Ok_0.len() == entries.len(),
        forall|i: int| 0 <= i < entries.len() ==> r->Ok_0[i].path == dest_path_of(
            dest_dir,
            entries[i].name,
        ),
        forall|i: int| 0 <= i < entries.len() ==> r->Ok_0[i].contents == entries[i].contents,
{
    match r {
        Ok(files) => {
            assert forall|i: int| 0 <= i < entries.len() implies files[i].path == dest_path_of(
                dest_dir,
                entries[i].name,
            ) && files[i].contents == entries[i].contents by {
                assert(files[i] == copied_file(dest_dir, entries[i]));
            }
        },
        Err(e) => {
            let k = e.copied.len() as int;
            assert(entries[k].kind is File);
        },
    }
}

/// Law: copying an empty source directory succeeds and produces no
/// destination file.
pub proof fn lemma_empty_source(
    dest_dir: Seq<char>,
    r: Result<Seq<DestModel>, CopyErrorModel>,
)
    requires
        copy_flat_post(Seq::<EntryModel>::empty(), dest_dir, r),
    ensures
        r is Ok,
        r->Ok_0.len() == 0,
{
}

/// Law: a source directory with a subdirectory among its entries makes the
/// flat copy abort, since a subdirectory cannot be byte-copied as a file.
pub proof fn lemma_subdir_is_fatal(
    entries: Seq<EntryModel>,
    dest_dir: Seq<char>,
    r: Result<Seq<DestModel>, CopyErrorModel>,
    witness: int,
)
    requires
        copy_flat_post(entries, dest_dir, r),
        0 <= witness < entries.len(),
        entries[witness].kind is Subdir,
    ensures
        r is Err,
        r->Err_0.copied.len() <= witness,
{
    match r {
        Ok(_) => {
            assert(entries[witness].kind is File);
        },
        Err(e) => {
            let k = e.copied.len() as int;
            if witness < k {
                assert(entries[witness].kind is File);
            }
        },
    }
}

} // verus!
