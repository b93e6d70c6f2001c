//! Update packages: format detection, reading entries, and the extraction plan
//! that keeps every write inside the extraction root.

use vstd::prelude::*;
use crate::paths::{destination_of, quarantine_dir, destination_path, is_separator, is_suspicious_path, suspicious};

verus! {

#[verifier::external_type_specification]
#[verifier::external_body]
pub struct ExIoError(std::io::Error);

#[verifier::external_type_specification]
#[verifier::external_body]
pub struct ExZipError(zip::result::ZipError);

/// Why a package could not be extracted.
pub enum DecompressError {
    /// Reading the gzip tarball failed.
    IoError(std::io::Error),
    /// Reading the ZIP container failed.
    ZipError(zip::result::ZipError),
    /// The entry with this declared path would be written outside the extraction root.
    SlipError(String),
}

/// One item of an opened archive: its declared path, whether the archive marks
/// it as a directory, and its bytes.
pub struct ArchiveEntry {
    pub name: String,
    pub is_dir: bool,
    pub data: Vec<u8>,
}

/// What an archive entry holds, as plain values: (path, directory flag, bytes).
pub type EntryModel = (Seq<char>, bool, Seq<u8>);

/// What one extraction step does, as plain values: (destination, is a directory).
pub type StepModel = (Seq<char>, bool);

/// One write of an extraction: the destination relative to the extraction root,
/// and whether a directory is created there rather than a file.
pub struct ExtractStep {
    pub dest: String,
    pub directory: bool,
}

/// The entries of a package, and the steps that extract them, index for index.
pub struct Extraction {
    pub entries: Vec<ArchiveEntry>,
    pub steps: Vec<ExtractStep>,
}

pub open spec fn entry_model(e: ArchiveEntry) -> EntryModel {
    (e.name@, e.is_dir, e.data@)
}

pub open spec fn listing_of(entries: Seq<ArchiveEntry>) -> Seq<EntryModel> {
    entries.map_values(|e: ArchiveEntry| entry_model(e))
}

pub open spec fn step_model(s: ExtractStep) -> StepModel {
    (s.dest@, s.directory)
}

pub open spec fn steps_of(steps: Seq<ExtractStep>) -> Seq<StepModel> {
    steps.map_values(|s: ExtractStep| step_model(s))
}

/// What zip::ZipArchive::new makes of these bytes. `Ok` holds the members of the
/// opened archive in central-directory order, each as `by_index` and a whole read
/// give it, or `None` where that fails. `Err(true)`: the bytes hold no ZIP structure;
/// `Err(false)`: opening failed for another reason.
pub uninterp spec fn zip_opening(bytes: Seq<u8>) -> Result<Seq<Option<EntryModel>>, bool>;

/// The entries that the gzip and tar readers find in these bytes, in stream order,
/// or `None` when reading the stream fails.
pub uninterp spec fn tarball_listing(bytes: Seq<u8>) -> Option<Seq<EntryModel>>;

/// The bytes are no ZIP container, so the package is read as a gzip tarball.
pub open spec fn not_zip(bytes: Seq<u8>) -> bool {
    zip_opening(bytes) == Err::<Seq<Option<EntryModel>>, bool>(true)
}

/// The ZIP container opens, with these members.
pub open spec fn opens_to(bytes: Seq<u8>, members: Seq<Option<EntryModel>>) -> bool {
    zip_opening(bytes) == Ok::<Seq<Option<EntryModel>>, bool>(members)
}

pub open spec fn members_readable(members: Seq<Option<EntryModel>>) -> bool {
    forall|i: int| 0 <= i < members.len() ==> (#[trigger] members[i]) is Some
}

pub open spec fn member_entries(members: Seq<Option<EntryModel>>) -> Seq<EntryModel> {
    members.map_values(
        |m: Option<EntryModel>|
            match m {
                Some(e) => e,
                None => (Seq::empty(), false, Seq::empty()),
            },
    )
}

/// The ZIP container opens and every member of it can be read.
pub open spec fn zip_readable(bytes: Seq<u8>) -> bool {
    match zip_opening(bytes) {
        Ok(members) => members_readable(members),
        Err(_) => false,
    }
}

pub open spec fn zip_entries(bytes: Seq<u8>) -> Seq<EntryModel> {
    match zip_opening(bytes) {
        Ok(members) => member_entries(members),
        Err(_) => Seq::empty(),
    }
}

/// The package can be read whole, as a ZIP container or, failing that structure,
/// as a gzip tarball.
pub open spec fn package_readable(bytes: Seq<u8>) -> bool {
    if not_zip(bytes) {
        tarball_listing(bytes) is Some
    } else {
        zip_readable(bytes)
    }
}

/// The entries of a readable package.
pub open spec fn package_listing(bytes: Seq<u8>) -> Seq<EntryModel> {
    if not_zip(bytes) {
        match tarball_listing(bytes) {
            Some(listing) => listing,
            None => Seq::empty(),
        }
    } else {
        zip_entries(bytes)
    }
}

pub open spec fn ends_with_separator(name: Seq<char>) -> bool {
    name.len() > 0 && is_separator(name.last())
}

/// A directory is made for an entry the archive marks as one, or whose path ends
/// with a separator.
pub open spec fn is_directory_entry(e: EntryModel) -> bool {
    e.1 || ends_with_separator(e.0)
}

pub open spec fn all_safe(listing: Seq<EntryModel>) -> bool {
    forall|i: int| 0 <= i < listing.len() ==> !suspicious(#[trigger] listing[i].0)
}

/// Entry `k` is the first one whose path escapes the extraction root.
pub open spec fn first_unsafe(listing: Seq<EntryModel>, k: int) -> bool {
    &&& 0 <= k < listing.len()
    &&& suspicious(listing[k].0)
    &&& forall|j: int| 0 <= j < k ==> !suspicious(#[trigger] listing[j].0)
}

/// The steps that extract a listing whose entries are all safe.
pub open spec fn planned_steps(listing: Seq<EntryModel>, updater: Seq<char>) -> Seq<StepModel> {
    Seq::new(
        listing.len(),
        |i: int| (destination_of(listing[i].0, updater), is_directory_entry(listing[i])),
    )
}

/// What extracting a listing leads to: the steps, or the path of the first unsafe entry.
pub open spec fn plan_outcome(listing: Seq<EntryModel>, updater: Seq<char>, r: Result<
    Vec<ExtractStep>,
    DecompressError,
>) -> bool {
    match r {
        Ok(steps) => all_safe(listing) && steps_of(steps@) == planned_steps(listing, updater),
        Err(DecompressError::SlipError(name)) => exists|k: int|
            first_unsafe(listing, k) && name@ == #[trigger] listing[k].0,
        Err(_) => false,
    }
}

#[verifier::external_type_specification]
#[verifier::external_body]
#[verifier::reject_recursive_types(R)]
pub struct ExZipArchive<R>(zip::ZipArchive<R>);

#[verifier::external_type_specification]
#[verifier::external_body]
#[verifier::reject_recursive_types(T)]
pub struct ExCursor<T>(std::io::Cursor<T>);

/// A ZIP container opened over an in-memory package.
pub type ZipPackage = zip::ZipArchive<std::io::Cursor<Vec<u8>>>;

/// The members of an opened ZIP container, in central-directory order, each as
/// `by_index` and a whole read give it, or `None` where that fails.
pub uninterp spec fn zip_members(archive: ZipPackage) -> Seq<Option<EntryModel>>;

/// How opening a ZIP container failed.
pub enum ZipOpenError {
    /// The bytes hold no ZIP structure.
    NotZip(zip::result::ZipError),
    /// The bytes look like a ZIP container, but it cannot be opened.
    Failed(zip::result::ZipError),
}

/// Relies on zip::ZipArchive::new: reads the central directory of the bytes, and
/// fails with `ZipError::InvalidArchive` where it finds no valid one.
#[verifier::external_body]
fn zip_open(bytes: &[u8]) -> (r: Result<ZipPackage, ZipOpenError>)
    ensures
        r matches Ok(archive) ==> opens_to(bytes@, zip_members(archive)),
        r matches Err(ZipOpenError::NotZip(_)) ==> not_zip(bytes@),
        r matches Err(ZipOpenError::Failed(_)) ==> zip_opening(bytes@) is Err && !not_zip(bytes@),
{
    match zip::ZipArchive::new(std::io::Cursor::new(bytes.to_vec())) {
        Ok(archive) => Ok(archive),
        Err(e @ zip::result::ZipError::InvalidArchive(_)) => Err(ZipOpenError::NotZip(e)),
        Err(e) => Err(ZipOpenError::Failed(e)),
    }
}

/// Relies on zip::ZipArchive::len: the number of files in the central directory.
#[verifier::external_body]
fn zip_len(archive: &ZipPackage) -> (r: usize)
    ensures
        r == zip_members(*archive).len(),
{
    archive.len()
}

/// Relies on zip::ZipArchive::by_index and ZipFile's name, is_dir and Read impl:
/// the member at an index, its contents read whole; the member list stays as it was.
#[verifier::external_body]
fn zip_member(archive: &mut ZipPackage, index: usize) -> (r: Result<ArchiveEntry, zip::result::ZipError>)
    requires
        index < zip_members(*old(archive)).len(),
    ensures
        zip_members(*final(archive)) == zip_members(*old(archive)),
        r matches Ok(e) ==> zip_members(*old(archive))[index as int] == Some(entry_model(e)),
        r is Err ==> zip_members(*old(archive))[index as int] is None,
{
    let mut file = archive.by_index(index)?;
    let mut data = Vec::new();
    std::io::Read::read_to_end(&mut file, &mut data)?;
    Ok(ArchiveEntry { name: file.name().to_string(), is_dir: file.is_dir(), data })
}

/// Reads every member of an opened ZIP container, in order; fails at the first
/// member that cannot be read.
fn read_zip_members(archive: &mut ZipPackage) -> (r: Result<Vec<ArchiveEntry>, zip::result::ZipError>)
    ensures
        r is Ok <==> members_readable(zip_members(*old(archive))),
        r matches Ok(entries) ==> listing_of(entries@) == member_entries(zip_members(*old(archive))),
{
    let ghost members = zip_members(*archive);
    let n = zip_len(archive);
    let mut entries: Vec<ArchiveEntry> = Vec::new();
    let mut i: usize = 0;
    while i < n
        invariant
            n == members.len(),
            zip_members(*archive) == members,
            members == zip_members(*old(archive)),
            i <= n,
            entries@.len() == i,
            forall|j: int| 0 <= j < i ==> members[j] == Some(#[trigger] entry_model(entries@[j])),
        decreases n - i,
    {
        match zip_member(archive, i) {
            Ok(entry) => entries.push(entry),
            Err(e) => {
                assert(!members_readable(members));
                return Err(e);
            },
        }
        i = i + 1;
    }
    assert(members_readable(members)) by {
        assert forall|j: int| 0 <= j < members.len() implies (#[trigger] members[j]) is Some by {
            assert(members[j] == Some(entry_model(entries@[j])));
        }
    }
    assert(listing_of(entries@) =~= member_entries(members)) by {
        assert forall|j: int| 0 <= j < members.len() implies listing_of(entries@)[j]
            == member_entries(members)[j] by {
            assert(members[j] == Some(entry_model(entries@[j])));
        }
    }
    Ok(entries)
}

/// Relies on flate2::read::GzDecoder and tar::Archive::entries, Entry::path_bytes,
/// Entry::header and Entry's Read impl: each entry of the stream is read in order.
/// The entry iterator borrows the archive, so the stream is drained here in one pass.
/// A path that is not UTF-8 fails the read rather than being written under another name.
#[verifier::external_body]
fn read_tarball(bytes: &[u8]) -> (r: Result<Vec<ArchiveEntry>, std::io::Error>)
    ensures
        r matches Ok(entries) ==> tarball_listing(bytes@) == Some(listing_of(entries@)),
        r is Err ==> tarball_listing(bytes@) is None,
{
    let mut archive = tar::Archive::new(flate2::read::GzDecoder::new(bytes));
    let mut entries = Vec::new();
    for entry in archive.entries()? {
        let mut entry = entry?;
        let mut data = Vec::new();
        std::io::Read::read_to_end(&mut entry, &mut data)?;
        let name = String::from_utf8(entry.path_bytes().into_owned())
            .map_err(|e| std::io::Error::new(std::io::ErrorKind::InvalidData, e))?;
        entries.push(ArchiveEntry { name, is_dir: entry.header().entry_type().is_dir(), data });
    }
    Ok(entries)
}

fn ends_with_slash(name: &str) -> (r: bool)
    ensures
        r == ends_with_separator(name@),
{
    let n = name.unicode_len();
    if n == 0 {
        return false;
    }
    let c = name.get_char(n - 1);
    c == '/' || c == '\\'
}

/// Checks every entry of a package and says where each one goes. Fails with the
/// path of the first entry that would escape the extraction root, before any
/// step exists: nothing of such a package is written.
pub fn plan_extraction(entries: &Vec<ArchiveEntry>, updater_name: &str) -> (r: Result<
    Vec<ExtractStep>,
    DecompressError,
>)
    ensures
        plan_outcome(listing_of(entries@), updater_name@, r),
        r is Ok <==> all_safe(listing_of(entries@)),
{
    let ghost listing = listing_of(entries@);
    let mut steps: Vec<ExtractStep> = Vec::new();
    let mut i: usize = 0;
    while i < entries.len()
        invariant
            listing == listing_of(entries@),
            i <= entries.len(),
            steps@.len() == i,
            forall|j: int| 0 <= j < i ==> !suspicious(#[trigger] listing[j].0),
            forall|j: int|
                0 <= j < i ==> #[trigger] step_model(steps@[j]) == planned_steps(listing, updater_name@)[j],
        decreases entries.len() - i,
    {
        let entry = &entries[i];
        if is_suspicious_path(entry.name.as_str()) {
            let name = entry.name.clone();
            assert(first_unsafe(listing, i as int));
            return Err(DecompressError::SlipError(name));
        }
        let dest = destination_path(entry.name.as_str(), updater_name);
        let directory = entry.is_dir || ends_with_slash(entry.name.as_str());
        steps.push(ExtractStep { dest, directory });
        i = i + 1;
    }
    assert(steps_of(steps@) =~= planned_steps(listing, updater_name@));
    Ok(steps)
}

/// Reads a package (as a ZIP container, or as a gzip tarball where the bytes hold
/// no ZIP structure, whatever the file is called) and plans its extraction.
pub fn decompress(bytes: &[u8], updater_name: &str) -> (r: Result<Extraction, DecompressError>)
    ensures
        r is Ok <==> package_readable(bytes@) && all_safe(package_listing(bytes@)),
        r matches Err(DecompressError::SlipError(_)) <==> package_readable(bytes@) && !all_safe(
            package_listing(bytes@),
        ),
        r matches Ok(x) ==> {
            &&& listing_of(x.entries@) == package_listing(bytes@)
            &&& steps_of(x.steps@) == planned_steps(package_listing(bytes@), updater_name@)
        },
        r matches Err(DecompressError::SlipError(name)) ==> exists|k: int|
            first_unsafe(package_listing(bytes@), k) && name@ == #[trigger] package_listing(
                bytes@,
            )[k].0,
        r matches Err(DecompressError::IoError(_)) ==> not_zip(bytes@),
        r matches Err(DecompressError::ZipError(_)) ==> !not_zip(bytes@),
{
    let entries = match zip_open(bytes) {
        Ok(archive) => {
            let mut archive = archive;
            match read_zip_members(&mut archive) {
                Ok(entries) => entries,
                Err(e) => return Err(DecompressError::ZipError(e)),
            }
        },
        Err(ZipOpenError::NotZip(_)) => match read_tarball(bytes) {
            Ok(entries) => entries,
            Err(e) => return Err(DecompressError::IoError(e)),
        },
        Err(ZipOpenError::Failed(e)) => return Err(DecompressError::ZipError(e)),
    };
    assert(package_readable(bytes@));
    assert(listing_of(entries@) == package_listing(bytes@));
    match plan_extraction(&entries, updater_name) {
        Ok(steps) => Ok(Extraction { entries, steps }),
        Err(e) => Err(e),
    }
}

/// The message of a slip error for the entry with the given (escaped) path.
pub fn slip_message(entry: &str) -> (r: String)
    ensures
        r@ == seq!['e', 'n', 't', 'r', 'y', ' ', '\''] + entry@ + "' might lead to slip exploit"@,
{
    let mut text = String::from_str("entry '");
    text.append(entry);
    text.append("' might lead to slip exploit");
    proof {
        reveal_strlit("entry '");
        reveal_strlit("' might lead to slip exploit");
        assert(text@ =~= seq!['e', 'n', 't', 'r', 'y', ' ', '\''] + entry@
            + "' might lead to slip exploit"@);
    }
    text
}

/// A package with an entry whose path escapes the extraction root yields no
/// extraction steps at all: neither that entry nor any other is written.
pub proof fn lemma_unsafe_entry_blocks_extraction(
    listing: Seq<EntryModel>,
    updater: Seq<char>,
    k: int,
    r: Result<Vec<ExtractStep>, DecompressError>,
)
    requires
        plan_outcome(listing, updater, r),
        0 <= k < listing.len(),
        suspicious(listing[k].0),
    ensures
        r matches Err(DecompressError::SlipError(_)),
{
}

/// A ZIP package and a gzip tarball with the same entries extract to the same
/// files and directories, with the same entry count.
pub proof fn lemma_formats_agree(zip_bytes: Seq<u8>, tar_bytes: Seq<u8>, updater: Seq<char>)
    requires
        !not_zip(zip_bytes),
        zip_readable(zip_bytes),
        not_zip(tar_bytes),
        tarball_listing(tar_bytes) == Some(zip_entries(zip_bytes)),
    ensures
        package_readable(zip_bytes) && package_readable(tar_bytes),
        package_listing(zip_bytes).len() == package_listing(tar_bytes).len(),
        all_safe(package_listing(zip_bytes)) == all_safe(package_listing(tar_bytes)),
        planned_steps(package_listing(zip_bytes), updater) == planned_steps(
            package_listing(tar_bytes),
            updater,
        ),
{
}

/// An entry named like the running updater is written under the quarantine
/// directory, never over the updater itself.
pub proof fn lemma_updater_is_quarantined(listing: Seq<EntryModel>, updater: Seq<char>, i: int)
    requires
        0 <= i < listing.len(),
        listing[i].0 == updater,
    ensures
        planned_steps(listing, updater)[i].0 == quarantine_dir() + seq!['/'] + updater,
        planned_steps(listing, updater)[i].0 != updater,
{
    let d = planned_steps(listing, updater)[i].0;
    assert(d.len() == updater.len() + 12);
}

} // verus!
