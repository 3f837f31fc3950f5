//! Unpacking a downloaded archive: which entries are written, where, and
//! with which permissions. No entry is ever written outside the directory
//! that the archive is unpacked into.

use vstd::prelude::*;
use crate::servers::{clone_opt, opt_view};
use crate::text::{
    concat2, ends_with, has_suffix, replace_char, replaced, split, split_on, starts_with, str_eq,
    to_chars, views,
};

verus! {

/// Whether a character separates the components of a path: `/`, and `\`,
/// which does so on Windows.
pub open spec fn is_separator(c: char) -> bool {
    c == '/' || c == '\\'
}

/// A path with every separator written as `/`.
pub open spec fn with_slashes(path: Seq<char>) -> Seq<char> {
    replace_char(path, '\\', '/')
}

/// The pieces of a path between its separators, `/` and `\` alike.
pub open spec fn components(path: Seq<char>) -> Seq<Seq<char>> {
    split_on(with_slashes(path), '/')
}

/// Whether a path has a component that steps up to the parent directory.
pub open spec fn has_parent_component(path: Seq<char>) -> bool {
    exists|i: int| 0 <= i < components(path).len() && #[trigger] components(path)[i] == ".."@
}

/// Whether a path starts at the root: its first character is a separator.
pub open spec fn starts_at_root(path: Seq<char>) -> bool {
    path.len() > 0 && is_separator(path[0])
}

/// Whether a character is an ASCII letter.
pub open spec fn is_ascii_letter(c: char) -> bool {
    0x41 <= c as u32 <= 0x5a || 0x61 <= c as u32 <= 0x7a
}

/// Whether a path names a drive: a letter and a colon come first.
pub open spec fn has_drive_prefix(path: Seq<char>) -> bool {
    path.len() >= 2 && is_ascii_letter(path[0]) && path[1] == ':'
}

/// Whether a path, taken relative to a directory, is sure to stay inside it
/// under the path rules of every platform: it holds no NUL, does not start
/// at the root or on a drive, and never steps up.
pub open spec fn is_contained(path: Seq<char>) -> bool {
    &&& !path.contains('\0')
    &&& !starts_at_root(path)
    &&& !has_drive_prefix(path)
    &&& !has_parent_component(path)
}

/// How deep below the starting directory the first `n` components of a path
/// lead, where stepping up from the starting directory counts as `-1` and
/// ends the walk.
pub open spec fn depth_after(parts: Seq<Seq<char>>, n: int) -> int
    decreases n,
{
    if n <= 0 {
        0
    } else {
        let before = depth_after(parts, n - 1);
        let part = parts[n - 1];
        if before < 0 {
            before
        } else if part == ".."@ {
            before - 1
        } else if part.len() == 0 || part == "."@ {
            before
        } else {
            before + 1
        }
    }
}

/// Whether following a path from a directory never leaves that directory:
/// the path does not start at the root or on a drive, and at no point along
/// it have more steps up been taken than steps down.
pub open spec fn resolves_inside(path: Seq<char>) -> bool {
    &&& !starts_at_root(path)
    &&& !has_drive_prefix(path)
    &&& forall|n: int| 0 <= n <= components(path).len() ==> depth_after(components(path), n) >= 0
}

/// A path that never steps up never leaves the directory it starts from.
pub proof fn lemma_contained_resolves_inside(path: Seq<char>)
    requires
        is_contained(path),
    ensures
        resolves_inside(path),
{
    let parts = components(path);
    assert forall|n: int| 0 <= n <= parts.len() implies depth_after(parts, n) >= 0 by {
        lemma_depth_without_parent(parts, n);
    }
}

proof fn lemma_depth_without_parent(parts: Seq<Seq<char>>, n: int)
    requires
        0 <= n <= parts.len(),
        forall|i: int| 0 <= i < parts.len() ==> parts[i] != ".."@,
    ensures
        depth_after(parts, n) >= 0,
    decreases n,
{
    if n > 0 {
        lemma_depth_without_parent(parts, n - 1);
    }
}

fn is_letter(c: char) -> (r: bool)
    ensures
        r == is_ascii_letter(c),
{
    let code: u32 = c as u32;
    (0x41 <= code && code <= 0x5a) || (0x61 <= code && code <= 0x7a)
}

/// Tests whether a path is sure to stay inside the directory it is taken
/// relative to, whichever platform's path rules it is read by.
pub fn is_contained_path(path: &str) -> (r: bool)
    ensures
        r == is_contained(path@),
{
    let chars = to_chars(path);
    let mut i: usize = 0;
    while i < chars.len()
        invariant
            i <= chars.len(),
            chars@ == path@,
            forall|j: int| 0 <= j < i ==> chars@[j] != '\0',
        decreases chars.len() - i,
    {
        if chars[i] == '\0' {
            assert(path@.contains('\0'));
            return false;
        }
        i += 1;
    }
    assert(!path@.contains('\0'));
    if chars.len() > 0 && (chars[0] == '/' || chars[0] == '\\') {
        return false;
    }
    if chars.len() >= 2 && is_letter(chars[0]) && chars[1] == ':' {
        return false;
    }
    let unified = replaced(path, '\\', '/');
    let parts = split(unified.as_str(), '/');
    let mut k: usize = 0;
    while k < parts.len()
        invariant
            k <= parts.len(),
            views(parts@) == components(path@),
            forall|j: int| 0 <= j < k ==> components(path@)[j] != ".."@,
        decreases parts.len() - k,
    {
        if str_eq(parts[k].as_str(), "..") {
            assert(components(path@)[k as int] == ".."@);
            return false;
        }
        k += 1;
    }
    true
}

/// The zip crate's reader of an archive.
#[verifier::external_type_specification]
#[verifier::external_body]
#[verifier::reject_recursive_types(R)]
pub struct ExZipArchive<R>(zip::ZipArchive<R>);

/// The standard library's cursor over a buffer in memory.
#[verifier::external_type_specification]
#[verifier::external_body]
#[verifier::reject_recursive_types(T)]
pub struct ExCursor<T>(std::io::Cursor<T>);

/// The zip crate's error.
#[verifier::external_type_specification]
#[verifier::external_body]
pub struct ExZipError(zip::result::ZipError);

/// One entry of a zip archive, as the zip crate reads it.
#[derive(Debug)]
pub struct ZipEntry {
    /// The name as stored in the archive.
    pub name: String,
    /// The name as a path, where the zip crate judges, by the path rules of
    /// the platform, that it stays inside the directory it is unpacked into.
    pub enclosed: Option<String>,
    /// The Unix permission bits, where the archive stores any.
    pub unix_mode: Option<u32>,
    /// The uncompressed content.
    pub data: Vec<u8>,
}

/// An entry as mathematical values.
pub struct ZipEntryView {
    pub name: Seq<char>,
    pub enclosed: Option<Seq<char>>,
    pub unix_mode: Option<u32>,
    pub data: Seq<u8>,
}

impl View for ZipEntry {
    type V = ZipEntryView;

    open spec fn view(&self) -> ZipEntryView {
        ZipEntryView {
            name: self.name@,
            enclosed: opt_view(self.enclosed),
            unix_mode: self.unix_mode,
            data: self.data@,
        }
    }
}

/// The views of a list of entries.
pub open spec fn entry_views(entries: Seq<ZipEntry>) -> Seq<ZipEntryView> {
    entries.map_values(|e: ZipEntry| e@)
}

/// What reading bytes as a zip archive gives, as the zip crate reads them
/// on the platform at hand: nothing where they are no archive; else, for
/// each position, the entry there, or nothing where that entry cannot be
/// read. Which names count as enclosed goes by the platform's path rules.
pub uninterp spec fn zip_listing(data: Seq<u8>) -> Option<Seq<Option<ZipEntryView>>>;

/// What an opened archive holds: for each position, the entry there, or
/// nothing where that entry cannot be read.
pub uninterp spec fn zip_entries(archive: zip::ZipArchive<std::io::Cursor<Vec<u8>>>) -> Seq<
    Option<ZipEntryView>,
>;

/// `zip::ZipArchive::new` on a cursor over the bytes: opens the archive, or
/// fails where the bytes are no archive. What the opened archive holds is a
/// function of the bytes and of the platform's path rules, by which the zip
/// crate judges whether a name is enclosed.
#[verifier::external_body]
fn zip_open(data: Vec<u8>) -> (r: Result<
    zip::ZipArchive<std::io::Cursor<Vec<u8>>>,
    zip::result::ZipError,
>)
    ensures
        match r {
            Ok(archive) => zip_listing(data@) == Some(zip_entries(archive)),
            Err(_) => zip_listing(data@) is None,
        },
{
    zip::ZipArchive::new(std::io::Cursor::new(data))
}

/// `zip::ZipArchive::len`: the number of entries.
#[verifier::external_body]
fn zip_len(archive: &zip::ZipArchive<std::io::Cursor<Vec<u8>>>) -> (n: usize)
    ensures
        n == zip_entries(*archive).len(),
{
    archive.len()
}

/// `zip::ZipArchive::by_index`, then the entry's `name`, `enclosed_name` and
/// `unix_mode`, and its content read to the end: the entry at a position, or
/// the error where there is none or it cannot be read. The archive holds
/// afterwards what it held before.
#[verifier::external_body]
fn zip_entry(archive: &mut zip::ZipArchive<std::io::Cursor<Vec<u8>>>, index: usize) -> (r: Result<
    ZipEntry,
    zip::result::ZipError,
>)
    ensures
        zip_entries(*final(archive)) == zip_entries(*old(archive)),
        match r {
            Ok(entry) => index < zip_entries(*old(archive)).len() && zip_entries(
                *old(archive),
            )[index as int] == Some(entry@),
            Err(_) => index >= zip_entries(*old(archive)).len() || zip_entries(
                *old(archive),
            )[index as int] is None,
        },
{
    let mut file = archive.by_index(index)?;
    let mut data = Vec::new();
    std::io::Read::read_to_end(&mut file, &mut data)?;
    Ok(
        ZipEntry {
            name: file.name().to_string(),
            enclosed: file.enclosed_name().map(|p| p.to_string_lossy().into_owned()),
            unix_mode: file.unix_mode(),
            data,
        },
    )
}

/// `ZipError`'s `Display`: the error in words.
#[verifier::external_body]
fn zip_error_text(e: &zip::result::ZipError) -> (text: String) {
    e.to_string()
}

/// Whether every entry of a listing can be read.
pub open spec fn all_readable(listing: Seq<Option<ZipEntryView>>) -> bool {
    forall|i: int| 0 <= i < listing.len() ==> listing[i] is Some
}

/// The entries of a listing in which every entry can be read.
pub open spec fn readable_entries(listing: Seq<Option<ZipEntryView>>) -> Seq<ZipEntryView> {
    listing.map_values(|e: Option<ZipEntryView>| e->0)
}

/// How the failure to open an archive is worded: this, then the cause.
pub open spec fn open_failure_prefix() -> Seq<char> {
    "Failed to read zip archive: "@
}

/// How the failure to read an entry is worded: this, then the cause.
pub open spec fn entry_failure_prefix() -> Seq<char> {
    "Failed to read zip entry: "@
}

/// Reads a zip archive held in memory: all its entries in order, or, where
/// the bytes are no archive or an entry cannot be read, the failure in words.
pub fn read_zip(data: Vec<u8>) -> (r: Result<Vec<ZipEntry>, String>)
    ensures
        match zip_listing(data@) {
            None => r matches Err(message) && starts_with(message@, open_failure_prefix()),
            Some(listing) => if all_readable(listing) {
                r matches Ok(entries) && entry_views(entries@) == readable_entries(listing)
            } else {
                r matches Err(message) && starts_with(message@, entry_failure_prefix())
            },
        },
{
    let ghost bytes = data@;
    let mut archive = match zip_open(data) {
        Ok(archive) => archive,
        Err(e) => {
            let cause = zip_error_text(&e);
            let message = concat2("Failed to read zip archive: ", cause.as_str());
            assert(message@.take(open_failure_prefix().len() as int) == open_failure_prefix());
            return Err(message);
        },
    };
    let ghost listing = zip_entries(archive);
    let count = zip_len(&archive);
    let mut entries: Vec<ZipEntry> = Vec::new();
    let mut i: usize = 0;
    while i < count
        invariant
            i <= count,
            count == listing.len(),
            bytes == data@,
            zip_listing(bytes) == Some(listing),
            zip_entries(archive) == listing,
            entries.len() == i,
            forall|j: int| 0 <= j < i ==> listing[j] == Some(#[trigger] entries@[j]@),
        decreases count - i,
    {
        match zip_entry(&mut archive, i) {
            Ok(entry) => {
                entries.push(entry);
            },
            Err(e) => {
                let cause = zip_error_text(&e);
                let message = concat2("Failed to read zip entry: ", cause.as_str());
                assert(message@.take(entry_failure_prefix().len() as int)
                    == entry_failure_prefix());
                assert(listing[i as int] is None);
                return Err(message);
            },
        }
        i += 1;
    }
    proof {
        assert forall|j: int| 0 <= j < listing.len() implies listing[j] is Some by {
            assert(listing[j] == Some(entries@[j]@));
        }
        assert(entry_views(entries@) =~= readable_entries(listing)) by {
            assert forall|j: int| 0 <= j < entries@.len() implies entry_views(entries@)[j]
                == readable_entries(listing)[j] by {
                assert(listing[j] == Some(entries@[j]@));
            }
        }
    }
    Ok(entries)
}

/// One thing to write while unpacking: a directory to create, or a file to
/// create with the content of an entry, at a path relative to the directory
/// that the archive is unpacked into; and the permission bits to set on it
/// afterwards, where the archive stores any.
#[derive(Debug)]
pub struct ExtractStep {
    /// Position of the entry that this step unpacks.
    pub source: usize,
    pub path: String,
    pub is_dir: bool,
    pub unix_mode: Option<u32>,
}

/// A step as mathematical values.
pub struct ExtractStepView {
    pub source: int,
    pub path: Seq<char>,
    pub is_dir: bool,
    pub unix_mode: Option<u32>,
}

impl View for ExtractStep {
    type V = ExtractStepView;

    open spec fn view(&self) -> ExtractStepView {
        ExtractStepView {
            source: self.source as int,
            path: self.path@,
            is_dir: self.is_dir,
            unix_mode: self.unix_mode,
        }
    }
}

/// The views of a list of steps.
pub open spec fn step_views(steps: Seq<ExtractStep>) -> Seq<ExtractStepView> {
    steps.map_values(|s: ExtractStep| s@)
}

/// What unpacking does with one entry. The entry is skipped where the zip
/// crate does not vouch for its name, and where the name, or the path that
/// the zip crate made of it, could lead out of the directory. Else it is
/// written at that path: as a directory where the name ends in `/`, as a
/// file otherwise.
pub open spec fn step_of(entry: ZipEntryView, position: int) -> Option<ExtractStepView> {
    match entry.enclosed {
        None => None,
        Some(path) => if is_contained(entry.name) && is_contained(path) {
            Some(
                ExtractStepView {
                    source: position,
                    path,
                    is_dir: ends_with(entry.name, "/"@),
                    unix_mode: entry.unix_mode,
                },
            )
        } else {
            None
        },
    }
}

/// What unpacking does with the first `n` entries: the steps of those that
/// are not skipped, in the order of the entries.
pub open spec fn plan_of(entries: Seq<ZipEntryView>, n: int) -> Seq<ExtractStepView>
    decreases n,
{
    if n <= 0 {
        Seq::<ExtractStepView>::empty()
    } else {
        let before = plan_of(entries, n - 1);
        match step_of(entries[n - 1], n - 1) {
            Some(step) => before.push(step),
            None => before,
        }
    }
}

/// Decides, entry by entry, what unpacking an archive writes.
pub fn plan_extraction(entries: &Vec<ZipEntry>) -> (plan: Vec<ExtractStep>)
    ensures
        step_views(plan@) == plan_of(entry_views(entries@), entries.len() as int),
{
    let mut plan: Vec<ExtractStep> = Vec::new();
    let mut i: usize = 0;
    assert(step_views(plan@) == Seq::<ExtractStepView>::empty());
    while i < entries.len()
        invariant
            i <= entries.len(),
            step_views(plan@) == plan_of(entry_views(entries@), i as int),
        decreases entries.len() - i,
    {
        let entry = &entries[i];
        assert(entry_views(entries@)[i as int] == entry@);
        match clone_opt(&entry.enclosed) {
            None => {},
            Some(path) => {
                if is_contained_path(entry.name.as_str()) && is_contained_path(path.as_str()) {
                    let ghost before = step_views(plan@);
                    let step = ExtractStep {
                        source: i,
                        path,
                        is_dir: has_suffix(entry.name.as_str(), "/"),
                        unix_mode: entry.unix_mode,
                    };
                    plan.push(step);
                    assert(step_views(plan@) == before.push(step@));
                }
            },
        }
        i += 1;
    }
    plan
}

/// Every step of a plan unpacks an entry of the archive, as `step_of` says;
/// steps come in the order of their entries, and no entry has two.
pub proof fn lemma_plan_sources(entries: Seq<ZipEntryView>, n: int)
    requires
        0 <= n <= entries.len(),
    ensures
        forall|k: int|
            0 <= k < plan_of(entries, n).len() ==> {
                let step = #[trigger] plan_of(entries, n)[k];
                0 <= step.source < n && step_of(entries[step.source], step.source) == Some(step)
            },
        forall|j: int, k: int|
            0 <= j < k < plan_of(entries, n).len() ==> (#[trigger] plan_of(entries, n)[j]).source
                < (#[trigger] plan_of(entries, n)[k]).source,
    decreases n,
{
    if n > 0 {
        lemma_plan_sources(entries, n - 1);
    }
}

/// Unpacking never writes outside the directory that the archive is unpacked
/// into: the path of every step holds no NUL, does not start at the root or
/// on a drive and never steps up, whether `/` or `\` is read as the
/// separator, so following it from that directory never leaves it.
pub proof fn law_extraction_stays_inside(entries: Seq<ZipEntryView>)
    ensures
        forall|k: int|
            0 <= k < plan_of(entries, entries.len() as int).len() ==> {
                let step = #[trigger] plan_of(entries, entries.len() as int)[k];
                is_contained(step.path) && resolves_inside(step.path)
            },
{
    let plan = plan_of(entries, entries.len() as int);
    lemma_plan_sources(entries, entries.len() as int);
    assert forall|k: int| 0 <= k < plan.len() implies is_contained((#[trigger] plan[k]).path)
        && resolves_inside(plan[k].path) by {
        let step = plan[k];
        assert(step_of(entries[step.source], step.source) == Some(step));
        lemma_contained_resolves_inside(step.path);
    }
}

/// Nothing is written for an entry whose name has a component that steps up
/// to the parent directory: no step of the plan unpacks it.
pub proof fn law_traversal_is_skipped(entries: Seq<ZipEntryView>, i: int)
    requires
        0 <= i < entries.len(),
        has_parent_component(entries[i].name),
    ensures
        step_of(entries[i], i) is None,
        forall|k: int|
            0 <= k < plan_of(entries, entries.len() as int).len() ==> (#[trigger] plan_of(
                entries,
                entries.len() as int,
            )[k]).source != i,
{
    let plan = plan_of(entries, entries.len() as int);
    lemma_plan_sources(entries, entries.len() as int);
    assert forall|k: int| 0 <= k < plan.len() implies (#[trigger] plan[k]).source != i by {
        let step = plan[k];
        assert(step_of(entries[step.source], step.source) == Some(step));
    }
}

/// Reads a zip archive held in memory and decides what unpacking it writes.
/// Gives the entries with the plan, or the failure in words.
pub fn plan_zip_extraction(data: Vec<u8>) -> (r: Result<(Vec<ZipEntry>, Vec<ExtractStep>), String>)
    ensures
        match zip_listing(data@) {
            None => r matches Err(message) && starts_with(message@, open_failure_prefix()),
            Some(listing) => if all_readable(listing) {
                r matches Ok((entries, plan)) && entry_views(entries@) == readable_entries(listing)
                    && step_views(plan@) == plan_of(
                    readable_entries(listing),
                    listing.len() as int,
                )
            } else {
                r matches Err(message) && starts_with(message@, entry_failure_prefix())
            },
        },
{
    match read_zip(data) {
        Ok(entries) => {
            let plan = plan_extraction(&entries);
            proof {
                let listing = zip_listing(data@)->0;
                assert(entry_views(entries@).len() == entries@.len());
                assert(readable_entries(listing).len() == listing.len());
            }
            Ok((entries, plan))
        },
        Err(message) => Err(message),
    }
}

/// The standard library's error of input and output.
#[verifier::external_type_specification]
#[verifier::external_body]
pub struct ExIoError(std::io::Error);

/// One entry of a tar archive, as the tar crate reads it.
#[derive(Debug)]
pub struct TarEntry {
    /// The path as stored in the archive.
    pub path: String,
    /// Whether the entry is a directory.
    pub is_dir: bool,
    /// The permission bits, where the header holds them in a form that can
    /// be read.
    pub mode: Option<u32>,
    /// The content.
    pub data: Vec<u8>,
}

/// A tar entry as mathematical values.
pub struct TarEntryView {
    pub path: Seq<char>,
    pub is_dir: bool,
    pub mode: Option<u32>,
    pub data: Seq<u8>,
}

impl View for TarEntry {
    type V = TarEntryView;

    open spec fn view(&self) -> TarEntryView {
        TarEntryView { path: self.path@, is_dir: self.is_dir, mode: self.mode, data: self.data@ }
    }
}

/// The views of a list of tar entries.
pub open spec fn tar_entry_views(entries: Seq<TarEntry>) -> Seq<TarEntryView> {
    entries.map_values(|e: TarEntry| e@)
}

/// What decompressing bytes as a zstd frame gives, as the zstd crate does
/// it; nothing where the bytes cannot be decompressed.
pub uninterp spec fn zstd_decoded(data: Seq<u8>) -> Option<Seq<u8>>;

/// What reading bytes as a tar archive gives, as the tar crate reads them
/// on the platform at hand: the entries in order; nothing where the archive
/// or one of its entries cannot be read. How a stored path reads goes by
/// the platform's path rules.
pub uninterp spec fn tar_listing(data: Seq<u8>) -> Option<Seq<TarEntryView>>;

/// `zstd::stream::decode_all`: decompresses the bytes of a zstd frame. The
/// result is a function of the bytes alone.
#[verifier::external_body]
fn zstd_decode(data: &[u8]) -> (r: Result<Vec<u8>, std::io::Error>)
    ensures
        match r {
            Ok(bytes) => zstd_decoded(data@) == Some(bytes@),
            Err(_) => zstd_decoded(data@) is None,
        },
{
    zstd::stream::decode_all(data)
}

/// `tar::Archive::entries` over the bytes, and of each entry its `path`,
/// whether the type in its header is that of a directory, the `mode` of its
/// header, and its content read to the end. The result is a function of the
/// bytes and of the platform's path rules: on Windows the tar crate turns
/// `\` into the separator, and fails on a path that is not Unicode.
#[verifier::external_body]
fn tar_entries(data: &[u8]) -> (r: Result<Vec<TarEntry>, std::io::Error>)
    ensures
        match r {
            Ok(entries) => tar_listing(data@) == Some(tar_entry_views(entries@)),
            Err(_) => tar_listing(data@) is None,
        },
{
    let mut out = Vec::new();
    for entry in tar::Archive::new(data).entries()? {
        let mut entry = entry?;
        let mut data = Vec::new();
        std::io::Read::read_to_end(&mut entry, &mut data)?;
        let path = entry.path()?.to_string_lossy().into_owned();
        let is_dir = entry.header().entry_type().is_dir();
        out.push(TarEntry { path, is_dir, mode: entry.header().mode().ok(), data });
    }
    Ok(out)
}

/// `std::io::Error`'s `Display`: the error in words.
#[verifier::external_body]
fn io_error_text(e: &std::io::Error) -> (text: String) {
    e.to_string()
}

/// What unpacking does with one entry of a tar archive. The entry is
/// skipped where its path could lead out of the directory under the path
/// rules of any platform. Else it is written at its path, as a directory or
/// as a file; the permission bits are set on files only.
pub open spec fn tar_step_of(entry: TarEntryView, position: int) -> Option<ExtractStepView> {
    if is_contained(entry.path) {
        Some(
            ExtractStepView {
                source: position,
                path: entry.path,
                is_dir: entry.is_dir,
                unix_mode: if entry.is_dir {
                    None
                } else {
                    entry.mode
                },
            },
        )
    } else {
        None
    }
}

/// What unpacking does with the first `n` entries of a tar archive.
pub open spec fn tar_plan_of(entries: Seq<TarEntryView>, n: int) -> Seq<ExtractStepView>
    decreases n,
{
    if n <= 0 {
        Seq::<ExtractStepView>::empty()
    } else {
        let before = tar_plan_of(entries, n - 1);
        match tar_step_of(entries[n - 1], n - 1) {
            Some(step) => before.push(step),
            None => before,
        }
    }
}

/// Decides, entry by entry, what unpacking a tar archive writes.
pub fn plan_tar_extraction(entries: &Vec<TarEntry>) -> (plan: Vec<ExtractStep>)
    ensures
        step_views(plan@) == tar_plan_of(tar_entry_views(entries@), entries.len() as int),
{
    let mut plan: Vec<ExtractStep> = Vec::new();
    let mut i: usize = 0;
    assert(step_views(plan@) == Seq::<ExtractStepView>::empty());
    while i < entries.len()
        invariant
            i <= entries.len(),
            step_views(plan@) == tar_plan_of(tar_entry_views(entries@), i as int),
        decreases entries.len() - i,
    {
        let entry = &entries[i];
        assert(tar_entry_views(entries@)[i as int] == entry@);
        if is_contained_path(entry.path.as_str()) {
            let ghost before = step_views(plan@);
            let step = ExtractStep {
                source: i,
                path: entry.path.clone(),
                is_dir: entry.is_dir,
                unix_mode: if entry.is_dir {
                    None
                } else {
                    entry.mode
                },
            };
            plan.push(step);
            assert(step_views(plan@) == before.push(step@));
        }
        i += 1;
    }
    plan
}

proof fn lemma_tar_plan_sources(entries: Seq<TarEntryView>, n: int)
    requires
        0 <= n <= entries.len(),
    ensures
        forall|k: int|
            0 <= k < tar_plan_of(entries, n).len() ==> {
                let step = #[trigger] tar_plan_of(entries, n)[k];
                0 <= step.source < n && tar_step_of(entries[step.source], step.source) == Some(
                    step,
                )
            },
    decreases n,
{
    if n > 0 {
        lemma_tar_plan_sources(entries, n - 1);
    }
}

/// Unpacking a tar archive never writes outside the directory that the
/// archive is unpacked into, and writes nothing for an entry whose path has
/// a component that steps up to the parent directory.
pub proof fn law_tar_extraction_stays_inside(entries: Seq<TarEntryView>)
    ensures
        forall|k: int|
            0 <= k < tar_plan_of(entries, entries.len() as int).len() ==> {
                let step = #[trigger] tar_plan_of(entries, entries.len() as int)[k];
                &&& is_contained(step.path)
                &&& resolves_inside(step.path)
                &&& 0 <= step.source < entries.len()
                &&& !has_parent_component(entries[step.source].path)
            },
{
    let plan = tar_plan_of(entries, entries.len() as int);
    lemma_tar_plan_sources(entries, entries.len() as int);
    assert forall|k: int| 0 <= k < plan.len() implies {
        let step = #[trigger] plan[k];
        &&& is_contained(step.path)
        &&& resolves_inside(step.path)
        &&& 0 <= step.source < entries.len()
        &&& !has_parent_component(entries[step.source].path)
    } by {
        let step = plan[k];
        assert(tar_step_of(entries[step.source], step.source) == Some(step));
        lemma_contained_resolves_inside(step.path);
    }
}

/// How the failure to decompress is worded: this, then the cause.
pub open spec fn decode_failure_prefix() -> Seq<char> {
    "Failed to create zstd decoder: "@
}

/// How the failure to read a tar archive is worded: this, then the cause.
pub open spec fn tar_failure_prefix() -> Seq<char> {
    "Failed to read archive entries: "@
}

/// Reads a tar archive in a zstd frame, held in memory, and decides what
/// unpacking it writes. Gives the entries with the plan, or the failure in
/// words.
pub fn extract_tar_zst(data: &[u8]) -> (r: Result<(Vec<TarEntry>, Vec<ExtractStep>), String>)
    ensures
        match zstd_decoded(data@) {
            None => r matches Err(message) && starts_with(message@, decode_failure_prefix()),
            Some(bytes) => match tar_listing(bytes) {
                None => r matches Err(message) && starts_with(message@, tar_failure_prefix()),
                Some(listing) => r matches Ok((entries, plan)) && tar_entry_views(entries@)
                    == listing && step_views(plan@) == tar_plan_of(listing, listing.len() as int),
            },
        },
{
    let bytes = match zstd_decode(data) {
        Ok(bytes) => bytes,
        Err(e) => {
            let cause = io_error_text(&e);
            let message = concat2("Failed to create zstd decoder: ", cause.as_str());
            assert(message@.take(decode_failure_prefix().len() as int) == decode_failure_prefix());
            return Err(message);
        },
    };
    match tar_entries(bytes.as_slice()) {
        Ok(entries) => {
            let plan = plan_tar_extraction(&entries);
            assert(tar_entry_views(entries@).len() == entries@.len());
            Ok((entries, plan))
        },
        Err(e) => {
            let cause = io_error_text(&e);
            let message = concat2("Failed to read archive entries: ", cause.as_str());
            assert(message@.take(tar_failure_prefix().len() as int) == tar_failure_prefix());
            Err(message)
        },
    }
}

} // verus!
