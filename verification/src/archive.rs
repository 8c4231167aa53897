//! The runtime archive: reading its entries, planning its extraction, and
//! computing the per-file expectations against which an extracted tree is
//! checked.
//!
//! Reading the zip container itself is an outside call, taken on trust
//! against a small model: the archive is a sequence of entries, each a
//! name, a recorded CRC-32, an optional Unix mode, and the decompressed
//! bytes.  Everything built on that model — path splitting, the top-level
//! stripping rule, the extraction plan and the tree check — is verified.

use vstd::prelude::*;

use crate::checksum::crc32_of;

verus! {

/// The spec-level model of one archive entry:
/// (name, recorded CRC-32, Unix mode, decompressed bytes).
pub type EntryModel = (Seq<char>, u32, Option<u32>, Seq<u8>);

/// One archive entry, read out as plain values.
pub struct ZipEntry {
    /// The entry's path inside the archive, `/`-separated, with a trailing
    /// `/` on directory entries.
    pub name: String,
    /// The CRC-32 of the entry's bytes, as recorded in the archive's own
    /// metadata.
    pub crc32: u32,
    /// The Unix permission bits stored for the entry, where the archive
    /// records them.
    pub unix_mode: Option<u32>,
    /// The decompressed bytes of the entry.
    pub data: Vec<u8>,
}

pub open spec fn spec_entry_model(e: ZipEntry) -> EntryModel {
    (e.name@, e.crc32, e.unix_mode, e.data@)
}

/// What parsing a byte sequence as a zip archive yields: `None` where the
/// bytes are not a well-formed archive, otherwise the entry models in
/// archive order.  Parsing is a function of the bytes alone.
pub uninterp spec fn zip_parse(bytes: Seq<u8>) -> Option<Seq<EntryModel>>;

/// The bytes an opened archive reader holds (what its in-memory cursor was
/// opened over); reading entries never changes them.
pub uninterp spec fn zip_bytes(a: zip::ZipArchive<std::io::Cursor<Vec<u8>>>) -> Seq<u8>;

/// Whether reading the archive's `i`-th entry out whole succeeds: its
/// compression is supported, it is not encrypted, and its bytes decompress
/// and carry the recorded CRC-32.  All of that is decided by the archive
/// bytes and the index alone.
pub uninterp spec fn zip_entry_readable(bytes: Seq<u8>, i: int) -> bool;

/// The zip crate's archive reader, opaque to the proofs; `zip_bytes`
/// names what it holds.
#[verifier::external_type_specification]
#[verifier::external_body]
#[verifier::reject_recursive_types(R)]
pub struct ExZipArchive<R>(zip::ZipArchive<R>);

/// The in-memory reader the archive is opened over.
#[verifier::external_type_specification]
#[verifier::external_body]
#[verifier::reject_recursive_types(T)]
pub struct ExCursor<T>(std::io::Cursor<T>);

/// The zip crate's error type, carried through opaquely and mapped to
/// `ArchiveError` in verified code.
#[verifier::external_type_specification]
#[verifier::external_body]
pub struct ExZipError(zip::result::ZipError);

/// Relies on zip::ZipArchive::new: reading the central directory of an
/// in-memory archive is a function of the bytes alone, and fails exactly
/// where the bytes are not a well-formed archive.
#[verifier::external_body]
fn archive_open(bytes: &Vec<u8>) -> (r: Result<
    zip::ZipArchive<std::io::Cursor<Vec<u8>>>,
    zip::result::ZipError,
>)
    ensures
        r is Ok <==> zip_parse(bytes@) is Some,
        r matches Ok(a) ==> zip_bytes(a) == bytes@,
{
    zip::ZipArchive::new(std::io::Cursor::new(bytes.clone()))
}

/// Relies on zip::ZipArchive::len: the number of entries in the archive.
#[verifier::external_body]
fn archive_len(a: &zip::ZipArchive<std::io::Cursor<Vec<u8>>>) -> (r: usize)
    requires
        zip_parse(zip_bytes(*a)) is Some,
    ensures
        r == zip_parse(zip_bytes(*a))->Some_0.len(),
{
    a.len()
}

/// Relies on zip::ZipArchive::by_index and the entry accessors `name`,
/// `crc32` and `unix_mode`, plus `Read::read_to_end` for the entry's
/// bytes.  Reading moves only the cursor, never the bytes or the parsed
/// directory, and succeeds or fails as a function of the bytes and the
/// index alone (`zip_entry_readable`).  The crate feeds every entry's
/// bytes through a checking reader that recomputes the CRC-32 with
/// crc32fast and fails the read on a mismatch with the recorded value
/// (encrypted entries, for which that check would be disabled, cannot be
/// opened without a password at all), so bytes that come back match the
/// recorded CRC-32.
#[verifier::external_body]
fn read_entry(a: &mut zip::ZipArchive<std::io::Cursor<Vec<u8>>>, i: usize) -> (r: Result<
    ZipEntry,
    zip::result::ZipError,
>)
    requires
        zip_parse(zip_bytes(*old(a))) is Some,
        i < zip_parse(zip_bytes(*old(a)))->Some_0.len(),
    ensures
        zip_bytes(*final(a)) == zip_bytes(*old(a)),
        r is Ok <==> zip_entry_readable(zip_bytes(*old(a)), i as int),
        r matches Ok(e) ==> {
            &&& spec_entry_model(e) == zip_parse(zip_bytes(*old(a)))->Some_0[i as int]
            &&& crc32_of(e.data@) == e.crc32
        },
{
    let mut f = a.by_index(i)?;
    let name = f.name().to_string();
    let crc32 = f.crc32();
    let unix_mode = f.unix_mode();
    let mut data = Vec::new();
    std::io::Read::read_to_end(&mut f, &mut data).map_err(zip::result::ZipError::Io)?;
    Ok(ZipEntry { name, crc32, unix_mode, data })
}

/// Splitting a name on `/`: always at least one piece, with empty pieces
/// where separators meet an end or each other.
pub open spec fn spec_split(s: Seq<char>) -> Seq<Seq<char>>
    decreases s.len(),
{
    if s.len() == 0 {
        seq![Seq::<char>::empty()]
    } else if s[0] == '/' {
        seq![Seq::<char>::empty()].add(spec_split(s.drop_first()))
    } else {
        let rest = spec_split(s.drop_first());
        seq![seq![s[0]].add(rest[0])].add(rest.drop_first())
    }
}

proof fn lemma_split_len(s: Seq<char>)
    ensures
        spec_split(s).len() >= 1,
    decreases s.len(),
{
    if s.len() > 0 {
        lemma_split_len(s.drop_first());
    }
}

proof fn lemma_split_no_slash(s: Seq<char>)
    requires
        forall|j: int| 0 <= j < s.len() ==> s[j] != '/',
    ensures
        spec_split(s) == seq![s],
    decreases s.len(),
{
    if s.len() == 0 {
        assert(s =~= Seq::<char>::empty());
    } else {
        lemma_split_no_slash(s.drop_first());
        assert(seq![s[0]].add(s.drop_first()) =~= s);
        assert(spec_split(s) =~= seq![s]);
    }
}

proof fn lemma_split_at_first_slash(s: Seq<char>, k: int)
    requires
        0 <= k < s.len(),
        s[k] == '/',
        forall|j: int| 0 <= j < k ==> s[j] != '/',
    ensures
        spec_split(s) == seq![s.take(k)].add(spec_split(s.skip(k + 1))),
    decreases k,
{
    lemma_split_len(s.drop_first());
    if k == 0 {
        assert(s.take(0) =~= Seq::<char>::empty());
        assert(s.skip(1) =~= s.drop_first());
        assert(spec_split(s) =~= seq![s.take(0)].add(spec_split(s.skip(1))));
    } else {
        lemma_split_at_first_slash(s.drop_first(), k - 1);
        assert(s.drop_first().skip(k - 1 + 1) =~= s.skip(k + 1));
        assert(seq![s[0]].add(s.drop_first().take(k - 1)) =~= s.take(k));
        let rest = spec_split(s.drop_first());
        assert(rest == seq![s.drop_first().take(k - 1)].add(spec_split(s.drop_first().skip(k))));
        assert(rest[0] == s.drop_first().take(k - 1));
        assert(rest.drop_first() =~= spec_split(s.skip(k + 1)));
        assert(spec_split(s) =~= seq![s.take(k)].add(spec_split(s.skip(k + 1))));
    }
}

/// Splits a name on `/` into its pieces.
fn split_slashes(name: &str) -> (r: Vec<String>)
    ensures
        r.deep_view() == spec_split(name@),
        r.len() >= 1,
    decreases name@.len(),
{
    let n = name.unicode_len();
    let mut i: usize = 0;
    while i < n && name.get_char(i) != '/'
        invariant
            0 <= i <= n,
            n == name@.len(),
            forall|j: int| 0 <= j < i ==> name@[j] != '/',
        decreases n - i,
    {
        i = i + 1;
    }
    if i == n {
        proof {
            lemma_split_no_slash(name@);
        }
        let mut r: Vec<String> = Vec::new();
        r.push(name.to_owned());
        assert(r.deep_view() =~= seq![name@]);
        r
    } else {
        let head = name.substring_char(0, i).to_owned();
        let tail = name.substring_char(i + 1, n);
        proof {
            lemma_split_at_first_slash(name@, i as int);
        }
        let mut rest = split_slashes(tail);
        let ghost old_rest = rest.deep_view();
        rest.insert(0, head);
        assert(rest.deep_view() =~= seq![name@.take(i as int)].add(old_rest)) by {
            assert(forall|j: int|
                0 <= j < rest.len() ==> rest.deep_view()[j] == rest@[j].deep_view());
        }
        rest
    }
}

/// A directory entry: its name ends with the separator.
pub open spec fn spec_is_dir_name(name: Seq<char>) -> bool {
    name.len() > 0 && name.last() == '/'
}

/// A symbolic-link entry, told apart by its stored Unix mode.
pub open spec fn spec_is_symlink(mode: Option<u32>) -> bool {
    match mode {
        Some(m) => m & 0o120000 == 0o120000,
        None => false,
    }
}

/// A usable path piece: non-empty and free of the two self-referential
/// names, so an entry can never climb out of the destination directory.
pub open spec fn spec_component_ok(p: Seq<char>) -> bool {
    &&& p.len() > 0
    &&& !(p.len() == 1 && p[0] == '.')
    &&& !(p.len() == 2 && p[0] == '.' && p[1] == '.')
}

pub open spec fn spec_parts_ok(parts: Seq<Seq<char>>) -> bool {
    forall|i: int| 0 <= i < parts.len() ==> spec_component_ok(#[trigger] parts[i])
}

/// The path pieces an entry stands for: its name split on `/`, without the
/// empty piece a directory entry's trailing separator leaves behind.
pub open spec fn spec_entry_parts(name: Seq<char>) -> Seq<Seq<char>> {
    if spec_is_dir_name(name) {
        spec_split(name).drop_last()
    } else {
        spec_split(name)
    }
}

/// An entry the extractor accepts: a safe path that still has a component
/// left after the top-level segment is stripped.  A bare top-level entry —
/// file or directory — has no remaining component and is rejected as an
/// invalid layout.
pub open spec fn spec_entry_extractable(e: EntryModel) -> bool {
    let parts = spec_entry_parts(e.0);
    &&& spec_parts_ok(parts)
    &&& parts.len() >= 2
}

/// Why an archive operation failed.
#[derive(PartialEq, Eq, Structural, Clone, Copy, Debug)]
pub enum ArchiveError {
    /// The bytes are not a well-formed archive.
    BadArchive,
    /// An entry's bytes could not be read back (unsupported compression,
    /// or bytes that do not match the entry's recorded CRC-32).
    UnreadableEntry,
    /// An entry's path is unsafe, or has nothing left below the stripped
    /// top-level segment.
    InvalidArchiveLayout,
}

/// One step of an extraction plan, with the archive's top-level path
/// segment already stripped; the path is relative to the destination
/// directory.
pub enum ExtractAction {
    /// Create this directory (and any missing parents).
    MakeDir { path: Vec<String> },
    /// Write these bytes to this file, creating missing parents, and apply
    /// the stored Unix permission bits where the platform has them.
    WriteFile { path: Vec<String>, data: Vec<u8>, unix_mode: Option<u32> },
}

/// The action that faithfully extracts the entry: the entry's own path
/// pieces minus their first segment, with the entry's bytes and mode on
/// file entries.
pub open spec fn spec_action_matches(a: ExtractAction, e: EntryModel) -> bool {
    let stripped = spec_entry_parts(e.0).drop_first();
    if spec_is_dir_name(e.0) {
        a matches ExtractAction::MakeDir { path } && path.deep_view() == stripped
    } else {
        a matches ExtractAction::WriteFile { path, data, unix_mode }
            && path.deep_view() == stripped
            && data@ == e.3
            && unix_mode == e.2
    }
}

fn is_dir_name(name: &str) -> (r: bool)
    ensures
        r == spec_is_dir_name(name@),
{
    let n = name.unicode_len();
    n > 0 && name.get_char(n - 1) == '/'
}

fn component_ok(comp: &str) -> (r: bool)
    ensures
        r == spec_component_ok(comp@),
{
    let n = comp.unicode_len();
    if n == 0 {
        return false;
    }
    if n == 1 && comp.get_char(0) == '.' {
        return false;
    }
    if n == 2 && comp.get_char(0) == '.' && comp.get_char(1) == '.' {
        return false;
    }
    true
}

/// Copies a path's pieces without their first segment.
fn strip_first(parts: &Vec<String>) -> (r: Vec<String>)
    requires
        parts@.len() >= 1,
    ensures
        r.deep_view() == parts.deep_view().drop_first(),
{
    let mut path: Vec<String> = Vec::new();
    let mut j: usize = 1;
    while j < parts.len()
        invariant
            1 <= j <= parts.len(),
            path.len() == j - 1,
            forall|t: int| 0 <= t < j - 1 ==> #[trigger] path@[t]@ == parts.deep_view()[t + 1],
        decreases parts.len() - j,
    {
        assert(parts.deep_view()[j as int] == parts@[j as int]@);
        path.push(parts[j].clone());
        j = j + 1;
    }
    assert(path.deep_view() =~= parts.deep_view().drop_first()) by {
        assert(forall|t: int| 0 <= t < path.len() ==> path.deep_view()[t] == path@[t]@);
    }
    path
}

/// Turns one archive entry into its extraction step, or rejects it: an
/// unsafe path, or one with nothing below the top-level segment, is an
/// invalid layout.
pub fn plan_entry(e: ZipEntry) -> (r: Result<ExtractAction, ArchiveError>)
    ensures
        spec_entry_extractable(spec_entry_model(e)) ==> (r matches Ok(a) && spec_action_matches(
            a,
            spec_entry_model(e),
        )),
        !spec_entry_extractable(spec_entry_model(e)) ==> r == Err::<
            ExtractAction,
            ArchiveError,
        >(ArchiveError::InvalidArchiveLayout),
{
    let dir = is_dir_name(e.name.as_str());
    let mut parts = split_slashes(e.name.as_str());
    if dir {
        let _ = parts.pop();
        assert(parts.deep_view() =~= spec_entry_parts(e.name@)) by {
            assert(forall|j: int|
                0 <= j < parts.len() ==> parts.deep_view()[j] == parts@[j].deep_view());
        }
    }
    assert(parts.deep_view() == spec_entry_parts(e.name@));
    if parts.len() < 2 {
        return Err(ArchiveError::InvalidArchiveLayout);
    }
    let mut k: usize = 0;
    while k < parts.len()
        invariant
            k <= parts.len(),
            parts.deep_view() == spec_entry_parts(e.name@),
            forall|j: int| 0 <= j < k ==> spec_component_ok(#[trigger] parts.deep_view()[j]),
        decreases parts.len() - k,
    {
        assert(parts.deep_view()[k as int] == parts@[k as int]@);
        if !component_ok(parts[k].as_str()) {
            assert(!spec_parts_ok(spec_entry_parts(e.name@)));
            return Err(ArchiveError::InvalidArchiveLayout);
        }
        k = k + 1;
    }
    assert(spec_parts_ok(spec_entry_parts(e.name@)));
    let path = strip_first(&parts);
    if dir {
        Ok(ExtractAction::MakeDir { path })
    } else {
        Ok(ExtractAction::WriteFile { path, data: e.data, unix_mode: e.unix_mode })
    }
}

/// Whether every entry of a parsed archive can be both read out and
/// extracted: the condition under which planning the extraction succeeds.
pub open spec fn spec_archive_extractable(bytes: Seq<u8>) -> bool {
    &&& zip_parse(bytes) is Some
    &&& {
        let entries = zip_parse(bytes)->Some_0;
        forall|i: int|
            0 <= i < entries.len() ==> spec_entry_extractable(#[trigger] entries[i])
                && zip_entry_readable(bytes, i)
    }
}

/// Plans the extraction of a whole archive into a destination directory:
/// one step per entry, in archive order, every path stripped of its
/// top-level segment.  The plan comes back whole exactly when the bytes
/// are a well-formed archive whose every entry is readable and
/// extractable; a malformed archive, an unreadable entry or an invalid
/// layout yields no partial plan.
pub fn extract_plan(archive_bytes: &Vec<u8>) -> (r: Result<Vec<ExtractAction>, ArchiveError>)
    ensures
        r is Ok <==> spec_archive_extractable(archive_bytes@),
        r matches Ok(plan) ==> {
            let entries = zip_parse(archive_bytes@)->Some_0;
            &&& plan@.len() == entries.len()
            &&& forall|i: int|
                0 <= i < entries.len() ==> spec_action_matches(#[trigger] plan@[i], entries[i])
            &&& forall|i: int|
                0 <= i < entries.len() ==> crc32_of((#[trigger] entries[i]).3) == entries[i].1
        },
        r == Err::<Vec<ExtractAction>, ArchiveError>(ArchiveError::BadArchive) <==> zip_parse(
            archive_bytes@,
        ) is None,
        r == Err::<Vec<ExtractAction>, ArchiveError>(ArchiveError::UnreadableEntry) ==> {
            let entries = zip_parse(archive_bytes@)->Some_0;
            exists|i: int|
                0 <= i < entries.len() && !zip_entry_readable(archive_bytes@, i)
        },
        r == Err::<Vec<ExtractAction>, ArchiveError>(ArchiveError::InvalidArchiveLayout) ==> {
            let entries = zip_parse(archive_bytes@)->Some_0;
            exists|i: int| 0 <= i < entries.len() && !spec_entry_extractable(#[trigger] entries[i])
        },
{
    let mut a = match archive_open(archive_bytes) {
        Ok(a) => a,
        Err(_) => {
            return Err(ArchiveError::BadArchive);
        },
    };
    let ghost entries = zip_parse(archive_bytes@)->Some_0;
    let n = archive_len(&a);
    let mut plan: Vec<ExtractAction> = Vec::new();
    let mut i: usize = 0;
    while i < n
        invariant
            zip_parse(archive_bytes@) == Some(entries),
            zip_bytes(a) == archive_bytes@,
            n == entries.len(),
            i <= n,
            plan@.len() == i,
            forall|j: int|
                0 <= j < i ==> spec_action_matches(#[trigger] plan@[j], entries[j]),
            forall|j: int|
                0 <= j < i ==> spec_entry_extractable(#[trigger] entries[j]) && crc32_of(
                    entries[j].3,
                ) == entries[j].1,
            forall|j: int| 0 <= j < i ==> zip_entry_readable(archive_bytes@, j),
        decreases n - i,
    {
        let e = match read_entry(&mut a, i) {
            Ok(e) => e,
            Err(_) => {
                proof {
                    assert(!zip_entry_readable(archive_bytes@, i as int));
                    assert(exists|t: int|
                        0 <= t < entries.len() && !zip_entry_readable(archive_bytes@, t)) by {
                        assert(!zip_entry_readable(archive_bytes@, i as int));
                    }
                    assert(!spec_archive_extractable(archive_bytes@)) by {
                        assert((zip_parse(archive_bytes@)->Some_0)[i as int] == entries[i as int]);
                        assert(!(spec_entry_extractable(
                            (zip_parse(archive_bytes@)->Some_0)[i as int],
                        ) && zip_entry_readable(archive_bytes@, i as int)));
                    }
                }
                return Err(ArchiveError::UnreadableEntry);
            },
        };
        match plan_entry(e) {
            Ok(act) => {
                plan.push(act);
            },
            Err(err) => {
                proof {
                    let es = zip_parse(archive_bytes@)->Some_0;
                    assert(es == entries);
                    assert(0 <= i < es.len() && !spec_entry_extractable(es[i as int]));
                    assert(exists|t: int|
                        0 <= t < es.len() && !spec_entry_extractable(#[trigger] es[t]));
                }
                return Err(err);
            },
        }
        i = i + 1;
    }
    Ok(plan)
}

/// A file entry whose checksum the tree check verifies: not a directory,
/// not a symbolic link, and with a safe path.  An entry with an unsafe
/// path stands for no file on disk and is passed over.
pub open spec fn spec_checked_file(e: EntryModel) -> bool {
    &&& !spec_is_dir_name(e.0)
    &&& !spec_is_symlink(e.2)
    &&& spec_parts_ok(spec_split(e.0))
}

/// The per-file expectations read off an archive, in archive order: for
/// every checked file entry, its stripped path and its recorded CRC-32.
/// `None` where a checked file entry has nothing below the top-level
/// segment.
pub open spec fn spec_expected_checks(entries: Seq<EntryModel>) -> Option<
    Seq<(Seq<Seq<char>>, u32)>,
>
    decreases entries.len(),
{
    if entries.len() == 0 {
        Some(Seq::empty())
    } else {
        let e = entries[0];
        let rest = spec_expected_checks(entries.drop_first());
        if !spec_checked_file(e) {
            rest
        } else if spec_split(e.0).len() < 2 {
            None
        } else {
            match rest {
                Some(t) => Some(seq![(spec_split(e.0).drop_first(), e.1)].add(t)),
                None => None,
            }
        }
    }
}

/// One expectation of the extracted tree: the file at this path (relative
/// to the runtime directory) must have bytes with this CRC-32.
pub struct FileCheck {
    pub path: Vec<String>,
    pub crc32: u32,
}

pub open spec fn spec_check_model(c: FileCheck) -> (Seq<Seq<char>>, u32) {
    (c.path.deep_view(), c.crc32)
}

pub open spec fn spec_checks_view(cs: Seq<FileCheck>) -> Seq<(Seq<Seq<char>>, u32)> {
    cs.map_values(|c: FileCheck| spec_check_model(c))
}

pub open spec fn spec_combine_checks(
    pre: Seq<(Seq<Seq<char>>, u32)>,
    rest: Option<Seq<(Seq<Seq<char>>, u32)>>,
) -> Option<Seq<(Seq<Seq<char>>, u32)>> {
    match rest {
        Some(t) => Some(pre.add(t)),
        None => None,
    }
}

/// Whether every entry of a parsed archive can be read out: the
/// environmental half of what the tree-expectation reader needs.
pub open spec fn spec_archive_readable(bytes: Seq<u8>) -> bool {
    &&& zip_parse(bytes) is Some
    &&& forall|i: int|
        0 <= i < zip_parse(bytes)->Some_0.len() ==> zip_entry_readable(bytes, i)
}

/// Reads the per-file expectations off the archive: exactly the stripped
/// path and recorded CRC-32 of every checked file entry, in archive order.
/// They come back whole exactly when the bytes are a well-formed archive,
/// every entry is readable, and no checked file entry is a bare top-level
/// one.
pub fn expected_file_checks(archive_bytes: &Vec<u8>) -> (r: Result<Vec<FileCheck>, ArchiveError>)
    ensures
        r is Ok <==> spec_archive_readable(archive_bytes@) && spec_expected_checks(
            zip_parse(archive_bytes@)->Some_0,
        ) is Some,
        r matches Ok(cs) ==> Some(spec_checks_view(cs@)) == spec_expected_checks(
            zip_parse(archive_bytes@)->Some_0,
        ),
        r == Err::<Vec<FileCheck>, ArchiveError>(ArchiveError::BadArchive) <==> zip_parse(
            archive_bytes@,
        ) is None,
        r == Err::<Vec<FileCheck>, ArchiveError>(ArchiveError::UnreadableEntry) ==> {
            let entries = zip_parse(archive_bytes@)->Some_0;
            exists|i: int|
                0 <= i < entries.len() && !zip_entry_readable(archive_bytes@, i)
        },
        r == Err::<Vec<FileCheck>, ArchiveError>(ArchiveError::InvalidArchiveLayout) ==> {
            &&& zip_parse(archive_bytes@) is Some
            &&& spec_expected_checks(zip_parse(archive_bytes@)->Some_0) is None
        },
{
    let mut a = match archive_open(archive_bytes) {
        Ok(a) => a,
        Err(_) => {
            return Err(ArchiveError::BadArchive);
        },
    };
    let ghost entries = zip_parse(archive_bytes@)->Some_0;
    let n = archive_len(&a);
    let mut acc: Vec<FileCheck> = Vec::new();
    let mut i: usize = 0;
    proof {
        assert(entries.skip(0) =~= entries);
        assert(spec_checks_view(acc@) =~= Seq::<(Seq<Seq<char>>, u32)>::empty());
        assert(spec_combine_checks(
            spec_checks_view(acc@),
            spec_expected_checks(entries.skip(0)),
        ) == spec_expected_checks(entries)) by {
            if spec_expected_checks(entries) is Some {
                assert(Seq::<(Seq<Seq<char>>, u32)>::empty().add(
                    spec_expected_checks(entries)->Some_0,
                ) =~= spec_expected_checks(entries)->Some_0);
            }
        }
    }
    while i < n
        invariant
            zip_parse(archive_bytes@) == Some(entries),
            zip_bytes(a) == archive_bytes@,
            n == entries.len(),
            i <= n,
            forall|j: int| 0 <= j < i ==> zip_entry_readable(archive_bytes@, j),
            spec_expected_checks(entries) == spec_combine_checks(
                spec_checks_view(acc@),
                spec_expected_checks(entries.skip(i as int)),
            ),
        decreases n - i,
    {
        let e = match read_entry(&mut a, i) {
            Ok(e) => e,
            Err(_) => {
                proof {
                    assert(exists|t: int|
                        0 <= t < entries.len() && !zip_entry_readable(archive_bytes@, t)) by {
                        assert(!zip_entry_readable(archive_bytes@, i as int));
                    }
                }
                return Err(ArchiveError::UnreadableEntry);
            },
        };
        proof {
            assert(entries.skip(i as int)[0] == entries[i as int]);
            assert(entries.skip(i as int).drop_first() =~= entries.skip(i as int + 1));
        }
        let dir = is_dir_name(e.name.as_str());
        let symlink = match e.unix_mode {
            Some(m) => m & 0o120000 == 0o120000,
            None => false,
        };
        if dir || symlink {
            proof {
                assert(!spec_checked_file(entries[i as int]));
            }
        } else {
            let parts = split_slashes(e.name.as_str());
            let mut all_ok = true;
            let mut k: usize = 0;
            while k < parts.len()
                invariant
                    k <= parts.len(),
                    parts.deep_view() == spec_split(e.name@),
                    all_ok == (forall|t: int|
                        0 <= t < k ==> spec_component_ok(#[trigger] parts.deep_view()[t])),
                decreases parts.len() - k,
            {
                assert(parts.deep_view()[k as int] == parts@[k as int]@);
                if !component_ok(parts[k].as_str()) {
                    all_ok = false;
                }
                k = k + 1;
            }
            if !all_ok {
                proof {
                    assert(!spec_parts_ok(spec_split(entries[i as int].0)));
                    assert(!spec_checked_file(entries[i as int]));
                }
            } else if parts.len() < 2 {
                proof {
                    assert(spec_checked_file(entries[i as int]));
                    assert(spec_expected_checks(entries.skip(i as int)) is None);
                }
                return Err(ArchiveError::InvalidArchiveLayout);
            } else {
                let path = strip_first(&parts);
                let ghost old_acc = acc@;
                let check = FileCheck { path, crc32: e.crc32 };
                proof {
                    assert(spec_check_model(check) == (
                        spec_split(entries[i as int].0).drop_first(),
                        entries[i as int].1,
                    ));
                }
                acc.push(check);
                proof {
                    assert(spec_checks_view(acc@) =~= spec_checks_view(old_acc).push(
                        spec_check_model(check),
                    ));
                    let item = (spec_split(entries[i as int].0).drop_first(), entries[i as int].1);
                    match spec_expected_checks(entries.skip(i as int + 1)) {
                        Some(t) => {
                            assert(spec_checks_view(old_acc).add(seq![item].add(t))
                                =~= spec_checks_view(acc@).add(t));
                        },
                        None => {},
                    }
                }
            }
        }
        i = i + 1;
    }
    proof {
        assert(entries.skip(n as int) =~= Seq::<EntryModel>::empty());
        assert(spec_expected_checks(Seq::<EntryModel>::empty()) == Some(
            Seq::<(Seq<Seq<char>>, u32)>::empty(),
        ));
        assert(spec_checks_view(acc@).add(Seq::<(Seq<Seq<char>>, u32)>::empty())
            =~= spec_checks_view(acc@));
    }
    Ok(acc)
}

/// The path a planned step touches, relative to the destination directory.
pub open spec fn spec_action_path(a: ExtractAction) -> Seq<Seq<char>> {
    match a {
        ExtractAction::MakeDir { path } => path.deep_view(),
        ExtractAction::WriteFile { path, .. } => path.deep_view(),
    }
}

/// Top-level stripping: in a plan for an archive whose every entry path
/// begins with one common segment — and where that segment does not also
/// stand right below itself — every planned path is the entry's own path
/// with the segment removed, and no planned path begins with the segment.
/// Extraction therefore never creates the common top-level directory
/// inside the destination.
pub proof fn lemma_top_level_stripped(
    entries: Seq<EntryModel>,
    plan: Seq<ExtractAction>,
    seg: Seq<char>,
)
    requires
        plan.len() == entries.len(),
        forall|i: int|
            0 <= i < entries.len() ==> spec_action_matches(#[trigger] plan[i], entries[i]),
        forall|i: int|
            0 <= i < entries.len() ==> (#[trigger] spec_entry_parts(entries[i].0)).len() >= 1
                && spec_entry_parts(entries[i].0)[0] == seg,
        forall|i: int|
            0 <= i < entries.len() ==> (#[trigger] spec_entry_parts(entries[i].0)).len() < 2
                || spec_entry_parts(entries[i].0)[1] != seg,
    ensures
        forall|i: int|
            0 <= i < plan.len() ==> spec_action_path(#[trigger] plan[i]) == spec_entry_parts(
                entries[i].0,
            ).drop_first(),
        forall|i: int|
            0 <= i < plan.len() ==> {
                let path = spec_action_path(#[trigger] plan[i]);
                path.len() == 0 || path[0] != seg
            },
{
    assert forall|i: int| 0 <= i < plan.len() implies {
        let path = spec_action_path(#[trigger] plan[i]);
        path.len() == 0 || path[0] != seg
    } by {
        let parts = spec_entry_parts(entries[i].0);
        let path = spec_action_path(plan[i]);
        assert(path == parts.drop_first());
        if path.len() > 0 {
            assert(parts.len() >= 2);
            assert(path[0] == parts[1]);
        }
    }
}

/// The files a faithfully executed plan leaves on disk: each file entry's
/// bytes at its stripped path, a later entry overwriting an earlier one;
/// directory entries leave no file.
pub open spec fn spec_plan_files(entries: Seq<EntryModel>) -> Map<Seq<Seq<char>>, Seq<u8>>
    decreases entries.len(),
{
    if entries.len() == 0 {
        Map::empty()
    } else {
        let m = spec_plan_files(entries.drop_last());
        let e = entries.last();
        if spec_is_dir_name(e.0) {
            m
        } else {
            m.insert(spec_split(e.0).drop_first(), e.3)
        }
    }
}

proof fn lemma_plan_files_lookup(entries: Seq<EntryModel>, i: int)
    requires
        0 <= i < entries.len(),
        !spec_is_dir_name(entries[i].0),
        forall|j: int|
            i < j < entries.len() && !spec_is_dir_name(#[trigger] entries[j].0) ==> spec_split(
                entries[j].0,
            ).drop_first() != spec_split(entries[i].0).drop_first(),
    ensures
        spec_plan_files(entries).contains_key(spec_split(entries[i].0).drop_first()),
        spec_plan_files(entries)[spec_split(entries[i].0).drop_first()] == entries[i].3,
    decreases entries.len(),
{
    let pre = entries.drop_last();
    if i == entries.len() - 1 {
    } else {
        assert(forall|j: int| 0 <= j < pre.len() ==> pre[j] == entries[j]);
        lemma_plan_files_lookup(pre, i);
    }
}

proof fn lemma_checks_defined(entries: Seq<EntryModel>)
    requires
        forall|i: int| 0 <= i < entries.len() ==> spec_entry_extractable(#[trigger] entries[i]),
    ensures
        spec_expected_checks(entries) is Some,
    decreases entries.len(),
{
    if entries.len() > 0 {
        let rest = entries.drop_first();
        assert(forall|i: int| 0 <= i < rest.len() ==> rest[i] == entries[i + 1]);
        lemma_checks_defined(rest);
        assert(spec_entry_extractable(entries[0]));
    }
}

proof fn lemma_checks_sourced(entries: Seq<EntryModel>, k: int)
    requires
        spec_expected_checks(entries) is Some,
        0 <= k < spec_expected_checks(entries)->Some_0.len(),
    ensures
        exists|i: int|
            0 <= i < entries.len() && spec_checked_file(#[trigger] entries[i]) && spec_split(
                entries[i].0,
            ).len() >= 2 && spec_expected_checks(entries)->Some_0[k] == (
                spec_split(entries[i].0).drop_first(),
                entries[i].1,
            ),
    decreases entries.len(),
{
    let checks = spec_expected_checks(entries)->Some_0;
    let e = entries[0];
    let rest = entries.drop_first();
    assert(forall|i: int| 0 <= i < rest.len() ==> rest[i] == entries[i + 1]);
    if !spec_checked_file(e) {
        lemma_checks_sourced(rest, k);
        let i0 = choose|i0: int|
            0 <= i0 < rest.len() && spec_checked_file(#[trigger] rest[i0]) && spec_split(
                rest[i0].0,
            ).len() >= 2 && spec_expected_checks(rest)->Some_0[k] == (
                spec_split(rest[i0].0).drop_first(),
                rest[i0].1,
            );
        assert(entries[i0 + 1] == rest[i0]);
    } else {
        let t = spec_expected_checks(rest)->Some_0;
        assert(checks == seq![(spec_split(e.0).drop_first(), e.1)].add(t));
        if k == 0 {
            assert(checks[0] == (spec_split(entries[0].0).drop_first(), entries[0].1));
        } else {
            lemma_checks_sourced(rest, k - 1);
            let i0 = choose|i0: int|
                0 <= i0 < rest.len() && spec_checked_file(#[trigger] rest[i0]) && spec_split(
                    rest[i0].0,
                ).len() >= 2 && spec_expected_checks(rest)->Some_0[k - 1] == (
                    spec_split(rest[i0].0).drop_first(),
                    rest[i0].1,
                );
            assert(entries[i0 + 1] == rest[i0]);
            assert(checks[k] == t[k - 1]);
        }
    }
}

/// Repair restores a tree the check accepts: extract the archive over a
/// fresh destination, and every per-file expectation read off that same
/// archive holds of the files the plan wrote.  So deleting a corrupt
/// runtime directory and re-extracting the still-present archive yields a
/// tree that the extracted-tree check accepts.
///
/// The archive's entries must all be extractable, carry the CRC-32 of
/// their own bytes (which reading them through the zip container
/// guarantees), and no two file entries may collapse onto one stripped
/// path.
pub proof fn lemma_repair_idempotent(entries: Seq<EntryModel>)
    requires
        forall|i: int| 0 <= i < entries.len() ==> spec_entry_extractable(#[trigger] entries[i]),
        forall|i: int|
            0 <= i < entries.len() ==> crc32_of((#[trigger] entries[i]).3) == entries[i].1,
        forall|i: int, j: int|
            0 <= i < j < entries.len() && !spec_is_dir_name((#[trigger] entries[i]).0)
                && !spec_is_dir_name((#[trigger] entries[j]).0) ==> spec_split(
                entries[i].0,
            ).drop_first() != spec_split(entries[j].0).drop_first(),
    ensures
        spec_expected_checks(entries) is Some,
        forall|k: int|
            0 <= k < spec_expected_checks(entries)->Some_0.len() ==> {
                let c = #[trigger] spec_expected_checks(entries)->Some_0[k];
                spec_plan_files(entries).contains_key(c.0) && crc32_of(
                    spec_plan_files(entries)[c.0],
                ) == c.1
            },
{
    lemma_checks_defined(entries);
    let checks = spec_expected_checks(entries)->Some_0;
    assert forall|k: int| 0 <= k < checks.len() implies {
        let c = #[trigger] checks[k];
        spec_plan_files(entries).contains_key(c.0) && crc32_of(spec_plan_files(entries)[c.0])
            == c.1
    } by {
        lemma_checks_sourced(entries, k);
        let i = choose|i: int|
            0 <= i < entries.len() && spec_checked_file(#[trigger] entries[i]) && spec_split(
                entries[i].0,
            ).len() >= 2 && spec_expected_checks(entries)->Some_0[k] == (
                spec_split(entries[i].0).drop_first(),
                entries[i].1,
            );
        lemma_plan_files_lookup(entries, i);
    }
}

/// One expectation met: the bytes read back for the `i`-th check exist and
/// carry its recorded CRC-32.
pub open spec fn spec_check_met(
    checks: Seq<(Seq<Seq<char>>, u32)>,
    contents: Seq<Option<Seq<u8>>>,
    i: int,
) -> bool {
    i < contents.len() && (contents[i] matches Some(d) && crc32_of(d) == checks[i].1)
}

/// Every expectation met — the whole tree is good.
pub open spec fn spec_files_ok(
    checks: Seq<(Seq<Seq<char>>, u32)>,
    contents: Seq<Option<Seq<u8>>>,
) -> bool {
    forall|i: int| 0 <= i < checks.len() ==> spec_check_met(checks, contents, i)
}

pub open spec fn spec_mismatches_from(
    checks: Seq<(Seq<Seq<char>>, u32)>,
    contents: Seq<Option<Seq<u8>>>,
    i: int,
) -> Seq<Seq<Seq<char>>>
    decreases checks.len() - i,
{
    if i >= checks.len() {
        Seq::empty()
    } else if spec_check_met(checks, contents, i) {
        spec_mismatches_from(checks, contents, i + 1)
    } else {
        seq![checks[i].0].add(spec_mismatches_from(checks, contents, i + 1))
    }
}

/// The expectations not met: for each check whose file is missing,
/// unreadable, or carries another CRC-32, its relative path, in check
/// order.
pub open spec fn spec_mismatches(
    checks: Seq<(Seq<Seq<char>>, u32)>,
    contents: Seq<Option<Seq<u8>>>,
) -> Seq<Seq<Seq<char>>> {
    spec_mismatches_from(checks, contents, 0)
}

proof fn lemma_mismatches_empty_iff_met(
    checks: Seq<(Seq<Seq<char>>, u32)>,
    contents: Seq<Option<Seq<u8>>>,
    i: int,
)
    requires
        0 <= i <= checks.len(),
    ensures
        spec_mismatches_from(checks, contents, i).len() == 0 <==> forall|j: int|
            i <= j < checks.len() ==> spec_check_met(checks, contents, j),
    decreases checks.len() - i,
{
    if i < checks.len() {
        lemma_mismatches_empty_iff_met(checks, contents, i + 1);
    }
}

fn clone_path(p: &Vec<String>) -> (r: Vec<String>)
    ensures
        r.deep_view() == p.deep_view(),
{
    let mut r: Vec<String> = Vec::new();
    let mut j: usize = 0;
    while j < p.len()
        invariant
            j <= p.len(),
            r.len() == j,
            forall|t: int| 0 <= t < j ==> #[trigger] r@[t]@ == p.deep_view()[t],
        decreases p.len() - j,
    {
        assert(p.deep_view()[j as int] == p@[j as int]@);
        r.push(p[j].clone());
        j = j + 1;
    }
    assert(r.deep_view() =~= p.deep_view()) by {
        assert(forall|t: int| 0 <= t < r.len() ==> r.deep_view()[t] == r@[t]@);
    }
    r
}

/// Checks the bytes read back from the extracted tree against the per-file
/// expectations, and answers exactly the relative paths that mismatched —
/// files missing, unreadable, or with a differing checksum.  An empty
/// answer is a good tree; any entry means the caller treats the whole tree
/// as invalid.  The caller reads the file at `checks[i].path` into
/// `contents[i]`, `None` where it is missing or unreadable.
pub fn check_files(checks: &Vec<FileCheck>, contents: &Vec<Option<Vec<u8>>>) -> (r: Vec<
    Vec<String>,
>)
    ensures
        r.deep_view() == spec_mismatches(spec_checks_view(checks@), contents.deep_view()),
        r@.len() == 0 <==> spec_files_ok(spec_checks_view(checks@), contents.deep_view()),
{
    let ghost cv = spec_checks_view(checks@);
    let ghost cd = contents.deep_view();
    let mut acc: Vec<Vec<String>> = Vec::new();
    let mut i: usize = 0;
    while i < checks.len()
        invariant
            i <= checks@.len(),
            cv == spec_checks_view(checks@),
            cd == contents.deep_view(),
            cv.len() == checks@.len(),
            spec_mismatches(cv, cd) == acc.deep_view().add(spec_mismatches_from(cv, cd, i as int)),
        decreases checks.len() - i,
    {
        proof {
            assert(cv[i as int] == spec_check_model(checks@[i as int]));
        }
        let met = if i < contents.len() {
            proof {
                assert(cd[i as int] == contents@[i as int].deep_view());
            }
            let c: &Option<Vec<u8>> = &contents[i];
            match c {
                Some(d) => {
                    assert(cd[i as int] == Some(d@));
                    crate::checksum::crc32(d.as_slice()) == checks[i].crc32
                },
                None => {
                    assert(cd[i as int] is None);
                    false
                },
            }
        } else {
            false
        };
        assert(met == spec_check_met(cv, cd, i as int));
        if !met {
            let ghost old_acc = acc.deep_view();
            acc.push(clone_path(&checks[i].path));
            proof {
                assert(acc.deep_view() =~= old_acc.push(cv[i as int].0)) by {
                    assert(forall|t: int|
                        0 <= t < acc.len() ==> acc.deep_view()[t] == acc@[t].deep_view());
                }
                assert(old_acc.add(seq![cv[i as int].0].add(
                    spec_mismatches_from(cv, cd, i as int + 1),
                )) =~= acc.deep_view().add(spec_mismatches_from(cv, cd, i as int + 1)));
            }
        }
        i = i + 1;
    }
    proof {
        assert(spec_mismatches_from(cv, cd, checks@.len() as int)
            =~= Seq::<Seq<Seq<char>>>::empty());
        assert(acc.deep_view().add(Seq::<Seq<Seq<char>>>::empty()) =~= acc.deep_view());
        lemma_mismatches_empty_iff_met(cv, cd, 0);
    }
    acc
}

} // verus!
