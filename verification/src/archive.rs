//! The two archive formats: the zip archive of the target backup and of the
//! parser repository, and the gzip wrapping of the origin backup.

use std::io::{Read, Write};
use vstd::prelude::*;
use vstd::string::StringExecFns;
use crate::correction::str_eq;
use crate::kotatsu::{texts, KotatsuParser, KotatsuParserView};
use crate::neko::views;
use crate::parsers::{
    archive_root, is_parser_path, is_parser_source, mine_parsers, mined_from, pattern_error_text,
    root_of,
};
use crate::text::{has_prefix, same_text, to_chars, trim_bounds, trimmed};

verus! {

/// The error type of `std::io`.
#[verifier::external_type_specification]
#[verifier::external_body]
pub struct ExIoError(std::io::Error);

/// A cursor of `std::io` over a buffer.
#[verifier::external_type_specification]
#[verifier::external_body]
#[verifier::reject_recursive_types(T)]
pub struct ExCursor<T>(std::io::Cursor<T>);

/// The error type of `zip`.
#[verifier::external_type_specification]
#[verifier::external_body]
pub struct ExZipError(zip::result::ZipError);

/// A zip archive that is read.
#[verifier::external_type_specification]
#[verifier::external_body]
#[verifier::reject_recursive_types(R)]
pub struct ExZipArchive<R>(zip::ZipArchive<R>);

/// A zip archive that is written in memory.
#[verifier::external_body]
pub struct ArchiveWriter {
    inner: zip::ZipWriter<std::io::Cursor<Vec<u8>>>,
}

/// The entries of an archive in the order of its directory, each with its
/// name and its contents as text: no name where it cannot be decoded, no
/// text where the entry cannot be read or is no text.
pub uninterp spec fn archive_entries(
    archive: zip::ZipArchive<std::io::Cursor<Vec<u8>>>,
) -> Seq<(Option<Seq<char>>, Option<Seq<char>>)>;

/// The names of the entries of an archive, in the order of its directory.
pub open spec fn entry_names(
    archive: zip::ZipArchive<std::io::Cursor<Vec<u8>>>,
) -> Seq<Option<Seq<char>>> {
    names_of(archive_entries(archive))
}

/// The texts of the entries of an archive, in the order of its directory.
pub open spec fn entry_texts(
    archive: zip::ZipArchive<std::io::Cursor<Vec<u8>>>,
) -> Seq<Option<Seq<char>>> {
    texts_of(archive_entries(archive))
}

/// The entries that were written to an archive: their names and contents,
/// in the order of writing.
pub uninterp spec fn written_entries(writer: ArchiveWriter) -> Seq<(Seq<char>, Seq<u8>)>;

/// What `zip` finds in bytes: the entries of the archive that the bytes hold,
/// or nothing where they hold none.
pub uninterp spec fn zip_entries(bytes: Seq<u8>) -> Option<
    Seq<(Option<Seq<char>>, Option<Seq<char>>)>,
>;

/// `zip::ZipArchive::new` reads the directory of an archive that is held in
/// memory. It reads nothing but the bytes, so what it finds has a name.
#[verifier::external_body]
pub(crate) fn open_archive(bytes: Vec<u8>) -> (r: Result<
    zip::ZipArchive<std::io::Cursor<Vec<u8>>>,
    zip::result::ZipError,
>)
    ensures
        match r {
            Ok(archive) => zip_entries(bytes@) == Some(archive_entries(archive)),
            Err(_) => zip_entries(bytes@) is None,
        },
{
    zip::ZipArchive::new(std::io::Cursor::new(bytes))
}

/// `zip::ZipArchive::len` is the number of entries.
#[verifier::external_body]
pub(crate) fn archive_len(archive: &zip::ZipArchive<std::io::Cursor<Vec<u8>>>) -> (r: usize)
    ensures
        r == archive_entries(*archive).len(),
{
    archive.len()
}

/// `zip::ZipArchive::name_for_index` gives the name of the entry with the
/// given index, where it can be decoded.
#[verifier::external_body]
pub(crate) fn entry_name(archive: &zip::ZipArchive<std::io::Cursor<Vec<u8>>>, index: usize) -> (r: Option<
    String,
>)
    requires
        index < archive_entries(*archive).len(),
    ensures
        match r {
            Some(name) => archive_entries(*archive)[index as int].0 == Some(name@),
            None => archive_entries(*archive)[index as int].0 is None,
        },
{
    archive.name_for_index(index).and_then(|name| name.ok()).map(|name| name.into_owned())
}

/// `zip::ZipArchive::by_index` opens the entry with the given index, which
/// is then read to its end as text. Reading leaves the archive as it is.
#[verifier::external_body]
pub(crate) fn entry_text(archive: &mut zip::ZipArchive<std::io::Cursor<Vec<u8>>>, index: usize) -> (r:
    Result<String, zip::result::ZipError>)
    requires
        index < archive_entries(*old(archive)).len(),
    ensures
        archive_entries(*final(archive)) == archive_entries(*old(archive)),
        match r {
            Ok(text) => archive_entries(*old(archive))[index as int].1 == Some(text@),
            Err(_) => archive_entries(*old(archive))[index as int].1 is None,
        },
{
    let mut text = String::new();
    archive.by_index(index)?.read_to_string(&mut text)?;
    Ok(text)
}

/// `zip::ZipWriter::new` starts an archive in memory; nothing is written to
/// it yet.
#[verifier::external_body]
pub(crate) fn new_archive() -> (r: ArchiveWriter)
    ensures
        written_entries(r) == Seq::<(Seq<char>, Seq<u8>)>::empty(),
{
    ArchiveWriter { inner: zip::ZipWriter::new(std::io::Cursor::new(Vec::new())) }
}

/// An archive that holds the entries `written` takes one more entry with
/// the given name and contents: `zip` refuses, among others, a name that the
/// archive has already. Whether it does depends on these three alone.
pub uninterp spec fn entry_fits(
    written: Seq<(Seq<char>, Seq<u8>)>,
    name: Seq<char>,
    contents: Seq<u8>,
) -> bool;

/// An archive that holds the entries `written` can be closed. Whether it can
/// depends on the entries alone.
pub uninterp spec fn archive_closes(written: Seq<(Seq<char>, Seq<u8>)>) -> bool;

/// `zip::ZipWriter::start_file` starts an entry with the default options,
/// and the contents are written to it. Both succeed exactly where the entry
/// fits, and then the archive has one more entry.
#[verifier::external_body]
pub(crate) fn write_entry(writer: &mut ArchiveWriter, name: &str, contents: &[u8]) -> (r: Result<
    (),
    zip::result::ZipError,
>)
    ensures
        r is Ok <==> entry_fits(written_entries(*old(writer)), name@, contents@),
        r is Ok ==> written_entries(*final(writer)) == written_entries(*old(writer)).push(
            (name@, contents@),
        ),
{
    writer.inner.start_file(name, zip::write::SimpleFileOptions::default())?;
    writer.inner.write_all(contents)?;
    Ok(())
}

/// `zip::ZipWriter::finish` writes the directory and hands the bytes of the
/// archive out. It succeeds exactly where the archive can be closed. Nothing
/// is claimed of the bytes: they tell on which platform they were written.
#[verifier::external_body]
pub(crate) fn finish_archive(writer: ArchiveWriter) -> (r: Result<
    Vec<u8>,
    zip::result::ZipError,
>)
    ensures
        r is Ok <==> archive_closes(written_entries(writer)),
{
    writer.inner.finish().map(|cursor| cursor.into_inner())
}

/// The text that `Display` gives a `zip::result::ZipError`.
#[verifier::external_body]
pub(crate) fn zip_error_text(error: &zip::result::ZipError) -> String {
    format!("{}", error)
}

/// The kinds of `std::io::Error` that tell a file that is no gzip file from
/// a failure to read one.
#[derive(Clone, Copy, Debug, PartialEq, Eq, Structural)]
pub enum ReadFailure {
    Interrupted,
    InvalidInput,
    Other,
}

/// An error met while unpacking, with its kind.
#[derive(Debug)]
pub struct ReadError {
    pub kind: ReadFailure,
    pub error: std::io::Error,
}

/// What unpacking a gzip member gives: its data, or the kind of the error
/// that is met where the bytes are no complete gzip member.
pub uninterp spec fn gunzipped(bytes: Seq<u8>) -> Result<Seq<u8>, ReadFailure>;

/// What packing data at a level gives: the bytes of one gzip member, or
/// nothing where packing fails.
pub uninterp spec fn gzipped(data: Seq<u8>, level: u32) -> Option<Seq<u8>>;

/// `flate2::read::GzDecoder` reads one gzip member, which is read to its end.
/// An error is handed out with its kind, as `std::io::Error::kind` tells it.
/// Decoding reads nothing but the bytes, so its result has a name.
#[verifier::external_body]
pub(crate) fn gunzip(bytes: &[u8]) -> (r: Result<Vec<u8>, ReadError>)
    ensures
        match r {
            Ok(data) => gunzipped(bytes@) == Ok::<Seq<u8>, ReadFailure>(data@),
            Err(failed) => gunzipped(bytes@) == Err::<Seq<u8>, ReadFailure>(failed.kind),
        },
{
    let mut data = Vec::new();
    match flate2::read::GzDecoder::new(bytes).read_to_end(&mut data) {
        Ok(_) => Ok(data),
        Err(error) => {
            let kind = match error.kind() {
                std::io::ErrorKind::Interrupted => ReadFailure::Interrupted,
                std::io::ErrorKind::InvalidInput => ReadFailure::InvalidInput,
                _ => ReadFailure::Other,
            };
            Err(ReadError { kind, error })
        },
    }
}

/// `flate2::write::GzEncoder` packs data as one gzip member at a level
/// between 0 and 9. The header that it writes is the same on every platform,
/// so what it gives has a name. Unpacking what it wrote gives the data back.
#[verifier::external_body]
pub(crate) fn gzip(data: &[u8], level: u32) -> (r: Result<Vec<u8>, std::io::Error>)
    requires
        level <= 9,
    ensures
        match r {
            Ok(bytes) => gzipped(data@, level) == Some(bytes@) && gunzipped(bytes@) == Ok::<
                Seq<u8>,
                ReadFailure,
            >(data@),
            Err(_) => gzipped(data@, level) is None,
        },
{
    let mut encoder = flate2::write::GzEncoder::new(Vec::new(), flate2::Compression::new(level));
    encoder.write_all(data)?;
    encoder.finish()
}

/// The level that packs fastest.
pub const FASTEST_LEVEL: u32 = 1;

/// The level that packs best.
pub const BEST_LEVEL: u32 = 9;

/// The level at which an origin backup is packed.
pub open spec fn level_of(best: bool) -> u32 {
    if best {
        BEST_LEVEL
    } else {
        FASTEST_LEVEL
    }
}

/// The text that `Display` gives a `std::io::Error`.
#[verifier::external_body]
pub(crate) fn io_error_text(error: &std::io::Error) -> String {
    format!("{}", error)
}

/// Why the bytes of an origin backup could not be unpacked.
#[derive(Debug)]
pub enum DecodeError {
    /// The bytes do not look like a backup; the text says so and quotes the
    /// error that was met.
    NotABackup(String),
    /// Reading failed for another reason.
    Read(std::io::Error),
}

/// What the error about bytes that are no backup says.
pub open spec fn not_a_backup_message(cause: Seq<char>) -> Seq<char> {
    "Error occurred when parsing input archive, is it an actual neko backup? Original error: "@
        + cause
}

/// The error to report for an error met while unpacking: one of the kind
/// `Interrupted` or `InvalidInput` means that the bytes are no backup, any
/// other is passed on as it is.
pub fn decode_failure(error: std::io::Error, kind: ReadFailure, text: &str) -> (r: DecodeError)
    ensures
        match kind {
            ReadFailure::Other => r == DecodeError::Read(error),
            _ => r matches DecodeError::NotABackup(message) && message@ == not_a_backup_message(
                text@,
            ),
        },
{
    match kind {
        ReadFailure::Other => DecodeError::Read(error),
        _ => DecodeError::NotABackup(
            String::from_str(
                "Error occurred when parsing input archive, is it an actual neko backup? Original error: ",
            ).concat(text),
        ),
    }
}

/// Packs the data of an origin backup as one gzip member, at the best level
/// or at the fastest. Unpacking gives the data back.
pub fn encode_gzip_backup(data: &[u8], best: bool) -> (r: Result<Vec<u8>, std::io::Error>)
    ensures
        match r {
            Ok(bytes) => gzipped(data@, level_of(best)) == Some(bytes@) && gunzipped(bytes@)
                == Ok::<Seq<u8>, ReadFailure>(data@),
            Err(_) => gzipped(data@, level_of(best)) is None,
        },
{
    gzip(
        data,
        if best {
            BEST_LEVEL
        } else {
            FASTEST_LEVEL
        },
    )
}

/// Unpacks the bytes of an origin backup: the data that the gzip member
/// holds. Succeeds exactly on the bytes of a complete gzip member. Bytes on
/// which unpacking is interrupted or meets invalid input are reported as no
/// backup, with the error that was met quoted after the message; any other
/// error is passed on.
pub fn decode_gzip_backup(bytes: &[u8]) -> (r: Result<Vec<u8>, DecodeError>)
    ensures
        match r {
            Ok(data) => gunzipped(bytes@) == Ok::<Seq<u8>, ReadFailure>(data@),
            Err(DecodeError::NotABackup(message)) => {
                &&& gunzipped(bytes@) matches Err(kind)
                &&& kind != ReadFailure::Other
                &&& has_prefix(message@, not_a_backup_message(Seq::empty()))
            },
            Err(DecodeError::Read(_)) => gunzipped(bytes@) == Err::<Seq<u8>, ReadFailure>(
                ReadFailure::Other,
            ),
        },
{
    match gunzip(bytes) {
        Ok(data) => Ok(data),
        Err(failed) => {
            let text = io_error_text(&failed.error);
            let error = decode_failure(failed.error, failed.kind, text.as_str());
            proof {
                let start = not_a_backup_message(Seq::empty());
                assert(start =~= not_a_backup_message(Seq::empty()) + Seq::<char>::empty());
                if failed.kind != ReadFailure::Other {
                    assert(not_a_backup_message(text@).subrange(0, start.len() as int) =~= start);
                }
            }
            Err(error)
        },
    }
}

/// The entry holds an empty list and is left out of the archive: its text,
/// white space at its ends aside, is `[]`.
pub open spec fn is_empty_list(text: Seq<char>) -> bool {
    trimmed(text) == "[]"@
}

/// The entries among the first `n` that are written: those that hold more
/// than an empty list, with their contents as bytes.
pub open spec fn kept_entries(entries: Seq<(String, String)>, n: int) -> Seq<(Seq<char>, Seq<u8>)>
    decreases n,
{
    if n <= 0 {
        Seq::empty()
    } else {
        let before = kept_entries(entries, n - 1);
        let entry = entries[n - 1];
        if is_empty_list(entry.1@) {
            before
        } else {
            before.push((entry.0@, vstd::utf8::encode_utf8(entry.1@)))
        }
    }
}

/// The names of the entries among the first `n` that are left out.
pub open spec fn omitted_entries(entries: Seq<(String, String)>, n: int) -> Seq<Seq<char>>
    decreases n,
{
    if n <= 0 {
        Seq::empty()
    } else {
        let before = omitted_entries(entries, n - 1);
        let entry = entries[n - 1];
        if is_empty_list(entry.1@) {
            before.push(entry.0@)
        } else {
            before
        }
    }
}

/// Whether the text is an empty list.
pub fn empty_list(text: &str) -> (r: bool)
    ensures
        r == is_empty_list(text@),
{
    let chars = to_chars(text);
    let (start, end) = trim_bounds(&chars);
    let brackets = to_chars("[]");
    let mut inner: Vec<char> = Vec::new();
    let mut i: usize = start;
    while i < end
        invariant
            start <= i <= end <= chars.len(),
            inner@ == chars@.subrange(start as int, i as int),
        decreases end - i,
    {
        inner.push(chars[i]);
        i += 1;
    }
    same_text(&inner, &brackets)
}

/// The entries among the first `n` that are to be written all fit, one
/// after the other, into an archive that holds the entries `written`.
pub open spec fn entries_fit(
    written: Seq<(Seq<char>, Seq<u8>)>,
    entries: Seq<(String, String)>,
    n: int,
) -> bool
    decreases n,
{
    if n <= 0 {
        true
    } else {
        let entry = entries[n - 1];
        &&& entries_fit(written, entries, n - 1)
        &&& is_empty_list(entry.1@) || entry_fits(
            written + kept_entries(entries, n - 1),
            entry.0@,
            vstd::utf8::encode_utf8(entry.1@),
        )
    }
}

/// Entries that all fit among the first `n` fit among the first `i`.
proof fn lemma_entries_fit_before(
    written: Seq<(Seq<char>, Seq<u8>)>,
    entries: Seq<(String, String)>,
    i: int,
    n: int,
)
    requires
        0 <= i <= n,
        entries_fit(written, entries, n),
    ensures
        entries_fit(written, entries, i),
    decreases n - i,
{
    if i < n {
        lemma_entries_fit_before(written, entries, i + 1, n);
    }
}

/// Writes the entries of a target backup to an archive in the given order,
/// but for those that hold an empty list, and returns the names of those.
/// Succeeds exactly where every entry that is to be written fits; the first
/// that does not fit ends the writing.
pub fn fill_archive(writer: &mut ArchiveWriter, entries: &Vec<(String, String)>) -> (r: Result<
    Vec<String>,
    zip::result::ZipError,
>)
    ensures
        r is Ok <==> entries_fit(written_entries(*old(writer)), entries@, entries@.len() as int),
        r matches Ok(omitted) ==> {
            &&& written_entries(*final(writer)) == written_entries(*old(writer)) + kept_entries(
                entries@,
                entries@.len() as int,
            )
            &&& texts(omitted@) == omitted_entries(entries@, entries@.len() as int)
        },
{
    let ghost start = written_entries(*writer);
    let mut omitted: Vec<String> = Vec::new();
    let mut i: usize = 0;
    while i < entries.len()
        invariant
            i <= entries.len(),
            start == written_entries(*old(writer)),
            written_entries(*writer) == start + kept_entries(entries@, i as int),
            texts(omitted@) == omitted_entries(entries@, i as int),
            entries_fit(start, entries@, i as int),
        decreases entries.len() - i,
    {
        let entry = &entries[i];
        if empty_list(entry.1.as_str()) {
            omitted.push(entry.0.clone());
        } else {
            match write_entry(writer, entry.0.as_str(), entry.1.as_str().as_bytes()) {
                Ok(()) => {},
                Err(error) => {
                    proof {
                        if entries_fit(start, entries@, entries@.len() as int) {
                            lemma_entries_fit_before(
                                start,
                                entries@,
                                i + 1,
                                entries@.len() as int,
                            );
                        }
                    }
                    return Err(error);
                },
            }
        }
        i += 1;
    }
    Ok(omitted)
}

/// The bytes of the archive of a target backup, and the names of the entries
/// that were left out of it because they hold an empty list. Succeeds
/// exactly where every entry that is to be written fits into the archive and
/// the archive can be closed.
pub fn encode_archive(entries: &Vec<(String, String)>) -> (r: Result<
    (Vec<u8>, Vec<String>),
    zip::result::ZipError,
>)
    ensures
        r is Ok <==> {
            &&& entries_fit(Seq::empty(), entries@, entries@.len() as int)
            &&& archive_closes(kept_entries(entries@, entries@.len() as int))
        },
        r matches Ok(done) ==> texts(done.1@) == omitted_entries(entries@, entries@.len() as int),
{
    let mut writer = new_archive();
    let omitted = match fill_archive(&mut writer, entries) {
        Ok(omitted) => omitted,
        Err(error) => {
            return Err(error);
        },
    };
    assert(written_entries(writer) =~= kept_entries(entries@, entries@.len() as int));
    match finish_archive(writer) {
        Ok(bytes) => Ok((bytes, omitted)),
        Err(error) => Err(error),
    }
}

/// Which entries of an archive are read.
#[derive(Debug)]
pub enum Selection {
    /// The entries with one of the given names.
    Named(Vec<String>),
    /// The source files of the site parsers below the given root directory.
    ParserSources(String),
}

/// What a selection holds.
pub enum SelectionView {
    Named(Seq<Seq<char>>),
    ParserSources(Seq<char>),
}

impl View for Selection {
    type V = SelectionView;

    open spec fn view(&self) -> SelectionView {
        match self {
            Selection::Named(names) => SelectionView::Named(texts(names@)),
            Selection::ParserSources(root) => SelectionView::ParserSources(root@),
        }
    }
}

impl SelectionView {
    /// The selection takes the entry with the given name.
    pub open spec fn takes(self, name: Seq<char>) -> bool {
        match self {
            SelectionView::Named(names) => names.contains(name),
            SelectionView::ParserSources(root) => is_parser_path(root, name),
        }
    }
}

impl Selection {
    /// Whether the selection takes the entry with the given name.
    pub fn takes(&self, name: &str) -> (r: bool)
        ensures
            r == self@.takes(name@),
    {
        match self {
            Selection::Named(names) => {
                let mut i: usize = 0;
                while i < names.len()
                    invariant
                        i <= names.len(),
                        self@ == SelectionView::Named(texts(names@)),
                        forall|j: int| 0 <= j < i ==> texts(names@)[j] != name@,
                    decreases names.len() - i,
                {
                    if str_eq(names[i].as_str(), name) {
                        assert(texts(names@)[i as int] == name@);
                        return true;
                    }
                    i += 1;
                }
                false
            },
            Selection::ParserSources(root) => is_parser_source(root.as_str(), name),
        }
    }
}

/// The entries among the first `n` of an archive that the selection takes,
/// each with its name and its text. An entry whose name cannot be decoded is
/// passed over. Nothing where an entry that is taken is no text.
pub open spec fn entries_upto(
    names: Seq<Option<Seq<char>>>,
    contents: Seq<Option<Seq<char>>>,
    selection: SelectionView,
    n: int,
) -> Option<Seq<(Seq<char>, Seq<char>)>>
    decreases n,
{
    if n <= 0 {
        Some(Seq::empty())
    } else {
        match entries_upto(names, contents, selection, n - 1) {
            None => None,
            Some(before) => match names[n - 1] {
                None => Some(before),
                Some(name) => if selection.takes(name) {
                    match contents[n - 1] {
                        Some(text) => Some(before.push((name, text))),
                        None => None,
                    }
                } else {
                    Some(before)
                },
            },
        }
    }
}

/// The names and texts of a list of entries.
pub open spec fn entry_views(entries: Seq<(String, String)>) -> Seq<(Seq<char>, Seq<char>)> {
    entries.map_values(|entry: (String, String)| (entry.0@, entry.1@))
}

/// Why an archive could not be read.
#[derive(Debug)]
pub enum ArchiveError {
    /// The bytes are no archive, or an entry could not be read.
    Zip(zip::result::ZipError),
    /// The name of the first entry cannot be decoded.
    Name,
    /// The archive has no entry.
    Empty,
    /// A pattern of the parser extraction does not compile.
    Pattern(regex::Error),
}

impl ArchiveError {
    /// A description of the error for a reader.
    pub fn message(&self) -> (r: String)
        ensures
            self is Empty ==> r@ == "Archive is empty"@,
            self is Name ==> r@ == "Archive starts with a name that cannot be read"@,
    {
        match self {
            ArchiveError::Zip(error) => zip_error_text(error),
            ArchiveError::Name => String::from_str("Archive starts with a name that cannot be read"),
            ArchiveError::Empty => String::from_str("Archive is empty"),
            ArchiveError::Pattern(error) => pattern_error_text(error),
        }
    }
}

/// The names of a list of entries that may have none.
pub open spec fn names_of(entries: Seq<(Option<Seq<char>>, Option<Seq<char>>)>) -> Seq<
    Option<Seq<char>>,
> {
    entries.map_values(|entry: (Option<Seq<char>>, Option<Seq<char>>)| entry.0)
}

/// The texts of a list of entries that may have none.
pub open spec fn texts_of(entries: Seq<(Option<Seq<char>>, Option<Seq<char>>)>) -> Seq<
    Option<Seq<char>>,
> {
    entries.map_values(|entry: (Option<Seq<char>>, Option<Seq<char>>)| entry.1)
}

/// What reading the entries with one of the names `names` from the bytes of
/// an archive gives: nothing where the bytes hold no archive or where one of
/// those entries is no text.
pub open spec fn named_entries(bytes: Seq<u8>, names: Seq<Seq<char>>) -> Option<
    Seq<(Seq<char>, Seq<char>)>,
> {
    match zip_entries(bytes) {
        None => None,
        Some(entries) => entries_upto(
            names_of(entries),
            texts_of(entries),
            SelectionView::Named(names),
            entries.len() as int,
        ),
    }
}

/// The entries of an archive with one of the given names, each with its
/// name and its text, in the order of the archive. An archive need not have
/// an entry for each name.
pub fn read_archive(bytes: Vec<u8>, names: Vec<String>) -> (r: Result<
    Vec<(String, String)>,
    ArchiveError,
>)
    ensures
        match r {
            Ok(entries) => named_entries(bytes@, texts(names@)) == Some(entry_views(entries@)),
            Err(error) => error is Zip && named_entries(bytes@, texts(names@)) is None,
        },
{
    let mut archive = match open_archive(bytes) {
        Ok(archive) => archive,
        Err(error) => {
            return Err(ArchiveError::Zip(error));
        },
    };
    let selection = Selection::Named(names);
    read_entries(&mut archive, &selection)
}

/// Every entry that is read from an archive is one that the selection takes.
pub proof fn entries_read_are_taken(
    names: Seq<Option<Seq<char>>>,
    contents: Seq<Option<Seq<char>>>,
    selection: SelectionView,
    n: int,
    entries: Seq<(Seq<char>, Seq<char>)>,
)
    requires
        entries_upto(names, contents, selection, n) == Some(entries),
    ensures
        forall|i: int| 0 <= i < entries.len() ==> selection.takes((#[trigger] entries[i]).0),
    decreases n,
{
    if n > 0 {
        let before = entries_upto(names, contents, selection, n - 1);
        entries_read_are_taken(names, contents, selection, n - 1, before->0);
    }
}

/// The entries of an open archive that the selection takes, each with its
/// name and its text. Fails where an entry that is taken is no text.
pub fn read_entries(
    archive: &mut zip::ZipArchive<std::io::Cursor<Vec<u8>>>,
    selection: &Selection,
) -> (r: Result<Vec<(String, String)>, ArchiveError>)
    ensures
        entry_names(*final(archive)) == entry_names(*old(archive)),
        entry_texts(*final(archive)) == entry_texts(*old(archive)),
        match r {
            Ok(entries) => entries_upto(
                entry_names(*old(archive)),
                entry_texts(*old(archive)),
                selection@,
                entry_names(*old(archive)).len() as int,
            ) == Some(entry_views(entries@)),
            Err(error) => error is Zip && entries_upto(
                entry_names(*old(archive)),
                entry_texts(*old(archive)),
                selection@,
                entry_names(*old(archive)).len() as int,
            ) is None,
        },
{
    let ghost names = entry_names(*archive);
    let ghost contents = entry_texts(*archive);
    let count = archive_len(archive);
    let mut entries: Vec<(String, String)> = Vec::new();
    let mut i: usize = 0;
    while i < count
        invariant
            i <= count == names.len(),
            names == entry_names(*archive),
            contents == entry_texts(*archive),
            names == entry_names(*old(archive)),
            contents == entry_texts(*old(archive)),
            entries_upto(names, contents, selection@, i as int) == Some(entry_views(entries@)),
        decreases count - i,
    {
        match entry_name(archive, i) {
            Some(name) => {
                if selection.takes(name.as_str()) {
                    let text = match entry_text(archive, i) {
                        Ok(text) => text,
                        Err(error) => {
                            proof {
                                lemma_entries_stay_unreadable(names, contents, selection@, i + 1);
                            }
                            return Err(ArchiveError::Zip(error));
                        },
                    };
                    entries.push((name, text));
                }
            },
            None => {},
        }
        i += 1;
    }
    Ok(entries)
}

/// An archive whose first `n` entries cannot all be read cannot be read as a
/// whole.
proof fn lemma_entries_stay_unreadable(
    names: Seq<Option<Seq<char>>>,
    contents: Seq<Option<Seq<char>>>,
    selection: SelectionView,
    n: int,
)
    requires
        0 <= n <= names.len(),
        entries_upto(names, contents, selection, n) is None,
    ensures
        entries_upto(names, contents, selection, names.len() as int) is None,
    decreases names.len() - n,
{
    if n < names.len() {
        lemma_entries_stay_unreadable(names, contents, selection, n + 1);
    }
}

/// The index of the entry with the given name that comes last, if there is
/// one.
pub open spec fn last_entry_named(entries: Seq<(Seq<char>, Seq<char>)>, name: Seq<char>) -> Option<
    int,
>
    decreases entries.len(),
{
    if entries.len() == 0 {
        None
    } else if entries.last().0 == name {
        Some(entries.len() - 1)
    } else {
        last_entry_named(entries.drop_last(), name)
    }
}

/// The text of the entry with the given name; of several, that of the last.
/// An archive need not have the entry.
pub fn entry_named<'a>(entries: &'a Vec<(String, String)>, name: &str) -> (r: Option<&'a String>)
    ensures
        match r {
            Some(text) => last_entry_named(entry_views(entries@), name@) matches Some(index)
                && 0 <= index < entries@.len() && entries@[index].1 == *text,
            None => last_entry_named(entry_views(entries@), name@) is None,
        },
{
    let mut i: usize = entries.len();
    assert(entry_views(entries@).take(i as int) =~= entry_views(entries@));
    while i > 0
        invariant
            i <= entries.len(),
            last_entry_named(entry_views(entries@), name@) == last_entry_named(
                entry_views(entries@).take(i as int),
                name@,
            ),
        decreases i,
    {
        let ghost head = entry_views(entries@).take(i as int);
        assert(head.drop_last() =~= entry_views(entries@).take(i - 1));
        if str_eq(entries[i - 1].0.as_str(), name) {
            return Some(&entries[i - 1].1);
        }
        i -= 1;
    }
    None
}

/// Each entry with its text first and its name second.
pub open spec fn swapped(entries: Seq<(Seq<char>, Seq<char>)>) -> Seq<(Seq<char>, Seq<char>)> {
    entries.map_values(|entry: (Seq<char>, Seq<char>)| (entry.1, entry.0))
}

/// The source files of the site parsers in an archive of the parser
/// repository, each with its contents and its path. The root directory is
/// taken from the path of the first entry; an archive without entries is
/// refused.
pub fn get_parser_definitions(archive: &mut zip::ZipArchive<std::io::Cursor<Vec<u8>>>) -> (r: Result<
    Vec<(String, String)>,
    ArchiveError,
>)
    ensures
        entry_names(*final(archive)) == entry_names(*old(archive)),
        entry_texts(*final(archive)) == entry_texts(*old(archive)),
        r matches Err(ArchiveError::Empty) <==> entry_names(*old(archive)).len() == 0,
        r matches Err(ArchiveError::Name) <==> entry_names(*old(archive)).len() > 0 && entry_names(
            *old(archive),
        )[0] is None,
        r matches Ok(files) ==> {
            &&& entry_names(*old(archive)).len() > 0
            &&& entry_names(*old(archive))[0] matches Some(first)
            &&& entries_upto(
                entry_names(*old(archive)),
                entry_texts(*old(archive)),
                SelectionView::ParserSources(root_of(first)),
                entry_names(*old(archive)).len() as int,
            ) == Some(swapped(entry_views(files@)))
        },
        r matches Err(error) ==> !(error is Pattern),
        r matches Err(ArchiveError::Zip(_)) ==> {
            &&& entry_names(*old(archive)).len() > 0
            &&& entry_names(*old(archive))[0] matches Some(first)
            &&& entries_upto(
                entry_names(*old(archive)),
                entry_texts(*old(archive)),
                SelectionView::ParserSources(root_of(first)),
                entry_names(*old(archive)).len() as int,
            ) is None
        },
{
    if archive_len(archive) == 0 {
        return Err(ArchiveError::Empty);
    }
    let first = match entry_name(archive, 0) {
        Some(first) => first,
        None => {
            return Err(ArchiveError::Name);
        },
    };
    let selection = Selection::ParserSources(archive_root(first.as_str()));
    let entries = match read_entries(archive, &selection) {
        Ok(entries) => entries,
        Err(error) => {
            return Err(error);
        },
    };
    let mut files: Vec<(String, String)> = Vec::new();
    let mut i: usize = 0;
    while i < entries.len()
        invariant
            i <= entries.len(),
            files.len() == i,
            forall|j: int|
                0 <= j < i ==> (#[trigger] files@[j]).0@ == entries@[j].1@ && files@[j].1@
                    == entries@[j].0@,
        decreases entries.len() - i,
    {
        files.push((entries[i].1.clone(), entries[i].0.clone()));
        i += 1;
    }
    Ok(files)
}

/// What is mined from a list of source files.
pub struct Knowledge {
    /// The parser records, file by file.
    pub parsers: Seq<KotatsuParserView>,
    /// The paths of the files that declare a parser for which no domain was
    /// found.
    pub without_domains: Seq<Seq<char>>,
}

/// What is mined from the first `n` source files, each given with its
/// contents and its path. A pattern that does not compile ends the mining.
pub open spec fn knowledge_upto(files: Seq<(Seq<char>, Seq<char>)>, n: int) -> Result<
    Knowledge,
    regex::Error,
>
    decreases n,
{
    if n <= 0 {
        Ok(Knowledge { parsers: Seq::empty(), without_domains: Seq::empty() })
    } else {
        match knowledge_upto(files, n - 1) {
            Err(error) => Err(error),
            Ok(before) => match mined_from(files[n - 1].0) {
                Err(error) => Err(error),
                Ok(mined) => Ok(
                    Knowledge {
                        parsers: before.parsers + mined.parsers,
                        without_domains: if mined.without_domains {
                            before.without_domains.push(files[n - 1].1)
                        } else {
                            before.without_domains
                        },
                    },
                ),
            },
        }
    }
}

/// Mines the parser records from source files, each given with its contents
/// and its path. No file stops the mining: one without a declaration gives
/// nothing, one without a domain gives records without domains and is named
/// in the second part of the result.
pub fn extract_parsers(files: &Vec<(String, String)>) -> (r: Result<
    (Vec<KotatsuParser>, Vec<String>),
    regex::Error,
>)
    ensures
        match r {
            Err(error) => knowledge_upto(entry_views(files@), files@.len() as int) == Err::<
                Knowledge,
                regex::Error,
            >(error),
            Ok(mined) => knowledge_upto(entry_views(files@), files@.len() as int) == Ok::<
                Knowledge,
                regex::Error,
            >(Knowledge { parsers: views(mined.0@), without_domains: texts(mined.1@) }),
        },
{
    let mut parsers: Vec<KotatsuParser> = Vec::new();
    let mut without_domains: Vec<String> = Vec::new();
    let mut i: usize = 0;
    assert(views(parsers@) =~= Seq::<KotatsuParserView>::empty());
    assert(texts(without_domains@) =~= Seq::<Seq<char>>::empty());
    while i < files.len()
        invariant
            i <= files.len(),
            knowledge_upto(entry_views(files@), i as int) == Ok::<Knowledge, regex::Error>(
                Knowledge { parsers: views(parsers@), without_domains: texts(without_domains@) },
            ),
        decreases files.len() - i,
    {
        let file = &files[i];
        let ghost before = views(parsers@);
        let ghost named = texts(without_domains@);
        match mine_parsers(file.0.as_str()) {
            Err(error) => {
                proof {
                    lemma_knowledge_stays_failed(entry_views(files@), i + 1);
                }
                return Err(error);
            },
            Ok((found, missing)) => {
                let mut found = found;
                let ghost added = views(found@);
                parsers.append(&mut found);
                assert(views(parsers@) =~= before + added);
                if missing {
                    without_domains.push(file.1.clone());
                    assert(texts(without_domains@) =~= named.push(file.1@));
                }
            },
        }
        i += 1;
    }
    Ok((parsers, without_domains))
}

/// Mining that failed among the first `n` files has failed.
proof fn lemma_knowledge_stays_failed(files: Seq<(Seq<char>, Seq<char>)>, n: int)
    requires
        0 <= n <= files.len(),
        knowledge_upto(files, n) is Err,
    ensures
        knowledge_upto(files, files.len() as int) == knowledge_upto(files, n),
    decreases files.len() - n,
{
    if n < files.len() {
        lemma_knowledge_stays_failed(files, n + 1);
    }
}

/// What is mined from an archive with the given names and texts: the
/// knowledge of the source files of its site parsers.
pub open spec fn knowledge_of(
    names: Seq<Option<Seq<char>>>,
    contents: Seq<Option<Seq<char>>>,
) -> Option<Result<Knowledge, regex::Error>> {
    if names.len() == 0 {
        None
    } else {
        match names[0] {
            None => None,
            Some(first) => match entries_upto(
                names,
                contents,
                SelectionView::ParserSources(root_of(first)),
                names.len() as int,
            ) {
                None => None,
                Some(entries) => Some(knowledge_upto(swapped(entries), entries.len() as int)),
            },
        }
    }
}

/// Builds the knowledge base from an open archive of the parser repository:
/// the parser records of the source files of its site parsers, and the paths
/// of those for which no domain was found. Fails where the archive has no
/// entry, where its first name cannot be decoded, where a source file is no
/// text, and where a pattern does not compile.
pub fn mine_archive(archive: &mut zip::ZipArchive<std::io::Cursor<Vec<u8>>>) -> (r: Result<
    (Vec<KotatsuParser>, Vec<String>),
    ArchiveError,
>)
    ensures
        entry_names(*final(archive)) == entry_names(*old(archive)),
        entry_texts(*final(archive)) == entry_texts(*old(archive)),
        match r {
            Ok(mined) => knowledge_of(entry_names(*old(archive)), entry_texts(*old(archive)))
                == Some(
                Ok::<Knowledge, regex::Error>(
                    Knowledge { parsers: views(mined.0@), without_domains: texts(mined.1@) },
                ),
            ),
            Err(ArchiveError::Pattern(error)) => knowledge_of(
                entry_names(*old(archive)),
                entry_texts(*old(archive)),
            ) == Some(Err::<Knowledge, regex::Error>(error)),
            Err(_) => knowledge_of(entry_names(*old(archive)), entry_texts(*old(archive)))
                is None,
        },
{
    let files = match get_parser_definitions(archive) {
        Ok(files) => files,
        Err(error) => {
            return Err(error);
        },
    };
    assert(swapped(swapped(entry_views(files@))) =~= entry_views(files@));
    match extract_parsers(&files) {
        Ok(mined) => Ok(mined),
        Err(error) => Err(ArchiveError::Pattern(error)),
    }
}

/// Builds the knowledge base from the bytes of an archive of the parser
/// repository. Bytes that are no archive are refused; an archive is mined.
pub fn update_parsers(bytes: Vec<u8>) -> (r: Result<(Vec<KotatsuParser>, Vec<String>), ArchiveError>)
    ensures
        match zip_entries(bytes@) {
            None => r matches Err(ArchiveError::Zip(_)),
            Some(entries) => match r {
                Ok(mined) => knowledge_of(names_of(entries), texts_of(entries)) == Some(
                    Ok::<Knowledge, regex::Error>(
                        Knowledge { parsers: views(mined.0@), without_domains: texts(mined.1@) },
                    ),
                ),
                Err(ArchiveError::Pattern(error)) => knowledge_of(
                    names_of(entries),
                    texts_of(entries),
                ) == Some(Err::<Knowledge, regex::Error>(error)),
                Err(_) => knowledge_of(names_of(entries), texts_of(entries)) is None,
            },
        },
{
    let mut archive = match open_archive(bytes) {
        Ok(archive) => archive,
        Err(error) => {
            return Err(ArchiveError::Zip(error));
        },
    };
    mine_archive(&mut archive)
}

} // verus!
