//! Finding one named entry inside a downloaded archive.
//!
//! Two containers are understood: gzip-compressed tar and zip. Decoding is
//! left to the `flate2`, `tar` and `zip` crates; what this module decides is
//! which container a URL names and which entry of a tar stream is the one
//! asked for.

use crate::text::{ends_with, has_suffix, same_bytes};
use std::io::Read;
use vstd::prelude::*;
use vstd::utf8::{encode_utf8, encode_utf8_decode_utf8};

verus! {

/// The containers an archive can come in.
#[derive(Clone, Copy, Debug, PartialEq, Eq)]
pub enum ContainerKind {
    /// A tar stream compressed with gzip.
    TarGz,
    /// A zip file.
    Zip,
}

/// Why no payload came out of an archive.
#[derive(Debug, PartialEq, Eq)]
pub enum ExtractError {
    /// The URL names neither a `.tar.gz` nor a `.zip`.
    UnsupportedFormat,
    /// The archive holds no entry under the requested name.
    EntryNotFound,
    /// The archive could not be decoded; `cause` is the decoder's message.
    Corrupt { cause: String },
}

/// The mathematical content of an [`ExtractError`].
pub enum ExtractErrorView {
    UnsupportedFormat,
    EntryNotFound,
    Corrupt { cause: Seq<char> },
}

impl ExtractErrorView {
    /// The failure in words.
    pub open spec fn text(self) -> Seq<char> {
        match self {
            ExtractErrorView::UnsupportedFormat => "Unsupported archive format"@,
            ExtractErrorView::EntryNotFound => "Entry not found"@,
            ExtractErrorView::Corrupt { cause } => "Corrupt archive: "@ + cause,
        }
    }
}

impl View for ExtractError {
    type V = ExtractErrorView;

    open spec fn view(&self) -> ExtractErrorView {
        match self {
            ExtractError::UnsupportedFormat => ExtractErrorView::UnsupportedFormat,
            ExtractError::EntryNotFound => ExtractErrorView::EntryNotFound,
            ExtractError::Corrupt { cause } => ExtractErrorView::Corrupt { cause: cause@ },
        }
    }
}

impl ExtractError {
    /// The failure in words, for the progress display.
    pub fn message(&self) -> (message: String)
        ensures
            message@ == self@.text(),
    {
        match self {
            ExtractError::UnsupportedFormat => "Unsupported archive format".to_owned(),
            ExtractError::EntryNotFound => "Entry not found".to_owned(),
            ExtractError::Corrupt { cause } => {
                let mut message = "Corrupt archive: ".to_owned();
                message.append(cause.as_str());
                message
            },
        }
    }
}

/// What an extraction returns, as mathematical values.
pub open spec fn extraction_view(r: Result<Vec<u8>, ExtractError>) -> Result<
    Seq<u8>,
    ExtractErrorView,
> {
    match r {
        Ok(data) => Ok(data@),
        Err(e) => Err(e@),
    }
}

/// One step of reading a tar stream: the next entry, or the failure that
/// the reader met in its place.
#[derive(Debug, PartialEq, Eq)]
pub enum TarItem {
    /// An entry with the path bytes stored for it and its content.
    Entry { path: Vec<u8>, data: Vec<u8> },
    /// The reader failed here; `cause` is its message.
    Failure { cause: String },
}

/// The mathematical content of a [`TarItem`].
pub enum TarItemView {
    Entry { path: Seq<u8>, data: Seq<u8> },
    Failure { cause: Seq<char> },
}

impl View for TarItem {
    type V = TarItemView;

    open spec fn view(&self) -> TarItemView {
        match self {
            TarItem::Entry { path, data } => TarItemView::Entry { path: path@, data: data@ },
            TarItem::Failure { cause } => TarItemView::Failure { cause: cause@ },
        }
    }
}

/// The items of a stream, each as its mathematical content.
pub open spec fn items_view(items: Seq<TarItem>) -> Seq<TarItemView> {
    Seq::new(items.len(), |i: int| items[i]@)
}

/// What a by-name lookup in a zip file gave.
#[derive(Debug, PartialEq, Eq)]
pub enum ZipAnswer {
    /// An entry came back: `name` is the name it is stored under, `data`
    /// its decoded content.
    Found { name: String, data: Vec<u8> },
    /// The file's index has no entry of that name.
    Absent,
    /// The file or the entry could not be decoded.
    Failure { cause: String },
}

/// The mathematical content of a [`ZipAnswer`].
pub enum ZipAnswerView {
    Found { name: Seq<char>, data: Seq<u8> },
    Absent,
    Failure { cause: Seq<char> },
}

impl View for ZipAnswer {
    type V = ZipAnswerView;

    open spec fn view(&self) -> ZipAnswerView {
        match self {
            ZipAnswer::Found { name, data } => ZipAnswerView::Found { name: name@, data: data@ },
            ZipAnswer::Absent => ZipAnswerView::Absent,
            ZipAnswer::Failure { cause } => ZipAnswerView::Failure { cause: cause@ },
        }
    }
}

/// The items that the `tar` crate's entry iterator yields, in order, when it
/// reads the gzip stream `bytes`.
pub uninterp spec fn tar_gz_items(bytes: Seq<u8>) -> Seq<TarItemView>;

/// What the `zip` crate answers when the zip file `bytes` is asked for the
/// entry called `name`.
pub uninterp spec fn zip_answer(bytes: Seq<u8>, name: Seq<char>) -> ZipAnswerView;

/// The container that a URL's suffix names, if it names one.
pub open spec fn kind_of(url: Seq<char>) -> Option<ContainerKind> {
    if ends_with(url, ".tar.gz"@) {
        Some(ContainerKind::TarGz)
    } else if ends_with(url, ".zip"@) {
        Some(ContainerKind::Zip)
    } else {
        None
    }
}

/// Whether item `i` ends a search for `path`: it is an entry stored under
/// exactly that path, or the reader failed there.
pub open spec fn stops_at(items: Seq<TarItemView>, path: Seq<u8>, i: int) -> bool {
    0 <= i < items.len() && match items[i] {
        TarItemView::Entry { path: stored, .. } => stored == path,
        TarItemView::Failure { .. } => true,
    }
}

/// Whether `i` is the first item that ends a search for `path`.
pub open spec fn first_stop(items: Seq<TarItemView>, path: Seq<u8>, i: int) -> bool {
    stops_at(items, path, i) && forall|j: int| 0 <= j < i ==> !stops_at(items, path, j)
}

/// What a search for `path` through `items` gives: the content of the first
/// entry stored under exactly that path; `Corrupt` if the reader failed
/// before reaching one; `EntryNotFound` if the stream ended without either.
pub open spec fn tar_lookup(items: Seq<TarItemView>, path: Seq<u8>) -> Result<
    Seq<u8>,
    ExtractErrorView,
> {
    if exists|i: int| first_stop(items, path, i) {
        match items[choose|i: int| first_stop(items, path, i)] {
            TarItemView::Entry { data, .. } => Ok(data),
            TarItemView::Failure { cause } => Err(ExtractErrorView::Corrupt { cause }),
        }
    } else {
        Err(ExtractErrorView::EntryNotFound)
    }
}

/// What a zip lookup's answer means for a search for `name`: an entry
/// counts only if it is stored under exactly that name.
pub open spec fn zip_lookup(answer: ZipAnswerView, name: Seq<char>) -> Result<
    Seq<u8>,
    ExtractErrorView,
> {
    match answer {
        ZipAnswerView::Found { name: stored, data } => if stored == name {
            Ok(data)
        } else {
            Err(ExtractErrorView::EntryNotFound)
        },
        ZipAnswerView::Absent => Err(ExtractErrorView::EntryNotFound),
        ZipAnswerView::Failure { cause } => Err(ExtractErrorView::Corrupt { cause }),
    }
}

/// What extracting the entry `name` from `bytes` gives, for each container.
pub open spec fn extracted(kind: ContainerKind, bytes: Seq<u8>, name: Seq<char>) -> Result<
    Seq<u8>,
    ExtractErrorView,
> {
    match kind {
        ContainerKind::TarGz => tar_lookup(tar_gz_items(bytes), encode_utf8(name)),
        ContainerKind::Zip => zip_lookup(zip_answer(bytes, name), name),
    }
}

/// A URL that ends in `.rar` names no supported container.
pub proof fn lemma_rar_is_unsupported(url: Seq<char>)
    requires
        ends_with(url, ".rar"@),
    ensures
        kind_of(url) is None,
{
    reveal_strlit(".rar");
    reveal_strlit(".tar.gz");
    reveal_strlit(".zip");
    let n = url.len() as int;
    assert(url.subrange(n - 4, n)[3] == 'r');
    if ends_with(url, ".tar.gz"@) {
        assert(url.subrange(n - 7, n)[6] == 'z');
    }
}

/// Whether an item is an entry stored under another path than `path`.
pub open spec fn is_other_entry(item: TarItemView, path: Seq<u8>) -> bool {
    item matches TarItemView::Entry { path: stored, .. } && stored != path
}

/// A search is exact. Content comes out only of an entry stored under
/// exactly the path asked for, the first such in the stream, with no
/// failure before it. `Corrupt` repeats the first failure, met before any
/// such entry. `EntryNotFound` means that the stream was read to its end
/// without failure and holds no entry under that path.
pub proof fn lemma_lookup_is_exact(items: Seq<TarItemView>, path: Seq<u8>)
    ensures
        match tar_lookup(items, path) {
            Ok(data) => exists|i: int|
                first_stop(items, path, i) && items[i] == (TarItemView::Entry { path, data }),
            Err(ExtractErrorView::Corrupt { cause }) => exists|i: int|
                first_stop(items, path, i) && items[i] == (TarItemView::Failure { cause }),
            Err(ExtractErrorView::EntryNotFound) => forall|i: int|
                0 <= i < items.len() ==> is_other_entry(#[trigger] items[i], path),
            Err(ExtractErrorView::UnsupportedFormat) => false,
        },
{
    if !exists|i: int| first_stop(items, path, i) {
        assert forall|i: int| 0 <= i < items.len() implies is_other_entry(
            #[trigger] items[i],
            path,
        ) by {
            lemma_no_stop_before(items, path, i + 1);
            assert(!stops_at(items, path, i));
        }
    }
}

/// A zip lookup is exact as well: content comes out only of an entry that
/// the file stores under exactly the name asked for.
pub proof fn lemma_zip_lookup_is_exact(answer: ZipAnswerView, name: Seq<char>)
    ensures
        zip_lookup(answer, name) matches Ok(data) ==> answer == (ZipAnswerView::Found {
            name,
            data,
        }),
{
}

/// An entry is found under its own name only. Where the stream was read
/// without failure and every entry is stored under a name other than
/// `asked`, a search for `asked` finds nothing: not an entry whose name
/// `asked` extends or ends with, and not the first entry.
pub proof fn lemma_other_names_are_not_matched(
    items: Seq<TarItemView>,
    names: Seq<Seq<char>>,
    asked: Seq<char>,
)
    requires
        names.len() == items.len(),
        forall|i: int|
            0 <= i < items.len() ==> {
                &&& names[i] != asked
                &&& #[trigger] items[i] is Entry
                &&& items[i]->path == encode_utf8(names[i])
            },
    ensures
        tar_lookup(items, encode_utf8(asked)) == Err::<Seq<u8>, ExtractErrorView>(
            ExtractErrorView::EntryNotFound,
        ),
{
    encode_utf8_decode_utf8(asked);
    assert forall|i: int| !first_stop(items, encode_utf8(asked), i) by {
        if 0 <= i < items.len() {
            encode_utf8_decode_utf8(names[i]);
        }
    }
}

/// Where no item is a first stop, no item up to `end` is a stop at all.
proof fn lemma_no_stop_before(items: Seq<TarItemView>, path: Seq<u8>, end: int)
    requires
        forall|i: int| !first_stop(items, path, i),
        0 <= end <= items.len(),
    ensures
        forall|j: int| 0 <= j < end ==> !stops_at(items, path, j),
    decreases end,
{
    if end > 0 {
        lemma_no_stop_before(items, path, end - 1);
        assert(!first_stop(items, path, end - 1));
    }
}

/// Decodes `bytes` as a gzip-compressed tar stream with
/// `flate2::read::GzDecoder` and `tar::Archive::entries`, and hands out every
/// item the entry iterator yields, in its order: an entry with the bytes of
/// `Entry::path_bytes` and all of its content, or the message of the error
/// met in its place. A failure to start the iteration is a single `Failure`.
/// The contract only gives this list its name, `tar_gz_items`.
#[verifier::external_body]
fn read_tar_gz(bytes: &[u8]) -> (items: Vec<TarItem>)
    ensures
        items_view(items@) == tar_gz_items(bytes@),
{
    let mut archive = tar::Archive::new(flate2::read::GzDecoder::new(bytes));
    let entries = match archive.entries() {
        Ok(entries) => entries,
        Err(e) => return vec![TarItem::Failure { cause: e.to_string() }],
    };
    let mut items = Vec::new();
    for entry in entries {
        let mut data = Vec::new();
        items.push(match entry.and_then(|mut e| e.read_to_end(&mut data).map(|_| e)) {
            Ok(e) => TarItem::Entry { path: e.path_bytes().into_owned(), data },
            Err(e) => TarItem::Failure { cause: e.to_string() },
        });
    }
    items
}

/// Opens `bytes` with `zip::ZipArchive::new`, looks `name` up with
/// `ZipArchive::by_name` and reads the entry to its end. `Found` carries
/// what `ZipFile::name` says the entry is stored under, `Absent` stands for
/// the crate's `ZipError::FileNotFound`, and `Failure` carries the message
/// of any other error. The contract only gives this answer its name,
/// `zip_answer`.
#[verifier::external_body]
fn read_zip_entry(bytes: &[u8], name: &str) -> (answer: ZipAnswer)
    ensures
        answer@ == zip_answer(bytes@, name@),
{
    let mut archive = match zip::ZipArchive::new(std::io::Cursor::new(bytes)) {
        Ok(archive) => archive,
        Err(e) => return ZipAnswer::Failure { cause: e.to_string() },
    };
    let mut entry = match archive.by_name(name) {
        Ok(entry) => entry,
        Err(zip::result::ZipError::FileNotFound) => return ZipAnswer::Absent,
        Err(e) => return ZipAnswer::Failure { cause: e.to_string() },
    };
    let mut data = Vec::new();
    match entry.read_to_end(&mut data) {
        Ok(_) => ZipAnswer::Found { name: entry.name().to_owned(), data },
        Err(e) => ZipAnswer::Failure { cause: e.to_string() },
    }
}

/// Tells from a URL's suffix which container it names: `.tar.gz` is a
/// gzip-compressed tar, `.zip` a zip, and anything else is unsupported.
pub fn container_kind(url: &str) -> (kind: Result<ContainerKind, ExtractError>)
    ensures
        match kind {
            Ok(k) => kind_of(url@) == Some(k),
            Err(e) => kind_of(url@) is None && e == ExtractError::UnsupportedFormat,
        },
{
    if has_suffix(url, ".tar.gz") {
        Ok(ContainerKind::TarGz)
    } else if has_suffix(url, ".zip") {
        Ok(ContainerKind::Zip)
    } else {
        Err(ExtractError::UnsupportedFormat)
    }
}

/// Walks the items of a tar stream in their stored order and returns the
/// content of the first entry whose path is, byte for byte, `entry_name`.
/// A failure of the reader before such an entry is `Corrupt`; a stream that
/// ends without one is `EntryNotFound`.
pub fn find_entry(items: Vec<TarItem>, entry_name: &str) -> (found: Result<Vec<u8>, ExtractError>)
    ensures
        extraction_view(found) == tar_lookup(items_view(items@), encode_utf8(entry_name@)),
{
    let mut rest = items;
    let wanted = entry_name.as_bytes();
    let ghost all = items_view(items@);
    let ghost path = encode_utf8(entry_name@);
    let mut i: usize = 0;
    while i < rest.len()
        invariant
            rest@ == items@,
            all == items_view(items@),
            path == encode_utf8(entry_name@),
            wanted@ == path,
            forall|j: int| 0 <= j < i ==> !stops_at(all, path, j),
        decreases rest@.len() - i,
    {
        let stop = match &rest[i] {
            TarItem::Entry { path: stored, .. } => same_bytes(stored.as_slice(), wanted),
            TarItem::Failure { .. } => true,
        };
        if stop {
            assert(first_stop(all, path, i as int));
            let item = rest.swap_remove(i);
            return match item {
                TarItem::Entry { data, .. } => Ok(data),
                TarItem::Failure { cause } => Err(ExtractError::Corrupt { cause }),
            };
        }
        i += 1;
    }
    Err(ExtractError::EntryNotFound)
}

/// Turns the answer of a zip lookup into the result of a search for
/// `entry_name`. An entry that came back under another name is not the one
/// asked for.
pub fn zip_entry(answer: ZipAnswer, entry_name: &str) -> (found: Result<Vec<u8>, ExtractError>)
    ensures
        extraction_view(found) == zip_lookup(answer@, entry_name@),
{
    match answer {
        ZipAnswer::Found { name, data } => {
            if name == entry_name.to_owned() {
                Ok(data)
            } else {
                Err(ExtractError::EntryNotFound)
            }
        },
        ZipAnswer::Absent => Err(ExtractError::EntryNotFound),
        ZipAnswer::Failure { cause } => Err(ExtractError::Corrupt { cause }),
    }
}

/// Returns the decoded content of the entry `entry_name` of the archive
/// `bytes`. In a tar stream the first entry stored under exactly that path
/// counts; a zip file is asked through its own index.
pub fn extract_entry(bytes: &[u8], kind: ContainerKind, entry_name: &str) -> (found: Result<
    Vec<u8>,
    ExtractError,
>)
    ensures
        extraction_view(found) == extracted(kind, bytes@, entry_name@),
{
    match kind {
        ContainerKind::TarGz => find_entry(read_tar_gz(bytes), entry_name),
        ContainerKind::Zip => zip_entry(read_zip_entry(bytes, entry_name), entry_name),
    }
}

} // verus!
