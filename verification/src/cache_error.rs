//! Why a book could not be opened, and what the reader is told of it.
use vstd::prelude::*;

verus! {

#[derive(Clone, Copy, PartialEq, Eq, Structural, Debug)]
pub enum SdSessionError {
    CardInit,
    Volume,
    Root,
}

#[derive(Clone, Copy, PartialEq, Eq, Structural, Debug)]
pub enum ZipError {
    OutputTooSmall,
    EntryBufferTooSmall,
    UnsupportedCompression,
    EntryNotFound,
    Inflate,
    Io,
    Other,
}

#[derive(Clone, Copy, PartialEq, Eq, Structural, Debug)]
pub enum EpubError {
    TooManyManifestItems,
    TooManySpineItems,
    MissingOpfPath,
    MissingOpf,
    Utf8,
    Zip(ZipError),
    Other,
}

#[derive(Clone, Copy, PartialEq, Eq, Structural, Debug)]
pub enum PublishError {
    IndexWrite,
    SectionRead,
}

#[derive(Clone, Copy, PartialEq, Eq, Structural, Debug)]
pub enum ReaderCacheError {
    Zip(ZipError),
    Epub(EpubError),
    /// The text sink took no more runs.
    XhtmlFull,
    Utf8,
    MissingSpine,
    NoBodyText,
    /// The book built and its cache was written, but the requested section
    /// did not load back from the card.
    SectionRead,
    /// The book built, but writing its index failed partway.
    IndexWrite,
    EntryNameTooLong,
}

/// What the reader is told of a session that did not come up.
pub fn session_error_label(error: SdSessionError) -> (label: &'static str)
    ensures
        label@ == session_label(error),
        label@ == match error {
            SdSessionError::CardInit => "CARD INIT"@,
            SdSessionError::Volume => "VOLUME"@,
            SdSessionError::Root => "ROOT"@,
        },
{
    match error {
        SdSessionError::CardInit => "CARD INIT",
        SdSessionError::Volume => "VOLUME",
        SdSessionError::Root => "ROOT",
    }
}

/// What the reader is told of a book that did not open.
pub fn preview_error_label(error: ReaderCacheError) -> (label: &'static str)
    ensures
        label@ == preview_label(error),
        label@ == match error {
            ReaderCacheError::Zip(ZipError::OutputTooSmall) => "EPUB TOO BIG"@,
            ReaderCacheError::Zip(ZipError::EntryBufferTooSmall) => "PATH LONG"@,
            ReaderCacheError::Zip(ZipError::UnsupportedCompression) => "ZIP METHOD"@,
            ReaderCacheError::Zip(ZipError::EntryNotFound) => "ZIP MISSING"@,
            ReaderCacheError::Zip(ZipError::Inflate) => "ZIP INFLATE"@,
            ReaderCacheError::Zip(ZipError::Io) => "OPEN BUDGET"@,
            ReaderCacheError::Zip(ZipError::Other) => "ZIP"@,
            ReaderCacheError::Epub(EpubError::TooManyManifestItems) => "OPF MANIFEST"@,
            ReaderCacheError::Epub(EpubError::TooManySpineItems) => "OPF SPINE"@,
            ReaderCacheError::Epub(EpubError::MissingOpfPath) => "NO OPF"@,
            ReaderCacheError::Epub(EpubError::MissingOpf) => "NO OPF FILE"@,
            ReaderCacheError::Epub(EpubError::Utf8) => "OPF UTF8"@,
            ReaderCacheError::Epub(EpubError::Zip(_)) => "OPF ZIP"@,
            ReaderCacheError::Epub(EpubError::Other) => "OPF"@,
            ReaderCacheError::XhtmlFull => "TEXT FULL"@,
            ReaderCacheError::Utf8 => "UTF8"@,
            ReaderCacheError::MissingSpine => "NO SPINE"@,
            ReaderCacheError::NoBodyText => "NO BODY TEXT"@,
            ReaderCacheError::SectionRead => "SECTION READ"@,
            ReaderCacheError::IndexWrite => "CACHE WRITE"@,
            ReaderCacheError::EntryNameTooLong => "PATH LONG"@,
        },
{
    match error {
        ReaderCacheError::Zip(ZipError::OutputTooSmall) => "EPUB TOO BIG",
        ReaderCacheError::Zip(ZipError::EntryBufferTooSmall) => "PATH LONG",
        ReaderCacheError::Zip(ZipError::UnsupportedCompression) => "ZIP METHOD",
        ReaderCacheError::Zip(ZipError::EntryNotFound) => "ZIP MISSING",
        ReaderCacheError::Zip(ZipError::Inflate) => "ZIP INFLATE",
        ReaderCacheError::Zip(ZipError::Io) => "OPEN BUDGET",
        ReaderCacheError::Zip(ZipError::Other) => "ZIP",
        ReaderCacheError::Epub(EpubError::TooManyManifestItems) => "OPF MANIFEST",
        ReaderCacheError::Epub(EpubError::TooManySpineItems) => "OPF SPINE",
        ReaderCacheError::Epub(EpubError::MissingOpfPath) => "NO OPF",
        ReaderCacheError::Epub(EpubError::MissingOpf) => "NO OPF FILE",
        ReaderCacheError::Epub(EpubError::Utf8) => "OPF UTF8",
        ReaderCacheError::Epub(EpubError::Zip(_)) => "OPF ZIP",
        ReaderCacheError::Epub(EpubError::Other) => "OPF",
        ReaderCacheError::XhtmlFull => "TEXT FULL",
        ReaderCacheError::Utf8 => "UTF8",
        ReaderCacheError::MissingSpine => "NO SPINE",
        ReaderCacheError::NoBodyText => "NO BODY TEXT",
        ReaderCacheError::SectionRead => "SECTION READ",
        ReaderCacheError::IndexWrite => "CACHE WRITE",
        ReaderCacheError::EntryNameTooLong => "PATH LONG",
    }
}

/// The error of a failed publish.
pub fn from_publish(error: PublishError) -> (from: ReaderCacheError)
    ensures
        from == told_of_publish(error),
        from == match error {
            PublishError::IndexWrite => ReaderCacheError::IndexWrite,
            PublishError::SectionRead => ReaderCacheError::SectionRead,
        },
{
    match error {
        PublishError::IndexWrite => ReaderCacheError::IndexWrite,
        PublishError::SectionRead => ReaderCacheError::SectionRead,
    }
}

/// The error of a container that could not be read. Its zip failures stay zip
/// failures and its text failures stay text failures; only the rest is
/// reported as a fault of the package.
pub fn container_error(error: EpubError) -> (from: ReaderCacheError)
    ensures
        from == told_of_container(error),
        from == match error {
            EpubError::Zip(zip) => ReaderCacheError::Zip(zip),
            EpubError::Utf8 => ReaderCacheError::Utf8,
            other => ReaderCacheError::Epub(other),
        },
{
    match error {
        EpubError::Zip(zip) => ReaderCacheError::Zip(zip),
        EpubError::Utf8 => ReaderCacheError::Utf8,
        other => ReaderCacheError::Epub(other),
    }
}

pub open spec fn session_label(error: SdSessionError) -> Seq<char> {
    match error {
        SdSessionError::CardInit => "CARD INIT"@,
        SdSessionError::Volume => "VOLUME"@,
        SdSessionError::Root => "ROOT"@,
    }
}

pub open spec fn preview_label(error: ReaderCacheError) -> Seq<char> {
    match error {
        ReaderCacheError::Zip(ZipError::OutputTooSmall) => "EPUB TOO BIG"@,
        ReaderCacheError::Zip(ZipError::EntryBufferTooSmall) => "PATH LONG"@,
        ReaderCacheError::Zip(ZipError::UnsupportedCompression) => "ZIP METHOD"@,
        ReaderCacheError::Zip(ZipError::EntryNotFound) => "ZIP MISSING"@,
        ReaderCacheError::Zip(ZipError::Inflate) => "ZIP INFLATE"@,
        ReaderCacheError::Zip(ZipError::Io) => "OPEN BUDGET"@,
        ReaderCacheError::Zip(ZipError::Other) => "ZIP"@,
        ReaderCacheError::Epub(EpubError::TooManyManifestItems) => "OPF MANIFEST"@,
        ReaderCacheError::Epub(EpubError::TooManySpineItems) => "OPF SPINE"@,
        ReaderCacheError::Epub(EpubError::MissingOpfPath) => "NO OPF"@,
        ReaderCacheError::Epub(EpubError::MissingOpf) => "NO OPF FILE"@,
        ReaderCacheError::Epub(EpubError::Utf8) => "OPF UTF8"@,
        ReaderCacheError::Epub(EpubError::Zip(_)) => "OPF ZIP"@,
        ReaderCacheError::Epub(EpubError::Other) => "OPF"@,
        ReaderCacheError::XhtmlFull => "TEXT FULL"@,
        ReaderCacheError::Utf8 => "UTF8"@,
        ReaderCacheError::MissingSpine => "NO SPINE"@,
        ReaderCacheError::NoBodyText => "NO BODY TEXT"@,
        ReaderCacheError::SectionRead => "SECTION READ"@,
        ReaderCacheError::IndexWrite => "CACHE WRITE"@,
        ReaderCacheError::EntryNameTooLong => "PATH LONG"@,
    }
}

pub open spec fn told_of_container(error: EpubError) -> ReaderCacheError {
    match error {
        EpubError::Zip(zip) => ReaderCacheError::Zip(zip),
        EpubError::Utf8 => ReaderCacheError::Utf8,
        other => ReaderCacheError::Epub(other),
    }
}

pub open spec fn told_of_publish(error: PublishError) -> ReaderCacheError {
    match error {
        PublishError::IndexWrite => ReaderCacheError::IndexWrite,
        PublishError::SectionRead => ReaderCacheError::SectionRead,
    }
}

/// Whether an error is that of a path which did not fit.
pub open spec fn is_long_path(error: ReaderCacheError) -> bool {
    error is EntryNameTooLong || error == ReaderCacheError::Zip(ZipError::EntryBufferTooSmall)
}

/// Whether an error lies in the archive behind the package.
pub open spec fn is_package_archive(error: ReaderCacheError) -> bool {
    error matches ReaderCacheError::Epub(EpubError::Zip(_))
}

/// Two errors have the same label only if they are the same failure: a path
/// too long, wherever it was, or an archive that failed behind the package.
pub proof fn law_labels_tell_errors_apart(error: ReaderCacheError, other: ReaderCacheError)
    ensures
        preview_label(error) == preview_label(other) ==> error == other || (is_long_path(error)
            && is_long_path(other)) || (is_package_archive(error) && is_package_archive(other)),
        is_long_path(error) && is_long_path(other) ==> preview_label(error) == preview_label(other),
{
    reveal_strlit("EPUB TOO BIG");
    reveal_strlit("PATH LONG");
    reveal_strlit("ZIP METHOD");
    reveal_strlit("ZIP MISSING");
    reveal_strlit("ZIP INFLATE");
    reveal_strlit("OPEN BUDGET");
    reveal_strlit("ZIP");
    reveal_strlit("OPF MANIFEST");
    reveal_strlit("OPF SPINE");
    reveal_strlit("NO OPF");
    reveal_strlit("NO OPF FILE");
    reveal_strlit("OPF UTF8");
    reveal_strlit("OPF ZIP");
    reveal_strlit("OPF");
    reveal_strlit("TEXT FULL");
    reveal_strlit("UTF8");
    reveal_strlit("NO SPINE");
    reveal_strlit("NO BODY TEXT");
    reveal_strlit("SECTION READ");
    reveal_strlit("CACHE WRITE");
    if preview_label(error) == preview_label(other) {
        assert(preview_label(error).len() == preview_label(other).len());
        assert(preview_label(error)[0] == preview_label(other)[0]);
        assert(preview_label(error)[4] == preview_label(other)[4]);
    }
}

/// A label opens with the part that failed: with the archive's for what could
/// not be taken out of it, with the package's for what was wrong in it, and
/// with a denial for what was missing.
pub proof fn law_label_opens_with_the_part(error: ReaderCacheError)
    ensures
        error == ReaderCacheError::Zip(ZipError::UnsupportedCompression) || error
            == ReaderCacheError::Zip(ZipError::EntryNotFound) || error == ReaderCacheError::Zip(
            ZipError::Inflate,
        ) || error == ReaderCacheError::Zip(ZipError::Other) ==> preview_label(error)[0] == 'Z',
        error == ReaderCacheError::Epub(EpubError::TooManyManifestItems) || error
            == ReaderCacheError::Epub(EpubError::TooManySpineItems) || error
            == ReaderCacheError::Epub(EpubError::Utf8) || error == ReaderCacheError::Epub(
            EpubError::Other,
        ) || is_package_archive(error) ==> preview_label(error)[0] == 'O' && preview_label(error)[1]
            == 'P' && preview_label(error)[2] == 'F',
        error is MissingSpine || error is NoBodyText || error == ReaderCacheError::Epub(
            EpubError::MissingOpfPath,
        ) || error == ReaderCacheError::Epub(EpubError::MissingOpf) ==> preview_label(error)[0]
            == 'N' && preview_label(error)[1] == 'O',
{
    reveal_strlit("EPUB TOO BIG");
    reveal_strlit("PATH LONG");
    reveal_strlit("ZIP METHOD");
    reveal_strlit("ZIP MISSING");
    reveal_strlit("ZIP INFLATE");
    reveal_strlit("OPEN BUDGET");
    reveal_strlit("ZIP");
    reveal_strlit("OPF MANIFEST");
    reveal_strlit("OPF SPINE");
    reveal_strlit("NO OPF");
    reveal_strlit("NO OPF FILE");
    reveal_strlit("OPF UTF8");
    reveal_strlit("OPF ZIP");
    reveal_strlit("OPF");
    reveal_strlit("TEXT FULL");
    reveal_strlit("UTF8");
    reveal_strlit("NO SPINE");
    reveal_strlit("NO BODY TEXT");
    reveal_strlit("SECTION READ");
    reveal_strlit("CACHE WRITE");
}

/// Card failures have labels of their own.
pub proof fn law_card_labels_differ(error: SdSessionError, other: SdSessionError)
    ensures
        session_label(error) == session_label(other) ==> error == other,
{
    reveal_strlit("CARD INIT");
    reveal_strlit("VOLUME");
    reveal_strlit("ROOT");
    if session_label(error) == session_label(other) {
        assert(session_label(error)[0] == session_label(other)[0]);
    }
}

/// A failure of the container is told as what it was: of the archive, of its
/// text, or of the package, and two different ones never as one.
pub proof fn law_container_failure_is_told(error: EpubError, other: EpubError, zip: ZipError)
    ensures
        told_of_container(EpubError::Zip(zip)) == ReaderCacheError::Zip(zip),
        told_of_container(EpubError::Utf8) is Utf8,
        told_of_container(error) is Epub <==> !(error is Zip) && !(error is Utf8),
        told_of_container(error) == told_of_container(other) ==> error == other,
        told_of_publish(PublishError::IndexWrite) is IndexWrite,
        told_of_publish(PublishError::SectionRead) is SectionRead,
{
}

} // verus!
