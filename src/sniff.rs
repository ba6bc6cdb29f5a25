//! Signature detection: classifies a byte buffer by the media type that
//! content sniffing gives it, never by a file name.
use vstd::prelude::*;

use crate::text::{is_prefix, starts_with};

verus! {

/// The container formats that the pipeline knows how to unpack, and
/// `Unknown` for every other payload.
#[derive(Clone, Copy, Debug, PartialEq, Eq, Structural)]
pub enum ArchiveFormat {
    Zip,
    Tar,
    Gzip,
    Bzip2,
    Unknown,
}

/// What sniffing says of a payload: whether it is a container, which one,
/// and the media type that was detected (`"unknown"` when none was).
#[derive(Clone, Debug, PartialEq, Eq)]
pub struct Classification {
    pub is_container: bool,
    pub format: ArchiveFormat,
    pub mime: String,
}

impl Classification {
    /// A classification never calls an unknown format a container.
    pub open spec fn wf(&self) -> bool {
        self.format == ArchiveFormat::Unknown ==> !self.is_container
    }
}

/// The media type that content sniffing assigns to a buffer, if any.
pub uninterp spec fn sniffed_mime(b: Seq<u8>) -> Option<Seq<char>>;

/// Relies on `infer::Infer::get` with the default matchers: the media type
/// of the first matcher that accepts the buffer, or none. The matchers read
/// the buffer alone, and each needs at least one byte.
#[verifier::external_body]
fn sniff_mime(buf: &[u8]) -> (r: Option<String>)
    ensures
        match r {
            Some(m) => sniffed_mime(buf@) == Some(m@),
            None => sniffed_mime(buf@) == None::<Seq<char>>,
        },
        buf@.len() == 0 ==> r is None,
{
    match infer::Infer::new().get(buf) {
        Some(t) => Some(t.mime_type().to_owned()),
        None => None,
    }
}

/// The strings, as character sequences.
pub open spec fn views(s: Seq<&str>) -> Seq<Seq<char>> {
    s.map_values(|c: &str| c@)
}

/// Some entry of `catalog` is a prefix of `mime`.
pub open spec fn any_prefix(mime: Seq<char>, catalog: Seq<Seq<char>>) -> bool {
    exists|i: int| 0 <= i < catalog.len() && is_prefix(#[trigger] catalog[i], mime)
}

/// Media types, or their prefixes, of zip archives.
pub open spec fn zip_types() -> Seq<Seq<char>> {
    seq!["application/zip"@, "Zip archive data"@]
}

/// Media types, or their prefixes, of tar archives.
pub open spec fn tar_types() -> Seq<Seq<char>> {
    seq!["application/x-tar"@, "POSIX tar archive"@]
}

/// Media types, or their prefixes, of gzip streams.
pub open spec fn gzip_types() -> Seq<Seq<char>> {
    seq!["application/gzip"@, "gzip compressed data"@]
}

/// Media types, or their prefixes, of bzip2 streams.
pub open spec fn bzip2_types() -> Seq<Seq<char>> {
    seq!["application/x-bzip2"@, "bzip2 compressed data"@]
}

/// Media types, or their prefixes, of executables and binary objects.
pub open spec fn bin_types() -> Seq<Seq<char>> {
    seq![
        "ELF 32-bit LSB core file"@,
        "ELF 32-bit LSB executable"@,
        "ELF 32-bit LSB pie executable"@,
        "ELF 32-bit LSB shared object"@,
        "ELF 64-bit LSB core file"@,
        "ELF 64-bit LSB executable"@,
        "ELF 64-bit LSB pie executable"@,
        "ELF 64-bit LSB shared object"@,
        "ELF 64-bit MSB core file"@,
        "application/octet-stream"@,
        "application/vnd.android.package-archive"@,
        "application/vnd.debian.binary-package"@,
        "application/x-archive"@,
        "application/x-dosexec"@,
        "application/x-elf"@,
        "application/x-executable"@,
        "application/x-mach-binary"@,
        "application/x-mach-o"@,
        "application/x-mach-o-dylib"@,
        "application/x-mach-o-fat"@,
        "application/x-mach-o-universal"@,
        "application/x-msdownload"@,
        "application/x-object"@,
        "application/x-pie-executable"@,
        "application/x-sharedlib"@,
    ]
}

/// The container format of a media type: the first catalog, in the order
/// zip, gzip, tar, bzip2, with an entry that the media type starts with.
pub open spec fn format_of(mime: Seq<char>) -> ArchiveFormat {
    if any_prefix(mime, zip_types()) {
        ArchiveFormat::Zip
    } else if any_prefix(mime, gzip_types()) {
        ArchiveFormat::Gzip
    } else if any_prefix(mime, tar_types()) {
        ArchiveFormat::Tar
    } else if any_prefix(mime, bzip2_types()) {
        ArchiveFormat::Bzip2
    } else {
        ArchiveFormat::Unknown
    }
}

/// The classification of a sniffing outcome.
pub open spec fn classification_of(mime: Option<Seq<char>>) -> (bool, ArchiveFormat, Seq<char>) {
    match mime {
        Some(m) => (format_of(m) != ArchiveFormat::Unknown, format_of(m), m),
        None => (false, ArchiveFormat::Unknown, "unknown"@),
    }
}

/// A sniffing outcome names an executable or binary object.
pub open spec fn is_binary_mime(mime: Option<Seq<char>>) -> bool {
    match mime {
        Some(m) => any_prefix(m, bin_types()),
        None => false,
    }
}

/// A buffer holds an executable, as far as its content shows.
pub open spec fn is_binary_content(b: Seq<u8>) -> bool {
    is_binary_mime(sniffed_mime(b))
}

/// The classification of a buffer's content.
pub open spec fn classify_content(b: Seq<u8>) -> (bool, ArchiveFormat, Seq<char>) {
    classification_of(sniffed_mime(b))
}

fn zip_catalog() -> (r: Vec<&'static str>)
    ensures
        views(r@) == zip_types(),
{
    let r = vec!["application/zip", "Zip archive data"];
    assert(views(r@) =~= zip_types());
    r
}

fn tar_catalog() -> (r: Vec<&'static str>)
    ensures
        views(r@) == tar_types(),
{
    let r = vec!["application/x-tar", "POSIX tar archive"];
    assert(views(r@) =~= tar_types());
    r
}

fn gzip_catalog() -> (r: Vec<&'static str>)
    ensures
        views(r@) == gzip_types(),
{
    let r = vec!["application/gzip", "gzip compressed data"];
    assert(views(r@) =~= gzip_types());
    r
}

fn bzip2_catalog() -> (r: Vec<&'static str>)
    ensures
        views(r@) == bzip2_types(),
{
    let r = vec!["application/x-bzip2", "bzip2 compressed data"];
    assert(views(r@) =~= bzip2_types());
    r
}

fn bin_catalog() -> (r: Vec<&'static str>)
    ensures
        views(r@) == bin_types(),
{
    let r = vec![
        "ELF 32-bit LSB core file",
        "ELF 32-bit LSB executable",
        "ELF 32-bit LSB pie executable",
        "ELF 32-bit LSB shared object",
        "ELF 64-bit LSB core file",
        "ELF 64-bit LSB executable",
        "ELF 64-bit LSB pie executable",
        "ELF 64-bit LSB shared object",
        "ELF 64-bit MSB core file",
        "application/octet-stream",
        "application/vnd.android.package-archive",
        "application/vnd.debian.binary-package",
        "application/x-archive",
        "application/x-dosexec",
        "application/x-elf",
        "application/x-executable",
        "application/x-mach-binary",
        "application/x-mach-o",
        "application/x-mach-o-dylib",
        "application/x-mach-o-fat",
        "application/x-mach-o-universal",
        "application/x-msdownload",
        "application/x-object",
        "application/x-pie-executable",
        "application/x-sharedlib",
    ];
    assert(views(r@) =~= bin_types());
    r
}

/// Whether `mime` starts with some entry of `catalog`.
fn starts_with_any(mime: &str, catalog: &Vec<&'static str>) -> (r: bool)
    ensures
        r == any_prefix(mime@, views(catalog@)),
{
    let mut i: usize = 0;
    while i < catalog.len()
        invariant
            i <= catalog@.len(),
            forall|j: int| 0 <= j < i ==> !is_prefix(#[trigger] views(catalog@)[j], mime@),
        decreases catalog@.len() - i,
    {
        if starts_with(mime, catalog[i]) {
            assert(is_prefix(views(catalog@)[i as int], mime@));
            return true;
        }
        i = i + 1;
    }
    false
}

/// The container format of a detected media type.
pub fn archive_format(mime: &str) -> (r: ArchiveFormat)
    ensures
        r == format_of(mime@),
{
    if starts_with_any(mime, &zip_catalog()) {
        ArchiveFormat::Zip
    } else if starts_with_any(mime, &gzip_catalog()) {
        ArchiveFormat::Gzip
    } else if starts_with_any(mime, &tar_catalog()) {
        ArchiveFormat::Tar
    } else if starts_with_any(mime, &bzip2_catalog()) {
        ArchiveFormat::Bzip2
    } else {
        ArchiveFormat::Unknown
    }
}

/// Classifies the outcome of content sniffing: a media type that starts
/// with an entry of one of the four container catalogs is a container of
/// that format; any other, or none, is not.
pub fn classify_mime(mime: Option<&str>) -> (r: Classification)
    ensures
        r.wf(),
        (r.is_container, r.format, r.mime@) == classification_of(
            match mime {
                Some(m) => Some(m@),
                None => None,
            },
        ),
{
    match mime {
        Some(m) => {
            let format = archive_format(m);
            let is_container = match format {
                ArchiveFormat::Unknown => false,
                _ => true,
            };
            Classification { is_container, format, mime: m.to_owned() }
        },
        None => Classification {
            is_container: false,
            format: ArchiveFormat::Unknown,
            mime: "unknown".to_owned(),
        },
    }
}

/// Whether the outcome of content sniffing names an executable: a media
/// type that starts with an entry of the binary catalog.
pub fn is_binary(mime: Option<&str>) -> (r: bool)
    ensures
        r == is_binary_mime(
            match mime {
                Some(m) => Some(m@),
                None => None,
            },
        ),
{
    match mime {
        Some(m) => starts_with_any(m, &bin_catalog()),
        None => false,
    }
}

/// Classifies a payload by its content.
pub fn detect_archive(buf: &[u8]) -> (r: Classification)
    ensures
        r.wf(),
        (r.is_container, r.format, r.mime@) == classify_content(buf@),
        buf@.len() == 0 ==> !r.is_container && r.format == ArchiveFormat::Unknown && r.mime@
            == "unknown"@,
{
    let mime = sniff_mime(buf);
    match mime {
        Some(m) => classify_mime(Some(m.as_str())),
        None => classify_mime(None),
    }
}

/// Whether a payload's content is an executable.
pub fn detect_binary(buf: &[u8]) -> (r: bool)
    ensures
        r == is_binary_content(buf@),
        buf@.len() == 0 ==> !r,
{
    let mime = sniff_mime(buf);
    match mime {
        Some(m) => is_binary(Some(m.as_str())),
        None => is_binary(None),
    }
}

} // verus!
