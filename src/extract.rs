//! Unpacking: which unpacking a classified payload gets, its decoding,
//! and the writes that recreate a zip archive below the destination.
use vstd::prelude::*;

use crate::sniff::{ArchiveFormat, Classification};
use crate::text::{chars_of, join_path, joined};

verus! {

/// Why a payload cannot be unpacked.
#[derive(Clone, Debug, PartialEq, Eq)]
pub enum ExtractError {
    /// The payload is not a container at all.
    NotAnArchive { mime: String },
    /// A container whose format has no unpacking yet.
    Unsupported { mime: String },
    /// The archive at `archive` could not be decoded; nothing was written
    /// below `dest`.
    Corrupt { format: ArchiveFormat, archive: String, dest: String },
    /// An entry whose path would leave the destination directory.
    UnsafeEntry { path: String },
}

/// An entry of a zip archive: its name, whether it is a directory, and its
/// bytes.
#[derive(Clone, Debug, PartialEq, Eq)]
pub struct ZipEntry {
    pub name: String,
    pub is_dir: bool,
    pub content: Vec<u8>,
}

/// A write below the destination directory that unpacking asks for.
#[derive(Clone, Debug, PartialEq, Eq)]
pub enum WriteOp {
    /// Create this directory and its parents.
    Dir { path: String },
    /// Create this file, and its parent directories, with these bytes.
    File { path: String, content: Vec<u8> },
}

/// What a payload unpacks by.
#[derive(Clone, Debug, PartialEq, Eq)]
pub enum Unpack {
    /// A tar stream, unpacked with the entries' own permissions.
    Tar { data: Vec<u8> },
    /// The writes that recreate a zip archive's entries.
    Files { ops: Vec<WriteOp> },
}

/// The bytes that a gzip stream decodes to; none when it does not decode.
pub uninterp spec fn gunzipped(b: Seq<u8>) -> Option<Seq<u8>>;

/// The bytes that a bzip2 stream decodes to; none when it does not decode.
pub uninterp spec fn bunzipped(b: Seq<u8>) -> Option<Seq<u8>>;

/// The entries of a zip archive, in the order of its central directory:
/// name, directory flag and bytes; none when it does not decode.
pub uninterp spec fn unzipped(b: Seq<u8>) -> Option<Seq<(Seq<char>, bool, Seq<u8>)>>;

/// Relies on `flate2::read::GzDecoder` read to its end: the decoded bytes
/// of the gzip member that `data` starts with, or an error when the stream
/// is corrupt or truncated.
#[verifier::external_body]
fn gunzip(data: &[u8]) -> (r: Option<Vec<u8>>)
    ensures
        match r {
            Some(d) => gunzipped(data@) == Some(d@),
            None => gunzipped(data@) is None,
        },
{
    let mut out = Vec::new();
    match std::io::Read::read_to_end(&mut flate2::read::GzDecoder::new(data), &mut out) {
        Ok(_) => Some(out),
        Err(_) => None,
    }
}

/// Relies on `bzip2::read::BzDecoder` read to its end: the decoded bytes
/// of the bzip2 stream that `data` starts with, or an error when the
/// stream is corrupt or truncated.
#[verifier::external_body]
fn bunzip2(data: &[u8]) -> (r: Option<Vec<u8>>)
    ensures
        match r {
            Some(d) => bunzipped(data@) == Some(d@),
            None => bunzipped(data@) is None,
        },
{
    let mut out = Vec::new();
    match std::io::Read::read_to_end(&mut bzip2::read::BzDecoder::new(data), &mut out) {
        Ok(_) => Some(out),
        Err(_) => None,
    }
}

/// The entries, as plain values.
pub open spec fn entry_views(es: Seq<ZipEntry>) -> Seq<(Seq<char>, bool, Seq<u8>)> {
    es.map_values(|e: ZipEntry| (e.name@, e.is_dir, e.content@))
}

/// Relies on `zip::ZipArchive` over the bytes: `by_index` for each entry,
/// its `name`, `is_dir` and content read to the end; an error anywhere
/// (a bad directory, a bad entry, an unsupported compression) gives none.
#[verifier::external_body]
fn zip_entries(data: &[u8]) -> (r: Option<Vec<ZipEntry>>)
    ensures
        match r {
            Some(es) => unzipped(data@) == Some(entry_views(es@)),
            None => unzipped(data@) is None,
        },
{
    let mut archive = zip::ZipArchive::new(std::io::Cursor::new(data)).ok()?;
    let mut out = Vec::new();
    for i in 0..archive.len() {
        let mut f = archive.by_index(i).ok()?;
        let mut content = Vec::new();
        std::io::Read::read_to_end(&mut f, &mut content).ok()?;
        out.push(ZipEntry { name: f.name().ok()?.to_string(), is_dir: f.is_dir(), content });
    }
    Some(out)
}

/// A write, as plain values: whether it makes a directory, its path and
/// the bytes of a file.
pub open spec fn op_view(op: WriteOp) -> (bool, Seq<char>, Seq<u8>) {
    match op {
        WriteOp::Dir { path } => (true, path@, Seq::empty()),
        WriteOp::File { path, content } => (false, path@, content@),
    }
}

/// The writes, as plain values.
pub open spec fn op_views(ops: Seq<WriteOp>) -> Seq<(bool, Seq<char>, Seq<u8>)> {
    ops.map_values(|op: WriteOp| op_view(op))
}

/// The writes that recreate zip entries below `dest`: one per entry, in
/// order, at the entry's name inside `dest`; a directory for a directory
/// entry, else a file with the entry's bytes.
pub open spec fn write_plan(es: Seq<(Seq<char>, bool, Seq<u8>)>, dest: Seq<char>) -> Seq<
    (bool, Seq<char>, Seq<u8>),
> {
    es.map_values(
        |e: (Seq<char>, bool, Seq<u8>)|
            (e.1, joined(dest, e.0), if e.1 {
                Seq::empty()
            } else {
                e.2
            }),
    )
}

/// Every entry's path stays below the destination.
pub open spec fn all_safe(es: Seq<(Seq<char>, bool, Seq<u8>)>) -> bool {
    forall|i: int| 0 <= i < es.len() ==> safe_entry_path(#[trigger] es[i].0)
}

/// `path` is the first entry path that would leave the destination.
pub open spec fn first_unsafe(es: Seq<(Seq<char>, bool, Seq<u8>)>, path: Seq<char>) -> bool {
    exists|i: int|
        0 <= i < es.len() && !safe_entry_path(#[trigger] es[i].0) && es[i].0 == path && forall|
            k: int,
        |
            0 <= k < i ==> safe_entry_path(#[trigger] es[k].0)
}

/// The result is the decode error of `format` for `archive` and `dest`.
pub open spec fn is_corrupt<T>(
    r: Result<T, ExtractError>,
    format: ArchiveFormat,
    archive: Seq<char>,
    dest: Seq<char>,
) -> bool {
    r matches Err(ExtractError::Corrupt { format: f, archive: a, dest: d }) && f == format && a@
        == archive && d@ == dest
}

/// What unpacking a payload of a container format gives: a tar payload as
/// it is; a gzip or bzip2 payload decoded to its tar stream; a zip payload
/// as the writes of its entries, refused when one of them would leave the
/// destination; a decode failure as an error naming the archive and the
/// destination.
pub open spec fn unpacks_to(
    format: ArchiveFormat,
    payload: Seq<u8>,
    archive: Seq<char>,
    dest: Seq<char>,
    r: Result<Unpack, ExtractError>,
) -> bool {
    match format {
        ArchiveFormat::Tar => r matches Ok(Unpack::Tar { data }) && data@ == payload,
        ArchiveFormat::Gzip => match gunzipped(payload) {
            Some(d) => r matches Ok(Unpack::Tar { data }) && data@ == d,
            None => is_corrupt(r, format, archive, dest),
        },
        ArchiveFormat::Bzip2 => match bunzipped(payload) {
            Some(d) => r matches Ok(Unpack::Tar { data }) && data@ == d,
            None => is_corrupt(r, format, archive, dest),
        },
        ArchiveFormat::Zip => match unzipped(payload) {
            Some(es) => if all_safe(es) {
                r matches Ok(Unpack::Files { ops }) && op_views(ops@) == write_plan(es, dest)
            } else {
                r matches Err(ExtractError::UnsafeEntry { path }) && first_unsafe(es, path@)
            },
            None => is_corrupt(r, format, archive, dest),
        },
        ArchiveFormat::Unknown => r matches Err(ExtractError::Unsupported { .. }),
    }
}

/// The bytes of `s` in a vector of their own.
fn slice_to_vec(s: &[u8]) -> (r: Vec<u8>)
    ensures
        r@ == s@,
{
    let mut r: Vec<u8> = Vec::new();
    let mut i: usize = 0;
    while i < s.len()
        invariant
            i <= s@.len(),
            r@ == s@.subrange(0, i as int),
        decreases s@.len() - i,
    {
        r.push(s[i]);
        assert(r@ =~= s@.subrange(0, i + 1));
        i = i + 1;
    }
    assert(s@.subrange(0, s@.len() as int) =~= s@);
    r
}

/// Chooses the unpacking of a classified payload: a container gets the
/// one of its format; anything else is refused, a container of no known
/// format as not yet supported.
pub fn extract_archive(c: &Classification) -> (r: Result<ArchiveFormat, ExtractError>)
    ensures
        !c.is_container ==> (r matches Err(ExtractError::NotAnArchive { mime }) && mime == c.mime),
        c.is_container && c.format == ArchiveFormat::Unknown ==> (r matches Err(
            ExtractError::Unsupported { mime },
        ) && mime == c.mime),
        c.is_container && c.format != ArchiveFormat::Unknown ==> r == Ok::<
            ArchiveFormat,
            ExtractError,
        >(c.format),
{
    if !c.is_container {
        return Err(ExtractError::NotAnArchive { mime: c.mime.clone() });
    }
    match c.format {
        ArchiveFormat::Unknown => Err(ExtractError::Unsupported { mime: c.mime.clone() }),
        format => Ok(format),
    }
}

/// A path separator of archive entries.
pub open spec fn is_sep(c: char) -> bool {
    c == '/' || c == '\\'
}

/// A `..` component starts at position `i` of `p`.
pub open spec fn parent_at(p: Seq<char>, i: int) -> bool {
    &&& 0 <= i && i + 2 <= p.len()
    &&& p[i] == '.' && p[i + 1] == '.'
    &&& (i == 0 || is_sep(p[i - 1]))
    &&& (i + 2 == p.len() || is_sep(p[i + 2]))
}

/// An entry path stays below the destination: it is relative, does not
/// start with a drive letter, and has no `..` component.
pub open spec fn safe_entry_path(p: Seq<char>) -> bool {
    &&& !(p.len() > 0 && is_sep(p[0]))
    &&& !(p.len() > 1 && p[1] == ':')
    &&& forall|i: int| !parent_at(p, i)
}

fn sep_char(c: char) -> (r: bool)
    ensures
        r == is_sep(c),
{
    c == '/' || c == '\\'
}

/// Whether an archive entry path stays below the destination directory.
pub fn is_safe_entry_path(p: &str) -> (r: bool)
    ensures
        r == safe_entry_path(p@),
{
    let pc = chars_of(p);
    let len = pc.len();
    if len > 0 && sep_char(pc[0]) {
        return false;
    }
    if len > 1 && pc[1] == ':' {
        return false;
    }
    let mut i: usize = 0;
    while len >= 2 && i <= len - 2
        invariant
            pc@ == p@,
            len == p@.len(),
            i <= len,
            forall|j: int| 0 <= j < i ==> !parent_at(p@, j),
        decreases len - i,
    {
        if pc[i] == '.' && pc[i + 1] == '.' && (i == 0 || sep_char(pc[i - 1])) && (i + 2 == len
            || sep_char(pc[i + 2])) {
            assert(parent_at(p@, i as int));
            return false;
        }
        i = i + 1;
    }
    assert forall|j: int| !parent_at(p@, j) by {
        if 0 <= j < i {
        }
    }
    true
}

/// Plans the writes that recreate zip entries below `dest`, refusing the
/// archive at the first entry whose path would leave it.
pub fn plan_zip(entries: &Vec<ZipEntry>, dest: &str) -> (r: Result<Vec<WriteOp>, ExtractError>)
    ensures
        r is Ok <==> all_safe(entry_views(entries@)),
        match r {
            Ok(ops) => op_views(ops@) == write_plan(entry_views(entries@), dest@),
            Err(e) => e matches ExtractError::UnsafeEntry { path } && first_unsafe(
                entry_views(entries@),
                path@,
            ),
        },
{
    let ghost es = entry_views(entries@);
    let mut ops: Vec<WriteOp> = Vec::new();
    let mut i: usize = 0;
    while i < entries.len()
        invariant
            es == entry_views(entries@),
            i <= entries@.len(),
            forall|k: int| 0 <= k < i ==> safe_entry_path(#[trigger] es[k].0),
            ops@.len() == i,
            forall|k: int|
                0 <= k < i ==> op_view(#[trigger] ops@[k]) == write_plan(es, dest@)[k],
        decreases entries@.len() - i,
    {
        let e = &entries[i];
        if !is_safe_entry_path(e.name.as_str()) {
            assert(!safe_entry_path(es[i as int].0));
            return Err(ExtractError::UnsafeEntry { path: e.name.clone() });
        }
        let path = join_path(dest, e.name.as_str());
        let op = if e.is_dir {
            WriteOp::Dir { path }
        } else {
            WriteOp::File { path, content: e.content.clone() }
        };
        assert(es[i as int] == (e.name@, e.is_dir, e.content@));
        ops.push(op);
        i = i + 1;
    }
    assert(op_views(ops@) =~= write_plan(es, dest@));
    Ok(ops)
}

/// Unpacks a classified payload: refuses one that is not a container, or
/// of no known format, with its media type; else gives what
/// `unpacks_to` says, decode errors naming `archive` and `dest`.
pub fn unpack(c: &Classification, payload: &[u8], archive: &str, dest: &str) -> (r: Result<
    Unpack,
    ExtractError,
>)
    ensures
        !c.is_container ==> (r matches Err(ExtractError::NotAnArchive { mime }) && mime == c.mime),
        c.is_container && c.format == ArchiveFormat::Unknown ==> (r matches Err(
            ExtractError::Unsupported { mime },
        ) && mime == c.mime),
        c.is_container && c.format != ArchiveFormat::Unknown ==> unpacks_to(
            c.format,
            payload@,
            archive@,
            dest@,
            r,
        ),
{
    let format = match extract_archive(c) {
        Ok(f) => f,
        Err(e) => return Err(e),
    };
    match format {
        ArchiveFormat::Tar => Ok(Unpack::Tar { data: slice_to_vec(payload) }),
        ArchiveFormat::Gzip => match gunzip(payload) {
            Some(data) => Ok(Unpack::Tar { data }),
            None => Err(
                ExtractError::Corrupt { format, archive: archive.to_owned(), dest: dest.to_owned() },
            ),
        },
        ArchiveFormat::Bzip2 => match bunzip2(payload) {
            Some(data) => Ok(Unpack::Tar { data }),
            None => Err(
                ExtractError::Corrupt { format, archive: archive.to_owned(), dest: dest.to_owned() },
            ),
        },
        ArchiveFormat::Zip => match zip_entries(payload) {
            Some(entries) => match plan_zip(&entries, dest) {
                Ok(ops) => Ok(Unpack::Files { ops }),
                Err(e) => Err(e),
            },
            None => Err(
                ExtractError::Corrupt { format, archive: archive.to_owned(), dest: dest.to_owned() },
            ),
        },
        ArchiveFormat::Unknown => Err(ExtractError::Unsupported { mime: c.mime.clone() }),
    }
}

} // verus!
