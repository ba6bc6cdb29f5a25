use loopy::extract::{plan_zip, unpack, ExtractError, Unpack, WriteOp, ZipEntry};
use loopy::sniff::Classification;
use loopy::sniff::{archive_format, classify_mime, detect_archive, detect_binary, is_binary, ArchiveFormat};
use std::io::Write;

fn elf_bytes() -> Vec<u8> {
    let mut b = vec![0x7f, b'E', b'L', b'F', 2, 1, 1, 0];
    b.resize(64, 0);
    b
}

fn tar_bytes(files: &[(&str, &[u8])]) -> Vec<u8> {
    let mut builder = tar::Builder::new(Vec::new());
    for (name, data) in files {
        let mut header = tar::Header::new_gnu();
        header.set_size(data.len() as u64);
        header.set_mode(0o755);
        header.set_cksum();
        builder.append_data(&mut header, name, *data).unwrap();
    }
    builder.into_inner().unwrap()
}

#[test]
fn elf_payload_is_binary_and_not_container() {
    let b = elf_bytes();
    assert!(detect_binary(&b));
    let c = detect_archive(&b);
    assert!(!c.is_container);
    assert_eq!(c.format, ArchiveFormat::Unknown);
    assert_eq!(c.mime, "application/x-executable");
}

#[test]
fn empty_payload_is_unknown() {
    let c = detect_archive(&[]);
    assert!(!c.is_container);
    assert_eq!(c.format, ArchiveFormat::Unknown);
    assert_eq!(c.mime, "unknown");
    assert!(!detect_binary(&[]));
}

#[test]
fn plain_text_is_neither() {
    let b = b"just some words, nothing more".to_vec();
    assert!(!detect_binary(&b));
    let c = detect_archive(&b);
    assert!(!c.is_container);
    assert_eq!(c.mime, "unknown");
}

#[test]
fn tar_payload_is_tar() {
    let b = tar_bytes(&[("kind", &elf_bytes())]);
    let c = detect_archive(&b);
    assert!(c.is_container);
    assert_eq!(c.format, ArchiveFormat::Tar);
    assert_eq!(c.mime, "application/x-tar");
}

#[test]
fn gzip_payload_is_gzip() {
    let t = tar_bytes(&[("kind", &elf_bytes())]);
    let mut enc = flate2::write::GzEncoder::new(Vec::new(), flate2::Compression::default());
    enc.write_all(&t).unwrap();
    let b = enc.finish().unwrap();
    let c = detect_archive(&b);
    assert!(c.is_container);
    assert_eq!(c.format, ArchiveFormat::Gzip);
}

#[test]
fn bzip2_payload_is_bzip2() {
    let t = tar_bytes(&[("kind", &elf_bytes())]);
    let mut enc = bzip2::write::BzEncoder::new(Vec::new(), bzip2::Compression::default());
    enc.write_all(&t).unwrap();
    let b = enc.finish().unwrap();
    let c = detect_archive(&b);
    assert!(c.is_container);
    assert_eq!(c.format, ArchiveFormat::Bzip2);
}

#[test]
fn zip_payload_is_zip() {
    let mut w = zip::ZipWriter::new(std::io::Cursor::new(Vec::new()));
    w.start_file("bin/kind", zip::write::SimpleFileOptions::default()).unwrap();
    w.write_all(&elf_bytes()).unwrap();
    let b = w.finish().unwrap().into_inner();
    let c = detect_archive(&b);
    assert!(c.is_container);
    assert_eq!(c.format, ArchiveFormat::Zip);
    assert_eq!(c.mime, "application/zip");
}

#[test]
fn catalog_prefixes_decide_the_format() {
    assert_eq!(archive_format("application/zip"), ArchiveFormat::Zip);
    assert_eq!(archive_format("Zip archive data, at least v2.0"), ArchiveFormat::Zip);
    assert_eq!(archive_format("application/gzip"), ArchiveFormat::Gzip);
    assert_eq!(archive_format("POSIX tar archive (GNU)"), ArchiveFormat::Tar);
    assert_eq!(archive_format("application/x-bzip2"), ArchiveFormat::Bzip2);
    assert_eq!(archive_format("application/x-7z-compressed"), ArchiveFormat::Unknown);
    assert_eq!(archive_format("application/zi"), ArchiveFormat::Unknown);
}

#[test]
fn classify_mime_keeps_the_media_type() {
    let c = classify_mime(Some("application/x-tar"));
    assert!(c.is_container);
    assert_eq!(c.format, ArchiveFormat::Tar);
    assert_eq!(c.mime, "application/x-tar");
    let n = classify_mime(None);
    assert!(!n.is_container);
    assert_eq!(n.mime, "unknown");
    let p = classify_mime(Some("image/png"));
    assert!(!p.is_container);
    assert_eq!(p.format, ArchiveFormat::Unknown);
    assert_eq!(p.mime, "image/png");
}

#[test]
fn binary_catalog_matches_by_prefix() {
    assert!(is_binary(Some("application/x-executable")));
    assert!(is_binary(Some("application/x-mach-binary")));
    assert!(is_binary(Some("ELF 64-bit LSB pie executable, x86-64")));
    assert!(!is_binary(Some("application/vnd.microsoft.portable-executable")));
    assert!(!is_binary(Some("text/plain")));
    assert!(!is_binary(None));
}

fn tar_entries(t: &[u8]) -> Vec<(String, Vec<u8>)> {
    let mut out = Vec::new();
    let mut archive = tar::Archive::new(t);
    for e in archive.entries().unwrap() {
        let mut e = e.unwrap();
        let mut content = Vec::new();
        std::io::Read::read_to_end(&mut e, &mut content).unwrap();
        out.push((e.path().unwrap().to_string_lossy().to_string(), content));
    }
    out
}

fn tree() -> Vec<(String, Vec<u8>)> {
    vec![("bin/kind".to_string(), elf_bytes()), ("README".to_string(), b"hello".to_vec())]
}

#[test]
fn tar_family_round_trips_through_detection_and_decompression() {
    let t = tar_bytes(&[("bin/kind", &elf_bytes()), ("README", b"hello")]);
    let mut gz = flate2::write::GzEncoder::new(Vec::new(), flate2::Compression::default());
    gz.write_all(&t).unwrap();
    let gz = gz.finish().unwrap();
    let mut bz = bzip2::write::BzEncoder::new(Vec::new(), bzip2::Compression::default());
    bz.write_all(&t).unwrap();
    let bz = bz.finish().unwrap();
    for (payload, expected) in [(&t, ArchiveFormat::Tar), (&gz, ArchiveFormat::Gzip), (&bz, ArchiveFormat::Bzip2)] {
        let c = detect_archive(payload);
        assert!(c.is_container);
        assert_eq!(c.format, expected);
        let data = match unpack(&c, payload, "/s/kind", "/s/out").unwrap() {
            Unpack::Tar { data } => data,
            other => panic!("unexpected {:?}", other),
        };
        assert_eq!(data, t);
        assert_eq!(tar_entries(&data), tree());
    }
}

#[test]
fn zip_round_trips_through_detection() {
    let mut w = zip::ZipWriter::new(std::io::Cursor::new(Vec::new()));
    for (name, data) in tree() {
        w.start_file(name.as_str(), zip::write::SimpleFileOptions::default()).unwrap();
        w.write_all(&data).unwrap();
    }
    let z = w.finish().unwrap().into_inner();
    let c = detect_archive(&z);
    assert_eq!(c.format, ArchiveFormat::Zip);
    let ops = match unpack(&c, &z, "/s/kind", "/s/out").unwrap() {
        Unpack::Files { ops } => ops,
        other => panic!("unexpected {:?}", other),
    };
    let mut out = Vec::new();
    for op in ops {
        match op {
            WriteOp::File { path, content } => out.push((path.trim_start_matches("/s/out/").to_string(), content)),
            WriteOp::Dir { path } => panic!("unexpected directory {}", path),
        }
    }
    assert_eq!(out, tree());
}

fn classified(payload: &[u8]) -> Classification {
    detect_archive(payload)
}

#[test]
fn corrupt_streams_are_refused_naming_archive_and_destination() {
    let mut gz = flate2::write::GzEncoder::new(Vec::new(), flate2::Compression::default());
    gz.write_all(&tar_bytes(&[("kind", &elf_bytes())])).unwrap();
    let mut gz = gz.finish().unwrap();
    let n = gz.len();
    gz.truncate(n / 2);
    assert_eq!(
        unpack(&classified(&gz), &gz, "/s/kind", "/s/out"),
        Err(ExtractError::Corrupt { format: ArchiveFormat::Gzip, archive: "/s/kind".to_string(), dest: "/s/out".to_string() })
    );
    let bz = b"BZh91AY&SY garbage that is not bzip2".to_vec();
    assert_eq!(classified(&bz).format, ArchiveFormat::Bzip2);
    assert_eq!(
        unpack(&classified(&bz), &bz, "a", "b"),
        Err(ExtractError::Corrupt { format: ArchiveFormat::Bzip2, archive: "a".to_string(), dest: "b".to_string() })
    );
    let z = vec![b'P', b'K', 3, 4, 1, 2, 3, 4, 5, 6];
    assert_eq!(classified(&z).format, ArchiveFormat::Zip);
    assert_eq!(
        unpack(&classified(&z), &z, "a", "b"),
        Err(ExtractError::Corrupt { format: ArchiveFormat::Zip, archive: "a".to_string(), dest: "b".to_string() })
    );
}

#[test]
fn non_containers_and_unknown_formats_are_refused_with_their_media_type() {
    let c = classify_mime(Some("image/png"));
    assert_eq!(unpack(&c, b"x", "a", "b"), Err(ExtractError::NotAnArchive { mime: "image/png".to_string() }));
    let odd = Classification { is_container: true, format: ArchiveFormat::Unknown, mime: "application/x-rar".to_string() };
    assert_eq!(unpack(&odd, b"x", "a", "b"), Err(ExtractError::Unsupported { mime: "application/x-rar".to_string() }));
}

#[test]
fn zip_plan_writes_entries_below_the_destination() {
    let entries = vec![
        ZipEntry { name: "bin/".to_string(), is_dir: true, content: Vec::new() },
        ZipEntry { name: "bin/kind".to_string(), is_dir: false, content: elf_bytes() },
    ];
    assert_eq!(
        plan_zip(&entries, "/s/out"),
        Ok(vec![
            WriteOp::Dir { path: "/s/out/bin/".to_string() },
            WriteOp::File { path: "/s/out/bin/kind".to_string(), content: elf_bytes() },
        ])
    );
    let bad = vec![
        ZipEntry { name: "ok".to_string(), is_dir: false, content: Vec::new() },
        ZipEntry { name: "../../etc/passwd".to_string(), is_dir: false, content: Vec::new() },
        ZipEntry { name: "/abs".to_string(), is_dir: false, content: Vec::new() },
    ];
    assert_eq!(plan_zip(&bad, "/s/out"), Err(ExtractError::UnsafeEntry { path: "../../etc/passwd".to_string() }));
}
