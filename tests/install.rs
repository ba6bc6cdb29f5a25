use loopy::extract::{ExtractError, Unpack};
use loopy::install::{acquire_step, AcquireError, AcquireEvent, AcquireStep, Progress, ToolJob};
use loopy::locate::{FileEntry, LocateError};
use loopy::search_path::update_path;
use loopy::sniff::ArchiveFormat;
use std::io::{Read, Write};

fn elf_bytes() -> Vec<u8> {
    let mut b = vec![0x7f, b'E', b'L', b'F', 2, 1, 1, 0];
    b.extend((0u8..120).map(|i| i.wrapping_mul(7)));
    b
}

fn job(name: &str) -> ToolJob {
    ToolJob {
        name: name.to_string(),
        url: "https://example.com/kind.tar.gz".to_string(),
        scratch_dir: "/tmp/scratch".to_string(),
        managed_dir: "/work/vendor".to_string(),
    }
}

fn tarball(name: &str, data: &[u8]) -> Vec<u8> {
    let mut builder = tar::Builder::new(Vec::new());
    let mut header = tar::Header::new_gnu();
    header.set_size(data.len() as u64);
    header.set_mode(0o755);
    header.set_cksum();
    builder.append_data(&mut header, name, data).unwrap();
    builder.into_inner().unwrap()
}

fn gzip(data: &[u8]) -> Vec<u8> {
    let mut enc = flate2::write::GzEncoder::new(Vec::new(), flate2::Compression::default());
    enc.write_all(data).unwrap();
    enc.finish().unwrap()
}

#[test]
fn acquisition_starts_with_the_download() {
    assert_eq!(
        acquire_step(&job("kind"), &AcquireEvent::Started),
        AcquireStep::Fetch {
            url: "https://example.com/kind.tar.gz".to_string(),
            dest: "/tmp/scratch/kind".to_string(),
        }
    );
}

#[test]
fn raw_executable_is_installed_as_downloaded() {
    let step = acquire_step(&job("kind"), &AcquireEvent::Fetched { payload: elf_bytes() });
    assert_eq!(
        step,
        AcquireStep::Install { from: "/tmp/scratch/kind".to_string(), to: "/work/vendor/kind".to_string() }
    );
}

#[test]
fn unknown_payload_is_installed_as_downloaded() {
    let step = acquire_step(&job("tool"), &AcquireEvent::Fetched { payload: b"#!/bin/sh\necho hi\n".to_vec() });
    assert_eq!(
        step,
        AcquireStep::Install { from: "/tmp/scratch/tool".to_string(), to: "/work/vendor/tool".to_string() }
    );
}

#[test]
fn gzip_tarball_end_to_end() {
    let j = job("kind");
    let binary = elf_bytes();
    let tar_stream = tarball("kind", &binary);
    let payload = gzip(&tar_stream);
    let step = acquire_step(&j, &AcquireEvent::Fetched { payload });
    assert_eq!(
        step,
        AcquireStep::Extract {
            unpack: Unpack::Tar { data: tar_stream.clone() },
            archive: "/tmp/scratch/kind".to_string(),
            dest: "/tmp/scratch/kind-extracted".to_string(),
        }
    );
    let mut archive = tar::Archive::new(tar_stream.as_slice());
    let mut files = Vec::new();
    for e in archive.entries().unwrap() {
        let mut e = e.unwrap();
        let name = e.path().unwrap().to_string_lossy().to_string();
        let mut content = Vec::new();
        e.read_to_end(&mut content).unwrap();
        files.push(FileEntry { path: format!("/tmp/scratch/kind-extracted/{}", name), name, content });
    }
    assert_eq!(files.len(), 1);
    assert_eq!(files[0].content, binary);
    let step = acquire_step(&j, &AcquireEvent::Extracted { files });
    assert_eq!(
        step,
        AcquireStep::Install {
            from: "/tmp/scratch/kind-extracted/kind".to_string(),
            to: "/work/vendor/kind".to_string(),
        }
    );
    assert_eq!(
        acquire_step(&j, &AcquireEvent::Installed),
        AcquireStep::Done { installed: "/work/vendor/kind".to_string() }
    );
    let paths = update_path(&vec!["/usr/bin".to_string()], "/work/vendor");
    let paths = update_path(&paths, "/work/vendor");
    assert_eq!(paths.iter().filter(|p| p.as_str() == "/work/vendor").count(), 1);
}

#[test]
fn unpacked_tree_without_the_binary_fails() {
    let files = vec![FileEntry {
        path: "/tmp/scratch/kind-extracted/README".to_string(),
        name: "README".to_string(),
        content: b"read me".to_vec(),
    }];
    assert_eq!(
        acquire_step(&job("kind"), &AcquireEvent::Extracted { files }),
        AcquireStep::Fail { error: AcquireError::Locate(LocateError::NotFound { name: "kind".to_string() }) }
    );
}

#[test]
fn corrupt_gzip_payload_fails() {
    let mut payload = gzip(&tarball("kind", &elf_bytes()));
    let len = payload.len();
    payload.truncate(len / 2);
    assert_eq!(
        acquire_step(&job("kind"), &AcquireEvent::Fetched { payload }),
        AcquireStep::Fail {
            error: AcquireError::Extract(ExtractError::Corrupt {
                format: ArchiveFormat::Gzip,
                archive: "/tmp/scratch/kind".to_string(),
                dest: "/tmp/scratch/kind-extracted".to_string(),
            }),
        }
    );
}

#[test]
fn progress_needs_a_length_and_counts_chunks() {
    assert!(Progress::start(None).is_none());
    let mut p = Progress::start(Some(100)).unwrap();
    assert_eq!((p.total, p.downloaded), (100, 0));
    p.advance(40);
    p.advance(60);
    assert_eq!(p.downloaded, 100);
    let mut q = Progress { total: 1, downloaded: u64::MAX - 1 };
    q.advance(5);
    assert_eq!(q.downloaded, u64::MAX);
}
