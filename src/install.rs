//! The tool installer's decisions: from what the last step produced to the
//! next step to perform. The caller performs each step (a download, an
//! unpacking, a copy) and reports what came of it.
use vstd::prelude::*;

use crate::extract::{unpack, unpacks_to, ExtractError, Unpack};
use crate::locate::{is_candidate, search_archive, FileEntry, LocateError};
use crate::sniff::{classify_content, detect_archive};
use crate::text::{join_path, joined};

verus! {

/// One acquisition: the tool's name and download URL, the scratch
/// directory that holds the download, and the managed directory that
/// receives the binary.
#[derive(Clone, Debug)]
pub struct ToolJob {
    pub name: String,
    pub url: String,
    pub scratch_dir: String,
    pub managed_dir: String,
}

/// What the caller reports after performing a step.
#[derive(Clone, Debug)]
pub enum AcquireEvent {
    /// Nothing has been done yet.
    Started,
    /// The payload was downloaded; these are its bytes.
    Fetched { payload: Vec<u8> },
    /// The archive was unpacked; these are the regular files of the tree,
    /// depth first.
    Extracted { files: Vec<FileEntry> },
    /// The binary was copied into the managed directory and made executable.
    Installed,
}

/// The next step of an acquisition.
#[derive(Clone, Debug, PartialEq, Eq)]
pub enum AcquireStep {
    /// Download `url` into the file `dest`.
    Fetch { url: String, dest: String },
    /// Unpack the archive downloaded to `archive` into the directory `dest`,
    /// as `unpack` says.
    Extract { unpack: Unpack, archive: String, dest: String },
    /// Copy `from` to `to`, replacing any file there, and make it executable.
    Install { from: String, to: String },
    /// The tool is installed at `installed`.
    Done { installed: String },
    /// The acquisition failed.
    Fail { error: AcquireError },
}

/// Why an acquisition failed.
#[derive(Clone, Debug, PartialEq, Eq)]
pub enum AcquireError {
    /// The payload could not be unpacked.
    Extract(ExtractError),
    /// No single binary could be chosen from the unpacked tree.
    Locate(LocateError),
}

/// The file that the payload is downloaded into.
pub open spec fn download_path(job: ToolJob) -> Seq<char> {
    joined(job.scratch_dir@, job.name@)
}

/// The directory that an archive is unpacked into.
pub open spec fn extract_dir(job: ToolJob) -> Seq<char> {
    joined(job.scratch_dir@, job.name@ + "-extracted"@)
}

/// Where the binary is installed.
pub open spec fn install_path(job: ToolJob) -> Seq<char> {
    joined(job.managed_dir@, job.name@)
}

/// The step that follows `event` in the acquisition of `job`: fetch the
/// payload first; unpack it, decompressed, if its content is a container,
/// else install it as it is; from an unpacked tree, install the one binary whose file name
/// holds the tool's name, or fail; once installed, done.
pub fn acquire_step(job: &ToolJob, event: &AcquireEvent) -> (r: AcquireStep)
    ensures
        match event {
            AcquireEvent::Started => r matches AcquireStep::Fetch { url, dest } && url@ == job.url@
                && dest@ == download_path(*job),
            AcquireEvent::Fetched { payload } => {
                let c = classify_content(payload@);
                if c.0 {
                    match r {
                        AcquireStep::Extract { unpack, archive, dest } => archive@ == download_path(
                            *job,
                        ) && dest@ == extract_dir(*job) && unpacks_to(
                            c.1,
                            payload@,
                            download_path(*job),
                            extract_dir(*job),
                            Ok(unpack),
                        ),
                        AcquireStep::Fail { error: AcquireError::Extract(e) } => unpacks_to(
                            c.1,
                            payload@,
                            download_path(*job),
                            extract_dir(*job),
                            Err(e),
                        ),
                        _ => false,
                    }
                } else {
                    r matches AcquireStep::Install { from, to } && from@ == download_path(*job)
                        && to@ == install_path(*job)
                }
            },
            AcquireEvent::Extracted { files } => match r {
                AcquireStep::Install { from, to } => {
                    &&& to@ == install_path(*job)
                    &&& exists|i: int|
                        0 <= i < files@.len() && from@ == (#[trigger] files@[i]).path@
                            && is_candidate(files@[i], job.name@) && forall|k: int|
                            0 <= k < files@.len() && k != i ==> !is_candidate(
                                #[trigger] files@[k],
                                job.name@,
                            )
                },
                AcquireStep::Fail { error } => match error {
                    AcquireError::Locate(LocateError::NotFound { .. }) => forall|k: int|
                        0 <= k < files@.len() ==> !is_candidate(#[trigger] files@[k], job.name@),
                    AcquireError::Locate(LocateError::Ambiguous { .. }) => exists|i: int, j: int|
                        0 <= i < j < files@.len() && is_candidate(#[trigger] files@[i], job.name@)
                            && is_candidate(#[trigger] files@[j], job.name@),
                    AcquireError::Extract(_) => false,
                },
                _ => false,
            },
            AcquireEvent::Installed => r matches AcquireStep::Done { installed } && installed@
                == install_path(*job),
        },
{
    match event {
        AcquireEvent::Started => AcquireStep::Fetch {
            url: job.url.clone(),
            dest: join_path(job.scratch_dir.as_str(), job.name.as_str()),
        },
        AcquireEvent::Fetched { payload } => {
            let c = detect_archive(payload.as_slice());
            if c.is_container {
                let mut dir_name = job.name.clone();
                let suffix = "-extracted";
                dir_name.append(suffix);
                let archive = join_path(job.scratch_dir.as_str(), job.name.as_str());
                let dest = join_path(job.scratch_dir.as_str(), dir_name.as_str());
                match unpack(&c, payload.as_slice(), archive.as_str(), dest.as_str()) {
                    Ok(unpack) => AcquireStep::Extract { unpack, archive, dest },
                    Err(e) => AcquireStep::Fail { error: AcquireError::Extract(e) },
                }
            } else {
                AcquireStep::Install {
                    from: join_path(job.scratch_dir.as_str(), job.name.as_str()),
                    to: join_path(job.managed_dir.as_str(), job.name.as_str()),
                }
            }
        },
        AcquireEvent::Extracted { files } => {
            match search_archive(files, job.name.as_str()) {
                Ok(from) => AcquireStep::Install {
                    from,
                    to: join_path(job.managed_dir.as_str(), job.name.as_str()),
                },
                Err(error) => AcquireStep::Fail { error: AcquireError::Locate(error) },
            }
        },
        AcquireEvent::Installed => AcquireStep::Done {
            installed: join_path(job.managed_dir.as_str(), job.name.as_str()),
        },
    }
}

/// Byte-level progress of a download whose length was declared.
#[derive(Clone, Copy, Debug)]
pub struct Progress {
    pub total: u64,
    pub downloaded: u64,
}

impl Progress {
    /// Starts the progress of a download; a download needs a declared
    /// length, so none gives none.
    pub fn start(content_length: Option<u64>) -> (r: Option<Progress>)
        ensures
            match content_length {
                Some(n) => r == Some(Progress { total: n, downloaded: 0 }),
                None => r is None,
            },
    {
        match content_length {
            Some(n) => Some(Progress { total: n, downloaded: 0 }),
            None => None,
        }
    }

    /// Counts a chunk of `size` bytes; the count never decreases and stops
    /// at the largest `u64`.
    pub fn advance(&mut self, size: usize)
        ensures
            final(self).total == old(self).total,
            final(self).downloaded as int == if old(self).downloaded + size <= u64::MAX {
                old(self).downloaded + size
            } else {
                u64::MAX as int
            },
    {
        self.downloaded = self.downloaded.saturating_add(size as u64);
    }
}

} // verus!
