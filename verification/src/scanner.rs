//! Library scanning: the per-file decisions and the bookkeeping.
//!
//! Walking directories, reading file metadata and the database calls are
//! host-layer work. What is verified here: how a file's recorded and actual
//! modification times decide its fate, how outcomes are tallied into a scan
//! result, and the progress arithmetic.
use vstd::prelude::*;
use crate::models::{lemma_filter_take_step, LibraryStats};
use crate::time_source::now_ns;

verus! {

/// Progress notifications of a running scan.
#[derive(Debug, Clone)]
pub enum ScanProgress {
    Started { total_files: usize },
    Progress { current: usize, total: usize, file: String },
    Completed { result: ScanResult },
    Error { file: String, error: String },
}

/// The outcome of a whole scan. The duration is in nanoseconds.
#[derive(Debug, Clone)]
pub struct ScanResult {
    pub total_files_scanned: usize,
    pub new_tracks: usize,
    pub updated_tracks: usize,
    pub removed_tracks: usize,
    pub failed_files: usize,
    pub duration_ns: u64,
    pub stats: LibraryStats,
}

#[derive(Debug, Clone)]
pub struct ScanConfig {
    pub directories: Vec<String>,
    pub recursive: bool,
    pub incremental: bool,
    pub parallel: bool,
    pub batch_size: usize,
}

impl Default for ScanConfig {
    fn default() -> (r: Self)
        ensures
            r.directories@.len() == 0,
            r.recursive,
            r.incremental,
            r.parallel,
            r.batch_size == 100,
    {
        Self {
            directories: Vec::new(),
            recursive: true,
            incremental: true,
            parallel: true,
            batch_size: 100,
        }
    }
}

/// What an incremental scan decided about one file.
#[derive(Debug, Clone, Copy, PartialEq, Eq, Structural)]
pub enum FileStatus {
    New,
    Updated,
    Unchanged,
}

/// The incremental rule: a file the catalogue does not know is New; a known
/// file whose recorded modification time matches is Unchanged; otherwise it
/// is Updated. Tags are re-read exactly for New and Updated files.
pub fn classify_file(recorded_modified_time: Option<u64>, modified_time: u64) -> (r: (
    FileStatus,
    bool,
))
    ensures
        r.0 == match recorded_modified_time {
            Some(t) => if t == modified_time {
                FileStatus::Unchanged
            } else {
                FileStatus::Updated
            },
            None => FileStatus::New,
        },
        r.1 == (r.0 != FileStatus::Unchanged),
{
    match recorded_modified_time {
        Some(t) => {
            if t == modified_time {
                (FileStatus::Unchanged, false)
            } else {
                (FileStatus::Updated, true)
            }
        }
        None => (FileStatus::New, true),
    }
}

/// How one file ended: processed with a status, or failed.
#[derive(Debug, Clone, Copy, PartialEq, Eq, Structural)]
pub enum FileOutcome {
    Processed(FileStatus),
    Failed,
}

pub open spec fn spec_count_new(s: Seq<FileOutcome>) -> int {
    s.filter(|o: FileOutcome| o == FileOutcome::Processed(FileStatus::New)).len() as int
}

pub open spec fn spec_count_updated(s: Seq<FileOutcome>) -> int {
    s.filter(|o: FileOutcome| o == FileOutcome::Processed(FileStatus::Updated)).len() as int
}

pub open spec fn spec_count_failed(s: Seq<FileOutcome>) -> int {
    s.filter(|o: FileOutcome| o == FileOutcome::Failed).len() as int
}

/// Tally a scan's per-file outcomes: how many files were new, how many
/// updated, how many failed. Unchanged files count toward none of them.
pub fn tally_outcomes(outcomes: &Vec<FileOutcome>) -> (r: (usize, usize, usize))
    ensures
        r.0 == spec_count_new(outcomes@),
        r.1 == spec_count_updated(outcomes@),
        r.2 == spec_count_failed(outcomes@),
{
    let ghost p_new = |o: FileOutcome| o == FileOutcome::Processed(FileStatus::New);
    let ghost p_upd = |o: FileOutcome| o == FileOutcome::Processed(FileStatus::Updated);
    let ghost p_fail = |o: FileOutcome| o == FileOutcome::Failed;
    let mut new_tracks: usize = 0;
    let mut updated_tracks: usize = 0;
    let mut failed_files: usize = 0;
    let mut i: usize = 0;
    while i < outcomes.len()
        invariant
            i <= outcomes@.len(),
            p_new == (|o: FileOutcome| o == FileOutcome::Processed(FileStatus::New)),
            p_upd == (|o: FileOutcome| o == FileOutcome::Processed(FileStatus::Updated)),
            p_fail == (|o: FileOutcome| o == FileOutcome::Failed),
            new_tracks == outcomes@.take(i as int).filter(p_new).len(),
            updated_tracks == outcomes@.take(i as int).filter(p_upd).len(),
            failed_files == outcomes@.take(i as int).filter(p_fail).len(),
        decreases outcomes@.len() - i,
    {
        proof {
            lemma_filter_take_step(outcomes@, p_new, i as int);
            lemma_filter_take_step(outcomes@, p_upd, i as int);
            lemma_filter_take_step(outcomes@, p_fail, i as int);
        }
        match outcomes[i] {
            FileOutcome::Processed(FileStatus::New) => {
                new_tracks = new_tracks + 1;
            }
            FileOutcome::Processed(FileStatus::Updated) => {
                updated_tracks = updated_tracks + 1;
            }
            FileOutcome::Processed(FileStatus::Unchanged) => {}
            FileOutcome::Failed => {
                failed_files = failed_files + 1;
            }
        }
        i = i + 1;
    }
    proof {
        assert(outcomes@.take(outcomes@.len() as int) =~= outcomes@);
    }
    (new_tracks, updated_tracks, failed_files)
}

/// Progress accounting of a running scan. The start instant is a wall-clock
/// reading in nanoseconds.
pub struct ScanProgressTracker {
    pub start_ns: u64,
    pub total_files: usize,
    pub processed_files: usize,
    pub new_tracks: usize,
    pub updated_tracks: usize,
    pub failed_files: usize,
}

impl ScanProgressTracker {
    pub fn new_at(total_files: usize, now_ns: u64) -> (r: Self)
        ensures
            r.start_ns == now_ns,
            r.total_files == total_files,
            r.processed_files == 0,
            r.new_tracks == 0,
            r.updated_tracks == 0,
            r.failed_files == 0,
    {
        Self {
            start_ns: now_ns,
            total_files,
            processed_files: 0,
            new_tracks: 0,
            updated_tracks: 0,
            failed_files: 0,
        }
    }

    /// Start tracking now.
    pub fn new(total_files: usize) -> (r: Self)
        ensures
            r.total_files == total_files,
            r.processed_files == 0,
            r.new_tracks == 0,
            r.updated_tracks == 0,
            r.failed_files == 0,
    {
        let now = now_ns();
        Self::new_at(total_files, now)
    }

    /// One more file processed, counted under its status.
    pub fn update(&mut self, status: FileStatus)
        requires
            old(self).processed_files < usize::MAX,
            old(self).new_tracks < usize::MAX,
            old(self).updated_tracks < usize::MAX,
        ensures
            final(self).processed_files == old(self).processed_files + 1,
            final(self).new_tracks == old(self).new_tracks + (
                if status == FileStatus::New {
                    1int
                } else {
                    0int
                }
            ),
            final(self).updated_tracks == old(self).updated_tracks + (
                if status == FileStatus::Updated {
                    1int
                } else {
                    0int
                }
            ),
            final(self).failed_files == old(self).failed_files,
            final(self).total_files == old(self).total_files,
            final(self).start_ns == old(self).start_ns,
    {
        self.processed_files = self.processed_files + 1;
        match status {
            FileStatus::New => {
                self.new_tracks = self.new_tracks + 1;
            }
            FileStatus::Updated => {
                self.updated_tracks = self.updated_tracks + 1;
            }
            FileStatus::Unchanged => {}
        }
    }

    /// One more file processed, and it failed.
    pub fn record_failure(&mut self)
        requires
            old(self).processed_files < usize::MAX,
            old(self).failed_files < usize::MAX,
        ensures
            final(self).processed_files == old(self).processed_files + 1,
            final(self).failed_files == old(self).failed_files + 1,
            final(self).new_tracks == old(self).new_tracks,
            final(self).updated_tracks == old(self).updated_tracks,
            final(self).total_files == old(self).total_files,
            final(self).start_ns == old(self).start_ns,
    {
        self.processed_files = self.processed_files + 1;
        self.failed_files = self.failed_files + 1;
    }

    /// Processed share in thousandths, capped at 1000; an empty scan
    /// counts as complete.
    pub fn progress_permille(&self) -> (r: u32)
        ensures
            r == if self.total_files == 0 {
                1000int
            } else {
                let p = ((self.processed_files as int) * 1000) / (self.total_files as int);
                if p > 1000 {
                    1000int
                } else {
                    p
                }
            },
    {
        if self.total_files == 0 {
            1000
        } else {
            let p128: u128 = (self.processed_files as u128) * 1000u128
                / (self.total_files as u128);
            if p128 > 1000u128 {
                1000
            } else {
                p128 as u32
            }
        }
    }

    /// Wall time spent so far, in nanoseconds; clock steps backward read as
    /// zero.
    pub fn elapsed(&self) -> u64
    {
        let now = now_ns();
        if now >= self.start_ns {
            now - self.start_ns
        } else {
            0
        }
    }

    /// The estimate behind `estimated_remaining`: with nothing processed
    /// there is no estimate; otherwise the mean time per file so far times
    /// the files left, saturated to u64 nanoseconds.
    pub fn estimated_remaining_from(&self, elapsed_ns: u64) -> (r: Option<u64>)
        ensures
            r is Some <==> self.processed_files > 0,
            self.processed_files > 0 ==> r == Some(
                crate::clock::spec_cap_u64(
                    (elapsed_ns as int / self.processed_files as int) * (
                    if self.total_files >= self.processed_files {
                        self.total_files - self.processed_files
                    } else {
                        0int
                    }),
                ) as u64,
            ),
    {
        if self.processed_files == 0 {
            return None;
        }
        let avg: u64 = elapsed_ns / (self.processed_files as u64);
        let remaining: usize = if self.total_files >= self.processed_files {
            self.total_files - self.processed_files
        } else {
            0
        };
        proof {
            assert((avg as int) * (remaining as int) <= u128::MAX) by (nonlinear_arith)
                requires
                    0 <= avg <= u64::MAX,
                    0 <= remaining <= u64::MAX,
            ;
        }
        let est128: u128 = (avg as u128) * (remaining as u128);
        let est: u64 = if est128 > u64::MAX as u128 {
            u64::MAX
        } else {
            est128 as u64
        };
        Some(est)
    }

    /// Estimated remaining wall time in nanoseconds; nothing until at least
    /// one file was processed.
    pub fn estimated_remaining(&self) -> (r: Option<u64>)
        ensures
            r is Some <==> self.processed_files > 0,
    {
        let elapsed = self.elapsed();
        self.estimated_remaining_from(elapsed)
    }
}

} // verus!
