//! Filesystem watching: event conversion, batching decisions and the
//! actions a batch of events implies.
//!
//! The watcher itself — registering paths with the operating system and
//! receiving raw notifications — is host-layer I/O. The host converts each
//! raw notification's kind into `FsChangeKind` and hands it here; every
//! decision after that is verified.
use vstd::prelude::*;
use crate::time_source::now_ns;

verus! {

/// A library-relevant filesystem event.
#[derive(Debug, Clone)]
pub enum WatchEvent {
    FileAdded { path: String },
    FileRemoved { path: String },
    FileModified { path: String },
    FileRenamed { old_path: String, new_path: String },
    Error { error: String },
}

#[derive(Debug, Clone)]
pub struct WatchConfig {
    pub debounce_delay_ms: u64,
    pub batch_size: usize,
    pub auto_scan: bool,
}

impl Default for WatchConfig {
    fn default() -> (r: Self)
        ensures
            r.debounce_delay_ms == 1000,
            r.batch_size == 10,
            r.auto_scan,
    {
        Self { debounce_delay_ms: 1000, batch_size: 10, auto_scan: true }
    }
}

/// The kind of a raw filesystem notification, as the host layer reports it.
#[derive(Debug, Clone, Copy, PartialEq, Eq, Structural)]
pub enum FsChangeKind {
    Created,
    Removed,
    DataChanged,
    MetadataChanged,
    NameChanged,
    Other,
}

/// Turn one raw notification into a watch event:
/// creations add, removals remove, content or metadata changes modify; a
/// rename with both paths renames, one with a single path reads as a
/// removal; anything else, or a notification without a path, is dropped.
pub fn convert_event(kind: FsChangeKind, mut paths: Vec<String>) -> (r: Option<WatchEvent>)
    ensures
        paths@.len() == 0 ==> r is None,
        paths@.len() > 0 ==> match kind {
            FsChangeKind::Created => r == Some(WatchEvent::FileAdded { path: paths@[0] }),
            FsChangeKind::Removed => r == Some(WatchEvent::FileRemoved { path: paths@[0] }),
            FsChangeKind::DataChanged => r == Some(WatchEvent::FileModified { path: paths@[0] }),
            FsChangeKind::MetadataChanged => r == Some(
                WatchEvent::FileModified { path: paths@[0] },
            ),
            FsChangeKind::NameChanged => if paths@.len() >= 2 {
                r == Some(
                    WatchEvent::FileRenamed { old_path: paths@[0], new_path: paths@[1] },
                )
            } else {
                r == Some(WatchEvent::FileRemoved { path: paths@[0] })
            },
            FsChangeKind::Other => r is None,
        },
{
    if paths.len() == 0 {
        return None;
    }
    match kind {
        FsChangeKind::Created => {
            let path = paths.remove(0);
            Some(WatchEvent::FileAdded { path })
        }
        FsChangeKind::Removed => {
            let path = paths.remove(0);
            Some(WatchEvent::FileRemoved { path })
        }
        FsChangeKind::DataChanged => {
            let path = paths.remove(0);
            Some(WatchEvent::FileModified { path })
        }
        FsChangeKind::MetadataChanged => {
            let path = paths.remove(0);
            Some(WatchEvent::FileModified { path })
        }
        FsChangeKind::NameChanged => {
            if paths.len() >= 2 {
                let old_path = paths.remove(0);
                let new_path = paths.remove(0);
                Some(WatchEvent::FileRenamed { old_path, new_path })
            } else {
                let path = paths.remove(0);
                Some(WatchEvent::FileRemoved { path })
            }
        }
        FsChangeKind::Other => None,
    }
}

/// When the event worker flushes its queue: the batch is full, or the
/// debounce delay has passed since the last flush.
pub fn should_flush(queue_len: usize, batch_size: usize, elapsed_ms: u64, debounce_ms: u64) -> (r:
    bool)
    ensures
        r == (queue_len >= batch_size || elapsed_ms >= debounce_ms),
{
    queue_len >= batch_size || elapsed_ms >= debounce_ms
}

/// Work one batched event implies for the library.
#[derive(Debug, Clone)]
pub enum FileAction {
    ScanFile(String),
    RemoveFile(String),
    RefreshFile(String),
}

/// The actions one event implies: additions and modifications are scanned
/// or refreshed only under auto-scan, removals always apply, a rename is a
/// removal plus (under auto-scan) a scan of the new name; watcher errors
/// imply nothing.
pub open spec fn spec_actions_for(e: WatchEvent, auto_scan: bool) -> Seq<FileAction> {
    match e {
        WatchEvent::FileAdded { path } => if auto_scan {
            seq![FileAction::ScanFile(path)]
        } else {
            Seq::empty()
        },
        WatchEvent::FileRemoved { path } => seq![FileAction::RemoveFile(path)],
        WatchEvent::FileModified { path } => if auto_scan {
            seq![FileAction::RefreshFile(path)]
        } else {
            Seq::empty()
        },
        WatchEvent::FileRenamed { old_path, new_path } => if auto_scan {
            seq![FileAction::RemoveFile(old_path), FileAction::ScanFile(new_path)]
        } else {
            seq![FileAction::RemoveFile(old_path)]
        },
        WatchEvent::Error { .. } => Seq::empty(),
    }
}

/// The actions a whole batch implies, in order.
pub open spec fn spec_plan(events: Seq<WatchEvent>, auto_scan: bool) -> Seq<FileAction>
    decreases events.len(),
{
    if events.len() == 0 {
        Seq::empty()
    } else {
        spec_plan(events.drop_last(), auto_scan) + spec_actions_for(events.last(), auto_scan)
    }
}

/// Lay out the work a batch of events implies, in event order.
pub fn plan_event_actions(events: Vec<WatchEvent>, auto_scan: bool) -> (r: Vec<FileAction>)
    ensures
        r@ == spec_plan(events@, auto_scan),
{
    let ghost orig = events@;
    let mut events = events;
    let mut actions: Vec<FileAction> = Vec::new();
    let ghost mut k: int = 0;
    while events.len() > 0
        invariant
            0 <= k <= orig.len(),
            events@.len() == orig.len() - k,
            events@ == orig.skip(k),
            actions@ == spec_plan(orig.take(k), auto_scan),
        decreases events@.len(),
    {
        let e = events.remove(0);
        proof {
            assert(e == orig[k]);
            assert(events@ =~= orig.skip(k + 1));
            assert(orig.take(k + 1).drop_last() =~= orig.take(k));
            assert(orig.take(k + 1).last() == orig[k]);
        }
        match e {
            WatchEvent::FileAdded { path } => {
                if auto_scan {
                    actions.push(FileAction::ScanFile(path));
                }
            }
            WatchEvent::FileRemoved { path } => {
                actions.push(FileAction::RemoveFile(path));
            }
            WatchEvent::FileModified { path } => {
                if auto_scan {
                    actions.push(FileAction::RefreshFile(path));
                }
            }
            WatchEvent::FileRenamed { old_path, new_path } => {
                actions.push(FileAction::RemoveFile(old_path));
                if auto_scan {
                    actions.push(FileAction::ScanFile(new_path));
                }
            }
            WatchEvent::Error { .. } => {}
        }
        proof {
            k = k + 1;
            assert(actions@ =~= spec_plan(orig.take(k), auto_scan));
        }
    }
    proof {
        assert(orig.take(orig.len() as int) =~= orig);
    }
    actions
}

/// Counters over everything the watcher saw. The uptime is in nanoseconds.
#[derive(Debug, Clone)]
pub struct WatchStats {
    pub events_processed: u64,
    pub files_added: u64,
    pub files_removed: u64,
    pub files_modified: u64,
    pub files_renamed: u64,
    pub errors: u64,
    pub uptime_ns: u64,
}

pub struct WatchStatsCollector {
    pub events_processed: u64,
    pub files_added: u64,
    pub files_removed: u64,
    pub files_modified: u64,
    pub files_renamed: u64,
    pub errors: u64,
    pub start_ns: u64,
}

impl WatchStatsCollector {
    pub fn new_at(now_ns: u64) -> (r: Self)
        ensures
            r.events_processed == 0,
            r.files_added == 0,
            r.files_removed == 0,
            r.files_modified == 0,
            r.files_renamed == 0,
            r.errors == 0,
            r.start_ns == now_ns,
    {
        Self {
            events_processed: 0,
            files_added: 0,
            files_removed: 0,
            files_modified: 0,
            files_renamed: 0,
            errors: 0,
            start_ns: now_ns,
        }
    }

    pub fn new() -> (r: Self)
        ensures
            r.events_processed == 0,
            r.files_added == 0,
            r.files_removed == 0,
            r.files_modified == 0,
            r.files_renamed == 0,
            r.errors == 0,
    {
        let now = now_ns();
        Self::new_at(now)
    }

    /// Count one event under its kind.
    pub fn record_event(&mut self, event: &WatchEvent)
        requires
            old(self).events_processed < u64::MAX,
            old(self).files_added < u64::MAX,
            old(self).files_removed < u64::MAX,
            old(self).files_modified < u64::MAX,
            old(self).files_renamed < u64::MAX,
            old(self).errors < u64::MAX,
        ensures
            final(self).events_processed == old(self).events_processed + 1,
            final(self).files_added == old(self).files_added + (
                if event is FileAdded {
                    1int
                } else {
                    0int
                }
            ),
            final(self).files_removed == old(self).files_removed + (
                if event is FileRemoved {
                    1int
                } else {
                    0int
                }
            ),
            final(self).files_modified == old(self).files_modified + (
                if event is FileModified {
                    1int
                } else {
                    0int
                }
            ),
            final(self).files_renamed == old(self).files_renamed + (
                if event is FileRenamed {
                    1int
                } else {
                    0int
                }
            ),
            final(self).errors == old(self).errors + (
                if event is Error {
                    1int
                } else {
                    0int
                }
            ),
            final(self).start_ns == old(self).start_ns,
    {
        self.events_processed = self.events_processed + 1;
        match event {
            WatchEvent::FileAdded { .. } => {
                self.files_added = self.files_added + 1;
            }
            WatchEvent::FileRemoved { .. } => {
                self.files_removed = self.files_removed + 1;
            }
            WatchEvent::FileModified { .. } => {
                self.files_modified = self.files_modified + 1;
            }
            WatchEvent::FileRenamed { .. } => {
                self.files_renamed = self.files_renamed + 1;
            }
            WatchEvent::Error { .. } => {
                self.errors = self.errors + 1;
            }
        }
    }

    /// The counters, with the uptime judged at wall time `now_ns`.
    pub fn get_stats_at(&self, now_ns: u64) -> (r: WatchStats)
        ensures
            r.events_processed == self.events_processed,
            r.files_added == self.files_added,
            r.files_removed == self.files_removed,
            r.files_modified == self.files_modified,
            r.files_renamed == self.files_renamed,
            r.errors == self.errors,
            r.uptime_ns == if now_ns >= self.start_ns {
                now_ns - self.start_ns
            } else {
                0int
            },
    {
        WatchStats {
            events_processed: self.events_processed,
            files_added: self.files_added,
            files_removed: self.files_removed,
            files_modified: self.files_modified,
            files_renamed: self.files_renamed,
            errors: self.errors,
            uptime_ns: if now_ns >= self.start_ns {
                now_ns - self.start_ns
            } else {
                0
            },
        }
    }

    /// The counters, with the uptime against the wall clock now.
    pub fn get_stats(&self) -> (r: WatchStats)
        ensures
            r.events_processed == self.events_processed,
            r.files_added == self.files_added,
            r.files_removed == self.files_removed,
            r.files_modified == self.files_modified,
            r.files_renamed == self.files_renamed,
            r.errors == self.errors,
    {
        let now = now_ns();
        self.get_stats_at(now)
    }

    /// Zero every counter and restart the uptime.
    pub fn reset(&mut self)
        ensures
            final(self).events_processed == 0,
            final(self).files_added == 0,
            final(self).files_removed == 0,
            final(self).files_modified == 0,
            final(self).files_renamed == 0,
            final(self).errors == 0,
    {
        *self = Self::new();
    }
}

impl Default for WatchStatsCollector {
    fn default() -> (r: Self)
        ensures
            r.events_processed == 0,
            r.errors == 0,
    {
        WatchStatsCollector::new()
    }
}

} // verus!
