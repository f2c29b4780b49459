//! One unit of scan identity and lifecycle.
//!
//! A [`FeroxScan`] records the target URL, whether the enumeration is a
//! recursive directory scan or a terminal file scan, completion state, and
//! the optional handles for the background task and the progress indicator.

use crate::progress::{ProgressBar, TaskHandle};
use vstd::prelude::*;
use vstd::string::*;

verus! {

/// Flags a [`FeroxScan`] as likely a directory or a file. Directory scans
/// are recursive and display-worthy; file scans are not.
#[derive(Clone, Copy, Debug, PartialEq, Eq, Structural)]
pub enum ScanType {
    File,
    Directory,
}

/// Scan-related state for a single target URL.
///
/// Holds everything needed to abort a currently running task and to
/// serialize scan state for resuming a run that was cut short.
#[derive(Debug)]
pub struct FeroxScan {
    /// Identifier that uniquely names this scan; assigned at creation,
    /// immutable, and the sole basis of record equality.
    pub id: String,
    /// The URL being enumerated; the natural dedup key at registry level.
    pub url: String,
    /// The type of scan.
    pub scan_type: ScanType,
    /// Whether this scan has completed.
    pub complete: bool,
    /// Handle to the spawned background task performing this scan.
    pub task: Option<TaskHandle>,
    /// The progress indicator associated with this scan.
    pub progress_bar: Option<ProgressBar>,
}

/// The value of a scan after `finish`: marked complete, with its progress
/// indicator (if any) finished and everything else untouched.
pub open spec fn finished_scan(s: FeroxScan) -> FeroxScan {
    FeroxScan {
        complete: true,
        progress_bar: match s.progress_bar {
            Some(b) => Some(ProgressBar { length: b.length, finished: true }),
            None => None,
        },
        ..s
    }
}

/// The value of a scan after `abort`: progress indicator stopped and
/// cancellation of the background task (if any) requested.
pub open spec fn aborted_scan(s: FeroxScan) -> FeroxScan {
    FeroxScan {
        task: match s.task {
            Some(_) => Some(TaskHandle { cancelled: true }),
            None => None,
        },
        progress_bar: match s.progress_bar {
            Some(b) => Some(ProgressBar { length: b.length, finished: true }),
            None => None,
        },
        ..s
    }
}

/// Status column of a scan's display line, padded to ten columns as the
/// interactive listing aligns it.
pub open spec fn status_text(complete: bool) -> Seq<char> {
    if complete {
        "complete  "@
    } else {
        "incomplete"@
    }
}

/// Display line of one scan: padded status followed by the URL.
pub open spec fn scan_line(complete: bool, url: Seq<char>) -> Seq<char> {
    status_text(complete) + " "@ + url
}

/// Relies on `uuid::Uuid::new_v4` and the `Simple` formatter: a fresh
/// random version-4 UUID rendered as 32 hexadecimal characters. The value
/// is random, so nothing is promised beyond its length.
#[verifier::external_body]
fn new_scan_id() -> (r: String)
    ensures
        r@.len() == 32,
{
    uuid::Uuid::new_v4().simple().to_string()
}

impl FeroxScan {
    /// A scan with a freshly assigned id and empty fields.
    fn default() -> (r: Self)
        ensures
            r.id@.len() == 32,
            r.url@ == Seq::<char>::empty(),
            r.scan_type == ScanType::File,
            !r.complete,
            r.task is None,
            r.progress_bar is None,
    {
        FeroxScan {
            id: new_scan_id(),
            task: None,
            complete: false,
            url: String::new(),
            progress_bar: None,
            scan_type: ScanType::File,
        }
    }

    /// Given a URL and an optional progress indicator, create a new scan
    /// with a fresh id. Pure allocation: no failure mode.
    pub fn new(url: &str, scan_type: ScanType, pb: Option<ProgressBar>) -> (r: Self)
        ensures
            r.id@.len() == 32,
            r.url@ == url@,
            r.scan_type == scan_type,
            !r.complete,
            r.task is None,
            r.progress_bar == pb,
    {
        let mut me = Self::default();
        me.url = url.to_owned();
        me.scan_type = scan_type;
        me.progress_bar = pb;
        me
    }

    /// Finish the scan's progress indicator, if it has one.
    fn stop_progress_bar(&mut self)
        ensures
            *final(self) == (FeroxScan {
                progress_bar: match old(self).progress_bar {
                    Some(b) => Some(ProgressBar { length: b.length, finished: true }),
                    None => None,
                },
                ..*old(self)
            }),
    {
        if let Some(pb) = &mut self.progress_bar {
            pb.finish();
        }
    }

    /// Mark the scan complete and stop its progress indicator. Idempotent:
    /// a second call leaves the record exactly as the first did.
    pub fn finish(&mut self)
        ensures
            *final(self) == finished_scan(*old(self)),
    {
        self.complete = true;
        self.stop_progress_bar();
    }

    /// Stop a currently running scan: finish the progress indicator and
    /// request cancellation of the background task, if one is attached.
    pub fn abort(&mut self)
        ensures
            *final(self) == aborted_scan(*old(self)),
    {
        self.stop_progress_bar();
        if let Some(task) = &mut self.task {
            task.cancel();
        }
    }

    /// The scan's progress indicator; lazily created, sized to the
    /// currently known total request count, if none exists yet.
    pub fn progress_bar(&mut self, num_requests: u64) -> (r: ProgressBar)
        ensures
            final(self).progress_bar == Some(r),
            old(self).progress_bar is Some ==> *final(self) == *old(self)
                && r == old(self).progress_bar.unwrap(),
            old(self).progress_bar is None ==> *final(self) == (FeroxScan {
                progress_bar: Some(ProgressBar { length: num_requests, finished: false }),
                ..*old(self)
            }) && r == (ProgressBar { length: num_requests, finished: false }),
    {
        if let Some(pb) = &self.progress_bar {
            *pb
        } else {
            let pb = ProgressBar::new(num_requests);
            self.progress_bar = Some(pb);
            pb
        }
    }

    /// The scan's display line: status column and URL, as the interactive
    /// listing shows it.
    pub fn display_line(&self) -> (r: String)
        ensures
            r@ == scan_line(self.complete, self.url@),
    {
        let mut line = if self.complete {
            String::from_str("complete  ")
        } else {
            String::from_str("incomplete")
        };
        line.append(" ");
        line.append(self.url.as_str());
        line
    }
}

impl Clone for FeroxScan {
    /// A field-for-field copy of the record, the shared id included.
    fn clone(&self) -> (r: Self)
        ensures
            r == *self,
    {
        FeroxScan {
            id: self.id.clone(),
            url: self.url.clone(),
            scan_type: self.scan_type,
            complete: self.complete,
            task: self.task,
            progress_bar: self.progress_bar,
        }
    }
}

impl PartialEq for FeroxScan {
    /// Two records are equal iff their `id` fields match, independent of
    /// URL, type, or completion state.
    fn eq(&self, other: &Self) -> (r: bool) {
        self.id == other.id
    }
}

impl vstd::std_specs::cmp::PartialEqSpecImpl for FeroxScan {
    open spec fn obeys_eq_spec() -> bool {
        true
    }

    open spec fn eq_spec(&self, other: &FeroxScan) -> bool {
        self.id@ == other.id@
    }
}

/// Finish idempotence: a second `finish` leaves the record exactly as the
/// first did — complete, with its progress indicator (if any) finished.
pub proof fn lemma_finish_idempotent(s: FeroxScan)
    ensures
        finished_scan(finished_scan(s)) == finished_scan(s),
        finished_scan(s).complete,
        finished_scan(s).progress_bar is Some ==> finished_scan(s).progress_bar.unwrap().finished,
{
}

/// Record equality is identity of the `id` field alone: two records with
/// equal ids compare equal whatever their URL, type, or completion state
/// says, and records with different ids never compare equal.
pub proof fn lemma_eq_is_id_only(a: FeroxScan, b: FeroxScan)
    ensures
        vstd::std_specs::cmp::PartialEqSpec::eq_spec(&a, &b) <==> a.id@ == b.id@,
{
}

} // verus!
