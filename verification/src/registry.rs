//! The deduplicated registries of known scans and known responses.
//!
//! [`FeroxScans`] holds the ordered collection of [`FeroxScan`] records and
//! enforces that no two entries share a URL; [`FeroxResponses`] holds the
//! completed response summaries used for resume and reporting. Sharing the
//! registries across concurrent workers, and the locking that guards that
//! sharing, live with whoever owns the worker pool; every operation here is
//! specified on the collection's plain contents.

use crate::codec::{chars_to_string, dec, pad3, push_index3, push_str_chars};
use crate::progress::ProgressBar;
use crate::scan::{scan_line, FeroxScan, ScanType};
use vstd::prelude::*;
use vstd::string::*;

verus! {

/// Whether some record in `ss` has the URL `url`.
pub open spec fn seq_contains_url(ss: Seq<FeroxScan>, url: Seq<char>) -> bool {
    exists|i: int| 0 <= i < ss.len() && ss[i].url@ == url
}

/// The registry's dedup invariant: no two entries share a URL.
pub open spec fn scans_dedup(ss: Seq<FeroxScan>) -> bool {
    forall|i: int, j: int| 0 <= i < j < ss.len() ==> ss[i].url@ != ss[j].url@
}

/// What one insert call does: the record is appended iff no entry with its
/// URL is present, and the flag reports whether it was.
pub open spec fn spec_insert(ss: Seq<FeroxScan>, scan: FeroxScan) -> (bool, Seq<FeroxScan>) {
    if seq_contains_url(ss, scan.url@) {
        (false, ss)
    } else {
        (true, ss.push(scan))
    }
}

/// One display line: the record's index in the registry padded to three
/// columns, a separator, and the record's status line.
pub open spec fn display_line_at(ss: Seq<FeroxScan>, i: int) -> Seq<char> {
    pad3(dec(i as nat)) + ": "@ + scan_line(ss[i].complete, ss[i].url@)
}

/// The display lines for the first `j` records: one line per
/// directory-typed record, file-typed records skipped.
pub open spec fn display_upto(ss: Seq<FeroxScan>, j: int) -> Seq<Seq<char>>
    decreases j,
{
    if j <= 0 {
        Seq::empty()
    } else {
        display_upto(ss, j - 1) + if ss[j - 1].scan_type == ScanType::Directory {
            seq![display_line_at(ss, j - 1)]
        } else {
            Seq::empty()
        }
    }
}

/// Ordered collection of [`FeroxScan`] records, deduplicated by URL.
#[derive(Debug)]
pub struct FeroxScans {
    /// The records, in insertion order.
    pub scans: Vec<FeroxScan>,
}

impl Default for FeroxScans {
    /// An empty registry.
    fn default() -> (r: Self)
        ensures
            r.scans@ == Seq::<FeroxScan>::empty(),
    {
        FeroxScans { scans: Vec::new() }
    }
}

impl FeroxScans {
    /// Add a record to the registry.
    ///
    /// Returns true and stores the record iff no existing entry has the
    /// same URL; returns false and leaves the registry unchanged otherwise.
    /// The dedup invariant is preserved either way.
    pub fn insert(&mut self, scan: FeroxScan) -> (r: bool)
        ensures
            (r, final(self).scans@) == spec_insert(old(self).scans@, scan),
            r == !seq_contains_url(old(self).scans@, scan.url@),
            scans_dedup(old(self).scans@) ==> scans_dedup(final(self).scans@),
    {
        let sentry = !self.contains(scan.url.as_str());
        if sentry {
            self.scans.push(scan);
        }
        sentry
    }

    /// Whether a record with the given URL is in the registry.
    pub fn contains(&self, url: &str) -> (r: bool)
        ensures
            r == seq_contains_url(self.scans@, url@),
    {
        let u: String = url.to_owned();
        let n = self.scans.len();
        let mut i: usize = 0;
        while i < n
            invariant
                u@ == url@,
                n == self.scans@.len(),
                i <= n,
                forall|k: int| 0 <= k < i ==> self.scans@[k].url@ != url@,
            decreases n - i,
        {
            if self.scans[i].url == u {
                return true;
            }
            i += 1;
        }
        false
    }

    /// Find a record by URL. Returns a copy of the first record whose URL
    /// matches, or nothing when no record does.
    pub fn get_scan_by_url(&self, url: &str) -> (r: Option<FeroxScan>)
        ensures
            match r {
                Some(s) => exists|i: int|
                    0 <= i < self.scans@.len() && self.scans@[i] == s && s.url@ == url@ && (
                    forall|k: int| 0 <= k < i ==> self.scans@[k].url@ != url@),
                None => !seq_contains_url(self.scans@, url@),
            },
    {
        let u: String = url.to_owned();
        let n = self.scans.len();
        let mut i: usize = 0;
        while i < n
            invariant
                u@ == url@,
                n == self.scans@.len(),
                i <= n,
                forall|k: int| 0 <= k < i ==> self.scans@[k].url@ != url@,
            decreases n - i,
        {
            if self.scans[i].url == u {
                return Some(self.scans[i].clone());
            }
            i += 1;
        }
        None
    }

    /// The display lines of every directory-typed record, in registry
    /// order: `{index}: {status} {url}`. File-typed records are skipped,
    /// as only directory scans are worth stopping interactively. Pure
    /// read; printing the lines is the caller's affair.
    pub fn display_scans(&self) -> (r: Vec<String>)
        ensures
            r@.map_values(|s: String| s@) == display_upto(self.scans@, self.scans@.len() as int),
    {
        let n = self.scans.len();
        let mut lines: Vec<String> = Vec::new();
        let mut i: usize = 0;
        while i < n
            invariant
                n == self.scans@.len(),
                i <= n,
                lines@.map_values(|s: String| s@) == display_upto(self.scans@, i as int),
            decreases n - i,
        {
            if matches!(self.scans[i].scan_type, ScanType::Directory) {
                let mut buf: Vec<char> = Vec::new();
                push_index3(&mut buf, i as u64);
                push_str_chars(&mut buf, ": ");
                let tail = self.scans[i].display_line();
                push_str_chars(&mut buf, tail.as_str());
                let line = chars_to_string(&buf);
                assert(line@ == display_line_at(self.scans@, i as int));
                lines.push(line);
            }
            proof {
                assert(lines@.map_values(|s: String| s@) =~= display_upto(
                    self.scans@,
                    i + 1,
                ));
            }
            i += 1;
        }
        lines
    }

    /// Build a new scan for `url` — directory scans get a progress
    /// indicator sized to the known total request count, file scans get
    /// none — and insert it. Returns whether the registry did not already
    /// hold the URL, together with the new record.
    pub fn add_scan(&mut self, url: &str, scan_type: ScanType, num_requests: u64) -> (r: (
        bool,
        FeroxScan,
    ))
        ensures
            (r.0, final(self).scans@) == spec_insert(old(self).scans@, r.1),
            r.0 == !seq_contains_url(old(self).scans@, url@),
            r.1.url@ == url@,
            r.1.scan_type == scan_type,
            !r.1.complete,
            r.1.task is None,
            r.1.id@.len() == 32,
            r.1.progress_bar == (match scan_type {
                ScanType::Directory => Some(ProgressBar { length: num_requests, finished: false }),
                ScanType::File => None::<ProgressBar>,
            }),
            scans_dedup(old(self).scans@) ==> scans_dedup(final(self).scans@),
    {
        let bar = match scan_type {
            ScanType::Directory => Some(ProgressBar::new(num_requests)),
            ScanType::File => None,
        };
        let ferox_scan = FeroxScan::new(url, scan_type, bar);
        let response = self.insert(ferox_scan.clone());
        (response, ferox_scan)
    }

    /// Build and insert a directory scan for `url`; see `add_scan`.
    pub fn add_directory_scan(&mut self, url: &str, num_requests: u64) -> (r: (bool, FeroxScan))
        ensures
            (r.0, final(self).scans@) == spec_insert(old(self).scans@, r.1),
            r.0 == !seq_contains_url(old(self).scans@, url@),
            r.1.url@ == url@,
            r.1.scan_type == ScanType::Directory,
            !r.1.complete,
            r.1.progress_bar == Some(ProgressBar { length: num_requests, finished: false }),
            scans_dedup(old(self).scans@) ==> scans_dedup(final(self).scans@),
    {
        self.add_scan(url, ScanType::Directory, num_requests)
    }

    /// Build and insert a file scan for `url`; see `add_scan`.
    pub fn add_file_scan(&mut self, url: &str, num_requests: u64) -> (r: (bool, FeroxScan))
        ensures
            (r.0, final(self).scans@) == spec_insert(old(self).scans@, r.1),
            r.0 == !seq_contains_url(old(self).scans@, url@),
            r.1.url@ == url@,
            r.1.scan_type == ScanType::File,
            !r.1.complete,
            r.1.progress_bar is None,
            scans_dedup(old(self).scans@) ==> scans_dedup(final(self).scans@),
    {
        self.add_scan(url, ScanType::File, num_requests)
    }
}

/// Dedup invariant, over any sequence of insert calls: an empty registry
/// satisfies the invariant, each insert preserves it, the first insert of a
/// URL reports true, and once a record with that URL is in, every later
/// insert of the same URL reports false and changes nothing.
pub proof fn lemma_registry_dedup(ss: Seq<FeroxScan>, a: FeroxScan, b: FeroxScan)
    requires
        scans_dedup(ss),
        a.url@ == b.url@,
    ensures
        scans_dedup(Seq::<FeroxScan>::empty()),
        scans_dedup(spec_insert(ss, a).1),
        spec_insert(ss, a).0 == !seq_contains_url(ss, a.url@),
        !spec_insert(spec_insert(ss, a).1, b).0,
        spec_insert(spec_insert(ss, a).1, b).1 == spec_insert(ss, a).1,
{
    let ss1 = spec_insert(ss, a).1;
    if !seq_contains_url(ss, a.url@) {
        assert(ss1[ss.len() as int] == a);
        assert(seq_contains_url(ss1, b.url@));
    } else {
        assert(seq_contains_url(ss1, b.url@));
    }
}

/// A completed HTTP interaction summary, immutable once recorded. Beyond
/// the URL — the dedup key — what the response layer produced stays with
/// that layer.
#[derive(Debug)]
pub struct FeroxResponse {
    /// The URL the interaction was made against.
    pub url: String,
}

impl Clone for FeroxResponse {
    /// A field-for-field copy of the summary.
    fn clone(&self) -> (r: Self)
        ensures
            r == *self,
    {
        FeroxResponse { url: self.url.clone() }
    }
}

/// Whether some stored response has the URL `url`.
pub open spec fn responses_contain_url(rs: Seq<FeroxResponse>, url: Seq<char>) -> bool {
    exists|i: int| 0 <= i < rs.len() && rs[i].url@ == url
}

/// Ordered collection of [`FeroxResponse`] summaries. Insertion is
/// append-only; callers that want URL dedup check `contains` first.
#[derive(Debug)]
pub struct FeroxResponses {
    /// The recorded responses, in insertion order.
    pub responses: Vec<FeroxResponse>,
}

impl Default for FeroxResponses {
    /// An empty registry.
    fn default() -> (r: Self)
        ensures
            r.responses@ == Seq::<FeroxResponse>::empty(),
    {
        FeroxResponses { responses: Vec::new() }
    }
}

impl FeroxResponses {
    /// Append a response unconditionally; no uniqueness is enforced here.
    pub fn insert(&mut self, response: FeroxResponse)
        ensures
            final(self).responses@ == old(self).responses@.push(response),
    {
        self.responses.push(response);
    }

    /// Whether some stored response has the same URL as `other`.
    pub fn contains(&self, other: &FeroxResponse) -> (r: bool)
        ensures
            r == responses_contain_url(self.responses@, other.url@),
    {
        let n = self.responses.len();
        let mut i: usize = 0;
        while i < n
            invariant
                n == self.responses@.len(),
                i <= n,
                forall|k: int| 0 <= k < i ==> self.responses@[k].url@ != other.url@,
            decreases n - i,
        {
            if self.responses[i].url == other.url {
                return true;
            }
            i += 1;
        }
        false
    }
}

} // verus!
