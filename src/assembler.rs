//! Rebuilds one track's payload from its transfer.
//!
//! A segmented transfer starts with the initialization segment, which must
//! be there, then asks for media segments 1, 2, ... one at a time. A failed
//! segment is skipped; `SEGMENT_FAILURE_LIMIT` failures in a row, or a
//! manifest that gives no location, mark the natural end of the stream. A
//! flat transfer accumulates the chunks of one whole-file body and reports
//! the bytes received so far after each one.
use vstd::prelude::*;
use tidlers::client::models::track::playback::DashManifest;
use crate::error::DownloadError;
use crate::manifest::{init_url, numbered_url, segment_url, spec_init_url, spec_media_template};

verus! {

/// Consecutive failed media segments taken as the end of the stream.
pub const SEGMENT_FAILURE_LIMIT: u32 = 3;

/// Outcome of one segment fetch.
pub enum FetchResult {
    Fetched(Vec<u8>),
    Failed(String),
}

/// Abstract state of a segmented transfer.
pub struct AssemblyModel {
    pub payload: Seq<u8>,
    pub next_segment: nat,
    pub failures: nat,
    pub finished: bool,
}

/// Effect of the outcome of the pending media segment.
pub open spec fn after_fetch(m: AssemblyModel, r: FetchResult) -> AssemblyModel {
    match r {
        FetchResult::Fetched(b) => AssemblyModel {
            payload: m.payload + b@,
            next_segment: if m.next_segment < u32::MAX { m.next_segment + 1 } else { m.next_segment },
            failures: 0,
            finished: m.next_segment >= u32::MAX,
        },
        FetchResult::Failed(_) => {
            let failures = m.failures + 1;
            if failures >= SEGMENT_FAILURE_LIMIT {
                AssemblyModel { failures, finished: true, ..m }
            } else {
                AssemblyModel {
                    next_segment: if m.next_segment < u32::MAX { m.next_segment + 1 } else { m.next_segment },
                    failures,
                    finished: m.next_segment >= u32::MAX,
                    ..m
                }
            }
        },
    }
}

/// Once a segment has arrived, `SEGMENT_FAILURE_LIMIT` failed segments in a
/// row end the stream and leave the payload as it was; a single failure
/// amid arriving segments is skipped: the next segment's bytes follow the
/// earlier ones and the failure count starts over.
pub proof fn lemma_failure_run(m: AssemblyModel, b: Vec<u8>, c1: String, c2: String, c3: String)
    requires
        !m.finished,
        m.failures == 0,
        m.next_segment + 3 <= u32::MAX,
    ensures
        ({
            let e = after_fetch(
                after_fetch(after_fetch(m, FetchResult::Failed(c1)), FetchResult::Failed(c2)),
                FetchResult::Failed(c3),
            );
            e.finished && e.payload == m.payload
        }),
        ({
            let e = after_fetch(after_fetch(m, FetchResult::Failed(c1)), FetchResult::Fetched(b));
            !e.finished && e.failures == 0 && e.payload == m.payload + b@ && e.next_segment
                == m.next_segment + 2
        }),
{
}

/// The location of the initialization segment, which a segmented transfer
/// cannot do without.
pub fn init_location(dash: &DashManifest) -> (r: Result<String, DownloadError>)
    ensures
        r is Ok <==> spec_init_url(*dash).is_some(),
        r matches Ok(u) ==> u@ == spec_init_url(*dash).unwrap(),
        r is Err ==> r == Err::<String, DownloadError>(DownloadError::NoInitSegment),
{
    match init_url(dash) {
        Some(u) => Ok(u),
        None => Err(DownloadError::NoInitSegment),
    }
}

pub struct SegmentAssembler {
    data: Vec<u8>,
    next_segment: u32,
    consecutive_failures: u32,
    finished: bool,
}

impl View for SegmentAssembler {
    type V = AssemblyModel;

    closed spec fn view(&self) -> AssemblyModel {
        AssemblyModel {
            payload: self.data@,
            next_segment: self.next_segment as nat,
            failures: self.consecutive_failures as nat,
            finished: self.finished,
        }
    }
}

impl SegmentAssembler {
    /// A running transfer has fewer failures in a row than the limit.
    pub open spec fn wf(&self) -> bool {
        self@.failures < SEGMENT_FAILURE_LIMIT || self@.finished
    }

    /// Starts from the outcome of the initialization segment: its bytes open
    /// the payload, and its failure fails the whole transfer.
    pub fn begin(init: FetchResult) -> (r: Result<SegmentAssembler, DownloadError>)
        ensures
            init matches FetchResult::Fetched(b) ==> (r matches Ok(a) && a.wf() && a@ == (
            AssemblyModel { payload: b@, next_segment: 1, failures: 0, finished: false })),
            init matches FetchResult::Failed(c) ==> (r matches Err(DownloadError::Transfer(e))
                && e@ == c@),
    {
        match init {
            FetchResult::Fetched(b) => Ok(
                SegmentAssembler { data: b, next_segment: 1, consecutive_failures: 0, finished: false },
            ),
            FetchResult::Failed(c) => Err(DownloadError::Transfer(c)),
        }
    }

    pub fn is_finished(&self) -> (r: bool)
        ensures
            r == self@.finished,
    {
        self.finished
    }

    /// The number and location of the next media segment to fetch, or
    /// `None` once the stream has ended; a manifest without a media
    /// template ends it.
    pub fn next_location(&mut self, dash: &DashManifest) -> (r: Option<(u32, String)>)
        requires
            old(self).wf(),
        ensures
            final(self).wf(),
            old(self)@.finished ==> r is None && final(self)@ == old(self)@,
            !old(self)@.finished && spec_media_template(*dash) is None ==> r is None
                && final(self)@ == (AssemblyModel { finished: true, ..old(self)@ }),
            !old(self)@.finished && spec_media_template(*dash) is Some ==> final(self)@ == old(
                self,
            )@ && (r matches Some((n, u)) && n as nat == old(self)@.next_segment && u@
                == numbered_url(spec_media_template(*dash).unwrap(), n)),
    {
        if self.finished {
            return None;
        }
        match segment_url(dash, self.next_segment) {
            Some(u) => Some((self.next_segment, u)),
            None => {
                self.finished = true;
                None
            },
        }
    }

    /// Records the outcome of the pending media segment.
    pub fn record(&mut self, r: FetchResult)
        requires
            old(self).wf(),
            !old(self)@.finished,
        ensures
            final(self).wf(),
            final(self)@ == after_fetch(old(self)@, r),
    {
        match r {
            FetchResult::Fetched(b) => {
                let mut b = b;
                self.data.append(&mut b);
                self.consecutive_failures = 0;
                if self.next_segment < u32::MAX {
                    self.next_segment = self.next_segment + 1;
                } else {
                    self.finished = true;
                }
            },
            FetchResult::Failed(_) => {
                self.consecutive_failures = self.consecutive_failures + 1;
                if self.consecutive_failures >= SEGMENT_FAILURE_LIMIT {
                    self.finished = true;
                } else if self.next_segment < u32::MAX {
                    self.next_segment = self.next_segment + 1;
                } else {
                    self.finished = true;
                }
            },
        }
    }

    /// The assembled payload.
    pub fn into_payload(self) -> (r: Vec<u8>)
        ensures
            r@ == self@.payload,
    {
        self.data
    }
}

/// A whole-file body received chunk by chunk.
pub struct FileTransfer {
    data: Vec<u8>,
    downloaded: u64,
}

impl FileTransfer {
    pub closed spec fn spec_data(&self) -> Seq<u8> {
        self.data@
    }

    pub closed spec fn spec_downloaded(&self) -> nat {
        self.downloaded as nat
    }

    /// The byte count always matches what was received.
    pub open spec fn wf(&self) -> bool {
        self.spec_downloaded() == self.spec_data().len()
    }

    pub fn new() -> (r: Self)
        ensures
            r.wf(),
            r.spec_data() == Seq::<u8>::empty(),
    {
        FileTransfer { data: Vec::new(), downloaded: 0 }
    }

    /// Appends one chunk and returns the cumulative bytes received, for
    /// progress reporting.
    pub fn on_chunk(&mut self, chunk: &[u8]) -> (r: u64)
        requires
            old(self).wf(),
            old(self).spec_data().len() + chunk@.len() <= u64::MAX,
        ensures
            final(self).wf(),
            final(self).spec_data() == old(self).spec_data() + chunk@,
            r as nat == final(self).spec_data().len(),
    {
        let mut i: usize = 0;
        let ghost start = self.data@;
        while i < chunk.len()
            invariant
                self.downloaded as nat == self.data@.len(),
                i <= chunk@.len(),
                self.data@ == start + chunk@.subrange(0, i as int),
                start.len() + chunk@.len() <= u64::MAX,
            decreases chunk@.len() - i,
        {
            self.data.push(chunk[i]);
            self.downloaded = self.downloaded + 1;
            i = i + 1;
            assert(chunk@.subrange(0, i as int) == chunk@.subrange(0, i - 1) + seq![chunk@[i - 1]]);
        }
        assert(chunk@.subrange(0, i as int) == chunk@);
        self.downloaded
    }

    pub fn downloaded(&self) -> (r: u64)
        ensures
            r as nat == self.spec_downloaded(),
    {
        self.downloaded
    }

    pub fn into_payload(self) -> (r: Vec<u8>)
        ensures
            r@ == self.spec_data(),
    {
        self.data
    }
}

} // verus!
