//! Errors that end or interrupt the download of one track.
use vstd::prelude::*;

verus! {

#[derive(Debug)]
pub enum DownloadError {
    /// The playback metadata could not be fetched.
    Metadata(String),
    /// A segment or whole-file fetch failed: timeout, non-success status or
    /// transport error, with its cause.
    Transfer(String),
    /// The playback metadata carried no manifest.
    NoManifest,
    /// A flat manifest listed no file location.
    NoUrls,
    /// A segmented manifest had no initialization segment.
    NoInitSegment,
    /// Reading, removing or writing a file failed.
    Storage(String),
}

impl DownloadError {
    /// Transient failures are retried and feed the rate-limit governor;
    /// structural and storage errors end the track at once.
    pub open spec fn spec_retryable(&self) -> bool {
        match self {
            DownloadError::Metadata(_) | DownloadError::Transfer(_) => true,
            _ => false,
        }
    }

    pub fn is_retryable(&self) -> (r: bool)
        ensures
            r == self.spec_retryable(),
    {
        match self {
            DownloadError::Metadata(_) | DownloadError::Transfer(_) => true,
            _ => false,
        }
    }
}

} // verus!
