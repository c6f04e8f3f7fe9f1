//! The command line's settings, as plain values.
use vstd::prelude::*;
use crate::input::{MediaType, parse_tidal_input, spec_parse_input};

verus! {

/// Kind of media to download; `Auto` takes the kind that the input names.
#[derive(PartialEq, Eq, Structural, Clone, Copy, Debug)]
pub enum MediaTypeArg {
    Auto,
    Track,
    Album,
    Playlist,
}

/// Requested audio quality.
#[derive(PartialEq, Eq, Structural, Clone, Copy, Debug)]
pub enum QualityArg {
    Low,
    High,
    Lossless,
    HiRes,
}

pub open spec fn spec_resolve(arg: MediaTypeArg, detected: MediaType) -> MediaType {
    match arg {
        MediaTypeArg::Auto => detected,
        MediaTypeArg::Track => MediaType::Track,
        MediaTypeArg::Album => MediaType::Album,
        MediaTypeArg::Playlist => MediaType::Playlist,
    }
}

impl MediaTypeArg {
    /// The kind to download, given the kind detected from the input.
    pub fn resolve(self, detected: MediaType) -> (r: MediaType)
        ensures
            r == spec_resolve(self, detected),
    {
        match self {
            MediaTypeArg::Auto => detected,
            MediaTypeArg::Track => MediaType::Track,
            MediaTypeArg::Album => MediaType::Album,
            MediaTypeArg::Playlist => MediaType::Playlist,
        }
    }
}

pub struct Cli {
    /// Catalog URL or media id.
    pub id: String,
    pub media_type: MediaTypeArg,
    pub quality: QualityArg,
    /// Output directory.
    pub output: String,
    /// Most tracks fetched at once.
    pub parallel: usize,
    /// Authenticate again instead of loading the saved session.
    pub reauth: bool,
    pub session_file: String,
}

impl Cli {
    /// The id to download and its kind: the kind given on the command line,
    /// or else the one the input names.
    pub fn target(&self) -> (r: (String, MediaType))
        ensures
            r.0@ == spec_parse_input(self.id@).0,
            r.1 == spec_resolve(self.media_type, spec_parse_input(self.id@).1),
    {
        let (id, detected) = parse_tidal_input(self.id.as_str());
        (id, self.media_type.resolve(detected))
    }
}

} // verus!
