//! Playback manifests, as the catalog client parses them, and what the
//! download logic reads from them: the file extension and the way the
//! payload is transferred.
use vstd::prelude::*;
use tidlers::client::models::track::playback::{DashManifest, JsonTrackManifest, ParsedTrackManifest};
use crate::error::DownloadError;

verus! {

#[verifier::external_type_specification]
pub struct ExDashManifest(DashManifest);

#[verifier::external_type_specification]
pub struct ExJsonTrackManifest(JsonTrackManifest);

#[verifier::external_type_specification]
pub struct ExParsedTrackManifest(ParsedTrackManifest);

/// `s` holds `pat` as a contiguous run.
pub open spec fn has_infix(s: Seq<char>, pat: Seq<char>) -> bool {
    exists|i: int| 0 <= i <= s.len() - pat.len() && #[trigger] s.subrange(i, i + pat.len()) == pat
}

/// Relies on `str::contains` with a string pattern: true exactly when the
/// pattern occurs in the text.
#[verifier::external_body]
fn str_contains(s: &str, pat: &str) -> (r: bool)
    ensures
        r == has_infix(s@, pat@),
{
    s.contains(pat)
}

/// The location of the initialization segment: the explicit one, else the
/// first listed location.
pub open spec fn spec_init_url(d: DashManifest) -> Option<Seq<char>> {
    match d.initialization_url {
        Some(u) => Some(u@),
        None => if d.urls.len() > 0 { Some(d.urls@[0]@) } else { None },
    }
}

/// The media segment template: the explicit one, else the second listed
/// location.
pub open spec fn spec_media_template(d: DashManifest) -> Option<Seq<char>> {
    match d.media_url_template {
        Some(u) => Some(u@),
        None => if d.urls.len() > 1 { Some(d.urls@[1]@) } else { None },
    }
}

/// The template with its `$Number$` placeholder replaced by `n` in decimal.
pub uninterp spec fn numbered_url(template: Seq<char>, n: u32) -> Seq<char>;

/// Relies on `DashManifest::get_init_url`: the explicit initialization
/// location, else the first listed location.
#[verifier::external_body]
pub(crate) fn init_url(d: &DashManifest) -> (r: Option<String>)
    ensures
        r.is_some() == spec_init_url(*d).is_some(),
        r.is_some() ==> r.unwrap()@ == spec_init_url(*d).unwrap(),
{
    d.get_init_url().cloned()
}

/// Relies on `DashManifest::get_segment_url`: present exactly when the
/// manifest has a media template, and then the template numbered with `n`.
#[verifier::external_body]
pub(crate) fn segment_url(d: &DashManifest, n: u32) -> (r: Option<String>)
    ensures
        r.is_some() == spec_media_template(*d).is_some(),
        r.is_some() ==> r.unwrap()@ == numbered_url(spec_media_template(*d).unwrap(), n),
{
    d.get_segment_url(n)
}

/// File extensions that a track's file may have.
#[derive(PartialEq, Eq, Structural, Clone, Copy, Debug)]
pub enum AudioExt {
    Flac,
    M4a,
    Mp3,
}

pub open spec fn ext_text(e: AudioExt) -> Seq<char> {
    match e {
        AudioExt::Flac => "flac"@,
        AudioExt::M4a => "m4a"@,
        AudioExt::Mp3 => "mp3"@,
    }
}

impl AudioExt {
    pub fn as_str(&self) -> (r: &'static str)
        ensures
            r@ == ext_text(*self),
    {
        match self {
            AudioExt::Flac => "flac",
            AudioExt::M4a => "m4a",
            AudioExt::Mp3 => "mp3",
        }
    }
}

/// Segmented transfers are stored as FLAC; flat ones by their content type,
/// FLAC when it names FLAC and M4A otherwise.
pub open spec fn extension_of(m: Option<ParsedTrackManifest>) -> AudioExt {
    match m {
        Some(ParsedTrackManifest::Dash(_)) => AudioExt::Flac,
        Some(ParsedTrackManifest::Json(j)) => if has_infix(j.mime_type@, "flac"@) {
            AudioExt::Flac
        } else {
            AudioExt::M4a
        },
        None => AudioExt::M4a,
    }
}

pub fn get_file_extension(manifest: &Option<ParsedTrackManifest>) -> (r: AudioExt)
    ensures
        r == extension_of(*manifest),
{
    match manifest {
        Some(ParsedTrackManifest::Dash(_)) => AudioExt::Flac,
        Some(ParsedTrackManifest::Json(json)) => {
            if str_contains(json.mime_type.as_str(), "flac") {
                AudioExt::Flac
            } else {
                AudioExt::M4a
            }
        },
        None => AudioExt::M4a,
    }
}

/// How a track's payload is fetched.
pub enum Transfer<'a> {
    /// Init segment and numbered media segments of this manifest.
    Segmented(&'a DashManifest),
    /// One whole-file fetch of this location.
    Flat(String),
}

/// What happens to a track once its metadata is known: `Ok(None)` when
/// its file is already there (nothing is fetched), else the transfer to
/// make, or the structural error that ends the track.
pub fn plan_transfer<'a>(manifest: &'a Option<ParsedTrackManifest>, target_exists: bool) -> (r:
    Result<Option<Transfer<'a>>, DownloadError>)
    ensures
        target_exists ==> r == Ok::<Option<Transfer<'a>>, DownloadError>(None),
        !target_exists ==> match *manifest {
            None => r == Err::<Option<Transfer<'a>>, DownloadError>(DownloadError::NoManifest),
            Some(ParsedTrackManifest::Dash(d)) => r matches Ok(Some(Transfer::Segmented(t))) && *t
                == d,
            Some(ParsedTrackManifest::Json(j)) => if j.urls.len() > 0 {
                r matches Ok(Some(Transfer::Flat(u))) && u@ == j.urls@[0]@
            } else {
                r == Err::<Option<Transfer<'a>>, DownloadError>(DownloadError::NoUrls)
            },
        },
{
    if target_exists {
        return Ok(None);
    }
    match manifest {
        Some(ParsedTrackManifest::Dash(dash)) => Ok(Some(Transfer::Segmented(dash))),
        Some(ParsedTrackManifest::Json(json)) => {
            if json.urls.len() > 0 {
                Ok(Some(Transfer::Flat(json.urls[0].clone())))
            } else {
                Err(DownloadError::NoUrls)
            }
        },
        None => Err(DownloadError::NoManifest),
    }
}

} // verus!
