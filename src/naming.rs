//! Names of the files and directories that a batch writes.
//!
//! A track is stored as `"<ordinal:03> - <sanitized title>.<ext>"`; an
//! album in `"<artist> - <title>"` and a playlist in `"<title>-playlist"`,
//! both sanitized.
use vstd::prelude::*;
use tidlers::client::models::track::playback::ParsedTrackManifest;
use crate::manifest::{AudioExt, ext_text, extension_of, get_file_extension};

verus! {

/// What the file-name sanitizer makes of a name.
pub uninterp spec fn sanitized(name: Seq<char>) -> Seq<char>;

/// Relies on `sanitize_filename::sanitize`: the name with the characters
/// that file systems refuse taken out.
#[verifier::external_body]
fn sanitize(name: &str) -> (r: String)
    ensures
        r@ == sanitized(name@),
{
    sanitize_filename::sanitize(name)
}

pub open spec fn digit_char(d: nat) -> char {
    if d == 0 { '0' }
    else if d == 1 { '1' }
    else if d == 2 { '2' }
    else if d == 3 { '3' }
    else if d == 4 { '4' }
    else if d == 5 { '5' }
    else if d == 6 { '6' }
    else if d == 7 { '7' }
    else if d == 8 { '8' }
    else { '9' }
}

/// Decimal digits of `n`, without leading zeros.
pub open spec fn decimal(n: nat) -> Seq<char>
    decreases n,
{
    if n < 10 {
        seq![digit_char(n)]
    } else {
        decimal(n / 10).push(digit_char(n % 10))
    }
}

/// Decimal digits of `n`, with zeros in front up to `width` characters.
pub open spec fn zero_padded(n: nat, width: nat) -> Seq<char> {
    let d = decimal(n);
    if d.len() >= width {
        d
    } else {
        Seq::new((width - d.len()) as nat, |i: int| '0') + d
    }
}

/// Relies on the `{:03}` format of `u32`: the decimal digits, zero-padded
/// to three characters.
#[verifier::external_body]
fn three_digits(n: u32) -> (r: String)
    ensures
        r@ == zero_padded(n as nat, 3),
{
    format!("{:03}", n)
}

/// `"<number:03> - <sanitized title>"`.
pub open spec fn base_name_of(number: u32, title: Seq<char>) -> Seq<char> {
    zero_padded(number as nat, 3) + " - "@ + sanitized(title)
}

pub open spec fn file_name_of(base: Seq<char>, ext: AudioExt) -> Seq<char> {
    base + "."@ + ext_text(ext)
}

/// The extensions other than `e`, in the order in which leftovers are
/// looked for.
pub open spec fn other_exts(e: AudioExt) -> Seq<AudioExt> {
    match e {
        AudioExt::M4a => seq![AudioExt::Flac, AudioExt::Mp3],
        AudioExt::Flac => seq![AudioExt::M4a, AudioExt::Mp3],
        AudioExt::Mp3 => seq![AudioExt::M4a, AudioExt::Flac],
    }
}

/// `"<number:03> - <clean_title>"`, for a title that is already sanitized.
pub fn numbered_name(number: u32, clean_title: &str) -> (r: String)
    ensures
        r@ == zero_padded(number as nat, 3) + " - "@ + clean_title@,
{
    let s = three_digits(number);
    let s = s.concat(" - ");
    s.concat(clean_title)
}

pub fn track_base_name(number: u32, title: &str) -> (r: String)
    ensures
        r@ == base_name_of(number, title@),
{
    let t = sanitize(title);
    numbered_name(number, t.as_str())
}

pub fn file_name(base: &str, ext: AudioExt) -> (r: String)
    ensures
        r@ == file_name_of(base@, ext),
{
    let s = String::from_str(base);
    let s = s.concat(".");
    s.concat(ext.as_str())
}

/// The file a track is stored in, and the files of the same track in the
/// other formats, which a new download replaces.
pub struct TrackFiles {
    pub target: String,
    pub stale: Vec<String>,
}

/// Names the files of track `number` titled `title`, given its manifest.
pub fn track_files(manifest: &Option<ParsedTrackManifest>, number: u32, title: &str) -> (r:
    TrackFiles)
    ensures
        r.target@ == file_name_of(base_name_of(number, title@), extension_of(*manifest)),
        r.stale@.len() == other_exts(extension_of(*manifest)).len(),
        forall|i: int|
            0 <= i < r.stale@.len() ==> #[trigger] r.stale@[i]@ == file_name_of(
                base_name_of(number, title@),
                other_exts(extension_of(*manifest))[i],
            ),
{
    let ext = get_file_extension(manifest);
    let base = track_base_name(number, title);
    let target = file_name(base.as_str(), ext);
    let (a, b) = match ext {
        AudioExt::M4a => (AudioExt::Flac, AudioExt::Mp3),
        AudioExt::Flac => (AudioExt::M4a, AudioExt::Mp3),
        AudioExt::Mp3 => (AudioExt::M4a, AudioExt::Flac),
    };
    let mut stale: Vec<String> = Vec::new();
    stale.push(file_name(base.as_str(), a));
    stale.push(file_name(base.as_str(), b));
    TrackFiles { target, stale }
}

/// The ordinal in a track's file name: its 1-based position for a
/// playlist, its catalog track number for an album.
pub fn track_number(use_position: bool, index: usize, catalog_number: u32) -> (r: u32)
    requires
        use_position ==> index < u32::MAX,
    ensures
        use_position ==> r == index + 1,
        !use_position ==> r == catalog_number,
{
    if use_position {
        (index + 1) as u32
    } else {
        catalog_number
    }
}

/// Directory of an album: `"<artist> - <title>"`, sanitized.
pub fn album_dir_name(artist: &str, title: &str) -> (r: String)
    ensures
        r@ == sanitized(artist@ + " - "@ + title@),
{
    let s = String::from_str(artist);
    let s = s.concat(" - ");
    let s = s.concat(title);
    sanitize(s.as_str())
}

/// Directory of a playlist: `"<title>-playlist"`, sanitized.
pub fn playlist_dir_name(title: &str) -> (r: String)
    ensures
        r@ == sanitized(title@ + "-playlist"@),
{
    let s = String::from_str(title);
    let s = s.concat("-playlist");
    sanitize(s.as_str())
}

} // verus!
