//! Track metadata: the fields a player shows, and how the tags of each file
//! format fill them.
//!
//! Reading a file is left to the caller, who hands over what the file's tags
//! hold as plain values; the functions here decide which tag fills which
//! field.

use vstd::prelude::*;

use crate::errors::AudioError;
use crate::numparse::{parse_u32, parsed_u32};
use crate::paths::{path_extension_facts, extension_of, lowercase_of, path_extension, to_lowercase, to_uppercase, uppercase_of};
use crate::tags::TagMap;
use crate::text::{all_ascii, ascii_lower, str_eq};
use crate::time::Duration;

verus! {

/// Types of embedded artwork.
#[derive(Debug, Clone, PartialEq, Eq)]
pub enum ArtworkType {
    FrontCover,
    BackCover,
    LeafletPage,
    Media,
    LeadArtist,
    Artist,
    Conductor,
    Band,
    Composer,
    Lyricist,
    RecordingLocation,
    DuringRecording,
    DuringPerformance,
    MovieScreenCapture,
    ColouredFish,
    Illustration,
    BandLogotype,
    PublisherLogotype,
    Other(String),
}

/// Album artwork information.
#[derive(Debug, Clone)]
pub struct ArtworkInfo {
    pub mime_type: String,
    pub description: Option<String>,
    pub artwork_type: ArtworkType,
    pub width: Option<u32>,
    pub height: Option<u32>,
    pub data: Vec<u8>,
}

/// Comprehensive audio track metadata.
#[derive(Debug, Clone)]
pub struct TrackMetadata {
    pub title: Option<String>,
    pub artist: Option<String>,
    pub album: Option<String>,
    pub album_artist: Option<String>,
    pub year: Option<u32>,
    pub track_number: Option<u32>,
    pub track_total: Option<u32>,
    pub disc_number: Option<u32>,
    pub disc_total: Option<u32>,
    pub genre: Option<String>,
    pub composer: Option<String>,
    pub performer: Option<String>,
    pub conductor: Option<String>,
    pub comment: Option<String>,
    pub duration: Option<Duration>,
    pub bitrate: Option<u32>,
    pub sample_rate: Option<u32>,
    pub channels: Option<u16>,
    pub bit_depth: Option<u16>,
    pub file_size: Option<u64>,
    pub format: Option<String>,
    pub encoding: Option<String>,
    pub artwork: Option<ArtworkInfo>,
    pub custom_tags: TagMap,
}

/// The text fields of track metadata as text, with the other fields.
pub ghost struct MetadataView {
    pub title: Option<Seq<char>>,
    pub artist: Option<Seq<char>>,
    pub album: Option<Seq<char>>,
    pub album_artist: Option<Seq<char>>,
    pub year: Option<u32>,
    pub track_number: Option<u32>,
    pub track_total: Option<u32>,
    pub disc_number: Option<u32>,
    pub disc_total: Option<u32>,
    pub genre: Option<Seq<char>>,
    pub composer: Option<Seq<char>>,
    pub performer: Option<Seq<char>>,
    pub conductor: Option<Seq<char>>,
    pub comment: Option<Seq<char>>,
    pub duration: Option<Duration>,
    pub bitrate: Option<u32>,
    pub sample_rate: Option<u32>,
    pub channels: Option<u16>,
    pub bit_depth: Option<u16>,
    pub file_size: Option<u64>,
    pub format: Option<Seq<char>>,
    pub encoding: Option<Seq<char>>,
    pub custom_tags: Map<Seq<char>, Seq<char>>,
}

/// A text field as text.
pub open spec fn text_opt(o: Option<String>) -> Option<Seq<char>> {
    match o {
        Some(s) => Some(s@),
        None => None,
    }
}

impl View for TrackMetadata {
    type V = MetadataView;

    open spec fn view(&self) -> MetadataView {
        MetadataView {
            title: text_opt(self.title),
            artist: text_opt(self.artist),
            album: text_opt(self.album),
            album_artist: text_opt(self.album_artist),
            year: self.year,
            track_number: self.track_number,
            track_total: self.track_total,
            disc_number: self.disc_number,
            disc_total: self.disc_total,
            genre: text_opt(self.genre),
            composer: text_opt(self.composer),
            performer: text_opt(self.performer),
            conductor: text_opt(self.conductor),
            comment: text_opt(self.comment),
            duration: self.duration,
            bitrate: self.bitrate,
            sample_rate: self.sample_rate,
            channels: self.channels,
            bit_depth: self.bit_depth,
            file_size: self.file_size,
            format: text_opt(self.format),
            encoding: text_opt(self.encoding),
            custom_tags: self.custom_tags@,
        }
    }
}

/// Metadata with no field known and no tags.
pub open spec fn empty_metadata() -> MetadataView {
    MetadataView {
        title: None,
        artist: None,
        album: None,
        album_artist: None,
        year: None,
        track_number: None,
        track_total: None,
        disc_number: None,
        disc_total: None,
        genre: None,
        composer: None,
        performer: None,
        conductor: None,
        comment: None,
        duration: None,
        bitrate: None,
        sample_rate: None,
        channels: None,
        bit_depth: None,
        file_size: None,
        format: None,
        encoding: None,
        custom_tags: Map::empty(),
    }
}

impl Default for TrackMetadata {
    fn default() -> (m: TrackMetadata)
        ensures
            m@ == empty_metadata(),
            m.artwork is None,
            m.custom_tags.wf(),
    {
        TrackMetadata {
            title: None,
            artist: None,
            album: None,
            album_artist: None,
            year: None,
            track_number: None,
            track_total: None,
            disc_number: None,
            disc_total: None,
            genre: None,
            composer: None,
            performer: None,
            conductor: None,
            comment: None,
            duration: None,
            bitrate: None,
            sample_rate: None,
            channels: None,
            bit_depth: None,
            file_size: None,
            format: None,
            encoding: None,
            artwork: None,
            custom_tags: TagMap::new(),
        }
    }
}

/// An embedded picture as read from a file.
#[derive(Debug, Clone)]
pub struct PictureData {
    pub mime_type: String,
    pub description: String,
    /// The picture type code of the APIC frame or PICTURE block (3 for the
    /// front cover, 4 for the back cover, ...).
    pub type_code: u8,
    pub width: u32,
    pub height: u32,
    pub data: Vec<u8>,
}

/// The artwork type that an ID3 picture type code names.
pub open spec fn is_id3_artwork_type(code: u8, t: ArtworkType) -> bool {
    if code == 3 {
        t == ArtworkType::FrontCover
    } else if code == 4 {
        t == ArtworkType::BackCover
    } else if code == 5 {
        t == ArtworkType::LeafletPage
    } else if code == 6 {
        t == ArtworkType::Media
    } else if code == 7 {
        t == ArtworkType::LeadArtist
    } else if code == 8 {
        t == ArtworkType::Artist
    } else if code == 9 {
        t == ArtworkType::Conductor
    } else if code == 10 {
        t == ArtworkType::Band
    } else if code == 11 {
        t == ArtworkType::Composer
    } else if code == 12 {
        t == ArtworkType::Lyricist
    } else if code == 13 {
        t == ArtworkType::RecordingLocation
    } else if code == 14 {
        t == ArtworkType::DuringRecording
    } else if code == 15 {
        t == ArtworkType::DuringPerformance
    } else if code == 16 {
        t == ArtworkType::MovieScreenCapture
    } else if code == 17 {
        t == ArtworkType::ColouredFish
    } else if code == 18 {
        t == ArtworkType::Illustration
    } else if code == 19 {
        t == ArtworkType::BandLogotype
    } else if code == 20 {
        t == ArtworkType::PublisherLogotype
    } else {
        t matches ArtworkType::Other(s) && s@ == "Unknown"@
    }
}

/// The artwork type that a FLAC picture type code names: as for ID3, except
/// that leaflet pages, screen captures and coloured fish are not told apart
/// and count as unknown.
pub open spec fn is_flac_artwork_type(code: u8, t: ArtworkType) -> bool {
    if code == 5 || code == 16 || code == 17 {
        t matches ArtworkType::Other(s) && s@ == "Unknown"@
    } else {
        is_id3_artwork_type(code, t)
    }
}

/// The artwork that an ID3 picture gives.
pub open spec fn is_id3_artwork(p: PictureData, a: ArtworkInfo) -> bool {
    &&& a.mime_type@ == p.mime_type@
    &&& text_opt(a.description) == Some(p.description@)
    &&& is_id3_artwork_type(p.type_code, a.artwork_type)
    &&& a.width is None
    &&& a.height is None
    &&& a.data@ == p.data@
}

/// The artwork that a FLAC picture gives.
pub open spec fn is_flac_artwork(p: PictureData, a: ArtworkInfo) -> bool {
    &&& a.mime_type@ == p.mime_type@
    &&& text_opt(a.description) == Some(p.description@)
    &&& is_flac_artwork_type(p.type_code, a.artwork_type)
    &&& a.width == Some(p.width)
    &&& a.height == Some(p.height)
    &&& a.data@ == p.data@
}

/// A frame of an ID3 tag: its four-character id and its text, where the
/// frame holds text.
#[derive(Debug, Clone)]
pub struct Id3Frame {
    pub id: String,
    pub text: Option<String>,
}

/// What an ID3 tag holds, as read from an MP3 file, with the file's size.
#[derive(Debug, Clone)]
pub struct Id3Tag {
    pub title: Option<String>,
    pub artist: Option<String>,
    pub album: Option<String>,
    pub album_artist: Option<String>,
    pub year: Option<i32>,
    pub track: Option<u32>,
    pub total_tracks: Option<u32>,
    pub disc: Option<u32>,
    pub total_discs: Option<u32>,
    pub genre: Option<String>,
    pub frames: Vec<Id3Frame>,
    /// The first picture of the tag, if any.
    pub picture: Option<PictureData>,
    pub file_size: u64,
}

/// One ID3 frame applied to metadata: composer (`TCOM`), conductor (`TPE3`),
/// performer (`TPE4`) and comment (`COMM`) take the frame's text; any other
/// frame with text becomes a custom tag under its id.
pub open spec fn apply_id3_frame(m: MetadataView, f: Id3Frame) -> MetadataView {
    if f.id@ == "TCOM"@ {
        MetadataView { composer: text_opt(f.text), ..m }
    } else if f.id@ == "TPE3"@ {
        MetadataView { conductor: text_opt(f.text), ..m }
    } else if f.id@ == "TPE4"@ {
        MetadataView { performer: text_opt(f.text), ..m }
    } else if f.id@ == "COMM"@ {
        MetadataView { comment: text_opt(f.text), ..m }
    } else {
        match f.text {
            Some(t) => MetadataView { custom_tags: m.custom_tags.insert(f.id@, t@), ..m },
            None => m,
        }
    }
}

/// ID3 frames applied in order.
pub open spec fn apply_id3_frames(m: MetadataView, frames: Seq<Id3Frame>) -> MetadataView
    decreases frames.len(),
{
    if frames.len() == 0 {
        m
    } else {
        apply_id3_frame(apply_id3_frames(m, frames.drop_last()), frames.last())
    }
}

/// The year of an ID3 tag, reinterpreted as unsigned.
pub open spec fn id3_year(y: Option<i32>) -> Option<u32> {
    match y {
        Some(v) => Some(v as u32),
        None => None,
    }
}

/// The metadata an ID3 tag gives.
pub open spec fn id3_metadata(tag: Id3Tag) -> MetadataView {
    let base = MetadataView {
        title: text_opt(tag.title),
        artist: text_opt(tag.artist),
        album: text_opt(tag.album),
        album_artist: text_opt(tag.album_artist),
        year: id3_year(tag.year),
        track_number: tag.track,
        track_total: tag.total_tracks,
        disc_number: tag.disc,
        disc_total: tag.total_discs,
        genre: text_opt(tag.genre),
        ..empty_metadata()
    };
    MetadataView {
        file_size: Some(tag.file_size),
        format: Some("MP3"@),
        ..apply_id3_frames(base, tag.frames@)
    }
}

/// One Vorbis comment of a FLAC file applied to metadata, by its first
/// value and its key in upper case: the standard keys fill their fields
/// (numbers read as unsigned integers, an unreadable number clearing the
/// field), and any other key becomes a custom tag under the key as written.
pub open spec fn apply_flac_comment(m: MetadataView, c: (String, Vec<String>)) -> MetadataView {
    if c.1@.len() == 0 {
        m
    } else {
        let v = c.1@[0]@;
        let k = uppercase_of(c.0@);
        if k == "TITLE"@ {
            MetadataView { title: Some(v), ..m }
        } else if k == "ARTIST"@ {
            MetadataView { artist: Some(v), ..m }
        } else if k == "ALBUM"@ {
            MetadataView { album: Some(v), ..m }
        } else if k == "ALBUMARTIST"@ {
            MetadataView { album_artist: Some(v), ..m }
        } else if k == "DATE"@ || k == "YEAR"@ {
            MetadataView { year: parsed_u32(v), ..m }
        } else if k == "TRACKNUMBER"@ {
            MetadataView { track_number: parsed_u32(v), ..m }
        } else if k == "TRACKTOTAL"@ {
            MetadataView { track_total: parsed_u32(v), ..m }
        } else if k == "DISCNUMBER"@ {
            MetadataView { disc_number: parsed_u32(v), ..m }
        } else if k == "DISCTOTAL"@ {
            MetadataView { disc_total: parsed_u32(v), ..m }
        } else if k == "GENRE"@ {
            MetadataView { genre: Some(v), ..m }
        } else if k == "COMPOSER"@ {
            MetadataView { composer: Some(v), ..m }
        } else if k == "PERFORMER"@ {
            MetadataView { performer: Some(v), ..m }
        } else if k == "CONDUCTOR"@ {
            MetadataView { conductor: Some(v), ..m }
        } else if k == "COMMENT"@ {
            MetadataView { comment: Some(v), ..m }
        } else {
            MetadataView { custom_tags: m.custom_tags.insert(c.0@, v), ..m }
        }
    }
}

/// Vorbis comments applied in order.
pub open spec fn apply_flac_comments(m: MetadataView, cs: Seq<(String, Vec<String>)>) -> MetadataView
    decreases cs.len(),
{
    if cs.len() == 0 {
        m
    } else {
        apply_flac_comment(apply_flac_comments(m, cs.drop_last()), cs.last())
    }
}

/// The STREAMINFO block of a FLAC file.
#[derive(Debug, Clone, Copy)]
pub struct FlacStreamInfo {
    pub sample_rate: u32,
    pub num_channels: u8,
    pub bits_per_sample: u8,
    pub total_samples: u64,
    /// The length of the stream as the caller computes it from the sample
    /// count and the sample rate; it is the track's duration where the
    /// sample count is not zero.
    pub length: Duration,
}

/// The metadata a FLAC file gives.
pub open spec fn flac_metadata(
    comments: Seq<(String, Vec<String>)>,
    stream: Option<FlacStreamInfo>,
    file_size: u64,
) -> MetadataView {
    let m = apply_flac_comments(empty_metadata(), comments);
    let m = match stream {
        Some(si) => MetadataView {
            sample_rate: Some(si.sample_rate),
            channels: Some(si.num_channels as u16),
            bit_depth: Some(si.bits_per_sample as u16),
            duration: if si.total_samples > 0 {
                Some(si.length)
            } else {
                m.duration
            },
            ..m
        },
        None => m,
    };
    MetadataView {
        file_size: Some(file_size),
        format: Some("FLAC"@),
        encoding: Some("Lossless"@),
        ..m
    }
}

/// The format header of a WAV file.
#[derive(Debug, Clone, Copy)]
pub struct WavSpec {
    pub sample_rate: u32,
    pub channels: u16,
    pub bits_per_sample: u16,
}

/// The metadata a WAV file gives: its format, the length the caller
/// computed, and the bit rate as the product of rate, channels and bits.
pub open spec fn wav_metadata(spec: WavSpec, length: Duration, file_size: u64) -> MetadataView {
    MetadataView {
        sample_rate: Some(spec.sample_rate),
        channels: Some(spec.channels),
        bit_depth: Some(spec.bits_per_sample),
        duration: Some(length),
        file_size: Some(file_size),
        format: Some("WAV"@),
        encoding: Some("PCM"@),
        bitrate: Some((spec.sample_rate * spec.channels * spec.bits_per_sample) as u32),
        ..empty_metadata()
    }
}

/// One tag of a container read by a generic probe applied to metadata, by
/// its key as written: title, artist, album, date (as year), track and
/// genre fill their fields; any other key becomes a custom tag.
pub open spec fn apply_generic_tag(m: MetadataView, t: (String, String)) -> MetadataView {
    let k = t.0@;
    let v = t.1@;
    if k == "TITLE"@ {
        MetadataView { title: Some(v), ..m }
    } else if k == "ARTIST"@ {
        MetadataView { artist: Some(v), ..m }
    } else if k == "ALBUM"@ {
        MetadataView { album: Some(v), ..m }
    } else if k == "DATE"@ {
        MetadataView { year: parsed_u32(v), ..m }
    } else if k == "TRACK"@ {
        MetadataView { track_number: parsed_u32(v), ..m }
    } else if k == "GENRE"@ {
        MetadataView { genre: Some(v), ..m }
    } else {
        MetadataView { custom_tags: m.custom_tags.insert(k, v), ..m }
    }
}

/// Generic tags applied in order.
pub open spec fn apply_generic_tags(m: MetadataView, ts: Seq<(String, String)>) -> MetadataView
    decreases ts.len(),
{
    if ts.len() == 0 {
        m
    } else {
        apply_generic_tag(apply_generic_tags(m, ts.drop_last()), ts.last())
    }
}

/// Which reader extracts the metadata of a file.
#[derive(Debug, Clone, Copy, PartialEq, Eq, Structural)]
pub enum MetadataSource {
    /// ID3 tags of an MP3 file.
    Mp3,
    /// Vorbis comments and STREAMINFO of a FLAC file.
    Flac,
    /// The format header of a WAV file.
    Wav,
    /// An OGG file, for which no metadata is read.
    Ogg,
    /// An M4A or AAC file, for which no metadata is read.
    M4a,
    /// Any other file, read by a generic probe.
    Generic,
}

/// The reader for a lower-case extension.
pub open spec fn source_for_extension(lower: Seq<char>) -> MetadataSource {
    if lower == "mp3"@ {
        MetadataSource::Mp3
    } else if lower == "flac"@ {
        MetadataSource::Flac
    } else if lower == "wav"@ {
        MetadataSource::Wav
    } else if lower == "ogg"@ {
        MetadataSource::Ogg
    } else if lower == "m4a"@ || lower == "aac"@ {
        MetadataSource::M4a
    } else {
        MetadataSource::Generic
    }
}

/// Metadata extraction engine.
pub struct MetadataExtractor;

/// Copies an optional text.
fn clone_text(o: &Option<String>) -> (r: Option<String>)
    ensures
        text_opt(r) == text_opt(*o),
{
    match o {
        Some(s) => Some(s.clone()),
        None => None,
    }
}

impl MetadataExtractor {
    /// The reader for an extension, compared without regard to case.
    pub fn source_for_ext(ext: &str) -> (r: MetadataSource)
        ensures
            r == source_for_extension(lowercase_of(ext@)),
            all_ascii(ext@) ==> r == source_for_extension(ascii_lower(ext@)),
            all_ascii(ext@) ==> lowercase_of(ext@) == ascii_lower(ext@),
    {
        let lower = to_lowercase(ext);
        let l = lower.as_str();
        if str_eq(l, "mp3") {
            MetadataSource::Mp3
        } else if str_eq(l, "flac") {
            MetadataSource::Flac
        } else if str_eq(l, "wav") {
            MetadataSource::Wav
        } else if str_eq(l, "ogg") {
            MetadataSource::Ogg
        } else if str_eq(l, "m4a") || str_eq(l, "aac") {
            MetadataSource::M4a
        } else {
            MetadataSource::Generic
        }
    }

    /// The reader for a file, chosen by its extension compared without
    /// regard to case; a file without extension goes to the generic probe.
    pub fn source_for(path: &str) -> (r: MetadataSource)
        ensures
            r == match extension_of(path@) {
                Some(e) => source_for_extension(lowercase_of(e)),
                None => MetadataSource::Generic,
            },
            path_extension_facts(path@),
    {
        match path_extension(path) {
            Some(e) => MetadataExtractor::source_for_ext(e.as_str()),
            None => MetadataSource::Generic,
        }
    }

    /// OGG Vorbis metadata: none is read, so the result is empty metadata.
    pub fn extract_ogg_metadata(path: &str) -> (r: Result<TrackMetadata, AudioError>)
        ensures
            r matches Ok(m) && m@ == empty_metadata() && m.artwork is None && m.custom_tags.wf(),
    {
        Ok(TrackMetadata::default())
    }

    /// M4A/AAC metadata: none is read, so the result is empty metadata.
    pub fn extract_m4a_metadata(path: &str) -> (r: Result<TrackMetadata, AudioError>)
        ensures
            r matches Ok(m) && m@ == empty_metadata() && m.artwork is None && m.custom_tags.wf(),
    {
        Ok(TrackMetadata::default())
    }

    /// The artwork type of an ID3 picture type code.
    pub fn convert_id3_picture_type(code: u8) -> (t: ArtworkType)
        ensures
            is_id3_artwork_type(code, t),
    {
        match code {
            3 => ArtworkType::FrontCover,
            4 => ArtworkType::BackCover,
            5 => ArtworkType::LeafletPage,
            6 => ArtworkType::Media,
            7 => ArtworkType::LeadArtist,
            8 => ArtworkType::Artist,
            9 => ArtworkType::Conductor,
            10 => ArtworkType::Band,
            11 => ArtworkType::Composer,
            12 => ArtworkType::Lyricist,
            13 => ArtworkType::RecordingLocation,
            14 => ArtworkType::DuringRecording,
            15 => ArtworkType::DuringPerformance,
            16 => ArtworkType::MovieScreenCapture,
            17 => ArtworkType::ColouredFish,
            18 => ArtworkType::Illustration,
            19 => ArtworkType::BandLogotype,
            20 => ArtworkType::PublisherLogotype,
            _ => ArtworkType::Other(String::from_str("Unknown")),
        }
    }

    /// The artwork type of a FLAC picture type code.
    pub fn convert_flac_picture_type(code: u8) -> (t: ArtworkType)
        ensures
            is_flac_artwork_type(code, t),
    {
        if code == 5 || code == 16 || code == 17 {
            ArtworkType::Other(String::from_str("Unknown"))
        } else {
            Self::convert_id3_picture_type(code)
        }
    }

    /// The metadata an ID3 tag gives: its standard fields, the frames applied
    /// in order (see `apply_id3_frame`), the first picture as artwork, the
    /// file size, and the format `MP3`.
    pub fn from_id3(tag: Id3Tag) -> (m: TrackMetadata)
        ensures
            m@ == id3_metadata(tag),
            m.custom_tags.wf(),
            match tag.picture {
                Some(p) => m.artwork matches Some(a) && is_id3_artwork(p, a),
                None => m.artwork is None,
            },
    {
        let ghost g = tag;
        let mut m = TrackMetadata::default();
        m.title = tag.title;
        m.artist = tag.artist;
        m.album = tag.album;
        m.album_artist = tag.album_artist;
        m.year = match tag.year {
            Some(y) => Some(y as u32),
            None => None,
        };
        m.track_number = tag.track;
        m.track_total = tag.total_tracks;
        m.disc_number = tag.disc;
        m.disc_total = tag.total_discs;
        m.genre = tag.genre;
        let frames = tag.frames;
        let mut i: usize = 0;
        while i < frames.len()
            invariant
                i <= frames@.len(),
                frames@ == g.frames@,
                m.custom_tags.wf(),
                m.artwork is None,
                m@ == apply_id3_frames(
                    MetadataView {
                        title: text_opt(g.title),
                        artist: text_opt(g.artist),
                        album: text_opt(g.album),
                        album_artist: text_opt(g.album_artist),
                        year: id3_year(g.year),
                        track_number: g.track,
                        track_total: g.total_tracks,
                        disc_number: g.disc,
                        disc_total: g.total_discs,
                        genre: text_opt(g.genre),
                        ..empty_metadata()
                    },
                    frames@.take(i as int),
                ),
            decreases frames@.len() - i,
        {
            proof {
                assert(frames@.take(i + 1).drop_last() =~= frames@.take(i as int));
            }
            let f = &frames[i];
            let id = f.id.as_str();
            if str_eq(id, "TCOM") {
                m.composer = clone_text(&f.text);
            } else if str_eq(id, "TPE3") {
                m.conductor = clone_text(&f.text);
            } else if str_eq(id, "TPE4") {
                m.performer = clone_text(&f.text);
            } else if str_eq(id, "COMM") {
                m.comment = clone_text(&f.text);
            } else {
                match &f.text {
                    Some(t) => {
                        m.custom_tags.insert(f.id.clone(), t.clone());
                    },
                    None => {},
                }
            }
            i = i + 1;
        }
        proof {
            assert(frames@.take(frames@.len() as int) =~= frames@);
        }
        m.artwork = match tag.picture {
            Some(p) => Some(
                ArtworkInfo {
                    mime_type: p.mime_type,
                    description: Some(p.description),
                    artwork_type: Self::convert_id3_picture_type(p.type_code),
                    width: None,
                    height: None,
                    data: p.data,
                },
            ),
            None => None,
        };
        m.file_size = Some(tag.file_size);
        m.format = Some(String::from_str("MP3"));
        m
    }

    /// The metadata a FLAC file gives: its Vorbis comments applied in order
    /// (see `apply_flac_comment`), the stream's rate, channels, bit depth and
    /// length, the first picture as artwork, the file size, the format
    /// `FLAC` and the encoding `Lossless`.
    pub fn from_flac(
        comments: Vec<(String, Vec<String>)>,
        stream: Option<FlacStreamInfo>,
        picture: Option<PictureData>,
        file_size: u64,
    ) -> (m: TrackMetadata)
        ensures
            m@ == flac_metadata(comments@, stream, file_size),
            m.custom_tags.wf(),
            match picture {
                Some(p) => m.artwork matches Some(a) && is_flac_artwork(p, a),
                None => m.artwork is None,
            },
    {
        let mut m = TrackMetadata::default();
        let mut i: usize = 0;
        while i < comments.len()
            invariant
                i <= comments@.len(),
                m.custom_tags.wf(),
                m.artwork is None,
                m@ == apply_flac_comments(empty_metadata(), comments@.take(i as int)),
            decreases comments@.len() - i,
        {
            proof {
                assert(comments@.take(i + 1).drop_last() =~= comments@.take(i as int));
            }
            let c = &comments[i];
            if c.1.len() > 0 {
                let v = &c.1[0];
                let upper = to_uppercase(c.0.as_str());
                let k = upper.as_str();
                if str_eq(k, "TITLE") {
                    m.title = Some(v.clone());
                } else if str_eq(k, "ARTIST") {
                    m.artist = Some(v.clone());
                } else if str_eq(k, "ALBUM") {
                    m.album = Some(v.clone());
                } else if str_eq(k, "ALBUMARTIST") {
                    m.album_artist = Some(v.clone());
                } else if str_eq(k, "DATE") || str_eq(k, "YEAR") {
                    m.year = parse_u32(v.as_str());
                } else if str_eq(k, "TRACKNUMBER") {
                    m.track_number = parse_u32(v.as_str());
                } else if str_eq(k, "TRACKTOTAL") {
                    m.track_total = parse_u32(v.as_str());
                } else if str_eq(k, "DISCNUMBER") {
                    m.disc_number = parse_u32(v.as_str());
                } else if str_eq(k, "DISCTOTAL") {
                    m.disc_total = parse_u32(v.as_str());
                } else if str_eq(k, "GENRE") {
                    m.genre = Some(v.clone());
                } else if str_eq(k, "COMPOSER") {
                    m.composer = Some(v.clone());
                } else if str_eq(k, "PERFORMER") {
                    m.performer = Some(v.clone());
                } else if str_eq(k, "CONDUCTOR") {
                    m.conductor = Some(v.clone());
                } else if str_eq(k, "COMMENT") {
                    m.comment = Some(v.clone());
                } else {
                    m.custom_tags.insert(c.0.clone(), v.clone());
                }
            }
            i = i + 1;
        }
        proof {
            assert(comments@.take(comments@.len() as int) =~= comments@);
        }
        match stream {
            Some(si) => {
                m.sample_rate = Some(si.sample_rate);
                m.channels = Some(si.num_channels as u16);
                m.bit_depth = Some(si.bits_per_sample as u16);
                if si.total_samples > 0 {
                    m.duration = Some(si.length);
                }
            },
            None => {},
        }
        m.artwork = match picture {
            Some(p) => Some(
                ArtworkInfo {
                    mime_type: p.mime_type,
                    description: Some(p.description),
                    artwork_type: Self::convert_flac_picture_type(p.type_code),
                    width: Some(p.width),
                    height: Some(p.height),
                    data: p.data,
                },
            ),
            None => None,
        };
        m.file_size = Some(file_size);
        m.format = Some(String::from_str("FLAC"));
        m.encoding = Some(String::from_str("Lossless"));
        m
    }

    /// The metadata a WAV file gives (see `wav_metadata`); the bit rate must
    /// fit in 32 bits.
    pub fn from_wav(spec: WavSpec, length: Duration, file_size: u64) -> (m: TrackMetadata)
        requires
            spec.sample_rate * spec.channels * spec.bits_per_sample <= u32::MAX,
        ensures
            m@ == wav_metadata(spec, length, file_size),
            m.custom_tags.wf(),
            m.artwork is None,
    {
        let mut m = TrackMetadata::default();
        m.sample_rate = Some(spec.sample_rate);
        m.channels = Some(spec.channels);
        m.bit_depth = Some(spec.bits_per_sample);
        m.duration = Some(length);
        m.file_size = Some(file_size);
        m.format = Some(String::from_str("WAV"));
        m.encoding = Some(String::from_str("PCM"));
        let r = spec.sample_rate as u64;
        let c = spec.channels as u64;
        let b = spec.bits_per_sample as u64;
        assert(r * c <= u32::MAX * 65535) by (nonlinear_arith)
            requires
                r <= u32::MAX,
                c <= 65535,
        ;
        let bitrate = r * c * b;
        m.bitrate = Some(bitrate as u32);
        m
    }

    /// The metadata that the tags of a generic probe give, applied in order
    /// (see `apply_generic_tag`).
    pub fn from_generic_tags(tags: Vec<(String, String)>) -> (m: TrackMetadata)
        ensures
            m@ == apply_generic_tags(empty_metadata(), tags@),
            m.custom_tags.wf(),
            m.artwork is None,
    {
        let mut m = TrackMetadata::default();
        let mut i: usize = 0;
        while i < tags.len()
            invariant
                i <= tags@.len(),
                m.custom_tags.wf(),
                m.artwork is None,
                m@ == apply_generic_tags(empty_metadata(), tags@.take(i as int)),
            decreases tags@.len() - i,
        {
            proof {
                assert(tags@.take(i + 1).drop_last() =~= tags@.take(i as int));
            }
            let t = &tags[i];
            let k = t.0.as_str();
            let v = &t.1;
            if str_eq(k, "TITLE") {
                m.title = Some(v.clone());
            } else if str_eq(k, "ARTIST") {
                m.artist = Some(v.clone());
            } else if str_eq(k, "ALBUM") {
                m.album = Some(v.clone());
            } else if str_eq(k, "DATE") {
                m.year = parse_u32(v.as_str());
            } else if str_eq(k, "TRACK") {
                m.track_number = parse_u32(v.as_str());
            } else if str_eq(k, "GENRE") {
                m.genre = Some(v.clone());
            } else {
                m.custom_tags.insert(t.0.clone(), v.clone());
            }
            i = i + 1;
        }
        proof {
            assert(tags@.take(tags@.len() as int) =~= tags@);
        }
        m
    }
}

/// A Vorbis comment that names a person or a title fills that one field
/// with its first value, whatever the earlier comments set, and leaves the
/// other such fields as the earlier comments left them: `ARTIST` sets the
/// artist (not the album artist), `ALBUMARTIST` the album artist, `TITLE`
/// the title, `ALBUM` the album and `GENRE` the genre, the key read in
/// upper case.
pub proof fn flac_name_comments(
    comments: Seq<(String, Vec<String>)>,
    c: (String, Vec<String>),
    stream: Option<FlacStreamInfo>,
    file_size: u64,
)
    requires
        c.1@.len() > 0,
    ensures
        ({
            let before = flac_metadata(comments, stream, file_size);
            let after = flac_metadata(comments.push(c), stream, file_size);
            let k = uppercase_of(c.0@);
            let v = c.1@[0]@;
            &&& k == "ARTIST"@ ==> after.artist == Some(v) && after.album_artist
                == before.album_artist && after.title == before.title && after.album
                == before.album && after.genre == before.genre
            &&& k == "ALBUMARTIST"@ ==> after.album_artist == Some(v) && after.artist
                == before.artist && after.title == before.title && after.album == before.album
                && after.genre == before.genre
            &&& k == "TITLE"@ ==> after.title == Some(v) && after.artist == before.artist
                && after.album_artist == before.album_artist && after.album == before.album
                && after.genre == before.genre
            &&& k == "ALBUM"@ ==> after.album == Some(v) && after.artist == before.artist
                && after.album_artist == before.album_artist && after.title == before.title
                && after.genre == before.genre
            &&& k == "GENRE"@ ==> after.genre == Some(v) && after.artist == before.artist
                && after.album_artist == before.album_artist && after.title == before.title
                && after.album == before.album
        }),
{
    reveal_strlit("TITLE");
    assert("TITLE"@ =~= seq!['T', 'I', 'T', 'L', 'E']);
    reveal_strlit("ARTIST");
    assert("ARTIST"@ =~= seq!['A', 'R', 'T', 'I', 'S', 'T']);
    reveal_strlit("ALBUM");
    assert("ALBUM"@ =~= seq!['A', 'L', 'B', 'U', 'M']);
    reveal_strlit("ALBUMARTIST");
    assert("ALBUMARTIST"@ =~= seq!['A', 'L', 'B', 'U', 'M', 'A', 'R', 'T', 'I', 'S', 'T']);
    reveal_strlit("GENRE");
    assert("GENRE"@ =~= seq!['G', 'E', 'N', 'R', 'E']);
    reveal_strlit("DATE");
    assert("DATE"@ =~= seq!['D', 'A', 'T', 'E']);
    reveal_strlit("YEAR");
    assert("YEAR"@ =~= seq!['Y', 'E', 'A', 'R']);
    reveal_strlit("TRACKNUMBER");
    assert("TRACKNUMBER"@ =~= seq!['T', 'R', 'A', 'C', 'K', 'N', 'U', 'M', 'B', 'E', 'R']);
    reveal_strlit("TRACKTOTAL");
    assert("TRACKTOTAL"@ =~= seq!['T', 'R', 'A', 'C', 'K', 'T', 'O', 'T', 'A', 'L']);
    reveal_strlit("DISCNUMBER");
    assert("DISCNUMBER"@ =~= seq!['D', 'I', 'S', 'C', 'N', 'U', 'M', 'B', 'E', 'R']);
    reveal_strlit("DISCTOTAL");
    assert("DISCTOTAL"@ =~= seq!['D', 'I', 'S', 'C', 'T', 'O', 'T', 'A', 'L']);
    let cs = comments.push(c);
    assert(cs.drop_last() =~= comments);
    assert(cs.last() == c);
    let m0 = apply_flac_comments(empty_metadata(), comments);
    assert(apply_flac_comments(empty_metadata(), cs) == apply_flac_comment(m0, c));
}

/// The texts of the Vorbis comment keys, character by character.
proof fn flac_key_texts()
    ensures
        "TITLE"@ =~= seq!['T', 'I', 'T', 'L', 'E'],
        "ARTIST"@ =~= seq!['A', 'R', 'T', 'I', 'S', 'T'],
        "ALBUM"@ =~= seq!['A', 'L', 'B', 'U', 'M'],
        "ALBUMARTIST"@ =~= seq!['A', 'L', 'B', 'U', 'M', 'A', 'R', 'T', 'I', 'S', 'T'],
        "DATE"@ =~= seq!['D', 'A', 'T', 'E'],
        "YEAR"@ =~= seq!['Y', 'E', 'A', 'R'],
        "TRACKNUMBER"@ =~= seq!['T', 'R', 'A', 'C', 'K', 'N', 'U', 'M', 'B', 'E', 'R'],
        "TRACKTOTAL"@ =~= seq!['T', 'R', 'A', 'C', 'K', 'T', 'O', 'T', 'A', 'L'],
        "DISCNUMBER"@ =~= seq!['D', 'I', 'S', 'C', 'N', 'U', 'M', 'B', 'E', 'R'],
        "DISCTOTAL"@ =~= seq!['D', 'I', 'S', 'C', 'T', 'O', 'T', 'A', 'L'],
        "GENRE"@ =~= seq!['G', 'E', 'N', 'R', 'E'],
        "COMPOSER"@ =~= seq!['C', 'O', 'M', 'P', 'O', 'S', 'E', 'R'],
        "PERFORMER"@ =~= seq!['P', 'E', 'R', 'F', 'O', 'R', 'M', 'E', 'R'],
        "CONDUCTOR"@ =~= seq!['C', 'O', 'N', 'D', 'U', 'C', 'T', 'O', 'R'],
        "COMMENT"@ =~= seq!['C', 'O', 'M', 'M', 'E', 'N', 'T'],
{
    reveal_strlit("TITLE");
    reveal_strlit("ARTIST");
    reveal_strlit("ALBUM");
    reveal_strlit("ALBUMARTIST");
    reveal_strlit("DATE");
    reveal_strlit("YEAR");
    reveal_strlit("TRACKNUMBER");
    reveal_strlit("TRACKTOTAL");
    reveal_strlit("DISCNUMBER");
    reveal_strlit("DISCTOTAL");
    reveal_strlit("GENRE");
    reveal_strlit("COMPOSER");
    reveal_strlit("PERFORMER");
    reveal_strlit("CONDUCTOR");
    reveal_strlit("COMMENT");
}

/// The other Vorbis comments each fill their own field and leave the rest:
/// `COMPOSER`, `PERFORMER`, `CONDUCTOR` and `COMMENT` set their text to the
/// first value; `DATE` or `YEAR`, `TRACKNUMBER`, `TRACKTOTAL`, `DISCNUMBER`
/// and `DISCTOTAL` set their number to the first value read as an unsigned
/// integer; a comment with no value changes nothing; any other key adds a
/// custom tag under the key as written.
pub proof fn flac_other_comments(
    comments: Seq<(String, Vec<String>)>,
    c: (String, Vec<String>),
    stream: Option<FlacStreamInfo>,
    file_size: u64,
)
    ensures
        ({
            let before = flac_metadata(comments, stream, file_size);
            let after = flac_metadata(comments.push(c), stream, file_size);
            let k = uppercase_of(c.0@);
            let v = c.1@[0]@;
            let named = after.artist == before.artist && after.album_artist == before.album_artist
                && after.title == before.title;
            &&& c.1@.len() == 0 ==> after == before
            &&& c.1@.len() > 0 && k == "COMPOSER"@ ==> after.composer == Some(v) && after.performer
                == before.performer && after.conductor == before.conductor && named
            &&& c.1@.len() > 0 && k == "PERFORMER"@ ==> after.performer == Some(v)
                && after.composer == before.composer && after.conductor == before.conductor && named
            &&& c.1@.len() > 0 && k == "CONDUCTOR"@ ==> after.conductor == Some(v)
                && after.composer == before.composer && after.performer == before.performer && named
            &&& c.1@.len() > 0 && k == "COMMENT"@ ==> after.comment == Some(v) && after.composer
                == before.composer && named
            &&& c.1@.len() > 0 && (k == "DATE"@ || k == "YEAR"@) ==> after.year == parsed_u32(v)
                && after.track_number == before.track_number && named
            &&& c.1@.len() > 0 && k == "TRACKNUMBER"@ ==> after.track_number == parsed_u32(v)
                && after.track_total == before.track_total && after.year == before.year && named
            &&& c.1@.len() > 0 && k == "TRACKTOTAL"@ ==> after.track_total == parsed_u32(v)
                && after.track_number == before.track_number && named
            &&& c.1@.len() > 0 && k == "DISCNUMBER"@ ==> after.disc_number == parsed_u32(v)
                && after.disc_total == before.disc_total && after.track_number
                == before.track_number && named
            &&& c.1@.len() > 0 && k == "DISCTOTAL"@ ==> after.disc_total == parsed_u32(v)
                && after.disc_number == before.disc_number && named
            &&& c.1@.len() > 0 && k != "TITLE"@ && k != "ARTIST"@ && k != "ALBUM"@ && k
                != "ALBUMARTIST"@ && k != "DATE"@ && k != "YEAR"@ && k != "TRACKNUMBER"@ && k
                != "TRACKTOTAL"@ && k != "DISCNUMBER"@ && k != "DISCTOTAL"@ && k != "GENRE"@ && k
                != "COMPOSER"@ && k != "PERFORMER"@ && k != "CONDUCTOR"@ && k != "COMMENT"@
                ==> after.custom_tags == before.custom_tags.insert(c.0@, v) && named
                && after.composer == before.composer
        }),
{
    flac_key_texts();
    let cs = comments.push(c);
    assert(cs.drop_last() =~= comments);
    assert(cs.last() == c);
    let m0 = apply_flac_comments(empty_metadata(), comments);
    assert(apply_flac_comments(empty_metadata(), cs) == apply_flac_comment(m0, c));
}

} // verus!
