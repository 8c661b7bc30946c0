//! A single playable track and the extraction of its metadata from the
//! positional tag list that the media prober reports.
//!
//! A tag list is read by position: title, artist, track number, total tracks
//! on the album, album, year. A list shorter than six entries means the file
//! is missing required tags and cannot become a [`Song`].

use vstd::prelude::*;

verus! {

/// Why a media file could not be turned into a [`Song`].
#[derive(Debug, Clone, Copy, PartialEq, Eq, Structural)]
pub enum MetadataError {
    /// The bytes could not be probed as a supported media format, or no
    /// metadata was found in them.
    Unreadable,
    /// The metadata was read but holds fewer than the six required tags.
    MissingTags,
}

/// One playable audio file plus its extracted tag metadata. Immutable once
/// created; copied by value wherever referenced.
#[derive(Debug, PartialEq, Eq)]
pub struct Song {
    pub path: String,
    pub title: String,
    pub artist: String,
    pub album: String,
    pub track_num: String,
    pub album_tracks_total: String,
    pub year: String,
}

/// The mathematical value of a [`Song`]: each text field as a sequence of
/// characters.
#[verifier::ext_equal]
pub struct SongView {
    pub path: Seq<char>,
    pub title: Seq<char>,
    pub artist: Seq<char>,
    pub album: Seq<char>,
    pub track_num: Seq<char>,
    pub album_tracks_total: Seq<char>,
    pub year: Seq<char>,
}

impl View for Song {
    type V = SongView;

    open spec fn view(&self) -> SongView {
        SongView {
            path: self.path@,
            title: self.title@,
            artist: self.artist@,
            album: self.album@,
            track_num: self.track_num@,
            album_tracks_total: self.album_tracks_total@,
            year: self.year@,
        }
    }
}

impl DeepView for Song {
    type V = SongView;

    open spec fn deep_view(&self) -> SongView {
        self.view()
    }
}

impl Clone for Song {
    fn clone(&self) -> (r: Self)
        ensures
            r == *self,
    {
        Song {
            path: self.path.clone(),
            title: self.title.clone(),
            artist: self.artist.clone(),
            album: self.album.clone(),
            track_num: self.track_num.clone(),
            album_tracks_total: self.album_tracks_total.clone(),
            year: self.year.clone(),
        }
    }
}

/// The song that a tag list describes, read by position: title, artist,
/// track number, album track total, album, year.
pub open spec fn song_of(path: Seq<char>, tags: Seq<Seq<char>>) -> SongView
    recommends
        tags.len() >= 6,
{
    SongView {
        path: path,
        title: tags[0],
        artist: tags[1],
        track_num: tags[2],
        album_tracks_total: tags[3],
        album: tags[4],
        year: tags[5],
    }
}

/// The positional tag list that the media prober reports for these bytes:
/// `None` when the bytes cannot be probed or hold no metadata, otherwise the
/// textual value of each tag, in the order the prober reports them. The
/// result depends on the bytes alone.
pub uninterp spec fn probed_tags(data: Seq<u8>) -> Option<Seq<Seq<char>>>;

/// Relies on symphonia's format probe (`Probe::probe` over an in-memory
/// stream, then `FormatReader::metadata`): deterministic in the bytes, it
/// yields the first metadata revision's media-level tags, each rendered as
/// text, or fails on bytes it cannot parse or that hold no metadata.
#[verifier::external_body]
fn probe_tags(data: Vec<u8>) -> (r: Result<Vec<String>, MetadataError>)
    ensures
        r is Ok <==> probed_tags(data@) is Some,
        r matches Ok(tags) ==> Some(tags.deep_view()) == probed_tags(data@),
        r matches Err(e) ==> e == MetadataError::Unreadable,
{
    let source = Box::new(std::io::Cursor::new(data));
    let opts = symphonia::core::io::MediaSourceStreamOptions::default();
    let mss = symphonia::core::io::MediaSourceStream::new(source, opts);
    let hint = symphonia::core::formats::probe::Hint::new();
    let fmt_opts = symphonia::core::formats::FormatOptions::default();
    let probed = symphonia::default::get_probe().probe(&hint, mss, fmt_opts, Default::default());
    let mut reader = probed.map_err(|_| MetadataError::Unreadable)?;
    let metadata = reader.metadata();
    match metadata.current() {
        Some(rev) => Ok(rev.media.tags.iter().map(|t| t.raw.value.to_string()).collect()),
        None => Err(MetadataError::Unreadable),
    }
}

impl Song {
    /// Builds a song for `path` from the bytes of a media file: probes them
    /// for metadata and reads the tag list by position. Fails with
    /// [`MetadataError::Unreadable`] exactly when the bytes yield no tag
    /// list, and with [`MetadataError::MissingTags`] exactly when the list
    /// holds fewer than six tags.
    pub fn new(path: String, data: Vec<u8>) -> (r: Result<Song, MetadataError>)
        ensures
            r is Ok <==> (probed_tags(data@) matches Some(tags) && tags.len() >= 6),
            r matches Ok(s) ==> s@ == song_of(path@, probed_tags(data@)->0),
            probed_tags(data@) is None ==> r == Err::<Song, MetadataError>(
                MetadataError::Unreadable,
            ),
            (probed_tags(data@) matches Some(tags) && tags.len() < 6) ==> r == Err::<
                Song,
                MetadataError,
            >(MetadataError::MissingTags),
    {
        match probe_tags(data) {
            Ok(tags) => Song::from_tags(path, &tags),
            Err(e) => Err(e),
        }
    }

    /// Builds a song for `path` from the positional tag list of its file.
    /// Fails exactly when fewer than six tags are present.
    pub fn from_tags(path: String, tags: &Vec<String>) -> (r: Result<Song, MetadataError>)
        ensures
            r is Ok <==> tags@.len() >= 6,
            r matches Ok(s) ==> s@ == song_of(path@, tags.deep_view()),
            r matches Err(e) ==> e == MetadataError::MissingTags,
    {
        if tags.len() < 6 {
            Err(MetadataError::MissingTags)
        } else {
            let s = Song {
                path,
                title: tags[0].clone(),
                artist: tags[1].clone(),
                album: tags[4].clone(),
                track_num: tags[2].clone(),
                album_tracks_total: tags[3].clone(),
                year: tags[5].clone(),
            };
            assert(s@ =~= song_of(s.path@, tags.deep_view()));
            Ok(s)
        }
    }
}

} // verus!
