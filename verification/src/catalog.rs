//! The track catalog: turning a directory's media files into [`Song`]s.
//!
//! Reading the directory is the caller's concern; the scan here takes each
//! file's bytes (or the news that the file was unreadable) and applies the
//! skip-and-continue policy: a file that yields no song is recorded as
//! skipped, and the scan goes on, so one bad file never aborts the catalog.

use vstd::prelude::*;

use crate::song::{probed_tags, song_of, MetadataError, Song, SongView};

verus! {

/// One directory entry handed to the scan: its path and its bytes, or
/// `None` when the file could not be read.
pub struct MediaFile {
    pub path: String,
    pub data: Option<Vec<u8>>,
}

/// The mathematical value of a [`MediaFile`].
#[verifier::ext_equal]
pub struct MediaFileView {
    pub path: Seq<char>,
    pub data: Option<Seq<u8>>,
}

impl View for MediaFile {
    type V = MediaFileView;

    open spec fn view(&self) -> MediaFileView {
        MediaFileView {
            path: self.path@,
            data: match self.data {
                Option::Some(d) => Option::Some(d@),
                Option::None => Option::None,
            },
        }
    }
}

impl DeepView for MediaFile {
    type V = MediaFileView;

    open spec fn deep_view(&self) -> MediaFileView {
        self.view()
    }
}

/// The full set of tracks discovered by a scan, together with the paths of
/// the files that were skipped.
pub struct Catalog {
    pub tracks: Vec<Song>,
    pub skipped: Vec<String>,
}

/// The song that a scanned file contributes: `None` when the file was
/// unreadable, its bytes yield no tag list, or the tag list is too short.
pub open spec fn file_song(f: MediaFileView) -> Option<SongView> {
    match f.data {
        Option::None => Option::None,
        Option::Some(d) => match probed_tags(d) {
            Option::None => Option::None,
            Option::Some(tags) => if tags.len() >= 6 {
                Option::Some(song_of(f.path, tags))
            } else {
                Option::None
            },
        },
    }
}

/// The tracks that a scan of `files` yields, in file order.
pub open spec fn scan_tracks(files: Seq<MediaFileView>) -> Seq<SongView>
    decreases files.len(),
{
    if files.len() == 0 {
        Seq::empty()
    } else {
        (match file_song(files.first()) {
            Option::Some(s) => seq![s],
            Option::None => Seq::empty(),
        }) + scan_tracks(files.drop_first())
    }
}

/// The paths that a scan of `files` records as skipped, in file order.
pub open spec fn scan_skipped(files: Seq<MediaFileView>) -> Seq<Seq<char>>
    decreases files.len(),
{
    if files.len() == 0 {
        Seq::empty()
    } else {
        (match file_song(files.first()) {
            Option::Some(s) => Seq::empty(),
            Option::None => seq![files.first().path],
        }) + scan_skipped(files.drop_first())
    }
}

/// Every scanned file becomes either a track or a skipped path, never both
/// and never neither.
pub proof fn lemma_scan_accounts_for_every_file(files: Seq<MediaFileView>)
    ensures
        scan_tracks(files).len() + scan_skipped(files).len() == files.len(),
    decreases files.len(),
{
    if files.len() > 0 {
        lemma_scan_accounts_for_every_file(files.drop_first());
    }
}

impl Catalog {
    /// Scans the files of a directory: each readable file whose bytes carry
    /// at least six tags becomes a track, every other file's path is
    /// recorded as skipped, in file order.
    pub fn scan(files: Vec<MediaFile>) -> (c: Catalog)
        ensures
            c.tracks.deep_view() == scan_tracks(files.deep_view()),
            c.skipped.deep_view() == scan_skipped(files.deep_view()),
            c.tracks@.len() + c.skipped@.len() == files@.len(),
    {
        let ghost orig = files.deep_view();
        let mut rest = files;
        let mut tracks: Vec<Song> = Vec::new();
        let mut skipped: Vec<String> = Vec::new();
        while rest.len() > 0
            invariant
                scan_tracks(orig) =~= tracks.deep_view() + scan_tracks(rest.deep_view()),
                scan_skipped(orig) =~= skipped.deep_view() + scan_skipped(rest.deep_view()),
            decreases rest.len(),
        {
            let ghost pending = rest.deep_view();
            let f = rest.remove(0);
            proof {
                assert(f.deep_view() == pending.first());
                assert(rest.deep_view() =~= pending.drop_first());
            }
            match f.data {
                Option::Some(d) => {
                    let path_copy = f.path.clone();
                    match Song::new(f.path, d) {
                        Ok(s) => {
                            tracks.push(s);
                        },
                        Err(_) => {
                            skipped.push(path_copy);
                        },
                    }
                },
                Option::None => {
                    skipped.push(f.path);
                },
            }
            proof {
                assert(scan_tracks(orig) =~= tracks.deep_view() + scan_tracks(rest.deep_view()));
                assert(scan_skipped(orig) =~= skipped.deep_view() + scan_skipped(
                    rest.deep_view(),
                ));
            }
        }
        proof {
            assert(tracks.deep_view() =~= scan_tracks(orig));
            assert(skipped.deep_view() =~= scan_skipped(orig));
            lemma_scan_accounts_for_every_file(orig);
            assert(tracks.deep_view().len() == tracks@.len());
            assert(skipped.deep_view().len() == skipped@.len());
        }
        Catalog { tracks, skipped }
    }
}

} // verus!
