//! Tests for tag extraction and the catalog scan, on bytes built by hand:
//! a minimal PCM WAV file, optionally preceded by an ID3v2.3 tag.

use jukebox::{Catalog, MediaFile, MetadataError, Song};

/// One ID3v2.3 text frame: id, big-endian size, cleared flags, then an
/// ISO-8859-1 encoding byte and the text.
fn text_frame(id: &[u8; 4], text: &str) -> Vec<u8> {
    let mut f = Vec::new();
    f.extend_from_slice(id);
    f.extend_from_slice(&((text.len() + 1) as u32).to_be_bytes());
    f.extend_from_slice(&[0, 0]);
    f.push(0);
    f.extend_from_slice(text.as_bytes());
    f
}

/// An ID3v2.3 tag holding the given frames (header with syncsafe size).
fn id3v2(frames: &[Vec<u8>]) -> Vec<u8> {
    let body: Vec<u8> = frames.concat();
    let len = body.len() as u32;
    let mut t = vec![b'I', b'D', b'3', 3, 0, 0];
    t.push(((len >> 21) & 0x7f) as u8);
    t.push(((len >> 14) & 0x7f) as u8);
    t.push(((len >> 7) & 0x7f) as u8);
    t.push((len & 0x7f) as u8);
    t.extend_from_slice(&body);
    t
}

/// A minimal playable WAV file: PCM, mono, 8 kHz, 8-bit, 16 zero samples.
fn wav_bytes() -> Vec<u8> {
    let mut fmt = Vec::new();
    fmt.extend_from_slice(&1u16.to_le_bytes());
    fmt.extend_from_slice(&1u16.to_le_bytes());
    fmt.extend_from_slice(&8000u32.to_le_bytes());
    fmt.extend_from_slice(&8000u32.to_le_bytes());
    fmt.extend_from_slice(&1u16.to_le_bytes());
    fmt.extend_from_slice(&8u16.to_le_bytes());
    let samples = [0u8; 16];
    let riff_len = (4 + 8 + fmt.len() + 8 + samples.len()) as u32;
    let mut data = Vec::new();
    data.extend_from_slice(b"RIFF");
    data.extend_from_slice(&riff_len.to_le_bytes());
    data.extend_from_slice(b"WAVE");
    data.extend_from_slice(b"fmt ");
    data.extend_from_slice(&(fmt.len() as u32).to_le_bytes());
    data.extend_from_slice(&fmt);
    data.extend_from_slice(b"data");
    data.extend_from_slice(&(samples.len() as u32).to_le_bytes());
    data.extend_from_slice(&samples);
    data
}

/// A WAV file preceded by an ID3v2 tag carrying the six positional values:
/// title, artist, track number, album track total, album, year.
fn tagged_wav(
    title: &str,
    artist: &str,
    track: &str,
    total: &str,
    album: &str,
    year: &str,
) -> Vec<u8> {
    let frames = vec![
        text_frame(b"TIT2", title),
        text_frame(b"TPE1", artist),
        text_frame(b"TRCK", track),
        text_frame(b"TDLY", total),
        text_frame(b"TALB", album),
        text_frame(b"TYER", year),
    ];
    let mut v = id3v2(&frames);
    v.extend_from_slice(&wav_bytes());
    v
}

fn tags(values: &[&str]) -> Vec<String> {
    values.iter().map(|v| v.to_string()).collect()
}

#[test]
fn from_tags_reads_slots_by_position() {
    let t = tags(&["Night Drive", "The Owls", "3", "12", "Feathers", "1999"]);
    let song = Song::from_tags("a.mp3".to_string(), &t).unwrap();
    assert_eq!(song.path, "a.mp3");
    assert_eq!(song.title, "Night Drive");
    assert_eq!(song.artist, "The Owls");
    assert_eq!(song.track_num, "3");
    assert_eq!(song.album_tracks_total, "12");
    assert_eq!(song.album, "Feathers");
    assert_eq!(song.year, "1999");
}

#[test]
fn from_tags_ignores_extra_tags() {
    let t = tags(&["T", "A", "1", "2", "B", "2001", "extra"]);
    let song = Song::from_tags("b.mp3".to_string(), &t).unwrap();
    assert_eq!(song.title, "T");
    assert_eq!(song.year, "2001");
}

#[test]
fn from_tags_rejects_short_list() {
    let t = tags(&["T", "A", "1", "2", "B"]);
    let r = Song::from_tags("c.mp3".to_string(), &t);
    assert_eq!(r, Err(MetadataError::MissingTags));
}

#[test]
fn song_new_reads_tagged_file() {
    let data = tagged_wav("Night Drive", "The Owls", "3", "12", "Feathers", "1999");
    let song = Song::new("music/owls.wav".to_string(), data).unwrap();
    assert_eq!(song.path, "music/owls.wav");
    assert_eq!(song.title, "Night Drive");
    assert_eq!(song.artist, "The Owls");
    assert_eq!(song.track_num, "3");
    assert_eq!(song.album_tracks_total, "12");
    assert_eq!(song.album, "Feathers");
    assert_eq!(song.year, "1999");
}

#[test]
fn song_new_rejects_file_with_few_tags() {
    let frames = vec![
        text_frame(b"TIT2", "Only"),
        text_frame(b"TPE1", "Three"),
        text_frame(b"TALB", "Tags"),
    ];
    let mut data = id3v2(&frames);
    data.extend_from_slice(&wav_bytes());
    let r = Song::new("music/poor.wav".to_string(), data);
    assert_eq!(r, Err(MetadataError::MissingTags));
}

#[test]
fn song_new_rejects_untagged_file() {
    let r = Song::new("music/plain.wav".to_string(), wav_bytes());
    assert_eq!(r, Err(MetadataError::Unreadable));
}

#[test]
fn song_new_rejects_garbage_bytes() {
    let data = vec![0x13, 0x37, 0x00, 0xff, 0x42, 0x99, 0x01, 0x02];
    let r = Song::new("music/noise.bin".to_string(), data);
    assert_eq!(r, Err(MetadataError::Unreadable));
}

#[test]
fn catalog_scan_skips_bad_files_and_continues() {
    let files = vec![
        MediaFile {
            path: "music/one.wav".to_string(),
            data: Some(tagged_wav("One", "A", "1", "2", "First", "1990")),
        },
        MediaFile {
            path: "music/broken.wav".to_string(),
            data: Some({
                let mut d = id3v2(&[text_frame(b"TIT2", "Lonely")]);
                d.extend_from_slice(&wav_bytes());
                d
            }),
        },
        MediaFile {
            path: "music/two.wav".to_string(),
            data: Some(tagged_wav("Two", "A", "2", "2", "First", "1990")),
        },
    ];
    let catalog = Catalog::scan(files);
    assert_eq!(catalog.tracks.len(), 2);
    assert_eq!(catalog.skipped.len(), 1);
    assert_eq!(catalog.tracks[0].title, "One");
    assert_eq!(catalog.tracks[1].title, "Two");
    assert_eq!(catalog.skipped[0], "music/broken.wav");
}

#[test]
fn catalog_scan_records_unreadable_files() {
    let files = vec![
        MediaFile { path: "music/gone.wav".to_string(), data: None },
        MediaFile {
            path: "music/ok.wav".to_string(),
            data: Some(tagged_wav("Ok", "B", "1", "1", "Solo", "2005")),
        },
    ];
    let catalog = Catalog::scan(files);
    assert_eq!(catalog.tracks.len(), 1);
    assert_eq!(catalog.tracks[0].artist, "B");
    assert_eq!(catalog.skipped, vec!["music/gone.wav".to_string()]);
}

#[test]
fn catalog_scan_of_nothing_is_empty() {
    let catalog = Catalog::scan(Vec::new());
    assert_eq!(catalog.tracks.len(), 0);
    assert_eq!(catalog.skipped.len(), 0);
}
