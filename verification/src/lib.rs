//! Core model of a terminal music player: a track catalog extracted from
//! tagged media files, a playback queue with selection and playing cursors,
//! an artist/album/song library tree, and a focus-driven input router.

pub mod catalog;
pub mod input;
pub mod library;
pub mod queue;
pub mod session;
pub mod song;

pub use catalog::{Catalog, MediaFile};
pub use input::{route, Action, FocusState, KeyCode, KeyInput, KeyMods};
pub use library::{build, AlbumGroup, ArtistGroup, Library};
pub use queue::{IndexError, NoSelectionError, Queue, QueueView};
pub use session::{AudioCmd, Session};
pub use song::{MetadataError, Song, SongView};
