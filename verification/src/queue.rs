//! The playback queue: an ordered list of songs, a movable selection cursor,
//! and a marker for the song currently handed to the audio output.
//!
//! The selection moves with saturating bounds (no wraparound) and is a pure
//! UI affordance; it drives playback only through an explicit
//! [`Queue::play_selected`]. Removing the playing song clears the playing
//! marker; removing a song before either cursor shifts that cursor left.

use vstd::prelude::*;

use crate::song::{Song, SongView};

verus! {

/// A caller passed an index at or past the end of the queue.
#[derive(Debug, Clone, Copy, PartialEq, Eq, Structural)]
pub struct IndexError;

/// Play was requested while no song is selected.
#[derive(Debug, Clone, Copy, PartialEq, Eq, Structural)]
pub struct NoSelectionError;

/// The ordered, user-manipulable playback list with its two cursors.
pub struct Queue {
    pub songs: Vec<Song>,
    pub selected: Option<usize>,
    pub playing: Option<usize>,
}

/// The mathematical value of a [`Queue`].
#[verifier::ext_equal]
pub struct QueueView {
    pub songs: Seq<SongView>,
    pub selected: Option<int>,
    pub playing: Option<int>,
}

impl View for Queue {
    type V = QueueView;

    open spec fn view(&self) -> QueueView {
        QueueView {
            songs: self.songs.deep_view(),
            selected: match self.selected {
                Option::Some(i) => Option::Some(i as int),
                Option::None => Option::None,
            },
            playing: match self.playing {
                Option::Some(i) => Option::Some(i as int),
                Option::None => Option::None,
            },
        }
    }
}

impl QueueView {
    /// Both cursors, when set, reference a valid index.
    pub open spec fn wf(self) -> bool {
        &&& (self.selected matches Option::Some(i) ==> 0 <= i < self.songs.len())
        &&& (self.playing matches Option::Some(i) ==> 0 <= i < self.songs.len())
    }
}

/// The queue after a song is appended: the cursors do not move.
pub open spec fn spec_append(q: QueueView, s: SongView) -> QueueView {
    QueueView { songs: q.songs.push(s), ..q }
}

/// The selection after one step forward: the first song when nothing was
/// selected, otherwise one further, saturating at the last index. Unchanged
/// on an empty queue.
pub open spec fn spec_select_next(q: QueueView) -> QueueView {
    if q.songs.len() == 0 {
        q
    } else {
        QueueView {
            selected: match q.selected {
                Option::None => Option::Some(0int),
                Option::Some(i) => Option::Some(
                    if i + 1 < q.songs.len() {
                        i + 1
                    } else {
                        q.songs.len() - 1
                    },
                ),
            },
            ..q
        }
    }
}

/// The selection after one step back: the last song when nothing was
/// selected, otherwise one back, saturating at the first index. Unchanged on
/// an empty queue.
pub open spec fn spec_select_previous(q: QueueView) -> QueueView {
    if q.songs.len() == 0 {
        q
    } else {
        QueueView {
            selected: match q.selected {
                Option::None => Option::Some(q.songs.len() - 1),
                Option::Some(i) => Option::Some(
                    if i >= 1 {
                        i - 1
                    } else {
                        0int
                    },
                ),
            },
            ..q
        }
    }
}

/// The queue after the selection is cleared.
pub open spec fn spec_select_none(q: QueueView) -> QueueView {
    QueueView { selected: Option::None, ..q }
}

/// The queue after the song at `i` is removed: the playing marker is cleared
/// when it pointed at `i` and shifted left when it pointed past `i`; the
/// selection is shifted left when it pointed past `i`, and clamped to the
/// new last index when it pointed at a removed final song.
pub open spec fn spec_remove_at(q: QueueView, i: int) -> QueueView
    recommends
        0 <= i < q.songs.len(),
        q.wf(),
{
    let new_len = q.songs.len() - 1;
    QueueView {
        songs: q.songs.remove(i),
        playing: match q.playing {
            Option::None => Option::None,
            Option::Some(p) => if p == i {
                Option::None
            } else if i < p {
                Option::Some(p - 1)
            } else {
                Option::Some(p)
            },
        },
        selected: match q.selected {
            Option::None => Option::None,
            Option::Some(s) => if i < s {
                Option::Some(s - 1)
            } else if s < new_len {
                Option::Some(s)
            } else if new_len > 0 {
                Option::Some(new_len - 1)
            } else {
                Option::None
            },
        },
    }
}

/// The queue after the selected song is handed to the audio output.
pub open spec fn spec_play_selected(q: QueueView) -> QueueView {
    QueueView { playing: q.selected, ..q }
}

/// The queue after the current song is skipped: nothing counts as playing
/// until the next explicit play.
pub open spec fn spec_skip(q: QueueView) -> QueueView {
    QueueView { playing: Option::None, ..q }
}

impl Queue {
    /// An empty queue with no selection and nothing playing.
    pub fn new() -> (q: Queue)
        ensures
            q@.songs == Seq::<SongView>::empty(),
            q@.selected is None,
            q@.playing is None,
            q@.wf(),
    {
        let q = Queue { songs: Vec::new(), selected: None, playing: None };
        proof {
            assert(q@.songs =~= Seq::<SongView>::empty());
        }
        q
    }

    /// Appends a song at the end; the same path may appear twice.
    pub fn append(&mut self, song: Song)
        ensures
            final(self)@ == spec_append(old(self)@, song@),
            old(self)@.wf() ==> final(self)@.wf(),
    {
        self.songs.push(song);
        proof {
            assert(self@.songs =~= old(self)@.songs.push(song@));
            assert(self@ =~= spec_append(old(self)@, song@));
        }
    }

    /// Moves the selection one step forward, saturating at the last index;
    /// a no-op on an empty queue.
    pub fn select_next(&mut self)
        requires
            old(self)@.wf(),
        ensures
            final(self)@ == spec_select_next(old(self)@),
            final(self)@.wf(),
    {
        if self.songs.len() > 0 {
            let last = self.songs.len() - 1;
            self.selected = match self.selected {
                None => Some(0),
                Some(i) => Some(if i < last { i + 1 } else { last }),
            };
        }
        proof {
            assert(self@ =~= spec_select_next(old(self)@));
        }
    }

    /// Moves the selection one step back, saturating at the first index;
    /// a no-op on an empty queue.
    pub fn select_previous(&mut self)
        requires
            old(self)@.wf(),
        ensures
            final(self)@ == spec_select_previous(old(self)@),
            final(self)@.wf(),
    {
        if self.songs.len() > 0 {
            let last = self.songs.len() - 1;
            self.selected = match self.selected {
                None => Some(last),
                Some(i) => Some(if i >= 1 { i - 1 } else { 0 }),
            };
        }
        proof {
            assert(self@ =~= spec_select_previous(old(self)@));
        }
    }

    /// Clears the selection.
    pub fn select_none(&mut self)
        ensures
            final(self)@ == spec_select_none(old(self)@),
            old(self)@.wf() ==> final(self)@.wf(),
    {
        self.selected = None;
        proof {
            assert(self@ =~= spec_select_none(old(self)@));
        }
    }

    /// Removes the song at `index`. Fails exactly when `index` is out of
    /// bounds, leaving the queue unchanged. On success the result says
    /// whether the removed song was the one playing, so the caller can stop
    /// the audio output; the playing marker is then cleared.
    pub fn remove_at(&mut self, index: usize) -> (r: Result<bool, IndexError>)
        requires
            old(self)@.wf(),
        ensures
            r is Ok <==> index < old(self)@.songs.len(),
            r matches Ok(was_playing) ==> {
                &&& final(self)@ == spec_remove_at(old(self)@, index as int)
                &&& was_playing == (old(self)@.playing == Option::Some(index as int))
            },
            r is Err ==> *final(self) == *old(self),
            old(self)@.playing == Option::Some(index as int) ==> final(self)@.playing is None,
            final(self)@.wf(),
    {
        if index >= self.songs.len() {
            return Err(IndexError);
        }
        let _removed = self.songs.remove(index);
        let was_playing = match self.playing {
            Some(p) => p == index,
            None => false,
        };
        self.playing = match self.playing {
            None => None,
            Some(p) => {
                if p == index {
                    None
                } else if index < p {
                    Some(p - 1)
                } else {
                    Some(p)
                }
            },
        };
        let new_len = self.songs.len();
        self.selected = match self.selected {
            None => None,
            Some(s) => {
                if index < s {
                    Some(s - 1)
                } else if s < new_len {
                    Some(s)
                } else if new_len > 0 {
                    Some(new_len - 1)
                } else {
                    None
                }
            },
        };
        proof {
            assert(self@.songs =~= old(self)@.songs.remove(index as int));
            assert(self@ =~= spec_remove_at(old(self)@, index as int));
        }
        Ok(was_playing)
    }

    /// Hands the selected song to the audio output: returns its index and
    /// marks it playing. Fails exactly when nothing is selected, leaving the
    /// queue unchanged.
    pub fn play_selected(&mut self) -> (r: Result<usize, NoSelectionError>)
        requires
            old(self)@.wf(),
        ensures
            r is Ok <==> old(self)@.selected is Some,
            r matches Ok(i) ==> {
                &&& old(self)@.selected == Option::Some(i as int)
                &&& final(self)@ == spec_play_selected(old(self)@)
            },
            r is Err ==> *final(self) == *old(self),
            final(self)@.wf(),
    {
        match self.selected {
            Some(i) => {
                self.playing = Some(i);
                proof {
                    assert(self@ =~= spec_play_selected(old(self)@));
                }
                Ok(i)
            },
            None => Err(NoSelectionError),
        }
    }

    /// Marks nothing as playing: the current song was skipped and no song
    /// counts as playing until the next explicit play.
    pub fn skip(&mut self)
        ensures
            final(self)@ == spec_skip(old(self)@),
            old(self)@.wf() ==> final(self)@.wf(),
    {
        self.playing = None;
        proof {
            assert(self@ =~= spec_skip(old(self)@));
        }
    }
}

/// Law: on a non-empty queue with a selection that is not already at the
/// last index, one step forward followed by one step back returns the
/// selection to where it was. (At the last index the forward step saturates,
/// so the pair ends one short of where it began; from an empty selection the
/// pair ends at the first song.)
pub proof fn lemma_select_next_then_previous(q: QueueView)
    requires
        q.wf(),
        q.songs.len() > 0,
        q.selected matches Option::Some(i) && i + 1 < q.songs.len(),
    ensures
        spec_select_previous(spec_select_next(q)).selected == q.selected,
        spec_select_previous(spec_select_next(q)) == q,
{
    assert(spec_select_previous(spec_select_next(q)) =~= q);
}

/// Law: stepping the selection forward saturates at the last index — once
/// there, any number of further forward steps leaves it there.
pub proof fn lemma_select_next_saturates(q: QueueView)
    requires
        q.wf(),
        q.songs.len() > 0,
        q.selected == Option::Some(q.songs.len() - 1),
    ensures
        spec_select_next(q) == q,
{
    assert(spec_select_next(q) =~= q);
}

/// Law: removing the playing song always clears the playing marker,
/// whatever the rest of the queue state.
pub proof fn lemma_remove_playing_clears_playing(q: QueueView, i: int)
    requires
        q.wf(),
        0 <= i < q.songs.len(),
        q.playing == Option::Some(i),
    ensures
        spec_remove_at(q, i).playing is None,
{
}

} // verus!
