//! The player session: the single owner of focus, queue, library, and the
//! exit flag, mutated only from the key-handling path.
//!
//! Handling a key routes it, applies the resulting action to the session
//! state, and reports back both the action (so the caller can move its tree
//! cursor or redraw) and the command owed to the audio output. The session
//! itself never touches a device: playback, pause, and skip are requests
//! the caller carries out.

use vstd::prelude::*;

use crate::input::{spec_route, route, Action, FocusState, KeyInput};
use crate::library::Library;
use crate::queue::{
    spec_play_selected, spec_select_next, spec_select_none, spec_select_previous, spec_skip, Queue,
};

verus! {

/// What the session asks of the audio output after a key is handled.
#[derive(Debug, Clone, Copy, PartialEq, Eq, Structural)]
pub enum AudioCmd {
    /// No request.
    Nothing,
    /// Decode the queue's song at this index and start playing it.
    Play(usize),
    /// Pause the output.
    Pause,
    /// Resume the output.
    Resume,
    /// Advance the output past the current song.
    Skip,
}

/// One running player: the focused pane, the playback queue, the browsable
/// library, and whether the user asked to leave.
pub struct Session {
    pub focus: FocusState,
    pub queue: Queue,
    pub library: Library,
    pub should_exit: bool,
}

impl Session {
    /// A fresh session: queue pane focused, empty queue, empty library.
    pub fn new() -> (s: Session)
        ensures
            s.focus == FocusState::Queue,
            !s.should_exit,
            s.queue@.songs.len() == 0,
            s.queue@.selected is None,
            s.queue@.playing is None,
            s.queue@.wf(),
            s.library.songs@.len() == 0,
            s.library.tree_entries@.len() == 0,
    {
        let s = Session {
            focus: FocusState::Queue,
            queue: Queue::new(),
            library: Library::new(),
            should_exit: false,
        };
        proof {
            assert(s.library.songs@.len() == s.library.songs.deep_view().len());
            assert(s.library.tree_entries@.len() == s.library.tree_entries.deep_view().len());
        }
        s
    }

    /// Routes one key event and applies its action: focus changes move the
    /// focus, queue actions move the queue's cursors, exit raises the exit
    /// flag, and the returned pair carries the routed action together with
    /// the command owed to the audio output (`audio_paused` tells the
    /// session whether the output is currently paused, so toggling pause
    /// can pick a direction). A play request with nothing selected is
    /// ignored, as recoverable user error. Tree cursor actions leave the
    /// session untouched: the caller owns the tree cursor.
    pub fn handle_key(&mut self, key: KeyInput, audio_paused: bool) -> (r: (Action, AudioCmd))
        requires
            old(self)@.wf(),
        ensures
            final(self)@.wf(),
            r.0 == spec_route(old(self).focus, key),
            final(self).library == old(self).library,
            r.0 matches Action::ChangeFocus(f) ==> *final(self) == (Session {
                focus: f,
                ..*old(self)
            }) && r.1 == AudioCmd::Nothing,
            r.0 == Action::Exit ==> *final(self) == (Session {
                should_exit: true,
                ..*old(self)
            }) && r.1 == AudioCmd::Nothing,
            r.0 == Action::QueueSelectNext ==> final(self).queue@ == spec_select_next(
                old(self).queue@,
            ) && only_queue_changed(*old(self), *final(self)) && r.1 == AudioCmd::Nothing,
            r.0 == Action::QueueSelectPrevious ==> final(self).queue@ == spec_select_previous(
                old(self).queue@,
            ) && only_queue_changed(*old(self), *final(self)) && r.1 == AudioCmd::Nothing,
            r.0 == Action::QueueSelectNone ==> final(self).queue@ == spec_select_none(
                old(self).queue@,
            ) && only_queue_changed(*old(self), *final(self)) && r.1 == AudioCmd::Nothing,
            r.0 == Action::QueuePlaySelected ==> match old(self).queue@.selected {
                Option::Some(i) => final(self).queue@ == spec_play_selected(old(self).queue@)
                    && only_queue_changed(*old(self), *final(self)) && r.1 == AudioCmd::Play(
                    i as usize,
                ),
                Option::None => *final(self) == *old(self) && r.1 == AudioCmd::Nothing,
            },
            r.0 == Action::QueueTogglePause ==> *final(self) == *old(self) && r.1 == (
            if audio_paused {
                AudioCmd::Resume
            } else {
                AudioCmd::Pause
            }),
            r.0 == Action::QueueSkip ==> final(self).queue@ == spec_skip(old(self).queue@)
                && only_queue_changed(*old(self), *final(self)) && r.1 == AudioCmd::Skip,
            (r.0 == Action::TreeCursorUp || r.0 == Action::TreeCursorDown || r.0
                == Action::TreeCursorLeft || r.0 == Action::TreeCursorRight || r.0
                == Action::TreeActivate || r.0 == Action::Noop) ==> *final(self) == *old(self) && r.1
                == AudioCmd::Nothing,
    {
        let action = route(self.focus, key);
        let cmd = match action {
            Action::ChangeFocus(f) => {
                self.focus = f;
                AudioCmd::Nothing
            },
            Action::Exit => {
                self.should_exit = true;
                AudioCmd::Nothing
            },
            Action::QueueSelectNext => {
                self.queue.select_next();
                AudioCmd::Nothing
            },
            Action::QueueSelectPrevious => {
                self.queue.select_previous();
                AudioCmd::Nothing
            },
            Action::QueueSelectNone => {
                self.queue.select_none();
                AudioCmd::Nothing
            },
            Action::QueuePlaySelected => {
                match self.queue.play_selected() {
                    Ok(i) => AudioCmd::Play(i),
                    Err(_) => AudioCmd::Nothing,
                }
            },
            Action::QueueTogglePause => {
                if audio_paused {
                    AudioCmd::Resume
                } else {
                    AudioCmd::Pause
                }
            },
            Action::QueueSkip => {
                self.queue.skip();
                AudioCmd::Skip
            },
            Action::TreeCursorUp => AudioCmd::Nothing,
            Action::TreeCursorDown => AudioCmd::Nothing,
            Action::TreeCursorLeft => AudioCmd::Nothing,
            Action::TreeCursorRight => AudioCmd::Nothing,
            Action::TreeActivate => AudioCmd::Nothing,
            Action::Noop => AudioCmd::Nothing,
        };
        (action, cmd)
    }
}

impl View for Session {
    type V = SessionGhost;

    open spec fn view(&self) -> SessionGhost {
        SessionGhost { queue: self.queue@ }
    }
}

/// The part of the session that carries an invariant: its queue.
#[verifier::ext_equal]
pub struct SessionGhost {
    pub queue: crate::queue::QueueView,
}

impl SessionGhost {
    /// The session's queue is well formed.
    pub open spec fn wf(self) -> bool {
        self.queue.wf()
    }
}

/// Everything but the queue is the same in both sessions.
pub open spec fn only_queue_changed(a: Session, b: Session) -> bool {
    &&& a.focus == b.focus
    &&& a.library == b.library
    &&& a.should_exit == b.should_exit
}

} // verus!
