//! Tests for the input router and the session state machine: routing is
//! total and deterministic, global bindings win, and handled keys move the
//! session the way the routed action says.

use jukebox::{
    route, Action, AudioCmd, FocusState, KeyCode, KeyInput, KeyMods, Session, Song,
};

fn key(code: KeyCode) -> KeyInput {
    KeyInput { code, mods: KeyMods::Plain, press: true }
}

fn key_with(code: KeyCode, mods: KeyMods) -> KeyInput {
    KeyInput { code, mods, press: true }
}

fn song(title: &str) -> Song {
    Song {
        path: format!("music/{}.wav", title),
        title: title.to_string(),
        artist: "Artist".to_string(),
        album: "Album".to_string(),
        track_num: "1".to_string(),
        album_tracks_total: "2".to_string(),
        year: "2010".to_string(),
    }
}

#[test]
fn scenario_down_depends_on_focus() {
    let down = key(KeyCode::Down);
    assert_eq!(route(FocusState::Tree, down), Action::TreeCursorDown);
    assert_eq!(route(FocusState::Queue, down), Action::QueueSelectNext);
}

#[test]
fn exit_binding_wins_whatever_the_focus() {
    let quit = key_with(KeyCode::Char('q'), KeyMods::Alt);
    assert_eq!(route(FocusState::Queue, quit), Action::Exit);
    assert_eq!(route(FocusState::Tree, quit), Action::Exit);
    assert_eq!(route(FocusState::Player, quit), Action::Exit);
}

#[test]
fn skip_binding_is_global() {
    let skip = key_with(KeyCode::Char('N'), KeyMods::Shift);
    assert_eq!(route(FocusState::Queue, skip), Action::QueueSkip);
    assert_eq!(route(FocusState::Tree, skip), Action::QueueSkip);
    assert_eq!(route(FocusState::Player, skip), Action::QueueSkip);
}

#[test]
fn focus_keys_change_focus() {
    assert_eq!(
        route(FocusState::Queue, key(KeyCode::Char('t'))),
        Action::ChangeFocus(FocusState::Tree)
    );
    assert_eq!(
        route(FocusState::Tree, key(KeyCode::Char('p'))),
        Action::ChangeFocus(FocusState::Player)
    );
    assert_eq!(
        route(FocusState::Tree, key(KeyCode::Char('q'))),
        Action::ChangeFocus(FocusState::Queue)
    );
}

#[test]
fn queue_pane_bindings() {
    assert_eq!(route(FocusState::Queue, key(KeyCode::Enter)), Action::QueuePlaySelected);
    assert_eq!(route(FocusState::Queue, key(KeyCode::Char(' '))), Action::QueueTogglePause);
    assert_eq!(route(FocusState::Queue, key(KeyCode::Up)), Action::QueueSelectPrevious);
    assert_eq!(route(FocusState::Queue, key(KeyCode::Esc)), Action::QueueSelectNone);
}

#[test]
fn tree_pane_bindings() {
    assert_eq!(route(FocusState::Tree, key(KeyCode::Up)), Action::TreeCursorUp);
    assert_eq!(route(FocusState::Tree, key(KeyCode::Left)), Action::TreeCursorLeft);
    assert_eq!(route(FocusState::Tree, key(KeyCode::Right)), Action::TreeCursorRight);
    assert_eq!(route(FocusState::Tree, key(KeyCode::Enter)), Action::TreeActivate);
}

#[test]
fn unbound_keys_are_explicit_noops() {
    assert_eq!(route(FocusState::Player, key(KeyCode::Down)), Action::Noop);
    assert_eq!(route(FocusState::Queue, key(KeyCode::Char('z'))), Action::Noop);
    assert_eq!(route(FocusState::Tree, key(KeyCode::Other)), Action::Noop);
    let release = KeyInput { code: KeyCode::Down, mods: KeyMods::Plain, press: false };
    assert_eq!(route(FocusState::Queue, release), Action::Noop);
}

#[test]
fn routing_is_deterministic() {
    let k = key(KeyCode::Enter);
    assert_eq!(route(FocusState::Queue, k), route(FocusState::Queue, k));
}

#[test]
fn session_selects_plays_and_skips() {
    let mut s = Session::new();
    s.queue.append(song("A"));
    s.queue.append(song("B"));
    let (a, cmd) = s.handle_key(key(KeyCode::Down), false);
    assert_eq!(a, Action::QueueSelectNext);
    assert_eq!(cmd, AudioCmd::Nothing);
    assert_eq!(s.queue.selected, Some(0));
    let (a, cmd) = s.handle_key(key(KeyCode::Enter), false);
    assert_eq!(a, Action::QueuePlaySelected);
    assert_eq!(cmd, AudioCmd::Play(0));
    assert_eq!(s.queue.playing, Some(0));
    let (a, cmd) = s.handle_key(key_with(KeyCode::Char('N'), KeyMods::Shift), false);
    assert_eq!(a, Action::QueueSkip);
    assert_eq!(cmd, AudioCmd::Skip);
    assert_eq!(s.queue.playing, None);
}

#[test]
fn session_ignores_play_without_selection() {
    let mut s = Session::new();
    s.queue.append(song("A"));
    let (a, cmd) = s.handle_key(key(KeyCode::Enter), false);
    assert_eq!(a, Action::QueuePlaySelected);
    assert_eq!(cmd, AudioCmd::Nothing);
    assert_eq!(s.queue.playing, None);
}

#[test]
fn session_toggles_pause_both_ways() {
    let mut s = Session::new();
    let space = key(KeyCode::Char(' '));
    let (_, cmd) = s.handle_key(space, false);
    assert_eq!(cmd, AudioCmd::Pause);
    let (_, cmd) = s.handle_key(space, true);
    assert_eq!(cmd, AudioCmd::Resume);
}

#[test]
fn session_changes_focus_and_exits() {
    let mut s = Session::new();
    assert_eq!(s.focus, FocusState::Queue);
    let (a, _) = s.handle_key(key(KeyCode::Char('t')), false);
    assert_eq!(a, Action::ChangeFocus(FocusState::Tree));
    assert_eq!(s.focus, FocusState::Tree);
    let (a, _) = s.handle_key(key(KeyCode::Down), false);
    assert_eq!(a, Action::TreeCursorDown);
    assert!(!s.should_exit);
    let (a, _) = s.handle_key(key_with(KeyCode::Char('q'), KeyMods::Alt), false);
    assert_eq!(a, Action::Exit);
    assert!(s.should_exit);
}
