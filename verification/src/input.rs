//! The input router: a total, pure map from the focused pane and a key
//! event to a single action.
//!
//! Global bindings are checked first and win over any focus-scoped binding
//! with the same key: quit on Alt+Q, skip the playing song on Shift+N. Focus
//! changes come next (T, P, Q choose a pane), and only then does the focused
//! pane read its own keys. Every key maps to some action; a key nothing is
//! bound to maps to the explicit no-op.

use vstd::prelude::*;

verus! {

/// Which pane currently receives routed key input; exactly one is active.
#[derive(Debug, Clone, Copy, PartialEq, Eq, Structural)]
pub enum FocusState {
    Queue,
    Player,
    Tree,
}

/// The keys the player distinguishes; anything else is [`KeyCode::Other`].
#[derive(Debug, Clone, Copy, PartialEq, Eq, Structural)]
pub enum KeyCode {
    Char(char),
    Up,
    Down,
    Left,
    Right,
    Enter,
    Esc,
    Other,
}

/// The modifier set held with a key, as the router distinguishes them: none,
/// exactly Alt, exactly Shift, or any other combination.
#[derive(Debug, Clone, Copy, PartialEq, Eq, Structural)]
pub enum KeyMods {
    Plain,
    Alt,
    Shift,
    Other,
}

/// One key event: the key, its modifiers, and whether this is a press
/// (releases and repeats are routed to the no-op).
#[derive(Debug, Clone, Copy, PartialEq, Eq, Structural)]
pub struct KeyInput {
    pub code: KeyCode,
    pub mods: KeyMods,
    pub press: bool,
}

/// Everything a key event can ask of the player.
#[derive(Debug, Clone, Copy, PartialEq, Eq, Structural)]
pub enum Action {
    ChangeFocus(FocusState),
    QueueSelectNext,
    QueueSelectPrevious,
    QueueSelectNone,
    QueuePlaySelected,
    QueueTogglePause,
    QueueSkip,
    TreeCursorUp,
    TreeCursorDown,
    TreeCursorLeft,
    TreeCursorRight,
    TreeActivate,
    Exit,
    Noop,
}

/// The action that `key` requests while `focus` is active. Total: every
/// pair maps to exactly one action, the unbound ones to the no-op.
pub open spec fn spec_route(focus: FocusState, key: KeyInput) -> Action {
    if !key.press {
        Action::Noop
    } else if key.code == KeyCode::Char('q') && key.mods == KeyMods::Alt {
        Action::Exit
    } else if key.code == KeyCode::Char('N') && key.mods == KeyMods::Shift {
        Action::QueueSkip
    } else if key.code == KeyCode::Char('t') {
        Action::ChangeFocus(FocusState::Tree)
    } else if key.code == KeyCode::Char('p') {
        Action::ChangeFocus(FocusState::Player)
    } else if key.code == KeyCode::Char('q') {
        Action::ChangeFocus(FocusState::Queue)
    } else {
        match focus {
            FocusState::Queue => match key.code {
                KeyCode::Enter => Action::QueuePlaySelected,
                KeyCode::Char(c) => if c == ' ' {
                    Action::QueueTogglePause
                } else {
                    Action::Noop
                },
                KeyCode::Down => Action::QueueSelectNext,
                KeyCode::Up => Action::QueueSelectPrevious,
                KeyCode::Esc => Action::QueueSelectNone,
                _ => Action::Noop,
            },
            FocusState::Tree => match key.code {
                KeyCode::Down => Action::TreeCursorDown,
                KeyCode::Up => Action::TreeCursorUp,
                KeyCode::Right => Action::TreeCursorRight,
                KeyCode::Left => Action::TreeCursorLeft,
                KeyCode::Enter => Action::TreeActivate,
                _ => Action::Noop,
            },
            FocusState::Player => Action::Noop,
        }
    }
}

/// Routes one key event: returns exactly the action [`spec_route`] assigns
/// to the pair, for every pair.
pub fn route(focus: FocusState, key: KeyInput) -> (a: Action)
    ensures
        a == spec_route(focus, key),
{
    if !key.press {
        return Action::Noop;
    }
    let is_alt = matches!(key.mods, KeyMods::Alt);
    let is_shift = matches!(key.mods, KeyMods::Shift);
    match key.code {
        KeyCode::Char(c) => {
            if c == 'q' && is_alt {
                return Action::Exit;
            }
            if c == 'N' && is_shift {
                return Action::QueueSkip;
            }
            if c == 't' {
                return Action::ChangeFocus(FocusState::Tree);
            }
            if c == 'p' {
                return Action::ChangeFocus(FocusState::Player);
            }
            if c == 'q' {
                return Action::ChangeFocus(FocusState::Queue);
            }
            match focus {
                FocusState::Queue => {
                    if c == ' ' {
                        Action::QueueTogglePause
                    } else {
                        Action::Noop
                    }
                },
                _ => Action::Noop,
            }
        },
        _ => {
            match focus {
                FocusState::Queue => match key.code {
                    KeyCode::Enter => Action::QueuePlaySelected,
                    KeyCode::Down => Action::QueueSelectNext,
                    KeyCode::Up => Action::QueueSelectPrevious,
                    KeyCode::Esc => Action::QueueSelectNone,
                    _ => Action::Noop,
                },
                FocusState::Tree => match key.code {
                    KeyCode::Down => Action::TreeCursorDown,
                    KeyCode::Up => Action::TreeCursorUp,
                    KeyCode::Right => Action::TreeCursorRight,
                    KeyCode::Left => Action::TreeCursorLeft,
                    KeyCode::Enter => Action::TreeActivate,
                    _ => Action::Noop,
                },
                FocusState::Player => Action::Noop,
            }
        },
    }
}

/// Law: the global exit binding (Alt+Q pressed) wins whatever pane has
/// focus.
pub proof fn lemma_exit_wins_over_focus(focus: FocusState, key: KeyInput)
    requires
        key.press,
        key.code == KeyCode::Char('q'),
        key.mods == KeyMods::Alt,
    ensures
        spec_route(focus, key) == Action::Exit,
{
}

/// Law: the router is deterministic — equal inputs always route to the same
/// action, whichever pane they concern. (Totality needs no law of its own:
/// [`spec_route`] assigns an action to every pair, and [`route`] returns it.)
pub proof fn lemma_route_deterministic(
    f1: FocusState,
    k1: KeyInput,
    f2: FocusState,
    k2: KeyInput,
)
    requires
        f1 == f2,
        k1 == k2,
    ensures
        spec_route(f1, k1) == spec_route(f2, k2),
{
}

} // verus!
