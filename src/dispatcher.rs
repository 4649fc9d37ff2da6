use vstd::prelude::*;

use crate::action::{Action, ActionView};
use crate::model::game_state::{echo_line, opening_state, GameState, GameStateView, ENTRY_CAPACITY};
use crate::model::main_menu_state::{next_index, prev_index, MainMenuView};
use crate::model::{Model, ModelView};
use crate::text::text_is;

verus! {

/// Lines moved by one step of the arrow keys.
pub const LINE_STEP: usize = 1;

/// Lines moved by one step of the page keys.
pub const PAGE_STEP: usize = 10;

/// The label of the menu option that starts a game.
pub const NEW_GAME_OPTION: &'static str = "New Game";

/// The input of the implicit first turn of a new game.
pub const OPENING_INPUT: &'static str = "start game";

/// A key press. Releases and repeats are not keys here.
#[derive(Debug, Clone, Copy, PartialEq, Eq, Structural)]
pub enum Key {
    Char(char),
    Backspace,
    Enter,
    Up,
    Down,
    PageUp,
    PageDown,
    Esc,
    Other,
}

/// What the loop running the state machine must do after a key.
#[derive(Debug, Clone, PartialEq, Eq)]
pub enum Command {
    /// Publish a snapshot of the model.
    Show,
    /// Tell the renderer and the supervisor to stop, and stop.
    Quit,
    /// A fresh game was entered: publish it, fetch a premise, and open its
    /// first scene with the input `OPENING_INPUT`.
    StartGame,
    /// The entry was submitted: ask the content service about this input.
    Submit(String),
    /// The selected menu option has no behaviour.
    Unavailable(String),
}

/// Abstract value of a `Command`.
pub enum CommandView {
    Show,
    Quit,
    StartGame,
    Submit(Seq<char>),
    Unavailable(Seq<char>),
}

impl View for Command {
    type V = CommandView;

    open spec fn view(&self) -> CommandView {
        match self {
            Command::Show => CommandView::Show,
            Command::Quit => CommandView::Quit,
            Command::StartGame => CommandView::StartGame,
            Command::Submit(s) => CommandView::Submit(s@),
            Command::Unavailable(s) => CommandView::Unavailable(s@),
        }
    }
}

/// The effect of a key on the main menu.
pub open spec fn menu_step(s: MainMenuView, k: Key) -> (ModelView, CommandView) {
    let n = s.options.len();
    if k == Key::Char('j') || k == Key::Down {
        (
            ModelView::MainMenu(MainMenuView { selection: next_index(s.selection, n), ..s }),
            CommandView::Show,
        )
    } else if k == Key::Char('k') || k == Key::Up {
        (
            ModelView::MainMenu(MainMenuView { selection: prev_index(s.selection, n), ..s }),
            CommandView::Show,
        )
    } else if k == Key::Enter {
        if s.options[s.selection as int] == NEW_GAME_OPTION@ {
            (ModelView::Game(opening_state()), CommandView::StartGame)
        } else {
            (ModelView::MainMenu(s), CommandView::Unavailable(s.options[s.selection as int]))
        }
    } else if k == Key::Esc {
        (ModelView::MainMenu(s), CommandView::Quit)
    } else {
        (ModelView::MainMenu(s), CommandView::Show)
    }
}

/// The effect of a key on a game. Text keys act only while entry is enabled;
/// scrolling and leaving always act.
pub open spec fn game_step(s: GameStateView, k: Key) -> (GameStateView, CommandView) {
    if k == Key::Esc {
        (s, CommandView::Quit)
    } else if k == Key::Up {
        (s.scrolled_up(LINE_STEP as nat), CommandView::Show)
    } else if k == Key::Down {
        (s.scrolled_down(LINE_STEP as nat), CommandView::Show)
    } else if k == Key::PageUp {
        (s.scrolled_up(PAGE_STEP as nat), CommandView::Show)
    } else if k == Key::PageDown {
        (s.scrolled_down(PAGE_STEP as nat), CommandView::Show)
    } else if !s.entry_enabled {
        (s, CommandView::Show)
    } else {
        match k {
            Key::Char(c) => (s.with_char(c), CommandView::Show),
            Key::Backspace => (s.with_backspace(), CommandView::Show),
            Key::Enter => (s.with_entry_enabled(false), CommandView::Submit(s.user_entry)),
            _ => (s, CommandView::Show),
        }
    }
}

/// The effect of a key on the model, and what must follow it.
pub open spec fn key_step(m: ModelView, k: Key) -> (ModelView, CommandView) {
    match m {
        ModelView::MainMenu(s) => menu_step(s, k),
        ModelView::Game(s) => {
            let (t, c) = game_step(s, k);
            (ModelView::Game(t), c)
        },
    }
}

/// The effect of an action on a game: a new scene replaces the old one; the
/// other actions add their message to the history. Every action but the end
/// of the game enables entry again.
pub open spec fn applied(s: GameStateView, a: ActionView) -> GameStateView {
    match a {
        ActionView::NewScene { name, desc } => s.with_scene(name, desc),
        ActionView::AddToInventory { item, message } => s.with_item(item).with_history_line(
            message,
        ).with_entry_enabled(true),
        ActionView::RemoveFromInventory { item, message } => s.without_item(item).with_history_line(
            message,
        ).with_entry_enabled(true),
        ActionView::Information { message } => s.with_history_line(message).with_entry_enabled(true),
        ActionView::EndGame { message } => s.with_history_line(message).with_entry_enabled(false),
    }
}

/// The effect of a completed turn: the entry is echoed into the history and
/// cleared, then the action applies.
pub open spec fn turn_completed(m: ModelView, a: ActionView) -> ModelView {
    match m {
        ModelView::Game(s) => ModelView::Game(applied(s.with_entry_submitted(), a)),
        _ => m,
    }
}

/// The effect of the opening action of a game: a new scene opens it; any
/// other action leaves the game as it is.
pub open spec fn game_opened(m: ModelView, a: ActionView) -> ModelView {
    match (m, a) {
        (ModelView::Game(s), ActionView::NewScene { name, desc }) => ModelView::Game(
            s.with_scene(name, desc),
        ),
        _ => m,
    }
}

/// The game after the characters are typed one after another.
pub open spec fn typed(s: GameStateView, cs: Seq<char>) -> GameStateView
    decreases cs.len(),
{
    if cs.len() == 0 {
        s
    } else {
        game_step(typed(s, cs.drop_last()), Key::Char(cs.last())).0
    }
}

/// How many of `typed` characters an entry of length `len` accepts: as many
/// as there is room for.
pub open spec fn accepted_count(len: nat, typed: nat) -> nat {
    if len + typed <= ENTRY_CAPACITY {
        typed
    } else if len <= ENTRY_CAPACITY {
        (ENTRY_CAPACITY - len) as nat
    } else {
        0
    }
}

/// Typing a run of characters never takes the entry past its capacity, and
/// leaves in it what it held followed by the characters accepted, in order.
/// Typing while entry is disabled changes nothing, and typing never changes
/// anything but the entry.
pub proof fn lemma_typing(s: GameStateView, cs: Seq<char>)
    requires
        s.user_entry.len() <= ENTRY_CAPACITY,
    ensures
        typed(s, cs).user_entry.len() <= ENTRY_CAPACITY,
        s.entry_enabled ==> typed(s, cs).user_entry == s.user_entry + cs.take(
            accepted_count(s.user_entry.len(), cs.len()) as int,
        ),
        !s.entry_enabled ==> typed(s, cs) == s,
        typed(s, cs) == (GameStateView { user_entry: typed(s, cs).user_entry, ..s }),
    decreases cs.len(),
{
    if cs.len() > 0 {
        let rest = cs.drop_last();
        lemma_typing(s, rest);
        let t = typed(s, rest);
        let c = cs.last();
        if s.entry_enabled && t.user_entry.len() < ENTRY_CAPACITY {
            assert(cs.take(cs.len() as int) =~= rest.take(rest.len() as int).push(c));
            assert(s.user_entry + cs.take(cs.len() as int) =~= (s.user_entry + rest.take(
                rest.len() as int,
            )).push(c));
        } else if s.entry_enabled {
            let k = accepted_count(s.user_entry.len(), rest.len()) as int;
            assert(cs.take(k) =~= rest.take(k));
        }
    }
}

/// Backspace on an empty entry changes nothing.
pub proof fn lemma_backspace_on_empty(s: GameStateView)
    requires
        s.user_entry.len() == 0,
    ensures
        game_step(s, Key::Backspace) == (s, CommandView::Show),
{
}

/// The end of the game adds its message to the history exactly as it is and
/// leaves entry disabled, whether or not it was enabled before; as the
/// outcome of a turn it follows the echo of the entry.
pub proof fn lemma_end_game(s: GameStateView, message: Seq<char>)
    ensures
        applied(s, ActionView::EndGame { message }).scene_history == s.scene_history.push(message),
        !applied(s, ActionView::EndGame { message }).entry_enabled,
        turn_completed(ModelView::Game(s), ActionView::EndGame { message }) == ModelView::Game(
            GameStateView {
                user_entry: Seq::empty(),
                entry_enabled: false,
                scene_history: s.scene_history.push(echo_line(s.user_entry)).push(message),
                scroll_position: 0,
                ..s
            },
        ),
{
}

/// Applies an action to a game.
pub fn apply_action(state: &mut GameState, action: Action)
    ensures
        final(state)@ == applied(old(state)@, action@),
{
    match action {
        Action::NewScene { name, desc } => {
            state.new_scene(name, desc);
        },
        Action::AddToInventory { item, message } => {
            state.add_to_inventory(item);
            state.append_scene_history(message);
            state.enable_entry();
        },
        Action::RemoveFromInventory { item, message } => {
            state.remove_from_inventory(item);
            state.append_scene_history(message);
            state.enable_entry();
        },
        Action::Information { message } => {
            state.append_scene_history(message);
            state.enable_entry();
        },
        Action::EndGame { message } => {
            state.append_scene_history(message);
            state.disable_entry();
        },
    }
}

impl Model {
    /// Runs the state machine on one key press.
    pub fn handle_key(&mut self, key: Key) -> (r: Command)
        ensures
            (final(self)@, r@) == key_step(old(self)@, key),
    {
        match self {
            Model::MainMenu(state) => {
                if key == Key::Char('j') || key == Key::Down {
                    state.select_next();
                    Command::Show
                } else if key == Key::Char('k') || key == Key::Up {
                    state.select_prev();
                    Command::Show
                } else if key == Key::Enter {
                    let selected = state.get_selection();
                    if text_is(selected, NEW_GAME_OPTION) {
                        *self = Model::Game(GameState::new());
                        Command::StartGame
                    } else {
                        Command::Unavailable(String::from_str(selected))
                    }
                } else if key == Key::Esc {
                    Command::Quit
                } else {
                    Command::Show
                }
            },
            Model::Game(state) => {
                if key == Key::Esc {
                    Command::Quit
                } else if key == Key::Up {
                    state.scroll_up(LINE_STEP);
                    Command::Show
                } else if key == Key::Down {
                    state.scroll_down(LINE_STEP);
                    Command::Show
                } else if key == Key::PageUp {
                    state.scroll_up(PAGE_STEP);
                    Command::Show
                } else if key == Key::PageDown {
                    state.scroll_down(PAGE_STEP);
                    Command::Show
                } else if !state.is_entry_enabled() {
                    Command::Show
                } else {
                    match key {
                        Key::Char(c) => {
                            state.append_entry(c);
                            Command::Show
                        },
                        Key::Backspace => {
                            state.remove_last_entry();
                            Command::Show
                        },
                        Key::Enter => {
                            state.disable_entry();
                            Command::Submit(String::from_str(state.get_user_entry()))
                        },
                        _ => Command::Show,
                    }
                }
            },
        }
    }

    /// Completes a submitted turn with the action the content service gave.
    /// Outside a game nothing changes.
    pub fn complete_turn(&mut self, action: Action)
        ensures
            final(self)@ == turn_completed(old(self)@, action@),
    {
        match self {
            Model::Game(state) => {
                state.push_input_to_history();
                apply_action(state, action);
            },
            Model::MainMenu(_) => {},
        }
    }

    /// Opens a fresh game with its first action, which is expected to be a new scene.
    pub fn open_game(&mut self, action: Action)
        ensures
            final(self)@ == game_opened(old(self)@, action@),
    {
        match self {
            Model::Game(state) => {
                match action {
                    Action::NewScene { name, desc } => {
                        state.new_scene(name, desc);
                    },
                    _ => {},
                }
            },
            Model::MainMenu(_) => {},
        }
    }
}

} // verus!
