use vstd::prelude::*;

use self::game_state::{GameState, GameStateView};
use self::main_menu_state::{menu_labels, MainMenuState, MainMenuView};

pub mod game_state;
pub mod main_menu_state;

verus! {

/// The screen the player is on, with its state.
#[derive(Debug, Clone, PartialEq)]
pub enum Model {
    MainMenu(MainMenuState),
    Game(GameState),
}

/// Abstract value of a `Model`.
pub enum ModelView {
    MainMenu(MainMenuView),
    Game(GameStateView),
}

impl View for Model {
    type V = ModelView;

    open spec fn view(&self) -> ModelView {
        match self {
            Model::MainMenu(s) => ModelView::MainMenu(s@),
            Model::Game(s) => ModelView::Game(s@),
        }
    }
}

impl Model {
    /// The model at program start: the main menu with its first option selected.
    pub fn new() -> (r: Self)
        ensures
            r@ == ModelView::MainMenu(MainMenuView { options: menu_labels(), selection: 0 }),
    {
        Model::MainMenu(MainMenuState::new())
    }
}

} // verus!
