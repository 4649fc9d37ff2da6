use adventure::action::Action;
use adventure::dispatcher::{apply_action, Command, Key};
use adventure::message::{should_stop, Message};
use adventure::model::game_state::GameState;
use adventure::model::Model;

fn game_of(model: &Model) -> &GameState {
    match model {
        Model::Game(state) => state,
        Model::MainMenu(_) => panic!("expected a game"),
    }
}

fn started_game() -> Model {
    let mut model = Model::new();
    assert_eq!(model.handle_key(Key::Enter), Command::StartGame);
    model.open_game(Action::NewScene {
        name: String::from("North"),
        desc: String::from("..."),
    });
    model
}

#[test]
fn start_game_opens_first_scene() {
    let model = started_game();
    let state = game_of(&model);
    assert_eq!(state.get_scene_title(), "North");
    assert_eq!(state.get_scene_desc(), "...");
    assert!(state.get_scene_history().is_empty());
    assert_eq!(state.get_scroll_position(), 0);
    assert!(state.is_entry_enabled());
}

#[test]
fn menu_keys_move_selection() {
    let mut model = Model::new();
    assert_eq!(model.handle_key(Key::Down), Command::Show);
    assert_eq!(model.handle_key(Key::Char('j')), Command::Show);
    match &model {
        Model::MainMenu(m) => assert_eq!(m.get_selection(), "Settings"),
        Model::Game(_) => panic!("expected the menu"),
    }
    assert_eq!(model.handle_key(Key::Char('k')), Command::Show);
    assert_eq!(model.handle_key(Key::Up), Command::Show);
    assert_eq!(model.handle_key(Key::Up), Command::Show);
    match &model {
        Model::MainMenu(m) => assert_eq!(m.get_selection(), "Quit"),
        Model::Game(_) => panic!("expected the menu"),
    }
}

#[test]
fn other_menu_options_are_unavailable() {
    let mut model = Model::new();
    model.handle_key(Key::Down);
    assert_eq!(model.handle_key(Key::Enter), Command::Unavailable(String::from("Continue")));
    assert!(matches!(model, Model::MainMenu(_)));
}

#[test]
fn escape_quits_from_menu_and_game() {
    let mut model = Model::new();
    assert_eq!(model.handle_key(Key::Esc), Command::Quit);
    let mut game = started_game();
    assert_eq!(game.handle_key(Key::Esc), Command::Quit);
}

#[test]
fn typing_keeps_first_hundred_characters() {
    let mut model = started_game();
    let typed: String = (0..130).map(|i| char::from(b'a' + (i % 26) as u8)).collect();
    for c in typed.chars() {
        assert_eq!(model.handle_key(Key::Char(c)), Command::Show);
    }
    let state = game_of(&model);
    assert_eq!(state.get_user_entry(), &typed[..100]);
}

#[test]
fn backspace_key_on_empty_entry_is_a_no_op() {
    let mut model = started_game();
    let before = model.clone();
    assert_eq!(model.handle_key(Key::Backspace), Command::Show);
    assert_eq!(model, before);
}

#[test]
fn enter_submits_entry_and_disables_it() {
    let mut model = started_game();
    for c in "go north".chars() {
        model.handle_key(Key::Char(c));
    }
    assert_eq!(model.handle_key(Key::Enter), Command::Submit(String::from("go north")));
    let state = game_of(&model);
    assert!(!state.is_entry_enabled());
    model.handle_key(Key::Char('x'));
    assert_eq!(game_of(&model).get_user_entry(), "go north");
}

#[test]
fn scroll_keys_move_the_view() {
    let mut model = started_game();
    model.handle_key(Key::PageUp);
    model.handle_key(Key::Up);
    assert_eq!(game_of(&model).get_scroll_position(), 11);
    model.handle_key(Key::Down);
    assert_eq!(game_of(&model).get_scroll_position(), 10);
    model.handle_key(Key::PageDown);
    model.handle_key(Key::PageDown);
    assert_eq!(game_of(&model).get_scroll_position(), 0);
}

#[test]
fn completed_turn_echoes_input_and_applies_action() {
    let mut model = started_game();
    for c in "take lamp".chars() {
        model.handle_key(Key::Char(c));
    }
    model.handle_key(Key::Enter);
    model.complete_turn(Action::AddToInventory {
        item: String::from("lamp"),
        message: String::from("You take the lamp."),
    });
    let state = game_of(&model);
    assert_eq!(
        state.get_scene_history(),
        &vec![String::from("> take lamp"), String::from("You take the lamp.")]
    );
    assert_eq!(state.get_inventory(), &vec![String::from("lamp")]);
    assert_eq!(state.get_user_entry(), "");
    assert!(state.is_entry_enabled());
}

#[test]
fn end_game_appends_message_and_disables_entry() {
    for enabled in [true, false] {
        let mut state = GameState::new();
        if !enabled {
            state.disable_entry();
        }
        state.append_scene_history(String::from("earlier"));
        apply_action(&mut state, Action::EndGame { message: String::from("You died.") });
        assert_eq!(
            state.get_scene_history(),
            &vec![String::from("earlier"), String::from("You died.")]
        );
        assert!(!state.is_entry_enabled());
    }
}

#[test]
fn information_and_removal_enable_entry() {
    let mut state = GameState::new();
    state.add_to_inventory(String::from("apple"));
    state.disable_entry();
    apply_action(
        &mut state,
        Action::RemoveFromInventory {
            item: String::from("apple"),
            message: String::from("You eat the apple."),
        },
    );
    assert!(state.get_inventory().is_empty());
    assert!(state.is_entry_enabled());
    state.disable_entry();
    apply_action(&mut state, Action::Information { message: String::from("Quiet.") });
    assert!(state.is_entry_enabled());
    assert_eq!(
        state.get_scene_history(),
        &vec![String::from("You eat the apple."), String::from("Quiet.")]
    );
}

#[test]
fn new_scene_action_clears_history() {
    let mut model = started_game();
    model.handle_key(Key::Char('n'));
    model.handle_key(Key::Enter);
    model.complete_turn(Action::NewScene {
        name: String::from("Hall"),
        desc: String::from("A long hall."),
    });
    let state = game_of(&model);
    assert_eq!(state.get_scene_title(), "Hall");
    assert!(state.get_scene_history().is_empty());
    assert!(state.is_entry_enabled());
}

#[test]
fn opening_with_other_action_keeps_placeholder_scene() {
    let mut model = Model::new();
    model.handle_key(Key::Enter);
    model.open_game(Action::Information { message: String::from("hello") });
    let state = game_of(&model);
    assert_eq!(state.get_scene_title(), "New Game");
    assert!(state.get_scene_history().is_empty());
}

#[test]
fn supervisor_stops_on_terminate_or_close() {
    assert!(should_stop(&None));
    assert!(should_stop(&Some(Message::Terminate)));
    assert!(!should_stop(&Some(Message::StateUpdate(Model::new()))));
}
