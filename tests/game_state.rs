use adventure::model::game_state::{GameState, ENTRY_CAPACITY, OPENING_DESCRIPTION, OPENING_TITLE};

#[test]
fn new_game_state_is_empty() {
    let s = GameState::new();
    assert_eq!(s.get_scene_title(), OPENING_TITLE);
    assert_eq!(s.get_scene_desc(), OPENING_DESCRIPTION);
    assert!(s.get_inventory().is_empty());
    assert!(s.get_scene_history().is_empty());
    assert_eq!(s.get_user_entry(), "");
    assert!(s.is_entry_enabled());
    assert_eq!(s.get_scroll_position(), 0);
}

#[test]
fn entry_stops_at_capacity() {
    let mut s = GameState::new();
    for i in 0..(ENTRY_CAPACITY + 5) {
        s.append_entry(char::from(b'a' + (i % 26) as u8));
    }
    assert_eq!(s.entry_len(), 100);
    let expected: String = (0..100).map(|i| char::from(b'a' + (i % 26) as u8)).collect();
    assert_eq!(s.get_user_entry(), expected);
}

#[test]
fn entry_counts_characters_not_bytes() {
    let mut s = GameState::new();
    for _ in 0..120 {
        s.append_entry('é');
    }
    assert_eq!(s.entry_len(), 100);
    assert_eq!(s.get_user_entry().chars().count(), 100);
}

#[test]
fn backspace_removes_last_character() {
    let mut s = GameState::new();
    s.append_entry('g');
    s.append_entry('o');
    s.remove_last_entry();
    assert_eq!(s.get_user_entry(), "g");
}

#[test]
fn backspace_on_empty_entry_changes_nothing() {
    let mut s = GameState::new();
    let before = s.clone();
    s.remove_last_entry();
    assert_eq!(s, before);
    s.remove_last_entry();
    assert_eq!(s, before);
}

#[test]
fn submitted_entry_is_echoed_and_cleared() {
    let mut s = GameState::new();
    s.append_entry('l');
    s.append_entry('o');
    s.append_entry('o');
    s.append_entry('k');
    s.scroll_up(3);
    s.push_input_to_history();
    assert_eq!(s.get_scene_history(), &vec![String::from("> look")]);
    assert_eq!(s.get_user_entry(), "");
    assert_eq!(s.get_scroll_position(), 0);
}

#[test]
fn scrolling_round_trips() {
    let mut s = GameState::new();
    s.scroll_up(7);
    assert_eq!(s.get_scroll_position(), 7);
    s.scroll_down(7);
    assert_eq!(s.get_scroll_position(), 0);
    s.scroll_up(10);
    s.scroll_down(4);
    s.scroll_up(4);
    assert_eq!(s.get_scroll_position(), 10);
}

#[test]
fn scrolling_down_stops_at_bottom() {
    let mut s = GameState::new();
    s.scroll_up(3);
    s.scroll_down(10);
    assert_eq!(s.get_scroll_position(), 0);
    s.scroll_down(1);
    assert_eq!(s.get_scroll_position(), 0);
}

#[test]
fn scrolling_up_saturates() {
    let mut s = GameState::new();
    s.scroll_up(usize::MAX);
    s.scroll_up(5);
    assert_eq!(s.get_scroll_position(), usize::MAX);
}

#[test]
fn history_append_resets_scroll() {
    let mut s = GameState::new();
    s.scroll_up(5);
    s.append_scene_history(String::from("A bat flutters past."));
    assert_eq!(s.get_scroll_position(), 0);
    assert_eq!(s.get_scene_history(), &vec![String::from("A bat flutters past.")]);
}

#[test]
fn new_scene_replaces_scene() {
    let mut s = GameState::new();
    s.append_scene_history(String::from("old line"));
    s.disable_entry();
    s.scroll_up(2);
    s.new_scene(String::from("Cellar"), String::from("Damp and dark."));
    assert_eq!(s.get_scene_title(), "Cellar");
    assert_eq!(s.get_scene_desc(), "Damp and dark.");
    assert!(s.get_scene_history().is_empty());
    assert!(s.is_entry_enabled());
    assert_eq!(s.get_scroll_position(), 0);
}

#[test]
fn inventory_keeps_duplicates_and_removes_all_copies() {
    let mut s = GameState::new();
    s.add_to_inventory(String::from("coin"));
    s.add_to_inventory(String::from("key"));
    s.add_to_inventory(String::from("coin"));
    assert_eq!(
        s.get_inventory(),
        &vec![String::from("coin"), String::from("key"), String::from("coin")]
    );
    s.remove_from_inventory(String::from("coin"));
    assert_eq!(s.get_inventory(), &vec![String::from("key")]);
    s.remove_from_inventory(String::from("map"));
    assert_eq!(s.get_inventory(), &vec![String::from("key")]);
}

#[test]
fn entry_can_be_disabled_and_enabled() {
    let mut s = GameState::new();
    s.disable_entry();
    assert!(!s.is_entry_enabled());
    s.enable_entry();
    assert!(s.is_entry_enabled());
}
