use adventure::action::{Action, ActionError};
use adventure::game_loader::{reply_text, ActionHistoryItem, Context, GameLoader, HISTORY_LIMIT};
use adventure::model::game_state::GameState;

fn info_reply(n: usize) -> String {
    format!("type: Information\nmessage: turn {}\n", n)
}

#[test]
fn history_keeps_twelve_latest_turns() {
    let mut loader = GameLoader::new();
    for n in 1..=13 {
        let input = format!("input {}", n);
        let action = loader.process_reply(&input, &info_reply(n)).unwrap();
        assert_eq!(action, Action::Information { message: format!("turn {}", n) });
    }
    assert_eq!(loader.history_len(), HISTORY_LIMIT);
    let history = loader.history();
    for (k, item) in history.iter().enumerate() {
        assert_eq!(item.input(), format!("input {}", k + 2));
        assert_eq!(item.response(), &Action::Information { message: format!("turn {}", k + 2) });
    }
}

#[test]
fn failed_reply_leaves_history_alone() {
    let mut loader = GameLoader::new();
    loader.process_reply("look", &info_reply(1)).unwrap();
    assert_eq!(loader.process_reply("look", "not: [valid"), Err(ActionError::Malformed));
    assert_eq!(loader.process_reply("look", "type: Dance\n"), Err(ActionError::UnknownType));
    assert_eq!(loader.history_len(), 1);
}

#[test]
fn reply_label_is_stripped() {
    let mut loader = GameLoader::new();
    let action = loader
        .process_reply("wait", "response:\ntype: EndGame\nmessage: The end.\n")
        .unwrap();
    assert_eq!(action, Action::EndGame { message: String::from("The end.") });
}

#[test]
fn reply_text_strips_repeated_label_and_trims() {
    assert_eq!(reply_text("response:\nresponse:\n  type: X  \n\n"), "type: X");
    assert_eq!(reply_text("  type: X  "), "  type: X  ");
    assert_eq!(reply_text("response: type"), "response: type");
}

#[test]
fn context_carries_premise_inventory_history_and_input() {
    let mut loader = GameLoader::new();
    loader.set_overview(String::from("A haunted lighthouse."));
    loader.process_reply("start game", "type: NewScene\nname: Shore\ndesc: Waves.\n").unwrap();
    let mut state = GameState::new();
    state.add_to_inventory(String::from("lantern"));
    let context = loader.build_context("climb stairs", &state);
    assert_eq!(context.overview(), "A haunted lighthouse.");
    assert_eq!(context.inventory(), &vec![String::from("lantern")]);
    assert_eq!(
        context.history(),
        &vec![ActionHistoryItem::new(
            String::from("start game"),
            Action::NewScene { name: String::from("Shore"), desc: String::from("Waves.") },
        )]
    );
    assert_eq!(context.input(), "climb stairs");
    let direct = Context::new(
        String::from("A haunted lighthouse."),
        vec![String::from("lantern")],
        context.history().clone(),
        String::from("climb stairs"),
    );
    assert_eq!(context, direct);
}

#[test]
fn new_loader_is_empty() {
    let loader = GameLoader::new();
    assert_eq!(loader.overview(), "");
    assert_eq!(loader.history_len(), 0);
}
