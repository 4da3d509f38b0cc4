use rusty_discord::config::colors::Config;
use rusty_discord::text::clone_texts;
use rusty_discord::tui::app::App;
use rusty_discord::tui::history::MessageHistory;

#[test]
fn new_history_knows_no_channel() {
    let histories = MessageHistory::new();
    assert!(histories.get("general").is_none());
    assert!(histories.get("").is_none());
}

#[test]
fn append_keeps_messages_in_the_order_of_arrival() {
    let mut histories = MessageHistory::new();
    histories.append("general", "hello".to_string());
    histories.append("random", "cat".to_string());
    histories.append("general", "world".to_string());
    assert_eq!(histories.get("general").unwrap(), &vec!["hello".to_string(), "world".to_string()]);
    assert_eq!(histories.get("random").unwrap(), &vec!["cat".to_string()]);
    assert!(histories.get("other").is_none());
}

#[test]
fn append_to_one_channel_leaves_the_others() {
    let mut histories = MessageHistory::new();
    histories.append("a", "1".to_string());
    histories.append("b", "2".to_string());
    histories.append("c", "3".to_string());
    histories.append("b", "4".to_string());
    assert_eq!(histories.get("a").unwrap(), &vec!["1".to_string()]);
    assert_eq!(histories.get("b").unwrap(), &vec!["2".to_string(), "4".to_string()]);
    assert_eq!(histories.get("c").unwrap(), &vec!["3".to_string()]);
}

#[test]
fn add_message_fills_the_histories_of_the_state() {
    let mut app = App::new(Config::empty(), false, vec!["general".to_string()], None);
    assert!(app.messages().get("general").is_none());
    app.add_message("general", "first".to_string());
    app.add_message("general", "second".to_string());
    assert_eq!(
        app.messages().get("general").unwrap(),
        &vec!["first".to_string(), "second".to_string()]
    );
    assert_eq!(app.selected_index(), 0);
    assert_eq!(app.channels(), &vec!["general".to_string()]);
}

#[test]
fn clone_texts_copies_every_string() {
    let list = vec!["a".to_string(), "".to_string(), "long text".to_string()];
    assert_eq!(clone_texts(&list), list);
    assert_eq!(clone_texts(&Vec::new()), Vec::<String>::new());
}
