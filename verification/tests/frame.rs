use rusty_discord::config::colors::{Color, ColorScheme, Config, NamedScheme};
use rusty_discord::cycle::{next_place, previous_place};
use rusty_discord::tui::app::App;
use rusty_discord::tui::layout::{split_in_two, Constraint, Cut, Direction, Rect};
use rusty_discord::tui::ui::{
    compose, conversation_cut, layout, render, render_chat_area, render_input_bar, render_sidebar,
    resolve_palette, screen_cut, sidebar_cut, Palette, Regions, Style,
};

fn names(list: &[&str]) -> Vec<String> {
    list.iter().map(|s| s.to_string()).collect()
}

fn rect(x: u16, y: u16, width: u16, height: u16) -> Rect {
    Rect { x, y, width, height }
}

fn config() -> Config {
    Config::load(vec![
        NamedScheme {
            name: "default".to_string(),
            scheme: ColorScheme {
                border: "gray".to_string(),
                text: "green".to_string(),
                highlight: "purple".to_string(),
            },
        },
        NamedScheme {
            name: "plain".to_string(),
            scheme: ColorScheme {
                border: "blue".to_string(),
                text: "black".to_string(),
                highlight: "red".to_string(),
            },
        },
    ])
    .unwrap()
}

fn themed_app() -> App {
    App::new(config(), true, names(&["general", "random"]), Some(names(&["user1", "user2", "user3"])))
}

const NO_COLOURS: Palette = Palette { border: None, text: None, highlight: None };

#[test]
fn cycle_places_have_exact_values() {
    assert_eq!(next_place(0, 3), 1);
    assert_eq!(next_place(1, 3), 2);
    assert_eq!(next_place(2, 3), 0);
    assert_eq!(next_place(0, 1), 0);
    assert_eq!(previous_place(0, 3), 2);
    assert_eq!(previous_place(2, 3), 1);
    assert_eq!(previous_place(0, 1), 0);
}

#[test]
fn split_in_two_cuts_by_percentage() {
    let (top, bottom) = split_in_two(
        rect(0, 0, 100, 50),
        Cut {
            direction: Direction::Vertical,
            first: Constraint::Percentage(80),
            second: Constraint::Percentage(20),
        },
    );
    assert_eq!(top, rect(0, 0, 100, 40));
    assert_eq!(bottom, rect(0, 40, 100, 10));
    let (left, right) = split_in_two(
        rect(0, 0, 100, 40),
        Cut {
            direction: Direction::Horizontal,
            first: Constraint::Percentage(20),
            second: Constraint::Percentage(80),
        },
    );
    assert_eq!(left, rect(0, 0, 20, 40));
    assert_eq!(right, rect(20, 0, 80, 40));
}

#[test]
fn split_in_two_cuts_a_fixed_band() {
    let (band, rest) = split_in_two(
        rect(5, 7, 20, 40),
        Cut { direction: Direction::Vertical, first: Constraint::Length(3), second: Constraint::Min(1) },
    );
    assert_eq!(band, rect(5, 7, 20, 3));
    assert_eq!(rest, rect(5, 10, 20, 37));
}

#[test]
fn cuts_of_the_frame_have_their_shares() {
    assert_eq!(
        screen_cut(),
        Cut {
            direction: Direction::Vertical,
            first: Constraint::Percentage(80),
            second: Constraint::Percentage(20),
        }
    );
    assert_eq!(
        conversation_cut(),
        Cut {
            direction: Direction::Horizontal,
            first: Constraint::Percentage(20),
            second: Constraint::Percentage(80),
        }
    );
    assert_eq!(
        sidebar_cut(),
        Cut { direction: Direction::Vertical, first: Constraint::Length(3), second: Constraint::Min(1) }
    );
}

#[test]
fn split_in_two_differs_from_the_area_it_cuts() {
    let area = rect(0, 0, 10, 10);
    let (first, second) = split_in_two(
        area,
        Cut {
            direction: Direction::Horizontal,
            first: Constraint::Percentage(50),
            second: Constraint::Percentage(50),
        },
    );
    assert_eq!(first, rect(0, 0, 5, 10));
    assert_eq!(second, rect(5, 0, 5, 10));
    assert_ne!(first, area);
    assert_ne!(second, area);
}

#[test]
fn layout_cuts_the_screen_into_the_four_panes() {
    let regions = layout(rect(0, 0, 100, 50));
    assert_eq!(
        regions,
        Regions {
            conversation: rect(0, 0, 100, 40),
            input: rect(0, 40, 100, 10),
            sidebar: rect(0, 0, 20, 40),
            chat: rect(20, 0, 80, 40),
            tabs: rect(0, 0, 20, 3),
            list: rect(0, 3, 20, 37),
        }
    );
}

#[test]
fn layout_of_an_empty_screen_spans_nothing() {
    let regions = layout(rect(0, 0, 0, 0));
    assert_eq!(regions.conversation.width, 0);
    assert_eq!(regions.input.width, 0);
    assert_eq!(regions.sidebar.height, regions.conversation.height);
    assert_eq!(regions.chat.height, regions.conversation.height);
    assert_eq!(regions.tabs.width, regions.sidebar.width);
    assert_eq!(regions.list.width, regions.sidebar.width);
}

#[test]
fn palette_holds_the_colours_of_the_active_scheme() {
    let mut app = themed_app();
    assert_eq!(
        resolve_palette(&app),
        Palette { border: Some(Color::Gray), text: Some(Color::Green), highlight: Some(Color::White) }
    );
    app.next_colorscheme();
    assert_eq!(
        resolve_palette(&app),
        Palette { border: Some(Color::Blue), text: Some(Color::Black), highlight: Some(Color::Red) }
    );
}

#[test]
fn palette_is_empty_without_theming_or_schemes() {
    let unthemed = App::new(config(), false, names(&["general"]), None);
    assert_eq!(resolve_palette(&unthemed), NO_COLOURS);
    let no_schemes = App::new(Config::empty(), true, names(&["general"]), None);
    assert_eq!(resolve_palette(&no_schemes), NO_COLOURS);
}

#[test]
fn sidebar_shows_tabs_and_the_list_of_the_selected_tab() {
    let mut app = themed_app();
    app.next_channel();
    let (tabs, list) = render_sidebar(&app, rect(0, 0, 20, 3), rect(0, 3, 20, 37));
    assert_eq!(tabs.area, rect(0, 0, 20, 3));
    assert_eq!(tabs.block.title, "Tabs");
    assert_eq!(tabs.block.border, Some(Color::Gray));
    assert_eq!(tabs.titles, names(&["Channels", "Private Messages"]));
    assert_eq!(tabs.selected, 0);
    assert_eq!(tabs.style, Style { fg: Some(Color::Green), bold: false });
    assert_eq!(tabs.highlight_style, Style { fg: Some(Color::White), bold: true });
    assert_eq!(list.area, rect(0, 3, 20, 37));
    assert_eq!(list.block.title, "List");
    assert_eq!(list.block.border, Some(Color::Gray));
    assert_eq!(list.items, names(&["general", "random"]));
    assert_eq!(list.selected, 1);
    assert_eq!(list.highlight_style, Style { fg: Some(Color::White), bold: true });

    app.next_tab();
    app.next_channel();
    app.next_channel();
    let (tabs, list) = render_sidebar(&app, rect(0, 0, 20, 3), rect(0, 3, 20, 37));
    assert_eq!(tabs.selected, 1);
    assert_eq!(list.items, names(&["user1", "user2", "user3"]));
    assert_eq!(list.selected, 2);
}

#[test]
fn chat_pane_shows_the_history_of_the_channel_at_the_cursor() {
    let mut app = themed_app();
    app.add_message("general", "hello".to_string());
    app.add_message("random", "cat".to_string());
    app.add_message("general", "world".to_string());
    let chat = render_chat_area(&app, rect(20, 0, 80, 40));
    assert_eq!(chat.area, rect(20, 0, 80, 40));
    assert_eq!(chat.block.title, "Chat");
    assert_eq!(chat.block.border, Some(Color::Gray));
    assert_eq!(chat.lines, names(&["hello", "world"]));
    assert_eq!(chat.scroll, 2);
    assert_eq!(chat.line_style, Style { fg: Some(Color::Green), bold: false });
    app.next_channel();
    let chat = render_chat_area(&app, rect(20, 0, 80, 40));
    assert_eq!(chat.lines, names(&["cat"]));
    assert_eq!(chat.scroll, 1);
}

#[test]
fn chat_pane_is_empty_for_a_channel_without_history() {
    let app = themed_app();
    let chat = render_chat_area(&app, rect(20, 0, 80, 40));
    assert!(chat.lines.is_empty());
    assert_eq!(chat.scroll, 0);
}

#[test]
fn chat_pane_is_empty_where_the_channel_list_has_no_such_place() {
    let mut app = themed_app();
    app.add_message("general", "hello".to_string());
    app.add_message("user3", "psst".to_string());
    app.next_tab();
    app.next_channel();
    app.next_channel();
    assert_eq!(app.selected_index(), 2);
    let chat = render_chat_area(&app, rect(20, 0, 80, 40));
    assert!(chat.lines.is_empty());
    assert_eq!(chat.scroll, 0);
    let mut none = App::new(Config::empty(), false, Vec::new(), None);
    none.add_message("general", "hello".to_string());
    let chat = render_chat_area(&none, rect(0, 0, 10, 10));
    assert!(chat.lines.is_empty());
}

#[test]
fn input_bar_shows_the_standing_prompt() {
    let app = themed_app();
    let input = render_input_bar(&app, rect(0, 40, 100, 10));
    assert_eq!(input.area, rect(0, 40, 100, 10));
    assert_eq!(input.block.title, "Input");
    assert_eq!(input.block.border, Some(Color::Gray));
    assert_eq!(input.text, "Type your message here...");
    assert_eq!(input.style, Style { fg: Some(Color::Green), bold: false });
}

#[test]
fn unthemed_frame_has_no_colours() {
    let app = App::new(config(), false, names(&["general", "random"]), None);
    let frame = render(&app, rect(0, 0, 100, 50));
    assert_eq!(frame.tabs.block.border, None);
    assert_eq!(frame.tabs.style, Style { fg: None, bold: false });
    assert_eq!(frame.tabs.highlight_style, Style { fg: None, bold: true });
    assert_eq!(frame.list.block.border, None);
    assert_eq!(frame.list.highlight_style, Style { fg: None, bold: true });
    assert_eq!(frame.chat.block.border, None);
    assert_eq!(frame.chat.line_style, Style { fg: None, bold: false });
    assert_eq!(frame.input.block.border, None);
    assert_eq!(frame.input.style, Style { fg: None, bold: false });
}

#[test]
fn compose_puts_each_widget_in_its_rectangle() {
    let app = themed_app();
    let regions = Regions {
        conversation: rect(1, 2, 30, 20),
        input: rect(1, 22, 30, 5),
        sidebar: rect(1, 2, 6, 20),
        chat: rect(7, 2, 24, 20),
        tabs: rect(1, 2, 6, 3),
        list: rect(1, 5, 6, 17),
    };
    let frame = compose(&app, regions);
    assert_eq!(frame.regions, regions);
    assert_eq!(frame.tabs.area, regions.tabs);
    assert_eq!(frame.list.area, regions.list);
    assert_eq!(frame.chat.area, regions.chat);
    assert_eq!(frame.input.area, regions.input);
    assert_eq!(frame.list.items, names(&["general", "random"]));
}

#[test]
fn render_composes_the_frame_of_the_state() {
    let mut app = themed_app();
    app.add_message("random", "one".to_string());
    app.add_message("random", "two".to_string());
    app.add_message("random", "three".to_string());
    app.next_channel();
    let frame = render(&app, rect(0, 0, 100, 50));
    assert_eq!(frame.regions, layout(rect(0, 0, 100, 50)));
    assert_eq!(frame.tabs.area, rect(0, 0, 20, 3));
    assert_eq!(frame.list.area, rect(0, 3, 20, 37));
    assert_eq!(frame.chat.area, rect(20, 0, 80, 40));
    assert_eq!(frame.input.area, rect(0, 40, 100, 10));
    assert_eq!(frame.tabs.selected, 0);
    assert_eq!(frame.list.items, names(&["general", "random"]));
    assert_eq!(frame.list.selected, 1);
    assert_eq!(frame.chat.lines, names(&["one", "two", "three"]));
    assert_eq!(frame.chat.scroll, 3);
    assert_eq!(frame.input.text, "Type your message here...");
}

#[test]
fn render_follows_the_state_from_tick_to_tick() {
    let mut app = themed_app();
    let first = render(&app, rect(0, 0, 80, 24));
    assert_eq!(first.tabs.selected, 0);
    assert_eq!(first.list.selected, 0);
    app.next_tab();
    app.next_channel();
    let second = render(&app, rect(0, 0, 80, 24));
    assert_eq!(second.tabs.selected, 1);
    assert_eq!(second.list.items, names(&["user1", "user2", "user3"]));
    assert_eq!(second.list.selected, 1);
    assert_eq!(second.regions, first.regions);
}
