//! The composition of a frame from the state: which widget stands where,
//! what it shows and in which colours.

use vstd::prelude::*;
use crate::config::colors::{get_color, resolve, Color};
use crate::text::{clone_texts, texts};
use crate::tui::app::{App, AppView};
use crate::tui::history::history;
use crate::tui::layout::{spans, split_in_two, Constraint, Cut, Direction, Rect};

verus! {

/// How a piece of text is drawn. Without a colour the terminal's own is
/// kept.
#[derive(Clone, Copy, Debug, PartialEq, Eq)]
pub struct Style {
    pub fg: Option<Color>,
    pub bold: bool,
}

/// The colours of one frame. They are all absent where theming is off or
/// no scheme is configured.
#[derive(Clone, Copy, Debug, PartialEq, Eq)]
pub struct Palette {
    pub border: Option<Color>,
    pub text: Option<Color>,
    pub highlight: Option<Color>,
}

/// The box round a widget: borders on all four sides and a title.
#[derive(Debug)]
pub struct Block {
    pub title: String,
    pub border: Option<Color>,
}

/// The strip that names the two tabs.
#[derive(Debug)]
pub struct TabStrip {
    pub area: Rect,
    pub block: Block,
    pub titles: Vec<String>,
    pub selected: usize,
    pub style: Style,
    pub highlight_style: Style,
}

/// The list of the entries of the selected tab.
#[derive(Debug)]
pub struct SidebarList {
    pub area: Rect,
    pub block: Block,
    pub items: Vec<String>,
    pub selected: usize,
    pub highlight_style: Style,
}

/// The pane with the messages of a channel.
#[derive(Debug)]
pub struct ChatPane {
    pub area: Rect,
    pub block: Block,
    pub lines: Vec<String>,
    pub line_style: Style,
    /// The number of lines that are scrolled out at the top.
    pub scroll: usize,
}

/// The bar in which a message would be typed.
#[derive(Debug)]
pub struct InputBar {
    pub area: Rect,
    pub block: Block,
    pub text: String,
    pub style: Style,
}

/// The rectangles of a frame: the screen is cut into the conversation
/// region above the input bar, the conversation region into the sidebar
/// left of the chat pane, and the sidebar into the tab strip above the list.
#[derive(Clone, Copy, Debug, PartialEq, Eq)]
pub struct Regions {
    pub conversation: Rect,
    pub input: Rect,
    pub sidebar: Rect,
    pub chat: Rect,
    pub tabs: Rect,
    pub list: Rect,
}

/// A frame: the widgets of the dashboard, each with its rectangle.
#[derive(Debug)]
pub struct Frame {
    pub regions: Regions,
    pub tabs: TabStrip,
    pub list: SidebarList,
    pub chat: ChatPane,
    pub input: InputBar,
}

/// The colours in which a frame of `state` is drawn: those of the active
/// scheme, or none where theming is off or no scheme is configured.
pub open spec fn palette_of(state: AppView) -> Palette {
    if state.themed && state.themes.entries.len() > 0 {
        let scheme = state.themes.entries[state.themes.position()].1;
        Palette {
            border: Some(resolve(scheme.border)),
            text: Some(resolve(scheme.text)),
            highlight: Some(resolve(scheme.highlight)),
        }
    } else {
        Palette { border: None, text: None, highlight: None }
    }
}

/// The messages that the chat pane shows: the history of the channel at
/// the cursor's place in the list of channels, and none where that list has
/// no such place or the channel has no history.
pub open spec fn chat_lines(state: AppView) -> Seq<Seq<char>> {
    if state.selected_index < state.channels.len() {
        history(state.messages, state.channels[state.selected_index as int])
    } else {
        Seq::empty()
    }
}

impl Block {
    /// Whether this is the box with `title` in the colours of `palette`.
    pub open spec fn shows(self, title: Seq<char>, palette: Palette) -> bool {
        self.title@ == title && self.border == palette.border
    }
}

impl TabStrip {
    /// Whether this is the tab strip of `state` in `area`.
    pub open spec fn shows(self, state: AppView, area: Rect) -> bool {
        &&& self.area == area
        &&& self.block.shows("Tabs"@, palette_of(state))
        &&& texts(self.titles@) == seq!["Channels"@, "Private Messages"@]
        &&& self.selected == state.selected_tab.place()
        &&& self.style == Style { fg: palette_of(state).text, bold: false }
        &&& self.highlight_style == Style { fg: palette_of(state).highlight, bold: true }
    }
}

impl SidebarList {
    /// Whether this is the list of the selected tab of `state` in `area`.
    pub open spec fn shows(self, state: AppView, area: Rect) -> bool {
        &&& self.area == area
        &&& self.block.shows("List"@, palette_of(state))
        &&& texts(self.items@) == state.active_list()
        &&& self.selected == state.selected_index
        &&& self.highlight_style == Style { fg: palette_of(state).highlight, bold: true }
    }
}

impl ChatPane {
    /// Whether this is the chat pane of `state` in `area`.
    pub open spec fn shows(self, state: AppView, area: Rect) -> bool {
        &&& self.area == area
        &&& self.block.shows("Chat"@, palette_of(state))
        &&& texts(self.lines@) == chat_lines(state)
        &&& self.line_style == Style { fg: palette_of(state).text, bold: false }
        &&& self.scroll == chat_lines(state).len()
    }
}

impl InputBar {
    /// Whether this is the input bar of `state` in `area`.
    pub open spec fn shows(self, state: AppView, area: Rect) -> bool {
        &&& self.area == area
        &&& self.block.shows("Input"@, palette_of(state))
        &&& self.text@ == "Type your message here..."@
        &&& self.style == Style { fg: palette_of(state).text, bold: false }
    }
}

impl Regions {
    /// Whether these are rectangles that the cuts of `area` can give: each
    /// part spans what it was cut from across the axis of the cut.
    pub open spec fn cut_from(self, area: Rect) -> bool {
        &&& spans(area, Direction::Vertical, self.conversation)
        &&& spans(area, Direction::Vertical, self.input)
        &&& spans(self.conversation, Direction::Horizontal, self.sidebar)
        &&& spans(self.conversation, Direction::Horizontal, self.chat)
        &&& spans(self.sidebar, Direction::Vertical, self.tabs)
        &&& spans(self.sidebar, Direction::Vertical, self.list)
    }
}

impl Frame {
    /// Whether this is the frame of `state` with its widgets in `regions`.
    pub open spec fn shows(self, state: AppView, regions: Regions) -> bool {
        &&& self.regions == regions
        &&& self.tabs.shows(state, regions.tabs)
        &&& self.list.shows(state, regions.list)
        &&& self.chat.shows(state, regions.chat)
        &&& self.input.shows(state, regions.input)
    }
}

/// The colours of the active scheme, resolved for one frame.
pub fn resolve_palette(app: &App) -> (palette: Palette)
    ensures
        palette == palette_of(app@),
{
    if app.themed() {
        match app.config().active_scheme() {
            Some(scheme) => Palette {
                border: Some(get_color(scheme.border.as_str())),
                text: Some(get_color(scheme.text.as_str())),
                highlight: Some(get_color(scheme.highlight.as_str())),
            },
            None => Palette { border: None, text: None, highlight: None },
        }
    } else {
        Palette { border: None, text: None, highlight: None }
    }
}

/// The cut of the screen: the conversation region takes the upper four
/// fifths, the input bar the rest.
pub fn screen_cut() -> (cut: Cut)
    ensures
        cut == (Cut {
            direction: Direction::Vertical,
            first: Constraint::Percentage(80),
            second: Constraint::Percentage(20),
        }),
{
    Cut {
        direction: Direction::Vertical,
        first: Constraint::Percentage(80),
        second: Constraint::Percentage(20),
    }
}

/// The cut of the conversation region: the sidebar takes the left fifth,
/// the chat pane the rest.
pub fn conversation_cut() -> (cut: Cut)
    ensures
        cut == (Cut {
            direction: Direction::Horizontal,
            first: Constraint::Percentage(20),
            second: Constraint::Percentage(80),
        }),
{
    Cut {
        direction: Direction::Horizontal,
        first: Constraint::Percentage(20),
        second: Constraint::Percentage(80),
    }
}

/// The cut of the sidebar: a band of three rows for the tab strip, and
/// what is left, a row at least, for the list.
pub fn sidebar_cut() -> (cut: Cut)
    ensures
        cut == (Cut {
            direction: Direction::Vertical,
            first: Constraint::Length(3),
            second: Constraint::Min(1),
        }),
{
    Cut { direction: Direction::Vertical, first: Constraint::Length(3), second: Constraint::Min(1) }
}

/// Cuts the screen `area` into the rectangles of a frame: the screen by
/// `screen_cut`, its upper part by `conversation_cut`, and the left part of
/// that by `sidebar_cut`.
pub fn layout(area: Rect) -> (regions: Regions)
    ensures
        regions.cut_from(area),
{
    let (conversation, input) = split_in_two(area, screen_cut());
    let (sidebar, chat) = split_in_two(conversation, conversation_cut());
    let (tabs, list) = split_in_two(sidebar, sidebar_cut());
    Regions { conversation, input, sidebar, chat, tabs, list }
}

/// The two widgets of the sidebar: the tab strip in `tabs_area` and the
/// list of the selected tab in `list_area`.
pub fn render_sidebar(app: &App, tabs_area: Rect, list_area: Rect) -> (sidebar: (TabStrip, SidebarList))
    ensures
        sidebar.0.shows(app@, tabs_area),
        sidebar.1.shows(app@, list_area),
{
    let palette = resolve_palette(app);
    let mut titles: Vec<String> = Vec::new();
    titles.push("Channels".to_owned());
    titles.push("Private Messages".to_owned());
    assert(texts(titles@) =~= seq!["Channels"@, "Private Messages"@]);
    let selected: usize = match app.selected_tab() {
        crate::tui::app::Tab::Channels => 0,
        crate::tui::app::Tab::DirectMessages => 1,
    };
    let tabs = TabStrip {
        area: tabs_area,
        block: Block { title: "Tabs".to_owned(), border: palette.border },
        titles,
        selected,
        style: Style { fg: palette.text, bold: false },
        highlight_style: Style { fg: palette.highlight, bold: true },
    };
    let list = SidebarList {
        area: list_area,
        block: Block { title: "List".to_owned(), border: palette.border },
        items: clone_texts(app.active_list()),
        selected: app.selected_index(),
        highlight_style: Style { fg: palette.highlight, bold: true },
    };
    (tabs, list)
}

/// The chat pane in `area`, scrolled to its latest message.
pub fn render_chat_area(app: &App, area: Rect) -> (chat: ChatPane)
    ensures
        chat.shows(app@, area),
{
    let palette = resolve_palette(app);
    let index: usize = app.selected_index();
    let channels = app.channels();
    let mut lines: Vec<String> = Vec::new();
    assert(texts(lines@) =~= Seq::<Seq<char>>::empty());
    if index < channels.len() {
        assert(texts(channels@)[index as int] == channels@[index as int]@);
        match app.messages().get(channels[index].as_str()) {
            Some(found) => {
                lines = clone_texts(found);
            },
            None => {},
        }
    }
    let scroll: usize = lines.len();
    ChatPane {
        area,
        block: Block { title: "Chat".to_owned(), border: palette.border },
        lines,
        line_style: Style { fg: palette.text, bold: false },
        scroll,
    }
}

/// The input bar in `area`, with its standing prompt.
pub fn render_input_bar(app: &App, area: Rect) -> (input: InputBar)
    ensures
        input.shows(app@, area),
{
    let palette = resolve_palette(app);
    InputBar {
        area,
        block: Block { title: "Input".to_owned(), border: palette.border },
        text: "Type your message here...".to_owned(),
        style: Style { fg: palette.text, bold: false },
    }
}

/// The frame of the state with its widgets in the given rectangles.
pub fn compose(app: &App, regions: Regions) -> (frame: Frame)
    ensures
        frame.shows(app@, regions),
{
    let (tabs, list) = render_sidebar(app, regions.tabs, regions.list);
    let chat = render_chat_area(app, regions.chat);
    let input = render_input_bar(app, regions.input);
    Frame { regions, tabs, list, chat, input }
}

/// The frame of the state on a screen of the size and place of `area`.
/// What each widget shows is fixed by the state; where the cuts fall is for
/// the layout solver to say.
pub fn render(app: &App, area: Rect) -> (frame: Frame)
    ensures
        frame.regions.cut_from(area),
        frame.shows(app@, frame.regions),
{
    compose(app, layout(area))
}

} // verus!
