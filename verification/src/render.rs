//! What a frame of the dashboard shows, as plain values: the title and the
//! visible lines of each pane, whether it has a scrollbar, and the hints of
//! the status line. Drawing them is left to the driver.

use crate::pane::{PaneModel, PodPane};
use crate::state::{StateModel, TuiState};
use crate::term::Color;
use crate::text::push_char;
use crate::theme::{palette_color, Theme};
use vstd::prelude::*;
use vstd::string::StringExecFns;

verus! {

/// The title color of a pane that does not follow its tail.
pub open spec fn scrolled_title_color() -> Color {
    Color::Rgb(0xff, 0xcc, 0x00)
}

/// The title of a pane: its key, and a marker while it does not follow
/// its tail.
pub open spec fn title_of(pane: PaneModel) -> Seq<char> {
    if pane.scroll_up is None {
        " "@ + pane.key + " "@
    } else {
        " "@ + pane.key + " [SCROLLED] "@
    }
}

/// The position of a scrollbar: the number of offsets that the pane can
/// take, and the offset that it has.
pub struct Scrollbar {
    pub max_scroll: usize,
    pub position: usize,
}

/// What is drawn of one pane, as mathematical values.
pub struct PaneFrameModel {
    pub index: usize,
    pub title: Seq<char>,
    pub selected: bool,
    pub color: Color,
    pub title_color: Color,
    /// The visible lines are `lines[first_line..end_line]`.
    pub first_line: usize,
    pub end_line: usize,
    pub scrollbar: Option<Scrollbar>,
}

/// What is drawn of one pane.
pub struct PaneFrame {
    pub index: usize,
    pub title: String,
    pub selected: bool,
    pub color: Color,
    pub title_color: Color,
    pub first_line: usize,
    pub end_line: usize,
    pub scrollbar: Option<Scrollbar>,
}

impl View for PaneFrame {
    type V = PaneFrameModel;

    open spec fn view(&self) -> PaneFrameModel {
        PaneFrameModel {
            index: self.index,
            title: self.title@,
            selected: self.selected,
            color: self.color,
            title_color: self.title_color,
            first_line: self.first_line,
            end_line: self.end_line,
            scrollbar: self.scrollbar,
        }
    }
}

/// What is drawn of the pane at `index` in a box with `inner_height` rows
/// inside its border.
pub open spec fn frame_of(
    state: StateModel,
    title_colors: Seq<Color>,
    index: usize,
    inner_height: usize,
) -> PaneFrameModel {
    let pane = state.panes[index as int];
    let offset = pane.offset(inner_height as int);
    let len = pane.lines.len() as int;
    PaneFrameModel {
        index,
        title: title_of(pane),
        selected: index == state.selected,
        color: pane.color,
        title_color: if pane.scroll_up is None {
            palette_color(title_colors, index as int)
        } else {
            scrolled_title_color()
        },
        first_line: offset as usize,
        end_line: if offset + inner_height < len {
            (offset + inner_height) as usize
        } else {
            len as usize
        },
        scrollbar: if len > inner_height {
            Some(Scrollbar { max_scroll: (len - inner_height) as usize, position: offset as usize })
        } else {
            None
        },
    }
}

/// The title of `pane`.
pub fn pane_title(pane: &PodPane) -> (title: String)
    ensures
        title@ == title_of(pane@),
{
    let mut title = String::from_str(" ");
    title.append(pane.key.as_str());
    if pane.is_following() {
        title.append(" ");
    } else {
        title.append(" [SCROLLED] ");
    }
    title
}

/// What is drawn of the pane at `index` in a box with `inner_height` rows
/// inside its border: title, colors, the range of visible lines, and the
/// scrollbar, which shows when the buffer is longer than the box.
pub fn pane_frame(state: &TuiState, theme: &Theme, index: usize, inner_height: usize) -> (frame:
    PaneFrame)
    requires
        index < state.panes@.len(),
        state.panes@[index as int].wf(),
        theme.title_colors@.len() > 0,
    ensures
        frame@ == frame_of(state@, theme.title_colors@, index, inner_height),
        frame.first_line <= frame.end_line <= state.panes@[index as int].lines@.len(),
{
    let pane = &state.panes[index];
    let len: usize = pane.lines.len();
    let offset: usize = pane.scroll_offset(inner_height) as usize;
    let end_line: usize = if inner_height < len - offset { offset + inner_height } else { len };
    PaneFrame {
        index,
        title: pane_title(pane),
        selected: index == state.selected,
        color: pane.color,
        title_color: if pane.is_following() {
            theme.title_color(index)
        } else {
            Color::Rgb(0xff, 0xcc, 0x00)
        },
        first_line: offset,
        end_line,
        scrollbar: if len > inner_height {
            Some(Scrollbar { max_scroll: len - inner_height, position: offset })
        } else {
            None
        },
    }
}

/// The decimal digit for `d`.
pub open spec fn digit_char(d: int) -> char {
    if d == 0 {
        '0'
    } else if d == 1 {
        '1'
    } else if d == 2 {
        '2'
    } else if d == 3 {
        '3'
    } else if d == 4 {
        '4'
    } else if d == 5 {
        '5'
    } else if d == 6 {
        '6'
    } else if d == 7 {
        '7'
    } else if d == 8 {
        '8'
    } else {
        '9'
    }
}

/// `n` in decimal digits.
pub open spec fn decimal_of(n: nat) -> Seq<char>
    decreases n,
{
    if n < 10 {
        seq![digit_char(n as int)]
    } else {
        decimal_of(n / 10).push(digit_char((n % 10) as int))
    }
}

/// `n` in decimal digits.
pub fn decimal(n: usize) -> (text: String)
    ensures
        text@ == decimal_of(n as nat),
    decreases n,
{
    let d: usize = n % 10;
    let c: char = if d == 0 {
        '0'
    } else if d == 1 {
        '1'
    } else if d == 2 {
        '2'
    } else if d == 3 {
        '3'
    } else if d == 4 {
        '4'
    } else if d == 5 {
        '5'
    } else if d == 6 {
        '6'
    } else if d == 7 {
        '7'
    } else if d == 8 {
        '8'
    } else {
        '9'
    };
    let mut text = if n < 10 { String::new() } else { decimal(n / 10) };
    push_char(&mut text, c);
    text
}

/// The label that tells which tab is shown: `[2/3]` for the second of
/// three.
pub open spec fn tab_label_of(current_tab: usize, total_tabs: usize) -> Seq<char> {
    "["@ + decimal_of((current_tab + 1) as nat) + "/"@ + decimal_of(total_tabs as nat) + "]"@
}

/// The label that tells which tab is shown.
pub fn tab_label(current_tab: usize, total_tabs: usize) -> (label: String)
    requires
        current_tab < usize::MAX,
    ensures
        label@ == tab_label_of(current_tab, total_tabs),
{
    let mut label = String::from_str("[");
    let shown = decimal(current_tab + 1);
    label.append(shown.as_str());
    label.append("/");
    let total = decimal(total_tabs);
    label.append(total.as_str());
    label.append("]");
    label
}

/// A hint of the status line: a key, what it does, and the key's color.
pub struct Hint {
    pub key: String,
    pub desc: String,
    pub color: Color,
}

/// A hint of the status line, as mathematical values.
pub struct HintModel {
    pub key: Seq<char>,
    pub desc: Seq<char>,
    pub color: Color,
}

impl View for Hint {
    type V = HintModel;

    open spec fn view(&self) -> HintModel {
        HintModel { key: self.key@, desc: self.desc@, color: self.color }
    }
}

/// The views of `hints`.
pub open spec fn hints_of(hints: Seq<Hint>) -> Seq<HintModel> {
    Seq::new(hints.len(), |i: int| hints[i]@)
}

/// The hint for `key`.
pub fn key_hint(key: &str, desc: &str, color: Color) -> (hint: Hint)
    ensures
        hint@ == (HintModel { key: key@, desc: desc@, color }),
{
    Hint { key: String::from_str(key), desc: String::from_str(desc), color }
}

/// The hints of the status line while a pattern is typed.
pub open spec fn input_hints() -> Seq<HintModel> {
    seq![
        HintModel { key: "Enter"@, desc: "add"@, color: Color::Green },
        HintModel { key: "Esc"@, desc: "cancel"@, color: Color::Red },
    ]
}

/// The hints of the status line in normal mode, in their order. The tab
/// keys show with more than one tab; the expand key tells what it would do
/// now; so does the mouse key, and the Control keys for scrolling show
/// while the mouse is not captured.
pub open spec fn normal_hints(state: StateModel, total_tabs: usize) -> Seq<HintModel> {
    (if total_tabs > 1 {
        seq![HintModel { key: "\u{2190}\u{2192}"@, desc: "tabs"@, color: Color::LightCyan }]
    } else {
        Seq::<HintModel>::empty()
    }) + seq![
        HintModel { key: "Tab"@, desc: "switch"@, color: Color::LightCyan },
        HintModel { key: "\u{2191}\u{2193}"@, desc: "scroll"@, color: Color::LightCyan },
        HintModel { key: "End"@, desc: "follow"@, color: Color::LightCyan },
        HintModel {
            key: "f"@,
            desc: if state.expanded {
                "collapse"@
            } else {
                "expand"@
            },
            color: Color::LightCyan,
        },
        HintModel { key: "a"@, desc: "add pod"@, color: Color::LightGreen },
        HintModel { key: "d"@, desc: "close pane"@, color: Color::LightRed },
        HintModel { key: "D"@, desc: "close tab"@, color: Color::LightRed },
        HintModel {
            key: "m"@,
            desc: if state.mouse_captured {
                "select text"@
            } else {
                "mouse mode"@
            },
            color: Color::LightCyan,
        },
    ] + (if !state.mouse_captured {
        seq![
            HintModel { key: "Ctrl+\u{2191}\u{2193}"@, desc: "scroll"@, color: Color::LightCyan },
        ]
    } else {
        Seq::<HintModel>::empty()
    }) + seq![HintModel { key: "q"@, desc: "quit"@, color: Color::LightYellow }]
}

/// The hints of the status line.
pub open spec fn hints_for(state: StateModel, total_tabs: usize) -> Seq<HintModel> {
    if state.input_mode {
        input_hints()
    } else {
        normal_hints(state, total_tabs)
    }
}

/// The hints of the status line: which keys do what in the mode that the
/// dashboard is in.
pub fn status_hints(state: &TuiState, total_tabs: usize) -> (hints: Vec<Hint>)
    ensures
        hints_of(hints@) == hints_for(state@, total_tabs),
{
    let mut hints: Vec<Hint> = Vec::new();
    if state.input_mode {
        hints.push(key_hint("Enter", "add", Color::Green));
        hints.push(key_hint("Esc", "cancel", Color::Red));
        return hints;
    }
    if total_tabs > 1 {
        hints.push(key_hint("\u{2190}\u{2192}", "tabs", Color::LightCyan));
    }
    hints.push(key_hint("Tab", "switch", Color::LightCyan));
    hints.push(key_hint("\u{2191}\u{2193}", "scroll", Color::LightCyan));
    hints.push(key_hint("End", "follow", Color::LightCyan));
    hints.push(
        key_hint("f", if state.expanded { "collapse" } else { "expand" }, Color::LightCyan),
    );
    hints.push(key_hint("a", "add pod", Color::LightGreen));
    hints.push(key_hint("d", "close pane", Color::LightRed));
    hints.push(key_hint("D", "close tab", Color::LightRed));
    hints.push(
        key_hint(
            "m",
            if state.mouse_captured { "select text" } else { "mouse mode" },
            Color::LightCyan,
        ),
    );
    if !state.mouse_captured {
        hints.push(key_hint("Ctrl+\u{2191}\u{2193}", "scroll", Color::LightCyan));
    }
    hints.push(key_hint("q", "quit", Color::LightYellow));
    hints
}

} // verus!
