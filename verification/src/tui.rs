//! The rules of the read-only terminal user interface: which panel an input
//! event goes to, what it changes, what work it asks of the caller, and where
//! each part of the screen is drawn.
//!
//! The caller owns the widgets, the database and the clipboard. It hands each
//! input event to [`State::handle_event`], performs the [`Effect`] that comes
//! back, and reports the outcome of that work.

use vstd::prelude::*;

use crate::config::{BOLD, Style, Theme, border_style, default_style, error_style, with_modifier};
use crate::error::{Error, error_message};
use crate::text::{push_char, push_str, string_of};

verus! {

/// A key, as far as the interface tells keys apart.
#[derive(Clone, Copy, Debug, PartialEq, Eq, Structural)]
pub enum KeyCode {
    Up,
    Down,
    Tab,
    Enter,
    Esc,
    Char(char),
    Other,
}

/// Whether a key went down, repeats, or went up.
#[derive(Clone, Copy, Debug, PartialEq, Eq, Structural)]
pub enum KeyEventKind {
    Press,
    Repeat,
    Release,
}

/// A key event: the key, its kind, and whether Control was held.
#[derive(Clone, Copy, Debug, PartialEq, Eq, Structural)]
pub struct KeyEvent {
    pub code: KeyCode,
    pub kind: KeyEventKind,
    pub ctrl: bool,
}

/// A mouse event, as far as the interface tells them apart.
#[derive(Clone, Copy, Debug, PartialEq, Eq, Structural)]
pub enum MouseEventKind {
    ScrollDown,
    ScrollUp,
    Other,
}

/// An input event.
#[derive(Clone, Copy, Debug, PartialEq, Eq, Structural)]
pub enum UiEvent {
    Key(KeyEvent),
    Mouse(MouseEventKind),
    Other,
}

/// The password entry panel, shown before a secret is decrypted.
#[derive(Clone, Copy, Debug, PartialEq, Eq, Structural)]
pub struct PasswordEntryState {
    /// Whether the typed password is shown in clear.
    pub is_visible: bool,
}

/// The find panel.
#[derive(Clone, Copy, Debug, PartialEq, Eq, Structural)]
pub struct FindItemState {
    /// Whether the search field has the keyboard focus.
    pub has_focus: bool,
}

/// The work that an event asks of the caller.
#[derive(Clone, Copy, Debug, PartialEq, Eq, Structural)]
pub enum Effect {
    /// Nothing.
    Nothing,
    /// Hand the event to the password field.
    EditPassword,
    /// Hand the event to the search field, then reload the items.
    EditSearchThenSync,
    /// Reload the items with the current search term.
    Sync,
    /// Decrypt the item of this row with the password that was entered
    /// (read before the password field goes away) and copy it to the clipboard.
    CopySecret(usize),
}

/// The abstract state of the interface.
pub struct UiModel {
    pub theme: Theme,
    pub is_running: bool,
    pub passwd_entry: Option<PasswordEntryState>,
    pub find: Option<FindItemState>,
    pub popup_error: Option<Error>,
    /// The selected row of the table; it may lie past the last row until the
    /// table is drawn, which brings it back to the last row.
    pub selected: Option<usize>,
    /// The number of rows of the table.
    pub item_count: usize,
}

/// The selection after moving down one row.
pub open spec fn select_next(sel: Option<usize>) -> Option<usize> {
    match sel {
        None => Some(0usize),
        Some(i) => Some(
            if i == usize::MAX {
                usize::MAX
            } else {
                (i + 1) as usize
            },
        ),
    }
}

/// The selection after moving up one row.
pub open spec fn select_previous(sel: Option<usize>) -> Option<usize> {
    match sel {
        None => Some(usize::MAX),
        Some(i) => Some(
            if i == 0 {
                0usize
            } else {
                (i - 1) as usize
            },
        ),
    }
}

/// The key is one of the given letters.
pub open spec fn is_char(code: KeyCode, a: char, b: char) -> bool {
    code == KeyCode::Char(a) || code == KeyCode::Char(b)
}

/// What an event does while the error popup is open: Escape closes it, and
/// nothing else happens.
pub open spec fn popup_step(m: UiModel, e: UiEvent) -> (UiModel, Effect) {
    if e matches UiEvent::Key(k) && k.code == KeyCode::Esc {
        (UiModel { popup_error: None, ..m }, Effect::Nothing)
    } else {
        (m, Effect::Nothing)
    }
}

/// What an event does while the password entry panel is open.
pub open spec fn password_step(m: UiModel, e: UiEvent) -> (UiModel, Effect) {
    match e {
        UiEvent::Key(k) => {
            if k.code == KeyCode::Esc {
                (UiModel { passwd_entry: None, ..m }, Effect::Nothing)
            } else if k.code == KeyCode::Enter {
                match m.selected {
                    None => (
                        UiModel {
                            passwd_entry: None,
                            popup_error: Some(Error::SelectionRequired),
                            ..m
                        },
                        Effect::Nothing,
                    ),
                    Some(i) => (UiModel { passwd_entry: None, ..m }, Effect::CopySecret(i)),
                }
            } else if is_char(k.code, 'h', 'H') && k.ctrl {
                (
                    UiModel {
                        passwd_entry: Some(
                            PasswordEntryState { is_visible: !m.passwd_entry.unwrap().is_visible },
                        ),
                        ..m
                    },
                    Effect::Nothing,
                )
            } else {
                (m, Effect::EditPassword)
            }
        },
        _ => (m, Effect::EditPassword),
    }
}

/// The find panel takes the event: Escape always, other keys while it has
/// the focus.
pub open spec fn find_takes(f: FindItemState, e: UiEvent) -> bool {
    e matches UiEvent::Key(k) && (k.code == KeyCode::Esc || f.has_focus)
}

/// What an event that the find panel takes does.
pub open spec fn find_step(m: UiModel, e: UiEvent) -> (UiModel, Effect) {
    if e matches UiEvent::Key(k) && k.code == KeyCode::Esc {
        (UiModel { find: None, ..m }, Effect::Sync)
    } else if e matches UiEvent::Key(k) && k.code == KeyCode::Enter {
        (UiModel { find: Some(FindItemState { has_focus: false }), ..m }, Effect::Nothing)
    } else {
        (m, Effect::EditSearchThenSync)
    }
}

/// What an event does when it reaches the main table.
pub open spec fn table_step(m: UiModel, e: UiEvent) -> (UiModel, Effect) {
    match e {
        UiEvent::Mouse(MouseEventKind::ScrollDown) => (
            UiModel { selected: select_next(m.selected), ..m },
            Effect::Nothing,
        ),
        UiEvent::Mouse(MouseEventKind::ScrollUp) => (
            UiModel { selected: select_previous(m.selected), ..m },
            Effect::Nothing,
        ),
        UiEvent::Key(k) => {
            if k.kind != KeyEventKind::Press {
                (m, Effect::Nothing)
            } else if k.code == KeyCode::Up || is_char(k.code, 'k', 'K') {
                (UiModel { selected: select_previous(m.selected), ..m }, Effect::Nothing)
            } else if k.code == KeyCode::Down || k.code == KeyCode::Tab || is_char(k.code, 'j', 'J') {
                (UiModel { selected: select_next(m.selected), ..m }, Effect::Nothing)
            } else if k.code == KeyCode::Char('1') {
                (UiModel { selected: Some(0usize), ..m }, Effect::Nothing)
            } else if k.code == KeyCode::Char('0') {
                (UiModel { selected: Some(usize::MAX), ..m }, Effect::Nothing)
            } else if is_char(k.code, 'r', 'R') {
                (m, Effect::Sync)
            } else if is_char(k.code, 'c', 'C') || k.code == KeyCode::Enter {
                (
                    UiModel { passwd_entry: Some(PasswordEntryState { is_visible: false }), ..m },
                    Effect::Nothing,
                )
            } else if is_char(k.code, 'f', 'F') || k.code == KeyCode::Char('/') {
                (UiModel { find: Some(FindItemState { has_focus: true }), ..m }, Effect::Nothing)
            } else if is_char(k.code, 'q', 'Q') {
                (UiModel { is_running: false, ..m }, Effect::Nothing)
            } else {
                (m, Effect::Nothing)
            }
        },
        _ => (m, Effect::Nothing),
    }
}

/// What an event does: the error popup takes it first, then the password
/// entry panel, then the find panel, and else the main table.
pub open spec fn ui_step(m: UiModel, e: UiEvent) -> (UiModel, Effect) {
    if m.popup_error is Some {
        popup_step(m, e)
    } else if m.passwd_entry is Some {
        password_step(m, e)
    } else if m.find is Some && find_takes(m.find.unwrap(), e) {
        find_step(m, e)
    } else {
        table_step(m, e)
    }
}

/// The state after the items were reloaded and `n` rows came back: when there
/// are rows, the last row of the table is selected.
pub open spec fn after_sync(m: UiModel, n: usize) -> UiModel {
    UiModel {
        item_count: n,
        selected: if n > 0 {
            Some((n - 1) as usize)
        } else {
            m.selected
        },
        ..m
    }
}

/// The main table has the focus when no other panel does.
pub open spec fn table_has_focus(m: UiModel) -> bool {
    (m.find is None || !m.find.unwrap().has_focus) && m.passwd_entry is None && m.popup_error is None
}

/// The top-level state of the interface.
#[derive(Debug)]
pub struct State {
    theme: Theme,
    is_running: bool,
    passwd_entry: Option<PasswordEntryState>,
    find: Option<FindItemState>,
    popup_error: Option<Error>,
    selected: Option<usize>,
    item_count: usize,
}

impl View for State {
    type V = UiModel;

    closed spec fn view(&self) -> UiModel {
        UiModel {
            theme: self.theme,
            is_running: self.is_running,
            passwd_entry: self.passwd_entry,
            find: self.find,
            popup_error: self.popup_error,
            selected: self.selected,
            item_count: self.item_count,
        }
    }
}

impl State {
    /// The interface over a table of `item_count` rows: running, with no panel
    /// open and the first row selected when there is one.
    pub fn new(theme: Theme, item_count: usize) -> (r: State)
        ensures
            r@ == (UiModel {
                theme,
                is_running: true,
                passwd_entry: None,
                find: None,
                popup_error: None,
                selected: if item_count == 0 {
                    None
                } else {
                    Some(0usize)
                },
                item_count,
            }),
    {
        State {
            theme,
            is_running: true,
            passwd_entry: None,
            find: None,
            popup_error: None,
            selected: if item_count == 0 {
                None
            } else {
                Some(0)
            },
            item_count,
        }
    }

    /// Returns `true` as long as the application should run.
    pub fn is_running(&self) -> (r: bool)
        ensures
            r == self@.is_running,
    {
        self.is_running
    }

    /// The theme of the interface.
    pub fn theme(&self) -> (r: Theme)
        ensures
            r == self@.theme,
    {
        self.theme
    }

    /// The password entry panel, when it is open.
    pub fn passwd_entry(&self) -> (r: Option<PasswordEntryState>)
        ensures
            r == self@.passwd_entry,
    {
        self.passwd_entry
    }

    /// The find panel, when it is open.
    pub fn find(&self) -> (r: Option<FindItemState>)
        ensures
            r == self@.find,
    {
        self.find
    }

    /// The error shown in the popup, when there is one.
    pub fn popup_error(&self) -> (r: Option<&Error>)
        ensures
            match self@.popup_error {
                Some(e) => r == Some(&e),
                None => r is None,
            },
    {
        match &self.popup_error {
            Some(e) => Some(e),
            None => None,
        }
    }

    /// The selected row.
    pub fn selected(&self) -> (r: Option<usize>)
        ensures
            r == self@.selected,
    {
        self.selected
    }

    /// Takes the selection as drawing the table left it.
    pub fn set_selected(&mut self, selected: Option<usize>)
        ensures
            final(self)@ == (UiModel { selected, ..old(self)@ }),
    {
        self.selected = selected;
    }

    /// Shows an error in the popup.
    pub fn report_error(&mut self, error: Error)
        ensures
            final(self)@ == (UiModel { popup_error: Some(error), ..old(self)@ }),
    {
        self.popup_error = Some(error);
    }

    /// Handles one input event and says what work it asks for.
    pub fn handle_event(&mut self, event: UiEvent) -> (r: Effect)
        ensures
            (final(self)@, r) == ui_step(old(self)@, event),
    {
        if self.popup_error.is_some() {
            if let UiEvent::Key(k) = event {
                if let KeyCode::Esc = k.code {
                    self.popup_error = None;
                }
            }
            return Effect::Nothing;
        }
        if let Some(entry) = self.passwd_entry {
            return match event {
                UiEvent::Key(k) => match k.code {
                    KeyCode::Esc => {
                        self.passwd_entry = None;
                        Effect::Nothing
                    },
                    KeyCode::Enter => {
                        self.passwd_entry = None;
                        match self.selected {
                            None => {
                                self.popup_error = Some(Error::SelectionRequired);
                                Effect::Nothing
                            },
                            Some(i) => Effect::CopySecret(i),
                        }
                    },
                    KeyCode::Char(c) => {
                        if (c == 'h' || c == 'H') && k.ctrl {
                            self.passwd_entry = Some(PasswordEntryState { is_visible: !entry.is_visible });
                            Effect::Nothing
                        } else {
                            Effect::EditPassword
                        }
                    },
                    _ => Effect::EditPassword,
                },
                _ => Effect::EditPassword,
            };
        }
        if let Some(f) = self.find {
            if let UiEvent::Key(k) = event {
                match k.code {
                    KeyCode::Esc => {
                        self.find = None;
                        return Effect::Sync;
                    },
                    KeyCode::Enter => {
                        if f.has_focus {
                            self.find = Some(FindItemState { has_focus: false });
                            return Effect::Nothing;
                        }
                    },
                    _ => {
                        if f.has_focus {
                            return Effect::EditSearchThenSync;
                        }
                    },
                }
            }
        }
        self.handle_table_event(event)
    }

    /// Handles an event that reaches the main table.
    fn handle_table_event(&mut self, event: UiEvent) -> (r: Effect)
        ensures
            (final(self)@, r) == table_step(old(self)@, event),
    {
        match event {
            UiEvent::Mouse(MouseEventKind::ScrollDown) => {
                self.select_next();
                Effect::Nothing
            },
            UiEvent::Mouse(MouseEventKind::ScrollUp) => {
                self.select_previous();
                Effect::Nothing
            },
            UiEvent::Key(k) => {
                match k.kind {
                    KeyEventKind::Press => {},
                    _ => {
                        return Effect::Nothing;
                    },
                }
                match k.code {
                    KeyCode::Up => {
                        self.select_previous();
                        Effect::Nothing
                    },
                    KeyCode::Down | KeyCode::Tab => {
                        self.select_next();
                        Effect::Nothing
                    },
                    KeyCode::Enter => {
                        self.passwd_entry = Some(PasswordEntryState { is_visible: false });
                        Effect::Nothing
                    },
                    KeyCode::Char(c) => {
                        if c == 'k' || c == 'K' {
                            self.select_previous();
                            Effect::Nothing
                        } else if c == 'j' || c == 'J' {
                            self.select_next();
                            Effect::Nothing
                        } else if c == '1' {
                            self.selected = Some(0);
                            Effect::Nothing
                        } else if c == '0' {
                            self.selected = Some(usize::MAX);
                            Effect::Nothing
                        } else if c == 'r' || c == 'R' {
                            Effect::Sync
                        } else if c == 'c' || c == 'C' {
                            self.passwd_entry = Some(PasswordEntryState { is_visible: false });
                            Effect::Nothing
                        } else if c == 'f' || c == 'F' || c == '/' {
                            self.find = Some(FindItemState { has_focus: true });
                            Effect::Nothing
                        } else if c == 'q' || c == 'Q' {
                            self.is_running = false;
                            Effect::Nothing
                        } else {
                            Effect::Nothing
                        }
                    },
                    _ => Effect::Nothing,
                }
            },
            _ => Effect::Nothing,
        }
    }

    /// Moves the selection down one row.
    fn select_next(&mut self)
        ensures
            final(self)@ == (UiModel { selected: select_next(old(self)@.selected), ..old(self)@ }),
    {
        self.selected = match self.selected {
            None => Some(0),
            Some(i) => Some(i.saturating_add(1)),
        };
    }

    /// Moves the selection up one row.
    fn select_previous(&mut self)
        ensures
            final(self)@ == (UiModel { selected: select_previous(old(self)@.selected), ..old(self)@ }),
    {
        self.selected = match self.selected {
            None => Some(usize::MAX),
            Some(i) => Some(i.saturating_sub(1)),
        };
    }

    /// Takes the outcome of reloading the items: the number of rows that came
    /// back, after which the last row is selected when there is one, or the
    /// error, which the popup then shows.
    pub fn finish_sync(&mut self, outcome: Result<usize, Error>)
        ensures
            match outcome {
                Ok(n) => final(self)@ == after_sync(old(self)@, n),
                Err(e) => final(self)@ == (UiModel { popup_error: Some(e), ..old(self)@ }),
            },
    {
        match outcome {
            Ok(n) => {
                self.item_count = n;
                if n > 0 {
                    self.selected = Some(n - 1);
                }
            },
            Err(e) => {
                self.popup_error = Some(e);
            },
        }
    }

    /// The main table has the focus when none of the other panels does.
    pub fn main_table_has_focus(&self) -> (r: bool)
        ensures
            r == table_has_focus(self@),
    {
        let find_unfocused = match self.find {
            None => true,
            Some(f) => !f.has_focus,
        };
        find_unfocused && self.passwd_entry.is_none() && self.popup_error.is_none()
    }

    /// The border style of the main table: bold when it has the focus.
    pub fn table_border_style(&self) -> (r: Style)
        ensures
            r == if table_has_focus(self@) {
                with_modifier(border_style(self@.theme), BOLD)
            } else {
                border_style(self@.theme)
            },
    {
        let border = self.theme.border();
        if self.main_table_has_focus() {
            border.add_modifier(BOLD)
        } else {
            border
        }
    }
}

/// An area of the screen.
#[derive(Clone, Copy, Debug, PartialEq, Eq, Structural)]
pub struct Rect {
    pub x: u16,
    pub y: u16,
    pub width: u16,
    pub height: u16,
}

/// Space to leave around an area, on each side.
#[derive(Clone, Copy, Debug, PartialEq, Eq, Structural)]
pub struct Margin {
    pub horizontal: u16,
    pub vertical: u16,
}

/// `a - b`, or 0 when `b` is larger.
pub open spec fn sat_sub(a: u16, b: u16) -> u16 {
    if a >= b {
        (a - b) as u16
    } else {
        0u16
    }
}

/// `a + b`, or the largest value when that does not fit.
pub open spec fn sat_add(a: u16, b: u16) -> u16 {
    if a + b <= u16::MAX {
        (a + b) as u16
    } else {
        u16::MAX
    }
}

/// `2 * a`, or the largest value when that does not fit.
pub open spec fn sat_double(a: u16) -> u16 {
    if 2 * a <= u16::MAX {
        (2 * a) as u16
    } else {
        u16::MAX
    }
}

/// The area inside `r` once the margin is taken off each side; an empty area
/// at the origin when the margins do not fit.
pub open spec fn inner_rect(r: Rect, m: Margin) -> Rect {
    let dh = sat_double(m.horizontal);
    let dv = sat_double(m.vertical);
    if r.width < dh || r.height < dv {
        Rect { x: 0, y: 0, width: 0, height: 0 }
    } else {
        Rect {
            x: sat_add(r.x, m.horizontal),
            y: sat_add(r.y, m.vertical),
            width: (r.width - dh) as u16,
            height: (r.height - dv) as u16,
        }
    }
}

impl Rect {
    /// The area inside this one once the margin is taken off each side.
    pub fn inner(self, margin: Margin) -> (r: Rect)
        ensures
            r == inner_rect(self, margin),
    {
        let dh: u16 = if margin.horizontal <= u16::MAX / 2 {
            margin.horizontal * 2
        } else {
            u16::MAX
        };
        let dv: u16 = if margin.vertical <= u16::MAX / 2 {
            margin.vertical * 2
        } else {
            u16::MAX
        };
        if self.width < dh || self.height < dv {
            Rect { x: 0, y: 0, width: 0, height: 0 }
        } else {
            Rect {
                x: self.x.saturating_add(margin.horizontal),
                y: self.y.saturating_add(margin.vertical),
                width: self.width - dh,
                height: self.height - dv,
            }
        }
    }
}

/// Where the parts of the interface are drawn.
#[derive(Clone, Copy, Debug, PartialEq, Eq, Structural)]
pub struct DrawLayout {
    /// The main table.
    pub table_area: Rect,
    /// The field of the open panel: the password field if the password entry
    /// panel is open, else the search field.
    pub input_area: Option<Rect>,
    /// The error popup.
    pub dialog_area: Option<Rect>,
}

/// The height of the input field under the table.
pub const INPUT_HEIGHT: u16 = 3;

/// The interface uses the top half of the screen. An open panel takes the
/// bottom rows of that half; the error popup is centered in the half, 72
/// columns and 3 rows inside its border where there is room.
pub open spec fn draw_layout(m: UiModel, full: Rect) -> DrawLayout {
    let half = Rect { height: (full.height / 2) as u16, ..full };
    let above_input = Rect { height: (half.height - INPUT_HEIGHT) as u16, ..half };
    let has_input = m.passwd_entry is Some || m.find is Some;
    DrawLayout {
        table_area: if has_input {
            above_input
        } else {
            half
        },
        input_area: if has_input {
            Some(
                Rect {
                    x: above_input.x,
                    y: (above_input.y + above_input.height) as u16,
                    width: above_input.width,
                    height: INPUT_HEIGHT,
                },
            )
        } else {
            None
        },
        dialog_area: if m.popup_error is Some {
            Some(
                inner_rect(
                    half,
                    Margin {
                        horizontal: (sat_sub(half.width, 74) / 2) as u16,
                        vertical: (sat_sub(half.height, 5) / 2) as u16,
                    },
                ),
            )
        } else {
            None
        },
    }
}

/// Shows an error: a blank line, its text, and a blank line.
pub open spec fn error_modal_text(e: Error) -> Seq<char> {
    "\n"@ + error_message(e) + "\n"@
}

/// The bottom title of the password field, which says what Control-H does.
pub open spec fn password_title(is_visible: bool) -> Seq<char> {
    " <^H> "@ + (if is_visible {
        "Hide"@
    } else {
        "Show"@
    }) + " password "@
}

/// The character that hides a typed password: none when it is shown.
pub open spec fn password_mask(is_visible: bool) -> Option<char> {
    if is_visible {
        None
    } else {
        Some('\u{25cf}')
    }
}

/// The text and border styles of the search field: bold while it has the focus.
pub open spec fn find_field_styles(t: Theme, has_focus: bool) -> (Style, Style) {
    if has_focus {
        (with_modifier(default_style(t), BOLD), with_modifier(border_style(t), BOLD))
    } else {
        (default_style(t), border_style(t))
    }
}

/// The lines of a text field joined with a line feed between each two.
pub open spec fn joined(lines: Seq<Seq<char>>) -> Seq<char>
    decreases lines.len(),
{
    if lines.len() == 0 {
        seq![]
    } else if lines.len() == 1 {
        lines[0]
    } else {
        joined(lines.drop_last()) + seq!['\n'] + lines.last()
    }
}

/// A character with the Unicode `White_Space` property, which is what
/// `char::is_whitespace` tests.
pub open spec fn is_white_space(c: char) -> bool {
    let u = c as u32;
    ||| 0x09 <= u <= 0x0d
    ||| u == 0x20
    ||| u == 0x85
    ||| u == 0xa0
    ||| u == 0x1680
    ||| 0x2000 <= u <= 0x200a
    ||| u == 0x2028
    ||| u == 0x2029
    ||| u == 0x202f
    ||| u == 0x205f
    ||| u == 0x3000
}

/// `s` without its leading white space.
pub open spec fn trim_start(s: Seq<char>) -> Seq<char>
    decreases s.len(),
{
    if s.len() > 0 && is_white_space(s[0]) {
        trim_start(s.drop_first())
    } else {
        s
    }
}

/// `s` without its trailing white space.
pub open spec fn trim_end(s: Seq<char>) -> Seq<char>
    decreases s.len(),
{
    if s.len() > 0 && is_white_space(s.last()) {
        trim_end(s.drop_last())
    } else {
        s
    }
}

/// `s` without its leading and trailing white space.
pub open spec fn trimmed(s: Seq<char>) -> Seq<char> {
    trim_end(trim_start(s))
}

/// Takes leading and trailing white space off with `str::trim`.
#[verifier::external_body]
fn trim(s: &str) -> (r: &str)
    ensures
        r@ == trimmed(s@),
{
    s.trim()
}

/// The `LIKE` pattern that matches any text containing `term`.
pub fn like_pattern(term: &str) -> (r: String)
    ensures
        r@ == "%"@ + term@ + "%"@,
{
    let mut r = string_of("%");
    push_str(&mut r, term);
    push_str(&mut r, "%");
    r
}

impl State {
    /// Where the parts of the interface go on a screen of the given size.
    /// The top half of the screen must have room for the input field, and the
    /// row where that field starts must be a row number.
    pub fn layout(&self, full: Rect) -> (r: DrawLayout)
        requires
            full.height / 2 >= INPUT_HEIGHT,
            full.y + full.height / 2 - INPUT_HEIGHT <= u16::MAX,
        ensures
            r == draw_layout(self@, full),
    {
        let half = Rect { height: full.height / 2, ..full };
        let above_input = Rect { height: half.height - INPUT_HEIGHT, ..half };
        let has_input = self.passwd_entry.is_some() || self.find.is_some();
        let input_area = if has_input {
            Some(
                Rect {
                    x: above_input.x,
                    y: above_input.y + above_input.height,
                    width: above_input.width,
                    height: INPUT_HEIGHT,
                },
            )
        } else {
            None
        };
        let dialog_area = if self.popup_error.is_some() {
            let margin = Margin {
                horizontal: half.width.saturating_sub(72 + 2) / 2,
                vertical: half.height.saturating_sub(3 + 2) / 2,
            };
            Some(half.inner(margin))
        } else {
            None
        };
        DrawLayout {
            table_area: if has_input {
                above_input
            } else {
                half
            },
            input_area,
            dialog_area,
        }
    }

    /// The search term for reloading the items: none unless the find panel is
    /// open, else the first line of the search field, trimmed, as a pattern
    /// that matches any text containing it.
    pub fn search_term(&self, first_line: Option<&str>) -> (r: Option<String>)
        ensures
            self@.find is None ==> r is None,
            self@.find is Some ==> match first_line {
                None => r is None,
                Some(l) => r matches Some(p) && p@ == "%"@ + trimmed(l@) + "%"@,
            },
    {
        if self.find.is_none() {
            return None;
        }
        match first_line {
            None => None,
            Some(l) => Some(like_pattern(trim(l))),
        }
    }

    /// The text and border styles of the search field.
    pub fn find_field_styles(&self, has_focus: bool) -> (r: (Style, Style))
        ensures
            r == find_field_styles(self@.theme, has_focus),
    {
        if has_focus {
            (self.theme.default().add_modifier(BOLD), self.theme.border().add_modifier(BOLD))
        } else {
            (self.theme.default(), self.theme.border())
        }
    }

    /// The text and border style of the error popup: the error colors, the
    /// border bold.
    pub fn error_modal_styles(&self) -> (r: (Style, Style))
        ensures
            r == (error_style(self@.theme), with_modifier(error_style(self@.theme), BOLD)),
    {
        let s = self.theme.error();
        (s, s.add_modifier(BOLD))
    }
}

/// The text of the error popup.
pub fn error_modal_text_of(error: &Error) -> (r: String)
    ensures
        r@ == error_modal_text(*error),
{
    let m = error.message();
    let mut r = string_of("\n");
    push_str(&mut r, m.as_str());
    push_str(&mut r, "\n");
    r
}

/// The bottom title of the password field.
pub fn password_title_of(is_visible: bool) -> (r: String)
    ensures
        r@ == password_title(is_visible),
{
    let mut r = string_of(" <^H> ");
    push_str(&mut r, if is_visible { "Hide" } else { "Show" });
    push_str(&mut r, " password ");
    r
}

/// The character that hides a typed password.
pub fn password_mask_of(is_visible: bool) -> (r: Option<char>)
    ensures
        r == password_mask(is_visible),
{
    if is_visible {
        None
    } else {
        Some('\u{25cf}')
    }
}

/// The password typed into the field: its lines joined with line feeds.
pub fn password_text(lines: &[String]) -> (r: String)
    ensures
        r@ == joined(lines@.map_values(|l: String| l@)),
{
    let ghost ls = lines@.map_values(|l: String| l@);
    let mut r = String::new();
    if lines.len() == 0 {
        assert(r@ =~= joined(ls));
        return r;
    }
    push_str(&mut r, lines[0].as_str());
    assert(ls.take(1).drop_last() =~= Seq::<Seq<char>>::empty());
    assert(r@ =~= joined(ls.take(1)));
    let mut k: usize = 1;
    while k < lines.len()
        invariant
            1 <= k <= lines@.len(),
            ls == lines@.map_values(|l: String| l@),
            r@ == joined(ls.take(k as int)),
        decreases lines.len() - k,
    {
        push_char(&mut r, '\n');
        push_str(&mut r, lines[k].as_str());
        assert(ls.take(k + 1).drop_last() =~= ls.take(k as int));
        assert(ls.take(k + 1).last() == lines@[k as int]@);
        assert(r@ =~= joined(ls.take(k + 1)));
        k = k + 1;
    }
    assert(ls.take(k as int) =~= ls);
    r
}

/// The title of the main table, with the version of the application.
pub fn table_title(version: &str) -> (r: String)
    ensures
        r@ == " SteelSafe v"@ + version@ + " (read-only) "@,
{
    let mut r = string_of(" SteelSafe v");
    push_str(&mut r, version);
    push_str(&mut r, " (read-only) ");
    r
}

/// The cells of a table row: the title, the account (empty when there is
/// none) and the modification time.
pub fn row_cells(label: &str, account: Option<&str>, modified_at: &str) -> (r: Vec<String>)
    ensures
        r@.len() == 3,
        r@[0]@ == label@,
        r@[1]@ == match account {
            Some(a) => a@,
            None => Seq::<char>::empty(),
        },
        r@[2]@ == modified_at@,
{
    let mut r: Vec<String> = Vec::new();
    r.push(string_of(label));
    r.push(
        match account {
            Some(a) => string_of(a),
            None => String::new(),
        },
    );
    r.push(string_of(modified_at));
    r
}

/// The titles of the table's columns.
pub fn table_header() -> (r: Vec<String>)
    ensures
        r@.len() == 3,
        r@[0]@ == "Title"@,
        r@[1]@ == "Username or account"@,
        r@[2]@ == "Modified at (UTC)"@,
{
    let mut r: Vec<String> = Vec::new();
    r.push(string_of("Title"));
    r.push(string_of("Username or account"));
    r.push(string_of("Modified at (UTC)"));
    r
}

/// While the error popup is open it takes every event: nothing is asked of
/// the caller, and nothing changes but the popup, which Escape closes.
pub proof fn lemma_popup_takes_every_event(m: UiModel, e: UiEvent)
    requires
        m.popup_error is Some,
    ensures
        ui_step(m, e).1 == Effect::Nothing,
        ui_step(m, e).0.is_running == m.is_running,
        ui_step(m, e).0.passwd_entry == m.passwd_entry,
        ui_step(m, e).0.find == m.find,
        ui_step(m, e).0.selected == m.selected,
        ui_step(m, e).0.item_count == m.item_count,
        (e matches UiEvent::Key(k) && k.code == KeyCode::Esc) <==> ui_step(m, e).0.popup_error is None,
{
}

/// The application only stops on a key that reaches the main table while it
/// has the focus.
pub proof fn lemma_quit_only_from_table(m: UiModel, e: UiEvent)
    requires
        m.is_running,
        !ui_step(m, e).0.is_running,
    ensures
        table_has_focus(m),
        e matches UiEvent::Key(k) && k.kind == KeyEventKind::Press && is_char(k.code, 'q', 'Q'),
{
}

/// A secret is only copied from the selected row, when the password entry
/// panel was open, and the panel closes.
pub proof fn lemma_copy_uses_selection(m: UiModel, e: UiEvent, i: usize)
    requires
        ui_step(m, e).1 == Effect::CopySecret(i),
    ensures
        m.popup_error is None,
        m.passwd_entry is Some,
        m.selected == Some(i),
        ui_step(m, e).0.passwd_entry is None,
{
}

/// Pressing Control-H twice in the password entry panel shows the password
/// as it was shown before.
pub proof fn lemma_toggle_twice(m: UiModel, k: KeyEvent)
    requires
        m.popup_error is None,
        m.passwd_entry is Some,
        k.code == KeyCode::Char('h') || k.code == KeyCode::Char('H'),
        k.ctrl,
    ensures
        ui_step(ui_step(m, UiEvent::Key(k)).0, UiEvent::Key(k)).0.passwd_entry == m.passwd_entry,
        ui_step(m, UiEvent::Key(k)).1 == Effect::Nothing,
{
}

/// After a reload that found rows, the last row of the table is selected.
pub proof fn lemma_sync_selects_a_row(m: UiModel, n: usize)
    requires
        n > 0,
    ensures
        after_sync(m, n).selected == Some((n - 1) as usize),
        after_sync(m, n).item_count == n,
{
}

/// Escape in the find panel closes it and reloads the items without a
/// search term.
pub proof fn lemma_escape_leaves_find(m: UiModel, k: KeyEvent)
    requires
        m.popup_error is None,
        m.passwd_entry is None,
        m.find is Some,
        k.code == KeyCode::Esc,
    ensures
        ui_step(m, UiEvent::Key(k)).0.find is None,
        ui_step(m, UiEvent::Key(k)).1 == Effect::Sync,
{
}

/// On the table (no popup, no password panel, no find panel with the focus),
/// a pressed Up, `k` or `K` moves the selection one row up, stopping at the
/// first row; with no selection it goes to the last row. Nothing else changes.
pub proof fn lemma_table_moves_up(m: UiModel, k: KeyEvent)
    requires
        m.popup_error is None,
        m.passwd_entry is None,
        m.find is None || !m.find.unwrap().has_focus,
        k.kind == KeyEventKind::Press,
        k.code == KeyCode::Up || k.code == KeyCode::Char('k') || k.code == KeyCode::Char('K'),
    ensures
        ui_step(m, UiEvent::Key(k)) == (
            UiModel {
                selected: Some(
                    match m.selected {
                        None => usize::MAX,
                        Some(i) => if i == 0 {
                            0
                        } else {
                            (i - 1) as usize
                        },
                    },
                ),
                ..m
            },
            Effect::Nothing,
        ),
{
}

/// On the table, a pressed Down, Tab, `j` or `J`, or a scroll down, moves the
/// selection one row down (it does not pass the largest index); with no
/// selection it goes to the first row. Nothing else changes.
pub proof fn lemma_table_moves_down(m: UiModel, e: UiEvent)
    requires
        m.popup_error is None,
        m.passwd_entry is None,
        m.find is None || !m.find.unwrap().has_focus,
        e == UiEvent::Mouse(MouseEventKind::ScrollDown) || (e matches UiEvent::Key(k)
            && k.kind == KeyEventKind::Press && (k.code == KeyCode::Down || k.code == KeyCode::Tab
            || k.code == KeyCode::Char('j') || k.code == KeyCode::Char('J'))),
    ensures
        ui_step(m, e) == (
            UiModel {
                selected: Some(
                    match m.selected {
                        None => 0,
                        Some(i) => if i == usize::MAX {
                            usize::MAX
                        } else {
                            (i + 1) as usize
                        },
                    },
                ),
                ..m
            },
            Effect::Nothing,
        ),
{
}

/// On the table, a scroll up moves the selection as Up does.
pub proof fn lemma_table_scroll_up(m: UiModel, k: KeyEvent)
    requires
        m.popup_error is None,
        m.passwd_entry is None,
        m.find is None || !m.find.unwrap().has_focus,
        k.kind == KeyEventKind::Press,
        k.code == KeyCode::Up,
    ensures
        ui_step(m, UiEvent::Mouse(MouseEventKind::ScrollUp)) == ui_step(m, UiEvent::Key(k)),
{
}

/// On the table, `1` selects the first row and `0` the last one (past the
/// end until the table is drawn); `r` and `R` ask for a reload; `c`, `C` and
/// Enter open the password entry panel with the password hidden; `f`, `F`
/// and `/` open or focus the find panel; `q` and `Q` stop the application.
/// Each changes nothing else.
pub proof fn lemma_table_commands(m: UiModel, k: KeyEvent)
    requires
        m.popup_error is None,
        m.passwd_entry is None,
        m.find is None || !m.find.unwrap().has_focus,
        k.kind == KeyEventKind::Press,
    ensures
        k.code == KeyCode::Char('1') ==> ui_step(m, UiEvent::Key(k)) == (
            UiModel { selected: Some(0usize), ..m },
            Effect::Nothing,
        ),
        k.code == KeyCode::Char('0') ==> ui_step(m, UiEvent::Key(k)) == (
            UiModel { selected: Some(usize::MAX), ..m },
            Effect::Nothing,
        ),
        (k.code == KeyCode::Char('r') || k.code == KeyCode::Char('R')) ==> ui_step(
            m,
            UiEvent::Key(k),
        ) == (m, Effect::Sync),
        (k.code == KeyCode::Char('c') || k.code == KeyCode::Char('C') || k.code == KeyCode::Enter)
            ==> ui_step(m, UiEvent::Key(k)) == (
            UiModel { passwd_entry: Some(PasswordEntryState { is_visible: false }), ..m },
            Effect::Nothing,
        ),
        (k.code == KeyCode::Char('f') || k.code == KeyCode::Char('F') || k.code == KeyCode::Char(
            '/',
        )) ==> ui_step(m, UiEvent::Key(k)) == (
            UiModel { find: Some(FindItemState { has_focus: true }), ..m },
            Effect::Nothing,
        ),
        (k.code == KeyCode::Char('q') || k.code == KeyCode::Char('Q')) ==> ui_step(
            m,
            UiEvent::Key(k),
        ) == (UiModel { is_running: false, ..m }, Effect::Nothing),
{
}

/// A key that is released or repeats, and any event other than a key or a
/// scroll, does nothing on the table.
pub proof fn lemma_table_ignores_other_events(m: UiModel, e: UiEvent)
    requires
        m.popup_error is None,
        m.passwd_entry is None,
        m.find is None,
        e == UiEvent::Other || e == UiEvent::Mouse(MouseEventKind::Other) || (e matches UiEvent::Key(
            k,
        ) && k.kind != KeyEventKind::Press),
    ensures
        ui_step(m, e) == (m, Effect::Nothing),
{
}

/// In the password entry panel, every event is typed into the password field
/// (nothing changes, and the field gets the event), except Escape, Enter and
/// Control-H: Escape closes the panel; Enter closes it and copies the secret
/// of the selected row, or shows that no row is selected; Control-H (either
/// case) shows or hides the password and is not typed.
pub proof fn lemma_password_panel(m: UiModel, e: UiEvent)
    requires
        m.popup_error is None,
        m.passwd_entry is Some,
    ensures
        !(e matches UiEvent::Key(k) && (k.code == KeyCode::Esc || k.code == KeyCode::Enter || (k.ctrl
            && (k.code == KeyCode::Char('h') || k.code == KeyCode::Char('H'))))) ==> ui_step(m, e)
            == (m, Effect::EditPassword),
        (e matches UiEvent::Key(k) && k.code == KeyCode::Esc) ==> ui_step(m, e) == (
            UiModel { passwd_entry: None, ..m },
            Effect::Nothing,
        ),
        (e matches UiEvent::Key(k) && k.code == KeyCode::Enter) ==> ui_step(m, e) == match m.selected {
            Some(i) => (UiModel { passwd_entry: None, ..m }, Effect::CopySecret(i)),
            None => (
                UiModel { passwd_entry: None, popup_error: Some(Error::SelectionRequired), ..m },
                Effect::Nothing,
            ),
        },
        (e matches UiEvent::Key(k) && k.ctrl && (k.code == KeyCode::Char('h') || k.code
            == KeyCode::Char('H'))) ==> ui_step(m, e) == (
            UiModel {
                passwd_entry: Some(
                    PasswordEntryState { is_visible: !m.passwd_entry.unwrap().is_visible },
                ),
                ..m
            },
            Effect::Nothing,
        ),
{
}

/// While the find panel has the focus, every key other than Escape and Enter
/// edits the search term and reloads the items, and changes nothing else;
/// Enter gives the focus back to the table; Escape closes the panel and
/// reloads, whether or not it has the focus.
pub proof fn lemma_find_panel(m: UiModel, k: KeyEvent)
    requires
        m.popup_error is None,
        m.passwd_entry is None,
        m.find is Some,
    ensures
        m.find.unwrap().has_focus && k.code != KeyCode::Esc && k.code != KeyCode::Enter ==> ui_step(
            m,
            UiEvent::Key(k),
        ) == (m, Effect::EditSearchThenSync),
        m.find.unwrap().has_focus && k.code == KeyCode::Enter ==> ui_step(m, UiEvent::Key(k)) == (
            UiModel { find: Some(FindItemState { has_focus: false }), ..m },
            Effect::Nothing,
        ),
        k.code == KeyCode::Esc ==> ui_step(m, UiEvent::Key(k)) == (
            UiModel { find: None, ..m },
            Effect::Sync,
        ),
{
}

/// The table fills the top half of the screen, except that while the
/// password entry panel or the find panel is open, the panel's field takes
/// the last three rows of that half, right under the table, across its whole
/// width. The error popup is drawn exactly when there is an error to show.
pub proof fn lemma_layout_places_the_panel(m: UiModel, full: Rect)
    requires
        full.height / 2 >= INPUT_HEIGHT,
        full.y + full.height / 2 - INPUT_HEIGHT <= u16::MAX,
    ensures
        (m.passwd_entry is Some || m.find is Some) ==> {
            &&& draw_layout(m, full).table_area == Rect {
                x: full.x,
                y: full.y,
                width: full.width,
                height: (full.height / 2 - 3) as u16,
            }
            &&& draw_layout(m, full).input_area == Some(
                Rect {
                    x: full.x,
                    y: (full.y + full.height / 2 - 3) as u16,
                    width: full.width,
                    height: 3,
                },
            )
        },
        (m.passwd_entry is None && m.find is None) ==> {
            &&& draw_layout(m, full).table_area == Rect {
                x: full.x,
                y: full.y,
                width: full.width,
                height: (full.height / 2) as u16,
            }
            &&& draw_layout(m, full).input_area is None
        },
        draw_layout(m, full).dialog_area is Some <==> m.popup_error is Some,
{
}

/// The error popup is centered in the top half of the screen: it keeps a
/// margin on each side that leaves it 74 columns and 5 rows (its text area
/// and border) wherever the half is larger, and the whole half otherwise.
pub proof fn lemma_popup_is_centered(m: UiModel, full: Rect)
    requires
        m.popup_error is Some,
        full.x + full.width <= u16::MAX,
        full.height / 2 >= INPUT_HEIGHT,
        full.y + full.height / 2 - INPUT_HEIGHT <= u16::MAX,
    ensures
        ({
            let half = full.height / 2;
            let hm = if full.width >= 74 {
                (full.width - 74) / 2
            } else {
                0
            };
            let vm = if half >= 5 {
                (half - 5) / 2
            } else {
                0
            };
            draw_layout(m, full).dialog_area == Some(
                Rect {
                    x: (full.x + hm) as u16,
                    y: (full.y + vm) as u16,
                    width: (full.width - 2 * hm) as u16,
                    height: (half - 2 * vm) as u16,
                },
            )
        }),
{
}

} // verus!
