//! The search box: a `tui_textarea::TextArea`, of which only the first line is searched for.

use ratatui::style::{Color, Style};
use ratatui::widgets::{Block, Borders};
use tui_textarea::{Input, Key, TextArea};
use vstd::prelude::*;
use crate::keys::{KeyCode, KeyPress};

verus! {

/// A `tui_textarea::TextArea`: lines of text with a cursor, a selection and an undo history.
#[verifier::external_body]
#[derive(Debug, Default)]
pub struct SearchBox {
    pub area: TextArea<'static>,
}

/// The lines of text that a text area holds.
pub uninterp spec fn area_lines(area: SearchBox) -> Seq<Seq<char>>;

/// Where the cursor of a text area stands: row and column, counted in characters.
pub uninterp spec fn area_cursor(area: SearchBox) -> (nat, nat);

/// Where a selection was started in a text area, row and column, if one was.
pub uninterp spec fn area_selection(area: SearchBox) -> Option<(nat, nat)>;

/// The title that the frame of a text area was given.
pub uninterp spec fn area_title(area: SearchBox) -> Seq<char>;

/// The lines that `TextArea::input` leaves in a text area when `key` is put in.
pub uninterp spec fn lines_after_input(area: SearchBox, key: KeyPress) -> Seq<Seq<char>>;

/// Where `TextArea::input` leaves the cursor of a text area when `key`, which does not page, is
/// put in.
pub uninterp spec fn cursor_after_input(area: SearchBox, key: KeyPress) -> (nat, nat);

/// Where the selection was started that `TextArea::input` leaves in a text area when `key` is put
/// in.
pub uninterp spec fn selection_after_input(area: SearchBox, key: KeyPress) -> Option<(nat, nat)>;

/// The cursor of `area` stands on a line that there is, at most at its end.
pub open spec fn cursor_on_text(area: SearchBox) -> bool {
    let (row, col) = area_cursor(area);
    row < area_lines(area).len() && col <= area_lines(area)[row as int].len()
}

/// `key` types a character: one that is no line break, with neither Control nor Alt.
pub open spec fn types_char(key: KeyPress) -> bool {
    match key.code {
        KeyCode::Char(c) => c != '\n' && c != '\r' && !key.ctrl && !key.alt,
        _ => false,
    }
}

/// `key` is Backspace, with neither Control nor Alt.
pub open spec fn plain_backspace(key: KeyPress) -> bool {
    key.code == KeyCode::Backspace && !key.ctrl && !key.alt
}

/// `key` moves the cursor or does nothing: an arrow, Home, End, a page key, Escape, a function key
/// or one that the text area does not know.
pub open spec fn only_moves(key: KeyPress) -> bool {
    match key.code {
        KeyCode::Left | KeyCode::Right | KeyCode::Up | KeyCode::Down => true,
        KeyCode::Home | KeyCode::End | KeyCode::PageUp | KeyCode::PageDown => true,
        KeyCode::Esc | KeyCode::F(_) | KeyCode::Other => true,
        _ => false,
    }
}

/// `key` pages up or down: a page key, or v with Control alone or Alt alone.
pub open spec fn pages(key: KeyPress) -> bool {
    match key.code {
        KeyCode::PageUp | KeyCode::PageDown => true,
        KeyCode::Char('v') => key.ctrl != key.alt,
        _ => false,
    }
}

/// `area` is empty: one empty line, the cursor at its start, nothing selected.
pub open spec fn fresh(area: SearchBox) -> bool {
    &&& area_lines(area) == seq![Seq::<char>::empty()]
    &&& area_cursor(area) == (0nat, 0nat)
    &&& area_selection(area) is None
}

/// From `before` to `after`, `c` went in at the cursor, and the cursor moved behind it.
pub open spec fn char_typed(before: SearchBox, after: SearchBox, c: char) -> bool {
    let (row, col) = area_cursor(before);
    let line = area_lines(before)[row as int];
    &&& area_lines(after) == area_lines(before).update(row as int, line.insert(col as int, c))
    &&& area_cursor(after) == (row, col + 1)
    &&& area_selection(after) is None
}

/// From `before` to `after`, the character before the cursor went away, and the cursor moved back.
pub open spec fn char_erased(before: SearchBox, after: SearchBox) -> bool {
    let (row, col) = area_cursor(before);
    let line = area_lines(before)[row as int];
    &&& area_lines(after) == area_lines(before).update(row as int, line.remove(col - 1))
    &&& area_cursor(after) == (row, (col - 1) as nat)
    &&& area_selection(after) is None
}

/// What a key makes of the search box: the lines and the selection that are named for it, under
/// the same title, with the cursor on the lines, and where it is named for a key that does not
/// page. A key that only moves leaves the lines as they were. While nothing is selected, a typed
/// character goes in, and Backspace takes one away.
pub open spec fn key_taken(before: SearchBox, after: SearchBox, key: KeyPress) -> bool {
    let plain = cursor_on_text(before) && area_selection(before) is None;
    &&& area_title(after) == area_title(before)
    &&& area_lines(after) == lines_after_input(before, key)
    &&& cursor_on_text(after)
    &&& !pages(key) ==> area_cursor(after) == cursor_after_input(before, key)
    &&& area_selection(after) == selection_after_input(before, key)
    &&& only_moves(key) || pages(key) ==> area_lines(after) == area_lines(before)
    &&& plain && types_char(key) ==> char_typed(before, after, key.code->Char_0)
    &&& plain && plain_backspace(key) && area_cursor(before).1 > 0 ==> char_erased(before, after)
}

/// `TextArea::default` with `TextArea::set_block`: an empty text area, that is one empty line
/// with the cursor at its start and nothing selected, inside a cyan frame that bears `title`.
#[verifier::external_body]
pub(crate) fn new_text_area(title: &'static str) -> (r: SearchBox)
    ensures
        fresh(r),
        area_title(r) == title@,
{
    let mut area = TextArea::default();
    let style = Style::default().fg(Color::Cyan);
    area.set_block(Block::default().borders(Borders::ALL).title(title).style(style));
    SearchBox { area }
}

/// `TextArea::lines`: the lines of the text area, of which there is always at least one.
#[verifier::external_body]
pub(crate) fn text_of<'a>(area: &'a SearchBox) -> (r: &'a [String])
    ensures
        r@.len() > 0,
        r@.map_values(|line: String| line@) == area_lines(*area),
{
    area.area.lines()
}

/// `TextArea::input`: handles a key with the default key mappings of the text area.
///
/// The frame keeps its title. The lines, the cursor and the selection afterwards are named, not
/// described: they hang on the lines, the cursor and the selection before, the yanked text and
/// the undo history. Said of them is that there is at least one line, with the cursor on it; that
/// keys which only move or page leave the lines as they were; that a typed character goes in at
/// the cursor, which moves behind it; and that Backspace takes away the character before the
/// cursor, which moves back. The latter two hold while nothing is selected.
///
/// Where the cursor goes by paging is left unsaid, but that it is on the text: it hangs on where
/// and how high the text area was last drawn, and drawing sets that through a shared reference.
/// With overflow checks on, paging would fail in a box last drawn with 32768 rows inside; the
/// search box is drawn three rows high, frame and all.
#[verifier::external_body]
pub(crate) fn input_key(area: &mut SearchBox, key: KeyPress)
    ensures
        area_title(*final(area)) == area_title(*old(area)),
        area_lines(*final(area)) == lines_after_input(*old(area), key),
        only_moves(key) || pages(key) ==> area_lines(*final(area)) == area_lines(*old(area)),
        area_cursor(*final(area)).0 < area_lines(*final(area)).len(),
        area_cursor(*final(area)).1 <= area_lines(*final(area))[area_cursor(
            *final(area),
        ).0 as int].len(),
        !pages(key) ==> area_cursor(*final(area)) == cursor_after_input(*old(area), key),
        area_selection(*final(area)) == selection_after_input(*old(area), key),
        types_char(key) && cursor_on_text(*old(area)) && area_selection(*old(area)) is None
            ==> char_typed(*old(area), *final(area), key.code->Char_0),
        plain_backspace(key) && cursor_on_text(*old(area)) && area_selection(*old(area)) is None
            && area_cursor(*old(area)).1 > 0 ==> char_erased(*old(area), *final(area)),
{
    let code = match key.code {
        KeyCode::Char(c) => Key::Char(c),
        KeyCode::F(n) => Key::F(n),
        KeyCode::Backspace => Key::Backspace,
        KeyCode::Enter => Key::Enter,
        KeyCode::Left => Key::Left, KeyCode::Right => Key::Right,
        KeyCode::Up => Key::Up, KeyCode::Down => Key::Down,
        KeyCode::Tab => Key::Tab, KeyCode::Delete => Key::Delete,
        KeyCode::Home => Key::Home, KeyCode::End => Key::End,
        KeyCode::PageUp => Key::PageUp, KeyCode::PageDown => Key::PageDown,
        KeyCode::Esc => Key::Esc, KeyCode::Other => Key::Null,
    };
    area.area.input(Input { key: code, ctrl: key.ctrl, alt: key.alt, shift: key.shift });
}

} // verus!
