//! Keyboard input: which key does what in which panel.

use vstd::prelude::*;
use vstd::string::*;
use crate::app::App;
use crate::app::Panel;
use crate::text::insert_char;
use crate::text::remove_char;

verus! {

/// Modifier bit of the shift key.
pub const SHIFT: u8 = 1;

/// Modifier bit of the control key.
pub const CONTROL: u8 = 2;

/// The keys that the session tells apart.
#[derive(Debug, PartialEq, Eq, Clone, Copy, Structural)]
pub enum KeyCode {
    Char(char),
    Tab,
    BackTab,
    Backspace,
    Delete,
    Left,
    Right,
    Home,
    End,
    Enter,
    Up,
    Down,
    /// Any key that the session does not act on.
    Other,
}

/// One key press: the key and the modifier bits held with it.
#[derive(Debug, PartialEq, Eq, Clone, Copy, Structural)]
pub struct KeyEvent {
    pub code: KeyCode,
    pub modifiers: u8,
}

/// The quit keys: control with `c` or with `q`, and no other modifier.
pub open spec fn is_quit(key: KeyEvent) -> bool {
    key.modifiers == CONTROL && (key.code == KeyCode::Char('c') || key.code == KeyCode::Char('q'))
}

/// `after` is `before` with the query edited to `query`, the cursor at
/// `cursor`, and the new query applied.
pub open spec fn is_edit_of(after: &App, before: &App, query: Seq<char>, cursor: int) -> bool {
    &&& after.is_search_of(before)
    &&& after.active_panel == before.active_panel
    &&& after.search_query@ == query
    &&& after.cursor_position == cursor
}

/// What a key does to the session.
///
/// A quit key changes nothing. Tab moves the focus forward; shift-tab and
/// back-tab move it backward. In the query panel a character is inserted at
/// the cursor, backspace and delete remove the character before and at the
/// cursor, the arrows, home and end move the cursor inside the query, and
/// enter applies the query and moves the focus to the results. In the result
/// panel up and down move the selection. Every other key, and every key that
/// has nothing to act on, changes nothing.
pub open spec fn key_effect(before: &App, key: KeyEvent, after: &App) -> bool {
    let query = before.search_query@;
    let cursor = before.cursor_position as int;
    let typing = before.active_panel == Panel::Input;
    let browsing = before.active_panel == Panel::Output;
    if is_quit(key) {
        *after == *before
    } else {
        match key.code {
            KeyCode::Tab => if key.modifiers == SHIFT {
                *after == before.after_prev_panel()
            } else {
                *after == before.after_next_panel()
            },
            KeyCode::BackTab => *after == before.after_prev_panel(),
            KeyCode::Char(c) => if typing {
                is_edit_of(after, before, query.insert(cursor, c), cursor + 1)
            } else {
                *after == *before
            },
            KeyCode::Backspace => if typing && cursor > 0 {
                is_edit_of(after, before, query.remove(cursor - 1), cursor - 1)
            } else {
                *after == *before
            },
            KeyCode::Delete => if typing && cursor < query.len() {
                is_edit_of(after, before, query.remove(cursor), cursor)
            } else {
                *after == *before
            },
            KeyCode::Left => if typing && cursor > 0 {
                *after == (App { cursor_position: (cursor - 1) as usize, ..*before })
            } else {
                *after == *before
            },
            KeyCode::Right => if typing && cursor < query.len() {
                *after == (App { cursor_position: (cursor + 1) as usize, ..*before })
            } else {
                *after == *before
            },
            KeyCode::Home => if typing {
                *after == (App { cursor_position: 0, ..*before })
            } else {
                *after == *before
            },
            KeyCode::End => if typing {
                *after == (App { cursor_position: query.len() as usize, ..*before })
            } else {
                *after == *before
            },
            KeyCode::Enter => if typing {
                &&& after.is_search_of(before)
                &&& after.active_panel == Panel::Output
                &&& after.search_query == before.search_query
                &&& after.cursor_position == before.cursor_position
            } else {
                *after == *before
            },
            KeyCode::Down => if browsing {
                *after == before.after_next()
            } else {
                *after == *before
            },
            KeyCode::Up => if browsing {
                *after == before.after_prev()
            } else {
                *after == *before
            },
            KeyCode::Other => *after == *before,
        }
    }
}

/// Applies one key press to the session and tells whether the session is to
/// end.
pub fn handle_key_event(app: &mut App, key: KeyEvent) -> (quit: bool)
    requires
        old(app).cursor_position <= old(app).search_query@.len(),
    ensures
        quit == is_quit(key),
        key_effect(old(app), key, final(app)),
        final(app).cursor_position <= final(app).search_query@.len(),
        old(app).inv() ==> final(app).inv(),
{
    let typing: bool = app.active_panel == Panel::Input;
    let browsing: bool = app.active_panel == Panel::Output;
    match key.code {
        KeyCode::Char(c) => {
            if key.modifiers == CONTROL && (c == 'c' || c == 'q') {
                return true;
            }
            if typing {
                let edited: String = insert_char(app.search_query.as_str(), app.cursor_position, c);
                let length: usize = edited.as_str().unicode_len();
                app.search_query = edited;
                // The cursor goes behind the new character, which lies inside
                // the edited query.
                app.cursor_position = if app.cursor_position < length {
                    app.cursor_position + 1
                } else {
                    length
                };
                app.update_search();
            }
        },
        KeyCode::Tab => {
            if key.modifiers == SHIFT {
                app.prev_panel();
            } else {
                app.next_panel();
            }
        },
        KeyCode::BackTab => {
            app.prev_panel();
        },
        KeyCode::Backspace => {
            if typing && app.cursor_position > 0 {
                app.cursor_position = app.cursor_position - 1;
                app.search_query = remove_char(app.search_query.as_str(), app.cursor_position);
                app.update_search();
            }
        },
        KeyCode::Delete => {
            if typing {
                let len: usize = app.search_query.as_str().unicode_len();
                if app.cursor_position < len {
                    app.search_query = remove_char(app.search_query.as_str(), app.cursor_position);
                    app.update_search();
                }
            }
        },
        KeyCode::Left => {
            if typing && app.cursor_position > 0 {
                app.cursor_position = app.cursor_position - 1;
            }
        },
        KeyCode::Right => {
            if typing {
                let len: usize = app.search_query.as_str().unicode_len();
                if app.cursor_position < len {
                    app.cursor_position = app.cursor_position + 1;
                }
            }
        },
        KeyCode::Home => {
            if typing {
                app.cursor_position = 0;
            }
        },
        KeyCode::End => {
            if typing {
                app.cursor_position = app.search_query.as_str().unicode_len();
            }
        },
        KeyCode::Enter => {
            if typing {
                app.update_search();
                app.active_panel = Panel::Output;
            }
        },
        KeyCode::Down => {
            if browsing {
                app.select_next();
            }
        },
        KeyCode::Up => {
            if browsing {
                app.select_prev();
            }
        },
        KeyCode::Other => {},
    }
    false
}

} // verus!
