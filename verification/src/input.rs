//! Key dispatch: how one key event changes the list or ends the session.

use vstd::prelude::*;
use crate::list::SelectableList;
use crate::list::toggled;

verus! {

/// A key code, as the dispatch rules distinguish them. Every key the rules
/// do not care about is `Other`.
#[derive(Clone, Copy, Debug, PartialEq, Eq, Structural)]
pub enum KeyCode {
    Char(char),
    Enter,
    Esc,
    Up,
    Down,
    Tab,
    Other,
}

/// A key event: a key code together with whether Control was held.
#[derive(Clone, Copy, Debug, PartialEq, Eq, Structural)]
pub struct KeyEvent {
    pub code: KeyCode,
    pub ctrl: bool,
}

/// Keys that end the session: the interrupt combination (Ctrl+C), `q`,
/// and Escape.
pub open spec fn is_exit_key(key: KeyEvent) -> bool {
    ||| (key.ctrl && key.code == KeyCode::Char('c'))
    ||| key.code == KeyCode::Char('q')
    ||| key.code == KeyCode::Esc
}

/// Keys that toggle the item under the cursor: Enter and Space.
pub open spec fn is_toggle_key(key: KeyEvent) -> bool {
    key.code == KeyCode::Enter || key.code == KeyCode::Char(' ')
}

/// Keys that move the cursor one step back: Up.
pub open spec fn is_move_up_key(key: KeyEvent) -> bool {
    key.code == KeyCode::Up
}

/// Keys that move the cursor one step forward: Down and Tab.
pub open spec fn is_move_down_key(key: KeyEvent) -> bool {
    key.code == KeyCode::Down || key.code == KeyCode::Tab
}

/// Applies one key event to the list and reports whether the session is to
/// end. Exit keys leave the list untouched; Enter and Space toggle the item
/// under the cursor; Up, Down and Tab move the cursor with wraparound; any
/// other key changes nothing.
pub fn handle_key(list: &mut SelectableList, key: KeyEvent) -> (exit: bool)
    requires
        old(list).wf(),
    ensures
        final(list).wf(),
        exit == is_exit_key(key),
        final(list).spec_len() == old(list).spec_len(),
        final(list).labels() == old(list).labels(),
        is_exit_key(key) ==> *final(list) == *old(list),
        is_toggle_key(key) ==> {
            &&& final(list).cursor() == old(list).cursor()
            &&& final(list).selections() == toggled(old(list).selections(), old(list).cursor())
        },
        is_move_up_key(key) ==> {
            &&& final(list).selections() == old(list).selections()
            &&& final(list).cursor() == (old(list).cursor() - 1) % (old(list).spec_len() as int)
        },
        is_move_down_key(key) ==> {
            &&& final(list).selections() == old(list).selections()
            &&& final(list).cursor() == (old(list).cursor() + 1) % (old(list).spec_len() as int)
        },
        !is_exit_key(key) && !is_toggle_key(key) && !is_move_up_key(key)
            && !is_move_down_key(key) ==> *final(list) == *old(list),
{
    if key.ctrl {
        if let KeyCode::Char(ch) = key.code {
            if ch == 'c' {
                return true;
            }
        }
    }
    match key.code {
        KeyCode::Char(ch) => {
            if ch == 'q' {
                true
            } else if ch == ' ' {
                list.toggle_selected();
                false
            } else {
                false
            }
        },
        KeyCode::Esc => true,
        KeyCode::Enter => {
            list.toggle_selected();
            false
        },
        KeyCode::Up => {
            list.move_selection(-1);
            false
        },
        KeyCode::Down => {
            list.move_selection(1);
            false
        },
        KeyCode::Tab => {
            list.move_selection(1);
            false
        },
        KeyCode::Other => false,
    }
}

} // verus!
