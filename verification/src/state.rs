//! The two-mode input state machine: how one key press moves the
//! application state and which outside action, if any, the caller must
//! perform afterwards. Text-entry mode edits the query; navigation mode
//! moves the cursor, toggles selections, and dispatches the terminal
//! install, remove and quit actions.

use vstd::prelude::*;

use std::collections::HashSet;

use crate::query::Query;
use crate::search::Shown;
use crate::selection::spec_install_targets;
use crate::selection::spec_remove_targets;
use crate::selection::spec_toggle;
use crate::selection::install_targets;
use crate::selection::remove_targets;
use crate::selection::toggle;
use crate::view::next_page;
use crate::view::prev_page;
use crate::view::resolve;
use crate::view::spec_next_page;
use crate::view::spec_prev_page;
use crate::view::spec_resolve;
use crate::view::spec_step_down;
use crate::view::spec_step_up;
use crate::view::spec_view_len;
use crate::view::step_down;
use crate::view::step_up;
use crate::view::view_length;
use crate::words::first_boundary_past;
use crate::words::spec_last_word_end;

verus! {

broadcast use vstd::std_specs::hash::group_hash_axioms;

/// The two input modes: typing the query, or navigating the results.
#[derive(Clone, Copy, Debug, PartialEq, Eq, Structural)]
pub enum Mode {
    Insert,
    Select,
}

/// The banner shown in place of results while the view is empty.
#[derive(Clone, Copy, Debug, PartialEq, Eq, Structural)]
pub enum Message {
    TrySearch,
    ListingPackages,
    Searching,
    NoResults,
}

/// A key press as the state machine sees it; the control modifier travels
/// beside it.
#[derive(Clone, Copy, Debug, PartialEq, Eq, Structural)]
pub enum Key {
    Char(u8),
    Up,
    Down,
    Left,
    Right,
    Home,
    End,
    PageUp,
    PageDown,
    Enter,
    Backspace,
    Esc,
    Other,
}

/// What the caller must do after a key was handled.
pub enum Action {
    /// Nothing beyond what the state already reflects.
    Nothing,
    /// Clear the view and submit a catalog-load-then-search job for the
    /// committed query.
    Search,
    /// Leave the interface and install these catalog positions.
    Install(Vec<usize>),
    /// Leave the interface and remove these catalog positions.
    Remove(Vec<usize>),
    /// Leave the interface without any action.
    Quit,
}

/// What one key press asks of the caller: an action, whether the info cache
/// is invalidated, and whether the screen must be redrawn.
pub struct KeyOutcome {
    pub action: Action,
    pub clear_info: bool,
    pub redraw: bool,
}

/// The state the input machine owns. The catalog, the current view, the
/// installed set and the info cache live with the caller, which shares them
/// with background jobs.
pub struct App {
    pub mode: Mode,
    pub query: Query,
    pub current: usize,
    pub selected: HashSet<usize>,
    pub info_scroll: usize,
}

/// Two queries hold the same text and cursor.
pub open spec fn same_query(x: Query, y: Query) -> bool {
    x.text@ == y.text@ && x.cursor == y.cursor
}

/// Nothing in the state changed.
pub open spec fn untouched(a: App, b: App) -> bool {
    &&& b.mode == a.mode
    &&& same_query(a.query, b.query)
    &&& b.current == a.current
    &&& b.selected@ == a.selected@
    &&& b.info_scroll == a.info_scroll
}

impl App {
    pub open spec fn wf(&self) -> bool {
        self.query.wf()
    }

    /// The starting state: text-entry mode, the cursor on the first row,
    /// nothing selected, the query cursor at the end of the initial text.
    pub fn new(initial_query: Vec<u8>) -> (app: App)
        ensures
            app.wf(),
            app.mode == Mode::Insert,
            app.query.text@ == initial_query@,
            app.query.cursor == initial_query@.len(),
            app.current == 0,
            app.selected@ == Set::<usize>::empty(),
            app.info_scroll == 0,
    {
        App {
            mode: Mode::Insert,
            query: Query::new(initial_query),
            current: 0,
            selected: HashSet::new(),
            info_scroll: 0,
        }
    }
}

/// Handle a key in text-entry mode.
pub fn handle_insert_key(app: &mut App, key: Key, ctrl: bool, view_len: usize) -> (r: KeyOutcome)
    requires
        old(app).wf(),
    ensures
        final(app).wf(),
        ({
            let a = *old(app);
            let b = *final(app);
            let t = a.query.text@;
            let c = a.query.cursor as int;
            &&& b.selected@ == a.selected@
            &&& b.info_scroll == a.info_scroll
            &&& match key {
                Key::Esc => {
                    &&& r.action is Nothing
                    &&& !r.clear_info
                    &&& if view_len > 0 {
                        &&& b.mode == Mode::Select
                        &&& b.current == 0
                        &&& same_query(a.query, b.query)
                        &&& r.redraw
                    } else {
                        &&& untouched(a, b)
                        &&& !r.redraw
                    }
                },
                Key::Left => {
                    &&& r.action is Nothing
                    &&& !r.clear_info
                    &&& r.redraw
                    &&& b.mode == a.mode
                    &&& b.current == a.current
                    &&& b.query.text@ == t
                    &&& b.query.cursor == if ctrl {
                        spec_last_word_end(t, c)
                    } else if c > 0 {
                        c - 1
                    } else {
                        t.len() as int
                    }
                },
                Key::Right => {
                    &&& r.action is Nothing
                    &&& !r.clear_info
                    &&& r.redraw
                    &&& b.mode == a.mode
                    &&& b.current == a.current
                    &&& b.query.text@ == t
                    &&& b.query.cursor == if ctrl {
                        first_boundary_past(t, c)
                    } else if c < t.len() {
                        c + 1
                    } else {
                        0int
                    }
                },
                Key::Up | Key::Home => {
                    &&& r.action is Nothing
                    &&& !r.clear_info
                    &&& r.redraw
                    &&& b.mode == a.mode
                    &&& b.current == a.current
                    &&& b.query.text@ == t
                    &&& b.query.cursor == 0
                },
                Key::Down | Key::End => {
                    &&& r.action is Nothing
                    &&& !r.clear_info
                    &&& r.redraw
                    &&& b.mode == a.mode
                    &&& b.current == a.current
                    &&& b.query.text@ == t
                    &&& b.query.cursor == t.len()
                },
                Key::Backspace => {
                    &&& r.action is Nothing
                    &&& !r.clear_info
                    &&& r.redraw == (c != 0)
                    &&& b.mode == a.mode
                    &&& b.current == a.current
                    &&& if c != 0 {
                        b.query.text@ == t.remove(c - 1) && b.query.cursor == c - 1
                    } else {
                        same_query(a.query, b.query)
                    }
                },
                Key::Char(ch) => {
                    if ctrl && ch == 99 {
                        &&& r.action is Quit
                        &&& untouched(a, b)
                    } else if ctrl && ch == 119 {
                        &&& r.action is Nothing
                        &&& !r.clear_info
                        &&& r.redraw
                        &&& b.mode == a.mode
                        &&& b.current == a.current
                        &&& ({
                            let bnd = spec_last_word_end(t, c);
                            b.query.cursor == bnd && b.query.text@ == t.subrange(0, bnd)
                                + t.subrange(c, t.len() as int)
                        })
                    } else {
                        &&& r.action is Nothing
                        &&& !r.clear_info
                        &&& b.mode == a.mode
                        &&& b.current == a.current
                        &&& if t.len() < usize::MAX {
                            &&& r.redraw
                            &&& b.query.text@ == t.insert(c, ch)
                            &&& b.query.cursor == c + 1
                        } else {
                            &&& same_query(a.query, b.query)
                            &&& !r.redraw
                        }
                    }
                },
                Key::Enter => {
                    &&& r.action is Search
                    &&& r.clear_info
                    &&& r.redraw
                    &&& b.mode == a.mode
                    &&& b.current == 0
                    &&& same_query(a.query, b.query)
                },
                _ => {
                    &&& r.action is Nothing
                    &&& !r.clear_info
                    &&& r.redraw
                    &&& untouched(a, b)
                },
            }
        }),
{
    match key {
        Key::Esc => {
            if view_len > 0 {
                app.current = 0;
                app.mode = Mode::Select;
                KeyOutcome { action: Action::Nothing, clear_info: false, redraw: true }
            } else {
                KeyOutcome { action: Action::Nothing, clear_info: false, redraw: false }
            }
        },
        Key::Left => {
            if ctrl {
                app.query.word_left();
            } else {
                app.query.move_left();
            }
            KeyOutcome { action: Action::Nothing, clear_info: false, redraw: true }
        },
        Key::Right => {
            if ctrl {
                app.query.word_right();
            } else {
                app.query.move_right();
            }
            KeyOutcome { action: Action::Nothing, clear_info: false, redraw: true }
        },
        Key::Up | Key::Home => {
            app.query.home();
            KeyOutcome { action: Action::Nothing, clear_info: false, redraw: true }
        },
        Key::Down | Key::End => {
            app.query.end();
            KeyOutcome { action: Action::Nothing, clear_info: false, redraw: true }
        },
        Key::Backspace => {
            let changed = app.query.backspace();
            KeyOutcome { action: Action::Nothing, clear_info: false, redraw: changed }
        },
        Key::Char(ch) => {
            if ctrl && ch == 99 {
                KeyOutcome { action: Action::Quit, clear_info: false, redraw: false }
            } else if ctrl && ch == 119 {
                app.query.delete_word_back();
                KeyOutcome { action: Action::Nothing, clear_info: false, redraw: true }
            } else {
                if app.query.text.len() < usize::MAX {
                    app.query.insert_char(ch);
                    KeyOutcome { action: Action::Nothing, clear_info: false, redraw: true }
                } else {
                    KeyOutcome { action: Action::Nothing, clear_info: false, redraw: false }
                }
            }
        },
        Key::Enter => {
            app.current = 0;
            KeyOutcome { action: Action::Search, clear_info: true, redraw: true }
        },
        _ => KeyOutcome { action: Action::Nothing, clear_info: false, redraw: true },
    }
}

/// Handle a key in navigation mode.
pub fn handle_select_key(
    app: &mut App,
    key: Key,
    ctrl: bool,
    shown: &Shown,
    catalog_len: usize,
    per_page: usize,
    info_empty: bool,
    installed: &HashSet<usize>,
) -> (r: KeyOutcome)
    requires
        old(app).wf(),
        per_page >= 1,
        spec_view_len(shown@, catalog_len as int) > 0 ==> (old(app).current as int) < spec_view_len(
            shown@,
            catalog_len as int,
        ),
    ensures
        final(app).wf(),
        ({
            let a = *old(app);
            let b = *final(app);
            let vl = spec_view_len(shown@, catalog_len as int);
            let real_pos = spec_resolve(shown@, a.current as int) as usize;
            &&& vl > 0 ==> (b.current as int) < vl
            &&& match key {
                Key::Up | Key::Char(107u8) => {
                    if ctrl {
                        &&& r.action is Nothing
                        &&& !r.clear_info
                        &&& b.mode == a.mode
                        &&& same_query(a.query, b.query)
                        &&& b.current == a.current
                        &&& b.selected@ == a.selected@
                        &&& if a.info_scroll > 0 {
                            b.info_scroll == a.info_scroll - 1 && r.redraw
                        } else {
                            b.info_scroll == a.info_scroll && !r.redraw
                        }
                    } else {
                        &&& r.action is Nothing
                        &&& r.clear_info
                        &&& r.redraw
                        &&& b.mode == a.mode
                        &&& same_query(a.query, b.query)
                        &&& b.selected@ == a.selected@
                        &&& b.info_scroll == a.info_scroll
                        &&& b.current == spec_step_up(a.current as int, vl)
                    }
                },
                Key::Down | Key::Char(106u8) => {
                    if ctrl {
                        &&& r.action is Nothing
                        &&& !r.clear_info
                        &&& b.mode == a.mode
                        &&& same_query(a.query, b.query)
                        &&& b.current == a.current
                        &&& b.selected@ == a.selected@
                        &&& if !info_empty && a.info_scroll < usize::MAX {
                            b.info_scroll == a.info_scroll + 1 && r.redraw
                        } else {
                            b.info_scroll == a.info_scroll && !r.redraw
                        }
                    } else {
                        &&& r.action is Nothing
                        &&& r.clear_info
                        &&& r.redraw
                        &&& b.mode == a.mode
                        &&& same_query(a.query, b.query)
                        &&& b.selected@ == a.selected@
                        &&& b.info_scroll == a.info_scroll
                        &&& b.current == spec_step_down(a.current as int, vl)
                    }
                },
                Key::Esc | Key::Char(105u8) | Key::Char(47u8) => {
                    &&& r.action is Nothing
                    &&& !r.clear_info
                    &&& r.redraw
                    &&& b.mode == Mode::Insert
                    &&& b.query.text@ == a.query.text@
                    &&& b.query.cursor == a.query.text@.len()
                    &&& b.current == a.current
                    &&& b.selected@ == a.selected@
                    &&& b.info_scroll == a.info_scroll
                },
                Key::Left | Key::PageUp | Key::Char(104u8) => {
                    &&& r.action is Nothing
                    &&& r.clear_info == (vl > per_page)
                    &&& r.redraw == (vl > per_page)
                    &&& b.mode == a.mode
                    &&& same_query(a.query, b.query)
                    &&& b.selected@ == a.selected@
                    &&& b.info_scroll == a.info_scroll
                    &&& b.current == spec_prev_page(a.current as int, vl, per_page as int)
                },
                Key::Right | Key::PageDown | Key::Char(108u8) => {
                    &&& r.action is Nothing
                    &&& r.clear_info == (vl > per_page)
                    &&& r.redraw == (vl > per_page)
                    &&& b.mode == a.mode
                    &&& same_query(a.query, b.query)
                    &&& b.selected@ == a.selected@
                    &&& b.info_scroll == a.info_scroll
                    &&& b.current == spec_next_page(a.current as int, vl, per_page as int)
                },
                Key::Home | Key::Char(103u8) => {
                    &&& r.action is Nothing
                    &&& r.redraw
                    &&& r.clear_info == (a.current != 0)
                    &&& b.mode == a.mode
                    &&& same_query(a.query, b.query)
                    &&& b.selected@ == a.selected@
                    &&& b.info_scroll == a.info_scroll
                    &&& b.current == 0
                },
                Key::End | Key::Char(71u8) => {
                    &&& r.action is Nothing
                    &&& r.redraw
                    &&& b.mode == a.mode
                    &&& same_query(a.query, b.query)
                    &&& b.selected@ == a.selected@
                    &&& b.info_scroll == a.info_scroll
                    &&& if vl > 0 {
                        b.current == vl - 1 && r.clear_info == (a.current as int != vl - 1)
                    } else {
                        b.current == a.current && !r.clear_info
                    }
                },
                Key::Char(32u8) => {
                    &&& r.action is Nothing
                    &&& !r.clear_info
                    &&& r.redraw
                    &&& b.mode == a.mode
                    &&& same_query(a.query, b.query)
                    &&& b.current == a.current
                    &&& b.info_scroll == a.info_scroll
                    &&& b.selected@ == spec_toggle(a.selected@, real_pos)
                },
                Key::Char(113u8) => {
                    &&& r.action is Quit
                    &&& untouched(a, b)
                },
                Key::Char(99u8) => {
                    if ctrl {
                        &&& r.action is Quit
                        &&& untouched(a, b)
                    } else {
                        &&& r.action is Nothing
                        &&& !r.clear_info
                        &&& r.redraw
                        &&& untouched(a, b)
                    }
                },
                Key::Char(82u8) => {
                    &&& untouched(a, b)
                    &&& !r.clear_info
                    &&& !r.redraw
                    &&& ({
                        let targets = spec_remove_targets(
                            a.selected@,
                            installed@,
                            real_pos,
                            catalog_len as int,
                        );
                        if targets.len() == 0 {
                            r.action is Nothing
                        } else {
                            r.action matches Action::Remove(v) && v@ == targets
                        }
                    })
                },
                Key::Enter => {
                    &&& untouched(a, b)
                    &&& !r.clear_info
                    &&& !r.redraw
                    &&& r.action matches Action::Install(v) && v@ == spec_install_targets(
                        a.selected@,
                        real_pos,
                        catalog_len as int,
                    )
                },
                _ => {
                    &&& r.action is Nothing
                    &&& !r.clear_info
                    &&& r.redraw
                    &&& untouched(a, b)
                },
            }
        }),
{
    let view_len = view_length(shown, catalog_len);
    match key {
        Key::Up | Key::Char(107u8) => {
            if ctrl {
                if app.info_scroll > 0 {
                    app.info_scroll = app.info_scroll - 1;
                    KeyOutcome { action: Action::Nothing, clear_info: false, redraw: true }
                } else {
                    KeyOutcome { action: Action::Nothing, clear_info: false, redraw: false }
                }
            } else {
                app.current = step_up(app.current, view_len);
                KeyOutcome { action: Action::Nothing, clear_info: true, redraw: true }
            }
        },
        Key::Down | Key::Char(106u8) => {
            if ctrl {
                if !info_empty && app.info_scroll < usize::MAX {
                    app.info_scroll = app.info_scroll + 1;
                    KeyOutcome { action: Action::Nothing, clear_info: false, redraw: true }
                } else {
                    KeyOutcome { action: Action::Nothing, clear_info: false, redraw: false }
                }
            } else {
                app.current = step_down(app.current, view_len);
                KeyOutcome { action: Action::Nothing, clear_info: true, redraw: true }
            }
        },
        Key::Esc | Key::Char(105u8) | Key::Char(47u8) => {
            app.query.end();
            app.mode = Mode::Insert;
            KeyOutcome { action: Action::Nothing, clear_info: false, redraw: true }
        },
        Key::Left | Key::PageUp | Key::Char(104u8) => {
            let acts = view_len > per_page;
            app.current = prev_page(app.current, view_len, per_page);
            KeyOutcome { action: Action::Nothing, clear_info: acts, redraw: acts }
        },
        Key::Right | Key::PageDown | Key::Char(108u8) => {
            let acts = view_len > per_page;
            app.current = next_page(app.current, view_len, per_page);
            KeyOutcome { action: Action::Nothing, clear_info: acts, redraw: acts }
        },
        Key::Home | Key::Char(103u8) => {
            let moved = app.current != 0;
            app.current = 0;
            KeyOutcome { action: Action::Nothing, clear_info: moved, redraw: true }
        },
        Key::End | Key::Char(71u8) => {
            if view_len > 0 {
                let moved = app.current != view_len - 1;
                app.current = view_len - 1;
                KeyOutcome { action: Action::Nothing, clear_info: moved, redraw: true }
            } else {
                KeyOutcome { action: Action::Nothing, clear_info: false, redraw: true }
            }
        },
        Key::Char(32u8) => {
            let real_pos = resolve(shown, app.current);
            toggle(&mut app.selected, real_pos);
            KeyOutcome { action: Action::Nothing, clear_info: false, redraw: true }
        },
        Key::Char(113u8) => KeyOutcome { action: Action::Quit, clear_info: false, redraw: false },
        Key::Char(99u8) => {
            if ctrl {
                KeyOutcome { action: Action::Quit, clear_info: false, redraw: false }
            } else {
                KeyOutcome { action: Action::Nothing, clear_info: false, redraw: true }
            }
        },
        Key::Char(82u8) => {
            let real_pos = resolve(shown, app.current);
            let targets = remove_targets(&app.selected, installed, real_pos, catalog_len);
            if targets.len() == 0 {
                KeyOutcome { action: Action::Nothing, clear_info: false, redraw: false }
            } else {
                KeyOutcome { action: Action::Remove(targets), clear_info: false, redraw: false }
            }
        },
        Key::Enter => {
            let real_pos = resolve(shown, app.current);
            let targets = install_targets(&app.selected, real_pos, catalog_len);
            KeyOutcome { action: Action::Install(targets), clear_info: false, redraw: false }
        },
        _ => KeyOutcome { action: Action::Nothing, clear_info: false, redraw: true },
    }
}

/// What a finished search job does to the shared state: a non-empty view
/// switches the interface to navigation mode; an empty one shows the
/// no-results banner.
pub fn post_search_update(shown: &Shown, catalog_len: usize, mode: &mut Mode, status: &mut Message)
    ensures
        spec_view_len(shown@, catalog_len as int) != 0 ==> {
            &&& *final(mode) == Mode::Select
            &&& *final(status) == *old(status)
        },
        spec_view_len(shown@, catalog_len as int) == 0 ==> {
            &&& *final(status) == Message::NoResults
            &&& *final(mode) == *old(mode)
        },
{
    if view_length(shown, catalog_len) != 0 {
        *mode = Mode::Select;
    } else {
        *status = Message::NoResults;
    }
}

/// The banner a starting catalog-load-then-search job shows: listing when
/// the query is empty, searching otherwise.
pub fn search_banner(query: &Vec<u8>) -> (m: Message)
    ensures
        m == if query@.len() == 0 {
            Message::ListingPackages
        } else {
            Message::Searching
        },
{
    if query.len() == 0 {
        Message::ListingPackages
    } else {
        Message::Searching
    }
}

} // verus!
