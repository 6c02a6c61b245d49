use std::collections::HashSet;

use breweri::query::Query;
use breweri::search::Shown;
use breweri::selection::{install_targets, remove_targets, toggle};
use breweri::slot::{commit_info, JobKind, TaskSlot};
use breweri::state::{handle_insert_key, handle_select_key, post_search_update, search_banner, Action, App, Key, Message, Mode};

fn select_key(app: &mut App, key: Key, ctrl: bool, shown: &Shown, catalog_len: usize) -> breweri::state::KeyOutcome {
    let installed: HashSet<usize> = HashSet::new();
    handle_select_key(app, key, ctrl, shown, catalog_len, 10, true, &installed)
}

#[test]
fn toggling_twice_restores_selection() {
    let mut selected: HashSet<usize> = HashSet::new();
    selected.insert(2);
    let before = selected.clone();
    assert!(toggle(&mut selected, 1));
    assert!(selected.contains(&1));
    assert!(!toggle(&mut selected, 1));
    assert_eq!(selected, before);
    assert!(!toggle(&mut selected, 2));
    assert!(toggle(&mut selected, 2));
    assert_eq!(selected, before);
}

#[test]
fn superseded_job_never_commits() {
    let mut slot = TaskSlot::new();
    let token_a = slot.submit(JobKind::CatalogSearch);
    assert!(slot.is_current(token_a));
    let token_b = slot.submit(JobKind::InfoFetch);
    assert!(!slot.is_current(token_a));
    assert!(slot.is_current(token_b));

    let mut cache: Vec<u8> = vec![9];
    let stored = commit_info(&slot, token_a, &mut cache, vec![1, 2]);
    assert!(!stored);
    assert_eq!(cache, vec![9]);
    let stored = commit_info(&slot, token_b, &mut cache, vec![1, 2]);
    assert!(stored);
    assert_eq!(cache, vec![1, 2]);
}

#[test]
fn install_and_remove_target_rules() {
    let mut selected: HashSet<usize> = HashSet::new();
    let mut installed: HashSet<usize> = HashSet::new();
    installed.insert(0);
    installed.insert(2);

    assert_eq!(install_targets(&selected, 1, 4), vec![1]);
    assert_eq!(remove_targets(&selected, &installed, 1, 4), Vec::<usize>::new());
    assert_eq!(remove_targets(&selected, &installed, 2, 4), vec![2]);

    selected.insert(3);
    selected.insert(0);
    assert_eq!(install_targets(&selected, 1, 4), vec![0, 3]);
    assert_eq!(remove_targets(&selected, &installed, 1, 4), vec![0]);
}

#[test]
fn typing_edits_the_query() {
    let mut app = App::new(Vec::new());
    handle_insert_key(&mut app, Key::Char(b'c'), false, 0);
    handle_insert_key(&mut app, Key::Char(b'u'), false, 0);
    assert_eq!(app.query.text, b"cu".to_vec());
    assert_eq!(app.query.cursor, 2);
    handle_insert_key(&mut app, Key::Backspace, false, 0);
    assert_eq!(app.query.text, b"c".to_vec());
    let out = handle_insert_key(&mut app, Key::Enter, false, 0);
    assert!(matches!(out.action, Action::Search));
    assert!(out.clear_info);
    assert_eq!(app.current, 0);
}

#[test]
fn query_cursor_wraps_and_jumps_words() {
    let mut q = Query::new(b"foo bar".to_vec());
    assert_eq!(q.cursor, 7);
    q.move_right();
    assert_eq!(q.cursor, 0);
    q.move_left();
    assert_eq!(q.cursor, 7);
    q.word_left();
    assert_eq!(q.cursor, 4);
    q.word_left();
    assert_eq!(q.cursor, 0);
    q.word_right();
    assert_eq!(q.cursor, 4);
    q.delete_word_back();
    assert_eq!(q.text, b"bar".to_vec());
    assert_eq!(q.cursor, 0);
}

#[test]
fn escape_enters_navigation_only_with_results() {
    let mut app = App::new(b"x".to_vec());
    let out = handle_insert_key(&mut app, Key::Esc, false, 0);
    assert_eq!(app.mode, Mode::Insert);
    assert!(!out.redraw);
    let out = handle_insert_key(&mut app, Key::Esc, false, 3);
    assert_eq!(app.mode, Mode::Select);
    assert_eq!(app.current, 0);
    assert!(out.redraw);
}

#[test]
fn navigation_moves_cursor_and_invalidates_info() {
    let mut app = App::new(Vec::new());
    app.mode = Mode::Select;
    let shown = Shown::Few(vec![0, 1, 2]);
    let out = select_key(&mut app, Key::Down, false, &shown, 3);
    assert_eq!(app.current, 1);
    assert!(out.clear_info && out.redraw);
    let out = select_key(&mut app, Key::Up, false, &shown, 3);
    assert_eq!(app.current, 0);
    assert!(out.clear_info);
    select_key(&mut app, Key::Up, false, &shown, 3);
    assert_eq!(app.current, 2);
    select_key(&mut app, Key::Down, false, &shown, 3);
    assert_eq!(app.current, 0);
}

#[test]
fn space_toggles_resolved_position() {
    let mut app = App::new(Vec::new());
    app.mode = Mode::Select;
    app.current = 1;
    let shown = Shown::Few(vec![4, 7]);
    let installed: HashSet<usize> = HashSet::new();
    handle_select_key(&mut app, Key::Char(b' '), false, &shown, 9, 10, true, &installed);
    assert!(app.selected.contains(&7));
    handle_select_key(&mut app, Key::Char(b' '), false, &shown, 9, 10, true, &installed);
    assert!(!app.selected.contains(&7));
}

#[test]
fn quit_install_and_remove_actions() {
    let mut app = App::new(Vec::new());
    app.mode = Mode::Select;
    let shown = Shown::Few(vec![0, 2]);
    let mut installed: HashSet<usize> = HashSet::new();
    installed.insert(2);

    let out = select_key(&mut app, Key::Char(b'q'), false, &shown, 3);
    assert!(matches!(out.action, Action::Quit));
    let out = select_key(&mut app, Key::Char(b'c'), true, &shown, 3);
    assert!(matches!(out.action, Action::Quit));

    let out = handle_select_key(&mut app, Key::Enter, false, &shown, 3, 10, true, &installed);
    assert!(matches!(out.action, Action::Install(v) if v == vec![0]));

    let out = handle_select_key(&mut app, Key::Char(b'R'), false, &shown, 3, 10, true, &installed);
    assert!(matches!(out.action, Action::Nothing));

    app.current = 1;
    let out = handle_select_key(&mut app, Key::Char(b'R'), false, &shown, 3, 10, true, &installed);
    assert!(matches!(out.action, Action::Remove(v) if v == vec![2]));
}

#[test]
fn leaving_navigation_puts_query_cursor_at_end() {
    let mut app = App::new(b"abc".to_vec());
    app.mode = Mode::Select;
    app.query.cursor = 0;
    let shown = Shown::All;
    let out = select_key(&mut app, Key::Char(b'/'), false, &shown, 3);
    assert_eq!(app.mode, Mode::Insert);
    assert_eq!(app.query.cursor, 3);
    assert!(out.redraw);
}

#[test]
fn page_keys_follow_pagination() {
    let mut app = App::new(Vec::new());
    app.mode = Mode::Select;
    app.current = 20;
    let positions: Vec<usize> = (0..23).collect();
    let shown = Shown::Few(positions);
    let out = select_key(&mut app, Key::Right, false, &shown, 23);
    assert_eq!(app.current, 0);
    assert!(out.clear_info);
    let out = select_key(&mut app, Key::Left, false, &shown, 23);
    assert_eq!(app.current, 20);
    assert!(out.redraw);
}

#[test]
fn search_completion_switches_mode_or_reports() {
    let mut mode = Mode::Insert;
    let mut status = Message::Searching;
    post_search_update(&Shown::Few(vec![1]), 3, &mut mode, &mut status);
    assert_eq!(mode, Mode::Select);
    assert_eq!(status, Message::Searching);

    let mut mode = Mode::Insert;
    let mut status = Message::Searching;
    post_search_update(&Shown::Few(Vec::new()), 3, &mut mode, &mut status);
    assert_eq!(mode, Mode::Insert);
    assert_eq!(status, Message::NoResults);

    assert_eq!(search_banner(&Vec::new()), Message::ListingPackages);
    assert_eq!(search_banner(&b"x".to_vec()), Message::Searching);
}

#[test]
fn control_arrows_jump_words_in_insert_mode() {
    let mut app = App::new(b"one two".to_vec());
    let out = handle_insert_key(&mut app, Key::Left, true, 0);
    assert!(out.redraw);
    assert_eq!(app.query.cursor, 4);
    handle_insert_key(&mut app, Key::Left, true, 0);
    assert_eq!(app.query.cursor, 0);
    handle_insert_key(&mut app, Key::Right, true, 0);
    assert_eq!(app.query.cursor, 4);
    handle_insert_key(&mut app, Key::End, false, 0);
    let out = handle_insert_key(&mut app, Key::Char(b'w'), true, 0);
    assert!(out.redraw);
    assert_eq!(app.query.text, b"one ".to_vec());
    assert_eq!(app.query.cursor, 4);
}

#[test]
fn toggling_on_empty_selection_set() {
    let mut selected: HashSet<usize> = HashSet::new();
    assert!(toggle(&mut selected, 0));
    assert!(selected.contains(&0));
    assert!(!toggle(&mut selected, 0));
    assert!(selected.is_empty());
}
