use std::collections::HashSet;

use breweri::catalog::{build_catalog, cs_get, cs_len};
use breweri::config::Config;
use breweri::format::{digit_count, format_results, pad_to_for, RowStyle};
use breweri::info::{format_info, plan_info_fetch, InfoLine};
use breweri::search::{contains_subslice, search, Shown};
use breweri::view::{next_page, page_of, page_size, prev_page, resolve, step_down, step_up, view_length};
use breweri::words::{is_word_boundary, last_word_end, next_word_start};

fn catalog_from(names: &[&str]) -> compact_strings::CompactStrings {
    let mut bytes: Vec<u8> = Vec::new();
    for n in names {
        bytes.extend_from_slice(n.as_bytes());
        bytes.push(b'\n');
    }
    build_catalog(&bytes)
}

fn few(shown: &Shown) -> Vec<usize> {
    match shown {
        Shown::Few(v) => v.clone(),
        Shown::All => panic!("expected a filtered view"),
    }
}

#[test]
fn builds_catalog_in_order() {
    let cs = catalog_from(&["wget", "curl", "jq"]);
    assert_eq!(cs_len(&cs), 3);
    assert_eq!(cs_get(&cs, 0), Some(b"wget".to_vec()));
    assert_eq!(cs_get(&cs, 1), Some(b"curl".to_vec()));
    assert_eq!(cs_get(&cs, 2), Some(b"jq".to_vec()));
    assert_eq!(cs_get(&cs, 3), None);
}

#[test]
fn catalog_drops_invalid_and_unterminated_lines() {
    let mut bytes = b"good\n".to_vec();
    bytes.extend_from_slice(&[0xff, 0xfe, b'\n']);
    bytes.extend_from_slice(b"also\npartial");
    let cs = build_catalog(&bytes);
    assert_eq!(cs_len(&cs), 2);
    assert_eq!(cs_get(&cs, 0), Some(b"good".to_vec()));
    assert_eq!(cs_get(&cs, 1), Some(b"also".to_vec()));
}

#[test]
fn scenario_query_c_filters_to_curl() {
    let cs = catalog_from(&["wget", "curl", "jq"]);
    let shown = search(&b"c".to_vec(), &cs);
    assert_eq!(few(&shown), vec![1]);
    let unfiltered = search(&Vec::new(), &cs);
    assert!(matches!(unfiltered, Shown::All));
    assert_eq!(resolve(&unfiltered, 0), 0);
    assert_eq!(cs_get(&cs, resolve(&unfiltered, 0)), Some(b"wget".to_vec()));
}

#[test]
fn search_is_unfiltered_iff_query_empty() {
    let cs = catalog_from(&["alpha", "beta", "gamma"]);
    assert!(matches!(search(&Vec::new(), &cs), Shown::All));
    assert!(matches!(search(&b"a".to_vec(), &cs), Shown::Few(_)));
    assert!(matches!(search(&b"zzz".to_vec(), &cs), Shown::Few(v) if v.is_empty()));
}

#[test]
fn search_positions_match_and_ascend() {
    let cs = catalog_from(&["car", "dog", "cart", "scar"]);
    let positions = few(&search(&b"car".to_vec(), &cs));
    assert_eq!(positions, vec![0, 2, 3]);
    for w in positions.windows(2) {
        assert!(w[0] < w[1]);
    }
    for p in positions {
        let name = cs_get(&cs, p).unwrap();
        assert!(contains_subslice(&name, &b"car".to_vec()));
    }
}

#[test]
fn search_twice_gives_identical_results() {
    let cs = catalog_from(&["car", "dog", "cart", "scar"]);
    let first = few(&search(&b"ar".to_vec(), &cs));
    let second = few(&search(&b"ar".to_vec(), &cs));
    assert_eq!(first, second);
}

#[test]
fn query_matching_everything_resolves_like_unfiltered() {
    let cs = catalog_from(&["bash", "brew", "blob"]);
    let filtered = search(&b"b".to_vec(), &cs);
    assert_eq!(few(&filtered), vec![0, 1, 2]);
    let unfiltered = search(&Vec::new(), &cs);
    assert_eq!(
        view_length(&filtered, cs_len(&cs)),
        view_length(&unfiltered, cs_len(&cs))
    );
    for c in 0..5 {
        assert_eq!(resolve(&filtered, c), resolve(&unfiltered, c));
    }
}

#[test]
fn resolve_falls_back_to_raw_cursor() {
    let shown = Shown::Few(vec![5]);
    assert_eq!(resolve(&shown, 0), 5);
    assert_eq!(resolve(&shown, 3), 3);
}

#[test]
fn substring_containment_edges() {
    assert!(contains_subslice(&b"anything".to_vec(), &Vec::new()));
    assert!(contains_subslice(&b"abc".to_vec(), &b"abc".to_vec()));
    assert!(!contains_subslice(&b"ab".to_vec(), &b"abc".to_vec()));
    assert!(!contains_subslice(&b"aBc".to_vec(), &b"b".to_vec()));
}

#[test]
fn scenario_pages_of_23_rows() {
    assert_eq!(page_of(0, 10), 0);
    assert_eq!(page_of(10, 10), 1);
    assert_eq!(page_of(20, 10), 2);
    assert_eq!(next_page(0, 23, 10), 10);
    assert_eq!(next_page(10, 23, 10), 20);
    assert_eq!(next_page(20, 23, 10), 0);
}

#[test]
fn next_page_cycle_returns_to_starting_page() {
    let mut cursor = 15;
    let start_page = page_of(cursor, 10);
    for _ in 0..3 {
        cursor = next_page(cursor, 23, 10);
    }
    assert_eq!(page_of(cursor, 10), start_page);
}

#[test]
fn prev_page_from_first_page_lands_on_last() {
    assert_eq!(prev_page(5, 23, 10), 20);
    assert_eq!(prev_page(0, 23, 10), 20);
    assert_eq!(prev_page(20, 23, 10), 10);
}

#[test]
fn page_jumps_are_noops_when_one_page_fits_all() {
    assert_eq!(next_page(3, 8, 10), 3);
    assert_eq!(prev_page(3, 8, 10), 3);
}

#[test]
fn cursor_wraps_at_both_ends() {
    assert_eq!(step_down(22, 23), 0);
    assert_eq!(step_up(0, 23), 22);
    assert_eq!(step_down(4, 23), 5);
    assert_eq!(step_up(5, 23), 4);
    assert_eq!(step_down(0, 0), 0);
    assert_eq!(step_up(0, 0), 0);
    assert_eq!(step_down(0, 1), 0);
    assert_eq!(step_up(0, 1), 0);
}

#[test]
fn page_size_reserves_five_rows() {
    assert_eq!(page_size(15), 10);
    assert_eq!(page_size(6), 1);
}

#[test]
fn debounce_only_for_not_installed_items() {
    let mut installed: HashSet<usize> = HashSet::new();
    installed.insert(1);
    assert_eq!(plan_info_fetch(1, 3, &installed), Some(0));
    assert_eq!(plan_info_fetch(0, 3, &installed), Some(200));
    assert_eq!(plan_info_fetch(5, 3, &installed), None);
}

#[test]
fn info_lines_are_split_passed_or_dropped() {
    let text = b"Name: curl\n  a continuation\nno key value here\nHomepage: x\n".to_vec();
    let lines = format_info(&text);
    assert_eq!(lines.len(), 3);
    match &lines[0] {
        InfoLine::KeyValue(k, v) => {
            assert_eq!(k, &b"Name:".to_vec());
            assert_eq!(v, &b" curl".to_vec());
        }
        _ => panic!("expected a key/value line"),
    }
    match &lines[1] {
        InfoLine::Plain(l) => assert_eq!(l, &b"  a continuation".to_vec()),
        _ => panic!("expected a pass-through line"),
    }
    match &lines[2] {
        InfoLine::KeyValue(k, v) => {
            assert_eq!(k, &b"Homepage:".to_vec());
            assert_eq!(v, &b" x".to_vec());
        }
        _ => panic!("expected a key/value line"),
    }
}

#[test]
fn info_lines_strip_carriage_returns_and_keep_tail() {
    let text = b"From: y\r\ntail: z".to_vec();
    let lines = format_info(&text);
    assert_eq!(lines.len(), 2);
    match &lines[0] {
        InfoLine::KeyValue(k, v) => {
            assert_eq!(k, &b"From:".to_vec());
            assert_eq!(v, &b" y".to_vec());
        }
        _ => panic!("expected a key/value line"),
    }
    match &lines[1] {
        InfoLine::KeyValue(k, v) => {
            assert_eq!(k, &b"tail:".to_vec());
            assert_eq!(v, &b" z".to_vec());
        }
        _ => panic!("expected a key/value line"),
    }
}

#[test]
fn digit_counts() {
    assert_eq!(digit_count(0), 0);
    assert_eq!(digit_count(7), 1);
    assert_eq!(digit_count(10), 2);
    assert_eq!(digit_count(99), 2);
    assert_eq!(digit_count(100), 3);
    assert_eq!(pad_to_for(23), 2);
}

#[test]
fn formats_one_page_of_rows() {
    let cs = catalog_from(&["wget", "curl", "jq"]);
    let shown = Shown::Few(vec![1, 2]);
    let mut installed: HashSet<usize> = HashSet::new();
    installed.insert(1);
    let mut selected: HashSet<usize> = HashSet::new();
    selected.insert(2);
    let rows = format_results(&cs, &shown, 0, &selected, 10, 2, 0, &installed);
    assert_eq!(rows.len(), 2);
    assert_eq!(rows[0].index, 1);
    assert_eq!(rows[0].name, b"curl".to_vec());
    assert_eq!(rows[0].style, RowStyle::InstalledUnderCursor);
    assert!(!rows[0].marked);
    assert_eq!(rows[1].index, 2);
    assert_eq!(rows[1].name, b"jq".to_vec());
    assert_eq!(rows[1].style, RowStyle::Uninstalled);
    assert!(rows[1].marked);
}

#[test]
fn formats_unfiltered_rows_with_skip_and_height() {
    let cs = catalog_from(&["a", "b", "c", "d", "e"]);
    let shown = Shown::All;
    let installed: HashSet<usize> = HashSet::new();
    let selected: HashSet<usize> = HashSet::new();
    let rows = format_results(&cs, &shown, 3, &selected, 7, 1, 2, &installed);
    assert_eq!(rows.len(), 2);
    assert_eq!(rows[0].index, 3);
    assert_eq!(rows[0].name, b"c".to_vec());
    assert_eq!(rows[1].index, 4);
    assert_eq!(rows[1].style, RowStyle::UninstalledUnderCursor);
}

#[test]
fn word_boundaries() {
    assert!(is_word_boundary(&b' '));
    assert!(is_word_boundary(&b'-'));
    assert!(is_word_boundary(&b'_'));
    assert!(!is_word_boundary(&b'a'));
    assert_eq!(last_word_end(b"foo bar", 7), 4);
    assert_eq!(last_word_end(b"foo bar", 4), 0);
    assert_eq!(last_word_end(b"foo", 2), 0);
    assert_eq!(next_word_start(b"foo bar", 0), 4);
    assert_eq!(next_word_start(b"foo bar", 4), 7);
    assert_eq!(next_word_start(b"foo", 1), 3);
}

#[test]
fn config_joins_arguments_with_spaces() {
    let c = Config::new(&vec![b"foo".to_vec(), b"bar".to_vec()]);
    assert_eq!(c.query, Some(b"foo bar".to_vec()));
    let single = Config::new(&vec![b"rustup".to_vec()]);
    assert_eq!(single.query, Some(b"rustup".to_vec()));
    let none = Config::new(&Vec::new());
    assert_eq!(none.query, None);
}

#[test]
fn searching_an_empty_catalog() {
    let cs = build_catalog(&Vec::new());
    assert_eq!(cs_len(&cs), 0);
    assert!(matches!(search(&b"x".to_vec(), &cs), Shown::Few(v) if v.is_empty()));
    assert!(matches!(search(&Vec::new(), &cs), Shown::All));
    assert_eq!(view_length(&Shown::All, 0), 0);
}

#[test]
fn duplicate_names_keep_their_positions() {
    let cs = catalog_from(&["dup", "other", "dup"]);
    let shown = search(&b"dup".to_vec(), &cs);
    assert_eq!(few(&shown), vec![0, 2]);
}
