use runtime_commands::paging::{count_pages, page_label, page_labels, read_page, LABEL_CHARS, PAGE_SIZE};
use runtime_commands::runtime::find_page;
use runtime_commands::session::Session;
use runtime_commands::text::{comma_list, contains, copy_list, join_range};

fn strings(items: &[&str]) -> Vec<String> {
    items.iter().map(|s| s.to_string()).collect()
}

#[test]
fn join_range_joins_a_stretch() {
    let parts = strings(&["a", "b", "c", "d"]);
    assert_eq!(join_range(&parts, 0, 4, "-"), "a-b-c-d");
    assert_eq!(join_range(&parts, 1, 3, "\n\n"), "b\n\nc");
    assert_eq!(join_range(&parts, 2, 3, ", "), "c");
    assert_eq!(join_range(&parts, 2, 2, ", "), "");
    assert_eq!(join_range(&strings(&["", ""]), 0, 2, "+"), "+");
}

#[test]
fn comma_list_puts_comma_and_space_between_items() {
    assert_eq!(comma_list(&strings(&[])), "");
    assert_eq!(comma_list(&strings(&["one"])), "one");
    assert_eq!(comma_list(&strings(&["one", "two", "three"])), "one, two, three");
}

#[test]
fn contains_compares_whole_strings() {
    let list = strings(&["music", "sfx"]);
    assert!(contains(&list, &"sfx".to_string()));
    assert!(!contains(&list, &"sf".to_string()));
    assert!(!contains(&strings(&[]), &"sfx".to_string()));
}

#[test]
fn copy_list_copies_every_item_in_order() {
    let list = strings(&["b", "a", "b"]);
    assert_eq!(copy_list(&list), list);
    assert!(copy_list(&strings(&[])).is_empty());
}

#[test]
fn pages_hold_five_entries() {
    assert_eq!(PAGE_SIZE, 5);
    assert_eq!(LABEL_CHARS, 25);
    let expected = [(0, 0), (1, 1), (5, 1), (6, 2), (9, 2), (10, 2), (11, 3)];
    for (entries, pages) in expected {
        assert_eq!(count_pages(entries), pages);
    }
    assert_eq!(count_pages(usize::MAX), usize::MAX / 5);
    assert_eq!(count_pages(usize::MAX - 1), usize::MAX / 5);
    assert_eq!(count_pages(usize::MAX - 5), usize::MAX / 5 - 1);
}

#[test]
fn page_label_clamps_to_the_entry() {
    assert_eq!(page_label(&String::new()), "...");
    assert_eq!(page_label(&"short".to_string()), "short...");
    assert_eq!(page_label(&"a".repeat(25)), format!("{}...", "a".repeat(25)));
    assert_eq!(page_label(&"a".repeat(26)), format!("{}...", "a".repeat(25)));
    assert_eq!(page_label(&"é".repeat(40)), format!("{}...", "é".repeat(25)));
}

#[test]
fn page_labels_take_the_first_entry_of_each_page() {
    let log = strings(&["1", "2", "3", "4", "5", "6"]);
    assert_eq!(page_labels(&log), strings(&["1...", "6..."]));
    assert!(page_labels(&strings(&[])).is_empty());
}

#[test]
fn read_page_gives_none_beyond_the_last_page() {
    let log = strings(&["1", "2", "3", "4", "5", "6"]);
    assert_eq!(read_page(&log, 0), Some("1\n\n2\n\n3\n\n4\n\n5".to_string()));
    assert_eq!(read_page(&log, 1), Some("6".to_string()));
    assert_eq!(read_page(&log, 2), None);
    assert_eq!(read_page(&strings(&[]), 0), None);
}

#[test]
fn find_page_takes_the_first_page_of_that_name() {
    let pages = vec![
        ("a".to_string(), "first".to_string()),
        ("b".to_string(), "second".to_string()),
        ("a".to_string(), "third".to_string()),
    ];
    assert_eq!(find_page(&pages, &"a".to_string()), Some("first".to_string()));
    assert_eq!(find_page(&pages, &"b".to_string()), Some("second".to_string()));
    assert_eq!(find_page(&pages, &"c".to_string()), None);
}

#[test]
fn new_session_is_empty() {
    let session = Session::new("fr".to_string());
    assert_eq!(session.lang, "fr");
    assert!(session.history.is_empty());
    assert!(session.info_pages.is_empty());
    assert!(session.log.is_empty());
    assert!(session.channels.is_empty());
    assert!(session.notes.is_empty());
    assert!(session.variables.is_empty());
}
