use picker::selection::Selection;

fn list(items: &[&str]) -> Vec<String> {
    items.iter().map(|s| s.to_string()).collect()
}

#[test]
fn new_selection_is_empty() {
    let sel = Selection::new();
    assert_eq!(sel.selected(), None);
    assert_eq!(sel.confirm(&list(&["a"])), None);
}

#[test]
fn select_first_on_a_list_and_on_none() {
    let mut sel = Selection::new();
    sel.select_first(3);
    assert_eq!(sel.selected(), Some(0));
    sel.select_first(0);
    assert_eq!(sel.selected(), None);
}

#[test]
fn select_next_stops_at_the_last_row() {
    let mut sel = Selection::new();
    sel.select_first(3);
    sel.select_next(3);
    assert_eq!(sel.selected(), Some(1));
    sel.select_next(3);
    assert_eq!(sel.selected(), Some(2));
    sel.select_next(3);
    assert_eq!(sel.selected(), Some(2));
}

#[test]
fn select_previous_stops_at_the_first_row() {
    let mut sel = Selection::new();
    sel.select_first(3);
    sel.select_next(3);
    sel.select_next(3);
    sel.select_previous();
    assert_eq!(sel.selected(), Some(1));
    sel.select_previous();
    assert_eq!(sel.selected(), Some(0));
    sel.select_previous();
    assert_eq!(sel.selected(), Some(0));
}

#[test]
fn moves_without_a_selection_do_nothing() {
    let mut sel = Selection::new();
    sel.select_next(0);
    assert_eq!(sel.selected(), None);
    sel.select_previous();
    assert_eq!(sel.selected(), None);
}

#[test]
fn single_row_list_keeps_its_selection() {
    let mut sel = Selection::new();
    sel.select_first(1);
    sel.select_next(1);
    assert_eq!(sel.selected(), Some(0));
    sel.select_previous();
    assert_eq!(sel.selected(), Some(0));
}

#[test]
fn confirm_returns_the_selected_row() {
    let items = list(&["apple", "banana", "grape"]);
    let mut sel = Selection::new();
    sel.select_first(items.len());
    assert_eq!(sel.confirm(&items), Some("apple".to_string()));
    sel.select_next(items.len());
    assert_eq!(sel.confirm(&items), Some("banana".to_string()));
    assert_eq!(sel.confirm(&list(&["only"])), None);
    assert_eq!(sel.confirm(&Vec::new()), None);
}
