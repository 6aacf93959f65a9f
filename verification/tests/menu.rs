use codexola::menu::{find_quit_item, quit_item_label};

fn labels(values: &[Option<&str>]) -> Vec<Option<String>> {
    values.iter().map(|v| v.map(str::to_string)).collect()
}

#[test]
fn quit_label_names_the_application() {
    assert_eq!(quit_item_label("Codexola"), "Quit Codexola");
    assert_eq!(quit_item_label(""), "Quit ");
}

#[test]
fn first_item_with_the_quit_label_is_found() {
    let items = labels(&[Some("About"), None, Some("Quit App"), Some("Hide"), Some("Quit App")]);
    assert_eq!(find_quit_item(&items, "App"), Some(2));
}

#[test]
fn last_predefined_item_stands_in_for_a_missing_quit_item() {
    let items = labels(&[Some("About"), None, Some("Beenden"), None]);
    assert_eq!(find_quit_item(&items, "App"), Some(2));
    let items = labels(&[Some("quit app")]);
    assert_eq!(find_quit_item(&items, "App"), Some(0));
}

#[test]
fn menu_without_predefined_items_has_no_quit_item() {
    assert_eq!(find_quit_item(&labels(&[None, None]), "App"), None);
    assert_eq!(find_quit_item(&labels(&[]), "App"), None);
}
