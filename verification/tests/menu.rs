use git_diff_stepper::menu::find_menu_idx;

fn titles(entries: &[Option<&str>]) -> Vec<Option<String>> {
    entries.iter().map(|e| e.map(|t| t.to_string())).collect()
}

#[test]
fn finds_submenu_by_title() {
    let menu = titles(&[Some("File"), Some("Edit"), Some("Help")]);
    assert_eq!(find_menu_idx(&menu, "Edit"), Some(1));
}

#[test]
fn skips_entries_that_are_not_submenus() {
    let menu = titles(&[None, Some("File"), None, Some("Edit")]);
    assert_eq!(find_menu_idx(&menu, "Edit"), Some(3));
}

#[test]
fn returns_first_match() {
    let menu = titles(&[Some("File"), Some("File")]);
    assert_eq!(find_menu_idx(&menu, "File"), Some(0));
}

#[test]
fn missing_title_finds_nothing() {
    let menu = titles(&[Some("File"), Some("Edit")]);
    assert_eq!(find_menu_idx(&menu, "Transition"), None);
}
