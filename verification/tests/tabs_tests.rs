use zot::tabs::TabRegistry;

#[test]
fn create_then_activate_reports_address() {
    let mut reg = TabRegistry::new();
    let ix = reg.create_tab(Some("https://a.com".to_string()));
    assert_eq!(ix, 0);
    assert!(reg.activate(0));
    assert_eq!(reg.active_index, Some(0));
    assert_eq!(reg.current_address(), Some("https://a.com".to_string()));
}

#[test]
fn create_does_not_activate_by_itself() {
    let mut reg = TabRegistry::new();
    let _ = reg.create_tab(Some("https://a.com".to_string()));
    assert_eq!(reg.active_index, None);
    assert_eq!(reg.current_address(), None);
}

#[test]
fn deactivate_keeps_the_tab() {
    let mut reg = TabRegistry::new();
    let ix = reg.create_tab(Some("https://a.com".to_string()));
    assert!(reg.activate(ix));
    reg.deactivate();
    assert_eq!(reg.active_index, None);
    assert_eq!(reg.current_address(), None);
    assert_eq!(reg.count(), 1);
}

#[test]
fn create_without_address_starts_empty() {
    let mut reg = TabRegistry::new();
    let ix = reg.create_tab(None);
    assert!(reg.activate(ix));
    assert_eq!(reg.current_address(), Some(String::new()));
}

#[test]
fn activate_out_of_range_fails_and_changes_nothing() {
    let mut reg = TabRegistry::new();
    let ix = reg.create_tab(Some("https://a.com".to_string()));
    assert!(reg.activate(ix));
    assert!(!reg.activate(7));
    assert_eq!(reg.active_index, Some(0));
    assert_eq!(reg.count(), 1);
}

#[test]
fn set_address_rewrites_one_tab() {
    let mut reg = TabRegistry::new();
    let first = reg.create_tab(Some("https://a.com".to_string()));
    let second = reg.create_tab(Some("https://b.com".to_string()));
    assert!(reg.set_address(first, "https://c.com".to_string()));
    assert_eq!(reg.tabs[first].address, "https://c.com");
    assert_eq!(reg.tabs[second].address, "https://b.com");
}

#[test]
fn set_address_out_of_range_fails() {
    let mut reg = TabRegistry::new();
    let _ = reg.create_tab(Some("https://a.com".to_string()));
    assert!(!reg.set_address(3, "https://c.com".to_string()));
    assert_eq!(reg.tabs[0].address, "https://a.com");
}

#[test]
fn tabs_keep_creation_order() {
    let mut reg = TabRegistry::new();
    let a = reg.create_tab(Some("https://a.com".to_string()));
    let b = reg.create_tab(Some("https://b.com".to_string()));
    let c = reg.create_tab(Some("https://c.com".to_string()));
    assert_eq!((a, b, c), (0, 1, 2));
    assert!(reg.activate(1));
    assert_eq!(reg.current_address(), Some("https://b.com".to_string()));
}
