use zot::controller::{suggestion_items, NavigationController, SUGGESTION_COUNT};
use zot::search::IndexPath;

#[test]
fn new_tab_flow_end_to_end() {
    let mut nc = NavigationController::new();

    nc.start_new_tab();
    assert_eq!(nc.tabs.active_index, None);
    assert_eq!(nc.search.items_count(), 0);

    let changed = nc.new_tab_query_changed("weather");
    assert!(changed);
    assert_eq!(nc.search.items_count(), SUGGESTION_COUNT);
    let top = nc.search.selected_item().unwrap();
    assert_eq!(top.uri, "weather");

    // the selection starts at the top, so confirming picks the first entry
    let created = nc.new_tab_confirm_selection();
    assert!(created);
    assert_eq!(nc.tabs.count(), 1);
    assert_eq!(nc.tabs.active_index, Some(0));
    assert_eq!(nc.tabs.current_address(), Some("weather".to_string()));
}

#[test]
fn confirming_without_selection_does_nothing() {
    let mut nc = NavigationController::new();
    nc.start_new_tab();
    let _ = nc.new_tab_query_changed("weather");
    nc.search.set_selected_index(None);
    assert!(!nc.new_tab_confirm_selection());
    assert_eq!(nc.tabs.count(), 0);
    assert_eq!(nc.tabs.active_index, None);
}

#[test]
fn confirming_on_an_empty_list_does_nothing() {
    let mut nc = NavigationController::new();
    nc.start_new_tab();
    assert!(!nc.new_tab_confirm_selection());
    assert_eq!(nc.tabs.count(), 0);
}

#[test]
fn direct_confirm_resolves_the_text() {
    let mut nc = NavigationController::new();
    nc.start_new_tab();
    assert!(nc.new_tab_confirm_direct("example"));
    assert_eq!(nc.tabs.active_index, Some(0));
    assert_eq!(
        nc.tabs.current_address(),
        Some("https://www.google.com/search?q=example".to_string())
    );
}

#[test]
fn direct_confirm_passes_addresses_through() {
    let mut nc = NavigationController::new();
    nc.start_new_tab();
    assert!(nc.new_tab_confirm_direct("https://example.com"));
    assert_eq!(
        nc.tabs.current_address(),
        Some("https://example.com".to_string())
    );
}

#[test]
fn direct_confirm_ignores_blank_text() {
    let mut nc = NavigationController::new();
    nc.start_new_tab();
    assert!(!nc.new_tab_confirm_direct(""));
    assert_eq!(nc.tabs.count(), 0);
    assert_eq!(nc.tabs.active_index, None);
}

#[test]
fn query_edits_rederive_the_list() {
    let mut nc = NavigationController::new();
    nc.start_new_tab();
    assert!(nc.new_tab_query_changed("weather"));
    assert_eq!(nc.search.items_count(), SUGGESTION_COUNT);
    // the same text again produces a value-identical list: no change
    assert!(!nc.new_tab_query_changed("weather"));
    // blank text clears the list, since a blank destination is never stored
    assert!(nc.new_tab_query_changed(""));
    assert_eq!(nc.search.items_count(), 0);
}

#[test]
fn address_bar_confirm_rewrites_the_active_tab() {
    let mut nc = NavigationController::new();
    nc.start_new_tab();
    assert!(nc.new_tab_confirm_direct("https://example.com"));
    assert!(nc.address_bar_confirm("weather in london"));
    assert_eq!(
        nc.tabs.current_address(),
        Some("https://www.google.com/search?q=weather in london".to_string())
    );
    assert!(nc.address_bar_confirm("https://b.com"));
    assert_eq!(nc.tabs.current_address(), Some("https://b.com".to_string()));
}

#[test]
fn address_bar_confirm_needs_an_active_tab_and_text() {
    let mut nc = NavigationController::new();
    assert!(!nc.address_bar_confirm("https://a.com"));
    nc.start_new_tab();
    assert!(nc.new_tab_confirm_direct("https://a.com"));
    assert!(!nc.address_bar_confirm(""));
    assert_eq!(nc.tabs.current_address(), Some("https://a.com".to_string()));
}

#[test]
fn second_tab_activates_at_the_end() {
    let mut nc = NavigationController::new();
    nc.start_new_tab();
    assert!(nc.new_tab_confirm_direct("https://a.com"));
    nc.start_new_tab();
    assert_eq!(nc.tabs.active_index, None);
    assert!(nc.new_tab_confirm_direct("https://b.com"));
    assert_eq!(nc.tabs.count(), 2);
    assert_eq!(nc.tabs.active_index, Some(1));
    assert_eq!(nc.tabs.current_address(), Some("https://b.com".to_string()));
}

#[test]
fn synthesized_suggestions_wrap_the_query() {
    let items = suggestion_items("weather");
    assert_eq!(items.len(), SUGGESTION_COUNT);
    for item in &items {
        assert_eq!(item.uri, "weather");
        assert_eq!(item.name, None);
        assert_eq!(item.description, None);
    }
    let selection = IndexPath::default();
    assert_eq!(selection, IndexPath { section: 0, row: 0 });
}
