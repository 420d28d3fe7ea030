use trustbrowser::browser::Browser;

fn opened() -> Browser {
    let mut browser = Browser::new();
    browser.show();
    browser
}

fn entries(browser: &Browser) -> Vec<String> {
    let mut all = Vec::new();
    let mut i = 0;
    while let Some(entry) = browser.entry(i) {
        all.push(entry);
        i += 1;
    }
    assert_eq!(all.len(), browser.len());
    all
}

fn abc() -> Browser {
    let mut browser = Browser::new();
    browser.navigate("http://A");
    browser.navigate("http://B");
    browser.navigate("http://C");
    browser
}

#[test]
fn new_browser_is_empty() {
    let browser = Browser::new();
    assert_eq!(browser.len(), 0);
    assert_eq!(browser.current_index(), 0);
    assert!(!browser.can_go_back());
    assert!(!browser.can_go_forward());
    assert!(browser.entry(0).is_none());
}

#[test]
fn show_opens_on_home_page() {
    let mut browser = Browser::new();
    let load = browser.show();
    assert_eq!(load.address, "https://web.whatsapp.com");
    assert!(load.show_in_field);
    assert!(!load.back_enabled);
    assert!(!load.forward_enabled);
    assert_eq!(entries(&browser), vec!["https://web.whatsapp.com".to_string()]);
    assert_eq!(browser.current_index(), 0);
}

#[test]
fn show_on_used_history_appends_and_goes_to_first() {
    let mut browser = abc();
    let load = browser.show();
    assert_eq!(load.address, "https://web.whatsapp.com");
    assert!(!load.back_enabled);
    assert!(load.forward_enabled);
    assert_eq!(browser.len(), 4);
    assert_eq!(browser.current_index(), 0);
    assert_eq!(browser.entry(3).unwrap(), "https://web.whatsapp.com");
}

#[test]
fn navigate_sequence_stays_at_newest_entry() {
    let mut browser = opened();
    let inputs = ["example.com", "", "http://a.test", "   ", "https://b.test/x?y=1", "c"];
    for input in inputs {
        browser.navigate(input);
        assert_eq!(browser.current_index(), browser.len() - 1);
        assert_eq!(browser.can_go_back(), browser.current_index() > 0);
        assert!(!browser.can_go_forward());
    }
    assert_eq!(browser.len(), 5);
    assert_eq!(
        entries(&browser),
        vec![
            "https://web.whatsapp.com".to_string(),
            "https://example.com".to_string(),
            "http://a.test".to_string(),
            "https://b.test/x?y=1".to_string(),
            "https://c".to_string(),
        ]
    );
}

#[test]
fn navigate_without_scheme_stores_secure_address() {
    let mut browser = opened();
    let load = browser.navigate("example.com").unwrap();
    assert_eq!(load.address, "https://example.com");
    assert!(!load.show_in_field);
    assert!(load.back_enabled);
    assert!(!load.forward_enabled);
    assert_eq!(browser.entry(1).unwrap(), "https://example.com");
    assert_eq!(browser.current_index(), 1);
}

#[test]
fn navigate_keeps_a_named_scheme() {
    let mut browser = opened();
    assert_eq!(browser.navigate("http://example.com").unwrap().address, "http://example.com");
    assert_eq!(browser.navigate("https://example.com").unwrap().address, "https://example.com");
    assert_eq!(browser.navigate("ftp://example.com").unwrap().address, "https://ftp://example.com");
    assert_eq!(browser.navigate("HTTP://example.com").unwrap().address, "https://HTTP://example.com");
    assert_eq!(browser.navigate("http:/").unwrap().address, "https://http:/");
    assert_eq!(browser.navigate("http://").unwrap().address, "http://");
}

#[test]
fn navigate_keeps_the_text_as_typed() {
    let mut browser = opened();
    assert_eq!(browser.navigate(" example.com ").unwrap().address, "https:// example.com ");
    assert_eq!(browser.navigate("münchen.de/ü").unwrap().address, "https://münchen.de/ü");
}

#[test]
fn navigate_ignores_blank_input() {
    let mut browser = abc();
    browser.go_back();
    for blank in ["", " ", "   ", "\t", "\n", " \t\r\n", "\u{a0}", "\u{2003}\u{3000}", "\u{85}"] {
        assert!(browser.navigate(blank).is_none());
        assert_eq!(browser.len(), 3);
        assert_eq!(browser.current_index(), 1);
        assert!(browser.can_go_forward());
    }
    assert_eq!(
        entries(&browser),
        vec!["http://A".to_string(), "http://B".to_string(), "http://C".to_string()]
    );
}

#[test]
fn navigate_on_empty_history_makes_first_entry() {
    let mut browser = Browser::new();
    let load = browser.navigate("a").unwrap();
    assert_eq!(load.address, "https://a");
    assert!(!load.back_enabled);
    assert_eq!(browser.len(), 1);
    assert_eq!(browser.current_index(), 0);
}

#[test]
fn back_then_navigate_discards_forward_branch() {
    let mut browser = abc();
    assert_eq!(browser.current_index(), 2);
    let back = browser.go_back().unwrap();
    assert_eq!(back.address, "http://B");
    let load = browser.navigate("http://D").unwrap();
    assert_eq!(load.address, "http://D");
    assert_eq!(
        entries(&browser),
        vec!["http://A".to_string(), "http://B".to_string(), "http://D".to_string()]
    );
    assert_eq!(browser.current_index(), 2);
    assert!(browser.can_go_back());
    assert!(!browser.can_go_forward());
}

#[test]
fn navigate_from_first_entry_discards_all_later() {
    let mut browser = abc();
    browser.go_back();
    browser.go_back();
    browser.navigate("http://E");
    assert_eq!(entries(&browser), vec!["http://A".to_string(), "http://E".to_string()]);
    assert_eq!(browser.current_index(), 1);
}

#[test]
fn go_back_at_first_entry_is_inert() {
    let mut browser = abc();
    browser.go_back();
    browser.go_back();
    assert_eq!(browser.current_index(), 0);
    let before = entries(&browser);
    assert!(browser.go_back().is_none());
    assert_eq!(browser.current_index(), 0);
    assert_eq!(entries(&browser), before);
}

#[test]
fn go_forward_at_last_entry_is_inert() {
    let mut browser = abc();
    let before = entries(&browser);
    assert!(browser.go_forward().is_none());
    assert_eq!(browser.current_index(), 2);
    assert_eq!(entries(&browser), before);
}

#[test]
fn back_and_forward_on_empty_history_are_inert() {
    let mut browser = Browser::new();
    assert!(browser.go_back().is_none());
    assert!(browser.go_forward().is_none());
    assert_eq!(browser.len(), 0);
    assert_eq!(browser.current_index(), 0);
}

#[test]
fn go_back_loads_previous_entry() {
    let mut browser = abc();
    let load = browser.go_back().unwrap();
    assert_eq!(load.address, "http://B");
    assert!(load.show_in_field);
    assert!(load.back_enabled);
    assert!(load.forward_enabled);
    assert_eq!(browser.current_index(), 1);
    let load = browser.go_back().unwrap();
    assert_eq!(load.address, "http://A");
    assert!(!load.back_enabled);
    assert!(load.forward_enabled);
    assert_eq!(browser.current_index(), 0);
    assert_eq!(browser.len(), 3);
}

#[test]
fn go_forward_loads_next_entry() {
    let mut browser = abc();
    browser.go_back();
    browser.go_back();
    let load = browser.go_forward().unwrap();
    assert_eq!(load.address, "http://B");
    assert!(load.show_in_field);
    assert!(load.back_enabled);
    assert!(load.forward_enabled);
    let load = browser.go_forward().unwrap();
    assert_eq!(load.address, "http://C");
    assert!(load.back_enabled);
    assert!(!load.forward_enabled);
    assert_eq!(browser.current_index(), 2);
    assert_eq!(browser.len(), 3);
}

#[test]
fn entry_outside_history_is_none() {
    let browser = abc();
    assert_eq!(browser.entry(2).unwrap(), "http://C");
    assert!(browser.entry(3).is_none());
    assert!(browser.entry(usize::MAX).is_none());
}
