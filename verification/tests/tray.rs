use localhost_manager::hosts::VirtualHost;
use localhost_manager::registry::Registry;
use localhost_manager::store::Mutation;
use localhost_manager::text::{
    chars_of, find_either, find_text, is_match_at, is_whitespace, parse_u8, replace_text,
    same_text, slice_of, split_lines, split_words, strip_char, text_of,
};
use localhost_manager::tray::{all_services_command, host_items, tray_action, TrayAction, TrayItem};

fn host(domain: &str, active: bool) -> VirtualHost {
    VirtualHost {
        domain: domain.to_string(),
        docroot: String::new(),
        aliases: Vec::new(),
        group: "Uncategorized".to_string(),
        active,
        ssl: true,
        host_type: "static".to_string(),
    }
}

fn chars(s: &str) -> Vec<char> {
    s.chars().collect()
}

#[test]
fn items_of_the_menu_stand_for_actions() {
    assert!(matches!(tray_action("show"), TrayAction::ShowWindow));
    assert!(matches!(tray_action("hide"), TrayAction::HideWindow));
    assert!(matches!(tray_action("start_all"), TrayAction::StartAllServices));
    assert!(matches!(tray_action("stop_all"), TrayAction::StopAllServices));
    assert!(matches!(tray_action("restart_all"), TrayAction::RestartAllServices));
    assert!(matches!(tray_action("generate"), TrayAction::GenerateConfigs));
    assert!(matches!(tray_action("quit"), TrayAction::Quit));
    assert!(matches!(
        tray_action("activate_hosts"),
        TrayAction::ChangeRegistry(Mutation::SetAllActive(true))
    ));
    assert!(matches!(
        tray_action("deactivate_hosts"),
        TrayAction::ChangeRegistry(Mutation::SetAllActive(false))
    ));
    assert!(matches!(tray_action("sep1"), TrayAction::Ignore));
    assert!(matches!(tray_action("no_hosts"), TrayAction::Ignore));
    assert!(matches!(tray_action(""), TrayAction::Ignore));
    assert!(matches!(tray_action("toggle_host"), TrayAction::Ignore));
    match tray_action("toggle_host_shop.test") {
        TrayAction::ChangeRegistry(Mutation::ToggleActive(domain)) => assert_eq!(domain, "shop.test"),
        _ => panic!("a switch was expected"),
    }
    match tray_action("toggle_host_") {
        TrayAction::ChangeRegistry(Mutation::ToggleActive(domain)) => assert_eq!(domain, ""),
        _ => panic!("a switch was expected"),
    }
}

#[test]
fn every_host_has_its_item() {
    let registry = Registry::from_hosts(vec![host("a.test", true), host("b.test", false)]);
    let items = host_items(&registry);
    assert_eq!(
        items,
        vec![
            TrayItem { id: "toggle_host_a.test".into(), label: "\u{2713} a.test".into() },
            TrayItem { id: "toggle_host_b.test".into(), label: "\u{2717} b.test".into() },
        ]
    );
    for (item, stored) in items.iter().zip(registry.hosts().iter()) {
        match tray_action(&item.id) {
            TrayAction::ChangeRegistry(Mutation::ToggleActive(domain)) => {
                assert_eq!(domain, stored.domain)
            }
            _ => panic!("a switch was expected"),
        }
    }
    assert!(host_items(&Registry::new()).is_empty());
}

#[test]
fn all_services_are_reached_through_the_shell() {
    let line = all_services_command("restart");
    assert_eq!(line.program, "sh");
    assert_eq!(
        line.arguments,
        vec![
            "-c",
            "brew services list | grep -E 'httpd|mysql|php' | awk '{print $1}' | xargs -I {} brew services restart {}"
        ]
    );
}

#[test]
fn texts_are_compared_searched_and_cut() {
    assert!(same_text("abc", "abc"));
    assert!(!same_text("abc", "abd"));
    assert!(!same_text("abc", "ab"));
    assert!(same_text("", ""));
    assert!(same_text("\u{e9}", "\u{e9}"));
    assert!(!same_text("\u{e9}", "e"));
    assert_eq!(chars_of("h\u{e9}!"), vec!['h', '\u{e9}', '!']);
    assert_eq!(text_of(&chars("h\u{e9}!")), "h\u{e9}!");
    assert_eq!(slice_of("h\u{e9}llo", 1, 3), "\u{e9}l");
    let hay = chars("abcabc");
    assert_eq!(find_text(&hay, &chars("bc"), 0, 6), Some(1));
    assert_eq!(find_text(&hay, &chars("bc"), 2, 6), Some(4));
    assert_eq!(find_text(&hay, &chars("bc"), 2, 5), None);
    assert_eq!(find_text(&hay, &chars("bc"), 5, 6), None);
    assert_eq!(find_text(&hay, &chars(""), 6, 6), Some(6));
    assert_eq!(find_text(&hay, &chars("x"), 0, 7), None);
    assert_eq!(find_text(&hay, &chars("abcabcd"), 0, 6), None);
    assert!(is_match_at(&hay, &chars("cab"), 2));
    assert!(!is_match_at(&hay, &chars("cab"), 5));
    assert!(!is_match_at(&hay, &chars("a"), 9));
    assert_eq!(find_either(&hay, 0, 'c', 'b'), 1);
    assert_eq!(find_either(&hay, 3, 'x', 'y'), 6);
    assert_eq!(find_either(&hay, 9, 'a', 'a'), 6);
}

#[test]
fn texts_are_split_and_replaced() {
    let lines = |s: &str| -> Vec<String> {
        split_lines(&chars(s)).iter().map(|l| l.iter().collect()).collect()
    };
    assert_eq!(lines("a\nb\r\nc"), vec!["a", "b", "c"]);
    assert_eq!(lines("a\n"), vec!["a"]);
    assert_eq!(lines("\n"), vec![""]);
    assert_eq!(lines("\r\n\r\n"), vec!["", ""]);
    assert_eq!(lines("a\r"), vec!["a\r"]);
    assert_eq!(lines("a\rb\n\rc"), vec!["a\rb", "\rc"]);
    assert_eq!(lines(""), Vec::<String>::new());
    for sample in ["a\nb\r\nc", "a\n", "\n", "\r\n\r\n", "a\r", "", "x\n\ny\r\r\n"] {
        let expected: Vec<String> = sample.lines().map(|l| l.to_string()).collect();
        assert_eq!(lines(sample), expected);
    }
    let words = |s: &str| -> Vec<String> {
        split_words(&chars(s)).iter().map(|w| w.iter().collect()).collect()
    };
    for sample in ["  a  bc\td ", "", "   ", "one", "\u{a0}x\u{2003}y z"] {
        let expected: Vec<String> = sample.split_whitespace().map(|w| w.to_string()).collect();
        assert_eq!(words(sample), expected);
    }
    let replace = |s: &str, from: &str, to: &str| -> String {
        replace_text(&chars(s), &chars(from), &chars(to)).into_iter().collect()
    };
    for (s, from, to) in [
        ("aaa", "aa", "b"),
        ("abcabc", "bc", ""),
        ("abc", "x", "y"),
        ("", "x", "y"),
        ("xx", "x", "xx"),
        ("a\"b\"", "\"", "\\\""),
    ] {
        assert_eq!(replace(s, from, to), s.replace(from, to));
    }
    assert_eq!(replace("abc", "", "-"), "abc");
    let strip = |s: &str, c: char| -> String { strip_char(&chars(s), c).into_iter().collect() };
    for (s, c) in [("\"\"a\"b\"", '"'), (",,,", ','), ("", ','), ("a,", ','), (",a", ',')] {
        assert_eq!(strip(s, c), s.trim_matches(c));
    }
}

#[test]
fn small_numbers_are_read_as_the_standard_library_reads_them() {
    for sample in [
        "0", "7", "42", "255", "256", "999", "+5", "+255", "+256", "+", "", "-1", "-0", "007",
        "0256", "00000000000255", "1a", "a1", " 1", "1 ", "++1", "1+", "4294967297",
        "18446744073709551617", "\u{663}", "1\u{663}", "2 5", "25.5",
    ] {
        assert_eq!(parse_u8(sample), sample.parse::<u8>().ok());
    }
    assert_eq!(parse_u8("255"), Some(255));
    assert_eq!(parse_u8("+12"), Some(12));
    assert_eq!(parse_u8("256"), None);
}

#[test]
fn white_space_is_what_the_standard_library_takes_for_it() {
    let mut spaces = 0;
    for code in 0..=0x10FFFFu32 {
        if let Some(c) = char::from_u32(code) {
            assert_eq!(is_whitespace(c), c.is_whitespace());
            if is_whitespace(c) {
                spaces += 1;
            }
        }
    }
    assert_eq!(spaces, 25);
    assert!(is_whitespace(' ') && is_whitespace('\t') && is_whitespace('\u{3000}'));
    assert!(!is_whitespace('a') && !is_whitespace('\u{200b}') && !is_whitespace('\u{1c}'));
}
