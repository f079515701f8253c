use quickbooks_sheets_sync::config::{normalize_path_for, Config};
use quickbooks_sheets_sync::file_mode::FileMode;
use quickbooks_sheets_sync::preferences::{
    AuthPreferences, ConnectionType, PersonalDataPref, UnattendedMode,
};
use quickbooks_sheets_sync::protocol::selector;
use quickbooks_sheets_sync::text::{
    char_is_whitespace, chars_of, copy_range, find, find_trim_bounds, matches_at, str_eq, trim,
};

#[test]
fn characters_and_equality() {
    assert_eq!(chars_of("aé\u{1F4B0}"), vec!['a', 'é', '\u{1F4B0}']);
    assert!(chars_of("").is_empty());
    assert!(str_eq("abc", "abc"));
    assert!(!str_eq("abc", "Abc"));
    assert!(!str_eq("abc", "abcd"));
    assert!(str_eq("", ""));
}

#[test]
fn search_finds_the_leftmost_occurrence() {
    let hay = chars_of("abcabcab");
    let find_text = |needle: &str, from: usize| find(&hay, &chars_of(needle), from);
    for (needle, from) in [
        ("abc", 0), ("abc", 1), ("abc", 4), ("ab", 6), ("ab", 7), ("c", 0), ("x", 0), ("", 0),
        ("", 8), ("", 9), ("abcabcab", 0), ("abcabcabc", 0), ("b", 20),
    ] {
        let expected = if from <= 8 {
            "abcabcab"[from..].find(needle).map(|i| i + from)
        } else {
            None
        };
        assert_eq!(find_text(needle, from), expected, "{needle} {from}");
    }
    assert!(matches_at(&hay, &chars_of("cab"), 2));
    assert!(!matches_at(&hay, &chars_of("cab"), 3));
    assert!(!matches_at(&hay, &chars_of("ab"), 7));
    assert!(matches_at(&hay, &chars_of(""), 8));
    assert!(!matches_at(&hay, &chars_of(""), 9));
}

#[test]
fn trimming_matches_the_standard_library() {
    for s in [
        "", " ", "a", "  a  ", "\t\na b\r\n", "\u{a0}x\u{3000}", "\u{2003}y\u{85}", "\u{200b}z",
        "\u{1680}\u{2028}\u{2029}\u{202f}\u{205f}q", "\u{b}\u{c} w \u{b}",
    ] {
        assert_eq!(trim(s), s.trim(), "{s:?}");
    }
    for code in 0u32..0x3100 {
        if let Some(c) = char::from_u32(code) {
            assert_eq!(char_is_whitespace(c), c.is_whitespace(), "{code:#x}");
        }
    }
    let chars = chars_of("  ab  ");
    assert_eq!(find_trim_bounds(&chars, 0, 6), (2, 4));
    assert_eq!(find_trim_bounds(&chars, 3, 6), (3, 4));
    assert_eq!(find_trim_bounds(&chars, 4, 6), (6, 6));
    assert_eq!(copy_range("  ab  ", 2, 4), "ab");
    assert_eq!(copy_range("aé\u{1F4B0}z", 1, 3), "é\u{1F4B0}");
}

#[test]
fn normalization_for_each_kind_of_host() {
    assert_eq!(normalize_path_for("C:/Users/Test/file.qbw", true), "C:\\Users\\Test\\file.qbw");
    assert_eq!(normalize_path_for("C:/Users/Test/file.qbw", false), "C:/Users/Test/file.qbw");
    assert_eq!(normalize_path_for("C:\\a/b\\c/d", true), "C:\\a\\b\\c\\d");
    assert_eq!(normalize_path_for("/unix/path/file.qbw", true), "/unix/path/file.qbw");
    assert_eq!(normalize_path_for("relative/path", true), "relative/path");
    for special in ["MOCK", "AUTO", ""] {
        assert_eq!(normalize_path_for(special, true), special);
        assert_eq!(normalize_path_for(special, false), special);
    }
    assert_eq!(normalize_path_for("é:/x", true), "é:\\x");
}

#[test]
fn windows_path_counts_bytes_for_the_drive_rule() {
    assert!(!Config::is_windows_path("C:"));
    assert!(Config::is_windows_path("C:x"));
    assert!(Config::is_windows_path("é:"));
    assert!(!Config::is_windows_path(":"));
    assert!(!Config::is_windows_path("a"));
    assert!(Config::is_windows_path("a\\"));
    for path in ["C:", "C:x", "é:", ":", "::", "ab:", "\\", "a/b:c", "x:y/z"] {
        let expected = path.len() >= 3 && path.chars().nth(1) == Some(':')
            || path.starts_with("\\\\")
            || path.contains('\\');
        assert_eq!(Config::is_windows_path(path), expected, "{path}");
    }
}

#[test]
fn normalize_paths_touches_the_company_file_only() {
    let mut config = Config::default();
    config.quickbooks.company_file = "/unix/books.qbw".to_string();
    let before = config.clone();
    config.normalize_paths();
    assert_eq!(config, before);

    config.quickbooks.company_file = "C:/Books/books.qbw".to_string();
    let mut expected = config.clone();
    expected.quickbooks.company_file = if std::path::is_separator('\\') {
        "C:\\Books\\books.qbw".to_string()
    } else {
        "C:/Books/books.qbw".to_string()
    };
    config.normalize_paths();
    assert_eq!(config, expected);
}

#[test]
fn selectors() {
    assert_eq!(selector("AUTO"), "");
    assert_eq!(selector(""), "");
    assert_eq!(selector("auto"), "auto");
    assert_eq!(selector("C:\\Books.qbw"), "C:\\Books.qbw");
}

#[test]
fn preference_names() {
    assert_eq!(ConnectionType::Local.preference_name(), "LocalQBD");
    assert_eq!(ConnectionType::LocalWithUI.preference_name(), "LocalQBDLaunchUI");
    assert_eq!(ConnectionType::Remote.preference_name(), "RemoteQBD");
    assert_eq!(ConnectionType::RemoteQBOE.preference_name(), "RemoteQBOE");
    assert_eq!(ConnectionType::Unknown.preference_name(), "Unknown");
    assert_eq!(FileMode::SingleUser.open_mode_name(), "qbFileOpenSingleUser");
    assert_eq!(FileMode::MultiUser.open_mode_name(), "qbFileOpenMultiUser");
    assert_eq!(FileMode::DoNotCare.open_mode_name(), "qbFileOpenDoNotCare");
    assert_eq!(FileMode::SingleUser.code(), 1);
    assert_eq!(FileMode::MultiUser.code(), 2);
    assert_eq!(FileMode::Online.code(), 3);
}

#[test]
fn auth_preferences() {
    let all = AuthPreferences::default();
    assert_eq!(all.unattended_mode, UnattendedMode::Optional);
    assert_eq!(all.personal_data, PersonalDataPref::Optional);
    assert!(!all.is_read_only);
    assert!(all.enterprise_enabled && all.premier_enabled && all.pro_enabled && all.simple_enabled);
    assert!(!all.force_auth_dialog);
    let enterprise = AuthPreferences::enterprise_only();
    assert!(enterprise.enterprise_enabled);
    assert!(!enterprise.premier_enabled && !enterprise.pro_enabled && !enterprise.simple_enabled);
    assert_eq!(enterprise.unattended_mode, all.unattended_mode);
}

#[test]
fn normalize_paths_for_each_kind_of_host() {
    let mut config = Config::default();
    config.quickbooks.company_file = "C:/Books/books.qbw".to_string();
    let before = config.clone();

    let mut on_windows = config.clone();
    on_windows.normalize_paths_for(true);
    let mut expected = before.clone();
    expected.quickbooks.company_file = "C:\\Books\\books.qbw".to_string();
    assert_eq!(on_windows, expected);

    config.normalize_paths_for(false);
    assert_eq!(config, before);

    let mut special = Config::default();
    special.normalize_paths_for(true);
    assert_eq!(special, Config::default());
}
