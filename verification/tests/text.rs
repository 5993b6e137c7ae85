use win_theme_switcher::session::autostart_command;
use win_theme_switcher::text::{is_blank_str, is_whitespace_char, sanitize_log_msg, wide};
use win_theme_switcher::theme::{theme_str, Theme};

#[test]
fn sanitize_log_msg_keeps_field_parseable() {
    assert_eq!(
        sanitize_log_msg("bad \"path\" at\nline\r\ntwo"),
        "bad 'path' at line  two"
    );
}

#[test]
fn sanitize_keeps_everything_else() {
    assert_eq!(sanitize_log_msg(""), "");
    assert_eq!(sanitize_log_msg("C:\\Themes\\é ☀ 'x'"), "C:\\Themes\\é ☀ 'x'");
}

#[test]
fn wide_is_nul_terminated_utf16() {
    for s in ["", "open", "ms-settings:privacy-location", "é☀𝄞 mixed 😀"] {
        let expected: Vec<u16> = s.encode_utf16().chain(std::iter::once(0)).collect();
        assert_eq!(wide(s), expected, "{s}");
    }
    assert_eq!(wide("𝄞"), vec![0xD834, 0xDD1E, 0]);
}

#[test]
fn whitespace_matches_std_for_every_char() {
    for v in 0u32..=0x10FFFF {
        if let Some(c) = char::from_u32(v) {
            assert_eq!(is_whitespace_char(c), c.is_whitespace(), "U+{v:04X}");
        }
    }
}

#[test]
fn blank_text_is_detected() {
    assert!(is_blank_str(""));
    assert!(is_blank_str("  \n\t\r\n\u{3000}"));
    assert!(!is_blank_str("  {}  "));
}

#[test]
fn theme_words_in_logs() {
    assert_eq!(theme_str(Some(Theme::Light)), "light");
    assert_eq!(theme_str(Some(Theme::Dark)), "dark");
    assert_eq!(theme_str(None), "unknown");
}

#[test]
fn registry_flag_round_trips() {
    assert_eq!(Theme::Light.light_flag(), 1);
    assert_eq!(Theme::Dark.light_flag(), 0);
    assert_eq!(Theme::from_light_flag(0), Theme::Dark);
    assert_eq!(Theme::from_light_flag(1), Theme::Light);
    assert_eq!(Theme::from_light_flag(7), Theme::Light);
}

#[test]
fn autostart_command_quotes_the_path() {
    assert_eq!(
        autostart_command("C:\\Tools\\WinThemeSwitcher\\win-theme-switcher.exe"),
        "\"C:\\Tools\\WinThemeSwitcher\\win-theme-switcher.exe\""
    );
}
