use win_theme_switcher::config::{resolve_theme_file, Config, ThemeFile};
use win_theme_switcher::theme::Theme;
use win_theme_switcher::theme_file::{
    parse_theme_display_name, theme_display_name_from_bytes, DisplayNameSource,
};

fn literal(s: &str) -> Option<DisplayNameSource> {
    Some(DisplayNameSource::Literal(s.to_string()))
}

#[test]
fn theme_display_name_literal() {
    let bytes = b"; comment\r\n[Theme]\r\nDisplayName=My Custom Theme\r\nColor=1\r\n";
    assert_eq!(theme_display_name_from_bytes(bytes), literal("My Custom Theme"));
}

#[test]
fn theme_display_name_only_read_from_theme_section() {
    let bytes = b"[Control Panel\\Desktop]\r\nDisplayName=Nope\r\n[Slideshow]\r\nInterval=1\r\n";
    assert_eq!(theme_display_name_from_bytes(bytes), None);
}

#[test]
fn theme_display_name_section_header_case_insensitive() {
    assert_eq!(
        theme_display_name_from_bytes(b"[THEME]\r\nDisplayName=Loud\r\n"),
        literal("Loud")
    );
}

#[test]
fn theme_display_name_survives_windows_1252_comment_bytes() {
    let bytes = b"; Copyright \xa9 Microsoft\r\n[Theme]\r\nDisplayName=Real\r\n";
    assert_eq!(theme_display_name_from_bytes(bytes), literal("Real"));
}

#[test]
fn theme_display_name_missing_file_or_key_is_none() {
    // A file that cannot be read never reaches the parser (the caller
    // answers None); a file without the key parses to None.
    assert_eq!(theme_display_name_from_bytes(b"[Theme]\r\nColor=1\r\n"), None);
}

#[test]
fn indirect_reference_is_left_for_the_shell() {
    let text = "[Theme]\r\n; system theme\r\nDisplayName=@%SystemRoot%\\System32\\themeui.dll,-2060\r\n";
    assert_eq!(
        parse_theme_display_name(text),
        Some(DisplayNameSource::Indirect("@%SystemRoot%\\System32\\themeui.dll,-2060".to_string()))
    );
}

#[test]
fn value_and_lines_are_trimmed() {
    assert_eq!(
        parse_theme_display_name("  [theme]  \n\t DisplayName=   Spaced Out \t\r\n"),
        literal("Spaced Out")
    );
    assert_eq!(parse_theme_display_name("[Theme]\nDisplayName="), literal(""));
    assert_eq!(parse_theme_display_name("[Theme]\ndisplayname=lower"), None);
    assert_eq!(parse_theme_display_name(""), None);
}

#[test]
fn first_entry_wins_and_sections_switch() {
    let text = "[Theme]\nDisplayName=First\nDisplayName=Second\n";
    assert_eq!(parse_theme_display_name(text), literal("First"));
    let text = "[Theme]\n[Other]\nDisplayName=No\n[Theme]\nDisplayName=Yes\n";
    assert_eq!(parse_theme_display_name(text), literal("Yes"));
    let text = "[Theme]\n;DisplayName=Commented\nDisplayName=Real\n";
    assert_eq!(parse_theme_display_name(text), literal("Real"));
}

#[test]
fn theme_file_custom_path_wins_when_present() {
    // The custom file exists on disk.
    let p = "C:\\Users\\me\\Themes\\custom-day.theme".to_string();
    let cfg = Config { theme_day: Some(p.clone()), ..Config::default() };
    assert_eq!(resolve_theme_file(Theme::Light, &cfg, true), ThemeFile::Custom(p));
}

#[test]
fn theme_file_falls_back_when_custom_path_missing() {
    let cfg = Config {
        theme_night: Some("C:\\definitely\\not\\here.theme".into()),
        ..Config::default()
    };
    // The custom file is not on disk.
    assert_eq!(resolve_theme_file(Theme::Dark, &cfg, false), ThemeFile::System("dark.theme"));
}

#[test]
fn theme_file_defaults_by_theme() {
    let cfg = Config::default();
    assert_eq!(resolve_theme_file(Theme::Light, &cfg, false), ThemeFile::System("aero.theme"));
    assert_eq!(resolve_theme_file(Theme::Dark, &cfg, false), ThemeFile::System("dark.theme"));
    // The custom path of the other theme is not used.
    let cfg = Config { theme_night: Some("night.theme".into()), ..Config::default() };
    assert_eq!(resolve_theme_file(Theme::Light, &cfg, true), ThemeFile::System("aero.theme"));
}
