use win_theme_switcher::apply::{
    first_method, method_after_failure, ApplyMethod, CommitWatch, WatchStep, COMMIT_POLLS,
    CONFIRM_POLLS,
};
use win_theme_switcher::icon::tray_icon_rgba;
use win_theme_switcher::theme::Theme;

/// The icon drawn with floating-point geometry.
fn float_icon() -> Vec<u8> {
    const SIZE: u32 = 32;
    let mut rgba = vec![0u8; (SIZE * SIZE * 4) as usize];
    let cx = SIZE as f32 / 2.0;
    let cy = SIZE as f32 / 2.0;
    let r = SIZE as f32 / 2.0 - 1.5;
    for y in 0..SIZE {
        for x in 0..SIZE {
            let dx = x as f32 + 0.5 - cx;
            let dy = y as f32 + 0.5 - cy;
            let d = (dx * dx + dy * dy).sqrt();
            let idx = ((y * SIZE + x) * 4) as usize;
            if d <= r {
                if dx < 0.0 {
                    rgba[idx] = 255;
                    rgba[idx + 1] = 140;
                    rgba[idx + 2] = 0;
                } else {
                    rgba[idx] = 44;
                    rgba[idx + 1] = 62;
                    rgba[idx + 2] = 100;
                }
                rgba[idx + 3] = 255;
            }
        }
    }
    rgba
}

#[test]
fn icon_matches_float_drawing() {
    let icon = tray_icon_rgba();
    assert_eq!(icon.len(), 32 * 32 * 4);
    assert_eq!(icon, float_icon());
    // corners transparent, a left pixel orange, a right pixel blue
    assert_eq!(&icon[0..4], &[0, 0, 0, 0]);
    let i = (16 * 32 + 4) * 4;
    assert_eq!(&icon[i..i + 4], &[255, 140, 0, 255]);
    let i = (16 * 32 + 27) * 4;
    assert_eq!(&icon[i..i + 4], &[44, 62, 100, 255]);
}

#[test]
fn apply_methods_fall_back_in_order() {
    assert_eq!(first_method(true), ApplyMethod::ThemeManager);
    assert_eq!(first_method(false), ApplyMethod::Registry);
    assert_eq!(method_after_failure(ApplyMethod::ThemeManager, true), Some(ApplyMethod::ThemeFile));
    assert_eq!(method_after_failure(ApplyMethod::ThemeManager, false), Some(ApplyMethod::Registry));
    assert_eq!(method_after_failure(ApplyMethod::ThemeFile, true), Some(ApplyMethod::Registry));
    assert_eq!(method_after_failure(ApplyMethod::Registry, true), None);
    assert_eq!(ApplyMethod::ThemeManager.log_name(), "theme-manager2");
    assert_eq!(ApplyMethod::ThemeFile.log_name(), "theme-file");
    assert_eq!(ApplyMethod::Registry.log_name(), "registry");
}

#[test]
fn commit_watch_times_out_then_confirms() {
    let mut w = CommitWatch::start();
    let mut polls = 0;
    loop {
        polls += 1;
        match w.observe(Some(Theme::Light), Theme::Dark) {
            WatchStep::Continue(n) => w = n,
            WatchStep::TimedOut => break,
            other => panic!("unexpected {other:?}"),
        }
    }
    assert_eq!(polls, COMMIT_POLLS);
    let mut w = CommitWatch::confirming();
    assert_eq!(w.poll_interval_ms(), 100);
    let mut polls = 0;
    loop {
        polls += 1;
        match w.observe(None, Theme::Dark) {
            WatchStep::Continue(n) => w = n,
            WatchStep::FallbackDone(false) => break,
            other => panic!("unexpected {other:?}"),
        }
    }
    assert_eq!(polls, CONFIRM_POLLS);
    assert_eq!(CommitWatch::confirming().observe(Some(Theme::Dark), Theme::Dark), WatchStep::FallbackDone(true));
}

#[test]
fn commit_watch_stops_when_theme_shows() {
    let w = CommitWatch::start();
    assert_eq!(w.poll_interval_ms(), 200);
    assert_eq!(w.observe(Some(Theme::Dark), Theme::Dark), WatchStep::Committed);
}
