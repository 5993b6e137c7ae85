use win_theme_switcher::config::{
    config_from_parse, plan_config_load, Config, ConfigLoadStep, ConfigRead,
};
use win_theme_switcher::session::{
    instance_verdict, refresh_plan, startup_plan, wait_ms, InstanceVerdict,
};

fn located(lat: f64, lon: f64) -> Config {
    Config {
        latitude_bits: lat.to_bits(),
        longitude_bits: lon.to_bits(),
        ..Config::default()
    }
}

#[test]
fn defaults_have_no_location_and_auto_start() {
    let cfg = Config::default();
    assert!(!cfg.has_location());
    assert!(cfg.auto_start);
    assert_eq!(cfg.theme_day, None);
    assert_eq!(cfg.theme_night, None);
}

#[test]
fn location_is_set_unless_both_coordinates_are_zero() {
    assert!(located(24.753, 46.765).has_location());
    assert!(located(1.0, 0.0).has_location());
    assert!(located(0.0, -171.77).has_location());
    assert!(!located(0.0, 0.0).has_location());
    assert!(!located(-0.0, 0.0).has_location());
    assert!(!located(-0.0, -0.0).has_location());
    assert!(located(f64::NAN, 0.0).has_location());
}

#[test]
fn blank_file_heals_missing_file_creates() {
    assert_eq!(plan_config_load(&ConfigRead::Text("  \n".into())), ConfigLoadStep::HealWithDefaults);
    assert_eq!(plan_config_load(&ConfigRead::Text(String::new())), ConfigLoadStep::HealWithDefaults);
    assert_eq!(plan_config_load(&ConfigRead::Missing), ConfigLoadStep::CreateDefaults);
}

#[test]
fn nonblank_file_is_parsed_never_rewritten() {
    let json = r#"{"latitude": 24.7, "longitude": 46.7, "theme_night": "C:\Tools\night.theme"}"#;
    assert_eq!(plan_config_load(&ConfigRead::Text(json.into())), ConfigLoadStep::Parse);
}

#[test]
fn errors_carry_their_cause() {
    assert_eq!(
        plan_config_load(&ConfigRead::Unreadable("access denied".into())),
        ConfigLoadStep::Fail("config.json could not be read: access denied".into())
    );
    assert_eq!(
        config_from_parse(Err("expected value at line 1 column 1".into())).unwrap_err(),
        "config.json is not valid JSON: expected value at line 1 column 1"
    );
    let cfg = located(1.0, 2.0);
    let back = config_from_parse(Ok(cfg.clone())).unwrap();
    assert_eq!(back.latitude_bits, cfg.latitude_bits);
}

#[test]
fn broken_file_leaves_session_read_only() {
    let p = startup_plan(Err("bad".into()));
    assert!(!p.writable);
    assert_eq!(p.error.as_deref(), Some("bad"));
    assert!(!p.config.has_location());
    assert!(p.config.auto_start);

    let good = located(24.753, 46.765);
    let p = refresh_plan(good.clone(), Err("bad".into()));
    assert!(!p.writable);
    assert_eq!(p.config.latitude_bits, good.latitude_bits);

    let p = refresh_plan(Config::default(), Ok(good.clone()));
    assert!(p.writable);
    assert!(p.error.is_none());
    assert!(p.config.has_location());
}

#[test]
fn waits_until_deadline_or_one_second() {
    assert_eq!(wait_ms(1_000, 61_000), 60_000);
    assert_eq!(wait_ms(5, 5), 0);
    assert_eq!(wait_ms(10, 9), 1_000);
    assert_eq!(wait_ms(i64::MIN, i64::MAX), u64::MAX);
}

#[test]
fn single_instance_decisions() {
    assert_eq!(instance_verdict(true, false), InstanceVerdict::Run);
    assert_eq!(instance_verdict(true, true), InstanceVerdict::Exit);
    assert_eq!(instance_verdict(false, false), InstanceVerdict::RunUnguarded);
    assert_eq!(instance_verdict(false, true), InstanceVerdict::RunUnguarded);
}
