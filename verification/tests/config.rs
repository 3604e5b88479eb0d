use kindle_dash::clock::Timestamp;
use kindle_dash::config::{Config, ConfigError, Item};

const MINIMAL: &str = r#"
        image_url = "https://example.com/dash.png"
        refresh_schedule = "2,32 8-17 * * MON-FRI"
        timezone = "Europe/Amsterdam"
    "#;

fn error(text: &str) -> ConfigError {
    Config::from_toml(text).unwrap_err()
}

#[test]
fn parses_minimal_config_with_defaults() {
    let c = Config::from_toml(MINIMAL).unwrap();
    assert_eq!(c.image_url, "https://example.com/dash.png");
    assert_eq!(c.full_display_refresh_rate, 0);
    assert_eq!(c.sleep_screen_interval, 3600);
    assert_eq!(c.wifi_timeout_secs, 30);
    assert_eq!(c.low_battery_pct, 10);
    assert_eq!(c.low_battery_sleep_secs, 3600);
}

#[test]
fn remaining_defaults() {
    let c = Config::from_toml(MINIMAL).unwrap();
    assert_eq!(c.refresh_schedule, "2,32 8-17 * * MON-FRI");
    assert_eq!(c.timezone, "Europe/Amsterdam");
    assert_eq!(c.pre_suspend_delay_secs, 10);
    assert_eq!(c.log, None);
    assert_eq!(c.assets_dir, None);
    assert_eq!(c.scratch_dir, None);
    assert_eq!(c.tz().unwrap().name(), "Europe/Amsterdam");
    assert!(c.validate().is_ok());
}

#[test]
fn rejects_missing_required_field() {
    let text = r#"refresh_schedule = "* * * * *"
                      timezone = "UTC""#;
    assert!(Config::from_toml(text).is_err());
}

#[test]
fn rejects_invalid_timezone() {
    let text = r#"image_url = "https://x/y.png"
                      refresh_schedule = "* * * * *"
                      timezone = "Mars/Phobos""#;
    assert!(Config::from_toml(text).is_err());
}

#[test]
fn rejects_invalid_schedule() {
    let text = r#"image_url = "https://x/y.png"
                      refresh_schedule = "not a cron"
                      timezone = "UTC""#;
    assert!(Config::from_toml(text).is_err());
}

#[test]
fn rejects_unknown_field() {
    let text = format!("{MINIMAL}\nbogus_key = 1\n");
    assert!(Config::from_toml(&text).is_err());
}

#[test]
fn rejects_negative_sleep_screen_interval() {
    let text = format!("{MINIMAL}\nsleep_screen_interval = -1\n");
    assert!(Config::from_toml(&text).is_err());
}

#[test]
fn rejects_out_of_range_low_battery_pct() {
    let text = format!("{MINIMAL}\nlow_battery_pct = 150\n");
    assert!(Config::from_toml(&text).is_err());
}

#[test]
fn rejects_non_positive_low_battery_sleep() {
    let text = format!("{MINIMAL}\nlow_battery_sleep_secs = 0\n");
    assert!(Config::from_toml(&text).is_err());
}

#[test]
fn every_setting_is_read() {
    let text = format!(
        "{MINIMAL}
        full_display_refresh_rate = 4
        sleep_screen_interval = 0
        wifi_timeout_secs = 60
        pre_suspend_delay_secs = 0
        low_battery_pct = 100
        low_battery_sleep_secs = 1
        log = 'stderr'
        assets_dir = '/mnt/a'
        scratch_dir = '/var/tmp'"
    );
    let c = Config::from_toml(&text).unwrap();
    assert_eq!(c.full_display_refresh_rate, 4);
    assert_eq!(c.sleep_screen_interval, 0);
    assert_eq!(c.wifi_timeout_secs, 60);
    assert_eq!(c.pre_suspend_delay_secs, 0);
    assert_eq!(c.low_battery_pct, 100);
    assert_eq!(c.low_battery_sleep_secs, 1);
    assert_eq!(c.log.as_deref(), Some("stderr"));
    assert_eq!(c.assets_dir.as_deref(), Some("/mnt/a"));
    assert_eq!(c.scratch_dir.as_deref(), Some("/var/tmp"));
}

#[test]
fn each_fault_is_reported() {
    assert!(matches!(error("image_url = "), ConfigError::Syntax(_)));
    assert!(matches!(error("a = 1\na = 2"), ConfigError::Syntax(_)));
    match error(&format!("{MINIMAL}\nbogus = 1\n")) {
        ConfigError::UnknownField(name) => assert_eq!(name, "bogus"),
        other => panic!("{other:?}"),
    }
    match error(&format!("{MINIMAL}\n[table]\nx = 1\n")) {
        ConfigError::UnknownField(name) => assert_eq!(name, "table"),
        other => panic!("{other:?}"),
    }
    match error("") {
        ConfigError::MissingField(name) => assert_eq!(name, "image_url"),
        other => panic!("{other:?}"),
    }
    for (line, field) in [
        ("full_display_refresh_rate = -1", "full_display_refresh_rate"),
        ("full_display_refresh_rate = 4294967296", "full_display_refresh_rate"),
        ("wifi_timeout_secs = -1", "wifi_timeout_secs"),
        ("wifi_timeout_secs = 1.5", "wifi_timeout_secs"),
        ("pre_suspend_delay_secs = true", "pre_suspend_delay_secs"),
        ("low_battery_pct = 256", "low_battery_pct"),
        ("low_battery_sleep_secs = '1'", "low_battery_sleep_secs"),
        ("log = 1", "log"),
        ("assets_dir = 1979-05-27", "assets_dir"),
        ("scratch_dir = []", "scratch_dir"),
    ] {
        match error(&format!("{MINIMAL}\n{line}\n")) {
            ConfigError::BadValue(name) => assert_eq!(name, field),
            other => panic!("{other:?}"),
        }
    }
    let with = |url: &str, schedule: &str, zone: &str| {
        format!("image_url = '{url}'\nrefresh_schedule = '{schedule}'\ntimezone = '{zone}'")
    };
    assert!(matches!(error(&with(" \t", "bad", "bad")), ConfigError::EmptyImageUrl));
    match error(&with("u", "bad", "Mars/Phobos")) {
        ConfigError::UnknownTimezone(name) => assert_eq!(name, "Mars/Phobos"),
        other => panic!("{other:?}"),
    }
    match error(&with("u", "not a cron", "UTC")) {
        ConfigError::BadSchedule(e) => assert_eq!(e.schedule, "not a cron"),
        other => panic!("{other:?}"),
    }
    assert!(matches!(
        error(&format!("{MINIMAL}\nsleep_screen_interval = -1\nlow_battery_pct = 101")),
        ConfigError::NegativeSleepScreenInterval
    ));
    assert!(matches!(
        error(&format!("{MINIMAL}\nlow_battery_pct = 101\nlow_battery_sleep_secs = 0")),
        ConfigError::LowBatteryPctTooHigh
    ));
    assert!(matches!(
        error(&format!("{MINIMAL}\nlow_battery_sleep_secs = 0")),
        ConfigError::LowBatterySleepTooShort
    ));
}

/// What is reported of a text with several faults.
fn reported(text: &str) -> String {
    match error(text) {
        ConfigError::UnknownField(name) => format!("unknown {name}"),
        ConfigError::MissingField(name) => format!("missing {name}"),
        ConfigError::BadValue(name) => format!("bad {name}"),
        other => panic!("{other:?}"),
    }
}

#[test]
fn first_bad_entry_of_the_document_is_reported() {
    // The order of the document decides, not that of the names or of the kinds of fault.
    assert_eq!(reported("wifi_timeout_secs = 'x'\nbogus = 1"), "bad wifi_timeout_secs");
    assert_eq!(reported("bogus = 1\nwifi_timeout_secs = 'x'"), "unknown bogus");
    assert_eq!(reported("zzz = 1\naaa = 1"), "unknown zzz");
    assert_eq!(reported("timezone = 1\nimage_url = 1"), "bad timezone");
    assert_eq!(reported("log = 1\n[table]\nx = 1"), "bad log");
    assert_eq!(reported("low_battery_pct = 256\nlog = 1"), "bad low_battery_pct");
    // What is missing comes after every bad entry, in the order of the settings.
    assert_eq!(reported("refresh_schedule = '* * * * *'\nbogus = 1"), "unknown bogus");
    assert_eq!(reported("image_url = 'u'"), "missing refresh_schedule");
    assert_eq!(reported("refresh_schedule = 'r'\nimage_url = 'u'"), "missing timezone");
}

#[test]
fn entries_are_read_without_a_text() {
    let now = Timestamp::new(1_767_225_600, 0).unwrap();
    let text = |s: &str| Item::Text(s.to_string());
    let mut entries = vec![
        ("image_url".to_string(), text("u")),
        ("refresh_schedule".to_string(), text("* * * * *")),
        ("timezone".to_string(), text("UTC")),
        ("low_battery_pct".to_string(), Item::Integer(7)),
    ];
    assert_eq!(Config::from_entries(&entries, &now).unwrap().low_battery_pct, 7);
    entries.push(("log".to_string(), Item::Other));
    assert!(matches!(
        Config::from_entries(&entries, &now),
        Err(ConfigError::BadValue(_))
    ));
}
