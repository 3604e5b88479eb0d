use kindle_dash::device::battery::parse_battery;
use kindle_dash::device::display::{RefreshCycle, RefreshKind};
use kindle_dash::device::sys;
use kindle_dash::device::{
    clean_serial, detect, detect_from_cpuinfo, detect_from_usid, match_device,
    parse_cpuinfo_serial, parse_override, DetectError, Detection, Device,
};

#[test]
fn parses_percentage_forms() {
    assert_eq!(parse_battery("83%"), Some(83));
    assert_eq!(parse_battery("7"), Some(7));
    assert_eq!(parse_battery("  100% "), Some(100));
    assert_eq!(parse_battery("0%"), Some(0));
}

#[test]
fn rejects_non_numeric() {
    assert_eq!(parse_battery("garbage"), None);
    assert_eq!(parse_battery(""), None);
    assert_eq!(parse_battery("300"), None);
}

#[test]
fn battery_charge_stays_within_a_hundred_percent() {
    assert_eq!(parse_battery("101"), None);
    assert_eq!(parse_battery("255%"), None);
    assert_eq!(parse_battery("42 %%"), Some(42));
    assert_eq!(parse_battery("%42"), None);
}

#[test]
fn battery_is_queried_from_powerd() {
    let query = Device::Voyage.battery_query();
    assert_eq!(query.program, "lipc-get-prop");
    assert_eq!(query.args, ["com.lab126.powerd", "battLevel"]);
    assert_eq!(Device::Voyage.battery_percent(Some("55%")), Some(55));
    assert_eq!(Device::Voyage.battery_percent(Some("?")), None);
    assert_eq!(Device::Voyage.battery_percent(None), None);
}

#[test]
fn full_refresh_after_configured_partials() {
    let mut c = RefreshCycle::new(2);
    assert_eq!(c.next_kind(), RefreshKind::Partial);
    assert_eq!(c.next_kind(), RefreshKind::Partial);
    assert_eq!(c.next_kind(), RefreshKind::Full);
    assert_eq!(c.next_kind(), RefreshKind::Partial);
    assert_eq!(c.next_kind(), RefreshKind::Partial);
    assert_eq!(c.next_kind(), RefreshKind::Full);
}

#[test]
fn zero_rate_means_every_refresh_is_full() {
    let mut c = RefreshCycle::new(0);
    assert_eq!(c.next_kind(), RefreshKind::Full);
    assert_eq!(c.next_kind(), RefreshKind::Full);
}

#[test]
fn force_full_next_overrides_partial() {
    let mut c = RefreshCycle::new(4);
    assert_eq!(c.next_kind(), RefreshKind::Partial);
    c.force_full_next();
    assert_eq!(c.next_kind(), RefreshKind::Full);
}

#[test]
fn cadence_follows_the_position_formula() {
    for rate in 0..6u32 {
        let mut c = RefreshCycle::new(rate);
        for n in 0..40u32 {
            let full = (n + 1) % (rate + 1) == 0;
            assert_eq!(c.next_kind() == RefreshKind::Full, full);
        }
        c.force_full_next();
        assert_eq!(c.next_kind(), RefreshKind::Full);
        for n in 0..20u32 {
            let full = (n + 1) % (rate + 1) == 0;
            assert_eq!(c.next_kind() == RefreshKind::Full, full);
        }
    }
}

#[test]
fn rendering_commands() {
    let d = Device::Voyage;
    let full = d.render_dashboard("/tmp/dash.png", RefreshKind::Full);
    assert_eq!(full.program, "/usr/sbin/eips");
    assert_eq!(full.args, ["-f", "-g", "/tmp/dash.png"]);
    let partial = d.render_dashboard("/tmp/dash.png", RefreshKind::Partial);
    assert_eq!(partial.args, ["-g", "/tmp/dash.png"]);
    let (sleeping, settle) = d.render_sleeping("/a/sleeping.png");
    assert_eq!(sleeping.args, ["-f", "-g", "/a/sleeping.png"]);
    assert_eq!(settle, 2);
    let (low, settle) = d.render_low_battery("/a/low-battery.png");
    assert_eq!(low.args, ["-f", "-g", "/a/low-battery.png"]);
    assert_eq!(settle, 2);
}

#[test]
fn matches_voyage_by_embedded_code() {
    assert_eq!(match_device("G090B013XXXXXXXX"), Some(Device::Voyage));
    assert_eq!(match_device("B053ABCDEF012345"), Some(Device::Voyage));
    assert_eq!(match_device("90540000ABCDEF01"), Some(Device::Voyage));
}

#[test]
fn rejects_non_voyage_serial() {
    assert_eq!(match_device("G000GGGG11112222"), None);
}

#[test]
fn serial_case_does_not_matter() {
    assert_eq!(match_device("g090b02axxxxxxxx"), Some(Device::Voyage));
    assert_eq!(match_device("b04f"), Some(Device::Voyage));
    // One character whose upper case is several letters.
    assert_eq!(match_device("b04\u{fb01}"), Some(Device::Voyage));
    assert_eq!(match_device(""), None);
}

#[test]
fn override_parsing() {
    assert_eq!(parse_override("voyage").unwrap(), Device::Voyage);
    assert_eq!(parse_override("Voyage").unwrap(), Device::Voyage);
    assert!(parse_override("paperwhite").is_err());
}

#[test]
fn refused_override_is_reported_in_lower_case() {
    match parse_override("PaperWhite") {
        Err(DetectError::UnsupportedOverride(other)) => assert_eq!(other, "paperwhite"),
        other => panic!("{other:?}"),
    }
}

#[test]
fn parses_quoted_serial_from_real_cpuinfo() {
    let cpuinfo = "processor\t: 0\nHardware\t: Kindle\nSerial\t\t: \"90130907612700GM\"\n";
    let serial = parse_cpuinfo_serial(cpuinfo).unwrap();
    assert_eq!(serial, "90130907612700GM");
    assert_eq!(match_device(&serial), Some(Device::Voyage));
}

#[test]
fn cpuinfo_without_serial_is_none() {
    assert_eq!(
        parse_cpuinfo_serial("processor\t: 0\nHardware\t: Kindle\n"),
        None
    );
    assert_eq!(parse_cpuinfo_serial("Serial\t\t: \n"), None);
}

#[test]
fn only_the_first_serial_line_counts() {
    assert_eq!(parse_cpuinfo_serial("Serial:\nSerial: B013\n"), None);
    assert_eq!(
        parse_cpuinfo_serial("no colon\nSerial: a:b\nSerial: c"),
        Some("a:b".to_string())
    );
    assert_eq!(clean_serial(" \" B013 \" \n"), "B013");
}

#[test]
fn detection_goes_from_override_to_service_to_cpuinfo() {
    assert!(matches!(detect(Some("VOYAGE")), Detection::Settled(Ok(Device::Voyage))));
    assert!(matches!(
        detect(Some("oasis")),
        Detection::Settled(Err(DetectError::UnsupportedOverride(_)))
    ));
    match detect(None) {
        Detection::QuerySystem(c) => {
            assert_eq!(c.program, "lipc-get-prop");
            assert_eq!(c.args, ["com.lab126.system", "usid"]);
        }
        other => panic!("{other:?}"),
    }
    assert!(matches!(
        detect_from_usid(Some("90130907612700GM")),
        Detection::Settled(Ok(Device::Voyage))
    ));
    match detect_from_usid(Some("G000")) {
        Detection::Settled(Err(DetectError::UnsupportedDevice(serial))) => {
            assert_eq!(serial, "G000")
        }
        other => panic!("{other:?}"),
    }
    assert!(matches!(detect_from_usid(Some(" \"\" ")), Detection::ReadCpuinfo));
    assert!(matches!(detect_from_usid(None), Detection::ReadCpuinfo));
    assert_eq!(detect_from_cpuinfo(Some("Serial : \"B054\"")).unwrap(), Device::Voyage);
    assert!(matches!(
        detect_from_cpuinfo(Some("Serial : X")),
        Err(DetectError::UnsupportedDevice(_))
    ));
    assert!(matches!(detect_from_cpuinfo(Some("x")), Err(DetectError::NoSerialLine)));
    assert!(matches!(detect_from_cpuinfo(None), Err(DetectError::CpuinfoUnreadable)));
}

#[test]
fn device_properties() {
    let d = Device::Voyage;
    assert_eq!(d.resolution(), "1448x1072");
    assert_eq!(
        d.rtc_wakealarm_paths(),
        ["/sys/class/rtc/rtc0/wakealarm", "/sys/class/rtc/rtc1/wakealarm"]
    );
    assert_eq!(d.framework_service(), "framework");
    assert_eq!(d.stop_framework().program, "/sbin/stop");
    assert_eq!(d.start_framework().program, "/sbin/start");
    assert_eq!(d.start_framework().args, ["framework"]);
    assert_eq!(
        d.prevent_screensaver(true).args,
        ["com.lab126.powerd", "preventScreenSaver", "1"]
    );
    assert_eq!(
        d.prevent_screensaver(false).args,
        ["com.lab126.powerd", "preventScreenSaver", "0"]
    );
    assert_eq!(
        d.launch_home().args,
        ["com.lab126.appmgrd", "start", "app://com.lab126.booklet.home"]
    );
    assert_eq!(d.read_cpu_governor(Some("ondemand\n")).as_deref(), Some("ondemand"));
    assert_eq!(d.read_cpu_governor(None), None);
    let write = d.set_cpu_governor("ondemand");
    assert_eq!(write.path, "/sys/devices/system/cpu/cpu0/cpufreq/scaling_governor");
    assert_eq!(write.text, "ondemand");
    assert_eq!(sys::run(true, " out\n"), Some("out"));
    assert_eq!(sys::run(false, "out"), None);
}
