use kindle_dash::clock::Timestamp;
use kindle_dash::config::Config;
use kindle_dash::dash::{interruptible_sleep, Action, Dash, Event, ExitReason, Phase};
use kindle_dash::device::display::RefreshKind;
use kindle_dash::device::power::WakeReason;
use kindle_dash::device::Device;
use kindle_dash::logging::{verbosity, Sink, Verbosity};
use kindle_dash::setup::{
    config_path, debug_enabled, default_log_path, DeviceRestore, DeviceStep, Files,
};

// 2026-01-01 00:00:00 UTC.
const MIDNIGHT: i64 = 1_767_225_600;

fn at(secs: i64) -> Event {
    Event::Clock(Timestamp::new(MIDNIGHT + secs, 0).unwrap())
}

fn config(extra: &str) -> Config {
    let text = format!(
        "image_url = 'u'\nrefresh_schedule = '*/10 * * * *'\ntimezone = 'UTC'\n{extra}"
    );
    Config::from_toml(&text).unwrap()
}

/// Feeds events in turn and returns the action after each.
fn feed(dash: &mut Dash, config: &Config, events: &[Event]) -> Vec<Action> {
    let zone = config.tz().unwrap();
    let mut actions = Vec::new();
    for event in events {
        dash.step(config, &zone, *event);
        actions.push(dash.action(config));
    }
    actions
}

#[test]
fn dashboard_cycle() {
    let c = config("full_display_refresh_rate = 1");
    let mut dash = Dash::new(&c);
    assert_eq!(dash.action(&c), Action::CheckSignal);
    let cycle = [
        Event::Signal(false),
        Event::Battery(Some(11)),
        at(60),
        Event::Fetched(true),
        Event::Shown,
        Event::Delayed(false),
        at(75),
        Event::Woke(WakeReason::Timer),
    ];
    assert_eq!(
        feed(&mut dash, &c, &cycle),
        [
            Action::ReadBattery,
            Action::ReadClock,
            Action::Fetch,
            Action::ShowDashboard(RefreshKind::Partial),
            Action::Delay(10),
            Action::ReadClock,
            Action::Wait(525),
            Action::CheckSignal,
        ]
    );
    // The next refresh is a full one.
    let actions = feed(&mut dash, &c, &cycle);
    assert_eq!(actions[3], Action::ShowDashboard(RefreshKind::Full));
}

#[test]
fn failed_fetch_keeps_the_screen_and_the_cadence() {
    let c = config("full_display_refresh_rate = 1");
    let mut dash = Dash::new(&c);
    let before = dash.cycle;
    let actions = feed(
        &mut dash,
        &c,
        &[
            Event::Signal(false),
            Event::Battery(None),
            at(60),
            Event::Fetched(false),
            Event::Delayed(false),
            at(90),
        ],
    );
    assert_eq!(actions[3..], [Action::Delay(10), Action::ReadClock, Action::Wait(510)]);
    assert_eq!(dash.cycle, before);
}

#[test]
fn sleep_screen_from_the_interval_on() {
    // The next slot is exactly 540 s away.
    for (interval, expected) in [(541, Action::Fetch), (540, Action::ShowSleep)] {
        let c = config(&format!("sleep_screen_interval = {interval}"));
        let mut dash = Dash::new(&c);
        let actions =
            feed(&mut dash, &c, &[Event::Signal(false), Event::Battery(Some(50)), at(60)]);
        assert_eq!(actions[2], expected);
    }
}

#[test]
fn first_dashboard_after_the_sleep_screen_is_full() {
    let c = config("sleep_screen_interval = 540\nfull_display_refresh_rate = 5");
    let mut dash = Dash::new(&c);
    let actions = feed(
        &mut dash,
        &c,
        &[
            Event::Signal(false),
            Event::Battery(None),
            at(60),
            Event::Shown,
            Event::Delayed(false),
            at(75),
            Event::Woke(WakeReason::Timer),
            // A cycle whose fetch fails does not use up the full refresh.
            Event::Signal(false),
            Event::Battery(None),
            at(120),
            Event::Fetched(false),
            Event::Delayed(false),
            at(150),
            Event::Woke(WakeReason::PowerButtonRefresh),
            Event::Signal(false),
            Event::Battery(None),
            at(180),
            Event::Fetched(true),
        ],
    );
    assert_eq!(actions[2], Action::ShowSleep);
    assert_eq!(actions[17], Action::ShowDashboard(RefreshKind::Full));
}

#[test]
fn low_battery_goes_before_everything() {
    let c = config("sleep_screen_interval = 0\nfull_display_refresh_rate = 3");
    let mut dash = Dash::new(&c);
    let actions = feed(
        &mut dash,
        &c,
        &[
            Event::Signal(false),
            Event::Battery(Some(10)),
            at(60),
            Event::Shown,
            Event::Delayed(false),
            Event::Woke(WakeReason::PowerButtonRefresh),
        ],
    );
    assert_eq!(
        actions[2..],
        [
            Action::ShowLowBattery,
            Action::Delay(10),
            Action::Wait(3600),
            Action::CheckSignal
        ]
    );
    assert_eq!(dash.cycle.next_kind(), RefreshKind::Full);
}

#[test]
fn slot_that_passed_gives_a_negative_wait() {
    let c = config("");
    let mut dash = Dash::new(&c);
    let actions = feed(
        &mut dash,
        &c,
        &[
            Event::Signal(false),
            Event::Battery(None),
            at(590),
            Event::Fetched(false),
            Event::Delayed(false),
            at(608),
        ],
    );
    assert_eq!(actions[5], Action::Wait(-8));
}

#[test]
fn exits() {
    let c = config("");
    let mut dash = Dash::new(&c);
    assert_eq!(
        feed(&mut dash, &c, &[Event::Signal(true)]),
        [Action::Exit(ExitReason::Signal)]
    );
    let waiting = [
        Event::Signal(false),
        Event::Battery(None),
        at(60),
        Event::Fetched(false),
        Event::Delayed(false),
        at(60),
    ];
    for (reason, expected) in [
        (WakeReason::PowerButtonExit, Action::Exit(ExitReason::PowerButton)),
        (WakeReason::Signal, Action::Exit(ExitReason::Signal)),
        (WakeReason::PowerButtonRefresh, Action::CheckSignal),
        (WakeReason::Timer, Action::CheckSignal),
    ] {
        let mut dash = Dash::new(&c);
        feed(&mut dash, &c, &waiting);
        assert_eq!(feed(&mut dash, &c, &[Event::Woke(reason)]), [expected]);
    }
    let mut dash = Dash::new(&c);
    feed(&mut dash, &c, &waiting[..4]);
    assert_eq!(
        feed(&mut dash, &c, &[Event::Delayed(true), Event::Signal(false)]),
        [Action::Exit(ExitReason::Signal), Action::Exit(ExitReason::Signal)]
    );
}

#[test]
fn schedule_that_fails_stops_the_loop() {
    let mut c = config("");
    c.refresh_schedule = "nope".to_string();
    let mut dash = Dash::new(&c);
    let actions = feed(&mut dash, &c, &[Event::Signal(false), Event::Battery(None), at(0)]);
    assert_eq!(actions[2], Action::Fail);
    assert!(matches!(&dash.phase, Phase::Unscheduled(e) if e.schedule == "nope"));
}

#[test]
fn delay_naps_add_up() {
    for secs in [0u64, 1, 5, 6, 17] {
        let mut remaining = secs;
        let mut slept = 0;
        while let Some(nap) = interruptible_sleep(remaining, false) {
            assert!(nap <= 5);
            remaining -= nap;
            slept += nap;
        }
        assert_eq!(slept, secs);
        assert_eq!(interruptible_sleep(secs, true), None);
    }
}

#[test]
fn log_sinks() {
    let sink = |value| Sink::from_config(value, "/base", "/base/default.log".to_string());
    assert!(matches!(sink(None), Sink::File(p) if p == "/base/default.log"));
    assert!(matches!(sink(Some("null")), Sink::Null));
    assert!(matches!(sink(Some("stdout")), Sink::Stdout));
    assert!(matches!(sink(Some("stderr")), Sink::Stderr));
    assert!(matches!(sink(Some("my.log")), Sink::File(p) if p == "/base/my.log"));
    assert!(matches!(sink(Some("/var/my.log")), Sink::File(p) if p == "/var/my.log"));
    assert!(matches!(sink(Some("NULL")), Sink::File(p) if p == "/base/NULL"));
    assert_eq!(verbosity(true), Verbosity::Debug);
    assert_eq!(verbosity(false), Verbosity::Info);
}

#[test]
fn files_of_a_run() {
    let files = Files::resolve(&config(""), "/mnt/us/kindle-dash", Device::Voyage);
    assert_eq!(files.scratch_dir, "/tmp");
    assert_eq!(files.dash_png, "/tmp/dash.png");
    assert_eq!(files.sleeping_png, "/mnt/us/kindle-dash/assets/1448x1072/sleeping.png");
    assert_eq!(files.low_battery_png, "/mnt/us/kindle-dash/assets/1448x1072/low-battery.png");
    let c = config("assets_dir = 'pics/'\nscratch_dir = '/run'");
    let files = Files::resolve(&c, "/base", Device::Voyage);
    assert_eq!(files.dash_png, "/run/dash.png");
    assert_eq!(files.sleeping_png, "pics/sleeping.png");
    assert_eq!(config_path(Some("/etc/dash.toml"), "/base"), "/etc/dash.toml");
    assert_eq!(config_path(None, "/base"), "/base/config.toml");
    assert_eq!(default_log_path("/base"), "/base/kindle-dash.log");
    assert!(debug_enabled(Some("true")));
    assert!(!debug_enabled(Some("1")));
    assert!(!debug_enabled(None));
}

fn describe(steps: Vec<DeviceStep>) -> Vec<String> {
    steps
        .into_iter()
        .map(|step| match step {
            DeviceStep::Run(c) => format!("{} {}", c.program, c.args.join(" ")),
            DeviceStep::Write(w) => format!("{} > {}", w.text, w.path),
            DeviceStep::Pause(secs) => format!("pause {secs}"),
        })
        .collect()
}

#[test]
fn device_is_taken_over_and_given_back() {
    let governor = "/sys/devices/system/cpu/cpu0/cpufreq/scaling_governor";
    let (restore, steps) = DeviceRestore::engage(Device::Voyage, Some("ondemand".to_string()));
    assert_eq!(
        describe(steps),
        [
            "/sbin/stop framework".to_string(),
            format!("powersave > {governor}"),
            "lipc-set-prop com.lab126.powerd preventScreenSaver 1".to_string(),
        ]
    );
    assert_eq!(
        describe(restore.release()),
        [
            "lipc-set-prop com.lab126.powerd preventScreenSaver 0".to_string(),
            format!("ondemand > {governor}"),
            "/sbin/start framework".to_string(),
            "pause 5".to_string(),
            "lipc-set-prop com.lab126.appmgrd start app://com.lab126.booklet.home".to_string(),
        ]
    );
    let (restore, _) = DeviceRestore::engage(Device::Voyage, None);
    assert_eq!(restore.release().len(), 4);
}
