//! Start and end of a run: where files lie, and how the device is taken over and given back.
use vstd::prelude::*;

use crate::config::Config;
use crate::device::power::{governor_write, home_command, screensaver_command};
use crate::device::sys::{Command, CommandView, FileWrite, FileWriteView};
use crate::device::Device;
use crate::paths::{join, joined};
use crate::text::text_eq;

verus! {

/// The governor under which the dashboard runs.
pub const DASHBOARD_GOVERNOR: &'static str = "powersave";

/// Seconds for which the restarted UI comes up before it is asked to show Home.
pub const FRAMEWORK_START_SECS: u64 = 5;

/// Whether the environment asks for debugging: the variable holds `true`.
pub fn debug_enabled(variable: Option<&str>) -> (debug: bool)
    ensures
        debug <==> (variable matches Some(v) && v@ == "true"@),
{
    match variable {
        Some(v) => text_eq(v, "true"),
        None => false,
    }
}

/// The configuration file: the one that the environment names, or `config.toml` in `base`.
pub fn config_path(variable: Option<&str>, base: &str) -> (path: String)
    ensures
        path@ == match variable {
            Some(v) => v@,
            None => joined(base@, "config.toml"@),
        },
{
    match variable {
        Some(v) => v.to_string(),
        None => join(base, "config.toml"),
    }
}

/// The log file where no other sink is configured.
pub fn default_log_path(base: &str) -> (path: String)
    ensures
        path@ == joined(base@, "kindle-dash.log"@),
{
    join(base, "kindle-dash.log")
}

/// The files of a run.
#[derive(Debug)]
pub struct Files {
    /// The directory for fetched images.
    pub scratch_dir: String,
    /// The fetched dashboard image.
    pub dash_png: String,
    /// The sleep screen.
    pub sleeping_png: String,
    /// The low-battery screen.
    pub low_battery_png: String,
}

/// The directory of the bundled images: the configured one, or the one for the resolution of
/// the device next to the binary.
pub open spec fn assets_dir(configured: Option<Seq<char>>, base: Seq<char>, device: Device) -> Seq<
    char,
> {
    match configured {
        Some(dir) => dir,
        None => joined(joined(base, "assets"@), device.resolution_text()),
    }
}

/// The directory for fetched images: the configured one, or `/tmp`, which is held in memory.
pub open spec fn scratch_dir(configured: Option<Seq<char>>) -> Seq<char> {
    match configured {
        Some(dir) => dir,
        None => "/tmp"@,
    }
}

impl Files {
    /// Works out where the files of a run lie.
    pub fn resolve(config: &Config, base: &str, device: Device) -> (files: Files)
        ensures
            files.scratch_dir@ == scratch_dir(config@.scratch_dir),
            files.dash_png@ == joined(scratch_dir(config@.scratch_dir), "dash.png"@),
            files.sleeping_png@ == joined(
                assets_dir(config@.assets_dir, base@, device),
                "sleeping.png"@,
            ),
            files.low_battery_png@ == joined(
                assets_dir(config@.assets_dir, base@, device),
                "low-battery.png"@,
            ),
    {
        let assets: String = match &config.assets_dir {
            Some(dir) => dir.clone(),
            None => join(join(base, "assets").as_str(), device.resolution()),
        };
        let scratch: String = match &config.scratch_dir {
            Some(dir) => dir.clone(),
            None => "/tmp".to_string(),
        };
        let dash_png = join(scratch.as_str(), "dash.png");
        let sleeping_png = join(assets.as_str(), "sleeping.png");
        let low_battery_png = join(assets.as_str(), "low-battery.png");
        Files { scratch_dir: scratch, dash_png, sleeping_png, low_battery_png }
    }
}

/// One step in taking over or giving back the device.
#[derive(Debug)]
pub enum DeviceStep {
    Run(Command),
    Write(FileWrite),
    Pause(u64),
}

/// What a [`DeviceStep`] does.
pub enum Step {
    Run(CommandView),
    Write(FileWriteView),
    Pause(nat),
}

impl View for DeviceStep {
    type V = Step;

    open spec fn view(&self) -> Step {
        match self {
            DeviceStep::Run(c) => Step::Run(c@),
            DeviceStep::Write(w) => Step::Write(w@),
            DeviceStep::Pause(secs) => Step::Pause(*secs as nat),
        }
    }
}

pub open spec fn steps(list: Seq<DeviceStep>) -> Seq<Step> {
    list.map_values(|s: DeviceStep| s@)
}

/// What taking over the device consists of: the UI stops, the CPU slows down, and the
/// screensaver is suppressed.
pub open spec fn takeover(device: Device) -> Seq<Step> {
    seq![
        Step::Run(device.stop_command()),
        Step::Write(governor_write(DASHBOARD_GOVERNOR@)),
        Step::Run(screensaver_command(true)),
    ]
}

/// What giving back the device consists of. A governor that could not be read at the start is
/// left as it is.
pub open spec fn handback(device: Device, governor: Option<Seq<char>>) -> Seq<Step> {
    seq![Step::Run(screensaver_command(false))] + match governor {
        Some(g) => seq![Step::Write(governor_write(g))],
        None => Seq::<Step>::empty(),
    } + seq![
        Step::Run(device.start_command()),
        Step::Pause(FRAMEWORK_START_SECS as nat),
        Step::Run(home_command()),
    ]
}

/// What it takes to give back a device that was taken over.
#[derive(Debug)]
pub struct DeviceRestore {
    pub device: Device,
    /// The governor before the takeover, where it could be read.
    pub governor: Option<String>,
}

impl DeviceRestore {
    /// Takes over a device whose governor was read beforehand: the steps to perform, and what it
    /// takes to undo them.
    pub fn engage(device: Device, governor: Option<String>) -> (r: (DeviceRestore, Vec<DeviceStep>))
        ensures
            r.0.device == device,
            r.0.governor == governor,
            steps(r.1@) == takeover(device),
    {
        let list: Vec<DeviceStep> = vec![
            DeviceStep::Run(device.stop_framework()),
            DeviceStep::Write(device.set_cpu_governor(DASHBOARD_GOVERNOR)),
            DeviceStep::Run(device.prevent_screensaver(true)),
        ];
        assert(steps(list@) =~= takeover(device));
        (DeviceRestore { device, governor }, list)
    }

    /// The steps that give back the device.
    pub fn release(&self) -> (list: Vec<DeviceStep>)
        ensures
            steps(list@) == handback(self.device, crate::config::optional_text(self.governor)),
    {
        let mut list: Vec<DeviceStep> = Vec::new();
        list.push(DeviceStep::Run(self.device.prevent_screensaver(false)));
        if let Some(g) = &self.governor {
            list.push(DeviceStep::Write(self.device.set_cpu_governor(g.as_str())));
        }
        list.push(DeviceStep::Run(self.device.start_framework()));
        list.push(DeviceStep::Pause(FRAMEWORK_START_SECS));
        list.push(DeviceStep::Run(self.device.launch_home()));
        assert(steps(list@) =~= handback(
            self.device,
            crate::config::optional_text(self.governor),
        ));
        list
    }
}

/// The condition of a device, as far as a run changes it.
pub struct Condition {
    pub framework_runs: bool,
    pub governor: Seq<char>,
    pub screensaver_prevented: bool,
}

/// The condition once a step was performed.
pub open spec fn performed(device: Device, before: Condition, step: Step) -> Condition {
    if step == Step::Run(device.stop_command()) {
        Condition { framework_runs: false, ..before }
    } else if step == Step::Run(device.start_command()) {
        Condition { framework_runs: true, ..before }
    } else if step == Step::Run(screensaver_command(true)) {
        Condition { screensaver_prevented: true, ..before }
    } else if step == Step::Run(screensaver_command(false)) {
        Condition { screensaver_prevented: false, ..before }
    } else {
        match step {
            Step::Write(w) if w == governor_write(w.text) => Condition {
                governor: w.text,
                ..before
            },
            _ => before,
        }
    }
}

/// The condition once a list of steps was performed in order.
pub open spec fn performed_all(device: Device, before: Condition, list: Seq<Step>) -> Condition
    decreases list.len(),
{
    if list.len() == 0 {
        before
    } else {
        performed(device, performed_all(device, before, list.drop_last()), list.last())
    }
}

/// The commands that change the condition of a device are all different.
proof fn lemma_commands_differ(device: Device)
    ensures
        device.stop_command() != device.start_command(),
        device.stop_command() != screensaver_command(true),
        device.stop_command() != screensaver_command(false),
        device.start_command() != screensaver_command(true),
        device.start_command() != screensaver_command(false),
        screensaver_command(true) != screensaver_command(false),
        home_command() != device.stop_command(),
        home_command() != device.start_command(),
        home_command() != screensaver_command(true),
        home_command() != screensaver_command(false),
{
    reveal_strlit("/sbin/stop");
    reveal_strlit("/sbin/start");
    reveal_strlit("lipc-set-prop");
    reveal_strlit("0");
    reveal_strlit("1");
    reveal_strlit("start");
    reveal_strlit("preventScreenSaver");
    assert("/sbin/stop"@.len() != "/sbin/start"@.len());
    assert("/sbin/stop"@.len() != "lipc-set-prop"@.len());
    assert("/sbin/start"@.len() != "lipc-set-prop"@.len());
    assert("0"@[0] != "1"@[0]);
    assert(screensaver_command(true).args[2] == "1"@);
    assert(screensaver_command(false).args[2] == "0"@);
    assert("start"@.len() != "preventScreenSaver"@.len());
    assert(home_command().args[1] == "start"@);
    assert(screensaver_command(true).args[1] == "preventScreenSaver"@);
    assert(screensaver_command(false).args[1] == "preventScreenSaver"@);
}

/// Giving back a device undoes taking it over: the UI runs again, the screensaver is allowed
/// again, and the governor is the one that was read beforehand.
pub proof fn law_handback_undoes_takeover(device: Device, before: Condition)
    requires
        before.framework_runs,
        !before.screensaver_prevented,
    ensures
        performed_all(
            device,
            performed_all(device, before, takeover(device)),
            handback(device, Some(before.governor)),
        ) == before,
{
    lemma_commands_differ(device);
    lemma_performed_three(device, before, takeover(device));
    let taken = performed_all(device, before, takeover(device));
    assert(taken == (Condition {
        framework_runs: false,
        governor: DASHBOARD_GOVERNOR@,
        screensaver_prevented: true,
    }));
    let list = handback(device, Some(before.governor));
    assert(list =~= seq![
        Step::Run(screensaver_command(false)),
        Step::Write(governor_write(before.governor)),
        Step::Run(device.start_command()),
        Step::Pause(FRAMEWORK_START_SECS as nat),
        Step::Run(home_command()),
    ]);
    lemma_performed_five(device, taken, list);
}

/// Without a known governor, giving back a device still undoes the rest and leaves the governor
/// of the dashboard in place.
pub proof fn law_handback_without_governor(device: Device, before: Condition)
    requires
        before.framework_runs,
        !before.screensaver_prevented,
    ensures
        performed_all(
            device,
            performed_all(device, before, takeover(device)),
            handback(device, None),
        ) == (Condition { governor: DASHBOARD_GOVERNOR@, ..before }),
{
    lemma_commands_differ(device);
    lemma_performed_three(device, before, takeover(device));
    let taken = performed_all(device, before, takeover(device));
    let list = handback(device, None);
    assert(list =~= seq![
        Step::Run(screensaver_command(false)),
        Step::Run(device.start_command()),
        Step::Pause(FRAMEWORK_START_SECS as nat),
        Step::Run(home_command()),
    ]);
    lemma_performed_four(device, taken, list);
}

proof fn lemma_performed_three(device: Device, before: Condition, list: Seq<Step>)
    requires
        list.len() == 3,
    ensures
        performed_all(device, before, list) == performed(
            device,
            performed(device, performed(device, before, list[0]), list[1]),
            list[2],
        ),
{
    reveal_with_fuel(performed_all, 4);
}

proof fn lemma_performed_four(device: Device, before: Condition, list: Seq<Step>)
    requires
        list.len() == 4,
    ensures
        performed_all(device, before, list) == performed(
            device,
            performed(
                device,
                performed(device, performed(device, before, list[0]), list[1]),
                list[2],
            ),
            list[3],
        ),
{
    lemma_performed_three(device, before, list.drop_last());
}

proof fn lemma_performed_five(device: Device, before: Condition, list: Seq<Step>)
    requires
        list.len() == 5,
    ensures
        performed_all(device, before, list) == performed(
            device,
            performed(
                device,
                performed(
                    device,
                    performed(device, performed(device, before, list[0]), list[1]),
                    list[2],
                ),
                list[3],
            ),
            list[4],
        ),
{
    lemma_performed_four(device, before, list.drop_last());
}

/// A configured directory is used as it is given; without one, images lie in `/tmp` and below the
/// binary.
pub proof fn law_directories(dir: Seq<char>, base: Seq<char>, device: Device)
    ensures
        assets_dir(Some(dir), base, device) == dir,
        scratch_dir(Some(dir)) == dir,
        scratch_dir(None) == "/tmp"@,
        assets_dir(None, base, device) == joined(joined(base, "assets"@), "1448x1072"@),
{
}

/// Taking over stops the UI first, then slows the CPU down, then holds off the screensaver.
/// Giving back allows the screensaver, restores the governor where it is known, starts the UI, and
/// asks for Home only after the UI had five seconds to come up.
pub proof fn law_steps_in_order(device: Device, governor: Seq<char>)
    ensures
        takeover(device) == seq![
            Step::Run(device.stop_command()),
            Step::Write(governor_write("powersave"@)),
            Step::Run(screensaver_command(true)),
        ],
        handback(device, Some(governor)) == seq![
            Step::Run(screensaver_command(false)),
            Step::Write(governor_write(governor)),
            Step::Run(device.start_command()),
            Step::Pause(5),
            Step::Run(home_command()),
        ],
        handback(device, None) == seq![
            Step::Run(screensaver_command(false)),
            Step::Run(device.start_command()),
            Step::Pause(5),
            Step::Run(home_command()),
        ],
{
    assert(handback(device, Some(governor)) =~= seq![
        Step::Run(screensaver_command(false)),
        Step::Write(governor_write(governor)),
        Step::Run(device.start_command()),
        Step::Pause(5),
        Step::Run(home_command()),
    ]);
    assert(handback(device, None) =~= seq![
        Step::Run(screensaver_command(false)),
        Step::Run(device.start_command()),
        Step::Pause(5),
        Step::Run(home_command()),
    ]);
}

/// Steps stand for what they run, write or pause, one for one.
pub proof fn law_steps_stand_for_themselves(
    list: Seq<DeviceStep>,
    i: int,
    c: Command,
    f: FileWrite,
    secs: u64,
)
    ensures
        steps(list).len() == list.len(),
        0 <= i < list.len() ==> steps(list)[i] == list[i]@,
        DeviceStep::Run(c)@ == Step::Run(c@),
        DeviceStep::Write(f)@ == Step::Write(f@),
        DeviceStep::Pause(secs)@ == Step::Pause(secs as nat),
{
}

} // verus!
