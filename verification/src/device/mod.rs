//! Device detection. Only devices on the allowlist are supported, so that nothing is ever
//! written to power or RTC paths that were not verified. What differs between models stands
//! behind methods of [`Device`], spread over the modules here.
use vstd::prelude::*;

use crate::text::{
    all_ascii, ascii_lower, ascii_upper, contains, has_substring, lines, lines_of, lowercase,
    slices, split_at_first, split_once, text_eq, trim, trimmed, uppercase, CharClass,
};

pub mod battery;
pub mod device_laws;
pub mod display;
pub mod power;
pub mod suspend_laws;
pub mod sys;
pub mod wait_laws;

pub use display::RefreshCycle;
pub use power::WakeReason;

use sys::{command, Command, CommandView};

verus! {

/// A supported Kindle model.
#[derive(Debug, Clone, Copy, PartialEq, Eq, Structural)]
pub enum Device {
    Voyage,
}

impl Device {
    /// Display resolution, width by height; also the name of the directory of bundled images.
    pub fn resolution(self) -> (r: &'static str)
        ensures
            r@ == self.resolution_text(),
    {
        match self {
            Device::Voyage => "1448x1072",
        }
    }

    pub open spec fn resolution_text(self) -> Seq<char> {
        match self {
            Device::Voyage => "1448x1072"@,
        }
    }

    /// The RTC alarm nodes of the device.
    pub open spec fn rtc_nodes(self) -> Seq<Seq<char>> {
        match self {
            Device::Voyage => seq![
                "/sys/class/rtc/rtc0/wakealarm"@,
                "/sys/class/rtc/rtc1/wakealarm"@,
            ],
        }
    }

    /// The RTC alarm interfaces of the device, which take absolute epoch seconds. On the Voyage
    /// both nodes drive the same clock; arming both is a hedge, as only one need succeed.
    pub fn rtc_wakealarm_paths(self) -> (paths: Vec<&'static str>)
        ensures
            slices(paths@) == self.rtc_nodes(),
    {
        match self {
            Device::Voyage => {
                let paths: Vec<&'static str> = vec![
                    "/sys/class/rtc/rtc0/wakealarm",
                    "/sys/class/rtc/rtc1/wakealarm",
                ];
                assert(slices(paths@) =~= self.rtc_nodes());
                paths
            },
        }
    }
}

/// Device codes of the Voyage. Modern serial numbers embed a code of four characters; each model
/// has a `B0xx` code and, on newer production, a `90xx` code.
pub open spec fn voyage_codes() -> Seq<Seq<char>> {
    seq![
        "B013"@,
        "9013"@,
        "B054"@,
        "9054"@,
        "B053"@,
        "9053"@,
        "B02A"@,
        "B052"@,
        "9052"@,
        "B04F"@,
    ]
}

fn voyage_code_list() -> (codes: Vec<&'static str>)
    ensures
        slices(codes@) == voyage_codes(),
{
    let codes: Vec<&'static str> = vec![
        "B013", "9013", // Wi-Fi
        "B054", "9054", // 3G + Wi-Fi (U.S.)
        "B053", "9053", // 3G + Wi-Fi (Europe)
        "B02A", // 3G + Wi-Fi (Japan)
        "B052", "9052", // 3G + Wi-Fi (Mexico)
        "B04F", // 3G
    ];
    assert(slices(codes@) =~= voyage_codes());
    codes
}

/// Whether a Voyage code stands somewhere in `upper`.
pub open spec fn has_voyage_code(upper: Seq<char>) -> bool {
    exists|i: int| 0 <= i < voyage_codes().len() && contains(upper, #[trigger] voyage_codes()[i])
}

/// A serial number without surrounding white space and quotes.
pub open spec fn cleaned(raw: Seq<char>) -> Seq<char> {
    trim(
        trim(trim(raw, CharClass::Whitespace), CharClass::Exactly('"')),
        CharClass::Whitespace,
    )
}

/// The value of the first `Serial` field among the lines of `/proc/cpuinfo`.
pub open spec fn serial_field(all: Seq<Seq<char>>) -> Option<Seq<char>>
    decreases all.len(),
{
    if all.len() == 0 {
        None
    } else {
        match split_once(all[0], ':') {
            Some((key, value)) if trim(key, CharClass::Whitespace) == "Serial"@ => Some(
                cleaned(value),
            ),
            _ => serial_field(all.skip(1)),
        }
    }
}

/// The serial number that the contents of `/proc/cpuinfo` report; an empty one counts as absent.
pub open spec fn cpuinfo_serial(cpuinfo: Seq<char>) -> Option<Seq<char>> {
    match serial_field(lines(cpuinfo)) {
        Some(serial) if serial.len() > 0 => Some(serial),
        _ => None,
    }
}

/// Why no supported device was detected.
#[derive(Debug)]
pub enum DetectError {
    /// The override names no supported device; its text in lower case.
    UnsupportedOverride(String),
    /// `/proc/cpuinfo` could not be read.
    CpuinfoUnreadable,
    /// `/proc/cpuinfo` holds no serial number.
    NoSerialLine,
    /// The device with this serial number is not on the allowlist.
    UnsupportedDevice(String),
}

/// How far detection got.
#[derive(Debug)]
pub enum Detection {
    /// This command reports the serial number.
    QuerySystem(Command),
    /// `/proc/cpuinfo` has to be read.
    ReadCpuinfo,
    /// Detection is done.
    Settled(Result<Device, DetectError>),
}

/// What reports the serial number where the system service is up.
pub open spec fn usid_query() -> CommandView {
    CommandView { program: "lipc-get-prop"@, args: seq!["com.lab126.system"@, "usid"@] }
}

/// Begins detection. An override decides alone; without one the serial number is asked for.
pub fn detect(override_value: Option<&str>) -> (d: Detection)
    ensures
        match override_value {
            None => d matches Detection::QuerySystem(c) && c@ == usid_query(),
            Some(val) => d matches Detection::Settled(r) && match r {
                Ok(device) => device == Device::Voyage && lowercase(val@) == "voyage"@,
                Err(e) => lowercase(val@) != "voyage"@ && (e matches
                    DetectError::UnsupportedOverride(other) && other@ == lowercase(val@)),
            },
        },
{
    match override_value {
        Some(val) => Detection::Settled(parse_override(val)),
        None => {
            let c = command("lipc-get-prop", vec!["com.lab126.system", "usid"]);
            assert(c@.args =~= usid_query().args);
            Detection::QuerySystem(c)
        },
    }
}

/// Goes on with the output of the serial-number query, or without one where it failed. A query
/// that brings no serial number falls back to `/proc/cpuinfo`.
pub fn detect_from_usid(output: Option<&str>) -> (d: Detection)
    ensures
        match output {
            Some(raw) if cleaned(raw@).len() > 0 => d matches Detection::Settled(r)
                && supported(cleaned(raw@), r),
            _ => d is ReadCpuinfo,
        },
{
    match output {
        Some(raw) => {
            let serial = clean_serial(raw);
            if serial.as_str().is_empty() {
                Detection::ReadCpuinfo
            } else {
                Detection::Settled(check_supported(serial))
            }
        },
        None => Detection::ReadCpuinfo,
    }
}

/// Ends detection with the contents of `/proc/cpuinfo`, or without them where they could not be
/// read.
pub fn detect_from_cpuinfo(contents: Option<&str>) -> (r: Result<Device, DetectError>)
    ensures
        match contents {
            None => r matches Err(DetectError::CpuinfoUnreadable),
            Some(text) => match cpuinfo_serial(text@) {
                None => r matches Err(DetectError::NoSerialLine),
                Some(serial) => supported(serial, r),
            },
        },
{
    match contents {
        None => Err(DetectError::CpuinfoUnreadable),
        Some(text) => match parse_cpuinfo_serial(text) {
            None => Err(DetectError::NoSerialLine),
            Some(serial) => check_supported(serial),
        },
    }
}

/// Whether `r` is the verdict on a device with serial number `serial`.
pub open spec fn supported(serial: Seq<char>, r: Result<Device, DetectError>) -> bool {
    match r {
        Ok(device) => device == Device::Voyage && has_voyage_code(uppercase(serial)),
        Err(e) => !has_voyage_code(uppercase(serial)) && (e matches DetectError::UnsupportedDevice(
            s,
        ) && s@ == serial),
    }
}

fn check_supported(serial: String) -> (r: Result<Device, DetectError>)
    ensures
        supported(serial@, r),
{
    match match_device(serial.as_str()) {
        Some(device) => Ok(device),
        None => Err(DetectError::UnsupportedDevice(serial)),
    }
}

/// The device that an override names, in any case.
pub fn parse_override(val: &str) -> (r: Result<Device, DetectError>)
    ensures
        match r {
            Ok(device) => device == Device::Voyage && lowercase(val@) == "voyage"@,
            Err(e) => lowercase(val@) != "voyage"@ && (e matches DetectError::UnsupportedOverride(
                other,
            ) && other@ == lowercase(val@)),
        },
        all_ascii(val@) ==> (r is Ok <==> val@.map_values(|c: char| ascii_lower(c)) == "voyage"@),
{
    let lower = val.to_lowercase();
    match device_named(lower.as_str()) {
        Some(device) => Ok(device),
        None => Err(DetectError::UnsupportedOverride(lower)),
    }
}

/// The device that a lower-case name stands for.
pub fn device_named(lower: &str) -> (r: Option<Device>)
    ensures
        r == if lower@ == "voyage"@ {
            Some(Device::Voyage)
        } else {
            None
        },
{
    if text_eq(lower, "voyage") {
        Some(Device::Voyage)
    } else {
        None
    }
}

/// A serial number without surrounding white space and quotes.
pub fn clean_serial(raw: &str) -> (serial: String)
    ensures
        serial@ == cleaned(raw@),
{
    let bare = trimmed(trimmed(raw, CharClass::Whitespace), CharClass::Exactly('"'));
    trimmed(bare, CharClass::Whitespace).to_string()
}

/// Matches a serial number, in any case, against the allowlist.
pub fn match_device(serial: &str) -> (r: Option<Device>)
    ensures
        r == if has_voyage_code(uppercase(serial@)) {
            Some(Device::Voyage)
        } else {
            None
        },
        all_ascii(serial@) ==> (r is Some <==> has_voyage_code(
            serial@.map_values(|c: char| ascii_upper(c)),
        )),
{
    let upper = serial.to_uppercase();
    device_with_code(upper.as_str())
}

/// The device whose code stands somewhere in an upper-case serial number: a match at any offset
/// tolerates uncertainty about where the code is embedded.
pub fn device_with_code(upper: &str) -> (r: Option<Device>)
    ensures
        r == if has_voyage_code(upper@) {
            Some(Device::Voyage)
        } else {
            None
        },
{
    let codes = voyage_code_list();
    let mut i: usize = 0;
    while i < codes.len()
        invariant
            i <= codes.len(),
            slices(codes@) == voyage_codes(),
            forall|k: int| 0 <= k < i ==> !contains(upper@, #[trigger] voyage_codes()[k]),
        decreases codes.len() - i,
    {
        assert(slices(codes@)[i as int] == codes@[i as int]@);
        if has_substring(upper, codes[i]) {
            assert(contains(upper@, voyage_codes()[i as int]));
            return Some(Device::Voyage);
        }
        i += 1;
    }
    None
}

/// The serial number in the contents of `/proc/cpuinfo`, where it is reported quoted.
pub fn parse_cpuinfo_serial(cpuinfo: &str) -> (serial: Option<String>)
    ensures
        match serial {
            Some(s) => cpuinfo_serial(cpuinfo@) == Some(s@),
            None => cpuinfo_serial(cpuinfo@) is None,
        },
{
    let all = lines_of(cpuinfo);
    let mut i: usize = 0;
    assert(slices(all@).skip(0) =~= slices(all@));
    while i < all.len()
        invariant
            i <= all.len(),
            slices(all@) == lines(cpuinfo@),
            serial_field(slices(all@)) == serial_field(slices(all@).skip(i as int)),
        decreases all.len() - i,
    {
        let ghost rest = slices(all@).skip(i as int);
        assert(rest[0] == all@[i as int]@);
        assert(rest.skip(1) =~= slices(all@).skip(i + 1));
        if let Some((key, value)) = split_at_first(all[i], ':') {
            if text_eq(trimmed(key, CharClass::Whitespace), "Serial") {
                let serial = clean_serial(value);
                if serial.as_str().is_empty() {
                    return None;
                }
                return Some(serial);
            }
        }
        i += 1;
    }
    None
}

} // verus!
