//! Battery level reading.
use vstd::prelude::*;

use super::sys::{command, Command, CommandView};
use super::Device;
use crate::text::{decimal, parse_decimal, trim, trim_end, trimmed, trimmed_end, CharClass};

verus! {

/// The charge that a battery report such as `83%` or `83` states, where it is one of 0 to 100.
pub open spec fn battery_level(raw: Seq<char>) -> Option<nat> {
    let bare = trim_end(trim(raw, CharClass::Whitespace), CharClass::Exactly('%'));
    decimal(trim(bare, CharClass::Whitespace), 100)
}

/// Parses a battery percentage such as `83%` or `83` into 0 to 100.
pub fn parse_battery(raw: &str) -> (level: Option<u8>)
    ensures
        match level {
            Some(n) => battery_level(raw@) == Some(n as nat),
            None => battery_level(raw@) is None,
        },
{
    let bare = trimmed_end(trimmed(raw, CharClass::Whitespace), CharClass::Exactly('%'));
    match parse_decimal(trimmed(bare, CharClass::Whitespace), 100) {
        Some(n) => Some(n as u8),
        None => None,
    }
}

impl Device {
    /// What reports the battery charge.
    pub open spec fn battery_command(self) -> CommandView {
        match self {
            Device::Voyage => CommandView {
                program: "lipc-get-prop"@,
                args: seq!["com.lab126.powerd"@, "battLevel"@],
            },
        }
    }

    /// The command that reports the battery charge.
    pub fn battery_query(self) -> (c: Command)
        ensures
            c@ == self.battery_command(),
    {
        match self {
            Device::Voyage => {
                let c = command("lipc-get-prop", vec!["com.lab126.powerd", "battLevel"]);
                assert(c@.args =~= self.battery_command().args);
                c
            },
        }
    }

    /// The battery charge percentage, 0 to 100, from the output of [`Device::battery_query`];
    /// nothing where the command failed or its output is no such percentage.
    pub fn battery_percent(self, report: Option<&str>) -> (level: Option<u8>)
        ensures
            level matches Some(n) ==> report matches Some(raw) && battery_level(raw@) == Some(
                n as nat,
            ),
            level is None ==> (report matches Some(raw) ==> battery_level(raw@) is None),
            level matches Some(n) ==> n <= 100,
    {
        match report {
            Some(raw) => parse_battery(raw),
            None => None,
        }
    }
}

} // verus!
