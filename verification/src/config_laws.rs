//! What becomes of settings: every one that is given is taken as it is given, and a document is
//! refused exactly where something is wrong with it.
use vstd::prelude::*;

use crate::config::{
    decode_fault, decoded, document, entry_fault, first_entry_fault, load_fault, loaded,
    lookup, number_names, optional_text, text_names, toml_document, Config, ConfigError,
    Document, Fault, Item, Settings, Value,
};
use crate::schedule::{cron_next, ScheduleError};
use crate::text::{is_whitespace, trim, trim_end, trim_start, CharClass};
use crate::text_laws::{all_in, law_trim_removes_both_runs};
use crate::zone::known_zone;

verus! {

/// A text setting that is given is taken as it is given, to the last character.
pub proof fn law_given_texts_are_taken_as_given(doc: Document, s: Seq<char>)
    ensures
        lookup(doc, "image_url"@) == Some(Value::Text(s)) ==> decoded(doc).image_url == s,
        lookup(doc, "refresh_schedule"@) == Some(Value::Text(s)) ==> decoded(doc).refresh_schedule == s,
        lookup(doc, "timezone"@) == Some(Value::Text(s)) ==> decoded(doc).timezone == s,
        lookup(doc, "log"@) == Some(Value::Text(s)) ==> decoded(doc).log == Some(s),
        lookup(doc, "assets_dir"@) == Some(Value::Text(s)) ==> decoded(doc).assets_dir == Some(s),
        lookup(doc, "scratch_dir"@) == Some(Value::Text(s)) ==> decoded(doc).scratch_dir == Some(s),
{
}

/// A number that is given, within the range of its setting, is taken as it is given.
pub proof fn law_given_numbers_are_taken_as_given(doc: Document, n: int)
    ensures
        0 <= n <= 0xffff_ffff ==> (lookup(doc, "full_display_refresh_rate"@) == Some(Value::Integer(n))
            ==> decoded(doc).full_display_refresh_rate == n),
        -0x8000_0000_0000_0000 <= n <= 0x7fff_ffff_ffff_ffff ==> (lookup(doc, "sleep_screen_interval"@) == Some(Value::Integer(n))
            ==> decoded(doc).sleep_screen_interval == n),
        0 <= n <= 0xffff_ffff_ffff_ffff ==> (lookup(doc, "wifi_timeout_secs"@) == Some(Value::Integer(n))
            ==> decoded(doc).wifi_timeout_secs == n),
        0 <= n <= 0xffff_ffff_ffff_ffff ==> (lookup(doc, "pre_suspend_delay_secs"@) == Some(Value::Integer(n))
            ==> decoded(doc).pre_suspend_delay_secs == n),
        0 <= n <= 255 ==> (lookup(doc, "low_battery_pct"@) == Some(Value::Integer(n))
            ==> decoded(doc).low_battery_pct == n),
        -0x8000_0000_0000_0000 <= n <= 0x7fff_ffff_ffff_ffff ==> (lookup(doc, "low_battery_sleep_secs"@) == Some(Value::Integer(n))
            ==> decoded(doc).low_battery_sleep_secs == n),
{
}

/// A key stands for its first entry in the document, and for nothing where it has none.
pub proof fn law_keys_stand_for_their_first_entry(
    before: Document,
    key: Seq<char>,
    value: Value,
    after: Document,
)
    requires
        forall|i: int| 0 <= i < before.len() ==> (#[trigger] before[i]).0 != key,
    ensures
        lookup(before, key) is None,
        lookup(before.push((key, value)) + after, key) == Some(value),
    decreases before.len(),
{
    let doc = before.push((key, value)) + after;
    if before.len() > 0 {
        assert(doc[0] == before[0]);
        assert(doc.skip(1) =~= before.skip(1).push((key, value)) + after);
        assert forall|i: int| 0 <= i < before.skip(1).len() implies (#[trigger] before.skip(
            1,
        )[i]).0 != key by {
            assert(before.skip(1)[i] == before[i + 1]);
        }
        law_keys_stand_for_their_first_entry(before.skip(1), key, value, after);
    } else {
        assert(doc[0] == (key, value));
    }
}

/// Entries stand for their keys and values, one for one.
pub proof fn law_entries_stand_for_themselves(
    entries: Seq<(String, Item)>,
    i: int,
    text: String,
    n: i64,
)
    ensures
        document(entries).len() == entries.len(),
        0 <= i < entries.len() ==> document(entries)[i] == (entries[i].0@, entries[i].1@),
        Item::Text(text)@ == Value::Text(text@),
        Item::Integer(n)@ == Value::Integer(n as int),
        Item::Other@ == Value::Other,
{
}

/// The settings of a configuration are its fields.
pub proof fn law_settings_are_the_fields(c: Config, none: Option<String>, text: String)
    ensures
        c@.image_url == c.image_url@,
        c@.refresh_schedule == c.refresh_schedule@,
        c@.timezone == c.timezone@,
        c@.full_display_refresh_rate == c.full_display_refresh_rate,
        c@.sleep_screen_interval == c.sleep_screen_interval,
        c@.wifi_timeout_secs == c.wifi_timeout_secs,
        c@.pre_suspend_delay_secs == c.pre_suspend_delay_secs,
        c@.low_battery_pct == c.low_battery_pct,
        c@.low_battery_sleep_secs == c.low_battery_sleep_secs,
        c@.log == optional_text(c.log),
        c@.assets_dir == optional_text(c.assets_dir),
        c@.scratch_dir == optional_text(c.scratch_dir),
        optional_text(Some(text)) == Some(text@),
        none is None ==> optional_text(none) is None,
{
}

/// The settings that are texts accept every text and nothing else.
pub proof fn law_text_settings_accept_texts(key: Seq<char>, value: Value)
    requires
        ({
            ||| key == "image_url"@
            ||| key == "refresh_schedule"@
            ||| key == "timezone"@
            ||| key == "log"@
            ||| key == "assets_dir"@
            ||| key == "scratch_dir"@
        }),
    ensures
        entry_fault(key, value) == (if value is Text {
            None
        } else {
            Some(Fault::BadValue(key))
        }),
{
    lemma_names_differ();
    assert(text_names()[0] == "image_url"@);
    assert(text_names()[1] == "refresh_schedule"@);
    assert(text_names()[2] == "timezone"@);
    assert(text_names()[3] == "log"@);
    assert(text_names()[4] == "assets_dir"@);
    assert(text_names()[5] == "scratch_dir"@);
    assert(number_names()[0] == "full_display_refresh_rate"@);
    assert(number_names()[1] == "sleep_screen_interval"@);
    assert(number_names()[2] == "wifi_timeout_secs"@);
    assert(number_names()[3] == "pre_suspend_delay_secs"@);
    assert(number_names()[4] == "low_battery_pct"@);
    assert(number_names()[5] == "low_battery_sleep_secs"@);
}

/// The settings that are numbers accept the integers of their range and nothing else.
pub proof fn law_number_settings_accept_their_range(value: Value)
    ensures
        entry_fault("full_display_refresh_rate"@, value) == (if value matches Value::Integer(n) && 0 <= n
            <= 0xffff_ffff {
            None
        } else {
            Some(Fault::BadValue("full_display_refresh_rate"@))
        }),
        entry_fault("sleep_screen_interval"@, value) == (if value matches Value::Integer(n) && -0x8000_0000_0000_0000 <= n
            <= 0x7fff_ffff_ffff_ffff {
            None
        } else {
            Some(Fault::BadValue("sleep_screen_interval"@))
        }),
        entry_fault("wifi_timeout_secs"@, value) == (if value matches Value::Integer(n) && 0 <= n
            <= 0xffff_ffff_ffff_ffff {
            None
        } else {
            Some(Fault::BadValue("wifi_timeout_secs"@))
        }),
        entry_fault("pre_suspend_delay_secs"@, value) == (if value matches Value::Integer(n) && 0 <= n
            <= 0xffff_ffff_ffff_ffff {
            None
        } else {
            Some(Fault::BadValue("pre_suspend_delay_secs"@))
        }),
        entry_fault("low_battery_pct"@, value) == (if value matches Value::Integer(n) && 0 <= n
            <= 255 {
            None
        } else {
            Some(Fault::BadValue("low_battery_pct"@))
        }),
        entry_fault("low_battery_sleep_secs"@, value) == (if value matches Value::Integer(n) && -0x8000_0000_0000_0000 <= n
            <= 0x7fff_ffff_ffff_ffff {
            None
        } else {
            Some(Fault::BadValue("low_battery_sleep_secs"@))
        }),
{
    lemma_names_differ();
    assert(number_names()[0] == "full_display_refresh_rate"@);
    assert(number_names()[1] == "sleep_screen_interval"@);
    assert(number_names()[2] == "wifi_timeout_secs"@);
    assert(number_names()[3] == "pre_suspend_delay_secs"@);
    assert(number_names()[4] == "low_battery_pct"@);
    assert(number_names()[5] == "low_battery_sleep_secs"@);
}

/// An entry of any other name is unknown, whatever its value.
pub proof fn law_other_names_are_unknown(key: Seq<char>, value: Value)
    requires
        key != "image_url"@,
        key != "refresh_schedule"@,
        key != "timezone"@,
        key != "full_display_refresh_rate"@,
        key != "sleep_screen_interval"@,
        key != "wifi_timeout_secs"@,
        key != "pre_suspend_delay_secs"@,
        key != "low_battery_pct"@,
        key != "low_battery_sleep_secs"@,
        key != "log"@,
        key != "assets_dir"@,
        key != "scratch_dir"@,
    ensures
        entry_fault(key, value) == Some(Fault::UnknownField(key)),
{
}

/// The names of the settings are all different.
proof fn lemma_names_differ()
    ensures
        forall|i: int, j: int|
            0 <= i < text_names().len() && 0 <= j < number_names().len()
                ==> #[trigger] text_names()[i] != #[trigger] number_names()[j],
        forall|i: int, j: int|
            0 <= i < j < number_names().len() ==> #[trigger] number_names()[i]
                != #[trigger] number_names()[j],
{
    reveal_strlit("image_url");
    reveal_strlit("refresh_schedule");
    reveal_strlit("timezone");
    reveal_strlit("log");
    reveal_strlit("assets_dir");
    reveal_strlit("scratch_dir");
    reveal_strlit("full_display_refresh_rate");
    reveal_strlit("sleep_screen_interval");
    reveal_strlit("wifi_timeout_secs");
    reveal_strlit("pre_suspend_delay_secs");
    reveal_strlit("low_battery_pct");
    reveal_strlit("low_battery_sleep_secs");
    assert("image_url"@.len() == 9);
    assert("refresh_schedule"@.len() == 16);
    assert("timezone"@.len() == 8);
    assert("log"@.len() == 3);
    assert("assets_dir"@.len() == 10);
    assert("scratch_dir"@.len() == 11);
    assert("full_display_refresh_rate"@.len() == 25);
    assert("sleep_screen_interval"@.len() == 21);
    assert("wifi_timeout_secs"@.len() == 17);
    assert("pre_suspend_delay_secs"@.len() == 22);
    assert("low_battery_pct"@.len() == 15);
    assert("low_battery_sleep_secs"@.len() == 22);
    assert("pre_suspend_delay_secs"@[0] != "low_battery_sleep_secs"@[0]);
}

/// A document without a bad entry is refused exactly where one of three settings is missing, for
/// the first of them.
pub proof fn law_missing_settings_are_reported_in_order(doc: Document)
    requires
        forall|i: int| 0 <= i < doc.len() ==> entry_fault((#[trigger] doc[i]).0, doc[i].1) is None,
    ensures
        decode_fault(doc) == (if lookup(doc, "image_url"@) is None {
            Some(Fault::MissingField("image_url"@))
        } else if lookup(doc, "refresh_schedule"@) is None {
            Some(Fault::MissingField("refresh_schedule"@))
        } else if lookup(doc, "timezone"@) is None {
            Some(Fault::MissingField("timezone"@))
        } else {
            None
        }),
{
    lemma_no_entry_fault(doc);
    lemma_found_texts(doc, "image_url"@);
    lemma_found_texts(doc, "refresh_schedule"@);
    lemma_found_texts(doc, "timezone"@);
}

proof fn lemma_no_entry_fault(doc: Document)
    requires
        forall|i: int| 0 <= i < doc.len() ==> entry_fault((#[trigger] doc[i]).0, doc[i].1) is None,
    ensures
        first_entry_fault(doc) is None,
    decreases doc.len(),
{
    if doc.len() > 0 {
        assert forall|i: int| 0 <= i < doc.skip(1).len() implies entry_fault(
            (#[trigger] doc.skip(1)[i]).0,
            doc.skip(1)[i].1,
        ) is None by {
            assert(doc.skip(1)[i] == doc[i + 1]);
        }
        lemma_no_entry_fault(doc.skip(1));
    }
}

proof fn lemma_found_texts(doc: Document, key: Seq<char>)
    requires
        key == "image_url"@ || key == "refresh_schedule"@ || key == "timezone"@,
        forall|i: int| 0 <= i < doc.len() ==> entry_fault((#[trigger] doc[i]).0, doc[i].1) is None,
    ensures
        lookup(doc, key) matches Some(value) ==> value is Text,
    decreases doc.len(),
{
    if doc.len() > 0 {
        assert(doc[0].0 == key ==> doc[0].1 is Text) by {
            if doc[0].0 == key {
                law_text_settings_accept_texts(key, doc[0].1);
            }
        }
        assert forall|i: int| 0 <= i < doc.skip(1).len() implies entry_fault(
            (#[trigger] doc.skip(1)[i]).0,
            doc.skip(1)[i].1,
        ) is None by {
            assert(doc.skip(1)[i] == doc[i + 1]);
        }
        lemma_found_texts(doc.skip(1), key);
    }
}

/// Settings are valid exactly where the URL is not blank, the zone is known, the schedule fires,
/// and three numbers are in range; otherwise the first of these, in this order, is reported.
pub proof fn law_validity(c: Settings, now: int)
    ensures
        ({
            let blank = forall|i: int|
                0 <= i < c.image_url.len() ==> is_whitespace(#[trigger] c.image_url[i]);
            c.invalid(now) == (if blank {
                Some(Fault::EmptyImageUrl)
            } else if !known_zone(c.timezone) {
                Some(Fault::UnknownTimezone(c.timezone))
            } else if cron_next(c.refresh_schedule, "UTC"@, now) is None {
                Some(Fault::BadSchedule(c.refresh_schedule))
            } else if c.sleep_screen_interval < 0 {
                Some(Fault::NegativeSleepScreenInterval)
            } else if c.low_battery_pct > 100 {
                Some(Fault::LowBatteryPctTooHigh)
            } else if c.low_battery_sleep_secs < 1 {
                Some(Fault::LowBatterySleepTooShort)
            } else {
                None
            })
        }),
{
    lemma_blank(c.image_url);
}

/// Trimming leaves nothing exactly where there is nothing but white space.
proof fn lemma_blank(s: Seq<char>)
    ensures
        trim(s, CharClass::Whitespace).len() == 0 <==> forall|i: int|
            0 <= i < s.len() ==> is_whitespace(#[trigger] s[i]),
{
    if forall|i: int| 0 <= i < s.len() ==> is_whitespace(#[trigger] s[i]) {
        assert(all_in(s, CharClass::Whitespace));
        assert(s + Seq::<char>::empty() + Seq::<char>::empty() =~= s);
        law_trim_removes_both_runs(s, Seq::empty(), Seq::empty(), CharClass::Whitespace);
    } else {
        let i = choose|i: int| 0 <= i < s.len() && !is_whitespace(#[trigger] s[i]);
        lemma_trim_keeps(s, i);
    }
}

proof fn lemma_trim_keeps(s: Seq<char>, i: int)
    requires
        0 <= i < s.len(),
        !is_whitespace(s[i]),
    ensures
        trim(s, CharClass::Whitespace).len() > 0,
{
    lemma_trim_start_keeps(s, i);
    let t = trim_start(s, CharClass::Whitespace);
    let j = choose|j: int| 0 <= j < t.len() && !is_whitespace(#[trigger] t[j]);
    lemma_trim_end_keeps(t, j);
}

proof fn lemma_trim_start_keeps(s: Seq<char>, i: int)
    requires
        0 <= i < s.len(),
        !is_whitespace(s[i]),
    ensures
        ({
            let t = trim_start(s, CharClass::Whitespace);
            exists|j: int| 0 <= j < t.len() && !is_whitespace(#[trigger] t[j])
        }),
    decreases s.len(),
{
    let t = trim_start(s, CharClass::Whitespace);
    if is_whitespace(s[0]) {
        assert(s.skip(1)[i - 1] == s[i]);
        lemma_trim_start_keeps(s.skip(1), i - 1);
        assert(t == trim_start(s.skip(1), CharClass::Whitespace));
    } else {
        assert(t == s);
        assert(!is_whitespace(t[i]));
    }
}

proof fn lemma_trim_end_keeps(s: Seq<char>, i: int)
    requires
        0 <= i < s.len(),
        !is_whitespace(s[i]),
    ensures
        trim_end(s, CharClass::Whitespace).len() > 0,
    decreases s.len(),
{
    if is_whitespace(s.last()) {
        assert(s.drop_last()[i] == s[i]);
        lemma_trim_end_keeps(s.drop_last(), i);
    }
}

/// Loading a text reports what is wrong with it as a document, or else with its entries, or else
/// with its settings; without a fault it gives the settings of its entries.
pub proof fn law_loading(text: Seq<char>, now: int)
    ensures
        match toml_document(text) {
            None => load_fault(text, now) == Some(Fault::Syntax),
            Some(doc) => {
                &&& decode_fault(doc) is Some ==> load_fault(text, now) == decode_fault(doc)
                &&& decode_fault(doc) is None ==> load_fault(text, now) == decoded(doc).invalid(now)
                &&& loaded(text) == decoded(doc)
            },
        },
{
}

/// An error reports the fault of its own kind, with the name that it carries.
pub proof fn law_errors_report_their_fault(
    name: String,
    cause: toml::de::Error,
    schedule: ScheduleError,
)
    ensures
        ConfigError::Syntax(cause).fault() == Fault::Syntax,
        ConfigError::UnknownField(name).fault() == Fault::UnknownField(name@),
        ConfigError::MissingField(name).fault() == Fault::MissingField(name@),
        ConfigError::BadValue(name).fault() == Fault::BadValue(name@),
        ConfigError::EmptyImageUrl.fault() == Fault::EmptyImageUrl,
        ConfigError::UnknownTimezone(name).fault() == Fault::UnknownTimezone(name@),
        ConfigError::BadSchedule(schedule).fault() == Fault::BadSchedule(schedule.schedule@),
        ConfigError::NegativeSleepScreenInterval.fault() == Fault::NegativeSleepScreenInterval,
        ConfigError::LowBatteryPctTooHigh.fault() == Fault::LowBatteryPctTooHigh,
        ConfigError::LowBatterySleepTooShort.fault() == Fault::LowBatterySleepTooShort,
{
}

} // verus!
