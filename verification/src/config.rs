//! Runtime configuration, read from TOML text.
use vstd::prelude::*;

use crate::clock::{clock_showed, in_calendar, Timestamp};
use crate::schedule::{self, cron_next, ScheduleError};
use crate::text::{slices, text_eq, trim, trimmed, CharClass};
use crate::zone::{known_zone, Zone};

verus! {

/// The settings of the dashboard.
#[derive(Debug)]
pub struct Config {
    /// URL of the dashboard PNG.
    pub image_url: String,
    /// Cron expression, read in `timezone`, of the refresh times.
    pub refresh_schedule: String,
    /// IANA name of the time zone in which `refresh_schedule` is read.
    pub timezone: String,
    /// Partial refreshes between two full ones; at 0, the default, every refresh is full.
    pub full_display_refresh_rate: u32,
    /// Where the next wakeup is at least this many seconds away, the sleep screen is shown in
    /// place of a fresh dashboard.
    pub sleep_screen_interval: i64,
    /// How long the image fetch is retried, waiting for Wi-Fi, before it is given up.
    pub wifi_timeout_secs: u64,
    /// Delay before each suspend, a window to abort a process that was just launched.
    pub pre_suspend_delay_secs: u64,
    /// Battery percentage at or below which refreshing pauses to preserve charge.
    pub low_battery_pct: u8,
    /// How long to suspend between battery checks while the battery is low.
    pub low_battery_sleep_secs: i64,
    /// Log destination: a path, or one of `null`, `stdout`, `stderr`.
    pub log: Option<String>,
    /// Directory of the bundled images.
    pub assets_dir: Option<String>,
    /// Directory for the fetched image.
    pub scratch_dir: Option<String>,
}

/// The settings that a [`Config`] holds.
pub struct Settings {
    pub image_url: Seq<char>,
    pub refresh_schedule: Seq<char>,
    pub timezone: Seq<char>,
    pub full_display_refresh_rate: int,
    pub sleep_screen_interval: int,
    pub wifi_timeout_secs: int,
    pub pre_suspend_delay_secs: int,
    pub low_battery_pct: int,
    pub low_battery_sleep_secs: int,
    pub log: Option<Seq<char>>,
    pub assets_dir: Option<Seq<char>>,
    pub scratch_dir: Option<Seq<char>>,
}

/// The text of an optional string.
pub open spec fn optional_text(s: Option<String>) -> Option<Seq<char>> {
    match s {
        Some(text) => Some(text@),
        None => None,
    }
}

impl View for Config {
    type V = Settings;

    open spec fn view(&self) -> Settings {
        Settings {
            image_url: self.image_url@,
            refresh_schedule: self.refresh_schedule@,
            timezone: self.timezone@,
            full_display_refresh_rate: self.full_display_refresh_rate as int,
            sleep_screen_interval: self.sleep_screen_interval as int,
            wifi_timeout_secs: self.wifi_timeout_secs as int,
            pre_suspend_delay_secs: self.pre_suspend_delay_secs as int,
            low_battery_pct: self.low_battery_pct as int,
            low_battery_sleep_secs: self.low_battery_sleep_secs as int,
            log: optional_text(self.log),
            assets_dir: optional_text(self.assets_dir),
            scratch_dir: optional_text(self.scratch_dir),
        }
    }
}

/// A TOML document that could not be parsed.
#[verifier::external_type_specification]
#[verifier::external_body]
pub struct ExTomlError(toml::de::Error);

/// A value in a TOML document, as far as settings can hold it.
#[derive(Debug)]
pub enum Item {
    Text(String),
    Integer(i64),
    /// A value of another type, which no setting has.
    Other,
}

/// What an [`Item`] holds.
pub enum Value {
    Text(Seq<char>),
    Integer(int),
    Other,
}

impl View for Item {
    type V = Value;

    open spec fn view(&self) -> Value {
        match self {
            Item::Text(s) => Value::Text(s@),
            Item::Integer(n) => Value::Integer(*n as int),
            Item::Other => Value::Other,
        }
    }
}

/// A TOML document: its top-level entries.
pub type Document = Seq<(Seq<char>, Value)>;

pub open spec fn document(entries: Seq<(String, Item)>) -> Document {
    entries.map_values(|e: (String, Item)| (e.0@, e.1@))
}

/// The top-level entries of a TOML text, in the order of the document; none where the text is no
/// TOML document.
pub uninterp spec fn toml_document(text: Seq<char>) -> Option<Seq<(Seq<char>, Value)>>;

/// `<toml::Table as FromStr>::from_str` and the walk over the table that it gives, which keeps the
/// order of the document. The outcome depends on the text alone; what the text denotes is left to
/// its name.
#[verifier::external_body]
fn parse_toml(text: &str) -> (r: Result<Vec<(String, Item)>, toml::de::Error>)
    ensures
        match r {
            Ok(entries) => toml_document(text@) == Some(document(entries@)),
            Err(_) => toml_document(text@) is None,
        },
{
    let convert = |value: toml::Value| match value {
        toml::Value::String(s) => Item::Text(s),
        toml::Value::Integer(n) => Item::Integer(n),
        toml::Value::Float(_) => Item::Other,
        toml::Value::Boolean(_) => Item::Other,
        toml::Value::Datetime(_) => Item::Other,
        toml::Value::Array(_) => Item::Other,
        toml::Value::Table(_) => Item::Other,
    };
    let table: toml::Table = text.parse()?;
    Ok(table.into_iter().map(|(key, value)| (key, convert(value))).collect())
}

/// Why a configuration was rejected.
#[derive(Debug)]
pub enum ConfigError {
    /// The text is no TOML document.
    Syntax(toml::de::Error),
    /// There is no setting of this name.
    UnknownField(String),
    /// This setting has to be given.
    MissingField(String),
    /// The value of this setting has the wrong type or does not fit it.
    BadValue(String),
    /// `image_url` is blank.
    EmptyImageUrl,
    /// No time zone has this name.
    UnknownTimezone(String),
    /// `refresh_schedule` is no usable cron expression.
    BadSchedule(ScheduleError),
    /// `sleep_screen_interval` is negative.
    NegativeSleepScreenInterval,
    /// `low_battery_pct` is above 100.
    LowBatteryPctTooHigh,
    /// `low_battery_sleep_secs` is below 1.
    LowBatterySleepTooShort,
}

/// What a [`ConfigError`] reports.
pub enum Fault {
    Syntax,
    UnknownField(Seq<char>),
    MissingField(Seq<char>),
    BadValue(Seq<char>),
    EmptyImageUrl,
    UnknownTimezone(Seq<char>),
    BadSchedule(Seq<char>),
    NegativeSleepScreenInterval,
    LowBatteryPctTooHigh,
    LowBatterySleepTooShort,
}

impl ConfigError {
    pub open spec fn fault(self) -> Fault {
        match self {
            ConfigError::Syntax(_) => Fault::Syntax,
            ConfigError::UnknownField(name) => Fault::UnknownField(name@),
            ConfigError::MissingField(name) => Fault::MissingField(name@),
            ConfigError::BadValue(name) => Fault::BadValue(name@),
            ConfigError::EmptyImageUrl => Fault::EmptyImageUrl,
            ConfigError::UnknownTimezone(name) => Fault::UnknownTimezone(name@),
            ConfigError::BadSchedule(e) => Fault::BadSchedule(e.schedule@),
            ConfigError::NegativeSleepScreenInterval => Fault::NegativeSleepScreenInterval,
            ConfigError::LowBatteryPctTooHigh => Fault::LowBatteryPctTooHigh,
            ConfigError::LowBatterySleepTooShort => Fault::LowBatterySleepTooShort,
        }
    }
}

/// The names of the settings that are texts.
pub open spec fn text_names() -> Seq<Seq<char>> {
    seq![
        "image_url"@,
        "refresh_schedule"@,
        "timezone"@,
        "log"@,
        "assets_dir"@,
        "scratch_dir"@,
    ]
}

/// The names of the settings that are numbers.
pub open spec fn number_names() -> Seq<Seq<char>> {
    seq![
        "full_display_refresh_rate"@,
        "sleep_screen_interval"@,
        "wifi_timeout_secs"@,
        "pre_suspend_delay_secs"@,
        "low_battery_pct"@,
        "low_battery_sleep_secs"@,
    ]
}

/// Whether there is a setting of this name.
pub open spec fn is_setting(key: Seq<char>) -> bool {
    text_names().contains(key) || number_names().contains(key)
}

/// The value of the entry `key`.
pub open spec fn lookup(doc: Document, key: Seq<char>) -> Option<Value>
    decreases doc.len(),
{
    if doc.len() == 0 {
        None
    } else if doc[0].0 == key {
        Some(doc[0].1)
    } else {
        lookup(doc.skip(1), key)
    }
}

/// Whether a value is a number from `min` to `max`.
pub open spec fn is_number(value: Value, min: int, max: int) -> bool {
    value matches Value::Integer(n) && min <= n <= max
}

/// Whether a value has the type and the range of the setting `key`.
pub open spec fn fits(key: Seq<char>, value: Value) -> bool {
    &&& text_names().contains(key) ==> value is Text
    &&& key == "full_display_refresh_rate"@ ==> is_number(value, 0, u32::MAX as int)
    &&& key == "sleep_screen_interval"@ ==> is_number(value, i64::MIN as int, i64::MAX as int)
    &&& key == "wifi_timeout_secs"@ ==> is_number(value, 0, u64::MAX as int)
    &&& key == "pre_suspend_delay_secs"@ ==> is_number(value, 0, u64::MAX as int)
    &&& key == "low_battery_pct"@ ==> is_number(value, 0, u8::MAX as int)
    &&& key == "low_battery_sleep_secs"@ ==> is_number(value, i64::MIN as int, i64::MAX as int)
}

/// What is wrong with one entry: it names no setting, or its value does not fit.
pub open spec fn entry_fault(key: Seq<char>, value: Value) -> Option<Fault> {
    if !is_setting(key) {
        Some(Fault::UnknownField(key))
    } else if !fits(key, value) {
        Some(Fault::BadValue(key))
    } else {
        None
    }
}

/// What is wrong with the first bad entry, in the order of the document.
pub open spec fn first_entry_fault(doc: Document) -> Option<Fault>
    decreases doc.len(),
{
    if doc.len() == 0 {
        None
    } else {
        or_fault(entry_fault(doc[0].0, doc[0].1), first_entry_fault(doc.skip(1)))
    }
}

/// A text setting that has to be given.
pub open spec fn text_field(doc: Document, key: Seq<char>) -> Result<Seq<char>, Fault> {
    match lookup(doc, key) {
        Some(Value::Text(s)) => Ok(s),
        Some(_) => Err(Fault::BadValue(key)),
        None => Err(Fault::MissingField(key)),
    }
}

/// A text setting that may be left out.
pub open spec fn optional_field(doc: Document, key: Seq<char>) -> Result<Option<Seq<char>>, Fault> {
    match lookup(doc, key) {
        Some(Value::Text(s)) => Ok(Some(s)),
        Some(_) => Err(Fault::BadValue(key)),
        None => Ok(None),
    }
}

/// A number from `min` to `max`, or `default` where it is left out.
pub open spec fn number_field(
    doc: Document,
    key: Seq<char>,
    min: int,
    max: int,
    default: int,
) -> Result<int, Fault> {
    match lookup(doc, key) {
        Some(Value::Integer(n)) if min <= n <= max => Ok(n),
        Some(_) => Err(Fault::BadValue(key)),
        None => Ok(default),
    }
}

pub open spec fn full_refresh_rate_field(doc: Document) -> Result<int, Fault> {
    number_field(doc, "full_display_refresh_rate"@, 0, u32::MAX as int, 0)
}

pub open spec fn sleep_screen_interval_field(doc: Document) -> Result<int, Fault> {
    number_field(doc, "sleep_screen_interval"@, i64::MIN as int, i64::MAX as int, 3600)
}

pub open spec fn wifi_timeout_field(doc: Document) -> Result<int, Fault> {
    number_field(doc, "wifi_timeout_secs"@, 0, u64::MAX as int, 30)
}

pub open spec fn pre_suspend_delay_field(doc: Document) -> Result<int, Fault> {
    number_field(doc, "pre_suspend_delay_secs"@, 0, u64::MAX as int, 10)
}

pub open spec fn low_battery_pct_field(doc: Document) -> Result<int, Fault> {
    number_field(doc, "low_battery_pct"@, 0, u8::MAX as int, 10)
}

pub open spec fn low_battery_sleep_field(doc: Document) -> Result<int, Fault> {
    number_field(doc, "low_battery_sleep_secs"@, i64::MIN as int, i64::MAX as int, 3600)
}

/// The fault of a field, if it has one.
pub open spec fn fault_of<T>(field: Result<T, Fault>) -> Option<Fault> {
    match field {
        Ok(_) => None,
        Err(fault) => Some(fault),
    }
}

/// The first of two faults.
pub open spec fn or_fault(first: Option<Fault>, second: Option<Fault>) -> Option<Fault> {
    match first {
        Some(_) => first,
        None => second,
    }
}

/// The first fault in reading settings from a document: its first bad entry, or else the first of
/// the settings that have to be given, in their order, that is missing.
pub open spec fn decode_fault(doc: Document) -> Option<Fault> {
    or_fault(first_entry_fault(doc),
    or_fault(fault_of(text_field(doc, "image_url"@)),
    or_fault(fault_of(text_field(doc, "refresh_schedule"@)),
    fault_of(text_field(doc, "timezone"@)))))
}

/// The settings in a document without a fault.
pub open spec fn decoded(doc: Document) -> Settings {
    Settings {
        image_url: text_field(doc, "image_url"@)->Ok_0,
        refresh_schedule: text_field(doc, "refresh_schedule"@)->Ok_0,
        timezone: text_field(doc, "timezone"@)->Ok_0,
        full_display_refresh_rate: full_refresh_rate_field(doc)->Ok_0,
        sleep_screen_interval: sleep_screen_interval_field(doc)->Ok_0,
        wifi_timeout_secs: wifi_timeout_field(doc)->Ok_0,
        pre_suspend_delay_secs: pre_suspend_delay_field(doc)->Ok_0,
        low_battery_pct: low_battery_pct_field(doc)->Ok_0,
        low_battery_sleep_secs: low_battery_sleep_field(doc)->Ok_0,
        log: optional_field(doc, "log"@)->Ok_0,
        assets_dir: optional_field(doc, "assets_dir"@)->Ok_0,
        scratch_dir: optional_field(doc, "scratch_dir"@)->Ok_0,
    }
}

/// A fault where `bad` holds.
pub open spec fn fault_if(bad: bool, fault: Fault) -> Option<Fault> {
    if bad {
        Some(fault)
    } else {
        None
    }
}

impl Settings {
    /// The first rule, as of `now`, that the settings break.
    pub open spec fn invalid(self, now: int) -> Option<Fault> {
        or_fault(
            fault_if(
                trim(self.image_url, CharClass::Whitespace).len() == 0,
                Fault::EmptyImageUrl,
            ),
        or_fault(
            fault_if(!known_zone(self.timezone), Fault::UnknownTimezone(self.timezone)),
        or_fault(
            fault_if(
                cron_next(self.refresh_schedule, "UTC"@, now) is None,
                Fault::BadSchedule(self.refresh_schedule),
            ),
        or_fault(
            fault_if(self.sleep_screen_interval < 0, Fault::NegativeSleepScreenInterval),
        or_fault(
            fault_if(self.low_battery_pct > 100, Fault::LowBatteryPctTooHigh),
            fault_if(self.low_battery_sleep_secs < 1, Fault::LowBatterySleepTooShort),
        )))))
    }
}

/// The first fault of a configuration text as of `now`.
pub open spec fn load_fault(text: Seq<char>, now: int) -> Option<Fault> {
    match toml_document(text) {
        None => Some(Fault::Syntax),
        Some(doc) => or_fault(decode_fault(doc), decoded(doc).invalid(now)),
    }
}

/// The settings in a configuration text without a fault.
pub open spec fn loaded(text: Seq<char>) -> Settings {
    decoded(toml_document(text)->0)
}

pub fn default_full_refresh_rate() -> (n: u32)
    ensures
        n == 0,
{
    0
}

pub fn default_sleep_screen_interval() -> (secs: i64)
    ensures
        secs == 3600,
{
    3600
}

pub fn default_wifi_timeout() -> (secs: u64)
    ensures
        secs == 30,
{
    30
}

pub fn default_pre_suspend_delay() -> (secs: u64)
    ensures
        secs == 10,
{
    10
}

pub fn default_low_battery_pct() -> (pct: u8)
    ensures
        pct == 10,
{
    10
}

pub fn default_low_battery_sleep_secs() -> (secs: i64)
    ensures
        secs == 3600,
{
    3600
}

fn is_one_of(names: &Vec<&str>, key: &str) -> (r: bool)
    ensures
        r == slices(names@).contains(key@),
{
    let mut i: usize = 0;
    while i < names.len()
        invariant
            i <= names.len(),
            forall|k: int| 0 <= k < i ==> slices(names@)[k] != key@,
        decreases names.len() - i,
    {
        assert(slices(names@)[i as int] == names@[i as int]@);
        if text_eq(names[i], key) {
            return true;
        }
        i += 1;
    }
    false
}

fn is_text_name(key: &str) -> (r: bool)
    ensures
        r == text_names().contains(key@),
{
    let names: Vec<&str> = vec![
        "image_url",
        "refresh_schedule",
        "timezone",
        "log",
        "assets_dir",
        "scratch_dir",
    ];
    assert(slices(names@) =~= text_names());
    is_one_of(&names, key)
}

fn is_number_name(key: &str) -> (r: bool)
    ensures
        r == number_names().contains(key@),
{
    let names: Vec<&str> = vec![
        "full_display_refresh_rate",
        "sleep_screen_interval",
        "wifi_timeout_secs",
        "pre_suspend_delay_secs",
        "low_battery_pct",
        "low_battery_sleep_secs",
    ];
    assert(slices(names@) =~= number_names());
    is_one_of(&names, key)
}

fn number_in(item: &Item, min: i128, max: i128) -> (r: bool)
    ensures
        r == is_number(item@, min as int, max as int),
{
    match item {
        Item::Integer(n) => min <= *n as i128 && *n as i128 <= max,
        _ => false,
    }
}

/// Whether a value has the type and the range of the setting `key`.
fn value_fits(key: &str, item: &Item) -> (r: bool)
    ensures
        r == fits(key@, item@),
{
    if is_text_name(key) && !matches!(item, Item::Text(_)) {
        return false;
    }
    if text_eq(key, "full_display_refresh_rate") && !number_in(item, 0, u32::MAX as i128) {
        return false;
    }
    if text_eq(key, "sleep_screen_interval") && !number_in(
        item,
        i64::MIN as i128,
        i64::MAX as i128,
    ) {
        return false;
    }
    if text_eq(key, "wifi_timeout_secs") && !number_in(item, 0, u64::MAX as i128) {
        return false;
    }
    if text_eq(key, "pre_suspend_delay_secs") && !number_in(item, 0, u64::MAX as i128) {
        return false;
    }
    if text_eq(key, "low_battery_pct") && !number_in(item, 0, u8::MAX as i128) {
        return false;
    }
    if text_eq(key, "low_battery_sleep_secs") && !number_in(
        item,
        i64::MIN as i128,
        i64::MAX as i128,
    ) {
        return false;
    }
    true
}

/// Checks every entry, in the order of the document.
fn check_entries(entries: &Vec<(String, Item)>) -> (r: Result<(), ConfigError>)
    ensures
        match r {
            Ok(()) => first_entry_fault(document(entries@)) is None,
            Err(e) => first_entry_fault(document(entries@)) == Some(e.fault()),
        },
{
    let ghost doc = document(entries@);
    let mut i: usize = 0;
    assert(doc.skip(0) =~= doc);
    while i < entries.len()
        invariant
            i <= entries.len(),
            doc == document(entries@),
            first_entry_fault(doc) == first_entry_fault(doc.skip(i as int)),
        decreases entries.len() - i,
    {
        assert(doc.skip(i as int)[0] == (entries@[i as int].0@, entries@[i as int].1@));
        assert(doc.skip(i as int).skip(1) =~= doc.skip(i + 1));
        let key: &String = &entries[i].0;
        if !is_text_name(key.as_str()) && !is_number_name(key.as_str()) {
            return Err(ConfigError::UnknownField(key.clone()));
        }
        if !value_fits(key.as_str(), &entries[i].1) {
            return Err(ConfigError::BadValue(key.clone()));
        }
        i += 1;
    }
    Ok(())
}

/// In a document without a bad entry, every value that is found fits.
proof fn lemma_found_values_fit(doc: Document, key: Seq<char>)
    requires
        first_entry_fault(doc) is None,
    ensures
        lookup(doc, key) matches Some(value) ==> fits(key, value),
    decreases doc.len(),
{
    if doc.len() > 0 {
        lemma_found_values_fit(doc.skip(1), key);
    }
}

/// In a document without a bad entry, no setting is bad.
proof fn lemma_no_setting_is_bad(doc: Document)
    requires
        first_entry_fault(doc) is None,
    ensures
        !(text_field(doc, "image_url"@) matches Err(Fault::BadValue(_))),
        !(text_field(doc, "refresh_schedule"@) matches Err(Fault::BadValue(_))),
        !(text_field(doc, "timezone"@) matches Err(Fault::BadValue(_))),
        full_refresh_rate_field(doc) is Ok,
        sleep_screen_interval_field(doc) is Ok,
        wifi_timeout_field(doc) is Ok,
        pre_suspend_delay_field(doc) is Ok,
        low_battery_pct_field(doc) is Ok,
        low_battery_sleep_field(doc) is Ok,
        optional_field(doc, "log"@) is Ok,
        optional_field(doc, "assets_dir"@) is Ok,
        optional_field(doc, "scratch_dir"@) is Ok,
{
    assert(text_names()[0] == "image_url"@);
    assert(text_names()[1] == "refresh_schedule"@);
    assert(text_names()[2] == "timezone"@);
    assert(text_names()[3] == "log"@);
    assert(text_names()[4] == "assets_dir"@);
    assert(text_names()[5] == "scratch_dir"@);
    lemma_found_values_fit(doc, "image_url"@);
    lemma_found_values_fit(doc, "refresh_schedule"@);
    lemma_found_values_fit(doc, "timezone"@);
    lemma_found_values_fit(doc, "full_display_refresh_rate"@);
    lemma_found_values_fit(doc, "sleep_screen_interval"@);
    lemma_found_values_fit(doc, "wifi_timeout_secs"@);
    lemma_found_values_fit(doc, "pre_suspend_delay_secs"@);
    lemma_found_values_fit(doc, "low_battery_pct"@);
    lemma_found_values_fit(doc, "low_battery_sleep_secs"@);
    lemma_found_values_fit(doc, "log"@);
    lemma_found_values_fit(doc, "assets_dir"@);
    lemma_found_values_fit(doc, "scratch_dir"@);
}

/// Finds the value of the entry `key`.
fn find_item<'a>(entries: &'a Vec<(String, Item)>, key: &str) -> (r: Option<&'a Item>)
    ensures
        match r {
            Some(item) => lookup(document(entries@), key@) == Some(item@),
            None => lookup(document(entries@), key@) is None,
        },
{
    let ghost doc = document(entries@);
    let mut i: usize = 0;
    assert(doc.skip(0) =~= doc);
    while i < entries.len()
        invariant
            i <= entries.len(),
            doc == document(entries@),
            lookup(doc, key@) == lookup(doc.skip(i as int), key@),
        decreases entries.len() - i,
    {
        assert(doc.skip(i as int)[0] == (entries@[i as int].0@, entries@[i as int].1@));
        assert(doc.skip(i as int).skip(1) =~= doc.skip(i + 1));
        if text_eq(entries[i].0.as_str(), key) {
            return Some(&entries[i].1);
        }
        i += 1;
    }
    None
}

fn read_text(entries: &Vec<(String, Item)>, key: &str) -> (r: Result<String, ConfigError>)
    ensures
        match r {
            Ok(s) => text_field(document(entries@), key@) == Ok::<Seq<char>, Fault>(s@),
            Err(e) => text_field(document(entries@), key@) == Err::<Seq<char>, Fault>(e.fault()),
        },
{
    match find_item(entries, key) {
        Some(Item::Text(s)) => Ok(s.clone()),
        Some(_) => Err(ConfigError::BadValue(key.to_string())),
        None => Err(ConfigError::MissingField(key.to_string())),
    }
}

fn read_optional(entries: &Vec<(String, Item)>, key: &str) -> (r: Result<
    Option<String>,
    ConfigError,
>)
    ensures
        match r {
            Ok(s) => optional_field(document(entries@), key@) == Ok::<Option<Seq<char>>, Fault>(
                optional_text(s),
            ),
            Err(e) => optional_field(document(entries@), key@) == Err::<Option<Seq<char>>, Fault>(
                e.fault(),
            ),
        },
{
    match find_item(entries, key) {
        Some(Item::Text(s)) => Ok(Some(s.clone())),
        Some(_) => Err(ConfigError::BadValue(key.to_string())),
        None => Ok(None),
    }
}

fn read_number(
    entries: &Vec<(String, Item)>,
    key: &str,
    min: i128,
    max: i128,
    default: i128,
) -> (r: Result<i128, ConfigError>)
    ensures
        match r {
            Ok(n) => number_field(document(entries@), key@, min as int, max as int, default as int)
                == Ok::<int, Fault>(n as int),
            Err(e) => number_field(
                document(entries@),
                key@,
                min as int,
                max as int,
                default as int,
            ) == Err::<int, Fault>(e.fault()),
        },
        min <= default <= max ==> (r matches Ok(n) ==> min <= n <= max),
{
    match find_item(entries, key) {
        Some(Item::Integer(n)) => {
            let n: i128 = *n as i128;
            if min <= n && n <= max {
                Ok(n)
            } else {
                Err(ConfigError::BadValue(key.to_string()))
            }
        },
        Some(_) => Err(ConfigError::BadValue(key.to_string())),
        None => Ok(default),
    }
}

/// Reads the settings from the entries of a document.
fn decode(entries: &Vec<(String, Item)>) -> (r: Result<Config, ConfigError>)
    ensures
        match r {
            Ok(c) => decode_fault(document(entries@)) is None && c@ == decoded(document(entries@)),
            Err(e) => decode_fault(document(entries@)) == Some(e.fault()),
        },
{
    check_entries(entries)?;
    proof {
        lemma_no_setting_is_bad(document(entries@));
    }
    let image_url = read_text(entries, "image_url")?;
    let refresh_schedule = read_text(entries, "refresh_schedule")?;
    let timezone = read_text(entries, "timezone")?;
    let rate: i128 = read_number(
        entries,
        "full_display_refresh_rate",
        0,
        u32::MAX as i128,
        default_full_refresh_rate() as i128,
    )?;
    let interval: i128 = read_number(
        entries,
        "sleep_screen_interval",
        i64::MIN as i128,
        i64::MAX as i128,
        default_sleep_screen_interval() as i128,
    )?;
    let wifi: i128 = read_number(
        entries,
        "wifi_timeout_secs",
        0,
        u64::MAX as i128,
        default_wifi_timeout() as i128,
    )?;
    let delay: i128 = read_number(
        entries,
        "pre_suspend_delay_secs",
        0,
        u64::MAX as i128,
        default_pre_suspend_delay() as i128,
    )?;
    let pct: i128 = read_number(
        entries,
        "low_battery_pct",
        0,
        u8::MAX as i128,
        default_low_battery_pct() as i128,
    )?;
    let low_sleep: i128 = read_number(
        entries,
        "low_battery_sleep_secs",
        i64::MIN as i128,
        i64::MAX as i128,
        default_low_battery_sleep_secs() as i128,
    )?;
    let log = read_optional(entries, "log")?;
    let assets_dir = read_optional(entries, "assets_dir")?;
    let scratch_dir = read_optional(entries, "scratch_dir")?;
    Ok(
        Config {
            image_url,
            refresh_schedule,
            timezone,
            full_display_refresh_rate: rate as u32,
            sleep_screen_interval: interval as i64,
            wifi_timeout_secs: wifi as u64,
            pre_suspend_delay_secs: delay as u64,
            low_battery_pct: pct as u8,
            low_battery_sleep_secs: low_sleep as i64,
            log,
            assets_dir,
            scratch_dir,
        },
    )
}

impl Config {
    /// Reads and checks a configuration, its schedule as of now.
    pub fn from_toml(text: &str) -> (r: Result<Config, ConfigError>)
        ensures
            match r {
                Ok(c) => c@ == loaded(text@) && exists|now: int|
                    in_calendar(now) && clock_showed(now) && #[trigger] load_fault(text@, now) is None,
                Err(e) => exists|now: int|
                    in_calendar(now) && clock_showed(now) && #[trigger] load_fault(text@, now) == Some(e.fault()),
            },
    {
        let now = Timestamp::now();
        Config::from_toml_as_of(text, &now)
    }

    /// Reads and checks a configuration, its schedule as of `now`.
    pub fn from_toml_as_of(text: &str, now: &Timestamp) -> (r: Result<Config, ConfigError>)
        ensures
            match r {
                Ok(c) => load_fault(text@, now@) is None && c@ == loaded(text@),
                Err(e) => load_fault(text@, now@) == Some(e.fault()),
            },
    {
        match parse_toml(text) {
            Ok(entries) => Config::from_entries(&entries, now),
            Err(e) => Err(ConfigError::Syntax(e)),
        }
    }

    /// Reads and checks a configuration from the entries of a document, its schedule as of
    /// `now`.
    pub fn from_entries(entries: &Vec<(String, Item)>, now: &Timestamp) -> (r: Result<
        Config,
        ConfigError,
    >)
        ensures
            match r {
                Ok(c) => {
                    &&& decode_fault(document(entries@)) is None
                    &&& c@ == decoded(document(entries@))
                    &&& c@.invalid(now@) is None
                },
                Err(e) => or_fault(
                    decode_fault(document(entries@)),
                    decoded(document(entries@)).invalid(now@),
                ) == Some(e.fault()),
            },
    {
        let config = decode(entries)?;
        config.validate_as_of(now)?;
        Ok(config)
    }

    /// Checks the settings, the schedule as of now.
    pub fn validate(&self) -> (r: Result<(), ConfigError>)
        ensures
            match r {
                Ok(()) => exists|now: int|
                    in_calendar(now) && clock_showed(now) && #[trigger] self@.invalid(now) is None,
                Err(e) => exists|now: int|
                    in_calendar(now) && clock_showed(now) && #[trigger] self@.invalid(now) == Some(e.fault()),
            },
    {
        let now = Timestamp::now();
        self.validate_as_of(&now)
    }

    /// Checks the settings, the schedule as of `now`.
    pub fn validate_as_of(&self, now: &Timestamp) -> (r: Result<(), ConfigError>)
        ensures
            match r {
                Ok(()) => self@.invalid(now@) is None,
                Err(e) => self@.invalid(now@) == Some(e.fault()),
            },
    {
        if trimmed(self.image_url.as_str(), CharClass::Whitespace).is_empty() {
            return Err(ConfigError::EmptyImageUrl);
        }
        self.tz()?;
        match schedule::validate_from(self.refresh_schedule.as_str(), now) {
            Ok(()) => {},
            Err(e) => return Err(ConfigError::BadSchedule(e)),
        }
        if self.sleep_screen_interval < 0 {
            return Err(ConfigError::NegativeSleepScreenInterval);
        }
        if self.low_battery_pct > 100 {
            return Err(ConfigError::LowBatteryPctTooHigh);
        }
        if self.low_battery_sleep_secs < 1 {
            return Err(ConfigError::LowBatterySleepTooShort);
        }
        Ok(())
    }

    /// The configured time zone.
    pub fn tz(&self) -> (r: Result<Zone, ConfigError>)
        ensures
            match r {
                Ok(zone) => known_zone(self@.timezone) && zone@ == self@.timezone,
                Err(e) => !known_zone(self@.timezone) && e.fault() == Fault::UnknownTimezone(
                    self@.timezone,
                ),
            },
    {
        match Zone::named(self.timezone.as_str()) {
            Some(zone) => Ok(zone),
            None => Err(ConfigError::UnknownTimezone(self.timezone.clone())),
        }
    }
}

/// A configuration that loads names an image, a known zone and a schedule that fires, and keeps
/// its numbers in range.
pub proof fn law_loaded_settings_are_valid(text: Seq<char>, now: int)
    requires
        load_fault(text, now) is None,
    ensures
        ({
            let c = loaded(text);
            &&& trim(c.image_url, CharClass::Whitespace).len() > 0
            &&& known_zone(c.timezone)
            &&& cron_next(c.refresh_schedule, "UTC"@, now) is Some
            &&& 0 <= c.full_display_refresh_rate <= u32::MAX
            &&& 0 <= c.sleep_screen_interval <= i64::MAX
            &&& 0 <= c.wifi_timeout_secs <= u64::MAX
            &&& 0 <= c.pre_suspend_delay_secs <= u64::MAX
            &&& 0 <= c.low_battery_pct <= 100
            &&& 1 <= c.low_battery_sleep_secs <= i64::MAX
        }),
{
    lemma_no_setting_is_bad(toml_document(text)->0);
}

/// A document is refused for its first bad entry, whatever else is wrong with it.
pub proof fn law_first_bad_entry_is_reported(doc: Document, i: int, fault: Fault)
    requires
        0 <= i < doc.len(),
        entry_fault(doc[i].0, doc[i].1) == Some(fault),
        forall|k: int| 0 <= k < i ==> entry_fault((#[trigger] doc[k]).0, doc[k].1) is None,
    ensures
        decode_fault(doc) == Some(fault),
    decreases doc.len(),
{
    if i > 0 {
        assert(entry_fault(doc[0].0, doc[0].1) is None);
        law_first_bad_entry_is_reported(doc.skip(1), i - 1, fault);
        lemma_decode_fault_is_a_bad_entry(doc.skip(1), i - 1);
    }
}

/// A bad entry makes the first fault that of an entry.
proof fn lemma_decode_fault_is_a_bad_entry(doc: Document, i: int)
    requires
        0 <= i < doc.len(),
        entry_fault(doc[i].0, doc[i].1) is Some,
    ensures
        first_entry_fault(doc) is Some,
        decode_fault(doc) == first_entry_fault(doc),
    decreases doc.len(),
{
    if i > 0 {
        lemma_decode_fault_is_a_bad_entry(doc.skip(1), i - 1);
    }
}

/// A document with an entry that names no setting is refused.
pub proof fn law_unknown_entry_is_refused(doc: Document, i: int)
    requires
        0 <= i < doc.len(),
        !is_setting(doc[i].0),
    ensures
        decode_fault(doc) is Some,
{
    lemma_decode_fault_is_a_bad_entry(doc, i);
}

/// A document without one of the settings that have to be given is refused.
pub proof fn law_missing_setting_is_refused(doc: Document)
    requires
        ({
            ||| lookup(doc, "image_url"@) is None
            ||| lookup(doc, "refresh_schedule"@) is None
            ||| lookup(doc, "timezone"@) is None
        }),
    ensures
        decode_fault(doc) is Some,
{
}

/// Settings that are left out take their defaults.
pub proof fn law_left_out_settings_take_defaults(doc: Document)
    ensures
        lookup(doc, "full_display_refresh_rate"@) is None ==> decoded(doc).full_display_refresh_rate
            == 0,
        lookup(doc, "sleep_screen_interval"@) is None ==> decoded(doc).sleep_screen_interval
            == 3600,
        lookup(doc, "wifi_timeout_secs"@) is None ==> decoded(doc).wifi_timeout_secs == 30,
        lookup(doc, "pre_suspend_delay_secs"@) is None ==> decoded(doc).pre_suspend_delay_secs
            == 10,
        lookup(doc, "low_battery_pct"@) is None ==> decoded(doc).low_battery_pct == 10,
        lookup(doc, "low_battery_sleep_secs"@) is None ==> decoded(doc).low_battery_sleep_secs
            == 3600,
        lookup(doc, "log"@) is None ==> decoded(doc).log is None,
        lookup(doc, "assets_dir"@) is None ==> decoded(doc).assets_dir is None,
        lookup(doc, "scratch_dir"@) is None ==> decoded(doc).scratch_dir is None,
{
}

} // verus!
