//! The configuration of the controller: its fields, their defaults, and the
//! rules by which a configuration text becomes a configuration.

use crate::clock::duration_nanos;
use crate::curve::{duty, fan_duty};
use crate::ini::{
    folded, ini_get, ini_getbool, ini_new, ini_read, ini_text_values, truth_value, value_at,
    MAX_TEXT_CHARS,
};
use crate::text::{decimal_i64, decimal_u64, parse_i64, parse_reading, parse_u64, reading};
use crate::zone::ThermalZone;
use core::time::Duration;
use vstd::prelude::*;

verus! {

/// What the controller is run with. It is fixed once loaded.
#[derive(Clone, Copy, Debug, PartialEq, Eq, Structural)]
pub struct Config {
    /// The reading below which the fan is off, in the sensor's unit.
    pub min_temp: i64,
    /// The reading from which the fan runs at full speed.
    pub max_temp: i64,
    /// Seconds between two samples: at least one.
    pub interval_sec: u64,
    /// The sensor that is sampled.
    pub thermal_zone: ThermalZone,
    /// Whether the clocks are forced to their maximum once at startup.
    pub max_perf: bool,
}

/// What is wrong with a configuration text that gives no configuration.
#[derive(Clone, Copy, Debug, PartialEq, Eq, Structural)]
pub enum ConfigError {
    /// The text is longer than the reader takes, or the reader refuses it.
    Unreadable,
    /// `min_temp` is given and is no signed decimal number.
    InvalidMinTemp,
    /// `max_temp` is given and is no signed decimal number.
    InvalidMaxTemp,
    /// `interval_sec` is given and is no decimal number of at least 1
    /// without a `-`: a pause of no length is no interval.
    InvalidInterval,
    /// `thermal_zone` is given and is not the name of a zone.
    InvalidZone,
    /// `max_perf` is given and is neither `true` nor `false`.
    InvalidMaxPerf,
    /// Every field is in order, but `min_temp` is not below `max_temp`.
    BoundsOutOfOrder,
}

impl ConfigError {
    /// What the user is told when this error ends the program.
    pub open spec fn spec_message(self) -> Seq<char> {
        match self {
            ConfigError::Unreadable => "Failed to read config.ini file"@,
            ConfigError::InvalidMinTemp => "Invalid min_temp value"@,
            ConfigError::InvalidMaxTemp => "Invalid max_temp value"@,
            ConfigError::InvalidInterval => "Invalid interval_sec value"@,
            ConfigError::InvalidZone => "Invalid zone value"@,
            ConfigError::InvalidMaxPerf => "Invalid max_perf value"@,
            ConfigError::BoundsOutOfOrder => "max temp is not above min temp. Terminating..."@,
        }
    }

    /// What the user is told when this error ends the program.
    pub fn message(&self) -> (text: &'static str)
        ensures
            text@ == self.spec_message(),
    {
        match self {
            ConfigError::Unreadable => "Failed to read config.ini file",
            ConfigError::InvalidMinTemp => "Invalid min_temp value",
            ConfigError::InvalidMaxTemp => "Invalid max_temp value",
            ConfigError::InvalidInterval => "Invalid interval_sec value",
            ConfigError::InvalidZone => "Invalid zone value",
            ConfigError::InvalidMaxPerf => "Invalid max_perf value",
            ConfigError::BoundsOutOfOrder => "max temp is not above min temp. Terminating...",
        }
    }
}

/// What a configuration says of a truth value.
#[derive(Clone, Copy, Debug, PartialEq, Eq, Structural)]
pub enum Switch {
    /// The key is missing, or has no value.
    Absent,
    /// The value stands for this truth value.
    Given(bool),
    /// The value stands for no truth value.
    Malformed,
}

/// What a configuration text holds under each of the five keys, before any
/// of it is read as a number or a name.
#[derive(Debug)]
pub struct Entries {
    pub min_temp: Option<String>,
    pub max_temp: Option<String>,
    pub interval_sec: Option<String>,
    pub thermal_zone: Option<String>,
    pub max_perf: Switch,
}

/// `Entries` as mathematical values.
pub struct EntriesView {
    pub min_temp: Option<Seq<char>>,
    pub max_temp: Option<Seq<char>>,
    pub interval_sec: Option<Seq<char>>,
    pub thermal_zone: Option<Seq<char>>,
    pub max_perf: Switch,
}

/// The characters of a text that may be missing.
pub open spec fn text_view(text: Option<String>) -> Option<Seq<char>> {
    match text {
        Some(s) => Some(s@),
        None => None,
    }
}

impl View for Entries {
    type V = EntriesView;

    open spec fn view(&self) -> EntriesView {
        EntriesView {
            min_temp: text_view(self.min_temp),
            max_temp: text_view(self.max_temp),
            interval_sec: text_view(self.interval_sec),
            thermal_zone: text_view(self.thermal_zone),
            max_perf: self.max_perf,
        }
    }
}

/// The fields that were not given and took their default. The caller owes
/// the user a notice for each, in the order of the fields.
#[derive(Clone, Copy, Debug, PartialEq, Eq, Structural)]
pub struct Defaulted {
    pub min_temp: bool,
    pub max_temp: bool,
    pub interval_sec: bool,
    pub thermal_zone: bool,
    pub max_perf: bool,
}

/// A configuration, and which of its fields are defaults.
#[derive(Clone, Copy, Debug, PartialEq, Eq, Structural)]
pub struct Loaded {
    pub config: Config,
    pub defaulted: Defaulted,
}

/// Why a configuration text gives no configuration, and which fields had
/// taken their default by the time the error was met: their notices are owed
/// before the error is reported.
#[derive(Clone, Copy, Debug, PartialEq, Eq, Structural)]
pub struct Refused {
    pub error: ConfigError,
    pub defaulted: Defaulted,
}

/// Where the configuration text is kept.
pub const CONFIG_PATH: &'static str = "/etc/jetson-fan-ctl-rust/config.ini";

/// The utility that forces the clocks of the board to their maximum. It is
/// run without arguments.
pub const PERF_UTILITY: &'static str = "/usr/bin/jetson_clocks";

/// The section of a configuration text that holds the five keys, as the
/// reader stores it: a header `[Configuration]` is found under this name
/// however its letters are cased.
pub open spec fn section_name() -> Seq<char> {
    "configuration"@
}

/// What a truth value is read from: nothing, a word that stands for one, or
/// some other text.
pub open spec fn switch_of(word: Option<Seq<char>>) -> Switch {
    match word {
        None => Switch::Absent,
        Some(w) => match truth_value(w) {
            Some(b) => Switch::Given(b),
            None => Switch::Malformed,
        },
    }
}

/// The five entries among the values that a text holds.
pub open spec fn entries_of(values: Map<(Seq<char>, Seq<char>), Seq<char>>) -> EntriesView {
    EntriesView {
        min_temp: value_at(values, section_name(), "min_temp"@),
        max_temp: value_at(values, section_name(), "max_temp"@),
        interval_sec: value_at(values, section_name(), "interval_sec"@),
        thermal_zone: value_at(values, section_name(), "thermal_zone"@),
        max_perf: switch_of(value_at(values, section_name(), "max_perf"@)),
    }
}

/// The interval written in `text`: a decimal number without `-` that fits
/// in a `u64` and is at least 1.
pub open spec fn interval(text: Seq<char>) -> Option<u64> {
    match decimal_u64(text) {
        Some(seconds) => if seconds >= 1 {
            Some(seconds)
        } else {
            None
        },
        None => None,
    }
}

/// Whether one of the fields is given and malformed.
pub open spec fn malformed(entries: EntriesView) -> bool {
    ||| entries.min_temp is Some && decimal_i64(entries.min_temp->0) is None
    ||| entries.max_temp is Some && decimal_i64(entries.max_temp->0) is None
    ||| entries.interval_sec is Some && interval(entries.interval_sec->0) is None
    ||| entries.thermal_zone is Some && ThermalZone::named(entries.thermal_zone->0) is None
    ||| entries.max_perf is Malformed
}

/// The value of each field: what is given, or the default where nothing is.
/// It says nothing of a field that is malformed.
pub open spec fn field_values(entries: EntriesView) -> Config {
    let defaults = Config::spec_default();
    Config {
        min_temp: match entries.min_temp {
            Some(text) => decimal_i64(text)->0,
            None => defaults.min_temp,
        },
        max_temp: match entries.max_temp {
            Some(text) => decimal_i64(text)->0,
            None => defaults.max_temp,
        },
        interval_sec: match entries.interval_sec {
            Some(text) => interval(text)->0,
            None => defaults.interval_sec,
        },
        thermal_zone: match entries.thermal_zone {
            Some(name) => ThermalZone::named(name)->0,
            None => defaults.thermal_zone,
        },
        max_perf: match entries.max_perf {
            Switch::Given(b) => b,
            _ => defaults.max_perf,
        },
    }
}

/// Which of the first `fields` fields are not given. The fields are counted
/// in the order `min_temp`, `max_temp`, `interval_sec`, `thermal_zone`,
/// `max_perf`.
pub open spec fn defaulted_among(entries: EntriesView, fields: int) -> Defaulted {
    Defaulted {
        min_temp: fields >= 1 && entries.min_temp is None,
        max_temp: fields >= 2 && entries.max_temp is None,
        interval_sec: fields >= 3 && entries.interval_sec is None,
        thermal_zone: fields >= 4 && entries.thermal_zone is None,
        max_perf: fields >= 5 && entries.max_perf is Absent,
    }
}

/// No field has taken its default.
pub open spec fn nothing_defaulted() -> Defaulted {
    Defaulted {
        min_temp: false,
        max_temp: false,
        interval_sec: false,
        thermal_zone: false,
        max_perf: false,
    }
}

/// The configuration that the entries give, or the first thing wrong with
/// them: the fields are taken in the order `min_temp`, `max_temp`,
/// `interval_sec`, `thermal_zone`, `max_perf`, and the order of the two
/// bounds is looked at last. A field that is not given takes its default.
/// An error comes with the defaults taken among the fields before it.
pub open spec fn resolved(entries: EntriesView) -> Result<Loaded, Refused> {
    if entries.min_temp is Some && decimal_i64(entries.min_temp->0) is None {
        Err(
            Refused {
                error: ConfigError::InvalidMinTemp,
                defaulted: defaulted_among(entries, 0),
            },
        )
    } else if entries.max_temp is Some && decimal_i64(entries.max_temp->0) is None {
        Err(
            Refused {
                error: ConfigError::InvalidMaxTemp,
                defaulted: defaulted_among(entries, 1),
            },
        )
    } else if entries.interval_sec is Some && interval(entries.interval_sec->0) is None {
        Err(
            Refused {
                error: ConfigError::InvalidInterval,
                defaulted: defaulted_among(entries, 2),
            },
        )
    } else if entries.thermal_zone is Some && ThermalZone::named(entries.thermal_zone->0)
        is None {
        Err(Refused { error: ConfigError::InvalidZone, defaulted: defaulted_among(entries, 3) })
    } else if entries.max_perf is Malformed {
        Err(
            Refused {
                error: ConfigError::InvalidMaxPerf,
                defaulted: defaulted_among(entries, 4),
            },
        )
    } else if field_values(entries).min_temp >= field_values(entries).max_temp {
        Err(
            Refused {
                error: ConfigError::BoundsOutOfOrder,
                defaulted: defaulted_among(entries, 5),
            },
        )
    } else {
        Ok(Loaded { config: field_values(entries), defaulted: defaulted_among(entries, 5) })
    }
}

/// What a configuration text gives: an error where the text is too long for
/// the reader or the reader refuses it, else what its five entries give.
pub open spec fn loaded_from(text: Seq<char>) -> Result<Loaded, Refused> {
    if text.len() > MAX_TEXT_CHARS || ini_text_values(text) is None {
        Err(Refused { error: ConfigError::Unreadable, defaulted: nothing_defaulted() })
    } else {
        resolved(entries_of(ini_text_values(text)->0))
    }
}

/// The names under which the five entries are looked up are written as the
/// reader stores them.
proof fn lemma_names_folded()
    ensures
        folded(section_name()),
        folded("min_temp"@),
        folded("max_temp"@),
        folded("interval_sec"@),
        folded("thermal_zone"@),
        folded("max_perf"@),
{
    reveal_strlit("configuration");
    reveal_strlit("min_temp");
    reveal_strlit("max_temp");
    reveal_strlit("interval_sec");
    reveal_strlit("thermal_zone");
    reveal_strlit("max_perf");
}

/// Reads an interval: `Some` exactly where `text` is a decimal number
/// without `-` that fits in a `u64` and is at least 1.
pub fn parse_interval(text: &str) -> (seconds: Option<u64>)
    ensures
        seconds == interval(text@),
{
    match parse_u64(text) {
        Some(value) => if value >= 1 {
            Some(value)
        } else {
            None
        },
        None => None,
    }
}

impl Config {
    /// The configuration in which every field has its default.
    pub open spec fn spec_default() -> Config {
        Config {
            min_temp: 30,
            max_temp: 60,
            interval_sec: 5,
            thermal_zone: ThermalZone::FAN,
            max_perf: true,
        }
    }

    /// The invariant of a loaded configuration: the bounds are in order and
    /// the interval is at least one second.
    pub open spec fn well_formed(self) -> bool {
        self.min_temp < self.max_temp && self.interval_sec >= 1
    }

    /// Tells whether the bounds are in order and the interval is at least
    /// one second.
    pub fn is_well_formed(&self) -> (b: bool)
        ensures
            b == self.well_formed(),
    {
        self.min_temp < self.max_temp && self.interval_sec >= 1
    }

    /// Makes a configuration of the five entries of a text.
    ///
    /// Succeeds exactly where no entry that is given is malformed and the
    /// bounds end up in order; otherwise names the first thing wrong, and
    /// the fields before it that took their default.
    pub fn resolve(entries: &Entries) -> (res: Result<Loaded, Refused>)
        ensures
            res == resolved(entries@),
            res matches Ok(loaded) ==> loaded.config.well_formed(),
            res is Err <==> malformed(entries@) || field_values(entries@).min_temp
                >= field_values(entries@).max_temp,
    {
        let mut config = Config::default();
        let mut defaulted = Defaulted {
            min_temp: false,
            max_temp: false,
            interval_sec: false,
            thermal_zone: false,
            max_perf: false,
        };
        match &entries.min_temp {
            None => {
                defaulted.min_temp = true;
            },
            Some(text) => match parse_i64(text.as_str()) {
                Some(value) => {
                    config.min_temp = value;
                },
                None => {
                    return Err(Refused { error: ConfigError::InvalidMinTemp, defaulted });
                },
            },
        }
        match &entries.max_temp {
            None => {
                defaulted.max_temp = true;
            },
            Some(text) => match parse_i64(text.as_str()) {
                Some(value) => {
                    config.max_temp = value;
                },
                None => {
                    return Err(Refused { error: ConfigError::InvalidMaxTemp, defaulted });
                },
            },
        }
        match &entries.interval_sec {
            None => {
                defaulted.interval_sec = true;
            },
            Some(text) => match parse_interval(text.as_str()) {
                Some(seconds) => {
                    config.interval_sec = seconds;
                },
                None => {
                    return Err(Refused { error: ConfigError::InvalidInterval, defaulted });
                },
            },
        }
        match &entries.thermal_zone {
            None => {
                defaulted.thermal_zone = true;
            },
            Some(name) => match ThermalZone::from_name(name.as_str()) {
                Some(zone) => {
                    config.thermal_zone = zone;
                },
                None => {
                    return Err(Refused { error: ConfigError::InvalidZone, defaulted });
                },
            },
        }
        match entries.max_perf {
            Switch::Absent => {
                defaulted.max_perf = true;
            },
            Switch::Given(b) => {
                config.max_perf = b;
            },
            Switch::Malformed => {
                return Err(Refused { error: ConfigError::InvalidMaxPerf, defaulted });
            },
        }
        if config.min_temp >= config.max_temp {
            return Err(Refused { error: ConfigError::BoundsOutOfOrder, defaulted });
        }
        Ok(Loaded { config, defaulted })
    }

    /// Makes a configuration of a configuration text.
    ///
    /// The text is in INI syntax. The five keys `min_temp`, `max_temp`,
    /// `interval_sec`, `thermal_zone` and `max_perf` are looked for in its
    /// section `[Configuration]`; whatever else the text holds is passed over.
    pub fn read_conf(text: &str) -> (res: Result<Loaded, Refused>)
        ensures
            res == loaded_from(text@),
            res matches Ok(loaded) ==> loaded.config.well_formed(),
    {
        let unreadable = Refused {
            error: ConfigError::Unreadable,
            defaulted: Defaulted {
                min_temp: false,
                max_temp: false,
                interval_sec: false,
                thermal_zone: false,
                max_perf: false,
            },
        };
        if text.unicode_len() > MAX_TEXT_CHARS {
            return Err(unreadable);
        }
        let mut ini = ini_new();
        if ini_read(&mut ini, text).is_err() {
            return Err(unreadable);
        }
        proof {
            lemma_names_folded();
        }
        let max_perf = match ini_getbool(&ini, "configuration", "max_perf") {
            Ok(Some(b)) => Switch::Given(b),
            Ok(None) => Switch::Absent,
            Err(_) => Switch::Malformed,
        };
        let entries = Entries {
            min_temp: ini_get(&ini, "configuration", "min_temp"),
            max_temp: ini_get(&ini, "configuration", "max_temp"),
            interval_sec: ini_get(&ini, "configuration", "interval_sec"),
            thermal_zone: ini_get(&ini, "configuration", "thermal_zone"),
            max_perf,
        };
        Config::resolve(&entries)
    }

    /// What has to be run once at startup, before the loop: the clock
    /// utility where `max_perf` is set, nothing where it is not.
    pub fn set_perf(&self) -> (utility: Option<&'static str>)
        ensures
            utility == if self.max_perf {
                Some(PERF_UTILITY)
            } else {
                None
            },
    {
        if self.max_perf {
            Some(PERF_UTILITY)
        } else {
            None
        }
    }

    /// The pause between two samples.
    pub fn get_interval(&self) -> (pause: Duration)
        ensures
            duration_nanos(pause) == self.interval_sec * 1_000_000_000,
    {
        Duration::from_secs(self.interval_sec)
    }

    /// The path of the sensor file of the configured zone.
    pub fn sensor_path(&self) -> (path: String)
        ensures
            path@ == self.thermal_zone.spec_sensor_path(),
    {
        self.thermal_zone.sensor_path()
    }

    /// Reads the temperature from the content of the sensor file: `Some`
    /// exactly where the content is one signed decimal number that fits in
    /// an `i64`, alone but for white space around it.
    pub fn read_temp(&self, content: &str) -> (temp: Option<i64>)
        ensures
            temp == reading(content@),
    {
        parse_reading(content)
    }

    /// The duty cycle that the fan curve gives for a reading.
    pub fn get_fancurve(&self, temp: i64) -> (d: u8)
        ensures
            d == duty(temp as int, self.min_temp as int, self.max_temp as int),
            temp < self.min_temp ==> d == 0,
            temp >= self.max_temp && temp >= self.min_temp ==> d == 255,
            temp < self.max_temp ==> d < 255,
            temp == self.min_temp && self.min_temp < self.max_temp ==> d == 0,
    {
        fan_duty(temp, self.min_temp, self.max_temp)
    }
}

impl Default for Config {
    /// Every field at its default: a ramp from 30 to 60, a sample every five
    /// seconds, the fan's own zone, and the clocks forced to their maximum.
    fn default() -> (config: Self)
        ensures
            config == Config::spec_default(),
            config.well_formed(),
    {
        Config {
            min_temp: 30,
            max_temp: 60,
            interval_sec: 5,
            thermal_zone: ThermalZone::FAN,
            max_perf: true,
        }
    }
}

/// The outcome in which every field has its default and is reported so.
pub open spec fn all_defaults() -> Loaded {
    Loaded {
        config: Config::spec_default(),
        defaulted: Defaulted {
            min_temp: true,
            max_temp: true,
            interval_sec: true,
            thermal_zone: true,
            max_perf: true,
        },
    }
}

/// Whether none of the five fields is given.
pub open spec fn nothing_given(entries: EntriesView) -> bool {
    &&& entries.min_temp is None
    &&& entries.max_temp is None
    &&& entries.interval_sec is None
    &&& entries.thermal_zone is None
    &&& entries.max_perf is Absent
}

/// Entries in which no field is given resolve to the defaults, and every
/// field is reported as defaulted.
pub proof fn lemma_nothing_given_resolves_to_defaults(entries: EntriesView)
    requires
        nothing_given(entries),
    ensures
        resolved(entries) == Ok::<Loaded, Refused>(all_defaults()),
{
}

/// A text that the reader accepts and that holds none of the five fields
/// loads as the defaults.
pub proof fn lemma_text_without_fields_loads_defaults(text: Seq<char>)
    requires
        text.len() <= MAX_TEXT_CHARS,
        ini_text_values(text) is Some,
        nothing_given(entries_of(ini_text_values(text)->0)),
    ensures
        loaded_from(text) == Ok::<Loaded, Refused>(all_defaults()),
{
}

/// Whatever resolves is well formed: its bounds are in order and its
/// interval is at least one second.
pub proof fn lemma_resolved_is_well_formed(entries: EntriesView)
    ensures
        resolved(entries) matches Ok(loaded) ==> {
            &&& loaded.config.min_temp < loaded.config.max_temp
            &&& loaded.config.interval_sec >= 1
        },
{
}

/// Whatever a text loads as is well formed.
pub proof fn lemma_loaded_is_well_formed(text: Seq<char>)
    ensures
        loaded_from(text) matches Ok(loaded) ==> loaded.config.well_formed(),
{
    if text.len() <= MAX_TEXT_CHARS && ini_text_values(text) is Some {
        lemma_resolved_is_well_formed(entries_of(ini_text_values(text)->0));
    }
}

/// Entries are refused exactly where a field that is given is malformed or
/// the bounds end up out of order. A field that is not given never makes
/// them fail.
pub proof fn lemma_resolved_fails_exactly_when(entries: EntriesView)
    ensures
        resolved(entries) is Err <==> malformed(entries) || field_values(entries).min_temp
            >= field_values(entries).max_temp,
{
}

/// A text within the length limit that the reader accepts is refused
/// exactly where one of its fields is malformed or its bounds end up out of
/// order.
pub proof fn lemma_load_fails_exactly_when(text: Seq<char>)
    requires
        text.len() <= MAX_TEXT_CHARS,
        ini_text_values(text) is Some,
    ensures
        ({
            let entries = entries_of(ini_text_values(text)->0);
            loaded_from(text) is Err <==> malformed(entries) || field_values(entries).min_temp
                >= field_values(entries).max_temp
        }),
{
    lemma_resolved_fails_exactly_when(entries_of(ini_text_values(text)->0));
}

/// An interval of no length is refused: entries whose interval is written
/// as zero give an error, and it is `InvalidInterval` unless one of the two
/// bounds, which are looked at first, is malformed.
pub proof fn lemma_zero_interval_is_refused(entries: EntriesView)
    requires
        entries.interval_sec is Some,
        decimal_u64(entries.interval_sec->0) == Some(0u64),
    ensures
        resolved(entries) matches Err(refused) && (refused.error == ConfigError::InvalidMinTemp
            || refused.error == ConfigError::InvalidMaxTemp || refused.error
            == ConfigError::InvalidInterval),
{
}

/// Bounds that are given out of order are refused, whatever else is given:
/// no configuration with `min_temp` at or above `max_temp` gets past loading.
pub proof fn lemma_bounds_out_of_order_are_refused(
    entries: EntriesView,
    min_temp: i64,
    max_temp: i64,
)
    requires
        entries.min_temp is Some,
        entries.max_temp is Some,
        decimal_i64(entries.min_temp->0) == Some(min_temp),
        decimal_i64(entries.max_temp->0) == Some(max_temp),
        min_temp >= max_temp,
    ensures
        resolved(entries) is Err,
{
}

} // verus!
