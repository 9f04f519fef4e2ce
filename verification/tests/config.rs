use jetson_fan_ctl::config::{
    parse_interval, Config, ConfigError, Defaulted, Entries, Loaded, Refused, Switch, CONFIG_PATH,
    PERF_UTILITY,
};
use jetson_fan_ctl::zone::ThermalZone;
use std::time::Duration;

const ALL_DEFAULTED: Defaulted = Defaulted {
    min_temp: true,
    max_temp: true,
    interval_sec: true,
    thermal_zone: true,
    max_perf: true,
};

const NONE_DEFAULTED: Defaulted = Defaulted {
    min_temp: false,
    max_temp: false,
    interval_sec: false,
    thermal_zone: false,
    max_perf: false,
};

fn defaults() -> Config {
    Config {
        min_temp: 30,
        max_temp: 60,
        interval_sec: 5,
        thermal_zone: ThermalZone::FAN,
        max_perf: true,
    }
}

fn no_entries() -> Entries {
    Entries {
        min_temp: None,
        max_temp: None,
        interval_sec: None,
        thermal_zone: None,
        max_perf: Switch::Absent,
    }
}

fn text(s: &str) -> Option<String> {
    Some(String::from(s))
}

/// A configuration text whose section holds these lines.
fn section(lines: &[&str]) -> String {
    let mut source = String::from("[Configuration]\n");
    for line in lines {
        source.push_str(line);
        source.push('\n');
    }
    source
}

/// What a text loads as, with the error alone where it is refused.
fn read(source: &str) -> Result<Loaded, ConfigError> {
    Config::read_conf(source).map_err(|refused| refused.error)
}

fn load(lines: &[&str]) -> Result<Loaded, ConfigError> {
    read(&section(lines))
}

/// What entries resolve to, with the error alone where they are refused.
fn resolve(entries: &Entries) -> Result<Loaded, ConfigError> {
    Config::resolve(entries).map_err(|refused| refused.error)
}

/// The fields, in their order, that are marked as defaulted.
fn marked(defaulted: Defaulted) -> Vec<&'static str> {
    let fields = [
        ("min_temp", defaulted.min_temp),
        ("max_temp", defaulted.max_temp),
        ("interval_sec", defaulted.interval_sec),
        ("thermal_zone", defaulted.thermal_zone),
        ("max_perf", defaulted.max_perf),
    ];
    fields.iter().filter(|field| field.1).map(|field| field.0).collect()
}

#[test]
fn default_config_has_the_documented_values() {
    let conf = Config::default();
    assert_eq!(conf.min_temp, 30);
    assert_eq!(conf.max_temp, 60);
    assert_eq!(conf.interval_sec, 5);
    assert_eq!(conf.thermal_zone, ThermalZone::FAN);
    assert!(conf.max_perf);
    assert!(conf.is_well_formed());
}

#[test]
fn text_without_recognized_fields_gives_the_defaults() {
    let expected = Ok(Loaded { config: defaults(), defaulted: ALL_DEFAULTED });
    for source in [
        "",
        "\n\n",
        "[Configuration]\n",
        "; nothing but a comment\n",
        "[Configuration]\nfan = loud\ncolour: blue\n",
        "[Other]\nmin_temp = 1\nmax_temp = 2\n",
        "min_temp = 1\nmax_temp = 2\ninterval_sec = 9\nthermal_zone = CPU\nmax_perf = false\n",
        "[Configuration]\nmin_temp\nmax_temp\ninterval_sec\nthermal_zone\nmax_perf\n",
    ] {
        assert_eq!(read(source), expected, "{:?}", source);
    }
}

#[test]
fn every_field_is_read_from_the_text() {
    let loaded = load(&[
        "min_temp = 40",
        "max_temp = 80",
        "interval_sec = 2",
        "thermal_zone = CPU",
        "max_perf = false",
    ])
    .unwrap();
    assert_eq!(
        loaded.config,
        Config {
            min_temp: 40,
            max_temp: 80,
            interval_sec: 2,
            thermal_zone: ThermalZone::CPU,
            max_perf: false,
        }
    );
    assert_eq!(loaded.defaulted, NONE_DEFAULTED);
}

#[test]
fn fields_that_are_missing_take_their_default() {
    let loaded = load(&["max_temp = 90", "thermal_zone = PMIC"]).unwrap();
    assert_eq!(
        loaded.config,
        Config {
            min_temp: 30,
            max_temp: 90,
            interval_sec: 5,
            thermal_zone: ThermalZone::PMIC,
            max_perf: true,
        }
    );
    assert_eq!(
        loaded.defaulted,
        Defaulted {
            min_temp: true,
            max_temp: false,
            interval_sec: true,
            thermal_zone: false,
            max_perf: true,
        }
    );
}

#[test]
fn bounds_out_of_order_are_refused() {
    assert_eq!(load(&["min_temp=60", "max_temp=30"]), Err(ConfigError::BoundsOutOfOrder));
    assert_eq!(load(&["min_temp=50", "max_temp=50"]), Err(ConfigError::BoundsOutOfOrder));
    assert_eq!(load(&["min_temp=60"]), Err(ConfigError::BoundsOutOfOrder));
    assert_eq!(load(&["max_temp=30"]), Err(ConfigError::BoundsOutOfOrder));
    assert!(load(&["min_temp=59"]).is_ok());
    assert!(load(&["max_temp=31"]).is_ok());
}

#[test]
fn text_that_the_reader_refuses_is_unreadable() {
    for source in ["[Configuration\nmin_temp = 40\n", "[Configuration]\n= 40\n", ": 40\n"] {
        assert_eq!(
            Config::read_conf(source),
            Err(Refused { error: ConfigError::Unreadable, defaulted: NONE_DEFAULTED }),
            "{:?}",
            source
        );
    }
}

#[test]
fn malformed_min_temp_is_refused() {
    for value in ["warm", "4O", "40.5", "", "4 0", "9223372036854775808"] {
        let line = format!("min_temp = {}", value);
        assert_eq!(load(&[&line]), Err(ConfigError::InvalidMinTemp), "{:?}", value);
    }
}

#[test]
fn malformed_max_temp_is_refused() {
    for value in ["hot", "6O", "60.5", "", "-", "-9223372036854775809"] {
        let line = format!("max_temp = {}", value);
        assert_eq!(load(&[&line]), Err(ConfigError::InvalidMaxTemp), "{:?}", value);
    }
}

#[test]
fn malformed_interval_is_refused() {
    for value in ["often", "-5", "-0", "1.5", "", "18446744073709551616", "0", "+0", "000"] {
        let line = format!("interval_sec = {}", value);
        assert_eq!(load(&[&line]), Err(ConfigError::InvalidInterval), "{:?}", value);
    }
}

#[test]
fn unknown_zone_is_refused() {
    for value in ["cpu", "Fan", "5", "", "CPU0", "A 0"] {
        let line = format!("thermal_zone = {}", value);
        assert_eq!(load(&[&line]), Err(ConfigError::InvalidZone), "{:?}", value);
    }
}

#[test]
fn malformed_max_perf_is_refused() {
    for value in ["maybe", "yes", "no", "1", "0", "", "tru", "truee", "on"] {
        let line = format!("max_perf = {}", value);
        assert_eq!(load(&[&line]), Err(ConfigError::InvalidMaxPerf), "{:?}", value);
    }
}

#[test]
fn max_perf_is_read_in_any_case() {
    for (value, expected) in [
        ("true", true),
        ("TRUE", true),
        ("True", true),
        ("tRuE", true),
        ("false", false),
        ("FALSE", false),
        ("False", false),
    ] {
        let line = format!("max_perf = {}", value);
        let loaded = load(&[&line]).unwrap();
        assert_eq!(loaded.config.max_perf, expected, "{:?}", value);
        assert!(!loaded.defaulted.max_perf);
    }
}

#[test]
fn each_zone_is_read_by_its_name() {
    for zone in [
        ThermalZone::A0,
        ThermalZone::CPU,
        ThermalZone::GPU,
        ThermalZone::PLL,
        ThermalZone::PMIC,
        ThermalZone::FAN,
    ] {
        let line = format!("thermal_zone = {}", zone.name());
        let loaded = load(&[&line]).unwrap();
        assert_eq!(loaded.config.thermal_zone, zone);
        assert!(!loaded.defaulted.thermal_zone);
    }
}

#[test]
fn first_malformed_field_is_reported() {
    let mut lines =
        ["max_perf = x", "thermal_zone = x", "interval_sec = x", "max_temp = x", "min_temp = x"];
    assert_eq!(load(&lines), Err(ConfigError::InvalidMinTemp));
    lines[4] = "min_temp = 70";
    assert_eq!(load(&lines), Err(ConfigError::InvalidMaxTemp));
    lines[3] = "max_temp = 10";
    assert_eq!(load(&lines), Err(ConfigError::InvalidInterval));
    lines[2] = "interval_sec = 1";
    assert_eq!(load(&lines), Err(ConfigError::InvalidZone));
    lines[1] = "thermal_zone = GPU";
    assert_eq!(load(&lines), Err(ConfigError::InvalidMaxPerf));
    lines[0] = "max_perf = true";
    assert_eq!(load(&lines), Err(ConfigError::BoundsOutOfOrder));
    lines[3] = "max_temp = 71";
    assert!(load(&lines).is_ok());
}

#[test]
fn section_and_keys_are_found_in_any_case() {
    for source in [
        "[configuration]\nmin_temp = 41\n",
        "[CONFIGURATION]\nMIN_TEMP = 41\n",
        "[ Configuration ]\nMin_Temp = 41\n",
        "[Configuration]\r\nmin_temp: 41\r\n",
        "[Configuration]\n    min_temp   =   41   \n",
        "[Configuration]\nmin_temp = 41 ; the fan starts here\n",
        "[Configuration]\nmin_temp = 41 # the fan starts here\n",
        "[Configuration]\nmin_temp = 12\nmin_temp = 41\n",
        "[Other]\nmin_temp = 12\n[Configuration]\nmin_temp = 41\n[Last]\nmin_temp = 13\n",
        "[Configuration]\nmin_temp\u{a0}=\u{2003}41\u{3000}\n",
    ] {
        let loaded = Config::read_conf(source).unwrap();
        assert_eq!(loaded.config.min_temp, 41, "{:?}", source);
        assert!(!loaded.defaulted.min_temp);
        assert!(loaded.defaulted.max_temp);
    }
}

#[test]
fn signs_and_extremes_are_read() {
    let loaded = load(&[
        "min_temp = -9223372036854775808",
        "max_temp = +9223372036854775807",
        "interval_sec = 18446744073709551615",
    ])
    .unwrap();
    assert_eq!(loaded.config.min_temp, i64::MIN);
    assert_eq!(loaded.config.max_temp, i64::MAX);
    assert_eq!(loaded.config.interval_sec, u64::MAX);
    assert_eq!(load(&["interval_sec = 0"]), Err(ConfigError::InvalidInterval));
    assert_eq!(load(&["interval_sec = 1"]).unwrap().config.interval_sec, 1);
    assert_eq!(load(&["interval_sec = 001"]).unwrap().config.interval_sec, 1);
    assert_eq!(load(&["interval_sec = +7"]).unwrap().config.interval_sec, 7);
    assert_eq!(load(&["min_temp = -007"]).unwrap().config.min_temp, -7);
}

#[test]
fn resolve_without_entries_gives_the_defaults() {
    assert_eq!(resolve(&no_entries()), Ok(Loaded { config: defaults(), defaulted: ALL_DEFAULTED }));
}

#[test]
fn resolve_reads_each_entry() {
    let entries = Entries {
        min_temp: text("-5"),
        max_temp: text("95"),
        interval_sec: text("10"),
        thermal_zone: text("A0"),
        max_perf: Switch::Given(false),
    };
    assert_eq!(
        resolve(&entries),
        Ok(Loaded {
            config: Config {
                min_temp: -5,
                max_temp: 95,
                interval_sec: 10,
                thermal_zone: ThermalZone::A0,
                max_perf: false,
            },
            defaulted: NONE_DEFAULTED,
        })
    );
}

#[test]
fn resolve_names_what_is_wrong() {
    let mut entries = no_entries();
    entries.min_temp = text(" 5");
    assert_eq!(resolve(&entries), Err(ConfigError::InvalidMinTemp));
    entries.min_temp = text("5");
    entries.max_temp = text("5 ");
    assert_eq!(resolve(&entries), Err(ConfigError::InvalidMaxTemp));
    entries.max_temp = text("6");
    entries.interval_sec = text("-1");
    assert_eq!(resolve(&entries), Err(ConfigError::InvalidInterval));
    entries.interval_sec = text("0");
    assert_eq!(resolve(&entries), Err(ConfigError::InvalidInterval));
    entries.interval_sec = text("1");
    entries.thermal_zone = text("fan");
    assert_eq!(resolve(&entries), Err(ConfigError::InvalidZone));
    entries.thermal_zone = text("FAN");
    entries.max_perf = Switch::Malformed;
    assert_eq!(resolve(&entries), Err(ConfigError::InvalidMaxPerf));
    entries.max_perf = Switch::Given(true);
    assert!(resolve(&entries).is_ok());
    entries.max_temp = text("5");
    assert_eq!(resolve(&entries), Err(ConfigError::BoundsOutOfOrder));
    entries.max_temp = text("4");
    assert_eq!(resolve(&entries), Err(ConfigError::BoundsOutOfOrder));
}

#[test]
fn zero_interval_is_refused_before_the_zone_is_looked_at() {
    let mut entries = no_entries();
    entries.interval_sec = text("0");
    entries.thermal_zone = text("nowhere");
    entries.max_perf = Switch::Malformed;
    assert_eq!(resolve(&entries), Err(ConfigError::InvalidInterval));
    entries.max_temp = text("high");
    assert_eq!(resolve(&entries), Err(ConfigError::InvalidMaxTemp));
}

#[test]
fn interval_is_a_number_of_at_least_one() {
    assert_eq!(parse_interval("1"), Some(1));
    assert_eq!(parse_interval("5"), Some(5));
    assert_eq!(parse_interval("+60"), Some(60));
    assert_eq!(parse_interval("18446744073709551615"), Some(u64::MAX));
    for refused in ["0", "00", "+0", "-0", "-1", "", "1s", "1.0", "18446744073709551616"] {
        assert_eq!(parse_interval(refused), None, "{:?}", refused);
    }
}

#[test]
fn an_error_comes_with_the_defaults_taken_before_it() {
    let refused = |lines: &[&str]| {
        let refused = Config::read_conf(&section(lines)).unwrap_err();
        (refused.error, marked(refused.defaulted))
    };
    assert_eq!(refused(&["min_temp = x"]), (ConfigError::InvalidMinTemp, vec![]));
    assert_eq!(refused(&["max_temp = x"]), (ConfigError::InvalidMaxTemp, vec!["min_temp"]));
    assert_eq!(
        refused(&["interval_sec = 0"]),
        (ConfigError::InvalidInterval, vec!["min_temp", "max_temp"])
    );
    assert_eq!(
        refused(&["max_temp = 70", "thermal_zone = x"]),
        (ConfigError::InvalidZone, vec!["min_temp", "interval_sec"])
    );
    assert_eq!(
        refused(&["max_perf = x"]),
        (ConfigError::InvalidMaxPerf, vec!["min_temp", "max_temp", "interval_sec", "thermal_zone"])
    );
    assert_eq!(
        refused(&["max_perf = x", "thermal_zone = GPU", "min_temp = 1"]),
        (ConfigError::InvalidMaxPerf, vec!["max_temp", "interval_sec"])
    );
    assert_eq!(
        refused(&["min_temp = 60"]),
        (
            ConfigError::BoundsOutOfOrder,
            vec!["max_temp", "interval_sec", "thermal_zone", "max_perf"]
        )
    );
    assert_eq!(
        refused(&["min_temp = 60", "max_temp = 30", "max_perf = true"]),
        (ConfigError::BoundsOutOfOrder, vec!["interval_sec", "thermal_zone"])
    );
}

#[test]
fn resolve_reports_the_defaults_taken_before_an_error() {
    let mut entries = no_entries();
    entries.thermal_zone = text("cpu");
    assert_eq!(
        Config::resolve(&entries),
        Err(Refused {
            error: ConfigError::InvalidZone,
            defaulted: Defaulted {
                min_temp: true,
                max_temp: true,
                interval_sec: true,
                thermal_zone: false,
                max_perf: false,
            },
        })
    );
}

#[test]
fn loaded_configurations_are_well_formed() {
    let accepted: [&[&str]; 5] = [
        &[],
        &["min_temp = 59"],
        &["max_temp = 31"],
        &["min_temp = -1", "max_temp = 0"],
        &["interval_sec = 1"],
    ];
    for lines in accepted {
        let loaded = load(lines).unwrap();
        assert!(loaded.config.min_temp < loaded.config.max_temp);
        assert!(loaded.config.interval_sec >= 1);
        assert!(loaded.config.is_well_formed());
    }
}

#[test]
fn well_formed_asks_for_bounds_in_order_and_a_pause() {
    let mut conf = defaults();
    assert!(conf.is_well_formed());
    conf.interval_sec = 0;
    assert!(!conf.is_well_formed());
    conf.interval_sec = 1;
    assert!(conf.is_well_formed());
    conf.min_temp = 60;
    assert!(!conf.is_well_formed());
}

#[test]
fn interval_is_a_duration_of_whole_seconds() {
    let mut conf = Config::default();
    assert_eq!(conf.get_interval(), Duration::from_secs(5));
    conf.interval_sec = 1;
    assert_eq!(conf.get_interval(), Duration::from_secs(1));
    conf.interval_sec = 86_400;
    assert_eq!(conf.get_interval().as_nanos(), 86_400_000_000_000);
    conf.interval_sec = u64::MAX;
    assert_eq!(conf.get_interval().as_secs(), u64::MAX);
    assert_eq!(conf.get_interval().subsec_nanos(), 0);
}

#[test]
fn perf_utility_is_asked_for_when_max_perf_is_set() {
    let mut conf = Config::default();
    assert_eq!(conf.set_perf(), Some("/usr/bin/jetson_clocks"));
    assert_eq!(conf.set_perf(), Some(PERF_UTILITY));
    conf.max_perf = false;
    assert_eq!(conf.set_perf(), None);
}

#[test]
fn config_path_is_fixed() {
    assert_eq!(CONFIG_PATH, "/etc/jetson-fan-ctl-rust/config.ini");
}

#[test]
fn each_error_has_its_message() {
    assert_eq!(ConfigError::Unreadable.message(), "Failed to read config.ini file");
    assert_eq!(ConfigError::InvalidMinTemp.message(), "Invalid min_temp value");
    assert_eq!(ConfigError::InvalidMaxTemp.message(), "Invalid max_temp value");
    assert_eq!(ConfigError::InvalidInterval.message(), "Invalid interval_sec value");
    assert_eq!(ConfigError::InvalidZone.message(), "Invalid zone value");
    assert_eq!(ConfigError::InvalidMaxPerf.message(), "Invalid max_perf value");
    assert_eq!(
        ConfigError::BoundsOutOfOrder.message(),
        "max temp is not above min temp. Terminating..."
    );
}

#[test]
fn a_second_text_does_not_see_the_first() {
    let first = load(&["min_temp = 10", "max_perf = false"]).unwrap();
    assert_eq!(first.config.min_temp, 10);
    assert!(!first.config.max_perf);
    let second = load(&["max_temp = 70"]).unwrap();
    assert_eq!(second.config.min_temp, 30);
    assert_eq!(second.config.max_temp, 70);
    assert!(second.config.max_perf);
    assert!(second.defaulted.min_temp);
}
