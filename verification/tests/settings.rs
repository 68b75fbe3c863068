//! Settings files: defaults, what the daemon makes of them, and when they are read again.

use hytedeck::config::{
    load_or_init, reload, AppConfig, ConfigRead, RawConfig, RawGrid, RawSampling, RawWeather,
    RawWidget, WeatherProviderKind,
};
use hytedeck::interval::Interval;
use hytedeck::model::{GridConfig, Push, ShellConfig, WidgetPlacement};
use hytedeck::paths::{config_path, log_dir};
use hytedeck::settings_text::default_toml_text;
use hytedeck::watcher::{event_touches, ChangeKind, WatchAction, WatchEvent, WatchState, QUIET_MS};
use std::path::PathBuf;

fn number(table: &toml::Table, key: &str, default: u64) -> u64 {
    match table.get(key) {
        Some(v) => v.as_integer().unwrap() as u64,
        None => default,
    }
}

fn text_of(table: &toml::Table, key: &str) -> Option<String> {
    table.get(key).map(|v| v.as_str().unwrap().to_string())
}

fn subtable(table: &toml::Table, key: &str) -> toml::Table {
    match table.get(key) {
        Some(v) => v.as_table().unwrap().clone(),
        None => toml::Table::new(),
    }
}

/// A settings file as the program reads it, entry by entry, with the library's own defaults.
fn read(text: &str) -> Result<RawConfig<f64>, toml::de::Error> {
    let table: toml::Table = toml::from_str(text)?;
    let mut raw: RawConfig<f64> = RawConfig::default();
    let s = subtable(&table, "sampling");
    let d = RawSampling::default();
    raw.sampling = RawSampling {
        system_ms: number(&s, "system_ms", d.system_ms),
        app_usage_ms: number(&s, "app_usage_ms", d.app_usage_ms),
        weather_min: number(&s, "weather_min", d.weather_min),
    };
    let w = subtable(&table, "weather");
    let d: RawWeather<f64> = RawWeather::default();
    raw.weather = RawWeather {
        enabled: w.get("enabled").map_or(d.enabled, |v| v.as_bool().unwrap()),
        provider: text_of(&w, "provider").unwrap_or(d.provider),
        latitude: w.get("latitude").map(|v| v.as_float().unwrap()),
        longitude: w.get("longitude").map(|v| v.as_float().unwrap()),
        city_label: text_of(&w, "city_label").unwrap_or(d.city_label),
        qweather_key: text_of(&w, "qweather_key"),
    };
    let g = subtable(&table, "grid");
    let d = RawGrid::default();
    raw.grid = RawGrid {
        columns: number(&g, "columns", d.columns as u64) as u32,
        row_height_px: number(&g, "row_height_px", d.row_height_px as u64) as u32,
        gap_px: number(&g, "gap_px", d.gap_px as u64) as u32,
    };
    if let Some(list) = table.get("widgets") {
        raw.widgets = Vec::new();
        for entry in list.as_array().unwrap() {
            let t = entry.as_table().unwrap();
            raw.widgets.push(RawWidget {
                kind: text_of(t, "kind").unwrap(),
                page: number(t, "page", 0) as u32,
                x: number(t, "x", 0) as u32,
                y: number(t, "y", 0) as u32,
                w: number(t, "w", 0) as u32,
                h: number(t, "h", 0) as u32,
            });
        }
    }
    Ok(raw)
}

#[test]
fn parses_full_config() {
    let text = r#"
            [sampling]
            system_ms = 2000
            app_usage_ms = 6000
            weather_min = 15

            [weather]
            enabled = true
            provider = "qweather"
            latitude = 31.23
            longitude = 121.47
            city_label = "上海"
            qweather_key = "abc123"

            [grid]
            columns = 4
            row_height_px = 150
            gap_px = 10

            [[widgets]]
            kind = "clock"
            page = 0
            x = 0
            y = 0
            w = 4
            h = 3
        "#;
    let raw = read(text).unwrap();
    let cfg = raw.into_app_config();

    assert_eq!(cfg.sampling.system, Interval::from_millis(2000));
    assert_eq!(cfg.sampling.app_usage, Interval::from_millis(6000));
    assert_eq!(cfg.sampling.weather, Interval::from_secs(15 * 60));
    assert!(cfg.weather.enabled);
    assert_eq!(cfg.weather.provider, WeatherProviderKind::QWeather);
    assert_eq!(cfg.weather.coords(), Some((31.23, 121.47)));
    assert_eq!(cfg.weather.city_label, "上海");
    assert_eq!(cfg.shell.widgets.len(), 1);
    assert_eq!(cfg.shell.widgets[0].kind, "clock");
    assert_eq!(cfg.weather.qweather_key, Some("abc123".to_string()));
    assert_eq!(cfg.shell.grid, GridConfig { columns: 4, row_height_px: 150, gap_px: 10 });
}

#[test]
fn missing_fields_fall_back_to_defaults() {
    let raw = read("").unwrap();
    let cfg = raw.into_app_config();

    assert_eq!(cfg.sampling.system, Interval::from_millis(1000));
    assert!(!cfg.weather.enabled);
    assert_eq!(cfg.weather.provider, WeatherProviderKind::OpenMeteo);
    assert_eq!(cfg.weather.coords(), None);
    assert_eq!(cfg.shell.widgets, ShellConfig::default().widgets);
}

#[test]
fn invalid_toml_syntax_is_rejected() {
    let result = read("this is not valid toml {{{");
    assert!(result.is_err());
}

#[test]
fn unknown_provider_string_falls_back_to_open_meteo() {
    let text = r#"
            [weather]
            provider = "something-else"
        "#;
    let raw = read(text).unwrap();
    let cfg = raw.into_app_config();
    assert_eq!(cfg.weather.provider, WeatherProviderKind::OpenMeteo);
}

#[test]
fn zero_intervals_are_clamped_to_a_safe_minimum() {
    let text = r#"
            [sampling]
            system_ms = 0
            app_usage_ms = 0
            weather_min = 0
        "#;
    let raw = read(text).unwrap();
    let cfg = raw.into_app_config();
    assert!(cfg.sampling.system.at_least(&Interval::from_millis(100)));
    assert!(cfg.sampling.app_usage.at_least(&Interval::from_millis(500)));
    assert!(cfg.sampling.weather.at_least(&Interval::from_secs(60)));
    assert_eq!(cfg.sampling.system, Interval::from_millis(100));
    assert_eq!(cfg.sampling.app_usage, Interval::from_millis(500));
    assert_eq!(cfg.sampling.weather, Interval::from_secs(60));
}

#[test]
fn default_toml_text_round_trips_through_parser() {
    let text = default_toml_text();
    let raw = read(&text).expect("default config must parse");
    assert_eq!(raw, RawConfig::default());
    let cfg = raw.into_app_config();
    assert_eq!(cfg.shell.widgets, ShellConfig::default().widgets);
    assert_eq!(cfg.shell.grid, GridConfig::default());
}

#[test]
fn default_file_reads_as_written() {
    let text = default_toml_text();
    let lines: Vec<&str> = text.lines().collect();
    assert_eq!(lines[4], "[sampling]");
    assert_eq!(lines[6], "system_ms = 1000");
    assert_eq!(lines[8], "app_usage_ms = 5000");
    assert_eq!(lines[10], "weather_min = 10");
    assert_eq!(lines[12], "[weather]");
    assert_eq!(lines[14], "enabled = false");
    assert_eq!(lines[16], "provider = \"open-meteo\"");
    assert_eq!(lines[18], "# latitude = 31.23");
    assert_eq!(lines[21], "city_label = \"\"");
    assert_eq!(lines[25], "[grid]");
    assert_eq!(lines[26], "columns = 4");
    assert_eq!(lines[27], "row_height_px = 160");
    assert_eq!(lines[28], "gap_px = 12");
    assert!(text.ends_with(
        "gap_px = 12\n\
         \n[[widgets]]\nkind = \"clock\"\npage = 0\nx = 0\ny = 0\nw = 4\nh = 3\n\
         \n[[widgets]]\nkind = \"metrics\"\npage = 0\nx = 0\ny = 3\nw = 4\nh = 4\n\
         \n[[widgets]]\nkind = \"weather\"\npage = 0\nx = 0\ny = 7\nw = 4\nh = 4\n\
         \n[[widgets]]\nkind = \"app_usage\"\npage = 0\nx = 0\ny = 11\nw = 4\nh = 4\n"
    ));
}

#[test]
fn widgets_go_to_the_file_form_and_back() {
    for widget in ShellConfig::default().widgets {
        let there = RawWidget::from(widget.clone());
        assert_eq!(WidgetPlacement::from(there), widget);
    }
}

#[test]
fn both_coordinates_make_a_place() {
    let mut raw: RawConfig<f64> = RawConfig::default();
    raw.weather.latitude = Some(1.5);
    assert_eq!(raw.into_app_config().weather.coords(), None);
    let mut raw: RawConfig<f64> = RawConfig::default();
    raw.weather.longitude = Some(2.5);
    assert_eq!(raw.into_app_config().weather.coords(), None);
}

#[test]
fn settings_start_from_the_file_or_the_defaults() {
    let defaults: AppConfig<f64> = RawConfig::default().into_app_config();
    let mut raw: RawConfig<f64> = RawConfig::default();
    raw.sampling.system_ms = 250;
    let parsed = load_or_init(ConfigRead::Parsed(raw));
    assert_eq!(parsed.config.sampling.system, Interval::from_millis(250));
    assert_eq!(parsed.write_defaults, None);
    let missing = load_or_init(ConfigRead::Missing);
    assert_eq!(missing.config, defaults);
    assert_eq!(missing.write_defaults, Some(default_toml_text()));
    let second = load_or_init(ConfigRead::Parsed(read(&default_toml_text()).unwrap()));
    assert_eq!(second.config, defaults);
    assert_eq!(second.write_defaults, None);
    let broken = load_or_init(ConfigRead::Malformed);
    assert_eq!(broken.config, defaults);
    assert_eq!(broken.write_defaults, None);
    let unreadable = load_or_init(ConfigRead::Unreadable);
    assert_eq!(unreadable.config, defaults.clone());
    assert_eq!(unreadable.write_defaults, None);
}

#[test]
fn a_broken_file_keeps_the_settings_in_force() {
    assert!(reload::<f64, f32>(ConfigRead::Malformed).is_none());
    assert!(reload::<f64, f32>(ConfigRead::Missing).is_none());
    assert!(reload::<f64, f32>(ConfigRead::Unreadable).is_none());
    let mut raw: RawConfig<f64> = RawConfig::default();
    raw.grid.columns = 6;
    let reloaded = reload::<f64, f32>(ConfigRead::Parsed(raw)).unwrap();
    assert_eq!(reloaded.config.shell.grid.columns, 6);
    assert_eq!(reloaded.push, Push::Config(reloaded.config.shell.clone()));
}

#[test]
fn a_burst_of_changes_reloads_once() {
    let mut state = WatchState::Idle;
    assert_eq!(QUIET_MS, 500);
    assert_eq!(state.step(WatchEvent::Change { touches: false }), WatchAction::WaitQuiet);
    assert_eq!(state.step(WatchEvent::Change { touches: true }), WatchAction::WaitQuiet);
    assert_eq!(state.step(WatchEvent::Change { touches: false }), WatchAction::WaitQuiet);
    assert_eq!(state.step(WatchEvent::Quiet), WatchAction::Reload);
    assert_eq!(state, WatchState::Idle);
    assert_eq!(state.step(WatchEvent::Change { touches: false }), WatchAction::WaitQuiet);
    assert_eq!(state.step(WatchEvent::Quiet), WatchAction::Wait);
    assert_eq!(state.step(WatchEvent::Change { touches: true }), WatchAction::WaitQuiet);
    assert_eq!(state.step(WatchEvent::Closed), WatchAction::Stop);
    assert_eq!(state.step(WatchEvent::Change { touches: true }), WatchAction::Stop);
    assert_eq!(state, WatchState::Ended);
}

#[test]
fn only_reports_on_the_file_touch_it() {
    let target = PathBuf::from("dir/config.toml");
    let other = PathBuf::from("dir/config.toml.swp");
    let both = vec![other.clone(), target.clone()];
    for kind in [ChangeKind::Created, ChangeKind::Modified, ChangeKind::Removed] {
        assert!(event_touches(Some((kind, &both)), &target));
        assert!(!event_touches(Some((kind, &vec![other.clone()])), &target));
        assert!(!event_touches(Some((kind, &Vec::new())), &target));
    }
    assert!(!event_touches(Some((ChangeKind::Other, &both)), &target));
    assert!(!event_touches(None, &target));
}

#[test]
fn settings_and_logs_have_a_place() {
    let path = config_path(Some(PathBuf::from("appdata")), PathBuf::from("temp"));
    assert_eq!(path.base, PathBuf::from("appdata"));
    assert_eq!(path.segments, vec!["auxdeck", "config.toml"]);
    let path = log_dir(None, PathBuf::from("temp"));
    assert_eq!(path.base, PathBuf::from("temp"));
    assert_eq!(path.segments, vec!["auxdeck", "logs"]);
}
