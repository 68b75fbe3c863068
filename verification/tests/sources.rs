//! Sources of metrics: the sensor tree, what each collector contributes, and what is logged.

use hytedeck::availability::AvailabilityState;
use hytedeck::lhm::{
    extract_cpu_temp, find_by_text, lhm_metrics, number_prefix, parse_leading_number, LhmNode, LHM_TIMEOUT_MS,
    LHM_URL,
};
use hytedeck::metrics::{
    cpu_metrics, cpu_temp_metrics, gpu_metrics, sample_once, GpuSample, PartialMetrics,
    SourceNotice,
};

fn text_of(value: &serde_json::Value, key: &str) -> String {
    match value.get(key) {
        Some(t) => t.as_str().unwrap().to_string(),
        None => String::new(),
    }
}

fn node_of(value: &serde_json::Value) -> LhmNode {
    let children = match value.get("Children") {
        Some(list) => list.as_array().unwrap().iter().map(node_of).collect(),
        None => Vec::new(),
    };
    LhmNode { text: text_of(value, "Text"), value: text_of(value, "Value"), children }
}

fn tree(json: &str) -> LhmNode {
    let value: serde_json::Value = serde_json::from_str(json).unwrap();
    node_of(&value)
}

fn reading(text: &str) -> Option<f32> {
    text.parse::<f32>().ok()
}

fn leaf(text: &str, value: &str) -> LhmNode {
    LhmNode { text: text.to_string(), value: value.to_string(), children: Vec::new() }
}

#[test]
fn hits_core_tctl_nested() {
    let json = r#"{
            "Text": "Computer",
            "Value": "",
            "Children": [
                {
                    "Text": "MYPC",
                    "Value": "",
                    "Children": [
                        {
                            "Text": "AMD Ryzen 9",
                            "Value": "",
                            "Children": [
                                { "Text": "Voltage", "Value": "1.2 V", "Children": [] },
                                { "Text": "Core (Tctl/Tdie)", "Value": "65.5 °C", "Children": [] }
                            ]
                        }
                    ]
                }
            ]
        }"#;
    let root = tree(json);
    assert_eq!(extract_cpu_temp(&root, reading), Some(65.5_f32));
}

#[test]
fn no_temperature_node_returns_none() {
    let json = r#"{
            "Text": "Computer",
            "Value": "",
            "Children": [
                {
                    "Text": "MYPC",
                    "Value": "",
                    "Children": [
                        { "Text": "Fan #1", "Value": "1200 RPM", "Children": [] },
                        { "Text": "Voltage", "Value": "1.2 V", "Children": [] }
                    ]
                }
            ]
        }"#;
    let root = tree(json);
    assert_eq!(extract_cpu_temp(&root, reading), None);
}

#[test]
fn falls_back_to_cpu_package_when_tctl_missing() {
    let json = r#"{
            "Text": "Computer",
            "Value": "",
            "Children": [
                { "Text": "CPU Package", "Value": "58.0 °C", "Children": [] }
            ]
        }"#;
    let root = tree(json);
    assert_eq!(extract_cpu_temp(&root, reading), Some(58.0_f32));
}

#[test]
fn a_preferred_sensor_without_a_number_ends_the_search() {
    let mut root = leaf("Computer", "");
    root.children.push(leaf("Package", "40 °C"));
    root.children.push(leaf("Core (Tctl/Tdie)", "-"));
    assert_eq!(extract_cpu_temp(&root, reading), None);
    root.children.push(leaf("CPU Package", "50 °C"));
    assert_eq!(extract_cpu_temp(&root, reading), None);
    let mut root = leaf("Computer", "");
    root.children.push(leaf("CPU Package", "58.0 °C"));
    root.children.push(leaf("Core (Tctl/Tdie)", ""));
    assert_eq!(extract_cpu_temp(&root, reading), None);
}

#[test]
fn the_preferred_sensor_counts_wherever_it_stands() {
    let mut root = leaf("Computer", "");
    root.children.push(leaf("Package", "40 °C"));
    root.children.push(leaf("CPU Package", "50 °C"));
    assert_eq!(extract_cpu_temp(&root, reading), Some(50.0));
    root.children.push(leaf("Core (Tctl/Tdie)", "60 °C"));
    assert_eq!(extract_cpu_temp(&root, reading), Some(60.0));
}

#[test]
fn every_kind_of_white_space_in_front_is_left_out() {
    let space = "\t\n\u{b}\u{c}\r \u{85}\u{a0}\u{1680}\u{2000}\u{200a}\u{2028}\u{2029}\u{202f}\u{205f}\u{3000}";
    assert_eq!(parse_leading_number(&format!("{space}7 W"), &reading), Some(7.0));
    assert_eq!(parse_leading_number("\u{200b}7 W", &reading), None);
    assert_eq!(parse_leading_number("\u{feff}7 W", &reading), None);
    // The whole set, one character after the other.
    for c in (0..=0x10ffff_u32).filter_map(char::from_u32) {
        let listed = matches!(c, '\u{9}'..='\u{d}' | ' ' | '\u{85}' | '\u{a0}' | '\u{1680}'
            | '\u{2000}'..='\u{200a}' | '\u{2028}' | '\u{2029}' | '\u{202f}' | '\u{205f}' | '\u{3000}');
        assert_eq!(c.is_whitespace(), listed);
    }
}

#[test]
fn of_two_sensors_of_one_name_the_first_from_the_top_counts() {
    let mut deep = leaf("A", "");
    deep.children.push(leaf("Package", "1"));
    let mut root = leaf("Computer", "");
    root.children.push(deep);
    root.children.push(leaf("Package", "2"));
    let found = find_by_text(&root, "Package").unwrap();
    assert_eq!(found.value, "1");
    assert!(find_by_text(&root, "package").is_none());
    assert_eq!(find_by_text(&root, "Computer").unwrap().children.len(), 2);
    // The first one decides, even if only the second could be read.
    let mut root = leaf("Computer", "");
    root.children.push(leaf("Package", "n/a"));
    root.children.push(leaf("Package", "2"));
    assert_eq!(extract_cpu_temp(&root, reading), None);
}

#[test]
fn the_number_at_the_front_is_read() {
    assert_eq!(parse_leading_number("65.5 °C", &reading), Some(65.5));
    assert_eq!(parse_leading_number("  \t65.5 °C", &reading), Some(65.5));
    assert_eq!(parse_leading_number("\u{3000}-3,5", &reading), Some(-3.0));
    assert_eq!(parse_leading_number("+7", &reading), Some(7.0));
    assert_eq!(parse_leading_number("1-2", &reading), None);
    assert_eq!(parse_leading_number("°C", &reading), None);
    assert_eq!(parse_leading_number("", &reading), None);
    assert_eq!(number_prefix("12.5abc"), "12.5");
    assert_eq!(number_prefix(" 12"), "");
}

#[test]
fn the_sensor_tree_is_asked_for_locally() {
    assert_eq!(LHM_URL, "http://localhost:8085/data.json");
    assert_eq!(LHM_TIMEOUT_MS, 800);
}

#[test]
fn merging_takes_over_every_reading_there_is() {
    let mut m: PartialMetrics<f32> = PartialMetrics::default();
    assert_eq!(m.cpu_usage, None);
    m.merge(cpu_metrics(12.5, true));
    m.merge(PartialMetrics { gpu_temp: Some(38.0), ..PartialMetrics::default() });
    m.merge(PartialMetrics::default());
    m.merge(PartialMetrics { cpu_usage: Some(13.0), ..PartialMetrics::default() });
    assert_eq!(
        m,
        PartialMetrics {
            cpu_usage: Some(13.0),
            cpu_temp: None,
            gpu_usage: None,
            gpu_temp: Some(38.0),
        }
    );
}

#[test]
fn a_failed_collector_takes_nothing_from_the_others() {
    let cpu = cpu_metrics(12.5_f32, true);
    let gpu = PartialMetrics {
        cpu_usage: None,
        cpu_temp: None,
        gpu_usage: Some(4.0),
        gpu_temp: Some(38.0),
    };
    let with = sample_once(&vec![cpu, PartialMetrics::default(), gpu], 7, 0.0);
    let without = sample_once(&vec![cpu, gpu], 7, 0.0);
    assert_eq!(with, without);
    assert_eq!(with.ts_ms, 7);
    assert_eq!(with.cpu_usage, 12.5);
    assert_eq!(with.cpu_temp, None);
    assert_eq!(with.gpu_usage, Some(4.0));
    assert_eq!(with.gpu_temp, Some(38.0));
    let reversed = sample_once(&vec![gpu, cpu], 7, 0.0);
    assert_eq!(reversed, without);
    let empty: Vec<PartialMetrics<f32>> = Vec::new();
    assert_eq!(sample_once(&empty, 1, 0.0).cpu_usage, 0.0);
}

#[test]
fn a_cpu_usage_that_is_no_number_is_left_out() {
    let usage = f32::NAN;
    assert_eq!(cpu_metrics(usage, usage.is_finite()), PartialMetrics::default());
    assert_eq!(cpu_metrics(3.0, true).cpu_usage, Some(3.0));
}

#[test]
fn gpu_readings_are_contributed_and_changes_logged() {
    let mut a = AvailabilityState::new();
    let none: GpuSample<f32> = GpuSample::NoDriver;
    let c = gpu_metrics(&mut a, none);
    assert_eq!((c.metrics, c.notice), (PartialMetrics::default(), None));
    let c = gpu_metrics(&mut a, GpuSample::Readings { usage: Some(4.0), temp: None });
    assert_eq!(c.metrics.gpu_usage, Some(4.0));
    assert_eq!(c.metrics.gpu_temp, None);
    assert_eq!(c.notice, Some(SourceNotice::Available));
    let c = gpu_metrics(&mut a, GpuSample::Readings { usage: None, temp: Some(38.0) });
    assert_eq!(c.metrics.gpu_temp, Some(38.0));
    assert_eq!(c.notice, None);
    let c: hytedeck::metrics::Collected<f32> = gpu_metrics(&mut a, GpuSample::Failed);
    assert_eq!((c.metrics, c.notice), (PartialMetrics::default(), Some(SourceNotice::Unreachable)));
    let blank: GpuSample<f32> = GpuSample::Readings { usage: None, temp: None };
    assert_eq!(gpu_metrics(&mut a, blank).notice, None);
    let mut a = AvailabilityState::default();
    let blank: GpuSample<f32> = GpuSample::Readings { usage: None, temp: None };
    assert_eq!(gpu_metrics(&mut a, blank).notice, Some(SourceNotice::NoData));
}

#[test]
fn cpu_temperatures_are_contributed_and_changes_logged() {
    let mut a = AvailabilityState::new();
    let c = cpu_temp_metrics(&mut a, Some(Some(65.5_f32)));
    assert_eq!(c.metrics.cpu_temp, Some(65.5));
    assert_eq!(c.notice, Some(SourceNotice::Available));
    let c = cpu_temp_metrics::<f32>(&mut a, Some(None));
    assert_eq!(c.metrics, PartialMetrics::default());
    assert_eq!(c.notice, Some(SourceNotice::NoData));
    assert_eq!(cpu_temp_metrics::<f32>(&mut a, None).notice, None);
    let mut a = AvailabilityState::new();
    assert_eq!(cpu_temp_metrics::<f32>(&mut a, None).notice, Some(SourceNotice::Unreachable));
}

#[test]
fn a_sensor_tree_contributes_its_cpu_temperature() {
    let mut a = AvailabilityState::new();
    let mut root = leaf("Computer", "");
    let c = lhm_metrics(&mut a, Some(&root), reading);
    assert_eq!((c.metrics, c.notice), (PartialMetrics::default(), Some(SourceNotice::NoData)));
    root.children.push(leaf("Package", "40 °C"));
    let c = lhm_metrics(&mut a, Some(&root), reading);
    assert_eq!(c.metrics, PartialMetrics { cpu_temp: Some(40.0), ..PartialMetrics::default() });
    assert_eq!(c.notice, Some(SourceNotice::Available));
    let c = lhm_metrics(&mut a, None, reading);
    assert_eq!((c.metrics, c.notice), (PartialMetrics::default(), Some(SourceNotice::Unreachable)));
}

#[test]
fn only_changes_are_news() {
    let mut a = AvailabilityState::new();
    assert_eq!(a.note(false), Some(false));
    assert_eq!(a.note(false), None);
    assert_eq!(a.note(true), Some(true));
    assert_eq!(a.note(true), None);
    assert_eq!(a.note(false), Some(false));
}
