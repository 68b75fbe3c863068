//! App usage: counting, rolling over to a new day, ranking and saving.

use hytedeck::day::Day;
use hytedeck::interval::Interval;
use hytedeck::model::{AppUsageSnapshot, Push};
use hytedeck::paths::{day_file, usage_dir};
use hytedeck::usage::{UsageTotals, UsageTracker, TOP_N};
use hytedeck::usage_loop::{
    day_before, day_totals, process_name, DayRead, UsageCollector, UsageSave,
    PERSIST_INTERVAL_MS,
};

fn date(y: i32, m: u32, d: u32) -> Day {
    Day::from_ymd_opt(y, m, d).unwrap()
}

fn totals(entries: &[(&str, u64)]) -> UsageTotals {
    let mut totals = UsageTotals::new();
    for (name, secs) in entries {
        totals.insert(name.to_string(), *secs);
    }
    totals
}

fn usage_of(push: Push<f32>) -> AppUsageSnapshot {
    match push {
        Push::AppUsage(snapshot) => snapshot,
        _ => panic!("not an app usage push"),
    }
}

#[test]
fn accumulates_same_process_across_ticks() {
    let mut tracker =
        UsageTracker::new(date(2026, 8, 11), UsageTotals::new(), UsageTotals::new());
    tracker.record(date(2026, 8, 11), Some("firefox"), Interval::from_secs(5));
    tracker.record(date(2026, 8, 11), Some("firefox"), Interval::from_secs(5));
    tracker.record(date(2026, 8, 11), Some("code"), Interval::from_secs(5));

    assert_eq!(tracker.today().get("firefox"), Some(&10));
    assert_eq!(tracker.today().get("code"), Some(&5));
}

#[test]
fn none_process_does_not_add_entries() {
    let mut tracker =
        UsageTracker::new(date(2026, 8, 11), UsageTotals::new(), UsageTotals::new());
    tracker.record(date(2026, 8, 11), None, Interval::from_secs(5));
    assert!(tracker.today().is_empty());
}

#[test]
fn rolls_today_into_yesterday_on_date_change() {
    let mut today = UsageTotals::new();
    today.insert("firefox".to_string(), 120u64);
    let mut tracker = UsageTracker::new(date(2026, 8, 11), today, UsageTotals::new());

    tracker.record(date(2026, 8, 12), Some("code"), Interval::from_secs(5));

    assert_eq!(tracker.day(), date(2026, 8, 12));
    assert_eq!(tracker.today().get("code"), Some(&5));
    assert_eq!(tracker.today().get("firefox"), None);

    let snap = tracker.snapshot(0);
    let code_entry = snap.top.iter().find(|e| e.name == "code").unwrap();
    assert_eq!(code_entry.yesterday_secs, 0);
}

#[test]
fn rolls_across_multi_day_gap_using_last_known_day_as_yesterday() {
    let mut today = UsageTotals::new();
    today.insert("firefox".to_string(), 120u64);
    let mut tracker = UsageTracker::new(date(2026, 8, 8), today, UsageTotals::new());

    tracker.record(date(2026, 8, 11), Some("code"), Interval::from_secs(5));

    assert_eq!(tracker.day(), date(2026, 8, 11));
    let snap = tracker.snapshot(0);
    let code_entry = snap.top.iter().find(|e| e.name == "code").unwrap();
    assert_eq!(code_entry.today_secs, 5);
}

#[test]
fn ignores_clock_rollback() {
    let mut tracker =
        UsageTracker::new(date(2026, 8, 11), UsageTotals::new(), UsageTotals::new());
    tracker.record(date(2026, 8, 11), Some("firefox"), Interval::from_secs(5));

    let rolled = tracker.roll_to(date(2026, 8, 10));

    assert!(!rolled);
    assert_eq!(tracker.day(), date(2026, 8, 11));
    assert_eq!(tracker.today().get("firefox"), Some(&5));
}

#[test]
fn snapshot_top_n_sorted_desc_with_yesterday_compare() {
    let mut today = UsageTotals::new();
    today.insert("a".into(), 10);
    today.insert("b".into(), 30);
    today.insert("c".into(), 20);
    today.insert("d".into(), 5);
    today.insert("e".into(), 1);
    today.insert("f".into(), 50);
    let mut yesterday = UsageTotals::new();
    yesterday.insert("b".into(), 15);
    let tracker = UsageTracker::new(date(2026, 8, 11), today, yesterday);

    let snap = tracker.snapshot(123);

    assert_eq!(snap.ts_ms, 123);
    assert_eq!(snap.top.len(), 5);
    assert_eq!(snap.top[0].name, "f");
    assert_eq!(snap.top[0].today_secs, 50);
    assert_eq!(snap.top[1].name, "b");
    assert_eq!(snap.top[1].yesterday_secs, 15);
    assert!(!snap.top.iter().any(|e| e.name == "e"));
}

#[test]
fn snapshot_tie_break_is_deterministic_by_name() {
    let mut today = UsageTotals::new();
    today.insert("zeta".into(), 10);
    today.insert("alpha".into(), 10);
    let tracker = UsageTracker::new(date(2026, 8, 11), today, UsageTotals::new());

    let snap = tracker.snapshot(0);

    assert_eq!(snap.top[0].name, "alpha");
    assert_eq!(snap.top[1].name, "zeta");
}

#[test]
fn yesterday_is_the_last_day_with_a_record() {
    let today = totals(&[("firefox", 120)]);
    let mut tracker = UsageTracker::new(date(2026, 8, 8), today, totals(&[("old", 9)]));
    tracker.record(date(2026, 8, 11), Some("firefox"), Interval::from_secs(5));

    let snap = tracker.snapshot(0);
    assert_eq!(snap.top.len(), 1);
    assert_eq!(snap.top[0].today_secs, 5);
    assert_eq!(snap.top[0].yesterday_secs, 120);
}

#[test]
fn only_whole_seconds_count() {
    let mut tracker =
        UsageTracker::new(date(2026, 8, 11), UsageTotals::new(), UsageTotals::new());
    tracker.record(date(2026, 8, 11), Some("code"), Interval::from_millis(5999));
    assert_eq!(tracker.today().get("code"), Some(&5));
    tracker.record(date(2026, 8, 11), Some("code"), Interval::from_millis(999));
    assert_eq!(tracker.today().get("code"), Some(&5));
}

#[test]
fn a_sample_from_a_clock_set_back_counts_for_the_current_day() {
    let mut tracker = UsageTracker::new(
        date(2026, 8, 11),
        totals(&[("code", 1)]),
        totals(&[("code", 7)]),
    );
    tracker.record(date(2026, 8, 9), Some("code"), Interval::from_secs(2));
    assert_eq!(tracker.day(), date(2026, 8, 11));
    assert_eq!(tracker.today().get("code"), Some(&3));
    assert_eq!(tracker.snapshot(0).top[0].yesterday_secs, 7);
}

#[test]
fn two_samples_count_as_one_of_both_lengths_in_any_order() {
    let day = date(2026, 8, 11);
    let mut split = UsageTracker::new(day, UsageTotals::new(), UsageTotals::new());
    split.record(day, Some("code"), Interval::from_secs(2));
    split.record(day, Some("vim"), Interval::from_secs(4));
    split.record(day, Some("code"), Interval::from_secs(3));
    let mut whole = UsageTracker::new(day, UsageTotals::new(), UsageTotals::new());
    whole.record(day, Some("vim"), Interval::from_secs(4));
    whole.record(day, Some("code"), Interval::from_secs(5));
    assert_eq!(split.snapshot(9), whole.snapshot(9));
}

#[test]
fn the_day_is_the_latest_seen_however_the_clock_jumps() {
    let mut tracker =
        UsageTracker::new(date(2026, 8, 11), UsageTotals::new(), UsageTotals::new());
    for (m, d) in [(8, 10), (8, 14), (7, 30), (8, 12)] {
        tracker.record(date(2026, m, d), Some("code"), Interval::from_secs(1));
    }
    assert_eq!(tracker.day(), date(2026, 8, 14));
    assert_eq!(tracker.today().get("code"), Some(&3));
    assert_eq!(tracker.snapshot(0).top[0].yesterday_secs, 1);
}

#[test]
fn the_order_of_storing_never_shows() {
    let day = date(2026, 8, 11);
    let names = ["f", "b", "a", "e", "d", "c", "g"];
    let forward: Vec<(&str, u64)> = names.iter().map(|n| (*n, 10)).collect();
    let backward: Vec<(&str, u64)> = names.iter().rev().map(|n| (*n, 10)).collect();
    let a = UsageTracker::new(day, totals(&forward), UsageTotals::new()).snapshot(1);
    let b = UsageTracker::new(day, totals(&backward), UsageTotals::new()).snapshot(1);
    assert_eq!(a, b);
    assert_eq!(a.top.len(), TOP_N);
    let listed: Vec<&str> = a.top.iter().map(|e| e.name.as_str()).collect();
    assert_eq!(listed, vec!["a", "b", "c", "d", "e"]);
}

#[test]
fn names_are_ordered_like_strings() {
    let names = ["Zeta", "alpha", "al", "", "上海", "é", "~"];
    let mut sorted: Vec<&str> = names.to_vec();
    sorted.sort();
    sorted.truncate(TOP_N);
    let entries: Vec<(&str, u64)> = names.iter().map(|n| (*n, 1)).collect();
    let snap =
        UsageTracker::new(date(2026, 8, 11), totals(&entries), UsageTotals::new()).snapshot(0);
    let listed: Vec<&str> = snap.top.iter().map(|e| e.name.as_str()).collect();
    assert_eq!(listed, sorted);
}

#[test]
fn totals_hold_each_name_once() {
    let mut t = totals(&[("a", 1), ("b", 2)]);
    t.insert("a".to_string(), 3);
    assert_eq!(t.len(), 2);
    assert_eq!(t.get("a"), Some(&3));
    assert_eq!(t.get("b"), Some(&2));
    assert_eq!(t.get("c"), None);
    assert!(!t.is_empty());
    assert_eq!(t.entries().len(), 2);
}

#[test]
fn executables_are_counted_without_their_extension() {
    assert_eq!(process_name("firefox.exe"), "firefox");
    assert_eq!(process_name("firefox"), "firefox");
    assert_eq!(process_name("a.exe.exe"), "a.exe");
    assert_eq!(process_name(".exe"), "");
    assert_eq!(process_name("FIREFOX.EXE"), "FIREFOX.EXE");
    assert_eq!(process_name("exe"), "exe");
    assert_eq!(process_name(""), "");
    assert_eq!(process_name("画图.exe"), "画图");
}

#[test]
fn a_day_starts_from_what_was_saved_or_from_nothing() {
    assert_eq!(day_totals(DayRead::Parsed(totals(&[("a", 4)]))), totals(&[("a", 4)]));
    assert!(day_totals(DayRead::Malformed).is_empty());
    assert!(day_totals(DayRead::Unreadable).is_empty());
}

#[test]
fn the_day_before_is_the_calendar_day_before() {
    assert_eq!(day_before(&date(2026, 8, 11)), date(2026, 8, 10));
    assert_eq!(day_before(&date(2024, 3, 1)), date(2024, 2, 29));
    assert_eq!(day_before(&date(2026, 1, 1)), date(2025, 12, 31));
    let first = date(-262143, 1, 1);
    assert_eq!(day_before(&first), first);
}

#[test]
fn usage_is_saved_at_most_once_a_minute_and_only_if_it_changed() {
    let day = date(2026, 8, 11);
    let five = Interval::from_secs(5);
    let minute = Interval::from_millis(PERSIST_INTERVAL_MS);
    let mut c = UsageCollector::new(day, UsageTotals::new(), UsageTotals::new());

    let almost = Interval::from_millis(59_999);
    let none: Option<UsageSave<f32>> = c.tick(day, None, five, minute, 1);
    assert!(none.is_none());
    let none: Option<UsageSave<f32>> = c.tick(day, Some("code"), five, almost, 2);
    assert!(none.is_none());
    let save: UsageSave<f32> = c.tick(day, None, five, minute, 3).unwrap();
    assert_eq!(save.day, day);
    assert_eq!(save.totals, totals(&[("code", 5)]));
    let pushed = usage_of(save.push);
    assert_eq!(pushed.ts_ms, 3);
    assert_eq!(pushed.top.len(), 1);
    assert_eq!(pushed.top[0].today_secs, 5);
    let none: Option<UsageSave<f32>> = c.tick(day, None, five, minute, 4);
    assert!(none.is_none());
    let save: UsageSave<f32> = c.tick(day, Some("code"), five, minute, 5).unwrap();
    assert_eq!(save.totals, totals(&[("code", 10)]));
    assert_eq!(usage_of(save.push).top[0].today_secs, 10);
    assert_eq!(c.tracker().today().get("code"), Some(&10));
}

#[test]
fn saves_are_a_minute_apart_in_a_run_and_follow_a_sighting() {
    let day = date(2026, 8, 11);
    let mut c = UsageCollector::new(day, UsageTotals::new(), UsageTotals::new());
    let mut last_save = 0;
    let mut saves = Vec::new();
    // A tick every five seconds; a program is in front during the first two minutes, and at the end.
    for k in 1..=60_u64 {
        let now = 5 * k;
        let process = if now <= 120 || now >= 290 { Some("code") } else { None };
        let since = Interval::from_secs(now - last_save);
        let save: Option<UsageSave<f32>> =
            c.tick(day, process, Interval::from_secs(5), since, now);
        if let Some(save) = save {
            assert_eq!(&save.totals, c.tracker().today());
            last_save = now;
            saves.push((now, *save.totals.get("code").unwrap()));
        }
    }
    assert_eq!(saves, vec![(60, 60), (120, 120), (290, 125)]);
}

#[test]
fn totals_are_equal_however_they_came_about() {
    let a = totals(&[("b", 2), ("a", 1), ("c", 3)]);
    let b = totals(&[("c", 9), ("a", 1), ("c", 3), ("b", 2)]);
    assert_eq!(a, b);
    assert_eq!(a.clone(), a);
    assert_ne!(a, totals(&[("a", 1), ("b", 2)]));
    let names: Vec<&str> = a.entries().iter().map(|e| e.0.as_str()).collect();
    assert_eq!(names, vec!["a", "b", "c"]);
    let mut apart = a.entries().clone();
    apart.reverse();
    assert_eq!(UsageTotals::from_entries(apart), a);
    let twice = vec![("x".to_string(), 1), ("y".to_string(), 2), ("x".to_string(), 3)];
    assert_eq!(UsageTotals::from_entries(twice), totals(&[("x", 3), ("y", 2)]));
}

#[test]
fn saved_totals_are_read_back() {
    let saved = totals(&[("firefox", 120), ("画图", 7), ("a\"b", 1)]);
    let mut object = serde_json::Map::new();
    for (name, secs) in saved.entries() {
        object.insert(name.clone(), serde_json::Value::from(*secs));
    }
    let text = serde_json::to_string_pretty(&serde_json::Value::Object(object)).unwrap();
    let parsed: std::collections::HashMap<String, u64> = serde_json::from_str(&text).unwrap();
    let loaded = UsageTotals::from_entries(parsed.into_iter().collect());
    assert_eq!(day_totals(DayRead::Parsed(loaded)), saved);
}

#[test]
fn the_first_push_comes_even_with_nothing_counted() {
    let c = UsageCollector::new(date(2026, 8, 11), UsageTotals::new(), totals(&[("a", 3)]));
    let first = usage_of(c.first_push(77));
    assert_eq!(first.ts_ms, 77);
    assert!(first.top.is_empty());
}

#[test]
fn days_are_those_of_the_gregorian_calendar() {
    assert!(Day::from_ymd_opt(2024, 2, 29).is_some());
    assert!(Day::from_ymd_opt(2026, 2, 29).is_none());
    assert!(Day::from_ymd_opt(2000, 2, 29).is_some());
    assert!(Day::from_ymd_opt(1900, 2, 29).is_none());
    assert!(Day::from_ymd_opt(2026, 4, 31).is_none());
    assert!(Day::from_ymd_opt(2026, 0, 1).is_none());
    assert!(Day::from_ymd_opt(2026, 13, 1).is_none());
    assert!(Day::from_ymd_opt(2026, 1, 0).is_none());
    assert!(Day::from_ymd_opt(262142, 12, 31).is_some());
    assert!(Day::from_ymd_opt(262143, 1, 1).is_none());
    assert!(Day::from_ymd_opt(-262143, 1, 1).is_some());
    assert!(Day::from_ymd_opt(-262144, 12, 31).is_none());
}

#[test]
fn days_have_an_order_and_a_text() {
    let day = date(2026, 8, 11);
    assert_eq!((day.year(), day.month(), day.day()), (2026, 8, 11));
    assert!(day.is_after(&date(2026, 8, 10)));
    assert!(day.is_after(&date(2026, 7, 31)));
    assert!(day.is_after(&date(2025, 12, 31)));
    assert!(!day.is_after(&day));
    assert!(!day.is_after(&date(2026, 9, 1)));
    assert_eq!(day.text(), "2026-08-11");
    assert_eq!(date(7, 1, 2).text(), "0007-01-02");
    assert_eq!(date(12345, 10, 20).text(), "+12345-10-20");
    assert_eq!(date(-44, 3, 15).text(), "-0044-03-15");
    assert_eq!(day.pred_opt(), Some(date(2026, 8, 10)));
    assert_eq!(date(-262143, 1, 1).pred_opt(), None);
}

#[test]
fn each_day_is_saved_in_a_file_of_its_own() {
    let dir = usage_dir(Some("appdata"), "temp");
    assert_eq!(dir.base, "appdata");
    assert_eq!(dir.segments, vec!["HyteDeck", "usage"]);
    let file = day_file(None, "temp", &date(2026, 8, 11));
    assert_eq!(file.base, "temp");
    assert_eq!(file.segments, vec!["HyteDeck", "usage", "2026-08-11.json"]);
    assert_ne!(file, day_file(None, "temp", &date(2026, 8, 12)));
}
