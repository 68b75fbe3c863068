//! The weather: services, answers, and when they are asked.

use hytedeck::config::{AppConfig, RawConfig, WeatherConfig, WeatherProviderKind};
use hytedeck::interval::Interval;
use hytedeck::metrics::SourceNotice;
use hytedeck::model::{Push, WeatherSnapshot};
use hytedeck::qweather_fetch::{QWeatherAction, QWeatherAnswer, QWeatherFetch};
use hytedeck::weather::{
    build_provider, extract_hhmm, open_meteo_query, qweather_now, qweather_query, qweather_today,
    wmo_to_condition, OpenMeteoCurrent, OpenMeteoDaily, OpenMeteoProvider, OpenMeteoResponse,
    QWeatherDaily, QWeatherDailyResponse, QWeatherNow, QWeatherNowResponse, QWeatherProvider,
    WeatherError, WeatherProvider, OPEN_METEO_URL, QWEATHER_3D_URL, QWEATHER_NOW_URL,
    WEATHER_TIMEOUT_SECS,
};
use hytedeck::weather_loop::{
    log_idle_once, WeatherAction, WeatherCollector, NO_KEY, NO_PLACE, SWITCHED_OFF,
};

fn json(text: &str) -> serde_json::Value {
    serde_json::from_str(text).unwrap()
}

fn text(value: &serde_json::Value) -> String {
    value.as_str().unwrap().to_string()
}

fn numbers(value: &serde_json::Value) -> Vec<f32> {
    value.as_array().unwrap().iter().map(|v| v.as_f64().unwrap() as f32).collect()
}

fn texts(value: &serde_json::Value) -> Vec<String> {
    value.as_array().unwrap().iter().map(text).collect()
}

fn open_meteo(value: &serde_json::Value) -> OpenMeteoResponse<f32> {
    let daily = &value["daily"];
    OpenMeteoResponse {
        current: OpenMeteoCurrent {
            temperature_2m: value["current"]["temperature_2m"].as_f64().unwrap() as f32,
            weather_code: value["current"]["weather_code"].as_u64().unwrap() as u32,
        },
        daily: OpenMeteoDaily {
            temperature_2m_max: numbers(&daily["temperature_2m_max"]),
            temperature_2m_min: numbers(&daily["temperature_2m_min"]),
            sunrise: texts(&daily["sunrise"]),
            sunset: texts(&daily["sunset"]),
        },
    }
}

fn now_response(value: &serde_json::Value) -> QWeatherNowResponse {
    QWeatherNowResponse {
        code: text(&value["code"]),
        now: value
            .get("now")
            .map(|now| QWeatherNow { temp: text(&now["temp"]), text: text(&now["text"]) }),
    }
}

fn daily_response(value: &serde_json::Value) -> QWeatherDailyResponse {
    QWeatherDailyResponse {
        code: text(&value["code"]),
        daily: value.get("daily").map(|days| {
            days.as_array()
                .unwrap()
                .iter()
                .map(|day| QWeatherDaily {
                    temp_max: text(&day["tempMax"]),
                    temp_min: text(&day["tempMin"]),
                    sunrise: text(&day["sunrise"]),
                    sunset: text(&day["sunset"]),
                })
                .collect()
        }),
    }
}

fn qweather() -> QWeatherProvider<f32> {
    QWeatherProvider {
        latitude: 31.23,
        longitude: 121.47,
        city_label: "上海".to_string(),
        key: "k".to_string(),
    }
}

#[test]
fn wmo_covers_each_condition_family() {
    assert_eq!(wmo_to_condition(0), "晴");
    assert_eq!(wmo_to_condition(1), "晴");
    assert_eq!(wmo_to_condition(2), "多云");
    assert_eq!(wmo_to_condition(3), "阴");
    assert_eq!(wmo_to_condition(45), "雾");
    assert_eq!(wmo_to_condition(48), "雾");
    assert_eq!(wmo_to_condition(51), "小雨");
    assert_eq!(wmo_to_condition(61), "小雨");
    assert_eq!(wmo_to_condition(63), "中雨");
    assert_eq!(wmo_to_condition(65), "大雨");
    assert_eq!(wmo_to_condition(56), "冻雨");
    assert_eq!(wmo_to_condition(66), "冻雨");
    assert_eq!(wmo_to_condition(71), "小雪");
    assert_eq!(wmo_to_condition(73), "中雪");
    assert_eq!(wmo_to_condition(75), "大雪");
    assert_eq!(wmo_to_condition(77), "雪粒");
    assert_eq!(wmo_to_condition(80), "阵雨");
    assert_eq!(wmo_to_condition(82), "强阵雨");
    assert_eq!(wmo_to_condition(85), "阵雪");
    assert_eq!(wmo_to_condition(95), "雷阵雨");
    assert_eq!(wmo_to_condition(99), "雷阵雨伴冰雹");
}

#[test]
fn wmo_unknown_code_falls_back() {
    assert_eq!(wmo_to_condition(12345), "未知");
}

#[test]
fn wmo_covers_the_remaining_codes() {
    assert_eq!(wmo_to_condition(53), "小雨");
    assert_eq!(wmo_to_condition(55), "中雨");
    assert_eq!(wmo_to_condition(57), "冻雨");
    assert_eq!(wmo_to_condition(67), "冻雨");
    assert_eq!(wmo_to_condition(81), "阵雨");
    assert_eq!(wmo_to_condition(86), "大阵雪");
    assert_eq!(wmo_to_condition(96), "雷阵雨伴冰雹");
    assert_eq!(wmo_to_condition(4), "未知");
}

#[test]
fn extract_hhmm_from_iso_datetime() {
    let s = "2026-08-11T05:43".to_string();
    assert_eq!(extract_hhmm(Some(&s)), "05:43");
}

#[test]
fn extract_hhmm_missing_returns_placeholder() {
    assert_eq!(extract_hhmm(None), "--:--");
}

#[test]
fn extract_hhmm_takes_at_most_five_characters_up_to_the_next_t() {
    let cases = [
        ("2026-08-11T05:43:12+08:00", "05:43"),
        ("2026-08-11", "--:--"),
        ("", "--:--"),
        ("T", ""),
        ("aT12Tb", "12"),
        ("T日出日落日出", "日出日落日"),
    ];
    for (iso, expected) in cases {
        assert_eq!(extract_hhmm(Some(&iso.to_string())), expected);
    }
}

#[test]
fn open_meteo_response_deserializes() {
    let text = r#"{
            "current": {"temperature_2m": 25.3, "weather_code": 2},
            "daily": {
                "temperature_2m_max": [32.1],
                "temperature_2m_min": [20.5],
                "sunrise": ["2026-08-11T05:43"],
                "sunset": ["2026-08-11T18:52"]
            }
        }"#;
    let resp = open_meteo(&json(text));
    assert_eq!(resp.current.weather_code, 2);
    assert_eq!(resp.daily.sunrise[0], "2026-08-11T05:43");

    let provider =
        OpenMeteoProvider { latitude: 31.23_f32, longitude: 121.47, city_label: "上海".into() };
    assert_eq!(
        provider.snapshot(&resp, 9),
        WeatherSnapshot {
            ts_ms: 9,
            city: "上海".to_string(),
            temp_c: 25.3,
            condition: "多云".to_string(),
            high_c: 32.1,
            low_c: 20.5,
            sunrise: "05:43".to_string(),
            sunset: "18:52".to_string(),
        }
    );
}

#[test]
fn open_meteo_without_days_shows_the_present_temperature() {
    let provider = OpenMeteoProvider { latitude: 0.0_f32, longitude: 0.0, city_label: "".into() };
    let resp = OpenMeteoResponse {
        current: OpenMeteoCurrent { temperature_2m: 7.5_f32, weather_code: 12345 },
        daily: OpenMeteoDaily {
            temperature_2m_max: Vec::new(),
            temperature_2m_min: Vec::new(),
            sunrise: Vec::new(),
            sunset: Vec::new(),
        },
    };
    let snapshot = provider.snapshot(&resp, 1);
    assert_eq!(snapshot.high_c, 7.5);
    assert_eq!(snapshot.low_c, 7.5);
    assert_eq!(snapshot.sunrise, "--:--");
    assert_eq!(snapshot.sunset, "--:--");
    assert_eq!(snapshot.condition, "未知");
}

#[test]
fn qweather_now_response_deserializes() {
    let resp = now_response(&json(r#"{"code":"200","now":{"temp":"25","text":"晴"}}"#));
    assert_eq!(resp.code, "200");
    assert_eq!(resp.now.as_ref().unwrap().text, "晴");
    assert_eq!(qweather_now(resp).unwrap().temp, "25");
}

#[test]
fn qweather_daily_response_deserializes() {
    let text = r#"{"code":"200","daily":[{"tempMax":"32","tempMin":"20","sunrise":"05:43","sunset":"18:52"}]}"#;
    let resp = daily_response(&json(text));
    let today = &resp.daily.as_ref().unwrap()[0];
    assert_eq!(today.temp_max, "32");
    assert_eq!(today.sunrise, "05:43");
    assert_eq!(qweather_today(resp).unwrap().temp_min, "20");
}

#[test]
fn qweather_answers_without_the_weather_are_errors() {
    let error = qweather_now(now_response(&json(r#"{"code":"401"}"#))).unwrap_err();
    assert_eq!(error, WeatherError::Api("qweather now: code 401".to_string()));
    assert_eq!(error.message(), "api error: qweather now: code 401");
    let error = qweather_now(now_response(&json(r#"{"code":"200"}"#))).unwrap_err();
    assert_eq!(error.message(), "api error: qweather now: missing `now` field");
    let error = qweather_today(daily_response(&json(r#"{"code":"402"}"#))).unwrap_err();
    assert_eq!(error.message(), "api error: qweather 3d: code 402");
    let error = qweather_today(daily_response(&json(r#"{"code":"200"}"#))).unwrap_err();
    assert_eq!(error.message(), "api error: qweather 3d: empty daily list");
    let error =
        qweather_today(daily_response(&json(r#"{"code":"200","daily":[]}"#))).unwrap_err();
    assert_eq!(error.message(), "api error: qweather 3d: empty daily list");
    let error = WeatherError::Http("timed out".to_string());
    assert_eq!(error.message(), "http error: timed out");
}

#[test]
fn qweather_answers_make_a_snapshot() {
    let now = || QWeatherNow { temp: "25".to_string(), text: "晴".to_string() };
    let today = || QWeatherDaily {
        temp_max: "32".to_string(),
        temp_min: "x".to_string(),
        sunrise: "05:43".to_string(),
        sunset: "18:52".to_string(),
    };
    let reading = |t: &str| t.parse::<f32>().ok();
    let snapshot = qweather().snapshot(now(), today(), reading, 4).unwrap();
    assert_eq!(
        snapshot,
        WeatherSnapshot {
            ts_ms: 4,
            city: "上海".to_string(),
            temp_c: 25.0,
            condition: "晴".to_string(),
            high_c: 32.0,
            low_c: 25.0,
            sunrise: "05:43".to_string(),
            sunset: "18:52".to_string(),
        }
    );
    let bad = QWeatherNow { temp: "a\"b".to_string(), text: "晴".to_string() };
    let error = qweather().snapshot(bad, today(), reading, 4).unwrap_err();
    assert_eq!(error.message(), "api error: qweather now: bad temp \"a\\\"b\"");
}

fn fetch(answers: Vec<QWeatherAnswer>) -> Vec<QWeatherAction<f32>> {
    let reading = |t: &str| t.parse::<f32>().ok();
    let (mut state, mut action) = QWeatherFetch::start();
    let mut actions = Vec::new();
    for answer in answers {
        actions.push(action);
        (state, action) = state.step(&qweather(), answer, reading, 6);
    }
    actions.push(action);
    actions
}

fn good_now() -> QWeatherAnswer {
    let text = r#"{"code":"200","now":{"temp":"25","text":"晴"}}"#;
    QWeatherAnswer::Now(now_response(&json(text)))
}

fn good_daily() -> QWeatherAnswer {
    let text = r#"{"code":"200","daily":[{"tempMax":"32","tempMin":"20","sunrise":"05:43","sunset":"18:52"}]}"#;
    QWeatherAnswer::Daily(daily_response(&json(text)))
}

fn failed(error: WeatherError) -> QWeatherAction<f32> {
    QWeatherAction::Done(Err(error))
}

#[test]
fn qweather_is_asked_for_the_days_once_the_present_weather_is_known() {
    let actions = fetch(vec![good_now(), good_daily(), good_daily(), good_now()]);
    let snapshot = WeatherSnapshot {
        ts_ms: 6,
        city: "上海".to_string(),
        temp_c: 25.0,
        condition: "晴".to_string(),
        high_c: 32.0,
        low_c: 20.0,
        sunrise: "05:43".to_string(),
        sunset: "18:52".to_string(),
    };
    assert_eq!(
        actions,
        vec![
            QWeatherAction::AskNow,
            QWeatherAction::AskDaily,
            QWeatherAction::Done(Ok(snapshot)),
            QWeatherAction::Wait,
            QWeatherAction::Wait,
        ]
    );
}

#[test]
fn qweather_is_not_asked_for_the_days_after_a_refusal() {
    let refused = QWeatherAnswer::Now(now_response(&json(r#"{"code":"401"}"#)));
    let error = WeatherError::Api("qweather now: code 401".to_string());
    assert_eq!(
        fetch(vec![refused, good_now()]),
        vec![QWeatherAction::AskNow, failed(error), QWeatherAction::Wait]
    );
    let error = WeatherError::Http("timed out".to_string());
    assert_eq!(
        fetch(vec![QWeatherAnswer::Failed("timed out".to_string())]),
        vec![QWeatherAction::AskNow, failed(error)]
    );
    let empty = QWeatherAnswer::Now(now_response(&json(r#"{"code":"200"}"#)));
    let error = WeatherError::Api("qweather now: missing `now` field".to_string());
    assert_eq!(fetch(vec![empty]), vec![QWeatherAction::AskNow, failed(error)]);
}

#[test]
fn qweather_days_that_fail_end_the_fetch() {
    let refused = QWeatherAnswer::Daily(daily_response(&json(r#"{"code":"402"}"#)));
    let error = WeatherError::Api("qweather 3d: code 402".to_string());
    assert_eq!(
        fetch(vec![good_now(), refused]),
        vec![QWeatherAction::AskNow, QWeatherAction::AskDaily, failed(error)]
    );
    let error = WeatherError::Http("reset".to_string());
    assert_eq!(
        fetch(vec![good_now(), QWeatherAnswer::Failed("reset".to_string())]),
        vec![QWeatherAction::AskNow, QWeatherAction::AskDaily, failed(error)]
    );
    // An answer that is not awaited is passed over.
    assert_eq!(
        fetch(vec![good_daily(), good_now(), good_now()]),
        vec![
            QWeatherAction::AskNow,
            QWeatherAction::Wait,
            QWeatherAction::AskDaily,
            QWeatherAction::Wait,
        ]
    );
    let bad = r#"{"code":"200","now":{"temp":"x","text":"晴"}}"#;
    let actions = fetch(vec![QWeatherAnswer::Now(now_response(&json(bad))), good_daily()]);
    let error = WeatherError::Api("qweather now: bad temp \"x\"".to_string());
    assert_eq!(actions[2], failed(error));
}

#[test]
fn services_are_asked_for_the_place() {
    let pair = |a: &str, b: &str| (a.to_string(), b.to_string());
    assert_eq!(
        open_meteo_query("31.23", "121.47"),
        vec![
            pair("latitude", "31.23"),
            pair("longitude", "121.47"),
            pair("current", "temperature_2m,weather_code"),
            pair("daily", "temperature_2m_max,temperature_2m_min,sunrise,sunset"),
            pair("timezone", "auto"),
        ]
    );
    assert_eq!(
        qweather_query("31.23", "121.47", "abc"),
        vec![pair("location", "121.47,31.23"), pair("key", "abc")]
    );
    assert_eq!(OPEN_METEO_URL, "https://api.open-meteo.com/v1/forecast");
    assert_eq!(QWEATHER_NOW_URL, "https://devapi.qweather.com/v7/weather/now");
    assert_eq!(QWEATHER_3D_URL, "https://devapi.qweather.com/v7/weather/3d");
    assert_eq!(WEATHER_TIMEOUT_SECS, 10);
}

#[test]
fn build_provider_qweather_without_key_is_none() {
    let cfg = WeatherConfig {
        enabled: true,
        provider: WeatherProviderKind::QWeather,
        latitude: Some(31.23),
        longitude: Some(121.47),
        city_label: "上海".to_string(),
        qweather_key: None,
    };
    assert!(build_provider(&cfg, 31.23, 121.47).is_none());
}

#[test]
fn build_provider_open_meteo_always_available() {
    let cfg = WeatherConfig {
        enabled: true,
        provider: WeatherProviderKind::OpenMeteo,
        latitude: Some(31.23),
        longitude: Some(121.47),
        city_label: "上海".to_string(),
        qweather_key: None,
    };
    assert!(build_provider(&cfg, 31.23, 121.47).is_some());
}

#[test]
fn an_empty_key_is_no_key() {
    let mut cfg = WeatherConfig {
        enabled: true,
        provider: WeatherProviderKind::QWeather,
        latitude: Some(31.23),
        longitude: Some(121.47),
        city_label: "上海".to_string(),
        qweather_key: Some(String::new()),
    };
    assert!(build_provider(&cfg, 31.23, 121.47).is_none());
    cfg.qweather_key = Some("abc".to_string());
    assert_eq!(
        build_provider(&cfg, 31.23, 121.47),
        Some(WeatherProvider::QWeather(QWeatherProvider {
            latitude: 31.23,
            longitude: 121.47,
            city_label: "上海".to_string(),
            key: "abc".to_string(),
        }))
    );
}

#[test]
fn a_reason_to_be_idle_is_logged_once() {
    let mut state: Option<&'static str> = None;
    assert!(log_idle_once(&mut state, "a"));
    assert!(!log_idle_once(&mut state, "a"));
    assert!(log_idle_once(&mut state, "b"));
    assert!(log_idle_once(&mut state, "a"));
    assert_eq!(state, Some("a"));
}

fn settings() -> AppConfig<f64> {
    RawConfig::default().into_app_config()
}

fn announced(action: WeatherAction<f64>) -> Option<&'static str> {
    match action {
        WeatherAction::AwaitSettings { announce } => announce,
        WeatherAction::Ask(_) => panic!("a service was to be asked"),
    }
}

#[test]
fn nothing_is_asked_until_the_weather_is_configured() {
    let mut collector = WeatherCollector::new();
    let mut cfg = settings();
    assert_eq!(announced(collector.wake(&cfg)), Some(NO_PLACE));
    assert_eq!(announced(collector.wake(&cfg)), None);
    cfg.weather.enabled = true;
    assert_eq!(announced(collector.wake(&cfg)), None);
    cfg.weather.enabled = false;
    cfg.weather.latitude = Some(31.23);
    cfg.weather.longitude = Some(121.47);
    assert_eq!(announced(collector.wake(&cfg)), Some(SWITCHED_OFF));
    cfg.weather.enabled = true;
    cfg.weather.provider = WeatherProviderKind::QWeather;
    assert_eq!(announced(collector.wake(&cfg)), Some(NO_KEY));
    cfg.weather.provider = WeatherProviderKind::OpenMeteo;
    assert_eq!(
        collector.wake(&cfg),
        WeatherAction::Ask(WeatherProvider::OpenMeteo(OpenMeteoProvider {
            latitude: 31.23,
            longitude: 121.47,
            city_label: String::new(),
        }))
    );
    cfg.weather.enabled = false;
    assert_eq!(announced(collector.wake(&cfg)), Some(SWITCHED_OFF));
}

#[test]
fn a_failure_publishes_nothing_and_is_logged_once() {
    let mut collector = WeatherCollector::new();
    let mut cfg = settings();
    cfg.sampling.weather = Interval::from_secs(90);
    collector.wake(&cfg);
    let snapshot = WeatherSnapshot {
        ts_ms: 1,
        city: String::new(),
        temp_c: 1.0_f32,
        condition: String::new(),
        high_c: 1.0,
        low_c: 1.0,
        sunrise: String::new(),
        sunset: String::new(),
    };
    let outcome = collector.answered(snapshot.clone());
    assert_eq!(outcome.publish, Some(Push::Weather(snapshot.clone())));
    assert_eq!(outcome.notice, Some(SourceNotice::Available));
    assert_eq!(outcome.pause, Interval::from_secs(90));
    assert_eq!(collector.answered(snapshot).notice, None);
    let outcome = collector.failed::<f32>();
    assert_eq!(outcome.publish, None);
    assert_eq!(outcome.notice, Some(SourceNotice::Unreachable));
    assert_eq!(outcome.pause, Interval::from_secs(90));
    assert_eq!(collector.failed::<f32>().notice, None);
}
