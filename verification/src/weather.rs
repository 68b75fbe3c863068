//! The weather services: what they are asked, and what their answers mean.

use crate::config::{WeatherConfig, WeatherPlan, WeatherProviderKind};
use crate::day::{padding_keeps_the_value, two_digits, zero_padded};
use crate::model::{WeatherReport, WeatherSnapshot};
use crate::text::{chars_of, reads_as, same_text};
use vstd::prelude::*;

verus! {

/// How long to wait for a weather service, in seconds.
pub const WEATHER_TIMEOUT_SECS: u64 = 10;

pub const OPEN_METEO_URL: &'static str = "https://api.open-meteo.com/v1/forecast";

pub const QWEATHER_NOW_URL: &'static str = "https://devapi.qweather.com/v7/weather/now";

pub const QWEATHER_3D_URL: &'static str = "https://devapi.qweather.com/v7/weather/3d";

/// Open-Meteo, asked about one place.
#[derive(Debug, PartialEq)]
pub struct OpenMeteoProvider<F> {
    pub latitude: F,
    pub longitude: F,
    pub city_label: String,
}

/// QWeather, asked about one place.
#[derive(Debug, PartialEq)]
pub struct QWeatherProvider<F> {
    pub latitude: F,
    pub longitude: F,
    pub city_label: String,
    pub key: String,
}

/// A weather service to ask.
#[derive(Debug, PartialEq)]
pub enum WeatherProvider<F> {
    OpenMeteo(OpenMeteoProvider<F>),
    QWeather(QWeatherProvider<F>),
}

/// The contents of a `WeatherProvider`.
pub enum Provider<F> {
    OpenMeteo { latitude: F, longitude: F, city_label: Seq<char> },
    QWeather { latitude: F, longitude: F, city_label: Seq<char>, key: Seq<char> },
}

impl<F> View for WeatherProvider<F> {
    type V = Provider<F>;

    open spec fn view(&self) -> Provider<F> {
        match self {
            WeatherProvider::OpenMeteo(p) => Provider::OpenMeteo {
                latitude: p.latitude,
                longitude: p.longitude,
                city_label: p.city_label@,
            },
            WeatherProvider::QWeather(p) => Provider::QWeather {
                latitude: p.latitude,
                longitude: p.longitude,
                city_label: p.city_label@,
                key: p.key@,
            },
        }
    }
}

/// The service that the settings choose for a place. QWeather cannot be asked without a key.
pub open spec fn provider_for<F>(w: WeatherPlan<F>, lat: F, lon: F) -> Option<Provider<F>> {
    match w.provider {
        WeatherProviderKind::OpenMeteo => Some(
            Provider::OpenMeteo { latitude: lat, longitude: lon, city_label: w.city_label },
        ),
        WeatherProviderKind::QWeather => match w.qweather_key {
            Some(key) => if key.len() > 0 {
                Some(
                    Provider::QWeather {
                        latitude: lat,
                        longitude: lon,
                        city_label: w.city_label,
                        key,
                    },
                )
            } else {
                None
            },
            None => None,
        },
    }
}

/// The contents of an optional service.
pub open spec fn optional_provider<F>(p: Option<WeatherProvider<F>>) -> Option<Provider<F>> {
    match p {
        Some(p) => Some(p@),
        None => None,
    }
}

/// The service that the settings choose for a place, if it can be asked.
pub fn build_provider<F>(cfg: &WeatherConfig<F>, lat: F, lon: F) -> (provider: Option<
    WeatherProvider<F>,
>)
    ensures
        optional_provider(provider) == provider_for(cfg@, lat, lon),
{
    match cfg.provider {
        WeatherProviderKind::OpenMeteo => Some(
            WeatherProvider::OpenMeteo(
                OpenMeteoProvider {
                    latitude: lat,
                    longitude: lon,
                    city_label: cfg.city_label.clone(),
                },
            ),
        ),
        WeatherProviderKind::QWeather => match &cfg.qweather_key {
            Some(key) => if key.as_str().is_empty() {
                None
            } else {
                Some(
                    WeatherProvider::QWeather(
                        QWeatherProvider {
                            latitude: lat,
                            longitude: lon,
                            city_label: cfg.city_label.clone(),
                            key: key.clone(),
                        },
                    ),
                )
            },
            None => None,
        },
    }
}

/// What a WMO weather code means, in words.
pub open spec fn condition_text(code: u32) -> Seq<char> {
    if code == 0 || code == 1 {
        "晴"@
    } else if code == 2 {
        "多云"@
    } else if code == 3 {
        "阴"@
    } else if code == 45 || code == 48 {
        "雾"@
    } else if code == 51 || code == 53 || code == 61 {
        "小雨"@
    } else if code == 55 || code == 63 {
        "中雨"@
    } else if code == 65 {
        "大雨"@
    } else if code == 56 || code == 57 || code == 66 || code == 67 {
        "冻雨"@
    } else if code == 71 {
        "小雪"@
    } else if code == 73 {
        "中雪"@
    } else if code == 75 {
        "大雪"@
    } else if code == 77 {
        "雪粒"@
    } else if code == 80 || code == 81 {
        "阵雨"@
    } else if code == 82 {
        "强阵雨"@
    } else if code == 85 {
        "阵雪"@
    } else if code == 86 {
        "大阵雪"@
    } else if code == 95 {
        "雷阵雨"@
    } else if code == 96 || code == 99 {
        "雷阵雨伴冰雹"@
    } else {
        "未知"@
    }
}

/// The weather in words for a WMO weather code. A code that is not known has words of its own.
pub fn wmo_to_condition(code: u32) -> (words: &'static str)
    ensures
        words@ == condition_text(code),
{
    match code {
        0 | 1 => "晴",
        2 => "多云",
        3 => "阴",
        45 | 48 => "雾",
        51 | 53 => "小雨",
        55 => "中雨",
        56 | 57 => "冻雨",
        61 => "小雨",
        63 => "中雨",
        65 => "大雨",
        66 | 67 => "冻雨",
        71 => "小雪",
        73 => "中雪",
        75 => "大雪",
        77 => "雪粒",
        80 => "阵雨",
        81 => "阵雨",
        82 => "强阵雨",
        85 => "阵雪",
        86 => "大阵雪",
        95 => "雷阵雨",
        96 | 99 => "雷阵雨伴冰雹",
        _ => "未知",
    }
}

/// Where `c` first occurs in a text, or the length of the text.
pub open spec fn first_index(s: Seq<char>, c: char) -> nat
    decreases s.len(),
{
    if s.len() == 0 || s[0] == c {
        0
    } else {
        1 + first_index(s.drop_first(), c)
    }
}

/// The part of a text before the first `c`.
pub open spec fn until(s: Seq<char>, c: char) -> Seq<char> {
    s.take(first_index(s, c) as int)
}

/// At most the first `n` characters of a text.
pub open spec fn at_most(s: Seq<char>, n: nat) -> Seq<char> {
    if s.len() <= n {
        s
    } else {
        s.take(n as int)
    }
}

/// The time of day in a date and time such as `2026-08-11T05:43`: at most five characters of what
/// stands between the first `T` and the next, or a placeholder where there is no `T`.
pub open spec fn time_of_day(iso: Option<Seq<char>>) -> Seq<char> {
    match iso {
        Some(s) => if first_index(s, 'T') < s.len() {
            at_most(until(s.skip(first_index(s, 'T') as int + 1), 'T'), 5)
        } else {
            "--:--"@
        },
        None => "--:--"@,
    }
}

fn index_from(chars: &Vec<char>, from: usize, c: char) -> (at: usize)
    requires
        from <= chars.len(),
    ensures
        from <= at <= chars.len(),
        at - from == first_index(chars@.skip(from as int), c),
{
    let mut at: usize = from;
    while at < chars.len() && chars[at] != c
        invariant
            from <= at <= chars.len(),
            first_index(chars@.skip(from as int), c) == at - from + first_index(
                chars@.skip(at as int),
                c,
            ),
        decreases chars.len() - at,
    {
        assert(chars@.skip(at as int).drop_first() =~= chars@.skip(at + 1));
        at += 1;
    }
    at
}

/// The time of day in a date and time that a weather service gave.
pub fn extract_hhmm(iso: Option<&String>) -> (t: String)
    ensures
        t@ == time_of_day(
            match iso {
                Some(s) => Some(s@),
                None => None,
            },
        ),
{
    match iso {
        Some(s) => {
            let chars: Vec<char> = chars_of(s.as_str());
            let first: usize = index_from(&chars, 0, 'T');
            assert(chars@.skip(0) =~= chars@);
            if first == chars.len() {
                return "--:--".to_string();
            }
            let second: usize = index_from(&chars, first + 1, 'T');
            let end: usize = if second - (first + 1) > 5 {
                first + 6
            } else {
                second
            };
            let t: String = s.as_str().substring_char(first + 1, end).to_string();
            assert(t@ =~= time_of_day(Some(s@)));
            t
        },
        None => "--:--".to_string(),
    }
}

/// A query string: names and values.
pub open spec fn query_view(q: Seq<(String, String)>) -> Seq<(Seq<char>, Seq<char>)> {
    q.map_values(|p: (String, String)| (p.0@, p.1@))
}

fn pair(name: &str, value: &str) -> (p: (String, String))
    ensures
        (p.0@, p.1@) == (name@, value@),
{
    (name.to_string(), value.to_string())
}

/// What Open-Meteo is asked about a place, whose coordinates are given as text. The zone `auto` asks for
/// times in the zone of the place.
pub fn open_meteo_query(latitude: &str, longitude: &str) -> (query: Vec<(String, String)>)
    ensures
        query_view(query@) == seq![
            ("latitude"@, latitude@),
            ("longitude"@, longitude@),
            ("current"@, "temperature_2m,weather_code"@),
            ("daily"@, "temperature_2m_max,temperature_2m_min,sunrise,sunset"@),
            ("timezone"@, "auto"@),
        ],
{
    let mut query: Vec<(String, String)> = Vec::new();
    query.push(pair("latitude", latitude));
    query.push(pair("longitude", longitude));
    query.push(pair("current", "temperature_2m,weather_code"));
    query.push(pair("daily", "temperature_2m_max,temperature_2m_min,sunrise,sunset"));
    query.push(pair("timezone", "auto"));
    assert(query_view(query@) =~= seq![
        ("latitude"@, latitude@),
        ("longitude"@, longitude@),
        ("current"@, "temperature_2m,weather_code"@),
        ("daily"@, "temperature_2m_max,temperature_2m_min,sunrise,sunset"@),
        ("timezone"@, "auto"@),
    ]);
    query
}

/// What QWeather is asked about a place, whose coordinates are given as text. It wants the
/// longitude first.
pub fn qweather_query(latitude: &str, longitude: &str, key: &str) -> (query: Vec<(String, String)>)
    ensures
        query_view(query@) == seq![
            ("location"@, longitude@ + ","@ + latitude@),
            ("key"@, key@),
        ],
{
    let location: String = longitude.to_string().concat(",").concat(latitude);
    let mut query: Vec<(String, String)> = Vec::new();
    query.push(pair("location", location.as_str()));
    query.push(pair("key", key));
    assert(query_view(query@) =~= seq![
        ("location"@, longitude@ + ","@ + latitude@),
        ("key"@, key@),
    ]);
    query
}

/// The answer of Open-Meteo.
#[derive(Debug)]
pub struct OpenMeteoResponse<F> {
    pub current: OpenMeteoCurrent<F>,
    pub daily: OpenMeteoDaily<F>,
}

/// The present weather in an answer of Open-Meteo.
#[derive(Debug)]
pub struct OpenMeteoCurrent<F> {
    pub temperature_2m: F,
    pub weather_code: u32,
}

/// The coming days in an answer of Open-Meteo, today first.
#[derive(Debug)]
pub struct OpenMeteoDaily<F> {
    pub temperature_2m_max: Vec<F>,
    pub temperature_2m_min: Vec<F>,
    pub sunrise: Vec<String>,
    pub sunset: Vec<String>,
}

/// The first of a row of readings, or `other` if there is none.
pub open spec fn first_or<F>(readings: Seq<F>, other: F) -> F {
    if readings.len() > 0 {
        readings[0]
    } else {
        other
    }
}

/// The first of a row of texts, if there is one.
pub open spec fn first_text(texts: Seq<String>) -> Option<Seq<char>> {
    if texts.len() > 0 {
        Some(texts[0]@)
    } else {
        None
    }
}

fn first_reading_or<F: Copy>(readings: &Vec<F>, other: F) -> (r: F)
    ensures
        r == first_or(readings@, other),
{
    if readings.len() > 0 {
        readings[0]
    } else {
        other
    }
}

fn first_time(texts: &Vec<String>) -> (t: String)
    ensures
        t@ == time_of_day(first_text(texts@)),
{
    if texts.len() > 0 {
        extract_hhmm(Some(&texts[0]))
    } else {
        extract_hhmm(None)
    }
}

/// What an answer of Open-Meteo says. Where it has no high or low for today, the present temperature
/// stands in.
pub open spec fn open_meteo_report<F>(
    city: Seq<char>,
    resp: OpenMeteoResponse<F>,
    ts_ms: u64,
) -> WeatherReport<F> {
    let temp_c = resp.current.temperature_2m;
    WeatherReport {
        ts_ms,
        city,
        temp_c,
        condition: condition_text(resp.current.weather_code),
        high_c: first_or(resp.daily.temperature_2m_max@, temp_c),
        low_c: first_or(resp.daily.temperature_2m_min@, temp_c),
        sunrise: time_of_day(first_text(resp.daily.sunrise@)),
        sunset: time_of_day(first_text(resp.daily.sunset@)),
    }
}

impl<F> OpenMeteoProvider<F> {
    /// Turns an answer into a snapshot taken at `ts_ms`.
    pub fn snapshot<R: Copy>(&self, resp: &OpenMeteoResponse<R>, ts_ms: u64) -> (snapshot:
        WeatherSnapshot<R>)
        ensures
            snapshot@ == open_meteo_report(self.city_label@, *resp, ts_ms),
    {
        let temp_c: R = resp.current.temperature_2m;
        WeatherSnapshot {
            ts_ms,
            city: self.city_label.clone(),
            temp_c,
            condition: wmo_to_condition(resp.current.weather_code).to_string(),
            high_c: first_reading_or(&resp.daily.temperature_2m_max, temp_c),
            low_c: first_reading_or(&resp.daily.temperature_2m_min, temp_c),
            sunrise: first_time(&resp.daily.sunrise),
            sunset: first_time(&resp.daily.sunset),
        }
    }
}

/// Why there is no snapshot.
#[derive(Debug, PartialEq, Eq)]
pub enum WeatherError {
    /// The service could not be asked, or its answer could not be read.
    Http(String),
    /// The service answered, but not with the weather.
    Api(String),
}

/// The contents of a `WeatherError`.
pub enum Failure {
    Http(Seq<char>),
    Api(Seq<char>),
}

impl View for WeatherError {
    type V = Failure;

    open spec fn view(&self) -> Failure {
        match self {
            WeatherError::Http(t) => Failure::Http(t@),
            WeatherError::Api(t) => Failure::Api(t@),
        }
    }
}

impl WeatherError {
    /// The error in words.
    pub fn message(&self) -> (t: String)
        ensures
            t@ == (match self@ {
                Failure::Http(e) => "http error: "@ + e,
                Failure::Api(e) => "api error: "@ + e,
            }),
    {
        match self {
            WeatherError::Http(e) => "http error: ".to_string().concat(e.as_str()),
            WeatherError::Api(e) => "api error: ".to_string().concat(e.as_str()),
        }
    }
}

/// The answer of QWeather on the present weather.
#[derive(Debug)]
pub struct QWeatherNowResponse {
    pub code: String,
    pub now: Option<QWeatherNow>,
}

/// The present weather in an answer of QWeather.
#[derive(Debug)]
pub struct QWeatherNow {
    pub temp: String,
    pub text: String,
}

/// The answer of QWeather on the coming days.
#[derive(Debug)]
pub struct QWeatherDailyResponse {
    pub code: String,
    pub daily: Option<Vec<QWeatherDaily>>,
}

/// One day in an answer of QWeather.
#[derive(Debug)]
pub struct QWeatherDaily {
    pub temp_max: String,
    pub temp_min: String,
    pub sunrise: String,
    pub sunset: String,
}

/// Why an answer of QWeather on the present weather has none, if so. The code `200` stands for success.
pub open spec fn now_refusal(resp: QWeatherNowResponse) -> Option<Failure> {
    if resp.code@ != "200"@ {
        Some(Failure::Api("qweather now: code "@ + resp.code@))
    } else if resp.now is None {
        Some(Failure::Api("qweather now: missing `now` field"@))
    } else {
        None
    }
}

/// The present weather in an answer of QWeather, or why it has none.
pub fn qweather_now(resp: QWeatherNowResponse) -> (r: Result<QWeatherNow, WeatherError>)
    ensures
        match r {
            Ok(now) => now_refusal(resp) is None && resp.now == Some(now),
            Err(e) => now_refusal(resp) == Some(e@),
        },
{
    if !same_text(resp.code.as_str(), "200") {
        return Err(
            WeatherError::Api("qweather now: code ".to_string().concat(resp.code.as_str())),
        );
    }
    match resp.now {
        Some(now) => Ok(now),
        None => Err(WeatherError::Api("qweather now: missing `now` field".to_string())),
    }
}

/// Whether an answer of QWeather on the coming days has any day.
pub open spec fn has_days(resp: QWeatherDailyResponse) -> bool {
    match resp.daily {
        Some(days) => days@.len() > 0,
        None => false,
    }
}

/// Why an answer of QWeather on the coming days has no today, if so. The code `200` stands for success.
pub open spec fn today_refusal(resp: QWeatherDailyResponse) -> Option<Failure> {
    if resp.code@ != "200"@ {
        Some(Failure::Api("qweather 3d: code "@ + resp.code@))
    } else if !has_days(resp) {
        Some(Failure::Api("qweather 3d: empty daily list"@))
    } else {
        None
    }
}

/// Today in an answer of QWeather, or why it has none.
pub fn qweather_today(resp: QWeatherDailyResponse) -> (r: Result<QWeatherDaily, WeatherError>)
    ensures
        match r {
            Ok(today) => today_refusal(resp) is None && today == resp.daily->0@[0],
            Err(e) => today_refusal(resp) == Some(e@),
        },
{
    if !same_text(resp.code.as_str(), "200") {
        return Err(
            WeatherError::Api("qweather 3d: code ".to_string().concat(resp.code.as_str())),
        );
    }
    match resp.daily {
        Some(days) => {
            let mut days: Vec<QWeatherDaily> = days;
            if days.len() > 0 {
                return Ok(days.remove(0));
            }
            Err(WeatherError::Api("qweather 3d: empty daily list".to_string()))
        },
        None => Err(WeatherError::Api("qweather 3d: empty daily list".to_string())),
    }
}

/// What `{:?}` writes for a text.
pub uninterp spec fn debug_form(s: Seq<char>) -> Seq<char>;

/// `format!` with `{:?}` for a text: the text in quotes, with escapes. What comes out depends on the
/// text alone; which characters are escaped is not said here.
#[verifier::external_body]
fn debug_text(s: &str) -> (t: String)
    ensures
        t@ == debug_form(s@),
{
    format!("{:?}", s)
}

/// A reading, or `other` where there is none.
pub open spec fn reading_or<F>(reading: Option<F>, other: F) -> F {
    match reading {
        Some(r) => r,
        None => other,
    }
}

/// Whether `reading` can be what `parse` makes of a text, or is `other` where that is no reading.
pub open spec fn reads_or<R, P: Fn(&str) -> Option<R>>(
    parse: P,
    text: Seq<char>,
    other: R,
    reading: R,
) -> bool {
    exists|r: Option<R>| #[trigger] reads_as(parse, text, r) && reading == reading_or(r, other)
}

fn read_or<R: Copy, P: Fn(&str) -> Option<R>>(parse: &P, text: &str, other: R) -> (reading: R)
    requires
        forall|t: &str| call_requires(*parse, (t,)),
    ensures
        reads_or(*parse, text@, other, reading),
{
    let read: Option<R> = parse(text);
    assert(reads_as(*parse, text@, read));
    match read {
        Some(r) => r,
        None => other,
    }
}

/// Whether `r` is what the present weather and today amount to: a snapshot of `city` taken at `ts_ms`,
/// or an error where the present temperature is no reading. It stands in for a high or low that is
/// none.
pub open spec fn is_qweather_result<R, P: Fn(&str) -> Option<R>>(
    city: Seq<char>,
    now: QWeatherNow,
    today: QWeatherDaily,
    parse: P,
    ts_ms: u64,
    r: Result<WeatherSnapshot<R>, WeatherError>,
) -> bool {
    match r {
        Ok(snapshot) => {
            &&& reads_as(parse, now.temp@, Some(snapshot.temp_c))
            &&& reads_or(parse, today.temp_max@, snapshot.temp_c, snapshot.high_c)
            &&& reads_or(parse, today.temp_min@, snapshot.temp_c, snapshot.low_c)
            &&& snapshot.ts_ms == ts_ms
            &&& snapshot.city@ == city
            &&& snapshot.condition@ == now.text@
            &&& snapshot.sunrise@ == today.sunrise@
            &&& snapshot.sunset@ == today.sunset@
        },
        Err(e) => {
            &&& reads_as(parse, now.temp@, None::<R>)
            &&& e@ == Failure::Api("qweather now: bad temp "@ + debug_form(now.temp@))
        },
    }
}

impl<F> QWeatherProvider<F> {
    /// Turns answers into a snapshot taken at `ts_ms`. `parse` reads a temperature: without the
    /// present one there is no snapshot, and it stands in for a high or low that is no reading.
    pub fn snapshot<R: Copy, P: Fn(&str) -> Option<R>>(
        &self,
        now: QWeatherNow,
        today: QWeatherDaily,
        parse: P,
        ts_ms: u64,
    ) -> (r: Result<WeatherSnapshot<R>, WeatherError>)
        requires
            forall|t: &str| call_requires(parse, (t,)),
        ensures
            is_qweather_result(self.city_label@, now, today, parse, ts_ms, r),
    {
        let temp: Option<R> = parse(now.temp.as_str());
        assert(reads_as(parse, now.temp@, temp));
        match temp {
            Some(temp_c) => Ok(
                WeatherSnapshot {
                    ts_ms,
                    city: self.city_label.clone(),
                    temp_c,
                    condition: now.text,
                    high_c: read_or(&parse, today.temp_max.as_str(), temp_c),
                    low_c: read_or(&parse, today.temp_min.as_str(), temp_c),
                    sunrise: today.sunrise,
                    sunset: today.sunset,
                },
            ),
            None => {
                let written: String = debug_text(now.temp.as_str());
                Err(
                    WeatherError::Api(
                        "qweather now: bad temp ".to_string().concat(written.as_str()),
                    ),
                )
            },
        }
    }
}

/// A time of day has at most five characters, whatever the service gave, and is never absent.
pub proof fn time_of_day_is_short(iso: Option<Seq<char>>)
    ensures
        time_of_day(iso).len() <= 5,
        iso is None ==> time_of_day(iso) == "--:--"@,
{
    reveal_strlit("--:--");
}

/// A date and time as Open-Meteo gives it yields its hours and minutes.
pub proof fn date_time_yields_its_time(date: Seq<char>, time: Seq<char>)
    requires
        !date.contains('T'),
        !time.contains('T'),
        time.len() == 5,
    ensures
        time_of_day(Some(date + seq!['T'] + time)) == time,
{
    let s = date + seq!['T'] + time;
    no_index_before(date, seq!['T'] + time, 'T');
    assert(s =~= date + (seq!['T'] + time));
    assert(s.skip(date.len() as int + 1) =~= time);
    no_index_before(time, Seq::empty(), 'T');
    assert(time + Seq::<char>::empty() =~= time);
    assert(until(time, 'T') =~= time);
}

/// Of a date and time with the letter `T` between them, what follows the `T` is taken, up to the next `T`
/// and five characters at most; a text without a `T` has no time.
pub proof fn time_follows_the_t(date: Seq<char>, time: Seq<char>, rest: Seq<char>)
    requires
        !date.contains('T'),
        !time.contains('T'),
        rest.len() > 0 ==> rest[0] == 'T',
    ensures
        time.len() <= 5 ==> time_of_day(Some(date + seq!['T'] + time + rest)) == time,
        time.len() > 5 ==> time_of_day(Some(date + seq!['T'] + time + rest)) == time.take(5),
        time_of_day(Some(date)) == "--:--"@,
        time_of_day(None) == "--:--"@,
{
    let s = date + seq!['T'] + time + rest;
    let tail = time + rest;
    no_index_before(date, seq!['T'] + tail, 'T');
    assert(s =~= date + (seq!['T'] + tail));
    assert(s.skip(date.len() as int + 1) =~= tail);
    no_index_before(time, rest, 'T');
    assert(until(tail, 'T') =~= time);
    no_index_before(date, Seq::empty(), 'T');
    assert(date + Seq::<char>::empty() =~= date);
}

/// A report of Open-Meteo shows what the answer gives for now and for today, whatever days follow: the
/// highs, lows, sunrises and sunsets of later days do not matter. Without a high or low for today the
/// present temperature stands in, and without a sunrise or sunset a placeholder.
pub proof fn report_is_of_today<R>(city: Seq<char>, resp: OpenMeteoResponse<R>, ts_ms: u64)
    ensures
        ({
            let r = open_meteo_report(city, resp, ts_ms);
            let daily = resp.daily;
            &&& r.ts_ms == ts_ms
            &&& r.city == city
            &&& r.temp_c == resp.current.temperature_2m
            &&& r.condition == condition_text(resp.current.weather_code)
            &&& daily.temperature_2m_max@.len() > 0 ==> r.high_c == daily.temperature_2m_max@[0]
            &&& daily.temperature_2m_max@.len() == 0 ==> r.high_c == resp.current.temperature_2m
            &&& daily.temperature_2m_min@.len() > 0 ==> r.low_c == daily.temperature_2m_min@[0]
            &&& daily.temperature_2m_min@.len() == 0 ==> r.low_c == resp.current.temperature_2m
            &&& daily.sunrise@.len() > 0 ==> r.sunrise == time_of_day(Some(daily.sunrise@[0]@))
            &&& daily.sunrise@.len() == 0 ==> r.sunrise == "--:--"@
            &&& daily.sunset@.len() > 0 ==> r.sunset == time_of_day(Some(daily.sunset@[0]@))
            &&& daily.sunset@.len() == 0 ==> r.sunset == "--:--"@
        }),
{
}

/// Each WMO code in use has its words, and every other code the words for the unknown.
pub proof fn codes_have_their_words(code: u32)
    ensures
        code <= 1 ==> condition_text(code) == "晴"@,
        code == 2 ==> condition_text(code) == "多云"@,
        code == 3 ==> condition_text(code) == "阴"@,
        code == 45 || code == 48 ==> condition_text(code) == "雾"@,
        code == 51 || code == 53 || code == 61 ==> condition_text(code) == "小雨"@,
        code == 55 || code == 63 ==> condition_text(code) == "中雨"@,
        code == 65 ==> condition_text(code) == "大雨"@,
        code == 56 || code == 57 || code == 66 || code == 67 ==> condition_text(code) == "冻雨"@,
        code == 71 ==> condition_text(code) == "小雪"@,
        code == 73 ==> condition_text(code) == "中雪"@,
        code == 75 ==> condition_text(code) == "大雪"@,
        code == 77 ==> condition_text(code) == "雪粒"@,
        code == 80 || code == 81 ==> condition_text(code) == "阵雨"@,
        code == 82 ==> condition_text(code) == "强阵雨"@,
        code == 85 ==> condition_text(code) == "阵雪"@,
        code == 86 ==> condition_text(code) == "大阵雪"@,
        code == 95 ==> condition_text(code) == "雷阵雨"@,
        code == 96 || code == 99 ==> condition_text(code) == "雷阵雨伴冰雹"@,
        !(set![
            0u32, 1, 2, 3, 45, 48, 51, 53, 55, 56, 57, 61, 63, 65, 66, 67, 71, 73, 75, 77, 80, 81, 82,
            85, 86, 95, 96, 99,
        ].contains(code)) ==> condition_text(code) == "未知"@,
{
}

/// The service that is asked is the one that the settings name, about the given place and under the name
/// that the settings give it; QWeather is asked with the key of the settings, and not without one.
pub proof fn settings_choose_the_service<F>(w: WeatherPlan<F>, lat: F, lon: F)
    ensures
        w.provider is OpenMeteo ==> provider_for(w, lat, lon) == Some(
            Provider::OpenMeteo { latitude: lat, longitude: lon, city_label: w.city_label },
        ),
        w.provider is QWeather ==> (provider_for(w, lat, lon) is Some <==> w.qweather_key is Some
            && w.qweather_key->0.len() > 0),
        w.provider is QWeather && provider_for(w, lat, lon) is Some ==> provider_for(w, lat, lon)
            == Some(
            Provider::QWeather {
                latitude: lat,
                longitude: lon,
                city_label: w.city_label,
                key: w.qweather_key->0,
            },
        ),
{
}

/// The contents of a service, of an error and of a query are what their fields hold.
pub proof fn services_hold_their_fields<F>(
    p: WeatherProvider<F>,
    e: WeatherError,
    q: Seq<(String, String)>,
)
    ensures
        p matches WeatherProvider::OpenMeteo(o) ==> p@ == (Provider::OpenMeteo {
            latitude: o.latitude,
            longitude: o.longitude,
            city_label: o.city_label@,
        }),
        p matches WeatherProvider::QWeather(o) ==> p@ == (Provider::QWeather {
            latitude: o.latitude,
            longitude: o.longitude,
            city_label: o.city_label@,
            key: o.key@,
        }),
        optional_provider(Some(p)) == Some(p@),
        optional_provider(None::<WeatherProvider<F>>) is None,
        e matches WeatherError::Http(t) ==> e@ == Failure::Http(t@),
        e matches WeatherError::Api(t) ==> e@ == Failure::Api(t@),
        query_view(q).len() == q.len(),
        forall|i: int| 0 <= i < q.len() ==> #[trigger] query_view(q)[i] == (q[i].0@, q[i].1@),
{
}

/// An answer of QWeather is refused exactly where its code is not `200` or it lacks what was asked for,
/// and the refusal says which.
pub proof fn refusals_say_why(now: QWeatherNowResponse, daily: QWeatherDailyResponse)
    ensures
        now_refusal(now) is None <==> now.code@ == "200"@ && now.now is Some,
        now.code@ != "200"@ ==> now_refusal(now) == Some(
            Failure::Api("qweather now: code "@ + now.code@),
        ),
        now.code@ == "200"@ && now.now is None ==> now_refusal(now) == Some(
            Failure::Api("qweather now: missing `now` field"@),
        ),
        today_refusal(daily) is None <==> daily.code@ == "200"@ && daily.daily is Some
            && daily.daily->0@.len() > 0,
        daily.code@ != "200"@ ==> today_refusal(daily) == Some(
            Failure::Api("qweather 3d: code "@ + daily.code@),
        ),
        daily.code@ == "200"@ && (daily.daily is None || daily.daily->0@.len() == 0)
            ==> today_refusal(daily) == Some(Failure::Api("qweather 3d: empty daily list"@)),
{
}

/// A snapshot of QWeather shows the present temperature, the high and the low that its texts read as, and
/// the words and times that the answers give; a high or low that is no number is the present temperature,
/// and without that there is an error that shows its text.
pub proof fn qweather_shows_its_answers<R, P: Fn(&str) -> Option<R>>(
    city: Seq<char>,
    now: QWeatherNow,
    today: QWeatherDaily,
    parse: P,
    f: spec_fn(Seq<char>) -> Option<R>,
    ts_ms: u64,
    r: Result<WeatherSnapshot<R>, WeatherError>,
)
    requires
        forall|t: &str, read: Option<R>| #[trigger]
            call_ensures(parse, (t,), read) ==> read == f(t@),
        is_qweather_result(city, now, today, parse, ts_ms, r),
    ensures
        r is Ok <==> f(now.temp@) is Some,
        r matches Ok(s) ==> {
            &&& f(now.temp@) == Some(s.temp_c)
            &&& f(today.temp_max@) is Some ==> f(today.temp_max@) == Some(s.high_c)
            &&& f(today.temp_max@) is None ==> s.high_c == s.temp_c
            &&& f(today.temp_min@) is Some ==> f(today.temp_min@) == Some(s.low_c)
            &&& f(today.temp_min@) is None ==> s.low_c == s.temp_c
            &&& s.ts_ms == ts_ms
            &&& s.city@ == city
            &&& s.condition@ == now.text@
            &&& s.sunrise@ == today.sunrise@
            &&& s.sunset@ == today.sunset@
        },
        r matches Err(e) ==> e@ == Failure::Api(
            "qweather now: bad temp "@ + debug_form(now.temp@),
        ),
{
}

/// The hours and minutes that a clock shows at an instant, given in minutes since some midnight UTC, in
/// a zone that is so many minutes ahead of UTC.
pub open spec fn clock_text(instant: int, ahead: int) -> Seq<char> {
    let minute = (instant + ahead) % 1440;
    zero_padded((minute / 60) as nat, 2) + seq![':'] + zero_padded((minute % 60) as nat, 2)
}

/// Where the place that is shown and the system have the same zone, sunrise and sunset are what the
/// system's clock shows at those instants, as long as the service gives them in the zone of the place,
/// as it is asked to.
pub proof fn sun_times_are_local<R>(
    city: Seq<char>,
    resp: OpenMeteoResponse<R>,
    ts_ms: u64,
    date: Seq<char>,
    sunrise: int,
    sunset: int,
    place_ahead: int,
    system_ahead: int,
)
    requires
        !date.contains('T'),
        first_text(resp.daily.sunrise@) == Some(
            date + seq!['T'] + clock_text(sunrise, place_ahead),
        ),
        first_text(resp.daily.sunset@) == Some(date + seq!['T'] + clock_text(sunset, place_ahead)),
        place_ahead == system_ahead,
    ensures
        open_meteo_report(city, resp, ts_ms).sunrise == clock_text(sunrise, system_ahead),
        open_meteo_report(city, resp, ts_ms).sunset == clock_text(sunset, system_ahead),
{
    clock_text_is_short(sunrise, place_ahead);
    clock_text_is_short(sunset, place_ahead);
    date_time_yields_its_time(date, clock_text(sunrise, place_ahead));
    date_time_yields_its_time(date, clock_text(sunset, place_ahead));
}

proof fn clock_text_is_short(instant: int, ahead: int)
    ensures
        clock_text(instant, ahead).len() == 5,
        !clock_text(instant, ahead).contains('T'),
{
    let minute = (instant + ahead) % 1440;
    two_digits((minute / 60) as nat);
    two_digits((minute % 60) as nat);
    padding_keeps_the_value((minute / 60) as nat, 2);
    padding_keeps_the_value((minute % 60) as nat, 2);
    let h = zero_padded((minute / 60) as nat, 2);
    let m = zero_padded((minute % 60) as nat, 2);
    let t = clock_text(instant, ahead);
    assert forall|i: int| 0 <= i < t.len() implies #[trigger] t[i] != 'T' by {
        if i < 2 {
            assert(t[i] == h[i]);
        } else if i > 2 {
            assert(t[i] == m[i - 3]);
        }
    }
}

proof fn no_index_before(a: Seq<char>, b: Seq<char>, c: char)
    requires
        !a.contains(c),
    ensures
        first_index(a + b, c) == a.len() + first_index(b, c),
    decreases a.len(),
{
    if a.len() == 0 {
        assert(a + b =~= b);
    } else {
        assert((a + b).drop_first() =~= a.drop_first() + b);
        assert(a.contains(a[0]));
        assert forall|i: int| 0 <= i < a.len() - 1 implies a.drop_first()[i] != c by {
            assert(a.contains(a[i + 1]));
        }
        no_index_before(a.drop_first(), b, c);
    }
}

} // verus!
