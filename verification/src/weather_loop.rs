//! The weather collector: when it asks, when it stays idle, and what it publishes and logs.

use crate::availability::{news, AvailabilityState};
use crate::config::{place, AppConfig, WeatherPlan};
use crate::hub::{greeting, published, Latest};
use crate::interval::Interval;
use crate::metrics::{lost_notice, SourceNotice};
use crate::model::{Message, Push, WeatherSnapshot};
use crate::text::same_text;
use crate::weather::{build_provider, provider_for, Provider, WeatherProvider};
use vstd::prelude::*;

verus! {

/// Why nothing is asked: there is no place to ask about.
pub const NO_PLACE: &'static str = "latitude/longitude not configured";

/// Why nothing is asked: the weather is switched off.
pub const SWITCHED_OFF: &'static str = "weather.enabled = false";

/// Why nothing is asked: the chosen service wants a key.
pub const NO_KEY: &'static str = "qweather selected but qweather_key missing";

/// The contents of a reason to be idle.
pub open spec fn reason_text(reason: Option<&'static str>) -> Option<Seq<char>> {
    match reason {
        Some(r) => Some(r@),
        None => None,
    }
}

/// Remembers why the collector is idle, and says whether that is worth logging: not if it was idle
/// for the same reason already.
pub fn log_idle_once(state: &mut Option<&'static str>, reason: &'static str) -> (log: bool)
    ensures
        reason_text(*final(state)) == Some(reason@),
        log == (reason_text(*old(state)) != Some(reason@)),
{
    let known: bool = match *state {
        Some(r) => same_text(r, reason),
        None => false,
    };
    if !known {
        *state = Some(reason);
    }
    !known
}

/// What the settings call for.
pub enum Choice<F> {
    /// Ask nothing, for this reason.
    Idle(Seq<char>),
    /// Ask this service.
    Ask(Provider<F>),
}

/// What the settings call for: nothing is asked without a place, with the weather switched off, or
/// of a service whose key is missing.
pub open spec fn choice<F>(w: WeatherPlan<F>) -> Choice<F> {
    match place(w) {
        None => Choice::Idle(NO_PLACE@),
        Some((lat, lon)) => if !w.enabled {
            Choice::Idle(SWITCHED_OFF@)
        } else {
            match provider_for(w, lat, lon) {
                None => Choice::Idle(NO_KEY@),
                Some(p) => Choice::Ask(p),
            }
        },
    }
}

/// What the collector does next.
#[derive(Debug, PartialEq)]
pub enum WeatherAction<F> {
    /// Wait for the settings to change; `announce` is the reason, if it is worth logging.
    AwaitSettings { announce: Option<&'static str> },
    /// Ask this service.
    Ask(WeatherProvider<F>),
}

/// What the collector does with an answer: what it publishes and logs, and how long it then waits
/// unless the settings change.
#[derive(Debug, PartialEq)]
pub struct WeatherOutcome<F> {
    pub publish: Option<Push<F>>,
    pub notice: Option<SourceNotice>,
    pub pause: Interval,
}

/// Where the weather collector stands.
#[derive(Debug)]
pub struct WeatherCollector {
    availability: AvailabilityState,
    idle_reason: Option<&'static str>,
    pause: Interval,
}

/// The contents of a `WeatherCollector`.
pub struct WeatherState {
    /// Whether the last answer was usable.
    pub last: Option<bool>,
    /// Why the collector is idle, if it is.
    pub idle: Option<Seq<char>>,
    /// How long it waits between two questions, in milliseconds.
    pub pause: nat,
}

impl View for WeatherCollector {
    type V = WeatherState;

    closed spec fn view(&self) -> WeatherState {
        WeatherState {
            last: self.availability@,
            idle: reason_text(self.idle_reason),
            pause: self.pause@,
        }
    }
}

impl WeatherCollector {
    /// A collector that has not asked anything.
    pub fn new() -> (collector: Self)
        ensures
            collector@ == (WeatherState { last: None, idle: None, pause: 0 }),
    {
        WeatherCollector {
            availability: AvailabilityState::new(),
            idle_reason: None,
            pause: Interval::from_millis(0),
        }
    }

    fn idle<F>(&mut self, reason: &'static str) -> (action: WeatherAction<F>)
        ensures
            final(self)@ == (WeatherState { idle: Some(reason@), ..old(self)@ }),
            action matches WeatherAction::AwaitSettings { announce } && reason_text(announce) == (
            if old(self)@.idle == Some(reason@) {
                None
            } else {
                Some(reason@)
            }),
    {
        let log: bool = log_idle_once(&mut self.idle_reason, reason);
        WeatherAction::AwaitSettings {
            announce: if log {
                Some(reason)
            } else {
                None
            },
        }
    }

    /// Looks at the settings, at the start, after a pause or after they changed.
    pub fn wake<F: Copy>(&mut self, cfg: &AppConfig<F>) -> (action: WeatherAction<F>)
        ensures
            final(self)@.last == old(self)@.last,
            final(self)@.pause == cfg@.sampling.weather,
            match choice(cfg@.weather) {
                Choice::Idle(reason) => {
                    &&& final(self)@.idle == Some(reason)
                    &&& action matches WeatherAction::AwaitSettings { announce } && reason_text(
                        announce,
                    ) == (if old(self)@.idle == Some(reason) {
                        None
                    } else {
                        Some(reason)
                    })
                },
                Choice::Ask(p) => {
                    &&& final(self)@.idle is None
                    &&& action matches WeatherAction::Ask(provider) && provider@ == p
                },
            },
    {
        self.pause = cfg.sampling.weather;
        let (lat, lon): (F, F) = match cfg.weather.coords() {
            Some(coords) => coords,
            None => {
                return self.idle(NO_PLACE);
            },
        };
        if !cfg.weather.enabled {
            return self.idle(SWITCHED_OFF);
        }
        match build_provider(&cfg.weather, lat, lon) {
            Some(provider) => {
                self.idle_reason = None;
                WeatherAction::Ask(provider)
            },
            None => self.idle(NO_KEY),
        }
    }

    /// Takes in a snapshot: it is published, and logged if the service did not answer before.
    pub fn answered<F>(&mut self, snapshot: WeatherSnapshot<F>) -> (outcome: WeatherOutcome<F>)
        ensures
            final(self)@ == (WeatherState { last: Some(true), ..old(self)@ }),
            outcome.publish matches Some(push) && push@ == Message::<F>::Weather(snapshot@),
            outcome.publish == Some(Push::Weather(snapshot)),
            outcome.notice == (if news(old(self)@.last, true) is Some {
                Some(SourceNotice::Available)
            } else {
                None
            }),
            outcome.pause@ == old(self)@.pause,
    {
        let change: Option<bool> = self.availability.note(true);
        WeatherOutcome {
            publish: Some(Push::Weather(snapshot)),
            notice: if change.is_some() {
                Some(SourceNotice::Available)
            } else {
                None
            },
            pause: self.pause,
        }
    }

    /// Takes in a failure: nothing is published, so that clients keep the last snapshot, and it is
    /// logged if the service answered before.
    pub fn failed<F>(&mut self) -> (outcome: WeatherOutcome<F>)
        ensures
            final(self)@ == (WeatherState { last: Some(false), ..old(self)@ }),
            outcome.publish is None,
            outcome.notice == lost_notice(news(old(self)@.last, false)),
            outcome.pause@ == old(self)@.pause,
    {
        let change: Option<bool> = self.availability.note(false);
        WeatherOutcome {
            publish: None,
            notice: if change.is_some() {
                Some(SourceNotice::Unreachable)
            } else {
                None
            },
            pause: self.pause,
        }
    }
}

/// A service is asked exactly where the weather is switched on, both coordinates are set, and the
/// service is one that needs no key or has one. The place that is asked about is the one that is
/// set.
pub proof fn asks_only_when_configured<F>(w: WeatherPlan<F>)
    ensures
        choice(w) is Ask <==> {
            &&& w.enabled
            &&& w.latitude is Some
            &&& w.longitude is Some
            &&& w.provider is QWeather ==> w.qweather_key is Some && w.qweather_key->0.len() > 0
        },
        choice(w) matches Choice::Ask(p) ==> match p {
            Provider::OpenMeteo { latitude, longitude, city_label } => {
                &&& Some(latitude) == w.latitude
                &&& Some(longitude) == w.longitude
                &&& city_label == w.city_label
            },
            Provider::QWeather { latitude, longitude, city_label, key } => {
                &&& Some(latitude) == w.latitude
                &&& Some(longitude) == w.longitude
                &&& city_label == w.city_label
                &&& Some(key) == w.qweather_key
            },
        },
{
}

/// The pushes that clients are greeted with once an outcome was published, if it publishes anything.
pub open spec fn after_outcome<F>(latest: Latest<F>, publish: Option<Message<F>>) -> Latest<F> {
    match publish {
        Some(m) => published(latest, m),
        None => latest,
    }
}

/// A failure leaves the last snapshot in place: a client that connects after any outcome is greeted
/// with a snapshot if one connecting before it would have been.
pub proof fn failure_keeps_the_last_snapshot<F>(latest: Latest<F>, publish: Option<Message<F>>)
    requires
        publish is Some ==> publish->0 is Weather,
    ensures
        publish is None ==> greeting(after_outcome(latest, publish)) == greeting(latest),
        latest.weather is Some ==> after_outcome(latest, publish).weather is Some,
        after_outcome(latest, publish).config == latest.config,
        after_outcome(latest, publish).system == latest.system,
        after_outcome(latest, publish).app_usage == latest.app_usage,
{
}

/// Nothing is asked for the first of these reasons that holds: a coordinate is missing, the weather is
/// switched off, the key of the chosen service is missing.
pub proof fn idle_for_the_first_reason<F>(w: WeatherPlan<F>)
    ensures
        w.latitude is None || w.longitude is None ==> choice(w) == Choice::<F>::Idle(
            "latitude/longitude not configured"@,
        ),
        w.latitude is Some && w.longitude is Some && !w.enabled ==> choice(w) == Choice::<F>::Idle(
            "weather.enabled = false"@,
        ),
        w.latitude is Some && w.longitude is Some && w.enabled ==> match provider_for(
            w,
            w.latitude->0,
            w.longitude->0,
        ) {
            Some(p) => choice(w) == Choice::Ask(p),
            None => choice(w) == Choice::<F>::Idle("qweather selected but qweather_key missing"@),
        },
{
}

/// A reason to be idle is its text.
pub proof fn reasons_are_their_texts(reason: &'static str)
    ensures
        reason_text(Some(reason)) == Some(reason@),
        reason_text(None) is None,
{
}

} // verus!
