//! The latest push of each kind, for clients that connect later.

use crate::model::{
    AppUsageSnapshot, Layout, Message, Push, ShellConfig, SystemSnapshot, UsageReport,
    WeatherReport, WeatherSnapshot,
};
use vstd::prelude::*;

verus! {

/// How many pushes a client may lag behind before it misses some.
pub const BROADCAST_CAPACITY: usize = 32;

/// The latest push of each kind.
#[derive(Debug, PartialEq)]
pub struct Hub<F> {
    config: Option<ShellConfig>,
    system: Option<SystemSnapshot<F>>,
    weather: Option<WeatherSnapshot<F>>,
    app_usage: Option<AppUsageSnapshot>,
}

/// The contents of a `Hub`.
pub struct Latest<F> {
    pub config: Option<Layout>,
    pub system: Option<SystemSnapshot<F>>,
    pub weather: Option<WeatherReport<F>>,
    pub app_usage: Option<UsageReport>,
}

impl<F> View for Hub<F> {
    type V = Latest<F>;

    closed spec fn view(&self) -> Latest<F> {
        Latest {
            config: match self.config {
                Some(c) => Some(c@),
                None => None,
            },
            system: self.system,
            weather: match self.weather {
                Some(w) => Some(w@),
                None => None,
            },
            app_usage: match self.app_usage {
                Some(a) => Some(a@),
                None => None,
            },
        }
    }
}

/// A hub that has seen no push.
pub open spec fn no_pushes<F>() -> Latest<F> {
    Latest { config: None, system: None, weather: None, app_usage: None }
}

/// The latest pushes once `m` was published.
pub open spec fn published<F>(latest: Latest<F>, m: Message<F>) -> Latest<F> {
    match m {
        Message::Config(c) => Latest { config: Some(c), ..latest },
        Message::System(s) => Latest { system: Some(s), ..latest },
        Message::Weather(w) => Latest { weather: Some(w), ..latest },
        Message::AppUsage(a) => Latest { app_usage: Some(a), ..latest },
    }
}

/// One message, or none.
pub open spec fn if_any<F>(m: Option<Message<F>>) -> Seq<Message<F>> {
    match m {
        Some(m) => seq![m],
        None => Seq::empty(),
    }
}

/// What a client is greeted with: the latest of each kind, the layout first, then system metrics,
/// weather and app usage. A kind that was never published is skipped.
pub open spec fn greeting<F>(latest: Latest<F>) -> Seq<Message<F>> {
    if_any(
        match latest.config {
            Some(c) => Some(Message::Config(c)),
            None => None,
        },
    ) + if_any(
        match latest.system {
            Some(s) => Some(Message::System(s)),
            None => None,
        },
    ) + if_any(
        match latest.weather {
            Some(w) => Some(Message::Weather(w)),
            None => None,
        },
    ) + if_any(
        match latest.app_usage {
            Some(a) => Some(Message::AppUsage(a)),
            None => None,
        },
    )
}

/// The contents of a row of pushes.
pub open spec fn messages<F>(pushes: Seq<Push<F>>) -> Seq<Message<F>> {
    pushes.map_values(|p: Push<F>| p@)
}

impl<F: Copy> Hub<F> {
    /// A hub that has seen no push.
    pub fn new() -> (hub: Self)
        ensures
            hub@ == no_pushes::<F>(),
    {
        Hub { config: None, system: None, weather: None, app_usage: None }
    }

    /// Remembers a push, and hands it back to be sent to every client that is connected.
    pub fn publish(&mut self, push: Push<F>) -> (to_send: Push<F>)
        ensures
            final(self)@ == published(old(self)@, push@),
            to_send@ == push@,
            to_send == push,
    {
        match &push {
            Push::Config(c) => {
                self.config = Some(c.clone());
            },
            Push::System(s) => {
                self.system = Some(*s);
            },
            Push::Weather(w) => {
                self.weather = Some(w.clone());
            },
            Push::AppUsage(a) => {
                self.app_usage = Some(a.clone());
            },
        }
        push
    }

    /// What a client that connects now is greeted with.
    pub fn snapshot(&self) -> (pushes: Vec<Push<F>>)
        ensures
            messages(pushes@) == greeting(self@),
    {
        let mut out: Vec<Push<F>> = Vec::with_capacity(4);
        if let Some(c) = &self.config {
            out.push(Push::Config(c.clone()));
        }
        if let Some(s) = &self.system {
            out.push(Push::System(*s));
        }
        if let Some(w) = &self.weather {
            out.push(Push::Weather(w.clone()));
        }
        if let Some(a) = &self.app_usage {
            out.push(Push::AppUsage(a.clone()));
        }
        assert(messages(out@) =~= greeting(self@));
        out
    }
}

impl<F: Copy> Default for Hub<F> {
    fn default() -> (hub: Self)
        ensures
            hub@ == no_pushes::<F>(),
    {
        Hub::new()
    }
}

/// The latest pushes after a row of them was published.
pub open spec fn published_all<F>(latest: Latest<F>, ms: Seq<Message<F>>) -> Latest<F>
    decreases ms.len(),
{
    if ms.len() == 0 {
        latest
    } else {
        published(published_all(latest, ms.drop_last()), ms.last())
    }
}

/// Whether two messages are of the same kind.
pub open spec fn same_kind<F>(a: Message<F>, b: Message<F>) -> bool {
    ||| a is Config && b is Config
    ||| a is System && b is System
    ||| a is Weather && b is Weather
    ||| a is AppUsage && b is AppUsage
}

/// Whether `m` is the last of its kind in a row of messages.
pub open spec fn is_last_of_kind<F>(ms: Seq<Message<F>>, m: Message<F>) -> bool {
    exists|i: int|
        0 <= i < ms.len() && #[trigger] ms[i] == m && forall|j: int|
            i < j < ms.len() ==> !same_kind(#[trigger] ms[j], m)
}

/// A client that connects is greeted with exactly the last published push of each kind, and with at
/// most one push of a kind.
pub proof fn greeting_is_the_last_of_each_kind<F>(ms: Seq<Message<F>>)
    ensures
        forall|m: Message<F>| #[trigger]
            greeting(published_all(no_pushes(), ms)).contains(m) <==> is_last_of_kind(ms, m),
        forall|i: int, j: int|
            0 <= i < j < greeting(published_all(no_pushes::<F>(), ms)).len() ==> !same_kind(
                #[trigger] greeting(published_all(no_pushes::<F>(), ms))[i],
                #[trigger] greeting(published_all(no_pushes::<F>(), ms))[j],
            ),
    decreases ms.len(),
{
    let latest = published_all(no_pushes::<F>(), ms);
    assert forall|m: Message<F>| #[trigger] greeting(latest).contains(m) <==> is_last_of_kind(
        ms,
        m,
    ) by {
        greeting_holds_what_is_remembered(latest, m);
        remembered_is_the_last_of_its_kind(ms, m);
    }
}

/// Whether the hub remembers `m`.
pub open spec fn remembers<F>(latest: Latest<F>, m: Message<F>) -> bool {
    match m {
        Message::Config(c) => latest.config == Some(c),
        Message::System(s) => latest.system == Some(s),
        Message::Weather(w) => latest.weather == Some(w),
        Message::AppUsage(a) => latest.app_usage == Some(a),
    }
}

proof fn greeting_holds_what_is_remembered<F>(latest: Latest<F>, m: Message<F>)
    ensures
        greeting(latest).contains(m) <==> remembers(latest, m),
{
    let g = greeting(latest);
    let c: int = if latest.config is Some { 1 } else { 0 };
    let s: int = if latest.system is Some { 1 } else { 0 };
    let w: int = if latest.weather is Some { 1 } else { 0 };
    if remembers(latest, m) {
        let at = match m {
            Message::Config(_) => 0,
            Message::System(_) => c,
            Message::Weather(_) => c + s,
            Message::AppUsage(_) => c + s + w,
        };
        assert(g[at] == m);
    }
}

proof fn remembered_is_the_last_of_its_kind<F>(ms: Seq<Message<F>>, m: Message<F>)
    ensures
        remembers(published_all(no_pushes(), ms), m) <==> is_last_of_kind(ms, m),
    decreases ms.len(),
{
    if ms.len() > 0 {
        let head = ms.drop_last();
        let last = ms.last();
        remembered_is_the_last_of_its_kind(head, m);
        if same_kind(last, m) {
            if last == m {
                assert(ms[ms.len() - 1] == m);
            }
        } else {
            if is_last_of_kind(head, m) {
                let i = choose|i: int|
                    0 <= i < head.len() && #[trigger] head[i] == m && forall|j: int|
                        i < j < head.len() ==> !same_kind(#[trigger] head[j], m);
                assert(ms[i] == m);
                assert forall|j: int| i < j < ms.len() implies !same_kind(
                    #[trigger] ms[j],
                    m,
                ) by {
                    if j < head.len() {
                        assert(ms[j] == head[j]);
                    }
                }
            }
            if is_last_of_kind(ms, m) {
                let i = choose|i: int|
                    0 <= i < ms.len() && #[trigger] ms[i] == m && forall|j: int|
                        i < j < ms.len() ==> !same_kind(#[trigger] ms[j], m);
                assert(head[i] == m);
                assert forall|j: int| i < j < head.len() implies !same_kind(
                    #[trigger] head[j],
                    m,
                ) by {
                    assert(ms[j] == head[j]);
                }
            }
        }
    }
}

/// One hub's latest pushes, with those of another over them.
pub open spec fn overlaid<F>(below: Latest<F>, above: Latest<F>) -> Latest<F> {
    Latest {
        config: if above.config is Some {
            above.config
        } else {
            below.config
        },
        system: if above.system is Some {
            above.system
        } else {
            below.system
        },
        weather: if above.weather is Some {
            above.weather
        } else {
            below.weather
        },
        app_usage: if above.app_usage is Some {
            above.app_usage
        } else {
            below.app_usage
        },
    }
}

proof fn publishing_overlays<F>(latest: Latest<F>, ms: Seq<Message<F>>)
    ensures
        published_all(latest, ms) == overlaid(latest, published_all(no_pushes(), ms)),
    decreases ms.len(),
{
    if ms.len() > 0 {
        publishing_overlays(latest, ms.drop_last());
    }
}

proof fn publishing_in_two_goes<F>(latest: Latest<F>, a: Seq<Message<F>>, b: Seq<Message<F>>)
    ensures
        published_all(latest, a + b) == published_all(published_all(latest, a), b),
    decreases b.len(),
{
    if b.len() == 0 {
        assert(a + b =~= a);
    } else {
        assert((a + b).drop_last() =~= a + b.drop_last());
        publishing_in_two_goes(latest, a, b.drop_last());
    }
}

proof fn greeting_restores<F>(latest: Latest<F>)
    ensures
        published_all(no_pushes(), greeting(latest)) == latest,
{
    let c = if_any(
        match latest.config {
            Some(c) => Some(Message::Config(c)),
            None => None,
        },
    );
    let s = if_any(
        match latest.system {
            Some(s) => Some(Message::System(s)),
            None => None,
        },
    );
    let w = if_any(
        match latest.weather {
            Some(w) => Some(Message::Weather(w)),
            None => None,
        },
    );
    let a = if_any(
        match latest.app_usage {
            Some(a) => Some(Message::AppUsage(a)),
            None => None,
        },
    );
    let empty = no_pushes::<F>();
    publishing_in_two_goes(empty, c + s + w, a);
    publishing_in_two_goes(empty, c + s, w);
    publishing_in_two_goes(empty, c, s);
    reveal_with_fuel(published_all, 2);
}

/// Whoever takes in the greeting and then the updates, in order, ends up with the latest push of
/// each kind; it does no harm if some of the updates were published before the greeting was put
/// together and are taken in a second time.
pub proof fn greeting_then_updates_is_the_latest<F>(
    latest: Latest<F>,
    before: Seq<Message<F>>,
    after: Seq<Message<F>>,
)
    ensures
        published_all(no_pushes(), greeting(published_all(latest, before)) + (before + after))
            == published_all(latest, before + after),
{
    let greeted = published_all(latest, before);
    let empty = no_pushes::<F>();
    publishing_in_two_goes(empty, greeting(greeted), before + after);
    greeting_restores(greeted);
    publishing_in_two_goes(greeted, before, after);
    publishing_in_two_goes(latest, before, after);
    publishing_overlays(latest, before);
    publishing_overlays(greeted, before);
}

/// A push is what a client is greeted with from then on, until another of its kind is published;
/// pushes of other kinds do not touch it.
pub proof fn publishing_replaces_its_kind_only<F>(
    latest: Latest<F>,
    m: Message<F>,
    other: Message<F>,
)
    ensures
        greeting(published(latest, m)).contains(m),
        !same_kind(m, other) ==> (greeting(published(latest, m)).contains(other) <==> greeting(
            latest,
        ).contains(other)),
        same_kind(m, other) && m != other ==> !greeting(published(latest, m)).contains(other),
{
    greeting_holds_what_is_remembered(published(latest, m), m);
    greeting_holds_what_is_remembered(published(latest, m), other);
    greeting_holds_what_is_remembered(latest, other);
}

/// A greeting has the layout first, system metrics next, then the weather, and app usage last.
pub proof fn greeting_is_in_order<F>(latest: Latest<F>)
    ensures
        forall|i: int, j: int|
            0 <= i < j < greeting(latest).len() ==> {
                let a = #[trigger] greeting(latest)[i];
                let b = #[trigger] greeting(latest)[j];
                ||| a is Config && (b is System || b is Weather || b is AppUsage)
                ||| a is System && (b is Weather || b is AppUsage)
                ||| a is Weather && b is AppUsage
            },
{
}

/// The latest of each kind is in the greeting, as it is, and nothing else is.
pub proof fn greeting_has_what_is_there<F>(latest: Latest<F>, m: Message<F>)
    ensures
        greeting(latest).contains(m) <==> match m {
            Message::Config(c) => latest.config == Some(c),
            Message::System(s) => latest.system == Some(s),
            Message::Weather(w) => latest.weather == Some(w),
            Message::AppUsage(a) => latest.app_usage == Some(a),
        },
{
    greeting_holds_what_is_remembered(latest, m);
}

/// Publishing remembers the push as the latest of its kind, and leaves the other kinds alone; a hub that
/// has seen no push has none of any kind.
pub proof fn publishing_touches_one_kind<F>(latest: Latest<F>, m: Message<F>)
    ensures
        m matches Message::Config(c) ==> published(latest, m).config == Some(c),
        m matches Message::System(s) ==> published(latest, m).system == Some(s),
        m matches Message::Weather(w) ==> published(latest, m).weather == Some(w),
        m matches Message::AppUsage(a) ==> published(latest, m).app_usage == Some(a),
        !(m is Config) ==> published(latest, m).config == latest.config,
        !(m is System) ==> published(latest, m).system == latest.system,
        !(m is Weather) ==> published(latest, m).weather == latest.weather,
        !(m is AppUsage) ==> published(latest, m).app_usage == latest.app_usage,
        no_pushes::<F>().config is None,
        no_pushes::<F>().system is None,
        no_pushes::<F>().weather is None,
        no_pushes::<F>().app_usage is None,
{
}

/// The contents of a row of pushes are those of each push, in their order.
pub proof fn messages_are_those_of_the_pushes<F>(pushes: Seq<Push<F>>)
    ensures
        messages(pushes).len() == pushes.len(),
        forall|i: int| 0 <= i < pushes.len() ==> #[trigger] messages(pushes)[i] == pushes[i]@,
{
}

} // verus!
