//! What the daemon and its clients exchange: snapshots, the panel layout, and the pushes that carry
//! them. Readings (temperatures, percentages) are of a type `F` that the program chooses.

use vstd::prelude::*;

verus! {

/// Where the push server listens: on the loopback interface only.
pub const RPC_ADDR: &'static str = "127.0.0.1:9600";

/// One round of system metrics.
#[derive(Debug, Clone, Copy, PartialEq)]
pub struct SystemSnapshot<F> {
    /// Milliseconds since the Unix epoch.
    pub ts_ms: u64,
    /// Overall CPU usage in percent.
    pub cpu_usage: F,
    /// CPU temperature in degrees Celsius, if a sensor answered.
    pub cpu_temp: Option<F>,
    /// GPU usage in percent, if the driver answered.
    pub gpu_usage: Option<F>,
    /// GPU temperature in degrees Celsius, if the driver answered.
    pub gpu_temp: Option<F>,
}

/// The grid that widgets are placed on.
#[derive(Debug, Clone, Copy, PartialEq, Eq, Structural)]
pub struct GridConfig {
    pub columns: u32,
    pub row_height_px: u32,
    pub gap_px: u32,
}

/// The grid of a panel that nobody configured.
pub open spec fn default_grid() -> GridConfig {
    GridConfig { columns: 4, row_height_px: 160, gap_px: 12 }
}

impl Default for GridConfig {
    fn default() -> (grid: Self)
        ensures
            grid == default_grid(),
    {
        GridConfig { columns: 4, row_height_px: 160, gap_px: 12 }
    }
}

/// One widget: what it shows, and the grid cells it takes. The kind is text, so that a shell can
/// skip kinds it does not know.
#[derive(Debug, PartialEq, Eq)]
pub struct WidgetPlacement {
    pub kind: String,
    pub page: u32,
    pub x: u32,
    pub y: u32,
    pub w: u32,
    pub h: u32,
}

/// The contents of a `WidgetPlacement`.
pub struct Placement {
    pub kind: Seq<char>,
    pub page: u32,
    pub x: u32,
    pub y: u32,
    pub w: u32,
    pub h: u32,
}

impl View for WidgetPlacement {
    type V = Placement;

    open spec fn view(&self) -> Placement {
        Placement {
            kind: self.kind@,
            page: self.page,
            x: self.x,
            y: self.y,
            w: self.w,
            h: self.h,
        }
    }
}

impl Clone for WidgetPlacement {
    fn clone(&self) -> (copy: Self)
        ensures
            copy@ == self@,
    {
        WidgetPlacement {
            kind: self.kind.clone(),
            page: self.page,
            x: self.x,
            y: self.y,
            w: self.w,
            h: self.h,
        }
    }
}

/// The contents of a row of widgets.
pub open spec fn placements(widgets: Seq<WidgetPlacement>) -> Seq<Placement> {
    widgets.map_values(|w: WidgetPlacement| w@)
}

/// Copies a row of widgets.
pub fn clone_widgets(widgets: &Vec<WidgetPlacement>) -> (copy: Vec<WidgetPlacement>)
    ensures
        placements(copy@) == placements(widgets@),
{
    let mut copy: Vec<WidgetPlacement> = Vec::new();
    for i in 0..widgets.len()
        invariant
            copy@.len() == i,
            forall|j: int| 0 <= j < i ==> (#[trigger] copy@[j])@ == widgets@[j]@,
    {
        copy.push(widgets[i].clone());
    }
    assert(placements(copy@) =~= placements(widgets@));
    copy
}

/// The layout that the shell renders.
#[derive(Debug, PartialEq, Eq)]
pub struct ShellConfig {
    pub grid: GridConfig,
    pub widgets: Vec<WidgetPlacement>,
}

/// The contents of a `ShellConfig`.
pub struct Layout {
    pub grid: GridConfig,
    pub widgets: Seq<Placement>,
}

impl View for ShellConfig {
    type V = Layout;

    open spec fn view(&self) -> Layout {
        Layout { grid: self.grid, widgets: placements(self.widgets@) }
    }
}

impl Clone for ShellConfig {
    fn clone(&self) -> (copy: Self)
        ensures
            copy@ == self@,
    {
        ShellConfig { grid: self.grid, widgets: clone_widgets(&self.widgets) }
    }
}

/// A full-width widget on the first page, `h` rows high from row `y`.
pub open spec fn full_width(kind: Seq<char>, y: u32, h: u32) -> Placement {
    Placement { kind, page: 0, x: 0, y, w: 4, h }
}

/// The widgets of a panel that nobody configured: clock, metrics, weather and app usage, from top
/// to bottom.
pub open spec fn default_placements() -> Seq<Placement> {
    seq![
        full_width("clock"@, 0, 3),
        full_width("metrics"@, 3, 4),
        full_width("weather"@, 7, 4),
        full_width("app_usage"@, 11, 4),
    ]
}

fn widget(kind: &str, page: u32, x: u32, y: u32, w: u32, h: u32) -> (placed: WidgetPlacement)
    ensures
        placed@ == (Placement { kind: kind@, page, x, y, w, h }),
{
    WidgetPlacement { kind: kind.to_string(), page, x, y, w, h }
}

impl Default for ShellConfig {
    fn default() -> (shell: Self)
        ensures
            shell@.grid == default_grid(),
            shell@.widgets == default_placements(),
    {
        let mut widgets: Vec<WidgetPlacement> = Vec::new();
        widgets.push(widget("clock", 0, 0, 0, 4, 3));
        widgets.push(widget("metrics", 0, 0, 3, 4, 4));
        widgets.push(widget("weather", 0, 0, 7, 4, 4));
        widgets.push(widget("app_usage", 0, 0, 11, 4, 4));
        assert(placements(widgets@) =~= default_placements());
        ShellConfig { grid: GridConfig::default(), widgets }
    }
}

/// The weather at one time. Sunrise and sunset are hours and minutes in the zone of the place, which is
/// the zone of the system where the panel stands at the place that it shows.
#[derive(Debug, PartialEq)]
pub struct WeatherSnapshot<F> {
    pub ts_ms: u64,
    /// The configured name of the place.
    pub city: String,
    pub temp_c: F,
    /// The weather in words.
    pub condition: String,
    pub high_c: F,
    pub low_c: F,
    pub sunrise: String,
    pub sunset: String,
}

/// The contents of a `WeatherSnapshot`.
pub struct WeatherReport<F> {
    pub ts_ms: u64,
    pub city: Seq<char>,
    pub temp_c: F,
    pub condition: Seq<char>,
    pub high_c: F,
    pub low_c: F,
    pub sunrise: Seq<char>,
    pub sunset: Seq<char>,
}

impl<F> View for WeatherSnapshot<F> {
    type V = WeatherReport<F>;

    open spec fn view(&self) -> WeatherReport<F> {
        WeatherReport {
            ts_ms: self.ts_ms,
            city: self.city@,
            temp_c: self.temp_c,
            condition: self.condition@,
            high_c: self.high_c,
            low_c: self.low_c,
            sunrise: self.sunrise@,
            sunset: self.sunset@,
        }
    }
}

impl<F: Copy> Clone for WeatherSnapshot<F> {
    fn clone(&self) -> (copy: Self)
        ensures
            copy@ == self@,
    {
        WeatherSnapshot {
            ts_ms: self.ts_ms,
            city: self.city.clone(),
            temp_c: self.temp_c,
            condition: self.condition.clone(),
            high_c: self.high_c,
            low_c: self.low_c,
            sunrise: self.sunrise.clone(),
            sunset: self.sunset.clone(),
        }
    }
}

/// How long one program was in the foreground.
#[derive(Debug, PartialEq, Eq)]
pub struct AppUsageEntry {
    /// The process name without its extension.
    pub name: String,
    pub today_secs: u64,
    pub yesterday_secs: u64,
}

/// The contents of an `AppUsageEntry`.
pub struct Usage {
    pub name: Seq<char>,
    pub today_secs: u64,
    pub yesterday_secs: u64,
}

impl View for AppUsageEntry {
    type V = Usage;

    open spec fn view(&self) -> Usage {
        Usage {
            name: self.name@,
            today_secs: self.today_secs,
            yesterday_secs: self.yesterday_secs,
        }
    }
}

impl Clone for AppUsageEntry {
    fn clone(&self) -> (copy: Self)
        ensures
            copy@ == self@,
    {
        AppUsageEntry {
            name: self.name.clone(),
            today_secs: self.today_secs,
            yesterday_secs: self.yesterday_secs,
        }
    }
}

/// The contents of a row of usage entries.
pub open spec fn usages(entries: Seq<AppUsageEntry>) -> Seq<Usage> {
    entries.map_values(|e: AppUsageEntry| e@)
}

/// The programs that were used most today, and how long each was used yesterday.
#[derive(Debug, PartialEq, Eq)]
pub struct AppUsageSnapshot {
    pub ts_ms: u64,
    pub top: Vec<AppUsageEntry>,
}

/// The contents of an `AppUsageSnapshot`.
pub struct UsageReport {
    pub ts_ms: u64,
    pub top: Seq<Usage>,
}

impl View for AppUsageSnapshot {
    type V = UsageReport;

    open spec fn view(&self) -> UsageReport {
        UsageReport { ts_ms: self.ts_ms, top: usages(self.top@) }
    }
}

impl Clone for AppUsageSnapshot {
    fn clone(&self) -> (copy: Self)
        ensures
            copy@ == self@,
    {
        let mut top: Vec<AppUsageEntry> = Vec::new();
        for i in 0..self.top.len()
            invariant
                top@.len() == i,
                forall|j: int| 0 <= j < i ==> (#[trigger] top@[j])@ == self.top@[j]@,
        {
            top.push(self.top[i].clone());
        }
        assert(usages(top@) =~= usages(self.top@));
        AppUsageSnapshot { ts_ms: self.ts_ms, top }
    }
}

/// A message from the daemon to its clients.
#[derive(Debug, PartialEq)]
pub enum Push<F> {
    System(SystemSnapshot<F>),
    Weather(WeatherSnapshot<F>),
    AppUsage(AppUsageSnapshot),
    Config(ShellConfig),
}

/// The contents of a `Push`.
pub enum Message<F> {
    System(SystemSnapshot<F>),
    Weather(WeatherReport<F>),
    AppUsage(UsageReport),
    Config(Layout),
}

impl<F> View for Push<F> {
    type V = Message<F>;

    open spec fn view(&self) -> Message<F> {
        match self {
            Push::System(s) => Message::System(*s),
            Push::Weather(w) => Message::Weather(w@),
            Push::AppUsage(a) => Message::AppUsage(a@),
            Push::Config(c) => Message::Config(c@),
        }
    }
}

impl<F: Copy> Clone for Push<F> {
    fn clone(&self) -> (copy: Self)
        ensures
            copy@ == self@,
    {
        match self {
            Push::System(s) => Push::System(*s),
            Push::Weather(w) => Push::Weather(w.clone()),
            Push::AppUsage(a) => Push::AppUsage(a.clone()),
            Push::Config(c) => Push::Config(c.clone()),
        }
    }
}

/// The contents of a layout are what its fields hold.
pub proof fn layouts_hold_their_fields(shell: ShellConfig, w: WidgetPlacement)
    ensures
        shell@.grid == shell.grid,
        shell@.widgets.len() == shell.widgets@.len(),
        forall|i: int|
            0 <= i < shell.widgets@.len() ==> #[trigger] shell@.widgets[i] == shell.widgets@[i]@,
        w@.kind == w.kind@,
        w@.page == w.page,
        w@.x == w.x,
        w@.y == w.y,
        w@.w == w.w,
        w@.h == w.h,
{
}

/// The contents of a push are those of what it carries, and the contents of that are what its fields
/// hold.
pub proof fn pushes_hold_what_they_carry<F>(
    push: Push<F>,
    weather: WeatherSnapshot<F>,
    usage: AppUsageSnapshot,
    entry: AppUsageEntry,
)
    ensures
        push matches Push::System(s) ==> push@ == Message::System(s),
        push matches Push::Weather(w) ==> push@ == Message::<F>::Weather(w@),
        push matches Push::AppUsage(a) ==> push@ == Message::<F>::AppUsage(a@),
        push matches Push::Config(c) ==> push@ == Message::<F>::Config(c@),
        weather@.ts_ms == weather.ts_ms,
        weather@.city == weather.city@,
        weather@.temp_c == weather.temp_c,
        weather@.condition == weather.condition@,
        weather@.high_c == weather.high_c,
        weather@.low_c == weather.low_c,
        weather@.sunrise == weather.sunrise@,
        weather@.sunset == weather.sunset@,
        usage@.ts_ms == usage.ts_ms,
        usage@.top.len() == usage.top@.len(),
        forall|i: int| 0 <= i < usage.top@.len() ==> #[trigger] usage@.top[i] == usage.top@[i]@,
        entry@.name == entry.name@,
        entry@.today_secs == entry.today_secs,
        entry@.yesterday_secs == entry.yesterday_secs,
{
}

} // verus!
