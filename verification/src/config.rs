//! The daemon's settings: what a settings file holds, what the running daemon makes of it, and the
//! file that is written where there is none.

use crate::interval::Interval;
use crate::model::{
    default_grid, default_placements, placements, GridConfig, Layout, Message,
    Placement, Push, ShellConfig, WidgetPlacement,
};
use crate::settings_text::{default_text, default_toml_text};
use crate::text::same_text;
use vstd::prelude::*;

verus! {

/// The settings that the running daemon works with.
#[derive(Debug, PartialEq)]
pub struct AppConfig<F> {
    pub sampling: SamplingConfig,
    pub weather: WeatherConfig<F>,
    pub shell: ShellConfig,
}

/// How often each kind of data is sampled.
#[derive(Debug, Clone, Copy, PartialEq, Eq)]
pub struct SamplingConfig {
    pub system: Interval,
    pub app_usage: Interval,
    pub weather: Interval,
}

/// Which weather service to ask, and about which place.
#[derive(Debug, PartialEq)]
pub struct WeatherConfig<F> {
    pub enabled: bool,
    pub provider: WeatherProviderKind,
    pub latitude: Option<F>,
    pub longitude: Option<F>,
    pub city_label: String,
    pub qweather_key: Option<String>,
}

/// The weather services.
#[derive(Debug, Clone, Copy, PartialEq, Eq, Structural)]
pub enum WeatherProviderKind {
    OpenMeteo,
    QWeather,
}

/// The contents of an optional text.
pub open spec fn optional_text(t: Option<String>) -> Option<Seq<char>> {
    match t {
        Some(s) => Some(s@),
        None => None,
    }
}

fn clone_optional(t: &Option<String>) -> (copy: Option<String>)
    ensures
        optional_text(copy) == optional_text(*t),
{
    match t {
        Some(s) => Some(s.clone()),
        None => None,
    }
}

/// The contents of a `SamplingConfig`, in milliseconds.
pub struct SamplingPlan {
    pub system: nat,
    pub app_usage: nat,
    pub weather: nat,
}

impl View for SamplingConfig {
    type V = SamplingPlan;

    open spec fn view(&self) -> SamplingPlan {
        SamplingPlan {
            system: self.system@,
            app_usage: self.app_usage@,
            weather: self.weather@,
        }
    }
}

/// The contents of a `WeatherConfig`.
pub struct WeatherPlan<F> {
    pub enabled: bool,
    pub provider: WeatherProviderKind,
    pub latitude: Option<F>,
    pub longitude: Option<F>,
    pub city_label: Seq<char>,
    pub qweather_key: Option<Seq<char>>,
}

impl<F> View for WeatherConfig<F> {
    type V = WeatherPlan<F>;

    open spec fn view(&self) -> WeatherPlan<F> {
        WeatherPlan {
            enabled: self.enabled,
            provider: self.provider,
            latitude: self.latitude,
            longitude: self.longitude,
            city_label: self.city_label@,
            qweather_key: optional_text(self.qweather_key),
        }
    }
}

impl<F: Copy> Clone for WeatherConfig<F> {
    fn clone(&self) -> (copy: Self)
        ensures
            copy@ == self@,
    {
        WeatherConfig {
            enabled: self.enabled,
            provider: self.provider,
            latitude: self.latitude,
            longitude: self.longitude,
            city_label: self.city_label.clone(),
            qweather_key: clone_optional(&self.qweather_key),
        }
    }
}

/// The place that the settings name, if they give both coordinates.
pub open spec fn place<F>(w: WeatherPlan<F>) -> Option<(F, F)> {
    match (w.latitude, w.longitude) {
        (Some(lat), Some(lon)) => Some((lat, lon)),
        _ => None,
    }
}

impl<F: Copy> WeatherConfig<F> {
    /// Latitude and longitude, if both are set. The place is never guessed.
    pub fn coords(&self) -> (coords: Option<(F, F)>)
        ensures
            coords == place(self@),
    {
        match (self.latitude, self.longitude) {
            (Some(lat), Some(lon)) => Some((lat, lon)),
            _ => None,
        }
    }
}

/// The contents of an `AppConfig`.
pub struct Settings<F> {
    pub sampling: SamplingPlan,
    pub weather: WeatherPlan<F>,
    pub shell: Layout,
}

impl<F> View for AppConfig<F> {
    type V = Settings<F>;

    open spec fn view(&self) -> Settings<F> {
        Settings { sampling: self.sampling@, weather: self.weather@, shell: self.shell@ }
    }
}

impl<F: Copy> Clone for AppConfig<F> {
    fn clone(&self) -> (copy: Self)
        ensures
            copy@ == self@,
    {
        AppConfig {
            sampling: self.sampling,
            weather: self.weather.clone(),
            shell: self.shell.clone(),
        }
    }
}

/// The `[sampling]` table of a settings file.
#[derive(Debug, Clone, Copy, PartialEq, Eq, Structural)]
pub struct RawSampling {
    pub system_ms: u64,
    pub app_usage_ms: u64,
    pub weather_min: u64,
}

/// What `[sampling]` holds where the file is silent.
pub open spec fn default_sampling() -> RawSampling {
    RawSampling { system_ms: 1000, app_usage_ms: 5000, weather_min: 10 }
}

impl Default for RawSampling {
    fn default() -> (raw: Self)
        ensures
            raw == default_sampling(),
    {
        RawSampling { system_ms: 1000, app_usage_ms: 5000, weather_min: 10 }
    }
}

/// The `[weather]` table of a settings file.
#[derive(Debug, PartialEq)]
pub struct RawWeather<F> {
    pub enabled: bool,
    pub provider: String,
    pub latitude: Option<F>,
    pub longitude: Option<F>,
    pub city_label: String,
    pub qweather_key: Option<String>,
}

/// The contents of a `RawWeather`.
pub struct WeatherTable<F> {
    pub enabled: bool,
    pub provider: Seq<char>,
    pub latitude: Option<F>,
    pub longitude: Option<F>,
    pub city_label: Seq<char>,
    pub qweather_key: Option<Seq<char>>,
}

impl<F> View for RawWeather<F> {
    type V = WeatherTable<F>;

    open spec fn view(&self) -> WeatherTable<F> {
        WeatherTable {
            enabled: self.enabled,
            provider: self.provider@,
            latitude: self.latitude,
            longitude: self.longitude,
            city_label: self.city_label@,
            qweather_key: optional_text(self.qweather_key),
        }
    }
}

/// What `[weather]` holds where the file is silent: switched off, no place, no key.
pub open spec fn default_weather<F>() -> WeatherTable<F> {
    WeatherTable {
        enabled: false,
        provider: "open-meteo"@,
        latitude: None,
        longitude: None,
        city_label: Seq::empty(),
        qweather_key: None,
    }
}

impl<F> Default for RawWeather<F> {
    fn default() -> (raw: Self)
        ensures
            raw@ == default_weather::<F>(),
    {
        RawWeather {
            enabled: false,
            provider: "open-meteo".to_string(),
            latitude: None,
            longitude: None,
            city_label: String::new(),
            qweather_key: None,
        }
    }
}

/// The `[grid]` table of a settings file.
#[derive(Debug, Clone, Copy, PartialEq, Eq, Structural)]
pub struct RawGrid {
    pub columns: u32,
    pub row_height_px: u32,
    pub gap_px: u32,
}

impl Default for RawGrid {
    fn default() -> (raw: Self)
        ensures
            raw.columns == default_grid().columns,
            raw.row_height_px == default_grid().row_height_px,
            raw.gap_px == default_grid().gap_px,
    {
        let grid = GridConfig::default();
        RawGrid {
            columns: grid.columns,
            row_height_px: grid.row_height_px,
            gap_px: grid.gap_px,
        }
    }
}

/// One entry of `[[widgets]]` in a settings file.
#[derive(Debug, PartialEq, Eq)]
pub struct RawWidget {
    pub kind: String,
    pub page: u32,
    pub x: u32,
    pub y: u32,
    pub w: u32,
    pub h: u32,
}

impl View for RawWidget {
    type V = Placement;

    open spec fn view(&self) -> Placement {
        Placement {
            kind: self.kind@,
            page: self.page,
            x: self.x,
            y: self.y,
            w: self.w,
            h: self.h,
        }
    }
}

impl From<WidgetPlacement> for RawWidget {
    fn from(w: WidgetPlacement) -> (raw: Self) {
        RawWidget { kind: w.kind, page: w.page, x: w.x, y: w.y, w: w.w, h: w.h }
    }
}

impl vstd::std_specs::convert::FromSpecImpl<WidgetPlacement> for RawWidget {
    open spec fn obeys_from_spec() -> bool {
        true
    }

    open spec fn from_spec(w: WidgetPlacement) -> Self {
        RawWidget { kind: w.kind, page: w.page, x: w.x, y: w.y, w: w.w, h: w.h }
    }
}

impl From<RawWidget> for WidgetPlacement {
    fn from(w: RawWidget) -> (placed: Self) {
        WidgetPlacement { kind: w.kind, page: w.page, x: w.x, y: w.y, w: w.w, h: w.h }
    }
}

impl vstd::std_specs::convert::FromSpecImpl<RawWidget> for WidgetPlacement {
    open spec fn obeys_from_spec() -> bool {
        true
    }

    open spec fn from_spec(w: RawWidget) -> Self {
        WidgetPlacement { kind: w.kind, page: w.page, x: w.x, y: w.y, w: w.w, h: w.h }
    }
}

/// The contents of the widgets of a settings file.
pub open spec fn raw_placements(widgets: Seq<RawWidget>) -> Seq<Placement> {
    widgets.map_values(|w: RawWidget| w@)
}

/// A settings file as it was read, every missing entry filled in.
#[derive(Debug, PartialEq)]
pub struct RawConfig<F> {
    pub sampling: RawSampling,
    pub weather: RawWeather<F>,
    pub grid: RawGrid,
    pub widgets: Vec<RawWidget>,
}

/// The contents of a `RawConfig`.
pub struct SettingsFile<F> {
    pub sampling: RawSampling,
    pub weather: WeatherTable<F>,
    pub grid: RawGrid,
    pub widgets: Seq<Placement>,
}

impl<F> View for RawConfig<F> {
    type V = SettingsFile<F>;

    open spec fn view(&self) -> SettingsFile<F> {
        SettingsFile {
            sampling: self.sampling,
            weather: self.weather@,
            grid: self.grid,
            widgets: raw_placements(self.widgets@),
        }
    }
}

/// What an empty settings file holds.
pub open spec fn default_file<F>() -> SettingsFile<F> {
    SettingsFile {
        sampling: default_sampling(),
        weather: default_weather(),
        grid: RawGrid {
            columns: default_grid().columns,
            row_height_px: default_grid().row_height_px,
            gap_px: default_grid().gap_px,
        },
        widgets: default_placements(),
    }
}

impl<F> Default for RawConfig<F> {
    fn default() -> (raw: Self)
        ensures
            raw@ == default_file::<F>(),
    {
        let placed: Vec<WidgetPlacement> = ShellConfig::default().widgets;
        let mut widgets: Vec<RawWidget> = Vec::new();
        for i in 0..placed.len()
            invariant
                widgets@.len() == i,
                forall|j: int| 0 <= j < i ==> (#[trigger] widgets@[j])@ == placed@[j]@,
        {
            widgets.push(RawWidget::from(placed[i].clone()));
        }
        assert(raw_placements(widgets@) =~= placements(placed@));
        RawConfig {
            sampling: RawSampling::default(),
            weather: RawWeather::default(),
            grid: RawGrid::default(),
            widgets,
        }
    }
}

/// The larger of two numbers.
pub open spec fn at_least(n: nat, min: nat) -> nat {
    if n < min {
        min
    } else {
        n
    }
}

/// What the daemon makes of a settings file. No interval is below its minimum, so that no sampling
/// loop can run without a pause; a provider that is not known is Open-Meteo; a file without widgets
/// has the default ones.
pub open spec fn settings_of<F>(file: SettingsFile<F>) -> Settings<F> {
    Settings {
        sampling: SamplingPlan {
            system: at_least(file.sampling.system_ms as nat, 100),
            app_usage: at_least(file.sampling.app_usage_ms as nat, 500),
            weather: at_least(file.sampling.weather_min as nat, 1) * 60_000,
        },
        weather: WeatherPlan {
            enabled: file.weather.enabled,
            provider: if file.weather.provider == "qweather"@ {
                WeatherProviderKind::QWeather
            } else {
                WeatherProviderKind::OpenMeteo
            },
            latitude: file.weather.latitude,
            longitude: file.weather.longitude,
            city_label: file.weather.city_label,
            qweather_key: file.weather.qweather_key,
        },
        shell: Layout {
            grid: GridConfig {
                columns: file.grid.columns,
                row_height_px: file.grid.row_height_px,
                gap_px: file.grid.gap_px,
            },
            widgets: if file.widgets.len() == 0 {
                default_placements()
            } else {
                file.widgets
            },
        },
    }
}

/// Whether the weather interval of a file can be counted in seconds.
pub open spec fn weather_interval_fits<F>(file: SettingsFile<F>) -> bool {
    file.sampling.weather_min * 60 <= u64::MAX
}

fn larger(a: u64, b: u64) -> (m: u64)
    ensures
        m == at_least(a as nat, b as nat),
{
    if a < b {
        b
    } else {
        a
    }
}

impl<F> RawConfig<F> {
    /// Turns a settings file into the settings that the daemon works with.
    pub fn into_app_config(self) -> (config: AppConfig<F>)
        requires
            weather_interval_fits(self@),
        ensures
            config@ == settings_of(self@),
    {
        let provider = if same_text(self.weather.provider.as_str(), "qweather") {
            WeatherProviderKind::QWeather
        } else {
            WeatherProviderKind::OpenMeteo
        };
        let ghost raw_widgets = self.widgets@;
        let widgets: Vec<WidgetPlacement> = if self.widgets.len() == 0 {
            ShellConfig::default().widgets
        } else {
            placed_widgets(self.widgets)
        };
        AppConfig {
            sampling: SamplingConfig {
                system: Interval::from_millis(larger(self.sampling.system_ms, 100)),
                app_usage: Interval::from_millis(larger(self.sampling.app_usage_ms, 500)),
                weather: Interval::from_secs(larger(self.sampling.weather_min, 1) * 60),
            },
            weather: WeatherConfig {
                enabled: self.weather.enabled,
                provider,
                latitude: self.weather.latitude,
                longitude: self.weather.longitude,
                city_label: self.weather.city_label,
                qweather_key: self.weather.qweather_key,
            },
            shell: ShellConfig {
                grid: GridConfig {
                    columns: self.grid.columns,
                    row_height_px: self.grid.row_height_px,
                    gap_px: self.grid.gap_px,
                },
                widgets,
            },
        }
    }
}

fn placed_widgets(raw: Vec<RawWidget>) -> (placed: Vec<WidgetPlacement>)
    ensures
        placements(placed@) == raw_placements(raw@),
{
    let mut placed: Vec<WidgetPlacement> = Vec::new();
    for w in it: raw
        invariant
            it.seq() == raw@,
            placed@.len() == it.index(),
            forall|j: int| 0 <= j < placed@.len() ==> (#[trigger] placed@[j])@ == raw@[j]@,
    {
        placed.push(WidgetPlacement::from(w));
    }
    assert(placements(placed@) =~= raw_placements(raw@));
    placed
}

/// What came of reading the settings file.
pub enum ConfigRead<F> {
    /// The file was read and is a settings file.
    Parsed(RawConfig<F>),
    /// The file was read, but is no settings file.
    Malformed,
    /// There is no file.
    Missing,
    /// The file could not be read.
    Unreadable,
}

/// Whether the settings that were read, if any, can be used.
pub open spec fn usable<F>(read: ConfigRead<F>) -> bool {
    read matches ConfigRead::Parsed(raw) ==> weather_interval_fits(raw@)
}

/// The settings to start with.
pub struct Loaded<F> {
    pub config: AppConfig<F>,
    /// The text of the file to write, if one is to be written.
    pub write_defaults: Option<String>,
}

/// The text of the file to write at the start, if one is to be written: the defaults, where there is
/// no file.
pub open spec fn to_write<F>(read: ConfigRead<F>) -> Option<Seq<char>> {
    if read is Missing {
        Some(default_text())
    } else {
        None
    }
}

/// The settings that a start gives.
pub open spec fn starts_with<F>(read: ConfigRead<F>) -> Settings<F> {
    match read {
        ConfigRead::Parsed(raw) => settings_of(raw@),
        _ => settings_of(default_file()),
    }
}

/// The settings to start with: those of the file, or the defaults where the file cannot be used. A
/// file is written only where there is none; one that is merely broken is left alone.
pub fn load_or_init<F>(read: ConfigRead<F>) -> (loaded: Loaded<F>)
    requires
        usable(read),
    ensures
        loaded.config@ == starts_with(read),
        optional_text(loaded.write_defaults) == to_write(read),
{
    match read {
        ConfigRead::Parsed(raw) => Loaded {
            config: raw.into_app_config(),
            write_defaults: None,
        },
        ConfigRead::Missing => Loaded {
            config: RawConfig::default().into_app_config(),
            write_defaults: Some(default_toml_text()),
        },
        _ => Loaded { config: RawConfig::default().into_app_config(), write_defaults: None },
    }
}

/// The settings to go on with after a change, and the layout to push to every client. Pushes have
/// readings of a type `R`, which need not be that of the coordinates.
pub struct Reloaded<F, R> {
    pub config: AppConfig<F>,
    pub push: Push<R>,
}

/// The settings to go on with after the file changed. Where the file cannot be used there are none:
/// the daemon keeps those it has, and pushes nothing.
pub fn reload<F, R>(read: ConfigRead<F>) -> (reloaded: Option<Reloaded<F, R>>)
    requires
        usable(read),
    ensures
        match (read, reloaded) {
            (ConfigRead::Parsed(raw), Some(r)) => {
                &&& r.config@ == settings_of(raw@)
                &&& r.push@ == Message::<R>::Config(r.config@.shell)
            },
            (ConfigRead::Parsed(_), None) => false,
            (_, r) => r is None,
        },
{
    match read {
        ConfigRead::Parsed(raw) => {
            let config: AppConfig<F> = raw.into_app_config();
            let push: Push<R> = Push::Config(config.shell.clone());
            Some(Reloaded { config, push })
        },
        _ => None,
    }
}

/// The settings in force after a change: those of the file, or the previous ones where the file
/// cannot be used.
pub open spec fn in_force<F>(previous: Settings<F>, read: ConfigRead<F>) -> Settings<F> {
    match read {
        ConfigRead::Parsed(raw) => settings_of(raw@),
        _ => previous,
    }
}

/// A sampling plan under which no loop runs without a pause.
pub open spec fn paced(plan: SamplingPlan) -> bool {
    plan.system >= 100 && plan.app_usage >= 500 && plan.weather >= 60_000
}

/// Whatever a settings file says, every sampling interval keeps its minimum and the panel shows at
/// least one widget.
pub proof fn settings_are_always_sane<F>(file: SettingsFile<F>)
    ensures
        paced(settings_of(file).sampling),
        settings_of(file).shell.widgets.len() > 0,
{
}

/// An interval that is not below its minimum is taken as it stands.
pub proof fn sane_intervals_are_kept<F>(file: SettingsFile<F>)
    requires
        file.sampling.system_ms >= 100,
        file.sampling.app_usage_ms >= 500,
        file.sampling.weather_min >= 1,
    ensures
        settings_of(file).sampling == (SamplingPlan {
            system: file.sampling.system_ms as nat,
            app_usage: file.sampling.app_usage_ms as nat,
            weather: file.sampling.weather_min as nat * 60_000,
        }),
{
}

/// Settings in force stay sane through any change of the file, one that cannot be used included.
pub proof fn changes_keep_settings_sane<F>(previous: Settings<F>, read: ConfigRead<F>)
    requires
        paced(previous.sampling),
        previous.shell.widgets.len() > 0,
    ensures
        paced(in_force(previous, read).sampling),
        in_force(previous, read).shell.widgets.len() > 0,
        !(read is Parsed) ==> in_force(previous, read) == previous,
{
    match read {
        ConfigRead::Parsed(raw) => {
            settings_are_always_sane(raw@);
        },
        _ => {},
    }
}

/// A second start changes nothing: where the first one found no file and wrote one, and that file is
/// read as what it holds, the defaults, the second has the same settings and writes nothing.
pub proof fn second_start_changes_nothing<F>(first: ConfigRead<F>, second: ConfigRead<F>)
    requires
        first is Missing,
        second matches ConfigRead::Parsed(raw) && raw@ == default_file::<F>(),
    ensures
        to_write(first) == Some(default_text()),
        starts_with(second) == starts_with(first),
        to_write(second) is None,
{
}

/// A widget that goes to the file form and back, or the other way round, is unchanged.
pub proof fn widget_forms_agree(placed: WidgetPlacement, raw: RawWidget)
    ensures
        <WidgetPlacement as vstd::std_specs::convert::FromSpec<RawWidget>>::from_spec(
            <RawWidget as vstd::std_specs::convert::FromSpec<WidgetPlacement>>::from_spec(placed),
        ) == placed,
        <RawWidget as vstd::std_specs::convert::FromSpec<WidgetPlacement>>::from_spec(
            <WidgetPlacement as vstd::std_specs::convert::FromSpec<RawWidget>>::from_spec(raw),
        ) == raw,
{
}

/// The settings of an empty file are the default layout, every second for the system metrics, and
/// no weather.
pub proof fn defaults_are_the_default_layout<F>()
    ensures
        settings_of(default_file::<F>()).shell == (Layout {
            grid: default_grid(),
            widgets: default_placements(),
        }),
        settings_of(default_file::<F>()).sampling == (SamplingPlan {
            system: 1000,
            app_usage: 5000,
            weather: 600_000,
        }),
        !settings_of(default_file::<F>()).weather.enabled,
        place(settings_of(default_file::<F>()).weather) is None,
        settings_of(default_file::<F>()).weather.provider == WeatherProviderKind::OpenMeteo,
{
    reveal_strlit("open-meteo");
    reveal_strlit("qweather");
    assert("open-meteo"@.len() != "qweather"@.len());
}

/// What a file places is what the panel shows: with at least one widget in the file, the layout has as
/// many, and each has the kind, the page, the place and the size that the file gives it; the grid is the
/// file's.
pub proof fn layout_is_that_of_the_file<F>(file: SettingsFile<F>)
    ensures
        file.widgets.len() > 0 ==> settings_of(file).shell.widgets == file.widgets,
        file.widgets.len() > 0 ==> forall|i: int|
            0 <= i < file.widgets.len() ==> {
                let shown = #[trigger] settings_of(file).shell.widgets[i];
                let placed = file.widgets[i];
                &&& shown.kind == placed.kind
                &&& shown.page == placed.page
                &&& shown.x == placed.x
                &&& shown.y == placed.y
                &&& shown.w == placed.w
                &&& shown.h == placed.h
            },
        settings_of(file).shell.grid.columns == file.grid.columns,
        settings_of(file).shell.grid.row_height_px == file.grid.row_height_px,
        settings_of(file).shell.grid.gap_px == file.grid.gap_px,
{
}

/// The weather settings are those of the file, entry by entry; the provider is QWeather exactly where
/// the file says `qweather`.
pub proof fn weather_is_that_of_the_file<F>(file: SettingsFile<F>)
    ensures
        settings_of(file).weather.enabled == file.weather.enabled,
        settings_of(file).weather.latitude == file.weather.latitude,
        settings_of(file).weather.longitude == file.weather.longitude,
        settings_of(file).weather.city_label == file.weather.city_label,
        settings_of(file).weather.qweather_key == file.weather.qweather_key,
        settings_of(file).weather.provider is QWeather <==> file.weather.provider == "qweather"@,
{
}

/// Each interval is the larger of what the file says and a tenth of a second, half a second and a
/// minute.
pub proof fn intervals_are_those_of_the_file<F>(file: SettingsFile<F>)
    ensures
        settings_of(file).sampling.system == vstd::math::max(file.sampling.system_ms as int, 100),
        settings_of(file).sampling.app_usage == vstd::math::max(
            file.sampling.app_usage_ms as int,
            500,
        ),
        settings_of(file).sampling.weather == 60_000 * vstd::math::max(
            file.sampling.weather_min as int,
            1,
        ),
{
}

/// A start takes the settings of a file that was read, and those of an empty file otherwise; a file is
/// written only where there is none. A change takes the settings of a file that was read, and keeps the
/// previous ones otherwise.
pub proof fn files_that_were_read_count<F>(read: ConfigRead<F>, previous: Settings<F>)
    ensures
        read matches ConfigRead::Parsed(raw) ==> {
            &&& starts_with(read) == settings_of(raw@)
            &&& in_force(previous, read) == settings_of(raw@)
            &&& to_write(read) is None
        },
        !(read is Parsed) ==> {
            &&& starts_with(read) == settings_of(default_file::<F>())
            &&& in_force(previous, read) == previous
        },
        to_write(read) is Some <==> read is Missing,
        read is Missing ==> to_write(read) == Some(default_text()),
{
}

/// Both coordinates together make a place, in the order latitude, longitude.
pub proof fn a_place_has_both_coordinates<F>(w: WeatherPlan<F>)
    ensures
        place(w) is Some <==> w.latitude is Some && w.longitude is Some,
        place(w) matches Some((lat, lon)) ==> w.latitude == Some(lat) && w.longitude == Some(lon),
{
}

/// The contents of settings and of settings files are what their fields hold.
pub proof fn settings_hold_their_fields<F>(config: AppConfig<F>, raw: RawConfig<F>, w: RawWidget)
    ensures
        config@.sampling.system == config.sampling.system@,
        config@.sampling.app_usage == config.sampling.app_usage@,
        config@.sampling.weather == config.sampling.weather@,
        config@.weather.enabled == config.weather.enabled,
        config@.weather.provider == config.weather.provider,
        config@.weather.latitude == config.weather.latitude,
        config@.weather.longitude == config.weather.longitude,
        config@.weather.city_label == config.weather.city_label@,
        config@.weather.qweather_key is Some <==> config.weather.qweather_key is Some,
        config.weather.qweather_key matches Some(key) ==> config@.weather.qweather_key == Some(
            key@,
        ),
        config@.shell == config.shell@,
        raw@.sampling == raw.sampling,
        raw@.grid == raw.grid,
        raw@.weather.enabled == raw.weather.enabled,
        raw@.weather.provider == raw.weather.provider@,
        raw@.weather.latitude == raw.weather.latitude,
        raw@.weather.longitude == raw.weather.longitude,
        raw@.weather.city_label == raw.weather.city_label@,
        raw@.weather.qweather_key is Some <==> raw.weather.qweather_key is Some,
        raw.weather.qweather_key matches Some(key) ==> raw@.weather.qweather_key == Some(key@),
        raw@.widgets.len() == raw.widgets@.len(),
        forall|i: int|
            0 <= i < raw.widgets@.len() ==> #[trigger] raw@.widgets[i] == raw.widgets@[i]@,
        w@.kind == w.kind@,
        w@.page == w.page,
        w@.x == w.x,
        w@.y == w.y,
        w@.w == w.w,
        w@.h == w.h,
{
}

/// Every file can be used whose weather interval, in seconds, fits 64 bits, and so can every outcome of
/// reading that is no file.
pub proof fn ordinary_files_can_be_used<F>(read: ConfigRead<F>)
    requires
        read matches ConfigRead::Parsed(raw) ==> raw.sampling.weather_min <= 0x0444_4444_4444_4444,
    ensures
        usable(read),
        read matches ConfigRead::Parsed(raw) ==> weather_interval_fits(raw@),
{
}

} // verus!
