//! The settings file that is written where there is none: every entry with its default and a
//! comment.

use crate::config::{
    default_sampling, default_weather, RawGrid, RawSampling, RawWeather, WeatherTable,
};
use crate::model::{
    default_grid, default_placements, placements, Placement, ShellConfig, WidgetPlacement,
};
use crate::text::{decimal, decimal_text};
use vstd::prelude::*;

verus! {

/// The head of the file, up to the system interval.
pub const HEAD: &'static str =
    "# auxdeck daemon 配置文件。daemon 启动时监听本文件变更并热重载，\n\
     # 大部分改动几秒内生效，无需重启进程。\n\
     # 语法错误时 daemon 会保留上一份可用配置并在日志中记录警告。\n\
     \n\
     [sampling]\n\
     # 系统指标（CPU/GPU 利用率与温度）采样间隔，毫秒\n\
     system_ms = ";

/// Up to the usage interval.
pub const APP_USAGE_MS: &'static str =
    "\n\
     # 前台窗口轮询间隔，毫秒（用于统计应用使用时长）\n\
     app_usage_ms = ";

/// Up to the weather interval.
pub const WEATHER_MIN: &'static str =
    "\n\
     # 天气刷新间隔，分钟\n\
     weather_min = ";

/// Up to the weather switch.
pub const ENABLED: &'static str =
    "\n\
     \n\
     [weather]\n\
     # 是否启用天气 widget；未同时配置 latitude/longitude 时即使为 true 也不会请求（不做 IP 定位）\n\
     enabled = ";

/// Up to the weather service.
pub const PROVIDER: &'static str =
    "\n\
     # \"open-meteo\"（免 key，默认）或 \"qweather\"（需 qweather_key）\n\
     provider = \"";

/// Up to the name of the place.
pub const CITY_LABEL: &'static str =
    "\"\n\
     # 纬度 / 经度，例如上海约为 31.23 / 121.47；取消注释并按实际位置填写\n\
     # latitude = 31.23\n\
     # longitude = 121.47\n\
     # 面板上显示的城市名\n\
     city_label = \"";

/// Up to the number of columns.
pub const COLUMNS: &'static str =
    "\"\n\
     # 和风天气 key，仅 provider = \"qweather\" 时需要，https://dev.qweather.com/ 免费申请\n\
     # qweather_key = \"\"\n\
     \n\
     [grid]\n\
     columns = ";

/// How a switch is written.
pub open spec fn switch_text(on: bool) -> Seq<char> {
    if on {
        "true"@
    } else {
        "false"@
    }
}

/// One widget of the file.
pub open spec fn widget_text(w: Placement) -> Seq<char> {
    "\n[[widgets]]\nkind = \""@ + w.kind + "\"\npage = "@ + decimal(w.page as nat) + "\nx = "@
        + decimal(w.x as nat) + "\ny = "@ + decimal(w.y as nat) + "\nw = "@ + decimal(w.w as nat)
        + "\nh = "@ + decimal(w.h as nat) + "\n"@
}

/// The widgets of the file, one after the other.
pub open spec fn widgets_text(ws: Seq<Placement>) -> Seq<char>
    decreases ws.len(),
{
    if ws.len() == 0 {
        Seq::empty()
    } else {
        widgets_text(ws.drop_last()) + widget_text(ws.last())
    }
}

/// The tables of the file that come before the widgets.
pub open spec fn tables_text<F>(s: RawSampling, w: WeatherTable<F>, g: RawGrid) -> Seq<char> {
    HEAD@ + decimal(s.system_ms as nat) + APP_USAGE_MS@ + decimal(s.app_usage_ms as nat)
        + WEATHER_MIN@ + decimal(s.weather_min as nat) + ENABLED@ + switch_text(w.enabled)
        + PROVIDER@ + w.provider + CITY_LABEL@ + w.city_label + COLUMNS@ + decimal(
        g.columns as nat,
    ) + "\nrow_height_px = "@ + decimal(g.row_height_px as nat) + "\ngap_px = "@ + decimal(
        g.gap_px as nat,
    ) + "\n"@
}

/// The whole file, which holds the very defaults that an empty file stands for.
pub open spec fn default_text() -> Seq<char> {
    tables_text(
        default_sampling(),
        default_weather::<u64>(),
        RawGrid {
            columns: default_grid().columns,
            row_height_px: default_grid().row_height_px,
            gap_px: default_grid().gap_px,
        },
    ) + widgets_text(default_placements())
}

fn append_number(out: &mut String, n: u64)
    ensures
        final(out)@ == old(out)@ + decimal(n as nat),
{
    let t: String = decimal_text(n);
    out.append(t.as_str());
}

fn append_widget(out: &mut String, w: &WidgetPlacement)
    ensures
        final(out)@ == old(out)@ + widget_text(w@),
{
    out.append("\n[[widgets]]\nkind = \"");
    out.append(w.kind.as_str());
    out.append("\"\npage = ");
    append_number(out, w.page as u64);
    out.append("\nx = ");
    append_number(out, w.x as u64);
    out.append("\ny = ");
    append_number(out, w.y as u64);
    out.append("\nw = ");
    append_number(out, w.w as u64);
    out.append("\nh = ");
    append_number(out, w.h as u64);
    out.append("\n");
    assert(out@ =~= old(out)@ + widget_text(w@));
}

fn tables<F>(s: &RawSampling, w: &RawWeather<F>, g: &RawGrid) -> (out: String)
    ensures
        out@ == tables_text(*s, w@, *g),
{
    let mut out: String = HEAD.to_string();
    append_number(&mut out, s.system_ms);
    out.append(APP_USAGE_MS);
    append_number(&mut out, s.app_usage_ms);
    out.append(WEATHER_MIN);
    append_number(&mut out, s.weather_min);
    out.append(ENABLED);
    out.append(if w.enabled { "true" } else { "false" });
    out.append(PROVIDER);
    out.append(w.provider.as_str());
    out.append(CITY_LABEL);
    out.append(w.city_label.as_str());
    out.append(COLUMNS);
    append_number(&mut out, g.columns as u64);
    out.append("\nrow_height_px = ");
    append_number(&mut out, g.row_height_px as u64);
    out.append("\ngap_px = ");
    append_number(&mut out, g.gap_px as u64);
    out.append("\n");
    out
}

/// The text of the settings file that is written where there is none.
pub fn default_toml_text() -> (out: String)
    ensures
        out@ == default_text(),
{
    let weather: RawWeather<u64> = RawWeather::default();
    let mut out: String = tables(&RawSampling::default(), &weather, &RawGrid::default());
    let ghost head = out@;
    let widgets: Vec<WidgetPlacement> = ShellConfig::default().widgets;
    let ghost all = placements(widgets@);
    for i in 0..widgets.len()
        invariant
            all == placements(widgets@),
            out@ == head + widgets_text(all.take(i as int)),
    {
        append_widget(&mut out, &widgets[i]);
        assert(all.take(i + 1).drop_last() =~= all.take(i as int));
        assert(out@ =~= head + widgets_text(all.take(i + 1)));
    }
    assert(all.take(all.len() as int) =~= all);
    out
}

} // verus!
