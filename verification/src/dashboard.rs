//! The dashboard: one graph panel for each target, with the 95th and
//! 99th percentile of its latency.

use vstd::prelude::*;
use vstd::string::StringExecFns;
use crate::config::{text_of, Config, ConfigView, Target, TargetView};
use crate::names::{normalize_chars, timer_name_of};
use crate::text::{chars_of, decimal, push_decimal, push_text, string_of};

verus! {

/// Where a panel sits on the grid, and how large it is.
#[derive(Clone, Copy, Debug, PartialEq, Eq, Structural)]
pub struct GridPos {
    pub h: i32,
    pub w: i32,
    pub x: i32,
    pub y: i32,
}

/// What a panel's legend shows.
#[derive(Clone, Copy, Debug, PartialEq, Eq, Structural)]
pub struct Legend {
    pub avg: bool,
    pub current: bool,
    pub max: bool,
    pub min: bool,
    pub show: bool,
    pub total: bool,
    pub values: bool,
}

/// One query of a panel.
#[derive(Clone, Debug, PartialEq, Eq)]
pub struct PanelTarget {
    pub expr: String,
    pub interval: String,
    pub legend_format: String,
    pub ref_id: String,
}

pub struct PanelTargetView {
    pub expr: Seq<char>,
    pub interval: Seq<char>,
    pub legend_format: Seq<char>,
    pub ref_id: Seq<char>,
}

impl View for PanelTarget {
    type V = PanelTargetView;

    open spec fn view(&self) -> PanelTargetView {
        PanelTargetView {
            expr: self.expr@,
            interval: self.interval@,
            legend_format: self.legend_format@,
            ref_id: self.ref_id@,
        }
    }
}

/// How a panel's tooltip behaves.
#[derive(Clone, Debug, PartialEq, Eq)]
pub struct ToolTip {
    pub shared: bool,
    pub sort: u32,
    pub value_type: String,
}

pub struct ToolTipView {
    pub shared: bool,
    pub sort: u32,
    pub value_type: Seq<char>,
}

impl View for ToolTip {
    type V = ToolTipView;

    open spec fn view(&self) -> ToolTipView {
        ToolTipView {
            shared: self.shared,
            sort: self.sort,
            value_type: self.value_type@,
        }
    }
}

/// One axis of a panel. `lists_values` says whether the axis carries a list of values, which is then empty.
#[derive(Clone, Debug, PartialEq, Eq)]
pub struct Axis {
    pub align: Option<bool>,
    pub mode: Option<String>,
    pub show: Option<bool>,
    pub lists_values: bool,
}

pub struct AxisView {
    pub align: Option<bool>,
    pub mode: Option<Seq<char>>,
    pub show: Option<bool>,
    pub lists_values: bool,
}

impl View for Axis {
    type V = AxisView;

    open spec fn view(&self) -> AxisView {
        AxisView {
            align: self.align,
            mode: text_of(self.mode),
            show: self.show,
            lists_values: self.lists_values,
        }
    }
}

/// One of the two scales of a panel's vertical axis.
#[derive(Clone, Debug, PartialEq, Eq)]
pub struct Axe {
    pub hash_key: String,
    pub format: String,
    pub log_base: u32,
    pub show: bool,
}

pub struct AxeView {
    pub hash_key: Seq<char>,
    pub format: Seq<char>,
    pub log_base: u32,
    pub show: bool,
}

impl View for Axe {
    type V = AxeView;

    open spec fn view(&self) -> AxeView {
        AxeView {
            hash_key: self.hash_key@,
            format: self.format@,
            log_base: self.log_base,
            show: self.show,
        }
    }
}

/// One graph panel.
#[derive(Clone, Debug, PartialEq, Eq)]
pub struct Panel {
    pub bars: bool,
    pub dash_length: u32,
    pub dashes: bool,
    pub datasource: String,
    pub fill: u32,
    pub fill_gradient: u32,
    pub grid_pos: GridPos,
    pub hidden_series: bool,
    pub id: u32,
    pub legend: Legend,
    pub lines: bool,
    pub line_width: u32,
    pub null_point_mode: String,
    pub percentage: bool,
    pub pointradius: u32,
    pub points: bool,
    pub renderer: String,
    pub space_length: u32,
    pub stack: bool,
    pub stepped_line: bool,
    pub targets: Vec<PanelTarget>,
    pub title: String,
    pub tooltip: ToolTip,
    pub kind: String,
    pub xaxis: Axis,
    pub yaxis: Axis,
    pub yaxes: Vec<Axe>,
}

pub struct PanelView {
    pub bars: bool,
    pub dash_length: u32,
    pub dashes: bool,
    pub datasource: Seq<char>,
    pub fill: u32,
    pub fill_gradient: u32,
    pub grid_pos: GridPos,
    pub hidden_series: bool,
    pub id: u32,
    pub legend: Legend,
    pub lines: bool,
    pub line_width: u32,
    pub null_point_mode: Seq<char>,
    pub percentage: bool,
    pub pointradius: u32,
    pub points: bool,
    pub renderer: Seq<char>,
    pub space_length: u32,
    pub stack: bool,
    pub stepped_line: bool,
    pub targets: Seq<PanelTargetView>,
    pub title: Seq<char>,
    pub tooltip: ToolTipView,
    pub kind: Seq<char>,
    pub xaxis: AxisView,
    pub yaxis: AxisView,
    pub yaxes: Seq<AxeView>,
}

impl View for Panel {
    type V = PanelView;

    open spec fn view(&self) -> PanelView {
        PanelView {
            bars: self.bars,
            dash_length: self.dash_length,
            dashes: self.dashes,
            datasource: self.datasource@,
            fill: self.fill,
            fill_gradient: self.fill_gradient,
            grid_pos: self.grid_pos,
            hidden_series: self.hidden_series,
            id: self.id,
            legend: self.legend,
            lines: self.lines,
            line_width: self.line_width,
            null_point_mode: self.null_point_mode@,
            percentage: self.percentage,
            pointradius: self.pointradius,
            points: self.points,
            renderer: self.renderer@,
            space_length: self.space_length,
            stack: self.stack,
            stepped_line: self.stepped_line,
            targets: Seq::new(self.targets@.len(), |i: int| self.targets@[i]@),
            title: self.title@,
            tooltip: self.tooltip@,
            kind: self.kind@,
            xaxis: self.xaxis@,
            yaxis: self.yaxis@,
            yaxes: Seq::new(self.yaxes@.len(), |i: int| self.yaxes@[i]@),
        }
    }
}

/// The whole dashboard.
#[derive(Clone, Debug, PartialEq, Eq)]
pub struct Dashboard {
    pub editable: bool,
    pub graph_tooltip: u32,
    pub panels: Vec<Panel>,
    pub refresh: String,
    pub schema_version: u32,
    pub style: String,
    pub time_from: String,
    pub time_to: String,
    pub refresh_intervals: Vec<String>,
    pub title: String,
    pub timezone: String,
    pub uid: String,
    pub version: u32,
}

pub struct DashboardView {
    pub editable: bool,
    pub graph_tooltip: u32,
    pub panels: Seq<PanelView>,
    pub refresh: Seq<char>,
    pub schema_version: u32,
    pub style: Seq<char>,
    pub time_from: Seq<char>,
    pub time_to: Seq<char>,
    pub refresh_intervals: Seq<Seq<char>>,
    pub title: Seq<char>,
    pub timezone: Seq<char>,
    pub uid: Seq<char>,
    pub version: u32,
}

impl View for Dashboard {
    type V = DashboardView;

    open spec fn view(&self) -> DashboardView {
        DashboardView {
            editable: self.editable,
            graph_tooltip: self.graph_tooltip,
            panels: Seq::new(self.panels@.len(), |i: int| self.panels@[i]@),
            refresh: self.refresh@,
            schema_version: self.schema_version,
            style: self.style@,
            time_from: self.time_from@,
            time_to: self.time_to@,
            refresh_intervals: Seq::new(self.refresh_intervals@.len(), |i: int| self.refresh_intervals@[i]@),
            title: self.title@,
            timezone: self.timezone@,
            uid: self.uid@,
            version: self.version,
        }
    }
}

/// The query for one percentile of a target's latency: the histogram
/// quantile over the rate of the target's buckets in the last five
/// minutes.
pub open spec fn quantile_expr(percent: nat, name: Seq<char>) -> Seq<char> {
    "histogram_quantile(0."@ + decimal(percent) + ", sum(rate("@ + timer_name_of(name)
        + "_bucket[5m])) by (le))"@
}

/// The panel query for one percentile, labelled `p<percent>`.
pub open spec fn quantile_target(percent: nat, name: Seq<char>) -> PanelTargetView {
    PanelTargetView {
        expr: quantile_expr(percent, name),
        interval: ""@,
        legend_format: "p"@ + decimal(percent),
        ref_id: decimal(percent),
    }
}

/// One scale of the vertical axis.
pub open spec fn scale(hash_key: Seq<char>, format: Seq<char>) -> AxeView {
    AxeView { hash_key, format, log_base: 1, show: true }
}

/// The panel of the target called `name`. Only the id, the title and
/// the queries depend on the target.
pub open spec fn panel_model(id: u32, name: Seq<char>) -> PanelView {
    PanelView {
        bars: false,
        dash_length: 10,
        dashes: false,
        datasource: "sonar"@,
        fill: 1,
        fill_gradient: 0,
        grid_pos: GridPos { h: 6, w: 8, x: 0, y: 0 },
        hidden_series: false,
        id,
        legend: Legend {
            avg: false,
            current: true,
            max: false,
            min: false,
            show: true,
            total: false,
            values: true,
        },
        lines: true,
        line_width: 1,
        null_point_mode: "null"@,
        percentage: false,
        pointradius: 2,
        points: false,
        renderer: "flot"@,
        space_length: 10,
        stack: false,
        stepped_line: false,
        targets: seq![quantile_target(95, name), quantile_target(99, name)],
        title: name,
        tooltip: ToolTipView { shared: true, sort: 0, value_type: "individual"@ },
        kind: "graph"@,
        xaxis: AxisView { align: None, mode: Some("time"@), show: Some(true), lists_values: true },
        yaxis: AxisView { align: Some(false), mode: None, show: None, lists_values: false },
        yaxes: seq![scale("object:231"@, "none"@), scale("object:232"@, "short"@)],
    }
}

/// The refresh intervals that the dashboard offers.
pub open spec fn refresh_choices() -> Seq<Seq<char>> {
    seq![
        "5s"@,
        "10s"@,
        "30s"@,
        "1m"@,
        "5m"@,
        "15m"@,
        "30m"@,
        "1h"@,
        "2h"@,
        "1d"@,
    ]
}

/// The name of the target at `i`, or the empty name where it has none.
pub open spec fn name_at(targets: Seq<TargetView>, i: int) -> Seq<char> {
    match targets[i].name {
        Some(n) => n,
        None => Seq::empty(),
    }
}

/// The dashboard of a configuration: the targets' panels in order,
/// numbered from one.
pub open spec fn dashboard_model(c: ConfigView) -> DashboardView {
    DashboardView {
        editable: true,
        graph_tooltip: 0,
        panels: Seq::new(
            c.targets.len(),
            |i: int| panel_model((i + 1) as u32, name_at(c.targets, i)),
        ),
        refresh: "5s"@,
        schema_version: 22,
        style: "dark"@,
        time_from: "now-1h"@,
        time_to: "now"@,
        refresh_intervals: refresh_choices(),
        title: "Sonar"@,
        timezone: ""@,
        uid: "sonar"@,
        version: 1,
    }
}

/// The query of a panel for one percentile of the latency of `name`.
fn quantile_query(percent: u32, name: &str) -> (r: PanelTarget)
    ensures
        r@ == quantile_target(percent as nat, name@),
{
    let mut digits: Vec<char> = Vec::new();
    push_decimal(&mut digits, percent as u128);
    assert(digits@ =~= decimal(percent as nat));
    let mut expr: Vec<char> = Vec::new();
    push_text(&mut expr, "histogram_quantile(0.");
    push_decimal(&mut expr, percent as u128);
    push_text(&mut expr, ", sum(rate(");
    let name_chars = chars_of(name);
    let safe = normalize_chars(&name_chars);
    let safe_text = string_of(&safe);
    push_text(&mut expr, safe_text.as_str());
    push_text(&mut expr, "_time_ms");
    push_text(&mut expr, "_bucket[5m])) by (le))");
    let mut legend: Vec<char> = Vec::new();
    push_text(&mut legend, "p");
    push_decimal(&mut legend, percent as u128);
    proof {
        assert(expr@ =~= quantile_expr(percent as nat, name@));
        assert(legend@ =~= "p"@ + decimal(percent as nat));
    }
    PanelTarget {
        expr: string_of(&expr),
        interval: String::from_str(""),
        legend_format: string_of(&legend),
        ref_id: string_of(&digits),
    }
}

/// One scale of the vertical axis.
fn axis_scale(hash_key: &str, format: &str) -> (r: Axe)
    ensures
        r@ == scale(hash_key@, format@),
{
    Axe {
        hash_key: String::from_str(hash_key),
        format: String::from_str(format),
        log_base: 1,
        show: true,
    }
}

/// The graph panel of `target` with the given id: the 95th and the 99th
/// percentile of the target's latency, under the target's name.
pub fn panel_from_target(id: u32, target: &Target) -> (r: Panel)
    requires
        target.name is Some,
    ensures
        r@ == panel_model(id, target@.name->0),
{
    let name = target.clone_unwrap_name();
    let mut panel_targets: Vec<PanelTarget> = Vec::new();
    panel_targets.push(quantile_query(95, name.as_str()));
    panel_targets.push(quantile_query(99, name.as_str()));
    let mut yaxes: Vec<Axe> = Vec::new();
    yaxes.push(axis_scale("object:231", "none"));
    yaxes.push(axis_scale("object:232", "short"));
    let panel = Panel {
        bars: false,
        dash_length: 10,
        dashes: false,
        datasource: String::from_str("sonar"),
        fill: 1,
        fill_gradient: 0,
        grid_pos: GridPos { h: 6, w: 8, x: 0, y: 0 },
        hidden_series: false,
        id,
        legend: Legend {
            avg: false,
            current: true,
            max: false,
            min: false,
            show: true,
            total: false,
            values: true,
        },
        lines: true,
        line_width: 1,
        null_point_mode: String::from_str("null"),
        percentage: false,
        pointradius: 2,
        points: false,
        renderer: String::from_str("flot"),
        space_length: 10,
        stack: false,
        stepped_line: false,
        targets: panel_targets,
        title: name,
        tooltip: ToolTip { shared: true, sort: 0, value_type: String::from_str("individual") },
        kind: String::from_str("graph"),
        xaxis: Axis {
            align: None,
            mode: Some(String::from_str("time")),
            show: Some(true),
            lists_values: true,
        },
        yaxis: Axis { align: Some(false), mode: None, show: None, lists_values: false },
        yaxes,
    };
    proof {
        let want = panel_model(id, target@.name->0);
        assert(panel@.targets =~= want.targets);
        assert(panel@.yaxes =~= want.yaxes);
    }
    panel
}

/// The refresh intervals that the dashboard offers.
fn refresh_intervals() -> (r: Vec<String>)
    ensures
        Seq::new(r@.len(), |i: int| r@[i]@) == refresh_choices(),
{
    let mut r: Vec<String> = Vec::new();
    r.push(String::from_str("5s"));
    r.push(String::from_str("10s"));
    r.push(String::from_str("30s"));
    r.push(String::from_str("1m"));
    r.push(String::from_str("5m"));
    r.push(String::from_str("15m"));
    r.push(String::from_str("30m"));
    r.push(String::from_str("1h"));
    r.push(String::from_str("2h"));
    r.push(String::from_str("1d"));
    assert(Seq::new(r@.len(), |i: int| r@[i]@) =~= refresh_choices());
    r
}

/// The dashboard of `config`: one panel for each target, in the order
/// of the targets, numbered from one.
pub fn to_prometheus_grafana(config: &Config) -> (r: Dashboard)
    requires
        config.targets@.len() < u32::MAX,
        forall|i: int| 0 <= i < config@.targets.len() ==> (#[trigger] config@.targets[i]).name is Some,
    ensures
        r@ == dashboard_model(config@),
{
    let mut panels: Vec<Panel> = Vec::new();
    let mut panel_id: u32 = 1;
    let n: usize = config.targets.len();
    let mut i: usize = 0;
    while i < n
        invariant
            n == config.targets@.len(),
            n < u32::MAX,
            i <= n,
            panel_id == i + 1,
            panels@.len() == i,
            forall|k: int| 0 <= k < n ==> (#[trigger] config@.targets[k]).name is Some,
            forall|k: int|
                0 <= k < i ==> (#[trigger] panels@[k])@ == panel_model(
                    (k + 1) as u32,
                    name_at(config@.targets, k),
                ),
        decreases n - i,
    {
        assert(config@.targets[i as int] == config.targets@[i as int]@);
        panels.push(panel_from_target(panel_id, &config.targets[i]));
        panel_id = panel_id + 1;
        i = i + 1;
    }
    let dashboard = Dashboard {
        editable: true,
        graph_tooltip: 0,
        panels,
        refresh: String::from_str("5s"),
        schema_version: 22,
        style: String::from_str("dark"),
        time_from: String::from_str("now-1h"),
        time_to: String::from_str("now"),
        refresh_intervals: refresh_intervals(),
        title: String::from_str("Sonar"),
        timezone: String::from_str(""),
        uid: String::from_str("sonar"),
        version: 1,
    };
    proof {
        assert(dashboard@.panels =~= dashboard_model(config@).panels);
    }
    dashboard
}

} // verus!
