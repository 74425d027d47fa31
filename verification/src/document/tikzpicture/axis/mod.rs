//! The axis environment: options, contained plots, and the rendering of
//! the `\begin{axis} ... \end{axis}` block.

pub mod plot;

use crate::attr::{attr_insert, insert_attr, AttrKind};
use crate::decimal::{decimals_joined, render_decimals_joined, Decimal};
use crate::document::preamble::{
    push_lib_unique, spec_add_lib, spec_add_libs, libs_view, LibContent, PgfPlotsLib,
};
use crate::text::{join_seq, option_lines, render_strings_joined, strings_view};
use plot::{plot_required_lib, plot_text, Plot, PlotModel};
use vstd::prelude::*;
use vstd::string::StringExecFns;

verus! {

/// Control the scaling of an axis.
#[derive(Clone, Copy, Debug)]
pub enum Scale {
    /// Logarithmic scaling i.e. apply the natural logarithm to each
    /// coordinate.
    Log,
    /// Linear scaling of the coordinates.
    Normal,
}

/// The option text of a scale.
pub open spec fn scale_text(s: Scale) -> Seq<char> {
    match s {
        Scale::Log => "log"@,
        Scale::Normal => "normal"@,
    }
}

impl Scale {
    /// Renders the scale value.
    pub fn render(&self) -> (r: String)
        ensures
            r@ == scale_text(*self),
    {
        match self {
            Scale::Log => "log".to_owned(),
            Scale::Normal => "normal".to_owned(),
        }
    }
}

/// Control the appearance of the `x` axis line.
#[derive(Clone, Copy, Debug)]
pub enum AxisXLine {
    Box,
    Top,
    Middle,
    Center,
    Bottom,
    Off,
}

/// The option text of an `x` axis line style.
pub open spec fn axis_x_line_text(v: AxisXLine) -> Seq<char> {
    match v {
        AxisXLine::Box => "box"@,
        AxisXLine::Top => "top"@,
        AxisXLine::Middle => "middle"@,
        AxisXLine::Center => "center"@,
        AxisXLine::Bottom => "bottom"@,
        AxisXLine::Off => "none"@,
    }
}

impl Default for AxisXLine {
    /// The boxed style.
    fn default() -> (r: Self)
        ensures
            r is Box,
    {
        AxisXLine::Box
    }
}

impl AxisXLine {
    /// Renders the line style value.
    pub fn render(&self) -> (r: String)
        ensures
            r@ == axis_x_line_text(*self),
    {
        match self {
            AxisXLine::Box => "box".to_owned(),
            AxisXLine::Top => "top".to_owned(),
            AxisXLine::Middle => "middle".to_owned(),
            AxisXLine::Center => "center".to_owned(),
            AxisXLine::Bottom => "bottom".to_owned(),
            AxisXLine::Off => "none".to_owned(),
        }
    }
}

/// Control the appearance of every axis line.
#[derive(Clone, Copy, Debug)]
pub enum AxisLines {
    Box,
    Left,
    Middle,
    Center,
    Right,
    Off,
}

/// Control the appearance of the `z` axis line.
pub type AxisZLine = AxisLines;

/// Control the appearance of the `y` axis line.
pub type AxisYLine = AxisLines;

/// The option text of an axis line style.
pub open spec fn axis_lines_text(v: AxisLines) -> Seq<char> {
    match v {
        AxisLines::Box => "box"@,
        AxisLines::Left => "left"@,
        AxisLines::Middle => "middle"@,
        AxisLines::Center => "center"@,
        AxisLines::Right => "right"@,
        AxisLines::Off => "none"@,
    }
}

impl Default for AxisLines {
    /// The boxed style.
    fn default() -> (r: Self)
        ensures
            r is Box,
    {
        AxisLines::Box
    }
}

impl AxisLines {
    /// Renders the line style value.
    pub fn render(&self) -> (r: String)
        ensures
            r@ == axis_lines_text(*self),
    {
        match self {
            AxisLines::Box => "box".to_owned(),
            AxisLines::Left => "left".to_owned(),
            AxisLines::Middle => "middle".to_owned(),
            AxisLines::Center => "center".to_owned(),
            AxisLines::Right => "right".to_owned(),
            AxisLines::Off => "none".to_owned(),
        }
    }
}

/// Control the axis grid lines. Major grid lines are placed at the normal
/// tick positions, minor grid lines at minor ticks.
#[derive(Clone, Debug)]
pub enum Grid {
    /// Placed at the *normal tick positions*.
    Major,
    /// Placed at the *minor tick positions*.
    Minor,
    /// Placed at both the *normal* and *minor tick positions*.
    Both,
    /// Disabled grid lines.
    Off,
}

/// The option text of a grid setting.
pub open spec fn grid_text(g: Grid) -> Seq<char> {
    match g {
        Grid::Major => "major"@,
        Grid::Minor => "minor"@,
        Grid::Both => "both"@,
        Grid::Off => "none"@,
    }
}

impl Grid {
    /// Renders the grid value.
    pub fn render(&self) -> (r: String)
        ensures
            r@ == grid_text(*self),
    {
        match self {
            Grid::Major => "major".to_owned(),
            Grid::Minor => "minor".to_owned(),
            Grid::Both => "both".to_owned(),
            Grid::Off => "none".to_owned(),
        }
    }
}

/// Control the axis ticks by assigning the list of positions where ticks
/// shall be placed.
#[derive(Clone, Debug)]
pub struct Ticks(pub Vec<Decimal>);

impl View for Ticks {
    type V = Seq<Decimal>;

    open spec fn view(&self) -> Seq<Decimal> {
        self.0@
    }
}

impl Ticks {
    /// All tick positions are renderable.
    pub open spec fn renderable(self) -> bool {
        forall|i: int| 0 <= i < self.0@.len() ==> (#[trigger] self.0@[i]).wf()
    }

    /// Returns whether the ticks are renderable; the runtime counterpart
    /// of [`Ticks::renderable`].
    pub fn is_renderable(&self) -> (b: bool)
        ensures
            b == self.renderable(),
    {
        let mut i: usize = 0;
        while i < self.0.len()
            invariant
                i <= self.0@.len(),
                forall|j: int| 0 <= j < i ==> (#[trigger] self.0@[j]).wf(),
            decreases self.0@.len() - i,
        {
            if !self.0[i].is_wf() {
                return false;
            }
            i = i + 1;
        }
        true
    }

    /// The given tick positions.
    pub fn new(ticks: Vec<Decimal>) -> (r: Ticks)
        ensures
            r@ == ticks@,
    {
        Ticks(ticks)
    }

    /// Renders the tick positions joined with `", "`.
    pub fn render(&self) -> (r: String)
        requires
            self.renderable(),
        ensures
            r@ == decimals_joined(self@),
    {
        render_decimals_joined(&self.0)
    }
}

/// Control the axis tick labels: one label per tick position.
#[derive(Clone, Debug)]
pub struct TickLabels(pub Vec<String>);

impl View for TickLabels {
    type V = Seq<Seq<char>>;

    open spec fn view(&self) -> Seq<Seq<char>> {
        strings_view(self.0@)
    }
}

impl TickLabels {
    /// The given tick labels.
    pub fn new(labels: Vec<String>) -> (r: TickLabels)
        ensures
            r@ == strings_view(labels@),
    {
        TickLabels(labels)
    }

    /// Renders the tick labels joined with `", "`.
    pub fn render(&self) -> (r: String)
        ensures
            r@ == join_seq(self@, seq![',', ' ']),
    {
        render_strings_joined(&self.0)
    }
}

/// PGFPlots options passed to the axis environment. Options of the same
/// kind are mutually exclusive; [`AxisOption::Custom`] is free-form and
/// accumulates.
#[derive(Clone, Debug)]
#[non_exhaustive]
pub enum AxisOption {
    /// Custom key-value pairs that have not been implemented. These will
    /// be appended verbatim to the options of the axis.
    Custom(String),
    /// Control the `x` axis minimum limit.
    XMin(Decimal),
    /// Control the `x` axis maximum limit.
    XMax(Decimal),
    /// Control the `y` axis minimum limit.
    YMin(Decimal),
    /// Control the `y` axis maximum limit.
    YMax(Decimal),
    /// Control the `z` axis minimum limit.
    ZMin(Decimal),
    /// Control the `z` axis maximum limit.
    ZMax(Decimal),
    /// Control the `x`,`y`,`z` axis minimum limit.
    Min(Decimal),
    /// Control the `x`,`y`,`z` axis maximum limit.
    Max(Decimal),
    /// Control the scaling of the `x` axis.
    XMode(Scale),
    /// Control the scaling of the `y` axis.
    YMode(Scale),
    /// Control the title of the axis environment.
    Title(String),
    /// Control the label of the `x` axis.
    XLabel(String),
    /// Control the label of the `y` axis.
    YLabel(String),
    /// Control the `x` ticks manually (`xtick` option).
    XTick(Ticks),
    /// Control the `y` ticks manually (`ytick` option).
    YTick(Ticks),
    /// Control the label of the `x` axis ticks.
    XTickLabel(String),
    /// Control the label of the `y` axis ticks.
    YTickLabel(String),
    /// Control the tick labels of the `x` axis.
    XTickLabels(TickLabels),
    /// Control the tick labels of the `y` axis.
    YTickLabels(TickLabels),
    /// Control the tick labels of the `z` axis.
    ZTickLabels(TickLabels),
    /// Control the axis `x` line type.
    AxisXLine(AxisXLine),
    /// Control the axis `x` line type, without correcting the positions of
    /// axis labels, tick lines or other keys possibly affected by a
    /// changed axis line.
    AxisXLineAst(AxisXLine),
    /// Control the axis `y` line type.
    AxisYLine(AxisYLine),
    /// Control the axis `y` line type, without correcting affected keys.
    AxisYLineAst(AxisYLine),
    /// Control the axis `z` line type.
    AxisZLine(AxisZLine),
    /// Control the axis `z` line type, without correcting affected keys.
    AxisZLineAst(AxisZLine),
    /// Control the axes line type.
    AxisLines(AxisLines),
    /// Control the axes line type, without correcting affected keys.
    AxisLinesAst(AxisLines),
    /// Control the axis grid lines.
    Grid(Grid),
}

impl View for AxisOption {
    type V = Seq<char>;

    /// The option's textual form: its whole content for this library.
    open spec fn view(&self) -> Seq<char> {
        match self {
            AxisOption::Custom(s) => s@,
            AxisOption::XMin(d) => "xmin={"@ + d.text() + "}"@,
            AxisOption::XMax(d) => "xmax={"@ + d.text() + "}"@,
            AxisOption::YMin(d) => "ymin={"@ + d.text() + "}"@,
            AxisOption::YMax(d) => "ymax={"@ + d.text() + "}"@,
            AxisOption::ZMin(d) => "zmin={"@ + d.text() + "}"@,
            AxisOption::ZMax(d) => "zmax={"@ + d.text() + "}"@,
            AxisOption::Min(d) => "min={"@ + d.text() + "}"@,
            AxisOption::Max(d) => "max={"@ + d.text() + "}"@,
            AxisOption::XMode(v) => "xmode="@ + scale_text(*v),
            AxisOption::YMode(v) => "ymode="@ + scale_text(*v),
            AxisOption::Title(s) => "title={"@ + s@ + "}"@,
            AxisOption::XLabel(s) => "xlabel={"@ + s@ + "}"@,
            AxisOption::YLabel(s) => "ylabel={"@ + s@ + "}"@,
            AxisOption::XTick(t) => "xtick={"@ + decimals_joined(t@) + "}"@,
            AxisOption::YTick(t) => "ytick={"@ + decimals_joined(t@) + "}"@,
            AxisOption::XTickLabel(s) => "xticklabel={"@ + s@ + "}"@,
            AxisOption::YTickLabel(s) => "yticklabel={"@ + s@ + "}"@,
            AxisOption::XTickLabels(l) => "xticklabels={"@ + join_seq(l@, seq![',', ' ']) + "}"@,
            AxisOption::YTickLabels(l) => "yticklabels={"@ + join_seq(l@, seq![',', ' ']) + "}"@,
            AxisOption::ZTickLabels(l) => "zticklabels={"@ + join_seq(l@, seq![',', ' ']) + "}"@,
            AxisOption::AxisXLine(v) => "axis x line="@ + axis_x_line_text(*v),
            AxisOption::AxisXLineAst(v) => "axis x line*="@ + axis_x_line_text(*v),
            AxisOption::AxisYLine(v) => "axis y line="@ + axis_lines_text(*v),
            AxisOption::AxisYLineAst(v) => "axis y line*="@ + axis_lines_text(*v),
            AxisOption::AxisZLine(v) => "axis z line="@ + axis_lines_text(*v),
            AxisOption::AxisZLineAst(v) => "axis z line*="@ + axis_lines_text(*v),
            AxisOption::AxisLines(v) => "axis lines="@ + axis_lines_text(*v),
            AxisOption::AxisLinesAst(v) => "axis lines*="@ + axis_lines_text(*v),
            AxisOption::Grid(g) => "grid="@ + grid_text(*g),
        }
    }
}

impl AttrKind for AxisOption {
    open spec fn kind_spec(&self) -> u64 {
        match self {
            AxisOption::Custom(_) => 0,
            AxisOption::XMin(_) => 1,
            AxisOption::XMax(_) => 2,
            AxisOption::YMin(_) => 3,
            AxisOption::YMax(_) => 4,
            AxisOption::ZMin(_) => 5,
            AxisOption::ZMax(_) => 6,
            AxisOption::Min(_) => 7,
            AxisOption::Max(_) => 8,
            AxisOption::XMode(_) => 9,
            AxisOption::YMode(_) => 10,
            AxisOption::Title(_) => 11,
            AxisOption::XLabel(_) => 12,
            AxisOption::YLabel(_) => 13,
            AxisOption::XTick(_) => 14,
            AxisOption::YTick(_) => 15,
            AxisOption::XTickLabel(_) => 16,
            AxisOption::YTickLabel(_) => 17,
            AxisOption::XTickLabels(_) => 18,
            AxisOption::YTickLabels(_) => 19,
            AxisOption::ZTickLabels(_) => 20,
            AxisOption::AxisXLine(_) => 21,
            AxisOption::AxisXLineAst(_) => 22,
            AxisOption::AxisYLine(_) => 23,
            AxisOption::AxisYLineAst(_) => 24,
            AxisOption::AxisZLine(_) => 25,
            AxisOption::AxisZLineAst(_) => 26,
            AxisOption::AxisLines(_) => 27,
            AxisOption::AxisLinesAst(_) => 28,
            AxisOption::Grid(_) => 29,
        }
    }

    fn kind(&self) -> (k: u64)
        ensures
            k == self.kind_spec(),
    {
        match self {
            AxisOption::Custom(_) => 0,
            AxisOption::XMin(_) => 1,
            AxisOption::XMax(_) => 2,
            AxisOption::YMin(_) => 3,
            AxisOption::YMax(_) => 4,
            AxisOption::ZMin(_) => 5,
            AxisOption::ZMax(_) => 6,
            AxisOption::Min(_) => 7,
            AxisOption::Max(_) => 8,
            AxisOption::XMode(_) => 9,
            AxisOption::YMode(_) => 10,
            AxisOption::Title(_) => 11,
            AxisOption::XLabel(_) => 12,
            AxisOption::YLabel(_) => 13,
            AxisOption::XTick(_) => 14,
            AxisOption::YTick(_) => 15,
            AxisOption::XTickLabel(_) => 16,
            AxisOption::YTickLabel(_) => 17,
            AxisOption::XTickLabels(_) => 18,
            AxisOption::YTickLabels(_) => 19,
            AxisOption::ZTickLabels(_) => 20,
            AxisOption::AxisXLine(_) => 21,
            AxisOption::AxisXLineAst(_) => 22,
            AxisOption::AxisYLine(_) => 23,
            AxisOption::AxisYLineAst(_) => 24,
            AxisOption::AxisZLine(_) => 25,
            AxisOption::AxisZLineAst(_) => 26,
            AxisOption::AxisLines(_) => 27,
            AxisOption::AxisLinesAst(_) => 28,
            AxisOption::Grid(_) => 29,
        }
    }
}

impl AxisOption {
    /// All contained decimals are renderable.
    pub open spec fn renderable(self) -> bool {
        match self {
            AxisOption::XMin(d) => d.wf(),
            AxisOption::XMax(d) => d.wf(),
            AxisOption::YMin(d) => d.wf(),
            AxisOption::YMax(d) => d.wf(),
            AxisOption::ZMin(d) => d.wf(),
            AxisOption::ZMax(d) => d.wf(),
            AxisOption::Min(d) => d.wf(),
            AxisOption::Max(d) => d.wf(),
            AxisOption::XTick(t) => t.renderable(),
            AxisOption::YTick(t) => t.renderable(),
            _ => true,
        }
    }

    /// Returns whether the option is renderable; the runtime counterpart
    /// of [`AxisOption::renderable`].
    pub fn is_renderable(&self) -> (b: bool)
        ensures
            b == self.renderable(),
    {
        match self {
            AxisOption::XMin(d) => d.is_wf(),
            AxisOption::XMax(d) => d.is_wf(),
            AxisOption::YMin(d) => d.is_wf(),
            AxisOption::YMax(d) => d.is_wf(),
            AxisOption::ZMin(d) => d.is_wf(),
            AxisOption::ZMax(d) => d.is_wf(),
            AxisOption::Min(d) => d.is_wf(),
            AxisOption::Max(d) => d.is_wf(),
            AxisOption::XTick(t) => t.is_renderable(),
            AxisOption::YTick(t) => t.is_renderable(),
            _ => true,
        }
    }

    /// Renders the option.
    pub fn render(&self) -> (r: String)
        requires
            self.renderable(),
        ensures
            r@ == self@,
    {
        match self {
            AxisOption::Custom(s) => s.clone(),
            AxisOption::XMin(d) => braced("xmin={", d.render()),
            AxisOption::XMax(d) => braced("xmax={", d.render()),
            AxisOption::YMin(d) => braced("ymin={", d.render()),
            AxisOption::YMax(d) => braced("ymax={", d.render()),
            AxisOption::ZMin(d) => braced("zmin={", d.render()),
            AxisOption::ZMax(d) => braced("zmax={", d.render()),
            AxisOption::Min(d) => braced("min={", d.render()),
            AxisOption::Max(d) => braced("max={", d.render()),
            AxisOption::XMode(v) => keyed("xmode=", v.render()),
            AxisOption::YMode(v) => keyed("ymode=", v.render()),
            AxisOption::Title(s) => braced("title={", s.clone()),
            AxisOption::XLabel(s) => braced("xlabel={", s.clone()),
            AxisOption::YLabel(s) => braced("ylabel={", s.clone()),
            AxisOption::XTick(t) => braced("xtick={", t.render()),
            AxisOption::YTick(t) => braced("ytick={", t.render()),
            AxisOption::XTickLabel(s) => braced("xticklabel={", s.clone()),
            AxisOption::YTickLabel(s) => braced("yticklabel={", s.clone()),
            AxisOption::XTickLabels(l) => braced("xticklabels={", l.render()),
            AxisOption::YTickLabels(l) => braced("yticklabels={", l.render()),
            AxisOption::ZTickLabels(l) => braced("zticklabels={", l.render()),
            AxisOption::AxisXLine(v) => keyed("axis x line=", v.render()),
            AxisOption::AxisXLineAst(v) => keyed("axis x line*=", v.render()),
            AxisOption::AxisYLine(v) => keyed("axis y line=", v.render()),
            AxisOption::AxisYLineAst(v) => keyed("axis y line*=", v.render()),
            AxisOption::AxisZLine(v) => keyed("axis z line=", v.render()),
            AxisOption::AxisZLineAst(v) => keyed("axis z line*=", v.render()),
            AxisOption::AxisLines(v) => keyed("axis lines=", v.render()),
            AxisOption::AxisLinesAst(v) => keyed("axis lines*=", v.render()),
            AxisOption::Grid(g) => keyed("grid=", g.render()),
        }
    }
}

/// The key, the value, and the closing brace.
fn braced(key: &str, value: String) -> (r: String)
    ensures
        r@ == key@ + value@ + "}"@,
{
    let mut s = key.to_owned();
    s.append(value.as_str());
    s.append("}");
    s
}

/// The key followed by the bare value.
fn keyed(key: &str, value: String) -> (r: String)
    ensures
        r@ == key@ + value@,
{
    let mut s = key.to_owned();
    s.append(value.as_str());
    s
}

/// The option texts of an axis option list.
pub open spec fn axis_opts_view(opts: Seq<AxisOption>) -> Seq<Seq<char>> {
    opts.map(|i: int, o: AxisOption| o@)
}

/// The mathematical content of an [`Axis`] value.
pub ghost struct AxisModel {
    pub options: Seq<Seq<char>>,
    pub plots: Seq<PlotModel>,
}

/// One block per plot, each ended by a line break; first added, first
/// drawn, so later plots overlay earlier ones.
pub open spec fn plot_lines(ps: Seq<PlotModel>) -> Seq<char>
    decreases ps.len(),
{
    if ps.len() == 0 {
        Seq::<char>::empty()
    } else {
        plot_lines(ps.drop_last()) + plot_text(ps.last()) + "\n"@
    }
}

pub proof fn lemma_plot_lines_push(ps: Seq<PlotModel>, p: PlotModel)
    ensures
        plot_lines(ps.push(p)) == plot_lines(ps) + plot_text(p) + "\n"@,
{
    assert(ps.push(p).drop_last() =~= ps);
    assert(ps.push(p).last() == p);
}

/// The axis environment block: the opening delimiter, the bracketed
/// option block when there are options, one plot per line, the closing
/// delimiter.
pub open spec fn axis_text(m: AxisModel) -> Seq<char> {
    let head = if m.options.len() == 0 {
        "\\begin{axis}"@
    } else {
        "\\begin{axis}"@ + "[\n"@ + option_lines(m.options, "\t"@) + "]"@
    };
    head + "\n"@ + plot_lines(m.plots) + "\\end{axis}"@
}

/// The raw requirement sequence of a plot list, one entry per plot that
/// requires a library, in plot order and with duplicates.
pub open spec fn plots_libs_raw(ps: Seq<PlotModel>) -> Seq<LibContent>
    decreases ps.len(),
{
    if ps.len() == 0 {
        Seq::<LibContent>::empty()
    } else {
        plots_libs_raw(ps.drop_last()) + (match plot_required_lib(ps.last()) {
            Option::Some(l) => seq![l],
            Option::None => Seq::<LibContent>::empty(),
        })
    }
}

/// The de-duplicated requirements of a plot list, in first-seen order.
pub open spec fn axis_libs(ps: Seq<PlotModel>) -> Seq<LibContent> {
    spec_add_libs(Seq::<LibContent>::empty(), plots_libs_raw(ps))
}

/// A library is required by an axis exactly when one of its plots requires
/// it: with [`crate::document::preamble::lemma_add_libs_once`], each
/// requirement bubbles up exactly once however many plots share it.
pub proof fn lemma_axis_libs_iff(ps: Seq<PlotModel>)
    ensures
        forall|l: LibContent|
            #[trigger] axis_libs(ps).contains(l) <==> exists|i: int|
                0 <= i < ps.len() && plot_required_lib(#[trigger] ps[i]) == Option::Some(l),
{
    let raw = plots_libs_raw(ps);
    crate::document::preamble::lemma_add_libs_contains(Seq::<LibContent>::empty(), raw);
    lemma_plots_libs_raw_iff(ps);
    assert forall|l: LibContent| #[trigger] axis_libs(ps).contains(l) <==> exists|i: int|
        0 <= i < ps.len() && plot_required_lib(#[trigger] ps[i]) == Option::Some(l) by {
        assert(spec_add_libs(Seq::<LibContent>::empty(), raw).contains(l) <==> Seq::<
            LibContent,
        >::empty().contains(l) || raw.contains(l));
        assert(!Seq::<LibContent>::empty().contains(l));
    }
}

proof fn lemma_plots_libs_raw_iff(ps: Seq<PlotModel>)
    ensures
        forall|l: LibContent|
            #[trigger] plots_libs_raw(ps).contains(l) <==> exists|i: int|
                0 <= i < ps.len() && plot_required_lib(#[trigger] ps[i]) == Option::Some(l),
    decreases ps.len(),
{
    if ps.len() > 0 {
        let head = ps.drop_last();
        lemma_plots_libs_raw_iff(head);
        let raw = plots_libs_raw(ps);
        let rawh = plots_libs_raw(head);
        assert forall|l: LibContent| raw.contains(l) implies exists|i: int|
            0 <= i < ps.len() && plot_required_lib(#[trigger] ps[i]) == Option::Some(l) by {
            let j = choose|j: int| 0 <= j < raw.len() && raw[j] == l;
            if j < rawh.len() {
                assert(rawh[j] == l);
                assert(rawh.contains(l));
                let i = choose|i: int|
                    0 <= i < head.len() && plot_required_lib(#[trigger] head[i]) == Option::Some(l);
                assert(plot_required_lib(ps[i]) == Option::Some(l));
            } else {
                assert(plot_required_lib(ps[ps.len() - 1]) == Option::Some(l));
            }
        }
        assert forall|l: LibContent|
            #![trigger raw.contains(l)]
            (exists|i: int|
                0 <= i < ps.len() && plot_required_lib(#[trigger] ps[i]) == Option::Some(
                    l,
                )) implies raw.contains(l) by {
            let i = choose|i: int|
                0 <= i < ps.len() && plot_required_lib(#[trigger] ps[i]) == Option::Some(l);
            if i < ps.len() - 1 {
                assert(head[i] == ps[i]);
                assert(rawh.contains(l));
                let j = choose|j: int| 0 <= j < rawh.len() && rawh[j] == l;
                assert(raw[j] == l);
            } else {
                assert(raw[raw.len() - 1] == l);
            }
        }
    }
}

/// Axis environment inside a picture.
///
/// ```text
/// \begin{axis}[AxisOptions]
///     % plots
/// \end{axis}
/// ```
#[derive(Clone, Debug)]
pub struct Axis {
    /// Axis options; at most one per kind outside the free-form kind.
    pub options: Vec<AxisOption>,
    /// The contained plots, in drawing order.
    pub plots: Vec<Plot>,
}

impl View for Axis {
    type V = AxisModel;

    open spec fn view(&self) -> AxisModel {
        AxisModel {
            options: axis_opts_view(self.options@),
            plots: self.plots@.map(|i: int, p: Plot| p@),
        }
    }
}

impl Axis {
    /// Every option and plot is renderable.
    pub open spec fn renderable(self) -> bool {
        &&& forall|i: int|
            0 <= i < self.options@.len() ==> (#[trigger] self.options@[i]).renderable()
        &&& forall|i: int| 0 <= i < self.plots@.len() ==> (#[trigger] self.plots@[i]).renderable()
    }

    /// Creates a new, empty axis environment.
    pub fn new() -> (r: Axis)
        ensures
            r.options@ =~= Seq::<AxisOption>::empty(),
            r.plots@ =~= Seq::<Plot>::empty(),
            r.renderable(),
    {
        Axis { options: Vec::new(), plots: Vec::new() }
    }

    /// Sets the `x` axis minimum limit.
    pub fn x_min(self, min: Decimal) -> (r: Axis)
        ensures
            r.options@ == attr_insert(self.options@, AxisOption::XMin(min)),
            r.plots@ == self.plots@,
    {
        self.option(AxisOption::XMin(min))
    }

    /// Sets the `x` axis maximum limit.
    pub fn x_max(self, max: Decimal) -> (r: Axis)
        ensures
            r.options@ == attr_insert(self.options@, AxisOption::XMax(max)),
            r.plots@ == self.plots@,
    {
        self.option(AxisOption::XMax(max))
    }

    /// Sets the `y` axis minimum limit.
    pub fn y_min(self, min: Decimal) -> (r: Axis)
        ensures
            r.options@ == attr_insert(self.options@, AxisOption::YMin(min)),
            r.plots@ == self.plots@,
    {
        self.option(AxisOption::YMin(min))
    }

    /// Sets the `y` axis maximum limit.
    pub fn y_max(self, max: Decimal) -> (r: Axis)
        ensures
            r.options@ == attr_insert(self.options@, AxisOption::YMax(max)),
            r.plots@ == self.plots@,
    {
        self.option(AxisOption::YMax(max))
    }

    /// Sets the `z` axis minimum limit.
    pub fn z_min(self, min: Decimal) -> (r: Axis)
        ensures
            r.options@ == attr_insert(self.options@, AxisOption::ZMin(min)),
            r.plots@ == self.plots@,
    {
        self.option(AxisOption::ZMin(min))
    }

    /// Sets the `z` axis maximum limit.
    pub fn z_max(self, max: Decimal) -> (r: Axis)
        ensures
            r.options@ == attr_insert(self.options@, AxisOption::ZMax(max)),
            r.plots@ == self.plots@,
    {
        self.option(AxisOption::ZMax(max))
    }

    /// Sets the `x`,`y`,`z` axis minimum limit.
    pub fn min(self, min: Decimal) -> (r: Axis)
        ensures
            r.options@ == attr_insert(self.options@, AxisOption::Min(min)),
            r.plots@ == self.plots@,
    {
        self.option(AxisOption::Min(min))
    }

    /// Sets the `x`,`y`,`z` axis maximum limit.
    pub fn max(self, max: Decimal) -> (r: Axis)
        ensures
            r.options@ == attr_insert(self.options@, AxisOption::Max(max)),
            r.plots@ == self.plots@,
    {
        self.option(AxisOption::Max(max))
    }

    /// Sets the title of the axis environment; this can be valid LaTeX,
    /// e.g. inline math.
    pub fn title(self, title: String) -> (r: Axis)
        ensures
            r.options@ == attr_insert(self.options@, AxisOption::Title(title)),
            r.plots@ == self.plots@,
    {
        self.option(AxisOption::Title(title))
    }

    /// Sets the label of the `x` axis.
    pub fn x_label(self, label: String) -> (r: Axis)
        ensures
            r.options@ == attr_insert(self.options@, AxisOption::XLabel(label)),
            r.plots@ == self.plots@,
    {
        self.option(AxisOption::XLabel(label))
    }

    /// Sets the label of the `y` axis.
    pub fn y_label(self, label: String) -> (r: Axis)
        ensures
            r.options@ == attr_insert(self.options@, AxisOption::YLabel(label)),
            r.plots@ == self.plots@,
    {
        self.option(AxisOption::YLabel(label))
    }

    /// Sets the `x` axis ticks.
    pub fn x_ticks(self, ticks: Ticks) -> (r: Axis)
        ensures
            r.options@ == attr_insert(self.options@, AxisOption::XTick(ticks)),
            r.plots@ == self.plots@,
    {
        self.option(AxisOption::XTick(ticks))
    }

    /// Sets the `y` axis ticks.
    pub fn y_ticks(self, ticks: Ticks) -> (r: Axis)
        ensures
            r.options@ == attr_insert(self.options@, AxisOption::YTick(ticks)),
            r.plots@ == self.plots@,
    {
        self.option(AxisOption::YTick(ticks))
    }

    /// Sets the `x` axis tick labels.
    pub fn x_tick_labels(self, tick_labels: TickLabels) -> (r: Axis)
        ensures
            r.options@ == attr_insert(self.options@, AxisOption::XTickLabels(tick_labels)),
            r.plots@ == self.plots@,
    {
        self.option(AxisOption::XTickLabels(tick_labels))
    }

    /// Sets the `y` axis tick labels.
    pub fn y_tick_labels(self, tick_labels: TickLabels) -> (r: Axis)
        ensures
            r.options@ == attr_insert(self.options@, AxisOption::YTickLabels(tick_labels)),
            r.plots@ == self.plots@,
    {
        self.option(AxisOption::YTickLabels(tick_labels))
    }

    /// Sets the `z` axis tick labels.
    pub fn z_tick_labels(self, tick_labels: TickLabels) -> (r: Axis)
        ensures
            r.options@ == attr_insert(self.options@, AxisOption::ZTickLabels(tick_labels)),
            r.plots@ == self.plots@,
    {
        self.option(AxisOption::ZTickLabels(tick_labels))
    }

    /// Adds an option with the override rule: any previous option of the
    /// same kind is replaced, free-form options accumulate.
    pub fn option(self, option: AxisOption) -> (r: Axis)
        ensures
            r.options@ == attr_insert(self.options@, option),
            r.plots@ == self.plots@,
    {
        let mut a = self;
        a.add_option(option);
        a
    }

    /// Adds a plot to the axis.
    pub fn plot(self, plot: Plot) -> (r: Axis)
        ensures
            r.options@ == self.options@,
            r.plots@ == self.plots@.push(plot),
    {
        let mut a = self;
        a.add_plot(plot);
        a
    }

    /// Sets the `x` axis minimum limit.
    pub fn set_x_min(&mut self, min: Decimal)
        ensures
            final(self).options@ == attr_insert(old(self).options@, AxisOption::XMin(min)),
            final(self).plots@ == old(self).plots@,
    {
        self.add_option(AxisOption::XMin(min));
    }

    /// Sets the `x` axis maximum limit.
    pub fn set_x_max(&mut self, max: Decimal)
        ensures
            final(self).options@ == attr_insert(old(self).options@, AxisOption::XMax(max)),
            final(self).plots@ == old(self).plots@,
    {
        self.add_option(AxisOption::XMax(max));
    }

    /// Sets the `y` axis minimum limit.
    pub fn set_y_min(&mut self, min: Decimal)
        ensures
            final(self).options@ == attr_insert(old(self).options@, AxisOption::YMin(min)),
            final(self).plots@ == old(self).plots@,
    {
        self.add_option(AxisOption::YMin(min));
    }

    /// Sets the `y` axis maximum limit.
    pub fn set_y_max(&mut self, max: Decimal)
        ensures
            final(self).options@ == attr_insert(old(self).options@, AxisOption::YMax(max)),
            final(self).plots@ == old(self).plots@,
    {
        self.add_option(AxisOption::YMax(max));
    }

    /// Sets the `z` axis minimum limit.
    pub fn set_z_min(&mut self, min: Decimal)
        ensures
            final(self).options@ == attr_insert(old(self).options@, AxisOption::ZMin(min)),
            final(self).plots@ == old(self).plots@,
    {
        self.add_option(AxisOption::ZMin(min));
    }

    /// Sets the `z` axis maximum limit.
    pub fn set_z_max(&mut self, max: Decimal)
        ensures
            final(self).options@ == attr_insert(old(self).options@, AxisOption::ZMax(max)),
            final(self).plots@ == old(self).plots@,
    {
        self.add_option(AxisOption::ZMax(max));
    }

    /// Sets the `x`,`y`,`z` axis minimum limit.
    pub fn set_min(&mut self, min: Decimal)
        ensures
            final(self).options@ == attr_insert(old(self).options@, AxisOption::Min(min)),
            final(self).plots@ == old(self).plots@,
    {
        self.add_option(AxisOption::Min(min));
    }

    /// Sets the `x`,`y`,`z` axis maximum limit.
    pub fn set_max(&mut self, max: Decimal)
        ensures
            final(self).options@ == attr_insert(old(self).options@, AxisOption::Max(max)),
            final(self).plots@ == old(self).plots@,
    {
        self.add_option(AxisOption::Max(max));
    }

    /// Sets the title of the axis environment.
    pub fn set_title(&mut self, title: String)
        ensures
            final(self).options@ == attr_insert(old(self).options@, AxisOption::Title(title)),
            final(self).plots@ == old(self).plots@,
    {
        self.add_option(AxisOption::Title(title));
    }

    /// Sets the label of the `x` axis.
    pub fn set_x_label(&mut self, label: String)
        ensures
            final(self).options@ == attr_insert(old(self).options@, AxisOption::XLabel(label)),
            final(self).plots@ == old(self).plots@,
    {
        self.add_option(AxisOption::XLabel(label));
    }

    /// Sets the label of the `y` axis.
    pub fn set_y_label(&mut self, label: String)
        ensures
            final(self).options@ == attr_insert(old(self).options@, AxisOption::YLabel(label)),
            final(self).plots@ == old(self).plots@,
    {
        self.add_option(AxisOption::YLabel(label));
    }

    /// Sets the `x` axis ticks.
    pub fn set_x_ticks(&mut self, ticks: Ticks)
        ensures
            final(self).options@ == attr_insert(old(self).options@, AxisOption::XTick(ticks)),
            final(self).plots@ == old(self).plots@,
    {
        self.add_option(AxisOption::XTick(ticks));
    }

    /// Sets the `y` axis ticks.
    pub fn set_y_ticks(&mut self, ticks: Ticks)
        ensures
            final(self).options@ == attr_insert(old(self).options@, AxisOption::YTick(ticks)),
            final(self).plots@ == old(self).plots@,
    {
        self.add_option(AxisOption::YTick(ticks));
    }

    /// Sets the `x` axis tick labels.
    pub fn set_x_tick_labels(&mut self, tick_labels: TickLabels)
        ensures
            final(self).options@ == attr_insert(
                old(self).options@,
                AxisOption::XTickLabels(tick_labels),
            ),
            final(self).plots@ == old(self).plots@,
    {
        self.add_option(AxisOption::XTickLabels(tick_labels));
    }

    /// Sets the `y` axis tick labels.
    pub fn set_y_tick_labels(&mut self, tick_labels: TickLabels)
        ensures
            final(self).options@ == attr_insert(
                old(self).options@,
                AxisOption::YTickLabels(tick_labels),
            ),
            final(self).plots@ == old(self).plots@,
    {
        self.add_option(AxisOption::YTickLabels(tick_labels));
    }

    /// Sets the `z` axis tick labels.
    pub fn set_z_tick_labels(&mut self, tick_labels: TickLabels)
        ensures
            final(self).options@ == attr_insert(
                old(self).options@,
                AxisOption::ZTickLabels(tick_labels),
            ),
            final(self).plots@ == old(self).plots@,
    {
        self.add_option(AxisOption::ZTickLabels(tick_labels));
    }

    /// Adds an option with the override rule; see [`Axis::option`].
    pub fn add_option(&mut self, option: AxisOption)
        ensures
            final(self).options@ == attr_insert(old(self).options@, option),
            final(self).plots@ == old(self).plots@,
            old(self).renderable() && option.renderable() ==> final(self).renderable(),
    {
        let ghost p = |x: AxisOption| x.renderable();
        insert_attr(&mut self.options, option);
        proof {
            if old(self).renderable() && option.renderable() {
                assert forall|i: int|
                    0 <= i < old(self).options@.len() implies #[trigger] p(
                    old(self).options@[i],
                ) by {}
                crate::attr::lemma_attr_insert_preserves(old(self).options@, option, p);
                assert forall|i: int|
                    0 <= i < self.options@.len() implies (#[trigger] self.options@[i]).renderable() by {
                    assert(p(self.options@[i]));
                }
            }
        }
    }

    /// Adds a plot to the axis.
    pub fn add_plot(&mut self, plot: Plot)
        ensures
            final(self).options@ == old(self).options@,
            final(self).plots@ == old(self).plots@.push(plot),
            old(self).renderable() && plot.renderable() ==> final(self).renderable(),
    {
        self.plots.push(plot);
    }

    /// Returns the PGFPlots libraries required by the contained plots,
    /// de-duplicated in first-seen order.
    pub fn required_libs(&self) -> (r: Vec<PgfPlotsLib>)
        ensures
            libs_view(r@) == axis_libs(self@.plots),
    {
        let ghost ps = self@.plots;
        let mut out: Vec<PgfPlotsLib> = Vec::new();
        proof {
            assert(libs_view(out@) =~= Seq::<LibContent>::empty());
            assert(ps.take(0) =~= Seq::<PlotModel>::empty());
        }
        let mut i: usize = 0;
        while i < self.plots.len()
            invariant
                self@.plots == ps,
                i <= self.plots@.len(),
                ps.len() == self.plots@.len(),
                libs_view(out@) == spec_add_libs(
                    Seq::<LibContent>::empty(),
                    plots_libs_raw(ps.take(i as int)),
                ),
            decreases self.plots@.len() - i,
        {
            let ghost rawi = plots_libs_raw(ps.take(i as int));
            match self.plots[i].required_lib() {
                Some(l) => {
                    proof {
                        assert(ps.take(i + 1) =~= ps.take(i as int).push(ps[i as int]));
                        assert(ps.take(i + 1).drop_last() =~= ps.take(i as int));
                        assert(plots_libs_raw(ps.take(i + 1)) =~= rawi.push(l@));
                        crate::document::preamble::lemma_add_libs_push(
                            Seq::<LibContent>::empty(),
                            rawi,
                            l@,
                        );
                    }
                    push_lib_unique(&mut out, l);
                },
                None => {
                    proof {
                        assert(ps.take(i + 1) =~= ps.take(i as int).push(ps[i as int]));
                        assert(ps.take(i + 1).drop_last() =~= ps.take(i as int));
                        assert(plots_libs_raw(ps.take(i + 1)) =~= rawi);
                    }
                },
            }
            i = i + 1;
        }
        proof {
            assert(ps.take(self.plots@.len() as int) =~= ps);
        }
        out
    }

    /// Returns whether the axis is renderable; the runtime counterpart of
    /// [`Axis::renderable`].
    pub fn is_renderable(&self) -> (b: bool)
        ensures
            b == self.renderable(),
    {
        let mut i: usize = 0;
        while i < self.options.len()
            invariant
                i <= self.options@.len(),
                forall|j: int| 0 <= j < i ==> (#[trigger] self.options@[j]).renderable(),
            decreases self.options@.len() - i,
        {
            if !self.options[i].is_renderable() {
                return false;
            }
            i = i + 1;
        }
        let mut i: usize = 0;
        while i < self.plots.len()
            invariant
                i <= self.plots@.len(),
                forall|j: int| 0 <= j < self.options@.len() ==> (#[trigger] self.options@[j]).renderable(),
                forall|j: int| 0 <= j < i ==> (#[trigger] self.plots@[j]).renderable(),
            decreases self.plots@.len() - i,
        {
            if !self.plots[i].is_renderable() {
                return false;
            }
            i = i + 1;
        }
        true
    }

    /// Renders the axis environment block.
    pub fn render(&self) -> (r: String)
        requires
            self.renderable(),
        ensures
            r@ == axis_text(self@),
    {
        let ghost m = self@;
        let mut s = "\\begin{axis}".to_owned();
        if self.options.len() > 0 {
            s.append("[\n");
            let mut i: usize = 0;
            while i < self.options.len()
                invariant
                    self@ == m,
                    self.renderable(),
                    i <= self.options@.len(),
                    s@ == "\\begin{axis}"@ + "[\n"@ + option_lines(m.options.take(i as int), "\t"@),
                decreases self.options@.len() - i,
            {
                s.append("\t");
                s.append(self.options[i].render().as_str());
                s.append(",\n");
                proof {
                    assert(m.options.take(i + 1) =~= m.options.take(i as int).push(
                        m.options[i as int],
                    ));
                    crate::text::lemma_option_lines_push(
                        m.options.take(i as int),
                        "\t"@,
                        m.options[i as int],
                    );
                }
                i = i + 1;
            }
            s.append("]");
            proof {
                assert(m.options.take(self.options@.len() as int) =~= m.options);
            }
        }
        s.append("\n");
        let ghost head = (if m.options.len() == 0 {
            "\\begin{axis}"@
        } else {
            "\\begin{axis}"@ + "[\n"@ + option_lines(m.options, "\t"@) + "]"@
        }) + "\n"@;
        let mut i: usize = 0;
        while i < self.plots.len()
            invariant
                self@ == m,
                self.renderable(),
                i <= self.plots@.len(),
                s@ == head + plot_lines(m.plots.take(i as int)),
            decreases self.plots@.len() - i,
        {
            s.append(self.plots[i].render().as_str());
            s.append("\n");
            proof {
                assert(m.plots.take(i + 1) =~= m.plots.take(i as int).push(m.plots[i as int]));
                lemma_plot_lines_push(m.plots.take(i as int), m.plots[i as int]);
            }
            i = i + 1;
        }
        s.append("\\end{axis}");
        proof {
            assert(m.plots.take(self.plots@.len() as int) =~= m.plots);
            assert(s@ =~= axis_text(m));
        }
        s
    }
}

} // verus!
