//! Histogram plots, provided by the `statistics` PGFPlots library.

use crate::attr::{attr_insert, insert_attr, AttrKind};
use crate::decimal::Decimal;
use crate::document::tikzpicture::axis::plot::bidimensional::{plot_opts_view, PlotOption};
use crate::text::{dec_digits, option_lines};
use vstd::prelude::*;
use vstd::string::StringExecFns;

verus! {

/// The textual form of a boolean option value.
pub open spec fn bool_text(b: bool) -> Seq<char> {
    if b {
        "true"@
    } else {
        "false"@
    }
}

/// PGFPlots options passed to a histogram plot through `hist={...}`.
/// Options of the same kind are mutually exclusive;
/// [`HistogramOption::Custom`] is free-form and accumulates.
#[derive(Clone, Debug)]
#[non_exhaustive]
pub enum HistogramOption {
    /// Custom option-value pairs that have not been implemented yet. These
    /// will be appended verbatim to the options of the `hist={...}` command.
    Custom(String),
    /// Tells the histogram how to get its data; reserved, without a
    /// textual form yet.
    Data,
    /// Like [`HistogramOption::Data`] but avoiding the math parser;
    /// reserved, without a textual form yet.
    DataValue,
    /// Provides the min data range value manually.
    DataMin(Decimal),
    /// Provides the max data range value manually.
    DataMax(Decimal),
    /// Number `N` of equally sized bins, with `N + 1` endpoints.
    Bins(usize),
    /// Specifies whether interval endpoints are generated.
    Intervals(bool),
    /// Computes a cumulative histogram.
    Cumulative(bool),
    /// Enables density estimation mode: the resulting data points are
    /// renormalized such that the overall mass equals one.
    Density(bool),
    /// Changes the way the generated coordinates are visualized.
    Handler(String),
}

impl View for HistogramOption {
    type V = Seq<char>;

    /// The option's textual form; the two reserved data-source options
    /// have none.
    open spec fn view(&self) -> Seq<char> {
        match self {
            HistogramOption::Custom(s) => s@,
            HistogramOption::Data => arbitrary(),
            HistogramOption::DataValue => arbitrary(),
            HistogramOption::DataMin(d) => "data min={"@ + d.text() + "}"@,
            HistogramOption::DataMax(d) => "data max={"@ + d.text() + "}"@,
            HistogramOption::Bins(n) => "bins="@ + dec_digits(*n as nat),
            HistogramOption::Intervals(b) => "intervals="@ + bool_text(*b),
            HistogramOption::Cumulative(b) => "cumulative="@ + bool_text(*b),
            HistogramOption::Density(b) => "density="@ + bool_text(*b),
            HistogramOption::Handler(s) => "handler/.style={"@ + s@ + "}"@,
        }
    }
}

impl AttrKind for HistogramOption {
    open spec fn kind_spec(&self) -> u64 {
        match self {
            HistogramOption::Custom(_) => 0,
            HistogramOption::Data => 1,
            HistogramOption::DataValue => 2,
            HistogramOption::DataMin(_) => 3,
            HistogramOption::DataMax(_) => 4,
            HistogramOption::Bins(_) => 5,
            HistogramOption::Intervals(_) => 6,
            HistogramOption::Cumulative(_) => 7,
            HistogramOption::Density(_) => 8,
            HistogramOption::Handler(_) => 9,
        }
    }

    fn kind(&self) -> (k: u64)
        ensures
            k == self.kind_spec(),
    {
        match self {
            HistogramOption::Custom(_) => 0,
            HistogramOption::Data => 1,
            HistogramOption::DataValue => 2,
            HistogramOption::DataMin(_) => 3,
            HistogramOption::DataMax(_) => 4,
            HistogramOption::Bins(_) => 5,
            HistogramOption::Intervals(_) => 6,
            HistogramOption::Cumulative(_) => 7,
            HistogramOption::Density(_) => 8,
            HistogramOption::Handler(_) => 9,
        }
    }
}

impl HistogramOption {
    /// Whether the option has a textual form and renderable decimals: the
    /// reserved data-source options do not render.
    pub open spec fn renderable(self) -> bool {
        match self {
            HistogramOption::Data => false,
            HistogramOption::DataValue => false,
            HistogramOption::DataMin(d) => d.wf(),
            HistogramOption::DataMax(d) => d.wf(),
            _ => true,
        }
    }

    /// Returns whether the option renders; the runtime counterpart of
    /// [`HistogramOption::renderable`] up to decimal bounds.
    pub fn implemented(&self) -> (b: bool)
        ensures
            b == !(self is Data || self is DataValue),
    {
        !(matches!(self, HistogramOption::Data) || matches!(
            self,
            HistogramOption::DataValue,
        ))
    }

    /// Returns whether the option is renderable; the runtime counterpart
    /// of [`HistogramOption::renderable`].
    pub fn is_renderable(&self) -> (b: bool)
        ensures
            b == self.renderable(),
    {
        match self {
            HistogramOption::Data => false,
            HistogramOption::DataValue => false,
            HistogramOption::DataMin(d) => d.is_wf(),
            HistogramOption::DataMax(d) => d.is_wf(),
            _ => true,
        }
    }

    /// Renders the option.
    pub fn render(&self) -> (r: String)
        requires
            self.renderable(),
        ensures
            r@ == self@,
    {
        match self {
            HistogramOption::Custom(s) => s.clone(),
            HistogramOption::Data => {
                proof {
                    assert(false);
                }
                String::new()
            },
            HistogramOption::DataValue => {
                proof {
                    assert(false);
                }
                String::new()
            },
            HistogramOption::DataMin(d) => {
                let mut s = "data min={".to_owned();
                s.append(d.render().as_str());
                s.append("}");
                s
            },
            HistogramOption::DataMax(d) => {
                let mut s = "data max={".to_owned();
                s.append(d.render().as_str());
                s.append("}");
                s
            },
            HistogramOption::Bins(n) => {
                let mut s = "bins=".to_owned();
                s.append(crate::text::render_u64(*n as u64).as_str());
                s
            },
            HistogramOption::Intervals(b) => {
                let mut s = "intervals=".to_owned();
                s.append(if *b { "true" } else { "false" });
                s
            },
            HistogramOption::Cumulative(b) => {
                let mut s = "cumulative=".to_owned();
                s.append(if *b { "true" } else { "false" });
                s
            },
            HistogramOption::Density(b) => {
                let mut s = "density=".to_owned();
                s.append(if *b { "true" } else { "false" });
                s
            },
            HistogramOption::Handler(h) => {
                let mut s = "handler/.style={".to_owned();
                s.append(h.as_str());
                s.append("}");
                s
            },
        }
    }
}

/// The option texts of a histogram option list.
pub open spec fn hist_opts_view(opts: Seq<HistogramOption>) -> Seq<Seq<char>> {
    opts.map(|i: int, o: HistogramOption| o@)
}

/// The mathematical content of a [`Histogram`] value.
pub ghost struct HistogramModel {
    pub options: Seq<Seq<char>>,
    pub hist_options: Seq<Seq<char>>,
    pub data: Seq<Decimal>,
}

/// One line per raw sample in the data table.
pub open spec fn data_lines(ds: Seq<Decimal>) -> Seq<char>
    decreases ds.len(),
{
    if ds.len() == 0 {
        Seq::<char>::empty()
    } else {
        data_lines(ds.drop_last()) + "\t\t"@ + ds.last().text() + " \\\\\n"@
    }
}

pub proof fn lemma_data_lines_push(ds: Seq<Decimal>, d: Decimal)
    ensures
        data_lines(ds.push(d)) == data_lines(ds) + "\t\t"@ + d.text() + " \\\\\n"@,
{
    assert(ds.push(d).drop_last() =~= ds);
    assert(ds.push(d).last() == d);
}

/// The `\addplot+` block of a histogram: the `hist` option block (one
/// option per line when there are any), the plot options, and the raw
/// sample table, one sample per line.
pub open spec fn hist_text(m: HistogramModel) -> Seq<char> {
    let hist_block = if m.hist_options.len() == 0 {
        "\n\t\thist,"@
    } else {
        "\n\t\thist={\n"@ + option_lines(m.hist_options, "\t\t\t"@) + "\t\t}"@
    };
    "\t\\addplot+ ["@ + hist_block + "\n"@ + option_lines(m.options, "\t\t"@)
        + "\t] table [row sep=\\\\, y index=0] {\n\t\tdata \\\\\n"@ + data_lines(m.data) + "\t};"@
}

/// Histogram plot inside an axis environment. Adding one to an axis
/// implies the import of the `statistics` PGFPlots library.
///
/// ```text
/// \addplot+ [hist={...}, ...]
/// ```
#[derive(Clone, Debug)]
pub struct Histogram {
    /// Plot options; at most one per kind outside the free-form kind.
    pub options: Vec<PlotOption>,
    /// Histogram specific options; same override rule.
    pub hist_options: Vec<HistogramOption>,
    /// Histogram raw sample data.
    pub data: Vec<Decimal>,
}

impl View for Histogram {
    type V = HistogramModel;

    open spec fn view(&self) -> HistogramModel {
        HistogramModel {
            options: plot_opts_view(self.options@),
            hist_options: hist_opts_view(self.hist_options@),
            data: self.data@,
        }
    }
}

impl Histogram {
    /// Every option has a textual form and every decimal is renderable.
    pub open spec fn renderable(self) -> bool {
        &&& forall|i: int|
            0 <= i < self.options@.len() ==> (#[trigger] self.options@[i]).renderable()
        &&& forall|i: int|
            0 <= i < self.hist_options@.len() ==> (#[trigger] self.hist_options@[i]).renderable()
        &&& forall|i: int| 0 <= i < self.data@.len() ==> (#[trigger] self.data@[i]).wf()
    }

    /// Constructs a new, empty histogram plot.
    pub fn new() -> (r: Histogram)
        ensures
            r.options@ =~= Seq::<PlotOption>::empty(),
            r.hist_options@ =~= Seq::<HistogramOption>::empty(),
            r.data@ =~= Seq::<Decimal>::empty(),
            r.renderable(),
    {
        Histogram { options: Vec::new(), hist_options: Vec::new(), data: Vec::new() }
    }

    /// The histogram over the given raw samples.
    pub fn from_data(data: Vec<Decimal>) -> (r: Histogram)
        ensures
            r.options@ =~= Seq::<PlotOption>::empty(),
            r.hist_options@ =~= Seq::<HistogramOption>::empty(),
            r.data@ == data@,
    {
        Histogram { options: Vec::new(), hist_options: Vec::new(), data }
    }

    /// Adds a plot option with the override rule: any previous option of
    /// the same kind is replaced, free-form options accumulate.
    pub fn option(self, option: PlotOption) -> (r: Histogram)
        ensures
            r.options@ == attr_insert(self.options@, option),
            r.hist_options@ == self.hist_options@,
            r.data@ == self.data@,
    {
        let mut h = self;
        h.add_option(option);
        h
    }

    /// Adds a histogram option with the override rule; see
    /// [`Histogram::option`].
    pub fn hist_option(self, option: HistogramOption) -> (r: Histogram)
        ensures
            r.hist_options@ == attr_insert(self.hist_options@, option),
            r.options@ == self.options@,
            r.data@ == self.data@,
    {
        let mut h = self;
        h.add_hist_option(option);
        h
    }

    /// Sets the number of equally sized bins.
    pub fn bins(self, bins: usize) -> (r: Histogram)
        ensures
            r.hist_options@ == attr_insert(self.hist_options@, HistogramOption::Bins(bins)),
            r.options@ == self.options@,
            r.data@ == self.data@,
    {
        self.hist_option(HistogramOption::Bins(bins))
    }

    /// Sets the max data range manually.
    pub fn data_max(self, max: Decimal) -> (r: Histogram)
        ensures
            r.hist_options@ == attr_insert(self.hist_options@, HistogramOption::DataMax(max)),
            r.options@ == self.options@,
            r.data@ == self.data@,
    {
        self.hist_option(HistogramOption::DataMax(max))
    }

    /// Sets the min data range manually.
    pub fn data_min(self, min: Decimal) -> (r: Histogram)
        ensures
            r.hist_options@ == attr_insert(self.hist_options@, HistogramOption::DataMin(min)),
            r.options@ == self.options@,
            r.data@ == self.data@,
    {
        self.hist_option(HistogramOption::DataMin(min))
    }

    /// Enables histogram normalization.
    pub fn normalize(self) -> (r: Histogram)
        ensures
            r.hist_options@ == attr_insert(self.hist_options@, HistogramOption::Density(true)),
            r.options@ == self.options@,
            r.data@ == self.data@,
    {
        self.hist_option(HistogramOption::Density(true))
    }

    /// Adds a plot option with the override rule; see [`Histogram::option`].
    pub fn add_option(&mut self, option: PlotOption)
        ensures
            final(self).options@ == attr_insert(old(self).options@, option),
            final(self).hist_options@ == old(self).hist_options@,
            final(self).data@ == old(self).data@,
            old(self).renderable() && option.renderable() ==> final(self).renderable(),
    {
        let ghost p = |x: PlotOption| x.renderable();
        insert_attr(&mut self.options, option);
        proof {
            if old(self).renderable() && option.renderable() {
                assert forall|i: int|
                    0 <= i < old(self).options@.len() implies #[trigger] p(
                    old(self).options@[i],
                ) by {}
                crate::attr::lemma_attr_insert_preserves(old(self).options@, option, p);
                assert forall|i: int|
                    0 <= i < self.options@.len() implies (#[trigger] self.options@[i]).renderable() by {
                    assert(p(self.options@[i]));
                }
            }
        }
    }

    /// Adds a histogram option with the override rule; see
    /// [`Histogram::option`].
    pub fn add_hist_option(&mut self, option: HistogramOption)
        ensures
            final(self).hist_options@ == attr_insert(old(self).hist_options@, option),
            final(self).options@ == old(self).options@,
            final(self).data@ == old(self).data@,
            old(self).renderable() && option.renderable() ==> final(self).renderable(),
    {
        let ghost p = |x: HistogramOption| x.renderable();
        insert_attr(&mut self.hist_options, option);
        proof {
            if old(self).renderable() && option.renderable() {
                assert forall|i: int|
                    0 <= i < old(self).hist_options@.len() implies #[trigger] p(
                    old(self).hist_options@[i],
                ) by {}
                crate::attr::lemma_attr_insert_preserves(old(self).hist_options@, option, p);
                assert forall|i: int|
                    0 <= i < self.hist_options@.len() implies (#[trigger] self.hist_options@[i]).renderable() by {
                    assert(p(self.hist_options@[i]));
                }
            }
        }
    }

    /// Sets the number of equally sized bins.
    pub fn set_bins(&mut self, bins: usize)
        ensures
            final(self).hist_options@ == attr_insert(
                old(self).hist_options@,
                HistogramOption::Bins(bins),
            ),
            final(self).options@ == old(self).options@,
            final(self).data@ == old(self).data@,
    {
        self.add_hist_option(HistogramOption::Bins(bins));
    }

    /// Sets the max data range manually.
    pub fn set_data_max(&mut self, max: Decimal)
        ensures
            final(self).hist_options@ == attr_insert(
                old(self).hist_options@,
                HistogramOption::DataMax(max),
            ),
            final(self).options@ == old(self).options@,
            final(self).data@ == old(self).data@,
    {
        self.add_hist_option(HistogramOption::DataMax(max));
    }

    /// Sets the min data range manually.
    pub fn set_data_min(&mut self, min: Decimal)
        ensures
            final(self).hist_options@ == attr_insert(
                old(self).hist_options@,
                HistogramOption::DataMin(min),
            ),
            final(self).options@ == old(self).options@,
            final(self).data@ == old(self).data@,
    {
        self.add_hist_option(HistogramOption::DataMin(min));
    }

    /// Enables histogram normalization.
    pub fn set_normalize(&mut self)
        ensures
            final(self).hist_options@ == attr_insert(
                old(self).hist_options@,
                HistogramOption::Density(true),
            ),
            final(self).options@ == old(self).options@,
            final(self).data@ == old(self).data@,
    {
        self.add_hist_option(HistogramOption::Density(true));
    }

    /// Returns whether the histogram is renderable; the runtime
    /// counterpart of [`Histogram::renderable`].
    pub fn is_renderable(&self) -> (b: bool)
        ensures
            b == self.renderable(),
    {
        let mut i: usize = 0;
        while i < self.options.len()
            invariant
                i <= self.options@.len(),
                forall|j: int| 0 <= j < i ==> (#[trigger] self.options@[j]).renderable(),
            decreases self.options@.len() - i,
        {
            if !self.options[i].is_renderable() {
                return false;
            }
            i = i + 1;
        }
        let mut i: usize = 0;
        while i < self.hist_options.len()
            invariant
                i <= self.hist_options@.len(),
                forall|j: int| 0 <= j < self.options@.len() ==> (#[trigger] self.options@[j]).renderable(),
                forall|j: int| 0 <= j < i ==> (#[trigger] self.hist_options@[j]).renderable(),
            decreases self.hist_options@.len() - i,
        {
            if !self.hist_options[i].is_renderable() {
                return false;
            }
            i = i + 1;
        }
        let mut i: usize = 0;
        while i < self.data.len()
            invariant
                i <= self.data@.len(),
                forall|j: int| 0 <= j < self.options@.len() ==> (#[trigger] self.options@[j]).renderable(),
                forall|j: int|
                    0 <= j < self.hist_options@.len() ==> (#[trigger] self.hist_options@[j]).renderable(),
                forall|j: int| 0 <= j < i ==> (#[trigger] self.data@[j]).wf(),
            decreases self.data@.len() - i,
        {
            if !self.data[i].is_wf() {
                return false;
            }
            i = i + 1;
        }
        true
    }

    /// Renders the `\addplot+` block.
    pub fn render(&self) -> (r: String)
        requires
            self.renderable(),
        ensures
            r@ == hist_text(self@),
    {
        let ghost m = self@;
        let mut s = "\t\\addplot+ [".to_owned();
        if self.hist_options.len() > 0 {
            s.append("\n\t\thist={\n");
            let mut i: usize = 0;
            while i < self.hist_options.len()
                invariant
                    self@ == m,
                    self.renderable(),
                    i <= self.hist_options@.len(),
                    s@ == "\t\\addplot+ ["@ + "\n\t\thist={\n"@ + option_lines(
                        m.hist_options.take(i as int),
                        "\t\t\t"@,
                    ),
                decreases self.hist_options@.len() - i,
            {
                s.append("\t\t\t");
                s.append(self.hist_options[i].render().as_str());
                s.append(",\n");
                proof {
                    assert(m.hist_options.take(i + 1) =~= m.hist_options.take(i as int).push(
                        m.hist_options[i as int],
                    ));
                    crate::text::lemma_option_lines_push(
                        m.hist_options.take(i as int),
                        "\t\t\t"@,
                        m.hist_options[i as int],
                    );
                }
                i = i + 1;
            }
            s.append("\t\t}");
            proof {
                assert(m.hist_options.take(self.hist_options@.len() as int) =~= m.hist_options);
            }
        } else {
            s.append("\n\t\thist,");
        }
        s.append("\n");
        let ghost hist_block = if m.hist_options.len() == 0 {
            "\n\t\thist,"@
        } else {
            "\n\t\thist={\n"@ + option_lines(m.hist_options, "\t\t\t"@) + "\t\t}"@
        };
        let ghost head = "\t\\addplot+ ["@ + hist_block + "\n"@;
        let mut i: usize = 0;
        while i < self.options.len()
            invariant
                self@ == m,
                self.renderable(),
                i <= self.options@.len(),
                s@ == head + option_lines(m.options.take(i as int), "\t\t"@),
            decreases self.options@.len() - i,
        {
            s.append("\t\t");
            s.append(self.options[i].render().as_str());
            s.append(",\n");
            proof {
                assert(m.options.take(i + 1) =~= m.options.take(i as int).push(
                    m.options[i as int],
                ));
                crate::text::lemma_option_lines_push(
                    m.options.take(i as int),
                    "\t\t"@,
                    m.options[i as int],
                );
            }
            i = i + 1;
        }
        proof {
            assert(m.options.take(self.options@.len() as int) =~= m.options);
        }
        s.append("\t] table [row sep=\\\\, y index=0] {\n\t\tdata \\\\\n");
        let ghost head2 = head + option_lines(m.options, "\t\t"@)
            + "\t] table [row sep=\\\\, y index=0] {\n\t\tdata \\\\\n"@;
        let mut i: usize = 0;
        while i < self.data.len()
            invariant
                self@ == m,
                self.renderable(),
                i <= self.data@.len(),
                s@ == head2 + data_lines(m.data.take(i as int)),
            decreases self.data@.len() - i,
        {
            s.append("\t\t");
            s.append(self.data[i].render().as_str());
            s.append(" \\\\\n");
            proof {
                assert(m.data.take(i + 1) =~= m.data.take(i as int).push(m.data[i as int]));
                lemma_data_lines_push(m.data.take(i as int), m.data[i as int]);
            }
            i = i + 1;
        }
        s.append("\t};");
        proof {
            assert(m.data.take(self.data@.len() as int) =~= m.data);
            assert(s@ =~= hist_text(m));
        }
        s
    }
}

} // verus!
