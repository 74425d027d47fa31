//! Plots: the leaves of an axis environment.

pub mod bidimensional;

use crate::document::preamble::{LibContent, PgfPlotsLib};
use crate::libs::statistics::histogram::{hist_text, Histogram, HistogramModel};
use bidimensional::{plot2d_text, Plot2D, Plot2DModel};
use vstd::prelude::*;
use vstd::string::StringExecFns;

verus! {

/// A plot drawn inside an axis environment: a free-form drawing command, a
/// two-dimensional coordinate series, or a histogram.
#[derive(Clone, Debug)]
#[non_exhaustive]
pub enum Plot {
    /// A verbatim `\draw` command body.
    Draw(String),
    /// A two-dimensional coordinate series.
    Plot2D(Plot2D),
    /// A histogram; requires the `statistics` PGFPlots library.
    Histogram(Histogram),
}

/// The mathematical content of a [`Plot`] value.
pub ghost enum PlotModel {
    Draw(Seq<char>),
    Plot2D(Plot2DModel),
    Histogram(HistogramModel),
}

impl View for Plot {
    type V = PlotModel;

    open spec fn view(&self) -> PlotModel {
        match self {
            Plot::Draw(d) => PlotModel::Draw(d@),
            Plot::Plot2D(p) => PlotModel::Plot2D(p@),
            Plot::Histogram(h) => PlotModel::Histogram(h@),
        }
    }
}

/// The rendered block of a plot.
pub open spec fn plot_text(m: PlotModel) -> Seq<char> {
    match m {
        PlotModel::Draw(d) => "\\draw "@ + d + ";"@,
        PlotModel::Plot2D(p) => plot2d_text(p),
        PlotModel::Histogram(h) => hist_text(h),
    }
}

/// The optional PGFPlots library a plot requires: `statistics` for a
/// histogram, nothing otherwise.
pub open spec fn plot_required_lib(m: PlotModel) -> Option<LibContent> {
    match m {
        PlotModel::Histogram(_) => Option::Some(LibContent::Statistics),
        _ => Option::None,
    }
}

impl Plot {
    /// Every contained option and value is renderable.
    pub open spec fn renderable(self) -> bool {
        match self {
            Plot::Draw(_) => true,
            Plot::Plot2D(p) => p.renderable(),
            Plot::Histogram(h) => h.renderable(),
        }
    }

    /// Returns the required PGFPlots library for the plot.
    pub fn required_lib(&self) -> (r: Option<PgfPlotsLib>)
        ensures
            (match r {
                Option::Some(l) => plot_required_lib(self@) == Option::Some(l@),
                Option::None => plot_required_lib(self@) is None,
            }),
    {
        match self {
            Plot::Draw(_) => None,
            Plot::Plot2D(_) => None,
            Plot::Histogram(_) => Some(PgfPlotsLib::Statistics),
        }
    }

    /// Returns whether the plot is renderable; the runtime counterpart of
    /// [`Plot::renderable`].
    pub fn is_renderable(&self) -> (b: bool)
        ensures
            b == self.renderable(),
    {
        match self {
            Plot::Draw(_) => true,
            Plot::Plot2D(p) => p.is_renderable(),
            Plot::Histogram(h) => h.is_renderable(),
        }
    }

    /// Renders the plot block.
    pub fn render(&self) -> (r: String)
        requires
            self.renderable(),
        ensures
            r@ == plot_text(self@),
    {
        match self {
            Plot::Draw(d) => {
                let mut s = "\\draw ".to_owned();
                s.append(d.as_str());
                s.append(";");
                s
            },
            Plot::Plot2D(p) => p.render(),
            Plot::Histogram(h) => h.render(),
        }
    }
}

} // verus!
