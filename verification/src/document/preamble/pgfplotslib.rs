//! PGFPlots libraries: the optional capabilities a document can import.

use vstd::prelude::*;
use vstd::string::StringExecFns;

verus! {

/// PGFPlots library.
#[derive(Debug, Eq)]
#[non_exhaustive]
pub enum PgfPlotsLib {
    /// Custom library not yet implemented. This allows to specify pgfplots
    /// libraries not included in the enum.
    Custom(String),
    /// A library which generates small *popups* whenever one clicks into a
    /// plot.
    Clickable,
    /// A library which allows using dates as input coordinates, together
    /// with support for hours and minutes.
    DatePlot,
    /// A library which allows to export Ti*k*Z pictures into a different
    /// `.pdf` (or `.eps`).
    External,
    /// A library which allows to fill the *area between* two arbitrary
    /// named plots.
    FillBetween,
    /// A library which provides plot handlers for statistics
    /// (e.g. *histograms*, *box-plots*, etc.).
    Statistics,
    /// A library which allows to use automatic typesetting of *units* in
    /// labels.
    Units,
}

/// The mathematical content of a [`PgfPlotsLib`] value.
pub ghost enum LibContent {
    Custom(Seq<char>),
    Clickable,
    DatePlot,
    External,
    FillBetween,
    Statistics,
    Units,
}

impl View for PgfPlotsLib {
    type V = LibContent;

    open spec fn view(&self) -> LibContent {
        match self {
            PgfPlotsLib::Custom(s) => LibContent::Custom(s@),
            PgfPlotsLib::Clickable => LibContent::Clickable,
            PgfPlotsLib::DatePlot => LibContent::DatePlot,
            PgfPlotsLib::External => LibContent::External,
            PgfPlotsLib::FillBetween => LibContent::FillBetween,
            PgfPlotsLib::Statistics => LibContent::Statistics,
            PgfPlotsLib::Units => LibContent::Units,
        }
    }
}

/// The name written inside the import directive.
pub open spec fn lib_name(lib: LibContent) -> Seq<char> {
    match lib {
        LibContent::Custom(s) => s,
        LibContent::Clickable => "clickable"@,
        LibContent::DatePlot => "dateplot"@,
        LibContent::External => "external"@,
        LibContent::FillBetween => "fillbetween"@,
        LibContent::Statistics => "statistics"@,
        LibContent::Units => "units"@,
    }
}

/// The import line `\usepgfplotslibrary{name}`.
pub open spec fn lib_text(lib: LibContent) -> Seq<char> {
    "\\usepgfplotslibrary{"@ + lib_name(lib) + "}"@
}

impl Clone for PgfPlotsLib {
    /// A copy with the same content.
    fn clone(&self) -> (r: Self)
        ensures
            r@ == self@,
    {
        match self {
            PgfPlotsLib::Custom(s) => PgfPlotsLib::Custom(s.clone()),
            PgfPlotsLib::Clickable => PgfPlotsLib::Clickable,
            PgfPlotsLib::DatePlot => PgfPlotsLib::DatePlot,
            PgfPlotsLib::External => PgfPlotsLib::External,
            PgfPlotsLib::FillBetween => PgfPlotsLib::FillBetween,
            PgfPlotsLib::Statistics => PgfPlotsLib::Statistics,
            PgfPlotsLib::Units => PgfPlotsLib::Units,
        }
    }
}

impl PartialEq for PgfPlotsLib {
    /// Two libraries are equal exactly when their contents coincide.
    fn eq(&self, other: &Self) -> (r: bool)
        ensures
            r == (self@ == other@),
    {
        match (self, other) {
            (PgfPlotsLib::Custom(a), PgfPlotsLib::Custom(b)) => crate::text::str_eq(
                a.as_str(),
                b.as_str(),
            ),
            (PgfPlotsLib::Clickable, PgfPlotsLib::Clickable) => true,
            (PgfPlotsLib::DatePlot, PgfPlotsLib::DatePlot) => true,
            (PgfPlotsLib::External, PgfPlotsLib::External) => true,
            (PgfPlotsLib::FillBetween, PgfPlotsLib::FillBetween) => true,
            (PgfPlotsLib::Statistics, PgfPlotsLib::Statistics) => true,
            (PgfPlotsLib::Units, PgfPlotsLib::Units) => true,
            _ => false,
        }
    }
}

impl vstd::std_specs::cmp::PartialEqSpecImpl for PgfPlotsLib {
    open spec fn obeys_eq_spec() -> bool {
        true
    }

    open spec fn eq_spec(&self, other: &Self) -> bool {
        self@ == other@
    }
}

impl PgfPlotsLib {
    /// The custom library named `name`.
    pub fn custom(name: &str) -> (r: PgfPlotsLib)
        ensures
            r@ == LibContent::Custom(name@),
    {
        PgfPlotsLib::Custom(name.to_owned())
    }

    /// Renders the library import line.
    pub fn render(&self) -> (r: String)
        ensures
            r@ == lib_text(self@),
    {
        let mut s = "\\usepgfplotslibrary{".to_owned();
        match self {
            PgfPlotsLib::Custom(name) => s.append(name.as_str()),
            PgfPlotsLib::Clickable => s.append("clickable"),
            PgfPlotsLib::DatePlot => s.append("dateplot"),
            PgfPlotsLib::External => s.append("external"),
            PgfPlotsLib::FillBetween => s.append("fillbetween"),
            PgfPlotsLib::Statistics => s.append("statistics"),
            PgfPlotsLib::Units => s.append("units"),
        }
        s.append("}");
        s
    }
}

} // verus!
