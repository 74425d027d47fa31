//! Two-dimensional coordinate-series plots and their options.

pub mod coordinate;

use crate::attr::{attr_insert, insert_attr, AttrKind};
use crate::decimal::Decimal;
use crate::text::option_lines;
use coordinate::{coord_text, Coordinate2D};
use vstd::prelude::*;
use vstd::string::StringExecFns;

verus! {

/// Control the type of two dimensional plots.
#[derive(Clone, Copy, Debug)]
#[non_exhaustive]
pub enum Type2D {
    /// Coordinates are simply connected by straight lines.
    SharpPlot,
    /// Interpolate smoothly between successive points; a higher `tension`
    /// results in more round curves.
    Smooth { tension: Decimal },
    /// Coordinates are connected with horizontal and vertical lines. Marks
    /// are placed to the left of each horizontal line.
    ConstLeft,
    /// Coordinates are connected with horizontal and vertical lines. Marks
    /// are placed to the right of each horizontal line.
    ConstRight,
    /// Coordinates are connected with horizontal and vertical lines. Marks
    /// are placed to the middle of each horizontal line.
    ConstMid,
    /// Variant of [`Type2D::ConstLeft`] which does not draw vertical lines.
    JumpLeft,
    /// Variant of [`Type2D::ConstRight`] which does not draw vertical
    /// lines.
    JumpRight,
    /// Variant of [`Type2D::ConstMid`] which does not draw vertical lines.
    JumpMid,
    /// Draw horizontal bars between the `y = 0` line and each coordinate.
    XBar { bar_width: Decimal, bar_shift: Decimal },
    /// Draw vertical bars between the `x = 0` line and each coordinate.
    YBar { bar_width: Decimal, bar_shift: Decimal },
    /// Similar to [`Type2D::XBar`] except that it draws a single horizontal
    /// line instead of a rectangle.
    XComb,
    /// Similar to [`Type2D::YBar`] except that it draws a single vertical
    /// line instead of a rectangle.
    YComb,
    /// Draw only markers.
    OnlyMarks,
}

/// The option text of a plot type.
pub open spec fn type2d_text(t: Type2D) -> Seq<char> {
    match t {
        Type2D::SharpPlot => "sharp plot"@,
        Type2D::Smooth { tension } => "smooth, tension="@ + tension.text(),
        Type2D::ConstLeft => "const plot mark left"@,
        Type2D::ConstRight => "const plot mark right"@,
        Type2D::ConstMid => "const plot mark mid"@,
        Type2D::JumpLeft => "jump mark left"@,
        Type2D::JumpRight => "jump mark right"@,
        Type2D::JumpMid => "jump mark mid"@,
        Type2D::XBar { bar_width, bar_shift } => "xbar, bar width="@ + bar_width.text()
            + ", bar shift="@ + bar_shift.text(),
        Type2D::YBar { bar_width, bar_shift } => "ybar, bar width="@ + bar_width.text()
            + ", bar shift="@ + bar_shift.text(),
        Type2D::XComb => "xcomb"@,
        Type2D::YComb => "ycomb"@,
        Type2D::OnlyMarks => "only marks"@,
    }
}

impl Type2D {
    /// All contained decimals are renderable.
    pub open spec fn renderable(self) -> bool {
        match self {
            Type2D::Smooth { tension } => tension.wf(),
            Type2D::XBar { bar_width, bar_shift } => bar_width.wf() && bar_shift.wf(),
            Type2D::YBar { bar_width, bar_shift } => bar_width.wf() && bar_shift.wf(),
            _ => true,
        }
    }

    /// Returns whether the plot type is renderable; the runtime
    /// counterpart of [`Type2D::renderable`].
    pub fn is_renderable(&self) -> (b: bool)
        ensures
            b == self.renderable(),
    {
        match self {
            Type2D::Smooth { tension } => tension.is_wf(),
            Type2D::XBar { bar_width, bar_shift } => bar_width.is_wf() && bar_shift.is_wf(),
            Type2D::YBar { bar_width, bar_shift } => bar_width.is_wf() && bar_shift.is_wf(),
            _ => true,
        }
    }

    /// Renders the plot type option.
    pub fn render(&self) -> (r: String)
        requires
            self.renderable(),
        ensures
            r@ == type2d_text(*self),
    {
        match self {
            Type2D::SharpPlot => "sharp plot".to_owned(),
            Type2D::Smooth { tension } => {
                let mut s = "smooth, tension=".to_owned();
                s.append(tension.render().as_str());
                s
            },
            Type2D::ConstLeft => "const plot mark left".to_owned(),
            Type2D::ConstRight => "const plot mark right".to_owned(),
            Type2D::ConstMid => "const plot mark mid".to_owned(),
            Type2D::JumpLeft => "jump mark left".to_owned(),
            Type2D::JumpRight => "jump mark right".to_owned(),
            Type2D::JumpMid => "jump mark mid".to_owned(),
            Type2D::XBar { bar_width, bar_shift } => {
                let mut s = "xbar, bar width=".to_owned();
                s.append(bar_width.render().as_str());
                s.append(", bar shift=");
                s.append(bar_shift.render().as_str());
                s
            },
            Type2D::YBar { bar_width, bar_shift } => {
                let mut s = "ybar, bar width=".to_owned();
                s.append(bar_width.render().as_str());
                s.append(", bar shift=");
                s.append(bar_shift.render().as_str());
                s
            },
            Type2D::XComb => "xcomb".to_owned(),
            Type2D::YComb => "ycomb".to_owned(),
            Type2D::OnlyMarks => "only marks".to_owned(),
        }
    }
}

/// Control the character of error bars.
#[derive(Clone, Copy, Debug)]
pub enum ErrorCharacter {
    /// The value of an error (if any) is absolute.
    Absolute,
    /// The value of an error (if any) is relative to the value of the
    /// coordinate.
    Relative,
}

/// The option text of an error character.
pub open spec fn error_character_text(e: ErrorCharacter) -> Seq<char> {
    match e {
        ErrorCharacter::Absolute => "explicit"@,
        ErrorCharacter::Relative => "explicit relative"@,
    }
}

impl ErrorCharacter {
    /// Renders the error character.
    pub fn render(&self) -> (r: String)
        ensures
            r@ == error_character_text(*self),
    {
        match self {
            ErrorCharacter::Absolute => "explicit".to_owned(),
            ErrorCharacter::Relative => "explicit relative".to_owned(),
        }
    }
}

/// Control the direction of error bars.
#[derive(Clone, Copy, Debug)]
pub enum ErrorDirection {
    /// Draws no error bars.
    Off,
    /// Draws only upper bounds in the direction of interest.
    Plus,
    /// Draws only lower bounds in the direction of interest.
    Minus,
    /// Draws upper and lower bounds in the direction of interest.
    Both,
}

/// The option text of an error direction.
pub open spec fn error_direction_text(e: ErrorDirection) -> Seq<char> {
    match e {
        ErrorDirection::Off => "none"@,
        ErrorDirection::Plus => "plus"@,
        ErrorDirection::Minus => "minus"@,
        ErrorDirection::Both => "both"@,
    }
}

impl ErrorDirection {
    /// Renders the error direction.
    pub fn render(&self) -> (r: String)
        ensures
            r@ == error_direction_text(*self),
    {
        match self {
            ErrorDirection::Off => "none".to_owned(),
            ErrorDirection::Plus => "plus".to_owned(),
            ErrorDirection::Minus => "minus".to_owned(),
            ErrorDirection::Both => "both".to_owned(),
        }
    }
}

/// PGFPlots options passed to a plot. Options of the same kind are
/// mutually exclusive; [`PlotOption::Custom`] is free-form and accumulates.
#[derive(Clone, Debug)]
#[non_exhaustive]
pub enum PlotOption {
    /// Custom key-value pairs that have not been implemented. These will be
    /// appended verbatim to the options of the `\addplot[...]` command.
    Custom(String),
    /// Control the type of two dimensional plots.
    Type2D(Type2D),
    /// Control the character (absolute or relative) of the error bars of
    /// the `x` coordinates; inert without [`PlotOption::XErrorDirection`].
    XError(ErrorCharacter),
    /// Control the direction of the error bars of the `x` coordinates;
    /// inert without [`PlotOption::XError`].
    XErrorDirection(ErrorDirection),
    /// Control the character (absolute or relative) of the error bars of
    /// the `y` coordinates; inert without [`PlotOption::YErrorDirection`].
    YError(ErrorCharacter),
    /// Control the direction of the error bars of the `y` coordinates;
    /// inert without [`PlotOption::YError`].
    YErrorDirection(ErrorDirection),
}

impl View for PlotOption {
    type V = Seq<char>;

    /// The option's textual form: its whole content for this library.
    open spec fn view(&self) -> Seq<char> {
        match self {
            PlotOption::Custom(s) => s@,
            PlotOption::Type2D(t) => type2d_text(*t),
            PlotOption::XError(e) => "error bars/x "@ + error_character_text(*e),
            PlotOption::XErrorDirection(e) => "error bars/x dir="@ + error_direction_text(*e),
            PlotOption::YError(e) => "error bars/y "@ + error_character_text(*e),
            PlotOption::YErrorDirection(e) => "error bars/y dir="@ + error_direction_text(*e),
        }
    }
}

impl AttrKind for PlotOption {
    open spec fn kind_spec(&self) -> u64 {
        match self {
            PlotOption::Custom(_) => 0,
            PlotOption::Type2D(_) => 1,
            PlotOption::XError(_) => 2,
            PlotOption::XErrorDirection(_) => 3,
            PlotOption::YError(_) => 4,
            PlotOption::YErrorDirection(_) => 5,
        }
    }

    fn kind(&self) -> (k: u64)
        ensures
            k == self.kind_spec(),
    {
        match self {
            PlotOption::Custom(_) => 0,
            PlotOption::Type2D(_) => 1,
            PlotOption::XError(_) => 2,
            PlotOption::XErrorDirection(_) => 3,
            PlotOption::YError(_) => 4,
            PlotOption::YErrorDirection(_) => 5,
        }
    }
}

impl PlotOption {
    /// All contained decimals are renderable.
    pub open spec fn renderable(self) -> bool {
        match self {
            PlotOption::Type2D(t) => t.renderable(),
            _ => true,
        }
    }

    /// Returns whether the option is renderable; the runtime counterpart
    /// of [`PlotOption::renderable`].
    pub fn is_renderable(&self) -> (b: bool)
        ensures
            b == self.renderable(),
    {
        match self {
            PlotOption::Type2D(t) => t.is_renderable(),
            _ => true,
        }
    }

    /// Renders the option.
    pub fn render(&self) -> (r: String)
        requires
            self.renderable(),
        ensures
            r@ == self@,
    {
        match self {
            PlotOption::Custom(s) => s.clone(),
            PlotOption::Type2D(t) => t.render(),
            PlotOption::XError(e) => {
                let mut s = "error bars/x ".to_owned();
                s.append(e.render().as_str());
                s
            },
            PlotOption::XErrorDirection(e) => {
                let mut s = "error bars/x dir=".to_owned();
                s.append(e.render().as_str());
                s
            },
            PlotOption::YError(e) => {
                let mut s = "error bars/y ".to_owned();
                s.append(e.render().as_str());
                s
            },
            PlotOption::YErrorDirection(e) => {
                let mut s = "error bars/y dir=".to_owned();
                s.append(e.render().as_str());
                s
            },
        }
    }
}

/// The option texts of a plot option list.
pub open spec fn plot_opts_view(opts: Seq<PlotOption>) -> Seq<Seq<char>> {
    opts.map(|i: int, o: PlotOption| o@)
}

/// The mathematical content of a [`Plot2D`] value.
pub ghost struct Plot2DModel {
    pub options: Seq<Seq<char>>,
    pub coordinates: Seq<Coordinate2D>,
}

/// One line per coordinate inside the data block.
pub open spec fn coord_lines(cs: Seq<Coordinate2D>) -> Seq<char>
    decreases cs.len(),
{
    if cs.len() == 0 {
        Seq::<char>::empty()
    } else {
        coord_lines(cs.drop_last()) + "\t\t"@ + coord_text(cs.last()) + "\n"@
    }
}

pub proof fn lemma_coord_lines_push(cs: Seq<Coordinate2D>, c: Coordinate2D)
    ensures
        coord_lines(cs.push(c)) == coord_lines(cs) + "\t\t"@ + coord_text(c) + "\n"@,
{
    assert(cs.push(c).drop_last() =~= cs);
    assert(cs.push(c).last() == c);
}

/// The `\addplot` block of a two-dimensional plot: the bracketed option
/// block (one option per line when there are any), then the coordinate
/// data block, one coordinate per line in sequence order.
pub open spec fn plot2d_text(m: Plot2DModel) -> Seq<char> {
    let head = if m.options.len() == 0 {
        "\t\\addplot["@
    } else {
        "\t\\addplot["@ + "\n"@ + option_lines(m.options, "\t\t"@) + "\t"@
    };
    head + "] coordinates {\n"@ + coord_lines(m.coordinates) + "\t};"@
}

/// Two-dimensional plot inside an axis environment.
///
/// ```text
/// \addplot[PlotOptions]
///     % coordinates;
/// ```
#[derive(Clone, Debug)]
pub struct Plot2D {
    /// Plot options; at most one per kind outside the free-form kind.
    pub options: Vec<PlotOption>,
    /// The plotted coordinates; their order is the drawn path.
    pub coordinates: Vec<Coordinate2D>,
}

impl View for Plot2D {
    type V = Plot2DModel;

    open spec fn view(&self) -> Plot2DModel {
        Plot2DModel { options: plot_opts_view(self.options@), coordinates: self.coordinates@ }
    }
}

impl Plot2D {
    /// Every option and coordinate is renderable.
    pub open spec fn renderable(self) -> bool {
        &&& forall|i: int|
            0 <= i < self.options@.len() ==> (#[trigger] self.options@[i]).renderable()
        &&& forall|i: int|
            0 <= i < self.coordinates@.len() ==> (#[trigger] self.coordinates@[i]).renderable()
    }

    /// Creates a new, empty two-dimensional plot.
    pub fn new() -> (r: Plot2D)
        ensures
            r.options@ =~= Seq::<PlotOption>::empty(),
            r.coordinates@ =~= Seq::<Coordinate2D>::empty(),
            r.renderable(),
    {
        Plot2D { options: Vec::new(), coordinates: Vec::new() }
    }

    /// Adds an option with the override rule: any previous option of the
    /// same kind is replaced, free-form options accumulate.
    pub fn option(self, option: PlotOption) -> (r: Plot2D)
        ensures
            r.options@ == attr_insert(self.options@, option),
            r.coordinates@ == self.coordinates@,
    {
        let mut p = self;
        p.add_option(option);
        p
    }

    /// Adds an option with the override rule; see [`Plot2D::option`].
    pub fn add_option(&mut self, option: PlotOption)
        ensures
            final(self).options@ == attr_insert(old(self).options@, option),
            final(self).coordinates@ == old(self).coordinates@,
            old(self).renderable() && option.renderable() ==> final(self).renderable(),
    {
        let ghost p = |x: PlotOption| x.renderable();
        insert_attr(&mut self.options, option);
        proof {
            if old(self).renderable() && option.renderable() {
                assert forall|i: int|
                    0 <= i < old(self).options@.len() implies #[trigger] p(
                    old(self).options@[i],
                ) by {}
                crate::attr::lemma_attr_insert_preserves(old(self).options@, option, p);
                assert forall|i: int|
                    0 <= i < self.options@.len() implies (#[trigger] self.options@[i]).renderable() by {
                    assert(p(self.options@[i]));
                }
            }
        }
    }

    /// Replaces the plot coordinates.
    pub fn coordinates(self, coordinates: Vec<Coordinate2D>) -> (r: Plot2D)
        ensures
            r.options@ == self.options@,
            r.coordinates@ == coordinates@,
    {
        let mut p = self;
        p.set_coordinates(coordinates);
        p
    }

    /// Appends one plot coordinate.
    pub fn coordinate(self, coordinate: Coordinate2D) -> (r: Plot2D)
        ensures
            r.options@ == self.options@,
            r.coordinates@ == self.coordinates@.push(coordinate),
    {
        let mut p = self;
        p.add_coordinate(coordinate);
        p
    }

    /// Replaces the plot coordinates.
    pub fn set_coordinates(&mut self, coordinates: Vec<Coordinate2D>)
        ensures
            final(self).options@ == old(self).options@,
            final(self).coordinates@ == coordinates@,
    {
        self.coordinates = coordinates;
    }

    /// Appends one plot coordinate.
    pub fn add_coordinate(&mut self, coordinate: Coordinate2D)
        ensures
            final(self).options@ == old(self).options@,
            final(self).coordinates@ == old(self).coordinates@.push(coordinate),
            old(self).renderable() && coordinate.renderable() ==> final(self).renderable(),
    {
        self.coordinates.push(coordinate);
    }

    /// Returns whether the plot is renderable; the runtime counterpart of
    /// [`Plot2D::renderable`].
    pub fn is_renderable(&self) -> (b: bool)
        ensures
            b == self.renderable(),
    {
        let mut i: usize = 0;
        while i < self.options.len()
            invariant
                i <= self.options@.len(),
                forall|j: int| 0 <= j < i ==> (#[trigger] self.options@[j]).renderable(),
            decreases self.options@.len() - i,
        {
            if !self.options[i].is_renderable() {
                return false;
            }
            i = i + 1;
        }
        let mut i: usize = 0;
        while i < self.coordinates.len()
            invariant
                i <= self.coordinates@.len(),
                forall|j: int| 0 <= j < self.options@.len() ==> (#[trigger] self.options@[j]).renderable(),
                forall|j: int| 0 <= j < i ==> (#[trigger] self.coordinates@[j]).renderable(),
            decreases self.coordinates@.len() - i,
        {
            if !self.coordinates[i].is_renderable() {
                return false;
            }
            i = i + 1;
        }
        true
    }

    /// Renders the `\addplot` block.
    pub fn render(&self) -> (r: String)
        requires
            self.renderable(),
        ensures
            r@ == plot2d_text(self@),
    {
        let ghost m = self@;
        let mut s = "\t\\addplot[".to_owned();
        if self.options.len() > 0 {
            s.append("\n");
            let mut i: usize = 0;
            while i < self.options.len()
                invariant
                    self@ == m,
                    self.renderable(),
                    i <= self.options@.len(),
                    s@ == "\t\\addplot["@ + "\n"@ + option_lines(m.options.take(i as int), "\t\t"@),
                decreases self.options@.len() - i,
            {
                s.append("\t\t");
                s.append(self.options[i].render().as_str());
                s.append(",\n");
                proof {
                    assert(m.options.take(i + 1) =~= m.options.take(i as int).push(
                        m.options[i as int],
                    ));
                    crate::text::lemma_option_lines_push(
                        m.options.take(i as int),
                        "\t\t"@,
                        m.options[i as int],
                    );
                }
                i = i + 1;
            }
            s.append("\t");
            proof {
                assert(m.options.take(self.options@.len() as int) =~= m.options);
            }
        }
        s.append("] coordinates {\n");
        let mut i: usize = 0;
        while i < self.coordinates.len()
            invariant
                self@ == m,
                self.renderable(),
                i <= self.coordinates@.len(),
                s@ == (if m.options.len() == 0 {
                    "\t\\addplot["@
                } else {
                    "\t\\addplot["@ + "\n"@ + option_lines(m.options, "\t\t"@) + "\t"@
                }) + "] coordinates {\n"@ + coord_lines(m.coordinates.take(i as int)),
            decreases self.coordinates@.len() - i,
        {
            s.append("\t\t");
            s.append(self.coordinates[i].render().as_str());
            s.append("\n");
            proof {
                assert(m.coordinates.take(i + 1) =~= m.coordinates.take(i as int).push(
                    m.coordinates[i as int],
                ));
                lemma_coord_lines_push(m.coordinates.take(i as int), m.coordinates[i as int]);
            }
            i = i + 1;
        }
        s.append("\t};");
        proof {
            assert(m.coordinates.take(self.coordinates@.len() as int) =~= m.coordinates);
            assert(s@ =~= plot2d_text(m));
        }
        s
    }
}

} // verus!
