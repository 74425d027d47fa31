//! Coordinates of two-dimensional plots.

use crate::decimal::Decimal;
use vstd::prelude::*;
use vstd::string::StringExecFns;

verus! {

/// Coordinate in a two-dimensional plot.
#[derive(Clone, Copy, Debug)]
#[non_exhaustive]
pub struct Coordinate2D {
    pub x: Decimal,
    pub y: Decimal,
    /// Error bars are only drawn if the owning plot also sets both an error
    /// character and an error direction for this axis; the magnitude alone
    /// is inert.
    pub error_x: Option<Decimal>,
    /// See [`Coordinate2D::error_x`].
    pub error_y: Option<Decimal>,
}

/// The error magnitude to print: the stored one, or zero when unset.
pub open spec fn error_or_zero(e: Option<Decimal>) -> Decimal {
    match e {
        Option::Some(d) => d,
        Option::None => Decimal { neg: false, mant: 0, scale: 0 },
    }
}

/// The coordinate line `(x,y)`, with the suffix `\t+- (ex,ey)` exactly when
/// at least one error magnitude is present (a missing one prints as zero).
pub open spec fn coord_text(c: Coordinate2D) -> Seq<char> {
    let pair = "("@ + c.x.text() + ","@ + c.y.text() + ")"@;
    if c.error_x is Some || c.error_y is Some {
        pair + "\t+- ("@ + error_or_zero(c.error_x).text() + ","@ + error_or_zero(
            c.error_y,
        ).text() + ")"@
    } else {
        pair
    }
}

impl Coordinate2D {
    /// All contained decimals are renderable.
    pub open spec fn renderable(self) -> bool {
        &&& self.x.wf()
        &&& self.y.wf()
        &&& (self.error_x matches Option::Some(d) ==> d.wf())
        &&& (self.error_y matches Option::Some(d) ==> d.wf())
    }

    /// The coordinate `(x, y)` without error magnitudes.
    pub fn new(x: Decimal, y: Decimal) -> (r: Coordinate2D)
        ensures
            r == (Coordinate2D { x, y, error_x: Option::None, error_y: Option::None }),
    {
        Coordinate2D { x, y, error_x: None, error_y: None }
    }

    /// The coordinate `(x, y)` with optional asymmetric error magnitudes.
    pub fn with_errors(x: Decimal, y: Decimal, error_x: Option<Decimal>, error_y: Option<
        Decimal,
    >) -> (r: Coordinate2D)
        ensures
            r == (Coordinate2D { x, y, error_x, error_y }),
    {
        Coordinate2D { x, y, error_x, error_y }
    }

    /// Returns whether the coordinate is renderable; the runtime
    /// counterpart of [`Coordinate2D::renderable`].
    pub fn is_renderable(&self) -> (b: bool)
        ensures
            b == self.renderable(),
    {
        self.x.is_wf() && self.y.is_wf() && (match &self.error_x {
            Some(d) => d.is_wf(),
            None => true,
        }) && (match &self.error_y {
            Some(d) => d.is_wf(),
            None => true,
        })
    }

    /// Renders the coordinate line.
    pub fn render(&self) -> (r: String)
        requires
            self.renderable(),
        ensures
            r@ == coord_text(*self),
    {
        let mut s = "(".to_owned();
        s.append(self.x.render().as_str());
        s.append(",");
        s.append(self.y.render().as_str());
        s.append(")");
        if self.error_x.is_some() || self.error_y.is_some() {
            let ex = match self.error_x {
                Some(d) => d,
                None => Decimal { neg: false, mant: 0, scale: 0 },
            };
            let ey = match self.error_y {
                Some(d) => d,
                None => Decimal { neg: false, mant: 0, scale: 0 },
            };
            s.append("\t+- (");
            s.append(ex.render().as_str());
            s.append(",");
            s.append(ey.render().as_str());
            s.append(")");
        }
        proof {
            assert(s@ =~= coord_text(*self));
        }
        s
    }
}

} // verus!
