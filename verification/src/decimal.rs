//! A decimal numeral: the numeric value type carried by coordinates, axis
//! limits and histogram controls, together with its deterministic textual
//! form. A value is a sign, an integer mantissa and a power-of-ten scale:
//! the value `mant / 10^scale`, negated when `neg` is set. Rendering never
//! depends on platform formatting defaults.

use crate::text::{dec_digits, frac_digits, join_seq, pow10, pow10_u64, render_frac, render_u64};
use vstd::prelude::*;
use vstd::string::StringExecFns;

verus! {

/// A decimal number `(-1)^neg * mant / 10^scale`.
#[derive(Clone, Copy, Debug)]
pub struct Decimal {
    /// Whether the value is negative.
    pub neg: bool,
    /// The mantissa: all decimal digits of the value.
    pub mant: u64,
    /// How many of the mantissa's trailing digits lie behind the decimal
    /// point. Zero for whole numbers.
    pub scale: u32,
}

impl Decimal {
    /// A scale small enough that `10^scale` fits a machine word.
    pub open spec fn wf(self) -> bool {
        self.scale <= 19
    }

    /// The canonical form rendered by [`Decimal::render`]: no trailing zero
    /// behind the decimal point, and zero is unsigned and unscaled.
    pub open spec fn canonical(self) -> bool {
        &&& self.wf()
        &&& (self.scale > 0 ==> self.mant % 10 != 0)
        &&& (self.mant == 0 ==> self.scale == 0 && !self.neg)
    }

    /// The textual form of the value: an optional minus sign, the integer
    /// digits, and - when the scale is positive - a point followed by
    /// exactly `scale` fractional digits.
    pub open spec fn text(self) -> Seq<char> {
        let sign = if self.neg {
            seq!['-']
        } else {
            Seq::<char>::empty()
        };
        if self.scale == 0 {
            sign + dec_digits(self.mant as nat)
        } else {
            sign + dec_digits(self.mant as nat / pow10(self.scale as nat)) + seq!['.']
                + frac_digits(self.mant as nat, self.scale as nat)
        }
    }

    /// The normal form of given parts: trailing fractional zeros dropped,
    /// and zero reduced to plain unsigned `0`.
    pub open spec fn normalized(neg: bool, mant: u64, scale: u32) -> Decimal
        decreases scale,
    {
        if mant == 0 {
            Decimal { neg: false, mant: 0, scale: 0 }
        } else if scale > 0 && mant % 10 == 0 {
            Self::normalized(neg, mant / 10, (scale - 1) as u32)
        } else {
            Decimal { neg, mant, scale }
        }
    }

    /// Builds the canonical decimal with value `(-1)^neg * mant / 10^scale`.
    pub fn new(neg: bool, mant: u64, scale: u32) -> (r: Decimal)
        requires
            scale <= 19,
        ensures
            r == Self::normalized(neg, mant, scale),
            r.canonical(),
    {
        let mut m = mant;
        let mut s = scale;
        while s > 0 && m % 10 == 0 && m > 0
            invariant
                s <= 19,
                Self::normalized(neg, m, s) == Self::normalized(neg, mant, scale),
            decreases s,
        {
            m = m / 10;
            s = s - 1;
        }
        proof {
            lemma_normalized_canonical(neg, m, s);
        }
        if m == 0 {
            Decimal { neg: false, mant: 0, scale: 0 }
        } else {
            Decimal { neg, mant: m, scale: s }
        }
    }

    /// The whole number `v`.
    pub fn from_int(v: i64) -> (r: Decimal)
        ensures
            r == Self::normalized(v < 0, (if v < 0 { -(v as int) } else { v as int }) as u64, 0),
            r.canonical(),
    {
        if v >= 0 {
            Self::new(false, v as u64, 0)
        } else {
            let magnitude: u64 = ((-(v + 1)) as u64) + 1;
            proof {
                assert(magnitude as int == -(v as int));
            }
            Self::new(true, magnitude, 0)
        }
    }

    /// Returns whether the value is renderable; the runtime counterpart
    /// of [`Decimal::wf`].
    pub fn is_wf(&self) -> (b: bool)
        ensures
            b == self.wf(),
    {
        self.scale <= 19
    }

    /// Renders the value as decimal text.
    pub fn render(&self) -> (r: String)
        requires
            self.wf(),
        ensures
            r@ == self.text(),
    {
        let mut s = if self.neg {
            let r = "-".to_owned();
            proof {
                reveal_strlit("-");
            }
            r
        } else {
            String::new()
        };
        if self.scale == 0 {
            s.append(render_u64(self.mant).as_str());
        } else {
            let p = pow10_u64(self.scale);
            proof {
                crate::text::lemma_pow10_grows(0, self.scale as nat);
            }
            s.append(render_u64(self.mant / p).as_str());
            s.append(".");
            s.append(render_frac(self.mant, self.scale).as_str());
            proof {
                reveal_strlit(".");
            }
        }
        proof {
            assert(s@ =~= self.text());
        }
        s
    }
}

proof fn lemma_normalized_canonical(neg: bool, mant: u64, scale: u32)
    requires
        scale <= 19,
        !(scale > 0 && mant % 10 == 0 && mant > 0),
    ensures
        Decimal::normalized(neg, mant, scale) == (if mant == 0 {
            Decimal { neg: false, mant: 0, scale: 0 }
        } else {
            Decimal { neg, mant, scale }
        }),
        Decimal::normalized(neg, mant, scale).canonical(),
    decreases scale,
{
    if mant == 0 && scale > 0 {
        lemma_normalized_canonical(neg, mant, (scale - 1) as u32);
    }
}

/// The texts of a sequence of decimals, joined by `", "`.
pub open spec fn decimals_joined(values: Seq<Decimal>) -> Seq<char> {
    join_seq(values.map(|i: int, d: Decimal| d.text()), seq![',', ' '])
}

/// Renders each value and joins them with `", "`.
pub fn render_decimals_joined(values: &Vec<Decimal>) -> (r: String)
    requires
        forall|i: int| 0 <= i < values@.len() ==> (#[trigger] values@[i]).wf(),
    ensures
        r@ == decimals_joined(values@),
{
    let mut parts: Vec<String> = Vec::new();
    let mut i: usize = 0;
    while i < values.len()
        invariant
            i <= values@.len(),
            parts@.len() == i,
            forall|j: int| 0 <= j < values@.len() ==> (#[trigger] values@[j]).wf(),
            forall|j: int| 0 <= j < i ==> (#[trigger] parts@[j])@ == values@[j].text(),
        decreases values@.len() - i,
    {
        parts.push(values[i].render());
        i = i + 1;
    }
    let r = crate::text::join_with(&parts, ", ");
    proof {
        reveal_strlit(", ");
        assert(parts@.map(|i: int, p: String| p@) =~= values@.map(|i: int, d: Decimal| d.text()));
        assert(", "@ =~= seq![',', ' ']);
    }
    r
}

} // verus!
