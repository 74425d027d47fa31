//! The PGFPlots compatibility layer directive. A compatibility value is
//! accepted only from the fixed closed set of released versions plus the
//! `default` sentinel; anything else is rejected at the point of assignment.

use vstd::prelude::*;
use vstd::string::StringExecFns;

verus! {

/// PGFPlots compatibility errors.
#[derive(Debug, Clone)]
pub enum PgfPlotsCompatError {
    /// Compatibility version does not exist; carries the offending value.
    BadCompatVersion(String),
}

/// Whether `v` is one of the known compatibility versions.
pub open spec fn valid_version(v: Seq<char>) -> bool {
    ||| v == "1.18"@
    ||| v == "1.17"@
    ||| v == "1.16"@
    ||| v == "1.15"@
    ||| v == "1.14"@
    ||| v == "1.13"@
    ||| v == "1.12"@
    ||| v == "1.11"@
    ||| v == "1.10"@
    ||| v == "1.9"@
    ||| v == "1.8"@
    ||| v == "1.7"@
    ||| v == "1.6"@
    ||| v == "1.5.1"@
    ||| v == "1.5"@
    ||| v == "1.4"@
    ||| v == "1.3"@
    ||| v == "pre1.3"@
    ||| v == "default"@
}

/// The text of the rejection message for an invalid version `v`.
pub open spec fn compat_error_text(v: Seq<char>) -> Seq<char> {
    "pgfplots compatibility version `"@ + v
        + "` does not exists; available values are: 1.18, 1.17, 1.16, 1.15, 1.14, 1.13, 1.12, 1.11, 1.10, 1.9, 1.8, 1.7, 1.6, 1.5.1, 1.5, 1.4, 1.3, pre1.3, default"@
}

impl PgfPlotsCompatError {
    /// The human-readable description: it names the offending value and
    /// lists the accepted set.
    pub fn message(&self) -> (r: String)
        ensures
            (match self {
                PgfPlotsCompatError::BadCompatVersion(v) => r@ == compat_error_text(v@),
            }),
    {
        match self {
            PgfPlotsCompatError::BadCompatVersion(v) => {
                let mut s = "pgfplots compatibility version `".to_owned();
                s.append(v.as_str());
                s.append(
                    "` does not exists; available values are: 1.18, 1.17, 1.16, 1.15, 1.14, 1.13, 1.12, 1.11, 1.10, 1.9, 1.8, 1.7, 1.6, 1.5.1, 1.5, 1.4, 1.3, pre1.3, default",
                );
                s
            },
        }
    }
}

/// The directive `\pgfplotsset{compat=...}` carrying version `v`.
pub open spec fn compat_text(v: Seq<char>) -> Seq<char> {
    "\\pgfplotsset{compat="@ + v + "}"@
}

/// PGFPlots compatibility layer.
#[derive(Debug, Clone)]
pub struct PgfPlotsCompat {
    /// The version named in the directive; always one of the known set when
    /// built through [`PgfPlotsCompat::new`] or [`Default::default`].
    pub version: String,
}

impl Default for PgfPlotsCompat {
    /// The `default` sentinel version.
    fn default() -> (r: Self)
        ensures
            r.version@ == "default"@,
            valid_version(r.version@),
    {
        PgfPlotsCompat { version: "default".to_owned() }
    }
}

impl PgfPlotsCompat {
    /// Constructs a new [`PgfPlotsCompat`], accepting exactly the versions
    /// of the known set and rejecting every other value with an error that
    /// names it.
    pub fn new(version: &str) -> (r: Result<PgfPlotsCompat, PgfPlotsCompatError>)
        ensures
            (match r {
                Ok(c) => valid_version(version@) && c.version@ == version@,
                Err(PgfPlotsCompatError::BadCompatVersion(v)) => !valid_version(version@) && v@
                    == version@,
            }),
    {
        let ok = crate::text::str_eq(version, "1.18") || crate::text::str_eq(version, "1.17")
            || crate::text::str_eq(version, "1.16") || crate::text::str_eq(version, "1.15")
            || crate::text::str_eq(version, "1.14") || crate::text::str_eq(version, "1.13")
            || crate::text::str_eq(version, "1.12") || crate::text::str_eq(version, "1.11")
            || crate::text::str_eq(version, "1.10") || crate::text::str_eq(version, "1.9")
            || crate::text::str_eq(version, "1.8") || crate::text::str_eq(version, "1.7")
            || crate::text::str_eq(version, "1.6") || crate::text::str_eq(version, "1.5.1")
            || crate::text::str_eq(version, "1.5") || crate::text::str_eq(version, "1.4")
            || crate::text::str_eq(version, "1.3") || crate::text::str_eq(version, "pre1.3")
            || crate::text::str_eq(version, "default");
        if ok {
            Ok(PgfPlotsCompat { version: version.to_owned() })
        } else {
            Err(PgfPlotsCompatError::BadCompatVersion(version.to_owned()))
        }
    }

    /// Renders the compatibility directive.
    pub fn render(&self) -> (r: String)
        ensures
            r@ == compat_text(self.version@),
    {
        let mut s = "\\pgfplotsset{compat=".to_owned();
        s.append(self.version.as_str());
        s.append("}");
        s
    }
}

} // verus!
