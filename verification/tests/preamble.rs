use pgfplots::document::preamble::{Package, PgfPlotsCompat, PgfPlotsCompatError, PgfPlotsLib, Preamble};

#[test]
fn compat_error() {
    assert!(PgfPlotsCompat::new("3.0").is_err());
    assert!(PgfPlotsCompat::new("1.18").is_ok());
    assert!(PgfPlotsCompat::new("default").is_ok());
}

#[test]
fn display() {
    assert_eq!(
        r#"\pgfplotsset{compat=default}"#,
        PgfPlotsCompat::default().render()
    );
    assert_eq!(
        r#"\pgfplotsset{compat=1.18}"#,
        PgfPlotsCompat::new("1.18").unwrap().render()
    );
}

#[test]
fn preamble() {
    let preamble = Preamble::new()
        .pkg(Package::new("babel", &["italian"]))
        .pkg(Package::new("braket", &[]));
    assert_eq!(
        r#"\documentclass{standalone}
\usepackage{pgfplots}
\pgfplotsset{compat=default}
\usepackage{babel}[italian]
\usepackage{braket}
"#,
        preamble.render()
    );
}

#[test]
fn package() {
    let package = Package::new("babel", &["italian"]);
    assert_eq!("\\usepackage{babel}[italian]", package.render());

    let mut package = Package::new("babel", &[]);
    assert_eq!("\\usepackage{babel}", package.render());

    package.add_option("italian");
    assert_eq!("\\usepackage{babel}[italian]", package.render());

    package.add_option("english");
    assert_eq!("\\usepackage{babel}[italian, english]", package.render());
}

#[test]
fn pgfplotslib() {
    assert_eq!(
        "\\usepgfplotslibrary{polar}",
        PgfPlotsLib::custom("polar").render()
    );
    assert_eq!("\\usepgfplotslibrary{units}", PgfPlotsLib::Units.render());
    assert_eq!(
        "\\usepgfplotslibrary{statistics}",
        PgfPlotsLib::Statistics.render()
    );
}

#[test]
fn compat_rejection_names_value_and_set() {
    let err = PgfPlotsCompat::new("3.0").unwrap_err();
    let PgfPlotsCompatError::BadCompatVersion(v) = &err;
    assert_eq!("3.0", v.as_str());
    assert_eq!(
        "pgfplots compatibility version `3.0` does not exists; available values are: \
         1.18, 1.17, 1.16, 1.15, 1.14, 1.13, 1.12, 1.11, 1.10, 1.9, 1.8, 1.7, 1.6, \
         1.5.1, 1.5, 1.4, 1.3, pre1.3, default",
        err.message()
    );
}

#[test]
fn compat_round_trips_accepted_values() {
    for version in [
        "1.18", "1.17", "1.16", "1.15", "1.14", "1.13", "1.12", "1.11", "1.10", "1.9", "1.8",
        "1.7", "1.6", "1.5.1", "1.5", "1.4", "1.3", "pre1.3", "default",
    ] {
        let compat = PgfPlotsCompat::new(version).unwrap();
        assert_eq!(format!("\\pgfplotsset{{compat={version}}}"), compat.render());
    }
}

#[test]
fn library_list_stays_distinct() {
    let mut preamble = Preamble::new();
    preamble.add_pgflib(PgfPlotsLib::Statistics);
    preamble.add_pgflib(PgfPlotsLib::Units);
    preamble.add_pgflib(PgfPlotsLib::Statistics);
    let rendered = preamble.render();
    assert_eq!(1, rendered.matches("\\usepgfplotslibrary{statistics}").count());
    assert_eq!(1, rendered.matches("\\usepgfplotslibrary{units}").count());
}

#[test]
fn package_names_stay_distinct() {
    let mut preamble = Preamble::new();
    preamble.add_pkg(Package::new("babel", &["italian"]));
    preamble.add_pkg(Package::new("babel", &["english"]));
    let rendered = preamble.render();
    assert_eq!(1, rendered.matches("\\usepackage{babel}").count());
    assert!(rendered.contains("\\usepackage{babel}[italian]"));
}
