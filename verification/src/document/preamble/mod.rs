//! The LaTeX document preamble: package imports, PGFPlots library imports
//! and the compatibility directive. The library list is kept free of
//! duplicates in first-seen order, and package names stay distinct.

pub mod compat;
pub mod package;
pub mod pgfplotslib;

pub use compat::{valid_version, PgfPlotsCompat, PgfPlotsCompatError};
pub use package::{Package, PackageContent};
pub use pgfplotslib::{LibContent, PgfPlotsLib};

use compat::compat_text;
use package::pkg_text;
use pgfplotslib::lib_text;
use vstd::prelude::*;
use vstd::string::StringExecFns;

verus! {

/// The contents of a sequence of libraries.
pub open spec fn libs_view(v: Seq<PgfPlotsLib>) -> Seq<LibContent> {
    v.map(|i: int, l: PgfPlotsLib| l@)
}

/// The contents of a sequence of packages.
pub open spec fn pkgs_view(v: Seq<Package>) -> Seq<PackageContent> {
    v.map(|i: int, p: Package| p@)
}

/// The mathematical content of a [`Preamble`] value.
pub ghost struct PreambleModel {
    pub pkgs: Seq<PackageContent>,
    pub libs: Seq<LibContent>,
    pub compat: Seq<char>,
}

/// No library occurs twice.
pub open spec fn libs_distinct(libs: Seq<LibContent>) -> bool {
    forall|i: int, j: int| 0 <= i < j < libs.len() ==> libs[i] != libs[j]
}

/// No two packages share a name.
pub open spec fn pkg_names_distinct(pkgs: Seq<PackageContent>) -> bool {
    forall|i: int, j: int|
        0 <= i < j < pkgs.len() ==> (#[trigger] pkgs[i]).name != (#[trigger] pkgs[j]).name
}

impl PreambleModel {
    /// The invariant of a preamble: de-duplicated libraries and distinct
    /// package names.
    pub open spec fn wf(self) -> bool {
        libs_distinct(self.libs) && pkg_names_distinct(self.pkgs)
    }
}

/// The library list after adding `l`: unchanged when `l` is already
/// present, extended at the end otherwise.
pub open spec fn spec_add_lib(libs: Seq<LibContent>, l: LibContent) -> Seq<LibContent> {
    if libs.contains(l) {
        libs
    } else {
        libs.push(l)
    }
}

/// The library list after adding each element of `add` in order.
pub open spec fn spec_add_libs(libs: Seq<LibContent>, add: Seq<LibContent>) -> Seq<LibContent>
    decreases add.len(),
{
    if add.len() == 0 {
        libs
    } else {
        spec_add_libs(spec_add_lib(libs, add[0]), add.drop_first())
    }
}

/// Whether some package of the list bears the name `n`.
pub open spec fn contains_name(pkgs: Seq<PackageContent>, n: Seq<char>) -> bool {
    exists|j: int| 0 <= j < pkgs.len() && (#[trigger] pkgs[j]).name == n
}

/// The package list after adding `p`: unchanged when its name is taken,
/// extended at the end otherwise.
pub open spec fn spec_add_pkg(pkgs: Seq<PackageContent>, p: PackageContent) -> Seq<PackageContent> {
    if contains_name(pkgs, p.name) {
        pkgs
    } else {
        pkgs.push(p)
    }
}

/// The package list after adding each element of `add` in order.
pub open spec fn spec_add_pkgs(
    pkgs: Seq<PackageContent>,
    add: Seq<PackageContent>,
) -> Seq<PackageContent>
    decreases add.len(),
{
    if add.len() == 0 {
        pkgs
    } else {
        spec_add_pkgs(spec_add_pkg(pkgs, add[0]), add.drop_first())
    }
}

/// One import line per library, each ended by a line break.
pub open spec fn lib_lines(libs: Seq<LibContent>) -> Seq<char>
    decreases libs.len(),
{
    if libs.len() == 0 {
        Seq::<char>::empty()
    } else {
        lib_lines(libs.drop_last()) + lib_text(libs.last()) + "\n"@
    }
}

/// One import line per package, each ended by a line break.
pub open spec fn pkg_lines(pkgs: Seq<PackageContent>) -> Seq<char>
    decreases pkgs.len(),
{
    if pkgs.len() == 0 {
        Seq::<char>::empty()
    } else {
        pkg_lines(pkgs.drop_last()) + pkg_text(pkgs.last()) + "\n"@
    }
}

/// The full preamble text: the document class line, the fixed `pgfplots`
/// package import, the compatibility directive, then one line per library
/// and one line per package.
pub open spec fn preamble_text(m: PreambleModel) -> Seq<char> {
    "\\documentclass{standalone}\n\\usepackage{pgfplots}\n"@ + compat_text(m.compat) + "\n"@
        + lib_lines(m.libs) + pkg_lines(m.pkgs)
}

proof fn lemma_lib_lines_push(libs: Seq<LibContent>, l: LibContent)
    ensures
        lib_lines(libs.push(l)) == lib_lines(libs) + lib_text(l) + "\n"@,
{
    assert(libs.push(l).drop_last() =~= libs);
    assert(libs.push(l).last() == l);
}

proof fn lemma_pkg_lines_push(pkgs: Seq<PackageContent>, p: PackageContent)
    ensures
        pkg_lines(pkgs.push(p)) == pkg_lines(pkgs) + pkg_text(p) + "\n"@,
{
    assert(pkgs.push(p).drop_last() =~= pkgs);
    assert(pkgs.push(p).last() == p);
}

/// Adding one library keeps the list duplicate-free and makes it hold the
/// library, while every library already present stays present.
pub proof fn lemma_add_lib_once(libs: Seq<LibContent>, l: LibContent)
    requires
        libs_distinct(libs),
    ensures
        libs_distinct(spec_add_lib(libs, l)),
        spec_add_lib(libs, l).contains(l),
        forall|x: LibContent| libs.contains(x) ==> spec_add_lib(libs, l).contains(x),
{
    if !libs.contains(l) {
        let t = libs.push(l);
        assert(t[t.len() - 1] == l);
        assert forall|x: LibContent| libs.contains(x) implies t.contains(x) by {
            let j = choose|j: int| 0 <= j < libs.len() && libs[j] == x;
            assert(t[j] == x);
        }
    }
}

/// Requirement propagation adds each required library exactly once: after
/// adding any batch of libraries to a duplicate-free list, the list is
/// still duplicate-free - so no import line is ever emitted twice - and it
/// holds every library of the batch as well as everything it held before.
pub proof fn lemma_add_libs_once(libs: Seq<LibContent>, add: Seq<LibContent>)
    requires
        libs_distinct(libs),
    ensures
        libs_distinct(spec_add_libs(libs, add)),
        forall|x: LibContent| add.contains(x) ==> spec_add_libs(libs, add).contains(x),
        forall|x: LibContent| libs.contains(x) ==> spec_add_libs(libs, add).contains(x),
    decreases add.len(),
{
    if add.len() > 0 {
        let step = spec_add_lib(libs, add[0]);
        let rest = add.drop_first();
        lemma_add_lib_once(libs, add[0]);
        lemma_add_libs_once(step, rest);
        assert(spec_add_libs(libs, add) == spec_add_libs(step, rest));
        assert forall|x: LibContent| add.contains(x) implies spec_add_libs(libs, add).contains(
            x,
        ) by {
            let j = choose|j: int| 0 <= j < add.len() && add[j] == x;
            if j == 0 {
                assert(step.contains(x));
            } else {
                assert(rest[j - 1] == x);
                assert(rest.contains(x));
            }
        }
    }
}

/// Adding a batch holds a library exactly when the base or the batch held
/// it: membership never depends on the order duplicates arrive in.
pub proof fn lemma_add_libs_contains(libs: Seq<LibContent>, add: Seq<LibContent>)
    ensures
        forall|x: LibContent|
            spec_add_libs(libs, add).contains(x) <==> libs.contains(x) || add.contains(x),
    decreases add.len(),
{
    if add.len() > 0 {
        let step = spec_add_lib(libs, add[0]);
        let rest = add.drop_first();
        lemma_add_libs_contains(step, rest);
        assert(spec_add_libs(libs, add) == spec_add_libs(step, rest));
        assert forall|x: LibContent| step.contains(x) implies libs.contains(x) || add.contains(
            x,
        ) by {
            if !libs.contains(x) {
                let j = choose|j: int| 0 <= j < step.len() && step[j] == x;
                assert(step == libs.push(add[0]));
                if j < libs.len() {
                    assert(libs[j] == x);
                } else {
                    assert(add[0] == x);
                }
            }
        }
        assert forall|x: LibContent| libs.contains(x) || add.contains(x) implies spec_add_libs(
            libs,
            add,
        ).contains(x) by {
            if libs.contains(x) {
                let j = choose|j: int| 0 <= j < libs.len() && libs[j] == x;
                if libs.contains(add[0]) {
                    assert(step.contains(x));
                } else {
                    assert(step[j] == x);
                    assert(step.contains(x));
                }
            } else {
                let j = choose|j: int| 0 <= j < add.len() && add[j] == x;
                if j == 0 {
                    if libs.contains(add[0]) {
                        assert(step.contains(x));
                    } else {
                        assert(step == libs.push(add[0]));
                        assert(step[step.len() - 1] == x);
                        assert(step.contains(x));
                    }
                } else {
                    assert(rest[j - 1] == x);
                    assert(rest.contains(x));
                }
            }
        }
    }
}

pub proof fn lemma_add_libs_push(libs: Seq<LibContent>, add: Seq<LibContent>, l: LibContent)
    ensures
        spec_add_libs(libs, add.push(l)) == spec_add_lib(spec_add_libs(libs, add), l),
    decreases add.len(),
{
    reveal_with_fuel(spec_add_libs, 3);
    if add.len() == 0 {
        assert(add.push(l)[0] == l);
        assert(add.push(l).drop_first() =~= Seq::<LibContent>::empty());
    } else {
        assert(add.push(l)[0] == add[0]);
        assert(add.push(l).drop_first() =~= add.drop_first().push(l));
        lemma_add_libs_push(spec_add_lib(libs, add[0]), add.drop_first(), l);
    }
}

/// Adding one package keeps the names distinct: a taken name leaves the
/// list unchanged, a free one only extends it.
pub proof fn lemma_add_pkg_distinct(pkgs: Seq<PackageContent>, p: PackageContent)
    requires
        pkg_names_distinct(pkgs),
    ensures
        pkg_names_distinct(spec_add_pkg(pkgs, p)),
{
    if !contains_name(pkgs, p.name) {
        let t = pkgs.push(p);
        assert forall|i: int, j: int|
            0 <= i < j < t.len() implies (#[trigger] t[i]).name != (#[trigger] t[j]).name by {
            if j == t.len() - 1 {
                assert(t[i] == pkgs[i]);
                assert(!(pkgs[i].name == p.name));
            }
        }
    }
}

/// Adding a batch of packages keeps the names distinct.
pub proof fn lemma_add_pkgs_distinct(pkgs: Seq<PackageContent>, add: Seq<PackageContent>)
    requires
        pkg_names_distinct(pkgs),
    ensures
        pkg_names_distinct(spec_add_pkgs(pkgs, add)),
    decreases add.len(),
{
    if add.len() > 0 {
        lemma_add_pkg_distinct(pkgs, add[0]);
        lemma_add_pkgs_distinct(spec_add_pkg(pkgs, add[0]), add.drop_first());
    }
}

proof fn lemma_add_pkgs_push(pkgs: Seq<PackageContent>, add: Seq<PackageContent>, p: PackageContent)
    ensures
        spec_add_pkgs(pkgs, add.push(p)) == spec_add_pkg(spec_add_pkgs(pkgs, add), p),
    decreases add.len(),
{
    reveal_with_fuel(spec_add_pkgs, 3);
    if add.len() == 0 {
        assert(add.push(p)[0] == p);
        assert(add.push(p).drop_first() =~= Seq::<PackageContent>::empty());
    } else {
        assert(add.push(p)[0] == add[0]);
        assert(add.push(p).drop_first() =~= add.drop_first().push(p));
        lemma_add_pkgs_push(spec_add_pkg(pkgs, add[0]), add.drop_first(), p);
    }
}

/// Appends the library to the list unless an equal one is already there.
pub fn push_lib_unique(libs: &mut Vec<PgfPlotsLib>, lib: PgfPlotsLib)
    ensures
        libs_view(final(libs)@) == spec_add_lib(libs_view(old(libs)@), lib@),
{
    let ghost v = libs_view(libs@);
    let mut i: usize = 0;
    while i < libs.len()
        invariant
            libs_view(libs@) == v,
            libs@.len() == v.len(),
            i <= v.len(),
            forall|j: int| 0 <= j < i ==> v[j] != lib@,
        decreases v.len() - i,
    {
        if libs[i] == lib {
            proof {
                assert(v[i as int] == lib@);
                assert(v.contains(lib@));
            }
            return ;
        }
        i = i + 1;
    }
    proof {
        assert(!v.contains(lib@));
    }
    libs.push(lib);
    proof {
        assert(libs_view(libs@) =~= v.push(lib@));
    }
}

/// LaTeX document preamble.
#[derive(Debug)]
pub struct Preamble {
    /// LaTeX packages to include in the document compilation.
    pub pkgs: Vec<Package>,
    /// PGFPlots libraries which need to be activated separately.
    pub pgflibs: Vec<PgfPlotsLib>,
    /// PGFPlots compatibility layer.
    pub pgfcompat: PgfPlotsCompat,
}

impl View for Preamble {
    type V = PreambleModel;

    open spec fn view(&self) -> PreambleModel {
        PreambleModel {
            pkgs: pkgs_view(self.pkgs@),
            libs: libs_view(self.pgflibs@),
            compat: self.pgfcompat.version@,
        }
    }
}

impl Default for Preamble {
    /// The empty preamble with the default compatibility version.
    fn default() -> (r: Self)
        ensures
            r@.pkgs.len() == 0,
            r@.libs.len() == 0,
            r@.compat == "default"@,
            r@.wf(),
    {
        let r = Preamble { pkgs: Vec::new(), pgflibs: Vec::new(), pgfcompat: Default::default() };
        proof {
            assert(r@.pkgs =~= Seq::<PackageContent>::empty());
            assert(r@.libs =~= Seq::<LibContent>::empty());
        }
        r
    }
}

impl Preamble {
    /// Constructs a new, empty [`Preamble`].
    pub fn new() -> (r: Self)
        ensures
            r@.pkgs.len() == 0,
            r@.libs.len() == 0,
            r@.compat == "default"@,
            r@.wf(),
    {
        Default::default()
    }

    /// Constructs a new [`Preamble`] with a specific PGFPlots compatibility
    /// layer version; an unknown version is rejected.
    pub fn with_pgfcompat_version(version: &str) -> (r: Result<Self, PgfPlotsCompatError>)
        ensures
            (match r {
                Ok(p) => valid_version(version@) && p@.pkgs.len() == 0 && p@.libs.len() == 0
                    && p@.compat == version@ && p@.wf(),
                Err(PgfPlotsCompatError::BadCompatVersion(v)) => !valid_version(version@) && v@
                    == version@,
            }),
    {
        match PgfPlotsCompat::new(version) {
            Ok(c) => {
                let r = Preamble { pkgs: Vec::new(), pgflibs: Vec::new(), pgfcompat: c };
                proof {
                    assert(r@.pkgs =~= Seq::<PackageContent>::empty());
                    assert(r@.libs =~= Seq::<LibContent>::empty());
                }
                Ok(r)
            },
            Err(e) => Err(e),
        }
    }

    /// Sets the PGFPlots compatibility layer.
    pub fn pgfcompat(self, pgfcompat: PgfPlotsCompat) -> (r: Self)
        ensures
            r@ == (PreambleModel { compat: pgfcompat.version@, ..self@ }),
    {
        let mut p = self;
        p.set_pgfcompat(pgfcompat);
        p
    }

    /// Sets the PGFPlots compatibility layer version; an unknown version is
    /// rejected and leaves the preamble unchanged.
    pub fn pgfcompat_version(self, version: &str) -> (r: Result<Self, PgfPlotsCompatError>)
        ensures
            (match r {
                Ok(p) => valid_version(version@) && p@ == (PreambleModel {
                    compat: version@,
                    ..self@
                }),
                Err(PgfPlotsCompatError::BadCompatVersion(v)) => !valid_version(version@) && v@
                    == version@,
            }),
    {
        match PgfPlotsCompat::new(version) {
            Ok(c) => Ok(self.pgfcompat(c)),
            Err(e) => Err(e),
        }
    }

    /// Adds a PGFPlots library to the document preamble.
    pub fn pgflib(self, lib: PgfPlotsLib) -> (r: Self)
        ensures
            r@ == (PreambleModel { libs: spec_add_lib(self@.libs, lib@), ..self@ }),
            self@.wf() ==> r@.wf(),
    {
        let mut p = self;
        p.add_pgflib(lib);
        p
    }

    /// Adds PGFPlots libraries to the document preamble.
    pub fn pgflibs(self, libs: &[PgfPlotsLib]) -> (r: Self)
        ensures
            r@ == (PreambleModel {
                libs: spec_add_libs(self@.libs, libs_view(libs@)),
                ..self@
            }),
            self@.wf() ==> r@.wf(),
    {
        let mut p = self;
        p.add_pgflibs(libs);
        p
    }

    /// Adds a LaTeX package to the document preamble.
    pub fn pkg(self, pkg: Package) -> (r: Self)
        ensures
            r@ == (PreambleModel { pkgs: spec_add_pkg(self@.pkgs, pkg@), ..self@ }),
            self@.wf() ==> r@.wf(),
    {
        let mut p = self;
        p.add_pkg(pkg);
        p
    }

    /// Adds LaTeX packages to the document preamble.
    pub fn pkgs(self, pkgs: &[Package]) -> (r: Self)
        ensures
            r@ == (PreambleModel {
                pkgs: spec_add_pkgs(self@.pkgs, pkgs_view(pkgs@)),
                ..self@
            }),
            self@.wf() ==> r@.wf(),
    {
        let mut p = self;
        p.add_pkgs(pkgs);
        p
    }

    /// Sets the PGFPlots compatibility layer.
    pub fn set_pgfcompat(&mut self, pgfcompat: PgfPlotsCompat)
        ensures
            final(self)@ == (PreambleModel { compat: pgfcompat.version@, ..old(self)@ }),
    {
        self.pgfcompat = pgfcompat;
    }

    /// Sets the PGFPlots compatibility layer version; an unknown version is
    /// rejected and leaves the preamble unchanged.
    pub fn set_pgfcompat_version(&mut self, version: &str) -> (r: Result<
        (),
        PgfPlotsCompatError,
    >)
        ensures
            (match r {
                Ok(()) => valid_version(version@) && final(self)@ == (PreambleModel {
                    compat: version@,
                    ..old(self)@
                }),
                Err(PgfPlotsCompatError::BadCompatVersion(v)) => !valid_version(version@) && v@
                    == version@ && final(self)@ == old(self)@,
            }),
    {
        match PgfPlotsCompat::new(version) {
            Ok(c) => {
                self.set_pgfcompat(c);
                Ok(())
            },
            Err(e) => Err(e),
        }
    }

    /// Adds a PGFPlots library to the document preamble, skipping it when
    /// it is already present.
    pub fn add_pgflib(&mut self, lib: PgfPlotsLib)
        ensures
            final(self)@ == (PreambleModel { libs: spec_add_lib(old(self)@.libs, lib@), ..old(self)@ }),
            old(self)@.wf() ==> final(self)@.wf(),
    {
        proof {
            if self@.wf() {
                lemma_add_lib_once(self@.libs, lib@);
            }
        }
        let ghost m = self@;
        let mut i: usize = 0;
        while i < self.pgflibs.len()
            invariant
                self@ == m,
                i <= self.pgflibs@.len(),
                forall|j: int| 0 <= j < i ==> m.libs[j] != lib@,
            decreases self.pgflibs@.len() - i,
        {
            if self.pgflibs[i] == lib {
                proof {
                    assert(m.libs[i as int] == lib@);
                    assert(m.libs.contains(lib@));
                }
                return ;
            }
            i = i + 1;
        }
        proof {
            assert(!m.libs.contains(lib@));
        }
        self.pgflibs.push(lib);
        proof {
            assert(libs_view(self.pgflibs@) =~= m.libs.push(lib@));
        }
    }

    /// Adds PGFPlots libraries to the document preamble, skipping those
    /// already present.
    pub fn add_pgflibs(&mut self, libs: &[PgfPlotsLib])
        ensures
            final(self)@ == (PreambleModel {
                libs: spec_add_libs(old(self)@.libs, libs_view(libs@)),
                ..old(self)@
            }),
            old(self)@.wf() ==> final(self)@.wf(),
    {
        proof {
            if self@.wf() {
                lemma_add_libs_once(self@.libs, libs_view(libs@));
            }
        }
        let ghost add = libs_view(libs@);
        let mut i: usize = 0;
        while i < libs.len()
            invariant
                i <= libs@.len(),
                add == libs_view(libs@),
                self@ == (PreambleModel {
                    libs: spec_add_libs(old(self)@.libs, add.take(i as int)),
                    ..old(self)@
                }),
            decreases libs@.len() - i,
        {
            self.add_pgflib(libs[i].clone());
            proof {
                assert(add.take(i + 1) =~= add.take(i as int).push(add[i as int]));
                lemma_add_libs_push(old(self)@.libs, add.take(i as int), add[i as int]);
            }
            i = i + 1;
        }
        proof {
            assert(add.take(libs@.len() as int) =~= add);
        }
    }

    /// Adds a LaTeX package to the document preamble, skipping it when a
    /// package of the same name is already present.
    pub fn add_pkg(&mut self, pkg: Package)
        ensures
            final(self)@ == (PreambleModel { pkgs: spec_add_pkg(old(self)@.pkgs, pkg@), ..old(self)@ }),
            old(self)@.wf() ==> final(self)@.wf(),
    {
        proof {
            if self@.wf() {
                lemma_add_pkg_distinct(self@.pkgs, pkg@);
            }
        }
        let ghost m = self@;
        let mut i: usize = 0;
        while i < self.pkgs.len()
            invariant
                self@ == m,
                i <= self.pkgs@.len(),
                forall|j: int| 0 <= j < i ==> (#[trigger] m.pkgs[j]).name != pkg@.name,
            decreases self.pkgs@.len() - i,
        {
            if crate::text::str_eq(self.pkgs[i].name.as_str(), pkg.name.as_str()) {
                proof {
                    assert(m.pkgs[i as int].name == pkg@.name);
                    assert(contains_name(m.pkgs, pkg@.name));
                }
                return ;
            }
            i = i + 1;
        }
        proof {
            assert(!contains_name(m.pkgs, pkg@.name));
        }
        self.pkgs.push(pkg);
        proof {
            assert(pkgs_view(self.pkgs@) =~= m.pkgs.push(pkg@));
        }
    }

    /// Adds LaTeX packages to the document preamble, skipping names already
    /// present.
    pub fn add_pkgs(&mut self, pkgs: &[Package])
        ensures
            final(self)@ == (PreambleModel {
                pkgs: spec_add_pkgs(old(self)@.pkgs, pkgs_view(pkgs@)),
                ..old(self)@
            }),
            old(self)@.wf() ==> final(self)@.wf(),
    {
        proof {
            if self@.wf() {
                lemma_add_pkgs_distinct(self@.pkgs, pkgs_view(pkgs@));
            }
        }
        let ghost add = pkgs_view(pkgs@);
        let mut i: usize = 0;
        while i < pkgs.len()
            invariant
                i <= pkgs@.len(),
                add == pkgs_view(pkgs@),
                self@ == (PreambleModel {
                    pkgs: spec_add_pkgs(old(self)@.pkgs, add.take(i as int)),
                    ..old(self)@
                }),
            decreases pkgs@.len() - i,
        {
            self.add_pkg(pkgs[i].clone());
            proof {
                assert(add.take(i + 1) =~= add.take(i as int).push(add[i as int]));
                lemma_add_pkgs_push(old(self)@.pkgs, add.take(i as int), add[i as int]);
            }
            i = i + 1;
        }
        proof {
            assert(add.take(pkgs@.len() as int) =~= add);
        }
    }

    /// Renders the whole preamble.
    pub fn render(&self) -> (r: String)
        ensures
            r@ == preamble_text(self@),
    {
        let ghost m = self@;
        let mut s = "\\documentclass{standalone}\n\\usepackage{pgfplots}\n".to_owned();
        s.append(self.pgfcompat.render().as_str());
        s.append("\n");
        let ghost head = "\\documentclass{standalone}\n\\usepackage{pgfplots}\n"@ + compat_text(
            m.compat,
        ) + "\n"@;
        let mut i: usize = 0;
        while i < self.pgflibs.len()
            invariant
                self@ == m,
                i <= self.pgflibs@.len(),
                s@ == head + lib_lines(m.libs.take(i as int)),
            decreases self.pgflibs@.len() - i,
        {
            s.append(self.pgflibs[i].render().as_str());
            s.append("\n");
            proof {
                assert(m.libs.take(i + 1) =~= m.libs.take(i as int).push(m.libs[i as int]));
                lemma_lib_lines_push(m.libs.take(i as int), m.libs[i as int]);
            }
            i = i + 1;
        }
        proof {
            assert(m.libs.take(self.pgflibs@.len() as int) =~= m.libs);
        }
        let mut i: usize = 0;
        while i < self.pkgs.len()
            invariant
                self@ == m,
                i <= self.pkgs@.len(),
                s@ == head + lib_lines(m.libs) + pkg_lines(m.pkgs.take(i as int)),
            decreases self.pkgs@.len() - i,
        {
            s.append(self.pkgs[i].render().as_str());
            s.append("\n");
            proof {
                assert(m.pkgs.take(i + 1) =~= m.pkgs.take(i as int).push(m.pkgs[i as int]));
                lemma_pkg_lines_push(m.pkgs.take(i as int), m.pkgs[i as int]);
            }
            i = i + 1;
        }
        proof {
            assert(m.pkgs.take(self.pkgs@.len() as int) =~= m.pkgs);
            assert(s@ =~= preamble_text(m));
        }
        s
    }
}

} // verus!
