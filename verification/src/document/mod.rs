//! The standalone LaTeX document: a preamble and a body of pictures.
//! Adding a picture automatically unions the libraries its plots require
//! into the preamble, so the preamble is always consistent with the tree.

pub mod preamble;
pub mod tikzpicture;

use preamble::{
    spec_add_lib, spec_add_libs, spec_add_pkg, spec_add_pkgs, libs_view, pkgs_view,
    preamble_text, valid_version, Package, PgfPlotsCompat, PgfPlotsCompatError, PgfPlotsLib,
    Preamble, PreambleModel,
};
use tikzpicture::{picture_libs, picture_text, PictureModel, TikzPicture};
use vstd::prelude::*;
use vstd::string::StringExecFns;

verus! {

/// The mathematical content of a [`Document`] value.
pub ghost struct DocumentModel {
    pub preamble: PreambleModel,
    pub body: Seq<PictureModel>,
}

/// The picture blocks joined by single line breaks, in body order.
pub open spec fn pictures_joined(body: Seq<PictureModel>) -> Seq<char>
    decreases body.len(),
{
    if body.len() == 0 {
        Seq::<char>::empty()
    } else if body.len() == 1 {
        picture_text(body[0])
    } else {
        pictures_joined(body.drop_last()) + "\n"@ + picture_text(body.last())
    }
}

pub proof fn lemma_pictures_joined_push(body: Seq<PictureModel>, p: PictureModel)
    requires
        body.len() > 0,
    ensures
        pictures_joined(body.push(p)) == pictures_joined(body) + "\n"@ + picture_text(p),
{
    assert(body.push(p).drop_last() =~= body);
    assert(body.push(p).last() == p);
}

/// The full standalone source: the preamble, the body delimiters, and the
/// pictures in order. Rendering is a pure function of this model alone.
pub open spec fn doc_text(m: DocumentModel) -> Seq<char> {
    preamble_text(m.preamble) + "\n\\begin{document}\n"@ + pictures_joined(m.body)
        + "\n\\end{document}"@
}

/// Rendering reads nothing outside the tree: two documents with the same
/// content render to the same text, however each was built.
pub proof fn lemma_render_pure(a: &Document, b: &Document)
    requires
        a@ == b@,
    ensures
        doc_text(a@) == doc_text(b@),
{
}

/// Rendering the same document twice, without mutation in between, yields
/// byte-identical text: both runs are pinned to the one value
/// [`doc_text`] gives the document's content.
pub proof fn lemma_render_stable(d: &Document, first: Seq<char>, second: Seq<char>)
    requires
        first == doc_text(d@),
        second == doc_text(d@),
    ensures
        first == second,
{
}

/// Standalone LaTeX document used to generate the plot.
#[derive(Debug)]
pub struct Document {
    /// LaTeX document *preamble*.
    pub preamble: Preamble,
    /// LaTeX document *body* (*pictures*).
    pub body: Vec<TikzPicture>,
}

impl View for Document {
    type V = DocumentModel;

    open spec fn view(&self) -> DocumentModel {
        DocumentModel {
            preamble: self.preamble@,
            body: self.body@.map(|i: int, p: TikzPicture| p@),
        }
    }
}

impl Default for Document {
    /// The empty document with the default compatibility version.
    fn default() -> (r: Self)
        ensures
            r@.body.len() == 0,
            r@.preamble.pkgs.len() == 0,
            r@.preamble.libs.len() == 0,
            r@.preamble.compat == "default"@,
            r@.preamble.wf(),
    {
        let r = Document { preamble: Preamble::new(), body: Vec::new() };
        proof {
            assert(r@.body =~= Seq::<PictureModel>::empty());
        }
        r
    }
}

impl Document {
    /// Every contained picture is renderable.
    pub open spec fn renderable(self) -> bool {
        forall|i: int| 0 <= i < self.body@.len() ==> (#[trigger] self.body@[i]).renderable()
    }

    /// Constructs a new empty [`Document`].
    pub fn new() -> (r: Self)
        ensures
            r@.body.len() == 0,
            r@.preamble.pkgs.len() == 0,
            r@.preamble.libs.len() == 0,
            r@.preamble.compat == "default"@,
            r@.preamble.wf(),
            r.renderable(),
    {
        Default::default()
    }

    /// Sets the PGFPlots compatibility layer.
    pub fn pgfcompat(self, pgfcompat: PgfPlotsCompat) -> (r: Self)
        ensures
            r@.preamble == (PreambleModel { compat: pgfcompat.version@, ..self@.preamble }),
            r@.body == self@.body,
    {
        let mut d = self;
        d.set_pgfcompat(pgfcompat);
        d
    }

    /// Sets the PGFPlots compatibility layer version; an unknown version
    /// is rejected.
    pub fn pgfcompat_version(self, version: &str) -> (r: Result<Self, PgfPlotsCompatError>)
        ensures
            (match r {
                Ok(d) => valid_version(version@) && d@.preamble == (PreambleModel {
                    compat: version@,
                    ..self@.preamble
                }) && d@.body == self@.body,
                Err(PgfPlotsCompatError::BadCompatVersion(v)) => !valid_version(version@) && v@
                    == version@,
            }),
    {
        let mut d = self;
        match d.set_pgfcompat_version(version) {
            Ok(()) => Ok(d),
            Err(e) => Err(e),
        }
    }

    /// Adds a PGFPlots library to the document preamble.
    pub fn pgflib(self, lib: PgfPlotsLib) -> (r: Self)
        ensures
            r@.preamble == (PreambleModel {
                libs: spec_add_lib(self@.preamble.libs, lib@),
                ..self@.preamble
            }),
            r@.body == self@.body,
            self@.preamble.wf() ==> r@.preamble.wf(),
    {
        let mut d = self;
        d.add_pgflib(lib);
        d
    }

    /// Adds PGFPlots libraries to the document preamble.
    pub fn pgflibs(self, libs: &[PgfPlotsLib]) -> (r: Self)
        ensures
            r@.preamble == (PreambleModel {
                libs: spec_add_libs(self@.preamble.libs, libs_view(libs@)),
                ..self@.preamble
            }),
            r@.body == self@.body,
            self@.preamble.wf() ==> r@.preamble.wf(),
    {
        let mut d = self;
        d.add_pgflibs(libs);
        d
    }

    /// Adds a LaTeX package to the document preamble.
    pub fn pkg(self, pkg: Package) -> (r: Self)
        ensures
            r@.preamble == (PreambleModel {
                pkgs: spec_add_pkg(self@.preamble.pkgs, pkg@),
                ..self@.preamble
            }),
            r@.body == self@.body,
            self@.preamble.wf() ==> r@.preamble.wf(),
    {
        let mut d = self;
        d.add_pkg(pkg);
        d
    }

    /// Adds LaTeX packages to the document preamble.
    pub fn pkgs(self, pkgs: &[Package]) -> (r: Self)
        ensures
            r@.preamble == (PreambleModel {
                pkgs: spec_add_pkgs(self@.preamble.pkgs, pkgs_view(pkgs@)),
                ..self@.preamble
            }),
            r@.body == self@.body,
            self@.preamble.wf() ==> r@.preamble.wf(),
    {
        let mut d = self;
        d.add_pkgs(pkgs);
        d
    }

    /// Adds a picture to the document body; see [`Document::add_picture`].
    pub fn picture(self, tikzpicture: TikzPicture) -> (r: Self)
        ensures
            r@.preamble == (PreambleModel {
                libs: spec_add_libs(self@.preamble.libs, picture_libs(tikzpicture@.envs)),
                ..self@.preamble
            }),
            r@.body == self@.body.push(tikzpicture@),
            r.body@ == self.body@.push(tikzpicture),
            self.renderable() && tikzpicture.renderable() ==> r.renderable(),
            self@.preamble.wf() ==> r@.preamble.wf(),
    {
        let mut d = self;
        d.add_picture(tikzpicture);
        d
    }

    /// Sets the PGFPlots compatibility layer.
    pub fn set_pgfcompat(&mut self, pgfcompat: PgfPlotsCompat)
        ensures
            final(self)@.preamble == (PreambleModel {
                compat: pgfcompat.version@,
                ..old(self)@.preamble
            }),
            final(self)@.body == old(self)@.body,
    {
        self.preamble.set_pgfcompat(pgfcompat);
    }

    /// Sets the PGFPlots compatibility layer version; an unknown version
    /// is rejected and leaves the document unchanged.
    pub fn set_pgfcompat_version(&mut self, version: &str) -> (r: Result<
        (),
        PgfPlotsCompatError,
    >)
        ensures
            (match r {
                Ok(()) => valid_version(version@) && final(self)@.preamble == (PreambleModel {
                    compat: version@,
                    ..old(self)@.preamble
                }) && final(self)@.body == old(self)@.body,
                Err(PgfPlotsCompatError::BadCompatVersion(v)) => !valid_version(version@) && v@
                    == version@ && final(self)@ == old(self)@,
            }),
    {
        self.preamble.set_pgfcompat_version(version)
    }

    /// Adds a PGFPlots library to the document preamble.
    pub fn add_pgflib(&mut self, lib: PgfPlotsLib)
        ensures
            final(self)@.preamble == (PreambleModel {
                libs: spec_add_lib(old(self)@.preamble.libs, lib@),
                ..old(self)@.preamble
            }),
            final(self)@.body == old(self)@.body,
            old(self)@.preamble.wf() ==> final(self)@.preamble.wf(),
    {
        self.preamble.add_pgflib(lib);
    }

    /// Adds PGFPlots libraries to the document preamble.
    pub fn add_pgflibs(&mut self, libs: &[PgfPlotsLib])
        ensures
            final(self)@.preamble == (PreambleModel {
                libs: spec_add_libs(old(self)@.preamble.libs, libs_view(libs@)),
                ..old(self)@.preamble
            }),
            final(self)@.body == old(self)@.body,
            old(self)@.preamble.wf() ==> final(self)@.preamble.wf(),
    {
        self.preamble.add_pgflibs(libs);
    }

    /// Adds a LaTeX package to the document preamble.
    pub fn add_pkg(&mut self, pkg: Package)
        ensures
            final(self)@.preamble == (PreambleModel {
                pkgs: spec_add_pkg(old(self)@.preamble.pkgs, pkg@),
                ..old(self)@.preamble
            }),
            final(self)@.body == old(self)@.body,
            old(self)@.preamble.wf() ==> final(self)@.preamble.wf(),
    {
        self.preamble.add_pkg(pkg);
    }

    /// Adds LaTeX packages to the document preamble.
    pub fn add_pkgs(&mut self, pkgs: &[Package])
        ensures
            final(self)@.preamble == (PreambleModel {
                pkgs: spec_add_pkgs(old(self)@.preamble.pkgs, pkgs_view(pkgs@)),
                ..old(self)@.preamble
            }),
            final(self)@.body == old(self)@.body,
            old(self)@.preamble.wf() ==> final(self)@.preamble.wf(),
    {
        self.preamble.add_pkgs(pkgs);
    }

    /// Adds a picture to the document body, and unions the libraries its
    /// plots require into the preamble at the moment of the mutation, so
    /// the preamble stays consistent with the tree.
    pub fn add_picture(&mut self, tikzpicture: TikzPicture)
        ensures
            final(self)@.preamble == (PreambleModel {
                libs: spec_add_libs(old(self)@.preamble.libs, picture_libs(tikzpicture@.envs)),
                ..old(self)@.preamble
            }),
            final(self)@.body == old(self)@.body.push(tikzpicture@),
            final(self).body@ == old(self).body@.push(tikzpicture),
            old(self).renderable() && tikzpicture.renderable() ==> final(self).renderable(),
            old(self)@.preamble.wf() ==> final(self)@.preamble.wf(),
    {
        let libs = tikzpicture.required_libs();
        self.preamble.add_pgflibs(libs.as_slice());
        self.body.push(tikzpicture);
        proof {
            assert(self@.body =~= old(self)@.body.push(tikzpicture@));
        }
    }

    /// Returns whether the document is renderable; the runtime
    /// counterpart of [`Document::renderable`].
    pub fn is_renderable(&self) -> (b: bool)
        ensures
            b == self.renderable(),
    {
        let mut i: usize = 0;
        while i < self.body.len()
            invariant
                i <= self.body@.len(),
                forall|j: int| 0 <= j < i ==> (#[trigger] self.body@[j]).renderable(),
            decreases self.body@.len() - i,
        {
            if !self.body[i].is_renderable() {
                return false;
            }
            i = i + 1;
        }
        true
    }

    /// Returns the standalone LaTeX source that renders the document.
    pub fn standalone_string(&self) -> (r: String)
        requires
            self.renderable(),
        ensures
            r@ == doc_text(self@),
    {
        let ghost m = self@;
        let mut s = self.preamble.render();
        s.append("\n\\begin{document}\n");
        let ghost head = preamble_text(m.preamble) + "\n\\begin{document}\n"@;
        let mut i: usize = 0;
        while i < self.body.len()
            invariant
                self@ == m,
                self.renderable(),
                i <= self.body@.len(),
                s@ == head + pictures_joined(m.body.take(i as int)),
            decreases self.body@.len() - i,
        {
            if i > 0 {
                s.append("\n");
            }
            s.append(self.body[i].render().as_str());
            proof {
                assert(m.body.take(i + 1) =~= m.body.take(i as int).push(m.body[i as int]));
                if i > 0 {
                    lemma_pictures_joined_push(m.body.take(i as int), m.body[i as int]);
                } else {
                    assert(pictures_joined(m.body.take(1)) == picture_text(m.body[0]));
                }
            }
            i = i + 1;
        }
        s.append("\n\\end{document}");
        proof {
            assert(m.body.take(self.body@.len() as int) =~= m.body);
            assert(s@ =~= doc_text(m));
        }
        s
    }
}

} // verus!
