//! The Ti*k*Z picture environment and its inner environments.

pub mod axis;

use crate::attr::{attr_insert, insert_attr, AttrKind};
use crate::document::preamble::{
    push_lib_unique, spec_add_libs, libs_view, LibContent, PgfPlotsLib,
};
use crate::text::option_lines;
use axis::{axis_libs, axis_text, Axis, AxisModel};
use vstd::prelude::*;
use vstd::string::StringExecFns;

verus! {

/// An environment that can be used inside a [`TikzPicture`] environment.
#[derive(Clone, Debug)]
pub enum TikzInnerEnv {
    Axis(Axis),
}

/// The mathematical content of a [`TikzInnerEnv`] value.
pub ghost enum EnvModel {
    Axis(AxisModel),
}

impl View for TikzInnerEnv {
    type V = EnvModel;

    open spec fn view(&self) -> EnvModel {
        match self {
            TikzInnerEnv::Axis(a) => EnvModel::Axis(a@),
        }
    }
}

/// The rendered block of an inner environment.
pub open spec fn env_text(m: EnvModel) -> Seq<char> {
    match m {
        EnvModel::Axis(a) => axis_text(a),
    }
}

/// The de-duplicated requirements of an inner environment.
pub open spec fn env_libs(m: EnvModel) -> Seq<LibContent> {
    match m {
        EnvModel::Axis(a) => axis_libs(a.plots),
    }
}

impl TikzInnerEnv {
    /// Every contained option and plot is renderable.
    pub open spec fn renderable(self) -> bool {
        match self {
            TikzInnerEnv::Axis(a) => a.renderable(),
        }
    }

    /// Returns the PGFPlots libraries required by the contained plots.
    pub fn required_libs(&self) -> (r: Vec<PgfPlotsLib>)
        ensures
            libs_view(r@) == env_libs(self@),
    {
        match self {
            TikzInnerEnv::Axis(a) => a.required_libs(),
        }
    }

    /// Returns whether the environment is renderable; the runtime
    /// counterpart of [`TikzInnerEnv::renderable`].
    pub fn is_renderable(&self) -> (b: bool)
        ensures
            b == self.renderable(),
    {
        match self {
            TikzInnerEnv::Axis(a) => a.is_renderable(),
        }
    }

    /// Renders the inner environment block.
    pub fn render(&self) -> (r: String)
        requires
            self.renderable(),
        ensures
            r@ == env_text(self@),
    {
        match self {
            TikzInnerEnv::Axis(a) => a.render(),
        }
    }
}

/// Ti*k*Z options passed to the [`TikzPicture`] environment. The only
/// implemented option is the free-form kind, which accumulates.
#[derive(Clone, Debug)]
#[non_exhaustive]
pub enum TikzPictureOption {
    /// Custom key-value pairs that have not been implemented. These will
    /// be appended verbatim to the options of the picture.
    Custom(String),
}

impl View for TikzPictureOption {
    type V = Seq<char>;

    /// The option's textual form.
    open spec fn view(&self) -> Seq<char> {
        match self {
            TikzPictureOption::Custom(s) => s@,
        }
    }
}

impl AttrKind for TikzPictureOption {
    open spec fn kind_spec(&self) -> u64 {
        match self {
            TikzPictureOption::Custom(_) => 0,
        }
    }

    fn kind(&self) -> (k: u64)
        ensures
            k == self.kind_spec(),
    {
        match self {
            TikzPictureOption::Custom(_) => 0,
        }
    }
}

impl TikzPictureOption {
    /// Renders the option.
    pub fn render(&self) -> (r: String)
        ensures
            r@ == self@,
    {
        match self {
            TikzPictureOption::Custom(s) => s.clone(),
        }
    }
}

/// The option texts of a picture option list.
pub open spec fn picture_opts_view(opts: Seq<TikzPictureOption>) -> Seq<Seq<char>> {
    opts.map(|i: int, o: TikzPictureOption| o@)
}

/// The mathematical content of a [`TikzPicture`] value.
pub ghost struct PictureModel {
    pub options: Seq<Seq<char>>,
    pub envs: Seq<EnvModel>,
}

/// One block per inner environment, each ended by a line break.
pub open spec fn env_lines(envs: Seq<EnvModel>) -> Seq<char>
    decreases envs.len(),
{
    if envs.len() == 0 {
        Seq::<char>::empty()
    } else {
        env_lines(envs.drop_last()) + env_text(envs.last()) + "\n"@
    }
}

pub proof fn lemma_env_lines_push(envs: Seq<EnvModel>, e: EnvModel)
    ensures
        env_lines(envs.push(e)) == env_lines(envs) + env_text(e) + "\n"@,
{
    assert(envs.push(e).drop_last() =~= envs);
    assert(envs.push(e).last() == e);
}

/// The picture environment block: the opening delimiter, the bracketed
/// option block when there are options, one inner environment per line,
/// the closing delimiter.
pub open spec fn picture_text(m: PictureModel) -> Seq<char> {
    let head = if m.options.len() == 0 {
        "\\begin{tikzpicture}"@
    } else {
        "\\begin{tikzpicture}"@ + "[\n"@ + option_lines(m.options, "\t"@) + "]"@
    };
    head + "\n"@ + env_lines(m.envs) + "\\end{tikzpicture}"@
}

/// The de-duplicated requirements of a picture: the union over its inner
/// environments, in first-seen order.
pub open spec fn picture_libs(envs: Seq<EnvModel>) -> Seq<LibContent>
    decreases envs.len(),
{
    if envs.len() == 0 {
        Seq::<LibContent>::empty()
    } else {
        spec_add_libs(picture_libs(envs.drop_last()), env_libs(envs.last()))
    }
}

pub proof fn lemma_picture_libs_push(envs: Seq<EnvModel>, e: EnvModel)
    ensures
        picture_libs(envs.push(e)) == spec_add_libs(picture_libs(envs), env_libs(e)),
{
    assert(envs.push(e).drop_last() =~= envs);
    assert(envs.push(e).last() == e);
}

/// Ti*k*Z picture environment.
///
/// ```text
/// \begin{tikzpicture}[TikzPictureOptions]
///     % inner environments
/// \end{tikzpicture}
/// ```
#[derive(Clone, Debug)]
pub struct TikzPicture {
    /// Picture options.
    pub options: Vec<TikzPictureOption>,
    /// The contained inner environments, in order.
    pub inner_env: Vec<TikzInnerEnv>,
}

impl View for TikzPicture {
    type V = PictureModel;

    open spec fn view(&self) -> PictureModel {
        PictureModel {
            options: picture_opts_view(self.options@),
            envs: self.inner_env@.map(|i: int, e: TikzInnerEnv| e@),
        }
    }
}

impl TikzPicture {
    /// Every contained option and environment is renderable.
    pub open spec fn renderable(self) -> bool {
        forall|i: int|
            0 <= i < self.inner_env@.len() ==> (#[trigger] self.inner_env@[i]).renderable()
    }

    /// Creates a new, empty picture environment.
    pub fn new() -> (r: TikzPicture)
        ensures
            r.options@ =~= Seq::<TikzPictureOption>::empty(),
            r.inner_env@ =~= Seq::<TikzInnerEnv>::empty(),
            r.renderable(),
    {
        TikzPicture { options: Vec::new(), inner_env: Vec::new() }
    }

    /// Adds an option to control the appearance of the picture, with the
    /// override rule of the crate's attribute lists.
    pub fn add_option(&mut self, option: TikzPictureOption)
        ensures
            final(self).options@ == attr_insert(old(self).options@, option),
            final(self).inner_env@ == old(self).inner_env@,
    {
        insert_attr(&mut self.options, option);
    }

    /// Returns the PGFPlots libraries required by the contained plots,
    /// de-duplicated in first-seen order.
    pub fn required_libs(&self) -> (r: Vec<PgfPlotsLib>)
        ensures
            libs_view(r@) == picture_libs(self@.envs),
    {
        let ghost envs = self@.envs;
        let mut out: Vec<PgfPlotsLib> = Vec::new();
        proof {
            assert(libs_view(out@) =~= Seq::<LibContent>::empty());
            assert(envs.take(0) =~= Seq::<EnvModel>::empty());
        }
        let mut i: usize = 0;
        while i < self.inner_env.len()
            invariant
                self@.envs == envs,
                i <= self.inner_env@.len(),
                envs.len() == self.inner_env@.len(),
                libs_view(out@) == picture_libs(envs.take(i as int)),
            decreases self.inner_env@.len() - i,
        {
            let libs = self.inner_env[i].required_libs();
            let ghost before = picture_libs(envs.take(i as int));
            let ghost add = libs_view(libs@);
            let mut j: usize = 0;
            while j < libs.len()
                invariant
                    j <= libs@.len(),
                    add == libs_view(libs@),
                    add.len() == libs@.len(),
                    libs_view(out@) == spec_add_libs(before, add.take(j as int)),
                decreases libs@.len() - j,
            {
                proof {
                    assert(add.take(j + 1) =~= add.take(j as int).push(add[j as int]));
                    crate::document::preamble::lemma_add_libs_push(
                        before,
                        add.take(j as int),
                        add[j as int],
                    );
                }
                push_lib_unique(&mut out, libs[j].clone());
                j = j + 1;
            }
            proof {
                assert(add.take(libs@.len() as int) =~= add);
                assert(envs.take(i + 1) =~= envs.take(i as int).push(envs[i as int]));
                lemma_picture_libs_push(envs.take(i as int), envs[i as int]);
            }
            i = i + 1;
        }
        proof {
            assert(envs.take(self.inner_env@.len() as int) =~= envs);
        }
        out
    }

    /// Adds a new inner environment to the picture.
    pub fn add_env(&mut self, env: TikzInnerEnv)
        ensures
            final(self).options@ == old(self).options@,
            final(self).inner_env@ == old(self).inner_env@.push(env),
            old(self).renderable() && env.renderable() ==> final(self).renderable(),
    {
        self.inner_env.push(env);
    }

    /// Adds a new axis environment to the picture.
    pub fn add_axis(&mut self, axis: Axis)
        ensures
            final(self).options@ == old(self).options@,
            final(self).inner_env@ == old(self).inner_env@.push(TikzInnerEnv::Axis(axis)),
            old(self).renderable() && axis.renderable() ==> final(self).renderable(),
    {
        self.inner_env.push(TikzInnerEnv::Axis(axis));
    }

    /// Returns whether the picture is renderable; the runtime counterpart
    /// of [`TikzPicture::renderable`].
    pub fn is_renderable(&self) -> (b: bool)
        ensures
            b == self.renderable(),
    {
        let mut i: usize = 0;
        while i < self.inner_env.len()
            invariant
                i <= self.inner_env@.len(),
                forall|j: int| 0 <= j < i ==> (#[trigger] self.inner_env@[j]).renderable(),
            decreases self.inner_env@.len() - i,
        {
            if !self.inner_env[i].is_renderable() {
                return false;
            }
            i = i + 1;
        }
        true
    }

    /// Renders the picture environment block.
    pub fn render(&self) -> (r: String)
        requires
            self.renderable(),
        ensures
            r@ == picture_text(self@),
    {
        let ghost m = self@;
        let mut s = "\\begin{tikzpicture}".to_owned();
        if self.options.len() > 0 {
            s.append("[\n");
            let mut i: usize = 0;
            while i < self.options.len()
                invariant
                    self@ == m,
                    i <= self.options@.len(),
                    s@ == "\\begin{tikzpicture}"@ + "[\n"@ + option_lines(
                        m.options.take(i as int),
                        "\t"@,
                    ),
                decreases self.options@.len() - i,
            {
                s.append("\t");
                s.append(self.options[i].render().as_str());
                s.append(",\n");
                proof {
                    assert(m.options.take(i + 1) =~= m.options.take(i as int).push(
                        m.options[i as int],
                    ));
                    crate::text::lemma_option_lines_push(
                        m.options.take(i as int),
                        "\t"@,
                        m.options[i as int],
                    );
                }
                i = i + 1;
            }
            s.append("]");
            proof {
                assert(m.options.take(self.options@.len() as int) =~= m.options);
            }
        }
        s.append("\n");
        let ghost head = (if m.options.len() == 0 {
            "\\begin{tikzpicture}"@
        } else {
            "\\begin{tikzpicture}"@ + "[\n"@ + option_lines(m.options, "\t"@) + "]"@
        }) + "\n"@;
        let mut i: usize = 0;
        while i < self.inner_env.len()
            invariant
                self@ == m,
                self.renderable(),
                i <= self.inner_env@.len(),
                s@ == head + env_lines(m.envs.take(i as int)),
            decreases self.inner_env@.len() - i,
        {
            s.append(self.inner_env[i].render().as_str());
            s.append("\n");
            proof {
                assert(m.envs.take(i + 1) =~= m.envs.take(i as int).push(m.envs[i as int]));
                lemma_env_lines_push(m.envs.take(i as int), m.envs[i as int]);
            }
            i = i + 1;
        }
        s.append("\\end{tikzpicture}");
        proof {
            assert(m.envs.take(self.inner_env@.len() as int) =~= m.envs);
            assert(s@ =~= picture_text(m));
        }
        s
    }
}

} // verus!
