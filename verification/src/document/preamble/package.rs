//! LaTeX package imports of the document preamble.

use crate::text::{join_seq, render_strings_joined, strings_view};
use vstd::prelude::*;
use vstd::string::StringExecFns;

verus! {

/// The import line for a package: `\usepackage{name}` followed, when there
/// are options, by the bracketed option list joined with `", "`.
pub open spec fn package_text(name: Seq<char>, options: Seq<Seq<char>>) -> Seq<char> {
    let head = "\\usepackage{"@ + name + "}"@;
    if options.len() == 0 {
        head
    } else {
        head + "["@ + join_seq(options, seq![',', ' ']) + "]"@
    }
}

/// LaTeX package used to compile the standalone document.
///
/// ```text
/// \usepackage{name}[options]
/// ```
#[derive(Debug)]
pub struct Package {
    /// LaTeX package name.
    pub name: String,
    /// LaTeX package options, in insertion order.
    pub options: Vec<String>,
}

/// The mathematical content of a [`Package`] value.
pub ghost struct PackageContent {
    pub name: Seq<char>,
    pub options: Seq<Seq<char>>,
}

impl View for Package {
    type V = PackageContent;

    open spec fn view(&self) -> PackageContent {
        PackageContent { name: self.name@, options: strings_view(self.options@) }
    }
}

/// The import line of a package.
pub open spec fn pkg_text(p: PackageContent) -> Seq<char> {
    package_text(p.name, p.options)
}

impl Clone for Package {
    /// A copy with the same name and options.
    fn clone(&self) -> (r: Self)
        ensures
            r.name@ == self.name@,
            strings_view(r.options@) == strings_view(self.options@),
    {
        let mut options: Vec<String> = Vec::new();
        let mut i: usize = 0;
        while i < self.options.len()
            invariant
                i <= self.options@.len(),
                options@.len() == i,
                forall|j: int| 0 <= j < i ==> (#[trigger] options@[j])@ == self.options@[j]@,
            decreases self.options@.len() - i,
        {
            options.push(self.options[i].clone());
            i = i + 1;
        }
        let r = Package { name: self.name.clone(), options };
        proof {
            assert(strings_view(r.options@) =~= strings_view(self.options@));
        }
        r
    }
}

impl Package {
    /// Constructs a new [`Package`] from its name and options.
    pub fn new(name: &str, options: &[&str]) -> (r: Package)
        ensures
            r.name@ == name@,
            strings_view(r.options@) == options@.map(|i: int, s: &str| s@),
    {
        let mut opts: Vec<String> = Vec::new();
        let mut i: usize = 0;
        while i < options.len()
            invariant
                i <= options@.len(),
                opts@.len() == i,
                forall|j: int| 0 <= j < i ==> (#[trigger] opts@[j])@ == options@[j]@,
            decreases options@.len() - i,
        {
            opts.push(options[i].to_owned());
            i = i + 1;
        }
        let r = Package { name: name.to_owned(), options: opts };
        proof {
            assert(strings_view(r.options@) =~= options@.map(|i: int, s: &str| s@));
        }
        r
    }

    /// Adds an option to the package import.
    pub fn add_option(&mut self, option: &str)
        ensures
            final(self).name == old(self).name,
            strings_view(final(self).options@) == strings_view(old(self).options@).push(option@),
    {
        self.options.push(option.to_owned());
        proof {
            assert(strings_view(self.options@) =~= strings_view(old(self).options@).push(option@));
        }
    }

    /// Renders the package import line.
    pub fn render(&self) -> (r: String)
        ensures
            r@ == package_text(self.name@, strings_view(self.options@)),
    {
        let mut s = "\\usepackage{".to_owned();
        s.append(self.name.as_str());
        s.append("}");
        if self.options.len() > 0 {
            s.append("[");
            s.append(render_strings_joined(&self.options).as_str());
            s.append("]");
        }
        s
    }
}

} // verus!
