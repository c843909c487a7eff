use vstd::prelude::*;

use crate::log::LogEvent;
use crate::package::Package;
use crate::package::update_spec;

verus! {

/// An active declaration line: a package together with the exact literal
/// text before (`pre`) and after (`post`) the rendered declaration, kept
/// so the line can be reconstructed byte for byte.
#[derive(Clone, Debug)]
pub struct Enabled {
    pub pre: String,
    pub package: Package,
    pub post: String,
}

/// A commented-out declaration line, of the same shape as `Enabled`.
/// When it was produced by disabling an active line, `pre` holds the
/// fixed comment marker `"# "`; when parsed from a file it may hold
/// whatever text the file had.
#[derive(Clone, Debug)]
pub struct Disabled {
    pub pre: String,
    pub package: Package,
    pub post: String,
}

impl Enabled {
    /// The rendering of the line: `pre`, then the package's rendering,
    /// then `post`, concatenated exactly.
    pub open spec fn spec_render(self) -> Seq<char> {
        self.pre@ + self.package.spec_render() + self.post@
    }

    pub fn new(pre: &str, post: &str, package: Package) -> (e: Enabled)
        ensures
            e.pre@ == pre@,
            e.post@ == post@,
            e.package == package,
    {
        Enabled { pre: pre.to_owned(), post: post.to_owned(), package }
    }

    /// Turns the active declaration into a commented-out one: `pre` is
    /// forced to the comment marker `"# "`, whatever it held before;
    /// the package and `post` are carried over unchanged.
    pub fn disable(self) -> (d: Disabled)
        ensures
            d.pre@ == "# "@,
            d.package == self.package,
            d.post == self.post,
    {
        Disabled { pre: "# ".to_owned(), package: self.package, post: self.post }
    }

    /// Delegates to the contained package's `update`; `pre` and `post`
    /// are untouched.
    pub fn update(&mut self, version: &str, file: &str) -> (log: Option<LogEvent>)
        ensures
            final(self).pre == old(self).pre,
            final(self).post == old(self).post,
            update_spec(old(self).package, final(self).package, version@, file@, log),
    {
        self.package.update(version, file)
    }

    pub fn render(&self) -> (r: String)
        ensures
            r@ == self.spec_render(),
    {
        let mut r = self.pre.clone();
        let body = self.package.render();
        r.append(body.as_str());
        r.append(self.post.as_str());
        proof {
            assert(r@ =~= self.spec_render());
        }
        r
    }
}

impl Disabled {
    /// The rendering of the line: `pre`, then the package's rendering,
    /// then `post`, concatenated exactly.
    pub open spec fn spec_render(self) -> Seq<char> {
        self.pre@ + self.package.spec_render() + self.post@
    }

    pub fn new(pre: String, post: &str, package: Package) -> (d: Disabled)
        ensures
            d.pre == pre,
            d.post@ == post@,
            d.package == package,
    {
        Disabled { pre, post: post.to_owned(), package }
    }

    /// Turns the commented-out declaration into an active one: `pre` is
    /// forced to the empty string, whatever it held before — also when it
    /// was not exactly `"# "` — so enabling does not in general restore
    /// the `pre` text the line had before it was disabled. The package
    /// and `post` are carried over unchanged.
    pub fn enable(self) -> (e: Enabled)
        ensures
            e.pre@ == Seq::<char>::empty(),
            e.package == self.package,
            e.post == self.post,
    {
        Enabled { pre: String::new(), package: self.package, post: self.post }
    }

    /// Delegates to the contained package's `update`; `pre` and `post`
    /// are untouched.
    pub fn update(&mut self, version: &str, file: &str) -> (log: Option<LogEvent>)
        ensures
            final(self).pre == old(self).pre,
            final(self).post == old(self).post,
            update_spec(old(self).package, final(self).package, version@, file@, log),
    {
        self.package.update(version, file)
    }

    pub fn render(&self) -> (r: String)
        ensures
            r@ == self.spec_render(),
    {
        let mut r = self.pre.clone();
        let body = self.package.render();
        r.append(body.as_str());
        r.append(self.post.as_str());
        proof {
            assert(r@ =~= self.spec_render());
        }
        r
    }
}

/// One physical line of the manifest: an active declaration, a
/// commented-out declaration, or any other text, kept verbatim and never
/// mutated. The toggle and update operations are defined only on the two
/// declaration variants; handing them an `Ignored` line is a caller
/// error, stated as a precondition.
#[derive(Clone, Debug)]
pub enum Line {
    Enabled(Enabled),
    Disabled(Disabled),
    Ignored(String),
}

impl Line {
    /// The rendering of the active variant; an `Ignored` line renders as
    /// its stored raw text, byte for byte.
    pub open spec fn spec_render(self) -> Seq<char> {
        match self {
            Line::Enabled(e) => e.spec_render(),
            Line::Disabled(d) => d.spec_render(),
            Line::Ignored(raw) => raw@,
        }
    }

    /// Enables a disabled line, returning the new line and the log event
    /// describing the change; an already enabled line is returned
    /// unchanged, with no event.
    pub fn enable(self, package: &str, file: &str) -> (r: (Line, Option<LogEvent>))
        requires
            self !is Ignored,
        ensures
            self is Enabled ==> r.0 == self && r.1 is None,
            (self matches Line::Disabled(d) ==> {
                &&& r.0 matches Line::Enabled(e)
                &&& e.pre@ == Seq::<char>::empty()
                &&& e.package == d.package
                &&& e.post == d.post
                &&& r.1 matches Some(ev)
                &&& ev matches LogEvent::Enabling { package: p, version: v, file: f }
                &&& p@ == package@
                &&& v@ == d.package.version@
                &&& f@ == file@
            }),
    {
        match self {
            Line::Disabled(d) => {
                let ev = LogEvent::Enabling {
                    package: package.to_owned(),
                    version: d.package.version.clone(),
                    file: file.to_owned(),
                };
                (Line::Enabled(d.enable()), Some(ev))
            },
            Line::Enabled(e) => (Line::Enabled(e), None),
            Line::Ignored(_) => unreached(),
        }
    }

    /// Disables an enabled line, returning the new line and the log
    /// event describing the change; an already disabled line is returned
    /// unchanged, with no event.
    pub fn disable(self, package: &str, file: &str) -> (r: (Line, Option<LogEvent>))
        requires
            self !is Ignored,
        ensures
            self is Disabled ==> r.0 == self && r.1 is None,
            (self matches Line::Enabled(e) ==> {
                &&& r.0 matches Line::Disabled(d)
                &&& d.pre@ == "# "@
                &&& d.package == e.package
                &&& d.post == e.post
                &&& r.1 matches Some(ev)
                &&& ev matches LogEvent::Disabling { package: p, version: v, file: f }
                &&& p@ == package@
                &&& v@ == e.package.version@
                &&& f@ == file@
            }),
    {
        match self {
            Line::Enabled(e) => {
                let ev = LogEvent::Disabling {
                    package: package.to_owned(),
                    version: e.package.version.clone(),
                    file: file.to_owned(),
                };
                (Line::Disabled(e.disable()), Some(ev))
            },
            Line::Disabled(d) => (Line::Disabled(d), None),
            Line::Ignored(_) => unreached(),
        }
    }

    /// Delegates to the contained declaration's `update`; the variant
    /// and the surrounding text are untouched.
    pub fn update(&mut self, version: &str, file: &str) -> (log: Option<LogEvent>)
        requires
            *old(self) !is Ignored,
        ensures
            (*old(self) matches Line::Enabled(e) ==> {
                &&& *final(self) matches Line::Enabled(e2)
                &&& e2.pre == e.pre
                &&& e2.post == e.post
                &&& update_spec(e.package, e2.package, version@, file@, log)
            }),
            (*old(self) matches Line::Disabled(d) ==> {
                &&& *final(self) matches Line::Disabled(d2)
                &&& d2.pre == d.pre
                &&& d2.post == d.post
                &&& update_spec(d.package, d2.package, version@, file@, log)
            }),
    {
        match self {
            Line::Enabled(e) => e.update(version, file),
            Line::Disabled(d) => d.update(version, file),
            Line::Ignored(_) => unreached(),
        }
    }

    pub fn render(&self) -> (r: String)
        ensures
            r@ == self.spec_render(),
    {
        match self {
            Line::Enabled(e) => e.render(),
            Line::Disabled(d) => d.render(),
            Line::Ignored(raw) => raw.clone(),
        }
    }
}

/// The toggle asymmetry, stated once for any disable-then-enable pair:
/// if disabling the active line `e` produced the commented-out line `d`,
/// and enabling `d` produced the active line `e2`, then `e2` carries
/// `e`'s package and `post` unchanged, while its `pre` is the empty
/// string — whatever `pre` text `e` had is not restored.
pub proof fn lemma_disable_then_enable(e: Enabled, d: Disabled, e2: Enabled)
    requires
        d.pre@ == "# "@,
        d.package == e.package,
        d.post == e.post,
        e2.pre@ == Seq::<char>::empty(),
        e2.package == d.package,
        e2.post == d.post,
    ensures
        e2.package == e.package,
        e2.post == e.post,
        e2.pre@ == Seq::<char>::empty(),
{
}

} // verus!
