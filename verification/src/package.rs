use vstd::prelude::*;

use crate::log::LogEvent;

verus! {

/// One dependency declaration: a package name at a version. The name is
/// an opaque identifier and never changes after creation; only the
/// version may be updated, by exact string replacement.
#[derive(Clone, Debug)]
pub struct Package {
    pub name: String,
    pub version: String,
}

/// How one call of `update` with the given version and file path relates
/// the package before (`pre`) and after (`post`) the call to the log
/// event it returned: when the version already matches, nothing changes
/// and no event is emitted; otherwise the version becomes the given one,
/// the name is kept, and exactly one `Updating` event is emitted.
pub open spec fn update_spec(
    pre: Package,
    post: Package,
    version: Seq<char>,
    file: Seq<char>,
    log: Option<LogEvent>,
) -> bool {
    if pre.version@ == version {
        post == pre && log is None
    } else {
        &&& post.name == pre.name
        &&& post.version@ == version
        &&& log matches Some(ev)
        &&& ev matches LogEvent::Updating { package, version: v, file: f }
        &&& package@ == pre.name@
        &&& v@ == version
        &&& f@ == file
    }
}

impl Package {
    /// The textual rendering of a declaration: the name, then ` = `,
    /// then the version in double quotes.
    pub open spec fn spec_render(self) -> Seq<char> {
        self.name@ + " = \""@ + self.version@ + "\""@
    }

    pub fn new(name: &str, version: &str) -> (p: Package)
        ensures
            p.name@ == name@,
            p.version@ == version@,
    {
        Package { name: name.to_owned(), version: version.to_owned() }
    }

    /// Sets the version to `version` unless it already is `version`, and
    /// returns the log event describing the change, if any.
    pub fn update(&mut self, version: &str, file: &str) -> (log: Option<LogEvent>)
        ensures
            update_spec(*old(self), *final(self), version@, file@, log),
    {
        let v = version.to_owned();
        if self.version == v {
            None
        } else {
            self.version = v;
            Some(
                LogEvent::Updating {
                    package: self.name.clone(),
                    version: version.to_owned(),
                    file: file.to_owned(),
                },
            )
        }
    }

    pub fn render(&self) -> (r: String)
        ensures
            r@ == self.spec_render(),
    {
        let mut r = self.name.clone();
        r.append(" = \"");
        r.append(self.version.as_str());
        r.append("\"");
        proof {
            assert(r@ =~= self.spec_render());
        }
        r
    }
}

} // verus!
