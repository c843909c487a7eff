use vstd::prelude::*;

verus! {

/// A structured record of one state-changing action, returned by the
/// mutating operations for an external logger to display. Each variant
/// carries the package name, the version involved and the path of the
/// file being edited.
#[derive(Clone, Debug)]
pub enum LogEvent {
    Updating { package: String, version: String, file: String },
    Enabling { package: String, version: String, file: String },
    Disabling { package: String, version: String, file: String },
}

impl LogEvent {
    /// The literal text of the event, as an external logger displays it.
    pub open spec fn spec_render(self) -> Seq<char> {
        match self {
            LogEvent::Updating { package, version, file } => "Updating package "@ + package@
                + " to version "@ + version@ + " in file "@ + file@,
            LogEvent::Enabling { package, version, file } => "Enabling package "@ + package@
                + " at version "@ + version@ + " in file "@ + file@,
            LogEvent::Disabling { package, version, file } => "Disabling package "@ + package@
                + " at version "@ + version@ + " in file "@ + file@,
        }
    }

    pub fn render(&self) -> (r: String)
        ensures
            r@ == self.spec_render(),
    {
        match self {
            LogEvent::Updating { package, version, file } => {
                let mut r = "Updating package ".to_owned();
                r.append(package.as_str());
                r.append(" to version ");
                r.append(version.as_str());
                r.append(" in file ");
                r.append(file.as_str());
                proof {
                    assert(r@ =~= self.spec_render());
                }
                r
            },
            LogEvent::Enabling { package, version, file } => {
                let mut r = "Enabling package ".to_owned();
                r.append(package.as_str());
                r.append(" at version ");
                r.append(version.as_str());
                r.append(" in file ");
                r.append(file.as_str());
                proof {
                    assert(r@ =~= self.spec_render());
                }
                r
            },
            LogEvent::Disabling { package, version, file } => {
                let mut r = "Disabling package ".to_owned();
                r.append(package.as_str());
                r.append(" at version ");
                r.append(version.as_str());
                r.append(" in file ");
                r.append(file.as_str());
                proof {
                    assert(r@ =~= self.spec_render());
                }
                r
            },
        }
    }
}

} // verus!
