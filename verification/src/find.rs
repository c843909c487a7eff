use vstd::prelude::*;

use crate::errors::FindError;
use crate::line::Line;

verus! {

/// Whether the line declares the package of the given name: it is an
/// active or a commented-out declaration whose package name matches
/// exactly. Irrelevant text declares nothing.
pub open spec fn line_declares(l: Line, name: Seq<char>) -> bool {
    match l {
        Line::Enabled(e) => e.package.name@ == name,
        Line::Disabled(d) => d.package.name@ == name,
        Line::Ignored(_) => false,
    }
}

/// Finds the one line among `lines` that declares the package named
/// `name`, returning its index. When no line declares it the lookup
/// reports `Missing`; when more than one does it reports `OccursMany`,
/// so that no mutation is applied to an ambiguous target.
pub fn find_package(lines: &Vec<Line>, name: &str) -> (r: Result<usize, FindError>)
    ensures
        (r matches Ok(i) ==> {
            &&& i < lines@.len()
            &&& line_declares(lines@[i as int], name@)
            &&& forall|j: int|
                0 <= j < lines@.len() && j != i ==> !line_declares(lines@[j], name@)
        }),
        r == Err::<usize, FindError>(FindError::Missing) <==> (forall|j: int|
            0 <= j < lines@.len() ==> !line_declares(lines@[j], name@)),
        r == Err::<usize, FindError>(FindError::OccursMany) <==> (exists|j: int, k: int|
            0 <= j < k < lines@.len() && line_declares(lines@[j], name@) && line_declares(
                lines@[k],
                name@,
            )),
        r is Ok <==> ((exists|j: int| 0 <= j < lines@.len() && line_declares(lines@[j], name@))
            && !(exists|j: int, k: int|
            0 <= j < k < lines@.len() && line_declares(lines@[j], name@) && line_declares(
                lines@[k],
                name@,
            ))),
{
    let target = name.to_owned();
    let mut found: Option<usize> = None;
    let mut i: usize = 0;
    while i < lines.len()
        invariant
            i <= lines@.len(),
            target@ == name@,
            (found matches Some(k) ==> {
                &&& k < i
                &&& line_declares(lines@[k as int], name@)
                &&& forall|j: int| 0 <= j < i && j != k ==> !line_declares(lines@[j], name@)
            }),
            found is None ==> (forall|j: int| 0 <= j < i ==> !line_declares(lines@[j], name@)),
        decreases lines@.len() - i,
    {
        let declares = match &lines[i] {
            Line::Enabled(e) => e.package.name == target,
            Line::Disabled(d) => d.package.name == target,
            Line::Ignored(_) => false,
        };
        if declares {
            match found {
                Some(k) => {
                    return Err(FindError::OccursMany);
                },
                None => {
                    found = Some(i);
                },
            }
        }
        i = i + 1;
    }
    match found {
        Some(k) => Ok(k),
        None => Err(FindError::Missing),
    }
}

} // verus!
