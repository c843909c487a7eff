use vstd::prelude::*;

verus! {

/// Relies on std::io::Error only as an opaque value: the `IO` variant of
/// `ChangeError` carries an underlying file I/O failure through for the
/// caller to display; nothing in this crate inspects it.
#[verifier::external_type_specification]
#[verifier::external_body]
pub struct ExIoError(std::io::Error);

/// Why a lookup could not identify a unique line for a requested
/// package: no line declares it, or more than one does.
#[derive(Debug)]
pub enum FindError {
    Missing,
    OccursMany,
}

/// Why a mutating operation on the manifest failed: the declaration to
/// be introduced already exists, the requested package is missing or
/// declared more than once, or the underlying file I/O failed.
#[derive(Debug)]
pub enum ChangeError {
    AlreadyExists,
    Missing,
    OccursMany,
    IO(std::io::Error),
}

} // verus!
