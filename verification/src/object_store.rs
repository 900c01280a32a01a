//! What every object store backend shares: versions, options and errors.

use vstd::prelude::*;

verus! {

/// A token that names one version of an object. Only the backend that handed
/// it out knows what it means.
#[derive(Clone, Debug, PartialEq, Eq)]
pub struct ObjectVersion(pub String);

impl View for ObjectVersion {
    type V = Seq<char>;

    open spec fn view(&self) -> Seq<char> {
        self.0@
    }
}

/// The text of a version, if there is one.
pub open spec fn version_text(version: Option<ObjectVersion>) -> Option<Seq<char>> {
    match version {
        Some(v) => Some(v@),
        None => None,
    }
}

/// How to read an object.
#[derive(Clone, Debug)]
pub struct GetOptions {
    /// Read only this version of the object.
    pub version: Option<ObjectVersion>,
}

/// When a write may take place.
#[derive(Clone, Debug)]
pub enum PutMode {
    /// Whether the object exists or not.
    Overwrite,
    /// Only if the object does not exist.
    Create,
    /// Only if the object has this version.
    Update(ObjectVersion),
}

/// How to write an object.
#[derive(Clone, Debug)]
pub struct PutOptions {
    pub mode: PutMode,
}

impl Default for PutOptions {
    fn default() -> (options: Self)
        ensures
            options.mode == PutMode::Overwrite,
    {
        PutOptions { mode: PutMode::Overwrite }
    }
}

/// How to delete an object.
#[derive(Clone, Copy, Debug)]
pub struct DeleteOptions;

/// Why an object store request failed.
#[derive(Clone, Copy, Debug, PartialEq, Eq, Structural)]
pub enum ObjectStoreError {
    /// The client is not set up for the request.
    Configuration,
    /// The request itself failed.
    Request,
    /// The object is not in the state that the request asked for.
    Precondition,
    /// The object has not changed.
    NotModified,
    /// There is no such object or bucket.
    NotFound,
    /// The metadata of an object makes no sense.
    Metadata,
}

impl ObjectStoreError {
    /// Whether the object or bucket does not exist.
    pub fn is_not_found(&self) -> (not_found: bool)
        ensures
            not_found == (*self is NotFound),
    {
        match self {
            ObjectStoreError::NotFound => true,
            _ => false,
        }
    }
}

} // verus!
