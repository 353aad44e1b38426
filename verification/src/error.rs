//! What can go wrong in a session.

use vstd::prelude::*;

verus! {

/// Model of a [`PickError`].
pub enum PickErrorModel {
    FetchError(Seq<char>),
    EmptyCandidatePool,
}

/// The failures of the picking session.
#[derive(Debug, PartialEq, Eq)]
pub enum PickError {
    /// The catalog could not be fetched; the text is the client's report.
    /// The session cannot go on without a catalog.
    FetchError(String),
    /// No restaurant of the catalog is eligible under the current
    /// preferences. The session recovers by resetting them.
    EmptyCandidatePool,
}

impl View for PickError {
    type V = PickErrorModel;

    open spec fn view(&self) -> PickErrorModel {
        match self {
            PickError::FetchError(reason) => PickErrorModel::FetchError(reason@),
            PickError::EmptyCandidatePool => PickErrorModel::EmptyCandidatePool,
        }
    }
}

impl Clone for PickError {
    fn clone(&self) -> (res: Self)
        ensures
            res@ == self@,
    {
        match self {
            PickError::FetchError(reason) => PickError::FetchError(reason.clone()),
            PickError::EmptyCandidatePool => PickError::EmptyCandidatePool,
        }
    }
}

} // verus!
