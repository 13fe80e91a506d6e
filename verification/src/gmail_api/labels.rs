//! The label listing of the remote service.
use vstd::prelude::*;
use crate::types::{Label, LabelsResponse};

verus! {

/// The labels that an answer of the remote service holds; none where it
/// names none.
pub fn labels_of_response(response: LabelsResponse) -> (labels: Vec<Label>)
    ensures
        labels.deep_view() == match response.labels {
            Some(l) => l.deep_view(),
            None => Seq::empty(),
        },
{
    match response.labels {
        Some(l) => l,
        None => {
            let none: Vec<Label> = Vec::new();
            assert(none.deep_view() =~= Seq::empty());
            none
        },
    }
}

} // verus!
