//! The slice of the work-item data model this core consumes: identifiers
//! for batches and items, and a reference to the item in flight.

use vstd::prelude::*;
use url::Url;

verus! {

/// Identifier of a batch of work, rendered verbatim.
pub struct BatchId(pub String);

impl View for BatchId {
    type V = Seq<char>;

    open spec fn view(&self) -> Seq<char> {
        self.0@
    }
}

impl Clone for BatchId {
    fn clone(&self) -> (r: Self)
        ensures
            r == *self,
    {
        BatchId(self.0.clone())
    }
}

/// Identifier of one work item within a batch.
#[derive(Clone, Copy, PartialEq, Eq, Structural)]
pub struct PositionId(pub usize);

/// A reference to the work item currently being processed: its batch, the
/// batch's optional network location, and the item's own identifier.
pub struct Position {
    pub batch_id: BatchId,
    pub url: Option<Url>,
    pub position_id: PositionId,
}

} // verus!
