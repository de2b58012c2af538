use vstd::prelude::*;

use crate::address_space::{lookup, AddressSpace, Node};
use crate::node::{copy_vec, IdentifierView, NodeId};

verus! {

/// A paused Browse cursor: where in which node's references the next batch starts.
#[derive(Debug)]
pub struct BrowseContinuationPoint {
    /// Opaque identifier handed to the client.
    pub id: Vec<u8>,
    /// The node whose references are being browsed.
    pub node_id: NodeId,
    /// Position of the next reference to return.
    pub starting_index: usize,
    /// Most references returned per batch.
    pub max_references: usize,
    /// The node's references version when the cursor was made.
    pub references_version: u64,
}

/// What a continuation point stands for.
pub struct BrowseContinuationPointView {
    pub id: Seq<u8>,
    pub node_id: (u16, IdentifierView),
    pub starting_index: usize,
    pub max_references: usize,
    pub references_version: u64,
}

impl View for BrowseContinuationPoint {
    type V = BrowseContinuationPointView;

    open spec fn view(&self) -> BrowseContinuationPointView {
        BrowseContinuationPointView {
            id: self.id@,
            node_id: self.node_id@,
            starting_index: self.starting_index,
            max_references: self.max_references,
            references_version: self.references_version,
        }
    }
}

/// A continuation point is valid while its node exists and the node's
/// references have not changed since the cursor was made.
pub open spec fn cp_valid(nodes: Seq<Node>, cp: BrowseContinuationPointView) -> bool {
    match lookup(nodes, cp.node_id) {
        Some(n) => n.references_version == cp.references_version,
        None => false,
    }
}

impl BrowseContinuationPoint {
    /// A second continuation point with the same view.
    pub fn copy(&self) -> (r: BrowseContinuationPoint)
        ensures
            r@ == self@,
    {
        BrowseContinuationPoint {
            id: copy_vec(&self.id),
            node_id: self.node_id.copy(),
            starting_index: self.starting_index,
            max_references: self.max_references,
            references_version: self.references_version,
        }
    }

    /// Whether this cursor still matches the address space.
    pub fn is_valid_browse_continuation_point(&self, address_space: &AddressSpace) -> (r: bool)
        ensures
            r == cp_valid(address_space.nodes@, self@),
    {
        match address_space.find_node(&self.node_id) {
            Some(i) => address_space.nodes[i].references_version == self.references_version,
            None => false,
        }
    }
}

} // verus!
