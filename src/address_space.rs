use vstd::prelude::*;

use crate::node::NodeId;

verus! {

/// Access-level bit: the current value may be read.
pub const CURRENT_READ: u8 = 1;
/// Access-level bit: the current value may be written.
pub const CURRENT_WRITE: u8 = 2;

/// Write-mask bit for the AccessLevel attribute.
pub const WRITE_MASK_ACCESS_LEVEL: u32 = 1;
/// Write-mask bit for the IsAbstract attribute.
pub const WRITE_MASK_IS_ABSTRACT: u32 = 2048;
/// Write-mask bit for the WriteMask attribute.
pub const WRITE_MASK_WRITE_MASK: u32 = 1048576;
/// Write-mask bit for the Value attribute of a VariableType.
pub const WRITE_MASK_VALUE_FOR_VARIABLE_TYPE: u32 = 2097152;

/// The class of a node.
#[derive(Debug, Clone, Copy, PartialEq, Eq, Structural)]
pub enum NodeClass {
    Object,
    Variable,
    Method,
    ObjectType,
    VariableType,
    ReferenceType,
    DataType,
    View,
}

/// The attributes that the attribute service reads and writes.
#[derive(Debug, Clone, Copy, PartialEq, Eq, Structural)]
pub enum AttributeId {
    WriteMask,
    IsAbstract,
    AccessLevel,
    Value,
}

/// A scalar value held by an attribute.
#[derive(Debug, Clone, Copy, PartialEq, Eq, Structural)]
pub enum Variant {
    Empty,
    Boolean(bool),
    SByte(i8),
    Byte(u8),
    Int32(i32),
    UInt32(u32),
    Int64(i64),
}

/// Whether two values are of the same scalar type.
pub open spec fn same_kind(a: Variant, b: Variant) -> bool {
    match (a, b) {
        (Variant::Empty, Variant::Empty) => true,
        (Variant::Boolean(_), Variant::Boolean(_)) => true,
        (Variant::SByte(_), Variant::SByte(_)) => true,
        (Variant::Byte(_), Variant::Byte(_)) => true,
        (Variant::Int32(_), Variant::Int32(_)) => true,
        (Variant::UInt32(_), Variant::UInt32(_)) => true,
        (Variant::Int64(_), Variant::Int64(_)) => true,
        _ => false,
    }
}

impl Variant {
    /// Whether `self` and `other` are of the same scalar type.
    pub fn same_kind_as(&self, other: &Variant) -> (r: bool)
        ensures
            r == same_kind(*self, *other),
    {
        match (self, other) {
            (Variant::Empty, Variant::Empty) => true,
            (Variant::Boolean(_), Variant::Boolean(_)) => true,
            (Variant::SByte(_), Variant::SByte(_)) => true,
            (Variant::Byte(_), Variant::Byte(_)) => true,
            (Variant::Int32(_), Variant::Int32(_)) => true,
            (Variant::UInt32(_), Variant::UInt32(_)) => true,
            (Variant::Int64(_), Variant::Int64(_)) => true,
            _ => false,
        }
    }
}

/// A node of the address space. An attribute that the node's class does not
/// define is `None`.
#[derive(Debug)]
pub struct Node {
    pub node_id: NodeId,
    pub node_class: NodeClass,
    pub write_mask: u32,
    pub is_abstract: Option<bool>,
    pub access_level: Option<u8>,
    pub value: Option<Variant>,
    /// Changes whenever the node's set of references changes.
    pub references_version: u64,
    /// When the source last set the value, in milliseconds.
    pub source_timestamp: i64,
}

impl Node {
    /// A variable holding `value`, readable, with an empty write mask.
    pub fn new_variable(node_id: NodeId, value: Variant) -> (r: Node)
        ensures
            r.node_id@ == node_id@,
            r.node_class == NodeClass::Variable,
            r.write_mask == 0,
            r.is_abstract.is_none(),
            r.access_level == Some(CURRENT_READ),
            r.value == Some(value),
            r.references_version == 0,
            r.source_timestamp == 0,
    {
        Node {
            node_id,
            node_class: NodeClass::Variable,
            write_mask: 0,
            is_abstract: None,
            access_level: Some(CURRENT_READ),
            value: Some(value),
            references_version: 0,
            source_timestamp: 0,
        }
    }

    /// A reference type, with an empty write mask.
    pub fn new_reference_type(node_id: NodeId, is_abstract: bool) -> (r: Node)
        ensures
            r.node_id@ == node_id@,
            r.node_class == NodeClass::ReferenceType,
            r.write_mask == 0,
            r.is_abstract == Some(is_abstract),
            r.access_level.is_none(),
            r.value.is_none(),
            r.references_version == 0,
            r.source_timestamp == 0,
    {
        Node {
            node_id,
            node_class: NodeClass::ReferenceType,
            write_mask: 0,
            is_abstract: Some(is_abstract),
            access_level: None,
            value: None,
            references_version: 0,
            source_timestamp: 0,
        }
    }
}

/// The value of attribute `a` of node `n`, if its class defines it.
pub open spec fn attribute_value(n: Node, a: AttributeId) -> Option<Variant> {
    match a {
        AttributeId::WriteMask => Some(Variant::UInt32(n.write_mask)),
        AttributeId::IsAbstract => match n.is_abstract {
            Some(b) => Some(Variant::Boolean(b)),
            None => None,
        },
        AttributeId::AccessLevel => match n.access_level {
            Some(l) => Some(Variant::Byte(l)),
            None => None,
        },
        AttributeId::Value => n.value,
    }
}

/// The tree of nodes that the services read and write.
pub struct AddressSpace {
    pub nodes: Vec<Node>,
}

/// Whether some node of `nodes` has the id `id`.
pub open spec fn has_node(nodes: Seq<Node>, id: (u16, crate::node::IdentifierView)) -> bool {
    exists|i: int| 0 <= i < nodes.len() && (#[trigger] nodes[i]).node_id@ == id
}

/// `i` is the first position of `nodes` that holds a node with the id `id`.
pub open spec fn first_match(nodes: Seq<Node>, id: (u16, crate::node::IdentifierView), i: int) -> bool {
    &&& 0 <= i < nodes.len()
    &&& nodes[i].node_id@ == id
    &&& forall|j: int| 0 <= j < i ==> (#[trigger] nodes[j]).node_id@ != id
}

/// Two first positions of one id are the same position.
pub proof fn lemma_first_match_unique(
    nodes: Seq<Node>,
    id: (u16, crate::node::IdentifierView),
    i: int,
    j: int,
)
    requires
        first_match(nodes, id, i),
        first_match(nodes, id, j),
    ensures
        i == j,
{
    if i < j {
        assert(nodes[i].node_id@ != id);
    } else if j < i {
        assert(nodes[j].node_id@ != id);
    }
}

/// The position of the node that a lookup of `id` finds.
pub open spec fn lookup_index(nodes: Seq<Node>, id: (u16, crate::node::IdentifierView)) -> int {
    choose|i: int| first_match(nodes, id, i)
}

/// The node that a lookup of `id` finds: the first one with that id.
pub open spec fn lookup(nodes: Seq<Node>, id: (u16, crate::node::IdentifierView)) -> Option<Node> {
    if exists|i: int| first_match(nodes, id, i) {
        Some(nodes[lookup_index(nodes, id)])
    } else {
        None
    }
}

impl AddressSpace {
    /// An empty address space.
    pub fn new() -> (r: AddressSpace)
        ensures
            r.nodes@.len() == 0,
    {
        AddressSpace { nodes: Vec::new() }
    }

    /// Adds a node after the existing ones.
    pub fn add_node(&mut self, node: Node)
        ensures
            final(self).nodes@ == old(self).nodes@.push(node),
    {
        self.nodes.push(node);
    }

    /// The position of the first node with the id `id`, or `None` if no node has it.
    pub fn find_node(&self, id: &NodeId) -> (r: Option<usize>)
        ensures
            match r {
                Some(i) => first_match(self.nodes@, id@, i as int),
                None => !has_node(self.nodes@, id@),
            },
            match r {
                Some(i) => lookup(self.nodes@, id@) == Some(self.nodes@[i as int])
                    && lookup_index(self.nodes@, id@) == i,
                None => lookup(self.nodes@, id@).is_none(),
            },
    {
        let mut i: usize = 0;
        while i < self.nodes.len()
            invariant
                i <= self.nodes@.len(),
                forall|j: int| 0 <= j < i ==> (#[trigger] self.nodes@[j]).node_id@ != id@,
            decreases self.nodes@.len() - i,
        {
            if self.nodes[i].node_id.same_as(id) {
                proof {
                    assert(first_match(self.nodes@, id@, i as int));
                    let k = lookup_index(self.nodes@, id@);
                    lemma_first_match_unique(self.nodes@, id@, i as int, k);
                }
                return Some(i);
            }
            i = i + 1;
        }
        assert forall|k: int| !first_match(self.nodes@, id@, k) by {}
        None
    }

    /// Records a change to the references of the first node with the id `id`.
    /// Returns false, changing nothing, when no node has that id.
    pub fn touch_references(&mut self, id: &NodeId) -> (r: bool)
        ensures
            r == has_node(old(self).nodes@, id@),
            final(self).nodes@.len() == old(self).nodes@.len(),
            forall|i: int| 0 <= i < old(self).nodes@.len() && !first_match(old(self).nodes@, id@, i)
                ==> #[trigger] final(self).nodes@[i] == old(self).nodes@[i],
            forall|i: int| #[trigger] first_match(old(self).nodes@, id@, i) ==> {
                let n = old(self).nodes@[i];
                final(self).nodes@[i] == Node {
                    references_version: if n.references_version < u64::MAX {
                        (n.references_version + 1) as u64
                    } else {
                        0
                    },
                    ..n
                }
            },
    {
        match self.find_node(id) {
            Some(i) => {
                let v = self.nodes[i].references_version;
                let nv: u64 = if v < u64::MAX { v + 1 } else { 0 };
                self.nodes[i].references_version = nv;
                true
            }
            None => false,
        }
    }
}

} // verus!
