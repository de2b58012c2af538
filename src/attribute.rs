use vstd::prelude::*;

use crate::address_space::{
    attribute_value, lookup, lookup_index, same_kind, AddressSpace, AttributeId, Node, Variant,
    CURRENT_READ, CURRENT_WRITE, WRITE_MASK_ACCESS_LEVEL, WRITE_MASK_IS_ABSTRACT,
    WRITE_MASK_VALUE_FOR_VARIABLE_TYPE, WRITE_MASK_WRITE_MASK,
};
use crate::node::{IdentifierView, NodeId};
use crate::status::StatusCode;

verus! {

/// One item of a Read request: which attribute of which node.
#[derive(Debug)]
pub struct ReadValueId {
    pub node_id: NodeId,
    pub attribute_id: AttributeId,
}

/// One item of a Write request: the value to put in an attribute of a node.
#[derive(Debug)]
pub struct WriteValue {
    pub node_id: NodeId,
    pub attribute_id: AttributeId,
    pub value: Variant,
}

/// Which timestamps a Read attaches to the values it returns.
#[derive(Debug, Clone, Copy, PartialEq, Eq, Structural)]
pub enum TimestampsToReturn {
    Source,
    Server,
    Both,
    Neither,
}

/// The result of reading one item: its status, and the value with its
/// timestamps when it is good.
#[derive(Debug, Clone, Copy, PartialEq, Eq, Structural)]
pub struct DataValue {
    pub status: StatusCode,
    pub value: Option<Variant>,
    pub source_timestamp: Option<i64>,
    pub server_timestamp: Option<i64>,
}

/// A result that carries only a bad status.
pub open spec fn bad(status: StatusCode) -> DataValue {
    DataValue { status, value: None, source_timestamp: None, server_timestamp: None }
}

/// The good result holding `v`, read from attribute `a` of `n` at `now`, with
/// the timestamps that `mode` asks for. Only a Value has a source timestamp.
pub open spec fn stamped(n: Node, a: AttributeId, v: Variant, mode: TimestampsToReturn, now: i64) -> DataValue {
    DataValue {
        status: StatusCode::Good,
        value: Some(v),
        source_timestamp: if a == AttributeId::Value && (mode == TimestampsToReturn::Source || mode
            == TimestampsToReturn::Both) {
            Some(n.source_timestamp)
        } else {
            None
        },
        server_timestamp: if mode == TimestampsToReturn::Server || mode == TimestampsToReturn::Both {
            Some(now)
        } else {
            None
        },
    }
}

/// Whether the access level of `n` lets its Value be read.
pub open spec fn value_readable(n: Node) -> bool {
    match n.access_level {
        Some(l) => l & CURRENT_READ != 0,
        None => true,
    }
}

/// Whether `n` lets its Value be written: by its access level where it has
/// one, else by its write mask.
pub open spec fn value_writable(n: Node) -> bool {
    match n.access_level {
        Some(l) => l & CURRENT_WRITE != 0,
        None => n.write_mask & WRITE_MASK_VALUE_FOR_VARIABLE_TYPE != 0,
    }
}

/// The write-mask bit that guards attribute `a`.
pub open spec fn mask_bit(a: AttributeId) -> u32 {
    match a {
        AttributeId::WriteMask => WRITE_MASK_WRITE_MASK,
        AttributeId::IsAbstract => WRITE_MASK_IS_ABSTRACT,
        AttributeId::AccessLevel => WRITE_MASK_ACCESS_LEVEL,
        AttributeId::Value => WRITE_MASK_VALUE_FOR_VARIABLE_TYPE,
    }
}

/// Whether `v` has the type that attribute `a` of `n` is declared with. A
/// Value keeps the type of the value it holds.
pub open spec fn type_matches(n: Node, a: AttributeId, v: Variant) -> bool {
    match a {
        AttributeId::WriteMask => v is UInt32,
        AttributeId::IsAbstract => v is Boolean,
        AttributeId::AccessLevel => v is Byte,
        AttributeId::Value => match n.value {
            Some(cur) => same_kind(cur, v),
            None => true,
        },
    }
}

/// The result of reading attribute `a` of the node with id `id`.
pub open spec fn read_item(
    nodes: Seq<Node>,
    id: (u16, IdentifierView),
    a: AttributeId,
    mode: TimestampsToReturn,
    now: i64,
) -> DataValue {
    match lookup(nodes, id) {
        None => bad(StatusCode::BadNodeIdUnknown),
        Some(n) => match attribute_value(n, a) {
            None => bad(StatusCode::BadAttributeIdInvalid),
            Some(v) => if a == AttributeId::Value && !value_readable(n) {
                bad(StatusCode::BadNotReadable)
            } else {
                stamped(n, a, v, mode, now)
            },
        },
    }
}

/// The status of writing `v` to attribute `a` of node `n`.
pub open spec fn write_status(n: Node, a: AttributeId, v: Variant) -> StatusCode {
    if a == AttributeId::Value && !value_writable(n) {
        StatusCode::BadNotWritable
    } else if a != AttributeId::Value && n.write_mask & mask_bit(a) == 0 {
        StatusCode::BadNotWritable
    } else if !type_matches(n, a, v) {
        StatusCode::BadTypeMismatch
    } else {
        StatusCode::Good
    }
}

/// Node `n` with `v` put in its attribute `a`; `v` has the attribute's type.
pub open spec fn apply_write(n: Node, a: AttributeId, v: Variant) -> Node {
    match (a, v) {
        (AttributeId::WriteMask, Variant::UInt32(m)) => Node { write_mask: m, ..n },
        (AttributeId::IsAbstract, Variant::Boolean(b)) => Node { is_abstract: Some(b), ..n },
        (AttributeId::AccessLevel, Variant::Byte(l)) => Node { access_level: Some(l), ..n },
        (AttributeId::Value, _) => Node { value: Some(v), ..n },
        _ => n,
    }
}

/// The nodes after one write item, and that item's status.
pub open spec fn write_one(nodes: Seq<Node>, w: WriteValue) -> (Seq<Node>, StatusCode) {
    match lookup(nodes, w.node_id@) {
        None => (nodes, StatusCode::BadNodeIdUnknown),
        Some(n) => {
            let s = write_status(n, w.attribute_id, w.value);
            if s == StatusCode::Good {
                (nodes.update(lookup_index(nodes, w.node_id@), apply_write(n, w.attribute_id, w.value)), s)
            } else {
                (nodes, s)
            }
        },
    }
}

/// The nodes after the write items in order, and the status of each.
pub open spec fn write_all(nodes: Seq<Node>, items: Seq<WriteValue>) -> (Seq<Node>, Seq<StatusCode>)
    decreases items.len(),
{
    if items.len() == 0 {
        (nodes, Seq::empty())
    } else {
        let (before, statuses) = write_all(nodes, items.drop_last());
        let (after, s) = write_one(before, items.last());
        (after, statuses.push(s))
    }
}

/// Whether a request's item list is missing or empty.
pub open spec fn nothing_to_do<T>(items: Option<Vec<T>>) -> bool {
    match items {
        None => true,
        Some(v) => v@.len() == 0,
    }
}

/// The Read and Write services over an address space.
pub struct AttributeService {}

impl AttributeService {
    pub fn new() -> (r: AttributeService) {
        AttributeService {}
    }

    /// Reads one item at `now`.
    pub fn read_value(
        &self,
        space: &AddressSpace,
        item: &ReadValueId,
        timestamps_to_return: TimestampsToReturn,
        now: i64,
    ) -> (r: DataValue)
        ensures
            r == read_item(space.nodes@, item.node_id@, item.attribute_id, timestamps_to_return, now),
    {
        match space.find_node(&item.node_id) {
            None => DataValue {
                status: StatusCode::BadNodeIdUnknown,
                value: None,
                source_timestamp: None,
                server_timestamp: None,
            },
            Some(i) => {
                let n = &space.nodes[i];
                let v: Option<Variant> = match item.attribute_id {
                    AttributeId::WriteMask => Some(Variant::UInt32(n.write_mask)),
                    AttributeId::IsAbstract => match n.is_abstract {
                        Some(b) => Some(Variant::Boolean(b)),
                        None => None,
                    },
                    AttributeId::AccessLevel => match n.access_level {
                        Some(l) => Some(Variant::Byte(l)),
                        None => None,
                    },
                    AttributeId::Value => n.value,
                };
                match v {
                    None => DataValue {
                        status: StatusCode::BadAttributeIdInvalid,
                        value: None,
                        source_timestamp: None,
                        server_timestamp: None,
                    },
                    Some(v) => {
                        let readable = match n.access_level {
                            Some(l) => l & CURRENT_READ != 0,
                            None => true,
                        };
                        if item.attribute_id == AttributeId::Value && !readable {
                            DataValue {
                                status: StatusCode::BadNotReadable,
                                value: None,
                                source_timestamp: None,
                                server_timestamp: None,
                            }
                        } else {
                            let source = matches!(
                                timestamps_to_return,
                                TimestampsToReturn::Source | TimestampsToReturn::Both
                            );
                            let server = matches!(
                                timestamps_to_return,
                                TimestampsToReturn::Server | TimestampsToReturn::Both
                            );
                            DataValue {
                                status: StatusCode::Good,
                                value: Some(v),
                                source_timestamp: if item.attribute_id == AttributeId::Value && source {
                                    Some(n.source_timestamp)
                                } else {
                                    None
                                },
                                server_timestamp: if server {
                                    Some(now)
                                } else {
                                    None
                                },
                            }
                        }
                    },
                }
            },
        }
    }

    /// Reads each item on its own at `now`: one item's failure is its own
    /// status and leaves the others alone. A missing or empty item list is
    /// `BadNothingToDo` for the whole request.
    pub fn read(
        &self,
        space: &AddressSpace,
        timestamps_to_return: TimestampsToReturn,
        now: i64,
        nodes_to_read: &Option<Vec<ReadValueId>>,
    ) -> (r: Result<Vec<DataValue>, StatusCode>)
        ensures
            nothing_to_do(*nodes_to_read) ==> r == Err::<Vec<DataValue>, StatusCode>(
                StatusCode::BadNothingToDo,
            ),
            !nothing_to_do(*nodes_to_read) ==> r.is_ok(),
            r matches Ok(results) ==> {
                let items = nodes_to_read->Some_0@;
                &&& results@.len() == items.len()
                &&& forall|i: int|
                    0 <= i < items.len() ==> #[trigger] results@[i] == read_item(
                        space.nodes@,
                        items[i].node_id@,
                        items[i].attribute_id,
                        timestamps_to_return,
                        now,
                    )
            },
    {
        match nodes_to_read {
            None => Err(StatusCode::BadNothingToDo),
            Some(items) => {
                if items.len() == 0 {
                    return Err(StatusCode::BadNothingToDo);
                }
                let mut results: Vec<DataValue> = Vec::new();
                let mut i: usize = 0;
                while i < items.len()
                    invariant
                        i <= items@.len(),
                        results@.len() == i,
                        forall|j: int|
                            0 <= j < i ==> #[trigger] results@[j] == read_item(
                                space.nodes@,
                                items@[j].node_id@,
                                items@[j].attribute_id,
                                timestamps_to_return,
                                now,
                            ),
                    decreases items@.len() - i,
                {
                    let d = self.read_value(space, &items[i], timestamps_to_return, now);
                    results.push(d);
                    i = i + 1;
                }
                Ok(results)
            },
        }
    }

    /// Writes one item to the address space and returns its status.
    pub fn write_value(&self, space: &mut AddressSpace, item: &WriteValue) -> (r: StatusCode)
        ensures
            (final(space).nodes@, r) == write_one(old(space).nodes@, *item),
    {
        match space.find_node(&item.node_id) {
            None => StatusCode::BadNodeIdUnknown,
            Some(i) => {
                let n = &space.nodes[i];
                let a = item.attribute_id;
                let v = item.value;
                let status = if a == AttributeId::Value {
                    let writable = match n.access_level {
                        Some(l) => l & CURRENT_WRITE != 0,
                        None => n.write_mask & WRITE_MASK_VALUE_FOR_VARIABLE_TYPE != 0,
                    };
                    if !writable {
                        StatusCode::BadNotWritable
                    } else {
                        let ok = match n.value {
                            Some(cur) => cur.same_kind_as(&v),
                            None => true,
                        };
                        if ok { StatusCode::Good } else { StatusCode::BadTypeMismatch }
                    }
                } else {
                    let bit: u32 = match a {
                        AttributeId::WriteMask => WRITE_MASK_WRITE_MASK,
                        AttributeId::IsAbstract => WRITE_MASK_IS_ABSTRACT,
                        AttributeId::AccessLevel => WRITE_MASK_ACCESS_LEVEL,
                        AttributeId::Value => WRITE_MASK_VALUE_FOR_VARIABLE_TYPE,
                    };
                    if n.write_mask & bit == 0 {
                        StatusCode::BadNotWritable
                    } else {
                        let ok = match (a, v) {
                            (AttributeId::WriteMask, Variant::UInt32(_)) => true,
                            (AttributeId::IsAbstract, Variant::Boolean(_)) => true,
                            (AttributeId::AccessLevel, Variant::Byte(_)) => true,
                            _ => false,
                        };
                        if ok { StatusCode::Good } else { StatusCode::BadTypeMismatch }
                    }
                };
                if status == StatusCode::Good {
                    match (a, v) {
                        (AttributeId::WriteMask, Variant::UInt32(m)) => {
                            space.nodes[i].write_mask = m;
                        },
                        (AttributeId::IsAbstract, Variant::Boolean(b)) => {
                            space.nodes[i].is_abstract = Some(b);
                        },
                        (AttributeId::AccessLevel, Variant::Byte(l)) => {
                            space.nodes[i].access_level = Some(l);
                        },
                        (AttributeId::Value, _) => {
                            space.nodes[i].value = Some(v);
                        },
                        _ => {},
                    }
                }
                status
            },
        }
    }

    /// Writes the items in order, each on its own: the batch as a whole is not
    /// atomic, and one item's failure leaves the others alone. A missing or
    /// empty item list is `BadNothingToDo` and changes nothing.
    pub fn write(&self, space: &mut AddressSpace, nodes_to_write: &Option<Vec<WriteValue>>) -> (r:
        Result<Vec<StatusCode>, StatusCode>)
        ensures
            nothing_to_do(*nodes_to_write) ==> r == Err::<Vec<StatusCode>, StatusCode>(
                StatusCode::BadNothingToDo,
            ) && final(space).nodes@ == old(space).nodes@,
            !nothing_to_do(*nodes_to_write) ==> r.is_ok(),
            r matches Ok(results) ==> (final(space).nodes@, results@) == write_all(
                old(space).nodes@,
                nodes_to_write->Some_0@,
            ),
    {
        match nodes_to_write {
            None => Err(StatusCode::BadNothingToDo),
            Some(items) => {
                if items.len() == 0 {
                    return Err(StatusCode::BadNothingToDo);
                }
                let mut results: Vec<StatusCode> = Vec::new();
                let mut i: usize = 0;
                while i < items.len()
                    invariant
                        i <= items@.len(),
                        (space.nodes@, results@) == write_all(
                            old(space).nodes@,
                            items@.subrange(0, i as int),
                        ),
                    decreases items@.len() - i,
                {
                    let s = self.write_value(space, &items[i]);
                    results.push(s);
                    assert(items@.subrange(0, i + 1).drop_last() =~= items@.subrange(0, i as int));
                    i = i + 1;
                }
                assert(items@.subrange(0, i as int) =~= items@);
                Ok(results)
            },
        }
    }
}

} // verus!
