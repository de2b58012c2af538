use opcua_session::address_space::{
    AddressSpace, AttributeId, Node, Variant, CURRENT_WRITE, WRITE_MASK_ACCESS_LEVEL,
    WRITE_MASK_IS_ABSTRACT,
};
use opcua_session::attribute::{AttributeService, DataValue, ReadValueId, TimestampsToReturn, WriteValue};
use opcua_session::node::NodeId;
use opcua_session::status::StatusCode;

const HAS_CHILD: u64 = 34;
const HAS_ENCODING: u64 = 38;

fn good(value: Variant, source_timestamp: Option<i64>) -> DataValue {
    DataValue { status: StatusCode::Good, value: Some(value), source_timestamp, server_timestamp: Some(1000) }
}

fn add_many_vars_to_address_space(address_space: &mut AddressSpace, n: usize) -> Vec<NodeId> {
    let mut node_ids = Vec::new();
    for i in 0..n {
        let name = format!("v{}", i);
        let node_id = NodeId::new_string(1, &name);
        node_ids.push(node_id.copy());
        address_space.add_node(Node::new_variable(node_id, Variant::Int32(i as i32)));
    }
    address_space.add_node(Node::new_reference_type(NodeId::new(0, HAS_CHILD), true));
    address_space.add_node(Node::new_reference_type(NodeId::new(0, HAS_ENCODING), false));
    node_ids
}

fn node_mut<'a>(address_space: &'a mut AddressSpace, node_id: &NodeId) -> &'a mut Node {
    let i = address_space.find_node(node_id).unwrap();
    &mut address_space.nodes[i]
}

fn read_value(node_id: &NodeId, attribute_id: AttributeId) -> ReadValueId {
    ReadValueId { node_id: node_id.copy(), attribute_id }
}

fn write_value(node_id: &NodeId, attribute_id: AttributeId, value: Variant) -> WriteValue {
    WriteValue { node_id: node_id.copy(), attribute_id, value }
}

#[test]
fn read_test() {
    let mut address_space = AddressSpace::new();
    let node_ids = add_many_vars_to_address_space(&mut address_space, 10);
    // Remove read access to [3] for a test below
    node_mut(&mut address_space, &node_ids[3]).access_level = Some(0);

    let ats = AttributeService::new();
    let nodes_to_read = vec![
        // 1. a variable
        read_value(&node_ids[0], AttributeId::Value),
        // 2. an attribute other than value
        read_value(&node_ids[1], AttributeId::AccessLevel),
        // 3. a variable without the required attribute
        read_value(&node_ids[2], AttributeId::IsAbstract),
        // 4. a variable with no read access
        read_value(&node_ids[3], AttributeId::Value),
        // 5. a non existent variable
        read_value(&NodeId::new_string(1, "vxxx"), AttributeId::Value),
    ];
    let response = ats.read(&address_space, TimestampsToReturn::Both, 1000, &Some(nodes_to_read));
    assert!(response.is_ok());
    let results = response.unwrap();

    assert_eq!(results[0].status, StatusCode::Good);
    assert_eq!(results[0].value.as_ref().unwrap(), &Variant::Int32(0));
    assert_eq!(results[1].status, StatusCode::Good);
    assert_eq!(results[1].value.as_ref().unwrap(), &Variant::Byte(1));
    assert_eq!(results[2].status, StatusCode::BadAttributeIdInvalid);
    assert_eq!(results[3].status, StatusCode::BadNotReadable);
    assert_eq!(results[4].status, StatusCode::BadNodeIdUnknown);
}

#[test]
fn write_test() {
    let mut address_space = AddressSpace::new();
    let node_ids = add_many_vars_to_address_space(&mut address_space, 10);
    for (i, node_id) in node_ids.iter().enumerate() {
        let node = node_mut(&mut address_space, node_id);
        match i {
            1 => node.write_mask = WRITE_MASK_IS_ABSTRACT,
            2 => node.access_level = Some(0),
            6 => node.write_mask = WRITE_MASK_ACCESS_LEVEL,
            _ => node.access_level = Some(CURRENT_WRITE),
        }
    }
    node_mut(&mut address_space, &NodeId::new(0, HAS_ENCODING)).write_mask = WRITE_MASK_IS_ABSTRACT;

    let ats = AttributeService::new();
    let nodes_to_write = vec![
        // 1. a variable value
        write_value(&node_ids[0], AttributeId::Value, Variant::Int32(100)),
        // 2. a variable with another attribute
        write_value(&node_ids[1], AttributeId::IsAbstract, Variant::Boolean(true)),
        // 3. a variable value which has no write access
        write_value(&node_ids[2], AttributeId::Value, Variant::Int32(200)),
        // 4. a node of some kind other than variable
        write_value(&NodeId::new(0, HAS_ENCODING), AttributeId::IsAbstract, Variant::Boolean(false)),
        // 5. a node with some kind other than variable with no write mask
        write_value(&NodeId::new(0, HAS_CHILD), AttributeId::IsAbstract, Variant::Boolean(false)),
        // 6. a non existent variable
        write_value(&NodeId::new_string(2, "vxxx"), AttributeId::Value, Variant::Int32(100)),
        // 7. wrong type for attribute
        write_value(&node_ids[6], AttributeId::AccessLevel, Variant::SByte(-1)),
    ];
    let response = ats.write(&mut address_space, &Some(nodes_to_write));
    assert!(response.is_ok());
    let results = response.unwrap();

    assert_eq!(results[0], StatusCode::Good);
    assert_eq!(results[1], StatusCode::Good);
    assert_eq!(results[2], StatusCode::BadNotWritable);
    assert_eq!(results[3], StatusCode::Good);
    assert_eq!(results[4], StatusCode::BadNotWritable);
    assert_eq!(results[5], StatusCode::BadNodeIdUnknown);
    assert_eq!(results[6], StatusCode::BadTypeMismatch);
}

#[test]
fn write_changes_the_node_and_read_sees_it() {
    let mut address_space = AddressSpace::new();
    let node_ids = add_many_vars_to_address_space(&mut address_space, 2);
    node_mut(&mut address_space, &node_ids[0]).access_level = Some(CURRENT_WRITE | 1);
    let ats = AttributeService::new();
    let results = ats
        .write(&mut address_space, &Some(vec![write_value(&node_ids[0], AttributeId::Value, Variant::Int32(7))]))
        .unwrap();
    assert_eq!(results, vec![StatusCode::Good]);
    let read = ats.read(&address_space, TimestampsToReturn::Both, 1000, &Some(vec![read_value(&node_ids[0], AttributeId::Value)])).unwrap();
    assert_eq!(read[0], good(Variant::Int32(7), Some(0)));
}

#[test]
fn read_without_read_access_still_reads_access_level() {
    let mut address_space = AddressSpace::new();
    let node_ids = add_many_vars_to_address_space(&mut address_space, 1);
    node_mut(&mut address_space, &node_ids[0]).access_level = Some(0);
    let ats = AttributeService::new();
    let results = ats
        .read(
            &address_space,
            TimestampsToReturn::Both,
            1000,
            &Some(vec![
                read_value(&node_ids[0], AttributeId::Value),
                read_value(&node_ids[0], AttributeId::AccessLevel),
            ]),
        )
        .unwrap();
    assert_eq!(results[0], DataValue { status: StatusCode::BadNotReadable, value: None, source_timestamp: None, server_timestamp: None });
    assert_eq!(results[1], good(Variant::Byte(0), None));
}

#[test]
fn read_failures_leave_other_items_alone() {
    let mut address_space = AddressSpace::new();
    let node_ids = add_many_vars_to_address_space(&mut address_space, 3);
    let ats = AttributeService::new();
    let results = ats
        .read(
            &address_space,
            TimestampsToReturn::Both,
            1000,
            &Some(vec![
                read_value(&node_ids[0], AttributeId::IsAbstract),
                read_value(&node_ids[1], AttributeId::Value),
                read_value(&NodeId::new(5, 999), AttributeId::Value),
                read_value(&node_ids[2], AttributeId::WriteMask),
            ]),
        )
        .unwrap();
    assert_eq!(results.len(), 4);
    assert_eq!(results[0].status, StatusCode::BadAttributeIdInvalid);
    assert_eq!(results[1], good(Variant::Int32(1), Some(0)));
    assert_eq!(results[2].status, StatusCode::BadNodeIdUnknown);
    assert_eq!(results[3], good(Variant::UInt32(0), None));
}

#[test]
fn write_value_rules() {
    let mut address_space = AddressSpace::new();
    let node_ids = add_many_vars_to_address_space(&mut address_space, 4);
    node_mut(&mut address_space, &node_ids[0]).access_level = Some(CURRENT_WRITE);
    node_mut(&mut address_space, &node_ids[2]).access_level = Some(CURRENT_WRITE);
    node_mut(&mut address_space, &node_ids[3]).access_level = Some(CURRENT_WRITE);
    let ats = AttributeService::new();
    let results = ats
        .write(
            &mut address_space,
            &Some(vec![
                // writable value
                write_value(&node_ids[0], AttributeId::Value, Variant::Int32(5)),
                // read-only value
                write_value(&node_ids[1], AttributeId::Value, Variant::Int32(5)),
                // wrong scalar type for the value
                write_value(&node_ids[2], AttributeId::Value, Variant::Boolean(true)),
                // writable node, attribute not in the write mask
                write_value(&node_ids[3], AttributeId::AccessLevel, Variant::Byte(3)),
            ]),
        )
        .unwrap();
    assert_eq!(
        results,
        vec![
            StatusCode::Good,
            StatusCode::BadNotWritable,
            StatusCode::BadTypeMismatch,
            StatusCode::BadNotWritable,
        ]
    );
    let i = address_space.find_node(&node_ids[2]).unwrap();
    assert_eq!(address_space.nodes[i].value, Some(Variant::Int32(2)));
}

#[test]
fn empty_requests_have_nothing_to_do() {
    let mut address_space = AddressSpace::new();
    let ats = AttributeService::new();
    assert_eq!(ats.read(&address_space, TimestampsToReturn::Both, 1000, &None).unwrap_err(), StatusCode::BadNothingToDo);
    assert_eq!(ats.read(&address_space, TimestampsToReturn::Both, 1000, &Some(vec![])).unwrap_err(), StatusCode::BadNothingToDo);
    assert_eq!(ats.write(&mut address_space, &None).unwrap_err(), StatusCode::BadNothingToDo);
    assert_eq!(ats.write(&mut address_space, &Some(vec![])).unwrap_err(), StatusCode::BadNothingToDo);
}

#[test]
fn node_ids_compare_by_namespace_and_identifier() {
    assert!(NodeId::new_string(1, "abc").same_as(&NodeId::new_string(1, "abc")));
    assert!(!NodeId::new_string(1, "abc").same_as(&NodeId::new_string(2, "abc")));
    assert!(!NodeId::new_string(1, "abc").same_as(&NodeId::new_string(1, "abd")));
    assert!(!NodeId::new(1, 5).same_as(&NodeId::new_string(1, "5")));
    assert!(NodeId::null().is_null());
    assert!(!NodeId::new(1, 0).is_null());
}

#[test]
fn read_attaches_requested_timestamps() {
    let mut address_space = AddressSpace::new();
    let node_ids = add_many_vars_to_address_space(&mut address_space, 1);
    node_mut(&mut address_space, &node_ids[0]).source_timestamp = 77;
    let ats = AttributeService::new();
    let items = Some(vec![read_value(&node_ids[0], AttributeId::Value)]);
    let source = ats.read(&address_space, TimestampsToReturn::Source, 500, &items).unwrap();
    assert_eq!(source[0].source_timestamp, Some(77));
    assert_eq!(source[0].server_timestamp, None);
    let server = ats.read(&address_space, TimestampsToReturn::Server, 500, &items).unwrap();
    assert_eq!(server[0].source_timestamp, None);
    assert_eq!(server[0].server_timestamp, Some(500));
    let both = ats.read(&address_space, TimestampsToReturn::Both, 500, &items).unwrap();
    assert_eq!(both[0].source_timestamp, Some(77));
    assert_eq!(both[0].server_timestamp, Some(500));
    let neither = ats.read(&address_space, TimestampsToReturn::Neither, 500, &items).unwrap();
    assert_eq!(neither[0].source_timestamp, None);
    assert_eq!(neither[0].server_timestamp, None);
    assert_eq!(neither[0].value, Some(Variant::Int32(0)));
}
