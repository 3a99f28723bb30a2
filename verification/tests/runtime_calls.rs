use relayer::{
    Ibc, NodeRuntime, TemplateModule, TestBindPortCall, TestChanOpenInitCall,
    TestConnOpenInitCall, TestCreateClientCall, TestReleasePortCall, TestSendPacketCall,
};

fn requires_ibc<T: Ibc>(_runtime: &T) {}

fn requires_template_module<T: TemplateModule>(_runtime: &T) {}

#[test]
fn it_works() {
    assert_eq!(2 + 2, 4);
}

#[test]
fn lib_it_works() {
    assert_eq!(2 + 2, 4);
}

#[test]
fn node_runtime_implements_the_chain_interfaces() {
    let runtime = NodeRuntime;
    requires_ibc(&runtime);
    requires_template_module(&runtime);
    assert_eq!(runtime.clone(), NodeRuntime);
}

#[test]
fn call_arguments_hold_plain_values() {
    let create = TestCreateClientCall {
        identifier: vec![1u8; 32],
        height: 0,
        set_id: 0,
        authority_list: vec![0xA0],
        commitment_root: vec![2u8; 32],
    };
    assert_eq!(create.height, 0);

    let conn = TestConnOpenInitCall {
        identifier: vec![3u8; 32],
        desired_counterparty_connection_identifier: vec![4u8; 32],
        client_identifier: vec![5u8; 32],
        counterparty_client_identifier: vec![6u8; 32],
    };
    assert_eq!(conn.identifier.len(), 32);

    let bind = TestBindPortCall { identifier: b"transfer".to_vec() };
    let release = TestReleasePortCall { identifier: bind.identifier.clone() };
    assert_eq!(bind.identifier, release.identifier);

    let chan = TestChanOpenInitCall {
        unordered: false,
        connection_hops: vec![vec![3u8; 32]],
        port_identifier: b"transfer".to_vec(),
        channel_identifier: vec![7u8; 32],
        counterparty_port_identifier: b"transfer".to_vec(),
        counterparty_channel_identifier: vec![8u8; 32],
    };
    assert!(!chan.unordered);

    let send = TestSendPacketCall {
        sequence: 1,
        timeout_height: 100,
        source_port: b"transfer".to_vec(),
        source_channel: vec![7u8; 32],
        dest_port: b"transfer".to_vec(),
        dest_channel: vec![8u8; 32],
        data: vec![0xDD],
    };
    assert_eq!(send.sequence, 1);
}
