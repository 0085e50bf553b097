use nimbus::conf::{
    ClusterConfiguration, HostAddress, NimbusClusterConfiguration, NodeConfiguration,
    SocketAddress, TransportConfiguration,
};

fn loopback(port: u16) -> TransportConfiguration {
    TransportConfiguration { host: HostAddress::V4(127, 0, 0, 1), port }
}

fn sample() -> NimbusClusterConfiguration {
    NimbusClusterConfiguration {
        cluster: ClusterConfiguration { cluster_name: String::from("nimbus-dev") },
        nodes: vec![
            NodeConfiguration {
                id: 1,
                private_transport: loopback(9001),
                public_transport: loopback(9000),
                working_directory: String::from("/var/lib/nimbus/1"),
            },
            NodeConfiguration {
                id: 2,
                private_transport: loopback(9003),
                public_transport: loopback(9002),
                working_directory: String::from("/var/lib/nimbus/2"),
            },
        ],
    }
}

#[test]
fn sock_addr_joins_host_and_port() {
    let transport = TransportConfiguration { host: HostAddress::V4(10, 0, 0, 7), port: 4242 };
    assert_eq!(
        transport.sock_addr(),
        SocketAddress { host: HostAddress::V4(10, 0, 0, 7), port: 4242 }
    );
}

#[test]
fn sock_addr_keeps_version_six_segments() {
    let host = HostAddress::V6(0x2001, 0xdb8, 0, 0, 0, 0, 0, 1);
    let transport = TransportConfiguration { host, port: 65535 };
    let addr = transport.sock_addr();
    assert_eq!(addr.host, host);
    assert_eq!(addr.port, 65535);
}

#[test]
fn sock_addr_differs_when_port_differs() {
    assert_ne!(loopback(9000).sock_addr(), loopback(9001).sock_addr());
}

#[test]
fn node_configuration_clone_keeps_every_field() {
    let config = sample();
    let copy = config.nodes[1].clone();
    assert_eq!(copy.id, 2);
    assert_eq!(copy.private_transport, loopback(9003));
    assert_eq!(copy.public_transport, loopback(9002));
    assert_eq!(copy.working_directory, "/var/lib/nimbus/2");
}

#[test]
fn cluster_configuration_clone_keeps_name_and_node_order() {
    let config = sample();
    let copy = config.clone();
    assert_eq!(copy.cluster.cluster_name, "nimbus-dev");
    assert_eq!(copy.nodes.len(), 2);
    assert_eq!(copy.nodes[0].id, 1);
    assert_eq!(copy.nodes[1].id, 2);
    assert_eq!(copy.nodes[0].working_directory, "/var/lib/nimbus/1");
}

#[test]
fn clone_of_empty_node_list_is_empty() {
    let config = NimbusClusterConfiguration {
        cluster: ClusterConfiguration { cluster_name: String::new() },
        nodes: Vec::new(),
    };
    let copy = config.clone();
    assert!(copy.nodes.is_empty());
    assert_eq!(copy.cluster.cluster_name, "");
}

#[test]
fn distinct_ids_are_unique() {
    assert!(sample().has_unique_ids());
}

#[test]
fn repeated_id_is_not_unique() {
    let mut config = sample();
    config.nodes.push(NodeConfiguration {
        id: 1,
        private_transport: loopback(9005),
        public_transport: loopback(9004),
        working_directory: String::from("/var/lib/nimbus/again"),
    });
    assert!(!config.has_unique_ids());
}

#[test]
fn repeated_id_at_the_end_of_the_list_is_found() {
    let mut config = sample();
    let mut last = config.nodes[1].clone();
    last.working_directory = String::from("/elsewhere");
    config.nodes.push(last);
    assert!(!config.has_unique_ids());
}

#[test]
fn empty_and_single_node_lists_are_unique() {
    let mut config = sample();
    config.nodes.truncate(1);
    assert!(config.has_unique_ids());
    config.nodes.clear();
    assert!(config.has_unique_ids());
}
