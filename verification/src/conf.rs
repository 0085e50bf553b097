//! Cluster configuration: the cluster's name and the list of its nodes, each
//! with an id, a public and a private transport endpoint and a working
//! directory.

use vstd::prelude::*;

verus! {

/// An IP host address, held as its octets (version 4) or its 16-bit segments
/// (version 6), most significant first.
#[derive(Clone, Copy, Debug, PartialEq, Eq, Structural)]
pub enum HostAddress {
    V4(u8, u8, u8, u8),
    V6(u16, u16, u16, u16, u16, u16, u16, u16),
}

/// A host address together with a port: where a transport listens.
#[derive(Clone, Copy, Debug, PartialEq, Eq, Structural)]
pub struct SocketAddress {
    pub host: HostAddress,
    pub port: u16,
}

/// The endpoint of one transport of a node.
#[derive(Clone, Copy, Debug, PartialEq, Eq, Structural)]
pub struct TransportConfiguration {
    pub host: HostAddress,
    pub port: u16,
}

impl TransportConfiguration {
    /// The socket address made of this endpoint's host and port.
    pub open spec fn spec_sock_addr(&self) -> SocketAddress {
        SocketAddress { host: self.host, port: self.port }
    }

    /// Combines host and port into the socket address to bind.
    pub fn sock_addr(&self) -> (addr: SocketAddress)
        ensures
            addr == self.spec_sock_addr(),
    {
        SocketAddress { host: self.host, port: self.port }
    }
}

/// Settings that hold for the cluster as a whole.
#[derive(Debug)]
pub struct ClusterConfiguration {
    pub cluster_name: String,
}

/// What a `ClusterConfiguration` is, as a mathematical value.
pub struct ClusterConfigurationView {
    pub cluster_name: Seq<char>,
}

impl View for ClusterConfiguration {
    type V = ClusterConfigurationView;

    open spec fn view(&self) -> ClusterConfigurationView {
        ClusterConfigurationView { cluster_name: self.cluster_name@ }
    }
}

impl Clone for ClusterConfiguration {
    fn clone(&self) -> (copy: Self)
        ensures
            copy@ == self@,
    {
        ClusterConfiguration { cluster_name: self.cluster_name.clone() }
    }
}

/// The configuration of one node of the cluster.
#[derive(Debug)]
pub struct NodeConfiguration {
    pub id: u64,
    pub private_transport: TransportConfiguration,
    pub public_transport: TransportConfiguration,
    pub working_directory: String,
}

/// What a `NodeConfiguration` is, as a mathematical value.
pub struct NodeConfigurationView {
    pub id: u64,
    pub private_transport: TransportConfiguration,
    pub public_transport: TransportConfiguration,
    pub working_directory: Seq<char>,
}

impl View for NodeConfiguration {
    type V = NodeConfigurationView;

    open spec fn view(&self) -> NodeConfigurationView {
        NodeConfigurationView {
            id: self.id,
            private_transport: self.private_transport,
            public_transport: self.public_transport,
            working_directory: self.working_directory@,
        }
    }
}

impl Clone for NodeConfiguration {
    fn clone(&self) -> (copy: Self)
        ensures
            copy@ == self@,
    {
        NodeConfiguration {
            id: self.id,
            private_transport: self.private_transport,
            public_transport: self.public_transport,
            working_directory: self.working_directory.clone(),
        }
    }
}

/// Some entry of `nodes` carries the id `id`.
pub open spec fn has_node(nodes: Seq<NodeConfigurationView>, id: u64) -> bool {
    exists|i: int| 0 <= i < nodes.len() && (#[trigger] nodes[i]).id == id
}

/// `at` is the index of the first entry of `nodes` that carries the id `id`.
pub open spec fn is_first_with_id(nodes: Seq<NodeConfigurationView>, id: u64, at: int) -> bool {
    &&& 0 <= at < nodes.len()
    &&& nodes[at].id == id
    &&& forall|j: int| 0 <= j < at ==> (#[trigger] nodes[j]).id != id
}

/// The index of the first entry of `nodes` that carries the id `id`; of no
/// meaning where `has_node(nodes, id)` does not hold.
pub open spec fn first_with_id(nodes: Seq<NodeConfigurationView>, id: u64) -> int {
    choose|at: int| is_first_with_id(nodes, id, at)
}

/// The first entry with a given id is found at one index only.
pub proof fn lemma_first_with_id_unique(nodes: Seq<NodeConfigurationView>, id: u64, at: int)
    requires
        is_first_with_id(nodes, id, at),
    ensures
        has_node(nodes, id),
        first_with_id(nodes, id) == at,
{
    let chosen = first_with_id(nodes, id);
    assert(is_first_with_id(nodes, id, chosen));
    if chosen < at {
        assert(nodes[chosen].id != id);
    } else if at < chosen {
        assert(nodes[at].id != id);
    }
}

/// No two entries of `nodes` carry the same id.
pub open spec fn ids_unique(nodes: Seq<NodeConfigurationView>) -> bool {
    forall|i: int, j: int|
        0 <= i < nodes.len() && 0 <= j < nodes.len() && i != j ==> nodes[i].id != nodes[j].id
}

/// The whole configuration file: the cluster's settings and its nodes, in the
/// order in which they were written.
#[derive(Debug)]
pub struct NimbusClusterConfiguration {
    pub cluster: ClusterConfiguration,
    pub nodes: Vec<NodeConfiguration>,
}

/// What a `NimbusClusterConfiguration` is, as a mathematical value.
pub struct NimbusClusterConfigurationView {
    pub cluster: ClusterConfigurationView,
    pub nodes: Seq<NodeConfigurationView>,
}

impl View for NimbusClusterConfiguration {
    type V = NimbusClusterConfigurationView;

    open spec fn view(&self) -> NimbusClusterConfigurationView {
        NimbusClusterConfigurationView {
            cluster: self.cluster@,
            nodes: Seq::new(self.nodes@.len(), |i: int| self.nodes@[i]@),
        }
    }
}

impl Clone for NimbusClusterConfiguration {
    fn clone(&self) -> (copy: Self)
        ensures
            copy@ == self@,
    {
        let mut nodes: Vec<NodeConfiguration> = Vec::new();
        let mut i: usize = 0;
        while i < self.nodes.len()
            invariant
                i <= self.nodes.len(),
                nodes.len() == i,
                forall|j: int| 0 <= j < i ==> (#[trigger] nodes@[j])@ == self.nodes@[j]@,
            decreases self.nodes.len() - i,
        {
            nodes.push(self.nodes[i].clone());
            i = i + 1;
        }
        let copy = NimbusClusterConfiguration { cluster: self.cluster.clone(), nodes };
        assert(copy@.nodes =~= self@.nodes);
        copy
    }
}

impl NimbusClusterConfiguration {
    /// The configuration is well formed: every node has an id of its own.
    pub open spec fn wf(&self) -> bool {
        ids_unique(self@.nodes)
    }

    /// Whether every node has an id of its own.
    pub fn has_unique_ids(&self) -> (unique: bool)
        ensures
            unique == self.wf(),
    {
        let n = self.nodes.len();
        let mut i: usize = 0;
        while i < n
            invariant
                n == self.nodes.len(),
                i <= n,
                forall|a: int, b: int|
                    0 <= a < i && 0 <= b < a ==> self@.nodes[a].id != self@.nodes[b].id,
            decreases n - i,
        {
            let mut j: usize = 0;
            while j < i
                invariant
                    n == self.nodes.len(),
                    i < n,
                    j <= i,
                    forall|b: int| 0 <= b < j ==> self@.nodes[i as int].id != self@.nodes[b].id,
                decreases i - j,
            {
                if self.nodes[i].id == self.nodes[j].id {
                    assert(self@.nodes[i as int].id == self@.nodes[j as int].id);
                    return false;
                }
                j = j + 1;
            }
            i = i + 1;
        }
        let ghost nodes = self@.nodes;
        assert forall|a: int, b: int|
            0 <= a < nodes.len() && 0 <= b < nodes.len() && a != b implies nodes[a].id
            != nodes[b].id by {
            if a < b {
                assert(nodes[b].id != nodes[a].id);
            }
        }
        true
    }
}

/// In a well-formed node list an id names one entry at most: the entry that
/// carries it is the first, and the only one, with that id.
pub proof fn lemma_unique_id_names_one_node(nodes: Seq<NodeConfigurationView>, id: u64, at: int)
    requires
        ids_unique(nodes),
        0 <= at < nodes.len(),
        nodes[at].id == id,
    ensures
        has_node(nodes, id),
        first_with_id(nodes, id) == at,
        forall|j: int| 0 <= j < nodes.len() && j != at ==> (#[trigger] nodes[j]).id != id,
{
    assert(is_first_with_id(nodes, id, at));
    lemma_first_with_id_unique(nodes, id, at);
}

} // verus!
