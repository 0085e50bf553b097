//! The node resource: the cluster configuration and this node's own slice of
//! it, each behind its own reader-writer lock, shared by every task of the node.

use std::sync::Arc;
use vstd::prelude::*;
use vstd::rwlock::RwLock;
use crate::conf::{
    first_with_id, has_node, is_first_with_id, lemma_first_with_id_unique,
    NimbusClusterConfiguration, NimbusClusterConfigurationView, NodeConfiguration,
    NodeConfigurationView,
};
use crate::error::Error;

verus! {

/// Identity and configuration of one node process. The two values are locked
/// independently of each other; readers of one lock never exclude each other.
pub struct Node {
    pub global_config: Arc<
        RwLock<NimbusClusterConfiguration, spec_fn(NimbusClusterConfiguration) -> bool>,
    >,
    pub node_config: Arc<RwLock<NodeConfiguration, spec_fn(NodeConfiguration) -> bool>>,
}

/// What a `Node` holds, as a mathematical value.
pub struct NodeView {
    pub global_config: NimbusClusterConfigurationView,
    pub node_config: NodeConfigurationView,
}

impl View for Node {
    type V = NodeView;

    open spec fn view(&self) -> NodeView {
        NodeView {
            global_config: choose|c: NimbusClusterConfigurationView| self.guards_cluster(c),
            node_config: choose|n: NodeConfigurationView| self.guards_node(n),
        }
    }
}

impl Node {
    /// The lock on the cluster configuration admits exactly the values that
    /// are `cluster`.
    pub open spec fn guards_cluster(&self, cluster: NimbusClusterConfigurationView) -> bool {
        forall|v: NimbusClusterConfiguration| #[trigger]
            self.global_config.inv(v) <==> v@ == cluster
    }

    /// The lock on the node's own configuration admits exactly the values
    /// that are `node`.
    pub open spec fn guards_node(&self, node: NodeConfigurationView) -> bool {
        forall|v: NodeConfiguration| #[trigger] self.node_config.inv(v) <==> v@ == node
    }

    /// Each lock admits the value that the view names, and no other.
    pub open spec fn wf(&self) -> bool {
        &&& self.guards_cluster(self@.global_config)
        &&& self.guards_node(self@.node_config)
    }

    /// Builds the resource of node `node` from the cluster configuration. It
    /// succeeds exactly when some entry of the node list carries that id, and
    /// then holds the whole configuration and the first such entry.
    pub fn new(config: NimbusClusterConfiguration, node: u64) -> (made: Result<Self, Error>)
        ensures
            made is Ok <==> has_node(config@.nodes, node),
            match made {
                Ok(resource) => {
                    &&& resource.wf()
                    &&& resource@.global_config == config@
                    &&& resource@.node_config == config@.nodes[first_with_id(config@.nodes, node)]
                },
                Err(e) => e == Error::NodeNotFound(node),
            },
    {
        let mut at: usize = 0;
        while at < config.nodes.len() && config.nodes[at].id != node
            invariant
                at <= config.nodes.len(),
                forall|j: int| 0 <= j < at ==> (#[trigger] config@.nodes[j]).id != node,
            decreases config.nodes.len() - at,
        {
            at = at + 1;
        }
        if at == config.nodes.len() {
            return Err(Error::NodeNotFound(node));
        }
        let own = config.nodes[at].clone();
        let ghost own_value = own;
        let ghost cluster_value = config;
        proof {
            lemma_first_with_id_unique(config@.nodes, node, at as int);
        }
        let node_config = Arc::new(
            RwLock::new(own, Ghost(|v: NodeConfiguration| v@ == own_value@)),
        );
        let global_config = Arc::new(
            RwLock::new(config, Ghost(|v: NimbusClusterConfiguration| v@ == cluster_value@)),
        );
        let resource = Node { global_config, node_config };
        proof {
            assert(resource.guards_cluster(cluster_value@));
            assert(resource.guards_node(own_value@));
            assert(resource.global_config.inv(cluster_value));
            assert(resource.node_config.inv(own_value));
        }
        Ok(resource)
    }

    /// A copy of the cluster configuration, read under the shared lock.
    pub fn cluster(&self) -> (copy: NimbusClusterConfiguration)
        ensures
            self.wf() ==> copy@ == self@.global_config,
    {
        let handle = self.global_config.acquire_read();
        let copy = handle.borrow().clone();
        handle.release_read();
        copy
    }

    /// A copy of this node's own configuration, read under the shared lock.
    pub fn own(&self) -> (copy: NodeConfiguration)
        ensures
            self.wf() ==> copy@ == self@.node_config,
    {
        let handle = self.node_config.acquire_read();
        let copy = handle.borrow().clone();
        handle.release_read();
        copy
    }
}

} // verus!
