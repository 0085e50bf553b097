//! Bringing a node online: its two endpoints, the public and the private
//! one, are bound and served side by side, and the outcome of each is kept
//! apart from the other's.
//!
//! Binding, spawning and joining are left to the driver. This module holds
//! what is decided: which addresses to bind, when a listener is to run, and
//! when the node has nothing left to wait for.

use vstd::prelude::*;
use crate::conf::{
    first_with_id, has_node, NimbusClusterConfiguration, NodeConfigurationView, SocketAddress,
};
use crate::error::Error;
use crate::node::Node;

verus! {

/// One of the two endpoints of a node.
#[derive(Clone, Copy, Debug, PartialEq, Eq, Structural)]
pub enum Endpoint {
    Public,
    Private,
}

impl Endpoint {
    /// The sibling of this endpoint.
    pub open spec fn spec_other(self) -> Endpoint {
        match self {
            Endpoint::Public => Endpoint::Private,
            Endpoint::Private => Endpoint::Public,
        }
    }

    /// The sibling of this endpoint.
    #[verifier::when_used_as_spec(spec_other)]
    pub fn other(self) -> (sibling: Endpoint)
        ensures
            sibling == self.spec_other(),
    {
        match self {
            Endpoint::Public => Endpoint::Private,
            Endpoint::Private => Endpoint::Public,
        }
    }
}

/// The socket addresses of a node's two endpoints.
#[derive(Clone, Copy, Debug, PartialEq, Eq, Structural)]
pub struct Endpoints {
    pub public: SocketAddress,
    pub private: SocketAddress,
}

/// The addresses that a node with the configuration `own` listens on.
pub open spec fn endpoints_of(own: NodeConfigurationView) -> Endpoints {
    Endpoints {
        public: own.public_transport.spec_sock_addr(),
        private: own.private_transport.spec_sock_addr(),
    }
}

/// Reads the node's own configuration and gives the two addresses to bind.
pub fn resolve_endpoints(node: &Node) -> (addresses: Endpoints)
    ensures
        node.wf() ==> addresses == endpoints_of(node@.node_config),
{
    let own = node.own();
    Endpoints {
        public: own.public_transport.sock_addr(),
        private: own.private_transport.sock_addr(),
    }
}

/// How far one endpoint has come.
#[derive(Debug)]
pub enum ListenerStatus {
    /// Its address is not bound yet.
    Pending,
    /// Its listener task runs.
    Listening,
    /// It has come to its end: the bind failed, or the listener task
    /// completed with this result.
    Ended(Result<(), Error>),
}

/// What the driver reports of one endpoint.
#[derive(Debug)]
pub enum StartEvent {
    /// The address was bound.
    Bound,
    /// The address could not be bound.
    BindFailed(std::io::Error),
    /// The listener task completed.
    ListenerEnded(Result<(), Error>),
}

/// What the driver is to do next.
#[derive(Clone, Copy, Debug, PartialEq, Eq, Structural)]
pub enum StartAction {
    /// Spawn the listener task of this endpoint.
    Listen(Endpoint),
    /// Nothing now: at least one endpoint has not ended.
    Wait,
    /// Both endpoints have ended: report their outcomes.
    Report,
}

/// The status of an endpoint after an event. An event that does not fit the
/// status changes nothing.
pub open spec fn status_after(status: ListenerStatus, event: StartEvent) -> ListenerStatus {
    match (status, event) {
        (ListenerStatus::Pending, StartEvent::Bound) => ListenerStatus::Listening,
        (ListenerStatus::Pending, StartEvent::BindFailed(e)) => ListenerStatus::Ended(
            Err(Error::RuntimeIoError(e)),
        ),
        (ListenerStatus::Listening, StartEvent::ListenerEnded(result)) => ListenerStatus::Ended(
            result,
        ),
        _ => status,
    }
}

/// The outcomes of the two endpoints of a node, each on its own.
#[derive(Debug)]
pub struct NodeReport {
    pub public: Result<(), Error>,
    pub private: Result<(), Error>,
}

/// The start-up and run of one node: the status of its two endpoints.
#[derive(Debug)]
pub struct NodeStart {
    pub public: ListenerStatus,
    pub private: ListenerStatus,
}

impl NodeStart {
    /// The status of one endpoint.
    pub open spec fn status(&self, endpoint: Endpoint) -> ListenerStatus {
        match endpoint {
            Endpoint::Public => self.public,
            Endpoint::Private => self.private,
        }
    }

    /// Both endpoints have ended.
    pub open spec fn complete(&self) -> bool {
        self.public is Ended && self.private is Ended
    }

    /// The node after an event on one endpoint: that endpoint moves on, its
    /// sibling stays as it is.
    pub open spec fn after(&self, endpoint: Endpoint, event: StartEvent) -> NodeStart {
        match endpoint {
            Endpoint::Public => NodeStart {
                public: status_after(self.public, event),
                private: self.private,
            },
            Endpoint::Private => NodeStart {
                public: self.public,
                private: status_after(self.private, event),
            },
        }
    }

    /// The action that an event on one endpoint calls for.
    pub open spec fn action_after(&self, endpoint: Endpoint, event: StartEvent) -> StartAction {
        if self.status(endpoint) is Pending && event is Bound {
            StartAction::Listen(endpoint)
        } else if self.after(endpoint, event).complete() {
            StartAction::Report
        } else {
            StartAction::Wait
        }
    }

    /// A node of which neither endpoint is bound yet.
    pub fn new() -> (start: Self)
        ensures
            start.public is Pending,
            start.private is Pending,
    {
        NodeStart { public: ListenerStatus::Pending, private: ListenerStatus::Pending }
    }

    /// Whether both endpoints have ended.
    pub fn is_complete(&self) -> (done: bool)
        ensures
            done == self.complete(),
    {
        let public_ended = match &self.public {
            ListenerStatus::Ended(_) => true,
            _ => false,
        };
        let private_ended = match &self.private {
            ListenerStatus::Ended(_) => true,
            _ => false,
        };
        public_ended && private_ended
    }

    /// Takes an event on one endpoint and answers with what to do next.
    pub fn step(&mut self, endpoint: Endpoint, event: StartEvent) -> (action: StartAction)
        ensures
            *final(self) == old(self).after(endpoint, event),
            action == old(self).action_after(endpoint, event),
    {
        let listen = match endpoint {
            Endpoint::Public => advance(&mut self.public, event),
            Endpoint::Private => advance(&mut self.private, event),
        };
        if listen {
            StartAction::Listen(endpoint)
        } else if self.is_complete() {
            StartAction::Report
        } else {
            StartAction::Wait
        }
    }

    /// The outcomes of the two endpoints, once both have ended; nothing
    /// before that.
    pub fn report(self) -> (report: Option<NodeReport>)
        ensures
            report is Some <==> self.complete(),
            report matches Some(outcomes) ==> {
                &&& self.public == ListenerStatus::Ended(outcomes.public)
                &&& self.private == ListenerStatus::Ended(outcomes.private)
            },
    {
        match self.public {
            ListenerStatus::Ended(public) => match self.private {
                ListenerStatus::Ended(private) => Some(NodeReport { public, private }),
                _ => None,
            },
            _ => None,
        }
    }
}

/// A node that is ready to go online: its resource, the two addresses to
/// bind, and the record of its endpoints, neither of which is bound yet.
pub struct Startup {
    pub node: Node,
    pub addresses: Endpoints,
    pub progress: NodeStart,
}

/// Prepares the start of node `node` from the loaded cluster configuration.
/// It fails, before anything is bound, exactly when the configuration has no
/// node with that id.
pub fn node_start(config: NimbusClusterConfiguration, node: u64) -> (ready: Result<Startup, Error>)
    ensures
        ready is Ok <==> has_node(config@.nodes, node),
        match ready {
            Ok(startup) => {
                let own = config@.nodes[first_with_id(config@.nodes, node)];
                &&& startup.node.wf()
                &&& startup.node@.global_config == config@
                &&& startup.node@.node_config == own
                &&& startup.addresses == endpoints_of(own)
                &&& startup.progress.public is Pending
                &&& startup.progress.private is Pending
            },
            Err(e) => e == Error::NodeNotFound(node),
        },
{
    match Node::new(config, node) {
        Ok(resource) => {
            let addresses = resolve_endpoints(&resource);
            Ok(Startup { node: resource, addresses, progress: NodeStart::new() })
        },
        Err(e) => Err(e),
    }
}

/// Moves one endpoint on by one event, and says whether its listener is to
/// be spawned now.
fn advance(status: &mut ListenerStatus, event: StartEvent) -> (listen: bool)
    ensures
        *final(status) == status_after(*old(status), event),
        listen <==> *old(status) is Pending && event is Bound,
{
    let pending = match &*status {
        ListenerStatus::Pending => true,
        _ => false,
    };
    let listening = match &*status {
        ListenerStatus::Listening => true,
        _ => false,
    };
    match event {
        StartEvent::Bound => {
            if pending {
                *status = ListenerStatus::Listening;
            }
            pending
        },
        StartEvent::BindFailed(e) => {
            if pending {
                *status = ListenerStatus::Ended(Err(Error::RuntimeIoError(e)));
            }
            false
        },
        StartEvent::ListenerEnded(result) => {
            if listening {
                *status = ListenerStatus::Ended(result);
            }
            false
        },
    }
}

/// Siblings are independent: an event on one endpoint leaves the status of
/// the other as it was.
pub proof fn lemma_sibling_untouched(start: NodeStart, endpoint: Endpoint, event: StartEvent)
    ensures
        start.after(endpoint, event).status(endpoint.other()) == start.status(endpoint.other()),
        start.after(endpoint, event).status(endpoint) == status_after(
            start.status(endpoint),
            event,
        ),
{
}

/// A failed bind is borne by its own endpoint alone: it ends that endpoint
/// with the failure, and the sibling, if its address is bound before or
/// after, still gets its listener; while that listener runs the node does not
/// report.
pub proof fn lemma_bind_failure_isolated(
    start: NodeStart,
    endpoint: Endpoint,
    failure: std::io::Error,
)
    requires
        start.status(endpoint) is Pending,
        start.status(endpoint.other()) is Pending,
    ensures
        ({
            let failed_first = start.after(endpoint, StartEvent::BindFailed(failure));
            let bound_first = start.after(endpoint.other(), StartEvent::Bound);
            let both = failed_first.after(endpoint.other(), StartEvent::Bound);
            &&& start.action_after(endpoint, StartEvent::BindFailed(failure)) == StartAction::Wait
            &&& failed_first.action_after(endpoint.other(), StartEvent::Bound)
                == StartAction::Listen(endpoint.other())
            &&& start.action_after(endpoint.other(), StartEvent::Bound) == StartAction::Listen(
                endpoint.other(),
            )
            &&& bound_first.action_after(endpoint, StartEvent::BindFailed(failure))
                == StartAction::Wait
            &&& both == bound_first.after(endpoint, StartEvent::BindFailed(failure))
            &&& both.status(endpoint) == ListenerStatus::Ended(
                Err(Error::RuntimeIoError(failure)),
            )
            &&& both.status(endpoint.other()) is Listening
            &&& !both.complete()
        }),
{
}

} // verus!
