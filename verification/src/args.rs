//! The command surface: the arguments of the command line, as parsed values,
//! and the operation that each of them stands for.
//!
//! Carrying an operation out is left to the program around this library; to
//! run an argument here is to resolve it to that operation.

use vstd::prelude::*;

verus! {

/// An operation on a node, with the path of the cluster configuration and
/// the id of the node.
#[derive(Debug, PartialEq, Clone)]
pub enum Invocation {
    /// Bring the node online and serve until it ends.
    NodeStart { config: String, node: u64 },
    /// Stop the node.
    NodeStop { config: String, node: u64 },
}

/// What an `Invocation` is, as a mathematical value.
pub enum InvocationView {
    NodeStart { config: Seq<char>, node: u64 },
    NodeStop { config: Seq<char>, node: u64 },
}

impl View for Invocation {
    type V = InvocationView;

    open spec fn view(&self) -> InvocationView {
        match *self {
            Invocation::NodeStart { config, node } => InvocationView::NodeStart {
                config: config@,
                node,
            },
            Invocation::NodeStop { config, node } => InvocationView::NodeStop {
                config: config@,
                node,
            },
        }
    }
}

/// The top of the command line.
#[derive(Debug, PartialEq, Clone)]
pub struct NimbusArg {
    pub subcommand: NimbusSubCommand,
}

/// The subcommands of the top level.
#[derive(Debug, PartialEq, Clone)]
pub enum NimbusSubCommand {
    Node(NodeArg),
}

/// `node`: manage a node.
#[derive(Debug, PartialEq, Clone)]
pub struct NodeArg {
    pub node_subcommand: NodeSubCommand,
}

/// The subcommands of `node`.
#[derive(Debug, PartialEq, Clone)]
pub enum NodeSubCommand {
    Start(NodeStartArg),
    Stop(NodeStopArg),
}

/// `node start`: the configuration's path and the node's id.
#[derive(Debug, PartialEq, Clone)]
pub struct NodeStartArg {
    pub config: String,
    pub node: u64,
}

/// `node stop`: the configuration's path and the node's id.
#[derive(Debug, PartialEq, Clone)]
pub struct NodeStopArg {
    pub config: String,
    pub node: u64,
}

/// An argument that can be run: it stands for exactly one operation.
pub trait ArgRunner {
    /// The operation that this argument stands for.
    spec fn invocation(&self) -> InvocationView;

    /// Resolves the argument to its operation.
    fn run(&self) -> (call: Invocation)
        ensures
            call@ == self.invocation(),
    ;
}

impl ArgRunner for NodeStartArg {
    open spec fn invocation(&self) -> InvocationView {
        InvocationView::NodeStart { config: self.config@, node: self.node }
    }

    fn run(&self) -> (call: Invocation) {
        Invocation::NodeStart { config: self.config.clone(), node: self.node }
    }
}

impl ArgRunner for NodeStopArg {
    open spec fn invocation(&self) -> InvocationView {
        InvocationView::NodeStop { config: self.config@, node: self.node }
    }

    fn run(&self) -> (call: Invocation) {
        Invocation::NodeStop { config: self.config.clone(), node: self.node }
    }
}

impl ArgRunner for NodeSubCommand {
    open spec fn invocation(&self) -> InvocationView {
        match *self {
            NodeSubCommand::Start(start_arg) => start_arg.invocation(),
            NodeSubCommand::Stop(stop_arg) => stop_arg.invocation(),
        }
    }

    fn run(&self) -> (call: Invocation) {
        match self {
            NodeSubCommand::Start(start_arg) => start_arg.run(),
            NodeSubCommand::Stop(stop_arg) => stop_arg.run(),
        }
    }
}

impl ArgRunner for NodeArg {
    open spec fn invocation(&self) -> InvocationView {
        self.node_subcommand.invocation()
    }

    fn run(&self) -> (call: Invocation) {
        self.node_subcommand.run()
    }
}

impl ArgRunner for NimbusSubCommand {
    open spec fn invocation(&self) -> InvocationView {
        match *self {
            NimbusSubCommand::Node(node) => node.invocation(),
        }
    }

    fn run(&self) -> (call: Invocation) {
        match self {
            NimbusSubCommand::Node(node) => node.run(),
        }
    }
}

impl ArgRunner for NimbusArg {
    open spec fn invocation(&self) -> InvocationView {
        self.subcommand.invocation()
    }

    fn run(&self) -> (call: Invocation) {
        self.subcommand.run()
    }
}

} // verus!
