//! The closed set of operations and the execution model each one runs under.

use vstd::prelude::*;

verus! {

/// One operation of the node binary. `RunNode` is the default when no
/// maintenance command is given.
#[derive(Clone, Copy, Debug, PartialEq, Eq)]
pub enum Command {
    BuildSpec,
    CheckBlock,
    ExportBlocks,
    ExportState,
    ImportBlocks,
    PurgeChain,
    Revert,
    RunNode,
}

/// How the work of a command is driven to its end.
#[derive(Clone, Copy, Debug, PartialEq, Eq)]
pub enum ExecutionModel {
    /// Runs to completion on the calling thread.
    Blocking,
    /// An asynchronous unit of work is awaited, then its task scheduler is
    /// torn down before the result is reported.
    SuspendAndTeardown,
    /// As `SuspendAndTeardown`, but the work only ends on an external
    /// shutdown signal.
    SuspendUntilShutdown,
}

impl ExecutionModel {
    /// Whether the work is an asynchronous unit that is awaited, with a task
    /// scheduler that is torn down once the work has ended and before the
    /// result is reported.
    pub open spec fn spec_tears_down(self) -> bool {
        self != ExecutionModel::Blocking
    }

    /// Whether the work comes to an end by itself, without a signal from
    /// outside.
    pub open spec fn spec_ends_by_itself(self) -> bool {
        self != ExecutionModel::SuspendUntilShutdown
    }

    pub fn tears_down(self) -> (suspended: bool)
        ensures
            suspended == self.spec_tears_down(),
    {
        match self {
            ExecutionModel::Blocking => false,
            ExecutionModel::SuspendAndTeardown => true,
            ExecutionModel::SuspendUntilShutdown => true,
        }
    }

    pub fn ends_by_itself(self) -> (ends: bool)
        ensures
            ends == self.spec_ends_by_itself(),
    {
        match self {
            ExecutionModel::Blocking => true,
            ExecutionModel::SuspendAndTeardown => true,
            ExecutionModel::SuspendUntilShutdown => false,
        }
    }
}

/// Something a command's handler works on.
#[derive(Clone, Copy, Debug, PartialEq, Eq)]
pub enum Resource {
    /// The chain specification of the configuration.
    ChainSpec,
    /// The network parameters of the configuration.
    Network,
    /// The database handle of the configuration.
    Database,
    /// The storage client of the partial component set.
    Client,
    /// The import queue of the partial component set.
    ImportQueue,
    /// The storage backend of the partial component set.
    Backend,
}

impl Resource {
    /// Whether the resource is a field of the partial component set, and not
    /// of the configuration.
    pub open spec fn spec_is_partial_component(self) -> bool {
        self == Resource::Client || self == Resource::ImportQueue || self == Resource::Backend
    }

    pub fn is_partial_component(self) -> (partial: bool)
        ensures
            partial == self.spec_is_partial_component(),
    {
        match self {
            Resource::Client => true,
            Resource::ImportQueue => true,
            Resource::Backend => true,
            _ => false,
        }
    }
}

impl Command {
    /// The execution model of each command.
    pub open spec fn spec_execution_model(self) -> ExecutionModel {
        match self {
            Command::BuildSpec | Command::PurgeChain => ExecutionModel::Blocking,
            Command::RunNode => ExecutionModel::SuspendUntilShutdown,
            _ => ExecutionModel::SuspendAndTeardown,
        }
    }

    pub fn execution_model(self) -> (model: ExecutionModel)
        ensures
            model == self.spec_execution_model(),
    {
        match self {
            Command::BuildSpec => ExecutionModel::Blocking,
            Command::CheckBlock => ExecutionModel::SuspendAndTeardown,
            Command::ExportBlocks => ExecutionModel::SuspendAndTeardown,
            Command::ExportState => ExecutionModel::SuspendAndTeardown,
            Command::ImportBlocks => ExecutionModel::SuspendAndTeardown,
            Command::PurgeChain => ExecutionModel::Blocking,
            Command::Revert => ExecutionModel::SuspendAndTeardown,
            Command::RunNode => ExecutionModel::SuspendUntilShutdown,
        }
    }

    /// What the handler of each command is handed, in the order of its
    /// parameters. The node itself has no handler.
    pub open spec fn spec_inputs(self) -> Seq<Resource> {
        match self {
            Command::BuildSpec => seq![Resource::ChainSpec, Resource::Network],
            Command::CheckBlock => seq![Resource::Client, Resource::ImportQueue],
            Command::ExportBlocks => seq![Resource::Client, Resource::Database],
            Command::ExportState => seq![Resource::Client, Resource::ChainSpec],
            Command::ImportBlocks => seq![Resource::Client, Resource::ImportQueue],
            Command::PurgeChain => seq![Resource::Database],
            Command::Revert => seq![Resource::Client, Resource::Backend],
            Command::RunNode => seq![],
        }
    }

    /// Whether the command works on a partial component set, which is then
    /// built before its handler runs.
    pub open spec fn spec_needs_components(self) -> bool {
        self.spec_execution_model() == ExecutionModel::SuspendAndTeardown
    }

    /// Whether the command is a maintenance operation, and not the node
    /// itself.
    pub open spec fn spec_is_maintenance(self) -> bool {
        self != Command::RunNode
    }

    pub fn inputs(self) -> (inputs: Vec<Resource>)
        ensures
            inputs@ == self.spec_inputs(),
    {
        match self {
            Command::BuildSpec => vec![Resource::ChainSpec, Resource::Network],
            Command::CheckBlock => vec![Resource::Client, Resource::ImportQueue],
            Command::ExportBlocks => vec![Resource::Client, Resource::Database],
            Command::ExportState => vec![Resource::Client, Resource::ChainSpec],
            Command::ImportBlocks => vec![Resource::Client, Resource::ImportQueue],
            Command::PurgeChain => vec![Resource::Database],
            Command::Revert => vec![Resource::Client, Resource::Backend],
            Command::RunNode => Vec::new(),
        }
    }

    pub fn needs_components(self) -> (needed: bool)
        ensures
            needed == self.spec_needs_components(),
    {
        match self.execution_model() {
            ExecutionModel::SuspendAndTeardown => true,
            _ => false,
        }
    }

    pub fn is_maintenance(self) -> (maintenance: bool)
        ensures
            maintenance == self.spec_is_maintenance(),
    {
        match self {
            Command::RunNode => false,
            _ => true,
        }
    }
}

/// A partial component set is built for exactly the commands whose handler
/// takes one of its fields, and those are the commands that are awaited and
/// torn down. Every such handler takes the client first.
pub proof fn law_components_follow_inputs(command: Command)
    ensures
        command.spec_needs_components() <==> exists|i: int|
            0 <= i < command.spec_inputs().len()
                && #[trigger] command.spec_inputs()[i].spec_is_partial_component(),
        command.spec_needs_components() ==> command.spec_inputs()[0] == Resource::Client,
        command.spec_is_maintenance() <==> command.spec_inputs().len() > 0,
{
    if command.spec_needs_components() {
        assert(command.spec_inputs()[0].spec_is_partial_component());
    }
}

/// The blocking commands are the two that touch only the configuration, and
/// the node alone runs until shutdown.
pub proof fn law_execution_models(command: Command)
    ensures
        command.spec_execution_model() == ExecutionModel::Blocking <==> (command
            == Command::BuildSpec || command == Command::PurgeChain),
        command.spec_execution_model() == ExecutionModel::SuspendUntilShutdown <==> command
            == Command::RunNode,
{
}

} // verus!
