//! Starting the node itself: the precondition on authoring nodes, and the
//! service a role is served by.

use vstd::prelude::*;
use vstd::string::*;

verus! {

/// The participation mode of a node, as its configuration resolves it.
#[derive(Clone, Copy, Debug, PartialEq, Eq)]
pub enum Role {
    Full,
    Light,
    Sentry,
    /// The node authors blocks.
    Validator,
}

/// The service that runs a node.
#[derive(Clone, Copy, Debug, PartialEq, Eq)]
pub enum Service {
    Light,
    Full,
}

/// Why a node is refused before any service starts.
#[derive(Clone, Copy, Debug, PartialEq, Eq)]
pub enum LaunchError {
    /// The node is to author blocks and nothing names its author.
    MissingAuthor,
}

impl LaunchError {
    pub open spec fn spec_message(self) -> Seq<char> {
        match self {
            LaunchError::MissingAuthor => "Authoring nodes must specify an author account id"@,
        }
    }

    /// The text reported to the invoking shell.
    pub fn message(&self) -> (text: String)
        ensures
            text@ == self.spec_message(),
    {
        match self {
            LaunchError::MissingAuthor => {
                "Authoring nodes must specify an author account id".to_owned()
            },
        }
    }
}

/// A validator without an author is refused. Every other node starts: a
/// light client on the light service, any other role on the full service.
pub open spec fn launch_decision(role: Role, author_present: bool) -> Result<Service, LaunchError> {
    if role == Role::Validator && !author_present {
        Err(LaunchError::MissingAuthor)
    } else if role == Role::Light {
        Ok(Service::Light)
    } else {
        Ok(Service::Full)
    }
}

/// Decides whether a node of the given role may start, and on which
/// service.
pub fn select_service(role: Role, author_present: bool) -> (decision: Result<Service, LaunchError>)
    ensures
        decision == launch_decision(role, author_present),
{
    match role {
        Role::Validator => {
            if author_present {
                Ok(Service::Full)
            } else {
                Err(LaunchError::MissingAuthor)
            }
        },
        Role::Light => Ok(Service::Light),
        Role::Full => Ok(Service::Full),
        Role::Sentry => Ok(Service::Full),
    }
}

/// A node is refused exactly where it is a validator and has no author, and
/// a node with an author is never refused.
pub proof fn law_only_unnamed_validators_are_refused(role: Role, author_present: bool)
    ensures
        launch_decision(role, author_present) is Err <==> (role == Role::Validator
            && !author_present),
        launch_decision(role, true) is Ok,
        launch_decision(role, author_present) == Ok::<Service, LaunchError>(Service::Light)
            <==> role == Role::Light,
{
}

} // verus!
