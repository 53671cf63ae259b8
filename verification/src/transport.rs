//! Transport listener selection and the bind-time preparation plan.
//!
//! The deployment mode is chosen once at startup and never re-evaluated:
//! development binds a local TCP port, production binds a local
//! inter-process socket at a fixed filesystem path. Before the production
//! bind, a stale socket file left by an unclean shutdown must be removed
//! (binding over it would fail), and after the bind the socket's
//! permissions are relaxed for the reverse proxy. This module computes
//! that plan as data and proves, over a small filesystem model, that the
//! plan binds successfully whether or not a stale file is present.

use vstd::prelude::*;

verus! {

/// The two terminal configurations a process can start in.
#[derive(Clone, Copy, PartialEq, Eq, Structural, Debug)]
pub enum DeployMode {
    Development,
    Production,
}

/// One step of bind-time preparation, performed by the process at startup.
#[derive(Clone, Copy, PartialEq, Eq, Structural, Debug)]
pub enum BindStep {
    RemoveStaleSocket,
    BindUnixSocket,
    RelaxSocketPermissions,
    BindTcpPort,
}

/// The filesystem and listener state the plan acts on: whether a socket
/// file sits at the fixed path, and whether a listener is bound.
pub struct SocketState {
    pub socket_file_present: bool,
    pub bound: bool,
}

/// Effect of one step on the socket state; `None` is a failed step.
/// Binding the inter-process socket fails exactly when a file already
/// occupies the path; relaxing permissions requires a bound socket.
pub open spec fn apply_step(state: SocketState, step: BindStep) -> Option<SocketState> {
    match step {
        BindStep::RemoveStaleSocket => Some(
            SocketState { socket_file_present: false, ..state },
        ),
        BindStep::BindUnixSocket => if state.socket_file_present {
            None
        } else {
            Some(SocketState { socket_file_present: true, bound: true })
        },
        BindStep::RelaxSocketPermissions => if state.bound {
            Some(state)
        } else {
            None
        },
        BindStep::BindTcpPort => Some(SocketState { bound: true, ..state }),
    }
}

/// Runs a plan step by step; the whole plan fails if any step fails.
pub open spec fn run_plan(state: SocketState, plan: Seq<BindStep>) -> Option<SocketState>
    decreases plan.len(),
{
    if plan.len() == 0 {
        Some(state)
    } else {
        match apply_step(state, plan[0]) {
            Some(next) => run_plan(next, plan.drop_first()),
            None => None,
        }
    }
}

/// The preparation plan the development configuration follows.
pub open spec fn development_plan() -> Seq<BindStep> {
    seq![BindStep::BindTcpPort]
}

/// The preparation plan the production configuration follows: remove a
/// stale socket file first if one is present, then bind, then relax the
/// socket's permissions for the reverse proxy.
pub open spec fn production_plan(stale_socket_exists: bool) -> Seq<BindStep> {
    if stale_socket_exists {
        seq![BindStep::RemoveStaleSocket, BindStep::BindUnixSocket, BindStep::RelaxSocketPermissions]
    } else {
        seq![BindStep::BindUnixSocket, BindStep::RelaxSocketPermissions]
    }
}

/// Computes the bind-time plan for the chosen mode. The choice is made
/// once, at startup; a residual socket file from a prior run is expected
/// and handled, not an error.
pub fn bind_plan(mode: &DeployMode, stale_socket_exists: bool) -> (plan: Vec<BindStep>)
    ensures
        mode is Development ==> plan@ == development_plan(),
        mode is Production ==> plan@ == production_plan(stale_socket_exists),
{
    let mut plan: Vec<BindStep> = Vec::new();
    match mode {
        DeployMode::Development => {
            plan.push(BindStep::BindTcpPort);
            proof {
                assert(plan@ =~= development_plan());
            }
        },
        DeployMode::Production => {
            if stale_socket_exists {
                plan.push(BindStep::RemoveStaleSocket);
            }
            plan.push(BindStep::BindUnixSocket);
            plan.push(BindStep::RelaxSocketPermissions);
            proof {
                assert(plan@ =~= production_plan(stale_socket_exists));
            }
        },
    }
    plan
}

/// Binding the production transport succeeds even when a stale socket
/// file from a prior run occupies the path: the plan removes it before
/// binding, and every step of the plan succeeds.
pub proof fn lemma_production_bind_succeeds(stale_socket_exists: bool)
    ensures
        ({
            let start = SocketState { socket_file_present: stale_socket_exists, bound: false };
            let end = run_plan(start, production_plan(stale_socket_exists));
            end is Some && end.unwrap().bound
        }),
{
    reveal_with_fuel(run_plan, 4);
}

/// The development plan binds from any starting state: the TCP port is
/// independent of the socket path.
pub proof fn lemma_development_bind_succeeds(start: SocketState)
    ensures
        run_plan(start, development_plan()) is Some,
        run_plan(start, development_plan()).unwrap().bound,
{
    reveal_with_fuel(run_plan, 2);
}

} // verus!
