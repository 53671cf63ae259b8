//! The connection server loop, modelled as decisions over accept events.
//!
//! The production server runs `loop { accept; spawn }` forever. The loop
//! itself performs only I/O; every decision it takes is a function of the
//! event it just observed, and those decisions are what this module
//! verifies: a failed accept is retried rather than terminating the loop,
//! every accepted connection is handed to its own handler, and a failure
//! while serving one connection is contained there and never reaches the
//! loop or any other connection.

use vstd::prelude::*;

verus! {

/// How serving one accepted connection turns out: the request/response
/// exchanges all complete, or a protocol or I/O error cuts them short.
#[derive(Clone, Copy, PartialEq, Eq, Structural, Debug)]
pub enum ConnFate {
    Served,
    Failed,
}

/// One observation of the accept loop: either a connection was accepted
/// (carrying how serving it will turn out) or `accept` itself failed.
#[derive(Clone, Copy, PartialEq, Eq, Structural, Debug)]
pub enum AcceptEvent {
    Incoming(ConnFate),
    AcceptFailed,
}

/// What the loop does in reaction to one event. There is deliberately no
/// variant that stops the loop: it has no normal exit.
#[derive(Clone, Copy, PartialEq, Eq, Structural, Debug)]
pub enum LoopAction {
    SpawnHandler,
    RetryAccept,
}

/// What the boundary of one connection's handler reports back: the
/// connection completed, or its failure was logged and discarded.
#[derive(Clone, Copy, PartialEq, Eq, Structural, Debug)]
pub enum ServeOutcome {
    Completed,
    FailureContained,
}

/// The outcome a connection's own fate determines, independent of any
/// other connection.
pub open spec fn outcome_of(fate: ConnFate) -> ServeOutcome {
    match fate {
        ConnFate::Served => ServeOutcome::Completed,
        ConnFate::Failed => ServeOutcome::FailureContained,
    }
}

/// The fates of the connections actually accepted, in order. A failed
/// accept contributes nothing: the loop retries and moves on.
pub open spec fn incoming_fates(events: Seq<AcceptEvent>) -> Seq<ConnFate>
    decreases events.len(),
{
    if events.len() == 0 {
        Seq::empty()
    } else {
        let prefix = incoming_fates(events.drop_last());
        match events.last() {
            AcceptEvent::Incoming(fate) => prefix.push(fate),
            AcceptEvent::AcceptFailed => prefix,
        }
    }
}

/// The loop's reaction to a single event: spawn a handler for every
/// accepted connection, retry immediately on a failed accept. No event
/// terminates the loop.
pub fn accept_step(event: &AcceptEvent) -> (action: LoopAction)
    ensures
        action is SpawnHandler <==> event is Incoming,
        action is RetryAccept <==> event is AcceptFailed,
{
    match event {
        AcceptEvent::Incoming(_) => LoopAction::SpawnHandler,
        AcceptEvent::AcceptFailed => LoopAction::RetryAccept,
    }
}

/// The boundary of one connection's unit of execution: a failure is
/// contained and reported as such, never propagated. The function is
/// total, so the caller's loop survives every fate.
pub fn serve_connection(fate: &ConnFate) -> (out: ServeOutcome)
    ensures
        out == outcome_of(*fate),
{
    match fate {
        ConnFate::Served => ServeOutcome::Completed,
        ConnFate::Failed => ServeOutcome::FailureContained,
    }
}

/// Drives the loop's decisions over a finite trace of events: every
/// accepted connection gets exactly one outcome, each determined by that
/// connection's own fate alone; failed accepts leave no trace in the
/// outcomes.
pub fn run_accept_loop(events: &Vec<AcceptEvent>) -> (outs: Vec<ServeOutcome>)
    ensures
        outs@ == incoming_fates(events@).map_values(|fate: ConnFate| outcome_of(fate)),
{
    let mut outs: Vec<ServeOutcome> = Vec::new();
    let mut i: usize = 0;
    while i < events.len()
        invariant
            0 <= i <= events@.len(),
            outs@ == incoming_fates(events@.take(i as int)).map_values(
                |fate: ConnFate| outcome_of(fate),
            ),
        decreases events@.len() - i,
    {
        proof {
            assert(events@.take(i + 1).drop_last() =~= events@.take(i as int));
            assert(events@.take(i + 1).last() == events@[i as int]);
        }
        match accept_step(&events[i]) {
            LoopAction::SpawnHandler => {
                let fate = match &events[i] {
                    AcceptEvent::Incoming(fate) => *fate,
                    AcceptEvent::AcceptFailed => {
                        proof {
                            assert(false);
                        }
                        ConnFate::Served
                    },
                };
                let out = serve_connection(&fate);
                outs.push(out);
                proof {
                    assert(incoming_fates(events@.take(i + 1)) =~= incoming_fates(
                        events@.take(i as int),
                    ).push(fate));
                }
            },
            LoopAction::RetryAccept => {
                proof {
                    assert(incoming_fates(events@.take(i + 1)) =~= incoming_fates(
                        events@.take(i as int),
                    ));
                }
            },
        }
        i = i + 1;
    }
    proof {
        assert(events@.take(events@.len() as int) =~= events@);
    }
    outs
}

/// Fault isolation: change one connection's fate to a failure and no
/// other connection's outcome changes. The failing connection pays for
/// its own failure; the remaining ones are served as before.
pub proof fn lemma_fault_isolation(fates: Seq<ConnFate>, j: int)
    requires
        0 <= j < fates.len(),
    ensures
        ({
            let before = fates.map_values(|fate: ConnFate| outcome_of(fate));
            let after = fates.update(j, ConnFate::Failed).map_values(
                |fate: ConnFate| outcome_of(fate),
            );
            &&& after.len() == before.len()
            &&& forall|i: int| 0 <= i < before.len() && i != j ==> after[i] == before[i]
            &&& after[j] == ServeOutcome::FailureContained
        }),
{
}

/// A failed accept is invisible to every connection: inserting an
/// `AcceptFailed` event anywhere in the trace leaves the accepted
/// connections, and hence all their outcomes, unchanged.
pub proof fn lemma_accept_failure_harmless(events: Seq<AcceptEvent>, k: int)
    requires
        0 <= k <= events.len(),
    ensures
        incoming_fates(events.insert(k, AcceptEvent::AcceptFailed)) == incoming_fates(events),
    decreases events.len(),
{
    let inserted = events.insert(k, AcceptEvent::AcceptFailed);
    if k == events.len() {
        assert(inserted.drop_last() =~= events);
    } else {
        assert(inserted.last() == events.last());
        assert(inserted.drop_last() =~= events.drop_last().insert(k, AcceptEvent::AcceptFailed));
        lemma_accept_failure_harmless(events.drop_last(), k);
    }
}

} // verus!
