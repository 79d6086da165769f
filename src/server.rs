//! Decisions of the receive loop that drives a session.
use crate::errno::enodev;
use vstd::prelude::*;

verus! {

/// What the receive loop does after one receive.
#[derive(Clone, Copy, Debug, PartialEq, Eq, Structural)]
pub enum ReceiveStep {
    /// A frame arrived: process it and keep receiving.
    Dispatch,
    /// The kernel closed the connection: stop, successfully.
    Shutdown,
    /// The receive failed otherwise: stop with that error.
    Fail,
}

/// The step after a receive that gave `received`: the frame's length, or the raw OS
/// error number if there is one; `nodev` is the host's number for a missing device.
pub open spec fn step_after(received: Result<usize, Option<i32>>, nodev: i32) -> ReceiveStep {
    match received {
        Ok(_) => ReceiveStep::Dispatch,
        Err(Some(code)) => if code == nodev {
            ReceiveStep::Shutdown
        } else {
            ReceiveStep::Fail
        },
        Err(None) => ReceiveStep::Fail,
    }
}

/// The step after a receive, given the host's number for a missing device.
pub fn receive_step(received: &Result<usize, Option<i32>>, nodev: i32) -> (r: ReceiveStep)
    ensures
        r == step_after(*received, nodev),
{
    match received {
        Ok(_) => ReceiveStep::Dispatch,
        Err(Some(code)) => if *code == nodev {
            ReceiveStep::Shutdown
        } else {
            ReceiveStep::Fail
        },
        Err(None) => ReceiveStep::Fail,
    }
}

/// The step after a receive on this host: a closed connection (`ENODEV`) ends the loop
/// successfully, any other error ends it with that error.
pub fn next_step(received: &Result<usize, Option<i32>>) -> (r: ReceiveStep)
    ensures
        exists|nodev: i32| nodev > 0 && r == step_after(*received, nodev),
        received is Ok <==> r == ReceiveStep::Dispatch,
        received matches Err(None) ==> r == ReceiveStep::Fail,
        r == ReceiveStep::Shutdown ==> (received matches Err(Some(code)) && code > 0),
{
    let nodev = enodev();
    receive_step(received, nodev)
}

} // verus!
