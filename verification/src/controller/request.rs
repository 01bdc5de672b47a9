//! The slot of a pin: the operation its handle asks for, and how far the
//! runner has come with it.

use crate::common::PinState;
use vstd::prelude::*;

verus! {

/// What a handle in input mode asks for.
#[derive(Debug, Clone, Copy, PartialEq, Eq, Structural)]
pub enum InputOp {
    /// Read the pin once. The runner puts the level in `response`.
    Read { response: Option<PinState> },
    /// The runner sets the compare value to the opposite state and waits for an interrupt.
    WaitForState(PinState),
    /// The runner reads the GPIO reg, sets the compare value to compare with previous,
    /// and waits for an interrupt.
    WaitForAnyEdge,
    /// The runner reads the GPIO reg. sets the compare value to compare with previous,
    /// and waits for interrupts until the captured value is the specified final state.
    WaitForSpecificEdge { after_state: PinState },
}

/// What a handle asks for.
#[derive(Debug, Clone, Copy, PartialEq, Eq, Structural)]
pub enum Op {
    /// Drive the pin at `latch`.
    Output { latch: PinState },
    /// Make the pin an input, and do `op` if there is one.
    Input { pull_up_enabled: bool, op: Option<InputOp> },
    /// Make the pin an input and keep `last_known_value` up to date.
    Watch { pull_up_enabled: bool, last_known_value: Option<PinState> },
}

/// How far the runner has come with an operation.
#[derive(Debug, Clone, Copy, PartialEq, Eq, Structural)]
pub enum RequestState {
    Requested,
    ProcessingRequest,
    Done,
}

/// The content of a pin's slot.
#[derive(Debug, Clone, Copy, PartialEq, Eq, Structural)]
pub struct Request {
    pub op: Op,
    pub state: RequestState,
}

/// What a handle does after it has asked for an operation.
#[derive(Debug, Clone, Copy, PartialEq, Eq, Structural)]
pub enum Published {
    /// The slot already held the operation, done: there is nothing to wait
    /// for.
    Settled,
    /// Wait until the slot is done, after waking the runner if `signal` is
    /// set.
    Pending { signal: bool },
}

impl Op {
    /// Whether the operation waits for an interrupt of its pin.
    pub open spec fn awaits_interrupt(self) -> bool {
        match self {
            Op::Input { op: Some(InputOp::WaitForState(_)), .. } => true,
            Op::Input { op: Some(InputOp::WaitForAnyEdge), .. } => true,
            Op::Input { op: Some(InputOp::WaitForSpecificEdge { .. }), .. } => true,
            _ => false,
        }
    }
}

impl Request {
    /// The slot of a pin that nothing was asked of yet: a plain input
    /// without pull-up, done.
    pub open spec fn initial() -> Request {
        Request {
            op: Op::Input { pull_up_enabled: false, op: None },
            state: RequestState::Done,
        }
    }

    /// The slot after a handle has published `new_op`: the operation is
    /// installed as requested unless the slot holds that very operation and
    /// is not yet done with it.
    pub open spec fn published(self, new_op: Op) -> Request {
        if new_op != self.op || self.state == RequestState::Done {
            Request { op: new_op, state: RequestState::Requested }
        } else {
            self
        }
    }

    /// Whether the slot holds `op`, done.
    pub open spec fn settled(self, op: Op) -> bool {
        self.op == op && self.state == RequestState::Done
    }

    /// Whether the pin's interrupt serves an operation: the slot watches the
    /// pin, or the runner is at work on an operation that waits for the
    /// pin's interrupt.
    pub open spec fn wants_interrupt(self) -> bool {
        self.op is Watch || (self.state == RequestState::ProcessingRequest
            && self.op.awaits_interrupt())
    }

    pub fn new() -> (request: Self)
        ensures
            request == Request::initial(),
    {
        Request {
            op: Op::Input { pull_up_enabled: false, op: None },
            state: RequestState::Done,
        }
    }

    /// Publishes an operation. Returns whether the operation was installed,
    /// in which case the runner is to be woken.
    pub fn publish(&mut self, new_op: Op) -> (signal: bool)
        ensures
            *final(self) == old(self).published(new_op),
            signal == (new_op != old(self).op || old(self).state == RequestState::Done),
    {
        if new_op != self.op || self.state == RequestState::Done {
            self.op = new_op;
            self.state = RequestState::Requested;
            true
        } else {
            false
        }
    }

    /// Asks for an operation that lasts: a mode, or an output level. Where
    /// the slot already holds the operation, done, nothing changes and there
    /// is nothing to wait for. Otherwise the operation is published.
    pub fn update_op(&mut self, new_op: Op) -> (outcome: Published)
        ensures
            old(self).settled(new_op) ==> outcome == Published::Settled && *final(self) == *old(
                self,
            ),
            !old(self).settled(new_op) ==> *final(self) == old(self).published(new_op) && outcome
                == (Published::Pending { signal: new_op != old(self).op }),
    {
        if self.op == new_op && self.state == RequestState::Done {
            Published::Settled
        } else {
            let signal = self.publish(new_op);
            Published::Pending { signal }
        }
    }

    /// Whether the runner is done with the slot's operation.
    pub fn is_done(&self) -> (done: bool)
        ensures
            done == (self.state == RequestState::Done),
    {
        self.state == RequestState::Done
    }

    /// The level that a read brought, once the read is done.
    pub fn response(&self) -> (response: Option<PinState>)
        ensures
            response == (match *self {
                Request {
                    op: Op::Input { op: Some(InputOp::Read { response }), .. },
                    state: RequestState::Done,
                } => response,
                _ => None,
            }),
    {
        match self.state {
            RequestState::Done => match self.op {
                Op::Input { pull_up_enabled: _, op: Some(InputOp::Read { response }) } => response,
                _ => None,
            },
            _ => None,
        }
    }

    /// The level at which the pin is driven, once the runner is done with
    /// making it so.
    pub fn output_latch(&self) -> (latch: Option<PinState>)
        ensures
            latch == (match *self {
                Request { op: Op::Output { latch }, state: RequestState::Done } => Some(latch),
                _ => None,
            }),
    {
        match self.state {
            RequestState::Done => match self.op {
                Op::Output { latch } => Some(latch),
                _ => None,
            },
            _ => None,
        }
    }

    /// The last known level of a watched pin, once there is one.
    pub fn watched_value(&self) -> (value: Option<PinState>)
        ensures
            value == (match self.op {
                Op::Watch { last_known_value, .. } => last_known_value,
                _ => None,
            }),
    {
        match self.op {
            Op::Watch { pull_up_enabled: _, last_known_value } => last_known_value,
            _ => None,
        }
    }

    /// The runner takes up the slot's operation if it is requested. Returns
    /// whether it was.
    pub fn accept(&mut self) -> (accepted: bool)
        ensures
            accepted == (old(self).state == RequestState::Requested),
            final(self).op == old(self).op,
            final(self).state == (if accepted {
                RequestState::ProcessingRequest
            } else {
                old(self).state
            }),
    {
        if self.state == RequestState::Requested {
            self.state = RequestState::ProcessingRequest;
            true
        } else {
            false
        }
    }

    /// The runner has taken up the slot as it saw it when the iteration
    /// began, `seen`. Where a handle has changed the slot since, the slot is
    /// left to the next iteration.
    pub fn accept_seen(&mut self, seen: &Request) -> (accepted: bool)
        ensures
            accepted == (*old(self) == *seen && seen.state == RequestState::Requested),
            final(self).op == old(self).op,
            final(self).state == (if accepted {
                RequestState::ProcessingRequest
            } else {
                old(self).state
            }),
    {
        if self.op == seen.op && self.state == seen.state {
            self.accept()
        } else {
            false
        }
    }

    /// A handle turns its pin into an output driven at `initial_value`.
    pub fn into_output(&mut self, initial_value: PinState) -> (outcome: Published)
        ensures
            old(self).settled(Op::Output { latch: initial_value }) ==> outcome
                == Published::Settled && *final(self) == *old(self),
            !old(self).settled(Op::Output { latch: initial_value }) ==> *final(self) == old(
                self,
            ).published(Op::Output { latch: initial_value }) && outcome == (Published::Pending {
                signal: Op::Output { latch: initial_value } != old(self).op,
            }),
    {
        self.update_op(Op::Output { latch: initial_value })
    }

    /// A handle turns its pin into a plain input.
    pub fn into_input(&mut self, pull_up_enabled: bool) -> (outcome: Published)
        ensures
            old(self).settled(Op::Input { pull_up_enabled, op: None }) ==> outcome
                == Published::Settled && *final(self) == *old(self),
            !old(self).settled(Op::Input { pull_up_enabled, op: None }) ==> *final(self) == old(
                self,
            ).published(Op::Input { pull_up_enabled, op: None }) && outcome == (
            Published::Pending { signal: Op::Input { pull_up_enabled, op: None } != old(self).op }),
    {
        self.update_op(Op::Input { pull_up_enabled, op: None })
    }

    /// A handle turns its pin into a watched input, whose level is not
    /// known yet. The handle then waits until [`Self::watched_value`] is
    /// there. Returns whether the runner is to be woken.
    pub fn into_watch(&mut self, pull_up_enabled: bool) -> (signal: bool)
        ensures
            *final(self) == old(self).published(
                Op::Watch { pull_up_enabled, last_known_value: None },
            ),
            signal == (Op::Watch { pull_up_enabled, last_known_value: None } != old(self).op
                || old(self).state == RequestState::Done),
    {
        self.publish(Op::Watch { pull_up_enabled, last_known_value: None })
    }

    /// A handle in output mode sets the level of its pin.
    pub fn set_state(&mut self, state: PinState) -> (outcome: Published)
        ensures
            old(self).settled(Op::Output { latch: state }) ==> outcome == Published::Settled
                && *final(self) == *old(self),
            !old(self).settled(Op::Output { latch: state }) ==> *final(self) == old(
                self,
            ).published(Op::Output { latch: state }) && outcome == (Published::Pending {
                signal: Op::Output { latch: state } != old(self).op,
            }),
    {
        self.update_op(Op::Output { latch: state })
    }

    /// Whether the pin is driven at `state`, once the runner is done with
    /// the slot; until then there is no answer.
    pub fn is_set_state(&self, state: PinState) -> (answer: Option<bool>)
        ensures
            answer == (match *self {
                Request { op: Op::Output { latch }, state: RequestState::Done } => Some(
                    latch == state,
                ),
                _ => None,
            }),
    {
        match self.output_latch() {
            Some(latch) => Some(latch == state),
            None => None,
        }
    }

    /// A handle in input mode asks for a read or a wait. The pin keeps its
    /// pull-up. Returns whether the operation was installed, in which case
    /// the runner is to be woken; a slot that is not in input mode is left
    /// as it is.
    pub fn request_input(&mut self, op: InputOp) -> (signal: bool)
        ensures
            old(self).op matches Op::Input { pull_up_enabled, .. } ==> *final(self) == old(
                self,
            ).published(Op::Input { pull_up_enabled, op: Some(op) }) && signal == (Op::Input {
                pull_up_enabled,
                op: Some(op),
            } != old(self).op || old(self).state == RequestState::Done),
            !(old(self).op is Input) ==> *final(self) == *old(self) && !signal,
    {
        match self.op {
            Op::Input { pull_up_enabled, op: _ } => self.publish(
                Op::Input { pull_up_enabled, op: Some(op) },
            ),
            _ => false,
        }
    }
}

} // verus!
