use vstd::prelude::*;

verus! {

/// How inbound events are currently received.
#[derive(Debug, Clone, Copy, PartialEq, Eq, Structural)]
pub enum DeliveryMode {
    Unspecified,
    Pull,
    Push,
}

/// What a requested transition asks the caller to do.
#[derive(Debug, Clone, Copy, PartialEq, Eq, Structural)]
pub enum ModeStep {
    /// The target mode already holds: nothing to do.
    AlreadyActive,
    /// Another transition is in flight: wait for it and ask again.
    Busy,
    /// Register the webhook, then report the outcome.
    RegisterWebhook,
    /// Clear the webhook, then report the outcome.
    ClearWebhook,
}

/// The coordinator's state: the current mode and the transition in flight.
pub struct ModeState {
    pub mode: DeliveryMode,
    pub pending: Option<DeliveryMode>,
}

/// Whether `step` asks for a platform call.
pub open spec fn is_call(step: ModeStep) -> bool {
    step == ModeStep::RegisterWebhook || step == ModeStep::ClearWebhook
}

/// The step that a request for `target` gets in state `s`.
pub open spec fn step_for(s: ModeState, target: DeliveryMode) -> ModeStep {
    if s.pending is Some {
        ModeStep::Busy
    } else if s.mode == target {
        ModeStep::AlreadyActive
    } else if target == DeliveryMode::Push {
        ModeStep::RegisterWebhook
    } else {
        ModeStep::ClearWebhook
    }
}

/// The state after a request for `target` in state `s`.
pub open spec fn state_after_request(s: ModeState, target: DeliveryMode) -> ModeState {
    if is_call(step_for(s, target)) {
        ModeState { mode: s.mode, pending: Some(target) }
    } else {
        s
    }
}

/// The state after the call in flight reported `succeeded`.
pub open spec fn state_after_report(s: ModeState, succeeded: bool) -> ModeState {
    ModeState { mode: if succeeded { s.pending.unwrap() } else { s.mode }, pending: None }
}

/// Serialises transitions between push and pull delivery. The caller holds it
/// under one lock across a request, the platform call and the report.
pub struct ModeCoordinator {
    mode: DeliveryMode,
    pending: Option<DeliveryMode>,
}

impl View for ModeCoordinator {
    type V = ModeState;

    closed spec fn view(&self) -> ModeState {
        ModeState { mode: self.mode, pending: self.pending }
    }
}

impl ModeCoordinator {
    /// Well-formedness: only an active mode can be in flight.
    pub closed spec fn wf(&self) -> bool {
        self.pending != Some(DeliveryMode::Unspecified)
    }

    /// The initial state: mode unspecified, nothing in flight.
    pub fn new() -> (r: ModeCoordinator)
        ensures
            r.wf(),
            r@ == (ModeState { mode: DeliveryMode::Unspecified, pending: None }),
    {
        ModeCoordinator { mode: DeliveryMode::Unspecified, pending: None }
    }

    /// The current mode.
    pub fn mode(&self) -> (r: DeliveryMode)
        ensures
            r == self@.mode,
    {
        self.mode
    }

    /// Requests a switch to `target`; a call that it asks for is then in flight.
    pub fn request(&mut self, target: DeliveryMode) -> (r: ModeStep)
        requires
            old(self).wf(),
            target != DeliveryMode::Unspecified,
        ensures
            final(self).wf(),
            r == step_for(old(self)@, target),
            final(self)@ == state_after_request(old(self)@, target),
    {
        if self.pending.is_some() {
            return ModeStep::Busy;
        }
        if self.mode == target {
            return ModeStep::AlreadyActive;
        }
        self.pending = Some(target);
        match target {
            DeliveryMode::Push => ModeStep::RegisterWebhook,
            _ => ModeStep::ClearWebhook,
        }
    }

    /// Reports the outcome of the call in flight. Returns whether a long-poll
    /// loop must now be started: exactly when a switch to pull succeeded.
    pub fn report(&mut self, succeeded: bool) -> (start_poll_loop: bool)
        requires
            old(self).wf(),
            old(self)@.pending is Some,
        ensures
            final(self).wf(),
            final(self)@ == state_after_report(old(self)@, succeeded),
            start_poll_loop == (succeeded && old(self)@.pending == Some(DeliveryMode::Pull)),
    {
        let target = match self.pending {
            Some(t) => t,
            None => DeliveryMode::Unspecified,
        };
        self.pending = None;
        if succeeded {
            self.mode = target;
        }
        succeeded && target == DeliveryMode::Pull
    }
}

/// While a platform call is in flight, no request, for either mode, gets
/// another call: calls for opposite modes never overlap.
pub proof fn lemma_no_overlapping_calls(s: ModeState, target: DeliveryMode)
    requires
        s.pending is Some,
    ensures
        !is_call(step_for(s, target)),
        state_after_request(s, target) == s,
{
}

/// Duplicate requests for one mode make one platform call: a second request
/// made while the first call is in flight gets none, and one made after that
/// call succeeded finds the mode already active. A request that makes no call
/// with nothing in flight finds the mode already active and changes nothing.
pub proof fn lemma_duplicate_requests_one_call(s: ModeState, target: DeliveryMode)
    requires
        s.pending is None,
        target != DeliveryMode::Unspecified,
    ensures
        is_call(step_for(s, target)) ==> {
            let during = state_after_request(s, target);
            &&& !is_call(step_for(during, target))
            &&& step_for(state_after_report(during, true), target) == ModeStep::AlreadyActive
        },
        !is_call(step_for(s, target)) ==> step_for(s, target) == ModeStep::AlreadyActive
            && state_after_request(s, target) == s,
{
}

} // verus!
