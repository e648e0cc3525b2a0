use vstd::prelude::*;

verus! {

/// A control request from the service control manager, as the handler sees it.
#[derive(Debug, Clone, Copy, PartialEq, Eq, Structural)]
pub enum ControlRequest {
    Stop,
    Shutdown,
    /// A session change whose reason is a user logon.
    SessionLogon,
    /// A session change whose reason is a user logoff.
    SessionLogoff,
    /// A session change for any other reason.
    SessionOther,
    Interrogate,
    /// Any control that the service does not handle.
    Other,
}

/// An event passed from the control handler to the service loop.
#[derive(Debug, Clone, Copy, PartialEq, Eq, Structural)]
pub enum ServiceEvent {
    Stop,
    SessionLogon,
    SessionLogoff,
}

/// The answer that the control handler gives the service control manager.
#[derive(Debug, Clone, Copy, PartialEq, Eq, Structural)]
pub enum HandlerResult {
    NoError,
    NotImplemented,
}

/// What the service loop receives in one round: an event, the end of a poll
/// interval without one, or the loss of the control channel.
#[derive(Debug, Clone, Copy, PartialEq, Eq, Structural)]
pub enum LoopInput {
    Event(ServiceEvent),
    Timeout,
    Disconnected,
}

/// What the service loop does in one round.
#[derive(Debug, Clone, Copy, PartialEq, Eq, Structural)]
pub enum LoopAction {
    /// Leave the loop: stop the helper and report the service stopped.
    Shutdown,
    /// Launch the helper, then tick the supervisor.
    StartHelperThenTick,
    /// Stop the helper, then tick the supervisor.
    StopHelperThenTick,
    /// Only tick the supervisor.
    Tick,
}

/// The event that a control request sends to the loop, and the handler's answer:
/// stop and shutdown both ask the loop to stop; a logon or logoff is passed on;
/// other session changes and interrogation are acknowledged; anything else is
/// not implemented.
pub open spec fn handle_control_spec(c: ControlRequest) -> (Option<ServiceEvent>, HandlerResult) {
    match c {
        ControlRequest::Stop | ControlRequest::Shutdown => (Some(ServiceEvent::Stop), HandlerResult::NoError),
        ControlRequest::SessionLogon => (Some(ServiceEvent::SessionLogon), HandlerResult::NoError),
        ControlRequest::SessionLogoff => (Some(ServiceEvent::SessionLogoff), HandlerResult::NoError),
        ControlRequest::SessionOther | ControlRequest::Interrogate => (None, HandlerResult::NoError),
        ControlRequest::Other => (None, HandlerResult::NotImplemented),
    }
}

/// The control handler's decision for one request.
pub fn handle_control(c: ControlRequest) -> (r: (Option<ServiceEvent>, HandlerResult))
    ensures
        r == handle_control_spec(c),
{
    match c {
        ControlRequest::Stop | ControlRequest::Shutdown => (Some(ServiceEvent::Stop), HandlerResult::NoError),
        ControlRequest::SessionLogon => (Some(ServiceEvent::SessionLogon), HandlerResult::NoError),
        ControlRequest::SessionLogoff => (Some(ServiceEvent::SessionLogoff), HandlerResult::NoError),
        ControlRequest::SessionOther | ControlRequest::Interrogate => (None, HandlerResult::NoError),
        ControlRequest::Other => (None, HandlerResult::NotImplemented),
    }
}

/// One round of the service loop: a stop request or a lost channel ends the loop;
/// a logon launches the helper, a logoff stops it; every other round only ticks.
pub open spec fn loop_step_spec(input: LoopInput) -> LoopAction {
    match input {
        LoopInput::Event(ServiceEvent::Stop) => LoopAction::Shutdown,
        LoopInput::Event(ServiceEvent::SessionLogon) => LoopAction::StartHelperThenTick,
        LoopInput::Event(ServiceEvent::SessionLogoff) => LoopAction::StopHelperThenTick,
        LoopInput::Timeout => LoopAction::Tick,
        LoopInput::Disconnected => LoopAction::Shutdown,
    }
}

/// The service loop's decision for one round.
pub fn loop_step(input: LoopInput) -> (r: LoopAction)
    ensures
        r == loop_step_spec(input),
{
    match input {
        LoopInput::Event(ServiceEvent::Stop) => LoopAction::Shutdown,
        LoopInput::Event(ServiceEvent::SessionLogon) => LoopAction::StartHelperThenTick,
        LoopInput::Event(ServiceEvent::SessionLogoff) => LoopAction::StopHelperThenTick,
        LoopInput::Timeout => LoopAction::Tick,
        LoopInput::Disconnected => LoopAction::Shutdown,
    }
}

/// Every way of asking the service to stop ends the service loop, and no
/// other request does.
pub proof fn lemma_stop_requests_end_loop(c: ControlRequest)
    ensures
        (handle_control_spec(c).0 matches Some(e) && loop_step_spec(LoopInput::Event(e))
            == LoopAction::Shutdown) <==> (c == ControlRequest::Stop || c
            == ControlRequest::Shutdown),
{
}

/// Only a logon launches the helper and only a logoff stops it.
pub proof fn lemma_session_changes_drive_helper(c: ControlRequest)
    ensures
        (handle_control_spec(c).0 matches Some(e) && loop_step_spec(LoopInput::Event(e))
            == LoopAction::StartHelperThenTick) <==> c == ControlRequest::SessionLogon,
        (handle_control_spec(c).0 matches Some(e) && loop_step_spec(LoopInput::Event(e))
            == LoopAction::StopHelperThenTick) <==> c == ControlRequest::SessionLogoff,
{
}

/// The handler answers "not implemented" exactly for the controls the service
/// does not handle, and passes an event on only for stop, shutdown, logon and logoff.
pub proof fn lemma_handler_answers(c: ControlRequest)
    ensures
        handle_control_spec(c).1 == HandlerResult::NotImplemented <==> c == ControlRequest::Other,
        handle_control_spec(c).0 is Some <==> (c == ControlRequest::Stop || c == ControlRequest::Shutdown
            || c == ControlRequest::SessionLogon || c == ControlRequest::SessionLogoff),
{
}

/// The loop ends exactly on a stop event or a lost control channel; a round
/// without an event only ticks.
pub proof fn lemma_loop_ends_only_on_stop(input: LoopInput)
    ensures
        loop_step_spec(input) == LoopAction::Shutdown <==> (input == LoopInput::Event(ServiceEvent::Stop)
            || input == LoopInput::Disconnected),
        input == LoopInput::Timeout ==> loop_step_spec(input) == LoopAction::Tick,
{
}

} // verus!
