use breeze_wh::service_loop::{
    handle_control, loop_step, ControlRequest, HandlerResult, LoopAction, LoopInput, ServiceEvent,
};

#[test]
fn control_requests() {
    assert_eq!(handle_control(ControlRequest::Stop), (Some(ServiceEvent::Stop), HandlerResult::NoError));
    assert_eq!(handle_control(ControlRequest::Shutdown), (Some(ServiceEvent::Stop), HandlerResult::NoError));
    assert_eq!(
        handle_control(ControlRequest::SessionLogon),
        (Some(ServiceEvent::SessionLogon), HandlerResult::NoError)
    );
    assert_eq!(
        handle_control(ControlRequest::SessionLogoff),
        (Some(ServiceEvent::SessionLogoff), HandlerResult::NoError)
    );
    assert_eq!(handle_control(ControlRequest::SessionOther), (None, HandlerResult::NoError));
    assert_eq!(handle_control(ControlRequest::Interrogate), (None, HandlerResult::NoError));
    assert_eq!(handle_control(ControlRequest::Other), (None, HandlerResult::NotImplemented));
}

#[test]
fn loop_rounds() {
    assert_eq!(loop_step(LoopInput::Event(ServiceEvent::Stop)), LoopAction::Shutdown);
    assert_eq!(loop_step(LoopInput::Event(ServiceEvent::SessionLogon)), LoopAction::StartHelperThenTick);
    assert_eq!(loop_step(LoopInput::Event(ServiceEvent::SessionLogoff)), LoopAction::StopHelperThenTick);
    assert_eq!(loop_step(LoopInput::Timeout), LoopAction::Tick);
    assert_eq!(loop_step(LoopInput::Disconnected), LoopAction::Shutdown);
}
