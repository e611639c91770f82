use hellomch::bridge::{BridgeAction, BridgeState, InterruptBridge, ProcessingStep, SetupStep};

fn running_bridge() -> InterruptBridge {
    let mut bridge = InterruptBridge::new();
    for _ in 0..4 {
        bridge.step(true);
    }
    assert_eq!(bridge.state(), BridgeState::Armed);
    bridge
}

#[test]
fn setup_steps_come_in_order() {
    let mut bridge = InterruptBridge::new();
    assert_eq!(bridge.action(), BridgeAction::Setup(SetupStep::ConfigurePin));
    assert_eq!(bridge.step(true), BridgeAction::Setup(SetupStep::PublishNotifier));
    assert_eq!(bridge.step(true), BridgeAction::Setup(SetupStep::RegisterCallback));
    assert_eq!(bridge.step(true), BridgeAction::Setup(SetupStep::HandOverPin));
    assert_eq!(bridge.step(true), BridgeAction::EnableInterrupt);
    assert_eq!(bridge.state(), BridgeState::Armed);
}

#[test]
fn failed_setup_step_ends_the_setup() {
    for done in 0..4 {
        let mut bridge = InterruptBridge::new();
        for _ in 0..done {
            bridge.step(true);
        }
        assert_eq!(bridge.step(false), BridgeAction::ReportSetupFailure);
        assert_eq!(bridge.state(), BridgeState::SetupFailed);
        assert_eq!(bridge.step(true), BridgeAction::ReportSetupFailure);
        assert_eq!(bridge.state(), BridgeState::SetupFailed);
    }
}

#[test]
fn wake_is_read_forwarded_and_rearmed() {
    let mut bridge = running_bridge();
    assert_eq!(bridge.step(true), BridgeAction::Wait);
    assert_eq!(bridge.step(true), BridgeAction::Process(ProcessingStep::ReadInputs));
    assert_eq!(bridge.step(true), BridgeAction::Process(ProcessingStep::ForwardEvents));
    assert_eq!(bridge.step(true), BridgeAction::EnableInterrupt);
    assert_eq!(bridge.step(true), BridgeAction::Wait);
    assert_eq!(bridge.state(), BridgeState::Waiting);
}

#[test]
fn failed_read_and_failed_forward_still_rearm() {
    for (read_ok, forward_ok) in [(false, true), (true, false), (false, false)] {
        let mut bridge = running_bridge();
        bridge.step(true);
        bridge.step(true);
        assert_eq!(bridge.state(), BridgeState::Processing(ProcessingStep::ReadInputs));
        assert_eq!(bridge.step(read_ok), BridgeAction::Process(ProcessingStep::ForwardEvents));
        assert_eq!(bridge.step(forward_ok), BridgeAction::EnableInterrupt);
        assert_eq!(bridge.state(), BridgeState::Armed);
    }
}

#[test]
fn failed_enable_is_fatal() {
    let mut bridge = running_bridge();
    assert_eq!(bridge.step(false), BridgeAction::Abort);
    assert_eq!(bridge.state(), BridgeState::Dead);
    assert_eq!(bridge.step(true), BridgeAction::Abort);
    assert_eq!(bridge.step(false), BridgeAction::Abort);
    assert_eq!(bridge.state(), BridgeState::Dead);
}

#[test]
fn failed_rearm_after_a_wake_is_fatal() {
    let mut bridge = running_bridge();
    for _ in 0..4 {
        bridge.step(true);
    }
    assert_eq!(bridge.state(), BridgeState::Armed);
    assert_eq!(bridge.step(false), BridgeAction::Abort);
}

#[test]
fn wait_that_ends_without_a_wake_waits_again() {
    let mut bridge = running_bridge();
    bridge.step(true);
    assert_eq!(bridge.step(false), BridgeAction::Wait);
    assert_eq!(bridge.state(), BridgeState::Waiting);
}

#[test]
fn bridge_runs_many_wakes() {
    let mut bridge = running_bridge();
    for _ in 0..100 {
        assert_eq!(bridge.action(), BridgeAction::EnableInterrupt);
        bridge.step(true);
        bridge.step(true);
        bridge.step(true);
        bridge.step(true);
    }
    assert_eq!(bridge.state(), BridgeState::Armed);
}
