use gpio_pin::{
    Command, GpioError, InputPin, IrqCommand, IrqState, Level, Mode, Pin, PollRequest, PullUpDown, Step, Trigger,
};

fn armed_async(pin: u8) -> InputPin {
    let mut input = Pin::new(pin, Mode::Input).as_input();
    assert_eq!(
        input.set_async_interrupt(Trigger::Both),
        Step::Run(IrqCommand::Deregister(pin))
    );
    assert_eq!(input.resume(Ok(())), Step::Run(IrqCommand::StartAsync(pin, Trigger::Both)));
    assert_eq!(input.resume(Ok(())), Step::Done(Ok(())));
    assert_eq!(input.interrupt(), IrqState::Async(Trigger::Both));
    input
}

#[test]
fn input_from_output_scenario() {
    let pin = Pin::new(4, Mode::Output);
    let mut input = pin.as_input();
    assert_eq!(input.pin().mode(), Mode::Input);
    assert_eq!(input.prev_mode(), Some(Mode::Output));
    assert_eq!(
        input.take_commands(),
        vec![Command::SetMode(4, Mode::Input), Command::SetPullUpDown(4, PullUpDown::Off)]
    );
    assert_eq!(
        input.set_interrupt(Trigger::RisingEdge),
        Step::Run(IrqCommand::Register(4, Trigger::RisingEdge))
    );
    assert_eq!(input.resume(Ok(())), Step::Done(Ok(())));
    assert_eq!(
        input.poll_interrupt(true, Some(1000)),
        Ok(PollRequest { pin: 4, reset: true, timeout_ms: Some(1000) })
    );
    assert_eq!(input.poll_result(None), None);
    let mut pin = input.release();
    assert_eq!(pin.mode(), Mode::Output);
    assert_eq!(pin.take_commands(), vec![Command::SetMode(4, Mode::Output)]);
}

#[test]
fn input_pullup_on_input_scenario() {
    let pin = Pin::new(7, Mode::Input);
    let mut input = pin.as_input_pullup();
    assert_eq!(input.prev_mode(), None);
    assert_eq!(input.take_commands(), vec![Command::SetPullUpDown(7, PullUpDown::PullUp)]);
    let mut pin = input.release();
    assert_eq!(pin.mode(), Mode::Input);
    assert!(pin.take_commands().is_empty());
}

#[test]
fn input_pulldown_sets_resistor() {
    let mut input = InputPin::new(Pin::new(8, Mode::Alt1), PullUpDown::PullDown);
    assert_eq!(input.prev_mode(), Some(Mode::Alt1));
    assert_eq!(
        input.take_commands(),
        vec![Command::SetMode(8, Mode::Input), Command::SetPullUpDown(8, PullUpDown::PullDown)]
    );
    let mut input = Pin::new(8, Mode::Input).as_input_pulldown();
    assert_eq!(input.take_commands(), vec![Command::SetPullUpDown(8, PullUpDown::PullDown)]);
}

#[test]
fn set_interrupt_stops_async_first() {
    let mut input = armed_async(17);
    assert_eq!(
        input.set_interrupt(Trigger::FallingEdge),
        Step::Run(IrqCommand::StopAsync(17))
    );
    assert_eq!(input.interrupt(), IrqState::Async(Trigger::Both));
    assert_eq!(input.resume(Ok(())), Step::Run(IrqCommand::Register(17, Trigger::FallingEdge)));
    assert_eq!(input.interrupt(), IrqState::Idle);
    assert_eq!(input.resume(Ok(())), Step::Done(Ok(())));
    assert_eq!(input.interrupt(), IrqState::Sync(Trigger::FallingEdge));
}

#[test]
fn failed_stop_aborts_set_interrupt() {
    let mut input = armed_async(17);
    input.set_interrupt(Trigger::FallingEdge);
    assert_eq!(
        input.resume(Err(GpioError::ThreadStopFailed)),
        Step::Done(Err(GpioError::ThreadStopFailed))
    );
    assert_eq!(input.interrupt(), IrqState::Idle);
    assert!(!input.is_busy());
    assert_eq!(input.resume(Ok(())), Step::Done(Ok(())));
    assert_eq!(input.interrupt(), IrqState::Idle);
}

#[test]
fn set_async_interrupt_deregisters_first() {
    let mut input = Pin::new(22, Mode::Input).as_input();
    input.set_interrupt(Trigger::RisingEdge);
    input.resume(Ok(()));
    assert_eq!(input.interrupt(), IrqState::Sync(Trigger::RisingEdge));
    assert_eq!(
        input.set_async_interrupt(Trigger::FallingEdge),
        Step::Run(IrqCommand::Deregister(22))
    );
    assert_eq!(input.resume(Ok(())), Step::Run(IrqCommand::StartAsync(22, Trigger::FallingEdge)));
    assert_eq!(input.interrupt(), IrqState::Idle);
    assert_eq!(input.poll_interrupt(false, None), Err(GpioError::NotArmed));
    assert_eq!(input.resume(Ok(())), Step::Done(Ok(())));
    assert_eq!(input.interrupt(), IrqState::Async(Trigger::FallingEdge));
}

#[test]
fn set_async_interrupt_replaces_running_runner() {
    let mut input = armed_async(23);
    assert_eq!(
        input.set_async_interrupt(Trigger::RisingEdge),
        Step::Run(IrqCommand::Deregister(23))
    );
    assert_eq!(input.resume(Ok(())), Step::Run(IrqCommand::StopAsync(23)));
    assert_eq!(input.resume(Ok(())), Step::Run(IrqCommand::StartAsync(23, Trigger::RisingEdge)));
    assert_eq!(
        input.resume(Err(GpioError::ResourceUnavailable)),
        Step::Done(Err(GpioError::ResourceUnavailable))
    );
    assert_eq!(input.interrupt(), IrqState::Idle);
}

#[test]
fn clear_interrupt_twice_is_harmless() {
    let mut input = Pin::new(10, Mode::Input).as_input();
    assert_eq!(input.clear_interrupt(), Step::Run(IrqCommand::Deregister(10)));
    assert_eq!(input.resume(Ok(())), Step::Done(Ok(())));
    assert_eq!(input.interrupt(), IrqState::Idle);
    input.set_interrupt(Trigger::Both);
    input.resume(Ok(()));
    input.clear_interrupt();
    assert_eq!(input.resume(Ok(())), Step::Done(Ok(())));
    assert_eq!(input.interrupt(), IrqState::Idle);
    input.clear_interrupt();
    assert_eq!(input.resume(Ok(())), Step::Done(Ok(())));
    assert_eq!(input.interrupt(), IrqState::Idle);
}

#[test]
fn failed_deregister_keeps_trigger() {
    let mut input = Pin::new(11, Mode::Input).as_input();
    input.set_interrupt(Trigger::RisingEdge);
    input.resume(Ok(()));
    input.clear_interrupt();
    assert_eq!(
        input.resume(Err(GpioError::ResourceUnavailable)),
        Step::Done(Err(GpioError::ResourceUnavailable))
    );
    assert_eq!(input.interrupt(), IrqState::Sync(Trigger::RisingEdge));
}

#[test]
fn clear_async_interrupt_twice_is_harmless() {
    let mut input = Pin::new(12, Mode::Input).as_input();
    assert_eq!(input.clear_async_interrupt(), Step::Done(Ok(())));
    assert!(!input.is_busy());
    let mut input = armed_async(12);
    assert_eq!(input.clear_async_interrupt(), Step::Run(IrqCommand::StopAsync(12)));
    assert_eq!(input.resume(Ok(())), Step::Done(Ok(())));
    assert_eq!(input.clear_async_interrupt(), Step::Done(Ok(())));
    assert_eq!(input.interrupt(), IrqState::Idle);
}

#[test]
fn poll_with_zero_timeout_and_no_event() {
    let mut input = Pin::new(13, Mode::Input).as_input();
    input.set_interrupt(Trigger::Both);
    input.resume(Ok(()));
    assert_eq!(
        input.poll_interrupt(true, Some(0)),
        Ok(PollRequest { pin: 13, reset: true, timeout_ms: Some(0) })
    );
    assert_eq!(input.poll_result(None), None);
    assert_eq!(input.poll_result(Some((13, Level::High))), Some(Level::High));
    assert_eq!(input.poll_result(Some((13, Level::Low))), Some(Level::Low));
    assert_eq!(input.poll_result(Some((6, Level::High))), None);
}

#[test]
fn poll_without_trigger_is_refused() {
    let input = Pin::new(15, Mode::Input).as_input();
    assert_eq!(input.poll_interrupt(true, Some(0)), Err(GpioError::NotArmed));
}

#[test]
fn transition_in_flight_refuses_another() {
    let mut input = Pin::new(16, Mode::Input).as_input();
    input.set_interrupt(Trigger::RisingEdge);
    assert!(input.is_busy());
    assert_eq!(input.clear_interrupt(), Step::Done(Err(GpioError::Busy)));
    assert_eq!(input.resume(Ok(())), Step::Done(Ok(())));
    assert_eq!(input.interrupt(), IrqState::Sync(Trigger::RisingEdge));
}

#[test]
fn teardown_stops_async_before_release() {
    let mut input = Pin::new(18, Mode::Output).as_input();
    input.set_async_interrupt(Trigger::RisingEdge);
    input.resume(Ok(()));
    input.resume(Ok(()));
    assert_eq!(input.interrupt(), IrqState::Async(Trigger::RisingEdge));
    input.set_clear_on_drop(false);
    assert_eq!(input.clear_async_interrupt(), Step::Run(IrqCommand::StopAsync(18)));
    assert_eq!(input.resume(Ok(())), Step::Done(Ok(())));
    assert_eq!(input.interrupt(), IrqState::Idle);
    input.take_commands();
    let mut pin = input.release();
    assert_eq!(pin.mode(), Mode::Input);
    assert!(pin.take_commands().is_empty());
}
