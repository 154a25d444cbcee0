use gpio_pin::{AltPin, Command, Level, Mode, OutputPin, Pin, PullUpDown, MAX};

#[test]
fn output_view_records_and_restores_other_mode() {
    let pin = Pin::new(3, Mode::Input);
    let mut out = pin.as_output();
    assert_eq!(out.prev_mode(), Some(Mode::Input));
    assert_eq!(out.pin().mode(), Mode::Output);
    assert_eq!(out.take_commands(), vec![Command::SetMode(3, Mode::Output)]);
    let mut pin = out.release();
    assert_eq!(pin.mode(), Mode::Input);
    assert_eq!(pin.take_commands(), vec![Command::SetMode(3, Mode::Input)]);
}

#[test]
fn alt_view_records_and_restores_other_mode() {
    let pin = Pin::new(14, Mode::Output);
    let mut alt = pin.as_alt(Mode::Alt0);
    assert_eq!(alt.mode(), Mode::Alt0);
    assert_eq!(alt.prev_mode(), Some(Mode::Output));
    alt.write(Level::High);
    let mut pin = alt.release();
    assert_eq!(pin.mode(), Mode::Output);
    assert_eq!(
        pin.take_commands(),
        vec![
            Command::SetMode(14, Mode::Alt0),
            Command::SetLevel(14, Level::High),
            Command::SetMode(14, Mode::Output),
        ]
    );
}

#[test]
fn view_in_same_mode_writes_no_mode() {
    let pin = Pin::new(9, Mode::Output);
    let mut out = pin.as_output();
    assert_eq!(out.prev_mode(), None);
    assert!(out.take_commands().is_empty());
    let mut pin = out.release();
    assert_eq!(pin.mode(), Mode::Output);
    assert!(pin.take_commands().is_empty());

    let alt = AltPin::new(Pin::new(2, Mode::Alt3), Mode::Alt3);
    assert_eq!(alt.prev_mode(), None);
    let mut pin = alt.release();
    assert_eq!(pin.mode(), Mode::Alt3);
    assert!(pin.take_commands().is_empty());
}

#[test]
fn release_without_clear_keeps_current_mode() {
    let pin = Pin::new(5, Mode::Alt2);
    let mut out = OutputPin::new(pin);
    assert!(out.clear_on_drop());
    out.set_clear_on_drop(false);
    assert!(!out.clear_on_drop());
    assert_eq!(out.prev_mode(), Some(Mode::Alt2));
    out.take_commands();
    let mut pin = out.release();
    assert_eq!(pin.mode(), Mode::Output);
    assert!(pin.take_commands().is_empty());
}

#[test]
fn output_levels_are_queued_in_order() {
    let mut out = Pin::new(21, Mode::Output).as_output();
    out.set_high();
    out.set_low();
    out.write(Level::High);
    out.write(Level::Low);
    assert_eq!(
        out.take_commands(),
        vec![
            Command::SetLevel(21, Level::High),
            Command::SetLevel(21, Level::Low),
            Command::SetLevel(21, Level::High),
            Command::SetLevel(21, Level::Low),
        ]
    );
    assert!(out.take_commands().is_empty());
}

#[test]
fn pin_primitives_queue_writes() {
    let mut pin = Pin::new((MAX - 1) as u8, Mode::Input);
    assert_eq!(pin.pin(), 53);
    pin.set_mode(Mode::Alt5);
    assert_eq!(pin.mode(), Mode::Alt5);
    pin.set_pullupdown(PullUpDown::PullDown);
    pin.set_high();
    pin.set_low();
    pin.write(Level::High);
    assert_eq!(
        pin.take_commands(),
        vec![
            Command::SetMode(53, Mode::Alt5),
            Command::SetPullUpDown(53, PullUpDown::PullDown),
            Command::SetLevel(53, Level::High),
            Command::SetLevel(53, Level::Low),
            Command::SetLevel(53, Level::High),
        ]
    );
}
