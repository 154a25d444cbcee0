use vstd::prelude::*;

verus! {

/// Number of GPIO pins of the bank; pin indices run from 0 to `MAX - 1`.
pub const MAX: usize = 54;

/// The function a pin currently serves.
#[derive(Clone, Copy, Debug, PartialEq, Eq, Structural)]
pub enum Mode {
    Input,
    Output,
    Alt0,
    Alt1,
    Alt2,
    Alt3,
    Alt4,
    Alt5,
}

/// A pin's logic level.
#[derive(Clone, Copy, Debug, PartialEq, Eq, Structural)]
pub enum Level {
    Low,
    High,
}

/// The level change on which an interrupt fires.
#[derive(Clone, Copy, Debug, PartialEq, Eq, Structural)]
pub enum Trigger {
    Disabled,
    RisingEdge,
    FallingEdge,
    Both,
}

/// Configuration of the built-in pull resistors.
#[derive(Clone, Copy, Debug, PartialEq, Eq, Structural)]
pub enum PullUpDown {
    Off,
    PullDown,
    PullUp,
}

/// A register write for the register backend to carry out, in queue order.
/// Register writes cannot fail at this layer.
#[derive(Clone, Copy, Debug, PartialEq, Eq, Structural)]
pub enum Command {
    SetMode(u8, Mode),
    SetPullUpDown(u8, PullUpDown),
    SetLevel(u8, Level),
}

/// A request to the shared event source or to the background interrupt
/// runner. Each one can fail, and its outcome is reported back to the pin.
#[derive(Clone, Copy, Debug, PartialEq, Eq, Structural)]
pub enum IrqCommand {
    /// Register a synchronous trigger for the pin with the event source,
    /// replacing any earlier one.
    Register(u8, Trigger),
    /// Remove the pin's synchronous trigger from the event source. Removing
    /// one that is not there is not an error.
    Deregister(u8),
    /// Start a background runner that calls the pin's callback on each trigger.
    StartAsync(u8, Trigger),
    /// Stop the pin's background runner and wait until its thread has exited.
    StopAsync(u8),
}

/// Why a configuration request did not go through.
#[derive(Clone, Copy, Debug, PartialEq, Eq, Structural)]
pub enum GpioError {
    /// The register backend or the event source could not be used.
    ResourceUnavailable,
    /// A background runner did not exit cleanly.
    ThreadStopFailed,
    /// A poll was asked for on a pin with no synchronous trigger registered.
    NotArmed,
    /// A new transition was asked for while the previous one still waits for
    /// the outcome of its current command.
    Busy,
}

} // verus!
