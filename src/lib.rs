//! GPIO pin views with scoped mode restoration and coordinated interrupt
//! configuration.
//!
//! The library does no register access, waiting or thread handling itself.
//! It decides what must happen and hands that out as commands: register
//! writes are queued on the [`Pin`] and drained with `take_commands`, while
//! interrupt transitions, which can fail half way, are run one [`IrqCommand`]
//! at a time through [`Step`] values whose outcome the caller reports back.
pub mod types;
pub mod pin;
pub mod input;

pub use types::{Command, GpioError, IrqCommand, Level, Mode, PullUpDown, Trigger, MAX};
pub use pin::{AltPin, ModeGuard, OutputPin, Pin};
pub use input::{InputPin, IrqState, PollRequest, Step};

