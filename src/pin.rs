use vstd::prelude::*;

use crate::types::{Command, Level, Mode, PullUpDown, MAX};

verus! {

/// The mode a view records when it takes a pin whose mode is `current`:
/// nothing when the pin already has the view's `target` mode.
pub open spec fn captured(current: Mode, target: Mode) -> Option<Mode> {
    if current == target {
        None
    } else {
        Some(current)
    }
}

/// The register writes made when a view with mode `target` takes the pin.
pub open spec fn entry_writes(pin: u8, current: Mode, target: Mode) -> Seq<Command> {
    if current == target {
        seq![]
    } else {
        seq![Command::SetMode(pin, target)]
    }
}

/// The register writes made when a view is released.
pub open spec fn exit_writes(pin: u8, prev_mode: Option<Mode>, clear_on_drop: bool) -> Seq<Command> {
    match prev_mode {
        Some(m) => if clear_on_drop {
            seq![Command::SetMode(pin, m)]
        } else {
            seq![]
        },
        None => seq![],
    }
}

/// The pin's mode after a view is released while the pin has mode `current`.
pub open spec fn restored_mode(current: Mode, prev_mode: Option<Mode>, clear_on_drop: bool) -> Mode {
    match prev_mode {
        Some(m) => if clear_on_drop {
            m
        } else {
            current
        },
        None => current,
    }
}

/// The mode a pin has after the register writes `cmds`, starting from `mode`.
pub open spec fn mode_after(mode: Mode, cmds: Seq<Command>) -> Mode
    decreases cmds.len(),
{
    if cmds.len() == 0 {
        mode
    } else {
        let next = match cmds[0] {
            Command::SetMode(_, m) => m,
            _ => mode,
        };
        mode_after(next, cmds.drop_first())
    }
}

/// One physical pin: its index, the mode its mode register holds, and the
/// register writes that are still to be carried out.
///
/// The recorded mode stays true to the hardware as long as every write to
/// the pin's registers goes through this value and its queue is carried out
/// in order.
pub struct Pin {
    pin: u8,
    mode: Mode,
    commands: Vec<Command>,
}

impl Pin {
    pub closed spec fn id(&self) -> u8 {
        self.pin
    }

    pub closed spec fn mode_spec(&self) -> Mode {
        self.mode
    }

    /// Register writes made through this pin and not yet taken.
    pub closed spec fn pending(&self) -> Seq<Command> {
        self.commands@
    }

    pub open spec fn wf(&self) -> bool {
        self.id() < MAX
    }

    /// A pin with index `pin` whose mode register currently holds `mode`.
    pub fn new(pin: u8, mode: Mode) -> (r: Pin)
        requires
            pin < MAX,
        ensures
            r.wf(),
            r.id() == pin,
            r.mode_spec() == mode,
            r.pending() == Seq::<Command>::empty(),
    {
        Pin { pin, mode, commands: Vec::new() }
    }

    /// The pin's index.
    pub fn pin(&self) -> (r: u8)
        ensures
            r == self.id(),
    {
        self.pin
    }

    /// Returns the current GPIO pin mode.
    pub fn mode(&self) -> (r: Mode)
        ensures
            r == self.mode_spec(),
    {
        self.mode
    }

    /// Sets the pin's mode, with no check of whether the mode suits the pin.
    pub fn set_mode(&mut self, mode: Mode)
        ensures
            final(self).id() == old(self).id(),
            final(self).mode_spec() == mode,
            final(self).pending() == old(self).pending().push(Command::SetMode(old(self).id(), mode)),
    {
        self.mode = mode;
        self.commands.push(Command::SetMode(self.pin, mode));
    }

    /// Configures the built-in pull-up/pull-down resistors.
    pub fn set_pullupdown(&mut self, pud: PullUpDown)
        ensures
            final(self).id() == old(self).id(),
            final(self).mode_spec() == old(self).mode_spec(),
            final(self).pending() == old(self).pending().push(Command::SetPullUpDown(old(self).id(), pud)),
    {
        self.commands.push(Command::SetPullUpDown(self.pin, pud));
    }

    /// Sets the pin's logic level to low.
    pub fn set_low(&mut self)
        ensures
            final(self).id() == old(self).id(),
            final(self).mode_spec() == old(self).mode_spec(),
            final(self).pending() == old(self).pending().push(Command::SetLevel(old(self).id(), Level::Low)),
    {
        self.commands.push(Command::SetLevel(self.pin, Level::Low));
    }

    /// Sets the pin's logic level to high.
    pub fn set_high(&mut self)
        ensures
            final(self).id() == old(self).id(),
            final(self).mode_spec() == old(self).mode_spec(),
            final(self).pending() == old(self).pending().push(Command::SetLevel(old(self).id(), Level::High)),
    {
        self.commands.push(Command::SetLevel(self.pin, Level::High));
    }

    /// Sets the pin's logic level.
    pub fn write(&mut self, level: Level)
        ensures
            final(self).id() == old(self).id(),
            final(self).mode_spec() == old(self).mode_spec(),
            final(self).pending() == old(self).pending().push(Command::SetLevel(old(self).id(), level)),
    {
        match level {
            Level::Low => self.set_low(),
            Level::High => self.set_high(),
        }
    }

    /// Hands out the queued register writes, oldest first, and empties the queue.
    pub fn take_commands(&mut self) -> (r: Vec<Command>)
        ensures
            r@ == old(self).pending(),
            final(self).id() == old(self).id(),
            final(self).mode_spec() == old(self).mode_spec(),
            final(self).pending() == Seq::<Command>::empty(),
    {
        let mut taken: Vec<Command> = Vec::new();
        std::mem::swap(&mut taken, &mut self.commands);
        taken
    }
}

/// Exclusive use of a pin in a target mode, with the mode the pin had
/// before, to be written back on release.
pub struct ModeGuard {
    pin: Pin,
    prev_mode: Option<Mode>,
    clear_on_drop: bool,
}

impl ModeGuard {
    /// `next` is this guard with `cmd` queued on its pin and nothing else changed.
    pub open spec fn queued(self, next: ModeGuard, cmd: Command) -> bool {
        &&& next.prev_mode_spec() == self.prev_mode_spec()
        &&& next.clear_on_drop_spec() == self.clear_on_drop_spec()
        &&& next.pin_spec().id() == self.pin_spec().id()
        &&& next.pin_spec().mode_spec() == self.pin_spec().mode_spec()
        &&& next.pin_spec().pending() == self.pin_spec().pending().push(cmd)
    }

    pub closed spec fn pin_spec(&self) -> Pin {
        self.pin
    }

    pub closed spec fn prev_mode_spec(&self) -> Option<Mode> {
        self.prev_mode
    }

    pub closed spec fn clear_on_drop_spec(&self) -> bool {
        self.clear_on_drop
    }

    /// Takes `pin` into mode `target`. The pin's mode is written only when it
    /// differs from `target`, and then the old mode is kept for restoration.
    pub fn new(pin: Pin, target: Mode) -> (r: ModeGuard)
        ensures
            r.pin_spec().id() == pin.id(),
            r.pin_spec().mode_spec() == target,
            r.pin_spec().pending() == pin.pending() + entry_writes(pin.id(), pin.mode_spec(), target),
            r.prev_mode_spec() == captured(pin.mode_spec(), target),
            r.clear_on_drop_spec(),
    {
        let ghost before = pin.pending();
        let mut pin = pin;
        let current = pin.mode();
        let prev_mode = if current == target {
            assert(before + seq![] =~= before);
            None
        } else {
            pin.set_mode(target);
            assert(before.push(Command::SetMode(pin.id(), target)) =~= before + seq![Command::SetMode(pin.id(), target)]);
            Some(current)
        };
        ModeGuard { pin, prev_mode, clear_on_drop: true }
    }

    /// The mode the pin had before, if the guard changed it.
    pub fn prev_mode(&self) -> (r: Option<Mode>)
        ensures
            r == self.prev_mode_spec(),
    {
        self.prev_mode
    }

    /// Returns the value of `clear_on_drop`.
    pub fn clear_on_drop(&self) -> (r: bool)
        ensures
            r == self.clear_on_drop_spec(),
    {
        self.clear_on_drop
    }

    /// Chooses whether release writes the previous mode back (the default).
    pub fn set_clear_on_drop(&mut self, clear_on_drop: bool)
        ensures
            final(self).pin_spec() == old(self).pin_spec(),
            final(self).prev_mode_spec() == old(self).prev_mode_spec(),
            final(self).clear_on_drop_spec() == clear_on_drop,
    {
        self.clear_on_drop = clear_on_drop;
    }

    /// The guarded pin.
    pub fn pin(&self) -> (r: &Pin)
        ensures
            *r == self.pin_spec(),
    {
        &self.pin
    }

    /// Configures the pin's pull resistors.
    pub fn set_pullupdown(&mut self, pud: PullUpDown)
        ensures
            old(self).queued(*final(self), Command::SetPullUpDown(old(self).pin_spec().id(), pud)),
    {
        self.pin.set_pullupdown(pud);
    }

    /// Sets the pin's logic level.
    pub fn write(&mut self, level: Level)
        ensures
            old(self).queued(*final(self), Command::SetLevel(old(self).pin_spec().id(), level)),
    {
        self.pin.write(level);
    }

    /// Hands out the pin's queued register writes, oldest first.
    pub fn take_commands(&mut self) -> (r: Vec<Command>)
        ensures
            r@ == old(self).pin_spec().pending(),
            final(self).prev_mode_spec() == old(self).prev_mode_spec(),
            final(self).clear_on_drop_spec() == old(self).clear_on_drop_spec(),
            final(self).pin_spec().id() == old(self).pin_spec().id(),
            final(self).pin_spec().mode_spec() == old(self).pin_spec().mode_spec(),
            final(self).pin_spec().pending() == Seq::<Command>::empty(),
    {
        self.pin.take_commands()
    }

    /// Ends the guard and gives the pin back. With `clear_on_drop` set and a
    /// recorded previous mode, that mode is written back; else nothing is.
    pub fn release(self) -> (r: Pin)
        ensures
            r.id() == self.pin_spec().id(),
            r.mode_spec() == restored_mode(
                self.pin_spec().mode_spec(),
                self.prev_mode_spec(),
                self.clear_on_drop_spec(),
            ),
            r.pending() == self.pin_spec().pending() + exit_writes(
                self.pin_spec().id(),
                self.prev_mode_spec(),
                self.clear_on_drop_spec(),
            ),
    {
        let ghost before = self.pin.pending();
        let mut pin = self.pin;
        if self.clear_on_drop {
            if let Some(m) = self.prev_mode {
                pin.set_mode(m);
                assert(before.push(Command::SetMode(pin.id(), m)) =~= before + seq![Command::SetMode(pin.id(), m)]);
            } else {
                assert(before + seq![] =~= before);
            }
        } else {
            assert(before + seq![] =~= before);
        }
        pin
    }
}

impl Pin {
    /// Takes the pin as an output for as long as the view lives.
    pub fn as_output(self) -> (r: OutputPin)
        ensures
            r.guard_spec().pin_spec().id() == self.id(),
            r.guard_spec().pin_spec().mode_spec() == Mode::Output,
            r.guard_spec().pin_spec().pending() == self.pending() + entry_writes(self.id(), self.mode_spec(), Mode::Output),
            r.guard_spec().prev_mode_spec() == captured(self.mode_spec(), Mode::Output),
            r.guard_spec().clear_on_drop_spec(),
    {
        OutputPin::new(self)
    }

    /// Takes the pin in the alternate function `mode` for as long as the view lives.
    pub fn as_alt(self, mode: Mode) -> (r: AltPin)
        ensures
            r.mode_spec() == mode,
            r.guard_spec().pin_spec().id() == self.id(),
            r.guard_spec().pin_spec().mode_spec() == mode,
            r.guard_spec().pin_spec().pending() == self.pending() + entry_writes(self.id(), self.mode_spec(), mode),
            r.guard_spec().prev_mode_spec() == captured(self.mode_spec(), mode),
            r.guard_spec().clear_on_drop_spec(),
    {
        AltPin::new(self, mode)
    }
}

/// A pin used as an output.
pub struct OutputPin {
    guard: ModeGuard,
}

impl OutputPin {
    pub closed spec fn guard_spec(&self) -> ModeGuard {
        self.guard
    }

    pub fn new(pin: Pin) -> (r: OutputPin)
        ensures
            r.guard_spec().pin_spec().id() == pin.id(),
            r.guard_spec().pin_spec().mode_spec() == Mode::Output,
            r.guard_spec().pin_spec().pending() == pin.pending() + entry_writes(pin.id(), pin.mode_spec(), Mode::Output),
            r.guard_spec().prev_mode_spec() == captured(pin.mode_spec(), Mode::Output),
            r.guard_spec().clear_on_drop_spec(),
    {
        OutputPin { guard: ModeGuard::new(pin, Mode::Output) }
    }

    /// The mode the pin had before, if the view changed it.
    pub fn prev_mode(&self) -> (r: Option<Mode>)
        ensures
            r == self.guard_spec().prev_mode_spec(),
    {
        self.guard.prev_mode()
    }

    /// Returns the value of `clear_on_drop`.
    pub fn clear_on_drop(&self) -> (r: bool)
        ensures
            r == self.guard_spec().clear_on_drop_spec(),
    {
        self.guard.clear_on_drop()
    }

    /// Chooses whether release writes the previous mode back (the default).
    pub fn set_clear_on_drop(&mut self, clear_on_drop: bool)
        ensures
            final(self).guard_spec().pin_spec() == old(self).guard_spec().pin_spec(),
            final(self).guard_spec().prev_mode_spec() == old(self).guard_spec().prev_mode_spec(),
            final(self).guard_spec().clear_on_drop_spec() == clear_on_drop,
    {
        self.guard.set_clear_on_drop(clear_on_drop);
    }

    /// The underlying pin.
    pub fn pin(&self) -> (r: &Pin)
        ensures
            *r == self.guard_spec().pin_spec(),
    {
        self.guard.pin()
    }

    /// Sets the pin's logic level to low.
    pub fn set_low(&mut self)
        ensures
            old(self).guard_spec().queued(
                final(self).guard_spec(),
                Command::SetLevel(old(self).guard_spec().pin_spec().id(), Level::Low),
            ),
    {
        self.guard.write(Level::Low);
    }

    /// Sets the pin's logic level to high.
    pub fn set_high(&mut self)
        ensures
            old(self).guard_spec().queued(
                final(self).guard_spec(),
                Command::SetLevel(old(self).guard_spec().pin_spec().id(), Level::High),
            ),
    {
        self.guard.write(Level::High);
    }

    /// Sets the pin's logic level.
    pub fn write(&mut self, level: Level)
        ensures
            old(self).guard_spec().queued(
                final(self).guard_spec(),
                Command::SetLevel(old(self).guard_spec().pin_spec().id(), level),
            ),
    {
        self.guard.write(level);
    }

    /// Hands out the pin's queued register writes, oldest first.
    pub fn take_commands(&mut self) -> (r: Vec<Command>)
        ensures
            r@ == old(self).guard_spec().pin_spec().pending(),
            final(self).guard_spec().prev_mode_spec() == old(self).guard_spec().prev_mode_spec(),
            final(self).guard_spec().clear_on_drop_spec() == old(self).guard_spec().clear_on_drop_spec(),
            final(self).guard_spec().pin_spec().id() == old(self).guard_spec().pin_spec().id(),
            final(self).guard_spec().pin_spec().mode_spec() == old(self).guard_spec().pin_spec().mode_spec(),
            final(self).guard_spec().pin_spec().pending() == Seq::<Command>::empty(),
    {
        self.guard.take_commands()
    }

    /// Ends the view and gives the pin back, restoring its previous mode
    /// when `clear_on_drop` is set.
    pub fn release(self) -> (r: Pin)
        ensures
            r.id() == self.guard_spec().pin_spec().id(),
            r.mode_spec() == restored_mode(
                self.guard_spec().pin_spec().mode_spec(),
                self.guard_spec().prev_mode_spec(),
                self.guard_spec().clear_on_drop_spec(),
            ),
            r.pending() == self.guard_spec().pin_spec().pending() + exit_writes(
                self.guard_spec().pin_spec().id(),
                self.guard_spec().prev_mode_spec(),
                self.guard_spec().clear_on_drop_spec(),
            ),
    {
        self.guard.release()
    }
}

/// A pin used in an alternate function. The peripheral decides the pin's
/// direction, so the view can both write and be read.
pub struct AltPin {
    guard: ModeGuard,
    mode: Mode,
}

impl AltPin {
    pub closed spec fn guard_spec(&self) -> ModeGuard {
        self.guard
    }

    pub closed spec fn mode_spec(&self) -> Mode {
        self.mode
    }

    pub fn new(pin: Pin, mode: Mode) -> (r: AltPin)
        ensures
            r.mode_spec() == mode,
            r.guard_spec().pin_spec().id() == pin.id(),
            r.guard_spec().pin_spec().mode_spec() == mode,
            r.guard_spec().pin_spec().pending() == pin.pending() + entry_writes(pin.id(), pin.mode_spec(), mode),
            r.guard_spec().prev_mode_spec() == captured(pin.mode_spec(), mode),
            r.guard_spec().clear_on_drop_spec(),
    {
        AltPin { guard: ModeGuard::new(pin, mode), mode }
    }

    /// The mode the view put the pin in.
    pub fn mode(&self) -> (r: Mode)
        ensures
            r == self.mode_spec(),
    {
        self.mode
    }

    /// The mode the pin had before, if the view changed it.
    pub fn prev_mode(&self) -> (r: Option<Mode>)
        ensures
            r == self.guard_spec().prev_mode_spec(),
    {
        self.guard.prev_mode()
    }

    /// Returns the value of `clear_on_drop`.
    pub fn clear_on_drop(&self) -> (r: bool)
        ensures
            r == self.guard_spec().clear_on_drop_spec(),
    {
        self.guard.clear_on_drop()
    }

    /// Chooses whether release writes the previous mode back (the default).
    pub fn set_clear_on_drop(&mut self, clear_on_drop: bool)
        ensures
            final(self).mode_spec() == old(self).mode_spec(),
            final(self).guard_spec().pin_spec() == old(self).guard_spec().pin_spec(),
            final(self).guard_spec().prev_mode_spec() == old(self).guard_spec().prev_mode_spec(),
            final(self).guard_spec().clear_on_drop_spec() == clear_on_drop,
    {
        self.guard.set_clear_on_drop(clear_on_drop);
    }

    /// The underlying pin.
    pub fn pin(&self) -> (r: &Pin)
        ensures
            *r == self.guard_spec().pin_spec(),
    {
        self.guard.pin()
    }

    /// Sets the pin's logic level to low.
    pub fn set_low(&mut self)
        ensures
            final(self).mode_spec() == old(self).mode_spec(),
            old(self).guard_spec().queued(
                final(self).guard_spec(),
                Command::SetLevel(old(self).guard_spec().pin_spec().id(), Level::Low),
            ),
    {
        self.guard.write(Level::Low);
    }

    /// Sets the pin's logic level to high.
    pub fn set_high(&mut self)
        ensures
            final(self).mode_spec() == old(self).mode_spec(),
            old(self).guard_spec().queued(
                final(self).guard_spec(),
                Command::SetLevel(old(self).guard_spec().pin_spec().id(), Level::High),
            ),
    {
        self.guard.write(Level::High);
    }

    /// Sets the pin's logic level.
    pub fn write(&mut self, level: Level)
        ensures
            final(self).mode_spec() == old(self).mode_spec(),
            old(self).guard_spec().queued(
                final(self).guard_spec(),
                Command::SetLevel(old(self).guard_spec().pin_spec().id(), level),
            ),
    {
        self.guard.write(level);
    }

    /// Hands out the pin's queued register writes, oldest first.
    pub fn take_commands(&mut self) -> (r: Vec<Command>)
        ensures
            r@ == old(self).guard_spec().pin_spec().pending(),
            final(self).mode_spec() == old(self).mode_spec(),
            final(self).guard_spec().prev_mode_spec() == old(self).guard_spec().prev_mode_spec(),
            final(self).guard_spec().clear_on_drop_spec() == old(self).guard_spec().clear_on_drop_spec(),
            final(self).guard_spec().pin_spec().id() == old(self).guard_spec().pin_spec().id(),
            final(self).guard_spec().pin_spec().mode_spec() == old(self).guard_spec().pin_spec().mode_spec(),
            final(self).guard_spec().pin_spec().pending() == Seq::<Command>::empty(),
    {
        self.guard.take_commands()
    }

    /// Ends the view and gives the pin back, restoring its previous mode
    /// when `clear_on_drop` is set.
    pub fn release(self) -> (r: Pin)
        ensures
            r.id() == self.guard_spec().pin_spec().id(),
            r.mode_spec() == restored_mode(
                self.guard_spec().pin_spec().mode_spec(),
                self.guard_spec().prev_mode_spec(),
                self.guard_spec().clear_on_drop_spec(),
            ),
            r.pending() == self.guard_spec().pin_spec().pending() + exit_writes(
                self.guard_spec().pin_spec().id(),
                self.guard_spec().prev_mode_spec(),
                self.guard_spec().clear_on_drop_spec(),
            ),
    {
        self.guard.release()
    }
}

/// A view whose mode differs from the pin's records the pin's mode, and
/// releasing it with `clear_on_drop` set brings the pin back to that mode,
/// both in the recorded mode and in the register writes made on the way.
pub proof fn lemma_view_restores_mode(pin: u8, before: Mode, target: Mode)
    requires
        before != target,
    ensures
        captured(before, target) == Some(before),
        restored_mode(target, captured(before, target), true) == before,
        mode_after(before, entry_writes(pin, before, target)) == target,
        mode_after(before, entry_writes(pin, before, target) + exit_writes(pin, captured(before, target), true))
            == before,
{
    reveal_with_fuel(mode_after, 3);
    let w = entry_writes(pin, before, target) + exit_writes(pin, captured(before, target), true);
    assert(w =~= seq![Command::SetMode(pin, target), Command::SetMode(pin, before)]);
    assert(w.drop_first() =~= seq![Command::SetMode(pin, before)]);
    assert(w.drop_first().drop_first() =~= Seq::<Command>::empty());
    assert(entry_writes(pin, before, target).drop_first() =~= Seq::<Command>::empty());
}

/// A view whose mode the pin already has records nothing, and neither
/// taking the pin nor releasing it writes the mode register.
pub proof fn lemma_same_mode_view_writes_nothing(pin: u8, mode: Mode, current: Mode, clear_on_drop: bool)
    ensures
        captured(mode, mode) == None::<Mode>,
        entry_writes(pin, mode, mode) == Seq::<Command>::empty(),
        exit_writes(pin, captured(mode, mode), clear_on_drop) == Seq::<Command>::empty(),
        restored_mode(current, captured(mode, mode), clear_on_drop) == current,
{
}

/// With `clear_on_drop` off, releasing a view leaves the pin's mode as it
/// is at that moment and writes nothing.
pub proof fn lemma_release_without_clear_keeps_mode(pin: u8, current: Mode, prev_mode: Option<Mode>)
    ensures
        exit_writes(pin, prev_mode, false) == Seq::<Command>::empty(),
        restored_mode(current, prev_mode, false) == current,
        mode_after(current, exit_writes(pin, prev_mode, false)) == current,
{
}

} // verus!
