use vstd::prelude::*;

use crate::pin::{captured, entry_writes, exit_writes, restored_mode, ModeGuard, Pin};
use crate::types::{Command, GpioError, IrqCommand, Level, Mode, PullUpDown, Trigger};

verus! {

/// Which interrupt mechanism a pin has armed. Being one value, it arms at
/// most one of the two at any time.
#[derive(Clone, Copy, Debug, PartialEq, Eq, Structural)]
pub enum IrqState {
    Idle,
    /// A trigger is registered with the shared event source, to be polled.
    Sync(Trigger),
    /// A background runner calls the pin's callback on each trigger.
    Async(Trigger),
}

/// What an interrupt transition asks of the caller next.
#[derive(Clone, Copy, Debug, PartialEq, Eq)]
pub enum Step {
    /// Carry out this command, then report its outcome with `resume`.
    Run(IrqCommand),
    /// The transition is over, with this result.
    Done(Result<(), GpioError>),
}

/// A wait on the shared event source for a trigger on one pin.
#[derive(Clone, Copy, Debug, PartialEq, Eq, Structural)]
pub struct PollRequest {
    pub pin: u8,
    /// Discard trigger events recorded before the wait.
    pub reset: bool,
    /// How long to wait, in milliseconds; `None` waits without end.
    pub timeout_ms: Option<u64>,
}

/// The interrupt state after `cmd` has been carried out on a pin in state
/// `s`, successfully when `ok`. A failed command leaves the state as it was,
/// except a failed stop: the runner's handle is spent either way, so the pin
/// is then left with no interrupt rather than a half-stopped one.
pub open spec fn after_command(s: IrqState, cmd: IrqCommand, ok: bool) -> IrqState {
    match cmd {
        IrqCommand::Register(_, t) => if ok {
            IrqState::Sync(t)
        } else {
            s
        },
        IrqCommand::Deregister(_) => if ok && s is Sync {
            IrqState::Idle
        } else {
            s
        },
        IrqCommand::StartAsync(_, t) => if ok {
            IrqState::Async(t)
        } else {
            s
        },
        IrqCommand::StopAsync(_) => if s is Async {
            IrqState::Idle
        } else {
            s
        },
    }
}

/// The interrupt state after every command of `plan` has succeeded.
pub open spec fn run_plan(s: IrqState, plan: Seq<IrqCommand>) -> IrqState
    decreases plan.len(),
{
    if plan.len() == 0 {
        s
    } else {
        run_plan(after_command(s, plan[0], true), plan.drop_first())
    }
}

/// Arming a synchronous trigger: a running background runner is stopped first.
pub open spec fn set_interrupt_plan(pin: u8, s: IrqState, trigger: Trigger) -> Seq<IrqCommand> {
    if s is Async {
        seq![IrqCommand::StopAsync(pin), IrqCommand::Register(pin, trigger)]
    } else {
        seq![IrqCommand::Register(pin, trigger)]
    }
}

/// Removing the synchronous trigger, whether or not one is registered.
pub open spec fn clear_interrupt_plan(pin: u8) -> Seq<IrqCommand> {
    seq![IrqCommand::Deregister(pin)]
}

/// Arming a background runner: the synchronous trigger is removed and a
/// running runner stopped before the new one starts.
pub open spec fn set_async_interrupt_plan(pin: u8, s: IrqState, trigger: Trigger) -> Seq<IrqCommand> {
    if s is Async {
        seq![IrqCommand::Deregister(pin), IrqCommand::StopAsync(pin), IrqCommand::StartAsync(pin, trigger)]
    } else {
        seq![IrqCommand::Deregister(pin), IrqCommand::StartAsync(pin, trigger)]
    }
}

/// Stopping the background runner, if one runs.
pub open spec fn clear_async_interrupt_plan(pin: u8, s: IrqState) -> Seq<IrqCommand> {
    if s is Async {
        seq![IrqCommand::StopAsync(pin)]
    } else {
        seq![]
    }
}

/// A pin used as an input, with its interrupt configuration.
///
/// Interrupt transitions are carried out one command at a time: each
/// `Step::Run` is to be carried out by the caller and its outcome handed to
/// `resume`. The interrupt state changes only as reported outcomes come in,
/// and the first failure ends the transition.
pub struct InputPin {
    guard: ModeGuard,
    irq: IrqState,
    in_flight: Option<IrqCommand>,
    queued: Vec<IrqCommand>,
}

impl Pin {
    /// Takes the pin as an input with the pull resistors off.
    pub fn as_input(self) -> (r: InputPin)
        ensures
            r.entered(self, PullUpDown::Off),
    {
        InputPin::new(self, PullUpDown::Off)
    }

    /// Takes the pin as an input with the pull-up resistor on.
    pub fn as_input_pullup(self) -> (r: InputPin)
        ensures
            r.entered(self, PullUpDown::PullUp),
    {
        InputPin::new(self, PullUpDown::PullUp)
    }

    /// Takes the pin as an input with the pull-down resistor on.
    pub fn as_input_pulldown(self) -> (r: InputPin)
        ensures
            r.entered(self, PullUpDown::PullDown),
    {
        InputPin::new(self, PullUpDown::PullDown)
    }
}

impl InputPin {
    pub closed spec fn guard_spec(&self) -> ModeGuard {
        self.guard
    }

    pub closed spec fn interrupt_spec(&self) -> IrqState {
        self.irq
    }

    /// The command whose outcome the current transition waits for.
    pub closed spec fn in_flight_spec(&self) -> Option<IrqCommand> {
        self.in_flight
    }

    /// The commands of the current transition that come after the one in flight.
    pub closed spec fn queued_spec(&self) -> Seq<IrqCommand> {
        self.queued@
    }

    pub open spec fn id(&self) -> u8 {
        self.guard_spec().pin_spec().id()
    }

    /// This view was made from `pin` with pull configuration `pud`: the pin
    /// is an input, its old mode is recorded if it was another, the pull
    /// resistors are set in any case, and no interrupt is armed.
    pub open spec fn entered(&self, pin: Pin, pud: PullUpDown) -> bool {
        &&& self.guard_spec().pin_spec().id() == pin.id()
        &&& self.guard_spec().pin_spec().mode_spec() == Mode::Input
        &&& self.guard_spec().pin_spec().pending() == pin.pending() + entry_writes(
            pin.id(),
            pin.mode_spec(),
            Mode::Input,
        ).push(Command::SetPullUpDown(pin.id(), pud))
        &&& self.guard_spec().prev_mode_spec() == captured(pin.mode_spec(), Mode::Input)
        &&& self.guard_spec().clear_on_drop_spec()
        &&& self.interrupt_spec() == IrqState::Idle
        &&& self.in_flight_spec() is None
        &&& self.queued_spec() == Seq::<IrqCommand>::empty()
    }

    /// `next` is this view after asking for a transition with `plan`: it is
    /// refused while another one is in flight; otherwise the plan's first
    /// command is handed out, or the transition is over at once when the
    /// plan is empty. The interrupt state does not change yet.
    pub open spec fn begun(self, next: InputPin, plan: Seq<IrqCommand>, r: Step) -> bool {
        &&& next.guard_spec() == self.guard_spec()
        &&& next.interrupt_spec() == self.interrupt_spec()
        &&& if self.in_flight_spec() is Some {
            &&& r == Step::Done(Err(GpioError::Busy))
            &&& next.in_flight_spec() == self.in_flight_spec()
            &&& next.queued_spec() == self.queued_spec()
        } else if plan.len() == 0 {
            &&& r == Step::Done(Ok(()))
            &&& next.in_flight_spec() is None
            &&& next.queued_spec() == Seq::<IrqCommand>::empty()
        } else {
            &&& r == Step::Run(plan[0])
            &&& next.in_flight_spec() == Some(plan[0])
            &&& next.queued_spec() == plan.drop_first()
        }
    }

    pub fn new(pin: Pin, pud: PullUpDown) -> (r: InputPin)
        ensures
            r.entered(pin, pud),
    {
        let ghost p = pin;
        let mut guard = ModeGuard::new(pin, Mode::Input);
        guard.set_pullupdown(pud);
        proof {
            assert(guard.pin_spec().pending() =~= p.pending() + entry_writes(p.id(), p.mode_spec(), Mode::Input).push(
                Command::SetPullUpDown(p.id(), pud),
            ));
        }
        InputPin { guard, irq: IrqState::Idle, in_flight: None, queued: Vec::new() }
    }

    fn begin(&mut self, plan: Vec<IrqCommand>) -> (r: Step)
        ensures
            old(self).begun(*final(self), plan@, r),
    {
        if self.in_flight.is_some() {
            return Step::Done(Err(GpioError::Busy));
        }
        let ghost whole = plan@;
        let mut plan = plan;
        if plan.len() == 0 {
            assert(plan@ =~= Seq::<IrqCommand>::empty());
            self.queued = plan;
            Step::Done(Ok(()))
        } else {
            let first = plan.remove(0);
            assert(plan@ =~= whole.drop_first());
            self.in_flight = Some(first);
            self.queued = plan;
            Step::Run(first)
        }
    }

    /// Configures a synchronous interrupt trigger, replacing any earlier
    /// one. A running background runner is stopped first; if that fails the
    /// transition ends there and no trigger is registered.
    pub fn set_interrupt(&mut self, trigger: Trigger) -> (r: Step)
        ensures
            old(self).begun(*final(self), set_interrupt_plan(old(self).id(), old(self).interrupt_spec(), trigger), r),
    {
        let pin = self.guard.pin().pin();
        let mut plan: Vec<IrqCommand> = Vec::new();
        if let IrqState::Async(_) = self.irq {
            plan.push(IrqCommand::StopAsync(pin));
        }
        plan.push(IrqCommand::Register(pin, trigger));
        proof {
            assert(plan@ =~= set_interrupt_plan(pin, self.irq, trigger));
        }
        self.begin(plan)
    }

    /// Removes the synchronous interrupt trigger; removing one that is not
    /// registered is not an error.
    pub fn clear_interrupt(&mut self) -> (r: Step)
        ensures
            old(self).begun(*final(self), clear_interrupt_plan(old(self).id()), r),
    {
        let pin = self.guard.pin().pin();
        let mut plan: Vec<IrqCommand> = Vec::new();
        plan.push(IrqCommand::Deregister(pin));
        proof {
            assert(plan@ =~= clear_interrupt_plan(pin));
        }
        self.begin(plan)
    }

    /// Configures an asynchronous interrupt trigger: a background runner
    /// that calls the pin's callback on each trigger. The synchronous trigger
    /// is removed and a running runner stopped before the new one starts.
    pub fn set_async_interrupt(&mut self, trigger: Trigger) -> (r: Step)
        ensures
            old(self).begun(
                *final(self),
                set_async_interrupt_plan(old(self).id(), old(self).interrupt_spec(), trigger),
                r,
            ),
    {
        let pin = self.guard.pin().pin();
        let mut plan: Vec<IrqCommand> = Vec::new();
        plan.push(IrqCommand::Deregister(pin));
        if let IrqState::Async(_) = self.irq {
            plan.push(IrqCommand::StopAsync(pin));
        }
        plan.push(IrqCommand::StartAsync(pin, trigger));
        proof {
            assert(plan@ =~= set_async_interrupt_plan(pin, self.irq, trigger));
        }
        self.begin(plan)
    }

    /// Stops the background runner if one runs; with none, it is over at once.
    pub fn clear_async_interrupt(&mut self) -> (r: Step)
        ensures
            old(self).begun(*final(self), clear_async_interrupt_plan(old(self).id(), old(self).interrupt_spec()), r),
    {
        let pin = self.guard.pin().pin();
        let mut plan: Vec<IrqCommand> = Vec::new();
        if let IrqState::Async(_) = self.irq {
            plan.push(IrqCommand::StopAsync(pin));
        }
        proof {
            assert(plan@ =~= clear_async_interrupt_plan(pin, self.irq));
        }
        self.begin(plan)
    }

    /// Takes the outcome of the command in flight, applies it to the
    /// interrupt state, and hands out the next command, or ends the
    /// transition: at the first failure, with that failure, or after the
    /// last command. With no command in flight nothing changes.
    pub fn resume(&mut self, outcome: Result<(), GpioError>) -> (r: Step)
        ensures
            final(self).guard_spec() == old(self).guard_spec(),
            match old(self).in_flight_spec() {
                None => {
                    &&& r == Step::Done(Ok(()))
                    &&& final(self).interrupt_spec() == old(self).interrupt_spec()
                    &&& final(self).in_flight_spec() is None
                    &&& final(self).queued_spec() == old(self).queued_spec()
                },
                Some(cmd) => {
                    &&& final(self).interrupt_spec() == after_command(
                        old(self).interrupt_spec(),
                        cmd,
                        outcome is Ok,
                    )
                    &&& match outcome {
                        Err(e) => {
                            &&& r == Step::Done(Err(e))
                            &&& final(self).in_flight_spec() is None
                            &&& final(self).queued_spec() == Seq::<IrqCommand>::empty()
                        },
                        Ok(_) => if old(self).queued_spec().len() == 0 {
                            &&& r == Step::Done(Ok(()))
                            &&& final(self).in_flight_spec() is None
                            &&& final(self).queued_spec() == Seq::<IrqCommand>::empty()
                        } else {
                            &&& r == Step::Run(old(self).queued_spec()[0])
                            &&& final(self).in_flight_spec() == Some(old(self).queued_spec()[0])
                            &&& final(self).queued_spec() == old(self).queued_spec().drop_first()
                        },
                    }
                },
            },
    {
        let cmd = match self.in_flight {
            None => {
                return Step::Done(Ok(()));
            },
            Some(c) => c,
        };
        let ok = outcome.is_ok();
        self.irq = match cmd {
            IrqCommand::Register(_, t) => if ok {
                IrqState::Sync(t)
            } else {
                self.irq
            },
            IrqCommand::Deregister(_) => match self.irq {
                IrqState::Sync(_) => if ok {
                    IrqState::Idle
                } else {
                    self.irq
                },
                _ => self.irq,
            },
            IrqCommand::StartAsync(_, t) => if ok {
                IrqState::Async(t)
            } else {
                self.irq
            },
            IrqCommand::StopAsync(_) => match self.irq {
                IrqState::Async(_) => IrqState::Idle,
                _ => self.irq,
            },
        };
        match outcome {
            Err(e) => {
                self.in_flight = None;
                self.queued = Vec::new();
                assert(self.queued@ =~= Seq::<IrqCommand>::empty());
                Step::Done(Err(e))
            },
            Ok(_) => if self.queued.len() == 0 {
                self.in_flight = None;
                Step::Done(Ok(()))
            } else {
                let ghost rest = self.queued@;
                let next = self.queued.remove(0);
                assert(self.queued@ =~= rest.drop_first());
                self.in_flight = Some(next);
                Step::Run(next)
            },
        }
    }

    /// Asks for a wait for a trigger event on this pin. Only a pin with a
    /// synchronous trigger registered can be polled; any other is refused
    /// with `NotArmed`.
    pub fn poll_interrupt(&self, reset: bool, timeout_ms: Option<u64>) -> (r: Result<PollRequest, GpioError>)
        ensures
            self.interrupt_spec() is Sync ==> r == Ok::<PollRequest, GpioError>(
                PollRequest { pin: self.id(), reset, timeout_ms },
            ),
            !(self.interrupt_spec() is Sync) ==> r == Err::<PollRequest, GpioError>(GpioError::NotArmed),
    {
        match self.irq {
            IrqState::Sync(_) => Ok(PollRequest { pin: self.guard.pin().pin(), reset, timeout_ms }),
            _ => Err(GpioError::NotArmed),
        }
    }

    /// The level a poll observed, from what the event source returned: the
    /// level of a trigger on this pin, or nothing when the wait timed out.
    pub fn poll_result(&self, event: Option<(u8, Level)>) -> (r: Option<Level>)
        ensures
            r == (match event {
                Some((p, level)) => if p == self.id() {
                    Some(level)
                } else {
                    None
                },
                None => None,
            }),
    {
        match event {
            Some((p, level)) => if p == self.guard.pin().pin() {
                Some(level)
            } else {
                None
            },
            None => None,
        }
    }

    /// The interrupt mechanism the pin has armed.
    pub fn interrupt(&self) -> (r: IrqState)
        ensures
            r == self.interrupt_spec(),
    {
        self.irq
    }

    /// Whether a transition waits for the outcome of a command.
    pub fn is_busy(&self) -> (r: bool)
        ensures
            r == self.in_flight_spec() is Some,
    {
        self.in_flight.is_some()
    }

    /// The mode the pin had before, if the view changed it.
    pub fn prev_mode(&self) -> (r: Option<Mode>)
        ensures
            r == self.guard_spec().prev_mode_spec(),
    {
        self.guard.prev_mode()
    }

    /// Returns the value of `clear_on_drop`.
    pub fn clear_on_drop(&self) -> (r: bool)
        ensures
            r == self.guard_spec().clear_on_drop_spec(),
    {
        self.guard.clear_on_drop()
    }

    /// Chooses whether release writes the previous mode back (the default).
    /// Stopping the background runner does not depend on it.
    pub fn set_clear_on_drop(&mut self, clear_on_drop: bool)
        ensures
            final(self).interrupt_spec() == old(self).interrupt_spec(),
            final(self).in_flight_spec() == old(self).in_flight_spec(),
            final(self).queued_spec() == old(self).queued_spec(),
            final(self).guard_spec().pin_spec() == old(self).guard_spec().pin_spec(),
            final(self).guard_spec().prev_mode_spec() == old(self).guard_spec().prev_mode_spec(),
            final(self).guard_spec().clear_on_drop_spec() == clear_on_drop,
    {
        self.guard.set_clear_on_drop(clear_on_drop);
    }

    /// The underlying pin.
    pub fn pin(&self) -> (r: &Pin)
        ensures
            *r == self.guard_spec().pin_spec(),
    {
        self.guard.pin()
    }

    /// Hands out the pin's queued register writes, oldest first.
    pub fn take_commands(&mut self) -> (r: Vec<Command>)
        ensures
            r@ == old(self).guard_spec().pin_spec().pending(),
            final(self).interrupt_spec() == old(self).interrupt_spec(),
            final(self).in_flight_spec() == old(self).in_flight_spec(),
            final(self).queued_spec() == old(self).queued_spec(),
            final(self).guard_spec().prev_mode_spec() == old(self).guard_spec().prev_mode_spec(),
            final(self).guard_spec().clear_on_drop_spec() == old(self).guard_spec().clear_on_drop_spec(),
            final(self).guard_spec().pin_spec().id() == old(self).guard_spec().pin_spec().id(),
            final(self).guard_spec().pin_spec().mode_spec() == old(self).guard_spec().pin_spec().mode_spec(),
            final(self).guard_spec().pin_spec().pending() == Seq::<Command>::empty(),
    {
        self.guard.take_commands()
    }

    /// Ends the view and gives the pin back, restoring its previous mode
    /// when `clear_on_drop` is set. The background runner must have been
    /// stopped first (`clear_async_interrupt`), and no transition may be in
    /// flight.
    pub fn release(self) -> (r: Pin)
        requires
            !(self.interrupt_spec() is Async),
            self.in_flight_spec() is None,
        ensures
            r.id() == self.id(),
            r.mode_spec() == restored_mode(
                self.guard_spec().pin_spec().mode_spec(),
                self.guard_spec().prev_mode_spec(),
                self.guard_spec().clear_on_drop_spec(),
            ),
            r.pending() == self.guard_spec().pin_spec().pending() + exit_writes(
                self.id(),
                self.guard_spec().prev_mode_spec(),
                self.guard_spec().clear_on_drop_spec(),
            ),
    {
        self.guard.release()
    }
}

/// Arming a synchronous trigger while a background runner runs stops the
/// runner first: the stop comes before the registration, it leaves no
/// runner behind whatever its outcome, and when both succeed the trigger is
/// the one registered.
pub proof fn lemma_set_interrupt_stops_async_first(pin: u8, running: Trigger, trigger: Trigger)
    ensures
        set_interrupt_plan(pin, IrqState::Async(running), trigger) == seq![
            IrqCommand::StopAsync(pin),
            IrqCommand::Register(pin, trigger),
        ],
        after_command(IrqState::Async(running), IrqCommand::StopAsync(pin), true) == IrqState::Idle,
        after_command(IrqState::Async(running), IrqCommand::StopAsync(pin), false) == IrqState::Idle,
        run_plan(IrqState::Async(running), set_interrupt_plan(pin, IrqState::Async(running), trigger))
            == IrqState::Sync(trigger),
{
    reveal_with_fuel(run_plan, 3);
    let plan = set_interrupt_plan(pin, IrqState::Async(running), trigger);
    assert(plan.drop_first() =~= seq![IrqCommand::Register(pin, trigger)]);
    assert(plan.drop_first().drop_first() =~= Seq::<IrqCommand>::empty());
}

/// Arming a background runner removes the synchronous trigger first, stops
/// any running runner next, and starts the new runner last, on a pin that
/// has no mechanism armed at that point; when all succeed, the new runner
/// is the one armed.
pub proof fn lemma_set_async_interrupt_deregisters_first(pin: u8, s: IrqState, trigger: Trigger)
    ensures
        set_async_interrupt_plan(pin, s, trigger)[0] == IrqCommand::Deregister(pin),
        set_async_interrupt_plan(pin, s, trigger).last() == IrqCommand::StartAsync(pin, trigger),
        !(after_command(s, IrqCommand::Deregister(pin), true) is Sync),
        run_plan(s, set_async_interrupt_plan(pin, s, trigger).drop_last()) == IrqState::Idle,
        run_plan(s, set_async_interrupt_plan(pin, s, trigger)) == IrqState::Async(trigger),
{
    reveal_with_fuel(run_plan, 4);
    let plan = set_async_interrupt_plan(pin, s, trigger);
    if s is Async {
        assert(plan.drop_last() =~= seq![IrqCommand::Deregister(pin), IrqCommand::StopAsync(pin)]);
        assert(plan.drop_last().drop_first() =~= seq![IrqCommand::StopAsync(pin)]);
        assert(plan.drop_last().drop_first().drop_first() =~= Seq::<IrqCommand>::empty());
        assert(plan.drop_first() =~= seq![IrqCommand::StopAsync(pin), IrqCommand::StartAsync(pin, trigger)]);
        assert(plan.drop_first().drop_first() =~= seq![IrqCommand::StartAsync(pin, trigger)]);
        assert(plan.drop_first().drop_first().drop_first() =~= Seq::<IrqCommand>::empty());
    } else {
        assert(plan.drop_last() =~= seq![IrqCommand::Deregister(pin)]);
        assert(plan.drop_last().drop_first() =~= Seq::<IrqCommand>::empty());
        assert(plan.drop_first() =~= seq![IrqCommand::StartAsync(pin, trigger)]);
        assert(plan.drop_first().drop_first() =~= Seq::<IrqCommand>::empty());
    }
}

/// Removing the synchronous trigger twice in a row does no more than doing
/// it once, and on a pin without one it changes nothing, even if the event
/// source reports a failure.
pub proof fn lemma_clear_interrupt_idempotent(pin: u8, s: IrqState)
    ensures
        run_plan(run_plan(s, clear_interrupt_plan(pin)), clear_interrupt_plan(pin)) == run_plan(
            s,
            clear_interrupt_plan(pin),
        ),
        !(s is Sync) ==> run_plan(s, clear_interrupt_plan(pin)) == s,
        !(s is Sync) ==> after_command(s, IrqCommand::Deregister(pin), false) == s,
{
    reveal_with_fuel(run_plan, 2);
    assert(clear_interrupt_plan(pin).drop_first() =~= Seq::<IrqCommand>::empty());
}

/// Stopping the background runner twice in a row does no more than doing it
/// once: after the first stop, whatever its outcome, the second has nothing
/// to do; on a pin without a runner the first has nothing to do either.
pub proof fn lemma_clear_async_interrupt_idempotent(pin: u8, s: IrqState, ok: bool)
    ensures
        clear_async_interrupt_plan(pin, s).len() == 1 ==> clear_async_interrupt_plan(
            pin,
            after_command(s, clear_async_interrupt_plan(pin, s)[0], ok),
        ) == Seq::<IrqCommand>::empty(),
        clear_async_interrupt_plan(pin, run_plan(s, clear_async_interrupt_plan(pin, s)))
            == Seq::<IrqCommand>::empty(),
        !(s is Async) ==> clear_async_interrupt_plan(pin, s) == Seq::<IrqCommand>::empty(),
{
    reveal_with_fuel(run_plan, 2);
    if s is Async {
        assert(clear_async_interrupt_plan(pin, s).drop_first() =~= Seq::<IrqCommand>::empty());
    }
}

/// Tearing down an input view with a running background runner first
/// stops the runner, and once that stop has been reported, whatever its
/// outcome, no runner is left: the view can then be released.
pub proof fn lemma_teardown_stops_async(pin: u8, running: Trigger, ok: bool)
    ensures
        clear_async_interrupt_plan(pin, IrqState::Async(running)) == seq![IrqCommand::StopAsync(pin)],
        !(after_command(IrqState::Async(running), IrqCommand::StopAsync(pin), ok) is Async),
{
}

} // verus!
