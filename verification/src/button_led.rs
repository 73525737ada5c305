//! A blinking LED that a push button takes over: while the button is held
//! the LED stays lit; otherwise it is lit for a second and dark for a
//! second, and a press cuts either half short.
//!
//! The controller decides; the caller drives the pins and the waits. Each
//! step returns the level to give the LED, if it changes, and what to wait
//! for before the next step, whose input is the outcome of that wait.

use vstd::prelude::*;

verus! {

/// Length of each half of the blink, in milliseconds.
pub const BLINK_HALF_PERIOD_MS: u64 = 1000;

/// Where the controller is in its loop.
#[derive(Clone, Copy, Debug, PartialEq, Eq, Structural)]
pub enum LedPhase {
    /// About to read the button.
    ReadButton,
    /// The LED is lit for the first half of the blink.
    Lit,
    /// The LED is dark for the second half of the blink.
    Dark,
}

/// The outcome of the last wait.
#[derive(Clone, Copy, Debug, PartialEq, Eq, Structural)]
pub enum LedInput {
    /// The button was read; `pressed` when it is held down.
    Button { pressed: bool },
    /// The half period ran out before the button was pressed.
    TimerFired,
    /// The button was pressed before the half period ran out.
    ButtonPressed,
}

/// What the caller waits for after a step.
#[derive(Clone, Copy, Debug, PartialEq, Eq, Structural)]
pub enum LedWait {
    /// Nothing: read the button at once.
    ReadButton,
    /// The release of the button; then read it.
    UntilReleased,
    /// Whichever comes first: the end of a half period, or a press.
    TimerOrPress,
}

/// The outcome of one step.
#[derive(Clone, Copy, Debug, PartialEq, Eq, Structural)]
pub struct LedAction {
    /// The level to give the LED, if it changes.
    pub led: Option<bool>,
    pub wait: LedWait,
}

/// Whether `input` is an outcome of what a controller in `phase` waited for.
pub open spec fn input_fits(phase: LedPhase, input: LedInput) -> bool {
    match phase {
        LedPhase::ReadButton => input is Button,
        _ => !(input is Button),
    }
}

/// One step of the controller.
pub open spec fn led_step(phase: LedPhase, input: LedInput) -> (LedPhase, LedAction) {
    match (phase, input) {
        (LedPhase::ReadButton, LedInput::Button { pressed: true }) => (
            LedPhase::ReadButton,
            LedAction { led: Some(true), wait: LedWait::UntilReleased },
        ),
        (LedPhase::ReadButton, _) => (
            LedPhase::Lit,
            LedAction { led: Some(true), wait: LedWait::TimerOrPress },
        ),
        (LedPhase::Lit, LedInput::TimerFired) => (
            LedPhase::Dark,
            LedAction { led: Some(false), wait: LedWait::TimerOrPress },
        ),
        _ => (LedPhase::ReadButton, LedAction { led: None, wait: LedWait::ReadButton }),
    }
}

/// The LED's decisions.
pub struct LedController {
    phase: LedPhase,
}

impl View for LedController {
    type V = LedPhase;

    closed spec fn view(&self) -> LedPhase {
        self.phase
    }
}

impl LedController {
    /// A controller about to read the button.
    pub fn new() -> (c: Self)
        ensures
            c@ == LedPhase::ReadButton,
    {
        LedController { phase: LedPhase::ReadButton }
    }

    /// The controller's phase.
    pub fn phase(&self) -> (p: LedPhase)
        ensures
            p == self@,
    {
        self.phase
    }

    /// Whether `input` is an outcome of what the controller waited for.
    pub fn accepts(&self, input: LedInput) -> (ok: bool)
        ensures
            ok == input_fits(self@, input),
    {
        match self.phase {
            LedPhase::ReadButton => match input {
                LedInput::Button { .. } => true,
                _ => false,
            },
            _ => match input {
                LedInput::Button { .. } => false,
                _ => true,
            },
        }
    }

    /// Takes the outcome of the last wait and decides the next move.
    pub fn step(&mut self, input: LedInput) -> (action: LedAction)
        requires
            input_fits(old(self)@, input),
        ensures
            (final(self)@, action) == led_step(old(self)@, input),
            input_fits(final(self)@, LedInput::Button { pressed: false }) <==> action.wait
                == LedWait::ReadButton || action.wait == LedWait::UntilReleased,
    {
        let (next, action) = match self.phase {
            LedPhase::ReadButton => match input {
                LedInput::Button { pressed: true } => (
                    LedPhase::ReadButton,
                    LedAction { led: Some(true), wait: LedWait::UntilReleased },
                ),
                _ => (LedPhase::Lit, LedAction { led: Some(true), wait: LedWait::TimerOrPress }),
            },
            LedPhase::Lit => match input {
                LedInput::TimerFired => (
                    LedPhase::Dark,
                    LedAction { led: Some(false), wait: LedWait::TimerOrPress },
                ),
                _ => (LedPhase::ReadButton, LedAction { led: None, wait: LedWait::ReadButton }),
            },
            LedPhase::Dark => (
                LedPhase::ReadButton,
                LedAction { led: None, wait: LedWait::ReadButton },
            ),
        };
        self.phase = next;
        action
    }
}

/// A held button keeps the LED lit: reading the button pressed lights the
/// LED and waits for the release, then reads the button again.
pub proof fn lemma_press_lights()
    ensures
        led_step(LedPhase::ReadButton, LedInput::Button { pressed: true }) == (
            LedPhase::ReadButton,
            LedAction { led: Some(true), wait: LedWait::UntilReleased },
        ),
{
}

/// A press during either half of the blink sends the controller straight
/// back to reading the button, without touching the LED or waiting.
pub proof fn lemma_press_interrupts(phase: LedPhase)
    requires
        phase != LedPhase::ReadButton,
    ensures
        led_step(phase, LedInput::ButtonPressed) == (
            LedPhase::ReadButton,
            LedAction { led: None, wait: LedWait::ReadButton },
        ),
{
}

/// Without a press, one round is: LED on for a half period, LED off for a
/// half period, then the button is read again.
pub proof fn lemma_blink_round()
    ensures
        ({
            let (p1, a1) = led_step(LedPhase::ReadButton, LedInput::Button { pressed: false });
            let (p2, a2) = led_step(p1, LedInput::TimerFired);
            let (p3, a3) = led_step(p2, LedInput::TimerFired);
            &&& a1 == LedAction { led: Some(true), wait: LedWait::TimerOrPress }
            &&& a2 == LedAction { led: Some(false), wait: LedWait::TimerOrPress }
            &&& a3 == LedAction { led: None, wait: LedWait::ReadButton }
            &&& p3 == LedPhase::ReadButton
        }),
{
}

/// Every outcome of the wait a step asks for is accepted by the next step:
/// after a `TimerOrPress` wait both the end of the half period and a press
/// are, after a button read or a wait for release the button's level is,
/// pressed or not; and only those outcomes are.
pub proof fn lemma_wait_outcomes_accepted(phase: LedPhase, input: LedInput)
    requires
        input_fits(phase, input),
    ensures
        ({
            let (next, action) = led_step(phase, input);
            &&& action.wait == LedWait::TimerOrPress ==> input_fits(next, LedInput::TimerFired)
                && input_fits(next, LedInput::ButtonPressed) && !input_fits(
                next,
                LedInput::Button { pressed: true },
            ) && !input_fits(next, LedInput::Button { pressed: false })
            &&& action.wait != LedWait::TimerOrPress ==> input_fits(
                next,
                LedInput::Button { pressed: true },
            ) && input_fits(next, LedInput::Button { pressed: false }) && !input_fits(
                next,
                LedInput::TimerFired,
            ) && !input_fits(next, LedInput::ButtonPressed)
        }),
{
}

/// Which outcomes each phase takes: a button reading while about to read
/// the button; the end of the half period or a press during either half of
/// the blink.
pub proof fn lemma_accepted_inputs(phase: LedPhase)
    ensures
        phase == LedPhase::ReadButton ==> input_fits(phase, LedInput::Button { pressed: true })
            && input_fits(phase, LedInput::Button { pressed: false }) && !input_fits(
            phase,
            LedInput::TimerFired,
        ) && !input_fits(phase, LedInput::ButtonPressed),
        phase != LedPhase::ReadButton ==> input_fits(phase, LedInput::TimerFired) && input_fits(
            phase,
            LedInput::ButtonPressed,
        ) && !input_fits(phase, LedInput::Button { pressed: true }) && !input_fits(
            phase,
            LedInput::Button { pressed: false },
        ),
{
}

} // verus!
