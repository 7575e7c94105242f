//! Waiting until something listens on a port.

use vstd::prelude::*;

use crate::executor::{plain_command, port_is_open, port_probe_command};
use crate::process::{CommandLine, CommandView, RunOutput};
use crate::text::decimal;

verus! {

/// What is done while waiting.
#[derive(Debug)]
pub enum WaitStep {
    /// Tell whether the time has passed since the waiting began.
    CheckTime { secs: u64 },
    /// Run a command to its end.
    Probe { command: CommandLine },
    Pause { millis: u64 },
    /// The waiting is over; `open` is whether something listens.
    Over { open: bool },
}

/// What came of a step.
#[derive(Debug)]
pub enum WaitInput {
    Time { is_up: bool },
    Probed { outcome: Result<RunOutput, String> },
    Paused,
}

/// Where the waiting stands.
#[derive(Debug, Clone, Copy, PartialEq, Eq, Structural)]
pub enum WaitPhase {
    Timing,
    Probing,
    Pausing,
    Over,
}

/// The waiting for a port.
#[derive(Debug, Clone, Copy)]
pub struct PortWait {
    pub port: u16,
    pub timeout_secs: u64,
    pub phase: WaitPhase,
}

/// The mathematical counterpart of [`WaitStep`].
pub enum WaitNext {
    CheckTime(u64),
    Probe(CommandView),
    Pause(u64),
    Over(bool),
}

impl View for WaitStep {
    type V = WaitNext;

    open spec fn view(&self) -> WaitNext {
        match self {
            WaitStep::CheckTime { secs } => WaitNext::CheckTime(*secs),
            WaitStep::Probe { command } => WaitNext::Probe(command@),
            WaitStep::Pause { millis } => WaitNext::Pause(*millis),
            WaitStep::Over { open } => WaitNext::Over(*open),
        }
    }
}

/// The probe of a port ran well and found something that listens.
pub open spec fn found_listening(outcome: Result<RunOutput, String>) -> bool {
    match outcome {
        Ok(output) => output.success && output.stdout@.len() > 0,
        Err(_) => false,
    }
}

/// What came of a step is what the waiting needs next.
pub open spec fn wait_accepts(phase: WaitPhase, input: WaitInput) -> bool {
    match input {
        WaitInput::Time { .. } => phase is Timing,
        WaitInput::Probed { .. } => phase is Probing,
        WaitInput::Paused => phase is Pausing,
    }
}

/// How the waiting goes on: as long as there is time the port is probed, five times a second,
/// until something listens.
pub open spec fn on_wait_input(s: PortWait, input: WaitInput) -> (PortWait, WaitNext) {
    match input {
        WaitInput::Time { is_up } => if is_up {
            (PortWait { phase: WaitPhase::Over, ..s }, WaitNext::Over(false))
        } else {
            (
                PortWait { phase: WaitPhase::Probing, ..s },
                WaitNext::Probe(
                    plain_command(
                        "lsof"@,
                        seq!["-i"@, ":"@ + decimal(s.port as nat), "-sTCP:LISTEN"@],
                        None,
                        None,
                    ),
                ),
            )
        },
        WaitInput::Probed { outcome } => if found_listening(outcome) {
            (PortWait { phase: WaitPhase::Over, ..s }, WaitNext::Over(true))
        } else {
            (PortWait { phase: WaitPhase::Pausing, ..s }, WaitNext::Pause(200))
        },
        WaitInput::Paused => (
            PortWait { phase: WaitPhase::Timing, ..s },
            WaitNext::CheckTime(s.timeout_secs),
        ),
    }
}

/// Begins to wait for a port.
pub fn wait_for_port(port: u16, timeout_secs: u64) -> (r: (PortWait, WaitStep))
    ensures
        r.0 == (PortWait { port, timeout_secs, phase: WaitPhase::Timing }),
        r.1@ == WaitNext::CheckTime(timeout_secs),
{
    (
        PortWait { port, timeout_secs, phase: WaitPhase::Timing },
        WaitStep::CheckTime { secs: timeout_secs },
    )
}

impl PortWait {
    /// Whether what came of a step is what the waiting needs next.
    pub fn accepts(&self, input: &WaitInput) -> (r: bool)
        ensures
            r == wait_accepts(self.phase, *input),
    {
        match input {
            WaitInput::Time { .. } => self.phase == WaitPhase::Timing,
            WaitInput::Probed { .. } => self.phase == WaitPhase::Probing,
            WaitInput::Paused => self.phase == WaitPhase::Pausing,
        }
    }

    /// Takes what came of the last step.
    pub fn resume(&mut self, input: WaitInput) -> (r: WaitStep)
        requires
            wait_accepts(old(self).phase, input),
        ensures
            (*final(self), r@) == on_wait_input(*old(self), input),
    {
        match input {
            WaitInput::Time { is_up } => if is_up {
                self.phase = WaitPhase::Over;
                WaitStep::Over { open: false }
            } else {
                self.phase = WaitPhase::Probing;
                WaitStep::Probe { command: port_probe_command(self.port) }
            },
            WaitInput::Probed { outcome } => {
                let open: bool = match outcome {
                    Ok(output) => port_is_open(output.success, output.stdout.as_str()),
                    Err(_) => false,
                };
                if open {
                    self.phase = WaitPhase::Over;
                    WaitStep::Over { open: true }
                } else {
                    self.phase = WaitPhase::Pausing;
                    WaitStep::Pause { millis: 200 }
                }
            },
            WaitInput::Paused => {
                self.phase = WaitPhase::Timing;
                WaitStep::CheckTime { secs: self.timeout_secs }
            },
        }
    }
}

/// The waiting ends in two ways only: something listens, or the time is up; and it says that
/// something listens only where a probe found it.
pub proof fn law_waiting_ends(s: PortWait, input: WaitInput)
    requires
        wait_accepts(s.phase, input),
    ensures
        ({
            let (after, next) = on_wait_input(s, input);
            &&& after.phase is Over <==> next is Over
            &&& next == WaitNext::Over(true) <==> (input matches WaitInput::Probed { outcome }
                && found_listening(outcome))
            &&& next == WaitNext::Over(false) <==> (input matches WaitInput::Time { is_up } && is_up)
            &&& after.port == s.port && after.timeout_secs == s.timeout_secs
        }),
{
}

} // verus!
