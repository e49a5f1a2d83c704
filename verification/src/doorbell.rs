//! The blocking command/response handshake over the doorbell mailbox.
//!
//! The handshake is a state machine over plain values: each step names the
//! next target-memory access to perform (an action), and consumes what that
//! access observed (an event). The driver that owns the real memory session
//! performs the action, measures elapsed time, and feeds the observation
//! back; every decision — write order, polling, the two independent timeout
//! windows, decoding — is made here.
//!
//! One exchange: stage the command frame highest offset first and its `kind`
//! word last, poll the command slot's `kind` until the stub clears it, then
//! poll the response slot's `kind` until the stub raises it — each polling
//! phase under its own full timeout budget, so the worst case waits up to
//! twice the budget — then read the four response words, clear the response
//! slot, and decode.

use vstd::prelude::*;

use crate::codec::{spec_decode, spec_encode, Command, Error, Response};
use crate::layout::Layout;

verus! {

/// Fixed sleep between successive polls of a mailbox field.
pub const DWELL_MS: u64 = 100;

/// Timeout budget granted to each polling window unless the operation
/// overrides it.
pub const DEFAULT_TIMEOUT_MS: u64 = 3000;

/// One target-memory access the driver must perform.
#[derive(Clone, Copy, Debug, PartialEq, Eq, Structural)]
pub enum MemAction {
    /// Write one 32-bit word.
    WriteWord { addr: u32, value: u32 },
    /// Read one 32-bit word.
    ReadWord { addr: u32 },
    /// Sleep for the given time.
    SleepMs { ms: u64 },
    /// Restart the stopwatch that measures the current polling window.
    ResetTimer,
}

/// What the exchange asks for next: an access to perform, or nothing more.
#[derive(Clone, Copy, Debug, PartialEq, Eq, Structural)]
pub enum MemStep {
    Do(MemAction),
    Finished,
}

/// What the driver observed while performing the requested access.
#[derive(Clone, Copy, Debug, PartialEq, Eq, Structural)]
pub enum MemEvent {
    /// The word was written.
    Written,
    /// The stopwatch was restarted.
    TimerReset,
    /// The word read this value; the stopwatch of the current polling window
    /// stood at `elapsed_ms` when the read returned.
    WordRead { value: u32, elapsed_ms: u64 },
    /// The sleep elapsed.
    Slept,
}

/// Where the handshake stands.
#[derive(Clone, Copy, Debug, PartialEq, Eq, Structural)]
pub enum Phase {
    /// Staging the command frame, highest offset first.
    SendArg2,
    SendArg1,
    SendArg0,
    /// The `kind` word goes last: the stub polls it, so the frame must be
    /// fully staged before it changes.
    SendKind,
    /// First polling window: wait for the stub to clear the command `kind`.
    AckTimer,
    AckPoll,
    AckSleep,
    /// Second polling window: wait for the stub to raise the response `kind`.
    RspTimer,
    RspPoll,
    RspSleep,
    /// Collect the four response words.
    ReadWord0,
    ReadWord1,
    ReadWord2,
    ReadWord3,
    /// Free the response slot for the next exchange.
    ClearRsp,
    Complete,
}

/// One command/response exchange over the mailbox.
pub struct Exchange {
    pub layout: Layout,
    /// The staged command frame.
    pub frame: [u32; 4],
    /// Budget of each of the two polling windows.
    pub timeout_ms: u64,
    /// The response words collected so far.
    pub words: [u32; 4],
    /// The verdict, present exactly once the exchange is complete.
    pub outcome: Option<Result<Response, Error>>,
    pub phase: Phase,
}

impl Exchange {
    pub open spec fn wf(self) -> bool {
        &&& self.layout.wf()
        &&& (self.phase is Complete <==> self.outcome is Some)
    }

    /// The handshake has not yet seen the stub acknowledge the command: it is
    /// still staging the frame or polling the command slot.
    pub open spec fn pre_response(self) -> bool {
        match self.phase {
            Phase::SendArg2
            | Phase::SendArg1
            | Phase::SendArg0
            | Phase::SendKind
            | Phase::AckTimer
            | Phase::AckPoll
            | Phase::AckSleep => true,
            _ => false,
        }
    }

    /// Which observation the current phase is waiting for.
    pub open spec fn wants(self, ev: MemEvent) -> bool {
        match self.phase {
            Phase::SendArg2
            | Phase::SendArg1
            | Phase::SendArg0
            | Phase::SendKind
            | Phase::ClearRsp => ev is Written,
            Phase::AckTimer | Phase::RspTimer => ev is TimerReset,
            Phase::AckPoll
            | Phase::RspPoll
            | Phase::ReadWord0
            | Phase::ReadWord1
            | Phase::ReadWord2
            | Phase::ReadWord3 => ev is WordRead,
            Phase::AckSleep | Phase::RspSleep => ev is Slept,
            Phase::Complete => false,
        }
    }

    /// The access the current phase asks the driver to perform.
    pub open spec fn spec_current(self) -> MemStep {
        match self.phase {
            Phase::SendArg2 => MemStep::Do(
                MemAction::WriteWord { addr: self.layout.cmd_arg2, value: self.frame[3] },
            ),
            Phase::SendArg1 => MemStep::Do(
                MemAction::WriteWord { addr: self.layout.cmd_arg1, value: self.frame[2] },
            ),
            Phase::SendArg0 => MemStep::Do(
                MemAction::WriteWord { addr: self.layout.cmd_arg0, value: self.frame[1] },
            ),
            Phase::SendKind => MemStep::Do(
                MemAction::WriteWord { addr: self.layout.cmd_kind, value: self.frame[0] },
            ),
            Phase::AckTimer => MemStep::Do(MemAction::ResetTimer),
            Phase::AckPoll => MemStep::Do(MemAction::ReadWord { addr: self.layout.cmd_kind }),
            Phase::AckSleep => MemStep::Do(MemAction::SleepMs { ms: DWELL_MS }),
            Phase::RspTimer => MemStep::Do(MemAction::ResetTimer),
            Phase::RspPoll => MemStep::Do(MemAction::ReadWord { addr: self.layout.rsp_kind }),
            Phase::RspSleep => MemStep::Do(MemAction::SleepMs { ms: DWELL_MS }),
            Phase::ReadWord0 => MemStep::Do(MemAction::ReadWord { addr: self.layout.rsp_kind }),
            Phase::ReadWord1 => MemStep::Do(MemAction::ReadWord { addr: self.layout.rsp_val0 }),
            Phase::ReadWord2 => MemStep::Do(MemAction::ReadWord { addr: self.layout.rsp_val1 }),
            Phase::ReadWord3 => MemStep::Do(MemAction::ReadWord { addr: self.layout.rsp_val2 }),
            Phase::ClearRsp => MemStep::Do(
                MemAction::WriteWord { addr: self.layout.rsp_kind, value: 0 },
            ),
            Phase::Complete => MemStep::Finished,
        }
    }

    /// The transition relation of the handshake: from `self`, observing `ev`,
    /// the exchange becomes `r`.
    pub open spec fn spec_steps_to(self, ev: MemEvent, r: Exchange) -> bool {
        match self.phase {
            Phase::SendArg2 => r == (Exchange { phase: Phase::SendArg1, ..self }),
            Phase::SendArg1 => r == (Exchange { phase: Phase::SendArg0, ..self }),
            Phase::SendArg0 => r == (Exchange { phase: Phase::SendKind, ..self }),
            Phase::SendKind => r == (Exchange { phase: Phase::AckTimer, ..self }),
            Phase::AckTimer => r == (Exchange { phase: Phase::AckPoll, ..self }),
            Phase::AckPoll => (ev matches MemEvent::WordRead { value, elapsed_ms } ==> {
                if elapsed_ms >= self.timeout_ms {
                    r == (Exchange {
                        phase: Phase::Complete,
                        outcome: Some(Err::<Response, Error>(Error::FirmwareTimeout)),
                        ..self
                    })
                } else if value != 0 {
                    r == (Exchange { phase: Phase::AckSleep, ..self })
                } else {
                    r == (Exchange { phase: Phase::RspTimer, ..self })
                }
            }),
            Phase::AckSleep => r == (Exchange { phase: Phase::AckPoll, ..self }),
            Phase::RspTimer => r == (Exchange { phase: Phase::RspPoll, ..self }),
            Phase::RspPoll => (ev matches MemEvent::WordRead { value, elapsed_ms } ==> {
                if elapsed_ms >= self.timeout_ms {
                    r == (Exchange {
                        phase: Phase::Complete,
                        outcome: Some(Err::<Response, Error>(Error::FirmwareTimeout)),
                        ..self
                    })
                } else if value == 0 {
                    r == (Exchange { phase: Phase::RspSleep, ..self })
                } else {
                    r == (Exchange { phase: Phase::ReadWord0, ..self })
                }
            }),
            Phase::RspSleep => r == (Exchange { phase: Phase::RspPoll, ..self }),
            Phase::ReadWord0 => (ev matches MemEvent::WordRead { value, .. } ==> {
                &&& r.words@ == self.words@.update(0, value)
                &&& r == (Exchange { phase: Phase::ReadWord1, words: r.words, ..self })
            }),
            Phase::ReadWord1 => (ev matches MemEvent::WordRead { value, .. } ==> {
                &&& r.words@ == self.words@.update(1, value)
                &&& r == (Exchange { phase: Phase::ReadWord2, words: r.words, ..self })
            }),
            Phase::ReadWord2 => (ev matches MemEvent::WordRead { value, .. } ==> {
                &&& r.words@ == self.words@.update(2, value)
                &&& r == (Exchange { phase: Phase::ReadWord3, words: r.words, ..self })
            }),
            Phase::ReadWord3 => (ev matches MemEvent::WordRead { value, .. } ==> {
                &&& r.words@ == self.words@.update(3, value)
                &&& r == (Exchange { phase: Phase::ClearRsp, words: r.words, ..self })
            }),
            Phase::ClearRsp => r == (Exchange {
                phase: Phase::Complete,
                outcome: Some(spec_decode(self.words)),
                ..self
            }),
            Phase::Complete => false,
        }
    }

    /// Whether the access reads or writes any field of the response slot.
    pub open spec fn touches_response_slot(l: Layout, a: MemAction) -> bool {
        match a {
            MemAction::WriteWord { addr, .. } => l.in_response_slot(addr),
            MemAction::ReadWord { addr } => l.in_response_slot(addr),
            _ => false,
        }
    }

    /// Begin an exchange: frame the command and grant each polling window the
    /// given budget.
    pub fn new(layout: Layout, command: Command, timeout_ms: u64) -> (r: Exchange)
        requires
            layout.wf(),
        ensures
            r.wf(),
            r.layout == layout,
            r.frame@ == spec_encode(command),
            r.timeout_ms == timeout_ms,
            r.outcome is None,
            r.phase is SendArg2,
            r.pre_response(),
    {
        Exchange {
            layout,
            frame: command.to_bytes(),
            timeout_ms,
            words: [0, 0, 0, 0],
            outcome: None,
            phase: Phase::SendArg2,
        }
    }

    /// The next access to perform, or `Finished` once the verdict is in.
    pub fn current(&self) -> (r: MemStep)
        ensures
            r == self.spec_current(),
    {
        match self.phase {
            Phase::SendArg2 => MemStep::Do(
                MemAction::WriteWord { addr: self.layout.cmd_arg2, value: self.frame[3] },
            ),
            Phase::SendArg1 => MemStep::Do(
                MemAction::WriteWord { addr: self.layout.cmd_arg1, value: self.frame[2] },
            ),
            Phase::SendArg0 => MemStep::Do(
                MemAction::WriteWord { addr: self.layout.cmd_arg0, value: self.frame[1] },
            ),
            Phase::SendKind => MemStep::Do(
                MemAction::WriteWord { addr: self.layout.cmd_kind, value: self.frame[0] },
            ),
            Phase::AckTimer => MemStep::Do(MemAction::ResetTimer),
            Phase::AckPoll => MemStep::Do(MemAction::ReadWord { addr: self.layout.cmd_kind }),
            Phase::AckSleep => MemStep::Do(MemAction::SleepMs { ms: DWELL_MS }),
            Phase::RspTimer => MemStep::Do(MemAction::ResetTimer),
            Phase::RspPoll => MemStep::Do(MemAction::ReadWord { addr: self.layout.rsp_kind }),
            Phase::RspSleep => MemStep::Do(MemAction::SleepMs { ms: DWELL_MS }),
            Phase::ReadWord0 => MemStep::Do(MemAction::ReadWord { addr: self.layout.rsp_kind }),
            Phase::ReadWord1 => MemStep::Do(MemAction::ReadWord { addr: self.layout.rsp_val0 }),
            Phase::ReadWord2 => MemStep::Do(MemAction::ReadWord { addr: self.layout.rsp_val1 }),
            Phase::ReadWord3 => MemStep::Do(MemAction::ReadWord { addr: self.layout.rsp_val2 }),
            Phase::ClearRsp => MemStep::Do(
                MemAction::WriteWord { addr: self.layout.rsp_kind, value: 0 },
            ),
            Phase::Complete => MemStep::Finished,
        }
    }

    /// Consume the observation of the access `current` asked for.
    pub fn apply(self, ev: MemEvent) -> (r: Exchange)
        requires
            self.wf(),
            self.wants(ev),
        ensures
            r.wf(),
            self.spec_steps_to(ev, r),
            r.layout == self.layout,
            r.frame == self.frame,
            r.timeout_ms == self.timeout_ms,
    {
        match self.phase {
            Phase::SendArg2 => Exchange { phase: Phase::SendArg1, ..self },
            Phase::SendArg1 => Exchange { phase: Phase::SendArg0, ..self },
            Phase::SendArg0 => Exchange { phase: Phase::SendKind, ..self },
            Phase::SendKind => Exchange { phase: Phase::AckTimer, ..self },
            Phase::AckTimer => Exchange { phase: Phase::AckPoll, ..self },
            Phase::AckPoll => {
                match ev {
                    MemEvent::WordRead { value, elapsed_ms } => {
                        if elapsed_ms >= self.timeout_ms {
                            Exchange {
                                phase: Phase::Complete,
                                outcome: Some(Err(Error::FirmwareTimeout)),
                                ..self
                            }
                        } else if value != 0 {
                            Exchange { phase: Phase::AckSleep, ..self }
                        } else {
                            Exchange { phase: Phase::RspTimer, ..self }
                        }
                    },
                    _ => vstd::pervasive::unreached(),
                }
            },
            Phase::AckSleep => Exchange { phase: Phase::AckPoll, ..self },
            Phase::RspTimer => Exchange { phase: Phase::RspPoll, ..self },
            Phase::RspPoll => {
                match ev {
                    MemEvent::WordRead { value, elapsed_ms } => {
                        if elapsed_ms >= self.timeout_ms {
                            Exchange {
                                phase: Phase::Complete,
                                outcome: Some(Err(Error::FirmwareTimeout)),
                                ..self
                            }
                        } else if value == 0 {
                            Exchange { phase: Phase::RspSleep, ..self }
                        } else {
                            Exchange { phase: Phase::ReadWord0, ..self }
                        }
                    },
                    _ => vstd::pervasive::unreached(),
                }
            },
            Phase::RspSleep => Exchange { phase: Phase::RspPoll, ..self },
            Phase::ReadWord0 => {
                match ev {
                    MemEvent::WordRead { value, .. } => {
                        let mut words = self.words;
                        words[0] = value;
                        Exchange { phase: Phase::ReadWord1, words, ..self }
                    },
                    _ => vstd::pervasive::unreached(),
                }
            },
            Phase::ReadWord1 => {
                match ev {
                    MemEvent::WordRead { value, .. } => {
                        let mut words = self.words;
                        words[1] = value;
                        Exchange { phase: Phase::ReadWord2, words, ..self }
                    },
                    _ => vstd::pervasive::unreached(),
                }
            },
            Phase::ReadWord2 => {
                match ev {
                    MemEvent::WordRead { value, .. } => {
                        let mut words = self.words;
                        words[2] = value;
                        Exchange { phase: Phase::ReadWord3, words, ..self }
                    },
                    _ => vstd::pervasive::unreached(),
                }
            },
            Phase::ReadWord3 => {
                match ev {
                    MemEvent::WordRead { value, .. } => {
                        let mut words = self.words;
                        words[3] = value;
                        Exchange { phase: Phase::ClearRsp, words, ..self }
                    },
                    _ => vstd::pervasive::unreached(),
                }
            },
            Phase::ClearRsp => {
                let outcome = Response::from_bytes(&self.words);
                Exchange { phase: Phase::Complete, outcome: Some(outcome), ..self }
            },
            Phase::Complete => vstd::pervasive::unreached(),
        }
    }

    /// The frame is fully staged before the field the stub polls is updated:
    /// while any argument word is still unstaged, no emitted action writes
    /// the command `kind`. This is the sole ordering guarantee on the host
    /// side, since the transport offers no atomic multi-word write.
    pub proof fn lemma_kind_staged_last(m: Exchange)
        requires
            m.wf(),
            m.phase is SendArg2 || m.phase is SendArg1 || m.phase is SendArg0,
        ensures
            m.spec_current() matches MemStep::Do(a) ==> !(a matches MemAction::WriteWord {
                addr,
                ..
            } && addr == m.layout.cmd_kind),
    {
    }

    /// Until the stub has acknowledged the command, the exchange never asks
    /// the driver to read or write the response slot; and the only way it can
    /// complete in that stretch is with `FirmwareTimeout`. So if the command
    /// slot's `kind` never clears within the timeout window, the call fails
    /// with `FirmwareTimeout` and the response slot is left untouched.
    pub proof fn lemma_response_slot_untouched_before_ack(m: Exchange, ev: MemEvent, r: Exchange)
        requires
            m.wf(),
            m.pre_response(),
            m.wants(ev),
            m.spec_steps_to(ev, r),
        ensures
            (m.spec_current() matches MemStep::Do(a) ==> !Exchange::touches_response_slot(
                m.layout,
                a,
            )),
            r.phase is Complete ==> r.outcome == Some(
                Err::<Response, Error>(Error::FirmwareTimeout),
            ),
            !(m.phase is AckPoll && (ev matches MemEvent::WordRead { value, elapsed_ms }
                && value == 0 && elapsed_ms < m.timeout_ms)) ==> (r.pre_response() || r.phase
                is Complete),
    {
    }

    /// The verdict of a completed exchange.
    pub fn finish(&self) -> (r: Result<Response, Error>)
        requires
            self.wf(),
            self.phase is Complete,
        ensures
            self.outcome == Some(r),
    {
        match self.outcome {
            Some(r) => r,
            None => vstd::pervasive::unreached(),
        }
    }
}

} // verus!
