//! The link session: reset handshake, transaction and retry, as a state
//! machine.
//!
//! The station sits on a half-duplex serial link: the driver writes a byte,
//! then reads the station's answer. Which byte to write, how to judge each
//! answer, when to back off and when to give up is protocol logic and is
//! verified here. Performing the reads, writes and sleeps is left to the
//! caller, who asks for the [`Reader::next_action`], carries it out against
//! the real channel, and reports what came back.
//!
//! One [`Reader`] reads one memory cell: up to 50 attempts, each consisting
//! of the reset handshake (up to 100 tries, polling while the station is
//! still answering and backing off on desynchronization), the five
//! echo-checked command bytes, the payload bytes and the checksum trailer.
//! The handshake is deliberately permissive: when all 100 tries pass
//! without the idle echo, the command exchange starts anyway.

use vstd::prelude::*;

use crate::codec::Memory;
use crate::codec::byte_sum;
use crate::codec::check;
use crate::codec::check_data;
use crate::codec::encode_address;
use crate::codec::encoded_command;
use crate::codec::expected_echo;
use crate::codec::lemma_command_byte_bounds;

verus! {

/// How many reset-plus-transaction attempts one read may consume.
pub const RETRY_BUDGET: u8 = 50;

/// How many handshake tries one reset sequence may consume.
pub const RESET_BUDGET: u8 = 100;

/// Where one read of a memory cell stands.
#[derive(Clone, Copy, Debug, PartialEq, Eq, Structural)]
pub enum State {
    /// The reset byte of handshake try `tries` has been sent; an echo is
    /// awaited. With `polling` set the station answered that it is still
    /// busy, and the echo is read again without resending.
    Reset { tries: u8, polling: bool },
    /// Handshake try `tries` saw an unexpected echo; the link backs off
    /// before the next try.
    Backoff { tries: u8 },
    /// Command byte `index` is to be written and its echo checked.
    Command { index: u8 },
    /// The command was accepted; payload bytes are being collected.
    Data,
    /// The payload is complete; the checksum trailer byte is awaited.
    Trailer,
    /// The payload has passed the checksum and can be taken.
    Done,
    /// All attempts failed; the cell could not be read.
    Failed,
}

/// What the caller must do next against the channel.
#[derive(Clone, Copy, Debug, PartialEq, Eq, Structural)]
pub enum Action {
    /// Flush pending output, write the single reset byte `0x06`, then read
    /// one echo byte.
    SendReset,
    /// Read one more byte.
    PollByte,
    /// Write this command byte, then read one echo byte.
    SendCommand(u8),
    /// Sleep this many milliseconds, then report back.
    Backoff(u64),
    /// The read succeeded; the payload is available.
    Finished,
    /// The read failed for good.
    GaveUp,
}

/// The state machine that reads one memory cell.
pub struct Reader {
    pub memory: Memory,
    pub command: Vec<u8>,
    pub attempts: u8,
    pub state: State,
    pub buf: Vec<u8>,
}

impl Reader {
    /// The machine's invariant: the command bytes are the cell's encoding,
    /// the budgets are respected, and the payload buffer matches the phase.
    pub open spec fn wf(self) -> bool {
        &&& self.memory.wf()
        &&& self.command@ == encoded_command(self.memory.address, self.memory.size as int)
        &&& self.attempts <= RETRY_BUDGET
        &&& (self.state is Failed <==> self.attempts == RETRY_BUDGET)
        &&& match self.state {
            State::Reset { tries, polling: _ } => tries < RESET_BUDGET && self.buf@.len() == 0,
            State::Backoff { tries } => tries < RESET_BUDGET && self.buf@.len() == 0,
            State::Command { index } => index < 5 && self.buf@.len() == 0,
            State::Data => self.buf@.len() < self.memory.size,
            State::Trailer => self.buf@.len() == self.memory.size,
            State::Done => self.buf@.len() == self.memory.size,
            State::Failed => true,
        }
    }

    /// The machine is waiting for one byte from the channel.
    pub open spec fn expects_byte(self) -> bool {
        ||| self.state is Reset
        ||| self.state is Command
        ||| self.state is Data
        ||| self.state is Trailer
    }

    /// Start a fresh read of one cell.
    pub fn new(memory: Memory) -> (r: Reader)
        requires
            memory.wf(),
        ensures
            r.wf(),
            r.memory == memory,
            r.attempts == 0,
            r.state == (State::Reset { tries: 0, polling: false }),
            r.buf@ == Seq::<u8>::empty(),
    {
        let command = encode_address(&memory);
        Reader {
            memory,
            command,
            attempts: 0,
            state: State::Reset { tries: 0, polling: false },
            buf: Vec::new(),
        }
    }

    /// What the caller must do next.
    pub fn next_action(&self) -> (a: Action)
        requires
            self.wf(),
        ensures
            a == action_of(*self),
    {
        match self.state {
            State::Reset { tries: _, polling } => if polling {
                Action::PollByte
            } else {
                Action::SendReset
            },
            State::Backoff { tries } => Action::Backoff(100 * (tries as u64)),
            State::Command { index } => Action::SendCommand(self.command[index as usize]),
            State::Data => Action::PollByte,
            State::Trailer => Action::PollByte,
            State::Done => Action::Finished,
            State::Failed => Action::GaveUp,
        }
    }

    /// Feed one byte read from the channel into the machine.
    pub fn on_byte(&mut self, b: u8)
        requires
            old(self).wf(),
            old(self).expects_byte(),
        ensures
            final(self).wf(),
            byte_step(*old(self), b, *final(self)),
    {
        match self.state {
            State::Reset { tries, polling: _ } => {
                if b == 2 {
                    self.state = State::Command { index: 0 };
                } else if b == 1 {
                    self.state = State::Reset { tries, polling: true };
                } else {
                    self.state = State::Backoff { tries };
                }
            },
            State::Command { index } => {
                proof {
                    lemma_command_byte_bounds(self.memory, index as int);
                }
                let c: u8 = self.command[index as usize];
                match check(c, index as usize, b) {
                    Ok(()) => {
                        if index == 4 {
                            self.state = State::Data;
                        } else {
                            self.state = State::Command { index: index + 1 };
                        }
                    },
                    Err(_) => {
                        self.fail_attempt();
                    },
                }
            },
            State::Data => {
                self.buf.push(b);
                if self.buf.len() == self.memory.size {
                    self.state = State::Trailer;
                }
            },
            State::Trailer => {
                match check_data(b, &self.buf) {
                    Ok(()) => {
                        self.state = State::Done;
                    },
                    Err(_) => {
                        self.fail_attempt();
                    },
                }
            },
            State::Backoff { .. } => {},
            State::Done => {},
            State::Failed => {},
        }
    }

    /// Report that a read, write or flush against the channel failed: the
    /// attempt in progress is charged against the retry budget.
    pub fn on_io_error(&mut self)
        requires
            old(self).wf(),
            !(old(self).state is Done),
            !(old(self).state is Failed),
        ensures
            final(self).wf(),
            failed_attempt(*old(self), *final(self)),
    {
        self.fail_attempt();
    }

    /// Report that the backoff sleep has elapsed.
    pub fn on_slept(&mut self)
        requires
            old(self).wf(),
            old(self).state is Backoff,
        ensures
            final(self).wf(),
            slept_step(*old(self), *final(self)),
    {
        match self.state {
            State::Backoff { tries } => {
                if tries + 1 == RESET_BUDGET {
                    self.state = State::Command { index: 0 };
                } else {
                    self.state = State::Reset { tries: tries + 1, polling: false };
                }
            },
            _ => {},
        }
    }

    /// The payload of a finished read, once the machine reports `Finished`.
    pub fn payload(&self) -> (r: Option<&Vec<u8>>)
        ensures
            (self.state is Done) <==> r is Some,
            r matches Some(p) ==> p@ == self.buf@,
    {
        match self.state {
            State::Done => Some(&self.buf),
            _ => None,
        }
    }

    fn fail_attempt(&mut self)
        requires
            old(self).wf(),
            !(old(self).state is Done),
            !(old(self).state is Failed),
        ensures
            final(self).wf(),
            failed_attempt(*old(self), *final(self)),
    {
        self.attempts = self.attempts + 1;
        self.buf = Vec::new();
        if self.attempts == RETRY_BUDGET {
            self.state = State::Failed;
        } else {
            self.state = State::Reset { tries: 0, polling: false };
        }
    }
}

/// The cell and its encoded command survive every transition.
pub open spec fn same_static(pre: Reader, post: Reader) -> bool {
    &&& post.memory == pre.memory
    &&& post.command@ == pre.command@
}

/// One attempt has failed: the budget is charged, the payload buffer is
/// discarded and, while attempts remain, the next one starts with a fresh
/// reset handshake.
pub open spec fn failed_attempt(pre: Reader, post: Reader) -> bool {
    &&& same_static(pre, post)
    &&& post.attempts == pre.attempts + 1
    &&& post.buf@ == Seq::<u8>::empty()
    &&& if pre.attempts + 1 == RETRY_BUDGET {
        post.state is Failed
    } else {
        post.state == (State::Reset { tries: 0, polling: false })
    }
}

/// What the caller must do in a given state.
pub open spec fn action_of(r: Reader) -> Action {
    match r.state {
        State::Reset { tries: _, polling } => if polling {
            Action::PollByte
        } else {
            Action::SendReset
        },
        State::Backoff { tries } => Action::Backoff((100 * tries) as u64),
        State::Command { index } => Action::SendCommand(r.command@[index as int]),
        State::Data => Action::PollByte,
        State::Trailer => Action::PollByte,
        State::Done => Action::Finished,
        State::Failed => Action::GaveUp,
    }
}

/// The transition the machine makes on one byte read from the channel.
pub open spec fn byte_step(pre: Reader, b: u8, post: Reader) -> bool {
    &&& same_static(pre, post)
    &&& match pre.state {
        State::Reset { tries, polling: _ } => {
            if b == 2 {
                // the station reached idle: start the command exchange
                &&& post.state == (State::Command { index: 0 })
                &&& post.attempts == pre.attempts
                &&& post.buf@ == pre.buf@
            } else if b == 1 {
                // the station is still answering: poll without resending
                &&& post.state == (State::Reset { tries, polling: true })
                &&& post.attempts == pre.attempts
                &&& post.buf@ == pre.buf@
            } else {
                // desynchronized: back off, then try the handshake again
                &&& post.state == (State::Backoff { tries })
                &&& post.attempts == pre.attempts
                &&& post.buf@ == pre.buf@
            }
        },
        State::Command { index } => {
            if b == expected_echo(pre.command@[index as int], index as int) {
                &&& post.attempts == pre.attempts
                &&& post.buf@ == pre.buf@
                &&& if index == 4 {
                    post.state is Data
                } else {
                    post.state == (State::Command { index: (index + 1) as u8 })
                }
            } else {
                failed_attempt(pre, post)
            }
        },
        State::Data => {
            &&& post.attempts == pre.attempts
            &&& post.buf@ == pre.buf@.push(b)
            &&& if pre.buf@.len() + 1 == pre.memory.size {
                post.state is Trailer
            } else {
                post.state is Data
            }
        },
        State::Trailer => {
            if byte_sum(pre.buf@) % 256 == b {
                &&& post.state is Done
                &&& post.attempts == pre.attempts
                &&& post.buf@ == pre.buf@
            } else {
                failed_attempt(pre, post)
            }
        },
        State::Backoff { .. } => {
            &&& post.state == pre.state
            &&& post.attempts == pre.attempts
            &&& post.buf@ == pre.buf@
        },
        State::Done => {
            &&& post.state == pre.state
            &&& post.attempts == pre.attempts
            &&& post.buf@ == pre.buf@
        },
        State::Failed => {
            &&& post.state == pre.state
            &&& post.attempts == pre.attempts
            &&& post.buf@ == pre.buf@
        },
    }
}

/// The transition after the backoff sleep: the next handshake try, or —
/// once all 100 tries are spent — the permissive fallthrough that starts
/// the command exchange anyway.
pub open spec fn slept_step(pre: Reader, post: Reader) -> bool {
    &&& same_static(pre, post)
    &&& post.attempts == pre.attempts
    &&& post.buf@ == pre.buf@
    &&& match pre.state {
        State::Backoff { tries } => if tries + 1 == RESET_BUDGET {
            post.state == (State::Command { index: 0 })
        } else {
            post.state == (State::Reset { tries: (tries + 1) as u8, polling: false })
        },
        _ => post.state == pre.state,
    }
}

/// A delivered payload has the full width of its cell and has passed the
/// payload checksum: `Done` is reached only from `Trailer`, and only when
/// the trailer byte equals the masked byte sum of the collected payload.
pub proof fn lemma_done_payload_checked(pre: Reader, b: u8, post: Reader)
    requires
        pre.wf(),
        byte_step(pre, b, post),
        post.state is Done,
        !(pre.state is Done),
    ensures
        pre.state is Trailer,
        post.buf@.len() == pre.memory.size,
        byte_sum(post.buf@) % 256 == b,
{
}

/// The terminal failure comes only once the whole retry budget is spent.
pub proof fn lemma_gave_up_exhausts_budget(r: Reader)
    requires
        r.wf(),
        r.state is Failed,
    ensures
        r.attempts == RETRY_BUDGET,
{
}

} // verus!
