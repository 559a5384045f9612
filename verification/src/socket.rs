//! What the outcome of a socket operation means, and when to try again.
//!
//! The operations themselves wait for the socket and are made by the caller.
//! It reports how many bytes one attempt moved, or that the attempt failed,
//! and learns here what that amounts to.

use vstd::prelude::*;
use vstd::slice::slice_subrange;
use crate::error::HyprvisorError;
use crate::message::{DecodeError, HyprvisorMessage, MessageView};

verus! {

/// The size of the buffer a message is read into.
pub const BUFFER_SIZE: usize = 8192;

/// Attempts made to read the first message of a connection, and to write a
/// subscription.
pub const HANDSHAKE_ATTEMPTS: u32 = 3;

/// Attempts made to write an update to one subscriber.
pub const DELIVERY_ATTEMPTS: u32 = 2;

/// What reading `transferred` bytes amounts to: an attempt that failed or
/// read nothing is a transport fault.
pub open spec fn spec_check_read(transferred: Option<usize>) -> Result<usize, HyprvisorError> {
    match transferred {
        Some(count) if count > 0 => Ok(count),
        _ => Err(HyprvisorError::IpcError),
    }
}

/// What writing `transferred` of `expected` bytes amounts to: an attempt
/// that failed or wrote only a part is a transport fault.
pub open spec fn spec_check_write(transferred: Option<usize>, expected: usize) -> Result<
    usize,
    HyprvisorError,
> {
    match transferred {
        Some(count) if count == expected => Ok(count),
        _ => Err(HyprvisorError::IpcError),
    }
}

/// The message that one read left at the front of `buffer`: a transport
/// fault where the read failed, read nothing, or claims more than the buffer
/// holds; a parse error where the bytes read are no message.
pub open spec fn spec_receive_message(buffer: Seq<u8>, transferred: Option<usize>) -> Result<
    MessageView,
    HyprvisorError,
> {
    match spec_check_read(transferred) {
        Ok(count) => if count > buffer.len() {
            Err(HyprvisorError::IpcError)
        } else {
            match MessageView::decode(buffer.subrange(0, count as int)) {
                Ok(message) => Ok(message),
                Err(_) => Err(HyprvisorError::ParseError),
            }
        },
        Err(error) => Err(error),
    }
}

/// Judges one attempt to read.
pub fn check_read(transferred: Option<usize>) -> (result: Result<usize, HyprvisorError>)
    ensures
        result == spec_check_read(transferred),
{
    match transferred {
        Some(count) => if count > 0 {
            Ok(count)
        } else {
            Err(HyprvisorError::IpcError)
        },
        None => Err(HyprvisorError::IpcError),
    }
}

/// Judges one attempt to write `expected` bytes.
pub fn check_write(transferred: Option<usize>, expected: usize) -> (result: Result<
    usize,
    HyprvisorError,
>)
    ensures
        result == spec_check_write(transferred, expected),
{
    match transferred {
        Some(count) => if count == expected {
            Ok(count)
        } else {
            Err(HyprvisorError::IpcError)
        },
        None => Err(HyprvisorError::IpcError),
    }
}

/// Reads the message that one attempt to read left in `buffer`.
pub fn receive_message(buffer: &[u8], transferred: Option<usize>) -> (result: Result<
    HyprvisorMessage,
    HyprvisorError,
>)
    ensures
        match result {
            Ok(message) => spec_receive_message(buffer@, transferred) == Ok::<
                MessageView,
                HyprvisorError,
            >(message@),
            Err(error) => spec_receive_message(buffer@, transferred) == Err::<
                MessageView,
                HyprvisorError,
            >(error),
        },
{
    let count = match check_read(transferred) {
        Ok(count) => count,
        Err(error) => {
            return Err(error);
        },
    };
    if count > buffer.len() {
        return Err(HyprvisorError::IpcError);
    }
    match HyprvisorMessage::decode(slice_subrange(buffer, 0, count)) {
        Ok(message) => Ok(message),
        Err(error) => Err(HyprvisorError::from(error)),
    }
}

/// What a bounded retry does next.
#[derive(Clone, Copy, Debug, PartialEq, Eq, Structural)]
pub enum RetryStep {
    /// Make the next attempt.
    Attempt,
    /// Sleep this many milliseconds.
    Wait(u64),
    /// Every attempt was made; the operation has failed.
    GiveUp,
}

/// A bounded retry as a mathematical value.
pub struct RetryView {
    pub max_attempt: u32,
    pub delay: Option<u64>,
    /// Attempts handed out so far.
    pub made: u32,
    /// Waits handed out so far.
    pub waited: u32,
}

impl RetryView {
    /// No more attempts are handed out than the bound allows, and where there
    /// is a pause, each attempt is followed by its pause before the next.
    pub open spec fn wf(self) -> bool {
        &&& self.made <= self.max_attempt
        &&& self.waited <= self.made
        &&& self.delay is Some ==> self.made <= self.waited + 1
        &&& self.delay is None ==> self.waited == 0
    }

    /// Whether the wait that follows the last attempt is still to come.
    pub open spec fn owes_wait(self) -> bool {
        self.delay is Some && self.waited < self.made
    }

    /// The step handed out in this state.
    pub open spec fn step(self) -> RetryStep {
        if self.owes_wait() {
            RetryStep::Wait(self.delay.unwrap())
        } else if self.made < self.max_attempt {
            RetryStep::Attempt
        } else {
            RetryStep::GiveUp
        }
    }

    /// The state after that step was handed out.
    pub open spec fn advance(self) -> RetryView {
        if self.owes_wait() {
            RetryView { waited: (self.waited + 1) as u32, ..self }
        } else if self.made < self.max_attempt {
            RetryView { made: (self.made + 1) as u32, ..self }
        } else {
            self
        }
    }

    /// The state after `count` steps.
    pub open spec fn advance_by(self, count: nat) -> RetryView
        decreases count,
    {
        if count == 0 {
            self
        } else {
            self.advance_by((count - 1) as nat).advance()
        }
    }
}

/// The schedule of an operation that is tried a bounded number of times,
/// with or without a pause behind each failed attempt.
pub struct Retry {
    max_attempt: u32,
    delay: Option<u64>,
    made: u32,
    waited: u32,
}

impl View for Retry {
    type V = RetryView;

    closed spec fn view(&self) -> RetryView {
        RetryView {
            max_attempt: self.max_attempt,
            delay: self.delay,
            made: self.made,
            waited: self.waited,
        }
    }
}

impl Retry {
    #[verifier::type_invariant]
    spec fn well_formed(self) -> bool {
        self@.wf()
    }

    /// A retry that has handed out nothing yet.
    pub fn new(max_attempt: u32, delay: Option<u64>) -> (retry: Retry)
        ensures
            retry@ == (RetryView { max_attempt, delay, made: 0, waited: 0 }),
            retry@.wf(),
    {
        Retry { max_attempt, delay, made: 0, waited: 0 }
    }

    /// The attempts handed out so far.
    pub fn attempts_made(&self) -> (made: u32)
        ensures
            made == self@.made,
            made <= self@.max_attempt,
    {
        proof {
            use_type_invariant(self);
        }
        self.made
    }

    /// Hands out the next step. To be called when the operation was not
    /// tried yet, or when its last attempt has failed.
    pub fn next(&mut self) -> (step: RetryStep)
        ensures
            old(self)@.wf(),
            step == old(self)@.step(),
            final(self)@ == old(self)@.advance(),
            final(self)@.wf(),
    {
        proof {
            use_type_invariant(&*self);
        }
        match self.delay {
            Some(delay) => {
                if self.waited < self.made {
                    self.waited = self.waited + 1;
                    return RetryStep::Wait(delay);
                }
            },
            None => {},
        }
        if self.made < self.max_attempt {
            self.made = self.made + 1;
            RetryStep::Attempt
        } else {
            RetryStep::GiveUp
        }
    }
}

/// A retry without pauses hands out its attempts one after the other and
/// then gives up: the step after `count` steps is an attempt while `count` is
/// below the bound, and never again after that.
pub proof fn lemma_retry_without_delay(max_attempt: u32, count: nat)
    ensures
        ({
            let start = RetryView { max_attempt, delay: None, made: 0, waited: 0 };
            let state = start.advance_by(count);
            &&& state.wf()
            &&& state.max_attempt == max_attempt
            &&& state.delay is None
            &&& state.made == if count <= max_attempt {
                count
            } else {
                max_attempt as nat
            }
            &&& state.step() == if count < max_attempt {
                RetryStep::Attempt
            } else {
                RetryStep::GiveUp
            }
        }),
    decreases count,
{
    if count > 0 {
        lemma_retry_without_delay(max_attempt, (count - 1) as nat);
    }
}

/// A retry with pauses hands out attempt and pause in turn, as many of each
/// as the bound says, and then gives up. So it never takes more time than
/// the bound times the pause, beside the attempts themselves.
pub proof fn lemma_retry_with_delay(max_attempt: u32, delay: u64, count: nat)
    ensures
        ({
            let start = RetryView { max_attempt, delay: Some(delay), made: 0, waited: 0 };
            let state = start.advance_by(count);
            &&& state.wf()
            &&& state.max_attempt == max_attempt
            &&& state.delay == Some(delay)
            &&& count <= 2 * max_attempt ==> state.made == (count + 1) / 2 && state.waited
                == count / 2
            &&& count >= 2 * max_attempt ==> state.made == max_attempt && state.waited
                == max_attempt
            &&& state.step() == if count >= 2 * max_attempt {
                RetryStep::GiveUp
            } else if count % 2 == 0 {
                RetryStep::Attempt
            } else {
                RetryStep::Wait(delay)
            }
        }),
    decreases count,
{
    if count > 0 {
        lemma_retry_with_delay(max_attempt, delay, (count - 1) as nat);
    }
}

} // verus!
