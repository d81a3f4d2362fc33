//! The one-shot acquisition: write the configuration that selects an input,
//! start a conversion, poll the status until the result is ready or the
//! timeout has passed, then read the result.
//!
//! Each call of `Ads1119::oneshot_step` makes at most one bus transaction and
//! returns the next state. The caller reads a monotonic clock before each step
//! and pauses for `READ_INPUT_SLEEP_MS` where the step asks for it, so the
//! driver itself never blocks on anything but the bus. Nothing is carried from
//! one acquisition to the next: each begins at `OneShot::Idle`.
use vstd::prelude::*;
use embedded_hal::i2c::{ErrorKind, I2c};
use crate::bus::{Transfer, issued};
use crate::device::{Ads1119, Ads1119Err, sample_of};
use crate::flags::{CmdFlags, InputSelection, RegSelectFlags, conversion_ready, status_ready};

verus! {

/// How long to wait, in milliseconds, for a conversion to become ready.
pub const READ_INPUT_TIMEOUT_MS: u128 = 1000;

/// The pause between two status polls, in milliseconds. It is shorter than
/// the conversion period at the default data rate, so no result is missed.
pub const READ_INPUT_SLEEP_MS: u64 = 10;

/// Where a one-shot acquisition stands.
#[derive(Clone, Copy, Debug, PartialEq, Eq, Structural)]
pub enum OneShot {
    /// Nothing issued yet; the input to read.
    Idle(InputSelection),
    /// The configuration that selects the input has been written.
    ConfigWritten,
    /// The conversion has been started; the clock is read next.
    ConversionStarted,
    /// The status is polled next; the conversion started at `started_ms`.
    Polling { started_ms: u128 },
    /// The last status said "not ready"; the clock is checked next.
    Waiting { started_ms: u128 },
    /// The status said "ready"; the result is read next.
    Ready,
}

/// What a step leaves to do.
#[derive(Debug)]
pub enum Step {
    /// Take the next step at once.
    Continue(OneShot),
    /// Pause for `READ_INPUT_SLEEP_MS`, then take the next step.
    Pause(OneShot),
    /// The acquisition is over, with the raw sample or an error.
    Done(Result<i16, Ads1119Err<ErrorKind>>),
}

/// The acquisition ended on the bus error that the last transaction reported.
pub open spec fn bus_failed(r: Step, reply: Result<Seq<u8>, ErrorKind>) -> bool {
    r == Step::Done(Err(Ads1119Err::I2CError { source: reply->Err_0 }))
}

/// At least the timeout has passed between `started_ms` and `now_ms`.
pub open spec fn timed_out(started_ms: u128, now_ms: u128) -> bool {
    now_ms as int - started_ms as int >= READ_INPUT_TIMEOUT_MS as int
}

/// One step from `state` at clock reading `now_ms`, by a device at `address`
/// whose record of transactions goes from `before` to `after`, returning `r`.
pub open spec fn step_spec(address: u8, state: OneShot, now_ms: u128, before: Seq<Transfer>, after: Seq<Transfer>, r: Step) -> bool {
    match state {
        OneShot::Idle(input) => {
            &&& issued(before, after, address, seq![CmdFlags::WREG | RegSelectFlags::CONFIG, input.spec_bits()], 0)
            &&& if after.last().reply is Ok {
                r == Step::Continue(OneShot::ConfigWritten)
            } else {
                bus_failed(r, after.last().reply)
            }
        },
        OneShot::ConfigWritten => {
            &&& issued(before, after, address, seq![CmdFlags::START_SYNC], 0)
            &&& if after.last().reply is Ok {
                r == Step::Continue(OneShot::ConversionStarted)
            } else {
                bus_failed(r, after.last().reply)
            }
        },
        OneShot::ConversionStarted => {
            &&& after == before
            &&& r == Step::Continue(OneShot::Polling { started_ms: now_ms })
        },
        OneShot::Polling { started_ms } => {
            &&& issued(before, after, address, seq![CmdFlags::RREG | RegSelectFlags::STATUS], 1)
            &&& match after.last().reply {
                Ok(s) => if status_ready(s[0]) {
                    r == Step::Continue(OneShot::Ready)
                } else {
                    r == Step::Continue(OneShot::Waiting { started_ms })
                },
                Err(_) => bus_failed(r, after.last().reply),
            }
        },
        OneShot::Waiting { started_ms } => {
            &&& after == before
            &&& if timed_out(started_ms, now_ms) {
                r == Step::Done(Err(Ads1119Err::ConversionTimeout(READ_INPUT_TIMEOUT_MS)))
            } else {
                r == Step::Pause(OneShot::Polling { started_ms })
            }
        },
        OneShot::Ready => {
            &&& issued(before, after, address, seq![CmdFlags::RDATA], 2)
            &&& match after.last().reply {
                Ok(b) => r matches Step::Done(Ok(v)) && v as int == sample_of(b),
                Err(_) => bus_failed(r, after.last().reply),
            }
        },
    }
}

impl<I2C: I2c> Ads1119<I2C> {
    /// Takes one step of a one-shot acquisition from `state`; `now_ms` is a
    /// monotonic clock reading in milliseconds taken just before the call.
    ///
    /// The whole acquisition needs exclusive use of the device: no other
    /// agent may address it on the bus until the last step is done.
    pub fn oneshot_step(&mut self, state: OneShot, now_ms: u128) -> (r: Step)
        ensures
            final(self).address() == old(self).address(),
            step_spec(old(self).address(), state, now_ms, old(self).transfers(), final(self).transfers(), r),
    {
        match state {
            OneShot::Idle(input) => match self.write_config(input.bits()) {
                Ok(()) => Step::Continue(OneShot::ConfigWritten),
                Err(e) => Step::Done(Err(Ads1119Err::I2CError { source: e })),
            },
            OneShot::ConfigWritten => match self.start_sync() {
                Ok(()) => Step::Continue(OneShot::ConversionStarted),
                Err(e) => Step::Done(Err(Ads1119Err::I2CError { source: e })),
            },
            OneShot::ConversionStarted => Step::Continue(OneShot::Polling { started_ms: now_ms }),
            OneShot::Polling { started_ms } => match self.read_status() {
                Ok(status) => {
                    if conversion_ready(status) {
                        Step::Continue(OneShot::Ready)
                    } else {
                        Step::Continue(OneShot::Waiting { started_ms })
                    }
                },
                Err(e) => Step::Done(Err(Ads1119Err::I2CError { source: e })),
            },
            OneShot::Waiting { started_ms } => {
                if now_ms >= started_ms && now_ms - started_ms >= READ_INPUT_TIMEOUT_MS {
                    Step::Done(Err(Ads1119Err::ConversionTimeout(READ_INPUT_TIMEOUT_MS)))
                } else {
                    Step::Pause(OneShot::Polling { started_ms })
                }
            },
            OneShot::Ready => match self.read_data() {
                Ok(v) => Step::Done(Ok(v)),
                Err(e) => Step::Done(Err(Ads1119Err::I2CError { source: e })),
            },
        }
    }
}

} // verus!
