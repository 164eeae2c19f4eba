//! The duty-cycle channel capability.
//!
//! The display core does not talk to PWM hardware directly: it consumes a
//! channel through this trait, so any type that can accept an integer
//! duty-cycle value and report success or failure qualifies.  A channel is
//! modeled by the sequence of duty-cycle values it has committed so far,
//! which lets contracts say exactly which writes a call performs and in what
//! order.  The library also provides [`SoftChannel`], a software channel
//! that records its writes, for driving the core without hardware.

use vstd::prelude::*;

verus! {

/// An opaque failure reported by a channel when a write could not be
/// committed.  The core never interprets the cause; it only propagates it.
#[derive(Clone, Copy, Debug, PartialEq, Eq, Structural)]
pub struct ChannelError;

/// Rejected calibration: a bound pair that is not strictly increasing or is
/// out of the representable magnitude range, or a resolution that is not a
/// single positive value shared by both channels.
#[derive(Clone, Copy, Debug, PartialEq, Eq, Structural)]
pub struct ConfigurationError;

/// The two axes of the display, used to label writes in the ghost record of
/// committed values.
#[derive(Clone, Copy, Debug, PartialEq, Eq, Structural)]
pub enum Axis {
    X,
    Y,
}

/// A sink for duty-cycle values, one per axis of the display.
///
/// `history` is the channel's model: the sequence of values committed so
/// far.  A successful write appends exactly its value; a failed write
/// commits nothing.  `resolution_spec` is the largest value the channel was
/// configured to accept, fixed for the channel's lifetime.
pub trait DutyCycleChannel: Sized {
    /// The largest duty-cycle value this channel accepts.
    spec fn resolution_spec(&self) -> u16;

    /// The values committed to this channel so far, oldest first.
    spec fn history(&self) -> Seq<u16>;

    /// Report the configured resolution.
    fn max_duty_cycle(&self) -> (r: u16)
        ensures
            r == self.resolution_spec(),
    ;

    /// Commit one duty-cycle value.  The caller keeps the value within the
    /// configured resolution; whether the commit succeeds is the channel's
    /// own affair.
    fn set_duty_cycle(&mut self, value: u16) -> (r: Result<(), ChannelError>)
        requires
            value <= old(self).resolution_spec(),
        ensures
            final(self).resolution_spec() == old(self).resolution_spec(),
            r is Ok ==> final(self).history() == old(self).history().push(value),
            r is Err ==> final(self).history() == old(self).history(),
    ;
}

/// A software duty-cycle channel: it records every committed value and can
/// be told to start failing after a set number of writes, which makes the
/// core's error propagation observable without hardware.
pub struct SoftChannel {
    resolution: u16,
    writes: Vec<u16>,
    ok_budget: usize,
}

impl SoftChannel {
    /// How many more writes this channel will accept before it starts
    /// failing.
    pub closed spec fn budget_spec(&self) -> usize {
        self.ok_budget
    }

    /// A fresh channel with the given resolution that will accept
    /// `ok_budget` writes and fail on every write after that.
    pub fn new(resolution: u16, ok_budget: usize) -> (c: SoftChannel)
        ensures
            c.resolution_spec() == resolution,
            c.history() == Seq::<u16>::empty(),
            c.budget_spec() == ok_budget,
    {
        SoftChannel { resolution, writes: Vec::new(), ok_budget }
    }

    /// The values committed so far, oldest first.
    pub fn written(&self) -> (w: &Vec<u16>)
        ensures
            w@ == self.history(),
    {
        &self.writes
    }
}

impl DutyCycleChannel for SoftChannel {
    closed spec fn resolution_spec(&self) -> u16 {
        self.resolution
    }

    closed spec fn history(&self) -> Seq<u16> {
        self.writes@
    }

    fn max_duty_cycle(&self) -> (r: u16) {
        self.resolution
    }

    fn set_duty_cycle(&mut self, value: u16) -> (r: Result<(), ChannelError>)
        ensures
            r is Ok <==> old(self).budget_spec() > 0,
            final(self).budget_spec() == (if old(self).budget_spec() > 0 {
                (old(self).budget_spec() - 1) as usize
            } else {
                0usize
            }),
    {
        if self.ok_budget == 0 {
            Err(ChannelError)
        } else {
            self.ok_budget = self.ok_budget - 1;
            self.writes.push(value);
            Ok(())
        }
    }
}

} // verus!
