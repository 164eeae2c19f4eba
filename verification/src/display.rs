//! The display: two owned duty-cycle channels bound to one calibration.
//!
//! A [`Display`] owns one channel per axis and four calibration bounds,
//! fixed at construction.  `set_position` maps the X coordinate, then the Y
//! coordinate, through the coordinate mapper and commits the two duty-cycle
//! values to the channels in that order: the X write always comes first, and
//! if it fails the Y write is never attempted.  A ghost record of the
//! committed writes, in order across both axes, makes that ordering part of
//! the contract.

use crate::channel::{Axis, ChannelError, ConfigurationError, DutyCycleChannel};
use crate::mapper::{duty_spec, map_duty, valid_bounds, RAW_BOUND};
use vstd::prelude::*;

verus! {

/// Two calibrated output channels, one per axis, behind a single
/// `set_position` entry point.
pub struct Display<CX: DutyCycleChannel, CY: DutyCycleChannel> {
    channel_x: CX,
    channel_y: CY,
    x_min: i64,
    x_max: i64,
    y_min: i64,
    y_max: i64,
    resolution: u16,
    trace: Ghost<Seq<(Axis, u16)>>,
}

impl<CX: DutyCycleChannel, CY: DutyCycleChannel> Display<CX, CY> {
    /// Lower calibration bound of the X axis, in raw fixed-point units.
    pub closed spec fn x_min_spec(&self) -> i64 {
        self.x_min
    }

    /// Upper calibration bound of the X axis.
    pub closed spec fn x_max_spec(&self) -> i64 {
        self.x_max
    }

    /// Lower calibration bound of the Y axis.
    pub closed spec fn y_min_spec(&self) -> i64 {
        self.y_min
    }

    /// Upper calibration bound of the Y axis.
    pub closed spec fn y_max_spec(&self) -> i64 {
        self.y_max
    }

    /// The duty-cycle resolution shared by both channels.
    pub closed spec fn resolution_spec(&self) -> u16 {
        self.resolution
    }

    /// The values committed to the X channel so far.
    pub closed spec fn x_history(&self) -> Seq<u16> {
        self.channel_x.history()
    }

    /// The values committed to the Y channel so far.
    pub closed spec fn y_history(&self) -> Seq<u16> {
        self.channel_y.history()
    }

    /// All writes this display has committed since construction, across both
    /// channels, in the order they were performed.
    pub closed spec fn trace(&self) -> Seq<(Axis, u16)> {
        self.trace@
    }

    /// A well-formed display: strictly increasing bounds of bounded
    /// magnitude on both axes, and one positive resolution that both
    /// channels are configured with.
    pub closed spec fn wf(&self) -> bool {
        &&& valid_bounds(self.x_min, self.x_max)
        &&& valid_bounds(self.y_min, self.y_max)
        &&& 0 < self.resolution
        &&& self.channel_x.resolution_spec() == self.resolution
        &&& self.channel_y.resolution_spec() == self.resolution
    }

    /// The duty-cycle value an X coordinate maps to under this display's
    /// calibration.
    pub open spec fn x_duty(&self, x: int) -> int {
        duty_spec(x, self.x_min_spec() as int, self.x_max_spec() as int,
            self.resolution_spec() as int)
    }

    /// The duty-cycle value a Y coordinate maps to under this display's
    /// calibration.
    pub open spec fn y_duty(&self, y: int) -> int {
        duty_spec(y, self.y_min_spec() as int, self.y_max_spec() as int,
            self.resolution_spec() as int)
    }

    /// Build a display from two already-configured channels and the
    /// calibration bounds of the two axes, given in raw fixed-point units.
    /// Construction is refused when either bound pair is not strictly
    /// increasing or exceeds the representable magnitude, or when the two
    /// channels do not share one positive resolution.
    pub fn new(
        channel_x: CX,
        channel_y: CY,
        x_min: i64,
        x_max: i64,
        y_min: i64,
        y_max: i64,
    ) -> (r: Result<Self, ConfigurationError>)
        ensures
            r is Ok <==> (valid_bounds(x_min, x_max) && valid_bounds(y_min, y_max)
                && channel_x.resolution_spec() == channel_y.resolution_spec()
                && 0 < channel_x.resolution_spec()),
            r matches Ok(d) ==> ({
                &&& d.wf()
                &&& d.x_min_spec() == x_min
                &&& d.x_max_spec() == x_max
                &&& d.y_min_spec() == y_min
                &&& d.y_max_spec() == y_max
                &&& d.resolution_spec() == channel_x.resolution_spec()
                &&& d.x_history() == channel_x.history()
                &&& d.y_history() == channel_y.history()
                &&& d.trace() == Seq::<(Axis, u16)>::empty()
            }),
    {
        if x_min < -RAW_BOUND || x_min >= x_max || x_max > RAW_BOUND {
            return Err(ConfigurationError);
        }
        if y_min < -RAW_BOUND || y_min >= y_max || y_max > RAW_BOUND {
            return Err(ConfigurationError);
        }
        let resolution = channel_x.max_duty_cycle();
        if resolution != channel_y.max_duty_cycle() || resolution == 0 {
            return Err(ConfigurationError);
        }
        Ok(Display {
            channel_x,
            channel_y,
            x_min,
            x_max,
            y_min,
            y_max,
            resolution,
            trace: Ghost(Seq::empty()),
        })
    }

    /// Map an X coordinate to its duty-cycle value under this display's
    /// calibration.
    fn coord_to_x_duty_cycle(&self, x: i64) -> (d: u16)
        requires
            self.wf(),
        ensures
            d as int == self.x_duty(x as int),
            d <= self.resolution_spec(),
    {
        map_duty(x, self.x_min, self.x_max, self.resolution)
    }

    /// Map a Y coordinate to its duty-cycle value under this display's
    /// calibration.
    fn coord_to_y_duty_cycle(&self, y: i64) -> (d: u16)
        requires
            self.wf(),
        ensures
            d as int == self.y_duty(y as int),
            d <= self.resolution_spec(),
    {
        map_duty(y, self.y_min, self.y_max, self.resolution)
    }

    /// Move the beam: map both coordinates and commit the X duty cycle,
    /// then the Y duty cycle.  On success each channel gains exactly one
    /// write.  If the X write fails the error is propagated at once and the
    /// Y channel is left untouched; if the Y write fails the X channel has
    /// already been updated and the Y channel is left stale.  Either way the
    /// calibration is unchanged and no other write happens.
    pub fn set_position(&mut self, x: i64, y: i64) -> (r: Result<(), ChannelError>)
        requires
            old(self).wf(),
        ensures
            final(self).wf(),
            final(self).x_min_spec() == old(self).x_min_spec(),
            final(self).x_max_spec() == old(self).x_max_spec(),
            final(self).y_min_spec() == old(self).y_min_spec(),
            final(self).y_max_spec() == old(self).y_max_spec(),
            final(self).resolution_spec() == old(self).resolution_spec(),
            r is Ok ==> ({
                &&& final(self).x_history() == old(self).x_history().push(
                    old(self).x_duty(x as int) as u16)
                &&& final(self).y_history() == old(self).y_history().push(
                    old(self).y_duty(y as int) as u16)
                &&& final(self).trace() == old(self).trace().push(
                    (Axis::X, old(self).x_duty(x as int) as u16)).push(
                    (Axis::Y, old(self).y_duty(y as int) as u16))
            }),
            r is Err ==> final(self).y_history() == old(self).y_history(),
            r is Err ==> ({
                ||| (final(self).x_history() == old(self).x_history()
                    && final(self).trace() == old(self).trace())
                ||| (final(self).x_history() == old(self).x_history().push(
                        old(self).x_duty(x as int) as u16)
                    && final(self).trace() == old(self).trace().push(
                        (Axis::X, old(self).x_duty(x as int) as u16)))
            }),
    {
        let duty_x = self.coord_to_x_duty_cycle(x);
        let duty_y = self.coord_to_y_duty_cycle(y);
        match self.channel_x.set_duty_cycle(duty_x) {
            Ok(()) => {},
            Err(e) => {
                return Err(e);
            },
        }
        self.trace = Ghost(self.trace@.push((Axis::X, duty_x)));
        match self.channel_y.set_duty_cycle(duty_y) {
            Ok(()) => {},
            Err(e) => {
                return Err(e);
            },
        }
        self.trace = Ghost(self.trace@.push((Axis::Y, duty_y)));
        Ok(())
    }

    /// Borrow the X channel, for inspection.
    pub fn channel_x(&self) -> (c: &CX)
        ensures
            c.history() == self.x_history(),
    {
        &self.channel_x
    }

    /// Borrow the Y channel, for inspection.
    pub fn channel_y(&self) -> (c: &CY)
        ensures
            c.history() == self.y_history(),
    {
        &self.channel_y
    }
}

} // verus!
