//! The dual-channel output driver: two unipolar duty-cycle channels driven as
//! one bipolar actuator.
use vstd::prelude::*;
use crate::command::{plan_duties, planned_duties, DutyPair, FULL_SCALE};

verus! {

/// One of the two channels of an actuator: `A` carries negative commands,
/// `B` positive ones.
#[derive(Clone, Copy, Debug, PartialEq, Eq, Structural)]
pub enum Side {
    A,
    B,
}

/// A unipolar duty-cycle output at a fixed carrier frequency, provided by
/// the user of the driver (a software-timed or a hardware-timed pin).
pub trait DutyChannel: Sized {
    /// What a failed acquisition or write reports.
    type Error;

    /// The pin this channel drives.
    spec fn pin(&self) -> u8;

    /// The carrier frequency this channel runs at.
    spec fn frequency_millihertz(&self) -> u64;

    /// The duty cycle this channel holds, where `FULL_SCALE` means always on.
    spec fn duty(&self) -> u32;

    /// Acquires the output identified by `pin`, running at
    /// `frequency_millihertz`.
    fn open(pin: u8, frequency_millihertz: u64) -> (r: Result<Self, Self::Error>)
        ensures
            r matches Ok(c) ==> c.pin() == pin && c.frequency_millihertz() == frequency_millihertz,
    ;

    /// Sets the duty cycle. The pin and the frequency stay as they were.
    fn set_duty_cycle(&mut self, duty: u32) -> (r: Result<(), Self::Error>)
        requires
            duty <= FULL_SCALE,
        ensures
            final(self).pin() == old(self).pin(),
            final(self).frequency_millihertz() == old(self).frequency_millihertz(),
            r is Ok ==> final(self).duty() == duty,
    ;
}

/// `frequency` floored at zero.
pub open spec fn floor_frequency(frequency: int) -> int {
    if frequency < 0 {
        0
    } else {
        frequency
    }
}

/// `duty` clamped into `0..=FULL_SCALE`.
pub open spec fn clamp_duty(duty: int) -> int {
    if duty < 0 {
        0
    } else if duty > FULL_SCALE {
        FULL_SCALE as int
    } else {
        duty
    }
}

/// The fixed parameters of one actuator: its carrier frequency and its
/// dead-zone floor.
#[derive(Clone, Copy, Debug, PartialEq, Eq, Structural)]
pub struct ActuatorConfig {
    pub frequency_millihertz: u64,
    pub min_duty_cycle: u32,
}

impl ActuatorConfig {
    /// The configuration `new` builds.
    pub open spec fn new_spec(frequency_millihertz: int, min_duty_cycle: int) -> ActuatorConfig {
        ActuatorConfig {
            frequency_millihertz: floor_frequency(frequency_millihertz) as u64,
            min_duty_cycle: clamp_duty(min_duty_cycle) as u32,
        }
    }

    /// The floor is a duty cycle.
    pub open spec fn wf(self) -> bool {
        self.min_duty_cycle <= FULL_SCALE
    }

    /// Floors the frequency at zero and clamps the floor into
    /// `0..=FULL_SCALE`.
    pub fn new(frequency_millihertz: i64, min_duty_cycle: i32) -> (r: ActuatorConfig)
        ensures
            r.wf(),
            r == ActuatorConfig::new_spec(frequency_millihertz as int, min_duty_cycle as int),
    {
        let frequency: u64 = if frequency_millihertz < 0 {
            0
        } else {
            frequency_millihertz as u64
        };
        let floor: u32 = if min_duty_cycle < 0 {
            0
        } else if min_duty_cycle > FULL_SCALE {
            FULL_SCALE as u32
        } else {
            min_duty_cycle as u32
        };
        ActuatorConfig { frequency_millihertz: frequency, min_duty_cycle: floor }
    }
}

/// A channel could not be acquired, or not set to zero, while a driver was
/// being built.
#[derive(Debug)]
pub struct ConstructionError<E> {
    pub channel: Side,
    pub cause: E,
}

/// A write to a channel failed; the actuator's state is then unknown.
#[derive(Debug)]
pub struct OutputError<E> {
    pub channel: Side,
    pub cause: E,
}

/// What a driver is, abstractly: its configuration; the pins and carrier
/// frequencies of `(channel_a, channel_b)`; the duty cycles the two channels
/// hold; and the duty cycles last written to both, or `None` after a failed
/// write.
pub struct DualPwmView {
    pub config: ActuatorConfig,
    pub pins: (int, int),
    pub frequencies: (int, int),
    pub written: (int, int),
    pub duties: Option<(int, int)>,
}

/// Two channels driven as one bipolar actuator. At most one channel has a
/// nonzero duty cycle whenever the state is known.
pub struct DualPwm<C: DutyChannel> {
    channel_a: C,
    channel_b: C,
    config: ActuatorConfig,
    duties: Option<DutyPair>,
}

impl<C: DutyChannel> View for DualPwm<C> {
    type V = DualPwmView;

    closed spec fn view(&self) -> DualPwmView {
        DualPwmView {
            config: self.config,
            pins: (self.channel_a.pin() as int, self.channel_b.pin() as int),
            frequencies: (
                self.channel_a.frequency_millihertz() as int,
                self.channel_b.frequency_millihertz() as int,
            ),
            written: (self.channel_a.duty() as int, self.channel_b.duty() as int),
            duties: match self.duties {
                Some(p) => Some(p@),
                None => None,
            },
        }
    }
}

impl<C: DutyChannel> DualPwm<C> {
    /// The floor is a duty cycle, and a known state is what the channels
    /// hold and drives at most one channel, within full scale.
    pub closed spec fn wf(&self) -> bool {
        &&& self.config.wf()
        &&& self.duties matches Some(p) ==> {
            &&& p.a <= FULL_SCALE && p.b <= FULL_SCALE && (p.a == 0 || p.b == 0)
            &&& p.a == self.channel_a.duty() && p.b == self.channel_b.duty()
        }
    }

    /// Acquires the channels on `pin_a` and `pin_b` at the configured
    /// frequency and sets both to zero. The frequency is floored at zero and
    /// the dead-zone floor clamped into `0..=FULL_SCALE`.
    pub fn new(pin_a: u8, pin_b: u8, frequency_millihertz: i64, min_duty_cycle: i32) -> (r:
        Result<Self, ConstructionError<C::Error>>)
        ensures
            r matches Ok(d) ==> {
                &&& d.wf()
                &&& d@.config == ActuatorConfig::new_spec(
                    frequency_millihertz as int,
                    min_duty_cycle as int,
                )
                &&& d@.pins == (pin_a as int, pin_b as int)
                &&& d@.frequencies == (
                    d@.config.frequency_millihertz as int,
                    d@.config.frequency_millihertz as int,
                )
                &&& d@.written == (0int, 0int)
                &&& d@.duties == Some((0int, 0int))
            },
    {
        let config = ActuatorConfig::new(frequency_millihertz, min_duty_cycle);
        let channel_a = match C::open(pin_a, config.frequency_millihertz) {
            Ok(c) => c,
            Err(e) => {
                return Err(ConstructionError { channel: Side::A, cause: e });
            },
        };
        let channel_b = match C::open(pin_b, config.frequency_millihertz) {
            Ok(c) => c,
            Err(e) => {
                return Err(ConstructionError { channel: Side::B, cause: e });
            },
        };
        Self::from_channels(channel_a, channel_b, config)
    }

    /// Takes over two acquired channels and sets them to zero.
    pub fn from_channels(channel_a: C, channel_b: C, config: ActuatorConfig) -> (r: Result<
        Self,
        ConstructionError<C::Error>,
    >)
        requires
            config.wf(),
        ensures
            r matches Ok(d) ==> {
                &&& d.wf()
                &&& d@.config == config
                &&& d@.pins == (channel_a.pin() as int, channel_b.pin() as int)
                &&& d@.frequencies == (
                    channel_a.frequency_millihertz() as int,
                    channel_b.frequency_millihertz() as int,
                )
                &&& d@.written == (0int, 0int)
                &&& d@.duties == Some((0int, 0int))
            },
    {
        let mut channel_a = channel_a;
        let mut channel_b = channel_b;
        if let Err(e) = channel_a.set_duty_cycle(0) {
            return Err(ConstructionError { channel: Side::A, cause: e });
        }
        if let Err(e) = channel_b.set_duty_cycle(0) {
            return Err(ConstructionError { channel: Side::B, cause: e });
        }
        Ok(DualPwm { channel_a, channel_b, config, duties: Some(DutyPair { a: 0, b: 0 }) })
    }

    /// Writes `duty` to one channel, while the state is unknown.
    fn write(&mut self, side: Side, duty: u32) -> (r: Result<(), OutputError<C::Error>>)
        requires
            duty <= FULL_SCALE,
            old(self).duties is None,
        ensures
            final(self).config == old(self).config,
            final(self).duties is None,
            final(self)@.pins == old(self)@.pins,
            final(self)@.frequencies == old(self)@.frequencies,
            r is Ok && side == Side::A ==> final(self)@.written == (
                duty as int,
                old(self)@.written.1,
            ),
            r is Ok && side == Side::B ==> final(self)@.written == (
                old(self)@.written.0,
                duty as int,
            ),
            r matches Err(e) ==> e.channel == side,
    {
        let res = match side {
            Side::A => self.channel_a.set_duty_cycle(duty),
            Side::B => self.channel_b.set_duty_cycle(duty),
        };
        match res {
            Ok(()) => Ok(()),
            Err(e) => Err(OutputError { channel: side, cause: e }),
        }
    }

    /// Drives the actuator with the signed command `value`, clamped into
    /// `-FULL_SCALE..=FULL_SCALE`: zero sets both channels to zero, a
    /// positive command drives `channel_b` and a negative one `channel_a`,
    /// at the size rescaled above the dead-zone floor, the other channel
    /// at zero. The channel that goes to zero is written first. After a
    /// failed write the state is unknown.
    pub fn output(&mut self, value: i32) -> (r: Result<(), OutputError<C::Error>>)
        requires
            old(self).wf(),
        ensures
            final(self).wf(),
            final(self)@.config == old(self)@.config,
            final(self)@.pins == old(self)@.pins,
            final(self)@.frequencies == old(self)@.frequencies,
            r is Ok ==> final(self)@.written == planned_duties(
                old(self)@.config.min_duty_cycle as int,
                value as int,
            ),
            r is Ok ==> final(self)@.duties == Some(final(self)@.written),
            r is Err ==> final(self)@.duties is None,
    {
        let plan = plan_duties(self.config.min_duty_cycle, value);
        self.duties = None;
        let (idle, idle_side, active, active_side) = if plan.a == 0 {
            (plan.a, Side::A, plan.b, Side::B)
        } else {
            (plan.b, Side::B, plan.a, Side::A)
        };
        if let Err(e) = self.write(idle_side, idle) {
            return Err(e);
        }
        if let Err(e) = self.write(active_side, active) {
            return Err(e);
        }
        self.duties = Some(plan);
        Ok(())
    }

    /// Sets both channels to zero and hands them back, `(channel_a,
    /// channel_b)`, for release. When a write fails the channels are
    /// released here, in whatever state they are in, and the failure is
    /// returned.
    pub fn teardown(self) -> (r: Result<(C, C), OutputError<C::Error>>)
        requires
            self.wf(),
        ensures
            r matches Ok(p) ==> {
                &&& p.0.duty() == 0 && p.1.duty() == 0
                &&& (p.0.pin() as int, p.1.pin() as int) == self@.pins
            },
    {
        let mut driver = self;
        match driver.output(0) {
            Ok(()) => Ok((driver.channel_a, driver.channel_b)),
            Err(e) => Err(e),
        }
    }

    /// The duty cycles last written to `(channel_a, channel_b)`, or `None`
    /// after a failed write.
    pub fn duty_cycles(&self) -> (r: Option<DutyPair>)
        requires
            self.wf(),
        ensures
            match r {
                Some(p) => self@.duties == Some(p@),
                None => self@.duties is None,
            },
            r matches Some(p) ==> p.a <= FULL_SCALE && p.b <= FULL_SCALE && (p.a == 0 || p.b
                == 0),
    {
        self.duties
    }

    /// The fixed configuration of this actuator.
    pub fn config(&self) -> (r: ActuatorConfig)
        requires
            self.wf(),
        ensures
            r == self@.config,
            r.wf(),
    {
        self.config
    }
}

} // verus!
