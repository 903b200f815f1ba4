//! The calibrated sensor: owns the transport channel, holds the mutable
//! device configuration, and converts raw readings into physical units.
//!
//! Configuration updates follow a no-partial-update policy: a setter issues
//! the device write first and changes the stored field only when the bus
//! acknowledged the write, so a failed update leaves the stored value and
//! the device in their prior, mutually consistent state. No read-back
//! verification is performed after a write: on failure the device
//! configuration is assumed unchanged, which the transport cannot itself
//! guarantee.

use vstd::prelude::*;

use crate::channel::ChannelEvent;
use crate::channel::ChannelFault;
use crate::channel::RawChannel;
use crate::channel::RegisterWrite;
use crate::channel::after_reply;
use crate::channel::axes_outcome;
use crate::channel::identity_outcome;
use crate::channel::write_outcome;
use crate::config::CTRL_REG1_A;
use crate::config::CTRL_REG4_A;
use crate::config::OutputDataRate;
use crate::config::SensitivityRange;
use crate::config::odr_bits;
use crate::config::odr_bits_spec;
use crate::config::range_bits;
use crate::config::range_bits_spec;
use crate::config::range_in_g;
use crate::config::range_in_g_spec;
use crate::config::rate_in_hz;
use crate::config::rate_in_hz_spec;
use crate::vector::AxisTriple;
use crate::vector::NormalizedVector;
use crate::vector::bounded;
use crate::vector::convert;
use crate::vector::scale_component_spec;

verus! {

/// The identity byte the sensor reports from its identity register; the
/// start-up handshake accepts the device only on an exact match.
pub const DEVICE_IDENTITY: u8 = 0x33;

/// How a sensor operation can fail.
#[derive(Clone, Copy, Debug, PartialEq, Eq, Structural)]
pub enum SensorError {
    /// Transport-level failure: the transfer was lost. Transient; worth
    /// retrying on the next iteration.
    BusFailure,
    /// The device answered but reported a not-ready or invalid condition.
    DeviceFault,
    /// The start-up identity handshake did not match the expected device.
    /// Fatal: there is no sensor to drive.
    InitializationFailed,
}

/// The register write that installs `rate`.
pub open spec fn odr_write(rate: OutputDataRate) -> RegisterWrite {
    RegisterWrite { register: CTRL_REG1_A, value: odr_bits_spec(rate) }
}

/// The register write that installs `range`.
pub open spec fn sensitivity_write(range: SensitivityRange) -> RegisterWrite {
    RegisterWrite { register: CTRL_REG4_A, value: range_bits_spec(range) }
}

/// A raw read's result as the sensor reports it: a transport fault becomes
/// `BusFailure`, a device-side not-ready condition becomes `DeviceFault`.
pub open spec fn raw_outcome(replies: Seq<ChannelEvent>) -> Result<AxisTriple, SensorError> {
    match axes_outcome(replies) {
        Ok(triple) => Ok(triple),
        Err(ChannelFault::Transport) => Err(SensorError::BusFailure),
        Err(ChannelFault::Stale) => Err(SensorError::DeviceFault),
    }
}

/// The accelerometer behind its transport channel, with the configuration
/// the device currently holds.
pub struct Compass {
    channel: RawChannel,
    accel_odr: OutputDataRate,
    accel_sensitivity: SensitivityRange,
}

impl Compass {
    /// The configured output data rate.
    pub closed spec fn odr(self) -> OutputDataRate {
        self.accel_odr
    }

    /// The configured sensitivity range.
    pub closed spec fn range(self) -> SensitivityRange {
        self.accel_sensitivity
    }

    /// The replies the owned channel still has pending.
    pub closed spec fn replies(self) -> Seq<ChannelEvent> {
        self.channel.replies()
    }

    /// The register writes the owned channel has issued.
    pub closed spec fn write_log(self) -> Seq<RegisterWrite> {
        self.channel.write_log()
    }

    /// Perform the start-up handshake over `channel`: read the identity
    /// register and accept the device only if it reports
    /// `DEVICE_IDENTITY`. On success the sensor starts from the documented
    /// defaults, 400 Hz and the 2 g range; any transport failure or
    /// identity mismatch is `InitializationFailed`.
    pub fn new(channel: RawChannel) -> (r: Result<Compass, SensorError>)
        ensures
            r is Ok <==> identity_outcome(channel.replies()) == Ok::<u8, ChannelFault>(
                DEVICE_IDENTITY,
            ),
            r matches Ok(compass) ==> {
                &&& compass.odr() == OutputDataRate::Hz400
                &&& compass.range() == SensitivityRange::G2
                &&& compass.replies() == after_reply(channel.replies())
                &&& compass.write_log() == channel.write_log()
            },
            r matches Err(e) ==> e == SensorError::InitializationFailed,
    {
        let mut channel = channel;
        match channel.read_identity() {
            Ok(byte) => {
                if byte == DEVICE_IDENTITY {
                    Ok(
                        Compass {
                            channel,
                            accel_odr: OutputDataRate::Hz400,
                            accel_sensitivity: SensitivityRange::G2,
                        },
                    )
                } else {
                    Err(SensorError::InitializationFailed)
                }
            },
            Err(_) => Err(SensorError::InitializationFailed),
        }
    }

    /// Install a new output data rate. The device write is issued
    /// unconditionally; the stored rate changes only when the bus
    /// acknowledged the write, and is retained unchanged on failure.
    pub fn set_accel_odr(&mut self, rate: OutputDataRate) -> (r: Result<(), SensorError>)
        ensures
            final(self).write_log() == old(self).write_log().push(odr_write(rate)),
            final(self).replies() == after_reply(old(self).replies()),
            final(self).range() == old(self).range(),
            r is Ok <==> write_outcome(old(self).replies()) is Ok,
            r is Ok ==> final(self).odr() == rate,
            r matches Err(e) ==> e == SensorError::BusFailure && final(self).odr() == old(
                self,
            ).odr(),
    {
        let bits = odr_bits(rate);
        match self.channel.write_register(CTRL_REG1_A, bits) {
            Ok(()) => {
                self.accel_odr = rate;
                Ok(())
            },
            Err(_) => Err(SensorError::BusFailure),
        }
    }

    /// Install a new sensitivity range. Same policy as `set_accel_odr`:
    /// the write is always issued — there is no skip-if-unchanged
    /// shortcut — and the stored range changes only on acknowledgement.
    pub fn set_accel_sensitivity(&mut self, range: SensitivityRange) -> (r: Result<
        (),
        SensorError,
    >)
        ensures
            final(self).write_log() == old(self).write_log().push(sensitivity_write(range)),
            final(self).replies() == after_reply(old(self).replies()),
            final(self).odr() == old(self).odr(),
            r is Ok <==> write_outcome(old(self).replies()) is Ok,
            r is Ok ==> final(self).range() == range,
            r matches Err(e) ==> e == SensorError::BusFailure && final(self).range() == old(
                self,
            ).range(),
    {
        let bits = range_bits(range);
        match self.channel.write_register(CTRL_REG4_A, bits) {
            Ok(()) => {
                self.accel_sensitivity = range;
                Ok(())
            },
            Err(_) => Err(SensorError::BusFailure),
        }
    }

    /// The register writes issued to the device so far, for inspection.
    pub fn issued_writes(&self) -> (writes: &Vec<RegisterWrite>)
        ensures
            writes@ == self.write_log(),
    {
        self.channel.issued_writes()
    }

    /// The configured full-scale bound in g. Pure table lookup; total, and
    /// never touches the bus.
    pub fn accel_range(&self) -> (g: u32)
        ensures
            g == range_in_g_spec(self.range()),
    {
        range_in_g(self.accel_sensitivity)
    }

    /// The configured sampling frequency in hertz. Pure table lookup;
    /// total, and never touches the bus.
    pub fn sample_rate(&self) -> (hz: u32)
        ensures
            hz == rate_in_hz_spec(self.odr()),
    {
        rate_in_hz(self.accel_odr)
    }

    /// Read one raw triple from the device. Succeeds exactly when the bus
    /// hands back a sample; a lost transfer is `BusFailure`, a device-side
    /// not-ready condition is `DeviceFault`. Leaves the configuration and
    /// the write log untouched.
    pub fn accel_raw(&mut self) -> (r: Result<AxisTriple, SensorError>)
        ensures
            r == raw_outcome(old(self).replies()),
            final(self).replies() == after_reply(old(self).replies()),
            final(self).write_log() == old(self).write_log(),
            final(self).odr() == old(self).odr(),
            final(self).range() == old(self).range(),
    {
        match self.channel.read_axes() {
            Ok(triple) => Ok(triple),
            Err(ChannelFault::Transport) => Err(SensorError::BusFailure),
            Err(ChannelFault::Stale) => Err(SensorError::DeviceFault),
        }
    }

    /// Read one sample and convert it to physical units under the
    /// configured range. Succeeds exactly when the raw read succeeds, with
    /// the same error mapping, and converts exactly as `convert` does.
    pub fn accel_norm(&mut self) -> (r: Result<NormalizedVector, SensorError>)
        ensures
            final(self).replies() == after_reply(old(self).replies()),
            final(self).write_log() == old(self).write_log(),
            final(self).odr() == old(self).odr(),
            final(self).range() == old(self).range(),
            r is Ok <==> raw_outcome(old(self).replies()) is Ok,
            r matches Ok(v) ==> {
                &&& raw_outcome(old(self).replies()) matches Ok(triple) && v.x
                    == scale_component_spec(triple.x as int, old(self).range()) && v.y
                    == scale_component_spec(triple.y as int, old(self).range()) && v.z
                    == scale_component_spec(triple.z as int, old(self).range())
                &&& bounded(v)
            },
            r matches Err(e) ==> raw_outcome(old(self).replies()) == Err::<
                AxisTriple,
                SensorError,
            >(e),
    {
        let range = self.accel_sensitivity;
        match self.accel_raw() {
            Ok(triple) => Ok(convert(&triple, range)),
            Err(e) => Err(e),
        }
    }
}

/// Law: setting the sensitivity twice to the same value is idempotent in
/// the stored configuration and transparent on the wire: both calls append
/// a device write, the two appended writes are identical, and each
/// acknowledged call stores the same range. There is no skip-if-unchanged
/// shortcut.
pub proof fn lemma_set_sensitivity_idempotent(log: Seq<RegisterWrite>, range: SensitivityRange)
    ensures
        ({
            let once = log.push(sensitivity_write(range));
            let twice = once.push(sensitivity_write(range));
            &&& twice.len() == log.len() + 2
            &&& twice[log.len() as int] == twice[log.len() as int + 1]
            &&& twice[log.len() as int] == sensitivity_write(range)
        }),
{
}

} // verus!
