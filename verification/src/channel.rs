//! The raw transport channel to the device.
//!
//! The physical bus is an external collaborator: it may acknowledge a
//! transfer, hand back data, fail at the transport level, or report that the
//! device has no fresh data. The channel here replays a script of such
//! replies, one reply per transaction, so that the layers above are verified
//! against every reply sequence the hardware could produce. It also keeps a
//! log of every register write it was asked to issue, in order.

use vstd::prelude::*;

use crate::vector::AxisTriple;

verus! {

/// One reply the bus can give to a transaction.
#[derive(Clone, Copy, Debug, PartialEq, Eq, Structural)]
pub enum ChannelEvent {
    /// Reply to an identity read: the device's identity byte.
    Identity(u8),
    /// A register write was acknowledged.
    WriteAck,
    /// A successful axis read: the three raw axis values.
    Sample(i16, i16, i16),
    /// Transport-level failure: the transfer itself was lost.
    Nack,
    /// The device answered, but its data was not ready.
    Stale,
}

/// How a transaction can fail, as the channel reports it.
#[derive(Clone, Copy, Debug, PartialEq, Eq, Structural)]
pub enum ChannelFault {
    /// The transfer was lost at the bus level.
    Transport,
    /// The device answered with a not-ready or invalid condition.
    Stale,
}

/// One register write issued over the channel.
#[derive(Clone, Copy, Debug, PartialEq, Eq, Structural)]
pub struct RegisterWrite {
    pub register: u8,
    pub value: u8,
}

/// The transport channel: a script of pending replies, consumed front
/// first, and the log of register writes issued so far.
pub struct RawChannel {
    script: Vec<ChannelEvent>,
    issued: Vec<RegisterWrite>,
}

/// The script left after one transaction: the front reply is consumed; an
/// exhausted script stays exhausted.
pub open spec fn after_reply(replies: Seq<ChannelEvent>) -> Seq<ChannelEvent> {
    if replies.len() == 0 {
        replies
    } else {
        replies.skip(1)
    }
}

/// What an identity read yields for a given pending script. An exhausted
/// script or a reply of the wrong shape is a lost transfer; a `Stale` reply
/// is the device answering without valid data.
pub open spec fn identity_outcome(replies: Seq<ChannelEvent>) -> Result<u8, ChannelFault> {
    if replies.len() == 0 {
        Err(ChannelFault::Transport)
    } else {
        match replies[0] {
            ChannelEvent::Identity(byte) => Ok(byte),
            ChannelEvent::Stale => Err(ChannelFault::Stale),
            _ => Err(ChannelFault::Transport),
        }
    }
}

/// What a register write yields for a given pending script.
pub open spec fn write_outcome(replies: Seq<ChannelEvent>) -> Result<(), ChannelFault> {
    if replies.len() == 0 {
        Err(ChannelFault::Transport)
    } else {
        match replies[0] {
            ChannelEvent::WriteAck => Ok(()),
            ChannelEvent::Stale => Err(ChannelFault::Stale),
            _ => Err(ChannelFault::Transport),
        }
    }
}

/// What an axis read yields for a given pending script.
pub open spec fn axes_outcome(replies: Seq<ChannelEvent>) -> Result<AxisTriple, ChannelFault> {
    if replies.len() == 0 {
        Err(ChannelFault::Transport)
    } else {
        match replies[0] {
            ChannelEvent::Sample(x, y, z) => Ok(AxisTriple { x, y, z }),
            ChannelEvent::Stale => Err(ChannelFault::Stale),
            _ => Err(ChannelFault::Transport),
        }
    }
}

impl RawChannel {
    /// The replies still pending, front first.
    pub closed spec fn replies(self) -> Seq<ChannelEvent> {
        self.script@
    }

    /// Every register write issued so far, oldest first.
    pub closed spec fn write_log(self) -> Seq<RegisterWrite> {
        self.issued@
    }

    /// A channel that will replay `script` and has issued nothing yet.
    pub fn new(script: Vec<ChannelEvent>) -> (channel: RawChannel)
        ensures
            channel.replies() == script@,
            channel.write_log() == Seq::<RegisterWrite>::empty(),
    {
        RawChannel { script, issued: Vec::new() }
    }

    /// The writes issued so far, for inspection.
    pub fn issued_writes(&self) -> (writes: &Vec<RegisterWrite>)
        ensures
            writes@ == self.write_log(),
    {
        &self.issued
    }

    /// Read the device's identity register. Consumes one reply.
    pub fn read_identity(&mut self) -> (r: Result<u8, ChannelFault>)
        ensures
            r == identity_outcome(old(self).replies()),
            final(self).replies() == after_reply(old(self).replies()),
            final(self).write_log() == old(self).write_log(),
    {
        if self.script.len() == 0 {
            Err(ChannelFault::Transport)
        } else {
            let reply = self.script.remove(0);
            match reply {
                ChannelEvent::Identity(byte) => Ok(byte),
                ChannelEvent::Stale => Err(ChannelFault::Stale),
                _ => Err(ChannelFault::Transport),
            }
        }
    }

    /// Issue a register write. The write is logged whether or not the bus
    /// acknowledges it: it was put on the wire either way. Consumes one
    /// reply.
    pub fn write_register(&mut self, register: u8, value: u8) -> (r: Result<(), ChannelFault>)
        ensures
            r == write_outcome(old(self).replies()),
            final(self).replies() == after_reply(old(self).replies()),
            final(self).write_log() == old(self).write_log().push(
                RegisterWrite { register, value },
            ),
    {
        self.issued.push(RegisterWrite { register, value });
        if self.script.len() == 0 {
            Err(ChannelFault::Transport)
        } else {
            let reply = self.script.remove(0);
            match reply {
                ChannelEvent::WriteAck => Ok(()),
                ChannelEvent::Stale => Err(ChannelFault::Stale),
                _ => Err(ChannelFault::Transport),
            }
        }
    }

    /// Read the three axis registers. Consumes one reply.
    pub fn read_axes(&mut self) -> (r: Result<AxisTriple, ChannelFault>)
        ensures
            r == axes_outcome(old(self).replies()),
            final(self).replies() == after_reply(old(self).replies()),
            final(self).write_log() == old(self).write_log(),
    {
        if self.script.len() == 0 {
            Err(ChannelFault::Transport)
        } else {
            let reply = self.script.remove(0);
            match reply {
                ChannelEvent::Sample(x, y, z) => Ok(AxisTriple { x, y, z }),
                ChannelEvent::Stale => Err(ChannelFault::Stale),
                _ => Err(ChannelFault::Transport),
            }
        }
    }
}

} // verus!
