//! The Programmable Interval Timer (8253/8254 chip): its command byte and
//! the divisor of its frequency.
//!
//! The frequency and the period are floating point numbers, which the
//! caller computes; the library builds what the chip is sent. See
//! https://wiki.osdev.org/Programmable_Interval_Timer.
use crate::bits::{bits_of_u32, get_bits_u32, set_bits_u8, with_bits_u8};
use crate::io::{Pio, PortWrite};
use vstd::prelude::*;

verus! {

/// Channel 0 data port (read/write).
pub const CHANEL0_PORT: u16 = 0x40;
/// Mode/Command register (write only, a read is ignored).
pub const COMMAND_PORT: u16 = 0x43;

/// A channel of the chip.
#[derive(Debug, Copy, Clone, PartialEq, Eq, Structural)]
pub enum Channel {
    Channel0,
    Channel1,
    Channel2,
}

/// How the counter is accessed.
#[derive(Debug, Copy, Clone, PartialEq, Eq, Structural)]
pub enum AccessMode {
    LatchCount,
    LobyteOnly,
    HibyteOnly,
    LobyteHibyte,
}

/// The operating mode of a channel.
#[derive(Debug, Copy, Clone, PartialEq, Eq, Structural)]
pub enum OperatingMode {
    InterruptOnTerminal,
    OneShot,
    RateGenerator,
    SquareWaveGenerator,
    SoftwareTriggeredStrobe,
    HardwareTriggeredStrobe,
}

/// The errors of the timer.
#[derive(Debug, Copy, Clone, PartialEq, Eq, Structural)]
pub enum PitError {
    PicNotInitialized,
    BadFrequency,
}

/// The number of a channel.
pub open spec fn channel_number(c: Channel) -> u8 {
    match c {
        Channel::Channel0 => 0,
        Channel::Channel1 => 1,
        Channel::Channel2 => 2,
    }
}

/// The number of an operating mode.
pub open spec fn mode_number(m: OperatingMode) -> u8 {
    match m {
        OperatingMode::InterruptOnTerminal => 0,
        OperatingMode::OneShot => 1,
        OperatingMode::RateGenerator => 2,
        OperatingMode::SquareWaveGenerator => 3,
        OperatingMode::SoftwareTriggeredStrobe => 4,
        OperatingMode::HardwareTriggeredStrobe => 5,
    }
}

impl Channel {
    /// The number of the channel.
    pub fn number(self) -> (r: u8)
        ensures
            r == channel_number(self),
    {
        match self {
            Channel::Channel0 => 0,
            Channel::Channel1 => 1,
            Channel::Channel2 => 2,
        }
    }
}

impl OperatingMode {
    /// The number of the operating mode.
    pub fn number(self) -> (r: u8)
        ensures
            r == mode_number(self),
    {
        match self {
            OperatingMode::InterruptOnTerminal => 0,
            OperatingMode::OneShot => 1,
            OperatingMode::RateGenerator => 2,
            OperatingMode::SquareWaveGenerator => 3,
            OperatingMode::SoftwareTriggeredStrobe => 4,
            OperatingMode::HardwareTriggeredStrobe => 5,
        }
    }
}

/// The command that configures channel `c` in mode `m`, its counter
/// written low byte then high byte: the mode in bits 1 to 3, the access
/// mode (3) in bits 4 and 5, the channel in bits 6 and 7, binary counting.
pub open spec fn command_byte(c: Channel, m: OperatingMode) -> u8 {
    with_bits_u8(with_bits_u8(with_bits_u8(0, 1, 4, mode_number(m)), 4, 6, 3), 6, 8, channel_number(c))
}

/// The divisor of the base frequency the chip is given for `divisor`: at
/// most 65535 and at least 1.
pub open spec fn clamped_divisor(divisor: u32) -> u32 {
    if divisor > 0xffff {
        0xffff
    } else if divisor == 0 {
        1
    } else {
        divisor
    }
}

/// A channel of the timer, and the operating mode it was configured in.
pub struct Pit {
    command: Pio<u8>,
    data: Pio<u8>,
    channel: Channel,
    operating_mode: Option<OperatingMode>,
}

impl Pit {
    /// The command port.
    pub closed spec fn command_port(self) -> u16 {
        self.command.port_view()
    }

    /// The data port of the channel.
    pub closed spec fn data_port(self) -> u16 {
        self.data.port_view()
    }

    /// The channel.
    pub closed spec fn channel_view(self) -> Channel {
        self.channel
    }

    /// The operating mode configured, if any.
    pub closed spec fn mode_view(self) -> Option<OperatingMode> {
        self.operating_mode
    }

    /// The operating mode configured, if any.
    pub fn operating_mode(&self) -> (r: Option<OperatingMode>)
        ensures
            r == self.mode_view(),
    {
        self.operating_mode
    }

    /// The timer of `channel`, not configured: the command port, and the
    /// data port of the channel (0x40 plus its number).
    pub fn new(channel: Channel) -> (r: Pit)
        ensures
            r.channel_view() == channel,
            r.mode_view() is None,
            r.command_port() == COMMAND_PORT,
            r.data_port() == CHANEL0_PORT + channel_number(channel),
    {
        Pit {
            command: Pio::new(COMMAND_PORT),
            channel,
            data: Pio::new(CHANEL0_PORT + channel.number() as u16),
            operating_mode: None,
        }
    }

    /// Configures the channel in `operating_mode`: records the mode and
    /// returns the command to send.
    pub fn configure(&mut self, operating_mode: OperatingMode) -> (w: PortWrite)
        ensures
            final(self).mode_view() == Some(operating_mode),
            final(self).channel_view() == old(self).channel_view(),
            final(self).command_port() == old(self).command_port(),
            final(self).data_port() == old(self).data_port(),
            w == (PortWrite {
                port: old(self).command_port(),
                value: command_byte(old(self).channel_view(), operating_mode),
            }),
    {
        let mode = operating_mode.number();
        let channel = self.channel.number();
        proof {
            crate::bits::lemma_u8_fits(mode);
            crate::bits::lemma_u8_fits(3);
            crate::bits::lemma_u8_fits(channel);
        }
        let mut cmd: u8 = 0;
        cmd = set_bits_u8(cmd, 1, 4, mode);
        cmd = set_bits_u8(cmd, 4, 6, 3);
        cmd = set_bits_u8(cmd, 6, 8, channel);
        self.operating_mode = Some(operating_mode);
        PortWrite { port: self.command.port(), value: cmd }
    }

    /// The writes that set the divisor of the base frequency (1193182 Hz)
    /// to `divisor`, once brought between 1 and 65535: its low byte then
    /// its high byte, to the data port of the channel.
    pub fn divisor_writes(&self, divisor: u32) -> (w: Vec<PortWrite>)
        ensures
            w@ == seq![
                PortWrite {
                    port: self.data_port(),
                    value: bits_of_u32(clamped_divisor(divisor), 0, 8) as u8,
                },
                PortWrite {
                    port: self.data_port(),
                    value: bits_of_u32(clamped_divisor(divisor), 8, 16) as u8,
                },
            ],
    {
        let d = if divisor > 0xffff {
            0xffff
        } else if divisor == 0 {
            1
        } else {
            divisor
        };
        let mut w: Vec<PortWrite> = Vec::new();
        w.push(PortWrite { port: self.data.port(), value: get_bits_u32(d, 0, 8) as u8 });
        w.push(PortWrite { port: self.data.port(), value: get_bits_u32(d, 8, 16) as u8 });
        proof {
            assert(w@ =~= seq![
                PortWrite { port: self.data_port(), value: bits_of_u32(clamped_divisor(divisor), 0, 8) as u8 },
                PortWrite { port: self.data_port(), value: bits_of_u32(clamped_divisor(divisor), 8, 16) as u8 },
            ]);
        }
        w
    }
}

/// The two bytes of the divisor sent put back together give the divisor,
/// which lies between 1 and 65535.
pub proof fn lemma_divisor_bytes(divisor: u32)
    ensures
        1 <= clamped_divisor(divisor) <= 0xffff,
        bits_of_u32(clamped_divisor(divisor), 0, 8) + bits_of_u32(clamped_divisor(divisor), 8, 16)
            * 256 == clamped_divisor(divisor),
{
    crate::bits::lemma_u32_low_bytes(clamped_divisor(divisor));
}

} // verus!
