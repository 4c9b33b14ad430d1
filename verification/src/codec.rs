//! The settings that the codec takes and reports, and how each is written as
//! the integer that libopus exchanges.

use vstd::prelude::*;
use crate::defines::{
    OPUS_APPLICATION_AUDIO, OPUS_APPLICATION_RESTRICTED_LOWDELAY, OPUS_APPLICATION_VOIP, OPUS_AUTO,
    OPUS_BANDWIDTH_FULLBAND, OPUS_BANDWIDTH_MEDIUMBAND, OPUS_BANDWIDTH_NARROWBAND,
    OPUS_BANDWIDTH_SUPERWIDEBAND, OPUS_BANDWIDTH_WIDEBAND, OPUS_BITRATE_MAX,
};
use crate::error::{bad_arg, view_result, Error, ErrorCode, ErrorView, Result};

verus! {

/// The possible applications for the codec.
#[derive(Debug, Clone, Copy, PartialEq, Eq, Structural, Hash)]
pub enum Application {
    /// Best for most VoIP/videoconference applications where listening quality
    /// and intelligibility matter most.
    Voip,
    /// Best for broadcast/high-fidelity application where the decoded audio
    /// should be as close as possible to the input.
    Audio,
    /// Only use when lowest-achievable latency is what matters most.
    LowDelay,
}

impl Application {
    /// The libopus number of the application.
    pub open spec fn value(self) -> i32 {
        match self {
            Application::Voip => OPUS_APPLICATION_VOIP,
            Application::Audio => OPUS_APPLICATION_AUDIO,
            Application::LowDelay => OPUS_APPLICATION_RESTRICTED_LOWDELAY,
        }
    }

    /// The libopus number of the application.
    pub fn raw(self) -> (r: i32)
        ensures
            r == self.value(),
    {
        match self {
            Application::Voip => OPUS_APPLICATION_VOIP,
            Application::Audio => OPUS_APPLICATION_AUDIO,
            Application::LowDelay => OPUS_APPLICATION_RESTRICTED_LOWDELAY,
        }
    }
}

/// The available channel setings.
#[derive(Debug, Clone, Copy, PartialEq, Eq, Structural, Hash)]
pub enum Channels {
    /// One channel.
    Mono,
    /// Two channels, left and right.
    Stereo,
}

impl Channels {
    /// The number of channels.
    pub open spec fn count(self) -> i32 {
        match self {
            Channels::Mono => 1,
            Channels::Stereo => 2,
        }
    }

    /// The channel setting with `count` channels, where there is one.
    pub open spec fn of(count: int) -> Option<Channels> {
        if count == 1 {
            Some(Channels::Mono)
        } else if count == 2 {
            Some(Channels::Stereo)
        } else {
            None
        }
    }

    /// The number of channels.
    pub fn raw(self) -> (r: i32)
        ensures
            r == self.count(),
    {
        match self {
            Channels::Mono => 1,
            Channels::Stereo => 2,
        }
    }
}

/// The available bandwidth level settings.
#[derive(Debug, Clone, Copy, PartialEq, Eq, Structural, Hash)]
pub enum Bandwidth {
    /// Auto/default setting.
    Auto,
    /// 4kHz bandpass.
    Narrowband,
    /// 6kHz bandpass.
    Mediumband,
    /// 8kHz bandpass.
    Wideband,
    /// 12kHz bandpass.
    Superwideband,
    /// 20kHz bandpass.
    Fullband,
}

impl Bandwidth {
    /// The libopus number of the bandwidth.
    pub open spec fn value(self) -> i32 {
        match self {
            Bandwidth::Auto => OPUS_AUTO,
            Bandwidth::Narrowband => OPUS_BANDWIDTH_NARROWBAND,
            Bandwidth::Mediumband => OPUS_BANDWIDTH_MEDIUMBAND,
            Bandwidth::Wideband => OPUS_BANDWIDTH_WIDEBAND,
            Bandwidth::Superwideband => OPUS_BANDWIDTH_SUPERWIDEBAND,
            Bandwidth::Fullband => OPUS_BANDWIDTH_FULLBAND,
        }
    }

    /// The bandwidth that a libopus number stands for, where there is one.
    pub open spec fn of(value: int) -> Option<Bandwidth> {
        if value == OPUS_AUTO {
            Some(Bandwidth::Auto)
        } else if value == OPUS_BANDWIDTH_NARROWBAND {
            Some(Bandwidth::Narrowband)
        } else if value == OPUS_BANDWIDTH_MEDIUMBAND {
            Some(Bandwidth::Mediumband)
        } else if value == OPUS_BANDWIDTH_WIDEBAND {
            Some(Bandwidth::Wideband)
        } else if value == OPUS_BANDWIDTH_SUPERWIDEBAND {
            Some(Bandwidth::Superwideband)
        } else if value == OPUS_BANDWIDTH_FULLBAND {
            Some(Bandwidth::Fullband)
        } else {
            None
        }
    }

    /// The bandwidth that a number reported by `what` stands for; any number
    /// that stands for none is reported as an invalid argument of `what`.
    pub open spec fn decoded(value: int, what: Seq<char>) -> std::result::Result<Bandwidth, ErrorView> {
        match Bandwidth::of(value) {
            Some(bandwidth) => Ok(bandwidth),
            None => Err(bad_arg(what)),
        }
    }

    /// The libopus number of the bandwidth.
    pub fn raw(self) -> (r: i32)
        ensures
            r == self.value(),
    {
        match self {
            Bandwidth::Auto => OPUS_AUTO,
            Bandwidth::Narrowband => OPUS_BANDWIDTH_NARROWBAND,
            Bandwidth::Mediumband => OPUS_BANDWIDTH_MEDIUMBAND,
            Bandwidth::Wideband => OPUS_BANDWIDTH_WIDEBAND,
            Bandwidth::Superwideband => OPUS_BANDWIDTH_SUPERWIDEBAND,
            Bandwidth::Fullband => OPUS_BANDWIDTH_FULLBAND,
        }
    }

    /// The bandwidth that a libopus number stands for, where there is one.
    pub fn from_int(value: i32) -> (r: Option<Bandwidth>)
        ensures
            r == Bandwidth::of(value as int),
    {
        match value {
            OPUS_AUTO => Some(Bandwidth::Auto),
            OPUS_BANDWIDTH_NARROWBAND => Some(Bandwidth::Narrowband),
            OPUS_BANDWIDTH_MEDIUMBAND => Some(Bandwidth::Mediumband),
            OPUS_BANDWIDTH_WIDEBAND => Some(Bandwidth::Wideband),
            OPUS_BANDWIDTH_SUPERWIDEBAND => Some(Bandwidth::Superwideband),
            OPUS_BANDWIDTH_FULLBAND => Some(Bandwidth::Fullband),
            _ => None,
        }
    }

    /// The bandwidth that a number reported by `what` stands for.
    pub fn decode(value: i32, what: &'static str) -> (r: Result<Bandwidth>)
        ensures
            view_result(r) == Bandwidth::decoded(value as int, what@),
    {
        match Bandwidth::from_int(value) {
            Some(bandwidth) => Ok(bandwidth),
            None => Err(Error::bad_arg(what)),
        }
    }
}

/// Possible bitrates.
#[derive(Debug, Copy, Clone, PartialEq, Eq, Structural, Hash)]
pub enum Bitrate {
    /// Explicit bitrate choice (in bits/second).
    Bits(i32),
    /// Maximum bitrate allowed (up to maximum number of bytes for the packet).
    Max,
    /// Default bitrate decided by the encoder (not recommended).
    Auto,
}

impl Bitrate {
    /// The number that libopus takes for the bitrate.
    pub open spec fn value(self) -> i32 {
        match self {
            Bitrate::Auto => OPUS_AUTO,
            Bitrate::Max => OPUS_BITRATE_MAX,
            Bitrate::Bits(raw) => raw,
        }
    }

    /// The bitrate that a number reported by libopus stands for.
    pub open spec fn of(raw: i32) -> Bitrate {
        if raw == OPUS_AUTO {
            Bitrate::Auto
        } else if raw == OPUS_BITRATE_MAX {
            Bitrate::Max
        } else {
            Bitrate::Bits(raw)
        }
    }

    /// The bitrate that a number reported by libopus stands for.
    pub fn from_raw(raw: i32) -> (r: Result<Bitrate>)
        ensures
            r == Ok::<Bitrate, Error>(Bitrate::of(raw)),
            raw != -1000 && raw != -1 ==> r == Ok::<Bitrate, Error>(Bitrate::Bits(raw)),
    {
        Ok(match raw {
            OPUS_AUTO => Bitrate::Auto,
            OPUS_BITRATE_MAX => Bitrate::Max,
            _ => Bitrate::Bits(raw),
        })
    }

    /// The number that libopus takes for the bitrate.
    pub fn raw(self) -> (r: i32)
        ensures
            r == self.value(),
            self matches Bitrate::Bits(n) ==> r == n,
    {
        match self {
            Bitrate::Auto => OPUS_AUTO,
            Bitrate::Max => OPUS_BITRATE_MAX,
            Bitrate::Bits(raw) => raw,
        }
    }
}

/// The number of samples per channel in `len` interleaved samples.
pub open spec fn per_channel(len: int, channels: Channels) -> i32 {
    (len / channels.count() as int) as i32
}

/// The number that libopus takes for a switch that is on or off.
pub open spec fn switch(on: bool) -> i32 {
    if on {
        1
    } else {
        0
    }
}

/// The number that libopus takes for a forced channel configuration: the
/// channel count, or "auto" for none.
pub open spec fn forced_value(value: Option<Channels>) -> i32 {
    match value {
        None => OPUS_AUTO,
        Some(channels) => channels.count(),
    }
}

/// The forced channel configuration that a number reported by `what` stands
/// for; any other number is reported as an invalid argument of `what`.
pub open spec fn forced_channels(value: i32, what: Seq<char>) -> std::result::Result<Option<Channels>, ErrorView> {
    if value == OPUS_AUTO {
        Ok(None)
    } else if value == 1 {
        Ok(Some(Channels::Mono))
    } else if value == 2 {
        Ok(Some(Channels::Stereo))
    } else {
        Err(bad_arg(what))
    }
}

/// Every bandwidth reads back as itself from its libopus number.
pub proof fn bandwidth_round_trip(bandwidth: Bandwidth)
    ensures
        Bandwidth::of(bandwidth.value() as int) == Some(bandwidth),
{
}

/// A libopus number that stands for a bandwidth is that bandwidth's number.
pub proof fn bandwidth_number_round_trip(value: int)
    ensures
        Bandwidth::of(value) matches Some(bandwidth) ==> bandwidth.value() == value,
{
}

/// Every channel setting reads back as itself from its channel count.
pub proof fn channels_round_trip(channels: Channels)
    ensures
        Channels::of(channels.count() as int) == Some(channels),
{
}

/// Every bitrate reads back as itself from the number that libopus takes,
/// except an explicit bitrate whose number is that of "auto" or "max".
pub proof fn bitrate_round_trip(bitrate: Bitrate)
    requires
        bitrate != Bitrate::Bits(OPUS_AUTO),
        bitrate != Bitrate::Bits(OPUS_BITRATE_MAX),
    ensures
        Bitrate::of(bitrate.value()) == bitrate,
{
}

/// Every number that libopus reports as a bitrate is the number of the
/// bitrate it is read as.
pub proof fn bitrate_number_round_trip(raw: i32)
    ensures
        Bitrate::of(raw).value() == raw,
{
}

/// A switch reads back as itself from the number that libopus takes for it.
pub proof fn switch_round_trip(on: bool)
    ensures
        (switch(on) != 0) == on,
{
}

/// A forced channel configuration reads back as itself from the number that
/// libopus takes for it.
pub proof fn forced_channels_round_trip(value: Option<Channels>, what: Seq<char>)
    ensures
        forced_channels(forced_value(value), what) == Ok::<Option<Channels>, ErrorView>(value),
{
}

/// A setting of one or two channels counts one or two channels: mono is one
/// channel, stereo two.
pub proof fn channels_count(channels: Channels)
    ensures
        channels.count() == (if channels == Channels::Mono { 1i32 } else { 2i32 }),
        1 <= channels.count() <= 2,
{
}

/// The samples per channel in `len` interleaved samples are the whole
/// number of times the channel count goes into `len`, whatever the length:
/// `per_channel(len, channels) * count <= len < (per_channel(len, channels) + 1) * count`.
pub proof fn per_channel_divides_length(len: int, channels: Channels)
    requires
        0 <= len <= i32::MAX,
    ensures
        0 <= per_channel(len, channels) <= len,
        per_channel(len, channels) * channels.count() <= len,
        len < (per_channel(len, channels) + 1) * channels.count(),
{
    let n = per_channel(len, channels) as int;
    let c = channels.count() as int;
    assert(n == len / c);
    assert(n * c <= len < (n + 1) * c) by (nonlinear_arith)
        requires
            n == len / c,
            1 <= c <= 2,
            0 <= len,
    ;
    assert(0 <= n <= len) by (nonlinear_arith)
        requires
            n == len / c,
            1 <= c <= 2,
            0 <= len,
    ;
}

/// An explicit bitrate is handed to libopus as its own number of bits per
/// second; "auto" and "max" as -1000 and -1.
pub proof fn bitrate_number(bitrate: Bitrate)
    ensures
        bitrate matches Bitrate::Bits(n) ==> bitrate.value() == n,
        bitrate == Bitrate::Auto ==> bitrate.value() == -1000,
        bitrate == Bitrate::Max ==> bitrate.value() == -1,
{
}

/// A number that libopus reports as a bitrate reads as "auto" for -1000, as
/// "max" for -1, and as that explicit number of bits per second otherwise.
pub proof fn bitrate_read_as_number(raw: i32)
    ensures
        raw == -1000 ==> Bitrate::of(raw) == Bitrate::Auto,
        raw == -1 ==> Bitrate::of(raw) == Bitrate::Max,
        raw != -1000 && raw != -1 ==> Bitrate::of(raw) == Bitrate::Bits(raw),
{
}

/// A switch is handed to libopus as 1 when on and 0 when off.
pub proof fn switch_number(on: bool)
    ensures
        switch(on) == (if on { 1i32 } else { 0i32 }),
{
}

/// A forced channel configuration is handed to libopus as its channel count,
/// or as -1000 ("auto") for none; a reported number reads as a forced
/// configuration only when it is -1000 or a channel count of one or two, and
/// then as the configuration with that many channels.
pub proof fn forced_channels_number(value: Option<Channels>, raw: i32, what: Seq<char>)
    ensures
        value matches Some(channels) ==> forced_value(value) == channels.count(),
        value is None ==> forced_value(value) == -1000,
        forced_channels(raw, what) is Ok <==> (raw == -1000 || raw == 1 || raw == 2),
        forced_channels(raw, what) matches Ok(Some(channels)) ==> channels.count() == raw,
        forced_channels(raw, what) matches Ok(None) ==> raw == -1000,
{
}

} // verus!
