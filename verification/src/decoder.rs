//! The decoder: the arguments of each call into a libopus decoder state and
//! the handling of its results.

use vstd::prelude::*;
use crate::codec::{per_channel, switch, Bandwidth, Channels};
use crate::defines::{
    OPUS_GET_BANDWIDTH_REQUEST, OPUS_GET_FINAL_RANGE_REQUEST, OPUS_GET_GAIN_REQUEST,
    OPUS_GET_LAST_PACKET_DURATION_REQUEST, OPUS_GET_PITCH_REQUEST, OPUS_GET_SAMPLE_RATE_REQUEST, OPUS_OK,
    OPUS_RESET_STATE, OPUS_SET_GAIN_REQUEST,
};
use crate::error::{
    check_count, check_done, counted, done, failure, len, reported, view_result, Error, ErrorView,
    Result,
};

verus! {

/// What the decoder hands to libopus for an input packet: the packet, or
/// nothing for an empty input, which stands for a lost packet.
pub open spec fn packet_data(input: &[u8]) -> Option<&[u8]> {
    if input@.len() == 0 {
        None
    } else {
        Some(input)
    }
}

/// Only an empty input stands for a lost packet: the decoder hands libopus
/// no packet exactly when the input is empty, and the input itself whenever
/// it holds at least one byte.
pub proof fn lost_packet_only_when_empty(input: &[u8])
    ensures
        packet_data(input) is None <==> input@.len() == 0,
        input@.len() > 0 ==> packet_data(input) == Some(input),
{
}

/// An Opus decoder with associated state.
///
/// `H` is the handle of the libopus decoder state; every call into libopus
/// is made by a closure that receives it.
#[derive(Debug)]
pub struct Decoder<H> {
    handle: H,
    channels: Channels,
}

impl<H> Decoder<H> {
    /// The handle of the libopus decoder state.
    pub closed spec fn handle(&self) -> &H {
        &self.handle
    }

    /// The channel setting that the decoder was created with.
    pub closed spec fn channels(&self) -> Channels {
        self.channels
    }

    /// Create and initialize a decoder.
    ///
    /// `create` is `opus_decoder_create`: it takes the sampling rate and the
    /// number of channels, and gives the error it reported and the new state,
    /// if there is one.
    pub fn new(sample_rate: u32, channels: Channels, create: impl FnOnce(i32, i32) -> (i32, Option<H>)) -> (r:
        Result<Decoder<H>>)
        requires
            create.requires((sample_rate as i32, channels.count())),
        ensures
            exists|reply: (i32, Option<H>)|
                #[trigger] create.ensures((sample_rate as i32, channels.count()), reply)
                && if reply.0 == OPUS_OK && reply.1 is Some {
                    r matches Ok(d) && *d.handle() == reply.1->0 && d.channels() == channels
                } else {
                    view_result(r) == Err::<Decoder<H>, ErrorView>(
                        failure("opus_decoder_create"@, reply.0 as int),
                    )
                },
    {
        let (error, handle) = create(sample_rate as i32, channels.raw());
        if error == OPUS_OK {
            if let Some(handle) = handle {
                return Ok(Decoder { handle, channels });
            }
        }
        Err(Error::from_code("opus_decoder_create", error))
    }

    /// Decode an Opus packet.
    ///
    /// To represent packet loss, pass an empty slice `&[]`.
    ///
    /// The return value is the number of samples *per channel* decoded from
    /// the packet.
    ///
    /// `decode` is `opus_decode`: it takes the state, the packet (`None` for a
    /// lost one), its length, the output buffer, the number of samples per
    /// channel that it holds, and 1 to decode forward error correction data
    /// or 0 not to.
    pub fn decode(
        &mut self,
        input: &[u8],
        output: &mut [i16],
        fec: bool,
        decode: impl FnOnce(&H, Option<&[u8]>, i32, &mut [i16], i32, i32) -> i32,
    ) -> (r: Result<usize>)
        requires
            input@.len() <= i32::MAX,
            old(output)@.len() <= i32::MAX,
            forall|h: &H, data: Option<&[u8]>, len: i32, pcm: &mut [i16], frame_size: i32, decode_fec: i32|
                decode.requires((h, data, len, pcm, frame_size, decode_fec)),
        ensures
            *final(self) == *old(self),
            exists|pcm: &mut [i16], code: i32|
                #[trigger] decode.ensures(
                    (
                        old(self).handle(),
                        packet_data(input),
                        input@.len() as i32,
                        pcm,
                        per_channel(old(output)@.len() as int, old(self).channels()),
                        switch(fec),
                    ),
                    code,
                ) && pcm@ == old(output)@ && final(output)@ == final(pcm)@ && view_result(r)
                    == counted("opus_decode"@, code),
    {
        let data = if input.len() == 0 {
            None
        } else {
            Some(input)
        };
        let data_len = len(input);
        let frame_size = len(output) / self.channels.raw();
        let decode_fec: i32 = if fec { 1 } else { 0 };
        proof {
            assert(old(self).handle() == &self.handle);
            assert(data == packet_data(input));
            assert(data_len == input@.len() as i32);
            assert(frame_size == per_channel(old(output)@.len() as int, old(self).channels()));
            assert(decode_fec == switch(fec));
        }
        let code = decode(&self.handle, data, data_len, output, frame_size, decode_fec);
        check_count("opus_decode", code)
    }

    /// Decode an Opus packet with floating point output.
    ///
    /// `S` is the type of the samples that `decode` (`opus_decode_float`)
    /// writes.
    ///
    /// To represent packet loss, pass an empty slice `&[]`.
    ///
    /// The return value is the number of samples *per channel* decoded from
    /// the packet.
    ///
    /// `decode` is `opus_decode_float`: it takes the state, the packet (`None` for a
    /// lost one), its length, the output buffer, the number of samples per
    /// channel that it holds, and 1 to decode forward error correction data
    /// or 0 not to.
    pub fn decode_float<S>(
        &mut self,
        input: &[u8],
        output: &mut [S],
        fec: bool,
        decode: impl FnOnce(&H, Option<&[u8]>, i32, &mut [S], i32, i32) -> i32,
    ) -> (r: Result<usize>)
        requires
            input@.len() <= i32::MAX,
            old(output)@.len() <= i32::MAX,
            forall|h: &H, data: Option<&[u8]>, len: i32, pcm: &mut [S], frame_size: i32, decode_fec: i32|
                decode.requires((h, data, len, pcm, frame_size, decode_fec)),
        ensures
            *final(self) == *old(self),
            exists|pcm: &mut [S], code: i32|
                #[trigger] decode.ensures(
                    (
                        old(self).handle(),
                        packet_data(input),
                        input@.len() as i32,
                        pcm,
                        per_channel(old(output)@.len() as int, old(self).channels()),
                        switch(fec),
                    ),
                    code,
                ) && pcm@ == old(output)@ && final(output)@ == final(pcm)@ && view_result(r)
                    == counted("opus_decode_float"@, code),
    {
        let data = if input.len() == 0 {
            None
        } else {
            Some(input)
        };
        let data_len = len(input);
        let frame_size = len(output) / self.channels.raw();
        let decode_fec: i32 = if fec { 1 } else { 0 };
        proof {
            assert(old(self).handle() == &self.handle);
            assert(data == packet_data(input));
            assert(data_len == input@.len() as i32);
            assert(frame_size == per_channel(old(output)@.len() as int, old(self).channels()));
            assert(decode_fec == switch(fec));
        }
        let code = decode(&self.handle, data, data_len, output, frame_size, decode_fec);
        check_count("opus_decode_float", code)
    }

    /// Get the number of samples *per channel* of an Opus packet.
    ///
    /// `call` is `opus_decoder_get_nb_samples`: it takes the state, the
    /// packet and its length.
    pub fn get_nb_samples(&self, packet: &[u8], call: impl FnOnce(&H, &[u8], i32) -> i32) -> (r: Result<usize>)
        requires
            call.requires((self.handle(), packet, packet@.len() as i32)),
        ensures
            exists|code: i32|
                #[trigger] call.ensures((self.handle(), packet, packet@.len() as i32), code)
                && view_result(r) == counted("opus_decoder_get_nb_samples"@, code),
    {
        let code = call(&self.handle, packet, packet.len() as i32);
        check_count("opus_decoder_get_nb_samples", code)
    }

    /// Reset the codec state to be equivalent to a freshly initialized state.
    pub fn reset_state(&mut self, ctl: impl FnOnce(&H, i32) -> i32) -> (r: Result<()>)
        requires
            ctl.requires((old(self).handle(), OPUS_RESET_STATE)),
        ensures
            *final(self) == *old(self),
            exists|code: i32|
                #[trigger] ctl.ensures((old(self).handle(), OPUS_RESET_STATE), code)
                && view_result(r) == done("opus_decoder_ctl(ffi::OPUS_RESET_STATE)"@, code),
    {
        let code = ctl(&self.handle, OPUS_RESET_STATE);
        check_done("opus_decoder_ctl(ffi::OPUS_RESET_STATE)", code)
    }

    /// Get the final range of the codec's entropy coder.
    pub fn get_final_range(&mut self, ctl: impl FnOnce(&H, i32) -> (i32, u32)) -> (r: Result<u32>)
        requires
            ctl.requires((old(self).handle(), OPUS_GET_FINAL_RANGE_REQUEST)),
        ensures
            *final(self) == *old(self),
            exists|reply: (i32, u32)|
                #[trigger] ctl.ensures((old(self).handle(), OPUS_GET_FINAL_RANGE_REQUEST), reply)
                && view_result(r) == reported("opus_decoder_ctl(ffi::OPUS_GET_FINAL_RANGE_REQUEST)"@, reply.0, Ok::<u32, ErrorView>(reply.1)),
    {
        let (code, value) = ctl(&self.handle, OPUS_GET_FINAL_RANGE_REQUEST);
        if code < 0 {
            return Err(Error::from_code("opus_decoder_ctl(ffi::OPUS_GET_FINAL_RANGE_REQUEST)", code));
        }
        Ok(value)
    }

    /// Get the decoder's last bandpass.
    pub fn get_bandwidth(&mut self, ctl: impl FnOnce(&H, i32) -> (i32, i32)) -> (r: Result<Bandwidth>)
        requires
            ctl.requires((old(self).handle(), OPUS_GET_BANDWIDTH_REQUEST)),
        ensures
            *final(self) == *old(self),
            exists|reply: (i32, i32)|
                #[trigger] ctl.ensures((old(self).handle(), OPUS_GET_BANDWIDTH_REQUEST), reply)
                && view_result(r) == reported("opus_decoder_ctl(ffi::OPUS_GET_BANDWIDTH_REQUEST)"@, reply.0, Bandwidth::decoded(reply.1 as int, "opus_decoder_ctl(OPUS_GET_BANDWIDTH)"@)),
    {
        let (code, value) = ctl(&self.handle, OPUS_GET_BANDWIDTH_REQUEST);
        if code < 0 {
            return Err(Error::from_code("opus_decoder_ctl(ffi::OPUS_GET_BANDWIDTH_REQUEST)", code));
        }
        Bandwidth::decode(value, "opus_decoder_ctl(OPUS_GET_BANDWIDTH)")
    }

    /// Get the samping rate the decoder was intialized with.
    pub fn get_sample_rate(&mut self, ctl: impl FnOnce(&H, i32) -> (i32, i32)) -> (r: Result<u32>)
        requires
            ctl.requires((old(self).handle(), OPUS_GET_SAMPLE_RATE_REQUEST)),
        ensures
            *final(self) == *old(self),
            exists|reply: (i32, i32)|
                #[trigger] ctl.ensures((old(self).handle(), OPUS_GET_SAMPLE_RATE_REQUEST), reply)
                && view_result(r) == reported("opus_decoder_ctl(ffi::OPUS_GET_SAMPLE_RATE_REQUEST)"@, reply.0, Ok::<u32, ErrorView>(reply.1 as u32)),
    {
        let (code, value) = ctl(&self.handle, OPUS_GET_SAMPLE_RATE_REQUEST);
        if code < 0 {
            return Err(Error::from_code("opus_decoder_ctl(ffi::OPUS_GET_SAMPLE_RATE_REQUEST)", code));
        }
        Ok(value as u32)
    }

    /// Configures decoder gain adjustment.
    ///
    /// Scales the decoded output by a factor specified in Q8 dB units. This has
    /// a maximum range of -32768 to 32768 inclusive, and returns `BadArg`
    /// otherwise. The default is zero indicating no adjustment. This setting
    /// survives decoder reset.
    ///
    /// `gain = pow(10, x / (20.0 * 256))`
    pub fn set_gain(&mut self, gain: i32, ctl: impl FnOnce(&H, i32, i32) -> i32) -> (r: Result<()>)
        requires
            ctl.requires((old(self).handle(), OPUS_SET_GAIN_REQUEST, gain)),
        ensures
            *final(self) == *old(self),
            exists|code: i32|
                #[trigger] ctl.ensures((old(self).handle(), OPUS_SET_GAIN_REQUEST, gain), code)
                && view_result(r) == done("opus_decoder_ctl(ffi::OPUS_SET_GAIN_REQUEST)"@, code),
    {
        let arg: i32 = gain;
        let code = ctl(&self.handle, OPUS_SET_GAIN_REQUEST, arg);
        check_done("opus_decoder_ctl(ffi::OPUS_SET_GAIN_REQUEST)", code)
    }

    /// Gets the decoder's configured gain adjustment.
    pub fn get_gain(&mut self, ctl: impl FnOnce(&H, i32) -> (i32, i32)) -> (r: Result<i32>)
        requires
            ctl.requires((old(self).handle(), OPUS_GET_GAIN_REQUEST)),
        ensures
            *final(self) == *old(self),
            exists|reply: (i32, i32)|
                #[trigger] ctl.ensures((old(self).handle(), OPUS_GET_GAIN_REQUEST), reply)
                && view_result(r) == reported("opus_decoder_ctl(ffi::OPUS_GET_GAIN_REQUEST)"@, reply.0, Ok::<i32, ErrorView>(reply.1)),
    {
        let (code, value) = ctl(&self.handle, OPUS_GET_GAIN_REQUEST);
        if code < 0 {
            return Err(Error::from_code("opus_decoder_ctl(ffi::OPUS_GET_GAIN_REQUEST)", code));
        }
        Ok(value)
    }

    /// Gets the duration (in samples) of the last packet successfully decoded
    /// or concealed.
    pub fn get_last_packet_duration(&mut self, ctl: impl FnOnce(&H, i32) -> (i32, i32)) -> (r: Result<u32>)
        requires
            ctl.requires((old(self).handle(), OPUS_GET_LAST_PACKET_DURATION_REQUEST)),
        ensures
            *final(self) == *old(self),
            exists|reply: (i32, i32)|
                #[trigger] ctl.ensures((old(self).handle(), OPUS_GET_LAST_PACKET_DURATION_REQUEST), reply)
                && view_result(r) == reported("opus_decoder_ctl(ffi::OPUS_GET_LAST_PACKET_DURATION_REQUEST)"@, reply.0, Ok::<u32, ErrorView>(reply.1 as u32)),
    {
        let (code, value) = ctl(&self.handle, OPUS_GET_LAST_PACKET_DURATION_REQUEST);
        if code < 0 {
            return Err(Error::from_code("opus_decoder_ctl(ffi::OPUS_GET_LAST_PACKET_DURATION_REQUEST)", code));
        }
        Ok(value as u32)
    }

    /// Gets the pitch of the last decoded frame, if available.
    ///
    /// This can be used for any post-processing algorithm requiring the use of
    /// pitch, e.g. time stretching/shortening. If the last frame was not
    /// voiced, or if the pitch was not coded in the frame, then zero is
    /// returned.
    pub fn get_pitch(&mut self, ctl: impl FnOnce(&H, i32) -> (i32, i32)) -> (r: Result<i32>)
        requires
            ctl.requires((old(self).handle(), OPUS_GET_PITCH_REQUEST)),
        ensures
            *final(self) == *old(self),
            exists|reply: (i32, i32)|
                #[trigger] ctl.ensures((old(self).handle(), OPUS_GET_PITCH_REQUEST), reply)
                && view_result(r) == reported("opus_decoder_ctl(ffi::OPUS_GET_PITCH_REQUEST)"@, reply.0, Ok::<i32, ErrorView>(reply.1)),
    {
        let (code, value) = ctl(&self.handle, OPUS_GET_PITCH_REQUEST);
        if code < 0 {
            return Err(Error::from_code("opus_decoder_ctl(ffi::OPUS_GET_PITCH_REQUEST)", code));
        }
        Ok(value)
    }
}

} // verus!
