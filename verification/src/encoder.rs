//! The encoder: the arguments of each call into a libopus encoder state and
//! the handling of its results.

use vstd::prelude::*;
use crate::codec::{forced_channels, forced_value, per_channel, switch, Application, Bandwidth, Bitrate, Channels};
use crate::defines::{
    OPUS_AUTO, OPUS_GET_BANDWIDTH_REQUEST, OPUS_GET_BITRATE_REQUEST, OPUS_GET_COMPLEXITY_REQUEST,
    OPUS_GET_DTX_REQUEST, OPUS_GET_FINAL_RANGE_REQUEST, OPUS_GET_FORCE_CHANNELS_REQUEST,
    OPUS_GET_INBAND_FEC_REQUEST, OPUS_GET_LOOKAHEAD_REQUEST, OPUS_GET_PACKET_LOSS_PERC_REQUEST,
    OPUS_GET_SAMPLE_RATE_REQUEST, OPUS_GET_VBR_CONSTRAINT_REQUEST, OPUS_GET_VBR_REQUEST, OPUS_OK,
    OPUS_RESET_STATE, OPUS_SET_BITRATE_REQUEST, OPUS_SET_COMPLEXITY_REQUEST, OPUS_SET_DTX_REQUEST,
    OPUS_SET_FORCE_CHANNELS_REQUEST, OPUS_SET_INBAND_FEC_REQUEST, OPUS_SET_PACKET_LOSS_PERC_REQUEST,
    OPUS_SET_VBR_CONSTRAINT_REQUEST, OPUS_SET_VBR_REQUEST,
};
use crate::error::{
    check_count, check_done, check_len, counted, done, failure, len, reported, view_result, Error,
    ErrorView, Result,
};

verus! {

/// An Opus encoder with associated state.
///
/// `H` is the handle of the libopus encoder state; every call into libopus
/// is made by a closure that receives it.
#[derive(Debug)]
pub struct Encoder<H> {
    handle: H,
    channels: Channels,
}

impl<H> Encoder<H> {
    /// The handle of the libopus encoder state.
    pub closed spec fn handle(&self) -> &H {
        &self.handle
    }

    /// The channel setting that the encoder was created with.
    pub closed spec fn channels(&self) -> Channels {
        self.channels
    }

    /// Create and initialize an encoder.
    ///
    /// `create` is `opus_encoder_create`: it takes the sampling rate, the
    /// number of channels and the application, and gives the error it
    /// reported and the new state, if there is one.
    pub fn new(
        sample_rate: u32,
        channels: Channels,
        mode: Application,
        create: impl FnOnce(i32, i32, i32) -> (i32, Option<H>),
    ) -> (r: Result<Encoder<H>>)
        requires
            create.requires((sample_rate as i32, channels.count(), mode.value())),
        ensures
            exists|reply: (i32, Option<H>)|
                #[trigger] create.ensures((sample_rate as i32, channels.count(), mode.value()), reply)
                && if reply.0 == OPUS_OK && reply.1 is Some {
                    r matches Ok(e) && *e.handle() == reply.1->0 && e.channels() == channels
                } else {
                    view_result(r) == Err::<Encoder<H>, ErrorView>(
                        failure("opus_encoder_create"@, reply.0 as int),
                    )
                },
    {
        let (error, handle) = create(sample_rate as i32, channels.raw(), mode.raw());
        if error == OPUS_OK {
            if let Some(handle) = handle {
                return Ok(Encoder { handle, channels });
            }
        }
        Err(Error::from_code("opus_encoder_create", error))
    }

    /// Encode an Opus frame.
    ///
    /// `encode` is `opus_encode`: it takes the state, the input, the number
    /// of samples per channel, the output buffer and its length, and gives
    /// the length of the packet or an error.
    pub fn encode(
        &mut self,
        input: &[i16],
        output: &mut [u8],
        encode: impl FnOnce(&H, &[i16], i32, &mut [u8], i32) -> i32,
    ) -> (r: Result<usize>)
        requires
            input@.len() <= i32::MAX,
            old(output)@.len() <= i32::MAX,
            forall|h: &H, pcm: &[i16], frame_size: i32, data: &mut [u8], max_data_bytes: i32|
                encode.requires((h, pcm, frame_size, data, max_data_bytes)),
        ensures
            *final(self) == *old(self),
            exists|data: &mut [u8], code: i32|
                #[trigger] encode.ensures(
                    (
                        old(self).handle(),
                        input,
                        per_channel(input@.len() as int, old(self).channels()),
                        data,
                        old(output)@.len() as i32,
                    ),
                    code,
                ) && data@ == old(output)@ && final(output)@ == final(data)@ && view_result(r)
                    == counted("opus_encode"@, code),
    {
        let frame_size = len(input) / self.channels.raw();
        let max_data_bytes = len(output);
        proof {
            assert(old(self).handle() == &self.handle);
            assert(frame_size == per_channel(input@.len() as int, old(self).channels()));
            assert(max_data_bytes == old(output)@.len() as i32);
        }
        let code = encode(&self.handle, input, frame_size, output, max_data_bytes);
        check_count("opus_encode", code)
    }

    /// Encode an Opus frame from floating point input.
    ///
    /// `S` is the type of the samples that `encode` (`opus_encode_float`)
    /// takes.
    pub fn encode_float<S>(
        &mut self,
        input: &[S],
        output: &mut [u8],
        encode: impl FnOnce(&H, &[S], i32, &mut [u8], i32) -> i32,
    ) -> (r: Result<usize>)
        requires
            input@.len() <= i32::MAX,
            old(output)@.len() <= i32::MAX,
            forall|h: &H, pcm: &[S], frame_size: i32, data: &mut [u8], max_data_bytes: i32|
                encode.requires((h, pcm, frame_size, data, max_data_bytes)),
        ensures
            *final(self) == *old(self),
            exists|data: &mut [u8], code: i32|
                #[trigger] encode.ensures(
                    (
                        old(self).handle(),
                        input,
                        per_channel(input@.len() as int, old(self).channels()),
                        data,
                        old(output)@.len() as i32,
                    ),
                    code,
                ) && data@ == old(output)@ && final(output)@ == final(data)@ && view_result(r)
                    == counted("opus_encode_float"@, code),
    {
        let frame_size = len(input) / self.channels.raw();
        let max_data_bytes = len(output);
        proof {
            assert(old(self).handle() == &self.handle);
            assert(frame_size == per_channel(input@.len() as int, old(self).channels()));
            assert(max_data_bytes == old(output)@.len() as i32);
        }
        let code = encode(&self.handle, input, frame_size, output, max_data_bytes);
        check_count("opus_encode_float", code)
    }

    /// Encode an Opus frame to a new buffer.
    ///
    /// The buffer handed to `encode` holds `max_size` zero bytes; the result
    /// is what `encode` left in it, cut to the length of the packet.
    pub fn encode_vec(
        &mut self,
        input: &[i16],
        max_size: usize,
        encode: impl FnOnce(&H, &[i16], i32, &mut [u8], i32) -> i32,
    ) -> (r: Result<Vec<u8>>)
        requires
            input@.len() <= i32::MAX,
            max_size <= i32::MAX,
            forall|h: &H, pcm: &[i16], frame_size: i32, data: &mut [u8], max_data_bytes: i32|
                encode.requires((h, pcm, frame_size, data, max_data_bytes)),
            forall|h: &H, pcm: &[i16], frame_size: i32, data: &mut [u8], max_data_bytes: i32, code: i32|
                encode.ensures((h, pcm, frame_size, data, max_data_bytes), code)
                    ==> final(data)@.len() == data@.len(),
        ensures
            *final(self) == *old(self),
            exists|data: &mut [u8], code: i32|
                #[trigger] encode.ensures(
                    (
                        old(self).handle(),
                        input,
                        per_channel(input@.len() as int, old(self).channels()),
                        data,
                        max_size as i32,
                    ),
                    code,
                ) && data@ == Seq::new(max_size as nat, |i: int| 0u8) && (code < 0 ==> view_result(r)
                    == Err::<Vec<u8>, ErrorView>(failure("opus_encode"@, code as int))) && (code >= 0
                    ==> (r matches Ok(v) && v@ == final(data)@.take(
                    if code <= max_size { code as int } else { max_size as int },
                ))),
    {
        let mut output: Vec<u8> = vec![0u8; max_size];
        let frame_size = len(input) / self.channels.raw();
        let max_data_bytes = check_len(max_size);
        proof {
            assert(old(self).handle() == &self.handle);
            assert(frame_size == per_channel(input@.len() as int, old(self).channels()));
            assert(max_data_bytes == max_size as i32);
        }
        let data = output.as_mut_slice();
        assert(data@ =~= Seq::new(max_size as nat, |i: int| 0u8));
        let code = encode(&self.handle, input, frame_size, data, max_data_bytes);
        if code < 0 {
            return Err(Error::from_code("opus_encode", code));
        }
        output.truncate(code as usize);
        Ok(output)
    }

    /// Encode an Opus frame from floating point input to a new buffer.
    ///
    /// `S` is the type of the samples that `encode` (`opus_encode_float`)
    /// takes. The buffer handed to `encode` holds `max_size` zero bytes; the result
    /// is what `encode` left in it, cut to the length of the packet.
    pub fn encode_vec_float<S>(
        &mut self,
        input: &[S],
        max_size: usize,
        encode: impl FnOnce(&H, &[S], i32, &mut [u8], i32) -> i32,
    ) -> (r: Result<Vec<u8>>)
        requires
            input@.len() <= i32::MAX,
            max_size <= i32::MAX,
            forall|h: &H, pcm: &[S], frame_size: i32, data: &mut [u8], max_data_bytes: i32|
                encode.requires((h, pcm, frame_size, data, max_data_bytes)),
            forall|h: &H, pcm: &[S], frame_size: i32, data: &mut [u8], max_data_bytes: i32, code: i32|
                encode.ensures((h, pcm, frame_size, data, max_data_bytes), code)
                    ==> final(data)@.len() == data@.len(),
        ensures
            *final(self) == *old(self),
            exists|data: &mut [u8], code: i32|
                #[trigger] encode.ensures(
                    (
                        old(self).handle(),
                        input,
                        per_channel(input@.len() as int, old(self).channels()),
                        data,
                        max_size as i32,
                    ),
                    code,
                ) && data@ == Seq::new(max_size as nat, |i: int| 0u8) && (code < 0 ==> view_result(r)
                    == Err::<Vec<u8>, ErrorView>(failure("opus_encode_float"@, code as int))) && (code >= 0
                    ==> (r matches Ok(v) && v@ == final(data)@.take(
                    if code <= max_size { code as int } else { max_size as int },
                ))),
    {
        let mut output: Vec<u8> = vec![0u8; max_size];
        let frame_size = len(input) / self.channels.raw();
        let max_data_bytes = check_len(max_size);
        proof {
            assert(old(self).handle() == &self.handle);
            assert(frame_size == per_channel(input@.len() as int, old(self).channels()));
            assert(max_data_bytes == max_size as i32);
        }
        let data = output.as_mut_slice();
        assert(data@ =~= Seq::new(max_size as nat, |i: int| 0u8));
        let code = encode(&self.handle, input, frame_size, data, max_data_bytes);
        if code < 0 {
            return Err(Error::from_code("opus_encode_float", code));
        }
        output.truncate(code as usize);
        Ok(output)
    }

    /// Reset the codec state to be equivalent to a freshly initialized state.
    pub fn reset_state(&mut self, ctl: impl FnOnce(&H, i32) -> i32) -> (r: Result<()>)
        requires
            ctl.requires((old(self).handle(), OPUS_RESET_STATE)),
        ensures
            *final(self) == *old(self),
            exists|code: i32|
                #[trigger] ctl.ensures((old(self).handle(), OPUS_RESET_STATE), code)
                && view_result(r) == done("opus_encoder_ctl(ffi::OPUS_RESET_STATE)"@, code),
    {
        let code = ctl(&self.handle, OPUS_RESET_STATE);
        check_done("opus_encoder_ctl(ffi::OPUS_RESET_STATE)", code)
    }

    /// Get the final range of the codec's entropy coder.
    pub fn get_final_range(&mut self, ctl: impl FnOnce(&H, i32) -> (i32, u32)) -> (r: Result<u32>)
        requires
            ctl.requires((old(self).handle(), OPUS_GET_FINAL_RANGE_REQUEST)),
        ensures
            *final(self) == *old(self),
            exists|reply: (i32, u32)|
                #[trigger] ctl.ensures((old(self).handle(), OPUS_GET_FINAL_RANGE_REQUEST), reply)
                && view_result(r) == reported("opus_encoder_ctl(ffi::OPUS_GET_FINAL_RANGE_REQUEST)"@, reply.0, Ok::<u32, ErrorView>(reply.1)),
    {
        let (code, value) = ctl(&self.handle, OPUS_GET_FINAL_RANGE_REQUEST);
        if code < 0 {
            return Err(Error::from_code("opus_encoder_ctl(ffi::OPUS_GET_FINAL_RANGE_REQUEST)", code));
        }
        Ok(value)
    }

    /// Get the encoder's configured bandpass.
    pub fn get_bandwidth(&mut self, ctl: impl FnOnce(&H, i32) -> (i32, i32)) -> (r: Result<Bandwidth>)
        requires
            ctl.requires((old(self).handle(), OPUS_GET_BANDWIDTH_REQUEST)),
        ensures
            *final(self) == *old(self),
            exists|reply: (i32, i32)|
                #[trigger] ctl.ensures((old(self).handle(), OPUS_GET_BANDWIDTH_REQUEST), reply)
                && view_result(r) == reported("opus_encoder_ctl(ffi::OPUS_GET_BANDWIDTH_REQUEST)"@, reply.0, Bandwidth::decoded(reply.1 as int, "opus_encoder_ctl(OPUS_GET_BANDWIDTH)"@)),
    {
        let (code, value) = ctl(&self.handle, OPUS_GET_BANDWIDTH_REQUEST);
        if code < 0 {
            return Err(Error::from_code("opus_encoder_ctl(ffi::OPUS_GET_BANDWIDTH_REQUEST)", code));
        }
        Bandwidth::decode(value, "opus_encoder_ctl(OPUS_GET_BANDWIDTH)")
    }

    /// Get the samping rate the encoder was intialized with.
    pub fn get_sample_rate(&mut self, ctl: impl FnOnce(&H, i32) -> (i32, i32)) -> (r: Result<u32>)
        requires
            ctl.requires((old(self).handle(), OPUS_GET_SAMPLE_RATE_REQUEST)),
        ensures
            *final(self) == *old(self),
            exists|reply: (i32, i32)|
                #[trigger] ctl.ensures((old(self).handle(), OPUS_GET_SAMPLE_RATE_REQUEST), reply)
                && view_result(r) == reported("opus_encoder_ctl(ffi::OPUS_GET_SAMPLE_RATE_REQUEST)"@, reply.0, Ok::<u32, ErrorView>(reply.1 as u32)),
    {
        let (code, value) = ctl(&self.handle, OPUS_GET_SAMPLE_RATE_REQUEST);
        if code < 0 {
            return Err(Error::from_code("opus_encoder_ctl(ffi::OPUS_GET_SAMPLE_RATE_REQUEST)", code));
        }
        Ok(value as u32)
    }

    /// Set the encoder's bitrate.
    pub fn set_bitrate(&mut self, value: Bitrate, ctl: impl FnOnce(&H, i32, i32) -> i32) -> (r: Result<()>)
        requires
            ctl.requires((old(self).handle(), OPUS_SET_BITRATE_REQUEST, value.value())),
        ensures
            *final(self) == *old(self),
            exists|code: i32|
                #[trigger] ctl.ensures((old(self).handle(), OPUS_SET_BITRATE_REQUEST, value.value()), code)
                && view_result(r) == done("opus_encoder_ctl(ffi::OPUS_SET_BITRATE_REQUEST)"@, code),
    {
        let arg: i32 = value.raw();
        let code = ctl(&self.handle, OPUS_SET_BITRATE_REQUEST, arg);
        check_done("opus_encoder_ctl(ffi::OPUS_SET_BITRATE_REQUEST)", code)
    }

    /// Get the encoder's bitrate.
    pub fn get_bitrate(&mut self, ctl: impl FnOnce(&H, i32) -> (i32, i32)) -> (r: Result<Bitrate>)
        requires
            ctl.requires((old(self).handle(), OPUS_GET_BITRATE_REQUEST)),
        ensures
            *final(self) == *old(self),
            exists|reply: (i32, i32)|
                #[trigger] ctl.ensures((old(self).handle(), OPUS_GET_BITRATE_REQUEST), reply)
                && view_result(r) == reported("opus_encoder_ctl(ffi::OPUS_GET_BITRATE_REQUEST)"@, reply.0, Ok::<Bitrate, ErrorView>(Bitrate::of(reply.1))),
    {
        let (code, value) = ctl(&self.handle, OPUS_GET_BITRATE_REQUEST);
        if code < 0 {
            return Err(Error::from_code("opus_encoder_ctl(ffi::OPUS_GET_BITRATE_REQUEST)", code));
        }
        Bitrate::from_raw(value)
    }

    /// Enable or disable variable bitrate.
    pub fn set_vbr(&mut self, vbr: bool, ctl: impl FnOnce(&H, i32, i32) -> i32) -> (r: Result<()>)
        requires
            ctl.requires((old(self).handle(), OPUS_SET_VBR_REQUEST, switch(vbr))),
        ensures
            *final(self) == *old(self),
            exists|code: i32|
                #[trigger] ctl.ensures((old(self).handle(), OPUS_SET_VBR_REQUEST, switch(vbr)), code)
                && view_result(r) == done("opus_encoder_ctl(ffi::OPUS_SET_VBR_REQUEST)"@, code),
    {
        let arg: i32 = if vbr { 1 } else { 0 };
        let code = ctl(&self.handle, OPUS_SET_VBR_REQUEST, arg);
        check_done("opus_encoder_ctl(ffi::OPUS_SET_VBR_REQUEST)", code)
    }

    /// Determine if variable bitrate is enabled.
    pub fn get_vbr(&mut self, ctl: impl FnOnce(&H, i32) -> (i32, i32)) -> (r: Result<bool>)
        requires
            ctl.requires((old(self).handle(), OPUS_GET_VBR_REQUEST)),
        ensures
            *final(self) == *old(self),
            exists|reply: (i32, i32)|
                #[trigger] ctl.ensures((old(self).handle(), OPUS_GET_VBR_REQUEST), reply)
                && view_result(r) == reported("opus_encoder_ctl(ffi::OPUS_GET_VBR_REQUEST)"@, reply.0, Ok::<bool, ErrorView>(reply.1 != 0)),
    {
        let (code, value) = ctl(&self.handle, OPUS_GET_VBR_REQUEST);
        if code < 0 {
            return Err(Error::from_code("opus_encoder_ctl(ffi::OPUS_GET_VBR_REQUEST)", code));
        }
        Ok(value != 0)
    }

    /// Enable or disable constrained VBR.
    pub fn set_vbr_constraint(&mut self, vbr: bool, ctl: impl FnOnce(&H, i32, i32) -> i32) -> (r: Result<()>)
        requires
            ctl.requires((old(self).handle(), OPUS_SET_VBR_CONSTRAINT_REQUEST, switch(vbr))),
        ensures
            *final(self) == *old(self),
            exists|code: i32|
                #[trigger] ctl.ensures((old(self).handle(), OPUS_SET_VBR_CONSTRAINT_REQUEST, switch(vbr)), code)
                && view_result(r) == done("opus_encoder_ctl(ffi::OPUS_SET_VBR_CONSTRAINT_REQUEST)"@, code),
    {
        let arg: i32 = if vbr { 1 } else { 0 };
        let code = ctl(&self.handle, OPUS_SET_VBR_CONSTRAINT_REQUEST, arg);
        check_done("opus_encoder_ctl(ffi::OPUS_SET_VBR_CONSTRAINT_REQUEST)", code)
    }

    /// Determine if constrained VBR is enabled.
    pub fn get_vbr_constraint(&mut self, ctl: impl FnOnce(&H, i32) -> (i32, i32)) -> (r: Result<bool>)
        requires
            ctl.requires((old(self).handle(), OPUS_GET_VBR_CONSTRAINT_REQUEST)),
        ensures
            *final(self) == *old(self),
            exists|reply: (i32, i32)|
                #[trigger] ctl.ensures((old(self).handle(), OPUS_GET_VBR_CONSTRAINT_REQUEST), reply)
                && view_result(r) == reported("opus_encoder_ctl(ffi::OPUS_GET_VBR_CONSTRAINT_REQUEST)"@, reply.0, Ok::<bool, ErrorView>(reply.1 != 0)),
    {
        let (code, value) = ctl(&self.handle, OPUS_GET_VBR_CONSTRAINT_REQUEST);
        if code < 0 {
            return Err(Error::from_code("opus_encoder_ctl(ffi::OPUS_GET_VBR_CONSTRAINT_REQUEST)", code));
        }
        Ok(value != 0)
    }

    /// Configures the encoder's use of inband forward error correction (FEC).
    pub fn set_inband_fec(&mut self, value: bool, ctl: impl FnOnce(&H, i32, i32) -> i32) -> (r: Result<()>)
        requires
            ctl.requires((old(self).handle(), OPUS_SET_INBAND_FEC_REQUEST, switch(value))),
        ensures
            *final(self) == *old(self),
            exists|code: i32|
                #[trigger] ctl.ensures((old(self).handle(), OPUS_SET_INBAND_FEC_REQUEST, switch(value)), code)
                && view_result(r) == done("opus_encoder_ctl(ffi::OPUS_SET_INBAND_FEC_REQUEST)"@, code),
    {
        let arg: i32 = if value { 1 } else { 0 };
        let code = ctl(&self.handle, OPUS_SET_INBAND_FEC_REQUEST, arg);
        check_done("opus_encoder_ctl(ffi::OPUS_SET_INBAND_FEC_REQUEST)", code)
    }

    /// Gets encoder's configured use of inband forward error correction.
    pub fn get_inband_fec(&mut self, ctl: impl FnOnce(&H, i32) -> (i32, i32)) -> (r: Result<bool>)
        requires
            ctl.requires((old(self).handle(), OPUS_GET_INBAND_FEC_REQUEST)),
        ensures
            *final(self) == *old(self),
            exists|reply: (i32, i32)|
                #[trigger] ctl.ensures((old(self).handle(), OPUS_GET_INBAND_FEC_REQUEST), reply)
                && view_result(r) == reported("opus_encoder_ctl(ffi::OPUS_GET_INBAND_FEC_REQUEST)"@, reply.0, Ok::<bool, ErrorView>(reply.1 != 0)),
    {
        let (code, value) = ctl(&self.handle, OPUS_GET_INBAND_FEC_REQUEST);
        if code < 0 {
            return Err(Error::from_code("opus_encoder_ctl(ffi::OPUS_GET_INBAND_FEC_REQUEST)", code));
        }
        Ok(value != 0)
    }

    /// Configures the encoder's use of discontinuous transmission (DTX).
    pub fn set_dtx(&mut self, value: bool, ctl: impl FnOnce(&H, i32, i32) -> i32) -> (r: Result<()>)
        requires
            ctl.requires((old(self).handle(), OPUS_SET_DTX_REQUEST, switch(value))),
        ensures
            *final(self) == *old(self),
            exists|code: i32|
                #[trigger] ctl.ensures((old(self).handle(), OPUS_SET_DTX_REQUEST, switch(value)), code)
                && view_result(r) == done("opus_encoder_ctl(ffi::OPUS_SET_DTX_REQUEST)"@, code),
    {
        let arg: i32 = if value { 1 } else { 0 };
        let code = ctl(&self.handle, OPUS_SET_DTX_REQUEST, arg);
        check_done("opus_encoder_ctl(ffi::OPUS_SET_DTX_REQUEST)", code)
    }

    /// Gets encoder's configured use of discontinuous transmission (DTX).
    pub fn get_dtx(&mut self, ctl: impl FnOnce(&H, i32) -> (i32, i32)) -> (r: Result<bool>)
        requires
            ctl.requires((old(self).handle(), OPUS_GET_DTX_REQUEST)),
        ensures
            *final(self) == *old(self),
            exists|reply: (i32, i32)|
                #[trigger] ctl.ensures((old(self).handle(), OPUS_GET_DTX_REQUEST), reply)
                && view_result(r) == reported("opus_encoder_ctl(ffi::OPUS_GET_DTX_REQUEST)"@, reply.0, Ok::<bool, ErrorView>(reply.1 != 0)),
    {
        let (code, value) = ctl(&self.handle, OPUS_GET_DTX_REQUEST);
        if code < 0 {
            return Err(Error::from_code("opus_encoder_ctl(ffi::OPUS_GET_DTX_REQUEST)", code));
        }
        Ok(value != 0)
    }

    /// Configures the encoder's computational complexity.
    pub fn set_complexity(&mut self, value: i32, ctl: impl FnOnce(&H, i32, i32) -> i32) -> (r: Result<()>)
        requires
            ctl.requires((old(self).handle(), OPUS_SET_COMPLEXITY_REQUEST, value)),
        ensures
            *final(self) == *old(self),
            exists|code: i32|
                #[trigger] ctl.ensures((old(self).handle(), OPUS_SET_COMPLEXITY_REQUEST, value), code)
                && view_result(r) == done("opus_encoder_ctl(ffi::OPUS_SET_COMPLEXITY_REQUEST)"@, code),
    {
        let arg: i32 = value;
        let code = ctl(&self.handle, OPUS_SET_COMPLEXITY_REQUEST, arg);
        check_done("opus_encoder_ctl(ffi::OPUS_SET_COMPLEXITY_REQUEST)", code)
    }

    /// Gets the encoder's complexity configuration.
    pub fn get_complexity(&mut self, ctl: impl FnOnce(&H, i32) -> (i32, i32)) -> (r: Result<i32>)
        requires
            ctl.requires((old(self).handle(), OPUS_GET_COMPLEXITY_REQUEST)),
        ensures
            *final(self) == *old(self),
            exists|reply: (i32, i32)|
                #[trigger] ctl.ensures((old(self).handle(), OPUS_GET_COMPLEXITY_REQUEST), reply)
                && view_result(r) == reported("opus_encoder_ctl(ffi::OPUS_GET_COMPLEXITY_REQUEST)"@, reply.0, Ok::<i32, ErrorView>(reply.1)),
    {
        let (code, value) = ctl(&self.handle, OPUS_GET_COMPLEXITY_REQUEST);
        if code < 0 {
            return Err(Error::from_code("opus_encoder_ctl(ffi::OPUS_GET_COMPLEXITY_REQUEST)", code));
        }
        Ok(value)
    }

    /// Sets the encoder's expected packet loss percentage.
    pub fn set_packet_loss_perc(&mut self, value: i32, ctl: impl FnOnce(&H, i32, i32) -> i32) -> (r: Result<()>)
        requires
            ctl.requires((old(self).handle(), OPUS_SET_PACKET_LOSS_PERC_REQUEST, value)),
        ensures
            *final(self) == *old(self),
            exists|code: i32|
                #[trigger] ctl.ensures((old(self).handle(), OPUS_SET_PACKET_LOSS_PERC_REQUEST, value), code)
                && view_result(r) == done("opus_encoder_ctl(ffi::OPUS_SET_PACKET_LOSS_PERC_REQUEST)"@, code),
    {
        let arg: i32 = value;
        let code = ctl(&self.handle, OPUS_SET_PACKET_LOSS_PERC_REQUEST, arg);
        check_done("opus_encoder_ctl(ffi::OPUS_SET_PACKET_LOSS_PERC_REQUEST)", code)
    }

    /// Gets the encoder's expected packet loss percentage.
    pub fn get_packet_loss_perc(&mut self, ctl: impl FnOnce(&H, i32) -> (i32, i32)) -> (r: Result<i32>)
        requires
            ctl.requires((old(self).handle(), OPUS_GET_PACKET_LOSS_PERC_REQUEST)),
        ensures
            *final(self) == *old(self),
            exists|reply: (i32, i32)|
                #[trigger] ctl.ensures((old(self).handle(), OPUS_GET_PACKET_LOSS_PERC_REQUEST), reply)
                && view_result(r) == reported("opus_encoder_ctl(ffi::OPUS_GET_PACKET_LOSS_PERC_REQUEST)"@, reply.0, Ok::<i32, ErrorView>(reply.1)),
    {
        let (code, value) = ctl(&self.handle, OPUS_GET_PACKET_LOSS_PERC_REQUEST);
        if code < 0 {
            return Err(Error::from_code("opus_encoder_ctl(ffi::OPUS_GET_PACKET_LOSS_PERC_REQUEST)", code));
        }
        Ok(value)
    }

    /// Gets the total samples of delay added by the entire codec.
    pub fn get_lookahead(&mut self, ctl: impl FnOnce(&H, i32) -> (i32, i32)) -> (r: Result<i32>)
        requires
            ctl.requires((old(self).handle(), OPUS_GET_LOOKAHEAD_REQUEST)),
        ensures
            *final(self) == *old(self),
            exists|reply: (i32, i32)|
                #[trigger] ctl.ensures((old(self).handle(), OPUS_GET_LOOKAHEAD_REQUEST), reply)
                && view_result(r) == reported("opus_encoder_ctl(ffi::OPUS_GET_LOOKAHEAD_REQUEST)"@, reply.0, Ok::<i32, ErrorView>(reply.1)),
    {
        let (code, value) = ctl(&self.handle, OPUS_GET_LOOKAHEAD_REQUEST);
        if code < 0 {
            return Err(Error::from_code("opus_encoder_ctl(ffi::OPUS_GET_LOOKAHEAD_REQUEST)", code));
        }
        Ok(value)
    }

    /// Configures mono/stereo forcing in the encoder.
    ///
    /// This can force the encoder to produce packets encoded as either mono or
    /// stereo, regardless of the format of the input audio. This is useful
    /// when the caller knows that the input signal is currently a mono source
    /// embedded in a stereo stream.
    pub fn set_force_channels(&mut self, value: Option<Channels>, ctl: impl FnOnce(&H, i32, i32) -> i32) -> (r: Result<()>)
        requires
            ctl.requires((old(self).handle(), OPUS_SET_FORCE_CHANNELS_REQUEST, forced_value(value))),
        ensures
            *final(self) == *old(self),
            exists|code: i32|
                #[trigger] ctl.ensures((old(self).handle(), OPUS_SET_FORCE_CHANNELS_REQUEST, forced_value(value)), code)
                && view_result(r) == done("opus_encoder_ctl(ffi::OPUS_SET_FORCE_CHANNELS_REQUEST)"@, code),
    {
        let arg: i32 = match value {
            None => OPUS_AUTO,
            Some(Channels::Mono) => 1,
            Some(Channels::Stereo) => 2,
        };
        let code = ctl(&self.handle, OPUS_SET_FORCE_CHANNELS_REQUEST, arg);
        check_done("opus_encoder_ctl(ffi::OPUS_SET_FORCE_CHANNELS_REQUEST)", code)
    }

    /// Gets the encoder's forced channel configuration.
    pub fn get_force_channels(&mut self, ctl: impl FnOnce(&H, i32) -> (i32, i32)) -> (r: Result<Option<Channels>>)
        requires
            ctl.requires((old(self).handle(), OPUS_GET_FORCE_CHANNELS_REQUEST)),
        ensures
            *final(self) == *old(self),
            exists|reply: (i32, i32)|
                #[trigger] ctl.ensures((old(self).handle(), OPUS_GET_FORCE_CHANNELS_REQUEST), reply)
                && view_result(r) == reported("opus_encoder_ctl(ffi::OPUS_GET_FORCE_CHANNELS_REQUEST)"@, reply.0, forced_channels(reply.1, "opus_encoder_ctl(OPUS_GET_FORCE_CHANNELS)"@)),
    {
        let (code, value) = ctl(&self.handle, OPUS_GET_FORCE_CHANNELS_REQUEST);
        if code < 0 {
            return Err(Error::from_code("opus_encoder_ctl(ffi::OPUS_GET_FORCE_CHANNELS_REQUEST)", code));
        }
        match value {
            OPUS_AUTO => Ok(None),
            1 => Ok(Some(Channels::Mono)),
            2 => Ok(Some(Channels::Stereo)),
            _ => Err(Error::bad_arg("opus_encoder_ctl(OPUS_GET_FORCE_CHANNELS)")),
        }
    }
}

} // verus!
