//! Numeric values of the libopus C interface (`opus_defines.h`) that this
//! library hands to, or reads back from, the codec.

use vstd::prelude::*;

verus! {

/// No error.
pub const OPUS_OK: i32 = 0;
/// One or more invalid/out of range arguments.
pub const OPUS_BAD_ARG: i32 = -1;
/// Not enough bytes allocated in the buffer.
pub const OPUS_BUFFER_TOO_SMALL: i32 = -2;
/// An internal error was detected.
pub const OPUS_INTERNAL_ERROR: i32 = -3;
/// The compressed data passed is corrupted.
pub const OPUS_INVALID_PACKET: i32 = -4;
/// Invalid/unsupported request number.
pub const OPUS_UNIMPLEMENTED: i32 = -5;
/// An encoder or decoder structure is invalid or already freed.
pub const OPUS_INVALID_STATE: i32 = -6;
/// Memory allocation has failed.
pub const OPUS_ALLOC_FAIL: i32 = -7;

/// Auto/default setting.
pub const OPUS_AUTO: i32 = -1000;
/// Maximum bitrate.
pub const OPUS_BITRATE_MAX: i32 = -1;

/// Coding mode for VoIP.
pub const OPUS_APPLICATION_VOIP: i32 = 2048;
/// Coding mode for general audio.
pub const OPUS_APPLICATION_AUDIO: i32 = 2049;
/// Coding mode for lowest latency.
pub const OPUS_APPLICATION_RESTRICTED_LOWDELAY: i32 = 2051;

/// 4 kHz bandpass.
pub const OPUS_BANDWIDTH_NARROWBAND: i32 = 1101;
/// 6 kHz bandpass.
pub const OPUS_BANDWIDTH_MEDIUMBAND: i32 = 1102;
/// 8 kHz bandpass.
pub const OPUS_BANDWIDTH_WIDEBAND: i32 = 1103;
/// 12 kHz bandpass.
pub const OPUS_BANDWIDTH_SUPERWIDEBAND: i32 = 1104;
/// 20 kHz bandpass.
pub const OPUS_BANDWIDTH_FULLBAND: i32 = 1105;

/// Control request: set the bitrate.
pub const OPUS_SET_BITRATE_REQUEST: i32 = 4002;
/// Control request: get the bitrate.
pub const OPUS_GET_BITRATE_REQUEST: i32 = 4003;
/// Control request: enable or disable variable bitrate.
pub const OPUS_SET_VBR_REQUEST: i32 = 4006;
/// Control request: get the variable bitrate setting.
pub const OPUS_GET_VBR_REQUEST: i32 = 4007;
/// Control request: get the bandpass.
pub const OPUS_GET_BANDWIDTH_REQUEST: i32 = 4009;
/// Control request: set the computational complexity.
pub const OPUS_SET_COMPLEXITY_REQUEST: i32 = 4010;
/// Control request: get the computational complexity.
pub const OPUS_GET_COMPLEXITY_REQUEST: i32 = 4011;
/// Control request: configure inband forward error correction.
pub const OPUS_SET_INBAND_FEC_REQUEST: i32 = 4012;
/// Control request: get the inband forward error correction setting.
pub const OPUS_GET_INBAND_FEC_REQUEST: i32 = 4013;
/// Control request: set the expected packet loss percentage.
pub const OPUS_SET_PACKET_LOSS_PERC_REQUEST: i32 = 4014;
/// Control request: get the expected packet loss percentage.
pub const OPUS_GET_PACKET_LOSS_PERC_REQUEST: i32 = 4015;
/// Control request: configure discontinuous transmission.
pub const OPUS_SET_DTX_REQUEST: i32 = 4016;
/// Control request: get the discontinuous transmission setting.
pub const OPUS_GET_DTX_REQUEST: i32 = 4017;
/// Control request: enable or disable constrained variable bitrate.
pub const OPUS_SET_VBR_CONSTRAINT_REQUEST: i32 = 4020;
/// Control request: get the constrained variable bitrate setting.
pub const OPUS_GET_VBR_CONSTRAINT_REQUEST: i32 = 4021;
/// Control request: force mono or stereo coding.
pub const OPUS_SET_FORCE_CHANNELS_REQUEST: i32 = 4022;
/// Control request: get the forced channel configuration.
pub const OPUS_GET_FORCE_CHANNELS_REQUEST: i32 = 4023;
/// Control request: get the codec's lookahead.
pub const OPUS_GET_LOOKAHEAD_REQUEST: i32 = 4027;
/// Control request: reset the codec state.
pub const OPUS_RESET_STATE: i32 = 4028;
/// Control request: get the sampling rate.
pub const OPUS_GET_SAMPLE_RATE_REQUEST: i32 = 4029;
/// Control request: get the final range of the entropy coder.
pub const OPUS_GET_FINAL_RANGE_REQUEST: i32 = 4031;
/// Control request: get the pitch of the last decoded frame.
pub const OPUS_GET_PITCH_REQUEST: i32 = 4033;
/// Control request: set the decoder gain adjustment.
pub const OPUS_SET_GAIN_REQUEST: i32 = 4034;
/// Control request: get the duration of the last decoded packet.
pub const OPUS_GET_LAST_PACKET_DURATION_REQUEST: i32 = 4039;
/// Control request: get the decoder gain adjustment.
pub const OPUS_GET_GAIN_REQUEST: i32 = 4045;

} // verus!
