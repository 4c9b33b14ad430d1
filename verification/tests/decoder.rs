use std::cell::Cell;

use opus::defines::{
    OPUS_GET_GAIN_REQUEST, OPUS_GET_LAST_PACKET_DURATION_REQUEST, OPUS_GET_PITCH_REQUEST,
    OPUS_SET_GAIN_REQUEST,
};
use opus::{Bandwidth, Channels, Decoder, ErrorCode};

fn stereo_decoder() -> Decoder<&'static str> {
    Decoder::new(48000, Channels::Stereo, |_, _| (0, Some("state"))).unwrap()
}

#[test]
fn decoder_new_passes_settings() {
    let seen = Cell::new((0, 0));
    let dec = Decoder::new(24000, Channels::Mono, |rate, ch| {
        seen.set((rate, ch));
        (0, Some(()))
    });
    assert!(dec.is_ok());
    assert_eq!(seen.get(), (24000, 1));
    let err = Decoder::<()>::new(1, Channels::Mono, |_, _| (-1, None)).unwrap_err();
    assert_eq!(err.function(), "opus_decoder_create");
    assert_eq!(err.code(), ErrorCode::BadArg);
}

#[test]
fn decode_passes_packet_and_frame_size() {
    let mut dec = stereo_decoder();
    let packet = [0xfcu8, 0xff, 0xfe];
    let mut pcm = [0i16; 1920];
    let n = dec
        .decode(&packet, &mut pcm, false, |h, data, len, out, frame_size, fec| {
            assert_eq!(*h, "state");
            assert_eq!(data, Some(&packet[..]));
            assert_eq!(len, 3);
            assert_eq!(out.len(), 1920);
            assert_eq!(frame_size, 960);
            assert_eq!(fec, 0);
            out[0] = 5;
            960
        })
        .unwrap();
    assert_eq!(n, 960);
    assert_eq!(pcm[0], 5);
}

#[test]
fn decode_empty_input_is_packet_loss() {
    let mut dec = stereo_decoder();
    let mut pcm = [0i16; 960];
    let n = dec
        .decode(&[], &mut pcm, true, |_, data, len, _, frame_size, fec| {
            assert_eq!(data, None);
            assert_eq!(len, 0);
            assert_eq!(frame_size, 480);
            assert_eq!(fec, 1);
            480
        })
        .unwrap();
    assert_eq!(n, 480);
}

#[test]
fn decode_reports_corrupted_packet() {
    let mut dec = stereo_decoder();
    let mut pcm = [0i16; 960];
    let err = dec.decode(&[1, 2], &mut pcm, false, |_, _, _, _, _, _| -4).unwrap_err();
    assert_eq!(err.code(), ErrorCode::InvalidPacket);
    assert_eq!(err.function(), "opus_decode");
    assert_eq!(err.description(), "corrupted stream");
}

#[test]
fn decode_float_passes_frame_size() {
    let mut dec = Decoder::new(48000, Channels::Mono, |_, _| (0, Some(0u8))).unwrap();
    let mut pcm = [0.0f32; 480];
    let n = dec
        .decode_float(&[9], &mut pcm, false, |_, data, _, out: &mut [f32], frame_size, _| {
            assert_eq!(data, Some(&[9u8][..]));
            assert_eq!(frame_size, 480);
            out[0] = 0.25;
            120
        })
        .unwrap();
    assert_eq!(n, 120);
    assert_eq!(pcm[0], 0.25);
    let err = dec.decode_float(&[9], &mut pcm, false, |_, _, _, _: &mut [f32], _, _| -1).unwrap_err();
    assert_eq!(err.function(), "opus_decode_float");
}

#[test]
fn decoder_get_nb_samples() {
    let dec = stereo_decoder();
    let n = dec.get_nb_samples(&[1, 2, 3, 4], |_, p, len| {
        assert_eq!(p.len(), 4);
        assert_eq!(len, 4);
        960
    });
    assert_eq!(n.unwrap(), 960);
    let err = dec.get_nb_samples(&[], |_, _, _| -1).unwrap_err();
    assert_eq!(err.function(), "opus_decoder_get_nb_samples");
}

#[test]
fn decoder_ctls() {
    let mut dec = stereo_decoder();
    let sent = Cell::new((0, 0));
    dec.set_gain(-256, |_, req, v| {
        sent.set((req, v));
        0
    })
    .unwrap();
    assert_eq!(sent.get(), (OPUS_SET_GAIN_REQUEST, -256));
    assert_eq!(dec.set_gain(40000, |_, _, _| -1).unwrap_err().code(), ErrorCode::BadArg);
    assert_eq!(
        dec.get_gain(|_, req| {
            assert_eq!(req, OPUS_GET_GAIN_REQUEST);
            (0, -256)
        })
        .unwrap(),
        -256
    );
    assert_eq!(
        dec.get_last_packet_duration(|_, req| {
            assert_eq!(req, OPUS_GET_LAST_PACKET_DURATION_REQUEST);
            (0, 960)
        })
        .unwrap(),
        960
    );
    assert_eq!(
        dec.get_pitch(|_, req| {
            assert_eq!(req, OPUS_GET_PITCH_REQUEST);
            (0, 0)
        })
        .unwrap(),
        0
    );
    assert_eq!(dec.get_bandwidth(|_, _| (0, 1105)).unwrap(), Bandwidth::Fullband);
    let err = dec.get_bandwidth(|_, _| (0, 3)).unwrap_err();
    assert_eq!(err.function(), "opus_decoder_ctl(OPUS_GET_BANDWIDTH)");
    assert_eq!(dec.get_sample_rate(|_, _| (0, 48000)).unwrap(), 48000);
    assert_eq!(dec.get_final_range(|_, _| (0, 1)).unwrap(), 1);
    let err = dec.reset_state(|_, _| -6).unwrap_err();
    assert_eq!(err.function(), "opus_decoder_ctl(ffi::OPUS_RESET_STATE)");
}
