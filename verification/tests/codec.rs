use opus::defines::{OPUS_AUTO, OPUS_BANDWIDTH_FULLBAND, OPUS_BANDWIDTH_WIDEBAND, OPUS_BITRATE_MAX};
use opus::{Application, Bandwidth, Bitrate, Channels, ErrorCode};

#[test]
fn bandwidth_from_int_known_values() {
    assert_eq!(Bandwidth::from_int(-1000), Some(Bandwidth::Auto));
    assert_eq!(Bandwidth::from_int(1101), Some(Bandwidth::Narrowband));
    assert_eq!(Bandwidth::from_int(1102), Some(Bandwidth::Mediumband));
    assert_eq!(Bandwidth::from_int(1103), Some(Bandwidth::Wideband));
    assert_eq!(Bandwidth::from_int(1104), Some(Bandwidth::Superwideband));
    assert_eq!(Bandwidth::from_int(1105), Some(Bandwidth::Fullband));
    assert_eq!(OPUS_BANDWIDTH_WIDEBAND, 1103);
    assert_eq!(OPUS_BANDWIDTH_FULLBAND, 1105);
}

#[test]
fn bandwidth_from_int_unknown_values() {
    assert_eq!(Bandwidth::from_int(0), None);
    assert_eq!(Bandwidth::from_int(1100), None);
    assert_eq!(Bandwidth::from_int(1106), None);
    assert_eq!(Bandwidth::from_int(-1), None);
}

#[test]
fn bandwidth_decode_reports_bad_arg() {
    assert_eq!(Bandwidth::decode(1104, "what").unwrap(), Bandwidth::Superwideband);
    let err = Bandwidth::decode(42, "opus_packet_get_bandwidth").unwrap_err();
    assert_eq!(err.code(), ErrorCode::BadArg);
    assert_eq!(err.function(), "opus_packet_get_bandwidth");
}

#[test]
fn bitrate_raw_values() {
    assert_eq!(Bitrate::Auto.raw(), -1000);
    assert_eq!(Bitrate::Max.raw(), -1);
    assert_eq!(Bitrate::Bits(64000).raw(), 64000);
    assert_eq!(OPUS_AUTO, -1000);
    assert_eq!(OPUS_BITRATE_MAX, -1);
}

#[test]
fn bitrate_from_raw_values() {
    assert_eq!(Bitrate::from_raw(-1000).unwrap(), Bitrate::Auto);
    assert_eq!(Bitrate::from_raw(-1).unwrap(), Bitrate::Max);
    assert_eq!(Bitrate::from_raw(24000).unwrap(), Bitrate::Bits(24000));
    assert_eq!(Bitrate::from_raw(0).unwrap(), Bitrate::Bits(0));
}

#[test]
fn bitrate_round_trip_on_values() {
    for b in [Bitrate::Auto, Bitrate::Max, Bitrate::Bits(6000), Bitrate::Bits(510000)] {
        assert_eq!(Bitrate::from_raw(b.raw()).unwrap(), b);
    }
    for raw in [-1000, -1, 0, 1, 12345, i32::MIN, i32::MAX] {
        assert_eq!(Bitrate::from_raw(raw).unwrap().raw(), raw);
    }
    // An explicit bitrate with the number of "max" reads back as "max".
    assert_eq!(Bitrate::from_raw(Bitrate::Bits(-1).raw()).unwrap(), Bitrate::Max);
}

#[test]
fn bandwidth_round_trip_on_values() {
    for v in [-1000, 1101, 1102, 1103, 1104, 1105] {
        assert_eq!(Bandwidth::from_int(v).unwrap().raw(), v);
    }
    for b in [
        Bandwidth::Auto,
        Bandwidth::Narrowband,
        Bandwidth::Mediumband,
        Bandwidth::Wideband,
        Bandwidth::Superwideband,
        Bandwidth::Fullband,
    ] {
        assert_eq!(Bandwidth::from_int(b.raw()), Some(b));
    }
}

#[test]
fn application_and_channels_numbers() {
    assert_eq!(Application::Voip.raw(), 2048);
    assert_eq!(Application::Audio.raw(), 2049);
    assert_eq!(Application::LowDelay.raw(), 2051);
    assert_eq!(Channels::Mono.raw(), 1);
    assert_eq!(Channels::Stereo.raw(), 2);
}
