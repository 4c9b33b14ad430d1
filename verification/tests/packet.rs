use opus::packet::{
    get_bandwidth, get_nb_channels, get_nb_frames, get_nb_samples, get_samples_per_frame, pad, parse,
    unpad, PacketLayout,
};
use opus::{Bandwidth, Channels, ErrorCode};

#[test]
fn packet_get_bandwidth_empty_and_decoded() {
    let err = get_bandwidth(&[], |_| panic!("not called on an empty packet")).unwrap_err();
    assert_eq!(err.code(), ErrorCode::BadArg);
    assert_eq!(err.function(), "opus_packet_get_bandwidth");
    assert_eq!(get_bandwidth(&[0x78], |_| 1105).unwrap(), Bandwidth::Fullband);
    assert_eq!(get_bandwidth(&[0x78], |_| -4).unwrap_err().code(), ErrorCode::InvalidPacket);
    assert_eq!(get_bandwidth(&[0x78], |_| 5).unwrap_err().code(), ErrorCode::BadArg);
}

#[test]
fn packet_get_nb_channels_cases() {
    assert_eq!(get_nb_channels(&[], |_| 1).unwrap_err().code(), ErrorCode::BadArg);
    assert_eq!(get_nb_channels(&[0], |_| 1).unwrap(), Channels::Mono);
    assert_eq!(get_nb_channels(&[4], |_| 2).unwrap(), Channels::Stereo);
    let err = get_nb_channels(&[4], |_| 3).unwrap_err();
    assert_eq!(err.code(), ErrorCode::BadArg);
    assert_eq!(err.function(), "opus_packet_get_nb_channels");
    assert_eq!(get_nb_channels(&[4], |_| -4).unwrap_err().code(), ErrorCode::InvalidPacket);
}

#[test]
fn packet_counts() {
    assert_eq!(
        get_nb_frames(&[1, 2, 3], |p, len| {
            assert_eq!(p, &[1, 2, 3]);
            assert_eq!(len, 3);
            2
        })
        .unwrap(),
        2
    );
    assert_eq!(get_nb_frames(&[], |_, _| -1).unwrap_err().function(), "opus_packet_get_nb_frames");
    assert_eq!(
        get_nb_samples(&[1, 2], 48000, |_, len, rate| {
            assert_eq!((len, rate), (2, 48000));
            1920
        })
        .unwrap(),
        1920
    );
    assert_eq!(get_nb_samples(&[1], 8000, |_, _, _| -4).unwrap_err().code(), ErrorCode::InvalidPacket);
    assert_eq!(get_samples_per_frame(&[], 48000, |_, _| 960).unwrap_err().code(), ErrorCode::BadArg);
    assert_eq!(
        get_samples_per_frame(&[8], 16000, |_, rate| {
            assert_eq!(rate, 16000);
            320
        })
        .unwrap(),
        320
    );
}

#[test]
fn parse_cuts_frames_out_of_the_packet() {
    let data = [0x03u8, 0x02, 10, 11, 20, 21, 22];
    let packet = parse(&data, |p, len| {
        assert_eq!(len, 7);
        assert_eq!(p.len(), 7);
        (2, PacketLayout { toc: 0x03, offsets: vec![2, 4], sizes: vec![2, 3], payload_offset: 2 })
    })
    .unwrap();
    assert_eq!(packet.toc, 0x03);
    assert_eq!(packet.frames, vec![&data[2..4], &data[4..7]]);
    assert_eq!(packet.payload_offset, 2);
}

#[test]
fn parse_errors() {
    let data = [0u8; 4];
    let err = parse(&data, |_, _| (-4, PacketLayout { toc: 0, offsets: vec![], sizes: vec![], payload_offset: 0 }))
        .unwrap_err();
    assert_eq!(err.code(), ErrorCode::InvalidPacket);
    assert_eq!(err.function(), "opus_packet_parse");
    let err = parse(&data, |_, _| (1, PacketLayout { toc: 0, offsets: vec![3], sizes: vec![2], payload_offset: 1 }))
        .unwrap_err();
    assert_eq!(err.code(), ErrorCode::InternalError);
    let err = parse(&data, |_, _| (2, PacketLayout { toc: 0, offsets: vec![1], sizes: vec![1], payload_offset: 1 }))
        .unwrap_err();
    assert_eq!(err.code(), ErrorCode::InternalError);
    let empty = parse(&data, |_, _| (0, PacketLayout { toc: 9, offsets: vec![], sizes: vec![], payload_offset: 1 }))
        .unwrap();
    assert!(empty.frames.is_empty());
    assert_eq!(empty.toc, 9);
}

#[test]
fn pad_and_unpad_pass_lengths() {
    let mut buf = [1u8, 2, 3, 0, 0, 0];
    let n = pad(&mut buf, 3, |data, len, new_len| {
        assert_eq!(&data[..3], &[1, 2, 3]);
        assert_eq!((len, new_len), (3, 6));
        data[3] = 9;
        0
    })
    .unwrap();
    assert_eq!(n, 0);
    assert_eq!(buf[3], 9);
    assert_eq!(pad(&mut buf, 7, |_, _, _| -1).unwrap_err().function(), "opus_packet_pad");
    let n = unpad(&mut buf, |_, len| {
        assert_eq!(len, 6);
        3
    })
    .unwrap();
    assert_eq!(n, 3);
    assert_eq!(unpad(&mut buf, |_, _| -4).unwrap_err().function(), "opus_packet_unpad");
}
