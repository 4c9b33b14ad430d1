use std::cell::{Cell, RefCell};

use opus::{ErrorCode, Repacketizer};

#[test]
fn repacketizer_new_cases() {
    assert!(Repacketizer::new(|| Some(1u8)).is_ok());
    let err = Repacketizer::<u8>::new(|| None).unwrap_err();
    assert_eq!(err.code(), ErrorCode::AllocFail);
    assert_eq!(err.function(), "opus_repacketizer_create");
}

#[test]
fn repacketizer_state_calls() {
    let mut rp = Repacketizer::new(|| Some(5u16)).unwrap();
    let inits = Cell::new(0);
    let mut state = rp.begin(|h| {
        assert_eq!(h, 5);
        inits.set(inits.get() + 1);
        6
    });
    assert_eq!(inits.get(), 1);
    let p1 = [1u8, 2, 3];
    assert!(state
        .cat(&p1, |h, p, len| {
            // The state that `begin` gave back is handed on.
            assert_eq!(h, 6);
            assert_eq!(p, &[1, 2, 3]);
            assert_eq!(len, 3);
            (7, 0)
        })
        .is_ok());
    let err = state
        .cat(&p1, |h, _, _| {
            assert_eq!(h, 7);
            (8, -4)
        })
        .unwrap_err();
    assert_eq!(err.function(), "opus_repacketizer_cat");
    assert_eq!(
        state.get_nb_frames(|h| {
            assert_eq!(*h, 8);
            2
        }),
        2
    );
    let mut buf = [0u8; 10];
    let n = state
        .out(&mut buf, |h, data, maxlen| {
            assert_eq!(*h, 8);
            assert_eq!(maxlen, 10);
            data[0] = 7;
            4
        })
        .unwrap();
    assert_eq!(n, 4);
    assert_eq!(buf[0], 7);
    let n = state
        .out_range(0, 1, &mut buf, |_, begin, end, _, maxlen| {
            assert_eq!((begin, end, maxlen), (0, 1, 10));
            2
        })
        .unwrap();
    assert_eq!(n, 2);
    let err = state.out_range(1, 5, &mut buf, |_, _, _, _, _| -1).unwrap_err();
    assert_eq!(err.function(), "opus_repacketizer_out_range");
    assert_eq!(err.code(), ErrorCode::BadArg);
    assert_eq!(state.out(&mut buf, |_, _, _| -2).unwrap_err().function(), "opus_repacketizer_out");
}

#[test]
fn repacketizer_cat_move() {
    let mut rp = Repacketizer::new(|| Some(0u8)).unwrap();
    let state = rp.begin(|h| h);
    let p = [9u8];
    let state = state.cat_move(&p, |h, _, len| (h + 1, if len == 1 { 0 } else { -1 })).unwrap();
    let mut state = state;
    assert_eq!(state.get_nb_frames(|h| *h as i32), 1);
    let err = state.cat_move(&p, |h, _, _| (h, -4)).unwrap_err();
    assert_eq!(err.code(), ErrorCode::InvalidPacket);
    assert_eq!(err.function(), "opus_repacketizer_cat");
}

/// A stand-in for libopus's repacketizer state: the packets it holds.
type Held = RefCell<Vec<Vec<u8>>>;

#[test]
fn combine_empties_the_state_then_adds_packets_in_order() {
    let held: Held = RefCell::new(vec![vec![0xee]]);
    let mut rp = Repacketizer::new(|| Some(())).unwrap();
    let p1 = [0xf8u8, 0xaa];
    let p2 = [0xf8u8, 0xbb];
    let mut out = [0u8; 10];
    let cat = |h: (), p: &[u8], len: i32| {
        assert_eq!(p.len() as i32, len);
        held.borrow_mut().push(p.to_vec());
        (h, 0)
    };
    let n = rp
        .combine(
            &[&p1, &p2],
            &mut out,
            |h| {
                held.borrow_mut().clear();
                h
            },
            vec![cat; 2],
            |_, data, maxlen| {
                assert_eq!(maxlen, 10);
                let packets = held.borrow();
                // Both packets, in order, and nothing from before `init`.
                assert_eq!(*packets, vec![vec![0xf8, 0xaa], vec![0xf8, 0xbb]]);
                data[..3].copy_from_slice(&[0xf9, 0xaa, 0xbb]);
                3
            },
        )
        .unwrap();
    assert_eq!(n, 3);
    assert_eq!(&out[..3], &[0xf9, 0xaa, 0xbb]);
}

#[test]
fn combine_hands_each_state_to_the_next_call() {
    let mut rp = Repacketizer::new(|| Some(0u32)).unwrap();
    let p1 = [1u8];
    let p2 = [2u8, 2];
    let p3 = [3u8, 3, 3];
    let mut out = [0u8; 16];
    let cat = |h: u32, p: &[u8], _: i32| (h * 10 + p.len() as u32, 0);
    let n = rp
        .combine(&[&p1, &p2, &p3], &mut out, |_| 9, vec![cat; 3], |h, _, _| {
            // init gave 9, then the packets of lengths 1, 2 and 3 were added in order.
            assert_eq!(*h, 9123);
            6
        })
        .unwrap();
    assert_eq!(n, 6);
    // The repacketizer keeps the state the last addition gave back.
    let mut state = rp.begin(|h| {
        assert_eq!(h, 9123);
        h
    });
    assert_eq!(state.get_nb_frames(|_| 0), 0);
}

#[test]
fn combine_stops_at_first_failure() {
    let mut rp = Repacketizer::new(|| Some(())).unwrap();
    let p1 = [0xf8u8, 0xaa];
    let p2 = [0xfcu8, 0xbb];
    let p3 = [3u8, 3, 3];
    let mut out = [0u8; 10];
    let cat = |h: (), p: &[u8], _: i32| {
        assert!(p.len() < 3, "no packet after the failing one is added");
        (h, if p[0] == 0xfc { -4 } else { 0 })
    };
    let err = rp
        .combine(&[&p1, &p2, &p3], &mut out, |h| h, vec![cat; 3], |_, _, _| panic!("no packet is built after a failure"))
        .unwrap_err();
    assert_eq!(err.code(), ErrorCode::InvalidPacket);
    assert_eq!(err.function(), "opus_repacketizer_cat");
    assert_eq!(out, [0u8; 10]);
}

#[test]
fn combine_of_nothing_builds_from_empty_state() {
    let mut rp = Repacketizer::new(|| Some(())).unwrap();
    let mut out = [0u8; 10];
    let cats: Vec<fn((), &[u8], i32) -> ((), i32)> = Vec::new();
    let err = rp.combine(&[], &mut out, |h| h, cats, |_, _, _| -1).unwrap_err();
    assert_eq!(err.function(), "opus_repacketizer_out");
    assert_eq!(err.code(), ErrorCode::BadArg);
    assert_eq!(out, [0u8; 10]);
}

/// A stand-in for `opus_repacketizer_out` on the frames of code 0 packets
/// held in `held`: two frames of one size give a code 1 packet, two of
/// different sizes (under 252 bytes) a code 2 packet.
fn out_two_frames(held: &Held, data: &mut [u8]) -> i32 {
    let packets = held.borrow();
    assert_eq!(packets.len(), 2);
    let toc = packets[0][0] & 0xfc;
    let (f1, f2) = (&packets[0][1..], &packets[1][1..]);
    let mut bytes = Vec::new();
    if f1.len() == f2.len() {
        bytes.push(toc | 1);
    } else {
        bytes.push(toc | 2);
        bytes.push(f1.len() as u8);
    }
    bytes.extend_from_slice(f1);
    bytes.extend_from_slice(f2);
    data[..bytes.len()].copy_from_slice(&bytes);
    bytes.len() as i32
}

#[test]
fn combine_twice_uses_only_the_packets_of_each_call() {
    let held: Held = RefCell::new(Vec::new());
    let mut rp = Repacketizer::new(|| Some(())).unwrap();
    let mut out = [0u8; 10];
    let init = |h: ()| {
        held.borrow_mut().clear();
        h
    };
    let cat = |h: (), p: &[u8], _: i32| {
        held.borrow_mut().push(p.to_vec());
        (h, 0)
    };
    let first: [&[u8]; 2] = [&[0xf8, 0xaa], &[0xf8, 0xbb]];
    let n = rp.combine(&first, &mut out, init, vec![cat; 2], |_, data, _| out_two_frames(&held, data)).unwrap();
    assert_eq!(n, 3);
    assert_eq!(&out[..3], &[0xf9, 0xaa, 0xbb]);
    let second: [&[u8]; 2] = [&[0xf8, 0xaa], &[0xf8, 0xbb, 0xcc]];
    let n = rp.combine(&second, &mut out, init, vec![cat; 2], |_, data, _| out_two_frames(&held, data)).unwrap();
    assert_eq!(n, 5);
    assert_eq!(&out[..5], &[0xfa, 0x01, 0xaa, 0xbb, 0xcc]);
}
