//! Analyze raw Opus packets.

use vstd::prelude::*;
use crate::codec::{Bandwidth, Channels};
use crate::defines::OPUS_INTERNAL_ERROR;
use crate::error::{
    bad_arg, check_count, check_len, counted, failure, len, reported, view_result, Error, ErrorView,
    Result,
};

verus! {

/// Get the bandwidth of an Opus packet.
///
/// `call` is `opus_packet_get_bandwidth`; it is not called on an empty
/// packet.
pub fn get_bandwidth(packet: &[u8], call: impl FnOnce(&[u8]) -> i32) -> (r: Result<Bandwidth>)
    requires
        call.requires((packet,)),
    ensures
        packet@.len() == 0 ==> view_result(r) == Err::<Bandwidth, ErrorView>(
            bad_arg("opus_packet_get_bandwidth"@),
        ),
        packet@.len() != 0 ==> exists|code: i32|
            #[trigger] call.ensures((packet,), code) && view_result(r) == reported(
                "opus_packet_get_bandwidth"@,
                code,
                Bandwidth::decoded(code as int, "opus_packet_get_bandwidth"@),
            ),
{
    if packet.len() == 0 {
        return Err(Error::bad_arg("opus_packet_get_bandwidth"));
    }
    let bandwidth = call(packet);
    if bandwidth < 0 {
        return Err(Error::from_code("opus_packet_get_bandwidth", bandwidth));
    }
    Bandwidth::decode(bandwidth, "opus_packet_get_bandwidth")
}

/// The channel setting that a number of channels reported by `what` stands
/// for; any other number is reported as an invalid argument of `what`.
pub open spec fn channels_of(count: int, what: Seq<char>) -> std::result::Result<Channels, ErrorView> {
    match Channels::of(count) {
        Some(channels) => Ok(channels),
        None => Err(bad_arg(what)),
    }
}

/// Get the number of channels from an Opus packet.
///
/// `call` is `opus_packet_get_nb_channels`; it is not called on an empty
/// packet.
pub fn get_nb_channels(packet: &[u8], call: impl FnOnce(&[u8]) -> i32) -> (r: Result<Channels>)
    requires
        call.requires((packet,)),
    ensures
        packet@.len() == 0 ==> view_result(r) == Err::<Channels, ErrorView>(
            bad_arg("opus_packet_get_nb_channels"@),
        ),
        packet@.len() != 0 ==> exists|code: i32|
            #[trigger] call.ensures((packet,), code) && view_result(r) == reported(
                "opus_packet_get_nb_channels"@,
                code,
                channels_of(code as int, "opus_packet_get_nb_channels"@),
            ),
{
    if packet.len() == 0 {
        return Err(Error::bad_arg("opus_packet_get_nb_channels"));
    }
    let channels = call(packet);
    if channels < 0 {
        return Err(Error::from_code("opus_packet_get_nb_channels", channels));
    }
    match channels {
        1 => Ok(Channels::Mono),
        2 => Ok(Channels::Stereo),
        _ => Err(Error::bad_arg("opus_packet_get_nb_channels")),
    }
}

/// Get the number of frames in an Opus packet.
///
/// `call` is `opus_packet_get_nb_frames`: it takes the packet and its
/// length.
pub fn get_nb_frames(packet: &[u8], call: impl FnOnce(&[u8], i32) -> i32) -> (r: Result<usize>)
    requires
        packet@.len() <= i32::MAX,
        call.requires((packet, packet@.len() as i32)),
    ensures
        exists|code: i32|
            #[trigger] call.ensures((packet, packet@.len() as i32), code) && view_result(r)
                == counted("opus_packet_get_nb_frames"@, code),
{
    let frames = call(packet, len(packet));
    check_count("opus_packet_get_nb_frames", frames)
}

/// Get the number of samples of an Opus packet.
///
/// `call` is `opus_packet_get_nb_samples`: it takes the packet, its length
/// and the sampling rate.
pub fn get_nb_samples(packet: &[u8], sample_rate: u32, call: impl FnOnce(&[u8], i32, i32) -> i32) -> (r:
    Result<usize>)
    requires
        packet@.len() <= i32::MAX,
        call.requires((packet, packet@.len() as i32, sample_rate as i32)),
    ensures
        exists|code: i32|
            #[trigger] call.ensures((packet, packet@.len() as i32, sample_rate as i32), code)
                && view_result(r) == counted("opus_packet_get_nb_samples"@, code),
{
    let frames = call(packet, len(packet), sample_rate as i32);
    check_count("opus_packet_get_nb_samples", frames)
}

/// Get the number of samples per frame from an Opus packet.
///
/// `call` is `opus_packet_get_samples_per_frame`: it takes the packet and
/// the sampling rate; it is not called on an empty packet.
pub fn get_samples_per_frame(packet: &[u8], sample_rate: u32, call: impl FnOnce(&[u8], i32) -> i32) -> (r:
    Result<usize>)
    requires
        call.requires((packet, sample_rate as i32)),
    ensures
        packet@.len() == 0 ==> view_result(r) == Err::<usize, ErrorView>(
            bad_arg("opus_packet_get_samples_per_frame"@),
        ),
        packet@.len() != 0 ==> exists|code: i32|
            #[trigger] call.ensures((packet, sample_rate as i32), code) && view_result(r)
                == counted("opus_packet_get_samples_per_frame"@, code),
{
    if packet.len() == 0 {
        return Err(Error::bad_arg("opus_packet_get_samples_per_frame"));
    }
    let samples = call(packet, sample_rate as i32);
    check_count("opus_packet_get_samples_per_frame", samples)
}

/// Pad a given Opus packet to a larger size.
///
/// The packet will be extended from the first `prev_len` bytes of the
/// buffer into the rest of the available space.
///
/// `call` is `opus_packet_pad`: it takes the buffer, the length of the
/// packet in it and the length of the buffer.
pub fn pad(packet: &mut [u8], prev_len: usize, call: impl FnOnce(&mut [u8], i32, i32) -> i32) -> (r: Result<
    usize,
>)
    requires
        prev_len <= i32::MAX,
        old(packet)@.len() <= i32::MAX,
        forall|data: &mut [u8], len: i32, new_len: i32| call.requires((data, len, new_len)),
    ensures
        exists|data: &mut [u8], code: i32|
            #[trigger] call.ensures((data, prev_len as i32, old(packet)@.len() as i32), code)
                && data@ == old(packet)@ && final(packet)@ == final(data)@ && view_result(r) == counted("opus_packet_pad"@, code),
{
    let len_before = check_len(prev_len);
    let new_len = len(packet);
    proof {
        assert(len_before == prev_len as i32);
        assert(new_len == old(packet)@.len() as i32);
    }
    let result = call(packet, len_before, new_len);
    check_count("opus_packet_pad", result)
}

/// Remove all padding from a given Opus packet and rewrite the TOC sequence
/// to minimize space usage.
///
/// `call` is `opus_packet_unpad`: it takes the buffer and its length.
pub fn unpad(packet: &mut [u8], call: impl FnOnce(&mut [u8], i32) -> i32) -> (r: Result<usize>)
    requires
        old(packet)@.len() <= i32::MAX,
        forall|data: &mut [u8], len: i32| call.requires((data, len)),
    ensures
        exists|data: &mut [u8], code: i32|
            #[trigger] call.ensures((data, old(packet)@.len() as i32), code) && data@ == old(packet)@
                && final(packet)@ == final(data)@ && view_result(r)
                == counted("opus_packet_unpad"@, code),
{
    let packet_len = len(packet);
    proof {
        assert(packet_len == old(packet)@.len() as i32);
    }
    let result = call(packet, packet_len);
    check_count("opus_packet_unpad", result)
}

/// A parsed Opus packet, retuned from `parse`.
#[derive(Debug)]
pub struct Packet<'a> {
    /// The TOC byte of the packet.
    pub toc: u8,
    /// The frames contained in the packet.
    pub frames: Vec<&'a [u8]>,
    /// The offset into the packet at which the payload is located.
    pub payload_offset: usize,
}

/// What `opus_packet_parse` reports besides its return value, with the start
/// of each frame given as its offset into the packet.
#[derive(Debug)]
pub struct PacketLayout {
    /// The TOC byte of the packet.
    pub toc: u8,
    /// Where each frame starts in the packet.
    pub offsets: Vec<usize>,
    /// The length of each frame.
    pub sizes: Vec<i16>,
    /// The offset into the packet at which the payload is located.
    pub payload_offset: i32,
}

/// Every layout whose frames lie within the packet, empty frames included,
/// is accepted by `parse`, and only those: `layout_fits` holds exactly when
/// each of the `count` reported frames has a size of 0 or more and ends
/// within the packet.
pub proof fn empty_frames_fit(layout: PacketLayout, count: int, len: int)
    requires
        0 <= count,
    ensures
        layout_fits(layout, count, len) <==> {
            &&& count <= layout.offsets@.len()
            &&& count <= layout.sizes@.len()
            &&& forall|i: int|
                0 <= i < count ==> 0 <= #[trigger] layout.sizes@[i] && layout.offsets@[i] + layout.sizes@[i] <= len
        },
{
    if count <= layout.offsets@.len() && count <= layout.sizes@.len() && forall|i: int|
        0 <= i < count ==> 0 <= #[trigger] layout.sizes@[i] && layout.offsets@[i] + layout.sizes@[i] <= len {
        assert forall|i: int| 0 <= i < count implies #[trigger] frame_fits(layout, i, len) by {
            assert(0 <= layout.sizes@[i]);
        }
    }
    if layout_fits(layout, count, len) {
        assert forall|i: int| 0 <= i < count implies 0 <= #[trigger] layout.sizes@[i] && layout.offsets@[i]
            + layout.sizes@[i] <= len by {
            assert(frame_fits(layout, i, len));
        }
    }
}

/// Whether frame `i` of `layout` lies within a packet of `len` bytes.
pub open spec fn frame_fits(layout: PacketLayout, i: int, len: int) -> bool {
    &&& 0 <= layout.sizes@[i]
    &&& layout.offsets@[i] + layout.sizes@[i] <= len
}

/// Whether the first `count` frames of `layout` lie within a packet of `len`
/// bytes.
pub open spec fn layout_fits(layout: PacketLayout, count: int, len: int) -> bool {
    &&& count <= layout.offsets@.len()
    &&& count <= layout.sizes@.len()
    &&& forall|i: int| 0 <= i < count ==> #[trigger] frame_fits(layout, i, len)
}

/// Whether `p` holds the `count` frames of `layout` cut out of `packet`.
pub open spec fn parsed_from(p: Packet, packet: Seq<u8>, count: int, layout: PacketLayout) -> bool {
    &&& p.toc == layout.toc
    &&& p.frames@.len() == count
    &&& forall|i: int|
        0 <= i < count ==> #[trigger] p.frames@[i]@ == packet.subrange(
            layout.offsets@[i] as int,
            layout.offsets@[i] + layout.sizes@[i],
        )
    &&& p.payload_offset == layout.payload_offset as usize
}

/// Parse an Opus packet into one or more frames.
///
/// `call` is `opus_packet_parse`: it takes the packet and its length, and
/// gives the number of frames, or an error, and where it found them. A layout
/// with a frame outside the packet is reported as an internal error.
pub fn parse<'a>(packet: &'a [u8], call: impl FnOnce(&[u8], i32) -> (i32, PacketLayout)) -> (r: Result<Packet<'a>>)
    requires
        packet@.len() <= i32::MAX,
        call.requires((packet, packet@.len() as i32)),
    ensures
        exists|reply: (i32, PacketLayout)|
            #[trigger] call.ensures((packet, packet@.len() as i32), reply) && if reply.0 < 0 {
                view_result(r) == Err::<Packet, ErrorView>(failure("opus_packet_parse"@, reply.0 as int))
            } else if !layout_fits(reply.1, reply.0 as int, packet@.len() as int) {
                view_result(r) == Err::<Packet, ErrorView>(
                    failure("opus_packet_parse"@, OPUS_INTERNAL_ERROR as int),
                )
            } else {
                r matches Ok(p) && parsed_from(p, packet@, reply.0 as int, reply.1)
            },
        exists|reply: (i32, PacketLayout)|
            #[trigger] call.ensures((packet, packet@.len() as i32), reply) && ((0 <= reply.0
                <= reply.1.offsets@.len() && reply.0 <= reply.1.sizes@.len() && forall|i: int|
                0 <= i < reply.0 ==> 0 <= #[trigger] reply.1.sizes@[i] && reply.1.offsets@[i]
                    + reply.1.sizes@[i] <= packet@.len()) ==> (r matches Ok(p) && p.toc == reply.1.toc && p.frames@.len() == reply.0 && forall|i: int|
                0 <= i < reply.0 ==> #[trigger] p.frames@[i]@ == packet@.subrange(
                    reply.1.offsets@[i] as int,
                    reply.1.offsets@[i] + reply.1.sizes@[i],
                ))),
{
    let (num_frames, layout) = call(packet, len(packet));
    if num_frames < 0 {
        return Err(Error::from_code("opus_packet_parse", num_frames));
    }
    let count = num_frames as usize;
    if count > layout.offsets.len() || count > layout.sizes.len() {
        return Err(Error::from_code("opus_packet_parse", OPUS_INTERNAL_ERROR));
    }
    let mut frames: Vec<&'a [u8]> = Vec::new();
    let mut i: usize = 0;
    while i < count
        invariant
            0 <= i <= count,
            count == num_frames as int,
            call.ensures((packet, packet@.len() as i32), (num_frames, layout)),
            count <= layout.offsets@.len(),
            count <= layout.sizes@.len(),
            frames@.len() == i,
            forall|j: int| 0 <= j < i ==> #[trigger] frame_fits(layout, j, packet@.len() as int),
            forall|j: int|
                0 <= j < i ==> #[trigger] frames@[j]@ == packet@.subrange(
                    layout.offsets@[j] as int,
                    layout.offsets@[j] + layout.sizes@[j],
                ),
        decreases count - i,
    {
        let offset = layout.offsets[i];
        let size = layout.sizes[i];
        if size < 0 || offset > packet.len() || size as usize > packet.len() - offset {
            assert(!frame_fits(layout, i as int, packet@.len() as int));
            return Err(Error::from_code("opus_packet_parse", OPUS_INTERNAL_ERROR));
        }
        frames.push(vstd::slice::slice_subrange(packet, offset, offset + size as usize));
        i = i + 1;
    }
    Ok(Packet { toc: layout.toc, frames, payload_offset: #[verifier::truncate] (layout.payload_offset as usize) })
}

} // verus!
