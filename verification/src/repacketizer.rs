//! The repacketizer, used to merge together or split apart multiple Opus
//! packets.

use vstd::prelude::*;
use std::marker::PhantomData;
use crate::defines::OPUS_ALLOC_FAIL;
use crate::error::{
    check_count, check_done, check_len, counted, done, failure, len, view_result, Error, ErrorView,
    Result,
};

verus! {

/// A repacketizer used to merge together or split apart multiple Opus packets.
///
/// `H` is the handle of the libopus repacketizer state; every call into
/// libopus is made by a closure that receives it. A call that changes the
/// state (`opus_repacketizer_init`, `opus_repacketizer_cat`) takes the handle
/// and gives back the handle of the state it left, which the next call is
/// handed.
#[derive(Debug)]
pub struct Repacketizer<H> {
    handle: H,
}

/// An in-progress repacketization.
///
/// libopus keeps pointers to the packets added by `cat` until the next
/// `begin`, so they are borrowed for `'buf`.
#[derive(Debug)]
pub struct RepacketizerState<'rp, 'buf, H> {
    rp: &'rp mut Repacketizer<H>,
    phantom: PhantomData<&'buf [u8]>,
}

/// Whether `codes` are what the calls `cats` returned, in order, for the
/// first packets of `input`, up to the first that failed or to the last
/// packet: the packet at index `i` is added by `cats[i]`, which is handed the
/// state `states[i]` and gives back `states[i + 1]`.
pub open spec fn catted<H, C: FnOnce(H, &[u8], i32) -> (H, i32)>(
    cats: Seq<C>,
    states: Seq<H>,
    input: Seq<&[u8]>,
    codes: Seq<i32>,
) -> bool {
    &&& codes.len() <= input.len()
    &&& states.len() == codes.len() + 1
    &&& forall|i: int|
        0 <= i < codes.len() ==> #[trigger] cats[i].ensures(
            (states[i], input[i], input[i]@.len() as i32),
            (states[i + 1], codes[i]),
        )
    &&& forall|i: int| 0 <= i < codes.len() - 1 ==> #[trigger] codes[i] >= 0
    &&& codes.len() < input.len() ==> codes.len() > 0 && codes.last() < 0
}

impl<H: Copy> Repacketizer<H> {
    /// The handle of the libopus repacketizer state.
    pub closed spec fn handle(&self) -> &H {
        &self.handle
    }

    /// Create and initialize a repacketizer.
    ///
    /// `create` is `opus_repacketizer_create`: it gives the new state, or
    /// `None` when it could not allocate one.
    pub fn new(create: impl FnOnce() -> Option<H>) -> (r: Result<Repacketizer<H>>)
        requires
            create.requires(()),
        ensures
            exists|reply: Option<H>|
                #[trigger] create.ensures((), reply) && match reply {
                    Some(handle) => r matches Ok(rp) && *rp.handle() == handle,
                    None => view_result(r) == Err::<Repacketizer<H>, ErrorView>(
                        failure("opus_repacketizer_create"@, OPUS_ALLOC_FAIL as int),
                    ),
                },
    {
        match create() {
            Some(handle) => Ok(Repacketizer { handle }),
            None => Err(Error::from_code("opus_repacketizer_create", OPUS_ALLOC_FAIL)),
        }
    }

    /// Shortcut to combine several smaller packets into one larger one.
    ///
    /// The state is first emptied by `init` (`opus_repacketizer_init`); then
    /// the packets of `input` are added in order, the packet at index `i` by
    /// `cats[i]` (`opus_repacketizer_cat`), each handed the state that the
    /// call before it gave back. The first addition that fails ends the
    /// combination, with `output` left as it was; otherwise `out`
    /// (`opus_repacketizer_out`) builds the packet into `output` from the
    /// state the last addition gave back.
    pub fn combine<I, C, O>(&mut self, input: &[&[u8]], output: &mut [u8], init: I, cats: Vec<C>, out: O) -> (r:
        Result<usize>) where
        I: FnOnce(H) -> H,
        C: FnOnce(H, &[u8], i32) -> (H, i32),
        O: FnOnce(&H, &mut [u8], i32) -> i32,
        requires
            cats@.len() == input@.len(),
            forall|i: int| 0 <= i < input@.len() ==> #[trigger] input@[i]@.len() <= i32::MAX,
            old(output)@.len() <= i32::MAX,
            forall|state: H| init.requires((state,)),
            forall|i: int, state: H, packet: &[u8], len: i32|
                0 <= i < cats@.len() ==> #[trigger] cats@[i].requires((state, packet, len)),
            forall|h: &H, data: &mut [u8], maxlen: i32| out.requires((h, data, maxlen)),
        ensures
            exists|states: Seq<H>, codes: Seq<i32>|
                #[trigger] catted(cats@, states, input@, codes) && init.ensures((*old(self).handle(),), states[0])
                    && *final(self).handle() == states.last() && if codes.len() > 0 && codes.last() < 0 {
                    &&& view_result(r) == Err::<usize, ErrorView>(
                        failure("opus_repacketizer_cat"@, codes.last() as int),
                    )
                    &&& final(output)@ == old(output)@
                } else {
                    exists|data: &mut [u8], code: i32|
                        #[trigger] out.ensures((&states.last(), data, old(output)@.len() as i32), code)
                            && data@ == old(output)@ && final(output)@ == final(data)@ && view_result(r)
                            == counted("opus_repacketizer_out"@, code)
                },
    {
        let ghost all = cats@;
        let mut remaining = cats;
        let ghost start = self.handle;
        self.handle = init(self.handle);
        let ghost mut states: Seq<H> = seq![self.handle];
        let ghost mut codes: Seq<i32> = Seq::empty();
        let mut i: usize = 0;
        while i < input.len()
            invariant
                i <= input@.len(),
                all.len() == input@.len(),
                all == cats@,
                remaining@ == all.skip(i as int),
                codes.len() == i,
                states.len() == i + 1,
                states.last() == self.handle,
                init.ensures((start,), states[0]),
                start == *old(self).handle(),
                output@ == old(output)@,
                forall|j: int| 0 <= j < input@.len() ==> #[trigger] input@[j]@.len() <= i32::MAX,
                forall|j: int, state: H, packet: &[u8], len: i32|
                    0 <= j < all.len() ==> #[trigger] all[j].requires((state, packet, len)),
                forall|j: int|
                    0 <= j < i ==> #[trigger] all[j].ensures(
                        (states[j], input@[j], input@[j]@.len() as i32),
                        (states[j + 1], codes[j]),
                    ),
                forall|j: int| 0 <= j < i ==> #[trigger] codes[j] >= 0,
            decreases input@.len() - i,
        {
            let packet = input[i];
            let cat = remaining.remove(0);
            assert(cat == all[i as int]);
            assert(remaining@ =~= all.skip(i + 1));
            let (state, code) = cat(self.handle, packet, len(packet));
            self.handle = state;
            proof {
                codes = codes.push(code);
                states = states.push(state);
            }
            if code < 0 {
                assert(catted(cats@, states, input@, codes));
                return Err(Error::from_code("opus_repacketizer_cat", code));
            }
            i = i + 1;
        }
        assert(catted(cats@, states, input@, codes));
        let maxlen = len(output);
        proof {
            assert(maxlen == old(output)@.len() as i32);
        }
        let result = out(&self.handle, output, maxlen);
        check_count("opus_repacketizer_out", result)
    }

    /// Begin using the repacketizer.
    ///
    /// `init` is `opus_repacketizer_init`, which empties the state.
    pub fn begin<'rp, 'buf>(&'rp mut self, init: impl FnOnce(H) -> H) -> (r: RepacketizerState<'rp, 'buf, H>)
        requires
            init.requires((*old(self).handle(),)),
        ensures
            init.ensures((*old(self).handle(),), *r.handle()),
    {
        self.handle = init(self.handle);
        RepacketizerState { rp: self, phantom: PhantomData }
    }
}

impl<'rp, 'buf, H: Copy> RepacketizerState<'rp, 'buf, H> {
    /// The handle of the libopus repacketizer state.
    pub closed spec fn handle(&self) -> &H {
        &self.rp.handle
    }

    /// Add a packet to the current repacketizer state.
    ///
    /// `cat` is `opus_repacketizer_cat`: it takes the state, the packet and
    /// its length.
    ///
    /// `cat` takes the state and gives back the state it left with its
    /// return value.
    pub fn cat(&mut self, packet: &'buf [u8], cat: impl FnOnce(H, &[u8], i32) -> (H, i32)) -> (r: Result<()>)
        requires
            packet@.len() <= i32::MAX,
            cat.requires((*old(self).handle(), packet, packet@.len() as i32)),
        ensures
            exists|code: i32|
                #[trigger] cat.ensures(
                    (*old(self).handle(), packet, packet@.len() as i32),
                    (*final(self).handle(), code),
                ) && view_result(r) == done("opus_repacketizer_cat"@, code),
    {
        let before = self.rp.handle;
        let (state, code) = cat(before, packet, len(packet));
        self.rp.handle = state;
        assert(before == *old(self).handle());
        assert(state == *self.handle());
        check_done("opus_repacketizer_cat", code)
    }

    /// Add a packet to the current repacketizer state, moving it.
    pub fn cat_move<'b2>(self, packet: &'b2 [u8], cat: impl FnOnce(H, &[u8], i32) -> (H, i32)) -> (r: Result<
        RepacketizerState<'rp, 'b2, H>,
    >) where 'buf: 'b2
        requires
            packet@.len() <= i32::MAX,
            cat.requires((*self.handle(), packet, packet@.len() as i32)),
        ensures
            exists|reply: (H, i32)|
                #[trigger] cat.ensures((*self.handle(), packet, packet@.len() as i32), reply) && if reply.1 < 0 {
                    view_result(r) == Err::<RepacketizerState<'rp, 'b2, H>, ErrorView>(
                        failure("opus_repacketizer_cat"@, reply.1 as int),
                    )
                } else {
                    r matches Ok(state) && *state.handle() == reply.0
                },
    {
        let mut shorter: RepacketizerState<'rp, 'b2, H> = self;
        match shorter.cat(packet, cat) {
            Ok(()) => Ok(shorter),
            Err(e) => Err(e),
        }
    }

    /// Get the total number of frames contained in packet data submitted so
    /// far via `cat`.
    ///
    /// `call` is `opus_repacketizer_get_nb_frames`.
    pub fn get_nb_frames(&mut self, call: impl FnOnce(&H) -> i32) -> (r: usize)
        requires
            call.requires((old(self).handle(),)),
        ensures
            final(self).handle() == old(self).handle(),
            exists|count: i32| #[trigger] call.ensures((old(self).handle(),), count) && r == count as usize,
    {
        let count = call(&self.rp.handle);
        #[verifier::truncate]
        (count as usize)
    }

    /// Construct a new packet from data previously submitted via `cat`.
    ///
    /// All previously submitted frames are used.
    ///
    /// `out` is `opus_repacketizer_out`: it takes the state, the buffer and
    /// its length.
    pub fn out(&mut self, buffer: &mut [u8], out: impl FnOnce(&H, &mut [u8], i32) -> i32) -> (r: Result<usize>)
        requires
            old(buffer)@.len() <= i32::MAX,
            forall|h: &H, data: &mut [u8], maxlen: i32| out.requires((h, data, maxlen)),
        ensures
            final(self).handle() == old(self).handle(),
            exists|data: &mut [u8], code: i32|
                #[trigger] out.ensures((old(self).handle(), data, old(buffer)@.len() as i32), code)
                    && data@ == old(buffer)@ && final(buffer)@ == final(data)@ && view_result(r)
                    == counted("opus_repacketizer_out"@, code),
    {
        let maxlen = len(buffer);
        proof {
            assert(old(self).handle() == &self.rp.handle);
            assert(maxlen == old(buffer)@.len() as i32);
        }
        let result = out(&self.rp.handle, buffer, maxlen);
        check_count("opus_repacketizer_out", result)
    }

    /// Construct a new packet from data previously submitted via `cat`, with
    /// a manually specified subrange.
    ///
    /// The `end` index should not exceed the value of `get_nb_frames()`.
    ///
    /// `out_range` is `opus_repacketizer_out_range`: it takes the state, the
    /// first frame and the frame after the last, the buffer and its length.
    pub fn out_range(
        &mut self,
        begin: usize,
        end: usize,
        buffer: &mut [u8],
        out_range: impl FnOnce(&H, i32, i32, &mut [u8], i32) -> i32,
    ) -> (r: Result<usize>)
        requires
            begin <= i32::MAX,
            end <= i32::MAX,
            old(buffer)@.len() <= i32::MAX,
            forall|h: &H, b: i32, e: i32, data: &mut [u8], maxlen: i32| out_range.requires((h, b, e, data, maxlen)),
        ensures
            final(self).handle() == old(self).handle(),
            exists|data: &mut [u8], code: i32|
                #[trigger] out_range.ensures(
                    (old(self).handle(), begin as i32, end as i32, data, old(buffer)@.len() as i32),
                    code,
                ) && data@ == old(buffer)@ && final(buffer)@ == final(data)@ && view_result(r)
                    == counted("opus_repacketizer_out_range"@, code),
    {
        let first = check_len(begin);
        let last = check_len(end);
        let maxlen = len(buffer);
        proof {
            assert(old(self).handle() == &self.rp.handle);
            assert(first == begin as i32);
            assert(last == end as i32);
            assert(maxlen == old(buffer)@.len() as i32);
        }
        let result = out_range(&self.rp.handle, first, last, buffer, maxlen);
        check_count("opus_repacketizer_out_range", result)
    }
}

} // verus!
