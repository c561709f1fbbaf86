//! Reassembly of COBS frames from the USB byte stream: bytes accumulate until
//! the `0x00` terminator, and an over-long frame is dropped.
use vstd::prelude::*;
use crate::host_proto::MAX_FRAME_BYTES;

verus! {

/// Accumulates USB bytes into `0x00`-terminated frames of at most
/// [`MAX_FRAME_BYTES`] bytes.
pub struct UsbFrameAssembler {
    buf: [u8; MAX_FRAME_BYTES],
    pos: usize,
}

/// The bytes pending after feeding one more byte, and the completed frame if
/// the byte ended one. A byte arriving while the buffer is full is dropped
/// and the partial frame discarded.
pub open spec fn feed_spec(pending: Seq<u8>, b: u8) -> (Seq<u8>, Option<Seq<u8>>) {
    if pending.len() < MAX_FRAME_BYTES {
        let next = pending.push(b);
        if b == 0 {
            (Seq::empty(), Some(next))
        } else {
            (next, None)
        }
    } else {
        (Seq::empty(), None)
    }
}

/// The bytes pending and the frames completed after feeding `bytes` in order.
pub open spec fn feed_all(pending: Seq<u8>, bytes: Seq<u8>) -> (Seq<u8>, Seq<Seq<u8>>)
    decreases bytes.len(),
{
    if bytes.len() == 0 {
        (pending, Seq::empty())
    } else {
        let (next, done) = feed_spec(pending, bytes[0]);
        let (rest_pending, rest_frames) = feed_all(next, bytes.skip(1));
        (rest_pending, match done {
            Some(f) => seq![f] + rest_frames,
            None => rest_frames,
        })
    }
}

proof fn lemma_feed_completes(pending: Seq<u8>, rest: Seq<u8>)
    requires
        rest.len() >= 1,
        pending.len() + rest.len() <= MAX_FRAME_BYTES,
        rest.last() == 0,
        forall|i: int| 0 <= i < rest.len() - 1 ==> rest[i] != 0,
    ensures
        feed_all(pending, rest) == (Seq::<u8>::empty(), seq![pending + rest]),
    decreases rest.len(),
{
    let next = pending.push(rest[0]);
    if rest.len() == 1 {
        assert(pending + rest =~= next);
        assert(rest.skip(1) =~= Seq::<u8>::empty());
        assert(feed_all(Seq::<u8>::empty(), rest.skip(1)) == (Seq::<u8>::empty(), Seq::<Seq<u8>>::empty()));
        assert(seq![next] + Seq::<Seq<u8>>::empty() =~= seq![next]);
    } else {
        assert(rest[0] != 0);
        let tail = rest.skip(1);
        assert(tail.last() == rest.last());
        assert forall|i: int| 0 <= i < tail.len() - 1 implies tail[i] != 0 by {
            assert(tail[i] == rest[i + 1]);
        }
        lemma_feed_completes(next, tail);
        assert(next + tail =~= pending + rest);
    }
}

/// Feeding a whole frame (at most [`MAX_FRAME_BYTES`] bytes, ending in its
/// only `0x00`) into an empty assembler gives back exactly that frame, and
/// leaves nothing pending.
pub proof fn lemma_frame_reassembled(frame: Seq<u8>)
    requires
        1 <= frame.len() <= MAX_FRAME_BYTES,
        frame.last() == 0,
        forall|i: int| 0 <= i < frame.len() - 1 ==> frame[i] != 0,
    ensures
        feed_all(Seq::<u8>::empty(), frame) == (Seq::<u8>::empty(), seq![frame]),
{
    lemma_feed_completes(Seq::<u8>::empty(), frame);
    assert(Seq::<u8>::empty() + frame =~= frame);
}

impl UsbFrameAssembler {
    #[verifier::type_invariant]
    spec fn wf(self) -> bool {
        self.pos <= MAX_FRAME_BYTES
    }

    /// The bytes of the frame received so far.
    pub closed spec fn pending(self) -> Seq<u8> {
        self.buf@.take(self.pos as int)
    }

    /// An empty assembler.
    pub fn new() -> (a: Self)
        ensures
            a.pending() == Seq::<u8>::empty(),
    {
        let a = UsbFrameAssembler { buf: [0u8; MAX_FRAME_BYTES], pos: 0 };
        assert(a.pending() =~= Seq::<u8>::empty());
        a
    }

    /// Drop any partial frame (after a read error).
    pub fn reset(&mut self)
        ensures
            final(self).pending() == Seq::<u8>::empty(),
    {
        self.pos = 0;
        assert(self.pending() =~= Seq::<u8>::empty());
    }

    /// Feed one received byte; returns the complete frame (terminator
    /// included) when this byte is the `0x00` that ends it.
    pub fn push_byte(&mut self, b: u8) -> (frame: Option<Vec<u8>>)
        ensures
            (final(self).pending(), match frame {
                Some(f) => Some(f@),
                None => None::<Seq<u8>>,
            }) == feed_spec(old(self).pending(), b),
    {
        proof {
            use_type_invariant(&*self);
        }
        let ghost before = self.pending();
        if self.pos < MAX_FRAME_BYTES {
            let pos = self.pos;
            self.buf[pos] = b;
            self.pos = pos + 1;
            assert(self.pending() =~= before.push(b));
        } else {
            self.pos = 0;
            assert(self.pending() =~= Seq::<u8>::empty());
            return None;
        }
        if b == 0 && self.pos > 0 {
            let mut frame: Vec<u8> = Vec::new();
            let mut i: usize = 0;
            while i < self.pos
                invariant
                    self.pos <= MAX_FRAME_BYTES,
                    0 <= i <= self.pos,
                    frame@ == self.pending().take(i as int),
                decreases self.pos - i,
            {
                frame.push(self.buf[i]);
                i = i + 1;
                assert(frame@ =~= self.pending().take(i as int));
            }
            assert(frame@ =~= before.push(b));
            self.pos = 0;
            assert(self.pending() =~= Seq::<u8>::empty());
            return Some(frame);
        }
        None
    }
}

} // verus!
