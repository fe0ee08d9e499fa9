//! The cycle buffer that puts three-byte mouse packets together from bytes
//! that arrive one at a time, over any number of interrupts.

use vstd::prelude::*;

verus! {

/// How many whole packets a stream of bytes holds.
pub open spec fn packet_count(stream: Seq<u8>) -> nat {
    (stream.len() / 3) as nat
}

/// The whole packets of a stream, first to last: each is three bytes.
pub open spec fn stream_packets(stream: Seq<u8>) -> Seq<Seq<u8>> {
    Seq::new(packet_count(stream), |k: int| stream.subrange(3 * k, 3 * k + 3))
}

/// The bytes behind the last whole packet of a stream.
pub open spec fn stream_rest(stream: Seq<u8>) -> Seq<u8> {
    stream.skip(3 * (packet_count(stream) as int))
}

/// The rest is as long as the position in the cycle: the length modulo 3.
pub proof fn rest_is_cycle_position(stream: Seq<u8>)
    ensures
        stream_rest(stream).len() == stream.len() % 3,
        stream.len() < 3 ==> stream_rest(stream) == stream && stream_packets(stream).len() == 0,
{
    if stream.len() < 3 {
        assert(stream.skip(0) =~= stream);
    }
}

/// Bytes that arrive in two parts give the packets that they give in one:
/// what the first part leaves unfinished is kept, and is completed by the
/// second, with no byte lost and none used twice.
pub proof fn stream_split(a: Seq<u8>, b: Seq<u8>)
    ensures
        stream_packets(a + b) == stream_packets(a) + stream_packets(stream_rest(a) + b),
        stream_rest(a + b) == stream_rest(stream_rest(a) + b),
{
    let n = packet_count(a) as int;
    let r = stream_rest(a);
    let rb = r + b;
    let m = packet_count(rb) as int;
    assert(a.len() == 3 * n + r.len());
    assert(r.len() < 3);
    assert((a + b).len() == 3 * n + rb.len());
    assert(packet_count(a + b) == n + m);
    let lhs = stream_packets(a + b);
    let rhs = stream_packets(a) + stream_packets(rb);
    assert(lhs.len() == rhs.len());
    assert forall|k: int| 0 <= k < lhs.len() implies lhs[k] == rhs[k] by {
        if k < n {
            assert((a + b).subrange(3 * k, 3 * k + 3) =~= a.subrange(3 * k, 3 * k + 3));
        } else {
            let j = k - n;
            assert(rhs[k] == stream_packets(rb)[j]);
            assert((a + b).subrange(3 * k, 3 * k + 3) =~= rb.subrange(3 * j, 3 * j + 3));
        }
    }
    assert(lhs =~= rhs);
    assert(stream_rest(a + b) =~= stream_rest(rb));
}

/// Three bytes of buffer and the position in the cycle.
#[derive(Debug, Clone, Copy)]
pub struct PacketAssembler {
    buffer: [u8; 3],
    cycle: u8,
}

impl PacketAssembler {
    /// The position is 0, 1 or 2.
    pub closed spec fn wf(&self) -> bool {
        self.cycle < 3
    }

    /// The bytes of the unfinished packet, in the order of arrival.
    pub closed spec fn pending(&self) -> Seq<u8> {
        self.buffer@.take(self.cycle as int)
    }

    /// The unfinished packet has fewer than three bytes.
    pub proof fn pending_is_short(&self)
        requires
            self.wf(),
        ensures
            self.pending().len() < 3,
    {
    }

    pub fn new() -> (a: PacketAssembler)
        ensures
            a.wf(),
            a.pending() == Seq::<u8>::empty(),
    {
        PacketAssembler { buffer: [0u8; 3], cycle: 0 }
    }

    /// The position in the cycle: how many bytes of the next packet are in.
    pub fn cycle(&self) -> (c: u8)
        requires
            self.wf(),
        ensures
            c == self.pending().len(),
            c < 3,
    {
        self.cycle
    }

    /// Takes one byte. The third byte of a packet completes it: the packet
    /// is returned and the position wraps to 0.
    pub fn push(&mut self, byte: u8) -> (out: Option<[u8; 3]>)
        requires
            old(self).wf(),
        ensures
            final(self).wf(),
            final(self).pending() == stream_rest(old(self).pending().push(byte)),
            old(self).pending().len() < 2 ==> out is None && final(self).pending() == old(
                self,
            ).pending().push(byte),
            old(self).pending().len() == 2 ==> out is Some && out.unwrap()@ == old(
                self,
            ).pending().push(byte) && final(self).pending().len() == 0,
    {
        let at: usize = self.cycle as usize;
        self.buffer[at] = byte;
        proof {
            assert(self.buffer@.take(at + 1) =~= old(self).pending().push(byte));
        }
        if self.cycle < 2 {
            self.cycle = self.cycle + 1;
            proof {
                let s = old(self).pending().push(byte);
                assert(s.skip(0) =~= s);
            }
            None
        } else {
            self.cycle = 0;
            proof {
                let s = old(self).pending().push(byte);
                assert(self.buffer@.take(3) =~= self.buffer@);
                assert(s.skip(3) =~= Seq::<u8>::empty());
                assert(self.buffer@.take(0) =~= Seq::<u8>::empty());
            }
            Some(self.buffer)
        }
    }
}

} // verus!
