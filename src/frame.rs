//! Sequence-tagged echo frames.
//!
//! A frame is `8 + payload` bytes: the sequence number in big-endian order,
//! then a filler byte `offset mod 256` at each further offset, except the very
//! last byte, which is a line terminator (the remote echo command is
//! line-oriented). One frame buffer serves a whole run: only its sequence
//! field changes between sends, so its length never does.

use vstd::prelude::*;

verus! {

/// Number of bytes that carry the sequence number.
pub const SEQ_LEN: usize = 8;

/// The byte that ends every frame.
pub const LINE_TERMINATOR: u8 = 10;

/// The eight big-endian bytes of `s`.
pub open spec fn be_bytes(s: u64) -> Seq<u8> {
    seq![
        ((s >> 56u64) & 0xffu64) as u8,
        ((s >> 48u64) & 0xffu64) as u8,
        ((s >> 40u64) & 0xffu64) as u8,
        ((s >> 32u64) & 0xffu64) as u8,
        ((s >> 24u64) & 0xffu64) as u8,
        ((s >> 16u64) & 0xffu64) as u8,
        ((s >> 8u64) & 0xffu64) as u8,
        (s & 0xffu64) as u8,
    ]
}

/// The number that the first eight bytes of `b` spell in big-endian order.
pub open spec fn be_value(b: Seq<u8>) -> u64
    recommends
        b.len() >= 8,
{
    ((b[0] as u64) << 56u64) | ((b[1] as u64) << 48u64) | ((b[2] as u64) << 40u64) | ((
    b[3] as u64) << 32u64) | ((b[4] as u64) << 24u64) | ((b[5] as u64) << 16u64) | ((b[6] as u64)
        << 8u64) | (b[7] as u64)
}

/// Byte at offset `i` of the frame for sequence `s` with `p` payload bytes.
pub open spec fn frame_byte(s: u64, p: nat, i: int) -> u8 {
    if i < 8 {
        be_bytes(s)[i]
    } else if i == 8 + p - 1 {
        LINE_TERMINATOR
    } else {
        (i % 256) as u8
    }
}

/// The whole frame for sequence `s` with `p` payload bytes.
pub open spec fn frame_bytes(s: u64, p: nat) -> Seq<u8> {
    Seq::new((8 + p) as nat, |i: int| frame_byte(s, p, i))
}

/// Reading back the big-endian bytes of a number gives the number.
pub proof fn lemma_be_round_trip(s: u64)
    ensures
        be_value(be_bytes(s)) == s,
{
    assert(((((s >> 56u64) & 0xffu64) as u8 as u64) << 56u64) | ((((s >> 48u64) & 0xffu64) as u8
        as u64) << 48u64) | ((((s >> 40u64) & 0xffu64) as u8 as u64) << 40u64) | ((((s >> 32u64)
        & 0xffu64) as u8 as u64) << 32u64) | ((((s >> 24u64) & 0xffu64) as u8 as u64) << 24u64)
        | ((((s >> 16u64) & 0xffu64) as u8 as u64) << 16u64) | ((((s >> 8u64) & 0xffu64) as u8
        as u64) << 8u64) | ((s & 0xffu64) as u8 as u64) == s) by (bit_vector);
}

/// A frame built for sequence `s` and payload size `p` is `8 + p` bytes long,
/// its first eight bytes decode back to `s`, and it ends with the line
/// terminator.
pub proof fn lemma_frame_round_trip(s: u64, p: nat)
    requires
        p >= 1,
    ensures
        frame_bytes(s, p).len() == 8 + p,
        be_value(frame_bytes(s, p)) == s,
        frame_bytes(s, p).last() == LINE_TERMINATOR,
{
    let f = frame_bytes(s, p);
    lemma_be_round_trip(s);
    assert(f.subrange(0, 8) =~= be_bytes(s));
}

/// The sequence number carried by the first eight bytes of `bytes`, or `None`
/// when there are fewer than eight.
pub fn decode_seq(bytes: &[u8]) -> (r: Option<u64>)
    ensures
        r is None <==> bytes@.len() < 8,
        r matches Some(s) ==> s == be_value(bytes@),
{
    if bytes.len() < SEQ_LEN {
        return None;
    }
    Some(((bytes[0] as u64) << 56u64) | ((bytes[1] as u64) << 48u64) | ((bytes[2] as u64)
        << 40u64) | ((bytes[3] as u64) << 32u64) | ((bytes[4] as u64) << 24u64) | ((
    bytes[5] as u64) << 16u64) | ((bytes[6] as u64) << 8u64) | (bytes[7] as u64))
}

/// Writes the big-endian bytes of `s` over the first eight bytes of `bytes`.
fn write_seq(bytes: &mut Vec<u8>, s: u64)
    requires
        old(bytes)@.len() >= 8,
    ensures
        final(bytes)@.len() == old(bytes)@.len(),
        final(bytes)@.subrange(0, 8) == be_bytes(s),
        forall|i: int| 8 <= i < old(bytes)@.len() ==> final(bytes)@[i] == old(bytes)@[i],
{
    bytes[0] = ((s >> 56u64) & 0xffu64) as u8;
    bytes[1] = ((s >> 48u64) & 0xffu64) as u8;
    bytes[2] = ((s >> 40u64) & 0xffu64) as u8;
    bytes[3] = ((s >> 32u64) & 0xffu64) as u8;
    bytes[4] = ((s >> 24u64) & 0xffu64) as u8;
    bytes[5] = ((s >> 16u64) & 0xffu64) as u8;
    bytes[6] = ((s >> 8u64) & 0xffu64) as u8;
    bytes[7] = (s & 0xffu64) as u8;
    assert(bytes@.subrange(0, 8) =~= be_bytes(s));
}

/// An outgoing frame buffer, reused for every send of one run.
pub struct Frame {
    bytes: Vec<u8>,
    seq: u64,
    payload: u64,
}

impl View for Frame {
    type V = Seq<u8>;

    closed spec fn view(&self) -> Seq<u8> {
        self.bytes@
    }
}

impl Frame {
    /// Sequence number that the frame currently carries.
    pub closed spec fn seq_spec(&self) -> u64 {
        self.seq
    }

    /// Number of bytes after the sequence field.
    pub closed spec fn payload_spec(&self) -> u64 {
        self.payload
    }

    /// The buffer holds exactly the frame for its sequence number.
    pub closed spec fn wf(&self) -> bool {
        &&& self.payload >= 1
        &&& self.payload <= usize::MAX - 8
        &&& self.bytes@ == frame_bytes(self.seq, self.payload as nat)
    }

    /// A frame with `payload_size` bytes after the sequence field, carrying
    /// sequence number 0.
    pub fn new(payload_size: u64) -> (f: Frame)
        requires
            payload_size >= 1,
            payload_size <= usize::MAX - 8,
        ensures
            f.wf(),
            f.seq_spec() == 0,
            f.payload_spec() == payload_size,
            f@ == frame_bytes(0, payload_size as nat),
    {
        let len: usize = 8 + payload_size as usize;
        let mut bytes: Vec<u8> = Vec::with_capacity(len);
        let mut i: usize = 0;
        while i + 1 < len
            invariant
                len == 8 + payload_size,
                len >= 9,
                i + 1 <= len,
                bytes@.len() == i,
                forall|j: int| 0 <= j < i ==> #[trigger] bytes@[j] == (j % 256) as u8,
            decreases len - i,
        {
            bytes.push((i % 256) as u8);
            i = i + 1;
        }
        bytes.push(LINE_TERMINATOR);
        write_seq(&mut bytes, 0);
        let f = Frame { bytes, seq: 0, payload: payload_size };
        assert forall|j: int| 0 <= j < len implies #[trigger] f.bytes@[j] == frame_byte(
            0,
            payload_size as nat,
            j,
        ) by {
            if j < 8 {
                assert(f.bytes@[j] == f.bytes@.subrange(0, 8)[j]);
            }
        }
        assert(f.bytes@ =~= frame_bytes(0, payload_size as nat));
        f
    }

    /// Puts sequence number `seq` into the frame; nothing else changes.
    pub fn set_seq(&mut self, seq: u64)
        requires
            old(self).wf(),
        ensures
            final(self).wf(),
            final(self).seq_spec() == seq,
            final(self).payload_spec() == old(self).payload_spec(),
            final(self)@ == frame_bytes(seq, old(self).payload_spec() as nat),
    {
        let ghost p = self.payload as nat;
        write_seq(&mut self.bytes, seq);
        self.seq = seq;
        assert forall|j: int| 0 <= j < 8 + p implies #[trigger] self.bytes@[j] == frame_byte(
            seq,
            p,
            j,
        ) by {
            if j < 8 {
                assert(self.bytes@[j] == self.bytes@.subrange(0, 8)[j]);
            }
        }
        assert(self.bytes@ =~= frame_bytes(seq, p));
    }

    /// Sequence number that the frame carries.
    pub fn seq(&self) -> (r: u64)
        ensures
            r == self.seq_spec(),
    {
        self.seq
    }

    /// Length of the frame in bytes.
    pub fn len(&self) -> (r: usize)
        requires
            self.wf(),
        ensures
            r == 8 + self.payload_spec(),
            r == self@.len(),
    {
        self.bytes.len()
    }

    /// The bytes to send.
    pub fn as_slice(&self) -> (r: &[u8])
        ensures
            r@ == self@,
    {
        self.bytes.as_slice()
    }
}

} // verus!
