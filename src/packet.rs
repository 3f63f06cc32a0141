use vstd::prelude::*;
use crate::error::{ImuError, ProtocolFault};

verus! {

/// Bytes in every packet header.
pub const PACKET_HEADER_LENGTH: usize = 4;

/// Capacity of the outgoing packet buffer, header included.
pub const PACKET_SEND_BUF_LEN: usize = 256;

/// Capacity of the incoming packet buffer.
pub const PACKET_RECV_BUF_LEN: usize = 1024;

/// Number of logical channels multiplexed over the bus.
pub const NUM_CHANNELS: usize = 6;

pub const CHANNEL_COMMAND: u8 = 0;

pub const CHANNEL_EXECUTABLE: u8 = 1;

pub const CHANNEL_HUB_CONTROL: u8 = 2;

pub const CHANNEL_SENSOR_REPORTS: u8 = 3;

/// The four header fields of a packet.
#[derive(Clone, Copy, Debug, PartialEq, Eq, Structural)]
pub struct ShtpHeader {
    /// Length of the whole packet, header included (15 bits).
    pub len: u16,
    /// The continuation flag (top bit of the length field).
    pub continuation: bool,
    pub channel: u8,
    pub sequence: u8,
}

/// The header that the first four bytes of `b` describe.
pub open spec fn header_of(b: Seq<u8>) -> ShtpHeader
    recommends
        b.len() >= 4,
{
    ShtpHeader {
        len: (b[0] as int + (b[1] as int % 128) * 256) as u16,
        continuation: b[1] >= 128,
        channel: b[2],
        sequence: b[3],
    }
}

/// The four header bytes for a packet of `len` bytes.
pub open spec fn header_bytes(len: nat, channel: u8, sequence: u8) -> Seq<u8> {
    seq![(len % 256) as u8, ((len / 256) % 128) as u8, channel, sequence]
}

/// The bytes sent for `body` on `channel` with sequence number `sequence`.
pub open spec fn encoded(channel: u8, sequence: u8, body: Seq<u8>) -> Seq<u8> {
    header_bytes(body.len() + 4, channel, sequence) + body
}

/// The per-channel counters after one packet was sent on `channel`.
pub open spec fn after_send(seqs: Seq<u8>, channel: u8) -> Seq<u8> {
    seqs.update(channel as int, ((seqs[channel as int] + 1) % 256) as u8)
}

impl ShtpHeader {
    /// Reads the header fields out of four bytes.
    pub fn parse(hdr: [u8; 4]) -> (r: Self)
        ensures
            r == header_of(hdr@),
    {
        let b0 = hdr[0];
        let b1 = hdr[1];
        let raw_len: u16 = (b0 as u16) | ((b1 as u16) << 8u16);
        let len: u16 = raw_len & 0x7FFFu16;
        let continuation = (raw_len & 0x8000u16) != 0;
        assert(((b0 as u16) | ((b1 as u16) << 8u16)) & 0x7FFFu16 == (b0 as u16) + ((b1 % 128) as u16) * 256u16) by (bit_vector);
        assert((((b0 as u16) | ((b1 as u16) << 8u16)) & 0x8000u16 != 0) == (b1 >= 128)) by (bit_vector);
        ShtpHeader { len, continuation, channel: hdr[2], sequence: hdr[3] }
    }
}

/// Reads the header at the start of a received buffer.
pub fn decode_header(buf: &[u8]) -> (r: Result<ShtpHeader, ImuError>)
    ensures
        buf@.len() < 4 <==> r == Err::<ShtpHeader, ImuError>(ImuError::Protocol(ProtocolFault::ShortPacket)),
        buf@.len() >= 4 ==> r == Ok::<ShtpHeader, ImuError>(header_of(buf@)),
{
    if buf.len() < PACKET_HEADER_LENGTH {
        return Err(ImuError::Protocol(ProtocolFault::ShortPacket));
    }
    let hdr: [u8; 4] = [buf[0], buf[1], buf[2], buf[3]];
    assert(hdr@ =~= buf@.subrange(0, 4));
    Ok(ShtpHeader::parse(hdr))
}

/// The outgoing sequence counter of each channel.
pub struct ChannelSequences {
    next: Vec<u8>,
}

impl View for ChannelSequences {
    type V = Seq<u8>;

    closed spec fn view(&self) -> Seq<u8> {
        self.next@
    }
}

impl ChannelSequences {
    pub open spec fn wf(&self) -> bool {
        self@.len() == NUM_CHANNELS
    }

    /// Every channel starts at sequence number zero.
    pub fn new() -> (r: Self)
        ensures
            r.wf(),
            r@ == Seq::new(NUM_CHANNELS as nat, |i: int| 0u8),
    {
        let mut next: Vec<u8> = Vec::new();
        let mut i: usize = 0;
        while i < NUM_CHANNELS
            invariant
                i <= NUM_CHANNELS,
                next@ == Seq::new(i as nat, |j: int| 0u8),
            decreases NUM_CHANNELS - i,
        {
            next.push(0u8);
            i = i + 1;
        }
        ChannelSequences { next }
    }

    /// The sequence number that the next packet on `channel` carries.
    pub fn next_sequence(&self, channel: u8) -> (r: u8)
        requires
            self.wf(),
            channel < NUM_CHANNELS,
        ensures
            r == self@[channel as int],
    {
        self.next[channel as usize]
    }

    /// Frames `body` for `channel` with that channel's next sequence number,
    /// and advances the channel's counter (wrapping at 256).
    pub fn encode(&mut self, channel: u8, body: &[u8]) -> (r: Result<Vec<u8>, ImuError>)
        requires
            old(self).wf(),
            channel < NUM_CHANNELS,
        ensures
            final(self).wf(),
            body@.len() + 4 > PACKET_SEND_BUF_LEN <==> r is Err,
            r is Err ==> r == Err::<Vec<u8>, ImuError>(ImuError::Protocol(ProtocolFault::PacketTooLong))
                && final(self)@ == old(self)@,
            r is Ok ==> r->Ok_0@ == encoded(channel, old(self)@[channel as int], body@)
                && final(self)@ == after_send(old(self)@, channel),
    {
        if body.len() > PACKET_SEND_BUF_LEN - PACKET_HEADER_LENGTH {
            return Err(ImuError::Protocol(ProtocolFault::PacketTooLong));
        }
        let packet_len: usize = body.len() + PACKET_HEADER_LENGTH;
        let seq = self.next[channel as usize];
        let mut out: Vec<u8> = Vec::new();
        out.push((packet_len & 0xFF) as u8);
        out.push(((packet_len >> 8) & 0x7F) as u8);
        out.push(channel);
        out.push(seq);
        assert(packet_len & 0xFF == packet_len % 256) by (bit_vector);
        assert((packet_len >> 8) & 0x7F == (packet_len / 256) % 128) by (bit_vector);
        let mut i: usize = 0;
        while i < body.len()
            invariant
                i <= body@.len(),
                out@ == header_bytes(packet_len as nat, channel, seq) + body@.subrange(0, i as int),
            decreases body@.len() - i,
        {
            out.push(body[i]);
            i = i + 1;
            assert(body@.subrange(0, i as int) =~= body@.subrange(0, i - 1) .push(body@[i - 1]));
            assert(out@ =~= header_bytes(packet_len as nat, channel, seq) + body@.subrange(0, i as int));
        }
        assert(body@.subrange(0, body@.len() as int) =~= body@);
        self.next.set(channel as usize, seq.wrapping_add(1));
        assert(self@ =~= after_send(old(self)@, channel));
        Ok(out)
    }
}

/// Decoding the header of an encoded packet gives back its channel, its
/// sequence number, and a length of the body's length plus four.
pub proof fn lemma_decode_encode(channel: u8, sequence: u8, body: Seq<u8>)
    requires
        body.len() + 4 <= PACKET_SEND_BUF_LEN,
    ensures
        header_of(encoded(channel, sequence, body)).len == body.len() + 4,
        header_of(encoded(channel, sequence, body)).channel == channel,
        header_of(encoded(channel, sequence, body)).sequence == sequence,
        !header_of(encoded(channel, sequence, body)).continuation,
{
    let n = body.len() + 4;
    assert((n % 256) + ((n / 256) % 128) * 256 == n);
}

/// Consecutive sends on one channel carry consecutive sequence numbers
/// (modulo 256), and a send on one channel leaves every other channel's
/// counter as it was.
pub proof fn lemma_sequence_per_channel(seqs: Seq<u8>, c: u8, d: u8, first: Seq<u8>, second: Seq<u8>)
    requires
        seqs.len() == NUM_CHANNELS,
        c < NUM_CHANNELS,
        d < NUM_CHANNELS,
        first.len() + 4 <= PACKET_SEND_BUF_LEN,
        second.len() + 4 <= PACKET_SEND_BUF_LEN,
    ensures
        header_of(encoded(c, after_send(seqs, c)[c as int], second)).sequence
            == (header_of(encoded(c, seqs[c as int], first)).sequence + 1) % 256,
        c != d ==> after_send(seqs, d)[c as int] == seqs[c as int],
        after_send(seqs, d).len() == NUM_CHANNELS,
{
    lemma_decode_encode(c, seqs[c as int], first);
    lemma_decode_encode(c, after_send(seqs, c)[c as int], second);
}

/// The per-channel counters after one send on each channel of `chans`, in order.
pub open spec fn after_sends(seqs: Seq<u8>, chans: Seq<u8>) -> Seq<u8>
    decreases chans.len(),
{
    if chans.len() == 0 {
        seqs
    } else {
        after_sends(after_send(seqs, chans[0]), chans.drop_first())
    }
}

proof fn lemma_other_sends_keep(seqs: Seq<u8>, c: u8, chans: Seq<u8>)
    requires
        seqs.len() == NUM_CHANNELS,
        c < NUM_CHANNELS,
        forall|i: int| 0 <= i < chans.len() ==> #[trigger] chans[i] < NUM_CHANNELS && chans[i] != c,
    ensures
        after_sends(seqs, chans).len() == NUM_CHANNELS,
        after_sends(seqs, chans)[c as int] == seqs[c as int],
    decreases chans.len(),
{
    if chans.len() > 0 {
        assert(chans[0] < NUM_CHANNELS && chans[0] != c);
        let rest = chans.drop_first();
        assert forall|i: int| 0 <= i < rest.len() implies #[trigger] rest[i] < NUM_CHANNELS && rest[i] != c by {
            assert(rest[i] == chans[i + 1]);
        }
        lemma_other_sends_keep(after_send(seqs, chans[0]), c, rest);
    }
}

/// Sends on other channels in between do not disturb a channel's sequence:
/// the next packet on it still carries the number after the previous one
/// (modulo 256).
pub proof fn lemma_sequence_across_other_sends(
    seqs: Seq<u8>,
    c: u8,
    others: Seq<u8>,
    first: Seq<u8>,
    second: Seq<u8>,
)
    requires
        seqs.len() == NUM_CHANNELS,
        c < NUM_CHANNELS,
        forall|i: int| 0 <= i < others.len() ==> #[trigger] others[i] < NUM_CHANNELS && others[i] != c,
        first.len() + 4 <= PACKET_SEND_BUF_LEN,
        second.len() + 4 <= PACKET_SEND_BUF_LEN,
    ensures
        header_of(encoded(c, after_sends(after_send(seqs, c), others)[c as int], second)).sequence
            == (header_of(encoded(c, seqs[c as int], first)).sequence + 1) % 256,
{
    lemma_other_sends_keep(after_send(seqs, c), c, others);
    lemma_decode_encode(c, seqs[c as int], first);
    lemma_decode_encode(c, after_sends(after_send(seqs, c), others)[c as int], second);
}

} // verus!
