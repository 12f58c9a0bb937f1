//! Encoder for the fixed-topology radio link frame: a start delimiter, a
//! two-byte big-endian length over the frame body, the body (frame type,
//! frame id, 64-bit destination address, options, payload), and a trailing
//! checksum byte over the body.

use vstd::prelude::*;
use vstd::arithmetic::div_mod::lemma_add_mod_noop;

verus! {

/// The frame types of the radio protocol. Only the 64-bit-address transmit
/// request is used here.
#[derive(Debug, Clone, Copy)]
pub enum ApiIdentifier {
    /// 64-bit transmit request.
    TxReq,
}

impl ApiIdentifier {
    /// The wire value of this frame type.
    pub open spec fn spec_value(&self) -> u8 {
        match self {
            ApiIdentifier::TxReq => 0x00,
        }
    }

    /// Returns the wire value of this frame type.
    fn value(&self) -> (r: u8)
        ensures
            r == self.spec_value(),
    {
        match self {
            ApiIdentifier::TxReq => 0x00,
        }
    }
}

/// Frame construction failures.
#[derive(Debug, PartialEq, Eq, Structural, Clone, Copy)]
pub enum FrameError {
    /// The payload would make the frame exceed its fixed capacity.
    PayloadTooLarge,
}

/// The sum of a byte sequence as an unbounded integer.
pub open spec fn sum_bytes(s: Seq<u8>) -> int
    decreases s.len(),
{
    if s.len() == 0 {
        0
    } else {
        sum_bytes(s.drop_last()) + s.last()
    }
}

/// The trailing checksum of a frame: 0xFF minus the low eight bits of the
/// sum of the body bytes (frame type through the last payload byte).
pub open spec fn frame_checksum(body: Seq<u8>) -> u8 {
    (0xff - sum_bytes(body) % 256) as u8
}

/// The body of a transmit-request frame: frame type, frame id 0x00, the
/// 8-byte destination address, options 0x00, and the payload.
pub open spec fn frame_body(api: u8, dst: Seq<u8>, data: Seq<u8>) -> Seq<u8> {
    seq![api, 0x00u8] + dst + seq![0x00u8] + data
}

/// The complete wire image of a transmit-request frame: the 0x7E start
/// delimiter, the body length as two big-endian bytes, the body, and the
/// trailing checksum.
pub open spec fn frame_bytes(api: u8, dst: Seq<u8>, data: Seq<u8>) -> Seq<u8> {
    let body = frame_body(api, dst, data);
    seq![0x7eu8, (body.len() / 256) as u8, (body.len() % 256) as u8] + body + seq![
        frame_checksum(body),
    ]
}

/// Greatest payload length that keeps the frame inside its 23-byte capacity:
/// 14 header bytes and the trailing checksum leave 8 bytes for data.
pub const MAX_PAYLOAD: usize = 8;

/// A fully built radio frame. Immutable once built; its view is the exact
/// byte sequence that goes on the wire.
pub struct Packet {
    bytes: Vec<u8>,
}

impl View for Packet {
    type V = Seq<u8>;

    closed spec fn view(&self) -> Seq<u8> {
        self.bytes@
    }
}

/// Computes the trailing checksum over `bytes[start..end]`.
fn compute_checksum(bytes: &Vec<u8>, start: usize, end: usize) -> (r: u8)
    requires
        start <= end <= bytes@.len(),
    ensures
        r == frame_checksum(bytes@.subrange(start as int, end as int)),
{
    let mut sum: u16 = 0;
    let mut i: usize = start;
    while i < end
        invariant
            start <= i <= end <= bytes@.len(),
            sum == sum_bytes(bytes@.subrange(start as int, i as int)) % 256,
        decreases end - i,
    {
        proof {
            assert(bytes@.subrange(start as int, i + 1).drop_last() =~= bytes@.subrange(
                start as int,
                i as int,
            ));
            lemma_add_mod_noop(sum_bytes(bytes@.subrange(start as int, i as int)), bytes@[i as int] as int, 256);
        }
        sum = (sum + bytes[i] as u16) % 256;
        i = i + 1;
    }
    0xff - (sum as u8)
}

impl Packet {
    /// Frames always hold the full fixed header, the trailing checksum, and
    /// at most the 23-byte capacity.
    #[verifier::type_invariant]
    spec fn wf(self) -> bool {
        15 <= self.bytes@.len() <= 23
    }

    /// Builds a transmit-request frame around `data`, addressed to `dst`.
    ///
    /// The two length bytes are the big-endian encoding of the body length.
    /// With the payload held to the frame capacity the body is always
    /// shorter than 256 bytes, so the high length byte is 0x00 and the
    /// frame stays byte-identical for receivers that expect the high byte
    /// written as a masked rather than shifted value.
    pub fn new(api_identifier: ApiIdentifier, dst: [u8; 8], data: &[u8]) -> (packet: Packet)
        requires
            data@.len() <= MAX_PAYLOAD,
        ensures
            packet@ == frame_bytes(api_identifier.spec_value(), dst@, data@),
            packet@.len() == 15 + data@.len(),
    {
        let ghost body = frame_body(api_identifier.spec_value(), dst@, data@);
        let mut bytes: Vec<u8> = Vec::new();
        bytes.push(0x7e);
        let body_len: usize = data.len() + 3 + 8;
        bytes.push((body_len / 256) as u8);
        bytes.push((body_len % 256) as u8);
        let api = api_identifier.value();
        bytes.push(api);
        bytes.push(0x00);  // frame id
        let ghost head = seq![
            0x7eu8,
            (body.len() / 256) as u8,
            (body.len() % 256) as u8,
            api_identifier.spec_value(),
            0x00u8,
        ];
        assert(bytes@ =~= head);
        let mut i: usize = 0;
        while i < 8
            invariant
                i <= 8,
                bytes@ == head + dst@.take(i as int),
            decreases 8 - i,
        {
            bytes.push(dst[i]);
            proof {
                assert(bytes@ =~= head + dst@.take(i + 1));
            }
            i = i + 1;
        }
        assert(dst@.take(8) =~= dst@);
        bytes.push(0x00);  // options
        let ghost mid = head + dst@ + seq![0x00u8];
        assert(bytes@ =~= mid);
        let mut j: usize = 0;
        while j < data.len()
            invariant
                j <= data@.len(),
                bytes@ == mid + data@.take(j as int),
            decreases data@.len() - j,
        {
            bytes.push(data[j]);
            proof {
                assert(bytes@ =~= mid + data@.take(j + 1));
            }
            j = j + 1;
        }
        proof {
            assert(data@.take(data@.len() as int) =~= data@);
            assert(bytes@.subrange(3, bytes@.len() as int) =~= body);
        }
        let checksum = compute_checksum(&bytes, 3, bytes.len());
        bytes.push(checksum);
        let packet = Packet { bytes };
        proof {
            assert(packet@ =~= frame_bytes(api_identifier.spec_value(), dst@, data@));
        }
        packet
    }

    /// Builds a transmit-request frame, rejecting a payload that would make
    /// the frame exceed its fixed capacity instead of truncating it.
    pub fn build(api_identifier: ApiIdentifier, dst: [u8; 8], data: &[u8]) -> (r: Result<
        Packet,
        FrameError,
    >)
        ensures
            match r {
                Ok(packet) => data@.len() <= MAX_PAYLOAD && packet@ == frame_bytes(
                    api_identifier.spec_value(),
                    dst@,
                    data@,
                ),
                Err(e) => data@.len() > MAX_PAYLOAD && e == FrameError::PayloadTooLarge,
            },
    {
        if data.len() > MAX_PAYLOAD {
            return Err(FrameError::PayloadTooLarge);
        }
        Ok(Packet::new(api_identifier, dst, data))
    }

    /// Number of bytes meaningful on the wire.
    pub fn len(&self) -> (r: usize)
        ensures
            r == self@.len(),
    {
        self.bytes.len()
    }

    /// The frame type byte.
    pub fn api_identifier(&self) -> (r: &u8)
        ensures
            *r == self@[3],
    {
        proof {
            use_type_invariant(&*self);
        }
        &self.bytes[3]
    }

    /// The frame id byte.
    pub fn api_frame_id(&self) -> (r: &u8)
        ensures
            *r == self@[4],
    {
        proof {
            use_type_invariant(&*self);
        }
        &self.bytes[4]
    }

    /// The 8-byte destination address.
    pub fn destination_address(&self) -> (r: &[u8])
        ensures
            r@ == self@.subrange(5, 13),
    {
        proof {
            use_type_invariant(&*self);
        }
        vstd::slice::slice_subrange(self.bytes.as_slice(), 5, 13)
    }

    /// The options byte.
    pub fn options(&self) -> (r: &u8)
        ensures
            *r == self@[13],
    {
        proof {
            use_type_invariant(&*self);
        }
        &self.bytes[13]
    }

    /// The payload: the bytes between the options byte and the trailing
    /// checksum.
    pub fn data(&self) -> (r: &[u8])
        ensures
            r@ == self@.subrange(14, self@.len() - 1),
    {
        proof {
            use_type_invariant(&*self);
        }
        vstd::slice::slice_subrange(self.bytes.as_slice(), 14, self.bytes.len() - 1)
    }

    /// A restartable sequential reader over exactly the wire bytes.
    pub fn iter<'a>(&'a self) -> (r: PacketIterator<'a>)
        ensures
            r.packet_view() == self@,
            r.pos() == 0,
    {
        PacketIterator { packet: self, index: 0 }
    }
}

/// Sequential, order-preserving iteration over the wire bytes of one frame.
pub struct PacketIterator<'a> {
    packet: &'a Packet,
    index: usize,
}

impl<'a> PacketIterator<'a> {
    /// The wire bytes being walked.
    pub closed spec fn packet_view(&self) -> Seq<u8> {
        self.packet@
    }

    /// How many bytes have been handed out so far.
    pub closed spec fn pos(&self) -> int {
        self.index as int
    }

    /// The reader never stands past the end of the frame.
    #[verifier::type_invariant]
    spec fn wf(self) -> bool {
        self.index <= self.packet@.len()
    }

    /// Hands out the next wire byte, or `None` once all bytes of the frame
    /// have been yielded.
    pub fn next(&mut self) -> (r: Option<u8>)
        ensures
            final(self).packet_view() == old(self).packet_view(),
            match r {
                Some(b) => old(self).pos() < old(self).packet_view().len() && b == old(
                    self,
                ).packet_view()[old(self).pos()] && final(self).pos() == old(self).pos() + 1,
                None => old(self).pos() == old(self).packet_view().len() && final(self).pos()
                    == old(self).pos(),
            },
    {
        proof {
            use_type_invariant(&*self);
        }
        if self.index < self.packet.len() {
            let byte = self.packet.bytes[self.index];
            self.index = self.index + 1;
            Some(byte)
        } else {
            None
        }
    }
}

} // verus!
