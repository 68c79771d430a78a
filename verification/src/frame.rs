//! The wire framing layer: frame headers, frame encoding and decoding,
//! fragmentation of large messages and reassembly of fragments.

use vstd::prelude::*;

use crate::bytes::{be16_bytes, be16_value, be32_bytes, lemma_be16_bytes_of_value,
    lemma_be32_bytes_of_value, push_be16, push_be32, read_be16, read_be32};

verus! {

/// The largest payload carried by one frame; larger messages are fragmented.
pub const MAX_FRAME_DATA_SIZE: usize = 0x4000;

/// Whether a frame carries a whole message or a piece of a larger one.
#[derive(Clone, Copy, Debug, PartialEq, Eq, Structural)]
pub enum FrameHeaderType {
    /// Neither the first nor the last fragment of a multi-frame message.
    Middle,
    /// The first fragment of a multi-frame message.
    First,
    /// The last fragment of a multi-frame message.
    Last,
    /// A whole message in one frame.
    Single,
}

impl FrameHeaderType {
    /// The two-bit wire encoding of the fragment type.
    pub open spec fn bits(self) -> u8 {
        match self {
            FrameHeaderType::Middle => 0,
            FrameHeaderType::First => 1,
            FrameHeaderType::Last => 2,
            FrameHeaderType::Single => 3,
        }
    }

    /// The fragment type encoded in the low two bits of a byte.
    pub open spec fn from_bits_spec(b: u8) -> FrameHeaderType {
        if b % 4 == 0 {
            FrameHeaderType::Middle
        } else if b % 4 == 1 {
            FrameHeaderType::First
        } else if b % 4 == 2 {
            FrameHeaderType::Last
        } else {
            FrameHeaderType::Single
        }
    }

    /// Emit the two-bit wire encoding.
    pub fn to_bits(self) -> (r: u8)
        ensures
            r == self.bits(),
    {
        match self {
            FrameHeaderType::Middle => 0,
            FrameHeaderType::First => 1,
            FrameHeaderType::Last => 2,
            FrameHeaderType::Single => 3,
        }
    }

    /// Read the fragment type from the low two bits of a byte.
    pub fn from_bits(b: u8) -> (r: FrameHeaderType)
        ensures
            r == FrameHeaderType::from_bits_spec(b),
    {
        let low = b % 4;
        if low == 0 {
            FrameHeaderType::Middle
        } else if low == 1 {
            FrameHeaderType::First
        } else if low == 2 {
            FrameHeaderType::Last
        } else {
            FrameHeaderType::Single
        }
    }

    /// The two-bit encoding is read back as the type it was made from.
    pub proof fn lemma_bits_roundtrip(self)
        ensures
            FrameHeaderType::from_bits_spec(self.bits()) == self,
    {
    }
}

/// The two leading bytes of every frame: the channel and the packed flags.
#[derive(Clone, Copy, Debug, PartialEq, Eq, Structural)]
pub struct FrameHeader {
    /// The sub-channel this frame belongs to; channel 0 is the control channel.
    pub channel_id: u8,
    /// Whether the frame is a whole message or a fragment.
    pub frame_type: FrameHeaderType,
    /// The control flag; only frames on channel 0 may carry it set.
    pub control: bool,
    /// Whether the payload bytes are TLS records rather than plaintext.
    pub encryption: bool,
}

impl FrameHeader {
    /// The packed flags byte: bits 0-1 fragment type, bit 2 control, bit 3 encryption.
    pub open spec fn flags_byte(self) -> u8 {
        (self.frame_type.bits() + (if self.control {
            4u8
        } else {
            0u8
        }) + (if self.encryption {
            8u8
        } else {
            0u8
        })) as u8
    }

    /// The header read back from a channel byte and a flags byte.
    /// Bits 4-7 of the flags byte are not used by the protocol.
    pub open spec fn from_bytes_spec(channel: u8, flags: u8) -> FrameHeader {
        FrameHeader {
            channel_id: channel,
            frame_type: FrameHeaderType::from_bits_spec(flags),
            control: (flags / 4) % 2 == 1,
            encryption: (flags / 8) % 2 == 1,
        }
    }

    /// Emit the packed flags byte.
    pub fn flags(&self) -> (r: u8)
        ensures
            r == self.flags_byte(),
    {
        let ft = self.frame_type.to_bits();
        let c: u8 = if self.control {
            4
        } else {
            0
        };
        let e: u8 = if self.encryption {
            8
        } else {
            0
        };
        ft + c + e
    }

    /// Read a header from its two wire bytes.
    pub fn from_bytes(channel: u8, flags: u8) -> (r: FrameHeader)
        ensures
            r == FrameHeader::from_bytes_spec(channel, flags),
    {
        FrameHeader {
            channel_id: channel,
            frame_type: FrameHeaderType::from_bits(flags),
            control: (flags / 4) % 2 == 1,
            encryption: (flags / 8) % 2 == 1,
        }
    }

    /// Add the two header bytes to a buffer being built into a full frame.
    pub fn add_to(&self, buf: &mut Vec<u8>)
        ensures
            final(buf)@ == old(buf)@ + seq![self.channel_id, self.flags_byte()],
    {
        buf.push(self.channel_id);
        let f = self.flags();
        buf.push(f);
        assert(final(buf)@ =~= old(buf)@ + seq![self.channel_id, self.flags_byte()]);
    }

    /// A header survives the trip through its two wire bytes.
    pub proof fn lemma_header_roundtrip(self)
        ensures
            FrameHeader::from_bytes_spec(self.channel_id, self.flags_byte()) == self,
    {
        let b = self.flags_byte();
        assert(b % 4 == self.frame_type.bits() % 4);
        self.frame_type.lemma_bits_roundtrip();
    }

    /// The flags byte never uses bits 4-7.
    pub proof fn lemma_flags_byte_small(self)
        ensures
            self.flags_byte() < 16,
    {
    }

    /// A flags byte with clear upper bits is rebuilt exactly by the header
    /// that was read from it.
    pub proof fn lemma_from_bytes_flags(channel: u8, fl: u8)
        requires
            fl < 16,
        ensures
            FrameHeader::from_bytes_spec(channel, fl).flags_byte() == fl,
    {
        assert(FrameHeaderType::from_bits_spec(fl).bits() == fl % 4);
        assert(fl == (fl / 8) * 8 + ((fl / 4) % 2) * 4 + fl % 4) by (bit_vector);
        assert(fl / 8 < 2);
    }
}

/// One frame of the protocol. When fragments are reassembled, the combined
/// logical message is returned in this shape as well, under the header of
/// the closing fragment.
#[derive(Clone, Debug)]
pub struct AndroidAutoFrame {
    /// The frame header.
    pub header: FrameHeader,
    /// The payload bytes carried after the length area.
    pub data: Vec<u8>,
    /// The informational total message length carried only by First fragments.
    pub first_total: Option<u32>,
}

impl AndroidAutoFrame {
    /// A frame that can be put on the wire: the payload fits the 16-bit
    /// length field and the total-length word rides exactly on First fragments.
    pub open spec fn wf(self) -> bool {
        &&& self.data@.len() <= 0xFFFF
        &&& self.first_total is Some <==> self.header.frame_type == FrameHeaderType::First
    }

    /// How many bytes the frame occupies on the wire.
    pub open spec fn wire_len(self) -> int {
        if self.header.frame_type == FrameHeaderType::First {
            8 + self.data@.len() as int
        } else {
            4 + self.data@.len() as int
        }
    }

    /// The exact bytes of the frame on the wire: channel, flags, 16-bit
    /// big-endian payload length, for First fragments a 32-bit big-endian
    /// total length, then the payload.
    pub open spec fn wire_bytes(self) -> Seq<u8> {
        spec_wire_bytes(self.header, self.first_total, self.data@)
    }

    /// Build the byte form of the frame, ready to be written to the wire.
    /// Payloads of encrypted frames must already be TLS record bytes.
    pub fn build_vec(&self) -> (r: Vec<u8>)
        requires
            self.wf(),
        ensures
            r@ == self.wire_bytes(),
            r@.len() == self.wire_len(),
    {
        let n = self.data.len();
        let mut buf: Vec<u8> = Vec::new();
        self.header.add_to(&mut buf);
        push_be16(&mut buf, self.data.len() as u16);
        match &self.first_total {
            Option::Some(t) => push_be32(&mut buf, *t),
            Option::None => (),
        }
        proof {
            assert(buf@ =~= self.wire_bytes().take(self.wire_len() - n));
        }
        let mut i: usize = 0;
        while i < n
            invariant
                self.wf(),
                i <= n,
                n == self.data@.len(),
                buf@ == self.wire_bytes().take(self.wire_len() - n + i),
            decreases n - i,
        {
            buf.push(self.data[i]);
            proof {
                let k = self.wire_len() - n + i;
                assert(self.wire_bytes().len() == self.wire_len());
                assert(self.wire_bytes()[k] == self.data@[i as int]);
                assert(self.wire_bytes().take(k + 1) =~= self.wire_bytes().take(k).push(
                    self.wire_bytes()[k],
                ));
            }
            i = i + 1;
        }
        proof {
            assert(buf@ =~= self.wire_bytes());
        }
        buf
    }

    /// Split one logical message into frames none of which carries more
    /// than `MAX_FRAME_DATA_SIZE` bytes. A short message stays a single
    /// frame under the given header; a long one becomes a First fragment,
    /// some Middle fragments, and a Last fragment, whose payloads
    /// concatenate back to the message.
    pub fn build_multi_frame(f: FrameHeader, d: Vec<u8>) -> (r: Vec<AndroidAutoFrame>)
        requires
            d@.len() <= 0xFFFFFFFF,
        ensures
            r@.len() >= 1,
            concat_frame_payloads(r@) == d@,
            forall|i: int| 0 <= i < r@.len() ==> #[trigger] r@[i].wf(),
            forall|i: int|
                0 <= i < r@.len() ==> (#[trigger] r@[i]).header.channel_id == f.channel_id
                    && r@[i].header.control == f.control && r@[i].header.encryption == f.encryption,
            forall|i: int| 0 <= i < r@.len() ==> #[trigger] r@[i].data@.len() <= MAX_FRAME_DATA_SIZE,
            d@.len() <= MAX_FRAME_DATA_SIZE ==> r@.len() == 1 && r@[0].header == f,
            d@.len() > MAX_FRAME_DATA_SIZE ==> {
                &&& r@[0].header.frame_type == FrameHeaderType::First
                &&& r@[r@.len() - 1].header.frame_type == FrameHeaderType::Last
                &&& forall|i: int|
                    0 < i < r@.len() - 1 ==> (#[trigger] r@[i]).header.frame_type
                        == FrameHeaderType::Middle
            },
    {
        let mut m: Vec<AndroidAutoFrame> = Vec::new();
        let total = d.len();
        if total <= MAX_FRAME_DATA_SIZE {
            let fr = AndroidAutoFrame {
                header: f,
                data: d,
                first_total: if f.frame_type == FrameHeaderType::First {
                    Option::Some(total as u32)
                } else {
                    Option::None
                },
            };
            let ghost m0 = m@;
            m.push(fr);
            proof {
                lemma_concat_frame_payloads_push(m0, m@[0]);
                assert(concat_frame_payloads(m0) =~= Seq::<u8>::empty());
                assert(concat_frame_payloads(m@) =~= m@[0].data@);
            }
        } else {
            let mut offset: usize = 0;
            while offset < total
                invariant
                    offset <= total,
                    total == d@.len(),
                    total <= 0xFFFFFFFF,
                    total > MAX_FRAME_DATA_SIZE,
                    concat_frame_payloads(m@) == d@.take(offset as int),
                    offset == 0 <==> m@.len() == 0,
                    offset > 0 ==> m@[0].header.frame_type == FrameHeaderType::First,
                    forall|i: int| 0 <= i < m@.len() ==> #[trigger] m@[i].wf(),
                    forall|i: int|
                        0 <= i < m@.len() ==> (#[trigger] m@[i]).header.channel_id == f.channel_id
                            && m@[i].header.control == f.control && m@[i].header.encryption
                            == f.encryption,
                    forall|i: int|
                        0 <= i < m@.len() ==> #[trigger] m@[i].data@.len() <= MAX_FRAME_DATA_SIZE,
                    forall|i: int|
                        0 < i < m@.len() && i < m@.len() - 1 ==> (#[trigger] m@[i]).header.frame_type
                            == FrameHeaderType::Middle,
                    m@.len() >= 2 && offset < total ==> m@[m@.len() - 1].header.frame_type
                        == FrameHeaderType::Middle,
                    offset == total ==> m@.len() >= 2 && m@[m@.len() - 1].header.frame_type
                        == FrameHeaderType::Last,
                decreases total - offset,
            {
                let first = offset == 0;
                let remaining = total - offset;
                let chunk = if remaining < MAX_FRAME_DATA_SIZE {
                    remaining
                } else {
                    MAX_FRAME_DATA_SIZE
                };
                let last = !first && remaining <= MAX_FRAME_DATA_SIZE;
                let ftype = if first {
                    FrameHeaderType::First
                } else if last {
                    FrameHeaderType::Last
                } else {
                    FrameHeaderType::Middle
                };
                let mut piece: Vec<u8> = Vec::new();
                let mut j: usize = 0;
                while j < chunk
                    invariant
                        j <= chunk,
                        offset + chunk <= total,
                        total == d@.len(),
                        piece@ == d@.subrange(offset as int, offset + j),
                    decreases chunk - j,
                {
                    piece.push(d[offset + j]);
                    proof {
                        assert(piece@ =~= d@.subrange(offset as int, offset + j + 1));
                    }
                    j = j + 1;
                }
                let h = FrameHeader {
                    channel_id: f.channel_id,
                    frame_type: ftype,
                    control: f.control,
                    encryption: f.encryption,
                };
                let fr = AndroidAutoFrame {
                    header: h,
                    data: piece,
                    first_total: if first {
                        Option::Some(total as u32)
                    } else {
                        Option::None
                    },
                };
                let ghost old_m = m@;
                m.push(fr);
                proof {
                    lemma_concat_frame_payloads_push(old_m, m@[m@.len() - 1]);
                    assert(d@.take(offset + chunk) =~= d@.take(offset as int) + d@.subrange(
                        offset as int,
                        offset + chunk,
                    ));
                }
                offset = offset + chunk;
            }
            proof {
                assert(d@.take(total as int) =~= d@);
            }
        }
        m
    }
}

/// The bytes a frame with the given header, total-length word, and payload
/// occupies on the wire.
pub open spec fn spec_wire_bytes(header: FrameHeader, first_total: Option<u32>, data: Seq<u8>) -> Seq<
    u8,
> {
    seq![header.channel_id, header.flags_byte()] + be16_bytes(data.len() as u16) + (
    match first_total {
        Option::Some(t) => be32_bytes(t),
        Option::None => Seq::<u8>::empty(),
    }) + data
}

/// The concatenation of the payloads of a sequence of frames.
pub open spec fn concat_frame_payloads(frames: Seq<AndroidAutoFrame>) -> Seq<u8>
    decreases frames.len(),
{
    if frames.len() == 0 {
        Seq::empty()
    } else {
        concat_frame_payloads(frames.drop_last()) + frames.last().data@
    }
}

/// Appending a frame appends its payload to the concatenation.
pub proof fn lemma_concat_frame_payloads_push(frames: Seq<AndroidAutoFrame>, f: AndroidAutoFrame)
    ensures
        concat_frame_payloads(frames.push(f)) == concat_frame_payloads(frames) + f.data@,
{
    assert(frames.push(f).drop_last() =~= frames);
    assert(frames.push(f).last() == f);
}

/// Whether one whole frame lies at the given position of a byte sequence.
pub open spec fn frame_complete_at(b: Seq<u8>, pos: int) -> bool {
    &&& pos + 4 <= b.len()
    &&& {
        let ft = FrameHeaderType::from_bits_spec(b[pos + 1]);
        let len = be16_value(b[pos + 2], b[pos + 3]) as int;
        if ft == FrameHeaderType::First {
            pos + 8 + len <= b.len()
        } else {
            pos + 4 + len <= b.len()
        }
    }
}

/// A frame whose fields were read from the bytes at `pos` re-encodes to
/// exactly those bytes.
proof fn lemma_decoded_wire_bytes(f: AndroidAutoFrame, b: Seq<u8>, pos: int)
    requires
        f.wf(),
        0 <= pos,
        pos + f.wire_len() <= b.len(),
        b[pos] == f.header.channel_id,
        b[pos + 1] == f.header.flags_byte(),
        b.subrange(pos + 2, pos + 4) == be16_bytes(f.data@.len() as u16),
        f.header.frame_type == FrameHeaderType::First ==> b.subrange(pos + 4, pos + 8)
            == be32_bytes(f.first_total->Some_0),
        f.data@ == b.subrange(pos + f.wire_len() - f.data@.len(), pos + f.wire_len()),
    ensures
        b.subrange(pos, pos + f.wire_len()) == f.wire_bytes(),
{
    assert(b.subrange(pos, pos + f.wire_len()) =~= f.wire_bytes());
}

/// Copy `len` bytes starting at `start` into a fresh buffer.
pub fn copy_range(bytes: &Vec<u8>, start: usize, len: usize) -> (r: Vec<u8>)
    requires
        start + len <= bytes@.len(),
    ensures
        r@ == bytes@.subrange(start as int, start + len),
{
    let nb = bytes.len();
    let mut out: Vec<u8> = Vec::new();
    let mut i: usize = 0;
    while i < len
        invariant
            i <= len,
            start + len <= nb,
            nb == bytes@.len(),
            out@ == bytes@.subrange(start as int, start + i),
        decreases len - i,
    {
        out.push(bytes[start + i]);
        proof {
            assert(out@ =~= bytes@.subrange(start as int, start + i + 1));
        }
        i = i + 1;
    }
    out
}

/// Decode one frame lying at `pos`. Returns the frame and the number of
/// bytes it occupied, or nothing when the buffer does not yet hold a whole
/// frame. Bits 4-7 of the flags byte are ignored, so the decoded frame
/// re-encodes to the consumed bytes whenever those bits were clear.
#[verifier::rlimit(100)]
pub fn decode_frame(bytes: &Vec<u8>, pos: usize) -> (r: Option<(AndroidAutoFrame, usize)>)
    ensures
        r is Some <==> frame_complete_at(bytes@, pos as int),
        r matches Some((f, n)) ==> {
            &&& f.wf()
            &&& n == f.wire_len()
            &&& pos + n <= bytes@.len()
            &&& f.header == FrameHeader::from_bytes_spec(bytes@[pos as int], bytes@[pos + 1])
            &&& f.data@.len() == be16_value(bytes@[pos + 2], bytes@[pos + 3])
            &&& f.data@ == bytes@.subrange(pos + n - f.data@.len(), pos + n)
            &&& bytes@[pos + 1] < 16 ==> bytes@.subrange(pos as int, pos + n) == f.wire_bytes()
        },
{
    let total = bytes.len();
    if total < 4 || pos > total - 4 {
        return Option::None;
    }
    let channel = bytes[pos];
    let flags = bytes[pos + 1];
    let header = FrameHeader::from_bytes(channel, flags);
    let len = read_be16(bytes, pos + 2) as usize;
    let header_area: usize = if header.frame_type == FrameHeaderType::First {
        8
    } else {
        4
    };
    if total - pos < header_area {
        return Option::None;
    }
    if total - pos - header_area < len {
        return Option::None;
    }
    let first_total = if header.frame_type == FrameHeaderType::First {
        Option::Some(read_be32(bytes, pos + 4))
    } else {
        Option::None
    };
    let data = copy_range(bytes, pos + header_area, len);
    let f = AndroidAutoFrame { header, data, first_total };
    let n = header_area + len;
    proof {
        if bytes@[pos + 1] < 16 {
            FrameHeader::lemma_from_bytes_flags(channel, bytes@[pos + 1]);
            lemma_be16_bytes_of_value(bytes@[pos + 2], bytes@[pos + 3]);
            assert(bytes@.subrange(pos + 2, pos + 4) =~= seq![bytes@[pos + 2], bytes@[pos + 3]]);
            if f.header.frame_type == FrameHeaderType::First {
                lemma_be32_bytes_of_value(
                    bytes@[pos + 4],
                    bytes@[pos + 5],
                    bytes@[pos + 6],
                    bytes@[pos + 7],
                );
                assert(bytes@.subrange(pos + 4, pos + 8) =~= seq![
                    bytes@[pos + 4],
                    bytes@[pos + 5],
                    bytes@[pos + 6],
                    bytes@[pos + 7],
                ]);
            }
            lemma_decoded_wire_bytes(f, bytes@, pos as int);
        }
    }
    Option::Some((f, n))
}

} // verus!
