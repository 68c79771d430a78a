//! Streaming receipt of frames: the header receiver that consumes the wire
//! byte by byte, and the frame receiver that tracks the length area and
//! reassembles fragmented messages per channel.

use vstd::prelude::*;

use crate::bytes::be16_value;
use crate::frame::{AndroidAutoFrame, FrameHeader, FrameHeaderType};

verus! {

/// Receives the two header bytes of a frame, one byte at a time, so that
/// receipt can be resumed after a partial read.
pub struct FrameHeaderReceiver {
    /// The channel byte, once it has arrived.
    pub channel_id: Option<u8>,
}

impl FrameHeaderReceiver {
    /// A receiver that has seen nothing yet.
    pub fn new() -> (r: FrameHeaderReceiver)
        ensures
            r.channel_id is None,
    {
        FrameHeaderReceiver { channel_id: Option::None }
    }

    /// Consume the next wire byte. The first byte names the channel; the
    /// second carries the flags and completes the header, resetting the
    /// receiver for the next frame.
    pub fn read(&mut self, b: u8) -> (r: Option<FrameHeader>)
        ensures
            old(self).channel_id is None ==> r is None && final(self).channel_id == Some(b),
            old(self).channel_id matches Some(c) ==> r == Some(FrameHeader::from_bytes_spec(c, b))
                && final(self).channel_id is None,
    {
        match self.channel_id {
            Option::None => {
                self.channel_id = Option::Some(b);
                Option::None
            },
            Option::Some(c) => {
                self.channel_id = Option::None;
                Option::Some(FrameHeader::from_bytes(c, b))
            },
        }
    }
}

/// What one fragment does to a channel's reassembly buffer: the new buffer
/// contents, and the completed logical message if the fragment closed one.
pub open spec fn reassembly_step(buf: Seq<u8>, ft: FrameHeaderType, payload: Seq<u8>) -> (
    Seq<u8>,
    Option<Seq<u8>>,
) {
    match ft {
        FrameHeaderType::Single => (buf, Option::Some(payload)),
        FrameHeaderType::First => (payload, Option::None),
        FrameHeaderType::Middle => (buf + payload, Option::None),
        FrameHeaderType::Last => (Seq::empty(), Option::Some(buf + payload)),
    }
}

/// The concatenation of a sequence of payloads.
pub open spec fn concat_payloads(ps: Seq<Seq<u8>>) -> Seq<u8>
    decreases ps.len(),
{
    if ps.len() == 0 {
        Seq::empty()
    } else {
        concat_payloads(ps.drop_last()) + ps.last()
    }
}

/// The buffer and output after a whole sequence of fragments of one channel
/// has been fed in order.
pub open spec fn reassembly_run(buf0: Seq<u8>, kinds: Seq<FrameHeaderType>, ps: Seq<Seq<u8>>) -> (
    Seq<u8>,
    Option<Seq<u8>>,
)
    decreases ps.len(),
{
    if ps.len() == 0 {
        (buf0, Option::None)
    } else {
        let prev = reassembly_run(buf0, kinds.drop_last(), ps.drop_last());
        reassembly_step(prev.0, kinds[ps.len() - 1], ps.last())
    }
}

/// A fragment sequence that carries one logical message: a First fragment,
/// any number of Middle fragments, and a closing Last fragment.
pub open spec fn is_fragment_sequence(kinds: Seq<FrameHeaderType>) -> bool {
    &&& kinds.len() >= 2
    &&& kinds[0] == FrameHeaderType::First
    &&& kinds.last() == FrameHeaderType::Last
    &&& forall|i: int| 0 < i < kinds.len() - 1 ==> kinds[i] == FrameHeaderType::Middle
}

/// After a First fragment and any run of Middle fragments, the channel's
/// buffer holds exactly the concatenation of their payloads.
proof fn lemma_open_run_buffer(buf0: Seq<u8>, kinds: Seq<FrameHeaderType>, ps: Seq<Seq<u8>>)
    requires
        kinds.len() == ps.len(),
        ps.len() >= 1,
        kinds[0] == FrameHeaderType::First,
        forall|i: int| 0 < i < kinds.len() ==> kinds[i] == FrameHeaderType::Middle,
    ensures
        reassembly_run(buf0, kinds, ps).0 == concat_payloads(ps),
        reassembly_run(buf0, kinds, ps).1 is None,
    decreases ps.len(),
{
    if ps.len() == 1 {
        assert(ps.drop_last().len() == 0);
        assert(concat_payloads(ps.drop_last()) == Seq::<u8>::empty());
        assert(concat_payloads(ps) =~= ps.last());
    } else {
        lemma_open_run_buffer(buf0, kinds.drop_last(), ps.drop_last());
    }
}

/// Reassembling a First, Middle-run, Last fragment sequence yields exactly
/// the concatenation of the fragment payloads, whatever the buffer held
/// before the First fragment arrived.
pub proof fn lemma_reassembly_concat(buf0: Seq<u8>, kinds: Seq<FrameHeaderType>, ps: Seq<Seq<u8>>)
    requires
        kinds.len() == ps.len(),
        is_fragment_sequence(kinds),
    ensures
        reassembly_run(buf0, kinds, ps).1 == Some(concat_payloads(ps)),
{
    lemma_open_run_buffer(buf0, kinds.drop_last(), ps.drop_last());
}

/// Receives the length area and payload of frames whose header was already
/// read, and reassembles fragmented messages, with one buffer per channel.
pub struct AndroidAutoFrameReceiver {
    /// The payload length of the frame being received, once known.
    pub len: Option<u16>,
    /// One reassembly buffer for each of the 256 channels.
    pub rx_sofar: Vec<Vec<u8>>,
}

impl AndroidAutoFrameReceiver {
    /// The receiver always holds one buffer per possible channel.
    pub open spec fn wf(self) -> bool {
        self.rx_sofar@.len() == 256
    }

    /// The bytes buffered so far towards the next logical message of a channel.
    pub open spec fn buffered(self, c: u8) -> Seq<u8> {
        self.rx_sofar@[c as int]@
    }

    /// A receiver with empty buffers, expecting a length area next.
    pub fn new() -> (r: AndroidAutoFrameReceiver)
        ensures
            r.wf(),
            r.len is None,
            forall|c: u8| r.buffered(c) == Seq::<u8>::empty(),
    {
        let mut bufs: Vec<Vec<u8>> = Vec::new();
        let mut i: usize = 0;
        while i < 256
            invariant
                i <= 256,
                bufs@.len() == i,
                forall|j: int| 0 <= j < i ==> #[trigger] bufs@[j]@ == Seq::<u8>::empty(),
            decreases 256 - i,
        {
            bufs.push(Vec::new());
            i = i + 1;
        }
        AndroidAutoFrameReceiver { len: Option::None, rx_sofar: bufs }
    }

    /// How many bytes of the frame must be read next: the length area when
    /// the length is not yet known (six bytes for a First fragment, which
    /// carries the informational total length, else two), afterwards the
    /// payload itself.
    pub fn needed(&self, header: &FrameHeader) -> (r: usize)
        ensures
            self.len is None ==> r as int == (if header.frame_type == FrameHeaderType::First {
                6int
            } else {
                2int
            }),
            self.len matches Some(l) ==> r as int == l as int,
    {
        match self.len {
            Option::None => {
                if header.frame_type == FrameHeaderType::First {
                    6
                } else {
                    2
                }
            },
            Option::Some(l) => l as usize,
        }
    }

    /// Consume the length area of a frame. The first two bytes are the
    /// big-endian payload length; a First fragment's four extra bytes, the
    /// informational total length, are read and not needed further.
    pub fn read_length(&mut self, header: &FrameHeader, bytes: &Vec<u8>)
        requires
            old(self).len is None,
            bytes@.len() == (if header.frame_type == FrameHeaderType::First {
                6int
            } else {
                2int
            }),
        ensures
            final(self).len == Some(be16_value(bytes@[0], bytes@[1])),
            final(self).rx_sofar == old(self).rx_sofar,
    {
        let b0 = bytes[0];
        let b1 = bytes[1];
        self.len = Option::Some((b0 as u16) * 0x100 + (b1 as u16));
    }

    /// Consume the payload of a frame, already decrypted where the frame
    /// was encrypted. A Single payload is a whole logical message; a First
    /// payload opens its channel's buffer anew; a Middle payload extends it;
    /// a Last payload closes it and yields the reassembled message under the
    /// closing fragment's header.
    pub fn read_payload(&mut self, header: &FrameHeader, data: Vec<u8>) -> (r: Option<
        AndroidAutoFrame,
    >)
        requires
            old(self).len is Some,
            old(self).wf(),
        ensures
            final(self).wf(),
            final(self).len is None,
            ({
                let step = reassembly_step(
                    old(self).buffered(header.channel_id),
                    header.frame_type,
                    data@,
                );
                &&& final(self).buffered(header.channel_id) == step.0
                &&& match r {
                    Option::Some(f) => step.1 == Some(f.data@) && f.header == *header
                        && f.first_total is None,
                    Option::None => step.1 is None,
                }
            }),
            forall|c: u8|
                c != header.channel_id ==> final(self).buffered(c) == old(self).buffered(c),
    {
        self.len = Option::None;
        let c = header.channel_id as usize;
        match header.frame_type {
            FrameHeaderType::Single => {
                Option::Some(
                    AndroidAutoFrame { header: *header, data, first_total: Option::None },
                )
            },
            FrameHeaderType::First => {
                let ghost prev = self.rx_sofar@;
                let _stale = self.rx_sofar.remove(c);
                self.rx_sofar.insert(c, data);
                proof {
                    assert forall|j: int| 0 <= j < 256 && j != c implies self.rx_sofar@[j]
                        == prev[j] by {
                        assert(self.rx_sofar@ == prev.remove(c as int).insert(c as int, data));
                    }
                }
                Option::None
            },
            FrameHeaderType::Middle => {
                let ghost prev = self.rx_sofar@;
                let mut buf = self.rx_sofar.remove(c);
                let mut d = data;
                buf.append(&mut d);
                self.rx_sofar.insert(c, buf);
                proof {
                    assert(self.buffered(header.channel_id) == prev[c as int]@ + data@);
                    assert forall|j: int| 0 <= j < 256 && j != c implies self.rx_sofar@[j]
                        == prev[j] by {
                    }
                }
                Option::None
            },
            FrameHeaderType::Last => {
                let ghost prev = self.rx_sofar@;
                let mut buf = self.rx_sofar.remove(c);
                let mut d = data;
                buf.append(&mut d);
                self.rx_sofar.insert(c, Vec::new());
                proof {
                    assert(self.buffered(header.channel_id) == Seq::<u8>::empty());
                    assert forall|j: int| 0 <= j < 256 && j != c implies self.rx_sofar@[j]
                        == prev[j] by {
                    }
                }
                Option::Some(AndroidAutoFrame { header: *header, data: buf, first_total: Option::None })
            },
        }
    }
}

} // verus!
