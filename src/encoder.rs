use vstd::prelude::*;

verus! {

/// The framing byte of a chunk that more chunks follow.
pub const CHUNK_MORE: u8 = 0;

/// The framing byte of the last chunk of a message.
pub const CHUNK_LAST: u8 = 1;

/// A PET payload, as a participant hands it to the encoder.
#[derive(PartialEq, Eq, Debug, Clone)]
pub enum Payload {
    /// The sum message.
    Sum(Vec<u8>),
    /// The masked update.
    Update(Vec<u8>),
    /// The sum2 message.
    Sum2(Vec<u8>),
    /// A part of a larger message, as the encoder produces them.
    Chunk(Vec<u8>),
}

/// The encoder refuses a payload that is a chunk already.
#[derive(PartialEq, Eq, Structural, Debug, Copy, Clone)]
pub enum EncoderError {
    ChunkPayload,
}

/// The tag byte that precedes a payload's content on the wire.
pub open spec fn payload_tag(p: Payload) -> u8 {
    match p {
        Payload::Sum(_) => 1,
        Payload::Update(_) => 2,
        Payload::Sum2(_) => 3,
        Payload::Chunk(_) => 4,
    }
}

/// The content of a payload.
pub open spec fn payload_content(p: Payload) -> Seq<u8> {
    match p {
        Payload::Sum(b) => b@,
        Payload::Update(b) => b@,
        Payload::Sum2(b) => b@,
        Payload::Chunk(b) => b@,
    }
}

/// A payload's bytes: its tag, then its content.
pub open spec fn payload_bytes(p: Payload) -> Seq<u8> {
    seq![payload_tag(p)] + payload_content(p)
}

/// The data that a chunk carries: everything after its framing byte.
pub open spec fn chunk_data(c: Seq<u8>) -> Seq<u8> {
    c.subrange(1, c.len() as int)
}

/// The data of a sequence of chunks, concatenated in order.
pub open spec fn concat_data(cs: Seq<Vec<u8>>) -> Seq<u8>
    decreases cs.len(),
{
    if cs.len() == 0 {
        Seq::empty()
    } else {
        concat_data(cs.drop_last()) + chunk_data(cs.last()@)
    }
}

/// Chunks as the encoder frames them: at least one, each led by a framing
/// byte that marks the last one and only it, each carrying at most
/// `max_data` bytes where `max_data` is not zero.
pub open spec fn well_framed(cs: Seq<Vec<u8>>, max_data: nat) -> bool {
    &&& cs.len() >= 1
    &&& forall|i: int|
        0 <= i < cs.len() ==> {
            &&& (#[trigger] cs[i])@.len() >= 1
            &&& cs[i]@[0] == (if i == cs.len() - 1 {
                CHUNK_LAST
            } else {
                CHUNK_MORE
            })
            &&& max_data > 0 ==> cs[i]@.len() - 1 <= max_data
        }
}

/// Splits a payload into framed chunks that a participant sends in order.
pub struct MessageEncoder {
    pub parts: Vec<Vec<u8>>,
}

/// Return a payload's bytes: its tag, then its content.
pub fn serialize_payload(p: &Payload) -> (r: Vec<u8>)
    ensures
        r@ == payload_bytes(*p),
{
    let (tag, content): (u8, &Vec<u8>) = match p {
        Payload::Sum(b) => (1, b),
        Payload::Update(b) => (2, b),
        Payload::Sum2(b) => (3, b),
        Payload::Chunk(b) => (4, b),
    };
    let mut r: Vec<u8> = Vec::new();
    r.push(tag);
    let mut i: usize = 0;
    while i < content.len()
        invariant
            0 <= i <= content@.len(),
            r@ == seq![tag] + content@.subrange(0, i as int),
        decreases content@.len() - i,
    {
        r.push(content[i]);
        i = i + 1;
        proof {
            assert(r@ =~= seq![tag] + content@.subrange(0, i as int));
        }
    }
    proof {
        assert(content@.subrange(0, content@.len() as int) =~= content@);
    }
    r
}

/// Appending one chunk appends its data.
proof fn lemma_concat_push(cs: Seq<Vec<u8>>, c: Vec<u8>)
    ensures
        concat_data(cs.push(c)) == concat_data(cs) + chunk_data(c@),
{
    assert(cs.push(c).drop_last() =~= cs);
}

impl MessageEncoder {
    /// Frame a payload into chunks of at most `max_payload_size` data bytes
    /// each (a single chunk where it is zero). A chunk payload is refused.
    pub fn new(payload: &Payload, max_payload_size: usize) -> (r: Result<MessageEncoder, EncoderError>)
        ensures
            payload is Chunk <==> r is Err,
            r matches Ok(e) ==> {
                &&& well_framed(e.parts@, max_payload_size as nat)
                &&& concat_data(e.parts@) == payload_bytes(*payload)
            },
    {
        if let Payload::Chunk(_) = payload {
            return Err(EncoderError::ChunkPayload);
        }
        let bytes = serialize_payload(payload);
        let size: usize = if max_payload_size == 0 {
            bytes.len()
        } else {
            max_payload_size
        };
        let mut parts: Vec<Vec<u8>> = Vec::new();
        let mut start: usize = 0;
        while start < bytes.len()
            invariant
                size >= 1,
                bytes@.len() >= 1,
                max_payload_size > 0 ==> size == max_payload_size,
                max_payload_size == 0 ==> size == bytes@.len(),
                0 <= start <= bytes@.len(),
                start == bytes@.len() ==> parts@.len() >= 1,
                concat_data(parts@) == bytes@.subrange(0, start as int),
                forall|i: int|
                    0 <= i < parts@.len() ==> {
                        &&& (#[trigger] parts@[i])@.len() >= 1
                        &&& parts@[i]@[0] == (if start == bytes@.len() && i == parts@.len() - 1 {
                            CHUNK_LAST
                        } else {
                            CHUNK_MORE
                        })
                        &&& parts@[i]@.len() - 1 <= size
                    },
            decreases bytes@.len() - start,
        {
            let end: usize = if bytes.len() - start <= size {
                bytes.len()
            } else {
                start + size
            };
            let mut chunk: Vec<u8> = Vec::new();
            chunk.push(if end == bytes.len() {
                CHUNK_LAST
            } else {
                CHUNK_MORE
            });
            let mut j: usize = start;
            while j < end
                invariant
                    start <= j <= end,
                    end <= bytes@.len(),
                    chunk@.len() >= 1,
                    chunk@[0] == (if end == bytes@.len() {
                        CHUNK_LAST
                    } else {
                        CHUNK_MORE
                    }),
                    chunk_data(chunk@) == bytes@.subrange(start as int, j as int),
                decreases end - j,
            {
                let ghost prev = chunk@;
                chunk.push(bytes[j]);
                j = j + 1;
                proof {
                    assert(chunk@ == prev.push(bytes@[j - 1]));
                    assert(chunk_data(chunk@) =~= chunk_data(prev).push(bytes@[j - 1]));
                    assert(chunk_data(chunk@) =~= bytes@.subrange(start as int, j as int));
                }
            }
            let ghost before = parts@;
            proof {
                lemma_concat_push(before, chunk);
                assert(bytes@.subrange(0, end as int) =~= bytes@.subrange(0, start as int)
                    + bytes@.subrange(start as int, end as int));
            }
            parts.push(chunk);
            proof {
                assert(parts@ == before.push(chunk));
            }
            start = end;
        }
        proof {
            assert(bytes@.subrange(0, bytes@.len() as int) =~= bytes@);
        }
        Ok(MessageEncoder { parts })
    }
}

/// What the receiving side makes of a sequence of chunks: their data, where
/// they are framed as the encoder frames them.
pub open spec fn reassembled(cs: Seq<Vec<u8>>) -> Option<Seq<u8>> {
    if well_framed(cs, 0) {
        Some(concat_data(cs))
    } else {
        None
    }
}

/// The payload that a sequence of bytes holds: a known tag, then the content.
pub open spec fn parsed_payload(b: Seq<u8>) -> Option<(u8, Seq<u8>)> {
    if b.len() >= 1 && 1 <= b[0] <= 4 {
        Some((b[0], b.subrange(1, b.len() as int)))
    } else {
        None
    }
}

/// Strip the framing off a sequence of chunks and concatenate their data.
/// This fails where the chunks are not framed as the encoder frames them:
/// no chunk, an empty chunk, or a last-chunk mark anywhere but on the last.
pub fn reassemble(parts: &Vec<Vec<u8>>) -> (r: Option<Vec<u8>>)
    ensures
        r is Some <==> reassembled(parts@) is Some,
        r matches Some(b) ==> Some(b@) == reassembled(parts@),
{
    if parts.len() == 0 {
        return None;
    }
    let mut out: Vec<u8> = Vec::new();
    let mut i: usize = 0;
    while i < parts.len()
        invariant
            parts@.len() >= 1,
            0 <= i <= parts@.len(),
            out@ == concat_data(parts@.subrange(0, i as int)),
            forall|k: int|
                0 <= k < i ==> {
                    &&& (#[trigger] parts@[k])@.len() >= 1
                    &&& parts@[k]@[0] == (if k == parts@.len() - 1 {
                        CHUNK_LAST
                    } else {
                        CHUNK_MORE
                    })
                },
        decreases parts@.len() - i,
    {
        let part = &parts[i];
        let expected: u8 = if i == parts.len() - 1 {
            CHUNK_LAST
        } else {
            CHUNK_MORE
        };
        if part.len() == 0 || part[0] != expected {
            return None;
        }
        let ghost before = out@;
        let mut j: usize = 1;
        while j < part.len()
            invariant
                1 <= j <= part@.len(),
                out@ == before + part@.subrange(1, j as int),
            decreases part@.len() - j,
        {
            out.push(part[j]);
            j = j + 1;
            proof {
                assert(out@ =~= before + part@.subrange(1, j as int));
            }
        }
        proof {
            lemma_concat_push(parts@.subrange(0, i as int), *part);
            assert(parts@.subrange(0, i + 1) =~= parts@.subrange(0, i as int).push(*part));
        }
        i = i + 1;
    }
    proof {
        assert(parts@.subrange(0, parts@.len() as int) =~= parts@);
    }
    Some(out)
}

/// Read a payload back from its bytes: the tag says which kind it is.
pub fn parse_payload(b: &Vec<u8>) -> (r: Option<Payload>)
    ensures
        r is Some <==> parsed_payload(b@) is Some,
        r matches Some(p) ==> parsed_payload(b@) == Some((payload_tag(p), payload_content(p))),
{
    if b.len() == 0 {
        return None;
    }
    let tag = b[0];
    if tag < 1 || tag > 4 {
        return None;
    }
    let mut content: Vec<u8> = Vec::new();
    let mut j: usize = 1;
    while j < b.len()
        invariant
            1 <= j <= b@.len(),
            content@ == b@.subrange(1, j as int),
        decreases b@.len() - j,
    {
        content.push(b[j]);
        j = j + 1;
        proof {
            assert(content@ =~= b@.subrange(1, j as int));
        }
    }
    if tag == 1 {
        Some(Payload::Sum(content))
    } else if tag == 2 {
        Some(Payload::Update(content))
    } else if tag == 3 {
        Some(Payload::Sum2(content))
    } else {
        Some(Payload::Chunk(content))
    }
}

/// Chunking round trip: the chunks that the encoder makes of a payload,
/// with their framing stripped and their data concatenated, give back the
/// payload's bytes, from which the payload's kind and content are read back.
pub proof fn lemma_chunking_round_trip(p: Payload, max_data: nat, cs: Seq<Vec<u8>>)
    requires
        well_framed(cs, max_data),
        concat_data(cs) == payload_bytes(p),
    ensures
        reassembled(cs) == Some(payload_bytes(p)),
        parsed_payload(payload_bytes(p)) == Some((payload_tag(p), payload_content(p))),
{
    assert(payload_bytes(p).subrange(1, payload_bytes(p).len() as int) =~= payload_content(p));
}

} // verus!
