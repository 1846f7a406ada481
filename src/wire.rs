//! Datagram framing. A frame is a kind byte, then, for requests and replies,
//! the sequence number as eight little-endian bytes, then the payload.
//! Unsolicited pushes carry no sequence number.
use vstd::prelude::*;

verus! {

pub const KIND_REQUEST: u8 = 0;
pub const KIND_REPLY: u8 = 1;
pub const KIND_PUSH: u8 = 2;

#[derive(Clone, Debug)]
pub enum Frame {
    Request(u64, Vec<u8>),
    Reply(u64, Vec<u8>),
    Push(Vec<u8>),
}

/// The eight little-endian bytes of `x`.
pub open spec fn le_bytes(x: u64) -> Seq<u8> {
    seq![
        (x & 0xff) as u8,
        ((x >> 8) & 0xff) as u8,
        ((x >> 16) & 0xff) as u8,
        ((x >> 24) & 0xff) as u8,
        ((x >> 32) & 0xff) as u8,
        ((x >> 40) & 0xff) as u8,
        ((x >> 48) & 0xff) as u8,
        ((x >> 56) & 0xff) as u8,
    ]
}

/// The bytes of a frame.
pub open spec fn frame_bytes(f: Frame) -> Seq<u8> {
    match f {
        Frame::Request(seq, p) => seq![KIND_REQUEST] + le_bytes(seq) + p@,
        Frame::Reply(seq, p) => seq![KIND_REPLY] + le_bytes(seq) + p@,
        Frame::Push(p) => seq![KIND_PUSH] + p@,
    }
}

/// Two frames are the same frame.
pub open spec fn same_frame(a: Frame, b: Frame) -> bool {
    match (a, b) {
        (Frame::Request(s, p), Frame::Request(t, q)) => s == t && p@ == q@,
        (Frame::Reply(s, p), Frame::Reply(t, q)) => s == t && p@ == q@,
        (Frame::Push(p), Frame::Push(q)) => p@ == q@,
        _ => false,
    }
}

/// `b` has the shape of some frame: a known kind byte, and the full sequence
/// number where the kind has one.
pub open spec fn well_framed(b: Seq<u8>) -> bool {
    &&& b.len() >= 1
    &&& (b[0] == KIND_PUSH || ((b[0] == KIND_REQUEST || b[0] == KIND_REPLY) && b.len() >= 9))
}

proof fn lemma_le_bytes_inverse(x: u64, b0: u8, b1: u8, b2: u8, b3: u8, b4: u8, b5: u8, b6: u8, b7: u8)
    ensures
        (x == (b0 as u64) | ((b1 as u64) << 8) | ((b2 as u64) << 16) | ((b3 as u64) << 24)
            | ((b4 as u64) << 32) | ((b5 as u64) << 40) | ((b6 as u64) << 48) | ((b7 as u64) << 56))
            <==> (b0 == (x & 0xff) as u8 && b1 == ((x >> 8) & 0xff) as u8 && b2 == ((x >> 16)
            & 0xff) as u8 && b3 == ((x >> 24) & 0xff) as u8 && b4 == ((x >> 32) & 0xff) as u8
            && b5 == ((x >> 40) & 0xff) as u8 && b6 == ((x >> 48) & 0xff) as u8 && b7 == ((x
            >> 56) & 0xff) as u8),
{
    assert((x == (b0 as u64) | ((b1 as u64) << 8) | ((b2 as u64) << 16) | ((b3 as u64) << 24)
        | ((b4 as u64) << 32) | ((b5 as u64) << 40) | ((b6 as u64) << 48) | ((b7 as u64) << 56))
        <==> (b0 == (x & 0xff) as u8 && b1 == ((x >> 8) & 0xff) as u8 && b2 == ((x >> 16) & 0xff)
        as u8 && b3 == ((x >> 24) & 0xff) as u8 && b4 == ((x >> 32) & 0xff) as u8 && b5 == ((x
        >> 40) & 0xff) as u8 && b6 == ((x >> 48) & 0xff) as u8 && b7 == ((x >> 56) & 0xff) as u8))
        by (bit_vector);
}

/// Distinct sequence numbers have distinct bytes.
proof fn lemma_le_bytes_injective(x: u64, y: u64)
    requires
        le_bytes(x) == le_bytes(y),
    ensures
        x == y,
{
    let b = le_bytes(y);
    assert(b[0] == le_bytes(x)[0] && b[7] == le_bytes(x)[7]);
    lemma_le_bytes_inverse(x, b[0], b[1], b[2], b[3], b[4], b[5], b[6], b[7]);
    lemma_le_bytes_inverse(y, b[0], b[1], b[2], b[3], b[4], b[5], b[6], b[7]);
}

/// The sequence number held in the eight bytes of `b` from position 1.
fn seq_at(b: &[u8]) -> (r: u64)
    requires
        b@.len() >= 9,
    ensures
        le_bytes(r) == b@.subrange(1, 9),
{
    let r = (b[1] as u64) | ((b[2] as u64) << 8) | ((b[3] as u64) << 16) | ((b[4] as u64) << 24)
        | ((b[5] as u64) << 32) | ((b[6] as u64) << 40) | ((b[7] as u64) << 48) | ((b[8] as u64)
        << 56);
    proof {
        lemma_le_bytes_inverse(r, b[1], b[2], b[3], b[4], b[5], b[6], b[7], b[8]);
    }
    assert(le_bytes(r) =~= b@.subrange(1, 9));
    r
}

/// The bytes from position `from` to the end of `b`.
fn tail_of(b: &[u8], from: usize) -> (r: Vec<u8>)
    requires
        from <= b@.len(),
    ensures
        r@ == b@.subrange(from as int, b@.len() as int),
{
    let mut r: Vec<u8> = Vec::new();
    let mut i: usize = from;
    while i < b.len()
        invariant
            from <= i <= b@.len(),
            r@ == b@.subrange(from as int, i as int),
        decreases b@.len() - i,
    {
        r.push(b[i]);
        i = i + 1;
        assert(r@ =~= b@.subrange(from as int, i as int));
    }
    r
}

/// The bytes of a frame.
pub fn encode_frame(f: &Frame) -> (r: Vec<u8>)
    ensures
        r@ == frame_bytes(*f),
{
    let mut r: Vec<u8> = Vec::new();
    let (kind, seq, payload) = match f {
        Frame::Request(s, p) => (KIND_REQUEST, Some(*s), p),
        Frame::Reply(s, p) => (KIND_REPLY, Some(*s), p),
        Frame::Push(p) => (KIND_PUSH, None, p),
    };
    r.push(kind);
    match seq {
        Some(x) => {
            r.push((x & 0xff) as u8);
            r.push(((x >> 8) & 0xff) as u8);
            r.push(((x >> 16) & 0xff) as u8);
            r.push(((x >> 24) & 0xff) as u8);
            r.push(((x >> 32) & 0xff) as u8);
            r.push(((x >> 40) & 0xff) as u8);
            r.push(((x >> 48) & 0xff) as u8);
            r.push(((x >> 56) & 0xff) as u8);
            assert(r@ =~= seq![kind] + le_bytes(x));
        },
        None => {},
    }
    let ghost head = r@;
    let mut i: usize = 0;
    while i < payload.len()
        invariant
            i <= payload@.len(),
            r@ == head + payload@.subrange(0, i as int),
        decreases payload@.len() - i,
    {
        r.push(payload[i]);
        i = i + 1;
        assert(r@ =~= head + payload@.subrange(0, i as int));
    }
    assert(payload@.subrange(0, i as int) =~= payload@);
    r
}

/// Reads a frame. Fails exactly on bytes that do not have the shape of a frame.
pub fn decode_frame(b: &[u8]) -> (r: Option<Frame>)
    ensures
        r is None <==> !well_framed(b@),
        match r {
            Some(f) => frame_bytes(f) == b@,
            None => true,
        },
{
    if b.len() == 0 {
        return None;
    }
    let kind = b[0];
    if kind == KIND_PUSH {
        let p = tail_of(b, 1);
        assert(frame_bytes(Frame::Push(p)) =~= b@);
        Some(Frame::Push(p))
    } else if (kind == KIND_REQUEST || kind == KIND_REPLY) && b.len() >= 9 {
        let s = seq_at(b);
        let p = tail_of(b, 9);
        let f = if kind == KIND_REQUEST {
            Frame::Request(s, p)
        } else {
            Frame::Reply(s, p)
        };
        assert(frame_bytes(f) =~= b@);
        Some(f)
    } else {
        None
    }
}

/// Framing loses nothing: the bytes of a frame read back as that frame.
pub proof fn lemma_frame_round_trip(f: Frame, g: Frame)
    requires
        frame_bytes(g) == frame_bytes(f),
    ensures
        well_framed(frame_bytes(f)),
        same_frame(f, g),
{
    let b = frame_bytes(f);
    match f {
        Frame::Request(s, p) => {
            assert(b[0] == KIND_REQUEST);
        },
        Frame::Reply(s, p) => {
            assert(b[0] == KIND_REPLY);
        },
        Frame::Push(p) => {
            assert(b[0] == KIND_PUSH);
        },
    }
    assert(frame_bytes(g)[0] == b[0]);
    match (f, g) {
        (Frame::Request(s, p), Frame::Request(t, q)) => {
            assert(b.subrange(1, 9) =~= le_bytes(s));
            assert(frame_bytes(g).subrange(1, 9) =~= le_bytes(t));
            lemma_le_bytes_injective(s, t);
            assert(p@ =~= b.subrange(9, b.len() as int));
            assert(q@ =~= b.subrange(9, b.len() as int));
        },
        (Frame::Reply(s, p), Frame::Reply(t, q)) => {
            assert(b.subrange(1, 9) =~= le_bytes(s));
            assert(frame_bytes(g).subrange(1, 9) =~= le_bytes(t));
            lemma_le_bytes_injective(s, t);
            assert(p@ =~= b.subrange(9, b.len() as int));
            assert(q@ =~= b.subrange(9, b.len() as int));
        },
        (Frame::Push(p), Frame::Push(q)) => {
            assert(p@ =~= b.subrange(1, b.len() as int));
            assert(q@ =~= b.subrange(1, b.len() as int));
        },
        _ => {},
    }
}

} // verus!
