//! The fixed-layout wire format: a request is eight bytes, the kind's ordinal
//! as a little-endian `u32` followed by the pid as a little-endian `i32`.
//! The bytes are written and read by bincode's default (fixed-width integer)
//! encoding of the pair `(ordinal, pid)`; the length and the kind's range
//! are checked here.

use vstd::prelude::*;

use crate::req::{kind_of, ordinal_of, ReqType, Request, KIND_COUNT};

verus! {

#[verifier::external_type_specification]
#[verifier::external_body]
pub struct ExBincodeErrorKind(bincode::ErrorKind);

/// Length in bytes of every encoded request.
pub const WIRE_LEN: usize = 8;

/// The four little-endian bytes of `x`.
pub open spec fn u32_le(x: u32) -> Seq<u8> {
    seq![
        (x & 0xff) as u8,
        ((x >> 8u32) & 0xff) as u8,
        ((x >> 16u32) & 0xff) as u8,
        ((x >> 24u32) & 0xff) as u8,
    ]
}

/// The `u32` whose little-endian bytes are the first four of `b`.
pub open spec fn u32_from_le(b: Seq<u8>) -> u32 {
    (b[0] as u32) | ((b[1] as u32) << 8u32) | ((b[2] as u32) << 16u32) | ((b[3] as u32) << 24u32)
}

/// The four little-endian bytes of `x` in two's complement.
pub open spec fn i32_le(x: i32) -> Seq<u8> {
    u32_le(x as u32)
}

/// The `i32` whose little-endian two's-complement bytes are the first four of `b`.
pub open spec fn i32_from_le(b: Seq<u8>) -> i32 {
    u32_from_le(b) as i32
}

/// The bytes of the pair `(ordinal, pid)` on the wire.
pub open spec fn pair_bytes(ordinal: u32, pid: i32) -> Seq<u8> {
    u32_le(ordinal) + i32_le(pid)
}

/// The encoding of a request.
pub open spec fn encoding(r: Request) -> Seq<u8> {
    pair_bytes(ordinal_of(r.req), r.pid)
}

/// Why a datagram is not a request.
#[derive(Clone, Copy, Debug, PartialEq, Eq, Structural)]
pub enum DecodeError {
    /// The datagram is not exactly `WIRE_LEN` bytes long.
    WrongLength { len: usize },
    /// The kind's ordinal names no kind.
    UnknownKind { ordinal: u32 },
}

/// What a buffer decodes to.
pub open spec fn decoding(b: Seq<u8>) -> Result<Request, DecodeError> {
    if b.len() != WIRE_LEN {
        Err(DecodeError::WrongLength { len: b.len() as usize })
    } else {
        let ordinal = u32_from_le(b.subrange(0, 4));
        match kind_of(ordinal) {
            Some(k) => Ok(Request { req: k, pid: i32_from_le(b.subrange(4, 8)) }),
            None => Err(DecodeError::UnknownKind { ordinal }),
        }
    }
}

/// Relies on `bincode::serialize` on a `(u32, i32)`: with the default fixed-width
/// little-endian encoding and no size limit, it writes the two integers' bytes
/// one after the other and cannot fail.
#[verifier::external_body]
fn serialize_pair(ordinal: u32, pid: i32) -> (r: Result<Vec<u8>, Box<bincode::ErrorKind>>)
    ensures
        r is Ok,
        r is Ok ==> r->Ok_0@ == pair_bytes(ordinal, pid),
{
    bincode::serialize(&(ordinal, pid))
}

/// Relies on `bincode::deserialize` into a `(u32, i32)`: with the default
/// fixed-width little-endian encoding it reads the first eight bytes, ignores
/// any that follow, and fails only where fewer than eight are there.
#[verifier::external_body]
fn deserialize_pair(b: &[u8]) -> (r: Result<(u32, i32), Box<bincode::ErrorKind>>)
    ensures
        r is Ok <==> b@.len() >= 8,
        r is Ok ==> r->Ok_0 == (u32_from_le(b@.subrange(0, 4)), i32_from_le(b@.subrange(4, 8))),
{
    bincode::deserialize::<(u32, i32)>(b)
}

/// Encodes a request into its `WIRE_LEN` bytes.
pub fn encode(r: &Request) -> (b: Vec<u8>)
    ensures
        b@ == encoding(*r),
        b@.len() == WIRE_LEN,
{
    match serialize_pair(r.req.ordinal(), r.pid) {
        Ok(b) => b,
        Err(_) => Vec::new(),
    }
}

/// Decodes a datagram. It fails where the length is not `WIRE_LEN` or the
/// ordinal is not below `KIND_COUNT`; the caller drops such a datagram.
pub fn decode(b: &[u8]) -> (r: Result<Request, DecodeError>)
    ensures
        r == decoding(b@),
        r is Err <==> (b@.len() != WIRE_LEN || u32_from_le(b@.subrange(0, 4)) >= KIND_COUNT),
        r matches Err(DecodeError::WrongLength { len }) ==> len == b@.len() && len != WIRE_LEN,
{
    if b.len() != WIRE_LEN {
        return Err(DecodeError::WrongLength { len: b.len() });
    }
    match deserialize_pair(b) {
        Ok((ordinal, pid)) => match ReqType::from_ordinal(ordinal) {
            Some(k) => Ok(Request { req: k, pid }),
            None => Err(DecodeError::UnknownKind { ordinal }),
        },
        Err(_) => Err(DecodeError::WrongLength { len: b.len() }),
    }
}

proof fn lemma_u32_round_trip(x: u32)
    ensures
        u32_from_le(u32_le(x)) == x,
{
    assert(((x & 0xff) as u8 as u32) | ((((x >> 8u32) & 0xff) as u8 as u32) << 8u32) | ((((x
        >> 16u32) & 0xff) as u8 as u32) << 16u32) | ((((x >> 24u32) & 0xff) as u8 as u32)
        << 24u32) == x) by (bit_vector);
}

proof fn lemma_i32_round_trip(x: i32)
    ensures
        i32_from_le(i32_le(x)) == x,
{
    lemma_u32_round_trip(x as u32);
    assert((x as u32) as i32 == x) by (bit_vector);
}

/// Decoding an encoded request gives the request back, for every kind and
/// every pid.
pub proof fn lemma_round_trip(r: Request)
    ensures
        decoding(encoding(r)) == Ok::<Request, DecodeError>(r),
{
    let b = encoding(r);
    lemma_u32_round_trip(ordinal_of(r.req));
    lemma_i32_round_trip(r.pid);
    assert(b.subrange(0, 4) =~= u32_le(ordinal_of(r.req)));
    assert(b.subrange(4, 8) =~= i32_le(r.pid));
}

/// A buffer of the wrong length, or one whose ordinal is out of range, is
/// rejected with the matching error.
pub proof fn lemma_decode_rejects(b: Seq<u8>)
    ensures
        b.len() != WIRE_LEN ==> decoding(b) == Err::<Request, DecodeError>(
            DecodeError::WrongLength { len: b.len() as usize },
        ),
        b.len() == WIRE_LEN && u32_from_le(b.subrange(0, 4)) >= KIND_COUNT ==> decoding(b)
            == Err::<Request, DecodeError>(
            DecodeError::UnknownKind { ordinal: u32_from_le(b.subrange(0, 4)) },
        ),
{
}

/// Every buffer that decodes is exactly the encoding of what it decodes to,
/// so relaying the buffer and re-encoding the request send the same bytes.
pub proof fn lemma_decoded_is_canonical(b: Seq<u8>)
    requires
        decoding(b) is Ok,
    ensures
        encoding(decoding(b)->Ok_0) == b,
{
    let r = decoding(b)->Ok_0;
    let o = u32_from_le(b.subrange(0, 4));
    let p = i32_from_le(b.subrange(4, 8));
    assert(ordinal_of(r.req) == o);
    let (b0, b1, b2, b3) = (b[0], b[1], b[2], b[3]);
    assert(u32_le(o) =~= b.subrange(0, 4)) by {
        assert(((o & 0xff) as u8) == b0 && (((o >> 8u32) & 0xff) as u8) == b1 && (((o >> 16u32)
            & 0xff) as u8) == b2 && (((o >> 24u32) & 0xff) as u8) == b3) by (bit_vector)
            requires
                o == (b0 as u32) | ((b1 as u32) << 8u32) | ((b2 as u32) << 16u32) | ((b3 as u32)
                    << 24u32),
        ;
    }
    let (c0, c1, c2, c3) = (b[4], b[5], b[6], b[7]);
    let u = u32_from_le(b.subrange(4, 8));
    assert(u32_le(u) =~= b.subrange(4, 8)) by {
        assert(((u & 0xff) as u8) == c0 && (((u >> 8u32) & 0xff) as u8) == c1 && (((u >> 16u32)
            & 0xff) as u8) == c2 && (((u >> 24u32) & 0xff) as u8) == c3) by (bit_vector)
            requires
                u == (c0 as u32) | ((c1 as u32) << 8u32) | ((c2 as u32) << 16u32) | ((c3 as u32)
                    << 24u32),
        ;
    }
    assert((u as i32) as u32 == u) by (bit_vector);
    assert(b =~= b.subrange(0, 4) + b.subrange(4, 8));
}

} // verus!
