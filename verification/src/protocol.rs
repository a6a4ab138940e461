//! Byte-level pieces of the wire protocol: the error raised on an invalid
//! direction byte, and the big-endian encoding of the shared 64-bit seed
//! that the server sends the client at session start.

use vstd::prelude::*;

verus! {

/// Failures of the synchronization protocol. The only decode failure is an
/// input-token byte outside the four direction codes; it is fatal for the
/// session, since the protocol has no retransmission.
#[derive(Clone, Copy, Debug, PartialEq, Eq, Structural)]
pub enum ProtocolError {
    InvalidInputToken,
}

/// The big-endian byte sequence of the seed, most significant byte first.
pub open spec fn spec_seed_bytes(seed: u64) -> Seq<u8> {
    seq![
        (seed >> 56) as u8,
        (seed >> 48) as u8,
        (seed >> 40) as u8,
        (seed >> 32) as u8,
        (seed >> 24) as u8,
        (seed >> 16) as u8,
        (seed >> 8) as u8,
        seed as u8,
    ]
}

/// The 64-bit value read back from eight big-endian bytes.
pub open spec fn spec_seed_of_bytes(b: Seq<u8>) -> u64
    recommends
        b.len() == 8,
{
    (((b[0] as u64) << 56) | ((b[1] as u64) << 48) | ((b[2] as u64) << 40) | ((b[3] as u64) << 32)
        | ((b[4] as u64) << 24) | ((b[5] as u64) << 16) | ((b[6] as u64) << 8) | (b[7] as u64)) as u64
}

/// Encodes the shared seed as the eight-byte big-endian bootstrap message.
pub fn encode_seed(seed: u64) -> (b: Vec<u8>)
    ensures
        b@ == spec_seed_bytes(seed),
{
    let mut b: Vec<u8> = Vec::new();
    b.push((seed >> 56) as u8);
    b.push((seed >> 48) as u8);
    b.push((seed >> 40) as u8);
    b.push((seed >> 32) as u8);
    b.push((seed >> 24) as u8);
    b.push((seed >> 16) as u8);
    b.push((seed >> 8) as u8);
    b.push(seed as u8);
    proof {
        assert(b@ =~= spec_seed_bytes(seed));
    }
    b
}

/// Decodes the eight-byte big-endian bootstrap message back into the seed.
pub fn decode_seed(b: &[u8]) -> (seed: u64)
    requires
        b@.len() == 8,
    ensures
        seed == spec_seed_of_bytes(b@),
{
    ((b[0] as u64) << 56) | ((b[1] as u64) << 48) | ((b[2] as u64) << 40) | ((b[3] as u64) << 32)
        | ((b[4] as u64) << 24) | ((b[5] as u64) << 16) | ((b[6] as u64) << 8) | (b[7] as u64)
}

/// Decoding the encoded seed gives the seed back: the bootstrap transfer is
/// lossless.
pub proof fn lemma_seed_round_trip(seed: u64)
    ensures
        spec_seed_of_bytes(spec_seed_bytes(seed)) == seed,
{
    let x0: u64 = ((seed >> 56) as u8) as u64;
    let x1: u64 = ((seed >> 48) as u8) as u64;
    let x2: u64 = ((seed >> 40) as u8) as u64;
    let x3: u64 = ((seed >> 32) as u8) as u64;
    let x4: u64 = ((seed >> 24) as u8) as u64;
    let x5: u64 = ((seed >> 16) as u8) as u64;
    let x6: u64 = ((seed >> 8) as u8) as u64;
    let x7: u64 = (seed as u8) as u64;
    assert((x0 << 56) | (x1 << 48) | (x2 << 40) | (x3 << 32) | (x4 << 24) | (x5 << 16) | (x6 << 8)
        | x7 == seed) by (bit_vector)
        requires
            x0 == ((seed >> 56) as u8) as u64,
            x1 == ((seed >> 48) as u8) as u64,
            x2 == ((seed >> 40) as u8) as u64,
            x3 == ((seed >> 32) as u8) as u64,
            x4 == ((seed >> 24) as u8) as u64,
            x5 == ((seed >> 16) as u8) as u64,
            x6 == ((seed >> 8) as u8) as u64,
            x7 == (seed as u8) as u64,
    ;
}

} // verus!
