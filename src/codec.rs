use vstd::prelude::*;

use crate::error::{Error, Result};
use crate::wire::{le_bytes, le_value, lemma_le_bytes_len, lemma_le_round_trip, pow256};

verus! {

/// General structured serialization (bincode). Its value-generic encoding
/// goes through serde's traits and stands outside this crate's proofs.
#[derive(Debug, Clone, Copy, Default)]
pub struct BincodeCodec;

/// Codec for byte-buffer payloads.
#[derive(Debug, Clone, Copy, Default)]
pub struct RawCodec;

/// A byte buffer as the raw codec writes it: its length as eight
/// little-endian bytes, then the bytes.
pub open spec fn raw_encoding(bytes: Seq<u8>) -> Seq<u8> {
    le_bytes(bytes.len(), 8) + bytes
}

/// The length that an encoded buffer declares.
pub open spec fn raw_declared_len(s: Seq<u8>) -> nat {
    le_value(s.take(8))
}

/// `s` begins with a whole encoded buffer (bytes after it are ignored).
pub open spec fn raw_decodable(s: Seq<u8>) -> bool {
    s.len() >= 8 && raw_declared_len(s) <= s.len() - 8
}

/// The buffer that `s` begins with.
pub open spec fn raw_decoded(s: Seq<u8>) -> Seq<u8> {
    s.subrange(8, 8 + raw_declared_len(s) as int)
}

/// Relies on `bincode::serialize` (fixed-width little-endian integers): a byte
/// sequence is written as its length, a `u64`, followed by its bytes; writing
/// into memory does not fail.
#[verifier::external_body]
fn bincode_serialize_bytes(bytes: &[u8]) -> (r: std::result::Result<Vec<u8>, String>)
    ensures
        r is Ok,
        r->Ok_0@ == raw_encoding(bytes@),
{
    bincode::serialize(bytes).map_err(|e| e.to_string())
}

/// Relies on `bincode::deserialize` into `Vec<u8>`: reads a `u64`
/// little-endian length, then that many bytes, and fails when the input ends
/// first; trailing bytes are allowed.
#[verifier::external_body]
fn bincode_deserialize_bytes(bytes: &[u8]) -> (r: std::result::Result<Vec<u8>, String>)
    ensures
        raw_decodable(bytes@) <==> r is Ok,
        r is Ok ==> r->Ok_0@ == raw_decoded(bytes@),
{
    bincode::deserialize::<Vec<u8>>(bytes).map_err(|e| e.to_string())
}

impl RawCodec {
    /// The bytes themselves, copied.
    pub fn encode_bytes(&self, bytes: &[u8]) -> (r: Vec<u8>)
        ensures
            r@ == bytes@,
    {
        vstd::slice::slice_to_vec(bytes)
    }

    /// The bytes themselves, copied.
    pub fn decode_bytes(&self, bytes: &[u8]) -> (r: Vec<u8>)
        ensures
            r@ == bytes@,
    {
        vstd::slice::slice_to_vec(bytes)
    }

    /// Encodes a byte buffer with its length in front.
    pub fn encode(&self, bytes: &[u8]) -> (r: Result<Vec<u8>>)
        ensures
            r is Ok,
            r->Ok_0@ == raw_encoding(bytes@),
    {
        match bincode_serialize_bytes(bytes) {
            Ok(v) => Ok(v),
            Err(msg) => Err(Error::Codec(msg)),
        }
    }

    /// Decodes the byte buffer that `bytes` begins with; a codec error when
    /// the input is shorter than its length field says.
    pub fn decode(&self, bytes: &[u8]) -> (r: Result<Vec<u8>>)
        ensures
            raw_decodable(bytes@) <==> r is Ok,
            r is Ok ==> r->Ok_0@ == raw_decoded(bytes@),
            r is Err ==> r->Err_0 is Codec,
    {
        match bincode_deserialize_bytes(bytes) {
            Ok(v) => Ok(v),
            Err(msg) => Err(Error::Codec(msg)),
        }
    }
}

/// Decoding what the raw codec encoded gives back the buffer it was given.
pub proof fn lemma_raw_round_trip(bytes: Seq<u8>)
    requires
        bytes.len() <= usize::MAX,
    ensures
        raw_decodable(raw_encoding(bytes)),
        raw_decoded(raw_encoding(bytes)) == bytes,
{
    let e = raw_encoding(bytes);
    lemma_le_bytes_len(bytes.len(), 8);
    reveal_with_fuel(pow256, 9);
    assert(pow256(8) == 18446744073709551616);
    lemma_le_round_trip(bytes.len(), 8);
    assert(e.take(8) =~= le_bytes(bytes.len(), 8));
    assert(raw_decoded(e) =~= bytes);
}

} // verus!
