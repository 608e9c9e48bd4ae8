//! Opaque SSZ containers around compressed proof blobs.
//!
//! Both containers are variable-length SSZ items whose encoding is the
//! payload itself; decoding refuses an empty byte string.

use vstd::prelude::*;

verus! {

/// Why an SSZ byte string could not be decoded into a proof container.
#[derive(Debug, Clone, Copy, PartialEq, Eq)]
pub enum SszDecodeError {
    /// The bytes were too short: `len` bytes given, at least `expected` needed.
    InvalidByteLength { len: usize, expected: usize },
}

/// The SSZ encoding of a container whose payload is `payload`.
pub open spec fn spec_container_encoding(payload: Seq<u8>) -> Seq<u8> {
    payload
}

/// The outcome of decoding `bytes` into a container, as its payload.
pub open spec fn spec_container_decoding(bytes: Seq<u8>) -> Result<Seq<u8>, SszDecodeError> {
    if bytes.len() == 0 {
        Err(SszDecodeError::InvalidByteLength { len: 0, expected: 1 })
    } else {
        Ok(bytes)
    }
}

/// Opaque SSZ container wrapping the compressed bytes of a single-message proof.
#[derive(Debug, Clone)]
pub struct Devnet5SingleMessageProof {
    pub proof_bytes: Vec<u8>,
}

/// Opaque SSZ container wrapping the compressed bytes of a multi-message proof.
#[derive(Debug, Clone)]
pub struct Devnet5MultiMessageProof {
    pub proof_bytes: Vec<u8>,
}

impl View for Devnet5SingleMessageProof {
    type V = Seq<u8>;

    open spec fn view(&self) -> Seq<u8> {
        self.proof_bytes@
    }
}

impl View for Devnet5MultiMessageProof {
    type V = Seq<u8>;

    open spec fn view(&self) -> Seq<u8> {
        self.proof_bytes@
    }
}

/// Appends `payload` to `buf`.
fn append_payload(payload: &Vec<u8>, buf: &mut Vec<u8>)
    ensures
        final(buf)@ == old(buf)@ + payload@,
{
    let ghost before = buf@;
    buf.extend_from_slice(payload.as_slice());
    assert(buf@ =~= before + payload@);
}

/// Copies `bytes` into a fresh payload vector, refusing an empty input.
fn decode_payload(bytes: &[u8]) -> (res: Result<Vec<u8>, SszDecodeError>)
    ensures
        match (res, spec_container_decoding(bytes@)) {
            (Ok(v), Ok(p)) => v@ == p,
            (Err(e), Err(f)) => e == f,
            _ => false,
        },
        bytes@.len() > 0 ==> (res matches Ok(v) && v@ == bytes@),
{
    if bytes.len() == 0 {
        return Err(SszDecodeError::InvalidByteLength { len: 0, expected: 1 });
    }
    Ok(vstd::slice::slice_to_vec(bytes))
}

impl Devnet5SingleMessageProof {
    /// The container is of variable length in SSZ.
    pub fn is_ssz_fixed_len() -> (res: bool)
        ensures
            !res,
    {
        false
    }

    /// Number of bytes of the SSZ encoding.
    pub fn ssz_bytes_len(&self) -> (res: usize)
        ensures
            res == spec_container_encoding(self@).len(),
    {
        self.proof_bytes.len()
    }

    /// Appends the SSZ encoding of the container to `buf`.
    pub fn ssz_append(&self, buf: &mut Vec<u8>)
        ensures
            final(buf)@ == old(buf)@ + spec_container_encoding(self@),
            final(buf)@ == old(buf)@ + self.proof_bytes@,
    {
        append_payload(&self.proof_bytes, buf);
    }

    /// The SSZ encoding of the container.
    pub fn as_ssz_bytes(&self) -> (res: Vec<u8>)
        ensures
            res@ == spec_container_encoding(self@),
            res@ == self.proof_bytes@,
    {
        let mut buf: Vec<u8> = Vec::with_capacity(self.ssz_bytes_len());
        self.ssz_append(&mut buf);
        assert(buf@ =~= spec_container_encoding(self@));
        buf
    }

    /// Decodes the container from SSZ bytes; an empty input is refused.
    pub fn from_ssz_bytes(bytes: &[u8]) -> (res: Result<Self, SszDecodeError>)
        ensures
            match (res, spec_container_decoding(bytes@)) {
                (Ok(c), Ok(p)) => c@ == p,
                (Err(e), Err(f)) => e == f,
                _ => false,
            },
            bytes@.len() > 0 ==> (res matches Ok(c) && c.proof_bytes@ == bytes@),
            bytes@.len() == 0 ==> (res matches Err(e) && e == SszDecodeError::InvalidByteLength {
                len: 0,
                expected: 1,
            }),
    {
        match decode_payload(bytes) {
            Ok(proof_bytes) => Ok(Devnet5SingleMessageProof { proof_bytes }),
            Err(e) => Err(e),
        }
    }
}

impl Devnet5MultiMessageProof {
    /// The container is of variable length in SSZ.
    pub fn is_ssz_fixed_len() -> (res: bool)
        ensures
            !res,
    {
        false
    }

    /// Number of bytes of the SSZ encoding.
    pub fn ssz_bytes_len(&self) -> (res: usize)
        ensures
            res == spec_container_encoding(self@).len(),
    {
        self.proof_bytes.len()
    }

    /// Appends the SSZ encoding of the container to `buf`.
    pub fn ssz_append(&self, buf: &mut Vec<u8>)
        ensures
            final(buf)@ == old(buf)@ + spec_container_encoding(self@),
            final(buf)@ == old(buf)@ + self.proof_bytes@,
    {
        append_payload(&self.proof_bytes, buf);
    }

    /// The SSZ encoding of the container.
    pub fn as_ssz_bytes(&self) -> (res: Vec<u8>)
        ensures
            res@ == spec_container_encoding(self@),
            res@ == self.proof_bytes@,
    {
        let mut buf: Vec<u8> = Vec::with_capacity(self.ssz_bytes_len());
        self.ssz_append(&mut buf);
        assert(buf@ =~= spec_container_encoding(self@));
        buf
    }

    /// Decodes the container from SSZ bytes; an empty input is refused.
    pub fn from_ssz_bytes(bytes: &[u8]) -> (res: Result<Self, SszDecodeError>)
        ensures
            match (res, spec_container_decoding(bytes@)) {
                (Ok(c), Ok(p)) => c@ == p,
                (Err(e), Err(f)) => e == f,
                _ => false,
            },
            bytes@.len() > 0 ==> (res matches Ok(c) && c.proof_bytes@ == bytes@),
            bytes@.len() == 0 ==> (res matches Err(e) && e == SszDecodeError::InvalidByteLength {
                len: 0,
                expected: 1,
            }),
    {
        match decode_payload(bytes) {
            Ok(proof_bytes) => Ok(Devnet5MultiMessageProof { proof_bytes }),
            Err(e) => Err(e),
        }
    }
}

/// Wraps a single-message proof blob in its SSZ container and encodes it.
pub fn ssz_encode_single_message_proof(sig_bytes: Vec<u8>) -> (res: Vec<u8>)
    ensures
        res@ == spec_container_encoding(sig_bytes@),
        res@ == sig_bytes@,
{
    Devnet5SingleMessageProof { proof_bytes: sig_bytes }.as_ssz_bytes()
}

/// Decodes a single-message proof container and returns the blob it carries.
pub fn ssz_decode_single_message_proof(ssz_bytes: Vec<u8>) -> (res: Result<Vec<u8>, SszDecodeError>)
    ensures
        match (res, spec_container_decoding(ssz_bytes@)) {
            (Ok(v), Ok(p)) => v@ == p,
            (Err(e), Err(f)) => e == f,
            _ => false,
        },
        ssz_bytes@.len() > 0 ==> (res matches Ok(v) && v@ == ssz_bytes@),
        ssz_bytes@.len() == 0 ==> (res matches Err(e) && e == SszDecodeError::InvalidByteLength {
            len: 0,
            expected: 1,
        }),
{
    match Devnet5SingleMessageProof::from_ssz_bytes(ssz_bytes.as_slice()) {
        Ok(container) => Ok(container.proof_bytes),
        Err(e) => Err(e),
    }
}

/// Wraps a multi-message proof blob in its SSZ container and encodes it.
pub fn ssz_encode_multi_message_proof(sig_bytes: Vec<u8>) -> (res: Vec<u8>)
    ensures
        res@ == spec_container_encoding(sig_bytes@),
        res@ == sig_bytes@,
{
    Devnet5MultiMessageProof { proof_bytes: sig_bytes }.as_ssz_bytes()
}

/// Decodes a multi-message proof container and returns the blob it carries.
pub fn ssz_decode_multi_message_proof(ssz_bytes: Vec<u8>) -> (res: Result<Vec<u8>, SszDecodeError>)
    ensures
        match (res, spec_container_decoding(ssz_bytes@)) {
            (Ok(v), Ok(p)) => v@ == p,
            (Err(e), Err(f)) => e == f,
            _ => false,
        },
        ssz_bytes@.len() > 0 ==> (res matches Ok(v) && v@ == ssz_bytes@),
        ssz_bytes@.len() == 0 ==> (res matches Err(e) && e == SszDecodeError::InvalidByteLength {
            len: 0,
            expected: 1,
        }),
{
    match Devnet5MultiMessageProof::from_ssz_bytes(ssz_bytes.as_slice()) {
        Ok(container) => Ok(container.proof_bytes),
        Err(e) => Err(e),
    }
}

/// The SSZ encoding of a proof container is its payload, byte for byte:
/// same length, and every byte at the same place.
pub proof fn lemma_container_encoding_is_payload(payload: Seq<u8>)
    ensures
        spec_container_encoding(payload).len() == payload.len(),
        forall|i: int|
            0 <= i < payload.len() ==> #[trigger] spec_container_encoding(payload)[i] == payload[i],
        spec_container_encoding(payload) == payload,
{
}

/// Decoding a non-empty SSZ byte string yields those very bytes as the
/// payload, byte for byte; decoding the empty string is refused as too
/// short.
pub proof fn lemma_container_decoding_is_identity(bytes: Seq<u8>)
    ensures
        bytes.len() > 0 ==> (spec_container_decoding(bytes) matches Ok(p) && p.len() == bytes.len()
            && forall|i: int| 0 <= i < bytes.len() ==> #[trigger] p[i] == bytes[i]),
        bytes.len() > 0 ==> spec_container_decoding(bytes) == Ok::<Seq<u8>, SszDecodeError>(bytes),
        bytes.len() == 0 ==> spec_container_decoding(bytes) == Err::<Seq<u8>, SszDecodeError>(
            SszDecodeError::InvalidByteLength { len: 0, expected: 1 },
        ),
{
}

/// Decoding the encoding of a non-empty payload gives that payload back.
pub proof fn lemma_container_encode_decode(payload: Seq<u8>)
    requires
        payload.len() > 0,
    ensures
        spec_container_decoding(spec_container_encoding(payload)) == Ok::<Seq<u8>, SszDecodeError>(
            payload,
        ),
{
}

/// Decoding fails exactly on the empty byte string, and whatever decodes
/// encodes back to the very bytes it was decoded from.
pub proof fn lemma_container_decode_encode(bytes: Seq<u8>)
    ensures
        spec_container_decoding(bytes) is Err <==> bytes.len() == 0,
        spec_container_decoding(bytes) matches Ok(p) ==> spec_container_encoding(p) == bytes,
{
}

} // verus!
