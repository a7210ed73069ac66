//! Canonical encodings of the two wire messages.
//!
//! A `Request` carries the prover's ephemeral public key and its
//! attestation; the response is a single length-prefixed ciphertext frame
//! whose plaintext is a `SignedResponse`: a detached signature over the
//! canonical encoding of a `SignBundle`. Fields encode in declaration
//! order; every decoder consumes exactly one whole message and rejects
//! anything else.

use vstd::prelude::*;
use crate::attest::{Attestation, AttestationV, Journal, JournalV};
use crate::wire::{
    copy_range, enc_bytes, le_u32, le_u64, push_slice, push_u32_le, push_u64_le, push_bytes,
    read_u32_le, read_u64_le, u32_le_bytes, u64_le_bytes, lemma_u32_round_trip,
    lemma_u64_round_trip,
};

verus! {

/// The first message: the prover's ephemeral public key (encoded bytes)
/// and its attestation.
pub struct Request {
    pub public_key: Vec<u8>,
    pub attestation: Attestation,
}

/// The mathematical value of a request.
#[verifier::ext_equal]
pub struct RequestV {
    pub public_key: Seq<u8>,
    pub attestation: AttestationV,
}

impl View for Request {
    type V = RequestV;

    open spec fn view(&self) -> RequestV {
        RequestV { public_key: self.public_key@, attestation: self.attestation@ }
    }
}

impl RequestV {
    pub open spec fn wf(self) -> bool {
        self.attestation.wf()
    }
}

impl Request {
    pub open spec fn wf(&self) -> bool {
        self@.wf()
    }
}

/// The signed session credential: the rotating session key (base64
/// bytes), the identity hash from the journal, and an issuance timestamp.
pub struct SignBundle {
    pub ssk: Vec<u8>,
    pub identity_hash: Vec<u8>,
    pub timestamp: u64,
}

/// The mathematical value of a session bundle.
#[verifier::ext_equal]
pub struct SignBundleV {
    pub ssk: Seq<u8>,
    pub identity_hash: Seq<u8>,
    pub timestamp: u64,
}

impl View for SignBundle {
    type V = SignBundleV;

    open spec fn view(&self) -> SignBundleV {
        SignBundleV {
            ssk: self.ssk@,
            identity_hash: self.identity_hash@,
            timestamp: self.timestamp,
        }
    }
}

impl SignBundleV {
    pub open spec fn wf(self) -> bool {
        self.identity_hash.len() == 32
    }
}

impl SignBundle {
    pub open spec fn wf(&self) -> bool {
        self@.wf()
    }
}

/// The plaintext of the response: a 64-byte signature over the canonical
/// encoding of the bundle, then the bundle itself.
pub struct SignedResponse {
    pub signature: Vec<u8>,
    pub bundle: SignBundle,
}

/// The mathematical value of a signed response.
#[verifier::ext_equal]
pub struct SignedResponseV {
    pub signature: Seq<u8>,
    pub bundle: SignBundleV,
}

impl View for SignedResponse {
    type V = SignedResponseV;

    open spec fn view(&self) -> SignedResponseV {
        SignedResponseV { signature: self.signature@, bundle: self.bundle@ }
    }
}

impl SignedResponseV {
    pub open spec fn wf(self) -> bool {
        self.signature.len() == 64 && self.bundle.wf()
    }
}

impl SignedResponse {
    pub open spec fn wf(&self) -> bool {
        self@.wf()
    }
}

/// The 32-byte encoding of a program identity: eight 32-bit words,
/// little-endian, in order.
pub open spec fn enc_program_id(words: Seq<u32>) -> Seq<u8> {
    u32_le_bytes(words[0]) + u32_le_bytes(words[1]) + u32_le_bytes(words[2]) + u32_le_bytes(
        words[3],
    ) + u32_le_bytes(words[4]) + u32_le_bytes(words[5]) + u32_le_bytes(words[6]) + u32_le_bytes(
        words[7],
    )
}

/// The 97-byte encoding of a journal: the existence byte, then the three
/// 32-byte digests.
pub open spec fn enc_journal(j: JournalV) -> Seq<u8> {
    seq![j.existence] + j.reference_hash + j.identity_hash + j.password_hash
}

/// The 129-byte encoding of an attestation: program identity, then journal.
pub open spec fn enc_attestation(a: AttestationV) -> Seq<u8> {
    enc_program_id(a.program_id) + enc_journal(a.journal)
}

/// The encoding of a request: the length-prefixed public key, then the
/// attestation.
pub open spec fn enc_request(r: RequestV) -> Seq<u8> {
    enc_bytes(r.public_key) + enc_attestation(r.attestation)
}

/// The encoding of a session bundle: the length-prefixed session key, the
/// identity hash, the timestamp.
pub open spec fn enc_bundle(b: SignBundleV) -> Seq<u8> {
    enc_bytes(b.ssk) + b.identity_hash + u64_le_bytes(b.timestamp)
}

/// The encoding of a signed response: the 64-byte signature, then the
/// encoded bundle.
pub open spec fn enc_signed(s: SignedResponseV) -> Seq<u8> {
    s.signature + enc_bundle(s.bundle)
}

/// What a 129-byte attestation encoding decodes to; `None` on any other
/// length and on an existence byte that is neither 0 nor 1.
pub open spec fn dec_attestation(b: Seq<u8>) -> Option<AttestationV> {
    if b.len() == 129 && b[32] <= 1 {
        Some(
            AttestationV {
                program_id: seq![
                    le_u32(b.subrange(0, 4)),
                    le_u32(b.subrange(4, 8)),
                    le_u32(b.subrange(8, 12)),
                    le_u32(b.subrange(12, 16)),
                    le_u32(b.subrange(16, 20)),
                    le_u32(b.subrange(20, 24)),
                    le_u32(b.subrange(24, 28)),
                    le_u32(b.subrange(28, 32)),
                ],
                journal: JournalV {
                    existence: b[32],
                    reference_hash: b.subrange(33, 65),
                    identity_hash: b.subrange(65, 97),
                    password_hash: b.subrange(97, 129),
                },
            },
        )
    } else {
        None
    }
}

/// What a whole buffer decodes to as a request; `None` unless the buffer
/// is exactly one request encoding.
pub open spec fn dec_request(b: Seq<u8>) -> Option<RequestV> {
    if b.len() < 8 {
        None
    } else {
        let l = le_u64(b.subrange(0, 8)) as int;
        if b.len() == 8 + l + 129 {
            match dec_attestation(b.subrange(8 + l, b.len() as int)) {
                Some(a) => Some(RequestV { public_key: b.subrange(8, 8 + l), attestation: a }),
                None => None,
            }
        } else {
            None
        }
    }
}

/// What a whole buffer decodes to as a signed response; `None` unless the
/// buffer is exactly one signed-response encoding.
pub open spec fn dec_signed(b: Seq<u8>) -> Option<SignedResponseV> {
    if b.len() < 112 {
        None
    } else {
        let l = le_u64(b.subrange(64, 72)) as int;
        if b.len() == 112 + l {
            Some(
                SignedResponseV {
                    signature: b.subrange(0, 64),
                    bundle: SignBundleV {
                        ssk: b.subrange(72, 72 + l),
                        identity_hash: b.subrange(72 + l, 104 + l),
                        timestamp: le_u64(b.subrange(104 + l, 112 + l)),
                    },
                },
            )
        } else {
            None
        }
    }
}

/// What a whole buffer decodes to as a length-prefixed frame; `None`
/// unless the buffer is exactly one frame.
pub open spec fn dec_frame(b: Seq<u8>) -> Option<Seq<u8>> {
    if b.len() < 8 {
        None
    } else {
        let l = le_u64(b.subrange(0, 8)) as int;
        if b.len() == 8 + l {
            Some(b.subrange(8, b.len() as int))
        } else {
            None
        }
    }
}

/// A well-formed attestation encodes to exactly 129 bytes.
pub proof fn lemma_enc_attestation_len(a: AttestationV)
    requires
        a.wf(),
    ensures
        enc_attestation(a).len() == 129,
{
}

/// Decoding inverts the attestation encoding.
pub proof fn lemma_attestation_round_trip(a: AttestationV)
    requires
        a.wf(),
    ensures
        dec_attestation(enc_attestation(a)) == Some(a),
{
    let b = enc_attestation(a);
    let ws = a.program_id;
    assert(b.subrange(0, 4) =~= u32_le_bytes(ws[0]));
    assert(b.subrange(4, 8) =~= u32_le_bytes(ws[1]));
    assert(b.subrange(8, 12) =~= u32_le_bytes(ws[2]));
    assert(b.subrange(12, 16) =~= u32_le_bytes(ws[3]));
    assert(b.subrange(16, 20) =~= u32_le_bytes(ws[4]));
    assert(b.subrange(20, 24) =~= u32_le_bytes(ws[5]));
    assert(b.subrange(24, 28) =~= u32_le_bytes(ws[6]));
    assert(b.subrange(28, 32) =~= u32_le_bytes(ws[7]));
    lemma_u32_round_trip(ws[0]);
    lemma_u32_round_trip(ws[1]);
    lemma_u32_round_trip(ws[2]);
    lemma_u32_round_trip(ws[3]);
    lemma_u32_round_trip(ws[4]);
    lemma_u32_round_trip(ws[5]);
    lemma_u32_round_trip(ws[6]);
    lemma_u32_round_trip(ws[7]);
    assert(b[32] == a.journal.existence);
    assert(b.subrange(33, 65) =~= a.journal.reference_hash);
    assert(b.subrange(65, 97) =~= a.journal.identity_hash);
    assert(b.subrange(97, 129) =~= a.journal.password_hash);
    assert(dec_attestation(b)->0.program_id =~= ws);
    assert(dec_attestation(b)->0 =~= a);
}

/// Decoding inverts the request encoding.
pub proof fn lemma_request_round_trip(r: RequestV)
    requires
        r.wf(),
        r.public_key.len() <= u64::MAX,
    ensures
        dec_request(enc_request(r)) == Some(r),
{
    let b = enc_request(r);
    let pk = r.public_key;
    lemma_enc_attestation_len(r.attestation);
    assert(b.subrange(0, 8) =~= u64_le_bytes(pk.len() as u64));
    lemma_u64_round_trip(pk.len() as u64);
    let l = le_u64(b.subrange(0, 8)) as int;
    assert(l == pk.len());
    assert(b.len() == 8 + l + 129);
    assert(b.subrange(8, 8 + l) =~= pk);
    assert(b.subrange(8 + l, b.len() as int) =~= enc_attestation(r.attestation));
    lemma_attestation_round_trip(r.attestation);
    assert(dec_request(b)->0 =~= r);
}

/// A strict prefix of a request encoding never decodes: truncated request
/// bytes are always refused, they can never be mistaken for a shorter
/// request.
pub proof fn lemma_request_prefix_refused(r: RequestV, n: int)
    requires
        r.wf(),
        r.public_key.len() <= u64::MAX,
        0 <= n < enc_request(r).len(),
    ensures
        dec_request(enc_request(r).subrange(0, n)) is None,
{
    let b = enc_request(r);
    let p = b.subrange(0, n);
    lemma_enc_attestation_len(r.attestation);
    if n >= 8 {
        assert(p.subrange(0, 8) =~= u64_le_bytes(r.public_key.len() as u64));
        lemma_u64_round_trip(r.public_key.len() as u64);
        assert(b.len() == 8 + r.public_key.len() + 129);
        assert(p.len() < 8 + le_u64(p.subrange(0, 8)) + 129);
    }
}

/// Decoding inverts the signed-response encoding.
pub proof fn lemma_signed_round_trip(s: SignedResponseV)
    requires
        s.wf(),
        s.bundle.ssk.len() <= u64::MAX,
    ensures
        dec_signed(enc_signed(s)) == Some(s),
{
    let b = enc_signed(s);
    let l0 = s.bundle.ssk.len() as int;
    assert(b.subrange(64, 72) =~= u64_le_bytes(s.bundle.ssk.len() as u64));
    lemma_u64_round_trip(s.bundle.ssk.len() as u64);
    let l = le_u64(b.subrange(64, 72)) as int;
    assert(l == l0);
    assert(b.len() == 112 + l);
    assert(b.subrange(0, 64) =~= s.signature);
    assert(b.subrange(72, 72 + l) =~= s.bundle.ssk);
    assert(b.subrange(72 + l, 104 + l) =~= s.bundle.identity_hash);
    assert(b.subrange(104 + l, 112 + l) =~= u64_le_bytes(s.bundle.timestamp));
    lemma_u64_round_trip(s.bundle.timestamp);
    assert(dec_signed(b)->0 =~= s);
}

/// Decoding inverts the frame encoding.
pub proof fn lemma_frame_round_trip(payload: Seq<u8>)
    requires
        payload.len() <= u64::MAX,
    ensures
        dec_frame(enc_bytes(payload)) == Some(payload),
{
    let b = enc_bytes(payload);
    assert(b.subrange(0, 8) =~= u64_le_bytes(payload.len() as u64));
    lemma_u64_round_trip(payload.len() as u64);
    assert(b.subrange(8, b.len() as int) =~= payload);
}

/// Encodes an attestation.
pub fn encode_attestation(a: &Attestation) -> (out: Vec<u8>)
    requires
        a.wf(),
    ensures
        out@ == enc_attestation(a@),
        out@.len() == 129,
{
    let mut out: Vec<u8> = Vec::new();
    push_u32_le(&mut out, a.program_id.words[0]);
    push_u32_le(&mut out, a.program_id.words[1]);
    push_u32_le(&mut out, a.program_id.words[2]);
    push_u32_le(&mut out, a.program_id.words[3]);
    push_u32_le(&mut out, a.program_id.words[4]);
    push_u32_le(&mut out, a.program_id.words[5]);
    push_u32_le(&mut out, a.program_id.words[6]);
    push_u32_le(&mut out, a.program_id.words[7]);
    out.push(a.journal.existence);
    push_slice(&mut out, &a.journal.reference_hash);
    push_slice(&mut out, &a.journal.identity_hash);
    push_slice(&mut out, &a.journal.password_hash);
    assert(out@ =~= enc_attestation(a@));
    out
}

/// Encodes a request.
pub fn encode_request(r: &Request) -> (out: Vec<u8>)
    requires
        r.wf(),
    ensures
        out@ == enc_request(r@),
{
    let mut out: Vec<u8> = Vec::new();
    push_bytes(&mut out, &r.public_key);
    let att = encode_attestation(&r.attestation);
    push_slice(&mut out, &att);
    assert(out@ =~= enc_request(r@));
    out
}

/// Encodes a session bundle.
pub fn encode_bundle(b: &SignBundle) -> (out: Vec<u8>)
    requires
        b.wf(),
    ensures
        out@ == enc_bundle(b@),
{
    let mut out: Vec<u8> = Vec::new();
    push_bytes(&mut out, &b.ssk);
    push_slice(&mut out, &b.identity_hash);
    push_u64_le(&mut out, b.timestamp);
    assert(out@ =~= enc_bundle(b@));
    out
}

/// Encodes a signed response.
pub fn encode_signed_response(s: &SignedResponse) -> (out: Vec<u8>)
    requires
        s.wf(),
    ensures
        out@ == enc_signed(s@),
{
    let mut out: Vec<u8> = Vec::new();
    push_slice(&mut out, &s.signature);
    let bundle = encode_bundle(&s.bundle);
    push_slice(&mut out, &bundle);
    assert(out@ =~= enc_signed(s@));
    out
}

/// Encodes a length-prefixed frame around a ciphertext payload.
pub fn encode_frame(payload: &Vec<u8>) -> (out: Vec<u8>)
    ensures
        out@ == enc_bytes(payload@),
{
    let mut out: Vec<u8> = Vec::new();
    push_bytes(&mut out, payload);
    assert(out@ =~= enc_bytes(payload@));
    out
}

/// Decodes a 129-byte attestation encoding; rejects any other buffer.
pub fn decode_attestation(buf: &Vec<u8>) -> (r: Option<Attestation>)
    ensures
        r is Some <==> dec_attestation(buf@) is Some,
        r is Some ==> r->0@ == dec_attestation(buf@)->0,
        r is Some ==> r->0.wf(),
{
    if buf.len() != 129 {
        return None;
    }
    let existence = buf[32];
    if existence > 1 {
        return None;
    }
    let mut words: Vec<u32> = Vec::new();
    words.push(read_u32_le(buf, 0));
    words.push(read_u32_le(buf, 4));
    words.push(read_u32_le(buf, 8));
    words.push(read_u32_le(buf, 12));
    words.push(read_u32_le(buf, 16));
    words.push(read_u32_le(buf, 20));
    words.push(read_u32_le(buf, 24));
    words.push(read_u32_le(buf, 28));
    let journal = Journal {
        existence,
        reference_hash: copy_range(buf, 33, 65),
        identity_hash: copy_range(buf, 65, 97),
        password_hash: copy_range(buf, 97, 129),
    };
    let a = Attestation {
        program_id: crate::attest::ProgramId { words },
        journal,
    };
    assert(a@.program_id =~= dec_attestation(buf@)->0.program_id);
    assert(a@ =~= dec_attestation(buf@)->0);
    Some(a)
}

/// Decodes a whole buffer as a request; rejects anything that is not
/// exactly one request encoding.
pub fn decode_request(buf: &Vec<u8>) -> (r: Option<Request>)
    ensures
        r is Some <==> dec_request(buf@) is Some,
        r is Some ==> r->0@ == dec_request(buf@)->0,
        r is Some ==> r->0.wf(),
{
    if buf.len() < 137 {
        return None;
    }
    let l = read_u64_le(buf, 0);
    let want = buf.len() - 137;
    if l != want as u64 {
        return None;
    }
    let public_key = copy_range(buf, 8, 8 + want);
    let att_bytes = copy_range(buf, 8 + want, buf.len());
    match decode_attestation(&att_bytes) {
        Some(attestation) => {
            let r = Request { public_key, attestation };
            assert(r@ =~= dec_request(buf@)->0);
            Some(r)
        },
        None => None,
    }
}

/// Decodes a whole buffer as a signed response; rejects anything that is
/// not exactly one signed-response encoding.
pub fn decode_signed_response(buf: &Vec<u8>) -> (r: Option<SignedResponse>)
    ensures
        r is Some <==> dec_signed(buf@) is Some,
        r is Some ==> r->0@ == dec_signed(buf@)->0,
        r is Some ==> r->0.wf(),
{
    if buf.len() < 112 {
        return None;
    }
    let l = read_u64_le(buf, 64);
    let want = buf.len() - 112;
    if l != want as u64 {
        return None;
    }
    let signature = copy_range(buf, 0, 64);
    let ssk = copy_range(buf, 72, 72 + want);
    let identity_hash = copy_range(buf, 72 + want, 104 + want);
    let timestamp = read_u64_le(buf, 104 + want);
    let s = SignedResponse { signature, bundle: SignBundle { ssk, identity_hash, timestamp } };
    assert(s@ =~= dec_signed(buf@)->0);
    Some(s)
}

/// Decodes a whole buffer as a length-prefixed frame.
pub fn decode_frame(buf: &Vec<u8>) -> (r: Option<Vec<u8>>)
    ensures
        r is Some <==> dec_frame(buf@) is Some,
        r is Some ==> r->0@ == dec_frame(buf@)->0,
{
    if buf.len() < 8 {
        return None;
    }
    let l = read_u64_le(buf, 0);
    let want = buf.len() - 8;
    if l != want as u64 {
        return None;
    }
    Some(copy_range(buf, 8, buf.len()))
}

/// The total length of the request that starts with these 8 header bytes,
/// or `None` if that length cannot be represented.
pub fn request_extent(prefix: &Vec<u8>) -> (r: Option<u64>)
    requires
        prefix@.len() == 8,
    ensures
        r is Some <==> le_u64(prefix@) + 137 <= u64::MAX,
        r is Some ==> r->0 == le_u64(prefix@) + 137,
{
    let l = read_u64_le(prefix, 0);
    assert(prefix@.subrange(0, 8) =~= prefix@);
    if l > u64::MAX - 137 {
        None
    } else {
        Some(l + 137)
    }
}

/// The total length of the frame that starts with these 8 header bytes,
/// or `None` if that length cannot be represented.
pub fn frame_extent(prefix: &Vec<u8>) -> (r: Option<u64>)
    requires
        prefix@.len() == 8,
    ensures
        r is Some <==> le_u64(prefix@) + 8 <= u64::MAX,
        r is Some ==> r->0 == le_u64(prefix@) + 8,
{
    let l = read_u64_le(prefix, 0);
    assert(prefix@.subrange(0, 8) =~= prefix@);
    if l > u64::MAX - 8 {
        None
    } else {
        Some(l + 8)
    }
}

} // verus!
