//! The attestation program contract and the engine interface.
//!
//! The attestation program takes a packed private input (user id, service
//! id, password at fixed offsets) and a reference artifact, and commits a
//! public journal: an existence bit for the hex-encoded target hash being
//! a substring of the artifact, and three SHA-256 digests binding the
//! artifact and the identity. An attestation binds one journal to one
//! program identity; verification checks that binding and nothing else is
//! assumed of the proving machinery.

use vstd::prelude::*;
use crate::digest::{sha256, sha256_of, hex_lower, hex_of};
use crate::wire::{copy_range, push_slice};

verus! {

/// Failure modes of the attestation engine interface.
#[derive(Clone, Copy, Debug, PartialEq, Eq, Structural)]
pub enum EngineError {
    /// The private input was malformed or the program refused to run.
    ProveFailure,
    /// The attestation does not verify against the expected program identity.
    VerifyFailure,
    /// The attestation's journal could not be decoded.
    DecodeFailure,
}

/// A program identity: the fixed 8-word identifier binding an attestation
/// to the exact computation it certifies.
pub struct ProgramId {
    pub words: Vec<u32>,
}

impl View for ProgramId {
    type V = Seq<u32>;

    open spec fn view(&self) -> Seq<u32> {
        self.words@
    }
}

impl ProgramId {
    pub open spec fn wf(&self) -> bool {
        self@.len() == 8
    }

    /// A copy with the same words.
    pub fn duplicate(&self) -> (r: ProgramId)
        ensures
            r@ == self@,
    {
        let mut words: Vec<u32> = Vec::new();
        let mut i: usize = 0;
        while i < self.words.len()
            invariant
                i <= self.words@.len(),
                words@ == self.words@.subrange(0, i as int),
            decreases self.words@.len() - i,
        {
            words.push(self.words[i]);
            i = i + 1;
            assert(words@ =~= self.words@.subrange(0, i as int));
        }
        assert(words@ =~= self.words@);
        ProgramId { words }
    }
}

/// The program identity of this protocol version.
pub fn protocol_program_id() -> (r: ProgramId)
    ensures
        r@ =~= seq![
            1836308647u32,
            1743861648u32,
            3803708556u32,
            3291731199u32,
            3589807800u32,
            2583256414u32,
            3562111121u32,
            2460626041u32,
        ],
        r.wf(),
{
    let mut words: Vec<u32> = Vec::new();
    words.push(1836308647);
    words.push(1743861648);
    words.push(3803708556);
    words.push(3291731199);
    words.push(3589807800);
    words.push(2583256414);
    words.push(3562111121);
    words.push(2460626041);
    ProgramId { words }
}

/// The mathematical value of a journal.
#[verifier::ext_equal]
pub struct JournalV {
    pub existence: u8,
    pub reference_hash: Seq<u8>,
    pub identity_hash: Seq<u8>,
    pub password_hash: Seq<u8>,
}

impl JournalV {
    pub open spec fn wf(self) -> bool {
        &&& self.existence <= 1
        &&& self.reference_hash.len() == 32
        &&& self.identity_hash.len() == 32
        &&& self.password_hash.len() == 32
    }
}

/// The public output of an attestation: an existence bit and the three
/// digests binding the artifact and the identity.
pub struct Journal {
    pub existence: u8,
    pub reference_hash: Vec<u8>,
    pub identity_hash: Vec<u8>,
    pub password_hash: Vec<u8>,
}

impl View for Journal {
    type V = JournalV;

    open spec fn view(&self) -> JournalV {
        JournalV {
            existence: self.existence,
            reference_hash: self.reference_hash@,
            identity_hash: self.identity_hash@,
            password_hash: self.password_hash@,
        }
    }
}

impl Journal {
    pub open spec fn wf(&self) -> bool {
        self@.wf()
    }

    /// A copy with the same fields.
    pub fn duplicate(&self) -> (r: Journal)
        ensures
            r@ == self@,
    {
        let r = Journal {
            existence: self.existence,
            reference_hash: copy_range(&self.reference_hash, 0, self.reference_hash.len()),
            identity_hash: copy_range(&self.identity_hash, 0, self.identity_hash.len()),
            password_hash: copy_range(&self.password_hash, 0, self.password_hash.len()),
        };
        assert(r@ =~= self@);
        r
    }
}

/// The mathematical value of an attestation.
#[verifier::ext_equal]
pub struct AttestationV {
    pub program_id: Seq<u32>,
    pub journal: JournalV,
}

impl AttestationV {
    pub open spec fn wf(self) -> bool {
        self.program_id.len() == 8 && self.journal.wf()
    }
}

/// An attestation: one journal bound to one program identity. The proving
/// machinery behind the binding is an outside capability; the library
/// relies only on the binding itself.
pub struct Attestation {
    pub program_id: ProgramId,
    pub journal: Journal,
}

impl View for Attestation {
    type V = AttestationV;

    open spec fn view(&self) -> AttestationV {
        AttestationV { program_id: self.program_id@, journal: self.journal@ }
    }
}

impl Attestation {
    pub open spec fn wf(&self) -> bool {
        self@.wf()
    }
}

/// The user id field: bytes 0 through 9 of the packed input.
pub open spec fn user_id_of(input: Seq<u8>) -> Seq<u8> {
    input.subrange(0, 10)
}

/// The service id field: bytes 11 through 20 of the packed input.
pub open spec fn service_id_of(input: Seq<u8>) -> Seq<u8> {
    input.subrange(11, 21)
}

/// The password field: bytes 22 to the end of the packed input.
pub open spec fn password_of(input: Seq<u8>) -> Seq<u8> {
    input.subrange(22, input.len() as int)
}

/// The hex-encoded target hash used as the membership key into the
/// reference artifact.
pub open spec fn target_hex_of(input: Seq<u8>) -> Seq<u8> {
    hex_of(sha256_of(user_id_of(input) + password_of(input) + service_id_of(input)))
}

/// `needle` occurs in `haystack` starting at position `i`.
pub open spec fn contains_at(haystack: Seq<u8>, needle: Seq<u8>, i: int) -> bool {
    0 <= i && i + needle.len() <= haystack.len() && haystack.subrange(
        i,
        i + needle.len() as int,
    ) == needle
}

/// `needle` occurs somewhere in `haystack`.
pub open spec fn contains_seq(haystack: Seq<u8>, needle: Seq<u8>) -> bool {
    exists|i: int| contains_at(haystack, needle, i)
}

/// The journal the attestation program commits for a packed input of at
/// least 29 bytes and a reference artifact.
pub open spec fn journal_of(input: Seq<u8>, artifact: Seq<u8>) -> JournalV {
    JournalV {
        existence: if contains_seq(artifact, target_hex_of(input)) {
            1u8
        } else {
            0u8
        },
        reference_hash: sha256_of(artifact),
        identity_hash: sha256_of(user_id_of(input) + service_id_of(input)),
        password_hash: sha256_of(password_of(input) + service_id_of(input)),
    }
}

/// `needle` occurs in `haystack` starting at `at`.
fn matches_at(haystack: &Vec<u8>, needle: &Vec<u8>, at: usize) -> (r: bool)
    requires
        at + needle@.len() <= haystack@.len(),
    ensures
        r == contains_at(haystack@, needle@, at as int),
{
    let hn = haystack.len();
    let mut j: usize = 0;
    while j < needle.len()
        invariant
            at + needle@.len() <= haystack@.len(),
            hn == haystack@.len(),
            j <= needle@.len(),
            forall|k: int| 0 <= k < j ==> haystack@[at + k] == needle@[k],
        decreases needle@.len() - j,
    {
        if haystack[at + j] != needle[j] {
            proof {
                let sub = haystack@.subrange(at as int, at as int + needle@.len() as int);
                assert(sub[j as int] != needle@[j as int]);
            }
            return false;
        }
        j = j + 1;
    }
    proof {
        assert(haystack@.subrange(at as int, at as int + needle@.len() as int) =~= needle@);
    }
    true
}

/// Naive substring search, exact against `contains_seq`.
pub fn contains_subseq(haystack: &Vec<u8>, needle: &Vec<u8>) -> (r: bool)
    ensures
        r == contains_seq(haystack@, needle@),
{
    if needle.len() == 0 {
        proof {
            assert(haystack@.subrange(0, 0) =~= needle@);
            assert(contains_at(haystack@, needle@, 0));
        }
        return true;
    }
    if needle.len() > haystack.len() {
        return false;
    }
    let hn = haystack.len();
    let last = haystack.len() - needle.len();
    let mut i: usize = 0;
    while i <= last
        invariant
            1 <= needle@.len() <= haystack@.len(),
            hn == haystack@.len(),
            last == haystack@.len() - needle@.len(),
            last < hn,
            i <= last + 1,
            forall|j: int| 0 <= j < i ==> !contains_at(haystack@, needle@, j),
        decreases last + 1 - i,
    {
        if matches_at(haystack, needle, i) {
            return true;
        }
        i = i + 1;
    }
    false
}

/// Runs the attestation program: refuses a packed input shorter than 29
/// bytes, and otherwise commits the journal given by `journal_of`. Callers
/// must treat `None` as a hard failure, not as a negative existence bit.
pub fn attestation_program(input: &Vec<u8>, artifact: &Vec<u8>) -> (r: Option<Journal>)
    ensures
        r is Some <==> input@.len() >= 29,
        r is Some ==> r->0@ == journal_of(input@, artifact@),
        r is Some ==> r->0.wf(),
        r is Some ==> (r->0.existence == 1 <==> contains_seq(artifact@, target_hex_of(input@))),
{
    if input.len() < 29 {
        return None;
    }
    let user_id = copy_range(input, 0, 10);
    let service_id = copy_range(input, 11, 21);
    let password = copy_range(input, 22, input.len());

    let mut target_input: Vec<u8> = Vec::new();
    push_slice(&mut target_input, &user_id);
    push_slice(&mut target_input, &password);
    push_slice(&mut target_input, &service_id);
    assert(target_input@ =~= user_id_of(input@) + password_of(input@) + service_id_of(input@));
    let target_digest = sha256(&target_input);
    let target_hex = hex_lower(&target_digest);
    assert(target_hex@ == target_hex_of(input@));

    let existence: u8 = if contains_subseq(artifact, &target_hex) {
        1
    } else {
        0
    };

    let reference_hash = sha256(artifact);

    let mut identity_input: Vec<u8> = Vec::new();
    push_slice(&mut identity_input, &user_id);
    push_slice(&mut identity_input, &service_id);
    assert(identity_input@ =~= user_id_of(input@) + service_id_of(input@));
    let identity_hash = sha256(&identity_input);

    let mut password_input: Vec<u8> = Vec::new();
    push_slice(&mut password_input, &password);
    push_slice(&mut password_input, &service_id);
    assert(password_input@ =~= password_of(input@) + service_id_of(input@));
    let password_hash = sha256(&password_input);

    let journal = Journal { existence, reference_hash, identity_hash, password_hash };
    assert(journal@ =~= journal_of(input@, artifact@));
    Some(journal)
}

/// Produces an attestation for the packed input against the reference
/// artifact, bound to `program_id`. Fails exactly when the attestation
/// program refuses the input.
pub fn authenticate_user(program_id: &ProgramId, input: &Vec<u8>, artifact: &Vec<u8>) -> (r: Result<
    Attestation,
    EngineError,
>)
    requires
        program_id.wf(),
    ensures
        r is Ok <==> input@.len() >= 29,
        r is Ok ==> r->Ok_0@.journal == journal_of(input@, artifact@),
        r is Ok ==> r->Ok_0@.program_id == program_id@,
        r is Ok ==> r->Ok_0.wf(),
        r is Err ==> r->Err_0 == EngineError::ProveFailure,
{
    match attestation_program(input, artifact) {
        Some(journal) => Ok(Attestation { program_id: program_id.duplicate(), journal }),
        None => Err(EngineError::ProveFailure),
    }
}

/// Compares two word sequences.
fn words_eq(a: &Vec<u32>, b: &Vec<u32>) -> (r: bool)
    ensures
        r == (a@ =~= b@),
{
    if a.len() != b.len() {
        return false;
    }
    let mut i: usize = 0;
    while i < a.len()
        invariant
            a@.len() == b@.len(),
            i <= a@.len(),
            forall|j: int| 0 <= j < i ==> a@[j] == b@[j],
        decreases a@.len() - i,
    {
        if a[i] != b[i] {
            return false;
        }
        i = i + 1;
    }
    true
}

/// Verifies an attestation against an expected program identity: accepts
/// exactly when the attestation was produced for that identity.
pub fn verify_attestation(attestation: &Attestation, expected: &ProgramId) -> (r: Result<
    (),
    EngineError,
>)
    ensures
        r is Ok <==> attestation@.program_id == expected@,
        r is Err ==> r->Err_0 == EngineError::VerifyFailure,
{
    if words_eq(&attestation.program_id.words, &expected.words) {
        Ok(())
    } else {
        Err(EngineError::VerifyFailure)
    }
}

/// The attestation round trip: proving over a packed input of at least 29
/// bytes, verifying the attestation against the same program identity,
/// and decoding its journal always succeeds, and the decoded journal is
/// exactly the journal computable from the input and artifact by the
/// hash formulas.
pub fn attest_round_trip(program_id: &ProgramId, input: &Vec<u8>, artifact: &Vec<u8>) -> (r:
    Result<Journal, EngineError>)
    requires
        program_id.wf(),
        input@.len() >= 29,
    ensures
        r is Ok,
        r is Ok ==> r->Ok_0@ == journal_of(input@, artifact@),
{
    let attestation = match authenticate_user(program_id, input, artifact) {
        Ok(a) => a,
        Err(e) => {
            return Err(e);
        },
    };
    match verify_attestation(&attestation, program_id) {
        Ok(_) => (),
        Err(e) => {
            return Err(e);
        },
    }
    decode_journal(&attestation)
}

/// Decodes the public journal out of an attestation. An attestation always
/// carries its journal, so decoding is owed success.
pub fn decode_journal(attestation: &Attestation) -> (r: Result<Journal, EngineError>)
    ensures
        r is Ok,
        r is Ok ==> r->Ok_0@ == attestation@.journal,
{
    Ok(attestation.journal.duplicate())
}

} // verus!
