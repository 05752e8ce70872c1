use vstd::prelude::*;
use vstd::bytes::*;
use vstd::slice::slice_subrange;

use crate::error::{DecodeErrorKind, EscrowError};

verus! {

/// Width in bytes of an account identity.
pub const KEY_LEN: usize = 32;

/// Width in bytes of a task description.
pub const DESCRIPTION_LEN: usize = 100;

/// Width in bytes of a stored job record.
pub const JOB_LEN: usize = 183;

/// An account identity: an opaque 32-byte value.
pub type Pubkey = [u8; 32];

/// The persistent escrow record.
#[derive(Debug, Clone, Copy, PartialEq, Eq)]
pub struct Job {
    pub is_initialized: bool,
    pub owner: Pubkey,
    pub freelancer: Option<Pubkey>,
    pub amount: u64,
    pub release_time: i64,
    pub description: [u8; 100],
    pub is_completed: bool,
}

/// The mathematical value of a [`Job`]: identities and description as byte sequences.
pub struct JobView {
    pub is_initialized: bool,
    pub owner: Seq<u8>,
    pub freelancer: Option<Seq<u8>>,
    pub amount: u64,
    pub release_time: i64,
    pub description: Seq<u8>,
    pub is_completed: bool,
}

impl JobView {
    /// Every identity is 32 bytes and the description 100 bytes.
    pub open spec fn wf(self) -> bool {
        &&& self.owner.len() == KEY_LEN
        &&& (self.freelancer matches Some(f) ==> f.len() == KEY_LEN)
        &&& self.description.len() == DESCRIPTION_LEN
    }
}

impl View for Job {
    type V = JobView;

    open spec fn view(&self) -> JobView {
        JobView {
            is_initialized: self.is_initialized,
            owner: self.owner@,
            freelancer: match self.freelancer {
                Some(f) => Some(f@),
                None => None,
            },
            amount: self.amount,
            release_time: self.release_time,
            description: self.description@,
            is_completed: self.is_completed,
        }
    }
}

pub open spec fn bool_byte(b: bool) -> u8 {
    if b { 1u8 } else { 0u8 }
}

/// The stored form of an optional identity: a presence byte, then 32 bytes
/// (zeros when absent).
pub open spec fn option_key_bytes(k: Option<Seq<u8>>) -> Seq<u8> {
    match k {
        Some(f) => seq![1u8] + f,
        None => seq![0u8] + Seq::new(KEY_LEN as nat, |i: int| 0u8),
    }
}

/// The fixed 183-byte layout of a record.
pub open spec fn encode_job(j: JobView) -> Seq<u8> {
    seq![bool_byte(j.is_initialized)]
        + j.owner
        + option_key_bytes(j.freelancer)
        + spec_u64_to_le_bytes(j.amount)
        + spec_u64_to_le_bytes(j.release_time as u64)
        + j.description
        + seq![bool_byte(j.is_completed)]
}

/// The record read from the first 183 bytes of `b`, assuming they decode.
pub open spec fn job_at(b: Seq<u8>) -> JobView {
    JobView {
        is_initialized: b[0] == 1,
        owner: b.subrange(1, 33),
        freelancer: if b[33] == 1 { Some(b.subrange(34, 66)) } else { None },
        amount: spec_u64_from_le_bytes(b.subrange(66, 74)),
        release_time: spec_u64_from_le_bytes(b.subrange(74, 82)) as i64,
        description: b.subrange(82, 182),
        is_completed: b[182] == 1,
    }
}

/// What decoding a storage region yields: the region must hold at least a
/// whole record, and its two booleans and presence byte must each be 0 or 1.
pub open spec fn decode_job(b: Seq<u8>) -> Result<JobView, EscrowError> {
    if b.len() < JOB_LEN {
        Err(EscrowError::Decoding(DecodeErrorKind::RecordTooShort))
    } else if b[0] > 1 || b[33] > 1 || b[182] > 1 {
        Err(EscrowError::Decoding(DecodeErrorKind::InvalidTag))
    } else {
        Ok(job_at(b))
    }
}

/// `true` iff the two identities are the same bytes.
pub fn keys_equal(a: &Pubkey, b: &Pubkey) -> (r: bool)
    ensures
        r == (a@ == b@),
{
    let mut i: usize = 0;
    while i < KEY_LEN
        invariant
            i <= KEY_LEN,
            a@.subrange(0, i as int) == b@.subrange(0, i as int),
        decreases KEY_LEN - i,
    {
        if a[i] != b[i] {
            assert(a@[i as int] != b@[i as int]);
            return false;
        }
        assert(a@.subrange(0, i + 1) =~= a@.subrange(0, i as int).push(a@[i as int]));
        assert(b@.subrange(0, i + 1) =~= b@.subrange(0, i as int).push(b@[i as int]));
        i = i + 1;
    }
    assert(a@ =~= a@.subrange(0, KEY_LEN as int));
    assert(b@ =~= b@.subrange(0, KEY_LEN as int));
    true
}

fn read_key(data: &[u8], start: usize) -> (r: Pubkey)
    requires
        start + KEY_LEN <= data@.len(),
    ensures
        r@ == data@.subrange(start as int, start + KEY_LEN),
{
    let mut r: Pubkey = [0u8; 32];
    let n = data.len();
    let mut i: usize = 0;
    while i < KEY_LEN
        invariant
            i <= KEY_LEN,
            n == data@.len(),
            start + KEY_LEN <= n,
            forall|k: int| 0 <= k < i ==> r@[k] == data@[start + k],
        decreases KEY_LEN - i,
    {
        r[i] = data[start + i];
        i = i + 1;
    }
    assert(r@ =~= data@.subrange(start as int, start + KEY_LEN));
    r
}

pub(crate) fn read_description(data: &[u8], start: usize) -> (r: [u8; 100])
    requires
        start + DESCRIPTION_LEN <= data@.len(),
    ensures
        r@ == data@.subrange(start as int, start + DESCRIPTION_LEN),
{
    let mut r: [u8; 100] = [0u8; 100];
    let n = data.len();
    let mut i: usize = 0;
    while i < DESCRIPTION_LEN
        invariant
            i <= DESCRIPTION_LEN,
            n == data@.len(),
            start + DESCRIPTION_LEN <= n,
            forall|k: int| 0 <= k < i ==> r@[k] == data@[start + k],
        decreases DESCRIPTION_LEN - i,
    {
        r[i] = data[start + i];
        i = i + 1;
    }
    assert(r@ =~= data@.subrange(start as int, start + DESCRIPTION_LEN));
    r
}

fn push_bytes(out: &mut Vec<u8>, s: &[u8])
    ensures
        final(out)@ == old(out)@ + s@,
{
    let mut i: usize = 0;
    while i < s.len()
        invariant
            i <= s@.len(),
            out@ == old(out)@ + s@.subrange(0, i as int),
        decreases s@.len() - i,
    {
        out.push(s[i]);
        assert(s@.subrange(0, i + 1) =~= s@.subrange(0, i as int).push(s@[i as int]));
        i = i + 1;
    }
    assert(s@.subrange(0, s@.len() as int) =~= s@);
}

/// The stored form of a boolean.
pub fn bool_to_byte(b: bool) -> (r: u8)
    ensures
        r == bool_byte(b),
{
    if b { 1 } else { 0 }
}

impl Job {
    /// Serializes the record into its fixed 183-byte layout.
    pub fn encode(&self) -> (r: Vec<u8>)
        ensures
            r@ == encode_job(self@),
            r@.len() == JOB_LEN,
    {
        proof { lemma_auto_spec_u64_to_from_le_bytes(); }
        let mut out: Vec<u8> = Vec::with_capacity(JOB_LEN);
        out.push(bool_to_byte(self.is_initialized));
        push_bytes(&mut out, &self.owner);
        match &self.freelancer {
            Some(f) => {
                out.push(1u8);
                push_bytes(&mut out, f);
            },
            None => {
                out.push(0u8);
                let zeros: Pubkey = [0u8; 32];
                push_bytes(&mut out, &zeros);
                assert(zeros@ =~= Seq::new(KEY_LEN as nat, |i: int| 0u8));
            },
        }
        let amount = u64_to_le_bytes(self.amount);
        push_bytes(&mut out, amount.as_slice());
        let release = u64_to_le_bytes(self.release_time as u64);
        push_bytes(&mut out, release.as_slice());
        push_bytes(&mut out, &self.description);
        out.push(bool_to_byte(self.is_completed));
        assert(out@ =~= encode_job(self@));
        out
    }

    /// Reads a record from the first 183 bytes of a storage region.
    pub fn decode(data: &[u8]) -> (r: Result<Job, EscrowError>)
        ensures
            decode_job(data@) == match r {
                Ok(j) => Ok(j@),
                Err(e) => Err(e),
            },
    {
        if data.len() < JOB_LEN {
            return Err(EscrowError::Decoding(DecodeErrorKind::RecordTooShort));
        }
        if data[0] > 1 || data[33] > 1 || data[182] > 1 {
            return Err(EscrowError::Decoding(DecodeErrorKind::InvalidTag));
        }
        let owner = read_key(data, 1);
        let freelancer = if data[33] == 1 {
            Some(read_key(data, 34))
        } else {
            None
        };
        let amount = u64_from_le_bytes(slice_subrange(data, 66, 74));
        let release_time = u64_from_le_bytes(slice_subrange(data, 74, 82)) as i64;
        let description = read_description(data, 82);
        let job = Job {
            is_initialized: data[0] == 1,
            owner,
            freelancer,
            amount,
            release_time,
            description,
            is_completed: data[182] == 1,
        };
        assert(job@ == job_at(data@));
        Ok(job)
    }
}

/// Decoding the encoding of a well-formed record gives back that record.
pub proof fn lemma_decode_encode(j: JobView)
    requires
        j.wf(),
    ensures
        decode_job(encode_job(j)) == Ok::<JobView, EscrowError>(j),
{
    lemma_auto_spec_u64_to_from_le_bytes();
    let b = encode_job(j);
    let amount_bytes = spec_u64_to_le_bytes(j.amount);
    let release_bytes = spec_u64_to_le_bytes(j.release_time as u64);
    assert(b.len() == JOB_LEN);
    assert(b.subrange(1, 33) =~= j.owner);
    assert(b.subrange(66, 74) =~= amount_bytes);
    assert(b.subrange(74, 82) =~= release_bytes);
    assert(b.subrange(82, 182) =~= j.description);
    let t = j.release_time;
    assert(((t as u64) as i64) == t) by (bit_vector);
    match j.freelancer {
        Some(f) => {
            assert(b.subrange(34, 66) =~= f);
        },
        None => {},
    }
    assert(job_at(b) =~= j);
}

} // verus!
