use vstd::prelude::*;

use crate::error::{DecodeErrorKind, EscrowError};
use crate::instruction::{
    args_amount, args_description, args_release_time, decode_instruction_spec, InitializeJobArgs,
    WillEscrowInstruction,
};
use crate::state::{decode_job, encode_job, keys_equal, Job, JobView, Pubkey, JOB_LEN};

verus! {

/// What the platform tells the program of one supplied account.
#[derive(Debug, Clone, Copy, PartialEq, Eq)]
pub struct AccountInfo {
    pub key: Pubkey,
    /// The platform verified that this account authorized the invocation.
    pub is_signer: bool,
}

/// The record that Initialize creates.
pub open spec fn new_job(owner: Seq<u8>, amount: u64, release_time: i64, description: Seq<u8>) -> JobView {
    JobView {
        is_initialized: true,
        owner,
        freelancer: None,
        amount,
        release_time,
        description,
        is_completed: false,
    }
}

/// Initialize: the owner must sign and the record region must be funding-exempt.
pub open spec fn initialize_spec(
    owner: AccountInfo,
    amount: u64,
    release_time: i64,
    description: Seq<u8>,
    funding_exempt: bool,
) -> Result<JobView, EscrowError> {
    if !owner.is_signer {
        Err(EscrowError::Authorization)
    } else if !funding_exempt {
        Err(EscrowError::FundingPolicy)
    } else {
        Ok(new_job(owner.key@, amount, release_time, description))
    }
}

/// Apply: the freelancer must sign and the freelancer slot must be empty.
pub open spec fn apply_spec(job: JobView, freelancer: AccountInfo) -> Result<JobView, EscrowError> {
    if !freelancer.is_signer {
        Err(EscrowError::Authorization)
    } else if job.freelancer is Some {
        Err(EscrowError::StateConflict)
    } else {
        Ok(JobView { freelancer: Some(freelancer.key@), ..job })
    }
}

/// Release: five preconditions, checked in this order.
pub open spec fn release_spec(
    job: JobView,
    owner: AccountInfo,
    freelancer: AccountInfo,
    now: i64,
) -> Result<JobView, EscrowError> {
    if !owner.is_signer {
        Err(EscrowError::Authorization)
    } else if job.owner != owner.key@ {
        Err(EscrowError::AuthorizationMismatch)
    } else if job.freelancer is None {
        Err(EscrowError::AuthorizationMismatch)
    } else if job.freelancer->Some_0 != freelancer.key@ {
        Err(EscrowError::AuthorizationMismatch)
    } else if now < job.release_time {
        Err(EscrowError::Timing)
    } else {
        Ok(JobView { is_completed: true, ..job })
    }
}

/// Creates the record for a new job.
pub fn initialize(owner: &AccountInfo, args: &InitializeJobArgs, funding_exempt: bool) -> (r: Result<Job, EscrowError>)
    ensures
        initialize_spec(*owner, args.amount, args.release_time, args.description@, funding_exempt)
            == match r {
            Ok(j) => Ok(j@),
            Err(e) => Err(e),
        },
{
    if !owner.is_signer {
        return Err(EscrowError::Authorization);
    }
    if !funding_exempt {
        return Err(EscrowError::FundingPolicy);
    }
    let job = Job {
        is_initialized: true,
        owner: owner.key,
        freelancer: None,
        amount: args.amount,
        release_time: args.release_time,
        description: args.description,
        is_completed: false,
    };
    Ok(job)
}

/// Assigns the signing freelancer to a job that has none yet.
pub fn apply(job: &Job, freelancer: &AccountInfo) -> (r: Result<Job, EscrowError>)
    ensures
        apply_spec(job@, *freelancer) == match r {
            Ok(j) => Ok(j@),
            Err(e) => Err(e),
        },
{
    if !freelancer.is_signer {
        return Err(EscrowError::Authorization);
    }
    if job.freelancer.is_some() {
        return Err(EscrowError::StateConflict);
    }
    let mut next = *job;
    next.freelancer = Some(freelancer.key);
    Ok(next)
}

/// Marks the job completed once owner, freelancer and time all check out.
pub fn release(job: &Job, owner: &AccountInfo, freelancer: &AccountInfo, now: i64) -> (r: Result<Job, EscrowError>)
    ensures
        release_spec(job@, *owner, *freelancer, now) == match r {
            Ok(j) => Ok(j@),
            Err(e) => Err(e),
        },
{
    if !owner.is_signer {
        return Err(EscrowError::Authorization);
    }
    if !keys_equal(&job.owner, &owner.key) {
        return Err(EscrowError::AuthorizationMismatch);
    }
    let assigned = match &job.freelancer {
        Some(f) => f,
        None => {
            return Err(EscrowError::AuthorizationMismatch);
        },
    };
    if !keys_equal(assigned, &freelancer.key) {
        return Err(EscrowError::AuthorizationMismatch);
    }
    if now < job.release_time {
        return Err(EscrowError::Timing);
    }
    let mut next = *job;
    next.is_completed = true;
    Ok(next)
}

/// The storage region after the record `j` is written over its first 183 bytes.
pub open spec fn write_record(storage: Seq<u8>, j: JobView) -> Seq<u8> {
    encode_job(j) + storage.subrange(JOB_LEN as int, storage.len() as int)
}

/// One invocation: decode, resolve the accounts, check, transition, write.
/// `Ok` holds the new contents of the record region.
pub open spec fn process_spec(
    accounts: Seq<AccountInfo>,
    storage: Seq<u8>,
    data: Seq<u8>,
    funding_exempt: bool,
    now: i64,
) -> Result<Seq<u8>, EscrowError> {
    match decode_instruction_spec(data) {
        Err(e) => Err(e),
        Ok(WillEscrowInstruction::InitializeJob) => {
            if accounts.len() != 3 {
                Err(EscrowError::Decoding(DecodeErrorKind::AccountCount))
            } else {
                match initialize_spec(
                    accounts[0],
                    args_amount(data),
                    args_release_time(data),
                    args_description(data),
                    funding_exempt,
                ) {
                    Err(e) => Err(e),
                    Ok(j) => if storage.len() < JOB_LEN {
                        Err(EscrowError::Decoding(DecodeErrorKind::RecordTooShort))
                    } else {
                        Ok(write_record(storage, j))
                    },
                }
            }
        },
        Ok(WillEscrowInstruction::ApplyForJob) => {
            if accounts.len() != 2 {
                Err(EscrowError::Decoding(DecodeErrorKind::AccountCount))
            } else if !accounts[0].is_signer {
                Err(EscrowError::Authorization)
            } else {
                match decode_job(storage) {
                    Err(e) => Err(e),
                    Ok(j) => match apply_spec(j, accounts[0]) {
                        Err(e) => Err(e),
                        Ok(n) => Ok(write_record(storage, n)),
                    },
                }
            }
        },
        Ok(WillEscrowInstruction::ReleaseFunds) => {
            if accounts.len() != 3 {
                Err(EscrowError::Decoding(DecodeErrorKind::AccountCount))
            } else if !accounts[0].is_signer {
                Err(EscrowError::Authorization)
            } else {
                match decode_job(storage) {
                    Err(e) => Err(e),
                    Ok(j) => match release_spec(j, accounts[0], accounts[2], now) {
                        Err(e) => Err(e),
                        Ok(n) => Ok(write_record(storage, n)),
                    },
                }
            }
        },
    }
}

/// Writes the encoded record over the first 183 bytes of the region.
fn store_job(job_data: &mut Vec<u8>, job: &Job)
    requires
        old(job_data)@.len() >= JOB_LEN,
    ensures
        final(job_data)@ == write_record(old(job_data)@, job@),
{
    let bytes = job.encode();
    let mut i: usize = 0;
    while i < JOB_LEN
        invariant
            i <= JOB_LEN,
            bytes@.len() == JOB_LEN,
            old(job_data)@.len() >= JOB_LEN,
            job_data@.len() == old(job_data)@.len(),
            forall|k: int| 0 <= k < i ==> job_data@[k] == bytes@[k],
            forall|k: int| i <= k < job_data@.len() ==> job_data@[k] == old(job_data)@[k],
        decreases JOB_LEN - i,
    {
        job_data[i] = bytes[i];
        i = i + 1;
    }
    assert(job_data@ =~= write_record(old(job_data)@, job@));
}

/// Runs one instruction against the job record region `job_data`.
/// `funding_exempt` is the platform's verdict on the record region's funding,
/// and `now` the platform clock. On any error the region is left unchanged.
pub fn process_instruction(
    accounts: &[AccountInfo],
    job_data: &mut Vec<u8>,
    instruction_data: &[u8],
    funding_exempt: bool,
    now: i64,
) -> (r: Result<(), EscrowError>)
    ensures
        match process_spec(accounts@, old(job_data)@, instruction_data@, funding_exempt, now) {
            Ok(s) => r is Ok && final(job_data)@ == s,
            Err(e) => r == Err::<(), EscrowError>(e) && final(job_data)@ == old(job_data)@,
        },
{
    let instruction = WillEscrowInstruction::decode(instruction_data)?;
    match instruction {
        WillEscrowInstruction::InitializeJob => {
            if accounts.len() != 3 {
                return Err(EscrowError::Decoding(DecodeErrorKind::AccountCount));
            }
            let args = InitializeJobArgs::unpack(instruction_data)?;
            let job = initialize(&accounts[0], &args, funding_exempt)?;
            if job_data.len() < JOB_LEN {
                return Err(EscrowError::Decoding(DecodeErrorKind::RecordTooShort));
            }
            store_job(job_data, &job);
            Ok(())
        },
        WillEscrowInstruction::ApplyForJob => {
            if accounts.len() != 2 {
                return Err(EscrowError::Decoding(DecodeErrorKind::AccountCount));
            }
            let freelancer = &accounts[0];
            if !freelancer.is_signer {
                return Err(EscrowError::Authorization);
            }
            let job = Job::decode(job_data.as_slice())?;
            let next = apply(&job, freelancer)?;
            store_job(job_data, &next);
            Ok(())
        },
        WillEscrowInstruction::ReleaseFunds => {
            if accounts.len() != 3 {
                return Err(EscrowError::Decoding(DecodeErrorKind::AccountCount));
            }
            let owner = &accounts[0];
            if !owner.is_signer {
                return Err(EscrowError::Authorization);
            }
            let job = Job::decode(job_data.as_slice())?;
            let next = release(&job, owner, &accounts[2], now)?;
            store_job(job_data, &next);
            Ok(())
        },
    }
}

} // verus!
