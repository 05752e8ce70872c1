use vstd::prelude::*;
use vstd::bytes::*;

use crate::error::{DecodeErrorKind, EscrowError};
use crate::instruction::{
    args_amount, args_description, args_release_time, decode_instruction_spec,
    WillEscrowInstruction,
};
use crate::processor::{apply_spec, new_job, process_spec, write_record, AccountInfo};
use crate::state::{decode_job, encode_job, lemma_decode_encode, JobView, JOB_LEN};

verus! {

/// Decoding looks only at the first 183 bytes of a region.
pub proof fn lemma_decode_ignores_tail(b: Seq<u8>, rest: Seq<u8>)
    requires
        b.len() == JOB_LEN,
    ensures
        decode_job(b + rest) == decode_job(b),
{
    let c = b + rest;
    assert(c.subrange(1, 33) =~= b.subrange(1, 33));
    assert(c.subrange(34, 66) =~= b.subrange(34, 66));
    assert(c.subrange(66, 74) =~= b.subrange(66, 74));
    assert(c.subrange(74, 82) =~= b.subrange(74, 82));
    assert(c.subrange(82, 182) =~= b.subrange(82, 182));
}

/// A record that decodes has identities of 32 bytes and a description of 100.
pub proof fn lemma_decoded_wf(s: Seq<u8>)
    requires
        decode_job(s) is Ok,
    ensures
        decode_job(s)->Ok_0.wf(),
{
}

/// Reading back a region right after a record was written to it gives that record.
pub proof fn lemma_read_after_write(storage: Seq<u8>, j: JobView)
    requires
        j.wf(),
        storage.len() >= JOB_LEN,
    ensures
        decode_job(write_record(storage, j)) == Ok::<JobView, EscrowError>(j),
{
    lemma_auto_spec_u64_to_from_le_bytes();
    lemma_decode_ignores_tail(encode_job(j), storage.subrange(JOB_LEN as int, storage.len() as int));
    lemma_decode_encode(j);
}

/// Initialize by a signing owner on a funding-exempt region that can hold a
/// record succeeds, and the region then holds an initialized, unassigned,
/// uncompleted record whose owner, amount, release time and description are
/// the caller's identity and the supplied arguments.
pub proof fn lemma_initialize_creates_open_job(
    accounts: Seq<AccountInfo>,
    storage: Seq<u8>,
    data: Seq<u8>,
    now: i64,
)
    requires
        decode_instruction_spec(data) == Ok::<WillEscrowInstruction, EscrowError>(
            WillEscrowInstruction::InitializeJob,
        ),
        accounts.len() == 3,
        accounts[0].is_signer,
        storage.len() >= JOB_LEN,
    ensures
        process_spec(accounts, storage, data, true, now) matches Ok(s) && decode_job(s) == Ok::<
            JobView,
            EscrowError,
        >(
            JobView {
                is_initialized: true,
                owner: accounts[0].key@,
                freelancer: None,
                amount: args_amount(data),
                release_time: args_release_time(data),
                description: args_description(data),
                is_completed: false,
            },
        ),
{
    let j = new_job(
        accounts[0].key@,
        args_amount(data),
        args_release_time(data),
        args_description(data),
    );
    lemma_read_after_write(storage, j);
}

/// Apply by any signer on a record whose freelancer is already present fails
/// with a state conflict.
pub proof fn lemma_apply_on_assigned_conflicts(
    accounts: Seq<AccountInfo>,
    storage: Seq<u8>,
    data: Seq<u8>,
    funding_exempt: bool,
    now: i64,
)
    requires
        decode_instruction_spec(data) == Ok::<WillEscrowInstruction, EscrowError>(
            WillEscrowInstruction::ApplyForJob,
        ),
        accounts.len() == 2,
        accounts[0].is_signer,
        decode_job(storage) matches Ok(j) && j.freelancer is Some,
    ensures
        process_spec(accounts, storage, data, funding_exempt, now) == Err::<Seq<u8>, EscrowError>(
            EscrowError::StateConflict,
        ),
        apply_spec(decode_job(storage)->Ok_0, accounts[0]) == Err::<JobView, EscrowError>(
            EscrowError::StateConflict,
        ),
{
}

/// Release succeeds exactly when the owner signs, is the record's owner, the
/// record has a freelancer, the supplied freelancer is that one, and the time
/// has reached the release time. The first of these that fails names the
/// error; on success the stored record is the old one marked completed.
pub proof fn lemma_release_preconditions(
    accounts: Seq<AccountInfo>,
    storage: Seq<u8>,
    data: Seq<u8>,
    funding_exempt: bool,
    now: i64,
    j: JobView,
)
    requires
        decode_instruction_spec(data) == Ok::<WillEscrowInstruction, EscrowError>(
            WillEscrowInstruction::ReleaseFunds,
        ),
        accounts.len() == 3,
        decode_job(storage) == Ok::<JobView, EscrowError>(j),
    ensures
        ({
            let r = process_spec(accounts, storage, data, funding_exempt, now);
            let owner = accounts[0];
            let freelancer = accounts[2];
            &&& r is Ok <==> {
                &&& owner.is_signer
                &&& j.owner == owner.key@
                &&& j.freelancer is Some
                &&& j.freelancer->Some_0 == freelancer.key@
                &&& now >= j.release_time
            }
            &&& !owner.is_signer ==> r == Err::<Seq<u8>, EscrowError>(EscrowError::Authorization)
            &&& owner.is_signer && j.owner != owner.key@ ==> r == Err::<Seq<u8>, EscrowError>(
                EscrowError::AuthorizationMismatch,
            )
            &&& owner.is_signer && j.owner == owner.key@ && j.freelancer is None ==> r == Err::<
                Seq<u8>,
                EscrowError,
            >(EscrowError::AuthorizationMismatch)
            &&& owner.is_signer && j.owner == owner.key@ && j.freelancer is Some
                && j.freelancer->Some_0 != freelancer.key@ ==> r == Err::<Seq<u8>, EscrowError>(
                EscrowError::AuthorizationMismatch,
            )
            &&& owner.is_signer && j.owner == owner.key@ && j.freelancer is Some
                && j.freelancer->Some_0 == freelancer.key@ && now < j.release_time ==> r == Err::<
                Seq<u8>,
                EscrowError,
            >(EscrowError::Timing)
            &&& r matches Ok(s) ==> decode_job(s) == Ok::<JobView, EscrowError>(
                JobView { is_completed: true, ..j },
            )
        }),
{
    lemma_decoded_wf(storage);
    let n = JobView { is_completed: true, ..j };
    lemma_read_after_write(storage, n);
}

/// Instruction data whose first byte is not 0, 1 or 2 is rejected as an
/// unknown opcode, whatever the accounts and the stored record.
pub proof fn lemma_unknown_opcode(
    accounts: Seq<AccountInfo>,
    storage: Seq<u8>,
    data: Seq<u8>,
    funding_exempt: bool,
    now: i64,
)
    requires
        data.len() > 0,
        data[0] > 2,
    ensures
        process_spec(accounts, storage, data, funding_exempt, now) == Err::<Seq<u8>, EscrowError>(
            EscrowError::Decoding(DecodeErrorKind::UnknownOpcode),
        ),
{
}

} // verus!
