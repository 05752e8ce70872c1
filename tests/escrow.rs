use will_escrow::error::{DecodeErrorKind, EscrowError};
use will_escrow::instruction::{InitializeJobArgs, WillEscrowInstruction};
use will_escrow::processor::{apply, initialize, process_instruction, release, AccountInfo};
use will_escrow::state::{keys_equal, Job, JOB_LEN};

const T: i64 = 1_700_000_000;

fn key(b: u8) -> [u8; 32] {
    [b; 32]
}

fn signer(b: u8) -> AccountInfo {
    AccountInfo { key: key(b), is_signer: true }
}

fn non_signer(b: u8) -> AccountInfo {
    AccountInfo { key: key(b), is_signer: false }
}

fn description(text: &str) -> [u8; 100] {
    let mut d = [0u8; 100];
    d[..text.len()].copy_from_slice(text.as_bytes());
    d
}

fn initialize_data(amount: u64, release_time: i64, desc: &[u8; 100]) -> Vec<u8> {
    let mut data = vec![0u8];
    data.extend_from_slice(&amount.to_le_bytes());
    data.extend_from_slice(&release_time.to_le_bytes());
    data.extend_from_slice(desc);
    data
}

/// Region after scenario A: owner key 0x0a locks 1000 until T.
fn region_a() -> Vec<u8> {
    let mut region = vec![0u8; JOB_LEN];
    let data = initialize_data(1000, T, &description("build site"));
    let accounts = [signer(0x0a), non_signer(0x11), non_signer(0x22)];
    assert_eq!(process_instruction(&accounts, &mut region, &data, true, 0), Ok(()));
    region
}

/// Region after scenario B: freelancer key 0x0f applied to the job of A.
fn region_b() -> Vec<u8> {
    let mut region = region_a();
    let accounts = [signer(0x0f), non_signer(0x11)];
    assert_eq!(process_instruction(&accounts, &mut region, &[1u8], false, 0), Ok(()));
    region
}

fn sample_job() -> Job {
    Job {
        is_initialized: true,
        owner: key(3),
        freelancer: Some(key(4)),
        amount: u64::MAX - 7,
        release_time: -42,
        description: description("paint the fence"),
        is_completed: true,
    }
}

#[test]
fn scenario_a_initialize() {
    let region = region_a();
    let job = Job::decode(&region).unwrap();
    assert!(job.is_initialized);
    assert_eq!(job.owner, key(0x0a));
    assert_eq!(job.freelancer, None);
    assert_eq!(job.amount, 1000);
    assert_eq!(job.release_time, T);
    assert_eq!(job.description, description("build site"));
    assert!(!job.is_completed);
}

#[test]
fn scenario_b_apply() {
    let before = Job::decode(&region_a()).unwrap();
    let after = Job::decode(&region_b()).unwrap();
    assert_eq!(after.freelancer, Some(key(0x0f)));
    assert_eq!(Job { freelancer: None, ..after }, before);
}

#[test]
fn scenario_c_release_too_early() {
    let mut region = region_b();
    let before = region.clone();
    let accounts = [signer(0x0a), non_signer(0x11), non_signer(0x0f)];
    assert_eq!(
        process_instruction(&accounts, &mut region, &[2u8], false, T - 1),
        Err(EscrowError::Timing)
    );
    assert_eq!(region, before);
}

#[test]
fn scenario_d_release_on_time() {
    let mut region = region_b();
    let before = Job::decode(&region).unwrap();
    let accounts = [signer(0x0a), non_signer(0x11), non_signer(0x0f)];
    assert_eq!(process_instruction(&accounts, &mut region, &[2u8], false, T), Ok(()));
    let after = Job::decode(&region).unwrap();
    assert!(after.is_completed);
    assert_eq!(Job { is_completed: false, ..after }, before);
}

#[test]
fn scenario_e_second_apply_conflicts() {
    let mut region = region_b();
    let before = region.clone();
    let accounts = [signer(0x06), non_signer(0x11)];
    assert_eq!(
        process_instruction(&accounts, &mut region, &[1u8], false, 0),
        Err(EscrowError::StateConflict)
    );
    assert_eq!(region, before);
    let job = Job::decode(&region).unwrap();
    assert_eq!(job.freelancer, Some(key(0x0f)));
}

#[test]
fn apply_by_assigned_freelancer_again_conflicts() {
    let mut region = region_b();
    let before = region.clone();
    let accounts = [signer(0x0f), non_signer(0x11)];
    assert_eq!(
        process_instruction(&accounts, &mut region, &[1u8], false, 0),
        Err(EscrowError::StateConflict)
    );
    assert_eq!(region, before);
}

#[test]
fn encode_decode_round_trip() {
    let job = sample_job();
    let bytes = job.encode();
    assert_eq!(bytes.len(), JOB_LEN);
    assert_eq!(Job::decode(&bytes), Ok(job));
    let open = Job { freelancer: None, is_completed: false, ..job };
    assert_eq!(Job::decode(&open.encode()), Ok(open));
}

#[test]
fn encode_layout_offsets() {
    let job = sample_job();
    let bytes = job.encode();
    assert_eq!(bytes[0], 1);
    assert_eq!(&bytes[1..33], &key(3)[..]);
    assert_eq!(bytes[33], 1);
    assert_eq!(&bytes[34..66], &key(4)[..]);
    assert_eq!(&bytes[66..74], &(u64::MAX - 7).to_le_bytes()[..]);
    assert_eq!(&bytes[74..82], &(-42i64).to_le_bytes()[..]);
    assert_eq!(&bytes[82..182], &description("paint the fence")[..]);
    assert_eq!(bytes[182], 1);
}

#[test]
fn encode_absent_freelancer_is_zero_filled() {
    let job = Job { freelancer: None, ..sample_job() };
    let bytes = job.encode();
    assert_eq!(bytes[33], 0);
    assert!(bytes[34..66].iter().all(|b| *b == 0));
}

#[test]
fn decode_reads_only_the_first_record_width() {
    let job = sample_job();
    let mut bytes = job.encode();
    bytes.extend_from_slice(&[9u8; 17]);
    assert_eq!(Job::decode(&bytes), Ok(job));
}

#[test]
fn decode_short_region_fails() {
    let bytes = sample_job().encode();
    assert_eq!(
        Job::decode(&bytes[..JOB_LEN - 1]),
        Err(EscrowError::Decoding(DecodeErrorKind::RecordTooShort))
    );
    assert_eq!(Job::decode(&[]), Err(EscrowError::Decoding(DecodeErrorKind::RecordTooShort)));
}

#[test]
fn decode_bad_tags_fail() {
    for at in [0usize, 33, 182] {
        let mut bytes = sample_job().encode();
        bytes[at] = 2;
        assert_eq!(Job::decode(&bytes), Err(EscrowError::Decoding(DecodeErrorKind::InvalidTag)));
    }
}

#[test]
fn decode_instruction_opcodes() {
    let init = initialize_data(1, 2, &[0u8; 100]);
    assert_eq!(WillEscrowInstruction::decode(&init), Ok(WillEscrowInstruction::InitializeJob));
    assert_eq!(WillEscrowInstruction::decode(&[1]), Ok(WillEscrowInstruction::ApplyForJob));
    assert_eq!(WillEscrowInstruction::decode(&[2, 7, 7]), Ok(WillEscrowInstruction::ReleaseFunds));
    assert_eq!(
        WillEscrowInstruction::decode(&[]),
        Err(EscrowError::Decoding(DecodeErrorKind::Empty))
    );
    assert_eq!(
        WillEscrowInstruction::decode(&init[..116]),
        Err(EscrowError::Decoding(DecodeErrorKind::Truncated))
    );
}

#[test]
fn unknown_opcodes_are_rejected_without_touching_storage() {
    for op in [3u8, 4, 100, 255] {
        let mut region = region_b();
        let before = region.clone();
        let accounts = [signer(0x0a), non_signer(0x11), non_signer(0x0f)];
        assert_eq!(
            process_instruction(&accounts, &mut region, &[op], true, T),
            Err(EscrowError::Decoding(DecodeErrorKind::UnknownOpcode))
        );
        assert_eq!(region, before);
    }
}

#[test]
fn unpack_initialize_args() {
    let desc = description("x");
    let data = initialize_data(0x0102_0304_0506_0708, -5, &desc);
    let args = InitializeJobArgs::unpack(&data).unwrap();
    assert_eq!(args.amount, 0x0102_0304_0506_0708);
    assert_eq!(args.release_time, -5);
    assert_eq!(args.description, desc);
    assert_eq!(
        InitializeJobArgs::unpack(&data[..100]),
        Err(EscrowError::Decoding(DecodeErrorKind::Truncated))
    );
}

#[test]
fn initialize_payload_matches_borsh_layout() {
    let desc = description("build site");
    let payload = borsh::to_vec(&(0u8, 1000u64, T, desc)).unwrap();
    assert_eq!(payload, initialize_data(1000, T, &desc));
    let args = InitializeJobArgs::unpack(&payload).unwrap();
    assert_eq!((args.amount, args.release_time), (1000, T));
}

#[test]
fn initialize_errors() {
    let data = initialize_data(1000, T, &description("build site"));
    let mut region = vec![0u8; JOB_LEN];
    let accounts = [non_signer(0x0a), non_signer(0x11), non_signer(0x22)];
    assert_eq!(
        process_instruction(&accounts, &mut region, &data, true, 0),
        Err(EscrowError::Authorization)
    );
    let accounts = [signer(0x0a), non_signer(0x11), non_signer(0x22)];
    assert_eq!(
        process_instruction(&accounts, &mut region, &data, false, 0),
        Err(EscrowError::FundingPolicy)
    );
    assert_eq!(
        process_instruction(&accounts[..2], &mut region, &data, true, 0),
        Err(EscrowError::Decoding(DecodeErrorKind::AccountCount))
    );
    assert_eq!(
        process_instruction(&accounts, &mut region, &data[..50], true, 0),
        Err(EscrowError::Decoding(DecodeErrorKind::Truncated))
    );
    assert_eq!(region, vec![0u8; JOB_LEN]);
    let mut small = vec![0u8; JOB_LEN - 1];
    assert_eq!(
        process_instruction(&accounts, &mut small, &data, true, 0),
        Err(EscrowError::Decoding(DecodeErrorKind::RecordTooShort))
    );
    assert_eq!(small, vec![0u8; JOB_LEN - 1]);
}

#[test]
fn initialize_keeps_bytes_past_the_record() {
    let data = initialize_data(5, 6, &description("tail"));
    let mut region = vec![0xeeu8; JOB_LEN + 4];
    let accounts = [signer(1), non_signer(2), non_signer(3)];
    assert_eq!(process_instruction(&accounts, &mut region, &data, true, 0), Ok(()));
    assert_eq!(&region[JOB_LEN..], &[0xee; 4]);
    assert_eq!(Job::decode(&region).unwrap().amount, 5);
}

#[test]
fn reinitialize_overwrites_existing_record() {
    let mut region = region_b();
    let data = initialize_data(7, 8, &description("again"));
    let accounts = [signer(0x33), non_signer(0x11), non_signer(0x22)];
    assert_eq!(process_instruction(&accounts, &mut region, &data, true, 0), Ok(()));
    let job = Job::decode(&region).unwrap();
    assert_eq!(job.owner, key(0x33));
    assert_eq!(job.freelancer, None);
    assert_eq!(job.amount, 7);
}

#[test]
fn apply_errors() {
    let mut region = region_a();
    let before = region.clone();
    assert_eq!(
        process_instruction(&[non_signer(0x0f), non_signer(0x11)], &mut region, &[1], false, 0),
        Err(EscrowError::Authorization)
    );
    assert_eq!(
        process_instruction(&[signer(0x0f)], &mut region, &[1], false, 0),
        Err(EscrowError::Decoding(DecodeErrorKind::AccountCount))
    );
    assert_eq!(region, before);
    let mut short = vec![0u8; 10];
    assert_eq!(
        process_instruction(&[signer(0x0f), non_signer(0x11)], &mut short, &[1], false, 0),
        Err(EscrowError::Decoding(DecodeErrorKind::RecordTooShort))
    );
}

#[test]
fn release_each_precondition_fails_alone() {
    let ok = [signer(0x0a), non_signer(0x11), non_signer(0x0f)];
    let cases: [([AccountInfo; 3], i64, EscrowError); 4] = [
        ([non_signer(0x0a), ok[1], ok[2]], T, EscrowError::Authorization),
        ([signer(0x0b), ok[1], ok[2]], T, EscrowError::AuthorizationMismatch),
        ([ok[0], ok[1], non_signer(0x06)], T, EscrowError::AuthorizationMismatch),
        (ok, T - 1, EscrowError::Timing),
    ];
    for (accounts, now, err) in cases {
        let mut region = region_b();
        let before = region.clone();
        assert_eq!(process_instruction(&accounts, &mut region, &[2], false, now), Err(err));
        assert_eq!(region, before);
    }
    let mut region = region_b();
    assert_eq!(process_instruction(&ok, &mut region, &[2], false, T + 1), Ok(()));
}

#[test]
fn release_without_freelancer_is_mismatch() {
    let mut region = region_a();
    let before = region.clone();
    let accounts = [signer(0x0a), non_signer(0x11), non_signer(0x0f)];
    assert_eq!(
        process_instruction(&accounts, &mut region, &[2], false, T),
        Err(EscrowError::AuthorizationMismatch)
    );
    assert_eq!(region, before);
}

#[test]
fn transitions_on_records() {
    let args = InitializeJobArgs { amount: 9, release_time: 10, description: description("d") };
    let job = initialize(&signer(1), &args, true).unwrap();
    assert_eq!(initialize(&non_signer(1), &args, true), Err(EscrowError::Authorization));
    let assigned = apply(&job, &signer(2)).unwrap();
    assert_eq!(assigned.freelancer, Some(key(2)));
    assert_eq!(apply(&assigned, &signer(3)), Err(EscrowError::StateConflict));
    let done = release(&assigned, &signer(1), &non_signer(2), 10).unwrap();
    assert!(done.is_completed);
    assert_eq!(release(&assigned, &signer(1), &non_signer(2), 9), Err(EscrowError::Timing));
}

#[test]
fn keys_compare_by_bytes() {
    let mut other = key(5);
    assert!(keys_equal(&key(5), &other));
    other[31] = 6;
    assert!(!keys_equal(&key(5), &other));
}
