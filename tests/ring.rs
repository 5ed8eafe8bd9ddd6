use user_ringbuf::codes::USER_RINGBUF_MAP_TYPE;
use user_ringbuf::error::{Error, Invalid};
use user_ringbuf::ring::{check_map_type, create_outcome, request_size, reserve_error, sample_size};
use user_ringbuf::sample::{Release, SampleState};

#[test]
fn user_ringbuf_map_accepted() {
    assert_eq!(check_map_type(USER_RINGBUF_MAP_TYPE), Ok(()));
    assert_eq!(check_map_type(31), Ok(()));
}

#[test]
fn other_map_kinds_refused() {
    let wrong = Err(Error::InvalidInput(Invalid::NotUserRingBuf));
    assert_eq!(check_map_type(27), wrong);
    assert_eq!(check_map_type(1), wrong);
    assert_eq!(check_map_type(2), wrong);
    assert_eq!(check_map_type(0), wrong);
    assert_eq!(check_map_type(u32::MAX), wrong);
}

#[test]
fn created_ring_opens() {
    assert_eq!(create_outcome(true, 0), Ok(()));
    assert_eq!(create_outcome(true, libc::EACCES), Ok(()));
}

#[test]
fn failed_creation_carries_os_code() {
    assert_eq!(create_outcome(false, libc::EACCES), Err(Error::Os(libc::EACCES)));
    assert_eq!(create_outcome(false, libc::EBADF), Err(Error::Os(9)));
    assert_eq!(create_outcome(false, libc::ENOMEM), Err(Error::Os(12)));
}

#[test]
fn request_size_is_exact() {
    assert_eq!(request_size(0), Ok(0));
    assert_eq!(request_size(8), Ok(8));
    assert_eq!(request_size(4096), Ok(4096));
    assert_eq!(request_size(u32::MAX as usize), Ok(u32::MAX));
}

#[test]
fn request_size_beyond_u32_too_large() {
    let big = (u32::MAX as usize).checked_add(1);
    if let Some(n) = big {
        assert_eq!(request_size(n), Err(Error::InvalidInput(Invalid::TooLarge)));
    }
    assert_eq!(request_size(usize::MAX), Err(Error::InvalidInput(Invalid::TooLarge)));
}

#[allow(dead_code)]
struct Record {
    id: u64,
    value: u32,
}

#[test]
fn sample_size_of_types() {
    assert_eq!(sample_size::<u64>(), Ok(8));
    assert_eq!(sample_size::<u8>(), Ok(1));
    assert_eq!(sample_size::<[u8; 16]>(), Ok(16));
    assert_eq!(sample_size::<()>(), Ok(0));
    assert_eq!(sample_size::<Record>(), Ok(std::mem::size_of::<Record>() as u32));
}

#[test]
fn oversized_reservation_is_too_large() {
    assert_eq!(reserve_error(libc::E2BIG), Error::InvalidInput(Invalid::TooLarge));
    assert_eq!(reserve_error(7), Error::InvalidInput(Invalid::TooLarge));
}

#[test]
fn full_ring_is_no_space() {
    assert_eq!(reserve_error(libc::ENOSPC), Error::InvalidInput(Invalid::NoSpace));
    assert_eq!(reserve_error(28), Error::InvalidInput(Invalid::NoSpace));
}

#[test]
fn other_reserve_codes_pass_through() {
    assert_eq!(reserve_error(libc::EPERM), Error::Os(1));
    assert_eq!(reserve_error(libc::EINVAL), Error::Os(22));
    assert_eq!(reserve_error(0), Error::Os(0));
    assert_eq!(reserve_error(-1), Error::Os(-1));
}

#[test]
fn unsubmitted_sample_is_discarded() {
    let s = SampleState::reserved();
    assert!(!s.submitted());
    assert_eq!(s.on_drop(), Release::Discard);
}

#[test]
fn submitted_sample_is_kept() {
    let mut s = SampleState::reserved();
    assert_eq!(s.submit(), Ok(()));
    assert!(s.submitted());
    assert_eq!(s.on_drop(), Release::Keep);
}

#[test]
fn four_samples_submitted_in_turn() {
    for _ in 0..4 {
        assert_eq!(sample_size::<u64>(), Ok(8));
        let mut s = SampleState::reserved();
        assert_eq!(s.submit(), Ok(()));
        assert_eq!(s.on_drop(), Release::Keep);
    }
    assert_eq!(reserve_error(libc::ENOSPC), Error::InvalidInput(Invalid::NoSpace));
}

#[test]
fn reasons_describe_themselves() {
    assert_eq!(Invalid::NotUserRingBuf.describe(), "Must use a UserRingBuf map");
    assert_eq!(Invalid::TooLarge.describe(), "Requested size is too large");
    assert_eq!(Invalid::NoSpace.describe(), "Not enough space in the ring buffer");
}
