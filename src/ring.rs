use vstd::prelude::*;
use vstd::layout::size_of;

use crate::codes::{no_space, no_space_code, too_big, too_big_code, user_ringbuf_type, USER_RINGBUF_MAP_TYPE};
use crate::error::{Error, Invalid};

verus! {

/// Whether a map of the given type may back a user ring buffer.
pub open spec fn map_check(map_type: u32) -> Result<(), Error> {
    if map_type == user_ringbuf_type() {
        Ok(())
    } else {
        Err(Error::InvalidInput(Invalid::NotUserRingBuf))
    }
}

/// What a ring creation that did or did not yield an object leads to.
pub open spec fn create_result(created: bool, errno: i32) -> Result<(), Error> {
    if created {
        Ok(())
    } else {
        Err(Error::Os(errno))
    }
}

/// The whole of opening a ring: the map type is checked first, and the
/// kernel's answer counts only for a map of the right type.
pub open spec fn open_result(map_type: u32, created: bool, errno: i32) -> Result<(), Error> {
    match map_check(map_type) {
        Ok(()) => create_result(created, errno),
        Err(e) => Err(e),
    }
}

/// The byte count handed to the kernel for a sample of `n` bytes: the exact
/// size, or too large where it does not fit the kernel's 32-bit size.
pub open spec fn size_request(n: nat) -> Result<u32, Error> {
    if n <= u32::MAX {
        Ok(n as u32)
    } else {
        Err(Error::InvalidInput(Invalid::TooLarge))
    }
}

/// The error of a reservation that the kernel refused with code `errno`.
pub open spec fn reserve_failure(errno: i32) -> Error {
    if errno == too_big_code() {
        Error::InvalidInput(Invalid::TooLarge)
    } else if errno == no_space_code() {
        Error::InvalidInput(Invalid::NoSpace)
    } else {
        Error::Os(errno)
    }
}

/// Checks that a map of type `map_type` can back a user ring buffer. This is
/// decided before the kernel is asked for anything.
pub fn check_map_type(map_type: u32) -> (r: Result<(), Error>)
    ensures
        r == map_check(map_type),
        r is Ok <==> map_type == user_ringbuf_type(),
{
    if map_type == USER_RINGBUF_MAP_TYPE {
        Ok(())
    } else {
        Err(Error::InvalidInput(Invalid::NotUserRingBuf))
    }
}

/// The result of asking the kernel for a ring object: success when one was
/// created, else the system error code that the failed call left behind.
pub fn create_outcome(created: bool, errno: i32) -> (r: Result<(), Error>)
    ensures
        r == create_result(created, errno),
{
    if created {
        Ok(())
    } else {
        Err(Error::Os(errno))
    }
}

/// The byte count to request for a sample of `n` bytes.
pub fn request_size(n: usize) -> (r: Result<u32, Error>)
    ensures
        r == size_request(n as nat),
{
    if n <= u32::MAX as usize {
        Ok(n as u32)
    } else {
        Err(Error::InvalidInput(Invalid::TooLarge))
    }
}

/// The byte count to request for a sample that holds one `T`.
pub fn sample_size<T>() -> (r: Result<u32, Error>)
    ensures
        r == size_request(size_of::<T>()),
{
    request_size(core::mem::size_of::<T>())
}

/// Classifies the system error code left by a refused reservation: the two
/// codes that the kernel uses for an oversized request and for a full ring
/// become invalid input, any other code is passed on.
pub fn reserve_error(errno: i32) -> (e: Error)
    ensures
        e == reserve_failure(errno),
{
    if errno == too_big() {
        Error::InvalidInput(Invalid::TooLarge)
    } else if errno == no_space() {
        Error::InvalidInput(Invalid::NoSpace)
    } else {
        Error::Os(errno)
    }
}

/// A map of the user ring buffer type opens whenever the kernel creates the
/// ring object, whatever error code is left over from earlier calls.
pub proof fn lemma_ring_map_opens(errno: i32)
    ensures
        open_result(user_ringbuf_type(), true, errno) == Ok::<(), Error>(()),
{
}

/// A map of any other type is refused as invalid input, and the kernel's
/// answer plays no part: it is never asked.
pub proof fn lemma_other_maps_refused(map_type: u32, created: bool, errno: i32)
    requires
        map_type != user_ringbuf_type(),
    ensures
        open_result(map_type, created, errno) == Err::<(), Error>(
            Error::InvalidInput(Invalid::NotUserRingBuf),
        ),
        forall|c: bool, e: i32| open_result(map_type, c, e) == open_result(map_type, created, errno),
{
}

/// A sample whose size fits the kernel's size type is requested with exactly
/// that size.
pub proof fn lemma_fitting_size_exact(n: nat)
    requires
        n <= u32::MAX,
    ensures
        size_request(n) == Ok::<u32, Error>(n as u32),
{
}

/// A sample too large for the kernel's size type is refused as too large
/// without asking the kernel, and a request that the kernel finds larger than
/// the ring is refused as too large as well.
pub proof fn lemma_oversized_refused(n: nat)
    requires
        n > u32::MAX,
    ensures
        size_request(n) == Err::<u32, Error>(Error::InvalidInput(Invalid::TooLarge)),
        reserve_failure(too_big_code()) == Error::InvalidInput(Invalid::TooLarge),
{
}

/// A reservation refused because the ring is full is reported as invalid
/// input for want of space, distinct from every other failure.
pub proof fn lemma_full_ring_no_space(errno: i32)
    ensures
        reserve_failure(no_space_code()) == Error::InvalidInput(Invalid::NoSpace),
        reserve_failure(errno) == Error::InvalidInput(Invalid::NoSpace) <==> errno == no_space_code(),
        reserve_failure(errno) is Os <==> (errno != no_space_code() && errno != too_big_code()),
{
}

} // verus!
