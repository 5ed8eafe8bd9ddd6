use vstd::prelude::*;

verus! {

/// The code that the kernel reports for a sample larger than the ring can hold.
pub open spec fn too_big_code() -> i32 {
    7
}

/// The code that the kernel reports when the ring has no free room.
pub open spec fn no_space_code() -> i32 {
    28
}

/// The kernel's map type number for a user ring buffer
/// (`BPF_MAP_TYPE_USER_RINGBUF` in the kernel's BPF interface).
pub const USER_RINGBUF_MAP_TYPE: u32 = 31;

/// The map type number of a user ring buffer, for contracts.
pub open spec fn user_ringbuf_type() -> u32 {
    USER_RINGBUF_MAP_TYPE
}

/// Relies on libc::E2BIG, which is 7 on Linux.
#[verifier::external_body]
pub(crate) fn too_big() -> (r: i32)
    ensures
        r == too_big_code(),
{
    libc::E2BIG
}

/// Relies on libc::ENOSPC, which is 28 on Linux.
#[verifier::external_body]
pub(crate) fn no_space() -> (r: i32)
    ensures
        r == no_space_code(),
{
    libc::ENOSPC
}

} // verus!
