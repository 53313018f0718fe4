//! The check in front of a vendor WAL ioctl: the interface name handed to
//! the driver must carry its NUL terminator.
use vstd::prelude::*;

verus! {

/// Status of an ioctl that was not issued.
pub const IOCTL_REFUSED: i32 = -1;

/// What an ioctl on `ifname` does: issue `command` when the name holds a NUL
/// terminator, else return [`IOCTL_REFUSED`] without calling the driver.
pub fn ioctl(ifname: &[u8], command: u32) -> (r: Result<u32, i32>)
    ensures
        ifname@.contains(0u8) ==> r == Ok::<u32, i32>(command),
        !ifname@.contains(0u8) ==> r == Err::<u32, i32>(IOCTL_REFUSED),
{
    let mut i: usize = 0;
    while i < ifname.len()
        invariant
            i <= ifname@.len(),
            forall|j: int| 0 <= j < i ==> ifname@[j] != 0u8,
        decreases ifname.len() - i,
    {
        if ifname[i] == 0 {
            assert(ifname@[i as int] == 0u8);
            return Ok(command);
        }
        i += 1;
    }
    Err(IOCTL_REFUSED)
}

} // verus!
