//! Construction and decoding of `ioctl` request codes.
//!
//! A request code packs a direction, a type, a request number and an
//! argument size into one word: the number in bits 0..8, the type in bits
//! 8..16, the size in bits 16..29 and the direction in bits 29..32.

#![allow(non_snake_case)]

use vstd::prelude::*;

verus! {

pub const IOC_NRBITS: usize = 8;
pub const IOC_TYPEBITS: usize = 8;
pub const IOC_SIZEBITS: usize = 13;
pub const IOC_DIRBITS: usize = 3;

pub const IOC_NRMASK: usize = 0xff;
pub const IOC_TYPEMASK: usize = 0xff;
pub const IOC_SIZEMASK: usize = 0x1fff;
pub const IOC_DIRMASK: usize = 0x7;

pub const IOC_NRSHIFT: usize = 0;
pub const IOC_TYPESHIFT: usize = 8;
pub const IOC_SIZESHIFT: usize = 16;
pub const IOC_DIRSHIFT: usize = 29;

/// Direction values.  "None" carries a bit of its own rather than zero, so
/// that stale request codes stand out.
pub const IOC_NONE: usize = 1;
pub const IOC_READ: usize = 2;
pub const IOC_WRITE: usize = 4;

/// The request code packing `dir`, `i_type`, `nr` and `size` into their
/// bit fields.
pub open spec fn spec_ioc(dir: usize, i_type: usize, nr: usize, size: usize) -> usize {
    (dir << IOC_DIRSHIFT) | (i_type << IOC_TYPESHIFT) | (nr << IOC_NRSHIFT) | (size
        << IOC_SIZESHIFT)
}

/// Packs a direction, a type, a request number and a size into a request
/// code.
pub fn _IOC(dir: usize, i_type: usize, nr: usize, size: usize) -> (r: usize)
    ensures
        r == spec_ioc(dir, i_type, nr, size),
{
    (dir << IOC_DIRSHIFT) | (i_type << IOC_TYPESHIFT) | (nr << IOC_NRSHIFT) | (size
        << IOC_SIZESHIFT)
}

/// A request code that moves no data.
pub fn _IO(i_type: usize, nr: usize) -> (r: usize)
    ensures
        r == spec_ioc(IOC_NONE as usize, i_type, nr, 0),
{
    _IOC(IOC_NONE, i_type, nr, 0)
}

/// A request code for reading `size` bytes from the kernel.
pub fn _IOR(i_type: usize, nr: usize, size: usize) -> (r: usize)
    ensures
        r == spec_ioc(IOC_READ as usize, i_type, nr, size),
{
    _IOC(IOC_READ, i_type, nr, size)
}

/// A request code for writing `size` bytes to the kernel.
pub fn _IOW(i_type: usize, nr: usize, size: usize) -> (r: usize)
    ensures
        r == spec_ioc(IOC_WRITE as usize, i_type, nr, size),
{
    _IOC(IOC_WRITE, i_type, nr, size)
}

/// A request code for an exchange in both directions.
pub fn _IOWR(i_type: usize, nr: usize, size: usize) -> (r: usize)
    ensures
        r == spec_ioc((IOC_READ | IOC_WRITE) as usize, i_type, nr, size),
{
    _IOC(IOC_READ | IOC_WRITE, i_type, nr, size)
}

/// The direction field of a request code.
pub fn _IOC_DIR(nr: usize) -> (r: usize)
    ensures
        r == (nr >> IOC_DIRSHIFT) & IOC_DIRMASK,
{
    (nr >> IOC_DIRSHIFT) & IOC_DIRMASK
}

/// The type field of a request code.
pub fn _IOC_TYPE(nr: usize) -> (r: usize)
    ensures
        r == (nr >> IOC_TYPESHIFT) & IOC_TYPEMASK,
{
    (nr >> IOC_TYPESHIFT) & IOC_TYPEMASK
}

/// The request-number field of a request code.
pub fn _IOC_NR(nr: usize) -> (r: usize)
    ensures
        r == (nr >> IOC_NRSHIFT) & IOC_NRMASK,
{
    (nr >> IOC_NRSHIFT) & IOC_NRMASK
}

/// The size field of a request code.
pub fn _IOC_SIZE(nr: usize) -> (r: usize)
    ensures
        r == (nr >> IOC_SIZESHIFT) & IOC_SIZEMASK,
{
    (nr >> IOC_SIZESHIFT) & IOC_SIZEMASK
}

} // verus!
